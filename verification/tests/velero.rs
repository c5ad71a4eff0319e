//! Velero: inspections, triggers and storage locations.

use sofka_plugins::pipes::{capture, Captured, Progress as Reply, Reading};
use sofka_plugins::report::{Body, Report};
use sofka_plugins::text_map::TextMap;
use sofka_plugins::velero::{
    describe, details, dry_run, fetch, locations_arguments, phase, progress, render, replay,
    selected_object, text, texts, trigger_arguments, velero_namespace, Action, Fetch, Meta,
    Progress, Request, Resource, Source, Spec, Status, Storage,
    DIAGNOSTICS_NOTICE,
};

fn no_progress() -> Progress {
    Progress { total_items: 0, items_backed_up: 0, items_restored: 0 }
}

fn no_status() -> Status {
    Status {
        phase: String::new(),
        start_timestamp: String::new(),
        completion_timestamp: String::new(),
        expiration: String::new(),
        failure_reason: String::new(),
        validation_errors: Vec::new(),
        errors: 0,
        warnings: 0,
        progress: no_progress(),
        message: String::new(),
        last_validation_time: String::new(),
        last_synced_time: String::new(),
        last_backup: String::new(),
    }
}

fn no_spec() -> Spec {
    Spec {
        ttl: String::new(),
        storage_location: String::new(),
        included_namespaces: Vec::new(),
        excluded_namespaces: Vec::new(),
        snapshot_volumes: None,
        backup_name: String::new(),
        schedule_name: String::new(),
        schedule: String::new(),
        paused: false,
        provider: String::new(),
        access_mode: String::new(),
        default: false,
        validation_frequency: String::new(),
        object_storage: Storage { bucket: String::new(), prefix: String::new() },
    }
}

fn resource(kind: &str, name: &str) -> Resource {
    Resource {
        api_version: "velero.io/v1".to_string(),
        kind: kind.to_string(),
        metadata: Meta {
            name: name.to_string(),
            namespace: "velero".to_string(),
            labels: TextMap::new(),
        },
        spec: no_spec(),
        status: no_status(),
    }
}

fn inputs(entries: &[(&str, &str)]) -> TextMap<String> {
    let mut map: TextMap<String> = TextMap::new();
    for (key, value) in entries {
        map.insert(key.to_string(), value.to_string());
    }
    map
}

fn request(name: &str, entries: &[(&str, &str)], object: Option<Resource>) -> Request {
    Request {
        schema_version: 1,
        context: "development".to_string(),
        namespace: "velero".to_string(),
        name: name.to_string(),
        inputs: inputs(entries),
        object,
    }
}

const BACKUP: &str = "daily-apps-20260914020000";

fn backup() -> Resource {
    let mut labels: TextMap<String> = TextMap::new();
    labels.insert("velero.io/schedule-name".to_string(), "daily-apps".to_string());
    let mut backup = resource("Backup", BACKUP);
    backup.metadata.labels = labels;
    backup.spec = Spec {
        ttl: "720h0m0s".to_string(),
        storage_location: "default".to_string(),
        included_namespaces: vec!["apps".to_string()],
        excluded_namespaces: vec!["kube-system".to_string()],
        snapshot_volumes: Some(true),
        ..no_spec()
    };
    backup.status = Status {
        phase: "PartiallyFailed".to_string(),
        start_timestamp: "2026-09-14T02:00:01Z".to_string(),
        completion_timestamp: "2026-09-14T02:03:12Z".to_string(),
        expiration: "2026-10-14T02:00:01Z".to_string(),
        errors: 1,
        warnings: 2,
        progress: Progress { total_items: 120, items_backed_up: 118, items_restored: 0 },
        ..no_status()
    };
    backup
}

fn backup_request() -> Request {
    request(BACKUP, &[], Some(backup()))
}

fn schedule() -> Resource {
    let mut schedule = resource("Schedule", "daily-apps");
    schedule.spec = Spec { schedule: "0 2 * * *".to_string(), ..no_spec() };
    schedule.status = Status {
        phase: "Enabled".to_string(),
        last_backup: "2026-09-14T02:00:01Z".to_string(),
        ..no_status()
    };
    schedule
}

fn trigger_request(dry: &str) -> Request {
    request("daily-apps", &[("dry_run", dry)], Some(schedule()))
}

fn locations_request() -> Request {
    request("", &[("replay", "plugins/velero/fixtures/locations.json")], None)
}

fn rows(report: &Report) -> Vec<(String, String)> {
    match &report.sections[0].body {
        Body::Table { rows, .. } => rows.clone(),
        Body::Lines { .. } => panic!("the summary is not a table"),
    }
}

fn lines(report: &Report, section: usize) -> Vec<String> {
    match &report.sections[section].body {
        Body::Lines { lines } => lines.clone(),
        Body::Table { .. } => panic!("section {section} is a table"),
    }
}

fn titles(report: &Report) -> Vec<&str> {
    report.sections.iter().map(|section| section.title.as_str()).collect()
}

fn row(field: &str, value: &str) -> (String, String) {
    (field.to_string(), value.to_string())
}

fn inspect(request: &Request) -> Result<Report, String> {
    render(Action::Inspect, request, &Source::Selected)
}

fn trigger(request: &Request, output: &[u8]) -> Result<Report, String> {
    render(Action::Trigger, request, &Source::Output(output.to_vec()))
}

fn listed(items: Vec<Resource>) -> Result<Report, String> {
    render(Action::Locations, &locations_request(), &Source::Listed(items))
}

// ------------------------------------------------------------------ reports --

#[test]
fn the_backup_fixture_matches_its_report() {
    let report = inspect(&backup_request()).unwrap();
    assert_eq!(report.schema_version, 1);
    assert_eq!(report.title, "Velero backup");
    assert_eq!(
        rows(&report),
        [
            row("Verdict", "PartiallyFailed"),
            row("Context", "development"),
            row("Namespace", "velero"),
            row("Backup", BACKUP),
            row("From schedule", "daily-apps"),
            row("Storage location", "default"),
            row("Started", "2026-09-14T02:00:01Z"),
            row("Completed", "2026-09-14T02:03:12Z"),
            row("Expires", "2026-10-14T02:00:01Z"),
            row("TTL", "720h0m0s"),
            row("Volume snapshots", "enabled"),
            row("Progress", "118 of 120 items"),
            row("Errors", "1"),
            row("Warnings", "2"),
        ]
    );
    assert_eq!(titles(&report), ["Summary", "Included namespaces", "Excluded namespaces"]);
    assert_eq!(lines(&report, 1), ["apps"]);
    assert_eq!(lines(&report, 2), ["kube-system"]);
}

#[test]
fn the_restore_fixture_reports_progress_validation_and_failure() {
    let mut restore = resource("Restore", "apps-restore");
    restore.spec = Spec {
        backup_name: BACKUP.to_string(),
        included_namespaces: vec!["apps".to_string()],
        ..no_spec()
    };
    restore.status = Status {
        phase: "Failed".to_string(),
        failure_reason: "the backup \"x\" is gone".to_string(),
        validation_errors: vec!["no \"such\" location".to_string()],
        progress: Progress { total_items: 214, items_backed_up: 0, items_restored: 118 },
        ..no_status()
    };
    let report = inspect(&request("apps-restore", &[], Some(restore))).unwrap();
    assert_eq!(report.title, "Velero restore");
    assert!(rows(&report).contains(&row("Progress", "118 of 214 items")));
    assert!(rows(&report).contains(&row("From backup", BACKUP)));
    assert_eq!(
        titles(&report),
        ["Summary", "Included namespaces", "Validation errors", "Failure"]
    );
    assert_eq!(lines(&report, 3), ["the backup \"x\" is gone"]);
}

#[test]
fn the_trigger_fixture_is_a_dry_run_that_matches_its_report() {
    let request = trigger_request("true");
    assert!(dry_run(&request));
    let report = trigger(&request, b"").unwrap();
    assert_eq!(report.title, "Trigger backup schedule");
    assert_eq!(
        rows(&report),
        [
            row("Verdict", "dry run, nothing was triggered"),
            row("Context", "development"),
            row("Namespace", "velero"),
            row("Schedule", "daily-apps"),
            row("Cron", "0 2 * * *"),
            row("Schedule phase", "Enabled"),
            row("Last backup", "2026-09-14T02:00:01Z"),
        ]
    );
    assert_eq!(titles(&report), ["Summary", "Command", "Notice"]);
    assert_eq!(
        lines(&report, 1),
        ["velero backup create --from-schedule daily-apps --namespace velero --kubecontext development"]
    );
    assert_eq!(
        lines(&report, 2),
        ["Re-run with dry_run=false to create a backup from this schedule."]
    );
}

#[test]
fn the_locations_fixture_matches_its_report() {
    let mut first = resource("BackupStorageLocation", "default");
    first.spec = Spec {
        provider: "aws".to_string(),
        access_mode: "ReadWrite".to_string(),
        default: true,
        validation_frequency: "1m0s".to_string(),
        object_storage: Storage { bucket: "backups".to_string(), prefix: "dev".to_string() },
        ..no_spec()
    };
    first.status = Status {
        phase: "Available".to_string(),
        last_validation_time: "2026-09-14T02:10:00Z".to_string(),
        last_synced_time: "2026-09-14T02:11:00Z".to_string(),
        ..no_status()
    };
    let mut second = resource("BackupStorageLocation", "offsite");
    second.status = Status {
        phase: "Unavailable".to_string(),
        message: "no such bucket".to_string(),
        ..no_status()
    };
    let report = listed(vec![first, second]).unwrap();
    assert_eq!(report.title, "Backup storage locations");
    assert_eq!(
        rows(&report),
        [
            row("Verdict", "1 of 2 available"),
            row("Context", "development"),
            row("Namespace", "velero"),
            row("Default", "default"),
        ]
    );
    assert_eq!(titles(&report), ["Summary", "default", "offsite"]);
    match &report.sections[1].body {
        Body::Table { columns, rows } => {
            assert_eq!(*columns, row("Field", "Value"));
            assert_eq!(
                *rows,
                [
                    row("Phase", "Available"),
                    row("Provider", "aws"),
                    row("Bucket", "backups"),
                    row("Prefix", "dev"),
                    row("Access mode", "ReadWrite"),
                    row("Default", "yes"),
                    row("Validation every", "1m0s"),
                    row("Last validated", "2026-09-14T02:10:00Z"),
                    row("Last synced", "2026-09-14T02:11:00Z"),
                ]
            );
        }
        Body::Lines { .. } => panic!("a location is a table"),
    }
    match &report.sections[2].body {
        Body::Table { rows, .. } => {
            assert_eq!(*rows, [row("Phase", "Unavailable"), row("Message", "no such bucket")])
        }
        Body::Lines { .. } => panic!("a location is a table"),
    }
}

#[test]
fn the_locations_request_fixture_replays_the_locations_fixture() {
    assert_eq!(
        fetch(Action::Locations, &locations_request()),
        Ok(Fetch::Replay { path: "plugins/velero/fixtures/locations.json".to_string() })
    );
}

#[test]
fn a_replayed_object_renders_the_same_report_as_the_request_object() {
    let request = backup_request();
    assert_eq!(
        render(Action::Inspect, &request, &Source::Replayed(backup())).unwrap(),
        inspect(&request).unwrap()
    );
}

/// A backup that ran clean: Velero leaves `errors`, `warnings` and `progress`
/// out of the status entirely rather than writing zeros.
#[test]
fn a_status_without_counts_reports_zero_and_omits_progress() {
    let mut backup = backup();
    backup.status = Status {
        phase: "Completed".to_string(),
        start_timestamp: "2026-09-14T02:00:01Z".to_string(),
        completion_timestamp: "2026-09-14T02:00:02Z".to_string(),
        ..no_status()
    };
    let report = inspect(&request(BACKUP, &[], Some(backup))).unwrap();
    assert!(rows(&report).contains(&row("Errors", "0")));
    assert!(rows(&report).contains(&row("Warnings", "0")));
    assert!(!rows(&report).iter().any(|row| row.0 == "Progress"));
}

// ------------------------------------------------------------------ actions --

#[test]
fn the_action_comes_from_the_first_argument_and_defaults_to_inspect() {
    let parse = |args: &[&str]| {
        Action::parse(&args.iter().map(|a| a.to_string()).collect::<Vec<String>>())
    };
    assert_eq!(parse(&[]), Ok(Action::Inspect));
    assert_eq!(parse(&["inspect"]), Ok(Action::Inspect));
    assert_eq!(parse(&["trigger"]), Ok(Action::Trigger));
    assert_eq!(parse(&["locations"]), Ok(Action::Locations));
    assert!(parse(&["delete"]).unwrap_err().contains("unknown action"));
    assert!(parse(&["trigger", "now"]).unwrap_err().contains("unexpected"));
    assert_eq!(
        parse(&["de\"lete"]).unwrap_err(),
        "unknown action \"de\\\"lete\"; use inspect, trigger or locations"
    );
    assert_eq!(parse(&["trigger", "now"]).unwrap_err(), "unexpected argument \"now\"");
}

#[test]
fn a_trigger_never_replays_saved_output() {
    let mut request = trigger_request("true");
    request.inputs.insert("replay".to_string(), "/does/not/exist".to_string());
    assert_eq!(fetch(Action::Trigger, &request), Ok(Fetch::Pretend));
    request.inputs.insert("dry_run".to_string(), "false".to_string());
    assert_eq!(
        fetch(Action::Trigger, &request),
        Ok(Fetch::Velero { arguments: trigger_arguments(&request) })
    );
}

/// A trigger acts on the selected object by name, so that object is checked
/// before Velero is run.
#[test]
fn a_trigger_is_refused_before_anything_runs() {
    let refused = |request: &Request| fetch(Action::Trigger, request).unwrap_err();
    assert_eq!(
        refused(&request("daily-apps", &[("dry_run", "false")], None)),
        "the request has no object for \"daily-apps\"; cannot verify it"
    );
    assert_eq!(
        refused(&request(BACKUP, &[("dry_run", "false")], Some(backup()))),
        format!("velero/{BACKUP} is a Backup from velero.io/v1, not a velero.io Schedule")
    );
    let foreign = Resource { api_version: "apps/v1".to_string(), ..schedule() };
    assert_eq!(
        refused(&request("daily-apps", &[("dry_run", "false")], Some(foreign))),
        "velero/daily-apps is a Schedule from apps/v1, not a velero.io Schedule"
    );
    assert_eq!(
        refused(&request("nightly", &[("dry_run", "false")], Some(schedule()))),
        "the selected object is name \"daily-apps\", the request names \"nightly\""
    );
}

/// An unclear value never creates a backup. Without the input there is one.
#[test]
fn anything_but_an_explicit_false_keeps_a_trigger_dry() {
    for setting in ["true", "TRUE", "FALSE", "yes", "no", "0", ""] {
        let request = trigger_request(setting);
        assert!(dry_run(&request), "{setting:?}");
        assert_eq!(fetch(Action::Trigger, &request), Ok(Fetch::Pretend), "{setting:?}");
    }
    assert!(!dry_run(&trigger_request("false")));
    let unsaid = request("daily-apps", &[], Some(schedule()));
    assert!(!dry_run(&unsaid));
    assert_eq!(
        fetch(Action::Trigger, &unsaid),
        Ok(Fetch::Velero { arguments: trigger_arguments(&unsaid) })
    );
}

#[test]
fn the_trigger_command_names_the_schedule_the_namespace_and_the_context() {
    assert_eq!(
        trigger_arguments(&trigger_request("true")),
        [
            "backup",
            "create",
            "--from-schedule",
            "daily-apps",
            "--namespace",
            "velero",
            "--kubecontext",
            "development"
        ]
    );
}

#[test]
fn the_locations_command_reads_the_velero_namespace_from_the_input() {
    let mut request = locations_request();
    request.inputs.insert("namespace".to_string(), "backup-system".to_string());
    assert_eq!(
        locations_arguments(&request),
        [
            "get",
            "backupstoragelocations.velero.io",
            "--output",
            "json",
            "--namespace",
            "backup-system",
            "--context",
            "development"
        ]
    );
    assert_eq!(velero_namespace(Action::Locations, &request), "backup-system");
    assert_eq!(velero_namespace(Action::Trigger, &request), "backup-system");
    // Without the input they are read where Velero is installed by default, and
    // not in the namespace that is being browsed.
    let bare = Request {
        context: String::new(),
        namespace: "apps".to_string(),
        inputs: inputs(&[("namespace", "")]),
        ..request
    };
    assert_eq!(
        locations_arguments(&bare),
        [
            "get",
            "backupstoragelocations.velero.io",
            "--output",
            "json",
            "--namespace",
            "velero"
        ]
    );
    assert_eq!(velero_namespace(Action::Trigger, &bare), "apps");
    assert_eq!(
        fetch(Action::Locations, &bare),
        Ok(Fetch::Kubectl { arguments: locations_arguments(&bare) })
    );
}

/// An inspection replays a saved object in place of the selected one, and
/// without a replay it reads nothing at all.
#[test]
fn an_inspection_reads_only_what_the_replay_names() {
    let saved = "fixtures/locations.json";
    assert_eq!(
        fetch(Action::Inspect, &request(BACKUP, &[("replay", saved)], None)),
        Ok(Fetch::Replay { path: saved.to_string() })
    );
    assert_eq!(fetch(Action::Inspect, &backup_request()), Ok(Fetch::Nothing));
}

#[test]
fn the_replay_file_is_bounded_and_a_missing_one_is_an_error() {
    assert_eq!(
        replay("large.json", vec![b'x'; 1024 * 1024 + 1]),
        Err("saved output large.json exceeds 1 MiB".to_string())
    );
    assert_eq!(replay("small.json", b"{}".to_vec()), Ok(b"{}".to_vec()));
    assert_eq!(replay("full.json", vec![b'x'; 1024 * 1024]).unwrap().len(), 1024 * 1024);
}

// ---------------------------------------------------------------- rendering --

/// Sofka sends a null context when it has no explicit kubeconfig context.
#[test]
fn a_request_without_a_context_reports_it_as_inferred() {
    let request = Request { context: String::new(), ..backup_request() };
    assert!(rows(&inspect(&request).unwrap()).contains(&row("Context", "inferred")));
}

#[test]
fn a_backup_velero_has_not_started_reports_no_phase_yet() {
    let mut backup = backup();
    backup.status = no_status();
    let report = inspect(&request(BACKUP, &[], Some(backup))).unwrap();
    assert_eq!(rows(&report)[0], row("Verdict", "no phase yet"));
    assert_eq!(phase(&no_status()), "no phase yet");
}

#[test]
fn a_backup_of_every_namespace_says_so_rather_than_showing_nothing() {
    let mut backup = backup();
    backup.spec.included_namespaces = Vec::new();
    backup.spec.excluded_namespaces = Vec::new();
    let report = inspect(&request(BACKUP, &[], Some(backup))).unwrap();
    assert_eq!(report.sections.len(), 2, "the excluded section is dropped");
    assert_eq!(report.sections[1].title, "Included namespaces");
    assert_eq!(lines(&report, 1), ["<all>"]);
    assert_eq!(details(&no_spec(), &no_status()).len(), 1);
}

#[test]
fn volume_snapshots_are_reported_only_when_the_spec_decides() {
    let shown = |value: Option<bool>| {
        let mut backup = backup();
        backup.spec.snapshot_volumes = value;
        let report = inspect(&request(BACKUP, &[], Some(backup))).unwrap();
        rows(&report).into_iter().find(|row| row.0 == "Volume snapshots")
    };
    assert_eq!(shown(Some(true)), Some(row("Volume snapshots", "enabled")));
    assert_eq!(shown(Some(false)), Some(row("Volume snapshots", "disabled")));
    assert_eq!(shown(None), None);
}

#[test]
fn a_live_trigger_reports_the_velero_output_and_what_comes_next() {
    let output = b"Backup request \"daily-apps-1\" submitted successfully.\n\n";
    let report = trigger(&trigger_request("false"), output).unwrap();
    assert_eq!(rows(&report)[0], row("Verdict", "backup requested"));
    assert_eq!(titles(&report), ["Summary", "Command", "velero output", "Next"]);
    // The blank line velero prints is dropped, not rendered as a row.
    assert_eq!(
        lines(&report, 2),
        ["Backup request \"daily-apps-1\" submitted successfully."]
    );
    assert_eq!(
        lines(&report, 3),
        [
            "Velero runs the backup in the background; the report does not wait for it.",
            "Select the new Backup and use :velero-inspect to follow it.",
        ]
    );
}

#[test]
fn a_silent_trigger_says_so_rather_than_showing_an_empty_section() {
    let report = trigger(&trigger_request("false"), b"  \n").unwrap();
    assert_eq!(lines(&report, 2), ["<no output>"]);
}

#[test]
fn a_paused_schedule_is_reported_as_paused() {
    let mut schedule = schedule();
    schedule.spec.paused = true;
    let request = request("daily-apps", &[("dry_run", "true")], Some(schedule));
    assert!(rows(&trigger(&request, b"").unwrap()).contains(&row("Paused", "yes")));
}

#[test]
fn locations_without_a_default_say_none() {
    let mut only = resource("BackupStorageLocation", "only");
    only.status = Status { phase: "Unavailable".to_string(), ..no_status() };
    let report = listed(vec![only]).unwrap();
    assert_eq!(rows(&report)[0], row("Verdict", "0 of 1 available"));
    assert!(rows(&report).contains(&row("Default", "none")));
}

// ------------------------------------------------------------------ refusal --

#[test]
fn a_backup_from_another_api_group_is_refused() {
    let mut backup = backup();
    backup.api_version = "backup.example.com/v1".to_string();
    let error = inspect(&request(BACKUP, &[], Some(backup))).unwrap_err();
    assert!(error.contains("not a velero.io Backup or Restore"), "{error}");
    assert_eq!(
        error,
        format!("velero/{BACKUP} is a Backup from backup.example.com/v1, not a velero.io Backup or Restore")
    );
}

#[test]
fn a_schedule_is_not_inspected_as_a_backup() {
    let error = inspect(&trigger_request("true")).unwrap_err();
    assert!(error.contains("Schedule"), "{error}");
}

#[test]
fn an_object_that_names_another_resource_is_refused() {
    let mut backup = backup();
    backup.metadata.name = "weekly-apps-20260907020000".to_string();
    let error = inspect(&request(BACKUP, &[], Some(backup))).unwrap_err();
    assert!(error.contains("the request names"), "{error}");
    assert_eq!(
        error,
        format!("the selected object is name \"weekly-apps-20260907020000\", the request names \"{BACKUP}\"")
    );
}

#[test]
fn a_trigger_without_an_object_is_refused() {
    let request = Request { object: None, ..trigger_request("true") };
    let error = trigger(&request, b"").unwrap_err();
    assert!(error.contains("no object"), "{error}");
    assert_eq!(error, "the request has no object for \"daily-apps\"; cannot verify it");
    assert!(selected_object(&request).is_err());
}

#[test]
fn a_selection_without_a_namespace_is_refused() {
    let request = Request { namespace: String::new(), ..backup_request() };
    let error = inspect(&request).unwrap_err();
    assert!(error.contains("no namespace"), "{error}");
}

#[test]
fn an_unnamed_selection_is_refused() {
    let request = Request { name: String::new(), ..backup_request() };
    assert_eq!(inspect(&request).unwrap_err(), "no Backup or Restore selected");
}

#[test]
fn an_object_from_another_namespace_is_refused() {
    let mut backup = backup();
    backup.metadata.namespace = "other".to_string();
    let error = inspect(&request(BACKUP, &[], Some(backup))).unwrap_err();
    assert!(error.contains("is namespace \"other\""), "{error}");
}

#[test]
fn an_object_with_no_kind_at_all_is_described_rather_than_guessed() {
    let mut unknown = resource("", BACKUP);
    unknown.api_version = String::new();
    assert_eq!(describe(&unknown), "a <no kind> from <no apiVersion>");
    let error = inspect(&request(BACKUP, &[], Some(unknown))).unwrap_err();
    assert!(error.contains("a <no kind> from <no apiVersion>"), "{error}");
}

#[test]
fn a_list_of_something_other_than_locations_is_refused() {
    let mut stranger = resource("ConfigMap", "x");
    stranger.api_version = "v1".to_string();
    let error = listed(vec![stranger]).unwrap_err();
    assert!(error.contains("not a backupstoragelocations"), "{error}");
    assert_eq!(error, "a ConfigMap from v1 is not a backupstoragelocations.velero.io");
}

#[test]
fn an_empty_list_of_locations_reports_that_there_are_none() {
    let report = listed(Vec::new()).unwrap();
    assert_eq!(rows(&report)[0], row("Verdict", "no backup storage locations"));
}

#[test]
fn output_that_is_not_text_is_an_error_rather_than_an_empty_report() {
    let error = trigger(&trigger_request("true"), &[0xff]).unwrap_err();
    assert_eq!(
        error,
        "velero wrote output that is not UTF-8: invalid utf-8 sequence of 1 bytes from index 0"
    );
    assert_eq!(text("é".as_bytes(), "velero"), Ok("é".to_string()));
}

#[test]
fn counts_are_shown_once_there_are_any() {
    assert_eq!(progress(3, 0), "");
    assert_eq!(progress(3, 7), "3 of 7 items");
    assert_eq!(texts(&vec!["a".to_string(), String::new()]), ["a", ""]);
}

// -------------------------------------------------------------------- pipes --

#[test]
fn a_capture_is_bounded_but_still_drained_to_the_end() {
    let stream = vec![b'x'; 4096];
    let mut captured = Captured::new();
    let mut drained: usize = 0;
    for chunk in stream.chunks(512) {
        let reply = capture(&mut captured, Reading::Bytes(chunk.to_vec()), 1024, "");
        assert!(matches!(reply, Reply::More(_)));
        drained += chunk.len();
    }
    assert_eq!(capture(&mut captured, Reading::Bytes(Vec::new()), 1024, ""), Reply::End);
    assert_eq!(captured.bytes.len(), 1024);
    assert!(captured.truncated);
    // Draining matters: a child blocked on a full pipe never exits.
    assert_eq!(drained, 4096);
    let mut captured = Captured::new();
    capture(&mut captured, Reading::Bytes(b"short".to_vec()), 1024, "");
    assert_eq!(capture(&mut captured, Reading::Bytes(Vec::new()), 1024, ""), Reply::End);
    assert_eq!(captured.bytes, b"short");
    assert!(!captured.truncated);
}

#[test]
fn diagnostics_are_forwarded_with_a_notice_and_a_broken_writer_is_survived() {
    let notice = DIAGNOSTICS_NOTICE;
    let mut captured = Captured::new();
    let forwarded = match capture(&mut captured, Reading::Bytes(b"loud".to_vec()), 2, notice) {
        Reply::More(forwarded) => String::from_utf8(forwarded).unwrap(),
        other => panic!("{other:?}"),
    };
    assert_eq!(captured.bytes, b"lo");
    assert!(captured.truncated);
    assert!(forwarded.starts_with("lo"), "{forwarded}");
    assert!(forwarded.contains("velero diagnostics truncated"), "{forwarded}");
    assert_eq!(forwarded, "lo\n[velero diagnostics truncated; operation continues]\n");
    // The notice comes once.
    assert_eq!(
        capture(&mut captured, Reading::Bytes(b"er".to_vec()), 2, notice),
        Reply::More(Vec::new())
    );
    // What nobody takes over is captured all the same.
    let mut captured = Captured::new();
    capture(&mut captured, Reading::Bytes(b"loud".to_vec()), 64, notice);
    assert_eq!(captured.bytes, b"loud");
}
