//! Deprecated apiVersions.

use sofka_plugins::deprecated_apis::{
    context, fetch, kubent_arguments, pluto_arguments, render, replay, resource_arguments,
    sections, selection, undefined, verdict, Action, Fetch, Finding, KubentItem, PlutoApi,
    PlutoItem, PlutoReport, Request, Source,
};
use sofka_plugins::report::{Body, Report};
use sofka_plugins::text_map::TextMap;

const EXIT_FLAGS: [&str; 3] =
    ["--ignore-deprecations", "--ignore-removals", "--ignore-unavailable-replacements"];

fn inputs(entries: &[(&str, &str)]) -> TextMap<String> {
    let mut map: TextMap<String> = TextMap::new();
    for (key, value) in entries {
        map.insert(key.to_string(), value.to_string());
    }
    map
}

fn request(entries: &[(&str, &str)]) -> Request {
    Request {
        schema_version: 1,
        context: "development".to_string(),
        namespace: "apps".to_string(),
        name: "web".to_string(),
        inputs: inputs(entries),
        object: None,
    }
}

fn pluto_item(
    place: (&str, &str),
    api: (&str, &str),
    since: (&str, &str),
    replacement: &str,
    removed: bool,
) -> PlutoItem {
    PlutoItem {
        name: place.1.to_string(),
        namespace: place.0.to_string(),
        api: PlutoApi {
            version: api.1.to_string(),
            kind: api.0.to_string(),
            deprecated_in: since.0.to_string(),
            removed_in: since.1.to_string(),
            replacement_api: replacement.to_string(),
            component: "k8s".to_string(),
        },
        deprecated: true,
        removed,
        replacement_available: !replacement.is_empty(),
    }
}

fn pluto() -> Source {
    let mut target_versions: TextMap<String> = TextMap::new();
    target_versions.insert("k8s".to_string(), "v1.31.0".to_string());
    target_versions.insert("istio".to_string(), "v1.11.0".to_string());
    Source::Pluto(PlutoReport {
        items: vec![
            pluto_item(
                ("apps", "web"),
                ("Ingress", "extensions/v1beta1"),
                ("v1.14.0", "v1.22.0"),
                "networking.k8s.io/v1",
                true,
            ),
            pluto_item(
                ("", "restricted"),
                ("PodSecurityPolicy", "policy/v1beta1"),
                ("v1.21.0", "v1.25.0"),
                "",
                true,
            ),
            pluto_item(
                ("apps", "job"),
                ("CronJob", "batch/v1beta1"),
                ("v1.21.0", "v1.25.0"),
                "batch/v1",
                true,
            ),
            pluto_item(
                ("apps", "scaler"),
                ("HorizontalPodAutoscaler", "autoscaling/v2beta2"),
                ("v1.23.0", "v1.26.0"),
                "autoscaling/v2",
                false,
            ),
        ],
        target_versions,
    })
}

fn kubent_item(name: &str, namespace: &str, replace_with: &str) -> KubentItem {
    KubentItem {
        name: name.to_string(),
        namespace: namespace.to_string(),
        kind: "PodSecurityPolicy".to_string(),
        api_version: "policy/v1beta1".to_string(),
        rule_set: "Deprecated APIs removed in 1.25".to_string(),
        replace_with: replace_with.to_string(),
    }
}

fn rows(report: &Report) -> Vec<(String, String)> {
    match &report.sections[0].body {
        Body::Table { rows, .. } => rows.clone(),
        Body::Lines { .. } => panic!("the summary is not a table"),
    }
}

fn lines(report: &Report, section: usize) -> Vec<String> {
    match &report.sections[section].body {
        Body::Lines { lines } => lines.clone(),
        Body::Table { .. } => panic!("section {section} is a table"),
    }
}

fn titles(report: &Report) -> Vec<&str> {
    report.sections.iter().map(|section| section.title.as_str()).collect()
}

fn row(field: &str, value: &str) -> (String, String) {
    (field.to_string(), value.to_string())
}

#[test]
fn the_pluto_fixture_matches_its_report() {
    let report = render(Action::Pluto, &request(&[("namespace", "apps")]), &pluto());
    assert_eq!(report.title, "Deprecated APIs (pluto)");
    assert_eq!(
        rows(&report),
        [
            row("Verdict", "3 removed, 1 deprecated"),
            row("Context", "development"),
            row("Namespace", "apps"),
            row("Target versions", "istio=v1.11.0 k8s=v1.31.0"),
            row("Findings", "4"),
        ]
    );
    assert_eq!(
        lines(&report, 2),
        [
            "apps/web — Ingress extensions/v1beta1 → networking.k8s.io/v1 (removed in v1.22.0)",
            "apps/job — CronJob batch/v1beta1 → batch/v1 (removed in v1.25.0)",
        ]
    );
}

#[test]
fn the_kubent_fixture_matches_its_report() {
    let source = Source::Kubent(vec![kubent_item("restricted", "<undefined>", "policy/v1")]);
    let report = render(Action::Kubent, &request(&[]), &source);
    assert_eq!(report.title, "Deprecated APIs (kubent)");
    assert_eq!(
        rows(&report),
        [
            row("Verdict", "1 removed"),
            row("Context", "development"),
            row("Scanned", "cluster and Helm v3 releases"),
            row("Findings", "1"),
        ]
    );
    assert_eq!(titles(&report), ["Summary", "Removed"]);
}

#[test]
fn the_resource_fixture_matches_its_report() {
    let source = Source::Pluto(PlutoReport { items: Vec::new(), target_versions: TextMap::new() });
    let report = render(Action::Resource, &request(&[]), &source);
    assert_eq!(report.title, "Deprecated APIs (selection)");
    assert_eq!(
        rows(&report),
        [
            row("Verdict", "no deprecated apiVersions"),
            row("Context", "development"),
            row("Selection", "apps/web"),
            row("Findings", "0"),
        ]
    );
}

#[test]
fn every_request_fixture_replays_its_saved_tool_report() {
    for (action, saved) in [
        (Action::Pluto, "plugins/deprecated-apis/fixtures/pluto.json"),
        (Action::Kubent, "plugins/deprecated-apis/fixtures/kubent.json"),
        (Action::Resource, "plugins/deprecated-apis/fixtures/resource.json"),
    ] {
        assert_eq!(
            fetch(action, &request(&[("report", saved)])),
            Ok(Fetch::Replay { path: saved.to_string() })
        );
    }
}

/// The order is the order of the work: what is already broken and cannot be
/// fixed by an edit, then what is broken, then what still runs.
#[test]
fn findings_are_grouped_by_what_they_cost() {
    let report = render(Action::Pluto, &request(&[]), &pluto());
    assert_eq!(
        titles(&report),
        ["Summary", "Removed with no replacement", "Removed", "Deprecated"]
    );
    assert_eq!(rows(&report)[0], row("Verdict", "3 removed, 1 deprecated"));
}

#[test]
fn a_clean_scan_says_so_instead_of_showing_empty_groups() {
    let mut target_versions: TextMap<String> = TextMap::new();
    target_versions.insert("k8s".to_string(), "v1.31.0".to_string());
    for (action, source) in [
        (Action::Pluto, Source::Pluto(PlutoReport { items: Vec::new(), target_versions })),
        (Action::Kubent, Source::Kubent(Vec::new())),
    ] {
        let report = render(action, &request(&[]), &source);
        assert_eq!(titles(&report), ["Summary", "Result"]);
        assert_eq!(rows(&report)[0], row("Verdict", "no deprecated apiVersions"));
        assert_eq!(
            lines(&report, 1),
            ["Nothing found. Every apiVersion checked is current for the target version."]
        );
    }
}

#[test]
fn a_verdict_names_only_the_kinds_of_finding_present() {
    let finding = |removed: bool| Finding {
        name: "a".to_string(),
        namespace: String::new(),
        kind: "Ingress".to_string(),
        version: "extensions/v1beta1".to_string(),
        replacement: String::new(),
        note: String::new(),
        removed,
        replaceable: true,
    };
    assert_eq!(verdict(&Vec::new()), "no deprecated apiVersions");
    assert_eq!(verdict(&vec![finding(true)]), "1 removed");
    assert_eq!(verdict(&vec![finding(false)]), "1 deprecated");
    assert_eq!(verdict(&vec![finding(true), finding(false)]), "1 removed, 1 deprecated");
    assert_eq!(sections(&vec![finding(true), finding(false)]).len(), 2);
}

#[test]
fn a_cluster_scoped_finding_has_no_namespace_prefix() {
    let report = render(Action::Pluto, &request(&[]), &pluto());
    assert_eq!(
        lines(&report, 1),
        ["restricted — PodSecurityPolicy policy/v1beta1 → no replacement (removed in v1.25.0)"]
    );
}

/// kubent spells a missing namespace and a missing replacement with words rather
/// than empty strings.
#[test]
fn the_kubent_placeholders_are_read_as_missing() {
    let source = Source::Kubent(vec![kubent_item("restricted", "<undefined>", "<removed>")]);
    let report = render(Action::Kubent, &request(&[]), &source);
    let rendered = format!("{report:?}");
    assert!(!rendered.contains("<undefined>"), "{rendered}");
    assert!(!rendered.contains("<removed>"), "{rendered}");
    assert_eq!(
        lines(&report, 1),
        ["restricted — PodSecurityPolicy policy/v1beta1 → no replacement (Deprecated APIs removed in 1.25)"]
    );
    assert_eq!(report.sections[1].title, "Removed with no replacement");
    assert_eq!(undefined("<removed>", "<removed>"), "");
    assert_eq!(undefined("v1", "<removed>"), "v1");
}

/// An apiVersion that is still served must not read as already gone.
#[test]
fn a_deprecated_but_served_api_is_not_called_removed() {
    let report = render(Action::Pluto, &request(&[]), &pluto());
    let deprecated = &lines(&report, 3)[0];
    assert!(
        deprecated.ends_with("(deprecated in v1.23.0, removed in v1.26.0)"),
        "{deprecated}"
    );
}

#[test]
fn a_note_says_what_is_known() {
    let note = |since: (&str, &str), removed: bool| {
        Finding::from_pluto(&pluto_item(("", "a"), ("K", "v"), since, "", removed)).note
    };
    assert_eq!(note(("", ""), true), "");
    assert_eq!(note(("v1", ""), true), "deprecated in v1");
    assert_eq!(note(("", "v2"), false), "");
    assert_eq!(note(("v1", ""), false), "deprecated in v1");
    assert_eq!(note(("", "v2"), true), "removed in v2");
    // Only a removal can be without a replacement.
    assert!(Finding::from_pluto(&pluto_item(("", "a"), ("K", "v"), ("", ""), "", false)).replaceable);
    assert!(!Finding::from_pluto(&pluto_item(("", "a"), ("K", "v"), ("", ""), "", true)).replaceable);
}

#[test]
fn an_unnamed_finding_is_still_listed() {
    let source = Source::Pluto(PlutoReport {
        items: vec![pluto_item(("", ""), ("", "v1beta1"), ("", ""), "", true)],
        target_versions: TextMap::new(),
    });
    let report = render(Action::Pluto, &request(&[]), &source);
    assert_eq!(lines(&report, 1), ["<unnamed> — v1beta1 → no replacement"]);
}

#[test]
fn the_action_comes_from_the_first_argument_and_defaults_to_pluto() {
    let parse = |args: &[&str]| {
        Action::parse(&args.iter().map(|a| a.to_string()).collect::<Vec<String>>())
    };
    assert_eq!(parse(&[]), Ok(Action::Pluto));
    assert_eq!(parse(&["pluto"]), Ok(Action::Pluto));
    assert_eq!(parse(&["kubent"]), Ok(Action::Kubent));
    assert_eq!(parse(&["resource"]), Ok(Action::Resource));
    assert!(parse(&["scan"]).unwrap_err().contains("unknown action"));
    assert!(parse(&["pluto", "now"]).unwrap_err().contains("unexpected"));
    assert_eq!(
        parse(&["scan"]).unwrap_err(),
        "unknown action \"scan\"; use pluto, kubent or resource"
    );
}

#[test]
fn every_action_has_its_tool() {
    assert_eq!(
        Action::Kubent.tool(),
        ("kubent", "https://github.com/doitintl/kube-no-trouble#installation")
    );
    assert_eq!(
        Action::Resource.tool(),
        ("pluto", "https://pluto.docs.fairwinds.com/installation/")
    );
    assert_eq!(Action::Pluto.tool(), Action::Resource.tool());
}

#[test]
fn pluto_is_told_not_to_turn_findings_into_a_failing_exit_code() {
    let args = pluto_arguments(&request(&[]));
    for flag in EXIT_FLAGS {
        assert!(args.iter().any(|arg| arg == flag), "{args:?}");
    }
    assert!(resource_arguments().contains(&"--ignore-removals".to_string()));
    assert_eq!(
        resource_arguments(),
        [
            "detect",
            "-",
            "--output",
            "json",
            "--ignore-deprecations",
            "--ignore-removals",
            "--ignore-unavailable-replacements",
        ]
    );
}

#[test]
fn the_pluto_command_carries_the_context_namespace_and_target_version() {
    let request = request(&[("namespace", "apps"), ("target_version", "v1.31.0")]);
    assert_eq!(
        pluto_arguments(&request)[..9],
        [
            "detect-all-in-cluster",
            "--output",
            "json",
            "--kube-context",
            "development",
            "--namespace",
            "apps",
            "--target-versions",
            "k8s=v1.31.0"
        ]
    );
}

#[test]
fn the_kubent_command_silences_its_coloured_progress_log() {
    assert_eq!(
        kubent_arguments(&request(&[("target_version", "1.31.0")])),
        [
            "--output",
            "json",
            "--log-level",
            "error",
            "--context",
            "development",
            "--target-version",
            "1.31.0"
        ]
    );
}

#[test]
fn an_empty_input_is_left_off_the_command_rather_than_passed_as_empty() {
    let args = pluto_arguments(&request(&[("namespace", ""), ("target_version", "")]));
    assert!(!args.iter().any(|arg| arg == "--namespace"), "{args:?}");
    assert!(!args.iter().any(|arg| arg == "--target-versions"), "{args:?}");
}

#[test]
fn the_selected_object_is_forwarded_as_the_exact_bytes_sofka_sent() {
    let raw = "{\n  \"apiVersion\": \"autoscaling/v2beta2\"\n}";
    let request = Request { object: Some(raw.to_string()), ..request(&[]) };
    assert_eq!(
        fetch(Action::Resource, &request),
        Ok(Fetch::Run { arguments: resource_arguments(), input: Some(raw.to_string()) })
    );
    assert_eq!(
        fetch(Action::Pluto, &request),
        Ok(Fetch::Run { arguments: pluto_arguments(&request), input: None })
    );
    assert_eq!(
        fetch(Action::Kubent, &request),
        Ok(Fetch::Run { arguments: kubent_arguments(&request), input: None })
    );
}

#[test]
fn a_selection_check_without_an_object_is_refused() {
    assert_eq!(
        fetch(Action::Resource, &request(&[])).unwrap_err(),
        "the request has no object to check"
    );
}

#[test]
fn the_saved_report_is_bounded_and_a_missing_one_is_an_error() {
    assert_eq!(
        replay("large.json", vec![b'x'; 1024 * 1024 + 1]),
        Err("saved report large.json exceeds 1 MiB".to_string())
    );
    assert_eq!(replay("small.json", b"[]".to_vec()), Ok(b"[]".to_vec()));
}

#[test]
fn what_is_not_known_is_inferred_or_left_out() {
    let bare = Request { context: String::new(), namespace: String::new(), ..request(&[]) };
    assert_eq!(context(&bare), "inferred");
    assert_eq!(selection(&bare), "web");
}
