//! The resiliency test: what it picks, what it refuses, and what it reports.

use sofka_plugins::chaos::guest::{ask, call_host_text, hear, monotonic, nap, Saved};
use sofka_plugins::chaos::host::{
    dispatch, scope, settle, HostAction, HostRequest, HostState,
};
use sofka_plugins::chaos::objects::{
    owned_by, pods_from_value, saved_replica_sets, selector, workload_from_value,
};
use sofka_plugins::chaos::pods::{
    fields, number, owner, parse_pod_lines, parse_replica_set_lines, parse_workload_line, Owner,
    Pod, Victim, Workload,
};
use sofka_plugins::chaos::run::{begin, plan, Action, Event, Outcome, Request, Scope};
use sofka_plugins::chaos::summary::report;
use sofka_plugins::chaos::victims::{
    confirm_identities, replacements_ready, victims, workload_owners, Options, Owners,
};
use sofka_plugins::json::{read_json, Json};
use sofka_plugins::report::{Body, Report};
use sofka_plugins::text_map::TextMap;

const WORKLOAD_UID: &str = "deployment-web";
const REPLICA_SET_UID: &str = "rs-web";

const OBJECT: &str = r#"{
    "kind": "Deployment",
    "metadata": {"name": "web", "namespace": "apps", "uid": "deployment-web"},
    "spec": {"replicas": 3, "selector": {"matchLabels": {"app": "web"}}},
    "status": {"replicas": 3, "readyReplicas": 3}
}"#;

fn json(text: &str) -> Json {
    read_json(text.as_bytes()).unwrap()
}

/// The captured pod list; `mark` is put before the UID of each pod that runs.
fn pods_text(mark: &str) -> String {
    let owned = r#""ownerReferences": [
        {"kind": "Node", "uid": "node-1"},
        {"kind": "ReplicaSet", "uid": "rs-web", "controller": true}
    ]"#;
    let ready = r#""conditions": [
        {"type": "Initialized", "status": "True"},
        {"type": "Ready", "status": "True"}
    ]"#;
    format!(
        r#"{{"items": [
            {{"metadata": {{"name": "web-newest", "uid": "{mark}uid-newest",
                "creationTimestamp": "2026-09-11T11:00:00Z", {owned}}},
              "status": {{"phase": "Running", {ready}}}}},
            {{"metadata": {{"name": "web-oldest", "uid": "{mark}uid-oldest",
                "creationTimestamp": "2026-09-11T09:00:00Z", {owned}}},
              "status": {{"phase": "Running", {ready}}}}},
            {{"metadata": {{"name": "web-middle", "uid": "{mark}uid-middle",
                "creationTimestamp": "2026-09-11T10:00:00Z", {owned}}},
              "status": {{"phase": "Running", {ready}}}}},
            {{"metadata": {{"name": "web-going", "uid": "uid-going",
                "creationTimestamp": "2026-09-11T08:00:00Z",
                "deletionTimestamp": "2026-09-11T12:30:00Z", {owned}}},
              "status": {{"phase": "Running"}}}},
            {{"metadata": {{"name": "web-pending", "uid": "uid-pending",
                "creationTimestamp": "2026-09-11T07:00:00Z", {owned}}},
              "status": {{"phase": "Pending"}}}},
            {{"metadata": {{"name": "debug-shell", "uid": "{mark}uid-debug",
                "creationTimestamp": "2026-09-11T06:00:00Z"}},
              "status": {{"phase": "Running", {ready}}}}}
        ]}}"#
    )
}

fn inputs(entries: &[(&str, &str)]) -> TextMap<String> {
    let mut map: TextMap<String> = TextMap::new();
    for (key, value) in entries {
        map.insert(key.to_string(), value.to_string());
    }
    map
}

fn request() -> Request {
    Request {
        schema_version: 1,
        context: Some("demo".to_string()),
        namespace: Some("apps".to_string()),
        inputs: inputs(&[
            ("count", "2"),
            ("dry_run", "true"),
            ("pods", "plugins/chaos-kill/fixtures/pods.json"),
            ("wait", "120s"),
        ]),
        object: Some(json(OBJECT)),
    }
}

fn live_request(wait: &str) -> Request {
    Request {
        inputs: inputs(&[("count", "2"), ("dry_run", "false"), ("wait", wait)]),
        ..request()
    }
}

fn selecting(selector: &str) -> Request {
    let object = format!(
        r#"{{"kind": "Deployment", "metadata": {{"name": "web", "namespace": "apps"}},
            "spec": {{"selector": {selector}}}}}"#
    );
    Request { object: Some(json(&object)), ..request() }
}

/// Records what a run asked the cluster to do, and replays a fixed sequence of
/// readiness states. The first state answers the reading taken before the
/// delete; the rest answer the recovery polls. A pause takes one second.
struct Fake {
    pods: String,
    after_delete: String,
    states: Vec<(i64, i64)>,
    deleted: Vec<String>,
    delete_error: Option<String>,
    workload_errors_after_delete: bool,
    recheck: Option<String>,
    pod_reads: usize,
    clock: u128,
}

impl Fake {
    fn new(states: Vec<(i64, i64)>) -> Fake {
        Fake {
            pods: pods_text(""),
            after_delete: pods_text("replacement-"),
            states,
            deleted: Vec::new(),
            delete_error: None,
            workload_errors_after_delete: false,
            recheck: None,
            pod_reads: 0,
            clock: 7_000_000_000,
        }
    }

    fn answer(&mut self, action: Action) -> Event {
        match action {
            Action::ReadWorkload => {
                if self.workload_errors_after_delete && !self.deleted.is_empty() {
                    return Event::Workload(Err(
                        "kubectl get deployments: connection refused".to_string()
                    ));
                }
                let (desired, ready) = if self.states.len() > 1 {
                    self.states.remove(0)
                } else {
                    *self.states.first().unwrap_or(&(3, 3))
                };
                Event::Workload(Ok(Workload { uid: WORKLOAD_UID.to_string(), desired, ready }))
            }
            Action::ListReplicaSets { uid } => Event::ReplicaSets(Ok(if uid == WORKLOAD_UID {
                vec![Owner { kind: "ReplicaSet".to_string(), uid: REPLICA_SET_UID.to_string() }]
            } else {
                Vec::new()
            })),
            Action::ListPods => {
                if !self.deleted.is_empty() {
                    return Event::Pods(Ok(pods_from_value(&json(&self.after_delete))));
                }
                self.pod_reads += 1;
                Event::Pods(Ok(match &self.recheck {
                    Some(recheck) if self.pod_reads > 1 => pods_from_value(&json(recheck)),
                    _ => pods_from_value(&json(&self.pods)),
                }))
            }
            Action::Delete { pods } => Event::Deleted(match &self.delete_error {
                Some(error) => Err(error.clone()),
                None => {
                    self.deleted.extend(pods);
                    Ok(())
                }
            }),
            Action::ReadClock => Event::Clock(self.clock),
            Action::Pause => {
                self.clock += 1_000_000_000;
                Event::Paused
            }
            Action::Finish => unreachable!(),
        }
    }
}

fn seconds(outcome: &Outcome) -> String {
    format!("{:.1}", outcome.recovered.unwrap_or(0) as f64 / 1e9)
}

fn run(request: &Request, fake: &mut Fake) -> Result<Report, String> {
    let mut run = begin(plan(request)?);
    let mut action = Action::ReadWorkload;
    while action != Action::Finish {
        action = run.step(fake.answer(action))?;
    }
    Ok(report(
        &run.plan.kind,
        &run.plan.scope,
        &run.plan.selector,
        &run.plan.options,
        &run.outcome,
        &seconds(&run.outcome),
    ))
}

fn run_saved(request: &Request, saved: &Saved) -> Result<Report, String> {
    let mut run = begin(plan(request)?);
    let mut action = Action::ReadWorkload;
    while action != Action::Finish {
        let event = match action {
            Action::ReadWorkload => Event::Workload(saved.workload()),
            Action::ListReplicaSets { .. } => Event::ReplicaSets(Ok(saved.replica_sets())),
            Action::ListPods => Event::Pods(Ok(saved.pods())),
            Action::Delete { .. } => Event::Deleted(saved.delete()),
            Action::ReadClock => Event::Clock(0),
            Action::Pause => Event::Paused,
            Action::Finish => unreachable!(),
        };
        action = run.step(event)?;
    }
    Ok(report(
        &run.plan.kind,
        &run.plan.scope,
        &run.plan.selector,
        &run.plan.options,
        &run.outcome,
        &seconds(&run.outcome),
    ))
}

fn rows(report: &Report) -> Vec<(String, String)> {
    match &report.sections[0].body {
        Body::Table { rows, .. } => rows.clone(),
        Body::Lines { .. } => panic!("the first section is not a table"),
    }
}

fn value(report: &Report, field: &str) -> String {
    rows(report)
        .into_iter()
        .find(|(key, _)| key == field)
        .unwrap_or_else(|| panic!("no {field} row"))
        .1
}

fn lines(report: &Report, section: usize) -> Vec<String> {
    match &report.sections[section].body {
        Body::Lines { lines } => lines.clone(),
        Body::Table { .. } => panic!("section {section} is a table"),
    }
}

#[test]
fn a_dry_run_deletes_nothing() {
    let mut fake = Fake::new(vec![(3, 3)]);
    let report = run(&request(), &mut fake).unwrap();
    assert!(fake.deleted.is_empty(), "a dry run deleted pods");
    assert_eq!(value(&report, "Verdict"), "dry run — nothing was deleted");
    assert_eq!(value(&report, "Would kill"), "2");
    assert_eq!(report.sections[2].title, "Notice");
}

#[test]
fn anything_but_an_explicit_false_stays_a_dry_run() {
    for setting in ["true", "", "no", "FALSE", "0"] {
        let mut request = request();
        request.inputs.insert("dry_run".to_string(), setting.to_string());
        let mut fake = Fake::new(vec![(3, 3)]);
        run(&request, &mut fake).unwrap();
        assert!(fake.deleted.is_empty(), "dry_run={setting:?} deleted pods");
        // And without a saved list, too.
        let mut request = live_request("120s");
        request.inputs.insert("dry_run".to_string(), setting.to_string());
        run(&request, &mut fake).unwrap();
        assert!(fake.deleted.is_empty(), "dry_run={setting:?} deleted pods");
    }
}

#[test]
fn victims_are_the_oldest_running_pods_the_workload_owns() {
    let pods = pods_from_value(&json(&pods_text("")));
    let owners = vec![Owner { kind: "ReplicaSet".to_string(), uid: REPLICA_SET_UID.to_string() }];
    // Terminating and Pending pods are never chosen: deleting a pod that is
    // already going away proves nothing. `debug-shell` is older than every
    // other pod and carries the same labels, but nothing owns it, so nothing
    // would bring it back.
    assert_eq!(
        victims(&pods, &owners, 3).into_iter().map(|pod| pod.name).collect::<Vec<_>>(),
        ["web-oldest", "web-middle", "web-newest"]
    );
    assert_eq!(victims(&pods, &owners, 1)[0].name, "web-oldest");
    assert_eq!(victims(&pods, &owners, 99).len(), 3);
    // No owner matches: a labelled pod on its own is never eligible.
    assert!(victims(&pods, &Vec::new(), 1).is_empty());
    assert!(victims(&Vec::new(), &owners, 1).is_empty());
}

#[test]
fn a_real_run_deletes_then_measures_recovery() {
    // Whole before the delete, then degraded, still degraded, whole again.
    let mut fake = Fake::new(vec![(3, 3), (3, 1), (3, 2), (3, 3)]);
    let report = run(&live_request("120s"), &mut fake).unwrap();
    assert_eq!(fake.deleted, ["web-oldest", "web-middle"]);
    assert!(value(&report, "Verdict").starts_with("recovered in"));
    assert_eq!(value(&report, "Verdict"), "recovered in 3.0s");
    assert_eq!(value(&report, "Ready replicas"), "3");
    assert_eq!(value(&report, "Checks"), "3");
    assert_eq!(value(&report, "Waited up to"), "120s");
    assert_eq!(report.sections[1].title, "Pods deleted");
}

#[test]
fn a_workload_that_never_comes_back_is_the_finding() {
    let mut fake = Fake::new(vec![(3, 1)]);
    let report = run(&live_request("2s"), &mut fake).unwrap();
    let verdict = value(&report, "Verdict");
    assert!(verdict.contains("DID NOT RECOVER"), "{verdict}");
    assert!(verdict.contains("1 of 3"), "{verdict}");
    assert_eq!(verdict, "DID NOT RECOVER within 2s — 1 of 3 replicas ready");
    // It gave up at the deadline instead of polling forever.
    assert!(fake.clock - 7_000_000_000 < 5_000_000_000);
    assert!(value(&report, "Checks").parse::<usize>().unwrap() <= 3);
}

#[test]
fn stale_controller_readiness_does_not_claim_recovery() {
    // The async delete returned, but the pod list and controller readiness are
    // both still the old observation.
    let mut fake = Fake { after_delete: pods_text(""), ..Fake::new(vec![(3, 3)]) };
    let report = run(&live_request("1s"), &mut fake).unwrap();
    let verdict = value(&report, "Verdict");
    assert!(verdict.contains("DID NOT RECOVER"), "{verdict}");
    assert_eq!(value(&report, "Checks"), "1");
}

#[test]
fn a_selector_it_cannot_express_is_refused_rather_than_guessed() {
    let expressions = selecting(r#"{"matchExpressions": [{"key": "app"}]}"#);
    assert!(run(&expressions, &mut Fake::new(vec![(3, 3)]))
        .unwrap_err()
        .contains("matchExpressions"));

    // Both forms together: reading only matchLabels would widen the selector,
    // and the wider set is what would be deleted.
    let both = selecting(
        r#"{"matchLabels": {"app": "web"},
            "matchExpressions": [{"key": "track", "operator": "In", "values": ["canary"]}]}"#,
    );
    let error = run(&both, &mut Fake::new(vec![(3, 3)])).unwrap_err();
    assert!(error.contains("matchExpressions"), "{error}");

    // An empty expressions list narrows nothing, so it is not a refusal.
    let empty_expressions =
        selecting(r#"{"matchLabels": {"app": "web"}, "matchExpressions": []}"#);
    assert!(run(&empty_expressions, &mut Fake::new(vec![(3, 3)])).is_ok());

    let empty = selecting(r#"{"matchLabels": {}}"#);
    assert!(run(&empty, &mut Fake::new(vec![(3, 3)]))
        .unwrap_err()
        .contains("refusing to match every pod"));
}

#[test]
fn it_never_runs_without_a_namespace_or_a_selection() {
    let unselected = Request { object: None, ..request() };
    assert!(run(&unselected, &mut Fake::new(vec![(3, 3)]))
        .unwrap_err()
        .contains("select a workload"));

    let unscoped = Request {
        namespace: None,
        object: Some(json(
            r#"{"kind": "Deployment", "metadata": {"name": "web"},
                "spec": {"selector": {"matchLabels": {"app": "web"}}}}"#,
        )),
        ..request()
    };
    assert!(run(&unscoped, &mut Fake::new(vec![(3, 3)]))
        .unwrap_err()
        .contains("never runs cluster-wide"));
}

#[test]
fn a_workload_with_nothing_running_is_not_a_test() {
    let mut fake = Fake { pods: r#"{"items": []}"#.to_string(), ..Fake::new(vec![(3, 3)]) };
    assert!(run(&request(), &mut fake)
        .unwrap_err()
        .contains("no running pods owned by this workload to kill"));
}

#[test]
fn daemonsets_count_their_replicas_their_own_way() {
    let daemonset = workload_from_value(&json(
        r#"{"metadata": {"uid": "ds-agent"},
            "status": {"desiredNumberScheduled": 4, "numberReady": 2}}"#,
    ))
    .unwrap();
    assert_eq!((daemonset.desired, daemonset.ready), (4, 2));
    let deployment = workload_from_value(&json(
        r#"{"metadata": {"uid": "deployment-web"}, "spec": {"replicas": 3},
            "status": {"readyReplicas": 3}}"#,
    ))
    .unwrap();
    assert_eq!((deployment.desired, deployment.ready), (3, 3));
    // A workload that reports nothing is not "ready": desired 0 never wins.
    let silent = workload_from_value(&json(r#"{"metadata": {"uid": "quiet"}}"#)).unwrap();
    assert_eq!((silent.desired, silent.ready), (0, 0));
    // Without a UID no pod can be tied to the workload, so it is refused.
    assert!(workload_from_value(&json("{}")).is_err());
}

#[test]
fn workloads_fall_back_on_their_own_status() {
    let fractional = workload_from_value(&json(
        r#"{"metadata": {"uid": "u"}, "status": {"desiredNumberScheduled": 1.5, "replicas": 9}}"#,
    ))
    .unwrap();
    assert_eq!((fractional.desired, fractional.ready), (0, 0));
    let counted = workload_from_value(&json(
        r#"{"metadata": {"uid": "u"}, "status": {"replicas": 9, "numberReady": 8, "readyReplicas": 7}}"#,
    ))
    .unwrap();
    assert_eq!((counted.desired, counted.ready), (9, 8));
    assert_eq!(
        workload_from_value(&json(r#"{"metadata": {"uid": 4}}"#)),
        Err("selected workload has no UID".to_string())
    );
}

#[test]
fn count_may_not_take_every_desired_replica() {
    let mut request = request();
    request.inputs.insert("dry_run".to_string(), "false".to_string());
    request.inputs.insert("count".to_string(), "3".to_string());
    // Deleting all three replicas of a three-replica Deployment is an outage,
    // not a resiliency test.
    let error = run(&request, &mut Fake::new(vec![(3, 3)])).unwrap_err();
    assert!(error.contains("must be less than"), "{error}");
    assert_eq!(error, "count must be less than the workload's 3 desired replicas");
    // One below the desired count is still a test.
    request.inputs.insert("count".to_string(), "2".to_string());
    assert!(run(&request, &mut Fake::new(vec![(3, 3)])).is_ok());
    // A count that no workload can have.
    request.inputs.insert("count".to_string(), "18446744073709551615".to_string());
    let error = run(&request, &mut Fake::new(vec![(3, 3)])).unwrap_err();
    assert!(error.contains("must be less than"), "{error}");
}

/// `kubectl delete` takes a name, and a StatefulSet gives a replacement the
/// name its predecessor had. Deleting that replacement would disrupt a pod that
/// was never selected or checked.
#[test]
fn a_pod_that_changed_identity_is_not_deleted() {
    let request = live_request("120s");
    // Same name, same labels, same owner — a different pod.
    let recheck = pods_text("").replace("\"uid-oldest\"", "\"uid-oldest-replacement\"");
    let mut fake = Fake { recheck: Some(recheck), ..Fake::new(vec![(3, 3)]) };
    let error = run(&request, &mut fake).unwrap_err();
    assert!(error.contains("no longer the pod that was selected"), "{error}");
    assert!(fake.deleted.is_empty(), "a pod was deleted after its identity moved");

    // A name that vanished entirely is refused for the same reason.
    let vanished = pods_text("").replace("\"web-oldest\"", "\"web-other\"");
    let mut fake = Fake { recheck: Some(vanished), ..Fake::new(vec![(3, 3)]) };
    let error = run(&request, &mut fake).unwrap_err();
    assert!(error.contains("already gone"), "{error}");
    assert!(fake.deleted.is_empty());

    // Unchanged identities go ahead as before.
    let mut fake = Fake {
        recheck: Some(pods_text("")),
        ..Fake::new(vec![(3, 3), (3, 1), (3, 2), (3, 3)])
    };
    assert!(run(&request, &mut fake).is_ok());
    assert_eq!(fake.deleted, ["web-oldest", "web-middle"]);
}

#[test]
fn a_delete_that_fails_still_reports_what_it_targeted() {
    let mut fake = Fake {
        delete_error: Some("kubectl delete pods: forbidden".to_string()),
        ..Fake::new(vec![(3, 3)])
    };
    let report = run(&live_request("120s"), &mut fake).unwrap();
    assert_eq!(
        value(&report, "Verdict"),
        "measurement failed: kubectl delete pods: forbidden"
    );
    assert_eq!(value(&report, "Targeted"), "2");
    assert_eq!(report.sections[1].title, "Pods targeted for deletion");
    assert_eq!(report.sections[2].title, "Measurement error");
    assert_eq!(lines(&report, 2), ["kubectl delete pods: forbidden"]);
}

#[test]
fn a_measurement_that_fails_after_the_delete_keeps_the_killed_list() {
    // The pods are gone; whatever happens next, the user has to be told which
    // ones they were.
    let mut fake = Fake { workload_errors_after_delete: true, ..Fake::new(vec![(3, 3)]) };
    let report = run(&live_request("120s"), &mut fake).unwrap();
    assert_eq!(fake.deleted, ["web-oldest", "web-middle"]);
    assert!(
        value(&report, "Verdict").starts_with("measurement failed:"),
        "{}",
        value(&report, "Verdict")
    );
    assert_eq!(value(&report, "Killed"), "2");
    assert_eq!(report.sections[1].title, "Pods deleted");
    assert_eq!(lines(&report, 1), ["  web-oldest", "  web-middle"]);
}

#[test]
fn the_pod_columns_parse_back_into_pods() {
    let pods = parse_pod_lines(
        "web-oldest\tuid-oldest\t2026-09-11T09:00:00Z\t\tRunning\tReplicaSet:rs-web\tTrue\n\
         web-going\tuid-going\t2026-09-11T08:00:00Z\t2026-09-11T12:30:00Z\tRunning\tReplicaSet:rs-web\t\n\
         debug-shell\tuid-debug\t2026-09-11T06:00:00Z\t\tRunning\t\tTrue\n",
    )
    .unwrap();
    assert_eq!(pods.len(), 3);
    assert_eq!(pods[0].uid.as_deref(), Some("uid-oldest"));
    assert!(!pods[0].terminating && pods[0].ready);
    assert!(pods[1].terminating && !pods[1].ready);
    // An uncontrolled pod has no owner to match against.
    assert!(pods[2].owner.is_none());
    // A row the jsonpath template could not have produced is an error, not a
    // pod with empty fields.
    assert!(parse_pod_lines("web-oldest\tuid-oldest\n").is_err());
    assert!(parse_pod_lines("\tuid\t\t\tRunning\t\tTrue\n").is_err());
}

#[test]
fn pod_lines_are_refused_in_their_own_words() {
    assert_eq!(
        parse_pod_lines("a\tb\n"),
        Err("invalid kubectl pod list output".to_string())
    );
    assert_eq!(
        parse_pod_lines("\tuid\t\t\tRunning\t\tTrue\n"),
        Err("kubectl returned a pod without a name".to_string())
    );
    // Blank lines are skipped, and a missing UID is none at all.
    let pods = parse_pod_lines("\n\nalone\t\tthen\t\tRunning\tJob:\tFalse\r\n\n").unwrap();
    assert_eq!(
        pods,
        [Pod {
            name: "alone".to_string(),
            uid: None,
            created: "then".to_string(),
            terminating: false,
            phase: "Running".to_string(),
            owner: None,
            ready: false,
        }]
    );
    assert_eq!(
        parse_replica_set_lines("one\n", "deployment-web"),
        Err("invalid kubectl ReplicaSet list output".to_string())
    );
}

#[test]
fn only_the_selected_deployments_replica_sets_are_owners() {
    let owners = parse_replica_set_lines(
        "rs-web\tDeployment:deployment-web\n\
         rs-other\tDeployment:deployment-other\n\
         rs-orphan\t\n",
        "deployment-web",
    )
    .unwrap();
    assert_eq!(
        owners,
        [Owner { kind: "ReplicaSet".to_string(), uid: "rs-web".to_string() }]
    );
}

#[test]
fn the_workload_columns_parse_back() {
    let deployment = parse_workload_line("deployment-web\t3\t3\t2\t\t\n").unwrap();
    assert_eq!(deployment.uid, "deployment-web");
    assert_eq!((deployment.desired, deployment.ready), (3, 2));
    // A DaemonSet has no spec.replicas; its own counters answer instead.
    let daemonset = parse_workload_line("ds-agent\t\t\t\t4\t1\n").unwrap();
    assert_eq!((daemonset.desired, daemonset.ready), (4, 1));
    assert!(parse_workload_line("\t3\t3\t3\t\t\n").is_err());
    assert!(parse_workload_line("ds-agent\t4\t1\n").is_err());
}

#[test]
fn columns_and_numbers_are_read_one_by_one() {
    assert_eq!(fields("a\t\tb", 3, "thing").unwrap(), ["a", "", "b"]);
    assert_eq!(
        fields("a\tb", 3, "thing"),
        Err("invalid kubectl thing output".to_string())
    );
    assert_eq!(owner("Job:u:v").unwrap().uid, "u:v");
    assert_eq!(owner("Job"), None);
    assert_eq!(owner(":u"), None);
    assert_eq!(owner("Job:"), None);
    assert_eq!(number("-12"), -12);
    assert_eq!(number("+12"), 12);
    assert_eq!(number(" 12"), 0);
    assert_eq!(number("-9223372036854775808"), i64::MIN);
    assert_eq!(number("9223372036854775808"), 0);
    assert_eq!(number(""), 0);
    assert_eq!(
        parse_workload_line("\t3\t3\t3\t\t"),
        Err("selected workload has no UID".to_string())
    );
    let fallen_back = parse_workload_line("u\t-1\t5\t4\t0\t0\n\n").unwrap();
    assert_eq!((fallen_back.desired, fallen_back.ready), (5, 4));
}

#[test]
fn the_selector_is_built_from_every_match_label() {
    let object = json(r#"{"spec": {"selector": {"matchLabels": {"app": "web", "tier": "fe"}}}}"#);
    assert_eq!(selector(&object).unwrap(), "app=web,tier=fe");
    // Labels come in the order of their keys.
    let object = json(r#"{"spec": {"selector": {"matchLabels": {"tier": "fe", "app": 1}}}}"#);
    assert_eq!(selector(&object).unwrap(), "app=,tier=fe");
    assert_eq!(
        selector(&json("{}")),
        Err("workload has no spec.selector".to_string())
    );
    assert_eq!(
        selector(&json(r#"{"spec": {"selector": {}}}"#)),
        Err("workload has no spec.selector.matchLabels".to_string())
    );
}

#[test]
fn inputs_default_to_the_harmless_setting() {
    let options = Options::from(&TextMap::new()).unwrap();
    assert!(options.dry_run);
    assert_eq!(options.count, 1);
    assert_eq!(options.wait, 120);
    assert!(Options::from(&inputs(&[("wait", "10w")])).is_err());
}

#[test]
fn inputs_are_read_as_counts_and_times() {
    let options = Options::from(&inputs(&[
        ("dry_run", "false"),
        ("count", "0"),
        ("wait", " 2m "),
    ]))
    .unwrap();
    assert!(!options.dry_run);
    assert_eq!((options.count, options.wait), (1, 120));
    assert_eq!(
        Options::from(&inputs(&[("count", "-1")])).err().unwrap(),
        "count must be a whole number"
    );
    for wait in ["", "0s", "s", "1h", "1 s", "99999999999999999999s", "307445734561825861m"] {
        assert_eq!(
            Options::from(&inputs(&[("wait", wait)])).err().unwrap(),
            "wait must be a positive time like \"120s\"",
            "{wait:?}"
        );
    }
    assert!(Options::from(&inputs(&[("dry_run", "false"), ("pods", "x")])).unwrap().dry_run);
}

#[test]
fn a_saved_pod_list_can_never_delete() {
    let mut request = request();
    request.inputs.insert("dry_run".to_string(), "false".to_string());
    request.inputs.insert("pods".to_string(), "fixtures/pods.json".to_string());
    // Even with dry_run=false, a saved run stays a dry run.
    let saved = Saved::open(
        "fixtures/pods.json",
        pods_text("").as_bytes(),
        Some(json(OBJECT)),
    )
    .unwrap();
    let report = run_saved(&request, &saved).unwrap();
    assert_eq!(value(&report, "Verdict"), "dry run — nothing was deleted");
    assert_eq!(value(&report, "Would kill"), "2");
    // And the delete path itself refuses outright.
    assert!(saved.delete().is_err());
}

#[test]
fn a_saved_pod_list_that_is_no_json_is_an_error() {
    let error = match Saved::open("pods.json", b"{", None) {
        Ok(_) => panic!("half an object is no pod list"),
        Err(error) => error,
    };
    assert!(error.starts_with("invalid saved pod list pods.json: EOF while parsing"), "{error}");
    let saved = Saved::open("pods.json", b"{}", None).unwrap();
    assert_eq!(saved.workload, Json::Null);
    assert!(saved.pods().is_empty());
}

#[test]
fn the_saved_report_is_the_expected_one() {
    let saved = Saved { pods: json(&pods_text("")), workload: json(OBJECT) };
    let report = run_saved(&request(), &saved).unwrap();
    assert_eq!(report.schema_version, 1);
    assert_eq!(report.title, "Chaos kill");
    assert_eq!(
        rows(&report),
        [
            ("Verdict", "dry run — nothing was deleted"),
            ("Workload", "Deployment/web"),
            ("Namespace", "apps"),
            ("Selector", "app=web"),
            ("Would kill", "2"),
            ("Desired replicas", "3"),
            ("Ready replicas", "3"),
        ]
        .map(|(field, value)| (field.to_string(), value.to_string()))
    );
    assert_eq!(report.sections.len(), 3);
    assert_eq!(report.sections[1].title, "Pods that would be deleted");
    assert_eq!(lines(&report, 1), ["  web-oldest", "  web-middle"]);
    assert_eq!(
        lines(&report, 2),
        ["Re-run with dry_run=false to delete these pods and measure recovery."]
    );
}

#[test]
fn a_pod_without_an_identity_is_not_deleted() {
    let pods = pods_text("").replace("\"uid\": \"uid-oldest\",", "");
    let mut fake = Fake { pods, ..Fake::new(vec![(3, 3)]) };
    assert_eq!(
        run(&live_request("120s"), &mut fake).unwrap_err(),
        "pod web-oldest has no UID; refusing to delete a pod whose replacement cannot be verified"
    );
    assert!(fake.deleted.is_empty());
}

#[test]
fn a_workload_without_replicas_is_not_a_test() {
    assert_eq!(
        run(&request(), &mut Fake::new(vec![(0, 0)])).unwrap_err(),
        "Deployment/web has no desired replicas; nothing can recover"
    );
    let unnamed = Request { object: Some(json("{}")), ..request() };
    assert_eq!(
        run(&unnamed, &mut Fake::new(vec![(3, 3)])).unwrap_err(),
        "selected object has no name"
    );
}

#[test]
fn only_workloads_with_pods_of_their_own_are_tested() {
    let workload = Workload { uid: "u".to_string(), desired: 1, ready: 1 };
    assert_eq!(workload_owners("Deployment", &workload), Ok(Owners::Listed));
    assert_eq!(
        workload_owners("DaemonSet", &workload),
        Ok(Owners::Known(vec![Owner { kind: "DaemonSet".to_string(), uid: "u".to_string() }]))
    );
    assert_eq!(
        workload_owners("Job", &workload),
        Err("Job is not supported; select a Deployment, StatefulSet, or DaemonSet".to_string())
    );
}

#[test]
fn chosen_pods_are_confirmed_by_name_and_uid() {
    let pods = pods_from_value(&json(&pods_text("")));
    let chosen = |uid: Option<&str>| {
        vec![Victim { name: "web-oldest".to_string(), uid: uid.map(str::to_string) }]
    };
    assert_eq!(confirm_identities(&pods, &chosen(Some("uid-oldest"))), Ok(()));
    assert_eq!(
        confirm_identities(&pods, &chosen(None)),
        Err("pod web-oldest is no longer the pod that was selected; refusing to delete its replacement".to_string())
    );
    assert_eq!(
        confirm_identities(&Vec::new(), &chosen(Some("uid-oldest"))),
        Err("pod web-oldest is already gone; refusing to delete whatever took its name".to_string())
    );
}

#[test]
fn replacements_are_counted_once_the_old_pods_are_gone() {
    let owners = vec![Owner { kind: "ReplicaSet".to_string(), uid: REPLICA_SET_UID.to_string() }];
    let killed = vec![Victim { name: "web-oldest".to_string(), uid: Some("uid-oldest".to_string()) }];
    let old = pods_from_value(&json(&pods_text("")));
    let new = pods_from_value(&json(&pods_text("replacement-")));
    assert!(!replacements_ready(&old, &owners, &killed, 3));
    assert!(replacements_ready(&new, &owners, &killed, 3));
    assert!(!replacements_ready(&new, &owners, &killed, 4));
    assert!(!replacements_ready(&new, &owners, &killed, -1));
    assert!(replacements_ready(&new, &owners, &killed, 0));
}

#[test]
fn saved_owners_are_listed_once_each() {
    let pods = pods_from_value(&json(&pods_text("")));
    let owners = saved_replica_sets(&pods);
    assert_eq!(
        owners,
        [Owner { kind: "ReplicaSet".to_string(), uid: REPLICA_SET_UID.to_string() }]
    );
    assert!(owned_by(pods[0].owner.as_ref().unwrap(), &owners));
    assert!(!owned_by(
        &Owner { kind: "StatefulSet".to_string(), uid: REPLICA_SET_UID.to_string() },
        &owners
    ));
}

#[test]
fn a_clock_that_goes_back_measures_nothing() {
    let mut run = begin(plan(&live_request("1s")).unwrap());
    run.outcome.killed = vec!["web-oldest".to_string()];
    run.stage = sofka_plugins::chaos::run::Stage::Start;
    assert_eq!(run.step(Event::Clock(5_000_000_000)), Ok(Action::ReadClock));
    assert_eq!(run.step(Event::Clock(1)), Ok(Action::Pause));
    run.stage = sofka_plugins::chaos::run::Stage::End;
    assert_eq!(run.step(Event::Clock(1)), Ok(Action::Finish));
    assert_eq!(run.outcome.recovered, Some(0));
}

#[test]
fn the_guest_reads_its_clock_from_the_host() {
    assert_eq!(call_host_text(Ok(b"12".to_vec())), Ok("12".to_string()));
    assert_eq!(call_host_text(Err("no".to_string())), Err("no".to_string()));
    assert_eq!(
        call_host_text(Ok(vec![b'a', 0xff])),
        Err("host returned non-UTF-8: invalid utf-8 sequence of 1 bytes from index 1".to_string())
    );
    assert_eq!(monotonic(Ok(" 1500\n".to_string())), 1500);
    assert_eq!(monotonic(Ok("soon".to_string())), 0);
    assert_eq!(monotonic(Err("no".to_string())), 0);
    assert_eq!(nap(1_000_000_000), HostRequest::Sleep { millis: 1000 });
}

#[test]
fn a_report_names_what_it_was_about() {
    let report = report(
        "StatefulSet",
        &Scope {
            context: String::new(),
            namespace: "data".to_string(),
            resource: "statefulset".to_string(),
            name: "db".to_string(),
        },
        "app=db",
        &Options { dry_run: false, count: 1, wait: 30 },
        &Outcome {
            killed: vec!["db-0".to_string()],
            delete_succeeded: true,
            measurement_error: None,
            recovered: Some(1_250_000_000),
            desired: 2,
            ready: 2,
            polls: 1,
        },
        "1.2",
    );
    assert_eq!(value(&report, "Verdict"), "recovered in 1.2s");
    assert_eq!(value(&report, "Workload"), "StatefulSet/db");
    assert_eq!(value(&report, "Checks"), "1");
    assert_eq!(report.sections.len(), 2);
}

/// Pods of one age are taken by name, whatever the order of the listing.
#[test]
fn the_order_of_a_listing_does_not_change_the_choice() {
    let owners = vec![Owner { kind: "ReplicaSet".to_string(), uid: REPLICA_SET_UID.to_string() }];
    let listing = [
        "web-b\tuid-b\t2026-09-11T09:00:00Z\t\tRunning\tReplicaSet:rs-web\tTrue\n",
        "web-a\tuid-a\t2026-09-11T09:00:00Z\t\tRunning\tReplicaSet:rs-web\tTrue\n",
        "web-c\tuid-c\t2026-09-11T08:00:00Z\t\tRunning\tReplicaSet:rs-web\tTrue\n",
    ];
    for order in [[0, 1, 2], [2, 1, 0], [1, 0, 2], [1, 2, 0]] {
        let text: String = order.iter().map(|at: &usize| listing[*at]).collect();
        let chosen: Vec<String> = victims(&parse_pod_lines(&text).unwrap(), &owners, 2)
            .into_iter()
            .map(|pod| pod.name)
            .collect();
        assert_eq!(chosen, ["web-c", "web-a"]);
    }
}

#[test]
fn a_dry_run_shows_the_pods_that_a_real_run_deletes() {
    let mut dry_inputs = live_request("120s");
    dry_inputs.inputs.insert("dry_run".to_string(), "true".to_string());
    let mut fake = Fake::new(vec![(3, 3)]);
    let shown = run(&dry_inputs, &mut fake).unwrap();
    assert!(fake.deleted.is_empty());
    let deleted = run(&live_request("120s"), &mut fake).unwrap();
    assert_eq!(shown.sections[1].title, "Pods that would be deleted");
    assert_eq!(lines(&shown, 1), lines(&deleted, 1));
    assert_eq!(fake.deleted, ["web-oldest", "web-middle"]);
}

#[test]
fn a_request_of_another_schema_is_refused() {
    let request = Request { schema_version: 2, ..request() };
    let mut fake = Fake::new(vec![(3, 3)]);
    assert_eq!(
        run(&request, &mut fake).unwrap_err(),
        "unsupported request schema_version"
    );
}

/// What a run wants becomes one request of the host, and the host's answer
/// becomes what the run is told.
#[test]
fn a_guest_asks_and_hears_in_kind() {
    let selector = "app=web";
    let list = Action::ListReplicaSets { uid: WORKLOAD_UID.to_string() };
    let delete = Action::Delete { pods: vec!["web-a".to_string()] };
    assert_eq!(ask(&Action::ReadWorkload, selector), Some(HostRequest::Workload));
    assert_eq!(
        ask(&list, selector),
        Some(HostRequest::ReplicaSets { selector: selector.to_string() })
    );
    assert_eq!(
        ask(&Action::ListPods, selector),
        Some(HostRequest::Pods { selector: selector.to_string() })
    );
    assert_eq!(
        ask(&delete, selector),
        Some(HostRequest::Delete { pods: vec!["web-a".to_string()] })
    );
    assert_eq!(ask(&Action::ReadClock, selector), Some(HostRequest::Now));
    assert_eq!(ask(&Action::Pause, selector), Some(HostRequest::Sleep { millis: 1000 }));
    assert_eq!(ask(&Action::Finish, selector), None);

    match hear(&Action::ReadWorkload, Ok(b"deployment-web\t3\t3\t2\t\t".to_vec())) {
        Some(Event::Workload(Ok(workload))) => assert_eq!(
            workload,
            Workload { uid: WORKLOAD_UID.to_string(), desired: 3, ready: 2 }
        ),
        _ => panic!("no workload"),
    }
    match hear(
        &list,
        Ok(b"rs-web\tDeployment:deployment-web\nrs-other\tDeployment:other\n".to_vec()),
    ) {
        Some(Event::ReplicaSets(Ok(owners))) => assert_eq!(
            owners,
            [Owner { kind: "ReplicaSet".to_string(), uid: REPLICA_SET_UID.to_string() }]
        ),
        _ => panic!("no ReplicaSets"),
    }
    match hear(&Action::ListPods, Ok(vec![0xff])) {
        Some(Event::Pods(Err(message))) => {
            assert!(message.starts_with("host returned non-UTF-8: "), "{message}")
        }
        _ => panic!("a listing that is not text"),
    }
    match hear(&delete, Err("refused".to_string())) {
        Some(Event::Deleted(Err(message))) => assert_eq!(message, "refused"),
        _ => panic!("a deletion that was refused"),
    }
    assert!(matches!(hear(&delete, Ok(Vec::new())), Some(Event::Deleted(Ok(())))));
    assert!(matches!(
        hear(&Action::ReadClock, Ok(b" 15\n".to_vec())),
        Some(Event::Clock(15_000_000))
    ));
    assert!(matches!(
        hear(&Action::ReadClock, Err("no clock".to_string())),
        Some(Event::Clock(0))
    ));
    assert!(matches!(
        hear(&Action::Pause, Err("interrupted".to_string())),
        Some(Event::Paused)
    ));
    assert!(hear(&Action::Finish, Ok(Vec::new())).is_none());
}

/// The live request as it goes over the wire.
const LIVE: &str = r#"{
    "schema_version": 1, "context": "demo", "namespace": "apps",
    "inputs": {"count": "2", "dry_run": "false", "wait": "120s"},
    "object": {
        "kind": "Deployment",
        "metadata": {"name": "web", "namespace": "apps", "uid": "deployment-web"},
        "spec": {"replicas": 3, "selector": {"matchLabels": {"app": "web"}}},
        "status": {"replicas": 3, "readyReplicas": 3}
    }
}"#;

#[test]
fn a_host_reads_a_request_as_its_guest_does() {
    let plan = plan(&live_request("120s")).unwrap();
    let scope = scope(LIVE.as_bytes()).unwrap();
    assert_eq!(scope.context, plan.scope.context);
    assert_eq!(scope.namespace, plan.scope.namespace);
    assert_eq!(scope.resource, plan.scope.resource);
    assert_eq!(scope.name, plan.scope.name);
    assert_eq!(scope.selector, plan.selector);
    assert_eq!(scope.dry_run, plan.options.dry_run);
    assert_eq!(scope.count, plan.options.count);
}

/// A whole run in which every wish of the guest goes through the host.
#[test]
fn a_guest_that_keeps_to_its_plan_is_not_refused() {
    let pod = |name: &str, uid: &str, hour: u32| {
        format!("{name}\t{uid}\t2026-09-11T{hour:02}:00:00Z\t\tRunning\tReplicaSet:rs-web\tTrue\n")
    };
    let before = pod("web-a", "uid-a", 9) + &pod("web-b", "uid-b", 10) + &pod("web-c", "uid-c", 11);
    let after = pod("web-c", "uid-c", 11) + &pod("web-d", "uid-d", 12) + &pod("web-e", "uid-e", 12);
    let mut host = HostState::new(scope(LIVE.as_bytes()).unwrap());
    let mut run = begin(plan(&live_request("120s")).unwrap());
    let mut deleted: Vec<String> = Vec::new();
    let mut millis: u64 = 5;
    let mut action = Action::ReadWorkload;
    while let Some(wish) = ask(&action, &run.plan.selector) {
        let answer = match dispatch(&mut host, wish).unwrap() {
            HostAction::Now => millis.to_string().into_bytes(),
            HostAction::Sleep { millis: nap } => {
                millis += nap;
                Vec::new()
            }
            HostAction::ReadFile { .. } => unreachable!(),
            action => {
                let output = match &action {
                    HostAction::Query { arguments } if arguments[1] == "deployment" => {
                        "deployment-web\t3\t3\t3\t\t"
                    }
                    HostAction::Query { .. } => "rs-web\tDeployment:deployment-web\n",
                    HostAction::List { .. } if deleted.is_empty() => &before,
                    HostAction::List { .. } => &after,
                    HostAction::Delete { arguments } => {
                        deleted = arguments[3..].to_vec();
                        "pod \"web-a\" deleted\n"
                    }
                    _ => unreachable!(),
                };
                settle(&mut host, &action, true, output.as_bytes(), b"").unwrap()
            }
        };
        let event = hear(&action, Ok(answer)).unwrap();
        action = run.step(event).unwrap();
    }
    assert_eq!(deleted, ["web-a", "web-b"]);
    assert_eq!(run.outcome.recovered, Some(1_000_000_000));
    assert_eq!(run.outcome.killed, deleted);
}

/// Labels are named in the order of their keys, however the request has them.
#[test]
fn a_selector_names_labels_in_the_order_of_their_keys() {
    let object = json(
        r#"{"spec": {"selector": {"matchLabels": {"tier": "front", "app": "web", "env": "dev"}}}}"#,
    );
    assert_eq!(selector(&object).unwrap(), "app=web,env=dev,tier=front");
    let twice = json(r#"{"spec": {"selector": {"matchLabels": {"b": "1", "a": "2", "b": "3"}}}}"#);
    assert_eq!(selector(&twice).unwrap(), "a=2,b=3");
}
