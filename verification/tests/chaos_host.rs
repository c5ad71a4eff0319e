//! What the host of the resiliency test allows its guest.

use sofka_plugins::chaos::host::{
    check_selector, cluster_arguments, dispatch, encoded_response, file_contents, guest_failure,
    kubectl_not_run, kubectl_output, listed_names, refuse_delete, scope, settle, HostAction,
    HostRequest, HostScope, HostState, RESPONSE_MAX_BYTES,
};
use sofka_plugins::chaos::rogue::{all_label, attempt, call, deletion, one_label, probe, Rogue};
use sofka_plugins::frame::take_response;

fn request(inputs: &str) -> String {
    format!(
        r#"{{"schema_version": 1, "context": "demo", "namespace": "fallback",
            "inputs": {inputs},
            "object": {{"kind": "Deployment",
                "metadata": {{"name": "web", "namespace": "apps"}},
                "spec": {{"selector": {{"matchLabels": {{"app": "web"}}}}}}}}}}"#
    )
}

fn live() -> HostState {
    HostState::new(scope(request(r#"{"dry_run": "false", "count": "2"}"#).as_bytes()).unwrap())
}

fn names(list: &[&str]) -> Vec<String> {
    list.iter().map(|name| name.to_string()).collect()
}

#[test]
fn the_scope_comes_from_the_request() {
    assert_eq!(
        scope(request(r#"{"dry_run": "false", "count": "2"}"#).as_bytes()).unwrap(),
        HostScope {
            context: "demo".to_string(),
            namespace: "apps".to_string(),
            resource: "deployment".to_string(),
            name: "web".to_string(),
            selector: "app=web".to_string(),
            dry_run: false,
            count: 2,
        }
    );
    // Nothing but an explicit "false" turns the dry run off, and a saved pod
    // list keeps it on.
    assert!(scope(request("{}").as_bytes()).unwrap().dry_run);
    assert!(scope(request(r#"{"dry_run": false}"#).as_bytes()).unwrap().dry_run);
    assert!(scope(request(r#"{"dry_run": "false", "pods": "x"}"#).as_bytes()).unwrap().dry_run);
    // The count is between one and ten.
    for (count, taken) in [("0", 1), ("99", 10), ("many", 1), ("10", 10)] {
        let inputs = format!(r#"{{"count": "{count}"}}"#);
        assert_eq!(scope(request(&inputs).as_bytes()).unwrap().count, taken);
    }
}

#[test]
fn a_request_without_a_workload_has_no_scope() {
    let refusal = |text: &str| scope(text.as_bytes()).unwrap_err();
    assert!(refusal("[").starts_with("invalid request: "));
    assert_eq!(refusal("{}"), "select a workload to test");
    assert_eq!(refusal(r#"{"object": {}}"#), "selected object has no name");
    assert_eq!(
        refusal(r#"{"object": {"metadata": {"name": "web"}}}"#),
        "a namespace is required; this never runs cluster-wide"
    );
    assert_eq!(
        refusal(r#"{"namespace": "apps", "object": {"kind": "Job", "metadata": {"name": "web"}}}"#),
        "Job is not supported; select a Deployment, StatefulSet, or DaemonSet"
    );
    assert_eq!(
        refusal(
            r#"{"namespace": "apps", "object": {"kind": "DaemonSet", "metadata": {"name": "web"}}}"#
        ),
        "workload has no spec.selector"
    );
}

#[test]
fn another_selector_is_refused() {
    let state = live();
    assert_eq!(check_selector(&state.scope, "app=web"), Ok(()));
    assert_eq!(
        check_selector(&state.scope, "app=\"w\""),
        Err("refusing a selector the workload does not have: \"app=\\\"w\\\"\"".to_string())
    );
    let mut state = live();
    assert_eq!(
        dispatch(&mut state, HostRequest::Pods { selector: "app".to_string() }),
        Err("refusing a selector the workload does not have: \"app\"".to_string())
    );
    assert_eq!(
        dispatch(&mut state, HostRequest::ReplicaSets { selector: "app".to_string() }),
        Err("refusing a selector the workload does not have: \"app\"".to_string())
    );
}

#[test]
fn requests_become_fixed_kubectl_arguments() {
    let mut state = live();
    assert_eq!(
        dispatch(&mut state, HostRequest::Workload),
        Ok(HostAction::Query {
            arguments: names(&[
                "get",
                "deployment",
                "web",
                "-o",
                r#"jsonpath={.metadata.uid}{"\t"}{.spec.replicas}{"\t"}{.status.replicas}{"\t"}{.status.readyReplicas}{"\t"}{.status.desiredNumberScheduled}{"\t"}{.status.numberReady}"#,
            ])
        })
    );
    assert_eq!(
        dispatch(&mut state, HostRequest::Pods { selector: "app=web".to_string() }),
        Ok(HostAction::List {
            arguments: names(&[
                "get",
                "pods",
                "-l",
                "app=web",
                "-o",
                r#"jsonpath={range .items[*]}{.metadata.name}{"\t"}{.metadata.uid}{"\t"}{.metadata.creationTimestamp}{"\t"}{.metadata.deletionTimestamp}{"\t"}{.status.phase}{"\t"}{range .metadata.ownerReferences[?(@.controller==true)]}{.kind}{":"}{.uid}{end}{"\t"}{range .status.conditions[?(@.type=="Ready")]}{.status}{end}{"\n"}{end}"#,
            ])
        })
    );
    assert_eq!(
        dispatch(&mut state, HostRequest::ReplicaSets { selector: "app=web".to_string() }),
        Ok(HostAction::Query {
            arguments: names(&[
                "get",
                "replicasets",
                "-l",
                "app=web",
                "-o",
                r#"jsonpath={range .items[*]}{.metadata.uid}{"\t"}{range .metadata.ownerReferences[?(@.controller==true)]}{.kind}{":"}{.uid}{end}{"\n"}{end}"#,
            ])
        })
    );
    assert_eq!(dispatch(&mut state, HostRequest::Now), Ok(HostAction::Now));
    assert_eq!(
        dispatch(&mut state, HostRequest::Sleep { millis: 90_000 }),
        Ok(HostAction::Sleep { millis: 60_000 })
    );
    assert_eq!(
        dispatch(&mut state, HostRequest::Sleep { millis: 5 }),
        Ok(HostAction::Sleep { millis: 5 })
    );
    assert_eq!(
        dispatch(&mut state, HostRequest::ReadFile { path: "p".to_string() }),
        Ok(HostAction::ReadFile { path: "p".to_string() })
    );
    assert_eq!(
        cluster_arguments(&state.scope),
        ["--context", "demo", "--namespace", "apps"]
    );
}

#[test]
fn a_deletion_names_only_listed_pods_and_happens_once() {
    let mut state = live();
    let delete = |list: &[&str]| HostRequest::Delete { pods: names(list) };
    state.remember("web-a\tuid\nweb-b\tuid\n\tnameless\nweb-c\n");
    assert_eq!(state.listed, ["web-a", "web-b", "web-c"]);
    assert_eq!(
        dispatch(&mut state, delete(&[])),
        Err("refusing an empty delete".to_string())
    );
    assert_eq!(
        dispatch(&mut state, delete(&["web-a", "web-b", "web-c"])),
        Err("refusing to delete 3 pods; the request asked for 2".to_string())
    );
    assert_eq!(
        dispatch(&mut state, delete(&["web-a", "kube-apiserver"])),
        Err("refusing to delete kube-apiserver: it is not a pod this host listed for the selected workload".to_string())
    );
    assert!(!state.deleted);
    assert_eq!(refuse_delete(&state, &names(&["web-a", "web-c"])), None);
    assert_eq!(
        dispatch(&mut state, delete(&["web-a", "web-c"])),
        Ok(HostAction::Delete {
            arguments: names(&["delete", "pod", "--wait=false", "web-a", "web-c"])
        })
    );
    assert!(state.deleted);
    assert_eq!(
        dispatch(&mut state, delete(&["web-b"])),
        Err("refusing a second delete in one run".to_string())
    );
    // Only the last listing counts.
    let mut state = live();
    state.remember("web-a\n");
    state.remember("web-b\n");
    assert!(dispatch(&mut state, delete(&["web-a"])).is_err());
}

#[test]
fn a_dry_host_never_deletes() {
    let mut state = HostState::new(scope(request("{}").as_bytes()).unwrap());
    state.remember("web-a\n");
    assert_eq!(
        dispatch(&mut state, HostRequest::Delete { pods: names(&["web-a"]) }),
        Err("refusing to delete: this run is a dry run".to_string())
    );
}

#[test]
fn a_failing_kubectl_is_quoted() {
    let arguments = names(&["get", "pods"]);
    assert_eq!(
        kubectl_output(&arguments, true, b"a\n", b"warning"),
        Ok("a\n".to_string())
    );
    assert_eq!(
        kubectl_output(&arguments, false, b"a\n", b" \n\nno such server\nmore\n"),
        Err("kubectl get pods: no such server".to_string())
    );
    assert_eq!(
        kubectl_output(&arguments, true, &[0xc3], b""),
        Err("kubectl returned non-UTF-8 output: incomplete utf-8 byte sequence from index 0".to_string())
    );
}

#[test]
fn responses_carry_a_status_and_are_cut_short() {
    assert_eq!(encoded_response(1, b"no".to_vec()), b"\x01no");
    let long = encoded_response(0, vec![7; RESPONSE_MAX_BYTES + 5]);
    assert_eq!(long.len(), RESPONSE_MAX_BYTES + 1);
    assert_eq!(long[0], 0);
    assert_eq!(
        guest_failure(true, "trap"),
        "chaos-kill guest failed after deleting pods; recovery was not measured: trap"
    );
    assert_eq!(guest_failure(false, "trap"), "chaos-kill guest failed: trap");
}

#[test]
fn a_hostile_guest_notes_what_it_was_refused() {
    assert_eq!(call(0, 0, &Vec::new()), Err("invalid response length".to_string()));
    assert_eq!(call(2, 1, &vec![0, b'a']), Err("incomplete response".to_string()));
    assert_eq!(call(3, 3, &vec![0, b'a', 0xff]), Ok("a\u{fffd}".to_string()));
    assert_eq!(call(2, 2, &vec![1, b'a']), Err("a".to_string()));

    let mut out = String::from("\n");
    assert_eq!(
        probe(&mut out, "1. one", Err("no".to_string())),
        None
    );
    let long = format!("{}\nsecond", "é".repeat(80));
    assert_eq!(probe(&mut out, "2. two", Ok(long.clone())), Some(long));
    assert_eq!(probe(&mut out, "3. three", Ok(String::new())), Some(String::new()));
    assert_eq!(
        out,
        format!(
            "\n1. one\n    REFUSED: no\n2. two\n    ALLOWED: {}\n3. three\n    ALLOWED: \n",
            "é".repeat(70)
        )
    );
    assert_eq!(
        deletion(&names(&["a", "b"])),
        r#"{"operation":"delete","pods":["a","b"]}"#
    );
    assert_eq!(deletion(&Vec::new()), r#"{"operation":"delete","pods":[]}"#);
    assert_eq!(
        all_label(12),
        "4. delete all 12 listed pods at once (count asked for 1)"
    );
    assert_eq!(one_label("web-a"), "5. delete one listed pod (web-a)");
    assert_eq!(listed_names("a\tb\r\n\nc\n"), ["a", "c"]);
}

#[test]
fn a_file_of_its_limit_is_read_and_a_longer_one_refused() {
    assert_eq!(file_contents(vec![1, 2, 3], 3), Ok(vec![1, 2, 3]));
    assert_eq!(file_contents(vec![1, 2, 3], 2), Err("file is too large".to_string()));
}

#[test]
fn a_response_is_handed_out_once() {
    let mut pending = Some(vec![0, 7]);
    assert_eq!(take_response(&mut pending, 2, ""), Ok(vec![0, 7]));
    assert_eq!(
        take_response(&mut pending, 2, ""),
        Err("host response was already read".to_string())
    );
    let mut pending = Some(vec![0, 7]);
    assert_eq!(
        take_response(&mut pending, 3, "the "),
        Err("the host response length changed".to_string())
    );
    assert_eq!(pending, None);
}

/// The request in the JSON that an attempt is made of.
fn requested(text: &str) -> HostRequest {
    let selector = |value: &str| HostRequest::Pods { selector: value.to_string() };
    match text {
        r#"{"operation":"pods","selector":"app"}"# => selector("app"),
        r#"{"operation":"pods","selector":"app=web"}"# => selector("app=web"),
        _ => {
            let list = text
                .strip_prefix(r#"{"operation":"delete","pods":["#)
                .and_then(|rest| rest.strip_suffix("]}"))
                .unwrap();
            let pods = list.split(',').filter(|name| !name.is_empty());
            HostRequest::Delete { pods: pods.map(|name| name.trim_matches('"').to_string()).collect() }
        }
    }
}

/// Lets a hostile guest make all its attempts and notes which ones are allowed.
fn attempted(state: &mut HostState) -> (Vec<(u32, bool)>, String) {
    let mut rogue = Rogue::new();
    let mut allowed: Vec<(u32, bool)> = Vec::new();
    while let Some(request) = rogue.wish() {
        let action = dispatch(state, requested(&request));
        allowed.push((rogue.step, action.is_ok()));
        rogue.hear(action.and_then(|action| {
            let output = match &action {
                HostAction::List { .. } => "web-a\tuid-a\nweb-b\tuid-b\nweb-c\tuid-c\n",
                _ => "pod \"web-a\" deleted\n",
            };
            let answer = settle(state, &action, true, output.as_bytes(), b"")?;
            Ok(String::from_utf8(answer).unwrap())
        }));
    }
    (allowed, rogue.out)
}

#[test]
fn a_hostile_guest_gets_one_deletion_of_one_listed_pod() {
    let mut state = HostState::new(scope(request(r#"{"dry_run": "false"}"#).as_bytes()).unwrap());
    let (allowed, out) = attempted(&mut state);
    assert_eq!(
        allowed,
        [(1, false), (2, true), (3, false), (4, false), (5, true), (6, false)]
    );
    assert!(state.deleted);
    assert_eq!(
        out.lines().skip(1).take(4).collect::<Vec<_>>(),
        [
            "1. list every pod in the namespace (selector \"app\")",
            "    REFUSED: refusing a selector the workload does not have: \"app\"",
            "2. list the workload's own pods (the honest call)",
            "    ALLOWED: web-a\tuid-a",
        ]
    );
    assert!(out.ends_with(
        "5. delete one listed pod (web-a)\n    ALLOWED: \n\
         6. delete a second time in the same run\n    REFUSED: refusing a second delete in one run\n"
    ));
    let mut state = HostState::new(scope(request("{}").as_bytes()).unwrap());
    assert_eq!(
        attempted(&mut state).0,
        [(1, false), (2, true), (3, false), (4, false), (5, false), (6, false)]
    );
    // A guest that is shown no pod gives up after four attempts.
    let mut rogue = Rogue::new();
    for _ in 1..5 {
        assert!(rogue.wish().is_some());
        rogue.hear(Err("no".to_string()));
    }
    assert_eq!(rogue.wish(), None);
    assert!(!state.deleted);
    // Without a listed pod there is nothing left to try.
    assert_eq!(attempt(5, &Vec::new()), None);
    assert_eq!(attempt(6, &Vec::new()), None);
    assert_eq!(attempt(7, &names(&["web-a"])), None);
    assert_eq!(
        attempt(4, &names(&["web-a", "web-b"])),
        Some((
            "4. delete all 2 listed pods at once (count asked for 1)".to_string(),
            r#"{"operation":"delete","pods":["web-a","web-b"]}"#.to_string()
        ))
    );
    assert_eq!(
        attempt(5, &names(&["web-a"])).unwrap().0,
        "5. delete one listed pod (web-a)"
    );
}

#[test]
fn a_listing_is_remembered_only_where_it_succeeded() {
    let mut state = live();
    let list = HostAction::List { arguments: names(&["get", "pods"]) };
    assert_eq!(
        settle(&mut state, &list, true, b"web-a\tuid\n", b""),
        Ok(b"web-a\tuid\n".to_vec())
    );
    assert_eq!(state.listed, ["web-a"]);
    assert_eq!(
        settle(&mut state, &list, false, b"web-b\n", b"no such server\n"),
        Err("kubectl get pods: no such server".to_string())
    );
    assert!(settle(&mut state, &list, true, &[0xff], b"").is_err());
    assert_eq!(state.listed, ["web-a"]);
    // What is no listing is passed on, and a deletion says nothing.
    let query = HostAction::Query { arguments: names(&["get", "replicasets"]) };
    assert_eq!(settle(&mut state, &query, true, b"rs\n", b""), Ok(b"rs\n".to_vec()));
    let delete = HostAction::Delete { arguments: names(&["delete", "pod"]) };
    assert_eq!(settle(&mut state, &delete, true, b"deleted\n", b""), Ok(Vec::new()));
    assert_eq!(state.listed, ["web-a"]);
    assert_eq!(kubectl_not_run("not found"), "failed to run kubectl: not found");
}
