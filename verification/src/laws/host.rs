//! What a host does for its guest, and what a guest asks for.
use crate::chaos::guest::{asked_of, heard_of, millis_of};
use crate::chaos::host::{
    cluster_arguments_of, count_of, decided, file_of, guest_failure_of, kubectl_output_of,
    name_of_line, names_of_lines, scope_of, scope_of_bytes, settled, told_of, HostActionView,
    HostRequestView, HostScopeView, HostView,
};
use crate::chaos::objects::selector_of;
use crate::chaos::pods::{pods_of_lines, replica_sets_of_lines, workload_of_line};
use crate::chaos::rogue::{attempt_of, call_of, deletion_of, excerpt_of, noted};
use crate::chaos::run::{ActionView, EventView};
use crate::encoding::{lossy_text, quoted};
use crate::json::{as_text, parsed_json, JsonView};
use crate::laws::reading::{
    decimals_are_spelled, ends, given, giving, lines_begin, lines_end, made_of,
    selections_have_what_is_made, spelled, two_numbers,
};
use crate::laws::text::{all_lack, pieces_are_what_was_written, trimming_leaves_the_rest, written};
use crate::numbers::{decimal, decimal_reads_back, number_round_trip};
use crate::sequences::{
    first_match, first_match_found, first_match_is_there, first_match_none, selected,
};
use crate::text::{begins, joined, lower, text_lines, trimmed};
use vstd::prelude::*;
use vstd::utf8::{decode_utf8, valid_utf8};

verus! {

// ---------------------------------------------------------------------- scope --

/// The scope of a request is the selected workload, in its own namespace, with the
/// pods that its selector picks.
pub proof fn scopes_are_of_the_selected_workload(request: JsonView)
    ensures
        scope_of(request) matches Ok(scope) ==> (request.get("object"@) matches Some(object) && {
            &&& as_text(object.at("metadata"@, "name"@)) == Some(scope.name)
            &&& as_text(object.get("kind"@)) matches Some(kind) && scope.resource
                == kind.map_values(|letter: char| lower(letter)) && (kind == "Deployment"@ || kind
                == "StatefulSet"@ || kind == "DaemonSet"@)
            &&& as_text(object.at("metadata"@, "namespace"@)) matches Some(namespace)
                ==> scope.namespace == namespace
            &&& as_text(object.at("metadata"@, "namespace"@)) is None ==> as_text(
                request.get("namespace"@),
            ) == Some(scope.namespace)
            &&& scope.namespace.len() > 0
            &&& as_text(request.get("context"@)) matches Some(context) ==> scope.context == context
            &&& selector_of(object) == Ok::<Seq<char>, Seq<char>>(scope.selector)
            &&& !scope.dry_run <==> as_text(request.at("inputs"@, "dry_run"@)) == Some("false"@)
                && (as_text(request.at("inputs"@, "pods"@)) matches Some(path) ==> path.len() == 0)
        }),
{
    kinds_differ();
    reveal_strlit("false");
}

proof fn kinds_differ()
    ensures
        "Deployment"@.len() == 10,
        "StatefulSet"@.len() == 11,
        "DaemonSet"@.len() == 9,
{
    reveal_strlit("Deployment");
    reveal_strlit("StatefulSet");
    reveal_strlit("DaemonSet");
}

/// A host allows as many pods as are asked for, at least one and at most ten. What
/// is no number counts as one.
pub proof fn hosts_allow_what_is_asked_for(input: Seq<char>, request: JsonView)
    ensures
        spelled(input) matches Some(number) ==> (number <= usize::MAX ==> count_of(input)
            == if number < 1 {
            1
        } else if number > 10 {
            10
        } else {
            number
        }),
        input.len() == 0 ==> count_of(input) == 1,
        1 <= count_of(input) <= 10,
        scope_of(request) matches Ok(scope) ==> (as_text(
            request.at("inputs"@, "count"@),
        ) matches Some(text) ==> scope.count == count_of(text)),
        scope_of(request) matches Ok(scope) ==> (as_text(request.at("inputs"@, "count"@)) is None
            ==> scope.count == 1),
{
    if spelled(input) is Some {
        assert('0' <= input[0] <= '9');
    }
}

// ------------------------------------------------------------------- requests --

/// A host reads the workload of its scope and no other.
pub proof fn hosts_read_their_own_workload(host: HostView)
    ensures
        decided(host, HostRequestView::Workload) matches Ok((after, action)) && after == host
            && action == (HostActionView::Query {
            arguments: seq![
                "get"@,
                host.scope.resource,
                host.scope.name,
                "-o"@,
                "jsonpath={.metadata.uid}{\"\\t\"}{.spec.replicas}{\"\\t\"}{.status.replicas}{\"\\t\"}{.status.readyReplicas}{\"\\t\"}{.status.desiredNumberScheduled}{\"\\t\"}{.status.numberReady}"@,
            ],
        }),
{
}

/// Pods and ReplicaSets are listed by the selector that was asked for, in the
/// columns that they are read from.
pub proof fn hosts_list_by_selector(host: HostView, selector: Seq<char>)
    requires
        selector == host.scope.selector,
    ensures
        decided(host, HostRequestView::Pods { selector }) matches Ok(
            (after, HostActionView::List { arguments }),
        ) && after == host && arguments[0] == "get"@ && arguments[1] == "pods"@ && given(
            arguments,
            "-l"@,
            selector,
        ) && given(
            arguments,
            "-o"@,
            "jsonpath={range .items[*]}{.metadata.name}{\"\\t\"}{.metadata.uid}{\"\\t\"}{.metadata.creationTimestamp}{\"\\t\"}{.metadata.deletionTimestamp}{\"\\t\"}{.status.phase}{\"\\t\"}{range .metadata.ownerReferences[?(@.controller==true)]}{.kind}{\":\"}{.uid}{end}{\"\\t\"}{range .status.conditions[?(@.type==\"Ready\")]}{.status}{end}{\"\\n\"}{end}"@,
        ) && arguments.len() == 6,
        decided(host, HostRequestView::ReplicaSets { selector }) matches Ok(
            (after, HostActionView::Query { arguments }),
        ) && after == host && arguments[0] == "get"@ && arguments[1] == "replicasets"@ && given(
            arguments,
            "-l"@,
            selector,
        ) && given(
            arguments,
            "-o"@,
            "jsonpath={range .items[*]}{.metadata.uid}{\"\\t\"}{range .metadata.ownerReferences[?(@.controller==true)]}{.kind}{\":\"}{.uid}{end}{\"\\n\"}{end}"@,
        ) && arguments.len() == 6,
{
    if let Ok((_, HostActionView::List { arguments })) = decided(
        host,
        HostRequestView::Pods { selector },
    ) {
        giving(arguments, 2);
        giving(arguments, 4);
    }
    if let Ok((_, HostActionView::Query { arguments })) = decided(
        host,
        HostRequestView::ReplicaSets { selector },
    ) {
        giving(arguments, 2);
        giving(arguments, 4);
    }
}

/// Exactly the pods that a guest names are deleted, and only where the run is not
/// dry, nothing was deleted before, some are named, no more than are allowed, and
/// all of them were listed.
pub proof fn hosts_delete_what_is_named(host: HostView, pods: Seq<Seq<char>>)
    ensures
        decided(host, HostRequestView::Delete { pods }) is Ok <==> {
            &&& !host.scope.dry_run
            &&& !host.deleted
            &&& 0 < pods.len() <= host.scope.count
            &&& forall|i: int| 0 <= i < pods.len() ==> host.listed.contains(#[trigger] pods[i])
        },
        decided(host, HostRequestView::Delete { pods }) matches Ok((after, action)) ==> {
            &&& after.deleted
            &&& after.scope == host.scope
            &&& after.listed == host.listed
            &&& action matches HostActionView::Delete { arguments } && arguments[0] == "delete"@
                && arguments[1] == "pod"@ && arguments[2] == "--wait=false"@ && arguments.skip(3)
                == pods
        },
{
    let test = |pod: Seq<char>| !host.listed.contains(pod);
    if first_match(pods, test) is None {
        first_match_none(pods, test);
        assert forall|i: int| 0 <= i < pods.len() implies host.listed.contains(
            #[trigger] pods[i],
        ) by {
            assert(!test(pods[i]));
        }
    } else {
        let at = first_match_is_there(pods, test);
        assert(!host.listed.contains(pods[at]));
    }
    if let Ok((_, HostActionView::Delete { arguments })) = decided(
        host,
        HostRequestView::Delete { pods },
    ) {
        assert(arguments.skip(3) =~= pods);
    }
}

/// A host sleeps as long as it is asked to and no longer than a minute, reads the
/// file that it is asked for, and tells the time.
pub proof fn hosts_do_the_rest_as_asked(host: HostView, millis: u64, path: Seq<char>)
    ensures
        decided(host, HostRequestView::Sleep { millis }) matches Ok(
            (after, HostActionView::Sleep { millis: slept }),
        ) && after == host && slept == if millis < 60000 {
            millis
        } else {
            60000
        },
        decided(host, HostRequestView::ReadFile { path }) == Ok::<
            (HostView, HostActionView),
            Seq<char>,
        >((host, HostActionView::ReadFile { path })),
        decided(host, HostRequestView::Now) == Ok::<(HostView, HostActionView), Seq<char>>(
            (host, HostActionView::Now),
        ),
{
}

/// kubectl is always run in the context and the namespace of the scope.
pub proof fn kubectl_runs_in_the_scope(scope: HostScopeView)
    ensures
        scope.context.len() > 0 ==> given(cluster_arguments_of(scope), "--context"@, scope.context),
        scope.namespace.len() > 0 ==> given(
            cluster_arguments_of(scope),
            "--namespace"@,
            scope.namespace,
        ),
        scope.context.len() == 0 && scope.namespace.len() > 0 ==> cluster_arguments_of(scope).len()
            == 2,
{
    let arguments = cluster_arguments_of(scope);
    if scope.context.len() > 0 {
        giving(arguments, 0);
        assert(arguments[0] == "--context"@ && arguments[1] == scope.context);
    }
    if scope.namespace.len() > 0 {
        giving(arguments, arguments.len() - 2);
        assert(arguments[arguments.len() - 2] == "--namespace"@);
        assert(arguments[arguments.len() - 1] == scope.namespace);
    }
}

/// A run of kubectl that failed has no output; what it said of the failure is
/// passed on. The output of one that succeeded is what it printed.
pub proof fn kubectl_output_is_what_it_printed(
    arguments: Seq<Seq<char>>,
    success: bool,
    stdout: Seq<u8>,
    stderr: Seq<u8>,
)
    ensures
        ({
            let output = kubectl_output_of(arguments, success, stdout, stderr);
            &&& output is Ok <==> success && valid_utf8(stdout)
            &&& output matches Ok(text) ==> text == decode_utf8(stdout)
            &&& !success ==> (output matches Err(message) && begins(
                message,
                "kubectl "@ + joined(arguments, " "@) + ": "@,
            ))
            &&& success ==> (output matches Err(message) ==> begins(
                message,
                "kubectl returned non-UTF-8 output: "@,
            ))
        }),
{
    broadcast use lines_begin;
}

/// The pods of a listing are remembered by name. Nothing but a listing that
/// succeeded changes what is remembered.
pub proof fn listings_are_remembered(
    host: HostView,
    action: HostActionView,
    output: Option<Seq<char>>,
    name: Seq<char>,
)
    ensures
        ({
            let after = settled(host, action, output);
            &&& after.scope == host.scope && after.deleted == host.deleted
            &&& !(action is List) || output is None ==> after == host
            &&& action is List ==> (output matches Some(text) ==> (after.listed.contains(name)
                <==> made_of(text_lines(text), |line: Seq<char>| name_of_line(line), name)))
        }),
{
    if let Some(text) = output {
        let read = |line: Seq<char>| name_of_line(line);
        let lines = text_lines(text);
        selections_have_what_is_made(lines, read);
        let names = selected(lines, read);
        if names.contains(name) {
            let at = choose|j: int| 0 <= j < names.len() && names[j] == name;
            assert(made_of(lines, read, names[at]));
        }
        if made_of(lines, read, name) {
            let at = choose|i: int| 0 <= i < lines.len() && read(#[trigger] lines[i]) == Some(name);
            assert(names.contains(name));
        }
        assert(names_of_lines(text) == names);
        assert(names.to_set().contains(name) <==> names.contains(name));
    }
}

/// A line of a listing names the pod of its first column.
pub proof fn lines_name_their_first_column(columns: Seq<Seq<char>>)
    requires
        columns.len() > 0,
        all_lack(columns, '\t'),
    ensures
        columns[0].len() > 0 ==> name_of_line(written(columns, '\t')) == Some(columns[0]),
        columns[0].len() == 0 ==> name_of_line(written(columns, '\t')) is None,
{
    pieces_are_what_was_written(columns, '\t');
}

/// A guest is told what kubectl printed, but nothing of a deletion, and every
/// failure.
pub proof fn guests_are_told_what_was_printed(
    action: HostActionView,
    output: Result<Seq<char>, Seq<char>>,
    stdout: Seq<u8>,
)
    ensures
        output matches Err(message) ==> told_of(action, output, stdout) == Err::<
            Seq<u8>,
            Seq<char>,
        >(message),
        output is Ok ==> (told_of(action, output, stdout) matches Ok(bytes) && bytes
            == if action is Delete {
            Seq::<u8>::empty()
        } else {
            stdout
        }),
{
}

/// A file within its limit is passed on whole, a larger one is not passed on.
pub proof fn files_are_passed_on_whole(bytes: Seq<u8>, limit: nat)
    ensures
        file_of(bytes, limit) is Ok <==> bytes.len() <= limit,
        file_of(bytes, limit) matches Ok(passed) ==> passed == bytes,
{
}

/// What is said of a guest that failed says whether pods are gone.
pub proof fn failures_say_whether_pods_are_gone(deleted: bool, error: Seq<char>)
    ensures
        deleted ==> begins(
            guest_failure_of(deleted, error),
            "chaos-kill guest failed after deleting pods; recovery was not measured: "@,
        ),
        !deleted ==> begins(guest_failure_of(deleted, error), "chaos-kill guest failed: "@),
        ends(guest_failure_of(deleted, error), error),
{
    broadcast use {lines_begin, lines_end};
}

// --------------------------------------------------------------------- guests --

/// A guest asks for what its run wants: the listings by the selector of its plan,
/// the deletion of the pods that the run names, and a second between two checks.
pub proof fn guests_ask_for_what_runs_want(
    selector: Seq<char>,
    pods: Seq<Seq<char>>,
    uid: Seq<char>,
)
    ensures
        asked_of(ActionView::ReadWorkload, selector) == Some(HostRequestView::Workload),
        asked_of(ActionView::ListPods, selector) == Some(HostRequestView::Pods { selector }),
        asked_of(ActionView::ListReplicaSets { uid }, selector) == Some(
            HostRequestView::ReplicaSets { selector },
        ),
        asked_of(ActionView::Delete { pods }, selector) == Some(HostRequestView::Delete { pods }),
        asked_of(ActionView::ReadClock, selector) == Some(HostRequestView::Now),
        asked_of(ActionView::Pause, selector) == Some(HostRequestView::Sleep { millis: 1000 }),
        asked_of(ActionView::Finish, selector) is None,
{
}

/// A guest reads the clock in milliseconds and tells its run of nanoseconds.
pub proof fn clocks_are_read(millis: nat, answer: Seq<u8>)
    requires
        millis <= u64::MAX,
        valid_utf8(answer),
        decode_utf8(answer) == decimal(millis),
    ensures
        heard_of(ActionView::ReadClock, Ok(answer)) matches Some(EventView::Clock(now)) && now
            == millis * 1_000_000,
{
    let text = decimal(millis);
    decimal_reads_back(millis);
    assert('0' <= text[0] <= '9');
    assert('0' <= text[text.len() - 1] <= '9');
    trimming_leaves_the_rest(text);
    number_round_trip(millis, u64::MAX as nat);
    assert(millis_of(Some(text)) == millis);
    assert(millis * 1_000_000 <= u128::MAX) by (nonlinear_arith)
        requires
            millis <= 0xffff_ffff_ffff_ffff,
    ;
}

/// What a guest hears is what the host printed, read as what was asked for. A
/// failure of the host is passed on as it is.
pub proof fn answers_are_read_as_asked(
    uid: Seq<char>,
    pods: Seq<Seq<char>>,
    answer: Seq<u8>,
    message: Seq<char>,
)
    ensures
        valid_utf8(answer) ==> {
            let text = decode_utf8(answer);
            &&& heard_of(ActionView::ReadWorkload, Ok(answer)) == Some(
                EventView::Workload(workload_of_line(text)),
            )
            &&& heard_of(ActionView::ListPods, Ok(answer)) == Some(
                EventView::Pods(pods_of_lines(text_lines(text))),
            )
            &&& heard_of(ActionView::ListReplicaSets { uid }, Ok(answer)) == Some(
                EventView::ReplicaSets(replica_sets_of_lines(text_lines(text), uid)),
            )
        },
        heard_of(ActionView::Delete { pods }, Ok(answer)) == Some(EventView::Deleted(Ok(()))),
        heard_of(ActionView::ReadWorkload, Err(message)) == Some(EventView::Workload(Err(message))),
        heard_of(ActionView::ListPods, Err(message)) == Some(EventView::Pods(Err(message))),
        heard_of(ActionView::ListReplicaSets { uid }, Err(message)) == Some(
            EventView::ReplicaSets(Err(message)),
        ),
        heard_of(ActionView::Delete { pods }, Err(message)) == Some(
            EventView::Deleted(Err(message)),
        ),
{
}

/// What a guest that breaks the rules notes of an attempt says whether it was
/// allowed, and comes behind what was noted before.
pub proof fn attempts_are_noted(
    out: Seq<char>,
    label: Seq<char>,
    answer: Result<Seq<char>, Seq<char>>,
)
    ensures
        begins(noted(out, label, answer), out),
        answer matches Ok(body) ==> noted(out, label, answer) == out + label + "\n    ALLOWED: "@
            + excerpt_of(body) + "\n"@,
        answer matches Err(message) ==> ends(
            noted(out, label, answer),
            label + "\n    REFUSED: "@ + message + "\n"@,
        ),
{
    broadcast use {lines_begin, lines_end};

    match answer {
        Ok(body) => {
            let rest = label + "\n    ALLOWED: "@ + excerpt_of(body) + "\n"@;
            assert(noted(out, label, answer) =~= out + rest);
        },
        Err(message) => {
            let rest = label + "\n    REFUSED: "@ + message + "\n"@;
            assert(noted(out, label, answer) =~= out + rest);
        },
    }
}

/// A request that cannot be read is refused with what is wrong with it.
pub proof fn requests_have_to_be_documents(request: Seq<u8>)
    ensures
        parsed_json(request) matches Ok(document) ==> scope_of_bytes(request) == scope_of(document),
        parsed_json(request) matches Err(message) ==> scope_of_bytes(request) == Err::<
            HostScopeView,
            Seq<char>,
        >("invalid request: "@ + message),
{
}

/// A selector that is not the workload's is refused by its text, and a deletion
/// that is not allowed by what is wrong with it.
pub proof fn refusals_say_what_was_asked_for(
    host: HostView,
    selector: Seq<char>,
    pods: Seq<Seq<char>>,
)
    ensures
        selector != host.scope.selector ==> decided(host, HostRequestView::Pods { selector })
            == Err::<(HostView, HostActionView), Seq<char>>(
            "refusing a selector the workload does not have: "@ + quoted(selector),
        ),
        host.scope.dry_run ==> decided(host, HostRequestView::Delete { pods }) == Err::<
            (HostView, HostActionView),
            Seq<char>,
        >("refusing to delete: this run is a dry run"@),
        !host.scope.dry_run && host.deleted ==> decided(host, HostRequestView::Delete { pods })
            == Err::<(HostView, HostActionView), Seq<char>>(
            "refusing a second delete in one run"@,
        ),
        !host.scope.dry_run && !host.deleted && pods.len() == 0 ==> decided(
            host,
            HostRequestView::Delete { pods },
        ) == Err::<(HostView, HostActionView), Seq<char>>("refusing an empty delete"@),
        !host.scope.dry_run && !host.deleted && pods.len() > host.scope.count ==> (decided(
            host,
            HostRequestView::Delete { pods },
        ) matches Err(message) && two_numbers(
            message.skip("refusing to delete "@.len() as int),
            pods.len(),
            " pods; the request asked for "@,
            host.scope.count as nat,
            Seq::empty(),
        )),
{
    broadcast use decimals_are_spelled;

    let start = "refusing to delete "@;
    let numbers = decimal(pods.len()) + " pods; the request asked for "@ + decimal(
        host.scope.count as nat,
    );
    assert(spelled(decimal(pods.len())) == Some(pods.len()));
    assert(spelled(decimal(host.scope.count as nat)) == Some(host.scope.count as nat));
    let message = start + decimal(pods.len()) + " pods; the request asked for "@ + decimal(
        host.scope.count as nat,
    );
    assert(message.skip(start.len() as int) =~= numbers + Seq::<char>::empty());
}

/// What is said of a run of kubectl that failed ends with the first line of its
/// errors that is not blank.
pub proof fn the_first_error_is_passed_on(
    arguments: Seq<Seq<char>>,
    stdout: Seq<u8>,
    stderr: Seq<u8>,
    at: int,
)
    requires
        0 <= at < text_lines(lossy_text(stderr)).len(),
        trimmed(text_lines(lossy_text(stderr))[at]).len() > 0,
        forall|i: int|
            0 <= i < at ==> trimmed(#[trigger] text_lines(lossy_text(stderr))[i]).len() == 0,
    ensures
        kubectl_output_of(arguments, false, stdout, stderr) == Err::<Seq<char>, Seq<char>>(
            "kubectl "@ + joined(arguments, " "@) + ": "@ + text_lines(lossy_text(stderr))[at],
        ),
{
    let lines = text_lines(lossy_text(stderr));
    let test = |line: Seq<char>| trimmed(line).len() > 0;
    assert forall|i: int| 0 <= i < at implies !test(#[trigger] lines[i]) by {
        assert(trimmed(lines[i]).len() == 0);
    }
    first_match_found(lines, test, at);
}

/// What a guest that breaks the rules tries, in this order: to list pods that are
/// not the workload's, to list its own, to delete a pod that was not listed, to
/// delete all that were, to delete one, and to delete it once more.
pub proof fn attempts_come_in_order(names: Seq<Seq<char>>)
    ensures
        attempt_of(1, names) matches Some(attempt) && attempt.1
            == "{\"operation\":\"pods\",\"selector\":\"app\"}"@,
        attempt_of(2, names) matches Some(attempt) && attempt.1
            == "{\"operation\":\"pods\",\"selector\":\"app=web\"}"@,
        attempt_of(3, names) matches Some(attempt) && attempt.1
            == "{\"operation\":\"delete\",\"pods\":[\"kube-apiserver-docker-desktop\"]}"@,
        attempt_of(4, names) matches Some(attempt) && attempt.1 == deletion_of(names),
        names.len() > 0 ==> (attempt_of(5, names) matches Some(attempt) && attempt.1
            == "{\"operation\":\"delete\",\"pods\":["@ + ("\""@ + names[0] + "\""@) + "]}"@),
        names.len() > 0 ==> (attempt_of(6, names) matches Some(attempt) && attempt.1
            == "{\"operation\":\"delete\",\"pods\":["@ + ("\""@ + names[0] + "\""@) + "]}"@),
        names.len() == 0 ==> attempt_of(5, names) is None && attempt_of(6, names) is None,
        attempt_of(7, names) is None,
{
}

/// A response that is empty or has not come whole is an error, and its status says
/// whether the rest is one.
pub proof fn responses_are_read_by_status(length: int, read: int, response: Seq<u8>)
    requires
        response.len() > 0,
    ensures
        call_of(length, read, response) is Ok <==> length > 0 && read == length && response[0] == 0,
        call_of(length, read, response) matches Ok(body) ==> body == lossy_text(
            response.drop_first(),
        ),
        length > 0 && read == length && response[0] != 0 ==> call_of(length, read, response)
            == Err::<Seq<char>, Seq<char>>(lossy_text(response.drop_first())),
{
}

} // verus!
