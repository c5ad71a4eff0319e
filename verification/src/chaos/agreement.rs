//! What a host and the guest it runs have in common: they read a request the same
//! way, and a guest that keeps to it is not refused.
use crate::chaos::guest::{asked_of, text_of_answer};
use crate::chaos::host::{
    decided, delete_refusal, is_supported, name_of_line, names_of_lines, scope_of, HostRequestView,
    HostScopeView, HostView, KILL_MAX,
};
use crate::chaos::pods::{pod_of_line, pods_of_lines, PodView};
use crate::chaos::run::{next, plan_of, ActionView, EventView, PlanView, Request, RunView};
use crate::chaos::safety::{deletions_are_confirmed, sound};
use crate::chaos::victims::identity;
use crate::json::{as_text, JsonView};
use crate::sequences::{collected, first_match, first_match_is_there, selected};
use crate::text::{text_lines, text_view};
use crate::text_map::text_at;
use vstd::prelude::*;

verus! {

/// Whether a request is what a document spells.
pub open spec fn spells(document: JsonView, request: &Request) -> bool {
    &&& request.object matches Some(object) ==> document.get("object"@) == Some(object@)
    &&& text_view(request.context) == as_text(document.get("context"@))
    &&& text_view(request.namespace) == as_text(document.get("namespace"@))
    &&& forall|key: Seq<char>| #[trigger]
        text_at(request.inputs@, key) == as_text(document.at("inputs"@, key))
}

/// Whether a host allows what a plan needs: the same workload and the same pods,
/// a deletion where the plan has one, and as many pods as it kills, up to the
/// most that a deletion names.
pub open spec fn agrees(scope: HostScopeView, plan: PlanView) -> bool {
    &&& scope.context == plan.scope.context
    &&& scope.namespace == plan.scope.namespace
    &&& scope.resource == plan.scope.resource
    &&& scope.name == plan.scope.name
    &&& scope.selector == plan.selector
    &&& scope.dry_run == plan.options.dry_run
    &&& scope.count == if plan.options.count <= KILL_MAX {
        plan.options.count
    } else {
        KILL_MAX
    }
}

/// The host reads a request the same way the guest does. It accepts what the
/// guest accepts, where the workload is of a kind that brings its pods back.
pub proof fn hosts_read_requests_as_guests_do(document: JsonView, request: &Request)
    requires
        spells(document, request),
    ensures
        plan_of(request) matches Ok(plan) ==> match scope_of(document) {
            Ok(scope) => agrees(scope, plan),
            Err(_) => !is_supported(plan.kind),
        },
{
    assert(text_at(request.inputs@, "dry_run"@) == as_text(document.at("inputs"@, "dry_run"@)));
    assert(text_at(request.inputs@, "pods"@) == as_text(document.at("inputs"@, "pods"@)));
    assert(text_at(request.inputs@, "count"@) == as_text(document.at("inputs"@, "count"@)));
    reveal_strlit("false");
}

proof fn listed_pods_are_remembered(lines: Seq<Seq<char>>)
    requires
        pods_of_lines(lines) is Ok,
    ensures
        forall|i: int|
            0 <= i < (pods_of_lines(lines)->Ok_0).len() ==> selected(
                lines,
                |line: Seq<char>| name_of_line(line),
            ).contains((#[trigger] (pods_of_lines(lines)->Ok_0)[i]).name),
    decreases lines.len(),
{
    let read = |line: Seq<char>| name_of_line(line);
    let parse = |line: Seq<char>| pod_of_line(line);
    if lines.len() > 0 {
        let before = lines.drop_last();
        listed_pods_are_remembered(before);
        let pods = collected(lines, parse)->Ok_0;
        let earlier = collected(before, parse)->Ok_0;
        assert forall|i: int| 0 <= i < pods.len() implies selected(lines, read).contains(
            (#[trigger] pods[i]).name,
        ) by {
            if i < earlier.len() {
                assert(pods[i] == earlier[i]);
                let names = selected(before, read);
                let at = choose|j: int| 0 <= j < names.len() && names[j] == earlier[i].name;
                assert(selected(lines, read)[at] == names[at]);
            } else {
                assert(parse(lines.last()) == Ok::<Option<PodView>, Seq<char>>(Some(pods[i])));
                assert(read(lines.last()) == Some(pods[i].name));
                assert(selected(lines, read).last() == pods[i].name);
            }
        }
    }
}

/// A guest that keeps to its plan is not refused: its listings are of the
/// workload's own pods, and what it deletes are pods that the host has just
/// listed, no more of them than the request allows.
pub proof fn honest_guests_are_served(
    run: RunView,
    answer: Result<Seq<u8>, Seq<char>>,
    host: HostView,
    event: EventView,
)
    requires
        sound(run),
        agrees(host.scope, run.plan),
        event matches EventView::Pods(Ok(pods)) ==> (text_of_answer(answer) matches Ok(output)
            && pods_of_lines(text_lines(output)) == Ok::<Seq<PodView>, Seq<char>>(pods)
            && host.listed == names_of_lines(output).to_set()),
    ensures
        next(run, event) matches Ok(step) ==> match asked_of(step.1, run.plan.selector) {
            Some(HostRequestView::Delete { pods }) => run.plan.options.count <= KILL_MAX
                && !host.deleted ==> decided(host, HostRequestView::Delete { pods }) is Ok,
            Some(request) => decided(host, request) is Ok,
            None => true,
        },
{
    if let Ok((after, ActionView::Delete { pods })) = next(run, event) {
        deletions_are_confirmed(run, event, pods);
        let current = event->Pods_0->Ok_0;
        let output = text_of_answer(answer)->Ok_0;
        let names = names_of_lines(output);
        listed_pods_are_remembered(text_lines(output));
        assert forall|i: int| 0 <= i < pods.len() implies host.listed.contains(
            #[trigger] pods[i],
        ) by {
            let victim = run.victims[i];
            assert(identity(current, victim.name) is Some);
            let at = first_match_is_there(current, |pod: PodView| pod.name == victim.name);
            assert(names.contains(current[at].name));
        }
        let test = |pod: Seq<char>| !host.listed.contains(pod);
        if first_match(pods, test) is Some {
            let at = first_match_is_there(pods, test);
            assert(host.listed.contains(pods[at]));
        }
        if run.plan.options.count <= KILL_MAX && !host.deleted {
            assert(delete_refusal(host, pods) is None);
        }
    }
}

} // verus!
