//! What a run asks for, waits for and reports.
use crate::chaos::objects::selector_of;
use crate::chaos::pods::{OwnerView, PodView, VictimView, WorkloadView};
use crate::chaos::run::{
    begun, next, plan_of, ActionView, EventView, OutcomeView, PlanView, Request, RunView, ScopeView,
    Stage,
};
use crate::chaos::summary::{kill_label, report_of, rows_of, verdict_of};
use crate::chaos::victims::{identity, moved, options_of, replaced, victims_of, Options};
use crate::json::as_text;
use crate::laws::reading::{
    counted, decimals_are_spelled, group_cells, lines_in, listed, rows_in,
    signed_decimals_are_spelled, spelled, spells, told,
};
use crate::numbers::{decimal, signed_decimal};
use crate::report::{RowView, SectionView};
use crate::sequences::{first_match, first_match_is_there, first_match_none};
use crate::text::lower;
use crate::text_map::{text_at, text_or};
use vstd::prelude::*;

verus! {

// -------------------------------------------------------------------- options --

/// The number of pods is the one that is asked for, at least one; without one it
/// is one. Anything but a number is refused.
pub proof fn counts_are_as_asked(inputs: Seq<(Seq<char>, String)>)
    ensures
        options_of(inputs) matches Ok(options) ==> {
            &&& text_at(inputs, "count"@) is None ==> options.count == 1
            &&& text_at(inputs, "count"@) matches Some(text) ==> (spelled(text) matches Some(count)
                ==> options.count == if count == 0 {
                1nat
            } else {
                count
            })
            &&& options.count >= 1
            &&& text_at(inputs, "wait"@) is None ==> options.wait == 120
            &&& options.wait > 0
        },
        text_at(inputs, "count"@) matches Some(text) ==> (text.len() == 0 ==> options_of(inputs)
            == Err::<Options, Seq<char>>("count must be a whole number"@)),
        text_at(inputs, "count"@) is None && text_at(inputs, "wait"@) is None ==> options_of(
            inputs,
        ) is Ok,
{
    if let Some(text) = text_at(inputs, "count"@) {
        if spelled(text) is Some {
            assert('0' <= text[0] <= '9');
        }
    }
}

/// Pods are deleted only where that is asked for in so many words, and never from
/// a saved list.
pub proof fn runs_are_harmless_unless_asked(inputs: Seq<(Seq<char>, String)>)
    ensures
        options_of(inputs) matches Ok(options) ==> (!options.dry_run <==> text_at(
            inputs,
            "dry_run"@,
        ) == Some("false"@) && text_or(inputs, "pods"@).len() == 0),
{
}

// ----------------------------------------------------------------------- plan --

/// A plan is for the workload that was selected, in its own namespace and in the
/// context that was asked for, with the pods that its selector picks.
pub proof fn plans_are_for_the_selected_workload(request: &Request)
    ensures
        plan_of(request) matches Ok(plan) ==> {
            let object = request.object->0@;
            &&& request.schema_version == 1
            &&& request.object is Some
            &&& as_text(object.at("metadata"@, "name"@)) == Some(plan.scope.name)
            &&& as_text(object.get("kind"@)) matches Some(kind) ==> plan.kind == kind
                && plan.scope.resource == kind.map_values(|letter: char| lower(letter))
            &&& as_text(object.at("metadata"@, "namespace"@)) matches Some(namespace)
                ==> plan.scope.namespace == namespace
            &&& as_text(object.at("metadata"@, "namespace"@)) is None ==> (request.namespace matches
                Some(namespace) && plan.scope.namespace == namespace@)
            &&& plan.scope.namespace.len() > 0
            &&& request.context matches Some(context) ==> plan.scope.context == context@
            &&& request.context is None ==> plan.scope.context.len() == 0
            &&& options_of(request.inputs@) == Ok::<Options, Seq<char>>(plan.options)
            &&& selector_of(object) == Ok::<Seq<char>, Seq<char>>(plan.selector)
        },
        request.schema_version != 1 ==> plan_of(request) == Err::<PlanView, Seq<char>>(
            "unsupported request schema_version"@,
        ),
        request.schema_version == 1 && request.object is None ==> plan_of(request) == Err::<
            PlanView,
            Seq<char>,
        >("select a workload to test"@),
{
}

// ---------------------------------------------------------------------- steps --

/// A run reads the workload first. It goes on only where the workload wants
/// replicas, and more of them than are to be killed.
pub proof fn runs_leave_a_replica(plan: PlanView, workload: WorkloadView)
    ensures
        ({
            let step = next(begun(plan), EventView::Workload(Ok(workload)));
            &&& workload.desired <= 0 ==> step == Err::<(RunView, ActionView), Seq<char>>(
                plan.kind + "/"@ + plan.scope.name
                    + " has no desired replicas; nothing can recover"@,
            )
            &&& 0 < workload.desired <= plan.options.count ==> (step matches Err(message) && exists|
                number: Seq<char>,
            |
                spells(number, workload.desired as int) && message
                    == "count must be less than the workload's "@ + #[trigger] (number
                    + " desired replicas"@))
            &&& step matches Ok((after, action)) ==> {
                &&& plan.options.count < workload.desired
                &&& after.outcome.desired == workload.desired
                &&& after.outcome.ready == workload.ready
                &&& plan.kind == "Deployment"@ ==> action == (ActionView::ListReplicaSets {
                    uid: workload.uid,
                })
                &&& plan.kind != "Deployment"@ ==> action is ListPods && after.owners == seq![
                    OwnerView { kind: plan.kind, uid: workload.uid },
                ]
            }
            &&& plan.options.count < workload.desired && (plan.kind == "Deployment"@ || plan.kind
                == "StatefulSet"@ || plan.kind == "DaemonSet"@) ==> step is Ok || workload.desired
                <= 0
            &&& !(plan.kind == "Deployment"@ || plan.kind == "StatefulSet"@ || plan.kind
                == "DaemonSet"@) ==> step is Err
        }),
{
    broadcast use signed_decimals_are_spelled;

    let number = signed_decimal(workload.desired as int);
    let start = "count must be less than the workload's "@;
    assert(start + number + " desired replicas"@ =~= start + (number + " desired replicas"@));
}

/// The pods that are chosen are shown by name. A dry run ends there, any other run
/// lists the pods once more, and a run without pods to kill is refused.
pub proof fn choices_are_shown(run: RunView, pods: Seq<PodView>)
    requires
        run.stage == Stage::Pods,
    ensures
        ({
            let chosen = victims_of(pods, run.owners, run.plan.options.count as nat);
            let step = next(run, EventView::Pods(Ok(pods)));
            &&& chosen.len() == 0 ==> step is Err
            &&& step matches Ok((after, action)) ==> {
                &&& chosen.len() > 0
                &&& after.victims == chosen
                &&& after.outcome.killed.len() == chosen.len()
                &&& forall|i: int|
                    0 <= i < chosen.len() ==> (#[trigger] after.outcome.killed[i])
                        == chosen[i].name
                &&& run.plan.options.dry_run <==> action is Finish
                &&& !run.plan.options.dry_run <==> action is ListPods
                &&& !run.plan.options.dry_run ==> forall|i: int|
                    0 <= i < chosen.len() ==> (#[trigger] chosen[i]).uid is Some
            }
            &&& chosen.len() > 0 && run.plan.options.dry_run ==> step is Ok
        }),
{
    let chosen = victims_of(pods, run.owners, run.plan.options.count as nat);
    let test = |victim: VictimView| victim.uid is None;
    if first_match(chosen, test) is None {
        first_match_none(chosen, test);
        assert forall|i: int| 0 <= i < chosen.len() implies (#[trigger] chosen[i]).uid is Some by {
            assert(!test(chosen[i]));
        }
    }
}

/// The time is counted from the answer to the deletion. A run goes on waiting
/// while fewer seconds have passed than it may wait, and the recovery took as long
/// as passed until it was seen.
pub proof fn time_is_counted_from_the_deletion(run: RunView, now: u128)
    ensures
        run.stage == Stage::Start ==> (next(run, EventView::Clock(now)) matches Ok((after, action))
            && after.started == now && action is ReadClock && after.stage == Stage::Clock),
        run.stage == Stage::Clock && now >= run.started ==> (next(
            run,
            EventView::Clock(now),
        ) matches Ok((after, action)) && after.started == run.started && (action is Pause <==> now
            - run.started < run.plan.options.wait * 1_000_000_000) && (action is Finish <==> now
            - run.started >= run.plan.options.wait * 1_000_000_000)),
        run.stage == Stage::End && now >= run.started ==> (next(run, EventView::Clock(now)) matches
            Ok((after, action)) && action is Finish && after.outcome.recovered == Some(
            (now - run.started) as u128,
        )),
{
}

/// Every pause is counted as one check, and is followed by a look at the workload.
pub proof fn pauses_are_counted(run: RunView)
    requires
        run.stage == Stage::Pause,
        run.outcome.polls < u64::MAX,
    ensures
        next(run, EventView::Paused) matches Ok((after, action)) && after.outcome.polls
            == run.outcome.polls + 1 && action is ReadWorkload && after.stage == Stage::State,
{
}

/// A workload that counts as many replicas ready as it wants is looked at pod by
/// pod. Only where its pods are replaced has it recovered; otherwise the run waits
/// on.
pub proof fn recovery_is_seen_in_the_pods(run: RunView, workload: WorkloadView, pods: Seq<PodView>)
    ensures
        run.stage == Stage::State ==> (next(run, EventView::Workload(Ok(workload))) matches Ok(
            (after, action),
        ) && after.outcome.desired == workload.desired && after.outcome.ready == workload.ready && (
        action is ListPods <==> 0 < workload.desired <= workload.ready) && (action is ReadClock
            <==> !(0 < workload.desired <= workload.ready)) && (action is ReadClock <==> after.stage
            == Stage::Clock) && after.outcome.recovered == run.outcome.recovered),
        run.stage == Stage::Replacements ==> (next(run, EventView::Pods(Ok(pods))) matches Ok(
            (after, action),
        ) && action is ReadClock && (after.stage == Stage::End <==> replaced(
            pods,
            run.owners,
            run.victims,
            run.outcome.desired as int,
        )) && (after.stage == Stage::Clock <==> !replaced(
            pods,
            run.owners,
            run.victims,
            run.outcome.desired as int,
        ))),
{
}

/// What goes wrong before the deletion ends the run with nothing to report. What
/// goes wrong from the deletion on is reported as an error of the measurement.
pub proof fn failures_are_reported_once_pods_may_be_gone(run: RunView, message: Seq<char>)
    ensures
        run.stage == Stage::Workload ==> next(run, EventView::Workload(Err(message))) == Err::<
            (RunView, ActionView),
            Seq<char>,
        >(message),
        run.stage == Stage::ReplicaSets ==> next(run, EventView::ReplicaSets(Err(message)))
            == Err::<(RunView, ActionView), Seq<char>>(message),
        run.stage == Stage::Pods || run.stage == Stage::Recheck ==> next(
            run,
            EventView::Pods(Err(message)),
        ) == Err::<(RunView, ActionView), Seq<char>>(message),
        run.stage == Stage::Delete ==> (next(run, EventView::Deleted(Err(message))) matches Ok(
            (after, action),
        ) && action is Finish && after.outcome.measurement_error == Some(message)
            && after.outcome.delete_succeeded == run.outcome.delete_succeeded),
        run.stage == Stage::State ==> (next(run, EventView::Workload(Err(message))) matches Ok(
            (after, action),
        ) && action is Finish && after.outcome.measurement_error == Some(message)),
        run.stage == Stage::Replacements ==> (next(run, EventView::Pods(Err(message))) matches Ok(
            (after, action),
        ) && action is Finish && after.outcome.measurement_error == Some(message)),
        run.stage == Stage::Delete ==> (next(run, EventView::Deleted(Ok(()))) matches Ok(
            (after, action),
        ) && action is ReadClock && after.outcome.delete_succeeded && after.stage == Stage::Start),
{
}

// -------------------------------------------------------------------- reports --

proof fn row_names()
    ensures
        "Verdict"@.len() == 7,
        "Workload"@.len() == 8 && "Workload"@[0] == 'W',
        "Namespace"@.len() == 9,
        "Selector"@.len() == 8 && "Selector"@[0] == 'S',
        "Would kill"@.len() == 10,
        "Killed"@.len() == 6 && "Killed"@[0] == 'K',
        "Targeted"@.len() == 8 && "Targeted"@[0] == 'T',
        "Desired replicas"@.len() == 16,
        "Ready replicas"@.len() == 14,
        "Waited up to"@.len() == 12,
        "Checks"@.len() == 6 && "Checks"@[0] == 'C',
        "Workload"@ != "Selector"@,
        "Workload"@ != "Targeted"@,
        "Selector"@ != "Targeted"@,
        "Killed"@ != "Checks"@,
{
    reveal_strlit("Verdict");
    reveal_strlit("Workload");
    reveal_strlit("Namespace");
    reveal_strlit("Selector");
    reveal_strlit("Would kill");
    reveal_strlit("Killed");
    reveal_strlit("Targeted");
    reveal_strlit("Desired replicas");
    reveal_strlit("Ready replicas");
    reveal_strlit("Waited up to");
    reveal_strlit("Checks");
    assert("Workload"@[0] != "Selector"@[0]);
    assert("Workload"@[0] != "Targeted"@[0]);
    assert("Selector"@[0] != "Targeted"@[0]);
    assert("Killed"@[0] != "Checks"@[0]);
}
proof fn title_names()
    ensures
        "Summary"@.len() == 7,
        "Pods that would be deleted"@.len() == 26 && "Pods that would be deleted"@[6] == 'h',
        "Pods deleted"@.len() == 12,
        "Pods targeted for deletion"@.len() == 26 && "Pods targeted for deletion"@[6] == 'a',
        "Measurement error"@.len() == 17,
        "Notice"@.len() == 6,
        "Pods that would be deleted"@ != "Pods targeted for deletion"@,
{
    reveal_strlit("Summary");
    reveal_strlit("Pods that would be deleted");
    reveal_strlit("Pods deleted");
    reveal_strlit("Pods targeted for deletion");
    reveal_strlit("Measurement error");
    reveal_strlit("Notice");
    assert("Pods that would be deleted"@[6] != "Pods targeted for deletion"@[6]);
}

/// The report tells of each thing under the name of that thing. How many pods the
/// run was about is said in the words that fit what became of them.
pub proof fn reports_tell_of_the_run(
    kind: Seq<char>,
    scope: ScopeView,
    selector: Seq<char>,
    options: Options,
    outcome: OutcomeView,
    seconds: Seq<char>,
)
    ensures
        ({
            let report = report_of(kind, scope, selector, options, outcome, seconds);
            let number = Some(outcome.killed.len());
            &&& report.title == "Chaos kill"@
            &&& told(report, "Workload"@) == Some(kind + "/"@ + scope.name)
            &&& told(report, "Namespace"@) == Some(scope.namespace)
            &&& told(report, "Selector"@) == Some(selector)
            &&& options.dry_run ==> counted(report, "Would kill"@) == number
            &&& !options.dry_run && outcome.delete_succeeded ==> counted(report, "Killed"@)
                == number
            &&& !options.dry_run && !outcome.delete_succeeded ==> counted(report, "Targeted"@)
                == number
            &&& told(report, "Killed"@) is Some ==> !options.dry_run && outcome.delete_succeeded
            &&& told(report, "Desired replicas"@) matches Some(text) && spells(
                text,
                outcome.desired as int,
            )
            &&& told(report, "Ready replicas"@) matches Some(text) && spells(
                text,
                outcome.ready as int,
            )
            &&& !options.dry_run ==> counted(report, "Checks"@) == Some(outcome.polls as nat)
            &&& !options.dry_run ==> exists|number: Seq<char>|
                #![trigger spelled(number)]
                spelled(number) == Some(options.wait as nat) && told(report, "Waited up to"@)
                    == Some(number + "s"@)
            &&& options.dry_run ==> told(report, "Checks"@) is None
        }),
{
    broadcast use {group_cells, decimals_are_spelled, signed_decimals_are_spelled};

    row_names();
    assert(spelled(decimal(outcome.killed.len())) is Some);
    assert(spelled(decimal(outcome.polls as nat)) is Some);
    assert(spelled(decimal(options.wait as nat)) == Some(options.wait as nat));
    let report = report_of(kind, scope, selector, options, outcome, seconds);
    let verdict = verdict_of(options, outcome, seconds);
    let label = kill_label(options, outcome);
    let rows = seq![
        ("Verdict"@, verdict),
        ("Workload"@, kind + "/"@ + scope.name),
        ("Namespace"@, scope.namespace),
        ("Selector"@, selector),
        (label, decimal(outcome.killed.len())),
        ("Desired replicas"@, signed_decimal(outcome.desired as int)),
        ("Ready replicas"@, signed_decimal(outcome.ready as int)),
    ];
    assert(rows =~= Seq::<RowView>::empty().push(("Verdict"@, verdict)).push(
        ("Workload"@, kind + "/"@ + scope.name),
    ).push(("Namespace"@, scope.namespace)).push(("Selector"@, selector)).push(
        (label, decimal(outcome.killed.len())),
    ).push(("Desired replicas"@, signed_decimal(outcome.desired as int))).push(
        ("Ready replicas"@, signed_decimal(outcome.ready as int)),
    ));
    assert(rows_in(report.sections[0]) == rows_of(
        kind,
        scope,
        selector,
        options,
        outcome,
        seconds,
    ));
}

/// The verdict is that of a dry run for a dry run and only then, of a failed
/// measurement where there is an error, of a recovery where one was seen, and that
/// there was none otherwise.
pub proof fn verdicts_say_what_became_of_it(
    kind: Seq<char>,
    scope: ScopeView,
    selector: Seq<char>,
    options: Options,
    outcome: OutcomeView,
    seconds: Seq<char>,
)
    ensures
        ({
            let report = report_of(kind, scope, selector, options, outcome, seconds);
            let verdict = told(report, "Verdict"@);
            &&& options.dry_run ==> verdict == Some("dry run — nothing was deleted"@)
            &&& !options.dry_run ==> match outcome.measurement_error {
                Some(message) => verdict == Some("measurement failed: "@ + message),
                None => match outcome.recovered {
                    Some(_) => verdict == Some("recovered in "@ + seconds + "s"@),
                    None => exists|wait: Seq<char>, ready: Seq<char>, desired: Seq<char>|
                        #![trigger
                            spelled(wait),
                            spells(ready, outcome.ready as int),
                            spells(desired, outcome.desired as int)]
                        spelled(wait) == Some(options.wait as nat) && spells(
                            ready,
                            outcome.ready as int,
                        ) && spells(desired, outcome.desired as int) && verdict == Some(
                            "DID NOT RECOVER within "@ + wait + "s — "@ + ready + " of "@ + desired
                                + " replicas ready"@,
                        ),
                },
            }
        }),
{
    broadcast use {group_cells, decimals_are_spelled, signed_decimals_are_spelled};

    row_names();
    let report = report_of(kind, scope, selector, options, outcome, seconds);
    let verdict = verdict_of(options, outcome, seconds);
    let label = kill_label(options, outcome);
    let rows = seq![
        ("Verdict"@, verdict),
        ("Workload"@, kind + "/"@ + scope.name),
        ("Namespace"@, scope.namespace),
        ("Selector"@, selector),
        (label, decimal(outcome.killed.len())),
        ("Desired replicas"@, signed_decimal(outcome.desired as int)),
        ("Ready replicas"@, signed_decimal(outcome.ready as int)),
    ];
    assert(rows =~= Seq::<RowView>::empty().push(("Verdict"@, verdict)).push(
        ("Workload"@, kind + "/"@ + scope.name),
    ).push(("Namespace"@, scope.namespace)).push(("Selector"@, selector)).push(
        (label, decimal(outcome.killed.len())),
    ).push(("Desired replicas"@, signed_decimal(outcome.desired as int))).push(
        ("Ready replicas"@, signed_decimal(outcome.ready as int)),
    ));
    assert(rows_in(report.sections[0]) == rows_of(
        kind,
        scope,
        selector,
        options,
        outcome,
        seconds,
    ));
    assert(told(report, "Verdict"@) == Some(verdict));
    assert(spelled(decimal(options.wait as nat)) == Some(options.wait as nat));
    assert(spells(signed_decimal(outcome.ready as int), outcome.ready as int));
    assert(spells(signed_decimal(outcome.desired as int), outcome.desired as int));
}

/// The pods that the run was about are listed by name, under a title that fits
/// what became of them. An error of the measurement has its own section, and a dry
/// run says how to make it real.
pub proof fn reports_list_the_pods(
    kind: Seq<char>,
    scope: ScopeView,
    selector: Seq<char>,
    options: Options,
    outcome: OutcomeView,
    seconds: Seq<char>,
)
    ensures
        ({
            let report = report_of(kind, scope, selector, options, outcome, seconds);
            let pods = lines_in(report.sections[1]);
            &&& report.sections[1].title == if options.dry_run {
                "Pods that would be deleted"@
            } else if outcome.delete_succeeded {
                "Pods deleted"@
            } else {
                "Pods targeted for deletion"@
            }
            &&& pods.len() == outcome.killed.len()
            &&& forall|i: int|
                0 <= i < pods.len() ==> #[trigger] pods[i] == "  "@ + outcome.killed[i]
            &&& outcome.measurement_error matches Some(message) ==> listed(
                report.sections,
                "Measurement error"@,
            ) == Some(seq![message])
            &&& outcome.measurement_error is None ==> listed(
                report.sections,
                "Measurement error"@,
            ) is None
            &&& options.dry_run <==> listed(report.sections, "Notice"@) is Some
        }),
{
    broadcast use group_cells;

    title_names();
    let report = report_of(kind, scope, selector, options, outcome, seconds);
    let first = report.sections[0];
    let second = report.sections[1];
    assert(seq![first, second] =~= Seq::<SectionView>::empty().push(first).push(second));
}

/// A run begins with nothing chosen, nothing deleted and nothing measured, at the
/// workload.
pub proof fn runs_begin_with_nothing_done(plan: PlanView)
    ensures
        ({
            let run = begun(plan);
            &&& run.plan == plan
            &&& run.stage == Stage::Workload
            &&& run.victims.len() == 0 && run.owners.len() == 0 && run.outcome.killed.len() == 0
            &&& !run.outcome.delete_succeeded
            &&& run.outcome.measurement_error is None && run.outcome.recovered is None
            &&& run.outcome.desired == 0 && run.outcome.ready == 0 && run.outcome.polls == 0
            &&& run.started == 0
        }),
{
}

/// What is said where there is nothing to kill names the workload, and what is
/// said of a chosen pod without a UID names the pod.
pub proof fn refusals_name_what_they_are_about(run: RunView, pods: Seq<PodView>)
    requires
        run.stage == Stage::Pods,
    ensures
        ({
            let chosen = victims_of(pods, run.owners, run.plan.options.count as nat);
            let step = next(run, EventView::Pods(Ok(pods)));
            &&& chosen.len() == 0 ==> step == Err::<(RunView, ActionView), Seq<char>>(
                run.plan.kind + "/"@ + run.plan.scope.name
                    + " has no running pods owned by this workload to kill; nothing to test"@,
            )
            &&& chosen.len() > 0 ==> (step matches Err(message) ==> !run.plan.options.dry_run
                && exists|i: int|
                0 <= i < chosen.len() && (#[trigger] chosen[i]).uid is None && message == "pod "@
                    + chosen[i].name
                    + " has no UID; refusing to delete a pod whose replacement cannot be verified"@)
        }),
{
    let chosen = victims_of(pods, run.owners, run.plan.options.count as nat);
    let test = |victim: VictimView| victim.uid is None;
    if first_match(chosen, test) is Some {
        let at = first_match_is_there(chosen, test);
        assert(chosen[at].uid is None);
    }
}

/// A chosen pod that is gone or was replaced is not deleted, and its name is said.
pub proof fn moved_pods_are_named(pods: Seq<PodView>, victim: VictimView)
    ensures
        moved(pods, victim) matches Some(message) ==> match identity(pods, victim.name) {
            Some(_) => message == "pod "@ + victim.name
                + " is no longer the pod that was selected; refusing to delete its replacement"@,
            None => message == "pod "@ + victim.name
                + " is already gone; refusing to delete whatever took its name"@,
        },
{
}

} // verus!
