//! What no run does, whatever the cluster answers.
use crate::chaos::pods::{PodView, VictimView};
use crate::chaos::run::{
    begun, names_of, next, unverifiable, ActionView, EventView, PlanView, RunView, Stage,
};
use crate::chaos::victims::{
    choices_ignore_the_order_of_a_listing, confirmed_pods_are_the_chosen_ones, distinct, identity,
    victims_are_owned, victims_of, Options,
};
use crate::sequences::{first_match, first_match_is_there, first_match_none};
use vstd::prelude::*;

verus! {

/// Whether a run has chosen its pods and is not a dry one.
pub open spec fn chosen(stage: Stage) -> bool {
    match stage {
        Stage::Workload | Stage::ReplicaSets | Stage::Pods | Stage::Done => false,
        _ => true,
    }
}

/// Whether a run has its deletion behind it, or will never have one.
pub open spec fn past_deletion(stage: Stage) -> bool {
    match stage {
        Stage::Workload | Stage::ReplicaSets | Stage::Pods | Stage::Recheck => false,
        _ => true,
    }
}

/// What holds of every run: one that goes on after its choice is no dry run, it
/// has chosen some pods, no more than were asked for and all of them with a UID,
/// and before the deletion the workload wants more replicas than that.
pub open spec fn sound(run: RunView) -> bool {
    &&& chosen(run.stage) ==> {
        &&& !run.plan.options.dry_run
        &&& 0 < run.victims.len() <= run.plan.options.count
        &&& run.outcome.killed == names_of(run.victims)
        &&& forall|i: int| 0 <= i < run.victims.len() ==> (#[trigger] run.victims[i]).uid is Some
    }
    &&& (run.stage is ReplicaSets || run.stage is Pods || run.stage is Recheck)
        ==> run.plan.options.count < run.outcome.desired
}

/// A run begins soundly.
pub proof fn runs_begin_soundly(plan: PlanView)
    ensures
        sound(begun(plan)),
{
}

/// Every step keeps a run sound.
pub proof fn steps_stay_sound(run: RunView, event: EventView)
    requires
        sound(run),
    ensures
        next(run, event) matches Ok(step) ==> sound(step.0) && step.0.plan == run.plan,
{
    if let (Stage::Pods, EventView::Pods(Ok(pods))) = (run.stage, event) {
        victims_are_owned(pods, run.owners, run.plan.options.count as nat);
        if let Ok((after, _)) = next(run, event) {
            if !run.plan.options.dry_run {
                let test = |victim: VictimView| victim.uid is None;
                first_match_none(after.victims, test);
                assert forall|i: int| 0 <= i < after.victims.len() implies (
                #[trigger] after.victims[i]).uid is Some by {
                    assert(!test(after.victims[i]));
                }
            }
        }
    }
}

/// A deletion is asked for only in a run that is not dry, only for pods that
/// were chosen and confirmed under their UID a moment before, no more of them
/// than were asked for, and fewer than the workload wants.
pub proof fn deletions_are_confirmed(run: RunView, event: EventView, pods: Seq<Seq<char>>)
    requires
        sound(run),
        next(run, event) matches Ok(step) && step.1 == (ActionView::Delete { pods }),
    ensures
        !run.plan.options.dry_run,
        pods == names_of(run.victims),
        0 < pods.len() <= run.plan.options.count < run.outcome.desired,
        event matches EventView::Pods(Ok(current)) && forall|i: int|
            0 <= i < run.victims.len() ==> (#[trigger] run.victims[i]).uid is Some && identity(
                current,
                run.victims[i].name,
            ) == run.victims[i].uid,
{
    if let EventView::Pods(Ok(current)) = event {
        confirmed_pods_are_the_chosen_ones(current, run.victims);
    }
}

/// What a run asks for, one answer after the other.
pub open spec fn actions(run: RunView, events: Seq<EventView>) -> Seq<ActionView>
    decreases events.len(),
{
    if events.len() == 0 {
        Seq::empty()
    } else {
        match next(run, events[0]) {
            Ok((after, action)) => seq![action] + actions(after, events.drop_first()),
            Err(_) => Seq::empty(),
        }
    }
}

/// A dry run never asks for a deletion, whatever the cluster answers.
pub proof fn dry_runs_delete_nothing(run: RunView, events: Seq<EventView>)
    requires
        sound(run),
        run.plan.options.dry_run,
    ensures
        forall|i: int|
            0 <= i < actions(run, events).len() ==> !((#[trigger] actions(run, events)[i]) is Delete),
    decreases events.len(),
{
    if events.len() > 0 {
        if let Ok((after, action)) = next(run, events[0]) {
            steps_stay_sound(run, events[0]);
            let rest = actions(after, events.drop_first());
            dry_runs_delete_nothing(after, events.drop_first());
            let all = actions(run, events);
            assert forall|i: int| 0 <= i < all.len() implies !((#[trigger] all[i]) is Delete) by {
                if i > 0 {
                    assert(all[i] == rest[i - 1]);
                }
            }
        }
    }
}

proof fn nothing_is_deleted_afterwards(run: RunView, events: Seq<EventView>)
    requires
        past_deletion(run.stage),
    ensures
        forall|i: int|
            0 <= i < actions(run, events).len() ==> !((#[trigger] actions(run, events)[i]) is Delete),
    decreases events.len(),
{
    if events.len() > 0 {
        if let Ok((after, action)) = next(run, events[0]) {
            let rest = actions(after, events.drop_first());
            nothing_is_deleted_afterwards(after, events.drop_first());
            let all = actions(run, events);
            assert forall|i: int| 0 <= i < all.len() implies !((#[trigger] all[i]) is Delete) by {
                if i > 0 {
                    assert(all[i] == rest[i - 1]);
                }
            }
        }
    }
}

/// A run asks for at most one deletion, whatever the cluster answers.
pub proof fn runs_delete_at_most_once(run: RunView, events: Seq<EventView>)
    ensures
        forall|i: int, j: int|
            0 <= i < j < actions(run, events).len() && (#[trigger] actions(run, events)[i]) is Delete
                ==> !((#[trigger] actions(run, events)[j]) is Delete),
    decreases events.len(),
{
    if events.len() > 0 {
        if let Ok((after, action)) = next(run, events[0]) {
            let later = events.drop_first();
            let rest = actions(after, later);
            runs_delete_at_most_once(after, later);
            if action is Delete {
                nothing_is_deleted_afterwards(after, later);
            }
            let all = actions(run, events);
            assert forall|i: int, j: int|
                0 <= i < j < all.len() && (#[trigger] all[i]) is Delete implies !((
            #[trigger] all[j]) is Delete) by {
                assert(all[j] == rest[j - 1]);
                if i > 0 {
                    assert(all[i] == rest[i - 1]);
                }
            }
        }
    }
}

/// A run that is like another one and not dry.
pub open spec fn made_real(run: RunView) -> RunView {
    RunView {
        plan: PlanView { options: Options { dry_run: false, ..run.plan.options }, ..run.plan },
        ..run
    }
}

/// A dry run shows the pods that a real run after it would delete, in whatever
/// order the same pods are listed then.
pub proof fn dry_runs_show_what_would_be_deleted(
    run: RunView,
    pods: Seq<PodView>,
    others: Seq<PodView>,
)
    requires
        run.stage is Pods,
        run.plan.options.dry_run,
        pods.to_multiset() == others.to_multiset(),
        distinct(pods),
    ensures
        match (
            next(run, EventView::Pods(Ok(pods))),
            next(made_real(run), EventView::Pods(Ok(others))),
        ) {
            (Ok(dry), Ok(live)) => {
                &&& dry.1 is Finish
                &&& dry.0.outcome.killed == live.0.outcome.killed
                &&& dry.0.victims == live.0.victims
            },
            (Ok(dry), Err(message)) => exists|i: int|
                0 <= i < dry.0.victims.len() && (#[trigger] dry.0.victims[i]).uid is None
                    && message == unverifiable(dry.0.victims[i].name),
            (Err(message), live) => live == Err::<(RunView, ActionView), Seq<char>>(message),
        },
{
    choices_ignore_the_order_of_a_listing(
        pods,
        others,
        run.owners,
        run.plan.options.count as nat,
    );
    let chosen = victims_of(pods, run.owners, run.plan.options.count as nat);
    if first_match(chosen, |victim: VictimView| victim.uid is None) is Some {
        let at = first_match_is_there(chosen, |victim: VictimView| victim.uid is None);
        if let Ok(dry) = next(run, EventView::Pods(Ok(pods))) {
            assert(dry.0.victims == chosen);
            assert(dry.0.victims[at].uid is None);
        }
    }
}

} // verus!
