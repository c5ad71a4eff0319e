//! What it means that a workload is whole again, and which pods are killed.
use crate::chaos::pods::{
    owner_views, pod_views, victim_views, Owner, OwnerView, Pod, PodView, Victim, VictimView,
};
use crate::chaos::victims::{
    as_victim, candidates, candidates_are_the_oldest_first, choice_is_a_ranking, eligible,
    first_moved, killed_first, moved, replaced, serves, still_active, victims_of,
};
use crate::laws::reading::{matches_are_places, places};
use crate::sequences::{
    count_matches, first_match, first_match_found, first_match_is_there, first_match_none, selected,
    sorting_orders,
};
use crate::text::sorts_before;
use vstd::prelude::*;

verus! {

// --------------------------------------------------------------- replacements --

/// Whether a pod is controlled by an owner.
pub open spec fn controls(owner: Owner, pod: Pod) -> bool {
    pod.owner matches Some(controller) && controller.kind@ == owner.kind@ && controller.uid@
        == owner.uid@
}

/// Whether a pod runs, is not going away, and is controlled by one of the owners.
pub open spec fn is_running(pod: Pod, owners: Seq<Owner>) -> bool {
    pod.phase@ == "Running"@ && !pod.terminating && exists|i: int|
        0 <= i < owners.len() && controls(#[trigger] owners[i], pod)
}

/// Whether a pod is one of those that were killed: it has the UID of one.
pub open spec fn was_killed(pod: Pod, killed: Seq<Victim>) -> bool {
    pod.uid matches Some(uid) && exists|i: int|
        0 <= i < killed.len() && ((#[trigger] killed[i]).uid matches Some(known) && known@ == uid@)
}

/// The places in a listing of the pods that run, are not going away, are
/// controlled by one of the owners and are ready.
pub open spec fn ready_places(pods: Seq<Pod>, owners: Seq<Owner>) -> Set<int> {
    Set::new(
        |i: int| 0 <= i < pods.len() && is_running(pods[i], owners) && pods[i].ready,
    )
}

proof fn runners_are_eligible(pod: Pod, owners: Seq<Owner>)
    ensures
        eligible(pod@, owner_views(owners)) == is_running(pod, owners),
{
    let views = owner_views(owners);
    if let Some(controller) = pod.owner {
        if views.contains(controller@) {
            let at = choose|i: int| 0 <= i < views.len() && views[i] == controller@;
            assert(owners[at]@ == controller@);
            assert(controls(owners[at], pod));
        }
        if exists|i: int| 0 <= i < owners.len() && controls(#[trigger] owners[i], pod) {
            let at = choose|i: int| 0 <= i < owners.len() && controls(#[trigger] owners[i], pod);
            assert(views[at] =~= controller@);
        }
    }
}

proof fn ready_places_are_counted(pods: Seq<Pod>, owners: Seq<Owner>)
    ensures
        ready_places(pods, owners).finite(),
        count_matches(pod_views(pods), |pod: PodView| serves(pod, owner_views(owners)))
            == ready_places(pods, owners).len(),
{
    let test = |pod: PodView| serves(pod, owner_views(owners));
    let views = pod_views(pods);
    matches_are_places(views, test);
    assert forall|i: int| 0 <= i < pods.len() implies test(#[trigger] views[i]) == (is_running(
        pods[i],
        owners,
    ) && pods[i].ready) by {
        runners_are_eligible(pods[i], owners);
    }
    assert(places(views, test) =~= ready_places(pods, owners));
}

proof fn killed_pods_are_active(pod: Pod, killed: Seq<Victim>)
    ensures
        still_active(pod@, victim_views(killed)) == (was_killed(pod, killed)
            && !pod.terminating),
{
    let views = victim_views(killed);
    if let Some(uid) = pod.uid {
        if exists|i: int| 0 <= i < views.len() && (#[trigger] views[i]).uid == pod@.uid {
            let at = choose|i: int| 0 <= i < views.len() && (#[trigger] views[i]).uid == pod@.uid;
            assert(killed[at]@ == views[at]);
            assert(killed[at].uid matches Some(known) && known@ == uid@);
        }
        if was_killed(pod, killed) {
            let at = choose|i: int|
                0 <= i < killed.len() && ((#[trigger] killed[i]).uid matches Some(known) && known@
                    == uid@);
            assert(views[at].uid == pod@.uid);
        }
    }
}

/// A workload is whole again exactly where every killed pod is gone or going and
/// at least as many of the listed pods as it wants are at once running, not going
/// away, controlled by one of the owners and ready.
pub proof fn whole_workloads_are_ready(
    pods: Seq<Pod>,
    owners: Seq<Owner>,
    killed: Seq<Victim>,
    desired: int,
)
    ensures
        ready_places(pods, owners).finite(),
        replaced(pod_views(pods), owner_views(owners), victim_views(killed), desired) <==> {
            &&& 0 <= desired <= ready_places(pods, owners).len()
            &&& forall|i: int|
                0 <= i < pods.len() && was_killed(#[trigger] pods[i], killed)
                    ==> pods[i].terminating
        },
{
    let views = pod_views(pods);
    let gone = victim_views(killed);
    ready_places_are_counted(pods, owners);
    assert forall|i: int| 0 <= i < pods.len() implies still_active(
        #[trigger] views[i],
        gone,
    ) == (was_killed(pods[i], killed) && !pods[i].terminating) by {
        killed_pods_are_active(pods[i], killed);
    }
    if replaced(views, owner_views(owners), gone, desired) {
        assert forall|i: int|
            0 <= i < pods.len() && was_killed(
                #[trigger] pods[i],
                killed,
            ) implies pods[i].terminating by {
            assert(!still_active(views[i], gone));
        }
    }
    if forall|i: int|
        0 <= i < pods.len() && was_killed(#[trigger] pods[i], killed) ==> pods[i].terminating {
        assert forall|i: int| 0 <= i < views.len() implies !still_active(
            #[trigger] views[i],
            gone,
        ) by {
            assert(was_killed(pods[i], killed) ==> pods[i].terminating);
        }
    }
}

/// A pod that is not ready stands in for none: listing it as well changes nothing.
pub proof fn unready_pods_never_count(
    pods: Seq<Pod>,
    owners: Seq<Owner>,
    killed: Seq<Victim>,
    desired: int,
    more: Pod,
)
    requires
        !more.ready,
        !was_killed(more, killed),
    ensures
        replaced(pod_views(pods.push(more)), owner_views(owners), victim_views(killed), desired)
            == replaced(pod_views(pods), owner_views(owners), victim_views(killed), desired),
{
    let longer = pods.push(more);
    whole_workloads_are_ready(pods, owners, killed, desired);
    whole_workloads_are_ready(longer, owners, killed, desired);
    assert(ready_places(longer, owners) =~= ready_places(pods, owners));
    assert(longer[pods.len() as int] == more);
    if forall|i: int|
        0 <= i < longer.len() && was_killed(#[trigger] longer[i], killed)
            ==> longer[i].terminating {
        assert forall|i: int|
            0 <= i < pods.len() && was_killed(
                #[trigger] pods[i],
                killed,
            ) implies pods[i].terminating by {
            assert(longer[i] == pods[i]);
        }
    }
}

/// Once a pod that counted stops being ready, one pod fewer stands in: the
/// workload is then whole only if one more than it wants was ready before.
pub proof fn pods_count_while_they_are_ready(
    pods: Seq<Pod>,
    owners: Seq<Owner>,
    killed: Seq<Victim>,
    desired: int,
    at: int,
)
    requires
        0 <= at < pods.len(),
        is_running(pods[at], owners),
        pods[at].ready,
        0 <= desired,
    ensures
        replaced(
            pod_views(pods.update(at, Pod { ready: false, ..pods[at] })),
            owner_views(owners),
            victim_views(killed),
            desired,
        ) == replaced(pod_views(pods), owner_views(owners), victim_views(killed), desired + 1),
{
    let other = Pod { ready: false, ..pods[at] };
    let changed = pods.update(at, other);
    whole_workloads_are_ready(pods, owners, killed, desired + 1);
    whole_workloads_are_ready(changed, owners, killed, desired);
    assert(ready_places(changed, owners) =~= ready_places(pods, owners).remove(at));
    assert(ready_places(pods, owners).contains(at));
    assert forall|i: int| 0 <= i < pods.len() implies was_killed(#[trigger] pods[i], killed)
        == was_killed(changed[i], killed) && pods[i].terminating == changed[i].terminating by {
    }
    assert(forall|i: int| 0 <= i < pods.len() ==> #[trigger] changed[i] == if i == at {
        other
    } else {
        pods[i]
    });
    if replaced(pod_views(pods), owner_views(owners), victim_views(killed), desired + 1) {
        assert forall|i: int|
            0 <= i < changed.len() && was_killed(
                #[trigger] changed[i],
                killed,
            ) implies changed[i].terminating by {
            assert(was_killed(pods[i], killed));
        }
    }
}

// -------------------------------------------------------------------- victims --

/// Whether a pod is older than another: created earlier or, at the same moment,
/// with a name that sorts first.
pub open spec fn is_older(left: Pod, right: Pod) -> bool {
    sorts_before(left.created@, right.created@) || (left.created@ == right.created@ && sorts_before(
        left.name@,
        right.name@,
    ))
}

/// Whether a chosen pod is a listed one: it has its name and its UID.
pub open spec fn is_pod(victim: VictimView, pod: Pod) -> bool {
    &&& victim.name == pod.name@
    &&& match pod.uid {
        Some(uid) => victim.uid == Some(uid@),
        None => victim.uid is None,
    }
}

/// Whether a chosen pod is a running one of the listing and no older one of it.
pub open spec fn was_due(
    victim: VictimView,
    pods: Seq<Pod>,
    owners: Seq<Owner>,
    other: Pod,
) -> bool {
    exists|k: int|
        0 <= k < pods.len() && is_pod(victim, #[trigger] pods[k]) && is_running(pods[k], owners)
            && !is_older(other, pods[k])
}

proof fn selections_are_counted(pods: Seq<PodView>, owners: Seq<OwnerView>)
    ensures
        selected(
            pods,
            |pod: PodView|
                if eligible(pod, owners) {
                    Some(pod)
                } else {
                    None
                },
        ).len() == count_matches(pods, |pod: PodView| eligible(pod, owners)),
    decreases pods.len(),
{
    if pods.len() > 0 {
        selections_are_counted(pods.drop_last(), owners);
    }
}

/// The places in a listing of the pods that can be killed: those that run, are
/// not going away and are controlled by one of the owners.
pub open spec fn running_places(pods: Seq<Pod>, owners: Seq<Owner>) -> Set<int> {
    Set::new(|i: int| 0 <= i < pods.len() && is_running(pods[i], owners))
}

/// As many pods are chosen as were asked for, or all that run where they are
/// fewer.
pub proof fn as_many_are_chosen_as_there_are(pods: Seq<Pod>, owners: Seq<Owner>, count: nat)
    ensures
        running_places(pods, owners).finite(),
        victims_of(pod_views(pods), owner_views(owners), count).len() == if count
            < running_places(pods, owners).len() {
            count
        } else {
            running_places(pods, owners).len()
        },
{
    let views = pod_views(pods);
    let whose = owner_views(owners);
    let test = |pod: PodView| eligible(pod, whose);
    let keep = |pod: PodView|
        if eligible(pod, whose) {
            Some(pod)
        } else {
            None
        };
    matches_are_places(views, test);
    selections_are_counted(views, whose);
    choice_is_a_ranking();
    sorting_orders(
        selected(views, keep),
        |left: PodView, right: PodView| killed_first(left, right),
    );
    assert forall|i: int| 0 <= i < pods.len() implies test(#[trigger] views[i]) == is_running(
        pods[i],
        owners,
    ) by {
        runners_are_eligible(pods[i], owners);
    }
    assert(places(views, test) =~= running_places(pods, owners));
}

/// A running pod that is spared is older than none of the pods that are chosen,
/// and every pod that is chosen is a running one.
pub proof fn the_oldest_are_chosen(pods: Seq<Pod>, owners: Seq<Owner>, count: nat, at: int)
    requires
        0 <= at < pods.len(),
        is_running(pods[at], owners),
    ensures
        ({
            let chosen = victims_of(pod_views(pods), owner_views(owners), count);
            (exists|i: int| 0 <= i < chosen.len() && is_pod(#[trigger] chosen[i], pods[at])) || (
            forall|i: int|
                0 <= i < chosen.len() ==> was_due(#[trigger] chosen[i], pods, owners, pods[at]))
        }),
{
    broadcast use vstd::seq_lib::group_to_multiset_ensures;

    let views = pod_views(pods);
    let whose = owner_views(owners);
    let all = candidates(views, whose);
    let chosen = victims_of(views, whose, count);
    let first = |left: PodView, right: PodView| killed_first(left, right);
    candidates_are_the_oldest_first(views, whose);
    runners_are_eligible(pods[at], owners);
    assert(views[at] == pods[at]@);
    assert(views.to_multiset().count(views[at]) > 0);
    assert(all.to_multiset().count(views[at]) > 0);
    assert(all.contains(views[at]));
    let rank = choose|k: int| 0 <= k < all.len() && all[k] == views[at];
    if rank < chosen.len() {
        assert(is_pod(chosen[rank], pods[at]));
    } else {
        assert forall|i: int| 0 <= i < chosen.len() implies was_due(
            #[trigger] chosen[i],
            pods,
            owners,
            pods[at],
        ) by {
            assert(views.contains(all[i]));
            let k = choose|k: int| 0 <= k < views.len() && views[k] == all[i];
            runners_are_eligible(pods[k], owners);
            assert(views[k] == pods[k]@);
            assert(chosen[i] == as_victim(all[i]));
            assert(!first(all[rank], all[i]));
            assert(is_pod(chosen[i], pods[k]));
        }
    }
}

/// The older of two chosen pods is named first.
pub proof fn older_pods_are_named_first(
    pods: Seq<Pod>,
    owners: Seq<Owner>,
    count: nat,
    i: int,
    j: int,
)
    requires
        0 <= i < j < victims_of(pod_views(pods), owner_views(owners), count).len(),
    ensures
        exists|one: int, other: int|
            0 <= one < pods.len() && 0 <= other < pods.len() && is_pod(
                victims_of(pod_views(pods), owner_views(owners), count)[i],
                #[trigger] pods[one],
            ) && is_pod(
                victims_of(pod_views(pods), owner_views(owners), count)[j],
                #[trigger] pods[other],
            ) && !is_older(pods[other], pods[one]),
{
    let views = pod_views(pods);
    let whose = owner_views(owners);
    let all = candidates(views, whose);
    let first = |left: PodView, right: PodView| killed_first(left, right);
    candidates_are_the_oldest_first(views, whose);
    assert(views.contains(all[i]) && views.contains(all[j]));
    let one = choose|k: int| 0 <= k < views.len() && views[k] == all[i];
    let other = choose|k: int| 0 <= k < views.len() && views[k] == all[j];
    assert(views[one] == pods[one]@ && views[other] == pods[other]@);
    assert(!first(all[j], all[i]));
}

// ----------------------------------------------------------------- identities --

/// Whether a listing still has a chosen pod: the first pod of its name has its
/// UID.
pub open spec fn is_still_there(pods: Seq<Pod>, victim: Victim) -> bool {
    exists|k: int|
        0 <= k < pods.len() && (#[trigger] pods[k]).name@ == victim.name@ && (pods[k].uid matches
            Some(uid) && (victim.uid matches Some(known) && uid@ == known@)) && (forall|i: int|
            0 <= i < k ==> (#[trigger] pods[i]).name@ != victim.name@)
}

/// The deletion goes ahead exactly where every chosen pod is still the one that
/// was chosen.
pub proof fn only_chosen_pods_are_confirmed(pods: Seq<Pod>, victims: Seq<Victim>)
    ensures
        first_moved(pod_views(pods), victim_views(victims)) is None <==> forall|i: int|
            0 <= i < victims.len() ==> is_still_there(pods, #[trigger] victims[i]),
    decreases victims.len(),
{
    let views = pod_views(pods);
    let chosen = victim_views(victims);
    if victims.len() > 0 {
        let rest = victims.drop_first();
        assert(victim_views(rest) =~= chosen.drop_first());
        only_chosen_pods_are_confirmed(pods, rest);
        identities_are_found(pods, victims[0]);
        assert(chosen[0] == victims[0]@);
        if forall|i: int| 0 <= i < victims.len() ==> is_still_there(pods, #[trigger] victims[i]) {
            assert(is_still_there(pods, victims[0]));
            assert forall|i: int| 0 <= i < rest.len() implies is_still_there(
                pods,
                #[trigger] rest[i],
            ) by {
                assert(is_still_there(pods, victims[i + 1]));
            }
        }
        if first_moved(views, chosen) is None {
            assert forall|i: int| 0 <= i < victims.len() implies is_still_there(
                pods,
                #[trigger] victims[i],
            ) by {
                if i > 0 {
                    assert(is_still_there(pods, rest[i - 1]));
                }
            }
        }
    }
}

proof fn identities_are_found(pods: Seq<Pod>, victim: Victim)
    ensures
        moved(pod_views(pods), victim@) is None <==> is_still_there(pods, victim),
{
    let views = pod_views(pods);
    let test = |pod: PodView| pod.name == victim@.name;
    if first_match(views, test) is Some {
        let at = first_match_is_there(views, test);
        assert(views[at] == pods[at]@);
        let first = first_place(views, test, at);
        assert(views[first] == pods[first]@);
        first_match_found(views, test, first);
        assert forall|i: int| 0 <= i < first implies (#[trigger] pods[i]).name@ != victim.name@ by {
            assert(!test(views[i]));
        }
        if is_still_there(pods, victim) {
            let k = choose|k: int|
                0 <= k < pods.len() && (#[trigger] pods[k]).name@ == victim.name@ && (
                pods[k].uid matches Some(uid) && (victim.uid matches Some(known) && uid@ == known@))
                    && (forall|i: int| 0 <= i < k ==> (#[trigger] pods[i]).name@ != victim.name@);
            assert(k == first) by {
                if first < k {
                    assert(pods[first].name@ != victim.name@);
                }
                if k < first {
                    assert(pods[k].name@ != victim.name@);
                }
            }
        }
    } else {
        first_match_none(views, test);
        assert forall|i: int| 0 <= i < pods.len() implies (#[trigger] pods[i]).name@
            != victim.name@ by {
            assert(!test(views[i]));
        }
    }
}

proof fn first_place<T>(items: Seq<T>, test: spec_fn(T) -> bool, at: int) -> (first: int)
    requires
        0 <= at < items.len(),
        test(items[at]),
    ensures
        0 <= first <= at,
        test(items[first]),
        forall|i: int| 0 <= i < first ==> !test(#[trigger] items[i]),
    decreases at,
{
    if exists|i: int| 0 <= i < at && test(#[trigger] items[i]) {
        let earlier = choose|i: int| 0 <= i < at && test(#[trigger] items[i]);
        first_place(items, test, earlier)
    } else {
        at
    }
}

} // verus!
