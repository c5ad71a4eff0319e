//! Which pods to kill, and whether others have taken their place.
use crate::chaos::objects::owned_by;
use crate::chaos::pods::{
    owner_views, pod_views, victim_views, Owner, OwnerView, Pod, PodView, Victim, VictimView,
    Workload,
};
use crate::duration::{seconds, seconds_of};
use crate::numbers::{read_unsigned, unsigned_number};
use crate::sequences::{
    count_bounded, count_matches, first_match, first_match_found, first_match_missing, is_ranking,
    is_sorted, placed_at, selected, sorted_by, sorting_orders,
};
use crate::text::{
    before, glue2, glue3, same, sorts_before, sorts_before_strict, sorts_before_total,
    sorts_before_transitive, text_view,
};
use crate::text_map::{stands_for, text_at, text_or, text_or_blank, TextMap};
use vstd::prelude::*;

verus! {

// ------------------------------------------------------------------ options --

/// What the inputs ask for.
pub struct Options {
    pub dry_run: bool,
    pub count: usize,
    /// How many seconds to wait for the recovery.
    pub wait: u64,
}

/// Whether the inputs leave the run harmless: anything but an explicit "false"
/// does, and so does a saved pod list.
pub open spec fn harmless(inputs: Seq<(Seq<char>, String)>) -> bool {
    text_at(inputs, "dry_run"@) != Some("false"@) || text_or(inputs, "pods"@).len() > 0
}

/// The options of a set of inputs.
pub open spec fn options_of(inputs: Seq<(Seq<char>, String)>) -> Result<Options, Seq<char>> {
    let count = match text_at(inputs, "count"@) {
        Some(text) => unsigned_number(text, usize::MAX as nat),
        None => Some(1nat),
    };
    let wait = match text_at(inputs, "wait"@) {
        Some(text) => seconds_of(text, false),
        None => Some(120nat),
    };
    match (count, wait) {
        (None, _) => Err("count must be a whole number"@),
        (Some(_), None) => Err("wait must be a positive time like \"120s\""@),
        (Some(count), Some(wait)) => Ok(
            Options {
                dry_run: harmless(inputs),
                count: if count == 0 {
                    1
                } else {
                    count as usize
                },
                wait: wait as u64,
            },
        ),
    }
}

impl Options {
    /// Reads the inputs.
    pub fn from(inputs: &TextMap<String>) -> (options: Result<Options, String>)
        ensures
            match options {
                Ok(options) => options_of(inputs@) == Ok::<Options, Seq<char>>(options),
                Err(message) => options_of(inputs@) == Err::<Options, Seq<char>>(message@),
            },
    {
        let saved = text_or_blank(inputs, "pods");
        let dry_run = !stands_for(inputs, "dry_run", "false") || !saved.as_str().is_empty();
        let count = match inputs.get("count") {
            Some(text) => match read_unsigned(text.as_str(), usize::MAX as u64) {
                Some(count) => count as usize,
                None => {
                    return Err("count must be a whole number".to_owned());
                },
            },
            None => 1,
        };
        let wait = match inputs.get("wait") {
            Some(text) => match seconds(text.as_str(), false) {
                Some(wait) => wait,
                None => {
                    return Err("wait must be a positive time like \"120s\"".to_owned());
                },
            },
            None => 120,
        };
        Ok(
            Options {
                dry_run,
                count: if count == 0 {
                    1
                } else {
                    count
                },
                wait,
            },
        )
    }
}

/// A saved pod list never leads to a deletion, whatever the other inputs say.
pub proof fn saved_lists_are_harmless(inputs: Seq<(Seq<char>, String)>)
    requires
        text_or(inputs, "pods"@).len() > 0,
    ensures
        options_of(inputs) matches Ok(options) ==> options.dry_run,
{
}

// ------------------------------------------------------------------ victims --

/// Whether a pod belongs to one of the owners.
pub open spec fn belongs(pod: PodView, owners: Seq<OwnerView>) -> bool {
    match pod.owner {
        Some(owner) => owners.contains(owner),
        None => false,
    }
}

/// Whether a pod can be killed: it runs, is not going away already, and one of
/// the owners would bring it back.
pub open spec fn eligible(pod: PodView, owners: Seq<OwnerView>) -> bool {
    pod.phase == "Running"@ && !pod.terminating && belongs(pod, owners)
}

/// Whether a pod is killed before another: the older one, and of two equally
/// old ones the one with the smaller name.
pub open spec fn killed_first(left: PodView, right: PodView) -> bool {
    sorts_before(left.created, right.created) || (left.created == right.created && sorts_before(
        left.name,
        right.name,
    ))
}

/// The pods that can be killed, in the order in which they are chosen.
pub open spec fn candidates(pods: Seq<PodView>, owners: Seq<OwnerView>) -> Seq<PodView> {
    sorted_by(
        selected(
            pods,
            |pod: PodView|
                if eligible(pod, owners) {
                    Some(pod)
                } else {
                    None
                },
        ),
        |left: PodView, right: PodView| killed_first(left, right),
    )
}

/// What is kept of a pod that was chosen.
pub open spec fn as_victim(pod: PodView) -> VictimView {
    VictimView { name: pod.name, uid: pod.uid }
}

/// The pods to kill: of those that can be killed the first `count`.
pub open spec fn victims_of(pods: Seq<PodView>, owners: Seq<OwnerView>, count: nat) -> Seq<
    VictimView,
> {
    let all = candidates(pods, owners);
    let chosen = all.take(
        if count < all.len() {
            count as int
        } else {
            all.len() as int
        },
    );
    chosen.map_values(|pod: PodView| as_victim(pod))
}

fn is_eligible(pod: &Pod, owners: &Vec<Owner>) -> (yes: bool)
    ensures
        yes == eligible(pod@, owner_views(owners@)),
{
    if !same(pod.phase.as_str(), "Running") || pod.terminating {
        return false;
    }
    match &pod.owner {
        Some(owner) => owned_by(owner, owners),
        None => false,
    }
}

fn goes_first(left: &Pod, right: &Pod) -> (yes: bool)
    ensures
        yes == killed_first(left@, right@),
{
    before(left.created.as_str(), right.created.as_str()) || (same(
        left.created.as_str(),
        right.created.as_str(),
    ) && before(left.name.as_str(), right.name.as_str()))
}

fn copied(text: &Option<String>) -> (copy: Option<String>)
    ensures
        text_view(copy) == text_view(*text),
{
    match text {
        Some(text) => Some(text.clone()),
        None => None,
    }
}

pub open spec fn seen_pods(pods: Seq<&Pod>) -> Seq<PodView> {
    pods.map_values(|pod: &Pod| pod@)
}

/// Chooses the pods to kill, oldest first. A matching label is not enough: a pod
/// that none of the owners controls is left alone, because nothing would bring
/// it back.
pub fn victims(pods: &Vec<Pod>, owners: &Vec<Owner>, count: usize) -> (chosen: Vec<Victim>)
    ensures
        victim_views(chosen@) == victims_of(pod_views(pods@), owner_views(owners@), count as nat),
{
    let ghost list = pod_views(pods@);
    let ghost whose = owner_views(owners@);
    let ghost keep = |pod: PodView|
        if eligible(pod, whose) {
            Some(pod)
        } else {
            None
        };
    let ghost rank = |left: PodView, right: PodView| killed_first(left, right);
    let mut running: Vec<&Pod> = Vec::new();
    let mut at: usize = 0;
    assert(seen_pods(running@) =~= Seq::<PodView>::empty());
    while at < pods.len()
        invariant
            at <= pods@.len(),
            list == pod_views(pods@),
            whose == owner_views(owners@),
            keep == (|pod: PodView|
                if eligible(pod, whose) {
                    Some(pod)
                } else {
                    None
                }),
            rank == (|left: PodView, right: PodView| killed_first(left, right)),
            seen_pods(running@) == sorted_by(selected(list.take(at as int), keep), rank),
        decreases pods@.len() - at,
    {
        let pod = &pods[at];
        let ghost so_far = selected(list.take(at as int), keep);
        assert(list.take(at + 1).drop_last() =~= list.take(at as int));
        assert(list.take(at + 1).last() == pod@);
        if is_eligible(pod, owners) {
            assert(selected(list.take(at + 1), keep) == so_far.push(pod@));
            assert(so_far.push(pod@).drop_last() =~= so_far);
            let ghost sorted = seen_pods(running@);
            let mut place: usize = running.len();
            while place > 0 && goes_first(pod, running[place - 1])
                invariant
                    place <= running@.len(),
                    sorted == seen_pods(running@),
                    rank == (|left: PodView, right: PodView| killed_first(left, right)),
                    forall|i: int| place <= i < sorted.len() ==> rank(pod@, #[trigger] sorted[i]),
                decreases place,
            {
                assert(sorted[place - 1] == running@[place - 1]@);
                place = place - 1;
            }
            proof {
                if place > 0 {
                    assert(sorted[place - 1] == running@[place - 1]@);
                }
                placed_at(sorted, pod@, rank, place as int);
            }
            running.insert(place, pod);
            assert(seen_pods(running@) =~= sorted.insert(place as int, pod@));
        }
        at = at + 1;
    }
    assert(list.take(at as int) =~= list);
    let ghost all = candidates(list, whose);
    assert(seen_pods(running@) == all);
    let mut chosen: Vec<Victim> = Vec::new();
    let mut next: usize = 0;
    while next < running.len() && next < count
        invariant
            next <= running@.len(),
            next <= count,
            chosen@.len() == next,
            all == seen_pods(running@),
            forall|i: int| 0 <= i < next ==> (#[trigger] chosen@[i])@ == as_victim(all[i]),
        decreases running@.len() - next,
    {
        let pod = running[next];
        assert(all[next as int] == pod@);
        chosen.push(Victim { name: pod.name.clone(), uid: copied(&pod.uid) });
        next = next + 1;
    }
    assert(victim_views(chosen@) =~= victims_of(list, whose, count as nat));
    chosen
}

/// The choice is by age: the order of the candidates is a ranking of all pods.
pub proof fn choice_is_a_ranking()
    ensures
        is_ranking(|left: PodView, right: PodView| killed_first(left, right)),
{
    let rank = |left: PodView, right: PodView| killed_first(left, right);
    assert forall|a: PodView| !#[trigger] rank(a, a) by {
        if sorts_before(a.created, a.created) {
            sorts_before_strict(a.created, a.created);
        }
        if sorts_before(a.name, a.name) {
            sorts_before_strict(a.name, a.name);
        }
    }
    assert forall|a: PodView, b: PodView| #[trigger] rank(a, b) implies !rank(b, a) by {
        if sorts_before(a.created, b.created) {
            sorts_before_strict(a.created, b.created);
        } else {
            sorts_before_strict(a.name, b.name);
            if sorts_before(b.created, a.created) {
                sorts_before_strict(b.created, a.created);
            }
        }
    }
    assert forall|a: PodView, b: PodView, c: PodView|
        !(#[trigger] rank(b, a)) && !(#[trigger] rank(c, b)) implies !rank(c, a) by {
        sorts_before_total(a.created, b.created);
        sorts_before_total(b.created, c.created);
        sorts_before_total(a.name, b.name);
        sorts_before_total(b.name, c.name);
        if rank(c, a) {
            if sorts_before(c.created, a.created) {
                if sorts_before(a.created, b.created) {
                    sorts_before_transitive(c.created, a.created, b.created);
                }
            } else {
                if sorts_before(a.created, b.created) {
                    assert(sorts_before(c.created, b.created));
                } else {
                    assert(a.created == b.created);
                    assert(b.created == c.created);
                    if sorts_before(a.name, b.name) {
                        sorts_before_transitive(c.name, a.name, b.name);
                    } else {
                        assert(a.name == b.name);
                    }
                }
            }
        }
    }
}

proof fn selected_are_eligible(pods: Seq<PodView>, owners: Seq<OwnerView>)
    ensures
        ({
            let kept = selected(
                pods,
                |pod: PodView|
                    if eligible(pod, owners) {
                        Some(pod)
                    } else {
                        None
                    },
            );
            forall|i: int|
                0 <= i < kept.len() ==> eligible(#[trigger] kept[i], owners) && pods.contains(
                    kept[i],
                )
        }),
    decreases pods.len(),
{
    if pods.len() > 0 {
        let rest = pods.drop_last();
        let read = |pod: PodView|
            if eligible(pod, owners) {
                Some(pod)
            } else {
                None
            };
        selected_are_eligible(rest, owners);
        let kept = selected(pods, read);
        let earlier = selected(rest, read);
        assert forall|i: int| 0 <= i < kept.len() implies eligible(#[trigger] kept[i], owners)
            && pods.contains(kept[i]) by {
            if i < earlier.len() {
                assert(kept[i] == earlier[i]);
                let k = choose|k: int| 0 <= k < rest.len() && rest[k] == earlier[i];
                assert(pods[k] == kept[i]);
            } else {
                assert(pods[pods.len() - 1] == kept[i]);
            }
        }
    }
}

proof fn selected_are_all(pods: Seq<PodView>, owners: Seq<OwnerView>)
    ensures
        selected(
            pods,
            |pod: PodView|
                if eligible(pod, owners) {
                    Some(pod)
                } else {
                    None
                },
        ).to_multiset() == pods.to_multiset().filter(|pod: PodView| eligible(pod, owners)),
    decreases pods.len(),
{
    broadcast use vstd::seq_lib::group_to_multiset_ensures;

    let read = |pod: PodView|
        if eligible(pod, owners) {
            Some(pod)
        } else {
            None
        };
    let kept = selected(pods, read);
    if pods.len() > 0 {
        let rest = pods.drop_last();
        selected_are_all(rest, owners);
        assert(pods =~= rest.push(pods.last()));
    }
    assert(kept.to_multiset() =~= pods.to_multiset().filter(
        |pod: PodView| eligible(pod, owners),
    ));
}

/// The candidates are the listed pods that can be killed, all of them and none
/// before an older one.
pub proof fn candidates_are_the_oldest_first(pods: Seq<PodView>, owners: Seq<OwnerView>)
    ensures
        candidates(pods, owners).to_multiset() == pods.to_multiset().filter(
            |pod: PodView| eligible(pod, owners),
        ),
        is_sorted(
            candidates(pods, owners),
            |left: PodView, right: PodView| killed_first(left, right),
        ),
        forall|i: int|
            0 <= i < candidates(pods, owners).len() ==> eligible(
                #[trigger] candidates(pods, owners)[i],
                owners,
            ) && pods.contains(candidates(pods, owners)[i]),
{
    broadcast use vstd::seq_lib::group_to_multiset_ensures;

    let kept = selected(
        pods,
        |pod: PodView|
            if eligible(pod, owners) {
                Some(pod)
            } else {
                None
            },
    );
    let rank = |left: PodView, right: PodView| killed_first(left, right);
    choice_is_a_ranking();
    sorting_orders(kept, rank);
    selected_are_eligible(pods, owners);
    selected_are_all(pods, owners);
    let all = candidates(pods, owners);
    assert forall|i: int| 0 <= i < all.len() implies eligible(#[trigger] all[i], owners)
        && pods.contains(all[i]) by {
        assert(all.contains(all[i]));
        assert(all.to_multiset().count(all[i]) > 0);
        assert(kept.to_multiset().count(all[i]) > 0);
        assert(kept.contains(all[i]));
    }
}

/// Whether a chosen pod is a listed one that can be killed.
pub open spec fn is_owned(pods: Seq<PodView>, owners: Seq<OwnerView>, victim: VictimView) -> bool {
    exists|k: int|
        0 <= k < pods.len() && eligible(#[trigger] pods[k], owners) && as_victim(pods[k]) == victim
}

/// No more pods are chosen than were asked for, and every one of them is a
/// listed pod that can be killed.
pub proof fn victims_are_owned(pods: Seq<PodView>, owners: Seq<OwnerView>, count: nat)
    ensures
        victims_of(pods, owners, count).len() <= count,
        forall|i: int|
            0 <= i < victims_of(pods, owners, count).len() ==> is_owned(
                pods,
                owners,
                #[trigger] victims_of(pods, owners, count)[i],
            ),
{
    candidates_are_the_oldest_first(pods, owners);
    let all = candidates(pods, owners);
    let chosen = victims_of(pods, owners, count);
    assert forall|i: int| 0 <= i < chosen.len() implies is_owned(
        pods,
        owners,
        #[trigger] chosen[i],
    ) by {
        assert(chosen[i] == as_victim(all[i]));
        let k = choose|k: int| 0 <= k < pods.len() && pods[k] == all[i];
        assert(eligible(pods[k], owners));
    }
}

/// Whether no two pods have the same name, as in a namespace.
pub open spec fn distinct(pods: Seq<PodView>) -> bool {
    forall|i: int, j: int|
        0 <= i < j < pods.len() ==> (#[trigger] pods[i]).name != (#[trigger] pods[j]).name
}

/// Of two pods with different names, one is always chosen before the other.
pub proof fn choices_never_tie(left: PodView, right: PodView)
    requires
        left.name != right.name,
    ensures
        killed_first(left, right) || killed_first(right, left),
{
    sorts_before_total(left.created, right.created);
    sorts_before_total(left.name, right.name);
}

proof fn found_in_both(pods: Seq<PodView>, others: Seq<PodView>, at: int) -> (place: int)
    requires
        pods.to_multiset() == others.to_multiset(),
        0 <= at < pods.len(),
    ensures
        0 <= place < others.len(),
        others[place] == pods[at],
{
    broadcast use vstd::seq_lib::group_to_multiset_ensures;

    assert(pods.contains(pods[at]));
    assert(pods.to_multiset().count(pods[at]) > 0);
    assert(others.to_multiset().count(pods[at]) > 0);
    assert(others.contains(pods[at]));
    choose|place: int| 0 <= place < others.len() && others[place] == pods[at]
}

proof fn same_pods_sort_alike(pods: Seq<PodView>, others: Seq<PodView>)
    requires
        is_sorted(pods, |left: PodView, right: PodView| killed_first(left, right)),
        is_sorted(others, |left: PodView, right: PodView| killed_first(left, right)),
        pods.to_multiset() == others.to_multiset(),
        distinct(pods),
    ensures
        pods == others,
    decreases pods.len(),
{
    broadcast use vstd::seq_lib::group_to_multiset_ensures;

    let rank = |left: PodView, right: PodView| killed_first(left, right);
    assert(pods.len() == pods.to_multiset().len());
    assert(others.len() == others.to_multiset().len());
    if pods.len() > 0 {
        let first = found_in_both(pods, others, 0);
        let other = found_in_both(others, pods, 0);
        if other != 0 {
            assert(pods[0].name != pods[other].name);
            choices_never_tie(pods[0], others[0]);
            assert(!rank(pods[other], pods[0]));
            if first != 0 {
                assert(!rank(others[first], others[0]));
            }
        }
        assert(pods[0] == others[0]);
        let rest = pods.drop_first();
        let other_rest = others.drop_first();
        assert(pods =~= seq![pods[0]] + rest);
        assert(others =~= seq![others[0]] + other_rest);
        assert(pods.remove(0) =~= rest);
        assert(others.remove(0) =~= other_rest);
        assert(rest.to_multiset() =~= pods.to_multiset().remove(pods[0]));
        assert(other_rest.to_multiset() =~= others.to_multiset().remove(others[0]));
        assert forall|i: int, j: int| 0 <= i < j < rest.len() implies (#[trigger] rest[i]).name != (
        #[trigger] rest[j]).name by {
            assert(pods[i + 1].name != pods[j + 1].name);
        }
        same_pods_sort_alike(rest, other_rest);
    } else {
        assert(pods =~= others);
    }
}

proof fn candidates_are_distinct(pods: Seq<PodView>, owners: Seq<OwnerView>)
    requires
        distinct(pods),
    ensures
        distinct(candidates(pods, owners)),
{
    broadcast use {
        vstd::multiset::group_multiset_axioms,
        vstd::seq_lib::group_to_multiset_ensures,
    };

    let all = candidates(pods, owners);
    candidates_are_the_oldest_first(pods, owners);
    assert(pods.no_duplicates()) by {
        assert forall|i: int, j: int|
            0 <= i < pods.len() && 0 <= j < pods.len() && i != j implies pods[i] != pods[j] by {
            if i < j {
                assert(pods[i].name != pods[j].name);
            } else {
                assert(pods[j].name != pods[i].name);
            }
        }
    }
    pods.lemma_multiset_has_no_duplicates();
    assert forall|pod: PodView| all.to_multiset().contains(pod) implies all.to_multiset().count(pod)
        == 1 by {
        assert(pods.to_multiset().contains(pod));
    }
    all.lemma_multiset_has_no_duplicates_conv();
    assert forall|i: int, j: int| 0 <= i < j < all.len() implies (#[trigger] all[i]).name != (
    #[trigger] all[j]).name by {
        let a = choose|k: int| 0 <= k < pods.len() && pods[k] == all[i];
        let b = choose|k: int| 0 <= k < pods.len() && pods[k] == all[j];
        assert(pods.contains(all[i]) && pods.contains(all[j]));
        assert(pods[a] != pods[b]);
        if a < b {
            assert(pods[a].name != pods[b].name);
        } else {
            assert(pods[b].name != pods[a].name);
        }
    }
}

/// Which pods are chosen depends on the pods alone and not on the order in which
/// they are listed. So what a dry run shows is what the run after it kills, as
/// long as the pods are the same.
pub proof fn choices_ignore_the_order_of_a_listing(
    pods: Seq<PodView>,
    others: Seq<PodView>,
    owners: Seq<OwnerView>,
    count: nat,
)
    requires
        pods.to_multiset() == others.to_multiset(),
        distinct(pods),
    ensures
        victims_of(pods, owners, count) == victims_of(others, owners, count),
{
    candidates_are_the_oldest_first(pods, owners);
    candidates_are_the_oldest_first(others, owners);
    candidates_are_distinct(pods, owners);
    same_pods_sort_alike(candidates(pods, owners), candidates(others, owners));
}

// ----------------------------------------------------------------- recovery --

/// Whether a pod is one of those that were killed and has not begun to go.
pub open spec fn still_active(pod: PodView, killed: Seq<VictimView>) -> bool {
    pod.uid is Some && !pod.terminating && exists|i: int|
        0 <= i < killed.len() && (#[trigger] killed[i]).uid == pod.uid
}

/// Whether a pod stands in for a killed one.
pub open spec fn serves(pod: PodView, owners: Seq<OwnerView>) -> bool {
    eligible(pod, owners) && pod.ready
}

/// Whether a workload is whole again: no killed pod is still active, and the
/// pods that serve are as many as it wants.
pub open spec fn replaced(
    pods: Seq<PodView>,
    owners: Seq<OwnerView>,
    killed: Seq<VictimView>,
    desired: int,
) -> bool {
    &&& forall|i: int| 0 <= i < pods.len() ==> !still_active(#[trigger] pods[i], killed)
    &&& 0 <= desired <= count_matches(pods, |pod: PodView| serves(pod, owners))
}

fn is_active(pod: &Pod, killed: &Vec<Victim>) -> (yes: bool)
    ensures
        yes == still_active(pod@, victim_views(killed@)),
{
    let uid = match &pod.uid {
        Some(uid) => uid,
        None => {
            return false;
        },
    };
    if pod.terminating {
        return false;
    }
    let ghost list = victim_views(killed@);
    let mut at: usize = 0;
    while at < killed.len()
        invariant
            at <= killed@.len(),
            list == victim_views(killed@),
            pod@.uid == Some(uid@),
            !pod.terminating,
            forall|i: int| 0 <= i < at ==> (#[trigger] list[i]).uid != Some(uid@),
        decreases killed@.len() - at,
    {
        assert(list[at as int] == killed@[at as int]@);
        if let Some(gone) = &killed[at].uid {
            if same(gone.as_str(), uid.as_str()) {
                assert(list[at as int].uid == pod@.uid);
                return true;
            }
        }
        at = at + 1;
    }
    false
}

/// Whether the pods that were killed are gone and their replacements ready. The
/// status of a controller can stay at fully ready for a moment after a deletion,
/// so the pods themselves decide.
pub fn replacements_ready(
    pods: &Vec<Pod>,
    owners: &Vec<Owner>,
    killed: &Vec<Victim>,
    desired: i64,
) -> (yes: bool)
    ensures
        yes == replaced(
            pod_views(pods@),
            owner_views(owners@),
            victim_views(killed@),
            desired as int,
        ),
{
    let ghost list = pod_views(pods@);
    let ghost whose = owner_views(owners@);
    let ghost gone = victim_views(killed@);
    let ghost test = |pod: PodView| serves(pod, whose);
    let mut ready: usize = 0;
    let mut at: usize = 0;
    while at < pods.len()
        invariant
            at <= pods@.len(),
            list == pod_views(pods@),
            whose == owner_views(owners@),
            gone == victim_views(killed@),
            test == (|pod: PodView| serves(pod, whose)),
            forall|i: int| 0 <= i < at ==> !still_active(#[trigger] list[i], gone),
            ready == count_matches(list.take(at as int), test),
        decreases pods@.len() - at,
    {
        assert(list[at as int] == pods@[at as int]@);
        if is_active(&pods[at], killed) {
            return false;
        }
        assert(list.take(at + 1).drop_last() =~= list.take(at as int));
        proof {
            count_bounded(list.take(at as int), test);
        }
        if is_eligible(&pods[at], owners) && pods[at].ready {
            ready = ready + 1;
        }
        at = at + 1;
    }
    assert(list.take(at as int) =~= list);
    desired >= 0 && ready as u128 >= desired as u128
}

// ---------------------------------------------------------------- identities --

/// The UID of the first pod of a name.
pub open spec fn identity(pods: Seq<PodView>, name: Seq<char>) -> Option<Seq<char>> {
    match first_match(pods, |pod: PodView| pod.name == name) {
        Some(pod) => pod.uid,
        None => None,
    }
}

/// Why a chosen pod must not be deleted any more.
pub open spec fn moved(pods: Seq<PodView>, victim: VictimView) -> Option<Seq<char>> {
    match identity(pods, victim.name) {
        Some(uid) => if Some(uid) == victim.uid {
            None
        } else {
            Some(
                "pod "@ + victim.name
                    + " is no longer the pod that was selected; refusing to delete its replacement"@,
            )
        },
        None => Some(
            "pod "@ + victim.name
                + " is already gone; refusing to delete whatever took its name"@,
        ),
    }
}

/// Why the first of the chosen pods that moved must not be deleted.
pub open spec fn first_moved(pods: Seq<PodView>, victims: Seq<VictimView>) -> Option<Seq<char>>
    decreases victims.len(),
{
    if victims.len() == 0 {
        None
    } else {
        match moved(pods, victims[0]) {
            Some(message) => Some(message),
            None => first_moved(pods, victims.drop_first()),
        }
    }
}

fn current_identity<'a>(pods: &'a Vec<Pod>, name: &str) -> (uid: Option<&'a String>)
    ensures
        match uid {
            Some(uid) => identity(pod_views(pods@), name@) == Some(uid@),
            None => identity(pod_views(pods@), name@) is None,
        },
{
    let ghost list = pod_views(pods@);
    let ghost test = |pod: PodView| pod.name == name@;
    let mut at: usize = 0;
    while at < pods.len()
        invariant
            at <= pods@.len(),
            list == pod_views(pods@),
            test == (|pod: PodView| pod.name == name@),
            forall|i: int| 0 <= i < at ==> !test(#[trigger] list[i]),
        decreases pods@.len() - at,
    {
        assert(list[at as int] == pods@[at as int]@);
        if same(pods[at].name.as_str(), name) {
            proof {
                first_match_found(list, test, at as int);
            }
            return match &pods[at].uid {
                Some(uid) => Some(uid),
                None => None,
            };
        }
        at = at + 1;
    }
    proof {
        first_match_missing(list, test);
    }
    None
}

/// Checks that every chosen name still belongs to the chosen pod. A StatefulSet
/// brings its pods back under their names, so between the choice and the
/// deletion a name can come to mean another pod.
pub fn confirm_identities(current: &Vec<Pod>, victims: &Vec<Victim>) -> (confirmed: Result<
    (),
    String,
>)
    ensures
        match confirmed {
            Ok(_) => first_moved(pod_views(current@), victim_views(victims@)) is None,
            Err(message) => first_moved(pod_views(current@), victim_views(victims@)) == Some(
                message@,
            ),
        },
{
    let ghost pods = pod_views(current@);
    let ghost list = victim_views(victims@);
    let mut at: usize = 0;
    assert(list.skip(0) =~= list);
    while at < victims.len()
        invariant
            at <= victims@.len(),
            pods == pod_views(current@),
            list == victim_views(victims@),
            first_moved(pods, list) == first_moved(pods, list.skip(at as int)),
        decreases victims@.len() - at,
    {
        let victim = &victims[at];
        assert(list.skip(at as int)[0] == victim@);
        assert(list.skip(at as int).drop_first() =~= list.skip(at + 1));
        match current_identity(current, victim.name.as_str()) {
            Some(uid) => {
                let unchanged = match &victim.uid {
                    Some(chosen) => same(chosen.as_str(), uid.as_str()),
                    None => false,
                };
                if !unchanged {
                    return Err(
                        glue3(
                            "pod ",
                            victim.name.as_str(),
                            " is no longer the pod that was selected; refusing to delete its replacement",
                        ),
                    );
                }
            },
            None => {
                return Err(
                    glue3(
                        "pod ",
                        victim.name.as_str(),
                        " is already gone; refusing to delete whatever took its name",
                    ),
                );
            },
        }
        at = at + 1;
    }
    Ok(())
}

/// Confirmed identities are those of the pods that were listed again: each
/// chosen pod has a UID, and its name still means that UID.
pub proof fn confirmed_pods_are_the_chosen_ones(pods: Seq<PodView>, victims: Seq<VictimView>)
    requires
        first_moved(pods, victims) is None,
    ensures
        forall|i: int|
            0 <= i < victims.len() ==> (#[trigger] victims[i]).uid is Some && identity(
                pods,
                victims[i].name,
            ) == victims[i].uid,
    decreases victims.len(),
{
    if victims.len() > 0 {
        let rest = victims.drop_first();
        confirmed_pods_are_the_chosen_ones(pods, rest);
        assert forall|i: int| 0 <= i < victims.len() implies (#[trigger] victims[i]).uid is Some
            && identity(pods, victims[i].name) == victims[i].uid by {
            if i > 0 {
                assert(rest[i - 1] == victims[i]);
            }
        }
    }
}

// ------------------------------------------------------------------- owners --

/// Where the owners of a workload's pods come from: a Deployment owns them
/// through its ReplicaSets, which have to be listed.
#[verifier::ext_equal]
pub enum OwnersView {
    Listed,
    Known(Seq<OwnerView>),
}

/// Where the owners of a workload's pods come from.
#[derive(Debug, PartialEq, Eq)]
pub enum Owners {
    Listed,
    Known(Vec<Owner>),
}

impl Owners {
    pub open spec fn view(&self) -> OwnersView {
        match self {
            Owners::Listed => OwnersView::Listed,
            Owners::Known(owners) => OwnersView::Known(owner_views(owners@)),
        }
    }
}

/// The owners of the pods of a workload of a kind.
pub open spec fn owners_of(kind: Seq<char>, uid: Seq<char>) -> Result<OwnersView, Seq<char>> {
    if kind == "Deployment"@ {
        Ok(OwnersView::Listed)
    } else if kind == "StatefulSet"@ || kind == "DaemonSet"@ {
        Ok(OwnersView::Known(seq![OwnerView { kind, uid }]))
    } else {
        Err(kind + " is not supported; select a Deployment, StatefulSet, or DaemonSet"@)
    }
}

/// The owners of the pods of a workload.
pub fn workload_owners(kind: &str, workload: &Workload) -> (owners: Result<Owners, String>)
    ensures
        match owners {
            Ok(owners) => owners_of(kind@, workload@.uid) == Ok::<OwnersView, Seq<char>>(owners@),
            Err(message) => owners_of(kind@, workload@.uid) == Err::<OwnersView, Seq<char>>(
                message@,
            ),
        },
{
    if same(kind, "Deployment") {
        Ok(Owners::Listed)
    } else if same(kind, "StatefulSet") || same(kind, "DaemonSet") {
        let mut list: Vec<Owner> = Vec::new();
        list.push(Owner { kind: kind.to_owned(), uid: workload.uid.clone() });
        assert(owner_views(list@) =~= seq![OwnerView { kind: kind@, uid: workload@.uid }]);
        Ok(Owners::Known(list))
    } else {
        Err(glue2(kind, " is not supported; select a Deployment, StatefulSet, or DaemonSet"))
    }
}

} // verus!
