//! Pods and workloads as the JSON objects of the cluster.
use crate::chaos::pods::{
    owner_view, owner_views, pod_views, Owner, OwnerView, Pod, PodView, Workload, WorkloadView,
};
use crate::json::{
    as_entries, as_items, as_text, in_order, is_text, number_or_zero, parts_are_tidy, seen,
    text_of_json, text_or_empty, text_or_nothing, tidy, whole_number, Json, JsonView,
};
use crate::sequences::{first_match, first_match_found, first_match_missing, selected};
use crate::text::{glue3, join, joined, same, views};
use vstd::prelude::*;

verus! {

// -------------------------------------------------------------------- pods --

/// Whether an owner reference is the one of the controller.
pub open spec fn controls(reference: JsonView) -> bool {
    reference.get("controller"@) == Some(JsonView::Bool(true))
}

/// The controller among the owner references of an object, where it names its
/// kind and its UID.
pub open spec fn controller_of(references: Option<JsonView>) -> Option<OwnerView> {
    match as_items(references) {
        Some(items) => match first_match(items, |item: JsonView| controls(item)) {
            Some(found) => match (as_text(found.get("kind"@)), as_text(found.get("uid"@))) {
                (Some(kind), Some(uid)) => Some(OwnerView { kind, uid }),
                _ => None,
            },
            None => None,
        },
        None => None,
    }
}

/// Whether a condition says that the pod is ready.
pub open spec fn says_ready(condition: JsonView) -> bool {
    &&& as_text(condition.get("type"@)) == Some("Ready"@)
    &&& as_text(condition.get("status"@)) == Some("True"@)
}

/// Whether any of the conditions says that the pod is ready.
pub open spec fn is_ready(conditions: Option<JsonView>) -> bool {
    match as_items(conditions) {
        Some(items) => exists|i: int| 0 <= i < items.len() && says_ready(#[trigger] items[i]),
        None => false,
    }
}

/// The pod of a JSON object; an object without a name is none.
pub open spec fn pod_of_json(pod: JsonView) -> Option<PodView> {
    match as_text(pod.at("metadata"@, "name"@)) {
        Some(name) => Some(
            PodView {
                name,
                uid: as_text(pod.at("metadata"@, "uid"@)),
                created: text_or_empty(pod.at("metadata"@, "creationTimestamp"@)),
                terminating: pod.at("metadata"@, "deletionTimestamp"@) is Some,
                phase: text_or_empty(pod.at("status"@, "phase"@)),
                owner: controller_of(pod.at("metadata"@, "ownerReferences"@)),
                ready: is_ready(pod.at("status"@, "conditions"@)),
            },
        ),
        None => None,
    }
}

/// The pods of a JSON pod list.
pub open spec fn pods_of_json(list: JsonView) -> Seq<PodView> {
    match as_items(list.get("items"@)) {
        Some(items) => selected(items, |pod: JsonView| pod_of_json(pod)),
        None => Seq::empty(),
    }
}

fn controller(references: Option<&Json>) -> (found: Option<Owner>)
    ensures
        owner_view(found) == controller_of(seen(references)),
{
    let items = match references {
        Some(Json::Array(items)) => items,
        _ => {
            return None;
        },
    };
    let ghost list = references->0@->Array_0;
    let ghost test = |item: JsonView| controls(item);
    let mut at: usize = 0;
    while at < items.len()
        invariant
            at <= items@.len(),
            list.len() == items@.len(),
            forall|i: int| 0 <= i < list.len() ==> #[trigger] list[i] == items@[i]@,
            test == (|item: JsonView| controls(item)),
            forall|i: int| 0 <= i < at ==> !test(#[trigger] list[i]),
            references matches Some(value) && value@ == JsonView::Array(list),
        decreases items@.len() - at,
    {
        let reference = &items[at];
        assert(list[at as int] == reference@);
        let controlling = match reference.get("controller") {
            Some(Json::Bool(value)) => *value,
            _ => false,
        };
        if controlling {
            proof {
                first_match_found(list, test, at as int);
            }
            return match (text_of_json(reference.get("kind")), text_of_json(reference.get("uid"))) {
                (Some(kind), Some(uid)) => Some(Owner { kind, uid }),
                _ => None,
            };
        }
        at = at + 1;
    }
    proof {
        first_match_missing(list, test);
    }
    None
}

fn ready(conditions: Option<&Json>) -> (yes: bool)
    ensures
        yes == is_ready(seen(conditions)),
{
    let items = match conditions {
        Some(Json::Array(items)) => items,
        _ => {
            return false;
        },
    };
    let ghost list = conditions->0@->Array_0;
    let mut at: usize = 0;
    while at < items.len()
        invariant
            at <= items@.len(),
            list.len() == items@.len(),
            forall|i: int| 0 <= i < list.len() ==> #[trigger] list[i] == items@[i]@,
            forall|i: int| 0 <= i < at ==> !says_ready(#[trigger] list[i]),
            as_items(seen(conditions)) == Some(list),
        decreases items@.len() - at,
    {
        let condition = &items[at];
        assert(list[at as int] == condition@);
        if is_text(condition.get("type"), "Ready") && is_text(condition.get("status"), "True") {
            proof {
                let items = as_items(seen(conditions))->0;
                assert(says_ready(items[at as int]));
                assert(is_ready(seen(conditions)));
            }
            return true;
        }
        at = at + 1;
    }
    false
}

fn pod_from_value(pod: &Json) -> (found: Option<Pod>)
    ensures
        match found {
            Some(found) => pod_of_json(pod@) == Some(found@),
            None => pod_of_json(pod@) is None,
        },
{
    let name = match text_of_json(pod.at("metadata", "name")) {
        Some(name) => name,
        None => {
            return None;
        },
    };
    let found = Pod {
        name,
        uid: text_of_json(pod.at("metadata", "uid")),
        created: text_or_nothing(pod.at("metadata", "creationTimestamp")),
        terminating: pod.at("metadata", "deletionTimestamp").is_some(),
        phase: text_or_nothing(pod.at("status", "phase")),
        owner: controller(pod.at("metadata", "ownerReferences")),
        ready: ready(pod.at("status", "conditions")),
    };
    assert(Some(found@) =~= pod_of_json(pod@));
    Some(found)
}

/// Reads a JSON pod list.
pub fn pods_from_value(value: &Json) -> (pods: Vec<Pod>)
    ensures
        pod_views(pods@) == pods_of_json(value@),
{
    let mut pods: Vec<Pod> = Vec::new();
    assert(pod_views(pods@) =~= Seq::<PodView>::empty());
    let listed = value.get("items");
    let items = match listed {
        Some(Json::Array(items)) => items,
        _ => {
            return pods;
        },
    };
    let ghost list = listed->0@->Array_0;
    let ghost read = |pod: JsonView| pod_of_json(pod);
    let mut at: usize = 0;
    while at < items.len()
        invariant
            at <= items@.len(),
            list.len() == items@.len(),
            forall|i: int| 0 <= i < list.len() ==> #[trigger] list[i] == items@[i]@,
            read == (|pod: JsonView| pod_of_json(pod)),
            pod_views(pods@) == selected(list.take(at as int), read),
        decreases items@.len() - at,
    {
        assert(list.take(at + 1).drop_last() =~= list.take(at as int));
        assert(list.take(at + 1).last() == items@[at as int]@);
        let ghost before = pods@;
        if let Some(pod) = pod_from_value(&items[at]) {
            pods.push(pod);
            assert(pod_views(pods@) =~= pod_views(before).push(pod@));
        }
        at = at + 1;
    }
    assert(list.take(at as int) =~= list);
    pods
}

// ---------------------------------------------------------------- workloads --

/// What `first` is, or `second` where there is no first.
pub open spec fn either(first: Option<JsonView>, second: Option<JsonView>) -> Option<JsonView> {
    match first {
        Some(value) => Some(value),
        None => second,
    }
}

/// How many replicas a workload wants: what a DaemonSet schedules, or what the
/// specification asks for, or what the status counts.
pub open spec fn desired_of(value: JsonView) -> int {
    number_or_zero(
        either(
            value.at("status"@, "desiredNumberScheduled"@),
            either(value.at("spec"@, "replicas"@), value.at("status"@, "replicas"@)),
        ),
    )
}

/// How many replicas of a workload are ready.
pub open spec fn ready_of(value: JsonView) -> int {
    number_or_zero(
        either(value.at("status"@, "numberReady"@), value.at("status"@, "readyReplicas"@)),
    )
}

/// The workload of a JSON object, which has to have a UID.
pub open spec fn workload_of_json(value: JsonView) -> Result<WorkloadView, Seq<char>> {
    match as_text(value.at("metadata"@, "uid"@)) {
        Some(uid) => Ok(
            WorkloadView {
                uid,
                desired: desired_of(value) as i64,
                ready: ready_of(value) as i64,
            },
        ),
        None => Err("selected workload has no UID"@),
    }
}

fn or_else<'a>(first: Option<&'a Json>, second: Option<&'a Json>) -> (value: Option<&'a Json>)
    ensures
        seen(value) == either(seen(first), seen(second)),
{
    match first {
        Some(value) => Some(value),
        None => second,
    }
}

/// Reads a workload from its JSON object.
pub fn workload_from_value(value: &Json) -> (workload: Result<Workload, String>)
    ensures
        match workload {
            Ok(workload) => workload_of_json(value@) == Ok::<WorkloadView, Seq<char>>(workload@),
            Err(message) => workload_of_json(value@) == Err::<WorkloadView, Seq<char>>(message@),
        },
{
    let uid = match text_of_json(value.at("metadata", "uid")) {
        Some(uid) => uid,
        None => {
            return Err("selected workload has no UID".to_owned());
        },
    };
    let desired = whole_number(
        or_else(
            value.at("status", "desiredNumberScheduled"),
            or_else(value.at("spec", "replicas"), value.at("status", "replicas")),
        ),
    );
    let ready = whole_number(
        or_else(value.at("status", "numberReady"), value.at("status", "readyReplicas")),
    );
    Ok(Workload { uid, desired, ready })
}

// ---------------------------------------------------------------- selectors --

/// A label as a selector writes it.
pub open spec fn label_text(label: (Seq<char>, JsonView)) -> Seq<char> {
    label.0 + "="@ + text_or_empty(Some(label.1))
}

/// What is said of a selector with expressions.
pub open spec fn expressions_error() -> Seq<char> {
    "workload selector uses matchExpressions, which cannot be narrowed here; refusing rather than deleting a wider set of pods"@
}

/// Whether a selector narrows on expressions.
pub open spec fn has_expressions(selector: JsonView) -> bool {
    match as_items(selector.get("matchExpressions"@)) {
        Some(items) => items.len() > 0,
        None => false,
    }
}

/// The labels that a workload selects its pods by.
pub open spec fn labels_of(object: JsonView) -> Option<Seq<(Seq<char>, JsonView)>> {
    match object.at("spec"@, "selector"@) {
        Some(selector) => as_entries(selector.get("matchLabels"@)),
        None => None,
    }
}

/// The label selector of a workload. Only labels can be written as one: a
/// selector with expressions would be widened, and the wider set is what gets
/// deleted.
pub open spec fn selector_of(object: JsonView) -> Result<Seq<char>, Seq<char>> {
    match object.at("spec"@, "selector"@) {
        Some(selector) => if has_expressions(selector) {
            Err(expressions_error())
        } else {
            match labels_of(object) {
                Some(labels) => if labels.len() == 0 {
                    Err("workload selector is empty; refusing to match every pod"@)
                } else {
                    Ok(
                        joined(
                            labels.map_values(|label: (Seq<char>, JsonView)| label_text(label)),
                            ","@,
                        ),
                    )
                },
                None => Err("workload has no spec.selector.matchLabels"@),
            }
        },
        None => Err("workload has no spec.selector"@),
    }
}

/// The selector of a document that was read names every label once and in the
/// order of their keys, however the document was written.
pub proof fn selectors_name_labels_in_order(object: JsonView)
    requires
        tidy(object),
    ensures
        labels_of(object) matches Some(labels) ==> in_order(labels),
{
    parts_are_tidy(object, "spec"@);
    if let Some(spec) = object.get("spec"@) {
        parts_are_tidy(spec, "selector"@);
        if let Some(selector) = spec.get("selector"@) {
            parts_are_tidy(selector, "matchLabels"@);
        }
    }
}

/// The label selector of a workload, as `k=v,k=v`, in the order of the keys where
/// the object was read from a document.
pub fn selector(object: &Json) -> (text: Result<String, String>)
    ensures
        tidy(object@) && text is Ok ==> (labels_of(object@) matches Some(labels) && in_order(labels)),
        match text {
            Ok(text) => selector_of(object@) == Ok::<Seq<char>, Seq<char>>(text@),
            Err(message) => selector_of(object@) == Err::<Seq<char>, Seq<char>>(message@),
        },
{
    proof {
        if tidy(object@) {
            selectors_name_labels_in_order(object@);
        }
    }
    let selector = match object.at("spec", "selector") {
        Some(selector) => selector,
        None => {
            return Err("workload has no spec.selector".to_owned());
        },
    };
    let narrowed = match selector.get("matchExpressions") {
        Some(Json::Array(items)) => items.len() > 0,
        _ => false,
    };
    if narrowed {
        return Err(
            "workload selector uses matchExpressions, which cannot be narrowed here; refusing rather than deleting a wider set of pods".to_owned(),
        );
    }
    let found = selector.get("matchLabels");
    let labels = match found {
        Some(Json::Object(labels)) => labels,
        _ => {
            return Err("workload has no spec.selector.matchLabels".to_owned());
        },
    };
    if labels.len() == 0 {
        return Err("workload selector is empty; refusing to match every pod".to_owned());
    }
    let ghost list = found->0@->Object_0;
    let ghost wanted = list.map_values(|label: (Seq<char>, JsonView)| label_text(label));
    let mut parts: Vec<String> = Vec::new();
    let mut at: usize = 0;
    while at < labels.len()
        invariant
            at <= labels@.len(),
            list.len() == labels@.len(),
            forall|i: int|
                0 <= i < list.len() ==> #[trigger] list[i] == (labels@[i].0@, labels@[i].1@),
            parts@.len() == at,
            forall|i: int| 0 <= i < at ==> (#[trigger] parts@[i])@ == label_text(list[i]),
        decreases labels@.len() - at,
    {
        let label = &labels[at];
        let value = text_or_nothing(Some(&label.1));
        parts.push(glue3(label.0.as_str(), "=", value.as_str()));
        assert(parts@[at as int]@ == label_text(list[at as int]));
        at = at + 1;
    }
    assert(views(parts@) =~= wanted);
    Ok(join(&parts, ","))
}

// ------------------------------------------------------------------- saved --

/// The owners that come first among equals.
pub open spec fn without_repeats(owners: Seq<OwnerView>) -> Seq<OwnerView>
    decreases owners.len(),
{
    if owners.len() == 0 {
        Seq::empty()
    } else {
        let before = without_repeats(owners.drop_last());
        if before.contains(owners.last()) {
            before
        } else {
            before.push(owners.last())
        }
    }
}

/// The owner of a pod, where it is a ReplicaSet.
pub open spec fn replica_set_of(pod: PodView) -> Option<OwnerView> {
    match pod.owner {
        Some(owner) => if owner.kind == "ReplicaSet"@ {
            Some(owner)
        } else {
            None
        },
        None => None,
    }
}

/// The ReplicaSets that own pods, each of them once.
pub open spec fn replica_sets_of(pods: Seq<PodView>) -> Seq<OwnerView> {
    without_repeats(selected(pods, |pod: PodView| replica_set_of(pod)))
}

/// Whether an owner is in a list.
pub fn owned_by(owner: &Owner, owners: &Vec<Owner>) -> (yes: bool)
    ensures
        yes == owner_views(owners@).contains(owner@),
{
    let mut at: usize = 0;
    while at < owners.len()
        invariant
            at <= owners@.len(),
            forall|i: int| 0 <= i < at ==> (#[trigger] owners@[i])@ != owner@,
        decreases owners@.len() - at,
    {
        if same(owners[at].kind.as_str(), owner.kind.as_str()) && same(
            owners[at].uid.as_str(),
            owner.uid.as_str(),
        ) {
            assert(owner_views(owners@)[at as int] == owner@);
            return true;
        }
        at = at + 1;
    }
    proof {
        if owner_views(owners@).contains(owner@) {
            let i = choose|i: int|
                0 <= i < owner_views(owners@).len() && owner_views(owners@)[i] == owner@;
            assert(owners@[i]@ == owner@);
        }
    }
    false
}

/// The ReplicaSets that own pods of a saved list, each of them once.
pub fn saved_replica_sets(pods: &Vec<Pod>) -> (owners: Vec<Owner>)
    ensures
        owner_views(owners@) == replica_sets_of(pod_views(pods@)),
{
    let ghost list = pod_views(pods@);
    let ghost read = |pod: PodView| replica_set_of(pod);
    let mut owners: Vec<Owner> = Vec::new();
    let mut at: usize = 0;
    assert(owner_views(owners@) =~= Seq::<OwnerView>::empty());
    while at < pods.len()
        invariant
            at <= pods@.len(),
            list == pod_views(pods@),
            read == (|pod: PodView| replica_set_of(pod)),
            owner_views(owners@) == without_repeats(selected(list.take(at as int), read)),
        decreases pods@.len() - at,
    {
        let ghost so_far = selected(list.take(at as int), read);
        assert(list.take(at + 1).drop_last() =~= list.take(at as int));
        assert(list.take(at + 1).last() == pods@[at as int]@);
        if let Some(owner) = &pods[at].owner {
            if same(owner.kind.as_str(), "ReplicaSet") {
                assert(selected(list.take(at + 1), read) == so_far.push(owner@));
                assert(so_far.push(owner@).drop_last() =~= so_far);
                if !owned_by(owner, &owners) {
                    let ghost before = owners@;
                    owners.push(Owner { kind: owner.kind.clone(), uid: owner.uid.clone() });
                    assert(owner_views(owners@) =~= owner_views(before).push(owner@));
                }
            }
        }
        at = at + 1;
    }
    assert(list.take(at as int) =~= list);
    owners
}

} // verus!
