//! What the listings and objects of a cluster are read as.
use crate::chaos::objects::{
    controls, label_text, pod_of_json, pods_of_json, replica_set_of, replica_sets_of, says_ready,
    selector_of, without_repeats, workload_of_json,
};
use crate::chaos::pods::{
    number_of, owner_of, pod_of_line, pods_of_lines, replica_set_of_line, without_newlines,
    workload_of_line, OwnerView, PodView,
};
use crate::json::{as_text, JsonView};
use crate::laws::reading::{made_of, selections_have_what_is_made};
use crate::laws::text::{
    all_lack, joined_texts_come_apart, lacks, next_index_is, pieces_are_what_was_written,
    signed_numbers_read_back, written,
};
use crate::numbers::{decimal, decimal_reads_back, signed_decimal};
use crate::sequences::{first_match_found, selected};
use crate::text::{joined, pieces};
use vstd::prelude::*;

verus! {

// ------------------------------------------------------------------- listings --

/// An owner that was written as its kind, a colon and its UID is read back.
pub proof fn owners_read_back(kind: Seq<char>, uid: Seq<char>)
    requires
        kind.len() > 0,
        uid.len() > 0,
        lacks(kind, ':'),
    ensures
        owner_of(kind + ":"@ + uid) == Some(OwnerView { kind, uid }),
{
    reveal_strlit(":");
    let text = kind + ":"@ + uid;
    let at = kind.len() as int;
    assert forall|i: int| 0 <= i < at implies #[trigger] text[i] != ':' by {
        assert(text[i] == kind[i]);
    }
    assert(text[at] == ':');
    next_index_is(text, ':', 0, at);
    assert(text.take(at) =~= kind);
    assert(text.skip(at + 1) =~= uid);
}

/// A pod is what its line says, column by column: its name, its UID, when it was
/// created, when its deletion began, its phase, its controller, and whether it is
/// ready.
pub proof fn pod_lines_read_back(
    name: Seq<char>,
    uid: Seq<char>,
    created: Seq<char>,
    deleted: Seq<char>,
    phase: Seq<char>,
    owner: Seq<char>,
    ready: Seq<char>,
)
    requires
        name.len() > 0,
        all_lack(seq![name, uid, created, deleted, phase, owner, ready], '\t'),
    ensures
        ({
            let line = written(seq![name, uid, created, deleted, phase, owner, ready], '\t');
            pod_of_line(line) matches Ok(Some(pod)) && {
                &&& pod.name == name
                &&& uid.len() == 0 ==> pod.uid is None
                &&& uid.len() > 0 ==> pod.uid == Some(uid)
                &&& pod.created == created
                &&& pod.terminating <==> deleted.len() > 0
                &&& pod.phase == phase
                &&& pod.owner == owner_of(owner)
                &&& pod.ready <==> ready == "True"@
            }
        }),
{
    let columns = seq![name, uid, created, deleted, phase, owner, ready];
    pieces_are_what_was_written(columns, '\t');
    let line = written(columns, '\t');
    assert(columns[0] == name);
    assert(line.len() > 0);
}

/// A pod line with more or fewer columns, or without a name, is refused. A blank
/// one is no pod.
pub proof fn broken_pod_lines_are_refused(columns: Seq<Seq<char>>)
    requires
        columns.len() > 0,
        all_lack(columns, '\t'),
    ensures
        ({
            let line = written(columns, '\t');
            &&& line.len() > 0 && columns.len() != 7 ==> pod_of_line(line) == Err::<
                Option<PodView>,
                Seq<char>,
            >("invalid kubectl "@ + "pod list"@ + " output"@)
            &&& line.len() > 0 && columns.len() == 7 && columns[0].len() == 0 ==> pod_of_line(line)
                is Err
        }),
        pod_of_line(Seq::empty()) == Ok::<Option<PodView>, Seq<char>>(None),
{
    pieces_are_what_was_written(columns, '\t');
}

/// A number or, where there is none, nothing.
pub open spec fn number_text(number: Option<i64>) -> Seq<char> {
    match number {
        Some(number) => signed_decimal(number as int),
        None => Seq::empty(),
    }
}

/// A number or, where there is none, zero.
pub open spec fn or_zero(number: Option<i64>) -> int {
    match number {
        Some(number) => number as int,
        None => 0,
    }
}

proof fn number_texts_read_back(number: Option<i64>)
    ensures
        number_of(number_text(number)) == or_zero(number),
        lacks(number_text(number), '\t'),
        lacks(number_text(number), '\n'),
{
    if let Some(number) = number {
        signed_numbers_read_back(number as int);
        decimal_reads_back(
            if number < 0 {
                (-number) as nat
            } else {
                number as nat
            },
        );
        let text = signed_decimal(number as int);
        assert forall|i: int| 0 <= i < text.len() implies #[trigger] text[i] != '\t' && text[i]
            != '\n' by {
            if number < 0 {
                if i > 0 {
                    assert(text[i] == decimal((-number) as nat)[i - 1]);
                }
            }
        }
    }
}

/// A workload is what its line says. What a DaemonSet schedules and has ready
/// answers first where it is above zero, then what the specification asks for, and
/// then what the status counts.
pub proof fn workload_lines_read_back(
    uid: Seq<char>,
    asked: Option<i64>,
    counted: Option<i64>,
    ready: Option<i64>,
    scheduled: Option<i64>,
    number_ready: Option<i64>,
)
    requires
        uid.len() > 0,
        lacks(uid, '\t'),
        uid.last() != '\n',
    ensures
        ({
            let line = written(
                seq![
                    uid,
                    number_text(asked),
                    number_text(counted),
                    number_text(ready),
                    number_text(scheduled),
                    number_text(number_ready),
                ],
                '\t',
            );
            workload_of_line(line) matches Ok(workload) && {
                &&& workload.uid == uid
                &&& workload.desired == if or_zero(scheduled) > 0 {
                    or_zero(scheduled)
                } else if or_zero(asked) > 0 {
                    or_zero(asked)
                } else {
                    or_zero(counted)
                }
                &&& workload.ready == if or_zero(number_ready) > 0 {
                    or_zero(number_ready)
                } else {
                    or_zero(ready)
                }
            }
        }),
{
    let columns = seq![
        uid,
        number_text(asked),
        number_text(counted),
        number_text(ready),
        number_text(scheduled),
        number_text(number_ready),
    ];
    number_texts_read_back(asked);
    number_texts_read_back(counted);
    number_texts_read_back(ready);
    number_texts_read_back(scheduled);
    number_texts_read_back(number_ready);
    assert(all_lack(columns, '\t'));
    pieces_are_what_was_written(columns, '\t');
    let line = written(columns, '\t');
    last_letters(columns.drop_first(), columns[0]);
    assert(columns =~= seq![columns[0]] + columns.drop_first());
    assert(without_newlines(line) == line);
}

proof fn last_letters(rest: Seq<Seq<char>>, first: Seq<char>)
    requires
        rest.len() > 0,
        forall|i: int| 0 <= i < rest.len() ==> lacks(#[trigger] rest[i], '\n'),
    ensures
        written(seq![first] + rest, '\t').len() > 0,
        written(seq![first] + rest, '\t').last() != '\n',
    decreases rest.len(),
{
    let all = seq![first] + rest;
    assert(all.drop_first() =~= rest);
    let tail = written(rest, '\t');
    if rest.len() == 1 {
        assert(lacks(rest[0], '\n'));
        if tail.len() > 0 {
            assert(written(all, '\t').last() == tail[tail.len() - 1]);
        } else {
            assert(written(all, '\t').last() == '\t');
        }
    } else {
        let more = rest.drop_first();
        assert forall|i: int| 0 <= i < more.len() implies lacks(#[trigger] more[i], '\n') by {
            assert(lacks(rest[i + 1], '\n'));
        }
        last_letters(more, rest[0]);
        assert(seq![rest[0]] + more =~= rest);
        assert(written(all, '\t').last() == tail.last());
    }
}

/// A line of the ReplicaSet list counts exactly where the deployment controls the
/// ReplicaSet.
pub proof fn replica_set_lines_read_back(
    uid: Seq<char>,
    kind: Seq<char>,
    owner: Seq<char>,
    deployment: Seq<char>,
)
    requires
        uid.len() > 0,
        kind.len() > 0,
        owner.len() > 0,
        lacks(kind, ':'),
        all_lack(seq![uid, kind + ":"@ + owner], '\t'),
    ensures
        replica_set_of_line(written(seq![uid, kind + ":"@ + owner], '\t'), deployment) == Ok::<
            Option<OwnerView>,
            Seq<char>,
        >(
            if kind == "Deployment"@ && owner == deployment {
                Some(OwnerView { kind: "ReplicaSet"@, uid })
            } else {
                None
            },
        ),
{
    let columns = seq![uid, kind + ":"@ + owner];
    pieces_are_what_was_written(columns, '\t');
    owners_read_back(kind, owner);
    assert(columns[0] == uid && columns[1] == kind + ":"@ + owner);
    assert(written(columns, '\t').len() > 0);
}

/// A list is read line by line: each line adds its pod behind those before it, a
/// blank one adds none, and one that is refused makes the whole list refused.
pub proof fn lists_are_read_line_by_line(lines: Seq<Seq<char>>, line: Seq<char>)
    ensures
        pods_of_lines(Seq::empty()) == Ok::<Seq<PodView>, Seq<char>>(Seq::empty()),
        pods_of_lines(lines) matches Ok(pods) ==> match pod_of_line(line) {
            Ok(Some(pod)) => pods_of_lines(lines.push(line)) == Ok::<Seq<PodView>, Seq<char>>(
                pods.push(pod),
            ),
            Ok(None) => pods_of_lines(lines.push(line)) == Ok::<Seq<PodView>, Seq<char>>(pods),
            Err(message) => pods_of_lines(lines.push(line)) == Err::<Seq<PodView>, Seq<char>>(
                message,
            ),
        },
        pods_of_lines(lines) is Err ==> pods_of_lines(lines.push(line)) is Err,
{
    assert(lines.push(line).drop_last() =~= lines);
    assert(lines.push(line).last() == line);
}

// -------------------------------------------------------------------- objects --

/// A pod is what its object says: its name and UID, when it was created, that it
/// goes away once its deletion has a time, its phase, its controller, and whether
/// a condition says that it is ready.
pub proof fn pod_objects_are_read(object: JsonView)
    ensures
        pod_of_json(object) is Some <==> as_text(object.at("metadata"@, "name"@)) is Some,
        pod_of_json(object) matches Some(pod) ==> {
            &&& Some(pod.name) == as_text(object.at("metadata"@, "name"@))
            &&& pod.uid == as_text(object.at("metadata"@, "uid"@))
            &&& as_text(object.at("metadata"@, "creationTimestamp"@)) matches Some(time)
                ==> pod.created == time
            &&& pod.terminating <==> object.at("metadata"@, "deletionTimestamp"@) is Some
            &&& as_text(object.at("status"@, "phase"@)) matches Some(phase) ==> pod.phase == phase
            &&& as_text(object.at("status"@, "phase"@)) is None ==> pod.phase.len() == 0
        },
{
}

/// A pod object is ready exactly where one of its conditions is "Ready" with the
/// status "True".
pub proof fn ready_pods_say_so(object: JsonView)
    ensures
        pod_of_json(object) matches Some(pod) ==> (pod.ready <==> (object.at(
            "status"@,
            "conditions"@,
        ) matches Some(JsonView::Array(items)) && exists|i: int|
            0 <= i < items.len() && (#[trigger] items[i]).get("type"@) == Some(
                JsonView::Text("Ready"@),
            ) && items[i].get("status"@) == Some(JsonView::Text("True"@)))),
{
    if let Some(pod) = pod_of_json(object) {
        if let Some(JsonView::Array(items)) = object.at("status"@, "conditions"@) {
            if pod.ready {
                let at = choose|i: int|
                    0 <= i < items.len() && says_ready(#[trigger] items[i]);
                assert(items[at].get("type"@) == Some(JsonView::Text("Ready"@)));
            }
            if exists|i: int|
                0 <= i < items.len() && (#[trigger] items[i]).get("type"@) == Some(
                    JsonView::Text("Ready"@),
                ) && items[i].get("status"@) == Some(JsonView::Text("True"@)) {
                let at = choose|i: int|
                    0 <= i < items.len() && (#[trigger] items[i]).get("type"@) == Some(
                        JsonView::Text("Ready"@),
                    ) && items[i].get("status"@) == Some(JsonView::Text("True"@));
                assert(says_ready(items[at]));
            }
        }
    }
}

/// The controller of a pod object is its first owner that is marked as such.
pub proof fn controllers_are_marked(object: JsonView, items: Seq<JsonView>, at: int)
    requires
        object.at("metadata"@, "ownerReferences"@) == Some(JsonView::Array(items)),
        0 <= at < items.len(),
        items[at].get("controller"@) == Some(JsonView::Bool(true)),
        forall|i: int|
            0 <= i < at ==> (#[trigger] items[i]).get("controller"@) != Some(JsonView::Bool(true)),
    ensures
        pod_of_json(object) matches Some(pod) ==> match (
            as_text(items[at].get("kind"@)),
            as_text(items[at].get("uid"@)),
        ) {
            (Some(kind), Some(uid)) => pod.owner == Some(OwnerView { kind, uid }),
            _ => pod.owner is None,
        },
{
    let test = |item: JsonView| controls(item);
    assert forall|i: int| 0 <= i < at implies !test(#[trigger] items[i]) by {
        assert(items[i].get("controller"@) != Some(JsonView::Bool(true)));
    }
    first_match_found(items, test, at);
}

/// The number that a JSON value is.
pub open spec fn is_number(value: Option<JsonView>, number: i64) -> bool {
    value == Some(JsonView::Number(Some(number)))
}

/// A workload object wants what is scheduled for it or, where nothing is said of
/// that, what its specification asks for or, without that, what its status counts.
/// What is ready is said in the same order.
pub proof fn workload_objects_are_read(object: JsonView, number: i64)
    ensures
        workload_of_json(object) is Ok <==> as_text(object.at("metadata"@, "uid"@)) is Some,
        workload_of_json(object) matches Ok(workload) ==> {
            &&& Some(workload.uid) == as_text(object.at("metadata"@, "uid"@))
            &&& is_number(object.at("status"@, "desiredNumberScheduled"@), number)
                ==> workload.desired == number
            &&& object.at("status"@, "desiredNumberScheduled"@) is None && is_number(
                object.at("spec"@, "replicas"@),
                number,
            ) ==> workload.desired == number
            &&& object.at("status"@, "desiredNumberScheduled"@) is None && object.at(
                "spec"@,
                "replicas"@,
            ) is None && is_number(object.at("status"@, "replicas"@), number) ==> workload.desired
                == number
            &&& is_number(object.at("status"@, "numberReady"@), number) ==> workload.ready == number
            &&& object.at("status"@, "numberReady"@) is None && is_number(
                object.at("status"@, "readyReplicas"@),
                number,
            ) ==> workload.ready == number
            &&& object.at("status"@, "numberReady"@) is None && object.at(
                "status"@,
                "readyReplicas"@,
            ) is None ==> workload.ready == 0
        },
{
}

/// The pods of a saved list are those of its items that have a name, and no
/// others.
pub proof fn saved_lists_are_read(list: JsonView, items: Seq<JsonView>, at: int)
    requires
        list.get("items"@) == Some(JsonView::Array(items)),
        0 <= at < items.len(),
    ensures
        pod_of_json(items[at]) matches Some(pod) ==> pods_of_json(list).contains(pod),
        forall|j: int|
            0 <= j < pods_of_json(list).len() ==> made_of(
                items,
                |item: JsonView| pod_of_json(item),
                #[trigger] pods_of_json(list)[j],
            ),
{
    let read = |item: JsonView| pod_of_json(item);
    selections_have_what_is_made(items, read);
    assert(read(items[at]) == pod_of_json(items[at]));
}

// ------------------------------------------------------------------ selectors --

/// A selector names every label of the workload with its value, in the order they
/// come in. One with expressions or without labels is refused.
pub proof fn selectors_name_every_label(
    object: JsonView,
    selector: JsonView,
    labels: Seq<(Seq<char>, JsonView)>,
    at: int,
)
    requires
        object.at("spec"@, "selector"@) == Some(selector),
        selector.get("matchLabels"@) == Some(JsonView::Object(labels)),
        0 <= at < labels.len(),
    ensures
        (selector.get("matchExpressions"@) matches Some(JsonView::Array(items)) && items.len() > 0)
            ==> selector_of(object) is Err,
        !(selector.get("matchExpressions"@) matches Some(JsonView::Array(items)) && items.len() > 0)
            ==> (selector_of(object) matches Ok(text) && {
            &&& text == joined(label_texts(labels), ","@)
            &&& all_lack(label_texts(labels), ',') ==> pieces(text, ',').len() == labels.len()
                && match labels[at].1 {
                JsonView::Text(value) => pieces(text, ',')[at] == labels[at].0 + "="@ + value,
                _ => pieces(text, ',')[at] == labels[at].0 + "="@,
            }
        }),
{
    let texts = label_texts(labels);
    reveal_strlit(",");
    assert(","@ =~= seq![',']);
    joined_texts_come_apart(texts, ',');
    assert(texts[at] == label_text(labels[at]));
    assert(labels[at].0 + "="@ + Seq::<char>::empty() =~= labels[at].0 + "="@);
}

/// The labels as a selector writes them.
pub open spec fn label_texts(labels: Seq<(Seq<char>, JsonView)>) -> Seq<Seq<char>> {
    labels.map_values(|label: (Seq<char>, JsonView)| label_text(label))
}

/// A workload without a selector, without labels or with no label at all is
/// refused.
pub proof fn selectors_need_labels(object: JsonView)
    ensures
        object.at("spec"@, "selector"@) is None ==> selector_of(object) == Err::<
            Seq<char>,
            Seq<char>,
        >("workload has no spec.selector"@),
        object.at("spec"@, "selector"@) matches Some(selector) ==> (selector.get("matchLabels"@)
            matches Some(JsonView::Object(labels)) && labels.len() == 0 ==> selector_of(object)
            is Err),
        object.at("spec"@, "selector"@) matches Some(selector) ==> (selector.get("matchLabels"@)
            is None ==> selector_of(object) is Err),
{
}

/// A selector with expressions, a pod line without a name and a workload line
/// without a UID are refused in so many words.
pub proof fn refusals_say_why(object: JsonView, selector: JsonView, columns: Seq<Seq<char>>)
    requires
        object.at("spec"@, "selector"@) == Some(selector),
        columns.len() > 1,
        all_lack(columns, '\t'),
        columns[0].len() == 0,
    ensures
        (selector.get("matchExpressions"@) matches Some(JsonView::Array(items)) && items.len() > 0)
            ==> selector_of(object) == Err::<Seq<char>, Seq<char>>(
            "workload selector uses matchExpressions, which cannot be narrowed here; refusing rather than deleting a wider set of pods"@,
        ),
        columns.len() == 7 ==> pod_of_line(written(columns, '\t')) == Err::<
            Option<PodView>,
            Seq<char>,
        >("kubectl returned a pod without a name"@),
{
    pieces_are_what_was_written(columns, '\t');
    assert(written(columns, '\t').len() > 0);
}

/// Line feeds behind the line of a workload change nothing.
pub proof fn line_feeds_change_nothing(line: Seq<char>)
    ensures
        workload_of_line(line.push('\n')) == workload_of_line(line),
{
    assert(line.push('\n').drop_last() =~= line);
    assert(without_newlines(line.push('\n')) == without_newlines(line));
}

/// The ReplicaSets of pods are the owners of that kind that any of the pods has,
/// each of them once.
pub proof fn replica_sets_own_pods(pods: Seq<PodView>, owner: OwnerView)
    ensures
        replica_sets_of(pods).contains(owner) <==> owner.kind == "ReplicaSet"@ && exists|i: int|
            0 <= i < pods.len() && (#[trigger] pods[i]).owner == Some(owner),
        forall|i: int, j: int|
            0 <= i < j < replica_sets_of(pods).len() ==> replica_sets_of(pods)[i]
                != replica_sets_of(pods)[j],
{
    let read = |pod: PodView| replica_set_of(pod);
    let all = selected(pods, read);
    selections_have_what_is_made(pods, read);
    repeats_are_dropped(all, owner);
    if all.contains(owner) {
        let at = choose|j: int| 0 <= j < all.len() && all[j] == owner;
        assert(made_of(pods, read, all[at]));
        let from = choose|i: int| 0 <= i < pods.len() && read(#[trigger] pods[i]) == Some(owner);
        assert(pods[from].owner == Some(owner));
    }
    if owner.kind == "ReplicaSet"@ && exists|i: int|
        0 <= i < pods.len() && (#[trigger] pods[i]).owner == Some(owner) {
        let at = choose|i: int| 0 <= i < pods.len() && (#[trigger] pods[i]).owner == Some(owner);
        assert(read(pods[at]) == Some(owner));
    }
}

proof fn repeats_are_dropped(owners: Seq<OwnerView>, owner: OwnerView)
    ensures
        without_repeats(owners).contains(owner) <==> owners.contains(owner),
        forall|i: int, j: int|
            0 <= i < j < without_repeats(owners).len() ==> without_repeats(owners)[i]
                != without_repeats(owners)[j],
    decreases owners.len(),
{
    if owners.len() > 0 {
        let before = owners.drop_last();
        let kept = without_repeats(before);
        repeats_are_dropped(before, owner);
        assert(owners =~= before.push(owners.last()));
        if owners.contains(owner) && owner != owners.last() {
            let at = choose|i: int| 0 <= i < owners.len() && owners[i] == owner;
            assert(before[at] == owner);
        }
        if before.contains(owner) {
            let at = choose|i: int| 0 <= i < before.len() && before[i] == owner;
            assert(owners[at] == owner);
        }
        assert(owners[owners.len() - 1] == owners.last());
        let all = without_repeats(owners);
        if kept.contains(owner) && !kept.contains(owners.last()) {
            let at = choose|i: int| 0 <= i < kept.len() && kept[i] == owner;
            assert(all[at] == owner);
        }
        if !kept.contains(owners.last()) {
            assert(all[all.len() - 1] == owners.last());
            if all.contains(owner) && owner != owners.last() {
                let at = choose|i: int| 0 <= i < all.len() && all[i] == owner;
                assert(kept[at] == owner);
            }
        }
    }
}

} // verus!
