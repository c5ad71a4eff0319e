//! Pods, their owners and workloads, as the columns that kubectl prints.
use crate::numbers::{read_signed, signed_number};
use crate::sequences::{collected, collected_stops};
use crate::text::{
    chars_of, glue3, lines_of, next_index, next_letter, pieces, same, split, text_lines, text_of,
    text_view, views,
};
use vstd::prelude::*;

verus! {

// ------------------------------------------------------------------- models --

/// Who controls a pod or a ReplicaSet.
#[verifier::ext_equal]
pub struct OwnerView {
    pub kind: Seq<char>,
    pub uid: Seq<char>,
}

/// A pod as the cluster shows it.
#[verifier::ext_equal]
pub struct PodView {
    pub name: Seq<char>,
    pub uid: Option<Seq<char>>,
    pub created: Seq<char>,
    pub terminating: bool,
    pub phase: Seq<char>,
    pub owner: Option<OwnerView>,
    pub ready: bool,
}

/// A workload and how many of its replicas are there.
#[verifier::ext_equal]
pub struct WorkloadView {
    pub uid: Seq<char>,
    pub desired: i64,
    pub ready: i64,
}

/// A pod chosen to be killed.
#[verifier::ext_equal]
pub struct VictimView {
    pub name: Seq<char>,
    pub uid: Option<Seq<char>>,
}

/// Who controls a pod or a ReplicaSet.
#[derive(Debug, PartialEq, Eq)]
pub struct Owner {
    pub kind: String,
    pub uid: String,
}

/// A pod as the cluster shows it.
#[derive(Debug, PartialEq, Eq)]
pub struct Pod {
    pub name: String,
    pub uid: Option<String>,
    pub created: String,
    pub terminating: bool,
    pub phase: String,
    pub owner: Option<Owner>,
    pub ready: bool,
}

/// A workload and how many of its replicas are there.
#[derive(Debug, PartialEq, Eq)]
pub struct Workload {
    pub uid: String,
    pub desired: i64,
    pub ready: i64,
}

/// A pod chosen to be killed.
#[derive(Debug, PartialEq, Eq)]
pub struct Victim {
    pub name: String,
    pub uid: Option<String>,
}

impl Owner {
    pub open spec fn view(&self) -> OwnerView {
        OwnerView { kind: self.kind@, uid: self.uid@ }
    }
}

/// The view of an owner that may be missing.
pub open spec fn owner_view(owner: Option<Owner>) -> Option<OwnerView> {
    match owner {
        Some(owner) => Some(owner@),
        None => None,
    }
}

impl Pod {
    pub open spec fn view(&self) -> PodView {
        PodView {
            name: self.name@,
            uid: text_view(self.uid),
            created: self.created@,
            terminating: self.terminating,
            phase: self.phase@,
            owner: owner_view(self.owner),
            ready: self.ready,
        }
    }
}

impl Workload {
    pub open spec fn view(&self) -> WorkloadView {
        WorkloadView { uid: self.uid@, desired: self.desired, ready: self.ready }
    }
}

impl Victim {
    pub open spec fn view(&self) -> VictimView {
        VictimView { name: self.name@, uid: text_view(self.uid) }
    }
}

pub open spec fn owner_views(owners: Seq<Owner>) -> Seq<OwnerView> {
    owners.map_values(|owner: Owner| owner@)
}

pub open spec fn pod_views(pods: Seq<Pod>) -> Seq<PodView> {
    pods.map_values(|pod: Pod| pod@)
}

pub open spec fn victim_views(victims: Seq<Victim>) -> Seq<VictimView> {
    victims.map_values(|victim: Victim| victim@)
}

// ------------------------------------------------------------ kubectl lines --

/// An owner written as `kind:uid`, both parts present.
pub open spec fn owner_of(text: Seq<char>) -> Option<OwnerView> {
    let at = next_index(text, ':', 0);
    if 0 < at < text.len() - 1 {
        Some(OwnerView { kind: text.take(at), uid: text.skip(at + 1) })
    } else {
        None
    }
}

/// An owner written as `kind:uid`.
pub fn owner(value: &str) -> (found: Option<Owner>)
    ensures
        owner_view(found) == owner_of(value@),
{
    let letters = chars_of(value);
    let at = next_letter(&letters, ':', 0);
    if 0 < at && at < letters.len() && at + 1 < letters.len() {
        let found = Owner {
            kind: text_of(&letters, 0, at),
            uid: text_of(&letters, at + 1, letters.len()),
        };
        assert(found.kind@ =~= value@.take(at as int));
        assert(found.uid@ =~= value@.skip(at + 1));
        Some(found)
    } else {
        None
    }
}

/// What is said of a line that does not have the columns it should.
pub open spec fn columns_error(label: Seq<char>) -> Seq<char> {
    "invalid kubectl "@ + label + " output"@
}

/// The columns of a line, which have to be `expected` many.
pub fn fields(line: &str, expected: usize, label: &str) -> (columns: Result<Vec<String>, String>)
    ensures
        match columns {
            Ok(columns) => views(columns@) == pieces(line@, '\t') && columns@.len() == expected,
            Err(message) => pieces(line@, '\t').len() != expected && message@ == columns_error(
                label@,
            ),
        },
{
    let columns = split(line, '\t');
    assert(views(columns@).len() == columns@.len());
    if columns.len() != expected {
        return Err(glue3("invalid kubectl ", label, " output"));
    }
    Ok(columns)
}

/// The pod of a line of the pod list. A blank line is none, and a line that the
/// listing could not have printed is refused.
pub open spec fn pod_of_line(line: Seq<char>) -> Result<Option<PodView>, Seq<char>> {
    let columns = pieces(line, '\t');
    if line.len() == 0 {
        Ok(None)
    } else if columns.len() != 7 {
        Err(columns_error("pod list"@))
    } else if columns[0].len() == 0 {
        Err("kubectl returned a pod without a name"@)
    } else {
        Ok(
            Some(
                PodView {
                    name: columns[0],
                    uid: if columns[1].len() == 0 {
                        None
                    } else {
                        Some(columns[1])
                    },
                    created: columns[2],
                    terminating: columns[3].len() > 0,
                    phase: columns[4],
                    owner: owner_of(columns[5]),
                    ready: columns[6] == "True"@,
                },
            ),
        )
    }
}

/// The pods of a printed pod list.
pub open spec fn pods_of_lines(lines: Seq<Seq<char>>) -> Result<Seq<PodView>, Seq<char>> {
    collected(lines, |line: Seq<char>| pod_of_line(line))
}

fn pod_from_line(line: &str) -> (pod: Result<Option<Pod>, String>)
    ensures
        match pod {
            Ok(Some(pod)) => pod_of_line(line@) == Ok::<Option<PodView>, Seq<char>>(Some(pod@)),
            Ok(None) => pod_of_line(line@) == Ok::<Option<PodView>, Seq<char>>(None),
            Err(message) => pod_of_line(line@) == Err::<Option<PodView>, Seq<char>>(message@),
        },
{
    if line.is_empty() {
        return Ok(None);
    }
    let columns = match fields(line, 7, "pod list") {
        Ok(columns) => columns,
        Err(message) => {
            return Err(message);
        },
    };
    let ghost parts = pieces(line@, '\t');
    assert forall|i: int| 0 <= i < 7 implies (#[trigger] columns@[i])@ == parts[i] by {
        assert(views(columns@)[i] == columns@[i]@);
    }
    if columns[0].as_str().is_empty() {
        return Err("kubectl returned a pod without a name".to_owned());
    }
    let uid = if columns[1].as_str().is_empty() {
        None
    } else {
        Some(columns[1].clone())
    };
    Ok(
        Some(
            Pod {
                name: columns[0].clone(),
                uid,
                created: columns[2].clone(),
                terminating: !columns[3].as_str().is_empty(),
                phase: columns[4].clone(),
                owner: owner(columns[5].as_str()),
                ready: same(columns[6].as_str(), "True"),
            },
        ),
    )
}

/// Reads a printed pod list.
pub fn parse_pod_lines(output: &str) -> (pods: Result<Vec<Pod>, String>)
    ensures
        match pods {
            Ok(pods) => pods_of_lines(text_lines(output@)) == Ok::<Seq<PodView>, Seq<char>>(
                pod_views(pods@),
            ),
            Err(message) => pods_of_lines(text_lines(output@)) == Err::<Seq<PodView>, Seq<char>>(
                message@,
            ),
        },
{
    let lines = lines_of(output);
    let ghost all = text_lines(output@);
    let ghost read = |line: Seq<char>| pod_of_line(line);
    let mut pods: Vec<Pod> = Vec::new();
    let mut at: usize = 0;
    assert(pod_views(pods@) =~= Seq::<PodView>::empty());
    while at < lines.len()
        invariant
            at <= lines@.len(),
            views(lines@) == all,
            read == (|line: Seq<char>| pod_of_line(line)),
            collected(all.take(at as int), read) == Ok::<Seq<PodView>, Seq<char>>(
                pod_views(pods@),
            ),
            all == text_lines(output@),
        decreases lines@.len() - at,
    {
        assert(all.take(at + 1).drop_last() =~= all.take(at as int));
        assert(all.take(at + 1).last() == lines@[at as int]@);
        let ghost before = pods@;
        match pod_from_line(lines[at].as_str()) {
            Ok(Some(pod)) => {
                pods.push(pod);
                assert(pod_views(pods@) =~= pod_views(before).push(pod@));
            },
            Ok(None) => {},
            Err(message) => {
                proof {
                    collected_stops(all, read, at + 1);
                }
                return Err(message);
            },
        }
        at = at + 1;
    }
    assert(all.take(at as int) =~= all);
    Ok(pods)
}

/// The ReplicaSet of a line of the ReplicaSet list, where the deployment
/// controls it.
pub open spec fn replica_set_of_line(line: Seq<char>, deployment_uid: Seq<char>) -> Result<
    Option<OwnerView>,
    Seq<char>,
> {
    let columns = pieces(line, '\t');
    if line.len() == 0 {
        Ok(None)
    } else if columns.len() != 2 {
        Err(columns_error("ReplicaSet list"@))
    } else if owner_of(columns[1]) == Some(
        OwnerView { kind: "Deployment"@, uid: deployment_uid },
    ) && columns[0].len() > 0 {
        Ok(Some(OwnerView { kind: "ReplicaSet"@, uid: columns[0] }))
    } else {
        Ok(None)
    }
}

/// The ReplicaSets of a deployment in a printed list.
pub open spec fn replica_sets_of_lines(
    lines: Seq<Seq<char>>,
    deployment_uid: Seq<char>,
) -> Result<Seq<OwnerView>, Seq<char>> {
    collected(lines, |line: Seq<char>| replica_set_of_line(line, deployment_uid))
}

fn replica_set_from_line(line: &str, deployment_uid: &str) -> (owned: Result<Option<Owner>, String>)
    ensures
        match owned {
            Ok(Some(found)) => replica_set_of_line(line@, deployment_uid@) == Ok::<
                Option<OwnerView>,
                Seq<char>,
            >(Some(found@)),
            Ok(None) => replica_set_of_line(line@, deployment_uid@) == Ok::<
                Option<OwnerView>,
                Seq<char>,
            >(None),
            Err(message) => replica_set_of_line(line@, deployment_uid@) == Err::<
                Option<OwnerView>,
                Seq<char>,
            >(message@),
        },
{
    if line.is_empty() {
        return Ok(None);
    }
    let columns = match fields(line, 2, "ReplicaSet list") {
        Ok(columns) => columns,
        Err(message) => {
            return Err(message);
        },
    };
    let ghost parts = pieces(line@, '\t');
    assert forall|i: int| 0 <= i < 2 implies (#[trigger] columns@[i])@ == parts[i] by {
        assert(views(columns@)[i] == columns@[i]@);
    }
    let controlled = match owner(columns[1].as_str()) {
        Some(found) => same(found.kind.as_str(), "Deployment") && same(
            found.uid.as_str(),
            deployment_uid,
        ),
        None => false,
    };
    if controlled && !columns[0].as_str().is_empty() {
        Ok(Some(Owner { kind: "ReplicaSet".to_owned(), uid: columns[0].clone() }))
    } else {
        Ok(None)
    }
}

/// Reads the ReplicaSets of a deployment from a printed list.
pub fn parse_replica_set_lines(output: &str, deployment_uid: &str) -> (owners: Result<
    Vec<Owner>,
    String,
>)
    ensures
        match owners {
            Ok(owners) => replica_sets_of_lines(text_lines(output@), deployment_uid@) == Ok::<
                Seq<OwnerView>,
                Seq<char>,
            >(owner_views(owners@)),
            Err(message) => replica_sets_of_lines(text_lines(output@), deployment_uid@) == Err::<
                Seq<OwnerView>,
                Seq<char>,
            >(message@),
        },
{
    let lines = lines_of(output);
    let ghost all = text_lines(output@);
    let ghost read = |line: Seq<char>| replica_set_of_line(line, deployment_uid@);
    let mut owners: Vec<Owner> = Vec::new();
    let mut at: usize = 0;
    assert(owner_views(owners@) =~= Seq::<OwnerView>::empty());
    while at < lines.len()
        invariant
            at <= lines@.len(),
            views(lines@) == all,
            read == (|line: Seq<char>| replica_set_of_line(line, deployment_uid@)),
            collected(all.take(at as int), read) == Ok::<Seq<OwnerView>, Seq<char>>(
                owner_views(owners@),
            ),
            all == text_lines(output@),
        decreases lines@.len() - at,
    {
        assert(all.take(at + 1).drop_last() =~= all.take(at as int));
        assert(all.take(at + 1).last() == lines@[at as int]@);
        let ghost before = owners@;
        match replica_set_from_line(lines[at].as_str(), deployment_uid) {
            Ok(Some(found)) => {
                owners.push(found);
                assert(owner_views(owners@) =~= owner_views(before).push(found@));
            },
            Ok(None) => {},
            Err(message) => {
                proof {
                    collected_stops(all, read, at + 1);
                }
                return Err(message);
            },
        }
        at = at + 1;
    }
    assert(all.take(at as int) =~= all);
    Ok(owners)
}

/// A whole number, or zero where the text is none.
pub open spec fn number_of(text: Seq<char>) -> int {
    match signed_number(text) {
        Some(number) => number,
        None => 0,
    }
}

/// A whole number, or zero where the text is none.
pub fn number(value: &str) -> (number: i64)
    ensures
        number == number_of(value@),
{
    match read_signed(value) {
        Some(number) => number,
        None => 0,
    }
}

/// A text without the line feeds at its end.
pub open spec fn without_newlines(text: Seq<char>) -> Seq<char>
    decreases text.len(),
{
    if text.len() > 0 && text.last() == '\n' {
        without_newlines(text.drop_last())
    } else {
        text
    }
}

/// The workload of its printed line. A DaemonSet counts its replicas in columns
/// of its own, and those answer first where they say anything.
pub open spec fn workload_of_line(output: Seq<char>) -> Result<WorkloadView, Seq<char>> {
    let columns = pieces(without_newlines(output), '\t');
    if columns.len() != 6 {
        Err(columns_error("workload"@))
    } else if columns[0].len() == 0 {
        Err("selected workload has no UID"@)
    } else {
        let desired = if number_of(columns[4]) > 0 {
            number_of(columns[4])
        } else if number_of(columns[1]) > 0 {
            number_of(columns[1])
        } else {
            number_of(columns[2])
        };
        let ready = if number_of(columns[5]) > 0 {
            number_of(columns[5])
        } else {
            number_of(columns[3])
        };
        Ok(WorkloadView { uid: columns[0], desired: desired as i64, ready: ready as i64 })
    }
}

fn cut_newlines(text: &str) -> (rest: String)
    ensures
        rest@ == without_newlines(text@),
{
    let letters = chars_of(text);
    let mut to: usize = letters.len();
    assert(letters@.take(to as int) =~= letters@);
    while to > 0 && letters[to - 1] == '\n'
        invariant
            to <= letters@.len(),
            without_newlines(letters@.take(to as int)) == without_newlines(letters@),
        decreases to,
    {
        assert(letters@.take(to as int).drop_last() =~= letters@.take(to - 1));
        to = to - 1;
    }
    assert(letters@.take(to as int) =~= letters@.subrange(0, to as int));
    text_of(&letters, 0, to)
}

/// Reads the printed line of a workload.
pub fn parse_workload_line(output: &str) -> (workload: Result<Workload, String>)
    ensures
        match workload {
            Ok(workload) => workload_of_line(output@) == Ok::<WorkloadView, Seq<char>>(workload@),
            Err(message) => workload_of_line(output@) == Err::<WorkloadView, Seq<char>>(message@),
        },
{
    let line = cut_newlines(output);
    let columns = match fields(line.as_str(), 6, "workload") {
        Ok(columns) => columns,
        Err(message) => {
            return Err(message);
        },
    };
    let ghost parts = pieces(line@, '\t');
    assert forall|i: int| 0 <= i < 6 implies (#[trigger] columns@[i])@ == parts[i] by {
        assert(views(columns@)[i] == columns@[i]@);
    }
    if columns[0].as_str().is_empty() {
        return Err("selected workload has no UID".to_owned());
    }
    let scheduled = number(columns[4].as_str());
    let desired = if scheduled > 0 {
        scheduled
    } else {
        let wanted = number(columns[1].as_str());
        if wanted > 0 {
            wanted
        } else {
            number(columns[2].as_str())
        }
    };
    let counted = number(columns[5].as_str());
    let ready = if counted > 0 {
        counted
    } else {
        number(columns[3].as_str())
    };
    Ok(Workload { uid: columns[0].clone(), desired, ready })
}

} // verus!
