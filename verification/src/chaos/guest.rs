//! The side of a run that decides, as a guest of the host: what it reads in the
//! host's answers, and the saved lists that stand in for a cluster.
use crate::chaos::host::{HostRequest, HostRequestView};
use crate::chaos::objects::{
    pods_from_value, pods_of_json, replica_sets_of, saved_replica_sets, workload_from_value,
    workload_of_json,
};
use crate::chaos::pods::{
    owner_views, parse_pod_lines, parse_replica_set_lines, parse_workload_line, pod_views,
    pods_of_lines, replica_sets_of_lines, workload_of_line, Owner, Pod, Workload, WorkloadView,
};
use crate::chaos::run::{
    answers, copies, next, Action, ActionView, Event, EventView, RunView, Stage,
};
use crate::encoding::{read_utf8, utf8_problem};
use crate::frame::answer_view;
use crate::json::{parsed_json, read_json, tidy, Json, JsonView};
use crate::numbers::{read_unsigned, unsigned_number};
use crate::text::{glue2, glue4, text_lines, trim, trimmed};
use vstd::prelude::*;
use vstd::utf8::{decode_utf8, valid_utf8};

verus! {

/// The text of a host's answer.
pub open spec fn text_of_answer(answer: Result<Seq<u8>, Seq<char>>) -> Result<Seq<char>, Seq<char>> {
    match answer {
        Err(message) => Err(message),
        Ok(body) => if valid_utf8(body) {
            Ok(decode_utf8(body))
        } else {
            Err("host returned non-UTF-8: "@ + utf8_problem(body))
        },
    }
}

/// The text of a host's answer.
pub fn call_host_text(answer: Result<Vec<u8>, String>) -> (text: Result<String, String>)
    ensures
        match text {
            Ok(text) => text_of_answer(answer_view(answer)) == Ok::<
                Seq<char>,
                Seq<char>,
            >(text@),
            Err(message) => text_of_answer(answer_view(answer)) == Err::<
                Seq<char>,
                Seq<char>,
            >(message@),
        },
{
    match answer {
        Err(message) => Err(message),
        Ok(body) => match read_utf8(body.as_slice()) {
            Ok(text) => Ok(text),
            Err(problem) => Err(glue2("host returned non-UTF-8: ", problem.as_str())),
        },
    }
}

/// The milliseconds that a host's clock shows, or zero where its answer is no
/// number.
pub open spec fn millis_of(answer: Option<Seq<char>>) -> nat {
    match answer {
        Some(text) => match unsigned_number(trimmed(text), u64::MAX as nat) {
            Some(millis) => millis,
            None => 0,
        },
        None => 0,
    }
}

/// The milliseconds that a host's clock shows.
pub fn monotonic(answer: Result<String, String>) -> (millis: u64)
    ensures
        millis == millis_of(
            match answer {
                Ok(text) => Some(text@),
                Err(_) => None,
            },
        ),
{
    match answer {
        Ok(text) => match read_unsigned(trim(text.as_str()).as_str(), u64::MAX) {
            Some(millis) => millis,
            None => 0,
        },
        Err(_) => 0,
    }
}

/// How a guest waits: it asks its host to.
pub fn nap(nanos: u128) -> (request: HostRequest)
    ensures
        request@ == (HostRequestView::Sleep {
            millis: #[verifier::truncate]
            ((nanos / 1_000_000) as u64),
        }),
{
    HostRequest::Sleep {
        millis: #[verifier::truncate]
        ((nanos / 1_000_000) as u64),
    }
}

// --------------------------------------------------------------- conversation --

/// How many nanoseconds pass between two looks at the workload.
pub const POLL_NANOS: u128 = 1_000_000_000;

/// What a guest asks its host for to do what a run wants next.
pub open spec fn asked_of(action: ActionView, selector: Seq<char>) -> Option<HostRequestView> {
    match action {
        ActionView::ReadWorkload => Some(HostRequestView::Workload),
        ActionView::ListReplicaSets { .. } => Some(HostRequestView::ReplicaSets { selector }),
        ActionView::ListPods => Some(HostRequestView::Pods { selector }),
        ActionView::Delete { pods } => Some(HostRequestView::Delete { pods }),
        ActionView::ReadClock => Some(HostRequestView::Now),
        ActionView::Pause => Some(HostRequestView::Sleep { millis: 1000 }),
        ActionView::Finish => None,
    }
}

/// What a guest asks its host for to do what a run wants next. A run that is
/// over wants nothing.
pub fn ask(action: &Action, selector: &str) -> (request: Option<HostRequest>)
    ensures
        match request {
            Some(request) => asked_of(action@, selector@) == Some(request@),
            None => asked_of(action@, selector@) is None,
        },
{
    match action {
        Action::ReadWorkload => Some(HostRequest::Workload),
        Action::ListReplicaSets { .. } => Some(
            HostRequest::ReplicaSets { selector: selector.to_owned() },
        ),
        Action::ListPods => Some(HostRequest::Pods { selector: selector.to_owned() }),
        Action::Delete { pods } => Some(HostRequest::Delete { pods: copies(pods) }),
        Action::ReadClock => Some(HostRequest::Now),
        Action::Pause => Some(nap(POLL_NANOS)),
        Action::Finish => None,
    }
}

/// What a run is told of the host's answer to what it wanted.
pub open spec fn heard_of(action: ActionView, answer: Result<Seq<u8>, Seq<char>>) -> Option<
    EventView,
> {
    let text = text_of_answer(answer);
    match action {
        ActionView::ReadWorkload => Some(
            EventView::Workload(
                match text {
                    Ok(text) => workload_of_line(text),
                    Err(message) => Err(message),
                },
            ),
        ),
        ActionView::ListReplicaSets { uid } => Some(
            EventView::ReplicaSets(
                match text {
                    Ok(text) => replica_sets_of_lines(text_lines(text), uid),
                    Err(message) => Err(message),
                },
            ),
        ),
        ActionView::ListPods => Some(
            EventView::Pods(
                match text {
                    Ok(text) => pods_of_lines(text_lines(text)),
                    Err(message) => Err(message),
                },
            ),
        ),
        ActionView::Delete { .. } => Some(
            EventView::Deleted(
                match answer {
                    Ok(_) => Ok(()),
                    Err(message) => Err(message),
                },
            ),
        ),
        ActionView::ReadClock => Some(
            EventView::Clock(
                (millis_of(
                    match text {
                        Ok(text) => Some(text),
                        Err(_) => None,
                    },
                ) * 1_000_000) as u128,
            ),
        ),
        ActionView::Pause => Some(EventView::Paused),
        ActionView::Finish => None,
    }
}

/// What a run is told of the host's answer to what it wanted. Whatever becomes of
/// a pause, the run goes on after it.
pub fn hear(action: &Action, answer: Result<Vec<u8>, String>) -> (event: Option<Event>)
    ensures
        match event {
            Some(event) => heard_of(action@, answer_view(answer)) == Some(event@),
            None => heard_of(action@, answer_view(answer)) is None,
        },
{
    match action {
        Action::ReadWorkload => Some(
            Event::Workload(
                match call_host_text(answer) {
                    Ok(text) => parse_workload_line(text.as_str()),
                    Err(message) => Err(message),
                },
            ),
        ),
        Action::ListReplicaSets { uid } => Some(
            Event::ReplicaSets(
                match call_host_text(answer) {
                    Ok(text) => parse_replica_set_lines(text.as_str(), uid.as_str()),
                    Err(message) => Err(message),
                },
            ),
        ),
        Action::ListPods => Some(
            Event::Pods(
                match call_host_text(answer) {
                    Ok(text) => parse_pod_lines(text.as_str()),
                    Err(message) => Err(message),
                },
            ),
        ),
        Action::Delete { .. } => Some(
            Event::Deleted(
                match answer {
                    Ok(_) => Ok(()),
                    Err(message) => Err(message),
                },
            ),
        ),
        Action::ReadClock => {
            let millis = monotonic(call_host_text(answer));
            Some(Event::Clock(millis as u128 * 1_000_000))
        },
        Action::Pause => Some(Event::Paused),
        Action::Finish => None,
    }
}

/// What a guest tells its run is always of the sort that the run is waiting for,
/// until the run is over.
pub proof fn guests_answer_in_kind(
    run: RunView,
    event: EventView,
    answer: Result<Seq<u8>, Seq<char>>,
)
    requires
        answers(run.stage, event),
    ensures
        next(run, event) matches Ok(step) ==> match heard_of(step.1, answer) {
            Some(heard) => answers(step.0.stage, heard),
            None => step.0.stage is Done && step.1 is Finish,
        },
        heard_of(ActionView::ReadWorkload, answer) matches Some(heard) && answers(
            Stage::Workload,
            heard,
        ),
{
}

// ---------------------------------------------------------------- saved lists --

/// A captured pod list that stands in for a cluster. It can never delete.
pub struct Saved {
    pub pods: Json,
    pub workload: Json,
}

/// The pod list of a saved file.
pub open spec fn saved_of(path: Seq<char>, bytes: Seq<u8>) -> Result<JsonView, Seq<char>> {
    match parsed_json(bytes) {
        Ok(pods) => Ok(pods),
        Err(message) => Err("invalid saved pod list "@ + path + ": "@ + message),
    }
}

impl Saved {
    /// Opens a saved pod list, with the selected object as its workload.
    pub fn open(path: &str, bytes: &[u8], object: Option<Json>) -> (saved: Result<Saved, String>)
        ensures
            match saved {
                Ok(saved) => saved_of(path@, bytes@) == Ok::<JsonView, Seq<char>>(saved.pods@)
                    && tidy(saved.pods@)
                    && saved.workload@ == match object {
                    Some(object) => object@,
                    None => JsonView::Null,
                },
                Err(message) => saved_of(path@, bytes@) == Err::<JsonView, Seq<char>>(message@),
            },
    {
        match read_json(bytes) {
            Ok(pods) => Ok(
                Saved {
                    pods,
                    workload: match object {
                        Some(object) => object,
                        None => Json::Null,
                    },
                },
            ),
            Err(message) => Err(
                glue4("invalid saved pod list ", path, ": ", message.as_str()),
            ),
        }
    }

    /// The saved pods.
    pub fn pods(&self) -> (pods: Vec<Pod>)
        ensures
            pod_views(pods@) == pods_of_json(self.pods@),
    {
        pods_from_value(&self.pods)
    }

    /// The ReplicaSets that own saved pods.
    pub fn replica_sets(&self) -> (owners: Vec<Owner>)
        ensures
            owner_views(owners@) == replica_sets_of(pods_of_json(self.pods@)),
    {
        saved_replica_sets(&self.pods())
    }

    /// The selected workload.
    pub fn workload(&self) -> (workload: Result<Workload, String>)
        ensures
            match workload {
                Ok(workload) => workload_of_json(self.workload@) == Ok::<WorkloadView, Seq<char>>(
                    workload@,
                ),
                Err(message) => workload_of_json(self.workload@) == Err::<
                    WorkloadView,
                    Seq<char>,
                >(message@),
            },
    {
        workload_from_value(&self.workload)
    }

    /// A saved list cannot delete.
    pub fn delete(&self) -> (deleted: Result<(), String>)
        ensures
            deleted matches Err(message) && message@
                == "a saved pod-list replay cannot delete from a cluster"@,
    {
        Err("a saved pod-list replay cannot delete from a cluster".to_owned())
    }
}

} // verus!
