//! A whole run, step by step: what to ask the cluster next, and what to make of
//! its answer.
use crate::chaos::objects::{selector, selector_of};
use crate::chaos::pods::{
    owner_views, pod_views, victim_views, Owner, OwnerView, Pod, PodView, Victim, VictimView,
    Workload, WorkloadView,
};
use crate::chaos::victims::{
    confirm_identities, first_moved, options_of, owners_of, replaced, replacements_ready, victims,
    victims_of, workload_owners, Options, Owners, OwnersView,
};
use crate::json::{as_text, text_of_json, text_or_empty, text_or_nothing, Json, JsonView};
use crate::numbers::{number_text, signed_decimal};
use crate::sequences::{first_match, first_match_found, first_match_missing};
use crate::text::{glue3, glue4, lower, lowercase, text_view, views};
use crate::text_map::TextMap;
use vstd::prelude::*;

verus! {

// --------------------------------------------------------------------- plan --

/// A request to test a workload.
pub struct Request {
    pub schema_version: u32,
    pub context: Option<String>,
    pub namespace: Option<String>,
    pub inputs: TextMap<String>,
    pub object: Option<Json>,
}

/// Where the workload is.
#[verifier::ext_equal]
pub struct ScopeView {
    pub context: Seq<char>,
    pub namespace: Seq<char>,
    pub resource: Seq<char>,
    pub name: Seq<char>,
}

/// Where the workload is.
#[derive(Debug, PartialEq, Eq)]
pub struct Scope {
    pub context: String,
    pub namespace: String,
    pub resource: String,
    pub name: String,
}

impl Scope {
    pub open spec fn view(&self) -> ScopeView {
        ScopeView {
            context: self.context@,
            namespace: self.namespace@,
            resource: self.resource@,
            name: self.name@,
        }
    }
}

/// What a run is about, once the request has been accepted.
#[verifier::ext_equal]
pub struct PlanView {
    pub kind: Seq<char>,
    pub scope: ScopeView,
    pub options: Options,
    pub selector: Seq<char>,
}

/// What a run is about, once the request has been accepted.
pub struct Plan {
    pub kind: String,
    pub scope: Scope,
    pub options: Options,
    pub selector: String,
}

impl Plan {
    pub open spec fn view(&self) -> PlanView {
        PlanView {
            kind: self.kind@,
            scope: self.scope@,
            options: self.options,
            selector: self.selector@,
        }
    }
}

/// The text, or an empty one.
pub open spec fn or_blank(text: Option<Seq<char>>) -> Seq<char> {
    match text {
        Some(text) => text,
        None => Seq::empty(),
    }
}

/// The namespace of a request: the one of the object, or the one of the request
/// where the object names none.
pub open spec fn namespace_of(object: JsonView, requested: Option<Seq<char>>) -> Seq<char> {
    match as_text(object.at("metadata"@, "namespace"@)) {
        Some(namespace) => namespace,
        None => or_blank(requested),
    }
}

/// The plan of a request, or why it is refused.
pub open spec fn plan_of(request: &Request) -> Result<PlanView, Seq<char>> {
    if request.schema_version != 1 {
        Err("unsupported request schema_version"@)
    } else {
        match request.object {
            Some(object) => plan_of_object(request, object@),
            None => Err("select a workload to test"@),
        }
    }
}

/// The plan of a request for an object, or why it is refused.
pub open spec fn plan_of_object(request: &Request, object: JsonView) -> Result<
    PlanView,
    Seq<char>,
> {
    let kind = text_or_empty(object.get("kind"@));
    let namespace = namespace_of(object, text_view(request.namespace));
    match as_text(object.at("metadata"@, "name"@)) {
        Some(name) => if namespace.len() == 0 {
            Err("a namespace is required; this never runs cluster-wide"@)
        } else {
            match (options_of(request.inputs@), selector_of(object)) {
                (Ok(options), Ok(selector)) => Ok(
                    PlanView {
                        kind,
                        scope: ScopeView {
                            context: or_blank(text_view(request.context)),
                            namespace,
                            resource: kind.map_values(|letter: char| lower(letter)),
                            name,
                        },
                        options,
                        selector,
                    },
                ),
                (Err(message), _) => Err(message),
                (Ok(_), Err(message)) => Err(message),
            }
        },
        None => Err("selected object has no name"@),
    }
}

fn copy_or_blank(text: &Option<String>) -> (copy: String)
    ensures
        copy@ == or_blank(text_view(*text)),
{
    match text {
        Some(text) => text.clone(),
        None => String::new(),
    }
}

/// Accepts a request or refuses it.
pub fn plan(request: &Request) -> (accepted: Result<Plan, String>)
    ensures
        match accepted {
            Ok(accepted) => plan_of(request) == Ok::<PlanView, Seq<char>>(accepted@),
            Err(message) => plan_of(request) == Err::<PlanView, Seq<char>>(message@),
        },
{
    if request.schema_version != 1 {
        return Err("unsupported request schema_version".to_owned());
    }
    let object = match &request.object {
        Some(object) => object,
        None => {
            return Err("select a workload to test".to_owned());
        },
    };
    let kind = text_or_nothing(object.get("kind"));
    let name = match text_of_json(object.at("metadata", "name")) {
        Some(name) => name,
        None => {
            return Err("selected object has no name".to_owned());
        },
    };
    let namespace = match text_of_json(object.at("metadata", "namespace")) {
        Some(namespace) => namespace,
        None => copy_or_blank(&request.namespace),
    };
    if namespace.as_str().is_empty() {
        return Err("a namespace is required; this never runs cluster-wide".to_owned());
    }
    let options = match Options::from(&request.inputs) {
        Ok(options) => options,
        Err(message) => {
            return Err(message);
        },
    };
    let labels = match selector(object) {
        Ok(labels) => labels,
        Err(message) => {
            return Err(message);
        },
    };
    let resource = lowercase(kind.as_str());
    Ok(
        Plan {
            kind,
            scope: Scope { context: copy_or_blank(&request.context), namespace, resource, name },
            options,
            selector: labels,
        },
    )
}

// ------------------------------------------------------------------ outcome --

/// What came of a run. Times are in nanoseconds.
#[verifier::ext_equal]
pub struct OutcomeView {
    pub killed: Seq<Seq<char>>,
    pub delete_succeeded: bool,
    pub measurement_error: Option<Seq<char>>,
    pub recovered: Option<u128>,
    pub desired: i64,
    pub ready: i64,
    pub polls: u64,
}

/// What came of a run.
#[derive(Debug, PartialEq, Eq)]
pub struct Outcome {
    pub killed: Vec<String>,
    pub delete_succeeded: bool,
    pub measurement_error: Option<String>,
    /// How many nanoseconds the recovery took.
    pub recovered: Option<u128>,
    pub desired: i64,
    pub ready: i64,
    pub polls: u64,
}

impl Outcome {
    pub open spec fn view(&self) -> OutcomeView {
        OutcomeView {
            killed: views(self.killed@),
            delete_succeeded: self.delete_succeeded,
            measurement_error: text_view(self.measurement_error),
            recovered: self.recovered,
            desired: self.desired,
            ready: self.ready,
            polls: self.polls,
        }
    }
}

// -------------------------------------------------------------------- steps --

/// What a run is waiting for.
#[derive(Clone, Copy, Debug, PartialEq, Eq, Structural)]
pub enum Stage {
    /// The workload, before anything else.
    Workload,
    /// The ReplicaSets of a Deployment.
    ReplicaSets,
    /// The pods to choose from.
    Pods,
    /// The pods once more, to confirm the chosen ones.
    Recheck,
    /// The deletion.
    Delete,
    /// The time at which the deletion was done.
    Start,
    /// The time at which to decide whether to go on waiting.
    Clock,
    /// The end of a pause.
    Pause,
    /// The workload after a pause.
    State,
    /// The pods of a workload that counts itself whole.
    Replacements,
    /// The time at which the workload was whole.
    End,
    /// Nothing: the run is over.
    Done,
}

/// What a run asks for next.
#[verifier::ext_equal]
pub enum ActionView {
    ReadWorkload,
    ListReplicaSets { uid: Seq<char> },
    ListPods,
    Delete { pods: Seq<Seq<char>> },
    ReadClock,
    Pause,
    Finish,
}

/// What a run asks for next.
#[derive(Debug, PartialEq, Eq)]
pub enum Action {
    ReadWorkload,
    ListReplicaSets { uid: String },
    ListPods,
    Delete { pods: Vec<String> },
    ReadClock,
    Pause,
    Finish,
}

impl Action {
    pub open spec fn view(&self) -> ActionView {
        match self {
            Action::ReadWorkload => ActionView::ReadWorkload,
            Action::ListReplicaSets { uid } => ActionView::ListReplicaSets { uid: uid@ },
            Action::ListPods => ActionView::ListPods,
            Action::Delete { pods } => ActionView::Delete { pods: views(pods@) },
            Action::ReadClock => ActionView::ReadClock,
            Action::Pause => ActionView::Pause,
            Action::Finish => ActionView::Finish,
        }
    }
}

/// What the cluster answered.
pub enum EventView {
    Workload(Result<WorkloadView, Seq<char>>),
    ReplicaSets(Result<Seq<OwnerView>, Seq<char>>),
    Pods(Result<Seq<PodView>, Seq<char>>),
    Deleted(Result<(), Seq<char>>),
    Clock(u128),
    Paused,
}

/// What the cluster answered.
pub enum Event {
    Workload(Result<Workload, String>),
    ReplicaSets(Result<Vec<Owner>, String>),
    Pods(Result<Vec<Pod>, String>),
    Deleted(Result<(), String>),
    /// The time in nanoseconds.
    Clock(u128),
    Paused,
}

impl Event {
    pub open spec fn view(&self) -> EventView {
        match self {
            Event::Workload(Ok(workload)) => EventView::Workload(Ok(workload@)),
            Event::Workload(Err(message)) => EventView::Workload(Err(message@)),
            Event::ReplicaSets(Ok(owners)) => EventView::ReplicaSets(Ok(owner_views(owners@))),
            Event::ReplicaSets(Err(message)) => EventView::ReplicaSets(Err(message@)),
            Event::Pods(Ok(pods)) => EventView::Pods(Ok(pod_views(pods@))),
            Event::Pods(Err(message)) => EventView::Pods(Err(message@)),
            Event::Deleted(Ok(_)) => EventView::Deleted(Ok(())),
            Event::Deleted(Err(message)) => EventView::Deleted(Err(message@)),
            Event::Clock(time) => EventView::Clock(*time),
            Event::Paused => EventView::Paused,
        }
    }
}

/// A run between two steps.
#[verifier::ext_equal]
pub struct RunView {
    pub plan: PlanView,
    pub stage: Stage,
    pub owners: Seq<OwnerView>,
    pub victims: Seq<VictimView>,
    pub started: u128,
    pub outcome: OutcomeView,
}

/// A run between two steps.
pub struct Run {
    pub plan: Plan,
    pub stage: Stage,
    pub owners: Vec<Owner>,
    pub victims: Vec<Victim>,
    pub started: u128,
    pub outcome: Outcome,
}

impl Run {
    pub open spec fn view(&self) -> RunView {
        RunView {
            plan: self.plan@,
            stage: self.stage,
            owners: owner_views(self.owners@),
            victims: victim_views(self.victims@),
            started: self.started,
            outcome: self.outcome@,
        }
    }
}

/// Whether an answer is of the sort that a run is waiting for.
pub open spec fn answers(stage: Stage, event: EventView) -> bool {
    match stage {
        Stage::Workload | Stage::State => event is Workload,
        Stage::ReplicaSets => event is ReplicaSets,
        Stage::Pods | Stage::Recheck | Stage::Replacements => event is Pods,
        Stage::Delete => event is Deleted,
        Stage::Start | Stage::Clock | Stage::End => event is Clock,
        Stage::Pause => event is Paused,
        Stage::Done => false,
    }
}

/// A run at its beginning.
pub open spec fn begun(plan: PlanView) -> RunView {
    RunView {
        plan,
        stage: Stage::Workload,
        owners: Seq::empty(),
        victims: Seq::empty(),
        started: 0,
        outcome: OutcomeView {
            killed: Seq::empty(),
            delete_succeeded: false,
            measurement_error: None,
            recovered: None,
            desired: 0,
            ready: 0,
            polls: 0,
        },
    }
}

/// The name of the workload in messages.
pub open spec fn workload_name(plan: PlanView) -> Seq<char> {
    plan.kind + "/"@ + plan.scope.name
}

/// What a step leads to: a run that asks for something, or the end of the run
/// with a message.
pub type Step = Result<(RunView, ActionView), Seq<char>>;

/// The step at which the workload was read for the first time.
pub open spec fn after_workload(run: RunView, answer: Result<WorkloadView, Seq<char>>) -> Step {
    match answer {
        Err(message) => Err(message),
        Ok(workload) => if workload.desired <= 0 {
            Err(workload_name(run.plan) + " has no desired replicas; nothing can recover"@)
        } else if run.plan.options.count >= workload.desired {
            Err(
                "count must be less than the workload's "@ + signed_decimal(workload.desired as int)
                    + " desired replicas"@,
            )
        } else {
            let counted = RunView {
                outcome: OutcomeView {
                    desired: workload.desired,
                    ready: workload.ready,
                    ..run.outcome
                },
                ..run
            };
            match owners_of(run.plan.kind, workload.uid) {
                Err(message) => Err(message),
                Ok(OwnersView::Listed) => Ok(
                    (
                        RunView { stage: Stage::ReplicaSets, ..counted },
                        ActionView::ListReplicaSets { uid: workload.uid },
                    ),
                ),
                Ok(OwnersView::Known(owners)) => Ok(
                    (RunView { stage: Stage::Pods, owners, ..counted }, ActionView::ListPods),
                ),
            }
        },
    }
}

/// The step at which the ReplicaSets were listed.
pub open spec fn after_replica_sets(run: RunView, answer: Result<Seq<OwnerView>, Seq<char>>) -> Step {
    match answer {
        Err(message) => Err(message),
        Ok(owners) => Ok((RunView { stage: Stage::Pods, owners, ..run }, ActionView::ListPods)),
    }
}

/// The names of chosen pods.
pub open spec fn names_of(victims: Seq<VictimView>) -> Seq<Seq<char>> {
    victims.map_values(|victim: VictimView| victim.name)
}

/// What is said of a chosen pod without a UID.
pub open spec fn unverifiable(name: Seq<char>) -> Seq<char> {
    "pod "@ + name
        + " has no UID; refusing to delete a pod whose replacement cannot be verified"@
}

/// The step at which the pods were listed for the first time.
pub open spec fn after_pods(run: RunView, answer: Result<Seq<PodView>, Seq<char>>) -> Step {
    match answer {
        Err(message) => Err(message),
        Ok(pods) => {
            let chosen = victims_of(pods, run.owners, run.plan.options.count as nat);
            let ready = RunView {
                victims: chosen,
                outcome: OutcomeView { killed: names_of(chosen), ..run.outcome },
                ..run
            };
            if chosen.len() == 0 {
                Err(
                    workload_name(run.plan)
                        + " has no running pods owned by this workload to kill; nothing to test"@,
                )
            } else if run.plan.options.dry_run {
                Ok((RunView { stage: Stage::Done, ..ready }, ActionView::Finish))
            } else {
                match first_match(chosen, |victim: VictimView| victim.uid is None) {
                    Some(victim) => Err(unverifiable(victim.name)),
                    None => Ok((RunView { stage: Stage::Recheck, ..ready }, ActionView::ListPods)),
                }
            }
        },
    }
}

/// The step at which the pods were listed again to confirm the chosen ones.
pub open spec fn after_recheck(run: RunView, answer: Result<Seq<PodView>, Seq<char>>) -> Step {
    match answer {
        Err(message) => Err(message),
        Ok(pods) => match first_moved(pods, run.victims) {
            Some(message) => Err(message),
            None => Ok(
                (
                    RunView { stage: Stage::Delete, ..run },
                    ActionView::Delete { pods: run.outcome.killed },
                ),
            ),
        },
    }
}

/// A run that ends because something could not be measured.
pub open spec fn broken_off(run: RunView, message: Seq<char>) -> Step {
    Ok(
        (
            RunView {
                stage: Stage::Done,
                outcome: OutcomeView { measurement_error: Some(message), ..run.outcome },
                ..run
            },
            ActionView::Finish,
        ),
    )
}

/// The step at which the deletion was answered.
pub open spec fn after_delete(run: RunView, answer: Result<(), Seq<char>>) -> Step {
    match answer {
        Err(message) => broken_off(run, message),
        Ok(_) => Ok(
            (
                RunView {
                    stage: Stage::Start,
                    outcome: OutcomeView { delete_succeeded: true, ..run.outcome },
                    ..run
                },
                ActionView::ReadClock,
            ),
        ),
    }
}

/// How much later `now` is, or nothing where it is not.
pub open spec fn since(started: u128, now: u128) -> int {
    if now > started {
        now - started
    } else {
        0
    }
}

/// The step at which it is decided whether to go on waiting.
pub open spec fn after_clock(run: RunView, now: u128) -> Step {
    if since(run.started, now) < run.plan.options.wait * 1_000_000_000 {
        Ok((RunView { stage: Stage::Pause, ..run }, ActionView::Pause))
    } else {
        Ok((RunView { stage: Stage::Done, ..run }, ActionView::Finish))
    }
}

/// The step at which the workload was read after a pause.
pub open spec fn after_state(run: RunView, answer: Result<WorkloadView, Seq<char>>) -> Step {
    match answer {
        Err(message) => broken_off(run, message),
        Ok(workload) => {
            let counted = RunView {
                outcome: OutcomeView {
                    desired: workload.desired,
                    ready: workload.ready,
                    ..run.outcome
                },
                ..run
            };
            if workload.desired > 0 && workload.ready >= workload.desired {
                Ok((RunView { stage: Stage::Replacements, ..counted }, ActionView::ListPods))
            } else {
                Ok((RunView { stage: Stage::Clock, ..counted }, ActionView::ReadClock))
            }
        },
    }
}

/// The step at which the pods of a workload that counts itself whole were
/// listed.
pub open spec fn after_replacements(run: RunView, answer: Result<Seq<PodView>, Seq<char>>) -> Step {
    match answer {
        Err(message) => broken_off(run, message),
        Ok(pods) => if replaced(pods, run.owners, run.victims, run.outcome.desired as int) {
            Ok((RunView { stage: Stage::End, ..run }, ActionView::ReadClock))
        } else {
            Ok((RunView { stage: Stage::Clock, ..run }, ActionView::ReadClock))
        },
    }
}

/// What a run does with an answer.
pub open spec fn next(run: RunView, event: EventView) -> Step {
    match (run.stage, event) {
        (Stage::Workload, EventView::Workload(answer)) => after_workload(run, answer),
        (Stage::ReplicaSets, EventView::ReplicaSets(answer)) => after_replica_sets(run, answer),
        (Stage::Pods, EventView::Pods(answer)) => after_pods(run, answer),
        (Stage::Recheck, EventView::Pods(answer)) => after_recheck(run, answer),
        (Stage::Delete, EventView::Deleted(answer)) => after_delete(run, answer),
        (Stage::Start, EventView::Clock(now)) => Ok(
            (RunView { stage: Stage::Clock, started: now, ..run }, ActionView::ReadClock),
        ),
        (Stage::Clock, EventView::Clock(now)) => after_clock(run, now),
        (Stage::Pause, EventView::Paused) => Ok(
            (
                RunView {
                    stage: Stage::State,
                    outcome: OutcomeView {
                        polls: (run.outcome.polls + 1) as u64,
                        ..run.outcome
                    },
                    ..run
                },
                ActionView::ReadWorkload,
            ),
        ),
        (Stage::State, EventView::Workload(answer)) => after_state(run, answer),
        (Stage::Replacements, EventView::Pods(answer)) => after_replacements(run, answer),
        (Stage::End, EventView::Clock(now)) => Ok(
            (
                RunView {
                    stage: Stage::Done,
                    outcome: OutcomeView {
                        recovered: Some(since(run.started, now) as u128),
                        ..run.outcome
                    },
                    ..run
                },
                ActionView::Finish,
            ),
        ),
        _ => Ok((run, ActionView::Finish)),
    }
}

/// Whether a result is the step that was owed.
pub open spec fn is_step(step: Step, before: RunView, after: RunView, result: Result<Action, String>) -> bool {
    match result {
        Ok(action) => step == Ok::<(RunView, ActionView), Seq<char>>((after, action@)),
        Err(message) => step == Err::<(RunView, ActionView), Seq<char>>(message@) && after
            == before,
    }
}

fn names(victims: &Vec<Victim>) -> (list: Vec<String>)
    ensures
        views(list@) == names_of(victim_views(victims@)),
{
    let mut list: Vec<String> = Vec::new();
    let mut at: usize = 0;
    while at < victims.len()
        invariant
            at <= victims@.len(),
            list@.len() == at,
            forall|i: int| 0 <= i < at ==> (#[trigger] list@[i])@ == victims@[i].name@,
        decreases victims@.len() - at,
    {
        list.push(victims[at].name.clone());
        at = at + 1;
    }
    assert(views(list@) =~= names_of(victim_views(victims@)));
    list
}

pub(crate) fn copies(texts: &Vec<String>) -> (list: Vec<String>)
    ensures
        views(list@) == views(texts@),
{
    let mut list: Vec<String> = Vec::new();
    let mut at: usize = 0;
    while at < texts.len()
        invariant
            at <= texts@.len(),
            list@.len() == at,
            forall|i: int| 0 <= i < at ==> (#[trigger] list@[i])@ == texts@[i]@,
        decreases texts@.len() - at,
    {
        list.push(texts[at].clone());
        at = at + 1;
    }
    assert(views(list@) =~= views(texts@));
    list
}

fn first_unverifiable(victims: &Vec<Victim>) -> (message: Option<String>)
    ensures
        match message {
            Some(message) => first_match(
                victim_views(victims@),
                |victim: VictimView| victim.uid is None,
            ) matches Some(victim) && message@ == unverifiable(victim.name),
            None => first_match(
                victim_views(victims@),
                |victim: VictimView| victim.uid is None,
            ) is None,
        },
{
    let ghost list = victim_views(victims@);
    let ghost test = |victim: VictimView| victim.uid is None;
    let mut at: usize = 0;
    while at < victims.len()
        invariant
            at <= victims@.len(),
            list == victim_views(victims@),
            test == (|victim: VictimView| victim.uid is None),
            forall|i: int| 0 <= i < at ==> !test(#[trigger] list[i]),
        decreases victims@.len() - at,
    {
        assert(list[at as int] == victims@[at as int]@);
        if victims[at].uid.is_none() {
            proof {
                first_match_found(list, test, at as int);
            }
            return Some(
                glue3(
                    "pod ",
                    victims[at].name.as_str(),
                    " has no UID; refusing to delete a pod whose replacement cannot be verified",
                ),
            );
        }
        at = at + 1;
    }
    proof {
        first_match_missing(list, test);
    }
    None
}

/// Starts a run, which asks for its workload first.
pub fn begin(plan: Plan) -> (run: Run)
    ensures
        run@ == begun(plan@),
{
    let run = Run {
        plan,
        stage: Stage::Workload,
        owners: Vec::new(),
        victims: Vec::new(),
        started: 0,
        outcome: Outcome {
            killed: Vec::new(),
            delete_succeeded: false,
            measurement_error: None,
            recovered: None,
            desired: 0,
            ready: 0,
            polls: 0,
        },
    };
    assert(run@ =~= begun(plan@)) by {
        assert(owner_views(run.owners@) =~= Seq::<OwnerView>::empty());
        assert(victim_views(run.victims@) =~= Seq::<VictimView>::empty());
        assert(views(run.outcome.killed@) =~= Seq::<Seq<char>>::empty());
    }
    run
}

impl Run {
    fn on_workload(&mut self, answer: Result<Workload, String>) -> (action: Result<Action, String>)
        requires
            old(self).stage == Stage::Workload,
        ensures
            is_step(
                next(old(self)@, Event::Workload(answer)@),
                old(self)@,
                final(self)@,
                action,
            ),
    {
        let workload = match answer {
            Ok(workload) => workload,
            Err(message) => {
                return Err(message);
            },
        };
        if workload.desired <= 0 {
            return Err(
                glue4(
                    self.plan.kind.as_str(),
                    "/",
                    self.plan.scope.name.as_str(),
                    " has no desired replicas; nothing can recover",
                ),
            );
        }
        if self.plan.options.count as u64 >= workload.desired as u64 {
            let desired = number_text(workload.desired);
            return Err(
                glue3("count must be less than the workload's ", desired.as_str(), " desired replicas"),
            );
        }
        match workload_owners(self.plan.kind.as_str(), &workload) {
            Err(message) => Err(message),
            Ok(Owners::Listed) => {
                self.stage = Stage::ReplicaSets;
                self.outcome.desired = workload.desired;
                self.outcome.ready = workload.ready;
                Ok(Action::ListReplicaSets { uid: workload.uid })
            },
            Ok(Owners::Known(owners)) => {
                self.stage = Stage::Pods;
                self.owners = owners;
                self.outcome.desired = workload.desired;
                self.outcome.ready = workload.ready;
                Ok(Action::ListPods)
            },
        }
    }

    fn on_pods(&mut self, answer: Result<Vec<Pod>, String>) -> (action: Result<Action, String>)
        requires
            old(self).stage == Stage::Pods,
        ensures
            is_step(next(old(self)@, Event::Pods(answer)@), old(self)@, final(self)@, action),
    {
        let pods = match answer {
            Ok(pods) => pods,
            Err(message) => {
                return Err(message);
            },
        };
        let chosen = victims(&pods, &self.owners, self.plan.options.count);
        assert(victim_views(chosen@).len() == chosen@.len());
        if chosen.len() == 0 {
            return Err(
                glue4(
                    self.plan.kind.as_str(),
                    "/",
                    self.plan.scope.name.as_str(),
                    " has no running pods owned by this workload to kill; nothing to test",
                ),
            );
        }
        let killed = names(&chosen);
        if self.plan.options.dry_run {
            self.stage = Stage::Done;
            self.victims = chosen;
            self.outcome.killed = killed;
            return Ok(Action::Finish);
        }
        match first_unverifiable(&chosen) {
            Some(message) => Err(message),
            None => {
                self.stage = Stage::Recheck;
                self.victims = chosen;
                self.outcome.killed = killed;
                Ok(Action::ListPods)
            },
        }
    }

    fn on_recheck(&mut self, answer: Result<Vec<Pod>, String>) -> (action: Result<Action, String>)
        requires
            old(self).stage == Stage::Recheck,
        ensures
            is_step(next(old(self)@, Event::Pods(answer)@), old(self)@, final(self)@, action),
    {
        match answer {
            Err(message) => Err(message),
            Ok(pods) => match confirm_identities(&pods, &self.victims) {
                Err(message) => Err(message),
                Ok(_) => {
                    self.stage = Stage::Delete;
                    Ok(Action::Delete { pods: copies(&self.outcome.killed) })
                },
            },
        }
    }

    fn break_off(&mut self, message: String) -> (action: Action)
        ensures
            broken_off(old(self)@, message@) == Ok::<(RunView, ActionView), Seq<char>>(
                (final(self)@, action@),
            ),
    {
        self.stage = Stage::Done;
        self.outcome.measurement_error = Some(message);
        Action::Finish
    }

    fn on_state(&mut self, answer: Result<Workload, String>) -> (action: Result<Action, String>)
        requires
            old(self).stage == Stage::State,
        ensures
            is_step(
                next(old(self)@, Event::Workload(answer)@),
                old(self)@,
                final(self)@,
                action,
            ),
    {
        let workload = match answer {
            Ok(workload) => workload,
            Err(message) => {
                return Ok(self.break_off(message));
            },
        };
        self.outcome.desired = workload.desired;
        self.outcome.ready = workload.ready;
        if workload.desired > 0 && workload.ready >= workload.desired {
            self.stage = Stage::Replacements;
            Ok(Action::ListPods)
        } else {
            self.stage = Stage::Clock;
            Ok(Action::ReadClock)
        }
    }

    fn on_replacements(&mut self, answer: Result<Vec<Pod>, String>) -> (action: Result<
        Action,
        String,
    >)
        requires
            old(self).stage == Stage::Replacements,
        ensures
            is_step(next(old(self)@, Event::Pods(answer)@), old(self)@, final(self)@, action),
    {
        let pods = match answer {
            Ok(pods) => pods,
            Err(message) => {
                return Ok(self.break_off(message));
            },
        };
        if replacements_ready(&pods, &self.owners, &self.victims, self.outcome.desired) {
            self.stage = Stage::End;
        } else {
            self.stage = Stage::Clock;
        }
        Ok(Action::ReadClock)
    }

    fn on_clock(&mut self, now: u128) -> (action: Action)
        requires
            old(self).stage == Stage::Start || old(self).stage == Stage::Clock || old(self).stage
                == Stage::End,
        ensures
            next(old(self)@, EventView::Clock(now)) == Ok::<(RunView, ActionView), Seq<char>>(
                (final(self)@, action@),
            ),
    {
        if self.stage == Stage::Start {
            self.started = now;
            self.stage = Stage::Clock;
            return Action::ReadClock;
        }
        let elapsed = if now > self.started {
            now - self.started
        } else {
            0
        };
        if self.stage == Stage::End {
            self.outcome.recovered = Some(elapsed);
            self.stage = Stage::Done;
            return Action::Finish;
        }
        if elapsed < self.plan.options.wait as u128 * 1_000_000_000 {
            self.stage = Stage::Pause;
            Action::Pause
        } else {
            self.stage = Stage::Done;
            Action::Finish
        }
    }

    /// Takes the answer that the run was waiting for and says what to ask for
    /// next. A refusal ends the run with a message and changes nothing.
    pub fn step(&mut self, event: Event) -> (action: Result<Action, String>)
        requires
            answers(old(self).stage, event@),
            old(self).outcome.polls < u64::MAX,
        ensures
            is_step(next(old(self)@, event@), old(self)@, final(self)@, action),
    {
        match event {
            Event::Workload(answer) => if self.stage == Stage::Workload {
                self.on_workload(answer)
            } else {
                self.on_state(answer)
            },
            Event::ReplicaSets(answer) => match answer {
                Ok(owners) => {
                    self.owners = owners;
                    self.stage = Stage::Pods;
                    Ok(Action::ListPods)
                },
                Err(message) => Err(message),
            },
            Event::Pods(answer) => if self.stage == Stage::Pods {
                self.on_pods(answer)
            } else if self.stage == Stage::Recheck {
                self.on_recheck(answer)
            } else {
                self.on_replacements(answer)
            },
            Event::Deleted(answer) => match answer {
                Ok(_) => {
                    self.outcome.delete_succeeded = true;
                    self.stage = Stage::Start;
                    Ok(Action::ReadClock)
                },
                Err(message) => Ok(self.break_off(message)),
            },
            Event::Clock(now) => Ok(self.on_clock(now)),
            Event::Paused => {
                self.outcome.polls = self.outcome.polls + 1;
                self.stage = Stage::State;
                Ok(Action::ReadWorkload)
            },
        }
    }
}

} // verus!
