//! Velero backups, restores, schedules and storage locations.
use crate::encoding::{quote, quoted, read_utf8, utf8_problem};
use crate::frame::REQUEST_MAX_BYTES;
use crate::numbers::{count_text, decimal, size_text};
use crate::report::{
    add_row, document, group_report, lines, lines_view, put_row, report_view, row_views,
    section_views, single_line, table, table_view, with_row, Report, ReportView, Section,
    SectionView,
};
use crate::sequences::{
    count_bounded, count_matches, first_match, first_match_found, first_match_missing,
    first_match_none, selected,
};
use crate::text::{
    begins, glue2, glue3, glue4, glue5, group_views, join, joined, lines_of, same, starts_with,
    text_lines, trim, trimmed, views,
};
use crate::text_map::{stands_for, text_at, text_or, text_or_blank, TextMap};
use crate::tools::{command_line, command_of};
use vstd::prelude::*;
use vstd::utf8::{decode_utf8, valid_utf8};

verus! {

/// What is shown where the diagnostics of a tool go on beyond what is passed on.
pub const DIAGNOSTICS_NOTICE: &'static str = "\n[velero diagnostics truncated; operation continues]\n";

// ----------------------------------------------------------------- documents --

/// A request. A text that was left out is empty.
pub struct Request {
    pub schema_version: u32,
    pub context: String,
    pub namespace: String,
    pub name: String,
    pub inputs: TextMap<String>,
    pub object: Option<Resource>,
}

/// An object of any of the kinds that are read here. What a kind does not have
/// is empty.
pub struct Resource {
    pub api_version: String,
    pub kind: String,
    pub metadata: Meta,
    pub spec: Spec,
    pub status: Status,
}

/// What every object has.
pub struct Meta {
    pub name: String,
    pub namespace: String,
    pub labels: TextMap<String>,
}

/// What an object asks for.
pub struct Spec {
    pub ttl: String,
    pub storage_location: String,
    pub included_namespaces: Vec<String>,
    pub excluded_namespaces: Vec<String>,
    pub snapshot_volumes: Option<bool>,
    pub backup_name: String,
    pub schedule_name: String,
    pub schedule: String,
    pub paused: bool,
    pub provider: String,
    pub access_mode: String,
    pub default: bool,
    pub validation_frequency: String,
    pub object_storage: Storage,
}

/// Where backups are kept.
pub struct Storage {
    pub bucket: String,
    pub prefix: String,
}

/// How an object is doing.
pub struct Status {
    pub phase: String,
    pub start_timestamp: String,
    pub completion_timestamp: String,
    pub expiration: String,
    pub failure_reason: String,
    pub validation_errors: Vec<String>,
    pub errors: u64,
    pub warnings: u64,
    pub progress: Progress,
    pub message: String,
    pub last_validation_time: String,
    pub last_synced_time: String,
    pub last_backup: String,
}

/// How far a backup or a restore has come.
pub struct Progress {
    pub total_items: u64,
    pub items_backed_up: u64,
    pub items_restored: u64,
}

// ------------------------------------------------------------------- actions --

/// What to do.
#[derive(Clone, Copy, Debug, PartialEq, Eq, Structural)]
pub enum Action {
    Inspect,
    Trigger,
    Locations,
}

/// The action of the command arguments. Without any it is an inspection, and
/// there is never more than one.
pub open spec fn action_of(arguments: Seq<Seq<char>>) -> Result<Action, Seq<char>> {
    let action = if arguments.len() == 0 || arguments[0] == "inspect"@ {
        Ok(Action::Inspect)
    } else if arguments[0] == "trigger"@ {
        Ok(Action::Trigger)
    } else if arguments[0] == "locations"@ {
        Ok(Action::Locations)
    } else {
        Err("unknown action "@ + quoted(arguments[0]) + "; use inspect, trigger or locations"@)
    };
    if action is Ok && arguments.len() > 1 {
        Err("unexpected argument "@ + quoted(arguments[1]))
    } else {
        action
    }
}

impl Action {
    /// Reads the command arguments.
    pub fn parse(arguments: &Vec<String>) -> (action: Result<Action, String>)
        ensures
            match action {
                Ok(action) => action_of(views(arguments@)) == Ok::<Action, Seq<char>>(action),
                Err(message) => action_of(views(arguments@)) == Err::<Action, Seq<char>>(message@),
            },
    {
        assert(views(arguments@).len() == arguments@.len());
        if arguments.len() == 0 {
            return Ok(Action::Inspect);
        }
        assert(views(arguments@)[0] == arguments@[0]@);
        let named = arguments[0].as_str();
        let action = if same(named, "inspect") {
            Action::Inspect
        } else if same(named, "trigger") {
            Action::Trigger
        } else if same(named, "locations") {
            Action::Locations
        } else {
            let quote = quote(named);
            return Err(
                glue3("unknown action ", quote.as_str(), "; use inspect, trigger or locations"),
            );
        };
        if arguments.len() > 1 {
            assert(views(arguments@)[1] == arguments@[1]@);
            let quote = quote(arguments[1].as_str());
            return Err(glue2("unexpected argument ", quote.as_str()));
        }
        Ok(action)
    }
}

// ------------------------------------------------------------------ arguments --

/// Whether a trigger only pretends. Where the input is given, only the exact text
/// "false" creates a backup: an unclear value never does.
pub open spec fn is_dry(request: &Request) -> bool {
    match text_at(request.inputs@, "dry_run"@) {
        Some(value) => value != "false"@,
        None => false,
    }
}

/// Whether a trigger only pretends.
pub fn dry_run(request: &Request) -> (yes: bool)
    ensures
        yes == is_dry(request),
{
    match request.inputs.get("dry_run") {
        Some(value) => !same(value.as_str(), "false"),
        None => false,
    }
}

/// The namespace of Velero: the one of the inputs. Without one, a selection is in
/// the namespace of the request, and the locations are in the one that Velero is
/// installed into by default, whatever is being browsed.
pub open spec fn namespace_of(action: Action, request: &Request) -> Seq<char> {
    let named = text_or(request.inputs@, "namespace"@);
    if named.len() > 0 {
        named
    } else if action is Locations {
        "velero"@
    } else {
        request.namespace@
    }
}

/// The namespace of Velero.
pub fn velero_namespace(action: Action, request: &Request) -> (namespace: String)
    ensures
        namespace@ == namespace_of(action, request),
{
    let named = text_or_blank(&request.inputs, "namespace");
    if !named.as_str().is_empty() {
        return named;
    }
    match action {
        Action::Locations => "velero".to_owned(),
        _ => request.namespace.clone(),
    }
}

/// The arguments that name the namespace and the context.
pub open spec fn placed(
    action: Action,
    arguments: Seq<Seq<char>>,
    request: &Request,
    context_flag: Seq<char>,
) -> Seq<Seq<char>> {
    let namespace = namespace_of(action, request);
    let spaced = if namespace.len() == 0 {
        arguments
    } else {
        arguments.push("--namespace"@).push(namespace)
    };
    if request.context@.len() == 0 {
        spaced
    } else {
        spaced.push(context_flag).push(request.context@)
    }
}

/// Adds the arguments that name the namespace and the context. Without a context
/// the tool uses the current one.
pub fn cluster_arguments(
    action: Action,
    request: &Request,
    arguments: &mut Vec<String>,
    context_flag: &str,
)
    ensures
        views(final(arguments)@) == placed(
            action,
            views(old(arguments)@),
            request,
            context_flag@,
        ),
{
    broadcast use group_views;

    let namespace = velero_namespace(action, request);
    if !namespace.as_str().is_empty() {
        arguments.push("--namespace".to_owned());
        arguments.push(namespace);
    }
    if !request.context.as_str().is_empty() {
        arguments.push(context_flag.to_owned());
        arguments.push(request.context.clone());
    }
}

/// The arguments that create a backup from the selected schedule.
pub open spec fn trigger_arguments_of(request: &Request) -> Seq<Seq<char>> {
    placed(
        Action::Trigger,
        seq!["backup"@, "create"@, "--from-schedule"@, request.name@],
        request,
        "--kubecontext"@,
    )
}

/// The arguments that create a backup from the selected schedule.
pub fn trigger_arguments(request: &Request) -> (arguments: Vec<String>)
    ensures
        views(arguments@) == trigger_arguments_of(request),
{
    broadcast use group_views;

    let mut arguments: Vec<String> = Vec::new();
    arguments.push("backup".to_owned());
    arguments.push("create".to_owned());
    arguments.push("--from-schedule".to_owned());
    arguments.push(request.name.clone());
    assert(views(arguments@) =~= seq![
        "backup"@,
        "create"@,
        "--from-schedule"@,
        request.name@,
    ]);
    cluster_arguments(Action::Trigger, request, &mut arguments, "--kubecontext");
    arguments
}

/// The arguments that read the storage locations.
pub open spec fn locations_arguments_of(request: &Request) -> Seq<Seq<char>> {
    placed(
        Action::Locations,
        seq!["get"@, "backupstoragelocations.velero.io"@, "--output"@, "json"@],
        request,
        "--context"@,
    )
}

/// The arguments that read the storage locations.
pub fn locations_arguments(request: &Request) -> (arguments: Vec<String>)
    ensures
        views(arguments@) == locations_arguments_of(request),
{
    broadcast use group_views;

    let mut arguments: Vec<String> = Vec::new();
    arguments.push("get".to_owned());
    arguments.push("backupstoragelocations.velero.io".to_owned());
    arguments.push("--output".to_owned());
    arguments.push("json".to_owned());
    assert(views(arguments@) =~= seq![
        "get"@,
        "backupstoragelocations.velero.io"@,
        "--output"@,
        "json"@,
    ]);
    cluster_arguments(Action::Locations, request, &mut arguments, "--context");
    arguments
}

// ------------------------------------------------------------------- fetching --

/// What an action needs from outside the request.
#[verifier::ext_equal]
pub enum FetchView {
    Nothing,
    Replay { path: Seq<char> },
    /// Nothing, because the backup is not to be created.
    Pretend,
    Velero { arguments: Seq<Seq<char>> },
    Kubectl { arguments: Seq<Seq<char>> },
}

/// What an action needs from outside the request.
#[derive(Debug, PartialEq, Eq)]
pub enum Fetch {
    Nothing,
    Replay { path: String },
    Pretend,
    Velero { arguments: Vec<String> },
    Kubectl { arguments: Vec<String> },
}

impl Fetch {
    pub open spec fn view(&self) -> FetchView {
        match self {
            Fetch::Nothing => FetchView::Nothing,
            Fetch::Replay { path } => FetchView::Replay { path: path@ },
            Fetch::Pretend => FetchView::Pretend,
            Fetch::Velero { arguments } => FetchView::Velero { arguments: views(arguments@) },
            Fetch::Kubectl { arguments } => FetchView::Kubectl { arguments: views(arguments@) },
        }
    }
}

/// Why a trigger is refused: it acts on the selected object by name, so the
/// object has to be the schedule that the request names.
pub open spec fn trigger_refusal(request: &Request) -> Option<Seq<char>> {
    match request.object {
        None => Some(unselected(request.name@)),
        Some(schedule) => refusal_of(&schedule, request, seq!["Schedule"@]),
    }
}

/// What an action needs. A trigger is checked before anything runs. Only a
/// reading action replays saved output: a replayed trigger would report a backup
/// that nothing created.
pub open spec fn fetch_of(action: Action, request: &Request) -> Result<FetchView, Seq<char>> {
    let saved = text_or(request.inputs@, "replay"@);
    match action {
        Action::Inspect => Ok(
            if saved.len() == 0 {
                FetchView::Nothing
            } else {
                FetchView::Replay { path: saved }
            },
        ),
        Action::Trigger => match trigger_refusal(request) {
            Some(message) => Err(message),
            None => Ok(
                if is_dry(request) {
                    FetchView::Pretend
                } else {
                    FetchView::Velero { arguments: trigger_arguments_of(request) }
                },
            ),
        },
        Action::Locations => Ok(
            if saved.len() == 0 {
                FetchView::Kubectl { arguments: locations_arguments_of(request) }
            } else {
                FetchView::Replay { path: saved }
            },
        ),
    }
}

/// The schedule that a trigger is about.
fn selected_schedule(request: &Request) -> (schedule: Result<&Resource, String>)
    ensures
        match schedule {
            Ok(schedule) => request.object == Some(*schedule) && trigger_refusal(request) is None,
            Err(message) => trigger_refusal(request) == Some(message@),
        },
{
    let schedule = match selected_object(request) {
        Ok(schedule) => schedule,
        Err(message) => {
            return Err(message);
        },
    };
    let mut kinds: Vec<String> = Vec::new();
    kinds.push("Schedule".to_owned());
    assert(views(kinds@) =~= seq!["Schedule"@]);
    match check(schedule, request, &kinds) {
        Ok(_) => Ok(schedule),
        Err(message) => Err(message),
    }
}

/// What an action needs from outside the request, or why it is refused before
/// anything runs.
pub fn fetch(action: Action, request: &Request) -> (needed: Result<Fetch, String>)
    ensures
        match needed {
            Ok(needed) => fetch_of(action, request) == Ok::<FetchView, Seq<char>>(needed@),
            Err(message) => fetch_of(action, request) == Err::<FetchView, Seq<char>>(message@),
        },
{
    let saved = text_or_blank(&request.inputs, "replay");
    match action {
        Action::Inspect => if saved.as_str().is_empty() {
            Ok(Fetch::Nothing)
        } else {
            Ok(Fetch::Replay { path: saved })
        },
        Action::Trigger => match selected_schedule(request) {
            Err(message) => Err(message),
            Ok(_) => if dry_run(request) {
                Ok(Fetch::Pretend)
            } else {
                Ok(Fetch::Velero { arguments: trigger_arguments(request) })
            },
        },
        Action::Locations => if saved.as_str().is_empty() {
            Ok(Fetch::Kubectl { arguments: locations_arguments(request) })
        } else {
            Ok(Fetch::Replay { path: saved })
        },
    }
}

/// Velero is run for a trigger that is not dry and for nothing else, never from
/// saved output, only where the request does not say otherwise than "false", and
/// only for a schedule of Velero's under the name and in the namespace that the
/// request names.
pub proof fn only_checked_triggers_run_velero(action: Action, request: &Request)
    ensures
        fetch_of(action, request) matches Ok(needed) ==> (needed is Velero <==> action is Trigger
            && !is_dry(request)),
        action is Trigger ==> !(fetch_of(action, request) matches Ok(needed) && needed is Replay),
        action is Inspect ==> (fetch_of(action, request) matches Ok(needed) && (needed is Nothing
            || needed is Replay)),
        (fetch_of(action, request) matches Ok(needed) && needed is Velero) ==> {
            &&& request.object matches Some(schedule) && begins(
                schedule.api_version@,
                "velero.io/"@,
            ) && schedule.kind@ == "Schedule"@ && schedule.metadata.name@ == request.name@
                && schedule.metadata.namespace@ == request.namespace@
            &&& request.name@.len() > 0
            &&& request.namespace@.len() > 0
            &&& text_at(request.inputs@, "dry_run"@) matches Some(value) ==> value == "false"@
        },
{
    if trigger_refusal(request) is None {
        let kinds = seq!["Schedule"@];
        let kind = (request.object->0).kind@;
        assert(kinds.contains(kind));
        let at = choose|i: int| 0 <= i < kinds.len() && kinds[i] == kind;
        assert(at == 0);
    }
}

/// Saved output that was read with a limit.
pub open spec fn replayed_of(path: Seq<char>, bytes: Seq<u8>) -> Result<Seq<u8>, Seq<char>> {
    if bytes.len() > REQUEST_MAX_BYTES {
        Err("saved output "@ + path + " exceeds 1 MiB"@)
    } else {
        Ok(bytes)
    }
}

/// Saved output that was read with a limit.
pub fn replay(path: &str, bytes: Vec<u8>) -> (contents: Result<Vec<u8>, String>)
    ensures
        match contents {
            Ok(contents) => replayed_of(path@, bytes@) == Ok::<Seq<u8>, Seq<char>>(contents@),
            Err(message) => replayed_of(path@, bytes@) == Err::<Seq<u8>, Seq<char>>(message@),
        },
{
    if bytes.len() > REQUEST_MAX_BYTES {
        return Err(glue3("saved output ", path, " exceeds 1 MiB"));
    }
    Ok(bytes)
}

/// The text that a program wrote.
pub open spec fn text_of_output(bytes: Seq<u8>, program: Seq<char>) -> Result<
    Seq<char>,
    Seq<char>,
> {
    if valid_utf8(bytes) {
        Ok(decode_utf8(bytes))
    } else {
        Err(program + " wrote output that is not UTF-8: "@ + utf8_problem(bytes))
    }
}

/// The text that a program wrote.
pub fn text(bytes: &[u8], program: &str) -> (written: Result<String, String>)
    ensures
        match written {
            Ok(written) => text_of_output(bytes@, program@) == Ok::<Seq<char>, Seq<char>>(
                written@,
            ),
            Err(message) => text_of_output(bytes@, program@) == Err::<Seq<char>, Seq<char>>(
                message@,
            ),
        },
{
    match read_utf8(bytes) {
        Ok(written) => Ok(written),
        Err(problem) => Err(
            glue3(program, " wrote output that is not UTF-8: ", problem.as_str()),
        ),
    }
}

// ------------------------------------------------------------------ selection --

/// What an object calls itself.
pub open spec fn description_of(resource: &Resource) -> Seq<char> {
    let kind = if resource.kind@.len() == 0 {
        "<no kind>"@
    } else {
        resource.kind@
    };
    let version = if resource.api_version@.len() == 0 {
        "<no apiVersion>"@
    } else {
        resource.api_version@
    };
    "a "@ + kind + " from "@ + version
}

/// What an object calls itself.
pub fn describe(resource: &Resource) -> (description: String)
    ensures
        description@ == description_of(resource),
{
    let kind = if resource.kind.as_str().is_empty() {
        "<no kind>"
    } else {
        resource.kind.as_str()
    };
    let version = if resource.api_version.as_str().is_empty() {
        "<no apiVersion>"
    } else {
        resource.api_version.as_str()
    };
    glue4("a ", kind, " from ", version)
}

/// What is said of a request without an object.
pub open spec fn unselected(name: Seq<char>) -> Seq<char> {
    "the request has no object for "@ + quoted(name) + "; cannot verify it"@
}

/// The selected object.
pub fn selected_object(request: &Request) -> (object: Result<&Resource, String>)
    ensures
        match object {
            Ok(object) => request.object == Some(*object),
            Err(message) => request.object is None && message@ == unselected(request.name@),
        },
{
    match &request.object {
        Some(object) => Ok(object),
        None => {
            let quote = quote(request.name.as_str());
            Err(
                glue3(
                    "the request has no object for ",
                    quote.as_str(),
                    "; cannot verify it",
                ),
            )
        },
    }
}

/// What is said of an object that is another than the request names.
pub open spec fn mismatch(field: Seq<char>, actual: Seq<char>, expected: Seq<char>) -> Seq<char> {
    "the selected object is "@ + field + " "@ + quoted(actual) + ", the request names "@ + quoted(
        expected,
    )
}

/// Why an object is not the one that an action is about. The plural of a kind
/// does not tell whose kind it is, so the object has to prove that it is
/// Velero's, and that it is the one that the request names.
pub open spec fn refusal_of(resource: &Resource, request: &Request, kinds: Seq<Seq<char>>) -> Option<
    Seq<char>,
> {
    if request.name@.len() == 0 {
        Some("no "@ + joined(kinds, " or "@) + " selected"@)
    } else if request.namespace@.len() == 0 {
        Some(request.name@ + " has no namespace"@)
    } else if !begins(resource.api_version@, "velero.io/"@) || !kinds.contains(resource.kind@) {
        Some(
            request.namespace@ + "/"@ + request.name@ + " is "@ + description_of(resource)
                + ", not a velero.io "@ + joined(kinds, " or "@),
        )
    } else if resource.metadata.name@ != request.name@ {
        Some(mismatch("name"@, resource.metadata.name@, request.name@))
    } else if resource.metadata.namespace@ != request.namespace@ {
        Some(mismatch("namespace"@, resource.metadata.namespace@, request.namespace@))
    } else {
        None
    }
}

fn among(kind: &str, kinds: &Vec<String>) -> (yes: bool)
    ensures
        yes == views(kinds@).contains(kind@),
{
    let ghost list = views(kinds@);
    let mut at: usize = 0;
    while at < kinds.len()
        invariant
            at <= kinds@.len(),
            list == views(kinds@),
            forall|i: int| 0 <= i < at ==> #[trigger] list[i] != kind@,
        decreases kinds@.len() - at,
    {
        assert(list[at as int] == kinds@[at as int]@);
        if same(kinds[at].as_str(), kind) {
            return true;
        }
        at = at + 1;
    }
    false
}

fn mismatch_text(field: &str, actual: &str, expected: &str) -> (message: String)
    ensures
        message@ == mismatch(field@, actual@, expected@),
{
    let found = quote(actual);
    let wanted = quote(expected);
    let mut message = glue4("the selected object is ", field, " ", found.as_str());
    message.append(", the request names ");
    message.append(wanted.as_str());
    message
}

/// Checks that an object is the one that an action is about.
pub fn check(resource: &Resource, request: &Request, kinds: &Vec<String>) -> (checked: Result<
    (),
    String,
>)
    ensures
        match checked {
            Ok(_) => refusal_of(resource, request, views(kinds@)) is None,
            Err(message) => refusal_of(resource, request, views(kinds@)) == Some(message@),
        },
{
    let wanted = join(kinds, " or ");
    if request.name.as_str().is_empty() {
        return Err(glue3("no ", wanted.as_str(), " selected"));
    }
    if request.namespace.as_str().is_empty() {
        return Err(glue2(request.name.as_str(), " has no namespace"));
    }
    if !starts_with(resource.api_version.as_str(), "velero.io/") || !among(
        resource.kind.as_str(),
        kinds,
    ) {
        let found = describe(resource);
        let mut message = glue5(
            request.namespace.as_str(),
            "/",
            request.name.as_str(),
            " is ",
            found.as_str(),
        );
        message.append(", not a velero.io ");
        message.append(wanted.as_str());
        return Err(message);
    }
    if !same(resource.metadata.name.as_str(), request.name.as_str()) {
        return Err(
            mismatch_text("name", resource.metadata.name.as_str(), request.name.as_str()),
        );
    }
    if !same(resource.metadata.namespace.as_str(), request.namespace.as_str()) {
        return Err(
            mismatch_text(
                "namespace",
                resource.metadata.namespace.as_str(),
                request.namespace.as_str(),
            ),
        );
    }
    Ok(())
}

// ---------------------------------------------------------------------- parts --

/// `items` of `total`, or nothing while nothing was counted yet.
pub open spec fn progress_of(items: u64, total: u64) -> Seq<char> {
    if total == 0 {
        Seq::empty()
    } else {
        decimal(items as nat) + " of "@ + decimal(total as nat) + " items"@
    }
}

/// `items` of `total`, or nothing while nothing was counted yet.
pub fn progress(items: u64, total: u64) -> (shown: String)
    ensures
        shown@ == progress_of(items, total),
{
    if total == 0 {
        return String::new();
    }
    let done = count_text(items);
    let all = count_text(total);
    glue4(done.as_str(), " of ", all.as_str(), " items")
}

/// The texts of a list.
pub fn texts(values: &Vec<String>) -> (list: Vec<String>)
    ensures
        views(list@) == views(values@),
{
    let mut list: Vec<String> = Vec::new();
    let mut at: usize = 0;
    while at < values.len()
        invariant
            at <= values@.len(),
            list@.len() == at,
            forall|i: int| 0 <= i < at ==> (#[trigger] list@[i])@ == values@[i]@,
        decreases values@.len() - at,
    {
        list.push(values[at].clone());
        at = at + 1;
    }
    assert(views(list@) =~= views(values@));
    list
}

/// The context of a request.
pub open spec fn context_of(request: &Request) -> Seq<char> {
    if request.context@.len() == 0 {
        "inferred"@
    } else {
        request.context@
    }
}

/// The context of a request.
pub fn context(request: &Request) -> (shown: String)
    ensures
        shown@ == context_of(request),
{
    if request.context.as_str().is_empty() {
        "inferred".to_owned()
    } else {
        request.context.clone()
    }
}

/// The phase of an object.
pub open spec fn phase_of(status: &Status) -> Seq<char> {
    if status.phase@.len() == 0 {
        "no phase yet"@
    } else {
        status.phase@
    }
}

/// The phase of an object.
pub fn phase(status: &Status) -> (shown: String)
    ensures
        shown@ == phase_of(status),
{
    if status.phase.as_str().is_empty() {
        "no phase yet".to_owned()
    } else {
        status.phase.clone()
    }
}

/// Sections with the lines of a list, where it has any.
pub open spec fn with_lines(
    sections: Seq<SectionView>,
    title: Seq<char>,
    list: Seq<Seq<char>>,
) -> Seq<SectionView> {
    if list.len() == 0 {
        sections
    } else {
        sections.push(lines_view(title, list))
    }
}

/// The namespaces, the validation errors and the failure, in the order in which
/// Velero fills them in.
pub open spec fn details_of(settings: &Spec, status: &Status) -> Seq<SectionView> {
    let included = views(settings.included_namespaces@);
    let first = seq![
        lines_view(
            "Included namespaces"@,
            if included.len() == 0 {
                seq!["<all>"@]
            } else {
                included
            },
        ),
    ];
    let excluded = with_lines(first, "Excluded namespaces"@, views(settings.excluded_namespaces@));
    let validated = with_lines(excluded, "Validation errors"@, views(status.validation_errors@));
    if status.failure_reason@.len() == 0 {
        validated
    } else {
        validated.push(lines_view("Failure"@, seq![status.failure_reason@]))
    }
}

fn add_lines(sections: &mut Vec<Section>, title: &str, list: &Vec<String>)
    ensures
        section_views(final(sections)@) == with_lines(
            section_views(old(sections)@),
            title@,
            views(list@),
        ),
{
    broadcast use group_report;

    assert(views(list@).len() == list@.len());
    if list.len() > 0 {
        sections.push(lines(title, texts(list)));
    }
}

/// The namespaces, the validation errors and the failure.
pub fn details(settings: &Spec, status: &Status) -> (sections: Vec<Section>)
    ensures
        section_views(sections@) == details_of(settings, status),
{
    broadcast use group_report;

    let mut sections: Vec<Section> = Vec::new();
    assert(views(settings.included_namespaces@).len() == settings.included_namespaces@.len());
    if settings.included_namespaces.len() == 0 {
        sections.push(single_line("Included namespaces", "<all>"));
    } else {
        sections.push(lines("Included namespaces", texts(&settings.included_namespaces)));
    }
    assert(section_views(sections@) =~= seq![section_views(sections@)[0]]);
    add_lines(&mut sections, "Excluded namespaces", &settings.excluded_namespaces);
    add_lines(&mut sections, "Validation errors", &status.validation_errors);
    if !status.failure_reason.as_str().is_empty() {
        sections.push(single_line("Failure", status.failure_reason.as_str()));
    }
    sections
}

// -------------------------------------------------------------------- reports --

/// Whether volumes are snapshotted.
pub open spec fn snapshots_of(snapshots: Option<bool>) -> Seq<char> {
    match snapshots {
        Some(true) => "enabled"@,
        Some(false) => "disabled"@,
        None => Seq::empty(),
    }
}

/// The report of a backup.
pub open spec fn backup_of(request: &Request, resource: &Resource) -> ReportView {
    let settings = &resource.spec;
    let status = &resource.status;
    let rows = with_row(Seq::empty(), "Verdict"@, phase_of(status));
    let rows = rows.push(("Context"@, context_of(request)));
    let rows = with_row(rows, "Namespace"@, request.namespace@);
    let rows = with_row(rows, "Backup"@, request.name@);
    let rows = with_row(
        rows,
        "From schedule"@,
        text_or(resource.metadata.labels@, "velero.io/schedule-name"@),
    );
    let rows = with_row(rows, "Storage location"@, settings.storage_location@);
    let rows = with_row(rows, "Started"@, status.start_timestamp@);
    let rows = with_row(rows, "Completed"@, status.completion_timestamp@);
    let rows = with_row(rows, "Expires"@, status.expiration@);
    let rows = with_row(rows, "TTL"@, settings.ttl@);
    let rows = with_row(rows, "Volume snapshots"@, snapshots_of(settings.snapshot_volumes));
    let rows = with_row(
        rows,
        "Progress"@,
        progress_of(status.progress.items_backed_up, status.progress.total_items),
    );
    let rows = with_row(rows, "Errors"@, decimal(status.errors as nat));
    let rows = with_row(rows, "Warnings"@, decimal(status.warnings as nat));
    report_view(
        "Velero backup"@,
        seq![table_view("Summary"@, rows)] + details_of(settings, status),
    )
}

fn summarized(title: &str, rows: Vec<(String, String)>, details: Vec<Section>) -> (report: Report)
    ensures
        report@ == report_view(
            title@,
            seq![table_view("Summary"@, row_views(rows@))] + section_views(details@),
        ),
{
    let ghost shown = row_views(rows@);
    let ghost more = section_views(details@);
    let mut sections: Vec<Section> = Vec::new();
    let mut details = details;
    sections.push(table("Summary", rows));
    sections.append(&mut details);
    assert(section_views(sections@) =~= seq![table_view("Summary"@, shown)] + more);
    document(title, sections)
}

/// The report of a backup.
pub fn backup(request: &Request, resource: &Resource) -> (report: Report)
    ensures
        report@ == backup_of(request, resource),
{
    broadcast use group_report;

    let settings = &resource.spec;
    let status = &resource.status;
    let mut rows: Vec<(String, String)> = Vec::new();
    add_row(&mut rows, "Verdict", phase(status));
    put_row(&mut rows, "Context", context(request));
    add_row(&mut rows, "Namespace", request.namespace.clone());
    add_row(&mut rows, "Backup", request.name.clone());
    add_row(
        &mut rows,
        "From schedule",
        text_or_blank(&resource.metadata.labels, "velero.io/schedule-name"),
    );
    add_row(&mut rows, "Storage location", settings.storage_location.clone());
    add_row(&mut rows, "Started", status.start_timestamp.clone());
    add_row(&mut rows, "Completed", status.completion_timestamp.clone());
    add_row(&mut rows, "Expires", status.expiration.clone());
    add_row(&mut rows, "TTL", settings.ttl.clone());
    let snapshots = match settings.snapshot_volumes {
        Some(true) => "enabled".to_owned(),
        Some(false) => "disabled".to_owned(),
        None => String::new(),
    };
    add_row(&mut rows, "Volume snapshots", snapshots);
    add_row(
        &mut rows,
        "Progress",
        progress(status.progress.items_backed_up, status.progress.total_items),
    );
    add_row(&mut rows, "Errors", count_text(status.errors));
    add_row(&mut rows, "Warnings", count_text(status.warnings));
    summarized("Velero backup", rows, details(settings, status))
}

/// The report of a restore.
pub open spec fn restore_of(request: &Request, resource: &Resource) -> ReportView {
    let settings = &resource.spec;
    let status = &resource.status;
    let rows = with_row(Seq::empty(), "Verdict"@, phase_of(status));
    let rows = rows.push(("Context"@, context_of(request)));
    let rows = with_row(rows, "Namespace"@, request.namespace@);
    let rows = with_row(rows, "Restore"@, request.name@);
    let rows = with_row(rows, "From backup"@, settings.backup_name@);
    let rows = with_row(rows, "From schedule"@, settings.schedule_name@);
    let rows = with_row(rows, "Started"@, status.start_timestamp@);
    let rows = with_row(rows, "Completed"@, status.completion_timestamp@);
    let rows = with_row(
        rows,
        "Progress"@,
        progress_of(status.progress.items_restored, status.progress.total_items),
    );
    let rows = with_row(rows, "Errors"@, decimal(status.errors as nat));
    let rows = with_row(rows, "Warnings"@, decimal(status.warnings as nat));
    report_view(
        "Velero restore"@,
        seq![table_view("Summary"@, rows)] + details_of(settings, status),
    )
}

/// The report of a restore.
pub fn restore(request: &Request, resource: &Resource) -> (report: Report)
    ensures
        report@ == restore_of(request, resource),
{
    broadcast use group_report;

    let settings = &resource.spec;
    let status = &resource.status;
    let mut rows: Vec<(String, String)> = Vec::new();
    add_row(&mut rows, "Verdict", phase(status));
    put_row(&mut rows, "Context", context(request));
    add_row(&mut rows, "Namespace", request.namespace.clone());
    add_row(&mut rows, "Restore", request.name.clone());
    add_row(&mut rows, "From backup", settings.backup_name.clone());
    add_row(&mut rows, "From schedule", settings.schedule_name.clone());
    add_row(&mut rows, "Started", status.start_timestamp.clone());
    add_row(&mut rows, "Completed", status.completion_timestamp.clone());
    add_row(
        &mut rows,
        "Progress",
        progress(status.progress.items_restored, status.progress.total_items),
    );
    add_row(&mut rows, "Errors", count_text(status.errors));
    add_row(&mut rows, "Warnings", count_text(status.warnings));
    summarized("Velero restore", rows, details(settings, status))
}

/// A line, where it says anything.
pub open spec fn spoken(line: Seq<char>) -> Option<Seq<char>> {
    if trimmed(line).len() == 0 {
        None
    } else {
        Some(line)
    }
}

/// What Velero said, or that it said nothing.
pub open spec fn said_of(output: Seq<char>) -> Seq<Seq<char>> {
    let said = selected(text_lines(output), |line: Seq<char>| spoken(line));
    if said.len() == 0 {
        seq!["<no output>"@]
    } else {
        said
    }
}

fn said(output: &str) -> (list: Vec<String>)
    ensures
        views(list@) == said_of(output@),
{
    broadcast use group_views;

    let lines = lines_of(output);
    let ghost all = text_lines(output@);
    let ghost read = |line: Seq<char>| spoken(line);
    let mut list: Vec<String> = Vec::new();
    let mut at: usize = 0;
    assert(views(list@) =~= Seq::<Seq<char>>::empty());
    while at < lines.len()
        invariant
            at <= lines@.len(),
            views(lines@) == all,
            read == (|line: Seq<char>| spoken(line)),
            views(list@) == selected(all.take(at as int), read),
        decreases lines@.len() - at,
    {
        assert(all.take(at + 1).drop_last() =~= all.take(at as int));
        assert(all.take(at + 1).last() == lines@[at as int]@);
        if !trim(lines[at].as_str()).as_str().is_empty() {
            let ghost before = list@;
            list.push(lines[at].clone());
            assert(views(list@) =~= views(before).push(lines@[at as int]@));
        }
        at = at + 1;
    }
    assert(all.take(at as int) =~= all);
    assert(views(list@).len() == list@.len());
    if list.len() == 0 {
        list.push("<no output>".to_owned());
        assert(views(list@) =~= seq!["<no output>"@]);
    }
    list
}

/// The report of a trigger.
pub open spec fn trigger_of(
    request: &Request,
    schedule: &Resource,
    output: Seq<char>,
    dry: bool,
) -> ReportView {
    let rows = with_row(
        Seq::empty(),
        "Verdict"@,
        if dry {
            "dry run, nothing was triggered"@
        } else {
            "backup requested"@
        },
    );
    let rows = rows.push(("Context"@, context_of(request)));
    let rows = with_row(rows, "Namespace"@, namespace_of(Action::Trigger, request));
    let rows = with_row(rows, "Schedule"@, request.name@);
    let rows = with_row(rows, "Cron"@, schedule.spec.schedule@);
    let rows = with_row(
        rows,
        "Paused"@,
        if schedule.spec.paused {
            "yes"@
        } else {
            Seq::empty()
        },
    );
    let rows = with_row(rows, "Schedule phase"@, schedule.status.phase@);
    let rows = with_row(rows, "Last backup"@, schedule.status.last_backup@);
    let sections = seq![
        table_view("Summary"@, rows),
        lines_view("Command"@, seq![command_of("velero"@, trigger_arguments_of(request))]),
    ];
    report_view(
        "Trigger backup schedule"@,
        if dry {
            sections.push(
                lines_view(
                    "Notice"@,
                    seq!["Re-run with dry_run=false to create a backup from this schedule."@],
                ),
            )
        } else {
            sections.push(lines_view("velero output"@, said_of(output))).push(
                lines_view(
                    "Next"@,
                    seq![
                        "Velero runs the backup in the background; the report does not wait for it."@,
                        "Select the new Backup and use :velero-inspect to follow it."@,
                    ],
                ),
            )
        },
    )
}

/// The report of a trigger.
pub fn trigger(request: &Request, schedule: &Resource, output: &str, dry: bool) -> (report: Report)
    ensures
        report@ == trigger_of(request, schedule, output@, dry),
{
    broadcast use {group_report, group_views};

    let mut rows: Vec<(String, String)> = Vec::new();
    add_row(
        &mut rows,
        "Verdict",
        if dry {
            "dry run, nothing was triggered".to_owned()
        } else {
            "backup requested".to_owned()
        },
    );
    put_row(&mut rows, "Context", context(request));
    add_row(&mut rows, "Namespace", velero_namespace(Action::Trigger, request));
    add_row(&mut rows, "Schedule", request.name.clone());
    add_row(&mut rows, "Cron", schedule.spec.schedule.clone());
    add_row(
        &mut rows,
        "Paused",
        if schedule.spec.paused {
            "yes".to_owned()
        } else {
            String::new()
        },
    );
    add_row(&mut rows, "Schedule phase", schedule.status.phase.clone());
    add_row(&mut rows, "Last backup", schedule.status.last_backup.clone());
    let command = command_line("velero", &trigger_arguments(request));
    let mut sections: Vec<Section> = Vec::new();
    sections.push(table("Summary", rows));
    sections.push(single_line("Command", command.as_str()));
    if dry {
        sections.push(
            single_line(
                "Notice",
                "Re-run with dry_run=false to create a backup from this schedule.",
            ),
        );
    } else {
        sections.push(lines("velero output", said(output)));
        let mut next: Vec<String> = Vec::new();
        next.push(
            "Velero runs the backup in the background; the report does not wait for it.".to_owned(),
        );
        next.push("Select the new Backup and use :velero-inspect to follow it.".to_owned());
        assert(views(next@) =~= seq![
            "Velero runs the backup in the background; the report does not wait for it."@,
            "Select the new Backup and use :velero-inspect to follow it."@,
        ]);
        sections.push(lines("Next", next));
    }
    assert(section_views(sections@) =~= trigger_of(request, schedule, output@, dry).sections);
    document("Trigger backup schedule", sections)
}

// ------------------------------------------------------------------ locations --

/// Whether a location can be used.
pub open spec fn is_available(item: Resource) -> bool {
    item.status.phase@ == "Available"@
}

/// The name of the default location.
pub open spec fn default_of(items: Seq<Resource>) -> Seq<char> {
    match first_match(items, |item: Resource| item.spec.default) {
        Some(item) => item.metadata.name@,
        None => "none"@,
    }
}

/// The section of a location.
pub open spec fn location_of(item: Resource) -> SectionView {
    let settings = &item.spec;
    let status = &item.status;
    let rows = with_row(Seq::empty(), "Phase"@, phase_of(status));
    let rows = with_row(rows, "Provider"@, settings.provider@);
    let rows = with_row(rows, "Bucket"@, settings.object_storage.bucket@);
    let rows = with_row(rows, "Prefix"@, settings.object_storage.prefix@);
    let rows = with_row(rows, "Access mode"@, settings.access_mode@);
    let rows = with_row(
        rows,
        "Default"@,
        if settings.default {
            "yes"@
        } else {
            Seq::empty()
        },
    );
    let rows = with_row(rows, "Validation every"@, settings.validation_frequency@);
    let rows = with_row(rows, "Last validated"@, status.last_validation_time@);
    let rows = with_row(rows, "Last synced"@, status.last_synced_time@);
    let rows = with_row(rows, "Message"@, status.message@);
    table_view(item.metadata.name@, rows)
}

/// The report of all locations.
pub open spec fn locations_of(request: &Request, items: Seq<Resource>) -> ReportView {
    let available = count_matches(items, |item: Resource| is_available(item));
    let rows = with_row(
        Seq::empty(),
        "Verdict"@,
        if items.len() == 0 {
            "no backup storage locations"@
        } else {
            decimal(available) + " of "@ + decimal(items.len()) + " available"@
        },
    );
    let rows = rows.push(("Context"@, context_of(request)));
    let rows = with_row(rows, "Namespace"@, namespace_of(Action::Locations, request));
    let rows = with_row(rows, "Default"@, default_of(items));
    report_view(
        "Backup storage locations"@,
        seq![table_view("Summary"@, rows)] + items.map_values(|item: Resource| location_of(item)),
    )
}

fn available_count(items: &Vec<Resource>) -> (count: usize)
    ensures
        count == count_matches(items@, |item: Resource| is_available(item)),
{
    let ghost test = |item: Resource| is_available(item);
    let mut count: usize = 0;
    let mut at: usize = 0;
    while at < items.len()
        invariant
            at <= items@.len(),
            test == (|item: Resource| is_available(item)),
            count == count_matches(items@.take(at as int), test),
        decreases items@.len() - at,
    {
        assert(items@.take(at + 1).drop_last() =~= items@.take(at as int));
        proof {
            count_bounded(items@.take(at as int), test);
        }
        if same(items[at].status.phase.as_str(), "Available") {
            count = count + 1;
        }
        at = at + 1;
    }
    assert(items@.take(at as int) =~= items@);
    count
}

fn default_name(items: &Vec<Resource>) -> (name: String)
    ensures
        name@ == default_of(items@),
{
    let ghost test = |item: Resource| item.spec.default;
    let mut at: usize = 0;
    while at < items.len()
        invariant
            at <= items@.len(),
            test == (|item: Resource| item.spec.default),
            forall|i: int| 0 <= i < at ==> !test(#[trigger] items@[i]),
        decreases items@.len() - at,
    {
        if items[at].spec.default {
            proof {
                first_match_found(items@, test, at as int);
            }
            return items[at].metadata.name.clone();
        }
        at = at + 1;
    }
    proof {
        first_match_missing(items@, test);
    }
    "none".to_owned()
}

fn location(item: &Resource) -> (section: Section)
    ensures
        section@ == location_of(*item),
{
    broadcast use group_report;

    let settings = &item.spec;
    let status = &item.status;
    let mut rows: Vec<(String, String)> = Vec::new();
    add_row(&mut rows, "Phase", phase(status));
    add_row(&mut rows, "Provider", settings.provider.clone());
    add_row(&mut rows, "Bucket", settings.object_storage.bucket.clone());
    add_row(&mut rows, "Prefix", settings.object_storage.prefix.clone());
    add_row(&mut rows, "Access mode", settings.access_mode.clone());
    add_row(
        &mut rows,
        "Default",
        if settings.default {
            "yes".to_owned()
        } else {
            String::new()
        },
    );
    add_row(&mut rows, "Validation every", settings.validation_frequency.clone());
    add_row(&mut rows, "Last validated", status.last_validation_time.clone());
    add_row(&mut rows, "Last synced", status.last_synced_time.clone());
    add_row(&mut rows, "Message", status.message.clone());
    table(item.metadata.name.as_str(), rows)
}

/// The report of all locations.
pub fn locations(request: &Request, items: &Vec<Resource>) -> (report: Report)
    ensures
        report@ == locations_of(request, items@),
{
    broadcast use group_report;

    let available = available_count(items);
    let verdict = if items.len() == 0 {
        "no backup storage locations".to_owned()
    } else {
        let some = size_text(available);
        let all = size_text(items.len());
        glue4(some.as_str(), " of ", all.as_str(), " available")
    };
    let mut rows: Vec<(String, String)> = Vec::new();
    add_row(&mut rows, "Verdict", verdict);
    put_row(&mut rows, "Context", context(request));
    add_row(&mut rows, "Namespace", velero_namespace(Action::Locations, request));
    add_row(&mut rows, "Default", default_name(items));
    let mut sections: Vec<Section> = Vec::new();
    let mut at: usize = 0;
    while at < items.len()
        invariant
            at <= items@.len(),
            sections@.len() == at,
            forall|i: int| 0 <= i < at ==> (#[trigger] sections@[i])@ == location_of(items@[i]),
        decreases items@.len() - at,
    {
        sections.push(location(&items[at]));
        at = at + 1;
    }
    assert(section_views(sections@) =~= items@.map_values(|item: Resource| location_of(item)));
    summarized("Backup storage locations", rows, sections)
}

// ------------------------------------------------------------------ rendering --

/// What an action was given from outside the request.
pub enum Source {
    /// Nothing: the selected object is what to inspect.
    Selected,
    /// A saved object to inspect instead.
    Replayed(Resource),
    /// What Velero wrote.
    Output(Vec<u8>),
    /// The locations that were read.
    Listed(Vec<Resource>),
}

/// Whether an action was given what it needs.
pub open spec fn suits(action: Action, source: &Source) -> bool {
    match action {
        Action::Inspect => source is Selected || source is Replayed,
        Action::Trigger => source is Output,
        Action::Locations => source is Listed,
    }
}

/// The report of an inspection.
pub open spec fn inspected(request: &Request, resource: &Resource) -> Result<
    ReportView,
    Seq<char>,
> {
    match refusal_of(resource, request, seq!["Backup"@, "Restore"@]) {
        Some(message) => Err(message),
        None => if resource.kind@ == "Backup"@ {
            Ok(backup_of(request, resource))
        } else {
            Ok(restore_of(request, resource))
        },
    }
}

/// Whether an object is a storage location of Velero.
pub open spec fn is_location(item: Resource) -> bool {
    begins(item.api_version@, "velero.io/"@) && item.kind@ == "BackupStorageLocation"@
}

/// The report of an action, or why there is none.
pub open spec fn rendered_of(action: Action, request: &Request, source: &Source) -> Result<
    ReportView,
    Seq<char>,
> {
    match (action, source) {
        (Action::Inspect, Source::Replayed(resource)) => inspected(request, resource),
        (Action::Trigger, Source::Output(output)) => match trigger_refusal(request) {
            Some(message) => Err(message),
            None => match text_of_output(output@, "velero"@) {
                Err(message) => Err(message),
                Ok(output) => Ok(
                    trigger_of(request, &(request.object->0), output, is_dry(request)),
                ),
            },
        },
        (Action::Locations, Source::Listed(items)) => match first_match(
            items@,
            |item: Resource| !is_location(item),
        ) {
            Some(item) => Err(
                description_of(&item) + " is not a backupstoragelocations.velero.io"@,
            ),
            None => Ok(locations_of(request, items@)),
        },
        _ => match request.object {
            None => Err(unselected(request.name@)),
            Some(resource) => inspected(request, &resource),
        },
    }
}

/// Whether a result is the report that was owed.
pub open spec fn is_rendered(owed: Result<ReportView, Seq<char>>, report: Result<Report, String>) -> bool {
    match report {
        Ok(report) => owed == Ok::<ReportView, Seq<char>>(report@),
        Err(message) => owed == Err::<ReportView, Seq<char>>(message@),
    }
}

fn inspect(request: &Request, resource: &Resource) -> (report: Result<Report, String>)
    ensures
        is_rendered(inspected(request, resource), report),
{
    let mut kinds: Vec<String> = Vec::new();
    kinds.push("Backup".to_owned());
    kinds.push("Restore".to_owned());
    assert(views(kinds@) =~= seq!["Backup"@, "Restore"@]);
    match check(resource, request, &kinds) {
        Err(message) => Err(message),
        Ok(_) => if same(resource.kind.as_str(), "Backup") {
            Ok(backup(request, resource))
        } else {
            Ok(restore(request, resource))
        },
    }
}

fn first_stranger(items: &Vec<Resource>) -> (message: Option<String>)
    ensures
        match message {
            Some(message) => first_match(items@, |item: Resource| !is_location(item)) matches Some(
                item,
            ) && message@ == description_of(&item) + " is not a backupstoragelocations.velero.io"@,
            None => first_match(items@, |item: Resource| !is_location(item)) is None,
        },
{
    let ghost test = |item: Resource| !is_location(item);
    let mut at: usize = 0;
    while at < items.len()
        invariant
            at <= items@.len(),
            test == (|item: Resource| !is_location(item)),
            forall|i: int| 0 <= i < at ==> !test(#[trigger] items@[i]),
        decreases items@.len() - at,
    {
        let item = &items[at];
        if !starts_with(item.api_version.as_str(), "velero.io/") || !same(
            item.kind.as_str(),
            "BackupStorageLocation",
        ) {
            proof {
                first_match_found(items@, test, at as int);
            }
            let found = describe(item);
            return Some(glue2(found.as_str(), " is not a backupstoragelocations.velero.io"));
        }
        at = at + 1;
    }
    proof {
        first_match_missing(items@, test);
    }
    None
}

/// The report of an action, or why there is none.
pub fn render(action: Action, request: &Request, source: &Source) -> (report: Result<
    Report,
    String,
>)
    requires
        suits(action, source),
    ensures
        is_rendered(rendered_of(action, request, source), report),
{
    match source {
        Source::Replayed(resource) => inspect(request, resource),
        Source::Selected => match selected_object(request) {
            Err(message) => Err(message),
            Ok(resource) => inspect(request, resource),
        },
        Source::Output(output) => {
            let schedule = match selected_schedule(request) {
                Ok(schedule) => schedule,
                Err(message) => {
                    return Err(message);
                },
            };
            match text(output.as_slice(), "velero") {
                Err(message) => Err(message),
                Ok(output) => Ok(trigger(request, schedule, output.as_str(), dry_run(request))),
            }
        },
        Source::Listed(items) => match first_stranger(items) {
            Some(message) => Err(message),
            None => Ok(locations(request, items)),
        },
    }
}

/// The object that an inspection or a trigger is about.
pub open spec fn subject(request: &Request, source: &Source) -> Resource {
    match source {
        Source::Replayed(resource) => *resource,
        _ => request.object->0,
    }
}

/// What is reported is always an object of Velero, of a kind that the action is
/// about. A selected one is under the name and in the namespace that the request
/// names, also where a saved object stands in for it.
pub proof fn reports_are_of_the_selected_object(action: Action, request: &Request, source: &Source)
    requires
        suits(action, source),
        rendered_of(action, request, source) is Ok,
    ensures
        action is Inspect ==> (subject(request, source).kind@ == "Backup"@ || subject(
            request,
            source,
        ).kind@ == "Restore"@),
        action is Trigger ==> subject(request, source).kind@ == "Schedule"@,
        !(action is Locations) ==> {
            let resource = subject(request, source);
            &&& begins(resource.api_version@, "velero.io/"@)
            &&& resource.metadata.name@ == request.name@
            &&& resource.metadata.namespace@ == request.namespace@
            &&& request.name@.len() > 0
            &&& request.namespace@.len() > 0
        },
        source matches Source::Listed(items) ==> (forall|i: int|
            0 <= i < items@.len() ==> is_location(#[trigger] items@[i])),
{
    match source {
        Source::Listed(items) => {
            let test = |item: Resource| !is_location(item);
            first_match_none(items@, test);
            assert forall|i: int| 0 <= i < items@.len() implies is_location(
                #[trigger] items@[i],
            ) by {
                assert(!test(items@[i]));
            }
        },
        Source::Output(_) => {
            let kinds = seq!["Schedule"@];
            assert(kinds.contains(subject(request, source).kind@));
        },
        _ => {
            let resource = subject(request, source);
            let kinds = seq!["Backup"@, "Restore"@];
            assert(kinds.contains(resource.kind@));
            let at = choose|i: int| 0 <= i < kinds.len() && kinds[i] == resource.kind@;
            assert(at == 0 || at == 1);
        },
    }
}

} // verus!
