//! The side of a run that can reach the cluster. It decides for itself what the
//! request allows and refuses everything else, whatever the guest asks for.
use crate::chaos::objects::{
    label_text, labels_of, selector, selector_of, selectors_name_labels_in_order,
};
use crate::chaos::run::namespace_of;
use crate::encoding::{lossy_text, quote, quoted, read_lossy, read_utf8, utf8_problem};
use crate::frame::{answer_view, framed, framed_of};
use crate::json::{
    as_text, in_order, parsed_json, parts_are_tidy, read_json, text_of_json, text_or_empty,
    text_or_nothing, tidy, Json, JsonView,
};
use crate::numbers::{decimal, read_unsigned, size_text, unsigned_number};
use crate::sequences::{first_match, first_match_found, first_match_missing, selected};
use crate::text::{
    glue2, glue3, glue4, group_views, join, joined, lines_of, lower, lowercase, pieces, same, split,
    text_lines, trim, trimmed, views,
};
use vstd::prelude::*;
use vstd::utf8::{decode_utf8, valid_utf8};

verus! {

/// The most bytes of a response to the guest.
pub const RESPONSE_MAX_BYTES: usize = 8388608;

/// The longest pause a guest gets, in milliseconds.
pub const SLEEP_MAX_MILLIS: u64 = 60000;

/// The most pods that one deletion names.
pub const KILL_MAX: usize = 10;

// -------------------------------------------------------------------- scope --

/// What the host takes from the request before the guest starts.
#[verifier::ext_equal]
pub struct HostScopeView {
    pub context: Seq<char>,
    pub namespace: Seq<char>,
    pub resource: Seq<char>,
    pub name: Seq<char>,
    pub selector: Seq<char>,
    pub dry_run: bool,
    pub count: usize,
}

/// What the host takes from the request before the guest starts.
#[derive(Debug, PartialEq, Eq)]
pub struct HostScope {
    pub context: String,
    pub namespace: String,
    pub resource: String,
    pub name: String,
    pub selector: String,
    pub dry_run: bool,
    pub count: usize,
}

impl HostScope {
    pub open spec fn view(&self) -> HostScopeView {
        HostScopeView {
            context: self.context@,
            namespace: self.namespace@,
            resource: self.resource@,
            name: self.name@,
            selector: self.selector@,
            dry_run: self.dry_run,
            count: self.count,
        }
    }
}

/// An input of a request, empty where it is missing.
pub open spec fn input_of(request: JsonView, key: Seq<char>) -> Seq<char> {
    text_or_empty(request.at("inputs"@, key))
}

/// How many pods a run may kill: what the input asks for, between one and the
/// most that a deletion names.
pub open spec fn count_of(input: Seq<char>) -> nat {
    match unsigned_number(input, usize::MAX as nat) {
        Some(count) => if count < 1 {
            1
        } else if count > KILL_MAX {
            KILL_MAX as nat
        } else {
            count
        },
        None => 1,
    }
}

/// Whether a kind of workload brings its pods back.
pub open spec fn is_supported(kind: Seq<char>) -> bool {
    kind == "Deployment"@ || kind == "StatefulSet"@ || kind == "DaemonSet"@
}

/// The scope of a request, or why it is refused.
pub open spec fn scope_of(request: JsonView) -> Result<HostScopeView, Seq<char>> {
    match request.get("object"@) {
        None => Err("select a workload to test"@),
        Some(object) => match as_text(object.at("metadata"@, "name"@)) {
            None => Err("selected object has no name"@),
            Some(name) => {
                let namespace = namespace_of(object, Some(text_or_empty(request.get("namespace"@))));
                let kind = text_or_empty(object.get("kind"@));
                if namespace.len() == 0 {
                    Err("a namespace is required; this never runs cluster-wide"@)
                } else if !is_supported(kind) {
                    Err(kind + " is not supported; select a Deployment, StatefulSet, or DaemonSet"@)
                } else {
                    match selector_of(object) {
                        Err(message) => Err(message),
                        Ok(selector) => Ok(
                            HostScopeView {
                                context: text_or_empty(request.get("context"@)),
                                namespace,
                                resource: kind.map_values(|letter: char| lower(letter)),
                                name,
                                selector,
                                dry_run: input_of(request, "dry_run"@) != "false"@ || input_of(
                                    request,
                                    "pods"@,
                                ).len() > 0,
                                count: count_of(input_of(request, "count"@)) as usize,
                            },
                        ),
                    }
                }
            },
        },
    }
}

/// The scope of a request as it came in, or why it is refused.
pub open spec fn scope_of_bytes(request: Seq<u8>) -> Result<HostScopeView, Seq<char>> {
    match parsed_json(request) {
        Ok(request) => scope_of(request),
        Err(message) => Err("invalid request: "@ + message),
    }
}

fn kill_count(input: &str) -> (count: usize)
    ensures
        count == count_of(input@),
{
    match read_unsigned(input, usize::MAX as u64) {
        Some(count) => if count < 1 {
            1
        } else if count > KILL_MAX as u64 {
            KILL_MAX
        } else {
            count as usize
        },
        None => 1,
    }
}

/// The scope of a parsed request.
pub fn scope_from_value(request: &Json) -> (scope: Result<HostScope, String>)
    ensures
        match scope {
            Ok(scope) => scope_of(request@) == Ok::<HostScopeView, Seq<char>>(scope@),
            Err(message) => scope_of(request@) == Err::<HostScopeView, Seq<char>>(message@),
        },
{
    let object = match request.get("object") {
        Some(object) => object,
        None => {
            return Err("select a workload to test".to_owned());
        },
    };
    let name = match text_of_json(object.at("metadata", "name")) {
        Some(name) => name,
        None => {
            return Err("selected object has no name".to_owned());
        },
    };
    let namespace = match text_of_json(object.at("metadata", "namespace")) {
        Some(namespace) => namespace,
        None => text_or_nothing(request.get("namespace")),
    };
    if namespace.as_str().is_empty() {
        return Err("a namespace is required; this never runs cluster-wide".to_owned());
    }
    let kind = text_or_nothing(object.get("kind"));
    if !(same(kind.as_str(), "Deployment") || same(kind.as_str(), "StatefulSet") || same(
        kind.as_str(),
        "DaemonSet",
    )) {
        return Err(
            glue2(
                kind.as_str(),
                " is not supported; select a Deployment, StatefulSet, or DaemonSet",
            ),
        );
    }
    let asked = text_or_nothing(request.at("inputs", "dry_run"));
    let saved = text_or_nothing(request.at("inputs", "pods"));
    let dry_run = !same(asked.as_str(), "false") || !saved.as_str().is_empty();
    let count = kill_count(text_or_nothing(request.at("inputs", "count")).as_str());
    let labels = match selector(object) {
        Ok(labels) => labels,
        Err(message) => {
            return Err(message);
        },
    };
    Ok(
        HostScope {
            context: text_or_nothing(request.get("context")),
            namespace,
            resource: lowercase(kind.as_str()),
            name,
            selector: labels,
            dry_run,
            count,
        },
    )
}

/// The scope of a request as it came in. Its selector names the labels in the order
/// of their keys.
pub fn scope(request: &[u8]) -> (scope: Result<HostScope, String>)
    ensures
        match scope {
            Ok(scope) => scope_of_bytes(request@) == Ok::<HostScopeView, Seq<char>>(scope@) && (
            parsed_json(request@) matches Ok(document) && tidy(document)),
            Err(message) => scope_of_bytes(request@) == Err::<HostScopeView, Seq<char>>(message@),
        },
{
    match read_json(request) {
        Ok(request) => scope_from_value(&request),
        Err(message) => Err(glue2("invalid request: ", message.as_str())),
    }
}

/// A scope never allows more pods than one deletion may name, and always names
/// a namespace.
pub proof fn scopes_are_bounded(request: JsonView)
    ensures
        scope_of(request) matches Ok(scope) ==> 1 <= scope.count <= KILL_MAX && scope.namespace.len()
            > 0,
{
}

/// The selector of a scope that was read from a request names every label of the
/// workload once and in the order of their keys, however the request was written.
pub proof fn scopes_name_labels_in_order(request: JsonView)
    requires
        tidy(request),
    ensures
        scope_of(request) matches Ok(scope) ==> (request.get("object"@) matches Some(object)
            && labels_of(object) matches Some(labels) && in_order(labels) && scope.selector
            == joined(labels.map_values(|label: (Seq<char>, JsonView)| label_text(label)), ","@)),
{
    parts_are_tidy(request, "object"@);
    if let Some(object) = request.get("object"@) {
        if tidy(object) {
            selectors_name_labels_in_order(object);
        }
    }
}

// ----------------------------------------------------------------- requests --

/// What a guest may ask its host for. The cluster, the namespace and the
/// workload are not among it: those are the host's.
#[verifier::ext_equal]
pub enum HostRequestView {
    Pods { selector: Seq<char> },
    ReplicaSets { selector: Seq<char> },
    Workload,
    Delete { pods: Seq<Seq<char>> },
    ReadFile { path: Seq<char> },
    Sleep { millis: u64 },
    Now,
}

/// What a guest may ask its host for.
#[derive(Debug, PartialEq, Eq)]
pub enum HostRequest {
    Pods { selector: String },
    ReplicaSets { selector: String },
    Workload,
    Delete { pods: Vec<String> },
    ReadFile { path: String },
    Sleep { millis: u64 },
    Now,
}

impl HostRequest {
    pub open spec fn view(&self) -> HostRequestView {
        match self {
            HostRequest::Pods { selector } => HostRequestView::Pods { selector: selector@ },
            HostRequest::ReplicaSets { selector } => HostRequestView::ReplicaSets {
                selector: selector@,
            },
            HostRequest::Workload => HostRequestView::Workload,
            HostRequest::Delete { pods } => HostRequestView::Delete { pods: views(pods@) },
            HostRequest::ReadFile { path } => HostRequestView::ReadFile { path: path@ },
            HostRequest::Sleep { millis } => HostRequestView::Sleep { millis: *millis },
            HostRequest::Now => HostRequestView::Now,
        }
    }
}

/// What the host does for a guest.
#[verifier::ext_equal]
pub enum HostActionView {
    /// Run kubectl and pass on what it prints.
    Query { arguments: Seq<Seq<char>> },
    /// Run kubectl, remember the pods that it prints and pass them on.
    List { arguments: Seq<Seq<char>> },
    /// Run kubectl and pass nothing on.
    Delete { arguments: Seq<Seq<char>> },
    ReadFile { path: Seq<char> },
    Sleep { millis: u64 },
    Now,
}

/// What the host does for a guest.
#[derive(Debug, PartialEq, Eq)]
pub enum HostAction {
    Query { arguments: Vec<String> },
    List { arguments: Vec<String> },
    Delete { arguments: Vec<String> },
    ReadFile { path: String },
    Sleep { millis: u64 },
    Now,
}

impl HostAction {
    pub open spec fn view(&self) -> HostActionView {
        match self {
            HostAction::Query { arguments } => HostActionView::Query {
                arguments: views(arguments@),
            },
            HostAction::List { arguments } => HostActionView::List { arguments: views(arguments@) },
            HostAction::Delete { arguments } => HostActionView::Delete {
                arguments: views(arguments@),
            },
            HostAction::ReadFile { path } => HostActionView::ReadFile { path: path@ },
            HostAction::Sleep { millis } => HostActionView::Sleep { millis: *millis },
            HostAction::Now => HostActionView::Now,
        }
    }
}

/// The host between two requests: its scope, the pods of the last listing, and
/// whether it has deleted.
#[verifier::ext_equal]
pub struct HostView {
    pub scope: HostScopeView,
    pub listed: Set<Seq<char>>,
    pub deleted: bool,
}

/// The host between two requests.
pub struct HostState {
    pub scope: HostScope,
    pub listed: Vec<String>,
    pub deleted: bool,
}

impl HostState {
    pub open spec fn view(&self) -> HostView {
        HostView {
            scope: self.scope@,
            listed: views(self.listed@).to_set(),
            deleted: self.deleted,
        }
    }
}

/// The columns that a pod listing prints.
pub open spec fn pods_columns() -> Seq<char> {
    "jsonpath={range .items[*]}{.metadata.name}{\"\\t\"}{.metadata.uid}{\"\\t\"}{.metadata.creationTimestamp}{\"\\t\"}{.metadata.deletionTimestamp}{\"\\t\"}{.status.phase}{\"\\t\"}{range .metadata.ownerReferences[?(@.controller==true)]}{.kind}{\":\"}{.uid}{end}{\"\\t\"}{range .status.conditions[?(@.type==\"Ready\")]}{.status}{end}{\"\\n\"}{end}"@
}

/// The columns that the line of a workload prints.
pub open spec fn workload_columns() -> Seq<char> {
    "jsonpath={.metadata.uid}{\"\\t\"}{.spec.replicas}{\"\\t\"}{.status.replicas}{\"\\t\"}{.status.readyReplicas}{\"\\t\"}{.status.desiredNumberScheduled}{\"\\t\"}{.status.numberReady}"@
}

/// The columns that a ReplicaSet listing prints.
pub open spec fn replica_sets_columns() -> Seq<char> {
    "jsonpath={range .items[*]}{.metadata.uid}{\"\\t\"}{range .metadata.ownerReferences[?(@.controller==true)]}{.kind}{\":\"}{.uid}{end}{\"\\n\"}{end}"@
}

/// What is said of a selector that is not the workload's own.
pub open spec fn selector_error(selector: Seq<char>) -> Seq<char> {
    "refusing a selector the workload does not have: "@ + quoted(selector)
}

/// Why a deletion is refused.
pub open spec fn delete_refusal(host: HostView, pods: Seq<Seq<char>>) -> Option<Seq<char>> {
    if host.scope.dry_run {
        Some("refusing to delete: this run is a dry run"@)
    } else if host.deleted {
        Some("refusing a second delete in one run"@)
    } else if pods.len() == 0 {
        Some("refusing an empty delete"@)
    } else if pods.len() > host.scope.count {
        Some(
            "refusing to delete "@ + decimal(pods.len()) + " pods; the request asked for "@
                + decimal(host.scope.count as nat),
        )
    } else {
        match first_match(pods, |pod: Seq<char>| !host.listed.contains(pod)) {
            Some(pod) => Some(
                "refusing to delete "@ + pod
                    + ": it is not a pod this host listed for the selected workload"@,
            ),
            None => None,
        }
    }
}

/// What the host does with a request, or why it refuses it.
pub open spec fn decided(host: HostView, request: HostRequestView) -> Result<
    (HostView, HostActionView),
    Seq<char>,
> {
    match request {
        HostRequestView::Now => Ok((host, HostActionView::Now)),
        HostRequestView::Sleep { millis } => Ok(
            (
                host,
                HostActionView::Sleep {
                    millis: if millis < SLEEP_MAX_MILLIS {
                        millis
                    } else {
                        SLEEP_MAX_MILLIS
                    },
                },
            ),
        ),
        HostRequestView::ReadFile { path } => Ok((host, HostActionView::ReadFile { path })),
        HostRequestView::Workload => Ok(
            (
                host,
                HostActionView::Query {
                    arguments: seq![
                        "get"@,
                        host.scope.resource,
                        host.scope.name,
                        "-o"@,
                        workload_columns(),
                    ],
                },
            ),
        ),
        HostRequestView::ReplicaSets { selector } => if selector == host.scope.selector {
            Ok(
                (
                    host,
                    HostActionView::Query {
                        arguments: seq![
                            "get"@,
                            "replicasets"@,
                            "-l"@,
                            selector,
                            "-o"@,
                            replica_sets_columns(),
                        ],
                    },
                ),
            )
        } else {
            Err(selector_error(selector))
        },
        HostRequestView::Pods { selector } => if selector == host.scope.selector {
            Ok(
                (
                    host,
                    HostActionView::List {
                        arguments: seq![
                            "get"@,
                            "pods"@,
                            "-l"@,
                            selector,
                            "-o"@,
                            pods_columns(),
                        ],
                    },
                ),
            )
        } else {
            Err(selector_error(selector))
        },
        HostRequestView::Delete { pods } => match delete_refusal(host, pods) {
            Some(message) => Err(message),
            None => Ok(
                (
                    HostView { deleted: true, ..host },
                    HostActionView::Delete {
                        arguments: seq!["delete"@, "pod"@, "--wait=false"@] + pods,
                    },
                ),
            ),
        },
    }
}

/// Refuses a selector that is not the workload's own.
pub fn check_selector(scope: &HostScope, selector: &str) -> (checked: Result<(), String>)
    ensures
        match checked {
            Ok(_) => selector@ == scope@.selector,
            Err(message) => selector@ != scope@.selector && message@ == selector_error(selector@),
        },
{
    if same(selector, scope.selector.as_str()) {
        return Ok(());
    }
    let quote = quote(selector);
    Err(glue2("refusing a selector the workload does not have: ", quote.as_str()))
}

fn holds(names: &Vec<String>, name: &str) -> (yes: bool)
    ensures
        yes == views(names@).to_set().contains(name@),
{
    let ghost list = views(names@);
    let mut at: usize = 0;
    while at < names.len()
        invariant
            at <= names@.len(),
            list == views(names@),
            forall|i: int| 0 <= i < at ==> #[trigger] list[i] != name@,
        decreases names@.len() - at,
    {
        assert(list[at as int] == names@[at as int]@);
        if same(names[at].as_str(), name) {
            assert(list.contains(name@));
            return true;
        }
        at = at + 1;
    }
    assert(!list.contains(name@));
    false
}

/// Why a deletion is refused, if it is.
pub fn refuse_delete(state: &HostState, pods: &Vec<String>) -> (refusal: Option<String>)
    ensures
        match refusal {
            Some(message) => delete_refusal(state@, views(pods@)) == Some(message@),
            None => delete_refusal(state@, views(pods@)) is None,
        },
{
    let ghost list = views(pods@);
    assert(list.len() == pods@.len());
    if state.scope.dry_run {
        return Some("refusing to delete: this run is a dry run".to_owned());
    }
    if state.deleted {
        return Some("refusing a second delete in one run".to_owned());
    }
    if pods.len() == 0 {
        return Some("refusing an empty delete".to_owned());
    }
    if pods.len() > state.scope.count {
        let asked = size_text(pods.len());
        let allowed = size_text(state.scope.count);
        return Some(
            glue4(
                "refusing to delete ",
                asked.as_str(),
                " pods; the request asked for ",
                allowed.as_str(),
            ),
        );
    }
    let ghost known = state@.listed;
    let ghost test = |pod: Seq<char>| !known.contains(pod);
    let mut at: usize = 0;
    while at < pods.len()
        invariant
            at <= pods@.len(),
            list == views(pods@),
            known == state@.listed,
            test == (|pod: Seq<char>| !known.contains(pod)),
            !state.scope.dry_run,
            !state.deleted,
            0 < list.len() <= state.scope.count,
            forall|i: int| 0 <= i < at ==> !test(#[trigger] list[i]),
        decreases pods@.len() - at,
    {
        assert(list[at as int] == pods@[at as int]@);
        if !holds(&state.listed, pods[at].as_str()) {
            proof {
                first_match_found(list, test, at as int);
            }
            return Some(
                glue3(
                    "refusing to delete ",
                    pods[at].as_str(),
                    ": it is not a pod this host listed for the selected workload",
                ),
            );
        }
        at = at + 1;
    }
    proof {
        first_match_missing(list, test);
    }
    None
}

/// The arguments of a listing by label.
fn listing(resource: &str, selector: &str, columns: &str) -> (arguments: Vec<String>)
    ensures
        views(arguments@) == seq!["get"@, resource@, "-l"@, selector@, "-o"@, columns@],
{
    broadcast use group_views;

    let mut arguments: Vec<String> = Vec::new();
    arguments.push("get".to_owned());
    arguments.push(resource.to_owned());
    arguments.push("-l".to_owned());
    arguments.push(selector.to_owned());
    arguments.push("-o".to_owned());
    arguments.push(columns.to_owned());
    assert(views(arguments@) =~= seq!["get"@, resource@, "-l"@, selector@, "-o"@, columns@]);
    arguments
}

/// Decides what to do with a request of the guest. A refusal changes nothing.
pub fn dispatch(state: &mut HostState, request: HostRequest) -> (action: Result<
    HostAction,
    String,
>)
    ensures
        match action {
            Ok(action) => decided(old(state)@, request@) == Ok::<
                (HostView, HostActionView),
                Seq<char>,
            >((final(state)@, action@)),
            Err(message) => decided(old(state)@, request@) == Err::<
                (HostView, HostActionView),
                Seq<char>,
            >(message@) && final(state)@ == old(state)@,
        },
{
    broadcast use group_views;

    match request {
        HostRequest::Now => Ok(HostAction::Now),
        HostRequest::Sleep { millis } => Ok(
            HostAction::Sleep {
                millis: if millis < SLEEP_MAX_MILLIS {
                    millis
                } else {
                    SLEEP_MAX_MILLIS
                },
            },
        ),
        HostRequest::ReadFile { path } => Ok(HostAction::ReadFile { path }),
        HostRequest::Workload => {
            let mut arguments: Vec<String> = Vec::new();
            arguments.push("get".to_owned());
            arguments.push(state.scope.resource.clone());
            arguments.push(state.scope.name.clone());
            arguments.push("-o".to_owned());
            arguments.push(
                "jsonpath={.metadata.uid}{\"\\t\"}{.spec.replicas}{\"\\t\"}{.status.replicas}{\"\\t\"}{.status.readyReplicas}{\"\\t\"}{.status.desiredNumberScheduled}{\"\\t\"}{.status.numberReady}".to_owned(),
            );
            assert(views(arguments@) =~= seq![
                "get"@,
                state.scope.resource@,
                state.scope.name@,
                "-o"@,
                workload_columns(),
            ]);
            Ok(HostAction::Query { arguments })
        },
        HostRequest::ReplicaSets { selector } => match check_selector(
            &state.scope,
            selector.as_str(),
        ) {
            Err(message) => Err(message),
            Ok(_) => Ok(
                HostAction::Query {
                    arguments: listing(
                        "replicasets",
                        selector.as_str(),
                        "jsonpath={range .items[*]}{.metadata.uid}{\"\\t\"}{range .metadata.ownerReferences[?(@.controller==true)]}{.kind}{\":\"}{.uid}{end}{\"\\n\"}{end}",
                    ),
                },
            ),
        },
        HostRequest::Pods { selector } => match check_selector(&state.scope, selector.as_str()) {
            Err(message) => Err(message),
            Ok(_) => Ok(
                HostAction::List {
                    arguments: listing(
                        "pods",
                        selector.as_str(),
                        "jsonpath={range .items[*]}{.metadata.name}{\"\\t\"}{.metadata.uid}{\"\\t\"}{.metadata.creationTimestamp}{\"\\t\"}{.metadata.deletionTimestamp}{\"\\t\"}{.status.phase}{\"\\t\"}{range .metadata.ownerReferences[?(@.controller==true)]}{.kind}{\":\"}{.uid}{end}{\"\\t\"}{range .status.conditions[?(@.type==\"Ready\")]}{.status}{end}{\"\\n\"}{end}",
                    ),
                },
            ),
        },
        HostRequest::Delete { pods } => {
            match refuse_delete(state, &pods) {
                Some(message) => {
                    return Err(message);
                },
                None => {},
            }
            let ghost named = views(pods@);
            let mut pods = pods;
            let mut arguments: Vec<String> = Vec::new();
            arguments.push("delete".to_owned());
            arguments.push("pod".to_owned());
            arguments.push("--wait=false".to_owned());
            arguments.append(&mut pods);
            assert(views(arguments@) =~= seq!["delete"@, "pod"@, "--wait=false"@] + named);
            state.deleted = true;
            Ok(HostAction::Delete { arguments })
        },
    }
}

// ------------------------------------------------------------------ listings --

/// The pod that a line of a listing names.
pub open spec fn name_of_line(line: Seq<char>) -> Option<Seq<char>> {
    let name = pieces(line, '\t')[0];
    if name.len() == 0 {
        None
    } else {
        Some(name)
    }
}

/// The pods that a listing names.
pub open spec fn names_of_lines(output: Seq<char>) -> Seq<Seq<char>> {
    selected(text_lines(output), |line: Seq<char>| name_of_line(line))
}

/// The names that the lines of a listing begin with.
pub fn listed_names(output: &str) -> (names: Vec<String>)
    ensures
        views(names@) == names_of_lines(output@),
{
    let lines = lines_of(output);
    let ghost all = text_lines(output@);
    let ghost read = |line: Seq<char>| name_of_line(line);
    let mut names: Vec<String> = Vec::new();
    let mut at: usize = 0;
    assert(views(names@) =~= Seq::<Seq<char>>::empty());
    while at < lines.len()
        invariant
            at <= lines@.len(),
            views(lines@) == all,
            read == (|line: Seq<char>| name_of_line(line)),
            views(names@) == selected(all.take(at as int), read),
        decreases lines@.len() - at,
    {
        assert(all.take(at + 1).drop_last() =~= all.take(at as int));
        assert(all.take(at + 1).last() == lines@[at as int]@);
        let columns = split(lines[at].as_str(), '\t');
        assert(views(columns@).len() == columns@.len());
        assert(columns@[0]@ == views(columns@)[0]);
        if !columns[0].as_str().is_empty() {
            let ghost before = names@;
            names.push(columns[0].clone());
            assert(views(names@) =~= views(before).push(columns@[0]@));
        }
        at = at + 1;
    }
    assert(all.take(at as int) =~= all);
    names
}

impl HostState {
    /// The host of a scope, before the guest has asked for anything.
    pub fn new(scope: HostScope) -> (state: HostState)
        ensures
            state@ == (HostView {
                scope: scope@,
                listed: Set::<Seq<char>>::empty(),
                deleted: false,
            }),
    {
        let state = HostState { scope, listed: Vec::new(), deleted: false };
        assert(views(state.listed@).to_set() =~= Set::<Seq<char>>::empty());
        state
    }

    /// Remembers what a listing contained. Only these pods may be deleted.
    pub fn remember(&mut self, output: &str)
        ensures
            final(self)@ == (HostView {
                listed: names_of_lines(output@).to_set(),
                ..old(self)@
            }),
    {
        self.listed = listed_names(output);
    }
}

// -------------------------------------------------------------------- kubectl --

/// The arguments that name the cluster and the namespace.
pub open spec fn cluster_arguments_of(scope: HostScopeView) -> Seq<Seq<char>> {
    let context = if scope.context.len() == 0 {
        Seq::<Seq<char>>::empty()
    } else {
        seq!["--context"@, scope.context]
    };
    let namespace = if scope.namespace.len() == 0 {
        Seq::<Seq<char>>::empty()
    } else {
        seq!["--namespace"@, scope.namespace]
    };
    context + namespace
}

/// The arguments that name the cluster and the namespace.
pub fn cluster_arguments(scope: &HostScope) -> (arguments: Vec<String>)
    ensures
        views(arguments@) == cluster_arguments_of(scope@),
{
    broadcast use group_views;

    let mut arguments: Vec<String> = Vec::new();
    if !scope.context.as_str().is_empty() {
        arguments.push("--context".to_owned());
        arguments.push(scope.context.clone());
    }
    if !scope.namespace.as_str().is_empty() {
        arguments.push("--namespace".to_owned());
        arguments.push(scope.namespace.clone());
    }
    assert(views(arguments@) =~= cluster_arguments_of(scope@));
    arguments
}

/// The first line that is not blank, or an empty text.
pub open spec fn first_nonblank(text: Seq<char>) -> Seq<char> {
    match first_match(text_lines(text), |line: Seq<char>| trimmed(line).len() > 0) {
        Some(line) => line,
        None => Seq::empty(),
    }
}

fn nonblank_line(text: &str) -> (found: String)
    ensures
        found@ == first_nonblank(text@),
{
    let lines = lines_of(text);
    let ghost all = text_lines(text@);
    let ghost test = |line: Seq<char>| trimmed(line).len() > 0;
    let mut at: usize = 0;
    while at < lines.len()
        invariant
            at <= lines@.len(),
            views(lines@) == all,
            all == text_lines(text@),
            test == (|line: Seq<char>| trimmed(line).len() > 0),
            forall|i: int| 0 <= i < at ==> !test(#[trigger] all[i]),
        decreases lines@.len() - at,
    {
        assert(all[at as int] == lines@[at as int]@);
        if !trim(lines[at].as_str()).as_str().is_empty() {
            proof {
                first_match_found(all, test, at as int);
            }
            return lines[at].clone();
        }
        at = at + 1;
    }
    proof {
        first_match_missing(all, test);
    }
    String::new()
}

/// What a run of kubectl printed, or what to say of a run that failed.
pub open spec fn kubectl_output_of(
    arguments: Seq<Seq<char>>,
    success: bool,
    stdout: Seq<u8>,
    stderr: Seq<u8>,
) -> Result<Seq<char>, Seq<char>> {
    if !success {
        Err("kubectl "@ + joined(arguments, " "@) + ": "@ + first_nonblank(lossy_text(stderr)))
    } else if valid_utf8(stdout) {
        Ok(decode_utf8(stdout))
    } else {
        Err("kubectl returned non-UTF-8 output: "@ + utf8_problem(stdout))
    }
}

/// What a run of kubectl printed, or what to say of a run that failed.
pub fn kubectl_output(
    arguments: &Vec<String>,
    success: bool,
    stdout: &[u8],
    stderr: &[u8],
) -> (output: Result<String, String>)
    ensures
        match output {
            Ok(output) => kubectl_output_of(views(arguments@), success, stdout@, stderr@) == Ok::<
                Seq<char>,
                Seq<char>,
            >(output@),
            Err(message) => kubectl_output_of(views(arguments@), success, stdout@, stderr@)
                == Err::<Seq<char>, Seq<char>>(message@),
        },
{
    if !success {
        let detail = nonblank_line(read_lossy(stderr).as_str());
        let asked = join(arguments, " ");
        return Err(glue4("kubectl ", asked.as_str(), ": ", detail.as_str()));
    }
    match read_utf8(stdout) {
        Ok(output) => Ok(output),
        Err(problem) => Err(glue2("kubectl returned non-UTF-8 output: ", problem.as_str())),
    }
}

/// What is said of a kubectl that could not be run.
pub fn kubectl_not_run(error: &str) -> (message: String)
    ensures
        message@ == "failed to run kubectl: "@ + error@,
{
    glue2("failed to run kubectl: ", error)
}

/// The arguments of an action that kubectl is run for.
pub open spec fn arguments_of(action: HostActionView) -> Option<Seq<Seq<char>>> {
    match action {
        HostActionView::Query { arguments } => Some(arguments),
        HostActionView::List { arguments } => Some(arguments),
        HostActionView::Delete { arguments } => Some(arguments),
        _ => None,
    }
}

/// The host once an action is done, with what kubectl printed where it succeeded:
/// a listing is remembered, and nothing else changes the host.
pub open spec fn settled(host: HostView, action: HostActionView, output: Option<Seq<char>>) -> HostView {
    match (action, output) {
        (HostActionView::List { .. }, Some(output)) => HostView {
            listed: names_of_lines(output).to_set(),
            ..host
        },
        _ => host,
    }
}

/// What kubectl printed, where it succeeded.
pub open spec fn printed(output: Result<Seq<char>, Seq<char>>) -> Option<Seq<char>> {
    match output {
        Ok(output) => Some(output),
        Err(_) => None,
    }
}

/// What the guest is told of an action that kubectl was run for: what it printed,
/// and nothing of a deletion.
pub open spec fn told_of(
    action: HostActionView,
    output: Result<Seq<char>, Seq<char>>,
    stdout: Seq<u8>,
) -> Result<Seq<u8>, Seq<char>> {
    match output {
        Err(message) => Err(message),
        Ok(_) => Ok(
            if action is Delete {
                Seq::empty()
            } else {
                stdout
            },
        ),
    }
}

/// Settles an action that kubectl was run for: remembers a listing that succeeded,
/// and says what the guest is told.
pub fn settle(
    state: &mut HostState,
    action: &HostAction,
    success: bool,
    stdout: &[u8],
    stderr: &[u8],
) -> (answer: Result<Vec<u8>, String>)
    requires
        arguments_of(action@) is Some,
    ensures
        ({
            let output = kubectl_output_of(arguments_of(action@)->0, success, stdout@, stderr@);
            &&& final(state)@ == settled(old(state)@, action@, printed(output))
            &&& answer_view(answer) == told_of(action@, output, stdout@)
        }),
{
    match action {
        HostAction::Query { arguments } => match kubectl_output(
            arguments,
            success,
            stdout,
            stderr,
        ) {
            Ok(_) => Ok(copy_of(stdout)),
            Err(message) => Err(message),
        },
        HostAction::List { arguments } => match kubectl_output(
            arguments,
            success,
            stdout,
            stderr,
        ) {
            Ok(output) => {
                state.remember(output.as_str());
                Ok(copy_of(stdout))
            },
            Err(message) => Err(message),
        },
        HostAction::Delete { arguments } => match kubectl_output(
            arguments,
            success,
            stdout,
            stderr,
        ) {
            Ok(_) => {
                let nothing: Vec<u8> = Vec::new();
                assert(nothing@ =~= Seq::<u8>::empty());
                Ok(nothing)
            },
            Err(message) => Err(message),
        },
        _ => Ok(Vec::new()),
    }
}

fn copy_of(bytes: &[u8]) -> (copy: Vec<u8>)
    ensures
        copy@ == bytes@,
{
    let mut copy: Vec<u8> = Vec::new();
    let mut at: usize = 0;
    while at < bytes.len()
        invariant
            at <= bytes@.len(),
            copy@ == bytes@.take(at as int),
        decreases bytes@.len() - at,
    {
        copy.push(bytes[at]);
        at = at + 1;
        assert(copy@ =~= bytes@.take(at as int));
    }
    assert(copy@ =~= bytes@);
    copy
}

/// A file that was read up to one byte beyond its limit.
pub open spec fn file_of(bytes: Seq<u8>, limit: nat) -> Result<Seq<u8>, Seq<char>> {
    if bytes.len() > limit {
        Err("file is too large"@)
    } else {
        Ok(bytes)
    }
}

/// A file that was read up to one byte beyond its limit.
pub fn file_contents(bytes: Vec<u8>, limit: usize) -> (contents: Result<Vec<u8>, String>)
    ensures
        match contents {
            Ok(contents) => file_of(bytes@, limit as nat) == Ok::<Seq<u8>, Seq<char>>(contents@),
            Err(message) => file_of(bytes@, limit as nat) == Err::<Seq<u8>, Seq<char>>(message@),
        },
{
    if bytes.len() > limit {
        return Err("file is too large".to_owned());
    }
    Ok(bytes)
}

/// A response to the guest, of no more than the most that it may hold.
pub fn encoded_response(status: u8, body: Vec<u8>) -> (response: Vec<u8>)
    ensures
        response@ == framed_of(status, body@, RESPONSE_MAX_BYTES as nat),
{
    framed(status, body, RESPONSE_MAX_BYTES)
}

/// What is said of a guest that failed. The pods that it deleted are gone, and
/// nobody measured whether they came back.
pub open spec fn guest_failure_of(deleted: bool, error: Seq<char>) -> Seq<char> {
    if deleted {
        "chaos-kill guest failed after deleting pods; recovery was not measured: "@ + error
    } else {
        "chaos-kill guest failed: "@ + error
    }
}

/// What is said of a guest that failed.
pub fn guest_failure(deleted: bool, error: &str) -> (message: String)
    ensures
        message@ == guest_failure_of(deleted, error@),
{
    if deleted {
        glue2(
            "chaos-kill guest failed after deleting pods; recovery was not measured: ",
            error,
        )
    } else {
        glue2("chaos-kill guest failed: ", error)
    }
}

// ---------------------------------------------------------------------- laws --

/// A dry run deletes nothing, whatever the guest asks for.
pub proof fn dry_hosts_refuse_deletions(host: HostView, request: HostRequestView)
    requires
        host.scope.dry_run,
    ensures
        decided(host, request) matches Ok(step) ==> !(step.1 is Delete) && step.0 == host,
{
}

/// A deletion names only pods of the last listing, some but no more than were
/// asked for, and it is the first of the run.
pub proof fn deletions_name_listed_pods(host: HostView, pods: Seq<Seq<char>>)
    requires
        decided(host, HostRequestView::Delete { pods }) is Ok,
    ensures
        !host.scope.dry_run,
        !host.deleted,
        0 < pods.len() <= host.scope.count,
        forall|i: int| 0 <= i < pods.len() ==> host.listed.contains(#[trigger] pods[i]),
{
    let test = |pod: Seq<char>| !host.listed.contains(pod);
    assert forall|i: int| 0 <= i < pods.len() implies host.listed.contains(#[trigger] pods[i]) by {
        if !host.listed.contains(pods[i]) {
            unlisted_pods_are_found(pods, host.listed, i);
        }
    }
}

proof fn unlisted_pods_are_found(pods: Seq<Seq<char>>, listed: Set<Seq<char>>, at: int)
    requires
        0 <= at < pods.len(),
        !listed.contains(pods[at]),
    ensures
        first_match(pods, |pod: Seq<char>| !listed.contains(pod)) is Some,
    decreases pods.len(),
{
    if listed.contains(pods[0]) {
        unlisted_pods_are_found(pods.drop_first(), listed, at - 1);
    }
}

/// Once a deletion was allowed, none is allowed again, and nothing but a new
/// listing changes the host in between.
pub proof fn hosts_delete_at_most_once(host: HostView, request: HostRequestView)
    requires
        host.deleted,
    ensures
        request is Delete ==> decided(host, request) is Err,
        decided(host, request) matches Ok(step) ==> step.0.deleted,
{
}

/// Pods and ReplicaSets are listed by the selector of the workload and by no
/// other.
pub proof fn listings_use_the_workloads_selector(host: HostView, selector: Seq<char>)
    ensures
        decided(host, HostRequestView::Pods { selector }) is Ok <==> selector
            == host.scope.selector,
        decided(host, HostRequestView::ReplicaSets { selector }) is Ok <==> selector
            == host.scope.selector,
{
}

/// One exchange with a guest: what it asked for, and what kubectl printed where
/// that was a listing that succeeded.
pub struct Exchange {
    pub request: HostRequestView,
    pub listing: Option<Seq<char>>,
}

/// The host after an exchange.
pub open spec fn after_exchange(host: HostView, exchange: Exchange) -> HostView {
    match decided(host, exchange.request) {
        Ok((after, action)) => settled(after, action, exchange.listing),
        Err(_) => host,
    }
}

/// The deletions that a host carries out, one exchange after the other.
pub open spec fn deletions(host: HostView, exchanges: Seq<Exchange>) -> Seq<Seq<Seq<char>>>
    decreases exchanges.len(),
{
    if exchanges.len() == 0 {
        Seq::empty()
    } else {
        let rest = deletions(after_exchange(host, exchanges[0]), exchanges.drop_first());
        match (decided(host, exchanges[0].request), exchanges[0].request) {
            (Ok(_), HostRequestView::Delete { pods }) => seq![pods] + rest,
            _ => rest,
        }
    }
}

/// Whatever a guest asks for, and in whatever order: a run has at most one
/// deletion, a dry run has none, and the one names some pods but no more than the
/// request allows.
pub proof fn conversations_delete_at_most_once(host: HostView, exchanges: Seq<Exchange>)
    ensures
        deletions(host, exchanges).len() <= 1,
        host.scope.dry_run || host.deleted ==> deletions(host, exchanges).len() == 0,
        forall|i: int|
            0 <= i < deletions(host, exchanges).len() ==> 0 < (#[trigger] deletions(
                host,
                exchanges,
            )[i]).len() <= host.scope.count,
    decreases exchanges.len(),
{
    if exchanges.len() > 0 {
        let after = after_exchange(host, exchanges[0]);
        assert(after.scope == host.scope);
        conversations_delete_at_most_once(after, exchanges.drop_first());
        if let (Ok(_), HostRequestView::Delete { pods }) = (
            decided(host, exchanges[0].request),
            exchanges[0].request,
        ) {
            deletions_name_listed_pods(host, pods);
            assert(after.deleted);
        }
    }
}

} // verus!
