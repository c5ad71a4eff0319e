//! Deprecated apiVersions, as pluto and kubent find them.
use crate::encoding::{quote, quoted};
use crate::frame::REQUEST_MAX_BYTES;
use crate::numbers::{decimal, size_text};
use crate::report::{
    add_row, document, group_report, lines, lines_view, put_row, report_view, row_views,
    section_views, single_line, table, table_view, with_row, Report, ReportView, RowView, Section,
    SectionView,
};
use crate::sequences::{count_matches, selected};
use crate::text::{glue2, glue3, glue4, group_views, join, joined, same, text_view, views};
use crate::text_map::{text_or, text_or_blank, TextMap};
use vstd::prelude::*;

verus! {

/// What is shown where the diagnostics of a tool go on beyond what is passed on.
pub const DIAGNOSTICS_NOTICE: &'static str = "\n[deprecated-apis diagnostics truncated; scan continues]\n";

// ----------------------------------------------------------------- documents --

/// A request. A text that was left out is empty.
pub struct Request {
    pub schema_version: u32,
    pub context: String,
    pub namespace: String,
    pub name: String,
    pub inputs: TextMap<String>,
    /// The selected object, byte for byte as it came in.
    pub object: Option<String>,
}

/// What pluto found.
pub struct PlutoReport {
    pub items: Vec<PlutoItem>,
    pub target_versions: TextMap<String>,
}

/// An object in an apiVersion that pluto knows about.
pub struct PlutoItem {
    pub name: String,
    pub namespace: String,
    pub api: PlutoApi,
    pub deprecated: bool,
    pub removed: bool,
    pub replacement_available: bool,
}

/// An apiVersion that pluto knows about.
pub struct PlutoApi {
    pub version: String,
    pub kind: String,
    pub deprecated_in: String,
    pub removed_in: String,
    pub replacement_api: String,
    pub component: String,
}

/// An object in an apiVersion that is gone in some release, as kubent finds it.
pub struct KubentItem {
    pub name: String,
    pub namespace: String,
    pub kind: String,
    pub api_version: String,
    pub rule_set: String,
    pub replace_with: String,
}

/// A deprecated apiVersion, whichever tool found it.
#[verifier::ext_equal]
pub struct FindingView {
    pub name: Seq<char>,
    pub namespace: Seq<char>,
    pub kind: Seq<char>,
    pub version: Seq<char>,
    pub replacement: Seq<char>,
    pub note: Seq<char>,
    pub removed: bool,
    pub replaceable: bool,
}

/// A deprecated apiVersion, whichever tool found it.
#[derive(Debug, PartialEq, Eq)]
pub struct Finding {
    pub name: String,
    pub namespace: String,
    pub kind: String,
    pub version: String,
    pub replacement: String,
    pub note: String,
    pub removed: bool,
    pub replaceable: bool,
}

pub open spec fn finding_views(findings: Seq<Finding>) -> Seq<FindingView> {
    findings.map_values(|finding: Finding| finding@)
}

// ------------------------------------------------------------------- findings --

/// When an apiVersion goes. One that is deprecated and still served must not
/// read as already gone.
pub open spec fn note_of(removed: bool, removed_in: Seq<char>, deprecated_in: Seq<char>) -> Seq<
    char,
> {
    if removed && removed_in.len() > 0 {
        "removed in "@ + removed_in
    } else if !removed && removed_in.len() > 0 && deprecated_in.len() > 0 {
        "deprecated in "@ + deprecated_in + ", removed in "@ + removed_in
    } else if deprecated_in.len() > 0 {
        "deprecated in "@ + deprecated_in
    } else {
        Seq::empty()
    }
}

/// A finding of pluto's.
pub open spec fn pluto_finding(item: PlutoItem) -> FindingView {
    FindingView {
        name: item.name@,
        namespace: item.namespace@,
        kind: item.api.kind@,
        version: item.api.version@,
        replacement: item.api.replacement_api@,
        note: note_of(item.removed, item.api.removed_in@, item.api.deprecated_in@),
        removed: item.removed,
        replaceable: item.replacement_available || !item.removed,
    }
}

/// A value, unless it is the word that stands for none.
pub open spec fn defined(value: Seq<char>, sentinel: Seq<char>) -> Seq<char> {
    if value == sentinel {
        Seq::empty()
    } else {
        value
    }
}

/// A finding of kubent's, which only knows of apiVersions that are removed.
pub open spec fn kubent_finding(item: KubentItem) -> FindingView {
    let replacement = defined(item.replace_with@, "<removed>"@);
    FindingView {
        name: item.name@,
        namespace: defined(item.namespace@, "<undefined>"@),
        kind: item.kind@,
        version: item.api_version@,
        replacement,
        note: item.rule_set@,
        removed: true,
        replaceable: replacement.len() > 0,
    }
}

/// The line of a finding: `namespace/name — Kind old → new (note)`.
pub open spec fn line_of(finding: FindingView) -> Seq<char> {
    let place = if finding.namespace.len() == 0 {
        Seq::<char>::empty()
    } else {
        finding.namespace + "/"@
    };
    let named = place + if finding.name.len() == 0 {
        "<unnamed>"@
    } else {
        finding.name
    } + " — "@;
    let kind = if finding.kind.len() == 0 {
        named
    } else {
        named + finding.kind + " "@
    };
    let replaced = if finding.replacement.len() == 0 {
        kind + finding.version + " → no replacement"@
    } else {
        kind + finding.version + " → "@ + finding.replacement
    };
    if finding.note.len() == 0 {
        replaced
    } else {
        replaced + " ("@ + finding.note + ")"@
    }
}

/// A tool's word for a missing value, read as missing.
pub fn undefined(value: &str, sentinel: &str) -> (shown: String)
    ensures
        shown@ == defined(value@, sentinel@),
{
    if same(value, sentinel) {
        String::new()
    } else {
        value.to_owned()
    }
}

impl Finding {
    pub open spec fn view(&self) -> FindingView {
        FindingView {
            name: self.name@,
            namespace: self.namespace@,
            kind: self.kind@,
            version: self.version@,
            replacement: self.replacement@,
            note: self.note@,
            removed: self.removed,
            replaceable: self.replaceable,
        }
    }

    /// A finding of pluto's.
    pub fn from_pluto(item: &PlutoItem) -> (finding: Finding)
        ensures
            finding@ == pluto_finding(*item),
    {
        let gone = item.api.removed_in.as_str();
        let since = item.api.deprecated_in.as_str();
        let note = if item.removed && !gone.is_empty() {
            glue2("removed in ", gone)
        } else if !item.removed && !gone.is_empty() && !since.is_empty() {
            glue4("deprecated in ", since, ", removed in ", gone)
        } else if !since.is_empty() {
            glue2("deprecated in ", since)
        } else {
            String::new()
        };
        Finding {
            name: item.name.clone(),
            namespace: item.namespace.clone(),
            kind: item.api.kind.clone(),
            version: item.api.version.clone(),
            replacement: item.api.replacement_api.clone(),
            note,
            removed: item.removed,
            replaceable: item.replacement_available || !item.removed,
        }
    }

    /// A finding of kubent's.
    pub fn from_kubent(item: &KubentItem) -> (finding: Finding)
        ensures
            finding@ == kubent_finding(*item),
    {
        let namespace = undefined(item.namespace.as_str(), "<undefined>");
        let replacement = undefined(item.replace_with.as_str(), "<removed>");
        Finding {
            name: item.name.clone(),
            namespace,
            kind: item.kind.clone(),
            version: item.api_version.clone(),
            replaceable: !replacement.as_str().is_empty(),
            replacement,
            note: item.rule_set.clone(),
            removed: true,
        }
    }

    /// The line of a finding.
    pub fn line(&self) -> (text: String)
        ensures
            text@ == line_of(self@),
    {
        let mut text = String::new();
        if !self.namespace.as_str().is_empty() {
            text.append(self.namespace.as_str());
            text.append("/");
            assert(text@ =~= self.namespace@ + "/"@);
        }
        if self.name.as_str().is_empty() {
            text.append("<unnamed>");
        } else {
            text.append(self.name.as_str());
        }
        text.append(" — ");
        if !self.kind.as_str().is_empty() {
            text.append(self.kind.as_str());
            text.append(" ");
        }
        text.append(self.version.as_str());
        if self.replacement.as_str().is_empty() {
            text.append(" → no replacement");
        } else {
            text.append(" → ");
            text.append(self.replacement.as_str());
        }
        if !self.note.as_str().is_empty() {
            text.append(" (");
            text.append(self.note.as_str());
            text.append(")");
        }
        text
    }
}

// -------------------------------------------------------------------- sections --

/// How bad a finding is.
#[derive(Clone, Copy, Debug, PartialEq, Eq, Structural)]
pub enum Group {
    /// Removed, with nothing to turn it into.
    Stranded,
    Removed,
    Deprecated,
}

/// How bad a finding is.
pub open spec fn group_of(finding: FindingView) -> Group {
    if !finding.removed {
        Group::Deprecated
    } else if finding.replaceable {
        Group::Removed
    } else {
        Group::Stranded
    }
}

/// The lines of the findings of a group, in the order they came in.
pub open spec fn lines_of_group(findings: Seq<FindingView>, group: Group) -> Seq<Seq<char>> {
    selected(
        findings,
        |finding: FindingView|
            if group_of(finding) == group {
                Some(line_of(finding))
            } else {
                None
            },
    )
}

/// Sections with the lines of a list, where it has any.
pub open spec fn with_lines(
    sections: Seq<SectionView>,
    title: Seq<char>,
    list: Seq<Seq<char>>,
) -> Seq<SectionView> {
    if list.len() == 0 {
        sections
    } else {
        sections.push(lines_view(title, list))
    }
}

/// The findings by how bad they are, the worst first.
pub open spec fn sections_of(findings: Seq<FindingView>) -> Seq<SectionView> {
    with_lines(
        with_lines(
            with_lines(
                Seq::empty(),
                "Removed with no replacement"@,
                lines_of_group(findings, Group::Stranded),
            ),
            "Removed"@,
            lines_of_group(findings, Group::Removed),
        ),
        "Deprecated"@,
        lines_of_group(findings, Group::Deprecated),
    )
}

fn in_group(finding: &Finding, group: Group) -> (yes: bool)
    ensures
        yes == (group_of(finding@) == group),
{
    let found = if !finding.removed {
        Group::Deprecated
    } else if finding.replaceable {
        Group::Removed
    } else {
        Group::Stranded
    };
    found == group
}

fn group_lines(findings: &Vec<Finding>, group: Group) -> (list: Vec<String>)
    ensures
        views(list@) == lines_of_group(finding_views(findings@), group),
{
    let ghost all = finding_views(findings@);
    let ghost read = |finding: FindingView|
        if group_of(finding) == group {
            Some(line_of(finding))
        } else {
            None
        };
    let mut list: Vec<String> = Vec::new();
    let mut at: usize = 0;
    assert(views(list@) =~= Seq::<Seq<char>>::empty());
    while at < findings.len()
        invariant
            at <= findings@.len(),
            all == finding_views(findings@),
            read == (|finding: FindingView|
                if group_of(finding) == group {
                    Some(line_of(finding))
                } else {
                    None
                }),
            views(list@) == selected(all.take(at as int), read),
        decreases findings@.len() - at,
    {
        assert(all.take(at + 1).drop_last() =~= all.take(at as int));
        assert(all.take(at + 1).last() == findings@[at as int]@);
        if in_group(&findings[at], group) {
            let ghost before = list@;
            let line = findings[at].line();
            list.push(line);
            assert(views(list@) =~= views(before).push(line@));
        }
        at = at + 1;
    }
    assert(all.take(at as int) =~= all);
    list
}

fn add_lines(sections: &mut Vec<Section>, title: &str, list: Vec<String>)
    ensures
        section_views(final(sections)@) == with_lines(
            section_views(old(sections)@),
            title@,
            views(list@),
        ),
{
    broadcast use group_report;

    assert(views(list@).len() == list@.len());
    if list.len() > 0 {
        sections.push(lines(title, list));
    }
}

/// The findings by how bad they are, the worst first.
pub fn sections(findings: &Vec<Finding>) -> (list: Vec<Section>)
    ensures
        section_views(list@) == sections_of(finding_views(findings@)),
{
    broadcast use group_report;

    let mut list: Vec<Section> = Vec::new();
    add_lines(&mut list, "Removed with no replacement", group_lines(findings, Group::Stranded));
    add_lines(&mut list, "Removed", group_lines(findings, Group::Removed));
    add_lines(&mut list, "Deprecated", group_lines(findings, Group::Deprecated));
    list
}

proof fn groups_are_disjoint(findings: Seq<FindingView>)
    ensures
        lines_of_group(findings, Group::Stranded).len() + lines_of_group(
            findings,
            Group::Removed,
        ).len() + lines_of_group(findings, Group::Deprecated).len() == findings.len(),
    decreases findings.len(),
{
    if findings.len() > 0 {
        groups_are_disjoint(findings.drop_last());
    }
}

/// Every finding is shown in exactly one of the groups: there are as many lines
/// as findings, and no section is left out unless its group is empty.
pub proof fn every_finding_is_shown(findings: Seq<FindingView>)
    ensures
        lines_of_group(findings, Group::Stranded).len() + lines_of_group(
            findings,
            Group::Removed,
        ).len() + lines_of_group(findings, Group::Deprecated).len() == findings.len(),
        sections_of(findings).len() == 0 <==> findings.len() == 0,
{
    groups_are_disjoint(findings);
}

// --------------------------------------------------------------------- verdict --

/// The verdict over findings.
pub open spec fn verdict_of(findings: Seq<FindingView>) -> Seq<char> {
    let removed = count_matches(findings, |finding: FindingView| finding.removed);
    let deprecated = (findings.len() - removed) as nat;
    if findings.len() == 0 {
        "no deprecated apiVersions"@
    } else if removed == 0 {
        decimal(deprecated) + " deprecated"@
    } else if deprecated == 0 {
        decimal(removed) + " removed"@
    } else {
        decimal(removed) + " removed, "@ + decimal(deprecated) + " deprecated"@
    }
}

/// The verdict over findings.
pub fn verdict(findings: &Vec<Finding>) -> (text: String)
    ensures
        text@ == verdict_of(finding_views(findings@)),
{
    if findings.len() == 0 {
        return "no deprecated apiVersions".to_owned();
    }
    let ghost all = finding_views(findings@);
    let ghost test = |finding: FindingView| finding.removed;
    let mut removed: usize = 0;
    let mut at: usize = 0;
    while at < findings.len()
        invariant
            at <= findings@.len(),
            all == finding_views(findings@),
            test == (|finding: FindingView| finding.removed),
            removed == count_matches(all.take(at as int), test),
            removed <= at,
        decreases findings@.len() - at,
    {
        assert(all.take(at + 1).drop_last() =~= all.take(at as int));
        assert(all.take(at + 1).last() == findings@[at as int]@);
        if findings[at].removed {
            removed = removed + 1;
        }
        at = at + 1;
    }
    assert(all.take(at as int) =~= all);
    let deprecated = findings.len() - removed;
    let gone = size_text(removed);
    let left = size_text(deprecated);
    if removed == 0 {
        glue2(left.as_str(), " deprecated")
    } else if deprecated == 0 {
        glue2(gone.as_str(), " removed")
    } else {
        glue4(gone.as_str(), " removed, ", left.as_str(), " deprecated")
    }
}

// --------------------------------------------------------------------- actions --

/// What to do.
#[derive(Clone, Copy, Debug, PartialEq, Eq, Structural)]
pub enum Action {
    Pluto,
    Kubent,
    Resource,
}

/// The action of the command arguments. Without any it is a scan by pluto, and
/// there is never more than one.
pub open spec fn action_of(arguments: Seq<Seq<char>>) -> Result<Action, Seq<char>> {
    let action = if arguments.len() == 0 || arguments[0] == "pluto"@ {
        Ok(Action::Pluto)
    } else if arguments[0] == "kubent"@ {
        Ok(Action::Kubent)
    } else if arguments[0] == "resource"@ {
        Ok(Action::Resource)
    } else {
        Err("unknown action "@ + quoted(arguments[0]) + "; use pluto, kubent or resource"@)
    };
    if action is Ok && arguments.len() > 1 {
        Err("unexpected argument "@ + quoted(arguments[1]))
    } else {
        action
    }
}

/// The tool of an action.
pub open spec fn tool_of(action: Action) -> (Seq<char>, Seq<char>) {
    match action {
        Action::Kubent => (
            "kubent"@,
            "https://github.com/doitintl/kube-no-trouble#installation"@,
        ),
        _ => ("pluto"@, "https://pluto.docs.fairwinds.com/installation/"@),
    }
}

impl Action {
    /// Reads the command arguments.
    pub fn parse(arguments: &Vec<String>) -> (action: Result<Action, String>)
        ensures
            match action {
                Ok(action) => action_of(views(arguments@)) == Ok::<Action, Seq<char>>(action),
                Err(message) => action_of(views(arguments@)) == Err::<Action, Seq<char>>(message@),
            },
    {
        assert(views(arguments@).len() == arguments@.len());
        if arguments.len() == 0 {
            return Ok(Action::Pluto);
        }
        assert(views(arguments@)[0] == arguments@[0]@);
        let named = arguments[0].as_str();
        let action = if same(named, "pluto") {
            Action::Pluto
        } else if same(named, "kubent") {
            Action::Kubent
        } else if same(named, "resource") {
            Action::Resource
        } else {
            let quote = quote(named);
            return Err(
                glue3("unknown action ", quote.as_str(), "; use pluto, kubent or resource"),
            );
        };
        if arguments.len() > 1 {
            assert(views(arguments@)[1] == arguments@[1]@);
            let quote = quote(arguments[1].as_str());
            return Err(glue2("unexpected argument ", quote.as_str()));
        }
        Ok(action)
    }

    /// The tool of an action, and where to get it.
    pub fn tool(self) -> (tool: (&'static str, &'static str))
        ensures
            (tool.0@, tool.1@) == tool_of(self),
    {
        match self {
            Action::Kubent => (
                "kubent",
                "https://github.com/doitintl/kube-no-trouble#installation",
            ),
            _ => ("pluto", "https://pluto.docs.fairwinds.com/installation/"),
        }
    }
}

// ------------------------------------------------------------------- arguments --

/// Arguments that keep pluto's exit code about whether pluto itself worked: what
/// it finds is a result and not a failure.
pub open spec fn exit_flags() -> Seq<Seq<char>> {
    seq!["--ignore-deprecations"@, "--ignore-removals"@, "--ignore-unavailable-replacements"@]
}

fn add_exit_flags(arguments: &mut Vec<String>)
    ensures
        views(final(arguments)@) == views(old(arguments)@) + exit_flags(),
{
    broadcast use group_views;

    let ghost before = views(arguments@);
    arguments.push("--ignore-deprecations".to_owned());
    arguments.push("--ignore-removals".to_owned());
    arguments.push("--ignore-unavailable-replacements".to_owned());
    assert(views(arguments@) =~= before + exit_flags());
}

/// Arguments with an option, where it has a value.
pub open spec fn with_option(arguments: Seq<Seq<char>>, flag: Seq<char>, value: Seq<char>) -> Seq<
    Seq<char>,
> {
    if value.len() == 0 {
        arguments
    } else {
        arguments.push(flag).push(value)
    }
}

fn add_option(arguments: &mut Vec<String>, flag: &str, value: String)
    ensures
        views(final(arguments)@) == with_option(views(old(arguments)@), flag@, value@),
{
    broadcast use group_views;

    if !value.as_str().is_empty() {
        arguments.push(flag.to_owned());
        arguments.push(value);
    }
}

/// A version as pluto takes it.
pub open spec fn k8s_version(version: Seq<char>) -> Seq<char> {
    if version.len() == 0 {
        Seq::empty()
    } else {
        "k8s="@ + version
    }
}

/// The arguments of a scan by pluto.
pub open spec fn pluto_arguments_of(request: &Request) -> Seq<Seq<char>> {
    with_option(
        with_option(
            with_option(
                seq!["detect-all-in-cluster"@, "--output"@, "json"@],
                "--kube-context"@,
                request.context@,
            ),
            "--namespace"@,
            text_or(request.inputs@, "namespace"@),
        ),
        "--target-versions"@,
        k8s_version(text_or(request.inputs@, "target_version"@)),
    ) + exit_flags()
}

/// The arguments of a scan by pluto.
pub fn pluto_arguments(request: &Request) -> (arguments: Vec<String>)
    ensures
        views(arguments@) == pluto_arguments_of(request),
{
    broadcast use group_views;

    let mut arguments: Vec<String> = Vec::new();
    arguments.push("detect-all-in-cluster".to_owned());
    arguments.push("--output".to_owned());
    arguments.push("json".to_owned());
    assert(views(arguments@) =~= seq!["detect-all-in-cluster"@, "--output"@, "json"@]);
    add_option(&mut arguments, "--kube-context", request.context.clone());
    add_option(&mut arguments, "--namespace", text_or_blank(&request.inputs, "namespace"));
    let version = text_or_blank(&request.inputs, "target_version");
    let wanted = if version.as_str().is_empty() {
        String::new()
    } else {
        glue2("k8s=", version.as_str())
    };
    assert(wanted@.len() == 0 ==> version@.len() == 0) by {
        reveal_strlit("k8s=");
    }
    add_option(&mut arguments, "--target-versions", wanted);
    add_exit_flags(&mut arguments);
    arguments
}

/// The arguments of a check of the selected object by pluto.
pub fn resource_arguments() -> (arguments: Vec<String>)
    ensures
        views(arguments@) == seq!["detect"@, "-"@, "--output"@, "json"@] + exit_flags(),
{
    broadcast use group_views;

    let mut arguments: Vec<String> = Vec::new();
    arguments.push("detect".to_owned());
    arguments.push("-".to_owned());
    arguments.push("--output".to_owned());
    arguments.push("json".to_owned());
    assert(views(arguments@) =~= seq!["detect"@, "-"@, "--output"@, "json"@]);
    add_exit_flags(&mut arguments);
    arguments
}

/// The arguments of a scan by kubent.
pub open spec fn kubent_arguments_of(request: &Request) -> Seq<Seq<char>> {
    with_option(
        with_option(
            seq!["--output"@, "json"@, "--log-level"@, "error"@],
            "--context"@,
            request.context@,
        ),
        "--target-version"@,
        text_or(request.inputs@, "target_version"@),
    )
}

/// The arguments of a scan by kubent.
pub fn kubent_arguments(request: &Request) -> (arguments: Vec<String>)
    ensures
        views(arguments@) == kubent_arguments_of(request),
{
    broadcast use group_views;

    let mut arguments: Vec<String> = Vec::new();
    arguments.push("--output".to_owned());
    arguments.push("json".to_owned());
    arguments.push("--log-level".to_owned());
    arguments.push("error".to_owned());
    assert(views(arguments@) =~= seq!["--output"@, "json"@, "--log-level"@, "error"@]);
    add_option(&mut arguments, "--context", request.context.clone());
    add_option(&mut arguments, "--target-version", text_or_blank(&request.inputs, "target_version"));
    arguments
}

// -------------------------------------------------------------------- fetching --

/// What an action needs from outside the request.
#[verifier::ext_equal]
pub enum FetchView {
    Replay { path: Seq<char> },
    Run { arguments: Seq<Seq<char>>, input: Option<Seq<char>> },
}

/// What an action needs from outside the request.
#[derive(Debug, PartialEq, Eq)]
pub enum Fetch {
    Replay { path: String },
    Run { arguments: Vec<String>, input: Option<String> },
}

impl Fetch {
    pub open spec fn view(&self) -> FetchView {
        match self {
            Fetch::Replay { path } => FetchView::Replay { path: path@ },
            Fetch::Run { arguments, input } => FetchView::Run {
                arguments: views(arguments@),
                input: text_view(*input),
            },
        }
    }
}

/// What an action needs: a saved report where one is named, a run of its tool
/// otherwise. A check of the selected object hands it to the tool as it came in.
pub open spec fn fetch_of(action: Action, request: &Request) -> Result<FetchView, Seq<char>> {
    let saved = text_or(request.inputs@, "report"@);
    if saved.len() > 0 {
        Ok(FetchView::Replay { path: saved })
    } else {
        match action {
            Action::Pluto => Ok(
                FetchView::Run { arguments: pluto_arguments_of(request), input: None },
            ),
            Action::Kubent => Ok(
                FetchView::Run { arguments: kubent_arguments_of(request), input: None },
            ),
            Action::Resource => match text_view(request.object) {
                Some(object) => Ok(
                    FetchView::Run {
                        arguments: seq!["detect"@, "-"@, "--output"@, "json"@] + exit_flags(),
                        input: Some(object),
                    },
                ),
                None => Err("the request has no object to check"@),
            },
        }
    }
}

/// What an action needs from outside the request.
pub fn fetch(action: Action, request: &Request) -> (needed: Result<Fetch, String>)
    ensures
        match needed {
            Ok(needed) => fetch_of(action, request) == Ok::<FetchView, Seq<char>>(needed@),
            Err(message) => fetch_of(action, request) == Err::<FetchView, Seq<char>>(message@),
        },
{
    let saved = text_or_blank(&request.inputs, "report");
    if !saved.as_str().is_empty() {
        return Ok(Fetch::Replay { path: saved });
    }
    match action {
        Action::Pluto => Ok(Fetch::Run { arguments: pluto_arguments(request), input: None }),
        Action::Kubent => Ok(Fetch::Run { arguments: kubent_arguments(request), input: None }),
        Action::Resource => match &request.object {
            Some(object) => Ok(
                Fetch::Run { arguments: resource_arguments(), input: Some(object.clone()) },
            ),
            None => Err("the request has no object to check".to_owned()),
        },
    }
}

/// A saved report that was read with a limit.
pub open spec fn replayed_of(path: Seq<char>, bytes: Seq<u8>) -> Result<Seq<u8>, Seq<char>> {
    if bytes.len() > REQUEST_MAX_BYTES {
        Err("saved report "@ + path + " exceeds 1 MiB"@)
    } else {
        Ok(bytes)
    }
}

/// A saved report that was read with a limit.
pub fn replay(path: &str, bytes: Vec<u8>) -> (contents: Result<Vec<u8>, String>)
    ensures
        match contents {
            Ok(contents) => replayed_of(path@, bytes@) == Ok::<Seq<u8>, Seq<char>>(contents@),
            Err(message) => replayed_of(path@, bytes@) == Err::<Seq<u8>, Seq<char>>(message@),
        },
{
    if bytes.len() > REQUEST_MAX_BYTES {
        return Err(glue3("saved report ", path, " exceeds 1 MiB"));
    }
    Ok(bytes)
}

// --------------------------------------------------------------------- reports --

/// The context of a request.
pub open spec fn context_of(request: &Request) -> Seq<char> {
    if request.context@.len() == 0 {
        "inferred"@
    } else {
        request.context@
    }
}

/// The context of a request.
pub fn context(request: &Request) -> (shown: String)
    ensures
        shown@ == context_of(request),
{
    if request.context.as_str().is_empty() {
        "inferred".to_owned()
    } else {
        request.context.clone()
    }
}

/// The selected object in words.
pub open spec fn selection_of(request: &Request) -> Seq<char> {
    if request.namespace@.len() == 0 {
        request.name@
    } else {
        request.namespace@ + "/"@ + request.name@
    }
}

/// The selected object in words.
pub fn selection(request: &Request) -> (shown: String)
    ensures
        shown@ == selection_of(request),
{
    if request.namespace.as_str().is_empty() {
        request.name.clone()
    } else {
        glue3(request.namespace.as_str(), "/", request.name.as_str())
    }
}

/// A target version in words.
pub open spec fn target_of(entry: (Seq<char>, String)) -> Seq<char> {
    entry.0 + "="@ + entry.1@
}

/// The target versions in words.
pub open spec fn targets_of(versions: Seq<(Seq<char>, String)>) -> Seq<char> {
    joined(versions.map_values(|entry: (Seq<char>, String)| target_of(entry)), " "@)
}

fn targets(versions: &TextMap<String>) -> (shown: String)
    ensures
        shown@ == targets_of(versions@),
{
    let mut list: Vec<String> = Vec::new();
    let mut at: usize = 0;
    while at < versions.len()
        invariant
            at <= versions@.len(),
            list@.len() == at,
            forall|i: int| 0 <= i < at ==> (#[trigger] list@[i])@ == target_of(versions@[i]),
        decreases versions@.len() - at,
    {
        list.push(glue3(versions.key(at).as_str(), "=", versions.value(at).as_str()));
        at = at + 1;
    }
    assert(views(list@) =~= versions@.map_values(
        |entry: (Seq<char>, String)| target_of(entry),
    ));
    join(&list, " ")
}

/// The report of findings. One without any says so.
pub open spec fn report_of(title: Seq<char>, rows: Seq<RowView>, findings: Seq<FindingView>) -> ReportView {
    let found = seq![table_view("Summary"@, rows)] + sections_of(findings);
    report_view(
        title,
        if findings.len() == 0 {
            found.push(
                lines_view(
                    "Result"@,
                    seq![
                        "Nothing found. Every apiVersion checked is current for the target version."@,
                    ],
                ),
            )
        } else {
            found
        },
    )
}

/// The report of findings.
pub fn report(title: &str, rows: Vec<(String, String)>, findings: &Vec<Finding>) -> (written: Report)
    ensures
        written@ == report_of(title@, row_views(rows@), finding_views(findings@)),
{
    broadcast use group_report;

    let ghost shown = row_views(rows@);
    let ghost all = finding_views(findings@);
    let mut list: Vec<Section> = Vec::new();
    list.push(table("Summary", rows));
    let mut found = sections(findings);
    list.append(&mut found);
    assert(section_views(list@) =~= seq![table_view("Summary"@, shown)] + sections_of(all));
    if findings.len() == 0 {
        list.push(
            single_line(
                "Result",
                "Nothing found. Every apiVersion checked is current for the target version.",
            ),
        );
    }
    document(title, list)
}

/// What a tool found.
pub enum Source {
    Pluto(PlutoReport),
    Kubent(Vec<KubentItem>),
}

/// Whether an action was given what its tool writes.
pub open spec fn suits(action: Action, source: &Source) -> bool {
    match action {
        Action::Kubent => source is Kubent,
        _ => source is Pluto,
    }
}

/// The findings of pluto's.
pub open spec fn pluto_findings(items: Seq<PlutoItem>) -> Seq<FindingView> {
    items.map_values(|item: PlutoItem| pluto_finding(item))
}

/// The findings of kubent's.
pub open spec fn kubent_findings(items: Seq<KubentItem>) -> Seq<FindingView> {
    items.map_values(|item: KubentItem| kubent_finding(item))
}

/// The report of an action.
pub open spec fn rendered_of(action: Action, request: &Request, source: &Source) -> ReportView {
    match source {
        Source::Kubent(items) => {
            let findings = kubent_findings(items@);
            let rows = with_row(Seq::empty(), "Verdict"@, verdict_of(findings));
            let rows = rows.push(("Context"@, context_of(request)));
            let rows = with_row(rows, "Scanned"@, "cluster and Helm v3 releases"@);
            let rows = with_row(rows, "Findings"@, decimal(findings.len()));
            report_of("Deprecated APIs (kubent)"@, rows, findings)
        },
        Source::Pluto(found) => {
            let findings = pluto_findings(found.items@);
            let rows = with_row(Seq::empty(), "Verdict"@, verdict_of(findings));
            let rows = rows.push(("Context"@, context_of(request)));
            let rows = if action == Action::Resource {
                with_row(rows, "Selection"@, selection_of(request))
            } else {
                with_row(rows, "Namespace"@, text_or(request.inputs@, "namespace"@))
            };
            let rows = with_row(rows, "Target versions"@, targets_of(found.target_versions@));
            let rows = with_row(rows, "Findings"@, decimal(findings.len()));
            report_of(
                if action == Action::Resource {
                    "Deprecated APIs (selection)"@
                } else {
                    "Deprecated APIs (pluto)"@
                },
                rows,
                findings,
            )
        },
    }
}

fn from_kubent_items(items: &Vec<KubentItem>) -> (findings: Vec<Finding>)
    ensures
        finding_views(findings@) == kubent_findings(items@),
{
    let mut findings: Vec<Finding> = Vec::new();
    let mut at: usize = 0;
    while at < items.len()
        invariant
            at <= items@.len(),
            findings@.len() == at,
            forall|i: int| 0 <= i < at ==> (#[trigger] findings@[i])@ == kubent_finding(items@[i]),
        decreases items@.len() - at,
    {
        findings.push(Finding::from_kubent(&items[at]));
        at = at + 1;
    }
    assert(finding_views(findings@) =~= kubent_findings(items@));
    findings
}

fn from_pluto_items(items: &Vec<PlutoItem>) -> (findings: Vec<Finding>)
    ensures
        finding_views(findings@) == pluto_findings(items@),
{
    let mut findings: Vec<Finding> = Vec::new();
    let mut at: usize = 0;
    while at < items.len()
        invariant
            at <= items@.len(),
            findings@.len() == at,
            forall|i: int| 0 <= i < at ==> (#[trigger] findings@[i])@ == pluto_finding(items@[i]),
        decreases items@.len() - at,
    {
        findings.push(Finding::from_pluto(&items[at]));
        at = at + 1;
    }
    assert(finding_views(findings@) =~= pluto_findings(items@));
    findings
}

/// The report of an action.
pub fn render(action: Action, request: &Request, source: &Source) -> (written: Report)
    requires
        suits(action, source),
    ensures
        written@ == rendered_of(action, request, source),
{
    broadcast use group_report;

    let mut rows: Vec<(String, String)> = Vec::new();
    match source {
        Source::Kubent(items) => {
            let findings = from_kubent_items(items);
            assert(finding_views(findings@).len() == findings@.len());
            add_row(&mut rows, "Verdict", verdict(&findings));
            put_row(&mut rows, "Context", context(request));
            add_row(&mut rows, "Scanned", "cluster and Helm v3 releases".to_owned());
            add_row(&mut rows, "Findings", size_text(findings.len()));
            report("Deprecated APIs (kubent)", rows, &findings)
        },
        Source::Pluto(found) => {
            let findings = from_pluto_items(&found.items);
            assert(finding_views(findings@).len() == findings@.len());
            add_row(&mut rows, "Verdict", verdict(&findings));
            put_row(&mut rows, "Context", context(request));
            if action == Action::Resource {
                add_row(&mut rows, "Selection", selection(request));
            } else {
                add_row(&mut rows, "Namespace", text_or_blank(&request.inputs, "namespace"));
            }
            add_row(&mut rows, "Target versions", targets(&found.target_versions));
            add_row(&mut rows, "Findings", size_text(findings.len()));
            let title = if action == Action::Resource {
                "Deprecated APIs (selection)"
            } else {
                "Deprecated APIs (pluto)"
            };
            report(title, rows, &findings)
        },
    }
}

} // verus!
