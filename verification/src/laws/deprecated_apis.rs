//! What a report on deprecated APIs says of what was found.
use crate::deprecated_apis::{
    action_of, fetch_of, group_of, kubent_arguments_of, kubent_finding, kubent_findings, line_of,
    lines_of_group, pluto_arguments_of, pluto_finding, pluto_findings, rendered_of, replayed_of,
    report_of, sections_of, verdict_of, Action, FetchView, FindingView, Group, KubentItem,
    PlutoItem, PlutoReport, Request, Source,
};
use crate::laws::reading::{
    counted, decimals_are_spelled, ends, given, giving, group_cells, holds, lines_begin, lines_end,
    listed, listed_of_sum, made_of, parts_are_held, rows_in, selections_have_what_is_made, spelled,
    told, two_numbers, unless_empty,
};
use crate::numbers::decimal;
use crate::report::{table_view, ReportView, RowView, SectionView};
use crate::sequences::{count_bounded, count_matches};
use crate::text::begins;
use crate::text_map::text_or;
use vstd::prelude::*;

verus! {

// ---------------------------------------------------------------------- lines --

/// Whether kubent names something that takes the place of an apiVersion.
pub open spec fn names_replacement(item: KubentItem) -> bool {
    item.replace_with@.len() > 0 && item.replace_with@ != "<removed>"@
}

/// A text or, where it is empty, a word.
pub open spec fn or_word(text: Seq<char>, word: Seq<char>) -> Seq<char> {
    if text.len() == 0 {
        word
    } else {
        text
    }
}

/// Whether a line shows what a finding is about: where it is and what it is
/// called first, its kind and apiVersion, what takes their place, and a note at
/// the end where there is one.
pub open spec fn shows(
    line: Seq<char>,
    namespace: Seq<char>,
    name: Seq<char>,
    kind: Seq<char>,
    version: Seq<char>,
    replacement: Seq<char>,
    note: Seq<char>,
) -> bool {
    &&& namespace.len() > 0 ==> begins(
        line,
        namespace + "/"@ + or_word(name, "<unnamed>"@) + " — "@,
    )
    &&& namespace.len() == 0 ==> begins(line, or_word(name, "<unnamed>"@) + " — "@)
    &&& kind.len() > 0 ==> holds(line, " — "@ + kind + " "@ + version + " → "@)
    &&& kind.len() == 0 ==> holds(line, " — "@ + version + " → "@)
    &&& note.len() > 0 ==> ends(
        line,
        version + " → "@ + or_word(replacement, "no replacement"@) + " ("@ + note + ")"@,
    )
    &&& note.len() == 0 ==> ends(line, version + " → "@ + or_word(replacement, "no replacement"@))
}

proof fn regrouped(
    start: Seq<char>,
    dash: Seq<char>,
    kind: Seq<char>,
    version: Seq<char>,
    arrow: Seq<char>,
    what: Seq<char>,
    noted: Seq<char>,
)
    ensures
        ({
            let line = start + dash + kind + version + arrow + what + noted;
            &&& line == (start + dash) + (kind + version + arrow + what + noted)
            &&& line == start + (dash + kind + version + arrow) + (what + noted)
            &&& line == (start + dash + kind) + (version + arrow + what + noted)
            &&& line == (start + dash + kind + version) + (arrow + what) + noted
        }),
{
}

/// Where a finding is and what it is called.
spec fn place_of(finding: FindingView) -> Seq<char> {
    if finding.namespace.len() == 0 {
        or_word(finding.name, "<unnamed>"@)
    } else {
        finding.namespace + "/"@ + or_word(finding.name, "<unnamed>"@)
    }
}

/// A kind with a space behind it, where there is one.
spec fn spaced(kind: Seq<char>) -> Seq<char> {
    if kind.len() == 0 {
        Seq::empty()
    } else {
        kind + " "@
    }
}

/// A note in brackets, where there is one.
spec fn bracketed(note: Seq<char>) -> Seq<char> {
    if note.len() == 0 {
        Seq::empty()
    } else {
        " ("@ + note + ")"@
    }
}

proof fn lines_have_parts(finding: FindingView)
    ensures
        line_of(finding) == place_of(finding) + " — "@ + spaced(finding.kind) + finding.version
            + " → "@ + or_word(finding.replacement, "no replacement"@) + bracketed(finding.note),
{
    reveal_strlit(" → no replacement");
    reveal_strlit(" → ");
    reveal_strlit("no replacement");
    assert(" → no replacement"@ =~= " → "@ + "no replacement"@);
    let name = or_word(finding.name, "<unnamed>"@);
    assert(Seq::<char>::empty() + name =~= name);
    let named = place_of(finding) + " — "@;
    assert(named + finding.kind + " "@ =~= named + (finding.kind + " "@));
    assert(named + Seq::<char>::empty() =~= named);
    let kind = named + spaced(finding.kind) + finding.version;
    assert(kind + (" → "@ + "no replacement"@) =~= kind + " → "@ + "no replacement"@);
    let replaced = kind + " → "@ + or_word(finding.replacement, "no replacement"@);
    assert(replaced + " ("@ + finding.note + ")"@ =~= replaced + (" ("@ + finding.note + ")"@));
    assert(replaced + Seq::<char>::empty() =~= replaced);
}

proof fn lines_show_findings(finding: FindingView)
    ensures
        shows(
            line_of(finding),
            finding.namespace,
            finding.name,
            finding.kind,
            finding.version,
            finding.replacement,
            finding.note,
        ),
        holds(line_of(finding), " → "@ + or_word(finding.replacement, "no replacement"@)),
{
    let start = place_of(finding);
    let kind = spaced(finding.kind);
    let version = finding.version;
    let what = or_word(finding.replacement, "no replacement"@);
    let noted = bracketed(finding.note);
    lines_have_parts(finding);
    regrouped(start, " — "@, kind, version, " → "@, what, noted);
    lines_begin(start + " — "@, kind + version + " → "@ + what + noted);
    parts_are_held(start, " — "@ + kind + version + " → "@, what + noted);
    parts_are_held(start + " — "@ + kind + version, " → "@ + what, noted);
    lines_end(start + " — "@ + kind, version + " → "@ + what + noted);
    assert(" — "@ + (finding.kind + " "@) + version =~= " — "@ + finding.kind + " "@ + version);
    assert(" — "@ + Seq::<char>::empty() =~= " — "@);
    let last = version + " → "@ + what;
    assert(last + Seq::<char>::empty() =~= last);
    assert(last + (" ("@ + finding.note + ")"@) =~= last + " ("@ + finding.note + ")"@);
}

/// The line on what kubent found shows what takes the place of the apiVersion,
/// and that nothing does where kubent names nothing.
pub proof fn kubent_lines_show_the_replacement(item: KubentItem)
    ensures
        ({
            let line = line_of(kubent_finding(item));
            &&& shows(
                line,
                if item.namespace@ == "<undefined>"@ {
                    Seq::empty()
                } else {
                    item.namespace@
                },
                item.name@,
                item.kind@,
                item.api_version@,
                if names_replacement(item) {
                    item.replace_with@
                } else {
                    Seq::empty()
                },
                item.rule_set@,
            )
            &&& names_replacement(item) ==> holds(line, " → "@ + item.replace_with@)
            &&& !names_replacement(item) ==> holds(line, " → "@ + "no replacement"@)
        }),
{
    reveal_strlit("<removed>");
    let finding = kubent_finding(item);
    lines_show_findings(finding);
    assert(finding.replacement =~= if names_replacement(item) {
        item.replace_with@
    } else {
        Seq::empty()
    });
    assert(finding.namespace =~= if item.namespace@ == "<undefined>"@ {
        Seq::empty()
    } else {
        item.namespace@
    });
}

/// What kubent found can be replaced exactly where a replacement is shown, and is
/// always something that is removed.
pub proof fn kubent_findings_are_removed(item: KubentItem)
    ensures
        kubent_finding(item).removed,
        kubent_finding(item).replaceable <==> names_replacement(item),
        kubent_finding(item).replaceable <==> kubent_finding(item).replacement.len() > 0,
{
    reveal_strlit("<removed>");
}

/// The line on what pluto found shows what takes the place of the apiVersion, and
/// when it goes: what is still served is not said to be removed already.
pub proof fn pluto_lines_show_the_replacement(item: PlutoItem)
    ensures
        ({
            let line = line_of(pluto_finding(item));
            let removed_in = item.api.removed_in@;
            let deprecated_in = item.api.deprecated_in@;
            let version = item.api.version@;
            let what = or_word(item.api.replacement_api@, "no replacement"@);
            &&& holds(line, " → "@ + what)
            &&& item.removed && removed_in.len() > 0 ==> shows(
                line,
                item.namespace@,
                item.name@,
                item.api.kind@,
                version,
                item.api.replacement_api@,
                "removed in "@ + removed_in,
            )
            &&& item.removed && removed_in.len() == 0 && deprecated_in.len() == 0 ==> shows(
                line,
                item.namespace@,
                item.name@,
                item.api.kind@,
                version,
                item.api.replacement_api@,
                Seq::empty(),
            )
            &&& !item.removed && removed_in.len() > 0 && deprecated_in.len() > 0 ==> shows(
                line,
                item.namespace@,
                item.name@,
                item.api.kind@,
                version,
                item.api.replacement_api@,
                "deprecated in "@ + deprecated_in + ", removed in "@ + removed_in,
            )
            &&& removed_in.len() == 0 && deprecated_in.len() > 0 ==> shows(
                line,
                item.namespace@,
                item.name@,
                item.api.kind@,
                version,
                item.api.replacement_api@,
                "deprecated in "@ + deprecated_in,
            )
            &&& !item.removed && deprecated_in.len() == 0 ==> shows(
                line,
                item.namespace@,
                item.name@,
                item.api.kind@,
                version,
                item.api.replacement_api@,
                Seq::empty(),
            )
        }),
{
    lines_show_findings(pluto_finding(item));
}

/// What pluto found is removed where pluto says so, and can be replaced where it
/// is still served or a replacement is there.
pub proof fn pluto_findings_are_as_reported(item: PlutoItem)
    ensures
        pluto_finding(item).removed <==> item.removed,
        item.removed ==> (pluto_finding(item).replaceable <==> item.replacement_available),
        !item.removed ==> pluto_finding(item).replaceable,
{
}

// ------------------------------------------------------------------- sections --

proof fn section_names()
    ensures
        "Summary"@.len() == 7 && "Summary"@[0] == 'S',
        "Removed with no replacement"@.len() == 27,
        "Removed"@.len() == 7 && "Removed"@[0] == 'R',
        "Deprecated"@.len() == 10,
        "Result"@.len() == 6,
        "Summary"@ != "Removed"@,
{
    reveal_strlit("Summary");
    reveal_strlit("Removed with no replacement");
    reveal_strlit("Removed");
    reveal_strlit("Deprecated");
    reveal_strlit("Result");
    assert("Summary"@[0] != "Removed"@[0]);
}

/// Whether a line is listed under a title.
pub open spec fn is_listed(report: ReportView, title: Seq<char>, line: Seq<char>) -> bool {
    listed(report.sections, title) matches Some(lines) && lines.contains(line)
}

proof fn findings_are_listed_by_group(
    findings: Seq<FindingView>,
    title: Seq<char>,
    rows: Seq<RowView>,
)
    ensures
        ({
            let report = report_of(title, rows, findings);
            let stranded = lines_of_group(findings, Group::Stranded);
            let removed = lines_of_group(findings, Group::Removed);
            let deprecated = lines_of_group(findings, Group::Deprecated);
            &&& listed(report.sections, "Removed with no replacement"@) == if stranded.len() == 0 {
                None
            } else {
                Some(stranded)
            }
            &&& listed(report.sections, "Removed"@) == if removed.len() == 0 {
                None
            } else {
                Some(removed)
            }
            &&& listed(report.sections, "Deprecated"@) == if deprecated.len() == 0 {
                None
            } else {
                Some(deprecated)
            }
        }),
{
    broadcast use group_cells;

    section_names();
    let head = seq![table_view("Summary"@, rows)];
    let tail = sections_of(findings);
    assert(head =~= Seq::<SectionView>::empty().push(
        table_view("Summary"@, rows),
    ));
    listed_of_sum(head, tail, "Removed with no replacement"@);
    listed_of_sum(head, tail, "Removed"@);
    listed_of_sum(head, tail, "Deprecated"@);
}

proof fn groups_have_their_findings(findings: Seq<FindingView>, group: Group)
    ensures
        forall|i: int|
            0 <= i < findings.len() && group_of(#[trigger] findings[i]) == group ==> lines_of_group(
                findings,
                group,
            ).contains(line_of(findings[i])),
{
    let read = |finding: FindingView|
        if group_of(finding) == group {
            Some(line_of(finding))
        } else {
            None
        };
    selections_have_what_is_made(findings, read);
    assert forall|i: int|
        0 <= i < findings.len() && group_of(#[trigger] findings[i]) == group implies lines_of_group(
        findings,
        group,
    ).contains(line_of(findings[i])) by {
        assert(read(findings[i]) == Some(line_of(findings[i])));
    }
}

/// Everything kubent found is listed, under "Removed" where it names a replacement
/// and under "Removed with no replacement" where it does not.
pub proof fn kubent_findings_are_listed(
    action: Action,
    request: &Request,
    items: Vec<KubentItem>,
    at: int,
)
    requires
        0 <= at < items@.len(),
    ensures
        ({
            let report = rendered_of(action, request, &Source::Kubent(items));
            let line = line_of(kubent_finding(items@[at]));
            &&& names_replacement(items@[at]) ==> is_listed(report, "Removed"@, line)
            &&& !names_replacement(items@[at]) ==> is_listed(
                report,
                "Removed with no replacement"@,
                line,
            )
            &&& listed(report.sections, "Deprecated"@) is None
        }),
{
    let findings = kubent_findings(items@);
    let report = rendered_of(action, request, &Source::Kubent(items));
    kubent_findings_are_removed(items@[at]);
    findings_are_listed_by_group(findings, report.title, rows_in(report.sections[0]));
    groups_have_their_findings(findings, Group::Removed);
    groups_have_their_findings(findings, Group::Stranded);
    assert(findings[at] == kubent_finding(items@[at]));
    let read = |finding: FindingView|
        if group_of(finding) == Group::Deprecated {
            Some(line_of(finding))
        } else {
            None
        };
    selections_have_what_is_made(findings, read);
    if lines_of_group(findings, Group::Deprecated).len() > 0 {
        assert(made_of(findings, read, lines_of_group(findings, Group::Deprecated)[0]));
    }
}

/// Everything pluto found is listed: what is still served under "Deprecated", and
/// what is removed by whether a replacement is there.
pub proof fn pluto_findings_are_listed(
    action: Action,
    request: &Request,
    found: PlutoReport,
    at: int,
)
    requires
        0 <= at < found.items@.len(),
    ensures
        ({
            let report = rendered_of(action, request, &Source::Pluto(found));
            let item = found.items@[at];
            let line = line_of(pluto_finding(item));
            &&& !item.removed ==> is_listed(report, "Deprecated"@, line)
            &&& item.removed && item.replacement_available ==> is_listed(report, "Removed"@, line)
            &&& item.removed && !item.replacement_available ==> is_listed(
                report,
                "Removed with no replacement"@,
                line,
            )
        }),
{
    let findings = pluto_findings(found.items@);
    let report = rendered_of(action, request, &Source::Pluto(found));
    findings_are_listed_by_group(findings, report.title, rows_in(report.sections[0]));
    groups_have_their_findings(findings, Group::Removed);
    groups_have_their_findings(findings, Group::Stranded);
    groups_have_their_findings(findings, Group::Deprecated);
    assert(findings[at] == pluto_finding(found.items@[at]));
}

// -------------------------------------------------------------------- summary --

/// Whether a verdict says how many findings are removed and how many are only
/// deprecated. A number of none is left out.
pub open spec fn says(verdict: Seq<char>, removed: nat, deprecated: nat) -> bool {
    if removed == 0 && deprecated == 0 {
        verdict == "no deprecated apiVersions"@
    } else if removed == 0 {
        exists|number: Seq<char>|
            #![trigger spelled(number)]
            spelled(number) == Some(deprecated) && verdict == number + " deprecated"@
    } else if deprecated == 0 {
        exists|number: Seq<char>|
            #![trigger spelled(number)]
            spelled(number) == Some(removed) && verdict == number + " removed"@
    } else {
        two_numbers(verdict, removed, " removed, "@, deprecated, " deprecated"@)
    }
}

proof fn verdicts_say(findings: Seq<FindingView>)
    ensures
        says(
            verdict_of(findings),
            count_matches(findings, |finding: FindingView| finding.removed),
            (findings.len() - count_matches(
                findings,
                |finding: FindingView| finding.removed,
            )) as nat,
        ),
        verdict_of(findings).len() > 0,
{
    broadcast use decimals_are_spelled;

    let test = |finding: FindingView| finding.removed;
    count_bounded(findings, test);
    let removed = count_matches(findings, test);
    let deprecated = (findings.len() - removed) as nat;
    assert(spelled(decimal(removed)) == Some(removed));
    assert(spelled(decimal(deprecated)) == Some(deprecated));
    reveal_strlit("no deprecated apiVersions");
    reveal_strlit(" deprecated");
    reveal_strlit(" removed");
    reveal_strlit(" removed, ");
}

proof fn kubent_counts(items: Seq<KubentItem>)
    ensures
        count_matches(kubent_findings(items), |finding: FindingView| finding.removed)
            == items.len(),
    decreases items.len(),
{
    if items.len() > 0 {
        kubent_counts(items.drop_last());
        assert(kubent_findings(items).drop_last() =~= kubent_findings(items.drop_last()));
    }
}

proof fn pluto_counts(items: Seq<PlutoItem>)
    ensures
        count_matches(pluto_findings(items), |finding: FindingView| finding.removed)
            == count_matches(items, |item: PlutoItem| item.removed),
    decreases items.len(),
{
    if items.len() > 0 {
        pluto_counts(items.drop_last());
        assert(pluto_findings(items).drop_last() =~= pluto_findings(items.drop_last()));
    }
}

proof fn summary_names()
    ensures
        "Verdict"@.len() == 7 && "Verdict"@[0] == 'V',
        "Context"@.len() == 7 && "Context"@[0] == 'C',
        "Scanned"@.len() == 7 && "Scanned"@[0] == 'S',
        "Namespace"@.len() == 9 && "Namespace"@[0] == 'N',
        "Selection"@.len() == 9 && "Selection"@[0] == 'S',
        "Target versions"@.len() == 15,
        "Findings"@.len() == 8,
        "Verdict"@ != "Context"@,
        "Verdict"@ != "Scanned"@,
        "Context"@ != "Scanned"@,
        "Namespace"@ != "Selection"@,
{
    reveal_strlit("Verdict");
    reveal_strlit("Context");
    reveal_strlit("Scanned");
    reveal_strlit("Namespace");
    reveal_strlit("Selection");
    reveal_strlit("Target versions");
    reveal_strlit("Findings");
    assert("Verdict"@[0] != "Context"@[0]);
    assert("Verdict"@[0] != "Scanned"@[0]);
    assert("Context"@[0] != "Scanned"@[0]);
    assert("Namespace"@[0] != "Selection"@[0]);
}

/// The summary of what kubent found says how much it is, all of it removed, and
/// of which context.
pub proof fn kubent_summaries_tell_of_the_scan(
    action: Action,
    request: &Request,
    items: Vec<KubentItem>,
)
    ensures
        ({
            let report = rendered_of(action, request, &Source::Kubent(items));
            &&& told(report, "Verdict"@) matches Some(verdict) && says(verdict, items@.len(), 0)
            &&& told(report, "Context"@) == Some(or_word(request.context@, "inferred"@))
            &&& report.title == "Deprecated APIs (kubent)"@
            &&& told(report, "Scanned"@) == Some("cluster and Helm v3 releases"@)
            &&& counted(report, "Findings"@) == Some(items@.len())
            &&& items@.len() == 0 <==> listed(report.sections, "Result"@) is Some
        }),
{
    broadcast use {group_cells, decimals_are_spelled};

    summary_names();
    section_names();
    reveal_strlit("cluster and Helm v3 releases");
    let findings = kubent_findings(items@);
    verdicts_say(findings);
    kubent_counts(items@);
    assert(spelled(decimal(items@.len())) is Some);
    let report = rendered_of(action, request, &Source::Kubent(items));
    results_are_listed(findings, report.title, rows_in(report.sections[0]));
}

proof fn results_are_listed(findings: Seq<FindingView>, title: Seq<char>, rows: Seq<RowView>)
    ensures
        findings.len() == 0 <==> listed(
            report_of(title, rows, findings).sections,
            "Result"@,
        ) is Some,
        report_of(title, rows, findings).sections[0] == table_view("Summary"@, rows),
{
    broadcast use group_cells;

    section_names();
    let head = seq![table_view("Summary"@, rows)];
    let tail = sections_of(findings);
    assert(head =~= Seq::<SectionView>::empty().push(table_view("Summary"@, rows)));
    listed_of_sum(head, tail, "Result"@);
}

/// The summary of what pluto found says how much of it is removed and how much
/// only deprecated, and what was looked at.
pub proof fn pluto_summaries_tell_of_the_scan(
    action: Action,
    request: &Request,
    found: PlutoReport,
)
    ensures
        ({
            let report = rendered_of(action, request, &Source::Pluto(found));
            let removed = count_matches(found.items@, |item: PlutoItem| item.removed);
            &&& told(report, "Verdict"@) matches Some(verdict) && says(
                verdict,
                removed,
                (found.items@.len() - removed) as nat,
            )
            &&& told(report, "Context"@) == Some(or_word(request.context@, "inferred"@))
            &&& counted(report, "Findings"@) == Some(found.items@.len())
            &&& found.items@.len() == 0 <==> listed(report.sections, "Result"@) is Some
            &&& action == Action::Resource && request.name@.len() > 0 ==> told(
                report,
                "Selection"@,
            ) == Some(
                if request.namespace@.len() == 0 {
                    request.name@
                } else {
                    request.namespace@ + "/"@ + request.name@
                },
            )
            &&& action != Action::Resource ==> told(report, "Namespace"@) == unless_empty(
                text_or(request.inputs@, "namespace"@),
            )
            &&& action == Action::Resource ==> report.title == "Deprecated APIs (selection)"@
            &&& action != Action::Resource ==> report.title == "Deprecated APIs (pluto)"@
            &&& found.target_versions@.len() == 1 ==> told(report, "Target versions"@) == Some(
                found.target_versions@[0].0 + "="@ + found.target_versions@[0].1@,
            )
        }),
{
    broadcast use {group_cells, decimals_are_spelled};

    summary_names();
    section_names();
    reveal_strlit("=");
    let findings = pluto_findings(found.items@);
    verdicts_say(findings);
    pluto_counts(found.items@);
    assert(spelled(decimal(found.items@.len())) is Some);
    let report = rendered_of(action, request, &Source::Pluto(found));
    results_are_listed(findings, report.title, rows_in(report.sections[0]));
}

// ----------------------------------------------------------------------- runs --

/// Pluto is asked for the context, the namespace and the version that were asked
/// for, and told not to call what it finds a failure.
pub proof fn pluto_scans_what_was_asked_for(request: &Request)
    ensures
        ({
            let arguments = pluto_arguments_of(request);
            let namespace = text_or(request.inputs@, "namespace"@);
            let version = text_or(request.inputs@, "target_version"@);
            &&& arguments[0] == "detect-all-in-cluster"@
            &&& given(arguments, "--output"@, "json"@)
            &&& request.context@.len() > 0 ==> given(arguments, "--kube-context"@, request.context@)
            &&& namespace.len() > 0 ==> given(arguments, "--namespace"@, namespace)
            &&& version.len() > 0 ==> given(arguments, "--target-versions"@, "k8s="@ + version)
            &&& arguments.contains("--ignore-deprecations"@)
            &&& arguments.contains("--ignore-removals"@)
            &&& arguments.contains("--ignore-unavailable-replacements"@)
            &&& arguments.len() == 6 + twice(request.context@) + twice(namespace) + twice(version)
        }),
{
    let arguments = pluto_arguments_of(request);
    let namespace = text_or(request.inputs@, "namespace"@);
    let version = text_or(request.inputs@, "target_version"@);
    let flags = arguments.len() - 3;
    reveal_strlit("k8s=");
    assert(arguments[flags] == "--ignore-deprecations"@);
    assert(arguments[flags + 1] == "--ignore-removals"@);
    assert(arguments[flags + 2] == "--ignore-unavailable-replacements"@);
    giving(arguments, 1);
    if request.context@.len() > 0 {
        giving(arguments, 3);
    }
    if namespace.len() > 0 {
        giving(arguments, 3 + twice(request.context@));
    }
    if version.len() > 0 {
        giving(arguments, 3 + twice(request.context@) + twice(namespace));
    }
}

/// How many arguments an option with a value takes: none where it has no value.
pub open spec fn twice(value: Seq<char>) -> int {
    if value.len() == 0 {
        0
    } else {
        2
    }
}

/// Kubent is asked for the context and the version that were asked for.
pub proof fn kubent_scans_what_was_asked_for(request: &Request)
    ensures
        ({
            let arguments = kubent_arguments_of(request);
            let version = text_or(request.inputs@, "target_version"@);
            &&& given(arguments, "--output"@, "json"@)
            &&& given(arguments, "--log-level"@, "error"@)
            &&& request.context@.len() > 0 ==> given(arguments, "--context"@, request.context@)
            &&& version.len() > 0 ==> given(arguments, "--target-version"@, version)
            &&& arguments.len() == 4 + twice(request.context@) + twice(version)
        }),
{
    let arguments = kubent_arguments_of(request);
    let version = text_or(request.inputs@, "target_version"@);
    giving(arguments, 0);
    giving(arguments, 2);
    if request.context@.len() > 0 {
        giving(arguments, 4);
    }
    if version.len() > 0 {
        giving(arguments, 4 + twice(request.context@));
    }
}

/// A saved report is read where one is named. Otherwise the tool of the action
/// runs, on the selected object for a check of it and on the cluster for a scan.
pub proof fn actions_get_what_they_need(action: Action, request: &Request)
    ensures
        ({
            let saved = text_or(request.inputs@, "report"@);
            let needed = fetch_of(action, request);
            &&& saved.len() > 0 ==> needed == Ok::<FetchView, Seq<char>>(
                FetchView::Replay { path: saved },
            )
            &&& saved.len() == 0 && action != Action::Resource ==> (needed matches Ok(
                FetchView::Run { input, .. },
            ) && input is None)
            &&& saved.len() == 0 && action == Action::Resource ==> match request.object {
                Some(object) => needed matches Ok(FetchView::Run { arguments, input }) && input
                    == Some(object@) && arguments[0] == "detect"@ && arguments[1] == "-"@ && given(
                    arguments,
                    "--output"@,
                    "json"@,
                ) && arguments.len() == 7,
                None => needed == Err::<FetchView, Seq<char>>(
                    "the request has no object to check"@,
                ),
            }
            &&& saved.len() == 0 && action == Action::Pluto ==> needed == Ok::<
                FetchView,
                Seq<char>,
            >(FetchView::Run { arguments: pluto_arguments_of(request), input: None })
            &&& saved.len() == 0 && action == Action::Kubent ==> needed == Ok::<
                FetchView,
                Seq<char>,
            >(FetchView::Run { arguments: kubent_arguments_of(request), input: None })
        }),
{
    if let Ok(FetchView::Run { arguments, .. }) = fetch_of(action, request) {
        if action == Action::Resource {
            giving(arguments, 2);
        }
    }
}

/// The words that name an action, and nothing else, are understood.
pub proof fn actions_are_named(arguments: Seq<Seq<char>>)
    ensures
        action_of(arguments) == Ok::<Action, Seq<char>>(Action::Kubent) <==> arguments == seq![
            "kubent"@,
        ],
        action_of(arguments) == Ok::<Action, Seq<char>>(Action::Resource) <==> arguments == seq![
            "resource"@,
        ],
        action_of(arguments) == Ok::<Action, Seq<char>>(Action::Pluto) <==> arguments.len() == 0
            || arguments == seq!["pluto"@],
{
    action_words();
    if arguments.len() == 1 {
        assert(arguments =~= seq![arguments[0]]);
    }
}

proof fn action_words()
    ensures
        "kubent"@.len() == 6,
        "resource"@.len() == 8,
        "pluto"@.len() == 5,
{
    reveal_strlit("kubent");
    reveal_strlit("resource");
    reveal_strlit("pluto");
}

/// A saved report is used as it was read, unless it is larger than 1 MiB.
pub proof fn saved_reports_are_replayed(path: Seq<char>, bytes: Seq<u8>)
    ensures
        bytes.len() <= 1048576 <==> replayed_of(path, bytes) is Ok,
        replayed_of(path, bytes) matches Ok(contents) ==> contents == bytes,
        replayed_of(path, bytes) matches Err(message) ==> message == "saved report "@ + path
            + " exceeds 1 MiB"@,
{
}

} // verus!
