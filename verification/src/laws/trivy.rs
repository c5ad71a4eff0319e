//! What a Trivy report says of what was found.
use crate::budget::{
    after_block, blocks_are_paid_for, full_budget, grown, lines_are_paid_for,
    nothing_is_lost_silently, spent, with_block,
};
use crate::laws::reading::{
    counted, decimals_are_spelled, ends, follows, given, giving, group_cells, group_lines,
    group_numbers_in_lines, holds, is_figure, leads, lines_in, spelled, told, unless_empty,
};
use crate::numbers::decimal;
use crate::report::{table_view, RowView};
use crate::sequences::{count_bounded, count_matches};
use crate::text::{begins, views};
use crate::trivy::{
    arguments_of, counts_of, findings_in, item_line, kind_of, no_counts, recorded, rendered_of,
    rendered_views, resource_sections, severity_of, summary_rows, tally_of, with_finding, Counts,
    Envelope, Finding, Item, Misconfiguration, ReaderView, Secret, Severity, Vulnerability,
};
use vstd::prelude::*;

verus! {

// --------------------------------------------------------------------- counts --

/// Whether an item is of a severity.
pub open spec fn has_severity(item: Item, severity: Severity) -> bool {
    match item {
        Item::Vulnerability(found) => found.severity == severity,
        Item::Misconfiguration(found) => found.severity == severity,
        Item::Secret(found) => found.severity == severity,
    }
}

/// The counts once items were recorded one after the other.
pub open spec fn tallied(items: Seq<Item>) -> Counts
    decreases items.len(),
{
    if items.len() == 0 {
        no_counts()
    } else {
        recorded(tallied(items.drop_last()), kind_of(&items.last()), severity_of(&items.last()))
    }
}

/// How many of the items are of a severity.
pub open spec fn severe(items: Seq<Item>, severity: Severity) -> nat {
    count_matches(items, |item: Item| has_severity(item, severity))
}

/// How many of the items are vulnerabilities.
pub open spec fn vulnerabilities_in(items: Seq<Item>) -> nat {
    count_matches(items, |item: Item| item is Vulnerability)
}

/// How many of the items are misconfigurations.
pub open spec fn misconfigurations_in(items: Seq<Item>) -> nat {
    count_matches(items, |item: Item| item is Misconfiguration)
}

/// How many of the items are secrets.
pub open spec fn secrets_in(items: Seq<Item>) -> nat {
    count_matches(items, |item: Item| item is Secret)
}

/// Every count is the number of items of that severity or of that sort.
pub proof fn items_are_counted(items: Seq<Item>)
    requires
        items.len() <= usize::MAX,
    ensures
        tallied(items).critical == severe(items, Severity::Critical),
        tallied(items).high == severe(items, Severity::High),
        tallied(items).medium == severe(items, Severity::Medium),
        tallied(items).low == severe(items, Severity::Low),
        tallied(items).unknown == severe(items, Severity::Unknown),
        tallied(items).vulnerabilities == vulnerabilities_in(items),
        tallied(items).misconfigurations == misconfigurations_in(items),
        tallied(items).secrets == secrets_in(items),
        tallied(items).errors == 0,
        findings_in(tallied(items)) == items.len(),
    decreases items.len(),
{
    if items.len() > 0 {
        let before = items.drop_last();
        items_are_counted(before);
        count_bounded(before, |item: Item| has_severity(item, Severity::Critical));
        count_bounded(before, |item: Item| has_severity(item, Severity::High));
        count_bounded(before, |item: Item| has_severity(item, Severity::Medium));
        count_bounded(before, |item: Item| has_severity(item, Severity::Low));
        count_bounded(before, |item: Item| has_severity(item, Severity::Unknown));
        count_bounded(before, |item: Item| item is Vulnerability);
        count_bounded(before, |item: Item| item is Misconfiguration);
        count_bounded(before, |item: Item| item is Secret);
    }
}

/// All items of all resources.
pub open spec fn all_items(items: Seq<Seq<Item>>) -> Seq<Item>
    decreases items.len(),
{
    if items.len() == 0 {
        Seq::empty()
    } else {
        all_items(items.drop_last()) + items.last()
    }
}

/// What a reader holds once resources were taken in one after the other.
pub open spec fn gathered(findings: Seq<Finding>) -> ReaderView
    decreases findings.len(),
{
    if findings.len() == 0 {
        ReaderView { budget: full_budget(), resources: Seq::empty(), counts: no_counts() }
    } else {
        with_finding(gathered(findings.drop_last()), &findings.last())
    }
}

/// Whether the results of each resource are those of its items.
pub open spec fn are_results(findings: Seq<Finding>, items: Seq<Seq<Item>>) -> bool {
    &&& findings.len() == items.len()
    &&& forall|i: int|
        0 <= i < findings.len() ==> (#[trigger] findings[i]).results.counts == tallied(items[i])
}

proof fn matches_add_up<T>(left: Seq<T>, right: Seq<T>, test: spec_fn(T) -> bool)
    ensures
        count_matches(left + right, test) == count_matches(left, test) + count_matches(right, test),
    decreases right.len(),
{
    if right.len() == 0 {
        assert(left + right =~= left);
    } else {
        assert((left + right).drop_last() =~= left + right.drop_last());
        matches_add_up(left, right.drop_last(), test);
    }
}

proof fn items_add_up(left: Seq<Item>, right: Seq<Item>)
    ensures
        forall|severity: Severity| #[trigger]
            severe(left + right, severity) == severe(left, severity) + severe(right, severity),
        vulnerabilities_in(left + right) == vulnerabilities_in(left) + vulnerabilities_in(right),
        misconfigurations_in(left + right) == misconfigurations_in(left) + misconfigurations_in(
            right,
        ),
        secrets_in(left + right) == secrets_in(left) + secrets_in(right),
{
    assert forall|severity: Severity| #[trigger]
        severe(left + right, severity) == severe(left, severity) + severe(right, severity) by {
        matches_add_up(left, right, |item: Item| has_severity(item, severity));
    }
    matches_add_up(left, right, |item: Item| item is Vulnerability);
    matches_add_up(left, right, |item: Item| item is Misconfiguration);
    matches_add_up(left, right, |item: Item| item is Secret);
}

/// The counts of a scan are those of the items of all its resources, and its
/// errors are the resources that could not be scanned.
pub proof fn scans_count_every_item(findings: Seq<Finding>, items: Seq<Seq<Item>>)
    requires
        are_results(findings, items),
        all_items(items).len() <= usize::MAX,
        findings.len() <= usize::MAX,
    ensures
        gathered(findings).counts.critical == severe(all_items(items), Severity::Critical),
        gathered(findings).counts.high == severe(all_items(items), Severity::High),
        gathered(findings).counts.medium == severe(all_items(items), Severity::Medium),
        gathered(findings).counts.low == severe(all_items(items), Severity::Low),
        gathered(findings).counts.unknown == severe(all_items(items), Severity::Unknown),
        gathered(findings).counts.vulnerabilities == vulnerabilities_in(all_items(items)),
        gathered(findings).counts.misconfigurations == misconfigurations_in(all_items(items)),
        gathered(findings).counts.secrets == secrets_in(all_items(items)),
        gathered(findings).counts.errors == count_matches(
            findings,
            |finding: Finding| finding.error@.len() > 0,
        ),
        findings_in(gathered(findings).counts) == all_items(items).len(),
    decreases findings.len(),
{
    let failed = |finding: Finding| finding.error@.len() > 0;
    if findings.len() > 0 {
        let before = findings.drop_last();
        let earlier = items.drop_last();
        let last = findings.last();
        assert(findings[findings.len() - 1] == last);
        assert(items[items.len() - 1] == items.last());
        assert forall|i: int| 0 <= i < before.len() implies (
        #[trigger] before[i]).results.counts == tallied(earlier[i]) by {
            assert(before[i] == findings[i]);
        }
        assert(last.results.counts == tallied(items.last()));
        scans_count_every_item(before, earlier);
        items_are_counted(items.last());
        items_add_up(all_items(earlier), items.last());
        count_bounded(before, failed);
        severities_are_bounded(all_items(items));
        assert(findings_in(last.results.counts) == items.last().len());
        assert(severe(all_items(items), Severity::Critical) <= usize::MAX);
        assert(severe(all_items(items), Severity::High) <= usize::MAX);
        assert(severe(all_items(items), Severity::Medium) <= usize::MAX);
        assert(severe(all_items(items), Severity::Low) <= usize::MAX);
        assert(severe(all_items(items), Severity::Unknown) <= usize::MAX);
        if items.last().len() == 0 {
            assert(all_items(items) =~= all_items(earlier));
        }
    }
}

proof fn severities_are_bounded(items: Seq<Item>)
    ensures
        forall|severity: Severity| #[trigger] severe(items, severity) <= items.len(),
        vulnerabilities_in(items) <= items.len(),
        misconfigurations_in(items) <= items.len(),
        secrets_in(items) <= items.len(),
{
    assert forall|severity: Severity| #[trigger] severe(items, severity) <= items.len() by {
        count_bounded(items, |item: Item| has_severity(item, severity));
    }
    count_bounded(items, |item: Item| item is Vulnerability);
    count_bounded(items, |item: Item| item is Misconfiguration);
    count_bounded(items, |item: Item| item is Secret);
}

// -------------------------------------------------------------------- reports --

proof fn summary_names()
    ensures
        "Findings"@.len() == 8 && "Findings"@[0] == 'F',
        "Critical"@.len() == 8 && "Critical"@[0] == 'C',
        "High"@.len() == 4,
        "Medium"@.len() == 6,
        "Low"@.len() == 3,
        "Vulnerabilities"@.len() == 15,
        "Misconfigurations"@.len() == 17,
        "Secrets"@.len() == 7 && "Secrets"@[1] == 'e',
        "Context"@.len() == 7 && "Context"@[1] == 'o',
        "Cluster"@.len() == 7 && "Cluster"@[1] == 'l',
        "Namespace"@.len() == 9 && "Namespace"@[0] == 'N',
        "Resources"@.len() == 9 && "Resources"@[0] == 'R',
        "Scan errors"@.len() == 11,
        "Findings"@ != "Critical"@,
        "Secrets"@ != "Context"@,
        "Secrets"@ != "Cluster"@,
        "Context"@ != "Cluster"@,
        "Namespace"@ != "Resources"@,
{
    reveal_strlit("Findings");
    reveal_strlit("Critical");
    reveal_strlit("High");
    reveal_strlit("Medium");
    reveal_strlit("Low");
    reveal_strlit("Vulnerabilities");
    reveal_strlit("Misconfigurations");
    reveal_strlit("Secrets");
    reveal_strlit("Context");
    reveal_strlit("Cluster");
    reveal_strlit("Namespace");
    reveal_strlit("Resources");
    reveal_strlit("Scan errors");
    assert("Findings"@[0] != "Critical"@[0]);
    assert("Secrets"@[0] != "Context"@[0]);
    assert("Secrets"@[0] != "Cluster"@[0]);
    assert("Context"@[1] != "Cluster"@[1]);
    assert("Namespace"@[0] != "Resources"@[0]);
}

/// The summary gives every count under its own name, and tells of the rest under
/// the name of each thing.
pub proof fn summaries_give_every_count(
    envelope: &Envelope,
    context: Seq<char>,
    namespace: Seq<char>,
)
    ensures
        ({
            let report = rendered_of(envelope, context, namespace);
            let counts = envelope.findings.counts;
            &&& counted(report, "Findings"@) == Some(
                (counts.vulnerabilities + counts.misconfigurations + counts.secrets) as nat,
            )
            &&& counted(report, "Critical"@) == Some(counts.critical as nat)
            &&& counted(report, "High"@) == Some(counts.high as nat)
            &&& counted(report, "Medium"@) == Some(counts.medium as nat)
            &&& counted(report, "Low"@) == Some(counts.low as nat)
            &&& counted(report, "Vulnerabilities"@) == Some(counts.vulnerabilities as nat)
            &&& counted(report, "Misconfigurations"@) == Some(counts.misconfigurations as nat)
            &&& counted(report, "Secrets"@) == Some(counts.secrets as nat)
            &&& told(report, "Context"@) == unless_empty(context)
            &&& told(report, "Cluster"@) == unless_empty(envelope.cluster_name@)
            &&& told(report, "Namespace"@) == Some(
                if namespace.len() == 0 {
                    "all"@
                } else {
                    namespace
                },
            )
            &&& report.title == "Trivy scan"@
            &&& counted(report, "Resources"@) == Some(envelope.findings.resources@.len())
            &&& counts.errors == 0 ==> told(report, "Scan errors"@) is None
            &&& counts.errors > 0 ==> counted(report, "Scan errors"@) == Some(
                counts.errors as nat,
            )
        }),
{
    broadcast use {group_cells, decimals_are_spelled};

    summary_names();
    let counts = envelope.findings.counts;
    assert(spelled(decimal(counts.critical as nat)) is Some);
    assert(spelled(decimal(counts.high as nat)) is Some);
    assert(spelled(decimal(counts.medium as nat)) is Some);
    assert(spelled(decimal(counts.low as nat)) is Some);
    assert(spelled(decimal(counts.vulnerabilities as nat)) is Some);
    assert(spelled(decimal(counts.misconfigurations as nat)) is Some);
    assert(spelled(decimal(counts.secrets as nat)) is Some);
    assert(spelled(decimal(findings_in(counts) as nat)) is Some);
    assert(spelled(decimal(counts.errors as nat)) is Some);
    assert(spelled(decimal(envelope.findings.resources@.len())) is Some);
    let counted_rows = seq![
        ("Findings"@, decimal(findings_in(counts) as nat)),
        ("Critical"@, decimal(counts.critical as nat)),
        ("High"@, decimal(counts.high as nat)),
        ("Medium"@, decimal(counts.medium as nat)),
        ("Low"@, decimal(counts.low as nat)),
        ("Vulnerabilities"@, decimal(counts.vulnerabilities as nat)),
        ("Misconfigurations"@, decimal(counts.misconfigurations as nat)),
        ("Secrets"@, decimal(counts.secrets as nat)),
    ];
    assert(counted_rows =~= Seq::<RowView>::empty().push(
        ("Findings"@, decimal(findings_in(counts) as nat)),
    ).push(
        ("Critical"@, decimal(counts.critical as nat)),
    ).push(
        ("High"@, decimal(counts.high as nat)),
    ).push(
        ("Medium"@, decimal(counts.medium as nat)),
    ).push(
        ("Low"@, decimal(counts.low as nat)),
    ).push(
        ("Vulnerabilities"@, decimal(counts.vulnerabilities as nat)),
    ).push(
        ("Misconfigurations"@, decimal(counts.misconfigurations as nat)),
    ).push(
        ("Secrets"@, decimal(counts.secrets as nat)),
    ));
    let report = rendered_of(envelope, context, namespace);
    assert(report.sections[0] == table_view(
        "Summary"@,
        summary_rows(
            counts,
            envelope.findings.resources@.len(),
            envelope.cluster_name@,
            context,
            namespace,
        ),
    ));
}

/// Each row that is named after a severity or a sort of finding shows how many of
/// the items that were taken in are of that severity or that sort.
pub proof fn rows_count_the_items_of_their_name(
    envelope: &Envelope,
    context: Seq<char>,
    namespace: Seq<char>,
    findings: Seq<Finding>,
    items: Seq<Seq<Item>>,
)
    requires
        are_results(findings, items),
        all_items(items).len() <= usize::MAX,
        findings.len() <= usize::MAX,
        envelope.findings.counts == gathered(findings).counts,
    ensures
        ({
            let report = rendered_of(envelope, context, namespace);
            let found = all_items(items);
            &&& counted(report, "Findings"@) == Some(found.len())
            &&& counted(report, "Critical"@) == Some(severe(found, Severity::Critical))
            &&& counted(report, "High"@) == Some(severe(found, Severity::High))
            &&& counted(report, "Medium"@) == Some(severe(found, Severity::Medium))
            &&& counted(report, "Low"@) == Some(severe(found, Severity::Low))
            &&& counted(report, "Vulnerabilities"@) == Some(vulnerabilities_in(found))
            &&& counted(report, "Misconfigurations"@) == Some(misconfigurations_in(found))
            &&& counted(report, "Secrets"@) == Some(secrets_in(found))
            &&& (forall|i: int|
                0 <= i < found.len() ==> !has_severity(#[trigger] found[i], Severity::High))
                ==> counted(report, "High"@) == Some(0nat)
        }),
{
    summaries_give_every_count(envelope, context, namespace);
    scans_count_every_item(findings, items);
    let found = all_items(items);
    let high = |item: Item| has_severity(item, Severity::High);
    if forall|i: int| 0 <= i < found.len() ==> !has_severity(#[trigger] found[i], Severity::High) {
        nothing_matches(found, high);
    }
}

proof fn nothing_matches<T>(items: Seq<T>, test: spec_fn(T) -> bool)
    requires
        forall|i: int| 0 <= i < items.len() ==> !test(#[trigger] items[i]),
    ensures
        count_matches(items, test) == 0,
    decreases items.len(),
{
    if items.len() > 0 {
        assert(!test(items[items.len() - 1]));
        assert forall|i: int| 0 <= i < items.drop_last().len() implies !test(
            #[trigger] items.drop_last()[i],
        ) by {
            assert(!test(items[i]));
        }
        nothing_matches(items.drop_last(), test);
    }
}

proof fn tally_words()
    ensures
        " vulnerabilities · "@.len() == 19 && !is_figure(" vulnerabilities · "@.last()),
        " misconfigurations · "@.len() == 21 && !is_figure(" misconfigurations · "@.last()),
        " secrets · C "@.len() == 13,
        " H "@.len() == 3 && !is_figure(" H "@[0]),
        " M "@.len() == 3 && !is_figure(" M "@[0]),
        " L "@.len() == 3 && !is_figure(" L "@[0]),
        " U "@.len() == 3 && !is_figure(" U "@[0]),
{
    reveal_strlit(" vulnerabilities · ");
    reveal_strlit(" misconfigurations · ");
    reveal_strlit(" secrets · C ");
    reveal_strlit(" H ");
    reveal_strlit(" M ");
    reveal_strlit(" L ");
    reveal_strlit(" U ");
}

/// The tally of a resource gives each count by the word or the letter that stands
/// for it.
pub proof fn tallies_name_their_counts(counts: Counts)
    ensures
        leads(tally_of(counts), counts.vulnerabilities as nat, " vulnerabilities · "@),
        leads(tally_of(counts), counts.misconfigurations as nat, " misconfigurations · "@),
        leads(tally_of(counts), counts.secrets as nat, " secrets · C "@),
        follows(tally_of(counts), " secrets · C "@, counts.critical as nat),
        follows(tally_of(counts), " H "@, counts.high as nat),
        follows(tally_of(counts), " M "@, counts.medium as nat),
        follows(tally_of(counts), " L "@, counts.low as nat),
        follows(tally_of(counts), " U "@, counts.unknown as nat),
{
    broadcast use group_numbers_in_lines;

    tally_words();
    let one = decimal(counts.vulnerabilities as nat);
    assert(Seq::<char>::empty() + one =~= one);
    let words = one + " vulnerabilities · "@;
    assert(words.last() == " vulnerabilities · "@.last());
    let more = words + decimal(counts.misconfigurations as nat) + " misconfigurations · "@;
    assert(more.last() == " misconfigurations · "@.last());
}

// ---------------------------------------------------------------------- lines --

/// The word for a severity.
pub open spec fn severity_word(severity: Severity) -> Seq<char> {
    match severity {
        Severity::Critical => "CRITICAL"@,
        Severity::High => "HIGH"@,
        Severity::Medium => "MEDIUM"@,
        Severity::Low => "LOW"@,
        Severity::Unknown => "UNKNOWN"@,
    }
}

/// The line on a vulnerability says that it is one, how severe it is and which it
/// is, then the package with the installed version and the one that fixes it, and
/// its title last.
pub proof fn vulnerabilities_are_described(item: Vulnerability)
    ensures
        ({
            let line = item_line(&Item::Vulnerability(item));
            &&& begins(
                line,
                "  [vulnerability] "@ + severity_word(item.severity) + " "@ + item.id@,
            )
            &&& item.package@.len() > 0 ==> holds(
                line,
                item.id@ + " · "@ + item.package@ + "@"@ + item.installed@,
            )
            &&& item.fixed@.len() > 0 ==> holds(line, " → "@ + item.fixed@)
            &&& item.title@.len() > 0 ==> ends(line, " — "@ + item.title@)
            &&& item.package@.len() == 0 && item.fixed@.len() == 0 && item.title@.len() == 0
                ==> line == "  [vulnerability] "@ + severity_word(item.severity) + " "@ + item.id@
        }),
{
    broadcast use group_lines;

    let tag = "  [vulnerability] "@ + severity_word(item.severity) + " "@;
    let start = tag + item.id@;
    let part = item.id@ + " · "@ + item.package@ + "@"@ + item.installed@;
    let packaged = if item.package@.len() == 0 {
        start
    } else {
        start + " · "@ + item.package@ + "@"@ + item.installed@
    };
    if item.package@.len() > 0 {
        assert(packaged =~= tag + part);
        assert(holds(packaged, part));
        assert(begins(start + " · "@, start));
        assert(begins(packaged, start));
    }
    let fixed = if item.fixed@.len() == 0 {
        packaged
    } else {
        packaged + " → "@ + item.fixed@
    };
    if item.fixed@.len() > 0 {
        assert(fixed =~= packaged + (" → "@ + item.fixed@));
    }
    if item.title@.len() > 0 {
        assert(fixed + " — "@ + item.title@ =~= fixed + (" — "@ + item.title@));
    }
    assert(begins(start + Seq::<char>::empty(), start));
}

/// The line on a misconfiguration says that it is one, how severe it is and which
/// it is, and then its title or, without one, its message.
pub proof fn misconfigurations_are_described(item: Misconfiguration)
    ensures
        ({
            let line = item_line(&Item::Misconfiguration(item));
            let start = "  [misconfiguration] "@ + severity_word(item.severity) + " "@ + item.id@;
            &&& item.title@.len() > 0 ==> line == start + " — "@ + item.title@
            &&& item.title@.len() == 0 && item.message@.len() > 0 ==> line == start + " — "@
                + item.message@
            &&& item.title@.len() == 0 && item.message@.len() == 0 ==> line == start
        }),
{
}

/// The line on a secret says that it is one, how severe it is and which it is, and
/// then its title or, without one, its category.
pub proof fn secrets_are_described(item: Secret)
    ensures
        ({
            let line = item_line(&Item::Secret(item));
            let start = "  [secret] "@ + severity_word(item.severity) + " "@ + item.id@;
            &&& item.title@.len() > 0 ==> line == start + " — "@ + item.title@
            &&& item.title@.len() == 0 && item.category@.len() > 0 ==> line == start + " — "@
                + item.category@
            &&& item.title@.len() == 0 && item.category@.len() == 0 ==> line == start
        }),
{
}

/// A resource that something was found in has a section of its own, under its
/// namespace, kind and name. Where nothing is cut from it, the section gives the
/// tally, then every line on the results, and then the error of the scan.
pub proof fn resources_are_described(reader: ReaderView, finding: &Finding)
    requires
        findings_in(finding.results.counts) > 0 || finding.error@.len() > 0,
        finding.results.counts.errors == 0,
        !with_finding(reader, finding).budget.truncated,
    ensures
        ({
            let after = with_finding(reader, finding);
            let section = after.resources.last();
            let lines = section.lines;
            let results = finding.results.block.lines@;
            let counts = finding.results.counts;
            &&& after.resources.len() == reader.resources.len() + 1
            &&& after.resources.drop_last() == reader.resources
            &&& finding.namespace@.len() > 0 ==> section.title == finding.namespace@ + " · "@
                + finding.kind@ + "/"@ + finding.name@
            &&& finding.namespace@.len() == 0 ==> section.title == finding.kind@ + "/"@
                + finding.name@
            &&& lines.len() == 1 + results.len() + if finding.error@.len() > 0 {
                1int
            } else {
                0int
            }
            &&& leads(lines[0], counts.vulnerabilities as nat, " vulnerabilities · "@)
            &&& leads(lines[0], counts.misconfigurations as nat, " misconfigurations · "@)
            &&& leads(lines[0], counts.secrets as nat, " secrets · C "@)
            &&& follows(lines[0], " secrets · C "@, counts.critical as nat)
            &&& follows(lines[0], " H "@, counts.high as nat)
            &&& follows(lines[0], " M "@, counts.medium as nat)
            &&& follows(lines[0], " L "@, counts.low as nat)
            &&& follows(lines[0], " U "@, counts.unknown as nat)
            &&& forall|i: int| 0 <= i < results.len() ==> lines[i + 1] == #[trigger] results[i]@
            &&& finding.error@.len() > 0 ==> lines.last() == "  ERROR "@ + finding.error@
        }),
{
    let after = with_finding(reader, finding);
    let tally = tally_of(counts_of(finding));
    tallies_name_their_counts(counts_of(finding));
    let rest = spent(reader.budget, tally);
    let first = grown(reader.budget, Seq::empty(), tally);
    let block = finding.results.block@;
    lines_are_paid_for(reader.budget, Seq::empty(), tally);
    nothing_is_lost_silently(rest, first, block);
    blocks_are_paid_for(rest, first, block);
    lines_are_paid_for(
        after_block(rest, block),
        with_block(rest, first, block),
        "  ERROR "@ + finding.error@,
    );
    assert(after.resources.drop_last() =~= reader.resources);
    assert(Seq::<char>::empty() + finding.kind@ =~= finding.kind@);
    assert(!rest.truncated);
    assert(first == seq![tally]);
    assert(with_block(rest, first, block) == first + block.lines);
    assert(block.lines.len() == finding.results.block.lines@.len());
    assert forall|i: int| 0 <= i < finding.results.block.lines@.len() implies (first
        + block.lines)[i + 1] == #[trigger] finding.results.block.lines@[i]@ by {
        assert(block.lines[i] == finding.results.block.lines@[i]@);
    }
}

/// The report gives the resources in the order they were taken in, and says where
/// something was left out.
pub proof fn resources_are_reported(
    envelope: &Envelope,
    context: Seq<char>,
    namespace: Seq<char>,
    at: int,
)
    requires
        0 <= at < envelope.findings.resources@.len(),
    ensures
        ({
            let report = rendered_of(envelope, context, namespace);
            let resources = envelope.findings.resources@;
            &&& report.sections.len() == 1 + resources.len() + if envelope.findings.truncated {
                1int
            } else {
                0int
            }
            &&& report.sections[at + 1].title == resources[at].title@
            &&& lines_in(report.sections[at + 1]) == views(resources[at].lines@)
            &&& envelope.findings.truncated ==> report.sections.last().title == "Notice"@
        }),
{
    let found = rendered_views(envelope.findings.resources@);
    let report = rendered_of(envelope, context, namespace);
    assert(report.sections[at + 1] == resource_sections(found)[at]);
}

// ------------------------------------------------------------------ arguments --

/// A scan is of the namespace and the context that were asked for, and of nothing
/// less where none was.
pub proof fn scans_are_of_what_was_asked_for(context: Seq<char>, namespace: Seq<char>)
    ensures
        ({
            let arguments = arguments_of(context, namespace);
            &&& arguments[0] == "kubernetes"@
            &&& given(arguments, "--format"@, "json"@)
            &&& given(arguments, "--report"@, "summary"@)
            &&& given(arguments, "--parallel"@, "1"@)
            &&& given(arguments, "--timeout"@, "5m"@)
            &&& arguments.contains("--quiet"@)
            &&& arguments.contains("--disable-telemetry"@)
            &&& arguments.contains("--skip-version-check"@)
            &&& arguments.contains("--no-progress"@)
            &&& arguments.contains("--list-all-pkgs=false"@)
            &&& arguments.contains("--disable-node-collector"@)
            &&& namespace.len() > 0 ==> given(arguments, "--include-namespaces"@, namespace)
            &&& context.len() > 0 ==> arguments.last() == context
            &&& arguments.len() == 15 + if namespace.len() > 0 {
                2int
            } else {
                0int
            } + if context.len() > 0 {
                1int
            } else {
                0int
            }
        }),
{
    let arguments = arguments_of(context, namespace);
    giving(arguments, 1);
    giving(arguments, 3);
    giving(arguments, 9);
    giving(arguments, 13);
    assert(arguments[5] == "--quiet"@);
    assert(arguments[6] == "--disable-telemetry"@);
    assert(arguments[7] == "--skip-version-check"@);
    assert(arguments[8] == "--no-progress"@);
    assert(arguments[11] == "--list-all-pkgs=false"@);
    assert(arguments[12] == "--disable-node-collector"@);
    if namespace.len() > 0 {
        giving(arguments, 15);
    }
}

} // verus!
