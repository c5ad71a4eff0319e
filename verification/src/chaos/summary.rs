//! The report of a run.
use crate::chaos::run::{Outcome, OutcomeView, Scope, ScopeView};
use crate::chaos::victims::Options;
use crate::numbers::{count_text, decimal, number_text, signed_decimal, size_text};
use crate::report::{
    document, group_report, lines, lines_view, put_row, report_view, row_views, section_views,
    single_line, table, table_view, Report, ReportView, RowView, Section,
};
use crate::text::{glue2, glue3, group_views, views};
use vstd::prelude::*;

verus! {

/// The verdict over a run. `seconds` is how long the recovery took, in seconds
/// to one decimal place.
pub open spec fn verdict_of(options: Options, outcome: OutcomeView, seconds: Seq<char>) -> Seq<
    char,
> {
    if options.dry_run {
        "dry run — nothing was deleted"@
    } else if let Some(message) = outcome.measurement_error {
        "measurement failed: "@ + message
    } else if outcome.recovered is Some {
        "recovered in "@ + seconds + "s"@
    } else {
        "DID NOT RECOVER within "@ + decimal(options.wait as nat) + "s — "@ + signed_decimal(
            outcome.ready as int,
        ) + " of "@ + signed_decimal(outcome.desired as int) + " replicas ready"@
    }
}

/// What the number of pods is called.
pub open spec fn kill_label(options: Options, outcome: OutcomeView) -> Seq<char> {
    if options.dry_run {
        "Would kill"@
    } else if outcome.delete_succeeded {
        "Killed"@
    } else {
        "Targeted"@
    }
}

/// What the list of pods is called.
pub open spec fn pods_title(options: Options, outcome: OutcomeView) -> Seq<char> {
    if options.dry_run {
        "Pods that would be deleted"@
    } else if outcome.delete_succeeded {
        "Pods deleted"@
    } else {
        "Pods targeted for deletion"@
    }
}

/// The rows of the summary.
pub open spec fn rows_of(
    kind: Seq<char>,
    scope: ScopeView,
    selector: Seq<char>,
    options: Options,
    outcome: OutcomeView,
    seconds: Seq<char>,
) -> Seq<RowView> {
    let rows = seq![
        ("Verdict"@, verdict_of(options, outcome, seconds)),
        ("Workload"@, kind + "/"@ + scope.name),
        ("Namespace"@, scope.namespace),
        ("Selector"@, selector),
        (kill_label(options, outcome), decimal(outcome.killed.len())),
        ("Desired replicas"@, signed_decimal(outcome.desired as int)),
        ("Ready replicas"@, signed_decimal(outcome.ready as int)),
    ];
    if options.dry_run {
        rows
    } else {
        rows.push(("Waited up to"@, decimal(options.wait as nat) + "s"@)).push(
            ("Checks"@, decimal(outcome.polls as nat)),
        )
    }
}

/// The report of a run. The pods it was about are always listed.
pub open spec fn report_of(
    kind: Seq<char>,
    scope: ScopeView,
    selector: Seq<char>,
    options: Options,
    outcome: OutcomeView,
    seconds: Seq<char>,
) -> ReportView {
    let listed = seq![
        table_view("Summary"@, rows_of(kind, scope, selector, options, outcome, seconds)),
        lines_view(
            pods_title(options, outcome),
            outcome.killed.map_values(|name: Seq<char>| "  "@ + name),
        ),
    ];
    let measured = match outcome.measurement_error {
        Some(message) => listed.push(lines_view("Measurement error"@, seq![message])),
        None => listed,
    };
    let sections = if options.dry_run {
        measured.push(
            lines_view(
                "Notice"@,
                seq!["Re-run with dry_run=false to delete these pods and measure recovery."@],
            ),
        )
    } else {
        measured
    };
    report_view("Chaos kill"@, sections)
}

fn verdict(options: &Options, outcome: &Outcome, seconds: &str) -> (text: String)
    ensures
        text@ == verdict_of(*options, outcome@, seconds@),
{
    if options.dry_run {
        return "dry run — nothing was deleted".to_owned();
    }
    if let Some(message) = &outcome.measurement_error {
        return glue2("measurement failed: ", message.as_str());
    }
    if outcome.recovered.is_some() {
        return glue3("recovered in ", seconds, "s");
    }
    let wait = count_text(options.wait);
    let mut text = glue3("DID NOT RECOVER within ", wait.as_str(), "s — ");
    text.append(number_text(outcome.ready).as_str());
    text.append(" of ");
    text.append(number_text(outcome.desired).as_str());
    text.append(" replicas ready");
    text
}

fn indented(names: &Vec<String>) -> (list: Vec<String>)
    ensures
        views(list@) == views(names@).map_values(|name: Seq<char>| "  "@ + name),
{
    let mut list: Vec<String> = Vec::new();
    let mut at: usize = 0;
    while at < names.len()
        invariant
            at <= names@.len(),
            list@.len() == at,
            forall|i: int| 0 <= i < at ==> (#[trigger] list@[i])@ == "  "@ + names@[i]@,
        decreases names@.len() - at,
    {
        list.push(glue2("  ", names[at].as_str()));
        at = at + 1;
    }
    assert(views(list@) =~= views(names@).map_values(|name: Seq<char>| "  "@ + name));
    list
}

/// The report of a run. `seconds` is how long the recovery took, in seconds to
/// one decimal place; it is shown only where the workload recovered.
pub fn report(
    kind: &str,
    scope: &Scope,
    selector: &str,
    options: &Options,
    outcome: &Outcome,
    seconds: &str,
) -> (written: Report)
    ensures
        written@ == report_of(kind@, scope@, selector@, *options, outcome@, seconds@),
{
    broadcast use {group_report, group_views};

    let mut rows: Vec<(String, String)> = Vec::new();
    put_row(&mut rows, "Verdict", verdict(options, outcome, seconds));
    put_row(&mut rows, "Workload", glue3(kind, "/", scope.name.as_str()));
    put_row(&mut rows, "Namespace", scope.namespace.clone());
    put_row(&mut rows, "Selector", selector.to_owned());
    let label = if options.dry_run {
        "Would kill"
    } else if outcome.delete_succeeded {
        "Killed"
    } else {
        "Targeted"
    };
    assert(views(outcome.killed@).len() == outcome.killed@.len());
    put_row(&mut rows, label, size_text(outcome.killed.len()));
    put_row(&mut rows, "Desired replicas", number_text(outcome.desired));
    put_row(&mut rows, "Ready replicas", number_text(outcome.ready));
    if !options.dry_run {
        let wait = count_text(options.wait);
        put_row(&mut rows, "Waited up to", glue2(wait.as_str(), "s"));
        put_row(&mut rows, "Checks", count_text(outcome.polls));
    }
    assert(row_views(rows@) =~= rows_of(kind@, scope@, selector@, *options, outcome@, seconds@));
    let mut sections: Vec<Section> = Vec::new();
    sections.push(table("Summary", rows));
    let title = if options.dry_run {
        "Pods that would be deleted"
    } else if outcome.delete_succeeded {
        "Pods deleted"
    } else {
        "Pods targeted for deletion"
    };
    sections.push(lines(title, indented(&outcome.killed)));
    if let Some(message) = &outcome.measurement_error {
        sections.push(single_line("Measurement error", message.as_str()));
    }
    if options.dry_run {
        sections.push(
            single_line(
                "Notice",
                "Re-run with dry_run=false to delete these pods and measure recovery.",
            ),
        );
    }
    assert(section_views(sections@) =~= report_of(
        kind@,
        scope@,
        selector@,
        *options,
        outcome@,
        seconds@,
    ).sections);
    document("Chaos kill", sections)
}

} // verus!
