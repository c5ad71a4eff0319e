//! The report of a scan, kept within the size that a report may have.
use crate::numbers::{decimal, number_text, signed_decimal, size_text};
use crate::popeye::scan::{rendered_views, Envelope, RenderedView, ScanView};
use crate::report::{
    document, group_report, lines, lines_view, put_row, report_len, report_view, row_views,
    section_len, section_views, serialized_len, serialized_report_len, single_line, table,
    table_view, Report, ReportView, RowView, Section, SectionView,
};
use crate::text::{chars_of, glue4, group_views, text_of, views};
use vstd::prelude::*;
use vstd::utf8::{encode_scalar, encode_utf8};

verus! {

/// The most bytes of a report once it is written.
pub const REPORT_MAX_SERIALIZED_BYTES: usize = 1048576;

/// The most bytes of a value copied out of a scan.
pub const FIELD_MAX_BYTES: usize = 256;

// ------------------------------------------------------------------- fields --

/// How many characters of a text fit into `limit` bytes.
pub open spec fn letters_within(text: Seq<char>, limit: nat) -> nat
    decreases text.len(),
{
    if text.len() == 0 || encode_scalar(text[0] as u32).len() > limit {
        0
    } else {
        1 + letters_within(
            text.drop_first(),
            (limit - encode_scalar(text[0] as u32).len()) as nat,
        )
    }
}

/// A value as it is shown: one that is too long is cut between two characters.
pub open spec fn shortened(value: Seq<char>) -> Seq<char> {
    if encode_utf8(value).len() <= FIELD_MAX_BYTES {
        value
    } else {
        value.take(letters_within(value, FIELD_MAX_BYTES as nat) as int) + "…"@
    }
}

fn width(letter: char) -> (bytes: usize)
    ensures
        bytes == encode_scalar(letter as u32).len(),
        1 <= bytes <= 4,
{
    let code = letter as u32;
    if code < 0x80 {
        1
    } else if code < 0x800 {
        2
    } else if code < 0x10000 {
        3
    } else {
        4
    }
}

proof fn letters_within_step(text: Seq<char>, limit: nat, at: int, used: nat)
    requires
        0 <= at <= text.len(),
        used == encode_utf8(text.take(at)).len(),
        used <= limit,
    ensures
        letters_within(text, limit) == at + letters_within(
            text.skip(at),
            (limit - used) as nat,
        ),
    decreases at,
{
    if at == 0 {
        assert(text.skip(0) =~= text);
        assert(text.take(0) =~= Seq::<char>::empty());
    } else {
        let first = encode_scalar(text[0] as u32).len();
        let rest = text.drop_first();
        assert(text.take(at).drop_first() =~= rest.take(at - 1));
        letters_within_step(rest, (limit - first) as nat, at - 1, (used - first) as nat);
        assert(rest.skip(at - 1) =~= text.skip(at));
    }
}

proof fn utf8_len_push(text: Seq<char>, letter: char)
    ensures
        encode_utf8(text.push(letter)).len() == encode_utf8(text).len() + encode_scalar(
            letter as u32,
        ).len(),
    decreases text.len(),
{
    if text.len() == 0 {
        reveal_with_fuel(encode_utf8, 2);
        assert(text.push(letter).drop_first() =~= Seq::<char>::empty());
    } else {
        utf8_len_push(text.drop_first(), letter);
        assert(text.push(letter).drop_first() =~= text.drop_first().push(letter));
    }
}

/// Shortens a value taken from a scan.
pub fn field(value: &str) -> (shown: String)
    ensures
        shown@ == shortened(value@),
{
    if value.as_bytes().len() <= FIELD_MAX_BYTES {
        return value.to_owned();
    }
    let letters = chars_of(value);
    let mut used: usize = 0;
    let mut at: usize = 0;
    assert(letters@.take(0) =~= Seq::<char>::empty());
    while at < letters.len()
        invariant
            at <= letters@.len(),
            used <= FIELD_MAX_BYTES,
            used == encode_utf8(letters@.take(at as int)).len(),
            letters@ == value@,
            encode_utf8(value@).len() > FIELD_MAX_BYTES,
        decreases letters@.len() - at,
    {
        let bytes = width(letters[at]);
        if used + bytes > FIELD_MAX_BYTES {
            proof {
                letters_within_step(letters@, FIELD_MAX_BYTES as nat, at as int, used as nat);
                assert(letters@.skip(at as int)[0] == letters@[at as int]);
            }
            let mut shown = text_of(&letters, 0, at);
            assert(shown@ =~= value@.take(at as int));
            shown.append("…");
            return shown;
        }
        proof {
            utf8_len_push(letters@.take(at as int), letters@[at as int]);
            assert(letters@.take(at + 1) =~= letters@.take(at as int).push(letters@[at as int]));
        }
        used = used + bytes;
        at = at + 1;
    }
    proof {
        assert(letters@.take(at as int) =~= letters@);
    }
    value.to_owned()
}

// ----------------------------------------------------------------- assembly --

/// The summary and the notice that a report may hold, with everything around
/// them: what is reserved before any detail is taken in.
pub open spec fn framing_len(rows: Seq<RowView>, notice: Seq<char>) -> nat {
    report_len(report_view("Popeye scan"@, Seq::empty())) + section_len(
        table_view("Summary"@, rows),
    ) + section_len(lines_view("Notice"@, seq![notice])) + 2
}

/// Whether another section fits.
pub open spec fn fits(reserved: nat, section: SectionView) -> bool {
    reserved + section_len(section) + 1 <= REPORT_MAX_SERIALIZED_BYTES
}

/// How many sections fit, one after the other.
pub open spec fn kept_count(reserved: nat, sections: Seq<SectionView>) -> nat
    decreases sections.len(),
{
    if sections.len() == 0 || !fits(reserved, sections[0]) {
        0
    } else {
        1 + kept_count(reserved + section_len(sections[0]) + 1, sections.drop_first())
    }
}

/// A report put together within the size that it may have. The summary is
/// always there, errors are kept ahead of sections, sections are dropped from
/// the end, and whatever is missing is said in a notice.
pub open spec fn assembled(
    rows: Seq<RowView>,
    sections: Seq<SectionView>,
    errors: Option<SectionView>,
    truncated: bool,
    notice: Seq<char>,
) -> ReportView {
    let framing = framing_len(rows, notice);
    let explained = match errors {
        Some(section) => if fits(framing, section) {
            seq![section]
        } else {
            Seq::<SectionView>::empty()
        },
        None => Seq::<SectionView>::empty(),
    };
    let reserved = if explained.len() > 0 {
        framing + section_len(explained[0]) + 1
    } else {
        framing
    };
    let kept = kept_count(reserved, sections);
    let missing = truncated || kept < sections.len() || (errors is Some && explained.len() == 0);
    let out = seq![table_view("Summary"@, rows)] + sections.take(kept as int) + explained;
    report_view(
        "Popeye scan"@,
        if missing {
            out.push(lines_view("Notice"@, seq![notice]))
        } else {
            out
        },
    )
}

/// Puts a report together within the size that it may have.
pub fn assemble(
    rows: Vec<(String, String)>,
    sections: Vec<Section>,
    errors: Option<Section>,
    truncated: bool,
    notice: &str,
) -> (report: Report)
    ensures
        report@ == assembled(
            row_views(rows@),
            section_views(sections@),
            match errors {
                Some(section) => Some(section@),
                None => None,
            },
            truncated,
            notice@,
        ),
{
    broadcast use group_report;

    let ghost row_list = row_views(rows@);
    let ghost section_list = section_views(sections@);
    let summary = table("Summary", rows);
    let notice_section = single_line("Notice", notice);
    let framing = document("Popeye scan", Vec::new());
    let mut reserved: u128 = serialized_report_len(&framing) as u128 + serialized_len(&summary)
        as u128 + serialized_len(&notice_section) as u128 + 2;
    assert(reserved == framing_len(row_list, notice@));
    let limit = REPORT_MAX_SERIALIZED_BYTES as u128;
    let mut missing = truncated;
    let mut explained: Vec<Section> = Vec::new();
    match errors {
        Some(section) => {
            let cost = serialized_len(&section) as u128 + 1;
            if reserved + cost > limit {
                missing = true;
            } else {
                reserved = reserved + cost;
                explained.push(section);
            }
        },
        None => {},
    }
    let ghost explained_list = section_views(explained@);
    let ghost start = reserved as nat;
    let mut kept: usize = 0;
    assert(section_list.skip(0) =~= section_list);
    while kept < sections.len()
        invariant
            kept <= sections@.len(),
            section_list == section_views(sections@),
            limit == REPORT_MAX_SERIALIZED_BYTES,
            reserved <= limit || kept == 0,
            reserved < u128::MAX / 2,
            kept_count(start, section_list) == kept + kept_count(
                reserved as nat,
                section_list.skip(kept as int),
            ),
        ensures
            kept == kept_count(start, section_list),
            kept <= sections@.len(),
        decreases sections@.len() - kept,
    {
        assert(section_list.skip(kept as int)[0] == sections@[kept as int]@);
        assert(section_list.skip(kept as int).drop_first() =~= section_list.skip(kept + 1));
        let cost = serialized_len(&sections[kept]) as u128 + 1;
        if reserved + cost > limit {
            break;
        }
        reserved = reserved + cost;
        kept = kept + 1;
    }
    if kept < sections.len() {
        missing = true;
    }
    let mut sections = sections;
    let ghost all = sections@;
    sections.truncate(kept);
    assert(section_views(sections@) =~= section_list.take(kept as int));
    let mut out: Vec<Section> = Vec::new();
    out.push(summary);
    out.append(&mut sections);
    out.append(&mut explained);
    assert(section_views(out@) =~= seq![table_view("Summary"@, row_list)] + section_list.take(
        kept as int,
    ) + explained_list);
    if missing {
        out.push(notice_section);
    }
    document("Popeye scan", out)
}

// ------------------------------------------------------------------- report --

/// The context of a scan: the one that it names, or the one that was asked for.
pub open spec fn context_of(named: Seq<char>, requested: Seq<char>) -> Seq<char> {
    if named.len() == 0 {
        requested
    } else {
        named
    }
}

/// The rows once a value has its row, which an empty one does not get.
pub open spec fn with_field(rows: Seq<RowView>, name: Seq<char>, value: Seq<char>) -> Seq<RowView> {
    if value.len() == 0 {
        rows
    } else {
        rows.push((name, shortened(value)))
    }
}

/// The rows of the summary.
pub open spec fn summary_rows(
    scan: ScanView,
    cluster: Seq<char>,
    context: Seq<char>,
    namespace: Seq<char>,
) -> Seq<RowView> {
    let score = seq![
        ("Score"@, signed_decimal(scan.score as int) + "% ("@ + shortened(scan.grade) + ")"@),
    ];
    let placed = with_field(with_field(score, "Context"@, context), "Cluster"@, cluster).push(
        (
            "Namespace"@,
            if namespace.len() == 0 {
                "all"@
            } else {
                shortened(namespace)
            },
        ),
    );
    with_field(placed, "Scanned"@, scan.report_time).push(
        ("Linters"@, decimal(scan.linters as nat)),
    )
}

/// What is said of a report with something missing.
pub open spec fn notice_of(namespace: Seq<char>) -> Seq<char> {
    if namespace.len() == 0 {
        "… report truncated; scan one namespace at a time to see the rest"@
    } else {
        "… report truncated; inspect the full Popeye JSON output to see the rest"@
    }
}

/// The sections of linters.
pub open spec fn linter_sections(sections: Seq<RenderedView>) -> Seq<SectionView> {
    sections.map_values(|section: RenderedView| lines_view(section.title, section.lines))
}

/// The section of errors, where there are any.
pub open spec fn error_section(errors: Seq<Seq<char>>) -> Option<SectionView> {
    if errors.len() == 0 {
        None
    } else {
        Some(lines_view("Report errors"@, errors))
    }
}

/// The report of a scan.
pub open spec fn rendered_of(
    scan: ScanView,
    cluster: Seq<char>,
    named_context: Seq<char>,
    requested_context: Seq<char>,
    requested_namespace: Seq<char>,
) -> ReportView {
    assembled(
        summary_rows(
            scan,
            cluster,
            context_of(named_context, requested_context),
            requested_namespace,
        ),
        linter_sections(scan.sections),
        error_section(scan.errors),
        scan.truncated,
        notice_of(requested_namespace),
    )
}

fn put_field(rows: &mut Vec<(String, String)>, name: &str, value: &str)
    ensures
        row_views(final(rows)@) == with_field(row_views(old(rows)@), name@, value@),
{
    if !value.is_empty() {
        put_row(rows, name, field(value));
    }
}

/// The report of a scan. Popeye's own context counts before the one that was
/// asked for, which may have been inferred.
pub fn render(envelope: Envelope, requested_context: &str, requested_namespace: &str) -> (report:
    Report)
    ensures
        report@ == rendered_of(
            envelope.popeye@,
            envelope.cluster_name@,
            envelope.context_name@,
            requested_context@,
            requested_namespace@,
        ),
{
    broadcast use {group_report, group_views};

    let ghost scan_view = envelope.popeye@;
    let scan = envelope.popeye;
    let context = if envelope.context_name.as_str().is_empty() {
        requested_context
    } else {
        envelope.context_name.as_str()
    };
    let mut rows: Vec<(String, String)> = Vec::new();
    let score = number_text(scan.score);
    let grade = field(scan.grade.as_str());
    put_row(&mut rows, "Score", glue4(score.as_str(), "% (", grade.as_str(), ")"));
    assert(row_views(rows@) =~= seq![
        ("Score"@, signed_decimal(scan.score as int) + "% ("@ + shortened(scan.grade@) + ")"@),
    ]);
    put_field(&mut rows, "Context", context);
    put_field(&mut rows, "Cluster", envelope.cluster_name.as_str());
    put_row(
        &mut rows,
        "Namespace",
        if requested_namespace.is_empty() {
            "all".to_owned()
        } else {
            field(requested_namespace)
        },
    );
    put_field(&mut rows, "Scanned", scan.report_time.as_str());
    put_row(&mut rows, "Linters", size_text(scan.linters));

    let ghost rendered = rendered_views(scan.sections@);
    let mut sections: Vec<Section> = Vec::new();
    for section in iter: scan.sections
        invariant
            iter.seq() == scan.sections@,
            rendered == rendered_views(scan.sections@),
            sections@.len() == iter.index(),
            forall|i: int|
                0 <= i < sections@.len() ==> (#[trigger] sections@[i])@ == lines_view(
                    rendered[i].title,
                    rendered[i].lines,
                ),
    {
        assert(rendered[iter.index() as int] == section@);
        sections.push(lines(section.title.as_str(), section.lines));
    }
    assert(section_views(sections@) =~= linter_sections(rendered));
    assert(views(scan.errors@).len() == scan.errors@.len());
    let errors = if scan.errors.len() == 0 {
        None
    } else {
        Some(lines("Report errors", scan.errors))
    };
    let notice = if requested_namespace.is_empty() {
        "… report truncated; scan one namespace at a time to see the rest"
    } else {
        "… report truncated; inspect the full Popeye JSON output to see the rest"
    };
    assemble(rows, sections, errors, scan.truncated, notice)
}

} // verus!
