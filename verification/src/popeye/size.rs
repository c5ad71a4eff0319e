//! The size of a report, and what is never missing from it.
use crate::json::{entries_len, items_len, json_len, letters_len, text_len, JsonView};
use crate::numbers::{decimal, signed_decimal};
use crate::popeye::render::{
    assembled, context_of, error_section, fits, framing_len, kept_count, letters_within,
    linter_sections, notice_of, rendered_of, shortened, summary_rows, with_field, FIELD_MAX_BYTES,
    REPORT_MAX_SERIALIZED_BYTES,
};
use crate::popeye::scan::ScanView;
use crate::report::{
    lines_view, report_json, report_len, report_view, row_json, rows_json, section_json,
    section_len, sections_json, table_view, texts_json, RowView, SectionView,
};
use vstd::prelude::*;
use vstd::utf8::{encode_scalar, encode_utf8};

verus! {

// ----------------------------------------------------------------- assembly --

proof fn items_len_push(items: Seq<JsonView>, item: JsonView)
    ensures
        items_len(items.push(item)) == items_len(items) + json_len(item) + if items.len() == 0 {
            0nat
        } else {
            1nat
        },
{
    assert(items.push(item).drop_last() =~= items);
}

proof fn entries_len_push(
    entries: Seq<(Seq<char>, JsonView)>,
    key: Seq<char>,
    value: JsonView,
)
    ensures
        entries_len(entries.push((key, value))) == entries_len(entries) + text_len(key) + 1
            + json_len(value) + if entries.len() == 0 {
            0nat
        } else {
            1nat
        },
{
    assert(entries.push((key, value)).drop_last() =~= entries);
}

/// What sections add to the length of a report.
pub open spec fn sections_len(sections: Seq<SectionView>) -> nat {
    items_len(sections_json(sections))
}

proof fn sections_len_push(sections: Seq<SectionView>, section: SectionView)
    ensures
        sections_len(sections.push(section)) == sections_len(sections) + section_len(section)
            + if sections.len() == 0 {
            0nat
        } else {
            1nat
        },
{
    items_len_push(sections_json(sections), section_json(section));
    assert(sections_json(sections.push(section)) =~= sections_json(sections).push(
        section_json(section),
    ));
}

proof fn report_len_splits(title: Seq<char>, sections: Seq<SectionView>)
    ensures
        report_len(report_view(title, sections)) == report_len(report_view(title, Seq::empty()))
            + sections_len(sections),
{
    let one = JsonView::Number(Some(1i64));
    let full = JsonView::Array(sections_json(sections));
    let none = JsonView::Array(sections_json(Seq::empty()));
    let last = JsonView::Text(title);
    let start = Seq::<(Seq<char>, JsonView)>::empty().push(("schema_version"@, one));
    assert(sections_json(Seq::empty()) =~= Seq::<JsonView>::empty());
    assert(json_len(full) == 2 + sections_len(sections));
    assert(json_len(none) == 2);
    entries_len_push(start, "sections"@, full);
    entries_len_push(start, "sections"@, none);
    entries_len_push(start.push(("sections"@, full)), "title"@, last);
    entries_len_push(start.push(("sections"@, none)), "title"@, last);
    let with = report_json(report_view(title, sections));
    let without = report_json(report_view(title, Seq::empty()));
    assert(with->Object_0 =~= start.push(("sections"@, full)).push(("title"@, last)));
    assert(without->Object_0 =~= start.push(("sections"@, none)).push(("title"@, last)));
    assert(json_len(with) == 2 + entries_len(with->Object_0));
    assert(json_len(without) == 2 + entries_len(without->Object_0));
}

proof fn kept_sections_fit(reserved: nat, sections: Seq<SectionView>, before: Seq<SectionView>)
    requires
        before.len() > 0,
        reserved <= REPORT_MAX_SERIALIZED_BYTES,
    ensures
        kept_count(reserved, sections) <= sections.len(),
        reserved + sections_len(before + sections.take(kept_count(reserved, sections) as int))
            <= REPORT_MAX_SERIALIZED_BYTES + sections_len(before),
    decreases sections.len(),
{
    if sections.len() == 0 || !fits(reserved, sections[0]) {
        assert(before + sections.take(0) =~= before);
    } else {
        let first = sections[0];
        let rest = sections.drop_first();
        let next = reserved + section_len(first) + 1;
        kept_sections_fit(next, rest, before.push(first));
        sections_len_push(before, first);
        let kept = kept_count(next, rest);
        assert(before.push(first) + rest.take(kept as int) =~= before + sections.take((kept + 1) as int));
    }
}

/// A report is never larger than it may be, as long as its summary leaves room
/// for itself and the notice.
pub proof fn assembled_reports_fit(
    rows: Seq<RowView>,
    sections: Seq<SectionView>,
    errors: Option<SectionView>,
    truncated: bool,
    notice: Seq<char>,
)
    requires
        framing_len(rows, notice) <= REPORT_MAX_SERIALIZED_BYTES,
    ensures
        report_len(assembled(rows, sections, errors, truncated, notice))
            <= REPORT_MAX_SERIALIZED_BYTES,
{
    let title = "Popeye scan"@;
    let summary = table_view("Summary"@, rows);
    let announced = lines_view("Notice"@, seq![notice]);
    let framing = framing_len(rows, notice);
    let explained = match errors {
        Some(section) => if fits(framing, section) {
            seq![section]
        } else {
            Seq::<SectionView>::empty()
        },
        None => Seq::<SectionView>::empty(),
    };
    let reserved = if explained.len() > 0 {
        framing + section_len(explained[0]) + 1
    } else {
        framing
    };
    let kept = sections.take(kept_count(reserved, sections) as int);
    let first = Seq::<SectionView>::empty().push(summary);
    assert(seq![summary] =~= first);
    sections_len_push(Seq::empty(), summary);
    assert(sections_json(Seq::empty()) =~= Seq::<JsonView>::empty());
    kept_sections_fit(reserved, sections, first);
    let detail = first + kept;
    let out = seq![summary] + kept + explained;
    if explained.len() > 0 {
        sections_len_push(detail, explained[0]);
        assert(out =~= detail.push(explained[0]));
    } else {
        assert(out =~= detail);
    }
    sections_len_push(out, announced);
    report_len_splits(title, out);
    report_len_splits(title, out.push(announced));
}

/// The summary is never dropped, and it always comes first.
pub proof fn summaries_are_kept(
    rows: Seq<RowView>,
    sections: Seq<SectionView>,
    errors: Option<SectionView>,
    truncated: bool,
    notice: Seq<char>,
)
    ensures
        assembled(rows, sections, errors, truncated, notice).sections.len() > 0,
        assembled(rows, sections, errors, truncated, notice).sections[0] == table_view(
            "Summary"@,
            rows,
        ),
{
}

proof fn no_more_are_kept(reserved: nat, sections: Seq<SectionView>)
    ensures
        kept_count(reserved, sections) <= sections.len(),
    decreases sections.len(),
{
    if sections.len() > 0 && fits(reserved, sections[0]) {
        no_more_are_kept(reserved + section_len(sections[0]) + 1, sections.drop_first());
    }
}

/// Errors are kept ahead of the detail: where they fit beside the summary, they
/// are in the report however much detail there is, behind the sections that are
/// kept.
pub proof fn errors_are_kept_first(
    rows: Seq<RowView>,
    sections: Seq<SectionView>,
    errors: SectionView,
    truncated: bool,
    notice: Seq<char>,
)
    requires
        fits(framing_len(rows, notice), errors),
    ensures
        exists|kept: int|
            #![trigger sections.take(kept)]
            0 <= kept <= sections.len() && (seq![table_view("Summary"@, rows)] + sections.take(kept)
                + seq![errors]).is_prefix_of(
                assembled(rows, sections, Some(errors), truncated, notice).sections,
            ),
{
    let reserved = framing_len(rows, notice) + section_len(errors) + 1;
    let kept = kept_count(reserved, sections) as int;
    no_more_are_kept(reserved, sections);
    let out = seq![table_view("Summary"@, rows)] + sections.take(kept) + seq![errors];
    assert(out.is_prefix_of(assembled(rows, sections, Some(errors), truncated, notice).sections));
}

/// Detail is dropped from the end only, and a report says so where it is not the
/// whole: it ends with the notice exactly where the scan was cut short, or a
/// section or the errors are missing.
pub proof fn losses_are_announced(
    rows: Seq<RowView>,
    sections: Seq<SectionView>,
    errors: Option<SectionView>,
    truncated: bool,
    notice: Seq<char>,
)
    ensures
        exists|kept: int|
            #![trigger sections.take(kept)]
            {
                let report = assembled(rows, sections, errors, truncated, notice).sections;
                let detail = seq![table_view("Summary"@, rows)] + sections.take(kept);
                let explained = match errors {
                    Some(section) => if fits(framing_len(rows, notice), section) {
                        detail.push(section)
                    } else {
                        detail
                    },
                    None => detail,
                };
                let missing = truncated || kept < sections.len() || (errors is Some && explained
                    == detail);
                &&& 0 <= kept <= sections.len()
                &&& report == if missing {
                    explained.push(lines_view("Notice"@, seq![notice]))
                } else {
                    explained
                }
            },
{
    let framing = framing_len(rows, notice);
    let reserved = match errors {
        Some(section) => if fits(framing, section) {
            framing + section_len(section) + 1
        } else {
            framing
        },
        None => framing,
    };
    let kept = kept_count(reserved, sections) as int;
    no_more_are_kept(reserved, sections);
    let detail = seq![table_view("Summary"@, rows)] + sections.take(kept);
    if let Some(section) = errors {
        assert(detail.push(section).len() == detail.len() + 1);
        assert(detail + seq![section] =~= detail.push(section));
    }
    assert(detail + Seq::<SectionView>::empty() =~= detail);
}

// ------------------------------------------------------------------- summary --

proof fn letters_are_short(text: Seq<char>)
    ensures
        letters_len(text) <= 6 * text.len(),
    decreases text.len(),
{
    if text.len() > 0 {
        letters_are_short(text.drop_last());
    }
}

proof fn letters_take_bytes(text: Seq<char>)
    ensures
        text.len() <= encode_utf8(text).len(),
    decreases text.len(),
{
    if text.len() > 0 {
        letters_take_bytes(text.drop_first());
    }
}

proof fn letters_within_limit(text: Seq<char>, limit: nat)
    ensures
        letters_within(text, limit) <= limit,
        letters_within(text, limit) <= text.len(),
    decreases text.len(),
{
    if text.len() > 0 && encode_scalar(text[0] as u32).len() <= limit {
        letters_within_limit(
            text.drop_first(),
            (limit - encode_scalar(text[0] as u32).len()) as nat,
        );
    }
}

/// A shortened value has no more characters than it may have bytes, and one for
/// the cut.
pub proof fn shortened_values_are_short(value: Seq<char>)
    ensures
        shortened(value).len() <= FIELD_MAX_BYTES + 1,
{
    letters_take_bytes(value);
    letters_within_limit(value, FIELD_MAX_BYTES as nat);
    reveal_strlit("…");
}

spec fn power_of_ten(exponent: nat) -> nat
    decreases exponent,
{
    if exponent == 0 {
        1
    } else {
        10 * power_of_ten((exponent - 1) as nat)
    }
}

proof fn decimals_are_short(value: nat, digits: nat)
    requires
        digits > 0,
        value < power_of_ten(digits),
    ensures
        decimal(value).len() <= digits,
    decreases digits,
{
    if value >= 10 {
        assert(digits > 1) by {
            if digits == 1 {
                reveal_with_fuel(power_of_ten, 2);
            }
        }
        decimals_are_short(value / 10, (digits - 1) as nat);
    }
}

proof fn numbers_are_short(value: int)
    requires
        i64::MIN <= value <= u64::MAX,
    ensures
        signed_decimal(value).len() <= 21,
        value >= 0 ==> decimal(value as nat).len() <= 20,
{
    assert(power_of_ten(20) == 100_000_000_000_000_000_000) by {
        reveal_with_fuel(power_of_ten, 21);
    }
    if value < 0 {
        decimals_are_short((-value) as nat, 20);
    } else {
        decimals_are_short(value as nat, 20);
    }
}

/// The characters of the rows of a table.
pub open spec fn rows_letters(rows: Seq<RowView>) -> nat
    decreases rows.len(),
{
    if rows.len() == 0 {
        0
    } else {
        rows_letters(rows.drop_last()) + rows.last().0.len() + rows.last().1.len()
    }
}

proof fn row_is_short(row: RowView)
    ensures
        json_len(row_json(row)) <= 7 + 6 * (row.0.len() + row.1.len()),
{
    let first = JsonView::Text(row.0);
    let second = JsonView::Text(row.1);
    letters_are_short(row.0);
    letters_are_short(row.1);
    items_len_push(seq![first], second);
    assert(seq![first, second] =~= seq![first].push(second));
    assert(items_len(seq![first]) == json_len(first));
}

proof fn rows_are_short(rows: Seq<RowView>)
    ensures
        json_len(rows_json(rows)) <= 2 + 8 * rows.len() + 6 * rows_letters(rows),
    decreases rows.len(),
{
    let items = rows_json(rows)->Array_0;
    if rows.len() > 0 {
        let rest = rows.drop_last();
        rows_are_short(rest);
        row_is_short(rows.last());
        let others = rows_json(rest)->Array_0;
        items_len_push(others, row_json(rows.last()));
        assert(items =~= others.push(row_json(rows.last())));
    }
}

proof fn table_is_short(rows: Seq<RowView>)
    ensures
        section_len(table_view("Summary"@, rows)) <= 600 + 8 * rows.len() + 6 * rows_letters(rows),
{
    let columns = ("columns"@, row_json(("Field"@, "Value"@)));
    let body = ("rows"@, rows_json(rows));
    let title = ("title"@, JsonView::Text("Summary"@));
    reveal_strlit("columns");
    reveal_strlit("rows");
    reveal_strlit("title");
    reveal_strlit("Summary");
    reveal_strlit("Field");
    reveal_strlit("Value");
    letters_are_short("columns"@);
    letters_are_short("rows"@);
    letters_are_short("title"@);
    letters_are_short("Summary"@);
    row_is_short(("Field"@, "Value"@));
    rows_are_short(rows);
    let empty = Seq::<(Seq<char>, JsonView)>::empty();
    entries_len_push(empty, columns.0, columns.1);
    entries_len_push(empty.push(columns), body.0, body.1);
    entries_len_push(empty.push(columns).push(body), title.0, title.1);
    assert(json_len(title.1) == text_len("Summary"@));
    let section = section_json(table_view("Summary"@, rows));
    assert(section->Object_0 =~= empty.push(columns).push(body).push(title));
    assert(json_len(section) == 2 + entries_len(section->Object_0));
}

proof fn notice_is_short(notice: Seq<char>)
    ensures
        section_len(lines_view("Notice"@, seq![notice])) <= 200 + 6 * notice.len(),
{
    let texts = seq![notice].map_values(|text: Seq<char>| JsonView::Text(text));
    let body = ("lines"@, texts_json(seq![notice]));
    let title = ("title"@, JsonView::Text("Notice"@));
    reveal_strlit("lines");
    reveal_strlit("title");
    reveal_strlit("Notice");
    letters_are_short("lines"@);
    letters_are_short("title"@);
    letters_are_short("Notice"@);
    letters_are_short(notice);
    assert(texts =~= seq![JsonView::Text(notice)]);
    assert(items_len(texts) == json_len(texts[0]));
    assert(json_len(body.1) == 2 + text_len(notice));
    let empty = Seq::<(Seq<char>, JsonView)>::empty();
    entries_len_push(empty, body.0, body.1);
    entries_len_push(empty.push(body), title.0, title.1);
    assert(json_len(title.1) == text_len("Notice"@));
    let section = section_json(lines_view("Notice"@, seq![notice]));
    assert(section->Object_0 =~= empty.push(body).push(title));
    assert(json_len(section) == 2 + entries_len(section->Object_0));
}

proof fn frame_is_short()
    ensures
        report_len(report_view("Popeye scan"@, Seq::empty())) <= 400,
{
    let one = ("schema_version"@, JsonView::Number(Some(1i64)));
    let none = ("sections"@, JsonView::Array(sections_json(Seq::empty())));
    let last = ("title"@, JsonView::Text("Popeye scan"@));
    reveal_strlit("schema_version");
    reveal_strlit("sections");
    reveal_strlit("title");
    reveal_strlit("Popeye scan");
    letters_are_short("schema_version"@);
    letters_are_short("sections"@);
    letters_are_short("title"@);
    letters_are_short("Popeye scan"@);
    numbers_are_short(1);
    assert(sections_json(Seq::empty()) =~= Seq::<JsonView>::empty());
    assert(json_len(none.1) == 2);
    let empty = Seq::<(Seq<char>, JsonView)>::empty();
    entries_len_push(empty, one.0, one.1);
    entries_len_push(empty.push(one), none.0, none.1);
    entries_len_push(empty.push(one).push(none), last.0, last.1);
    assert(json_len(one.1) == signed_decimal(1).len());
    assert(json_len(last.1) == text_len("Popeye scan"@));
    let frame = report_json(report_view("Popeye scan"@, Seq::empty()));
    assert(frame->Object_0 =~= empty.push(one).push(none).push(last));
    assert(json_len(frame) == 2 + entries_len(frame->Object_0));
}

proof fn field_adds_little(rows: Seq<RowView>, name: Seq<char>, value: Seq<char>)
    requires
        name.len() <= 10,
    ensures
        with_field(rows, name, value).len() <= rows.len() + 1,
        rows_letters(with_field(rows, name, value)) <= rows_letters(rows) + 267,
{
    shortened_values_are_short(value);
    if value.len() > 0 {
        assert(rows.push((name, shortened(value))).drop_last() =~= rows);
    }
}

/// The report of a scan is never larger than a report may be, however much the
/// scan found and whatever it is called.
pub proof fn rendered_reports_fit(
    scan: ScanView,
    cluster: Seq<char>,
    named_context: Seq<char>,
    requested_context: Seq<char>,
    requested_namespace: Seq<char>,
)
    ensures
        report_len(
            rendered_of(
                scan,
                cluster,
                named_context,
                requested_context,
                requested_namespace,
            ),
        ) <= REPORT_MAX_SERIALIZED_BYTES,
{
    let context = context_of(named_context, requested_context);
    let notice = notice_of(requested_namespace);
    let rows = summary_rows(scan, cluster, context, requested_namespace);
    reveal_strlit("Score");
    reveal_strlit("% (");
    reveal_strlit(")");
    reveal_strlit("Context");
    reveal_strlit("Cluster");
    reveal_strlit("Namespace");
    reveal_strlit("Scanned");
    reveal_strlit("Linters");
    reveal_strlit("all");
    reveal_strlit("… report truncated; scan one namespace at a time to see the rest");
    reveal_strlit("… report truncated; inspect the full Popeye JSON output to see the rest");
    numbers_are_short(scan.score as int);
    numbers_are_short(scan.linters as int);
    shortened_values_are_short(scan.grade);
    let shown = signed_decimal(scan.score as int) + "% ("@ + shortened(scan.grade) + ")"@;
    let score = seq![("Score"@, shown)];
    assert(score.drop_last() =~= Seq::<RowView>::empty());
    assert(rows_letters(score.drop_last()) == 0);
    assert(rows_letters(score) <= 287);
    let one = with_field(score, "Context"@, context);
    field_adds_little(score, "Context"@, context);
    let two = with_field(one, "Cluster"@, cluster);
    field_adds_little(one, "Cluster"@, cluster);
    shortened_values_are_short(requested_namespace);
    let place = (
        "Namespace"@,
        if requested_namespace.len() == 0 {
            "all"@
        } else {
            shortened(requested_namespace)
        },
    );
    let three = two.push(place);
    assert(three.drop_last() =~= two);
    let four = with_field(three, "Scanned"@, scan.report_time);
    field_adds_little(three, "Scanned"@, scan.report_time);
    let count = ("Linters"@, decimal(scan.linters as nat));
    assert(four.push(count).drop_last() =~= four);
    assert(rows == four.push(count));
    table_is_short(rows);
    notice_is_short(notice);
    frame_is_short();
    assembled_reports_fit(
        rows,
        linter_sections(scan.sections),
        error_section(scan.errors),
        scan.truncated,
        notice,
    );
}

} // verus!
