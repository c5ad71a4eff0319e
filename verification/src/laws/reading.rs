//! Reading a report back: what a table says under a field, what a list of
//! arguments gives an option, and what a line holds.
use crate::numbers::{all_digits, decimal, decimal_reads_back, digits_value, signed_decimal};
use crate::report::{with_row, BodyView, ReportView, RowView, SectionView};
use crate::sequences::{count_matches, selected};
use crate::text::begins;
use vstd::prelude::*;

verus! {

// --------------------------------------------------------------------- tables --

/// What a table says under a field; the last row of that name counts.
pub open spec fn cell(rows: Seq<RowView>, field: Seq<char>) -> Option<Seq<char>>
    decreases rows.len(),
{
    if rows.len() == 0 {
        None
    } else if rows.last().0 == field {
        Some(rows.last().1)
    } else {
        cell(rows.drop_last(), field)
    }
}

/// The rows of a section; one without a table has none.
pub open spec fn rows_in(section: SectionView) -> Seq<RowView> {
    match section.body {
        BodyView::Table { rows, .. } => rows,
        BodyView::Lines { .. } => Seq::empty(),
    }
}

/// The lines of a section; one with a table has none.
pub open spec fn lines_in(section: SectionView) -> Seq<Seq<char>> {
    match section.body {
        BodyView::Lines { lines } => lines,
        BodyView::Table { .. } => Seq::empty(),
    }
}

/// What the first table of a report says under a field.
pub open spec fn told(report: ReportView, field: Seq<char>) -> Option<Seq<char>> {
    if report.sections.len() == 0 {
        None
    } else {
        cell(rows_in(report.sections[0]), field)
    }
}

/// The number that the first table of a report gives under a field.
pub open spec fn counted(report: ReportView, field: Seq<char>) -> Option<nat> {
    match told(report, field) {
        Some(text) => spelled(text),
        None => None,
    }
}

/// What is told of a text: nothing where it is empty.
pub open spec fn unless_empty(text: Seq<char>) -> Option<Seq<char>> {
    if text.len() == 0 {
        None
    } else {
        Some(text)
    }
}

/// A table says under a field what its last row of that name says.
pub broadcast proof fn cell_of_push(rows: Seq<RowView>, row: RowView, field: Seq<char>)
    ensures
        #[trigger] cell(rows.push(row), field) == if row.0 == field {
            Some(row.1)
        } else {
            cell(rows, field)
        },
{
    assert(rows.push(row).drop_last() =~= rows);
}

/// A row that is left out changes nothing.
pub broadcast proof fn cell_of_row(
    rows: Seq<RowView>,
    name: Seq<char>,
    value: Seq<char>,
    field: Seq<char>,
)
    ensures
        #[trigger] cell(with_row(rows, name, value), field) == if name == field && value.len() > 0 {
            Some(value)
        } else {
            cell(rows, field)
        },
{
    cell_of_push(rows, (name, value), field);
}

pub broadcast group group_cells {
    cell_of_push,
    cell_of_row,
    listed_of_push,
}

/// The lines that a report has under a title; the last section of that title
/// counts.
pub open spec fn listed(sections: Seq<SectionView>, title: Seq<char>) -> Option<Seq<Seq<char>>>
    decreases sections.len(),
{
    if sections.len() == 0 {
        None
    } else if sections.last().title == title {
        Some(lines_in(sections.last()))
    } else {
        listed(sections.drop_last(), title)
    }
}

/// The last section of a title counts.
pub broadcast proof fn listed_of_push(
    sections: Seq<SectionView>,
    section: SectionView,
    title: Seq<char>,
)
    ensures
        #[trigger] listed(sections.push(section), title) == if section.title == title {
            Some(lines_in(section))
        } else {
            listed(sections, title)
        },
{
    assert(sections.push(section).drop_last() =~= sections);
}

/// Of two lists of sections, the second counts before the first.
pub proof fn listed_of_sum(first: Seq<SectionView>, second: Seq<SectionView>, title: Seq<char>)
    ensures
        listed(first + second, title) == match listed(second, title) {
            Some(lines) => Some(lines),
            None => listed(first, title),
        },
    decreases second.len(),
{
    if second.len() == 0 {
        assert(first + second =~= first);
    } else {
        assert((first + second).drop_last() =~= first + second.drop_last());
        listed_of_sum(first, second.drop_last(), title);
    }
}

// ---------------------------------------------------------------------- lines --

/// Whether a line holds a part somewhere.
pub open spec fn holds(line: Seq<char>, part: Seq<char>) -> bool {
    exists|at: int| #[trigger] stands_at(line, part, at)
}

/// Whether a part of a line stands at a place.
pub open spec fn stands_at(line: Seq<char>, part: Seq<char>, at: int) -> bool {
    0 <= at <= at + part.len() <= line.len() && line.subrange(at, at + part.len()) == part
}

/// Whether a text is two numbers in words: one, what stands between, the other,
/// and what stands behind.
pub open spec fn two_numbers(
    text: Seq<char>,
    first: nat,
    between: Seq<char>,
    second: nat,
    behind: Seq<char>,
) -> bool {
    exists|one: Seq<char>, two: Seq<char>|
        #![trigger spelled(one), spelled(two)]
        text == one + between + two + behind && spelled(one) == Some(first) && spelled(two) == Some(
            second,
        )
}

/// The number that a text spells, however large.
pub open spec fn spelled(text: Seq<char>) -> Option<nat> {
    if all_digits(text) {
        Some(digits_value(text))
    } else {
        None
    }
}

/// Whether a text spells a number, with a minus sign where it is below zero.
pub open spec fn spells(text: Seq<char>, value: int) -> bool {
    if value < 0 {
        text.len() > 0 && text[0] == '-' && spelled(text.drop_first()) == Some((-value) as nat)
    } else {
        spelled(text) == Some(value as nat)
    }
}

/// What decimal notation with a sign spells.
pub broadcast proof fn signed_decimals_are_spelled(value: int)
    ensures
        spells(#[trigger] signed_decimal(value), value),
{
    if value < 0 {
        decimals_are_spelled((-value) as nat);
        assert(signed_decimal(value).drop_first() =~= decimal((-value) as nat));
    } else {
        decimals_are_spelled(value as nat);
    }
}

/// What decimal notation spells.
pub broadcast proof fn decimals_are_spelled(value: nat)
    ensures
        #[trigger] spelled(decimal(value)) == Some(value),
{
    decimal_reads_back(value);
}

/// A line made of a part with something on both sides holds the part.
pub proof fn parts_are_held(before: Seq<char>, part: Seq<char>, after: Seq<char>)
    ensures
        holds(before + part + after, part),
{
    let line = before + part + after;
    let at = before.len() as int;
    assert(line.subrange(at, at + part.len()) =~= part);
    assert(stands_at(line, part, at));
}

/// What a line begins with, it still begins with once more is written.
pub broadcast proof fn beginnings_stay(line: Seq<char>, more: Seq<char>, part: Seq<char>)
    ensures
        begins(line, part) ==> #[trigger] begins(line + more, part),
{
    if begins(line, part) {
        assert((line + more).take(part.len() as int) =~= line.take(part.len() as int));
    }
}

/// A line begins with what was written first.
pub broadcast proof fn lines_begin(first: Seq<char>, more: Seq<char>)
    ensures
        #[trigger] begins(first + more, first),
        begins(first, first),
{
    assert((first + more).take(first.len() as int) =~= first);
    assert(first.take(first.len() as int) =~= first);
}

/// A line ends with what was written last, and holds it.
pub broadcast proof fn lines_end(first: Seq<char>, last: Seq<char>)
    ensures
        #[trigger] ends(first + last, last),
{
    let line = first + last;
    assert(line.subrange(line.len() - last.len(), line.len() as int) =~= last);
}

/// What a line holds, it still holds once more is written; what is written is
/// held.
pub broadcast proof fn parts_stay(line: Seq<char>, more: Seq<char>, part: Seq<char>)
    ensures
        holds(line, part) || more == part ==> #[trigger] holds(line + more, part),
{
    if holds(line, part) {
        let at = choose|at: int| #[trigger] stands_at(line, part, at);
        places_stay(line, more, part, at);
    } else if more == part {
        parts_are_held(line, more, Seq::empty());
        assert(line + more + Seq::<char>::empty() =~= line + more);
    }
}

pub broadcast group group_lines {
    beginnings_stay,
    lines_begin,
    lines_end,
    parts_stay,
}

// ------------------------------------------------------------------ arguments --

/// An option and its value stand at their place.
pub proof fn giving(arguments: Seq<Seq<char>>, at: int)
    requires
        0 <= at < arguments.len() - 1,
    ensures
        given(arguments, arguments[at], arguments[at + 1]),
{
}

/// Whether an option is given a value: the two stand next to each other.
pub open spec fn given(arguments: Seq<Seq<char>>, option: Seq<char>, value: Seq<char>) -> bool {
    exists|at: int|
        0 <= at < arguments.len() - 1 && #[trigger] arguments[at] == option && arguments[at + 1]
            == value
}

// ----------------------------------------------------------------- selections --

/// A selection has what is made of an item, and nothing else.
pub proof fn selections_have_what_is_made<T, U>(items: Seq<T>, read: spec_fn(T) -> Option<U>)
    ensures
        forall|i: int|
            0 <= i < items.len() ==> (read(#[trigger] items[i]) matches Some(value) ==> selected(
                items,
                read,
            ).contains(value)),
        forall|j: int|
            0 <= j < selected(items, read).len() ==> made_of(
                items,
                read,
                #[trigger] selected(items, read)[j],
            ),
        selected(items, read).len() <= items.len(),
    decreases items.len(),
{
    if items.len() > 0 {
        let before = items.drop_last();
        selections_have_what_is_made(before, read);
        let all = selected(items, read);
        let earlier = selected(before, read);
        assert forall|i: int| 0 <= i < items.len() implies (read(#[trigger] items[i]) matches Some(
            value,
        ) ==> all.contains(value)) by {
            if let Some(value) = read(items[i]) {
                if i < before.len() {
                    assert(before[i] == items[i]);
                    let at = choose|k: int| 0 <= k < earlier.len() && earlier[k] == value;
                    assert(all[at] == value);
                } else {
                    assert(all.last() == value);
                }
            }
        }
        assert forall|j: int| 0 <= j < all.len() implies made_of(
            items,
            read,
            #[trigger] all[j],
        ) by {
            if j < earlier.len() {
                assert(all[j] == earlier[j]);
                let at = choose|i: int|
                    0 <= i < before.len() && read(#[trigger] before[i]) == Some(earlier[j]);
                assert(items[at] == before[at]);
            } else {
                assert(items[items.len() - 1] == items.last());
            }
        }
    }
}

/// Whether a value is made of one of the items.
pub open spec fn made_of<T, U>(items: Seq<T>, read: spec_fn(T) -> Option<U>, value: U) -> bool {
    exists|i: int| 0 <= i < items.len() && read(#[trigger] items[i]) == Some(value)
}

// -------------------------------------------------------------------- numbers --

/// Whether a character is a decimal digit.
pub open spec fn is_figure(character: char) -> bool {
    '0' <= character <= '9'
}

/// Whether a line has a word with a number behind it, the number written out
/// whole, and something after the number.
pub open spec fn follows_within(line: Seq<char>, word: Seq<char>, value: nat) -> bool {
    exists|at: int, figures: Seq<char>| #[trigger]
        stands_at(line, word + figures, at) && spelled(figures) == Some(value) && at + word.len()
            + figures.len() < line.len() && !is_figure(line[at + word.len() + figures.len()])
}

/// Whether a line has a word with a number behind it, the number written out
/// whole.
pub open spec fn follows(line: Seq<char>, word: Seq<char>, value: nat) -> bool {
    follows_within(line, word, value) || exists|figures: Seq<char>|
        #![trigger spelled(figures)]
        spelled(figures) == Some(value) && ends(line, word + figures)
}

/// Whether a line ends with a part.
pub open spec fn ends(line: Seq<char>, part: Seq<char>) -> bool {
    part.len() <= line.len() && line.subrange(line.len() - part.len(), line.len() as int) == part
}

/// Whether a line has a number with a word behind it, the number written out
/// whole.
pub open spec fn leads(line: Seq<char>, value: nat, word: Seq<char>) -> bool {
    exists|at: int, figures: Seq<char>| #[trigger]
        stands_at(line, figures + word, at) && spelled(figures) == Some(value) && (at == 0
            || !is_figure(line[at - 1]))
}

/// What stands in a line still stands there once more is written.
pub proof fn places_stay(line: Seq<char>, more: Seq<char>, part: Seq<char>, at: int)
    requires
        stands_at(line, part, at),
    ensures
        stands_at(line + more, part, at),
{
    assert((line + more).subrange(at, at + part.len()) =~= line.subrange(at, at + part.len()));
}

/// A number behind a word stays the number behind that word once more is written,
/// unless digits are added to it.
pub broadcast proof fn numbers_stay_behind(
    line: Seq<char>,
    more: Seq<char>,
    word: Seq<char>,
    value: nat,
)
    ensures
        follows_within(line, word, value) || (follows(line, word, value) && more.len() > 0
            && !is_figure(more[0])) ==> #[trigger] follows_within(line + more, word, value),
{
    let longer = line + more;
    if follows_within(line, word, value) {
        let (at, figures) = choose|at: int, figures: Seq<char>| #[trigger]
            stands_at(line, word + figures, at) && spelled(figures) == Some(value) && at
                + word.len() + figures.len() < line.len() && !is_figure(
                line[at + word.len() + figures.len()],
            );
        places_stay(line, more, word + figures, at);
        assert(longer[at + word.len() + figures.len()] == line[at + word.len() + figures.len()]);
    } else if follows(line, word, value) && more.len() > 0 && !is_figure(more[0]) {
        let figures = choose|figures: Seq<char>|
            #![trigger spelled(figures)]
            spelled(figures) == Some(value) && ends(line, word + figures);
        let at = line.len() - (word + figures).len();
        assert(stands_at(line, word + figures, at));
        places_stay(line, more, word + figures, at);
        assert(longer[line.len() as int] == more[0]);
    }
}

/// What was just written behind a word stands behind it.
pub broadcast proof fn numbers_come_behind(before: Seq<char>, word: Seq<char>, value: nat)
    ensures
        #[trigger] follows(before + word + decimal(value), word, value),
{
    decimals_are_spelled(value);
    let line = before + word + decimal(value);
    assert(line.subrange(before.len() as int, line.len() as int) =~= word + decimal(value));
    assert(ends(line, word + decimal(value)));
}

/// A number in front of a word stays there once more is written.
pub broadcast proof fn numbers_stay_in_front(
    line: Seq<char>,
    more: Seq<char>,
    value: nat,
    word: Seq<char>,
)
    ensures
        leads(line, value, word) ==> #[trigger] leads(line + more, value, word),
{
    if leads(line, value, word) {
        let (at, figures) = choose|at: int, figures: Seq<char>| #[trigger]
            stands_at(line, figures + word, at) && spelled(figures) == Some(value) && (at == 0
                || !is_figure(line[at - 1]));
        places_stay(line, more, figures + word, at);
    }
}

/// What was just written in front of a word stands in front of it.
pub broadcast proof fn numbers_come_in_front(before: Seq<char>, value: nat, word: Seq<char>)
    requires
        before.len() == 0 || !is_figure(before.last()),
    ensures
        #[trigger] leads(before + decimal(value) + word, value, word),
{
    decimals_are_spelled(value);
    let line = before + decimal(value) + word;
    let at = before.len() as int;
    assert(line.subrange(at, line.len() as int) =~= decimal(value) + word);
    assert(stands_at(line, decimal(value) + word, at));
    if at > 0 {
        assert(line[at - 1] == before.last());
    }
}

pub broadcast group group_numbers_in_lines {
    numbers_stay_behind,
    numbers_come_behind,
    numbers_stay_in_front,
    numbers_come_in_front,
}

// --------------------------------------------------------------------- counts --

/// The places of the items that pass a test.
pub open spec fn places<T>(items: Seq<T>, test: spec_fn(T) -> bool) -> Set<int> {
    Set::new(|i: int| 0 <= i < items.len() && test(items[i]))
}

/// The matches are as many as the places where the test is passed.
pub proof fn matches_are_places<T>(items: Seq<T>, test: spec_fn(T) -> bool)
    ensures
        places(items, test).finite(),
        places(items, test).len() == count_matches(items, test),
    decreases items.len(),
{
    if items.len() == 0 {
        assert(places(items, test) =~= Set::<int>::empty());
    } else {
        let before = items.drop_last();
        let at = items.len() - 1;
        matches_are_places(before, test);
        assert(items[at] == items.last());
        if test(items.last()) {
            assert(places(items, test) =~= places(before, test).insert(at));
        } else {
            assert(places(items, test) =~= places(before, test));
        }
    }
}

} // verus!
