//! What cutting, trimming, ordering and reading a text means.
use crate::duration::{digits_end, seconds_of};
use crate::json::JsonView;
use crate::numbers::{decimal, decimal_reads_back, signed_decimal, signed_number, unsigned_number};
use crate::text::{
    is_white, joined, lines_from, lower, next_index, pieces, pieces_from, sorts_before, text_lines,
    trimmed, white_end, white_start, without_return,
};
use crate::text_map::lookup;
use vstd::prelude::*;

verus! {

// --------------------------------------------------------------------- pieces --

/// Texts written one after the other with a separator between each two.
pub open spec fn written(texts: Seq<Seq<char>>, separator: char) -> Seq<char>
    decreases texts.len(),
{
    if texts.len() == 0 {
        Seq::empty()
    } else if texts.len() == 1 {
        texts[0]
    } else {
        texts[0] + seq![separator] + written(texts.drop_first(), separator)
    }
}

/// Whether a text is free of a character.
pub open spec fn lacks(text: Seq<char>, letter: char) -> bool {
    forall|i: int| 0 <= i < text.len() ==> #[trigger] text[i] != letter
}

/// Whether every text is free of a character.
pub open spec fn all_lack(texts: Seq<Seq<char>>, letter: char) -> bool {
    forall|i: int| 0 <= i < texts.len() ==> lacks(#[trigger] texts[i], letter)
}

/// The next position of a character is the one that nothing before it has.
pub proof fn next_index_is(text: Seq<char>, letter: char, from: int, at: int)
    requires
        0 <= from <= at <= text.len(),
        forall|i: int| from <= i < at ==> #[trigger] text[i] != letter,
        at < text.len() ==> text[at] == letter,
    ensures
        next_index(text, letter, from) == at,
    decreases at - from,
{
    if from < at {
        next_index_is(text, letter, from + 1, at);
    }
}

proof fn later_pieces(before: Seq<char>, texts: Seq<Seq<char>>, separator: char)
    requires
        texts.len() > 0,
        all_lack(texts, separator),
    ensures
        pieces_from(before + written(texts, separator), separator, before.len() as int) == texts,
    decreases texts.len(),
{
    let text = before + written(texts, separator);
    let from = before.len() as int;
    let first = texts[0];
    let end = from + first.len();
    assert(lacks(first, separator));
    assert forall|i: int| from <= i < end implies #[trigger] text[i] != separator by {
        assert(text[i] == first[i - from]);
    }
    if texts.len() == 1 {
        next_index_is(text, separator, from, end);
        assert(text.subrange(from, text.len() as int) =~= first);
        assert(texts =~= seq![first]);
    } else {
        let rest = texts.drop_first();
        let longer = before + first + seq![separator];
        assert(text =~= longer + written(rest, separator));
        assert(text[end] == separator);
        next_index_is(text, separator, from, end);
        assert(text.subrange(from, end) =~= first);
        assert forall|i: int| 0 <= i < rest.len() implies lacks(#[trigger] rest[i], separator) by {
            assert(lacks(texts[i + 1], separator));
        }
        later_pieces(longer, rest, separator);
        assert(texts =~= seq![first] + rest);
    }
}

/// Cutting a text at a separator gives back what was written between the
/// separators.
pub proof fn pieces_are_what_was_written(texts: Seq<Seq<char>>, separator: char)
    requires
        texts.len() > 0,
        all_lack(texts, separator),
    ensures
        pieces(written(texts, separator), separator) == texts,
{
    later_pieces(Seq::empty(), texts, separator);
    assert(Seq::<char>::empty() + written(texts, separator) =~= written(texts, separator));
}

proof fn written_grows(texts: Seq<Seq<char>>, more: Seq<char>, separator: char)
    requires
        texts.len() > 0,
    ensures
        written(texts.push(more), separator) == written(texts, separator) + seq![separator] + more,
    decreases texts.len(),
{
    let all = texts.push(more);
    if texts.len() == 1 {
        assert(all.drop_first() =~= seq![more]);
        assert(written(all.drop_first(), separator) == more);
    } else {
        assert(all.drop_first() =~= texts.drop_first().push(more));
        written_grows(texts.drop_first(), more, separator);
        assert(written(all, separator) =~= written(texts, separator) + seq![separator] + more);
    }
}

/// Joining texts writes them one after the other with the separator between each
/// two, so that cutting gives them back.
pub proof fn joined_texts_come_apart(texts: Seq<Seq<char>>, separator: char)
    ensures
        joined(texts, seq![separator]) == written(texts, separator),
        texts.len() > 0 && all_lack(texts, separator) ==> pieces(
            joined(texts, seq![separator]),
            separator,
        ) == texts,
    decreases texts.len(),
{
    if texts.len() > 1 {
        joined_texts_come_apart(texts.drop_last(), separator);
        written_grows(texts.drop_last(), texts.last(), separator);
        assert(texts =~= texts.drop_last().push(texts.last()));
    }
    if texts.len() > 0 && all_lack(texts, separator) {
        pieces_are_what_was_written(texts, separator);
    }
}

proof fn later_lines(before: Seq<char>, lines: Seq<Seq<char>>)
    requires
        lines.len() > 0,
        all_lack(lines, '\n'),
        forall|i: int| 0 <= i < lines.len() - 1 ==> without_return(#[trigger] lines[i]) == lines[i],
        lines.last().len() > 0,
    ensures
        lines_from(before + written(lines, '\n'), before.len() as int) == lines,
    decreases lines.len(),
{
    let text = before + written(lines, '\n');
    let from = before.len() as int;
    let first = lines[0];
    let end = from + first.len();
    assert(lacks(first, '\n'));
    assert forall|i: int| from <= i < end implies #[trigger] text[i] != '\n' by {
        assert(text[i] == first[i - from]);
    }
    if lines.len() == 1 {
        next_index_is(text, '\n', from, end);
        assert(text.subrange(from, text.len() as int) =~= first);
        assert(lines =~= seq![first]);
    } else {
        let rest = lines.drop_first();
        let longer = before + first + seq!['\n'];
        assert(text =~= longer + written(rest, '\n'));
        assert(text[end] == '\n');
        next_index_is(text, '\n', from, end);
        assert(text.subrange(from, end) =~= first);
        assert forall|i: int| 0 <= i < rest.len() implies lacks(#[trigger] rest[i], '\n') by {
            assert(lacks(lines[i + 1], '\n'));
        }
        assert forall|i: int| 0 <= i < rest.len() - 1 implies without_return(
            #[trigger] rest[i],
        ) == rest[i] by {
            assert(without_return(lines[i + 1]) == lines[i + 1]);
        }
        later_lines(longer, rest);
        assert(lines =~= seq![first] + rest);
    }
}

/// The lines of a text are what was written between the line feeds.
pub proof fn lines_are_what_was_written(lines: Seq<Seq<char>>)
    requires
        lines.len() > 0,
        all_lack(lines, '\n'),
        all_lack(lines, '\r'),
        lines.last().len() > 0,
    ensures
        text_lines(written(lines, '\n')) == lines,
{
    assert forall|i: int| 0 <= i < lines.len() - 1 implies without_return(#[trigger] lines[i])
        == lines[i] by {
        assert(lacks(lines[i], '\r'));
    }
    later_lines(Seq::empty(), lines);
    assert(Seq::<char>::empty() + written(lines, '\n') =~= written(lines, '\n'));
}

// ------------------------------------------------------------------- trimming --

/// Whether all characters of a text between two positions are white.
pub open spec fn all_white(text: Seq<char>, from: int, to: int) -> bool {
    forall|i: int| from <= i < to ==> is_white(#[trigger] text[i])
}

proof fn white_is_skipped(text: Seq<char>, from: int)
    requires
        0 <= from <= text.len(),
    ensures
        from <= white_end(text, from) <= text.len(),
        all_white(text, from, white_end(text, from)),
        white_end(text, from) < text.len() ==> !is_white(text[white_end(text, from)]),
    decreases text.len() - from,
{
    if from < text.len() && is_white(text[from]) {
        white_is_skipped(text, from + 1);
    }
}

proof fn white_is_dropped(text: Seq<char>, from: int, to: int)
    requires
        0 <= from <= to <= text.len(),
    ensures
        from <= white_start(text, from, to) <= to,
        all_white(text, white_start(text, from, to), to),
        from < white_start(text, from, to) ==> !is_white(text[white_start(text, from, to) - 1]),
    decreases to - from,
{
    if from < to && is_white(text[to - 1]) {
        white_is_dropped(text, from, to - 1);
    }
}

/// Whether a part of a text is what is left of it without the white space around
/// it.
pub open spec fn is_core(text: Seq<char>, from: int, to: int) -> bool {
    &&& 0 <= from <= to <= text.len()
    &&& all_white(text, 0, from)
    &&& all_white(text, to, text.len() as int)
    &&& from < to ==> !is_white(text[from]) && !is_white(text[to - 1])
}

/// Trimming takes the white space off both ends and nothing else.
pub proof fn trimming_takes_white_space(text: Seq<char>)
    ensures
        exists|from: int, to: int| #[trigger]
            is_core(text, from, to) && trimmed(text) == text.subrange(from, to),
        trimmed(text).len() > 0 ==> !is_white(trimmed(text)[0]) && !is_white(trimmed(text).last()),
{
    white_is_skipped(text, 0);
    let from = white_end(text, 0);
    white_is_dropped(text, from, text.len() as int);
    let to = white_start(text, from, text.len() as int);
    assert(is_core(text, from, to));
}

/// A text with no white space around it stays as it is.
pub proof fn trimming_leaves_the_rest(text: Seq<char>)
    requires
        text.len() > 0,
        !is_white(text[0]),
        !is_white(text.last()),
    ensures
        trimmed(text) == text,
{
    assert(white_end(text, 0) == 0);
    assert(white_start(text, 0, text.len() as int) == text.len());
    assert(text.subrange(0, text.len() as int) =~= text);
}

// ------------------------------------------------------------------- ordering --

/// Of two texts the one with the smaller character where they first differ comes
/// first, and of a text and its own beginning the beginning.
pub proof fn the_first_difference_decides(left: Seq<char>, right: Seq<char>, at: int)
    requires
        0 <= at <= left.len(),
        at <= right.len(),
        left.take(at) == right.take(at),
    ensures
        at < left.len() && at < right.len() && left[at] < right[at] ==> sorts_before(left, right)
            && !sorts_before(right, left),
        at == left.len() && at < right.len() ==> sorts_before(left, right) && !sorts_before(
            right,
            left,
        ),
        at == left.len() && at == right.len() ==> !sorts_before(left, right),
    decreases at,
{
    if at > 0 {
        assert(left[0] == left.take(at)[0]);
        assert(right[0] == right.take(at)[0]);
        let one = left.drop_first();
        let other = right.drop_first();
        assert(one.take(at - 1) =~= left.take(at).drop_first());
        assert(other.take(at - 1) =~= right.take(at).drop_first());
        the_first_difference_decides(one, other, at - 1);
    }
}

/// A capital becomes its small letter, and nothing else changes.
pub proof fn only_capitals_change(letter: char)
    ensures
        'A' <= letter <= 'Z' ==> 'a' <= lower(letter) <= 'z' && lower(letter) as u32 - 'a' as u32
            == letter as u32 - 'A' as u32,
        !('A' <= letter <= 'Z') ==> lower(letter) == letter,
{
}

// -------------------------------------------------------------------- numbers --

/// A number that was written with a sign where it is below zero is read back.
pub proof fn signed_numbers_read_back(value: int)
    requires
        i64::MIN <= value <= i64::MAX,
    ensures
        signed_number(signed_decimal(value)) == Some(value),
{
    let text = signed_decimal(value);
    if value < 0 {
        decimal_reads_back((-value) as nat);
        assert(text.drop_first() =~= decimal((-value) as nat));
    } else {
        decimal_reads_back(value as nat);
        assert('0' <= text[0] <= '9');
    }
}

// ---------------------------------------------------------------------- times --

proof fn digits_end_at(text: Seq<char>, from: int, at: int)
    requires
        0 <= from <= at <= text.len(),
        forall|i: int| from <= i < at ==> '0' <= #[trigger] text[i] <= '9',
        at < text.len() ==> !('0' <= text[at] <= '9'),
    ensures
        digits_end(text, from) == at,
    decreases at - from,
{
    if from < at {
        digits_end_at(text, from + 1, at);
    }
}

proof fn times_are_read(number: nat, unit: Seq<char>, hours: bool)
    requires
        number <= u64::MAX,
        unit.len() > 0 ==> !('0' <= unit[0] <= '9') && !is_white(unit.last()),
    ensures
        trimmed(decimal(number) + unit) == decimal(number) + unit,
        digits_end(decimal(number) + unit, 0) == decimal(number).len(),
        (decimal(number) + unit).take(decimal(number).len() as int) == decimal(number),
        (decimal(number) + unit).skip(decimal(number).len() as int) == unit,
        unsigned_number(decimal(number), u64::MAX as nat) == Some(number),
{
    let digits = decimal(number);
    let text = digits + unit;
    decimal_reads_back(number);
    assert('0' <= digits[0] <= '9');
    assert('0' <= digits[digits.len() - 1] <= '9');
    assert(text[0] == digits[0]);
    if unit.len() == 0 {
        assert(text.last() == digits[digits.len() - 1]);
    } else {
        assert(text.last() == unit.last());
        assert(text[digits.len() as int] == unit[0]);
    }
    trimming_leaves_the_rest(text);
    assert forall|i: int| 0 <= i < digits.len() implies '0' <= #[trigger] text[i] <= '9' by {
        assert(text[i] == digits[i]);
    }
    digits_end_at(text, 0, digits.len() as int);
    assert(text.take(digits.len() as int) =~= digits);
    assert(text.skip(digits.len() as int) =~= unit);
    crate::numbers::number_round_trip(number, u64::MAX as nat);
}

/// A time is its number in seconds, minutes or hours, by the letter behind it. A
/// number alone is in seconds, and no time at all is not one.
pub proof fn times_are_in_their_unit(number: nat, hours: bool)
    requires
        number <= u64::MAX,
    ensures
        number > 0 ==> seconds_of(decimal(number), hours) == Some(number),
        number > 0 ==> seconds_of(decimal(number) + "s"@, hours) == Some(number),
        0 < number * 60 <= u64::MAX ==> seconds_of(decimal(number) + "m"@, hours) == Some(
            (number * 60) as nat,
        ),
        0 < number * 3600 <= u64::MAX ==> seconds_of(decimal(number) + "h"@, true) == Some(
            (number * 3600) as nat,
        ),
        seconds_of(decimal(number) + "h"@, false) is None,
        number == 0 ==> seconds_of(decimal(number), hours) is None && seconds_of(
            decimal(number) + "s"@,
            hours,
        ) is None && seconds_of(decimal(number) + "m"@, hours) is None,
{
    reveal_strlit("s");
    reveal_strlit("m");
    reveal_strlit("h");
    assert("s"@[0] != "m"@[0] && "s"@[0] != "h"@[0] && "m"@[0] != "h"@[0]);
    let nothing = Seq::<char>::empty();
    assert(decimal(number) + nothing =~= decimal(number));
    times_are_read(number, nothing, hours);
    times_are_read(number, "s"@, hours);
    times_are_read(number, "m"@, hours);
    times_are_read(number, "h"@, hours);
}

// -------------------------------------------------------------------- look-up --

/// What a key stands for is what its first entry says, and nothing without one.
pub proof fn the_first_entry_counts<V>(entries: Seq<(Seq<char>, V)>, key: Seq<char>, at: int)
    requires
        0 <= at <= entries.len(),
        forall|i: int| 0 <= i < at ==> (#[trigger] entries[i]).0 != key,
    ensures
        at < entries.len() && entries[at].0 == key ==> lookup(entries, key) == Some(entries[at].1),
        at == entries.len() ==> lookup(entries, key) is None,
    decreases at,
{
    if at > 0 {
        let rest = entries.drop_first();
        assert(entries[0].0 != key);
        assert forall|i: int| 0 <= i < at - 1 implies (#[trigger] rest[i]).0 != key by {
            assert(entries[i + 1].0 != key);
        }
        the_first_entry_counts(rest, key, at - 1);
    }
}

/// A member of a JSON object is what its first entry says, and nothing without
/// one.
pub proof fn the_first_member_counts(
    entries: Seq<(Seq<char>, JsonView)>,
    key: Seq<char>,
    at: int,
)
    requires
        0 <= at <= entries.len(),
        forall|i: int| 0 <= i < at ==> (#[trigger] entries[i]).0 != key,
    ensures
        at < entries.len() && entries[at].0 == key ==> JsonView::Object(entries).get(key) == Some(
            entries[at].1,
        ),
        at == entries.len() ==> JsonView::Object(entries).get(key) is None,
    decreases at,
{
    if at > 0 {
        let rest = entries.drop_first();
        assert(entries[0].0 != key);
        assert forall|i: int| 0 <= i < at - 1 implies (#[trigger] rest[i]).0 != key by {
            assert(entries[i + 1].0 != key);
        }
        the_first_member_counts(rest, key, at - 1);
        assert(JsonView::Object(entries).get(key) == JsonView::Object(rest).get(key));
    }
}

} // verus!
