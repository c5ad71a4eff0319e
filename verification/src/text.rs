//! Texts as sequences of characters: the splitting, trimming and joining that
//! every report is built from.
use vstd::prelude::*;

verus! {

// ------------------------------------------------------------------- models --

/// The characters of each text of a list.
pub open spec fn views(texts: Seq<String>) -> Seq<Seq<char>> {
    texts.map_values(|text: String| text@)
}

/// The characters of a text that may be missing.
pub open spec fn text_view(text: Option<String>) -> Option<Seq<char>> {
    match text {
        Some(text) => Some(text@),
        None => None,
    }
}

/// The first position of `letter` in `text` from `from` on, or its length.
pub open spec fn next_index(text: Seq<char>, letter: char, from: int) -> int
    decreases text.len() - from,
{
    if from >= text.len() {
        text.len() as int
    } else if text[from] == letter {
        from
    } else {
        next_index(text, letter, from + 1)
    }
}

/// The pieces of `text` from `from` on, cut at every `separator`.
pub open spec fn pieces_from(text: Seq<char>, separator: char, from: int) -> Seq<Seq<char>>
    decreases text.len() - from,
{
    let end = next_index(text, separator, from);
    if from <= end < text.len() {
        seq![text.subrange(from, end)] + pieces_from(text, separator, end + 1)
    } else {
        seq![text.subrange(from, text.len() as int)]
    }
}

/// `text` cut at every `separator`; a text without one is a single piece.
pub open spec fn pieces(text: Seq<char>, separator: char) -> Seq<Seq<char>> {
    pieces_from(text, separator, 0)
}

/// A line without the carriage return that belongs to its line ending.
pub open spec fn without_return(line: Seq<char>) -> Seq<char> {
    if line.len() > 0 && line.last() == '\r' {
        line.drop_last()
    } else {
        line
    }
}

/// The lines of `text` from `from` on.
pub open spec fn lines_from(text: Seq<char>, from: int) -> Seq<Seq<char>>
    decreases text.len() - from,
{
    if from >= text.len() {
        Seq::empty()
    } else {
        let end = next_index(text, '\n', from);
        if from <= end < text.len() {
            seq![without_return(text.subrange(from, end))] + lines_from(text, end + 1)
        } else {
            seq![text.subrange(from, text.len() as int)]
        }
    }
}

/// The lines of `text`: each ends at a line feed, or at a carriage return
/// followed by one, and the ending of the last line is optional.
pub open spec fn text_lines(text: Seq<char>) -> Seq<Seq<char>> {
    lines_from(text, 0)
}

/// The characters with the Unicode property White_Space.
pub open spec fn is_white(letter: char) -> bool {
    let code = letter as u32;
    ||| 0x09 <= code <= 0x0d
    ||| code == 0x20
    ||| code == 0x85
    ||| code == 0xa0
    ||| code == 0x1680
    ||| 0x2000 <= code <= 0x200a
    ||| code == 0x2028
    ||| code == 0x2029
    ||| code == 0x202f
    ||| code == 0x205f
    ||| code == 0x3000
}

/// The position of the first character of `text` from `from` on that is no
/// white space, or its length.
pub open spec fn white_end(text: Seq<char>, from: int) -> int
    decreases text.len() - from,
{
    if from >= text.len() || !is_white(text[from]) {
        from
    } else {
        white_end(text, from + 1)
    }
}

/// The end of `text[from..to]` once the white space at its end is gone.
pub open spec fn white_start(text: Seq<char>, from: int, to: int) -> int
    decreases to - from,
{
    if to <= from || !is_white(text[to - 1]) {
        to
    } else {
        white_start(text, from, to - 1)
    }
}

/// `text` without the white space at both ends.
pub open spec fn trimmed(text: Seq<char>) -> Seq<char> {
    let from = white_end(text, 0);
    text.subrange(from, white_start(text, from, text.len() as int))
}

/// The texts of `parts` with `separator` between each two.
pub open spec fn joined(parts: Seq<Seq<char>>, separator: Seq<char>) -> Seq<char>
    decreases parts.len(),
{
    if parts.len() == 0 {
        Seq::empty()
    } else if parts.len() == 1 {
        parts[0]
    } else {
        joined(parts.drop_last(), separator) + separator + parts.last()
    }
}

/// Whether `prefix` is how `text` begins.
pub open spec fn begins(text: Seq<char>, prefix: Seq<char>) -> bool {
    prefix.len() <= text.len() && text.take(prefix.len() as int) == prefix
}

/// An ASCII capital as its small letter, any other character as it is.
pub open spec fn lower(letter: char) -> char {
    if 'A' <= letter <= 'Z' {
        (letter as u32 + 32) as char
    } else {
        letter
    }
}

/// Whether `left` sorts before `right`, character by character.
pub open spec fn sorts_before(left: Seq<char>, right: Seq<char>) -> bool
    decreases left.len(),
{
    if right.len() == 0 {
        false
    } else if left.len() == 0 {
        true
    } else if left[0] != right[0] {
        left[0] < right[0]
    } else {
        sorts_before(left.drop_first(), right.drop_first())
    }
}

// ------------------------------------------------------------------ lemmas --

pub broadcast proof fn views_push(texts: Seq<String>, text: String)
    ensures
        #[trigger] views(texts.push(text)) == views(texts).push(text@),
{
    assert(views(texts.push(text)) =~= views(texts).push(text@));
}

pub broadcast proof fn views_empty()
    ensures
        #[trigger] views(Seq::empty()) == Seq::<Seq<char>>::empty(),
{
    assert(views(Seq::empty()) =~= Seq::<Seq<char>>::empty());
}

pub broadcast group group_views {
    views_push,
    views_empty,
}

proof fn next_index_step(text: Seq<char>, letter: char, from: int, at: int)
    requires
        0 <= from <= at <= text.len(),
        forall|i: int| from <= i < at ==> text[i] != letter,
    ensures
        next_index(text, letter, from) == next_index(text, letter, at),
    decreases at - from,
{
    if from < at {
        next_index_step(text, letter, from + 1, at);
    }
}

/// Two texts neither of which sorts before the other are the same text.
pub proof fn sorts_before_total(left: Seq<char>, right: Seq<char>)
    ensures
        sorts_before(left, right) || sorts_before(right, left) || left == right,
    decreases left.len(),
{
    if left.len() == 0 || right.len() == 0 {
        assert(left.len() == 0 && right.len() == 0 ==> left =~= right);
    } else if left[0] == right[0] {
        sorts_before_total(left.drop_first(), right.drop_first());
        if left.drop_first() == right.drop_first() {
            assert(left =~= seq![left[0]] + left.drop_first());
            assert(right =~= seq![right[0]] + right.drop_first());
        }
    }
}

/// No two texts sort before each other.
pub proof fn sorts_before_strict(left: Seq<char>, right: Seq<char>)
    requires
        sorts_before(left, right),
    ensures
        !sorts_before(right, left),
        left != right,
    decreases left.len(),
{
    if left.len() > 0 && left[0] == right[0] {
        sorts_before_strict(left.drop_first(), right.drop_first());
    }
}

/// What sorts before a text sorts before everything that the text sorts before.
pub proof fn sorts_before_transitive(left: Seq<char>, middle: Seq<char>, right: Seq<char>)
    requires
        sorts_before(left, middle),
        sorts_before(middle, right),
    ensures
        sorts_before(left, right),
    decreases left.len(),
{
    if left.len() > 0 && left[0] == middle[0] && middle[0] == right[0] {
        sorts_before_transitive(left.drop_first(), middle.drop_first(), right.drop_first());
    }
}

// --------------------------------------------------------------- functions --

/// Appends one character to a text, as `String::push` is documented to.
pub assume_specification[ String::push ](text: &mut String, letter: char)
    ensures
        final(text)@ == old(text)@.push(letter),
;

/// Two texts, one after the other.
pub fn glue2(first: &str, second: &str) -> (text: String)
    ensures
        text@ == first@ + second@,
{
    let mut text = first.to_owned();
    text.append(second);
    text
}

/// Three texts, one after the other.
pub fn glue3(first: &str, second: &str, third: &str) -> (text: String)
    ensures
        text@ == first@ + second@ + third@,
{
    let mut text = glue2(first, second);
    text.append(third);
    text
}

/// Four texts, one after the other.
pub fn glue4(first: &str, second: &str, third: &str, fourth: &str) -> (text: String)
    ensures
        text@ == first@ + second@ + third@ + fourth@,
{
    let mut text = glue3(first, second, third);
    text.append(fourth);
    text
}

/// Five texts, one after the other.
pub fn glue5(first: &str, second: &str, third: &str, fourth: &str, fifth: &str) -> (text: String)
    ensures
        text@ == first@ + second@ + third@ + fourth@ + fifth@,
{
    let mut text = glue4(first, second, third, fourth);
    text.append(fifth);
    text
}

/// The characters of a text.
pub fn chars_of(text: &str) -> (letters: Vec<char>)
    ensures
        letters@ == text@,
{
    let mut letters: Vec<char> = Vec::new();
    for letter in iter: text.chars()
        invariant
            letters@ == iter.seq().take(iter.index() as int),
            iter.seq() == text@,
    {
        letters.push(letter);
    }
    letters
}

/// The text of `letters[from..to]`.
pub fn text_of(letters: &Vec<char>, from: usize, to: usize) -> (text: String)
    requires
        from <= to <= letters@.len(),
    ensures
        text@ == letters@.subrange(from as int, to as int),
{
    let mut text = String::new();
    let mut at: usize = from;
    while at < to
        invariant
            from <= at <= to <= letters@.len(),
            text@ == letters@.subrange(from as int, at as int),
        decreases to - at,
    {
        text.push(letters[at]);
        at = at + 1;
        assert(text@ =~= letters@.subrange(from as int, at as int));
    }
    text
}

pub(crate) fn next_letter(letters: &Vec<char>, letter: char, from: usize) -> (at: usize)
    requires
        from <= letters@.len(),
    ensures
        at == next_index(letters@, letter, from as int),
        from <= at <= letters@.len(),
{
    let mut at: usize = from;
    while at < letters.len() && letters[at] != letter
        invariant
            from <= at <= letters@.len(),
            forall|i: int| from <= i < at ==> letters@[i] != letter,
        decreases letters@.len() - at,
    {
        at = at + 1;
    }
    proof {
        next_index_step(letters@, letter, from as int, at as int);
    }
    at
}

/// `text` cut at every `separator`.
pub fn split(text: &str, separator: char) -> (parts: Vec<String>)
    ensures
        views(parts@) == pieces(text@, separator),
{
    broadcast use group_views;

    let letters = chars_of(text);
    let mut parts: Vec<String> = Vec::new();
    let mut from: usize = 0;
    let mut end = next_letter(&letters, separator, 0);
    while end < letters.len()
        invariant
            letters@ == text@,
            0 <= from <= end <= letters@.len(),
            end == next_index(letters@, separator, from as int),
            views(parts@) + pieces_from(letters@, separator, from as int) == pieces(text@, separator),
        decreases letters@.len() - end,
    {
        let ghost before = views(parts@);
        parts.push(text_of(&letters, from, end));
        assert(before + pieces_from(letters@, separator, from as int) =~= before.push(
            letters@.subrange(from as int, end as int),
        ) + pieces_from(letters@, separator, end + 1));
        from = end + 1;
        end = next_letter(&letters, separator, from);
    }
    parts.push(text_of(&letters, from, letters.len()));
    parts
}

/// The lines of `text`.
pub fn lines_of(text: &str) -> (lines: Vec<String>)
    ensures
        views(lines@) == text_lines(text@),
{
    broadcast use group_views;

    let letters = chars_of(text);
    let mut lines: Vec<String> = Vec::new();
    let mut from: usize = 0;
    while from < letters.len()
        invariant
            letters@ == text@,
            0 <= from <= letters@.len(),
            views(lines@) + lines_from(letters@, from as int) == text_lines(text@),
        decreases letters@.len() - from,
    {
        let ghost before = views(lines@);
        let end = next_letter(&letters, '\n', from);
        if end < letters.len() {
            let ghost line = letters@.subrange(from as int, end as int);
            if end > from && letters[end - 1] == '\r' {
                lines.push(text_of(&letters, from, end - 1));
                assert(line.drop_last() =~= letters@.subrange(from as int, end - 1));
            } else {
                lines.push(text_of(&letters, from, end));
            }
            assert(before + lines_from(letters@, from as int) =~= before.push(without_return(line))
                + lines_from(letters@, end + 1));
            from = end + 1;
        } else {
            lines.push(text_of(&letters, from, end));
            from = end;
        }
    }
    lines
}

/// Whether a character is white space.
pub fn white(letter: char) -> (yes: bool)
    ensures
        yes == is_white(letter),
{
    let code = letter as u32;
    (0x09 <= code && code <= 0x0d) || code == 0x20 || code == 0x85 || code == 0xa0 || code == 0x1680
        || (0x2000 <= code && code <= 0x200a) || code == 0x2028 || code == 0x2029 || code == 0x202f
        || code == 0x205f || code == 0x3000
}

proof fn white_end_step(text: Seq<char>, from: int, at: int)
    requires
        0 <= from <= at <= text.len(),
        forall|i: int| from <= i < at ==> is_white(text[i]),
    ensures
        white_end(text, from) == white_end(text, at),
    decreases at - from,
{
    if from < at {
        white_end_step(text, from + 1, at);
    }
}

proof fn white_start_step(text: Seq<char>, from: int, at: int, to: int)
    requires
        0 <= from <= at <= to <= text.len(),
        forall|i: int| at <= i < to ==> is_white(text[i]),
    ensures
        white_start(text, from, to) == white_start(text, from, at),
    decreases to - at,
{
    if at < to {
        white_start_step(text, from, at, to - 1);
    }
}

/// `text` without the white space at both ends.
pub fn trim(text: &str) -> (rest: String)
    ensures
        rest@ == trimmed(text@),
{
    let letters = chars_of(text);
    let mut from: usize = 0;
    while from < letters.len() && white(letters[from])
        invariant
            from <= letters@.len(),
            forall|i: int| 0 <= i < from ==> is_white(letters@[i]),
        decreases letters@.len() - from,
    {
        from = from + 1;
    }
    let mut to: usize = letters.len();
    while to > from && white(letters[to - 1])
        invariant
            from <= to <= letters@.len(),
            forall|i: int| to <= i < letters@.len() ==> is_white(letters@[i]),
        decreases to,
    {
        to = to - 1;
    }
    proof {
        white_end_step(letters@, 0, from as int);
        white_start_step(letters@, from as int, to as int, letters@.len() as int);
    }
    text_of(&letters, from, to)
}

/// The texts of `parts` with `separator` between each two.
pub fn join(parts: &Vec<String>, separator: &str) -> (text: String)
    ensures
        text@ == joined(views(parts@), separator@),
{
    let mut text = String::new();
    let mut at: usize = 0;
    while at < parts.len()
        invariant
            at <= parts@.len(),
            text@ == joined(views(parts@).take(at as int), separator@),
        decreases parts@.len() - at,
    {
        let ghost before = views(parts@).take(at as int);
        if at > 0 {
            text.append(separator);
        }
        text.append(parts[at].as_str());
        at = at + 1;
        assert(views(parts@).take(at as int).drop_last() =~= before);
        assert(before.len() == 0 ==> joined(before, separator@) + parts@[at - 1]@ =~= parts@[at - 1]@);
    }
    assert(views(parts@).take(at as int) =~= views(parts@));
    text
}

/// Whether `prefix` is how `text` begins.
pub fn starts_with(text: &str, prefix: &str) -> (yes: bool)
    ensures
        yes == begins(text@, prefix@),
{
    let letters = chars_of(text);
    let wanted = chars_of(prefix);
    if wanted.len() > letters.len() {
        return false;
    }
    let mut at: usize = 0;
    while at < wanted.len()
        invariant
            at <= wanted@.len() <= letters@.len(),
            letters@ == text@,
            wanted@ == prefix@,
            forall|i: int| 0 <= i < at ==> letters@[i] == wanted@[i],
        decreases wanted@.len() - at,
    {
        if letters[at] != wanted[at] {
            assert(text@.take(prefix@.len() as int)[at as int] != prefix@[at as int]);
            return false;
        }
        at = at + 1;
    }
    assert(text@.take(prefix@.len() as int) =~= prefix@);
    true
}

/// `text` with every ASCII capital made small.
pub fn lowercase(text: &str) -> (small: String)
    ensures
        small@ == text@.map_values(|letter: char| lower(letter)),
{
    let letters = chars_of(text);
    let mut small = String::new();
    let mut at: usize = 0;
    while at < letters.len()
        invariant
            at <= letters@.len(),
            small@ == letters@.take(at as int).map_values(|letter: char| lower(letter)),
        decreases letters@.len() - at,
    {
        let letter = letters[at];
        if 'A' <= letter && letter <= 'Z' {
            small.push((letter as u8 + 32) as char);
        } else {
            small.push(letter);
        }
        at = at + 1;
        assert(small@ =~= letters@.take(at as int).map_values(|letter: char| lower(letter)));
    }
    assert(letters@.take(at as int) =~= letters@);
    small
}

/// Whether two texts hold the same characters.
pub fn same(left: &str, right: &str) -> (equal: bool)
    ensures
        equal == (left@ == right@),
{
    let first = chars_of(left);
    let second = chars_of(right);
    if first.len() != second.len() {
        return false;
    }
    let mut at: usize = 0;
    while at < first.len()
        invariant
            at <= first@.len(),
            first@ == left@,
            second@ == right@,
            first@.len() == second@.len(),
            first@.take(at as int) == second@.take(at as int),
        decreases first@.len() - at,
    {
        if first[at] != second[at] {
            return false;
        }
        at = at + 1;
        assert(first@.take(at as int) =~= second@.take(at as int));
    }
    assert(first@.take(at as int) =~= first@);
    assert(second@.take(at as int) =~= second@);
    true
}

/// Whether `left` sorts before `right`.
pub fn before(left: &str, right: &str) -> (yes: bool)
    ensures
        yes == sorts_before(left@, right@),
{
    let first = chars_of(left);
    let second = chars_of(right);
    let mut at: usize = 0;
    assert(first@.skip(0) =~= first@ && second@.skip(0) =~= second@);
    while at < first.len() && at < second.len() && first[at] == second[at]
        invariant
            at <= first@.len(),
            at <= second@.len(),
            sorts_before(first@, second@) == sorts_before(
                first@.skip(at as int),
                second@.skip(at as int),
            ),
        decreases first@.len() - at,
    {
        at = at + 1;
        assert(first@.skip(at - 1).drop_first() =~= first@.skip(at as int));
        assert(second@.skip(at - 1).drop_first() =~= second@.skip(at as int));
    }
    if at >= second.len() {
        false
    } else if at >= first.len() {
        true
    } else {
        first[at] < second[at]
    }
}

} // verus!
