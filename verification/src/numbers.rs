//! Whole numbers as text, in both directions.
use crate::text::chars_of;
use vstd::prelude::*;

verus! {

// ------------------------------------------------------------------- models --

/// The character of a decimal digit.
pub open spec fn digit(value: nat) -> char {
    (0x30 + value) as char
}

/// A number in decimal notation.
pub open spec fn decimal(value: nat) -> Seq<char>
    decreases value,
{
    if value < 10 {
        seq![digit(value)]
    } else {
        decimal(value / 10).push(digit(value % 10))
    }
}

/// A number in decimal notation, with a sign when it is negative.
pub open spec fn signed_decimal(value: int) -> Seq<char> {
    if value < 0 {
        seq!['-'] + decimal((-value) as nat)
    } else {
        decimal(value as nat)
    }
}

/// Whether a text is made of decimal digits and has at least one.
pub open spec fn all_digits(text: Seq<char>) -> bool {
    text.len() > 0 && forall|i: int| 0 <= i < text.len() ==> '0' <= #[trigger] text[i] <= '9'
}

/// The number that decimal digits stand for.
pub open spec fn digits_value(digits: Seq<char>) -> nat
    decreases digits.len(),
{
    if digits.len() == 0 {
        0
    } else {
        digits_value(digits.drop_last()) * 10 + (digits.last() as u32 - 0x30) as nat
    }
}

/// The digits of a number that may carry a plus sign.
pub open spec fn after_plus(text: Seq<char>) -> Seq<char> {
    if text.len() > 0 && text[0] == '+' {
        text.drop_first()
    } else {
        text
    }
}

/// The number a text spells, up to `limit`: digits, with or without a plus
/// sign in front.
pub open spec fn unsigned_number(text: Seq<char>, limit: nat) -> Option<nat> {
    let digits = after_plus(text);
    if all_digits(digits) && digits_value(digits) <= limit {
        Some(digits_value(digits))
    } else {
        None
    }
}

/// The number a text spells within the range of an `i64`: digits, with or
/// without a sign in front.
pub open spec fn signed_number(text: Seq<char>) -> Option<int> {
    if text.len() > 0 && text[0] == '-' {
        let digits = text.drop_first();
        if all_digits(digits) && digits_value(digits) <= -(i64::MIN as int) {
            Some(-(digits_value(digits) as int))
        } else {
            None
        }
    } else {
        match unsigned_number(text, i64::MAX as nat) {
            Some(value) => Some(value as int),
            None => None,
        }
    }
}

// -------------------------------------------------------------------- laws --

/// Decimal notation is made of digits, and reading it gives the number back.
pub proof fn decimal_reads_back(value: nat)
    ensures
        all_digits(decimal(value)),
        digits_value(decimal(value)) == value,
    decreases value,
{
    if value < 10 {
        reveal_with_fuel(digits_value, 2);
    } else {
        decimal_reads_back(value / 10);
        assert(decimal(value).drop_last() =~= decimal(value / 10));
    }
}

/// What [`decimal`] writes, [`unsigned_number`] reads, for every number up to
/// the limit.
pub proof fn number_round_trip(value: nat, limit: nat)
    requires
        value <= limit,
    ensures
        unsigned_number(decimal(value), limit) == Some(value),
{
    decimal_reads_back(value);
    assert(decimal(value)[0] != '+');
}

// --------------------------------------------------------------- functions --

fn digit_of(value: u64) -> (letter: char)
    requires
        value < 10,
    ensures
        letter == digit(value as nat),
{
    (value as u8 + 0x30) as char
}

/// A number in decimal notation.
pub fn count_text(value: u64) -> (text: String)
    ensures
        text@ == decimal(value as nat),
    decreases value,
{
    if value < 10 {
        let mut text = String::new();
        text.push(digit_of(value));
        assert(text@ =~= seq![digit(value as nat)]);
        text
    } else {
        let mut text = count_text(value / 10);
        text.push(digit_of(value % 10));
        text
    }
}

/// A length in decimal notation.
pub fn size_text(value: usize) -> (text: String)
    ensures
        text@ == decimal(value as nat),
{
    count_text(value as u64)
}

/// A number in decimal notation, with a sign when it is negative.
pub fn number_text(value: i64) -> (text: String)
    ensures
        text@ == signed_decimal(value as int),
{
    if value < 0 {
        let mut text = String::new();
        text.push('-');
        assert(text@ =~= seq!['-']);
        if value == i64::MIN {
            text.append(count_text(0x8000_0000_0000_0000).as_str());
        } else {
            text.append(count_text((-value) as u64).as_str());
        }
        text
    } else {
        count_text(value as u64)
    }
}

proof fn digits_value_grows(digits: Seq<char>, at: int)
    requires
        0 <= at <= digits.len(),
        all_digits(digits),
    ensures
        digits_value(digits.take(at)) <= digits_value(digits),
    decreases digits.len() - at,
{
    if at < digits.len() {
        digits_value_grows(digits, at + 1);
        assert(digits.take(at + 1).drop_last() =~= digits.take(at));
    } else {
        assert(digits.take(at) =~= digits);
    }
}

fn read_digits(letters: &Vec<char>, from: usize, limit: u64) -> (value: Option<u64>)
    requires
        from <= letters@.len(),
    ensures
        ({
            let digits = letters@.skip(from as int);
            match value {
                Some(value) => all_digits(digits) && digits_value(digits) == value && value <= limit,
                None => !all_digits(digits) || digits_value(digits) > limit,
            }
        }),
{
    let ghost digits = letters@.skip(from as int);
    if from == letters.len() {
        return None;
    }
    let mut check: usize = from;
    while check < letters.len()
        invariant
            from <= check <= letters@.len(),
            digits == letters@.skip(from as int),
            forall|i: int| 0 <= i < check - from ==> '0' <= #[trigger] digits[i] <= '9',
        decreases letters@.len() - check,
    {
        if letters[check] < '0' || '9' < letters[check] {
            assert(digits[check - from] == letters@[check as int]);
            return None;
        }
        check = check + 1;
    }
    assert(all_digits(digits));
    let mut total: u64 = 0;
    let mut at: usize = from;
    assert(digits.take(0) =~= Seq::<char>::empty());
    while at < letters.len()
        invariant
            from <= at <= letters@.len(),
            digits == letters@.skip(from as int),
            all_digits(digits),
            total == digits_value(digits.take(at - from)),
            total <= limit,
        decreases letters@.len() - at,
    {
        assert(digits[at - from] == letters@[at as int]);
        let next = (letters[at] as u32 - 0x30) as u64;
        proof {
            assert(digits.take(at - from + 1).drop_last() =~= digits.take(at - from));
            assert(digits_value(digits.take(at - from + 1)) == total * 10 + next);
            digits_value_grows(digits, at - from + 1);
        }
        if total > (u64::MAX - next) / 10 {
            return None;
        }
        total = total * 10 + next;
        if total > limit {
            return None;
        }
        at = at + 1;
    }
    assert(digits.take(at - from) =~= digits);
    Some(total)
}

/// Reads a whole number up to `limit`.
pub fn read_unsigned(text: &str, limit: u64) -> (value: Option<u64>)
    ensures
        match value {
            Some(value) => unsigned_number(text@, limit as nat) == Some(value as nat),
            None => unsigned_number(text@, limit as nat) is None,
        },
{
    let letters = chars_of(text);
    if letters.len() > 0 && letters[0] == '+' {
        assert(letters@.skip(1) =~= text@.drop_first());
        read_digits(&letters, 1, limit)
    } else {
        assert(letters@.skip(0) =~= text@);
        read_digits(&letters, 0, limit)
    }
}

/// Reads a whole number with or without a sign.
pub fn read_signed(text: &str) -> (value: Option<i64>)
    ensures
        match value {
            Some(value) => signed_number(text@) == Some(value as int),
            None => signed_number(text@) is None,
        },
{
    let letters = chars_of(text);
    if letters.len() > 0 && letters[0] == '-' {
        assert(letters@.skip(1) =~= text@.drop_first());
        match read_digits(&letters, 1, 0x8000_0000_0000_0000) {
            Some(value) => {
                if value == 0x8000_0000_0000_0000 {
                    Some(i64::MIN)
                } else {
                    Some(-(value as i64))
                }
            },
            None => None,
        }
    } else {
        match read_unsigned(text, 0x7fff_ffff_ffff_ffff) {
            Some(value) => Some(value as i64),
            None => None,
        }
    }
}

} // verus!
