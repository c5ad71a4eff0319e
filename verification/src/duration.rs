//! Times of whole seconds, minutes and hours, as inputs spell them.
use crate::numbers::{read_unsigned, unsigned_number};
use crate::text::{chars_of, same, text_of, trim, trimmed};
use vstd::prelude::*;

verus! {

/// The position of the first character from `from` on that is no digit.
pub open spec fn digits_end(text: Seq<char>, from: int) -> int
    decreases text.len() - from,
{
    if from >= text.len() || !('0' <= text[from] <= '9') {
        from
    } else {
        digits_end(text, from + 1)
    }
}

/// The seconds of a unit. Only a time that may take hours knows them.
pub open spec fn unit_seconds(unit: Seq<char>, hours: bool) -> Option<nat> {
    if unit == "s"@ {
        Some(1)
    } else if unit == "m"@ {
        Some(60)
    } else if unit == "h"@ && hours {
        Some(3600)
    } else {
        None
    }
}

/// The seconds of a time: digits and a unit, which is seconds where it is left
/// out. No time at all is none, and neither is one that a `u64` cannot hold.
pub open spec fn seconds_of(text: Seq<char>, hours: bool) -> Option<nat> {
    let time = trimmed(text);
    let end = digits_end(time, 0);
    let unit = if end < time.len() {
        time.skip(end)
    } else {
        "s"@
    };
    match (unsigned_number(time.take(end), u64::MAX as nat), unit_seconds(unit, hours)) {
        (Some(number), Some(per)) => if 0 < number * per <= u64::MAX {
            Some(number * per)
        } else {
            None
        },
        _ => None,
    }
}

proof fn digits_end_step(text: Seq<char>, from: int, at: int)
    requires
        0 <= from <= at <= text.len(),
        forall|i: int| from <= i < at ==> '0' <= #[trigger] text[i] <= '9',
    ensures
        digits_end(text, from) == digits_end(text, at),
    decreases at - from,
{
    if from < at {
        digits_end_step(text, from + 1, at);
    }
}

/// Reads a time.
pub fn seconds(value: &str, hours: bool) -> (length: Option<u64>)
    ensures
        match length {
            Some(length) => seconds_of(value@, hours) == Some(length as nat),
            None => seconds_of(value@, hours) is None,
        },
{
    let time = trim(value);
    let letters = chars_of(time.as_str());
    let mut end: usize = 0;
    while end < letters.len() && '0' <= letters[end] && letters[end] <= '9'
        invariant
            end <= letters@.len(),
            forall|i: int| 0 <= i < end ==> '0' <= #[trigger] letters@[i] <= '9',
        decreases letters@.len() - end,
    {
        end = end + 1;
    }
    proof {
        digits_end_step(letters@, 0, end as int);
        reveal_strlit("s");
        reveal_strlit("m");
        reveal_strlit("h");
    }
    let digits = text_of(&letters, 0, end);
    assert(digits@ =~= time@.take(end as int));
    let unit = if end < letters.len() {
        text_of(&letters, end, letters.len())
    } else {
        "s".to_owned()
    };
    assert(end < letters@.len() ==> unit@ =~= time@.skip(end as int));
    let number = match read_unsigned(digits.as_str(), u64::MAX) {
        Some(number) => number,
        None => {
            return None;
        },
    };
    let per: u64 = if same(unit.as_str(), "s") {
        1
    } else if same(unit.as_str(), "m") {
        60
    } else if same(unit.as_str(), "h") && hours {
        3600
    } else {
        return None;
    };
    match number.checked_mul(per) {
        Some(length) => if length > 0 {
            Some(length)
        } else {
            None
        },
        None => None,
    }
}

} // verus!
