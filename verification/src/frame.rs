//! What crosses the boundary between a host and its guest: buffers named by
//! pointer and length, and responses that begin with a status byte.
use crate::encoding::{lossy_text, read_lossy};
use crate::text::glue2;
use vstd::prelude::*;
use vstd::utf8::{encode_utf8, encode_utf8_decode_utf8, encode_utf8_valid_utf8};

verus! {

/// The most bytes of a request, and of a report.
pub const REQUEST_MAX_BYTES: usize = 1048576;

// ----------------------------------------------------------------- requests --

/// Whether a request is too large to be read.
pub fn check_request_size(length: usize) -> (checked: Result<(), String>)
    ensures
        match checked {
            Ok(_) => length <= REQUEST_MAX_BYTES,
            Err(message) => length > REQUEST_MAX_BYTES && message@ == "request exceeds 1 MiB"@,
        },
{
    if length > REQUEST_MAX_BYTES {
        return Err("request exceeds 1 MiB".to_owned());
    }
    Ok(())
}

/// Whether a request is in the version that is spoken here.
pub fn check_schema(version: u32) -> (checked: Result<(), String>)
    ensures
        match checked {
            Ok(_) => version == 1,
            Err(message) => version != 1 && message@ == "unsupported request schema_version"@,
        },
{
    if version != 1 {
        return Err("unsupported request schema_version".to_owned());
    }
    Ok(())
}

/// Whether a guest hands out a buffer of a length.
pub fn accepts_allocation(length: u32) -> (yes: bool)
    ensures
        yes == (0 < length <= REQUEST_MAX_BYTES),
{
    length != 0 && length as usize <= REQUEST_MAX_BYTES
}

/// A buffer in the memory of a guest, or why it cannot be one.
pub open spec fn range_of(pointer: int, length: int, maximum: int) -> Result<(int, int), Seq<char>> {
    if pointer < 0 {
        Err("negative guest pointer"@)
    } else if length < 0 {
        Err("negative guest length"@)
    } else if length == 0 || length > maximum {
        Err("invalid guest buffer length"@)
    } else {
        Ok((pointer, length))
    }
}

/// A buffer in the memory of a guest, or why it cannot be one.
pub fn guest_range(pointer: i32, length: i32, maximum: usize) -> (range: Result<
    (usize, usize),
    String,
>)
    ensures
        match range {
            Ok(range) => range_of(pointer as int, length as int, maximum as int) == Ok::<
                (int, int),
                Seq<char>,
            >((range.0 as int, range.1 as int)),
            Err(message) => range_of(pointer as int, length as int, maximum as int) == Err::<
                (int, int),
                Seq<char>,
            >(message@),
        },
{
    if pointer < 0 {
        return Err("negative guest pointer".to_owned());
    }
    if length < 0 {
        return Err("negative guest length".to_owned());
    }
    let length = length as usize;
    if length == 0 || length > maximum {
        return Err("invalid guest buffer length".to_owned());
    }
    Ok((pointer as usize, length))
}

// ---------------------------------------------------------------- responses --

/// A response: its status, and of its body as much as the limit allows.
pub open spec fn framed_of(status: u8, body: Seq<u8>, limit: nat) -> Seq<u8> {
    seq![status] + body.take(
        if body.len() < limit {
            body.len() as int
        } else {
            limit as int
        },
    )
}

/// A response: its status, and of its body as much as the limit allows.
pub fn framed(status: u8, body: Vec<u8>, limit: usize) -> (response: Vec<u8>)
    ensures
        response@ == framed_of(status, body@, limit as nat),
{
    let mut body = body;
    let ghost whole = body@;
    if body.len() > limit {
        body.truncate(limit);
    }
    assert(body@ =~= whole.take(
        if whole.len() < limit {
            whole.len() as int
        } else {
            limit as int
        },
    ));
    let mut response: Vec<u8> = Vec::new();
    response.push(status);
    response.append(&mut body);
    assert(response@ =~= framed_of(status, whole, limit as nat));
    response
}

/// What a response says: its body where the status is zero, a message where it
/// is anything else. `empty` is said of a response without a status.
pub open spec fn opened_of(response: Seq<u8>, empty: Seq<char>) -> Result<Seq<u8>, Seq<char>> {
    if response.len() == 0 {
        Err(empty)
    } else if response[0] == 0 {
        Ok(response.drop_first())
    } else {
        Err(lossy_text(response.drop_first()))
    }
}

/// What a response says.
pub fn opened(response: &Vec<u8>, empty: &str) -> (body: Result<Vec<u8>, String>)
    ensures
        match body {
            Ok(body) => opened_of(response@, empty@) == Ok::<Seq<u8>, Seq<char>>(body@),
            Err(message) => opened_of(response@, empty@) == Err::<Seq<u8>, Seq<char>>(message@),
        },
{
    if response.len() == 0 {
        return Err(empty.to_owned());
    }
    let mut body: Vec<u8> = Vec::new();
    let mut at: usize = 1;
    while at < response.len()
        invariant
            1 <= at <= response@.len(),
            body@ == response@.subrange(1, at as int),
        decreases response@.len() - at,
    {
        body.push(response[at]);
        at = at + 1;
        assert(body@ =~= response@.subrange(1, at as int));
    }
    assert(body@ =~= response@.drop_first());
    if response[0] == 0 {
        Ok(body)
    } else {
        Err(read_lossy(body.as_slice()))
    }
}

/// A body that fits its limit comes out of a successful response unchanged.
pub proof fn bodies_come_back(body: Seq<u8>, limit: nat, empty: Seq<char>)
    requires
        body.len() <= limit,
    ensures
        opened_of(framed_of(0, body, limit), empty) == Ok::<Seq<u8>, Seq<char>>(body),
{
    assert(framed_of(0, body, limit).drop_first() =~= body);
}

/// A message that fits its limit comes out of a failed response unchanged.
pub proof fn messages_come_back(status: u8, message: Seq<char>, limit: nat, empty: Seq<char>)
    requires
        status != 0,
        encode_utf8(message).len() <= limit,
    ensures
        opened_of(framed_of(status, encode_utf8(message), limit), empty) == Err::<
            Seq<u8>,
            Seq<char>,
        >(message),
{
    let body = encode_utf8(message);
    assert(framed_of(status, body, limit).drop_first() =~= body);
    encode_utf8_valid_utf8(message);
    encode_utf8_decode_utf8(message);
}

/// The response of a host with the limit it works under, whatever came of the
/// request.
pub open spec fn answered_of(answer: Result<Seq<u8>, Seq<char>>, limit: nat) -> Seq<u8> {
    match answer {
        Ok(body) => framed_of(0, body, limit),
        Err(message) => framed_of(1, encode_utf8(message), limit),
    }
}

pub(crate) fn bytes_of(text: &str) -> (bytes: Vec<u8>)
    ensures
        bytes@ == encode_utf8(text@),
{
    let source = text.as_bytes();
    let mut bytes: Vec<u8> = Vec::new();
    let mut at: usize = 0;
    while at < source.len()
        invariant
            at <= source@.len(),
            bytes@ == source@.take(at as int),
        decreases source@.len() - at,
    {
        bytes.push(source[at]);
        at = at + 1;
        assert(bytes@ =~= source@.take(at as int));
    }
    assert(source@.take(at as int) =~= source@);
    bytes
}

/// The answer in bytes.
pub open spec fn answer_view(answer: Result<Vec<u8>, String>) -> Result<Seq<u8>, Seq<char>> {
    match answer {
        Ok(body) => Ok(body@),
        Err(message) => Err(message@),
    }
}

/// The response of a host to a request.
pub fn answered(answer: Result<Vec<u8>, String>, limit: usize) -> (response: Vec<u8>)
    ensures
        response@ == answered_of(answer_view(answer), limit as nat),
{
    match answer {
        Ok(body) => framed(0, body, limit),
        Err(message) => framed(1, bytes_of(message.as_str()), limit),
    }
}

/// The response of a guest: a status, and all of the report or the message.
pub open spec fn executed_of(answer: Result<Seq<u8>, Seq<char>>) -> Seq<u8> {
    match answer {
        Ok(report) => seq![0u8] + report,
        Err(message) => seq![1u8] + encode_utf8(message),
    }
}

/// The response of a guest.
pub fn executed(answer: Result<Vec<u8>, String>) -> (response: Vec<u8>)
    ensures
        response@ == executed_of(answer_view(answer)),
{
    let mut response: Vec<u8> = Vec::new();
    match answer {
        Ok(report) => {
            let mut report = report;
            response.push(0);
            response.append(&mut report);
        },
        Err(message) => {
            let mut bytes = bytes_of(message.as_str());
            response.push(1);
            response.append(&mut bytes);
        },
    }
    assert(response@ =~= executed_of(answer_view(answer)));
    response
}

/// What a guest answers is what its host reads, a report as well as a message.
pub proof fn guest_answers_come_back(answer: Result<Seq<u8>, Seq<char>>, empty: Seq<char>)
    ensures
        opened_of(executed_of(answer), empty) == answer,
{
    match answer {
        Ok(report) => {
            assert(executed_of(answer).drop_first() =~= report);
        },
        Err(message) => {
            assert(executed_of(answer).drop_first() =~= encode_utf8(message));
            encode_utf8_valid_utf8(message);
            encode_utf8_decode_utf8(message);
        },
    }
}

// ------------------------------------------------------------ packed results --

/// A pointer and a length in one number, the length in the upper half.
pub open spec fn packed_of(pointer: u32, length: u32) -> int {
    length * 0x1_0000_0000 + pointer
}

/// A pointer and a length in one number.
pub fn pack(pointer: u32, length: u32) -> (packed: u64)
    ensures
        packed == packed_of(pointer, length),
{
    length as u64 * 0x1_0000_0000 + pointer as u64
}

/// The pointer and the length of a packed number.
pub fn unpack(packed: u64) -> (range: (u32, u32))
    ensures
        packed == packed_of(range.0, range.1),
{
    ((packed % 0x1_0000_0000) as u32, (packed / 0x1_0000_0000) as u32)
}

/// Two buffers that pack into the same number are the same buffer.
pub proof fn packing_is_unique(pointer: u32, length: u32, other_pointer: u32, other_length: u32)
    requires
        packed_of(pointer, length) == packed_of(other_pointer, other_length),
    ensures
        pointer == other_pointer,
        length == other_length,
{
}

/// The response that a guest names, or `refusal` where it cannot be one: it is
/// somewhere, it is not empty, and it holds no more than a report and its
/// status.
pub open spec fn response_range_of(pointer: u32, length: u32, refusal: Seq<char>) -> Result<
    (u32, u32),
    Seq<char>,
> {
    if pointer == 0 || length == 0 || length > REQUEST_MAX_BYTES + 1 {
        Err(refusal)
    } else {
        Ok((pointer, length))
    }
}

/// The response that a guest names, or `refusal` where it cannot be one.
pub fn response_range(packed: u64, refusal: &str) -> (range: Result<(u32, u32), String>)
    ensures
        forall|pointer: u32, length: u32|
            packed == #[trigger] packed_of(pointer, length) ==> match range {
                Ok(range) => response_range_of(pointer, length, refusal@) == Ok::<
                    (u32, u32),
                    Seq<char>,
                >(range),
                Err(message) => response_range_of(pointer, length, refusal@) == Err::<
                    (u32, u32),
                    Seq<char>,
                >(message@),
            },
{
    let (pointer, length) = unpack(packed);
    if pointer == 0 || length == 0 || length as usize > REQUEST_MAX_BYTES + 1 {
        return Err(refusal.to_owned());
    }
    Ok((pointer, length))
}

// ---------------------------------------------------------- pending responses --

/// What a guest gets of the response that is waiting for it: all of it, if it has
/// asked for exactly as much. The messages begin with `the`.
pub open spec fn taken_of(pending: Option<Seq<u8>>, length: nat, the: Seq<char>) -> Result<
    Seq<u8>,
    Seq<char>,
> {
    match pending {
        None => Err(the + "host response was already read"@),
        Some(response) => if response.len() != length {
            Err(the + "host response length changed"@)
        } else {
            Ok(response)
        },
    }
}

/// The bytes of a response that may be there.
pub open spec fn pending_view(pending: Option<Vec<u8>>) -> Option<Seq<u8>> {
    match pending {
        Some(response) => Some(response@),
        None => None,
    }
}

/// Hands out the response that is waiting. It is gone afterwards, whatever the
/// guest has asked for.
pub fn take_response(pending: &mut Option<Vec<u8>>, length: usize, the: &str) -> (taken: Result<
    Vec<u8>,
    String,
>)
    ensures
        *final(pending) is None,
        match taken {
            Ok(taken) => taken_of(pending_view(*old(pending)), length as nat, the@) == Ok::<
                Seq<u8>,
                Seq<char>,
            >(taken@),
            Err(message) => taken_of(pending_view(*old(pending)), length as nat, the@) == Err::<
                Seq<u8>,
                Seq<char>,
            >(message@),
        },
{
    match pending.take() {
        None => Err(glue2(the, "host response was already read")),
        Some(response) => if response.len() != length {
            Err(glue2(the, "host response length changed"))
        } else {
            Ok(response)
        },
    }
}

// ------------------------------------------------------------ guest requests --

/// The length of a host's response, as a guest accepts it.
pub fn reply_length(length: i32, limit: usize) -> (accepted: Result<usize, String>)
    requires
        limit < usize::MAX,
    ensures
        match accepted {
            Ok(accepted) => 0 < length <= limit + 1 && accepted == length,
            Err(message) => (length <= 0 || length > limit + 1) && message@
                == "host returned an invalid response length"@,
        },
{
    if length <= 0 || length as usize > limit + 1 {
        return Err("host returned an invalid response length".to_owned());
    }
    Ok(length as usize)
}

/// What a host's response says, once `read` of its `length` bytes have come.
pub open spec fn reply_of(length: int, read: int, response: Seq<u8>) -> Result<
    Seq<u8>,
    Seq<char>,
> {
    if read != length {
        Err("host returned an incomplete response"@)
    } else {
        opened_of(response, "host returned an empty response"@)
    }
}

/// What a host's response says.
pub fn reply(length: i32, read: i32, response: &Vec<u8>) -> (body: Result<Vec<u8>, String>)
    ensures
        match body {
            Ok(body) => reply_of(length as int, read as int, response@) == Ok::<
                Seq<u8>,
                Seq<char>,
            >(body@),
            Err(message) => reply_of(length as int, read as int, response@) == Err::<
                Seq<u8>,
                Seq<char>,
            >(message@),
        },
{
    if read != length {
        return Err("host returned an incomplete response".to_owned());
    }
    opened(response, "host returned an empty response")
}

} // verus!
