//! Reading the output of a tool: all of it is drained, a bounded prefix is kept.
use crate::encoding::read_utf8;
use crate::sequences::{first_match, first_match_found, first_match_missing};
use crate::text::{chars_of, lines_of, text_lines, trim, trimmed, views};
use vstd::prelude::*;
use vstd::utf8::{decode_utf8, valid_utf8};

verus! {

// -------------------------------------------------------------------- prefix --

/// The first `limit` bytes of a stream.
pub open spec fn prefix_of(stream: Seq<u8>, limit: nat) -> Seq<u8> {
    stream.take(
        if stream.len() < limit {
            stream.len() as int
        } else {
            limit as int
        },
    )
}

/// What is kept of a stream that goes on with a chunk.
pub open spec fn kept_of(kept: Seq<u8>, chunk: Seq<u8>, limit: nat) -> Seq<u8> {
    kept + prefix_of(
        chunk,
        if kept.len() < limit {
            (limit - kept.len()) as nat
        } else {
            0
        },
    )
}

/// Keeping chunk after chunk keeps the first bytes of the whole stream.
pub proof fn chunks_make_a_prefix(stream: Seq<u8>, chunk: Seq<u8>, limit: nat)
    ensures
        kept_of(prefix_of(stream, limit), chunk, limit) == prefix_of(stream + chunk, limit),
{
    assert(kept_of(prefix_of(stream, limit), chunk, limit) =~= prefix_of(stream + chunk, limit));
}

fn keep(kept: &mut Vec<u8>, chunk: &[u8], limit: usize) -> (count: usize)
    ensures
        final(kept)@ == kept_of(old(kept)@, chunk@, limit as nat),
        final(kept)@ == old(kept)@ + chunk@.take(count as int),
        count <= chunk@.len(),
        (count < chunk@.len()) == (old(kept)@.len() + chunk@.len() > limit && chunk@.len() > 0),
{
    let left = if kept.len() < limit {
        limit - kept.len()
    } else {
        0
    };
    let count = if chunk.len() < left {
        chunk.len()
    } else {
        left
    };
    let ghost before = kept@;
    let mut at: usize = 0;
    assert(before + chunk@.take(0) =~= before);
    while at < count
        invariant
            at <= count <= chunk@.len(),
            kept@ == before + chunk@.take(at as int),
        decreases count - at,
    {
        kept.push(chunk[at]);
        at = at + 1;
        assert(kept@ =~= before + chunk@.take(at as int));
    }
    count
}

/// Keeps as much of a chunk as the limit allows.
pub fn bounded_read(bytes: &mut Vec<u8>, chunk: &[u8], limit: usize)
    ensures
        final(bytes)@ == kept_of(old(bytes)@, chunk@, limit as nat),
{
    let _ = keep(bytes, chunk, limit);
}

/// A bounded copy of what passes through a reader.
pub struct CapturingReader {
    pub captured: Vec<u8>,
    pub limit: usize,
}

impl CapturingReader {
    /// A copy that keeps at most `limit` bytes.
    pub fn new(limit: usize) -> (reader: CapturingReader)
        ensures
            reader.captured@ == Seq::<u8>::empty(),
            reader.limit == limit,
    {
        CapturingReader { captured: Vec::new(), limit }
    }

    /// Copies what was just read.
    pub fn record(&mut self, chunk: &[u8])
        ensures
            final(self).captured@ == kept_of(old(self).captured@, chunk@, old(self).limit as nat),
            final(self).limit == old(self).limit,
    {
        let limit = self.limit;
        bounded_read(&mut self.captured, chunk, limit);
    }
}

// ------------------------------------------------------------------ captures --

/// What was kept of a stream, and whether there was more.
#[derive(Debug, PartialEq, Eq)]
pub struct Captured {
    pub bytes: Vec<u8>,
    pub truncated: bool,
}

/// Whether a capture is the one of a stream.
pub open spec fn captures(captured: Captured, stream: Seq<u8>, limit: nat) -> bool {
    captured.bytes@ == prefix_of(stream, limit) && captured.truncated == (stream.len() > limit)
}

impl Captured {
    /// A capture before anything was read.
    pub fn new() -> (captured: Captured)
        ensures
            captured.bytes@ == Seq::<u8>::empty(),
            !captured.truncated,
    {
        Captured { bytes: Vec::new(), truncated: false }
    }
}

/// Keeps as much of a chunk as the limit allows and notes what does not fit.
pub fn read_bounded(captured: &mut Captured, chunk: &[u8], limit: usize) -> (count: usize)
    ensures
        final(captured).bytes@ == kept_of(old(captured).bytes@, chunk@, limit as nat),
        final(captured).bytes@ == old(captured).bytes@ + chunk@.take(count as int),
        count <= chunk@.len(),
        final(captured).truncated == (old(captured).truncated || count < chunk@.len()),
        forall|stream: Seq<u8>|
            #[trigger] captures(*old(captured), stream, limit as nat) ==> captures(
                *final(captured),
                stream + chunk@,
                limit as nat,
            ),
{
    let ghost before = *captured;
    let count = keep(&mut captured.bytes, chunk, limit);
    if count < chunk.len() {
        captured.truncated = true;
    }
    proof {
        assert forall|stream: Seq<u8>| #[trigger]
            captures(before, stream, limit as nat) implies captures(
            *captured,
            stream + chunk@,
            limit as nat,
        ) by {
            chunks_make_a_prefix(stream, chunk@, limit as nat);
        }
    }
    count
}

/// What a read came back with.
pub enum Reading {
    /// Bytes; none at all are the end of the stream.
    Bytes(Vec<u8>),
    Interrupted,
    Failed(String),
}

/// What to do after a read.
#[derive(Debug, PartialEq, Eq)]
pub enum Progress {
    /// Read on, and pass these bytes on first.
    More(Vec<u8>),
    End,
    Failed(String),
}

/// Takes in what a read came back with. Reading goes on past the limit, so that
/// the writer is never cut off, and an interruption is no failure. The bytes to
/// pass on are the ones that were kept, with a notice after the last of them
/// where more was there.
pub fn capture(captured: &mut Captured, reading: Reading, limit: usize, notice: &str) -> (progress:
    Progress)
    ensures
        match reading {
            Reading::Bytes(chunk) => {
                &&& final(captured).bytes@ == kept_of(
                    old(captured).bytes@,
                    chunk@,
                    limit as nat,
                )
                &&& final(captured).truncated == (old(captured).truncated || old(
                    captured,
                ).bytes@.len() + chunk@.len() > limit && chunk@.len() > 0)
                &&& forall|stream: Seq<u8>|
                    #[trigger] captures(*old(captured), stream, limit as nat) ==> captures(
                        *final(captured),
                        stream + chunk@,
                        limit as nat,
                    )
                &&& if chunk@.len() == 0 {
                    progress is End
                } else {
                    progress matches Progress::More(forward) && old(captured).bytes@
                        + forward@ == final(captured).bytes@ + if final(captured).truncated
                        && !old(captured).truncated {
                        vstd::utf8::encode_utf8(notice@)
                    } else {
                        Seq::<u8>::empty()
                    }
                }
            },
            Reading::Interrupted => *final(captured) == *old(captured) && (progress matches
                Progress::More(forward) && forward@.len() == 0),
            Reading::Failed(message) => *final(captured) == *old(captured) && (progress matches
                Progress::Failed(reported) && reported@ == message@),
        },
{
    let chunk = match reading {
        Reading::Bytes(chunk) => chunk,
        Reading::Interrupted => {
            return Progress::More(Vec::new());
        },
        Reading::Failed(message) => {
            return Progress::Failed(message);
        },
    };
    let ghost before = *captured;
    let known = captured.truncated;
    let count = read_bounded(captured, chunk.as_slice(), limit);
    assert(count < chunk@.len() <==> before.bytes@.len() + chunk@.len() > limit && chunk@.len() > 0)
        by {
        assert(kept_of(before.bytes@, chunk@, limit as nat).len() == before.bytes@.len() + count);
    }
    if chunk.len() == 0 {
        assert(captured.bytes@ =~= before.bytes@);
        return Progress::End;
    }
    let mut forward = chunk;
    let ghost whole = forward@;
    forward.truncate(count);
    assert(forward@ =~= whole.take(count as int));
    if captured.truncated && !known {
        let mut said = crate::frame::bytes_of(notice);
        forward.append(&mut said);
    }
    assert(before.bytes@ + forward@ =~= captured.bytes@ + if captured.truncated
        && !before.truncated {
        vstd::utf8::encode_utf8(notice@)
    } else {
        Seq::<u8>::empty()
    });
    Progress::More(forward)
}

// -------------------------------------------------------------------- lines --

/// The first line of bytes that says anything, without the white space around
/// it. Bytes that are no text have none.
pub open spec fn first_line_of(bytes: Seq<u8>) -> Option<Seq<char>> {
    if valid_utf8(bytes) {
        match first_match(
            text_lines(decode_utf8(bytes)),
            |line: Seq<char>| trimmed(line).len() > 0,
        ) {
            Some(line) => Some(trimmed(line)),
            None => None,
        }
    } else {
        None
    }
}

/// The first line of bytes that says anything.
pub fn first_line(bytes: &[u8]) -> (line: Option<String>)
    ensures
        match line {
            Some(line) => first_line_of(bytes@) == Some(line@),
            None => first_line_of(bytes@) is None,
        },
{
    let text = match read_utf8(bytes) {
        Ok(text) => text,
        Err(_) => {
            return None;
        },
    };
    let lines = lines_of(text.as_str());
    let ghost all = text_lines(text@);
    let ghost test = |line: Seq<char>| trimmed(line).len() > 0;
    let mut at: usize = 0;
    while at < lines.len()
        invariant
            at <= lines@.len(),
            views(lines@) == all,
            all == text_lines(text@),
            valid_utf8(bytes@) && text@ == decode_utf8(bytes@),
            test == (|line: Seq<char>| trimmed(line).len() > 0),
            forall|i: int| 0 <= i < at ==> !test(#[trigger] all[i]),
        decreases lines@.len() - at,
    {
        assert(all[at as int] == lines@[at as int]@);
        let line = trim(lines[at].as_str());
        if !line.as_str().is_empty() {
            proof {
                first_match_found(all, test, at as int);
            }
            return Some(line);
        }
        at = at + 1;
    }
    proof {
        first_match_missing(all, test);
    }
    None
}

/// Whether a line is the beginning of a JSON document.
pub open spec fn opens_document(line: Seq<char>) -> bool {
    line.len() > 0 && (line[0] == '{' || line[0] == '[')
}

/// The first line that says anything, unless it is the document itself.
pub open spec fn diagnosis_of(bytes: Seq<u8>) -> Option<Seq<char>> {
    match first_line_of(bytes) {
        Some(line) => if opens_document(line) {
            None
        } else {
            Some(line)
        },
        None => None,
    }
}

/// The first line that says anything, unless it is the document itself: a
/// document that could not be read begins with a bracket, and a bracket hides
/// what actually went wrong.
pub fn diagnosis(bytes: &[u8]) -> (line: Option<String>)
    ensures
        match line {
            Some(line) => diagnosis_of(bytes@) == Some(line@),
            None => diagnosis_of(bytes@) is None,
        },
{
    match first_line(bytes) {
        Some(line) => {
            let letters = chars_of(line.as_str());
            if letters.len() > 0 && (letters[0] == '{' || letters[0] == '[') {
                None
            } else {
                Some(line)
            }
        },
        None => None,
    }
}

} // verus!
