//! Running a tool: finding it, and making sense of how it ended.
use crate::encoding::{lossy_text, read_lossy};
use crate::pipes::{first_line, first_line_of, Captured};
use crate::text::{glue2, glue3, glue4, glue5, join, joined, trim, trimmed, views};
use vstd::prelude::*;

verus! {

// ----------------------------------------------------------------- discovery --

/// Whether a file can be started: it is a file and somebody may execute it.
pub fn is_executable(is_file: bool, mode: u32) -> (yes: bool)
    ensures
        yes == (is_file && mode & 0o111 != 0),
{
    is_file && mode & 0o111 != 0
}

/// A place where a tool may be.
pub struct Candidate {
    pub executable: bool,
    /// Whether it is the program that is looking.
    pub own: bool,
}

/// Whether a candidate is a tool to start.
pub open spec fn is_tool(candidate: Candidate) -> bool {
    candidate.executable && !candidate.own
}

/// The first candidate that is a tool to start. A program never finds itself,
/// even where it carries the name of the tool.
pub fn discover(candidates: &Vec<Candidate>) -> (found: Option<usize>)
    ensures
        match found {
            Some(at) => at < candidates@.len() && is_tool(candidates@[at as int]) && forall|i: int|
                0 <= i < at ==> !is_tool(#[trigger] candidates@[i]),
            None => forall|i: int|
                0 <= i < candidates@.len() ==> !is_tool(#[trigger] candidates@[i]),
        },
{
    let mut at: usize = 0;
    while at < candidates.len()
        invariant
            at <= candidates@.len(),
            forall|i: int| 0 <= i < at ==> !is_tool(#[trigger] candidates@[i]),
        decreases candidates@.len() - at,
    {
        if candidates[at].executable && !candidates[at].own {
            return Some(at);
        }
        at = at + 1;
    }
    None
}

// ---------------------------------------------------------------- conclusions --

/// A command as it is shown.
pub open spec fn command_of(program: Seq<char>, arguments: Seq<Seq<char>>) -> Seq<char> {
    program + " "@ + joined(arguments, " "@)
}

/// A command as it is shown.
pub fn command_line(program: &str, arguments: &Vec<String>) -> (text: String)
    ensures
        text@ == command_of(program@, views(arguments@)),
{
    let asked = join(arguments, " ");
    glue3(program, " ", asked.as_str())
}

/// Whether a byte is ASCII white space.
pub open spec fn is_blank(byte: u8) -> bool {
    byte == 0x20 || byte == 0x09 || byte == 0x0a || byte == 0x0c || byte == 0x0d
}

/// Whether bytes say nothing.
pub open spec fn all_blank(bytes: Seq<u8>) -> bool {
    forall|i: int| 0 <= i < bytes.len() ==> is_blank(#[trigger] bytes[i])
}

fn says_nothing(bytes: &Vec<u8>) -> (yes: bool)
    ensures
        yes == all_blank(bytes@),
{
    let mut at: usize = 0;
    while at < bytes.len()
        invariant
            at <= bytes@.len(),
            forall|i: int| 0 <= i < at ==> is_blank(#[trigger] bytes@[i]),
        decreases bytes@.len() - at,
    {
        let byte = bytes[at];
        if !(byte == 0x20 || byte == 0x09 || byte == 0x0a || byte == 0x0c || byte == 0x0d) {
            assert(!is_blank(bytes@[at as int]));
            return false;
        }
        at = at + 1;
    }
    true
}

/// What a tool that ended came to: its output, or why there is none. What it
/// printed as an error explains a failure, and its output does where it printed
/// no error. Output beyond the limit is no output at all.
pub open spec fn concluded(
    command: Seq<char>,
    success: bool,
    status: Seq<char>,
    output: Seq<u8>,
    truncated: bool,
    errors: Seq<u8>,
) -> Result<Seq<u8>, Seq<char>> {
    if !success {
        let detail = if all_blank(errors) {
            output
        } else {
            errors
        };
        Err(command + " failed ("@ + status + "): "@ + trimmed(lossy_text(detail)))
    } else if truncated {
        Err(command + " wrote more than 1 MiB; the report would be incomplete"@)
    } else {
        Ok(output)
    }
}

/// What a tool that ended came to.
pub fn conclude(
    command: &str,
    success: bool,
    status: &str,
    output: Captured,
    errors: &Captured,
) -> (result: Result<Vec<u8>, String>)
    ensures
        match result {
            Ok(bytes) => concluded(
                command@,
                success,
                status@,
                output.bytes@,
                output.truncated,
                errors.bytes@,
            ) == Ok::<Seq<u8>, Seq<char>>(bytes@),
            Err(message) => concluded(
                command@,
                success,
                status@,
                output.bytes@,
                output.truncated,
                errors.bytes@,
            ) == Err::<Seq<u8>, Seq<char>>(message@),
        },
{
    if !success {
        let detail = if says_nothing(&errors.bytes) {
            read_lossy(output.bytes.as_slice())
        } else {
            read_lossy(errors.bytes.as_slice())
        };
        let said = trim(detail.as_str());
        return Err(glue5(command, " failed (", status, "): ", said.as_str()));
    }
    if output.truncated {
        return Err(glue2(command, " wrote more than 1 MiB; the report would be incomplete"));
    }
    Ok(output.bytes)
}

/// What is said of input that a tool did not take. A tool that stops reading
/// early and still succeeds has not failed.
pub open spec fn unwritten(program: Seq<char>, success: bool, error: Option<Seq<char>>) -> Option<
    Seq<char>,
> {
    match error {
        Some(error) => if success {
            None
        } else {
            Some("failed while writing to "@ + program + ": "@ + error)
        },
        None => None,
    }
}

/// What is said of input that a tool did not take.
pub fn write_failure(program: &str, success: bool, error: &Option<String>) -> (message: Option<
    String,
>)
    ensures
        match message {
            Some(message) => unwritten(program@, success, crate::text::text_view(*error)) == Some(
                message@,
            ),
            None => unwritten(program@, success, crate::text::text_view(*error)) is None,
        },
{
    match error {
        Some(error) => if success {
            None
        } else {
            Some(glue4("failed while writing to ", program, ": ", error.as_str()))
        },
        None => None,
    }
}

/// What is said of a tool that could not be started.
pub fn not_started(program: &str, error: &str, install: &str) -> (message: String)
    ensures
        message@ == "failed to start "@ + program@ + " ("@ + error@ + "); install it from "@
            + install@,
{
    let begun = glue4("failed to start ", program, " (", error);
    glue3(begun.as_str(), "); install it from ", install)
}

/// What a scanner's document is worth: it counts only where it could be read and
/// the scanner succeeded. Otherwise a failure is owed, with what the parser said
/// where it was the document that could not be read.
pub fn usable<T>(parsed: Result<T, String>, success: bool) -> (document: Result<T, Option<String>>)
    ensures
        document == match parsed {
            Ok(document) => if success {
                Ok::<T, Option<String>>(document)
            } else {
                Err(None)
            },
            Err(error) => Err(Some(error)),
        },
{
    match parsed {
        Ok(document) => if success {
            Ok(document)
        } else {
            Err(None)
        },
        Err(error) => Err(Some(error)),
    }
}

/// What is said of a scanner that failed. Where it printed no usable document,
/// its own first words say more than the parser's.
pub open spec fn failure_of(
    name: Seq<char>,
    parse_error: Option<Seq<char>>,
    status: Seq<char>,
    stderr: Seq<u8>,
) -> Seq<char> {
    match parse_error {
        Some(error) => match first_line_of(stderr) {
            Some(detail) => name + " failed: "@ + detail,
            None => error,
        },
        None => name + " exited with "@ + status + ": "@ + match first_line_of(stderr) {
            Some(detail) => detail,
            None => "no error output"@,
        },
    }
}

/// What is said of a scanner that failed.
pub fn failure(name: &str, parse_error: Option<String>, status: &str, stderr: &[u8]) -> (message:
    String)
    ensures
        message@ == failure_of(name@, crate::text::text_view(parse_error), status@, stderr@),
{
    match parse_error {
        Some(error) => match first_line(stderr) {
            Some(detail) => glue3(name, " failed: ", detail.as_str()),
            None => error,
        },
        None => match first_line(stderr) {
            Some(detail) => glue5(name, " exited with ", status, ": ", detail.as_str()),
            None => glue5(name, " exited with ", status, ": ", "no error output"),
        },
    }
}

} // verus!
