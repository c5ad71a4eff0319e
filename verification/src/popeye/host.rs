//! Running Popeye, and telling what became of the run.
use crate::frame::{framed, framed_of};
use crate::numbers::{decimal, size_text};
use crate::pipes::{diagnosis, diagnosis_of, first_line, first_line_of, Captured};
use crate::text::{glue2, glue3, glue4, group_views, text_view, views};
use vstd::prelude::*;

verus! {

/// The most bytes of a scan.
pub const SOURCE_MAX_BYTES: usize = 33554432;

// ------------------------------------------------------------------ requests --

/// What a guest may ask its host for.
#[verifier::ext_equal]
pub enum HostRequestView {
    ReadReport { path: Seq<char> },
    RunPopeye { context: Seq<char>, namespace: Seq<char> },
}

/// What a guest may ask its host for.
#[derive(Debug, PartialEq, Eq)]
pub enum HostRequest {
    ReadReport { path: String },
    RunPopeye { context: String, namespace: String },
}

impl HostRequest {
    pub open spec fn view(&self) -> HostRequestView {
        match self {
            HostRequest::ReadReport { path } => HostRequestView::ReadReport { path: path@ },
            HostRequest::RunPopeye { context, namespace } => HostRequestView::RunPopeye {
                context: context@,
                namespace: namespace@,
            },
        }
    }
}

/// Where a scan comes from: a saved one where one is named, a new one otherwise.
pub open spec fn source_of(saved: Seq<char>, context: Seq<char>, namespace: Seq<char>) -> HostRequestView {
    if saved.len() == 0 {
        HostRequestView::RunPopeye { context, namespace }
    } else {
        HostRequestView::ReadReport { path: saved }
    }
}

/// Where a scan comes from.
pub fn source(saved: &str, context: &str, namespace: &str) -> (request: HostRequest)
    ensures
        request@ == source_of(saved@, context@, namespace@),
{
    if saved.is_empty() {
        HostRequest::RunPopeye { context: context.to_owned(), namespace: namespace.to_owned() }
    } else {
        HostRequest::ReadReport { path: saved.to_owned() }
    }
}

// ----------------------------------------------------------------- arguments --

/// The arguments of a scan: fixed but for the context and the namespace.
pub open spec fn arguments_of(context: Seq<char>, namespace: Seq<char>) -> Seq<Seq<char>> {
    let fixed = seq![
        "--out"@,
        "json"@,
        "--force-exit-zero"@,
        "--log-level"@,
        "0"@,
        "--logs"@,
        "none"@,
    ];
    let placed = if context.len() == 0 {
        fixed
    } else {
        fixed.push("--context"@).push(context)
    };
    if namespace.len() == 0 {
        placed.push("--all-namespaces"@)
    } else {
        placed.push("--namespace"@).push(namespace)
    }
}

/// The arguments of a scan.
pub fn configure(context: &str, namespace: &str) -> (arguments: Vec<String>)
    ensures
        views(arguments@) == arguments_of(context@, namespace@),
{
    broadcast use group_views;

    let mut arguments: Vec<String> = Vec::new();
    arguments.push("--out".to_owned());
    arguments.push("json".to_owned());
    arguments.push("--force-exit-zero".to_owned());
    arguments.push("--log-level".to_owned());
    arguments.push("0".to_owned());
    arguments.push("--logs".to_owned());
    arguments.push("none".to_owned());
    if !context.is_empty() {
        arguments.push("--context".to_owned());
        arguments.push(context.to_owned());
    }
    if namespace.is_empty() {
        arguments.push("--all-namespaces".to_owned());
    } else {
        arguments.push("--namespace".to_owned());
        arguments.push(namespace.to_owned());
    }
    assert(views(arguments@) =~= arguments_of(context@, namespace@));
    arguments
}

/// What to start for a scan: the Popeye that was found, and its arguments.
pub fn run_popeye(found: Option<String>, context: &str, namespace: &str) -> (command: Result<
    (String, Vec<String>),
    String,
>)
    ensures
        match command {
            Ok(command) => text_view(found) == Some(command.0@) && views(command.1@)
                == arguments_of(context@, namespace@),
            Err(message) => found is None && message@
                == "popeye is not on PATH; install it from https://github.com/derailed/popeye#installation"@,
        },
{
    match found {
        Some(executable) => Ok((executable, configure(context, namespace))),
        None => Err(
            "popeye is not on PATH; install it from https://github.com/derailed/popeye#installation".to_owned(),
        ),
    }
}

// --------------------------------------------------------------------- files --

/// A file that was read with a limit.
pub open spec fn file_of(contents: Seq<u8>, exceeded: bool, limit: nat) -> Result<
    Seq<u8>,
    Seq<char>,
> {
    if exceeded {
        Err("file exceeds "@ + decimal(limit / 1024 / 1024) + " MiB"@)
    } else {
        Ok(contents)
    }
}

/// A file that was read with a limit.
pub fn file_contents(captured: Captured, limit: usize) -> (contents: Result<Vec<u8>, String>)
    ensures
        match contents {
            Ok(contents) => file_of(captured.bytes@, captured.truncated, limit as nat) == Ok::<
                Seq<u8>,
                Seq<char>,
            >(contents@),
            Err(message) => file_of(captured.bytes@, captured.truncated, limit as nat) == Err::<
                Seq<u8>,
                Seq<char>,
            >(message@),
        },
{
    if captured.truncated {
        let size = size_text(limit / 1024 / 1024);
        return Err(glue3("file exceeds ", size.as_str(), " MiB"));
    }
    Ok(captured.bytes)
}

// ------------------------------------------------------------------ outcomes --

/// What is said of a run of Popeye that failed: its own words where it has any,
/// what it printed as an error otherwise.
pub open spec fn detail_of(output: Seq<u8>, errors: Seq<u8>) -> Seq<char> {
    match diagnosis_of(output) {
        Some(detail) => detail,
        None => match first_line_of(errors) {
            Some(detail) => detail,
            None => "no error output"@,
        },
    }
}

/// What a run of Popeye came to: a document, or why there is none. A run that
/// calls itself successful and printed something else than a document has
/// failed as well.
pub open spec fn output_of(
    success: bool,
    status: Seq<char>,
    output: Seq<u8>,
    exceeded: bool,
    errors: Seq<u8>,
) -> Result<Seq<u8>, Seq<char>> {
    if exceeded {
        Err("Popeye output exceeds 32 MiB"@)
    } else if !success {
        Err("Popeye exited with "@ + status + ": "@ + detail_of(output, errors))
    } else {
        match diagnosis_of(output) {
            Some(detail) => Err("Popeye failed: "@ + detail),
            None => Ok(output),
        }
    }
}

/// What a run of Popeye came to.
pub fn popeye_output(success: bool, status: &str, output: Captured, errors: &Captured) -> (result:
    Result<Vec<u8>, String>)
    ensures
        match result {
            Ok(bytes) => output_of(
                success,
                status@,
                output.bytes@,
                output.truncated,
                errors.bytes@,
            ) == Ok::<Seq<u8>, Seq<char>>(bytes@),
            Err(message) => output_of(
                success,
                status@,
                output.bytes@,
                output.truncated,
                errors.bytes@,
            ) == Err::<Seq<u8>, Seq<char>>(message@),
        },
{
    if output.truncated {
        return Err("Popeye output exceeds 32 MiB".to_owned());
    }
    let said = diagnosis(output.bytes.as_slice());
    if !success {
        let detail = match said {
            Some(detail) => detail,
            None => match first_line(errors.bytes.as_slice()) {
                Some(detail) => detail,
                None => "no error output".to_owned(),
            },
        };
        return Err(glue4("Popeye exited with ", status, ": ", detail.as_str()));
    }
    match said {
        Some(detail) => Err(glue2("Popeye failed: ", detail.as_str())),
        None => Ok(output.bytes),
    }
}

/// What is said of a scan that failed.
pub open spec fn scan_error_of(
    parse_error: Option<Seq<char>>,
    status: Seq<char>,
    stdout: Seq<u8>,
    stderr: Seq<u8>,
) -> Seq<char> {
    match parse_error {
        Some(error) => match diagnosis_of(stdout) {
            Some(detail) => "Popeye failed: "@ + detail,
            None => match (first_line_of(stdout), first_line_of(stderr)) {
                (None, Some(detail)) => "Popeye failed: "@ + detail,
                _ => error,
            },
        },
        None => "Popeye exited with "@ + status + ": "@ + match first_line_of(stderr) {
            Some(detail) => detail,
            None => "no error output"@,
        },
    }
}

/// What is said of a scan that failed. Popeye's own account counts first, even
/// where it was cut off because its document could not be read. Of a document
/// that broke, the parser knows where; only where Popeye printed nothing at all
/// is its error output all the evidence there is.
pub fn scan_error(parse_error: Option<String>, status: &str, stdout: &[u8], stderr: &[u8]) -> (message:
    String)
    ensures
        message@ == scan_error_of(text_view(parse_error), status@, stdout@, stderr@),
{
    match parse_error {
        Some(error) => match diagnosis(stdout) {
            Some(detail) => glue2("Popeye failed: ", detail.as_str()),
            None => {
                if first_line(stdout).is_some() {
                    error
                } else {
                    match first_line(stderr) {
                        Some(detail) => glue2("Popeye failed: ", detail.as_str()),
                        None => error,
                    }
                }
            },
        },
        None => {
            let detail = match first_line(stderr) {
                Some(detail) => detail,
                None => "no error output".to_owned(),
            };
            glue4("Popeye exited with ", status, ": ", detail.as_str())
        },
    }
}

/// A response to the guest, of no more than the most that a scan may hold.
pub fn encoded_response(status: u8, body: Vec<u8>) -> (response: Vec<u8>)
    ensures
        response@ == framed_of(status, body@, SOURCE_MAX_BYTES as nat),
{
    framed(status, body, SOURCE_MAX_BYTES)
}

} // verus!
