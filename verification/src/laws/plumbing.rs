//! What the frames, tools, streams and documents around the plugins mean.
use crate::budget::{
    after_block, blocks_are_paid_for, fitting, full_budget, grown, nothing_is_lost_silently, spent,
    spent_on, with_block, BlockView, Budget,
};
use crate::encoding::lossy_text;
use crate::frame::{
    answered_of, executed_of, framed_of, opened_of, packed_of, range_of, reply_of,
    response_range_of, taken_of,
};
use crate::json::{entry, JsonView};
use crate::laws::reading::{ends, group_cells, lines_begin, lines_end, rows_in, told};
use crate::laws::text::{joined_texts_come_apart, written};
use crate::pipes::{diagnosis_of, first_line_of, prefix_of};
use crate::report::{
    lines_view, report_json, report_view, row_json, section_json, table_view, BodyView, ReportView,
    RowView, SectionView,
};
use crate::resource_summary::{label_rows, summary_of, Request};
use crate::scan_request::{scope_of, ScanRequest};
use crate::sequences::first_match_found;
use crate::text::{begins, text_lines, trimmed};
use crate::text_map::{text_at, text_or};
use crate::tools::{
    all_blank, command_of, concluded, failure_of, is_blank, is_tool, unwritten, Candidate,
};
use vstd::prelude::*;
use vstd::utf8::{decode_utf8, encode_utf8, valid_utf8};

verus! {

// --------------------------------------------------------------------- frames --

/// A buffer is one exactly where it is somewhere, is not empty and is within its
/// limit, and it is the one that was named.
pub proof fn buffers_are_within_their_limit(pointer: int, length: int, maximum: int)
    ensures
        range_of(pointer, length, maximum) is Ok <==> pointer >= 0 && 0 < length <= maximum,
        range_of(pointer, length, maximum) matches Ok(range) ==> range.0 == pointer && range.1
            == length,
        pointer < 0 ==> range_of(pointer, length, maximum) == Err::<(int, int), Seq<char>>(
            "negative guest pointer"@,
        ),
{
}

/// A response opens with its status. Its body is how the answer begins, up to the
/// limit.
pub proof fn responses_open_with_their_status(status: u8, body: Seq<u8>, limit: nat)
    ensures
        framed_of(status, body, limit).len() == 1 + if body.len() < limit {
            body.len()
        } else {
            limit
        },
        framed_of(status, body, limit)[0] == status,
        forall|i: int|
            1 <= i < framed_of(status, body, limit).len() ==> (#[trigger] framed_of(
                status,
                body,
                limit,
            )[i]) == body[i - 1],
{
}

/// What a host answers with is read as an answer where it is one and as a failure
/// where it is one.
pub proof fn answers_say_whether_they_are_failures(
    answer: Result<Seq<u8>, Seq<char>>,
    limit: nat,
    empty: Seq<char>,
)
    ensures
        opened_of(answered_of(answer, limit), empty) is Ok <==> answer is Ok,
        opened_of(Seq::empty(), empty) == Err::<Seq<u8>, Seq<char>>(empty),
{
}

/// A pointer and a length packed into one number come out of its halves.
pub proof fn packed_buffers_come_apart(pointer: u32, length: u32)
    ensures
        packed_of(pointer, length) / 0x1_0000_0000 == length,
        packed_of(pointer, length) % 0x1_0000_0000 == pointer,
{
    vstd::arithmetic::div_mod::lemma_fundamental_div_mod_converse(
        packed_of(pointer, length),
        0x1_0000_0000,
        length as int,
        pointer as int,
    );
}

/// The response that a guest names is taken exactly where it is somewhere, is not
/// empty and holds no more than 1 MiB and its status.
pub proof fn responses_are_within_their_limit(pointer: u32, length: u32, refusal: Seq<char>)
    ensures
        response_range_of(pointer, length, refusal) is Ok <==> pointer > 0 && 0 < length
            <= 1048577,
        response_range_of(pointer, length, refusal) matches Ok(range) ==> range.0 == pointer
            && range.1 == length,
        response_range_of(pointer, length, refusal) matches Err(message) ==> message == refusal,
{
}

/// A response is handed out once and whole, to a guest that asks for exactly as
/// much.
pub proof fn responses_are_taken_whole(pending: Option<Seq<u8>>, length: nat, the: Seq<char>)
    ensures
        taken_of(pending, length, the) is Ok <==> (pending matches Some(response) && response.len()
            == length),
        taken_of(pending, length, the) matches Ok(response) ==> pending == Some(response),
        pending is None ==> taken_of(pending, length, the) == Err::<Seq<u8>, Seq<char>>(
            the + "host response was already read"@,
        ),
{
}

/// A reply counts only where all of it has come.
pub proof fn replies_have_to_be_whole(length: int, read: int, response: Seq<u8>)
    ensures
        read != length ==> reply_of(length, read, response) is Err,
        read == length && response.len() > 0 && response[0] == 0 ==> reply_of(
            length,
            read,
            response,
        ) == Ok::<Seq<u8>, Seq<char>>(response.drop_first()),
        read == length && response.len() > 0 && response[0] != 0 ==> reply_of(
            length,
            read,
            response,
        ) == Err::<Seq<u8>, Seq<char>>(lossy_text(response.drop_first())),
        response.len() == 0 ==> reply_of(length, read, response) is Err,
{
}

// ---------------------------------------------------------------------- tools --

/// A tool can be run and is not the program that looks for it.
pub proof fn tools_are_other_programs(candidate: Candidate)
    ensures
        is_tool(candidate) <==> candidate.executable && !candidate.own,
{
}

/// A tool has an output exactly where it succeeded within the limit, and that is
/// what it printed. What is said of a failure names the command and how it ended,
/// and ends with what the tool printed as an error or, where that is blank, with
/// what it printed at all.
pub proof fn tools_that_fail_have_no_output(
    command: Seq<char>,
    success: bool,
    status: Seq<char>,
    output: Seq<u8>,
    truncated: bool,
    errors: Seq<u8>,
)
    ensures
        ({
            let result = concluded(command, success, status, output, truncated, errors);
            &&& result is Ok <==> success && !truncated
            &&& result matches Ok(bytes) ==> bytes == output
            &&& result matches Err(message) ==> begins(message, command)
            &&& !success ==> (result matches Err(message) && begins(
                message,
                command + " failed ("@ + status + "): "@,
            ))
            &&& !success && !all_blank(errors) ==> (result matches Err(message) && ends(
                message,
                trimmed(lossy_text(errors)),
            ))
            &&& !success && all_blank(errors) ==> (result matches Err(message) && ends(
                message,
                trimmed(lossy_text(output)),
            ))
        }),
{
    broadcast use {lines_begin, lines_end};

    if !success {
        let message = concluded(command, success, status, output, truncated, errors)->Err_0;
        let detail = trimmed(
            lossy_text(
                if all_blank(errors) {
                    output
                } else {
                    errors
                },
            ),
        );
        let rest = " failed ("@ + status + "): "@ + detail;
        assert(message =~= command + rest);
    } else if truncated {
        let rest = " wrote more than 1 MiB; the report would be incomplete"@;
        assert(begins(command + rest, command));
    }
}

/// Bytes are blank exactly where every one of them is a space, a tab or the end of
/// a line or a page.
pub proof fn blank_bytes_say_nothing(bytes: Seq<u8>)
    ensures
        all_blank(bytes) <==> forall|i: int|
            0 <= i < bytes.len() ==> #[trigger] bytes[i] == 0x20 || bytes[i] == 0x09 || bytes[i]
                == 0x0a || bytes[i] == 0x0c || bytes[i] == 0x0d,
{
    if all_blank(bytes) {
        assert forall|i: int| 0 <= i < bytes.len() implies #[trigger] bytes[i] == 0x20 || bytes[i]
            == 0x09 || bytes[i] == 0x0a || bytes[i] == 0x0c || bytes[i] == 0x0d by {
            assert(is_blank(bytes[i]));
        }
    }
}

/// A tool that succeeded without taking all its input has not failed.
pub proof fn unread_input_is_no_failure(
    program: Seq<char>,
    success: bool,
    error: Option<Seq<char>>,
)
    ensures
        unwritten(program, success, error) is Some <==> !success && error is Some,
        unwritten(program, success, error) matches Some(message) ==> message
            == "failed while writing to "@ + program + ": "@ + error->0,
{
}

/// What is said of a scanner that failed is the first thing it said of it. Without
/// that it is what went wrong in reading its document, or how it ended.
pub proof fn scanners_explain_themselves_first(
    name: Seq<char>,
    parse_error: Seq<char>,
    status: Seq<char>,
    stderr: Seq<u8>,
)
    ensures
        first_line_of(stderr) matches Some(detail) ==> failure_of(
            name,
            Some(parse_error),
            status,
            stderr,
        ) == name + " failed: "@ + detail,
        first_line_of(stderr) is None ==> failure_of(name, Some(parse_error), status, stderr)
            == parse_error,
        first_line_of(stderr) matches Some(detail) ==> failure_of(name, None, status, stderr)
            == name + " exited with "@ + status + ": "@ + detail,
        first_line_of(stderr) is None ==> failure_of(name, None, status, stderr) == name
            + " exited with "@ + status + ": "@ + "no error output"@,
{
}

/// The first line that says anything is the first that is not blank, without the
/// white space around it.
pub proof fn the_first_words_are_found(bytes: Seq<u8>, at: int)
    requires
        valid_utf8(bytes),
        0 <= at < text_lines(decode_utf8(bytes)).len(),
        trimmed(text_lines(decode_utf8(bytes))[at]).len() > 0,
        forall|i: int|
            0 <= i < at ==> trimmed(#[trigger] text_lines(decode_utf8(bytes))[i]).len() == 0,
    ensures
        first_line_of(bytes) == Some(trimmed(text_lines(decode_utf8(bytes))[at])),
        ({
            let line = trimmed(text_lines(decode_utf8(bytes))[at]);
            diagnosis_of(bytes) is None <==> line[0] == '{' || line[0] == '['
        }),
        diagnosis_of(bytes) matches Some(line) ==> first_line_of(bytes) == Some(line),
{
    let lines = text_lines(decode_utf8(bytes));
    let test = |line: Seq<char>| trimmed(line).len() > 0;
    assert forall|i: int| 0 <= i < at implies !test(#[trigger] lines[i]) by {
        assert(trimmed(lines[i]).len() == 0);
    }
    first_match_found(lines, test, at);
}

/// What is kept of a stream is how it begins, up to the limit.
pub proof fn streams_are_kept_from_the_start(stream: Seq<u8>, limit: nat)
    ensures
        prefix_of(stream, limit).len() <= limit,
        stream.len() <= limit ==> prefix_of(stream, limit) == stream,
        stream.len() > limit ==> prefix_of(stream, limit).len() == limit,
        forall|i: int|
            0 <= i < prefix_of(stream, limit).len() ==> (#[trigger] prefix_of(stream, limit)[i])
                == stream[i],
{
    assert(stream.take(stream.len() as int) =~= stream);
}

// ------------------------------------------------------------------ documents --

proof fn keys_differ()
    ensures
        "title"@.len() == 5 && "title"@[0] == 't',
        "sections"@.len() == 8,
        "schema_version"@.len() == 14,
        "columns"@.len() == 7,
        "rows"@.len() == 4,
        "lines"@.len() == 5 && "lines"@[0] == 'l',
        "title"@ != "lines"@,
{
    reveal_strlit("title");
    reveal_strlit("sections");
    reveal_strlit("schema_version");
    reveal_strlit("columns");
    reveal_strlit("rows");
    reveal_strlit("lines");
    assert("title"@[0] != "lines"@[0]);
}

/// The document of a report has its title, the version and a document for each of
/// its sections in their order.
pub proof fn reports_are_written_whole(report: ReportView)
    ensures
        ({
            let document = report_json(report);
            &&& document.get("title"@) == Some(JsonView::Text(report.title))
            &&& document.get("schema_version"@) == Some(
                JsonView::Number(Some(report.schema_version as i64)),
            )
            &&& document.get("sections"@) matches Some(JsonView::Array(sections)) && sections.len()
                == report.sections.len() && forall|i: int|
                0 <= i < sections.len() ==> #[trigger] sections[i] == section_json(
                    report.sections[i],
                )
        }),
{
    reveal_with_fuel(entry, 5);
    keys_differ();
}

/// The document of a section has its title, and either its lines or its rows under
/// their columns.
pub proof fn sections_are_written_whole(section: SectionView)
    ensures
        ({
            let document = section_json(section);
            &&& document.get("title"@) == Some(JsonView::Text(section.title))
            &&& match section.body {
                BodyView::Lines { lines } => document.get("lines"@) matches Some(
                    JsonView::Array(texts),
                ) && texts.len() == lines.len() && (forall|i: int|
                    0 <= i < texts.len() ==> #[trigger] texts[i] == JsonView::Text(lines[i]))
                    && document.get("rows"@) is None,
                BodyView::Table { columns, rows } => document.get("rows"@) matches Some(
                    JsonView::Array(texts),
                ) && texts.len() == rows.len() && (forall|i: int|
                    0 <= i < texts.len() ==> is_pair(#[trigger] texts[i], rows[i]))
                    && (document.get("columns"@) matches Some(names) && is_pair(names, columns))
                    && document.get("lines"@) is None,
            }
        }),
{
    reveal_with_fuel(entry, 5);
    keys_differ();
    if let BodyView::Table { rows, .. } = section.body {
        assert forall|i: int| 0 <= i < rows.len() implies is_pair(
            #[trigger] row_json(rows[i]),
            rows[i],
        ) by {}
    }
}

/// Whether a document is a row: its field and its value.
pub open spec fn is_pair(document: JsonView, row: RowView) -> bool {
    document matches JsonView::Array(texts) && texts.len() == 2 && texts[0] == JsonView::Text(row.0)
        && texts[1] == JsonView::Text(row.1)
}

proof fn selection_names()
    ensures
        "Context"@.len() == 7,
        "Kind"@.len() == 4 && "Kind"@[0] == 'K',
        "Namespace"@.len() == 9,
        "Name"@.len() == 4 && "Name"@[0] == 'N',
        "Kind"@ != "Name"@,
{
    reveal_strlit("Context");
    reveal_strlit("Kind");
    reveal_strlit("Namespace");
    reveal_strlit("Name");
    assert("Kind"@[0] != "Name"@[0]);
}

/// The summary of a resource tells what is selected under the name of each thing,
/// and its labels where they are asked for.
pub proof fn summaries_tell_what_is_selected(request: &Request)
    ensures
        summary_of(request) is Ok <==> request.schema_version == 1,
        summary_of(request) matches Ok(report) ==> {
            let object = match request.object {
                Some(object) => object@,
                None => JsonView::Null,
            };
            &&& request.context matches Some(context) ==> told(report, "Context"@) == Some(context@)
            &&& request.context is None ==> told(report, "Context"@) == Some("inferred"@)
            &&& report.title == "Resource summary"@
            &&& object.get("kind"@) matches Some(JsonView::Text(kind)) ==> told(report, "Kind"@)
                == Some(kind)
            &&& object.at("metadata"@, "namespace"@) matches Some(JsonView::Text(namespace))
                ==> told(report, "Namespace"@) == Some(namespace)
            &&& object.at("metadata"@, "name"@) matches Some(JsonView::Text(name)) ==> told(
                report,
                "Name"@,
            ) == Some(name)
            &&& text_at(request.inputs@, "detail"@) == Some("true"@) <==> report.sections.len() == 2
            &&& text_at(request.inputs@, "detail"@) != Some("true"@) <==> report.sections.len() == 1
            &&& report.sections.len() == 2 ==> report.sections[1].title == "Labels"@ && rows_in(
                report.sections[1],
            ) == label_rows(object)
        },
{
    broadcast use group_cells;

    selection_names();
    if let Ok(report) = summary_of(request) {
        let rows = rows_in(report.sections[0]);
        assert(rows =~= Seq::<RowView>::empty().push(rows[0]).push(rows[1]).push(rows[2]).push(
            rows[3],
        ));
    }
}

/// Every label of an object is shown with its value.
pub proof fn labels_are_shown_with_their_values(
    object: JsonView,
    labels: Seq<(Seq<char>, JsonView)>,
    at: int,
)
    requires
        object.at("metadata"@, "labels"@) == Some(JsonView::Object(labels)),
        0 <= at < labels.len(),
    ensures
        label_rows(object).len() == labels.len(),
        label_rows(object)[at].0 == labels[at].0,
        labels[at].1 matches JsonView::Text(value) ==> label_rows(object)[at].1 == value,
{
}

/// A scan is of the context and the namespace of the request, or of the report
/// that it names.
pub proof fn scan_requests_are_read(request: &ScanRequest)
    ensures
        scope_of(request) is Ok <==> request.schema_version == 1,
        scope_of(request) matches Ok(scope) ==> {
            &&& request.context matches Some(context) ==> scope.context == context@
            &&& request.context is None ==> scope.context.len() == 0
            &&& request.namespace matches Some(namespace) ==> scope.namespace == namespace@
            &&& request.namespace is None ==> scope.namespace.len() == 0
            &&& scope.saved == text_or(request.inputs@, "report"@)
        },
{
}

// ----------------------------------------------------------------- allowances --

/// An allowance takes 4000 lines and 512 KiB. A line is taken where there is room
/// for it and nothing was left out before, and uses up itself; one that is not
/// taken uses up nothing and closes the list.
pub proof fn lines_are_taken_while_they_fit(budget: Budget, lines: Seq<Seq<char>>, line: Seq<char>)
    ensures
        full_budget().lines == 4000 && full_budget().bytes == 512 * 1024
            && !full_budget().truncated,
        ({
            let size = encode_utf8(line).len();
            let after = spent(budget, line);
            let fits = !budget.truncated && budget.lines > 0 && size <= budget.bytes;
            &&& fits <==> !after.truncated
            &&& fits ==> after.lines == budget.lines - 1 && after.bytes == budget.bytes - size
                && grown(budget, lines, line) == lines.push(line)
            &&& !fits ==> after.lines == budget.lines && after.bytes == budget.bytes && grown(
                budget,
                lines,
                line,
            ) == lines
        }),
{
}

proof fn no_more_fit_than_there_are(budget: Budget, lines: Seq<Seq<char>>)
    ensures
        fitting(budget, lines) <= lines.len(),
    decreases lines.len(),
{
    if lines.len() > 0 {
        no_more_fit_than_there_are(budget, lines.drop_last());
    }
}

/// A block is taken line by line up to the first line that does not fit, and what
/// it was missing stays missing.
pub proof fn blocks_are_taken_line_by_line(
    budget: Budget,
    lines: Seq<Seq<char>>,
    block: BlockView,
    line: Seq<char>,
)
    ensures
        ({
            let longer = BlockView { lines: block.lines.push(line), ..block };
            let taken = with_block(budget, lines, block);
            &&& block.truncated ==> after_block(budget, block).truncated
            &&& with_block(budget, lines, BlockView { lines: Seq::empty(), ..block }) == lines
            &&& !block.truncated && !after_block(budget, block).truncated ==> {
                &&& with_block(budget, lines, longer) == grown(
                    after_block(budget, block),
                    taken,
                    line,
                )
                &&& after_block(budget, longer) == spent(after_block(budget, block), line)
            }
        }),
{
    let longer = BlockView { lines: block.lines.push(line), ..block };
    let none = BlockView { lines: Seq::empty(), ..block };
    assert(longer.lines.drop_last() =~= block.lines);
    assert(longer.lines.last() == line);
    assert(none.lines.take(0) =~= Seq::<Seq<char>>::empty());
    assert(lines + Seq::<Seq<char>>::empty() =~= lines);
    if !block.truncated && !after_block(budget, block).truncated {
        nothing_is_lost_silently(budget, lines, block);
        blocks_are_paid_for(budget, lines, block);
        blocks_are_paid_for(budget, lines, longer);
        let kept = fitting(budget, block.lines);
        assert(with_block(budget, lines, block).len() == lines.len() + block.lines.len());
        no_more_fit_than_there_are(budget, block.lines);
        assert(kept == block.lines.len());
        assert(block.lines.take(block.lines.len() as int) =~= block.lines);
        assert(longer.lines.take(kept as int) =~= block.lines);
        assert(longer.lines.take(kept as int + 1) =~= longer.lines);
        assert(lines + longer.lines =~= (lines + block.lines).push(line));
        assert(spent_on(budget, longer.lines) == spent(spent_on(budget, block.lines), line));
    }
}

/// Every report is in the first version of its format, and a summary has the
/// columns of a field and its value.
pub proof fn reports_have_one_format(
    title: Seq<char>,
    sections: Seq<SectionView>,
    rows: Seq<RowView>,
    lines: Seq<Seq<char>>,
)
    ensures
        report_view(title, sections).schema_version == 1,
        report_view(title, sections).title == title,
        report_view(title, sections).sections == sections,
        table_view(title, rows).title == title,
        table_view(title, rows).body == (BodyView::Table { columns: ("Field"@, "Value"@), rows }),
        lines_view(title, lines).title == title,
        lines_view(title, lines).body == (BodyView::Lines { lines }),
{
}

/// An answer has the status zero, a failure the status one, whoever gives it.
pub proof fn failures_have_the_status_one(answer: Result<Seq<u8>, Seq<char>>, limit: nat)
    ensures
        answer is Ok ==> executed_of(answer)[0] == 0 && answered_of(answer, limit)[0] == 0,
        answer is Err ==> executed_of(answer)[0] == 1 && answered_of(answer, limit)[0] == 1,
{
}

/// A command is shown as its program and its arguments with spaces between them.
pub proof fn commands_are_shown_as_typed(program: Seq<char>, arguments: Seq<Seq<char>>)
    requires
        arguments.len() > 0,
    ensures
        command_of(program, arguments) == written(seq![program] + arguments, ' '),
{
    reveal_strlit(" ");
    assert(" "@ =~= seq![' ']);
    joined_texts_come_apart(arguments, ' ');
    let all = seq![program] + arguments;
    assert(all.drop_first() =~= arguments);
    assert(all[0] == program);
}

} // verus!
