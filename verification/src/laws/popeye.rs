//! What a Popeye report says of what the linters found.
use crate::budget::{grown, nothing_is_lost_silently, spent, Budget};
use crate::laws::reading::{
    counted, decimals_are_spelled, follows, given, giving, group_cells, group_numbers_in_lines,
    is_figure, lines_in, signed_decimals_are_spelled, spelled, spells, told,
};
use crate::numbers::{decimal, signed_decimal};
use crate::pipes::{diagnosis_of, first_line_of};
use crate::popeye::host::{
    arguments_of, file_of, output_of, scan_error_of, source_of, HostRequestView,
};
use crate::popeye::render::{
    context_of, error_section, fits, framing_len, kept_count, letters_within, linter_sections,
    notice_of, rendered_of, shortened, summary_rows,
};
use crate::popeye::scan::{
    after_section, finished, issue_line, resource_line, section_of, tally_line, Envelope, Linted,
    ReaderView, Scan, Tally,
};
use crate::report::{section_len, ReportView, SectionView};
use crate::text::{begins, views};
use vstd::prelude::*;
use vstd::utf8::{encode_scalar, encode_utf8};

verus! {

// -------------------------------------------------------------------- tallies --

proof fn tally_words()
    ensures
        "ok "@.len() == 3,
        " · info "@.len() == 8 && !is_figure(" · info "@[0]),
        " · warning "@.len() == 11 && !is_figure(" · warning "@[0]),
        " · error "@.len() == 9 && !is_figure(" · error "@[0]),
{
    reveal_strlit("ok ");
    reveal_strlit(" · info ");
    reveal_strlit(" · warning ");
    reveal_strlit(" · error ");
}

/// The number behind each word of a tally is the count of that name.
pub proof fn tallies_name_their_counts(tally: Tally)
    ensures
        follows(tally_line(tally), "ok "@, tally.ok as nat),
        follows(tally_line(tally), " · info "@, tally.info as nat),
        follows(tally_line(tally), " · warning "@, tally.warnings as nat),
        follows(tally_line(tally), " · error "@, tally.error as nat),
{
    broadcast use group_numbers_in_lines;

    tally_words();
    assert(Seq::<char>::empty() + "ok "@ =~= "ok "@);
}

/// Whether two lines are the same but for one number behind a word.
pub open spec fn differ_behind(
    left: Seq<char>,
    right: Seq<char>,
    word: Seq<char>,
    one: nat,
    other: nat,
) -> bool {
    exists|before: Seq<char>, first: Seq<char>, second: Seq<char>, after: Seq<char>|
        #![trigger before + word + first + after, before + word + second + after]
        left == before + word + first + after && right == before + word + second + after
            && spelled(first) == Some(one) && spelled(second) == Some(other)
}

/// Tallies that differ in one count differ in the number behind the name of that
/// count, and nowhere else.
pub proof fn tallies_differ_where_their_counts_do(tally: Tally, other: usize)
    ensures
        differ_behind(
            tally_line(tally),
            tally_line(Tally { ok: other, ..tally }),
            "ok "@,
            tally.ok as nat,
            other as nat,
        ),
        differ_behind(
            tally_line(tally),
            tally_line(Tally { info: other, ..tally }),
            " · info "@,
            tally.info as nat,
            other as nat,
        ),
        differ_behind(
            tally_line(tally),
            tally_line(Tally { warnings: other, ..tally }),
            " · warning "@,
            tally.warnings as nat,
            other as nat,
        ),
        differ_behind(
            tally_line(tally),
            tally_line(Tally { error: other, ..tally }),
            " · error "@,
            tally.error as nat,
            other as nat,
        ),
{
    broadcast use decimals_are_spelled;

    let numbers = (
        decimal(tally.ok as nat),
        decimal(tally.info as nat),
        decimal(tally.warnings as nat),
        decimal(tally.error as nat),
    );
    let changed = decimal(other as nat);
    let nothing = Seq::<char>::empty();
    let line = tally_line(tally);
    assert({
        let after = " · info "@ + numbers.1 + " · warning "@ + numbers.2 + " · error "@ + numbers.3;
        &&& line =~= nothing + "ok "@ + numbers.0 + after
        &&& tally_line(Tally { ok: other, ..tally }) =~= nothing + "ok "@ + changed + after
    });
    assert({
        let before = "ok "@ + numbers.0;
        let after = " · warning "@ + numbers.2 + " · error "@ + numbers.3;
        &&& line =~= before + " · info "@ + numbers.1 + after
        &&& tally_line(Tally { info: other, ..tally }) =~= before + " · info "@ + changed + after
    });
    assert({
        let before = "ok "@ + numbers.0 + " · info "@ + numbers.1;
        let after = " · error "@ + numbers.3;
        &&& line =~= before + " · warning "@ + numbers.2 + after
        &&& tally_line(Tally { warnings: other, ..tally }) =~= before + " · warning "@ + changed
            + after
    });
    assert({
        let before = "ok "@ + numbers.0 + " · info "@ + numbers.1 + " · warning "@ + numbers.2;
        &&& line =~= before + " · error "@ + numbers.3 + nothing
        &&& tally_line(Tally { error: other, ..tally }) =~= before + " · error "@ + changed
            + nothing
    });
}

// ------------------------------------------------------------------- sections --

/// A section that nothing was cut from opens with the linter's tally, and every
/// line on its resources and issues follows.
pub proof fn sections_say_what_was_found(budget: Budget, section: &Linted)
    requires
        !after_section(budget, section).truncated,
    ensures
        ({
            let lines = section_of(budget, section).lines;
            &&& lines.len() == 1 + section.issues.lines@.len()
            &&& follows(lines[0], "ok "@, section.tally.ok as nat)
            &&& follows(lines[0], " · info "@, section.tally.info as nat)
            &&& follows(lines[0], " · warning "@, section.tally.warnings as nat)
            &&& follows(lines[0], " · error "@, section.tally.error as nat)
            &&& forall|i: int|
                0 <= i < section.issues.lines@.len() ==> lines[i + 1]
                    == #[trigger] section.issues.lines@[i]@
        }),
{
    let tally = tally_line(section.tally);
    tallies_name_their_counts(section.tally);
    nothing_is_lost_silently(
        spent(budget, tally),
        grown(budget, Seq::empty(), tally),
        section.issues@,
    );
    crate::budget::blocks_are_paid_for(
        spent(budget, tally),
        grown(budget, Seq::empty(), tally),
        section.issues@,
    );
}

/// The title of a section names the linter, its score and what it looked at.
pub proof fn titles_name_the_linter_and_its_score(budget: Budget, section: &Linted)
    requires
        encode_utf8(section.linter@).len() <= 256,
        encode_utf8(section.gvr@).len() <= 256,
    ensures
        exists|number: Seq<char>|
            spells(number, section.tally.score as int) && section_of(budget, section).title
                == section.linter@ + " — "@ + #[trigger] (number + "%"@) + if section.gvr@.len()
                == 0 {
                Seq::<char>::empty()
            } else {
                " ("@ + section.gvr@ + ")"@
            },
{
    broadcast use signed_decimals_are_spelled;

    let number = signed_decimal(section.tally.score as int);
    let title = section_of(budget, section).title;
    let start = section.linter@ + " — "@ + (number + "%"@);
    if section.gvr@.len() == 0 {
        assert(title =~= start + Seq::<char>::empty());
    } else {
        assert(title =~= start + (" ("@ + section.gvr@ + ")"@));
    }
}

/// An issue is shown under the name of its level, with its message.
pub proof fn issues_are_shown_by_level(level: i64, message: Seq<char>)
    ensures
        level == 3 <==> begins(issue_line(level, message), "    ERROR "@),
        level == 2 <==> begins(issue_line(level, message), "    WARNING "@),
        level == 1 <==> begins(issue_line(level, message), "    INFO "@),
        !(1 <= level <= 3) <==> begins(issue_line(level, message), "    OK "@),
        level == 3 ==> issue_line(level, message) == "    ERROR "@ + message,
        level == 2 ==> issue_line(level, message) == "    WARNING "@ + message,
        level == 1 ==> issue_line(level, message) == "    INFO "@ + message,
        !(1 <= level <= 3) ==> issue_line(level, message) == "    OK "@ + message,
        resource_line(message) == "  "@ + message,
{
    reveal_strlit("    ");
    reveal_strlit(" ");
    reveal_strlit("ERROR");
    reveal_strlit("WARNING");
    reveal_strlit("INFO");
    reveal_strlit("OK");
    reveal_strlit("    ERROR ");
    reveal_strlit("    WARNING ");
    reveal_strlit("    INFO ");
    reveal_strlit("    OK ");
    let line = issue_line(level, message);
    let word = if level == 3 {
        "    ERROR "@
    } else if level == 2 {
        "    WARNING "@
    } else if level == 1 {
        "    INFO "@
    } else {
        "    OK "@
    };
    assert(line =~= word + message);
    assert(line.take(word.len() as int) =~= word);
    assert(line[4] == word[4] && line[5] == word[5]);
    assert(begins(line, "    ERROR "@) ==> line.take(10)[4] == 'E');
    assert(begins(line, "    WARNING "@) ==> line.take(12)[4] == 'W');
    assert(begins(line, "    INFO "@) ==> line.take(9)[4] == 'I');
    assert(begins(line, "    OK "@) ==> line.take(7)[4] == 'O');
}

// -------------------------------------------------------------------- reports --

proof fn summary_names()
    ensures
        "Score"@.len() == 5,
        "Context"@.len() == 7 && "Context"@[1] == 'o',
        "Cluster"@.len() == 7 && "Cluster"@[1] == 'l',
        "Namespace"@.len() == 9,
        "Scanned"@.len() == 7 && "Scanned"@[1] == 'c',
        "Linters"@.len() == 7 && "Linters"@[1] == 'i',
{
    reveal_strlit("Score");
    reveal_strlit("Context");
    reveal_strlit("Cluster");
    reveal_strlit("Namespace");
    reveal_strlit("Scanned");
    reveal_strlit("Linters");
}

/// The summary tells of each thing under the name of that thing. The context that
/// Popeye names counts before the one that was asked for.
pub proof fn summaries_tell_of_the_scan(
    envelope: &Envelope,
    requested_context: Seq<char>,
    requested_namespace: Seq<char>,
)
    requires
        encode_utf8(envelope.popeye.grade@).len() <= 256,
        encode_utf8(envelope.popeye.report_time@).len() <= 256,
        encode_utf8(envelope.cluster_name@).len() <= 256,
        encode_utf8(envelope.context_name@).len() <= 256,
        encode_utf8(requested_context).len() <= 256,
        encode_utf8(requested_namespace).len() <= 256,
    ensures
        ({
            let report = rendered_of(
                envelope.popeye@,
                envelope.cluster_name@,
                envelope.context_name@,
                requested_context,
                requested_namespace,
            );
            &&& exists|number: Seq<char>|
                spells(number, envelope.popeye.score as int) && told(report, "Score"@) == Some(
                    #[trigger] (number + "% ("@) + envelope.popeye.grade@ + ")"@,
                )
            &&& envelope.context_name@.len() > 0 ==> told(report, "Context"@) == Some(
                envelope.context_name@,
            )
            &&& envelope.context_name@.len() == 0 && requested_context.len() > 0 ==> told(
                report,
                "Context"@,
            ) == Some(requested_context)
            &&& envelope.cluster_name@.len() > 0 ==> told(report, "Cluster"@) == Some(
                envelope.cluster_name@,
            )
            &&& requested_namespace.len() == 0 ==> told(report, "Namespace"@) == Some("all"@)
            &&& requested_namespace.len() > 0 ==> told(report, "Namespace"@) == Some(
                requested_namespace,
            )
            &&& envelope.popeye.report_time@.len() > 0 ==> told(report, "Scanned"@) == Some(
                envelope.popeye.report_time@,
            )
            &&& report.title == "Popeye scan"@
            &&& counted(report, "Linters"@) == Some(envelope.popeye.linters as nat)
        }),
{
    broadcast use {group_cells, decimals_are_spelled, signed_decimals_are_spelled};

    summary_names();
    assert(spelled(decimal(envelope.popeye.linters as nat)) is Some);
    assert(spells(
        signed_decimal(envelope.popeye.score as int),
        envelope.popeye.score as int,
    ));
}

proof fn letters_fill_a_limit(text: Seq<char>, limit: nat)
    ensures
        letters_within(text, limit) <= text.len(),
        encode_utf8(text.take(letters_within(text, limit) as int)).len() <= limit,
        letters_within(text, limit) < text.len() ==> encode_utf8(
            text.take(letters_within(text, limit) as int + 1),
        ).len() > limit,
    decreases text.len(),
{
    let kept = letters_within(text, limit);
    if text.len() > 0 {
        let first = encode_scalar(text[0] as u32);
        let rest = text.drop_first();
        if first.len() > limit {
            let one = text.take(1);
            assert(one.drop_first() =~= Seq::<char>::empty());
            assert(encode_utf8(one).len() == first.len() + encode_utf8(one.drop_first()).len());
            assert(text.take(0) =~= Seq::<char>::empty());
        } else {
            let left = (limit - first.len()) as nat;
            letters_fill_a_limit(rest, left);
            assert(text.take(kept as int).drop_first() =~= rest.take(kept - 1));
            if kept < text.len() {
                assert(text.take(kept as int + 1).drop_first() =~= rest.take(kept as int));
            }
        }
    } else {
        assert(text.take(0) =~= Seq::<char>::empty());
    }
}

/// A value of up to 256 bytes is shown as it is. Of a longer one as much is shown
/// as goes into 256 bytes, with an ellipsis behind it.
pub proof fn long_values_are_cut(value: Seq<char>)
    ensures
        encode_utf8(value).len() <= 256 ==> shortened(value) == value,
        encode_utf8(value).len() > 256 ==> exists|kept: int|
            0 <= kept < value.len() && shortened(value) == #[trigger] value.take(kept) + "…"@
                && encode_utf8(value.take(kept)).len() <= 256 && encode_utf8(
                value.take(kept + 1),
            ).len() > 256,
{
    if encode_utf8(value).len() > 256 {
        letters_fill_a_limit(value, 256);
        let kept = letters_within(value, 256) as int;
        assert(value.take(value.len() as int) =~= value);
        assert(shortened(value) == value.take(kept) + "…"@);
    }
}

/// A scan is one exactly where a score was read, and has what was read.
pub proof fn scans_have_what_was_read(reader: ReaderView)
    ensures
        finished(reader) is Some <==> reader.score is Some,
        finished(reader) matches Some(scan) ==> {
            &&& Some(scan.score) == reader.score
            &&& reader.report_time is Some ==> Some(scan.report_time) == reader.report_time
            &&& reader.report_time is None ==> scan.report_time.len() == 0
            &&& reader.grade is Some ==> Some(scan.grade) == reader.grade
            &&& reader.grade is None ==> scan.grade.len() == 0
            &&& scan.linters == reader.linters
            &&& scan.sections == reader.sections
            &&& scan.errors == reader.errors
            &&& scan.truncated == reader.budget.truncated
        },
{
}

/// Whether a report has the first sections of a scan, its errors where they are
/// explained, and a notice exactly where something is missing.
pub open spec fn is_whole_or_says_so(
    report: ReportView,
    scan: Scan,
    kept: int,
    explained: bool,
    namespace: Seq<char>,
) -> bool {
    let cut = scan.truncated || kept < scan.sections@.len() || (scan.errors@.len() > 0
        && !explained);
    &&& 0 <= kept <= scan.sections@.len()
    &&& explained ==> scan.errors@.len() > 0
    &&& report.sections.len() == 1 + kept + (if explained {
        1int
    } else {
        0int
    }) + (if cut {
        1int
    } else {
        0int
    })
    &&& forall|i: int|
        0 <= i < kept ==> report.sections[i + 1].title == (
        #[trigger] scan.sections@[i]).title@ && lines_in(report.sections[i + 1]) == views(
            scan.sections@[i].lines@,
        )
    &&& explained ==> report.sections[kept + 1].title == "Report errors"@ && lines_in(
        report.sections[kept + 1],
    ) == views(scan.errors@)
    &&& cut ==> report.sections.last().title == "Notice"@ && lines_in(report.sections.last())
        == seq![
        if namespace.len() == 0 {
            "… report truncated; scan one namespace at a time to see the rest"@
        } else {
            "… report truncated; inspect the full Popeye JSON output to see the rest"@
        },
    ]
}

/// A report gives the sections of the linters in their order and then the errors.
/// Whatever is missing of them is announced, and nothing is announced otherwise.
pub proof fn nothing_is_missing_silently(
    envelope: &Envelope,
    requested_context: Seq<char>,
    requested_namespace: Seq<char>,
)
    ensures
        exists|kept: int, explained: bool| #[trigger]
            is_whole_or_says_so(
                rendered_of(
                    envelope.popeye@,
                    envelope.cluster_name@,
                    envelope.context_name@,
                    requested_context,
                    requested_namespace,
                ),
                envelope.popeye,
                kept,
                explained,
                requested_namespace,
            ),
{
    let scan = envelope.popeye;
    let report = rendered_of(
        scan@,
        envelope.cluster_name@,
        envelope.context_name@,
        requested_context,
        requested_namespace,
    );
    let rows = summary_rows(
        scan@,
        envelope.cluster_name@,
        context_of(envelope.context_name@, requested_context),
        requested_namespace,
    );
    let notice = notice_of(requested_namespace);
    let sections = linter_sections(scan@.sections);
    let framing = framing_len(rows, notice);
    let errors = error_section(scan@.errors);
    let explained = match errors {
        Some(section) => fits(framing, section),
        None => false,
    };
    let reserved = if explained {
        framing + section_len(errors->0) + 1
    } else {
        framing
    };
    let kept = kept_count(reserved, sections) as int;
    no_more_are_kept_than_there_are(reserved, sections);
    assert(sections.len() == scan.sections@.len());
    assert forall|i: int| 0 <= i < kept implies report.sections[i + 1].title == (
    #[trigger] scan.sections@[i]).title@ && lines_in(report.sections[i + 1]) == views(
        scan.sections@[i].lines@,
    ) by {
        assert(scan@.sections[i] == scan.sections@[i]@);
        assert(report.sections[i + 1] == sections[i]);
    }
    assert(views(scan.errors@).len() == scan.errors@.len());
    assert(is_whole_or_says_so(report, scan, kept, explained, requested_namespace));
}

proof fn no_more_are_kept_than_there_are(reserved: nat, sections: Seq<SectionView>)
    ensures
        kept_count(reserved, sections) <= sections.len(),
    decreases sections.len(),
{
    if sections.len() > 0 && fits(reserved, sections[0]) {
        no_more_are_kept_than_there_are(
            reserved + section_len(sections[0]) + 1,
            sections.drop_first(),
        );
    }
}

/// What sections take up in a document, each with the comma behind it.
pub open spec fn room_for(sections: Seq<SectionView>) -> nat
    decreases sections.len(),
{
    if sections.len() == 0 {
        0
    } else {
        section_len(sections[0]) + 1 + room_for(sections.drop_first())
    }
}

/// Sections are kept as long as there is room for them in 1 MiB and dropped only
/// for want of it.
pub proof fn sections_are_dropped_for_want_of_room(reserved: nat, sections: Seq<SectionView>)
    requires
        reserved <= 1048576,
    ensures
        ({
            let kept = kept_count(reserved, sections) as int;
            &&& kept <= sections.len()
            &&& reserved + room_for(sections.take(kept)) <= 1048576
            &&& kept < sections.len() ==> reserved + room_for(sections.take(kept + 1)) > 1048576
        }),
    decreases sections.len(),
{
    let kept = kept_count(reserved, sections) as int;
    if sections.len() > 0 {
        let first = section_len(sections[0]) + 1;
        let rest = sections.drop_first();
        let one = sections.take(1);
        assert(one[0] == sections[0]);
        assert(one.drop_first() =~= Seq::<SectionView>::empty());
        assert(room_for(one.drop_first()) == 0);
        if fits(reserved, sections[0]) {
            sections_are_dropped_for_want_of_room(reserved + first, rest);
            assert(sections.take(kept).drop_first() =~= rest.take(kept - 1));
            if kept < sections.len() {
                assert(sections.take(kept + 1).drop_first() =~= rest.take(kept));
            }
        }
    }
}

// ----------------------------------------------------------------------- runs --

/// A scan is of the context and the namespace that were asked for, and of every
/// namespace where none was.
pub proof fn scans_are_of_what_was_asked_for(context: Seq<char>, namespace: Seq<char>)
    ensures
        ({
            let arguments = arguments_of(context, namespace);
            &&& given(arguments, "--out"@, "json"@)
            &&& given(arguments, "--log-level"@, "0"@)
            &&& given(arguments, "--logs"@, "none"@)
            &&& arguments.contains("--force-exit-zero"@)
            &&& arguments.len() == 7 + (if context.len() > 0 {
                2int
            } else {
                0int
            }) + (if namespace.len() > 0 {
                2int
            } else {
                1int
            })
            &&& context.len() > 0 ==> given(arguments, "--context"@, context)
            &&& namespace.len() > 0 ==> given(arguments, "--namespace"@, namespace)
            &&& namespace.len() == 0 ==> arguments.contains("--all-namespaces"@)
        }),
{
    let arguments = arguments_of(context, namespace);
    giving(arguments, 0);
    giving(arguments, 3);
    giving(arguments, 5);
    assert(arguments[2] == "--force-exit-zero"@);
    if context.len() > 0 {
        giving(arguments, 7);
    }
    if namespace.len() > 0 {
        giving(arguments, arguments.len() - 2);
    } else {
        assert(arguments.last() == "--all-namespaces"@);
        assert(arguments[arguments.len() - 1] == "--all-namespaces"@);
    }
}

/// A saved report is read where one is named, and only then. A new scan is of the
/// context and the namespace that were asked for.
pub proof fn saved_reports_come_before_scans(
    saved: Seq<char>,
    context: Seq<char>,
    namespace: Seq<char>,
)
    ensures
        saved.len() > 0 <==> source_of(saved, context, namespace) is ReadReport,
        source_of(saved, context, namespace) matches HostRequestView::ReadReport { path } ==> path
            == saved,
        source_of(saved, context, namespace) matches HostRequestView::RunPopeye {
            context: scanned,
            namespace: within,
        } ==> scanned == context && within == namespace,
{
}

/// Only a run that succeeded, printed no more than was allowed and did not say
/// that it failed has an output, and that is what it printed. What is said of any
/// other run tells how it ended.
pub proof fn only_whole_runs_have_an_output(
    success: bool,
    status: Seq<char>,
    output: Seq<u8>,
    exceeded: bool,
    errors: Seq<u8>,
)
    ensures
        ({
            let result = output_of(success, status, output, exceeded, errors);
            &&& result is Ok <==> success && !exceeded && diagnosis_of(output) is None
            &&& result matches Ok(document) ==> document == output
            &&& exceeded ==> result == Err::<Seq<u8>, Seq<char>>("Popeye output exceeds 32 MiB"@)
            &&& !exceeded && !success ==> (result matches Err(message) && begins(
                message,
                "Popeye exited with "@ + status + ": "@,
            ))
            &&& !exceeded && !success && diagnosis_of(output) is None && first_line_of(
                errors,
            ) is Some ==> result == Err::<Seq<u8>, Seq<char>>(
                "Popeye exited with "@ + status + ": "@ + first_line_of(errors)->0,
            )
            &&& !exceeded && success && diagnosis_of(output) is Some ==> result == Err::<
                Seq<u8>,
                Seq<char>,
            >("Popeye failed: "@ + diagnosis_of(output)->0)
        }),
{
    let start = "Popeye exited with "@ + status + ": "@;
    if !exceeded && !success {
        let message = output_of(success, status, output, exceeded, errors)->Err_0;
        assert(message.take(start.len() as int) =~= start);
    }
}

/// What is said of a scan that failed is what Popeye said of it, before what went
/// wrong in reading it.
pub proof fn popeye_explains_itself_first(
    parse_error: Seq<char>,
    status: Seq<char>,
    stdout: Seq<u8>,
    stderr: Seq<u8>,
)
    ensures
        ({
            let read = scan_error_of(Some(parse_error), status, stdout, stderr);
            let ended = scan_error_of(None, status, stdout, stderr);
            &&& diagnosis_of(stdout) matches Some(detail) ==> read == "Popeye failed: "@ + detail
            &&& diagnosis_of(stdout) is None && first_line_of(stdout) is Some ==> read
                == parse_error
            &&& diagnosis_of(stdout) is None && first_line_of(stdout) is None ==> read == match
                first_line_of(stderr) {
                Some(detail) => "Popeye failed: "@ + detail,
                None => parse_error,
            }
            &&& first_line_of(stderr) matches Some(detail) ==> ended == "Popeye exited with "@
                + status + ": "@ + detail
        }),
{
}

/// A file within its limit is passed on as it was read. What is said of a larger
/// one gives the limit in MiB.
pub proof fn files_are_passed_on_whole(contents: Seq<u8>, exceeded: bool, limit: nat)
    ensures
        !exceeded ==> file_of(contents, exceeded, limit) == Ok::<Seq<u8>, Seq<char>>(contents),
        exceeded ==> (file_of(contents, exceeded, limit) matches Err(message) && exists|
            number: Seq<char>,
        |
            #![trigger spelled(number)]
            spelled(number) == Some(limit / 1048576) && message == "file exceeds "@ + number
                + " MiB"@),
{
    broadcast use decimals_are_spelled;

    let mebibytes = limit / 1024 / 1024;
    vstd::arithmetic::div_mod::lemma_div_denominator(limit as int, 1024, 1024);
    assert(spelled(decimal(mebibytes)) == Some(mebibytes));
}

/// A run that failed without a word is said to have printed no error.
pub proof fn silence_is_said(status: Seq<char>, output: Seq<u8>, errors: Seq<u8>)
    requires
        diagnosis_of(output) is None,
        first_line_of(errors) is None,
    ensures
        output_of(false, status, output, false, errors) == Err::<Seq<u8>, Seq<char>>(
            "Popeye exited with "@ + status + ": "@ + "no error output"@,
        ),
        scan_error_of(None, status, output, errors) == "Popeye exited with "@ + status + ": "@
            + "no error output"@,
{
}

} // verus!
