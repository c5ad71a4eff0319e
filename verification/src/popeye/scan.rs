//! A Popeye scan, taken in piece by piece under an allowance of lines and bytes.
use crate::budget::{
    after_block, blocks_are_paid_for, bytes_in, full_budget, grown, lines_are_paid_for, spent,
    with_block, Block, BlockView, Budget, REPORT_MAX_BYTES, REPORT_MAX_LINES,
};
use crate::numbers::{decimal, number_text, signed_decimal, size_text};
use crate::popeye::render::{field, shortened};
use crate::text::{glue2, glue4, group_views, text_view, views};
use vstd::prelude::*;

verus! {

// ------------------------------------------------------------------- models --

/// How many resources a linter put in which class, and its score.
pub struct Tally {
    pub ok: usize,
    pub info: usize,
    pub warnings: usize,
    pub error: usize,
    pub score: i64,
}

/// Something that a linter found.
pub struct Issue {
    pub level: i64,
    pub message: String,
}

/// What a linter reported.
pub struct Linted {
    pub linter: String,
    pub gvr: String,
    pub tally: Tally,
    pub issues: Block,
}

/// A section of the report, already rendered.
#[verifier::ext_equal]
pub struct RenderedView {
    pub title: Seq<char>,
    pub lines: Seq<Seq<char>>,
}

/// A section of the report, already rendered.
#[derive(Debug, PartialEq, Eq)]
pub struct Rendered {
    pub title: String,
    pub lines: Vec<String>,
}

impl Rendered {
    pub open spec fn view(&self) -> RenderedView {
        RenderedView { title: self.title@, lines: views(self.lines@) }
    }
}

pub open spec fn rendered_views(sections: Seq<Rendered>) -> Seq<RenderedView> {
    sections.map_values(|section: Rendered| section@)
}

/// A scan that was read to its end.
#[verifier::ext_equal]
pub struct ScanView {
    pub report_time: Seq<char>,
    pub score: i64,
    pub grade: Seq<char>,
    pub linters: usize,
    pub sections: Seq<RenderedView>,
    pub errors: Seq<Seq<char>>,
    pub truncated: bool,
}

/// A scan that was read to its end.
pub struct Scan {
    pub report_time: String,
    pub score: i64,
    pub grade: String,
    pub linters: usize,
    pub sections: Vec<Rendered>,
    pub errors: Vec<String>,
    pub truncated: bool,
}

impl Scan {
    pub open spec fn view(&self) -> ScanView {
        ScanView {
            report_time: self.report_time@,
            score: self.score,
            grade: self.grade@,
            linters: self.linters,
            sections: rendered_views(self.sections@),
            errors: views(self.errors@),
            truncated: self.truncated,
        }
    }
}

/// A scan and the cluster that it is of.
pub struct Envelope {
    pub popeye: Scan,
    pub cluster_name: String,
    pub context_name: String,
}

// ------------------------------------------------------------------- issues --

/// The name of a level.
pub open spec fn level_name(level: i64) -> Seq<char> {
    if level == 3 {
        "ERROR"@
    } else if level == 2 {
        "WARNING"@
    } else if level == 1 {
        "INFO"@
    } else {
        "OK"@
    }
}

/// The line of an issue.
pub open spec fn issue_line(level: i64, message: Seq<char>) -> Seq<char> {
    "    "@ + level_name(level) + " "@ + message
}

/// The line of a resource.
pub open spec fn resource_line(resource: Seq<char>) -> Seq<char> {
    "  "@ + resource
}

/// The issues of a linter while they are read.
pub struct IssuesReader {
    pub budget: Budget,
    pub lines: Vec<String>,
}

impl IssuesReader {
    /// Before anything was read.
    pub fn new() -> (reader: IssuesReader)
        ensures
            reader.budget == full_budget(),
            views(reader.lines@) == Seq::<Seq<char>>::empty(),
    {
        broadcast use group_views;

        IssuesReader { budget: Budget::new(), lines: Vec::new() }
    }

    /// Whether another resource or issue can still be taken in.
    pub fn accepting(&self) -> (yes: bool)
        ensures
            yes == (!self.budget.truncated && self.budget.lines > 0),
    {
        self.budget.accepting()
    }

    /// Takes in the resource that the next issues are of.
    pub fn resource(&mut self, name: &str)
        ensures
            final(self).budget == spent(old(self).budget, resource_line(name@)),
            views(final(self).lines@) == grown(
                old(self).budget,
                views(old(self).lines@),
                resource_line(name@),
            ),
    {
        let _ = self.budget.push(&mut self.lines, glue2("  ", name));
    }

    /// Takes in an issue.
    pub fn issue(&mut self, issue: &Issue)
        ensures
            final(self).budget == spent(
                old(self).budget,
                issue_line(issue.level, issue.message@),
            ),
            views(final(self).lines@) == grown(
                old(self).budget,
                views(old(self).lines@),
                issue_line(issue.level, issue.message@),
            ),
    {
        let level = if issue.level == 3 {
            "ERROR"
        } else if issue.level == 2 {
            "WARNING"
        } else if issue.level == 1 {
            "INFO"
        } else {
            "OK"
        };
        let line = glue4("    ", level, " ", issue.message.as_str());
        let _ = self.budget.push(&mut self.lines, line);
    }

    /// Notes that there was more than could be taken in.
    pub fn skip(&mut self)
        ensures
            final(self).budget == (Budget { truncated: true, ..old(self).budget }),
            final(self).lines@ == old(self).lines@,
    {
        self.budget.truncated = true;
    }

    /// The issues that were taken in, and whether some are missing.
    pub fn finish(self) -> (block: Block)
        ensures
            block@ == (BlockView {
                lines: views(self.lines@),
                truncated: self.budget.truncated,
            }),
    {
        Block { lines: self.lines, truncated: self.budget.truncated }
    }
}

// ----------------------------------------------------------------- sections --

/// The title of a linter's section.
pub open spec fn title_of(linter: Seq<char>, score: i64, gvr: Seq<char>) -> Seq<char> {
    let title = shortened(linter) + " — "@ + signed_decimal(score as int) + "%"@;
    if gvr.len() == 0 {
        title
    } else {
        title + " ("@ + shortened(gvr) + ")"@
    }
}

/// The line of a linter's tally.
pub open spec fn tally_line(tally: Tally) -> Seq<char> {
    "ok "@ + decimal(tally.ok as nat) + " · info "@ + decimal(tally.info as nat) + " · warning "@
        + decimal(tally.warnings as nat) + " · error "@ + decimal(tally.error as nat)
}

/// What is left after a linter's section was rendered.
pub open spec fn after_section(budget: Budget, section: &Linted) -> Budget {
    after_block(spent(budget, tally_line(section.tally)), section.issues@)
}

/// A linter's section under what is left of the allowance.
pub open spec fn section_of(budget: Budget, section: &Linted) -> RenderedView {
    let tally = tally_line(section.tally);
    RenderedView {
        title: title_of(section.linter@, section.tally.score, section.gvr@),
        lines: with_block(
            spent(budget, tally),
            grown(budget, Seq::empty(), tally),
            section.issues@,
        ),
    }
}

/// Renders a linter's section: its tally first, then its issues as far as the
/// allowance goes.
pub fn render_section(budget: &mut Budget, section: Linted) -> (rendered: Rendered)
    ensures
        *final(budget) == after_section(*old(budget), &section),
        rendered@ == section_of(*old(budget), &section),
{
    broadcast use group_views;

    let mut title = field(section.linter.as_str());
    title.append(" — ");
    title.append(number_text(section.tally.score).as_str());
    title.append("%");
    if !section.gvr.as_str().is_empty() {
        title.append(" (");
        title.append(field(section.gvr.as_str()).as_str());
        title.append(")");
    }
    let mut tally = glue2("ok ", size_text(section.tally.ok).as_str());
    tally.append(" · info ");
    tally.append(size_text(section.tally.info).as_str());
    tally.append(" · warning ");
    tally.append(size_text(section.tally.warnings).as_str());
    tally.append(" · error ");
    tally.append(size_text(section.tally.error).as_str());
    let mut lines: Vec<String> = Vec::new();
    let _ = budget.push(&mut lines, tally);
    budget.absorb(&mut lines, section.issues);
    Rendered { title, lines }
}

// ------------------------------------------------------------------- reading --

/// A scan while it is read.
#[verifier::ext_equal]
pub struct ReaderView {
    pub report_time: Option<Seq<char>>,
    pub score: Option<i64>,
    pub grade: Option<Seq<char>>,
    pub budget: Budget,
    pub linters: usize,
    pub sections: Seq<RenderedView>,
    pub errors: Seq<Seq<char>>,
}

/// A scan while it is read.
pub struct ScanReader {
    pub report_time: Option<String>,
    pub score: Option<i64>,
    pub grade: Option<String>,
    pub budget: Budget,
    pub linters: usize,
    pub sections: Vec<Rendered>,
    pub errors: Vec<String>,
}

/// A text, or an empty one.
pub open spec fn or_nothing(text: Option<Seq<char>>) -> Seq<char> {
    match text {
        Some(text) => text,
        None => Seq::empty(),
    }
}

/// The scan of a reader that came to its end. A scan without a score is none.
pub open spec fn finished(reader: ReaderView) -> Option<ScanView> {
    match reader.score {
        Some(score) => Some(
            ScanView {
                report_time: or_nothing(reader.report_time),
                score,
                grade: or_nothing(reader.grade),
                linters: reader.linters,
                sections: reader.sections,
                errors: reader.errors,
                truncated: reader.budget.truncated,
            },
        ),
        None => None,
    }
}

impl ScanReader {
    pub open spec fn view(&self) -> ReaderView {
        ReaderView {
            report_time: text_view(self.report_time),
            score: self.score,
            grade: text_view(self.grade),
            budget: self.budget,
            linters: self.linters,
            sections: rendered_views(self.sections@),
            errors: views(self.errors@),
        }
    }

    /// Before anything was read.
    pub fn new() -> (reader: ScanReader)
        ensures
            reader@ == (ReaderView {
                report_time: None,
                score: None,
                grade: None,
                budget: full_budget(),
                linters: 0,
                sections: Seq::empty(),
                errors: Seq::empty(),
            }),
    {
        broadcast use group_views;

        let reader = ScanReader {
            report_time: None,
            score: None,
            grade: None,
            budget: Budget::new(),
            linters: 0,
            sections: Vec::new(),
            errors: Vec::new(),
        };
        assert(rendered_views(reader.sections@) =~= Seq::<RenderedView>::empty());
        reader
    }

    /// Whether another section or error can still be taken in.
    pub fn accepting(&self) -> (yes: bool)
        ensures
            yes == (!self@.budget.truncated && self@.budget.lines > 0),
    {
        self.budget.accepting()
    }

    /// Takes in the time of the scan.
    pub fn time(&mut self, time: String)
        ensures
            final(self)@ == (ReaderView { report_time: Some(time@), ..old(self)@ }),
    {
        self.report_time = Some(time);
    }

    /// Takes in the score.
    pub fn score(&mut self, score: i64)
        ensures
            final(self)@ == (ReaderView { score: Some(score), ..old(self)@ }),
    {
        self.score = Some(score);
    }

    /// Takes in the grade.
    pub fn grade(&mut self, grade: String)
        ensures
            final(self)@ == (ReaderView { grade: Some(grade@), ..old(self)@ }),
    {
        self.grade = Some(grade);
    }

    /// Takes in what a linter reported.
    pub fn section(&mut self, section: Linted)
        requires
            old(self)@.linters < usize::MAX,
        ensures
            final(self)@ == (ReaderView {
                budget: after_section(old(self)@.budget, &section),
                linters: (old(self)@.linters + 1) as usize,
                sections: old(self)@.sections.push(section_of(old(self)@.budget, &section)),
                ..old(self)@
            }),
    {
        self.linters = self.linters + 1;
        let ghost before = self.sections@;
        let rendered = render_section(&mut self.budget, section);
        self.sections.push(rendered);
        assert(rendered_views(self.sections@) =~= rendered_views(before).push(rendered@));
    }

    /// Counts a linter whose report can no longer be taken in.
    pub fn skip_section(&mut self)
        requires
            old(self)@.linters < usize::MAX,
        ensures
            final(self)@ == (ReaderView {
                budget: Budget { truncated: true, ..old(self)@.budget },
                linters: (old(self)@.linters + 1) as usize,
                ..old(self)@
            }),
    {
        self.linters = self.linters + 1;
        self.budget.truncated = true;
    }

    /// Takes in an error of the scan itself.
    pub fn error(&mut self, message: String)
        ensures
            final(self)@ == (ReaderView {
                budget: spent(old(self)@.budget, message@),
                errors: grown(old(self)@.budget, old(self)@.errors, message@),
                ..old(self)@
            }),
    {
        let _ = self.budget.push(&mut self.errors, message);
    }

    /// Notes an error that can no longer be taken in.
    pub fn skip_error(&mut self)
        ensures
            final(self)@ == (ReaderView {
                budget: Budget { truncated: true, ..old(self)@.budget },
                ..old(self)@
            }),
    {
        self.budget.truncated = true;
    }

    /// The scan, or nothing where it had no score.
    pub fn finish(self) -> (scan: Option<Scan>)
        ensures
            match scan {
                Some(scan) => finished(self@) == Some(scan@),
                None => finished(self@) is None,
            },
    {
        let score = match self.score {
            Some(score) => score,
            None => {
                return None;
            },
        };
        Some(
            Scan {
                report_time: match self.report_time {
                    Some(time) => time,
                    None => String::new(),
                },
                score,
                grade: match self.grade {
                    Some(grade) => grade,
                    None => String::new(),
                },
                linters: self.linters,
                sections: self.sections,
                errors: self.errors,
                truncated: self.budget.truncated,
            },
        )
    }
}

// ---------------------------------------------------------------------- laws --

/// The lines of all sections.
pub open spec fn lines_in(sections: Seq<RenderedView>) -> nat
    decreases sections.len(),
{
    if sections.len() == 0 {
        0
    } else {
        lines_in(sections.drop_last()) + sections.last().lines.len()
    }
}

/// The bytes of all sections.
pub open spec fn section_bytes_in(sections: Seq<RenderedView>) -> nat
    decreases sections.len(),
{
    if sections.len() == 0 {
        0
    } else {
        section_bytes_in(sections.drop_last()) + bytes_in(sections.last().lines)
    }
}

/// Whether what a reader holds is what its allowance paid for. Its sections and
/// errors together then have no more lines and bytes than the allowance had.
pub open spec fn paid(reader: ReaderView) -> bool {
    &&& reader.budget.lines + lines_in(reader.sections) + reader.errors.len() == REPORT_MAX_LINES
    &&& reader.budget.bytes + section_bytes_in(reader.sections) + bytes_in(reader.errors)
        == REPORT_MAX_BYTES
}

/// A reader starts within its allowance.
pub proof fn readers_start_paid(reader: ReaderView)
    requires
        reader.budget == full_budget(),
        reader.sections == Seq::<RenderedView>::empty(),
        reader.errors == Seq::<Seq<char>>::empty(),
    ensures
        paid(reader),
{
}

/// Every section a reader takes in stays within its allowance.
pub proof fn sections_are_paid_for(reader: ReaderView, section: &Linted)
    requires
        paid(reader),
    ensures
        paid(
            ReaderView {
                budget: after_section(reader.budget, section),
                sections: reader.sections.push(section_of(reader.budget, section)),
                ..reader
            },
        ),
{
    let tally = tally_line(section.tally);
    let rendered = section_of(reader.budget, section);
    lines_are_paid_for(reader.budget, Seq::empty(), tally);
    blocks_are_paid_for(
        spent(reader.budget, tally),
        grown(reader.budget, Seq::empty(), tally),
        section.issues@,
    );
    assert(reader.sections.push(rendered).drop_last() =~= reader.sections);
    assert(bytes_in(Seq::empty()) == 0);
}

/// Every error a reader takes in stays within its allowance.
pub proof fn errors_are_paid_for(reader: ReaderView, message: Seq<char>)
    requires
        paid(reader),
    ensures
        paid(
            ReaderView {
                budget: spent(reader.budget, message),
                errors: grown(reader.budget, reader.errors, message),
                ..reader
            },
        ),
{
    lines_are_paid_for(reader.budget, reader.errors, message);
}

/// Every resource and every issue a reader takes in stays within its allowance.
pub proof fn issues_are_paid_for(budget: Budget, lines: Seq<Seq<char>>, line: Seq<char>)
    requires
        budget.lines + lines.len() == REPORT_MAX_LINES,
        budget.bytes + bytes_in(lines) == REPORT_MAX_BYTES,
    ensures
        spent(budget, line).lines + grown(budget, lines, line).len() == REPORT_MAX_LINES,
        spent(budget, line).bytes + bytes_in(grown(budget, lines, line)) == REPORT_MAX_BYTES,
{
    lines_are_paid_for(budget, lines, line);
}

} // verus!
