//! Rendering a Trivy scan, taken in piece by piece under an allowance of lines
//! and bytes.
use crate::budget::{
    after_block, blocks_are_paid_for, bytes_in, full_budget, grown, lines_are_paid_for, spent,
    with_block, Block, BlockView, Budget, REPORT_MAX_BYTES, REPORT_MAX_LINES,
};
use crate::numbers::{decimal, size_text};
use crate::report::{
    document, group_report, lines, lines_view, put_row, report_view, row_views, section_views,
    single_line, table, table_view, Report, ReportView, RowView, Section, SectionView,
};
use crate::text::{glue2, glue4, group_views, text_view, views};
use crate::tools::{failure, failure_of};
use vstd::prelude::*;

verus! {

// ----------------------------------------------------------------- arguments --

/// The arguments of a scan. The namespace is an option, the context the only
/// argument without one.
pub open spec fn arguments_of(context: Seq<char>, namespace: Seq<char>) -> Seq<Seq<char>> {
    let fixed = seq![
        "kubernetes"@,
        "--format"@,
        "json"@,
        "--report"@,
        "summary"@,
        "--quiet"@,
        "--disable-telemetry"@,
        "--skip-version-check"@,
        "--no-progress"@,
        "--parallel"@,
        "1"@,
        "--list-all-pkgs=false"@,
        "--disable-node-collector"@,
        "--timeout"@,
        "5m"@,
    ];
    let placed = if namespace.len() == 0 {
        fixed
    } else {
        fixed.push("--include-namespaces"@).push(namespace)
    };
    if context.len() == 0 {
        placed
    } else {
        placed.push(context)
    }
}

/// The arguments of a scan.
pub fn configure(context: &str, namespace: &str) -> (arguments: Vec<String>)
    ensures
        views(arguments@) == arguments_of(context@, namespace@),
{
    broadcast use group_views;

    let mut arguments: Vec<String> = Vec::new();
    arguments.push("kubernetes".to_owned());
    arguments.push("--format".to_owned());
    arguments.push("json".to_owned());
    arguments.push("--report".to_owned());
    arguments.push("summary".to_owned());
    arguments.push("--quiet".to_owned());
    arguments.push("--disable-telemetry".to_owned());
    arguments.push("--skip-version-check".to_owned());
    arguments.push("--no-progress".to_owned());
    arguments.push("--parallel".to_owned());
    arguments.push("1".to_owned());
    arguments.push("--list-all-pkgs=false".to_owned());
    arguments.push("--disable-node-collector".to_owned());
    arguments.push("--timeout".to_owned());
    arguments.push("5m".to_owned());
    if !namespace.is_empty() {
        arguments.push("--include-namespaces".to_owned());
        arguments.push(namespace.to_owned());
    }
    if !context.is_empty() {
        arguments.push(context.to_owned());
    }
    assert(views(arguments@) =~= arguments_of(context@, namespace@));
    arguments
}

/// What to start for a scan: the Trivy that was found, and its arguments.
pub fn scan_command(found: Option<String>, context: &str, namespace: &str) -> (command: Result<
    (String, Vec<String>),
    String,
>)
    ensures
        match command {
            Ok(command) => text_view(found) == Some(command.0@) && views(command.1@)
                == arguments_of(context@, namespace@),
            Err(message) => found is None && message@
                == "trivy is not on PATH; install it from https://trivy.dev/latest/getting-started/installation/"@,
        },
{
    match found {
        Some(executable) => Ok((executable, configure(context, namespace))),
        None => Err(
            "trivy is not on PATH; install it from https://trivy.dev/latest/getting-started/installation/".to_owned(),
        ),
    }
}

/// What is said of a scan that failed.
pub fn scan_error(parse_error: Option<String>, status: &str, stderr: &[u8]) -> (message: String)
    ensures
        message@ == failure_of("Trivy"@, text_view(parse_error), status@, stderr@),
{
    failure("Trivy", parse_error, status, stderr)
}

// ------------------------------------------------------------------- severity --

/// How severe a finding is.
#[derive(Clone, Copy, Debug, PartialEq, Eq, Structural)]
pub enum Severity {
    Critical,
    High,
    Medium,
    Low,
    Unknown,
}

/// What sort of finding it is.
#[derive(Clone, Copy, Debug, PartialEq, Eq, Structural)]
pub enum Kind {
    Vulnerability,
    Misconfiguration,
    Secret,
}

/// The name of a severity.
pub open spec fn severity_name(severity: Severity) -> Seq<char> {
    match severity {
        Severity::Critical => "CRITICAL"@,
        Severity::High => "HIGH"@,
        Severity::Medium => "MEDIUM"@,
        Severity::Low => "LOW"@,
        Severity::Unknown => "UNKNOWN"@,
    }
}

impl Severity {
    /// The name of a severity.
    pub fn label(self) -> (name: &'static str)
        ensures
            name@ == severity_name(self),
    {
        match self {
            Severity::Critical => "CRITICAL",
            Severity::High => "HIGH",
            Severity::Medium => "MEDIUM",
            Severity::Low => "LOW",
            Severity::Unknown => "UNKNOWN",
        }
    }
}

/// How many findings of which sort and severity there are.
#[derive(Clone, Copy, Debug, PartialEq, Eq)]
pub struct Counts {
    pub vulnerabilities: usize,
    pub misconfigurations: usize,
    pub secrets: usize,
    pub errors: usize,
    pub critical: usize,
    pub high: usize,
    pub medium: usize,
    pub low: usize,
    pub unknown: usize,
}

/// No findings.
pub open spec fn no_counts() -> Counts {
    Counts {
        vulnerabilities: 0,
        misconfigurations: 0,
        secrets: 0,
        errors: 0,
        critical: 0,
        high: 0,
        medium: 0,
        low: 0,
        unknown: 0,
    }
}

/// How many findings there are.
pub open spec fn findings_in(counts: Counts) -> int {
    counts.vulnerabilities + counts.misconfigurations + counts.secrets
}

/// Whether no more than `limit` findings and errors are counted.
pub open spec fn bounded(counts: Counts, limit: int) -> bool {
    &&& findings_in(counts) <= limit
    &&& counts.errors <= limit
    &&& counts.critical <= limit
    &&& counts.high <= limit
    &&& counts.medium <= limit
    &&& counts.low <= limit
    &&& counts.unknown <= limit
}

/// A count one higher where it is the one that is meant.
pub open spec fn raised(count: usize, meant: bool) -> usize {
    if meant {
        (count + 1) as usize
    } else {
        count
    }
}

/// The counts once a finding is recorded.
pub open spec fn recorded(counts: Counts, kind: Kind, severity: Severity) -> Counts {
    Counts {
        vulnerabilities: raised(counts.vulnerabilities, kind is Vulnerability),
        misconfigurations: raised(counts.misconfigurations, kind is Misconfiguration),
        secrets: raised(counts.secrets, kind is Secret),
        errors: counts.errors,
        critical: raised(counts.critical, severity is Critical),
        high: raised(counts.high, severity is High),
        medium: raised(counts.medium, severity is Medium),
        low: raised(counts.low, severity is Low),
        unknown: raised(counts.unknown, severity is Unknown),
    }
}

/// Whether a finding can be recorded: the two counts that it raises have room.
pub open spec fn has_room(counts: Counts, kind: Kind, severity: Severity) -> bool {
    &&& match kind {
        Kind::Vulnerability => counts.vulnerabilities < usize::MAX,
        Kind::Misconfiguration => counts.misconfigurations < usize::MAX,
        Kind::Secret => counts.secrets < usize::MAX,
    }
    &&& match severity {
        Severity::Critical => counts.critical < usize::MAX,
        Severity::High => counts.high < usize::MAX,
        Severity::Medium => counts.medium < usize::MAX,
        Severity::Low => counts.low < usize::MAX,
        Severity::Unknown => counts.unknown < usize::MAX,
    }
}

/// Whether each count of one and that of the other fit together.
pub open spec fn fit_together(left: Counts, right: Counts) -> bool {
    &&& left.vulnerabilities + right.vulnerabilities <= usize::MAX
    &&& left.misconfigurations + right.misconfigurations <= usize::MAX
    &&& left.secrets + right.secrets <= usize::MAX
    &&& left.errors + right.errors <= usize::MAX
    &&& left.critical + right.critical <= usize::MAX
    &&& left.high + right.high <= usize::MAX
    &&& left.medium + right.medium <= usize::MAX
    &&& left.low + right.low <= usize::MAX
    &&& left.unknown + right.unknown <= usize::MAX
}

/// The counts of both together.
pub open spec fn merged(left: Counts, right: Counts) -> Counts {
    Counts {
        vulnerabilities: (left.vulnerabilities + right.vulnerabilities) as usize,
        misconfigurations: (left.misconfigurations + right.misconfigurations) as usize,
        secrets: (left.secrets + right.secrets) as usize,
        errors: (left.errors + right.errors) as usize,
        critical: (left.critical + right.critical) as usize,
        high: (left.high + right.high) as usize,
        medium: (left.medium + right.medium) as usize,
        low: (left.low + right.low) as usize,
        unknown: (left.unknown + right.unknown) as usize,
    }
}

/// The line of counts.
pub open spec fn tally_of(counts: Counts) -> Seq<char> {
    decimal(counts.vulnerabilities as nat) + " vulnerabilities · "@ + decimal(
        counts.misconfigurations as nat,
    ) + " misconfigurations · "@ + decimal(counts.secrets as nat) + " secrets · C "@ + decimal(
        counts.critical as nat,
    ) + " H "@ + decimal(counts.high as nat) + " M "@ + decimal(counts.medium as nat) + " L "@
        + decimal(counts.low as nat) + " U "@ + decimal(counts.unknown as nat)
}

impl Counts {
    /// No findings.
    pub fn new() -> (counts: Counts)
        ensures
            counts == no_counts(),
    {
        Counts {
            vulnerabilities: 0,
            misconfigurations: 0,
            secrets: 0,
            errors: 0,
            critical: 0,
            high: 0,
            medium: 0,
            low: 0,
            unknown: 0,
        }
    }

    /// Records a finding.
    pub fn record(&mut self, kind: Kind, severity: Severity)
        requires
            has_room(*old(self), kind, severity),
        ensures
            *final(self) == recorded(*old(self), kind, severity),
    {
        match kind {
            Kind::Vulnerability => {
                self.vulnerabilities = self.vulnerabilities + 1;
            },
            Kind::Misconfiguration => {
                self.misconfigurations = self.misconfigurations + 1;
            },
            Kind::Secret => {
                self.secrets = self.secrets + 1;
            },
        }
        match severity {
            Severity::Critical => {
                self.critical = self.critical + 1;
            },
            Severity::High => {
                self.high = self.high + 1;
            },
            Severity::Medium => {
                self.medium = self.medium + 1;
            },
            Severity::Low => {
                self.low = self.low + 1;
            },
            Severity::Unknown => {
                self.unknown = self.unknown + 1;
            },
        }
    }

    /// Adds other counts.
    pub fn merge(&mut self, other: Counts)
        requires
            fit_together(*old(self), other),
        ensures
            *final(self) == merged(*old(self), other),
    {
        self.vulnerabilities = self.vulnerabilities + other.vulnerabilities;
        self.misconfigurations = self.misconfigurations + other.misconfigurations;
        self.secrets = self.secrets + other.secrets;
        self.errors = self.errors + other.errors;
        self.critical = self.critical + other.critical;
        self.high = self.high + other.high;
        self.medium = self.medium + other.medium;
        self.low = self.low + other.low;
        self.unknown = self.unknown + other.unknown;
    }

    /// How many findings there are.
    pub fn findings(self) -> (count: usize)
        requires
            findings_in(self) <= usize::MAX,
        ensures
            count == findings_in(self),
    {
        self.vulnerabilities + self.misconfigurations + self.secrets
    }

    /// The line of counts.
    pub fn tally(self) -> (line: String)
        ensures
            line@ == tally_of(self),
    {
        let mut line = size_text(self.vulnerabilities);
        line.append(" vulnerabilities · ");
        line.append(size_text(self.misconfigurations).as_str());
        line.append(" misconfigurations · ");
        line.append(size_text(self.secrets).as_str());
        line.append(" secrets · C ");
        line.append(size_text(self.critical).as_str());
        line.append(" H ");
        line.append(size_text(self.high).as_str());
        line.append(" M ");
        line.append(size_text(self.medium).as_str());
        line.append(" L ");
        line.append(size_text(self.low).as_str());
        line.append(" U ");
        line.append(size_text(self.unknown).as_str());
        line
    }
}

/// Every finding counts once by its sort and once by its severity.
pub proof fn findings_count_once(counts: Counts, kind: Kind, severity: Severity)
    requires
        has_room(counts, kind, severity),
    ensures
        findings_in(recorded(counts, kind, severity)) == findings_in(counts) + 1,
        severities_in(recorded(counts, kind, severity)) == severities_in(counts) + 1,
{
}

/// Counts add up: in whatever order they are merged, to the findings of both, and
/// no findings change nothing.
pub proof fn counts_add_up(left: Counts, right: Counts)
    requires
        fit_together(left, right),
    ensures
        merged(left, right) == merged(right, left),
        findings_in(merged(left, right)) == findings_in(left) + findings_in(right),
        severities_in(merged(left, right)) == severities_in(left) + severities_in(right),
        merged(left, no_counts()) == left,
{
}

/// How many findings there are, counted by their severity.
pub open spec fn severities_in(counts: Counts) -> int {
    counts.critical + counts.high + counts.medium + counts.low + counts.unknown
}

// ---------------------------------------------------------------------- items --

/// A vulnerable package.
pub struct Vulnerability {
    pub id: String,
    pub package: String,
    pub installed: String,
    pub fixed: String,
    pub title: String,
    pub severity: Severity,
}

/// A setting that should be otherwise.
pub struct Misconfiguration {
    pub id: String,
    pub title: String,
    pub message: String,
    pub severity: Severity,
}

/// A secret where none should be.
pub struct Secret {
    pub id: String,
    pub title: String,
    pub category: String,
    pub severity: Severity,
}

/// A line that goes on with a detail, where there is one.
pub open spec fn detailed(line: Seq<char>, detail: Seq<char>) -> Seq<char> {
    if detail.len() == 0 {
        line
    } else {
        line + " — "@ + detail
    }
}

/// What there is of two texts, the first before the second.
pub open spec fn preferred(first: Seq<char>, second: Seq<char>) -> Seq<char> {
    if first.len() == 0 {
        second
    } else {
        first
    }
}

/// The line of a vulnerability.
pub open spec fn vulnerability_line(item: &Vulnerability) -> Seq<char> {
    let start = "  [vulnerability] "@ + severity_name(item.severity) + " "@ + item.id@;
    let packaged = if item.package@.len() == 0 {
        start
    } else {
        start + " · "@ + item.package@ + "@"@ + item.installed@
    };
    let fixed = if item.fixed@.len() == 0 {
        packaged
    } else {
        packaged + " → "@ + item.fixed@
    };
    detailed(fixed, item.title@)
}

/// The line of a misconfiguration.
pub open spec fn misconfiguration_line(item: &Misconfiguration) -> Seq<char> {
    detailed(
        "  [misconfiguration] "@ + severity_name(item.severity) + " "@ + item.id@,
        preferred(item.title@, item.message@),
    )
}

/// The line of a secret.
pub open spec fn secret_line(item: &Secret) -> Seq<char> {
    detailed(
        "  [secret] "@ + severity_name(item.severity) + " "@ + item.id@,
        preferred(item.title@, item.category@),
    )
}

fn add_detail(line: &mut String, detail: &str)
    ensures
        final(line)@ == detailed(old(line)@, detail@),
{
    if !detail.is_empty() {
        line.append(" — ");
        line.append(detail);
    }
}

impl Vulnerability {
    /// The line of a vulnerability.
    pub fn render(&self) -> (line: String)
        ensures
            line@ == vulnerability_line(self),
    {
        let mut line = glue4(
            "  [vulnerability] ",
            self.severity.label(),
            " ",
            self.id.as_str(),
        );
        if !self.package.as_str().is_empty() {
            line.append(" · ");
            line.append(self.package.as_str());
            line.append("@");
            line.append(self.installed.as_str());
        }
        if !self.fixed.as_str().is_empty() {
            line.append(" → ");
            line.append(self.fixed.as_str());
        }
        add_detail(&mut line, self.title.as_str());
        line
    }
}

impl Misconfiguration {
    /// The line of a misconfiguration.
    pub fn render(&self) -> (line: String)
        ensures
            line@ == misconfiguration_line(self),
    {
        let mut line = glue4(
            "  [misconfiguration] ",
            self.severity.label(),
            " ",
            self.id.as_str(),
        );
        let detail = if self.title.as_str().is_empty() {
            self.message.as_str()
        } else {
            self.title.as_str()
        };
        add_detail(&mut line, detail);
        line
    }
}

impl Secret {
    /// The line of a secret.
    pub fn render(&self) -> (line: String)
        ensures
            line@ == secret_line(self),
    {
        let mut line = glue4("  [secret] ", self.severity.label(), " ", self.id.as_str());
        let detail = if self.title.as_str().is_empty() {
            self.category.as_str()
        } else {
            self.title.as_str()
        };
        add_detail(&mut line, detail);
        line
    }
}

/// Something that was found.
pub enum Item {
    Vulnerability(Vulnerability),
    Misconfiguration(Misconfiguration),
    Secret(Secret),
}

/// What sort of finding an item is.
pub open spec fn kind_of(item: &Item) -> Kind {
    match item {
        Item::Vulnerability(_) => Kind::Vulnerability,
        Item::Misconfiguration(_) => Kind::Misconfiguration,
        Item::Secret(_) => Kind::Secret,
    }
}

/// How severe an item is.
pub open spec fn severity_of(item: &Item) -> Severity {
    match item {
        Item::Vulnerability(item) => item.severity,
        Item::Misconfiguration(item) => item.severity,
        Item::Secret(item) => item.severity,
    }
}

/// The line of an item.
pub open spec fn item_line(item: &Item) -> Seq<char> {
    match item {
        Item::Vulnerability(item) => vulnerability_line(item),
        Item::Misconfiguration(item) => misconfiguration_line(item),
        Item::Secret(item) => secret_line(item),
    }
}

// -------------------------------------------------------------------- results --

/// The results of a resource, rendered under an allowance of their own.
pub struct Results {
    pub block: Block,
    pub counts: Counts,
}

/// How many lines an allowance has seen, the one that did not fit included.
pub open spec fn offered(budget: Budget) -> int {
    REPORT_MAX_LINES - budget.lines + if budget.truncated {
        1int
    } else {
        0int
    }
}

/// The most findings that are counted for one resource.
pub open spec fn most_findings() -> int {
    REPORT_MAX_LINES + 1
}

/// The results of a resource so far.
#[verifier::ext_equal]
pub struct ResultsView {
    pub budget: Budget,
    pub lines: Seq<Seq<char>>,
    pub counts: Counts,
}

/// The results of a resource while they are read.
pub struct ResultsReader {
    budget: Budget,
    lines: Vec<String>,
    counts: Counts,
}

impl ResultsReader {
    pub closed spec fn view(&self) -> ResultsView {
        ResultsView { budget: self.budget, lines: views(self.lines@), counts: self.counts }
    }

    /// Whether no more was counted than was offered.
    #[verifier::type_invariant]
    spec fn sound(self) -> bool {
        self.budget.lines <= REPORT_MAX_LINES && self.counts.errors == 0 && bounded(
            self.counts,
            offered(self.budget),
        )
    }

    /// Before anything was read.
    pub fn new() -> (reader: ResultsReader)
        ensures
            reader@ == (ResultsView {
                budget: full_budget(),
                lines: Seq::empty(),
                counts: no_counts(),
            }),
    {
        broadcast use group_views;

        ResultsReader { budget: Budget::new(), lines: Vec::new(), counts: Counts::new() }
    }

    /// Whether another item can still be taken in.
    pub fn accepting(&self) -> (yes: bool)
        ensures
            yes == (!self@.budget.truncated && self@.budget.lines > 0),
    {
        self.budget.accepting()
    }

    /// Takes in an item. It is counted even where its line does not fit.
    pub fn item(&mut self, item: &Item)
        requires
            !old(self)@.budget.truncated && old(self)@.budget.lines > 0,
        ensures
            final(self)@ == (ResultsView {
                budget: spent(old(self)@.budget, item_line(item)),
                lines: grown(old(self)@.budget, old(self)@.lines, item_line(item)),
                counts: recorded(old(self)@.counts, kind_of(item), severity_of(item)),
            }),
    {
        proof {
            use_type_invariant(&*self);
        }
        let mut counts = self.counts;
        let line = match item {
            Item::Vulnerability(item) => {
                counts.record(Kind::Vulnerability, item.severity);
                item.render()
            },
            Item::Misconfiguration(item) => {
                counts.record(Kind::Misconfiguration, item.severity);
                item.render()
            },
            Item::Secret(item) => {
                counts.record(Kind::Secret, item.severity);
                item.render()
            },
        };
        let mut budget = self.budget;
        let mut lines: Vec<String> = Vec::new();
        std::mem::swap(&mut lines, &mut self.lines);
        let _ = budget.push(&mut lines, line);
        *self = ResultsReader { budget, lines, counts };
    }

    /// Notes that there was more than could be taken in.
    pub fn skip(&mut self)
        ensures
            final(self)@ == (ResultsView {
                budget: Budget { truncated: true, ..old(self)@.budget },
                ..old(self)@
            }),
    {
        proof {
            use_type_invariant(&*self);
        }
        self.budget.truncated = true;
    }

    /// The results that were taken in, and whether some are missing.
    pub fn finish(self) -> (results: Results)
        ensures
            results.block@ == (BlockView {
                lines: self@.lines,
                truncated: self@.budget.truncated,
            }),
            results.counts == self@.counts,
            bounded(results.counts, most_findings()),
    {
        proof {
            use_type_invariant(&self);
        }
        Results {
            block: Block { lines: self.lines, truncated: self.budget.truncated },
            counts: self.counts,
        }
    }
}

// ------------------------------------------------------------------- findings --

/// What was found in a resource.
pub struct Finding {
    pub namespace: String,
    pub kind: String,
    pub name: String,
    pub results: Results,
    pub error: String,
}

/// A section of the report, already rendered.
#[verifier::ext_equal]
pub struct RenderedView {
    pub title: Seq<char>,
    pub lines: Seq<Seq<char>>,
}

/// A section of the report, already rendered.
#[derive(Debug, PartialEq, Eq)]
pub struct Rendered {
    pub title: String,
    pub lines: Vec<String>,
}

impl Rendered {
    pub open spec fn view(&self) -> RenderedView {
        RenderedView { title: self.title@, lines: views(self.lines@) }
    }
}

pub open spec fn rendered_views(sections: Seq<Rendered>) -> Seq<RenderedView> {
    sections.map_values(|section: Rendered| section@)
}

/// Everything that was found, already rendered.
pub struct Scanned {
    pub resources: Vec<Rendered>,
    pub counts: Counts,
    pub truncated: bool,
}

/// The counts of a resource, its own error included.
pub open spec fn counts_of(finding: &Finding) -> Counts {
    if finding.error@.len() == 0 {
        finding.results.counts
    } else {
        Counts {
            errors: (finding.results.counts.errors + 1) as usize,
            ..finding.results.counts
        }
    }
}

/// Whether there is nothing to report of a resource.
pub open spec fn is_clean(finding: &Finding) -> bool {
    findings_in(counts_of(finding)) == 0 && counts_of(finding).errors == 0
}

/// The title of a resource.
pub open spec fn title_of(finding: &Finding) -> Seq<char> {
    let place = if finding.namespace@.len() == 0 {
        Seq::<char>::empty()
    } else {
        finding.namespace@ + " · "@
    };
    place + finding.kind@ + "/"@ + finding.name@
}

/// What is left after the lines of a resource: its tally, its results, and its
/// own error where it has one.
pub open spec fn after_finding(budget: Budget, finding: &Finding) -> Budget {
    let left = after_block(
        spent(budget, tally_of(counts_of(finding))),
        finding.results.block@,
    );
    if finding.error@.len() == 0 {
        left
    } else {
        spent(left, "  ERROR "@ + finding.error@)
    }
}

/// The lines of a resource.
pub open spec fn lines_of_finding(budget: Budget, finding: &Finding) -> Seq<Seq<char>> {
    let tally = tally_of(counts_of(finding));
    let rest = spent(budget, tally);
    let shown = with_block(rest, grown(budget, Seq::empty(), tally), finding.results.block@);
    if finding.error@.len() == 0 {
        shown
    } else {
        grown(
            after_block(rest, finding.results.block@),
            shown,
            "  ERROR "@ + finding.error@,
        )
    }
}

/// What was found so far.
#[verifier::ext_equal]
pub struct ReaderView {
    pub budget: Budget,
    pub resources: Seq<RenderedView>,
    pub counts: Counts,
}

/// What was found once a resource is taken in. A resource with nothing to report
/// is left out: the clean ones would bury the findings.
pub open spec fn with_finding(reader: ReaderView, finding: &Finding) -> ReaderView {
    if is_clean(finding) {
        reader
    } else {
        ReaderView {
            budget: after_finding(reader.budget, finding),
            resources: reader.resources.push(
                RenderedView {
                    title: title_of(finding),
                    lines: lines_of_finding(reader.budget, finding),
                },
            ),
            counts: merged(reader.counts, counts_of(finding)),
        }
    }
}

/// Resources while they are read.
pub struct FindingsReader {
    budget: Budget,
    resources: Vec<Rendered>,
    counts: Counts,
}

impl FindingsReader {
    pub closed spec fn view(&self) -> ReaderView {
        ReaderView {
            budget: self.budget,
            resources: rendered_views(self.resources@),
            counts: self.counts,
        }
    }

    /// Whether no more was counted than the resources can have had: each of them
    /// took a line, and none has more findings than [`most_findings`] and an
    /// error.
    #[verifier::type_invariant]
    spec fn sound(self) -> bool {
        self.budget.lines <= REPORT_MAX_LINES && bounded(
            self.counts,
            4002 * offered(self.budget),
        )
    }

    /// Before anything was read.
    pub fn new() -> (reader: FindingsReader)
        ensures
            reader@ == (ReaderView {
                budget: full_budget(),
                resources: Seq::empty(),
                counts: no_counts(),
            }),
    {
        let reader = FindingsReader {
            budget: Budget::new(),
            resources: Vec::new(),
            counts: Counts::new(),
        };
        assert(rendered_views(reader.resources@) =~= Seq::<RenderedView>::empty());
        reader
    }

    /// Whether another resource can still be taken in.
    pub fn accepting(&self) -> (yes: bool)
        ensures
            yes == (!self@.budget.truncated && self@.budget.lines > 0),
    {
        self.budget.accepting()
    }

    /// Notes that there was more than could be taken in.
    pub fn skip(&mut self)
        ensures
            final(self)@ == (ReaderView {
                budget: Budget { truncated: true, ..old(self)@.budget },
                ..old(self)@
            }),
    {
        proof {
            use_type_invariant(&*self);
        }
        self.budget.truncated = true;
    }

    /// Everything that was found, and whether something is missing.
    pub fn finish(self) -> (scanned: Scanned)
        ensures
            rendered_views(scanned.resources@) == self@.resources,
            scanned.counts == self@.counts,
            scanned.truncated == self@.budget.truncated,
            findings_in(scanned.counts) <= usize::MAX,
    {
        proof {
            use_type_invariant(&self);
        }
        Scanned {
            resources: self.resources,
            counts: self.counts,
            truncated: self.budget.truncated,
        }
    }
}

proof fn lines_do_not_come_back(budget: Budget, finding: &Finding)
    requires
        !budget.truncated,
        0 < budget.lines <= REPORT_MAX_LINES,
    ensures
        after_finding(budget, finding).lines <= REPORT_MAX_LINES,
        offered(after_finding(budget, finding)) >= offered(budget) + 1,
{
    let tally = tally_of(counts_of(finding));
    let rest = spent(budget, tally);
    lines_are_paid_for(budget, Seq::empty(), tally);
    blocks_are_paid_for(rest, Seq::empty(), finding.results.block@);
    let left = after_block(rest, finding.results.block@);
    lines_are_paid_for(left, Seq::empty(), "  ERROR "@ + finding.error@);
}

/// Takes in what was found in a resource.
pub fn render_finding(reader: &mut FindingsReader, finding: Finding)
    requires
        !old(reader)@.budget.truncated && old(reader)@.budget.lines > 0,
        bounded(finding.results.counts, most_findings()),
    ensures
        final(reader)@ == with_finding(old(reader)@, &finding),
{
    broadcast use group_views;

    let ghost before = reader@;
    proof {
        use_type_invariant(&*reader);
    }
    let mut counts = finding.results.counts;
    let failed = !finding.error.as_str().is_empty();
    if failed {
        counts.errors = counts.errors + 1;
    }
    assert(counts == counts_of(&finding));
    if counts.findings() == 0 && counts.errors == 0 {
        return;
    }
    proof {
        lines_do_not_come_back(before.budget, &finding);
    }
    let mut all = reader.counts;
    all.merge(counts);

    let mut title = String::new();
    if !finding.namespace.as_str().is_empty() {
        title.append(finding.namespace.as_str());
        title.append(" · ");
        assert(title@ =~= finding.namespace@ + " · "@);
    }
    title.append(finding.kind.as_str());
    title.append("/");
    title.append(finding.name.as_str());
    assert(title@ =~= title_of(&finding));

    let mut budget = reader.budget;
    let mut lines: Vec<String> = Vec::new();
    let _ = budget.push(&mut lines, counts.tally());
    budget.absorb(&mut lines, finding.results.block);
    if failed {
        let _ = budget.push(&mut lines, glue2("  ERROR ", finding.error.as_str()));
    }
    let mut resources: Vec<Rendered> = Vec::new();
    std::mem::swap(&mut resources, &mut reader.resources);
    let ghost known = resources@;
    let rendered = Rendered { title, lines };
    assert(rendered@ == (RenderedView {
        title: title_of(&finding),
        lines: lines_of_finding(before.budget, &finding),
    }));
    resources.push(rendered);
    assert(rendered_views(resources@) =~= rendered_views(known).push(rendered@));
    *reader = FindingsReader { budget, resources, counts: all };
}

// --------------------------------------------------------------------- report --

/// A scan and the cluster that it is of.
pub struct Envelope {
    pub cluster_name: String,
    pub findings: Scanned,
}

/// The rows of the summary.
pub open spec fn summary_rows(
    counts: Counts,
    resources: nat,
    cluster: Seq<char>,
    context: Seq<char>,
    namespace: Seq<char>,
) -> Seq<RowView> {
    let counted = seq![
        ("Findings"@, decimal(findings_in(counts) as nat)),
        ("Critical"@, decimal(counts.critical as nat)),
        ("High"@, decimal(counts.high as nat)),
        ("Medium"@, decimal(counts.medium as nat)),
        ("Low"@, decimal(counts.low as nat)),
        ("Vulnerabilities"@, decimal(counts.vulnerabilities as nat)),
        ("Misconfigurations"@, decimal(counts.misconfigurations as nat)),
        ("Secrets"@, decimal(counts.secrets as nat)),
    ];
    let placed = crate::report::with_row(
        crate::report::with_row(counted, "Context"@, context),
        "Cluster"@,
        cluster,
    ).push(
        (
            "Namespace"@,
            if namespace.len() == 0 {
                "all"@
            } else {
                namespace
            },
        ),
    ).push(("Resources"@, decimal(resources)));
    if counts.errors > 0 {
        placed.push(("Scan errors"@, decimal(counts.errors as nat)))
    } else {
        placed
    }
}

/// The sections of resources.
pub open spec fn resource_sections(resources: Seq<RenderedView>) -> Seq<SectionView> {
    resources.map_values(|resource: RenderedView| lines_view(resource.title, resource.lines))
}

/// The report of a scan.
pub open spec fn rendered_of(
    envelope: &Envelope,
    requested_context: Seq<char>,
    requested_namespace: Seq<char>,
) -> ReportView {
    let found = rendered_views(envelope.findings.resources@);
    let rows = summary_rows(
        envelope.findings.counts,
        found.len(),
        envelope.cluster_name@,
        requested_context,
        requested_namespace,
    );
    let sections = seq![table_view("Summary"@, rows)] + resource_sections(found);
    report_view(
        "Trivy scan"@,
        if envelope.findings.truncated {
            sections.push(
                lines_view(
                    "Notice"@,
                    seq!["… report truncated; scan one namespace at a time to see the rest"@],
                ),
            )
        } else {
            sections
        },
    )
}

/// The report of a scan.
pub fn render(envelope: Envelope, requested_context: &str, requested_namespace: &str) -> (report:
    Report)
    requires
        findings_in(envelope.findings.counts) <= usize::MAX,
    ensures
        report@ == rendered_of(&envelope, requested_context@, requested_namespace@),
{
    broadcast use {group_report, group_views};

    let findings = envelope.findings;
    let counts = findings.counts;
    let ghost found = rendered_views(findings.resources@);
    let mut rows: Vec<(String, String)> = Vec::new();
    put_row(&mut rows, "Findings", size_text(counts.findings()));
    put_row(&mut rows, "Critical", size_text(counts.critical));
    put_row(&mut rows, "High", size_text(counts.high));
    put_row(&mut rows, "Medium", size_text(counts.medium));
    put_row(&mut rows, "Low", size_text(counts.low));
    put_row(&mut rows, "Vulnerabilities", size_text(counts.vulnerabilities));
    put_row(&mut rows, "Misconfigurations", size_text(counts.misconfigurations));
    put_row(&mut rows, "Secrets", size_text(counts.secrets));
    assert(row_views(rows@) =~= seq![
        ("Findings"@, decimal(findings_in(counts) as nat)),
        ("Critical"@, decimal(counts.critical as nat)),
        ("High"@, decimal(counts.high as nat)),
        ("Medium"@, decimal(counts.medium as nat)),
        ("Low"@, decimal(counts.low as nat)),
        ("Vulnerabilities"@, decimal(counts.vulnerabilities as nat)),
        ("Misconfigurations"@, decimal(counts.misconfigurations as nat)),
        ("Secrets"@, decimal(counts.secrets as nat)),
    ]);
    crate::report::add_row(&mut rows, "Context", requested_context.to_owned());
    crate::report::add_row(&mut rows, "Cluster", envelope.cluster_name);
    put_row(
        &mut rows,
        "Namespace",
        if requested_namespace.is_empty() {
            "all".to_owned()
        } else {
            requested_namespace.to_owned()
        },
    );
    put_row(&mut rows, "Resources", size_text(findings.resources.len()));
    if counts.errors > 0 {
        put_row(&mut rows, "Scan errors", size_text(counts.errors));
    }
    let ghost row_list = row_views(rows@);
    let mut sections: Vec<Section> = Vec::new();
    sections.push(table("Summary", rows));
    for resource in iter: findings.resources
        invariant
            iter.seq() == findings.resources@,
            found == rendered_views(findings.resources@),
            sections@.len() == iter.index() + 1,
            sections@[0]@ == table_view("Summary"@, row_list),
            forall|i: int|
                1 <= i < sections@.len() ==> (#[trigger] sections@[i])@ == lines_view(
                    found[i - 1].title,
                    found[i - 1].lines,
                ),
    {
        assert(found[iter.index() as int] == resource@);
        sections.push(lines(resource.title.as_str(), resource.lines));
    }
    assert(section_views(sections@) =~= seq![table_view("Summary"@, row_list)]
        + resource_sections(found));
    if findings.truncated {
        sections.push(
            single_line(
                "Notice",
                "… report truncated; scan one namespace at a time to see the rest",
            ),
        );
    }
    document("Trivy scan", sections)
}

// ----------------------------------------------------------------------- laws --

/// The lines of all resources.
pub open spec fn lines_in(resources: Seq<RenderedView>) -> nat
    decreases resources.len(),
{
    if resources.len() == 0 {
        0
    } else {
        lines_in(resources.drop_last()) + resources.last().lines.len()
    }
}

/// The bytes of all resources.
pub open spec fn resource_bytes_in(resources: Seq<RenderedView>) -> nat
    decreases resources.len(),
{
    if resources.len() == 0 {
        0
    } else {
        resource_bytes_in(resources.drop_last()) + bytes_in(resources.last().lines)
    }
}

/// Whether what a reader holds is what its allowance paid for.
pub open spec fn paid(reader: ReaderView) -> bool {
    &&& reader.budget.lines + lines_in(reader.resources) == REPORT_MAX_LINES
    &&& reader.budget.bytes + resource_bytes_in(reader.resources) == REPORT_MAX_BYTES
}

/// Every resource that is taken in stays within the allowance, so the rendered
/// text of a scan never has more lines or bytes than the allowance had.
pub proof fn findings_are_paid_for(reader: ReaderView, finding: &Finding)
    requires
        paid(reader),
    ensures
        paid(with_finding(reader, finding)),
{
    let tally = tally_of(counts_of(finding));
    let rest = spent(reader.budget, tally);
    let first = grown(reader.budget, Seq::empty(), tally);
    lines_are_paid_for(reader.budget, Seq::empty(), tally);
    blocks_are_paid_for(rest, first, finding.results.block@);
    lines_are_paid_for(
        after_block(rest, finding.results.block@),
        with_block(rest, first, finding.results.block@),
        "  ERROR "@ + finding.error@,
    );
    assert(bytes_in(Seq::empty()) == 0);
    if !is_clean(finding) {
        let after = with_finding(reader, finding);
        assert(after.resources.drop_last() =~= reader.resources);
    }
}

/// A resource is left out exactly where nothing was found and nothing failed.
pub proof fn only_clean_resources_are_left_out(reader: ReaderView, finding: &Finding)
    ensures
        with_finding(reader, finding).resources.len() == reader.resources.len() <==> (findings_in(
            finding.results.counts,
        ) == 0 && counts_of(finding).errors == 0),
{
}

} // verus!
