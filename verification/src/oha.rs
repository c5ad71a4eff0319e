//! An HTTP benchmark with oha.
use crate::duration::{seconds, seconds_of};
use crate::numbers::{count_text, decimal, digit, read_unsigned, size_text, unsigned_number};
use crate::report::{
    document, group_report, put_row, report_view, row_views, section_views, table, table_view, Body,
    BodyView, Report, ReportView, RowView, Section, SectionView,
};
use crate::sequences::{
    is_ranking, is_sorted, placed_at, sorted_by, sorting_keeps_length, sorting_orders,
};
use crate::text::{
    before, begins, glue2, glue3, glue4, glue5, group_views, sorts_before, sorts_before_strict,
    sorts_before_total, sorts_before_transitive, starts_with, text_view, views,
};
use crate::text_map::{text_at, text_or, TextMap};
use crate::tools::{failure, failure_of};
use vstd::prelude::*;

verus! {

/// The most rows that are shown of a distribution.
pub const MAX_DISTRIBUTION_ROWS: usize = 64;

// -------------------------------------------------------------------- requests --

/// A port that was forwarded to the target.
pub struct Forward {
    pub host: String,
    pub local_port: u16,
    pub remote_port: u16,
}

/// A request for a benchmark.
pub struct Request {
    pub schema_version: u32,
    pub namespace: Option<String>,
    pub resource: Option<String>,
    pub name: Option<String>,
    pub inputs: TextMap<String>,
    pub forward: Option<Forward>,
}

/// What the inputs ask for.
#[verifier::ext_equal]
pub struct OptionsView {
    pub duration: u64,
    pub connections: u32,
    pub path: Seq<char>,
}

/// What the inputs ask for.
#[derive(Debug, PartialEq, Eq)]
pub struct Options {
    /// How many seconds the benchmark takes.
    pub duration: u64,
    pub connections: u32,
    pub path: String,
}

/// The options of a set of inputs.
pub open spec fn options_of(inputs: Seq<(Seq<char>, String)>) -> Result<OptionsView, Seq<char>> {
    let duration = match text_at(inputs, "duration"@) {
        Some(text) => seconds_of(text, true),
        None => Some(10nat),
    };
    let connections = match text_at(inputs, "connections"@) {
        Some(text) => unsigned_number(text, u32::MAX as nat),
        None => Some(20nat),
    };
    match (duration, connections) {
        (None, _) => Err("duration must be a positive time like \"10s\""@),
        (Some(_), None) => Err("connections must be a positive whole number"@),
        (Some(duration), Some(connections)) => if connections == 0 {
            Err("connections must be at least 1"@)
        } else {
            Ok(
                OptionsView {
                    duration: duration as u64,
                    connections: connections as u32,
                    path: match text_at(inputs, "path"@) {
                        Some(path) => path,
                        None => "/"@,
                    },
                },
            )
        },
    }
}

impl Options {
    pub open spec fn view(&self) -> OptionsView {
        OptionsView {
            duration: self.duration,
            connections: self.connections,
            path: self.path@,
        }
    }

    /// Reads the inputs.
    pub fn from(inputs: &TextMap<String>) -> (options: Result<Options, String>)
        ensures
            match options {
                Ok(options) => options_of(inputs@) == Ok::<OptionsView, Seq<char>>(options@),
                Err(message) => options_of(inputs@) == Err::<OptionsView, Seq<char>>(message@),
            },
    {
        let duration = match inputs.get("duration") {
            Some(text) => match seconds(text.as_str(), true) {
                Some(duration) => duration,
                None => {
                    return Err("duration must be a positive time like \"10s\"".to_owned());
                },
            },
            None => 10,
        };
        let connections = match inputs.get("connections") {
            Some(text) => match read_unsigned(text.as_str(), u32::MAX as u64) {
                Some(connections) => connections as u32,
                None => {
                    return Err("connections must be a positive whole number".to_owned());
                },
            },
            None => 20,
        };
        if connections == 0 {
            return Err("connections must be at least 1".to_owned());
        }
        let path = match inputs.get("path") {
            Some(path) => path.clone(),
            None => "/".to_owned(),
        };
        Ok(Options { duration, connections, path })
    }
}

/// The address of the target: the forwarded port, and the path from its root.
pub open spec fn url_of(forward: &Forward, path: Seq<char>) -> Seq<char> {
    let host = if forward.host@.len() == 0 {
        "127.0.0.1"@
    } else {
        forward.host@
    };
    let rooted = if begins(path, "/"@) {
        path
    } else {
        "/"@ + path
    };
    "http://"@ + host + ":"@ + decimal(forward.local_port as nat) + rooted
}

/// The address of the target.
pub fn url(forward: &Forward, path: &str) -> (address: String)
    ensures
        address@ == url_of(forward, path@),
{
    let host = if forward.host.as_str().is_empty() {
        "127.0.0.1"
    } else {
        forward.host.as_str()
    };
    let rooted = if starts_with(path, "/") {
        path.to_owned()
    } else {
        glue2("/", path)
    };
    let port = count_text(forward.local_port as u64);
    glue5("http://", host, ":", port.as_str(), rooted.as_str())
}

/// What a benchmark is about, once the request has been accepted.
pub struct Plan {
    pub options: Options,
    pub url: String,
    /// The saved report to read instead, where one is named.
    pub saved: String,
}

/// Why a request is refused.
pub open spec fn refusal_of(request: &Request) -> Option<Seq<char>> {
    if request.schema_version != 1 {
        Some("unsupported request schema_version"@)
    } else if request.forward is None {
        Some("sofka did not open a port-forward; run this on a pod or service"@)
    } else {
        match options_of(request.inputs@) {
            Err(message) => Some(message),
            Ok(_) => None,
        }
    }
}

/// Accepts a request or refuses it.
pub fn plan(request: &Request) -> (accepted: Result<Plan, String>)
    ensures
        match accepted {
            Ok(accepted) => {
                &&& refusal_of(request) is None
                &&& options_of(request.inputs@) == Ok::<OptionsView, Seq<char>>(accepted.options@)
                &&& request.forward matches Some(forward) && accepted.url@ == url_of(
                    &forward,
                    accepted.options@.path,
                )
                &&& accepted.saved@ == text_or(request.inputs@, "report"@)
            },
            Err(message) => refusal_of(request) == Some(message@),
        },
{
    if request.schema_version != 1 {
        return Err("unsupported request schema_version".to_owned());
    }
    let forward = match &request.forward {
        Some(forward) => forward,
        None => {
            return Err(
                "sofka did not open a port-forward; run this on a pod or service".to_owned(),
            );
        },
    };
    match Options::from(&request.inputs) {
        Err(message) => Err(message),
        Ok(options) => {
            let address = url(forward, options.path.as_str());
            let saved = crate::text_map::text_or_blank(&request.inputs, "report");
            Ok(Plan { options, url: address, saved })
        },
    }
}

// ------------------------------------------------------------------------ runs --

/// The arguments of a benchmark.
pub open spec fn arguments_of(url: Seq<char>, options: OptionsView) -> Seq<Seq<char>> {
    seq![
        "--no-tui"@,
        "--output-format"@,
        "json"@,
        "-z"@,
        decimal(options.duration as nat) + "s"@,
        "-c"@,
        decimal(options.connections as nat),
        url,
    ]
}

/// The arguments of a benchmark.
pub fn configure(url: &str, options: &Options) -> (arguments: Vec<String>)
    ensures
        views(arguments@) == arguments_of(url@, options@),
{
    broadcast use group_views;

    let duration = count_text(options.duration);
    let mut arguments: Vec<String> = Vec::new();
    arguments.push("--no-tui".to_owned());
    arguments.push("--output-format".to_owned());
    arguments.push("json".to_owned());
    arguments.push("-z".to_owned());
    arguments.push(glue2(duration.as_str(), "s"));
    arguments.push("-c".to_owned());
    arguments.push(count_text(options.connections as u64));
    arguments.push(url.to_owned());
    assert(views(arguments@) =~= arguments_of(url@, options@));
    arguments
}

/// What to start for a benchmark: the oha that was found, and its arguments.
pub fn benchmark_command(found: Option<String>, url: &str, options: &Options) -> (command: Result<
    (String, Vec<String>),
    String,
>)
    ensures
        match command {
            Ok(command) => text_view(found) == Some(command.0@) && views(command.1@)
                == arguments_of(url@, options@),
            Err(message) => found is None && message@
                == "oha is not on PATH; install it from https://github.com/hatoo/oha#installation"@,
        },
{
    match found {
        Some(executable) => Ok((executable, configure(url, options))),
        None => Err(
            "oha is not on PATH; install it from https://github.com/hatoo/oha#installation".to_owned(),
        ),
    }
}

/// What is said of a benchmark that failed.
pub fn run_error(parse_error: Option<String>, status: &str, stderr: &[u8]) -> (message: String)
    ensures
        message@ == failure_of("oha"@, text_view(parse_error), status@, stderr@),
{
    failure("oha", parse_error, status, stderr)
}

// --------------------------------------------------------------------- numbers --

/// Three digits.
pub open spec fn three_digits(value: nat) -> Seq<char> {
    seq![digit(value / 100), digit(value / 10 % 10), digit(value % 10)]
}

/// A number with a comma before every three digits.
pub open spec fn thousands_of(value: nat) -> Seq<char>
    decreases value,
{
    if value < 1000 {
        decimal(value)
    } else {
        thousands_of(value / 1000) + ","@ + three_digits(value % 1000)
    }
}

fn three(value: u64) -> (text: String)
    requires
        value < 1000,
    ensures
        text@ == three_digits(value as nat),
{
    let mut text = count_text(value / 100);
    text.append(count_text(value / 10 % 10).as_str());
    text.append(count_text(value % 10).as_str());
    assert(text@ =~= three_digits(value as nat));
    text
}

/// A number with a comma before every three digits.
pub fn thousands(value: u64) -> (text: String)
    ensures
        text@ == thousands_of(value as nat),
    decreases value,
{
    if value < 1000 {
        count_text(value)
    } else {
        let head = thousands(value / 1000);
        let tail = three(value % 1000);
        glue3(head.as_str(), ",", tail.as_str())
    }
}

/// A text without its commas.
pub open spec fn without_commas(text: Seq<char>) -> Seq<char>
    decreases text.len(),
{
    if text.len() == 0 {
        text
    } else if text.last() == ',' {
        without_commas(text.drop_last())
    } else {
        without_commas(text.drop_last()).push(text.last())
    }
}

proof fn without_commas_append(left: Seq<char>, right: Seq<char>)
    ensures
        without_commas(left + right) == without_commas(left) + without_commas(right),
    decreases right.len(),
{
    if right.len() == 0 {
        assert(left + right =~= left);
        assert(without_commas(left) + without_commas(right) =~= without_commas(left));
    } else {
        let rest = right.drop_last();
        without_commas_append(left, rest);
        assert((left + right).drop_last() =~= left + rest);
        assert((left + right).last() == right.last());
        assert(without_commas(left) + without_commas(rest).push(right.last()) =~= (without_commas(
            left,
        ) + without_commas(rest)).push(right.last()));
    }
}

proof fn digits_have_no_commas(text: Seq<char>)
    requires
        forall|i: int| 0 <= i < text.len() ==> #[trigger] text[i] != ',',
    ensures
        without_commas(text) == text,
    decreases text.len(),
{
    if text.len() > 0 {
        let rest = text.drop_last();
        assert forall|i: int| 0 <= i < rest.len() implies #[trigger] rest[i] != ',' by {
            assert(text[i] != ',');
        }
        assert(text[text.len() - 1] != ',');
        digits_have_no_commas(rest);
        assert(rest.push(text.last()) =~= text);
    }
}

proof fn decimal_by_thousands(value: nat)
    requires
        value >= 1000,
    ensures
        decimal(value) == decimal(value / 1000) + three_digits(value % 1000),
{
    let tens = value / 10;
    let hundreds = tens / 10;
    assert(hundreds / 10 == value / 1000);
    assert(decimal(value) == decimal(tens).push(digit(value % 10)));
    assert(decimal(tens) == decimal(hundreds).push(digit(tens % 10)));
    assert(decimal(hundreds) == decimal(hundreds / 10).push(digit(hundreds % 10)));
    let rest = value % 1000;
    assert(rest / 100 == hundreds % 10);
    assert(rest / 10 % 10 == tens % 10);
    assert(rest % 10 == value % 10);
    assert(decimal(value) =~= decimal(value / 1000) + three_digits(rest));
}

/// The commas are all that is added to a number.
pub proof fn commas_change_nothing_else(value: nat)
    ensures
        without_commas(thousands_of(value)) == decimal(value),
    decreases value,
{
    if value < 1000 {
        crate::numbers::decimal_reads_back(value);
        let text = decimal(value);
        assert forall|i: int| 0 <= i < text.len() implies #[trigger] text[i] != ',' by {
            assert('0' <= text[i] <= '9');
        }
        digits_have_no_commas(text);
    } else {
        let head = thousands_of(value / 1000);
        let tail = three_digits(value % 1000);
        commas_change_nothing_else(value / 1000);
        decimal_by_thousands(value);
        reveal_strlit(",");
        without_commas_append(head + ","@, tail);
        without_commas_append(head, ","@);
        assert(forall|i: int| 0 <= i < tail.len() ==> #[trigger] tail[i] != ',');
        digits_have_no_commas(tail);
        assert(without_commas(","@) =~= Seq::<char>::empty()) by {
            reveal_with_fuel(without_commas, 2);
            assert(","@.drop_last() =~= Seq::<char>::empty());
        }
        assert(decimal(value / 1000) + Seq::<char>::empty() =~= decimal(value / 1000));
    }
}

/// How far apart two neighbouring numbers are that a double can hold.
pub open spec fn double_step(value: nat) -> nat {
    if value < 0x20_0000_0000_0000 {
        1
    } else if value < 0x40_0000_0000_0000 {
        2
    } else if value < 0x80_0000_0000_0000 {
        4
    } else if value < 0x100_0000_0000_0000 {
        8
    } else if value < 0x200_0000_0000_0000 {
        16
    } else if value < 0x400_0000_0000_0000 {
        32
    } else if value < 0x800_0000_0000_0000 {
        64
    } else if value < 0x1000_0000_0000_0000 {
        128
    } else if value < 0x2000_0000_0000_0000 {
        256
    } else if value < 0x4000_0000_0000_0000 {
        512
    } else if value < 0x8000_0000_0000_0000 {
        1024
    } else {
        2048
    }
}

/// A fraction rounded to the nearest whole number; a tie goes to the even one.
pub open spec fn rounded(numerator: nat, denominator: nat) -> nat {
    let whole = numerator / denominator;
    let twice = 2 * (numerator % denominator);
    if twice > denominator || (twice == denominator && whole % 2 == 1) {
        whole + 1
    } else {
        whole
    }
}

/// The number that a double holds for a whole number.
pub open spec fn as_double(value: nat) -> nat {
    rounded(value, double_step(value)) * double_step(value)
}

/// A size in a unit, to one decimal place.
pub open spec fn in_unit(value: nat, unit: nat, name: Seq<char>) -> Seq<char> {
    let tenths = rounded(as_double(value) * 10, unit);
    decimal(tenths / 10) + "."@ + decimal(tenths % 10) + name
}

/// A size in the largest unit that it fills.
pub open spec fn bytes_of(value: nat) -> Seq<char> {
    if value < 1024 {
        decimal(value) + " B"@
    } else if value < 1048576 {
        in_unit(value, 1024, " KiB"@)
    } else if value < 1073741824 {
        in_unit(value, 1048576, " MiB"@)
    } else {
        in_unit(value, 1073741824, " GiB"@)
    }
}

fn step_of(value: u64) -> (step: u128)
    ensures
        step == double_step(value as nat),
        1 <= step <= 2048,
{
    if value < 0x20_0000_0000_0000 {
        1
    } else if value < 0x40_0000_0000_0000 {
        2
    } else if value < 0x80_0000_0000_0000 {
        4
    } else if value < 0x100_0000_0000_0000 {
        8
    } else if value < 0x200_0000_0000_0000 {
        16
    } else if value < 0x400_0000_0000_0000 {
        32
    } else if value < 0x800_0000_0000_0000 {
        64
    } else if value < 0x1000_0000_0000_0000 {
        128
    } else if value < 0x2000_0000_0000_0000 {
        256
    } else if value < 0x4000_0000_0000_0000 {
        512
    } else if value < 0x8000_0000_0000_0000 {
        1024
    } else {
        2048
    }
}

fn round(numerator: u128, denominator: u128) -> (whole: u128)
    requires
        0 < denominator <= 1073741824,
        numerator <= 0x1_0000_0000_0000_0000_0000,
    ensures
        whole == rounded(numerator as nat, denominator as nat),
        whole <= numerator / denominator + 1,
{
    let whole = numerator / denominator;
    let twice = 2 * (numerator % denominator);
    assert(whole <= numerator) by (nonlinear_arith)
        requires
            whole == numerator / denominator,
            denominator > 0,
    ;
    if twice > denominator || (twice == denominator && whole % 2 == 1) {
        whole + 1
    } else {
        whole
    }
}

fn unit_text(value: u64, unit: u128, name: &str) -> (text: String)
    requires
        unit == 1024 || unit == 1048576 || unit == 1073741824,
    ensures
        text@ == in_unit(value as nat, unit as nat, name@),
{
    let step = step_of(value);
    let near = round(value as u128, step);
    assert(near * step <= value + step) by (nonlinear_arith)
        requires
            near <= value / step as u64 + 1,
            1 <= step <= 2048,
    ;
    let held = near * step;
    let tenths = round(held * 10, unit);
    assert(tenths <= held * 10 / 1024 + 1) by (nonlinear_arith)
        requires
            tenths <= held * 10 / (unit as int) + 1,
            unit >= 1024,
            held >= 0,
    ;
    let whole = count_text((tenths / 10) as u64);
    let tenth = count_text((tenths % 10) as u64);
    glue4(whole.as_str(), ".", tenth.as_str(), name)
}

/// A size in the largest unit that it fills, to one decimal place.
pub fn bytes(value: u64) -> (text: String)
    ensures
        text@ == bytes_of(value as nat),
{
    if value < 1024 {
        glue2(count_text(value).as_str(), " B")
    } else if value < 1048576 {
        unit_text(value, 1024, " KiB")
    } else if value < 1073741824 {
        unit_text(value, 1048576, " MiB")
    } else {
        unit_text(value, 1073741824, " GiB")
    }
}

// --------------------------------------------------------------- distributions --

/// Whether an entry is shown before another: the larger one, and of two equally
/// large ones the one with the smaller key.
pub open spec fn shown_first(left: (Seq<char>, u64), right: (Seq<char>, u64)) -> bool {
    left.1 > right.1 || (left.1 == right.1 && sorts_before(left.0, right.0))
}

/// The entries in the order in which they are shown.
pub open spec fn ranked(entries: Seq<(Seq<char>, u64)>) -> Seq<(Seq<char>, u64)> {
    sorted_by(
        entries,
        |left: (Seq<char>, u64), right: (Seq<char>, u64)| shown_first(left, right),
    )
}

/// The row of an entry.
pub open spec fn entry_row(entry: (Seq<char>, u64)) -> RowView {
    (entry.0, thousands_of(entry.1 as nat))
}

/// How many entries are shown.
pub open spec fn shown_count(entries: nat) -> nat {
    if entries < MAX_DISTRIBUTION_ROWS {
        entries
    } else {
        MAX_DISTRIBUTION_ROWS as nat
    }
}

/// The rows of a distribution, largest first and no more than are shown.
pub open spec fn distribution_rows(entries: Seq<(Seq<char>, u64)>) -> Seq<RowView> {
    ranked(entries).take(shown_count(entries.len()) as int).map_values(
        |entry: (Seq<char>, u64)| entry_row(entry),
    )
}

fn goes_first(map: &TextMap<u64>, left: usize, right: usize) -> (yes: bool)
    requires
        left < map@.len(),
        right < map@.len(),
    ensures
        yes == shown_first(map@[left as int], map@[right as int]),
{
    let first = *map.value(left);
    let second = *map.value(right);
    first > second || (first == second && before(map.key(left).as_str(), map.key(right).as_str()))
}

pub open spec fn picked(entries: Seq<(Seq<char>, u64)>, order: Seq<usize>) -> Seq<
    (Seq<char>, u64),
> {
    order.map_values(|at: usize| entries[at as int])
}

/// The rows of a distribution, and how many entries are not shown.
pub fn distribution(map: &TextMap<u64>) -> (shown: (Vec<(String, String)>, usize))
    ensures
        row_views(shown.0@) == distribution_rows(map@),
        shown.1 == map@.len() - shown_count(map@.len()),
{
    let ghost entries = map@;
    let ghost rank = |left: (Seq<char>, u64), right: (Seq<char>, u64)| shown_first(left, right);
    let mut order: Vec<usize> = Vec::new();
    let mut at: usize = 0;
    assert(picked(entries, order@) =~= Seq::<(Seq<char>, u64)>::empty());
    while at < map.len()
        invariant
            at <= entries.len(),
            entries == map@,
            order@.len() == at,
            rank == (|left: (Seq<char>, u64), right: (Seq<char>, u64)| shown_first(left, right)),
            forall|i: int| 0 <= i < order@.len() ==> (#[trigger] order@[i]) < entries.len(),
            picked(entries, order@) == sorted_by(entries.take(at as int), rank),
        decreases entries.len() - at,
    {
        let ghost sorted = picked(entries, order@);
        assert(entries.take(at + 1).drop_last() =~= entries.take(at as int));
        let mut place: usize = order.len();
        while place > 0 && goes_first(map, at, order[place - 1])
            invariant
                place <= order@.len(),
                at < entries.len(),
                entries == map@,
                sorted == picked(entries, order@),
                rank == (|left: (Seq<char>, u64), right: (Seq<char>, u64)|
                    shown_first(left, right)),
                forall|i: int| 0 <= i < order@.len() ==> (#[trigger] order@[i]) < entries.len(),
                forall|i: int|
                    place <= i < sorted.len() ==> rank(entries[at as int], #[trigger] sorted[i]),
            decreases place,
        {
            assert(sorted[place - 1] == entries[order@[place - 1] as int]);
            place = place - 1;
        }
        proof {
            if place > 0 {
                assert(sorted[place - 1] == entries[order@[place - 1] as int]);
            }
            placed_at(sorted, entries[at as int], rank, place as int);
        }
        order.insert(place, at);
        assert(picked(entries, order@) =~= sorted.insert(place as int, entries[at as int]));
        at = at + 1;
    }
    assert(entries.take(at as int) =~= entries);
    let mut rows: Vec<(String, String)> = Vec::new();
    let mut next: usize = 0;
    while next < order.len() && next < MAX_DISTRIBUTION_ROWS
        invariant
            next <= order@.len(),
            next <= MAX_DISTRIBUTION_ROWS,
            entries == map@,
            picked(entries, order@) == ranked(entries),
            forall|i: int| 0 <= i < order@.len() ==> (#[trigger] order@[i]) < entries.len(),
            rows@.len() == next,
            forall|i: int|
                0 <= i < next ==> ((#[trigger] rows@[i]).0@, rows@[i].1@) == entry_row(
                    ranked(entries)[i],
                ),
        decreases order@.len() - next,
    {
        let from = order[next];
        assert(ranked(entries)[next as int] == picked(entries, order@)[next as int]);
        rows.push((map.key(from).clone(), thousands(*map.value(from))));
        next = next + 1;
    }
    assert(ranked(entries).len() == order@.len());
    assert(row_views(rows@) =~= distribution_rows(entries));
    (rows, order.len() - next)
}

proof fn showing_is_a_ranking()
    ensures
        is_ranking(|left: (Seq<char>, u64), right: (Seq<char>, u64)| shown_first(left, right)),
{
    let rank = |left: (Seq<char>, u64), right: (Seq<char>, u64)| shown_first(left, right);
    assert forall|a: (Seq<char>, u64)| !#[trigger] rank(a, a) by {
        if sorts_before(a.0, a.0) {
            sorts_before_strict(a.0, a.0);
        }
    }
    assert forall|a: (Seq<char>, u64), b: (Seq<char>, u64)| #[trigger] rank(a, b) implies !rank(
        b,
        a,
    ) by {
        if sorts_before(a.0, b.0) {
            sorts_before_strict(a.0, b.0);
        }
    }
    assert forall|a: (Seq<char>, u64), b: (Seq<char>, u64), c: (Seq<char>, u64)|
        !(#[trigger] rank(b, a)) && !(#[trigger] rank(c, b)) implies !rank(c, a) by {
        sorts_before_total(a.0, b.0);
        sorts_before_total(b.0, c.0);
        if rank(c, a) && a.1 == b.1 && b.1 == c.1 {
            if sorts_before(a.0, b.0) {
                sorts_before_transitive(c.0, a.0, b.0);
            }
        }
    }
}

/// A distribution is shown largest first, and no entry is shown that it does not
/// have.
pub proof fn distributions_are_ranked(entries: Seq<(Seq<char>, u64)>)
    ensures
        is_sorted(
            ranked(entries),
            |left: (Seq<char>, u64), right: (Seq<char>, u64)| shown_first(left, right),
        ),
        ranked(entries).to_multiset() == entries.to_multiset(),
        distribution_rows(entries).len() == shown_count(entries.len()),
{
    let rank = |left: (Seq<char>, u64), right: (Seq<char>, u64)| shown_first(left, right);
    showing_is_a_ranking();
    sorting_orders(entries, rank);
}

// --------------------------------------------------------------------- reports --

/// The figures of a benchmark, already in words where oha gave them. A run that
/// completed nothing leaves them open.
pub struct Figures {
    pub success_rate: Option<String>,
    pub requests_per_sec: Option<String>,
    pub elapsed: Option<String>,
    pub fastest: Option<String>,
    pub average: Option<String>,
    pub slowest: Option<String>,
    pub p50: Option<String>,
    pub p90: Option<String>,
    pub p95: Option<String>,
    pub p99: Option<String>,
    pub total_data: Option<u64>,
    pub size_per_request: Option<u64>,
}

/// What oha reported.
pub struct Benchmark {
    pub figures: Figures,
    pub statuses: TextMap<u64>,
    pub errors: TextMap<u64>,
}

/// The sum of a distribution.
pub open spec fn total(entries: Seq<(Seq<char>, u64)>) -> nat
    decreases entries.len(),
{
    if entries.len() == 0 {
        0
    } else {
        total(entries.drop_last()) + entries.last().1 as nat
    }
}

proof fn total_grows(entries: Seq<(Seq<char>, u64)>, at: int)
    requires
        0 <= at <= entries.len(),
    ensures
        total(entries.take(at)) <= total(entries),
    decreases entries.len() - at,
{
    if at < entries.len() {
        total_grows(entries, at + 1);
        assert(entries.take(at + 1).drop_last() =~= entries.take(at));
    } else {
        assert(entries.take(at) =~= entries);
    }
}

fn sum(map: &TextMap<u64>) -> (sum: u64)
    requires
        total(map@) <= u64::MAX,
    ensures
        sum == total(map@),
{
    let ghost entries = map@;
    let mut sum: u64 = 0;
    let mut at: usize = 0;
    while at < map.len()
        invariant
            at <= entries.len(),
            entries == map@,
            total(entries) <= u64::MAX,
            sum == total(entries.take(at as int)),
        decreases entries.len() - at,
    {
        proof {
            assert(entries.take(at + 1).drop_last() =~= entries.take(at as int));
            total_grows(entries, at + 1);
        }
        sum = sum + *map.value(at);
        at = at + 1;
    }
    assert(entries.take(at as int) =~= entries);
    sum
}

/// A text, or a word for a missing one.
pub open spec fn or_else(text: Option<String>, other: Seq<char>) -> Seq<char> {
    match text_view(text) {
        Some(text) => text,
        None => other,
    }
}

fn text_or_else(text: &Option<String>, other: &str) -> (shown: String)
    ensures
        shown@ == or_else(*text, other@),
{
    match text {
        Some(text) => text.clone(),
        None => other.to_owned(),
    }
}

/// A figure as it is shown: a dash where it is open.
pub open spec fn figure_of(figure: Option<String>) -> Seq<char> {
    or_else(figure, "—"@)
}

fn figure(words: &Option<String>) -> (shown: String)
    ensures
        shown@ == figure_of(*words),
{
    text_or_else(words, "—")
}

/// How much data went over the wire.
pub open spec fn data_of(total_data: u64, size_per_request: Option<u64>) -> Seq<char> {
    match size_per_request {
        Some(size) => bytes_of(total_data as nat) + " ("@ + bytes_of(size as nat)
            + " per request)"@,
        None => bytes_of(total_data as nat),
    }
}

/// The rows of the summary.
pub open spec fn summary_rows(
    benchmark: &Benchmark,
    request: &Request,
    forward: &Forward,
    options: OptionsView,
    url: Seq<char>,
) -> Seq<RowView> {
    let figures = &benchmark.figures;
    let rows = seq![
        ("Target"@, or_else(request.resource, "?"@) + "/"@ + or_else(request.name, "?"@)),
        ("Namespace"@, or_else(request.namespace, Seq::empty())),
        ("URL"@, url),
        (
            "Forwarded"@,
            decimal(forward.local_port as nat) + " -> "@ + decimal(forward.remote_port as nat),
        ),
        (
            "Requested"@,
            decimal(options.duration as nat) + "s, "@ + decimal(options.connections as nat)
                + " connections"@,
        ),
        (
            "Requests"@,
            thousands_of(total(benchmark.statuses@) + total(benchmark.errors@)),
        ),
        ("Success"@, figure_of(figures.success_rate)),
        ("Requests/sec"@, figure_of(figures.requests_per_sec)),
        ("Elapsed"@, figure_of(figures.elapsed)),
        ("Fastest"@, figure_of(figures.fastest)),
        ("Average"@, figure_of(figures.average)),
        ("Slowest"@, figure_of(figures.slowest)),
        ("p50"@, figure_of(figures.p50)),
        ("p90"@, figure_of(figures.p90)),
        ("p95"@, figure_of(figures.p95)),
        ("p99"@, figure_of(figures.p99)),
    ];
    match figures.total_data {
        Some(total_data) => rows.push(
            ("Data"@, data_of(total_data, figures.size_per_request)),
        ),
        None => rows,
    }
}

/// The section of a distribution, where it has any entries.
pub open spec fn distribution_sections(
    entries: Seq<(Seq<char>, u64)>,
    title: Seq<char>,
    columns: RowView,
) -> Seq<SectionView> {
    let dropped = (entries.len() - shown_count(entries.len())) as nat;
    if entries.len() == 0 {
        Seq::empty()
    } else {
        seq![
            SectionView {
                title: if dropped > 0 {
                    title + " ("@ + decimal(dropped) + " more not shown)"@
                } else {
                    title
                },
                body: BodyView::Table { columns, rows: distribution_rows(entries) },
            },
        ]
    }
}

/// The report of a benchmark.
pub open spec fn rendered_of(
    benchmark: &Benchmark,
    request: &Request,
    forward: &Forward,
    options: OptionsView,
    url: Seq<char>,
) -> ReportView {
    report_view(
        "HTTP benchmark"@,
        seq![
            table_view("Summary"@, summary_rows(benchmark, request, forward, options, url)),
        ] + distribution_sections(
            benchmark.statuses@,
            "Status codes"@,
            ("Code"@, "Responses"@),
        ) + distribution_sections(benchmark.errors@, "Errors"@, ("Error"@, "Count"@)),
    )
}

fn add_distribution(
    sections: &mut Vec<Section>,
    map: &TextMap<u64>,
    title: &str,
    first: &str,
    second: &str,
)
    ensures
        section_views(final(sections)@) == section_views(old(sections)@) + distribution_sections(
            map@,
            title@,
            (first@, second@),
        ),
{
    broadcast use group_report;

    let ghost known = section_views(sections@);
    let (rows, dropped) = distribution(map);
    proof {
        sorting_keeps_length(
            map@,
            |left: (Seq<char>, u64), right: (Seq<char>, u64)| shown_first(left, right),
        );
        assert(row_views(rows@).len() == rows@.len());
    }
    if rows.len() > 0 {
        let shown = if dropped > 0 {
            let count = size_text(dropped);
            glue4(title, " (", count.as_str(), " more not shown)")
        } else {
            title.to_owned()
        };
        sections.push(
            Section {
                title: shown,
                body: Body::Table { columns: (first.to_owned(), second.to_owned()), rows },
            },
        );
    }
    assert(section_views(sections@) =~= known + distribution_sections(
        map@,
        title@,
        (first@, second@),
    ));
}

/// The report of a benchmark.
pub fn render(
    benchmark: &Benchmark,
    request: &Request,
    forward: &Forward,
    options: &Options,
    url: &str,
) -> (report: Report)
    requires
        total(benchmark.statuses@) + total(benchmark.errors@) <= u64::MAX,
    ensures
        report@ == rendered_of(benchmark, request, forward, options@, url@),
{
    broadcast use group_report;

    let requests = sum(&benchmark.statuses) + sum(&benchmark.errors);
    let figures = &benchmark.figures;
    let resource = text_or_else(&request.resource, "?");
    let name = text_or_else(&request.name, "?");
    let local = count_text(forward.local_port as u64);
    let remote = count_text(forward.remote_port as u64);
    let duration = count_text(options.duration);
    let connections = count_text(options.connections as u64);
    let mut rows: Vec<(String, String)> = Vec::new();
    put_row(&mut rows, "Target", glue3(resource.as_str(), "/", name.as_str()));
    let namespace = match &request.namespace {
        Some(namespace) => namespace.clone(),
        None => String::new(),
    };
    put_row(&mut rows, "Namespace", namespace);
    put_row(&mut rows, "URL", url.to_owned());
    put_row(&mut rows, "Forwarded", glue3(local.as_str(), " -> ", remote.as_str()));
    put_row(
        &mut rows,
        "Requested",
        glue4(duration.as_str(), "s, ", connections.as_str(), " connections"),
    );
    put_row(&mut rows, "Requests", thousands(requests));
    put_row(&mut rows, "Success", figure(&figures.success_rate));
    put_row(&mut rows, "Requests/sec", figure(&figures.requests_per_sec));
    put_row(&mut rows, "Elapsed", figure(&figures.elapsed));
    put_row(&mut rows, "Fastest", figure(&figures.fastest));
    put_row(&mut rows, "Average", figure(&figures.average));
    put_row(&mut rows, "Slowest", figure(&figures.slowest));
    put_row(&mut rows, "p50", figure(&figures.p50));
    put_row(&mut rows, "p90", figure(&figures.p90));
    put_row(&mut rows, "p95", figure(&figures.p95));
    put_row(&mut rows, "p99", figure(&figures.p99));
    if let Some(total_data) = figures.total_data {
        let all = bytes(total_data);
        let shown = match figures.size_per_request {
            Some(size) => {
                let per = bytes(size);
                glue4(all.as_str(), " (", per.as_str(), " per request)")
            },
            None => all,
        };
        put_row(&mut rows, "Data", shown);
    }
    assert(row_views(rows@) =~= summary_rows(benchmark, request, forward, options@, url@));
    let mut sections: Vec<Section> = Vec::new();
    sections.push(table("Summary", rows));
    assert(section_views(sections@) =~= seq![
        table_view("Summary"@, summary_rows(benchmark, request, forward, options@, url@)),
    ]);
    add_distribution(&mut sections, &benchmark.statuses, "Status codes", "Code", "Responses");
    add_distribution(&mut sections, &benchmark.errors, "Errors", "Error", "Count");
    document("HTTP benchmark", sections)
}

} // verus!
