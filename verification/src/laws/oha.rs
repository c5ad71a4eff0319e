//! What a benchmark asks oha for and reports of it.
use crate::laws::reading::{
    decimals_are_spelled, given, giving, group_cells, spelled, told, two_numbers,
};
use crate::numbers::{decimal, decimal_reads_back};
use crate::oha::{
    arguments_of, as_double, bytes_of, commas_change_nothing_else, distribution_rows,
    distributions_are_ranked, figure_of, in_unit, options_of, or_else, ranked, refusal_of,
    rendered_of, rounded, shown_first, summary_rows, thousands_of, three_digits, total, url_of,
    without_commas, Benchmark, Forward, OptionsView, Request,
};
use crate::report::{table_view, BodyView, RowView, SectionView};
use crate::text::sorts_before;
use crate::text_map::text_at;
use vstd::prelude::*;

verus! {

// -------------------------------------------------------------------- options --

/// What is not asked for has its usual value, and a number is the one that was
/// asked for.
pub proof fn options_are_as_asked(inputs: Seq<(Seq<char>, String)>)
    ensures
        options_of(inputs) matches Ok(options) ==> {
            &&& text_at(inputs, "duration"@) is None ==> options.duration == 10
            &&& text_at(inputs, "connections"@) is None ==> options.connections == 20
            &&& text_at(inputs, "path"@) is None ==> options.path == "/"@
            &&& text_at(inputs, "path"@) matches Some(path) ==> options.path == path
            &&& text_at(inputs, "connections"@) matches Some(text) ==> (spelled(text) matches Some(
                number,
            ) ==> options.connections == number)
            &&& options.duration > 0
            &&& options.connections > 0
        },
        text_at(inputs, "duration"@) is None && text_at(inputs, "connections"@) is None
            ==> options_of(inputs) is Ok,
        text_at(inputs, "duration"@) is None ==> (text_at(inputs, "connections"@) matches Some(text)
            ==> (spelled(text) == Some(0nat) ==> options_of(inputs) == Err::<
            OptionsView,
            Seq<char>,
        >("connections must be at least 1"@))),
{
    if let Some(text) = text_at(inputs, "connections"@) {
        if spelled(text) is Some {
            assert('0' <= text[0] <= '9');
        }
    }
}

/// A benchmark needs a forwarded port and options that can be read.
pub proof fn benchmarks_need_a_port(request: &Request)
    ensures
        refusal_of(request) is None <==> request.schema_version == 1 && request.forward is Some
            && options_of(request.inputs@) is Ok,
        request.schema_version == 1 && request.forward is None ==> refusal_of(request) == Some(
            "sofka did not open a port-forward; run this on a pod or service"@,
        ),
        request.schema_version == 1 && request.forward is Some ==> (options_of(
            request.inputs@,
        ) matches Err(message) ==> refusal_of(request) == Some(message)),
{
}

/// The address is that of the local end of the port-forward, with the path from
/// its root.
pub proof fn addresses_are_local(forward: &Forward, path: Seq<char>)
    ensures
        exists|port: Seq<char>|
            #![trigger spelled(port)]
            spelled(port) == Some(forward.local_port as nat) && url_of(forward, path) == "http://"@
                + or_home(forward.host@) + ":"@ + port + from_root(path),
{
    broadcast use decimals_are_spelled;

    reveal_strlit("/");
    let port = decimal(forward.local_port as nat);
    if path.len() > 0 {
        assert(path.take(1)[0] == path[0]);
        if path[0] == '/' {
            assert(path.take(1) =~= "/"@);
        }
    }
    assert(spelled(port) == Some(forward.local_port as nat));
}

/// A host or, without one, this machine.
pub open spec fn or_home(host: Seq<char>) -> Seq<char> {
    if host.len() == 0 {
        "127.0.0.1"@
    } else {
        host
    }
}

/// A path that starts with a slash.
pub open spec fn from_root(path: Seq<char>) -> Seq<char> {
    if path.len() > 0 && path[0] == '/' {
        path
    } else {
        "/"@ + path
    }
}

/// oha is told how long to go on, over how many connections, and where to.
pub proof fn benchmarks_are_as_asked(url: Seq<char>, options: OptionsView)
    ensures
        ({
            let arguments = arguments_of(url, options);
            &&& arguments.contains("--no-tui"@)
            &&& given(arguments, "--output-format"@, "json"@)
            &&& exists|number: Seq<char>|
                #![trigger spelled(number)]
                spelled(number) == Some(options.duration as nat) && given(
                    arguments,
                    "-z"@,
                    number + "s"@,
                )
            &&& exists|number: Seq<char>|
                #![trigger spelled(number)]
                spelled(number) == Some(options.connections as nat) && given(
                    arguments,
                    "-c"@,
                    number,
                )
            &&& arguments.last() == url
            &&& arguments.len() == 8
        }),
{
    broadcast use decimals_are_spelled;

    let arguments = arguments_of(url, options);
    assert(arguments[0] == "--no-tui"@);
    giving(arguments, 1);
    giving(arguments, 3);
    giving(arguments, 5);
    assert(spelled(decimal(options.duration as nat)) == Some(options.duration as nat));
    assert(spelled(decimal(options.connections as nat)) == Some(options.connections as nat));
}

// -------------------------------------------------------------------- summary --

/// A figure or, where it is open, a dash.
pub open spec fn or_dash(figure: Option<String>) -> Seq<char> {
    match figure {
        Some(text) => text@,
        None => "—"@,
    }
}

/// A name or, where it is open, a question mark.
pub open spec fn or_question(name: Option<String>) -> Seq<char> {
    match name {
        Some(text) => text@,
        None => "?"@,
    }
}

/// The counts of a distribution added up from its first entry on.
pub open spec fn sum(entries: Seq<(Seq<char>, u64)>) -> nat
    decreases entries.len(),
{
    if entries.len() == 0 {
        0
    } else {
        entries[0].1 as nat + sum(entries.drop_first())
    }
}

proof fn totals_are_sums(entries: Seq<(Seq<char>, u64)>)
    ensures
        total(entries) == sum(entries),
    decreases entries.len(),
{
    if entries.len() == 1 {
        assert(entries.drop_last() =~= Seq::empty());
        assert(entries.drop_first() =~= Seq::empty());
        assert(total(entries.drop_last()) == 0);
        assert(sum(entries.drop_first()) == 0);
    } else if entries.len() > 1 {
        let inner = entries.drop_first();
        totals_are_sums(inner);
        totals_are_sums(entries.drop_last());
        totals_are_sums(inner.drop_last());
        assert(entries.drop_last().drop_first() =~= inner.drop_last());
        assert(entries.drop_last()[0] == entries[0]);
        assert(inner.last() == entries.last());
    }
}

proof fn row_names()
    ensures
        "Target"@.len() == 6,
        "Namespace"@.len() == 9 && "Namespace"@[0] == 'N',
        "URL"@.len() == 3 && "URL"@[1] == 'R' && "URL"@[2] == 'L',
        "Forwarded"@.len() == 9 && "Forwarded"@[0] == 'F',
        "Requested"@.len() == 9 && "Requested"@[0] == 'R',
        "Requests"@.len() == 8,
        "Success"@.len() == 7 && "Success"@[2] == 'c',
        "Requests/sec"@.len() == 12,
        "Elapsed"@.len() == 7 && "Elapsed"@[2] == 'a',
        "Fastest"@.len() == 7 && "Fastest"@[2] == 's',
        "Average"@.len() == 7 && "Average"@[2] == 'e',
        "Slowest"@.len() == 7 && "Slowest"@[2] == 'o',
        "p50"@.len() == 3 && "p50"@[1] == '5' && "p50"@[2] == '0',
        "p90"@.len() == 3 && "p90"@[1] == '9' && "p90"@[2] == '0',
        "p95"@.len() == 3 && "p95"@[1] == '9' && "p95"@[2] == '5',
        "p99"@.len() == 3 && "p99"@[1] == '9' && "p99"@[2] == '9',
        "Data"@.len() == 4,
        "Namespace"@ != "Forwarded"@,
        "Namespace"@ != "Requested"@,
        "Forwarded"@ != "Requested"@,
        "URL"@ != "p50"@,
        "URL"@ != "p90"@,
        "URL"@ != "p95"@,
        "URL"@ != "p99"@,
        "p50"@ != "p90"@,
        "p50"@ != "p95"@,
        "p50"@ != "p99"@,
        "p90"@ != "p95"@,
        "p90"@ != "p99"@,
        "p95"@ != "p99"@,
        "Success"@ != "Elapsed"@,
        "Success"@ != "Fastest"@,
        "Success"@ != "Average"@,
        "Success"@ != "Slowest"@,
        "Elapsed"@ != "Fastest"@,
        "Elapsed"@ != "Average"@,
        "Elapsed"@ != "Slowest"@,
        "Fastest"@ != "Average"@,
        "Fastest"@ != "Slowest"@,
        "Average"@ != "Slowest"@,
{
    reveal_strlit("Target");
    reveal_strlit("Namespace");
    reveal_strlit("URL");
    reveal_strlit("Forwarded");
    reveal_strlit("Requested");
    reveal_strlit("Requests");
    reveal_strlit("Success");
    reveal_strlit("Requests/sec");
    reveal_strlit("Elapsed");
    reveal_strlit("Fastest");
    reveal_strlit("Average");
    reveal_strlit("Slowest");
    reveal_strlit("p50");
    reveal_strlit("p90");
    reveal_strlit("p95");
    reveal_strlit("p99");
    reveal_strlit("Data");
    assert("Namespace"@[0] != "Forwarded"@[0]);
    assert("Namespace"@[0] != "Requested"@[0]);
    assert("Forwarded"@[0] != "Requested"@[0]);
    assert("URL"@[0] != "p50"@[0]);
    assert("URL"@[0] != "p90"@[0]);
    assert("URL"@[0] != "p95"@[0]);
    assert("URL"@[0] != "p99"@[0]);
    assert("p50"@[1] != "p90"@[1]);
    assert("p50"@[1] != "p95"@[1]);
    assert("p50"@[1] != "p99"@[1]);
    assert("p90"@[2] != "p95"@[2]);
    assert("p90"@[2] != "p99"@[2]);
    assert("p95"@[2] != "p99"@[2]);
    assert("Success"@[0] != "Elapsed"@[0]);
    assert("Success"@[0] != "Fastest"@[0]);
    assert("Success"@[0] != "Average"@[0]);
    assert("Success"@[1] != "Slowest"@[1]);
    assert("Elapsed"@[0] != "Fastest"@[0]);
    assert("Elapsed"@[0] != "Average"@[0]);
    assert("Elapsed"@[0] != "Slowest"@[0]);
    assert("Fastest"@[0] != "Average"@[0]);
    assert("Fastest"@[0] != "Slowest"@[0]);
    assert("Average"@[0] != "Slowest"@[0]);
}

/// The summary gives every figure under its own name, and the number of requests
/// is that of all answers and all errors.
#[verifier::spinoff_prover]
#[verifier::rlimit(60)]
pub proof fn summaries_give_every_figure(
    benchmark: &Benchmark,
    request: &Request,
    forward: &Forward,
    options: OptionsView,
    url: Seq<char>,
)
    ensures
        ({
            let report = rendered_of(benchmark, request, forward, options, url);
            &&& told(report, "Target"@) == Some(
                or_question(request.resource) + "/"@ + or_question(request.name),
            )
            &&& request.namespace matches Some(namespace) ==> told(report, "Namespace"@) == Some(
                namespace@,
            )
            &&& told(report, "URL"@) == Some(url)
            &&& report.title == "HTTP benchmark"@
            &&& told(report, "Forwarded"@) matches Some(text) && two_numbers(
                text,
                forward.local_port as nat,
                " -> "@,
                forward.remote_port as nat,
                Seq::empty(),
            )
            &&& told(report, "Requested"@) matches Some(text) && two_numbers(
                text,
                options.duration as nat,
                "s, "@,
                options.connections as nat,
                " connections"@,
            )
            &&& told(report, "Requests"@) matches Some(text) && spelled(without_commas(text))
                == Some(sum(benchmark.statuses@) + sum(benchmark.errors@))
            &&& told(report, "Success"@) == Some(or_dash(benchmark.figures.success_rate))
            &&& told(report, "Requests/sec"@) == Some(or_dash(benchmark.figures.requests_per_sec))
            &&& told(report, "Elapsed"@) == Some(or_dash(benchmark.figures.elapsed))
            &&& told(report, "Fastest"@) == Some(or_dash(benchmark.figures.fastest))
            &&& told(report, "Average"@) == Some(or_dash(benchmark.figures.average))
            &&& told(report, "Slowest"@) == Some(or_dash(benchmark.figures.slowest))
            &&& told(report, "p50"@) == Some(or_dash(benchmark.figures.p50))
            &&& told(report, "p90"@) == Some(or_dash(benchmark.figures.p90))
            &&& told(report, "p95"@) == Some(or_dash(benchmark.figures.p95))
            &&& told(report, "p99"@) == Some(or_dash(benchmark.figures.p99))
            &&& benchmark.figures.total_data is None <==> told(report, "Data"@) is None
            &&& benchmark.figures.total_data matches Some(size) ==> told(report, "Data"@) == Some(
                match benchmark.figures.size_per_request {
                    Some(each) => bytes_of(size as nat) + " ("@ + bytes_of(each as nat)
                        + " per request)"@,
                    None => bytes_of(size as nat),
                },
            )
        }),
{
    broadcast use {group_cells, decimals_are_spelled};

    row_names();
    let figures = &benchmark.figures;
    totals_are_sums(benchmark.statuses@);
    totals_are_sums(benchmark.errors@);
    let requests = total(benchmark.statuses@) + total(benchmark.errors@);
    commas_change_nothing_else(requests);
    assert(spelled(decimal(requests)) is Some);
    assert(spelled(decimal(forward.local_port as nat)) == Some(forward.local_port as nat));
    assert(spelled(decimal(forward.remote_port as nat)) == Some(forward.remote_port as nat));
    assert(spelled(decimal(options.duration as nat)) == Some(options.duration as nat));
    assert(spelled(decimal(options.connections as nat)) == Some(options.connections as nat));
    let ports = decimal(forward.local_port as nat) + " -> "@ + decimal(forward.remote_port as nat);
    assert(ports + Seq::<char>::empty() =~= ports);
    let asked = decimal(options.duration as nat) + "s, "@ + decimal(options.connections as nat)
        + " connections"@;
    let rows = seq![
        ("Target"@, or_else(request.resource, "?"@) + "/"@ + or_else(request.name, "?"@)),
        ("Namespace"@, or_else(request.namespace, Seq::empty())),
        ("URL"@, url),
        ("Forwarded"@, ports),
        ("Requested"@, asked),
        ("Requests"@, thousands_of(total(benchmark.statuses@) + total(benchmark.errors@))),
        ("Success"@, figure_of(figures.success_rate)),
        ("Requests/sec"@, figure_of(figures.requests_per_sec)),
        ("Elapsed"@, figure_of(figures.elapsed)),
        ("Fastest"@, figure_of(figures.fastest)),
        ("Average"@, figure_of(figures.average)),
        ("Slowest"@, figure_of(figures.slowest)),
        ("p50"@, figure_of(figures.p50)),
        ("p90"@, figure_of(figures.p90)),
        ("p95"@, figure_of(figures.p95)),
        ("p99"@, figure_of(figures.p99)),
    ];
    let empty = Seq::<RowView>::empty();
    let first = empty.push(rows[0]).push(rows[1]).push(rows[2]).push(rows[3]).push(rows[4]);
    let second = first.push(rows[5]).push(rows[6]).push(rows[7]).push(rows[8]).push(rows[9]);
    let third = second.push(rows[10]).push(rows[11]).push(rows[12]).push(rows[13]).push(rows[14]);
    assert(rows =~= third.push(rows[15]));
    let report = rendered_of(benchmark, request, forward, options, url);
    assert(report.sections[0] == table_view(
        "Summary"@,
        summary_rows(benchmark, request, forward, options, url),
    ));
}

// -------------------------------------------------------------- distributions --

/// Whether a row shows an entry: its key, and its count with commas.
pub open spec fn shows(row: RowView, entry: (Seq<char>, u64)) -> bool {
    row.0 == entry.0 && spelled(without_commas(row.1)) == Some(entry.1 as nat)
}

/// Whether an entry comes before another in a table: it has the higher count or,
/// with the same count, the key that sorts first.
pub open spec fn outranks(left: (Seq<char>, u64), right: (Seq<char>, u64)) -> bool {
    left.1 > right.1 || (left.1 == right.1 && sorts_before(left.0, right.0))
}

/// Whether a row shows one of the entries, one that another does not outrank.
pub open spec fn shows_one(
    row: RowView,
    entries: Seq<(Seq<char>, u64)>,
    other: (Seq<char>, u64),
) -> bool {
    exists|k: int|
        0 <= k < entries.len() && shows(row, #[trigger] entries[k]) && !outranks(other, entries[k])
}

/// At most 64 entries are shown. Each row shows an entry, and an entry that is
/// left out outranks none that is shown.
pub proof fn the_largest_entries_are_shown(entries: Seq<(Seq<char>, u64)>, at: int)
    requires
        0 <= at < entries.len(),
    ensures
        ({
            let rows = distribution_rows(entries);
            &&& rows.len() == if entries.len() < 64 {
                entries.len()
            } else {
                64
            }
            &&& (exists|i: int| 0 <= i < rows.len() && shows(#[trigger] rows[i], entries[at])) || (
            forall|i: int|
                0 <= i < rows.len() ==> shows_one(#[trigger] rows[i], entries, entries[at]))
        }),
{
    broadcast use {vstd::seq_lib::group_to_multiset_ensures, decimals_are_spelled};

    let all = ranked(entries);
    let rows = distribution_rows(entries);
    let first = |left: (Seq<char>, u64), right: (Seq<char>, u64)| shown_first(left, right);
    distributions_are_ranked(entries);
    assert(entries.to_multiset().count(entries[at]) > 0);
    assert(all.contains(entries[at]));
    assert(all.len() == all.to_multiset().len());
    assert(entries.len() == entries.to_multiset().len());
    let rank = choose|k: int| 0 <= k < all.len() && all[k] == entries[at];
    assert forall|i: int| 0 <= i < rows.len() implies shows(#[trigger] rows[i], all[i]) by {
        commas_change_nothing_else(all[i].1 as nat);
        assert(spelled(decimal(all[i].1 as nat)) is Some);
    }
    if rank < rows.len() {
        assert(shows(rows[rank], entries[at]));
    } else {
        assert forall|i: int| 0 <= i < rows.len() implies shows_one(
            #[trigger] rows[i],
            entries,
            entries[at],
        ) by {
            assert(all.to_multiset().count(all[i]) > 0);
            assert(entries.contains(all[i]));
            let k = choose|k: int| 0 <= k < entries.len() && entries[k] == all[i];
            assert(shows(rows[i], entries[k]));
            assert(!first(all[rank], all[i]));
        }
    }
}

/// The larger of two counts is shown first.
pub proof fn larger_counts_are_shown_first(entries: Seq<(Seq<char>, u64)>, i: int, j: int)
    requires
        0 <= i < j < distribution_rows(entries).len(),
    ensures
        ({
            let rows = distribution_rows(entries);
            let one = spelled(without_commas(rows[i].1));
            let other = spelled(without_commas(rows[j].1));
            one is Some && other is Some && one->0 >= other->0
        }),
{
    broadcast use {vstd::seq_lib::group_to_multiset_ensures, decimals_are_spelled};

    let all = ranked(entries);
    let first = |left: (Seq<char>, u64), right: (Seq<char>, u64)| shown_first(left, right);
    distributions_are_ranked(entries);
    commas_change_nothing_else(all[i].1 as nat);
    commas_change_nothing_else(all[j].1 as nat);
    assert(spelled(decimal(all[i].1 as nat)) is Some);
    assert(spelled(decimal(all[j].1 as nat)) is Some);
    assert(all.len() == all.to_multiset().len());
    assert(entries.len() == entries.to_multiset().len());
    assert(!first(all[j], all[i]));
}

/// Whether a section shows a distribution, and says how many entries it leaves
/// out.
pub open spec fn is_distribution(
    section: SectionView,
    title: Seq<char>,
    columns: RowView,
    entries: Seq<(Seq<char>, u64)>,
) -> bool {
    &&& section.body == (BodyView::Table { columns, rows: distribution_rows(entries) })
    &&& entries.len() <= 64 ==> section.title == title
    &&& entries.len() > 64 ==> exists|number: Seq<char>|
        #![trigger spelled(number)]
        spelled(number) == Some((entries.len() - 64) as nat) && section.title == title + " ("@
            + number + " more not shown)"@
}

/// The status codes are shown where there are any, and then the errors where there
/// are any.
pub proof fn distributions_are_shown(
    benchmark: &Benchmark,
    request: &Request,
    forward: &Forward,
    options: OptionsView,
    url: Seq<char>,
)
    ensures
        ({
            let sections = rendered_of(benchmark, request, forward, options, url).sections;
            let statuses = benchmark.statuses@;
            let errors = benchmark.errors@;
            &&& statuses.len() == 0 && errors.len() == 0 <==> sections.len() == 1
            &&& statuses.len() > 0 ==> is_distribution(
                sections[1],
                "Status codes"@,
                ("Code"@, "Responses"@),
                statuses,
            )
            &&& errors.len() > 0 ==> is_distribution(
                sections.last(),
                "Errors"@,
                ("Error"@, "Count"@),
                errors,
            )
            &&& statuses.len() > 0 && errors.len() > 0 ==> sections.len() == 3
        }),
{
    broadcast use decimals_are_spelled;

    let statuses = benchmark.statuses@;
    let errors = benchmark.errors@;
    if statuses.len() > 64 {
        let more = (statuses.len() - 64) as nat;
        assert(spelled(decimal(more)) == Some(more));
    }
    if errors.len() > 64 {
        let more = (errors.len() - 64) as nat;
        assert(spelled(decimal(more)) == Some(more));
    }
}

// --------------------------------------------------------------------- commas --

/// A comma stands before every three digits from the end, and nowhere else.
pub proof fn commas_come_every_three_digits(value: nat)
    ensures
        ({
            let text = thousands_of(value);
            &&& text.len() % 4 != 0
            &&& forall|i: int|
                0 <= i < text.len() ==> (#[trigger] text[i] == ',' <==> (text.len() - i) % 4 == 0)
        }),
    decreases value,
{
    reveal_strlit(",");
    let text = thousands_of(value);
    if value < 1000 {
        small_numbers_are_short(value);
        decimal_reads_back(value);
    } else {
        let before = thousands_of(value / 1000);
        commas_come_every_three_digits(value / 1000);
        let digits = three_digits(value % 1000);
        assert(text.len() == before.len() + 4);
        assert forall|i: int| 0 <= i < text.len() implies (#[trigger] text[i] == ',' <==> (
        text.len() - i) % 4 == 0) by {
            if i < before.len() {
                assert(text[i] == before[i]);
            } else if i == before.len() {
                assert(text[i] == ',');
            } else {
                assert(text[i] == digits[i - before.len() - 1]);
            }
        }
    }
}

proof fn small_numbers_are_short(value: nat)
    requires
        value < 1000,
    ensures
        1 <= decimal(value).len() <= 3,
{
    reveal_with_fuel(decimal, 3);
}

// ---------------------------------------------------------------------- sizes --

/// Whether a text is a size in a unit to one decimal place, rounded to the nearest.
pub open spec fn is_size(text: Seq<char>, value: nat, unit: nat, name: Seq<char>) -> bool {
    exists|whole: Seq<char>, tenth: Seq<char>, tenths: nat|
        #![trigger two_digits(whole, tenth, tenths)]
        two_digits(whole, tenth, tenths) && text == whole + "."@ + tenth + name && 2 * tenths * unit
            <= 20 * value + unit && 20 * value <= 2 * tenths * unit + unit
}

/// Whether a number of tenths is written as a whole number and one digit.
pub open spec fn two_digits(whole: Seq<char>, tenth: Seq<char>, tenths: nat) -> bool {
    &&& tenth.len() == 1
    &&& spelled(whole) == Some(tenths / 10)
    &&& spelled(tenth) == Some(tenths % 10)
}

proof fn sizes_are_rounded(value: nat, unit: nat, name: Seq<char>)
    requires
        value < 0x20_0000_0000_0000,
        unit > 0,
    ensures
        is_size(in_unit(value, unit, name), value, unit, name),
{
    broadcast use decimals_are_spelled;

    assert(as_double(value) == value) by {
        assert(rounded(value, 1) == value);
    }
    let tenths = rounded(as_double(value) * 10, unit);
    let whole = (value * 10) / unit;
    let rest = (value * 10) % unit;
    vstd::arithmetic::div_mod::lemma_fundamental_div_mod((value * 10) as int, unit as int);
    vstd::arithmetic::div_mod::lemma_mod_bound((value * 10) as int, unit as int);
    assert(value * 10 == unit * whole + rest);
    assert(tenths == whole || tenths == whole + 1);
    assert((whole + 1) * unit == whole * unit + unit) by (nonlinear_arith);
    assert(whole * unit == unit * whole) by (nonlinear_arith);
    assert(2 * tenths * unit == 2 * (tenths * unit)) by (nonlinear_arith);
    assert(spelled(decimal(tenths / 10)) is Some && spelled(decimal(tenths % 10)) is Some);
    assert(two_digits(decimal(tenths / 10), decimal(tenths % 10), tenths));
}

/// A size is given in the largest of bytes, KiB, MiB and GiB that it fills, whole
/// in bytes and to the nearest tenth in the others.
pub proof fn sizes_are_in_the_largest_unit(value: nat)
    requires
        value < 0x20_0000_0000_0000,
    ensures
        value < 1024 ==> exists|number: Seq<char>|
            #![trigger spelled(number)]
            spelled(number) == Some(value) && bytes_of(value) == number + " B"@,
        1024 <= value < 1048576 ==> is_size(bytes_of(value), value, 1024, " KiB"@),
        1048576 <= value < 1073741824 ==> is_size(bytes_of(value), value, 1048576, " MiB"@),
        1073741824 <= value ==> is_size(bytes_of(value), value, 1073741824, " GiB"@),
{
    broadcast use decimals_are_spelled;

    assert(spelled(decimal(value)) == Some(value));
    sizes_are_rounded(value, 1024, " KiB"@);
    sizes_are_rounded(value, 1048576, " MiB"@);
    sizes_are_rounded(value, 1073741824, " GiB"@);
}

} // verus!
