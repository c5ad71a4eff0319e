//! Benchmarks with oha.

use sofka_plugins::oha::{
    benchmark_command, bytes, configure, distribution, plan, render, run_error, thousands, url,
    Benchmark, Figures, Forward, Options, Request, MAX_DISTRIBUTION_ROWS,
};
use sofka_plugins::report::{Body, Report};
use sofka_plugins::text_map::TextMap;

fn inputs(entries: &[(&str, &str)]) -> TextMap<String> {
    let mut map: TextMap<String> = TextMap::new();
    for (key, value) in entries {
        map.insert(key.to_string(), value.to_string());
    }
    map
}

fn counts(entries: &[(&str, u64)]) -> TextMap<u64> {
    let mut map: TextMap<u64> = TextMap::new();
    for (key, value) in entries {
        map.insert(key.to_string(), *value);
    }
    map
}

fn forward() -> Forward {
    Forward { host: "127.0.0.1".to_string(), local_port: 32123, remote_port: 80 }
}

fn request() -> Request {
    Request {
        schema_version: 1,
        namespace: Some("apps".to_string()),
        resource: Some("services".to_string()),
        name: Some("web".to_string()),
        inputs: inputs(&[
            ("connections", "20"),
            ("duration", "3s"),
            ("report", "plugins/oha/fixtures/scan.json"),
        ]),
        forward: Some(forward()),
    }
}

fn figures() -> Figures {
    Figures {
        success_rate: Some("100.00%".to_string()),
        requests_per_sec: Some("7205.7".to_string()),
        elapsed: Some("3.00s".to_string()),
        fastest: Some("218µs".to_string()),
        average: Some("2.8ms".to_string()),
        slowest: Some("1.44s".to_string()),
        p50: Some("635µs".to_string()),
        p90: Some("1.2ms".to_string()),
        p95: Some("3.4ms".to_string()),
        p99: Some("31.0ms".to_string()),
        total_data: Some(22_155_264),
        size_per_request: Some(1024),
    }
}

fn rows(report: &Report, section: usize) -> Vec<(String, String)> {
    match &report.sections[section].body {
        Body::Table { rows, .. } => rows.clone(),
        Body::Lines { .. } => panic!("section {section} is not a table"),
    }
}

fn value(report: &Report, field: &str) -> String {
    rows(report, 0).into_iter().find(|(key, _)| key == field).unwrap().1
}

#[test]
fn a_real_oha_report_renders_the_numbers_it_reported() {
    let request = request();
    let accepted = plan(&request).unwrap();
    let report = render(
        &Benchmark {
            figures: figures(),
            statuses: counts(&[("200", 21_636)]),
            errors: counts(&[("aborted due to deadline", 9)]),
        },
        &request,
        &forward(),
        &accepted.options,
        &accepted.url,
    );
    // 21,636 served plus the 9 aborted at the deadline.
    assert_eq!(value(&report, "Requests"), "21,645");
    assert_eq!(value(&report, "Success"), "100.00%");
    assert_eq!(value(&report, "Requests/sec"), "7205.7");
    assert_eq!(value(&report, "Elapsed"), "3.00s");
    assert_eq!(value(&report, "Fastest"), "218µs");
    assert_eq!(value(&report, "p50"), "635µs");
    assert_eq!(value(&report, "p99"), "31.0ms");
    assert_eq!(value(&report, "Data"), "21.1 MiB (1.0 KiB per request)");
    assert_eq!(rows(&report, 1)[0], ("200".to_string(), "21,636".to_string()));
    assert_eq!(
        rows(&report, 2)[0],
        ("aborted due to deadline".to_string(), "9".to_string())
    );
    let expected = [
        ("Target", "services/web"),
        ("Namespace", "apps"),
        ("URL", "http://127.0.0.1:32123/"),
        ("Forwarded", "32123 -> 80"),
        ("Requested", "3s, 20 connections"),
        ("Requests", "21,645"),
        ("Success", "100.00%"),
        ("Requests/sec", "7205.7"),
        ("Elapsed", "3.00s"),
        ("Fastest", "218µs"),
        ("Average", "2.8ms"),
        ("Slowest", "1.44s"),
        ("p50", "635µs"),
        ("p90", "1.2ms"),
        ("p95", "3.4ms"),
        ("p99", "31.0ms"),
        ("Data", "21.1 MiB (1.0 KiB per request)"),
    ];
    assert_eq!(
        rows(&report, 0),
        expected.map(|(field, value)| (field.to_string(), value.to_string()))
    );
    assert_eq!(report.title, "HTTP benchmark");
    assert_eq!(report.sections[1].title, "Status codes");
    assert_eq!(report.sections[2].title, "Errors");
}

#[test]
fn a_run_that_completed_nothing_still_reports_its_errors() {
    let report = render(
        &Benchmark {
            figures: Figures {
                success_rate: None,
                requests_per_sec: None,
                elapsed: None,
                fastest: None,
                average: None,
                slowest: None,
                p50: None,
                p90: None,
                p95: None,
                p99: None,
                total_data: None,
                size_per_request: None,
            },
            statuses: TextMap::new(),
            errors: counts(&[("connection refused", 5)]),
        },
        &Request { namespace: None, resource: None, name: None, ..request() },
        &forward(),
        &Options { duration: 3, connections: 20, path: "/".to_string() },
        "http://127.0.0.1:32123/",
    );
    assert_eq!(value(&report, "Requests"), "5");
    for field in [
        "Success",
        "Requests/sec",
        "Elapsed",
        "Fastest",
        "Average",
        "Slowest",
        "p50",
        "p90",
        "p95",
        "p99",
    ] {
        assert_eq!(value(&report, field), "—", "{field}");
    }
    assert_eq!(value(&report, "Target"), "?/?");
    assert_eq!(value(&report, "Namespace"), "");
    assert!(!rows(&report, 0).iter().any(|row| row.0 == "Data"));
    // No status codes at all, so that section is left out entirely.
    assert_eq!(report.sections.len(), 2);
    assert_eq!(report.sections[1].title, "Errors");
}

#[test]
fn without_a_forward_there_is_nothing_to_benchmark() {
    let refusal = |request: Request| match plan(&request) {
        Ok(_) => panic!("the request was accepted"),
        Err(message) => message,
    };
    assert!(refusal(Request { forward: None, ..request() })
        .contains("did not open a port-forward"));
    assert_eq!(
        refusal(Request { schema_version: 2, ..request() }),
        "unsupported request schema_version"
    );
    assert_eq!(
        refusal(Request { inputs: inputs(&[("connections", "0")]), ..request() }),
        "connections must be at least 1"
    );
    let accepted = plan(&request()).unwrap();
    assert_eq!(accepted.saved, "plugins/oha/fixtures/scan.json");
    assert_eq!(accepted.url, "http://127.0.0.1:32123/");
}

#[test]
fn the_url_comes_from_the_forward_sofka_opened() {
    let forward = forward();
    assert_eq!(url(&forward, "/"), "http://127.0.0.1:32123/");
    assert_eq!(url(&forward, "/healthz"), "http://127.0.0.1:32123/healthz");
    // A path without its leading slash is still a path.
    assert_eq!(url(&forward, "healthz"), "http://127.0.0.1:32123/healthz");
    let empty = Forward { host: String::new(), ..forward };
    assert_eq!(url(&empty, "/"), "http://127.0.0.1:32123/");
}

#[test]
fn inputs_are_read_with_defaults_and_rejected_when_nonsense() {
    let options = Options::from(&TextMap::new()).unwrap();
    assert_eq!((options.duration, options.connections), (10, 20));
    assert_eq!(options.path, "/");

    let parsed = |pairs: &[(&str, &str)]| Options::from(&inputs(pairs));
    assert_eq!(parsed(&[("duration", "2m")]).unwrap().duration, 120);
    assert_eq!(parsed(&[("duration", "45")]).unwrap().duration, 45);
    assert!(parsed(&[("duration", "10w")]).is_err());
    assert!(parsed(&[("duration", "0s")]).is_err());
    assert!(parsed(&[("connections", "0")]).is_err());
    assert!(parsed(&[("connections", "many")]).is_err());
}

#[test]
fn inputs_are_refused_in_their_own_words() {
    let parsed = |pairs: &[(&str, &str)]| Options::from(&inputs(pairs));
    assert_eq!(parsed(&[("duration", "1h")]).unwrap().duration, 3600);
    assert_eq!(parsed(&[("connections", "+7")]).unwrap().connections, 7);
    assert_eq!(parsed(&[("path", "")]).unwrap().path, "");
    assert_eq!(
        parsed(&[("duration", "soon")]).unwrap_err(),
        "duration must be a positive time like \"10s\""
    );
    assert_eq!(
        parsed(&[("connections", "4294967296")]).unwrap_err(),
        "connections must be a positive whole number"
    );
    assert_eq!(
        parsed(&[("connections", "0")]).unwrap_err(),
        "connections must be at least 1"
    );
}

#[test]
fn oha_is_invoked_for_the_requested_duration_and_concurrency() {
    let options = Options { duration: 30, connections: 50, path: "/healthz".to_string() };
    let arguments = configure("http://127.0.0.1:32123/healthz", &options);
    assert_eq!(
        arguments,
        [
            "--no-tui",
            "--output-format",
            "json",
            "-z",
            "30s",
            "-c",
            "50",
            "http://127.0.0.1:32123/healthz",
        ]
    );
    assert_eq!(
        benchmark_command(Some("/bin/oha".to_string()), "http://127.0.0.1:32123/healthz", &options),
        Ok(("/bin/oha".to_string(), arguments))
    );
    assert_eq!(
        benchmark_command(None, "", &options),
        Err("oha is not on PATH; install it from https://github.com/hatoo/oha#installation".to_string())
    );
}

#[test]
fn a_failed_run_reports_what_oha_said_rather_than_how_it_died() {
    assert_eq!(
        run_error(
            Some("invalid JSON from oha: EOF".to_string()),
            "signal: 13 (SIGPIPE)",
            b"error: connection refused\n",
        ),
        "oha failed: error: connection refused"
    );
    assert_eq!(
        run_error(Some("invalid JSON from oha: EOF".to_string()), "exit status: 1", b""),
        "invalid JSON from oha: EOF"
    );
    assert_eq!(
        run_error(None, "exit status: 2", b""),
        "oha exited with exit status: 2: no error output"
    );
}

#[test]
fn remote_distributions_are_ordered_and_capped() {
    let mut many: TextMap<u64> = TextMap::new();
    for i in 0..MAX_DISTRIBUTION_ROWS + 10 {
        many.insert(format!("code-{i:03}"), i as u64);
    }
    let (rows, dropped) = distribution(&many);
    assert_eq!(rows.len(), MAX_DISTRIBUTION_ROWS);
    assert_eq!(dropped, 10);
    // Largest first.
    assert_eq!(rows[0].1, thousands(MAX_DISTRIBUTION_ROWS as u64 + 9));
    let (rows, dropped) = distribution(&counts(&[("b", 2), ("c", 1000), ("a", 2)]));
    assert_eq!(dropped, 0);
    assert_eq!(
        rows,
        [("c", "1,000"), ("a", "2"), ("b", "2")]
            .map(|(key, count)| (key.to_string(), count.to_string()))
    );
}

#[test]
fn a_capped_distribution_says_how_much_is_missing() {
    let mut many: TextMap<u64> = TextMap::new();
    for i in 0..MAX_DISTRIBUTION_ROWS + 3 {
        many.insert(format!("{i}"), 1);
    }
    let report = render(
        &Benchmark { figures: figures(), statuses: many, errors: TextMap::new() },
        &request(),
        &forward(),
        &Options { duration: 3, connections: 20, path: "/".to_string() },
        "http://127.0.0.1:32123/",
    );
    assert_eq!(report.sections[1].title, "Status codes (3 more not shown)");
    assert_eq!(report.sections.len(), 2);
}

#[test]
fn numbers_read_the_way_a_person_scans_them() {
    assert_eq!(thousands(21_645), "21,645");
    assert_eq!(thousands(0), "0");
    assert_eq!(thousands(999), "999");
    assert_eq!(bytes(512), "512 B");
    assert_eq!(bytes(22_155_264), "21.1 MiB");
}

/// The size as double-precision arithmetic gives it.
fn float_bytes(value: u64) -> String {
    let units = ["B", "KiB", "MiB", "GiB"];
    let mut size = value as f64;
    let mut unit = 0;
    while size >= 1024.0 && unit + 1 < units.len() {
        size /= 1024.0;
        unit += 1;
    }
    if unit == 0 {
        format!("{value} B")
    } else {
        format!("{size:.1} {}", units[unit])
    }
}

#[test]
fn sizes_round_as_doubles_do() {
    let mut values: Vec<u64> = vec![
        0,
        1,
        1023,
        1024,
        1025,
        1075,
        1076,
        1126,
        1177,
        1280,
        1408,
        1536,
        1_048_575,
        1_048_576,
        1_310_720,
        1_073_741_823,
        1_073_741_824,
        1_342_177_280,
        (1 << 53) - 1,
        1 << 53,
        (1 << 53) + 1,
        (1 << 54) + 2,
        (1 << 60) + 129,
        u64::MAX - 1024,
        u64::MAX - 1023,
        u64::MAX,
    ];
    let mut state: u64 = 88172645463325252;
    for _ in 0..20_000 {
        state ^= state << 13;
        state ^= state >> 7;
        state ^= state << 17;
        values.push(state >> (state % 64));
    }
    for value in values {
        assert_eq!(bytes(value), float_bytes(value), "{value}");
    }
}

#[test]
fn thousands_are_parted_by_commas() {
    assert_eq!(thousands(1_000), "1,000");
    assert_eq!(thousands(999_999), "999,999");
    assert_eq!(thousands(u64::MAX), "18,446,744,073,709,551,615");
    for value in [7, 70, 700, 7_000, 70_000, 700_000, 7_000_000] {
        assert_eq!(thousands(value).replace(',', ""), value.to_string());
    }
}
