//! Popeye scans: how they are read, rendered and kept within bounds.

use serde_json::Value;
use sofka_plugins::budget::{Block, REPORT_MAX_LINES};
use sofka_plugins::json::read_json;
use sofka_plugins::pipes::{bounded_read, diagnosis, first_line, read_bounded, Captured, CapturingReader};
use sofka_plugins::popeye::host::{
    configure, encoded_response, file_contents, popeye_output, run_popeye, scan_error, source,
    HostRequest, SOURCE_MAX_BYTES,
};
use sofka_plugins::popeye::render::{assemble, field, render, FIELD_MAX_BYTES};
use sofka_plugins::popeye::scan::{
    Envelope, Issue, IssuesReader, Linted, ScanReader, Tally,
};
use sofka_plugins::report::{lines, report_bytes, serialized_len, serialized_report_len, Body, Report};
use sofka_plugins::scan_request::{scan_scope, ScanRequest, Scope};
use sofka_plugins::text_map::TextMap;

const SCAN: &str = r#"{
  "popeye": {
    "report_time": "2026-09-11T12:00:00Z",
    "score": 85,
    "grade": "B",
    "sections": [
      {"linter": "configmaps", "gvr": "v1/configmaps",
       "tally": {"ok": 3, "info": 0, "warning": 0, "error": 0, "score": 100}, "issues": {}},
      {"linter": "services", "gvr": "v1/services",
       "tally": {"ok": 1, "info": 0, "warning": 0, "error": 4, "score": 20},
       "issues": {"default/lb-proxy-hyper": [
         {"level": 3, "message": "[POP-1100] No pods match service selector"},
         {"level": 2, "message": "[POP-1110] Match EP has no subsets"},
         {"level": 1, "message": "[POP-1104] Do you mean it? Type NodePort detected"},
         {"level": 0, "message": "fine"}
       ]}}
    ],
    "errors": {"one": "the server could not find the requested resource"}
  },
  "ClusterName": "docker-desktop",
  "ContextName": "docker-desktop"
}"#;

fn text(value: &Value) -> String {
    value.as_str().unwrap_or_default().to_string()
}

fn count(value: &Value) -> usize {
    value.as_u64().unwrap_or_default() as usize
}

fn issues(value: &Value) -> Block {
    let mut reader = IssuesReader::new();
    for (resource, list) in value.as_object().into_iter().flatten() {
        if !reader.accepting() {
            reader.skip();
            continue;
        }
        reader.resource(resource);
        for issue in list.as_array().into_iter().flatten() {
            if !reader.accepting() {
                reader.skip();
                continue;
            }
            reader.issue(&Issue {
                level: issue["level"].as_i64().unwrap_or_default(),
                message: text(&issue["message"]),
            });
        }
    }
    reader.finish()
}

fn linted(value: &Value) -> Linted {
    let tally = &value["tally"];
    Linted {
        linter: text(&value["linter"]),
        gvr: text(&value["gvr"]),
        tally: Tally {
            ok: count(&tally["ok"]),
            info: count(&tally["info"]),
            warnings: count(&tally["warning"]),
            error: count(&tally["error"]),
            score: tally["score"].as_i64().unwrap_or_default(),
        },
        issues: issues(&value["issues"]),
    }
}

fn parsed(json: &str) -> Envelope {
    let document: Value = serde_json::from_str(json).unwrap();
    let scan = &document["popeye"];
    let mut reader = ScanReader::new();
    if let Some(time) = scan["report_time"].as_str() {
        reader.time(time.to_string());
    }
    if let Some(score) = scan["score"].as_i64() {
        reader.score(score);
    }
    if let Some(grade) = scan["grade"].as_str() {
        reader.grade(grade.to_string());
    }
    for section in scan["sections"].as_array().into_iter().flatten() {
        if reader.accepting() {
            reader.section(linted(section));
        } else {
            reader.skip_section();
        }
    }
    for (_, error) in scan["errors"].as_object().into_iter().flatten() {
        if reader.accepting() {
            reader.error(text(error));
        } else {
            reader.skip_error();
        }
    }
    Envelope {
        popeye: reader.finish().unwrap(),
        cluster_name: text(&document["ClusterName"]),
        context_name: text(&document["ContextName"]),
    }
}

fn rows(report: &Report) -> Vec<(String, String)> {
    match &report.sections[0].body {
        Body::Table { rows, .. } => rows.clone(),
        Body::Lines { .. } => panic!("the summary is not a table"),
    }
}

fn section_lines(report: &Report, section: usize) -> Vec<String> {
    match &report.sections[section].body {
        Body::Lines { lines } => lines.clone(),
        Body::Table { .. } => panic!("section {section} is a table"),
    }
}

fn row(field: &str, value: &str) -> (String, String) {
    (field.to_string(), value.to_string())
}

fn last_title(report: &Report) -> &str {
    &report.sections.last().unwrap().title
}

#[test]
fn lib_fixture_matches_expected_report() {
    let report = render(parsed(SCAN), "docker-desktop", "default");
    assert_eq!(report.schema_version, 1);
    assert_eq!(
        rows(&report),
        [
            row("Score", "85% (B)"),
            row("Context", "docker-desktop"),
            row("Cluster", "docker-desktop"),
            row("Namespace", "default"),
            row("Scanned", "2026-09-11T12:00:00Z"),
            row("Linters", "2"),
        ]
    );
    let titles: Vec<&str> =
        report.sections.iter().map(|section| section.title.as_str()).collect();
    assert_eq!(
        titles,
        [
            "Summary",
            "configmaps — 100% (v1/configmaps)",
            "services — 20% (v1/services)",
            "Report errors",
        ]
    );
}

#[test]
fn lib_rejects_unknown_request_schema() {
    let request = ScanRequest {
        schema_version: 2,
        context: None,
        namespace: None,
        inputs: TextMap::new(),
    };
    assert!(scan_scope(&request).unwrap_err().contains("unsupported request schema_version"));
}

#[test]
fn a_request_says_what_to_scan_and_from_where() {
    let mut inputs: TextMap<String> = TextMap::new();
    inputs.insert("report".to_string(), "saved.json".to_string());
    let request = ScanRequest {
        schema_version: 1,
        context: Some("dev".to_string()),
        namespace: None,
        inputs,
    };
    let scope = scan_scope(&request).unwrap();
    assert_eq!(
        scope,
        Scope {
            context: "dev".to_string(),
            namespace: String::new(),
            saved: "saved.json".to_string(),
        }
    );
    // A saved report is read, and never starts a scan.
    assert_eq!(
        source(&scope.saved, &scope.context, &scope.namespace),
        HostRequest::ReadReport { path: "saved.json".to_string() }
    );
    assert_eq!(
        source("", "dev", "apps"),
        HostRequest::RunPopeye { context: "dev".to_string(), namespace: "apps".to_string() }
    );
}

#[test]
fn levels_and_tallies_render_as_the_document_view_shows_them() {
    let report = render(parsed(SCAN), "ignored", "default");
    assert_eq!(report.title, "Popeye scan");
    // Popeye's own context wins over the one sofka asked for.
    assert_eq!(rows(&report)[1], row("Context", "docker-desktop"));
    // Every linter Popeye ran gets a section, clean ones included: the tally
    // line is the whole report for those.
    assert_eq!(report.sections[1].title, "configmaps — 100% (v1/configmaps)");
    let services = report
        .sections
        .iter()
        .position(|section| section.title == "services — 20% (v1/services)")
        .expect("no services section");
    let shown = section_lines(&report, services);
    assert_eq!(
        &shown[..5],
        [
            "ok 1 · info 0 · warning 0 · error 4",
            "  default/lb-proxy-hyper",
            "    ERROR [POP-1100] No pods match service selector",
            "    WARNING [POP-1110] Match EP has no subsets",
            "    INFO [POP-1104] Do you mean it? Type NodePort detected",
        ]
    );
    assert_eq!(shown[5], "    OK fine");
    let errors = report.sections.len() - 1;
    assert_eq!(report.sections[errors].title, "Report errors");
    assert_eq!(
        section_lines(&report, errors)[0],
        "the server could not find the requested resource"
    );
}

#[test]
fn an_unnamespaced_scan_reports_every_namespace() {
    let report = render(parsed(SCAN), "prod", "");
    assert!(rows(&report).contains(&row("Namespace", "all")));
}

#[test]
fn unknown_fields_and_absent_optional_fields_are_tolerated() {
    let minimal = r#"{"popeye": {"score": 100, "unknown": [1, 2]}}"#;
    let report = render(parsed(minimal), "dev", "default");
    let rows = rows(&report);
    assert_eq!(rows[0], row("Score", "100% ()"));
    assert!(rows.contains(&row("Context", "dev")));
    assert!(rows.contains(&row("Linters", "0")));
    // No Scanned row, because Popeye reported no time.
    assert!(!rows.iter().any(|row| row.0 == "Scanned"));
    assert_eq!(report.sections.len(), 1);
}

#[test]
fn a_report_without_a_score_is_not_a_report() {
    let mut reader = ScanReader::new();
    reader.grade("A".to_string());
    assert!(reader.finish().is_none());
    assert!(read_json(b"not json").is_err());
    let mut reader = ScanReader::new();
    reader.score(-3);
    assert_eq!(reader.finish().unwrap().score, -3);
}

#[test]
fn lib_an_unbounded_scan_is_truncated_with_a_notice() {
    let issues: Vec<String> = (0..REPORT_MAX_LINES + 100)
        .map(|i| format!(r#"{{"level": 2, "message": "issue {i}"}}"#))
        .collect();
    let json = format!(
        r#"{{"popeye": {{"score": 1, "sections": [
            {{"linter": "pods", "tally": {{}}, "issues": {{"ns/a": [{}]}}}},
            {{"linter": "services", "tally": {{}}, "issues": {{}}}}
        ]}}}}"#,
        issues.join(",")
    );
    let report = render(parsed(&json), "dev", "default");
    assert_eq!(last_title(&report), "Notice");
    let rendered = report_bytes(&report).unwrap();
    assert!(rendered.len() < 1024 * 1024, "{} bytes", rendered.len());
    assert!(section_lines(&report, 1).len() <= REPORT_MAX_LINES);
    // The budget is shared, so a linter that exhausts it costs the linters after
    // it. The notice is the only promise made about what is missing.
    assert!(!report.sections.iter().any(|section| section.title == "services — 0%"));
    assert!(rows(&report).contains(&row("Linters", "2")));
    assert_eq!(
        section_lines(&report, report.sections.len() - 1)[0],
        "… report truncated; inspect the full Popeye JSON output to see the rest"
    );
    let everywhere = render(parsed(&json), "dev", "");
    assert_eq!(
        section_lines(&everywhere, everywhere.sections.len() - 1)[0],
        "… report truncated; scan one namespace at a time to see the rest"
    );
}

#[test]
fn popeye_is_invoked_with_a_bounded_machine_readable_scan() {
    assert_eq!(
        configure("prod", "apps"),
        [
            "--out",
            "json",
            "--force-exit-zero",
            "--log-level",
            "0",
            "--logs",
            "none",
            "--context",
            "prod",
            "--namespace",
            "apps",
        ]
    );
    assert_eq!(configure("", "").last().unwrap(), "--all-namespaces");
}

#[test]
fn popeye_arguments_are_fixed_and_scoped() {
    assert_eq!(
        configure("prod", ""),
        [
            "--out",
            "json",
            "--force-exit-zero",
            "--log-level",
            "0",
            "--logs",
            "none",
            "--context",
            "prod",
            "--all-namespaces",
        ]
    );
    assert_eq!(
        run_popeye(Some("/bin/popeye".to_string()), "", "apps").unwrap(),
        ("/bin/popeye".to_string(), configure("", "apps"))
    );
    assert_eq!(
        run_popeye(None, "", "apps").unwrap_err(),
        "popeye is not on PATH; install it from https://github.com/derailed/popeye#installation"
    );
}

/// Every byte the line budget counts can become six once serialized, and section
/// titles never pass through that budget at all. What sofka measures is the
/// serialized report, so that is what has to fit.
#[test]
fn an_escape_heavy_report_still_fits_sofkas_limit() {
    // A control character serializes as \u0001: one byte in, six out.
    let noisy = r"\u0001".repeat(400);
    let issues: Vec<String> = (0..REPORT_MAX_LINES)
        .map(|i| format!(r#"{{"level":2,"message":"[POP-{i}] {noisy}"}}"#))
        .collect();
    // A linter name is attacker-controlled too, and the title it becomes costs
    // nothing against the line budget.
    let json = format!(
        r#"{{"popeye":{{"score":1,"grade":"F","sections":[
            {{"linter":"{linter}","gvr":"{gvr}","tally":{{}},"issues":{{"ns/a":[{issues}]}}}}
        ]}}}}"#,
        linter = "l".repeat(100_000),
        gvr = "g".repeat(100_000),
        issues = issues.join(","),
    );
    let report = render(parsed(&json), "ctx", "ns");
    let rendered = report_bytes(&report).unwrap();
    assert!(rendered.len() <= 1024 * 1024, "{} bytes", rendered.len());
    // The summary survives whatever happens to the detail below it.
    assert_eq!(report.sections[0].title, "Summary");
    assert_eq!(last_title(&report), "Notice");
}

#[test]
fn one_oversized_field_cannot_crowd_out_the_report() {
    let json = format!(
        r#"{{"popeye":{{"score":10,"grade":"D","sections":[]}},"ClusterName":"{}"}}"#,
        "c".repeat(50_000)
    );
    let report = render(parsed(&json), "", "");
    let cluster = rows(&report).into_iter().find(|row| row.0 == "Cluster").unwrap().1;
    assert!(cluster.len() <= FIELD_MAX_BYTES + 4, "{}", cluster.len());
    assert!(cluster.ends_with('…'));
    // Neither can the grade.
    let json = format!(
        r#"{{"popeye":{{"score":10,"grade":"{}","sections":[]}}}}"#,
        "D".repeat(300)
    );
    let score = rows(&render(parsed(&json), "", "")).remove(0);
    assert_eq!(score, row("Score", &format!("10% ({}…)", "D".repeat(256))));
}

#[test]
fn fields_are_cut_between_characters() {
    assert_eq!(field("short"), "short");
    let exact = "a".repeat(256);
    assert_eq!(field(&exact), exact);
    assert_eq!(field(&"a".repeat(257)), format!("{exact}…"));
    // The 256th byte is in the middle of a two-byte letter.
    let odd = format!("a{}", "é".repeat(200));
    assert_eq!(field(&odd), format!("a{}…", "é".repeat(127)));
}

#[test]
fn sections_that_do_not_fit_are_dropped_from_the_end() {
    let rows = vec![row("Score", "1% ()")];
    let big = |title: &str| lines(title, vec!["x".repeat(400_000)]);
    let report = assemble(
        rows,
        vec![big("one"), big("two"), big("three")],
        Some(lines("Report errors", vec!["e".to_string()])),
        false,
        "cut",
    );
    let titles: Vec<&str> =
        report.sections.iter().map(|section| section.title.as_str()).collect();
    assert_eq!(titles, ["Summary", "one", "two", "Report errors", "Notice"]);
    assert!(report_bytes(&report).unwrap().len() <= 1_048_576);
    assert_eq!(report_bytes(&report).unwrap().len(), serialized_report_len(&report));
    // Errors that do not fit are dropped as well.
    let report = assemble(
        vec![row("Score", "1% ()")],
        Vec::new(),
        Some(lines("Report errors", vec!["e".repeat(1_100_000)])),
        false,
        "cut",
    );
    assert_eq!(report.sections.len(), 2);
    assert_eq!(last_title(&report), "Notice");
}

#[test]
fn sections_are_measured_as_they_are_written() {
    let section = lines("a\"b", vec!["\u{1}".to_string(), "é\n".to_string()]);
    assert_eq!(
        serialized_len(&section),
        r#"{"lines":["\u0001","é\n"],"title":"a\"b"}"#.len()
    );
}

#[test]
fn a_failed_scan_reports_what_popeye_said_rather_than_how_it_died() {
    // Popeye writes fatal errors to stdout. That diagnosis wins over an
    // unrelated client-go warning on stderr and our JSON parse error.
    assert_eq!(
        scan_error(
            Some("invalid JSON from Popeye: EOF".to_string()),
            "signal: 13 (SIGPIPE)",
            b"Boom! Kubernetes cluster unreachable\n",
            b"E0911 couldn't get current server API group list\n",
        ),
        "Popeye failed: Boom! Kubernetes cluster unreachable"
    );
    // Nothing on stderr either: our own parse error is all there is.
    assert_eq!(
        scan_error(
            Some("invalid JSON from Popeye: EOF".to_string()),
            "exit status: 1",
            b"",
            b""
        ),
        "invalid JSON from Popeye: EOF"
    );
    // A report that broke part way through is not a diagnosis. Its first line is
    // "{", which says nothing the parser error does not say better, and the
    // warning on stderr is unrelated.
    assert_eq!(
        scan_error(
            Some("invalid JSON from Popeye: expected `,` at line 9".to_string()),
            "exit status: 0",
            b"{\n  \"popeye\": {\n    \"score\": 85\n",
            b"E0911 couldn't get current server API group list\n",
        ),
        "invalid JSON from Popeye: expected `,` at line 9"
    );
    // Popeye said nothing at all: stderr is all there is to go on.
    assert_eq!(
        scan_error(
            Some("invalid JSON from Popeye: EOF".to_string()),
            "exit status: 1",
            b"",
            b"stat kubeconfig: no such file or directory\n",
        ),
        "Popeye failed: stat kubeconfig: no such file or directory"
    );
    // A complete report from a run that still failed keeps the status.
    assert_eq!(
        scan_error(None, "exit status: 2", b"", b"partial scan\n"),
        "Popeye exited with exit status: 2: partial scan"
    );
    assert_eq!(
        scan_error(None, "exit status: 2", b"", b""),
        "Popeye exited with exit status: 2: no error output"
    );
}

#[test]
fn a_bounded_reader_keeps_only_its_limit_and_finds_the_first_message() {
    let mut bytes: Vec<u8> = Vec::new();
    for chunk in b"abcdefgh".chunks(3) {
        bounded_read(&mut bytes, chunk, 3);
    }
    assert_eq!(bytes, b"abc");

    let mut stdout = CapturingReader::new(64);
    assert!(read_json(b"Boom! cluster unreachable\n").is_err());
    stdout.record(b"Boom! cluster ");
    stdout.record(b"unreachable\n");
    assert_eq!(
        first_line(&stdout.captured),
        Some("Boom! cluster unreachable".to_string())
    );
    let mut short = CapturingReader::new(4);
    short.record(b"abc");
    short.record(b"def");
    assert_eq!(short.captured, b"abcd");

    assert_eq!(first_line(b"\n\n  boom  \nnext"), Some("boom".to_string()));
    assert_eq!(first_line(b"   \n"), None);
    assert_eq!(first_line(&[0xff, 0xfe]), None);
    assert_eq!(diagnosis(b"\n  {\n"), None);
    assert_eq!(diagnosis(b"[1]"), None);
    assert_eq!(diagnosis(b" Boom!\n"), Some("Boom!".to_string()));
}

#[test]
fn bounded_reads_drain_but_do_not_retain_extra_bytes() {
    let mut capture = Captured::new();
    assert_eq!(read_bounded(&mut capture, b"abcdefgh", 3), 3);
    assert_eq!(capture.bytes, b"abc");
    assert!(capture.truncated);
    // What comes later is taken off the pipe and dropped.
    assert_eq!(read_bounded(&mut capture, b"ij", 3), 0);
    assert_eq!(capture.bytes, b"abc");
}

#[test]
fn host_process_bridge_propagates_popeye_failures() {
    let captured = |bytes: &[u8]| Captured { bytes: bytes.to_vec(), truncated: false };
    let error =
        popeye_output(false, "exit status: 1", captured(b"Boom! access denied\n"), &captured(b""))
            .unwrap_err();
    assert!(error.contains("Boom! access denied"), "{error}");
    assert_eq!(error, "Popeye exited with exit status: 1: Boom! access denied");
    assert_eq!(
        popeye_output(false, "exit status: 1", captured(b"{"), &captured(b"denied\n")),
        Err("Popeye exited with exit status: 1: denied".to_string())
    );
    assert_eq!(
        popeye_output(false, "exit status: 1", captured(b""), &captured(b"")),
        Err("Popeye exited with exit status: 1: no error output".to_string())
    );
    assert_eq!(
        popeye_output(true, "exit status: 0", captured(b"Boom!\n"), &captured(b"")),
        Err("Popeye failed: Boom!".to_string())
    );
    assert_eq!(
        popeye_output(true, "exit status: 0", captured(b"{}"), &captured(b"warning")),
        Ok(b"{}".to_vec())
    );
    assert_eq!(
        popeye_output(
            true,
            "exit status: 0",
            Captured { bytes: b"{}".to_vec(), truncated: true },
            &captured(b"")
        ),
        Err("Popeye output exceeds 32 MiB".to_string())
    );
}

#[test]
fn host_reads_saved_reports_within_their_limit() {
    assert_eq!(
        file_contents(Captured { bytes: b"{}".to_vec(), truncated: false }, SOURCE_MAX_BYTES),
        Ok(b"{}".to_vec())
    );
    assert_eq!(
        file_contents(Captured { bytes: b"{}".to_vec(), truncated: true }, SOURCE_MAX_BYTES),
        Err("file exceeds 32 MiB".to_string())
    );
    assert_eq!(encoded_response(0, b"{}".to_vec()), b"\x00{}");
}
