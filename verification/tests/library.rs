//! What the plugins share: requests, frames, pipes, maps and text.

use sofka_plugins::budget::{Block, Budget, REPORT_MAX_BYTES, REPORT_MAX_LINES};
use sofka_plugins::deprecated_apis::DIAGNOSTICS_NOTICE;
use sofka_plugins::duration::seconds;
use sofka_plugins::frame::{
    accepts_allocation, answered, check_request_size, check_schema, executed, framed, guest_range,
    opened, pack, reply, reply_length, response_range, unpack, REQUEST_MAX_BYTES,
};
use sofka_plugins::json::{json_of, read_json, text_or_nothing, whole_number, Json};
use sofka_plugins::numbers::{count_text, number_text, read_signed, read_unsigned, size_text};
use sofka_plugins::pipes::{capture, read_bounded, Captured, Progress, Reading};
use sofka_plugins::report::{
    document, lines, report_bytes, row, serialized_report_len, single_line, table, Body, Section,
};
use sofka_plugins::resource_summary;
use sofka_plugins::text::{before, join, lines_of, lowercase, split, starts_with, trim};
use sofka_plugins::text_map::TextMap;
use sofka_plugins::tools::{command_line, conclude, not_started, usable, write_failure};

// ------------------------------------------------------------------- frames --

#[test]
fn requests_are_bounded_and_of_one_schema() {
    assert_eq!(check_request_size(1_048_576), Ok(()));
    assert_eq!(check_request_size(1_048_577), Err("request exceeds 1 MiB".to_string()));
    assert_eq!(check_schema(1), Ok(()));
    assert_eq!(check_schema(2), Err("unsupported request schema_version".to_string()));
    assert!(accepts_allocation(1_048_576));
    assert!(!accepts_allocation(0));
    assert!(!accepts_allocation(1_048_577));
}

#[test]
fn main_a_request_of_another_schema_is_refused_before_anything_runs() {
    assert_eq!(check_schema(1), Ok(()));
    assert_eq!(check_schema(2).unwrap_err(), "unsupported request schema_version");
    assert!(read_json(b"{").is_err());
}

#[test]
fn guest_buffers_are_checked_before_they_are_touched() {
    assert_eq!(guest_range(4, 2, 2), Ok((4, 2)));
    assert_eq!(guest_range(-1, 2, 2), Err("negative guest pointer".to_string()));
    assert_eq!(guest_range(4, -2, 2), Err("negative guest length".to_string()));
    assert_eq!(guest_range(4, 0, 2), Err("invalid guest buffer length".to_string()));
    assert_eq!(guest_range(4, 3, 2), Err("invalid guest buffer length".to_string()));
}

#[test]
fn what_goes_into_a_frame_comes_out_of_it() {
    let body = framed(0, b"report".to_vec(), 100);
    assert_eq!(opened(&body, "empty"), Ok(b"report".to_vec()));
    let message = framed(1, "näin".to_string().into_bytes(), 100);
    assert_eq!(opened(&message, "empty"), Err("näin".to_string()));
    assert_eq!(opened(&Vec::new(), "empty"), Err("empty".to_string()));
    assert_eq!(framed(1, b"abc".to_vec(), 2), b"\x01ab");
    assert_eq!(opened(&vec![2, 0xff], "empty"), Err("\u{fffd}".to_string()));
    assert_eq!(answered(Ok(b"a".to_vec()), 9), b"\x00a");
    assert_eq!(answered(Err("no".to_string()), 9), b"\x01no");
    assert_eq!(executed(Ok(b"a".to_vec())), b"\x00a");
    assert_eq!(executed(Err("no".to_string())), b"\x01no");
}

#[test]
fn a_response_is_found_where_the_guest_put_it() {
    assert_eq!(pack(1, 2), (2 << 32) | 1);
    assert_eq!(unpack(pack(u32::MAX, 7)), (u32::MAX, 7));
    assert_eq!(response_range(pack(16, 5), "no"), Ok((16, 5)));
    assert_eq!(response_range(pack(0, 5), "no"), Err("no".to_string()));
    assert_eq!(response_range(pack(16, 0), "no"), Err("no".to_string()));
    assert_eq!(
        response_range(pack(16, REQUEST_MAX_BYTES as u32 + 1), "no"),
        Ok((16, REQUEST_MAX_BYTES as u32 + 1))
    );
    assert_eq!(
        response_range(pack(16, REQUEST_MAX_BYTES as u32 + 2), "no"),
        Err("no".to_string())
    );
}

#[test]
fn a_reply_of_the_host_is_read_in_full_or_not_at_all() {
    assert_eq!(reply_length(5, 4), Ok(5));
    assert_eq!(
        reply_length(6, 4),
        Err("host returned an invalid response length".to_string())
    );
    assert_eq!(
        reply_length(0, 4),
        Err("host returned an invalid response length".to_string())
    );
    assert_eq!(reply(3, 3, &vec![0, 1, 2]), Ok(vec![1, 2]));
    assert_eq!(
        reply(3, 2, &vec![0, 1, 2]),
        Err("host returned an incomplete response".to_string())
    );
    assert_eq!(reply(3, 3, &vec![1, b'n', b'o']), Err("no".to_string()));
}

// -------------------------------------------------------------------- pipes --

#[test]
fn main_a_capture_is_bounded_but_still_drained_to_the_end() {
    let stream = vec![b'x'; 4096];
    let mut captured = Captured::new();
    let mut drained: usize = 0;
    for chunk in stream.chunks(1000) {
        let progress = capture(&mut captured, Reading::Bytes(chunk.to_vec()), 1024, "");
        assert!(matches!(progress, Progress::More(_)));
        drained += chunk.len();
    }
    assert_eq!(capture(&mut captured, Reading::Bytes(Vec::new()), 1024, ""), Progress::End);
    assert_eq!(captured.bytes.len(), 1024);
    assert!(captured.truncated);
    // Draining matters: a child blocked on a full pipe never exits.
    assert_eq!(drained, 4096);
}

#[test]
fn main_a_capture_propagates_a_read_failure_and_retries_an_interrupt() {
    let mut captured = Captured::new();
    assert_eq!(
        capture(&mut captured, Reading::Failed("boom".to_string()), 1024, ""),
        Progress::Failed("boom".to_string())
    );
    let mut captured = Captured::new();
    assert_eq!(
        capture(&mut captured, Reading::Interrupted, 1024, ""),
        Progress::More(Vec::new())
    );
    capture(&mut captured, Reading::Bytes(b"o".to_vec()), 1024, "");
    assert_eq!(capture(&mut captured, Reading::Bytes(Vec::new()), 1024, ""), Progress::End);
    assert_eq!(captured.bytes, b"o");
}

#[test]
fn main_diagnostics_are_forwarded_with_a_notice_and_a_broken_writer_is_survived() {
    let notice = DIAGNOSTICS_NOTICE;
    let mut captured = Captured::new();
    let forwarded = match capture(&mut captured, Reading::Bytes(b"loud".to_vec()), 2, notice) {
        Progress::More(forwarded) => String::from_utf8(forwarded).unwrap(),
        other => panic!("{other:?}"),
    };
    assert_eq!(captured.bytes, b"lo");
    assert!(forwarded.contains("deprecated-apis diagnostics truncated"), "{forwarded}");
    assert_eq!(forwarded, "lo\n[deprecated-apis diagnostics truncated; scan continues]\n");
    // What nobody takes over is captured all the same.
    let mut captured = Captured::new();
    capture(&mut captured, Reading::Bytes(b"loud".to_vec()), 64, "cut");
    assert_eq!(captured.bytes, b"loud");
}

#[test]
fn chunks_add_up_to_the_beginning_of_the_stream() {
    let stream: Vec<u8> = (0..200).collect();
    for limit in [0, 1, 99, 100, 199, 200, 201] {
        let mut captured = Captured::new();
        for chunk in stream.chunks(7) {
            read_bounded(&mut captured, chunk, limit);
        }
        assert_eq!(captured.bytes, &stream[..limit.min(200)]);
        assert_eq!(captured.truncated, limit < 200);
    }
}

#[test]
fn main_a_failing_tool_reports_its_stderr_and_not_its_partial_stdout() {
    let captured = |bytes: &[u8]| Captured { bytes: bytes.to_vec(), truncated: false };
    let command = command_line("failing", &vec!["get".to_string()]);
    let error = conclude(
        &command,
        false,
        "exit status: 1",
        captured(b"{\"items\":[\n"),
        &captured(b"An error occurred: schedules.velero.io not found\n"),
    )
    .unwrap_err();
    assert!(error.contains("failing get failed"), "{error}");
    assert!(error.contains("schedules.velero.io not found"), "{error}");
    assert!(!error.contains("items"), "{error}");
    assert_eq!(
        error,
        "failing get failed (exit status: 1): An error occurred: schedules.velero.io not found"
    );
    let command = command_line("failing", &vec!["detect-all-in-cluster".to_string()]);
    let error = conclude(
        &command,
        false,
        "exit status: 1",
        captured(b"{\"items\":[\n"),
        &captured(b"Error: cannot reach the API server\n"),
    )
    .unwrap_err();
    assert!(error.contains("detect-all-in-cluster failed"), "{error}");
    assert!(error.contains("cannot reach the API server"), "{error}");
    assert!(!error.contains("items"), "{error}");
}

#[test]
fn main_a_silent_failing_tool_falls_back_to_its_stdout() {
    let captured = |bytes: &[u8]| Captured { bytes: bytes.to_vec(), truncated: false };
    let error = conclude(
        &command_line("quiet", &Vec::new()),
        false,
        "exit status: 2",
        captured(b"nothing to see\n"),
        &captured(b" \n\t"),
    )
    .unwrap_err();
    assert!(error.contains("nothing to see"), "{error}");
    assert_eq!(error, "quiet  failed (exit status: 2): nothing to see");
}

#[test]
fn main_a_tool_that_floods_stderr_still_finishes() {
    let flood = Captured { bytes: vec![b'e'; 65_536], truncated: true };
    let output = conclude(
        "noisy ",
        true,
        "exit status: 0",
        Captured { bytes: b"done\n".to_vec(), truncated: false },
        &flood,
    )
    .unwrap();
    assert_eq!(output, b"done\n");
}

#[test]
fn main_a_tool_that_writes_over_the_limit_is_an_error_not_a_partial_report() {
    let error = conclude(
        "flood ",
        true,
        "exit status: 0",
        Captured { bytes: vec![b'e'; 1_048_576], truncated: true },
        &Captured::new(),
    )
    .unwrap_err();
    assert!(error.contains("more than 1 MiB"), "{error}");
}

#[test]
fn a_tool_that_ignores_its_input_and_succeeds_has_not_failed() {
    let broken = Some("Broken pipe".to_string());
    assert_eq!(write_failure("pluto", true, &broken), None);
    assert_eq!(
        write_failure("pluto", false, &broken),
        Some("failed while writing to pluto: Broken pipe".to_string())
    );
    assert_eq!(write_failure("pluto", false, &None), None);
}

// ------------------------------------------------------------------ budgets --

#[test]
fn a_budget_pays_for_every_line_and_says_when_it_is_out() {
    let mut budget = Budget::new();
    assert_eq!((budget.lines, budget.bytes), (REPORT_MAX_LINES, REPORT_MAX_BYTES));
    let mut shown: Vec<String> = Vec::new();
    assert!(budget.push(&mut shown, "é".to_string()));
    assert_eq!((budget.lines, budget.bytes), (REPORT_MAX_LINES - 1, REPORT_MAX_BYTES - 2));
    budget.absorb(
        &mut shown,
        Block { lines: vec!["a".to_string(), "b".to_string()], truncated: false },
    );
    assert_eq!(shown, ["é", "a", "b"]);
    assert!(budget.accepting());
    assert!(!budget.push(&mut shown, "x".repeat(REPORT_MAX_BYTES)));
    assert!(budget.truncated);
    assert!(!budget.accepting());
    assert!(!budget.push(&mut shown, "a".to_string()));
    assert_eq!(shown.len(), 3);
    let mut budget = Budget::new();
    budget.absorb(&mut shown, Block { lines: Vec::new(), truncated: true });
    assert!(budget.truncated);
}

// ------------------------------------------------------------------ reports --

#[test]
fn reports_are_written_with_their_keys_in_order() {
    let report = document(
        "T\"",
        vec![
            table("S", vec![("a".to_string(), "\n".to_string())]),
            lines("L", vec!["x".to_string(), "é\u{7f}\u{1}".to_string()]),
            single_line("N", "y"),
        ],
    );
    let bytes = report_bytes(&report).unwrap();
    assert_eq!(
        String::from_utf8(bytes.clone()).unwrap(),
        "{\"schema_version\":1,\"sections\":[\
         {\"columns\":[\"Field\",\"Value\"],\"rows\":[[\"a\",\"\\n\"]],\"title\":\"S\"},\
         {\"lines\":[\"x\",\"é\u{7f}\\u0001\"],\"title\":\"L\"},\
         {\"lines\":[\"y\"],\"title\":\"N\"}],\"title\":\"T\\\"\"}"
    );
    assert_eq!(bytes.len(), serialized_report_len(&report));
}

#[test]
fn empty_rows_are_left_out() {
    assert_eq!(row("a", String::new()), None);
    assert_eq!(row("a", "b".to_string()), Some(("a".to_string(), "b".to_string())));
}

// --------------------------------------------------------- resource summary --

fn summary_request(detail: &str, schema_version: u32) -> resource_summary::Request {
    let mut inputs: TextMap<String> = TextMap::new();
    inputs.insert("detail".to_string(), detail.to_string());
    resource_summary::Request {
        schema_version,
        context: Some("development".to_string()),
        inputs,
        object: Some(
            read_json(
                br#"{"kind": "Pod", "metadata": {"name": "web", "namespace": "apps",
                    "labels": {"tier": "fe", "app": "web", "n": 1}}}"#,
            )
            .unwrap(),
        ),
    }
}

#[test]
fn main_fixture_matches_expected_report() {
    let report = resource_summary::report(&summary_request("true", 1)).unwrap();
    assert_eq!(report.title, "Resource summary");
    let pairs = |list: &[(&str, &str)]| -> Vec<(String, String)> {
        list.iter().map(|(key, value)| (key.to_string(), value.to_string())).collect()
    };
    assert_eq!(
        report.sections,
        [
            Section {
                title: "Selection".to_string(),
                body: Body::Table {
                    columns: ("Field".to_string(), "Value".to_string()),
                    rows: pairs(&[
                        ("Context", "development"),
                        ("Kind", "Pod"),
                        ("Namespace", "apps"),
                        ("Name", "web"),
                    ]),
                },
            },
            Section {
                title: "Labels".to_string(),
                body: Body::Table {
                    columns: ("Label".to_string(), "Value".to_string()),
                    rows: pairs(&[("app", "web"), ("n", ""), ("tier", "fe")]),
                },
            },
        ]
    );
    let brief = resource_summary::report(&summary_request("yes", 1)).unwrap();
    assert_eq!(brief.sections.len(), 1);
}

#[test]
fn main_rejects_unknown_request_schema() {
    let request = resource_summary::Request {
        schema_version: 2,
        context: None,
        inputs: TextMap::new(),
        object: None,
    };
    assert!(resource_summary::report(&request).is_err());
    let request = resource_summary::Request { schema_version: 1, ..request };
    let report = resource_summary::report(&request).unwrap();
    match &report.sections[0].body {
        Body::Table { rows, .. } => {
            assert_eq!(rows[0], ("Context".to_string(), "inferred".to_string()));
            assert_eq!(rows[3], ("Name".to_string(), String::new()));
        }
        Body::Lines { .. } => panic!("the selection is a table"),
    }
}

// --------------------------------------------------------------------- json --

#[test]
fn documents_are_read_with_their_keys_in_order() {
    let document = read_json(br#"{"b": [1, -2, 1.5, true, null], "a": "x", "a": "y"}"#).unwrap();
    assert_eq!(
        document,
        Json::Object(vec![
            ("a".to_string(), Json::Text("y".to_string())),
            (
                "b".to_string(),
                Json::Array(vec![
                    Json::Number(Some(1)),
                    Json::Number(Some(-2)),
                    Json::Number(None),
                    Json::Bool(true),
                    Json::Null,
                ])
            ),
        ])
    );
    assert_eq!(document.get("a"), Some(&Json::Text("y".to_string())));
    assert_eq!(document.get("c"), None);
    assert_eq!(Json::Null.get("a"), None);
    assert_eq!(text_or_nothing(document.get("a")), "y");
    assert_eq!(text_or_nothing(document.get("b")), "");
    assert_eq!(whole_number(Some(&Json::Number(Some(7)))), 7);
    assert_eq!(whole_number(document.get("a")), 0);
    let nested = read_json(br#"{"metadata": {"name": "web"}}"#).unwrap();
    assert_eq!(nested.at("metadata", "name"), Some(&Json::Text("web".to_string())));
    assert_eq!(nested.at("metadata", "uid"), None);
    assert_eq!(
        read_json(b"{").unwrap_err(),
        "EOF while parsing an object at line 1 column 1"
    );
    assert_eq!(json_of(serde_json::Value::from(u64::MAX)), Json::Number(None));
    assert_eq!(json_of(serde_json::Value::from("t")), Json::Text("t".to_string()));
}

// --------------------------------------------------------------- text, maps --

#[test]
fn maps_keep_their_keys_in_order_and_the_last_value_of_each() {
    let mut map: TextMap<u64> = TextMap::new();
    for (key, value) in [("b", 1), ("a", 2), ("é", 3), ("a", 4), ("aa", 5), ("", 6)] {
        map.insert(key.to_string(), value);
    }
    let keys: Vec<&String> = (0..map.len()).map(|at| map.key(at)).collect();
    assert_eq!(keys, ["", "a", "aa", "b", "é"]);
    assert_eq!(map.get("a"), Some(&4));
    assert_eq!(map.get("b"), Some(&1));
    assert_eq!(map.get("c"), None);
    assert_eq!(*map.value(4), 3);
}

#[test]
fn text_is_taken_apart_as_std_does_it() {
    for text in ["", "a", "a\n", "\n", "a\r\nb\r\n", "a\rb\n\n\nc", "\r", "\r\n", "x\n\r"] {
        assert_eq!(lines_of(text), text.lines().collect::<Vec<_>>(), "{text:?}");
        assert_eq!(split(text, '\n'), text.split('\n').collect::<Vec<_>>(), "{text:?}");
    }
    for text in ["", " ", " a ", "\u{a0}é\u{2003}\u{3000}", "\u{200b}x", "a b", "\u{85}\u{1680}y"] {
        assert_eq!(trim(text), text.trim(), "{text:?}");
        assert_eq!(lowercase(text), text.to_ascii_lowercase());
    }
    assert_eq!(lowercase("DaemonSÉt"), "DaemonSÉt".to_ascii_lowercase());
    assert!(starts_with("velero.io/v1", "velero.io/"));
    assert!(!starts_with("velero", "velero.io/"));
    let words = ["", "a", "aa", "b", "Z", "é", "\u{ffff}", "\u{10000}"];
    for left in words {
        for right in words {
            assert_eq!(before(left, right), left < right, "{left:?} {right:?}");
        }
    }
    assert_eq!(join(&vec!["a".to_string(), "b".to_string()], ", "), "a, b");
    assert_eq!(join(&Vec::new(), ", "), "");
}

#[test]
fn numbers_are_written_and_read_as_std_does_it() {
    for value in [0, 1, 9, 10, 12345, u64::MAX] {
        assert_eq!(count_text(value), value.to_string());
        assert_eq!(read_unsigned(&value.to_string(), u64::MAX), Some(value));
    }
    for value in [i64::MIN, -10, -1, 0, 7, i64::MAX] {
        assert_eq!(number_text(value), value.to_string());
        assert_eq!(read_signed(&value.to_string()), Some(value));
    }
    assert_eq!(size_text(4000), "4000");
    for text in ["", "+", "-", "+5", "-5", "5 ", "0005", "18446744073709551616", "٣", "1_000"] {
        assert_eq!(read_unsigned(text, u64::MAX), text.parse::<u64>().ok(), "{text:?}");
        assert_eq!(read_signed(text), text.parse::<i64>().ok(), "{text:?}");
    }
    assert_eq!(read_unsigned("256", 255), None);
    assert_eq!(read_unsigned("255", 255), Some(255));
}

#[test]
fn times_are_read_in_seconds() {
    assert_eq!(seconds("10", false), Some(10));
    assert_eq!(seconds(" 10s ", false), Some(10));
    assert_eq!(seconds("2m", false), Some(120));
    assert_eq!(seconds("2h", false), None);
    assert_eq!(seconds("2h", true), Some(7200));
    for text in ["", "s", "0", "1 s", "1d", "-1s", "1.5s", "18446744073709551616", "99999999999999999999m"] {
        assert_eq!(seconds(text, true), None, "{text:?}");
    }
    assert_eq!(seconds("5124095576030431h", true), Some(5124095576030431 * 3600));
    assert_eq!(seconds("5124095576030432h", true), None);
}

#[test]
fn a_document_counts_only_where_it_was_read_and_the_tool_succeeded() {
    assert_eq!(usable(Ok(7), true), Ok(7));
    assert_eq!(usable(Ok(7), false), Err(None));
    let broken = || Err::<u8, String>("broken".to_string());
    assert_eq!(usable(broken(), true), Err(Some("broken".to_string())));
    assert_eq!(usable(broken(), false), Err(Some("broken".to_string())));
}

#[test]
fn a_tool_that_did_not_start_says_where_to_get_it() {
    assert_eq!(
        not_started("pluto", "not found", "https://example.test/"),
        "failed to start pluto (not found); install it from https://example.test/"
    );
}
