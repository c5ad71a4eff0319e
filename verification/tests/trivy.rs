//! Trivy scans: what is counted, what is shown, and what is left out.

use serde_json::Value;
use sofka_plugins::budget::REPORT_MAX_LINES;
use sofka_plugins::report::{report_bytes, Body, Report};
use sofka_plugins::scan_request::{scan_scope, ScanRequest};
use sofka_plugins::text_map::TextMap;
use sofka_plugins::tools::{discover, is_executable, Candidate};
use sofka_plugins::trivy::{
    configure, render, render_finding, scan_command, scan_error, Counts, Envelope, Finding,
    FindingsReader, Item, Kind, Misconfiguration, Results, ResultsReader, Secret, Severity,
    Vulnerability,
};

const SCAN: &str = r#"{
  "ClusterName": "docker-desktop",
  "Findings": [
    {"Namespace": "apps", "Kind": "Deployment", "Name": "web", "Results": [
      {"Target": "web",
       "Vulnerabilities": [{"VulnerabilityID": "CVE-2026-1234", "PkgName": "openssl",
         "InstalledVersion": "1.0", "FixedVersion": "1.1", "Title": "overflow",
         "Severity": "CRITICAL"}],
       "Misconfigurations": [{"ID": "AVD-KSV-0001", "Message": "runs as root",
         "Severity": "HIGH"}]},
      {"Secrets": [{"RuleID": "generic-api-key", "Category": "general",
         "Severity": "MEDIUM"}]}
    ]},
    {"Namespace": "apps", "Kind": "Deployment", "Name": "clean", "Results": []},
    {"Namespace": "kube-system", "Kind": "DaemonSet", "Name": "agent",
     "Error": "failed to pull image"}
  ]
}"#;

fn text(value: &Value) -> String {
    value.as_str().unwrap_or_default().to_string()
}

fn severity(value: &Value) -> Severity {
    match value.as_str().unwrap_or_default() {
        "CRITICAL" => Severity::Critical,
        "HIGH" => Severity::High,
        "MEDIUM" => Severity::Medium,
        "LOW" => Severity::Low,
        _ => Severity::Unknown,
    }
}

fn items(result: &Value) -> Vec<Item> {
    let list = |name: &str| result[name].as_array().cloned().unwrap_or_default();
    let mut items: Vec<Item> = Vec::new();
    for item in list("Vulnerabilities") {
        items.push(Item::Vulnerability(Vulnerability {
            id: text(&item["VulnerabilityID"]),
            package: text(&item["PkgName"]),
            installed: text(&item["InstalledVersion"]),
            fixed: text(&item["FixedVersion"]),
            title: text(&item["Title"]),
            severity: severity(&item["Severity"]),
        }));
    }
    for item in list("Misconfigurations") {
        items.push(Item::Misconfiguration(Misconfiguration {
            id: text(&item["ID"]),
            title: text(&item["Title"]),
            message: text(&item["Message"]),
            severity: severity(&item["Severity"]),
        }));
    }
    for item in list("Secrets") {
        items.push(Item::Secret(Secret {
            id: text(&item["RuleID"]),
            title: text(&item["Title"]),
            category: text(&item["Category"]),
            severity: severity(&item["Severity"]),
        }));
    }
    items
}

fn results(value: &Value) -> Results {
    let mut reader = ResultsReader::new();
    for result in value.as_array().into_iter().flatten() {
        for item in items(result) {
            if reader.accepting() {
                reader.item(&item);
            } else {
                reader.skip();
            }
        }
    }
    reader.finish()
}

fn parsed(json: &str) -> Envelope {
    let document: Value = serde_json::from_str(json).unwrap();
    let findings = document.get("Findings").or_else(|| document.get("Resources"));
    let mut reader = FindingsReader::new();
    for finding in findings.and_then(Value::as_array).into_iter().flatten() {
        if !reader.accepting() {
            reader.skip();
            continue;
        }
        render_finding(
            &mut reader,
            Finding {
                namespace: text(&finding["Namespace"]),
                kind: text(&finding["Kind"]),
                name: text(&finding["Name"]),
                results: results(&finding["Results"]),
                error: text(&finding["Error"]),
            },
        );
    }
    Envelope { cluster_name: text(&document["ClusterName"]), findings: reader.finish() }
}

fn rows(report: &Report) -> Vec<(String, String)> {
    match &report.sections[0].body {
        Body::Table { rows, .. } => rows.clone(),
        Body::Lines { .. } => panic!("the summary is not a table"),
    }
}

fn value(report: &Report, field: &str) -> String {
    rows(report).into_iter().find(|(key, _)| key == field).unwrap().1
}

fn lines(report: &Report, section: usize) -> Vec<String> {
    match &report.sections[section].body {
        Body::Lines { lines } => lines.clone(),
        Body::Table { .. } => panic!("section {section} is a table"),
    }
}

#[test]
fn the_scan_matches_its_report() {
    let report = render(parsed(SCAN), "prod", "apps");
    assert_eq!(report.title, "Trivy scan");
    let expected = [
        ("Findings", "3"),
        ("Critical", "1"),
        ("High", "1"),
        ("Medium", "1"),
        ("Low", "0"),
        ("Vulnerabilities", "1"),
        ("Misconfigurations", "1"),
        ("Secrets", "1"),
        ("Context", "prod"),
        ("Cluster", "docker-desktop"),
        ("Namespace", "apps"),
        ("Resources", "2"),
        ("Scan errors", "1"),
    ];
    assert_eq!(
        rows(&report),
        expected.map(|(field, value)| (field.to_string(), value.to_string()))
    );
    assert_eq!(
        lines(&report, 1),
        [
            "1 vulnerabilities · 1 misconfigurations · 1 secrets · C 1 H 1 M 1 L 0 U 0",
            "  [vulnerability] CRITICAL CVE-2026-1234 · openssl@1.0 → 1.1 — overflow",
            "  [misconfiguration] HIGH AVD-KSV-0001 — runs as root",
            "  [secret] MEDIUM generic-api-key — general",
        ]
    );
    assert_eq!(
        lines(&report, 2),
        [
            "0 vulnerabilities · 0 misconfigurations · 0 secrets · C 0 H 0 M 0 L 0 U 0",
            "  ERROR failed to pull image",
        ]
    );
}

#[test]
fn every_finding_kind_is_counted_and_rendered() {
    let report = render(parsed(SCAN), "prod", "apps");
    assert_eq!(value(&report, "Findings"), "3");
    assert_eq!(value(&report, "Critical"), "1");
    assert_eq!(value(&report, "High"), "1");
    assert_eq!(value(&report, "Medium"), "1");
    assert_eq!(value(&report, "Vulnerabilities"), "1");
    assert_eq!(value(&report, "Misconfigurations"), "1");
    assert_eq!(value(&report, "Secrets"), "1");
    assert_eq!(value(&report, "Scan errors"), "1");

    assert_eq!(report.sections[1].title, "apps · Deployment/web");
    let lines = lines(&report, 1);
    assert!(lines[1].starts_with("  [vulnerability] CRITICAL CVE-2026-1234"));
    assert!(lines[1].contains("openssl@1.0 → 1.1"));
    assert!(lines[2].starts_with("  [misconfiguration] HIGH AVD-KSV-0001"));
    assert!(lines[3].starts_with("  [secret] MEDIUM generic-api-key"));
}

#[test]
fn a_clean_resource_is_omitted_and_a_failed_one_is_kept() {
    let report = render(parsed(SCAN), "prod", "apps");
    assert!(!report.sections.iter().any(|section| section.title.contains("clean")));
    assert_eq!(report.sections[2].title, "kube-system · DaemonSet/agent");
    assert!(lines(&report, 2)[1].contains("ERROR failed to pull image"));
}

#[test]
fn the_older_resources_spelling_is_accepted() {
    let renamed = SCAN.replacen("\"Findings\"", "\"Resources\"", 1);
    let report = render(parsed(&renamed), "prod", "apps");
    assert_eq!(report.sections.len(), 3);
}

#[test]
fn unknown_severities_and_absent_fields_are_tolerated() {
    let json = r#"{"Findings":[{"Kind":"Pod","Name":"p","Results":[{
        "Vulnerabilities":[{"VulnerabilityID":"X","Severity":"NOPE"}],
        "Unknown":[{"whatever":1}]}]}]}"#;
    let report = render(parsed(json), "", "");
    assert_eq!(value(&report, "Findings"), "1");
    assert_eq!(value(&report, "Namespace"), "all");
    assert!(!rows(&report).iter().any(|row| row.0 == "Context"));
    assert!(lines(&report, 1)[1].contains("[vulnerability] UNKNOWN X"));
    assert_eq!(report.sections[1].title, "Pod/p");
}

#[test]
fn main_an_unbounded_scan_is_truncated_with_a_notice() {
    let items: Vec<String> = (0..REPORT_MAX_LINES + 100)
        .map(|i| format!(r#"{{"VulnerabilityID":"CVE-{i}","Severity":"LOW"}}"#))
        .collect();
    let json = format!(
        r#"{{"Findings":[
            {{"Kind":"Pod","Name":"noisy","Results":[{{"Vulnerabilities":[{}]}}]}},
            {{"Kind":"Pod","Name":"later","Results":[{{"Secrets":[{{"RuleID":"k"}}]}}]}}
        ]}}"#,
        items.join(",")
    );
    let report = render(parsed(&json), "dev", "default");
    assert_eq!(report.sections.last().unwrap().title, "Notice");
    assert_eq!(
        lines(&report, report.sections.len() - 1)[0],
        "… report truncated; scan one namespace at a time to see the rest"
    );
    let rendered = report_bytes(&report).unwrap();
    assert!(rendered.len() < 1024 * 1024, "{} bytes", rendered.len());
    assert_eq!(value(&report, "Findings"), "4000");
    assert_eq!(lines(&report, 1).len(), REPORT_MAX_LINES);
}

#[test]
fn rejects_unknown_request_schema_and_a_missing_saved_report() {
    let request = |schema_version: u32, report: &str| {
        let mut inputs: TextMap<String> = TextMap::new();
        inputs.insert("report".to_string(), report.to_string());
        ScanRequest { schema_version, context: None, namespace: None, inputs }
    };
    assert!(scan_scope(&request(2, ""))
        .unwrap_err()
        .contains("unsupported request schema_version"));
    assert_eq!(
        scan_scope(&request(1, "does/not/exist.json")).unwrap().saved,
        "does/not/exist.json"
    );
}

#[test]
fn trivy_is_invoked_with_the_context_as_its_positional_argument() {
    let scoped = configure("prod", "apps");
    assert_eq!(&scoped[..4], ["kubernetes", "--format", "json", "--report"]);
    assert!(scoped.contains(&"--disable-telemetry".to_string()));
    assert!(scoped.contains(&"--disable-node-collector".to_string()));
    // --include-namespaces takes the namespace; the context is positional.
    let namespace = scoped.iter().position(|a| a == "--include-namespaces").unwrap();
    assert_eq!(scoped[namespace + 1], "apps");
    assert_eq!(scoped.last().unwrap(), "prod");
    // No namespace means every namespace, and no context means the current one.
    let unscoped = configure("", "");
    assert!(!unscoped.contains(&"--include-namespaces".to_string()));
    assert_eq!(unscoped.last().unwrap(), "5m");
    assert_eq!(
        unscoped,
        [
            "kubernetes",
            "--format",
            "json",
            "--report",
            "summary",
            "--quiet",
            "--disable-telemetry",
            "--skip-version-check",
            "--no-progress",
            "--parallel",
            "1",
            "--list-all-pkgs=false",
            "--disable-node-collector",
            "--timeout",
            "5m",
        ]
    );
    assert_eq!(
        scan_command(None, "", "").unwrap_err(),
        "trivy is not on PATH; install it from https://trivy.dev/latest/getting-started/installation/"
    );
    assert_eq!(
        scan_command(Some("/bin/trivy".to_string()), "", "").unwrap(),
        ("/bin/trivy".to_string(), unscoped)
    );
}

#[test]
fn a_failed_scan_reports_what_trivy_said_rather_than_how_it_died() {
    assert_eq!(
        scan_error(
            Some("invalid JSON from Trivy: EOF".to_string()),
            "signal: 13 (SIGPIPE)",
            b"FATAL kubernetes scan error: unable to reach the cluster\n",
        ),
        "Trivy failed: FATAL kubernetes scan error: unable to reach the cluster"
    );
    assert_eq!(
        scan_error(Some("invalid JSON from Trivy: EOF".to_string()), "exit status: 1", b""),
        "invalid JSON from Trivy: EOF"
    );
    assert_eq!(
        scan_error(None, "exit status: 2", b""),
        "Trivy exited with exit status: 2: no error output"
    );
}

#[test]
fn main_discovery_never_selects_this_adapter() {
    let candidate = |executable: bool, own: bool| Candidate { executable, own };
    // With only this adapter on PATH, there is nothing to run.
    assert_eq!(discover(&vec![candidate(true, true)]), None);
    // Without the guard it would find itself.
    assert_eq!(discover(&vec![candidate(true, false)]), Some(0));
    assert_eq!(
        discover(&vec![candidate(true, true), candidate(false, false), candidate(true, false)]),
        Some(2)
    );
    assert_eq!(discover(&Vec::new()), None);
    assert!(is_executable(true, 0o755));
    assert!(is_executable(true, 0o001));
    assert!(!is_executable(true, 0o644));
    assert!(!is_executable(false, 0o755));
}

#[test]
fn counts_add_up() {
    let mut counts = Counts::new();
    counts.record(Kind::Vulnerability, Severity::Low);
    counts.record(Kind::Secret, Severity::Unknown);
    let mut all = Counts::new();
    all.record(Kind::Misconfiguration, Severity::Critical);
    let mut swapped = counts;
    swapped.merge(all);
    all.merge(counts);
    assert_eq!(all, swapped);
    assert_eq!(all.findings(), 3);
    let before = all;
    all.merge(Counts::new());
    assert_eq!(all, before);
    // One count may be full while another grows.
    let mut full = Counts { critical: usize::MAX, ..Counts::new() };
    full.merge(Counts { high: 1, ..Counts::new() });
    full.record(Kind::Secret, Severity::High);
    assert_eq!((full.critical, full.high, full.findings()), (usize::MAX, 2, 1));
    assert_eq!(
        all.tally(),
        "1 vulnerabilities · 1 misconfigurations · 1 secrets · C 1 H 0 M 0 L 1 U 1"
    );
    let labels = [
        Severity::Critical,
        Severity::High,
        Severity::Medium,
        Severity::Low,
        Severity::Unknown,
    ]
    .map(Severity::label);
    assert_eq!(labels, ["CRITICAL", "HIGH", "MEDIUM", "LOW", "UNKNOWN"]);
}
