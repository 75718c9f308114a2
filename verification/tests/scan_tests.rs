use console_backend::clock::{scan_timestamp, timestamp_at};
use console_backend::scan_args::ScanRequest;
use console_backend::scan_plan::{plan_scan, ScanPlan};
use console_backend::events::{LogLevel, ScanStream, StreamReader};
use console_backend::mock::{mock_document, mock_events, mock_scan, MOCK_EVENT_DELAY_MS};
use console_backend::scan::{
    check_privilege, device_count, failure_details, finish_scan, output_file_name, scan_failed,
    scan_succeeded, select_mode, ScanMode, ScanStatus,
};

fn reader(stream: ScanStream, lines: &[&str]) -> StreamReader {
    let mut r = StreamReader::new(stream);
    r.feed(lines.iter().map(|s| s.to_string()).collect());
    r
}

fn parsed(text: &str) -> serde_json::Value {
    serde_json::from_str(text).unwrap()
}

const MOCK_TEXT: &str = r#"{
  "metadata": {"network_info": {"network_cidr": "10.0.0.0/24", "gateway": "10.0.0.1"}},
  "devices": {
    "10.0.0.42": {
      "ip": "10.0.0.42",
      "mac": "AA:BB:CC:DD:EE:FF",
      "device_type": "router",
      "ports": [{"port": 22, "protocol": "tcp", "state": "open"}],
      "os_detection": {"name": "Linux", "accuracy": "95"}
    }
  }
}"#;

#[test]
fn mock_scan_succeeds_with_one_device_and_round_trips() {
    let run = mock_scan("/repo/network-scans/network-scan-lab-20240101_120000.json".to_string(), "20240101_120000".to_string());
    assert_eq!(run.result.status, ScanStatus::Success);
    assert_eq!(run.result.status.as_str(), "success");
    assert_eq!(run.result.message, "Network scan completed. Found 1 devices.");
    assert_eq!(
        run.result.output_file,
        Some("/repo/network-scans/network-scan-lab-20240101_120000.json".to_string())
    );
    assert_eq!(run.result.timestamp, "20240101_120000");
    let data = run.result.scan_data.clone().unwrap();
    let devices = data.get("devices").unwrap().as_object().unwrap();
    assert_eq!(devices.len(), 1);
    assert!(devices.contains_key("10.0.0.42"));
    let written = run.document_text.unwrap();
    assert_eq!(parsed(&written), data);
    assert_eq!(written, serde_json::to_string_pretty(&data).unwrap());
}

#[test]
fn mock_document_is_the_fixed_document() {
    assert_eq!(mock_document(), parsed(MOCK_TEXT));
    assert_eq!(device_count(&Some(mock_document())), 1);
}

#[test]
fn mock_events_are_the_three_scripted_lines() {
    let events = mock_events();
    let messages: Vec<&str> = events.iter().map(|e| e.message.as_str()).collect();
    assert_eq!(
        messages,
        vec!["Found: 10.0.0.42 (AA:BB:CC:DD:EE:FF)", "Scanning 10.0.0.42", "Completed 10.0.0.42"]
    );
    assert!(events.iter().all(|e| e.level == LogLevel::Info));
    assert_eq!(mock_scan("o".to_string(), "t".to_string()).events, events);
    assert_eq!(MOCK_EVENT_DELAY_MS, 200);
}

#[test]
fn mode_is_mock_only_for_the_switch_value_one() {
    assert_eq!(select_mode(&Some("1".to_string())), ScanMode::Mock);
    assert_eq!(select_mode(&None), ScanMode::Real);
    assert_eq!(select_mode(&Some("0".to_string())), ScanMode::Real);
    assert_eq!(select_mode(&Some("true".to_string())), ScanMode::Real);
    assert_eq!(select_mode(&Some("".to_string())), ScanMode::Real);
    assert_eq!(select_mode(&Some("1 ".to_string())), ScanMode::Real);
}

#[test]
fn output_file_is_named_by_project_and_time() {
    assert_eq!(output_file_name("lab", "20240101_120000"), "network-scan-lab-20240101_120000.json");
    assert_eq!(output_file_name("", ""), "network-scan--.json");
}

#[test]
fn timestamp_has_the_fixed_shape() {
    let stamp = scan_timestamp(0).unwrap();
    let chars: Vec<char> = stamp.chars().collect();
    assert_eq!(chars.len(), 15);
    for (i, c) in chars.iter().enumerate() {
        if i == 8 {
            assert_eq!(*c, '_');
        } else {
            assert!(c.is_ascii_digit());
        }
    }
    let field = |at: usize| stamp[at..at + 2].parse::<u32>().unwrap();
    assert!(stamp[0..4].parse::<u32>().unwrap() >= 1970);
    assert!((1..=12).contains(&field(4)));
    assert!((1..=31).contains(&field(6)));
    assert!(field(9) <= 23);
    assert!(field(11) <= 59);
    assert!(field(13) <= 60);
    assert_eq!(scan_timestamp(86_400), None);
}

#[test]
fn timestamp_of_a_given_time_is_exact() {
    assert_eq!(timestamp_at(1_704_110_400, 0, 0), Some("20240101_120000".to_string()));
    assert_eq!(timestamp_at(1_704_110_400, 999_999_999, 3_600), Some("20240101_130000".to_string()));
    assert_eq!(timestamp_at(1_704_110_400, 0, -45_000), Some("20231231_233000".to_string()));
    assert_eq!(timestamp_at(0, 0, 0), Some("19700101_000000".to_string()));
    assert_eq!(timestamp_at(951_782_399, 0, 0), Some("20000228_235959".to_string()));
    assert_eq!(timestamp_at(-86_400, 0, 0), Some("19691231_000000".to_string()));
}

#[test]
fn timestamp_writes_a_sign_for_years_outside_four_digits() {
    assert_eq!(timestamp_at(253_402_300_800, 0, 0), Some("+100000101_000000".to_string()));
    assert_eq!(timestamp_at(-62_198_755_200, 0, 0), Some("-00010101_000000".to_string()));
    assert_eq!(timestamp_at(-62_167_219_200, 0, 0), Some("00000101_000000".to_string()));
}

#[test]
fn timestamp_is_absent_outside_the_range() {
    assert_eq!(timestamp_at(0, 0, 86_400), None);
    assert_eq!(timestamp_at(0, 0, -86_400), None);
    assert_eq!(timestamp_at(i64::MAX, 0, 0), None);
    assert_eq!(timestamp_at(i64::MIN, 0, 0), None);
    assert_eq!(timestamp_at(0, 2_000_000_000, 0), None);
    assert_eq!(timestamp_at(59, 1_500_000_000, 0), Some("19700101_000060".to_string()));
}

#[test]
fn privileged_account_may_scan() {
    assert_eq!(check_privilege("root\n", "t"), None);
    assert_eq!(check_privilege("  root  ", "t"), None);
}

#[test]
fn other_accounts_get_a_soft_error() {
    let result = check_privilege("alice\n", "20240101_120000").unwrap();
    assert_eq!(result.status, ScanStatus::Error);
    assert_eq!(result.status.as_str(), "error");
    assert_eq!(
        result.message,
        "Network scanning requires root privileges. Please run the app with sudo or use: sudo python3 scripts/network-topology-mapper.py"
    );
    assert_eq!(result.output_file, None);
    assert_eq!(result.scan_data, None);
    assert_eq!(result.timestamp, "20240101_120000");
    assert!(check_privilege("", "t").is_some());
    assert!(check_privilege("rooter", "t").is_some());
}

#[test]
fn failure_details_prefer_standard_error() {
    assert_eq!(failure_details("out", " err \n"), "err");
    assert_eq!(failure_details(" out\n", " \n"), "out");
    assert_eq!(failure_details("", ""), "Unknown error (no output from scanner).");
    assert_eq!(failure_details(" \n", "\t"), "Unknown error (no output from scanner).");
}

#[test]
fn failed_scan_reports_what_the_scanner_wrote() {
    let result = scan_failed("progress", "boom\n", "t".to_string());
    assert_eq!(result.status, ScanStatus::Error);
    assert_eq!(result.message, "Network scan failed: boom");
    assert_eq!(result.output_file, None);
    assert_eq!(result.scan_data, None);
    assert_eq!(result.timestamp, "t");
}

#[test]
fn finished_scan_with_failure_joins_the_kept_lines() {
    let out = reader(ScanStream::Stdout, &["scanning", "still scanning"]);
    let err = reader(ScanStream::Stderr, &["nmap: not found", "giving up"]);
    let result = finish_scan(false, &out, &err, "o.json".to_string(), &Some(MOCK_TEXT.to_string()), "t".to_string());
    assert_eq!(result.status, ScanStatus::Error);
    assert_eq!(result.message, "Network scan failed: nmap: not found\ngiving up");
    assert_eq!(result.output_file, None);
    assert_eq!(result.scan_data, None);

    let quiet = reader(ScanStream::Stderr, &[]);
    let result = finish_scan(false, &out, &quiet, "o.json".to_string(), &None, "t".to_string());
    assert_eq!(result.message, "Network scan failed: scanning\nstill scanning");

    let silent = reader(ScanStream::Stdout, &["", "  "]);
    let result = finish_scan(false, &silent, &quiet, "o.json".to_string(), &None, "t".to_string());
    assert_eq!(result.message, "Network scan failed: Unknown error (no output from scanner).");
}

#[test]
fn finished_scan_with_success_reads_the_document() {
    let out = reader(ScanStream::Stdout, &["done"]);
    let err = reader(ScanStream::Stderr, &["warning"]);
    let text = r#"{"devices": {"10.0.0.1": {}, "10.0.0.2": {}, "10.0.0.3": {}}}"#;
    let result = finish_scan(true, &out, &err, "o.json".to_string(), &Some(text.to_string()), "t".to_string());
    assert_eq!(result.status, ScanStatus::Success);
    assert_eq!(result.message, "Network scan completed. Found 3 devices.");
    assert_eq!(result.output_file, Some("o.json".to_string()));
    assert_eq!(result.scan_data, Some(parsed(text)));
    assert_eq!(result.timestamp, "t");
}

#[test]
fn finished_scan_tolerates_a_document_that_does_not_parse() {
    let out = reader(ScanStream::Stdout, &[]);
    let err = reader(ScanStream::Stderr, &[]);
    let result = finish_scan(true, &out, &err, "o.json".to_string(), &Some("{not json".to_string()), "t".to_string());
    assert_eq!(result.status, ScanStatus::Success);
    assert_eq!(result.message, "Network scan completed. Found 0 devices.");
    assert_eq!(result.output_file, None);
    assert_eq!(result.scan_data, None);

    let result = finish_scan(true, &out, &err, "o.json".to_string(), &None, "t".to_string());
    assert_eq!(result.status, ScanStatus::Success);
    assert_eq!(result.message, "Network scan completed. Found 0 devices.");
    assert_eq!(result.output_file, None);
    assert_eq!(result.scan_data, None);
}

#[test]
fn device_count_is_zero_where_it_cannot_be_told() {
    assert_eq!(device_count(&None), 0);
    assert_eq!(device_count(&Some(parsed("{}"))), 0);
    assert_eq!(device_count(&Some(parsed(r#"{"devices": [1, 2]}"#))), 0);
    assert_eq!(device_count(&Some(parsed(r#"{"devices": {}}"#))), 0);
    assert_eq!(device_count(&Some(parsed(r#"[{"devices": {"a": 1}}]"#))), 0);
    assert_eq!(device_count(&Some(parsed(r#"{"devices": {"a": 1, "b": 2}}"#))), 2);
}

#[test]
fn succeeded_scan_keeps_the_document_it_was_given() {
    let doc = parsed(r#"{"devices": {"a": {"ip": "a"}}, "metadata": {}}"#);
    let result = scan_succeeded("o.json".to_string(), Some(doc.clone()), "t".to_string());
    assert_eq!(result.message, "Network scan completed. Found 1 devices.");
    assert_eq!(result.output_file, Some("o.json".to_string()));
    assert_eq!(result.scan_data, Some(doc));
    let result = scan_succeeded("o.json".to_string(), None, "t".to_string());
    assert_eq!(result.status, ScanStatus::Success);
    assert_eq!(result.output_file, None);
    assert_eq!(result.scan_data, None);
}

#[test]
fn plan_is_the_played_scan_when_the_switch_is_one() {
    let request = ScanRequest {
        project_id: "lab".to_string(),
        interface: Some("eth0".to_string()),
        nmap_timeout: Some(5),
        nmap_parallel: None,
        nmap_min_rate: None,
        nmap_max_retries: None,
        nmap_min_parallelism: None,
        nmap_max_parallelism: None,
        nmap_initial_rtt: None,
        nmap_max_rtt: None,
    };
    match plan_scan(&request, "s.py", "o.json", "20240101_120000", &Some("1".to_string())) {
        ScanPlan::Mock(played) => {
            assert_eq!(played.result.status, ScanStatus::Success);
            assert_eq!(played.result.output_file, Some("o.json".to_string()));
            assert_eq!(played.result.timestamp, "20240101_120000");
            assert_eq!(played.result.scan_data, Some(mock_document()));
            assert_eq!(played.events.len(), 3);
            assert_eq!(
                played.document_text,
                Some(serde_json::to_string_pretty(&mock_document()).unwrap())
            );
        }
        ScanPlan::Real(_) => panic!("the switch asks for the played scan"),
    }
    match plan_scan(&request, "s.py", "o.json", "20240101_120000", &None) {
        ScanPlan::Real(scanner) => {
            assert_eq!(scanner.program, "python3");
            assert_eq!(
                scanner.args,
                vec!["s.py", "-o", "o.json", "--assume-yes", "-i", "eth0", "--nmap-timeout", "5"]
            );
        }
        ScanPlan::Mock(_) => panic!("without the switch the scan is real"),
    }
}

#[test]
fn identity_tool_takes_no_arguments() {
    let call = console_backend::scan_plan::identity_command();
    assert_eq!(call.program, "whoami");
    assert!(call.args.is_empty());
    assert_eq!(console_backend::scan_plan::SCANNER_SCRIPT, "scripts/network-topology-mapper.py");
    assert_eq!(console_backend::scan_plan::SCAN_OUTPUT_DIR, "network-scans");
    assert_eq!(console_backend::scan_plan::MOCK_SWITCH, "INSPECTOR_SCAN_MOCK");
    assert_eq!(console_backend::scan_plan::SCAN_LOG_CHANNEL, "network-scan-log");
}
