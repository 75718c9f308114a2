use console_backend::scan_args::{push_table_args, scan_args, tuning_table, ScanRequest, TuningEntry};
use console_backend::text::{decimal_string, decimal_string_wide, is_blank, join_lines, same_text, trimmed_string};

fn bare_request() -> ScanRequest {
    ScanRequest {
        project_id: "lab".to_string(),
        interface: None,
        nmap_timeout: None,
        nmap_parallel: None,
        nmap_min_rate: None,
        nmap_max_retries: None,
        nmap_min_parallelism: None,
        nmap_max_parallelism: None,
        nmap_initial_rtt: None,
        nmap_max_rtt: None,
    }
}

fn strings(items: &[&str]) -> Vec<String> {
    items.iter().map(|s| s.to_string()).collect()
}

#[test]
fn args_without_tuning_are_the_fixed_four() {
    let args = scan_args("/repo/scripts/mapper.py", "/repo/out.json", &bare_request());
    assert_eq!(args, strings(&["/repo/scripts/mapper.py", "-o", "/repo/out.json", "--assume-yes"]));
}

#[test]
fn args_with_every_parameter_follow_the_fixed_order() {
    let req = ScanRequest {
        project_id: "lab".to_string(),
        interface: Some("eth0".to_string()),
        nmap_timeout: Some(300),
        nmap_parallel: Some(4),
        nmap_min_rate: Some(100),
        nmap_max_retries: Some(2),
        nmap_min_parallelism: Some(8),
        nmap_max_parallelism: Some(64),
        nmap_initial_rtt: Some("50ms".to_string()),
        nmap_max_rtt: Some("1s".to_string()),
    };
    let args = scan_args("s.py", "o.json", &req);
    assert_eq!(
        args,
        strings(&[
            "s.py",
            "-o",
            "o.json",
            "--assume-yes",
            "-i",
            "eth0",
            "--nmap-timeout",
            "300",
            "--nmap-parallel",
            "4",
            "--nmap-min-rate",
            "100",
            "--nmap-max-retries",
            "2",
            "--nmap-min-parallelism",
            "8",
            "--nmap-max-parallelism",
            "64",
            "--nmap-initial-rtt",
            "50ms",
            "--nmap-max-rtt",
            "1s",
        ])
    );
}

#[test]
fn args_hold_only_the_supplied_subset() {
    let mut req = bare_request();
    req.nmap_timeout = Some(30);
    req.nmap_max_rtt = Some("750ms".to_string());
    let args = scan_args("s.py", "o.json", &req);
    assert_eq!(
        args,
        strings(&["s.py", "-o", "o.json", "--assume-yes", "--nmap-timeout", "30", "--nmap-max-rtt", "750ms"])
    );
    assert_eq!(args.len(), 4 + 2 * 2);
    assert!(!args.contains(&"-i".to_string()));
    assert!(!args.contains(&"--nmap-parallel".to_string()));
}

#[test]
fn args_keep_order_for_each_single_parameter() {
    let flags = [
        "-i",
        "--nmap-timeout",
        "--nmap-parallel",
        "--nmap-min-rate",
        "--nmap-max-retries",
        "--nmap-min-parallelism",
        "--nmap-max-parallelism",
        "--nmap-initial-rtt",
        "--nmap-max-rtt",
    ];
    for (k, flag) in flags.iter().enumerate() {
        let mut req = bare_request();
        match k {
            0 => req.interface = Some("wlan0".to_string()),
            1 => req.nmap_timeout = Some(7),
            2 => req.nmap_parallel = Some(7),
            3 => req.nmap_min_rate = Some(7),
            4 => req.nmap_max_retries = Some(7),
            5 => req.nmap_min_parallelism = Some(7),
            6 => req.nmap_max_parallelism = Some(7),
            7 => req.nmap_initial_rtt = Some("7".to_string()),
            _ => req.nmap_max_rtt = Some("7".to_string()),
        }
        let args = scan_args("s", "o", &req);
        assert_eq!(args.len(), 6);
        assert_eq!(args[4], flag.to_string());
        for other in flags.iter() {
            if other != flag {
                assert!(!args.contains(&other.to_string()));
            }
        }
    }
}

#[test]
fn tuning_table_has_a_row_for_each_parameter() {
    let mut req = bare_request();
    req.nmap_min_rate = Some(0);
    let table = tuning_table(&req);
    assert_eq!(table.len(), 9);
    assert_eq!(table[0], TuningEntry { flag: "-i".to_string(), value: None });
    assert_eq!(table[3], TuningEntry { flag: "--nmap-min-rate".to_string(), value: Some("0".to_string()) });
    assert_eq!(table[8], TuningEntry { flag: "--nmap-max-rtt".to_string(), value: None });
}

#[test]
fn table_args_go_behind_what_is_there() {
    let mut args = strings(&["x"]);
    let table = vec![
        TuningEntry { flag: "-a".to_string(), value: None },
        TuningEntry { flag: "-b".to_string(), value: Some("1".to_string()) },
        TuningEntry { flag: "-c".to_string(), value: Some("".to_string()) },
    ];
    push_table_args(&mut args, &table);
    assert_eq!(args, strings(&["x", "-b", "1", "-c", ""]));
}

#[test]
fn numbers_are_written_in_decimal() {
    assert_eq!(decimal_string(0), "0");
    assert_eq!(decimal_string(9), "9");
    assert_eq!(decimal_string(10), "10");
    assert_eq!(decimal_string(1234567890), "1234567890");
    assert_eq!(decimal_string(u64::MAX), "18446744073709551615");
    assert_eq!(decimal_string_wide(u128::MAX), "340282366920938463463374607431768211455");
    let mut req = bare_request();
    req.nmap_timeout = Some(u64::MAX);
    req.nmap_parallel = Some(u32::MAX);
    let args = scan_args("s", "o", &req);
    assert_eq!(args[5], "18446744073709551615");
    assert_eq!(args[7], "4294967295");
}

#[test]
fn trimming_removes_white_space_at_both_ends_only() {
    assert_eq!(trimmed_string("  a b \r\n"), "a b");
    assert_eq!(trimmed_string("\t\n"), "");
    assert_eq!(trimmed_string("abc"), "abc");
    assert!(is_blank(" \n\t"));
    assert!(is_blank(""));
    assert!(!is_blank(" x "));
}

#[test]
fn texts_compare_by_their_characters() {
    assert!(same_text("root", "root"));
    assert!(!same_text("root", "Root"));
    assert!(!same_text("root", "root "));
}

#[test]
fn lines_are_joined_with_line_feeds() {
    assert_eq!(join_lines(&Vec::new()), "");
    assert_eq!(join_lines(&strings(&["one"])), "one");
    assert_eq!(join_lines(&strings(&["one", "two", "three"])), "one\ntwo\nthree");
    assert_eq!(join_lines(&strings(&["", ""])), "\n");
}
