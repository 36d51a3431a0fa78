//! Reading targets, the CI exit code and the monitoring lines.

use ronway_scanner::cli::{
    bulk_concurrency, bulk_line, bulk_target_lines, exit_for_score, monitor_line,
    normalize_target, parse_bulk_targets, parse_target_line, scan_exit_code, worse_score,
    BulkError,
};
use ronway_scanner::models::risk::RiskLevel;
use ronway_scanner::target::TargetError;
use ronway_scanner::RonwayScanner;

#[test]
fn normalize_target_strips_scheme_path_and_reads_port() {
    assert_eq!(
        normalize_target("  https://example.com/foo?x#y ").unwrap(),
        ("example.com".to_string(), None)
    );
    assert_eq!(
        normalize_target("example.com:8443").unwrap(),
        ("example.com".to_string(), Some(8443))
    );
    assert_eq!(
        normalize_target("http://10.0.0.1:+80").unwrap(),
        ("10.0.0.1".to_string(), Some(80))
    );
}

#[test]
fn normalize_target_errors() {
    assert!(matches!(normalize_target("   "), Err(TargetError::Empty)));
    assert!(matches!(normalize_target("https:///path"), Err(TargetError::NoHost)));
    assert!(matches!(normalize_target("::1"), Err(TargetError::Ipv6Unsupported)));
    assert!(matches!(normalize_target("host:http"), Err(TargetError::InvalidPort(_))));
    assert!(matches!(normalize_target("host:65536"), Err(TargetError::InvalidPort(_))));
    assert!(matches!(normalize_target("host:0"), Err(TargetError::ZeroPort)));
    assert_eq!(
        TargetError::ZeroPort.message("host:0"),
        "port must be greater than 0 in target 'host:0'"
    );
    assert_eq!(TargetError::NoHost.message("https://"), "target 'https://' has no host");
}

#[test]
fn target_lines_default_to_port_443() {
    assert_eq!(
        parse_target_line("example.com").unwrap(),
        ("example.com".to_string(), 443)
    );
    assert_eq!(
        parse_target_line("example.com:8443").unwrap(),
        ("example.com".to_string(), 8443)
    );
}

#[test]
fn bulk_files_skip_blanks_and_comments() {
    let contents = "# targets\nexample.com\r\n\n  a.example:8443  \n#b.example\n";
    assert_eq!(bulk_target_lines(contents), vec!["example.com", "a.example:8443"]);
    let targets = parse_bulk_targets(contents).unwrap();
    assert_eq!(
        targets,
        vec![("example.com".to_string(), 443), ("a.example".to_string(), 8443)]
    );
}

#[test]
fn bulk_files_report_the_first_bad_line_or_no_targets() {
    match parse_bulk_targets("ok.example\nbad:port\nworse::\n") {
        Err(BulkError::BadLine(line, TargetError::InvalidPort(p))) => {
            assert_eq!(line, "bad:port");
            assert_eq!(p, "port");
        }
        _ => panic!("expected the bad line"),
    }
    assert!(matches!(parse_bulk_targets("# only\n\n"), Err(BulkError::NoTargets)));
}

#[test]
fn exit_codes_fail_at_score_sixty() {
    assert_eq!(exit_for_score(59), 0);
    assert_eq!(exit_for_score(60), 1);
    assert_eq!(exit_for_score(100), 1);
    let unreachable =
        RonwayScanner::assemble_report("h", 1, "t".into(), 0, None, None, None);
    assert_eq!(scan_exit_code(&unreachable), 2);
    assert_eq!(worse_score(30, 70), 70);
    assert_eq!(worse_score(70, 30), 70);
    assert_eq!(bulk_concurrency(0), 1);
    assert_eq!(bulk_concurrency(4), 4);
}

#[test]
fn batch_exit_code_follows_its_worst_target() {
    let fold = |scores: &[u8]| scores.iter().fold(0u8, |w, s| worse_score(w, *s));
    assert_eq!(fold(&[12, 61, 30]), 61);
    assert_eq!(exit_for_score(fold(&[12, 61, 30])), 1);
    assert_eq!(fold(&[59, 0, 45]), 59);
    assert_eq!(exit_for_score(fold(&[59, 0, 45])), 0);
    assert_eq!(exit_for_score(fold(&[])), 0);
}

#[test]
fn monitor_lines_show_first_changed_and_unchanged_scores() {
    assert_eq!(
        monitor_line("T", "example.com", None, 42, RiskLevel::Medium),
        "[T] example.com → score=42/100 (Medium)"
    );
    assert_eq!(
        monitor_line("T", "example.com", Some(42), 61, RiskLevel::High),
        "[T] example.com → score changed 42 → 61 (High)"
    );
    assert_eq!(
        monitor_line("T", "example.com", Some(61), 61, RiskLevel::High),
        "[T] example.com → score unchanged (61/100)"
    );
}

#[test]
fn bulk_lines_are_aligned() {
    assert_eq!(
        bulk_line(5, RiskLevel::Pass, "example.com", 443),
        "  5/100  Pass      example.com:443"
    );
    assert_eq!(
        bulk_line(100, RiskLevel::Critical, "h", 8443),
        "100/100  Critical  h:8443"
    );
}
