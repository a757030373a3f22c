use mode::features::report::{report_text_for, result_rows};
use mode::{report_file_name_for, scan_report, PortInfo, PortState, ScanSession};

#[test]
fn open_port_is_kept_and_closed_port_dropped() {
    let p: u16 = 40000;
    let mut session = ScanSession::new("127.0.0.1".to_string(), vec![p, p + 1], false, false);
    assert_eq!(session.next_port(), Some(p));
    session.record_probe(true);
    assert_eq!(session.next_port(), Some(p + 1));
    session.record_probe(false);
    assert!(session.is_complete());
    let results = session.into_results();
    assert_eq!(results.len(), 1);
    assert_eq!(results[0].port, p);
    assert_eq!(results[0].state, PortState::Open);
    assert_eq!(results[0].service, None);
}

#[test]
fn service_names_follow_detection_setting() {
    let mut on = ScanSession::new("h".to_string(), vec![22, 80, 12345], true, false);
    on.record_probe(true);
    on.record_probe(false);
    on.record_probe(true);
    let found = on.into_results();
    assert_eq!(found.len(), 2);
    assert_eq!(found[0].service.as_deref(), Some("SSH"));
    assert_eq!(found[1].port, 12345);
    assert_eq!(found[1].service, None);

    let mut off = ScanSession::new("h".to_string(), vec![22], false, false);
    off.record_probe(true);
    assert_eq!(off.into_results()[0].service, None);
}

#[test]
fn progress_rises_to_total() {
    let n = 5;
    let mut session = ScanSession::new("h".to_string(), (1..=n as u16).collect(), false, false);
    assert_eq!(session.progress(), (0, n));
    let mut seen = Vec::new();
    while session.next_port().is_some() {
        session.record_probe(false);
        seen.push(session.progress());
    }
    assert_eq!(seen.len(), n);
    for w in seen.windows(2) {
        assert!(w[0].0 <= w[1].0);
        assert_eq!(w[0].1, n);
    }
    assert_eq!(*seen.last().unwrap(), (n, n));
    assert_eq!(session.next_port(), None);
}

#[test]
fn report_has_fixed_layout() {
    let results = vec![PortInfo { port: 22, service: Some("SSH".to_string()), state: PortState::Open }];
    let body = report_text_for("10.0.0.1", "2024-01-02 03:04:05", &results);
    assert_eq!(
        body,
        "Port Scan Results\n==================\nTarget: 10.0.0.1\nScan Time: 2024-01-02 03:04:05\nOpen Ports: 1\n\nPORT     STATE    SERVICE\n----     -----    -------\n22       open     SSH\n"
    );
    assert!(body.lines().any(|l| l == "22       open     SSH"));
}

#[test]
fn report_without_results_and_unknown_service() {
    let body = report_text_for("h", "t", &Vec::new());
    assert!(body.ends_with("Open Ports: 0\n\nNo open ports found.\n"));
    let unknown = vec![PortInfo { port: 31337, service: None, state: PortState::Open }];
    let body = report_text_for("h", "t", &unknown);
    assert!(body.ends_with("31337    open     unknown\n"));
}

#[test]
fn report_file_name_from_target() {
    assert_eq!(report_file_name_for("10.0.0.1", "20240102_030405"), "scan_10_0_0_1_20240102_030405.txt");
    let results = vec![PortInfo { port: 22, service: Some("SSH".to_string()), state: PortState::Open }];
    let report = scan_report("10.0.0.1", &results);
    assert!(report.file_name.starts_with("scan_10_0_0_1_"));
    assert!(report.file_name.ends_with(".txt"));
    assert!(report.body.contains("\n22       open     SSH\n"));
    assert!(report.body.starts_with("Port Scan Results\n"));
}

#[test]
fn report_is_stamped_with_the_clock() {
    let report = scan_report("h.example", &Vec::new());
    let stamp = report
        .file_name
        .strip_prefix("scan_h_example_")
        .and_then(|r| r.strip_suffix(".txt"))
        .unwrap();
    assert_eq!(stamp.len(), 15);
    assert_eq!(&stamp[8..9], "_");
    assert!(stamp.chars().enumerate().all(|(i, c)| i == 8 || c.is_ascii_digit()));
    let time_line = report.body.lines().find(|l| l.starts_with("Scan Time: ")).unwrap();
    let time = &time_line["Scan Time: ".len()..];
    assert_eq!(time.len(), 19);
    assert!(!time.contains('%'));
}

#[test]
fn result_rows_align_columns() {
    let results = vec![
        PortInfo { port: 22, service: Some("SSH".to_string()), state: PortState::Open },
        PortInfo { port: 31337, service: None, state: PortState::Open },
        PortInfo { port: 7, service: None, state: PortState::Filtered },
    ];
    assert_eq!(
        result_rows(&results),
        vec![
            "Port    22 | OPEN     | SSH".to_string(),
            "Port 31337 | OPEN     | unknown".to_string(),
            "Port     7 | FILTERED | unknown".to_string(),
        ]
    );
    assert!(result_rows(&Vec::new()).is_empty());
}
