use mode::features::scanner::ScannerState as S;
use mode::{detect_service, ModeError, PortInfo, PortState, ScanType, Scanner};

fn type_text(s: &mut Scanner, text: &str) {
    for c in text.chars() {
        s.handle_char(c);
    }
}

#[test]
fn service_catalog() {
    assert_eq!(detect_service(22).as_deref(), Some("SSH"));
    assert_eq!(detect_service(20).as_deref(), Some("FTP Data"));
    assert_eq!(detect_service(27017).as_deref(), Some("MongoDB"));
    assert_eq!(detect_service(1), None);
}

#[test]
fn selection_wraps() {
    let mut s = Scanner::new();
    assert_eq!(s.get_selected(), Some(0));
    s.previous();
    assert_eq!(s.get_selected(), Some(3));
    s.next();
    assert_eq!(s.get_selected(), Some(0));
    s.next();
    s.confirm_scan_type();
    assert!(matches!(s.state, S::EnteringTarget { scan_type: ScanType::StandardScan, .. }));
}

#[test]
fn quick_scan_wizard_to_confirmation() {
    let mut s = Scanner::new();
    s.confirm_scan_type();
    assert_eq!(s.get_prompt(), "Quick Scan\nEnter target IP address or hostname:");
    type_text(&mut s, " 10.0.0.9x");
    s.handle_backspace();
    assert_eq!(s.get_input(), " 10.0.0.9");
    assert_eq!(s.pending_target().as_deref(), Some("10.0.0.9"));
    s.advance_to_options(true);
    assert_eq!(s.get_options_state(), Some((false, false)));
    s.toggle_option();
    s.next();
    s.toggle_option();
    assert_eq!(s.get_options_state(), Some((true, true)));
    s.advance_to_confirmation();
    let rows = s.get_confirmation_data().unwrap();
    assert_eq!(
        rows,
        vec![
            ("Scan Type".to_string(), "Quick Scan".to_string()),
            ("Target".to_string(), "10.0.0.9".to_string()),
            ("Ports".to_string(), "14 ports".to_string()),
            ("Service Detection".to_string(), "Enabled".to_string()),
            ("Save to File".to_string(), "Yes".to_string()),
        ]
    );
    assert_eq!(s.get_prompt(), "Review scan parameters:");
}

#[test]
fn invalid_target_ends_in_error() {
    let mut s = Scanner::new();
    s.confirm_scan_type();
    type_text(&mut s, "-bad.com");
    s.advance_to_options(false);
    assert!(s.is_done());
    assert_eq!(
        s.get_prompt(),
        "Error: Invalid hostname format (cannot start or end with hyphen)"
    );
}

#[test]
fn custom_range_wizard_and_back_navigation() {
    let mut s = Scanner::new();
    s.previous();
    s.confirm_scan_type();
    type_text(&mut s, "localhost");
    s.advance_to_options(false);
    assert!(matches!(s.state, S::EnteringPortRange { .. }));
    for c in "8a0-8x2, 22".chars() {
        s.handle_port_range_char(c);
    }
    assert_eq!(s.get_input(), "80-82, 22");
    s.handle_port_range_backspace();
    s.handle_port_range_char('5');
    s.go_back();
    assert!(matches!(&s.state, S::EnteringTarget { scan_type: ScanType::CustomRange, input } if input == "localhost"));
    s.advance_to_options(false);
    for c in "80-82,25".chars() {
        s.handle_port_range_char(c);
    }
    s.advance_from_port_range();
    match &s.state {
        S::SelectingOptions { custom_ports, target, .. } => {
            assert_eq!(custom_ports.as_deref(), Some(&[25, 80, 81, 82][..]));
            assert_eq!(target, "localhost");
        }
        other => panic!("unexpected state {:?}", other),
    }
    s.go_back();
    assert!(matches!(&s.state, S::EnteringPortRange { input, .. } if input.is_empty()));
}

#[test]
fn bad_port_range_ends_in_error() {
    let mut s = Scanner::new();
    s.previous();
    s.confirm_scan_type();
    type_text(&mut s, "host");
    s.advance_to_options(false);
    for c in "100-50".chars() {
        s.handle_port_range_char(c);
    }
    s.advance_from_port_range();
    assert_eq!(s.get_prompt(), "Error: Start port must be less than or equal to end port");
}

fn confirmed_custom(ports: &str) -> Scanner {
    let mut s = Scanner::new();
    s.previous();
    s.confirm_scan_type();
    type_text(&mut s, "10.0.0.1");
    s.advance_to_options(true);
    for c in ports.chars() {
        s.handle_port_range_char(c);
    }
    s.advance_from_port_range();
    s.advance_to_confirmation();
    s
}

#[test]
fn scan_runs_to_results() {
    let mut s = confirmed_custom("22,80");
    let mut session = s.execute_scan().unwrap();
    assert_eq!(s.get_prompt(), "Scanning... 0/2 ports");
    session.record_probe(true);
    s.update_progress(session.progress().0);
    session.record_probe(false);
    s.update_progress(session.progress().0);
    assert_eq!(s.get_prompt(), "Scanning... 2/2 ports");
    s.finish_scan(Ok(session.into_results()), None);
    assert_eq!(s.get_prompt(), "Scan Results for 10.0.0.1 (1 open ports)");
    assert!(!s.is_done());
    s.next();
    s.previous();
    assert!(matches!(s.state, S::ViewingResults { scroll: 0, .. }));
}

#[test]
fn scan_outcomes() {
    let mut s = confirmed_custom("22");
    s.execute_scan().unwrap();
    s.finish_scan(Ok(Vec::new()), None);
    assert_eq!(s.get_prompt(), "Scan completed. No open ports found on 10.0.0.1");
    assert!(s.is_done());

    let mut s = confirmed_custom("22");
    s.execute_scan().unwrap();
    s.finish_scan(Err(ModeError::Generic("Failed to resolve hostname: x".to_string())), None);
    assert_eq!(s.get_prompt(), "Error: Scan failed: Failed to resolve hostname: x");

    let mut s = confirmed_custom("22");
    s.execute_scan().unwrap();
    let found = vec![PortInfo { port: 22, service: None, state: PortState::Open }];
    s.finish_scan(Ok(found), Some(ModeError::Generic("disk full".to_string())));
    assert_eq!(
        s.get_prompt(),
        "Error: Scan completed but failed to save results: disk full"
    );
}

#[test]
fn execute_needs_confirmation() {
    let mut s = Scanner::new();
    assert!(s.execute_scan().is_none());
    assert_eq!(
        s.get_prompt(),
        "Select scan type (\u{2191}/\u{2193} to navigate, Enter to select, ESC to cancel):"
    );
}
