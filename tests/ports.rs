use mode::{parse_port_range, ModeError, ScanOption, ScanType};

fn message(r: Result<Vec<u16>, ModeError>) -> String {
    match r {
        Err(ModeError::Generic(m)) => m,
        other => panic!("expected a rejection, got {:?}", other),
    }
}

#[test]
fn overlapping_tokens_merge_sorted() {
    assert_eq!(parse_port_range("1-3,2,5-5").unwrap(), vec![1, 2, 3, 5]);
}

#[test]
fn custom_ranges_are_ascending_unique_and_nonzero() {
    let ports = parse_port_range("9000-9002, 80,443 ,80, 22").unwrap();
    assert_eq!(ports, vec![22, 80, 443, 9000, 9001, 9002]);
    for w in ports.windows(2) {
        assert!(w[0] < w[1]);
    }
    assert!(ports.iter().all(|&p| p >= 1));
}

#[test]
fn zero_start_is_rejected() {
    assert_eq!(message(parse_port_range("0-10")), "Port numbers must be between 1 and 65535");
}

#[test]
fn reversed_range_is_rejected() {
    assert_eq!(
        message(parse_port_range("100-50")),
        "Start port must be less than or equal to end port"
    );
}

#[test]
fn malformed_tokens_are_rejected() {
    assert_eq!(message(parse_port_range("1-2-3")), "Invalid port range format: '1-2-3'");
    assert_eq!(message(parse_port_range("80,abc")), "Invalid port number: 'abc'");
    assert_eq!(message(parse_port_range("x-5")), "Invalid port number: 'x'");
    assert_eq!(message(parse_port_range("5- y")), "Invalid port number: ' y'");
    assert_eq!(message(parse_port_range("0")), "Port numbers must be between 1 and 65535");
    assert_eq!(message(parse_port_range("70000")), "Invalid port number: '70000'");
    assert_eq!(message(parse_port_range("")), "Invalid port number: ''");
    assert_eq!(message(parse_port_range("80,")), "Invalid port number: ''");
}

#[test]
fn first_rejected_token_decides_the_message() {
    assert_eq!(
        message(parse_port_range("100-50,0")),
        "Start port must be less than or equal to end port"
    );
}

#[test]
fn extreme_ports_parse() {
    assert_eq!(parse_port_range("65535").unwrap(), vec![65535]);
    assert_eq!(parse_port_range("+22").unwrap(), vec![22]);
    assert_eq!(parse_port_range("65534-65535,1").unwrap(), vec![1, 65534, 65535]);
    assert_eq!(parse_port_range("1-65535").unwrap().len(), 65535);
}

#[test]
fn quick_scan_ports_are_fixed() {
    let first = ScanType::QuickScan.get_ports();
    let second = ScanType::QuickScan.get_ports();
    assert_eq!(first.len(), 14);
    assert_eq!(first, second);
    assert_eq!(
        first,
        vec![21, 22, 23, 25, 53, 80, 110, 143, 443, 3306, 3389, 5432, 8080, 8443]
    );
}

#[test]
fn full_scan_covers_every_port() {
    let ports = ScanType::FullScan.get_ports();
    assert_eq!(ports.len(), 65535);
    assert_eq!(ports[0], 1);
    assert_eq!(ports[65534], 65535);
}

#[test]
fn standard_and_custom_port_lists() {
    let standard = ScanType::StandardScan.get_ports();
    assert_eq!(standard.len(), 92);
    assert_eq!(standard[0], 20);
    assert_eq!(standard[91], 50003);
    assert!(ScanType::CustomRange.get_ports().is_empty());
}

#[test]
fn scan_type_and_option_labels() {
    assert_eq!(ScanType::all().len(), 4);
    assert_eq!(ScanType::FullScan.name(), "Full Scan");
    assert_eq!(ScanType::CustomRange.description(), "Scan a custom port range (e.g., 1-1000)");
    assert_eq!(ScanOption::all(), vec![ScanOption::ServiceDetection, ScanOption::SaveToFile]);
    assert_eq!(ScanOption::SaveToFile.name(), "Save Results to File");
    assert_eq!(
        ScanOption::ServiceDetection.description(true),
        "[ON] Attempt to identify services running on open ports"
    );
    assert_eq!(ScanOption::SaveToFile.description(false), "[OFF] Save scan results to a file");
}

#[test]
fn fixed_port_lists_are_ascending() {
    for t in [ScanType::QuickScan, ScanType::StandardScan, ScanType::FullScan] {
        let ports = t.get_ports();
        for w in ports.windows(2) {
            assert!(w[0] < w[1]);
        }
    }
}
