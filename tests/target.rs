use mode::{validate_target, ModeError};

fn rejection(target: &str) -> String {
    match validate_target(target, false) {
        Err(ModeError::Generic(m)) => m,
        other => panic!("expected a rejection, got {:?}", other),
    }
}

#[test]
fn ip_literals_pass() {
    assert!(validate_target("::1", false).is_err());
    assert!(validate_target("192.168.1.1", true).is_ok());
    assert!(validate_target("::1", true).is_ok());
}

#[test]
fn host_names_are_checked() {
    assert!(validate_target("example.com", false).is_ok());
    assert!(validate_target("my-host.local", false).is_ok());
    assert_eq!(
        rejection("-bad.com"),
        "Invalid hostname format (cannot start or end with hyphen)"
    );
    assert_eq!(rejection("bad-.com"), "Invalid hostname format (cannot start or end with hyphen)");
    assert_eq!(rejection("a..b"), "Invalid hostname format");
    assert_eq!(
        rejection("under_score.com"),
        "Invalid hostname format (only alphanumeric and hyphens allowed)"
    );
    assert_eq!(rejection(""), "Target cannot be empty");
}

#[test]
fn long_host_names_are_rejected() {
    let long = "a".repeat(300);
    assert_eq!(rejection(&long), "Hostname too long (max 253 characters)");
    let long_label = format!("{}.com", "b".repeat(64));
    assert_eq!(rejection(&long_label), "Invalid hostname format");
}
