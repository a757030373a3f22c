use mode::rc_file::{rc_content_has_alias, rc_content_with_alias_now};
use mode::{validate_alias_name, Logo, ShellType};

#[test]
fn test_logo_dimensions() {
    let logo = Logo::get();
    assert_eq!(logo.len(), Logo::height() as usize);

    for line in logo {
        assert_eq!(line.chars().count(), Logo::width() as usize);
    }
}

#[test]
fn test_validate_alias_name() {
    assert!(validate_alias_name("ll").is_ok());
    assert!(validate_alias_name("my_alias").is_ok());
    assert!(validate_alias_name("alias123").is_ok());

    assert!(validate_alias_name("").is_err());
    assert!(validate_alias_name("123alias").is_err());
    assert!(validate_alias_name("my-alias").is_err());
    assert!(validate_alias_name("my alias").is_err());
    assert!(validate_alias_name("if").is_err());
}

#[test]
fn test_shell_type() {
    assert_eq!(ShellType::Bash.name(), "bash");
    assert_eq!(ShellType::Zsh.name(), "zsh");
    assert_eq!(ShellType::Bash.rc_file_name(), ".bashrc");
    assert_eq!(ShellType::Zsh.rc_file_name(), ".zshrc");
}

#[test]
fn test_check_duplicate_alias() {
    let content = "alias ll='ls -la'\nalias gs='git status'\n";
    assert!(rc_content_has_alias(content, "ll"));
    assert!(rc_content_has_alias(content, "gs"));
    assert!(!rc_content_has_alias(content, "gp"));
}

#[test]
fn test_append_alias() {
    let content = rc_content_with_alias_now("# My bashrc\nalias ll='ls -la'\n", "gs", "git status");
    assert!(content.contains("alias gs='git status'"));
    assert!(content.contains("Added by mode"));
    assert!(content.contains("alias ll='ls -la'"));
}
