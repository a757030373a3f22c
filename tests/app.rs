use mode::app::{ActiveFeature, App, AppRequest, AppState, Key, KeyPress};
use mode::{AliasRequest, ModeError, ProcessAction, ScannerState, ShellType};

fn press(key: Key) -> KeyPress {
    KeyPress { key, ctrl: false }
}

fn typed(app: &mut App, text: &str) {
    for c in text.chars() {
        app.handle_key(press(Key::Char(c)));
    }
}

#[test]
fn quit_keys_close_the_menu() {
    for key in [Key::Char('q'), Key::Char('Q'), Key::Esc] {
        let mut app = App::new(String::new());
        app.handle_key(press(key));
        assert!(app.should_quit());
    }
    let mut app = App::new(String::new());
    app.handle_key(KeyPress { key: Key::Char('c'), ctrl: true });
    assert!(app.should_quit());
    let mut app = App::new(String::new());
    app.handle_key(press(Key::Char('c')));
    assert!(!app.should_quit());
}

#[test]
fn menu_moves_and_opens_placeholder() {
    let mut app = App::new(String::new());
    app.handle_key(press(Key::Up));
    assert_eq!(app.menu_state.selected(), 10);
    app.handle_key(press(Key::Enter));
    match &app.state {
        AppState::FeatureActive(ActiveFeature::Placeholder(p)) => {
            assert!(p.get_message().starts_with("Settings - Coming Soon!"))
        }
        other => panic!("unexpected {:?}", other),
    }
    app.handle_key(press(Key::Enter));
    assert!(matches!(app.state, AppState::FeatureActive(_)));
    app.handle_key(press(Key::Esc));
    assert!(matches!(app.state, AppState::MainMenu));
}

#[test]
fn process_manager_by_keys() {
    let mut app = App::new(String::new());
    app.handle_key(press(Key::Char('j')));
    assert!(matches!(app.handle_key(press(Key::Enter)), AppRequest::Nothing));
    app.handle_key(press(Key::Down));
    app.handle_key(press(Key::Enter));
    match app.handle_key(press(Key::Char('y'))) {
        AppRequest::RunProcessAction(a) => assert_eq!(a, ProcessAction::KillUnneededProcesses),
        _ => panic!("expected a process action"),
    }
    app.process_action_finished(Ok("cleaned".to_string()));
    app.handle_key(press(Key::Enter));
    assert!(matches!(app.state, AppState::MainMenu));
}

#[test]
fn alias_feature_needs_the_shell() {
    let mut app = App::new(String::new());
    assert!(matches!(app.handle_key(press(Key::Enter)), AppRequest::DetectShell));
    app.shell_detected(Err(ModeError::ShellDetection("SHELL environment variable not set".to_string())), "/w".to_string());
    assert!(matches!(app.state, AppState::MainMenu));
    assert_eq!(
        app.error_message.as_deref(),
        Some("Failed to initialize: Could not detect shell: SHELL environment variable not set")
    );
    app.shell_detected(Ok((ShellType::Bash, "/h/.bashrc".to_string())), "/w".to_string());
    typed(&mut app, "gs");
    match app.handle_key(press(Key::Enter)) {
        AppRequest::Alias(AliasRequest::CheckDuplicate { name, .. }) => assert_eq!(name, "gs"),
        _ => panic!("expected a duplicate check"),
    }
    app.alias_duplicate_checked(Ok(String::new()));
    typed(&mut app, "git status");
    app.handle_key(press(Key::Enter));
    match app.handle_key(press(Key::Char('y'))) {
        AppRequest::Alias(AliasRequest::Append { command, .. }) => assert_eq!(command, "git status"),
        _ => panic!("expected an append"),
    }
    app.alias_appended("gs", Ok("/h/.bashrc.backup.x".to_string()));
    assert_eq!(app.exit_command.as_deref(), Some("source /h/.bashrc"));
}

#[test]
fn bookmark_success_quits() {
    let mut app = App::new(String::new());
    app.handle_key(press(Key::Down));
    app.handle_key(press(Key::Down));
    assert!(matches!(app.handle_key(press(Key::Enter)), AppRequest::DetectShell));
    app.shell_detected(Ok((ShellType::Zsh, "/h/.zshrc".to_string())), "/proj".to_string());
    match app.handle_key(press(Key::Enter)) {
        AppRequest::Bookmark(AliasRequest::Append { command, .. }) => assert_eq!(command, "cd \"/proj\""),
        _ => panic!("expected an append"),
    }
    app.bookmark_created("/proj", Ok("/h/.zshrc.bak".to_string()));
    assert!(app.should_quit());
    assert_eq!(app.exit_command.as_deref(), Some("source /h/.zshrc"));
}

#[test]
fn usage_viewer_opens_configured_page() {
    let mut app = App::new("https://example.com/u".to_string());
    for _ in 0..3 {
        app.handle_key(press(Key::Down));
    }
    match app.handle_key(press(Key::Enter)) {
        AppRequest::OpenBrowser(url) => assert_eq!(url, "https://example.com/u"),
        _ => panic!("expected the browser"),
    }
    app.browser_opened(None);
    app.handle_key(press(Key::Esc));
    assert!(matches!(app.state, AppState::MainMenu));
}

#[test]
fn scanner_by_keys() {
    let mut app = App::new(String::new());
    for _ in 0..4 {
        app.handle_key(press(Key::Down));
    }
    app.handle_key(press(Key::Enter));
    app.handle_key(press(Key::Up));
    app.handle_key(press(Key::Enter));
    typed(&mut app, "127.0.0.1");
    match app.handle_key(press(Key::Enter)) {
        AppRequest::CheckTarget(t) => assert_eq!(t, "127.0.0.1"),
        _ => panic!("expected a target check"),
    }
    app.target_checked(true);
    typed(&mut app, "22-23");
    app.handle_key(press(Key::Enter));
    app.handle_key(press(Key::Char(' ')));
    app.handle_key(press(Key::Enter));
    let mut session = match app.handle_key(press(Key::Enter)) {
        AppRequest::Scan(s) => s,
        _ => panic!("expected a scan"),
    };
    assert_eq!(session.ports, vec![22, 23]);
    assert!(session.service_detection);
    session.record_probe(true);
    app.scan_progress(1);
    session.record_probe(false);
    app.scan_progress(2);
    app.scan_finished(Ok(session.into_results()), None);
    match &app.state {
        AppState::FeatureActive(ActiveFeature::Scanner(s)) => match &s.state {
            ScannerState::ViewingResults { open_ports, .. } => {
                assert_eq!(open_ports.len(), 1);
                assert_eq!(open_ports[0].service.as_deref(), Some("SSH"));
            }
            other => panic!("unexpected {:?}", other),
        },
        other => panic!("unexpected {:?}", other),
    }
    app.handle_key(press(Key::Esc));
    assert!(matches!(app.state, AppState::MainMenu));
}
