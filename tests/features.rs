use mode::rc_file::{backup_extension_now, rc_content_with_alias, rc_content_without_alias};
use mode::{
    shell_type_from_path, AliasManager, AliasManagerState, AliasRequest, BookmarkManager,
    KillOutcome, MenuItem, MenuState, ModeError, PlaceholderFeature, ProcessAction,
    ProcessManager, ShellType, Theme, UsageViewer,
};

fn ok_run() -> KillOutcome {
    KillOutcome { exit_code: Some(0), stderr: String::new() }
}

fn none_found() -> KillOutcome {
    KillOutcome { exit_code: Some(1), stderr: String::new() }
}

#[test]
fn alias_wizard_happy_path() {
    let mut m = AliasManager::new();
    m.initialize(ShellType::Bash, "/home/u/.bashrc".to_string());
    for c in " gs ".chars() {
        m.handle_char(c);
    }
    match m.advance() {
        AliasRequest::CheckDuplicate { rc_file, name } => {
            assert_eq!(rc_file, "/home/u/.bashrc");
            assert_eq!(name, "gs");
        }
        other => panic!("unexpected request {:?}", other),
    }
    m.duplicate_checked(Ok("alias ll='ls -la'\n".to_string()));
    assert_eq!(m.get_prompt(), "Enter command (e.g., 'ls -la', 'git status'):");
    for c in "git status".chars() {
        m.handle_char(c);
    }
    assert_eq!(m.get_input(), "git status");
    assert!(matches!(m.advance(), AliasRequest::Nothing));
    assert_eq!(m.get_prompt(), "Create this alias?\n\nalias gs='git status'\n\n[Y]es / [N]o");
    match m.advance() {
        AliasRequest::Append { name, command, .. } => {
            assert_eq!(name, "gs");
            assert_eq!(command, "git status");
        }
        other => panic!("unexpected request {:?}", other),
    }
    m.alias_appended("gs", Ok("/home/u/.bashrc.backup.1".to_string()));
    assert!(m.is_done());
    assert_eq!(
        m.get_prompt(),
        "Success! Alias 'gs' added to /home/u/.bashrc\n\nBackup created: /home/u/.bashrc.backup.1\n\nTo use the alias, reload your shell:\n  source ~/.bashrc\n\nOr start a new terminal session."
    );
}

#[test]
fn alias_wizard_rejections() {
    let mut m = AliasManager::new();
    m.initialize(ShellType::Zsh, "/z/.zshrc".to_string());
    m.handle_char('1');
    assert!(matches!(m.advance(), AliasRequest::Nothing));
    assert_eq!(m.get_prompt(), "Error: Invalid alias name: Alias name cannot start with a digit");

    m.reset();
    for c in "ll".chars() {
        m.handle_char(c);
    }
    m.advance();
    m.duplicate_checked(Ok("alias ll='ls -la'\n".to_string()));
    assert_eq!(m.get_prompt(), "Error: Alias 'll' already exists in RC file");

    m.reset();
    m.handle_char('x');
    m.advance();
    m.duplicate_checked(Err(ModeError::FileOperation("denied".to_string())));
    assert_eq!(
        m.get_prompt(),
        "Error: Failed to check for duplicates: File operation failed: denied"
    );

    m.reset();
    m.handle_char('x');
    m.advance();
    m.duplicate_checked(Ok(String::new()));
    m.handle_char(' ');
    m.advance();
    assert_eq!(m.get_prompt(), "Error: Command cannot be empty");
}

#[test]
fn alias_wizard_back_and_failure() {
    let mut m = AliasManager::new();
    m.initialize(ShellType::Bash, "/r".to_string());
    m.handle_char('g');
    m.advance();
    m.duplicate_checked(Ok(String::new()));
    m.handle_char('x');
    m.handle_backspace();
    assert_eq!(m.get_input(), "");
    m.go_back();
    assert!(matches!(&m.state, AliasManagerState::EnteringName { input } if input.is_empty()));
    m.handle_char('g');
    m.advance();
    m.duplicate_checked(Ok(String::new()));
    m.handle_char('x');
    m.advance();
    m.advance();
    assert_eq!(m.get_prompt(), "Creating alias...");
    m.alias_appended("g", Err(ModeError::BackupFailed("no space".to_string())));
    assert_eq!(
        m.get_prompt(),
        "Error: Failed to create alias: Failed to create backup: no space"
    );
}

#[test]
fn alias_without_rc_file_asks_nothing() {
    let mut m = AliasManager::new();
    m.handle_char('g');
    assert!(matches!(m.advance(), AliasRequest::Nothing));
    assert!(matches!(m.state, AliasManagerState::EnteringName { .. }));
    assert!(m.get_rc_file().is_none());
}

#[test]
fn bookmark_flow() {
    let mut b = BookmarkManager::new("/work/my dir".to_string());
    assert_eq!(b.get_prompt(), "/work/my dir");
    assert_eq!(b.get_confirmation_data().as_deref(), Some("/work/my dir"));
    b.initialize(ShellType::Zsh, "/h/.zshrc".to_string());
    b.cancel();
    match b.confirm_bookmark() {
        AliasRequest::Append { rc_file, name, command } => {
            assert_eq!(rc_file, "/h/.zshrc");
            assert_eq!(name, "temp");
            assert_eq!(command, "cd \"/work/my dir\"");
        }
        other => panic!("unexpected request {:?}", other),
    }
    assert_eq!(b.get_prompt(), "Creating bookmark...");
    b.bookmark_created("/work/my dir", Ok("/h/.zshrc.bak".to_string()));
    assert!(b.is_done());
    assert!(b.should_exit_app());
    assert_eq!(
        b.get_prompt(),
        "\u{2713} Temporary bookmark created!\n\nDirectory: /work/my dir\nAlias: temp\nBackup: /h/.zshrc.bak\n\nIMPORTANT: Reload your shell to use the alias:\n\nsource ~/.zshrc\nOR\nexec zsh\n\nThen type: temp"
    );
    assert_eq!(b.get_rc_file().map(|s| s.as_str()), Some("/h/.zshrc"));
}

#[test]
fn bookmark_failure() {
    let mut b = BookmarkManager::new("/d".to_string());
    b.initialize(ShellType::Bash, "/h/.bashrc".to_string());
    b.confirm_bookmark();
    b.bookmark_created("/d", Err(ModeError::Generic("boom".to_string())));
    assert!(b.is_done());
    assert!(!b.should_exit_app());
    assert_eq!(b.get_prompt(), "Error: Failed to create bookmark: boom");
}

#[test]
fn process_action_reports() {
    assert_eq!(ProcessAction::all().len(), 3);
    assert_eq!(ProcessAction::KillAllDevServers.patterns().len(), 10);
    assert_eq!(ProcessAction::KillUnneededProcesses.patterns()[1], "node_modules/.bin");
    assert_eq!(
        ProcessAction::KillCursorServers.result_of(&vec![none_found()]).unwrap(),
        "\u{2713} Cursor server processes terminated successfully"
    );
    match ProcessAction::KillCursorServers
        .result_of(&vec![KillOutcome { exit_code: Some(2), stderr: "bad".to_string() }])
    {
        Err(ModeError::Generic(m)) => assert_eq!(m, "Failed to kill Cursor servers: bad"),
        other => panic!("unexpected {:?}", other),
    }
    let outs = vec![ok_run(), ok_run(), none_found(), none_found(), none_found()];
    assert_eq!(
        ProcessAction::KillUnneededProcesses.result_of(&outs).unwrap(),
        "\u{2713} Unneeded processes terminated\n\nCleaned up: cursor-server, node_modules/.bin"
    );
    let quiet: Vec<KillOutcome> = (0..10).map(|_| none_found()).collect();
    assert_eq!(
        ProcessAction::KillAllDevServers.result_of(&quiet).unwrap(),
        "\u{2713} All development servers terminated\n\nCleaned up: no processes found (already clean)"
    );
    let mut bad: Vec<KillOutcome> = (0..5).map(|_| none_found()).collect();
    bad[1] = KillOutcome { exit_code: Some(3), stderr: "e1".to_string() };
    bad[3] = KillOutcome { exit_code: None, stderr: "e2".to_string() };
    match ProcessAction::KillUnneededProcesses.result_of(&bad) {
        Err(ModeError::Generic(m)) => assert_eq!(m, "Some errors occurred:\nnode_modules/.bin: e1\nvite: e2"),
        other => panic!("unexpected {:?}", other),
    }
}

#[test]
fn process_manager_flow() {
    let mut p = ProcessManager::new();
    p.previous();
    assert_eq!(p.get_selected(), Some(2));
    p.next();
    p.next();
    assert_eq!(p.get_selected(), Some(1));
    p.confirm_selection();
    assert_eq!(
        p.get_confirmation_data(),
        Some((
            "Kill Unneeded Processes".to_string(),
            "Kills common background processes that may be lingering".to_string()
        ))
    );
    p.go_back();
    assert_eq!(p.get_selected(), Some(0));
    p.confirm_selection();
    assert_eq!(p.execute_action(), Some(ProcessAction::KillCursorServers));
    assert_eq!(p.get_prompt(), "Kill Cursor Servers...");
    p.finish_action(Ok("done".to_string()));
    assert!(p.is_done());
    assert_eq!(p.get_prompt(), "done");
    p.reset();
    assert_eq!(p.get_selected(), Some(0));
    p.confirm_selection();
    p.execute_action();
    p.finish_action(Err(ModeError::Generic("nope".to_string())));
    assert_eq!(p.get_prompt(), "Error: nope");
}

#[test]
fn usage_viewer_flow() {
    let mut v = UsageViewer::new("https://example.com/usage".to_string());
    assert_eq!(v.get_prompt(), "Open the usage console in your browser to view usage statistics?");
    assert_eq!(v.open_browser(), "https://example.com/usage");
    assert_eq!(v.get_prompt(), "Opening browser...");
    v.finish_open(None);
    assert!(v.is_done());
    assert!(v.get_prompt().contains("URL: https://example.com/usage"));
    v.finish_open(Some("not found".to_string()));
    assert_eq!(
        v.get_prompt(),
        "Error: Failed to open browser: not found\n\nPlease visit manually:\nhttps://example.com/usage"
    );
}

#[test]
fn placeholder_message() {
    let p = PlaceholderFeature::new("Settings".to_string());
    assert_eq!(
        p.get_message(),
        "Settings - Coming Soon!\n\nThis feature is planned for a future release.\n\nPress ESC to return to the main menu."
    );
}

#[test]
fn menu_navigation() {
    assert_eq!(MenuItem::count(), 11);
    assert!(MenuItem::Scanner.is_active());
    assert!(!MenuItem::Settings.is_active());
    assert_eq!(MenuItem::Bookmark.name(), "Bookmark Directory");
    let mut m = MenuState::new();
    assert_eq!(m.selected_item(), MenuItem::AliasManager);
    m.previous();
    assert_eq!(m.selected(), 10);
    m.next();
    assert_eq!(m.selected(), 0);
    m.select(4);
    assert_eq!(m.selected_item(), MenuItem::Scanner);
    m.select(11);
    assert_eq!(m.selected(), 4);
    m.reset();
    assert_eq!(m.selected(), 0);
}

#[test]
fn theme_styles() {
    let s = Theme::menu_item_selected();
    assert_eq!(s.fg, 0x00FFFF);
    assert!(s.bold && s.reversed);
    assert_eq!(Theme::cursor().bg, Some(Theme::PRIMARY));
    assert_eq!(Theme::input().bg, Some(0x28283C));
}

#[test]
fn shell_from_login_path() {
    assert_eq!(shell_type_from_path("/bin/bash").unwrap(), ShellType::Bash);
    assert_eq!(shell_type_from_path("/usr/bin/zsh").unwrap(), ShellType::Zsh);
    match shell_type_from_path("/bin/fish") {
        Err(ModeError::ShellDetection(m)) => {
            assert_eq!(m, "Unsupported shell: /bin/fish. Only bash and zsh are supported.")
        }
        other => panic!("unexpected {:?}", other),
    }
}

#[test]
fn error_messages() {
    assert_eq!(ModeError::DuplicateAlias("ll".to_string()).message(), "Alias 'll' already exists in RC file");
    assert_eq!(ModeError::Terminal("t".to_string()).message(), "Terminal error: t");
    let io = ModeError::Io(std::io::Error::new(std::io::ErrorKind::Other, "gone"));
    assert_eq!(io.message(), "IO error: gone");
    match mode::validate_alias_name("if") {
        Err(ModeError::InvalidAliasName(m)) => assert_eq!(m, "'if' is a shell reserved keyword"),
        other => panic!("unexpected {:?}", other),
    }
}

#[test]
fn rc_text_edits() {
    assert_eq!(
        rc_content_with_alias("a", "x", "y", "T"),
        "a\n\n# Added by mode on T\nalias x='y'\n"
    );
    assert_eq!(rc_content_with_alias("", "x", "y", "T"), "\n# Added by mode on T\nalias x='y'\n");
    assert_eq!(
        rc_content_without_alias("a\n  alias temp='cd x'\nb\n", "temp"),
        "a\nb\n"
    );
    assert_eq!(rc_content_without_alias("alias temp=1", "temp"), "");
    assert!(backup_extension_now().starts_with("backup."));
}
