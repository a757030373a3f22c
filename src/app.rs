//! The application: the main menu, the active feature, and the keys that move
//! between them. Work outside the process (the shell, files, the browser,
//! processes, sockets) is handed to the caller as an `AppRequest`, and its
//! outcome comes back through the matching method.

use vstd::prelude::*;
use crate::errors::{ModeError, describes};
use crate::features::alias_manager::{
    AliasManager, AliasManagerState, AliasRequest, alias_added, alias_advanced, alias_checked,
    alias_erased, alias_typed, alias_went_back,
};
use crate::features::bookmark_manager::{
    BookmarkManager, BookmarkManagerState, bookmark_confirmed, bookmark_made,
};
use crate::features::engine::ScanSession;
use crate::features::placeholder::PlaceholderFeature;
use crate::features::process_manager::{
    ProcessAction, ProcessManager, ProcessManagerState, action_finished, process_after_back,
    process_after_confirm, process_after_next, process_after_previous,
};
use crate::features::scanner::{
    PortInfo, Scanner, ScannerModel, ScannerState, after_go_back, after_next, after_options,
    after_previous, after_target, after_toggle, port_range_char, port_range_submitted,
    progress_shown, scan_finished_step, scan_started, scan_types,
};
use crate::text::trim;
use crate::features::usage_viewer::{UsageViewer, UsageViewerState, browser_result};
use crate::menu::{MenuItem, MenuState, item_active, item_name, menu_items};
use crate::shell::ShellType;
use crate::text::join2;

verus! {

/// A key as the application sees it.
#[derive(Debug, Clone, Copy, PartialEq, Eq, Structural)]
pub enum Key {
    Char(char),
    Enter,
    Esc,
    Up,
    Down,
    Backspace,
    Other,
}

/// A key press: the key and whether Control was held.
#[derive(Debug, Clone, Copy, PartialEq, Eq, Structural)]
pub struct KeyPress {
    pub key: Key,
    pub ctrl: bool,
}

/// The feature on screen.
#[derive(Debug)]
pub enum ActiveFeature {
    AliasManager(AliasManager),
    ProcessManager(ProcessManager),
    BookmarkManager(BookmarkManager),
    UsageViewer(UsageViewer),
    Scanner(Scanner),
    Placeholder(PlaceholderFeature),
}

/// What the application shows.
#[derive(Debug)]
pub enum AppState {
    /// The main menu.
    MainMenu,
    /// A feature.
    FeatureActive(ActiveFeature),
    /// The application is closing.
    Exiting,
}

/// Work that the caller does outside the process, after a key.
pub enum AppRequest {
    /// Nothing to do.
    Nothing,
    /// Find the login shell, its rc file and the working directory, and pass
    /// them to `shell_detected`.
    DetectShell,
    /// Open this page in a browser and pass the outcome to `browser_opened`.
    OpenBrowser(String),
    /// Run the action's `pkill` patterns and pass the outcome to
    /// `process_action_finished`.
    RunProcessAction(ProcessAction),
    /// Do the alias wizard's rc file work; the outcome goes to
    /// `alias_duplicate_checked` or `alias_appended`.
    Alias(AliasRequest),
    /// Do the bookmark's rc file work; the outcome goes to `bookmark_created`.
    Bookmark(AliasRequest),
    /// Tell whether this target parses as an IP address; the answer goes to
    /// `target_checked`.
    CheckTarget(String),
    /// Probe the session's ports, reporting progress to `scan_progress`, and
    /// pass the results to `scan_finished`.
    Scan(ScanSession),
}

/// The feature is in a consistent state.
pub open spec fn feature_ok(f: ActiveFeature) -> bool {
    match f {
        ActiveFeature::ProcessManager(p) => p.wf(),
        ActiveFeature::Scanner(s) => s.wf(),
        _ => true,
    }
}

/// The application.
#[derive(Debug)]
pub struct App {
    pub state: AppState,
    pub menu_state: MenuState,
    pub should_quit: bool,
    /// Why the last feature could not be started, if it could not.
    pub error_message: Option<String>,
    /// A shell command for the caller's shell to run on exit.
    pub exit_command: Option<String>,
    /// The page the usage viewer opens.
    pub usage_url: String,
}

/// The key quits from the main menu: `q`, `Q`, Control-C or Escape.
pub open spec fn quits(k: KeyPress) -> bool {
    k.key == Key::Char('q') || k.key == Key::Char('Q') || (k.key == Key::Char('c') && k.ctrl)
        || k.key == Key::Esc
}

pub open spec fn moves_up(k: KeyPress) -> bool {
    k.key == Key::Up || (k.key == Key::Char('k') && !quits(k))
}

pub open spec fn moves_down(k: KeyPress) -> bool {
    k.key == Key::Down || (k.key == Key::Char('j') && !quits(k))
}

/// The kind of feature on screen, by its position in the menu.
pub open spec fn feature_kind(s: AppState) -> int {
    match s {
        AppState::MainMenu => -1,
        AppState::Exiting => -2,
        AppState::FeatureActive(f) => match f {
            ActiveFeature::AliasManager(_) => 0,
            ActiveFeature::ProcessManager(_) => 1,
            ActiveFeature::BookmarkManager(_) => 2,
            ActiveFeature::UsageViewer(_) => 3,
            ActiveFeature::Scanner(_) => 4,
            ActiveFeature::Placeholder(_) => 5,
        },
    }
}

impl App {
    pub open spec fn wf(&self) -> bool {
        &&& self.menu_state.wf()
        &&& self.state matches AppState::FeatureActive(f) ==> feature_ok(f)
    }

    /// An application at the main menu; `usage_url` is the page the usage
    /// viewer opens.
    pub fn new(usage_url: String) -> (r: App)
        ensures
            r.wf(),
            r.state is MainMenu,
            r.menu_state.index() == 0,
            !r.should_quit,
            r.error_message is None,
            r.exit_command is None,
            r.usage_url@ == usage_url@,
    {
        App {
            state: AppState::MainMenu,
            menu_state: MenuState::new(),
            should_quit: false,
            error_message: None,
            exit_command: None,
            usage_url,
        }
    }

    /// Whether the application should close.
    pub fn should_quit(&self) -> (r: bool)
        ensures
            r == self.should_quit,
    {
        self.should_quit
    }

    /// Handles a key on the main menu: quit keys close the application, the
    /// arrows (or `k` and `j`) move the selection, Enter opens the item.
    pub fn handle_main_menu_key(&mut self, key: KeyPress) -> (r: AppRequest)
        requires
            old(self).wf(),
            old(self).state is MainMenu,
        ensures
            final(self).wf(),
            menu_key_step(*old(self), key, *final(self), r),
    {
        let quit = match key.key {
            Key::Char(c) => c == 'q' || c == 'Q' || (c == 'c' && key.ctrl),
            Key::Esc => true,
            _ => false,
        };
        if quit {
            self.should_quit = true;
            return AppRequest::Nothing;
        }
        match key.key {
            Key::Up | Key::Char('k') => {
                self.menu_state.previous();
                AppRequest::Nothing
            },
            Key::Down | Key::Char('j') => {
                self.menu_state.next();
                AppRequest::Nothing
            },
            Key::Enter => self.activate_menu_item(),
            _ => AppRequest::Nothing,
        }
    }

    /// Opens the selected menu item. Features that need the user's shell
    /// first ask for it; the usage viewer starts opening its page at once;
    /// items not written yet show a placeholder.
    pub fn activate_menu_item(&mut self) -> (r: AppRequest)
        requires
            old(self).wf(),
            old(self).state is MainMenu,
        ensures
            final(self).wf(),
            final(self).menu_state == old(self).menu_state,
            final(self).should_quit == old(self).should_quit,
            final(self).usage_url == old(self).usage_url,
            final(self).exit_command == old(self).exit_command,
            activated(
                menu_items()[old(self).menu_state.index() as int],
                final(self).state,
                r,
                old(self).usage_url@,
            ),
    {
        let item = self.menu_state.selected_item();
        if item.is_active() {
            match item {
                MenuItem::AliasManager | MenuItem::Bookmark => AppRequest::DetectShell,
                MenuItem::ProcessManager => {
                    self.state = AppState::FeatureActive(
                        ActiveFeature::ProcessManager(ProcessManager::new()),
                    );
                    AppRequest::Nothing
                },
                MenuItem::UsageViewer => {
                    let mut viewer = UsageViewer::new(self.usage_url.clone());
                    let url = viewer.open_browser();
                    self.state = AppState::FeatureActive(ActiveFeature::UsageViewer(viewer));
                    AppRequest::OpenBrowser(url)
                },
                _ => {
                    self.state = AppState::FeatureActive(ActiveFeature::Scanner(Scanner::new()));
                    AppRequest::Nothing
                },
            }
        } else {
            let name = item.name().to_owned();
            self.state = AppState::FeatureActive(
                ActiveFeature::Placeholder(PlaceholderFeature::new(name)),
            );
            AppRequest::Nothing
        }
    }

    /// Starts the alias or bookmark feature, whichever is selected, once the
    /// shell is known: `found` is the shell and its rc file, or why they could
    /// not be found, which is then kept in `error_message`; `directory` is
    /// the working directory.
    pub fn shell_detected(
        &mut self,
        found: Result<(ShellType, String), ModeError>,
        directory: String,
    )
        requires
            old(self).wf(),
        ensures
            final(self).wf(),
            final(self).menu_state == old(self).menu_state,
            final(self).should_quit == old(self).should_quit,
            final(self).usage_url == old(self).usage_url,
            final(self).exit_command == old(self).exit_command,
            !(old(self).state is MainMenu && (menu_items()[old(self).menu_state.index() as int]
                == MenuItem::AliasManager || menu_items()[old(self).menu_state.index() as int]
                == MenuItem::Bookmark)) ==> final(self).state == old(self).state
                && final(self).error_message == old(self).error_message,
            (old(self).state is MainMenu && (menu_items()[old(self).menu_state.index() as int]
                == MenuItem::AliasManager || menu_items()[old(self).menu_state.index() as int]
                == MenuItem::Bookmark)) ==> match found {
                Ok((shell, rc)) => {
                    &&& final(self).error_message == old(self).error_message
                    &&& menu_items()[old(self).menu_state.index() as int] == MenuItem::AliasManager
                        ==> alias_started(final(self).state, shell, rc@)
                    &&& menu_items()[old(self).menu_state.index() as int] == MenuItem::Bookmark
                        ==> bookmark_started(final(self).state, shell, rc@, directory@)
                },
                Err(e) => {
                    &&& final(self).state is MainMenu
                    &&& final(self).error_message matches Some(m)
                    &&& exists|shown: Seq<char>|
                        describes(e, shown) && m@ == "Failed to initialize: "@ + shown
                },
            },
    {
        if !matches!(self.state, AppState::MainMenu) {
            return;
        }
        let item = self.menu_state.selected_item();
        let is_alias = match item {
            MenuItem::AliasManager => true,
            MenuItem::Bookmark => false,
            _ => {
                return;
            },
        };
        match found {
            Ok((shell, rc)) => {
                if is_alias {
                    let mut m = AliasManager::new();
                    m.initialize(shell, rc);
                    self.state = AppState::FeatureActive(ActiveFeature::AliasManager(m));
                } else {
                    let mut b = BookmarkManager::new(directory);
                    b.initialize(shell, rc);
                    self.state = AppState::FeatureActive(ActiveFeature::BookmarkManager(b));
                }
            },
            Err(e) => {
                let shown = e.message();
                self.error_message = Some(join2("Failed to initialize: ", shown.as_str()));
            },
        }
    }
}

/// Enter or Escape, which leave a finished feature.
pub open spec fn dismisses(k: KeyPress) -> bool {
    k.key == Key::Enter || k.key == Key::Esc
}

fn is_yes(key: KeyPress) -> (r: bool)
    ensures
        r == (key.key == Key::Char('y') || key.key == Key::Char('Y')),
{
    key.key == Key::Char('y') || key.key == Key::Char('Y')
}

fn is_no(key: KeyPress) -> (r: bool)
    ensures
        r == (key.key == Key::Char('n') || key.key == Key::Char('N') || key.key == Key::Esc),
{
    key.key == Key::Char('n') || key.key == Key::Char('N') || key.key == Key::Esc
}

fn is_dismiss(key: KeyPress) -> (r: bool)
    ensures
        r == dismisses(key),
{
    key.key == Key::Enter || key.key == Key::Esc
}

fn is_up(key: KeyPress) -> (r: bool)
    ensures
        r == (key.key == Key::Up || key.key == Key::Char('k')),
{
    key.key == Key::Up || key.key == Key::Char('k')
}

fn is_down(key: KeyPress) -> (r: bool)
    ensures
        r == (key.key == Key::Down || key.key == Key::Char('j')),
{
    key.key == Key::Down || key.key == Key::Char('j')
}

/// The feature has ended and waits to be dismissed; a bookmark that was
/// made closes the application instead.
pub open spec fn feature_finished(f: ActiveFeature) -> bool {
    match f {
        ActiveFeature::AliasManager(m) => m.state is Success || m.state is Error,
        ActiveFeature::ProcessManager(p) => p.state is Success || p.state is Error,
        ActiveFeature::BookmarkManager(b) => b.state is Error,
        ActiveFeature::UsageViewer(v) => v.state is Success || v.state is Error,
        ActiveFeature::Scanner(s) => s.state is Success || s.state is Error,
        ActiveFeature::Placeholder(_) => false,
    }
}

/// The feature is on its first screen, which Escape leaves for the menu.
pub open spec fn feature_at_entry(f: ActiveFeature) -> bool {
    match f {
        ActiveFeature::AliasManager(m) => m.state is EnteringName || m.state is EnteringCommand,
        ActiveFeature::ProcessManager(p) => p.state is SelectingAction,
        ActiveFeature::BookmarkManager(b) => b.state is Confirming,
        ActiveFeature::UsageViewer(v) => v.state is Ready,
        ActiveFeature::Scanner(s) => s.state is SelectingScanType,
        ActiveFeature::Placeholder(_) => true,
    }
}

pub open spec fn up_key(k: KeyPress) -> bool {
    k.key == Key::Up || k.key == Key::Char('k')
}

pub open spec fn down_key(k: KeyPress) -> bool {
    k.key == Key::Down || k.key == Key::Char('j')
}

pub open spec fn yes_key(k: KeyPress) -> bool {
    k.key == Key::Char('y') || k.key == Key::Char('Y')
}

pub open spec fn no_key(k: KeyPress) -> bool {
    k.key == Key::Char('n') || k.key == Key::Char('N') || k.key == Key::Esc
}

/// What a key does to the scanner wizard at step `m`: the step `after`,
/// whether the wizard is left for the menu, and the outside work asked for.
/// Lists and results move with the arrows (or `k` and `j`); Enter goes on;
/// Escape goes back one step, or leaves from the first step; space flips an
/// option; `y` and `n` answer the review.
pub open spec fn scanner_key_step(
    m: ScannerModel,
    key: KeyPress,
    after: ScannerModel,
    back: bool,
    r: AppRequest,
) -> bool {
    match m {
        ScannerModel::SelectingScanType { selected } => if up_key(key) {
            after == after_previous(m) && !back && r is Nothing
        } else if down_key(key) {
            after == after_next(m) && !back && r is Nothing
        } else if key.key == Key::Enter {
            after == (ScannerModel::EnteringTarget {
                scan_type: scan_types()[selected as int],
                input: Seq::empty(),
            }) && !back && r is Nothing
        } else {
            after == m && back == (key.key == Key::Esc) && r is Nothing
        },
        ScannerModel::EnteringTarget { scan_type, input } => match key.key {
            Key::Char(c) => after == (ScannerModel::EnteringTarget {
                scan_type,
                input: input.push(c),
            }) && !back && r is Nothing,
            Key::Backspace => after == (ScannerModel::EnteringTarget {
                scan_type,
                input: if input.len() > 0 { input.drop_last() } else { input },
            }) && !back && r is Nothing,
            Key::Enter => after == m && !back && (r matches AppRequest::CheckTarget(t) && t@
                == trim(input)),
            Key::Esc => after == after_go_back(m) && !back && r is Nothing,
            _ => after == m && !back && r is Nothing,
        },
        ScannerModel::EnteringPortRange { target, input } => match key.key {
            Key::Char(c) => after == (ScannerModel::EnteringPortRange {
                target,
                input: if port_range_char(c) { input.push(c) } else { input },
            }) && !back && r is Nothing,
            Key::Backspace => after == (ScannerModel::EnteringPortRange {
                target,
                input: if input.len() > 0 { input.drop_last() } else { input },
            }) && !back && r is Nothing,
            Key::Enter => port_range_submitted(target, input, after) && !back && r is Nothing,
            Key::Esc => after == after_go_back(m) && !back && r is Nothing,
            _ => after == m && !back && r is Nothing,
        },
        ScannerModel::SelectingOptions { .. } => !back && r is Nothing && if up_key(key) {
            after == after_previous(m)
        } else if down_key(key) {
            after == after_next(m)
        } else if key.key == Key::Char(' ') {
            after == after_toggle(m)
        } else if key.key == Key::Enter {
            after == after_options(m)
        } else if key.key == Key::Esc {
            after == after_go_back(m)
        } else {
            after == m
        },
        ScannerModel::Confirming { .. } => if key.key == Key::Enter || yes_key(key) {
            !back && (r matches AppRequest::Scan(session) && scan_started(m, after, session))
        } else if no_key(key) {
            after == after_go_back(m) && !back && r is Nothing
        } else {
            after == m && !back && r is Nothing
        },
        ScannerModel::Scanning { .. } => after == m && !back && r is Nothing,
        ScannerModel::ViewingResults { .. } => r is Nothing && if up_key(key) {
            after == after_previous(m) && !back
        } else if down_key(key) {
            after == after_next(m) && !back
        } else {
            after == m && back == dismisses(key)
        },
        _ => after == m && back == dismisses(key) && r is Nothing,
    }
}

/// What a key does to the alias wizard `m`: characters and Backspace edit
/// the field, Enter submits, Escape leaves; the confirmation takes `y` or `n`;
/// a finished wizard is dismissed.
pub open spec fn alias_key_step(
    m: AliasManager,
    key: KeyPress,
    after: AliasManager,
    back: bool,
    r: AppRequest,
) -> bool {
    if m.state is EnteringName || m.state is EnteringCommand {
        match key.key {
            Key::Char(c) => alias_typed(m, after, c) && !back && r is Nothing,
            Key::Backspace => alias_erased(m, after) && !back && r is Nothing,
            Key::Enter => !back && (r matches AppRequest::Alias(req) && alias_advanced(
                m,
                after,
                req,
            )),
            Key::Esc => after == m && back && r is Nothing,
            _ => after == m && !back && r is Nothing,
        }
    } else if m.state is Confirming {
        if yes_key(key) {
            !back && (r matches AppRequest::Alias(req) && alias_advanced(m, after, req))
        } else if no_key(key) {
            alias_went_back(m, after) && !back && r is Nothing
        } else {
            after == m && !back && r is Nothing
        }
    } else if m.state is Processing {
        after == m && !back && r is Nothing
    } else {
        after == m && back == dismisses(key) && r is Nothing
    }
}

/// What a key does to the process manager at step `st`.
pub open spec fn process_key_step(
    st: ProcessManagerState,
    key: KeyPress,
    after: ProcessManagerState,
    back: bool,
    r: AppRequest,
) -> bool {
    match st {
        ProcessManagerState::SelectingAction { .. } => r is Nothing && if up_key(key) {
            after == process_after_previous(st) && !back
        } else if down_key(key) {
            after == process_after_next(st) && !back
        } else if key.key == Key::Enter {
            after == process_after_confirm(st) && !back
        } else {
            after == st && back == (key.key == Key::Esc)
        },
        ProcessManagerState::Confirming { action } => !back && if yes_key(key) {
            after == (ProcessManagerState::Processing { action }) && (r matches AppRequest::RunProcessAction(
                a,
            ) && a == action)
        } else if no_key(key) {
            after == process_after_back(st) && r is Nothing
        } else {
            after == st && r is Nothing
        },
        ProcessManagerState::Processing { .. } => after == st && !back && r is Nothing,
        _ => after == st && back == dismisses(key) && r is Nothing,
    }
}

/// What a key does to the bookmark feature `b`; `quit` closes the
/// application, which a dismissed success does.
pub open spec fn bookmark_key_step(
    b: BookmarkManager,
    key: KeyPress,
    after: BookmarkManager,
    back: bool,
    quit: bool,
    r: AppRequest,
) -> bool {
    match b.state {
        BookmarkManagerState::Confirming { .. } => !quit && if key.key == Key::Enter {
            !back && (r matches AppRequest::Bookmark(req) && bookmark_confirmed(b, after, req))
        } else {
            after == b && back == (key.key == Key::Esc) && r is Nothing
        },
        BookmarkManagerState::Success { .. } => after == b && !back && quit == dismisses(key)
            && r is Nothing,
        BookmarkManagerState::Error { .. } => after == b && back == dismisses(key) && !quit
            && r is Nothing,
        BookmarkManagerState::Processing => after == b && !back && !quit && r is Nothing,
    }
}

/// What a key does to the usage viewer `v`.
pub open spec fn usage_key_step(
    v: UsageViewer,
    key: KeyPress,
    after: UsageViewer,
    back: bool,
    r: AppRequest,
) -> bool {
    match v.state {
        UsageViewerState::Ready => if key.key == Key::Enter {
            &&& after.state is Opening
            &&& after.url == v.url
            &&& !back
            &&& r matches AppRequest::OpenBrowser(u)
            &&& u@ == v.url@
        } else {
            after == v && back == (key.key == Key::Esc) && r is Nothing
        },
        UsageViewerState::Opening => after == v && !back && r is Nothing,
        _ => after == v && back == dismisses(key) && r is Nothing,
    }
}

/// The same feature is on screen, or the main menu.
pub open spec fn same_feature_or_menu(before: AppState, after: AppState) -> bool {
    after is MainMenu || feature_kind(after) == feature_kind(before)
}

impl App {
    /// Handles a key: on the main menu as `handle_main_menu_key` does, in a
    /// feature by that feature's keys. Escape (or Enter on a finished
    /// feature) goes back to the menu; a finished bookmark closes the
    /// application instead.
    pub fn handle_key(&mut self, key: KeyPress) -> (r: AppRequest)
        requires
            old(self).wf(),
        ensures
            final(self).wf(),
            final(self).usage_url == old(self).usage_url,
            old(self).state is MainMenu ==> menu_key_step(*old(self), key, *final(self), r),
            old(self).state is Exiting ==> r is Nothing && final(self).state is Exiting
                && final(self).should_quit == old(self).should_quit,
            old(self).state is FeatureActive ==> same_feature_or_menu(old(self).state, final(self).state)
                && final(self).menu_state == old(self).menu_state,
            old(self).state matches AppState::FeatureActive(ActiveFeature::Placeholder(_)) ==> (
            key.key == Key::Esc <==> final(self).state is MainMenu),
            old(self).state matches AppState::FeatureActive(f) ==> (feature_finished(f) && dismisses(
                key) ==> final(self).state is MainMenu && r is Nothing),
            old(self).state matches AppState::FeatureActive(f) ==> (feature_at_entry(f) && key.key
                == Key::Esc ==> final(self).state is MainMenu && r is Nothing),
            old(self).state matches AppState::FeatureActive(ActiveFeature::BookmarkManager(b)) ==> (
            b.state is Success && dismisses(key) ==> final(self).should_quit),
            old(self).state matches AppState::FeatureActive(ActiveFeature::AliasManager(m)) ==> (exists|
                after: AliasManager,
                back: bool,
            |
                {
                    &&& #[trigger] alias_key_step(m, key, after, back, r)
                    &&& back ==> final(self).state is MainMenu
                    &&& !back ==> (final(self).state matches AppState::FeatureActive(
                        ActiveFeature::AliasManager(t),
                    ) && t == after)
                }),
            old(self).state matches AppState::FeatureActive(ActiveFeature::ProcessManager(p)) ==> (exists|
                after: ProcessManagerState,
                back: bool,
            |
                {
                    &&& #[trigger] process_key_step(p.state, key, after, back, r)
                    &&& back ==> final(self).state is MainMenu
                    &&& !back ==> (final(self).state matches AppState::FeatureActive(
                        ActiveFeature::ProcessManager(t),
                    ) && t.state == after)
                }),
            old(self).state matches AppState::FeatureActive(ActiveFeature::BookmarkManager(b)) ==> (exists|
                after: BookmarkManager,
                back: bool,
                quit: bool,
            |
                {
                    &&& #[trigger] bookmark_key_step(b, key, after, back, quit, r)
                    &&& final(self).should_quit == (old(self).should_quit || quit)
                    &&& back ==> final(self).state is MainMenu
                    &&& !back ==> (final(self).state matches AppState::FeatureActive(
                        ActiveFeature::BookmarkManager(t),
                    ) && t == after)
                }),
            old(self).state matches AppState::FeatureActive(ActiveFeature::UsageViewer(v)) ==> (exists|
                after: UsageViewer,
                back: bool,
            |
                {
                    &&& #[trigger] usage_key_step(v, key, after, back, r)
                    &&& back ==> final(self).state is MainMenu
                    &&& !back ==> (final(self).state matches AppState::FeatureActive(
                        ActiveFeature::UsageViewer(t),
                    ) && t == after)
                }),
            old(self).state matches AppState::FeatureActive(ActiveFeature::Scanner(s)) ==> (exists|
                after: ScannerModel,
                back: bool,
            |
                {
                    &&& #[trigger] scanner_key_step(s.state@, key, after, back, r)
                    &&& back ==> final(self).state is MainMenu
                    &&& !back ==> (final(self).state matches AppState::FeatureActive(
                        ActiveFeature::Scanner(t),
                    ) && t.state@ == after)
                }),
            old(self).state is FeatureActive && !(old(self).state matches AppState::FeatureActive(
                ActiveFeature::BookmarkManager(_))) ==> final(self).should_quit == old(
                self).should_quit,
    {
        if matches!(self.state, AppState::MainMenu) {
            return self.handle_main_menu_key(key);
        }
        let mut back = false;
        let mut request = AppRequest::Nothing;
        match &mut self.state {
            AppState::FeatureActive(feature) => match feature {
                ActiveFeature::AliasManager(m) => {
                    let (leave, req) = handle_alias_manager_key(m, key);
                    back = leave;
                    request = req;
                },
                ActiveFeature::ProcessManager(p) => {
                    let (leave, req) = handle_process_manager_key(p, key);
                    back = leave;
                    request = req;
                },
                ActiveFeature::BookmarkManager(b) => {
                    let (leave, quit, req) = handle_bookmark_manager_key(b, key);
                    back = leave;
                    request = req;
                    if quit {
                        self.should_quit = true;
                    }
                },
                ActiveFeature::UsageViewer(v) => {
                    let (leave, req) = handle_usage_viewer_key(v, key);
                    back = leave;
                    request = req;
                },
                ActiveFeature::Scanner(s) => {
                    let (leave, req) = handle_scanner_key(s, key);
                    back = leave;
                    request = req;
                },
                ActiveFeature::Placeholder(_) => {
                    back = key.key == Key::Esc;
                },
            },
            _ => {},
        }
        if back {
            self.state = AppState::MainMenu;
        }
        request
    }
}

/// Handles a key in the alias wizard; says whether to go back to the menu.
fn handle_alias_manager_key(m: &mut AliasManager, key: KeyPress) -> (r: (bool, AppRequest))
    ensures
        alias_key_step(*old(m), key, *final(m), r.0, r.1),
{
    match &m.state {
        AliasManagerState::EnteringName { .. } | AliasManagerState::EnteringCommand { .. } => {
            match key.key {
                Key::Char(c) => {
                    m.handle_char(c);
                    (false, AppRequest::Nothing)
                },
                Key::Backspace => {
                    m.handle_backspace();
                    (false, AppRequest::Nothing)
                },
                Key::Enter => (false, AppRequest::Alias(m.advance())),
                Key::Esc => (true, AppRequest::Nothing),
                _ => (false, AppRequest::Nothing),
            }
        },
        AliasManagerState::Confirming { .. } => {
            if is_yes(key) {
                (false, AppRequest::Alias(m.advance()))
            } else if is_no(key) {
                m.go_back();
                (false, AppRequest::Nothing)
            } else {
                (false, AppRequest::Nothing)
            }
        },
        AliasManagerState::Processing => (false, AppRequest::Nothing),
        AliasManagerState::Success { .. } | AliasManagerState::Error { .. } => (
            is_dismiss(key),
            AppRequest::Nothing,
        ),
    }
}

/// Handles a key in the process manager; says whether to go back to the menu.
fn handle_process_manager_key(p: &mut ProcessManager, key: KeyPress) -> (r: (bool, AppRequest))
    requires
        old(p).wf(),
    ensures
        final(p).wf(),
        process_key_step(old(p).state, key, final(p).state, r.0, r.1),
{
    match &p.state {
        ProcessManagerState::SelectingAction { .. } => {
            if is_up(key) {
                p.previous();
            } else if is_down(key) {
                p.next();
            } else if key.key == Key::Enter {
                p.confirm_selection();
            } else if key.key == Key::Esc {
                return (true, AppRequest::Nothing);
            }
            (false, AppRequest::Nothing)
        },
        ProcessManagerState::Confirming { .. } => {
            if is_yes(key) {
                if let Some(action) = p.execute_action() {
                    return (false, AppRequest::RunProcessAction(action));
                }
            } else if is_no(key) {
                p.go_back();
            }
            (false, AppRequest::Nothing)
        },
        ProcessManagerState::Processing { .. } => (false, AppRequest::Nothing),
        ProcessManagerState::Success { .. } | ProcessManagerState::Error { .. } => (
            is_dismiss(key),
            AppRequest::Nothing,
        ),
    }
}

/// Handles a key in the bookmark feature; says whether to go back to the
/// menu and whether to close the application.
fn handle_bookmark_manager_key(b: &mut BookmarkManager, key: KeyPress) -> (r: (
    bool,
    bool,
    AppRequest,
))
    ensures
        bookmark_key_step(*old(b), key, *final(b), r.0, r.1, r.2),
{
    match &b.state {
        BookmarkManagerState::Confirming { .. } => {
            if key.key == Key::Enter {
                (false, false, AppRequest::Bookmark(b.confirm_bookmark()))
            } else {
                (key.key == Key::Esc, false, AppRequest::Nothing)
            }
        },
        BookmarkManagerState::Success { .. } => (false, is_dismiss(key), AppRequest::Nothing),
        BookmarkManagerState::Error { .. } => (is_dismiss(key), false, AppRequest::Nothing),
        BookmarkManagerState::Processing => (false, false, AppRequest::Nothing),
    }
}

/// Handles a key in the usage viewer; says whether to go back to the menu.
fn handle_usage_viewer_key(v: &mut UsageViewer, key: KeyPress) -> (r: (bool, AppRequest))
    ensures
        usage_key_step(*old(v), key, *final(v), r.0, r.1),
{
    match &v.state {
        UsageViewerState::Ready => {
            if key.key == Key::Enter {
                (false, AppRequest::OpenBrowser(v.open_browser()))
            } else {
                (key.key == Key::Esc, AppRequest::Nothing)
            }
        },
        UsageViewerState::Opening => (false, AppRequest::Nothing),
        UsageViewerState::Success { .. } | UsageViewerState::Error { .. } => (
            is_dismiss(key),
            AppRequest::Nothing,
        ),
    }
}

/// Handles a key in the scanner; says whether to go back to the menu.
fn handle_scanner_key(s: &mut Scanner, key: KeyPress) -> (r: (bool, AppRequest))
    requires
        old(s).wf(),
    ensures
        final(s).wf(),
        scanner_key_step(old(s).state@, key, final(s).state@, r.0, r.1),
{
    let mut back = false;
    let mut request = AppRequest::Nothing;
    match &s.state {
        ScannerState::SelectingScanType { .. } => {
            if is_up(key) {
                s.previous();
            } else if is_down(key) {
                s.next();
            } else if key.key == Key::Enter {
                s.confirm_scan_type();
            } else if key.key == Key::Esc {
                back = true;
            }
        },
        ScannerState::EnteringTarget { .. } => match key.key {
            Key::Char(c) => s.handle_char(c),
            Key::Backspace => s.handle_backspace(),
            Key::Enter => {
                if let Some(t) = s.pending_target() {
                    request = AppRequest::CheckTarget(t);
                }
            },
            Key::Esc => s.go_back(),
            _ => {},
        },
        ScannerState::EnteringPortRange { .. } => match key.key {
            Key::Char(c) => s.handle_port_range_char(c),
            Key::Backspace => s.handle_port_range_backspace(),
            Key::Enter => s.advance_from_port_range(),
            Key::Esc => s.go_back(),
            _ => {},
        },
        ScannerState::SelectingOptions { .. } => {
            if is_up(key) {
                s.previous();
            } else if is_down(key) {
                s.next();
            } else if key.key == Key::Char(' ') {
                s.toggle_option();
            } else if key.key == Key::Enter {
                s.advance_to_confirmation();
            } else if key.key == Key::Esc {
                s.go_back();
            }
        },
        ScannerState::Confirming { .. } => {
            if key.key == Key::Enter || is_yes(key) {
                if let Some(session) = s.execute_scan() {
                    request = AppRequest::Scan(session);
                }
            } else if is_no(key) {
                s.go_back();
            }
        },
        ScannerState::Scanning { .. } => {},
        ScannerState::ViewingResults { .. } => {
            if is_up(key) {
                s.previous();
            } else if is_down(key) {
                s.next();
            } else if is_dismiss(key) {
                back = true;
            }
        },
        ScannerState::Success { .. } | ScannerState::Error { .. } => {
            back = is_dismiss(key);
        },
    }
    (back, request)
}

impl App {
    /// Submits the scanner's target once the caller has told whether it
    /// parses as an IP address.
    pub fn target_checked(&mut self, is_ip_literal: bool)
        requires
            old(self).wf(),
        ensures
            final(self).wf(),
            final(self).menu_state == old(self).menu_state,
            final(self).should_quit == old(self).should_quit,
            final(self).usage_url == old(self).usage_url,
            old(self).state matches AppState::FeatureActive(ActiveFeature::Scanner(s)) ==> (
            final(self).state matches AppState::FeatureActive(ActiveFeature::Scanner(t))
                && t.state@ == after_target(s.state@, is_ip_literal)),
            !(old(self).state matches AppState::FeatureActive(ActiveFeature::Scanner(_))) ==> final(
                self).state == old(self).state,
    {
        if let AppState::FeatureActive(ActiveFeature::Scanner(s)) = &mut self.state {
            s.advance_to_options(is_ip_literal);
        }
    }

    /// Shows the running scan's progress.
    pub fn scan_progress(&mut self, completed: usize)
        requires
            old(self).wf(),
        ensures
            final(self).wf(),
            final(self).menu_state == old(self).menu_state,
            final(self).should_quit == old(self).should_quit,
            final(self).usage_url == old(self).usage_url,
            old(self).state matches AppState::FeatureActive(ActiveFeature::Scanner(s)) ==> (
            final(self).state matches AppState::FeatureActive(ActiveFeature::Scanner(t))
                && progress_shown(s.state@, completed, t.state@)),
            !(old(self).state matches AppState::FeatureActive(ActiveFeature::Scanner(_))) ==> final(
                self).state == old(self).state,
    {
        if let AppState::FeatureActive(ActiveFeature::Scanner(s)) = &mut self.state {
            s.update_progress(completed);
        }
    }

    /// Ends the running scan with what the engine found, and why saving the
    /// report failed, if it did.
    pub fn scan_finished(
        &mut self,
        found: Result<Vec<PortInfo>, ModeError>,
        save_failure: Option<ModeError>,
    )
        requires
            old(self).wf(),
        ensures
            final(self).wf(),
            final(self).menu_state == old(self).menu_state,
            final(self).should_quit == old(self).should_quit,
            final(self).usage_url == old(self).usage_url,
            old(self).state matches AppState::FeatureActive(ActiveFeature::Scanner(s)) ==> (
            final(self).state matches AppState::FeatureActive(ActiveFeature::Scanner(t))
                && scan_finished_step(s.state@, found, save_failure, t.state@)),
            !(old(self).state matches AppState::FeatureActive(ActiveFeature::Scanner(_))) ==> final(
                self).state == old(self).state,
    {
        if let AppState::FeatureActive(ActiveFeature::Scanner(s)) = &mut self.state {
            s.finish_scan(found, save_failure);
        }
    }

    /// Continues the alias wizard with the rc file's text.
    pub fn alias_duplicate_checked(&mut self, content: Result<String, ModeError>)
        requires
            old(self).wf(),
        ensures
            final(self).wf(),
            final(self).menu_state == old(self).menu_state,
            final(self).should_quit == old(self).should_quit,
            final(self).usage_url == old(self).usage_url,
            old(self).state matches AppState::FeatureActive(ActiveFeature::AliasManager(f)) ==> (
            final(self).state matches AppState::FeatureActive(ActiveFeature::AliasManager(g))
                && alias_checked(f, content, g)),
            !(old(self).state matches AppState::FeatureActive(ActiveFeature::AliasManager(_))) ==> final(
                self).state == old(self).state,
    {
        if let AppState::FeatureActive(ActiveFeature::AliasManager(m)) = &mut self.state {
            m.duplicate_checked(content);
        }
    }

    /// Ends the alias wizard's change of the rc file. On success the caller's
    /// shell is to reload the rc file on exit.
    pub fn alias_appended(&mut self, name: &str, backup: Result<String, ModeError>)
        requires
            old(self).wf(),
        ensures
            final(self).wf(),
            final(self).menu_state == old(self).menu_state,
            final(self).should_quit == old(self).should_quit,
            final(self).usage_url == old(self).usage_url,
            old(self).state matches AppState::FeatureActive(ActiveFeature::AliasManager(f)) ==> (
            final(self).state matches AppState::FeatureActive(ActiveFeature::AliasManager(g))
                && alias_added(f, name@, backup, g) && (g.state is Success && g.rc_path() is Some ==> (
            final(self).exit_command matches Some(c) && c@ == "source "@ + g.rc_path()->0))
                && (!(g.state is Success && g.rc_path() is Some) ==> final(self).exit_command == old(
                self).exit_command)),
            !(old(self).state matches AppState::FeatureActive(ActiveFeature::AliasManager(_))) ==> final(
                self).state == old(self).state && final(self).exit_command == old(self).exit_command,
    {
        if let AppState::FeatureActive(ActiveFeature::AliasManager(m)) = &mut self.state {
            m.alias_appended(name, backup);
            if matches!(m.state, AliasManagerState::Success { .. }) {
                if let Some(rc) = m.get_rc_file() {
                    self.exit_command = Some(join2("source ", rc.as_str()));
                }
            }
        }
    }

    /// Ends the bookmark's change of the rc file. On success the application
    /// closes and the caller's shell is to reload the rc file.
    pub fn bookmark_created(&mut self, directory: &str, backup: Result<String, ModeError>)
        requires
            old(self).wf(),
        ensures
            final(self).wf(),
            final(self).menu_state == old(self).menu_state,
            final(self).usage_url == old(self).usage_url,
            old(self).state matches AppState::FeatureActive(ActiveFeature::BookmarkManager(f)) ==> (
            final(self).state matches AppState::FeatureActive(ActiveFeature::BookmarkManager(g))
                && bookmark_made(f, directory@, backup, g) && (g.state is Success
                ==> final(self).should_quit) && (!(g.state is Success) ==> final(self).should_quit
                == old(self).should_quit) && (g.state is Success && g.rc_path() is Some ==> (
            final(self).exit_command matches Some(c) && c@ == "source "@ + g.rc_path()->0)) && (!(
            g.state is Success && g.rc_path() is Some) ==> final(self).exit_command == old(
                self).exit_command)),
            !(old(self).state matches AppState::FeatureActive(ActiveFeature::BookmarkManager(_)))
                ==> final(self).state == old(self).state && final(self).exit_command == old(
                self).exit_command && final(self).should_quit == old(self).should_quit,
    {
        if let AppState::FeatureActive(ActiveFeature::BookmarkManager(b)) = &mut self.state {
            b.bookmark_created(directory, backup);
            if b.should_exit_app() {
                self.should_quit = true;
                if let Some(rc) = b.get_rc_file() {
                    self.exit_command = Some(join2("source ", rc.as_str()));
                }
            }
        }
    }

    /// Ends the running clean-up action with its report or its error.
    pub fn process_action_finished(&mut self, result: Result<String, ModeError>)
        requires
            old(self).wf(),
        ensures
            final(self).wf(),
            final(self).menu_state == old(self).menu_state,
            final(self).should_quit == old(self).should_quit,
            final(self).usage_url == old(self).usage_url,
            old(self).state matches AppState::FeatureActive(ActiveFeature::ProcessManager(f)) ==> (
            final(self).state matches AppState::FeatureActive(ActiveFeature::ProcessManager(g))
                && action_finished(f.state, result, g.state) && g.wf()),
            !(old(self).state matches AppState::FeatureActive(ActiveFeature::ProcessManager(_))) ==> final(
                self).state == old(self).state,
    {
        if let AppState::FeatureActive(ActiveFeature::ProcessManager(p)) = &mut self.state {
            p.finish_action(result);
        }
    }

    /// Records how launching the browser went.
    pub fn browser_opened(&mut self, failure: Option<String>)
        requires
            old(self).wf(),
        ensures
            final(self).wf(),
            final(self).menu_state == old(self).menu_state,
            final(self).should_quit == old(self).should_quit,
            final(self).usage_url == old(self).usage_url,
            old(self).state matches AppState::FeatureActive(ActiveFeature::UsageViewer(f)) ==> (
            final(self).state matches AppState::FeatureActive(ActiveFeature::UsageViewer(g))
                && browser_result(f, failure, g)),
            !(old(self).state matches AppState::FeatureActive(ActiveFeature::UsageViewer(_))) ==> final(
                self).state == old(self).state,
    {
        if let AppState::FeatureActive(ActiveFeature::UsageViewer(v)) = &mut self.state {
            v.finish_open(failure);
        }
    }
}

/// The alias wizard is on screen, set up for `shell` and `rc`, at an empty
/// name field.
pub open spec fn alias_started(state: AppState, shell: ShellType, rc: Seq<char>) -> bool {
    &&& state matches AppState::FeatureActive(ActiveFeature::AliasManager(m))
    &&& m.shell == Some(shell)
    &&& m.rc_path() == Some(rc)
    &&& m.state matches AliasManagerState::EnteringName { input }
    &&& input@.len() == 0
}

/// The bookmark feature is on screen, set up for `shell` and `rc`, offering
/// to bookmark `directory`.
pub open spec fn bookmark_started(
    state: AppState,
    shell: ShellType,
    rc: Seq<char>,
    directory: Seq<char>,
) -> bool {
    &&& state matches AppState::FeatureActive(ActiveFeature::BookmarkManager(b))
    &&& b.shell == Some(shell)
    &&& b.rc_path() == Some(rc)
    &&& b.state matches BookmarkManagerState::Confirming { directory: d }
    &&& d@ == directory
}

/// What a key does on the main menu: quit keys close the application, the
/// arrows (or `k` and `j`) move the selection, Enter opens the item.
pub open spec fn menu_key_step(before: App, key: KeyPress, after: App, r: AppRequest) -> bool {
    &&& after.usage_url == before.usage_url
    &&& after.exit_command == before.exit_command
    &&& quits(key) ==> after.should_quit && after.state is MainMenu && r is Nothing
        && after.menu_state == before.menu_state
    &&& moves_up(key) ==> after.state is MainMenu && r is Nothing
        && after.should_quit == before.should_quit
        && after.menu_state.index() == if before.menu_state.index() > 0 {
            (before.menu_state.index() - 1) as usize
        } else {
            (menu_items().len() - 1) as usize
        }
    &&& moves_down(key) ==> after.state is MainMenu && r is Nothing
        && after.should_quit == before.should_quit
        && after.menu_state.index() == if before.menu_state.index() + 1 < menu_items().len() {
            (before.menu_state.index() + 1) as usize
        } else {
            0
        }
    &&& key.key == Key::Enter ==> after.menu_state == before.menu_state
        && after.should_quit == before.should_quit
        && activated(menu_items()[before.menu_state.index() as int], after.state, r, before.usage_url@)
    &&& !(quits(key) || moves_up(key) || moves_down(key) || key.key == Key::Enter) ==> r is Nothing
        && after.state is MainMenu && after.menu_state == before.menu_state
        && after.should_quit == before.should_quit
}

/// Opening `item` from the menu leads to `state` and asks for `r`.
pub open spec fn activated(item: MenuItem, state: AppState, r: AppRequest, url: Seq<char>) -> bool {
    if !item_active(item) {
        &&& r is Nothing
        &&& state matches AppState::FeatureActive(ActiveFeature::Placeholder(p))
        &&& p.title() == item_name(item)
    } else if item == MenuItem::AliasManager || item == MenuItem::Bookmark {
        r is DetectShell && state is MainMenu
    } else if item == MenuItem::ProcessManager {
        &&& r is Nothing
        &&& state matches AppState::FeatureActive(ActiveFeature::ProcessManager(p))
        &&& p.state == (ProcessManagerState::SelectingAction { selected: 0 })
    } else if item == MenuItem::UsageViewer {
        &&& r matches AppRequest::OpenBrowser(u)
        &&& u@ == url
        &&& state matches AppState::FeatureActive(ActiveFeature::UsageViewer(v))
        &&& v.state is Opening
        &&& v.url@ == url
    } else {
        &&& r is Nothing
        &&& state matches AppState::FeatureActive(ActiveFeature::Scanner(s))
        &&& s.state@ == (crate::features::scanner::ScannerModel::SelectingScanType { selected: 0 })
    }
}

} // verus!
