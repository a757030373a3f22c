//! The main menu: its items and the selection cursor.

use vstd::prelude::*;

verus! {

/// An entry of the main menu.
#[derive(Debug, Clone, Copy, PartialEq, Eq, Structural)]
pub enum MenuItem {
    /// Create shell aliases, with validation and backups.
    AliasManager,
    /// Kill lingering development processes.
    ProcessManager,
    /// Bookmark the current directory as the `temp` alias.
    Bookmark,
    /// Open the usage dashboard in a browser.
    UsageViewer,
    /// Scan network ports.
    Scanner,
    /// Planned: environment variables.
    EnvManager,
    /// Planned: PATH editing.
    PathManager,
    /// Planned: SSH configuration.
    SshManager,
    /// Planned: git shortcuts.
    GitShortcuts,
    /// Planned: system information.
    SystemInfo,
    /// Planned: settings.
    Settings,
}

/// The menu items in display order: the working features first.
pub open spec fn menu_items() -> Seq<MenuItem> {
    seq![
        MenuItem::AliasManager,
        MenuItem::ProcessManager,
        MenuItem::Bookmark,
        MenuItem::UsageViewer,
        MenuItem::Scanner,
        MenuItem::EnvManager,
        MenuItem::PathManager,
        MenuItem::SshManager,
        MenuItem::GitShortcuts,
        MenuItem::SystemInfo,
        MenuItem::Settings,
    ]
}

pub open spec fn item_active(m: MenuItem) -> bool {
    m is AliasManager || m is ProcessManager || m is Bookmark || m is UsageViewer || m is Scanner
}

pub open spec fn item_name(m: MenuItem) -> Seq<char> {
    match m {
        MenuItem::AliasManager => "Alias Manager"@,
        MenuItem::ProcessManager => "Process Manager"@,
        MenuItem::Bookmark => "Bookmark Directory"@,
        MenuItem::UsageViewer => "Usage Viewer"@,
        MenuItem::Scanner => "Port Scanner"@,
        MenuItem::EnvManager => "Environment Variables"@,
        MenuItem::PathManager => "PATH Manager"@,
        MenuItem::SshManager => "SSH Config"@,
        MenuItem::GitShortcuts => "Git Shortcuts"@,
        MenuItem::SystemInfo => "System Info"@,
        MenuItem::Settings => "Settings"@,
    }
}

pub open spec fn item_description(m: MenuItem) -> Seq<char> {
    match m {
        MenuItem::AliasManager => "Create and manage shell aliases with validation and backups"@,
        MenuItem::ProcessManager =>
            "Kill lingering development server processes (cursor, code-server, vite, etc.)"@,
        MenuItem::Bookmark =>
            "Quickly save and navigate to current directory using 'temp' alias"@,
        MenuItem::UsageViewer => "Open the API usage dashboard in your browser"@,
        MenuItem::Scanner => "Scan network ports with service detection and custom ranges"@,
        MenuItem::EnvManager => "View, edit, and manage environment variables (coming soon)"@,
        MenuItem::PathManager => "Organize and clean up your PATH with validation (coming soon)"@,
        MenuItem::SshManager =>
            "Manage SSH host configurations and connection settings (coming soon)"@,
        MenuItem::GitShortcuts => "Create git aliases and shortcuts with templates (coming soon)"@,
        MenuItem::SystemInfo =>
            "Monitor CPU, memory, disk usage and system resources (coming soon)"@,
        MenuItem::Settings => "Customize themes, shortcuts, and app preferences (coming soon)"@,
    }
}

impl MenuItem {
    /// All items, in display order.
    pub fn all() -> (r: Vec<MenuItem>)
        ensures
            r@ == menu_items(),
    {
        let r = vec![
            MenuItem::AliasManager,
            MenuItem::ProcessManager,
            MenuItem::Bookmark,
            MenuItem::UsageViewer,
            MenuItem::Scanner,
            MenuItem::EnvManager,
            MenuItem::PathManager,
            MenuItem::SshManager,
            MenuItem::GitShortcuts,
            MenuItem::SystemInfo,
            MenuItem::Settings,
        ];
        assert(r@ =~= menu_items());
        r
    }

    /// The display name.
    pub fn name(&self) -> (r: &'static str)
        ensures
            r@ == item_name(*self),
    {
        match self {
            MenuItem::AliasManager => "Alias Manager",
            MenuItem::ProcessManager => "Process Manager",
            MenuItem::Bookmark => "Bookmark Directory",
            MenuItem::UsageViewer => "Usage Viewer",
            MenuItem::Scanner => "Port Scanner",
            MenuItem::EnvManager => "Environment Variables",
            MenuItem::PathManager => "PATH Manager",
            MenuItem::SshManager => "SSH Config",
            MenuItem::GitShortcuts => "Git Shortcuts",
            MenuItem::SystemInfo => "System Info",
            MenuItem::Settings => "Settings",
        }
    }

    /// The one-line description.
    pub fn description(&self) -> (r: &'static str)
        ensures
            r@ == item_description(*self),
    {
        match self {
            MenuItem::AliasManager => "Create and manage shell aliases with validation and backups",
            MenuItem::ProcessManager => "Kill lingering development server processes (cursor, code-server, vite, etc.)",
            MenuItem::Bookmark => "Quickly save and navigate to current directory using 'temp' alias",
            MenuItem::UsageViewer => "Open the API usage dashboard in your browser",
            MenuItem::Scanner => "Scan network ports with service detection and custom ranges",
            MenuItem::EnvManager => "View, edit, and manage environment variables (coming soon)",
            MenuItem::PathManager => "Organize and clean up your PATH with validation (coming soon)",
            MenuItem::SshManager => "Manage SSH host configurations and connection settings (coming soon)",
            MenuItem::GitShortcuts => "Create git aliases and shortcuts with templates (coming soon)",
            MenuItem::SystemInfo => "Monitor CPU, memory, disk usage and system resources (coming soon)",
            MenuItem::Settings => "Customize themes, shortcuts, and app preferences (coming soon)",
        }
    }

    /// Whether the item leads to a working feature.
    pub fn is_active(&self) -> (r: bool)
        ensures
            r == item_active(*self),
    {
        match self {
            MenuItem::AliasManager | MenuItem::ProcessManager | MenuItem::Bookmark
            | MenuItem::UsageViewer | MenuItem::Scanner => true,
            _ => false,
        }
    }

    /// How many items the menu has.
    pub fn count() -> (r: usize)
        ensures
            r == menu_items().len(),
    {
        MenuItem::all().len()
    }
}

/// The menu cursor.
#[derive(Debug, Clone, Copy)]
pub struct MenuState {
    selected: usize,
    items_count: usize,
}

impl MenuState {
    /// The selected index.
    pub closed spec fn index(&self) -> usize {
        self.selected
    }

    /// The cursor points at one of the items.
    pub closed spec fn wf(&self) -> bool {
        self.items_count == menu_items().len() && self.selected < self.items_count
    }

    /// A cursor in a consistent state points at one of the items.
    pub proof fn lemma_index_in_range(&self)
        requires
            self.wf(),
        ensures
            self.index() < menu_items().len(),
    {
    }

    /// A cursor on the first item.
    pub fn new() -> (r: MenuState)
        ensures
            r.wf(),
            r.index() < menu_items().len(),
            r.index() == 0,
    {
        MenuState { selected: 0, items_count: MenuItem::count() }
    }

    /// The selected index.
    pub fn selected(&self) -> (r: usize)
        ensures
            r == self.index(),
    {
        self.selected
    }

    /// The selected item.
    pub fn selected_item(&self) -> (r: MenuItem)
        requires
            self.wf(),
        ensures
            r == menu_items()[self.index() as int],
    {
        let items = MenuItem::all();
        items[self.selected]
    }

    /// Moves up, wrapping from the first item to the last.
    pub fn previous(&mut self)
        requires
            old(self).wf(),
        ensures
            final(self).wf(),
            final(self).index() < menu_items().len(),
            final(self).index() == if old(self).index() > 0 {
                (old(self).index() - 1) as usize
            } else {
                (menu_items().len() - 1) as usize
            },
    {
        if self.selected > 0 {
            self.selected = self.selected - 1;
        } else {
            self.selected = self.items_count - 1;
        }
    }

    /// Moves down, wrapping from the last item to the first.
    pub fn next(&mut self)
        requires
            old(self).wf(),
        ensures
            final(self).wf(),
            final(self).index() < menu_items().len(),
            final(self).index() == if old(self).index() + 1 < menu_items().len() {
                (old(self).index() + 1) as usize
            } else {
                0
            },
    {
        if self.selected < self.items_count - 1 {
            self.selected = self.selected + 1;
        } else {
            self.selected = 0;
        }
    }

    /// Selects the item at `index`; an index past the end is ignored.
    pub fn select(&mut self, index: usize)
        requires
            old(self).wf(),
        ensures
            final(self).wf(),
            final(self).index() < menu_items().len(),
            final(self).index() == if index < menu_items().len() {
                index
            } else {
                old(self).index()
            },
    {
        if index < self.items_count {
            self.selected = index;
        }
    }

    /// Goes back to the first item.
    pub fn reset(&mut self)
        requires
            old(self).wf(),
        ensures
            final(self).wf(),
            final(self).index() < menu_items().len(),
            final(self).index() == 0,
    {
        self.selected = 0;
    }
}

} // verus!
