//! Bookmarks the current directory as the `temp` alias. The caller supplies
//! the directory, changes the rc file when asked, and reports back.

use vstd::prelude::*;
use crate::errors::{ModeError, describes};
use crate::features::alias_manager::AliasRequest;
use crate::shell::{ShellType, shell_name};
use crate::text::{join2, join3};

verus! {

/// The steps of the bookmark feature.
#[derive(Debug)]
pub enum BookmarkManagerState {
    /// Asking whether to bookmark the directory.
    Confirming { directory: String },
    /// The rc file is being changed.
    Processing,
    /// The bookmark exists; the application should exit.
    Success { message: String },
    /// Failed, with a message.
    Error { message: String },
}

/// The command that the `temp` alias runs.
pub open spec fn bookmark_command(directory: Seq<char>) -> Seq<char> {
    "cd \""@ + directory + "\""@
}

/// The shell named in the reload hint.
pub open spec fn hint_shell(shell: Option<ShellType>) -> Seq<char> {
    match shell {
        Some(s) => shell_name(s),
        None => "bash"@,
    }
}

/// The message once the bookmark exists.
pub open spec fn bookmarked_message(directory: Seq<char>, backup: Seq<char>, shell: Seq<char>) -> Seq<
    char,
> {
    "\u{2713} Temporary bookmark created!\n\nDirectory: "@ + directory + "\nAlias: temp\nBackup: "@
        + backup + "\n\nIMPORTANT: Reload your shell to use the alias:\n\nsource ~/."@ + shell
        + "rc\nOR\nexec "@ + shell + "\n\nThen type: temp"@
}

/// Confirming leads to `after` and asks for `r`: the rc file is to get
/// `alias temp='cd "<dir>"'`, replacing any earlier `temp` alias. Nothing is
/// asked while the rc file is unknown, or when not confirming.
pub open spec fn bookmark_confirmed(before: BookmarkManager, after: BookmarkManager, r: AliasRequest) -> bool {
    &&& after.shell == before.shell
    &&& after.rc_path() == before.rc_path()
    &&& before.state matches BookmarkManagerState::Confirming { directory } ==> {
        &&& after.state is Processing
        &&& match before.rc_path() {
            Some(p) => r matches AliasRequest::Append { rc_file, name, command } && rc_file@ == p
                && name@ == "temp"@ && command@ == bookmark_command(directory@),
            None => r is Nothing,
        }
    }
    &&& !(before.state is Confirming) ==> r is Nothing && after.state == before.state
}

/// The change of the rc file for the bookmark of `directory` ended: `backup`
/// is the path of the backup made, or why the change failed.
pub open spec fn bookmark_made(
    before: BookmarkManager,
    directory: Seq<char>,
    backup: Result<String, ModeError>,
    after: BookmarkManager,
) -> bool {
    &&& after.shell == before.shell
    &&& after.rc_path() == before.rc_path()
    &&& before.state is Processing ==> match backup {
            Ok(b) => after.state matches BookmarkManagerState::Success { message }
                && message@ == bookmarked_message(directory, b@, hint_shell(before.shell)),
            Err(e) => after.state matches BookmarkManagerState::Error { message }
                && exists|shown: Seq<char>|
                describes(e, shown) && message@ == "Failed to create bookmark: "@ + shown,
        }
    &&& !(before.state is Processing) ==> after.state == before.state
}

/// The bookmark feature.
#[derive(Debug)]
pub struct BookmarkManager {
    pub state: BookmarkManagerState,
    pub shell: Option<ShellType>,
    pub rc_file: Option<String>,
}

impl BookmarkManager {
    /// The rc file's path, once known.
    pub open spec fn rc_path(&self) -> Option<Seq<char>> {
        match self.rc_file {
            Some(p) => Some(p@),
            None => None,
        }
    }

    /// Offers to bookmark `directory`, the current working directory.
    pub fn new(directory: String) -> (r: BookmarkManager)
        ensures
            r.state matches BookmarkManagerState::Confirming { directory: d } && d@ == directory@,
            r.shell is None,
            r.rc_path() is None,
    {
        BookmarkManager {
            state: BookmarkManagerState::Confirming { directory },
            shell: None,
            rc_file: None,
        }
    }

    /// Records the user's shell and the path of its rc file.
    pub fn initialize(&mut self, shell: ShellType, rc_file: String)
        ensures
            final(self).shell == Some(shell),
            final(self).rc_path() == Some(rc_file@),
            final(self).state == old(self).state,
    {
        self.shell = Some(shell);
        self.rc_file = Some(rc_file);
    }

    /// Confirms the bookmark: the rc file is to get `alias temp='cd "<dir>"'`,
    /// replacing any earlier `temp` alias. Nothing is asked while the rc file
    /// is unknown.
    pub fn confirm_bookmark(&mut self) -> (r: AliasRequest)
        ensures
            bookmark_confirmed(*old(self), *final(self), r),
    {
        let directory = match &self.state {
            BookmarkManagerState::Confirming { directory } => directory.clone(),
            _ => {
                return AliasRequest::Nothing;
            },
        };
        self.state = BookmarkManagerState::Processing;
        match &self.rc_file {
            Some(p) => AliasRequest::Append {
                rc_file: p.clone(),
                name: "temp".to_owned(),
                command: join3("cd \"", directory.as_str(), "\""),
            },
            None => AliasRequest::Nothing,
        }
    }

    /// Ends the change of the rc file for the bookmark of `directory`:
    /// `backup` is the path of the backup made, or why the change failed.
    pub fn bookmark_created(&mut self, directory: &str, backup: Result<String, ModeError>)
        ensures
            bookmark_made(*old(self), directory@, backup, *final(self)),
    {
        if !matches!(self.state, BookmarkManagerState::Processing) {
            return;
        }
        match backup {
            Ok(b) => {
                let shell = match self.shell {
                    Some(s) => s.name(),
                    None => "bash",
                };
                let a = join3("\u{2713} Temporary bookmark created!\n\nDirectory: ", directory, "\nAlias: temp\nBackup: ");
                let a = join3(a.as_str(), b.as_str(), "\n\nIMPORTANT: Reload your shell to use the alias:\n\nsource ~/.");
                let a = join3(a.as_str(), shell, "rc\nOR\nexec ");
                let message = join3(a.as_str(), shell, "\n\nThen type: temp");
                self.state = BookmarkManagerState::Success { message };
            },
            Err(e) => {
                let shown = e.message();
                let message = join2("Failed to create bookmark: ", shown.as_str());
                self.state = BookmarkManagerState::Error { message };
            },
        }
    }

    /// Declines the bookmark; the caller returns to the menu.
    pub fn cancel(&mut self)
        ensures
            final(self).state == old(self).state,
            final(self).shell == old(self).shell,
            final(self).rc_file == old(self).rc_file,
    {
    }

    /// Whether the feature has finished, either way.
    pub fn is_done(&self) -> (r: bool)
        ensures
            r == (self.state is Success || self.state is Error),
    {
        match self.state {
            BookmarkManagerState::Success { .. } | BookmarkManagerState::Error { .. } => true,
            _ => false,
        }
    }

    /// Whether the bookmark was made, so that the application should exit.
    pub fn should_exit_app(&self) -> (r: bool)
        ensures
            r == self.state is Success,
    {
        matches!(self.state, BookmarkManagerState::Success { .. })
    }

    /// The text shown on the current step.
    pub fn get_prompt(&self) -> (r: String)
        ensures
            self.state matches BookmarkManagerState::Confirming { directory } ==> r@ == directory@,
            self.state is Processing ==> r@ == "Creating bookmark..."@,
            self.state matches BookmarkManagerState::Success { message } ==> r@ == message@,
            self.state matches BookmarkManagerState::Error { message } ==> r@ == "Error: "@
                + message@,
    {
        match &self.state {
            BookmarkManagerState::Confirming { directory } => directory.clone(),
            BookmarkManagerState::Processing => "Creating bookmark...".to_owned(),
            BookmarkManagerState::Success { message } => message.clone(),
            BookmarkManagerState::Error { message } => join2("Error: ", message.as_str()),
        }
    }

    /// The directory, while confirming.
    pub fn get_confirmation_data(&self) -> (r: Option<String>)
        ensures
            self.state matches BookmarkManagerState::Confirming { directory } ==> r matches Some(
                d,
            ) && d@ == directory@,
            !(self.state is Confirming) ==> r is None,
    {
        match &self.state {
            BookmarkManagerState::Confirming { directory } => Some(directory.clone()),
            _ => None,
        }
    }

    /// The rc file's path, once known.
    pub fn get_rc_file(&self) -> (r: Option<&String>)
        ensures
            r matches Some(p) ==> self.rc_path() == Some(p@),
            r is None ==> self.rc_path() is None,
    {
        match &self.rc_file {
            Some(p) => Some(p),
            None => None,
        }
    }
}

} // verus!
