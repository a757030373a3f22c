//! The alias wizard: name, command, confirmation. The caller reads and writes
//! the rc file when asked to, and reports back.

use vstd::prelude::*;
use crate::errors::{ModeError, describes};
use crate::rc_file::{has_alias, rc_content_has_alias};
use crate::shell::{ShellType, alias_name_error, shell_rc_file_name, validate_alias_name};
use crate::text::{join2, join3, pop_char, push_char, trim, trimmed};

verus! {

/// The steps of the alias wizard.
#[derive(Debug)]
pub enum AliasManagerState {
    /// Typing the alias name.
    EnteringName { input: String },
    /// Typing the command the alias stands for.
    EnteringCommand { name: String, input: String },
    /// Asking whether to add the alias.
    Confirming { name: String, command: String },
    /// The rc file is being changed.
    Processing,
    /// Finished, with a message.
    Success { message: String },
    /// Failed, with a message.
    Error { message: String },
}

/// Work on the rc file that the wizard asks its caller to do.
#[derive(Debug)]
pub enum AliasRequest {
    /// Nothing is needed.
    Nothing,
    /// Read the rc file and pass its text (or the failure) to
    /// `duplicate_checked`.
    CheckDuplicate { rc_file: String, name: String },
    /// Back up the rc file, add `alias name='command'` to it, and pass the
    /// backup's path (or the failure) to the matching completion.
    Append { rc_file: String, name: String, command: String },
}

/// The message after an alias was added.
pub open spec fn added_message(
    name: Seq<char>,
    rc_file: Seq<char>,
    backup: Seq<char>,
    rc_name: Seq<char>,
) -> Seq<char> {
    "Success! Alias '"@ + name + "' added to "@ + rc_file + "\n\nBackup created: "@ + backup
        + "\n\nTo use the alias, reload your shell:\n  source ~/"@ + rc_name
        + "\n\nOr start a new terminal session."@
}

/// The rc file name shown in the reload hint.
pub open spec fn reload_name(shell: Option<ShellType>) -> Seq<char> {
    match shell {
        Some(s) => shell_rc_file_name(s),
        None => "shell"@,
    }
}

/// The field being typed into got `c`.
pub open spec fn alias_typed(before: AliasManager, after: AliasManager, c: char) -> bool {
    &&& after.shell_spec() == before.shell_spec()
    &&& after.rc_path() == before.rc_path()
    &&& before.state matches AliasManagerState::EnteringName { input } ==> (
        after.state matches AliasManagerState::EnteringName { input: typed }
            && typed@ == input@.push(c))
    &&& before.state matches AliasManagerState::EnteringCommand { name, input } ==> (
        after.state matches AliasManagerState::EnteringCommand { name: n, input: typed }
            && n == name && typed@ == input@.push(c))
    &&& !(before.state is EnteringName || before.state is EnteringCommand) ==> after.state == before.state
}

/// The field being typed into lost its last character.
pub open spec fn alias_erased(before: AliasManager, after: AliasManager) -> bool {
    &&& after.shell_spec() == before.shell_spec()
    &&& after.rc_path() == before.rc_path()
    &&& before.state matches AliasManagerState::EnteringName { input } ==> (
        after.state matches AliasManagerState::EnteringName { input: kept }
            && kept@ == if input@.len() > 0 { input@.drop_last() } else { input@ })
    &&& before.state matches AliasManagerState::EnteringCommand { name, input } ==> (
        after.state matches AliasManagerState::EnteringCommand { name: n, input: kept }
            && n == name && kept@ == if input@.len() > 0 { input@.drop_last() } else { input@ })
    &&& !(before.state is EnteringName || before.state is EnteringCommand) ==> after.state == before.state
}

/// The step after submitting, and the rc file work asked for.
pub open spec fn alias_advanced(before: AliasManager, after: AliasManager, r: AliasRequest) -> bool {
    &&& after.shell_spec() == before.shell_spec()
    &&& after.rc_path() == before.rc_path()
    &&& before.state matches AliasManagerState::EnteringName { input } ==> match alias_name_error(
        trim(input@),
    ) {
        Some(m) => r is Nothing && (after.state matches AliasManagerState::Error { message }
            && message@ == "Invalid alias name: "@ + m),
        None => after.state == before.state && match before.rc_path() {
            Some(p) => r matches AliasRequest::CheckDuplicate { rc_file, name: n } && rc_file@ == p
                && n@ == trim(input@),
            None => r is Nothing,
        },
    }
    &&& before.state matches AliasManagerState::EnteringCommand { name, input } ==> {
        &&& r is Nothing
        &&& trim(input@).len() == 0 ==> (after.state matches AliasManagerState::Error { message }
            && message@ == "Command cannot be empty"@)
        &&& trim(input@).len() > 0 ==> (after.state matches AliasManagerState::Confirming {
            name: n,
            command,
        } && n == name && command@ == trim(input@))
    }
    &&& before.state matches AliasManagerState::Confirming { name, command } ==> {
        &&& after.state is Processing
        &&& match before.rc_path() {
            Some(p) => r matches AliasRequest::Append { rc_file, name: n, command: c }
                && rc_file@ == p && n == name && c == command,
            None => r is Nothing,
        }
    }
    &&& !(before.state is EnteringName || before.state is EnteringCommand
        || before.state is Confirming) ==> r is Nothing && after.state == before.state
}

/// Back to an empty name field from the command or confirmation.
pub open spec fn alias_went_back(before: AliasManager, after: AliasManager) -> bool {
    &&& after.shell_spec() == before.shell_spec()
    &&& after.rc_path() == before.rc_path()
    &&& (before.state is EnteringCommand || before.state is Confirming) ==> (
        after.state matches AliasManagerState::EnteringName { input } && input@.len() == 0)
    &&& !(before.state is EnteringCommand || before.state is Confirming) ==> after.state == before.state
}

/// The name step continued with the rc file text `content`: an alias defined
/// there already ends the wizard, as does a failure to read the file;
/// otherwise the command is asked for.
pub open spec fn alias_checked(
    before: AliasManager,
    content: Result<String, ModeError>,
    after: AliasManager,
) -> bool {
    &&& after.shell_spec() == before.shell_spec()
    &&& after.rc_path() == before.rc_path()
    &&& before.state matches AliasManagerState::EnteringName { input } ==> {
            let name = trim(input@);
            match content {
                Ok(text) => if has_alias(text@, name) {
                    after.state matches AliasManagerState::Error { message }
                        && message@ == "Alias '"@ + name + "' already exists in RC file"@
                } else {
                    after.state matches AliasManagerState::EnteringCommand {
                        name: n,
                        input: fresh,
                    } && n@ == name && fresh@.len() == 0
                },
                Err(e) => after.state matches AliasManagerState::Error { message }
                    && exists|shown: Seq<char>|
                    describes(e, shown) && message@ == "Failed to check for duplicates: "@
                        + shown,
            }
        }
    &&& !(before.state is EnteringName) ==> after.state == before.state
}

/// The change of the rc file for alias `name` ended: `backup` is the path of
/// the backup made, or why the change failed.
pub open spec fn alias_added(
    before: AliasManager,
    name: Seq<char>,
    backup: Result<String, ModeError>,
    after: AliasManager,
) -> bool {
    &&& after.shell_spec() == before.shell_spec()
    &&& after.rc_path() == before.rc_path()
    &&& (before.state is Processing && before.rc_path() is Some) ==> match backup {
            Ok(b) => after.state matches AliasManagerState::Success { message }
                && message@ == added_message(
                name,
                before.rc_path()->0,
                b@,
                reload_name(before.shell_spec()),
            ),
            Err(e) => after.state matches AliasManagerState::Error { message }
                && exists|shown: Seq<char>|
                describes(e, shown) && message@ == "Failed to create alias: "@ + shown,
        }
    &&& !(before.state is Processing && before.rc_path() is Some) ==> after.state
            == before.state
}

/// The alias wizard.
#[derive(Debug)]
pub struct AliasManager {
    pub state: AliasManagerState,
    pub shell: Option<ShellType>,
    pub rc_file: Option<String>,
}

impl AliasManager {
    /// The shell whose rc file is edited, once known.
    pub open spec fn shell_spec(&self) -> Option<ShellType> {
        self.shell
    }

    /// The rc file's path, once known.
    pub open spec fn rc_path(&self) -> Option<Seq<char>> {
        match self.rc_file {
            Some(p) => Some(p@),
            None => None,
        }
    }

    /// A wizard with an empty name field and no rc file yet.
    pub fn new() -> (r: AliasManager)
        ensures
            r.state matches AliasManagerState::EnteringName { input } && input@.len() == 0,
            r.shell_spec() is None,
            r.rc_path() is None,
    {
        AliasManager {
            state: AliasManagerState::EnteringName { input: String::new() },
            shell: None,
            rc_file: None,
        }
    }

    /// Records the user's shell and the path of its rc file.
    pub fn initialize(&mut self, shell: ShellType, rc_file: String)
        ensures
            final(self).shell_spec() == Some(shell),
            final(self).rc_path() == Some(rc_file@),
            final(self).state == old(self).state,
    {
        self.shell = Some(shell);
        self.rc_file = Some(rc_file);
    }

    /// The rc file's path, once known.
    pub fn get_rc_file(&self) -> (r: Option<&String>)
        ensures
            r matches Some(p) ==> self.rc_path() == Some(p@),
            r is None ==> self.rc_path() is None,
    {
        match &self.rc_file {
            Some(p) => Some(p),
            None => None,
        }
    }

    /// Types a character into the current field.
    pub fn handle_char(&mut self, c: char)
        ensures
            alias_typed(*old(self), *final(self), c),
    {
        match &mut self.state {
            AliasManagerState::EnteringName { input } => push_char(input, c),
            AliasManagerState::EnteringCommand { input, .. } => push_char(input, c),
            _ => {},
        }
    }

    /// Deletes the last character of the current field.
    pub fn handle_backspace(&mut self)
        ensures
            alias_erased(*old(self), *final(self)),
    {
        match &mut self.state {
            AliasManagerState::EnteringName { input } => {
                pop_char(input);
            },
            AliasManagerState::EnteringCommand { input, .. } => {
                pop_char(input);
            },
            _ => {},
        }
    }

    /// Submits the current step. A rejected name or an empty command ends the
    /// wizard with the reason. A valid name asks for the duplicate check; a
    /// command moves on to the confirmation; the confirmation starts the
    /// change of the rc file and asks for it. Nothing is asked while the rc
    /// file is unknown.
    pub fn advance(&mut self) -> (r: AliasRequest)
        ensures
            alias_advanced(*old(self), *final(self), r),
    {
        match &self.state {
            AliasManagerState::EnteringName { input } => {
                let name = trimmed(input.as_str());
                match validate_alias_name(name.as_str()) {
                    Err(e) => {
                        let message = e.message();
                        self.state = AliasManagerState::Error { message };
                        AliasRequest::Nothing
                    },
                    Ok(()) => match &self.rc_file {
                        Some(p) => AliasRequest::CheckDuplicate { rc_file: p.clone(), name },
                        None => AliasRequest::Nothing,
                    },
                }
            },
            AliasManagerState::EnteringCommand { name, input } => {
                let command = trimmed(input.as_str());
                if command.as_str().is_empty() {
                    self.state = AliasManagerState::Error {
                        message: "Command cannot be empty".to_owned(),
                    };
                } else {
                    self.state = AliasManagerState::Confirming { name: name.clone(), command };
                }
                AliasRequest::Nothing
            },
            AliasManagerState::Confirming { name, command } => {
                let name = name.clone();
                let command = command.clone();
                self.state = AliasManagerState::Processing;
                match &self.rc_file {
                    Some(p) => AliasRequest::Append { rc_file: p.clone(), name, command },
                    None => AliasRequest::Nothing,
                }
            },
            _ => AliasRequest::Nothing,
        }
    }

    /// Continues the name step with the rc file's text, as `advance` asked:
    /// an alias defined there already ends the wizard; otherwise the command
    /// is asked for. A failure to read the file ends the wizard too.
    pub fn duplicate_checked(&mut self, content: Result<String, ModeError>)
        ensures
            alias_checked(*old(self), content, *final(self)),
    {
        let name = match &self.state {
            AliasManagerState::EnteringName { input } => trimmed(input.as_str()),
            _ => {
                return;
            },
        };
        match content {
            Ok(text) => {
                if rc_content_has_alias(text.as_str(), name.as_str()) {
                    let message = join3("Alias '", name.as_str(), "' already exists in RC file");
                    self.state = AliasManagerState::Error { message };
                } else {
                    self.state = AliasManagerState::EnteringCommand { name, input: String::new() };
                }
            },
            Err(e) => {
                let shown = e.message();
                let message = join2("Failed to check for duplicates: ", shown.as_str());
                self.state = AliasManagerState::Error { message };
            },
        }
    }

    /// Ends the change of the rc file for alias `name`: `backup` is the path
    /// of the backup made, or why the change failed.
    pub fn alias_appended(&mut self, name: &str, backup: Result<String, ModeError>)
        ensures
            alias_added(*old(self), name@, backup, *final(self)),
    {
        if !matches!(self.state, AliasManagerState::Processing) {
            return;
        }
        let rc = match &self.rc_file {
            Some(p) => p.clone(),
            None => {
                return;
            },
        };
        match backup {
            Ok(b) => {
                let rc_name = match self.shell {
                    Some(s) => s.rc_file_name(),
                    None => "shell",
                };
                let a = join3("Success! Alias '", name, "' added to ");
                let a = join3(a.as_str(), rc.as_str(), "\n\nBackup created: ");
                let a = join3(a.as_str(), b.as_str(), "\n\nTo use the alias, reload your shell:\n  source ~/");
                let message = join3(a.as_str(), rc_name, "\n\nOr start a new terminal session.");
                self.state = AliasManagerState::Success { message };
            },
            Err(e) => {
                let shown = e.message();
                let message = join2("Failed to create alias: ", shown.as_str());
                self.state = AliasManagerState::Error { message };
            },
        }
    }

    /// Goes back to an empty name field from the command or confirmation.
    pub fn go_back(&mut self)
        ensures
            alias_went_back(*old(self), *final(self)),
    {
        match &self.state {
            AliasManagerState::EnteringCommand { .. } | AliasManagerState::Confirming { .. } => {
                self.state = AliasManagerState::EnteringName { input: String::new() };
            },
            _ => {},
        }
    }

    /// Whether the wizard has ended, either way.
    pub fn is_done(&self) -> (r: bool)
        ensures
            r == (self.state is Success || self.state is Error),
    {
        match self.state {
            AliasManagerState::Success { .. } | AliasManagerState::Error { .. } => true,
            _ => false,
        }
    }

    /// Starts over with an empty name field.
    pub fn reset(&mut self)
        ensures
            final(self).shell_spec() == old(self).shell_spec(),
            final(self).rc_path() == old(self).rc_path(),
            final(self).state matches AliasManagerState::EnteringName { input } && input@.len()
                == 0,
    {
        self.state = AliasManagerState::EnteringName { input: String::new() };
    }

    /// The text shown on the current step.
    pub fn get_prompt(&self) -> (r: String)
        ensures
            self.state is EnteringName ==> r@ == "Enter alias name (e.g., 'll', 'gs'):"@,
            self.state is EnteringCommand ==> r@
                == "Enter command (e.g., 'ls -la', 'git status'):"@,
            self.state matches AliasManagerState::Confirming { name, command } ==> r@
                == "Create this alias?\n\nalias "@ + name@ + "='"@ + command@
                + "'\n\n[Y]es / [N]o"@,
            self.state is Processing ==> r@ == "Creating alias..."@,
            self.state matches AliasManagerState::Success { message } ==> r@ == message@,
            self.state matches AliasManagerState::Error { message } ==> r@ == "Error: "@
                + message@,
    {
        match &self.state {
            AliasManagerState::EnteringName { .. } => {
                "Enter alias name (e.g., 'll', 'gs'):".to_owned()
            },
            AliasManagerState::EnteringCommand { .. } => {
                "Enter command (e.g., 'ls -la', 'git status'):".to_owned()
            },
            AliasManagerState::Confirming { name, command } => {
                let a = join3("Create this alias?\n\nalias ", name.as_str(), "='");
                join3(a.as_str(), command.as_str(), "'\n\n[Y]es / [N]o")
            },
            AliasManagerState::Processing => "Creating alias...".to_owned(),
            AliasManagerState::Success { message } => message.clone(),
            AliasManagerState::Error { message } => join2("Error: ", message.as_str()),
        }
    }

    /// The text of the field being typed into; empty on other steps.
    pub fn get_input(&self) -> (r: String)
        ensures
            self.state matches AliasManagerState::EnteringName { input } ==> r@ == input@,
            self.state matches AliasManagerState::EnteringCommand { input, .. } ==> r@ == input@,
            !(self.state is EnteringName || self.state is EnteringCommand) ==> r@.len() == 0,
    {
        match &self.state {
            AliasManagerState::EnteringName { input } => input.clone(),
            AliasManagerState::EnteringCommand { input, .. } => input.clone(),
            _ => String::new(),
        }
    }
}

} // verus!
