//! Clean-up of lingering development processes. The caller runs `pkill -f`
//! for each pattern of the chosen action and hands back how each run ended;
//! this decides what the operator is told.

use vstd::prelude::*;
use crate::errors::{ModeError, describes};
use crate::text::{
    append_str, chars_of, join2, join_chars, joined, string_of, views_of,
};

verus! {

/// The steps of the process manager.
#[derive(Debug)]
pub enum ProcessManagerState {
    /// Choosing an action.
    SelectingAction { selected: usize },
    /// Asking whether to go ahead.
    Confirming { action: ProcessAction },
    /// The processes are being killed.
    Processing { action: ProcessAction },
    /// Finished, with a report.
    Success { message: String },
    /// Failed, with the reason.
    Error { message: String },
}

/// A clean-up action.
#[derive(Debug, Clone, Copy, PartialEq, Eq, Structural)]
pub enum ProcessAction {
    /// Kill the Cursor server processes.
    KillCursorServers,
    /// Kill common leftover development processes.
    KillUnneededProcesses,
    /// Kill every development server.
    KillAllDevServers,
}

/// How one `pkill` run ended: its exit code (none when a signal ended it)
/// and what it wrote to standard error.
#[derive(Debug)]
pub struct KillOutcome {
    pub exit_code: Option<i32>,
    pub stderr: String,
}

pub open spec fn actions() -> Seq<ProcessAction> {
    seq![
        ProcessAction::KillCursorServers,
        ProcessAction::KillUnneededProcesses,
        ProcessAction::KillAllDevServers,
    ]
}

pub open spec fn action_name(a: ProcessAction) -> Seq<char> {
    match a {
        ProcessAction::KillCursorServers => "Kill Cursor Servers"@,
        ProcessAction::KillUnneededProcesses => "Kill Unneeded Processes"@,
        ProcessAction::KillAllDevServers => "Kill All Dev Servers"@,
    }
}

pub open spec fn action_description(a: ProcessAction) -> Seq<char> {
    match a {
        ProcessAction::KillCursorServers => "Kills all cursor-server processes running in WSL"@,
        ProcessAction::KillUnneededProcesses =>
            "Kills common background processes that may be lingering"@,
        ProcessAction::KillAllDevServers =>
            "Kills Cursor servers, code-server, and other dev tool servers"@,
    }
}

/// The process name patterns an action kills, in order.
pub open spec fn action_patterns(a: ProcessAction) -> Seq<Seq<char>> {
    match a {
        ProcessAction::KillCursorServers => seq!["cursor-server"@],
        ProcessAction::KillUnneededProcesses => seq![
            "cursor-server"@,
            "node_modules/.bin"@,
            "webpack-dev-server"@,
            "vite"@,
            "npm-run-all"@,
        ],
        ProcessAction::KillAllDevServers => seq![
            "cursor-server"@,
            "code-server"@,
            "node_modules/.bin"@,
            "webpack-dev-server"@,
            "vite"@,
            "npm-run-all"@,
            "tsx"@,
            "ts-node"@,
            "nodemon"@,
            "next-server"@,
        ],
    }
}

/// A run as the contracts see it.
pub open spec fn outcome_view(o: KillOutcome) -> (Option<i32>, Seq<char>) {
    (o.exit_code, o.stderr@)
}

pub open spec fn outcomes_view(v: Seq<KillOutcome>) -> Seq<(Option<i32>, Seq<char>)> {
    v.map_values(|o: KillOutcome| outcome_view(o))
}

/// The patterns whose run killed something (exit code 0).
pub open spec fn killed(pats: Seq<Seq<char>>, outs: Seq<(Option<i32>, Seq<char>)>) -> Seq<Seq<char>>
    decreases outs.len(),
{
    if outs.len() == 0 {
        Seq::empty()
    } else {
        let prev = killed(pats, outs.drop_last());
        if outs.last().0 == Some(0i32) {
            prev.push(pats[outs.len() - 1])
        } else {
            prev
        }
    }
}

/// `pattern: stderr` for each run that failed; exit code 1 only means that
/// nothing matched, which is no failure.
pub open spec fn failures(pats: Seq<Seq<char>>, outs: Seq<(Option<i32>, Seq<char>)>) -> Seq<
    Seq<char>,
>
    decreases outs.len(),
{
    if outs.len() == 0 {
        Seq::empty()
    } else {
        let prev = failures(pats, outs.drop_last());
        let o = outs.last();
        if o.0 != Some(0i32) && o.0 != Some(1i32) {
            prev.push(pats[outs.len() - 1] + ": "@ + o.1)
        } else {
            prev
        }
    }
}

/// What the operator is told after the runs: a report, or the failures.
pub open spec fn action_result(a: ProcessAction, outs: Seq<(Option<i32>, Seq<char>)>) -> Result<
    Seq<char>,
    Seq<char>,
> {
    let pats = action_patterns(a);
    if a is KillCursorServers {
        if outs[0].0 == Some(0i32) || outs[0].0 == Some(1i32) {
            Ok("\u{2713} Cursor server processes terminated successfully"@)
        } else {
            Err("Failed to kill Cursor servers: "@ + outs[0].1)
        }
    } else {
        let header = if a is KillUnneededProcesses {
            "\u{2713} Unneeded processes terminated"@
        } else {
            "\u{2713} All development servers terminated"@
        };
        let gone = killed(pats, outs);
        let bad = failures(pats, outs);
        if bad.len() == 0 {
            Ok(header + "\n\nCleaned up: "@ + if gone.len() == 0 {
                "no processes found (already clean)"@
            } else {
                joined(gone, ", "@)
            })
        } else {
            Err("Some errors occurred:\n"@ + joined(bad, "\n"@))
        }
    }
}

impl ProcessAction {
    /// All actions, in menu order.
    pub fn all() -> (r: Vec<ProcessAction>)
        ensures
            r@ == actions(),
    {
        let r = vec![
            ProcessAction::KillCursorServers,
            ProcessAction::KillUnneededProcesses,
            ProcessAction::KillAllDevServers,
        ];
        assert(r@ =~= actions());
        r
    }

    /// The display name.
    pub fn name(&self) -> (r: &'static str)
        ensures
            r@ == action_name(*self),
    {
        match self {
            ProcessAction::KillCursorServers => "Kill Cursor Servers",
            ProcessAction::KillUnneededProcesses => "Kill Unneeded Processes",
            ProcessAction::KillAllDevServers => "Kill All Dev Servers",
        }
    }

    /// The one-line description.
    pub fn description(&self) -> (r: &'static str)
        ensures
            r@ == action_description(*self),
    {
        match self {
            ProcessAction::KillCursorServers => "Kills all cursor-server processes running in WSL",
            ProcessAction::KillUnneededProcesses => "Kills common background processes that may be lingering",
            ProcessAction::KillAllDevServers => "Kills Cursor servers, code-server, and other dev tool servers",
        }
    }

    /// The process name patterns to kill, in order.
    pub fn patterns(&self) -> (r: Vec<&'static str>)
        ensures
            r@.map_values(|p: &'static str| p@) == action_patterns(*self),
    {
        let r: Vec<&'static str> = match self {
            ProcessAction::KillCursorServers => vec!["cursor-server"],
            ProcessAction::KillUnneededProcesses => vec![
                "cursor-server",
                "node_modules/.bin",
                "webpack-dev-server",
                "vite",
                "npm-run-all",
            ],
            ProcessAction::KillAllDevServers => vec![
                "cursor-server",
                "code-server",
                "node_modules/.bin",
                "webpack-dev-server",
                "vite",
                "npm-run-all",
                "tsx",
                "ts-node",
                "nodemon",
                "next-server",
            ],
        };
        assert(r@.map_values(|p: &'static str| p@) =~= action_patterns(*self));
        r
    }

    /// What to tell the operator once every pattern has been run; `outcomes`
    /// holds the runs in pattern order.
    pub fn result_of(&self, outcomes: &Vec<KillOutcome>) -> (r: Result<String, ModeError>)
        requires
            outcomes@.len() == action_patterns(*self).len(),
        ensures
            action_result(*self, outcomes_view(outcomes@)) matches Ok(m) ==> r matches Ok(s)
                && s@ == m,
            action_result(*self, outcomes_view(outcomes@)) matches Err(m) ==> r matches Err(
                ModeError::Generic(s),
            ) && s@ == m,
    {
        let ghost outs = outcomes_view(outcomes@);
        if let ProcessAction::KillCursorServers = self {
            let o = &outcomes[0];
            assert(outs[0] == outcome_view(outcomes@[0]));
            if o.exit_code == Some(0i32) || o.exit_code == Some(1i32) {
                return Ok("\u{2713} Cursor server processes terminated successfully".to_owned());
            }
            return Err(
                ModeError::Generic(join2("Failed to kill Cursor servers: ", o.stderr.as_str())),
            );
        }
        let pats = self.patterns();
        let ghost ps = action_patterns(*self);
        let mut gone: Vec<Vec<char>> = Vec::new();
        let mut bad: Vec<Vec<char>> = Vec::new();
        let mut i: usize = 0;
        assert(outs.subrange(0, 0) =~= Seq::<(Option<i32>, Seq<char>)>::empty());
        while i < outcomes.len()
            invariant
                i <= outcomes@.len() == ps.len() == pats@.len(),
                outs == outcomes_view(outcomes@),
                ps == action_patterns(*self),
                pats@.map_values(|p: &'static str| p@) == ps,
                views_of(gone@) == killed(ps, outs.subrange(0, i as int)),
                views_of(bad@) == failures(ps, outs.subrange(0, i as int)),
            decreases outcomes.len() - i,
        {
            let o = &outcomes[i];
            let ghost pre = outs.subrange(0, i as int);
            let ghost next = outs.subrange(0, i + 1);
            assert(next.drop_last() =~= pre);
            assert(next.last() == outcome_view(outcomes@[i as int]));
            assert(ps[i as int] == pats@[i as int]@);
            if o.exit_code == Some(0i32) {
                gone.push(chars_of(pats[i]));
                assert(views_of(gone@) =~= killed(ps, next));
            } else if o.exit_code != Some(1i32) {
                let mut line = chars_of(pats[i]);
                append_str(&mut line, ": ");
                append_str(&mut line, o.stderr.as_str());
                bad.push(line);
                assert(views_of(bad@) =~= failures(ps, next));
            }
            assert(views_of(gone@) =~= killed(ps, next));
            assert(views_of(bad@) =~= failures(ps, next));
            i = i + 1;
        }
        assert(outs.subrange(0, outcomes@.len() as int) =~= outs);
        if bad.len() == 0 {
            let header = if let ProcessAction::KillUnneededProcesses = self {
                "\u{2713} Unneeded processes terminated"
            } else {
                "\u{2713} All development servers terminated"
            };
            let mut text = chars_of(header);
            append_str(&mut text, "\n\nCleaned up: ");
            if gone.len() == 0 {
                append_str(&mut text, "no processes found (already clean)");
            } else {
                let list = join_chars(&gone, ", ");
                crate::text::append_chars(&mut text, &list);
            }
            Ok(string_of(&text))
        } else {
            let mut text = chars_of("Some errors occurred:\n");
            let list = join_chars(&bad, "\n");
            crate::text::append_chars(&mut text, &list);
            Err(ModeError::Generic(string_of(&text)))
        }
    }
}

/// The selection moved up, wrapping to the bottom.
pub open spec fn process_after_previous(s: ProcessManagerState) -> ProcessManagerState {
    match s {
        ProcessManagerState::SelectingAction { selected } => ProcessManagerState::SelectingAction {
            selected: if selected == 0 { 2 } else { (selected - 1) as usize },
        },
        other => other,
    }
}

/// The selection moved down, wrapping to the top.
pub open spec fn process_after_next(s: ProcessManagerState) -> ProcessManagerState {
    match s {
        ProcessManagerState::SelectingAction { selected } => ProcessManagerState::SelectingAction {
            selected: ((selected + 1) % 3) as usize,
        },
        other => other,
    }
}

/// The selected action, waiting for confirmation.
pub open spec fn process_after_confirm(s: ProcessManagerState) -> ProcessManagerState {
    match s {
        ProcessManagerState::SelectingAction { selected } => ProcessManagerState::Confirming {
            action: actions()[selected as int],
        },
        other => other,
    }
}

/// Back from the confirmation to the first action.
pub open spec fn process_after_back(s: ProcessManagerState) -> ProcessManagerState {
    match s {
        ProcessManagerState::Confirming { .. } => ProcessManagerState::SelectingAction { selected: 0 },
        other => other,
    }
}

/// The running action ended with `result`: its report, or its error.
pub open spec fn action_finished(
    before: ProcessManagerState,
    result: Result<String, ModeError>,
    after: ProcessManagerState,
) -> bool {
    &&& before is Processing ==> match result {
            Ok(m) => after matches ProcessManagerState::Success { message }
                && message@ == m@,
            Err(e) => after matches ProcessManagerState::Error { message }
                && describes(e, message@),
        }
    &&& !(before is Processing) ==> after == before
}

pub open spec fn state_ok(s: ProcessManagerState) -> bool {
    s matches ProcessManagerState::SelectingAction { selected } ==> selected < 3
}

/// The process manager.
#[derive(Debug)]
pub struct ProcessManager {
    pub state: ProcessManagerState,
}

impl ProcessManager {
    pub open spec fn wf(&self) -> bool {
        state_ok(self.state)
    }

    /// A manager with the first action selected.
    pub fn new() -> (r: ProcessManager)
        ensures
            r.wf(),
            r.state == (ProcessManagerState::SelectingAction { selected: 0 }),
    {
        ProcessManager { state: ProcessManagerState::SelectingAction { selected: 0 } }
    }

    /// Moves the selection up, wrapping to the bottom.
    pub fn previous(&mut self)
        requires
            old(self).wf(),
        ensures
            final(self).wf(),
            final(self).state == process_after_previous(old(self).state),
    {
        if let ProcessManagerState::SelectingAction { selected } = &mut self.state {
            let total = ProcessAction::all().len();
            *selected = if *selected == 0 { total - 1 } else { *selected - 1 };
        }
    }

    /// Moves the selection down, wrapping to the top.
    pub fn next(&mut self)
        requires
            old(self).wf(),
        ensures
            final(self).wf(),
            final(self).state == process_after_next(old(self).state),
    {
        if let ProcessManagerState::SelectingAction { selected } = &mut self.state {
            let total = ProcessAction::all().len();
            *selected = (*selected + 1) % total;
        }
    }

    /// Takes the selected action and asks for confirmation.
    pub fn confirm_selection(&mut self)
        requires
            old(self).wf(),
        ensures
            final(self).wf(),
            final(self).state == process_after_confirm(old(self).state),
    {
        if let ProcessManagerState::SelectingAction { selected } = self.state {
            let all = ProcessAction::all();
            let action = all[selected];
            self.state = ProcessManagerState::Confirming { action };
        }
    }

    /// Starts the confirmed action and returns it for the caller to run.
    pub fn execute_action(&mut self) -> (r: Option<ProcessAction>)
        requires
            old(self).wf(),
        ensures
            final(self).wf(),
            old(self).state matches ProcessManagerState::Confirming { action } ==> final(
                self).state == (ProcessManagerState::Processing { action }) && r == Some(action),
            !(old(self).state is Confirming) ==> final(self).state == old(self).state && r is None,
    {
        if let ProcessManagerState::Confirming { action } = self.state {
            self.state = ProcessManagerState::Processing { action };
            Some(action)
        } else {
            None
        }
    }

    /// Ends the running action with its report or its error.
    pub fn finish_action(&mut self, result: Result<String, ModeError>)
        requires
            old(self).wf(),
        ensures
            final(self).wf(),
            action_finished(old(self).state, result, final(self).state),
    {
        if let ProcessManagerState::Processing { .. } = self.state {
            match result {
                Ok(message) => {
                    self.state = ProcessManagerState::Success { message };
                },
                Err(e) => {
                    let message = e.message();
                    self.state = ProcessManagerState::Error { message };
                },
            }
        }
    }

    /// Leaves the confirmation for the selection, at the first action.
    pub fn go_back(&mut self)
        requires
            old(self).wf(),
        ensures
            final(self).wf(),
            final(self).state == process_after_back(old(self).state),
    {
        if let ProcessManagerState::Confirming { .. } = self.state {
            self.state = ProcessManagerState::SelectingAction { selected: 0 };
        }
    }

    /// Whether the manager has finished, either way.
    pub fn is_done(&self) -> (r: bool)
        ensures
            r == (self.state is Success || self.state is Error),
    {
        match self.state {
            ProcessManagerState::Success { .. } | ProcessManagerState::Error { .. } => true,
            _ => false,
        }
    }

    /// Back to the selection, at the first action.
    pub fn reset(&mut self)
        ensures
            final(self).wf(),
            final(self).state == (ProcessManagerState::SelectingAction { selected: 0 }),
    {
        self.state = ProcessManagerState::SelectingAction { selected: 0 };
    }

    /// The selected index, while selecting.
    pub fn get_selected(&self) -> (r: Option<usize>)
        ensures
            self.state matches ProcessManagerState::SelectingAction { selected } ==> r == Some(
                selected,
            ),
            !(self.state is SelectingAction) ==> r is None,
    {
        if let ProcessManagerState::SelectingAction { selected } = self.state {
            Some(selected)
        } else {
            None
        }
    }

    /// The text shown on the current step.
    pub fn get_prompt(&self) -> (r: String)
        ensures
            self.state is SelectingAction ==> r@
                == "Select an action (\u{2191}/\u{2193} to navigate, Enter to select, ESC to cancel):"@,
            self.state matches ProcessManagerState::Confirming { action } ==> r@ == action_name(
                action,
            ) + "\n"@ + action_description(action),
            self.state matches ProcessManagerState::Processing { action } ==> r@ == action_name(
                action,
            ) + "..."@,
            self.state matches ProcessManagerState::Success { message } ==> r@ == message@,
            self.state matches ProcessManagerState::Error { message } ==> r@ == "Error: "@
                + message@,
    {
        match &self.state {
            ProcessManagerState::SelectingAction { .. } => {
                "Select an action (\u{2191}/\u{2193} to navigate, Enter to select, ESC to cancel):".to_owned()
            },
            ProcessManagerState::Confirming { action } => {
                crate::text::join3(action.name(), "\n", action.description())
            },
            ProcessManagerState::Processing { action } => join2(action.name(), "..."),
            ProcessManagerState::Success { message } => message.clone(),
            ProcessManagerState::Error { message } => join2("Error: ", message.as_str()),
        }
    }

    /// The action's name and description, while confirming.
    pub fn get_confirmation_data(&self) -> (r: Option<(String, String)>)
        ensures
            self.state matches ProcessManagerState::Confirming { action } ==> r matches Some(p)
                && p.0@ == action_name(action) && p.1@ == action_description(action),
            !(self.state is Confirming) ==> r is None,
    {
        match &self.state {
            ProcessManagerState::Confirming { action } => Some(
                (action.name().to_owned(), action.description().to_owned()),
            ),
            _ => None,
        }
    }
}

} // verus!
