//! The outcome of an external tool invocation, and the dispatch table
//! from user actions to tool subcommands.

use vstd::prelude::*;

verus! {

/// What running an external command produced: whether the process
/// succeeded, its standard output, and its standard error.
#[derive(Debug, Clone, PartialEq)]
pub struct CmdResult(pub bool, pub String, pub String);

impl CmdResult {
    /// Whether the process exited successfully.
    pub fn success(&self) -> (r: bool)
        ensures
            r == self.0,
    {
        self.0
    }

    /// The stdout if the command was successful, else the stderr.
    pub fn output(&self) -> (r: &str)
        ensures
            r@ == if self.0 {
                self.1@
            } else {
                self.2@
            },
    {
        if self.success() {
            self.1.as_str()
        } else {
            self.2.as_str()
        }
    }
}

/// An action offered for the selected entry.
#[derive(Debug, Clone, Copy, PartialEq, Eq, Structural)]
pub enum Action {
    Open,
    Delete,
    Revert,
    Commit,
    Add,
}

/// The version-control subcommand an action dispatches to; `Open` is
/// special-cased to the external editor and has none.
pub fn svn_subcommand(action: Action) -> (r: Option<&'static str>)
    ensures
        match action {
            Action::Open => r is None,
            Action::Delete => r matches Some(s) && s@ == "remove"@,
            Action::Revert => r matches Some(s) && s@ == "revert"@,
            Action::Commit => r matches Some(s) && s@ == "commit"@,
            Action::Add => r matches Some(s) && s@ == "add"@,
        },
{
    match action {
        Action::Open => None,
        Action::Delete => Some("remove"),
        Action::Revert => Some("revert"),
        Action::Commit => Some("commit"),
        Action::Add => Some("add"),
    }
}

/// The label shown on an action's popup button.
pub fn action_label(action: Action) -> (r: &'static str)
    ensures
        match action {
            Action::Open => r@ == "Open"@,
            Action::Delete => r@ == "Delete"@,
            Action::Revert => r@ == "Revert"@,
            Action::Commit => r@ == "Commit"@,
            Action::Add => r@ == "Add"@,
        },
{
    match action {
        Action::Open => "Open",
        Action::Delete => "Delete",
        Action::Revert => "Revert",
        Action::Commit => "Commit",
        Action::Add => "Add",
    }
}

/// What the dashboard does with a finished invocation.
#[derive(Debug, PartialEq)]
pub enum Outcome {
    /// The invocation succeeded: refresh the status view.
    Refresh,
    /// The invocation failed: show its output as a transient message.
    Message(String),
}

/// Route a finished invocation: success triggers a refresh, a
/// tool-reported failure surfaces the failure output as a message.
pub fn command_outcome(res: &CmdResult) -> (o: Outcome)
    ensures
        match o {
            Outcome::Refresh => res.0,
            Outcome::Message(m) => !res.0 && m@ == res.2@,
        },
{
    if res.success() {
        Outcome::Refresh
    } else {
        Outcome::Message(String::from_str(res.output()))
    }
}

} // verus!
