//! The per-entry state reported by `svn status`, and the capability
//! predicates that decide which actions apply to an entry.

use vstd::prelude::*;

verus! {

/// The state of one working-copy entry, determined by the first
/// character of its status line.
#[derive(Debug, PartialEq, Eq, Structural, Clone, Copy)]
pub enum State {
    /// No modification is shown for the entry (catch-all code).
    Clean,
    /// Code `M`.
    Modified,
    /// Code `A`.
    Added,
    /// Code `D`.
    Deleted,
    /// Code `?`.
    Unversioned,
    /// Code `C`.
    Conflicting,
    /// Code `R`.
    Replaced,
    /// Code `!`.
    Missing,
}

impl State {
    /// Entries in these states can be committed.
    pub open spec fn spec_is_commitable(self) -> bool {
        self == State::Modified || self == State::Added || self == State::Deleted
    }

    /// Entries in these states can be reverted.
    pub open spec fn spec_is_revertable(self) -> bool {
        self == State::Modified || self == State::Added || self == State::Deleted
            || self == State::Conflicting || self == State::Missing
    }

    /// Entries in these states can be deleted.
    pub open spec fn spec_is_deletable(self) -> bool {
        self == State::Modified || self == State::Missing || self == State::Conflicting
    }

    /// Entries in these states can be added to version control.
    pub open spec fn spec_is_addable(self) -> bool {
        self == State::Unversioned
    }

    pub fn is_commitable(&self) -> (r: bool)
        ensures
            r == self.spec_is_commitable(),
    {
        match self {
            State::Modified | State::Added | State::Deleted => true,
            _ => false,
        }
    }

    pub fn is_revertable(&self) -> (r: bool)
        ensures
            r == self.spec_is_revertable(),
    {
        match self {
            State::Modified | State::Added | State::Deleted | State::Conflicting
            | State::Missing => true,
            _ => false,
        }
    }

    pub fn is_deletable(&self) -> (r: bool)
        ensures
            r == self.spec_is_deletable(),
    {
        match self {
            State::Modified | State::Missing | State::Conflicting => true,
            _ => false,
        }
    }

    pub fn is_addable(&self) -> (r: bool)
        ensures
            r == self.spec_is_addable(),
    {
        match self {
            State::Unversioned => true,
            _ => false,
        }
    }

    /// The state encoded by the first character of a status code.  Every
    /// character is recognised; the listed codes map to their state and
    /// anything else (including space) is `Clean`.
    pub open spec fn spec_of_code(c: char) -> State {
        if c == 'M' {
            State::Modified
        } else if c == 'A' {
            State::Added
        } else if c == 'D' {
            State::Deleted
        } else if c == '?' {
            State::Unversioned
        } else if c == 'C' {
            State::Conflicting
        } else if c == 'R' {
            State::Replaced
        } else if c == '!' {
            State::Missing
        } else {
            State::Clean
        }
    }

    /// Decode the first character of a status code.
    pub fn of_code(c: char) -> (r: State)
        ensures
            r == State::spec_of_code(c),
    {
        match c {
            'M' => State::Modified,
            'A' => State::Added,
            'D' => State::Deleted,
            '?' => State::Unversioned,
            'C' => State::Conflicting,
            'R' => State::Replaced,
            '!' => State::Missing,
            _ => State::Clean,
        }
    }

    /// The character that displays this state, the inverse of
    /// `spec_of_code` on the listed codes (`Clean` displays as a space).
    pub open spec fn spec_code_char(self) -> char {
        match self {
            State::Clean => ' ',
            State::Modified => 'M',
            State::Added => 'A',
            State::Deleted => 'D',
            State::Unversioned => '?',
            State::Conflicting => 'C',
            State::Replaced => 'R',
            State::Missing => '!',
        }
    }

    /// The single-character code that displays this state.
    pub fn code_str(&self) -> (r: &'static str)
        ensures
            r@.len() == 1,
            r@[0] == self.spec_code_char(),
    {
        match self {
            State::Clean => {
                let r = " ";
                proof { reveal_strlit(" "); }
                r
            },
            State::Modified => {
                let r = "M";
                proof { reveal_strlit("M"); }
                r
            },
            State::Added => {
                let r = "A";
                proof { reveal_strlit("A"); }
                r
            },
            State::Deleted => {
                let r = "D";
                proof { reveal_strlit("D"); }
                r
            },
            State::Unversioned => {
                let r = "?";
                proof { reveal_strlit("?"); }
                r
            },
            State::Conflicting => {
                let r = "C";
                proof { reveal_strlit("C"); }
                r
            },
            State::Replaced => {
                let r = "R";
                proof { reveal_strlit("R"); }
                r
            },
            State::Missing => {
                let r = "!";
                proof { reveal_strlit("!"); }
                r
            },
        }
    }
}

} // verus!
