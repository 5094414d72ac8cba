//! The single currency both interfaces resolve into: the menu and the CLI
//! subcommands each produce an `Action`, and nothing downstream knows which
//! interface ran.
use vstd::prelude::*;

use crate::flows::start::ReleaseType;
use crate::text::chars_of;

verus! {

#[derive(Debug, PartialEq)]
pub enum Action {
    StartWorkBranch { prefix: String, name: String, from: String, no_checkout: bool, no_worktree: bool },
    StartRelease(Option<ReleaseType>),
    StartReleaseFix { name: String, no_checkout: bool, no_worktree: bool },
    StartHotfixFix { name: String, no_checkout: bool, no_worktree: bool },
    FinishWorkBranch { breaking: Option<bool>, base: Option<String> },
    FinishReleaseFix,
    FinishReleaseChore,
    FinishRelease,
    FinishHotfix,
    FinishHotfixFix,
    AbortFinish,
    BumpVersion,
    SyncWithDevelop,
}

/// The starts: every action that creates a branch.
pub open spec fn starts_branch(a: Action) -> bool {
    ||| a is StartWorkBranch
    ||| a is StartRelease
    ||| a is StartReleaseFix
    ||| a is StartHotfixFix
}

/// The starts of a named work branch, which may get a worktree of their own.
pub open spec fn names_work_branch(a: Action) -> bool {
    ||| a is StartWorkBranch
    ||| a is StartReleaseFix
    ||| a is StartHotfixFix
}

pub open spec fn checkout_flag(a: Action) -> bool {
    match a {
        Action::StartWorkBranch { no_checkout, .. } => no_checkout,
        Action::StartReleaseFix { no_checkout, .. } => no_checkout,
        Action::StartHotfixFix { no_checkout, .. } => no_checkout,
        _ => false,
    }
}

pub open spec fn worktree_flag(a: Action) -> bool {
    match a {
        Action::StartWorkBranch { no_worktree, .. } => no_worktree,
        Action::StartReleaseFix { no_worktree, .. } => no_worktree,
        Action::StartHotfixFix { no_worktree, .. } => no_worktree,
        _ => false,
    }
}

impl Action {
    pub fn is_start(&self) -> (r: bool)
        ensures
            r == starts_branch(*self),
    {
        match self {
            Action::StartWorkBranch { .. } => true,
            Action::StartRelease(_) => true,
            Action::StartReleaseFix { .. } => true,
            Action::StartHotfixFix { .. } => true,
            _ => false,
        }
    }

    pub fn no_checkout(&self) -> (r: bool)
        ensures
            r == checkout_flag(*self),
    {
        match self {
            Action::StartWorkBranch { no_checkout, .. } => *no_checkout,
            Action::StartReleaseFix { no_checkout, .. } => *no_checkout,
            Action::StartHotfixFix { no_checkout, .. } => *no_checkout,
            _ => false,
        }
    }

    /// Whether this action is a named-work-branch start eligible for the worktree
    /// flow. Deliberately excludes `StartRelease`, unlike `is_start`.
    pub fn worktree_eligible(&self) -> (r: bool)
        ensures
            r == names_work_branch(*self),
    {
        match self {
            Action::StartWorkBranch { .. } => true,
            Action::StartReleaseFix { .. } => true,
            Action::StartHotfixFix { .. } => true,
            _ => false,
        }
    }

    pub fn no_worktree(&self) -> (r: bool)
        ensures
            r == worktree_flag(*self),
    {
        match self {
            Action::StartWorkBranch { no_worktree, .. } => *no_worktree,
            Action::StartReleaseFix { no_worktree, .. } => *no_worktree,
            Action::StartHotfixFix { no_worktree, .. } => *no_worktree,
            _ => false,
        }
    }
}

/// Only starts of a named work branch are eligible for a worktree (a release
/// start is not), and only starts carry the checkout and worktree flags.
pub proof fn law_start_flags(a: Action)
    ensures
        names_work_branch(a) ==> starts_branch(a),
        a is StartRelease ==> starts_branch(a) && !names_work_branch(a),
        !starts_branch(a) ==> !checkout_flag(a) && !worktree_flag(a),
{
}

/// Whether position `j` of `s` starts something git forbids in a branch name:
/// `..`, `~`, `^`, `:` or `\`.
pub open spec fn forbidden_at(s: Seq<char>, j: int) -> bool {
    ||| s[j] == '~'
    ||| s[j] == '^'
    ||| s[j] == ':'
    ||| s[j] == '\\'
    ||| (j + 1 < s.len() && s[j] == '.' && s[j + 1] == '.')
}

pub open spec fn has_forbidden(s: Seq<char>) -> bool {
    exists|j: int| 0 <= j < s.len() && #[trigger] forbidden_at(s, j)
}

pub open spec fn empty_name_message() -> Seq<char> {
    "Name cannot be empty"@
}

pub open spec fn invalid_name_message() -> Seq<char> {
    "Invalid branch name. Avoid special characters (.. ~ ^ : \\)"@
}

/// Why `s` is refused as a branch name, if it is.
pub open spec fn branch_name_error(s: Seq<char>) -> Option<Seq<char>> {
    if s.len() == 0 {
        Some(empty_name_message())
    } else if has_forbidden(s) {
        Some(invalid_name_message())
    } else {
        None
    }
}

fn forbidden_in(v: &Vec<char>) -> (r: bool)
    ensures
        r == has_forbidden(v@),
{
    let n = v.len();
    let mut i: usize = 0;
    while i < n
        invariant
            n == v@.len(),
            i <= n,
            forall|j: int| 0 <= j < i ==> !forbidden_at(v@, j),
        decreases n - i,
    {
        let c = v[i];
        if c == '~' || c == '^' || c == ':' || c == '\\' || (i + 1 < n && c == '.' && v[i + 1] == '.') {
            assert(forbidden_at(v@, i as int));
            return true;
        }
        i = i + 1;
    }
    false
}

/// Branch-name validation shared by the CLI (`--name`) and the interactive
/// prompt: same rules, same message, whichever interface ran.
pub fn validate_branch_name(input: &str) -> (r: Result<(), String>)
    ensures
        match branch_name_error(input@) {
            Some(m) => r matches Err(e) && e@ == m,
            None => r is Ok,
        },
{
    let v = chars_of(input);
    if v.len() == 0 {
        return Err(String::from_str("Name cannot be empty"));
    }
    if forbidden_in(&v) {
        return Err(String::from_str("Invalid branch name. Avoid special characters (.. ~ ^ : \\)"));
    }
    Ok(())
}

} // verus!
