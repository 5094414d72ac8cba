//! The command-line subcommands and the action each one resolves to on the
//! current branch.
use vstd::prelude::*;

use crate::action::branch_name_error;
use crate::git::branch::{spec_fixed_finish_target, BranchType, BranchView};
use crate::flows::start::ReleaseType;
use crate::menu::{self, Action};

verus! {

pub enum Commands {
    /// Start a new branch
    Start { kind: StartKind },
    /// Finish the current branch (infers action from branch type). `base`
    /// sets a work branch's PR target; `abort` discards an in-progress
    /// finish.
    Finish { breaking: Option<bool>, base: Option<String>, abort: bool },
    /// Bump the patch version on the current release branch
    Bump,
    /// Sync the current release branch into develop
    Sync,
}

#[derive(Debug, Clone)]
pub struct StartOptions {
    /// Create and push the branch without checking it out
    pub no_checkout: bool,
    /// Do not use the worktree flow for this start, even when it is enabled
    pub no_worktree: bool,
}

pub enum StartKind {
    Feature { name: String, base: String, opts: StartOptions },
    Fix { name: String, base: String, opts: StartOptions },
    Chore { name: String, base: String, opts: StartOptions },
    Docs { name: String, base: String, opts: StartOptions },
    Refactor { name: String, base: String, opts: StartOptions },
    /// Start a new release branch (or resume existing); `major` / `minor`
    /// choose the bump instead of asking
    Release { major: bool, minor: bool },
    /// Start a release fix branch (must be on a release branch)
    ReleaseFix { name: String, opts: StartOptions },
    /// Start a hotfix fix branch (must be on main or hotfix branch)
    HotfixFix { name: String, opts: StartOptions },
}

pub open spec fn release_only_message() -> Seq<char> {
    "This command is only valid on a release branch."@
}

pub open spec fn main_or_hotfix_only_message() -> Seq<char> {
    "This command is only valid on a main or hotfix branch."@
}

pub open spec fn nothing_to_finish_message() -> Seq<char> {
    "Nothing to finish on this branch."@
}

pub open spec fn unrecognized_message() -> Seq<char> {
    "Not on a recognized gitflow branch."@
}

pub open spec fn fixed_target_base_message() -> Seq<char> {
    "--base only applies when finishing a work branch; this branch finishes into a fixed target."@
}

pub open spec fn is_err_with(r: Result<Action, String>, m: Seq<char>) -> bool {
    r matches Err(e) && e@ == m
}

/// A work-branch start: refused with the name check's message, else started
/// from `base` with the given flags.
pub open spec fn work_start_result(
    r: Result<Action, String>,
    prefix: Seq<char>,
    name: Seq<char>,
    base: Seq<char>,
    opts: StartOptions,
) -> bool {
    match branch_name_error(name) {
        Some(m) => is_err_with(r, m),
        None => r matches Ok(Action::StartWorkBranch { prefix: p, name: n, from: f, no_checkout: c, no_worktree: w })
            && p@ == prefix && n@ == name && f@ == base && c == opts.no_checkout && w == opts.no_worktree,
    }
}

/// Whether a fix start finds its parent branch itself rather than standing on
/// it: with `--no-checkout`, or when the worktree flow applies.
pub open spec fn discovers_parent(opts: StartOptions, worktree_enabled: bool) -> bool {
    opts.no_checkout || (worktree_enabled && !opts.no_worktree)
}

/// A release-fix start: needs a valid name, and a release branch unless it
/// finds the release branch itself.
pub open spec fn release_fix_result(
    r: Result<Action, String>,
    b: BranchView,
    name: Seq<char>,
    opts: StartOptions,
    worktree_enabled: bool,
) -> bool {
    match branch_name_error(name) {
        Some(m) => is_err_with(r, m),
        None => if !discovers_parent(opts, worktree_enabled) && !(b is Release) {
            is_err_with(r, release_only_message())
        } else {
            r matches Ok(Action::StartReleaseFix { name: n, no_checkout: c, no_worktree: w }) && n@ == name
                && c == opts.no_checkout && w == opts.no_worktree
        },
    }
}

/// A hotfix-fix start: needs a valid name, and the mainline or a hotfix
/// branch unless it finds the hotfix branch itself.
pub open spec fn hotfix_fix_result(
    r: Result<Action, String>,
    b: BranchView,
    name: Seq<char>,
    opts: StartOptions,
    worktree_enabled: bool,
) -> bool {
    match branch_name_error(name) {
        Some(m) => is_err_with(r, m),
        None => if !discovers_parent(opts, worktree_enabled) && !(b is Main || b is Hotfix) {
            is_err_with(r, main_or_hotfix_only_message())
        } else {
            r matches Ok(Action::StartHotfixFix { name: n, no_checkout: c, no_worktree: w }) && n@ == name
                && c == opts.no_checkout && w == opts.no_worktree
        },
    }
}

/// What `bflow finish` means on a branch of type `b`: `--abort` always
/// aborts; `--base` is refused where the finish has a fixed target.
pub open spec fn finish_result(
    r: Result<Action, String>,
    b: BranchView,
    breaking: Option<bool>,
    base: Option<String>,
    abort: bool,
) -> bool {
    if abort {
        r == Ok::<Action, String>(Action::AbortFinish)
    } else if base is Some && spec_fixed_finish_target(b) {
        is_err_with(r, fixed_target_base_message())
    } else {
        finish_target_result(r, b, breaking, base)
    }
}

pub open spec fn finish_target_result(r: Result<Action, String>, b: BranchView, breaking: Option<bool>, base: Option<String>) -> bool {
    match b {
        BranchView::Main | BranchView::Develop => is_err_with(r, nothing_to_finish_message()),
        BranchView::Feature(_) | BranchView::Fix(_) | BranchView::Chore(_) | BranchView::Docs(_)
        | BranchView::Refactor(_) => r matches Ok(Action::FinishWorkBranch { breaking: k, base: t }) && k == breaking
            && t == base,
        BranchView::Release(..) => r == Ok::<Action, String>(Action::FinishRelease),
        BranchView::ReleaseFix(..) => r == Ok::<Action, String>(Action::FinishReleaseFix),
        BranchView::Hotfix(..) => r == Ok::<Action, String>(Action::FinishHotfix),
        BranchView::HotfixFix(..) => r == Ok::<Action, String>(Action::FinishHotfixFix),
        BranchView::Other => is_err_with(r, unrecognized_message()),
    }
}

pub open spec fn both_bumps_message() -> Seq<char> {
    "--major and --minor cannot be combined."@
}

/// A release start: the bump the flags choose, or none (the flow asks).
pub open spec fn release_start_result(r: Result<Action, String>, major: bool, minor: bool) -> bool {
    if major && minor {
        is_err_with(r, both_bumps_message())
    } else if major {
        r == Ok::<Action, String>(Action::StartRelease(Some(ReleaseType::Major)))
    } else if minor {
        r == Ok::<Action, String>(Action::StartRelease(Some(ReleaseType::Minor)))
    } else {
        r == Ok::<Action, String>(Action::StartRelease(None))
    }
}

/// What a command resolves to on a branch of type `b`, with the worktree
/// flow enabled or not.
pub open spec fn resolve_result(command: Commands, b: BranchView, worktree_enabled: bool, r: Result<Action, String>) -> bool {
    match command {
        Commands::Start { kind } => match kind {
            StartKind::Feature { name, base, opts } => work_start_result(r, "feature"@, name@, base@, opts),
            StartKind::Fix { name, base, opts } => work_start_result(r, "fix"@, name@, base@, opts),
            StartKind::Chore { name, base, opts } => work_start_result(r, "chore"@, name@, base@, opts),
            StartKind::Docs { name, base, opts } => work_start_result(r, "docs"@, name@, base@, opts),
            StartKind::Refactor { name, base, opts } => work_start_result(r, "refactor"@, name@, base@, opts),
            StartKind::Release { major, minor } => release_start_result(r, major, minor),
            StartKind::ReleaseFix { name, opts } => release_fix_result(r, b, name@, opts, worktree_enabled),
            StartKind::HotfixFix { name, opts } => hotfix_fix_result(r, b, name@, opts, worktree_enabled),
        },
        Commands::Finish { breaking, base, abort } => finish_result(r, b, breaking, base, abort),
        Commands::Bump => if b is Release {
            r == Ok::<Action, String>(Action::BumpVersion)
        } else {
            is_err_with(r, release_only_message())
        },
        Commands::Sync => if b is Release {
            r == Ok::<Action, String>(Action::SyncWithDevelop)
        } else {
            is_err_with(r, release_only_message())
        },
    }
}

fn start_work_branch(prefix: &str, name: String, base: String, opts: StartOptions) -> (r: Result<Action, String>)
    ensures
        work_start_result(r, prefix@, name@, base@, opts),
{
    menu::validate_branch_name(name.as_str())?;
    Ok(
        Action::StartWorkBranch {
            prefix: String::from_str(prefix),
            name,
            from: base,
            no_checkout: opts.no_checkout,
            no_worktree: opts.no_worktree,
        },
    )
}

fn require_release_branch(branch_type: &BranchType) -> (r: Result<(), String>)
    ensures
        branch_type@ is Release ==> r is Ok,
        !(branch_type@ is Release) ==> (r matches Err(e) && e@ == release_only_message()),
{
    match branch_type {
        BranchType::Release { .. } => Ok(()),
        _ => Err(String::from_str("This command is only valid on a release branch.")),
    }
}

/// The action of `command` on a branch of type `branch_type`.
/// `worktree_enabled`: whether the worktree flow is configured, with which a
/// fix start finds its parent branch itself.
pub fn resolve_action(command: Commands, branch_type: &BranchType, worktree_enabled: bool) -> (r: Result<Action, String>)
    ensures
        resolve_result(command, branch_type@, worktree_enabled, r),
{
    match command {
        Commands::Start { kind } => match kind {
            StartKind::Feature { name, base, opts } => start_work_branch("feature", name, base, opts),
            StartKind::Fix { name, base, opts } => start_work_branch("fix", name, base, opts),
            StartKind::Chore { name, base, opts } => start_work_branch("chore", name, base, opts),
            StartKind::Docs { name, base, opts } => start_work_branch("docs", name, base, opts),
            StartKind::Refactor { name, base, opts } => start_work_branch("refactor", name, base, opts),
            StartKind::Release { major, minor } => {
                if major && minor {
                    return Err(String::from_str("--major and --minor cannot be combined."));
                }
                let kind = if major {
                    Some(ReleaseType::Major)
                } else if minor {
                    Some(ReleaseType::Minor)
                } else {
                    None
                };
                Ok(Action::StartRelease(kind))
            },
            StartKind::ReleaseFix { name, opts } => {
                menu::validate_branch_name(name.as_str())?;
                let discovers = opts.no_checkout || (worktree_enabled && !opts.no_worktree);
                if !discovers {
                    require_release_branch(branch_type)?;
                }
                Ok(Action::StartReleaseFix { name, no_checkout: opts.no_checkout, no_worktree: opts.no_worktree })
            },
            StartKind::HotfixFix { name, opts } => {
                menu::validate_branch_name(name.as_str())?;
                let on_main_or_hotfix = match branch_type {
                    BranchType::Main | BranchType::Hotfix { .. } => true,
                    _ => false,
                };
                let discovers = opts.no_checkout || (worktree_enabled && !opts.no_worktree);
                if !discovers && !on_main_or_hotfix {
                    return Err(String::from_str("This command is only valid on a main or hotfix branch."));
                }
                Ok(Action::StartHotfixFix { name, no_checkout: opts.no_checkout, no_worktree: opts.no_worktree })
            },
        },
        Commands::Finish { breaking, base, abort } => {
            if abort {
                return Ok(Action::AbortFinish);
            }
            if base.is_some() && branch_type.has_fixed_finish_target() {
                return Err(
                    String::from_str(
                        "--base only applies when finishing a work branch; this branch finishes into a fixed target.",
                    ),
                );
            }
            finish_target(branch_type, breaking, base)
        },
        Commands::Bump => {
            require_release_branch(branch_type)?;
            Ok(Action::BumpVersion)
        },
        Commands::Sync => {
            require_release_branch(branch_type)?;
            Ok(Action::SyncWithDevelop)
        },
    }
}

fn finish_target(branch_type: &BranchType, breaking: Option<bool>, base: Option<String>) -> (r: Result<Action, String>)
    ensures
        finish_target_result(r, branch_type@, breaking, base),
{
    match branch_type {
        BranchType::Main | BranchType::Develop => Err(String::from_str("Nothing to finish on this branch.")),
        BranchType::Feature { .. } | BranchType::Fix { .. } | BranchType::Chore { .. }
        | BranchType::Docs { .. } | BranchType::Refactor { .. } => Ok(
            Action::FinishWorkBranch { breaking, base },
        ),
        BranchType::Release { .. } => Ok(Action::FinishRelease),
        BranchType::ReleaseFix { .. } => Ok(Action::FinishReleaseFix),
        BranchType::Hotfix { .. } => Ok(Action::FinishHotfix),
        BranchType::HotfixFix { .. } => Ok(Action::FinishHotfixFix),
        BranchType::Other => Err(String::from_str("Not on a recognized gitflow branch.")),
    }
}

} // verus!
