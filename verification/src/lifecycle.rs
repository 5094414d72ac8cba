//! The lifecycle of one run around the flow it runs: abort, the refusals that
//! come before any side effect, the stash, the finish state, and what happens
//! to both afterwards. A state machine from what the program observed to what
//! it does next; the program performs each action and reports back.
use vstd::prelude::*;

use crate::git::branch::{BranchType, BranchView};
use crate::menu::{menu_starts_branch, Action};
use crate::session::{dirty_finish_text, unresolved_merge_message, unresolved_merge_text, dirty_refused, is_finish_with_state, stash_kept, state_identity, state_to_write, writes_state};
use crate::state::FinishState;

verus! {

/// Where a run stands: what it waits for next.
#[derive(Debug, Clone, Copy, PartialEq, Eq, Structural)]
pub enum SessionPhase {
    Begin,
    AwaitMerge,
    AwaitFetch,
    AwaitTree,
    AwaitStash,
    AwaitWrite,
    AwaitFlow,
    AwaitClear,
    Ended,
}

/// A run: its phase and the facts about it that decide the lifecycle.
#[derive(Debug, Clone, Copy, PartialEq, Eq, Structural)]
pub struct Session {
    pub phase: SessionPhase,
    /// The action is `finish --abort`.
    pub abort: bool,
    /// A finish is being resumed from its saved state.
    pub resumed: bool,
    /// The resumed state records a stash.
    pub resume_has_stash: bool,
    /// The action is a release or hotfix finish (it keeps state).
    pub finish_with_state: bool,
    /// The action starts a branch.
    pub starts: bool,
    /// The run works on this checkout of a gitflow branch (a dirty tree is
    /// stashed).
    pub on_checkout: bool,
    /// A fresh finish whose state is written before its first step.
    pub writes: bool,
    /// The branch carries a finish identity, so its state can be cleared.
    pub clears: bool,
    /// A stash holds the user's changes for this run.
    pub stashed: bool,
    /// The flow failed.
    pub failed: bool,
}

/// What the program observed last.
#[derive(Debug, Clone, Copy, PartialEq, Eq, Structural)]
pub enum SessionEvent {
    Start,
    /// Whether a merge is unresolved (mid-merge, or unmerged paths).
    Merge(bool),
    Fetched,
    /// Whether the working tree is clean.
    Tree(bool),
    /// The requested side effect (stash, state write, state clear) is done.
    Done,
    /// Whether the flow succeeded.
    Flow(bool),
}

/// Why a run is refused before any side effect.
#[derive(Debug, Clone, Copy, PartialEq, Eq, Structural)]
pub enum Refusal {
    UnresolvedMerge,
    DirtyTree,
}

/// What the program does next.
#[derive(Debug, Clone, Copy, PartialEq, Eq, Structural)]
pub enum SessionAction {
    /// Report the aborted finish; clear its state when there is one. Ends the run.
    ReportAbort { clear: bool },
    CheckMerge,
    /// Fail with the refusal. Ends the run.
    Refuse(Refusal),
    Fetch,
    CheckTree,
    /// Stash the changes under a fresh label.
    PushStash,
    /// Save the finish state before the first step.
    WriteState,
    RunFlow,
    /// Clear the finish state after success.
    ClearState,
    /// End with the flow's result; the stash is kept for the resume.
    KeepStash,
    /// Restore the stash, then end with the flow's result.
    RestoreStash,
    /// End with the flow's result.
    Finish,
}

/// A run of `action` on `b`, resuming a finish when `resume` is given (with
/// whether its state records a stash); `no_checkout` when the run works
/// elsewhere (a worktree, or `--no-checkout`).
pub open spec fn session_init(a: Action, b: BranchView, resume: Option<bool>, no_checkout: bool) -> Session {
    Session {
        phase: SessionPhase::Begin,
        abort: a is AbortFinish,
        resumed: resume is Some,
        resume_has_stash: resume == Some(true),
        finish_with_state: writes_state(a),
        starts: menu_starts_branch(a),
        on_checkout: !no_checkout && !(b is Other),
        writes: writes_state(a) && resume is None && state_identity(a, b) is Some,
        clears: b is Release || b is Hotfix,
        stashed: false,
        failed: false,
    }
}

/// After the stash: write a fresh finish's state, then run the flow.
pub open spec fn after_stash(s: Session) -> (Session, SessionAction) {
    if s.writes {
        (Session { phase: SessionPhase::AwaitWrite, ..s }, SessionAction::WriteState)
    } else {
        (Session { phase: SessionPhase::AwaitFlow, ..s }, SessionAction::RunFlow)
    }
}

/// After the state is settled: keep the stash for a resume after a failed
/// finish, else restore it; then end.
pub open spec fn after_clear(s: Session) -> (Session, SessionAction) {
    let t = Session { phase: SessionPhase::Ended, ..s };
    if !s.stashed {
        (t, SessionAction::Finish)
    } else if stash_kept(s.failed, s.finish_with_state, s.resumed) {
        (t, SessionAction::KeepStash)
    } else {
        (t, SessionAction::RestoreStash)
    }
}

/// The lifecycle. Abort reports and clears, and nothing else. Otherwise, in
/// order: an unresolved merge is refused; fetch; a dirty tree is refused
/// before any stash or state write unless the action starts a branch or
/// resumes; a dirty tree on this checkout is stashed (a resume reuses its
/// recorded stash); a fresh finish writes its state before its first step;
/// the flow runs; its state is cleared on success and kept on failure; the
/// stash is kept for a resume after a failed finish, else restored. An event
/// the phase does not wait for changes nothing.
pub open spec fn session_next(s: Session, ev: SessionEvent) -> (Session, SessionAction) {
    match (s.phase, ev) {
        (SessionPhase::Begin, SessionEvent::Start) => if s.abort {
            (Session { phase: SessionPhase::Ended, ..s }, SessionAction::ReportAbort { clear: s.resumed })
        } else {
            (Session { phase: SessionPhase::AwaitMerge, ..s }, SessionAction::CheckMerge)
        },
        (SessionPhase::AwaitMerge, SessionEvent::Merge(unresolved)) => if unresolved {
            (Session { phase: SessionPhase::Ended, ..s }, SessionAction::Refuse(Refusal::UnresolvedMerge))
        } else {
            (Session { phase: SessionPhase::AwaitFetch, ..s }, SessionAction::Fetch)
        },
        (SessionPhase::AwaitFetch, SessionEvent::Fetched) => (
            Session { phase: SessionPhase::AwaitTree, ..s },
            SessionAction::CheckTree,
        ),
        (SessionPhase::AwaitTree, SessionEvent::Tree(clean)) => {
            let stash = s.on_checkout && !clean;
            if dirty_refused(stash, s.starts, s.resumed) {
                (Session { phase: SessionPhase::Ended, ..s }, SessionAction::Refuse(Refusal::DirtyTree))
            } else if s.resumed {
                after_stash(Session { stashed: s.resume_has_stash, ..s })
            } else if stash {
                (Session { phase: SessionPhase::AwaitStash, stashed: true, ..s }, SessionAction::PushStash)
            } else {
                after_stash(s)
            }
        },
        (SessionPhase::AwaitStash, SessionEvent::Done) => after_stash(s),
        (SessionPhase::AwaitWrite, SessionEvent::Done) => (
            Session { phase: SessionPhase::AwaitFlow, ..s },
            SessionAction::RunFlow,
        ),
        (SessionPhase::AwaitFlow, SessionEvent::Flow(ok)) => {
            let t = Session { failed: !ok, ..s };
            if ok && (s.finish_with_state || s.resumed) && s.clears {
                (Session { phase: SessionPhase::AwaitClear, ..t }, SessionAction::ClearState)
            } else {
                after_clear(t)
            }
        },
        (SessionPhase::AwaitClear, SessionEvent::Done) => after_clear(s),
        _ => (s, SessionAction::Finish),
    }
}

/// A failed finish (fresh or resumed) keeps its state for the resume: it is
/// not cleared, and a stash holding the user's changes is kept too.
pub proof fn law_failed_finish_keeps_state(s: Session)
    requires
        s.phase == SessionPhase::AwaitFlow,
        s.finish_with_state || s.resumed,
    ensures
        session_next(s, SessionEvent::Flow(false)).1 != SessionAction::ClearState,
        s.stashed ==> session_next(s, SessionEvent::Flow(false)).1 == SessionAction::KeepStash,
{
}

/// A successful finish (fresh or resumed) on a release or hotfix branch
/// clears its state, and the stash is then restored.
pub proof fn law_successful_finish_clears_state(s: Session)
    requires
        s.phase == SessionPhase::AwaitFlow,
        s.finish_with_state || s.resumed,
        s.clears,
    ensures
        session_next(s, SessionEvent::Flow(true)).1 == SessionAction::ClearState,
        s.stashed ==> session_next(session_next(s, SessionEvent::Flow(true)).0, SessionEvent::Done).1
            == SessionAction::RestoreStash,
{
}

/// A fresh finish writes its state before its flow runs: once the tree has
/// been checked, the run stashes or writes the state next, never runs the
/// flow first; and a dirty tree is refused before either.
pub proof fn law_state_written_before_flow(s: Session, clean: bool)
    requires
        s.phase == SessionPhase::AwaitTree,
        s.writes,
        !s.resumed,
        !s.starts,
    ensures
        session_next(s, SessionEvent::Tree(clean)).1 != SessionAction::RunFlow,
        s.on_checkout && !clean ==> session_next(s, SessionEvent::Tree(clean)).1 == SessionAction::Refuse(
            Refusal::DirtyTree,
        ),
        s.on_checkout && !clean ==> session_next(s, SessionEvent::Tree(clean)).0.phase == SessionPhase::Ended,
{
}

/// Abort reports (and clears the state it aborts) and does nothing else: the
/// run ends there.
pub proof fn law_abort_ends_run(s: Session)
    requires
        s.phase == SessionPhase::Begin,
        s.abort,
    ensures
        session_next(s, SessionEvent::Start) == (Session { phase: SessionPhase::Ended, ..s }, SessionAction::ReportAbort {
            clear: s.resumed,
        }),
{
}

/// The message a refusal fails with; an unresolved merge names any finish
/// waiting to resume.
pub fn refusal_message(refusal: Refusal, resume_state: Option<&FinishState>) -> (r: String)
    ensures
        refusal == Refusal::DirtyTree ==> r@ == dirty_finish_text(),
        refusal == Refusal::UnresolvedMerge ==> r@ == unresolved_merge_text(
            match resume_state {
                Some(st) => Some(st@),
                None => None,
            },
        ),
{
    match refusal {
        Refusal::UnresolvedMerge => unresolved_merge_message(resume_state),
        Refusal::DirtyTree => String::from_str("Working tree is not clean. Commit your changes before finishing."),
    }
}

/// Start the lifecycle of a run of `action` on `branch_type`, resuming
/// `resume_state` when given; `no_checkout` when the run works elsewhere.
pub fn session_begin(action: &Action, branch_type: &BranchType, resume_state: Option<&FinishState>, no_checkout: bool) -> (r: Session)
    ensures
        r == session_init(
            *action,
            branch_type@,
            match resume_state {
                Some(st) => Some(st.stash_ref is Some),
                None => None,
            },
            no_checkout,
        ),
{
    let fws = is_finish_with_state(action);
    let resumed = resume_state.is_some();
    let resume_has_stash = match resume_state {
        Some(st) => st.stash_ref.is_some(),
        None => false,
    };
    let other = match branch_type {
        BranchType::Other => true,
        _ => false,
    };
    let clears = match branch_type {
        BranchType::Release { .. } | BranchType::Hotfix { .. } => true,
        _ => false,
    };
    Session {
        phase: SessionPhase::Begin,
        abort: match action {
            Action::AbortFinish => true,
            _ => false,
        },
        resumed,
        resume_has_stash,
        finish_with_state: fws,
        starts: action.is_start(),
        on_checkout: !no_checkout && !other,
        writes: fws && !resumed && state_to_write(action, branch_type).is_some(),
        clears,
        stashed: false,
        failed: false,
    }
}

fn after_stash_exec(s: Session) -> (r: (Session, SessionAction))
    ensures
        r == after_stash(s),
{
    if s.writes {
        (Session { phase: SessionPhase::AwaitWrite, ..s }, SessionAction::WriteState)
    } else {
        (Session { phase: SessionPhase::AwaitFlow, ..s }, SessionAction::RunFlow)
    }
}

fn after_clear_exec(s: Session) -> (r: (Session, SessionAction))
    ensures
        r == after_clear(s),
{
    let t = Session { phase: SessionPhase::Ended, ..s };
    if !s.stashed {
        (t, SessionAction::Finish)
    } else if s.failed && (s.finish_with_state || s.resumed) {
        (t, SessionAction::KeepStash)
    } else {
        (t, SessionAction::RestoreStash)
    }
}

/// One step of the lifecycle: the next phase and what to do.
pub fn session_step(s: Session, ev: SessionEvent) -> (r: (Session, SessionAction))
    ensures
        r == session_next(s, ev),
{
    match (s.phase, ev) {
        (SessionPhase::Begin, SessionEvent::Start) => if s.abort {
            (Session { phase: SessionPhase::Ended, ..s }, SessionAction::ReportAbort { clear: s.resumed })
        } else {
            (Session { phase: SessionPhase::AwaitMerge, ..s }, SessionAction::CheckMerge)
        },
        (SessionPhase::AwaitMerge, SessionEvent::Merge(unresolved)) => if unresolved {
            (Session { phase: SessionPhase::Ended, ..s }, SessionAction::Refuse(Refusal::UnresolvedMerge))
        } else {
            (Session { phase: SessionPhase::AwaitFetch, ..s }, SessionAction::Fetch)
        },
        (SessionPhase::AwaitFetch, SessionEvent::Fetched) => (
            Session { phase: SessionPhase::AwaitTree, ..s },
            SessionAction::CheckTree,
        ),
        (SessionPhase::AwaitTree, SessionEvent::Tree(clean)) => {
            let stash = s.on_checkout && !clean;
            if stash && !s.starts && !s.resumed {
                (Session { phase: SessionPhase::Ended, ..s }, SessionAction::Refuse(Refusal::DirtyTree))
            } else if s.resumed {
                after_stash_exec(Session { stashed: s.resume_has_stash, ..s })
            } else if stash {
                (Session { phase: SessionPhase::AwaitStash, stashed: true, ..s }, SessionAction::PushStash)
            } else {
                after_stash_exec(s)
            }
        },
        (SessionPhase::AwaitStash, SessionEvent::Done) => after_stash_exec(s),
        (SessionPhase::AwaitWrite, SessionEvent::Done) => (
            Session { phase: SessionPhase::AwaitFlow, ..s },
            SessionAction::RunFlow,
        ),
        (SessionPhase::AwaitFlow, SessionEvent::Flow(ok)) => {
            let t = Session { failed: !ok, ..s };
            if ok && (s.finish_with_state || s.resumed) && s.clears {
                (Session { phase: SessionPhase::AwaitClear, ..t }, SessionAction::ClearState)
            } else {
                after_clear_exec(t)
            }
        },
        (SessionPhase::AwaitClear, SessionEvent::Done) => after_clear_exec(s),
        _ => (s, SessionAction::Finish),
    }
}

} // verus!
