//! The decisions of a bflow run around the flows: which action a run takes
//! when a finish is in progress, when uncommitted changes are stashed and
//! kept, and what finish state is written.
use vstd::prelude::*;

use crate::cli::{resolve_action, resolve_result, Commands};
use crate::flows::{finish_hotfix, finish_release, finish_work, start, Output};
use crate::git::{Git, GitEvent};
use crate::hosting::template;
use crate::hosting::{HostEvent, HostingPlatform};
use crate::mainline::resolve_main_branch;
use crate::repo_config::RepoConfig;
use crate::text::contains_str;
use crate::version_script::VersionScript;
use crate::worktree::WorktreeContext;
use crate::git::branch::{law_versioned_branch_round_trip, spec_parse_branch, BranchType, BranchView};
use crate::menu::{menu_outcome, show_menu, Action};
use crate::prompt::Prompter;
use crate::state::{finish_identity, kind_text, source_branch_text, FinishKind, FinishState, StateView};
use crate::text::cat;

verus! {

/// A finish resumes only on its own source branch: the loaded state counts
/// when its identity is the current branch's.
pub open spec fn resumable(b: BranchView, st: StateView) -> bool {
    match b {
        BranchView::Release(x, y, z) => st.kind == FinishKind::Release && st.major == x && st.minor == y && st.patch == z,
        BranchView::Hotfix(x, y, z) => st.kind == FinishKind::Hotfix && st.major == x && st.minor == y && st.patch == z,
        _ => false,
    }
}

/// A finish resumes only on the branch it started from: the branch a
/// resumable state names parses back to the current branch's type.
pub proof fn law_resume_on_source_branch(b: BranchView, st: StateView)
    requires
        resumable(b, st),
    ensures
        spec_parse_branch(source_branch_text(st)) == b,
{
    law_versioned_branch_round_trip(st.major, st.minor, st.patch);
}

pub fn resume_state_for(branch_type: &BranchType, state: Option<FinishState>) -> (r: Option<FinishState>)
    ensures
        match state {
            Some(st) => if resumable(branch_type@, st@) {
                r == Some(st)
            } else {
                r is None
            },
            None => r is None,
        },
{
    match state {
        Some(st) => match finish_identity(branch_type) {
            Some((kind, major, minor, patch)) => {
                if kind == st.kind && major == st.major && minor == st.minor && patch == st.patch {
                    Some(st)
                } else {
                    None
                }
            },
            None => None,
        },
        None => None,
    }
}

/// The action that resumes an in-progress finish of this kind.
pub open spec fn resume_of(kind: FinishKind) -> Action {
    match kind {
        FinishKind::Release => Action::FinishRelease,
        FinishKind::Hotfix => Action::FinishHotfix,
    }
}

pub fn resume_action(state: &FinishState) -> (r: Action)
    ensures
        r == resume_of(state.kind),
{
    match state.kind {
        FinishKind::Release => Action::FinishRelease,
        FinishKind::Hotfix => Action::FinishHotfix,
    }
}

/// Whether the command is a plain `bflow finish` or the default interactive
/// run: the commands a finish in progress takes over. `--abort` aborts, and an
/// explicit `--base` is refused on the branches that carry a finish state.
pub open spec fn finish_or_default(command: Option<Commands>) -> bool {
    command is None || command matches Some(Commands::Finish { base: None, abort: false, .. })
}

/// Decide which action to run given the parsed command, the current branch
/// and any resume state. Resume state (present only on the finish's own
/// source branch) takes precedence for `bflow finish` and the interactive run.
pub fn resolve_action_with_state(
    command: Option<Commands>,
    branch_type: &BranchType,
    branch_name: &str,
    resume_state: Option<&FinishState>,
    worktree_enabled: bool,
    prompter: &dyn Prompter,
    out: &dyn Output,
) -> (r: Result<Action, String>)
    ensures
        finish_or_default(command) && resume_state is Some ==> r == Ok::<Action, String>(
            resume_of(resume_state.unwrap().kind),
        ),
        resume_state is None || !finish_or_default(command) ==> match command {
            Some(c) => resolve_result(c, branch_type@, worktree_enabled, r),
            None => r matches Ok(a) ==> menu_outcome(branch_type@, branch_name@, a),
        },
{
    let takes_over = match &command {
        None => true,
        Some(Commands::Finish { base, abort, .. }) => base.is_none() && !*abort,
        Some(_) => false,
    };
    if takes_over {
        match resume_state {
            Some(state) => {
                out.warning(
                    cat(
                        &[
                            "↻ Resuming in-progress ",
                            state.kind.as_str(),
                            " finish for ",
                            state.source_branch().as_str(),
                            " (started_at=",
                            state.started_at.as_str(),
                            "). Use 'bflow finish --abort' to discard.",
                        ],
                    ).as_str(),
                );
                return Ok(resume_action(state));
            },
            None => {},
        }
    }
    match command {
        None => show_menu(prompter, branch_type, branch_name),
        Some(cmd) => resolve_action(cmd, branch_type, worktree_enabled),
    }
}

pub open spec fn unresolved_merge_text(state: Option<StateView>) -> Seq<char> {
    let base = "Unresolved merge in progress. Resolve conflicts, run 'git commit', then re-run 'bflow finish'."@;
    match state {
        Some(s) => base + "\n(In-progress "@ + kind_text(s.kind) + " finish for "@ + source_branch_text(s)
            + " is waiting for resume.)"@,
        None => base,
    }
}

/// The refusal to run while a merge is unresolved, naming any finish that is
/// waiting to resume.
pub fn unresolved_merge_message(state: Option<&FinishState>) -> (r: String)
    ensures
        r@ == unresolved_merge_text(
            match state {
                Some(s) => Some(s@),
                None => None,
            },
        ),
{
    let mut msg = String::from_str(
        "Unresolved merge in progress. Resolve conflicts, run 'git commit', then re-run 'bflow finish'.",
    );
    match state {
        Some(s) => {
            msg.append("\n(In-progress ");
            msg.append(s.kind.as_str());
            msg.append(" finish for ");
            msg.append(s.source_branch().as_str());
            msg.append(" is waiting for resume.)");
        },
        None => {},
    }
    msg
}

/// The message a stash is pushed with, by which it is found again.
pub fn stash_label(branch_name: &str, timestamp: &str) -> (r: String)
    ensures
        r@ == "bflow-finish:"@ + branch_name@ + ":"@ + timestamp@,
{
    let mut s = String::from_str("bflow-finish:");
    s.append(branch_name);
    s.append(":");
    s.append(timestamp);
    s
}

/// Finishes that write state, so an interrupted run can resume.
pub open spec fn writes_state(a: Action) -> bool {
    a is FinishRelease || a is FinishHotfix
}

pub fn is_finish_with_state(action: &Action) -> (r: bool)
    ensures
        r == writes_state(*action),
{
    match action {
        Action::FinishRelease | Action::FinishHotfix => true,
        _ => false,
    }
}

/// Uncommitted changes are stashed when the run works on this checkout, on a
/// gitflow branch, with a dirty tree.
pub open spec fn stash_needed(no_checkout: bool, b: BranchView, clean: bool) -> bool {
    !no_checkout && !(b is Other) && !clean
}

pub fn needs_stash(no_checkout: bool, branch_type: &BranchType, clean: bool) -> (r: bool)
    ensures
        r == stash_needed(no_checkout, branch_type@, clean),
{
    let other = match branch_type {
        BranchType::Other => true,
        _ => false,
    };
    !no_checkout && !other && !clean
}

/// A dirty tree is refused before any side effect unless the action starts a
/// branch or resumes a finish.
pub open spec fn dirty_refused(stash: bool, starts: bool, resumed: bool) -> bool {
    stash && !starts && !resumed
}

pub open spec fn dirty_finish_text() -> Seq<char> {
    "Working tree is not clean. Commit your changes before finishing."@
}

pub fn check_dirty_tree(stash: bool, starts: bool, resumed: bool) -> (r: Result<(), String>)
    ensures
        dirty_refused(stash, starts, resumed) ==> (r matches Err(e) && e@ == dirty_finish_text()),
        !dirty_refused(stash, starts, resumed) ==> r is Ok,
{
    if stash && !starts && !resumed {
        Err(String::from_str("Working tree is not clean. Commit your changes before finishing."))
    } else {
        Ok(())
    }
}

/// After a failed release or hotfix finish (or a failed resume) the stash is
/// kept for the resume; in every other case it is restored.
pub open spec fn stash_kept(failed: bool, finish_with_state: bool, resumed: bool) -> bool {
    failed && (finish_with_state || resumed)
}

pub fn keep_stash_for_resume(failed: bool, finish_with_state: bool, resumed: bool) -> (r: bool)
    ensures
        r == stash_kept(failed, finish_with_state, resumed),
{
    failed && (finish_with_state || resumed)
}

/// The finish state a fresh release or hotfix finish writes: the action
/// decides whether, the branch supplies the identity, and the two must agree.
pub open spec fn state_identity(a: Action, b: BranchView) -> Option<(FinishKind, u32, u32, u32)> {
    match (a, b) {
        (Action::FinishRelease, BranchView::Release(x, y, z)) => Some((FinishKind::Release, x, y, z)),
        (Action::FinishHotfix, BranchView::Hotfix(x, y, z)) => Some((FinishKind::Hotfix, x, y, z)),
        _ => None,
    }
}

pub fn state_to_write(action: &Action, branch_type: &BranchType) -> (r: Option<(FinishKind, u32, u32, u32)>)
    ensures
        r == state_identity(*action, branch_type@),
{
    let expected = match action {
        Action::FinishRelease => FinishKind::Release,
        Action::FinishHotfix => FinishKind::Hotfix,
        _ => {
            return None;
        },
    };
    match finish_identity(branch_type) {
        Some((kind, major, minor, patch)) => {
            if kind == expected {
                Some((kind, major, minor, patch))
            } else {
                None
            }
        },
        None => None,
    }
}

pub open spec fn abort_head_text(s: StateView) -> Seq<char> {
    "Aborting in-progress "@ + kind_text(s.kind) + " finish for "@ + source_branch_text(s) + " (started_at="@
        + s.started_at + ")."@
}

/// What `bflow finish --abort` reports: nothing in progress, or the finish it
/// discards and where the stashed changes are.
pub fn abort_report(state: Option<&FinishState>) -> (r: Vec<String>)
    ensures
        state is None ==> r@.len() == 1 && r@[0]@ == "No in-progress finish to abort."@,
        state matches Some(s) ==> {
            &&& r@[0]@ == abort_head_text(s@)
            &&& match s@.stash_ref {
                Some(m) => r@.len() == 3 && r@[1]@ == "Your original uncommitted changes are still stashed as '"@ + m
                    + "'."@ && r@[2]@ == "Run 'git stash list' to find it, then 'git stash pop <ref>' to restore."@,
                None => r@.len() == 1,
            }
        },
{
    let mut lines: Vec<String> = Vec::new();
    match state {
        None => {
            lines.push(String::from_str("No in-progress finish to abort."));
        },
        Some(s) => {
            let mut head = String::from_str("Aborting in-progress ");
            head.append(s.kind.as_str());
            head.append(" finish for ");
            head.append(s.source_branch().as_str());
            head.append(" (started_at=");
            head.append(s.started_at.as_str());
            head.append(").");
            lines.push(head);
            match &s.stash_ref {
                Some(msg) => {
                    let mut kept = String::from_str("Your original uncommitted changes are still stashed as '");
                    kept.append(msg.as_str());
                    kept.append("'.");
                    lines.push(kept);
                    lines.push(String::from_str("Run 'git stash list' to find it, then 'git stash pop <ref>' to restore."));
                },
                None => {},
            }
        },
    }
    lines
}

/// Whether the action runs the version script: the starts that create a
/// release or hotfix branch, and the bump.
pub open spec fn script_action(a: Action) -> bool {
    a is StartRelease || a is StartHotfixFix || a is BumpVersion
}

pub fn uses_version_script(action: &Action) -> (r: bool)
    ensures
        r == script_action(*action),
{
    match action {
        Action::StartRelease(_) | Action::StartHotfixFix { .. } | Action::BumpVersion => true,
        _ => false,
    }
}

/// Bring the current branch up to its remote copy. A branch that has none
/// (git: "not something we can merge") needs nothing.
pub fn sync_current_branch<G: Git>(git: &mut G, branch_name: &str) -> (r: Result<(), String>)
    ensures
        crate::git::extends(final(git).history(), old(git).history()),
        r matches Err(e) ==> !crate::text::contains_seq(e@, "not something we can merge"@),
{
    match git.ff_merge(cat(&["origin/", branch_name]).as_str()) {
        Ok(()) => Ok(()),
        Err(e) => if contains_str(e.as_str(), "not something we can merge") {
            Ok(())
        } else {
            Err(e)
        },
    }
}

pub open spec fn abort_handled_text() -> Seq<char> {
    "Abort is handled before any flow runs."@
}

/// The flow an action runs, with the arguments it is run with, or the
/// refusal when the branch cannot run it.
pub enum FlowPlan {
    StartWork { prefix: String, name: String, from: String, no_checkout: bool },
    StartRelease(Option<start::ReleaseType>),
    StartReleaseFix { name: String, no_checkout: bool },
    StartHotfixFix { name: String, no_checkout: bool },
    FinishWork { breaking: Option<bool>, base: Option<String> },
    FinishReleaseFix,
    FinishHotfixFix,
    Bump { major: u32, minor: u32 },
    Sync { major: u32, minor: u32 },
    FinishRelease { major: u32, minor: u32 },
    FinishHotfix { major: u32, minor: u32, patch: u32 },
    Refuse(String),
}

pub open spec fn resume_version(resume_state: Option<&FinishState>) -> Option<(u32, u32, u32)> {
    match resume_state {
        Some(s) => Some((s.major, s.minor, s.patch)),
        None => None,
    }
}

pub open spec fn opt_text(o: Option<String>) -> Option<Seq<char>> {
    match o {
        Some(s) => Some(s@),
        None => None,
    }
}

/// Why the branch cannot run the action, if it cannot. A resumed finish takes
/// its version from the saved state, not from the branch.
pub open spec fn plan_refusal(a: Action, b: BranchView, resume: Option<(u32, u32, u32)>) -> Option<Seq<char>> {
    match a {
        Action::FinishReleaseFix | Action::FinishHotfixFix => if b is ReleaseFix || b is HotfixFix {
            None
        } else {
            Some("Not on a release-fix or hotfix-fix branch."@)
        },
        Action::BumpVersion | Action::SyncWithDevelop => if b is Release {
            None
        } else {
            Some(crate::cli::release_only_message())
        },
        Action::FinishRelease => if resume is Some || b is Release {
            None
        } else {
            Some("Not on a release branch."@)
        },
        Action::FinishHotfix => if resume is Some || b is Hotfix {
            None
        } else {
            Some("Not on a hotfix branch."@)
        },
        Action::AbortFinish => Some(abort_handled_text()),
        _ => None,
    }
}

/// `p` is the flow `a` runs on a branch of type `b` (resuming the finish of
/// version `resume`, when given): the action's own arguments, the branch's
/// version, or the refusal.
pub open spec fn plan_ok(a: Action, b: BranchView, resume: Option<(u32, u32, u32)>, p: FlowPlan) -> bool {
    match plan_refusal(a, b, resume) {
        Some(m) => p matches FlowPlan::Refuse(e) && e@ == m,
        None => match a {
            Action::StartWorkBranch { prefix, name, from, no_checkout, .. } => p matches FlowPlan::StartWork {
                prefix: p2,
                name: n2,
                from: f2,
                no_checkout: c2,
            } && p2@ == prefix@ && n2@ == name@ && f2@ == from@ && c2 == no_checkout,
            Action::StartRelease(t) => p == FlowPlan::StartRelease(t),
            Action::StartReleaseFix { name, no_checkout, .. } => p matches FlowPlan::StartReleaseFix {
                name: n2,
                no_checkout: c2,
            } && n2@ == name@ && c2 == no_checkout,
            Action::StartHotfixFix { name, no_checkout, .. } => p matches FlowPlan::StartHotfixFix {
                name: n2,
                no_checkout: c2,
            } && n2@ == name@ && c2 == no_checkout,
            Action::FinishWorkBranch { breaking, base } => p matches FlowPlan::FinishWork { breaking: k2, base: s2 }
                && k2 == breaking && opt_text(s2) == opt_text(base),
            Action::FinishReleaseFix | Action::FinishHotfixFix => if b is ReleaseFix {
                p is FinishReleaseFix
            } else {
                p is FinishHotfixFix
            },
            Action::BumpVersion => match b {
                BranchView::Release(x, y, _) => p == FlowPlan::Bump { major: x, minor: y },
                _ => false,
            },
            Action::SyncWithDevelop => match b {
                BranchView::Release(x, y, _) => p == FlowPlan::Sync { major: x, minor: y },
                _ => false,
            },
            Action::FinishRelease => match (resume, b) {
                (Some((x, y, _)), _) => p == FlowPlan::FinishRelease { major: x, minor: y },
                (None, BranchView::Release(x, y, _)) => p == FlowPlan::FinishRelease { major: x, minor: y },
                _ => false,
            },
            Action::FinishHotfix => match (resume, b) {
                (Some((x, y, z)), _) => p == FlowPlan::FinishHotfix { major: x, minor: y, patch: z },
                (None, BranchView::Hotfix(x, y, z)) => p == FlowPlan::FinishHotfix { major: x, minor: y, patch: z },
                _ => false,
            },
            _ => false,
        },
    }
}

/// The flow `action` runs on `branch_type` (resuming `resume_state`'s finish,
/// when given).
pub fn plan_action(action: &Action, branch_type: &BranchType, resume_state: Option<&FinishState>) -> (r: FlowPlan)
    ensures
        plan_ok(*action, branch_type@, resume_version(resume_state), r),
{
    match action {
        Action::StartWorkBranch { prefix, name, from, no_checkout, .. } => FlowPlan::StartWork {
            prefix: prefix.clone(),
            name: name.clone(),
            from: from.clone(),
            no_checkout: *no_checkout,
        },
        Action::StartRelease(t) => FlowPlan::StartRelease(*t),
        Action::StartReleaseFix { name, no_checkout, .. } => FlowPlan::StartReleaseFix {
            name: name.clone(),
            no_checkout: *no_checkout,
        },
        Action::StartHotfixFix { name, no_checkout, .. } => FlowPlan::StartHotfixFix {
            name: name.clone(),
            no_checkout: *no_checkout,
        },
        Action::FinishWorkBranch { breaking, base } => {
            let b = match base {
                Some(s) => Some(s.clone()),
                None => None,
            };
            FlowPlan::FinishWork { breaking: *breaking, base: b }
        },
        Action::FinishReleaseFix | Action::FinishHotfixFix => match branch_type {
            BranchType::ReleaseFix { .. } => FlowPlan::FinishReleaseFix,
            BranchType::HotfixFix { .. } => FlowPlan::FinishHotfixFix,
            _ => FlowPlan::Refuse(String::from_str("Not on a release-fix or hotfix-fix branch.")),
        },
        Action::BumpVersion => match branch_type {
            BranchType::Release { major, minor, .. } => FlowPlan::Bump { major: *major, minor: *minor },
            _ => FlowPlan::Refuse(String::from_str("This command is only valid on a release branch.")),
        },
        Action::SyncWithDevelop => match branch_type {
            BranchType::Release { major, minor, .. } => FlowPlan::Sync { major: *major, minor: *minor },
            _ => FlowPlan::Refuse(String::from_str("This command is only valid on a release branch.")),
        },
        Action::FinishRelease => match (resume_state, branch_type) {
            (Some(s), _) => FlowPlan::FinishRelease { major: s.major, minor: s.minor },
            (None, BranchType::Release { major, minor, .. }) => FlowPlan::FinishRelease { major: *major, minor: *minor },
            _ => FlowPlan::Refuse(String::from_str("Not on a release branch.")),
        },
        Action::FinishHotfix => match (resume_state, branch_type) {
            (Some(s), _) => FlowPlan::FinishHotfix { major: s.major, minor: s.minor, patch: s.patch },
            (None, BranchType::Hotfix { major, minor, patch }) => FlowPlan::FinishHotfix {
                major: *major,
                minor: *minor,
                patch: *patch,
            },
            _ => FlowPlan::Refuse(String::from_str("Not on a hotfix branch.")),
        },
        Action::AbortFinish => FlowPlan::Refuse(String::from_str("Abort is handled before any flow runs.")),
    }
}

/// What running plan `p` on a branch of type `b` asked of git and the
/// platform (histories `g`, `h` after `g0`, `h0`), as far as the flows'
/// contracts say without the repository's answers about the mainline and the
/// PR template: a work branch is started by `branch_start_events`, a release
/// fix on the checked-out branch by `release_fix_events`, a work-branch,
/// release-fix or hotfix-fix finish by `work_finish_events` or
/// `fix_finish_events` (for some template), a free-mode bump without a
/// script by `cut_rc_events`, a release start without a script by
/// `release_resolve_events`, a sync by `sync_events`; after reading the
/// mainline (`mainline_read`), a hotfix-fix start by `hotfix_fix_events`
/// and a release finish by `release_gate_events` and, when it succeeds,
/// `release_finished`, and a hotfix finish by `hotfix_finished`. A refusal
/// asks nothing.
pub open spec fn flow_ran(
    g0: Seq<GitEvent>,
    g: Seq<GitEvent>,
    h0: Seq<HostEvent>,
    h: Seq<HostEvent>,
    p: FlowPlan,
    b: BranchView,
    in_worktree: bool,
    mode: crate::repo_config::Mode,
    has_script: bool,
    r: Result<(), String>,
) -> bool {
    match p {
        FlowPlan::StartWork { prefix, name, from, no_checkout } => start::branch_start_events(
            g0,
            g,
            prefix@ + "/"@ + name@,
            from@,
            no_checkout || in_worktree,
            in_worktree,
            r,
        ),
        FlowPlan::StartReleaseFix { name, no_checkout } => !no_checkout && !in_worktree ==> start::release_fix_events(
            g0,
            g,
            name@,
            r,
        ),
        FlowPlan::FinishWork { breaking, base } => exists|t: Option<&str>, fr: Result<Option<String>, String>|
            #[trigger] finish_work::work_finish_events(g0, g, h0, h, b, breaking, opt_text(base), t, fr) && (fr is Ok
                <==> r is Ok) && (fr matches Err(e) ==> r == Err::<(), String>(e)),
        FlowPlan::FinishReleaseFix => exists|t: Option<&str>, fr: Result<Option<String>, String>|
            #[trigger] finish_work::fix_finish_events(
                g0,
                g,
                h0,
                h,
                "release/"@ + crate::version::triple_text(b->ReleaseFix_0, b->ReleaseFix_1, b->ReleaseFix_2),
                b->ReleaseFix_3,
                t,
                fr,
            ) && (fr is Ok <==> r is Ok),
        FlowPlan::FinishHotfixFix => exists|t: Option<&str>, fr: Result<Option<String>, String>|
            #[trigger] finish_work::fix_finish_events(
                g0,
                g,
                h0,
                h,
                "hotfix/"@ + crate::version::triple_text(b->HotfixFix_0, b->HotfixFix_1, b->HotfixFix_2),
                b->HotfixFix_3,
                t,
                fr,
            ) && (fr is Ok <==> r is Ok),
        FlowPlan::Bump { major, minor } => mode == crate::repo_config::Mode::Free && !has_script
            ==> finish_release::cut_rc_events(
            g,
            g0.len() as int,
            crate::version::release_branch_text(major, minor, 0),
            major,
            minor,
            crate::version::release_view(major, minor, 0),
            r,
        ),
        FlowPlan::StartRelease(given) => !has_script ==> exists|branch: Result<String, String>|
            #[trigger] start::release_resolve_events(g0, g, given, branch) && r == start::unit_of(branch),
        FlowPlan::Sync { major, minor } => finish_release::sync_events(g0, g, major, minor, r),
        FlowPlan::StartHotfixFix { name, no_checkout } => !has_script || no_checkout || in_worktree ==> exists|
            l: int,
            main: Result<String, String>,
        | {
            &&& g0.len() <= l <= g.len()
            &&& #[trigger] crate::mainline::mainline_read(g0, g.take(l), main)
            &&& match main {
                Err(e) => g.len() == l && r == Err::<(), String>(e),
                Ok(m) => start::hotfix_fix_events(g.take(l), g, m@, name@, no_checkout || in_worktree, in_worktree, r),
            }
        },
        FlowPlan::FinishRelease { major, minor } => exists|l: int, main: Result<String, String>| {
            &&& g0.len() <= l <= g.len()
            &&& #[trigger] crate::mainline::mainline_read(g0, g.take(l), main)
            &&& match main {
                Err(e) => g.len() == l && r == Err::<(), String>(e),
                Ok(m) => {
                    &&& finish_release::release_gate_events(g.take(l), g, major, minor, m@, r)
                    &&& r is Ok ==> exists|v: crate::version::VersionView|
                        #[trigger] finish_release::release_finished(g.take(l), g, major, minor, m@, v)
                },
            }
        },
        FlowPlan::FinishHotfix { major, minor, patch } => exists|l: int, main: Result<String, String>| {
            &&& g0.len() <= l <= g.len()
            &&& #[trigger] crate::mainline::mainline_read(g0, g.take(l), main)
            &&& match main {
                Err(e) => g.len() == l && r == Err::<(), String>(e),
                Ok(m) => finish_hotfix::hotfix_finished(g.take(l), g, h0, h, m@, major, minor, patch, None, mode, r),
            }
        },
        FlowPlan::Refuse(e) => g == g0 && h == h0 && (r matches Err(m) && m@ == e@),
        _ => true,
    }
}

/// Run the flow of `action` on the current branch: the plan `plan_action`
/// makes of it, with its arguments. `sync_current`: first bring the current
/// branch up to its remote copy (not on a resume). The policy, the version
/// script (when the action uses one) and the worktree context are the
/// caller's.
pub fn run_action<G: Git, H: HostingPlatform>(
    git: &mut G,
    hosting: &mut H,
    prompter: &dyn Prompter,
    out: &dyn Output,
    branch_type: &BranchType,
    branch_name: &str,
    action: &Action,
    sync_current: bool,
    worktree: Option<&WorktreeContext>,
    repo_root: &str,
    cfg: &RepoConfig,
    script: Option<&dyn VersionScript>,
    resume_state: Option<&FinishState>,
) -> (r: Result<(), String>)
    ensures
        crate::hosting::host_extends(final(hosting).history(), old(hosting).history()),
        crate::git::extends(final(git).history(), old(git).history()),
        (!sync_current || resume_state is Some) && *action == Action::AbortFinish ==> (r matches Err(e) && e@
            == abort_handled_text()),
        (!sync_current || resume_state is Some) && (*action == Action::BumpVersion || *action == Action::SyncWithDevelop)
            && !(branch_type@ is Release) ==> (r matches Err(e) && e@ == crate::cli::release_only_message()),
        (!sync_current || resume_state is Some) ==> match plan_refusal(
            *action,
            branch_type@,
            resume_version(resume_state),
        ) {
            Some(m) => r matches Err(e) && e@ == m,
            None => true,
        },
        (!sync_current || resume_state is Some) ==> forall|p: FlowPlan|
            #[trigger] plan_ok(*action, branch_type@, resume_version(resume_state), p) ==> flow_ran(
                old(git).history(),
                final(git).history(),
                old(hosting).history(),
                final(hosting).history(),
                p,
                branch_type@,
                worktree is Some,
                cfg.mode,
                script is Some,
                r,
            ),
{
    if sync_current && resume_state.is_none() {
        sync_current_branch(git, branch_name)?;
    }
    let plan = plan_action(action, branch_type, resume_state);
    match plan {
        FlowPlan::StartWork { prefix, name, from, no_checkout } => {
            start::start_work_branch(git, out, prefix.as_str(), name.as_str(), from.as_str(), no_checkout, worktree)
        },
        FlowPlan::StartRelease(release_type) => start::start_release(git, prompter, hosting, script, cfg, out, release_type),
        FlowPlan::StartReleaseFix { name, no_checkout } => start::start_release_fix(
            git,
            out,
            name.as_str(),
            no_checkout,
            worktree,
        ),
        FlowPlan::StartHotfixFix { name, no_checkout } => {
            let main = resolve_main_branch(git, out);
            let ghost mid = git.history();
            proof {
                assert(mid.take(mid.len() as int) =~= mid);
            }
            let main_branch = match main {
                Ok(m) => m,
                Err(e) => {
                    return Err(e);
                },
            };
            let r = start::start_hotfix_fix(git, out, name.as_str(), no_checkout, worktree, main_branch.as_str(), script);
            proof {
                assert(git.history().take(mid.len() as int) =~= mid);
            }
            r
        },
        FlowPlan::FinishWork { breaking, base } => {
            let mut probe = crate::paths::Probe::new();
            let template = template::resolve_with(&mut probe, repo_root, branch_type);
            let t = match &template {
                Some(p) => Some(p.as_str()),
                None => None,
            };
            finish_work::finish_work_branch(git, hosting, prompter, out, branch_type, breaking, base, t)?;
            Ok(())
        },
        FlowPlan::FinishReleaseFix => {
            let mut probe = crate::paths::Probe::new();
            let template = template::resolve_with(&mut probe, repo_root, branch_type);
            let t = match &template {
                Some(p) => Some(p.as_str()),
                None => None,
            };
            finish_work::finish_release_fix(git, hosting, out, branch_type, t)?;
            Ok(())
        },
        FlowPlan::FinishHotfixFix => {
            let mut probe = crate::paths::Probe::new();
            let template = template::resolve_with(&mut probe, repo_root, branch_type);
            let t = match &template {
                Some(p) => Some(p.as_str()),
                None => None,
            };
            finish_work::finish_hotfix_fix(git, hosting, out, branch_type, t)?;
            Ok(())
        },
        FlowPlan::Bump { major, minor } => finish_release::bump_version(git, hosting, script, cfg, out, major, minor),
        FlowPlan::Sync { major, minor } => finish_release::sync_with_develop(git, out, major, minor),
        FlowPlan::FinishRelease { major, minor } => {
            let main = resolve_main_branch(git, out);
            let ghost mid = git.history();
            proof {
                assert(mid.take(mid.len() as int) =~= mid);
            }
            let main_branch = match main {
                Ok(m) => m,
                Err(e) => {
                    return Err(e);
                },
            };
            let r = finish_release::finish_release(git, out, major, minor, main_branch.as_str());
            proof {
                assert(git.history().take(mid.len() as int) =~= mid);
            }
            r
        },
        FlowPlan::FinishHotfix { major, minor, patch } => {
            let main = resolve_main_branch(git, out);
            let ghost mid = git.history();
            proof {
                assert(mid.take(mid.len() as int) =~= mid);
            }
            let main_branch = match main {
                Ok(m) => m,
                Err(e) => {
                    return Err(e);
                },
            };
            let r = finish_hotfix::finish_hotfix(git, hosting, cfg, out, major, minor, patch, main_branch.as_str(), None);
            proof {
                assert(git.history().take(mid.len() as int) =~= mid);
            }
            r
        },
        FlowPlan::Refuse(e) => Err(e),
    }
}

} // verus!
