use bflow::cli::Commands;
use bflow::flows::Output;
use bflow::git::branch::BranchType;
use bflow::init::{config_from_choices, run};
use bflow::mainline::configured_mainline;
use bflow::menu::{accept_name, shape_name_char, show_menu, trim_hyphens, Action, DevelopOption, ReleaseOption, WorkBranchOption};
use bflow::prompt::Prompter;
use bflow::repo_config::{BumpStrategy, Mode, RepoConfig};
use bflow::session::{
    abort_report, check_dirty_tree, keep_stash_for_resume, needs_stash, resolve_action_with_state, resume_state_for, stash_label,
    state_to_write, unresolved_merge_message,
};
use bflow::state::{current_timestamp, FinishKind, FinishState};
use std::cell::RefCell;

struct Quiet;

impl Output for Quiet {
    fn line(&self, _text: &str) {}
    fn warning(&self, _text: &str) {}
}

struct Script {
    picks: RefCell<Vec<usize>>,
    seen: RefCell<Vec<Vec<String>>>,
}

impl Script {
    fn new(picks: &[usize]) -> Self {
        Script { picks: RefCell::new(picks.to_vec()), seen: RefCell::new(Vec::new()) }
    }
}

impl Prompter for Script {
    fn select(&self, _prompt: &str, items: &[&str]) -> Result<usize, String> {
        self.seen.borrow_mut().push(items.iter().map(|s| s.to_string()).collect());
        Ok(self.picks.borrow_mut().remove(0))
    }
    fn prompt_name(&self, _prompt: &str) -> Result<String, String> { Ok("thing".to_string()) }
    fn prompt_line(&self, _prompt: &str) -> Result<String, String> { Ok(String::new()) }
}

fn release_state() -> FinishState {
    FinishState { kind: FinishKind::Release, major: 2, minor: 5, patch: 0, started_at: "0".to_string(), stash_ref: None }
}

#[test]
fn resume_state_resumes_finish() {
    let branch_type = BranchType::Release { major: 2, minor: 5, patch: 0 };
    let state = release_state();
    let cmd = Some(Commands::Finish { breaking: None, base: None, abort: false });
    let action = resolve_action_with_state(cmd, &branch_type, "release/2.5.0", Some(&state), false, &Script::new(&[]), &Quiet).unwrap();
    assert!(matches!(action, Action::FinishRelease));
}

#[test]
fn other_commands_ignore_resume_state() {
    let branch_type = BranchType::Release { major: 2, minor: 5, patch: 0 };
    let state = release_state();
    let action = resolve_action_with_state(Some(Commands::Bump), &branch_type, "release/2.5.0", Some(&state), false, &Script::new(&[]), &Quiet).unwrap();
    assert!(matches!(action, Action::BumpVersion));
}

#[test]
fn menu_on_develop_starts_a_branch_from_develop() {
    let p = Script::new(&[1]);
    let action = show_menu(&p, &BranchType::Develop, "develop").unwrap();
    assert_eq!(
        action,
        Action::StartWorkBranch { prefix: "fix".into(), name: "thing".into(), from: "develop".into(), no_checkout: false, no_worktree: false }
    );
    assert_eq!(p.seen.borrow()[0], vec!["start feature", "start fix", "start chore", "start docs", "start refactor", "start release"]);
}

#[test]
fn menu_on_a_work_branch_offers_finish_and_child_branches() {
    let p = Script::new(&[0]);
    let bt = BranchType::Docs { name: "x".into() };
    assert_eq!(show_menu(&p, &bt, "docs/x").unwrap(), Action::FinishWorkBranch { breaking: None, base: None });
    assert_eq!(p.seen.borrow()[0][0], "finish docs");
    let p = Script::new(&[2, 0]);
    let action = show_menu(&p, &bt, "docs/x").unwrap();
    assert_eq!(
        action,
        Action::StartWorkBranch { prefix: "fix".into(), name: "thing".into(), from: "docs/x".into(), no_checkout: false, no_worktree: false }
    );
    assert_eq!(p.seen.borrow()[1], vec!["docs/x (current)", "develop"]);
}

#[test]
fn menu_on_release_and_other() {
    assert_eq!(show_menu(&Script::new(&[2]), &BranchType::Release { major: 1, minor: 0, patch: 0 }, "release/1.0.0").unwrap(), Action::BumpVersion);
    assert_eq!(
        show_menu(&Script::new(&[]), &BranchType::Other, "x").unwrap_err(),
        "Not on a recognized gitflow branch. Switch to main or develop first."
    );
}

#[test]
fn option_labels() {
    assert_eq!(DevelopOption::StartRelease.label(), "start release");
    assert_eq!(DevelopOption::StartChore.branch_prefix(), "chore");
    assert_eq!(WorkBranchOption::Finish.label("feature"), "finish feature");
    assert_eq!(WorkBranchOption::StartRefactor.branch_prefix(), "refactor");
    assert_eq!(ReleaseOption::SyncWithDevelop.label(), "sync with develop");
}

#[test]
fn typed_names_are_shaped() {
    assert_eq!(shape_name_char("abc", ' '), Some('-'));
    assert_eq!(shape_name_char("abc-", ' '), None);
    assert_eq!(shape_name_char("abc-", '-'), None);
    assert_eq!(shape_name_char("abc", 'x'), Some('x'));
    assert_eq!(trim_hyphens("--a-b--"), "a-b");
    assert_eq!(trim_hyphens("---"), "");
    assert_eq!(accept_name("-ok-"), Ok("ok".to_string()));
    assert_eq!(accept_name("--"), Err("Name cannot be empty".to_string()));
}

#[test]
fn stash_and_state_decisions() {
    assert!(needs_stash(false, &BranchType::Develop, false));
    assert!(!needs_stash(true, &BranchType::Develop, false));
    assert!(!needs_stash(false, &BranchType::Other, false));
    assert_eq!(check_dirty_tree(true, false, false), Err("Working tree is not clean. Commit your changes before finishing.".to_string()));
    assert_eq!(check_dirty_tree(true, true, false), Ok(()));
    assert!(keep_stash_for_resume(true, true, false));
    assert!(!keep_stash_for_resume(false, true, true));
    assert_eq!(stash_label("release/1.0.0", "17"), "bflow-finish:release/1.0.0:17");
    let release = BranchType::Release { major: 1, minor: 2, patch: 0 };
    assert_eq!(state_to_write(&Action::FinishRelease, &release), Some((FinishKind::Release, 1, 2, 0)));
    assert_eq!(state_to_write(&Action::FinishHotfix, &release), None);
    assert_eq!(state_to_write(&Action::BumpVersion, &release), None);
}

#[test]
fn messages_around_a_finish() {
    let mut state = release_state();
    assert_eq!(
        unresolved_merge_message(Some(&state)),
        "Unresolved merge in progress. Resolve conflicts, run 'git commit', then re-run 'bflow finish'.\n(In-progress release finish for release/2.5.0 is waiting for resume.)"
    );
    assert_eq!(abort_report(None), vec!["No in-progress finish to abort."]);
    state.stash_ref = Some("bflow-finish:x:1".to_string());
    let report = abort_report(Some(&state));
    assert_eq!(report.len(), 3);
    assert_eq!(report[0], "Aborting in-progress release finish for release/2.5.0 (started_at=0).");
}

#[test]
fn init_and_mainline() {
    assert_eq!(config_from_choices(1, 1, 1), RepoConfig { mode: Mode::Protected, keep_release_branches: true, bump_strategy: BumpStrategy::Patch });
    assert_eq!(config_from_choices(0, 0, 0), RepoConfig::default());
    assert_eq!(
        run(&Script::new(&[]), true).unwrap_err(),
        "Already initialised: edit .bflow/config directly (mode, keep-release-branches, bump-strategy)."
    );
    assert_eq!(run(&Script::new(&[1, 0, 0]), false).unwrap().mode, Mode::Protected);
    assert_eq!(configured_mainline("  master \n"), Some(Ok("master".to_string())));
    assert_eq!(configured_mainline("   "), None);
    assert!(configured_mainline("trunk").unwrap().unwrap_err().starts_with("Unsupported mainline branch 'trunk'"));
}

#[test]
fn timestamps_are_decimal_seconds() {
    let t = current_timestamp();
    assert!(!t.is_empty() && t.chars().all(|c| c.is_ascii_digit()), "got: {t}");
}

#[test]
fn a_finish_resumes_only_on_its_own_branch() {
    let st = release_state();
    let on_source = BranchType::parse("release/2.5.0");
    assert_eq!(resume_state_for(&on_source, Some(st.clone())), Some(st.clone()));
    assert_eq!(resume_state_for(&BranchType::parse("release/2.6.0"), Some(st.clone())), None);
    assert_eq!(resume_state_for(&BranchType::Develop, Some(st.clone())), None);
    assert_eq!(resume_state_for(&BranchType::parse("hotfix/2.5.0"), Some(st)), None);
    assert_eq!(resume_state_for(&on_source, None), None);
}

fn finish_with(base: Option<&str>) -> Option<Commands> {
    Some(Commands::Finish { breaking: None, base: base.map(|b| b.to_string()), abort: false })
}

#[test]
fn main_resume_state_resumes_finish_without_base() {
    let branch_type = BranchType::Release { major: 2, minor: 5, patch: 0 };
    let state = release_state();
    let action = resolve_action_with_state(finish_with(None), &branch_type, "release/2.5.0", Some(&state), false, &Script::new(&[]), &Quiet).unwrap();
    assert!(matches!(action, Action::FinishRelease));
}

#[test]
fn main_explicit_base_rejected_even_when_resume_state_exists() {
    let branch_type = BranchType::Release { major: 2, minor: 5, patch: 0 };
    let state = release_state();
    let err = resolve_action_with_state(finish_with(Some("develop")), &branch_type, "release/2.5.0", Some(&state), false, &Script::new(&[]), &Quiet)
        .unwrap_err();
    assert!(err.contains("--base"), "Expected the fixed-target --base error, got: {err}");
}

#[test]
fn lifecycle_test_resume_state_resumes_finish_without_base() {
    let branch_type = BranchType::Release { major: 2, minor: 5, patch: 0 };
    let state = release_state();
    let action = resolve_action_with_state(finish_with(None), &branch_type, "release/2.5.0", Some(&state), false, &Script::new(&[]), &Quiet).unwrap();
    assert!(matches!(action, Action::FinishRelease));
}

#[test]
fn lifecycle_test_explicit_base_rejected_even_when_resume_state_exists() {
    let branch_type = BranchType::Release { major: 2, minor: 5, patch: 0 };
    let state = release_state();
    let err = resolve_action_with_state(finish_with(Some("develop")), &branch_type, "release/2.5.0", Some(&state), false, &Script::new(&[]), &Quiet)
        .unwrap_err();
    assert!(err.contains("--base"), "Expected the fixed-target --base error, got: {err}");
}

#[test]
fn abort_wins_over_resume_state_and_branch_type() {
    let state = release_state();
    let abort = || Some(Commands::Finish { breaking: None, base: None, abort: true });
    let on_release = BranchType::Release { major: 2, minor: 5, patch: 0 };
    let action = resolve_action_with_state(abort(), &on_release, "release/2.5.0", Some(&state), false, &Script::new(&[]), &Quiet).unwrap();
    assert_eq!(action, Action::AbortFinish);
    let action = resolve_action_with_state(abort(), &BranchType::Develop, "develop", None, false, &Script::new(&[]), &Quiet).unwrap();
    assert_eq!(action, Action::AbortFinish);
}

#[test]
fn explicit_base_targets_a_work_branch_pr() {
    let bt = BranchType::Feature { name: "login".into() };
    let action = resolve_action_with_state(finish_with(Some("feature/auth")), &bt, "feature/login", None, false, &Script::new(&[]), &Quiet).unwrap();
    assert_eq!(action, Action::FinishWorkBranch { breaking: None, base: Some("feature/auth".to_string()) });
    let hotfix_fix = BranchType::HotfixFix { major: 1, minor: 0, patch: 1, name: "x".into() };
    let err = resolve_action_with_state(finish_with(Some("main")), &hotfix_fix, "hotfix-fix/1.0.1/x", None, false, &Script::new(&[]), &Quiet)
        .unwrap_err();
    assert_eq!(err, "--base only applies when finishing a work branch; this branch finishes into a fixed target.");
}

#[test]
fn the_script_runs_for_release_and_hotfix_starts_and_bumps() {
    assert!(bflow::session::uses_version_script(&Action::StartRelease(None)));
    assert!(bflow::session::uses_version_script(&Action::BumpVersion));
    assert!(bflow::session::uses_version_script(&Action::StartHotfixFix { name: "x".into(), no_checkout: false, no_worktree: false }));
    assert!(!bflow::session::uses_version_script(&Action::FinishRelease));
    assert!(!bflow::session::uses_version_script(&Action::SyncWithDevelop));
}

#[test]
fn each_finish_has_its_own_state_file() {
    assert_eq!(bflow::state::state_file_name(FinishKind::Hotfix, 2, 5, 2), "hotfix-2.5.2.state");
    assert_eq!(bflow::state::state_file_name(FinishKind::Release, 2, 5, 0), "release-2.5.0.state");
}
