//! Call-sequence scenarios for the start and finish flows, run against a
//! recording repository double.
use bflow::flows::finish_hotfix::finish_hotfix;
use bflow::flows::finish_release::{bump_version, finish_release, sync_with_develop};
use bflow::flows::finish_work::{finish_release_fix, finish_work_branch};
use bflow::flows::start::{detect_breaking_changes, start_hotfix_fix, start_release, start_release_fix, start_work_branch, ReleaseType};
use bflow::version::SemVer;
use bflow::version_script::VersionScript;
use bflow::menu::Action;
use bflow::session::run_action;
use bflow::editor::Editor;
use bflow::worktree::{
    editor_presets, expand_home, set_editor, set_enabled, set_path, show_status, use_default_path, worktree_path, WorktreeConfig,
    WorktreeContext,
};
use bflow::git::branch::BranchType;
use bflow::prompt::Prompter;
use bflow::flows::Output;
use bflow::git::Git;
use bflow::hosting::{HostingPlatform, LandedPr, MergedPr};
use bflow::repo_config::{Mode, RepoConfig};
use std::cell::RefCell;
use std::collections::{HashMap, HashSet, VecDeque};

struct MockGit {
    calls: RefCell<Vec<String>>,
    current_branch: String,
    tags: Vec<String>,
    tags_on_branch: Vec<String>,
    branches_matching: Vec<String>,
    remote_branches: Vec<String>,
    merge_base_result: String,
    merge_bases: HashMap<(String, String), String>,
    rev_list_count_result: u32,
    rev_list_counts: HashMap<(String, String), u32>,
    commit_messages: Vec<String>,
    fail_commit_messages_for: Vec<String>,
    create_branch_error: Option<String>,
    fail_nth_merge: Option<u32>,
    merge_call_count: RefCell<u32>,
    ancestors: HashSet<(String, String)>,
    existing_tags: HashSet<String>,
    existing_remote_tags: HashSet<String>,
    existing_local_branches: HashSet<String>,
    existing_remote_branches: HashSet<String>,
    pushed_branches: HashSet<String>,
    branch_shas: HashMap<String, String>,
    tag_commits: HashMap<String, String>,
    head_sha: String,
    linked_worktree: bool,
    /// Answers of `is_working_tree_clean`, in order; clean once they run out.
    working_tree_clean_seq: RefCell<VecDeque<bool>>,
    ff_merge_error: Option<String>,
    config: HashMap<String, String>,
    repo_root: String,
}

impl MockGit {
    fn new() -> Self {
        MockGit {
            calls: RefCell::new(Vec::new()),
            current_branch: "develop".to_string(),
            tags: Vec::new(),
            tags_on_branch: Vec::new(),
            branches_matching: Vec::new(),
            remote_branches: Vec::new(),
            merge_base_result: "abc123".to_string(),
            merge_bases: HashMap::new(),
            rev_list_count_result: 0,
            rev_list_counts: HashMap::new(),
            commit_messages: Vec::new(),
            fail_commit_messages_for: Vec::new(),
            create_branch_error: None,
            fail_nth_merge: None,
            merge_call_count: RefCell::new(0),
            ancestors: HashSet::new(),
            existing_tags: HashSet::new(),
            existing_remote_tags: HashSet::new(),
            existing_local_branches: HashSet::new(),
            existing_remote_branches: HashSet::new(),
            pushed_branches: HashSet::new(),
            branch_shas: HashMap::new(),
            tag_commits: HashMap::new(),
            head_sha: "abc123".to_string(),
            linked_worktree: false,
            working_tree_clean_seq: RefCell::new(VecDeque::new()),
            ff_merge_error: None,
            config: HashMap::new(),
            repo_root: "/repos/beans-gitflow".to_string(),
        }
    }

    fn log(&self, s: String) {
        self.calls.borrow_mut().push(s);
    }

    fn calls(&self) -> Vec<String> {
        self.calls.borrow().clone()
    }
}

impl Git for MockGit {
    fn current_branch(&mut self) -> Result<String, String> {
        self.log("current_branch".to_string());
        Ok(self.current_branch.clone())
    }
    fn fetch(&mut self) -> Result<(), String> {
        self.log("fetch".to_string());
        Ok(())
    }
    fn checkout(&mut self, b: &str) -> Result<(), String> {
        self.log(format!("checkout:{b}"));
        Ok(())
    }
    fn create_branch(&mut self, b: &str, f: &str) -> Result<(), String> {
        self.log(format!("create_branch:{b}:{f}"));
        match &self.create_branch_error {
            Some(e) => Err(e.clone()),
            None => Ok(()),
        }
    }
    fn create_branch_no_checkout(&mut self, b: &str, f: &str) -> Result<(), String> {
        self.log(format!("create_branch_no_checkout:{b}:{f}"));
        Ok(())
    }
    fn push(&mut self, b: &str) -> Result<(), String> {
        self.log(format!("push:{b}"));
        Ok(())
    }
    fn push_tag(&mut self, t: &str) -> Result<(), String> {
        self.log(format!("push_tag:{t}"));
        Ok(())
    }
    fn create_tag(&mut self, t: &str, m: &str) -> Result<(), String> {
        self.log(format!("create_tag:{t}:{m}"));
        Ok(())
    }
    fn create_tag_at(&mut self, t: &str, m: &str, s: &str) -> Result<(), String> {
        self.log(format!("create_tag_at:{t}:{m}:{s}"));
        Ok(())
    }
    fn merge(&mut self, b: &str, m: &str) -> Result<(), String> {
        self.log(format!("merge:{b}:{m}"));
        let mut count = self.merge_call_count.borrow_mut();
        *count += 1;
        if Some(*count) == self.fail_nth_merge {
            return Err(format!("CONFLICT: merge of {b} failed"));
        }
        Ok(())
    }
    fn pull(&mut self, b: &str) -> Result<(), String> {
        self.log(format!("pull:{b}"));
        Ok(())
    }
    fn ff_merge(&mut self, t: &str) -> Result<(), String> {
        self.log(format!("ff_merge:{t}"));
        match &self.ff_merge_error {
            Some(e) => Err(e.clone()),
            None => Ok(()),
        }
    }
    fn list_tags(&mut self) -> Result<Vec<String>, String> {
        self.log("list_tags".to_string());
        Ok(self.tags.clone())
    }
    fn list_branches_matching(&mut self, p: &str) -> Result<Vec<String>, String> {
        self.log(format!("list_branches_matching:{p}"));
        // Like git, the `prefix/*` pattern selects the branches under `prefix/`.
        let prefix = p.trim_end_matches('*');
        Ok(self.branches_matching.iter().filter(|b| b.starts_with(prefix)).cloned().collect())
    }
    fn is_working_tree_clean(&mut self) -> Result<bool, String> {
        self.log("is_working_tree_clean".to_string());
        Ok(self.working_tree_clean_seq.borrow_mut().pop_front().unwrap_or(true))
    }
    fn delete_branch_local(&mut self, b: &str) -> Result<(), String> {
        self.log(format!("delete_branch_local:{b}"));
        Ok(())
    }
    fn delete_branch_remote(&mut self, b: &str) -> Result<(), String> {
        self.log(format!("delete_branch_remote:{b}"));
        Ok(())
    }
    fn tags_on_branch(&mut self, b: &str) -> Result<Vec<String>, String> {
        self.log(format!("tags_on_branch:{b}"));
        Ok(self.tags_on_branch.clone())
    }
    fn list_remote_branches(&mut self) -> Result<Vec<String>, String> {
        self.log("list_remote_branches".to_string());
        Ok(self.remote_branches.clone())
    }
    fn merge_base(&mut self, a: &str, b: &str) -> Result<String, String> {
        self.log(format!("merge_base:{a}:{b}"));
        Ok(self.merge_bases.get(&(a.to_string(), b.to_string())).cloned().unwrap_or_else(|| self.merge_base_result.clone()))
    }
    fn rev_list_count(&mut self, f: &str, t: &str) -> Result<u32, String> {
        self.log(format!("rev_list_count:{f}:{t}"));
        Ok(*self.rev_list_counts.get(&(f.to_string(), t.to_string())).unwrap_or(&mut self.rev_list_count_result))
    }
    fn stash_push(&mut self) -> Result<(), String> {
        self.log("stash_push".to_string());
        Ok(())
    }
    fn stash_pop(&mut self) -> Result<(), String> {
        self.log("stash_pop".to_string());
        Ok(())
    }
    fn commit_messages(&mut self, f: &str, t: &str) -> Result<Vec<String>, String> {
        self.log(format!("commit_messages:{f}:{t}"));
        if self.fail_commit_messages_for.iter().any(|r| r == t) {
            return Err(format!("ref not found: {t}"));
        }
        Ok(self.commit_messages.clone())
    }
    fn stage_all(&mut self) -> Result<(), String> {
        self.log("stage_all".to_string());
        Ok(())
    }
    fn commit(&mut self, m: &str) -> Result<(), String> {
        self.log(format!("commit:{m}"));
        Ok(())
    }
    fn is_ancestor(&mut self, a: &str, d: &str) -> Result<bool, String> {
        self.log(format!("is_ancestor:{a}:{d}"));
        Ok(self.ancestors.contains(&(a.to_string(), d.to_string())))
    }
    fn tag_exists(&mut self, t: &str) -> Result<bool, String> {
        self.log(format!("tag_exists:{t}"));
        Ok(self.existing_tags.contains(t))
    }
    fn local_branch_exists(&mut self, b: &str) -> Result<bool, String> {
        self.log(format!("local_branch_exists:{b}"));
        Ok(self.existing_local_branches.contains(b))
    }
    fn remote_branch_exists(&mut self, b: &str) -> Result<bool, String> {
        self.log(format!("remote_branch_exists:{b}"));
        Ok(self.existing_remote_branches.contains(b))
    }
    fn remote_tag_exists(&mut self, t: &str) -> Result<bool, String> {
        self.log(format!("remote_tag_exists:{t}"));
        Ok(self.existing_remote_tags.contains(t))
    }
    fn is_pushed(&mut self, b: &str) -> Result<bool, String> {
        self.log(format!("is_pushed:{b}"));
        Ok(self.pushed_branches.contains(b))
    }
    fn is_mid_merge(&mut self) -> Result<bool, String> {
        self.log("is_mid_merge".to_string());
        Ok(false)
    }
    fn has_unmerged_paths(&mut self) -> Result<bool, String> {
        self.log("has_unmerged_paths".to_string());
        Ok(false)
    }
    fn git_dir(&mut self) -> Result<String, String> {
        self.log("git_dir".to_string());
        Ok(".git".to_string())
    }
    fn repo_root(&mut self) -> Result<String, String> {
        self.log("repo_root".to_string());
        Ok(self.repo_root.clone())
    }
    fn rev_parse(&mut self, r: &str) -> Result<String, String> {
        self.log(format!("rev_parse:{r}"));
        Ok(r.to_string())
    }
    fn branch_sha(&mut self, b: &str) -> Result<String, String> {
        self.log(format!("branch_sha:{b}"));
        Ok(self.branch_shas.get(b).cloned().unwrap_or_default())
    }
    fn tag_commit_sha(&mut self, t: &str) -> Result<String, String> {
        self.log(format!("tag_commit_sha:{t}"));
        Ok(self.tag_commits.get(t).cloned().unwrap_or_default())
    }
    fn head_sha(&mut self) -> Result<String, String> {
        self.log("head_sha".to_string());
        Ok(self.head_sha.clone())
    }
    fn remote_url(&mut self) -> Result<String, String> {
        self.log("remote_url".to_string());
        Ok("https://github.com/acme/repo.git".to_string())
    }
    fn unset_config(&mut self, k: &str, global: bool) -> Result<(), String> {
        let scope = if global { "global" } else { "local" };
        self.log(format!("unset_config:{scope}:{k}"));
        Ok(())
    }
    fn add_worktree(&mut self, path: &str, branch: &str) -> Result<(), String> {
        self.log(format!("add_worktree:{path}:{branch}"));
        Ok(())
    }
    fn is_linked_worktree(&mut self) -> Result<bool, String> {
        self.log("is_linked_worktree".to_string());
        Ok(self.linked_worktree)
    }
    fn detach_head(&mut self) -> Result<(), String> {
        self.log("detach_head".to_string());
        Ok(())
    }
    fn remove_current_worktree(&mut self) -> Result<(), String> {
        self.log("remove_current_worktree".to_string());
        Ok(())
    }
    fn get_config(&mut self, k: &str) -> Result<Option<String>, String> {
        self.log(format!("get_config:{k}"));
        Ok(self.config.get(k).cloned())
    }
    fn set_config(&mut self, k: &str, v: &str, global: bool) -> Result<(), String> {
        let scope = if global { "global" } else { "local" };
        self.log(format!("set_config:{scope}:{k}:{v}"));
        Ok(())
    }
    fn stash_push_with_message(&mut self, m: &str) -> Result<(), String> {
        self.log(format!("stash_push_with_message:{m}"));
        Ok(())
    }
    fn find_stash_by_message(&mut self, m: &str) -> Result<Option<String>, String> {
        self.log(format!("find_stash_by_message:{m}"));
        Ok(None)
    }
    fn stash_pop_ref(&mut self, r: &str) -> Result<(), String> {
        self.log(format!("stash_pop_ref:{r}"));
        Ok(())
    }
}

struct MockHosting {
    calls: RefCell<Vec<String>>,
    pr_url: String,
    merged_pr: Option<MergedPr>,
    merged_prs_to: HashMap<(String, String), LandedPr>,
}

impl MockHosting {
    fn new() -> Self {
        MockHosting {
            calls: RefCell::new(Vec::new()),
            pr_url: "https://github.com/org/repo/pull/1".to_string(),
            merged_pr: None,
            merged_prs_to: HashMap::new(),
        }
    }

    fn calls(&self) -> Vec<String> {
        self.calls.borrow().clone()
    }
}

impl HostingPlatform for MockHosting {
    fn create_or_get_pr(&mut self, head: &str, base: &str, title: &str, template: Option<&str>) -> Result<String, String> {
        let suffix = template.map(|t| format!(":template={t}")).unwrap_or_default();
        self.calls.borrow_mut().push(format!("create_or_get_pr:{head}:{base}:{title}{suffix}"));
        Ok(self.pr_url.clone())
    }
    fn merged_pr(&mut self, head: &str) -> Result<Option<MergedPr>, String> {
        self.calls.borrow_mut().push(format!("merged_pr:{head}"));
        Ok(self.merged_pr.clone())
    }
    fn merged_pr_to(&mut self, head: &str, base: &str) -> Result<Option<LandedPr>, String> {
        self.calls.borrow_mut().push(format!("merged_pr_to:{head}:{base}"));
        Ok(self.merged_prs_to.get(&(head.to_string(), base.to_string())).cloned())
    }
    fn open_url(&mut self, url: &str) -> Result<(), String> {
        self.calls.borrow_mut().push(format!("open_url:{url}"));
        Ok(())
    }
    fn check_auth(&mut self) -> Result<(), String> {
        self.calls.borrow_mut().push("check_auth".to_string());
        Ok(())
    }
}

/// Scripted answers: records every select as `select:{prompt}:[items]`; an
/// unscripted select is an error, so a test shows that a flow never asked.
struct MockPrompter {
    calls: RefCell<Vec<String>>,
    selections: RefCell<VecDeque<usize>>,
}

impl MockPrompter {
    fn new() -> Self {
        MockPrompter { calls: RefCell::new(Vec::new()), selections: RefCell::new(VecDeque::new()) }
    }

    fn scripted(selections: &[usize]) -> Self {
        let p = Self::new();
        p.selections.borrow_mut().extend(selections.iter().copied());
        p
    }

    fn calls(&self) -> Vec<String> {
        self.calls.borrow().clone()
    }
}

impl Prompter for MockPrompter {
    fn select(&self, prompt: &str, items: &[&str]) -> Result<usize, String> {
        self.calls.borrow_mut().push(format!("select:{prompt}:[{}]", items.join(", ")));
        self.selections.borrow_mut().pop_front().ok_or_else(|| format!("MockPrompter: unscripted select('{prompt}')"))
    }
    fn prompt_name(&self, prompt: &str) -> Result<String, String> {
        Err(format!("MockPrompter: unscripted prompt_name('{prompt}')"))
    }
    fn prompt_line(&self, prompt: &str) -> Result<String, String> {
        Err(format!("MockPrompter: unscripted prompt_line('{prompt}')"))
    }
}

/// Records every run as `run:{version}`; the `fail_nth_run`-th run fails.
struct MockVersionScript {
    calls: RefCell<Vec<String>>,
    fail_nth_run: Option<usize>,
}

impl MockVersionScript {
    fn new() -> Self {
        MockVersionScript { calls: RefCell::new(Vec::new()), fail_nth_run: None }
    }

    fn calls(&self) -> Vec<String> {
        self.calls.borrow().clone()
    }
}

impl VersionScript for MockVersionScript {
    fn run(&self, version: &str) -> Result<(), String> {
        self.calls.borrow_mut().push(format!("run:{version}"));
        if Some(self.calls.borrow().len()) == self.fail_nth_run {
            return Err("version script failed".to_string());
        }
        Ok(())
    }
    fn run_in(&self, dir: &str, version: &str) -> Result<(), String> {
        self.calls.borrow_mut().push(format!("run_in:{dir}:{version}"));
        Ok(())
    }
    fn display_name(&self) -> String {
        "scripts/set-version.sh".to_string()
    }
}

struct MockEditor {
    calls: RefCell<Vec<String>>,
    fail: bool,
}

impl MockEditor {
    fn new() -> Self {
        MockEditor { calls: RefCell::new(Vec::new()), fail: false }
    }

    fn calls(&self) -> Vec<String> {
        self.calls.borrow().clone()
    }
}

impl Editor for MockEditor {
    fn open(&self, path: &str) -> Result<(), String> {
        self.calls.borrow_mut().push(format!("open:{path}"));
        if self.fail {
            Err("editor failed".to_string())
        } else {
            Ok(())
        }
    }
}

struct Quiet;

impl Output for Quiet {
    fn line(&self, _text: &str) {}
    fn warning(&self, _text: &str) {}
}

// --- Release finish -----------------------------------------------------------

/// A "fresh start" release finish: nothing merged yet, the source branch
/// still exists.
fn fresh_release_mock(major: u32, minor: u32, rc_tags: &[&str]) -> MockGit {
    let mut git = MockGit::new();
    let source = format!("release/{major}.{minor}.0");
    git.existing_local_branches.insert(source.clone());
    git.existing_remote_branches.insert(source);
    git.tags_on_branch = rc_tags.iter().map(|t| t.to_string()).collect();
    git
}

fn bump(git: &mut MockGit, major: u32, minor: u32) -> Result<(), String> {
    bump_version(git, &mut MockHosting::new(), None, &RepoConfig::default(), &Quiet, major, minor)
}

#[test]
fn bump_version_increments_rc() {
    let mut git = MockGit::new();
    git.tags_on_branch = vec!["v1.1.0-rc.1".to_string()];
    bump(&mut git, 1, 1).unwrap();
    assert_eq!(git.calls(), vec![
        "tags_on_branch:release/1.1.0",
        "create_tag:v1.1.0-rc.2:chore: bump version to v1.1.0-rc.2",
        "push_tag:v1.1.0-rc.2",
    ]);
}

#[test]
fn bump_version_multiple_rcs() {
    let mut git = MockGit::new();
    git.tags_on_branch = vec!["v1.1.0-rc.1".to_string(), "v1.1.0-rc.2".to_string()];
    bump(&mut git, 1, 1).unwrap();
    assert_eq!(git.calls(), vec![
        "tags_on_branch:release/1.1.0",
        "create_tag:v1.1.0-rc.3:chore: bump version to v1.1.0-rc.3",
        "push_tag:v1.1.0-rc.3",
    ]);
}

#[test]
fn bump_version_ignores_mismatched_patch_tags() {
    let mut git = MockGit::new();
    git.tags_on_branch = vec!["v1.1.0-rc.1".to_string(), "v1.1.1".to_string()];
    bump(&mut git, 1, 1).unwrap();
    assert_eq!(git.calls(), vec![
        "tags_on_branch:release/1.1.0",
        "create_tag:v1.1.0-rc.2:chore: bump version to v1.1.0-rc.2",
        "push_tag:v1.1.0-rc.2",
    ]);
}

#[test]
fn bump_version_ignores_non_rc_pre_release_tags() {
    let mut git = MockGit::new();
    git.tags_on_branch = vec!["v1.1.0-rc.1".to_string(), "v1.1.0-beta.5".to_string()];
    bump(&mut git, 1, 1).unwrap();
    assert_eq!(git.calls(), vec![
        "tags_on_branch:release/1.1.0",
        "create_tag:v1.1.0-rc.2:chore: bump version to v1.1.0-rc.2",
        "push_tag:v1.1.0-rc.2",
    ]);
}

#[test]
fn sync_with_develop_merges_and_returns_to_current() {
    let mut git = MockGit::new();
    git.current_branch = "release/1.1.0".to_string();
    sync_with_develop(&mut git, &Quiet, 1, 1).unwrap();
    assert_eq!(git.calls(), vec![
        "current_branch",
        "checkout:develop",
        "ff_merge:origin/develop",
        "merge:release/1.1.0:chore: sync release 1.1.0 with develop",
        "push:develop",
        "checkout:release/1.1.0",
    ]);
}

#[test]
fn a_failed_sync_merge_stops_before_the_push() {
    let mut git = MockGit::new();
    git.current_branch = "release/1.1.0".to_string();
    git.fail_nth_merge = Some(1);
    let r = sync_with_develop(&mut git, &Quiet, 1, 1);
    assert_eq!(r, Err("CONFLICT: merge of release/1.1.0 failed".to_string()));
    assert_eq!(git.calls(), vec![
        "current_branch",
        "checkout:develop",
        "ff_merge:origin/develop",
        "merge:release/1.1.0:chore: sync release 1.1.0 with develop",
    ]);
}

fn release_finish_calls(main: &str) -> Vec<String> {
    [
        "tags_on_branch:release/1.1.0",
        "is_ancestor:release/1.1.0:MAIN",
        "rev_list_count:v1.1.0-rc.LATEST:release/1.1.0",
        "checkout:MAIN",
        "ff_merge:origin/MAIN",
        "merge:release/1.1.0:chore: merge release 1.1.0 into MAIN",
        "tag_exists:v1.1.0",
        "create_tag:v1.1.0:chore: release 1.1.0",
        "is_pushed:MAIN",
        "push:MAIN",
        "remote_tag_exists:v1.1.0",
        "push_tag:v1.1.0",
        "is_ancestor:release/1.1.0:develop",
        "checkout:develop",
        "ff_merge:origin/develop",
        "merge:release/1.1.0:chore: merge release 1.1.0 into develop",
        "is_pushed:develop",
        "push:develop",
        "current_branch",
        "local_branch_exists:release/1.1.0",
        "delete_branch_local:release/1.1.0",
        "remote_branch_exists:release/1.1.0",
        "delete_branch_remote:release/1.1.0",
    ]
    .iter()
    .map(|c| c.replace("MAIN", main))
    .collect()
}

#[test]
fn finish_release_creates_clean_tag_from_rc() {
    let mut git = fresh_release_mock(1, 1, &["v1.1.0-rc.1", "v1.1.0-rc.2"]);
    git.rev_list_count_result = 0;
    finish_release(&mut git, &Quiet, 1, 1, "main").unwrap();
    let expected: Vec<String> = release_finish_calls("main").iter().map(|c| c.replace("LATEST", "2")).collect();
    assert_eq!(git.calls(), expected);
}

#[test]
fn finish_release_targets_master_when_that_is_the_mainline() {
    let mut git = fresh_release_mock(1, 1, &["v1.1.0-rc.1"]);
    git.rev_list_count_result = 0;
    finish_release(&mut git, &Quiet, 1, 1, "master").unwrap();
    let expected: Vec<String> = release_finish_calls("master").iter().map(|c| c.replace("LATEST", "1")).collect();
    assert_eq!(git.calls(), expected);
}

#[test]
fn the_rc_gate_error_names_the_configured_mainline() {
    let mut git = fresh_release_mock(1, 1, &["v1.1.0-rc.1"]);
    git.rev_list_count_result = 3;
    let err = finish_release(&mut git, &Quiet, 1, 1, "master").unwrap_err();
    assert!(err.contains("merged to master"), "got: {err}");
}

#[test]
fn finish_release_single_rc() {
    let mut git = fresh_release_mock(2, 0, &["v2.0.0-rc.1"]);
    git.rev_list_count_result = 0;
    finish_release(&mut git, &Quiet, 2, 0, "main").unwrap();
    let calls = git.calls();
    assert!(calls.iter().any(|c| c == "rev_list_count:v2.0.0-rc.1:release/2.0.0"), "calls: {calls:?}");
    assert!(calls.iter().any(|c| c == "create_tag:v2.0.0:chore: release 2.0.0"), "calls: {calls:?}");
}

#[test]
fn finish_release_fails_when_head_past_latest_rc() {
    let mut git = fresh_release_mock(1, 1, &["v1.1.0-rc.1", "v1.1.0-rc.2"]);
    git.rev_list_count_result = 2;
    let result = finish_release(&mut git, &Quiet, 1, 1, "main");
    assert!(result.is_err());
    let err = result.unwrap_err();
    assert!(err.contains("v1.1.0-rc.2"), "got: {err}");
    assert!(err.contains("bflow bump"), "got: {err}");
    assert!(err.contains("2 commit"), "got: {err}");
    let calls = git.calls();
    assert!(!calls.iter().any(|c| c.starts_with("checkout:main")), "calls: {calls:?}");
    assert!(!calls.iter().any(|c| c.starts_with("create_tag:")), "calls: {calls:?}");
}

#[test]
fn finish_release_error_message_uses_singular_for_one_commit() {
    let mut git = fresh_release_mock(1, 1, &["v1.1.0-rc.1"]);
    git.rev_list_count_result = 1;
    let err = finish_release(&mut git, &Quiet, 1, 1, "main").unwrap_err();
    assert!(err.contains("1 commit past"), "got: {err}");
    assert!(!err.contains("1 commits"), "got: {err}");
}

#[test]
fn finish_release_resume_after_main_already_merged_and_tagged() {
    let mut git = fresh_release_mock(1, 1, &["v1.1.0-rc.1"]);
    git.rev_list_count_result = 0;
    git.ancestors.insert(("release/1.1.0".to_string(), "main".to_string()));
    git.existing_tags.insert("v1.1.0".to_string());
    git.existing_remote_tags.insert("v1.1.0".to_string());
    git.pushed_branches.insert("main".to_string());
    finish_release(&mut git, &Quiet, 1, 1, "main").unwrap();
    let calls = git.calls();
    assert!(!calls.iter().any(|c| c == "checkout:main"), "calls: {calls:?}");
    assert!(!calls.iter().any(|c| c.starts_with("create_tag:")));
    assert!(!calls.iter().any(|c| c == "push:main"));
    assert!(!calls.iter().any(|c| c == "push_tag:v1.1.0"));
    assert!(calls.iter().any(|c| c == "merge:release/1.1.0:chore: merge release 1.1.0 into develop"), "calls: {calls:?}");
    assert!(calls.iter().any(|c| c == "delete_branch_local:release/1.1.0"));
}

#[test]
fn finish_release_resume_skips_rc_gate_when_already_merged_to_main() {
    let mut git = fresh_release_mock(1, 1, &["v1.1.0-rc.1"]);
    git.rev_list_count_result = 99;
    git.ancestors.insert(("release/1.1.0".to_string(), "main".to_string()));
    let result = finish_release(&mut git, &Quiet, 1, 1, "main");
    assert!(result.is_ok(), "got: {result:?}");
}

#[test]
fn finish_release_fully_idempotent_no_op_on_second_run() {
    let mut git = MockGit::new();
    git.tags_on_branch = vec!["v1.1.0-rc.1".to_string()];
    git.ancestors.insert(("release/1.1.0".to_string(), "main".to_string()));
    git.ancestors.insert(("release/1.1.0".to_string(), "develop".to_string()));
    git.existing_tags.insert("v1.1.0".to_string());
    git.existing_remote_tags.insert("v1.1.0".to_string());
    git.pushed_branches.insert("main".to_string());
    git.pushed_branches.insert("develop".to_string());
    finish_release(&mut git, &Quiet, 1, 1, "main").unwrap();
    let calls = git.calls();
    assert!(!calls.iter().any(|c| c.starts_with("merge:")), "calls: {calls:?}");
    assert!(!calls.iter().any(|c| c.starts_with("create_tag:")));
    assert!(!calls.iter().any(|c| c.starts_with("push:")));
    assert!(!calls.iter().any(|c| c.starts_with("delete_branch_")));
}

#[test]
fn finish_release_main_merge_conflict_names_source_branch_to_switch_back() {
    let mut git = fresh_release_mock(1, 1, &["v1.1.0-rc.1"]);
    git.fail_nth_merge = Some(1);
    let err = finish_release(&mut git, &Quiet, 1, 1, "main").unwrap_err();
    assert!(err.contains("git switch release/1.1.0"), "got: {err}");
    assert!(err.contains("bflow finish"), "got: {err}");
}

#[test]
fn finish_release_develop_merge_conflict_names_source_branch_to_switch_back() {
    let mut git = fresh_release_mock(1, 1, &["v1.1.0-rc.1"]);
    git.fail_nth_merge = Some(2);
    let err = finish_release(&mut git, &Quiet, 1, 1, "main").unwrap_err();
    assert!(err.contains("git switch release/1.1.0"), "got: {err}");
}

// --- Hotfix finish ------------------------------------------------------------

/// A "fresh start" hotfix finish: nothing merged, no tags, the source branch
/// exists locally and remotely.
fn fresh_hotfix_mock(major: u32, minor: u32, patch: u32) -> MockGit {
    let mut git = MockGit::new();
    let source = format!("hotfix/{major}.{minor}.{patch}");
    git.existing_local_branches.insert(source.clone());
    git.existing_remote_branches.insert(source);
    git
}

fn hotfix(git: &mut MockGit, hosting: &mut MockHosting, cfg: &RepoConfig, v: (u32, u32, u32), main: &str) -> Result<(), String> {
    finish_hotfix(git, hosting, cfg, &Quiet, v.0, v.1, v.2, main, None)
}

fn free_hotfix_head(v: &str, main: &str) -> Vec<String> {
    [
        "is_ancestor:hotfix/V:MAIN",
        "checkout:MAIN",
        "ff_merge:origin/MAIN",
        "merge:hotfix/V:chore: merge hotfix V into MAIN",
        "tag_exists:vV",
        "create_tag:vV:chore: hotfix V",
        "is_pushed:MAIN",
        "push:MAIN",
        "remote_tag_exists:vV",
        "push_tag:vV",
        "is_ancestor:hotfix/V:develop",
        "checkout:develop",
        "ff_merge:origin/develop",
        "merge:hotfix/V:chore: merge hotfix V into develop",
        "is_pushed:develop",
        "push:develop",
        "list_branches_matching:release/*",
    ]
    .iter()
    .map(|c| c.replace("MAIN", main).replace('V', v))
    .collect()
}

fn hotfix_cleanup(v: &str) -> Vec<String> {
    [
        "current_branch",
        "local_branch_exists:hotfix/V",
        "delete_branch_local:hotfix/V",
        "remote_branch_exists:hotfix/V",
        "delete_branch_remote:hotfix/V",
    ]
    .iter()
    .map(|c| c.replace('V', v))
    .collect()
}

#[test]
fn finish_hotfix_full_sequence() {
    let mut git = fresh_hotfix_mock(1, 0, 1);
    let mut hosting = MockHosting::new();
    hotfix(&mut git, &mut hosting, &RepoConfig::default(), (1, 0, 1), "main").unwrap();
    let mut expected = free_hotfix_head("1.0.1", "main");
    expected.extend(hotfix_cleanup("1.0.1"));
    assert_eq!(git.calls(), expected);
    assert!(hosting.calls().is_empty(), "free mode must make zero hosting calls; calls: {:?}", hosting.calls());
}

#[test]
fn finish_hotfix_targets_master_when_that_is_the_mainline() {
    let mut git = fresh_hotfix_mock(2, 3, 4);
    let mut hosting = MockHosting::new();
    hotfix(&mut git, &mut hosting, &RepoConfig::default(), (2, 3, 4), "master").unwrap();
    let mut expected = free_hotfix_head("2.3.4", "master");
    expected.extend(hotfix_cleanup("2.3.4"));
    assert_eq!(git.calls(), expected);
}

#[test]
fn finish_hotfix_propagates_to_open_release_branch() {
    let mut git = fresh_hotfix_mock(1, 0, 1);
    git.branches_matching = vec!["release/1.2.0".to_string()];
    let mut hosting = MockHosting::new();
    hotfix(&mut git, &mut hosting, &RepoConfig::default(), (1, 0, 1), "main").unwrap();
    let mut expected = free_hotfix_head("1.0.1", "main");
    for c in [
        "tag_exists:v1.2.0",
        "is_ancestor:hotfix/1.0.1:release/1.2.0",
        "checkout:release/1.2.0",
        "ff_merge:origin/release/1.2.0",
        "merge:hotfix/1.0.1:chore: merge hotfix 1.0.1 into release/1.2.0",
        "is_pushed:release/1.2.0",
        "push:release/1.2.0",
    ] {
        expected.push(c.to_string());
    }
    expected.extend(hotfix_cleanup("1.0.1"));
    assert_eq!(git.calls(), expected);
}

#[test]
fn finish_hotfix_excludes_shipped_release_branch() {
    let mut git = fresh_hotfix_mock(1, 0, 1);
    git.branches_matching = vec!["release/1.2.0".to_string(), "release/1.3.0".to_string()];
    git.existing_tags.insert("v1.2.0".to_string());
    let mut hosting = MockHosting::new();
    hotfix(&mut git, &mut hosting, &RepoConfig::default(), (1, 0, 1), "main").unwrap();
    let calls = git.calls();
    assert!(calls.contains(&"tag_exists:v1.2.0".to_string()));
    assert!(calls.contains(&"tag_exists:v1.3.0".to_string()));
    assert!(!calls.iter().any(|c| c.contains("release/1.2.0")), "calls: {calls:?}");
    assert!(calls.contains(&"merge:hotfix/1.0.1:chore: merge hotfix 1.0.1 into release/1.3.0".to_string()), "calls: {calls:?}");
    assert!(calls.contains(&"push:release/1.3.0".to_string()));
}

#[test]
fn finish_hotfix_propagates_to_multiple_release_branches_in_sorted_order() {
    let mut git = fresh_hotfix_mock(1, 0, 1);
    git.branches_matching = vec!["release/2.0.0".to_string(), "release/1.5.0".to_string()];
    let mut hosting = MockHosting::new();
    hotfix(&mut git, &mut hosting, &RepoConfig::default(), (1, 0, 1), "main").unwrap();
    let calls = git.calls();
    let expected_tail = vec![
        "list_branches_matching:release/*",
        "tag_exists:v2.0.0",
        "tag_exists:v1.5.0",
        "is_ancestor:hotfix/1.0.1:release/1.5.0",
        "checkout:release/1.5.0",
        "ff_merge:origin/release/1.5.0",
        "merge:hotfix/1.0.1:chore: merge hotfix 1.0.1 into release/1.5.0",
        "is_pushed:release/1.5.0",
        "push:release/1.5.0",
        "is_ancestor:hotfix/1.0.1:release/2.0.0",
        "checkout:release/2.0.0",
        "ff_merge:origin/release/2.0.0",
        "merge:hotfix/1.0.1:chore: merge hotfix 1.0.1 into release/2.0.0",
        "is_pushed:release/2.0.0",
        "push:release/2.0.0",
        "current_branch",
        "local_branch_exists:hotfix/1.0.1",
        "delete_branch_local:hotfix/1.0.1",
        "remote_branch_exists:hotfix/1.0.1",
        "delete_branch_remote:hotfix/1.0.1",
    ];
    let tail_start = calls.len() - expected_tail.len();
    assert_eq!(&calls[tail_start..], &expected_tail[..]);
}

#[test]
fn finish_hotfix_excludes_release_fix_branches() {
    let mut git = fresh_hotfix_mock(1, 0, 1);
    git.branches_matching = vec!["release/1.2.0".to_string(), "release-fix/1.2.0/foo".to_string()];
    let mut hosting = MockHosting::new();
    hotfix(&mut git, &mut hosting, &RepoConfig::default(), (1, 0, 1), "main").unwrap();
    let calls = git.calls();
    assert!(calls.iter().any(|c| c == "list_branches_matching:release/*"), "got: {calls:?}");
    assert!(calls.iter().any(|c| c == "checkout:release/1.2.0"), "got: {calls:?}");
    assert!(!calls.iter().any(|c| c.contains("release-fix/")), "got: {calls:?}");
}

#[test]
fn finish_hotfix_aborts_on_release_merge_conflict_without_deleting_hotfix() {
    let mut git = fresh_hotfix_mock(1, 0, 1);
    git.branches_matching = vec!["release/1.2.0".to_string()];
    git.fail_nth_merge = Some(3);
    let mut hosting = MockHosting::new();
    let result = hotfix(&mut git, &mut hosting, &RepoConfig::default(), (1, 0, 1), "main");
    assert!(result.is_err());
    let err = result.unwrap_err();
    assert!(err.contains("release/1.2.0"), "got: {err}");
    assert!(err.contains("bflow finish"), "got: {err}");
    let calls = git.calls();
    assert!(calls.iter().any(|c| c == "create_tag:v1.0.1:chore: hotfix 1.0.1"));
    assert!(calls.iter().any(|c| c == "push_tag:v1.0.1"));
    assert!(calls.iter().any(|c| c == "push:develop"));
    assert!(!calls.iter().any(|c| c.starts_with("delete_branch_local:hotfix/")), "calls: {calls:?}");
    assert!(!calls.iter().any(|c| c.starts_with("delete_branch_remote:hotfix/")), "calls: {calls:?}");
}

#[test]
fn finish_hotfix_resume_skips_already_merged_main_and_develop() {
    let mut git = fresh_hotfix_mock(1, 0, 1);
    git.branches_matching = vec!["release/1.2.0".to_string()];
    git.ancestors.insert(("hotfix/1.0.1".to_string(), "main".to_string()));
    git.ancestors.insert(("hotfix/1.0.1".to_string(), "develop".to_string()));
    git.existing_tags.insert("v1.0.1".to_string());
    git.existing_remote_tags.insert("v1.0.1".to_string());
    git.pushed_branches.insert("main".to_string());
    git.pushed_branches.insert("develop".to_string());
    let mut hosting = MockHosting::new();
    hotfix(&mut git, &mut hosting, &RepoConfig::default(), (1, 0, 1), "main").unwrap();
    let calls = git.calls();
    assert!(!calls.iter().any(|c| c == "checkout:main"), "calls: {calls:?}");
    assert!(!calls.iter().any(|c| c == "checkout:develop"), "calls: {calls:?}");
    assert!(!calls.iter().any(|c| c.starts_with("merge:hotfix/1.0.1:") && c.contains("into main")));
    assert!(!calls.iter().any(|c| c.starts_with("merge:hotfix/1.0.1:") && c.contains("into develop")));
    assert!(!calls.iter().any(|c| c.starts_with("create_tag:")));
    assert!(!calls.iter().any(|c| c == "push:main"));
    assert!(!calls.iter().any(|c| c == "push_tag:v1.0.1"));
    assert!(calls.iter().any(|c| c == "merge:hotfix/1.0.1:chore: merge hotfix 1.0.1 into release/1.2.0"), "calls: {calls:?}");
    assert!(calls.iter().any(|c| c == "delete_branch_local:hotfix/1.0.1"));
    assert!(calls.iter().any(|c| c == "delete_branch_remote:hotfix/1.0.1"));
}

#[test]
fn finish_hotfix_resume_skips_already_propagated_release() {
    let mut git = MockGit::new();
    git.branches_matching = vec!["release/1.2.0".to_string()];
    git.ancestors.insert(("hotfix/1.0.1".to_string(), "main".to_string()));
    git.ancestors.insert(("hotfix/1.0.1".to_string(), "develop".to_string()));
    git.ancestors.insert(("hotfix/1.0.1".to_string(), "release/1.2.0".to_string()));
    git.existing_tags.insert("v1.0.1".to_string());
    git.existing_remote_tags.insert("v1.0.1".to_string());
    git.pushed_branches.insert("main".to_string());
    git.pushed_branches.insert("develop".to_string());
    git.pushed_branches.insert("release/1.2.0".to_string());
    git.existing_local_branches.insert("hotfix/1.0.1".to_string());
    git.existing_remote_branches.insert("hotfix/1.0.1".to_string());
    let mut hosting = MockHosting::new();
    hotfix(&mut git, &mut hosting, &RepoConfig::default(), (1, 0, 1), "main").unwrap();
    let calls = git.calls();
    assert!(!calls.iter().any(|c| c.starts_with("merge:")), "calls: {calls:?}");
    assert!(!calls.iter().any(|c| c.starts_with("push:")), "calls: {calls:?}");
    assert!(!calls.iter().any(|c| c.starts_with("create_tag:")));
    assert!(calls.iter().any(|c| c == "delete_branch_local:hotfix/1.0.1"));
    assert!(calls.iter().any(|c| c == "delete_branch_remote:hotfix/1.0.1"));
}

/// A hotfix whose main and develop legs are done and pushed.
fn landed_hotfix_mock() -> MockGit {
    let mut git = MockGit::new();
    git.ancestors.insert(("hotfix/1.0.1".to_string(), "main".to_string()));
    git.ancestors.insert(("hotfix/1.0.1".to_string(), "develop".to_string()));
    git.existing_tags.insert("v1.0.1".to_string());
    git.existing_remote_tags.insert("v1.0.1".to_string());
    git.pushed_branches.insert("main".to_string());
    git.pushed_branches.insert("develop".to_string());
    git
}

#[test]
fn finish_hotfix_switches_off_source_before_deleting_when_currently_on_it() {
    let mut git = landed_hotfix_mock();
    git.current_branch = "hotfix/1.0.1".to_string();
    git.existing_local_branches.insert("hotfix/1.0.1".to_string());
    git.existing_remote_branches.insert("hotfix/1.0.1".to_string());
    let mut hosting = MockHosting::new();
    hotfix(&mut git, &mut hosting, &RepoConfig::default(), (1, 0, 1), "main").unwrap();
    let calls = git.calls();
    let checkout_main_idx = calls
        .iter()
        .position(|c| c == "checkout:main")
        .unwrap_or_else(|| panic!("expected a checkout:main before delete; calls: {calls:?}"));
    let delete_idx = calls.iter().position(|c| c == "delete_branch_local:hotfix/1.0.1").expect("expected delete_branch_local");
    assert!(checkout_main_idx < delete_idx, "calls: {calls:?}");
}

#[test]
fn finish_hotfix_skips_cleanup_checkout_when_already_off_source() {
    let mut git = fresh_hotfix_mock(1, 0, 1);
    git.current_branch = "develop".to_string();
    let mut hosting = MockHosting::new();
    hotfix(&mut git, &mut hosting, &RepoConfig::default(), (1, 0, 1), "main").unwrap();
    let calls = git.calls();
    let checkouts: Vec<&String> = calls.iter().filter(|c| c.starts_with("checkout:")).collect();
    assert_eq!(checkouts, vec![&"checkout:main".to_string(), &"checkout:develop".to_string()], "calls: {calls:?}");
}

#[test]
fn finish_hotfix_resume_when_branch_already_deleted_is_idempotent() {
    let mut git = landed_hotfix_mock();
    let mut hosting = MockHosting::new();
    hotfix(&mut git, &mut hosting, &RepoConfig::default(), (1, 0, 1), "main").unwrap();
    let calls = git.calls();
    assert!(!calls.iter().any(|c| c.starts_with("delete_branch_")), "calls: {calls:?}");
}

#[test]
fn finish_hotfix_keeps_branch_when_configured() {
    let mut git = landed_hotfix_mock();
    git.current_branch = "hotfix/1.0.1".to_string();
    git.existing_local_branches.insert("hotfix/1.0.1".to_string());
    git.existing_remote_branches.insert("hotfix/1.0.1".to_string());
    let mut hosting = MockHosting::new();
    let cfg = RepoConfig { mode: Mode::Free, keep_release_branches: true, ..RepoConfig::default() };
    hotfix(&mut git, &mut hosting, &cfg, (1, 0, 1), "main").unwrap();
    let calls = git.calls();
    assert!(!calls.iter().any(|c| c.starts_with("delete_branch_")), "calls: {calls:?}");
    assert!(!calls.iter().any(|c| c == "checkout:main"), "calls: {calls:?}");
}

#[test]
fn finish_hotfix_main_merge_conflict_names_source_branch_to_switch_back() {
    let mut git = fresh_hotfix_mock(1, 0, 1);
    git.fail_nth_merge = Some(1);
    let mut hosting = MockHosting::new();
    let err = hotfix(&mut git, &mut hosting, &RepoConfig::default(), (1, 0, 1), "main").unwrap_err();
    assert!(err.contains("git add . && git commit --no-edit"), "got: {err}");
    assert!(err.contains("git switch hotfix/1.0.1"), "got: {err}");
    assert!(err.contains("bflow finish"), "got: {err}");
}

#[test]
fn finish_hotfix_develop_merge_conflict_names_source_branch_to_switch_back() {
    let mut git = fresh_hotfix_mock(1, 0, 1);
    git.fail_nth_merge = Some(2);
    let mut hosting = MockHosting::new();
    let err = hotfix(&mut git, &mut hosting, &RepoConfig::default(), (1, 0, 1), "main").unwrap_err();
    assert!(err.contains("git switch hotfix/1.0.1"), "got: {err}");
}

// --- Protected hotfix: sequential landing PRs ---------------------------------

fn protected_cfg(keep: bool) -> RepoConfig {
    RepoConfig { mode: Mode::Protected, keep_release_branches: keep, ..RepoConfig::default() }
}

fn landed(head_sha: &str, merge_commit_sha: &str) -> LandedPr {
    LandedPr {
        url: "https://github.com/org/repo/pull/1".to_string(),
        head_sha: head_sha.to_string(),
        merge_commit_sha: merge_commit_sha.to_string(),
    }
}

fn pair(a: &str, b: &str) -> (String, String) {
    (a.to_string(), b.to_string())
}

#[test]
fn protected_hotfix_opens_main_pr_and_stops() {
    let mut git = MockGit::new();
    git.existing_remote_branches.insert("hotfix/1.1.1".to_string());
    git.pushed_branches.insert("hotfix/1.1.1".to_string());
    let mut hosting = MockHosting::new();
    hotfix(&mut git, &mut hosting, &protected_cfg(false), (1, 1, 1), "main").unwrap();
    assert_eq!(git.calls(), vec![
        "list_branches_matching:release/*",
        "tag_exists:v1.1.1",
        "remote_branch_exists:hotfix/1.1.1",
        "is_pushed:hotfix/1.1.1",
    ]);
    assert_eq!(hosting.calls(), vec![
        "merged_pr_to:hotfix/1.1.1:main",
        "create_or_get_pr:hotfix/1.1.1:main:chore: merge hotfix 1.1.1 into main",
    ]);
}

#[test]
fn protected_hotfix_tags_merge_commit_then_opens_develop_pr() {
    let mut git = MockGit::new();
    git.branch_shas.insert("hotfix/1.1.1".to_string(), "hfsha".to_string());
    git.existing_remote_branches.insert("hotfix/1.1.1".to_string());
    git.pushed_branches.insert("hotfix/1.1.1".to_string());
    git.ancestors.insert(pair("mc1", "origin/main"));
    let mut hosting = MockHosting::new();
    hosting.merged_prs_to.insert(pair("hotfix/1.1.1", "main"), landed("hfsha", "mc1"));
    hotfix(&mut git, &mut hosting, &protected_cfg(false), (1, 1, 1), "main").unwrap();
    assert_eq!(git.calls(), vec![
        "list_branches_matching:release/*",
        "is_ancestor:mc1:origin/main",
        "tag_exists:v1.1.1",
        "tag_exists:v1.1.1",
        "create_tag_at:v1.1.1:chore: hotfix 1.1.1:mc1",
        "remote_tag_exists:v1.1.1",
        "push_tag:v1.1.1",
        "branch_sha:hotfix/1.1.1",
        "remote_branch_exists:hotfix/1.1.1",
        "is_pushed:hotfix/1.1.1",
    ]);
    assert_eq!(hosting.calls(), vec![
        "merged_pr_to:hotfix/1.1.1:main",
        "merged_pr_to:hotfix/1.1.1:develop",
        "create_or_get_pr:hotfix/1.1.1:develop:chore: merge hotfix 1.1.1 into develop",
    ]);
    let calls = git.calls();
    assert!(!calls.iter().any(|c| c.starts_with("rev_list_count")), "calls: {calls:?}");
    assert!(!calls.iter().any(|c| c.starts_with("tags_on_branch")), "calls: {calls:?}");
}

/// A protected hotfix whose main leg landed as `mc1` (tagged) and develop leg
/// as `mc2`, with two open release branches.
fn two_releases_mock() -> MockGit {
    let mut git = MockGit::new();
    git.branch_shas.insert("hotfix/1.1.1".to_string(), "hfsha".to_string());
    git.branches_matching = vec!["release/1.3.0".to_string(), "release/1.2.0".to_string()];
    git.existing_remote_branches.insert("hotfix/1.1.1".to_string());
    git.pushed_branches.insert("hotfix/1.1.1".to_string());
    git.existing_tags.insert("v1.1.1".to_string());
    git.tag_commits.insert("v1.1.1".to_string(), "mc1".to_string());
    git.existing_remote_tags.insert("v1.1.1".to_string());
    git.ancestors.insert(pair("mc1", "origin/main"));
    git.ancestors.insert(pair("mc2", "origin/develop"));
    git
}

#[test]
fn protected_hotfix_opens_one_release_pr_per_run() {
    let mut git = two_releases_mock();
    let mut hosting = MockHosting::new();
    hosting.merged_prs_to.insert(pair("hotfix/1.1.1", "main"), landed("hfsha", "mc1"));
    hosting.merged_prs_to.insert(pair("hotfix/1.1.1", "develop"), landed("hfsha", "mc2"));
    hotfix(&mut git, &mut hosting, &protected_cfg(false), (1, 1, 1), "main").unwrap();
    assert_eq!(git.calls(), vec![
        "list_branches_matching:release/*",
        "tag_exists:v1.3.0",
        "tag_exists:v1.2.0",
        "is_ancestor:mc1:origin/main",
        "tag_exists:v1.1.1",
        "tag_commit_sha:v1.1.1",
        "is_ancestor:mc1:origin/main",
        "remote_tag_exists:v1.1.1",
        "branch_sha:hotfix/1.1.1",
        "is_ancestor:mc2:origin/develop",
        "remote_branch_exists:hotfix/1.1.1",
        "is_pushed:hotfix/1.1.1",
    ]);
    assert_eq!(hosting.calls(), vec![
        "merged_pr_to:hotfix/1.1.1:main",
        "merged_pr_to:hotfix/1.1.1:develop",
        "merged_pr_to:hotfix/1.1.1:release/1.2.0",
        "create_or_get_pr:hotfix/1.1.1:release/1.2.0:chore: merge hotfix 1.1.1 into release/1.2.0",
    ]);
}

#[test]
fn protected_hotfix_next_run_opens_pr_for_the_remaining_release() {
    let mut git = two_releases_mock();
    git.ancestors.insert(pair("mc3", "origin/release/1.2.0"));
    let mut hosting = MockHosting::new();
    hosting.merged_prs_to.insert(pair("hotfix/1.1.1", "main"), landed("hfsha", "mc1"));
    hosting.merged_prs_to.insert(pair("hotfix/1.1.1", "develop"), landed("hfsha", "mc2"));
    hosting.merged_prs_to.insert(pair("hotfix/1.1.1", "release/1.2.0"), landed("hfsha", "mc3"));
    hotfix(&mut git, &mut hosting, &protected_cfg(false), (1, 1, 1), "main").unwrap();
    assert_eq!(git.calls(), vec![
        "list_branches_matching:release/*",
        "tag_exists:v1.3.0",
        "tag_exists:v1.2.0",
        "is_ancestor:mc1:origin/main",
        "tag_exists:v1.1.1",
        "tag_commit_sha:v1.1.1",
        "is_ancestor:mc1:origin/main",
        "remote_tag_exists:v1.1.1",
        "branch_sha:hotfix/1.1.1",
        "is_ancestor:mc2:origin/develop",
        "is_ancestor:mc3:origin/release/1.2.0",
        "remote_branch_exists:hotfix/1.1.1",
        "is_pushed:hotfix/1.1.1",
    ]);
    assert_eq!(hosting.calls(), vec![
        "merged_pr_to:hotfix/1.1.1:main",
        "merged_pr_to:hotfix/1.1.1:develop",
        "merged_pr_to:hotfix/1.1.1:release/1.2.0",
        "merged_pr_to:hotfix/1.1.1:release/1.3.0",
        "create_or_get_pr:hotfix/1.1.1:release/1.3.0:chore: merge hotfix 1.1.1 into release/1.3.0",
    ]);
}

#[test]
fn protected_hotfix_completes_after_all_landed() {
    let mut git = MockGit::new();
    git.current_branch = "hotfix/1.1.1".to_string();
    git.branch_shas.insert("hotfix/1.1.1".to_string(), "hfsha".to_string());
    git.existing_tags.insert("v1.1.1".to_string());
    git.tag_commits.insert("v1.1.1".to_string(), "mc1".to_string());
    git.existing_remote_tags.insert("v1.1.1".to_string());
    git.existing_local_branches.insert("hotfix/1.1.1".to_string());
    git.existing_remote_branches.insert("hotfix/1.1.1".to_string());
    git.branches_matching = vec!["release/1.2.0".to_string()];
    git.ancestors.insert(pair("mc1", "origin/main"));
    git.ancestors.insert(pair("mc2", "origin/develop"));
    git.ancestors.insert(pair("mc3", "origin/release/1.2.0"));
    let mut hosting = MockHosting::new();
    hosting.merged_prs_to.insert(pair("hotfix/1.1.1", "main"), landed("hfsha", "mc1"));
    hosting.merged_prs_to.insert(pair("hotfix/1.1.1", "develop"), landed("hfsha", "mc2"));
    hosting.merged_prs_to.insert(pair("hotfix/1.1.1", "release/1.2.0"), landed("hfsha", "mc3"));
    hotfix(&mut git, &mut hosting, &protected_cfg(false), (1, 1, 1), "main").unwrap();
    assert_eq!(git.calls(), vec![
        "list_branches_matching:release/*",
        "tag_exists:v1.2.0",
        "is_ancestor:mc1:origin/main",
        "tag_exists:v1.1.1",
        "tag_commit_sha:v1.1.1",
        "is_ancestor:mc1:origin/main",
        "remote_tag_exists:v1.1.1",
        "branch_sha:hotfix/1.1.1",
        "is_ancestor:mc2:origin/develop",
        "is_ancestor:mc3:origin/release/1.2.0",
        "branch_sha:hotfix/1.1.1",
        "current_branch",
        "checkout:main",
        "local_branch_exists:hotfix/1.1.1",
        "delete_branch_local:hotfix/1.1.1",
        "remote_branch_exists:hotfix/1.1.1",
        "delete_branch_remote:hotfix/1.1.1",
    ]);
    assert_eq!(hosting.calls(), vec![
        "merged_pr_to:hotfix/1.1.1:main",
        "merged_pr_to:hotfix/1.1.1:develop",
        "merged_pr_to:hotfix/1.1.1:release/1.2.0",
    ]);
}

#[test]
fn protected_hotfix_keeps_branch_when_configured() {
    let mut git = MockGit::new();
    git.current_branch = "hotfix/1.1.1".to_string();
    git.branch_shas.insert("hotfix/1.1.1".to_string(), "hfsha".to_string());
    git.existing_tags.insert("v1.1.1".to_string());
    git.tag_commits.insert("v1.1.1".to_string(), "mc1".to_string());
    git.existing_remote_tags.insert("v1.1.1".to_string());
    git.ancestors.insert(pair("mc1", "origin/main"));
    git.ancestors.insert(pair("mc2", "origin/develop"));
    let mut hosting = MockHosting::new();
    hosting.merged_prs_to.insert(pair("hotfix/1.1.1", "main"), landed("hfsha", "mc1"));
    hosting.merged_prs_to.insert(pair("hotfix/1.1.1", "develop"), landed("hfsha", "mc2"));
    hotfix(&mut git, &mut hosting, &protected_cfg(true), (1, 1, 1), "main").unwrap();
    let calls = git.calls();
    assert!(!calls.iter().any(|c| c == "checkout:main"), "calls: {calls:?}");
    assert!(!calls.iter().any(|c| c.starts_with("delete_branch_")), "calls: {calls:?}");
}

#[test]
fn protected_hotfix_advances_to_the_release_leg_when_the_branch_moved() {
    let mut git = MockGit::new();
    git.existing_tags.insert("v1.3.1".to_string());
    git.tag_commits.insert("v1.3.1".to_string(), "old-tip-sha".to_string());
    git.ancestors.insert(pair("old-tip-sha", "origin/main"));
    git.branch_shas.insert("hotfix/1.3.1".to_string(), "moved-tip-sha".to_string());
    git.branches_matching = vec!["release/1.4.0".to_string()];
    git.existing_remote_branches.insert("hotfix/1.3.1".to_string());
    git.pushed_branches.insert("hotfix/1.3.1".to_string());
    git.ancestors.insert(pair("mc2", "origin/develop"));
    let mut hosting = MockHosting::new();
    hosting.merged_prs_to.insert(pair("hotfix/1.3.1", "develop"), landed("old-develop-head", "mc2"));
    hotfix(&mut git, &mut hosting, &protected_cfg(false), (1, 3, 1), "main").unwrap();
    let hosting_calls = hosting.calls();
    assert_eq!(hosting_calls, vec![
        "merged_pr_to:hotfix/1.3.1:main",
        "merged_pr_to:hotfix/1.3.1:develop",
        "merged_pr_to:hotfix/1.3.1:release/1.4.0",
        "create_or_get_pr:hotfix/1.3.1:release/1.4.0:chore: merge hotfix 1.3.1 into release/1.4.0",
    ]);
    assert_eq!(hosting_calls.iter().filter(|c| c.starts_with("create_or_get_pr")).count(), 1);
    assert!(!hosting_calls.iter().any(|c| c.starts_with("create_or_get_pr") && c.contains(":main:")));
}

#[test]
fn protected_hotfix_keeps_the_branch_when_its_tip_landed_nowhere() {
    let mut git = MockGit::new();
    git.existing_tags.insert("v1.3.1".to_string());
    git.tag_commits.insert("v1.3.1".to_string(), "old-tip-sha".to_string());
    git.ancestors.insert(pair("old-tip-sha", "origin/main"));
    git.branch_shas.insert("hotfix/1.3.1".to_string(), "unrelated-tip-sha".to_string());
    git.existing_local_branches.insert("hotfix/1.3.1".to_string());
    git.existing_remote_branches.insert("hotfix/1.3.1".to_string());
    git.ancestors.insert(pair("mc2", "origin/develop"));
    let mut hosting = MockHosting::new();
    hosting.merged_prs_to.insert(pair("hotfix/1.3.1", "develop"), landed("old-develop-head", "mc2"));
    let result = hotfix(&mut git, &mut hosting, &protected_cfg(false), (1, 3, 1), "main");
    assert!(result.is_ok(), "got: {result:?}");
    let calls = git.calls();
    assert!(!calls.iter().any(|c| c.starts_with("delete_branch_local")), "calls: {calls:?}");
    assert!(!calls.iter().any(|c| c.starts_with("delete_branch_remote")), "calls: {calls:?}");
    assert!(!calls.iter().any(|c| c == "checkout:main"), "calls: {calls:?}");
}

// --- Work branches and fix branches -------------------------------------------

fn finish_work(
    git: &mut MockGit,
    hosting: &mut MockHosting,
    prompter: &MockPrompter,
    branch_type: &BranchType,
    breaking: Option<bool>,
    base: Option<String>,
    template: Option<&str>,
) -> Result<Option<String>, String> {
    finish_work_branch(git, hosting, prompter, &Quiet, branch_type, breaking, base, template)
}

fn on_branch(branch: &str) -> MockGit {
    let mut git = MockGit::new();
    git.current_branch = branch.to_string();
    git
}

#[test]
fn finish_work_branch_feature_non_breaking() {
    let mut git = on_branch("feature/login");
    let mut hosting = MockHosting::new();
    let branch_type = BranchType::Feature { name: "login".to_string() };
    finish_work(&mut git, &mut hosting, &MockPrompter::new(), &branch_type, Some(false), None, None).unwrap();
    let calls = hosting.calls();
    assert!(calls[1].starts_with("create_or_get_pr:feature/login:"));
    assert!(calls[1].ends_with(":feat: login"));
}

#[test]
fn finish_work_branch_feature_breaking() {
    let mut git = on_branch("feature/remove-api");
    let mut hosting = MockHosting::new();
    let branch_type = BranchType::Feature { name: "remove-api".to_string() };
    finish_work(&mut git, &mut hosting, &MockPrompter::new(), &branch_type, Some(true), None, None).unwrap();
    let calls = hosting.calls();
    assert!(calls[1].ends_with(":feat!: remove-api"), "got: {}", calls[1]);
}

#[test]
fn finish_work_branch_chore_breaking_honored() {
    let mut git = on_branch("chore/drop-node-16");
    let mut hosting = MockHosting::new();
    let branch_type = BranchType::Chore { name: "drop-node-16".to_string() };
    finish_work(&mut git, &mut hosting, &MockPrompter::new(), &branch_type, Some(true), None, None).unwrap();
    let calls = hosting.calls();
    assert!(calls[1].ends_with(":chore!: drop-node-16"), "got: {}", calls[1]);
}

#[test]
fn finish_work_branch_docs_defaults_to_non_breaking() {
    let mut git = on_branch("docs/readme");
    let mut hosting = MockHosting::new();
    let branch_type = BranchType::Docs { name: "readme".to_string() };
    finish_work(&mut git, &mut hosting, &MockPrompter::new(), &branch_type, None, None, None).unwrap();
    let calls = hosting.calls();
    assert!(calls[1].ends_with(":docs: readme"), "got: {}", calls[1]);
}

#[test]
fn finish_work_branch_with_explicit_base_skips_detection() {
    let mut git = on_branch("feature/login");
    git.existing_remote_branches.insert("develop".to_string());
    let mut hosting = MockHosting::new();
    let branch_type = BranchType::Feature { name: "login".to_string() };
    finish_work(&mut git, &mut hosting, &MockPrompter::new(), &branch_type, Some(false), Some("develop".to_string()), None).unwrap();
    let git_calls = git.calls();
    assert!(!git_calls.contains(&"list_remote_branches".to_string()), "got: {git_calls:?}");
    let calls = hosting.calls();
    assert!(calls[1].starts_with("create_or_get_pr:feature/login:develop:"), "got: {}", calls[1]);
}

#[test]
fn finish_work_branch_with_local_only_base_errors() {
    let mut git = on_branch("feature/login");
    git.existing_local_branches.insert("feature/auth".to_string());
    let mut hosting = MockHosting::new();
    let branch_type = BranchType::Feature { name: "login".to_string() };
    let err = finish_work(&mut git, &mut hosting, &MockPrompter::new(), &branch_type, Some(false), Some("feature/auth".to_string()), None)
        .unwrap_err();
    assert!(err.contains("feature/auth") && err.contains("origin"), "got: {err}");
    assert!(!git.calls().iter().any(|c| c.starts_with("push:")));
    assert!(hosting.calls().is_empty());
}

#[test]
fn finish_work_branch_with_base_equal_to_current_errors() {
    let mut git = on_branch("feature/login");
    git.existing_remote_branches.insert("feature/login".to_string());
    let mut hosting = MockHosting::new();
    let branch_type = BranchType::Feature { name: "login".to_string() };
    let err = finish_work(&mut git, &mut hosting, &MockPrompter::new(), &branch_type, Some(false), Some("feature/login".to_string()), None)
        .unwrap_err();
    assert!(err.contains("feature/login"), "got: {err}");
    assert!(hosting.calls().is_empty());
}

#[test]
fn finish_work_branch_with_unknown_base_errors() {
    let mut git = on_branch("feature/login");
    let mut hosting = MockHosting::new();
    let branch_type = BranchType::Feature { name: "login".to_string() };
    let err = finish_work(&mut git, &mut hosting, &MockPrompter::new(), &branch_type, Some(false), Some("no-such-branch".to_string()), None)
        .unwrap_err();
    assert!(err.contains("no-such-branch"), "got: {err}");
    assert!(hosting.calls().is_empty());
}

#[test]
fn finish_work_branch_single_candidate_finishes_without_menu() {
    let mut git = on_branch("feature/login");
    git.remote_branches = vec!["develop".to_string()];
    let mut hosting = MockHosting::new();
    let branch_type = BranchType::Feature { name: "login".to_string() };
    finish_work(&mut git, &mut hosting, &MockPrompter::new(), &branch_type, Some(false), None, None).unwrap();
    let calls = hosting.calls();
    assert!(calls[1].starts_with("create_or_get_pr:feature/login:develop:"), "got: {}", calls[1]);
}

#[test]
fn finish_work_branch_fix_breaking() {
    let mut git = on_branch("fix/auth");
    let mut hosting = MockHosting::new();
    let branch_type = BranchType::Fix { name: "auth".to_string() };
    finish_work(&mut git, &mut hosting, &MockPrompter::new(), &branch_type, Some(true), None, None).unwrap();
    let calls = hosting.calls();
    assert!(calls[1].ends_with(":fix!: auth"), "got: {}", calls[1]);
}

#[test]
fn finish_work_branch_passes_resolved_template_to_hosting() {
    let mut git = on_branch("feature/login");
    let mut hosting = MockHosting::new();
    let branch_type = BranchType::Feature { name: "login".to_string() };
    let template = ".github/pr-templates/bflow-feature.md";
    finish_work(&mut git, &mut hosting, &MockPrompter::new(), &branch_type, Some(false), None, Some(template)).unwrap();
    let calls = hosting.calls();
    assert!(calls[1].ends_with(":template=.github/pr-templates/bflow-feature.md"), "got: {}", calls[1]);
}

/// Wire up a candidate: merge base with `current`, our distance since
/// divergence, and the candidate's own commit count since divergence.
fn add_candidate(git: &mut MockGit, current: &str, branch: &str, base: &str, ours: u32, theirs: u32) {
    git.merge_bases.insert(pair(current, branch), base.to_string());
    git.rev_list_counts.insert(pair(base, current), ours);
    git.rev_list_counts.insert(pair(base, branch), theirs);
}

#[test]
fn parent_candidates_sorted_by_merge_distance_ascending() {
    let mut git = on_branch("feature/child");
    git.remote_branches = vec!["develop".to_string(), "feature/near".to_string()];
    add_candidate(&mut git, "feature/child", "develop", "base-d", 5, 0);
    add_candidate(&mut git, "feature/child", "feature/near", "base-n", 2, 0);
    let mut hosting = MockHosting::new();
    let prompter = MockPrompter::scripted(&[0]);
    let branch_type = BranchType::Feature { name: "child".to_string() };
    finish_work(&mut git, &mut hosting, &prompter, &branch_type, Some(false), None, None).unwrap();
    assert_eq!(prompter.calls(), vec!["select:PR target branch:[feature/near, develop]"]);
    assert!(hosting.calls()[1].starts_with("create_or_get_pr:feature/child:feature/near:"), "got: {}", hosting.calls()[1]);
}

#[test]
fn parent_candidates_tie_prefers_develop_then_alphabetical() {
    let mut git = on_branch("feature/child");
    git.remote_branches = vec!["feature/bbb".to_string(), "develop".to_string(), "feature/aaa".to_string()];
    add_candidate(&mut git, "feature/child", "feature/bbb", "base-b", 3, 0);
    add_candidate(&mut git, "feature/child", "develop", "base-d", 3, 0);
    add_candidate(&mut git, "feature/child", "feature/aaa", "base-a", 3, 0);
    let mut hosting = MockHosting::new();
    let prompter = MockPrompter::scripted(&[0]);
    let branch_type = BranchType::Feature { name: "child".to_string() };
    finish_work(&mut git, &mut hosting, &prompter, &branch_type, Some(false), None, None).unwrap();
    assert_eq!(prompter.calls(), vec!["select:PR target branch:[develop, feature/aaa, feature/bbb]"]);
}

#[test]
fn parent_detection_excludes_child_branches_and_skips_menu_for_single_candidate() {
    let mut git = on_branch("feature/parent");
    git.remote_branches = vec!["develop".to_string(), "feature/stacked".to_string()];
    add_candidate(&mut git, "feature/parent", "develop", "base-d", 4, 0);
    add_candidate(&mut git, "feature/parent", "feature/stacked", "base-s", 1, 6);
    let mut hosting = MockHosting::new();
    let prompter = MockPrompter::new();
    let branch_type = BranchType::Feature { name: "parent".to_string() };
    finish_work(&mut git, &mut hosting, &prompter, &branch_type, Some(false), None, None).unwrap();
    assert!(prompter.calls().is_empty());
    assert!(hosting.calls()[1].starts_with("create_or_get_pr:feature/parent:develop:"), "got: {}", hosting.calls()[1]);
}

fn merged(url: &str, sha: &str, base: &str) -> Option<MergedPr> {
    Some(MergedPr { url: url.to_string(), head_sha: sha.to_string(), base: base.to_string() })
}

#[test]
fn merged_pr_in_worktree_cleans_up_branch_and_worktree() {
    let mut git = on_branch("feature/task-a");
    git.head_sha = "abc123".to_string();
    git.linked_worktree = true;
    git.existing_remote_branches.insert("feature/task-a".to_string());
    let mut hosting = MockHosting::new();
    hosting.merged_pr = merged("https://github.com/org/repo/pull/49", "abc123", "develop");
    let branch_type = BranchType::Feature { name: "task-a".to_string() };
    finish_work(&mut git, &mut hosting, &MockPrompter::new(), &branch_type, None, None, None).unwrap();
    assert_eq!(git.calls(), vec![
        "current_branch",
        "head_sha",
        "remote_branch_exists:feature/task-a",
        "delete_branch_remote:feature/task-a",
        "is_linked_worktree",
        "detach_head",
        "delete_branch_local:feature/task-a",
        "remove_current_worktree",
    ]);
    assert_eq!(hosting.calls(), vec!["merged_pr:feature/task-a"], "no new PR may be created");
}

#[test]
fn merged_pr_in_plain_checkout_returns_to_base_and_deletes_branch() {
    let mut git = on_branch("feature/task-a");
    git.head_sha = "abc123".to_string();
    let mut hosting = MockHosting::new();
    hosting.merged_pr = merged("https://github.com/org/repo/pull/49", "abc123", "develop");
    let branch_type = BranchType::Feature { name: "task-a".to_string() };
    finish_work(&mut git, &mut hosting, &MockPrompter::new(), &branch_type, None, None, None).unwrap();
    assert_eq!(git.calls(), vec![
        "current_branch",
        "head_sha",
        "remote_branch_exists:feature/task-a",
        "is_linked_worktree",
        "checkout:develop",
        "ff_merge:origin/develop",
        "delete_branch_local:feature/task-a",
    ]);
    assert_eq!(hosting.calls(), vec!["merged_pr:feature/task-a"]);
}

#[test]
fn merged_pr_with_new_commits_since_merge_creates_a_new_pr() {
    let mut git = on_branch("feature/task-a");
    git.head_sha = "newwork456".to_string();
    let mut hosting = MockHosting::new();
    hosting.merged_pr = merged("https://github.com/org/repo/pull/49", "abc123", "develop");
    let branch_type = BranchType::Feature { name: "task-a".to_string() };
    finish_work(&mut git, &mut hosting, &MockPrompter::new(), &branch_type, Some(false), None, None).unwrap();
    assert!(!git.calls().iter().any(|c| c.starts_with("delete_") || c == "remove_current_worktree"), "got: {:?}", git.calls());
    assert!(hosting.calls().iter().any(|c| c.starts_with("create_or_get_pr:feature/task-a:")), "got: {:?}", hosting.calls());
}

#[test]
fn merged_pr_cleans_up_release_fix_too() {
    let mut git = on_branch("release-fix/1.1.0/login-bug");
    git.head_sha = "abc123".to_string();
    git.linked_worktree = true;
    let mut hosting = MockHosting::new();
    hosting.merged_pr = merged("https://github.com/org/repo/pull/50", "abc123", "release/1.1.0");
    let branch_type = BranchType::ReleaseFix { major: 1, minor: 1, patch: 0, name: "login-bug".to_string() };
    finish_release_fix(&mut git, &mut hosting, &Quiet, &branch_type, None).unwrap();
    assert!(!git.calls().iter().any(|c| c.starts_with("push:")));
    assert!(git.calls().contains(&"remove_current_worktree".to_string()));
    assert_eq!(hosting.calls(), vec!["merged_pr:release-fix/1.1.0/login-bug"]);
}

#[test]
fn finish_release_fix_pushes_and_creates_pr() {
    let mut git = on_branch("release-fix/1.1.0/login-bug");
    let mut hosting = MockHosting::new();
    let branch_type = BranchType::ReleaseFix { major: 1, minor: 1, patch: 0, name: "login-bug".to_string() };
    finish_release_fix(&mut git, &mut hosting, &Quiet, &branch_type, None).unwrap();
    assert_eq!(git.calls(), vec!["current_branch", "push:release-fix/1.1.0/login-bug"]);
    assert_eq!(hosting.calls(), vec![
        "merged_pr:release-fix/1.1.0/login-bug",
        "create_or_get_pr:release-fix/1.1.0/login-bug:release/1.1.0:fix: login bug",
        "open_url:https://github.com/org/repo/pull/1",
    ]);
}

#[test]
fn finish_hotfix_fix_pushes_and_creates_pr() {
    let mut git = on_branch("hotfix-fix/1.0.1/crash-fix");
    let mut hosting = MockHosting::new();
    let branch_type = BranchType::HotfixFix { major: 1, minor: 0, patch: 1, name: "crash-fix".to_string() };
    bflow::flows::finish_work::finish_hotfix_fix(&mut git, &mut hosting, &Quiet, &branch_type, None).unwrap();
    assert_eq!(git.calls(), vec!["current_branch", "push:hotfix-fix/1.0.1/crash-fix"]);
    assert_eq!(hosting.calls(), vec![
        "merged_pr:hotfix-fix/1.0.1/crash-fix",
        "create_or_get_pr:hotfix-fix/1.0.1/crash-fix:hotfix/1.0.1:fix: crash fix",
        "open_url:https://github.com/org/repo/pull/1",
    ]);
}

#[test]
fn finish_release_fix_with_custom_pr_url() {
    let mut git = on_branch("release-fix/2.0.0/typo");
    let mut hosting = MockHosting::new();
    hosting.pr_url = "https://github.com/org/repo/pull/42".to_string();
    let branch_type = BranchType::ReleaseFix { major: 2, minor: 0, patch: 0, name: "typo".to_string() };
    let url = finish_release_fix(&mut git, &mut hosting, &Quiet, &branch_type, None).unwrap();
    assert_eq!(url, Some("https://github.com/org/repo/pull/42".to_string()));
    assert_eq!(hosting.calls(), vec![
        "merged_pr:release-fix/2.0.0/typo",
        "create_or_get_pr:release-fix/2.0.0/typo:release/2.0.0:fix: typo",
        "open_url:https://github.com/org/repo/pull/42",
    ]);
}

#[test]
fn a_fix_finish_refuses_the_other_fix_kind() {
    let mut git = on_branch("hotfix-fix/1.0.1/crash-fix");
    let mut hosting = MockHosting::new();
    let branch_type = BranchType::HotfixFix { major: 1, minor: 0, patch: 1, name: "crash-fix".to_string() };
    let err = finish_release_fix(&mut git, &mut hosting, &Quiet, &branch_type, None).unwrap_err();
    assert_eq!(err, "Not on a release-fix branch.");
}

// --- Starting branches --------------------------------------------------------

fn release(git: &mut MockGit, prompter: &MockPrompter, kind: Option<ReleaseType>) -> Result<(), String> {
    start_release(git, prompter, &mut MockHosting::new(), None, &RepoConfig::default(), &Quiet, kind)
}

fn hotfix_fix(git: &mut MockGit, name: &str, no_checkout: bool, main: &str) -> Result<(), String> {
    start_hotfix_fix(git, &Quiet, name, no_checkout, None, main, None)
}

fn strings(v: &[&str]) -> Vec<String> {
    v.iter().map(|s| s.to_string()).collect()
}

#[test]
fn start_work_branch_with_fix_prefix() {
    let mut git = MockGit::new();
    start_work_branch(&mut git, &Quiet, "fix", "broken-auth", "main", false, None).unwrap();
    assert_eq!(git.calls(), vec!["create_branch:fix/broken-auth:main", "push:fix/broken-auth"]);
}

fn release_cut(version: &str) -> Vec<String> {
    [
        "list_branches_matching:release/*",
        "list_tags",
        "checkout:develop",
        "create_branch:release/V:develop",
        "push:release/V",
        "create_tag:vV-rc.1:chore: create release branch V",
        "push_tag:vV-rc.1",
    ]
    .iter()
    .map(|c| c.replace('V', version))
    .collect()
}

#[test]
fn start_release_creates_new_when_no_release_exists_with_tags() {
    let mut git = MockGit::new();
    git.tags = strings(&["v1.0.0"]);
    release(&mut git, &MockPrompter::new(), Some(ReleaseType::Minor)).unwrap();
    assert_eq!(git.calls(), release_cut("1.1.0"));
}

#[test]
fn start_release_creates_new_when_no_release_exists_no_tags() {
    let mut git = MockGit::new();
    release(&mut git, &MockPrompter::new(), Some(ReleaseType::Minor)).unwrap();
    assert_eq!(git.calls(), release_cut("0.1.0"));
}

#[test]
fn start_release_checks_out_existing_release_branch() {
    let mut git = MockGit::new();
    git.branches_matching = strings(&["release/1.1.0"]);
    release(&mut git, &MockPrompter::new(), Some(ReleaseType::Minor)).unwrap();
    assert_eq!(git.calls(), vec!["list_branches_matching:release/*", "tag_exists:v1.1.0", "checkout:release/1.1.0"]);
}

#[test]
fn start_release_skips_shipped_release_branch() {
    let mut git = MockGit::new();
    git.branches_matching = strings(&["release/1.1.0", "release/1.2.0"]);
    git.existing_tags.insert("v1.1.0".to_string());
    release(&mut git, &MockPrompter::new(), Some(ReleaseType::Minor)).unwrap();
    assert_eq!(git.calls(), vec![
        "list_branches_matching:release/*",
        "tag_exists:v1.1.0",
        "tag_exists:v1.2.0",
        "checkout:release/1.2.0",
    ]);
}

#[test]
fn start_release_creates_new_when_all_releases_shipped() {
    let mut git = MockGit::new();
    git.branches_matching = strings(&["release/1.1.0"]);
    git.existing_tags.insert("v1.1.0".to_string());
    git.tags = strings(&["v1.1.0"]);
    release(&mut git, &MockPrompter::new(), Some(ReleaseType::Minor)).unwrap();
    let mut expected = vec!["list_branches_matching:release/*".to_string(), "tag_exists:v1.1.0".to_string()];
    expected.extend(release_cut("1.2.0").into_iter().skip(1));
    assert_eq!(git.calls(), expected);
}

#[test]
fn start_release_reuse_keeps_unparseable_branch_open() {
    let mut git = MockGit::new();
    git.branches_matching = strings(&["release/wip"]);
    release(&mut git, &MockPrompter::new(), Some(ReleaseType::Minor)).unwrap();
    assert_eq!(git.calls(), vec!["list_branches_matching:release/*", "checkout:release/wip"]);
}

#[test]
fn start_release_fix_creates_and_pushes() {
    let mut git = MockGit::new();
    git.current_branch = "release/1.2.0".to_string();
    start_release_fix(&mut git, &Quiet, "broken-login", false, None).unwrap();
    assert_eq!(git.calls(), vec![
        "current_branch",
        "create_branch:release-fix/1.2.0/broken-login:release/1.2.0",
        "push:release-fix/1.2.0/broken-login",
    ]);
}

#[test]
fn a_versionless_parent_branch_is_rejected_instead_of_naming_a_broken_child() {
    let mut git = MockGit::new();
    git.current_branch = "release/wip".to_string();
    let err = start_release_fix(&mut git, &Quiet, "broken-login", false, None).unwrap_err();
    assert!(err.contains("does not carry a version"), "got: {err}");
    assert!(!git.calls().iter().any(|c| c.starts_with("create_branch")), "calls: {:?}", git.calls());
}

#[test]
fn start_hotfix_fix_creates_and_pushes_existing_hotfix() {
    let mut git = MockGit::new();
    git.branches_matching = strings(&["hotfix/1.0.1"]);
    hotfix_fix(&mut git, "urgent-crash", false, "main").unwrap();
    assert_eq!(git.calls(), vec![
        "list_branches_matching:hotfix/*",
        "tag_exists:v1.0.1",
        "checkout:hotfix/1.0.1",
        "create_branch:hotfix-fix/1.0.1/urgent-crash:hotfix/1.0.1",
        "push:hotfix-fix/1.0.1/urgent-crash",
    ]);
}

#[test]
fn start_hotfix_fix_skips_shipped_hotfix_branch() {
    let mut git = MockGit::new();
    git.branches_matching = strings(&["hotfix/1.0.1", "hotfix/1.0.2"]);
    git.existing_tags.insert("v1.0.1".to_string());
    hotfix_fix(&mut git, "urgent-crash", false, "main").unwrap();
    assert_eq!(git.calls(), vec![
        "list_branches_matching:hotfix/*",
        "tag_exists:v1.0.1",
        "tag_exists:v1.0.2",
        "checkout:hotfix/1.0.2",
        "create_branch:hotfix-fix/1.0.2/urgent-crash:hotfix/1.0.2",
        "push:hotfix-fix/1.0.2/urgent-crash",
    ]);
}

fn new_hotfix_calls(main: &str) -> Vec<String> {
    [
        "list_branches_matching:hotfix/*",
        "list_tags",
        "checkout:MAIN",
        "create_branch:hotfix/1.0.1:MAIN",
        "push:hotfix/1.0.1",
        "create_branch:hotfix-fix/1.0.1/urgent-crash:hotfix/1.0.1",
        "push:hotfix-fix/1.0.1/urgent-crash",
    ]
    .iter()
    .map(|c| c.replace("MAIN", main))
    .collect()
}

#[test]
fn start_hotfix_fix_creates_hotfix_branch_when_none_exists() {
    let mut git = MockGit::new();
    git.tags = strings(&["1.0.0"]);
    hotfix_fix(&mut git, "urgent-crash", false, "main").unwrap();
    assert_eq!(git.calls(), new_hotfix_calls("main"));
}

#[test]
fn a_new_hotfix_branch_is_cut_from_the_configured_mainline() {
    let mut git = MockGit::new();
    git.tags = strings(&["1.0.0"]);
    hotfix_fix(&mut git, "urgent-crash", false, "master").unwrap();
    assert_eq!(git.calls(), new_hotfix_calls("master"));
}

#[test]
fn start_work_branch_no_checkout_creates_without_switching() {
    let mut git = MockGit::new();
    start_work_branch(&mut git, &Quiet, "feature", "login-page", "develop", true, None).unwrap();
    assert_eq!(git.calls(), vec!["create_branch_no_checkout:feature/login-page:develop", "push:feature/login-page"]);
}

#[test]
fn start_release_fix_no_checkout_discovers_release_branch() {
    let mut git = MockGit::new();
    git.branches_matching = strings(&["release/1.2.0"]);
    start_release_fix(&mut git, &Quiet, "broken-login", true, None).unwrap();
    assert_eq!(git.calls(), vec![
        "list_branches_matching:release/*",
        "tag_exists:v1.2.0",
        "create_branch_no_checkout:release-fix/1.2.0/broken-login:release/1.2.0",
        "push:release-fix/1.2.0/broken-login",
    ]);
}

#[test]
fn start_release_fix_no_checkout_skips_shipped_release_branch() {
    let mut git = MockGit::new();
    git.branches_matching = strings(&["release/1.1.0", "release/1.2.0"]);
    git.existing_tags.insert("v1.1.0".to_string());
    start_release_fix(&mut git, &Quiet, "broken-login", true, None).unwrap();
    assert_eq!(git.calls(), vec![
        "list_branches_matching:release/*",
        "tag_exists:v1.1.0",
        "tag_exists:v1.2.0",
        "create_branch_no_checkout:release-fix/1.2.0/broken-login:release/1.2.0",
        "push:release-fix/1.2.0/broken-login",
    ]);
}

#[test]
fn start_release_fix_no_checkout_errors_when_no_release_branch() {
    let mut git = MockGit::new();
    assert!(start_release_fix(&mut git, &Quiet, "broken-login", true, None).is_err());
}

#[test]
fn start_hotfix_fix_no_checkout_existing_hotfix() {
    let mut git = MockGit::new();
    git.branches_matching = strings(&["hotfix/1.0.1"]);
    hotfix_fix(&mut git, "urgent-crash", true, "main").unwrap();
    assert_eq!(git.calls(), vec![
        "list_branches_matching:hotfix/*",
        "tag_exists:v1.0.1",
        "create_branch_no_checkout:hotfix-fix/1.0.1/urgent-crash:hotfix/1.0.1",
        "push:hotfix-fix/1.0.1/urgent-crash",
    ]);
}

#[test]
fn start_hotfix_fix_no_checkout_creates_hotfix_branch_when_none_exists() {
    let mut git = MockGit::new();
    git.tags = strings(&["1.0.0"]);
    hotfix_fix(&mut git, "urgent-crash", true, "main").unwrap();
    assert_eq!(git.calls(), vec![
        "list_branches_matching:hotfix/*",
        "list_tags",
        "create_branch_no_checkout:hotfix/1.0.1:main",
        "push:hotfix/1.0.1",
        "create_branch_no_checkout:hotfix-fix/1.0.1/urgent-crash:hotfix/1.0.1",
        "push:hotfix-fix/1.0.1/urgent-crash",
    ]);
}

#[test]
fn start_release_falls_back_to_rc_tags_when_no_clean_tags() {
    let mut git = MockGit::new();
    git.tags = strings(&["v1.1.0-rc.1", "v1.1.0-rc.2"]);
    release(&mut git, &MockPrompter::new(), Some(ReleaseType::Minor)).unwrap();
    assert_eq!(git.calls(), release_cut("1.2.0"));
}

#[test]
fn start_release_major_bumps_major_version() {
    let mut git = MockGit::new();
    git.tags = strings(&["v1.5.0"]);
    release(&mut git, &MockPrompter::new(), Some(ReleaseType::Major)).unwrap();
    assert_eq!(git.calls(), release_cut("2.0.0"));
}

#[test]
fn start_release_ignores_rc_tags_when_determining_next_version() {
    let mut git = MockGit::new();
    git.tags = strings(&["v1.0.0", "v1.1.0-rc.1", "v1.1.0-rc.2"]);
    release(&mut git, &MockPrompter::new(), Some(ReleaseType::Minor)).unwrap();
    assert_eq!(git.calls(), release_cut("1.1.0"));
}

#[test]
fn unknown_base_branch_error_is_rewritten_to_name_the_base_flag() {
    let mut git = MockGit::new();
    git.create_branch_error = Some("fatal: 'nope' is not a commit and a branch 'x' cannot be created from it".to_string());
    let err = start_work_branch(&mut git, &Quiet, "feature", "login", "nope", false, None).unwrap_err();
    assert!(err.contains("Branch 'nope' does not exist"), "got: {err}");
    assert!(err.contains("--base"), "got: {err}");
}

#[test]
fn other_create_branch_errors_are_passed_through_untouched() {
    let mut git = MockGit::new();
    git.create_branch_error = Some("fatal: a branch named 'feature/login' already exists".to_string());
    let err = start_work_branch(&mut git, &Quiet, "feature", "login", "develop", false, None).unwrap_err();
    assert_eq!(err, "fatal: a branch named 'feature/login' already exists");
}

#[test]
fn start_release_fix_requires_standing_on_a_release_branch() {
    let mut git = MockGit::new();
    let err = start_release_fix(&mut git, &Quiet, "db-index", false, None).unwrap_err();
    assert_eq!(err, "Not on a release branch");
    assert!(!git.calls().iter().any(|c| c.starts_with("create_branch")), "calls: {:?}", git.calls());
}

#[test]
fn breaking_changes_put_major_first_in_the_prompt() {
    let mut git = MockGit::new();
    git.tags = strings(&["v1.2.0"]);
    git.commit_messages = strings(&["feat!: drop the v1 API"]);
    let prompter = MockPrompter::scripted(&[0]);
    release(&mut git, &prompter, None).unwrap();
    assert_eq!(prompter.calls(), vec!["select:Release type:[major (v1.2.0 → v2.0.0), minor (v1.2.0 → v1.3.0)]"]);
    assert!(git.calls().contains(&"create_branch:release/2.0.0:develop".to_string()), "calls: {:?}", git.calls());
}

#[test]
fn without_breaking_changes_minor_comes_first() {
    let mut git = MockGit::new();
    git.tags = strings(&["v1.2.0"]);
    git.commit_messages = strings(&["feat: add login page"]);
    let prompter = MockPrompter::scripted(&[0]);
    release(&mut git, &prompter, None).unwrap();
    assert_eq!(prompter.calls(), vec!["select:Release type:[minor (v1.2.0 → v1.3.0), major (v1.2.0 → v2.0.0)]"]);
    assert!(git.calls().contains(&"create_branch:release/1.3.0:develop".to_string()), "calls: {:?}", git.calls());
}

#[test]
fn the_prompt_still_decides_when_the_user_picks_the_non_default() {
    let mut git = MockGit::new();
    git.tags = strings(&["v1.2.0"]);
    git.commit_messages = strings(&["fix: typo"]);
    let prompter = MockPrompter::scripted(&[1]);
    release(&mut git, &prompter, None).unwrap();
    assert!(git.calls().contains(&"create_branch:release/2.0.0:develop".to_string()), "calls: {:?}", git.calls());
}

#[test]
fn detect_breaking_returns_false_when_commits_exist_but_none_are_breaking() {
    let mut git = MockGit::new();
    git.commit_messages = strings(&["feat: add login page", "chore: bump deps"]);
    assert!(!detect_breaking_changes(&mut git, &SemVer::new(1, 0, 0)));
}

#[test]
fn detect_breaking_queries_develop_not_head() {
    let mut git = MockGit::new();
    git.commit_messages = strings(&["feat!: remove API"]);
    assert!(detect_breaking_changes(&mut git, &SemVer::new(1, 0, 0)));
    assert!(git.calls().iter().any(|c| c == "commit_messages:v1.0.0:develop"), "got: {:?}", git.calls());
}

#[test]
fn detect_breaking_falls_back_to_origin_develop_when_develop_missing() {
    let mut git = MockGit::new();
    git.fail_commit_messages_for = strings(&["develop"]);
    git.commit_messages = strings(&["feat!: remove API"]);
    assert!(detect_breaking_changes(&mut git, &SemVer::new(1, 0, 0)));
    assert_eq!(git.calls(), vec!["commit_messages:v1.0.0:develop", "commit_messages:v1.0.0:origin/develop"]);
}

#[test]
fn detect_breaking_returns_false_when_neither_develop_nor_origin_exist() {
    let mut git = MockGit::new();
    git.fail_commit_messages_for = strings(&["develop", "origin/develop"]);
    assert!(!detect_breaking_changes(&mut git, &SemVer::new(1, 0, 0)));
    assert_eq!(git.calls(), vec!["commit_messages:v1.0.0:develop", "commit_messages:v1.0.0:origin/develop"]);
}

#[test]
fn a_hotfix_branch_without_a_version_is_rejected_too() {
    let mut git = MockGit::new();
    git.branches_matching = strings(&["hotfix/wip"]);
    let err = hotfix_fix(&mut git, "urgent-crash", true, "main").unwrap_err();
    assert_eq!(err, "Branch 'hotfix/wip' does not carry a version, so no fix branch can be named after it.");
    assert!(!git.calls().iter().any(|c| c.starts_with("create_branch")), "calls: {:?}", git.calls());
}

// --- Version script at branch creation, and develop's bump after a release ---

fn scripted_release(git: &mut MockGit, hosting: &mut MockHosting, script: &MockVersionScript, cfg: &RepoConfig) -> Result<(), String> {
    start_release(git, &MockPrompter::new(), hosting, Some(script), cfg, &Quiet, Some(ReleaseType::Minor))
}

fn protected() -> RepoConfig {
    RepoConfig { mode: Mode::Protected, keep_release_branches: false, ..RepoConfig::default() }
}

/// The release cut with a script that commits: up to the pushed rc.1 tag.
const RELEASE_CUT_WITH_SCRIPT: [&str; 11] = [
    "list_branches_matching:release/*",
    "list_tags",
    "is_working_tree_clean",
    "checkout:develop",
    "create_branch:release/1.1.0:develop",
    "is_working_tree_clean",
    "stage_all",
    "commit:chore: set version 1.1.0",
    "push:release/1.1.0",
    "create_tag:v1.1.0-rc.1:chore: create release branch 1.1.0",
    "push_tag:v1.1.0-rc.1",
];

fn with_cut(tail: &[&str]) -> Vec<String> {
    RELEASE_CUT_WITH_SCRIPT.iter().chain(tail.iter()).map(|c| c.to_string()).collect()
}

fn release_script_mock(clean: &[bool]) -> MockGit {
    let mut git = MockGit::new();
    git.tags = strings(&["v1.0.0"]);
    git.working_tree_clean_seq.borrow_mut().extend(clean.iter().copied());
    git
}

#[test]
fn start_release_runs_version_script_on_new_branch() {
    let mut git = release_script_mock(&[true, false]);
    let script = MockVersionScript::new();
    scripted_release(&mut git, &mut MockHosting::new(), &script, &RepoConfig::default()).unwrap();
    assert_eq!(git.calls(), with_cut(&[
        "checkout:develop",
        "ff_merge:origin/develop",
        "is_working_tree_clean",
        "is_working_tree_clean",
        "checkout:release/1.1.0",
    ]));
    assert_eq!(script.calls(), vec!["run:1.1.0", "run:1.2.0"]);
}

#[test]
fn start_release_script_noop_makes_no_commit() {
    let mut git = release_script_mock(&[true, true]);
    let script = MockVersionScript::new();
    scripted_release(&mut git, &mut MockHosting::new(), &script, &RepoConfig::default()).unwrap();
    assert_eq!(git.calls(), vec![
        "list_branches_matching:release/*",
        "list_tags",
        "is_working_tree_clean",
        "checkout:develop",
        "create_branch:release/1.1.0:develop",
        "is_working_tree_clean",
        "push:release/1.1.0",
        "create_tag:v1.1.0-rc.1:chore: create release branch 1.1.0",
        "push_tag:v1.1.0-rc.1",
        "checkout:develop",
        "ff_merge:origin/develop",
        "is_working_tree_clean",
        "is_working_tree_clean",
        "checkout:release/1.1.0",
    ]);
    assert_eq!(script.calls(), vec!["run:1.1.0", "run:1.2.0"]);
}

#[test]
fn start_release_dirty_tree_blocks_script() {
    let mut git = release_script_mock(&[false]);
    let script = MockVersionScript::new();
    let err = scripted_release(&mut git, &mut MockHosting::new(), &script, &RepoConfig::default()).unwrap_err();
    assert_eq!(err, "Working tree is not clean. Commit or stash your changes, then re-run.");
    assert_eq!(git.calls(), vec!["list_branches_matching:release/*", "list_tags", "is_working_tree_clean"]);
    assert!(script.calls().is_empty());
}

#[test]
fn start_release_reuse_path_never_runs_script() {
    let mut git = MockGit::new();
    git.branches_matching = strings(&["release/1.1.0"]);
    let script = MockVersionScript::new();
    scripted_release(&mut git, &mut MockHosting::new(), &script, &RepoConfig::default()).unwrap();
    assert_eq!(git.calls(), vec!["list_branches_matching:release/*", "tag_exists:v1.1.0", "checkout:release/1.1.0"]);
    assert!(script.calls().is_empty());
}

#[test]
fn m2_free_mode_bumps_develop_and_returns_to_the_release_branch() {
    let mut git = release_script_mock(&[true, false, true, false]);
    let script = MockVersionScript::new();
    scripted_release(&mut git, &mut MockHosting::new(), &script, &RepoConfig::default()).unwrap();
    assert_eq!(git.calls(), with_cut(&[
        "checkout:develop",
        "ff_merge:origin/develop",
        "is_working_tree_clean",
        "is_working_tree_clean",
        "stage_all",
        "commit:chore: set version 1.2.0",
        "push:develop",
        "checkout:release/1.1.0",
    ]));
    assert_eq!(script.calls(), vec!["run:1.1.0", "run:1.2.0"]);
}

#[test]
fn m2_free_mode_noop_skips_the_push() {
    let mut git = release_script_mock(&[true, false, true, true]);
    let script = MockVersionScript::new();
    scripted_release(&mut git, &mut MockHosting::new(), &script, &RepoConfig::default()).unwrap();
    assert_eq!(git.calls(), with_cut(&[
        "checkout:develop",
        "ff_merge:origin/develop",
        "is_working_tree_clean",
        "is_working_tree_clean",
        "checkout:release/1.1.0",
    ]));
    assert!(!git.calls().contains(&"push:develop".to_string()));
    assert_eq!(script.calls(), vec!["run:1.1.0", "run:1.2.0"]);
}

#[test]
fn m2_protected_mode_opens_a_version_pr_on_a_fresh_branch() {
    let mut git = release_script_mock(&[true, false, true, false]);
    let script = MockVersionScript::new();
    let mut hosting = MockHosting::new();
    scripted_release(&mut git, &mut hosting, &script, &protected()).unwrap();
    assert_eq!(git.calls(), with_cut(&[
        "checkout:develop",
        "ff_merge:origin/develop",
        "remote_branch_exists:chore/set-version-1.2.0",
        "local_branch_exists:chore/set-version-1.2.0",
        "create_branch:chore/set-version-1.2.0:develop",
        "is_working_tree_clean",
        "is_working_tree_clean",
        "stage_all",
        "commit:chore: set version 1.2.0",
        "push:chore/set-version-1.2.0",
        "checkout:release/1.1.0",
    ]));
    assert!(!git.calls().contains(&"push:develop".to_string()));
    assert_eq!(hosting.calls(), vec!["create_or_get_pr:chore/set-version-1.2.0:develop:chore: set version 1.2.0"]);
    assert_eq!(script.calls(), vec!["run:1.1.0", "run:1.2.0"]);
}

#[test]
fn m2_protected_mode_noop_deletes_the_fresh_chore_branch() {
    let mut git = release_script_mock(&[true, false, true, true]);
    let script = MockVersionScript::new();
    let mut hosting = MockHosting::new();
    scripted_release(&mut git, &mut hosting, &script, &protected()).unwrap();
    assert_eq!(git.calls(), with_cut(&[
        "checkout:develop",
        "ff_merge:origin/develop",
        "remote_branch_exists:chore/set-version-1.2.0",
        "local_branch_exists:chore/set-version-1.2.0",
        "create_branch:chore/set-version-1.2.0:develop",
        "is_working_tree_clean",
        "is_working_tree_clean",
        "checkout:develop",
        "delete_branch_local:chore/set-version-1.2.0",
        "checkout:release/1.1.0",
    ]));
    assert!(hosting.calls().is_empty(), "calls: {:?}", hosting.calls());
    assert_eq!(script.calls(), vec!["run:1.1.0", "run:1.2.0"]);
}

#[test]
fn m2_protected_mode_reuses_a_leftover_chore_branch_without_recreating_it() {
    let mut git = release_script_mock(&[true, false]);
    git.existing_remote_branches.insert("chore/set-version-1.2.0".to_string());
    let script = MockVersionScript::new();
    let mut hosting = MockHosting::new();
    scripted_release(&mut git, &mut hosting, &script, &protected()).unwrap();
    assert_eq!(git.calls(), with_cut(&[
        "checkout:develop",
        "ff_merge:origin/develop",
        "remote_branch_exists:chore/set-version-1.2.0",
        "checkout:release/1.1.0",
    ]));
    assert!(!git.calls().iter().any(|c| c.starts_with("create_branch:chore")), "calls: {:?}", git.calls());
    assert_eq!(hosting.calls(), vec!["create_or_get_pr:chore/set-version-1.2.0:develop:chore: set version 1.2.0"]);
    assert_eq!(script.calls(), vec!["run:1.1.0"]);
}

#[test]
fn bump_develop_protected_deletes_leftover_local_chore_branch_before_recreating() {
    let mut git = release_script_mock(&[true, false, true, false]);
    git.existing_local_branches.insert("chore/set-version-1.2.0".to_string());
    let script = MockVersionScript::new();
    let mut hosting = MockHosting::new();
    scripted_release(&mut git, &mut hosting, &script, &protected()).unwrap();
    assert_eq!(git.calls(), with_cut(&[
        "checkout:develop",
        "ff_merge:origin/develop",
        "remote_branch_exists:chore/set-version-1.2.0",
        "local_branch_exists:chore/set-version-1.2.0",
        "delete_branch_local:chore/set-version-1.2.0",
        "create_branch:chore/set-version-1.2.0:develop",
        "is_working_tree_clean",
        "is_working_tree_clean",
        "stage_all",
        "commit:chore: set version 1.2.0",
        "push:chore/set-version-1.2.0",
        "checkout:release/1.1.0",
    ]));
    assert_eq!(hosting.calls(), vec!["create_or_get_pr:chore/set-version-1.2.0:develop:chore: set version 1.2.0"]);
}

#[test]
fn bump_develop_protected_script_failure_restores_to_develop_then_release_branch() {
    let mut git = release_script_mock(&[true, false, true]);
    let mut script = MockVersionScript::new();
    script.fail_nth_run = Some(2);
    let mut hosting = MockHosting::new();
    let result = scripted_release(&mut git, &mut hosting, &script, &protected());
    assert!(result.is_ok(), "got: {result:?}");
    assert_eq!(git.calls(), with_cut(&[
        "checkout:develop",
        "ff_merge:origin/develop",
        "remote_branch_exists:chore/set-version-1.2.0",
        "local_branch_exists:chore/set-version-1.2.0",
        "create_branch:chore/set-version-1.2.0:develop",
        "is_working_tree_clean",
        "checkout:develop",
        "checkout:release/1.1.0",
    ]));
    assert!(hosting.calls().is_empty(), "calls: {:?}", hosting.calls());
    assert_eq!(script.calls(), vec!["run:1.1.0", "run:1.2.0"]);
}

#[test]
fn m2_failure_is_warn_and_continue_the_release_already_succeeded() {
    let mut git = release_script_mock(&[true, false]);
    git.ff_merge_error = Some("fatal: not something we can merge".to_string());
    let script = MockVersionScript::new();
    let result = scripted_release(&mut git, &mut MockHosting::new(), &script, &RepoConfig::default());
    assert!(result.is_ok(), "got: {result:?}");
    assert_eq!(git.calls(), with_cut(&["checkout:develop", "ff_merge:origin/develop", "checkout:release/1.1.0"]));
    assert_eq!(script.calls(), vec!["run:1.1.0"]);
}

fn hotfix_script_mock(clean: &[bool]) -> MockGit {
    let mut git = MockGit::new();
    git.tags = strings(&["1.0.0"]);
    git.working_tree_clean_seq.borrow_mut().extend(clean.iter().copied());
    git
}

#[test]
fn start_hotfix_fix_runs_version_script_on_new_branch() {
    let mut git = hotfix_script_mock(&[true, false]);
    let script = MockVersionScript::new();
    start_hotfix_fix(&mut git, &Quiet, "urgent-crash", false, None, "main", Some(&script)).unwrap();
    assert_eq!(git.calls(), vec![
        "list_branches_matching:hotfix/*",
        "list_tags",
        "is_working_tree_clean",
        "checkout:main",
        "create_branch:hotfix/1.0.1:main",
        "is_working_tree_clean",
        "stage_all",
        "commit:chore: set version 1.0.1",
        "push:hotfix/1.0.1",
        "create_branch:hotfix-fix/1.0.1/urgent-crash:hotfix/1.0.1",
        "push:hotfix-fix/1.0.1/urgent-crash",
    ]);
    assert_eq!(script.calls(), vec!["run:1.0.1"]);
}

#[test]
fn start_hotfix_fix_script_noop_makes_no_commit() {
    let mut git = hotfix_script_mock(&[true, true]);
    let script = MockVersionScript::new();
    start_hotfix_fix(&mut git, &Quiet, "urgent-crash", false, None, "main", Some(&script)).unwrap();
    assert_eq!(git.calls(), vec![
        "list_branches_matching:hotfix/*",
        "list_tags",
        "is_working_tree_clean",
        "checkout:main",
        "create_branch:hotfix/1.0.1:main",
        "is_working_tree_clean",
        "push:hotfix/1.0.1",
        "create_branch:hotfix-fix/1.0.1/urgent-crash:hotfix/1.0.1",
        "push:hotfix-fix/1.0.1/urgent-crash",
    ]);
    assert_eq!(script.calls(), vec!["run:1.0.1"]);
}

#[test]
fn start_hotfix_fix_dirty_tree_blocks_script() {
    let mut git = hotfix_script_mock(&[false]);
    let script = MockVersionScript::new();
    let err = start_hotfix_fix(&mut git, &Quiet, "urgent-crash", false, None, "main", Some(&script)).unwrap_err();
    assert_eq!(err, "Working tree is not clean. Commit or stash your changes, then re-run.");
    assert_eq!(git.calls(), vec!["list_branches_matching:hotfix/*", "list_tags", "is_working_tree_clean"]);
    assert!(script.calls().is_empty());
}

#[test]
fn start_hotfix_fix_reuse_path_never_runs_script() {
    let mut git = MockGit::new();
    git.branches_matching = strings(&["hotfix/1.0.1"]);
    let script = MockVersionScript::new();
    start_hotfix_fix(&mut git, &Quiet, "urgent-crash", false, None, "main", Some(&script)).unwrap();
    assert_eq!(git.calls(), vec![
        "list_branches_matching:hotfix/*",
        "tag_exists:v1.0.1",
        "checkout:hotfix/1.0.1",
        "create_branch:hotfix-fix/1.0.1/urgent-crash:hotfix/1.0.1",
        "push:hotfix-fix/1.0.1/urgent-crash",
    ]);
    assert!(script.calls().is_empty());
}

#[test]
fn hotfix_no_checkout_skips_script() {
    let mut git = hotfix_script_mock(&[]);
    let script = MockVersionScript::new();
    start_hotfix_fix(&mut git, &Quiet, "urgent-crash", true, None, "main", Some(&script)).unwrap();
    assert_eq!(git.calls(), vec![
        "list_branches_matching:hotfix/*",
        "list_tags",
        "create_branch_no_checkout:hotfix/1.0.1:main",
        "push:hotfix/1.0.1",
        "create_branch_no_checkout:hotfix-fix/1.0.1/urgent-crash:hotfix/1.0.1",
        "push:hotfix-fix/1.0.1/urgent-crash",
    ]);
    assert!(script.calls().is_empty());
}

// --- Worktrees ----------------------------------------------------------------

fn test_worktree_config(editor: &str) -> WorktreeConfig {
    WorktreeConfig { enabled: true, editor: editor.to_string(), base_path: Some("/worktrees".to_string()) }
}

#[test]
fn start_work_branch_worktree_active_forces_no_checkout_and_opens() {
    let mut git = MockGit::new();
    let config = test_worktree_config("code");
    let editor = MockEditor::new();
    let ctx = WorktreeContext { config: &config, editor: &editor };
    start_work_branch(&mut git, &Quiet, "feature", "login-page", "develop", false, Some(&ctx)).unwrap();
    let expected = "/worktrees/beans-gitflow-feature-login-page";
    assert_eq!(git.calls(), vec![
        "create_branch_no_checkout:feature/login-page:develop".to_string(),
        "push:feature/login-page".to_string(),
        "repo_root".to_string(),
        format!("add_worktree:{expected}:feature/login-page"),
    ]);
    assert_eq!(editor.calls(), vec![format!("open:{expected}")]);
}

#[test]
fn start_work_branch_worktree_editor_failure_is_not_fatal() {
    let mut git = MockGit::new();
    let config = test_worktree_config("code");
    let mut editor = MockEditor::new();
    editor.fail = true;
    let ctx = WorktreeContext { config: &config, editor: &editor };
    let result = start_work_branch(&mut git, &Quiet, "feature", "login-page", "develop", false, Some(&ctx));
    assert!(result.is_ok(), "editor failure should be a warning, not fatal");
    assert!(git.calls().iter().any(|c| c.starts_with("add_worktree:")));
}

#[test]
fn start_work_branch_worktree_editor_none_skips_open() {
    let mut git = MockGit::new();
    let config = test_worktree_config("none");
    let editor = MockEditor::new();
    let ctx = WorktreeContext { config: &config, editor: &editor };
    start_work_branch(&mut git, &Quiet, "feature", "login-page", "develop", false, Some(&ctx)).unwrap();
    assert!(editor.calls().is_empty());
    assert!(git.calls().iter().any(|c| c.starts_with("add_worktree:")));
}

#[test]
fn start_release_fix_worktree_active_discovers_and_opens() {
    let mut git = MockGit::new();
    git.branches_matching = strings(&["release/1.2.0"]);
    let config = test_worktree_config("code");
    let editor = MockEditor::new();
    let ctx = WorktreeContext { config: &config, editor: &editor };
    start_release_fix(&mut git, &Quiet, "broken-login", false, Some(&ctx)).unwrap();
    let expected = "/worktrees/beans-gitflow-release-fix-1.2.0-broken-login";
    assert_eq!(git.calls(), vec![
        "list_branches_matching:release/*".to_string(),
        "tag_exists:v1.2.0".to_string(),
        "create_branch_no_checkout:release-fix/1.2.0/broken-login:release/1.2.0".to_string(),
        "push:release-fix/1.2.0/broken-login".to_string(),
        "repo_root".to_string(),
        format!("add_worktree:{expected}:release-fix/1.2.0/broken-login"),
    ]);
    assert_eq!(editor.calls(), vec![format!("open:{expected}")]);
}

#[test]
fn start_hotfix_fix_worktree_active_discovers_and_opens() {
    let mut git = MockGit::new();
    git.branches_matching = strings(&["hotfix/2.5.1"]);
    git.repo_root = "/work/beans-gitflow".to_string();
    let editor = MockEditor::new();
    let config = test_worktree_config("code");
    let ctx = WorktreeContext { config: &config, editor: &editor };
    start_hotfix_fix(&mut git, &Quiet, "npe", false, Some(&ctx), "main", None).unwrap();
    let calls = git.calls();
    assert!(calls.contains(&"create_branch_no_checkout:hotfix-fix/2.5.1/npe:hotfix/2.5.1".to_string()), "calls: {calls:?}");
    assert!(!calls.iter().any(|c| c.starts_with("checkout:")), "calls: {calls:?}");
    assert_eq!(editor.calls().len(), 1);
}

#[test]
fn worktree_path_default_base_is_repo_parent_with_prefixed_folder() {
    let p = worktree_path("/Users/jop/Projects/beans/beans-gitflow", "beans-gitflow", None, "feature/login");
    assert_eq!(p, "/Users/jop/Projects/beans/beans-gitflow-feature-login");
}

#[test]
fn worktree_path_slashes_become_dashes() {
    let p = worktree_path("/repos/beans-gitflow", "beans-gitflow", None, "release-fix/1.2.0/null-crash");
    assert_eq!(p, "/repos/beans-gitflow-release-fix-1.2.0-null-crash");
}

#[test]
fn worktree_path_custom_base_is_used_verbatim() {
    let p = worktree_path("/repos/beans-gitflow", "beans-gitflow", Some("/Users/jop/worktrees"), "feature/login");
    assert_eq!(p, "/Users/jop/worktrees/beans-gitflow-feature-login");
}

#[test]
fn a_leading_tilde_in_the_worktree_directory_is_the_home_directory() {
    assert_eq!(expand_home("~/worktrees", Some("/home/jop")), "/home/jop/worktrees");
    assert_eq!(expand_home("~", Some("/home/jop")), "/home/jop");
    assert_eq!(expand_home("/srv/~x", Some("/home/jop")), "/srv/~x");
    assert_eq!(expand_home("~/worktrees", None), "~/worktrees");
}

fn load(config: &[(&str, &str)]) -> WorktreeConfig {
    let mut git = MockGit::new();
    for (k, v) in config {
        git.config.insert(k.to_string(), v.to_string());
    }
    WorktreeConfig::load(&mut git).unwrap()
}

#[test]
fn config_defaults_when_unset() {
    let cfg = load(&[]);
    assert!(!cfg.enabled);
    assert_eq!(cfg.editor, "code");
    assert_eq!(cfg.base_path, None);
}

#[test]
fn config_reads_all_values() {
    let cfg = load(&[("bflow.worktree.enabled", "true"), ("bflow.worktree.editor", "cursor"), ("bflow.worktree.path", "/wt")]);
    assert!(cfg.enabled);
    assert_eq!(cfg.editor, "cursor");
    assert_eq!(cfg.base_path.as_deref(), Some("/wt"));
}

#[test]
fn config_trims_whitespace_from_editor_and_path() {
    let cfg = load(&[("bflow.worktree.editor", "code "), ("bflow.worktree.path", " /wt ")]);
    assert_eq!(cfg.editor, "code");
    assert_eq!(cfg.base_path.as_deref(), Some("/wt"));
}

#[test]
fn config_whitespace_only_editor_falls_back_to_code() {
    assert_eq!(load(&[("bflow.worktree.editor", "   ")]).editor, "code");
}

#[test]
fn config_enabled_is_false_when_value_is_not_true() {
    assert!(!load(&[("bflow.worktree.enabled", "false")]).enabled);
}

#[test]
fn config_empty_editor_falls_back_to_code() {
    assert_eq!(load(&[("bflow.worktree.editor", "")]).editor, "code");
}

#[test]
fn config_preserves_none_editor() {
    assert_eq!(load(&[("bflow.worktree.editor", "none")]).editor, "none");
}

#[test]
fn set_enabled_writes_global_by_default() {
    let mut git = MockGit::new();
    set_enabled(&mut git, true, false).unwrap();
    assert_eq!(git.calls(), vec!["set_config:global:bflow.worktree.enabled:true"]);
}

#[test]
fn set_enabled_false_writes_local_when_requested() {
    let mut git = MockGit::new();
    set_enabled(&mut git, false, true).unwrap();
    assert_eq!(git.calls(), vec!["set_config:local:bflow.worktree.enabled:false"]);
}

#[test]
fn set_editor_writes_value_verbatim() {
    let mut git = MockGit::new();
    set_editor(&mut git, "cursor", false).unwrap();
    assert_eq!(git.calls(), vec!["set_config:global:bflow.worktree.editor:cursor"]);
}

#[test]
fn set_path_writes_value() {
    let mut git = MockGit::new();
    set_path(&mut git, "/Users/jop/worktrees", false).unwrap();
    assert_eq!(git.calls(), vec!["set_config:global:bflow.worktree.path:/Users/jop/worktrees"]);
}

#[test]
fn use_default_path_unsets_the_key() {
    let mut git = MockGit::new();
    use_default_path(&mut git, false).unwrap();
    assert_eq!(git.calls(), vec!["unset_config:global:bflow.worktree.path"]);
}

#[test]
fn show_status_reads_the_three_keys() {
    let mut git = MockGit::new();
    git.config.insert("bflow.worktree.enabled".to_string(), "true".to_string());
    show_status(&mut git, &Quiet).unwrap();
    let calls = git.calls();
    assert!(calls.iter().any(|c| c == "get_config:bflow.worktree.enabled"));
    assert!(calls.iter().any(|c| c == "get_config:bflow.worktree.editor"));
    assert!(calls.iter().any(|c| c == "get_config:bflow.worktree.path"));
}

#[test]
fn editor_presets_map_friendly_names_to_commands() {
    let presets = editor_presets();
    let map = |label: &str| presets.iter().find(|(l, _)| *l == label).map(|(_, c)| *c);
    assert_eq!(map("VS Code"), Some("code"));
    assert_eq!(map("Cursor"), Some("cursor"));
    assert_eq!(map("PyCharm"), Some("pycharm"));
}

// --- Running an action --------------------------------------------------------

fn run(git: &mut MockGit, branch_type: &BranchType, branch: &str, action: &Action, sync: bool) -> Result<(), String> {
    run_action(
        git,
        &mut MockHosting::new(),
        &MockPrompter::new(),
        &Quiet,
        branch_type,
        branch,
        action,
        sync,
        None,
        "/repos/beans-gitflow",
        &RepoConfig::default(),
        None,
        None,
    )
}

#[test]
fn a_run_first_brings_the_current_branch_up_to_its_remote() {
    let mut git = MockGit::new();
    git.ff_merge_error = Some("merge: origin/feature/new - not something we can merge".to_string());
    let action = Action::StartWorkBranch {
        prefix: "fix".into(),
        name: "x".into(),
        from: "develop".into(),
        no_checkout: false,
        no_worktree: false,
    };
    run(&mut git, &BranchType::Develop, "develop", &action, true).unwrap();
    assert_eq!(git.calls(), vec!["ff_merge:origin/develop", "create_branch:fix/x:develop", "push:fix/x"]);
    git.ff_merge_error = Some("fatal: Not possible to fast-forward, aborting.".to_string());
    let err = run(&mut git, &BranchType::Develop, "develop", &action, true).unwrap_err();
    assert_eq!(err, "fatal: Not possible to fast-forward, aborting.");
}

#[test]
fn release_only_actions_are_refused_elsewhere() {
    let mut git = MockGit::new();
    let err = run(&mut git, &BranchType::Develop, "develop", &Action::BumpVersion, false).unwrap_err();
    assert_eq!(err, "This command is only valid on a release branch.");
    let err = run(&mut git, &BranchType::Develop, "develop", &Action::AbortFinish, false).unwrap_err();
    assert_eq!(err, "Abort is handled before any flow runs.");
    assert!(git.calls().is_empty());
}

// --- The double's recording format, which every call-sequence test relies on ---

#[test]
fn stash_push_records_call() {
    let mut git = MockGit::new();
    git.stash_push().unwrap();
    assert_eq!(git.calls(), vec!["stash_push"]);
}

#[test]
fn stash_pop_records_call() {
    let mut git = MockGit::new();
    git.stash_pop().unwrap();
    assert_eq!(git.calls(), vec!["stash_pop"]);
}

#[test]
fn stash_test_create_branch_no_checkout_records_call() {
    let mut git = MockGit::new();
    git.create_branch_no_checkout("feature/test", "develop").unwrap();
    assert_eq!(git.calls(), vec!["create_branch_no_checkout:feature/test:develop"]);
}

#[test]
fn mock_contract_test_create_branch_no_checkout_records_call() {
    let mut git = MockGit::new();
    git.create_branch_no_checkout("feature/test", "develop").unwrap();
    assert_eq!(git.calls(), vec!["create_branch_no_checkout:feature/test:develop"]);
}
