//! Git: the branch taxonomy, the interface through which the flows drive git, and
//! the reading of what the git CLI prints.
use vstd::prelude::*;

pub mod branch;

use crate::paths::{path_exists, path_join};
use crate::version_script::signed_decimal;
use crate::text::{cat, spec_parse_u32,
    chars_of, contains_seq, contains_str, find_in, has_prefix, lemma_split_on_nonempty, line_bounds, line_ranges, lines_of, range_eq, split_on, split_once, split_ranges, substring, trim,
    trim_bounds, views,
};

verus! {

/// An operation the library asks of git.
#[derive(Debug, Clone, Copy, PartialEq, Eq, Structural)]
pub enum GitOp {
    CurrentBranch,
    Fetch,
    Checkout,
    CreateBranch,
    CreateBranchNoCheckout,
    Push,
    PushTag,
    CreateTag,
    CreateTagAt,
    Merge,
    Pull,
    FfMerge,
    ListTags,
    ListBranchesMatching,
    IsWorkingTreeClean,
    DeleteBranchLocal,
    DeleteBranchRemote,
    TagsOnBranch,
    ListRemoteBranches,
    MergeBase,
    RevListCount,
    StashPush,
    StashPop,
    CommitMessages,
    StageAll,
    Commit,
    IsAncestor,
    TagExists,
    LocalBranchExists,
    RemoteBranchExists,
    RemoteTagExists,
    IsPushed,
    IsMidMerge,
    HasUnmergedPaths,
    GitDir,
    RepoRoot,
    RevParse,
    HeadSha,
    RemoteUrl,
    BranchSha,
    TagCommitSha,
    GetConfig,
    SetConfig,
    UnsetConfig,
    StashPushWithMessage,
    FindStashByMessage,
    StashPopRef,
    IsLinkedWorktree,
    DetachHead,
    RemoveCurrentWorktree,
    AddWorktree,
}

/// What git answered.
pub ghost enum GitAnswer {
    /// The operation succeeded (and has no answer beyond that).
    Done,
    Flag(bool),
    Text(Seq<char>),
    Texts(Seq<Seq<char>>),
    Count(u32),
    MaybeText(Option<Seq<char>>),
    /// The operation failed with this message.
    Failed(Seq<char>),
}

/// One operation asked of git: what, with which arguments, and the answer.
pub ghost struct GitEvent {
    pub op: GitOp,
    pub args: Seq<Seq<char>>,
    pub answer: GitAnswer,
}

pub open spec fn bool_text(b: bool) -> Seq<char> {
    if b {
        "true"@
    } else {
        "false"@
    }
}

pub open spec fn unit_answer(r: Result<(), String>) -> GitAnswer {
    match r {
        Ok(_) => GitAnswer::Done,
        Err(e) => GitAnswer::Failed(e@),
    }
}

pub open spec fn flag_answer(r: Result<bool, String>) -> GitAnswer {
    match r {
        Ok(b) => GitAnswer::Flag(b),
        Err(e) => GitAnswer::Failed(e@),
    }
}

pub open spec fn text_answer(r: Result<String, String>) -> GitAnswer {
    match r {
        Ok(t) => GitAnswer::Text(t@),
        Err(e) => GitAnswer::Failed(e@),
    }
}

pub open spec fn texts_answer(r: Result<Vec<String>, String>) -> GitAnswer {
    match r {
        Ok(v) => GitAnswer::Texts(views(v@)),
        Err(e) => GitAnswer::Failed(e@),
    }
}

pub open spec fn count_answer(r: Result<u32, String>) -> GitAnswer {
    match r {
        Ok(n) => GitAnswer::Count(n),
        Err(e) => GitAnswer::Failed(e@),
    }
}

pub open spec fn maybe_text_answer(r: Result<Option<String>, String>) -> GitAnswer {
    match r {
        Ok(Some(t)) => GitAnswer::MaybeText(Some(t@)),
        Ok(None) => GitAnswer::MaybeText(None),
        Err(e) => GitAnswer::Failed(e@),
    }
}

/// `h1` is `h0` with more operations after it.
pub open spec fn extends(h1: Seq<GitEvent>, h0: Seq<GitEvent>) -> bool {
    h0.len() <= h1.len() && forall|i: int| 0 <= i < h0.len() ==> #[trigger] h1[i] == h0[i]
}

/// An operation that changes the local repository: the checkout, a branch,
/// a commit, a merge, a tag at HEAD, the stash, a worktree or the config.
pub open spec fn changes_local(op: GitOp) -> bool {
    ||| op == GitOp::Checkout
    ||| op == GitOp::Merge
    ||| op == GitOp::FfMerge
    ||| op == GitOp::Pull
    ||| op == GitOp::CreateTag
    ||| op == GitOp::CreateBranch
    ||| op == GitOp::CreateBranchNoCheckout
    ||| op == GitOp::StageAll
    ||| op == GitOp::Commit
    ||| op == GitOp::DeleteBranchLocal
    ||| op == GitOp::StashPush
    ||| op == GitOp::StashPop
    ||| op == GitOp::StashPushWithMessage
    ||| op == GitOp::StashPopRef
    ||| op == GitOp::DetachHead
    ||| op == GitOp::RemoveCurrentWorktree
    ||| op == GitOp::AddWorktree
    ||| op == GitOp::SetConfig
    ||| op == GitOp::UnsetConfig
}

/// Nothing between `h0` and `h` changed the local repository.
pub open spec fn no_local_change(h0: Seq<GitEvent>, h: Seq<GitEvent>) -> bool {
    forall|i: int| h0.len() <= i < h.len() ==> !changes_local(#[trigger] h[i].op)
}

/// An operation that puts commits on a branch: a merge, a fast-forward, a
/// pull, a commit or a branch push.
pub open spec fn lands_commits(op: GitOp) -> bool {
    ||| op == GitOp::Merge
    ||| op == GitOp::FfMerge
    ||| op == GitOp::Pull
    ||| op == GitOp::Commit
    ||| op == GitOp::Push
}

/// Nothing between `h0` and `h` put commits on a branch.
pub open spec fn no_commits_landed(h0: Seq<GitEvent>, h: Seq<GitEvent>) -> bool {
    forall|i: int| h0.len() <= i < h.len() ==> !lands_commits(#[trigger] h[i].op)
}

/// Nothing between `h0` and `h` put commits on a branch, but pushes of the
/// branch `own` itself.
pub open spec fn only_own_pushed(h0: Seq<GitEvent>, h: Seq<GitEvent>, own: Seq<char>) -> bool {
    forall|i: int|
        h0.len() <= i < h.len() ==> (lands_commits(#[trigger] h[i].op) ==> h[i].op == GitOp::Push && h[i].args == seq![own])
}

/// Operation `k` of `h` is `op` with `args`.
pub open spec fn call_at(h: Seq<GitEvent>, k: int, op: GitOp, args: Seq<Seq<char>>) -> bool {
    0 <= k < h.len() && h[k].op == op && h[k].args == args
}

pub open spec fn git_event(op: GitOp, args: Seq<Seq<char>>, answer: GitAnswer) -> GitEvent {
    GitEvent { op, args, answer }
}

/// From operation `k` of `h` on, git was asked the `steps` (each an operation
/// with its arguments) in order and nothing else, each only after the one
/// before it succeeded: the run stops at the first failure, whose error is
/// `r`'s, and `r` is `Ok` only when every step was made and succeeded.
pub open spec fn ran_in_order(h: Seq<GitEvent>, k: int, steps: Seq<(GitOp, Seq<Seq<char>>)>, r: Result<(), String>) -> bool {
    &&& 0 <= k <= h.len() <= k + steps.len()
    &&& forall|i: int| 0 <= i < h.len() - k ==> call_at(h, k + i, (#[trigger] steps[i]).0, steps[i].1)
    &&& forall|i: int| k <= i < h.len() - 1 ==> (#[trigger] h[i]).answer == GitAnswer::Done
    &&& match r {
        Ok(_) => h.len() == k + steps.len() && (h.len() > k ==> h.last().answer == GitAnswer::Done),
        Err(e) => h.len() > k && h.last().answer == GitAnswer::Failed(e@),
    }
}

/// Interface to git. Its answers come from a repository on disk, so no method
/// promises anything of its answer; each one records what it was asked and
/// what it answered in `history`, which is how the flows' contracts say what
/// they asked of git and what they did with the answers.
pub trait Git {
    /// Every operation asked of this git so far, in order.
    open spec fn history(&self) -> Seq<GitEvent> {
        Seq::empty()
    }

    fn current_branch(&mut self) -> (r: Result<String, String>)
        ensures
            final(self).history() == old(self).history().push(git_event(GitOp::CurrentBranch, Seq::empty(), text_answer(r))),
    ;

    fn fetch(&mut self) -> (r: Result<(), String>)
        ensures
            final(self).history() == old(self).history().push(git_event(GitOp::Fetch, Seq::empty(), unit_answer(r))),
    ;

    fn checkout(&mut self, branch: &str) -> (r: Result<(), String>)
        ensures
            final(self).history() == old(self).history().push(git_event(GitOp::Checkout, seq![branch@], unit_answer(r))),
    ;

    fn create_branch(&mut self, branch: &str, from: &str) -> (r: Result<(), String>)
        ensures
            final(self).history() == old(self).history().push(git_event(GitOp::CreateBranch, seq![branch@, from@], unit_answer(r))),
    ;

    fn create_branch_no_checkout(&mut self, branch: &str, from: &str) -> (r: Result<(), String>)
        ensures
            final(self).history() == old(self).history().push(git_event(GitOp::CreateBranchNoCheckout, seq![branch@, from@], unit_answer(r))),
    ;

    fn push(&mut self, branch: &str) -> (r: Result<(), String>)
        ensures
            final(self).history() == old(self).history().push(git_event(GitOp::Push, seq![branch@], unit_answer(r))),
    ;

    fn push_tag(&mut self, tag: &str) -> (r: Result<(), String>)
        ensures
            final(self).history() == old(self).history().push(git_event(GitOp::PushTag, seq![tag@], unit_answer(r))),
    ;

    fn create_tag(&mut self, tag: &str, message: &str) -> (r: Result<(), String>)
        ensures
            final(self).history() == old(self).history().push(git_event(GitOp::CreateTag, seq![tag@, message@], unit_answer(r))),
    ;

    /// Annotated tag `tag` at commit `sha` rather than at HEAD.
    fn create_tag_at(&mut self, tag: &str, message: &str, sha: &str) -> (r: Result<(), String>)
        ensures
            final(self).history() == old(self).history().push(git_event(GitOp::CreateTagAt, seq![tag@, message@, sha@], unit_answer(r))),
    ;

    fn merge(&mut self, branch: &str, message: &str) -> (r: Result<(), String>)
        ensures
            final(self).history() == old(self).history().push(git_event(GitOp::Merge, seq![branch@, message@], unit_answer(r))),
    ;

    fn pull(&mut self, branch: &str) -> (r: Result<(), String>)
        ensures
            final(self).history() == old(self).history().push(git_event(GitOp::Pull, seq![branch@], unit_answer(r))),
    ;

    /// Fast-forward the current branch to `target`.
    fn ff_merge(&mut self, target: &str) -> (r: Result<(), String>)
        ensures
            final(self).history() == old(self).history().push(git_event(GitOp::FfMerge, seq![target@], unit_answer(r))),
    ;

    fn list_tags(&mut self) -> (r: Result<Vec<String>, String>)
        ensures
            final(self).history() == old(self).history().push(git_event(GitOp::ListTags, Seq::empty(), texts_answer(r))),
    ;

    fn list_branches_matching(&mut self, pattern: &str) -> (r: Result<Vec<String>, String>)
        ensures
            final(self).history() == old(self).history().push(git_event(GitOp::ListBranchesMatching, seq![pattern@], texts_answer(r))),
    ;

    fn is_working_tree_clean(&mut self) -> (r: Result<bool, String>)
        ensures
            final(self).history() == old(self).history().push(git_event(GitOp::IsWorkingTreeClean, Seq::empty(), flag_answer(r))),
    ;

    fn delete_branch_local(&mut self, branch: &str) -> (r: Result<(), String>)
        ensures
            final(self).history() == old(self).history().push(git_event(GitOp::DeleteBranchLocal, seq![branch@], unit_answer(r))),
    ;

    fn delete_branch_remote(&mut self, branch: &str) -> (r: Result<(), String>)
        ensures
            final(self).history() == old(self).history().push(git_event(GitOp::DeleteBranchRemote, seq![branch@], unit_answer(r))),
    ;

    fn tags_on_branch(&mut self, branch: &str) -> (r: Result<Vec<String>, String>)
        ensures
            final(self).history() == old(self).history().push(git_event(GitOp::TagsOnBranch, seq![branch@], texts_answer(r))),
    ;

    fn list_remote_branches(&mut self) -> (r: Result<Vec<String>, String>)
        ensures
            final(self).history() == old(self).history().push(git_event(GitOp::ListRemoteBranches, Seq::empty(), texts_answer(r))),
    ;

    fn merge_base(&mut self, a: &str, b: &str) -> (r: Result<String, String>)
        ensures
            final(self).history() == old(self).history().push(git_event(GitOp::MergeBase, seq![a@, b@], text_answer(r))),
    ;

    fn rev_list_count(&mut self, from: &str, to: &str) -> (r: Result<u32, String>)
        ensures
            final(self).history() == old(self).history().push(git_event(GitOp::RevListCount, seq![from@, to@], count_answer(r))),
    ;

    fn stash_push(&mut self) -> (r: Result<(), String>)
        ensures
            final(self).history() == old(self).history().push(git_event(GitOp::StashPush, Seq::empty(), unit_answer(r))),
    ;

    fn stash_pop(&mut self) -> (r: Result<(), String>)
        ensures
            final(self).history() == old(self).history().push(git_event(GitOp::StashPop, Seq::empty(), unit_answer(r))),
    ;

    fn commit_messages(&mut self, from: &str, to: &str) -> (r: Result<Vec<String>, String>)
        ensures
            final(self).history() == old(self).history().push(git_event(GitOp::CommitMessages, seq![from@, to@], texts_answer(r))),
    ;

    fn stage_all(&mut self) -> (r: Result<(), String>)
        ensures
            final(self).history() == old(self).history().push(git_event(GitOp::StageAll, Seq::empty(), unit_answer(r))),
    ;

    fn commit(&mut self, message: &str) -> (r: Result<(), String>)
        ensures
            final(self).history() == old(self).history().push(git_event(GitOp::Commit, seq![message@], unit_answer(r))),
    ;

    fn is_ancestor(&mut self, ancestor: &str, descendant: &str) -> (r: Result<bool, String>)
        ensures
            final(self).history() == old(self).history().push(git_event(GitOp::IsAncestor, seq![ancestor@, descendant@], flag_answer(r))),
    ;

    fn tag_exists(&mut self, tag: &str) -> (r: Result<bool, String>)
        ensures
            final(self).history() == old(self).history().push(git_event(GitOp::TagExists, seq![tag@], flag_answer(r))),
    ;

    fn local_branch_exists(&mut self, branch: &str) -> (r: Result<bool, String>)
        ensures
            final(self).history() == old(self).history().push(git_event(GitOp::LocalBranchExists, seq![branch@], flag_answer(r))),
    ;

    fn remote_branch_exists(&mut self, branch: &str) -> (r: Result<bool, String>)
        ensures
            final(self).history() == old(self).history().push(git_event(GitOp::RemoteBranchExists, seq![branch@], flag_answer(r))),
    ;

    fn remote_tag_exists(&mut self, tag: &str) -> (r: Result<bool, String>)
        ensures
            final(self).history() == old(self).history().push(git_event(GitOp::RemoteTagExists, seq![tag@], flag_answer(r))),
    ;

    fn is_pushed(&mut self, branch: &str) -> (r: Result<bool, String>)
        ensures
            final(self).history() == old(self).history().push(git_event(GitOp::IsPushed, seq![branch@], flag_answer(r))),
    ;

    fn is_mid_merge(&mut self) -> (r: Result<bool, String>)
        ensures
            final(self).history() == old(self).history().push(git_event(GitOp::IsMidMerge, Seq::empty(), flag_answer(r))),
    ;

    fn has_unmerged_paths(&mut self) -> (r: Result<bool, String>)
        ensures
            final(self).history() == old(self).history().push(git_event(GitOp::HasUnmergedPaths, Seq::empty(), flag_answer(r))),
    ;

    fn git_dir(&mut self) -> (r: Result<String, String>)
        ensures
            final(self).history() == old(self).history().push(git_event(GitOp::GitDir, Seq::empty(), text_answer(r))),
    ;

    fn repo_root(&mut self) -> (r: Result<String, String>)
        ensures
            final(self).history() == old(self).history().push(git_event(GitOp::RepoRoot, Seq::empty(), text_answer(r))),
    ;

    fn rev_parse(&mut self, refname: &str) -> (r: Result<String, String>)
        ensures
            final(self).history() == old(self).history().push(git_event(GitOp::RevParse, seq![refname@], text_answer(r))),
    ;

    /// The commit HEAD points at.
    fn head_sha(&mut self) -> (r: Result<String, String>)
        ensures
            final(self).history() == old(self).history().push(git_event(GitOp::HeadSha, Seq::empty(), text_answer(r))),
    ;

    /// The URL of the `origin` remote.
    fn remote_url(&mut self) -> (r: Result<String, String>)
        ensures
            final(self).history() == old(self).history().push(git_event(GitOp::RemoteUrl, Seq::empty(), text_answer(r))),
    ;

    /// The commit a local branch points at.
    fn branch_sha(&mut self, branch: &str) -> (r: Result<String, String>)
        ensures
            final(self).history() == old(self).history().push(git_event(GitOp::BranchSha, seq![branch@], text_answer(r))),
    ;

    /// The commit a tag points at.
    fn tag_commit_sha(&mut self, tag: &str) -> (r: Result<String, String>)
        ensures
            final(self).history() == old(self).history().push(git_event(GitOp::TagCommitSha, seq![tag@], text_answer(r))),
    ;

    fn get_config(&mut self, key: &str) -> (r: Result<Option<String>, String>)
        ensures
            final(self).history() == old(self).history().push(git_event(GitOp::GetConfig, seq![key@], maybe_text_answer(r))),
    ;

    fn set_config(&mut self, key: &str, value: &str, global: bool) -> (r: Result<(), String>)
        ensures
            final(self).history() == old(self).history().push(git_event(GitOp::SetConfig, seq![key@, value@, bool_text(global)], unit_answer(r))),
    ;

    fn unset_config(&mut self, key: &str, global: bool) -> (r: Result<(), String>)
        ensures
            final(self).history() == old(self).history().push(git_event(GitOp::UnsetConfig, seq![key@, bool_text(global)], unit_answer(r))),
    ;

    fn stash_push_with_message(&mut self, msg: &str) -> (r: Result<(), String>)
        ensures
            final(self).history() == old(self).history().push(git_event(GitOp::StashPushWithMessage, seq![msg@], unit_answer(r))),
    ;

    fn find_stash_by_message(&mut self, msg: &str) -> (r: Result<Option<String>, String>)
        ensures
            final(self).history() == old(self).history().push(git_event(GitOp::FindStashByMessage, seq![msg@], maybe_text_answer(r))),
    ;

    fn stash_pop_ref(&mut self, stash_ref: &str) -> (r: Result<(), String>)
        ensures
            final(self).history() == old(self).history().push(git_event(GitOp::StashPopRef, seq![stash_ref@], unit_answer(r))),
    ;

    /// Whether the current checkout is a linked worktree rather than the
    /// repository's main one.
    fn is_linked_worktree(&mut self) -> (r: Result<bool, String>)
        ensures
            final(self).history() == old(self).history().push(git_event(GitOp::IsLinkedWorktree, Seq::empty(), flag_answer(r))),
    ;

    /// Detach HEAD, so the branch it was on can be deleted.
    fn detach_head(&mut self) -> (r: Result<(), String>)
        ensures
            final(self).history() == old(self).history().push(git_event(GitOp::DetachHead, Seq::empty(), unit_answer(r))),
    ;

    /// Remove the linked worktree the process stands in.
    fn remove_current_worktree(&mut self) -> (r: Result<(), String>)
        ensures
            final(self).history() == old(self).history().push(git_event(GitOp::RemoveCurrentWorktree, Seq::empty(), unit_answer(r))),
    ;

    /// Add a worktree at `path` with `branch` checked out in it.
    fn add_worktree(&mut self, path: &str, branch: &str) -> (r: Result<(), String>)
        ensures
            final(self).history() == old(self).history().push(git_event(GitOp::AddWorktree, seq![path@, branch@], unit_answer(r))),
    ;

}

// ---------------------------------------------------------------------------
// Reading what the git CLI prints
// ---------------------------------------------------------------------------

/// `str::trim_start_matches(p)`: every leading copy of `p` removed.
pub open spec fn strip_all_prefix(s: Seq<char>, p: Seq<char>) -> Seq<char>
    decreases s.len(),
{
    if p.len() > 0 && has_prefix(s, p) {
        strip_all_prefix(s.skip(p.len() as int), p)
    } else {
        s
    }
}

/// The non-empty lines of a listing (`git tag --list`, `git tag --merged`).
pub open spec fn listed_names(out: Seq<char>) -> Seq<Seq<char>> {
    lines_of(out).filter(|l: Seq<char>| l.len() > 0)
}

/// Branch names as listed under `origin/` or locally, the remote prefix removed.
pub open spec fn branch_names(out: Seq<char>) -> Seq<Seq<char>> {
    lines_of(out).map_values(|l: Seq<char>| strip_all_prefix(l, "origin/"@))
}

/// Remote branches: their names without `origin/`, empty names and `HEAD` left out.
pub open spec fn remote_branch_names(out: Seq<char>) -> Seq<Seq<char>> {
    branch_names(out).filter(|b: Seq<char>| b.len() > 0 && b != "HEAD"@)
}

/// Commit messages of a `%B%x00` log: the NUL-separated bodies, trimmed, the
/// empty ones left out.
pub open spec fn commit_bodies(out: Seq<char>) -> Seq<Seq<char>> {
    split_on(out, '\0').map_values(|m: Seq<char>| trim(m)).filter(|m: Seq<char>| m.len() > 0)
}

/// A porcelain status line that marks a conflict: `U` on either side, or
/// both sides `A` or both `D`. The two status columns are the first two
/// bytes, so a line that starts with a non-ASCII character marks none.
pub open spec fn conflict_line(l: Seq<char>) -> bool {
    &&& l.len() >= 2
    &&& (l[0] as u32) < 128
    &&& (l[0] == 'U' || l[1] == 'U' || (l[0] == 'A' && l[1] == 'A') || (l[0] == 'D' && l[1] == 'D'))
}

/// The stash ref of the first `git stash list --format='%gd %s'` line whose
/// subject holds `msg`.
pub open spec fn stash_ref_of(lines: Seq<Seq<char>>, msg: Seq<char>) -> Option<Seq<char>>
    decreases lines.len(),
{
    if lines.len() == 0 {
        None
    } else {
        match split_once(lines[0], ' ') {
            Some((r, rest)) => if contains_seq(rest, msg) {
                Some(r)
            } else {
                stash_ref_of(lines.drop_first(), msg)
            },
            None => stash_ref_of(lines.drop_first(), msg),
        }
    }
}

/// `str::trim_start_matches(p)` on the characters `lo..hi` of `v`: where the
/// rest begins.
fn strip_all_prefix_at(v: &Vec<char>, lo: usize, hi: usize, p: &str) -> (r: usize)
    requires
        lo <= hi <= v@.len(),
        p@.len() > 0,
    ensures
        lo <= r <= hi,
        v@.subrange(r as int, hi as int) == strip_all_prefix(v@.subrange(lo as int, hi as int), p@),
{
    let n = p.unicode_len();
    let mut a: usize = lo;
    while hi - a >= n && range_eq(v, a, a + n, p)
        invariant
            lo <= a <= hi <= v@.len(),
            n == p@.len(),
            n > 0,
            strip_all_prefix(v@.subrange(lo as int, hi as int), p@) == strip_all_prefix(
                v@.subrange(a as int, hi as int),
                p@,
            ),
        decreases hi - a,
    {
        assert(v@.subrange(a as int, hi as int).take(n as int) =~= v@.subrange(a as int, a + n));
        assert(v@.subrange(a as int, hi as int).skip(n as int) =~= v@.subrange(a + n, hi as int));
        a = a + n;
    }
    if hi - a >= n {
        assert(v@.subrange(a as int, hi as int).take(n as int) =~= v@.subrange(a as int, a + n));
    }
    a
}

/// The non-empty lines of a tag listing.
pub fn parse_listing(out: &str) -> (r: Vec<String>)
    ensures
        views(r@) == listed_names(out@),
{
    let v = chars_of(out);
    let pieces = line_ranges(&v);
    proof {
        lemma_split_on_nonempty(v@, '\n');
    }
    let p = pieces.len();
    let n = if pieces[p - 1].0 == pieces[p - 1].1 {
        p - 1
    } else {
        p
    };
    let ghost ls = lines_of(v@);
    let mut r: Vec<String> = Vec::new();
    let mut i: usize = 0;
    while i < n
        invariant
            v@ == out@,
            ls == lines_of(v@),
            n == ls.len(),
            i <= n,
            pieces@.len() == split_on(v@, '\n').len(),
            forall|k: int|
                0 <= k < pieces@.len() ==> {
                    &&& (#[trigger] pieces@[k]).0 <= pieces@[k].1 <= v@.len()
                    &&& v@.subrange(pieces@[k].0 as int, pieces@[k].1 as int) == split_on(v@, '\n')[k]
                },
            views(r@) == ls.take(i as int).filter(|l: Seq<char>| l.len() > 0),
        decreases n - i,
    {
        let (lo, hi) = line_bounds(&v, &pieces, i);
        let ghost before = r@;
        if lo < hi {
            r.push(substring(out, lo, hi));
            assert(views(r@) =~= views(before).push(ls[i as int]));
        }
        proof {
            reveal(Seq::filter);
            assert(ls.take(i + 1).drop_last() =~= ls.take(i as int));
        }
        i = i + 1;
    }
    assert(ls.take(n as int) =~= ls);
    r
}

/// Remote branch names from `git for-each-ref --format=%(refname:short) refs/remotes/origin/`.
pub fn parse_remote_branches(out: &str) -> (r: Vec<String>)
    ensures
        views(r@) == remote_branch_names(out@),
{
    let v = chars_of(out);
    let pieces = line_ranges(&v);
    proof {
        lemma_split_on_nonempty(v@, '\n');
    }
    let p = pieces.len();
    let n = if pieces[p - 1].0 == pieces[p - 1].1 {
        p - 1
    } else {
        p
    };
    let ghost bs = branch_names(v@);
    let mut r: Vec<String> = Vec::new();
    let mut i: usize = 0;
    while i < n
        invariant
            v@ == out@,
            bs == branch_names(v@),
            n == lines_of(v@).len(),
            i <= n,
            pieces@.len() == split_on(v@, '\n').len(),
            forall|k: int|
                0 <= k < pieces@.len() ==> {
                    &&& (#[trigger] pieces@[k]).0 <= pieces@[k].1 <= v@.len()
                    &&& v@.subrange(pieces@[k].0 as int, pieces@[k].1 as int) == split_on(v@, '\n')[k]
                },
            views(r@) == bs.take(i as int).filter(|b: Seq<char>| b.len() > 0 && b != "HEAD"@),
        decreases n - i,
    {
        let (lo, hi) = line_bounds(&v, &pieces, i);
        proof {
            reveal_strlit("origin/");
        }
        let a = strip_all_prefix_at(&v, lo, hi, "origin/");
        assert(v@.subrange(a as int, hi as int) == bs[i as int]);
        let ghost before = r@;
        if a < hi && !range_eq(&v, a, hi, "HEAD") {
            r.push(substring(out, a, hi));
            assert(views(r@) =~= views(before).push(bs[i as int]));
        }
        proof {
            reveal(Seq::filter);
            assert(bs.take(i + 1).drop_last() =~= bs.take(i as int));
        }
        i = i + 1;
    }
    assert(bs.take(n as int) =~= bs);
    r
}

/// Branch names from a `for-each-ref` over remote and local refs: each name
/// once, without `origin/`, empty names left out.
#[verifier::spinoff_prover]
#[verifier::rlimit(30)]
pub fn parse_branch_union(out: &str) -> (r: Vec<String>)
    ensures
        forall|i: int, j: int| 0 <= i < j < r@.len() ==> r@[i]@ != r@[j]@,
        forall|i: int| 0 <= i < r@.len() ==> branch_names(out@).contains(#[trigger] r@[i]@) && r@[i]@.len() > 0,
        forall|b: Seq<char>| #[trigger] branch_names(out@).contains(b) && b.len() > 0 ==> views(r@).contains(b),
{
    let v = chars_of(out);
    let pieces = line_ranges(&v);
    proof {
        lemma_split_on_nonempty(v@, '\n');
    }
    let p = pieces.len();
    let n = if pieces[p - 1].0 == pieces[p - 1].1 {
        p - 1
    } else {
        p
    };
    let ghost bs = branch_names(v@);
    let mut r: Vec<String> = Vec::new();
    let mut i: usize = 0;
    while i < n
        invariant
            v@ == out@,
            bs == branch_names(v@),
            n == bs.len(),
            i <= n,
            pieces@.len() == split_on(v@, '\n').len(),
            forall|k: int|
                0 <= k < pieces@.len() ==> {
                    &&& (#[trigger] pieces@[k]).0 <= pieces@[k].1 <= v@.len()
                    &&& v@.subrange(pieces@[k].0 as int, pieces@[k].1 as int) == split_on(v@, '\n')[k]
                },
            forall|x: int, y: int| 0 <= x < y < r@.len() ==> r@[x]@ != r@[y]@,
            forall|x: int| 0 <= x < r@.len() ==> bs.contains(#[trigger] r@[x]@) && r@[x]@.len() > 0,
            forall|k: int| 0 <= k < i && bs[k].len() > 0 ==> views(r@).contains(#[trigger] bs[k]),
        decreases n - i,
    {
        let (lo, hi) = line_bounds(&v, &pieces, i);
        proof {
            reveal_strlit("origin/");
        }
        let a = strip_all_prefix_at(&v, lo, hi, "origin/");
        let name = substring(out, a, hi);
        assert(name@ == bs[i as int]);
        if a < hi {
            let mut seen = false;
            let mut j: usize = 0;
            while j < r.len()
                invariant
                    j <= r@.len(),
                    seen ==> views(r@).contains(name@),
                    !seen ==> forall|x: int| 0 <= x < j ==> r@[x]@ != name@,
                decreases r@.len() - j,
            {
                if range_eq_strings(&r[j], &name) {
                    assert(views(r@)[j as int] == name@);
                    seen = true;
                }
                j = j + 1;
            }
            if !seen {
                let ghost before = r@;
                r.push(name);
                assert(views(r@) =~= views(before).push(bs[i as int]));
                assert forall|k: int| 0 <= k < i + 1 && bs[k].len() > 0 implies views(r@).contains(
                    #[trigger] bs[k],
                ) by {
                    if k < i {
                        let w = choose|w: int| 0 <= w < views(before).len() && views(before)[w] == bs[k];
                        assert(views(r@)[w] == bs[k]);
                    } else {
                        assert(views(r@)[before.len() as int] == bs[k]);
                    }
                }
            }
        }
        i = i + 1;
    }
    r
}

/// Whether two strings are equal.
fn range_eq_strings(a: &String, b: &String) -> (r: bool)
    ensures
        r == (a@ == b@),
{
    let v = chars_of(a.as_str());
    assert(v@.subrange(0, v@.len() as int) =~= v@);
    range_eq(&v, 0, v.len(), b.as_str())
}

/// Commit messages from a `git log --format=%B%x00` listing.
pub fn parse_commit_messages(out: &str) -> (r: Vec<String>)
    ensures
        views(r@) == commit_bodies(out@),
{
    let v = chars_of(out);
    let pieces = split_ranges(&v, '\0');
    let ghost ms = split_on(v@, '\0').map_values(|m: Seq<char>| trim(m));
    let mut r: Vec<String> = Vec::new();
    let mut i: usize = 0;
    while i < pieces.len()
        invariant
            v@ == out@,
            ms == split_on(v@, '\0').map_values(|m: Seq<char>| trim(m)),
            pieces@.len() == split_on(v@, '\0').len(),
            forall|k: int|
                0 <= k < pieces@.len() ==> {
                    &&& (#[trigger] pieces@[k]).0 <= pieces@[k].1 <= v@.len()
                    &&& v@.subrange(pieces@[k].0 as int, pieces@[k].1 as int) == split_on(v@, '\0')[k]
                },
            i <= pieces@.len(),
            views(r@) == ms.take(i as int).filter(|m: Seq<char>| m.len() > 0),
        decreases pieces@.len() - i,
    {
        let (lo, hi) = trim_bounds(&v, pieces[i].0, pieces[i].1);
        assert(v@.subrange(lo as int, hi as int) == ms[i as int]);
        let ghost before = r@;
        if lo < hi {
            r.push(substring(out, lo, hi));
            assert(views(r@) =~= views(before).push(ms[i as int]));
        }
        proof {
            reveal(Seq::filter);
            assert(ms.take(i + 1).drop_last() =~= ms.take(i as int));
        }
        i = i + 1;
    }
    assert(ms.take(pieces@.len() as int) =~= ms);
    r
}

/// Whether `git status --porcelain` output shows an unmerged path.
#[verifier::spinoff_prover]
pub fn porcelain_has_conflicts(out: &str) -> (r: bool)
    ensures
        r == exists|i: int| 0 <= i < lines_of(out@).len() && conflict_line(#[trigger] lines_of(out@)[i]),
{
    let v = chars_of(out);
    let pieces = line_ranges(&v);
    proof {
        lemma_split_on_nonempty(v@, '\n');
    }
    let p = pieces.len();
    let n = if pieces[p - 1].0 == pieces[p - 1].1 {
        p - 1
    } else {
        p
    };
    let ghost ls = lines_of(v@);
    let mut i: usize = 0;
    while i < n
        invariant
            v@ == out@,
            ls == lines_of(v@),
            n == ls.len(),
            i <= n,
            pieces@.len() == split_on(v@, '\n').len(),
            forall|k: int|
                0 <= k < pieces@.len() ==> {
                    &&& (#[trigger] pieces@[k]).0 <= pieces@[k].1 <= v@.len()
                    &&& v@.subrange(pieces@[k].0 as int, pieces@[k].1 as int) == split_on(v@, '\n')[k]
                },
            forall|k: int| 0 <= k < i ==> !conflict_line(#[trigger] ls[k]),
        decreases n - i,
    {
        let (lo, hi) = line_bounds(&v, &pieces, i);
        if hi - lo >= 2 {
            let x = v[lo];
            let y = v[lo + 1];
            if (x as u32) < 128 && (x == 'U' || y == 'U' || (x == 'A' && y == 'A') || (x == 'D' && y == 'D')) {
                assert(conflict_line(ls[i as int]));
                return true;
            }
        }
        i = i + 1;
    }
    false
}

/// The stash ref whose subject holds `msg`, from `git stash list --format='%gd %s'`.
pub fn find_stash_ref(out: &str, msg: &str) -> (r: Option<String>)
    ensures
        match stash_ref_of(lines_of(out@), msg@) {
            Some(s) => r matches Some(x) && x@ == s,
            None => r is None,
        },
{
    let v = chars_of(out);
    let pieces = line_ranges(&v);
    proof {
        lemma_split_on_nonempty(v@, '\n');
    }
    let p = pieces.len();
    let n = if pieces[p - 1].0 == pieces[p - 1].1 {
        p - 1
    } else {
        p
    };
    let ghost ls = lines_of(v@);
    assert(ls.skip(0) =~= ls);
    let mut i: usize = 0;
    while i < n
        invariant
            v@ == out@,
            ls == lines_of(v@),
            n == ls.len(),
            i <= n,
            pieces@.len() == split_on(v@, '\n').len(),
            forall|k: int|
                0 <= k < pieces@.len() ==> {
                    &&& (#[trigger] pieces@[k]).0 <= pieces@[k].1 <= v@.len()
                    &&& v@.subrange(pieces@[k].0 as int, pieces@[k].1 as int) == split_on(v@, '\n')[k]
                },
            stash_ref_of(ls, msg@) == stash_ref_of(ls.skip(i as int), msg@),
        decreases n - i,
    {
        let (lo, hi) = line_bounds(&v, &pieces, i);
        let ghost l = ls[i as int];
        assert(ls.skip(i as int)[0] == l);
        assert(ls.skip(i as int).drop_first() =~= ls.skip(i + 1));
        match find_in(&v, lo, hi, ' ') {
            Some(j) => {
                let rest = substring(out, lo + j + 1, hi);
                assert(rest@ == l.skip(j + 1));
                if contains_str(rest.as_str(), msg) {
                    let rf = substring(out, lo, lo + j);
                    assert(rf@ == l.take(j as int));
                    return Some(rf);
                }
            },
            None => {},
        }
        i = i + 1;
    }
    assert(ls.skip(n as int).len() == 0);
    None
}

/// What `git merge-base --is-ancestor` and `git show-ref --verify` answer
/// through their exit code: 0 yes, 1 no, anything else a failure.
pub fn check_exit(code: Option<i32>, args: &str, stderr: &str) -> (r: Result<bool, String>)
    ensures
        code == Some(0i32) ==> r == Ok::<bool, String>(true),
        code == Some(1i32) ==> r == Ok::<bool, String>(false),
        code is None ==> (r matches Err(e) && e@ == "git "@ + args@ + " terminated by signal"@),
        code matches Some(c) ==> (c == 0 || c == 1 || (r matches Err(e) && e@ == "git "@ + args@ + " failed (exit "@
            + signed_decimal(c as int) + "): "@ + stderr@)),
{
    match code {
        Some(0) => Ok(true),
        Some(1) => Ok(false),
        Some(c) => {
            let mut e = String::from_str("git ");
            e.append(args);
            e.append(" failed (exit ");
            let ghost before = e@;
            if c < 0 {
                proof {
                    reveal_strlit("-");
                }
                e.append("-");
                let m: i64 = c as i64;
                let magnitude: u64 = (0 - m) as u64;
                assert(magnitude as int == -(c as int));
                crate::text::push_decimal(&mut e, magnitude);
                assert(e@ =~= before + signed_decimal(c as int));
            } else {
                crate::text::push_decimal(&mut e, c as u64);
                assert(e@ =~= before + signed_decimal(c as int));
            }
            e.append("): ");
            e.append(stderr);
            Err(e)
        },
        None => {
            let mut e = String::from_str("git ");
            e.append(args);
            e.append(" terminated by signal");
            Err(e)
        },
    }
}


// ---------------------------------------------------------------------------
// The git command line
// ---------------------------------------------------------------------------

/// Interface for running the `git` executable.
pub trait GitProcess {
    /// Run `git` with `args`: its trimmed standard output on success, else
    /// `git <args> failed: <stderr>`.
    fn run(&self, args: &[&str]) -> Result<String, String>;

    /// Run `git` with `args` and report its exit code (`None` when a signal
    /// ended it), its trimmed standard output and its trimmed standard error.
    fn status(&self, args: &[&str]) -> Result<(Option<i32>, String, String), String>;
}

/// `u32::from_str`. Trusted: it accepts exactly an optional `+` followed by
/// decimal digits whose value fits (`spec_parse_u32`), as its documentation
/// says; the text of its error is std's and is not restated.
#[verifier::external_body]
fn parse_u32_std(s: &str) -> (r: Result<u32, String>)
    ensures
        r is Ok <==> spec_parse_u32(s@) is Some,
        r matches Ok(n) ==> spec_parse_u32(s@) == Some(n),
{
    s.parse::<u32>().map_err(|e| e.to_string())
}

/// The count `git rev-list --count` printed.
pub fn parse_count(out: &str) -> (r: Result<u32, String>)
    ensures
        spec_parse_u32(out@) matches Some(n) ==> r == Ok::<u32, String>(n),
        spec_parse_u32(out@) is None ==> r is Err,
{
    match parse_u32_std(out) {
        Ok(n) => Ok(n),
        Err(e) => Err(cat(&["Failed to parse rev-list count: ", e.as_str()])),
    }
}

/// What `git config --get key` answers through its exit code: 0 the value
/// (its standard output), 1 unset, anything else a failure.
pub open spec fn config_get_outcome(key: Seq<char>, code: Option<i32>, stdout: Seq<char>, stderr: Seq<char>) -> Result<
    Option<Seq<char>>,
    Seq<char>,
> {
    match code {
        Some(c) => if c == 0 {
            Ok(Some(stdout))
        } else if c == 1 {
            Ok(None)
        } else {
            Err("git config --get "@ + key + " failed: "@ + stderr)
        },
        None => Err("git config --get "@ + key + " failed: "@ + stderr),
    }
}

/// Read the answer of `git config --get key` from its exit code and output.
pub fn config_get_answer(key: &str, code: Option<i32>, stdout: String, stderr: &str) -> (r: Result<
    Option<String>,
    String,
>)
    ensures
        match config_get_outcome(key@, code, stdout@, stderr@) {
            Ok(Some(v)) => r matches Ok(Some(w)) && w@ == v,
            Ok(None) => r matches Ok(None),
            Err(e) => r matches Err(f) && f@ == e,
        },
{
    match code {
        Some(0) => Ok(Some(stdout)),
        Some(1) => Ok(None),
        _ => {
            let mut e = String::from_str("git config --get ");
            e.append(key);
            e.append(" failed: ");
            e.append(stderr);
            Err(e)
        },
    }
}

/// What `git config --unset key` answers through its exit code: 0 removed,
/// 5 it was not set (which is what was asked for), anything else a failure.
pub open spec fn config_unset_outcome(key: Seq<char>, code: Option<i32>, stderr: Seq<char>) -> Result<(), Seq<char>> {
    if code == Some(0i32) || code == Some(5i32) {
        Ok(())
    } else {
        Err("git config --unset "@ + key + " failed: "@ + stderr)
    }
}

/// Read the answer of `git config --unset key` from its exit code.
pub fn config_unset_answer(key: &str, code: Option<i32>, stderr: &str) -> (r: Result<(), String>)
    ensures
        match config_unset_outcome(key@, code, stderr@) {
            Ok(()) => r is Ok,
            Err(e) => r matches Err(f) && f@ == e,
        },
{
    match code {
        Some(0) | Some(5) => Ok(()),
        _ => {
            let mut e = String::from_str("git config --unset ");
            e.append(key);
            e.append(" failed: ");
            e.append(stderr);
            Err(e)
        },
    }
}

/// Texts joined by single spaces.
pub open spec fn joined_by_spaces(parts: Seq<Seq<char>>) -> Seq<char>
    decreases parts.len(),
{
    if parts.len() == 0 {
        Seq::empty()
    } else if parts.len() == 1 {
        parts[0]
    } else {
        joined_by_spaces(parts.drop_last()) + " "@ + parts.last()
    }
}

pub open spec fn arg_views(args: Seq<&str>) -> Seq<Seq<char>> {
    args.map_values(|a: &str| a@)
}

/// The arguments joined by spaces, as error messages quote them.
fn join_args(args: &[&str]) -> (r: String)
    ensures
        r@ == joined_by_spaces(arg_views(args@)),
{
    let mut s = String::new();
    let mut i: usize = 0;
    while i < args.len()
        invariant
            i <= args@.len(),
            s@ == joined_by_spaces(arg_views(args@).take(i as int)),
        decreases args@.len() - i,
    {
        proof {
            let a = arg_views(args@);
            assert(a.take(i + 1).drop_last() =~= a.take(i as int));
            assert(a.take(i + 1).last() == args@[i as int]@);
        }
        if i > 0 {
            s.append(" ");
        }
        s.append(args[i]);
        i = i + 1;
    }
    assert(arg_views(args@).take(args@.len() as int) =~= arg_views(args@));
    s
}

/// One run of the git executable: its arguments, and what the process
/// reported.
pub ghost enum GitRun {
    /// `GitProcess::run`: the output, or the error.
    Output(Seq<Seq<char>>, Result<Seq<char>, Seq<char>>),
    /// `GitProcess::status`: the exit code (`None` for a signal), the output
    /// and the error text; or the failure to run it.
    Exit(Seq<Seq<char>>, Result<(Option<i32>, Seq<char>, Seq<char>), Seq<char>>),
}

pub open spec fn output_run(args: Seq<Seq<char>>, r: Result<String, String>) -> GitRun {
    GitRun::Output(
        args,
        match r {
            Ok(o) => Ok(o@),
            Err(e) => Err(e@),
        },
    )
}

pub open spec fn exit_run(args: Seq<Seq<char>>, r: Result<(Option<i32>, String, String), String>) -> GitRun {
    GitRun::Exit(
        args,
        match r {
            Ok((c, o, e)) => Ok((c, o@, e@)),
            Err(e) => Err(e@),
        },
    )
}

/// What a check command's exit answers: exit 0 yes, exit 1 no; any other
/// outcome is an error.
pub open spec fn exit_says(out: Result<(Option<i32>, Seq<char>, Seq<char>), Seq<char>>, r: Result<bool, String>) -> bool {
    match out {
        Ok((Some(0i32), _, _)) => r == Ok::<bool, String>(true),
        Ok((Some(1i32), _, _)) => r == Ok::<bool, String>(false),
        Ok(_) => r is Err,
        Err(e) => r matches Err(m) && m@ == e,
    }
}

/// Exactly one run was added to `c0`.
pub open spec fn one_more_run(c0: Seq<GitRun>, c: Seq<GitRun>) -> bool {
    c.len() == c0.len() + 1 && c.drop_last() == c0
}

/// One run of `git <args>` (the runs `c` after `c0`), answered by its exit
/// status (`exit_says`).
pub open spec fn checked_with(c0: Seq<GitRun>, c: Seq<GitRun>, args: Seq<Seq<char>>, r: Result<bool, String>) -> bool {
    &&& one_more_run(c0, c)
    &&& c.last() matches GitRun::Exit(a, out) && a == args && exit_says(out, r)
}

/// One run of `git <args>` (the runs `c` after `c0`) whose output, or error,
/// is the result.
pub open spec fn ran_text(c0: Seq<GitRun>, c: Seq<GitRun>, args: Seq<Seq<char>>, r: Result<String, String>) -> bool {
    &&& one_more_run(c0, c)
    &&& c.last() == output_run(args, r)
}

/// One run of `git <args>` (the runs `c` after `c0`): the result is `Ok`
/// exactly when it succeeded, else its error.
pub open spec fn ran_done(c0: Seq<GitRun>, c: Seq<GitRun>, args: Seq<Seq<char>>, r: Result<(), String>) -> bool {
    &&& one_more_run(c0, c)
    &&& c.last() matches GitRun::Output(a, out) && a == args && match out {
        Ok(_) => r is Ok,
        Err(e) => r matches Err(m) && m@ == e,
    }
}

/// One run of `git <args>` (the runs `c` after `c0`) whose output is read by
/// `read`: the result is what `read` makes of the output, or the run's error.
pub open spec fn ran_reading<T>(
    c0: Seq<GitRun>,
    c: Seq<GitRun>,
    args: Seq<Seq<char>>,
    read: spec_fn(Seq<char>, Result<T, String>) -> bool,
    r: Result<T, String>,
) -> bool {
    &&& one_more_run(c0, c)
    &&& c.last() matches GitRun::Output(a, out) && a == args && match out {
        Ok(o) => read(o, r),
        Err(e) => r matches Err(m) && m@ == e,
    }
}

/// Checking whether `branch` exists on origin (the runs `c` after `c0`): one
/// run, `git show-ref --verify --quiet refs/remotes/origin/<branch>`,
/// answered by its exit status (`exit_says`).
pub open spec fn remote_branch_checked(c0: Seq<GitRun>, c: Seq<GitRun>, branch: Seq<char>, r: Result<bool, String>) -> bool {
    &&& c.len() == c0.len() + 1
    &&& c.drop_last() == c0
    &&& c.last() matches GitRun::Exit(a, out) && a == seq!["show-ref"@, "--verify"@, "--quiet"@, "refs/remotes/origin/"@ + branch]
        && exit_says(out, r)
}

/// Reading the commit messages of `from..to` (the runs `c` after `c0`): one
/// run, `git log <from>..<to> --format=%B%x00`; the messages are the records
/// of its output (`commit_bodies`), and a failed run is the error.
pub open spec fn messages_read(c0: Seq<GitRun>, c: Seq<GitRun>, from: Seq<char>, to: Seq<char>, r: Result<Vec<String>, String>) -> bool {
    &&& c.len() == c0.len() + 1
    &&& c.drop_last() == c0
    &&& c.last() matches GitRun::Output(a, out) && a == seq!["log"@, from + ".."@ + to, "--format=%B%x00"@] && match out {
        Ok(o) => r matches Ok(ms) && views(ms@) == commit_bodies(o),
        Err(e) => r matches Err(m) && m@ == e,
    }
}

/// Whether a branch exists on origin is asked of origin's copy of it: the
/// one run made is an exit-status check of the ref
/// `refs/remotes/origin/<branch>` (not the local `refs/heads/<branch>`), and
/// the answer is yes exactly when that check exited 0, no exactly when it
/// exited 1.
pub proof fn law_remote_branch_check_asks_origin(c0: Seq<GitRun>, c: Seq<GitRun>, branch: Seq<char>, r: Result<bool, String>)
    requires
        remote_branch_checked(c0, c, branch, r),
    ensures
        c.len() == c0.len() + 1,
        forall|i: int| 0 <= i < c0.len() ==> c[i] == c0[i],
        c.last() matches GitRun::Exit(a, out) && {
            &&& a.len() == 4 && a[0] == "show-ref"@ && a[3] == "refs/remotes/origin/"@ + branch
            &&& a[3] != "refs/heads/"@ + branch
            &&& ((r == Ok::<bool, String>(true)) <==> (out matches Ok((Some(0i32), _, _))))
            &&& ((r == Ok::<bool, String>(false)) <==> (out matches Ok((Some(1i32), _, _))))
        },
{
    reveal_strlit("refs/remotes/origin/");
    reveal_strlit("refs/heads/");
    let a = seq!["show-ref"@, "--verify"@, "--quiet"@, "refs/remotes/origin/"@ + branch];
    assert(a[3][5] != ("refs/heads/"@ + branch)[5]);
    assert forall|i: int| 0 <= i < c0.len() implies c[i] == c0[i] by {
        assert(c.drop_last()[i] == c[i]);
    }
}

/// The commit messages read for `from..to` are whole messages, subject and
/// body: the one run made is `git log <from>..<to>` with the format `%B`
/// (the raw body, subject included) and a NUL after each commit, and on
/// success the messages are that output's NUL-separated records, trimmed,
/// in order, the empty ones left out.
pub proof fn law_commit_messages_are_whole(c0: Seq<GitRun>, c: Seq<GitRun>, from: Seq<char>, to: Seq<char>, r: Result<Vec<String>, String>)
    requires
        messages_read(c0, c, from, to, r),
    ensures
        c.len() == c0.len() + 1,
        c.last() matches GitRun::Output(a, out) && {
            &&& a.len() == 3 && a[0] == "log"@ && a[1] == from + ".."@ + to && a[2] == "--format=%B%x00"@
            &&& out matches Ok(o) ==> (r matches Ok(ms) && views(ms@) == split_on(o, '\0').map_values(|m: Seq<char>| trim(m)).filter(
                |m: Seq<char>| m.len() > 0,
            ))
        },
{
}

/// Git through its command line, run by a `GitProcess`. Each run of the
/// executable is recorded in `runs`, with its arguments and what the process
/// reported.
pub struct GitCli<'a> {
    process: &'a dyn GitProcess,
    history: Ghost<Seq<GitEvent>>,
    runs: Ghost<Seq<GitRun>>,
}

impl<'a> GitCli<'a> {
    pub fn new(process: &'a dyn GitProcess) -> (r: Self)
        ensures
            r.history() == Seq::<GitEvent>::empty(),
            r.runs() == Seq::<GitRun>::empty(),
    {
        GitCli { process, history: Ghost(Seq::empty()), runs: Ghost(Seq::empty()) }
    }

    /// The runs of the git executable so far, in order.
    pub closed spec fn runs(&self) -> Seq<GitRun> {
        self.runs@
    }

    fn run(&mut self, args: &[&str]) -> (r: Result<String, String>)
        ensures
            final(self).runs() == old(self).runs().push(output_run(arg_views(args@), r)),
            ran_text(old(self).runs(), final(self).runs(), arg_views(args@), r),
    {
        let r = self.process.run(args);
        proof {
            self.runs = Ghost(self.runs@.push(output_run(arg_views(args@), r)));
            assert(self.runs@.drop_last() =~= old(self).runs@);
        }
        r
    }

    fn status(&mut self, args: &[&str]) -> (r: Result<(Option<i32>, String, String), String>)
        ensures
            final(self).runs() == old(self).runs().push(exit_run(arg_views(args@), r)),
    {
        let r = self.process.status(args);
        proof {
            self.runs = Ghost(self.runs@.push(exit_run(arg_views(args@), r)));
        }
        r
    }

    fn done(&mut self, args: &[&str]) -> (r: Result<(), String>)
        ensures
            ran_done(old(self).runs(), final(self).runs(), arg_views(args@), r),
    {
        self.run(args)?;
        Ok(())
    }

    /// Run a check command that answers through its exit code (0 yes, 1 no).
    fn run_check(&mut self, args: &[&str]) -> (r: Result<bool, String>)
        ensures
            final(self).runs().len() == old(self).runs().len() + 1,
            final(self).runs().drop_last() == old(self).runs(),
            final(self).runs().last() matches GitRun::Exit(a, out) && a == arg_views(args@) && exit_says(out, r),
    {
        let (code, _stdout, stderr) = self.status(args)?;
        check_exit(code, join_args(args).as_str(), stderr.as_str())
    }
}

impl<'a> GitCli<'a> {
    fn current_branch_raw(&mut self) -> (r: Result<String, String>)
        ensures
            ran_text(old(self).runs(), final(self).runs(), seq!["rev-parse"@, "--abbrev-ref"@, "HEAD"@], r),
    {
        let args = vec!["rev-parse", "--abbrev-ref", "HEAD"];
        proof {
            assert(arg_views(args@) =~= seq!["rev-parse"@, "--abbrev-ref"@, "HEAD"@]);
        }
        self.run(args.as_slice())
    }

    fn fetch_raw(&mut self) -> (r: Result<(), String>)
        ensures
            ran_done(old(self).runs(), final(self).runs(), seq!["fetch"@, "--all"@, "--prune"@], r),
    {
        let args = vec!["fetch", "--all", "--prune"];
        proof {
            assert(arg_views(args@) =~= seq!["fetch"@, "--all"@, "--prune"@]);
        }
        self.done(args.as_slice())
    }

    fn checkout_raw(&mut self, branch: &str) -> (r: Result<(), String>)
        ensures
            ran_done(old(self).runs(), final(self).runs(), seq!["checkout"@, branch@], r),
    {
        let args = vec!["checkout", branch];
        proof {
            assert(arg_views(args@) =~= seq!["checkout"@, branch@]);
        }
        self.done(args.as_slice())
    }

    fn create_branch_raw(&mut self, branch: &str, from: &str) -> (r: Result<(), String>)
        ensures
            ran_done(old(self).runs(), final(self).runs(), seq!["checkout"@, "-b"@, branch@, from@], r),
    {
        let args = vec!["checkout", "-b", branch, from];
        proof {
            assert(arg_views(args@) =~= seq!["checkout"@, "-b"@, branch@, from@]);
        }
        self.done(args.as_slice())
    }

    fn create_branch_no_checkout_raw(&mut self, branch: &str, from: &str) -> (r: Result<(), String>)
        ensures
            ran_done(old(self).runs(), final(self).runs(), seq!["branch"@, branch@, from@], r),
    {
        let args = vec!["branch", branch, from];
        proof {
            assert(arg_views(args@) =~= seq!["branch"@, branch@, from@]);
        }
        self.done(args.as_slice())
    }

    fn push_raw(&mut self, branch: &str) -> (r: Result<(), String>)
        ensures
            ran_done(old(self).runs(), final(self).runs(), seq!["push"@, "-u"@, "origin"@, branch@], r),
    {
        let args = vec!["push", "-u", "origin", branch];
        proof {
            assert(arg_views(args@) =~= seq!["push"@, "-u"@, "origin"@, branch@]);
        }
        self.done(args.as_slice())
    }

    fn push_tag_raw(&mut self, tag: &str) -> (r: Result<(), String>)
        ensures
            ran_done(old(self).runs(), final(self).runs(), seq!["push"@, "origin"@, tag@], r),
    {
        let args = vec!["push", "origin", tag];
        proof {
            assert(arg_views(args@) =~= seq!["push"@, "origin"@, tag@]);
        }
        self.done(args.as_slice())
    }

    fn create_tag_raw(&mut self, tag: &str, message: &str) -> (r: Result<(), String>)
        ensures
            ran_done(old(self).runs(), final(self).runs(), seq!["tag"@, "-a"@, tag@, "-m"@, message@], r),
    {
        let args = vec!["tag", "-a", tag, "-m", message];
        proof {
            assert(arg_views(args@) =~= seq!["tag"@, "-a"@, tag@, "-m"@, message@]);
        }
        self.done(args.as_slice())
    }

    fn create_tag_at_raw(&mut self, tag: &str, message: &str, sha: &str) -> (r: Result<(), String>)
        ensures
            ran_done(old(self).runs(), final(self).runs(), seq!["tag"@, "-a"@, tag@, "-m"@, message@, sha@], r),
    {
        let args = vec!["tag", "-a", tag, "-m", message, sha];
        proof {
            assert(arg_views(args@) =~= seq!["tag"@, "-a"@, tag@, "-m"@, message@, sha@]);
        }
        self.done(args.as_slice())
    }

    fn merge_raw(&mut self, branch: &str, message: &str) -> (r: Result<(), String>)
        ensures
            ran_done(old(self).runs(), final(self).runs(), seq!["merge"@, branch@, "--no-ff"@, "-m"@, message@], r),
    {
        let args = vec!["merge", branch, "--no-ff", "-m", message];
        proof {
            assert(arg_views(args@) =~= seq!["merge"@, branch@, "--no-ff"@, "-m"@, message@]);
        }
        self.done(args.as_slice())
    }

    fn pull_raw(&mut self, branch: &str) -> (r: Result<(), String>)
        ensures
            ran_done(old(self).runs(), final(self).runs(), seq!["merge"@, branch@, "--ff-only"@], r),
    {
        let args = vec!["merge", branch, "--ff-only"];
        proof {
            assert(arg_views(args@) =~= seq!["merge"@, branch@, "--ff-only"@]);
        }
        self.done(args.as_slice())
    }

    fn ff_merge_raw(&mut self, target: &str) -> (r: Result<(), String>)
        ensures
            ran_done(old(self).runs(), final(self).runs(), seq!["merge"@, "--ff-only"@, target@], r),
    {
        let args = vec!["merge", "--ff-only", target];
        proof {
            assert(arg_views(args@) =~= seq!["merge"@, "--ff-only"@, target@]);
        }
        self.done(args.as_slice())
    }

    fn list_tags_raw(&mut self) -> (r: Result<Vec<String>, String>)
        ensures
            ran_reading(old(self).runs(), final(self).runs(), seq!["tag"@, "--list"@], |o: Seq<char>, x: Result<Vec<String>, String>| x matches Ok(v) && views(v@) == listed_names(o), r),
    {
        let args = vec!["tag", "--list"];
        proof {
            assert(arg_views(args@) =~= seq!["tag"@, "--list"@]);
        }
        let out = self.run(args.as_slice());
        let o = match out {
            Ok(o) => o,
            Err(e) => {
                return Err(e);
            },
        };
        Ok(parse_listing(o.as_str()))
    }

    fn list_branches_matching_raw(&mut self, pattern: &str) -> Result<Vec<String>, String> {
        let remote = cat(&["refs/remotes/origin/", pattern]);
        let local = cat(&["refs/heads/", pattern]);
        let out = self.run(vec!["for-each-ref", "--format=%(refname:short)", remote.as_str(), local.as_str()].as_slice())?;
        Ok(parse_branch_union(out.as_str()))
    }

    fn is_working_tree_clean_raw(&mut self) -> (r: Result<bool, String>)
        ensures
            ran_reading(old(self).runs(), final(self).runs(), seq!["status"@, "--porcelain"@], |o: Seq<char>, x: Result<bool, String>| x == Ok::<bool, String>(o.len() == 0), r),
    {
        let args = vec!["status", "--porcelain"];
        proof {
            assert(arg_views(args@) =~= seq!["status"@, "--porcelain"@]);
        }
        let out = self.run(args.as_slice());
        let o = match out {
            Ok(o) => o,
            Err(e) => {
                return Err(e);
            },
        };
        Ok(o.as_str().unicode_len() == 0)
    }

    fn delete_branch_local_raw(&mut self, branch: &str) -> (r: Result<(), String>)
        ensures
            ran_done(old(self).runs(), final(self).runs(), seq!["branch"@, "-D"@, branch@], r),
    {
        let args = vec!["branch", "-D", branch];
        proof {
            assert(arg_views(args@) =~= seq!["branch"@, "-D"@, branch@]);
        }
        self.done(args.as_slice())
    }

    fn delete_branch_remote_raw(&mut self, branch: &str) -> (r: Result<(), String>)
        ensures
            ran_done(old(self).runs(), final(self).runs(), seq!["push"@, "origin"@, "--delete"@, branch@], r),
    {
        let args = vec!["push", "origin", "--delete", branch];
        proof {
            assert(arg_views(args@) =~= seq!["push"@, "origin"@, "--delete"@, branch@]);
        }
        self.done(args.as_slice())
    }

    fn tags_on_branch_raw(&mut self, branch: &str) -> (r: Result<Vec<String>, String>)
        ensures
            ran_reading(old(self).runs(), final(self).runs(), seq!["tag"@, "--merged"@, branch@], |o: Seq<char>, x: Result<Vec<String>, String>| x matches Ok(v) && views(v@) == listed_names(o), r),
    {
        let args = vec!["tag", "--merged", branch];
        proof {
            assert(arg_views(args@) =~= seq!["tag"@, "--merged"@, branch@]);
        }
        let out = self.run(args.as_slice());
        let o = match out {
            Ok(o) => o,
            Err(e) => {
                return Err(e);
            },
        };
        Ok(parse_listing(o.as_str()))
    }

    fn list_remote_branches_raw(&mut self) -> (r: Result<Vec<String>, String>)
        ensures
            ran_reading(old(self).runs(), final(self).runs(), seq!["for-each-ref"@, "--format=%(refname:short)"@, "refs/remotes/origin/"@], |o: Seq<char>, x: Result<Vec<String>, String>| x matches Ok(v) && views(v@) == remote_branch_names(o), r),
    {
        let args = vec!["for-each-ref", "--format=%(refname:short)", "refs/remotes/origin/"];
        proof {
            assert(arg_views(args@) =~= seq!["for-each-ref"@, "--format=%(refname:short)"@, "refs/remotes/origin/"@]);
        }
        let out = self.run(args.as_slice());
        let o = match out {
            Ok(o) => o,
            Err(e) => {
                return Err(e);
            },
        };
        Ok(parse_remote_branches(o.as_str()))
    }

    fn merge_base_raw(&mut self, a: &str, b: &str) -> (r: Result<String, String>)
        ensures
            ran_text(old(self).runs(), final(self).runs(), seq!["merge-base"@, a@, b@], r),
    {
        let args = vec!["merge-base", a, b];
        proof {
            assert(arg_views(args@) =~= seq!["merge-base"@, a@, b@]);
        }
        self.run(args.as_slice())
    }

    fn rev_list_count_raw(&mut self, from: &str, to: &str) -> (r: Result<u32, String>)
        ensures
            ran_reading(old(self).runs(), final(self).runs(), seq!["rev-list"@, "--count"@, from@ + ".."@ + to@], |o: Seq<char>, x: Result<u32, String>| match spec_parse_u32(o) { Some(n) => x == Ok::<u32, String>(n), None => x is Err }, r),
    {
        let range = cat(&[from, "..", to]);
        proof {
            reveal_strlit("..");
            reveal_with_fuel(crate::text::concat, 4);
            assert(range@ =~= from@ + ".."@ + to@);
        }
        let args = vec!["rev-list", "--count", range.as_str()];
        proof {
            assert(arg_views(args@) =~= seq!["rev-list"@, "--count"@, range@]);
        }
        let out = self.run(args.as_slice());
        let o = match out {
            Ok(o) => o,
            Err(e) => {
                return Err(e);
            },
        };
        parse_count(o.as_str())
    }

    fn stash_push_raw(&mut self) -> (r: Result<(), String>)
        ensures
            ran_done(old(self).runs(), final(self).runs(), seq!["stash"@, "push"@, "-u"@], r),
    {
        let args = vec!["stash", "push", "-u"];
        proof {
            assert(arg_views(args@) =~= seq!["stash"@, "push"@, "-u"@]);
        }
        self.done(args.as_slice())
    }

    fn stash_pop_raw(&mut self) -> (r: Result<(), String>)
        ensures
            ran_done(old(self).runs(), final(self).runs(), seq!["stash"@, "pop"@], r),
    {
        let args = vec!["stash", "pop"];
        proof {
            assert(arg_views(args@) =~= seq!["stash"@, "pop"@]);
        }
        self.done(args.as_slice())
    }

    fn commit_messages_raw(&mut self, from: &str, to: &str) -> (r: Result<Vec<String>, String>)
        ensures
            messages_read(old(self).runs(), final(self).runs(), from@, to@, r),
    {
        let range = cat(&[from, "..", to]);
        proof {
            reveal_strlit("..");
            reveal_with_fuel(crate::text::concat, 4);
            assert(range@ =~= from@ + ".."@ + to@);
        }
        let args = vec!["log", range.as_str(), "--format=%B%x00"];
        proof {
            assert(arg_views(args@) =~= seq!["log"@, range@, "--format=%B%x00"@]);
        }
        let out = self.run(args.as_slice());
        proof {
            assert(self.runs().drop_last() =~= old(self).runs());
        }
        Ok(parse_commit_messages(out?.as_str()))
    }

    fn stage_all_raw(&mut self) -> (r: Result<(), String>)
        ensures
            ran_done(old(self).runs(), final(self).runs(), seq!["add"@, "-A"@], r),
    {
        let args = vec!["add", "-A"];
        proof {
            assert(arg_views(args@) =~= seq!["add"@, "-A"@]);
        }
        self.done(args.as_slice())
    }

    fn commit_raw(&mut self, message: &str) -> (r: Result<(), String>)
        ensures
            ran_done(old(self).runs(), final(self).runs(), seq!["commit"@, "-m"@, message@], r),
    {
        let args = vec!["commit", "-m", message];
        proof {
            assert(arg_views(args@) =~= seq!["commit"@, "-m"@, message@]);
        }
        self.done(args.as_slice())
    }

    fn is_ancestor_raw(&mut self, ancestor: &str, descendant: &str) -> (r: Result<bool, String>)
        ensures
            checked_with(old(self).runs(), final(self).runs(), seq!["merge-base"@, "--is-ancestor"@, ancestor@, descendant@], r),
    {
        let args = vec!["merge-base", "--is-ancestor", ancestor, descendant];
        proof {
            assert(arg_views(args@) =~= seq!["merge-base"@, "--is-ancestor"@, ancestor@, descendant@]);
        }
        self.run_check(args.as_slice())
    }

    fn tag_exists_raw(&mut self, tag: &str) -> (r: Result<bool, String>)
        ensures
            checked_with(old(self).runs(), final(self).runs(), seq!["show-ref"@, "--verify"@, "--quiet"@, "refs/tags/"@ + tag@], r),
    {
        let name = cat(&["refs/tags/", tag]);
        proof {
            reveal_strlit("refs/tags/");
            reveal_with_fuel(crate::text::concat, 3);
            assert(name@ =~= "refs/tags/"@ + tag@);
        }
        let args = vec!["show-ref", "--verify", "--quiet", name.as_str()];
        proof {
            assert(arg_views(args@) =~= seq!["show-ref"@, "--verify"@, "--quiet"@, name@]);
        }
        self.run_check(args.as_slice())
    }

    fn local_branch_exists_raw(&mut self, branch: &str) -> (r: Result<bool, String>)
        ensures
            checked_with(old(self).runs(), final(self).runs(), seq!["show-ref"@, "--verify"@, "--quiet"@, "refs/heads/"@ + branch@], r),
    {
        let name = cat(&["refs/heads/", branch]);
        proof {
            reveal_strlit("refs/heads/");
            reveal_with_fuel(crate::text::concat, 3);
            assert(name@ =~= "refs/heads/"@ + branch@);
        }
        let args = vec!["show-ref", "--verify", "--quiet", name.as_str()];
        proof {
            assert(arg_views(args@) =~= seq!["show-ref"@, "--verify"@, "--quiet"@, name@]);
        }
        self.run_check(args.as_slice())
    }

    fn remote_branch_exists_raw(&mut self, branch: &str) -> (r: Result<bool, String>)
        ensures
            remote_branch_checked(old(self).runs(), final(self).runs(), branch@, r),
    {
        let name = cat(&["refs/remotes/origin/", branch]);
        proof {
            reveal_strlit("refs/remotes/origin/");
            reveal_with_fuel(crate::text::concat, 3);
            assert(name@ =~= "refs/remotes/origin/"@ + branch@);
        }
        let args = vec!["show-ref", "--verify", "--quiet", name.as_str()];
        proof {
            assert(arg_views(args@) =~= seq!["show-ref"@, "--verify"@, "--quiet"@, name@]);
        }
        self.run_check(args.as_slice())
    }

    fn remote_tag_exists_raw(&mut self, tag: &str) -> Result<bool, String> {
        let out = self.run(vec!["ls-remote", "--tags", "origin", tag].as_slice())?;
        let v = chars_of(out.as_str());
        let (a, b) = trim_bounds(&v, 0, v.len());
        Ok(a < b)
    }

    fn is_pushed_raw(&mut self, branch: &str) -> Result<bool, String> {
        let local = self.rev_parse_raw(branch)?;
        let remote_ref = cat(&["refs/remotes/origin/", branch]);
        match self.rev_parse_raw(remote_ref.as_str()) {
            Ok(remote) => Ok(crate::flows::string_eq(local.as_str(), remote.as_str())),
            Err(_) => Ok(false),
        }
    }

    fn is_mid_merge_raw(&mut self) -> Result<bool, String> {
        let dir = self.git_dir_raw()?;
        let markers: Vec<&str> = vec!["MERGE_HEAD", "CHERRY_PICK_HEAD", "REVERT_HEAD", "rebase-merge", "rebase-apply"];
        let mut i: usize = 0;
        while i < markers.len()
            decreases markers@.len() - i,
        {
            if path_exists(path_join(dir.as_str(), markers[i]).as_str()) {
                return Ok(true);
            }
            i = i + 1;
        }
        Ok(false)
    }

    fn has_unmerged_paths_raw(&mut self) -> Result<bool, String> {
        let out = self.run(vec!["status", "--porcelain"].as_slice())?;
        Ok(porcelain_has_conflicts(out.as_str()))
    }

    fn git_dir_raw(&mut self) -> (r: Result<String, String>)
        ensures
            ran_text(old(self).runs(), final(self).runs(), seq!["rev-parse"@, "--git-dir"@], r),
    {
        let args = vec!["rev-parse", "--git-dir"];
        proof {
            assert(arg_views(args@) =~= seq!["rev-parse"@, "--git-dir"@]);
        }
        self.run(args.as_slice())
    }

    fn repo_root_raw(&mut self) -> (r: Result<String, String>)
        ensures
            ran_text(old(self).runs(), final(self).runs(), seq!["rev-parse"@, "--show-toplevel"@], r),
    {
        let args = vec!["rev-parse", "--show-toplevel"];
        proof {
            assert(arg_views(args@) =~= seq!["rev-parse"@, "--show-toplevel"@]);
        }
        self.run(args.as_slice())
    }

    fn rev_parse_raw(&mut self, refname: &str) -> (r: Result<String, String>)
        ensures
            ran_text(old(self).runs(), final(self).runs(), seq!["rev-parse"@, refname@], r),
    {
        let args = vec!["rev-parse", refname];
        proof {
            assert(arg_views(args@) =~= seq!["rev-parse"@, refname@]);
        }
        self.run(args.as_slice())
    }

    fn head_sha_raw(&mut self) -> (r: Result<String, String>)
        ensures
            ran_text(old(self).runs(), final(self).runs(), seq!["rev-parse"@, "HEAD"@], r),
    {
        let args = vec!["rev-parse", "HEAD"];
        proof {
            assert(arg_views(args@) =~= seq!["rev-parse"@, "HEAD"@]);
        }
        self.run(args.as_slice())
    }

    fn remote_url_raw(&mut self) -> (r: Result<String, String>)
        ensures
            ran_text(old(self).runs(), final(self).runs(), seq!["remote"@, "get-url"@, "origin"@], r),
    {
        let args = vec!["remote", "get-url", "origin"];
        proof {
            assert(arg_views(args@) =~= seq!["remote"@, "get-url"@, "origin"@]);
        }
        self.run(args.as_slice())
    }

    fn is_linked_worktree_raw(&mut self) -> Result<bool, String> {
        let git_dir = self.run(vec!["rev-parse", "--path-format=absolute", "--git-dir"].as_slice())?;
        let common = self.run(vec!["rev-parse", "--path-format=absolute", "--git-common-dir"].as_slice())?;
        Ok(!crate::flows::string_eq(git_dir.as_str(), common.as_str()))
    }

    fn detach_head_raw(&mut self) -> (r: Result<(), String>)
        ensures
            ran_done(old(self).runs(), final(self).runs(), seq!["checkout"@, "--detach"@], r),
    {
        let args = vec!["checkout", "--detach"];
        proof {
            assert(arg_views(args@) =~= seq!["checkout"@, "--detach"@]);
        }
        self.done(args.as_slice())
    }

    fn remove_current_worktree_raw(&mut self) -> Result<(), String> {
        let root = self.run(vec!["rev-parse", "--show-toplevel"].as_slice())?;
        self.done(vec!["worktree", "remove", root.as_str()].as_slice())
    }

    fn branch_sha_raw(&mut self, branch: &str) -> (r: Result<String, String>)
        ensures
            ran_text(old(self).runs(), final(self).runs(), seq!["rev-parse"@, "refs/heads/"@ + branch@], r),
    {
        let name = cat(&["refs/heads/", branch]);
        proof {
            reveal_strlit("refs/heads/");
            reveal_with_fuel(crate::text::concat, 3);
            assert(name@ =~= "refs/heads/"@ + branch@);
        }
        let args = vec!["rev-parse", name.as_str()];
        proof {
            assert(arg_views(args@) =~= seq!["rev-parse"@, name@]);
        }
        self.run(args.as_slice())
    }

    fn tag_commit_sha_raw(&mut self, tag: &str) -> (r: Result<String, String>)
        ensures
            ran_text(old(self).runs(), final(self).runs(), seq!["rev-list"@, "-n"@, "1"@, tag@], r),
    {
        let args = vec!["rev-list", "-n", "1", tag];
        proof {
            assert(arg_views(args@) =~= seq!["rev-list"@, "-n"@, "1"@, tag@]);
        }
        self.run(args.as_slice())
    }

    fn get_config_raw(&mut self, key: &str) -> (r: Result<Option<String>, String>)
        ensures
            one_more_run(old(self).runs(), final(self).runs()) && (final(self).runs().last() matches GitRun::Exit(a, out) && a == seq!["config"@, "--get"@, key@] && match out {
                Ok((code, o, e)) => match config_get_outcome(key@, code, o, e) {
                    Ok(Some(v)) => r matches Ok(Some(w)) && w@ == v,
                    Ok(None) => r matches Ok(None),
                    Err(m) => r matches Err(f) && f@ == m,
                },
                Err(e) => r matches Err(m) && m@ == e,
            }),
    {
        let args: Vec<&str> = vec!["config", "--get", key];
        proof {
            assert(arg_views(args@) =~= seq!["config"@, "--get"@, key@]);
        }
        let st = self.status(args.as_slice());
        proof {
            assert(self.runs().drop_last() =~= old(self).runs());
        }
        let (code, stdout, stderr) = st?;
        config_get_answer(key, code, stdout, stderr.as_str())
    }

    fn set_config_raw(&mut self, key: &str, value: &str, global: bool) -> Result<(), String> {
        if global {
            self.done(vec!["config", "--global", key, value].as_slice())
        } else {
            self.done(vec!["config", key, value].as_slice())
        }
    }

    fn unset_config_raw(&mut self, key: &str, global: bool) -> Result<(), String> {
        let args: Vec<&str> = if global {
            vec!["config", "--global", "--unset", key]
        } else {
            vec!["config", "--unset", key]
        };
        let (code, _stdout, stderr) = self.status(args.as_slice())?;
        config_unset_answer(key, code, stderr.as_str())
    }

    fn add_worktree_raw(&mut self, path: &str, branch: &str) -> (r: Result<(), String>)
        ensures
            ran_done(old(self).runs(), final(self).runs(), seq!["worktree"@, "add"@, path@, branch@], r),
    {
        let args = vec!["worktree", "add", path, branch];
        proof {
            assert(arg_views(args@) =~= seq!["worktree"@, "add"@, path@, branch@]);
        }
        self.done(args.as_slice())
    }

    fn stash_push_with_message_raw(&mut self, msg: &str) -> (r: Result<(), String>)
        ensures
            ran_done(old(self).runs(), final(self).runs(), seq!["stash"@, "push"@, "-u"@, "-m"@, msg@], r),
    {
        let args = vec!["stash", "push", "-u", "-m", msg];
        proof {
            assert(arg_views(args@) =~= seq!["stash"@, "push"@, "-u"@, "-m"@, msg@]);
        }
        self.done(args.as_slice())
    }

    fn find_stash_by_message_raw(&mut self, msg: &str) -> Result<Option<String>, String> {
        let out = self.run(vec!["stash", "list", "--format=%gd %s"].as_slice())?;
        Ok(find_stash_ref(out.as_str(), msg))
    }

    fn stash_pop_ref_raw(&mut self, stash_ref: &str) -> (r: Result<(), String>)
        ensures
            ran_done(old(self).runs(), final(self).runs(), seq!["stash"@, "pop"@, stash_ref@], r),
    {
        let args = vec!["stash", "pop", stash_ref];
        proof {
            assert(arg_views(args@) =~= seq!["stash"@, "pop"@, stash_ref@]);
        }
        self.done(args.as_slice())
    }
}

impl<'a> Git for GitCli<'a> {
    closed spec fn history(&self) -> Seq<GitEvent> {
        self.history@
    }

    fn current_branch(&mut self) -> (r: Result<String, String>)
        ensures
            ran_text(old(self).runs(), final(self).runs(), seq!["rev-parse"@, "--abbrev-ref"@, "HEAD"@], r),
    {
        let ghost h = self.history@;
        let r = self.current_branch_raw();
        proof {
            self.history = Ghost(h.push(git_event(GitOp::CurrentBranch, Seq::empty(), text_answer(r))));
        }
        r
    }

    fn fetch(&mut self) -> (r: Result<(), String>)
        ensures
            ran_done(old(self).runs(), final(self).runs(), seq!["fetch"@, "--all"@, "--prune"@], r),
    {
        let ghost h = self.history@;
        let r = self.fetch_raw();
        proof {
            self.history = Ghost(h.push(git_event(GitOp::Fetch, Seq::empty(), unit_answer(r))));
        }
        r
    }

    fn checkout(&mut self, branch: &str) -> (r: Result<(), String>)
        ensures
            ran_done(old(self).runs(), final(self).runs(), seq!["checkout"@, branch@], r),
    {
        let ghost h = self.history@;
        let r = self.checkout_raw(branch);
        proof {
            self.history = Ghost(h.push(git_event(GitOp::Checkout, seq![branch@], unit_answer(r))));
        }
        r
    }

    fn create_branch(&mut self, branch: &str, from: &str) -> (r: Result<(), String>)
        ensures
            ran_done(old(self).runs(), final(self).runs(), seq!["checkout"@, "-b"@, branch@, from@], r),
    {
        let ghost h = self.history@;
        let r = self.create_branch_raw(branch, from);
        proof {
            self.history = Ghost(h.push(git_event(GitOp::CreateBranch, seq![branch@, from@], unit_answer(r))));
        }
        r
    }

    fn create_branch_no_checkout(&mut self, branch: &str, from: &str) -> (r: Result<(), String>)
        ensures
            ran_done(old(self).runs(), final(self).runs(), seq!["branch"@, branch@, from@], r),
    {
        let ghost h = self.history@;
        let r = self.create_branch_no_checkout_raw(branch, from);
        proof {
            self.history = Ghost(h.push(git_event(GitOp::CreateBranchNoCheckout, seq![branch@, from@], unit_answer(r))));
        }
        r
    }

    fn push(&mut self, branch: &str) -> (r: Result<(), String>)
        ensures
            ran_done(old(self).runs(), final(self).runs(), seq!["push"@, "-u"@, "origin"@, branch@], r),
    {
        let ghost h = self.history@;
        let r = self.push_raw(branch);
        proof {
            self.history = Ghost(h.push(git_event(GitOp::Push, seq![branch@], unit_answer(r))));
        }
        r
    }

    fn push_tag(&mut self, tag: &str) -> (r: Result<(), String>)
        ensures
            ran_done(old(self).runs(), final(self).runs(), seq!["push"@, "origin"@, tag@], r),
    {
        let ghost h = self.history@;
        let r = self.push_tag_raw(tag);
        proof {
            self.history = Ghost(h.push(git_event(GitOp::PushTag, seq![tag@], unit_answer(r))));
        }
        r
    }

    fn create_tag(&mut self, tag: &str, message: &str) -> (r: Result<(), String>)
        ensures
            ran_done(old(self).runs(), final(self).runs(), seq!["tag"@, "-a"@, tag@, "-m"@, message@], r),
    {
        let ghost h = self.history@;
        let r = self.create_tag_raw(tag, message);
        proof {
            self.history = Ghost(h.push(git_event(GitOp::CreateTag, seq![tag@, message@], unit_answer(r))));
        }
        r
    }

    fn create_tag_at(&mut self, tag: &str, message: &str, sha: &str) -> (r: Result<(), String>)
        ensures
            ran_done(old(self).runs(), final(self).runs(), seq!["tag"@, "-a"@, tag@, "-m"@, message@, sha@], r),
    {
        let ghost h = self.history@;
        let r = self.create_tag_at_raw(tag, message, sha);
        proof {
            self.history = Ghost(h.push(git_event(GitOp::CreateTagAt, seq![tag@, message@, sha@], unit_answer(r))));
        }
        r
    }

    fn merge(&mut self, branch: &str, message: &str) -> (r: Result<(), String>)
        ensures
            ran_done(old(self).runs(), final(self).runs(), seq!["merge"@, branch@, "--no-ff"@, "-m"@, message@], r),
    {
        let ghost h = self.history@;
        let r = self.merge_raw(branch, message);
        proof {
            self.history = Ghost(h.push(git_event(GitOp::Merge, seq![branch@, message@], unit_answer(r))));
        }
        r
    }

    fn pull(&mut self, branch: &str) -> (r: Result<(), String>)
        ensures
            ran_done(old(self).runs(), final(self).runs(), seq!["merge"@, branch@, "--ff-only"@], r),
    {
        let ghost h = self.history@;
        let r = self.pull_raw(branch);
        proof {
            self.history = Ghost(h.push(git_event(GitOp::Pull, seq![branch@], unit_answer(r))));
        }
        r
    }

    fn ff_merge(&mut self, target: &str) -> (r: Result<(), String>)
        ensures
            ran_done(old(self).runs(), final(self).runs(), seq!["merge"@, "--ff-only"@, target@], r),
    {
        let ghost h = self.history@;
        let r = self.ff_merge_raw(target);
        proof {
            self.history = Ghost(h.push(git_event(GitOp::FfMerge, seq![target@], unit_answer(r))));
        }
        r
    }

    fn list_tags(&mut self) -> (r: Result<Vec<String>, String>)
        ensures
            ran_reading(old(self).runs(), final(self).runs(), seq!["tag"@, "--list"@], |o: Seq<char>, x: Result<Vec<String>, String>| x matches Ok(v) && views(v@) == listed_names(o), r),
    {
        let ghost h = self.history@;
        let r = self.list_tags_raw();
        proof {
            self.history = Ghost(h.push(git_event(GitOp::ListTags, Seq::empty(), texts_answer(r))));
        }
        r
    }

    fn list_branches_matching(&mut self, pattern: &str) -> (r: Result<Vec<String>, String>) {
        let ghost h = self.history@;
        let r = self.list_branches_matching_raw(pattern);
        proof {
            self.history = Ghost(h.push(git_event(GitOp::ListBranchesMatching, seq![pattern@], texts_answer(r))));
        }
        r
    }

    fn is_working_tree_clean(&mut self) -> (r: Result<bool, String>)
        ensures
            ran_reading(old(self).runs(), final(self).runs(), seq!["status"@, "--porcelain"@], |o: Seq<char>, x: Result<bool, String>| x == Ok::<bool, String>(o.len() == 0), r),
    {
        let ghost h = self.history@;
        let r = self.is_working_tree_clean_raw();
        proof {
            self.history = Ghost(h.push(git_event(GitOp::IsWorkingTreeClean, Seq::empty(), flag_answer(r))));
        }
        r
    }

    fn delete_branch_local(&mut self, branch: &str) -> (r: Result<(), String>)
        ensures
            ran_done(old(self).runs(), final(self).runs(), seq!["branch"@, "-D"@, branch@], r),
    {
        let ghost h = self.history@;
        let r = self.delete_branch_local_raw(branch);
        proof {
            self.history = Ghost(h.push(git_event(GitOp::DeleteBranchLocal, seq![branch@], unit_answer(r))));
        }
        r
    }

    fn delete_branch_remote(&mut self, branch: &str) -> (r: Result<(), String>)
        ensures
            ran_done(old(self).runs(), final(self).runs(), seq!["push"@, "origin"@, "--delete"@, branch@], r),
    {
        let ghost h = self.history@;
        let r = self.delete_branch_remote_raw(branch);
        proof {
            self.history = Ghost(h.push(git_event(GitOp::DeleteBranchRemote, seq![branch@], unit_answer(r))));
        }
        r
    }

    fn tags_on_branch(&mut self, branch: &str) -> (r: Result<Vec<String>, String>)
        ensures
            ran_reading(old(self).runs(), final(self).runs(), seq!["tag"@, "--merged"@, branch@], |o: Seq<char>, x: Result<Vec<String>, String>| x matches Ok(v) && views(v@) == listed_names(o), r),
    {
        let ghost h = self.history@;
        let r = self.tags_on_branch_raw(branch);
        proof {
            self.history = Ghost(h.push(git_event(GitOp::TagsOnBranch, seq![branch@], texts_answer(r))));
        }
        r
    }

    fn list_remote_branches(&mut self) -> (r: Result<Vec<String>, String>)
        ensures
            ran_reading(old(self).runs(), final(self).runs(), seq!["for-each-ref"@, "--format=%(refname:short)"@, "refs/remotes/origin/"@], |o: Seq<char>, x: Result<Vec<String>, String>| x matches Ok(v) && views(v@) == remote_branch_names(o), r),
    {
        let ghost h = self.history@;
        let r = self.list_remote_branches_raw();
        proof {
            self.history = Ghost(h.push(git_event(GitOp::ListRemoteBranches, Seq::empty(), texts_answer(r))));
        }
        r
    }

    fn merge_base(&mut self, a: &str, b: &str) -> (r: Result<String, String>)
        ensures
            ran_text(old(self).runs(), final(self).runs(), seq!["merge-base"@, a@, b@], r),
    {
        let ghost h = self.history@;
        let r = self.merge_base_raw(a, b);
        proof {
            self.history = Ghost(h.push(git_event(GitOp::MergeBase, seq![a@, b@], text_answer(r))));
        }
        r
    }

    fn rev_list_count(&mut self, from: &str, to: &str) -> (r: Result<u32, String>)
        ensures
            ran_reading(old(self).runs(), final(self).runs(), seq!["rev-list"@, "--count"@, from@ + ".."@ + to@], |o: Seq<char>, x: Result<u32, String>| match spec_parse_u32(o) { Some(n) => x == Ok::<u32, String>(n), None => x is Err }, r),
    {
        let ghost h = self.history@;
        let r = self.rev_list_count_raw(from, to);
        proof {
            self.history = Ghost(h.push(git_event(GitOp::RevListCount, seq![from@, to@], count_answer(r))));
        }
        r
    }

    fn stash_push(&mut self) -> (r: Result<(), String>)
        ensures
            ran_done(old(self).runs(), final(self).runs(), seq!["stash"@, "push"@, "-u"@], r),
    {
        let ghost h = self.history@;
        let r = self.stash_push_raw();
        proof {
            self.history = Ghost(h.push(git_event(GitOp::StashPush, Seq::empty(), unit_answer(r))));
        }
        r
    }

    fn stash_pop(&mut self) -> (r: Result<(), String>)
        ensures
            ran_done(old(self).runs(), final(self).runs(), seq!["stash"@, "pop"@], r),
    {
        let ghost h = self.history@;
        let r = self.stash_pop_raw();
        proof {
            self.history = Ghost(h.push(git_event(GitOp::StashPop, Seq::empty(), unit_answer(r))));
        }
        r
    }

    fn commit_messages(&mut self, from: &str, to: &str) -> (r: Result<Vec<String>, String>)
        ensures
            messages_read(old(self).runs(), final(self).runs(), from@, to@, r),
    {
        let ghost h = self.history@;
        let r = self.commit_messages_raw(from, to);
        proof {
            self.history = Ghost(h.push(git_event(GitOp::CommitMessages, seq![from@, to@], texts_answer(r))));
        }
        r
    }

    fn stage_all(&mut self) -> (r: Result<(), String>)
        ensures
            ran_done(old(self).runs(), final(self).runs(), seq!["add"@, "-A"@], r),
    {
        let ghost h = self.history@;
        let r = self.stage_all_raw();
        proof {
            self.history = Ghost(h.push(git_event(GitOp::StageAll, Seq::empty(), unit_answer(r))));
        }
        r
    }

    fn commit(&mut self, message: &str) -> (r: Result<(), String>)
        ensures
            ran_done(old(self).runs(), final(self).runs(), seq!["commit"@, "-m"@, message@], r),
    {
        let ghost h = self.history@;
        let r = self.commit_raw(message);
        proof {
            self.history = Ghost(h.push(git_event(GitOp::Commit, seq![message@], unit_answer(r))));
        }
        r
    }

    fn is_ancestor(&mut self, ancestor: &str, descendant: &str) -> (r: Result<bool, String>)
        ensures
            checked_with(old(self).runs(), final(self).runs(), seq!["merge-base"@, "--is-ancestor"@, ancestor@, descendant@], r),
    {
        let ghost h = self.history@;
        let r = self.is_ancestor_raw(ancestor, descendant);
        proof {
            self.history = Ghost(h.push(git_event(GitOp::IsAncestor, seq![ancestor@, descendant@], flag_answer(r))));
        }
        r
    }

    fn tag_exists(&mut self, tag: &str) -> (r: Result<bool, String>)
        ensures
            checked_with(old(self).runs(), final(self).runs(), seq!["show-ref"@, "--verify"@, "--quiet"@, "refs/tags/"@ + tag@], r),
    {
        let ghost h = self.history@;
        let r = self.tag_exists_raw(tag);
        proof {
            self.history = Ghost(h.push(git_event(GitOp::TagExists, seq![tag@], flag_answer(r))));
        }
        r
    }

    fn local_branch_exists(&mut self, branch: &str) -> (r: Result<bool, String>)
        ensures
            checked_with(old(self).runs(), final(self).runs(), seq!["show-ref"@, "--verify"@, "--quiet"@, "refs/heads/"@ + branch@], r),
    {
        let ghost h = self.history@;
        let r = self.local_branch_exists_raw(branch);
        proof {
            self.history = Ghost(h.push(git_event(GitOp::LocalBranchExists, seq![branch@], flag_answer(r))));
        }
        r
    }

    fn remote_branch_exists(&mut self, branch: &str) -> (r: Result<bool, String>)
        ensures
            remote_branch_checked(old(self).runs(), final(self).runs(), branch@, r),
    {
        let ghost h = self.history@;
        let r = self.remote_branch_exists_raw(branch);
        proof {
            self.history = Ghost(h.push(git_event(GitOp::RemoteBranchExists, seq![branch@], flag_answer(r))));
        }
        r
    }

    fn remote_tag_exists(&mut self, tag: &str) -> (r: Result<bool, String>) {
        let ghost h = self.history@;
        let r = self.remote_tag_exists_raw(tag);
        proof {
            self.history = Ghost(h.push(git_event(GitOp::RemoteTagExists, seq![tag@], flag_answer(r))));
        }
        r
    }

    fn is_pushed(&mut self, branch: &str) -> (r: Result<bool, String>) {
        let ghost h = self.history@;
        let r = self.is_pushed_raw(branch);
        proof {
            self.history = Ghost(h.push(git_event(GitOp::IsPushed, seq![branch@], flag_answer(r))));
        }
        r
    }

    fn is_mid_merge(&mut self) -> (r: Result<bool, String>) {
        let ghost h = self.history@;
        let r = self.is_mid_merge_raw();
        proof {
            self.history = Ghost(h.push(git_event(GitOp::IsMidMerge, Seq::empty(), flag_answer(r))));
        }
        r
    }

    fn has_unmerged_paths(&mut self) -> (r: Result<bool, String>) {
        let ghost h = self.history@;
        let r = self.has_unmerged_paths_raw();
        proof {
            self.history = Ghost(h.push(git_event(GitOp::HasUnmergedPaths, Seq::empty(), flag_answer(r))));
        }
        r
    }

    fn git_dir(&mut self) -> (r: Result<String, String>)
        ensures
            ran_text(old(self).runs(), final(self).runs(), seq!["rev-parse"@, "--git-dir"@], r),
    {
        let ghost h = self.history@;
        let r = self.git_dir_raw();
        proof {
            self.history = Ghost(h.push(git_event(GitOp::GitDir, Seq::empty(), text_answer(r))));
        }
        r
    }

    fn repo_root(&mut self) -> (r: Result<String, String>)
        ensures
            ran_text(old(self).runs(), final(self).runs(), seq!["rev-parse"@, "--show-toplevel"@], r),
    {
        let ghost h = self.history@;
        let r = self.repo_root_raw();
        proof {
            self.history = Ghost(h.push(git_event(GitOp::RepoRoot, Seq::empty(), text_answer(r))));
        }
        r
    }

    fn rev_parse(&mut self, refname: &str) -> (r: Result<String, String>)
        ensures
            ran_text(old(self).runs(), final(self).runs(), seq!["rev-parse"@, refname@], r),
    {
        let ghost h = self.history@;
        let r = self.rev_parse_raw(refname);
        proof {
            self.history = Ghost(h.push(git_event(GitOp::RevParse, seq![refname@], text_answer(r))));
        }
        r
    }

    fn head_sha(&mut self) -> (r: Result<String, String>)
        ensures
            ran_text(old(self).runs(), final(self).runs(), seq!["rev-parse"@, "HEAD"@], r),
    {
        let ghost h = self.history@;
        let r = self.head_sha_raw();
        proof {
            self.history = Ghost(h.push(git_event(GitOp::HeadSha, Seq::empty(), text_answer(r))));
        }
        r
    }

    fn remote_url(&mut self) -> (r: Result<String, String>)
        ensures
            ran_text(old(self).runs(), final(self).runs(), seq!["remote"@, "get-url"@, "origin"@], r),
    {
        let ghost h = self.history@;
        let r = self.remote_url_raw();
        proof {
            self.history = Ghost(h.push(git_event(GitOp::RemoteUrl, Seq::empty(), text_answer(r))));
        }
        r
    }

    fn is_linked_worktree(&mut self) -> (r: Result<bool, String>) {
        let ghost h = self.history@;
        let r = self.is_linked_worktree_raw();
        proof {
            self.history = Ghost(h.push(git_event(GitOp::IsLinkedWorktree, Seq::empty(), flag_answer(r))));
        }
        r
    }

    fn detach_head(&mut self) -> (r: Result<(), String>)
        ensures
            ran_done(old(self).runs(), final(self).runs(), seq!["checkout"@, "--detach"@], r),
    {
        let ghost h = self.history@;
        let r = self.detach_head_raw();
        proof {
            self.history = Ghost(h.push(git_event(GitOp::DetachHead, Seq::empty(), unit_answer(r))));
        }
        r
    }

    fn remove_current_worktree(&mut self) -> (r: Result<(), String>) {
        let ghost h = self.history@;
        let r = self.remove_current_worktree_raw();
        proof {
            self.history = Ghost(h.push(git_event(GitOp::RemoveCurrentWorktree, Seq::empty(), unit_answer(r))));
        }
        r
    }

    fn branch_sha(&mut self, branch: &str) -> (r: Result<String, String>)
        ensures
            ran_text(old(self).runs(), final(self).runs(), seq!["rev-parse"@, "refs/heads/"@ + branch@], r),
    {
        let ghost h = self.history@;
        let r = self.branch_sha_raw(branch);
        proof {
            self.history = Ghost(h.push(git_event(GitOp::BranchSha, seq![branch@], text_answer(r))));
        }
        r
    }

    fn tag_commit_sha(&mut self, tag: &str) -> (r: Result<String, String>)
        ensures
            ran_text(old(self).runs(), final(self).runs(), seq!["rev-list"@, "-n"@, "1"@, tag@], r),
    {
        let ghost h = self.history@;
        let r = self.tag_commit_sha_raw(tag);
        proof {
            self.history = Ghost(h.push(git_event(GitOp::TagCommitSha, seq![tag@], text_answer(r))));
        }
        r
    }

    fn get_config(&mut self, key: &str) -> (r: Result<Option<String>, String>)
        ensures
            one_more_run(old(self).runs(), final(self).runs()) && (final(self).runs().last() matches GitRun::Exit(a, out) && a == seq!["config"@, "--get"@, key@] && match out {
                Ok((code, o, e)) => match config_get_outcome(key@, code, o, e) {
                    Ok(Some(v)) => r matches Ok(Some(w)) && w@ == v,
                    Ok(None) => r matches Ok(None),
                    Err(m) => r matches Err(f) && f@ == m,
                },
                Err(e) => r matches Err(m) && m@ == e,
            }),
    {
        let ghost h = self.history@;
        let r = self.get_config_raw(key);
        proof {
            self.history = Ghost(h.push(git_event(GitOp::GetConfig, seq![key@], maybe_text_answer(r))));
        }
        r
    }

    fn set_config(&mut self, key: &str, value: &str, global: bool) -> (r: Result<(), String>) {
        let ghost h = self.history@;
        let r = self.set_config_raw(key, value, global);
        proof {
            self.history = Ghost(h.push(git_event(GitOp::SetConfig, seq![key@, value@, bool_text(global)], unit_answer(r))));
        }
        r
    }

    fn unset_config(&mut self, key: &str, global: bool) -> (r: Result<(), String>) {
        let ghost h = self.history@;
        let r = self.unset_config_raw(key, global);
        proof {
            self.history = Ghost(h.push(git_event(GitOp::UnsetConfig, seq![key@, bool_text(global)], unit_answer(r))));
        }
        r
    }

    fn add_worktree(&mut self, path: &str, branch: &str) -> (r: Result<(), String>)
        ensures
            ran_done(old(self).runs(), final(self).runs(), seq!["worktree"@, "add"@, path@, branch@], r),
    {
        let ghost h = self.history@;
        let r = self.add_worktree_raw(path, branch);
        proof {
            self.history = Ghost(h.push(git_event(GitOp::AddWorktree, seq![path@, branch@], unit_answer(r))));
        }
        r
    }

    fn stash_push_with_message(&mut self, msg: &str) -> (r: Result<(), String>)
        ensures
            ran_done(old(self).runs(), final(self).runs(), seq!["stash"@, "push"@, "-u"@, "-m"@, msg@], r),
    {
        let ghost h = self.history@;
        let r = self.stash_push_with_message_raw(msg);
        proof {
            self.history = Ghost(h.push(git_event(GitOp::StashPushWithMessage, seq![msg@], unit_answer(r))));
        }
        r
    }

    fn find_stash_by_message(&mut self, msg: &str) -> (r: Result<Option<String>, String>) {
        let ghost h = self.history@;
        let r = self.find_stash_by_message_raw(msg);
        proof {
            self.history = Ghost(h.push(git_event(GitOp::FindStashByMessage, seq![msg@], maybe_text_answer(r))));
        }
        r
    }

    fn stash_pop_ref(&mut self, stash_ref: &str) -> (r: Result<(), String>)
        ensures
            ran_done(old(self).runs(), final(self).runs(), seq!["stash"@, "pop"@, stash_ref@], r),
    {
        let ghost h = self.history@;
        let r = self.stash_pop_ref_raw(stash_ref);
        proof {
            self.history = Ghost(h.push(git_event(GitOp::StashPopRef, seq![stash_ref@], unit_answer(r))));
        }
        r
    }
}

} // verus!
