//! The hosting platform (GitHub, Azure DevOps): pull requests and the CLIs
//! that manage them.
use vstd::prelude::*;

pub mod detect;
pub mod devops;
pub mod github;
pub mod template;

use crate::paths::path_exists;

verus! {

/// A pull request that has been merged: everything a finish needs to decide the
/// work is done and clean up. `head_sha` is the source-branch tip that was
/// merged.
#[derive(Debug, Clone, PartialEq)]
pub struct MergedPr {
    pub url: String,
    pub head_sha: String,
    /// Short name of the branch the PR merged into (e.g. `develop`).
    pub base: String,
}

/// A PR that landed `head` into a specific `base`, with the merge commit it
/// made.
#[derive(Debug, Clone, PartialEq)]
pub struct LandedPr {
    pub url: String,
    pub head_sha: String,
    pub merge_commit_sha: String,
}

/// An operation the library asks of the hosting platform.
#[derive(Debug, Clone, Copy, PartialEq, Eq, Structural)]
pub enum HostOp {
    CreateOrGetPr,
    MergedPr,
    MergedPrTo,
    OpenUrl,
    CheckAuth,
}

/// What the hosting platform answered.
pub ghost enum HostAnswer {
    Done,
    /// A PR's URL.
    Url(Seq<char>),
    /// A merged PR (URL, head commit, base branch), or none.
    Merged(Option<(Seq<char>, Seq<char>, Seq<char>)>),
    /// A landed PR (URL, head commit, merge commit), or none.
    Landed(Option<(Seq<char>, Seq<char>, Seq<char>)>),
    Failed(Seq<char>),
}

/// One operation asked of the hosting platform: what, with which arguments,
/// and the answer.
pub ghost struct HostEvent {
    pub op: HostOp,
    pub args: Seq<Seq<char>>,
    pub answer: HostAnswer,
}

pub open spec fn host_event(op: HostOp, args: Seq<Seq<char>>, answer: HostAnswer) -> HostEvent {
    HostEvent { op, args, answer }
}

/// Operation `k` of `h` is `op` with `args`.
pub open spec fn host_call_at(h: Seq<HostEvent>, k: int, op: HostOp, args: Seq<Seq<char>>) -> bool {
    0 <= k < h.len() && h[k].op == op && h[k].args == args
}

/// `h1` is `h0` with more operations after it.
pub open spec fn host_extends(h1: Seq<HostEvent>, h0: Seq<HostEvent>) -> bool {
    h0.len() <= h1.len() && forall|i: int| 0 <= i < h0.len() ==> #[trigger] h1[i] == h0[i]
}

/// Every PR opened between `h0` and `h` was asked for with `args`.
pub open spec fn prs_opened_with(h0: Seq<HostEvent>, h: Seq<HostEvent>, args: Seq<Seq<char>>) -> bool {
    forall|i: int| h0.len() <= i < h.len() && #[trigger] h[i].op == HostOp::CreateOrGetPr ==> h[i].args == args
}

/// No PR was opened between `h0` and `h`.
pub open spec fn no_pr_opened(h0: Seq<HostEvent>, h: Seq<HostEvent>) -> bool {
    forall|i: int| h0.len() <= i < h.len() ==> #[trigger] h[i].op != HostOp::CreateOrGetPr
}

/// A PR opened between `h0` and `h` with `args` answered the URL `u`.
pub open spec fn pr_answered(h0: Seq<HostEvent>, h: Seq<HostEvent>, args: Seq<Seq<char>>, u: Seq<char>) -> bool {
    exists|i: int| h0.len() <= i < h.len() && #[trigger] h[i].op == HostOp::CreateOrGetPr && h[i].args == args
        && h[i].answer == HostAnswer::Url(u)
}

/// The arguments of a PR creation: head, base, title, and the template when
/// there is one.
pub open spec fn pr_args(head: Seq<char>, base: Seq<char>, title: Seq<char>, template: Option<&str>) -> Seq<Seq<char>> {
    match template {
        Some(t) => seq![head, base, title, t@],
        None => seq![head, base, title],
    }
}

pub open spec fn url_answer(r: Result<String, String>) -> HostAnswer {
    match r {
        Ok(u) => HostAnswer::Url(u@),
        Err(e) => HostAnswer::Failed(e@),
    }
}

pub open spec fn done_answer(r: Result<(), String>) -> HostAnswer {
    match r {
        Ok(_) => HostAnswer::Done,
        Err(e) => HostAnswer::Failed(e@),
    }
}

pub open spec fn merged_answer(r: Result<Option<MergedPr>, String>) -> HostAnswer {
    match r {
        Ok(Some(pr)) => HostAnswer::Merged(Some((pr.url@, pr.head_sha@, pr.base@))),
        Ok(None) => HostAnswer::Merged(None),
        Err(e) => HostAnswer::Failed(e@),
    }
}

pub open spec fn landed_answer(r: Result<Option<LandedPr>, String>) -> HostAnswer {
    match r {
        Ok(Some(pr)) => HostAnswer::Landed(Some((pr.url@, pr.head_sha@, pr.merge_commit_sha@))),
        Ok(None) => HostAnswer::Landed(None),
        Err(e) => HostAnswer::Failed(e@),
    }
}

/// Interface to the hosting platform. What it answers depends on the service,
/// so no method promises anything of its answer; each one records what it
/// was asked and what it answered in `history`.
pub trait HostingPlatform {
    /// Every operation asked of this platform so far, in order.
    open spec fn history(&self) -> Seq<HostEvent> {
        Seq::empty()
    }

    /// Create a PR (or return the URL of an existing open one). When `template`
    /// is `Some`, its contents become the PR body; when `None`, the platform
    /// falls back to the repository's own default template.
    fn create_or_get_pr(&mut self, head: &str, base: &str, title: &str, template: Option<&str>) -> (r: Result<String, String>)
        ensures
            final(self).history() == old(self).history().push(
                host_event(HostOp::CreateOrGetPr, pr_args(head@, base@, title@, template), url_answer(r)),
            ),
    ;

    /// The merged PR for `head`, if the branch's most recent PR is merged.
    fn merged_pr(&mut self, head: &str) -> (r: Result<Option<MergedPr>, String>)
        ensures
            final(self).history() == old(self).history().push(host_event(HostOp::MergedPr, seq![head@], merged_answer(r))),
    ;

    /// The newest `head`-to-`base` PR, if it is merged.
    fn merged_pr_to(&mut self, head: &str, base: &str) -> (r: Result<Option<LandedPr>, String>)
        ensures
            final(self).history() == old(self).history().push(
                host_event(HostOp::MergedPrTo, seq![head@, base@], landed_answer(r)),
            ),
    ;

    /// Show `url` (a pull request) to the user in their browser.
    fn open_url(&mut self, url: &str) -> (r: Result<(), String>)
        ensures
            final(self).history() == old(self).history().push(host_event(HostOp::OpenUrl, seq![url@], done_answer(r))),
    ;

    fn check_auth(&mut self) -> (r: Result<(), String>)
        ensures
            final(self).history() == old(self).history().push(host_event(HostOp::CheckAuth, Seq::empty(), done_answer(r))),
    ;
}

/// Interface to the user's web browser, for the providers' `open_url`.
pub trait Browser {
    fn open(&self, url: &str) -> Result<(), String>;
}

/// Interface to reading a text file (a PR template), so the providers' policy
/// runs without a file system.
pub trait TextFiles {
    /// The file's contents, or why it could not be read.
    fn read(&self, path: &str) -> Result<String, String>;
}

/// Interface for invoking a hosting CLI (`gh`, `az`, ...). The providers own the
/// policy (which flags to pass, which failures are normal) and depend on this
/// trait so that policy runs without an installed CLI.
pub trait CliRunner {
    /// Run `program` with `args`, returning trimmed stdout on success or a
    /// `"<cli> <args> failed: <stderr>"` error.
    fn run(&self, program: &str, args: &[&str]) -> Result<String, String>;
}

/// PR-body precedence shared by all providers: a bflow-resolved template wins,
/// else the first existing native default-template path, else `None` (empty
/// body).
pub fn resolve_body_file(template: Option<&str>, native_paths: &[&str]) -> (r: Option<String>)
    ensures
        template matches Some(t) ==> (r matches Some(p) && p@ == t@),
        template is None ==> (r is None || (r matches Some(p) && exists|i: int|
            0 <= i < native_paths@.len() && p@ == (#[trigger] native_paths@[i])@)),
{
    match template {
        Some(t) => Some(String::from_str(t)),
        None => {
            let mut i: usize = 0;
            while i < native_paths.len()
                invariant
                    template is None,
                    i <= native_paths@.len(),
                decreases native_paths@.len() - i,
            {
                if path_exists(native_paths[i]) {
                    let p = String::from_str(native_paths[i]);
                    assert(p@ == native_paths@[i as int]@);
                    return Some(p);
                }
                i = i + 1;
            }
            None
        },
    }
}

} // verus!
