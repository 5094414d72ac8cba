//! The flows: starting and finishing branches against git and the hosting
//! platform. Each step of a release or hotfix finish is guarded by a
//! real-state predicate, so a re-run after an interruption skips what is done
//! and reports it with a "↷ skipped:" line.
use vstd::prelude::*;

pub mod start;
pub mod finish_work;
pub mod finish_release;
pub mod finish_hotfix;

use crate::git::{call_at, no_local_change, Git, GitAnswer, GitEvent, GitOp};
use crate::hosting::{host_call_at, HostAnswer, no_pr_opened, pr_answered, pr_args, prs_opened_with, HostOp, HostingPlatform, LandedPr};
use crate::text::{cat, chars_of, has_prefix, owned, starts_with_at, substring};
use crate::version::{law_version_order, rc_label, release_view, spec_parse_version, tag_text, version_lt, version_text, SemVer, VersionView};
use crate::text::views;
use crate::version_script::VersionScript;

verus! {

/// Interface for what a flow tells the user as it goes: progress on standard
/// output, warnings on standard error.
pub trait Output {
    fn line(&self, text: &str);
    fn warning(&self, text: &str);
}

// --- Messages and decisions -------------------------------------------------

pub open spec fn resume_hint_text(source: Seq<char>) -> Seq<char> {
    "Resolve the conflict and commit the merge, then switch back to the source branch and re-run 'bflow finish' to continue:\n    git add . && git commit --no-edit\n    git switch "@
        + source + "\n    bflow finish"@
}

/// Guidance appended to a merge conflict during a release/hotfix finish.
/// Resume is branch-scoped: bflow only continues an interrupted finish when you
/// are standing on its source branch, so the user must switch back first.
pub fn resume_hint(source_branch: &str) -> (r: String)
    ensures
        r@ == resume_hint_text(source_branch@),
{
    let mut s = String::from_str(
        "Resolve the conflict and commit the merge, then switch back to the source branch and re-run 'bflow finish' to continue:\n    git add . && git commit --no-edit\n    git switch ",
    );
    s.append(source_branch);
    s.append("\n    bflow finish");
    s
}

/// The tag whose existence means the versioned branch `branch` (under
/// `prefix/`) has shipped: its clean release tag. `None` when the branch's
/// version does not parse.
pub open spec fn shipped_tag_text(branch: Seq<char>, prefix: Seq<char>) -> Option<Seq<char>> {
    if has_prefix(branch, prefix + "/"@) {
        match spec_parse_version(branch.skip(prefix.len() as int + 1)) {
            Some(v) => Some(tag_text(release_view(v.major, v.minor, v.patch))),
            None => None,
        }
    } else {
        None
    }
}

pub fn shipped_tag(branch: &str, prefix: &str) -> (r: Option<String>)
    ensures
        match shipped_tag_text(branch@, prefix@) {
            Some(t) => r matches Some(x) && x@ == t,
            None => r is None,
        },
{
    let lead = cat(&[prefix, "/"]);
    proof {
        reveal_strlit("/");
        reveal_with_fuel(crate::text::concat, 3);
        assert(lead@ =~= prefix@ + "/"@);
    }
    let v = chars_of(branch);
    assert(v@.skip(0) =~= v@);
    if !starts_with_at(&v, 0, lead.as_str()) {
        return None;
    }
    let rest = substring(branch, lead.as_str().unicode_len(), v.len());
    assert(rest@ =~= branch@.skip(prefix@.len() as int + 1));
    match SemVer::parse(rest.as_str()) {
        Some(version) => Some(version.to_release().tag_name()),
        None => None,
    }
}

pub open spec fn tag_mismatch_text(tag: Seq<char>, actual: Seq<char>, sha: Seq<char>) -> Seq<char> {
    "Tag "@ + tag + " exists but points at "@ + actual + ", not the PR merge commit "@ + sha
        + ". Move or delete the tag, then re-run 'bflow finish'."@
}

/// The refusal to reuse a tag that points somewhere other than the landing
/// merge commit.
pub fn tag_mismatch_message(tag: &str, actual: &str, sha: &str) -> (r: String)
    ensures
        r@ == tag_mismatch_text(tag@, actual@, sha@),
{
    let mut s = String::from_str("Tag ");
    s.append(tag);
    s.append(" exists but points at ");
    s.append(actual);
    s.append(", not the PR merge commit ");
    s.append(sha);
    s.append(". Move or delete the tag, then re-run 'bflow finish'.");
    s
}

pub open spec fn behind_text(source: Seq<char>) -> Seq<char> {
    "Local "@ + source + " is behind origin/"@ + source + ". Run 'git pull --ff-only', then re-run."@
}

pub open spec fn diverged_text(source: Seq<char>) -> Seq<char> {
    "Local "@ + source + " and origin/"@ + source
        + " have diverged. Reconcile them (e.g. 'git pull --rebase'), then re-run."@
}

pub fn behind_message(source: &str) -> (r: String)
    ensures
        r@ == behind_text(source@),
{
    let mut s = String::from_str("Local ");
    s.append(source);
    s.append(" is behind origin/");
    s.append(source);
    s.append(". Run 'git pull --ff-only', then re-run.");
    s
}

pub fn diverged_message(source: &str) -> (r: String)
    ensures
        r@ == diverged_text(source@),
{
    let mut s = String::from_str("Local ");
    s.append(source);
    s.append(" and origin/");
    s.append(source);
    s.append(" have diverged. Reconcile them (e.g. 'git pull --rebase'), then re-run.");
    s
}

/// Whether `sha` is the head of one of the landed PRs.
pub fn tip_in(sha: &str, landed: &Vec<LandedPr>) -> (r: bool)
    ensures
        r == exists|i: int| 0 <= i < landed@.len() && (#[trigger] landed@[i]).head_sha@ == sha@,
{
    let mut i: usize = 0;
    while i < landed.len()
        invariant
            i <= landed@.len(),
            forall|k: int| 0 <= k < i ==> (#[trigger] landed@[k]).head_sha@ != sha@,
        decreases landed@.len() - i,
    {
        if string_eq(landed[i].head_sha.as_str(), sha) {
            return true;
        }
        i = i + 1;
    }
    false
}

/// Whether two strings are equal.
pub fn string_eq(a: &str, b: &str) -> (r: bool)
    ensures
        r == (a@ == b@),
{
    let v = chars_of(a);
    assert(v@.subrange(0, v@.len() as int) =~= v@);
    crate::text::range_eq(&v, 0, v.len(), b)
}

/// Which tags take part in a "latest version" search.
pub enum TagKind {
    /// Clean releases: no pre-release part.
    Release,
    /// Release candidates: an `rc` pre-release.
    Rc,
    /// Release candidates of the `major.minor.0` release.
    RcOf { major: u32, minor: u32 },
}

pub open spec fn kind_accepts(kind: TagKind, v: VersionView) -> bool {
    match kind {
        TagKind::Release => v.pre is None,
        TagKind::Rc => v.pre matches Some(p) && p.label == rc_label(),
        TagKind::RcOf { major, minor } => v.major == major && v.minor == minor && v.patch == 0
            && (v.pre matches Some(p) && p.label == rc_label()),
    }
}

/// Tag `t` names a version of the kind.
pub open spec fn tag_of_kind(t: Seq<char>, kind: TagKind) -> bool {
    spec_parse_version(t) matches Some(v) && kind_accepts(kind, v)
}

/// `v` is the greatest version of the kind among `tags`.
pub open spec fn greatest_of_kind(tags: Seq<Seq<char>>, kind: TagKind, v: VersionView) -> bool {
    &&& exists|i: int| 0 <= i < tags.len() && tag_of_kind(#[trigger] tags[i], kind) && spec_parse_version(tags[i]) == Some(v)
    &&& forall|i: int| 0 <= i < tags.len() && tag_of_kind(#[trigger] tags[i], kind)
        ==> !version_lt(v, spec_parse_version(tags[i]).unwrap())
}

impl TagKind {
    fn accepts(&self, v: &SemVer) -> (r: bool)
        ensures
            r == kind_accepts(*self, v@),
    {
        match self {
            TagKind::Release => !v.is_pre_release(),
            TagKind::Rc => v.is_rc(),
            TagKind::RcOf { major, minor } => v.major == *major && v.minor == *minor && v.patch == 0 && v.is_rc(),
        }
    }
}

/// The greatest version of the kind among `tags`, `None` when no tag is one.
pub fn greatest_tag(tags: &Vec<String>, kind: TagKind) -> (r: Option<SemVer>)
    ensures
        r is None <==> forall|i: int| 0 <= i < tags@.len() ==> !tag_of_kind(#[trigger] views(tags@)[i], kind),
        r matches Some(v) ==> greatest_of_kind(views(tags@), kind, v@),
{
    let ghost ts = views(tags@);
    let mut best: Option<SemVer> = None;
    let mut i: usize = 0;
    while i < tags.len()
        invariant
            ts == views(tags@),
            i <= tags@.len(),
            best is None <==> forall|k: int| 0 <= k < i ==> !tag_of_kind(#[trigger] ts[k], kind),
            best matches Some(b) ==> {
                &&& exists|k: int| 0 <= k < i && tag_of_kind(#[trigger] ts[k], kind) && spec_parse_version(ts[k]) == Some(b@)
                &&& forall|k: int| 0 <= k < i && tag_of_kind(#[trigger] ts[k], kind)
                    ==> !version_lt(b@, spec_parse_version(ts[k]).unwrap())
            },
        decreases tags@.len() - i,
    {
        assert(ts[i as int] == tags@[i as int]@);
        match SemVer::parse(tags[i].as_str()) {
            Some(v) => {
                if kind.accepts(&v) {
                    let replace = match &best {
                        Some(b) => !v.is_before(b),
                        None => true,
                    };
                    if replace {
                        proof {
                            assert(tag_of_kind(ts[i as int], kind));
                            assert forall|k: int| 0 <= k < i + 1 && tag_of_kind(#[trigger] ts[k], kind) implies !version_lt(
                                v@,
                                spec_parse_version(ts[k]).unwrap(),
                            ) by {
                                let w = spec_parse_version(ts[k]).unwrap();
                                law_version_order(v@, v@, v@);
                                if k < i {
                                    let b = best.unwrap();
                                    law_version_order(v@, b@, w);
                                    law_version_order(b@, v@, w);
                                    law_version_order(v@, w, b@);
                                }
                            }
                        }
                        best = Some(v);
                    } else {
                        proof {
                            let b = best.unwrap();
                            assert(version_lt(v@, b@));
                            law_version_order(b@, v@, b@);
                        }
                    }
                }
            },
            None => {},
        }
        i = i + 1;
    }
    best
}

// --- Commit, tag and PR texts ------------------------------------------------

pub open spec fn merge_message_text(kind: Seq<char>, version: VersionView, target: Seq<char>) -> Seq<char> {
    "chore: merge "@ + kind + " "@ + version_text(version) + " into "@ + target
}

/// `chore: merge <kind> <version> into <target>`: the message of a release or
/// hotfix merge.
pub fn merge_message(kind: &str, version: &SemVer, target: &str) -> (r: String)
    ensures
        r@ == merge_message_text(kind@, version@, target@),
{
    let mut s = String::from_str("chore: merge ");
    s.append(kind);
    s.append(" ");
    s.append(version.to_string().as_str());
    s.append(" into ");
    s.append(target);
    s
}

/// `<head><version>`: a chore text naming a version, such as
/// `chore: release 1.2.0` or `chore: set version 1.2.0`.
pub fn version_message(head: &str, version: &SemVer) -> (r: String)
    ensures
        r@ == head@ + version_text(version@),
{
    let mut s = String::from_str(head);
    s.append(version.to_string().as_str());
    s
}

/// `chore: bump version to <tag>`: the message of an RC tag.
pub fn bump_tag_message(tag: &str) -> (r: String)
    ensures
        r@ == "chore: bump version to "@ + tag@,
{
    let mut s = String::from_str("chore: bump version to ");
    s.append(tag);
    s
}

// --- Idempotent finish steps -------------------------------------------------

/// At operation `l` of `h`, git reported `source` already in `target`; or
/// there `target` was checked out, fast-forwarded to its origin and had
/// `source` merged into it with `message`, each step succeeding.
pub open spec fn merged_at(h: Seq<GitEvent>, l: int, source: Seq<char>, target: Seq<char>, message: Seq<char>) -> bool {
    ||| call_at(h, l, GitOp::IsAncestor, seq![source, target]) && h[l].answer == GitAnswer::Flag(true)
    ||| {
        &&& call_at(h, l, GitOp::Checkout, seq![target]) && h[l].answer == GitAnswer::Done
        &&& call_at(h, l + 1, GitOp::FfMerge, seq!["origin/"@ + target]) && h[l + 1].answer == GitAnswer::Done
        &&& call_at(h, l + 2, GitOp::Merge, seq![source, message]) && h[l + 2].answer == GitAnswer::Done
    }
}

/// From operation `k` of `h` on, `source` was found in `target` or merged
/// into it (`merged_at`).
pub open spec fn merge_seen(h: Seq<GitEvent>, k: int, source: Seq<char>, target: Seq<char>, message: Seq<char>) -> bool {
    exists|l: int| k <= l && #[trigger] merged_at(h, l, source, target, message)
}

/// From operation `k` of `h` on, git answered the check `check` (with
/// `check_args`) that the work is already done, or did the step `step` (with
/// `step_args`) successfully.
pub open spec fn done_seen(h: Seq<GitEvent>, k: int, check: GitOp, check_args: Seq<Seq<char>>, step: GitOp, step_args: Seq<Seq<char>>) -> bool {
    exists|l: int|
        #![trigger h[l]]
        k <= l && {
            ||| call_at(h, l, check, check_args) && h[l].answer == GitAnswer::Flag(true)
            ||| call_at(h, l, step, step_args) && h[l].answer == GitAnswer::Done
        }
}

/// What was seen stays seen as git is asked more.
pub proof fn lemma_merge_seen_extends(h1: Seq<GitEvent>, h2: Seq<GitEvent>, k: int, source: Seq<char>, target: Seq<char>, message: Seq<char>)
    requires
        merge_seen(h1, k, source, target, message),
        crate::git::extends(h2, h1),
    ensures
        merge_seen(h2, k, source, target, message),
{
    let l = choose|l: int| k <= l && #[trigger] merged_at(h1, l, source, target, message);
    assert(h2[l] == h1[l]);
    if l + 2 < h1.len() {
        assert(h2[l + 1] == h1[l + 1]);
        assert(h2[l + 2] == h1[l + 2]);
    }
    assert(merged_at(h2, l, source, target, message));
}

/// What was seen from operation `k2` on was seen from any earlier one.
pub proof fn lemma_merge_seen_lower(h: Seq<GitEvent>, k2: int, k: int, source: Seq<char>, target: Seq<char>, message: Seq<char>)
    requires
        merge_seen(h, k2, source, target, message),
        k <= k2,
    ensures
        merge_seen(h, k, source, target, message),
{
    let l = choose|l: int| k2 <= l && #[trigger] merged_at(h, l, source, target, message);
    assert(merged_at(h, l, source, target, message));
}

pub proof fn lemma_done_seen_lower(
    h: Seq<GitEvent>,
    k2: int,
    k: int,
    check: GitOp,
    check_args: Seq<Seq<char>>,
    step: GitOp,
    step_args: Seq<Seq<char>>,
)
    requires
        done_seen(h, k2, check, check_args, step, step_args),
        k <= k2,
    ensures
        done_seen(h, k, check, check_args, step, step_args),
{
}

pub proof fn lemma_done_seen_extends(
    h1: Seq<GitEvent>,
    h2: Seq<GitEvent>,
    k: int,
    check: GitOp,
    check_args: Seq<Seq<char>>,
    step: GitOp,
    step_args: Seq<Seq<char>>,
)
    requires
        done_seen(h1, k, check, check_args, step, step_args),
        crate::git::extends(h2, h1),
    ensures
        done_seen(h2, k, check, check_args, step, step_args),
{
    let l = choose|l: int|
        #![trigger h1[l]]
        k <= l && {
            ||| call_at(h1, l, check, check_args) && h1[l].answer == GitAnswer::Flag(true)
            ||| call_at(h1, l, step, step_args) && h1[l].answer == GitAnswer::Done
        };
    assert(h2[l] == h1[l]);
}

/// Merge `source` into `target` (checkout, ff-sync to origin, no-ff merge),
/// skipped entirely when `source` is already an ancestor of `target`.
pub(crate) fn merge_into<G: Git>(
    git: &mut G,
    out: &dyn Output,
    source: &str,
    target: &str,
    message: &str,
    conflict_help: &str,
) -> (r: Result<(), String>)
    ensures
        crate::git::extends(final(git).history(), old(git).history()),
        r is Ok ==> merge_seen(final(git).history(), old(git).history().len() as int, source@, target@, message@),
{
    let ghost k: int = old(git).history().len() as int;
    if git.is_ancestor(source, target)? {
        assert(merged_at(git.history(), k, source@, target@, message@));
        out.line(cat(&["↷ skipped: merge into ", target, " (already merged)"]).as_str());
        return Ok(());
    }
    out.line(cat(&["Merging into ", target, "..."]).as_str());
    git.checkout(target)?;
    let remote = cat(&["origin/", target]);
    proof {
        reveal_strlit("origin/");
        reveal_with_fuel(crate::text::concat, 3);
        assert(remote@ =~= "origin/"@ + target@);
    }
    git.ff_merge(remote.as_str())?;
    match git.merge(source, message) {
        Ok(()) => {
            assert(merged_at(git.history(), k + 1, source@, target@, message@));
            Ok(())
        },
        Err(e) => Err(cat(&[e.as_str(), "\n", conflict_help])),
    }
}

/// Push `branch` unless origin already has its HEAD.
pub(crate) fn push_if_needed<G: Git>(git: &mut G, out: &dyn Output, branch: &str) -> (r: Result<(), String>)
    ensures
        crate::git::extends(final(git).history(), old(git).history()),
        r is Ok ==> done_seen(final(git).history(), old(git).history().len() as int, GitOp::IsPushed, seq![branch@], GitOp::Push, seq![branch@]),
{
    let ghost k: int = old(git).history().len() as int;
    if git.is_pushed(branch)? {
        assert(git.history()[k].answer == GitAnswer::Flag(true));
        out.line(cat(&["↷ skipped: push ", branch, " (already up to date)"]).as_str());
        return Ok(());
    }
    let r = git.push(branch);
    assert(git.history()[k + 1].answer == crate::git::unit_answer(r));
    r
}

/// Create annotated tag `tag` unless it already exists locally.
pub(crate) fn tag_if_missing<G: Git>(git: &mut G, out: &dyn Output, tag: &str, message: &str) -> (r: Result<(), String>)
    ensures
        crate::git::extends(final(git).history(), old(git).history()),
        r is Ok ==> done_seen(final(git).history(), old(git).history().len() as int, GitOp::TagExists, seq![tag@], GitOp::CreateTag, seq![tag@, message@]),
{
    let ghost k: int = old(git).history().len() as int;
    if git.tag_exists(tag)? {
        assert(git.history()[k].answer == GitAnswer::Flag(true));
        out.line(cat(&["↷ skipped: tag ", tag, " (already exists)"]).as_str());
        return Ok(());
    }
    out.line(cat(&["Tagging: ", tag]).as_str());
    let r = git.create_tag(tag, message);
    assert(git.history()[k + 1].answer == crate::git::unit_answer(r));
    r
}

/// Push `tag` unless origin already has it.
pub(crate) fn push_tag_if_missing<G: Git>(git: &mut G, out: &dyn Output, tag: &str) -> (r: Result<(), String>)
    ensures
        crate::git::extends(final(git).history(), old(git).history()),
        no_local_change(old(git).history(), final(git).history()),
        r is Ok ==> done_seen(final(git).history(), old(git).history().len() as int, GitOp::RemoteTagExists, seq![tag@], GitOp::PushTag, seq![tag@]),
        crate::git::no_commits_landed(old(git).history(), final(git).history()),
{
    let ghost k: int = old(git).history().len() as int;
    if git.remote_tag_exists(tag)? {
        assert(git.history()[k].answer == GitAnswer::Flag(true));
        out.line(cat(&["↷ skipped: push tag ", tag, " (already pushed)"]).as_str());
        return Ok(());
    }
    let r = git.push_tag(tag);
    assert(git.history()[k + 1].answer == crate::git::unit_answer(r));
    r
}

// --- Protected-mode landing helpers -----------------------------------------

/// Whether `source` has already landed into `target` via a merged PR. `None`
/// also covers "the PR merged, but source moved on since": new commits after
/// the merge are new work.
pub(crate) fn landed_pr<G: Git, H: HostingPlatform>(
    git: &mut G,
    hosting: &mut H,
    out: &dyn Output,
    source: &str,
    target: &str,
) -> (r: Result<Option<LandedPr>, String>)
    ensures
        crate::hosting::host_extends(final(hosting).history(), old(hosting).history()),
        crate::git::extends(final(git).history(), old(git).history()),
        no_local_change(old(git).history(), final(git).history()),
{
    let pr = match hosting.merged_pr_to(source, target)? {
        Some(pr) => pr,
        None => {
            return Ok(None);
        },
    };
    let sha = git.branch_sha(source)?;
    if !string_eq(sha.as_str(), pr.head_sha.as_str()) {
        out.line(
            cat(&["PR ", pr.url.as_str(), " was merged, but ", source, " has new commits since — opening a new PR."]).as_str(),
        );
        return Ok(None);
    }
    Ok(Some(pr))
}

/// Whether `source` has landed into `target`: its newest PR into `target` is
/// merged and the merge commit is on `origin/target`.
pub(crate) fn leg_landed<G: Git, H: HostingPlatform>(git: &mut G, hosting: &mut H, source: &str, target: &str) -> (r: Result<
    Option<LandedPr>,
    String,
>)
    ensures
        crate::hosting::host_extends(final(hosting).history(), old(hosting).history()),
        crate::git::extends(final(git).history(), old(git).history()),
        no_local_change(old(git).history(), final(git).history()),
        no_pr_opened(old(hosting).history(), final(hosting).history()),
        host_call_at(final(hosting).history(), old(hosting).history().len() as int, HostOp::MergedPrTo, seq![source@, target@]),
        r matches Ok(Some(pr)) ==> final(hosting).history()[old(hosting).history().len() as int].answer
            == HostAnswer::Landed(Some((pr.url@, pr.head_sha@, pr.merge_commit_sha@))) && call_at(
            final(git).history(),
            old(git).history().len() as int,
            GitOp::IsAncestor,
            seq![pr.merge_commit_sha@, "origin/"@ + target@],
        ) && final(git).history()[old(git).history().len() as int].answer == GitAnswer::Flag(true),
        r matches Ok(None) ==> unlanded_at(
            final(git).history(),
            old(git).history().len() as int,
            final(hosting).history()[old(hosting).history().len() as int].answer,
            target@,
        ),
        crate::git::no_commits_landed(old(git).history(), final(git).history()),
{
    let pr = match hosting.merged_pr_to(source, target)? {
        Some(pr) => pr,
        None => {
            return Ok(None);
        },
    };
    let mut remote = String::from_str("origin/");
    remote.append(target);
    if git.is_ancestor(pr.merge_commit_sha.as_str(), remote.as_str())? {
        Ok(Some(pr))
    } else {
        Ok(None)
    }
}

/// The platform's answer `a` about the newest PR into `target` means it has
/// not landed: no merged PR; or git answered at operation `l` of `g` that the
/// merge commit is not on `origin/target`.
pub open spec fn unlanded_at(g: Seq<GitEvent>, l: int, a: HostAnswer, target: Seq<char>) -> bool {
    ||| a == HostAnswer::Landed(None)
    ||| (a matches HostAnswer::Landed(Some(pr)) && call_at(g, l, GitOp::IsAncestor, seq![pr.2, "origin/"@ + target])
        && g[l].answer == GitAnswer::Flag(false))
}

/// Tell the user when `branch` moved on after the PR that landed it into the
/// mainline: those commits are not part of `tag`.
pub(crate) fn report_commits_past_landing<G: Git>(
    git: &mut G,
    out: &dyn Output,
    branch: &str,
    pr: &LandedPr,
    main_branch: &str,
    tag: &str,
) -> (r: Result<(), String>)
    ensures
        crate::git::extends(final(git).history(), old(git).history()),
        no_local_change(old(git).history(), final(git).history()),
        crate::git::no_commits_landed(old(git).history(), final(git).history()),
{
    let sha = git.branch_sha(branch)?;
    if !string_eq(sha.as_str(), pr.head_sha.as_str()) {
        out.warning(
            cat(
                &[
                    "⚠ ",
                    branch,
                    " has commits past the PR that landed it into ",
                    main_branch,
                    " (",
                    pr.url.as_str(),
                    "); they are not part of ",
                    tag,
                    ".",
                ],
            ).as_str(),
        );
    }
    Ok(())
}

/// Reconcile `source` with its remote, then open (or reuse) its landing PR
/// into `target`. The branch may be missing on the remote, ahead, behind, or
/// diverged; only the first two are pushed.
pub(crate) fn open_landing_pr<G: Git, H: HostingPlatform>(
    git: &mut G,
    hosting: &mut H,
    source: &str,
    target: &str,
    title: &str,
    template: Option<&str>,
) -> (r: Result<String, String>)
    ensures
        crate::hosting::host_extends(final(hosting).history(), old(hosting).history()),
        crate::git::extends(final(git).history(), old(git).history()),
        no_local_change(old(git).history(), final(git).history()),
        prs_opened_with(old(hosting).history(), final(hosting).history(), pr_args(source@, target@, title@, template)),
        r matches Ok(u) ==> pr_answered(old(hosting).history(), final(hosting).history(), pr_args(source@, target@, title@, template), u@),
        crate::git::only_own_pushed(old(git).history(), final(git).history(), source@),
{
    let origin = cat(&["origin/", source]);
    if !git.remote_branch_exists(source)? {
        git.push(source)?;
    } else if !git.is_pushed(source)? {
        if git.is_ancestor(origin.as_str(), source)? {
            git.push(source)?;
        } else if git.is_ancestor(source, origin.as_str())? {
            return Err(behind_message(source));
        } else {
            return Err(diverged_message(source));
        }
    }
    let ghost h0 = hosting.history();
    let r = hosting.create_or_get_pr(source, target, title, template);
    proof {
        assert(hosting.history()[h0.len() as int].op == HostOp::CreateOrGetPr);
    }
    r
}

/// Cut `tag` at `sha` (a PR's merge commit) unless it already exists; when it
/// does, verify it points at that same commit (a mismatch is fatal).
pub(crate) fn tag_at_if_missing<G: Git>(git: &mut G, out: &dyn Output, tag: &str, message: &str, sha: &str) -> (r: Result<
    (),
    String,
>)
    ensures
        crate::git::extends(final(git).history(), old(git).history()),
        no_local_change(old(git).history(), final(git).history()),
        crate::git::no_commits_landed(old(git).history(), final(git).history()),
{
    if !git.tag_exists(tag)? {
        out.line(cat(&["Tagging: ", tag]).as_str());
        return git.create_tag_at(tag, message, sha);
    }
    let actual = git.tag_commit_sha(tag)?;
    if string_eq(actual.as_str(), sha) {
        out.line(cat(&["↷ skipped: tag ", tag, " (already exists)"]).as_str());
        Ok(())
    } else {
        Err(tag_mismatch_message(tag, actual.as_str(), sha))
    }
}

/// Delete `branch` locally and remotely, each guarded by an existence check so
/// re-running after a partial cleanup is a no-op.
pub(crate) fn delete_branch_guarded<G: Git>(git: &mut G, out: &dyn Output, branch: &str) -> (r: Result<(), String>)
    ensures
        crate::git::extends(final(git).history(), old(git).history()),
        crate::git::no_commits_landed(old(git).history(), final(git).history()),
{
    if git.local_branch_exists(branch)? {
        git.delete_branch_local(branch)?;
    } else {
        out.line(cat(&["↷ skipped: delete local ", branch, " (already gone)"]).as_str());
    }
    if git.remote_branch_exists(branch)? {
        git.delete_branch_remote(branch)?;
    } else {
        out.line(cat(&["↷ skipped: delete remote ", branch, " (already gone)"]).as_str());
    }
    Ok(())
}

/// Delete the finished source branch locally and remotely, switching to the
/// mainline first when HEAD is still on it (git refuses to delete the
/// checked-out branch).
pub(crate) fn delete_source_branch<G: Git>(git: &mut G, out: &dyn Output, branch: &str, main_branch: &str) -> (r: Result<
    (),
    String,
>)
    ensures
        crate::git::extends(final(git).history(), old(git).history()),
        crate::git::no_commits_landed(old(git).history(), final(git).history()),
{
    let current = git.current_branch()?;
    if string_eq(current.as_str(), branch) {
        git.checkout(main_branch)?;
    }
    delete_branch_guarded(git, out, branch)
}

/// Fail with the catalog error unless the tree is clean: a version script
/// must never see local changes it did not make.
pub(crate) fn require_clean_tree<G: Git>(git: &mut G) -> (r: Result<(), String>)
    ensures
        crate::git::extends(final(git).history(), old(git).history()),
        final(git).history().len() == old(git).history().len() + 1,
        call_at(final(git).history(), old(git).history().len() as int, GitOp::IsWorkingTreeClean, Seq::empty()),
        match final(git).history()[old(git).history().len() as int].answer {
            GitAnswer::Flag(true) => r is Ok,
            GitAnswer::Flag(false) => r matches Err(e) && e@
                == "Working tree is not clean. Commit or stash your changes, then re-run."@,
            GitAnswer::Failed(e) => r matches Err(m) && m@ == e,
            _ => false,
        },
{
    if git.is_working_tree_clean()? {
        Ok(())
    } else {
        Err(String::from_str("Working tree is not clean. Commit or stash your changes, then re-run."))
    }
}

/// Run the version script and commit whatever it changed. `Ok(true)` when a
/// commit was made, `Ok(false)` when the script left the tree clean.
pub(crate) fn run_version_script<G: Git>(git: &mut G, script: &dyn VersionScript, version: &SemVer) -> (r: Result<bool, String>)
    ensures
        crate::git::extends(final(git).history(), old(git).history()),
{
    let release = version.to_release();
    script.run(release.to_string().as_str())?;
    if git.is_working_tree_clean()? {
        return Ok(false);
    }
    git.stage_all()?;
    git.commit(version_message("chore: set version ", &release).as_str())?;
    Ok(true)
}

/// The names of `names` whose flag in `kept` is set, in order.
pub open spec fn kept_names(names: Seq<Seq<char>>, kept: Seq<bool>) -> Seq<Seq<char>>
    decreases names.len(),
{
    if names.len() == 0 || kept.len() == 0 {
        Seq::empty()
    } else {
        let rest = kept_names(names.drop_last(), kept.drop_last());
        if kept.last() {
            rest.push(names.last())
        } else {
            rest
        }
    }
}

/// Git answered at some operation of `h` from `k` on that the tag `tag`
/// exists (`present`) or does not.
pub open spec fn tag_seen(h: Seq<GitEvent>, k: int, tag: Seq<char>, present: bool) -> bool {
    exists|l: int| k <= l && call_at(h, l, GitOp::TagExists, seq![tag]) && #[trigger] h[l].answer == GitAnswer::Flag(present)
}

/// What listing the open `prefix` branches asks of git (history `h` after
/// `h0`): the branches matching `prefix/*`, then whether the release tag of
/// each versioned one exists; nothing that changes the repository. The open
/// ones are those listed, in order, but for each whose tag git reported
/// present (it shipped); one without a version stays. A failed listing is the
/// error.
pub open spec fn open_branches_events(h0: Seq<GitEvent>, h: Seq<GitEvent>, prefix: Seq<char>, r: Result<Vec<String>, String>) -> bool {
    let k = h0.len() as int;
    &&& call_at(h, k, GitOp::ListBranchesMatching, seq![prefix + "/*"@])
    &&& no_local_change(h0, h)
    &&& match h[k].answer {
        GitAnswer::Failed(e) => h.len() == k + 1 && (r matches Err(m) && m@ == e),
        GitAnswer::Texts(names) => r matches Ok(open) ==> exists|kept: Seq<bool>|
            #[trigger] tags_decided(h, k + 1, prefix, names, kept) && kept_names(names, kept) == views(open@),
        _ => false,
    }
}

/// `kept` flags each of `names` as still open: one without a version always;
/// one with a version when git answered (from operation `k` of `h` on) that
/// its release tag does not exist, and not when it answered that it does.
pub open spec fn tags_decided(h: Seq<GitEvent>, k: int, prefix: Seq<char>, names: Seq<Seq<char>>, kept: Seq<bool>) -> bool {
    &&& kept.len() == names.len()
    &&& forall|i: int| 0 <= i < names.len() ==> match shipped_tag_text(names[i], prefix) {
        None => #[trigger] kept[i],
        Some(t) => if kept[i] {
            tag_seen(h, k, t, false)
        } else {
            tag_seen(h, k, t, true)
        },
    }
}

/// List `{prefix}/*` branches that are still open, leaving out any whose clean
/// release tag already exists (it shipped). Branches whose version does not
/// parse stay in.
pub(crate) fn open_versioned_branches<G: Git>(git: &mut G, prefix: &str) -> (r: Result<Vec<String>, String>)
    ensures
        crate::git::extends(final(git).history(), old(git).history()),
        no_local_change(old(git).history(), final(git).history()),
        open_branches_events(old(git).history(), final(git).history(), prefix@, r),
        crate::git::no_commits_landed(old(git).history(), final(git).history()),
{
    let pattern = cat(&[prefix, "/*"]);
    proof {
        reveal_strlit("/*");
        reveal_with_fuel(crate::text::concat, 3);
        assert(pattern@ =~= prefix@ + "/*"@);
    }
    let ghost k = old(git).history().len() as int;
    let branches = git.list_branches_matching(pattern.as_str())?;
    let ghost names = views(branches@);
    let ghost mut kept: Seq<bool> = Seq::empty();
    let mut open: Vec<String> = Vec::new();
    let mut i: usize = 0;
    while i < branches.len()
        invariant
            crate::git::extends(git.history(), old(git).history()),
            no_local_change(old(git).history(), git.history()),
            crate::git::no_commits_landed(old(git).history(), git.history()),
            call_at(git.history(), k, GitOp::ListBranchesMatching, seq![prefix@ + "/*"@]),
            git.history()[k].answer == GitAnswer::Texts(names),
            k == old(git).history().len(),
            names == views(branches@),
            i <= branches@.len(),
            kept.len() == i,
            kept_names(names.take(i as int), kept) == views(open@),
            forall|j: int| 0 <= j < i ==> match shipped_tag_text(names[j], prefix@) {
                None => #[trigger] kept[j],
                Some(t) => if kept[j] {
                    tag_seen(git.history(), k + 1, t, false)
                } else {
                    tag_seen(git.history(), k + 1, t, true)
                },
            },
        decreases branches@.len() - i,
    {
        let ghost before = git.history();
        let shipped = match shipped_tag(branches[i].as_str(), prefix) {
            Some(tag) => {
                let t = git.tag_exists(tag.as_str())?;
                proof {
                    let l = before.len() as int;
                    assert(call_at(git.history(), l, GitOp::TagExists, seq![tag@]));
                    assert(git.history()[l].answer == GitAnswer::Flag(t));
                    assert(tag_seen(git.history(), k + 1, tag@, t));
                }
                t
            },
            None => false,
        };
        let ghost old_open = views(open@);
        if !shipped {
            open.push(owned(branches[i].as_str()));
        }
        proof {
            assert forall|j: int| 0 <= j < i implies match shipped_tag_text(names[j], prefix@) {
                None => #[trigger] kept[j],
                Some(t) => if kept[j] {
                    tag_seen(git.history(), k + 1, t, false)
                } else {
                    tag_seen(git.history(), k + 1, t, true)
                },
            } by {
                match shipped_tag_text(names[j], prefix@) {
                    None => {},
                    Some(t) => {
                        if kept[j] {
                            let l = choose|l: int| k + 1 <= l && call_at(before, l, GitOp::TagExists, seq![t]) && #[trigger] before[l].answer
                                == GitAnswer::Flag(false);
                            assert(git.history()[l] == before[l]);
                        } else {
                            let l = choose|l: int| k + 1 <= l && call_at(before, l, GitOp::TagExists, seq![t]) && #[trigger] before[l].answer
                                == GitAnswer::Flag(true);
                            assert(git.history()[l] == before[l]);
                        }
                    },
                }
            }
            let ghost old_kept = kept;
            kept = kept.push(!shipped);
            assert(names.take(i + 1).drop_last() =~= names.take(i as int));
            assert(kept.drop_last() =~= old_kept);
            assert(names.take(i + 1).last() == names[i as int]);
            assert(views(open@) =~= if !shipped { old_open.push(branches@[i as int]@) } else { old_open });
            assert(kept_names(names.take(i + 1), kept) == views(open@));
        }
        i = i + 1;
    }
    let r: Result<Vec<String>, String> = Ok(open);
    proof {
        assert(names.take(i as int) =~= names);
        // The witness, stated of the listing as the answer holds it.
        if let GitAnswer::Texts(nm) = git.history()[k].answer {
            assert(tags_decided(git.history(), k + 1, prefix@, nm, kept));
        }
    }
    r
}

/// Tell the user a landing PR is waiting for a human to merge it.
pub(crate) fn announce_pending_landing(out: &dyn Output, url: &str) {
    out.line(cat(&["Landing PR: ", url]).as_str());
    out.line("Merge it, then re-run 'bflow finish' to continue.");
}

/// Whether `branch`'s tip is the head of one of the landed PRs: only then is
/// deleting it sure to lose no commits.
pub(crate) fn tip_landed_somewhere<G: Git>(git: &mut G, branch: &str, landed: &Vec<LandedPr>) -> (r: Result<bool, String>)
    ensures
        crate::git::extends(final(git).history(), old(git).history()),
        crate::git::no_commits_landed(old(git).history(), final(git).history()),
{
    let sha = git.branch_sha(branch)?;
    Ok(tip_in(sha.as_str(), landed))
}

} // verus!
