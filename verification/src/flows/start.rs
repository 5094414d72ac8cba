//! Starting branches, and the release-type decision behind `bflow start release`.
use vstd::prelude::*;

use super::{
    greatest_of_kind, greatest_tag, open_branches_events, open_versioned_branches, require_clean_tree, run_version_script, tag_of_kind, version_message,
    Output, TagKind,
};
use crate::git::{call_at, ran_in_order, unit_answer, Git, GitAnswer, GitEvent, GitOp};
use crate::hosting::HostingPlatform;
use crate::prompt::Prompter;
use crate::repo_config::{Mode, RepoConfig};
use crate::version::{hotfix_branch_text, rc_label, release_branch_text, PreView, push_triple, release_view, spec_parse_version, tag_text, version_text, triple_text, SemVer, VersionView};
use crate::version_script::VersionScript;
use crate::worktree::{open_worktree, WorktreeContext};
use crate::text::{cat, contains_seq, contains_str, owned, views,
    chars_of, find_char, find_in, has_prefix, line_bounds, line_count, line_ranges, lines_of, lemma_split_on_nonempty,
    split_on, starts_with_at, substring, to_upper, trim_start, trim_start_index, uppercase,
};

verus! {

#[derive(Debug, Clone, Copy, PartialEq, Eq, Structural)]
pub enum ReleaseType {
    Major,
    Minor,
}


/// A conventional-commit title marks a breaking change with `!` just before
/// its first `:` (`feat!:`, `refactor(auth)!:`).
pub open spec fn title_breaking(l: Seq<char>) -> bool {
    match find_char(l, ':') {
        Some(p) => p > 0 && l[p - 1] == '!',
        None => false,
    }
}

/// A footer line `BREAKING CHANGE:` or `BREAKING-CHANGE:`, in any case, after
/// leading whitespace.
pub open spec fn footer_breaking(l: Seq<char>) -> bool {
    let u = uppercase(trim_start(l));
    has_prefix(u, "BREAKING CHANGE:"@) || has_prefix(u, "BREAKING-CHANGE:"@)
}

/// Whether a commit message announces a breaking change: `!` in its title, or
/// a breaking-change footer on a later line.
pub open spec fn breaking_message(m: Seq<char>) -> bool {
    let ls = lines_of(m);
    ||| (ls.len() > 0 && title_breaking(ls[0]))
    ||| exists|i: int| 1 <= i < ls.len() && footer_breaking(#[trigger] ls[i])
}

fn footer_line(msg: &str, v: &Vec<char>, lo: usize, hi: usize) -> (r: bool)
    requires
        v@ == msg@,
        lo <= hi <= v@.len(),
    ensures
        r == footer_breaking(v@.subrange(lo as int, hi as int)),
{
    let a = trim_start_index(v, lo, hi);
    let t = substring(msg, a, hi);
    let u = to_upper(t.as_str());
    let uv = chars_of(u.as_str());
    assert(uv@.skip(0) =~= uv@);
    starts_with_at(&uv, 0, "BREAKING CHANGE:") || starts_with_at(&uv, 0, "BREAKING-CHANGE:")
}

pub fn message_is_breaking(msg: &str) -> (r: bool)
    ensures
        r == breaking_message(msg@),
{
    let v = chars_of(msg);
    let pieces = line_ranges(&v);
    proof {
        lemma_split_on_nonempty(v@, '\n');
    }
    let p = pieces.len();
    let n = if pieces[p - 1].0 == pieces[p - 1].1 {
        p - 1
    } else {
        p
    };
    assert(n == line_count(v@));
    let ghost ls = lines_of(v@);
    if n > 0 {
        let (lo, hi) = line_bounds(&v, &pieces, 0);
        match find_in(&v, lo, hi, ':') {
            Some(j) => {
                if j > 0 && v[lo + j - 1] == '!' {
                    assert(title_breaking(ls[0]));
                    return true;
                }
                assert(!title_breaking(ls[0]));
            },
            None => {},
        }
    }
    let mut i: usize = 1;
    while i < n
        invariant
            v@ == msg@,
            ls == lines_of(v@),
            n == ls.len(),
            1 <= i,
            pieces@.len() == split_on(v@, '\n').len(),
            forall|k: int|
                0 <= k < pieces@.len() ==> {
                    &&& (#[trigger] pieces@[k]).0 <= pieces@[k].1 <= v@.len()
                    &&& v@.subrange(pieces@[k].0 as int, pieces@[k].1 as int) == split_on(v@, '\n')[k]
                },
            forall|k: int| 1 <= k < i && k < n ==> !footer_breaking(#[trigger] ls[k]),
        decreases n - i,
    {
        let (lo, hi) = line_bounds(&v, &pieces, i);
        if footer_line(msg, &v, lo, hi) {
            assert(footer_breaking(ls[i as int]));
            return true;
        }
        i = i + 1;
    }
    false
}


/// The version a new release or hotfix is numbered from: the greatest clean
/// release tag; without one, the greatest release candidate's release; else 0.0.0.
pub open spec fn latest_release_choice(tags: Seq<Seq<char>>, r: VersionView) -> bool {
    if exists|i: int| 0 <= i < tags.len() && tag_of_kind(#[trigger] tags[i], TagKind::Release) {
        greatest_of_kind(tags, TagKind::Release, r)
    } else if exists|i: int| 0 <= i < tags.len() && tag_of_kind(#[trigger] tags[i], TagKind::Rc) {
        exists|w: VersionView| #[trigger] greatest_of_kind(tags, TagKind::Rc, w) && r == release_view(w.major, w.minor, w.patch)
    } else {
        r == release_view(0, 0, 0)
    }
}

/// The version to number the next release or hotfix from, given the tags.
pub fn latest_release(tags: &Vec<String>) -> (r: SemVer)
    ensures
        latest_release_choice(views(tags@), r@),
{
    match greatest_tag(tags, TagKind::Release) {
        Some(v) => v,
        None => match greatest_tag(tags, TagKind::Rc) {
            Some(v) => v.to_release(),
            None => SemVer::new(0, 0, 0),
        },
    }
}

/// The release type the user picked: the major bump is offered first when
/// breaking changes were detected, else second.
pub open spec fn release_type_at(has_breaking: bool, idx: int) -> ReleaseType {
    if (idx == 0) == has_breaking {
        ReleaseType::Major
    } else {
        ReleaseType::Minor
    }
}

pub fn release_type_choice(has_breaking: bool, idx: usize) -> (r: ReleaseType)
    ensures
        r == release_type_at(has_breaking, idx as int),
{
    if (idx == 0) == has_breaking {
        ReleaseType::Major
    } else {
        ReleaseType::Minor
    }
}

pub open spec fn missing_base_text(from: Seq<char>) -> Seq<char> {
    "Branch '"@ + from + "' does not exist. Use --base to specify a different base branch."@
}

/// A failed branch creation: git's "not a commit" means the base is missing.
pub fn base_error(e: String, from: &str) -> (r: String)
    ensures
        contains_seq(e@, "not a commit"@) ==> r@ == missing_base_text(from@),
        !contains_seq(e@, "not a commit"@) ==> r@ == e@,
{
    if contains_str(e.as_str(), "not a commit") {
        let mut s = String::from_str("Branch '");
        s.append(from);
        s.append("' does not exist. Use --base to specify a different base branch.");
        s
    } else {
        e
    }
}

/// `s` without `prefix`, or `s` itself when it does not start with it.
fn after_prefix(s: &str, prefix: &str) -> (r: String)
    ensures
        has_prefix(s@, prefix@) ==> r@ == s@.skip(prefix@.len() as int),
        !has_prefix(s@, prefix@) ==> r@ == s@,
{
    let v = chars_of(s);
    assert(v@.skip(0) =~= v@);
    if starts_with_at(&v, 0, prefix) {
        substring(s, prefix.unicode_len(), v.len())
    } else {
        owned(s)
    }
}

/// What a failed branch creation is reported as (`base_error`).
pub open spec fn base_error_text(e: Seq<char>, from: Seq<char>) -> Seq<char> {
    if contains_seq(e, "not a commit"@) {
        missing_base_text(from)
    } else {
        e
    }
}

/// The operation that creates a branch, checked out or not.
pub open spec fn create_op(no_checkout: bool) -> GitOp {
    if no_checkout {
        GitOp::CreateBranchNoCheckout
    } else {
        GitOp::CreateBranch
    }
}

/// What starting `branch` from `from` asks of git (history `h` after `h0`):
/// the creation, then (if it succeeded) the push; a failed creation is
/// reported by `base_error_text` and nothing else is done; without a
/// worktree that is all, and the result is the push's.
pub open spec fn branch_start_events(
    h0: Seq<GitEvent>,
    h: Seq<GitEvent>,
    branch: Seq<char>,
    from: Seq<char>,
    no_checkout: bool,
    in_worktree: bool,
    r: Result<(), String>,
) -> bool {
    let k = h0.len() as int;
    &&& call_at(h, k, create_op(no_checkout), seq![branch, from])
    &&& match h[k].answer {
        GitAnswer::Failed(e) => h.len() == k + 1 && (r matches Err(m) && m@ == base_error_text(e, from)),
        _ => {
            &&& call_at(h, k + 1, GitOp::Push, seq![branch])
            &&& (h[k + 1].answer is Failed || !in_worktree) ==> (h.len() == k + 2 && h[k + 1].answer
                == unit_answer(r))
        },
    }
}

/// Start `prefix/name` from `from`: created (checked out unless
/// `no_checkout`) and pushed. With a worktree context the branch is not
/// checked out here but in a worktree of its own.
pub fn start_work_branch<G: Git>(
    git: &mut G,
    out: &dyn Output,
    prefix: &str,
    name: &str,
    from: &str,
    no_checkout: bool,
    worktree: Option<&WorktreeContext>,
) -> (r: Result<(), String>)
    ensures
        crate::git::extends(final(git).history(), old(git).history()),
        branch_start_events(
            old(git).history(),
            final(git).history(),
            prefix@ + "/"@ + name@,
            from@,
            no_checkout || worktree is Some,
            worktree is Some,
            r,
        ),
{
    let no_checkout = no_checkout || worktree.is_some();
    let mut branch = String::from_str(prefix);
    branch.append("/");
    branch.append(name);
    out.line(cat(&["Creating branch: ", branch.as_str()]).as_str());
    let created = if no_checkout {
        git.create_branch_no_checkout(branch.as_str(), from)
    } else {
        git.create_branch(branch.as_str(), from)
    };
    match created {
        Ok(()) => {},
        Err(e) => {
            return Err(base_error(e, from));
        },
    }
    git.push(branch.as_str())?;
    out.line(cat(&["Branch '", branch.as_str(), "' created and pushed."]).as_str());
    match worktree {
        Some(ctx) => open_worktree(git, out, ctx, branch.as_str()),
        None => Ok(()),
    }
}

/// `bflow start release`: check out the open release branch, or cut the next
/// one from develop (with its first RC tag). With a version script, a new
/// release branch gets its version committed, and develop is then bumped to
/// the next minor version.
pub fn start_release<G: Git, H: HostingPlatform>(
    git: &mut G,
    prompter: &dyn Prompter,
    hosting: &mut H,
    script: Option<&dyn VersionScript>,
    cfg: &RepoConfig,
    out: &dyn Output,
    release_type: Option<ReleaseType>,
) -> (r: Result<(), String>)
    ensures
        crate::hosting::host_extends(final(hosting).history(), old(hosting).history()),
        crate::git::extends(final(git).history(), old(git).history()),
        script is None ==> exists|branch: Result<String, String>|
            #[trigger] release_resolve_events(old(git).history(), final(git).history(), release_type, branch) && r
                == unit_of(branch),
{
    let branch = resolve_or_create_release(git, prompter, hosting, script, cfg, out, release_type);
    proof {
        if script is None {
            assert(release_resolve_events(old(git).history(), git.history(), release_type, branch));
        }
    }
    match branch {
        Ok(_) => Ok(()),
        Err(e) => Err(e),
    }
}

pub open spec fn unversioned_parent_text(parent: Seq<char>) -> Seq<char> {
    "Branch '"@ + parent + "' does not carry a version, so no fix branch can be named after it."@
}

/// The refusal for a parent branch whose name holds no version: a fix branch
/// named after it would not parse as a fix branch.
pub fn unversioned_parent(parent: &str) -> (r: String)
    ensures
        r@ == unversioned_parent_text(parent@),
{
    let mut s = String::from_str("Branch '");
    s.append(parent);
    s.append("' does not carry a version, so no fix branch can be named after it.");
    s
}

/// The version part of the versioned branch `parent` (after `prefix`), or the
/// refusal when it does not parse as a version.
pub open spec fn without_prefix(s: Seq<char>, prefix: Seq<char>) -> Seq<char> {
    if has_prefix(s, prefix) {
        s.skip(prefix.len() as int)
    } else {
        s
    }
}

fn parent_version(parent: &str, prefix: &str) -> (r: Result<String, String>)
    ensures
        spec_parse_version(without_prefix(parent@, prefix@)) is Some ==> (r matches Ok(v) && v@
            == without_prefix(parent@, prefix@)),
        spec_parse_version(without_prefix(parent@, prefix@)) is None ==> (r matches Err(e) && e@
            == unversioned_parent_text(parent@)),
{
    let version = after_prefix(parent, prefix);
    match SemVer::parse(version.as_str()) {
        Some(_) => Ok(version),
        None => Err(unversioned_parent(parent)),
    }
}

/// The fix branch `fix_prefix<version>/name` for the versioned parent
/// `parent` (its version after `parent_prefix`), or the refusal when the
/// parent carries no version.
pub fn fix_branch_name(parent: &str, parent_prefix: &str, fix_prefix: &str, name: &str) -> (r: Result<String, String>)
    ensures
        spec_parse_version(without_prefix(parent@, parent_prefix@)) is Some ==> (r matches Ok(b) && b@ == fix_prefix@
            + without_prefix(parent@, parent_prefix@) + "/"@ + name@),
        spec_parse_version(without_prefix(parent@, parent_prefix@)) is None ==> (r matches Err(e) && e@
            == unversioned_parent_text(parent@)),
{
    let version = parent_version(parent, parent_prefix)?;
    let mut b = String::from_str(fix_prefix);
    b.append(version.as_str());
    b.append("/");
    b.append(name);
    Ok(b)
}

/// What starting the fix branch `name` on the versioned branch `parent` asks
/// of git from operation `k` of `h` on: a parent without a version is refused
/// (`unversioned_parent_text`) before anything is asked; else the fix branch
/// (`fix_prefix`, the parent's version, `/`, `name`) is created from the
/// parent, then pushed; a failed answer is returned as the error, and
/// without a worktree the result is the push's.
pub open spec fn fix_start_events(
    h: Seq<GitEvent>,
    k: int,
    parent: Seq<char>,
    parent_prefix: Seq<char>,
    fix_prefix: Seq<char>,
    name: Seq<char>,
    no_checkout: bool,
    in_worktree: bool,
    r: Result<(), String>,
) -> bool {
    let version = without_prefix(parent, parent_prefix);
    let branch = fix_prefix + version + "/"@ + name;
    if spec_parse_version(version) is None {
        h.len() == k && (r matches Err(e) && e@ == unversioned_parent_text(parent))
    } else {
        &&& call_at(h, k, create_op(no_checkout), seq![branch, parent])
        &&& match h[k].answer {
            GitAnswer::Failed(e) => h.len() == k + 1 && (r matches Err(m) && m@ == e),
            _ => {
                &&& call_at(h, k + 1, GitOp::Push, seq![branch])
                &&& (h[k + 1].answer is Failed || !in_worktree) ==> (h.len() == k + 2 && h[k + 1].answer
                    == unit_answer(r))
            },
        }
    }
}

/// What starting a release fix on the checked-out branch asks of git: the
/// current branch; off a release branch, the refusal and nothing more; else
/// the fix branch on it (`fix_start_events`).
pub open spec fn release_fix_events(h0: Seq<GitEvent>, h: Seq<GitEvent>, name: Seq<char>, r: Result<(), String>) -> bool {
    let k = h0.len() as int;
    &&& call_at(h, k, GitOp::CurrentBranch, Seq::empty())
    &&& match h[k].answer {
        GitAnswer::Failed(e) => h.len() == k + 1 && (r matches Err(m) && m@ == e),
        GitAnswer::Text(c) => if !has_prefix(c, "release/"@) {
            h.len() == k + 1 && (r matches Err(m) && m@ == "Not on a release branch"@)
        } else {
            fix_start_events(h, k + 1, c, "release/"@, "release-fix/"@, name, false, false, r)
        },
        _ => false,
    }
}

/// Start `release-fix/<version>/name` on the release branch: the one checked
/// out, or (with `no_checkout` or a worktree context) the open one found.
pub fn start_release_fix<G: Git>(
    git: &mut G,
    out: &dyn Output,
    name: &str,
    no_checkout: bool,
    worktree: Option<&WorktreeContext>,
) -> (r: Result<(), String>)
    ensures
        crate::git::extends(final(git).history(), old(git).history()),
        !no_checkout && worktree is None ==> release_fix_events(old(git).history(), final(git).history(), name@, r),
{
    let no_checkout = no_checkout || worktree.is_some();
    let release_branch = if no_checkout {
        let open = open_versioned_branches(git, "release")?;
        if open.len() == 0 {
            return Err(String::from_str("No release branch found. Create one with 'bflow start release' first."));
        }
        owned(open[0].as_str())
    } else {
        let current = git.current_branch()?;
        let cv = chars_of(current.as_str());
        assert(cv@.skip(0) =~= cv@);
        if !starts_with_at(&cv, 0, "release/") {
            return Err(String::from_str("Not on a release branch"));
        }
        current
    };
    let branch = fix_branch_name(release_branch.as_str(), "release/", "release-fix/", name)?;
    out.line(cat(&["Creating branch: ", branch.as_str()]).as_str());
    if no_checkout {
        git.create_branch_no_checkout(branch.as_str(), release_branch.as_str())?;
    } else {
        git.create_branch(branch.as_str(), release_branch.as_str())?;
    }
    git.push(branch.as_str())?;
    out.line(cat(&["Branch '", branch.as_str(), "' created and pushed."]).as_str());
    match worktree {
        Some(ctx) => open_worktree(git, out, ctx, branch.as_str()),
        None => Ok(()),
    }
}

/// What starting a hotfix fix asks of git (history `h` after `h0`): the
/// hotfix branch, found or cut from the mainline `main`
/// (`hotfix_resolve_events`, up to operation `l`); then the fix branch on it
/// (`fix_start_events`). A failure to find or cut it is the error.
pub open spec fn hotfix_fix_events(
    h0: Seq<GitEvent>,
    h: Seq<GitEvent>,
    main: Seq<char>,
    name: Seq<char>,
    no_checkout: bool,
    in_worktree: bool,
    r: Result<(), String>,
) -> bool {
    exists|l: int, hotfix: Result<String, String>| {
        &&& h0.len() < l <= h.len()
        &&& #[trigger] hotfix_resolve_events(h0, h.take(l), main, no_checkout, hotfix)
        &&& match hotfix {
            Err(e) => h.len() == l && (r matches Err(m) && m@ == e@),
            Ok(b) => fix_start_events(h, l, b@, "hotfix/"@, "hotfix-fix/"@, name, no_checkout, in_worktree, r),
        }
    }
}

/// Start a hotfix fix: on the open hotfix branch, or on a new one cut from
/// `main_branch` (the next patch after the latest release). With a version script, a new hotfix branch gets its version committed
/// (not with `no_checkout`: the script runs in the checked-out tree).
pub fn start_hotfix_fix<G: Git>(
    git: &mut G,
    out: &dyn Output,
    name: &str,
    no_checkout: bool,
    worktree: Option<&WorktreeContext>,
    main_branch: &str,
    script: Option<&dyn VersionScript>,
) -> (r: Result<(), String>)
    ensures
        crate::git::extends(final(git).history(), old(git).history()),
        script is None || no_checkout || worktree is Some ==> hotfix_fix_events(
            old(git).history(),
            final(git).history(),
            main_branch@,
            name@,
            no_checkout || worktree is Some,
            worktree is Some,
            r,
        ),
{
    let no_checkout = no_checkout || worktree.is_some();
    let script = if no_checkout {
        None
    } else {
        script
    };
    let resolved = resolve_or_create_hotfix(git, out, no_checkout, main_branch, script);
    let ghost l: int = git.history().len() as int;
    let ghost mid = git.history();
    proof {
        assert(mid.take(l) =~= mid);
    }
    let hotfix_branch = match resolved {
        Ok(b) => b,
        Err(e) => {
            return Err(e);
        },
    };
    let branch = fix_branch_name(hotfix_branch.as_str(), "hotfix/", "hotfix-fix/", name)?;
    out.line(cat(&["Creating branch: ", branch.as_str()]).as_str());
    let created = if no_checkout {
        git.create_branch_no_checkout(branch.as_str(), hotfix_branch.as_str())
    } else {
        git.create_branch(branch.as_str(), hotfix_branch.as_str())
    };
    proof {
        assert(git.history().take(l) =~= mid);
    }
    created?;
    let pushed = git.push(branch.as_str());
    proof {
        assert(git.history().take(l) =~= mid);
    }
    pushed?;
    out.line(cat(&["Branch '", branch.as_str(), "' created and pushed."]).as_str());
    let opened = match worktree {
        Some(ctx) => open_worktree(git, out, ctx, branch.as_str()),
        None => Ok(()),
    };
    proof {
        assert(git.history().take(l) =~= mid);
    }
    opened
}

fn overflow_error() -> (r: String)
    ensures
        r@ == overflow_text(),
{
    String::from_str("Cannot compute the next version: a version number is at its maximum.")
}

/// The release after `v` that `kind` asks for; `None` when that number is at
/// its maximum.
pub open spec fn next_release(v: VersionView, kind: ReleaseType) -> Option<VersionView> {
    match kind {
        ReleaseType::Major => if v.major == u32::MAX {
            None
        } else {
            Some(release_view((v.major + 1) as u32, 0, 0))
        },
        ReleaseType::Minor => if v.minor == u32::MAX {
            None
        } else {
            Some(release_view(v.major, (v.minor + 1) as u32, 0))
        },
    }
}

/// The steps that cut the release branch of `next` from develop and publish
/// it with its first RC tag: checkout of develop, the branch, its push, the
/// tag `v<next>-rc.1` titled `chore: create release branch <next>`, its push.
pub open spec fn release_cut_steps(next: VersionView) -> Seq<(GitOp, Seq<Seq<char>>)> {
    let b = release_branch_text(next.major, next.minor, next.patch);
    let tag = tag_text(VersionView { pre: Some(PreView { label: rc_label(), number: 1 }), ..next });
    seq![
        (GitOp::Checkout, seq!["develop"@]),
        (GitOp::CreateBranch, seq![b, "develop"@]),
        (GitOp::Push, seq![b]),
        (GitOp::CreateTag, seq![tag, "chore: create release branch "@ + version_text(next)]),
        (GitOp::PushTag, seq![tag]),
    ]
}

/// From operation `m` of `h` on, with `v` the latest release and `kind` the
/// release type: at its maximum, the refusal; else the release branch of the
/// next release cut (`release_cut_steps`), and the result names it.
pub open spec fn release_cut_from(h: Seq<GitEvent>, m: int, v: VersionView, kind: ReleaseType, r: Result<String, String>) -> bool {
    match next_release(v, kind) {
        None => h.len() == m && (r matches Err(e) && e@ == overflow_text()),
        Some(next) => {
            &&& ran_in_order(h, m, release_cut_steps(next), unit_of(r))
            &&& r matches Ok(b) ==> b@ == release_branch_text(next.major, next.minor, next.patch)
        },
    }
}

/// How the release type was settled from operation `k` of `h` to `m`, with
/// `v` the latest release: given, with nothing asked; else after the check
/// for breaking changes since `v` (develop's commit messages since its tag,
/// from origin's develop when the local one cannot be read), by the user.
pub open spec fn release_type_settled(h: Seq<GitEvent>, k: int, m: int, given: Option<ReleaseType>, v: VersionView, kind: ReleaseType) -> bool {
    &&& k <= m <= h.len()
    &&& match given {
        Some(t) => m == k && kind == t,
        None => {
            &&& call_at(h, k, GitOp::CommitMessages, seq![tag_text(v), "develop"@])
            &&& if h[k].answer is Failed {
                m == k + 2 && call_at(h, k + 1, GitOp::CommitMessages, seq![tag_text(v), "origin/develop"@])
            } else {
                m == k + 1
            }
        },
    }
}

/// `v` is the latest release of the tags `ts`, the release type `kind` was
/// settled by operation `m`.
pub open spec fn release_pick(ts: Seq<Seq<char>>, v: VersionView, m: int, kind: ReleaseType) -> bool {
    latest_release_choice(ts, v)
}

/// What cutting a new release branch asks of git from operation `k` of `h`
/// on: the tags; the release type (`release_type_settled`), where a refused
/// or failed pick ends the run with an error (the refusal when either number
/// of the latest release is at its maximum); then the branch of the release
/// after the latest (`release_cut_from`).
pub open spec fn release_cut_events(h: Seq<GitEvent>, k: int, given: Option<ReleaseType>, r: Result<String, String>) -> bool {
    &&& call_at(h, k, GitOp::ListTags, Seq::empty())
    &&& match h[k].answer {
        GitAnswer::Failed(e) => h.len() == k + 1 && (r matches Err(m) && m@ == e),
        GitAnswer::Texts(ts) => exists|v: VersionView, m: int, kind: ReleaseType| {
            &&& #[trigger] release_pick(ts, v, m, kind)
            &&& release_type_settled(h, k + 1, m, given, v, kind)
            &&& given is None && (v.major == u32::MAX || v.minor == u32::MAX) ==> (h.len() == m && (r matches Err(
                e,
            ) && e@ == overflow_text()))
            &&& (given is None && h.len() == m && r is Err) || release_cut_from(h, m, v, kind, r)
        },
        _ => false,
    }
}

/// What finding or cutting the release branch asks of git (history `h` after
/// `h0`): the open release branches (`open_branches_events`, up to operation
/// `l`); the first of them, when there is one, is checked out and is the
/// branch; else a new one is cut (`release_cut_events`).
pub open spec fn release_resolve_events(h0: Seq<GitEvent>, h: Seq<GitEvent>, given: Option<ReleaseType>, r: Result<String, String>) -> bool {
    exists|l: int, listed: Result<Vec<String>, String>| {
        &&& h0.len() < l <= h.len()
        &&& #[trigger] open_branches_events(h0, h.take(l), "release"@, listed)
        &&& match listed {
            Err(e) => h.len() == l && (r matches Err(m) && m@ == e@),
            Ok(open) => if open.len() > 0 {
                &&& ran_in_order(h, l, seq![(GitOp::Checkout, seq![open[0]@])], unit_of(r))
                &&& r matches Ok(b) ==> b@ == open[0]@
            } else {
                release_cut_events(h, l, given, r)
            },
        }
    }
}

fn resolve_or_create_release<G: Git, H: HostingPlatform>(
    git: &mut G,
    prompter: &dyn Prompter,
    hosting: &mut H,
    script: Option<&dyn VersionScript>,
    cfg: &RepoConfig,
    out: &dyn Output,
    release_type: Option<ReleaseType>,
) -> (r: Result<String, String>)
    ensures
        crate::hosting::host_extends(final(hosting).history(), old(hosting).history()),
        crate::git::extends(final(git).history(), old(git).history()),
        script is None ==> release_resolve_events(old(git).history(), final(git).history(), release_type, r),
{
    let listed = open_versioned_branches(git, "release");
    let ghost l: int = git.history().len() as int;
    let ghost mid = git.history();
    proof {
        assert(mid.take(l) =~= mid);
    }
    let release_branches = match listed {
        Ok(v) => v,
        Err(e) => {
            return Err(e);
        },
    };
    if release_branches.len() > 0 {
        let branch = owned(release_branches[0].as_str());
        out.line(cat(&["Using existing release branch: ", branch.as_str()]).as_str());
        let moved = git.checkout(branch.as_str());
        proof {
            assert(git.history().take(l) =~= mid);
        }
        if let Err(e) = moved {
            return Err(e);
        }
        return Ok(branch);
    }
    let r = cut_release(git, prompter, hosting, script, cfg, out, release_type);
    proof {
        assert(git.history().take(l) =~= mid);
    }
    r
}

/// Cut the release branch of the release after the latest, from develop,
/// with its first RC tag (with a version script, its version committed, and
/// develop then bumped to the next minor version).
fn cut_release<G: Git, H: HostingPlatform>(
    git: &mut G,
    prompter: &dyn Prompter,
    hosting: &mut H,
    script: Option<&dyn VersionScript>,
    cfg: &RepoConfig,
    out: &dyn Output,
    release_type: Option<ReleaseType>,
) -> (r: Result<String, String>)
    ensures
        crate::hosting::host_extends(final(hosting).history(), old(hosting).history()),
        crate::git::extends(final(git).history(), old(git).history()),
        script is None ==> release_cut_events(final(git).history(), old(git).history().len() as int, release_type, r),
{
    let ghost k: int = old(git).history().len() as int;
    let latest = find_latest_tag(git)?;
    let ghost mut m: int = git.history().len() as int;
    let kind = match release_type {
        Some(t) => t,
        None => {
            let has_breaking = detect_breaking_changes(git, &latest);
            proof {
                m = git.history().len() as int;
                if let GitAnswer::Texts(ts) = git.history()[k].answer {
                    assert(release_pick(ts, latest@, m, ReleaseType::Major));
                }
            }
            prompt_release_type(prompter, out, &latest, has_breaking)?
        },
    };
    proof {
        if let GitAnswer::Texts(ts) = git.history()[k].answer {
            assert(release_pick(ts, latest@, m, kind));
        }
    }
    let next = match kind {
        ReleaseType::Major => {
            if latest.major == u32::MAX {
                return Err(overflow_error());
            }
            latest.bump_major()
        },
        ReleaseType::Minor => {
            if latest.minor == u32::MAX {
                return Err(overflow_error());
            }
            latest.bump_minor()
        },
    };
    cut_release_branch(git, hosting, script, cfg, out, &next)
}

/// Cut the release branch of `next` from develop and publish it with its
/// first RC tag (`release_cut_steps`); with a version script, its version is
/// committed first, and develop then bumped to the next minor version.
fn cut_release_branch<G: Git, H: HostingPlatform>(
    git: &mut G,
    hosting: &mut H,
    script: Option<&dyn VersionScript>,
    cfg: &RepoConfig,
    out: &dyn Output,
    next: &SemVer,
) -> (r: Result<String, String>)
    requires
        next@.pre is None,
    ensures
        crate::hosting::host_extends(final(hosting).history(), old(hosting).history()),
        crate::git::extends(final(git).history(), old(git).history()),
        script is None ==> ran_in_order(final(git).history(), old(git).history().len() as int, release_cut_steps(next@), unit_of(r)),
        script is None ==> (r matches Ok(b) ==> b@ == release_branch_text(next.major, next.minor, next.patch)),
{
    match script {
        Some(_) => {
            // Develop moves on to the minor after this release.
            if next.minor == u32::MAX {
                return Err(overflow_error());
            }
            require_clean_tree(git)?;
        },
        None => {},
    }
    let branch = next.release_branch();
    let rc = next.with_rc(1);
    let tag = rc.tag_name();
    out.line(cat(&["Creating release branch: ", branch.as_str()]).as_str());
    let step = git.checkout("develop");
    if let Err(e) = step {
        return Err(e);
    }
    let step = git.create_branch(branch.as_str(), "develop");
    if let Err(e) = step {
        return Err(e);
    }
    match script {
        Some(s) => {
            run_version_script(git, s, next)?;
        },
        None => {},
    }
    let step = git.push(branch.as_str());
    if let Err(e) = step {
        return Err(e);
    }
    out.line(cat(&["Tagging: ", tag.as_str()]).as_str());
    let step = git.create_tag(tag.as_str(), super::version_message("chore: create release branch ", next).as_str());
    if let Err(e) = step {
        return Err(e);
    }
    let step = git.push_tag(tag.as_str());
    if let Err(e) = step {
        return Err(e);
    }
    match script {
        Some(s) => {
            let dev = next.bump_minor();
            match bump_develop(git, hosting, s, cfg, out, &dev) {
                Ok(()) => {},
                Err(e) => {
                    out.warning(
                        cat(
                            &[
                                "⚠ Release ",
                                next.to_string().as_str(),
                                " is cut, but develop was not bumped to ",
                                dev.to_string().as_str(),
                                ": ",
                                e.as_str(),
                            ],
                        ).as_str(),
                    );
                    out.warning("  Run the version script on develop yourself.");
                },
            }
            git.checkout(branch.as_str())?;
        },
        None => {},
    }
    Ok(branch)
}

pub open spec fn version_chore_text(v: VersionView) -> Seq<char> {
    "chore/set-version-"@ + triple_text(v.major, v.minor, v.patch)
}

/// The branch that carries develop's version bump to `v` through a PR.
pub fn version_chore_branch(v: &SemVer) -> (r: String)
    ensures
        r@ == version_chore_text(v@),
{
    let mut s = String::from_str("chore/set-version-");
    push_triple(&mut s, v.major, v.minor, v.patch);
    s
}

/// Bump develop's version to `dev` with the version script: committed and
/// pushed in free mode, proposed through a PR from a chore branch in
/// protected mode (an existing chore branch on origin is reused as it is).
fn bump_develop<G: Git, H: HostingPlatform>(
    git: &mut G,
    hosting: &mut H,
    script: &dyn VersionScript,
    cfg: &RepoConfig,
    out: &dyn Output,
    dev: &SemVer,
) -> (r: Result<(), String>)
    ensures
        crate::hosting::host_extends(final(hosting).history(), old(hosting).history()),
        crate::git::extends(final(git).history(), old(git).history()),
{
    git.checkout("develop")?;
    git.ff_merge("origin/develop")?;
    match cfg.mode {
        Mode::Free => {
            require_clean_tree(git)?;
            if run_version_script(git, script, dev)? {
                git.push("develop")?;
                out.line(cat(&["Develop bumped to ", dev.to_string().as_str(), "."]).as_str());
            }
            Ok(())
        },
        Mode::Protected => {
            let chore = version_chore_branch(dev);
            let title = version_message("chore: set version ", dev);
            if git.remote_branch_exists(chore.as_str())? {
                let url = hosting.create_or_get_pr(chore.as_str(), "develop", title.as_str(), None)?;
                out.line(cat(&["Version PR: ", url.as_str()]).as_str());
                return Ok(());
            }
            if git.local_branch_exists(chore.as_str())? {
                git.delete_branch_local(chore.as_str())?;
            }
            git.create_branch(chore.as_str(), "develop")?;
            let committed = match bump_on_chore(git, script, dev) {
                Ok(c) => c,
                Err(e) => {
                    // Leave the operator on develop, not on the chore branch.
                    let _ = git.checkout("develop");
                    return Err(e);
                },
            };
            if committed {
                git.push(chore.as_str())?;
                let url = hosting.create_or_get_pr(chore.as_str(), "develop", title.as_str(), None)?;
                out.line(cat(&["Version PR: ", url.as_str()]).as_str());
            } else {
                git.checkout("develop")?;
                git.delete_branch_local(chore.as_str())?;
            }
            Ok(())
        },
    }
}

/// On a fresh chore branch: the script's commit, when it changed anything.
fn bump_on_chore<G: Git>(git: &mut G, script: &dyn VersionScript, dev: &SemVer) -> (r: Result<bool, String>)
    ensures
        crate::git::extends(final(git).history(), old(git).history()),
{
    require_clean_tree(git)?;
    run_version_script(git, script, dev)
}

/// Whether any commit on develop since the `latest` release tag announces a
/// breaking change (develop as known locally, else as on origin; neither
/// readable means no).
pub fn detect_breaking_changes<G: Git>(git: &mut G, latest: &SemVer) -> (r: bool)
    ensures
        crate::git::extends(final(git).history(), old(git).history()),
        breaking_events(old(git).history(), final(git).history(), tag_text(latest@), r),
{
    let tag = latest.tag_name();
    let local = git.commit_messages(tag.as_str(), "develop");
    let remote = if local.is_err() {
        Some(git.commit_messages(tag.as_str(), "origin/develop"))
    } else {
        None
    };
    let r = breaking_in(&local, &remote);
    proof {
        match &local {
            Ok(ms) => lemma_breaking_views(ms@),
            Err(_) => match &remote {
                Some(Ok(ms)) => lemma_breaking_views(ms@),
                _ => {},
            },
        }
    }
    r
}

/// Whether git's answer lists a breaking commit message.
pub open spec fn breaking_answer(a: GitAnswer) -> bool {
    match a {
        GitAnswer::Texts(ms) => exists|i: int| 0 <= i < ms.len() && breaking_message(#[trigger] ms[i]),
        _ => false,
    }
}

/// What breaking-change detection asks of git since `tag` (history `h` after
/// `h0`) and answers: the messages on develop, and only when those cannot be
/// read, on origin/develop; the answer is whether the first list read holds
/// a breaking message, `false` when neither could be read.
pub open spec fn breaking_events(h0: Seq<GitEvent>, h: Seq<GitEvent>, tag: Seq<char>, r: bool) -> bool {
    let k = h0.len() as int;
    &&& call_at(h, k, GitOp::CommitMessages, seq![tag, "develop"@])
    &&& if h[k].answer is Failed {
        &&& h.len() == k + 2
        &&& call_at(h, k + 1, GitOp::CommitMessages, seq![tag, "origin/develop"@])
        &&& r == breaking_answer(h[k + 1].answer)
    } else {
        h.len() == k + 1 && r == breaking_answer(h[k].answer)
    }
}

proof fn lemma_breaking_views(ms: Seq<String>)
    ensures
        some_breaking(ms) == breaking_answer(GitAnswer::Texts(crate::text::views(ms))),
{
    let vs = crate::text::views(ms);
    if some_breaking(ms) {
        let i = choose|i: int| 0 <= i < ms.len() && breaking_message(#[trigger] ms[i]@);
        assert(vs[i] == ms[i]@);
    }
    if breaking_answer(GitAnswer::Texts(vs)) {
        let i = choose|i: int| 0 <= i < vs.len() && breaking_message(#[trigger] vs[i]);
        assert(vs[i] == ms[i]@);
    }
}

pub open spec fn some_breaking(ms: Seq<String>) -> bool {
    exists|i: int| 0 <= i < ms.len() && breaking_message(#[trigger] ms[i]@)
}

/// The breaking-change answer from the messages read on develop, or (when
/// develop could not be read) on origin/develop: `false` when neither could
/// be read.
pub fn breaking_in(local: &Result<Vec<String>, String>, remote: &Option<Result<Vec<String>, String>>) -> (r: bool)
    ensures
        r == match local {
            Ok(ms) => some_breaking(ms@),
            Err(_) => match remote {
                Some(Ok(ms)) => some_breaking(ms@),
                _ => false,
            },
        },
{
    match local {
        Ok(ms) => any_breaking(ms),
        Err(_) => match remote {
            Some(Ok(ms)) => any_breaking(ms),
            _ => false,
        },
    }
}

/// Whether any of `messages` announces a breaking change.
pub fn any_breaking(messages: &Vec<String>) -> (r: bool)
    ensures
        r == exists|i: int| 0 <= i < messages@.len() && breaking_message(#[trigger] messages@[i]@),
{
    let mut i: usize = 0;
    while i < messages.len()
        invariant
            i <= messages@.len(),
            forall|k: int| 0 <= k < i ==> !breaking_message(#[trigger] messages@[k]@),
        decreases messages@.len() - i,
    {
        if message_is_breaking(messages[i].as_str()) {
            return true;
        }
        i = i + 1;
    }
    false
}

/// The release-type question's items for the latest release `latest`: the
/// major bump first when breaking changes were detected, else the minor one.
pub open spec fn release_type_items(latest: VersionView, has_breaking: bool) -> Seq<Seq<char>> {
    let current = version_text(latest);
    let major = "major (v"@ + current + " → v"@ + version_text(release_view((latest.major + 1) as u32, 0, 0)) + ")"@;
    let minor = "minor (v"@ + current + " → v"@ + version_text(release_view(latest.major, (latest.minor + 1) as u32, 0))
        + ")"@;
    if has_breaking {
        seq![major, minor]
    } else {
        seq![minor, major]
    }
}

/// The items of the release-type question, in order.
pub fn release_type_labels(latest: &SemVer, has_breaking: bool) -> (r: Vec<String>)
    requires
        latest.major < u32::MAX,
        latest.minor < u32::MAX,
    ensures
        views(r@) == release_type_items(latest@, has_breaking),
{
    let current = latest.to_string();
    let mut major = String::from_str("major (v");
    major.append(current.as_str());
    major.append(" → v");
    major.append(latest.bump_major().to_string().as_str());
    major.append(")");
    let mut minor = String::from_str("minor (v");
    minor.append(current.as_str());
    minor.append(" → v");
    minor.append(latest.bump_minor().to_string().as_str());
    minor.append(")");
    let r = if has_breaking {
        vec![major, minor]
    } else {
        vec![minor, major]
    };
    assert(views(r@) =~= release_type_items(latest@, has_breaking));
    r
}

fn prompt_release_type(prompter: &dyn Prompter, out: &dyn Output, latest: &SemVer, has_breaking: bool) -> (r: Result<
    ReleaseType,
    String,
>)
    ensures
        (latest.major == u32::MAX || latest.minor == u32::MAX) ==> (r matches Err(e) && e@
            == "Cannot compute the next version: a version number is at its maximum."@),
        r matches Ok(t) ==> t == release_type_at(has_breaking, 0) || t == release_type_at(has_breaking, 1),
{
    if latest.major == u32::MAX || latest.minor == u32::MAX {
        return Err(overflow_error());
    }
    if has_breaking {
        out.line("Breaking changes detected since last release.");
    }
    let labels = release_type_labels(latest, has_breaking);
    assert(views(labels@).len() == labels@.len());
    let items: Vec<&str> = vec![labels[0].as_str(), labels[1].as_str()];
    let idx = prompter.select("Release type", items.as_slice())?;
    Ok(release_type_choice(has_breaking, idx))
}

/// `r` with its success value dropped.
pub open spec fn unit_of(r: Result<String, String>) -> Result<(), String> {
    match r {
        Ok(_) => Ok(()),
        Err(e) => Err(e),
    }
}

/// The steps that cut the branch `b` from `base` and publish it: created from
/// `base` (after a checkout of `base`, unless `no_checkout`), then pushed.
pub open spec fn cut_steps(b: Seq<char>, base: Seq<char>, no_checkout: bool) -> Seq<(GitOp, Seq<Seq<char>>)> {
    if no_checkout {
        seq![(GitOp::CreateBranchNoCheckout, seq![b, base]), (GitOp::Push, seq![b])]
    } else {
        seq![(GitOp::Checkout, seq![base]), (GitOp::CreateBranch, seq![b, base]), (GitOp::Push, seq![b])]
    }
}

pub open spec fn overflow_text() -> Seq<char> {
    "Cannot compute the next version: a version number is at its maximum."@
}

/// What cutting a new hotfix branch asks of git from operation `k` of `h`
/// on: the tags; at the highest patch number of their latest release
/// (`latest_release_choice`), the refusal; else `hotfix/` and that release
/// with the next patch number, cut from the mainline `main` (`cut_steps`),
/// and the result names it.
pub open spec fn hotfix_cut_events(h: Seq<GitEvent>, k: int, main: Seq<char>, no_checkout: bool, r: Result<String, String>) -> bool {
    &&& call_at(h, k, GitOp::ListTags, Seq::empty())
    &&& match h[k].answer {
        GitAnswer::Failed(e) => h.len() == k + 1 && (r matches Err(m) && m@ == e),
        GitAnswer::Texts(ts) => exists|v: VersionView|
            #[trigger] latest_release_choice(ts, v) && if v.patch == u32::MAX {
                h.len() == k + 1 && (r matches Err(m) && m@ == overflow_text())
            } else {
                let b = hotfix_branch_text(v.major, v.minor, (v.patch + 1) as u32);
                &&& ran_in_order(h, k + 1, cut_steps(b, main, no_checkout), unit_of(r))
                &&& r matches Ok(x) ==> x@ == b
            },
        _ => false,
    }
}

/// Cut the next hotfix branch from the mainline and publish it (with a
/// version script, its version committed first).
fn cut_hotfix<G: Git>(
    git: &mut G,
    out: &dyn Output,
    no_checkout: bool,
    main_branch: &str,
    script: Option<&dyn VersionScript>,
) -> (r: Result<String, String>)
    ensures
        crate::git::extends(final(git).history(), old(git).history()),
        script is None ==> hotfix_cut_events(final(git).history(), old(git).history().len() as int, main_branch@, no_checkout, r),
{
    let latest = find_latest_tag(git)?;
    let ghost k: int = old(git).history().len() as int;
    proof {
        if let GitAnswer::Texts(ts) = git.history()[k].answer {
            assert(latest_release_choice(ts, latest@));
        }
    }
    if latest.patch == u32::MAX {
        return Err(overflow_error());
    }
    let next = latest.bump_patch();
    let branch = next.hotfix_branch();
    match script {
        Some(_) => require_clean_tree(git)?,
        None => {},
    }
    out.line(cat(&["Creating hotfix branch: ", branch.as_str()]).as_str());
    if no_checkout {
        let made = git.create_branch_no_checkout(branch.as_str(), main_branch);
        if let Err(e) = made {
            return Err(e);
        }
    } else {
        let made = git.checkout(main_branch);
        if let Err(e) = made {
            return Err(e);
        }
        let made = git.create_branch(branch.as_str(), main_branch);
        if let Err(e) = made {
            return Err(e);
        }
    }
    match script {
        Some(s) => {
            run_version_script(git, s, &next)?;
        },
        None => {},
    }
    let pushed = git.push(branch.as_str());
    if let Err(e) = pushed {
        return Err(e);
    }
    Ok(branch)
}

/// What finding or cutting the hotfix branch asks of git (history `h` after
/// `h0`): the open hotfix branches (`open_branches_events`, up to operation
/// `l`); the first of them, when there is one, is the branch (checked out
/// unless `no_checkout`); else a new one is cut (`hotfix_cut_events`).
pub open spec fn hotfix_resolve_events(h0: Seq<GitEvent>, h: Seq<GitEvent>, main: Seq<char>, no_checkout: bool, r: Result<String, String>) -> bool {
    exists|l: int, listed: Result<Vec<String>, String>| {
        &&& h0.len() < l <= h.len()
        &&& #[trigger] open_branches_events(h0, h.take(l), "hotfix"@, listed)
        &&& match listed {
            Err(e) => h.len() == l && (r matches Err(m) && m@ == e@),
            Ok(open) => if open.len() > 0 {
                if no_checkout {
                    h.len() == l && (r matches Ok(b) && b@ == open[0]@)
                } else {
                    &&& ran_in_order(h, l, seq![(GitOp::Checkout, seq![open[0]@])], unit_of(r))
                    &&& r matches Ok(b) ==> b@ == open[0]@
                }
            } else {
                hotfix_cut_events(h, l, main, no_checkout, r)
            },
        }
    }
}

fn resolve_or_create_hotfix<G: Git>(
    git: &mut G,
    out: &dyn Output,
    no_checkout: bool,
    main_branch: &str,
    script: Option<&dyn VersionScript>,
) -> (r: Result<String, String>)
    ensures
        crate::git::extends(final(git).history(), old(git).history()),
        script is None ==> hotfix_resolve_events(old(git).history(), final(git).history(), main_branch@, no_checkout, r),
{
    let listed = open_versioned_branches(git, "hotfix");
    let ghost l: int = git.history().len() as int;
    let ghost mid = git.history();
    proof {
        assert(mid.take(l) =~= mid);
    }
    let hotfix_branches = match listed {
        Ok(v) => v,
        Err(e) => {
            return Err(e);
        },
    };
    if hotfix_branches.len() > 0 {
        let branch = owned(hotfix_branches[0].as_str());
        out.line(cat(&["Using existing hotfix branch: ", branch.as_str()]).as_str());
        if !no_checkout {
            let moved = git.checkout(branch.as_str());
            proof {
                assert(git.history().take(l) =~= mid);
            }
            if let Err(e) = moved {
                return Err(e);
            }
        }
        return Ok(branch);
    }
    let r = cut_hotfix(git, out, no_checkout, main_branch, script);
    proof {
        assert(git.history().take(l) =~= mid);
    }
    r
}

/// What reading the latest release asks of git (from operation `k` of `h`):
/// the tags, and nothing more; the version is `latest_release_choice` of them,
/// and a failed answer is the error.
pub open spec fn latest_tag_events(h: Seq<GitEvent>, k: int, r: Result<SemVer, String>) -> bool {
    &&& call_at(h, k, GitOp::ListTags, Seq::empty())
    &&& h.len() == k + 1
    &&& match h[k].answer {
        GitAnswer::Texts(ts) => r matches Ok(v) && latest_release_choice(ts, v@),
        GitAnswer::Failed(e) => r matches Err(m) && m@ == e,
        _ => false,
    }
}

fn find_latest_tag<G: Git>(git: &mut G) -> (r: Result<SemVer, String>)
    ensures
        crate::git::extends(final(git).history(), old(git).history()),
        r matches Ok(v) ==> v@.pre is None,
        latest_tag_events(final(git).history(), old(git).history().len() as int, r),
{
    let tags = git.list_tags()?;
    let latest = latest_release(&tags);
    proof {
        let ts = views(tags@);
        if exists|i: int| 0 <= i < ts.len() && tag_of_kind(#[trigger] ts[i], TagKind::Release) {
            let i = choose|i: int| 0 <= i < ts.len() && tag_of_kind(#[trigger] ts[i], TagKind::Release)
                && spec_parse_version(ts[i]) == Some(latest@);
        }
    }
    Ok(latest)
}

} // verus!
