//! Release-branch flows: bumping the release candidate, syncing with develop,
//! and finishing the release.
use vstd::prelude::*;

use super::{
    done_seen, lemma_done_seen_extends, lemma_done_seen_lower, lemma_merge_seen_extends, merge_message_text, merge_seen, merged_at,
    bump_tag_message, merge_message, version_message, delete_branch_guarded, delete_source_branch, greatest_tag, greatest_of_kind, kind_accepts, tag_of_kind, merge_into, push_if_needed,
    push_tag_if_missing, require_clean_tree, resume_hint, run_version_script, string_eq, tag_if_missing, Output, TagKind,
};
use crate::git::{call_at, ran_in_order, unit_answer, Git, GitAnswer, GitEvent, GitOp};
use crate::hosting::{host_call_at, HostAnswer, HostOp, HostingPlatform};
use crate::repo_config::{Mode, RepoConfig};
use crate::text::{cat, decimal, decimal_string};
use crate::version::{rc_label, release_branch_text, tag_text, triple_text, version_text, spec_parse_version, release_view, version_lt, SemVer, VersionView, PreView};
use crate::version_script::VersionScript;

verus! {

/// Highest `v{major}.{minor}.0-rc.N` tag on `branch`, or `None` when the
/// branch has no matching RC tag.
fn latest_rc<G: Git>(git: &mut G, branch: &str, major: u32, minor: u32) -> (r: Result<Option<SemVer>, String>)
    ensures
        crate::git::extends(final(git).history(), old(git).history()),
        r matches Ok(Some(v)) ==> kind_accepts(TagKind::RcOf { major, minor }, v@),
        final(git).history().len() == old(git).history().len() + 1,
        call_at(final(git).history(), old(git).history().len() as int, GitOp::TagsOnBranch, seq![branch@]),
        match final(git).history()[old(git).history().len() as int].answer {
            GitAnswer::Texts(ts) => r matches Ok(o) && latest_rc_of(
                ts,
                major,
                minor,
                match o {
                    Some(v) => Some(v@),
                    None => None,
                },
            ),
            GitAnswer::Failed(e) => r matches Err(m) && m@ == e,
            _ => false,
        },
{
    let tags = git.tags_on_branch(branch)?;
    let found = greatest_tag(&tags, TagKind::RcOf { major, minor });
    proof {
        if found is Some {
            let ts = crate::text::views(tags@);
            let i = choose|i: int| 0 <= i < ts.len() && tag_of_kind(#[trigger] ts[i], TagKind::RcOf { major, minor })
                && spec_parse_version(ts[i]) == Some(found->0@);
        }
    }
    Ok(found)
}

/// `o` is the latest `major.minor.0` RC among the tags `ts`, `None` when
/// there is none.
pub open spec fn latest_rc_of(ts: Seq<Seq<char>>, major: u32, minor: u32, o: Option<VersionView>) -> bool {
    match o {
        None => forall|i: int| 0 <= i < ts.len() ==> !tag_of_kind(#[trigger] ts[i], TagKind::RcOf { major, minor }),
        Some(v) => greatest_of_kind(ts, TagKind::RcOf { major, minor }, v),
    }
}

pub open spec fn no_rc_text() -> Seq<char> {
    "No RC tag found on this release branch. Run 'bflow bump' first."@
}

/// The RC to cut next: one past the latest, or `.1` of the release when there
/// is none yet.
pub open spec fn next_rc_view(latest: Option<VersionView>, release: VersionView) -> VersionView {
    match latest {
        Some(l) => VersionView {
            major: l.major,
            minor: l.minor,
            patch: l.patch,
            pre: Some(
                match l.pre {
                    Some(p) => PreView { label: p.label, number: (p.number + 1) as u32 },
                    None => PreView { label: rc_label(), number: 1 },
                },
            ),
        },
        None => VersionView {
            major: release.major,
            minor: release.minor,
            patch: release.patch,
            pre: Some(PreView { label: rc_label(), number: 1 }),
        },
    }
}

pub open spec fn opt_version(v: Option<SemVer>) -> Option<VersionView> {
    match v {
        Some(x) => Some(x@),
        None => None,
    }
}

/// Whether the next RC number fits: the latest RC's number is below the maximum.
pub open spec fn rc_room(latest: Option<VersionView>) -> bool {
    latest matches Some(l) ==> (l.pre matches Some(p) ==> p.number < u32::MAX)
}

/// The next RC comes after the latest one, and the first RC of a release
/// comes before the release itself.
pub proof fn law_next_rc_order(latest: VersionView, release: VersionView)
    requires
        latest.pre matches Some(p) && p.number < u32::MAX,
    ensures
        version_lt(latest, next_rc_view(Some(latest), release)),
        version_lt(
            next_rc_view(None, release),
            release_view(release.major, release.minor, release.patch),
        ),
{
    let p = latest.pre.unwrap();
    crate::version::lemma_text_lt_order(p.label, p.label, p.label);
}

pub fn next_rc(latest: &Option<SemVer>, release: &SemVer) -> (r: SemVer)
    requires
        rc_room(opt_version(*latest)),
    ensures
        r@ == next_rc_view(opt_version(*latest), release@),
{
    match latest {
        Some(l) => l.bump_rc(),
        None => release.with_rc(1),
    }
}

fn has_rc_room(latest: &Option<SemVer>) -> (r: bool)
    ensures
        r == rc_room(opt_version(*latest)),
{
    match latest {
        Some(l) => match &l.pre {
            Some(p) => p.number < u32::MAX,
            None => true,
        },
        None => true,
    }
}

fn rc_overflow() -> (r: String)
    ensures
        r@ == "Cannot cut the next RC: the RC number is at its maximum."@,
{
    String::from_str("Cannot cut the next RC: the RC number is at its maximum.")
}

/// Announce the tag about to be cut: "bumping from X", or the first-RC line
/// when the branch has no RC yet.
fn announce_next_rc(out: &dyn Output, latest: &Option<SemVer>, next: &SemVer, tag: &str) {
    match latest {
        Some(l) => out.line(cat(&["Bumping version: ", l.to_string().as_str(), " → ", next.to_string().as_str()]).as_str()),
        None => out.line(cat(&["Tagging first RC: ", tag]).as_str()),
    }
}

/// Tagging RC `tag` at the tip, from operation `k` of `g` on: the annotated
/// tag (`chore: bump version to <tag>`), then (if it was made) its push; the
/// result is the push's, or the tag's failure.
pub open spec fn rc_tag_events(g: Seq<GitEvent>, k: int, tag: Seq<char>, r: Result<(), String>) -> bool {
    &&& call_at(g, k, GitOp::CreateTag, seq![tag, "chore: bump version to "@ + tag])
    &&& match g[k].answer {
        GitAnswer::Failed(e) => g.len() == k + 1 && (r matches Err(m) && m@ == e),
        _ => call_at(g, k + 1, GitOp::PushTag, seq![tag]) && g.len() == k + 2 && g[k + 1].answer == unit_answer(r),
    }
}

/// Cutting the next RC of `release` on `branch`, from operation `k` of `g`
/// on: the tags on the branch; the next RC after the latest `major.minor`
/// RC among them (`next_rc_view`), tagged at the tip (`rc_tag_events`);
/// refused when the RC number is at its maximum.
pub open spec fn cut_rc_events(
    g: Seq<GitEvent>,
    k: int,
    branch: Seq<char>,
    major: u32,
    minor: u32,
    release: VersionView,
    r: Result<(), String>,
) -> bool {
    &&& call_at(g, k, GitOp::TagsOnBranch, seq![branch])
    &&& match g[k].answer {
        GitAnswer::Failed(e) => g.len() == k + 1 && (r matches Err(m) && m@ == e),
        GitAnswer::Texts(ts) => exists|o: Option<VersionView>|
            #[trigger] latest_rc_of(ts, major, minor, o) && if rc_room(o) {
                rc_tag_events(g, k + 1, tag_text(next_rc_view(o, release)), r)
            } else {
                g.len() == k + 1 && (r matches Err(m) && m@ == "Cannot cut the next RC: the RC number is at its maximum."@)
            },
        _ => false,
    }
}

/// Cut `tag` at the branch tip (the common case: nothing to wait on).
fn cut_tag_at_tip<G: Git>(git: &mut G, out: &dyn Output, latest: &Option<SemVer>, next: &SemVer, tag: &str) -> (r: Result<
    (),
    String,
>)
    ensures
        crate::git::extends(final(git).history(), old(git).history()),
        rc_tag_events(final(git).history(), old(git).history().len() as int, tag@, r),
{
    announce_next_rc(out, latest, next, tag);
    git.create_tag(tag, bump_tag_message(tag).as_str())?;
    git.push_tag(tag)?;
    out.line(cat(&["Tagged and pushed: ", tag]).as_str());
    Ok(())
}

/// Read the branch's RCs and cut the next one at the tip.
fn cut_next_rc<G: Git>(git: &mut G, out: &dyn Output, release: &SemVer, branch: &str, major: u32, minor: u32) -> (r: Result<
    (),
    String,
>)
    ensures
        crate::git::extends(final(git).history(), old(git).history()),
        cut_rc_events(final(git).history(), old(git).history().len() as int, branch@, major, minor, release@, r),
{
    let ghost g0 = git.history();
    let latest = latest_rc(git, branch, major, minor)?;
    if !has_rc_room(&latest) {
        return Err(rc_overflow());
    }
    let next = next_rc(&latest, release);
    let tag = next.tag_name();
    let ghost g1 = git.history();
    let r = cut_tag_at_tip(git, out, &latest, &next, tag.as_str());
    proof {
        let k = g0.len() as int;
        assert(git.history()[k] == g1[k]);
    }
    r
}

/// `bflow bump`: cut the next release candidate of `release/major.minor.0`,
/// running the version script first when there is one.
pub fn bump_version<G: Git, H: HostingPlatform>(
    git: &mut G,
    hosting: &mut H,
    script: Option<&dyn VersionScript>,
    cfg: &RepoConfig,
    out: &dyn Output,
    major: u32,
    minor: u32,
) -> (r: Result<(), String>)
    ensures
        crate::hosting::host_extends(final(hosting).history(), old(hosting).history()),
        crate::git::extends(final(git).history(), old(git).history()),
        cfg.mode == Mode::Free && script is None ==> cut_rc_events(
            final(git).history(),
            old(git).history().len() as int,
            release_branch_text(major, minor, 0),
            major,
            minor,
            release_view(major, minor, 0),
            r,
        ),
        cfg.mode == Mode::Protected ==> host_call_at(
            final(hosting).history(),
            old(hosting).history().len() as int,
            HostOp::MergedPrTo,
            seq![
                "release-chore/"@ + triple_text(major, minor, 0) + "/"@ + "set-version"@,
                release_branch_text(major, minor, 0),
            ],
        ),
        cfg.mode == Mode::Protected && r is Ok ==> exists|s: BumpStep|
            #[trigger] bump_observed(
                final(git).history(),
                old(git).history().len() as int,
                final(hosting).history()[old(hosting).history().len() as int].answer,
                "release-chore/"@ + triple_text(major, minor, 0) + "/"@ + "set-version"@,
                script is Some,
                s,
            ),
{
    let release = SemVer::new(major, minor, 0);
    let branch = release.release_branch();
    match cfg.mode {
        Mode::Free => bump_free(git, script, out, &release, branch.as_str(), major, minor),
        Mode::Protected => {
            bump_protected(git, hosting, script, out, &release, branch.as_str(), major, minor)?;
            Ok(())
        },
    }
}

/// Free mode: a version-script commit lands straight on the release branch and
/// the tag is cut at the tip in the same run.
fn bump_free<G: Git>(
    git: &mut G,
    script: Option<&dyn VersionScript>,
    out: &dyn Output,
    release: &SemVer,
    branch: &str,
    major: u32,
    minor: u32,
) -> (r: Result<(), String>)
    ensures
        crate::git::extends(final(git).history(), old(git).history()),
        script is None ==> cut_rc_events(final(git).history(), old(git).history().len() as int, branch@, major, minor, release@, r),
{
    let ghost g0 = git.history();
    let latest = latest_rc(git, branch, major, minor)?;
    if !has_rc_room(&latest) {
        return Err(rc_overflow());
    }
    let next = next_rc(&latest, release);
    let tag = next.tag_name();
    let ghost g1 = git.history();
    match script {
        Some(script) => {
            require_clean_tree(git)?;
            if run_version_script(git, script, release)? {
                git.push(branch)?;
            }
        },
        None => {},
    }
    let r = cut_tag_at_tip(git, out, &latest, &next, tag.as_str());
    proof {
        if script is None {
            let k = g0.len() as int;
            assert(git.history()[k] == g1[k]);
        }
    }
    r
}

fn announce_deferred(out: &dyn Output, pr_url: &str) {
    out.line(cat(&["Version PR: ", pr_url]).as_str());
    out.line(
        "The RC tag is deferred until this PR merges. After it merges, re-run 'bflow bump' to cut the tag.",
    );
}

/// What a protected-mode bump does next.
#[derive(Debug, Clone, Copy, PartialEq, Eq, Structural)]
pub enum BumpStep {
    /// The version PR landed and its merge commit has no RC yet: tag it.
    TagMerged,
    /// Nothing to wait on: cut the next RC at the branch tip.
    CutAtTip,
    /// The version chore branch is already on origin: reuse its PR.
    ReusePr,
    /// Run the version script on a fresh chore branch and open its PR.
    RunScript,
}

/// The order of a protected bump: consume a landed version PR first (unless
/// its merge commit already carries the latest RC), then pure tagging when
/// there is no script, then reuse of a pending version PR, then a fresh
/// script run.
pub open spec fn bump_step_spec(landed: bool, consumed: bool, has_script: bool, chore_on_remote: bool) -> BumpStep {
    if landed && !consumed {
        BumpStep::TagMerged
    } else if !has_script {
        BumpStep::CutAtTip
    } else if chore_on_remote {
        BumpStep::ReusePr
    } else {
        BumpStep::RunScript
    }
}

/// Decide the next step of a protected bump from what was observed.
pub fn bump_step(landed: bool, consumed: bool, has_script: bool, chore_on_remote: bool) -> (r: BumpStep)
    ensures
        r == bump_step_spec(landed, consumed, has_script, chore_on_remote),
{
    if landed && !consumed {
        BumpStep::TagMerged
    } else if !has_script {
        BumpStep::CutAtTip
    } else if chore_on_remote {
        BumpStep::ReusePr
    } else {
        BumpStep::RunScript
    }
}

/// What a protected bump observed and did (git history `g` from operation
/// `k` on; `landing` the platform's answer about the version PR): the RC is
/// tagged at the merge commit exactly when the version PR landed and git's
/// commit for the latest RC tag (asked right after the tags) is not that
/// merge commit; without a script nothing else but a tag at the tip is done;
/// a pending version PR is reused only after git confirmed the chore branch
/// on origin, and the script runs only after git said it is not there.
pub open spec fn bump_observed(
    g: Seq<GitEvent>,
    k: int,
    landing: HostAnswer,
    chore: Seq<char>,
    has_script: bool,
    s: BumpStep,
) -> bool {
    &&& match landing {
        HostAnswer::Landed(Some(pr)) => (s is TagMerged) <==> !(k + 1 < g.len() && g[k + 1].op == GitOp::TagCommitSha
            && g[k + 1].answer == GitAnswer::Text(pr.2)),
        _ => !(s is TagMerged),
    }
    &&& (s is CutAtTip) <==> (!has_script && !(s is TagMerged))
    &&& s is ReusePr ==> has_script && exists|l: int|
        k <= l && #[trigger] call_at(g, l, GitOp::RemoteBranchExists, seq![chore]) && g[l].answer == GitAnswer::Flag(true)
    &&& s is RunScript ==> has_script && exists|l: int|
        k <= l && #[trigger] call_at(g, l, GitOp::RemoteBranchExists, seq![chore]) && g[l].answer == GitAnswer::Flag(false)
}

/// Protected mode: a version-script commit needs a human-merged PR, so the RC
/// tag is deferred to that PR's merge commit. The step taken is `bump_step`
/// of what git and the hosting platform answered; without a version script
/// no version PR is opened or reused.
fn bump_protected<G: Git, H: HostingPlatform>(
    git: &mut G,
    hosting: &mut H,
    script: Option<&dyn VersionScript>,
    out: &dyn Output,
    release: &SemVer,
    branch: &str,
    major: u32,
    minor: u32,
) -> (r: Result<BumpStep, String>)
    ensures
        crate::hosting::host_extends(final(hosting).history(), old(hosting).history()),
        crate::git::extends(final(git).history(), old(git).history()),
        r matches Ok(s) ==> exists|landed: bool, consumed: bool, on_remote: bool|
            s == #[trigger] bump_step_spec(landed, consumed, script is Some, on_remote),
        script is None ==> (r matches Ok(s) ==> s is TagMerged || s is CutAtTip),
        host_call_at(
            final(hosting).history(),
            old(hosting).history().len() as int,
            HostOp::MergedPrTo,
            seq!["release-chore/"@ + triple_text(release.major, release.minor, release.patch) + "/"@ + "set-version"@, branch@],
        ),
        r matches Ok(s) ==> bump_observed(
            final(git).history(),
            old(git).history().len() as int,
            final(hosting).history()[old(hosting).history().len() as int].answer,
            "release-chore/"@ + triple_text(release.major, release.minor, release.patch) + "/"@ + "set-version"@,
            script is Some,
            s,
        ),
{
    let ghost g0 = git.history();
    let ghost h0 = hosting.history();
    let chore_branch = release.release_chore_branch("set-version");
    let merged = hosting.merged_pr_to(chore_branch.as_str(), branch)?;
    let ghost h1 = hosting.history();
    let mut latest: Option<SemVer> = None;
    let mut consumed = false;
    match &merged {
        Some(pr) => {
            latest = latest_rc(git, branch, major, minor)?;
            if !has_rc_room(&latest) {
                return Err(rc_overflow());
            }
            consumed = match &latest {
                Some(l) => {
                    let sha = git.tag_commit_sha(l.tag_name().as_str())?;
                    string_eq(sha.as_str(), pr.merge_commit_sha.as_str())
                },
                None => false,
            };
            proof {
                let k = g0.len() as int;
                if latest is Some {
                    assert(git.history().len() == k + 2);
                }
                assert(consumed == (k + 1 < git.history().len() && git.history()[k + 1].op == GitOp::TagCommitSha
                    && git.history()[k + 1].answer == GitAnswer::Text(pr.merge_commit_sha@)));
            }
            if consumed {
                // Already cut on a previous run: tidy up and re-evaluate as fresh.
                delete_branch_guarded(git, out, chore_branch.as_str())?;
            }
        },
        None => {},
    }
    let landed = merged.is_some();
    let has_script = script.is_some();
    let ghost lr = git.history().len() as int;
    let on_remote = if (landed && !consumed) || !has_script {
        false
    } else {
        git.remote_branch_exists(chore_branch.as_str())?
    };
    let step = bump_step(landed, consumed, has_script, on_remote);
    let ghost gs = git.history();
    let title = version_message("chore: set version ", release);
    match step {
        BumpStep::TagMerged => {
            if let Some(pr) = &merged {
                let next = next_rc(&latest, release);
                let tag = next.tag_name();
                announce_next_rc(out, &latest, &next, tag.as_str());
                git.create_tag_at(tag.as_str(), bump_tag_message(tag.as_str()).as_str(), pr.merge_commit_sha.as_str())?;
                git.push_tag(tag.as_str())?;
                delete_branch_guarded(git, out, chore_branch.as_str())?;
                out.line(cat(&["Tagged and pushed: ", tag.as_str()]).as_str());
            }
        },
        BumpStep::CutAtTip => {
            cut_next_rc(git, out, release, branch, major, minor)?;
        },
        BumpStep::ReusePr => {
            let url = hosting.create_or_get_pr(chore_branch.as_str(), branch, title.as_str(), None)?;
            announce_deferred(out, url.as_str());
        },
        BumpStep::RunScript => {
            if let Some(script) = script {
                require_clean_tree(git)?;
                git.create_branch(chore_branch.as_str(), branch)?;
                if run_version_script(git, script, release)? {
                    git.push(chore_branch.as_str())?;
                    let url = hosting.create_or_get_pr(chore_branch.as_str(), branch, title.as_str(), None)?;
                    announce_deferred(out, url.as_str());
                    git.checkout(branch)?;
                } else {
                    git.checkout(branch)?;
                    git.delete_branch_local(chore_branch.as_str())?;
                    cut_next_rc(git, out, release, branch, major, minor)?;
                }
            }
        },
    }
    proof {
        if !((landed && !consumed) || !has_script) {
            assert(git.history()[lr] == gs[lr]);
            assert(call_at(git.history(), lr, GitOp::RemoteBranchExists, seq![chore_branch@]));
        }
    }
    Ok(step)
}

/// What `bflow sync` asks of git (history `h` after `h0`): the current
/// branch `c`; then, in order and each only after the one before succeeded,
/// a checkout of develop, a fast-forward to `origin/develop`, a merge of the
/// release branch titled `chore: sync release <version> with develop`, a push
/// of develop, and a checkout of `c` again. The first failure is the error.
pub open spec fn sync_events(h0: Seq<GitEvent>, h: Seq<GitEvent>, major: u32, minor: u32, r: Result<(), String>) -> bool {
    let k = h0.len() as int;
    let branch = release_branch_text(major, minor, 0);
    let message = "chore: sync release "@ + version_text(release_view(major, minor, 0)) + " with develop"@;
    &&& call_at(h, k, GitOp::CurrentBranch, Seq::empty())
    &&& match h[k].answer {
        GitAnswer::Text(c) => ran_in_order(
            h,
            k + 1,
            seq![
                (GitOp::Checkout, seq!["develop"@]),
                (GitOp::FfMerge, seq!["origin/develop"@]),
                (GitOp::Merge, seq![branch, message]),
                (GitOp::Push, seq!["develop"@]),
                (GitOp::Checkout, seq![c]),
            ],
            r,
        ),
        GitAnswer::Failed(e) => h.len() == k + 1 && (r matches Err(m) && m@ == e),
        _ => false,
    }
}

/// `bflow sync`: merge the release branch into develop and come back.
pub fn sync_with_develop<G: Git>(git: &mut G, out: &dyn Output, major: u32, minor: u32) -> (r: Result<(), String>)
    ensures
        crate::git::extends(final(git).history(), old(git).history()),
        sync_events(old(git).history(), final(git).history(), major, minor, r),
{
    let release = SemVer::new(major, minor, 0);
    let release_branch = release.release_branch();
    let current = git.current_branch()?;
    out.line(cat(&["Merging ", release_branch.as_str(), " into develop..."]).as_str());
    let mut message = version_message("chore: sync release ", &release);
    message.append(" with develop");
    let ghost k: int = old(git).history().len() as int + 1;
    let ghost steps = seq![
        (GitOp::Checkout, seq!["develop"@]),
        (GitOp::FfMerge, seq!["origin/develop"@]),
        (GitOp::Merge, seq![release_branch@, message@]),
        (GitOp::Push, seq!["develop"@]),
        (GitOp::Checkout, seq![current@]),
    ];
    let r = git.checkout("develop");
    if r.is_err() {
        return r;
    }
    let r = git.ff_merge("origin/develop");
    if r.is_err() {
        return r;
    }
    let r = git.merge(release_branch.as_str(), message.as_str());
    if r.is_err() {
        return r;
    }
    let r = git.push("develop");
    if r.is_err() {
        return r;
    }
    let r = git.checkout(current.as_str());
    if r.is_err() {
        return r;
    }
    assert(ran_in_order(git.history(), k, steps, r));
    out.line(cat(&["Develop synced with ", release_branch.as_str(), "."]).as_str());
    Ok(())
}

pub open spec fn rc_gate_text(release_branch: Seq<char>, commits: u32, rc_tag: Seq<char>, main_branch: Seq<char>) -> Seq<
    char,
> {
    "HEAD of "@ + release_branch + " is "@ + decimal(commits as nat) + " "@ + (if commits == 1 {
        "commit"@
    } else {
        "commits"@
    }) + " past "@ + rc_tag + ".\nEvery commit merged to "@ + main_branch
        + " must be validated on staging via an RC deploy.\nRun 'bflow bump' to cut the next RC, wait for staging to pass, then 'bflow finish'."@
}

/// What a release finish asks of git before it changes anything (history `h`
/// after `h0`): the tags on the release branch; without an RC among them, the
/// refusal and nothing more. Then whether the branch is already in the
/// mainline; if not, the commits on the branch past the latest RC: any at
/// all are refused by the RC gate (`rc_gate_text`) and nothing more is done,
/// none lets the merge begin with a checkout of the mainline. A failed
/// answer is returned as the error.
pub open spec fn release_gate_events(h0: Seq<GitEvent>, h: Seq<GitEvent>, major: u32, minor: u32, main: Seq<char>, r: Result<(), String>) -> bool {
    let k = h0.len() as int;
    let branch = release_branch_text(major, minor, 0);
    &&& call_at(h, k, GitOp::TagsOnBranch, seq![branch])
    &&& match h[k].answer {
        GitAnswer::Failed(e) => h.len() == k + 1 && (r matches Err(m) && m@ == e),
        GitAnswer::Texts(ts) => if latest_rc_of(ts, major, minor, None) {
            h.len() == k + 1 && (r matches Err(m) && m@ == no_rc_text())
        } else {
            exists|v: VersionView| {
                &&& #[trigger] latest_rc_of(ts, major, minor, Some(v))
                &&& call_at(h, k + 1, GitOp::IsAncestor, seq![branch, main])
                &&& match h[k + 1].answer {
                    GitAnswer::Failed(e) => h.len() == k + 2 && (r matches Err(m) && m@ == e),
                    GitAnswer::Flag(merged) => !merged ==> {
                        &&& call_at(h, k + 2, GitOp::RevListCount, seq![tag_text(v), branch])
                        &&& match h[k + 2].answer {
                            GitAnswer::Failed(e) => h.len() == k + 3 && (r matches Err(m) && m@ == e),
                            GitAnswer::Count(n) => if n > 0 {
                                h.len() == k + 3 && (r matches Err(m) && m@ == rc_gate_text(branch, n, tag_text(v), main))
                            } else {
                                call_at(h, k + 3, GitOp::Checkout, seq![main])
                            },
                            _ => false,
                        }
                    },
                    _ => false,
                }
            }
        },
        _ => false,
    }
}

/// The RC gate's refusal: commits past the latest RC were never validated on
/// staging.
pub fn rc_gate_message(release_branch: &str, commits: u32, rc_tag: &str, main_branch: &str) -> (r: String)
    ensures
        r@ == rc_gate_text(release_branch@, commits, rc_tag@, main_branch@),
{
    let mut s = String::from_str("HEAD of ");
    s.append(release_branch);
    s.append(" is ");
    s.append(decimal_string(commits as u64).as_str());
    s.append(" ");
    if commits == 1 {
        s.append("commit");
    } else {
        s.append("commits");
    }
    s.append(" past ");
    s.append(rc_tag);
    s.append(".\nEvery commit merged to ");
    s.append(main_branch);
    s.append(
        " must be validated on staging via an RC deploy.\nRun 'bflow bump' to cut the next RC, wait for staging to pass, then 'bflow finish'.",
    );
    s
}

/// `bflow finish` on a release branch: gate on the latest RC, merge into the
/// mainline, tag the release, merge into develop, delete the branch. Every
/// step is skipped when already done, so a re-run resumes.
/// What a finished release amounts to (history `h` after `h0`), with `v` the
/// latest RC that git listed on the release branch first: the release branch
/// found in or merged into the mainline and develop (`merged_at`, with the
/// message `chore: merge release <major.minor.0> into <target>`), each pushed
/// or found up to date; the release tag of `v` found or created
/// (`chore: release <version>`), and pushed or found on origin.
pub open spec fn release_finished(h0: Seq<GitEvent>, h: Seq<GitEvent>, major: u32, minor: u32, main: Seq<char>, v: VersionView) -> bool {
    let k = h0.len() as int;
    let branch = release_branch_text(major, minor, 0);
    let release = release_view(major, minor, 0);
    let shipped = release_view(v.major, v.minor, v.patch);
    let tag = tag_text(shipped);
    &&& h[k].answer matches GitAnswer::Texts(ts) && latest_rc_of(ts, major, minor, Some(v))
    &&& merge_seen(h, k, branch, main, merge_message_text("release"@, release, main))
    &&& done_seen(h, k, GitOp::TagExists, seq![tag], GitOp::CreateTag, seq![tag, "chore: release "@ + version_text(shipped)])
    &&& done_seen(h, k, GitOp::IsPushed, seq![main], GitOp::Push, seq![main])
    &&& done_seen(h, k, GitOp::RemoteTagExists, seq![tag], GitOp::PushTag, seq![tag])
    &&& merge_seen(h, k, branch, "develop"@, merge_message_text("release"@, release, "develop"@))
    &&& done_seen(h, k, GitOp::IsPushed, seq!["develop"@], GitOp::Push, seq!["develop"@])
}

pub fn finish_release<G: Git>(git: &mut G, out: &dyn Output, major: u32, minor: u32, main_branch: &str) -> (r: Result<(), String>)
    ensures
        crate::git::extends(final(git).history(), old(git).history()),
        release_gate_events(old(git).history(), final(git).history(), major, minor, main_branch@, r),
        r is Ok ==> exists|v: VersionView| #[trigger] release_finished(old(git).history(), final(git).history(), major, minor, main_branch@, v),
{
    let ghost g0 = old(git).history();
    let ghost k: int = g0.len() as int;
    let release = SemVer::new(major, minor, 0);
    let release_branch = release.release_branch();
    let latest = match latest_rc(git, release_branch.as_str(), major, minor)? {
        Some(v) => v,
        None => {
            return Err(String::from_str("No RC tag found on this release branch. Run 'bflow bump' first."));
        },
    };
    let release_version = latest.to_release();
    let tag = release_version.tag_name();
    out.line(cat(&["Finishing release ", release_branch.as_str(), " (tag: ", tag.as_str(), ")..."]).as_str());
    let ghost ga = git.history();
    let ghost mut gm = git.history();
    let ghost mut lm: int = ga.len() as int;
    if !git.is_ancestor(release_branch.as_str(), main_branch)? {
        let latest_rc_tag = latest.tag_name();
        let commits_past_rc = git.rev_list_count(latest_rc_tag.as_str(), release_branch.as_str())?;
        if commits_past_rc > 0 {
            return Err(rc_gate_message(release_branch.as_str(), commits_past_rc, latest_rc_tag.as_str(), main_branch));
        }
        out.line(cat(&["Merging into ", main_branch, "..."]).as_str());
        proof {
            lm = git.history().len() as int;
        }
        git.checkout(main_branch)?;
        let remote = cat(&["origin/", main_branch]);
        proof {
            reveal_strlit("origin/");
            reveal_with_fuel(crate::text::concat, 3);
            assert(remote@ =~= "origin/"@ + main_branch@);
        }
        git.ff_merge(remote.as_str())?;
        let message = merge_message("release", &release, main_branch);
        match git.merge(release_branch.as_str(), message.as_str()) {
            Ok(()) => {
                assert(merged_at(git.history(), lm, release_branch@, main_branch@, message@));
                proof {
                    gm = git.history();
                }
            },
            Err(e) => {
                return Err(cat(&[e.as_str(), "\n", resume_hint(release_branch.as_str()).as_str()]));
            },
        }
    } else {
        assert(merged_at(git.history(), lm, release_branch@, main_branch@, merge_message_text("release"@, release@, main_branch@)));
        proof {
            gm = git.history();
        }
        out.line(cat(&["↷ skipped: merge into ", main_branch, " (already merged)"]).as_str());
    }
    let ghost g1 = git.history();
    let tag_message = version_message("chore: release ", &release_version);
    tag_if_missing(git, out, tag.as_str(), tag_message.as_str())?;
    let ghost g2 = git.history();
    push_if_needed(git, out, main_branch)?;
    let ghost g3 = git.history();
    push_tag_if_missing(git, out, tag.as_str())?;
    let ghost g4 = git.history();
    merge_into(
        git,
        out,
        release_branch.as_str(),
        "develop",
        merge_message("release", &release, "develop").as_str(),
        resume_hint(release_branch.as_str()).as_str(),
    )?;
    let ghost g5 = git.history();
    push_if_needed(git, out, "develop")?;
    let ghost g6 = git.history();
    out.line("Cleaning up release branch...");
    delete_source_branch(git, out, release_branch.as_str(), main_branch)?;
    out.line(cat(&["Release ", release_version.to_string().as_str(), " complete."]).as_str());
    proof {
        let gf = git.history();
        let branch = release_branch@;
        let rel = release@;
        let tag_v = tag@;
        assert(gf[k] == g1[k]);
        assert(merge_seen(gm, k, branch, main_branch@, merge_message_text("release"@, rel, main_branch@)));
        lemma_merge_seen_extends(gm, gf, k, branch, main_branch@, merge_message_text("release"@, rel, main_branch@));
        lemma_done_seen_extends(g2, gf, g1.len() as int, GitOp::TagExists, seq![tag_v], GitOp::CreateTag, seq![tag_v, tag_message@]);
        lemma_done_seen_lower(gf, g1.len() as int, k, GitOp::TagExists, seq![tag_v], GitOp::CreateTag, seq![tag_v, tag_message@]);
        lemma_done_seen_extends(g3, gf, g2.len() as int, GitOp::IsPushed, seq![main_branch@], GitOp::Push, seq![main_branch@]);
        lemma_done_seen_lower(gf, g2.len() as int, k, GitOp::IsPushed, seq![main_branch@], GitOp::Push, seq![main_branch@]);
        lemma_done_seen_extends(g4, gf, g3.len() as int, GitOp::RemoteTagExists, seq![tag_v], GitOp::PushTag, seq![tag_v]);
        lemma_done_seen_lower(gf, g3.len() as int, k, GitOp::RemoteTagExists, seq![tag_v], GitOp::PushTag, seq![tag_v]);
        lemma_merge_seen_extends(g5, gf, g4.len() as int, branch, "develop"@, merge_message_text("release"@, rel, "develop"@));
        super::lemma_merge_seen_lower(gf, g4.len() as int, k, branch, "develop"@, merge_message_text("release"@, rel, "develop"@));
        lemma_done_seen_extends(g6, gf, g5.len() as int, GitOp::IsPushed, seq!["develop"@], GitOp::Push, seq!["develop"@]);
        lemma_done_seen_lower(gf, g5.len() as int, k, GitOp::IsPushed, seq!["develop"@], GitOp::Push, seq!["develop"@]);
        assert(release_finished(g0, gf, major, minor, main_branch@, latest@));
    }
    Ok(())
}

} // verus!
