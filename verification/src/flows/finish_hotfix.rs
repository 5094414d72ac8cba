//! Finishing a hotfix: into the mainline (tagged), develop, and every open
//! release branch.
use vstd::prelude::*;

use super::{
    merge_message, merge_message_text, version_message, announce_pending_landing, delete_source_branch, leg_landed, merge_into, open_landing_pr, report_commits_past_landing,
    done_seen, unlanded_at, lemma_done_seen_extends, lemma_done_seen_lower, lemma_merge_seen_extends, lemma_merge_seen_lower, merge_seen, open_branches_events, open_versioned_branches, push_if_needed, push_tag_if_missing, resume_hint, tag_at_if_missing,
    tag_if_missing, tip_landed_somewhere, Output,
};
use crate::git::{call_at, no_local_change, Git, GitAnswer, GitEvent, GitOp};
use crate::hosting::{host_call_at, no_pr_opened, pr_answered, pr_args, prs_opened_with, HostAnswer, HostEvent, HostOp, HostingPlatform, LandedPr};
use crate::repo_config::{Mode, RepoConfig};
use crate::text::{cat, owned, text_sorted_insert_point, views};
use crate::version::{hotfix_branch_text, release_view, tag_text, version_text, SemVer, VersionView};

verus! {

/// What a hotfix finished without PRs amounts to (history `h` after `h0`),
/// with `targets` its targets (the mainline, develop, the open release
/// branches): the hotfix branch found in or merged into each target
/// (`merged_at`, with the message `chore: merge hotfix <version> into
/// <target>`) and each target pushed or found up to date; the tag found or
/// created (`chore: hotfix <version>`), and pushed or found on origin.
pub open spec fn hotfix_merged_everywhere(h0: Seq<GitEvent>, h: Seq<GitEvent>, targets: Seq<Seq<char>>, version: VersionView) -> bool {
    let k = h0.len() as int;
    let hotfix = hotfix_branch_text(version.major, version.minor, version.patch);
    let tag = tag_text(version);
    &&& forall|m: int| 0 <= m < targets.len() ==> merge_seen(h, k, hotfix, #[trigger] targets[m], merge_message_text("hotfix"@, version, targets[m]))
    &&& forall|m: int| 0 <= m < targets.len() ==> done_seen(h, k, GitOp::IsPushed, seq![#[trigger] targets[m]], GitOp::Push, seq![targets[m]])
    &&& done_seen(h, k, GitOp::TagExists, seq![tag], GitOp::CreateTag, seq![tag, "chore: hotfix "@ + version_text(version)])
    &&& done_seen(h, k, GitOp::RemoteTagExists, seq![tag], GitOp::PushTag, seq![tag])
}

/// What a hotfix finish that ended with `r` amounts to (git history `g`
/// and platform history `h` after `g0`, `h0`), by mode: without PRs, when it
/// succeeds, the hotfix merged into the mainline, develop and the open
/// release branches that git listed, in code-point order, with the tag
/// (`hotfix_merged_everywhere`); with PRs, when it succeeds,
/// `protected_hotfix_ran`.
pub open spec fn hotfix_finished(
    g0: Seq<GitEvent>,
    g: Seq<GitEvent>,
    h0: Seq<HostEvent>,
    h: Seq<HostEvent>,
    main: Seq<char>,
    major: u32,
    minor: u32,
    patch: u32,
    template: Option<&str>,
    mode: Mode,
    r: Result<(), String>,
) -> bool {
    &&& (mode == Mode::Free && r is Ok ==> exists|l0: int, l: int, listed: Result<Vec<String>, String>, releases: Seq<String>|
            #![trigger open_branches_events(g.take(l0), g.take(l), "release"@, listed), names_in_order(releases)]
        {
            &&& g0.len() <= l0 < l <= g.len()
            &&& open_branches_events(g.take(l0), g.take(l), "release"@, listed)
            &&& listed matches Ok(open) && releases.to_multiset() == open@.to_multiset()
            &&& names_in_order(releases)
            &&& hotfix_merged_everywhere(
                g0,
                g,
                hotfix_target_list(main, views(releases)),
                release_view(major, minor, patch),
            )
        })
    &&& (mode == Mode::Protected && r is Ok ==> exists|p: HotfixProgress|
            #[trigger] protected_hotfix_ran(
                g0,
                g,
                h0,
                h,
                main,
                major,
                minor,
                patch,
                template,
                p,
            ))
}

/// `bflow finish` on a hotfix branch. Free mode merges directly; protected
/// mode lands each target through a PR, one per run.
pub fn finish_hotfix<G: Git, H: HostingPlatform>(
    git: &mut G,
    hosting: &mut H,
    cfg: &RepoConfig,
    out: &dyn Output,
    major: u32,
    minor: u32,
    patch: u32,
    main_branch: &str,
    template: Option<&str>,
) -> (r: Result<(), String>)
    ensures
        crate::hosting::host_extends(final(hosting).history(), old(hosting).history()),
        crate::git::extends(final(git).history(), old(git).history()),
        hotfix_finished(
            old(git).history(),
            final(git).history(),
            old(hosting).history(),
            final(hosting).history(),
            main_branch@,
            major,
            minor,
            patch,
            template,
            cfg.mode,
            r,
        ),
{
    let ghost g0 = git.history();
    if cfg.mode == Mode::Protected {
        let p = finish_hotfix_protected(git, hosting, cfg, out, major, minor, patch, main_branch, template)?;
        assert(protected_hotfix_ran(g0, git.history(), old(hosting).history(), hosting.history(), main_branch@, major, minor, patch, template, p));
        return Ok(());
    }
    let version = SemVer::new(major, minor, patch);
    let hotfix_branch = version.hotfix_branch();
    let tag = version.tag_name();
    let v = version.to_string();
    out.line(cat(&["Finishing hotfix ", hotfix_branch.as_str(), "..."]).as_str());
    let hint = resume_hint(hotfix_branch.as_str());
    let ghost k: int = g0.len() as int;
    let main_message = merge_message("hotfix", &version, main_branch);
    merge_into(git, out, hotfix_branch.as_str(), main_branch, main_message.as_str(), hint.as_str())?;
    let ghost g1 = git.history();
    let tag_message = version_message("chore: hotfix ", &version);
    tag_if_missing(git, out, tag.as_str(), tag_message.as_str())?;
    let ghost g2 = git.history();
    push_if_needed(git, out, main_branch)?;
    let ghost g3 = git.history();
    push_tag_if_missing(git, out, tag.as_str())?;
    let ghost g4 = git.history();
    let develop_message = merge_message("hotfix", &version, "develop");
    merge_into(git, out, hotfix_branch.as_str(), "develop", develop_message.as_str(), hint.as_str())?;
    let ghost g5 = git.history();
    push_if_needed(git, out, "develop")?;
    let ghost g6 = git.history();
    // Sorted: deterministic replay on resume is a crash-safety invariant.
    let listed = open_versioned_branches(git, "release");
    let ghost l: int = git.history().len() as int;
    let ghost listed_view = listed;
    let ghost mid = git.history();
    proof {
        assert(mid.take(l) =~= mid);
    }
    let release_branches = match listed {
        Ok(found) => sort_names(found),
        Err(e) => {
            return Err(e);
        },
    };
    let ghost targets = hotfix_target_list(main_branch@, views(release_branches@));
    let ghost hotfix = hotfix_branch_text(major, minor, patch);
    let mut i: usize = 0;
    while i < release_branches.len()
        invariant
            crate::git::extends(git.history(), old(git).history()),
            crate::hosting::host_extends(hosting.history(), old(hosting).history()),
            crate::git::extends(git.history(), mid),
            l == mid.len(),
            open_branches_events(g6, mid, "release"@, listed_view),
            listed_view matches Ok(open) && release_branches@.to_multiset() == open@.to_multiset(),
            names_in_order(release_branches@),
            crate::git::extends(mid, g6),
            crate::git::extends(g6, g0),
            g0 == old(git).history(),
            k == g0.len(),
            i <= release_branches@.len(),
            hotfix_branch@ == hotfix,
            version@ == release_view(major, minor, patch),
            targets == hotfix_target_list(main_branch@, views(release_branches@)),
            forall|m: int| 0 <= m < i ==> merge_seen(
                git.history(),
                k,
                hotfix,
                #[trigger] views(release_branches@)[m],
                merge_message_text("hotfix"@, version@, views(release_branches@)[m]),
            ),
            forall|m: int| 0 <= m < i ==> done_seen(
                git.history(),
                k,
                GitOp::IsPushed,
                seq![#[trigger] views(release_branches@)[m]],
                GitOp::Push,
                seq![views(release_branches@)[m]],
            ),
        decreases release_branches@.len() - i,
    {
        let release = release_branches[i].as_str();
        let help = cat(
            &[
                "Hotfix ",
                v.as_str(),
                " was merged into ",
                main_branch,
                " and develop, but propagation into ",
                release,
                " failed.\n",
                hint.as_str(),
                "\n(After all releases are updated, run 'bflow bump' on each to cut a fresh RC for staging.)",
            ],
        );
        let ghost gi = git.history();
        merge_into(git, out, hotfix_branch.as_str(), release, merge_message("hotfix", &version, release).as_str(), help.as_str())?;
        let ghost gm = git.history();
        // The push sits outside the merge guard so merged-but-unpushed crashes
        // still push on resume.
        push_if_needed(git, out, release)?;
        proof {
            let rs = views(release_branches@);
            assert(rs[i as int] == release@);
            assert forall|m: int| 0 <= m <= i implies merge_seen(
                git.history(),
                k,
                hotfix,
                #[trigger] rs[m],
                merge_message_text("hotfix"@, version@, rs[m]),
            ) by {
                if m < i {
                    lemma_merge_seen_extends(gi, git.history(), k, hotfix, rs[m], merge_message_text("hotfix"@, version@, rs[m]));
                } else {
                    lemma_merge_seen_extends(gm, git.history(), gi.len() as int, hotfix, rs[m], merge_message_text("hotfix"@, version@, rs[m]));
                    lemma_merge_seen_lower(git.history(), gi.len() as int, k, hotfix, rs[m], merge_message_text("hotfix"@, version@, rs[m]));
                }
            }
            assert forall|m: int| 0 <= m <= i implies done_seen(
                git.history(),
                k,
                GitOp::IsPushed,
                seq![#[trigger] rs[m]],
                GitOp::Push,
                seq![rs[m]],
            ) by {
                if m < i {
                    lemma_done_seen_extends(gi, git.history(), k, GitOp::IsPushed, seq![rs[m]], GitOp::Push, seq![rs[m]]);
                } else {
                    lemma_done_seen_lower(git.history(), gm.len() as int, k, GitOp::IsPushed, seq![rs[m]], GitOp::Push, seq![rs[m]]);
                }
            }
        }
        i = i + 1;
    }
    let ghost ge = git.history();
    let cleaned = finish_hotfix_cleanup(git, cfg, out, hotfix_branch.as_str(), main_branch, &version, &release_branches, true);
    proof {
        let gf = git.history();
        let rs = views(release_branches@);
        let tag_v = tag_text(version@);
        assert(gf.take(l) =~= mid);
        assert(gf.take(g6.len() as int) =~= g6);
        assert(open_branches_events(gf.take(g6.len() as int), gf.take(l), "release"@, listed_view));
        lemma_merge_seen_extends(g1, gf, k, hotfix, main_branch@, merge_message_text("hotfix"@, version@, main_branch@));
        lemma_merge_seen_extends(g5, gf, g4.len() as int, hotfix, "develop"@, merge_message_text("hotfix"@, version@, "develop"@));
        lemma_merge_seen_lower(gf, g4.len() as int, k, hotfix, "develop"@, merge_message_text("hotfix"@, version@, "develop"@));
        lemma_done_seen_extends(g2, gf, g1.len() as int, GitOp::TagExists, seq![tag_v], GitOp::CreateTag, seq![tag_v, tag_message@]);
        lemma_done_seen_lower(gf, g1.len() as int, k, GitOp::TagExists, seq![tag_v], GitOp::CreateTag, seq![tag_v, tag_message@]);
        lemma_done_seen_extends(g3, gf, g2.len() as int, GitOp::IsPushed, seq![main_branch@], GitOp::Push, seq![main_branch@]);
        lemma_done_seen_lower(gf, g2.len() as int, k, GitOp::IsPushed, seq![main_branch@], GitOp::Push, seq![main_branch@]);
        lemma_done_seen_extends(g4, gf, g3.len() as int, GitOp::RemoteTagExists, seq![tag_v], GitOp::PushTag, seq![tag_v]);
        lemma_done_seen_lower(gf, g3.len() as int, k, GitOp::RemoteTagExists, seq![tag_v], GitOp::PushTag, seq![tag_v]);
        lemma_done_seen_extends(g6, gf, g5.len() as int, GitOp::IsPushed, seq!["develop"@], GitOp::Push, seq!["develop"@]);
        lemma_done_seen_lower(gf, g5.len() as int, k, GitOp::IsPushed, seq!["develop"@], GitOp::Push, seq!["develop"@]);
        assert forall|m: int| 0 <= m < rs.len() implies merge_seen(gf, k, hotfix, #[trigger] rs[m], merge_message_text("hotfix"@, version@, rs[m]))
            && done_seen(gf, k, GitOp::IsPushed, seq![rs[m]], GitOp::Push, seq![rs[m]]) by {
            lemma_merge_seen_extends(ge, gf, k, hotfix, rs[m], merge_message_text("hotfix"@, version@, rs[m]));
            lemma_done_seen_extends(ge, gf, k, GitOp::IsPushed, seq![rs[m]], GitOp::Push, seq![rs[m]]);
        }
        assert forall|m: int| 0 <= m < targets.len() implies merge_seen(
            gf,
            k,
            hotfix,
            #[trigger] targets[m],
            merge_message_text("hotfix"@, version@, targets[m]),
        ) && done_seen(gf, k, GitOp::IsPushed, seq![targets[m]], GitOp::Push, seq![targets[m]]) by {
            if m >= 2 {
                assert(targets[m] == rs[m - 2]);
            }
        }
        assert(hotfix_merged_everywhere(g0, gf, targets, version@));
    }
    cleaned
}

/// `names` are in code-point order.
pub open spec fn names_in_order(names: Seq<String>) -> bool {
    forall|i: int, j: int| 0 <= i < j < names.len() ==> !crate::version::text_lt(names[j]@, names[i]@)
}

/// `names` in code-point order.
pub fn sort_names(names: Vec<String>) -> (r: Vec<String>)
    ensures
        r@.to_multiset() == names@.to_multiset(),
        names_in_order(r@),
{
    broadcast use vstd::seq_lib::group_to_multiset_ensures;

    let mut rest = names;
    let mut r: Vec<String> = Vec::new();
    while rest.len() > 0
        invariant
            r@.to_multiset().add(rest@.to_multiset()) == names@.to_multiset(),
            forall|i: int, j: int| 0 <= i < j < r@.len() ==> !crate::version::text_lt(r@[j]@, r@[i]@),
        decreases rest@.len(),
    {
        let ghost before_rest = rest@;
        let x = rest.pop().unwrap();
        let p = text_sorted_insert_point(&r, &x);
        let ghost old_r = r@;
        r.insert(p, x);
        proof {
            vstd::seq_lib::to_multiset_insert(old_r, p as int, x);
            vstd::seq_lib::to_multiset_build(rest@, x);
            assert(before_rest == rest@.push(x));
            assert(r@.to_multiset().add(rest@.to_multiset()) =~= old_r.to_multiset().add(before_rest.to_multiset()));
            assert forall|i: int, j: int| 0 <= i < j < r@.len() implies !crate::version::text_lt(
                r@[j]@,
                r@[i]@,
            ) by {
                if j == p {
                    assert(r@[i] == old_r[i]);
                } else if i == p {
                    let m = j - 1;
                    assert(r@[j] == old_r[m]);
                    crate::version::lemma_text_lt_order(old_r[m]@, x@, old_r[p as int]@);
                    crate::version::lemma_text_lt_order(x@, old_r[p as int]@, x@);
                } else if i < p && j < p {
                    assert(r@[i] == old_r[i]);
                    assert(r@[j] == old_r[j]);
                } else if i < p {
                    assert(r@[i] == old_r[i]);
                    assert(r@[j] == old_r[j - 1]);
                } else {
                    assert(r@[i] == old_r[i - 1]);
                    assert(r@[j] == old_r[j - 1]);
                }
            }
        }
    }
    r
}

/// Deletion is gated on `tip_landed`: a branch whose tip is in no landed PR
/// is kept, since deleting it could lose commits.
fn finish_hotfix_cleanup<G: Git>(
    git: &mut G,
    cfg: &RepoConfig,
    out: &dyn Output,
    hotfix_branch: &str,
    main_branch: &str,
    version: &SemVer,
    release_branches: &Vec<String>,
    tip_landed: bool,
) -> (r: Result<(), String>)
    ensures
        crate::git::extends(final(git).history(), old(git).history()),
        tip_landed ==> crate::git::no_commits_landed(old(git).history(), final(git).history()),
        !tip_landed ==> final(git).history() == old(git).history(),
{
    out.line("Cleaning up hotfix branch...");
    if !tip_landed {
        out.warning(
            cat(
                &[
                    "⚠ Keeping ",
                    hotfix_branch,
                    ": its tip is not part of any landed pull request, so deleting it could lose commits.",
                ],
            ).as_str(),
        );
        out.warning(
            cat(&["  Review it, then delete it yourself: git push origin --delete ", hotfix_branch]).as_str(),
        );
    } else if cfg.keep_release_branches {
        out.line(cat(&["Keeping ", hotfix_branch, " (keep-release-branches=true)."]).as_str());
    } else {
        delete_source_branch(git, out, hotfix_branch, main_branch)?;
    }
    let v = version.to_string();
    if release_branches.len() == 0 {
        out.line(cat(&["Hotfix ", v.as_str(), " complete."]).as_str());
    } else {
        let mut list = owned(release_branches[0].as_str());
        let mut i: usize = 1;
        while i < release_branches.len()
            decreases release_branches@.len() - i,
        {
            list.append(", ");
            list.append(release_branches[i].as_str());
            i = i + 1;
        }
        out.line(cat(&["Hotfix ", v.as_str(), " propagated to: ", main_branch, ", develop, ", list.as_str()]).as_str());
        out.line("Run 'bflow bump' on each release branch to cut a new RC.");
    }
    Ok(())
}

/// The targets a hotfix lands in, in order: the mainline, develop, then the
/// open release branches (as given, sorted by the caller).
pub open spec fn hotfix_target_list(main: Seq<char>, releases: Seq<Seq<char>>) -> Seq<Seq<char>> {
    seq![main, "develop"@] + releases
}

/// The hotfix's landing targets, in the order they are landed.
pub fn hotfix_targets(main_branch: &str, releases: &Vec<String>) -> (r: Vec<String>)
    ensures
        views(r@) == hotfix_target_list(main_branch@, views(releases@)),
{
    let mut r: Vec<String> = Vec::new();
    r.push(String::from_str(main_branch));
    r.push(String::from_str("develop"));
    let mut i: usize = 0;
    while i < releases.len()
        invariant
            i <= releases@.len(),
            views(r@) == hotfix_target_list(main_branch@, views(releases@).take(i as int)),
        decreases releases@.len() - i,
    {
        let ghost old_r = r@;
        let name = owned(releases[i].as_str());
        r.push(name);
        proof {
            assert(views(r@) =~= views(old_r).push(name@));
            assert(views(releases@).take(i + 1) =~= views(releases@).take(i as int).push(releases@[i as int]@));
            assert(views(r@) =~= hotfix_target_list(main_branch@, views(releases@).take(i + 1)));
        }
        i = i + 1;
    }
    assert(views(releases@).take(releases@.len() as int) =~= views(releases@));
    r
}

/// A leg has landed when its PR merged and the merge commit is on the target;
/// the mainline leg also when the hotfix tag is on the mainline (the branch
/// may have moved on since its PR merged).
pub open spec fn leg_done(is_mainline: bool, tag_on_mainline: bool, merged_on_target: bool) -> bool {
    merged_on_target || (is_mainline && tag_on_mainline)
}

pub fn leg_is_done(is_mainline: bool, tag_on_mainline: bool, merged_on_target: bool) -> (r: bool)
    ensures
        r == leg_done(is_mainline, tag_on_mainline, merged_on_target),
{
    merged_on_target || (is_mainline && tag_on_mainline)
}

/// Where a protected hotfix finish stopped.
pub enum HotfixProgress {
    /// A landing PR into this target is open and waits for a human.
    Pending(String),
    /// Every leg has landed.
    Landed,
}

/// With `done` what was observed of the legs in order (each landed or not):
/// a run stops at the first leg that has not landed, with that leg's PR
/// pending, and finishes only when every leg landed. One PR per run.
pub open spec fn hotfix_progress_ok(targets: Seq<Seq<char>>, done: Seq<bool>, p: HotfixProgress) -> bool {
    &&& done.len() <= targets.len()
    &&& match p {
        HotfixProgress::Pending(t) => done.len() >= 1 && !done.last() && t@ == targets[done.len() - 1]
            && forall|k: int| 0 <= k < done.len() - 1 ==> #[trigger] done[k],
        HotfixProgress::Landed => done.len() == targets.len() && forall|k: int| 0 <= k < done.len() ==> #[trigger] done[k],
    }
}

/// `k` is the first leg that has not landed (the number of legs when all have).
pub open spec fn first_pending(landed: Seq<bool>, k: int) -> bool {
    &&& 0 <= k <= landed.len()
    &&& forall|i: int| 0 <= i < k ==> #[trigger] landed[i]
    &&& k < landed.len() ==> !landed[k]
}

/// A re-run resumes at the first incomplete leg: with `landed` the legs'
/// true state and a run observing them in order (`done`, a prefix of
/// `landed`), a run that stops with a PR pending stops at the first leg not
/// landed, and one that finishes does so only when every leg has landed.
pub proof fn law_hotfix_resumes_at_first_pending(
    targets: Seq<Seq<char>>,
    landed: Seq<bool>,
    done: Seq<bool>,
    p: HotfixProgress,
    k: int,
)
    requires
        landed.len() == targets.len(),
        done.len() <= landed.len(),
        done == landed.take(done.len() as int),
        hotfix_progress_ok(targets, done, p),
        first_pending(landed, k),
    ensures
        p matches HotfixProgress::Pending(t) ==> k < targets.len() && t@ == targets[k],
        p is Landed ==> k == targets.len(),
{
    match p {
        HotfixProgress::Pending(t) => {
            let j = done.len() - 1;
            assert(done[j] == landed[j]);
            if k < j {
                assert(done[k] == landed[k]);
                assert(done[k]);
            }
            if k > j {
                assert(landed[j]);
            }
        },
        HotfixProgress::Landed => {
            if k < targets.len() {
                assert(done[k] == landed[k]);
                assert(done[k]);
            }
        },
    }
}

/// The leg of `hotfix` into `target` was seen to have landed (git history `g`
/// and platform history `h` after `g0`, `h0`): its newest PR into `target`
/// merged and git confirmed the merge commit on `origin/target`; or, for the
/// mainline, git confirmed that `tag` points at a commit on `origin/target`.
pub open spec fn leg_seen_landed(
    g0: Seq<GitEvent>,
    g: Seq<GitEvent>,
    h0: Seq<HostEvent>,
    h: Seq<HostEvent>,
    hotfix: Seq<char>,
    target: Seq<char>,
    is_mainline: bool,
    tag: Seq<char>,
) -> bool {
    ||| exists|j: int, l: int|
        #![trigger h[j], g[l]]
        h0.len() <= j && g0.len() <= l && host_call_at(h, j, HostOp::MergedPrTo, seq![hotfix, target]) && (
        h[j].answer matches HostAnswer::Landed(Some(pr)) && call_at(g, l, GitOp::IsAncestor, seq![pr.2, "origin/"@ + target])
            && g[l].answer == GitAnswer::Flag(true))
    ||| is_mainline && exists|l1: int, l2: int|
        #![trigger g[l1], g[l2]]
        g0.len() <= l1 && g0.len() <= l2 && call_at(g, l1, GitOp::TagCommitSha, seq![tag]) && (
        g[l1].answer matches GitAnswer::Text(sha) && call_at(g, l2, GitOp::IsAncestor, seq![sha, "origin/"@ + target])
            && g[l2].answer == GitAnswer::Flag(true))
}

proof fn lemma_leg_seen_persists(
    g0: Seq<GitEvent>,
    g1: Seq<GitEvent>,
    g2: Seq<GitEvent>,
    h0: Seq<HostEvent>,
    h1: Seq<HostEvent>,
    h2: Seq<HostEvent>,
    hotfix: Seq<char>,
    target: Seq<char>,
    is_mainline: bool,
    tag: Seq<char>,
)
    requires
        leg_seen_landed(g0, g1, h0, h1, hotfix, target, is_mainline, tag),
        crate::git::extends(g2, g1),
        crate::hosting::host_extends(h2, h1),
    ensures
        leg_seen_landed(g0, g2, h0, h2, hotfix, target, is_mainline, tag),
{
    if exists|j: int, l: int|
        #![trigger h1[j], g1[l]]
        h0.len() <= j && g0.len() <= l && host_call_at(h1, j, HostOp::MergedPrTo, seq![hotfix, target]) && (
        h1[j].answer matches HostAnswer::Landed(Some(pr)) && call_at(g1, l, GitOp::IsAncestor, seq![pr.2, "origin/"@ + target])
            && g1[l].answer == GitAnswer::Flag(true)) {
        let (j, l) = choose|j: int, l: int|
            #![trigger h1[j], g1[l]]
            h0.len() <= j && g0.len() <= l && host_call_at(h1, j, HostOp::MergedPrTo, seq![hotfix, target]) && (
            h1[j].answer matches HostAnswer::Landed(Some(pr)) && call_at(g1, l, GitOp::IsAncestor, seq![pr.2, "origin/"@ + target])
                && g1[l].answer == GitAnswer::Flag(true));
        assert(h2[j] == h1[j]);
        assert(g2[l] == g1[l]);
    } else {
        let (l1, l2) = choose|l1: int, l2: int|
            #![trigger g1[l1], g1[l2]]
            g0.len() <= l1 && g0.len() <= l2 && call_at(g1, l1, GitOp::TagCommitSha, seq![tag]) && (
            g1[l1].answer matches GitAnswer::Text(sha) && call_at(g1, l2, GitOp::IsAncestor, seq![sha, "origin/"@ + target])
                && g1[l2].answer == GitAnswer::Flag(true));
        assert(g2[l1] == g1[l1]);
        assert(g2[l2] == g1[l2]);
    }
}

/// The leg of `hotfix` into `target` was seen not to have landed (git
/// history `g` and platform history `h` after `g0`, `h0`): the platform was
/// asked for its newest merged PR and the answer means it has not landed
/// (`unlanded_at`).
pub open spec fn leg_seen_unlanded(
    g0: Seq<GitEvent>,
    g: Seq<GitEvent>,
    h0: Seq<HostEvent>,
    h: Seq<HostEvent>,
    hotfix: Seq<char>,
    target: Seq<char>,
) -> bool {
    exists|j: int, l: int|
        h0.len() <= j && g0.len() <= l && host_call_at(h, j, HostOp::MergedPrTo, seq![hotfix, target])
            && #[trigger] unlanded_at(g, l, h[j].answer, target)
}

/// At operation `l` of `g` git answered that `tag` does not exist, or it gave
/// the tag's commit and then answered that it is not on `origin/main`.
pub open spec fn tag_off_main_at(g: Seq<GitEvent>, l: int, tag: Seq<char>, main: Seq<char>) -> bool {
    ||| call_at(g, l, GitOp::TagExists, seq![tag]) && g[l].answer == GitAnswer::Flag(false)
    ||| call_at(g, l, GitOp::TagCommitSha, seq![tag]) && (g[l].answer matches GitAnswer::Text(sha) && call_at(
        g,
        l + 1,
        GitOp::IsAncestor,
        seq![sha, "origin/"@ + main],
    ) && g[l + 1].answer == GitAnswer::Flag(false))
}

/// What a protected hotfix finish that stopped or finished amounts to, with
/// `targets` its landing targets in order: it stops at a target `targets[k]`
/// only after every earlier leg was seen to have landed, having opened no PR
/// but the one from the hotfix branch into that target (titled
/// `merge_message_text`), after seeing that leg not landed (for the mainline,
/// nor the tag on it), having changed nothing locally and pushed no branch but
/// the hotfix branch; it finishes only after
/// every leg was seen to have landed, having opened no PR and put no commit
/// on any branch.
pub open spec fn hotfix_run_ok(
    g0: Seq<GitEvent>,
    g: Seq<GitEvent>,
    h0: Seq<HostEvent>,
    h: Seq<HostEvent>,
    targets: Seq<Seq<char>>,
    version: VersionView,
    tag: Seq<char>,
    template: Option<&str>,
    p: HotfixProgress,
) -> bool {
    let hotfix = hotfix_branch_text(version.major, version.minor, version.patch);
    match p {
        HotfixProgress::Pending(t) => exists|k: int| {
            &&& 0 <= k < targets.len()
            &&& #[trigger] targets[k] == t@
            &&& leg_seen_unlanded(g0, g, h0, h, hotfix, t@)
            &&& k == 0 ==> exists|l: int| g0.len() <= l && #[trigger] tag_off_main_at(g, l, tag, t@)
            &&& forall|m: int| 0 <= m < k ==> leg_seen_landed(g0, g, h0, h, hotfix, #[trigger] targets[m], m == 0, tag)
            &&& no_local_change(g0, g)
            &&& crate::git::only_own_pushed(g0, g, hotfix)
            &&& prs_opened_with(h0, h, pr_args(hotfix, t@, merge_message_text("hotfix"@, version, t@), template))
            &&& exists|u: Seq<char>| pr_answered(h0, h, pr_args(hotfix, t@, merge_message_text("hotfix"@, version, t@), template), u)
        },
        HotfixProgress::Landed => {
            &&& forall|m: int| 0 <= m < targets.len() ==> leg_seen_landed(g0, g, h0, h, hotfix, #[trigger] targets[m], m == 0, tag)
            &&& no_pr_opened(h0, h)
            &&& crate::git::no_commits_landed(g0, g)
        },
    }
}

/// What a protected hotfix run that ended with `p` amounts to (`hotfix_run_ok`),
/// its release targets being the open release branches that git listed
/// (`open_branches_events`, up to operation `l`), in code-point order.
pub open spec fn protected_hotfix_ran(
    g0: Seq<GitEvent>,
    g: Seq<GitEvent>,
    h0: Seq<HostEvent>,
    h: Seq<HostEvent>,
    main: Seq<char>,
    major: u32,
    minor: u32,
    patch: u32,
    template: Option<&str>,
    p: HotfixProgress,
) -> bool {
    exists|l: int, listed: Result<Vec<String>, String>, releases: Seq<String>|
        #![trigger open_branches_events(g0, g.take(l), "release"@, listed), names_in_order(releases)]
    {
        &&& g0.len() < l <= g.len()
        &&& open_branches_events(g0, g.take(l), "release"@, listed)
        &&& listed matches Ok(open) && releases.to_multiset() == open@.to_multiset()
        &&& names_in_order(releases)
        &&& hotfix_run_ok(
            g0,
            g,
            h0,
            h,
            hotfix_target_list(main, views(releases)),
            release_view(major, minor, patch),
            tag_text(release_view(major, minor, patch)),
            template,
            p,
        )
    }
}

/// Protected mode: main, then develop, then each open release branch in sorted
/// order, one PR per run, stopping at the first still-pending target. A leg
/// has landed by `leg_done`; nothing is merged locally.
fn finish_hotfix_protected<G: Git, H: HostingPlatform>(
    git: &mut G,
    hosting: &mut H,
    cfg: &RepoConfig,
    out: &dyn Output,
    major: u32,
    minor: u32,
    patch: u32,
    main_branch: &str,
    template: Option<&str>,
) -> (r: Result<HotfixProgress, String>)
    ensures
        crate::hosting::host_extends(final(hosting).history(), old(hosting).history()),
        crate::git::extends(final(git).history(), old(git).history()),
        r matches Ok(p) ==> exists|releases: Seq<Seq<char>>, done: Seq<bool>|
            #[trigger] hotfix_progress_ok(hotfix_target_list(main_branch@, releases), done, p),
        r matches Ok(p) ==> protected_hotfix_ran(
            old(git).history(),
            final(git).history(),
            old(hosting).history(),
            final(hosting).history(),
            main_branch@,
            major,
            minor,
            patch,
            template,
            p,
        ),
{
    let ghost g0 = git.history();
    let ghost h0 = hosting.history();
    let version = SemVer::new(major, minor, patch);
    let hotfix_branch = version.hotfix_branch();
    let tag = version.tag_name();
    let listed = open_versioned_branches(git, "release");
    let ghost l: int = git.history().len() as int;
    let ghost listed_view = listed;
    let ghost mid = git.history();
    proof {
        assert(mid.take(l) =~= mid);
    }
    let release_branches = match listed {
        Ok(v) => sort_names(v),
        Err(e) => {
            return Err(e);
        },
    };
    let targets = hotfix_targets(main_branch, &release_branches);
    let ghost all = views(targets@);
    let ghost mut done: Seq<bool> = Seq::empty();
    let mut landed: Vec<LandedPr> = Vec::new();
    let mut i: usize = 0;
    while i < targets.len()
        invariant
            crate::git::extends(git.history(), old(git).history()),
            crate::hosting::host_extends(hosting.history(), old(hosting).history()),
            crate::git::extends(git.history(), mid),
            l == mid.len(),
            open_branches_events(g0, mid, "release"@, listed_view),
            listed_view matches Ok(open) && release_branches@.to_multiset() == open@.to_multiset(),
            names_in_order(release_branches@),
            i <= targets@.len(),
            all == views(targets@),
            all == hotfix_target_list(main_branch@, views(release_branches@)),
            done.len() == i,
            forall|k: int| 0 <= k < i ==> #[trigger] done[k],
            g0 == old(git).history(),
            h0 == old(hosting).history(),
            hotfix_branch@ == hotfix_branch_text(major, minor, patch),
            tag@ == tag_text(release_view(major, minor, patch)),
            version@ == release_view(major, minor, patch),
            no_local_change(g0, git.history()),
            crate::git::no_commits_landed(g0, git.history()),
            no_pr_opened(h0, hosting.history()),
            forall|m: int| 0 <= m < i ==> leg_seen_landed(
                g0,
                git.history(),
                h0,
                hosting.history(),
                hotfix_branch@,
                #[trigger] all[m],
                m == 0,
                tag@,
            ),
        decreases targets@.len() - i,
    {
        let target = targets[i].as_str();
        let ghost gi = git.history();
        let ghost hi = hosting.history();
        let pr = leg_landed(git, hosting, hotfix_branch.as_str(), target)?;
        let ghost gl = git.history();
        let ghost hl = hosting.history();
        let ghost lt: int = git.history().len() as int;
        let ghost mut off_at: int = lt;
        let tag_on_mainline = if i == 0 {
            if git.tag_exists(tag.as_str())? {
                proof {
                    off_at = lt + 1;
                }
                let sha = git.tag_commit_sha(tag.as_str())?;
                let mut remote = String::from_str("origin/");
                remote.append(main_branch);
                let ghost before = git.history();
                let on = git.is_ancestor(sha.as_str(), remote.as_str())?;
                proof {
                    if on {
                        let l1 = (before.len() - 1) as int;
                        let l2 = before.len() as int;
                        assert(git.history()[l1] == before[l1]);
                        assert(call_at(git.history(), l1, GitOp::TagCommitSha, seq![tag@]));
                        assert(call_at(git.history(), l2, GitOp::IsAncestor, seq![sha@, "origin/"@ + all[0]]));
                        assert(leg_seen_landed(g0, git.history(), h0, hosting.history(), hotfix_branch@, all[0], true, tag@));
                    } else {
                        assert(git.history()[off_at] == before[off_at]);
                        assert(tag_off_main_at(git.history(), off_at, tag@, main_branch@));
                    }
                }
                on
            } else {
                assert(tag_off_main_at(git.history(), off_at, tag@, main_branch@));
                false
            }
        } else {
            false
        };
        proof {
            assert(all[i as int] == target@);
            if pr is Some {
                let p = pr->0;
                let j = hi.len() as int;
                let l = gi.len() as int;
                assert(git.history()[l] == gl[l]);
                assert(host_call_at(hosting.history(), j, HostOp::MergedPrTo, seq![hotfix_branch@, all[i as int]]));
                assert(call_at(git.history(), l, GitOp::IsAncestor, seq![p.merge_commit_sha@, "origin/"@ + all[i as int]]));
                assert(leg_seen_landed(g0, git.history(), h0, hosting.history(), hotfix_branch@, all[i as int], i == 0, tag@));
            }
        }
        let ghost ga = git.history();
        let ghost ha = hosting.history();
        if !leg_is_done(i == 0, tag_on_mainline, pr.is_some()) {
            let title = merge_message("hotfix", &version, target);
            let ghost hb = hosting.history();
            let url = open_landing_pr(git, hosting, hotfix_branch.as_str(), target, title.as_str(), template)?;
            announce_pending_landing(out, url.as_str());
            let progress = HotfixProgress::Pending(owned(target));
            proof {
                let j = hi.len() as int;
                let lg = gi.len() as int;
                assert(hosting.history()[j] == hl[j]);
                if lg < gl.len() {
                    assert(git.history()[lg] == gl[lg]);
                }
                assert(unlanded_at(git.history(), lg, hosting.history()[j].answer, target@));
                assert(leg_seen_unlanded(g0, git.history(), h0, hosting.history(), hotfix_branch@, target@));
                if i == 0 {
                    assert(git.history()[off_at] == ga[off_at]);
                    if off_at + 1 < ga.len() {
                        assert(git.history()[off_at + 1] == ga[off_at + 1]);
                    }
                    assert(tag_off_main_at(git.history(), off_at, tag@, target@));
                }
                let d = done.push(false);
                assert(all[i as int] == targets@[i as int]@);
                assert(hotfix_progress_ok(all, d, progress));
                let args = pr_args(hotfix_branch@, target@, title@, template);
                assert forall|j: int| h0.len() <= j < hosting.history().len() && #[trigger] hosting.history()[j].op
                    == HostOp::CreateOrGetPr implies hosting.history()[j].args == args by {
                    if j < hb.len() {
                        assert(hosting.history()[j] == hb[j]);
                    }
                }
                let w = choose|w: int| hb.len() <= w < hosting.history().len() && #[trigger] hosting.history()[w].op
                    == HostOp::CreateOrGetPr && hosting.history()[w].args == args && hosting.history()[w].answer
                    == crate::hosting::HostAnswer::Url(url@);
                assert(pr_answered(h0, hosting.history(), args, url@));
                assert forall|m: int| 0 <= m < i implies leg_seen_landed(
                    g0,
                    git.history(),
                    h0,
                    hosting.history(),
                    hotfix_branch@,
                    #[trigger] all[m],
                    m == 0,
                    tag@,
                ) by {
                    lemma_leg_seen_persists(g0, gi, git.history(), h0, hi, hosting.history(), hotfix_branch@, all[m], m == 0, tag@);
                }
                assert(hotfix_branch_text(version@.major, version@.minor, version@.patch) == hotfix_branch@);
                assert(title@ == merge_message_text("hotfix"@, version@, target@));
                assert(all[i as int] == target@);
                assert(no_local_change(g0, git.history()));
                assert(prs_opened_with(h0, hosting.history(), args));
                assert(pr_answered(h0, hosting.history(), args, url@));
                assert(hotfix_run_ok(g0, git.history(), h0, hosting.history(), all, version@, tag@, template, progress));
                assert(git.history().take(l) =~= mid);
                assert(open_branches_events(g0, git.history().take(l), "release"@, listed_view));
            }
            return Ok(progress);
        }
        if i == 0 {
            if !tag_on_mainline {
                match &pr {
                    Some(p) => tag_at_if_missing(
                        git,
                        out,
                        tag.as_str(),
                        version_message("chore: hotfix ", &version).as_str(),
                        p.merge_commit_sha.as_str(),
                    )?,
                    None => {},
                }
            }
            push_tag_if_missing(git, out, tag.as_str())?;
        }
        match pr {
            Some(p) => {
                if i == 0 {
                    report_commits_past_landing(git, out, hotfix_branch.as_str(), &p, main_branch, tag.as_str())?;
                }
                landed.push(p);
            },
            None => {},
        }
        proof {
            done = done.push(true);
            assert forall|m: int| 0 <= m <= i implies leg_seen_landed(
                g0,
                git.history(),
                h0,
                hosting.history(),
                hotfix_branch@,
                #[trigger] all[m],
                m == 0,
                tag@,
            ) by {
                if m < i {
                    lemma_leg_seen_persists(g0, gi, git.history(), h0, hi, hosting.history(), hotfix_branch@, all[m], m == 0, tag@);
                } else {
                    lemma_leg_seen_persists(g0, ga, git.history(), h0, ha, hosting.history(), hotfix_branch@, all[m], m == 0, tag@);
                }
            }
        }
        i = i + 1;
    }
    let ghost ge = git.history();
    let tip_landed = tip_landed_somewhere(git, hotfix_branch.as_str(), &landed)?;
    finish_hotfix_cleanup(git, cfg, out, hotfix_branch.as_str(), main_branch, &version, &release_branches, tip_landed)?;
    proof {
        assert(hotfix_progress_ok(all, done, HotfixProgress::Landed));
        assert forall|m: int| 0 <= m < all.len() implies leg_seen_landed(
            g0,
            git.history(),
            h0,
            hosting.history(),
            hotfix_branch@,
            #[trigger] all[m],
            m == 0,
            tag@,
        ) by {
            lemma_leg_seen_persists(g0, ge, git.history(), h0, hosting.history(), hosting.history(), hotfix_branch@, all[m], m == 0, tag@);
        }
        assert(hotfix_run_ok(g0, git.history(), h0, hosting.history(), all, version@, tag@, template, HotfixProgress::Landed));
        assert(git.history().take(l) =~= mid);
        assert(open_branches_events(g0, git.history().take(l), "release"@, listed_view));
    }
    Ok(HotfixProgress::Landed)
}

} // verus!
