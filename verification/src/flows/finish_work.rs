//! Finishing a work branch, release fix or hotfix fix: push it and open its
//! pull request.
use vstd::prelude::*;
use vstd::multiset::Multiset;

use super::{string_eq, Output};
use crate::git::branch::{BranchType, BranchView};
use crate::git::{call_at, Git, GitAnswer, GitEvent, GitOp};
use crate::hosting::{no_pr_opened, pr_answered, pr_args, prs_opened_with, HostAnswer, HostEvent, HostOp, HostingPlatform, MergedPr};
use crate::prompt::Prompter;
use crate::text::{views, cat, chars_of, has_prefix, owned, starts_with_at, substring};
use crate::version::{text_less, text_lt, lemma_text_lt_order, triple_text};

verus! {

pub open spec fn is_develop(n: Seq<char>) -> bool {
    n == "develop"@
}

/// The order PR-target candidates are offered in: fewer commits since
/// divergence first; on ties develop first, then by name.
pub open spec fn cand_before(a: (Seq<char>, u32), b: (Seq<char>, u32)) -> bool {
    ||| a.1 < b.1
    ||| (a.1 == b.1 && is_develop(a.0) && !is_develop(b.0))
    ||| (a.1 == b.1 && is_develop(a.0) == is_develop(b.0) && text_lt(a.0, b.0))
}

pub open spec fn cand_view(c: (String, u32)) -> (Seq<char>, u32) {
    (c.0@, c.1)
}

pub open spec fn sorted_candidates(s: Seq<(String, u32)>) -> bool {
    forall|i: int, j: int| 0 <= i < j < s.len() ==> !cand_before(cand_view(s[j]), cand_view(s[i]))
}

/// The candidate order is a strict order: irreflexive, asymmetric, transitive.
pub proof fn lemma_cand_order(a: (Seq<char>, u32), b: (Seq<char>, u32), c: (Seq<char>, u32))
    ensures
        !cand_before(a, a),
        cand_before(a, b) ==> !cand_before(b, a),
        cand_before(a, b) && cand_before(b, c) ==> cand_before(a, c),
{
    lemma_text_lt_order(a.0, b.0, c.0);
    lemma_text_lt_order(b.0, a.0, c.0);
}

fn cand_before_exec(a: &(String, u32), b: &(String, u32)) -> (r: bool)
    ensures
        r == cand_before(cand_view(*a), cand_view(*b)),
{
    if a.1 != b.1 {
        return a.1 < b.1;
    }
    let a_dev = string_eq(a.0.as_str(), "develop");
    let b_dev = string_eq(b.0.as_str(), "develop");
    if a_dev != b_dev {
        return a_dev;
    }
    text_less(a.0.as_str(), b.0.as_str())
}

/// The candidates in offering order: a permutation of `c`, sorted.
pub fn sort_candidates(c: Vec<(String, u32)>) -> (r: Vec<(String, u32)>)
    ensures
        r@.to_multiset() == c@.to_multiset(),
        sorted_candidates(r@),
{
    broadcast use vstd::seq_lib::group_to_multiset_ensures;

    let mut rest = c;
    let mut r: Vec<(String, u32)> = Vec::new();
    while rest.len() > 0
        invariant
            r@.to_multiset().add(rest@.to_multiset()) == c@.to_multiset(),
            sorted_candidates(r@),
        decreases rest@.len(),
    {
        let ghost before_rest = rest@;
        let x = rest.pop().unwrap();
        assert(before_rest =~= rest@.push(x));
        let mut p: usize = 0;
        while p < r.len() && !cand_before_exec(&x, &r[p])
            invariant
                p <= r@.len(),
                forall|k: int| 0 <= k < p ==> !cand_before(cand_view(x), cand_view(#[trigger] r@[k])),
            decreases r@.len() - p,
        {
            p = p + 1;
        }
        let ghost old_r = r@;
        r.insert(p, x);
        proof {
            vstd::seq_lib::to_multiset_insert(old_r, p as int, x);
            assert(r@ == old_r.insert(p as int, x));
            vstd::seq_lib::to_multiset_build(rest@, x);
            assert(before_rest == rest@.push(x));
            assert(before_rest.to_multiset() =~= rest@.to_multiset().insert(x));
            assert(r@.to_multiset().add(rest@.to_multiset()) =~= old_r.to_multiset().add(before_rest.to_multiset()));
            assert forall|i: int, j: int| 0 <= i < j < r@.len() implies !cand_before(
                cand_view(r@[j]),
                cand_view(r@[i]),
            ) by {
                if j == p {
                    assert(r@[i] == old_r[i]);
                } else if i == p {
                    let m = j - 1;
                    assert(r@[j] == old_r[m]);
                    lemma_cand_order(cand_view(old_r[m]), cand_view(x), cand_view(old_r[p as int]));
                    lemma_cand_order(cand_view(x), cand_view(old_r[p as int]), cand_view(x));
                } else if i < p && j < p {
                    assert(r@[i] == old_r[i]);
                    assert(r@[j] == old_r[j]);
                } else if i < p {
                    assert(r@[i] == old_r[i]);
                    assert(r@[j] == old_r[j - 1]);
                } else {
                    assert(r@[i] == old_r[i - 1]);
                    assert(r@[j] == old_r[j - 1]);
                }
            }
        }
    }
    assert(rest@ =~= Seq::<(String, u32)>::empty());
    r
}

/// Whether `branch` can be the PR target of the work branch `current`: a
/// work branch or develop, other than `current` itself.
pub open spec fn parent_candidate(branch: Seq<char>, current: Seq<char>) -> bool {
    &&& branch != current
    &&& {
        ||| has_prefix(branch, "feature/"@)
        ||| has_prefix(branch, "fix/"@)
        ||| has_prefix(branch, "chore/"@)
        ||| has_prefix(branch, "docs/"@)
        ||| has_prefix(branch, "refactor/"@)
        ||| is_develop(branch)
    }
}

pub fn is_parent_candidate(branch: &str, current: &str) -> (r: bool)
    ensures
        r == parent_candidate(branch@, current@),
{
    if string_eq(branch, current) {
        return false;
    }
    let v = chars_of(branch);
    assert(v@.skip(0) =~= v@);
    starts_with_at(&v, 0, "feature/") || starts_with_at(&v, 0, "fix/") || starts_with_at(&v, 0, "chore/")
        || starts_with_at(&v, 0, "docs/") || starts_with_at(&v, 0, "refactor/") || string_eq(branch, "develop")
}

/// What the parent search learned of one remote branch: its name, the
/// commits on `current` since the two diverged, and the commits on the branch
/// since then.
pub type ParentObservation = (String, u32, u32);

/// A branch the work was likely cut from: a parent candidate (a work branch
/// or develop, not `current`) with no more commits since the divergence than
/// `current` has (one with more likely branched from `current`).
pub open spec fn keeps_parent(current: Seq<char>, o: ParentObservation) -> bool {
    parent_candidate(o.0@, current) && o.1 >= o.2
}

/// The candidates among the observations, with `current`'s commit count.
pub open spec fn kept_parents(current: Seq<char>, obs: Seq<ParentObservation>) -> Multiset<(String, u32)>
    decreases obs.len(),
{
    if obs.len() == 0 {
        Multiset::empty()
    } else {
        let rest = kept_parents(current, obs.drop_last());
        let o = obs.last();
        if keeps_parent(current, o) {
            rest.insert((o.0, o.1))
        } else {
            rest
        }
    }
}

/// How the PR target is settled from the candidates.
pub enum ParentChoice {
    /// No candidate: develop.
    Develop,
    /// One candidate: taken without a question.
    Only(String),
    /// Several: offered in this order for the user to pick.
    Menu(Vec<(String, u32)>),
}

/// No candidate gives develop, one gives that candidate, several give all of
/// them in offering order.
pub open spec fn parent_choice_ok(current: Seq<char>, obs: Seq<ParentObservation>, r: ParentChoice) -> bool {
    let k = kept_parents(current, obs);
    if k.len() == 0 {
        r is Develop
    } else if k.len() == 1 {
        r matches ParentChoice::Only(b) && exists|c: u32| k == Multiset::singleton((b, c))
    } else {
        r matches ParentChoice::Menu(s) && sorted_candidates(s@) && s@.to_multiset() == k
    }
}

proof fn lemma_kept_are_candidates(current: Seq<char>, obs: Seq<ParentObservation>, x: (String, u32))
    requires
        kept_parents(current, obs).count(x) > 0,
    ensures
        parent_candidate(x.0@, current),
    decreases obs.len(),
{
    if obs.len() > 0 {
        let o = obs.last();
        if keeps_parent(current, o) && x == (o.0, o.1) {
        } else {
            lemma_kept_are_candidates(current, obs.drop_last(), x);
        }
    }
}

/// Settle the PR target from the observations of the remote branches.
pub fn parent_choice(current: &str, obs: Vec<ParentObservation>) -> (r: ParentChoice)
    ensures
        parent_choice_ok(current@, obs@, r),
{
    broadcast use {vstd::seq_lib::group_to_multiset_ensures, vstd::multiset::group_multiset_axioms};

    let ghost all = obs@;
    let mut obs = obs;
    let mut cands: Vec<(String, u32)> = Vec::new();
    while obs.len() > 0
        invariant
            cands@.to_multiset().add(kept_parents(current@, obs@)) == kept_parents(current@, all),
        decreases obs@.len(),
    {
        let ghost before = obs@;
        let ghost cands_before = cands@;
        let o = obs.pop().unwrap();
        assert(before.drop_last() =~= obs@);
        assert(before.last() == o);
        let ghost go = o;
        let (b, mine, theirs) = o;
        if is_parent_candidate(b.as_str(), current) && mine >= theirs {
            cands.push((b, mine));
            proof {
                assert(cands@ == cands_before.push((go.0, go.1)));
                vstd::seq_lib::to_multiset_build(cands_before, (go.0, go.1));
                assert(kept_parents(current@, before) == kept_parents(current@, obs@).insert((go.0, go.1)));
                assert(cands@.to_multiset().add(kept_parents(current@, obs@)) =~= cands_before.to_multiset().add(
                    kept_parents(current@, before),
                ));
            }
        } else {
            assert(kept_parents(current@, before) == kept_parents(current@, obs@));
        }
    }
    assert(kept_parents(current@, obs@) =~= Multiset::empty());
    assert(cands@.to_multiset() =~= kept_parents(current@, all));
    proof {
        vstd::seq_lib::to_multiset_len(cands@);
    }
    assert(kept_parents(current@, all).len() == cands@.len());
    if cands.len() == 0 {
        assert(parent_choice_ok(current@, all, ParentChoice::Develop));
        ParentChoice::Develop
    } else if cands.len() == 1 {
        let ghost only = cands@;
        let (b, c) = cands.pop().unwrap();
        proof {
            assert(only =~= Seq::<(String, u32)>::empty().push((b, c)));
            vstd::seq_lib::to_multiset_build(Seq::<(String, u32)>::empty(), (b, c));
            assert(Seq::<(String, u32)>::empty().to_multiset() =~= Multiset::empty());
            assert(only.to_multiset() =~= Multiset::singleton((b, c)));
            assert(kept_parents(current@, all) == Multiset::singleton((b, c)));
            assert(exists|c2: u32| kept_parents(current@, all) == Multiset::singleton((b, c2)));
        }
        let ghost bb = b;
        let r = ParentChoice::Only(b);
        assert(kept_parents(current@, all).len() == 1);
        assert(r matches ParentChoice::Only(x) && x == bb);
        assert(parent_choice_ok(current@, all, r));
        r
    } else {
        let ghost before_sort = cands@;
        let sorted = sort_candidates(cands);
        assert(sorted@.to_multiset() == before_sort.to_multiset());
        assert(kept_parents(current@, all).len() != 1 && kept_parents(current@, all).len() != 0);
        let r = ParentChoice::Menu(sorted);
        assert(parent_choice_ok(current@, all, r));
        r
    }
}

/// At operation `l` of `h` git gave the merge base of `current` and the
/// branch of `o`, then the commits since it on `current` and on the branch:
/// the counts that `o` holds.
pub open spec fn observed_at(h: Seq<GitEvent>, l: int, current: Seq<char>, o: ParentObservation) -> bool {
    &&& call_at(h, l, GitOp::MergeBase, seq![current, o.0@])
    &&& h[l].answer matches GitAnswer::Text(base) && {
        &&& call_at(h, l + 1, GitOp::RevListCount, seq![base, current]) && h[l + 1].answer == GitAnswer::Count(o.1)
        &&& call_at(h, l + 2, GitOp::RevListCount, seq![base, o.0@]) && h[l + 2].answer == GitAnswer::Count(o.2)
    }
}

/// At operation `l` of `h` git was asked for the merge base of `current` and
/// `branch`, and it or one of the two counts after it failed.
pub open spec fn failed_at(h: Seq<GitEvent>, l: int, current: Seq<char>, branch: Seq<char>) -> bool {
    &&& call_at(h, l, GitOp::MergeBase, seq![current, branch])
    &&& match h[l].answer {
        GitAnswer::Failed(_) => true,
        GitAnswer::Text(base) => {
            &&& call_at(h, l + 1, GitOp::RevListCount, seq![base, current])
            &&& call_at(h, l + 2, GitOp::RevListCount, seq![base, branch])
            &&& (h[l + 1].answer is Failed || h[l + 2].answer is Failed)
        },
        _ => false,
    }
}

/// What the parent search observed (history `h` from operation `k` on, the
/// remote branches `names` listed there): each observation was made of a
/// listed branch (`observed_at`), and every listed candidate was observed
/// unless git failed on it (`failed_at`).
pub open spec fn observations_of(h: Seq<GitEvent>, k: int, current: Seq<char>, names: Seq<Seq<char>>, obs: Seq<ParentObservation>) -> bool {
    &&& forall|j: int| 0 <= j < obs.len() ==> names.contains((#[trigger] obs[j]).0@)
    &&& forall|j: int| 0 <= j < obs.len() ==> #[trigger] observed_in(h, k, current, obs[j])
    &&& forall|i: int| 0 <= i < names.len() && parent_candidate(#[trigger] names[i], current) ==> {
        ||| exists|j: int| 0 <= j < obs.len() && (#[trigger] obs[j]).0@ == names[i]
        ||| failed_in(h, k, current, names[i])
    }
}

/// `o` was observed after operation `k` of `h` (`observed_at`).
pub open spec fn observed_in(h: Seq<GitEvent>, k: int, current: Seq<char>, o: ParentObservation) -> bool {
    exists|l: int| k < l && #[trigger] observed_at(h, l, current, o)
}

/// Git failed on `branch` after operation `k` of `h` (`failed_at`).
pub open spec fn failed_in(h: Seq<GitEvent>, k: int, current: Seq<char>, branch: Seq<char>) -> bool {
    exists|l: int| k < l && #[trigger] failed_at(h, l, current, branch)
}

proof fn lemma_observed_persists(h1: Seq<GitEvent>, h2: Seq<GitEvent>, l: int, current: Seq<char>, o: ParentObservation)
    requires
        observed_at(h1, l, current, o),
        crate::git::extends(h2, h1),
    ensures
        observed_at(h2, l, current, o),
{
    assert(h2[l] == h1[l]);
    assert(h2[l + 1] == h1[l + 1]);
    assert(h2[l + 2] == h1[l + 2]);
}

proof fn lemma_failed_persists(h1: Seq<GitEvent>, h2: Seq<GitEvent>, l: int, current: Seq<char>, branch: Seq<char>)
    requires
        failed_at(h1, l, current, branch),
        crate::git::extends(h2, h1),
    ensures
        failed_at(h2, l, current, branch),
{
    assert(h2[l] == h1[l]);
    if !(h1[l].answer is Failed) {
        assert(h2[l + 1] == h1[l + 1]);
        assert(h2[l + 2] == h1[l + 2]);
    }
}

/// Ask which branch the PR of `current` targets, among the remote work
/// branches and develop that `current` branched from (a candidate with more
/// commits since the divergence than `current` likely branched from it, and
/// is skipped). Develop when there is no candidate; the only candidate, with
/// no question, when there is one; else the user's pick among them, offered
/// in `sort_candidates` order. A branch whose merge base or counts git cannot
/// give is left out.
pub fn detect_parent_branch<G: Git>(git: &mut G, prompter: &dyn Prompter, current: &str) -> (r: Result<String, String>)
    ensures
        crate::git::extends(final(git).history(), old(git).history()),
        r matches Ok(b) ==> b@ == "develop"@ || parent_candidate(b@, current@),
        call_at(final(git).history(), old(git).history().len() as int, GitOp::ListRemoteBranches, Seq::empty()),
        r matches Ok(b) ==> exists|obs: Seq<ParentObservation>, choice: ParentChoice|
            #[trigger] parent_choice_ok(current@, obs, choice) && (final(git).history()[old(git).history().len() as int].answer matches GitAnswer::Texts(
                names,
            ) && observations_of(final(git).history(), old(git).history().len() as int, current@, names, obs)) && match choice {
                ParentChoice::Develop => b@ == "develop"@,
                ParentChoice::Only(o) => b@ == o@,
                ParentChoice::Menu(s) => exists|i: int| 0 <= i < s@.len() && b@ == (#[trigger] s@[i]).0@,
            },
{
    let ghost k: int = old(git).history().len() as int;
    let remote_branches = git.list_remote_branches()?;
    let ghost names = views(remote_branches@);
    let mut obs: Vec<ParentObservation> = Vec::new();
    let mut i: usize = 0;
    while i < remote_branches.len()
        invariant
            crate::git::extends(git.history(), old(git).history()),
            k == old(git).history().len(),
            call_at(git.history(), k, GitOp::ListRemoteBranches, Seq::empty()),
            git.history()[k].answer == GitAnswer::Texts(names),
            names == views(remote_branches@),
            i <= remote_branches@.len(),
            observations_of(git.history(), k, current@, names.take(i as int), obs@),
        decreases remote_branches@.len() - i,
    {
        let branch = remote_branches[i].as_str();
        let ghost before = git.history();
        let ghost obs_before = obs@;
        if is_parent_candidate(branch, current) {
            match git.merge_base(current, branch) {
                Ok(base) => {
                    match (git.rev_list_count(base.as_str(), current), git.rev_list_count(base.as_str(), branch)) {
                        (Ok(current_count), Ok(candidate_count)) => {
                            obs.push((owned(branch), current_count, candidate_count));
                            proof {
                                assert(observed_at(git.history(), before.len() as int, current@, obs@.last()));
                            }
                        },
                        _ => {
                            assert(failed_at(git.history(), before.len() as int, current@, branch@));
                        },
                    }
                },
                Err(_) => {
                    assert(failed_at(git.history(), before.len() as int, current@, branch@));
                },
            }
        }
        proof {
            let nt = names.take(i + 1);
            assert(nt =~= names.take(i as int).push(branch@));
            assert forall|j: int| 0 <= j < obs@.len() implies #[trigger] observed_in(git.history(), k, current@, obs@[j]) by {
                if j < obs_before.len() {
                    assert(obs@[j] == obs_before[j]);
                    assert(observed_in(before, k, current@, obs_before[j]));
                    let l = choose|l: int| k < l && #[trigger] observed_at(before, l, current@, obs_before[j]);
                    lemma_observed_persists(before, git.history(), l, current@, obs_before[j]);
                } else {
                    assert(observed_at(git.history(), before.len() as int, current@, obs@[j]));
                }
            }
            assert forall|j: int| 0 <= j < obs@.len() implies nt.contains((#[trigger] obs@[j]).0@) by {
                if j < obs_before.len() {
                    assert(obs@[j] == obs_before[j]);
                    let m = choose|m: int| 0 <= m < names.take(i as int).len() && names.take(i as int)[m] == obs_before[j].0@;
                    assert(nt[m] == obs_before[j].0@);
                } else {
                    assert(nt[i as int] == obs@[j].0@);
                }
            }
            assert forall|m: int| 0 <= m < nt.len() && parent_candidate(#[trigger] nt[m], current@) implies {
                ||| exists|j: int| 0 <= j < obs@.len() && (#[trigger] obs@[j]).0@ == nt[m]
                ||| failed_in(git.history(), k, current@, nt[m])
            } by {
                if m < i {
                    assert(nt[m] == names.take(i as int)[m]);
                    if exists|j: int| 0 <= j < obs_before.len() && (#[trigger] obs_before[j]).0@ == nt[m] {
                        let j = choose|j: int| 0 <= j < obs_before.len() && (#[trigger] obs_before[j]).0@ == nt[m];
                        assert(obs@[j] == obs_before[j]);
                    } else {
                        assert(failed_in(before, k, current@, nt[m]));
                        let l = choose|l: int| k < l && #[trigger] failed_at(before, l, current@, nt[m]);
                        lemma_failed_persists(before, git.history(), l, current@, nt[m]);
                    }
                } else {
                    if obs@.len() > obs_before.len() {
                        assert(obs@[obs_before.len() as int].0@ == nt[m]);
                    } else {
                        assert(failed_at(git.history(), before.len() as int, current@, nt[m]));
                    }
                }
            }
            assert(observations_of(git.history(), k, current@, nt, obs@));
        }
        i = i + 1;
    }
    proof {
        assert(names.take(i as int) =~= names);
    }
    let ghost seen = obs@;
    let choice = parent_choice(current, obs);
    match choice {
        ParentChoice::Develop => Ok(String::from_str("develop")),
        ParentChoice::Only(b) => {
            proof {
                let c = choose|c: u32| kept_parents(current@, seen) == Multiset::singleton((b, c));
                lemma_kept_are_candidates(current@, seen, (b, c));
            }
            Ok(b)
        },
        ParentChoice::Menu(sorted) => {
            let mut labels: Vec<&str> = Vec::new();
            let mut j: usize = 0;
            while j < sorted.len()
                invariant
                    j <= sorted@.len(),
                    labels@.len() == j,
                    forall|k: int| 0 <= k < j ==> labels@[k]@ == (#[trigger] sorted@[k]).0@,
                decreases sorted@.len() - j,
            {
                labels.push(sorted[j].0.as_str());
                j = j + 1;
            }
            let idx = prompter.select("PR target branch", labels.as_slice())?;
            proof {
                broadcast use vstd::seq_lib::group_to_multiset_ensures;
                assert(sorted@.to_multiset().count(sorted@[idx as int]) > 0);
                lemma_kept_are_candidates(current@, seen, sorted@[idx as int]);
            }
            Ok(owned(sorted[idx].0.as_str()))
        },
    }
}

/// The commit types that are commonly breaking, for which the breaking-change
/// question is asked.
pub open spec fn commonly_breaking_type(t: Seq<char>) -> bool {
    t == "feat"@ || t == "fix"@ || t == "refactor"@
}

pub fn commonly_breaking(commit_type: &str) -> (r: bool)
    ensures
        r == commonly_breaking_type(commit_type@),
{
    string_eq(commit_type, "feat") || string_eq(commit_type, "fix") || string_eq(commit_type, "refactor")
}

pub open spec fn pr_title_text(commit_type: Seq<char>, name: Seq<char>, bang: bool) -> Seq<char> {
    if bang {
        commit_type + "!: "@ + name
    } else {
        commit_type + ": "@ + name
    }
}

/// The conventional-commit PR title: `type: name`, `type!: name` when breaking.
pub fn pr_title(commit_type: &str, name: &str, bang: bool) -> (r: String)
    ensures
        r@ == pr_title_text(commit_type@, name@, bang),
{
    let mut s = String::from_str(commit_type);
    if bang {
        s.append("!: ");
    } else {
        s.append(": ");
    }
    s.append(name);
    s
}

fn prompt_breaking_change(prompter: &dyn Prompter) -> Result<bool, String> {
    let items: Vec<&str> = vec!["no", "yes"];
    let idx = prompter.select("Contains breaking changes?", items.as_slice())?;
    Ok(idx == 1)
}

/// Why an explicit `--base` cannot be a PR target, or `None` when it can: the
/// branch being finished itself, a branch only on this machine, or no branch
/// at all. `on_remote` and `on_local` say where `base` exists.
pub open spec fn base_refusal_text(base: Seq<char>, current: Seq<char>, on_remote: bool, on_local: bool) -> Option<
    Seq<char>,
> {
    if base == current {
        Some("Cannot open a pull request from "@ + base + " into itself. Pick a different --base."@)
    } else if on_remote {
        None
    } else if on_local {
        Some(
            "Base branch '"@ + base + "' exists only locally, not on origin. Push it first (git push -u origin "@ + base
                + "), then re-run."@,
        )
    } else {
        Some("Base branch '"@ + base + "' does not exist locally or on origin."@)
    }
}

pub fn base_refusal(base: &str, current: &str, on_remote: bool, on_local: bool) -> (r: Option<String>)
    ensures
        match base_refusal_text(base@, current@, on_remote, on_local) {
            Some(t) => r matches Some(e) && e@ == t,
            None => r is None,
        },
        // A PR target must be on origin and not the branch being finished.
        r is None <==> (base@ != current@ && on_remote),
{
    if string_eq(base, current) {
        let mut e = String::from_str("Cannot open a pull request from ");
        e.append(base);
        e.append(" into itself. Pick a different --base.");
        Some(e)
    } else if on_remote {
        None
    } else if on_local {
        let mut e = String::from_str("Base branch '");
        e.append(base);
        e.append("' exists only locally, not on origin. Push it first (git push -u origin ");
        e.append(base);
        e.append("), then re-run.");
        Some(e)
    } else {
        let mut e = String::from_str("Base branch '");
        e.append(base);
        e.append("' does not exist locally or on origin.");
        Some(e)
    }
}

/// Check an explicit `--base` before anything is pushed: only as many
/// existence queries as the answer needs.
fn check_base<G: Git>(git: &mut G, base: &str, current: &str) -> (r: Result<(), String>)
    ensures
        crate::git::extends(final(git).history(), old(git).history()),
        base@ == current@ ==> (r matches Err(e) && Some(e@) == base_refusal_text(base@, current@, false, false)),
{
    let same = string_eq(base, current);
    let on_remote = if same {
        false
    } else {
        git.remote_branch_exists(base)?
    };
    let on_local = if same || on_remote {
        false
    } else {
        git.local_branch_exists(base)?
    };
    match base_refusal(base, current, on_remote, on_local) {
        Some(e) => Err(e),
        None => Ok(()),
    }
}

/// Whether a merged PR finished the branch: its merged head is exactly the
/// local tip. New commits since the merge are new work.
pub fn merged_at_tip(merged_head: &str, tip: &str) -> (r: bool)
    ensures
        r == (merged_head@ == tip@),
{
    string_eq(merged_head, tip)
}

/// Clean up a branch whose PR already merged into `base`: delete it on the
/// remote (when the platform has not), then locally, and remove its worktree
/// when it lives in one (last: the process stands in it).
fn clean_up_merged<G: Git>(git: &mut G, out: &dyn Output, branch: &str, pr: &MergedPr) -> (r: Result<(), String>)
    ensures
        crate::git::extends(final(git).history(), old(git).history()),
{
    out.line(cat(&["Already merged: ", pr.url.as_str(), " → ", pr.base.as_str(), ". Cleaning up ", branch, "..."]).as_str());
    if git.remote_branch_exists(branch)? {
        git.delete_branch_remote(branch)?;
    }
    if git.is_linked_worktree()? {
        git.detach_head()?;
        git.delete_branch_local(branch)?;
        git.remove_current_worktree()?;
    } else {
        git.checkout(pr.base.as_str())?;
        git.ff_merge(cat(&["origin/", pr.base.as_str()]).as_str())?;
        git.delete_branch_local(branch)?;
    }
    out.line(cat(&["Branch ", branch, " finished."]).as_str());
    Ok(())
}

/// `true` when `branch`'s most recent PR merged with the local tip, after
/// cleaning the branch up; `false` when the branch is still in play.
fn finish_if_merged<G: Git, H: HostingPlatform>(git: &mut G, hosting: &mut H, out: &dyn Output, branch: &str) -> (r: Result<bool, String>)
    ensures
        crate::hosting::host_extends(final(hosting).history(), old(hosting).history()),
        crate::git::extends(final(git).history(), old(git).history()),
        no_pr_opened(old(hosting).history(), final(hosting).history()),
{
    match hosting.merged_pr(branch)? {
        Some(pr) => {
            let tip = git.head_sha()?;
            if merged_at_tip(pr.head_sha.as_str(), tip.as_str()) {
                clean_up_merged(git, out, branch, &pr)?;
                Ok(true)
            } else {
                Ok(false)
            }
        },
        None => Ok(false),
    }
}

/// Push `current`, open (or reuse) its PR into `base` and show it in the
/// browser; the PR's URL.
fn push_and_create_pr<G: Git, H: HostingPlatform>(
    git: &mut G,
    hosting: &mut H,
    out: &dyn Output,
    current: &str,
    base: &str,
    title: &str,
    template: Option<&str>,
) -> (r: Result<String, String>)
    ensures
        crate::hosting::host_extends(final(hosting).history(), old(hosting).history()),
        crate::git::extends(final(git).history(), old(git).history()),
        prs_opened_with(old(hosting).history(), final(hosting).history(), pr_args(current@, base@, title@, template)),
        r matches Ok(u) ==> pr_answered(
            old(hosting).history(),
            final(hosting).history(),
            pr_args(current@, base@, title@, template),
            u@,
        ),
{
    out.line(cat(&["Pushing branch: ", current]).as_str());
    git.push(current)?;
    out.line(cat(&["Creating PR: ", title, " → ", base]).as_str());
    let ghost h0 = hosting.history();
    let url = hosting.create_or_get_pr(current, base, title, template)?;
    let ghost h1 = hosting.history();
    out.line(cat(&["PR: ", url.as_str()]).as_str());
    hosting.open_url(url.as_str())?;
    proof {
        let k = h0.len() as int;
        assert(hosting.history()[k] == h1[k]);
        assert(hosting.history()[k].op == HostOp::CreateOrGetPr);
    }
    Ok(url)
}

/// Finish a work branch: push it and open its PR into `base` (asked for when
/// not given), titled from the branch. A branch whose PR already merged at its
/// tip is cleaned up instead. The PR's URL, or `None` after a clean-up.
pub fn finish_work_branch<G: Git, H: HostingPlatform>(
    git: &mut G,
    hosting: &mut H,
    prompter: &dyn Prompter,
    out: &dyn Output,
    branch_type: &BranchType,
    breaking: Option<bool>,
    base: Option<String>,
    template: Option<&str>,
) -> (r: Result<Option<String>, String>)
    ensures
        crate::hosting::host_extends(final(hosting).history(), old(hosting).history()),
        crate::git::extends(final(git).history(), old(git).history()),
        crate::git::branch::spec_commit_type(branch_type@) is None <==> (final(git).history() == old(git).history() && (
        r matches Err(e) && e@ == "Cannot finish: not on a work branch"@)),
        work_finish_events(
            old(git).history(),
            final(git).history(),
            old(hosting).history(),
            final(hosting).history(),
            branch_type@,
            breaking,
            match base {
                Some(b) => Some(b@),
                None => None,
            },
            template,
            r,
        ),
{
    let ghost h0 = hosting.history();
    let ghost g0 = git.history();
    let commit_type = match branch_type.commit_type() {
        Some(t) => t,
        None => {
            return Err(String::from_str("Cannot finish: not on a work branch"));
        },
    };
    let name = match branch_type.name() {
        Some(n) => n,
        None => {
            return Err(String::from_str("Cannot finish: branch has no name"));
        },
    };
    let current = match git.current_branch() {
        Ok(c) => c,
        Err(e) => {
            assert(git.history().len() == g0.len() + 1);
            return Err(e);
        },
    };
    let ghost explicit = match &base {
        Some(b) => Some(b@),
        None => None,
    };
    match &base {
        Some(b) => check_base(git, b.as_str(), current.as_str())?,
        None => {},
    }
    if finish_if_merged(git, hosting, out, current.as_str())? {
        return Ok(None);
    }
    let base = match base {
        Some(b) => b,
        None => detect_parent_branch(git, prompter, current.as_str())?,
    };
    let bang = match breaking {
        Some(b) => b,
        None => if commonly_breaking(commit_type) {
            prompt_breaking_change(prompter)?
        } else {
            false
        },
    };
    let title = pr_title(commit_type, name, bang);
    let ghost h1 = hosting.history();
    let url = push_and_create_pr(git, hosting, out, current.as_str(), base.as_str(), title.as_str(), template)?;
    proof {
        let args = pr_args(current@, base@, title@, template);
        assert(work_pr_ok(args, current@, commit_type@, name@, breaking, explicit, template)) by {
            assert(pr_args(current@, base@, pr_title_text(commit_type@, name@, bang), template) == args);
        }
        assert forall|i: int| h0.len() <= i < hosting.history().len() && #[trigger] hosting.history()[i].op
            == HostOp::CreateOrGetPr implies work_pr_ok(
            hosting.history()[i].args,
            current@,
            commit_type@,
            name@,
            breaking,
            explicit,
            template,
        ) by {
            if i < h1.len() {
                assert(hosting.history()[i] == h1[i]);
            }
        }
        let j = choose|j: int| h0.len() <= j < hosting.history().len() && #[trigger] hosting.history()[j].op
            == HostOp::CreateOrGetPr && hosting.history()[j].args == args && hosting.history()[j].answer
            == HostAnswer::Url(url@);
    }
    Ok(Some(url))
}

/// The PR a work-branch finish may open: `c` into `base` (the given base,
/// when one was given), titled `pr_title_text` of the commit type and name,
/// with the breaking `!` exactly as given, and never for a commit type that
/// is not commonly breaking when none was given.
pub open spec fn work_pr_ok(
    args: Seq<Seq<char>>,
    c: Seq<char>,
    commit_type: Seq<char>,
    name: Seq<char>,
    breaking: Option<bool>,
    base: Option<Seq<char>>,
    template: Option<&str>,
) -> bool {
    exists|b: Seq<char>, bang: bool|
        #[trigger] pr_args(c, b, pr_title_text(commit_type, name, bang), template) == args && (base matches Some(x)
            ==> b == x) && (breaking matches Some(k) ==> bang == k) && (breaking is None && !commonly_breaking_type(
            commit_type,
        ) ==> !bang)
}

/// What finishing a work branch asks: the current branch `c` from git; the
/// only PRs it may open are `work_pr_ok`; a URL it returns is such a PR's. A
/// failed answer about the current branch is the error, and nothing is asked
/// of the platform.
pub open spec fn work_finish_events(
    g0: Seq<GitEvent>,
    g: Seq<GitEvent>,
    h0: Seq<HostEvent>,
    h: Seq<HostEvent>,
    b: BranchView,
    breaking: Option<bool>,
    base: Option<Seq<char>>,
    template: Option<&str>,
    r: Result<Option<String>, String>,
) -> bool {
    let k = g0.len() as int;
    match (crate::git::branch::spec_commit_type(b), crate::git::branch::spec_branch_name(b)) {
        (Some(ct), Some(n)) => {
            &&& call_at(g, k, GitOp::CurrentBranch, Seq::empty())
            &&& match g[k].answer {
                GitAnswer::Text(c) => {
                    &&& forall|i: int| h0.len() <= i < h.len() && #[trigger] h[i].op == HostOp::CreateOrGetPr
                        ==> work_pr_ok(h[i].args, c, ct, n, breaking, base, template)
                    &&& r matches Ok(Some(u)) ==> exists|i: int| h0.len() <= i < h.len() && #[trigger] h[i].op
                        == HostOp::CreateOrGetPr && work_pr_ok(h[i].args, c, ct, n, breaking, base, template)
                        && h[i].answer == HostAnswer::Url(u@)
                },
                GitAnswer::Failed(e) => h == h0 && (r matches Err(m) && m@ == e),
                _ => false,
            }
        },
        _ => true,
    }
}

/// A fix branch's name as PR title words: hyphens become spaces.
pub open spec fn title_words(name: Seq<char>) -> Seq<char> {
    name.map_values(|c: char| if c == '-' { ' ' } else { c })
}

/// The PR title of a release or hotfix fix: `fix: ` and the name's words.
pub fn fix_title(name: &str) -> (r: String)
    ensures
        r@ == "fix: "@ + title_words(name@),
{
    let v = chars_of(name);
    let mut s = String::from_str("fix: ");
    let mut start: usize = 0;
    let mut i: usize = 0;
    while i < v.len()
        invariant
            start <= i <= v@.len(),
            v@ == name@,
            s@ == "fix: "@ + title_words(name@).take(start as int),
            forall|k: int| start <= k < i ==> name@[k] != '-',
        decreases v@.len() - i,
    {
        if v[i] == '-' {
            let seg = substring(name, start, i);
            s.append(seg.as_str());
            s.append(" ");
            proof {
                reveal_strlit(" ");
                assert(title_words(name@).take(i + 1) =~= title_words(name@).take(start as int) + seg@ + " "@);
            }
            start = i + 1;
        }
        i = i + 1;
    }
    let seg = substring(name, start, v.len());
    s.append(seg.as_str());
    assert(title_words(name@) =~= title_words(name@).take(start as int) + seg@);
    s
}

fn versioned_base(kind: &str, major: u32, minor: u32, patch: u32) -> (r: String)
    ensures
        r@ == kind@ + triple_text(major, minor, patch),
{
    let mut s = String::from_str(kind);
    crate::version::push_triple(&mut s, major, minor, patch);
    s
}

/// Finish a fix branch: its PR into `base`, titled `fix: ` and the name's
/// words, unless its PR already merged at its tip (then it is cleaned up).
fn finish_fix_branch<G: Git, H: HostingPlatform>(
    git: &mut G,
    hosting: &mut H,
    out: &dyn Output,
    base: &str,
    name: &str,
    template: Option<&str>,
) -> (r: Result<Option<String>, String>)
    ensures
        crate::hosting::host_extends(final(hosting).history(), old(hosting).history()),
        crate::git::extends(final(git).history(), old(git).history()),
        fix_finish_events(
            old(git).history(),
            final(git).history(),
            old(hosting).history(),
            final(hosting).history(),
            base@,
            name@,
            template,
            r,
        ),
{
    let ghost h0 = hosting.history();
    let current = git.current_branch()?;
    if finish_if_merged(git, hosting, out, current.as_str())? {
        return Ok(None);
    }
    let ghost h1 = hosting.history();
    let title = fix_title(name);
    let url = push_and_create_pr(git, hosting, out, current.as_str(), base, title.as_str(), template)?;
    proof {
        let args = pr_args(current@, base@, title@, template);
        assert forall|i: int| h0.len() <= i < hosting.history().len() && #[trigger] hosting.history()[i].op
            == HostOp::CreateOrGetPr implies hosting.history()[i].args == args by {
            if i < h1.len() {
                assert(hosting.history()[i] == h1[i]);
            }
        }
        let j = choose|j: int| h1.len() <= j < hosting.history().len() && #[trigger] hosting.history()[j].op
            == HostOp::CreateOrGetPr && hosting.history()[j].args == args && hosting.history()[j].answer
            == HostAnswer::Url(url@);
        assert(pr_answered(h0, hosting.history(), args, url@));
    }
    Ok(Some(url))
}

/// What finishing a fix branch into `base` asks: the current branch `c`
/// from git; the only PR it may open is `c` into `base`, titled `fix: ` and
/// the name's words (`fix_title`); a URL it returns is that PR's. A failed
/// answer about the current branch is the error, and nothing is asked of the
/// platform.
pub open spec fn fix_finish_events(
    g0: Seq<GitEvent>,
    g: Seq<GitEvent>,
    h0: Seq<HostEvent>,
    h: Seq<HostEvent>,
    base: Seq<char>,
    name: Seq<char>,
    template: Option<&str>,
    r: Result<Option<String>, String>,
) -> bool {
    let k = g0.len() as int;
    &&& call_at(g, k, GitOp::CurrentBranch, Seq::empty())
    &&& match g[k].answer {
        GitAnswer::Text(c) => {
            let args = pr_args(c, base, "fix: "@ + title_words(name), template);
            &&& prs_opened_with(h0, h, args)
            &&& r matches Ok(Some(u)) ==> pr_answered(h0, h, args, u@)
        },
        GitAnswer::Failed(e) => h == h0 && (r matches Err(m) && m@ == e),
        _ => false,
    }
}

/// Finish a release fix: its PR into `release/M.m.p`. The PR's URL, or `None`
/// after cleaning up an already-merged branch.
pub fn finish_release_fix<G: Git, H: HostingPlatform>(
    git: &mut G,
    hosting: &mut H,
    out: &dyn Output,
    branch_type: &BranchType,
    template: Option<&str>,
) -> (r: Result<Option<String>, String>)
    ensures
        crate::hosting::host_extends(final(hosting).history(), old(hosting).history()),
        crate::git::extends(final(git).history(), old(git).history()),
        !(branch_type is ReleaseFix) <==> (final(git).history() == old(git).history() && (r matches Err(e) && e@
            == "Not on a release-fix branch."@)),
        branch_type@ matches BranchView::ReleaseFix(x, y, z, n) ==> fix_finish_events(
            old(git).history(),
            final(git).history(),
            old(hosting).history(),
            final(hosting).history(),
            "release/"@ + triple_text(x, y, z),
            n,
            template,
            r,
        ),
{
    match branch_type {
        BranchType::ReleaseFix { major, minor, patch, name } => {
            let base = versioned_base("release/", *major, *minor, *patch);
            finish_fix_branch(git, hosting, out, base.as_str(), name.as_str(), template)
        },
        _ => Err(String::from_str("Not on a release-fix branch.")),
    }
}

/// Finish a hotfix fix: its PR into `hotfix/M.m.p`. The PR's URL, or `None`
/// after cleaning up an already-merged branch.
pub fn finish_hotfix_fix<G: Git, H: HostingPlatform>(
    git: &mut G,
    hosting: &mut H,
    out: &dyn Output,
    branch_type: &BranchType,
    template: Option<&str>,
) -> (r: Result<Option<String>, String>)
    ensures
        crate::hosting::host_extends(final(hosting).history(), old(hosting).history()),
        crate::git::extends(final(git).history(), old(git).history()),
        !(branch_type is HotfixFix) <==> (final(git).history() == old(git).history() && (r matches Err(e) && e@
            == "Not on a hotfix-fix branch."@)),
        branch_type@ matches BranchView::HotfixFix(x, y, z, n) ==> fix_finish_events(
            old(git).history(),
            final(git).history(),
            old(hosting).history(),
            final(hosting).history(),
            "hotfix/"@ + triple_text(x, y, z),
            n,
            template,
            r,
        ),
{
    match branch_type {
        BranchType::HotfixFix { major, minor, patch, name } => {
            let base = versioned_base("hotfix/", *major, *minor, *patch);
            finish_fix_branch(git, hosting, out, base.as_str(), name.as_str(), template)
        },
        _ => Err(String::from_str("Not on a hotfix-fix branch.")),
    }
}

} // verus!
