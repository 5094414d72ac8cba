//! Branch-aware PR templates: the PR body is picked by branch type, most
//! specific first, from `.github/pr-templates/` in the repository.
use vstd::prelude::*;

use crate::git::branch::{spec_template_keys, BranchType};
use crate::paths::Probe;

verus! {

/// Where the templates live, relative to the repository root.
pub open spec fn template_dir() -> Seq<char> {
    ".github/pr-templates/"@
}

pub open spec fn template_file(key: Seq<char>) -> Seq<char> {
    template_dir() + "bflow-"@ + key + ".md"@
}

/// The templates to try, most specific first: the branch type's own, its
/// group's (when the group differs), then the default. None for a branch
/// that never opens a PR.
pub open spec fn template_candidates(keys: Option<(Seq<char>, Seq<char>)>) -> Seq<Seq<char>> {
    match keys {
        None => Seq::empty(),
        Some((specific, group)) => if specific == group {
            seq![template_file(specific), template_file("default"@)]
        } else {
            seq![template_file(specific), template_file(group), template_file("default"@)]
        },
    }
}

fn template_path(key: &str) -> (r: String)
    ensures
        r@ == template_file(key@),
{
    let mut s = String::from_str(".github/pr-templates/bflow-");
    proof {
        reveal_strlit(".github/pr-templates/bflow-");
        reveal_strlit(".github/pr-templates/");
        reveal_strlit("bflow-");
    }
    s.append(key);
    s.append(".md");
    assert(s@ =~= template_file(key@));
    s
}

/// The template paths to try for `branch_type`, relative to the repository
/// root, most specific first.
pub fn candidates(branch_type: &BranchType) -> (r: Vec<String>)
    ensures
        r@.map_values(|p: String| p@) =~= template_candidates(spec_template_keys(branch_type@)),
{
    let mut r: Vec<String> = Vec::new();
    match branch_type.pr_template_keys() {
        None => {},
        Some((specific, group)) => {
            r.push(template_path(specific));
            if !crate::flows::string_eq(specific, group) {
                r.push(template_path(group));
            }
            r.push(template_path("default"));
        },
    }
    r
}

/// `rel` under the repository root `root`.
pub open spec fn under_root(root: Seq<char>, rel: Seq<char>) -> Seq<char> {
    root + "/"@ + rel
}

/// What picking a template did with the candidates `cands` under `root`
/// (the probe's answers `a` after `a0`): it asked about the candidates in
/// order, most specific first, stopping at the first that exists; that one is
/// the result, and there is none only when none exists.
pub open spec fn template_picked(
    a0: Seq<(Seq<char>, bool)>,
    a: Seq<(Seq<char>, bool)>,
    root: Seq<char>,
    cands: Seq<Seq<char>>,
    r: Option<String>,
) -> bool {
    let asked = a.skip(a0.len() as int);
    &&& a0.len() <= a.len()
    &&& a.take(a0.len() as int) == a0
    &&& asked.len() <= cands.len()
    &&& forall|i: int| 0 <= i < asked.len() ==> (#[trigger] asked[i]).0 == under_root(root, cands[i])
    &&& forall|i: int| 0 <= i < asked.len() - 1 ==> !(#[trigger] asked[i]).1
    &&& match r {
        Some(p) => asked.len() > 0 && asked.last().1 && p@ == asked.last().0,
        None => asked.len() == cands.len() && (asked.len() > 0 ==> !asked.last().1),
    }
}

/// The PR template for `branch_type`, asking `probe` which candidates exist
/// under `repo_root`: the first candidate that exists, as a path anchored
/// there (so it is found from any subdirectory). `None` when none exists:
/// the platform then uses the repository's own default template.
pub fn resolve_with(probe: &mut Probe, repo_root: &str, branch_type: &BranchType) -> (r: Option<String>)
    ensures
        template_picked(old(probe).answers@, final(probe).answers@, repo_root@, template_candidates(spec_template_keys(branch_type@)), r),
{
    let cands = candidates(branch_type);
    let ghost want = template_candidates(spec_template_keys(branch_type@));
    let ghost a0 = probe.answers@;
    proof {
        reveal_strlit("/");
        assert(probe.answers@.skip(a0.len() as int) =~= Seq::<(Seq<char>, bool)>::empty());
        assert(probe.answers@.take(a0.len() as int) =~= a0);
    }
    let mut i: usize = 0;
    while i < cands.len()
        invariant
            i <= cands@.len(),
            cands@.map_values(|p: String| p@) == want,
            want == template_candidates(spec_template_keys(branch_type@)),
            a0 == old(probe).answers@,
            probe.answers@.len() == a0.len() + i,
            probe.answers@.take(a0.len() as int) == a0,
            forall|j: int| 0 <= j < i ==> (#[trigger] probe.answers@.skip(a0.len() as int)[j]).0 == under_root(repo_root@, want[j]),
            forall|j: int| 0 <= j < i ==> !(#[trigger] probe.answers@.skip(a0.len() as int)[j]).1,
        decreases cands@.len() - i,
    {
        let mut p = String::from_str(repo_root);
        p.append("/");
        p.append(cands[i].as_str());
        proof {
            assert(want[i as int] == cands@[i as int]@);
            assert(p@ =~= under_root(repo_root@, want[i as int]));
        }
        let ghost before = probe.answers@;
        let found = probe.present(p.as_str());
        proof {
            let asked = probe.answers@.skip(a0.len() as int);
            assert(asked =~= before.skip(a0.len() as int).push((p@, found)));
            assert(probe.answers@.take(a0.len() as int) =~= before.take(a0.len() as int));
        }
        if found {
            return Some(p);
        }
        i = i + 1;
    }
    None
}

/// A template is picked most specific first: the result is the first
/// candidate the probe reported present, every candidate before it was
/// reported absent, and there is no template only when every candidate was
/// reported absent.
pub proof fn law_template_is_first_existing(
    a0: Seq<(Seq<char>, bool)>,
    a: Seq<(Seq<char>, bool)>,
    root: Seq<char>,
    cands: Seq<Seq<char>>,
    r: Option<String>,
)
    requires
        template_picked(a0, a, root, cands, r),
    ensures
        r matches Some(p) ==> exists|i: int|
            #![trigger cands[i]]
            0 <= i < cands.len() && p@ == under_root(root, cands[i]) && a[a0.len() + i] == (p@, true) && forall|j: int|
                0 <= j < i ==> a[a0.len() + j] == (#[trigger] under_root(root, cands[j]), false),
        r is None ==> forall|j: int| 0 <= j < cands.len() ==> a[a0.len() + j] == (#[trigger] under_root(root, cands[j]), false),
{
    let asked = a.skip(a0.len() as int);
    assert forall|j: int| 0 <= j < asked.len() - 1 implies a[a0.len() + j] == (
        #[trigger] under_root(root, cands[j]),
        false,
    ) by {
        assert(asked[j] == a[a0.len() + j]);
        assert(!asked[j].1);
        assert(asked[j].0 == under_root(root, cands[j]));
    }
    match r {
        Some(p) => {
            let i = asked.len() - 1;
            assert(asked[i] == a[a0.len() + i]);
            assert(asked[i].0 == under_root(root, cands[i]));
            assert(a[a0.len() + i] == (p@, true));
        },
        None => {
            if asked.len() > 0 {
                let i = asked.len() - 1;
                assert(asked[i] == a[a0.len() + i]);
                assert(asked[i].0 == under_root(root, cands[i]));
                assert(a[a0.len() + i] == (under_root(root, cands[i]), false));
            }
        },
    }
}

/// The PR template for `branch_type`: the first candidate that exists under
/// `repo_root` (`resolve_with` on a fresh probe).
pub fn resolve(repo_root: &str, branch_type: &BranchType) -> (r: Option<String>)
    ensures
        r matches Some(p) ==> exists|i: int|
            0 <= i < template_candidates(spec_template_keys(branch_type@)).len() && p@ == under_root(
                repo_root@,
                #[trigger] template_candidates(spec_template_keys(branch_type@))[i],
            ),
        template_candidates(spec_template_keys(branch_type@)).len() == 0 ==> r is None,
        exists|a: Seq<(Seq<char>, bool)>|
            #[trigger] template_picked(Seq::empty(), a, repo_root@, template_candidates(spec_template_keys(branch_type@)), r),
{
    let mut probe = Probe::new();
    let r = resolve_with(&mut probe, repo_root, branch_type);
    proof {
        let asked = probe.answers@.skip(0);
        assert(asked =~= probe.answers@);
        if r is Some {
            let i = probe.answers@.len() - 1;
            assert(template_candidates(spec_template_keys(branch_type@))[i] == template_candidates(spec_template_keys(branch_type@))[i]);
        }
    }
    r
}

} // verus!
