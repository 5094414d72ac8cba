//! The branch taxonomy: what kind of gitflow branch a branch name denotes.
use vstd::prelude::*;

use crate::text::{chars_of, has_prefix, range_eq, split_once, starts_with_at, substring};
use crate::text::{find_in, lemma_find_char, lemma_has_prefix_concat, lemma_prefix_char, lemma_split_once_concat};
use crate::version::{
    hotfix_branch_text, lemma_triple_text, parse_triple_range, release_branch_text, spec_parse_triple,
    triple_text,
};

verus! {

/// The mathematical content of a `BranchType`.
pub ghost enum BranchView {
    Main,
    Develop,
    Feature(Seq<char>),
    Fix(Seq<char>),
    Chore(Seq<char>),
    Docs(Seq<char>),
    Refactor(Seq<char>),
    Release(u32, u32, u32),
    ReleaseFix(u32, u32, u32, Seq<char>),
    Hotfix(u32, u32, u32),
    HotfixFix(u32, u32, u32, Seq<char>),
    Other,
}

#[derive(Debug, PartialEq)]
pub enum BranchType {
    Main,
    Develop,
    Feature { name: String },
    Fix { name: String },
    Chore { name: String },
    Docs { name: String },
    Refactor { name: String },
    Release { major: u32, minor: u32, patch: u32 },
    ReleaseFix { major: u32, minor: u32, patch: u32, name: String },
    Hotfix { major: u32, minor: u32, patch: u32 },
    HotfixFix { major: u32, minor: u32, patch: u32, name: String },
    Other,
}

impl View for BranchType {
    type V = BranchView;

    open spec fn view(&self) -> BranchView {
        match self {
            BranchType::Main => BranchView::Main,
            BranchType::Develop => BranchView::Develop,
            BranchType::Feature { name } => BranchView::Feature(name@),
            BranchType::Fix { name } => BranchView::Fix(name@),
            BranchType::Chore { name } => BranchView::Chore(name@),
            BranchType::Docs { name } => BranchView::Docs(name@),
            BranchType::Refactor { name } => BranchView::Refactor(name@),
            BranchType::Release { major, minor, patch } => BranchView::Release(*major, *minor, *patch),
            BranchType::ReleaseFix { major, minor, patch, name } => BranchView::ReleaseFix(
                *major,
                *minor,
                *patch,
                name@,
            ),
            BranchType::Hotfix { major, minor, patch } => BranchView::Hotfix(*major, *minor, *patch),
            BranchType::HotfixFix { major, minor, patch, name } => BranchView::HotfixFix(
                *major,
                *minor,
                *patch,
                name@,
            ),
            BranchType::Other => BranchView::Other,
        }
    }
}

/// The work-branch kinds in canonical order; a kind is also its branch
/// prefix and its menu label.
pub open spec fn kind_name(i: int) -> Seq<char> {
    if i == 0 {
        "feature"@
    } else if i == 1 {
        "fix"@
    } else if i == 2 {
        "chore"@
    } else if i == 3 {
        "docs"@
    } else {
        "refactor"@
    }
}

/// The work branch of kind `i` named `name`.
pub open spec fn work_branch(i: int, name: Seq<char>) -> BranchView {
    if i == 0 {
        BranchView::Feature(name)
    } else if i == 1 {
        BranchView::Fix(name)
    } else if i == 2 {
        BranchView::Chore(name)
    } else if i == 3 {
        BranchView::Docs(name)
    } else {
        BranchView::Refactor(name)
    }
}

/// `KIND/NAME` with a non-empty name.
pub open spec fn work_match(s: Seq<char>, i: int) -> bool {
    has_prefix(s, kind_name(i) + seq!['/']) && s.len() > kind_name(i).len() + 1
}

pub open spec fn work_rest(s: Seq<char>, i: int) -> Seq<char> {
    s.skip(kind_name(i).len() as int + 1)
}

/// `PREFIX/M.m.p/NAME` with a non-empty name: the version and the name.
pub open spec fn versioned_fix(s: Seq<char>, prefix: Seq<char>) -> Option<(u32, u32, u32, Seq<char>)> {
    if has_prefix(s, prefix) {
        match split_once(s.skip(prefix.len() as int), '/') {
            Some((v, name)) => match spec_parse_triple(v) {
                Some((x, y, z)) => if name.len() > 0 {
                    Some((x, y, z, name))
                } else {
                    None
                },
                None => None,
            },
            None => None,
        }
    } else {
        None
    }
}

/// `PREFIX/M.m.p`: the version.
pub open spec fn versioned(s: Seq<char>, prefix: Seq<char>) -> Option<(u32, u32, u32)> {
    if has_prefix(s, prefix) {
        spec_parse_triple(s.skip(prefix.len() as int))
    } else {
        None
    }
}

/// What `BranchType::parse` gives for a branch name: the mainline, develop,
/// the first work kind whose `KIND/` starts the name with a non-empty rest,
/// then release, release-fix, hotfix and hotfix-fix names, else other.
pub open spec fn spec_parse_branch(s: Seq<char>) -> BranchView {
    if s == "main"@ || s == "master"@ {
        BranchView::Main
    } else if s == "develop"@ {
        BranchView::Develop
    } else if work_match(s, 0) {
        work_branch(0, work_rest(s, 0))
    } else if work_match(s, 1) {
        work_branch(1, work_rest(s, 1))
    } else if work_match(s, 2) {
        work_branch(2, work_rest(s, 2))
    } else if work_match(s, 3) {
        work_branch(3, work_rest(s, 3))
    } else if work_match(s, 4) {
        work_branch(4, work_rest(s, 4))
    } else if versioned(s, "release/"@) is Some {
        let (x, y, z) = versioned(s, "release/"@).unwrap();
        BranchView::Release(x, y, z)
    } else if versioned_fix(s, "release-fix/"@) is Some {
        let (x, y, z, n) = versioned_fix(s, "release-fix/"@).unwrap();
        BranchView::ReleaseFix(x, y, z, n)
    } else if versioned(s, "hotfix/"@) is Some {
        let (x, y, z) = versioned(s, "hotfix/"@).unwrap();
        BranchView::Hotfix(x, y, z)
    } else if versioned_fix(s, "hotfix-fix/"@) is Some {
        let (x, y, z, n) = versioned_fix(s, "hotfix-fix/"@).unwrap();
        BranchView::HotfixFix(x, y, z, n)
    } else {
        BranchView::Other
    }
}

/// The kind index of a work branch.
pub open spec fn work_index(b: BranchView) -> Option<int> {
    match b {
        BranchView::Feature(_) => Some(0),
        BranchView::Fix(_) => Some(1),
        BranchView::Chore(_) => Some(2),
        BranchView::Docs(_) => Some(3),
        BranchView::Refactor(_) => Some(4),
        _ => None,
    }
}

pub open spec fn spec_work_kind(b: BranchView) -> Option<Seq<char>> {
    match work_index(b) {
        Some(i) => Some(kind_name(i)),
        None => None,
    }
}

pub open spec fn spec_branch_name(b: BranchView) -> Option<Seq<char>> {
    match b {
        BranchView::Feature(n) => Some(n),
        BranchView::Fix(n) => Some(n),
        BranchView::Chore(n) => Some(n),
        BranchView::Docs(n) => Some(n),
        BranchView::Refactor(n) => Some(n),
        BranchView::ReleaseFix(_, _, _, n) => Some(n),
        BranchView::HotfixFix(_, _, _, n) => Some(n),
        _ => None,
    }
}

/// Conventional-commit type: the kind, except `feature` commits as `feat`.
pub open spec fn spec_commit_type(b: BranchView) -> Option<Seq<char>> {
    match work_index(b) {
        Some(i) => if i == 0 {
            Some("feat"@)
        } else {
            Some(kind_name(i))
        },
        None => None,
    }
}

pub open spec fn spec_fixed_finish_target(b: BranchView) -> bool {
    b is Release || b is ReleaseFix || b is Hotfix || b is HotfixFix
}

/// PR-template keys `(specific, group)`: the fix family shares the `fix` group.
pub open spec fn spec_template_keys(b: BranchView) -> Option<(Seq<char>, Seq<char>)> {
    match b {
        BranchView::ReleaseFix(..) => Some(("release-fix"@, "fix"@)),
        BranchView::HotfixFix(..) => Some(("hotfix-fix"@, "fix"@)),
        _ => match spec_work_kind(b) {
            Some(k) => Some((k, k)),
            None => None,
        },
    }
}


/// `s` is not one of the fixed names main, master, develop, given that its
/// first two characters differ from theirs.
proof fn lemma_not_fixed_name(s: Seq<char>)
    requires
        s.len() >= 2,
        s[0] != 'm',
        s[0] != 'd' || s[1] != 'e',
    ensures
        s != "main"@,
        s != "master"@,
        s != "develop"@,
{
    reveal_strlit("main");
    reveal_strlit("master");
    reveal_strlit("develop");
    reveal_strlit("feature");
    reveal_strlit("fix");
    reveal_strlit("chore");
    reveal_strlit("docs");
    reveal_strlit("refactor");
    reveal_strlit("release/");
    reveal_strlit("release-fix/");
    reveal_strlit("hotfix/");
    reveal_strlit("hotfix-fix/");
    if s == "develop"@ {
        assert(s[0] == "develop"@[0]);
        assert(s[1] == "develop"@[1]);
    }
    if s == "main"@ {
        assert(s[0] == "main"@[0]);
    }
    if s == "master"@ {
        assert(s[0] == "master"@[0]);
    }
}

/// No work kind's `KIND/` starts `s` when `s` starts with other characters.
proof fn lemma_no_work_match(s: Seq<char>, j: int)
    requires
        0 <= j < 5,
        s.len() >= 3,
        s[0] != kind_name(j)[0] || s[1] != kind_name(j)[1] || s[2] != kind_name(j)[2],
    ensures
        !work_match(s, j),
{
    reveal_strlit("main");
    reveal_strlit("master");
    reveal_strlit("develop");
    reveal_strlit("feature");
    reveal_strlit("fix");
    reveal_strlit("chore");
    reveal_strlit("docs");
    reveal_strlit("refactor");
    reveal_strlit("release/");
    reveal_strlit("release-fix/");
    reveal_strlit("hotfix/");
    reveal_strlit("hotfix-fix/");
    if work_match(s, j) {
        let p = kind_name(j) + seq!['/'];
        lemma_prefix_char(s, p, 0);
        lemma_prefix_char(s, p, 1);
        lemma_prefix_char(s, p, 2);
    }
}

/// `KIND/NAME` reads back as the work branch of that kind and name, for every
/// work kind and every non-empty name; its kind and name are given back by
/// `work_kind` and `name`.
pub proof fn law_work_branch_round_trip(i: int, name: Seq<char>)
    requires
        0 <= i < 5,
        name.len() > 0,
    ensures
        spec_parse_branch(kind_name(i) + seq!['/'] + name) == work_branch(i, name),
        spec_work_kind(work_branch(i, name)) == Some(kind_name(i)),
        spec_branch_name(work_branch(i, name)) == Some(name),
{
    reveal_strlit("main");
    reveal_strlit("master");
    reveal_strlit("develop");
    reveal_strlit("feature");
    reveal_strlit("fix");
    reveal_strlit("chore");
    reveal_strlit("docs");
    reveal_strlit("refactor");
    reveal_strlit("release/");
    reveal_strlit("release-fix/");
    reveal_strlit("hotfix/");
    reveal_strlit("hotfix-fix/");
    let p = kind_name(i) + seq!['/'];
    let s = p + name;
    assert(kind_name(i) + seq!['/'] + name == s);
    lemma_has_prefix_concat(p, name);
    assert(s[0] == p[0] && s[1] == p[1] && s[2] == p[2]);
    lemma_not_fixed_name(s);
    if i > 0 {
        lemma_no_work_match(s, 0);
    }
    if i > 1 {
        lemma_no_work_match(s, 1);
    }
    if i > 2 {
        lemma_no_work_match(s, 2);
    }
    if i > 3 {
        lemma_no_work_match(s, 3);
    }
    assert(work_match(s, i));
    assert(work_rest(s, i) == name);
}

/// A version's release branch name reads back as that release branch, and its
/// hotfix branch name as that hotfix branch.
pub proof fn law_versioned_branch_round_trip(major: u32, minor: u32, patch: u32)
    ensures
        spec_parse_branch(release_branch_text(major, minor, patch)) == BranchView::Release(
            major,
            minor,
            patch,
        ),
        spec_parse_branch(hotfix_branch_text(major, minor, patch)) == BranchView::Hotfix(
            major,
            minor,
            patch,
        ),
{
    reveal_strlit("main");
    reveal_strlit("master");
    reveal_strlit("develop");
    reveal_strlit("feature");
    reveal_strlit("fix");
    reveal_strlit("chore");
    reveal_strlit("docs");
    reveal_strlit("refactor");
    reveal_strlit("release/");
    reveal_strlit("release-fix/");
    reveal_strlit("hotfix/");
    reveal_strlit("hotfix-fix/");
    let t = triple_text(major, minor, patch);
    lemma_triple_text(major, minor, patch);
    let r = release_branch_text(major, minor, patch);
    lemma_has_prefix_concat("release/"@, t);
    assert(r[0] == 'r' && r[1] == 'e' && r[2] == 'l');
    lemma_not_fixed_name(r);
    lemma_no_work_match(r, 0);
    lemma_no_work_match(r, 1);
    lemma_no_work_match(r, 2);
    lemma_no_work_match(r, 3);
    lemma_no_work_match(r, 4);
    let h = hotfix_branch_text(major, minor, patch);
    lemma_has_prefix_concat("hotfix/"@, t);
    assert(h[0] == 'h' && h[1] == 'o' && h[2] == 't');
    lemma_not_fixed_name(h);
    lemma_no_work_match(h, 0);
    lemma_no_work_match(h, 1);
    lemma_no_work_match(h, 2);
    lemma_no_work_match(h, 3);
    lemma_no_work_match(h, 4);
    if has_prefix(h, "release/"@) {
        lemma_prefix_char(h, "release/"@, 0);
    }
    if has_prefix(h, "release-fix/"@) {
        lemma_prefix_char(h, "release-fix/"@, 0);
    }
}

/// `release-fix/M.m.p/NAME` and `hotfix-fix/M.m.p/NAME`, with a non-empty name,
/// read back as that release-fix and hotfix-fix branch.
pub proof fn law_fix_branch_round_trip(major: u32, minor: u32, patch: u32, name: Seq<char>)
    requires
        name.len() > 0,
    ensures
        spec_parse_branch("release-fix/"@ + triple_text(major, minor, patch) + seq!['/'] + name)
            == BranchView::ReleaseFix(major, minor, patch, name),
        spec_parse_branch("hotfix-fix/"@ + triple_text(major, minor, patch) + seq!['/'] + name)
            == BranchView::HotfixFix(major, minor, patch, name),
{
    reveal_strlit("main");
    reveal_strlit("master");
    reveal_strlit("develop");
    reveal_strlit("feature");
    reveal_strlit("fix");
    reveal_strlit("chore");
    reveal_strlit("docs");
    reveal_strlit("refactor");
    reveal_strlit("release/");
    reveal_strlit("release-fix/");
    reveal_strlit("hotfix/");
    reveal_strlit("hotfix-fix/");
    let t = triple_text(major, minor, patch);
    lemma_triple_text(major, minor, patch);
    lemma_split_once_concat(t, '/', name);
    let tail = t + seq!['/'] + name;
    let r = "release-fix/"@ + tail;
    assert("release-fix/"@ + t + seq!['/'] + name == r);
    lemma_has_prefix_concat("release-fix/"@, tail);
    assert(r[0] == 'r' && r[1] == 'e' && r[2] == 'l' && r[7] == '-');
    lemma_not_fixed_name(r);
    lemma_no_work_match(r, 0);
    lemma_no_work_match(r, 1);
    lemma_no_work_match(r, 2);
    lemma_no_work_match(r, 3);
    lemma_no_work_match(r, 4);
    if has_prefix(r, "release/"@) {
        lemma_prefix_char(r, "release/"@, 7);
    }
    let h = "hotfix-fix/"@ + tail;
    assert("hotfix-fix/"@ + t + seq!['/'] + name == h);
    lemma_has_prefix_concat("hotfix-fix/"@, tail);
    assert(h[0] == 'h' && h[1] == 'o' && h[2] == 't' && h[6] == '-');
    lemma_not_fixed_name(h);
    lemma_no_work_match(h, 0);
    lemma_no_work_match(h, 1);
    lemma_no_work_match(h, 2);
    lemma_no_work_match(h, 3);
    lemma_no_work_match(h, 4);
    if has_prefix(h, "release/"@) {
        lemma_prefix_char(h, "release/"@, 0);
    }
    if has_prefix(h, "release-fix/"@) {
        lemma_prefix_char(h, "release-fix/"@, 0);
    }
    if has_prefix(h, "hotfix/"@) {
        lemma_prefix_char(h, "hotfix/"@, 6);
    }
}

pub(crate) fn kind_str(i: usize) -> (r: &'static str)
    requires
        i < 5,
    ensures
        r@ == kind_name(i as int),
{
    if i == 0 {
        "feature"
    } else if i == 1 {
        "fix"
    } else if i == 2 {
        "chore"
    } else if i == 3 {
        "docs"
    } else {
        "refactor"
    }
}

/// Whether `v` (the characters of `s`) is `KIND/NAME` for kind `i`; its name then.
fn work_match_exec(s: &str, v: &Vec<char>, i: usize) -> (r: Option<String>)
    requires
        v@ == s@,
        i < 5,
    ensures
        r is Some <==> work_match(s@, i as int),
        r matches Some(n) ==> n@ == work_rest(s@, i as int),
{
    let kind = kind_str(i);
    let k = kind.unicode_len();
    if !starts_with_at(v, 0, kind) {
        assert(v@.skip(0) =~= v@);
        assert(!has_prefix(s@, kind_name(i as int) + seq!['/'])) by {
            if has_prefix(s@, kind_name(i as int) + seq!['/']) {
                assert(s@.take(k as int) =~= s@.take(k + 1).take(k as int));
                assert((kind_name(i as int) + seq!['/']).take(k as int) =~= kind_name(i as int));
            }
        }
        return None;
    }
    assert(v@.skip(0) =~= v@);
    if v.len() - k <= 1 || v[k] != '/' {
        assert(!has_prefix(s@, kind_name(i as int) + seq!['/']) || s@.len() <= k + 1) by {
            if has_prefix(s@, kind_name(i as int) + seq!['/']) && s@.len() > k + 1 {
                assert(s@.take(k + 1)[k as int] == s@[k as int]);
            }
        }
        return None;
    }
    assert(s@.take(k + 1) =~= kind_name(i as int) + seq!['/']);
    Some(substring(s, k + 1, v.len()))
}

/// `PREFIX/M.m.p` on the characters of `s`.
fn versioned_exec(v: &Vec<char>, prefix: &str) -> (r: Option<(u32, u32, u32)>)
    ensures
        r == versioned(v@, prefix@),
{
    if !starts_with_at(v, 0, prefix) {
        assert(v@.skip(0) =~= v@);
        return None;
    }
    assert(v@.skip(0) =~= v@);
    let p = prefix.unicode_len();
    assert(v@.skip(p as int) =~= v@.subrange(p as int, v@.len() as int));
    parse_triple_range(v, p, v.len())
}

/// `PREFIX/M.m.p/NAME` on the characters `v` of `s`.
fn versioned_fix_exec(s: &str, v: &Vec<char>, prefix: &str) -> (r: Option<(u32, u32, u32, String)>)
    requires
        v@ == s@,
    ensures
        r is Some <==> versioned_fix(s@, prefix@) is Some,
        r matches Some((x, y, z, n)) ==> versioned_fix(s@, prefix@) == Some((x, y, z, n@)),
{
    if !starts_with_at(v, 0, prefix) {
        assert(v@.skip(0) =~= v@);
        return None;
    }
    assert(v@.skip(0) =~= v@);
    let p = prefix.unicode_len();
    let n = v.len();
    let ghost rest = s@.skip(p as int);
    assert(rest =~= v@.subrange(p as int, n as int));
    proof {
        lemma_find_char(rest, '/');
    }
    let slash = match find_in(v, p, n, '/') {
        Some(j) => j,
        None => {
            return None;
        },
    };
    let vend = p + slash;
    assert(rest.take(slash as int) =~= v@.subrange(p as int, vend as int));
    assert(rest.skip(slash + 1) =~= v@.subrange(vend + 1, n as int));
    let t = match parse_triple_range(v, p, vend) {
        Some(t) => t,
        None => {
            return None;
        },
    };
    if vend + 1 == n {
        return None;
    }
    let name = substring(s, vend + 1, n);
    Some((t.0, t.1, t.2, name))
}

impl BranchType {
    /// The work-branch kinds in canonical order.
    pub fn work_kinds() -> (r: [&'static str; 5])
        ensures
            forall|i: int| 0 <= i < 5 ==> (#[trigger] r[i])@ == kind_name(i),
    {
        [kind_str(0), kind_str(1), kind_str(2), kind_str(3), kind_str(4)]
    }

    /// The branch type a branch name denotes.
    pub fn parse(branch: &str) -> (r: Self)
        ensures
            r@ == spec_parse_branch(branch@),
    {
        let v = chars_of(branch);
        let n = v.len();
        assert(v@.subrange(0, n as int) =~= v@);
        if range_eq(&v, 0, n, "main") || range_eq(&v, 0, n, "master") {
            return BranchType::Main;
        }
        if range_eq(&v, 0, n, "develop") {
            return BranchType::Develop;
        }
        if let Some(name) = work_match_exec(branch, &v, 0) {
            return BranchType::Feature { name };
        }
        if let Some(name) = work_match_exec(branch, &v, 1) {
            return BranchType::Fix { name };
        }
        if let Some(name) = work_match_exec(branch, &v, 2) {
            return BranchType::Chore { name };
        }
        if let Some(name) = work_match_exec(branch, &v, 3) {
            return BranchType::Docs { name };
        }
        if let Some(name) = work_match_exec(branch, &v, 4) {
            return BranchType::Refactor { name };
        }
        if let Some((major, minor, patch)) = versioned_exec(&v, "release/") {
            return BranchType::Release { major, minor, patch };
        }
        if let Some((major, minor, patch, name)) = versioned_fix_exec(branch, &v, "release-fix/") {
            return BranchType::ReleaseFix { major, minor, patch, name };
        }
        if let Some((major, minor, patch)) = versioned_exec(&v, "hotfix/") {
            return BranchType::Hotfix { major, minor, patch };
        }
        if let Some((major, minor, patch, name)) = versioned_fix_exec(branch, &v, "hotfix-fix/") {
            return BranchType::HotfixFix { major, minor, patch, name };
        }
        BranchType::Other
    }

    /// The kind name of a work branch; `None` for every other type.
    pub fn work_kind(&self) -> (r: Option<&'static str>)
        ensures
            r matches Some(k) ==> spec_work_kind(self@) == Some(k@),
            r is None ==> spec_work_kind(self@) is None,
    {
        match self {
            BranchType::Feature { .. } => Some(kind_str(0)),
            BranchType::Fix { .. } => Some(kind_str(1)),
            BranchType::Chore { .. } => Some(kind_str(2)),
            BranchType::Docs { .. } => Some(kind_str(3)),
            BranchType::Refactor { .. } => Some(kind_str(4)),
            BranchType::Main | BranchType::Develop | BranchType::Release { .. }
            | BranchType::ReleaseFix { .. } | BranchType::Hotfix { .. }
            | BranchType::HotfixFix { .. } | BranchType::Other => None,
        }
    }

    /// Conventional-commit type of a work branch: the kind, `feat` for features.
    pub fn commit_type(&self) -> (r: Option<&'static str>)
        ensures
            r matches Some(k) ==> spec_commit_type(self@) == Some(k@),
            r is None ==> spec_commit_type(self@) is None,
    {
        match self {
            BranchType::Feature { .. } => Some("feat"),
            _ => self.work_kind(),
        }
    }

    pub fn name(&self) -> (r: Option<&str>)
        ensures
            r matches Some(n) ==> spec_branch_name(self@) == Some(n@),
            r is None ==> spec_branch_name(self@) is None,
    {
        match self {
            BranchType::Feature { name }
            | BranchType::Fix { name }
            | BranchType::Chore { name }
            | BranchType::Docs { name }
            | BranchType::Refactor { name }
            | BranchType::ReleaseFix { name, .. }
            | BranchType::HotfixFix { name, .. } => Some(name.as_str()),
            _ => None,
        }
    }

    pub fn is_work_branch(&self) -> (r: bool)
        ensures
            r == (spec_work_kind(self@) is Some),
    {
        self.work_kind().is_some()
    }

    /// Branch types whose finish has a fixed merge or PR target.
    pub fn has_fixed_finish_target(&self) -> (r: bool)
        ensures
            r == spec_fixed_finish_target(self@),
    {
        match self {
            BranchType::Release { .. } | BranchType::ReleaseFix { .. } | BranchType::Hotfix { .. }
            | BranchType::HotfixFix { .. } => true,
            _ => false,
        }
    }

    /// PR-template lookup keys `(specific, group)` for branch types that open a PR.
    pub fn pr_template_keys(&self) -> (r: Option<(&'static str, &'static str)>)
        ensures
            r matches Some((a, b)) ==> spec_template_keys(self@) == Some((a@, b@)),
            r is None ==> spec_template_keys(self@) is None,
    {
        match self {
            BranchType::ReleaseFix { .. } => Some(("release-fix", "fix")),
            BranchType::HotfixFix { .. } => Some(("hotfix-fix", "fix")),
            _ => match self.work_kind() {
                Some(kind) => Some((kind, kind)),
                None => None,
            },
        }
    }
}

} // verus!
