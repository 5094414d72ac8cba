//! Semantic versions as bflow uses them: `MAJOR.MINOR.PATCH` with an optional
//! `-LABEL.N` pre-release (release candidates are `-rc.N`), read with or
//! without a leading `v`, and the tag and branch names derived from them.
use vstd::prelude::*;

use crate::text::{
    lemma_decimal, lemma_no_char_concat, lemma_parse_decimal, lemma_split_once_concat,
    lemma_split_once_none, all_digits, chars_of, decimal, digits_value, find_in, is_digit, lemma_find_char, no_char,
    parse_u32_range, push_decimal, range_eq, spec_parse_u32, split_once, substring,
};

verus! {

/// The mathematical content of a `PreRelease`.
pub ghost struct PreView {
    pub label: Seq<char>,
    pub number: u32,
}

/// The mathematical content of a `SemVer`.
pub ghost struct VersionView {
    pub major: u32,
    pub minor: u32,
    pub patch: u32,
    pub pre: Option<PreView>,
}

#[derive(Debug, Clone, PartialEq, Eq)]
pub struct PreRelease {
    pub label: String,
    pub number: u32,
}

#[derive(Debug, Clone, PartialEq, Eq)]
pub struct SemVer {
    pub major: u32,
    pub minor: u32,
    pub patch: u32,
    pub pre: Option<PreRelease>,
}

impl View for PreRelease {
    type V = PreView;

    open spec fn view(&self) -> PreView {
        PreView { label: self.label@, number: self.number }
    }
}

pub open spec fn pre_view(p: Option<PreRelease>) -> Option<PreView> {
    match p {
        Some(q) => Some(q@),
        None => None,
    }
}

impl View for SemVer {
    type V = VersionView;

    open spec fn view(&self) -> VersionView {
        VersionView { major: self.major, minor: self.minor, patch: self.patch, pre: pre_view(self.pre) }
    }
}

pub open spec fn release_view(major: u32, minor: u32, patch: u32) -> VersionView {
    VersionView { major, minor, patch, pre: None }
}

pub open spec fn rc_label() -> Seq<char> {
    seq!['r', 'c']
}

// ---------------------------------------------------------------------------
// Reading a version
// ---------------------------------------------------------------------------

pub open spec fn strip_v(s: Seq<char>) -> Seq<char> {
    if s.len() > 0 && s[0] == 'v' {
        s.drop_first()
    } else {
        s
    }
}

/// `splitn(3, '.')` when it yields exactly three pieces.
pub open spec fn three_fields(s: Seq<char>) -> Option<(Seq<char>, Seq<char>, Seq<char>)> {
    match split_once(s, '.') {
        Some((a, rest)) => match split_once(rest, '.') {
            Some((b, c)) => Some((a, b, c)),
            None => None,
        },
        None => None,
    }
}

/// `MAJOR.MINOR.PATCH`, each part as `u32::from_str` reads it.
pub open spec fn spec_parse_triple(s: Seq<char>) -> Option<(u32, u32, u32)> {
    match three_fields(s) {
        Some((a, b, c)) => match (spec_parse_u32(a), spec_parse_u32(b), spec_parse_u32(c)) {
            (Some(x), Some(y), Some(z)) => Some((x, y, z)),
            _ => None,
        },
        None => None,
    }
}

/// A pre-release number: as `u32::from_str` reads it (`spec_parse_u32`: an
/// optional `+`, then decimal digits that fit), but never with a leading zero
/// (a lone `0` is allowed).
pub open spec fn spec_parse_pre_number(s: Seq<char>) -> Option<u32> {
    if s.len() > 1 && s[0] == '0' {
        None
    } else {
        spec_parse_u32(s)
    }
}

/// `LABEL.N` with a non-empty label (split at the first dot).
pub open spec fn spec_parse_pre(s: Seq<char>) -> Option<PreView> {
    match split_once(s, '.') {
        Some((label, num)) => if label.len() > 0 {
            match spec_parse_pre_number(num) {
                Some(n) => Some(PreView { label, number: n }),
                None => None,
            }
        } else {
            None
        },
        None => None,
    }
}

/// The version that `s` names: an optional leading `v`, then `MAJOR.MINOR.PATCH`,
/// then, after the first `-`, an optional pre-release.
pub open spec fn spec_parse_version(s: Seq<char>) -> Option<VersionView> {
    let t = strip_v(s);
    let (core, pre) = match split_once(t, '-') {
        Some((c, p)) => (c, Some(p)),
        None => (t, None),
    };
    match spec_parse_triple(core) {
        Some((x, y, z)) => match pre {
            None => Some(VersionView { major: x, minor: y, patch: z, pre: None }),
            Some(p) => match spec_parse_pre(p) {
                Some(q) => Some(VersionView { major: x, minor: y, patch: z, pre: Some(q) }),
                None => None,
            },
        },
        None => None,
    }
}

// ---------------------------------------------------------------------------
// Writing a version
// ---------------------------------------------------------------------------

pub open spec fn triple_text(major: u32, minor: u32, patch: u32) -> Seq<char> {
    decimal(major as nat) + seq!['.'] + decimal(minor as nat) + seq!['.'] + decimal(patch as nat)
}

/// `Display` of a version: `M.m.p`, then `-LABEL.N` when it is a pre-release.
pub open spec fn version_text(v: VersionView) -> Seq<char> {
    triple_text(v.major, v.minor, v.patch) + match v.pre {
        Some(p) => seq!['-'] + p.label + seq!['.'] + decimal(p.number as nat),
        None => Seq::empty(),
    }
}

pub open spec fn tag_text(v: VersionView) -> Seq<char> {
    seq!['v'] + version_text(v)
}

pub open spec fn release_branch_text(major: u32, minor: u32, patch: u32) -> Seq<char> {
    "release/"@ + triple_text(major, minor, patch)
}

pub open spec fn hotfix_branch_text(major: u32, minor: u32, patch: u32) -> Seq<char> {
    "hotfix/"@ + triple_text(major, minor, patch)
}

/// A version that its own text reads back as: a pre-release label must be
/// non-empty and free of `.`.
pub open spec fn well_formed(v: VersionView) -> bool {
    match v.pre {
        Some(p) => p.label.len() > 0 && no_char(p.label, '.'),
        None => true,
    }
}

// ---------------------------------------------------------------------------
// Precedence
// ---------------------------------------------------------------------------

/// Lexicographic order of character sequences by code point (the order of
/// `String`'s `Ord`).
pub open spec fn text_lt(a: Seq<char>, b: Seq<char>) -> bool
    decreases a.len(),
{
    if a.len() == 0 {
        b.len() > 0
    } else if b.len() == 0 {
        false
    } else if a[0] != b[0] {
        a[0] < b[0]
    } else {
        text_lt(a.drop_first(), b.drop_first())
    }
}

/// Precedence of versions: by major, minor, patch; a pre-release comes before
/// the release of the same `M.m.p`; pre-releases by label, then number.
pub open spec fn version_lt(a: VersionView, b: VersionView) -> bool {
    if a.major != b.major {
        a.major < b.major
    } else if a.minor != b.minor {
        a.minor < b.minor
    } else if a.patch != b.patch {
        a.patch < b.patch
    } else {
        match (a.pre, b.pre) {
            (Some(x), None) => true,
            (None, _) => false,
            (Some(x), Some(y)) => text_lt(x.label, y.label) || (x.label == y.label && x.number
                < y.number),
        }
    }
}

pub proof fn lemma_text_lt_order(a: Seq<char>, b: Seq<char>, c: Seq<char>)
    ensures
        !text_lt(a, a),
        text_lt(a, b) ==> !text_lt(b, a),
        text_lt(a, b) && text_lt(b, c) ==> text_lt(a, c),
        a != b ==> text_lt(a, b) || text_lt(b, a),
    decreases a.len(),
{
    if a.len() > 0 && b.len() > 0 && c.len() > 0 {
        lemma_text_lt_order(a.drop_first(), b.drop_first(), c.drop_first());
    } else if a.len() > 0 && b.len() > 0 {
        lemma_text_lt_order(a.drop_first(), b.drop_first(), b.drop_first());
    } else if a.len() > 0 {
        lemma_text_lt_order(a.drop_first(), a.drop_first(), a.drop_first());
    }
    if a != b && a.len() > 0 && b.len() > 0 && a[0] == b[0] {
        assert(a.drop_first() != b.drop_first()) by {
            if a.drop_first() == b.drop_first() {
                assert(a =~= seq![a[0]] + a.drop_first());
                assert(b =~= seq![b[0]] + b.drop_first());
            }
        }
    }
    if a != b && a.len() == 0 {
        assert(b.len() > 0) by {
            if b.len() == 0 {
                assert(a =~= b);
            }
        }
    }
}

/// Two texts equal on their first `i` characters compare as their remainders do.
pub proof fn lemma_text_lt_skip(a: Seq<char>, b: Seq<char>, i: int)
    requires
        0 <= i <= a.len(),
        i <= b.len(),
        a.take(i) == b.take(i),
    ensures
        text_lt(a, b) == text_lt(a.skip(i), b.skip(i)),
    decreases i,
{
    if i > 0 {
        assert(a[0] == a.take(i)[0]);
        assert(b[0] == b.take(i)[0]);
        assert(a.drop_first().take(i - 1) =~= a.take(i).drop_first());
        assert(b.drop_first().take(i - 1) =~= b.take(i).drop_first());
        lemma_text_lt_skip(a.drop_first(), b.drop_first(), i - 1);
        assert(a.drop_first().skip(i - 1) =~= a.skip(i));
        assert(b.drop_first().skip(i - 1) =~= b.skip(i));
    } else {
        assert(a.skip(0) =~= a);
        assert(b.skip(0) =~= b);
    }
}

/// Whether `a` comes before `b` in code-point order.
pub fn text_less(a: &str, b: &str) -> (r: bool)
    ensures
        r == text_lt(a@, b@),
{
    let x = chars_of(a);
    let y = chars_of(b);
    let mut i: usize = 0;
    while i < x.len() && i < y.len()
        invariant
            x@ == a@,
            y@ == b@,
            i <= x@.len(),
            i <= y@.len(),
            x@.take(i as int) == y@.take(i as int),
        decreases x.len() - i,
    {
        if x[i] != y[i] {
            proof {
                lemma_text_lt_skip(a@, b@, i as int);
                assert(a@.skip(i as int)[0] == x@[i as int]);
                assert(b@.skip(i as int)[0] == y@[i as int]);
            }
            return x[i] < y[i];
        }
        assert(x@.take(i + 1) =~= x@.take(i as int).push(x@[i as int]));
        assert(y@.take(i + 1) =~= y@.take(i as int).push(y@[i as int]));
        i = i + 1;
    }
    proof {
        lemma_text_lt_skip(a@, b@, i as int);
    }
    x.len() < y.len()
}

/// Version precedence is a strict total order: irreflexive, asymmetric,
/// transitive, and any two different versions are ordered one way or the other.
pub proof fn law_version_order(a: VersionView, b: VersionView, c: VersionView)
    ensures
        !version_lt(a, a),
        version_lt(a, b) ==> !version_lt(b, a),
        version_lt(a, b) && version_lt(b, c) ==> version_lt(a, c),
        a != b ==> version_lt(a, b) || version_lt(b, a),
{
    match (a.pre, b.pre, c.pre) {
        (Some(x), Some(y), Some(z)) => {
            lemma_text_lt_order(x.label, y.label, z.label);
        },
        (Some(x), Some(y), None) => {
            lemma_text_lt_order(x.label, y.label, y.label);
        },
        (Some(x), None, _) => {
            lemma_text_lt_order(x.label, x.label, x.label);
        },
        _ => {},
    }
    if a != b && a.major == b.major && a.minor == b.minor && a.patch == b.patch {
        match (a.pre, b.pre) {
            (Some(x), Some(y)) => {
                if x.label == y.label && x.number == y.number {
                    assert(x == y);
                }
            },
            _ => {},
        }
    }
}

/// A pre-release comes before its release, and each bump comes after the
/// version it bumps (a release-candidate bump only from a pre-release).
pub proof fn law_bumps_increase(v: VersionView)
    ensures
        v.pre is Some ==> version_lt(v, release_view(v.major, v.minor, v.patch)),
        v.major < u32::MAX ==> version_lt(v, release_view((v.major + 1) as u32, 0, 0)),
        v.minor < u32::MAX ==> version_lt(v, release_view(v.major, (v.minor + 1) as u32, 0)),
        v.patch < u32::MAX ==> version_lt(
            v,
            release_view(v.major, v.minor, (v.patch + 1) as u32),
        ),
        v.pre matches Some(p) ==> (p.number < u32::MAX ==> version_lt(
            v,
            VersionView {
                pre: Some(PreView { label: p.label, number: (p.number + 1) as u32 }),
                ..v
            },
        )),
{
    if let Some(p) = v.pre {
        lemma_text_lt_order(p.label, p.label, p.label);
    }
}

pub proof fn lemma_triple_text(major: u32, minor: u32, patch: u32)
    ensures
        spec_parse_triple(triple_text(major, minor, patch)) == Some((major, minor, patch)),
        no_char(triple_text(major, minor, patch), '-'),
        no_char(triple_text(major, minor, patch), '/'),
        triple_text(major, minor, patch).len() > 0,
        triple_text(major, minor, patch)[0] != 'v',
{
    let a = decimal(major as nat);
    let b = decimal(minor as nat);
    let c = decimal(patch as nat);
    lemma_decimal(major as nat);
    lemma_decimal(minor as nat);
    lemma_decimal(patch as nat);
    lemma_parse_decimal(major);
    lemma_parse_decimal(minor);
    lemma_parse_decimal(patch);
    let rest = b + seq!['.'] + c;
    assert(triple_text(major, minor, patch) =~= a + seq!['.'] + rest);
    lemma_split_once_concat(a, '.', rest);
    lemma_split_once_concat(b, '.', c);
    lemma_no_char_concat(b, '.', c, '-');
    lemma_no_char_concat(a, '.', rest, '-');
    lemma_no_char_concat(b, '.', c, '/');
    lemma_no_char_concat(a, '.', rest, '/');
    assert(triple_text(major, minor, patch)[0] == a[0]);
}

/// A version's text reads back as that version, with or without the `v`
/// of its tag.
pub proof fn law_version_text_round_trip(v: VersionView)
    requires
        well_formed(v),
    ensures
        spec_parse_version(version_text(v)) == Some(v),
        spec_parse_version(tag_text(v)) == Some(v),
{
    let tr = triple_text(v.major, v.minor, v.patch);
    lemma_triple_text(v.major, v.minor, v.patch);
    let t = version_text(v);
    assert(tag_text(v).drop_first() =~= t);
    assert(t[0] == tr[0]);
    assert(strip_v(t) == t);
    match v.pre {
        None => {
            assert(t =~= tr);
            lemma_split_once_none(t, '-');
        },
        Some(p) => {
            let num = decimal(p.number as nat);
            lemma_decimal(p.number as nat);
            let pre = p.label + seq!['.'] + num;
            assert(t =~= tr + seq!['-'] + pre);
            lemma_split_once_concat(tr, '-', pre);
            lemma_split_once_concat(p.label, '.', num);
            assert(spec_parse_pre_number(num) == Some(p.number));
            assert(spec_parse_pre(pre) == Some(PreView { label: p.label, number: p.number }));
        },
    }
}

/// A release branch name is `release/` and the text of the version's release.
pub proof fn law_release_branch_is_release_text(v: VersionView)
    ensures
        release_branch_text(v.major, v.minor, v.patch) == "release/"@ + version_text(
            release_view(v.major, v.minor, v.patch),
        ),
        hotfix_branch_text(v.major, v.minor, v.patch) == "hotfix/"@ + version_text(
            release_view(v.major, v.minor, v.patch),
        ),
{
    assert(version_text(release_view(v.major, v.minor, v.patch)) =~= triple_text(
        v.major,
        v.minor,
        v.patch,
    ));
}

impl SemVer {
    pub fn new(major: u32, minor: u32, patch: u32) -> (r: Self)
        ensures
            r@ == release_view(major, minor, patch),
    {
        Self { major, minor, patch, pre: None }
    }

    /// Reads `[v]MAJOR.MINOR.PATCH[-LABEL.N]`; `None` for anything else.
    pub fn parse(s: &str) -> (r: Option<Self>)
        ensures
            r matches Some(v) ==> spec_parse_version(s@) == Some(v@),
            r is None ==> spec_parse_version(s@) is None,
    {
        let chars = chars_of(s);
        let n = chars.len();
        let start: usize = if n > 0 && chars[0] == 'v' {
            1
        } else {
            0
        };
        let ghost t = strip_v(s@);
        assert(t =~= chars@.subrange(start as int, n as int));
        let dash = find_in(&chars, start, n, '-');
        proof {
            lemma_find_char(t, '-');
        }
        let core_end: usize = match dash {
            Some(d) => start + d,
            None => n,
        };
        let ghost core = chars@.subrange(start as int, core_end as int);
        assert(core =~= (match split_once(t, '-') {
            Some((c, p)) => c,
            None => t,
        }));
        let triple = parse_triple_range(&chars, start, core_end);
        let (major, minor, patch) = match triple {
            Some(t3) => t3,
            None => {
                return None;
            },
        };
        match dash {
            None => {
                let r = Self { major, minor, patch, pre: None };
                assert(r@ == spec_parse_version(s@).unwrap());
                Some(r)
            },
            Some(d) => {
                let pre_start = start + d + 1;
                assert(chars@.subrange(pre_start as int, n as int) =~= t.skip(d + 1));
                match parse_pre_range(s, &chars, pre_start, n) {
                    Some(p) => {
                        let r = Self { major, minor, patch, pre: Some(p) };
                        Some(r)
                    },
                    None => None,
                }
            },
        }
    }

    pub fn bump_major(&self) -> (r: Self)
        requires
            self.major < u32::MAX,
        ensures
            r@ == release_view((self.major + 1) as u32, 0, 0),
    {
        Self::new(self.major + 1, 0, 0)
    }

    pub fn bump_minor(&self) -> (r: Self)
        requires
            self.minor < u32::MAX,
        ensures
            r@ == release_view(self.major, (self.minor + 1) as u32, 0),
    {
        Self::new(self.major, self.minor + 1, 0)
    }

    pub fn bump_patch(&self) -> (r: Self)
        requires
            self.patch < u32::MAX,
        ensures
            r@ == release_view(self.major, self.minor, (self.patch + 1) as u32),
    {
        Self::new(self.major, self.minor, self.patch + 1)
    }

    /// The same `M.m.p` as release candidate `number`.
    pub fn with_rc(&self, number: u32) -> (r: Self)
        ensures
            r@ == (VersionView {
                major: self.major,
                minor: self.minor,
                patch: self.patch,
                pre: Some(PreView { label: rc_label(), number }),
            }),
    {
        proof {
            reveal_strlit("rc");
            assert("rc"@ =~= rc_label());
        }
        Self {
            major: self.major,
            minor: self.minor,
            patch: self.patch,
            pre: Some(PreRelease { label: String::from_str("rc"), number }),
        }
    }

    /// The next pre-release of the same label, or release candidate 1 of a
    /// clean version.
    pub fn bump_rc(&self) -> (r: Self)
        requires
            self.pre matches Some(p) ==> p.number < u32::MAX,
        ensures
            r@ == (VersionView {
                major: self.major,
                minor: self.minor,
                patch: self.patch,
                pre: Some(
                    match self@.pre {
                        Some(p) => PreView { label: p.label, number: (p.number + 1) as u32 },
                        None => PreView { label: rc_label(), number: 1 },
                    },
                ),
            }),
    {
        match &self.pre {
            Some(pre) => Self {
                major: self.major,
                minor: self.minor,
                patch: self.patch,
                pre: Some(PreRelease { label: pre.label.clone(), number: pre.number + 1 }),
            },
            None => self.with_rc(1),
        }
    }

    pub fn to_release(&self) -> (r: Self)
        ensures
            r@ == release_view(self.major, self.minor, self.patch),
    {
        Self::new(self.major, self.minor, self.patch)
    }

    pub fn is_pre_release(&self) -> (r: bool)
        ensures
            r == (self@.pre is Some),
    {
        self.pre.is_some()
    }

    /// Whether this is a release candidate: a pre-release labelled `rc`.
    pub fn is_rc(&self) -> (r: bool)
        ensures
            r == (self@.pre matches Some(p) && p.label == rc_label()),
    {
        match &self.pre {
            Some(p) => {
                let chars = chars_of(p.label.as_str());
                proof {
                    reveal_strlit("rc");
                    assert("rc"@ =~= rc_label());
                    assert(chars@.subrange(0, chars@.len() as int) =~= p.label@);
                }
                range_eq(&chars, 0, chars.len(), "rc")
            },
            None => false,
        }
    }

    /// `Display`: `M.m.p`, plus `-LABEL.N` for a pre-release.
    pub fn to_string(&self) -> (r: String)
        ensures
            r@ == version_text(self@),
    {
        let mut out = String::new();
        self.write_to(&mut out);
        assert(out@ =~= version_text(self@));
        out
    }

    fn write_to(&self, out: &mut String)
        ensures
            final(out)@ == old(out)@ + version_text(self@),
    {
        proof {
            reveal_strlit(".");
            reveal_strlit("-");
        }
        push_triple(out, self.major, self.minor, self.patch);
        match &self.pre {
            Some(p) => {
                out.append("-");
                out.append(p.label.as_str());
                out.append(".");
                push_decimal(out, p.number as u64);
            },
            None => {},
        }
        assert(out@ =~= old(out)@ + version_text(self@));
    }

    /// The git tag of this version: `v` and its text.
    pub fn tag_name(&self) -> (r: String)
        ensures
            r@ == tag_text(self@),
    {
        proof {
            reveal_strlit("v");
        }
        let mut out = String::from_str("v");
        self.write_to(&mut out);
        assert(out@ =~= tag_text(self@));
        out
    }

    /// `release/M.m.p` (any pre-release is left out).
    pub fn release_branch(&self) -> (r: String)
        ensures
            r@ == release_branch_text(self.major, self.minor, self.patch),
    {
        let mut out = String::from_str("release/");
        push_triple(&mut out, self.major, self.minor, self.patch);
        assert(out@ =~= release_branch_text(self.major, self.minor, self.patch));
        out
    }

    /// `release-chore/M.m.p/NAME`: a chore branch that lands into the release
    /// branch through a PR.
    pub fn release_chore_branch(&self, name: &str) -> (r: String)
        ensures
            r@ == "release-chore/"@ + triple_text(self.major, self.minor, self.patch) + "/"@ + name@,
    {
        let mut out = String::from_str("release-chore/");
        push_triple(&mut out, self.major, self.minor, self.patch);
        out.append("/");
        out.append(name);
        out
    }

    /// `hotfix/M.m.p` of the release version.
    pub fn hotfix_branch(&self) -> (r: String)
        ensures
            r@ == hotfix_branch_text(self.major, self.minor, self.patch),
    {
        let mut out = String::from_str("hotfix/");
        push_triple(&mut out, self.major, self.minor, self.patch);
        assert(out@ =~= hotfix_branch_text(self.major, self.minor, self.patch));
        out
    }
}

/// Appends `M.m.p`.
pub fn push_triple(out: &mut String, major: u32, minor: u32, patch: u32)
    ensures
        final(out)@ == old(out)@ + triple_text(major, minor, patch),
{
    proof {
        reveal_strlit(".");
    }
    push_decimal(out, major as u64);
    out.append(".");
    push_decimal(out, minor as u64);
    out.append(".");
    push_decimal(out, patch as u64);
    assert(out@ =~= old(out)@ + triple_text(major, minor, patch));
}

/// `spec_parse_triple` of the characters `lo..hi` of `v`.
pub fn parse_triple_range(v: &Vec<char>, lo: usize, hi: usize) -> (r: Option<(u32, u32, u32)>)
    requires
        lo <= hi <= v@.len(),
    ensures
        r == spec_parse_triple(v@.subrange(lo as int, hi as int)),
{
    let ghost s = v@.subrange(lo as int, hi as int);
    let i = match find_in(v, lo, hi, '.') {
        Some(i) => i,
        None => {
            return None;
        },
    };
    let a_end = lo + i;
    let b_start = a_end + 1;
    let ghost rest = s.skip(i + 1);
    assert(rest =~= v@.subrange(b_start as int, hi as int));
    assert(s.take(i as int) =~= v@.subrange(lo as int, a_end as int));
    let j = match find_in(v, b_start, hi, '.') {
        Some(j) => j,
        None => {
            return None;
        },
    };
    let b_end = b_start + j;
    let c_start = b_end + 1;
    assert(rest.take(j as int) =~= v@.subrange(b_start as int, b_end as int));
    assert(rest.skip(j + 1) =~= v@.subrange(c_start as int, hi as int));
    let x = parse_u32_range(v, lo, a_end);
    let y = parse_u32_range(v, b_start, b_end);
    let z = parse_u32_range(v, c_start, hi);
    match (x, y, z) {
        (Some(x), Some(y), Some(z)) => Some((x, y, z)),
        _ => None,
    }
}

/// `spec_parse_pre` of the characters `lo..hi` of `s` (whose characters are `v`).
fn parse_pre_range(s: &str, v: &Vec<char>, lo: usize, hi: usize) -> (r: Option<PreRelease>)
    requires
        v@ == s@,
        lo <= hi <= v@.len(),
    ensures
        r matches Some(p) ==> spec_parse_pre(v@.subrange(lo as int, hi as int)) == Some(p@),
        r is None ==> spec_parse_pre(v@.subrange(lo as int, hi as int)) is None,
{
    let ghost p = v@.subrange(lo as int, hi as int);
    let d = match find_in(v, lo, hi, '.') {
        Some(d) => d,
        None => {
            return None;
        },
    };
    let label_end = lo + d;
    let num_start = label_end + 1;
    assert(p.take(d as int) =~= v@.subrange(lo as int, label_end as int));
    assert(p.skip(d + 1) =~= v@.subrange(num_start as int, hi as int));
    if d == 0 {
        return None;
    }
    let number = match parse_pre_number_range(v, num_start, hi) {
        Some(n) => n,
        None => {
            return None;
        },
    };
    let label = substring(s, lo, label_end);
    Some(PreRelease { label, number })
}

fn parse_pre_number_range(v: &Vec<char>, lo: usize, hi: usize) -> (r: Option<u32>)
    requires
        lo <= hi <= v@.len(),
    ensures
        r == spec_parse_pre_number(v@.subrange(lo as int, hi as int)),
{
    let ghost s = v@.subrange(lo as int, hi as int);
    if lo == hi {
        return None;
    }
    if v[lo] == '0' && hi - lo > 1 {
        return None;
    }
    parse_u32_range(v, lo, hi)
}

} // verus!
