//! The finish-state file: what an interrupted release or hotfix finish needs
//! to resume, written as `key=value` lines.
use vstd::prelude::*;

use crate::git::branch::{BranchType, BranchView};
use crate::lines::{
    first_malformed, keyed, last_value, lemma_first_malformed_push, lemma_last_value_push,
    line_value, read_entry, Entry,
};
use crate::git::branch::{law_versioned_branch_round_trip, spec_parse_branch};
use crate::lines::{entry_line, line_key, malformed};
use crate::text::{
    is_ws, lemma_decimal, lemma_parse_decimal, lemma_split_on_empty, lemma_split_on_line,
    lemma_split_once_concat, lemma_trim_fixed, no_char, no_ws, split_once, trim,
};
use crate::text::{
    chars_of, decimal, line_ranges, parse_u32_range, push_decimal, range_eq, spec_parse_u32,
    split_on, substring,
};
use crate::version::{hotfix_branch_text, lemma_triple_text, push_triple, release_branch_text, spec_parse_triple, triple_text};

verus! {

/// The single state file of earlier versions, in the git directory.
pub const STATE_FILE_NAME: &'static str = "bflow-finish.state";

/// The folder in the git directory that holds one state file per finish.
pub const STATE_DIR_NAME: &'static str = "bflow-finish";

pub const SCHEMA_VERSION: u32 = 1;

#[derive(Debug, Clone, Copy, PartialEq, Eq, Structural)]
pub enum FinishKind {
    Release,
    Hotfix,
}

pub open spec fn kind_text(k: FinishKind) -> Seq<char> {
    match k {
        FinishKind::Release => "release"@,
        FinishKind::Hotfix => "hotfix"@,
    }
}

pub open spec fn spec_parse_kind(s: Seq<char>) -> Option<FinishKind> {
    if s == "release"@ {
        Some(FinishKind::Release)
    } else if s == "hotfix"@ {
        Some(FinishKind::Hotfix)
    } else {
        None
    }
}

impl FinishKind {
    pub fn as_str(&self) -> (r: &'static str)
        ensures
            r@ == kind_text(*self),
    {
        match self {
            FinishKind::Release => "release",
            FinishKind::Hotfix => "hotfix",
        }
    }

    /// The kind named by the characters `lo..hi` of `v`.
    fn parse_range(v: &Vec<char>, lo: usize, hi: usize) -> (r: Option<Self>)
        requires
            lo <= hi <= v@.len(),
        ensures
            r == spec_parse_kind(v@.subrange(lo as int, hi as int)),
    {
        if range_eq(v, lo, hi, "release") {
            Some(FinishKind::Release)
        } else if range_eq(v, lo, hi, "hotfix") {
            Some(FinishKind::Hotfix)
        } else {
            None
        }
    }
}

/// The mathematical content of a `FinishState`.
pub ghost struct StateView {
    pub kind: FinishKind,
    pub major: u32,
    pub minor: u32,
    pub patch: u32,
    pub started_at: Seq<char>,
    pub stash_ref: Option<Seq<char>>,
}

#[derive(Debug, Clone, PartialEq, Eq)]
pub struct FinishState {
    pub kind: FinishKind,
    pub major: u32,
    pub minor: u32,
    pub patch: u32,
    pub started_at: String,
    pub stash_ref: Option<String>,
}

pub open spec fn opt_view(o: Option<String>) -> Option<Seq<char>> {
    match o {
        Some(s) => Some(s@),
        None => None,
    }
}

impl View for FinishState {
    type V = StateView;

    open spec fn view(&self) -> StateView {
        StateView {
            kind: self.kind,
            major: self.major,
            minor: self.minor,
            patch: self.patch,
            started_at: self.started_at@,
            stash_ref: opt_view(self.stash_ref),
        }
    }
}

/// The branch a finish runs from: `release/M.m.p` or `hotfix/M.m.p`.
pub open spec fn source_branch_text(st: StateView) -> Seq<char> {
    match st.kind {
        FinishKind::Release => release_branch_text(st.major, st.minor, st.patch),
        FinishKind::Hotfix => hotfix_branch_text(st.major, st.minor, st.patch),
    }
}

pub open spec fn entry_text(key: Seq<char>, value: Seq<char>) -> Seq<char> {
    key + seq!['='] + value + seq!['\n']
}

/// The file text of a state: one `key=value` line per field, in the order
/// version, kind, major, minor, patch, started_at, then stash_ref when present.
pub open spec fn state_text(st: StateView) -> Seq<char> {
    entry_text("version"@, decimal(1)) + entry_text("kind"@, kind_text(st.kind)) + entry_text(
        "major"@,
        decimal(st.major as nat),
    ) + entry_text("minor"@, decimal(st.minor as nat)) + entry_text(
        "patch"@,
        decimal(st.patch as nat),
    ) + entry_text("started_at"@, st.started_at) + match st.stash_ref {
        Some(r) => entry_text("stash_ref"@, r),
        None => Seq::empty(),
    }
}

pub open spec fn opt_u32(o: Option<Seq<char>>) -> Option<u32> {
    match o {
        Some(v) => spec_parse_u32(v),
        None => None,
    }
}

pub open spec fn opt_kind(o: Option<Seq<char>>) -> Option<FinishKind> {
    match o {
        Some(v) => spec_parse_kind(v),
        None => None,
    }
}

pub open spec fn version_error(v: u32) -> Seq<char> {
    "Unsupported state file version "@ + decimal(v as nat)
        + " (expected 1). Run 'bflow finish --abort' to discard."@
}

/// What reading a state file gives: the first line without `=` is an error;
/// otherwise each field is the last value given for its key, and the first
/// field missing (or unreadable) in the order version, kind, major, minor,
/// patch, started_at is an error, as is a version other than 1.
pub open spec fn spec_parse_state(s: Seq<char>) -> Result<StateView, Seq<char>> {
    let lines = split_on(s, '\n');
    match first_malformed(lines) {
        Some(l) => Err("Malformed state line: "@ + l),
        None => {
            let version = opt_u32(last_value(lines, "version"@));
            let kind = opt_kind(last_value(lines, "kind"@));
            let major = opt_u32(last_value(lines, "major"@));
            let minor = opt_u32(last_value(lines, "minor"@));
            let patch = opt_u32(last_value(lines, "patch"@));
            let started_at = last_value(lines, "started_at"@);
            if version is None {
                Err("Missing version in state file"@)
            } else if version.unwrap() != 1 {
                Err(version_error(version.unwrap()))
            } else if kind is None {
                Err("Missing/invalid kind in state file"@)
            } else if major is None {
                Err("Missing major in state file"@)
            } else if minor is None {
                Err("Missing minor in state file"@)
            } else if patch is None {
                Err("Missing patch in state file"@)
            } else if started_at is None {
                Err("Missing started_at in state file"@)
            } else {
                Ok(
                    StateView {
                        kind: kind.unwrap(),
                        major: major.unwrap(),
                        minor: minor.unwrap(),
                        patch: patch.unwrap(),
                        started_at: started_at.unwrap(),
                        stash_ref: last_value(lines, "stash_ref"@),
                    },
                )
            }
        },
    }
}

fn message(text: &str) -> (r: String)
    ensures
        r@ == text@,
{
    String::from_str(text)
}

/// Appends `key=value\n`.
fn push_entry(out: &mut String, key: &str, value: &str)
    ensures
        final(out)@ == old(out)@ + entry_text(key@, value@),
{
    proof {
        reveal_strlit("=");
        reveal_strlit("\n");
    }
    out.append(key);
    out.append("=");
    out.append(value);
    out.append("\n");
    assert(out@ =~= old(out)@ + entry_text(key@, value@));
}

impl FinishState {
    /// The branch this finish runs from.
    pub fn source_branch(&self) -> (r: String)
        ensures
            r@ == source_branch_text(self@),
    {
        let mut out = match self.kind {
            FinishKind::Release => String::from_str("release/"),
            FinishKind::Hotfix => String::from_str("hotfix/"),
        };
        push_triple(&mut out, self.major, self.minor, self.patch);
        out
    }

    /// The text of the state file.
    pub fn serialize(&self) -> (r: String)
        ensures
            r@ == state_text(self@),
    {
        let mut out = String::new();
        push_entry(&mut out, "version", decimal_str(1).as_str());
        push_entry(&mut out, "kind", self.kind.as_str());
        push_entry(&mut out, "major", decimal_str(self.major).as_str());
        push_entry(&mut out, "minor", decimal_str(self.minor).as_str());
        push_entry(&mut out, "patch", decimal_str(self.patch).as_str());
        push_entry(&mut out, "started_at", self.started_at.as_str());
        match &self.stash_ref {
            Some(r) => push_entry(&mut out, "stash_ref", r.as_str()),
            None => {},
        }
        assert(out@ =~= state_text(self@));
        out
    }

    /// Reads a state file's text.
    pub fn parse(contents: &str) -> (r: Result<Self, String>)
        ensures
            r matches Ok(st) ==> spec_parse_state(contents@) == Ok::<StateView, Seq<char>>(st@),
            r matches Err(e) ==> spec_parse_state(contents@) == Err::<StateView, Seq<char>>(e@),
    {
        let v = chars_of(contents);
        let ranges = line_ranges(&v);
        let ghost lines = split_on(v@, '\n');
        let mut version: Option<u32> = None;
        let mut kind: Option<FinishKind> = None;
        let mut major: Option<u32> = None;
        let mut minor: Option<u32> = None;
        let mut patch: Option<u32> = None;
        let mut started_at: Option<String> = None;
        let mut stash_ref: Option<String> = None;
        let mut i: usize = 0;
        assert(lines.take(0) =~= Seq::<Seq<char>>::empty());
        while i < ranges.len()
            invariant
                v@ == contents@,
                lines == split_on(v@, '\n'),
                ranges@.len() == lines.len(),
                forall|j: int|
                    0 <= j < ranges@.len() ==> {
                        &&& (#[trigger] ranges@[j]).0 <= ranges@[j].1 <= v@.len()
                        &&& v@.subrange(ranges@[j].0 as int, ranges@[j].1 as int) == lines[j]
                    },
                i <= ranges@.len(),
                first_malformed(lines.take(i as int)) is None,
                version == opt_u32(last_value(lines.take(i as int), "version"@)),
                kind == opt_kind(last_value(lines.take(i as int), "kind"@)),
                major == opt_u32(last_value(lines.take(i as int), "major"@)),
                minor == opt_u32(last_value(lines.take(i as int), "minor"@)),
                patch == opt_u32(last_value(lines.take(i as int), "patch"@)),
                opt_view(started_at) == last_value(lines.take(i as int), "started_at"@),
                opt_view(stash_ref) == last_value(lines.take(i as int), "stash_ref"@),
            decreases ranges@.len() - i,
        {
            let (lo, hi) = ranges[i];
            let ghost l = lines[i as int];
            let ghost before = lines.take(i as int);
            assert(lines.take(i + 1) =~= before.push(l));
            proof {
                lemma_first_malformed_push(before, l);
                lemma_last_value_push(before, l, "version"@);
                lemma_last_value_push(before, l, "kind"@);
                lemma_last_value_push(before, l, "major"@);
                lemma_last_value_push(before, l, "minor"@);
                lemma_last_value_push(before, l, "patch"@);
                lemma_last_value_push(before, l, "started_at"@);
                lemma_last_value_push(before, l, "stash_ref"@);
            }
            match read_entry(&v, lo, hi) {
                Entry::Skip => {},
                Entry::Malformed { lo: a, hi: b } => {
                    proof {
                        lemma_first_malformed_prefix(lines, i as int + 1);
                        assert(lines.take(i + 1).add(lines.skip(i + 1)) =~= lines);
                    }
                    let mut e = message("Malformed state line: ");
                    e.append(substring(contents, a, b).as_str());
                    return Err(e);
                },
                Entry::Pair { key_lo, key_hi, val_lo, val_hi } => {
                    assert(line_value(l) == v@.subrange(val_lo as int, val_hi as int));
                    if range_eq(&v, key_lo, key_hi, "version") {
                        version = parse_u32_range(&v, val_lo, val_hi);
                    }
                    if range_eq(&v, key_lo, key_hi, "kind") {
                        kind = FinishKind::parse_range(&v, val_lo, val_hi);
                    }
                    if range_eq(&v, key_lo, key_hi, "major") {
                        major = parse_u32_range(&v, val_lo, val_hi);
                    }
                    if range_eq(&v, key_lo, key_hi, "minor") {
                        minor = parse_u32_range(&v, val_lo, val_hi);
                    }
                    if range_eq(&v, key_lo, key_hi, "patch") {
                        patch = parse_u32_range(&v, val_lo, val_hi);
                    }
                    if range_eq(&v, key_lo, key_hi, "started_at") {
                        started_at = Some(substring(contents, val_lo, val_hi));
                    }
                    if range_eq(&v, key_lo, key_hi, "stash_ref") {
                        stash_ref = Some(substring(contents, val_lo, val_hi));
                    }
                },
            }
            i = i + 1;
        }
        assert(lines.take(i as int) =~= lines);
        let version = match version {
            Some(n) => n,
            None => {
                return Err(message("Missing version in state file"));
            },
        };
        if version != SCHEMA_VERSION {
            proof {
                reveal_strlit(" (expected 1). Run 'bflow finish --abort' to discard.");
            }
            let mut e = message("Unsupported state file version ");
            push_decimal(&mut e, version as u64);
            e.append(" (expected 1). Run 'bflow finish --abort' to discard.");
            assert(e@ =~= version_error(version));
            return Err(e);
        }
        let kind = match kind {
            Some(k) => k,
            None => {
                return Err(message("Missing/invalid kind in state file"));
            },
        };
        let major = match major {
            Some(n) => n,
            None => {
                return Err(message("Missing major in state file"));
            },
        };
        let minor = match minor {
            Some(n) => n,
            None => {
                return Err(message("Missing minor in state file"));
            },
        };
        let patch = match patch {
            Some(n) => n,
            None => {
                return Err(message("Missing patch in state file"));
            },
        };
        let started_at = match started_at {
            Some(s) => s,
            None => {
                return Err(message("Missing started_at in state file"));
            },
        };
        Ok(FinishState { kind, major, minor, patch, started_at, stash_ref })
    }
}

/// A value that a state line carries unchanged: no newline, and no
/// whitespace at either end.
pub open spec fn clean_value(s: Seq<char>) -> bool {
    no_char(s, '\n') && (s.len() == 0 || (!is_ws(s[0]) && !is_ws(s.last())))
}

/// A key as the state file writes it.
pub open spec fn clean_key(k: Seq<char>) -> bool {
    k.len() > 0 && no_char(k, '=') && no_char(k, '\n') && no_ws(k) && k[0] != '#'
}

pub(crate) proof fn lemma_entry_line(key: Seq<char>, value: Seq<char>)
    requires
        clean_key(key),
        clean_value(value),
    ensures
        ({
            let l = key + seq!['='] + value;
            &&& no_char(l, '\n')
            &&& entry_line(l)
            &&& !malformed(l)
            &&& split_once(trim(l), '=') is Some
            &&& line_key(l) == key
            &&& line_value(l) == value
        }),
{
    let l = key + seq!['='] + value;
    assert forall|j: int| 0 <= j < l.len() implies #[trigger] l[j] != '\n' by {
        if j < key.len() {
            assert(l[j] == key[j]);
        } else if j > key.len() {
            assert(l[j] == value[j - key.len() - 1]);
        }
    }
    assert(l[0] == key[0]);
    assert(!is_ws(key[0]));
    if value.len() > 0 {
        assert(l.last() == value.last());
    } else {
        assert(l.last() == '=');
    }
    lemma_trim_fixed(l);
    lemma_split_once_concat(key, '=', value);
    lemma_trim_fixed(key);
    lemma_trim_fixed(value);
}

proof fn lemma_decimal_clean(n: nat)
    ensures
        clean_value(decimal(n)),
{
    lemma_decimal(n);
    assert(!is_ws(decimal(n)[0]));
    assert(!is_ws(decimal(n).last()));
}

pub open spec fn state_line(key: Seq<char>, value: Seq<char>) -> Seq<char> {
    key + seq!['='] + value
}

/// The `\n`-separated pieces of a state's text: one per field, then the
/// empty piece after the last newline.
pub open spec fn state_lines(st: StateView) -> Seq<Seq<char>> {
    let head = seq![
        state_line("version"@, decimal(1)),
        state_line("kind"@, kind_text(st.kind)),
        state_line("major"@, decimal(st.major as nat)),
        state_line("minor"@, decimal(st.minor as nat)),
        state_line("patch"@, decimal(st.patch as nat)),
        state_line("started_at"@, st.started_at),
    ];
    match st.stash_ref {
        Some(r) => head.push(state_line("stash_ref"@, r)).push(Seq::empty()),
        None => head.push(Seq::empty()),
    }
}

pub(crate) proof fn lemma_keyed_line(key: Seq<char>, value: Seq<char>, other: Seq<char>)
    requires
        clean_key(key),
        clean_value(value),
    ensures
        keyed(state_line(key, value), key),
        line_value(state_line(key, value)) == value,
        key != other ==> !keyed(state_line(key, value), other),
        !malformed(state_line(key, value)),
        no_char(state_line(key, value), '\n'),
{
    lemma_entry_line(key, value);
}

proof fn lemma_state_values_clean(st: StateView)
    requires
        clean_value(st.started_at),
        st.stash_ref matches Some(r) ==> clean_value(r),
    ensures
        clean_key("version"@),
        clean_key("kind"@),
        clean_key("major"@),
        clean_key("minor"@),
        clean_key("patch"@),
        clean_key("started_at"@),
        clean_key("stash_ref"@),
        clean_value(decimal(1)),
        clean_value(kind_text(st.kind)),
        clean_value(decimal(st.major as nat)),
        clean_value(decimal(st.minor as nat)),
        clean_value(decimal(st.patch as nat)),
        "version"@ != "kind"@ && "version"@ != "major"@ && "version"@ != "minor"@ && "version"@
            != "patch"@ && "version"@ != "started_at"@ && "version"@ != "stash_ref"@,
        "kind"@ != "major"@ && "kind"@ != "minor"@ && "kind"@ != "patch"@ && "kind"@
            != "started_at"@ && "kind"@ != "stash_ref"@,
        "major"@ != "minor"@ && "major"@ != "patch"@ && "major"@ != "started_at"@ && "major"@
            != "stash_ref"@,
        "minor"@ != "patch"@ && "minor"@ != "started_at"@ && "minor"@ != "stash_ref"@,
        "patch"@ != "started_at"@ && "patch"@ != "stash_ref"@,
        "started_at"@ != "stash_ref"@,
{
    reveal_strlit("version");
    reveal_strlit("kind");
    reveal_strlit("major");
    reveal_strlit("minor");
    reveal_strlit("patch");
    reveal_strlit("started_at");
    reveal_strlit("stash_ref");
    reveal_strlit("release");
    reveal_strlit("hotfix");
    assert("major"@[1] != "minor"@[1]);
    assert("major"@[0] != "patch"@[0]);
    assert("minor"@[0] != "patch"@[0]);
    lemma_decimal_clean(1);
    lemma_decimal_clean(st.major as nat);
    lemma_decimal_clean(st.minor as nat);
    lemma_decimal_clean(st.patch as nat);
}

proof fn lemma_state_split(st: StateView)
    requires
        clean_value(st.started_at),
        st.stash_ref matches Some(r) ==> clean_value(r),
    ensures
        split_on(state_text(st), '\n') == state_lines(st),
{
    lemma_state_values_clean(st);
    let k = kind_text(st.kind);
    let l1 = state_line("version"@, decimal(1));
    let l2 = state_line("kind"@, k);
    let l3 = state_line("major"@, decimal(st.major as nat));
    let l4 = state_line("minor"@, decimal(st.minor as nat));
    let l5 = state_line("patch"@, decimal(st.patch as nat));
    let l6 = state_line("started_at"@, st.started_at);
    lemma_keyed_line("version"@, decimal(1), "version"@);
    lemma_keyed_line("kind"@, k, "kind"@);
    lemma_keyed_line("major"@, decimal(st.major as nat), "major"@);
    lemma_keyed_line("minor"@, decimal(st.minor as nat), "minor"@);
    lemma_keyed_line("patch"@, decimal(st.patch as nat), "patch"@);
    lemma_keyed_line("started_at"@, st.started_at, "started_at"@);
    let nl = seq!['\n'];
    let tail: Seq<char> = match st.stash_ref {
        Some(r) => entry_text("stash_ref"@, r),
        None => Seq::empty(),
    };
    lemma_split_on_empty('\n');
    match st.stash_ref {
        Some(r) => {
            let l7 = state_line("stash_ref"@, r);
            lemma_keyed_line("stash_ref"@, r, "stash_ref"@);
            assert(tail =~= l7 + nl + Seq::<char>::empty());
            lemma_split_on_line(l7, Seq::<char>::empty());
        },
        None => {},
    }
    let t6 = l6 + nl + tail;
    lemma_split_on_line(l6, tail);
    let t5 = l5 + nl + t6;
    lemma_split_on_line(l5, t6);
    let t4 = l4 + nl + t5;
    lemma_split_on_line(l4, t5);
    let t3 = l3 + nl + t4;
    lemma_split_on_line(l3, t4);
    let t2 = l2 + nl + t3;
    lemma_split_on_line(l2, t3);
    let t1 = l1 + nl + t2;
    lemma_split_on_line(l1, t2);
    assert(state_text(st) =~= t1);
    assert(split_on(state_text(st), '\n') =~= state_lines(st));
}

proof fn lemma_state_lines_read(st: StateView)
    requires
        clean_value(st.started_at),
        st.stash_ref matches Some(r) ==> clean_value(r),
    ensures
        first_malformed(state_lines(st)) is None,
        last_value(state_lines(st), "version"@) == Some(decimal(1)),
        last_value(state_lines(st), "kind"@) == Some(kind_text(st.kind)),
        last_value(state_lines(st), "major"@) == Some(decimal(st.major as nat)),
        last_value(state_lines(st), "minor"@) == Some(decimal(st.minor as nat)),
        last_value(state_lines(st), "patch"@) == Some(decimal(st.patch as nat)),
        last_value(state_lines(st), "started_at"@) == Some(st.started_at),
        last_value(state_lines(st), "stash_ref"@) == st.stash_ref,
{
    broadcast use crate::lines::lemma_last_value_push, crate::lines::lemma_first_malformed_push;

    lemma_state_values_clean(st);
    let k = kind_text(st.kind);
    let keys = seq!["version"@, "kind"@, "major"@, "minor"@, "patch"@, "started_at"@, "stash_ref"@];
    assert forall|j: int| 0 <= j < 7 implies {
        &&& keyed(state_line("version"@, decimal(1)), #[trigger] keys[j]) <==> j == 0
        &&& keyed(state_line("kind"@, k), keys[j]) <==> j == 1
        &&& keyed(state_line("major"@, decimal(st.major as nat)), keys[j]) <==> j == 2
        &&& keyed(state_line("minor"@, decimal(st.minor as nat)), keys[j]) <==> j == 3
        &&& keyed(state_line("patch"@, decimal(st.patch as nat)), keys[j]) <==> j == 4
        &&& keyed(state_line("started_at"@, st.started_at), keys[j]) <==> j == 5
    } by {
        lemma_keyed_line("version"@, decimal(1), keys[j]);
        lemma_keyed_line("kind"@, k, keys[j]);
        lemma_keyed_line("major"@, decimal(st.major as nat), keys[j]);
        lemma_keyed_line("minor"@, decimal(st.minor as nat), keys[j]);
        lemma_keyed_line("patch"@, decimal(st.patch as nat), keys[j]);
        lemma_keyed_line("started_at"@, st.started_at, keys[j]);
    }
    if let Some(r) = st.stash_ref {
        assert forall|j: int| 0 <= j < 7 implies keyed(
            state_line("stash_ref"@, r),
            #[trigger] keys[j],
        ) <==> j == 6 by {
            lemma_keyed_line("stash_ref"@, r, keys[j]);
        }
    }
    assert(!entry_line(Seq::<char>::empty()));
    assert(!malformed(Seq::<char>::empty()));
    lemma_keyed_line("version"@, decimal(1), "version"@);
    lemma_keyed_line("kind"@, k, "kind"@);
    lemma_keyed_line("major"@, decimal(st.major as nat), "major"@);
    lemma_keyed_line("minor"@, decimal(st.minor as nat), "minor"@);
    lemma_keyed_line("patch"@, decimal(st.patch as nat), "patch"@);
    lemma_keyed_line("started_at"@, st.started_at, "started_at"@);
    let e = Seq::<Seq<char>>::empty();
    let p1 = e.push(state_line("version"@, decimal(1)));
    let p2 = p1.push(state_line("kind"@, k));
    let p3 = p2.push(state_line("major"@, decimal(st.major as nat)));
    let p4 = p3.push(state_line("minor"@, decimal(st.minor as nat)));
    let p5 = p4.push(state_line("patch"@, decimal(st.patch as nat)));
    let p6 = p5.push(state_line("started_at"@, st.started_at));
    assert(first_malformed(e) is None);
    assert(first_malformed(p1) is None);
    assert(first_malformed(p2) is None);
    assert(first_malformed(p3) is None);
    assert(first_malformed(p4) is None);
    assert(first_malformed(p5) is None);
    assert(first_malformed(p6) is None);
    assert(keys[0] == "version"@);
    assert(keys[1] == "kind"@);
    assert(keys[2] == "major"@);
    assert(keys[3] == "minor"@);
    assert(keys[4] == "patch"@);
    assert(keys[5] == "started_at"@);
    assert(keys[6] == "stash_ref"@);
    assert(last_value(p1, "version"@) == Some(decimal(1)));
    assert(last_value(p6, "version"@) == Some(decimal(1)));
    if let Some(r) = st.stash_ref {
        lemma_keyed_line("stash_ref"@, r, "stash_ref"@);
        let p7 = p6.push(state_line("stash_ref"@, r));
        assert(first_malformed(p7) is None);
        assert(last_value(p7, "version"@) == Some(decimal(1)));
        assert(state_lines(st) =~= p7.push(Seq::empty()));
    } else {
        assert(state_lines(st) =~= p6.push(Seq::empty()));
    }
}

/// A state reads back from the text `serialize` writes, for every state whose
/// `started_at` and `stash_ref` are free of newlines and of whitespace at
/// either end.
pub proof fn law_state_round_trip(st: StateView)
    requires
        clean_value(st.started_at),
        st.stash_ref matches Some(r) ==> clean_value(r),
    ensures
        spec_parse_state(state_text(st)) == Ok::<StateView, Seq<char>>(st),
{
    lemma_state_split(st);
    lemma_state_lines_read(st);
    lemma_parse_decimal(1);
    lemma_parse_decimal(st.major);
    lemma_parse_decimal(st.minor);
    lemma_parse_decimal(st.patch);
    reveal_strlit("release");
    reveal_strlit("hotfix");
    assert(spec_parse_kind(kind_text(st.kind)) == Some(st.kind));
}

/// A finish's source branch is a release or hotfix branch of its kind and
/// version, so the resume lookup (`finish_identity` of the branch) finds it.
pub proof fn law_source_branch_identity(st: StateView)
    ensures
        spec_parse_branch(source_branch_text(st)) == (match st.kind {
            FinishKind::Release => BranchView::Release(st.major, st.minor, st.patch),
            FinishKind::Hotfix => BranchView::Hotfix(st.major, st.minor, st.patch),
        }),
{
    law_versioned_branch_round_trip(st.major, st.minor, st.patch);
}

/// The decimal text of `n`.
fn decimal_str(n: u32) -> (r: String)
    ensures
        r@ == decimal(n as nat),
{
    crate::text::decimal_string(n as u64)
}

/// A malformed line among the first `k` lines is the first malformed line.
proof fn lemma_first_malformed_prefix(lines: Seq<Seq<char>>, k: int)
    requires
        0 <= k <= lines.len(),
        first_malformed(lines.take(k)) is Some,
    ensures
        first_malformed(lines) == first_malformed(lines.take(k)),
    decreases k,
{
    if k > 0 && lines.len() > 0 {
        assert(lines.take(k)[0] == lines[0]);
        if !crate::lines::malformed(lines[0]) {
            assert(lines.take(k).drop_first() =~= lines.drop_first().take(k - 1));
            lemma_first_malformed_prefix(lines.drop_first(), k - 1);
        }
    }
}

/// `SystemTime::now()` as whole seconds since the Unix epoch, 0 when the
/// clock reads earlier. Nothing is claimed of the value: it is the time.
#[verifier::external_body]
fn unix_seconds() -> (r: u64) {
    match std::time::SystemTime::now().duration_since(std::time::UNIX_EPOCH) {
        Ok(d) => d.as_secs(),
        Err(_) => 0,
    }
}

/// The current time as decimal seconds since the Unix epoch.
pub fn current_timestamp() -> (r: String)
    ensures
        exists|n: nat| r@ == #[trigger] decimal(n),
{
    let secs = unix_seconds();
    let r = crate::text::decimal_string(secs);
    assert(r@ == decimal(secs as nat));
    r
}

/// The name of the state file of the finish `kind major.minor.patch`.
pub open spec fn state_file_text(kind: FinishKind, major: u32, minor: u32, patch: u32) -> Seq<char> {
    kind_text(kind) + "-"@ + triple_text(major, minor, patch) + ".state"@
}

pub fn state_file_name(kind: FinishKind, major: u32, minor: u32, patch: u32) -> (r: String)
    ensures
        r@ == state_file_text(kind, major, minor, patch),
{
    let mut s = String::from_str(kind.as_str());
    s.append("-");
    push_triple(&mut s, major, minor, patch);
    s.append(".state");
    s
}

/// Each finish has its own state file: two finishes in progress at once
/// never share one.
pub proof fn law_state_files_distinct(
    k1: FinishKind,
    a1: u32,
    b1: u32,
    c1: u32,
    k2: FinishKind,
    a2: u32,
    b2: u32,
    c2: u32,
)
    requires
        state_file_text(k1, a1, b1, c1) == state_file_text(k2, a2, b2, c2),
    ensures
        k1 == k2 && a1 == a2 && b1 == b2 && c1 == c2,
{
    reveal_strlit("release");
    reveal_strlit("hotfix");
    reveal_strlit("-");
    reveal_strlit(".state");
    let s1 = state_file_text(k1, a1, b1, c1);
    let s2 = state_file_text(k2, a2, b2, c2);
    // The kind is told by the first character.
    assert(s1[0] == kind_text(k1)[0]);
    assert(s2[0] == kind_text(k2)[0]);
    assert(k1 == k2);
    // Between the kind and `.state` stands the version.
    let t1 = triple_text(a1, b1, c1);
    let t2 = triple_text(a2, b2, c2);
    let lo = kind_text(k1).len() + 1;
    assert(s1.subrange(lo as int, s1.len() - 6) =~= t1);
    assert(s2.subrange(lo as int, s2.len() - 6) =~= t2);
    lemma_triple_text(a1, b1, c1);
    lemma_triple_text(a2, b2, c2);
    assert(spec_parse_triple(t1) == spec_parse_triple(t2));
}

impl FinishState {
    /// The single state file of earlier versions: `STATE_FILE_NAME` in the
    /// git directory, read once to move it to its own file.
    pub fn legacy_path(git_dir: &str) -> String {
        crate::paths::path_join(git_dir, STATE_FILE_NAME)
    }

    /// The folder of the per-finish state files, `STATE_DIR_NAME` in the git
    /// directory.
    pub fn dir(git_dir: &str) -> String {
        crate::paths::path_join(git_dir, STATE_DIR_NAME)
    }

    /// Where the state of the finish `kind major.minor.patch` lives: its own
    /// file in the state folder.
    pub fn path_for(git_dir: &str, kind: FinishKind, major: u32, minor: u32, patch: u32) -> String {
        let name = state_file_name(kind, major, minor, patch);
        crate::paths::path_join(Self::dir(git_dir).as_str(), name.as_str())
    }

    /// Where this finish's state lives.
    pub fn path(&self, git_dir: &str) -> String {
        Self::path_for(git_dir, self.kind, self.major, self.minor, self.patch)
    }
}

/// The finish a branch can carry state for: release and hotfix branches,
/// identified by kind and version.
pub fn finish_identity(branch_type: &BranchType) -> (r: Option<(FinishKind, u32, u32, u32)>)
    ensures
        r == (match branch_type@ {
            BranchView::Release(x, y, z) => Some((FinishKind::Release, x, y, z)),
            BranchView::Hotfix(x, y, z) => Some((FinishKind::Hotfix, x, y, z)),
            _ => None,
        }),
{
    match branch_type {
        BranchType::Release { major, minor, patch } => Some(
            (FinishKind::Release, *major, *minor, *patch),
        ),
        BranchType::Hotfix { major, minor, patch } => Some(
            (FinishKind::Hotfix, *major, *minor, *patch),
        ),
        _ => None,
    }
}

} // verus!
