//! The repository policy file, `.bflow/config`: landing mode, whether release
//! branches survive a finish, and the bump strategy.
use vstd::prelude::*;

use crate::lines::{entry_line, last_value, line_key, line_value, malformed, read_entry, Entry};
use crate::text::{chars_of, line_ranges, range_eq, split_on, substring, trim, lemma_split_on_line, lemma_split_on_empty};
use crate::state::{clean_key, clean_value, lemma_keyed_line, state_line};

verus! {

#[derive(Debug, Clone, Copy, PartialEq, Eq, Structural)]
pub enum Mode {
    Free,
    Protected,
}

#[derive(Debug, Clone, Copy, PartialEq, Eq, Structural)]
pub enum BumpStrategy {
    Rc,
    Patch,
}

#[derive(Debug, Clone, Copy, PartialEq, Eq, Structural)]
pub struct RepoConfig {
    pub mode: Mode,
    pub keep_release_branches: bool,
    pub bump_strategy: BumpStrategy,
}

pub open spec fn default_config() -> RepoConfig {
    RepoConfig { mode: Mode::Free, keep_release_branches: false, bump_strategy: BumpStrategy::Rc }
}

impl Default for RepoConfig {
    fn default() -> (r: Self)
        ensures
            r == default_config(),
    {
        RepoConfig { mode: Mode::Free, keep_release_branches: false, bump_strategy: BumpStrategy::Rc }
    }
}

pub open spec fn mode_error(value: Seq<char>) -> Seq<char> {
    "Invalid mode '"@ + value + "' in .bflow/config. Use 'mode=free' or 'mode=protected'."@
}

pub open spec fn bump_error(value: Seq<char>) -> Seq<char> {
    "Invalid bump-strategy '"@ + value
        + "' in .bflow/config. Use 'bump-strategy=rc' or 'bump-strategy=patch'."@
}

pub open spec fn keep_error(value: Seq<char>) -> Seq<char> {
    "Invalid keep-release-branches '"@ + value + "' in .bflow/config. Use 'true' or 'false'."@
}

/// The error a line of the policy file raises: a line without `=`, or a
/// known key with a value outside its choices. Unknown keys raise none.
pub open spec fn config_line_error(l: Seq<char>) -> Option<Seq<char>> {
    if malformed(l) {
        Some("Malformed line in .bflow/config: "@ + trim(l))
    } else if entry_line(l) {
        let key = line_key(l);
        let value = line_value(l);
        if key == "mode"@ && value != "free"@ && value != "protected"@ {
            Some(mode_error(value))
        } else if key == "bump-strategy"@ && value != "rc"@ && value != "patch"@ {
            Some(bump_error(value))
        } else if key == "keep-release-branches"@ && value != "true"@ && value != "false"@ {
            Some(keep_error(value))
        } else {
            None
        }
    } else {
        None
    }
}

/// The error of the first line that raises one.
pub open spec fn first_config_error(lines: Seq<Seq<char>>) -> Option<Seq<char>>
    decreases lines.len(),
{
    if lines.len() == 0 {
        None
    } else if config_line_error(lines[0]) is Some {
        config_line_error(lines[0])
    } else {
        first_config_error(lines.drop_first())
    }
}

/// What reading the policy file gives: the first line's error, else the
/// defaults overridden by the last value given for each key.
pub open spec fn spec_parse_config(s: Seq<char>) -> Result<RepoConfig, Seq<char>> {
    let lines = split_on(s, '\n');
    match first_config_error(lines) {
        Some(e) => Err(e),
        None => Ok(
            RepoConfig {
                mode: if last_value(lines, "mode"@) == Some("protected"@) {
                    Mode::Protected
                } else {
                    Mode::Free
                },
                keep_release_branches: last_value(lines, "keep-release-branches"@) == Some(
                    "true"@,
                ),
                bump_strategy: if last_value(lines, "bump-strategy"@) == Some("patch"@) {
                    BumpStrategy::Patch
                } else {
                    BumpStrategy::Rc
                },
            },
        ),
    }
}

proof fn lemma_first_config_error_push(a: Seq<Seq<char>>, l: Seq<char>)
    ensures
        first_config_error(a.push(l)) == (if first_config_error(a) is Some {
            first_config_error(a)
        } else {
            config_line_error(l)
        }),
    decreases a.len(),
{
    if a.len() > 0 {
        assert(a.push(l).drop_first() =~= a.drop_first().push(l));
        assert(a.push(l)[0] == a[0]);
        lemma_first_config_error_push(a.drop_first(), l);
    } else {
        assert(a.push(l).drop_first() =~= Seq::<Seq<char>>::empty());
        assert(a.push(l)[0] == l);
        assert(first_config_error(a.push(l).drop_first()) is None);
    }
}

proof fn lemma_first_config_error_prefix(lines: Seq<Seq<char>>, k: int)
    requires
        0 <= k <= lines.len(),
        first_config_error(lines.take(k)) is Some,
    ensures
        first_config_error(lines) == first_config_error(lines.take(k)),
    decreases k,
{
    if k > 0 && lines.len() > 0 {
        assert(lines.take(k)[0] == lines[0]);
        if config_line_error(lines[0]) is None {
            assert(lines.take(k).drop_first() =~= lines.drop_first().take(k - 1));
            lemma_first_config_error_prefix(lines.drop_first(), k - 1);
        }
    }
}

/// Appends the three pieces of an invalid-value message.
fn value_error(head: &str, value: String, tail: &str) -> (r: String)
    ensures
        r@ == head@ + value@ + tail@,
{
    let mut e = String::from_str(head);
    e.append(value.as_str());
    e.append(tail);
    e
}

/// Reads the text of `.bflow/config`.
pub fn parse(contents: &str) -> (r: Result<RepoConfig, String>)
    ensures
        r matches Ok(c) ==> spec_parse_config(contents@) == Ok::<RepoConfig, Seq<char>>(c),
        r matches Err(e) ==> spec_parse_config(contents@) == Err::<RepoConfig, Seq<char>>(e@),
{
    proof {
        reveal_strlit("mode");
        reveal_strlit("bump-strategy");
        reveal_strlit("keep-release-branches");
        reveal_strlit("free");
        reveal_strlit("protected");
        reveal_strlit("rc");
        reveal_strlit("patch");
        reveal_strlit("true");
        reveal_strlit("false");
    }
    let v = chars_of(contents);
    let ranges = line_ranges(&v);
    let ghost lines = split_on(v@, '\n');
    let mut config = RepoConfig::default();
    let mut i: usize = 0;
    assert(lines.take(0) =~= Seq::<Seq<char>>::empty());
    while i < ranges.len()
        invariant
            v@ == contents@,
            lines == split_on(v@, '\n'),
            ranges@.len() == lines.len(),
            forall|j: int|
                0 <= j < ranges@.len() ==> {
                    &&& (#[trigger] ranges@[j]).0 <= ranges@[j].1 <= v@.len()
                    &&& v@.subrange(ranges@[j].0 as int, ranges@[j].1 as int) == lines[j]
                },
            i <= ranges@.len(),
            first_config_error(lines.take(i as int)) is None,
            config.mode == (if last_value(lines.take(i as int), "mode"@) == Some("protected"@) {
                Mode::Protected
            } else {
                Mode::Free
            }),
            config.keep_release_branches == (last_value(
                lines.take(i as int),
                "keep-release-branches"@,
            ) == Some("true"@)),
            config.bump_strategy == (if last_value(lines.take(i as int), "bump-strategy"@) == Some(
                "patch"@,
            ) {
                BumpStrategy::Patch
            } else {
                BumpStrategy::Rc
            }),
        decreases ranges@.len() - i,
    {
        let (lo, hi) = ranges[i];
        let ghost l = lines[i as int];
        let ghost before = lines.take(i as int);
        assert(lines.take(i + 1) =~= before.push(l));
        proof {
            lemma_first_config_error_push(before, l);
            crate::lines::lemma_last_value_push(before, l, "mode"@);
            crate::lines::lemma_last_value_push(before, l, "bump-strategy"@);
            crate::lines::lemma_last_value_push(before, l, "keep-release-branches"@);
            reveal_strlit("mode");
            reveal_strlit("bump-strategy");
            reveal_strlit("keep-release-branches");
            reveal_strlit("free");
            reveal_strlit("protected");
            reveal_strlit("rc");
            reveal_strlit("patch");
            reveal_strlit("true");
            reveal_strlit("false");
            assert("free"@.len() == 4 && "protected"@.len() == 9);
            assert("free"@ != "protected"@);
            assert("true"@.len() == 4 && "false"@.len() == 5);
            assert("false"@ != "true"@);
            assert("rc"@.len() == 2 && "patch"@.len() == 5);
            assert("rc"@ != "patch"@);
            assert("mode"@.len() == 4 && "bump-strategy"@.len() == 13);
            assert("keep-release-branches"@.len() == 21);
        }
        match read_entry(&v, lo, hi) {
            Entry::Skip => {
                assert(config_line_error(l) is None);
            },
            Entry::Malformed { lo: a, hi: b } => {
                proof {
                    lemma_first_config_error_prefix(lines, i as int + 1);
                }
                let mut e = String::from_str("Malformed line in .bflow/config: ");
                e.append(substring(contents, a, b).as_str());
                return Err(e);
            },
            Entry::Pair { key_lo, key_hi, val_lo, val_hi } => {
                let ghost key = v@.subrange(key_lo as int, key_hi as int);
                let ghost value = v@.subrange(val_lo as int, val_hi as int);
                assert(!malformed(l));
                assert(line_key(l) == key);
                assert(line_value(l) == value);
                if range_eq(&v, key_lo, key_hi, "mode") {
                    assert(key.len() == 4);
                    assert(key != "bump-strategy"@);
                    assert(key != "keep-release-branches"@);
                    if range_eq(&v, val_lo, val_hi, "free") {
                        config.mode = Mode::Free;
                        assert(config_line_error(l) is None);
                    } else if range_eq(&v, val_lo, val_hi, "protected") {
                        config.mode = Mode::Protected;
                        assert(config_line_error(l) is None);
                    } else {
                        proof {
                            lemma_first_config_error_prefix(lines, i as int + 1);
                        }
                        return Err(
                            value_error(
                                "Invalid mode '",
                                substring(contents, val_lo, val_hi),
                                "' in .bflow/config. Use 'mode=free' or 'mode=protected'.",
                            ),
                        );
                    }
                } else if range_eq(&v, key_lo, key_hi, "bump-strategy") {
                    assert(key.len() == 13);
                    assert(key != "keep-release-branches"@);
                    if range_eq(&v, val_lo, val_hi, "rc") {
                        config.bump_strategy = BumpStrategy::Rc;
                        assert(config_line_error(l) is None);
                    } else if range_eq(&v, val_lo, val_hi, "patch") {
                        config.bump_strategy = BumpStrategy::Patch;
                        assert(config_line_error(l) is None);
                    } else {
                        proof {
                            lemma_first_config_error_prefix(lines, i as int + 1);
                        }
                        return Err(
                            value_error(
                                "Invalid bump-strategy '",
                                substring(contents, val_lo, val_hi),
                                "' in .bflow/config. Use 'bump-strategy=rc' or 'bump-strategy=patch'.",
                            ),
                        );
                    }
                } else if range_eq(&v, key_lo, key_hi, "keep-release-branches") {
                    if range_eq(&v, val_lo, val_hi, "true") {
                        config.keep_release_branches = true;
                        assert(config_line_error(l) is None);
                    } else if range_eq(&v, val_lo, val_hi, "false") {
                        config.keep_release_branches = false;
                        assert(config_line_error(l) is None);
                    } else {
                        proof {
                            lemma_first_config_error_prefix(lines, i as int + 1);
                        }
                        return Err(
                            value_error(
                                "Invalid keep-release-branches '",
                                substring(contents, val_lo, val_hi),
                                "' in .bflow/config. Use 'true' or 'false'.",
                            ),
                        );
                    }
                }
            },
        }
        assert(config_line_error(l) is None);
        assert(first_config_error(lines.take(i + 1)) is None);
        i = i + 1;
    }
    assert(lines.take(i as int) =~= lines);
    Ok(config)
}


pub open spec fn mode_text(m: Mode) -> Seq<char> {
    match m {
        Mode::Free => "free"@,
        Mode::Protected => "protected"@,
    }
}

pub open spec fn bump_text(b: BumpStrategy) -> Seq<char> {
    match b {
        BumpStrategy::Rc => "rc"@,
        BumpStrategy::Patch => "patch"@,
    }
}

pub open spec fn bool_text(b: bool) -> Seq<char> {
    if b {
        "true"@
    } else {
        "false"@
    }
}

/// The policy file's text for `c`: one `key=value` line per setting.
pub open spec fn config_text(c: RepoConfig) -> Seq<char> {
    "mode="@ + mode_text(c.mode) + "\nkeep-release-branches="@ + bool_text(c.keep_release_branches)
        + "\nbump-strategy="@ + bump_text(c.bump_strategy) + "\n"@
}

impl RepoConfig {
    /// The text of `.bflow/config` for this policy.
    pub fn to_text(&self) -> (r: String)
        ensures
            r@ == config_text(*self),
    {
        let mut s = String::from_str("mode=");
        s.append(
            match self.mode {
                Mode::Free => "free",
                Mode::Protected => "protected",
            },
        );
        s.append("\nkeep-release-branches=");
        s.append(
            if self.keep_release_branches {
                "true"
            } else {
                "false"
            },
        );
        s.append("\nbump-strategy=");
        s.append(
            match self.bump_strategy {
                BumpStrategy::Rc => "rc",
                BumpStrategy::Patch => "patch",
            },
        );
        s.append("\n");
        s
    }
}

proof fn lemma_config_words(c: RepoConfig)
    ensures
        clean_key("mode"@),
        clean_key("keep-release-branches"@),
        clean_key("bump-strategy"@),
        clean_value(mode_text(c.mode)),
        clean_value(bool_text(c.keep_release_branches)),
        clean_value(bump_text(c.bump_strategy)),
        "mode"@ != "keep-release-branches"@,
        "mode"@ != "bump-strategy"@,
        "keep-release-branches"@ != "bump-strategy"@,
        "free"@ != "protected"@,
        "true"@ != "false"@,
        "rc"@ != "patch"@,
{
    reveal_strlit("mode");
    reveal_strlit("keep-release-branches");
    reveal_strlit("bump-strategy");
    reveal_strlit("free");
    reveal_strlit("protected");
    reveal_strlit("true");
    reveal_strlit("false");
    reveal_strlit("rc");
    reveal_strlit("patch");
    assert("free"@.len() != "protected"@.len());
    assert("true"@.len() != "false"@.len());
    assert("rc"@.len() != "patch"@.len());
}

/// The policy file bflow writes reads back as the policy it was written from.
pub proof fn law_config_round_trip(c: RepoConfig)
    ensures
        spec_parse_config(config_text(c)) == Ok::<RepoConfig, Seq<char>>(c),
{
    broadcast use crate::lines::lemma_last_value_push;

    lemma_config_words(c);
    let l1 = state_line("mode"@, mode_text(c.mode));
    let l2 = state_line("keep-release-branches"@, bool_text(c.keep_release_branches));
    let l3 = state_line("bump-strategy"@, bump_text(c.bump_strategy));
    lemma_keyed_line("mode"@, mode_text(c.mode), "keep-release-branches"@);
    lemma_keyed_line("mode"@, mode_text(c.mode), "bump-strategy"@);
    lemma_keyed_line("keep-release-branches"@, bool_text(c.keep_release_branches), "mode"@);
    lemma_keyed_line("keep-release-branches"@, bool_text(c.keep_release_branches), "bump-strategy"@);
    lemma_keyed_line("bump-strategy"@, bump_text(c.bump_strategy), "mode"@);
    lemma_keyed_line("bump-strategy"@, bump_text(c.bump_strategy), "keep-release-branches"@);
    let nl = seq!['\n'];
    reveal_strlit("\n");
    reveal_strlit("=");
    reveal_strlit("mode=");
    reveal_strlit("\nkeep-release-branches=");
    reveal_strlit("\nbump-strategy=");
    reveal_strlit("mode");
    reveal_strlit("keep-release-branches");
    reveal_strlit("bump-strategy");
    let e = Seq::<char>::empty();
    lemma_split_on_empty('\n');
    lemma_split_on_line(l3, e);
    lemma_split_on_line(l2, l3 + nl + e);
    lemma_split_on_line(l1, l2 + nl + (l3 + nl + e));
    assert(config_text(c) =~= l1 + nl + (l2 + nl + (l3 + nl + e)));
    let lines = split_on(config_text(c), '\n');
    assert(lines =~= seq![l1, l2, l3, e]);
    assert(!crate::lines::entry_line(e));
    assert(config_line_error(l1) is None);
    assert(config_line_error(l2) is None);
    assert(config_line_error(l3) is None);
    assert(config_line_error(e) is None);
    assert(lines.drop_first() =~= seq![l2, l3, e]);
    assert(lines.drop_first().drop_first() =~= seq![l3, e]);
    assert(lines.drop_first().drop_first().drop_first() =~= seq![e]);
    assert(seq![e].drop_first() =~= Seq::<Seq<char>>::empty());
    assert(first_config_error(Seq::<Seq<char>>::empty()) is None);
    assert(seq![e][0] == e);
    assert(first_config_error(seq![e]) is None);
    assert(seq![l3, e][0] == l3);
    assert(seq![l3, e].drop_first() =~= seq![e]);
    assert(first_config_error(seq![l3, e]) is None);
    assert(seq![l2, l3, e][0] == l2);
    assert(seq![l2, l3, e].drop_first() =~= seq![l3, e]);
    assert(first_config_error(seq![l2, l3, e]) is None);
    assert(lines[0] == l1);
    assert(first_config_error(lines) is None);
    let p1 = Seq::<Seq<char>>::empty().push(l1);
    let p2 = p1.push(l2);
    let p3 = p2.push(l3);
    assert(lines =~= p3.push(e));
    assert(last_value(lines, "mode"@) == Some(mode_text(c.mode)));
    assert(last_value(lines, "keep-release-branches"@) == Some(bool_text(c.keep_release_branches)));
    assert(last_value(lines, "bump-strategy"@) == Some(bump_text(c.bump_strategy)));
}

} // verus!
