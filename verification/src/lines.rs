//! `key=value` text files: the line structure shared by the repository policy
//! file and the finish-state file. Lines are trimmed; blank lines and lines
//! starting with `#` are skipped; every other line must hold a `=`, and its
//! key and value are the trimmed text before and after the first `=`.
use vstd::prelude::*;

use crate::text::{find_in, lemma_find_char, split_once, trim, trim_bounds};

verus! {

/// A line that carries an entry (not blank, not a comment).
pub open spec fn entry_line(l: Seq<char>) -> bool {
    let t = trim(l);
    t.len() > 0 && t[0] != '#'
}

/// An entry line without `=`.
pub open spec fn malformed(l: Seq<char>) -> bool {
    entry_line(l) && split_once(trim(l), '=') is None
}

pub open spec fn line_key(l: Seq<char>) -> Seq<char> {
    trim(split_once(trim(l), '=').unwrap().0)
}

pub open spec fn line_value(l: Seq<char>) -> Seq<char> {
    trim(split_once(trim(l), '=').unwrap().1)
}

/// An entry line with a `=` whose key is `key`.
pub open spec fn keyed(l: Seq<char>, key: Seq<char>) -> bool {
    entry_line(l) && split_once(trim(l), '=') is Some && line_key(l) == key
}

/// The trimmed first malformed line, if any.
pub open spec fn first_malformed(lines: Seq<Seq<char>>) -> Option<Seq<char>>
    decreases lines.len(),
{
    if lines.len() == 0 {
        None
    } else if malformed(lines[0]) {
        Some(trim(lines[0]))
    } else {
        first_malformed(lines.drop_first())
    }
}

/// The value of the last entry with key `key`.
pub open spec fn last_value(lines: Seq<Seq<char>>, key: Seq<char>) -> Option<Seq<char>>
    decreases lines.len(),
{
    if lines.len() == 0 {
        None
    } else if keyed(lines.last(), key) {
        Some(line_value(lines.last()))
    } else {
        last_value(lines.drop_last(), key)
    }
}

pub broadcast proof fn lemma_first_malformed_push(a: Seq<Seq<char>>, l: Seq<char>)
    ensures
        #[trigger] first_malformed(a.push(l)) == (if first_malformed(a) is Some {
            first_malformed(a)
        } else if malformed(l) {
            Some(trim(l))
        } else {
            None
        }),
    decreases a.len(),
{
    if a.len() > 0 {
        assert(a.push(l).drop_first() =~= a.drop_first().push(l));
        assert(a.push(l)[0] == a[0]);
        lemma_first_malformed_push(a.drop_first(), l);
    } else {
        assert(a.push(l).drop_first() =~= Seq::<Seq<char>>::empty());
        assert(a.push(l)[0] == l);
        assert(first_malformed(a.push(l).drop_first()) is None);
    }
}

pub broadcast proof fn lemma_last_value_push(a: Seq<Seq<char>>, l: Seq<char>, key: Seq<char>)
    ensures
        #[trigger] last_value(a.push(l), key) == (if keyed(l, key) {
            Some(line_value(l))
        } else {
            last_value(a, key)
        }),
{
    assert(a.push(l).drop_last() =~= a);
}

/// What one line holds, as ranges of the characters it was read from.
pub enum Entry {
    Skip,
    Malformed { lo: usize, hi: usize },
    Pair { key_lo: usize, key_hi: usize, val_lo: usize, val_hi: usize },
}

/// Reads the line held by the characters `lo..hi` of `v`.
pub fn read_entry(v: &Vec<char>, lo: usize, hi: usize) -> (r: Entry)
    requires
        lo <= hi <= v@.len(),
    ensures
        ({
            let l = v@.subrange(lo as int, hi as int);
            match r {
                Entry::Skip => !entry_line(l),
                Entry::Malformed { lo: a, hi: b } => malformed(l) && a <= b <= v@.len()
                    && v@.subrange(a as int, b as int) == trim(l),
                Entry::Pair { key_lo, key_hi, val_lo, val_hi } => {
                    &&& entry_line(l)
                    &&& split_once(trim(l), '=') is Some
                    &&& key_lo <= key_hi <= v@.len()
                    &&& val_lo <= val_hi <= v@.len()
                    &&& v@.subrange(key_lo as int, key_hi as int) == line_key(l)
                    &&& v@.subrange(val_lo as int, val_hi as int) == line_value(l)
                },
            }
        }),
{
    let ghost l = v@.subrange(lo as int, hi as int);
    let (a, b) = trim_bounds(v, lo, hi);
    let ghost t = trim(l);
    assert(t == v@.subrange(a as int, b as int));
    if a == b || v[a] == '#' {
        return Entry::Skip;
    }
    proof {
        lemma_find_char(t, '=');
    }
    match find_in(v, a, b, '=') {
        None => Entry::Malformed { lo: a, hi: b },
        Some(e) => {
            let eq = a + e;
            assert(t.take(e as int) =~= v@.subrange(a as int, eq as int));
            assert(t.skip(e + 1) =~= v@.subrange(eq + 1, b as int));
            let (ka, kb) = trim_bounds(v, a, eq);
            let (va, vb) = trim_bounds(v, eq + 1, b);
            Entry::Pair { key_lo: ka, key_hi: kb, val_lo: va, val_hi: vb }
        },
    }
}

} // verus!
