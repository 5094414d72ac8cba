//! Character-sequence vocabulary shared by every parser and formatter of the
//! crate: decimal numbers, whitespace trimming, searching and splitting.
use vstd::prelude::*;

verus! {

// ---------------------------------------------------------------------------
// Decimal digits
// ---------------------------------------------------------------------------

pub open spec fn is_digit(c: char) -> bool {
    '0' <= c && c <= '9'
}

pub open spec fn digit_val(c: char) -> nat {
    ((c as int) - 48) as nat
}

pub open spec fn digit_char(d: nat) -> char {
    ((d + 48) as int) as char
}

pub open spec fn all_digits(s: Seq<char>) -> bool {
    forall|i: int| 0 <= i < s.len() ==> is_digit(#[trigger] s[i])
}

/// The number that a string of decimal digits denotes.
pub open spec fn digits_value(s: Seq<char>) -> nat
    decreases s.len(),
{
    if s.len() == 0 {
        0
    } else {
        digits_value(s.drop_last()) * 10 + digit_val(s.last())
    }
}

/// What `u32::from_str` accepts: an optional `+`, then one or more decimal
/// digits whose value fits in a `u32`.
pub open spec fn spec_parse_u32(s: Seq<char>) -> Option<u32> {
    let d = if s.len() > 0 && s[0] == '+' {
        s.drop_first()
    } else {
        s
    };
    if d.len() > 0 && all_digits(d) && digits_value(d) <= u32::MAX {
        Some(digits_value(d) as u32)
    } else {
        None
    }
}

/// The shortest decimal rendering of `n`.
pub open spec fn decimal(n: nat) -> Seq<char>
    decreases n,
{
    if n < 10 {
        seq![digit_char(n)]
    } else {
        decimal(n / 10).push(digit_char(n % 10))
    }
}

pub proof fn lemma_digit_char(d: nat)
    requires
        d < 10,
    ensures
        is_digit(digit_char(d)),
        digit_val(digit_char(d)) == d,
        digit_char(d) != '.',
        digit_char(d) != '-',
        digit_char(d) != '/',
        digit_char(d) != '=',
        digit_char(d) != '\n',
        !is_ws(digit_char(d)),
{
}

/// Facts about `decimal`: it is a non-empty run of digits, denotes `n`, and
/// starts with `0` only when it is exactly `0`.
pub proof fn lemma_decimal(n: nat)
    ensures
        decimal(n).len() >= 1,
        all_digits(decimal(n)),
        digits_value(decimal(n)) == n,
        decimal(n)[0] == '0' ==> decimal(n).len() == 1,
        decimal(n).len() == 1 ==> n < 10,
        no_char(decimal(n), '.'),
        no_char(decimal(n), '-'),
        no_char(decimal(n), '/'),
        no_char(decimal(n), '='),
        no_char(decimal(n), '\n'),
        no_ws(decimal(n)),
    decreases n,
{
    if n < 10 {
        lemma_digit_char(n);
        assert(decimal(n).drop_last() =~= Seq::<char>::empty());
        assert(digits_value(Seq::<char>::empty()) == 0);
    } else {
        lemma_decimal(n / 10);
        lemma_digit_char(n % 10);
        vstd::arithmetic::div_mod::lemma_fundamental_div_mod(n as int, 10);
        let s = decimal(n);
        assert(s.drop_last() =~= decimal(n / 10));
        assert(s.last() == digit_char(n % 10));
        assert(digits_value(s) == digits_value(decimal(n / 10)) * 10 + digit_val(digit_char(n % 10)));
        assert(digits_value(s) == (n / 10) * 10 + n % 10);
        assert(n == 10 * (n / 10) + n % 10);
        assert(digits_value(s) == n);
        assert forall|i: int| 0 <= i < s.len() implies is_digit(#[trigger] s[i]) && s[i] != '.'
            && s[i] != '-' && s[i] != '/' && s[i] != '=' && s[i] != '\n' && !is_ws(s[i]) by {
            if i < s.len() - 1 {
                assert(s[i] == decimal(n / 10)[i]);
            }
        }
        assert(decimal(n / 10).len() >= 1 && decimal(n / 10)[0] != '0' || n / 10 < 10);
    }
}

/// `u32::from_str` reads back what `decimal` writes.
pub proof fn lemma_parse_decimal(n: u32)
    ensures
        spec_parse_u32(decimal(n as nat)) == Some(n),
{
    lemma_decimal(n as nat);
}

proof fn lemma_digits_value_step(s: Seq<char>, k: int)
    requires
        0 <= k < s.len(),
    ensures
        s.take(k + 1).drop_last() =~= s.take(k),
        s.take(k + 1).last() == s[k],
{
}

proof fn lemma_digits_prefix_le(s: Seq<char>, k: int)
    requires
        0 <= k <= s.len(),
    ensures
        digits_value(s.take(k)) <= digits_value(s),
    decreases s.len() - k,
{
    if k < s.len() {
        lemma_digits_value_step(s, k);
        lemma_digits_prefix_le(s, k + 1);
    } else {
        assert(s.take(k) =~= s);
    }
}

// ---------------------------------------------------------------------------
// Whitespace and trimming (Unicode `White_Space`, as `str::trim` uses)
// ---------------------------------------------------------------------------

pub open spec fn is_ws(c: char) -> bool {
    ||| c == ' '
    ||| ('\t' <= c && c <= '\r')
    ||| c == '\u{85}'
    ||| c == '\u{A0}'
    ||| c == '\u{1680}'
    ||| ('\u{2000}' <= c && c <= '\u{200A}')
    ||| c == '\u{2028}'
    ||| c == '\u{2029}'
    ||| c == '\u{202F}'
    ||| c == '\u{205F}'
    ||| c == '\u{3000}'
}

pub open spec fn no_ws(s: Seq<char>) -> bool {
    forall|i: int| 0 <= i < s.len() ==> !is_ws(#[trigger] s[i])
}

pub open spec fn trim_start(s: Seq<char>) -> Seq<char>
    decreases s.len(),
{
    if s.len() > 0 && is_ws(s[0]) {
        trim_start(s.drop_first())
    } else {
        s
    }
}

pub open spec fn trim_end(s: Seq<char>) -> Seq<char>
    decreases s.len(),
{
    if s.len() > 0 && is_ws(s.last()) {
        trim_end(s.drop_last())
    } else {
        s
    }
}

/// `str::trim`: leading and trailing whitespace removed.
pub open spec fn trim(s: Seq<char>) -> Seq<char> {
    trim_end(trim_start(s))
}

/// A string that neither starts nor ends with whitespace is its own trim.
pub proof fn lemma_trim_fixed(s: Seq<char>)
    requires
        s.len() == 0 || (!is_ws(s[0]) && !is_ws(s.last())),
    ensures
        trim(s) == s,
{
}

// ---------------------------------------------------------------------------
// Searching and splitting
// ---------------------------------------------------------------------------

pub open spec fn no_char(s: Seq<char>, c: char) -> bool {
    forall|i: int| 0 <= i < s.len() ==> #[trigger] s[i] != c
}

/// Index of the first `c` in `s`.
pub open spec fn find_char(s: Seq<char>, c: char) -> Option<int>
    decreases s.len(),
{
    if s.len() == 0 {
        None
    } else if s[0] == c {
        Some(0)
    } else {
        match find_char(s.drop_first(), c) {
            Some(i) => Some(i + 1),
            None => None,
        }
    }
}

pub proof fn lemma_find_char(s: Seq<char>, c: char)
    ensures
        match find_char(s, c) {
            Some(i) => 0 <= i < s.len() && s[i] == c && no_char(s.take(i), c),
            None => no_char(s, c),
        },
    decreases s.len(),
{
    if s.len() > 0 && s[0] != c {
        lemma_find_char(s.drop_first(), c);
        match find_char(s.drop_first(), c) {
            Some(i) => {
                assert forall|j: int| 0 <= j < i + 1 implies #[trigger] s.take(i + 1)[j] != c by {
                    if j > 0 {
                        assert(s.take(i + 1)[j] == s.drop_first().take(i)[j - 1]);
                    }
                }
            },
            None => {
                assert forall|j: int| 0 <= j < s.len() implies #[trigger] s[j] != c by {
                    if j > 0 {
                        assert(s[j] == s.drop_first()[j - 1]);
                    }
                }
            },
        }
    }
}

/// The converse of `lemma_find_char`: a first occurrence is what `find_char` finds.
pub proof fn lemma_find_char_at(s: Seq<char>, c: char, i: int)
    requires
        0 <= i < s.len(),
        s[i] == c,
        forall|j: int| 0 <= j < i ==> s[j] != c,
    ensures
        find_char(s, c) == Some(i),
    decreases i,
{
    if i > 0 {
        lemma_find_char_at(s.drop_first(), c, i - 1);
    }
}

pub proof fn lemma_find_char_none(s: Seq<char>, c: char)
    requires
        no_char(s, c),
    ensures
        find_char(s, c) is None,
    decreases s.len(),
{
    if s.len() > 0 {
        assert(no_char(s.drop_first(), c)) by {
            assert forall|j: int| 0 <= j < s.drop_first().len() implies #[trigger] s.drop_first()[j]
                != c by {
                assert(s.drop_first()[j] == s[j + 1]);
            }
        }
        lemma_find_char_none(s.drop_first(), c);
    }
}

/// `str::split_once(c)`: the text before and after the first `c`.
pub open spec fn split_once(s: Seq<char>, c: char) -> Option<(Seq<char>, Seq<char>)> {
    match find_char(s, c) {
        Some(i) => Some((s.take(i), s.skip(i + 1))),
        None => None,
    }
}

/// `str::split(c)`: the pieces between the occurrences of `c`.
pub open spec fn split_on(s: Seq<char>, c: char) -> Seq<Seq<char>>
    decreases s.len(),
{
    match find_char(s, c) {
        Some(i) => {
            if 0 <= i < s.len() {
                seq![s.take(i)] + split_on(s.skip(i + 1), c)
            } else {
                seq![s]
            }
        },
        None => seq![s],
    }
}

/// Splitting `a c b` at its first `c`, when `a` holds no `c`, gives back `a` and `b`.
pub proof fn lemma_split_once_concat(a: Seq<char>, c: char, b: Seq<char>)
    requires
        no_char(a, c),
    ensures
        split_once(a + seq![c] + b, c) == Some((a, b)),
{
    let s = a + seq![c] + b;
    assert forall|j: int| 0 <= j < a.len() implies s[j] != c by {
        assert(s[j] == a[j]);
    }
    lemma_find_char_at(s, c, a.len() as int);
    assert(s.take(a.len() as int) =~= a);
    assert(s.skip(a.len() as int + 1) =~= b);
}

pub proof fn lemma_split_once_none(s: Seq<char>, c: char)
    requires
        no_char(s, c),
    ensures
        split_once(s, c) is None,
{
    lemma_find_char_none(s, c);
}

/// Text glued from pieces free of `c`, with a separator other than `c`, is free of `c`.
pub proof fn lemma_no_char_concat(a: Seq<char>, x: char, b: Seq<char>, c: char)
    requires
        no_char(a, c),
        no_char(b, c),
        x != c,
    ensures
        no_char(a + seq![x] + b, c),
        no_char(a + b, c),
{
    let s = a + seq![x] + b;
    assert forall|j: int| 0 <= j < s.len() implies #[trigger] s[j] != c by {
        if j < a.len() {
            assert(s[j] == a[j]);
        } else if j > a.len() {
            assert(s[j] == b[j - a.len() - 1]);
        }
    }
    let t = a + b;
    assert forall|j: int| 0 <= j < t.len() implies #[trigger] t[j] != c by {
        if j < a.len() {
            assert(t[j] == a[j]);
        } else {
            assert(t[j] == b[j - a.len()]);
        }
    }
}

/// Splitting `a \n r` at newlines, when `a` holds no newline, gives `a` and
/// then the pieces of `r`.
pub proof fn lemma_split_on_line(a: Seq<char>, r: Seq<char>)
    requires
        no_char(a, '\n'),
    ensures
        split_on(a + seq!['\n'] + r, '\n') == seq![a] + split_on(r, '\n'),
{
    let s = a + seq!['\n'] + r;
    assert forall|j: int| 0 <= j < a.len() implies s[j] != '\n' by {
        assert(s[j] == a[j]);
    }
    lemma_find_char_at(s, '\n', a.len() as int);
    assert(s.take(a.len() as int) =~= a);
    assert(s.skip(a.len() as int + 1) =~= r);
}

/// Splitting `a c r` at `c`, when `a` holds no `c`, gives `a` and then the
/// pieces of `r`.
pub proof fn lemma_split_on_sep(a: Seq<char>, c: char, r: Seq<char>)
    requires
        no_char(a, c),
    ensures
        split_on(a + seq![c] + r, c) == seq![a] + split_on(r, c),
{
    let s = a + seq![c] + r;
    assert forall|j: int| 0 <= j < a.len() implies s[j] != c by {
        assert(s[j] == a[j]);
    }
    lemma_find_char_at(s, c, a.len() as int);
    assert(s.take(a.len() as int) =~= a);
    assert(s.skip(a.len() as int + 1) =~= r);
}

/// Text without `c` is a single piece.
pub proof fn lemma_split_on_whole(a: Seq<char>, c: char)
    requires
        no_char(a, c),
    ensures
        split_on(a, c) == seq![a],
{
    lemma_find_char_none(a, c);
}

pub proof fn lemma_split_on_empty(c: char)
    ensures
        split_on(Seq::<char>::empty(), c) == seq![Seq::<char>::empty()],
{
}

/// Whether `p` occurs in `s`.
pub open spec fn contains_seq(s: Seq<char>, p: Seq<char>) -> bool {
    exists|i: int| 0 <= i <= s.len() && has_prefix(#[trigger] s.skip(i), p)
}

/// The views of a sequence of strings.
pub open spec fn views(v: Seq<String>) -> Seq<Seq<char>> {
    v.map_values(|s: String| s@)
}

/// The pieces of `parts`, one after another.
pub open spec fn concat(parts: Seq<Seq<char>>) -> Seq<char>
    decreases parts.len(),
{
    if parts.len() == 0 {
        Seq::empty()
    } else {
        concat(parts.drop_last()) + parts.last()
    }
}

/// `split_on` always yields at least one piece.
pub proof fn lemma_split_on_nonempty(s: Seq<char>, c: char)
    ensures
        split_on(s, c).len() >= 1,
{
}

/// A line as `str::lines` yields it: a `\r` before its `\n` removed.
pub open spec fn strip_cr(l: Seq<char>) -> Seq<char> {
    if l.len() > 0 && l.last() == '\r' {
        l.drop_last()
    } else {
        l
    }
}

/// How many lines `str::lines` yields: the `\n`-separated pieces, without a
/// final empty piece.
pub open spec fn line_count(s: Seq<char>) -> int {
    let p = split_on(s, '\n');
    if p.last().len() == 0 {
        p.len() - 1
    } else {
        p.len() as int
    }
}

/// `str::lines`: the `\n`-separated pieces, a final empty piece dropped, and
/// the `\r` of each `\r\n` removed.
pub open spec fn lines_of(s: Seq<char>) -> Seq<Seq<char>> {
    let p = split_on(s, '\n');
    Seq::new(
        line_count(s) as nat,
        |i: int|
            if i < p.len() - 1 {
                strip_cr(p[i])
            } else {
                p[i]
            },
    )
}

pub open spec fn has_prefix(s: Seq<char>, p: Seq<char>) -> bool {
    p.len() <= s.len() && s.take(p.len() as int) =~= p
}

pub proof fn lemma_prefix_char(s: Seq<char>, p: Seq<char>, j: int)
    requires
        has_prefix(s, p),
        0 <= j < p.len(),
    ensures
        s[j] == p[j],
{
    assert(s.take(p.len() as int)[j] == s[j]);
}

pub proof fn lemma_has_prefix_concat(p: Seq<char>, t: Seq<char>)
    ensures
        has_prefix(p + t, p),
        (p + t).skip(p.len() as int) == t,
{
    assert((p + t).take(p.len() as int) =~= p);
    assert((p + t).skip(p.len() as int) =~= t);
}

// ---------------------------------------------------------------------------
// Executable helpers
// ---------------------------------------------------------------------------

/// The characters of `s`, one by one.
pub fn chars_of(s: &str) -> (v: Vec<char>)
    ensures
        v@ == s@,
{
    let n = s.unicode_len();
    let mut v: Vec<char> = Vec::new();
    let mut i: usize = 0;
    while i < n
        invariant
            n == s@.len(),
            i <= n,
            v@ == s@.take(i as int),
        decreases n - i,
    {
        v.push(s.get_char(i));
        i = i + 1;
        assert(v@ =~= s@.take(i as int));
    }
    assert(s@.take(n as int) =~= s@);
    v
}

/// The characters `lo..hi` of `s` as an owned string.
pub fn substring(s: &str, lo: usize, hi: usize) -> (r: String)
    requires
        lo <= hi <= s@.len(),
    ensures
        r@ == s@.subrange(lo as int, hi as int),
{
    String::from_str(s.substring_char(lo, hi))
}

/// Whether the characters `lo..hi` of `v` spell `lit`.
pub fn range_eq(v: &Vec<char>, lo: usize, hi: usize, lit: &str) -> (r: bool)
    requires
        lo <= hi <= v@.len(),
    ensures
        r == (v@.subrange(lo as int, hi as int) == lit@),
{
    let n = lit.unicode_len();
    if hi - lo != n {
        assert(v@.subrange(lo as int, hi as int).len() != lit@.len());
        return false;
    }
    let mut i: usize = 0;
    while i < n
        invariant
            n == lit@.len(),
            hi - lo == n,
            lo <= hi <= v@.len(),
            i <= n,
            forall|j: int| 0 <= j < i ==> v@[lo + j] == lit@[j],
        decreases n - i,
    {
        if v[lo + i] != lit.get_char(i) {
            assert(v@.subrange(lo as int, hi as int)[i as int] != lit@[i as int]);
            return false;
        }
        i = i + 1;
    }
    assert(v@.subrange(lo as int, hi as int) =~= lit@);
    true
}

/// Whether the characters from `lo` on in `v` start with `lit`.
pub fn starts_with_at(v: &Vec<char>, lo: usize, lit: &str) -> (r: bool)
    requires
        lo <= v@.len(),
    ensures
        r == has_prefix(v@.skip(lo as int), lit@),
{
    let n = lit.unicode_len();
    if v.len() - lo < n {
        return false;
    }
    let r = range_eq(v, lo, lo + n, lit);
    assert(v@.skip(lo as int).take(n as int) =~= v@.subrange(lo as int, lo + n));
    r
}

/// Index of the first `c` among the characters `lo..hi` of `v`, counted from `lo`.
pub fn find_in(v: &Vec<char>, lo: usize, hi: usize, c: char) -> (r: Option<usize>)
    requires
        lo <= hi <= v@.len(),
    ensures
        r matches Some(i) ==> find_char(v@.subrange(lo as int, hi as int), c) == Some(i as int)
            && lo + i < hi && v@[lo + i] == c,
        r is None ==> find_char(v@.subrange(lo as int, hi as int), c) is None,
{
    let ghost s = v@.subrange(lo as int, hi as int);
    let mut i: usize = lo;
    while i < hi
        invariant
            lo <= i <= hi <= v@.len(),
            s == v@.subrange(lo as int, hi as int),
            forall|j: int| 0 <= j < i - lo ==> s[j] != c,
        decreases hi - i,
    {
        if v[i] == c {
            proof {
                lemma_find_char_at(s, c, i - lo);
            }
            return Some(i - lo);
        }
        i = i + 1;
    }
    proof {
        lemma_find_char_none(s, c);
    }
    None
}

/// The `\n`-separated pieces of `v`, as ranges: piece `i` of `split_on(v, c)`
/// is the characters `r[i].0..r[i].1`.
pub fn split_ranges(v: &Vec<char>, c: char) -> (r: Vec<(usize, usize)>)
    ensures
        r@.len() == split_on(v@, c).len(),
        forall|i: int|
            0 <= i < r@.len() ==> {
                &&& (#[trigger] r@[i]).0 <= r@[i].1 <= v@.len()
                &&& v@.subrange(r@[i].0 as int, r@[i].1 as int) == split_on(v@, c)[i]
            },
{
    let n = v.len();
    let mut r: Vec<(usize, usize)> = Vec::new();
    let mut pos: usize = 0;
    assert(v@.skip(0) =~= v@);
    assert(r@.map_values(|p: (usize, usize)| v@.subrange(p.0 as int, p.1 as int)) + split_on(
        v@.skip(0),
        c,
    ) =~= split_on(v@, c));
    loop
        invariant
            n == v@.len(),
            pos <= n,
            split_on(v@, c) == r@.map_values(|p: (usize, usize)| v@.subrange(p.0 as int, p.1 as int))
                + split_on(v@.skip(pos as int), c),
            forall|i: int| 0 <= i < r@.len() ==> (#[trigger] r@[i]).0 <= r@[i].1 <= n,
        decreases n - pos,
    {
        let ghost rest = v@.skip(pos as int);
        assert(rest =~= v@.subrange(pos as int, n as int));
        match find_in(v, pos, n, c) {
            Some(j) => {
                let e = pos + j;
                let ghost old_r = r@;
                r.push((pos, e));
                assert(rest.take(j as int) =~= v@.subrange(pos as int, e as int));
                assert(rest.skip(j + 1) =~= v@.skip(e + 1));
                assert(split_on(rest, c) == seq![rest.take(j as int)] + split_on(rest.skip(j + 1), c));
                assert(r@.map_values(|p: (usize, usize)| v@.subrange(p.0 as int, p.1 as int))
                    =~= old_r.map_values(|p: (usize, usize)| v@.subrange(p.0 as int, p.1 as int))
                    + seq![v@.subrange(pos as int, e as int)]);
                pos = e + 1;
            },
            None => {
                let ghost old_r = r@;
                r.push((pos, n));
                assert(split_on(rest, c) == seq![rest]);
                assert(r@.map_values(|p: (usize, usize)| v@.subrange(p.0 as int, p.1 as int))
                    =~= old_r.map_values(|p: (usize, usize)| v@.subrange(p.0 as int, p.1 as int))
                    + seq![v@.subrange(pos as int, n as int)]);
                assert(split_on(v@, c) =~= r@.map_values(
                    |p: (usize, usize)| v@.subrange(p.0 as int, p.1 as int),
                ));
                return r;
            },
        }
    }
}

/// The `\n`-separated pieces of `v`, as ranges: piece `i` of `split_on(v, '\n')`
/// is the characters `r[i].0..r[i].1`.
pub fn line_ranges(v: &Vec<char>) -> (r: Vec<(usize, usize)>)
    ensures
        r@.len() == split_on(v@, '\n').len(),
        forall|i: int|
            0 <= i < r@.len() ==> {
                &&& (#[trigger] r@[i]).0 <= r@[i].1 <= v@.len()
                &&& v@.subrange(r@[i].0 as int, r@[i].1 as int) == split_on(v@, '\n')[i]
            },
{
    split_ranges(v, '\n')
}

/// Bounds of `trim` of the characters `lo..hi` of `v`.
pub fn trim_bounds(v: &Vec<char>, lo: usize, hi: usize) -> (r: (usize, usize))
    requires
        lo <= hi <= v@.len(),
    ensures
        lo <= r.0 <= r.1 <= hi,
        v@.subrange(r.0 as int, r.1 as int) == trim(v@.subrange(lo as int, hi as int)),
{
    let ghost s = v@.subrange(lo as int, hi as int);
    let mut a: usize = lo;
    while a < hi && is_ws_exec(v[a])
        invariant
            lo <= a <= hi <= v@.len(),
            s == v@.subrange(lo as int, hi as int),
            trim_start(s) == trim_start(v@.subrange(a as int, hi as int)),
        decreases hi - a,
    {
        assert(v@.subrange(a as int, hi as int).drop_first() =~= v@.subrange(a + 1, hi as int));
        a = a + 1;
    }
    assert(trim_start(v@.subrange(a as int, hi as int)) == v@.subrange(a as int, hi as int));
    let mut b: usize = hi;
    while b > a && is_ws_exec(v[b - 1])
        invariant
            lo <= a <= b <= hi <= v@.len(),
            trim_end(v@.subrange(a as int, hi as int)) == trim_end(v@.subrange(a as int, b as int)),
        decreases b - a,
    {
        assert(v@.subrange(a as int, b as int).drop_last() =~= v@.subrange(a as int, b - 1));
        b = b - 1;
    }
    assert(trim_end(v@.subrange(a as int, b as int)) == v@.subrange(a as int, b as int));
    (a, b)
}

pub fn is_ws_exec(c: char) -> (r: bool)
    ensures
        r == is_ws(c),
{
    c == ' ' || ('\t' <= c && c <= '\r') || c == '\u{85}' || c == '\u{A0}' || c == '\u{1680}' || (
    '\u{2000}' <= c && c <= '\u{200A}') || c == '\u{2028}' || c == '\u{2029}' || c == '\u{202F}'
        || c == '\u{205F}' || c == '\u{3000}'
}

/// `u32::from_str` on the characters `lo..hi` of `v`.
pub fn parse_u32_range(v: &Vec<char>, lo: usize, hi: usize) -> (r: Option<u32>)
    requires
        lo <= hi <= v@.len(),
    ensures
        r == spec_parse_u32(v@.subrange(lo as int, hi as int)),
{
    let ghost s = v@.subrange(lo as int, hi as int);
    let start = if lo < hi && v[lo] == '+' {
        lo + 1
    } else {
        lo
    };
    let ghost d = v@.subrange(start as int, hi as int);
    assert(d =~= (if s.len() > 0 && s[0] == '+' {
        s.drop_first()
    } else {
        s
    }));
    if start == hi {
        return None;
    }
    let mut acc: u64 = 0;
    let mut i: usize = start;
    while i < hi
        invariant
            start <= i <= hi <= v@.len(),
            start < hi,
            lo <= start,
            s == v@.subrange(lo as int, hi as int),
            d == v@.subrange(start as int, hi as int),
            d == (if s.len() > 0 && s[0] == '+' {
                s.drop_first()
            } else {
                s
            }),
            all_digits(d.take(i - start)),
            acc == digits_value(d.take(i - start)),
            acc <= u32::MAX,
        decreases hi - i,
    {
        let c = v[i];
        proof {
            lemma_digits_value_step(d, i - start);
        }
        assert(d[i - start] == c);
        if !('0' <= c && c <= '9') {
            assert(!is_digit(d[i - start]));
            assert(!all_digits(d));
            return None;
        }
        let dv = (c as u32 - '0' as u32) as u64;
        assert(dv == digit_val(c));
        let next = acc * 10 + dv;
        assert(all_digits(d.take(i - start + 1))) by {
            assert forall|j: int| 0 <= j < i - start + 1 implies is_digit(
                #[trigger] d.take(i - start + 1)[j],
            ) by {
                if j < i - start {
                    assert(d.take(i - start + 1)[j] == d.take(i - start)[j]);
                }
            }
        }
        if next > u32::MAX as u64 {
            proof {
                lemma_digits_prefix_le(d, i - start + 1);
                assert(digits_value(d.take(i - start + 1)) == next);
                assert(digits_value(d) > u32::MAX);
            }
            return None;
        }
        acc = next;
        i = i + 1;
    }
    assert(d.take(hi - start) =~= d);
    Some(acc as u32)
}

/// The single-character string of a decimal digit.
fn digit_str(d: u64) -> (r: &'static str)
    requires
        d < 10,
    ensures
        r@ == seq![digit_char(d as nat)],
{
    proof {
        reveal_strlit("0");
        reveal_strlit("1");
        reveal_strlit("2");
        reveal_strlit("3");
        reveal_strlit("4");
        reveal_strlit("5");
        reveal_strlit("6");
        reveal_strlit("7");
        reveal_strlit("8");
        reveal_strlit("9");
    }
    match d {
        0 => "0",
        1 => "1",
        2 => "2",
        3 => "3",
        4 => "4",
        5 => "5",
        6 => "6",
        7 => "7",
        8 => "8",
        _ => "9",
    }
}

/// Appends the decimal rendering of `n`.
pub fn push_decimal(out: &mut String, n: u64)
    ensures
        final(out)@ == old(out)@ + decimal(n as nat),
    decreases n,
{
    if n >= 10 {
        push_decimal(out, n / 10);
        out.append(digit_str(n % 10));
        assert(decimal(n as nat) == decimal((n / 10) as nat).push(digit_char((n % 10) as nat)));
        assert(out@ =~= old(out)@ + decimal(n as nat));
    } else {
        out.append(digit_str(n));
    }
}

/// The decimal rendering of `n`.
pub fn decimal_string(n: u64) -> (r: String)
    ensures
        r@ == decimal(n as nat),
{
    let mut s = String::new();
    push_decimal(&mut s, n);
    assert(s@ =~= decimal(n as nat));
    s
}


/// Bounds of line `i` of `lines_of(v)`, given the `\n`-pieces of `v`.
pub fn line_bounds(v: &Vec<char>, pieces: &Vec<(usize, usize)>, i: usize) -> (r: (usize, usize))
    requires
        pieces@.len() == split_on(v@, '\n').len(),
        forall|k: int|
            0 <= k < pieces@.len() ==> {
                &&& (#[trigger] pieces@[k]).0 <= pieces@[k].1 <= v@.len()
                &&& v@.subrange(pieces@[k].0 as int, pieces@[k].1 as int) == split_on(v@, '\n')[k]
            },
        i < line_count(v@),
    ensures
        r.0 <= r.1 <= v@.len(),
        v@.subrange(r.0 as int, r.1 as int) == lines_of(v@)[i as int],
{
    proof {
        lemma_split_on_nonempty(v@, '\n');
    }
    let lo = pieces[i].0;
    let hi = pieces[i].1;
    if i < pieces.len() - 1 && hi > lo && v[hi - 1] == '\r' {
        assert(v@.subrange(lo as int, hi as int).drop_last() =~= v@.subrange(lo as int, hi - 1));
        (lo, hi - 1)
    } else {
        (lo, hi)
    }
}

/// Index where `trim_start` of the characters `lo..hi` of `v` begins.
pub fn trim_start_index(v: &Vec<char>, lo: usize, hi: usize) -> (r: usize)
    requires
        lo <= hi <= v@.len(),
    ensures
        lo <= r <= hi,
        v@.subrange(r as int, hi as int) == trim_start(v@.subrange(lo as int, hi as int)),
{
    let ghost s = v@.subrange(lo as int, hi as int);
    let mut a: usize = lo;
    while a < hi && is_ws_exec(v[a])
        invariant
            lo <= a <= hi <= v@.len(),
            s == v@.subrange(lo as int, hi as int),
            trim_start(s) == trim_start(v@.subrange(a as int, hi as int)),
        decreases hi - a,
    {
        assert(v@.subrange(a as int, hi as int).drop_first() =~= v@.subrange(a + 1, hi as int));
        a = a + 1;
    }
    a
}

/// What `str::to_uppercase` makes of a string: Unicode's full uppercase
/// mapping, which may change the length.
pub uninterp spec fn uppercase(s: Seq<char>) -> Seq<char>;

/// `str::to_uppercase`. Trusted: its result is `uppercase` of its argument,
/// the Unicode mapping that std implements and nothing here restates.
#[verifier::external_body]
pub(crate) fn to_upper(s: &str) -> (r: String)
    ensures
        r@ == uppercase(s@),
{
    s.to_uppercase()
}


/// `str::contains` with a string pattern.
pub fn contains_str(s: &str, p: &str) -> (r: bool)
    ensures
        r == contains_seq(s@, p@),
{
    let v = chars_of(s);
    let n = v.len();
    let mut i: usize = 0;
    loop
        invariant
            v@ == s@,
            n == v@.len(),
            i <= n,
            forall|j: int| 0 <= j < i ==> !has_prefix(#[trigger] s@.skip(j), p@),
        decreases n - i,
    {
        if starts_with_at(&v, i, p) {
            return true;
        }
        if i == n {
            return false;
        }
        i = i + 1;
    }
}

/// An owned copy of `s`.
pub fn owned(s: &str) -> (r: String)
    ensures
        r@ == s@,
{
    String::from_str(s)
}


/// `parts` glued together, as `format!` glues text and arguments.
pub fn cat(parts: &[&str]) -> (r: String)
    ensures
        r@ == concat(parts@.map_values(|s: &str| s@)),
{
    let mut out = String::new();
    let mut i: usize = 0;
    while i < parts.len()
        invariant
            i <= parts@.len(),
            out@ == concat(parts@.take(i as int).map_values(|s: &str| s@)),
        decreases parts@.len() - i,
    {
        out.append(parts[i]);
        assert(parts@.take(i + 1).map_values(|s: &str| s@).drop_last() =~= parts@.take(i as int).map_values(
            |s: &str| s@,
        ));
        i = i + 1;
    }
    assert(parts@.take(parts@.len() as int) =~= parts@);
    out
}


/// Where `x` goes in the code-point-sorted `r`: after every string that does
/// not come after it.
pub fn text_sorted_insert_point(r: &Vec<String>, x: &String) -> (p: usize)
    ensures
        p <= r@.len(),
        forall|k: int| 0 <= k < p ==> !crate::version::text_lt(x@, #[trigger] r@[k]@),
        p < r@.len() ==> crate::version::text_lt(x@, r@[p as int]@),
{
    let mut p: usize = 0;
    while p < r.len() && !crate::version::text_less(x.as_str(), r[p].as_str())
        invariant
            p <= r@.len(),
            forall|k: int| 0 <= k < p ==> !crate::version::text_lt(x@, #[trigger] r@[k]@),
        decreases r@.len() - p,
    {
        p = p + 1;
    }
    p
}

} // verus!
