//! Terminal styling policy: style only when a human is looking (stdout is a
//! TTY) and has not opted out (`NO_COLOR`, `TERM=dumb`).
use vstd::prelude::*;

use crate::text::{chars_of, range_eq};

verus! {

/// The styling rule: a TTY, no non-empty `NO_COLOR`, and a `TERM` other than
/// `dumb`.
pub open spec fn styling_rule(is_tty: bool, no_color: Option<Seq<char>>, term: Option<Seq<char>>) -> bool {
    &&& is_tty
    &&& (no_color matches Some(v) ==> v.len() == 0)
    &&& !(term matches Some(t) && t == "dumb"@)
}

/// Whether styled output is appropriate, given the environment.
/// `no_color` is the NO_COLOR variable (any non-empty value disables styling);
/// `term` is TERM (`dumb` disables styling).
pub fn styling_enabled(is_tty: bool, no_color: Option<&str>, term: Option<&str>) -> (r: bool)
    ensures
        r == styling_rule(
            is_tty,
            match no_color {
                Some(v) => Some(v@),
                None => None,
            },
            match term {
                Some(t) => Some(t@),
                None => None,
            },
        ),
{
    if !is_tty {
        return false;
    }
    let color_ok = match no_color {
        Some(v) => v.unicode_len() == 0,
        None => true,
    };
    let term_ok = match term {
        Some(t) => {
            let tv = chars_of(t);
            assert(tv@.subrange(0, tv@.len() as int) =~= tv@);
            !range_eq(&tv, 0, tv.len(), "dumb")
        },
        None => true,
    };
    color_ok && term_ok
}

pub open spec fn bold_text(text: Seq<char>, enabled: bool) -> Seq<char> {
    if enabled {
        "\x1b[1m"@ + text + "\x1b[0m"@
    } else {
        text
    }
}

/// ANSI-bold `text` when `enabled`, else `text` unchanged.
pub fn bold(text: &str, enabled: bool) -> (r: String)
    ensures
        r@ == bold_text(text@, enabled),
{
    if enabled {
        let mut s = String::from_str("\x1b[1m");
        s.append(text);
        s.append("\x1b[0m");
        s
    } else {
        String::from_str(text)
    }
}

} // verus!
