//! What the interactive prompts do with each key: the arrow-key menu and the
//! line reader. The terminal itself (raw mode, drawing, reading events) is
//! the program's; it turns key presses into `MenuKey` and `LineKey`.
use vstd::prelude::*;

use crate::menu::shaped_char;
use crate::text::{chars_of, substring, trim, trim_bounds};

verus! {

/// A key press, as the menu reads it.
#[derive(Debug, Clone, Copy, PartialEq, Eq, Structural)]
pub enum MenuKey {
    Up,
    Down,
    Enter,
    /// A plain (unmodified) decimal digit key.
    Digit(u32),
    /// Ctrl-C or Esc.
    Abort,
    Other,
}

/// What the menu does after a key: move the highlight, pick an item, or give
/// up.
#[derive(Debug, Clone, Copy, PartialEq, Eq, Structural)]
pub enum SelectStep {
    Move(usize),
    Pick(usize),
    Aborted,
}

/// Up and Down move the highlight and stop at the ends; Enter picks the
/// highlighted item; digits 1-9 pick that item at once when there is one;
/// Ctrl-C or Esc aborts; any other key leaves the highlight where it is.
pub open spec fn select_next(selected: int, len: int, key: MenuKey) -> SelectStep {
    match key {
        MenuKey::Up => SelectStep::Move((if selected > 0 { selected - 1 } else { selected }) as usize),
        MenuKey::Down => SelectStep::Move((if selected < len - 1 { selected + 1 } else { selected }) as usize),
        MenuKey::Enter => SelectStep::Pick(selected as usize),
        MenuKey::Digit(d) => if 1 <= d && d <= len && d <= 9 {
            SelectStep::Pick((d - 1) as usize)
        } else {
            SelectStep::Move(selected as usize)
        },
        MenuKey::Abort => SelectStep::Aborted,
        MenuKey::Other => SelectStep::Move(selected as usize),
    }
}

/// The menu's answer to `key` with item `selected` of `len` highlighted.
pub fn select_step(selected: usize, len: usize, key: MenuKey) -> (r: SelectStep)
    requires
        selected < len,
    ensures
        r == select_next(selected as int, len as int, key),
        r matches SelectStep::Move(i) ==> i < len,
        r matches SelectStep::Pick(i) ==> i < len,
{
    match key {
        MenuKey::Up => SelectStep::Move(
            if selected > 0 {
                selected - 1
            } else {
                selected
            },
        ),
        MenuKey::Down => SelectStep::Move(
            if selected < len - 1 {
                selected + 1
            } else {
                selected
            },
        ),
        MenuKey::Enter => SelectStep::Pick(selected),
        MenuKey::Digit(d) => {
            if 1 <= d && (d as usize) <= len && d <= 9 {
                SelectStep::Pick((d - 1) as usize)
            } else {
                SelectStep::Move(selected)
            }
        },
        MenuKey::Abort => SelectStep::Aborted,
        MenuKey::Other => SelectStep::Move(selected),
    }
}

/// Where the menu starts: with no items there is nothing to pick, which is an
/// error; else the first item is highlighted.
pub fn select_start(len: usize) -> (r: Result<usize, String>)
    ensures
        len == 0 ==> (r matches Err(e) && e@ == "Menu error: no items to select from"@),
        len > 0 ==> (r matches Ok(i) && i == 0),
{
    if len == 0 {
        Err(String::from_str("Menu error: no items to select from"))
    } else {
        Ok(0)
    }
}

/// What the menu answers after a step: the picked item; `Aborted` when the
/// user gave up; nothing yet while the highlight moves.
pub fn select_result(step: SelectStep) -> (r: Option<Result<usize, String>>)
    ensures
        match step {
            SelectStep::Pick(i) => r matches Some(Ok(j)) && j == i,
            SelectStep::Aborted => r matches Some(Err(e)) && e@ == "Aborted"@,
            SelectStep::Move(_) => r is None,
        },
{
    match step {
        SelectStep::Pick(i) => Some(Ok(i)),
        SelectStep::Aborted => Some(Err(String::from_str("Aborted"))),
        SelectStep::Move(_) => None,
    }
}

/// A key press, as the line reader reads it.
#[derive(Debug, Clone, Copy, PartialEq, Eq, Structural)]
pub enum LineKey {
    Enter,
    Backspace,
    /// A typed character.
    Typed(char),
    /// Ctrl-C or Esc.
    Abort,
    Other,
}

/// What the line reader does after a key: go on with the new text, finish
/// with it, or give up.
pub enum LineStep {
    Edit(Vec<char>),
    Done(Vec<char>),
    Aborted,
}

/// Enter finishes; Backspace drops the last character (if any); a typed
/// character is appended, shaped as a branch name when `shape` (space to `-`,
/// no second `-` in a row); Ctrl-C or Esc aborts; any other key changes
/// nothing.
pub open spec fn line_next(text: Seq<char>, key: LineKey, shape: bool) -> (bool, bool, Seq<char>) {
    // (aborted, done, text)
    match key {
        LineKey::Enter => (false, true, text),
        LineKey::Backspace => (false, false, if text.len() > 0 { text.drop_last() } else { text }),
        LineKey::Typed(c) => {
            let t = if shape { shaped_char(text, c) } else { Some(c) };
            (false, false, match t {
                Some(ch) => text.push(ch),
                None => text,
            })
        },
        LineKey::Abort => (true, false, text),
        LineKey::Other => (false, false, text),
    }
}

/// The line reader's answer to `key` with `text` typed so far.
pub fn line_step(text: Vec<char>, key: LineKey, shape: bool) -> (r: LineStep)
    ensures
        ({
            let (aborted, done, t) = line_next(text@, key, shape);
            if aborted {
                r is Aborted
            } else if done {
                r matches LineStep::Done(v) && v@ == t
            } else {
                r matches LineStep::Edit(v) && v@ == t
            }
        }),
{
    let mut text = text;
    match key {
        LineKey::Enter => LineStep::Done(text),
        LineKey::Backspace => {
            if text.len() > 0 {
                text.pop();
            }
            LineStep::Edit(text)
        },
        LineKey::Typed(c) => {
            let ch = if c == ' ' && shape {
                '-'
            } else {
                c
            };
            let n = text.len();
            if shape && ch == '-' && n > 0 && text[n - 1] == '-' {
                LineStep::Edit(text)
            } else {
                text.push(ch);
                LineStep::Edit(text)
            }
        },
        LineKey::Abort => LineStep::Aborted,
        LineKey::Other => LineStep::Edit(text),
    }
}

/// What the line reader answers after a step: the finished text; `Aborted`
/// when the user gave up; nothing yet while the text is edited.
pub fn line_result(step: LineStep) -> (r: Option<Result<Vec<char>, String>>)
    ensures
        match step {
            LineStep::Done(t) => r matches Some(Ok(v)) && v@ == t@,
            LineStep::Aborted => r matches Some(Err(e)) && e@ == "Aborted"@,
            LineStep::Edit(_) => r is None,
        },
{
    match step {
        LineStep::Done(t) => Some(Ok(t)),
        LineStep::Aborted => Some(Err(String::from_str("Aborted"))),
        LineStep::Edit(_) => None,
    }
}

/// A plain line's answer: what was typed, without leading or trailing
/// whitespace.
pub fn typed_line(typed: &str) -> (r: String)
    ensures
        r@ == trim(typed@),
{
    let v = chars_of(typed);
    let (lo, hi) = trim_bounds(&v, 0, v.len());
    assert(v@.subrange(0, v@.len() as int) =~= v@);
    substring(typed, lo, hi)
}

} // verus!
