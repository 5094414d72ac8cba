//! Interface for interactive input. Logic that needs a user decision (the
//! branch-type menu, the release-type and breaking-change prompts) depends on
//! this trait instead of a terminal, so it stays runnable against mocks.
use vstd::prelude::*;

use crate::action::branch_name_error;

verus! {

/// Implementors promise what each method's documentation says: `select`
/// returns an index into `items`, and `prompt_name` returns only names that
/// `validate_branch_name` accepts.
pub trait Prompter {
    /// Present `items` and return the index of the chosen one.
    fn select(&self, prompt: &str, items: &[&str]) -> (r: Result<usize, String>)
        ensures
            r matches Ok(i) ==> i < items@.len(),
    ;

    /// Read a branch name, re-prompting until it passes `validate_branch_name`.
    /// Input is shaped as it is typed (space to `-`, collapsed, trimmed).
    fn prompt_name(&self, prompt: &str) -> (r: Result<String, String>)
        ensures
            r matches Ok(n) ==> branch_name_error(n@) is None,
    ;

    /// Read a free-form line (paths and commands) with no shaping and no
    /// validation beyond trimming.
    fn prompt_line(&self, prompt: &str) -> (r: Result<String, String>);
}

} // verus!
