//! Opening a directory in an editor, abstracted so flows run without
//! launching one.
use vstd::prelude::*;

verus! {

pub trait Editor {
    fn open(&self, path: &str) -> Result<(), String>;
}

/// Opens a path by running `<command> <path>`: any editor whose CLI opens a
/// folder this way (e.g. `code`, `cursor`).
pub struct CommandEditor {
    command: String,
}

impl CommandEditor {
    pub fn new(command: String) -> (r: Self)
        ensures
            r.command_view() == command@,
    {
        CommandEditor { command }
    }

    pub closed spec fn command_view(&self) -> Seq<char> {
        self.command@
    }

    /// The editor command.
    pub fn command(&self) -> (r: &str)
        ensures
            r@ == self.command_view(),
    {
        self.command.as_str()
    }
}

} // verus!
