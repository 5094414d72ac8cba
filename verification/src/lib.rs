//! bflow: a gitflow workflow library. Branch naming, semantic versions, the
//! repository policy file, the finish-state file, and the flows that drive git
//! and the hosting platform; each flow's contract says what it asks of them,
//! in terms of the operations they record.
use vstd::prelude::*;

pub mod text;
pub mod lines;
pub mod version;
pub mod order;
pub mod git;
pub mod state;
pub mod repo_config;
pub mod action;
pub mod flows;
pub mod prompt;
pub mod menu;
pub mod cli;
pub mod hosting;
pub mod paths;
pub mod style;
pub mod version_script;
pub mod editor;
pub mod mainline;
pub mod init;
pub mod session;
pub mod worktree;
pub mod keys;
pub mod lifecycle;

verus! {

} // verus!
