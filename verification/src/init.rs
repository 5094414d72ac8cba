//! First-run initialisation: the wizard that decides `.bflow/config`, and the
//! refusal to run it twice.
use vstd::prelude::*;

use crate::prompt::Prompter;
use crate::repo_config::{BumpStrategy, Mode, RepoConfig};

verus! {

pub open spec fn already_text() -> Seq<char> {
    "Already initialised: edit .bflow/config directly (mode, keep-release-branches, bump-strategy)."@
}

/// The policy the wizard's three answers (each the index of the chosen
/// option, defaults first) amount to.
pub open spec fn config_of_choices(mode: int, keep: int, bump: int) -> RepoConfig {
    RepoConfig {
        mode: if mode == 0 {
            Mode::Free
        } else {
            Mode::Protected
        },
        keep_release_branches: keep == 1,
        bump_strategy: if bump == 0 {
            BumpStrategy::Rc
        } else {
            BumpStrategy::Patch
        },
    }
}

pub fn config_from_choices(mode: usize, keep: usize, bump: usize) -> (r: RepoConfig)
    ensures
        r == config_of_choices(mode as int, keep as int, bump as int),
{
    RepoConfig {
        mode: if mode == 0 {
            Mode::Free
        } else {
            Mode::Protected
        },
        keep_release_branches: keep == 1,
        bump_strategy: if bump == 0 {
            BumpStrategy::Rc
        } else {
            BumpStrategy::Patch
        },
    }
}

/// Ask the three policy questions (defaults first); the policy to write.
pub fn wizard(prompter: &dyn Prompter) -> (r: Result<RepoConfig, String>)
    ensures
        r matches Ok(c) ==> exists|m: int, k: int, b: int| c == #[trigger] config_of_choices(m, k, b),
{
    let modes: Vec<&str> = vec![
        "free — merge and push directly",
        "protected — every landing goes through a PR",
    ];
    let mode = prompter.select("Landing mode", modes.as_slice())?;
    let keeps: Vec<&str> = vec!["delete (default)", "keep"];
    let keep = prompter.select("Release branches after finish", keeps.as_slice())?;
    let bumps: Vec<&str> = vec![
        "rc — pre-release tags, one clean tag at finish (default)",
        "patch — real patch version on every bump",
    ];
    let bump = prompter.select("Bump strategy", bumps.as_slice())?;
    Ok(config_from_choices(mode, keep, bump))
}

/// `bflow init`: refuse when the repository is already initialised, else run
/// the wizard; the policy to write.
pub fn run(prompter: &dyn Prompter, initialised: bool) -> (r: Result<RepoConfig, String>)
    ensures
        initialised ==> (r matches Err(e) && e@ == already_text()),
{
    if initialised {
        return Err(
            String::from_str(
                "Already initialised: edit .bflow/config directly (mode, keep-release-branches, bump-strategy).",
            ),
        );
    }
    wizard(prompter)
}

} // verus!
