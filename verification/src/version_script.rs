//! Discovery and execution of the repo's optional version-bump script.
//!
//! bflow looks for `.bflow/set-version.sh` (or `.bflow/set-version.cmd` on
//! Windows) and, when present, runs it with the new version as the only
//! argument. A repo with neither file behaves exactly as if this module did
//! not exist: the caller sees `Ok(None)` and skips the step entirely.
use vstd::prelude::*;

use crate::paths::{double_rooted, path_exists, path_file_name, path_join, path_strip_prefix, plain_relative, windows_paths};
use crate::text::{contains_seq, decimal, push_decimal};

verus! {

pub const SCRIPT_UNIX: &'static str = ".bflow/set-version.sh";

pub const SCRIPT_WINDOWS: &'static str = ".bflow/set-version.cmd";

/// Interface for running the version script, so flows run without spawning a
/// real process.
pub trait VersionScript {
    fn run(&self, version: &str) -> Result<(), String>;

    /// Run the script inside another working tree: `dir`'s own copy of the
    /// script, with `dir` as the working directory.
    fn run_in(&self, dir: &str, version: &str) -> Result<(), String>;

    fn display_name(&self) -> String;
}

pub open spec fn wrong_platform_message(own: Seq<char>, other: Seq<char>) -> Seq<char> {
    "Found "@ + other + " but this platform needs "@ + own + ". Add "@ + own + " (or remove "@ + other + ")."@
}

/// The platform pick: this platform's script if present; else an error when
/// only the other platform's is; else no script.
pub open spec fn script_choice(own: Seq<char>, other: Seq<char>, own_exists: bool, other_exists: bool) -> Result<
    Option<Seq<char>>,
    Seq<char>,
> {
    if own_exists {
        Ok(Some(own))
    } else if other_exists {
        Err(wrong_platform_message(own, other))
    } else {
        Ok(None)
    }
}

pub open spec fn result_view(r: Result<Option<String>, String>) -> Result<Option<Seq<char>>, Seq<char>> {
    match r {
        Ok(Some(p)) => Ok(Some(p@)),
        Ok(None) => Ok(None),
        Err(e) => Err(e@),
    }
}

/// Which script to use, given this platform's path, the other platform's,
/// and which of them exist.
pub fn choose_script(own: String, other: String, own_exists: bool, other_exists: bool) -> (r: Result<
    Option<String>,
    String,
>)
    ensures
        result_view(r) == script_choice(own@, other@, own_exists, other_exists),
{
    if own_exists {
        Ok(Some(own))
    } else if other_exists {
        let mut e = String::from_str("Found ");
        e.append(other.as_str());
        e.append(" but this platform needs ");
        e.append(own.as_str());
        e.append(". Add ");
        e.append(own.as_str());
        e.append(" (or remove ");
        e.append(other.as_str());
        e.append(").");
        Err(e)
    } else {
        Ok(None)
    }
}

/// The script a Windows (or any other) platform runs.
pub open spec fn platform_script(windows: bool) -> Seq<char> {
    if windows {
        ".bflow/set-version.cmd"@
    } else {
        ".bflow/set-version.sh"@
    }
}

/// `p` is `rel` joined under `base`, with or without a separator between.
pub open spec fn joined_under(base: Seq<char>, p: Seq<char>, rel: Seq<char>) -> bool {
    p == base + rel || p == base + "/"@ + rel || p == base + "\\"@ + rel
}

/// What `resolve_for` answers for `root` on a Windows (or other) platform:
/// a refusal names the two scripts and a found script is this platform's,
/// each joined under `root` (when `root` is not double-rooted).
pub open spec fn resolved_for(root: Seq<char>, windows: bool, r: Result<Option<String>, String>) -> bool {
    match r {
        Err(e) => exists|own: Seq<char>, other: Seq<char>|
            e@ == #[trigger] wrong_platform_message(own, other) && (!double_rooted(root) ==> joined_under(
                root,
                own,
                platform_script(windows),
            ) && joined_under(root, other, platform_script(!windows))),
        Ok(Some(p)) => !double_rooted(root) ==> joined_under(root, p@, platform_script(windows)),
        Ok(None) => true,
    }
}

/// The version script under `repo_root` for a Windows or other platform, as
/// `choose_script` picks it from what is on disk: this platform's script when
/// present, a refusal naming both when only the other's is, else none.
pub fn resolve_for(repo_root: &str, windows: bool) -> (r: Result<Option<String>, String>)
    ensures
        resolved_for(repo_root@, windows, r),
{
    proof {
        reveal_strlit(".bflow/set-version.sh");
        reveal_strlit(".bflow/set-version.cmd");
    }
    let (own, other) = if windows {
        (SCRIPT_WINDOWS, SCRIPT_UNIX)
    } else {
        (SCRIPT_UNIX, SCRIPT_WINDOWS)
    };
    assert(own@ == platform_script(windows) && other@ == platform_script(!windows));
    assert(plain_relative(own@) && plain_relative(other@));
    let own_path = path_join(repo_root, own);
    let other_path = path_join(repo_root, other);
    let own_exists = path_exists(own_path.as_str());
    let other_exists = own_exists || path_exists(other_path.as_str());
    let ghost (o, t) = (own_path@, other_path@);
    let r = choose_script(own_path, other_path, own_exists, other_exists);
    proof {
        if r is Err {
            assert(r->Err_0@ == wrong_platform_message(o, t));
        }
    }
    r
}

/// The version script for this platform under `repo_root` (anchored there,
/// not at the working directory, so it is found from subdirectories): as
/// `resolve_for` picks it on this machine.
pub fn resolve(repo_root: &str) -> (r: Result<Option<String>, String>)
    ensures
        exists|windows: bool| resolved_for(repo_root@, windows, r),
{
    let windows = windows_paths();
    resolve_for(repo_root, windows)
}

/// `n` as `i32`'s `Display` writes it.
pub open spec fn signed_decimal(n: int) -> Seq<char> {
    if n < 0 {
        seq!['-'] + decimal((-n) as nat)
    } else {
        decimal(n as nat)
    }
}

/// The user-facing outcome of a finished script process, from its exit code
/// (`None` when a signal ended it) and its standard error.
pub open spec fn outcome(path: Seq<char>, code: Option<i32>, stderr: Seq<char>) -> Result<(), Seq<char>> {
    match code {
        Some(c) => if c == 0 {
            Ok(())
        } else {
            Err(
                "Version script "@ + path + " failed (exit "@ + signed_decimal(c as int) + "): "@ + stderr
                    + "\nFix the script, then re-run the command."@,
            )
        },
        None => Err("Version script "@ + path + " was terminated by a signal."@),
    }
}

/// Turn a finished process outcome into the user-facing result.
pub fn interpret(path: &str, code: Option<i32>, stderr: &str) -> (r: Result<(), String>)
    ensures
        match outcome(path@, code, stderr@) {
            Ok(()) => r is Ok,
            Err(m) => r matches Err(e) && e@ == m,
        },
{
    match code {
        Some(c) => {
            if c == 0 {
                return Ok(());
            }
            let mut e = String::from_str("Version script ");
            e.append(path);
            e.append(" failed (exit ");
            let ghost before = e@;
            if c < 0 {
                proof {
                    reveal_strlit("-");
                }
                e.append("-");
                let m: i64 = c as i64;
                let magnitude: u64 = (0 - m) as u64;
                assert(magnitude as int == -(c as int));
                push_decimal(&mut e, magnitude);
                assert(e@ =~= before + signed_decimal(c as int));
            } else {
                push_decimal(&mut e, c as u64);
                assert(e@ =~= before + signed_decimal(c as int));
            }
            e.append("): ");
            e.append(stderr);
            e.append("\nFix the script, then re-run the command.");
            Err(e)
        },
        None => {
            let mut e = String::from_str("Version script ");
            e.append(path);
            e.append(" was terminated by a signal.");
            Err(e)
        },
    }
}

pub open spec fn spawn_failure_text(script: Seq<char>, err: Seq<char>) -> Seq<char> {
    "Version script "@ + script + " could not be run: "@ + err + "\nMake it executable: chmod +x "@ + script
        + " && git update-index --chmod=+x "@ + script + ", then re-run the command."@
}

/// The error for a script the system could not start, naming the remedy.
pub fn spawn_failure_message(script: &str, err: &str) -> (r: String)
    ensures
        r@ == spawn_failure_text(script@, err@),
{
    let mut e = String::from_str("Version script ");
    e.append(script);
    e.append(" could not be run: ");
    e.append(err);
    e.append("\nMake it executable: chmod +x ");
    e.append(script);
    e.append(" && git update-index --chmod=+x ");
    e.append(script);
    e.append(", then re-run the command.");
    e
}

pub open spec fn not_under_root_text(path: Seq<char>, root: Seq<char>) -> Seq<char> {
    "Version script "@ + path + " is not under the repo root "@ + root
        + ", so it cannot be located in another worktree."@
}

/// The resolved script: its path, and the repository root it runs in.
pub struct ScriptCli {
    path: String,
    repo_root: String,
}

impl View for ScriptCli {
    type V = (Seq<char>, Seq<char>);

    closed spec fn view(&self) -> (Seq<char>, Seq<char>) {
        (self.path@, self.repo_root@)
    }
}

impl ScriptCli {
    pub fn new(path: String, repo_root: String) -> (r: Self)
        ensures
            r@ == (path@, repo_root@),
    {
        ScriptCli { path, repo_root }
    }

    /// The script's path.
    pub fn path(&self) -> (r: &str)
        ensures
            r@ == self@.0,
    {
        self.path.as_str()
    }

    /// The repository root the script runs in.
    pub fn repo_root(&self) -> (r: &str)
        ensures
            r@ == self@.1,
    {
        self.repo_root.as_str()
    }

    /// The script's file name, or its whole path when it has none.
    pub fn display_name(&self) -> (r: String)
        ensures
            r@ == self@.0 || contains_seq(self@.0, r@),
    {
        match path_file_name(self.path.as_str()) {
            Some(name) => name,
            None => self.path.clone(),
        }
    }

    /// Where the script lives inside another working tree `dir`: `dir`'s own
    /// copy, at the same place relative to the tree's root.
    pub fn script_in(&self, dir: &str) -> (r: Result<String, String>)
        ensures
            r matches Err(e) ==> e@ == not_under_root_text(self@.0, self@.1),
    {
        match path_strip_prefix(self.path.as_str(), self.repo_root.as_str()) {
            Some(rel) => Ok(path_join(dir, rel.as_str())),
            None => {
                let mut e = String::from_str("Version script ");
                e.append(self.path.as_str());
                e.append(" is not under the repo root ");
                e.append(self.repo_root.as_str());
                e.append(", so it cannot be located in another worktree.");
                Err(e)
            },
        }
    }
}

} // verus!
