//! The optional worktree flow of `bflow start`: a new branch gets its own git
//! worktree next to the repository (or under a configured directory) and is
//! opened in an editor, instead of switching the current checkout. Configured
//! through `git config bflow.worktree.*`.
use vstd::prelude::*;

use crate::editor::Editor;
use crate::flows::{string_eq, Output};
use crate::git::{bool_text, call_at, git_event, unit_answer, Git, GitAnswer, GitEvent, GitOp};
use crate::prompt::Prompter;
use crate::text::{cat, chars_of, has_prefix, starts_with_at, substring, trim};

verus! {

/// The worktree settings, as read from git config.
#[derive(Debug, Clone, PartialEq)]
pub struct WorktreeConfig {
    /// `bflow.worktree.enabled`: on only when it reads `true`.
    pub enabled: bool,
    /// `bflow.worktree.editor`: the command that opens a folder; `none` opens
    /// nothing. `code` when unset or blank.
    pub editor: String,
    /// `bflow.worktree.path`: the directory worktrees go in; unset (or blank)
    /// means next to the repository.
    pub base_path: Option<String>,
}

pub open spec fn opt_view(v: Option<String>) -> Option<Seq<char>> {
    match v {
        Some(s) => Some(s@),
        None => None,
    }
}

pub open spec fn enabled_from(v: Option<Seq<char>>) -> bool {
    v matches Some(s) && trim(s) == "true"@
}

pub open spec fn editor_from(v: Option<Seq<char>>) -> Seq<char> {
    match v {
        Some(s) => if trim(s).len() > 0 {
            trim(s)
        } else {
            "code"@
        },
        None => "code"@,
    }
}

pub open spec fn path_from(v: Option<Seq<char>>) -> Option<Seq<char>> {
    match v {
        Some(s) => if trim(s).len() > 0 {
            Some(trim(s))
        } else {
            None
        },
        None => None,
    }
}

fn trimmed(s: &str) -> (r: String)
    ensures
        r@ == trim(s@),
{
    let v = chars_of(s);
    let (lo, hi) = crate::text::trim_bounds(&v, 0, v.len());
    assert(v@.subrange(0, v@.len() as int) =~= v@);
    substring(s, lo, hi)
}

impl WorktreeConfig {
    /// The settings from the three raw config values (each absent when unset).
    pub fn from_values(enabled: Option<String>, editor: Option<String>, path: Option<String>) -> (r: Self)
        ensures
            r.enabled == enabled_from(opt_view(enabled)),
            r.editor@ == editor_from(opt_view(editor)),
            opt_view(r.base_path) == path_from(opt_view(path)),
    {
        let on = match &enabled {
            Some(v) => string_eq(trimmed(v.as_str()).as_str(), "true"),
            None => false,
        };
        let ed = match &editor {
            Some(v) => {
                let t = trimmed(v.as_str());
                if t.unicode_len() > 0 {
                    t
                } else {
                    String::from_str("code")
                }
            },
            None => String::from_str("code"),
        };
        let base = match &path {
            Some(v) => {
                let t = trimmed(v.as_str());
                if t.unicode_len() > 0 {
                    Some(t)
                } else {
                    None
                }
            },
            None => None,
        };
        WorktreeConfig { enabled: on, editor: ed, base_path: base }
    }

    /// Read the settings from git config.
    pub fn load<G: Git>(git: &mut G) -> (r: Result<Self, String>)
        ensures
            crate::git::extends(final(git).history(), old(git).history()),
            crate::git::no_local_change(old(git).history(), final(git).history()),
            r matches Ok(c) ==> exists|e: Option<Seq<char>>, d: Option<Seq<char>>, p: Option<Seq<char>>|
                c.enabled == #[trigger] enabled_from(e) && c.editor@ == #[trigger] editor_from(d)
                    && opt_view(c.base_path) == #[trigger] path_from(p),
    {
        let enabled = git.get_config("bflow.worktree.enabled")?;
        let editor = git.get_config("bflow.worktree.editor")?;
        let path = git.get_config("bflow.worktree.path")?;
        Ok(Self::from_values(enabled, editor, path))
    }
}

/// Where the last `c` in `s` is.
pub open spec fn last_index(s: Seq<char>, c: char) -> Option<int>
    decreases s.len(),
{
    if s.len() == 0 {
        None
    } else if s.last() == c {
        Some(s.len() - 1)
    } else {
        last_index(s.drop_last(), c)
    }
}

proof fn lemma_last_index_bounds(s: Seq<char>, c: char)
    ensures
        last_index(s, c) matches Some(i) ==> 0 <= i < s.len() && s[i] == c,
    decreases s.len(),
{
    if s.len() > 0 && s.last() != c {
        lemma_last_index_bounds(s.drop_last(), c);
    }
}

fn last_index_of(s: &str, c: char) -> (r: Option<usize>)
    ensures
        match r {
            Some(k) => last_index(s@, c) == Some(k as int),
            None => last_index(s@, c) is None,
        },
{
    let v = chars_of(s);
    let mut i: usize = v.len();
    assert(v@.take(i as int) =~= v@);
    while i > 0
        invariant
            v@ == s@,
            i <= v@.len(),
            last_index(s@, c) == last_index(v@.take(i as int), c),
        decreases i,
    {
        if v[i - 1] == c {
            return Some(i - 1);
        }
        assert(v@.take(i as int).drop_last() =~= v@.take(i - 1));
        i = i - 1;
    }
    None
}

/// The last component of the repository root: the repository's name.
pub open spec fn repo_name(root: Seq<char>) -> Seq<char> {
    match last_index(root, '/') {
        Some(i) => root.skip(i + 1),
        None => root,
    }
}

/// The directory holding the repository root.
pub open spec fn parent_dir(root: Seq<char>) -> Seq<char> {
    match last_index(root, '/') {
        Some(i) => if i == 0 {
            "/"@
        } else {
            root.take(i)
        },
        None => "."@,
    }
}

pub fn repo_name_of(root: &str) -> (r: String)
    ensures
        r@ == repo_name(root@),
{
    proof {
        lemma_last_index_bounds(root@, '/');
    }
    let n = root.unicode_len();
    match last_index_of(root, '/') {
        Some(i) => substring(root, i + 1, n),
        None => String::from_str(root),
    }
}

pub fn parent_dir_of(root: &str) -> (r: String)
    ensures
        r@ == parent_dir(root@),
{
    proof {
        lemma_last_index_bounds(root@, '/');
        reveal_strlit("/");
        reveal_strlit(".");
    }
    match last_index_of(root, '/') {
        Some(i) => if i == 0 {
            String::from_str("/")
        } else {
            let p = substring(root, 0, i);
            assert(p@ =~= root@.take(i as int));
            p
        },
        None => String::from_str("."),
    }
}

/// A branch name as a folder-name piece: each `/` becomes `-`.
pub open spec fn dashed(branch: Seq<char>) -> Seq<char> {
    branch.map_values(|c: char| if c == '/' { '-' } else { c })
}

/// The worktree folder of `branch`: `<repo>-<branch with / as ->`.
pub open spec fn folder_name(repo: Seq<char>, branch: Seq<char>) -> Seq<char> {
    repo + "-"@ + dashed(branch)
}

/// A worktree folder is a single path component: for a repository name
/// without `/`, its folder name has none either, whatever the branch.
pub proof fn law_worktree_folder_is_one_component(repo: Seq<char>, branch: Seq<char>)
    requires
        forall|i: int| 0 <= i < repo.len() ==> repo[i] != '/',
    ensures
        forall|i: int| 0 <= i < folder_name(repo, branch).len() ==> folder_name(repo, branch)[i] != '/',
{
    let f = folder_name(repo, branch);
    reveal_strlit("-");
    assert forall|i: int| 0 <= i < f.len() implies f[i] != '/' by {
        if i < repo.len() {
            assert(f[i] == repo[i]);
        } else if i == repo.len() {
            assert(f[i] == '-');
        } else {
            assert(f[i] == dashed(branch)[i - repo.len() - 1]);
        }
    }
}

/// `name` inside directory `dir`.
pub open spec fn join_dir(dir: Seq<char>, name: Seq<char>) -> Seq<char> {
    if dir.len() > 0 && dir.last() == '/' {
        dir + name
    } else {
        dir + "/"@ + name
    }
}

/// Where the worktree of `branch` goes: its folder inside the configured
/// directory, or next to the repository.
pub open spec fn worktree_path_text(root: Seq<char>, repo: Seq<char>, base: Option<Seq<char>>, branch: Seq<char>) -> Seq<
    char,
> {
    let dir = match base {
        Some(b) => b,
        None => parent_dir(root),
    };
    join_dir(dir, folder_name(repo, branch))
}

fn dashed_of(branch: &str) -> (r: String)
    ensures
        r@ == dashed(branch@),
{
    let v = chars_of(branch);
    let mut out = String::new();
    let mut start: usize = 0;
    let mut i: usize = 0;
    while i < v.len()
        invariant
            start <= i <= v@.len(),
            v@ == branch@,
            out@ == dashed(branch@).take(start as int),
            forall|k: int| start <= k < i ==> branch@[k] != '/',
        decreases v@.len() - i,
    {
        if v[i] == '/' {
            let seg = substring(branch, start, i);
            out.append(seg.as_str());
            out.append("-");
            proof {
                reveal_strlit("-");
                assert(dashed(branch@).take(i + 1) =~= dashed(branch@).take(start as int) + seg@ + "-"@);
            }
            start = i + 1;
        }
        i = i + 1;
    }
    let seg = substring(branch, start, v.len());
    out.append(seg.as_str());
    assert(dashed(branch@) =~= dashed(branch@).take(start as int) + seg@);
    out
}

pub fn worktree_path(repo_root: &str, repo: &str, base: Option<&str>, branch: &str) -> (r: String)
    ensures
        r@ == worktree_path_text(
            repo_root@,
            repo@,
            match base {
                Some(b) => Some(b@),
                None => None,
            },
            branch@,
        ),
{
    let dir = match base {
        Some(b) => String::from_str(b),
        None => parent_dir_of(repo_root),
    };
    let mut folder = String::from_str(repo);
    folder.append("-");
    folder.append(dashed_of(branch).as_str());
    proof {
        reveal_strlit("-");
    }
    let mut out = String::from_str(dir.as_str());
    let dv = chars_of(dir.as_str());
    if dv.len() > 0 && dv[dv.len() - 1] == '/' {
        out.append(folder.as_str());
    } else {
        out.append("/");
        out.append(folder.as_str());
        proof {
            reveal_strlit("/");
        }
    }
    out
}

/// A configured directory with a leading `~` read as the home directory (git
/// config values never pass through a shell that would expand it).
pub open spec fn expand_home_text(base: Seq<char>, home: Option<Seq<char>>) -> Seq<char> {
    match home {
        Some(h) => if base == "~"@ {
            h
        } else if has_prefix(base, "~/"@) {
            h + base.skip(1)
        } else {
            base
        },
        None => base,
    }
}

pub fn expand_home(base: &str, home: Option<&str>) -> (r: String)
    ensures
        r@ == expand_home_text(
            base@,
            match home {
                Some(h) => Some(h@),
                None => None,
            },
        ),
{
    match home {
        Some(h) => {
            if string_eq(base, "~") {
                return String::from_str(h);
            }
            let v = chars_of(base);
            assert(v@.skip(0) =~= v@);
            if starts_with_at(&v, 0, "~/") {
                proof {
                    reveal_strlit("~/");
                }
                let mut out = String::from_str(h);
                out.append(substring(base, 1, v.len()).as_str());
                out
            } else {
                String::from_str(base)
            }
        },
        None => String::from_str(base),
    }
}

/// The editors the setup offers, by label, with the command each runs.
pub fn editor_presets() -> (r: Vec<(&'static str, &'static str)>)
    ensures
        r@.len() == 5,
        r@[0].0@ == "VS Code"@ && r@[0].1@ == "code"@,
        r@[1].0@ == "Cursor"@ && r@[1].1@ == "cursor"@,
        r@[2].0@ == "PyCharm"@ && r@[2].1@ == "pycharm"@,
        r@[3].0@ == "Zed"@ && r@[3].1@ == "zed"@,
        r@[4].0@ == "None (don't open)"@ && r@[4].1@ == "none"@,
{
    vec![("VS Code", "code"), ("Cursor", "cursor"), ("PyCharm", "pycharm"), ("Zed", "zed"), ("None (don't open)", "none")]
}

/// `bflow worktree enable|disable`.
pub fn set_enabled<G: Git>(git: &mut G, enabled: bool, local: bool) -> (r: Result<(), String>)
    ensures
        final(git).history() == old(git).history().push(
            git_event(GitOp::SetConfig, seq!["bflow.worktree.enabled"@, bool_text(enabled), bool_text(!local)], unit_answer(r)),
        ),
{
    git.set_config(
        "bflow.worktree.enabled",
        if enabled {
            "true"
        } else {
            "false"
        },
        !local,
    )
}

/// `bflow worktree editor <cmd>`.
pub fn set_editor<G: Git>(git: &mut G, editor: &str, local: bool) -> (r: Result<(), String>)
    ensures
        final(git).history() == old(git).history().push(
            git_event(GitOp::SetConfig, seq!["bflow.worktree.editor"@, editor@, bool_text(!local)], unit_answer(r)),
        ),
{
    git.set_config("bflow.worktree.editor", editor, !local)
}

/// `bflow worktree path <dir>`.
pub fn set_path<G: Git>(git: &mut G, path: &str, local: bool) -> (r: Result<(), String>)
    ensures
        final(git).history() == old(git).history().push(
            git_event(GitOp::SetConfig, seq!["bflow.worktree.path"@, path@, bool_text(!local)], unit_answer(r)),
        ),
{
    git.set_config("bflow.worktree.path", path, !local)
}

/// Back to the default location, next to the repository.
pub fn use_default_path<G: Git>(git: &mut G, local: bool) -> (r: Result<(), String>)
    ensures
        final(git).history() == old(git).history().push(
            git_event(GitOp::UnsetConfig, seq!["bflow.worktree.path"@, bool_text(!local)], unit_answer(r)),
        ),
{
    git.unset_config("bflow.worktree.path", !local)
}

/// `bflow worktree status`: the three settings as they apply.
pub fn show_status<G: Git>(git: &mut G, out: &dyn Output) -> (r: Result<(), String>)
    ensures
        crate::git::extends(final(git).history(), old(git).history()),
        crate::git::no_local_change(old(git).history(), final(git).history()),
{
    let cfg = WorktreeConfig::load(git)?;
    out.line(cat(&["enabled: ", if cfg.enabled { "true" } else { "false" }]).as_str());
    out.line(cat(&["editor:  ", cfg.editor.as_str()]).as_str());
    match &cfg.base_path {
        Some(p) => out.line(cat(&["path:    ", p.as_str()]).as_str()),
        None => out.line("path:    (next to the repository)"),
    }
    Ok(())
}

/// Everything asked of git between `h0` and `h` sets or clears one of the
/// worktree settings (`bflow.worktree.*`), in the scope that `local` picks:
/// the first sets whether the worktree flow is on.
pub open spec fn worktree_settings_only(h0: Seq<GitEvent>, h: Seq<GitEvent>, local: bool) -> bool {
    &&& h.len() > h0.len() ==> call_at(h, h0.len() as int, GitOp::SetConfig, seq![
        "bflow.worktree.enabled"@,
        h[h0.len() as int].args[1],
        bool_text(!local),
    ])
    &&& forall|i: int| h0.len() <= i < h.len() ==> {
        ||| (#[trigger] h[i]).op == GitOp::SetConfig && h[i].args.len() == 3 && h[i].args[2] == bool_text(!local)
            && has_prefix(h[i].args[0], "bflow.worktree."@)
        ||| h[i].op == GitOp::UnsetConfig && h[i].args == seq!["bflow.worktree.path"@, bool_text(!local)]
    }
}

/// `bflow worktree`: set the three settings interactively.
pub fn wizard<G: Git>(git: &mut G, prompter: &dyn Prompter, out: &dyn Output, local: bool) -> (r: Result<(), String>)
    ensures
        crate::git::extends(final(git).history(), old(git).history()),
        worktree_settings_only(old(git).history(), final(git).history(), local),
{
    proof {
        reveal_strlit("bflow.worktree.");
        reveal_strlit("bflow.worktree.enabled");
        reveal_strlit("bflow.worktree.editor");
        reveal_strlit("bflow.worktree.path");
        assert("bflow.worktree.enabled"@.subrange(0, 15) =~= "bflow.worktree."@);
        assert("bflow.worktree.editor"@.subrange(0, 15) =~= "bflow.worktree."@);
        assert("bflow.worktree.path"@.subrange(0, 15) =~= "bflow.worktree."@);
    }
    let yes_no: Vec<&str> = vec!["yes", "no"];
    let on = prompter.select("Create new branches in their own worktree?", yes_no.as_slice())? == 0;
    set_enabled(git, on, local)?;
    if !on {
        out.line("Worktree flow disabled.");
        return Ok(());
    }
    let presets = editor_presets();
    let mut labels: Vec<&str> = Vec::new();
    let mut i: usize = 0;
    while i < presets.len()
        invariant
            labels@.len() == i,
            i <= presets@.len(),
        decreases presets@.len() - i,
    {
        labels.push(presets[i].0);
        i = i + 1;
    }
    labels.push("Other command...");
    let pick = prompter.select("Open new worktrees with", labels.as_slice())?;
    if pick < presets.len() {
        set_editor(git, presets[pick].1, local)?;
    } else {
        let cmd = prompter.prompt_line("Editor command")?;
        set_editor(git, cmd.as_str(), local)?;
    }
    let places: Vec<&str> = vec!["next to the repository", "a directory of my choice"];
    if prompter.select("Put worktrees in", places.as_slice())? == 0 {
        use_default_path(git, local)?;
    } else {
        let dir = prompter.prompt_line("Worktree directory")?;
        set_path(git, dir.as_str(), local)?;
    }
    out.line("Worktree flow enabled.");
    Ok(())
}

/// What a start needs to put a new branch in a worktree.
pub struct WorktreeContext<'a> {
    pub config: &'a WorktreeConfig,
    pub editor: &'a dyn Editor,
}

/// What adding the worktree of `branch` asks of git (history `h` after `h0`):
/// the repository's root; then the worktree at `worktree_path_text` of it
/// (under `base`, or next to the repository), and nothing more. The result is
/// that of the worktree's creation, or the failed root's error.
pub open spec fn worktree_events(h0: Seq<GitEvent>, h: Seq<GitEvent>, base: Option<Seq<char>>, branch: Seq<char>, r: Result<(), String>) -> bool {
    let k = h0.len() as int;
    &&& call_at(h, k, GitOp::RepoRoot, Seq::empty())
    &&& match h[k].answer {
        GitAnswer::Failed(e) => h.len() == k + 1 && (r matches Err(m) && m@ == e),
        GitAnswer::Text(root) => {
            &&& call_at(h, k + 1, GitOp::AddWorktree, seq![worktree_path_text(root, repo_name(root), base, branch), branch])
            &&& h.len() == k + 2
            &&& h[k + 1].answer == unit_answer(r)
        },
        _ => false,
    }
}

/// Add the worktree of the just-created `branch` and open it in the editor
/// (unless the editor is `none`). An editor that fails to open is reported,
/// not fatal: the worktree is already there.
pub fn open_worktree<G: Git>(git: &mut G, out: &dyn Output, ctx: &WorktreeContext, branch: &str) -> (r: Result<(), String>)
    ensures
        crate::git::extends(final(git).history(), old(git).history()),
        worktree_events(old(git).history(), final(git).history(), opt_view(ctx.config.base_path), branch@, r),
{
    let root = git.repo_root()?;
    let repo = repo_name_of(root.as_str());
    let base = match &ctx.config.base_path {
        Some(b) => Some(b.as_str()),
        None => None,
    };
    let path = worktree_path(root.as_str(), repo.as_str(), base, branch);
    git.add_worktree(path.as_str(), branch)?;
    out.line(cat(&["Worktree: ", path.as_str()]).as_str());
    if !string_eq(ctx.config.editor.as_str(), "none") {
        match ctx.editor.open(path.as_str()) {
            Ok(()) => {},
            Err(e) => out.warning(
                cat(&["⚠ Could not open the worktree in '", ctx.config.editor.as_str(), "': ", e.as_str()]).as_str(),
            ),
        }
    }
    Ok(())
}

} // verus!
