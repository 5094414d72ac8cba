//! Which branch is this repo's mainline: `main` or `master`. Resolved once
//! and threaded into the flows as data.
use vstd::prelude::*;

use crate::flows::{string_eq, Output};
use crate::git::{bool_text, call_at, Git, GitAnswer, GitEvent, GitOp};
use crate::text::{cat, chars_of, trim, trim_bounds};

verus! {

/// Git config key holding the repo's mainline branch name (local scope: the
/// mainline is a property of the repository).
pub const MAIN_BRANCH_KEY: &'static str = "bflow.branch.main";

pub open spec fn supported_mainline(n: Seq<char>) -> bool {
    n == "main"@ || n == "master"@
}

pub open spec fn unsupported_mainline_text(n: Seq<char>) -> Seq<char> {
    "Unsupported mainline branch '"@ + n + "' in bflow.branch.main. bflow supports 'main' or 'master'. Fix it with 'git config bflow.branch.main main'."@
}

/// What a configured mainline value decides: nothing when it is blank; the
/// branch when it is `main` or `master`; otherwise a refusal.
pub fn configured_mainline(value: &str) -> (r: Option<Result<String, String>>)
    ensures
        trim(value@).len() == 0 ==> r is None,
        trim(value@).len() > 0 && supported_mainline(trim(value@)) ==> (r matches Some(Ok(b)) && b@ == trim(value@)),
        trim(value@).len() > 0 && !supported_mainline(trim(value@)) ==> (r matches Some(Err(e)) && e@
            == unsupported_mainline_text(trim(value@))),
{
    let v = chars_of(value);
    let (a, b) = trim_bounds(&v, 0, v.len());
    assert(v@.subrange(0, v@.len() as int) =~= v@);
    if a == b {
        return None;
    }
    let t = value.substring_char(a, b);
    if string_eq(t, "main") || string_eq(t, "master") {
        Some(Ok(String::from_str(t)))
    } else {
        let mut e = String::from_str("Unsupported mainline branch '");
        e.append(t);
        e.append(
            "' in bflow.branch.main. bflow supports 'main' or 'master'. Fix it with 'git config bflow.branch.main main'.",
        );
        Some(Err(e))
    }
}

/// From operation `k` of `h`: git was asked whether branch `name` exists
/// locally and, only when it said no, on origin.
pub open spec fn asked_exists(h: Seq<GitEvent>, k: int, name: Seq<char>) -> bool {
    &&& call_at(h, k, GitOp::LocalBranchExists, seq![name])
    &&& (h[k].answer is Flag || h[k].answer is Failed)
    &&& h[k].answer == GitAnswer::Flag(false) ==> call_at(h, k + 1, GitOp::RemoteBranchExists, seq![name]) && (h[k
        + 1].answer is Flag || h[k + 1].answer is Failed)
}

/// How many questions that took (one, or two when the local answer was no).
pub open spec fn asked_len(h: Seq<GitEvent>, k: int) -> int {
    if h[k].answer == GitAnswer::Flag(false) {
        2
    } else {
        1
    }
}

/// The last of those answers: whether the branch exists, or the failure.
pub open spec fn asked_answer(h: Seq<GitEvent>, k: int) -> GitAnswer {
    h[k + asked_len(h, k) - 1].answer
}

/// What detecting the mainline asks of git from operation `k` of `h` on:
/// whether `main` exists (locally, else on origin), and when it does not,
/// whether `master` does; nothing more. `main` when it exists, else `master`
/// when that exists, else `main`; a failed answer is the error.
pub open spec fn mainline_detected(h: Seq<GitEvent>, k: int, r: Result<String, String>) -> bool {
    let k2 = k + asked_len(h, k);
    &&& asked_exists(h, k, "main"@)
    &&& match asked_answer(h, k) {
        GitAnswer::Failed(e) => h.len() == k2 && (r matches Err(m) && m@ == e),
        GitAnswer::Flag(true) => h.len() == k2 && (r matches Ok(b) && b@ == "main"@),
        _ => {
            &&& asked_exists(h, k2, "master"@)
            &&& h.len() == k2 + asked_len(h, k2)
            &&& match asked_answer(h, k2) {
                GitAnswer::Failed(e) => r matches Err(m) && m@ == e,
                GitAnswer::Flag(true) => r matches Ok(b) && b@ == "master"@,
                _ => r matches Ok(b) && b@ == "main"@,
            }
        },
    }
}

/// What resolving the mainline asks of git (history `h` after `h0`): the
/// configured `bflow.branch.main`; a set value decides (`configured_mainline`)
/// with nothing more asked; unset or blank, the mainline is detected
/// (`mainline_detected`) and then saved to the local config, whose failure is
/// the error.
pub open spec fn mainline_resolved(h0: Seq<GitEvent>, h: Seq<GitEvent>, r: Result<String, String>) -> bool {
    let k = h0.len() as int;
    &&& call_at(h, k, GitOp::GetConfig, seq!["bflow.branch.main"@])
    &&& match h[k].answer {
        GitAnswer::Failed(e) => h.len() == k + 1 && (r matches Err(m) && m@ == e),
        GitAnswer::MaybeText(Some(v)) if trim(v).len() > 0 => h.len() == k + 1 && if supported_mainline(trim(v)) {
            r matches Ok(b) && b@ == trim(v)
        } else {
            r matches Err(e) && e@ == unsupported_mainline_text(trim(v))
        },
        GitAnswer::MaybeText(_) => exists|d: Result<String, String>, m: int| {
            &&& k + 1 <= m <= h.len()
            &&& #[trigger] mainline_detected(h.take(m), k + 1, d)
            &&& match d {
                Err(e) => h.len() == m && (r matches Err(x) && x@ == e@),
                Ok(b) => {
                    &&& call_at(h, m, GitOp::SetConfig, seq!["bflow.branch.main"@, b@, bool_text(false)])
                    &&& h.len() == m + 1
                    &&& match h[m].answer {
                        GitAnswer::Done => r matches Ok(x) && x@ == b@,
                        GitAnswer::Failed(e) => r matches Err(x) && x@ == e,
                        _ => false,
                    }
                },
            }
        },
        _ => false,
    }
}

/// Git was asked (history `h` after `h0`) which branch is the mainline, and
/// `r` is the answer: `main` or `master` when it is one.
pub open spec fn mainline_read(h0: Seq<crate::git::GitEvent>, h: Seq<crate::git::GitEvent>, r: Result<String, String>) -> bool {
    &&& crate::git::extends(h, h0)
    &&& r matches Ok(b) ==> supported_mainline(b@)
}

/// The repo's mainline branch: the configured value if set, otherwise
/// detected once and persisted so later runs are a single config read.
pub fn resolve_main_branch<G: Git>(git: &mut G, out: &dyn Output) -> (r: Result<String, String>)
    ensures
        crate::git::extends(final(git).history(), old(git).history()),
        r matches Ok(b) ==> supported_mainline(b@),
        mainline_read(old(git).history(), final(git).history(), r),
        mainline_resolved(old(git).history(), final(git).history(), r),
{
    proof {
        reveal_strlit("bflow.branch.main");
    }
    match git.get_config(MAIN_BRANCH_KEY)? {
        Some(configured) => match configured_mainline(configured.as_str()) {
            Some(decided) => {
                return decided;
            },
            None => {},
        },
        None => {},
    }
    let ghost k1: int = git.history().len() as int;
    let found = detect(git);
    let ghost m: int = git.history().len() as int;
    let ghost mid = git.history();
    proof {
        assert(mid.take(m) =~= mid);
    }
    let detected = match found {
        Ok(b) => b,
        Err(e) => {
            return Err(e);
        },
    };
    let saved = git.set_config(MAIN_BRANCH_KEY, detected.as_str(), false);
    proof {
        assert(git.history().take(m) =~= mid);
    }
    saved?;
    out.line(cat(&["Detected mainline branch '", detected.as_str(), "' (saved to ", MAIN_BRANCH_KEY, ")."]).as_str());
    Ok(detected)
}

/// `main` if it exists locally or on the remote, else `master` on the same
/// terms, else `main`: a repo with neither is about to create one.
fn detect<G: Git>(git: &mut G) -> (r: Result<String, String>)
    ensures
        crate::git::extends(final(git).history(), old(git).history()),
        r matches Ok(b) ==> supported_mainline(b@),
        mainline_detected(final(git).history(), old(git).history().len() as int, r),
{
    if git.local_branch_exists("main")? || git.remote_branch_exists("main")? {
        return Ok(String::from_str("main"));
    }
    if git.local_branch_exists("master")? || git.remote_branch_exists("master")? {
        return Ok(String::from_str("master"));
    }
    Ok(String::from_str("main"))
}

/// With `bflow.branch.main` unset, the mainline follows what git reports:
/// when `main` exists neither locally nor on origin and `master` exists
/// locally or on origin, the mainline is `master`, and that is what is saved;
/// when `main` exists (locally or on origin), it is `main`.
pub proof fn law_mainline_follows_existing_branches(h0: Seq<GitEvent>, h: Seq<GitEvent>, r: Result<String, String>)
    requires
        mainline_resolved(h0, h, r),
        h[h0.len() as int].answer == GitAnswer::MaybeText(None),
    ensures
        ({
            let k = h0.len() as int;
            &&& h[k + 1].answer == GitAnswer::Flag(false) && h[k + 2].answer == GitAnswer::Flag(false) && (h[k + 3].answer
                == GitAnswer::Flag(true) || (h[k + 3].answer == GitAnswer::Flag(false) && h[k + 4].answer
                == GitAnswer::Flag(true))) ==> {
                &&& r matches Ok(b) ==> b@ == "master"@
                &&& r is Ok ==> exists|l: int| k < l < h.len() && call_at(h, l, GitOp::SetConfig, seq!["bflow.branch.main"@, "master"@, bool_text(false)])
            }
            &&& (h[k + 1].answer == GitAnswer::Flag(true) || (h[k + 1].answer == GitAnswer::Flag(false) && h[k + 2].answer
                == GitAnswer::Flag(true))) ==> (r matches Ok(b) ==> b@ == "main"@)
        }),
{
    let k = h0.len() as int;
    let (d, m) = choose|d: Result<String, String>, m: int| {
        &&& k + 1 <= m <= h.len()
        &&& #[trigger] mainline_detected(h.take(m), k + 1, d)
        &&& match d {
            Err(e) => h.len() == m && (r matches Err(x) && x@ == e@),
            Ok(b) => {
                &&& call_at(h, m, GitOp::SetConfig, seq!["bflow.branch.main"@, b@, bool_text(false)])
                &&& h.len() == m + 1
                &&& match h[m].answer {
                    GitAnswer::Done => r matches Ok(x) && x@ == b@,
                    GitAnswer::Failed(e) => r matches Err(x) && x@ == e,
                    _ => false,
                }
            },
        }
    };
    let t = h.take(m);
    if m > k + 1 {
        assert(t[k + 1] == h[k + 1]);
    }
    if m > k + 2 {
        assert(t[k + 2] == h[k + 2]);
    }
    if m > k + 3 {
        assert(t[k + 3] == h[k + 3]);
    }
    if m > k + 4 {
        assert(t[k + 4] == h[k + 4]);
    }
}

} // verus!
