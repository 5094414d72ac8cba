//! GitHub through the `gh` CLI.
use vstd::prelude::*;

use super::{done_answer, host_event, landed_answer, merged_answer, pr_args, url_answer, HostEvent, HostOp, resolve_body_file, Browser, CliRunner, HostingPlatform, LandedPr, MergedPr};
use crate::text::{chars_of, contains_seq, contains_str, split_on, split_ranges, trim, trim_bounds};

verus! {

pub open spec fn auth_remedy() -> Seq<char> {
    "If authentication expired, run 'gh auth login', then re-run 'bflow finish'."@
}

pub struct GitHub<'a> {
    runner: &'a dyn CliRunner,
    browser: &'a dyn Browser,
    history: Ghost<Seq<HostEvent>>,
}

/// Three non-empty tab-separated fields, the whole line trimmed.
pub open spec fn tsv_fields(line: Seq<char>) -> Option<(Seq<char>, Seq<char>, Seq<char>)> {
    let parts = split_on(trim(line), '\t');
    if parts.len() == 3 && parts[0].len() > 0 && parts[1].len() > 0 && parts[2].len() > 0 {
        Some((parts[0], parts[1], parts[2]))
    } else {
        None
    }
}

pub open spec fn unexpected_merged_message(line: Seq<char>) -> Seq<char> {
    "Unexpected merged-PR data from gh: '"@ + trim(line) + "'"@
}

/// What the open-PR lookup decides: `Some` ends `create_or_get_pr` with that
/// result, `None` goes on to create a PR.
pub open spec fn open_pr_decision(view: Result<String, String>, d: Option<Result<String, String>>) -> bool {
    match view {
        Ok(url) => if url@.len() > 0 {
            d matches Some(Ok(u)) && u@ == url@
        } else {
            d is None
        },
        Err(e) => if contains_seq(e@, "no pull requests found"@) {
            d is None
        } else {
            d matches Some(Err(m)) && m@ == "Could not check for an existing PR: "@ + e@ + "\n"@ + auth_remedy()
        },
    }
}

/// The three fields of a `gh` tab-separated line: `None` for an empty line,
/// an error for anything but three non-empty fields.
fn tsv_three(line: &str) -> (r: Result<Option<(String, String, String)>, String>)
    ensures
        trim(line@).len() == 0 ==> r matches Ok(None),
        trim(line@).len() > 0 ==> match tsv_fields(line@) {
            Some((a, b, c)) => r matches Ok(Some((x, y, z))) && x@ == a && y@ == b && z@ == c,
            None => r matches Err(e) && e@ == unexpected_merged_message(line@),
        },
{
    let v = chars_of(line);
    let (lo, hi) = trim_bounds(&v, 0, v.len());
    assert(v@.subrange(0, v@.len() as int) =~= v@);
    let t = line.substring_char(lo, hi);
    if lo == hi {
        return Ok(None);
    }
    let tv = chars_of(t);
    let parts = split_ranges(&tv, '\t');
    if parts.len() == 3 && parts[0].0 < parts[0].1 && parts[1].0 < parts[1].1 && parts[2].0 < parts[2].1 {
        let a = String::from_str(t.substring_char(parts[0].0, parts[0].1));
        let b = String::from_str(t.substring_char(parts[1].0, parts[1].1));
        let c = String::from_str(t.substring_char(parts[2].0, parts[2].1));
        Ok(Some((a, b, c)))
    } else {
        let mut e = String::from_str("Unexpected merged-PR data from gh: '");
        e.append(t);
        e.append("'");
        Err(e)
    }
}

/// Parse the `url<TAB>headRefOid<TAB>baseRefName` line the merged-PR jq filter
/// emits. Empty output is the normal "no merged PR" case; anything else that
/// isn't three non-empty fields is a hard error (never guess about cleanup).
pub fn parse_merged_pr(line: &str) -> (r: Result<Option<MergedPr>, String>)
    ensures
        trim(line@).len() == 0 ==> r matches Ok(None),
        trim(line@).len() > 0 ==> match tsv_fields(line@) {
            Some((u, s, b)) => r matches Ok(Some(pr)) && pr.url@ == u && pr.head_sha@ == s && pr.base@ == b,
            None => r matches Err(e) && e@ == unexpected_merged_message(line@),
        },
{
    match tsv_three(line)? {
        Some((url, head_sha, base)) => Ok(Some(MergedPr { url, head_sha, base })),
        None => Ok(None),
    }
}

/// Parse the `url<TAB>headRefOid<TAB>mergeCommitOid` line of a landed PR,
/// with the same rules as `parse_merged_pr`.
pub fn parse_landed_pr(line: &str) -> (r: Result<Option<LandedPr>, String>)
    ensures
        trim(line@).len() == 0 ==> r matches Ok(None),
        trim(line@).len() > 0 ==> match tsv_fields(line@) {
            Some((u, s, m)) => r matches Ok(Some(pr)) && pr.url@ == u && pr.head_sha@ == s
                && pr.merge_commit_sha@ == m,
            None => r matches Err(e) && e@ == unexpected_merged_message(line@),
        },
{
    match tsv_three(line)? {
        Some((url, head_sha, merge_commit_sha)) => Ok(Some(LandedPr { url, head_sha, merge_commit_sha })),
        None => Ok(None),
    }
}

/// Decide on the outcome of `gh pr view`: an open PR's URL ends the lookup;
/// "no pull requests found" and a closed or merged PR go on to create one;
/// any other failure (auth expiry, network) is reported.
pub fn existing_open_pr(view: Result<String, String>) -> (d: Option<Result<String, String>>)
    ensures
        open_pr_decision(view, d),
{
    match view {
        Ok(url) => {
            if url.as_str().unicode_len() > 0 {
                Some(Ok(url))
            } else {
                None
            }
        },
        Err(e) => {
            if contains_str(e.as_str(), "no pull requests found") {
                None
            } else {
                let mut m = String::from_str("Could not check for an existing PR: ");
                m.append(e.as_str());
                m.append("\n");
                m.append("If authentication expired, run 'gh auth login', then re-run 'bflow finish'.");
                Some(Err(m))
            }
        },
    }
}

fn with_remedy(head: &str, e: String) -> (r: String)
    ensures
        r@ == head@ + e@ + "\n"@ + auth_remedy(),
{
    let mut m = String::from_str(head);
    m.append(e.as_str());
    m.append("\n");
    m.append("If authentication expired, run 'gh auth login', then re-run 'bflow finish'.");
    m
}

impl<'a> GitHub<'a> {
    pub fn new(runner: &'a dyn CliRunner, browser: &'a dyn Browser) -> Self {
        GitHub { runner, browser, history: Ghost(Seq::empty()) }
    }

    fn run_gh(&self, args: &[&str]) -> Result<String, String> {
        self.runner.run("gh", args)
    }
}

impl<'a> GitHub<'a> {
    fn create_or_get_pr_raw(&self, head: &str, base: &str, title: &str, template: Option<&str>) -> (r: Result<String, String>)
    {
        let view_args: Vec<&str> = vec![
            "pr",
            "view",
            head,
            "--json",
            "url,state",
            "--jq",
            "select(.state == \"OPEN\") | .url",
        ];
        match existing_open_pr(self.run_gh(view_args.as_slice())) {
            Some(done) => {
                return done;
            },
            None => {},
        }
        let git_default_paths: Vec<&str> = vec![
            ".github/PULL_REQUEST_TEMPLATE.md",
            ".github/pull_request_template.md",
            "PULL_REQUEST_TEMPLATE.md",
            "pull_request_template.md",
            "docs/pull_request_template.md",
        ];
        let body_file = resolve_body_file(template, git_default_paths.as_slice());
        match body_file {
            Some(path) => {
                let args: Vec<&str> = vec![
                    "pr",
                    "create",
                    "--head",
                    head,
                    "--base",
                    base,
                    "--title",
                    title,
                    "--body-file",
                    path.as_str(),
                ];
                self.run_gh(args.as_slice())
            },
            None => {
                let args: Vec<&str> = vec!["pr", "create", "--head", head, "--base", base, "--title", title, "--body", ""];
                self.run_gh(args.as_slice())
            },
        }
    }

    fn merged_pr_raw(&self, head: &str) -> (r: Result<Option<MergedPr>, String>)
        ensures
            r matches Ok(Some(pr)) ==> pr.url@.len() > 0 && pr.head_sha@.len() > 0 && pr.base@.len() > 0,
    {
        let args: Vec<&str> = vec![
            "pr",
            "list",
            "--head",
            head,
            "--state",
            "all",
            "--limit",
            "1",
            "--json",
            "url,state,headRefOid,baseRefName",
            "--jq",
            ".[0] | select(.state == \"MERGED\") | [.url, .headRefOid, .baseRefName] | @tsv",
        ];
        match self.run_gh(args.as_slice()) {
            Ok(line) => parse_merged_pr(line.as_str()),
            Err(e) => Err(with_remedy("Could not check for a merged PR: ", e)),
        }
    }

    fn merged_pr_to_raw(&self, head: &str, base: &str) -> (r: Result<Option<LandedPr>, String>)
        ensures
            r matches Ok(Some(pr)) ==> pr.url@.len() > 0 && pr.head_sha@.len() > 0 && pr.merge_commit_sha@.len() > 0,
    {
        let args: Vec<&str> = vec![
            "pr",
            "list",
            "--head",
            head,
            "--base",
            base,
            "--state",
            "all",
            "--limit",
            "1",
            "--json",
            "url,state,headRefOid,mergeCommit",
            "--jq",
            ".[0] | select(.state == \"MERGED\") | [.url, .headRefOid, .mergeCommit.oid] | @tsv",
        ];
        match self.run_gh(args.as_slice()) {
            Ok(line) => parse_landed_pr(line.as_str()),
            Err(e) => Err(with_remedy("Could not check for a merged PR: ", e)),
        }
    }

    fn open_url_raw(&self, url: &str) -> (r: Result<(), String>)
    {
        self.browser.open(url)
    }

    fn check_auth_raw(&self) -> (r: Result<(), String>)
    {
        let args: Vec<&str> = vec!["auth", "status"];
        match self.run_gh(args.as_slice()) {
            Ok(_) => Ok(()),
            Err(e) => Err(e),
        }
    }
}

impl<'a> HostingPlatform for GitHub<'a> {
    closed spec fn history(&self) -> Seq<HostEvent> {
        self.history@
    }

    fn create_or_get_pr(&mut self, head: &str, base: &str, title: &str, template: Option<&str>) -> (r: Result<String, String>)
        ensures
            final(self).history() == old(self).history().push(host_event(HostOp::CreateOrGetPr, pr_args(head@, base@, title@, template), url_answer(r))),
    {
        let r = self.create_or_get_pr_raw(head, base, title, template);
        proof {
            self.history = Ghost(self.history@.push(host_event(HostOp::CreateOrGetPr, pr_args(head@, base@, title@, template), url_answer(r))));
        }
        r
    }

    fn merged_pr(&mut self, head: &str) -> (r: Result<Option<MergedPr>, String>)
        ensures
            final(self).history() == old(self).history().push(host_event(HostOp::MergedPr, seq![head@], merged_answer(r))),
            r matches Ok(Some(pr)) ==> pr.url@.len() > 0 && pr.head_sha@.len() > 0 && pr.base@.len() > 0,
    {
        let r = self.merged_pr_raw(head);
        proof {
            self.history = Ghost(self.history@.push(host_event(HostOp::MergedPr, seq![head@], merged_answer(r))));
        }
        r
    }

    fn merged_pr_to(&mut self, head: &str, base: &str) -> (r: Result<Option<LandedPr>, String>)
        ensures
            final(self).history() == old(self).history().push(host_event(HostOp::MergedPrTo, seq![head@, base@], landed_answer(r))),
            r matches Ok(Some(pr)) ==> pr.url@.len() > 0 && pr.head_sha@.len() > 0 && pr.merge_commit_sha@.len() > 0,
    {
        let r = self.merged_pr_to_raw(head, base);
        proof {
            self.history = Ghost(self.history@.push(host_event(HostOp::MergedPrTo, seq![head@, base@], landed_answer(r))));
        }
        r
    }

    fn open_url(&mut self, url: &str) -> (r: Result<(), String>)
        ensures
            final(self).history() == old(self).history().push(host_event(HostOp::OpenUrl, seq![url@], done_answer(r))),
    {
        let r = self.open_url_raw(url);
        proof {
            self.history = Ghost(self.history@.push(host_event(HostOp::OpenUrl, seq![url@], done_answer(r))));
        }
        r
    }

    fn check_auth(&mut self) -> (r: Result<(), String>)
        ensures
            final(self).history() == old(self).history().push(host_event(HostOp::CheckAuth, Seq::empty(), done_answer(r))),
    {
        let r = self.check_auth_raw();
        proof {
            self.history = Ghost(self.history@.push(host_event(HostOp::CheckAuth, Seq::empty(), done_answer(r))));
        }
        r
    }
}

} // verus!
