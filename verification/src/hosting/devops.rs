//! Azure DevOps: the `az repos pr` arguments and the PR URLs.
use vstd::prelude::*;

use super::{done_answer, host_event, landed_answer, merged_answer, pr_args, url_answer, HostEvent, HostOp, resolve_body_file, Browser, CliRunner, HostingPlatform, LandedPr, MergedPr, TextFiles};
use crate::text::{all_digits, owned, find_char, lemma_find_char, lemma_split_on_nonempty, chars_of, is_digit, line_ranges, split_on, substring, trim, trim_bounds, views};

verus! {

pub struct AzureDevOps {
    org: String,
    project: String,
    repo: String,
}

/// `s` with each space written `%20`, the only escape Azure project and
/// repository names need.
pub open spec fn encode_spaces(s: Seq<char>) -> Seq<char>
    decreases s.len(),
{
    if s.len() == 0 {
        Seq::empty()
    } else {
        encode_spaces(s.drop_last()) + if s.last() == ' ' {
            "%20"@
        } else {
            seq![s.last()]
        }
    }
}

pub open spec fn org_url_text(org: Seq<char>) -> Seq<char> {
    "https://dev.azure.com/"@ + org
}

pub open spec fn pr_url_text(org: Seq<char>, project: Seq<char>, repo: Seq<char>, id: Seq<char>) -> Seq<char> {
    org_url_text(org) + "/"@ + encode_spaces(project) + "/_git/"@ + encode_spaces(repo) + "/pullrequest/"@ + id
}

/// What a `--query pullRequestId -o tsv` result must be: a single run of
/// digits, surrounding whitespace aside.
pub open spec fn pr_id_ok(id: Seq<char>) -> bool {
    trim(id).len() > 0 && all_digits(trim(id))
}

pub open spec fn pr_id_error(id: Seq<char>) -> Seq<char> {
    "Unexpected az pull request id: '"@ + trim(id) + "'"@
}

pub open spec fn repo_arg_views(c: (Seq<char>, Seq<char>, Seq<char>)) -> Seq<Seq<char>> {
    seq!["--organization"@, org_url_text(c.0), "--project"@, c.1, "--repository"@, c.2]
}

/// `az repos pr list` for the active PR from `head` into `base`, asking for its id.
pub open spec fn pr_list_arg_views(c: (Seq<char>, Seq<char>, Seq<char>), head: Seq<char>, base: Seq<char>) -> Seq<Seq<char>> {
    seq!["repos"@, "pr"@, "list"@] + repo_arg_views(c) + seq![
        "--source-branch"@,
        head,
        "--target-branch"@,
        base,
        "--status"@,
        "active"@,
        "--query"@,
        "[0].pullRequestId"@,
        "-o"@,
        "tsv"@,
    ]
}

/// `az repos pr create` from `head` into `base`, asking for the new id.
pub open spec fn pr_create_arg_views(
    c: (Seq<char>, Seq<char>, Seq<char>),
    head: Seq<char>,
    base: Seq<char>,
    title: Seq<char>,
    body: Seq<char>,
) -> Seq<Seq<char>> {
    seq!["repos"@, "pr"@, "create"@] + repo_arg_views(c) + seq![
        "--source-branch"@,
        head,
        "--target-branch"@,
        base,
        "--title"@,
        title,
    ] + description_arg_views(body) + seq!["--query"@, "pullRequestId"@, "-o"@, "tsv"@]
}

/// Lines glued back together with `\n` between them.
pub open spec fn join_lines(ps: Seq<Seq<char>>) -> Seq<char>
    decreases ps.len(),
{
    if ps.len() == 0 {
        Seq::empty()
    } else if ps.len() == 1 {
        ps[0]
    } else {
        ps[0] + seq!['\n'] + join_lines(ps.drop_first())
    }
}

/// The lines az turns `--description` into are the body: its `\n`-pieces
/// glued back together with `\n` give the body back.
pub proof fn law_description_lines_rejoin(body: Seq<char>)
    ensures
        join_lines(description_arg_views(body).drop_first()) == body,
    decreases body.len(),
{
    assert(description_arg_views(body).drop_first() =~= split_on(body, '\n'));
    lemma_find_char(body, '\n');
    match find_char(body, '\n') {
        Some(i) => {
            let rest = body.skip(i + 1);
            law_description_lines_rejoin(rest);
            assert(description_arg_views(rest).drop_first() =~= split_on(rest, '\n'));
            lemma_split_on_nonempty(rest, '\n');
            let ps = split_on(body, '\n');
            assert(ps =~= seq![body.take(i)] + split_on(rest, '\n'));
            assert(ps.drop_first() =~= split_on(rest, '\n'));
            assert(body =~= body.take(i) + seq!['\n'] + rest);
        },
        None => {},
    }
}

/// The arguments of `--description`: the flag, then one argument per line.
pub open spec fn description_arg_views(body: Seq<char>) -> Seq<Seq<char>> {
    seq!["--description"@] + split_on(body, '\n')
}

/// An Azure DevOps repository is its coordinates: organization, project and
/// repository name.
impl View for AzureDevOps {
    type V = (Seq<char>, Seq<char>, Seq<char>);

    closed spec fn view(&self) -> (Seq<char>, Seq<char>, Seq<char>) {
        (self.org@, self.project@, self.repo@)
    }
}

impl AzureDevOps {
    pub fn new(org: String, project: String, repo: String) -> (r: Self)
        ensures
            r@ == (org@, project@, repo@),
    {
        AzureDevOps { org, project, repo }
    }

    /// Valid for legacy `{org}.visualstudio.com` organizations too.
    pub fn org_url(&self) -> (r: String)
        ensures
            r@ == org_url_text(self@.0),
    {
        let mut s = String::from_str("https://dev.azure.com/");
        s.append(self.org.as_str());
        s
    }

    /// Canonical PR web URL, built from the coordinates parsed out of the remote.
    pub fn pr_url(&self, id: &str) -> (r: String)
        ensures
            r@ == pr_url_text(self@.0, self@.1, self@.2, id@),
    {
        let mut s = self.org_url();
        s.append("/");
        s.append(encode_segment(self.project.as_str()).as_str());
        s.append("/_git/");
        s.append(encode_segment(self.repo.as_str()).as_str());
        s.append("/pullrequest/");
        s.append(id);
        s
    }

    /// `--organization <url> --project <project> --repository <repo>`.
    pub fn repo_args(&self) -> (r: Vec<String>)
        ensures
            views(r@) == repo_arg_views(self@),
    {
        let r = vec![
            String::from_str("--organization"),
            self.org_url(),
            String::from_str("--project"),
            self.project.clone(),
            String::from_str("--repository"),
            self.repo.clone(),
        ];
        assert(views(r@) =~= seq![
            "--organization"@,
            org_url_text(self.org@),
            "--project"@,
            self.project@,
            "--repository"@,
            self.repo@,
        ]);
        r
    }
}

/// Owned copies of `items`, in order.
fn owned_all(items: &[&str]) -> (r: Vec<String>)
    ensures
        views(r@) == items@.map_values(|s: &str| s@),
{
    let mut r: Vec<String> = Vec::new();
    let mut i: usize = 0;
    while i < items.len()
        invariant
            i <= items@.len(),
            views(r@) == items@.take(i as int).map_values(|s: &str| s@),
        decreases items@.len() - i,
    {
        let ghost before = r@;
        r.push(owned(items[i]));
        assert(views(r@) =~= views(before).push(items@[i as int]@));
        assert(items@.take(i + 1).map_values(|s: &str| s@) =~= items@.take(i as int).map_values(|s: &str| s@).push(
            items@[i as int]@,
        ));
        i = i + 1;
    }
    assert(items@.take(items@.len() as int) =~= items@);
    r
}

/// Appends `more` to `out`.
fn append_args(out: &mut Vec<String>, more: Vec<String>)
    ensures
        views(final(out)@) == views(old(out)@) + views(more@),
{
    let mut more = more;
    let ghost m = more@;
    out.append(&mut more);
    assert(views(out@) =~= views(old(out)@) + views(m));
}

impl AzureDevOps {
    /// The arguments that look up the active PR from `head` into `base`.
    pub fn pr_list_args(&self, head: &str, base: &str) -> (r: Vec<String>)
        ensures
            views(r@) == pr_list_arg_views(self@, head@, base@),
    {
        let lead: Vec<&str> = vec!["repos", "pr", "list"];
        let mut args = owned_all(lead.as_slice());
        append_args(&mut args, self.repo_args());
        let tail: Vec<&str> = vec![
            "--source-branch",
            head,
            "--target-branch",
            base,
            "--status",
            "active",
            "--query",
            "[0].pullRequestId",
            "-o",
            "tsv",
        ];
        append_args(&mut args, owned_all(tail.as_slice()));
        assert(views(args@) =~= pr_list_arg_views(self@, head@, base@));
        args
    }

    /// The arguments that create the PR from `head` into `base`.
    pub fn pr_create_args(&self, head: &str, base: &str, title: &str, body: &str) -> (r: Vec<String>)
        ensures
            views(r@) == pr_create_arg_views(self@, head@, base@, title@, body@),
    {
        let lead: Vec<&str> = vec!["repos", "pr", "create"];
        let mut args = owned_all(lead.as_slice());
        append_args(&mut args, self.repo_args());
        let middle: Vec<&str> = vec!["--source-branch", head, "--target-branch", base, "--title", title];
        append_args(&mut args, owned_all(middle.as_slice()));
        append_args(&mut args, description_args(body));
        let tail: Vec<&str> = vec!["--query", "pullRequestId", "-o", "tsv"];
        append_args(&mut args, owned_all(tail.as_slice()));
        assert(views(args@) =~= pr_create_arg_views(self@, head@, base@, title@, body@));
        args
    }

    /// What the PR lookup printed: nothing (no active PR), or the id of the
    /// active PR, whose URL is the answer.
    pub fn existing_pr_url(&self, existing: &str) -> (r: Result<Option<String>, String>)
        ensures
            existing@.len() == 0 ==> r matches Ok(None),
            existing@.len() > 0 && pr_id_ok(existing@) ==> (r matches Ok(Some(u))
                && u@ == pr_url_text(self@.0, self@.1, self@.2, trim(existing@))),
            existing@.len() > 0 && !pr_id_ok(existing@) ==> (r matches Err(e) && e@ == pr_id_error(existing@)),
    {
        if existing.unicode_len() == 0 {
            return Ok(None);
        }
        let id = validate_pr_id(existing)?;
        Ok(Some(self.pr_url(id)))
    }

    /// What PR creation printed: the new PR's id, whose URL is the answer.
    pub fn created_pr_url(&self, created: &str) -> (r: Result<String, String>)
        ensures
            pr_id_ok(created@) ==> (r matches Ok(u) && u@ == pr_url_text(self@.0, self@.1, self@.2, trim(created@))),
            !pr_id_ok(created@) ==> (r matches Err(e) && e@ == pr_id_error(created@)),
    {
        let id = validate_pr_id(created)?;
        Ok(self.pr_url(id))
    }

    /// The PR body file: a bflow-resolved template wins; otherwise the
    /// repository's own default PR template, the first that exists.
    pub fn body_file(template: Option<&str>) -> (r: Option<String>)
        ensures
            template matches Some(t) ==> (r matches Some(p) && p@ == t@),
    {
        let default_paths: Vec<&str> = vec![
            ".azuredevops/pull_request_template.md",
            ".azuredevops/PULL_REQUEST_TEMPLATE.md",
            ".vsts/pull_request_template.md",
            "pull_request_template.md",
            "PULL_REQUEST_TEMPLATE.md",
            "docs/pull_request_template.md",
        ];
        resolve_body_file(template, default_paths.as_slice())
    }
}

/// URL-encode a path segment. Spaces are the only realistic case in Azure
/// DevOps project and repository names.
pub fn encode_segment(s: &str) -> (r: String)
    ensures
        r@ == encode_spaces(s@),
{
    let v = chars_of(s);
    let n = v.len();
    let mut out = String::new();
    let mut i: usize = 0;
    while i < n
        invariant
            v@ == s@,
            n == v@.len(),
            i <= n,
            out@ == encode_spaces(s@.take(i as int)),
        decreases n - i,
    {
        assert(s@.take(i + 1).drop_last() =~= s@.take(i as int));
        if v[i] == ' ' {
            out.append("%20");
        } else {
            let c = substring(s, i, i + 1);
            assert(c@ =~= seq![s@[i as int]]);
            out.append(c.as_str());
        }
        i = i + 1;
    }
    assert(s@.take(n as int) =~= s@);
    out
}

/// Validate a `--query pullRequestId -o tsv` result: a single line of digits.
/// Anything else (empty, az's "None" for null) is a hard error.
pub fn validate_pr_id(id: &str) -> (r: Result<&str, String>)
    ensures
        pr_id_ok(id@) ==> (r matches Ok(t) && t@ == trim(id@)),
        !pr_id_ok(id@) ==> (r matches Err(e) && e@ == pr_id_error(id@)),
{
    let v = chars_of(id);
    let (a, b) = trim_bounds(&v, 0, v.len());
    assert(v@.subrange(0, v@.len() as int) =~= v@);
    let mut ok = a < b;
    let mut i: usize = a;
    while i < b
        invariant
            a <= i <= b <= v@.len(),
            ok ==> a < b,
            ok ==> forall|j: int| a <= j < i ==> is_digit(#[trigger] v@[j]),
            !ok ==> (a == b || exists|j: int| a <= j < i && !is_digit(#[trigger] v@[j])),
        decreases b - i,
    {
        if !(v[i] >= '0' && v[i] <= '9') {
            ok = false;
        }
        i = i + 1;
    }
    let t = id.substring_char(a, b);
    assert(t@ == trim(id@));
    if ok {
        assert(all_digits(t@)) by {
            assert forall|j: int| 0 <= j < t@.len() implies is_digit(#[trigger] t@[j]) by {
                assert(t@[j] == v@[a + j]);
            }
        }
        Ok(t)
    } else {
        proof {
            if a < b {
                let j = choose|j: int| a <= j < b && !is_digit(#[trigger] v@[j]);
                assert(t@[j - a] == v@[j]);
            }
        }
        let mut e = String::from_str("Unexpected az pull request id: '");
        e.append(t);
        e.append("'");
        Err(e)
    }
}

/// az's `--description` is a list argument where each element becomes one line.
pub fn description_args(body: &str) -> (r: Vec<String>)
    ensures
        views(r@) == description_arg_views(body@),
{
    let v = chars_of(body);
    let pieces = line_ranges(&v);
    let ghost sp = split_on(v@, '\n');
    let mut args: Vec<String> = Vec::new();
    args.push(String::from_str("--description"));
    assert(views(args@) =~= seq!["--description"@] + sp.take(0));
    let mut i: usize = 0;
    while i < pieces.len()
        invariant
            v@ == body@,
            sp == split_on(v@, '\n'),
            pieces@.len() == sp.len(),
            forall|k: int|
                0 <= k < pieces@.len() ==> {
                    &&& (#[trigger] pieces@[k]).0 <= pieces@[k].1 <= v@.len()
                    &&& v@.subrange(pieces@[k].0 as int, pieces@[k].1 as int) == sp[k]
                },
            i <= pieces@.len(),
            views(args@) == seq!["--description"@] + sp.take(i as int),
        decreases pieces@.len() - i,
    {
        let (lo, hi) = pieces[i];
        let piece = substring(body, lo, hi);
        assert(piece@ == sp[i as int]);
        let ghost before = args@;
        args.push(piece);
        assert(views(args@) =~= views(before).push(piece@));
        assert(sp.take(i + 1) =~= sp.take(i as int).push(sp[i as int]));
        assert(views(args@) =~= seq!["--description"@] + sp.take(i + 1));
        i = i + 1;
    }
    assert(sp.take(pieces@.len() as int) =~= sp);
    args
}

/// Azure DevOps through `az repos pr`, run by a `CliRunner`.
pub struct AzureHosting<'a> {
    ado: AzureDevOps,
    runner: &'a dyn CliRunner,
    browser: &'a dyn Browser,
    files: &'a dyn TextFiles,
    history: Ghost<Seq<HostEvent>>,
}

pub open spec fn template_read_text(path: Seq<char>, e: Seq<char>) -> Seq<char> {
    "Failed to read PR template '"@ + path + "': "@ + e
}

/// The refusal when the PR template cannot be read.
pub fn template_read_error(path: &str, e: &str) -> (r: String)
    ensures
        r@ == template_read_text(path@, e@),
{
    let mut m = String::from_str("Failed to read PR template '");
    m.append(path);
    m.append("': ");
    m.append(e);
    m
}

/// The arguments as the runner takes them.
fn arg_refs(args: &Vec<String>) -> (r: Vec<&str>)
    ensures
        r@.map_values(|s: &str| s@) == views(args@),
{
    let mut r: Vec<&str> = Vec::new();
    let mut i: usize = 0;
    while i < args.len()
        invariant
            i <= args@.len(),
            r@.map_values(|s: &str| s@) == views(args@).take(i as int),
        decreases args@.len() - i,
    {
        let ghost before = r@;
        let a = args[i].as_str();
        r.push(a);
        assert(views(args@)[i as int] == args@[i as int]@);
        assert(r@.map_values(|s: &str| s@) =~= before.map_values(|s: &str| s@).push(a@));
        assert(views(args@).take(i + 1) =~= views(args@).take(i as int).push(views(args@)[i as int]));
        i = i + 1;
    }
    assert(views(args@).take(args@.len() as int) =~= views(args@));
    r
}

impl<'a> AzureHosting<'a> {
    pub fn new(ado: AzureDevOps, runner: &'a dyn CliRunner, browser: &'a dyn Browser, files: &'a dyn TextFiles) -> (r: Self)
        ensures
            r.settings() == ado,
    {
        AzureHosting { ado, runner, browser, files, history: Ghost(Seq::empty()) }
    }

    /// The organisation, project and repository this client talks to.
    pub closed spec fn settings(&self) -> AzureDevOps {
        self.ado
    }

    fn run_az(&self, args: &Vec<String>) -> Result<String, String> {
        let refs = arg_refs(args);
        self.runner.run("az", refs.as_slice())
    }

    /// The PR body: the resolved template's (or the repository default
    /// template's) contents, or empty.
    fn body(&self, template: Option<&str>) -> (r: Result<String, String>)
        ensures
            r matches Err(e) ==> exists|p: Seq<char>, m: Seq<char>| e@ == #[trigger] template_read_text(p, m)
                && (template matches Some(t) ==> p == t@),
    {
        match AzureDevOps::body_file(template) {
            Some(path) => match self.files.read(path.as_str()) {
                Ok(text) => Ok(text),
                Err(e) => Err(template_read_error(path.as_str(), e.as_str())),
            },
            None => Ok(String::new()),
        }
    }
}

impl<'a> AzureHosting<'a> {
    fn create_or_get_pr_raw(&self, head: &str, base: &str, title: &str, template: Option<&str>) -> (r: Result<String, String>)
        ensures
            r matches Ok(u) ==> exists|id: Seq<char>| #[trigger] pr_id_ok(id) && u@ == pr_url_text(
                self.settings()@.0,
                self.settings()@.1,
                self.settings()@.2,
                trim(id),
            ),
    {
        let existing = self.run_az(&self.ado.pr_list_args(head, base))?;
        match self.ado.existing_pr_url(existing.as_str())? {
            Some(url) => {
                return Ok(url);
            },
            None => {},
        }
        let body = self.body(template)?;
        let created = self.run_az(&self.ado.pr_create_args(head, base, title, body.as_str()))?;
        self.ado.created_pr_url(created.as_str())
    }

    fn merged_pr_raw(&self, head: &str) -> (r: Result<Option<MergedPr>, String>)
        ensures
            r matches Ok(None),
    {
        Ok(None)
    }

    fn merged_pr_to_raw(&self, head: &str, base: &str) -> (r: Result<Option<LandedPr>, String>)
        ensures
            r matches Err(e) && e@ == "Looking up merged pull requests is not supported on Azure DevOps."@,
    {
        Err(String::from_str("Looking up merged pull requests is not supported on Azure DevOps."))
    }

    fn open_url_raw(&self, url: &str) -> (r: Result<(), String>)
    {
        self.browser.open(url)
    }

    fn check_auth_raw(&self) -> (r: Result<(), String>)
    {
        let ext: Vec<&str> = vec!["extension", "show", "--name", "azure-devops"];
        match self.runner.run("az", ext.as_slice()) {
            Ok(_) => {},
            Err(_) => {
                return Err(
                    String::from_str(
                        "Azure DevOps CLI extension is missing. Run 'az extension add --name azure-devops'.",
                    ),
                );
            },
        }
        let account: Vec<&str> = vec!["account", "show"];
        self.runner.run("az", account.as_slice())?;
        Ok(())
    }
}

impl<'a> HostingPlatform for AzureHosting<'a> {
    closed spec fn history(&self) -> Seq<HostEvent> {
        self.history@
    }

    fn create_or_get_pr(&mut self, head: &str, base: &str, title: &str, template: Option<&str>) -> (r: Result<String, String>)
        ensures
            final(self).history() == old(self).history().push(host_event(HostOp::CreateOrGetPr, pr_args(head@, base@, title@, template), url_answer(r))),
            r matches Ok(u) ==> exists|id: Seq<char>| #[trigger] pr_id_ok(id) && u@ == pr_url_text(
                old(self).settings()@.0,
                old(self).settings()@.1,
                old(self).settings()@.2,
                trim(id),
            ),
    {
        let r = self.create_or_get_pr_raw(head, base, title, template);
        proof {
            self.history = Ghost(self.history@.push(host_event(HostOp::CreateOrGetPr, pr_args(head@, base@, title@, template), url_answer(r))));
        }
        r
    }

    fn merged_pr(&mut self, head: &str) -> (r: Result<Option<MergedPr>, String>)
        ensures
            final(self).history() == old(self).history().push(host_event(HostOp::MergedPr, seq![head@], merged_answer(r))),
            r matches Ok(None),
    {
        let r = self.merged_pr_raw(head);
        proof {
            self.history = Ghost(self.history@.push(host_event(HostOp::MergedPr, seq![head@], merged_answer(r))));
        }
        r
    }

    fn merged_pr_to(&mut self, head: &str, base: &str) -> (r: Result<Option<LandedPr>, String>)
        ensures
            final(self).history() == old(self).history().push(host_event(HostOp::MergedPrTo, seq![head@, base@], landed_answer(r))),
            r matches Err(e) && e@ == "Looking up merged pull requests is not supported on Azure DevOps."@,
    {
        let r = self.merged_pr_to_raw(head, base);
        proof {
            self.history = Ghost(self.history@.push(host_event(HostOp::MergedPrTo, seq![head@, base@], landed_answer(r))));
        }
        r
    }

    fn open_url(&mut self, url: &str) -> (r: Result<(), String>)
        ensures
            final(self).history() == old(self).history().push(host_event(HostOp::OpenUrl, seq![url@], done_answer(r))),
    {
        let r = self.open_url_raw(url);
        proof {
            self.history = Ghost(self.history@.push(host_event(HostOp::OpenUrl, seq![url@], done_answer(r))));
        }
        r
    }

    fn check_auth(&mut self) -> (r: Result<(), String>)
        ensures
            final(self).history() == old(self).history().push(host_event(HostOp::CheckAuth, Seq::empty(), done_answer(r))),
    {
        let r = self.check_auth_raw();
        proof {
            self.history = Ghost(self.history@.push(host_event(HostOp::CheckAuth, Seq::empty(), done_answer(r))));
        }
        r
    }
}

} // verus!
