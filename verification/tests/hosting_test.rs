use bflow::hosting::devops::{description_args, encode_segment, validate_pr_id, AzureDevOps};
use bflow::hosting::github::{existing_open_pr, parse_landed_pr, parse_merged_pr, GitHub};
use bflow::hosting::{resolve_body_file, Browser, CliRunner, HostingPlatform};
use std::cell::RefCell;

#[test]
fn pr_url_is_canonical_dev_azure_form() {
    let ado = AzureDevOps::new("wilko".into(), "Shuttel".into(), "Shuttel".into());
    assert_eq!(ado.pr_url("2662"), "https://dev.azure.com/wilko/Shuttel/_git/Shuttel/pullrequest/2662");
}

#[test]
fn pr_url_encodes_spaces_in_project_and_repo() {
    let ado = AzureDevOps::new("beans".into(), "My Shop".into(), "the repo".into());
    assert_eq!(ado.pr_url("7"), "https://dev.azure.com/beans/My%20Shop/_git/the%20repo/pullrequest/7");
}

#[test]
fn validate_pr_id_accepts_digits_only() {
    assert_eq!(validate_pr_id("2662"), Ok("2662"));
    assert_eq!(validate_pr_id(" 42\n"), Ok("42"));
    assert!(validate_pr_id("").is_err());
    assert!(validate_pr_id("None").is_err());
    assert!(validate_pr_id("https://x\t42").is_err());
}

#[test]
fn description_args_one_arg_per_line() {
    assert_eq!(
        description_args("line one\nline two\n\nline four"),
        vec!["--description", "line one", "line two", "", "line four"],
    );
}

#[test]
fn description_args_empty_body_is_single_empty_line() {
    assert_eq!(description_args(""), vec!["--description", ""]);
}

#[test]
fn empty_output_means_no_merged_pr() {
    assert_eq!(parse_merged_pr(""), Ok(None));
    assert_eq!(parse_merged_pr("  \n"), Ok(None));
}

#[test]
fn three_fields_parse_into_merged_pr() {
    let pr = parse_merged_pr("https://github.com/o/r/pull/49\tabc123\tdevelop").unwrap().unwrap();
    assert_eq!(pr.url, "https://github.com/o/r/pull/49");
    assert_eq!(pr.head_sha, "abc123");
    assert_eq!(pr.base, "develop");
}

#[test]
fn malformed_output_is_a_hard_error() {
    assert!(parse_merged_pr("only-a-url").is_err());
    assert!(parse_merged_pr("url\t\tdevelop").is_err());
}

#[test]
fn bflow_template_wins_over_native_paths() {
    let result = resolve_body_file(Some(".github/pr-templates/bflow-fix.md"), &["nope.md"]);
    assert_eq!(result, Some(".github/pr-templates/bflow-fix.md".to_string()));
}

#[test]
fn no_template_and_no_existing_native_path_is_empty_body() {
    assert_eq!(resolve_body_file(None, &["definitely/not/a/real/path.md"]), None);
}

#[test]
fn invalid_pr_id_message_names_the_trimmed_id() {
    assert_eq!(validate_pr_id(" None \n"), Err("Unexpected az pull request id: 'None'".to_string()));
    assert_eq!(encode_segment("a b  c"), "a%20b%20%20c");
    assert_eq!(parse_merged_pr("a\tb"), Err("Unexpected merged-PR data from gh: 'a\tb'".to_string()));
    let landed = parse_landed_pr("u\th\tm\n").unwrap().unwrap();
    assert_eq!((landed.url.as_str(), landed.head_sha.as_str(), landed.merge_commit_sha.as_str()), ("u", "h", "m"));
}

#[test]
fn azure_arguments_and_urls() {
    let ado = AzureDevOps::new("o".into(), "P".into(), "R".into());
    assert_eq!(
        ado.pr_list_args("feature/x", "develop"),
        vec![
            "repos", "pr", "list", "--organization", "https://dev.azure.com/o", "--project", "P", "--repository", "R",
            "--source-branch", "feature/x", "--target-branch", "develop", "--status", "active", "--query",
            "[0].pullRequestId", "-o", "tsv",
        ]
    );
    assert_eq!(
        ado.pr_create_args("h", "b", "t", "x\ny"),
        vec![
            "repos", "pr", "create", "--organization", "https://dev.azure.com/o", "--project", "P", "--repository", "R",
            "--source-branch", "h", "--target-branch", "b", "--title", "t", "--description", "x", "y", "--query",
            "pullRequestId", "-o", "tsv",
        ]
    );
    assert_eq!(ado.existing_pr_url(""), Ok(None));
    assert_eq!(ado.existing_pr_url("12"), Ok(Some("https://dev.azure.com/o/P/_git/R/pullrequest/12".to_string())));
    assert!(ado.created_pr_url("null").is_err());
}

#[test]
fn open_pr_lookup_decisions() {
    assert_eq!(existing_open_pr(Ok("https://x/1".to_string())), Some(Ok("https://x/1".to_string())));
    assert_eq!(existing_open_pr(Ok(String::new())), None);
    assert_eq!(existing_open_pr(Err("gh: no pull requests found for branch".to_string())), None);
    assert_eq!(
        existing_open_pr(Err("HTTP 401".to_string())),
        Some(Err("Could not check for an existing PR: HTTP 401\nIf authentication expired, run 'gh auth login', then re-run 'bflow finish'.".to_string()))
    );
}

struct NoBrowser;

impl Browser for NoBrowser {
    fn open(&self, url: &str) -> Result<(), String> {
        Err(format!("no browser here to open {url}"))
    }
}

struct ScriptedRunner {
    calls: RefCell<Vec<String>>,
    answers: RefCell<Vec<Result<String, String>>>,
}

impl CliRunner for ScriptedRunner {
    fn run(&self, program: &str, args: &[&str]) -> Result<String, String> {
        self.calls.borrow_mut().push(format!("{program} {}", args.join(" ")));
        self.answers.borrow_mut().remove(0)
    }
}

#[test]
fn github_reuses_an_open_pr_and_reads_merged_ones() {
    let runner = ScriptedRunner {
        calls: RefCell::new(Vec::new()),
        answers: RefCell::new(vec![
            Ok("https://github.com/o/r/pull/1".to_string()),
            Ok("https://github.com/o/r/pull/2\tsha\tdevelop".to_string()),
        ]),
    };
    let mut gh = GitHub::new(&runner, &NoBrowser);
    assert_eq!(gh.create_or_get_pr("feature/x", "develop", "feat: x", None), Ok("https://github.com/o/r/pull/1".to_string()));
    let merged = gh.merged_pr("feature/x").unwrap().unwrap();
    assert_eq!(merged.base, "develop");
    assert!(runner.calls.borrow()[0].starts_with("gh pr view feature/x"));
}

#[test]
fn github_creates_a_pr_with_the_template_when_none_is_open() {
    let runner = ScriptedRunner {
        calls: RefCell::new(Vec::new()),
        answers: RefCell::new(vec![Err("no pull requests found".to_string()), Ok("https://github.com/o/r/pull/3".to_string())]),
    };
    let mut gh = GitHub::new(&runner, &NoBrowser);
    let url = gh.create_or_get_pr("fix/y", "develop", "fix: y", Some("t.md")).unwrap();
    assert_eq!(url, "https://github.com/o/r/pull/3");
    assert_eq!(
        runner.calls.borrow()[1],
        "gh pr create --head fix/y --base develop --title fix: y --body-file t.md"
    );
}

#[test]
fn description_lines_rejoin_to_the_body() {
    for body in ["", "one", "a\nb\n", "\n\nx\r\ny"] {
        let args = description_args(body);
        assert_eq!(args[1..].join("\n"), body);
    }
}

use bflow::git::branch::BranchType;
use bflow::hosting::detect::{azure_remote_of, choose_provider, Provider};
use bflow::hosting::template::{candidates, resolve};

fn azure(org: &str, project: &str, repo: &str) -> Result<Provider, String> {
    Ok(Provider::AzureDevOps { org: org.to_string(), project: project.to_string(), repo: repo.to_string() })
}

#[test]
fn github_remotes_use_github() {
    assert_eq!(choose_provider(None, "https://github.com/acme/repo.git"), Ok(Provider::GitHub));
    assert_eq!(choose_provider(None, "git@github.com:acme/repo.git"), Ok(Provider::GitHub));
}

#[test]
fn azure_remotes_name_their_organization_project_and_repository() {
    assert_eq!(choose_provider(None, "https://dev.azure.com/beans/Core/_git/api"), azure("beans", "Core", "api"));
    assert_eq!(choose_provider(None, "https://beans@dev.azure.com/beans/Core/_git/api\n"), azure("beans", "Core", "api"));
    assert_eq!(choose_provider(None, "git@ssh.dev.azure.com:v3/beans/My%20Project/api"), azure("beans", "My Project", "api"));
    assert_eq!(choose_provider(None, "https://beans.visualstudio.com/Core/_git/api"), azure("beans", "Core", "api"));
    assert_eq!(
        choose_provider(None, "https://beans.visualstudio.com/DefaultCollection/Core/_git/api"),
        azure("beans", "Core", "api")
    );
    assert_eq!(choose_provider(None, "beans@vs-ssh.visualstudio.com:v3/beans/Core/api"), azure("beans", "Core", "api"));
}

#[test]
fn the_configured_provider_overrides_detection() {
    assert_eq!(choose_provider(Some(" github\n"), "https://dev.azure.com/beans/Core/_git/api"), Ok(Provider::GitHub));
    assert_eq!(choose_provider(Some("devops"), "https://dev.azure.com/beans/Core/_git/api"), azure("beans", "Core", "api"));
    assert_eq!(
        choose_provider(Some("devops"), "https://github.com/acme/repo.git"),
        Err("Could not read the Azure DevOps organization, project and repository from the origin URL 'https://github.com/acme/repo.git'.".to_string())
    );
    assert_eq!(
        choose_provider(Some("gitlab"), "https://github.com/acme/repo.git"),
        Err("Unknown hosting provider 'gitlab' in bflow.hosting.provider: use github or devops.".to_string())
    );
}

#[test]
fn malformed_azure_remotes_are_refused() {
    assert_eq!(azure_remote_of("https://dev.azure.com/beans/Core/api"), None);
    assert_eq!(azure_remote_of("https://dev.azure.com/beans//_git/api"), None);
    assert!(choose_provider(None, "https://dev.azure.com/beans").is_err());
}

#[test]
fn templates_are_tried_most_specific_first() {
    assert_eq!(
        candidates(&BranchType::Feature { name: "x".into() }),
        vec![".github/pr-templates/bflow-feature.md", ".github/pr-templates/bflow-default.md"]
    );
    assert_eq!(
        candidates(&BranchType::ReleaseFix { major: 1, minor: 2, patch: 0, name: "x".into() }),
        vec![
            ".github/pr-templates/bflow-release-fix.md",
            ".github/pr-templates/bflow-fix.md",
            ".github/pr-templates/bflow-default.md",
        ]
    );
    assert!(candidates(&BranchType::Release { major: 1, minor: 2, patch: 0 }).is_empty());
    assert_eq!(resolve("/no/such/repository", &BranchType::Fix { name: "x".into() }), None);
}

#[test]
fn github_shows_pull_requests_through_the_browser() {
    let runner = ScriptedRunner { calls: RefCell::new(Vec::new()), answers: RefCell::new(Vec::new()) };
    let mut gh = GitHub::new(&runner, &NoBrowser);
    assert_eq!(gh.open_url("https://github.com/o/r/pull/9"), Err("no browser here to open https://github.com/o/r/pull/9".to_string()));
    assert!(runner.calls.borrow().is_empty());
}

use bflow::hosting::devops::AzureHosting;
use bflow::hosting::TextFiles;

struct OneFile(Result<String, String>);

impl TextFiles for OneFile {
    fn read(&self, path: &str) -> Result<String, String> {
        self.0.clone().map(|t| format!("{path}:{t}"))
    }
}

fn ado() -> AzureDevOps {
    AzureDevOps::new("beans".into(), "Core".into(), "api".into())
}

fn scripted(answers: Vec<Result<String, String>>) -> ScriptedRunner {
    ScriptedRunner { calls: RefCell::new(Vec::new()), answers: RefCell::new(answers) }
}

#[test]
fn azure_reuses_the_active_pr() {
    let runner = scripted(vec![Ok("17".to_string())]);
    let files = OneFile(Ok("body".to_string()));
    let mut az = AzureHosting::new(ado(), &runner, &NoBrowser, &files);
    assert_eq!(az.create_or_get_pr("feature/x", "develop", "feat: x", None), Ok("https://dev.azure.com/beans/Core/_git/api/pullrequest/17".to_string()));
    assert_eq!(runner.calls.borrow().len(), 1);
    assert!(runner.calls.borrow()[0].starts_with("az repos pr list --organization https://dev.azure.com/beans --project Core --repository api --source-branch feature/x"));
}

#[test]
fn azure_creates_a_pr_described_by_the_template() {
    let runner = scripted(vec![Ok(String::new()), Ok("18\n".to_string())]);
    let files = OneFile(Ok("a\nb".to_string()));
    let mut az = AzureHosting::new(ado(), &runner, &NoBrowser, &files);
    let url = az.create_or_get_pr("fix/y", "develop", "fix: y", Some("t.md")).unwrap();
    assert_eq!(url, "https://dev.azure.com/beans/Core/_git/api/pullrequest/18");
    assert_eq!(
        runner.calls.borrow()[1],
        "az repos pr create --organization https://dev.azure.com/beans --project Core --repository api --source-branch fix/y --target-branch develop --title fix: y --description t.md:a b --query pullRequestId -o tsv"
    );
}

#[test]
fn azure_names_the_template_it_could_not_read() {
    let runner = scripted(vec![Ok(String::new())]);
    let files = OneFile(Err("permission denied".to_string()));
    let mut az = AzureHosting::new(ado(), &runner, &NoBrowser, &files);
    assert_eq!(
        az.create_or_get_pr("fix/y", "develop", "fix: y", Some("t.md")),
        Err("Failed to read PR template 't.md': permission denied".to_string())
    );
}

#[test]
fn azure_checks_the_extension_before_the_account() {
    let runner = scripted(vec![Err("az extension show failed".to_string())]);
    let files = OneFile(Ok(String::new()));
    let mut az = AzureHosting::new(ado(), &runner, &NoBrowser, &files);
    assert_eq!(
        az.check_auth(),
        Err("Azure DevOps CLI extension is missing. Run 'az extension add --name azure-devops'.".to_string())
    );
    assert_eq!(az.merged_pr("feature/x"), Ok(None));
    assert!(az.merged_pr_to("hotfix/1.0.1", "main").is_err());
}

#[test]
fn a_canonical_clone_url_reads_back_its_names() {
    assert_eq!(
        azure_remote_of("https://dev.azure.com/beans/My%20Project/_git/the%20api"),
        Some(("beans".to_string(), "My Project".to_string(), "the api".to_string()))
    );
}
