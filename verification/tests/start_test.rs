use bflow::flows::start::{base_error, latest_release, message_is_breaking, release_type_choice, ReleaseType};
use bflow::version::SemVer;

#[test]
fn bang_in_title() {
    assert!(message_is_breaking("feat!: remove legacy API"));
}

#[test]
fn bang_with_scope() {
    assert!(message_is_breaking("refactor(auth)!: rewrite token handling"));
}

#[test]
fn breaking_change_footer() {
    let msg = "feat: new auth flow\n\nBREAKING CHANGE: old tokens are invalidated";
    assert!(message_is_breaking(msg));
}

#[test]
fn breaking_change_footer_hyphenated() {
    let msg = "feat: new auth\n\nBREAKING-CHANGE: old tokens invalidated";
    assert!(message_is_breaking(msg));
}

#[test]
fn breaking_change_footer_case_insensitive() {
    let msg = "feat: new auth\n\nbreaking change: old tokens invalidated";
    assert!(message_is_breaking(msg));
}

#[test]
fn non_breaking_change_in_body_is_not_flagged() {
    let msg = "feat: new feature\n\nThis is a non-breaking change to the API.";
    assert!(!message_is_breaking(msg));
}

#[test]
fn breaking_change_mention_without_colon_is_not_flagged() {
    let msg = "feat: new feature\n\nWe discussed breaking change options earlier.";
    assert!(!message_is_breaking(msg));
}

#[test]
fn plain_conventional_commit_is_not_breaking() {
    assert!(!message_is_breaking("feat: add login page"));
    assert!(!message_is_breaking("fix: correct typo"));
    assert!(!message_is_breaking("chore: update deps"));
}

#[test]
fn bang_in_body_does_not_count() {
    let msg = "feat: add feature\n\nThis is great!\nReally awesome.";
    assert!(!message_is_breaking(msg));
}

#[test]
fn footer_after_indentation_and_crlf_counts() {
    assert!(message_is_breaking("fix: x\r\n   Breaking Change: y\r\n"));
    assert!(!message_is_breaking("BREAKING CHANGE: only in the title"));
    assert!(!message_is_breaking(""));
    assert!(message_is_breaking("x!:"));
}

fn tags(list: &[&str]) -> Vec<String> {
    list.iter().map(|s| s.to_string()).collect()
}

#[test]
fn latest_release_prefers_clean_tags() {
    let t = tags(&["v1.2.0", "v1.10.0", "v2.0.0-rc.1", "junk", "v1.9.9"]);
    assert_eq!(latest_release(&t), SemVer::new(1, 10, 0));
}

#[test]
fn latest_release_falls_back_to_rc_then_zero() {
    let t = tags(&["v2.0.0-rc.1", "v2.1.0-rc.3", "v3.0.0-beta.1"]);
    assert_eq!(latest_release(&t), SemVer::new(2, 1, 0));
    assert_eq!(latest_release(&tags(&["nothing"])), SemVer::new(0, 0, 0));
    assert_eq!(latest_release(&Vec::new()), SemVer::new(0, 0, 0));
}

#[test]
fn release_type_follows_the_offered_order() {
    assert_eq!(release_type_choice(true, 0), ReleaseType::Major);
    assert_eq!(release_type_choice(true, 1), ReleaseType::Minor);
    assert_eq!(release_type_choice(false, 0), ReleaseType::Minor);
    assert_eq!(release_type_choice(false, 1), ReleaseType::Major);
}

#[test]
fn missing_base_is_named() {
    assert_eq!(
        base_error("fatal: 'nope' is not a commit and a branch cannot be created".to_string(), "nope"),
        "Branch 'nope' does not exist. Use --base to specify a different base branch."
    );
    assert_eq!(base_error("other failure".to_string(), "develop"), "other failure");
}
