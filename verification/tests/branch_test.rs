use bflow::git::branch::BranchType;

#[test]
fn parse_main() {
    assert_eq!(BranchType::parse("main"), BranchType::Main);
    assert_eq!(BranchType::parse("master"), BranchType::Main);
}

#[test]
fn parse_develop() {
    assert_eq!(BranchType::parse("develop"), BranchType::Develop);
}

#[test]
fn parse_feature() {
    assert_eq!(BranchType::parse("feature/passkey-login"), BranchType::Feature { name: "passkey-login".to_string() });
}

#[test]
fn parse_fix() {
    assert_eq!(BranchType::parse("fix/profile-loading"), BranchType::Fix { name: "profile-loading".to_string() });
}

#[test]
fn parse_chore() {
    assert_eq!(BranchType::parse("chore/update-ci"), BranchType::Chore { name: "update-ci".to_string() });
}

#[test]
fn parse_docs() {
    assert_eq!(BranchType::parse("docs/api-reference"), BranchType::Docs { name: "api-reference".to_string() });
}

#[test]
fn parse_refactor() {
    assert_eq!(BranchType::parse("refactor/auth-module"), BranchType::Refactor { name: "auth-module".to_string() });
}

#[test]
fn parse_release() {
    assert_eq!(BranchType::parse("release/2.6.0"), BranchType::Release { major: 2, minor: 6, patch: 0 });
}

#[test]
fn parse_release_fix() {
    assert_eq!(
        BranchType::parse("release-fix/2.6.0/payment-error"),
        BranchType::ReleaseFix { major: 2, minor: 6, patch: 0, name: "payment-error".to_string() }
    );
}

#[test]
fn parse_hotfix() {
    assert_eq!(BranchType::parse("hotfix/2.6.1"), BranchType::Hotfix { major: 2, minor: 6, patch: 1 });
}

#[test]
fn parse_hotfix_fix() {
    assert_eq!(
        BranchType::parse("hotfix-fix/2.6.1/incorrect-dto"),
        BranchType::HotfixFix { major: 2, minor: 6, patch: 1, name: "incorrect-dto".to_string() }
    );
}

#[test]
fn parse_other() {
    assert_eq!(BranchType::parse("some-random-branch"), BranchType::Other);
}

#[test]
fn work_kinds_round_trip_through_parse() {
    for kind in BranchType::work_kinds() {
        let bt = BranchType::parse(&format!("{kind}/x"));
        assert_eq!(bt.work_kind(), Some(kind), "kind {kind} must round-trip");
        assert!(bt.is_work_branch(), "kind {kind} must be a work branch");
    }
}

#[test]
fn commit_type_is_kind_name_except_feature() {
    assert_eq!(BranchType::parse("feature/x").commit_type(), Some("feat"));
    assert_eq!(BranchType::parse("fix/x").commit_type(), Some("fix"));
    assert_eq!(BranchType::parse("chore/x").commit_type(), Some("chore"));
    assert_eq!(BranchType::parse("docs/x").commit_type(), Some("docs"));
    assert_eq!(BranchType::parse("refactor/x").commit_type(), Some("refactor"));
    assert_eq!(BranchType::parse("release/1.2.0").commit_type(), None);
}

#[test]
fn pr_template_keys_for_work_branches() {
    assert_eq!(BranchType::parse("feature/x").pr_template_keys(), Some(("feature", "feature")));
    assert_eq!(BranchType::parse("fix/x").pr_template_keys(), Some(("fix", "fix")));
    assert_eq!(BranchType::parse("chore/x").pr_template_keys(), Some(("chore", "chore")));
    assert_eq!(BranchType::parse("docs/x").pr_template_keys(), Some(("docs", "docs")));
    assert_eq!(BranchType::parse("refactor/x").pr_template_keys(), Some(("refactor", "refactor")));
}

#[test]
fn fix_family_shares_fix_group() {
    assert_eq!(BranchType::parse("release-fix/1.2.0/x").pr_template_keys(), Some(("release-fix", "fix")));
    assert_eq!(BranchType::parse("hotfix-fix/1.2.0/x").pr_template_keys(), Some(("hotfix-fix", "fix")));
}

#[test]
fn fixed_finish_target_only_for_release_and_hotfix_families() {
    assert!(BranchType::parse("release/1.2.0").has_fixed_finish_target());
    assert!(BranchType::parse("release-fix/1.2.0/x").has_fixed_finish_target());
    assert!(BranchType::parse("hotfix/1.2.1").has_fixed_finish_target());
    assert!(BranchType::parse("hotfix-fix/1.2.1/x").has_fixed_finish_target());
    assert!(!BranchType::parse("feature/x").has_fixed_finish_target());
    assert!(!BranchType::parse("develop").has_fixed_finish_target());
    assert!(!BranchType::parse("main").has_fixed_finish_target());
}

#[test]
fn pr_template_keys_none_for_non_pr_branches() {
    assert_eq!(BranchType::parse("main").pr_template_keys(), None);
    assert_eq!(BranchType::parse("develop").pr_template_keys(), None);
    assert_eq!(BranchType::parse("release/1.2.0").pr_template_keys(), None);
    assert_eq!(BranchType::parse("hotfix/1.2.0").pr_template_keys(), None);
    assert_eq!(BranchType::parse("whatever").pr_template_keys(), None);
}

#[test]
fn work_branch_needs_a_name_after_the_slash() {
    assert_eq!(BranchType::parse("feature/"), BranchType::Other);
    assert_eq!(BranchType::parse("release-fix/1.2.0/"), BranchType::Other);
    assert_eq!(BranchType::parse("release/1.2"), BranchType::Other);
}

#[test]
fn branch_name_is_the_part_after_the_kind() {
    assert_eq!(BranchType::parse("feature/a/b").name(), Some("a/b"));
    assert_eq!(BranchType::parse("hotfix-fix/1.0.1/x").name(), Some("x"));
    assert_eq!(BranchType::parse("release/1.0.0").name(), None);
}
