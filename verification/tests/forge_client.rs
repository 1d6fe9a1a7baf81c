use cml::error::ForgeError;
use cml::forge::Forge;
use cml::forge::ForgeRequest;
use cml::forge::ForgeType;
use cml::forge::pick_associated_pr;
use cml::text::parse_u64_dec;

fn github_forge() -> Forge {
    Forge::init(
        ForgeType::Github,
        &Some("ghp_native".to_string()),
        &None,
        &None,
        &None,
    )
    .unwrap()
}

fn unknown_forge() -> Forge {
    Forge::init(
        ForgeType::Unknown,
        &None,
        &None,
        &Some("sometoken".to_string()),
        &None,
    )
    .unwrap()
}

#[test]
fn detect_prefers_generic_token_prefix() {
    assert_eq!(
        ForgeType::detect(&Some("ghp_abc".to_string()), &None, &None, &None),
        ForgeType::Github
    );
    assert_eq!(
        ForgeType::detect(&Some("gho_abc".to_string()), &None, &None, &None),
        ForgeType::Github
    );
    assert_eq!(
        ForgeType::detect(&Some("glpat-abc".to_string()), &None, &None, &None),
        ForgeType::Unknown
    );
    assert_eq!(
        ForgeType::detect(&None, &Some("ghs_abc".to_string()), &None, &None),
        ForgeType::Github
    );
}

#[test]
fn detect_falls_back_to_native_variables() {
    assert_eq!(
        ForgeType::detect(&None, &None, &Some("x".to_string()), &None),
        ForgeType::Github
    );
    assert_eq!(
        ForgeType::detect(&None, &None, &None, &Some("x".to_string())),
        ForgeType::Gitlab
    );
    assert_eq!(ForgeType::detect(&None, &None, &None, &None), ForgeType::Unknown);
}

#[test]
fn token_precedence_native_then_generic() {
    let github = Some("native".to_string());
    let cml = Some("generic-cml".to_string());
    let repo = Some("generic-repo".to_string());
    assert_eq!(
        ForgeType::Github.get_token(&github, &None, &cml, &repo),
        Ok("native".to_string())
    );
    assert_eq!(
        ForgeType::Github.get_token(&None, &None, &cml, &repo),
        Ok("generic-cml".to_string())
    );
    assert_eq!(
        ForgeType::Github.get_token(&None, &None, &None, &repo),
        Ok("generic-repo".to_string())
    );
    assert_eq!(
        ForgeType::Unknown.get_token(&None, &None, &None, &None),
        Err(ForgeError::NoAuthToken)
    );
}

#[test]
fn init_fails_fast_without_credentials() {
    let r = Forge::init(ForgeType::Github, &None, &None, &None, &None);
    assert_eq!(r.err(), Some(ForgeError::NoAuthToken));
}

#[test]
fn init_fails_for_the_unimplemented_provider() {
    let r = Forge::init(
        ForgeType::Gitlab,
        &None,
        &Some("glpat".to_string()),
        &None,
        &None,
    );
    assert_eq!(r.err(), Some(ForgeError::NotImplemented));
}

#[test]
fn commit_comment_plans_the_request() {
    let forge = github_forge();
    let r = forge.comment_on_commit("owner", "repo", &"abc123".to_string(), "hi".to_string());
    assert_eq!(
        r,
        Ok(ForgeRequest::CommitComment {
            owner: "owner".to_string(),
            repo: "repo".to_string(),
            sha: "abc123".to_string(),
            body: "hi".to_string(),
        })
    );
}

#[test]
fn pr_comment_is_an_issue_comment() {
    let forge = github_forge();
    let pr = forge.comment_on_pr("o", "r", &"7".to_string(), "b".to_string());
    let issue = forge.comment_on_issue("o", "r", &"7".to_string(), "b".to_string());
    assert_eq!(pr, issue);
    assert_eq!(
        pr,
        Ok(ForgeRequest::IssueComment {
            owner: "o".to_string(),
            repo: "r".to_string(),
            number: 7,
            body: "b".to_string(),
        })
    );
}

#[test]
fn issue_comment_rejects_non_decimal_identifiers() {
    let forge = github_forge();
    let r = forge.comment_on_issue("o", "r", &"seven".to_string(), "b".to_string());
    assert_eq!(r, Err(ForgeError::InvalidIdentifier));
}

#[test]
fn unknown_provider_plans_no_operation() {
    let forge = unknown_forge();
    let requests: Vec<Result<ForgeRequest, ForgeError>> = vec![
        forge.comment_on_commit("o", "r", &"sha".to_string(), "b".to_string()),
        forge.comment_on_pr("o", "r", &"7".to_string(), "b".to_string()),
        forge.comment_on_issue("o", "r", &"7".to_string(), "b".to_string()),
        forge.comment_on_issue_by_number("o", "r", 7, "b".to_string()),
        forge.get_pr_by_commit_sha("o", "r", "sha"),
    ];
    for r in requests {
        assert_eq!(r, Err(ForgeError::UnsupportedProvider));
    }
}

#[test]
fn pr_lookup_tie_break_takes_the_last() {
    assert_eq!(pick_associated_pr(&vec![3, 5, 4]), Ok(4));
    assert_eq!(pick_associated_pr(&vec![42]), Ok(42));
    assert_eq!(pick_associated_pr(&vec![]), Err(ForgeError::NoAssociatedPr));
}

#[test]
fn decimal_parsing_matches_the_standard_grammar() {
    assert_eq!(parse_u64_dec("456"), Some(456));
    assert_eq!(parse_u64_dec("+7"), Some(7));
    assert_eq!(parse_u64_dec("007"), Some(7));
    assert_eq!(parse_u64_dec("18446744073709551615"), Some(u64::MAX));
    assert_eq!(parse_u64_dec("18446744073709551616"), None);
    assert_eq!(parse_u64_dec(""), None);
    assert_eq!(parse_u64_dec("+"), None);
    assert_eq!(parse_u64_dec("12a"), None);
    assert_eq!(parse_u64_dec("-1"), None);
    assert_eq!(parse_u64_dec("000000000000000000000000007"), Some(7));
}

#[test]
fn errors_describe_themselves() {
    assert_eq!(ForgeError::NoAuthToken.describe(), "No Token Detected.");
    assert_eq!(
        ForgeError::Transport("boom".to_string()).describe(),
        "boom"
    );
}
