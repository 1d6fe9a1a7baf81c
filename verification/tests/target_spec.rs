use std::str::FromStr;

use cml::error::ParseError;
use cml::target::CommentTarget;

#[test]
fn commit_parsing() {
    let input = "commit/deadbeef";
    let expected = CommentTarget::Commit("deadbeef".to_string());
    let result = CommentTarget::from_str(input);
    assert_eq!(result, Ok(expected));
}

#[test]
fn pr_parsing() {
    let input = "pr/123";
    let expected = CommentTarget::Pr("123".to_string());
    let result = CommentTarget::from_str(input);
    assert_eq!(result, Ok(expected));
}

#[test]
fn issue_parsing() {
    let input = "issue/456";
    let expected = CommentTarget::Issue("456".to_string());
    let result = CommentTarget::from_str(input);
    assert_eq!(result, Ok(expected));
}

#[test]
fn invalid_format() {
    let input = "invalid/format";
    let result = CommentTarget::from_str(input);
    assert!(result.is_err());
}

#[test]
fn plain_word() {
    let commit = CommentTarget::from_str("commit");
    assert_eq!(commit, Ok(CommentTarget::Commit("".to_string())));
    let pr = CommentTarget::from_str("pr");
    assert_eq!(pr, Ok(CommentTarget::Pr("".to_string())));
    let issue = CommentTarget::from_str("issue");
    assert_eq!(issue, Ok(CommentTarget::Issue("".to_string())));
}

#[test]
fn trailing_slashes() {
    let commit = CommentTarget::from_str("commit/");
    assert_eq!(commit, Ok(CommentTarget::Commit("".to_string())));
    let pr = CommentTarget::from_str("pr/");
    assert_eq!(pr, Ok(CommentTarget::Pr("".to_string())));
    let issue = CommentTarget::from_str("issue/");
    assert_eq!(issue, Ok(CommentTarget::Issue("".to_string())));
}

#[test]
fn parse_gives_typed_errors() {
    assert_eq!(CommentTarget::parse("invalid/format"), Err(ParseError::UnknownKind));
    assert_eq!(CommentTarget::parse("bogus"), Err(ParseError::InvalidFormat));
    assert_eq!(CommentTarget::parse(""), Err(ParseError::InvalidFormat));
    assert_eq!(CommentTarget::parse("/7"), Err(ParseError::UnknownKind));
}

#[test]
fn parse_splits_at_first_separator() {
    assert_eq!(
        CommentTarget::parse("commit/a/b"),
        Ok(CommentTarget::Commit("a/b".to_string()))
    );
}

#[test]
fn render_is_canonical() {
    assert_eq!(CommentTarget::Commit("".to_string()).render(), "commit/");
    assert_eq!(CommentTarget::Pr("42".to_string()).render(), "pr/42");
    assert_eq!(CommentTarget::Issue("456".to_string()).render(), "issue/456");
}

#[test]
fn render_then_parse_round_trips() {
    let targets = vec![
        CommentTarget::Commit("1337dacb".to_string()),
        CommentTarget::Pr("42".to_string()),
        CommentTarget::Issue("4237".to_string()),
        CommentTarget::Pr("".to_string()),
    ];
    for t in targets {
        let rendered = t.clone().render();
        assert_eq!(CommentTarget::parse(&rendered), Ok(t));
    }
}

#[test]
fn bare_word_equals_trailing_slash_form() {
    for word in ["commit", "pr", "issue"] {
        let bare = CommentTarget::parse(word).unwrap();
        let slashed = CommentTarget::parse(&format!("{}/", word)).unwrap();
        assert_eq!(bare, slashed);
        assert_eq!(bare.render(), format!("{}/", word));
    }
}

#[test]
fn c_from_string_takes_only_separated_forms() {
    assert_eq!(
        CommentTarget::c_from_string(&"pr/9".to_string()),
        Some(CommentTarget::Pr("9".to_string()))
    );
    assert_eq!(CommentTarget::c_from_string(&"pr".to_string()), None);
    assert_eq!(CommentTarget::c_from_string(&"bad/1".to_string()), None);
}

#[test]
fn c_from_run_state_yields_nothing() {
    assert_eq!(CommentTarget::c_from_run_state("anything".to_string()), None);
}
