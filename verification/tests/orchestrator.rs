use cml::comment::Args;
use cml::comment::Comment;
use cml::comment::SendPlan;
use cml::error::ForgeError;
use cml::error::OrchestrationError;
use cml::error::StateError;
use cml::forge::Forge;
use cml::forge::ForgeRequest;
use cml::forge::ForgeType;
use cml::state::GitRemote;
use cml::state::RepoProbe;
use cml::state::State;
use cml::target::CommentTarget;

fn github_forge() -> Forge {
    Forge::init(
        ForgeType::Github,
        &Some("ghp_native".to_string()),
        &None,
        &None,
        &None,
    )
    .unwrap()
}

fn unknown_forge() -> Forge {
    Forge::init(
        ForgeType::Unknown,
        &None,
        &None,
        &Some("sometoken".to_string()),
        &None,
    )
    .unwrap()
}

fn state(head: &str) -> State {
    State {
        head_sha: head.to_string(),
        git_remote: GitRemote {
            owner: Some("owner".to_string()),
            name: "repo".to_string(),
        },
    }
}

fn comment(target: CommentTarget) -> Comment {
    Comment {
        provided_body: "hello".to_string(),
        watermark: "wm".to_string(),
        target,
    }
}

#[test]
fn empty_commit_target_uses_the_head_sha() {
    let c = comment(CommentTarget::Commit("".to_string()));
    let plan = c.send_plan(&github_forge(), &state("abc123")).unwrap();
    assert_eq!(
        plan,
        SendPlan::Post(ForgeRequest::CommitComment {
            owner: "owner".to_string(),
            repo: "repo".to_string(),
            sha: "abc123".to_string(),
            body: "hello\n\nwm".to_string(),
        })
    );
}

#[test]
fn explicit_commit_target_keeps_its_sha() {
    let c = comment(CommentTarget::Commit("1337dacb".to_string()));
    let plan = c.send_plan(&github_forge(), &state("abc123")).unwrap();
    assert_eq!(
        plan,
        SendPlan::Post(ForgeRequest::CommitComment {
            owner: "owner".to_string(),
            repo: "repo".to_string(),
            sha: "1337dacb".to_string(),
            body: "hello\n\nwm".to_string(),
        })
    );
}

#[test]
fn empty_pr_target_resolves_before_posting() {
    let c = comment(CommentTarget::Pr("".to_string()));
    let forge = github_forge();
    let st = state("abc123");
    let plan = c.send_plan(&forge, &st).unwrap();
    assert_eq!(
        plan,
        SendPlan::ResolvePr(ForgeRequest::ListPrsForCommit {
            owner: "owner".to_string(),
            repo: "repo".to_string(),
            sha: "abc123".to_string(),
        })
    );
    let follow_up = c.send_resolve_pr(&forge, &st, &vec![41, 42]).unwrap();
    assert_eq!(
        follow_up,
        ForgeRequest::IssueComment {
            owner: "owner".to_string(),
            repo: "repo".to_string(),
            number: 42,
            body: "hello\n\nwm".to_string(),
        }
    );
}

#[test]
fn empty_pr_resolution_fails_without_associations() {
    let c = comment(CommentTarget::Pr("".to_string()));
    let r = c.send_resolve_pr(&github_forge(), &state("abc123"), &vec![]);
    assert_eq!(
        r,
        Err(OrchestrationError::Forge(ForgeError::NoAssociatedPr))
    );
}

#[test]
fn empty_issue_target_fails_without_any_forge_operation() {
    let c = comment(CommentTarget::Issue("".to_string()));
    assert_eq!(c.send_start(), Err(OrchestrationError::NoImplicitIssue));
    let r = c.send_plan(&github_forge(), &state("abc123"));
    assert_eq!(r, Err(OrchestrationError::NoImplicitIssue));
}

#[test]
fn explicit_issue_target_posts_on_its_number() {
    let c = comment(CommentTarget::Issue("456".to_string()));
    let plan = c.send_plan(&github_forge(), &state("abc123")).unwrap();
    assert_eq!(
        plan,
        SendPlan::Post(ForgeRequest::IssueComment {
            owner: "owner".to_string(),
            repo: "repo".to_string(),
            number: 456,
            body: "hello\n\nwm".to_string(),
        })
    );
}

#[test]
fn missing_owner_fails_before_any_request() {
    let c = comment(CommentTarget::Commit("abc".to_string()));
    let st = State {
        head_sha: "abc123".to_string(),
        git_remote: GitRemote { owner: None, name: "repo".to_string() },
    };
    assert_eq!(
        c.send_plan(&github_forge(), &st),
        Err(OrchestrationError::MissingOwner)
    );
}

#[test]
fn unknown_provider_never_reaches_a_plan() {
    let forge = unknown_forge();
    let st = state("abc123");
    for target in [
        CommentTarget::Commit("".to_string()),
        CommentTarget::Commit("abc".to_string()),
        CommentTarget::Pr("".to_string()),
        CommentTarget::Pr("7".to_string()),
        CommentTarget::Issue("7".to_string()),
    ] {
        let r = comment(target).send_plan(&forge, &st);
        assert_eq!(
            r,
            Err(OrchestrationError::Forge(ForgeError::UnsupportedProvider))
        );
    }
    let r = comment(CommentTarget::Pr("".to_string())).send_resolve_pr(&forge, &st, &vec![7]);
    assert_eq!(
        r,
        Err(OrchestrationError::Forge(ForgeError::UnsupportedProvider))
    );
}

#[test]
fn body_file_scenario_posts_the_read_contents() {
    let args = Args {
        file: "./note.txt".to_string(),
        target: Some(CommentTarget::Pr("7".to_string())),
        watermark: true,
    };
    // The caller probed "./note.txt", found a file, and read it.
    let body = args.get_comment_body(Some("well done".to_string()));
    let c = Comment {
        provided_body: body,
        watermark: "posted-by-cml".to_string(),
        target: CommentTarget::Pr("7".to_string()),
    };
    assert_eq!(c.composed_body(), "well done\n\nposted-by-cml");
    let plan = c.send_plan(&github_forge(), &state("abc123")).unwrap();
    assert_eq!(
        plan,
        SendPlan::Post(ForgeRequest::IssueComment {
            owner: "owner".to_string(),
            repo: "repo".to_string(),
            number: 7,
            body: "well done\n\nposted-by-cml".to_string(),
        })
    );
}

#[test]
fn body_argument_is_taken_literally_without_a_file() {
    let args = Args {
        file: "just a literal body".to_string(),
        target: None,
        watermark: false,
    };
    assert_eq!(args.get_comment_body(None), "just a literal body");
}

#[test]
fn from_args_defaults_to_an_empty_commit_target() {
    let args = Args { file: "body".to_string(), target: None, watermark: false };
    let c = Comment::from_args(&args, None);
    assert_eq!(c.target, CommentTarget::Commit("".to_string()));
    assert_eq!(c.provided_body, "body");
    assert_eq!(c.watermark, "");
    let with_mark = Comment::from_args(
        &Args { file: "body".to_string(), target: None, watermark: true },
        None,
    );
    assert_eq!(with_mark.watermark, cml::comment::default_watermark());
}

#[test]
fn repo_state_probes_map_to_typed_failures() {
    assert_eq!(State::init(None).err(), Some(StateError::NotAGitRepository));
    assert_eq!(
        State::init(Some(RepoProbe { head_shorthand: None, remote_urls: vec![] })).err(),
        Some(StateError::UnresolvableHead)
    );
    assert_eq!(
        State::init(Some(RepoProbe {
            head_shorthand: Some("main".to_string()),
            remote_urls: vec![],
        }))
        .err(),
        Some(StateError::UnresolvableRemote)
    );
}

#[test]
fn repo_state_takes_the_first_remote_that_parses() {
    let probe = RepoProbe {
        head_shorthand: Some("main".to_string()),
        remote_urls: vec![
            // Too many colons for any URL shape: no forge URL, passed over.
            "one:two:three:four".to_string(),
            "https://github.com/someuser/somerepo.git".to_string(),
            "git@github.com:otheruser/otherrepo.git".to_string(),
        ],
    };
    let st = State::init(Some(probe)).unwrap();
    assert_eq!(st.head_sha, "main");
    assert_eq!(st.git_remote.owner, Some("someuser".to_string()));
    assert_eq!(st.git_remote.name, "somerepo");
}

#[test]
fn repo_state_skips_url_shapes_the_parser_cannot_take() {
    // Each of the first entries is outside the guarded URL shapes — a
    // degenerate one-character ssh path, dot segments that collapse a path,
    // query and fragment marks, a percent escape, whitespace, non-ASCII
    // text, native-file-path shapes, and the Azure DevOps host — and is
    // passed over without an attempt; the plain entry at the end wins.
    let probe = RepoProbe {
        head_shorthand: Some("main".to_string()),
        remote_urls: vec![
            "ssh:f".to_string(),
            " ssh:f".to_string(),
            "ssh://host/.".to_string(),
            "ssh://host/a/..".to_string(),
            "git@host:.".to_string(),
            "git@host:a/..".to_string(),
            "ssh://host/?".to_string(),
            "ssh://host/#x".to_string(),
            "https://github.com/a/b?tab=readme".to_string(),
            "https://dev%2Eazure%2Ecom/x".to_string(),
            "https://github.com/\u{00e9}/repo".to_string(),
            "/srv/git/repo.git".to_string(),
            "c:/repos/project".to_string(),
            "host\\share".to_string(),
            "https://DEV.azure.COM/org/proj/_git/repo".to_string(),
            "https://github.com/someuser/somerepo.git".to_string(),
        ],
    };
    let st = State::init(Some(probe)).unwrap();
    assert_eq!(st.git_remote.owner, Some("someuser".to_string()));
    assert_eq!(st.git_remote.name, "somerepo");
}

#[test]
fn repo_state_with_only_guarded_shapes_is_unresolvable() {
    let probe = RepoProbe {
        head_shorthand: Some("main".to_string()),
        remote_urls: vec![
            "ssh:f".to_string(),
            "ssh://host/a/..".to_string(),
            "https://dev.azure.com/org/proj/_git/repo".to_string(),
        ],
    };
    assert_eq!(
        State::init(Some(probe)).err(),
        Some(StateError::UnresolvableRemote)
    );
}

#[test]
fn repo_state_parses_full_ssh_remotes() {
    let probe = RepoProbe {
        head_shorthand: Some("main".to_string()),
        remote_urls: vec!["ssh://git@github.com/someuser/somerepo.git".to_string()],
    };
    let st = State::init(Some(probe)).unwrap();
    assert_eq!(st.git_remote.owner, Some("someuser".to_string()));
    assert_eq!(st.git_remote.name, "somerepo");
}

#[test]
fn repo_state_parses_scp_like_remotes() {
    let probe = RepoProbe {
        head_shorthand: Some("main".to_string()),
        remote_urls: vec!["git@github.com:someuser/somerepo.git".to_string()],
    };
    let st = State::init(Some(probe)).unwrap();
    assert_eq!(st.git_remote.owner, Some("someuser".to_string()));
    assert_eq!(st.git_remote.name, "somerepo");
}

#[test]
fn orchestration_errors_name_the_failed_step() {
    assert_eq!(
        OrchestrationError::State(StateError::UnresolvableHead).describe(),
        "While reading the repository: Couldn't determine HEAD sha"
    );
    assert_eq!(
        OrchestrationError::Forge(ForgeError::NotImplemented).describe(),
        "While talking to the forge: This feature has not been implemented yet."
    );
}
