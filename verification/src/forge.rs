//! The forge client layer: provider selection, credential precedence, and
//! the planning of provider-specific requests.
//!
//! A forge operation is planned here and performed by the caller: each
//! operation yields a fully described request value, or the typed failure
//! that rules the operation out. The Unknown provider fails every operation
//! at once, so no request — and hence no network call — ever exists for it;
//! the GitLab provider is declared but unimplemented and fails construction.

use vstd::prelude::*;

use crate::error::ForgeError;
use crate::text::spec_parse_u64;

verus! {

/// The selected provider: GitHub is implemented, GitLab declared, and
/// Unknown an explicit "no provider" variant whose operations all fail.
#[derive(Debug, Clone, Copy, PartialEq, Eq, Structural)]
pub enum ForgeType {
    Github,
    Gitlab,
    Unknown,
}

/// A generic credential infers GitHub when it starts with one of the five
/// prefixes `ghp`, `gho`, `ghu`, `ghs`, `ghr` that GitHub issues tokens
/// under.
pub open spec fn has_gh_prefix(s: Seq<char>) -> bool {
    s.len() >= 3 && s[0] == 'g' && s[1] == 'h' && (s[2] == 'p' || s[2] == 'o' || s[2] == 'u'
        || s[2] == 's' || s[2] == 'r')
}

/// Does the credential carry one of the five GitHub token prefixes?
pub fn token_has_gh_prefix(s: &str) -> (r: bool)
    ensures
        r == has_gh_prefix(s@),
{
    if s.unicode_len() < 3 {
        return false;
    }
    if s.get_char(0) != 'g' || s.get_char(1) != 'h' {
        return false;
    }
    let c = s.get_char(2);
    c == 'p' || c == 'o' || c == 'u' || c == 's' || c == 'r'
}

impl ForgeType {
    /// The provider inferred from the environment's credentials: a generic
    /// credential is inspected by prefix, else a provider-specific
    /// credential names its provider, else nothing is known.
    pub open spec fn spec_detect(
        cml: Option<String>,
        repo: Option<String>,
        github: Option<String>,
        gitlab: Option<String>,
    ) -> ForgeType {
        if cml is Some || repo is Some {
            let t = if cml is Some {
                cml->Some_0
            } else {
                repo->Some_0
            };
            if has_gh_prefix(t@) {
                ForgeType::Github
            } else {
                ForgeType::Unknown
            }
        } else if github is Some {
            ForgeType::Github
        } else if gitlab is Some {
            ForgeType::Gitlab
        } else {
            ForgeType::Unknown
        }
    }

    /// Choose the provider from the credentials the caller found in the
    /// environment, in the fixed precedence: the generic credentials first
    /// (inspected by prefix), the provider-specific ones after.
    pub fn detect(
        cml: &Option<String>,
        repo: &Option<String>,
        github: &Option<String>,
        gitlab: &Option<String>,
    ) -> (r: ForgeType)
        ensures
            r == ForgeType::spec_detect(*cml, *repo, *github, *gitlab),
    {
        let generic: &Option<String> = if cml.is_some() {
            cml
        } else {
            repo
        };
        match generic {
            Some(t) => {
                if token_has_gh_prefix(t.as_str()) {
                    ForgeType::Github
                } else {
                    ForgeType::Unknown
                }
            },
            None => {
                if github.is_some() {
                    ForgeType::Github
                } else if gitlab.is_some() {
                    ForgeType::Gitlab
                } else {
                    ForgeType::Unknown
                }
            },
        }
    }

    /// The credential owed to this provider: its native credential first,
    /// else the generic ones in their fixed order, else the typed failure.
    pub open spec fn spec_token(
        self,
        github: Option<String>,
        gitlab: Option<String>,
        cml: Option<String>,
        repo: Option<String>,
    ) -> Result<Seq<char>, ForgeError> {
        let native = match self {
            ForgeType::Github => github,
            ForgeType::Gitlab => gitlab,
            ForgeType::Unknown => None,
        };
        if native is Some {
            Ok(native->Some_0@)
        } else if cml is Some {
            Ok(cml->Some_0@)
        } else if repo is Some {
            Ok(repo->Some_0@)
        } else {
            Err(ForgeError::NoAuthToken)
        }
    }

    /// Resolve the credential for this provider from the ones the caller
    /// found in the environment.
    pub fn get_token(
        &self,
        github: &Option<String>,
        gitlab: &Option<String>,
        cml: &Option<String>,
        repo: &Option<String>,
    ) -> (r: Result<String, ForgeError>)
        ensures
            token_result_models(r, self.spec_token(*github, *gitlab, *cml, *repo)),
    {
        let native: &Option<String> = match self {
            ForgeType::Github => github,
            ForgeType::Gitlab => gitlab,
            ForgeType::Unknown => &None,
        };
        match native {
            Some(t) => Ok(t.clone()),
            None => match cml {
                Some(t) => Ok(t.clone()),
                None => match repo {
                    Some(t) => Ok(t.clone()),
                    None => Err(ForgeError::NoAuthToken),
                },
            },
        }
    }
}

/// `r` carries the same outcome as the model result `m`.
pub open spec fn token_result_models(
    r: Result<String, ForgeError>,
    m: Result<Seq<char>, ForgeError>,
) -> bool {
    match r {
        Ok(t) => m matches Ok(v) && t@ == v,
        Err(e) => m matches Err(e2) && e == e2,
    }
}

/// The mathematical shape of a planned forge request.
pub ghost enum RequestModel {
    CommitComment { owner: Seq<char>, repo: Seq<char>, sha: Seq<char>, body: Seq<char> },
    IssueComment { owner: Seq<char>, repo: Seq<char>, number: u64, body: Seq<char> },
    ListPrsForCommit { owner: Seq<char>, repo: Seq<char>, sha: Seq<char> },
}

/// A fully described forge request, ready for a caller to perform: post a
/// comment on a commit, post a comment on an issue (a pull request comment
/// is one, in GitHub's object model), or list the pull requests associated
/// with a commit.
#[derive(Debug, PartialEq, Eq)]
pub enum ForgeRequest {
    CommitComment { owner: String, repo: String, sha: String, body: String },
    IssueComment { owner: String, repo: String, number: u64, body: String },
    ListPrsForCommit { owner: String, repo: String, sha: String },
}

impl View for ForgeRequest {
    type V = RequestModel;

    open spec fn view(&self) -> RequestModel {
        match self {
            ForgeRequest::CommitComment { owner, repo, sha, body } => RequestModel::CommitComment {
                owner: owner@,
                repo: repo@,
                sha: sha@,
                body: body@,
            },
            ForgeRequest::IssueComment { owner, repo, number, body } => RequestModel::IssueComment {
                owner: owner@,
                repo: repo@,
                number: *number,
                body: body@,
            },
            ForgeRequest::ListPrsForCommit { owner, repo, sha } => RequestModel::ListPrsForCommit {
                owner: owner@,
                repo: repo@,
                sha: sha@,
            },
        }
    }
}

/// `r` carries the same outcome as the model result `m`.
pub open spec fn req_result_models(
    r: Result<ForgeRequest, ForgeError>,
    m: Result<RequestModel, ForgeError>,
) -> bool {
    match r {
        Ok(q) => m matches Ok(mm) && q@ == mm,
        Err(e) => m matches Err(e2) && e == e2,
    }
}

/// The forge client: the provider it was constructed for and the resolved
/// credential. Construction fails fast without a credential, and fails for
/// the unimplemented GitLab provider; operations on an Unknown client fail
/// one by one, without ever producing a request.
#[derive(Debug)]
pub struct Forge {
    pub forge_type: ForgeType,
    pub token: String,
}

impl Forge {
    /// What `init` constructs: the provider paired with the resolved
    /// credential, or the failure owed for missing credentials or the
    /// unimplemented provider.
    pub open spec fn spec_init(
        forge_type: ForgeType,
        github: Option<String>,
        gitlab: Option<String>,
        cml: Option<String>,
        repo: Option<String>,
    ) -> Result<(ForgeType, Seq<char>), ForgeError> {
        match forge_type.spec_token(github, gitlab, cml, repo) {
            Err(e) => Err(e),
            Ok(tok) => match forge_type {
                ForgeType::Gitlab => Err(ForgeError::NotImplemented),
                _ => Ok((forge_type, tok)),
            },
        }
    }

    /// Construct the client for a provider from the credentials the caller
    /// found in the environment.
    pub fn init(
        forge_type: ForgeType,
        github: &Option<String>,
        gitlab: &Option<String>,
        cml: &Option<String>,
        repo: &Option<String>,
    ) -> (r: Result<Forge, ForgeError>)
        ensures
            match r {
                Ok(f) => Self::spec_init(forge_type, *github, *gitlab, *cml, *repo) matches Ok(m)
                    && f.forge_type == m.0 && f.token@ == m.1,
                Err(e) => Self::spec_init(forge_type, *github, *gitlab, *cml, *repo) matches Err(
                    e2,
                ) && e == e2,
            },
    {
        let token = match forge_type.get_token(github, gitlab, cml, repo) {
            Ok(t) => t,
            Err(e) => {
                return Err(e);
            },
        };
        match forge_type {
            ForgeType::Gitlab => Err(ForgeError::NotImplemented),
            ForgeType::Github => Ok(Forge { forge_type, token }),
            ForgeType::Unknown => Ok(Forge { forge_type, token }),
        }
    }

    /// The plan of a comment on a commit: the request for GitHub, the typed
    /// failure otherwise.
    pub open spec fn commit_comment_plan(
        self,
        owner: Seq<char>,
        repo: Seq<char>,
        sha: Seq<char>,
        body: Seq<char>,
    ) -> Result<RequestModel, ForgeError> {
        match self.forge_type {
            ForgeType::Unknown => Err(ForgeError::UnsupportedProvider),
            ForgeType::Gitlab => Err(ForgeError::NotImplemented),
            ForgeType::Github => Ok(RequestModel::CommitComment { owner, repo, sha, body }),
        }
    }

    /// The plan of a comment on an issue: the identifier must read as a
    /// decimal number, and the request carries that number.
    pub open spec fn issue_comment_plan(
        self,
        owner: Seq<char>,
        repo: Seq<char>,
        id: Seq<char>,
        body: Seq<char>,
    ) -> Result<RequestModel, ForgeError> {
        match self.forge_type {
            ForgeType::Unknown => Err(ForgeError::UnsupportedProvider),
            ForgeType::Gitlab => Err(ForgeError::NotImplemented),
            ForgeType::Github => match spec_parse_u64(id) {
                Some(n) => Ok(RequestModel::IssueComment { owner, repo, number: n, body }),
                None => Err(ForgeError::InvalidIdentifier),
            },
        }
    }

    /// The plan of a comment on an issue whose number is already resolved.
    pub open spec fn issue_number_plan(
        self,
        owner: Seq<char>,
        repo: Seq<char>,
        number: u64,
        body: Seq<char>,
    ) -> Result<RequestModel, ForgeError> {
        match self.forge_type {
            ForgeType::Unknown => Err(ForgeError::UnsupportedProvider),
            ForgeType::Gitlab => Err(ForgeError::NotImplemented),
            ForgeType::Github => Ok(RequestModel::IssueComment { owner, repo, number, body }),
        }
    }

    /// The plan of the lookup of pull requests associated with a commit.
    pub open spec fn pr_lookup_plan(self, owner: Seq<char>, repo: Seq<char>, sha: Seq<char>)
        -> Result<RequestModel, ForgeError> {
        match self.forge_type {
            ForgeType::Unknown => Err(ForgeError::UnsupportedProvider),
            ForgeType::Gitlab => Err(ForgeError::NotImplemented),
            ForgeType::Github => Ok(RequestModel::ListPrsForCommit { owner, repo, sha }),
        }
    }

    /// Plan a comment on a commit.
    pub fn comment_on_commit(&self, owner: &str, repo: &str, sha: &String, body: String) -> (r:
        Result<ForgeRequest, ForgeError>)
        ensures
            req_result_models(r, self.commit_comment_plan(owner@, repo@, sha@, body@)),
    {
        match self.forge_type {
            ForgeType::Unknown => Err(ForgeError::UnsupportedProvider),
            ForgeType::Gitlab => Err(ForgeError::NotImplemented),
            ForgeType::Github => Ok(
                ForgeRequest::CommitComment {
                    owner: owner.to_owned(),
                    repo: repo.to_owned(),
                    sha: sha.clone(),
                    body,
                },
            ),
        }
    }

    /// Plan a comment on an issue; the identifier must read as a decimal
    /// number.
    pub fn comment_on_issue(&self, owner: &str, repo: &str, id: &String, body: String) -> (r:
        Result<ForgeRequest, ForgeError>)
        ensures
            req_result_models(r, self.issue_comment_plan(owner@, repo@, id@, body@)),
    {
        match self.forge_type {
            ForgeType::Unknown => Err(ForgeError::UnsupportedProvider),
            ForgeType::Gitlab => Err(ForgeError::NotImplemented),
            ForgeType::Github => match crate::text::parse_u64_dec(id.as_str()) {
                Some(n) => Ok(
                    ForgeRequest::IssueComment {
                        owner: owner.to_owned(),
                        repo: repo.to_owned(),
                        number: n,
                        body,
                    },
                ),
                None => Err(ForgeError::InvalidIdentifier),
            },
        }
    }

    /// Plan a comment on a pull request. On GitHub a pull request comment is
    /// an issue comment — one object model, one code path — and the contract
    /// says so: the outcome equals the issue-comment plan.
    pub fn comment_on_pr(&self, owner: &str, repo: &str, id: &String, body: String) -> (r: Result<
        ForgeRequest,
        ForgeError,
    >)
        ensures
            req_result_models(r, self.issue_comment_plan(owner@, repo@, id@, body@)),
    {
        match self.forge_type {
            ForgeType::Unknown => Err(ForgeError::UnsupportedProvider),
            ForgeType::Gitlab => Err(ForgeError::NotImplemented),
            ForgeType::Github => self.comment_on_issue(owner, repo, id, body),
        }
    }

    /// Plan a comment on an issue whose number is already resolved.
    pub fn comment_on_issue_by_number(&self, owner: &str, repo: &str, number: u64, body: String)
        -> (r: Result<ForgeRequest, ForgeError>)
        ensures
            req_result_models(r, self.issue_number_plan(owner@, repo@, number, body@)),
    {
        match self.forge_type {
            ForgeType::Unknown => Err(ForgeError::UnsupportedProvider),
            ForgeType::Gitlab => Err(ForgeError::NotImplemented),
            ForgeType::Github => Ok(
                ForgeRequest::IssueComment {
                    owner: owner.to_owned(),
                    repo: repo.to_owned(),
                    number,
                    body,
                },
            ),
        }
    }

    /// Plan the lookup of the pull requests associated with a commit.
    pub fn get_pr_by_commit_sha(&self, owner: &str, repo: &str, sha: &str) -> (r: Result<
        ForgeRequest,
        ForgeError,
    >)
        ensures
            req_result_models(r, self.pr_lookup_plan(owner@, repo@, sha@)),
    {
        match self.forge_type {
            ForgeType::Unknown => Err(ForgeError::UnsupportedProvider),
            ForgeType::Gitlab => Err(ForgeError::NotImplemented),
            ForgeType::Github => Ok(
                ForgeRequest::ListPrsForCommit {
                    owner: owner.to_owned(),
                    repo: repo.to_owned(),
                    sha: sha.to_owned(),
                },
            ),
        }
    }
}

/// Pick the pull request the tool comments on when the forge lists several:
/// the last one in the forge's own ordering. A deliberate policy, mirroring
/// the upstream ordering rather than guaranteed by it; an empty listing is
/// the typed failure.
pub fn pick_associated_pr(prs: &Vec<u64>) -> (r: Result<u64, ForgeError>)
    ensures
        prs@.len() == 0 ==> r == Err::<u64, ForgeError>(ForgeError::NoAssociatedPr),
        prs@.len() > 0 ==> r == Ok::<u64, ForgeError>(prs@.last()),
{
    if prs.len() == 0 {
        Err(ForgeError::NoAssociatedPr)
    } else {
        Ok(prs[prs.len() - 1])
    }
}

/// Law: for the Unknown provider no operation ever yields a request; every
/// plan is the UnsupportedProvider failure, whatever its arguments.
pub proof fn lemma_unknown_plans_nothing(
    f: Forge,
    owner: Seq<char>,
    repo: Seq<char>,
    sha: Seq<char>,
    id: Seq<char>,
    number: u64,
    body: Seq<char>,
)
    requires
        f.forge_type is Unknown,
    ensures
        f.commit_comment_plan(owner, repo, sha, body) == Err::<RequestModel, ForgeError>(
            ForgeError::UnsupportedProvider,
        ),
        f.issue_comment_plan(owner, repo, id, body) == Err::<RequestModel, ForgeError>(
            ForgeError::UnsupportedProvider,
        ),
        f.issue_number_plan(owner, repo, number, body) == Err::<RequestModel, ForgeError>(
            ForgeError::UnsupportedProvider,
        ),
        f.pr_lookup_plan(owner, repo, sha) == Err::<RequestModel, ForgeError>(
            ForgeError::UnsupportedProvider,
        ),
{
}

} // verus!
