//! The comment orchestrator.
//!
//! A comment is a body, a watermark, and a target. Sending one is a short
//! session: decide whether the repository state is needed at all (an issue
//! target with no identifier fails before anything else), resolve the
//! missing identifier — a commit falls back to the head sha, a pull request
//! to a lookup of the pull requests associated with the head sha — and plan
//! the one forge request that posts the comment. The caller performs the
//! planned requests and hands their outcomes back; every decision in
//! between is made and verified here.

use vstd::prelude::*;

use crate::error::OrchestrationError;
use crate::forge::Forge;
use crate::forge::ForgeRequest;
use crate::forge::RequestModel;
use crate::forge::pick_associated_pr;
use crate::state::State;
use crate::target::CommentTarget;
use crate::target::TargetModel;

verus! {

/// The caller-facing arguments of the comment subcommand: the body text or
/// the path of a file holding it, the optional target specification, and
/// whether to append the watermark.
#[derive(Debug)]
pub struct Args {
    pub file: String,
    pub target: Option<CommentTarget>,
    pub watermark: bool,
}

impl Args {
    /// The comment body: the contents that the caller read when `file`
    /// named a readable file, else the argument text itself, taken
    /// literally. Path existence wins over the literal reading, so the
    /// caller probes first and passes what it found.
    pub fn get_comment_body(&self, file_contents: Option<String>) -> (r: String)
        ensures
            r@ == match file_contents {
                Some(c) => c@,
                None => self.file@,
            },
    {
        match file_contents {
            Some(c) => c,
            None => self.file.clone(),
        }
    }
}

/// The watermark appended to comment bodies when the caller asks for one,
/// marking their automated origin.
pub open spec fn default_watermark_spec() -> Seq<char> {
    "posted by cml"@
}

/// The watermark appended to comment bodies when the caller asks for one.
pub fn default_watermark() -> (r: String)
    ensures
        r@ == default_watermark_spec(),
{
    String::from_str("posted by cml")
}

/// One comment to send: the provided body, the watermark trailer, and the
/// target it goes to. Ephemeral — lives for a single send.
#[derive(Debug)]
pub struct Comment {
    pub provided_body: String,
    pub watermark: String,
    pub target: CommentTarget,
}

/// A planned step of the send session: either the one request that posts
/// the comment, or the lookup whose answer resolves the pull request number
/// first.
#[derive(Debug, PartialEq, Eq)]
pub enum SendPlan {
    Post(ForgeRequest),
    ResolvePr(ForgeRequest),
}

/// The mathematical shape of a planned step.
pub ghost enum PlanModel {
    Post(RequestModel),
    ResolvePr(RequestModel),
}

impl View for SendPlan {
    type V = PlanModel;

    open spec fn view(&self) -> PlanModel {
        match self {
            SendPlan::Post(q) => PlanModel::Post(q@),
            SendPlan::ResolvePr(q) => PlanModel::ResolvePr(q@),
        }
    }
}

/// `r` carries the same outcome as the model result `m`.
pub open spec fn plan_result_models(
    r: Result<SendPlan, OrchestrationError>,
    m: Result<PlanModel, OrchestrationError>,
) -> bool {
    match r {
        Ok(p) => m matches Ok(mm) && p@ == mm,
        Err(e) => m matches Err(e2) && e == e2,
    }
}

/// `r` carries the same outcome as the model result `m`.
pub open spec fn req_orch_models(
    r: Result<ForgeRequest, OrchestrationError>,
    m: Result<RequestModel, OrchestrationError>,
) -> bool {
    match r {
        Ok(q) => m matches Ok(mm) && q@ == mm,
        Err(e) => m matches Err(e2) && e == e2,
    }
}

/// Lift a forge plan into an orchestration step that posts the comment.
pub open spec fn plan_to_post(r: Result<RequestModel, crate::error::ForgeError>) -> Result<
    PlanModel,
    OrchestrationError,
> {
    match r {
        Ok(m) => Ok(PlanModel::Post(m)),
        Err(e) => Err(OrchestrationError::Forge(e)),
    }
}

/// Lift a forge plan into an orchestration step that resolves the pull
/// request number first.
pub open spec fn plan_to_resolve(r: Result<RequestModel, crate::error::ForgeError>) -> Result<
    PlanModel,
    OrchestrationError,
> {
    match r {
        Ok(m) => Ok(PlanModel::ResolvePr(m)),
        Err(e) => Err(OrchestrationError::Forge(e)),
    }
}

impl Comment {
    /// Build the comment from the caller's arguments: the body as
    /// `get_comment_body` reads it, the watermark when asked for, and the
    /// target given — or the default target, a commit with an empty
    /// identifier, when none was.
    pub fn from_args(args: &Args, file_contents: Option<String>) -> (c: Comment)
        ensures
            c.provided_body@ == match file_contents {
                Some(f) => f@,
                None => args.file@,
            },
            c.watermark@ == if args.watermark {
                default_watermark_spec()
            } else {
                Seq::<char>::empty()
            },
            c.target@ == match args.target {
                Some(t) => t@,
                None => TargetModel::Commit(Seq::empty()),
            },
    {
        let target = match &args.target {
            Some(t) => t.clone(),
            None => CommentTarget::Commit(String::new()),
        };
        let watermark = if args.watermark {
            default_watermark()
        } else {
            String::new()
        };
        Comment { provided_body: args.get_comment_body(file_contents), watermark, target }
    }

    /// The body as posted: the provided body, a blank line, the watermark.
    pub open spec fn spec_composed_body(self) -> Seq<char> {
        self.provided_body@ + "\n\n"@ + self.watermark@
    }

    /// Compose the body as posted: the provided body, a blank line, the
    /// watermark.
    pub fn composed_body(&self) -> (r: String)
        ensures
            r@ == self.spec_composed_body(),
    {
        let mut out = self.provided_body.clone();
        out.append("\n\n");
        out.append(self.watermark.as_str());
        out
    }

    /// Whether the send can proceed at all before any repository state is
    /// read: an issue target with an empty identifier has no well-defined
    /// resolution and fails at once.
    pub open spec fn spec_send_start(self) -> Result<(), OrchestrationError> {
        if self.target@ matches TargetModel::Issue(id) && id.len() == 0 {
            Err(OrchestrationError::NoImplicitIssue)
        } else {
            Ok(())
        }
    }

    /// The first decision of a send, taken before the repository is probed:
    /// an issue target with an empty identifier fails here, every other
    /// target goes on to need the repository state.
    pub fn send_start(&self) -> (r: Result<(), OrchestrationError>)
        ensures
            r == self.spec_send_start(),
    {
        match &self.target {
            CommentTarget::Issue(id) => {
                if id.as_str().is_empty() {
                    Err(OrchestrationError::NoImplicitIssue)
                } else {
                    Ok(())
                }
            },
            _ => Ok(()),
        }
    }

    /// The planned step of the send, given the repository state: the empty
    /// issue target fails first, a remote without an owner fails before any
    /// request exists, and the remaining targets plan their one forge
    /// operation, with the head sha standing in for an empty commit
    /// identifier and a lookup standing in for an empty pull request
    /// identifier.
    pub open spec fn spec_send_plan(self, forge: Forge, state: State) -> Result<
        PlanModel,
        OrchestrationError,
    > {
        if self.target@ matches TargetModel::Issue(id) && id.len() == 0 {
            Err(OrchestrationError::NoImplicitIssue)
        } else if state.git_remote.owner is None {
            Err(OrchestrationError::MissingOwner)
        } else {
            let owner = state.git_remote.owner->Some_0@;
            let repo = state.git_remote.name@;
            let body = self.spec_composed_body();
            match self.target@ {
                TargetModel::Commit(id) => {
                    let sha = if id.len() == 0 {
                        state.head_sha@
                    } else {
                        id
                    };
                    plan_to_post(forge.commit_comment_plan(owner, repo, sha, body))
                },
                TargetModel::Pr(id) => {
                    if id.len() == 0 {
                        plan_to_resolve(forge.pr_lookup_plan(owner, repo, state.head_sha@))
                    } else {
                        plan_to_post(forge.issue_comment_plan(owner, repo, id, body))
                    }
                },
                TargetModel::Issue(id) => plan_to_post(
                    forge.issue_comment_plan(owner, repo, id, body),
                ),
            }
        }
    }

    /// Plan the send against the repository state: either the one request
    /// that posts the comment, the lookup that resolves the pull request
    /// number first, or the typed failure owed.
    pub fn send_plan(&self, forge: &Forge, state: &State) -> (r: Result<
        SendPlan,
        OrchestrationError,
    >)
        ensures
            plan_result_models(r, self.spec_send_plan(*forge, *state)),
    {
        if let CommentTarget::Issue(id) = &self.target {
            if id.as_str().is_empty() {
                return Err(OrchestrationError::NoImplicitIssue);
            }
        }
        let owner = match &state.git_remote.owner {
            None => {
                return Err(OrchestrationError::MissingOwner);
            },
            Some(o) => o,
        };
        let repo = &state.git_remote.name;
        let body = self.composed_body();
        match &self.target {
            CommentTarget::Commit(id) => {
                let sha = if id.as_str().is_empty() {
                    state.head_sha.clone()
                } else {
                    id.clone()
                };
                match forge.comment_on_commit(owner.as_str(), repo.as_str(), &sha, body) {
                    Ok(q) => Ok(SendPlan::Post(q)),
                    Err(e) => Err(OrchestrationError::Forge(e)),
                }
            },
            CommentTarget::Pr(id) => {
                if id.as_str().is_empty() {
                    match forge.get_pr_by_commit_sha(
                        owner.as_str(),
                        repo.as_str(),
                        state.head_sha.as_str(),
                    ) {
                        Ok(q) => Ok(SendPlan::ResolvePr(q)),
                        Err(e) => Err(OrchestrationError::Forge(e)),
                    }
                } else {
                    match forge.comment_on_pr(owner.as_str(), repo.as_str(), id, body) {
                        Ok(q) => Ok(SendPlan::Post(q)),
                        Err(e) => Err(OrchestrationError::Forge(e)),
                    }
                }
            },
            CommentTarget::Issue(id) => {
                match forge.comment_on_issue(owner.as_str(), repo.as_str(), id, body) {
                    Ok(q) => Ok(SendPlan::Post(q)),
                    Err(e) => Err(OrchestrationError::Forge(e)),
                }
            },
        }
    }

    /// The follow-up of a `ResolvePr` step, given the pull request numbers
    /// the forge listed: the last number, in the forge's own ordering, is
    /// used verbatim, and an empty listing is the typed failure.
    pub open spec fn spec_send_resolve_pr(self, forge: Forge, state: State, prs: Seq<u64>)
        -> Result<RequestModel, OrchestrationError> {
        if state.git_remote.owner is None {
            Err(OrchestrationError::MissingOwner)
        } else if prs.len() == 0 {
            Err(OrchestrationError::Forge(crate::error::ForgeError::NoAssociatedPr))
        } else {
            let owner = state.git_remote.owner->Some_0@;
            let repo = state.git_remote.name@;
            match forge.issue_number_plan(owner, repo, prs.last(), self.spec_composed_body()) {
                Ok(m) => Ok(m),
                Err(e) => Err(OrchestrationError::Forge(e)),
            }
        }
    }

    /// Turn the answer of the pull request lookup into the posting request:
    /// the last listed number is the pull request commented on, verbatim.
    pub fn send_resolve_pr(&self, forge: &Forge, state: &State, prs: &Vec<u64>) -> (r: Result<
        ForgeRequest,
        OrchestrationError,
    >)
        ensures
            req_orch_models(r, self.spec_send_resolve_pr(*forge, *state, prs@)),
    {
        let owner = match &state.git_remote.owner {
            None => {
                return Err(OrchestrationError::MissingOwner);
            },
            Some(o) => o,
        };
        let number = match pick_associated_pr(prs) {
            Err(e) => {
                return Err(OrchestrationError::Forge(e));
            },
            Ok(n) => n,
        };
        let body = self.composed_body();
        match forge.comment_on_issue_by_number(
            owner.as_str(),
            state.git_remote.name.as_str(),
            number,
            body,
        ) {
            Ok(q) => Ok(q),
            Err(e) => Err(OrchestrationError::Forge(e)),
        }
    }
}

/// Law: a commit target with an empty identifier is posted on the head sha
/// of the repository state, verbatim, never on the empty identifier.
pub proof fn lemma_empty_commit_uses_head(c: Comment, forge: Forge, state: State)
    requires
        c.target@ == TargetModel::Commit(Seq::<char>::empty()),
        forge.forge_type is Github,
        state.git_remote.owner is Some,
    ensures
        c.spec_send_plan(forge, state) == Ok::<PlanModel, OrchestrationError>(
            PlanModel::Post(
                RequestModel::CommitComment {
                    owner: state.git_remote.owner->Some_0@,
                    repo: state.git_remote.name@,
                    sha: state.head_sha@,
                    body: c.spec_composed_body(),
                },
            ),
        ),
{
}

/// Law: a pull request target with an empty identifier plans the lookup of
/// the pull requests associated with the head sha before any posting, and
/// the follow-up request carries the last listed number verbatim.
pub proof fn lemma_empty_pr_resolves_then_posts(c: Comment, forge: Forge, state: State, prs: Seq<
    u64,
>)
    requires
        c.target@ == TargetModel::Pr(Seq::<char>::empty()),
        forge.forge_type is Github,
        state.git_remote.owner is Some,
        prs.len() > 0,
    ensures
        c.spec_send_plan(forge, state) == Ok::<PlanModel, OrchestrationError>(
            PlanModel::ResolvePr(
                RequestModel::ListPrsForCommit {
                    owner: state.git_remote.owner->Some_0@,
                    repo: state.git_remote.name@,
                    sha: state.head_sha@,
                },
            ),
        ),
        c.spec_send_resolve_pr(forge, state, prs) == Ok::<RequestModel, OrchestrationError>(
            RequestModel::IssueComment {
                owner: state.git_remote.owner->Some_0@,
                repo: state.git_remote.name@,
                number: prs.last(),
                body: c.spec_composed_body(),
            },
        ),
{
}

/// Law: an issue target with an empty identifier fails as `NoImplicitIssue`
/// before the repository state is read, and the planning step fails the
/// same way whatever the state, so no forge request ever exists for it.
pub proof fn lemma_empty_issue_never_posts(c: Comment, forge: Forge, state: State)
    requires
        c.target@ == TargetModel::Issue(Seq::<char>::empty()),
    ensures
        c.spec_send_start() == Err::<(), OrchestrationError>(OrchestrationError::NoImplicitIssue),
        c.spec_send_plan(forge, state) == Err::<PlanModel, OrchestrationError>(
            OrchestrationError::NoImplicitIssue,
        ),
{
}

/// Law: with the Unknown provider the orchestrator never produces a plan or
/// a follow-up request — every outcome of every step is a failure, so no
/// network call is ever attempted.
pub proof fn lemma_unknown_send_never_requests(c: Comment, forge: Forge, state: State, prs: Seq<
    u64,
>)
    requires
        forge.forge_type is Unknown,
    ensures
        c.spec_send_plan(forge, state) is Err,
        c.spec_send_resolve_pr(forge, state, prs) is Err,
{
}

} // verus!
