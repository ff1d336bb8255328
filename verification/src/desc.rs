//! The parts of GitHub's JSON documents that matter here.

use vstd::prelude::*;

verus! {

/// Marks an issue as a pull request.
#[derive(Debug)]
pub struct IssueCommentPullRequest {
    pub url: String,
}

/// The issue, or the pull request, that a comment belongs to.
#[derive(Debug)]
pub struct IssueCommentIssue {
    pub number: u32,
    pub title: String,
    pub body: String,
    pub pull_request: Option<IssueCommentPullRequest>,
    pub state: String,
    pub user: UserDesc,
}

/// A comment that was made.
#[derive(Debug)]
pub struct IssueCommentComment {
    pub user: UserDesc,
    pub body: String,
}

/// A comment to make.
#[derive(Debug)]
pub struct PostCommentComment {
    pub body: String,
}

/// The document that comes with an `issue_comment` event.
#[derive(Debug)]
pub struct CommentDesc {
    pub issue: IssueCommentIssue,
    pub comment: IssueCommentComment,
    pub repository: RepositoryDesc,
}

/// A repository.
#[derive(Debug)]
pub struct RepositoryDesc {
    pub name: String,
    pub owner: OwnerDesc,
}

/// A user.
#[derive(Debug)]
pub struct UserDesc {
    pub login: String,
    pub user_type: String,
}

/// The owner of a repository.
#[derive(Debug)]
pub struct OwnerDesc {
    pub login: String,
    pub owner_type: String,
}

/// The document that comes with a `ping` event.
#[derive(Debug)]
pub struct PingDesc {
    pub zen: String,
}

/// A team of an organization.
#[derive(Debug)]
pub struct TeamDesc {
    pub slug: String,
    pub id: u32,
}

/// What a team may do with a repository.
#[derive(Clone, Copy, Debug)]
pub struct TeamRepoDesc {
    pub permissions: TeamRepoPermissions,
}

/// The single permissions of a team.
#[derive(Clone, Copy, Debug)]
pub struct TeamRepoPermissions {
    pub admin: bool,
    pub push: bool,
    pub pull: bool,
}

/// The head of a pull request.
#[derive(Debug)]
pub struct PrBranchDesc {
    pub sha: String,
}

/// A pull request.
#[derive(Debug)]
pub struct PrDesc {
    pub state: String,
    pub number: u32,
    pub head: PrBranchDesc,
}

/// The document that comes with a `pull_request` event.
#[derive(Debug)]
pub struct PullRequestDesc {
    pub action: String,
    pub pull_request: PrDesc,
    pub repository: RepositoryDesc,
}

/// A commit status to set.
#[derive(Debug)]
pub struct StatusDesc {
    pub state: String,
    pub target_url: Option<String>,
    pub description: String,
    pub context: String,
}

/// A commit status with its texts as sequences of characters.
pub struct StatusModel {
    pub state: Seq<char>,
    pub target_url: Option<Seq<char>>,
    pub description: Seq<char>,
    pub context: Seq<char>,
}

/// The characters of a text that may be missing.
pub open spec fn optional_text(text: Option<String>) -> Option<Seq<char>> {
    match text {
        Some(t) => Some(t@),
        None => None,
    }
}

impl View for StatusDesc {
    type V = StatusModel;

    open spec fn view(&self) -> StatusModel {
        StatusModel {
            state: self.state@,
            target_url: optional_text(self.target_url),
            description: self.description@,
            context: self.context@,
        }
    }
}

/// A commit status as a model has the texts of the commit status, and a link
/// exactly if it has one.
pub proof fn statuses_keep_their_texts(status: StatusDesc)
    ensures
        status@.state == status.state@,
        status@.description == status.description@,
        status@.context == status.context@,
        status@.target_url is Some <==> status.target_url is Some,
        status.target_url is Some ==> status@.target_url->0 == status.target_url->0@,
{
}

} // verus!
