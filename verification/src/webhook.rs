//! What to do about the events that GitHub sends.
//!
//! An event is answered at once. What follows is told step by step: nothing,
//! an event for a pipeline, a question to GitHub about the user's permission,
//! or a text that is to be read as a commit or as a command. Whoever runs it
//! does that and hands back what came of it.

use crate::access::{self, PermissionCheck, PermissionModel, PermissionStep};
use crate::desc::{CommentDesc, PingDesc, PullRequestDesc, RepositoryDesc};
use crate::error::GithubRequestError;
use crate::http::{self, ApiRequest, RequestModel};
use crate::pr::{Pr, Repo, RepoModel};
use crate::repos::ConfigModel;
use crate::text::{self, contains, same_bytes, same_text};
use crate::ui::{self, Command, Commit, Event, EventModel, PipelineId};
use crate::worker::{self, Worker, WorkerModel};
use vstd::prelude::*;

verus! {

/// The kinds of events that matter here.
#[derive(Clone, Copy, Debug, Eq, PartialEq, Structural)]
pub enum WebhookKind {
    IssueComment,
    PullRequest,
    Ping,
    Unknown,
}

/// An event, with the document that came with it. The document is missing if
/// it could not be read as one for its kind of event.
#[derive(Debug)]
pub enum Webhook {
    IssueComment(Option<CommentDesc>),
    PullRequest(Option<PullRequestDesc>),
    Ping(Option<PingDesc>),
    Unknown,
}

/// How an event is answered.
#[derive(Clone, Copy, Debug, Eq, PartialEq, Structural)]
pub enum Answer {
    /// Taken, with nothing to say.
    NoContent,
    /// Not understood.
    BadRequest,
}

/// Why nothing follows.
#[derive(Debug)]
pub enum Ignored {
    /// The document cannot be read.
    InvalidDocument,
    /// The event is of no known kind.
    UnknownEvent,
    /// The event only tests the connection.
    Pinged,
    /// The comment does not mention the front end.
    NotMentioned,
    /// The comment is for a closed issue.
    IssueClosed,
    /// The comment is not for a pull request.
    NotPullRequest,
    /// The repository is not served.
    UnknownRepo(Repo),
    /// The head of the pull request is not a commit.
    InvalidCommit,
    /// The pull request changed in a way that does not matter.
    OtherAction,
    /// The user may not give commands.
    NotPermitted,
    /// Whether the user may give commands could not be found out.
    CheckFailed(GithubRequestError),
    /// The comment is not a command.
    NotCommand,
}

/// Why nothing follows, with the repository as a model.
pub enum IgnoredModel {
    InvalidDocument,
    UnknownEvent,
    Pinged,
    NotMentioned,
    IssueClosed,
    NotPullRequest,
    UnknownRepo(RepoModel),
    InvalidCommit,
    OtherAction,
    NotPermitted,
    CheckFailed(GithubRequestError),
    NotCommand,
}

impl View for Ignored {
    type V = IgnoredModel;

    open spec fn view(&self) -> IgnoredModel {
        match *self {
            Ignored::InvalidDocument => IgnoredModel::InvalidDocument,
            Ignored::UnknownEvent => IgnoredModel::UnknownEvent,
            Ignored::Pinged => IgnoredModel::Pinged,
            Ignored::NotMentioned => IgnoredModel::NotMentioned,
            Ignored::IssueClosed => IgnoredModel::IssueClosed,
            Ignored::NotPullRequest => IgnoredModel::NotPullRequest,
            Ignored::UnknownRepo(repo) => IgnoredModel::UnknownRepo(repo@),
            Ignored::InvalidCommit => IgnoredModel::InvalidCommit,
            Ignored::OtherAction => IgnoredModel::OtherAction,
            Ignored::NotPermitted => IgnoredModel::NotPermitted,
            Ignored::CheckFailed(e) => IgnoredModel::CheckFailed(e),
            Ignored::NotCommand => IgnoredModel::NotCommand,
        }
    }
}

/// A pull request of a served repository that changed. The text `sha` is to be
/// read as a commit.
#[derive(Debug)]
pub struct PullRequestChange {
    pub pipeline_id: PipelineId,
    pub pr: Pr,
    pub action: String,
    pub sha: String,
}

/// A comment on an open pull request of a served repository, by `user`. The
/// pull request has an author, a title and a text of its own.
#[derive(Debug)]
pub struct PrComment {
    pub pipeline_id: PipelineId,
    pub pr: Pr,
    pub user: String,
    pub body: String,
    pub author: String,
    pub title: String,
    pub issue_body: String,
}

/// A comment whose author's permission is being checked.
#[derive(Debug)]
pub struct PendingComment {
    pub check: PermissionCheck,
    pub comment: PrComment,
}

/// What is to be done next.
#[derive(Debug)]
pub enum Next {
    /// Nothing any more.
    Nothing(Ignored),
    /// Read the head of a pull request as a commit.
    ReadCommit(PullRequestChange),
    /// Ask whether the author of a comment has permission.
    Ask(PendingComment),
    /// Read the text of a comment as a command.
    ReadCommand(PrComment),
    /// Tell a pipeline.
    Emit(Event),
}

/// A comment with its texts as sequences of characters.
pub struct CommentModel {
    pub pipeline_id: PipelineId,
    pub pr: u32,
    pub user: Seq<char>,
    pub body: Seq<char>,
    pub author: Seq<char>,
    pub title: Seq<char>,
    pub issue_body: Seq<char>,
}

/// What is to be done next, with texts as sequences of characters.
pub enum NextModel {
    Nothing(IgnoredModel),
    ReadCommit { pipeline_id: PipelineId, pr: u32, action: Seq<char>, sha: Seq<char> },
    Ask { check: PermissionModel, comment: CommentModel },
    ReadCommand(CommentModel),
    Emit(EventModel),
}

impl View for PullRequestChange {
    type V = NextModel;

    open spec fn view(&self) -> NextModel {
        NextModel::ReadCommit {
            pipeline_id: self.pipeline_id,
            pr: self.pr.0,
            action: self.action@,
            sha: self.sha@,
        }
    }
}

impl View for PrComment {
    type V = CommentModel;

    open spec fn view(&self) -> CommentModel {
        CommentModel {
            pipeline_id: self.pipeline_id,
            pr: self.pr.0,
            user: self.user@,
            body: self.body@,
            author: self.author@,
            title: self.title@,
            issue_body: self.issue_body@,
        }
    }
}

impl View for PendingComment {
    type V = NextModel;

    open spec fn view(&self) -> NextModel {
        NextModel::Ask { check: self.check@, comment: self.comment@ }
    }
}

impl View for Next {
    type V = NextModel;

    open spec fn view(&self) -> NextModel {
        match *self {
            Next::Nothing(why) => NextModel::Nothing(why@),
            Next::ReadCommit(change) => change@,
            Next::Ask(pending) => pending@,
            Next::ReadCommand(comment) => NextModel::ReadCommand(comment@),
            Next::Emit(event) => NextModel::Emit(event@),
        }
    }
}

/// How an event is dealt with: the answer, and what is to be done after it.
#[derive(Debug)]
pub struct Handling {
    pub answer: Answer,
    pub next: Next,
}

/// The name of an event: the first value of its header, if there is one.
pub open spec fn event_name(values: Option<Seq<Vec<u8>>>) -> Seq<u8> {
    match values {
        Some(v) => if v.len() > 0 {
            v[0]@
        } else {
            Seq::empty()
        },
        None => Seq::empty(),
    }
}

/// The kind of event that a name stands for.
pub open spec fn kind_of(name: Seq<u8>) -> WebhookKind {
    if name == text::utf8("issue_comment"@) {
        WebhookKind::IssueComment
    } else if name == text::utf8("pull_request"@) {
        WebhookKind::PullRequest
    } else if name == text::utf8("ping"@) {
        WebhookKind::Ping
    } else {
        WebhookKind::Unknown
    }
}

/// The kind of event that the values of the `X-Github-Event` header tell.
pub fn webhook_kind(values: Option<&[Vec<u8>]>) -> (r: WebhookKind)
    ensures
        r == kind_of(
            event_name(
                match values {
                    Some(v) => Some(v@),
                    None => None,
                },
            ),
        ),
        match values {
            Some(v) => if v@.len() > 0 {
                let name = v@[0]@;
                &&& r is IssueComment <==> name == vstd::utf8::encode_utf8("issue_comment"@)
                &&& r is PullRequest <==> name == vstd::utf8::encode_utf8("pull_request"@)
                &&& r is Ping <==> name == vstd::utf8::encode_utf8("ping"@)
            } else {
                r is Unknown
            },
            None => r is Unknown,
        },
{
    proof {
        names_tell_the_kind(
            match values {
                Some(v) => Some(v@),
                None => None,
            },
        );
    }
    let empty: Vec<u8> = Vec::new();
    let name: &[u8] = match values {
        Some(v) => if v.len() > 0 {
            v[0].as_slice()
        } else {
            empty.as_slice()
        },
        None => empty.as_slice(),
    };
    assert(empty@ =~= Seq::<u8>::empty());
    if same_bytes(name, "issue_comment".as_bytes()) {
        WebhookKind::IssueComment
    } else if same_bytes(name, "pull_request".as_bytes()) {
        WebhookKind::PullRequest
    } else if same_bytes(name, "ping".as_bytes()) {
        WebhookKind::Ping
    } else {
        WebhookKind::Unknown
    }
}

impl Answer {
    /// The status that stands for the answer.
    pub fn code(&self) -> (r: u16)
        ensures
            r == match *self {
                Answer::NoContent => 204u16,
                Answer::BadRequest => 400u16,
            },
    {
        match self {
            Answer::NoContent => 204,
            Answer::BadRequest => 400,
        }
    }
}

/// Whether an event is of a known kind and came with a document for it.
pub open spec fn understood(webhook: Webhook) -> bool {
    match webhook {
        Webhook::IssueComment(desc) => desc is Some,
        Webhook::PullRequest(desc) => desc is Some,
        Webhook::Ping(desc) => desc is Some,
        Webhook::Unknown => false,
    }
}

/// The repository that a document is about.
pub open spec fn repo_of(desc: RepositoryDesc) -> RepoModel {
    RepoModel { owner: desc.owner.login@, repo: desc.name@ }
}

/// Whether a comment is worth looking at: it mentions the front end, and it is
/// for an open pull request.
pub open spec fn worth_looking(worker: WorkerModel, desc: CommentDesc) -> bool {
    &&& text::occurs(worker.user_ident, desc.comment.body@)
    &&& desc.issue.state@ != "closed"@
    &&& desc.issue.pull_request is Some
}

/// A comment on a pull request of a repository that the pipeline builds.
pub open spec fn comment_of(desc: CommentDesc, pipeline_id: PipelineId) -> CommentModel {
    CommentModel {
        pipeline_id,
        pr: desc.issue.number,
        user: desc.comment.user.login@,
        body: desc.comment.body@,
        author: desc.issue.user.login@,
        title: desc.issue.title@,
        issue_body: desc.issue.body@,
    }
}

/// The message for the merge commit of an approved pull request.
pub open spec fn approval_message(comment: CommentModel, approver: Seq<char>) -> Seq<char> {
    "#"@ + text::decimal(comment.pr as nat) + " a=@"@ + comment.author + " r=@"@ + approver
        + "\n\n## "@ + comment.title + " ##\n\n"@ + comment.issue_body
}

/// The event that a command calls for.
pub open spec fn command_event(comment: CommentModel, command: Command) -> EventModel {
    match command {
        Command::Approved(approver, commit) => EventModel::Approved(
            comment.pipeline_id,
            comment.pr,
            ui::commit_text(commit),
            approval_message(comment, approver@),
        ),
        Command::Canceled => EventModel::Canceled(comment.pipeline_id, comment.pr),
    }
}

/// The event that a change of a pull request calls for, if it does.
pub open spec fn change_event(
    pipeline_id: PipelineId,
    pr: u32,
    action: Seq<char>,
    commit: Seq<char>,
) -> Option<EventModel> {
    if action == "closed"@ {
        Some(EventModel::Closed(pipeline_id, pr))
    } else if action == "opened"@ || action == "reopened"@ {
        Some(EventModel::Opened(pipeline_id, pr, commit))
    } else if action == "synchronize"@ {
        Some(EventModel::Changed(pipeline_id, pr, commit))
    } else {
        None
    }
}

impl NextModel {
    /// What follows when the check of a comment's author has come so far. An
    /// author whose permission could not be found out has none.
    pub open spec fn after_check(check: PermissionModel, comment: CommentModel) -> NextModel {
        match check {
            PermissionModel::Decided(Ok(true)) => NextModel::ReadCommand(comment),
            PermissionModel::Decided(Ok(false)) => NextModel::Nothing(IgnoredModel::NotPermitted),
            PermissionModel::Decided(Err(e)) => NextModel::Nothing(IgnoredModel::CheckFailed(e)),
            _ => NextModel::Ask { check, comment },
        }
    }

    /// What follows the reply to the question at hand.
    pub open spec fn after_reply(self, reply: Result<u16, hyper::error::Error>) -> NextModel {
        match self {
            NextModel::Ask { check, comment } => NextModel::after_check(
                check.after(reply),
                comment,
            ),
            _ => self,
        }
    }

    /// What follows once the text of a comment was read as a command.
    pub open spec fn after_command(self, command: Option<Command>) -> NextModel {
        match (self, command) {
            (NextModel::ReadCommand(comment), Some(c)) => NextModel::Emit(
                command_event(comment, c),
            ),
            (NextModel::ReadCommand(_), None) => NextModel::Nothing(IgnoredModel::NotCommand),
            _ => self,
        }
    }

    /// What follows once the head of a pull request was read as a commit.
    pub open spec fn after_commit(self, commit: Option<Seq<char>>) -> NextModel {
        match (self, commit) {
            (NextModel::ReadCommit { pipeline_id, pr, action, .. }, Some(c)) => match change_event(
                pipeline_id,
                pr,
                action,
                c,
            ) {
                Some(event) => NextModel::Emit(event),
                None => NextModel::Nothing(IgnoredModel::OtherAction),
            },
            (NextModel::ReadCommit { .. }, None) => NextModel::Nothing(
                IgnoredModel::InvalidCommit,
            ),
            _ => self,
        }
    }
}

/// What follows a comment on a pull request: its author's permission is
/// checked, if the repository is served.
pub open spec fn pr_comment_leads_to(worker: WorkerModel, desc: CommentDesc) -> NextModel {
    let repo = repo_of(desc.repository);
    if worker.repos.contains_key(repo) {
        NextModel::after_check(
            PermissionModel::start(desc.comment.user.login@, repo, worker.repos[repo]),
            comment_of(desc, worker.repos[repo].pipeline_id),
        )
    } else {
        NextModel::Nothing(IgnoredModel::UnknownRepo(repo))
    }
}

/// What follows a comment.
pub open spec fn comment_leads_to(worker: WorkerModel, desc: CommentDesc) -> NextModel {
    if !text::occurs(worker.user_ident, desc.comment.body@) {
        NextModel::Nothing(IgnoredModel::NotMentioned)
    } else if desc.issue.state@ == "closed"@ {
        NextModel::Nothing(IgnoredModel::IssueClosed)
    } else if desc.issue.pull_request is None {
        NextModel::Nothing(IgnoredModel::NotPullRequest)
    } else {
        pr_comment_leads_to(worker, desc)
    }
}

/// What follows a change of a pull request.
pub open spec fn change_leads_to(worker: WorkerModel, desc: PullRequestDesc) -> NextModel {
    let repo = repo_of(desc.repository);
    if worker.repos.contains_key(repo) {
        NextModel::ReadCommit {
            pipeline_id: worker.repos[repo].pipeline_id,
            pr: desc.pull_request.number,
            action: desc.action@,
            sha: desc.pull_request.head.sha@,
        }
    } else {
        NextModel::Nothing(IgnoredModel::UnknownRepo(repo))
    }
}

/// What follows an event.
pub open spec fn webhook_leads_to(worker: WorkerModel, webhook: Webhook) -> NextModel {
    match webhook {
        Webhook::IssueComment(Some(desc)) => comment_leads_to(worker, desc),
        Webhook::PullRequest(Some(desc)) => change_leads_to(worker, desc),
        Webhook::Ping(Some(_)) => NextModel::Nothing(IgnoredModel::Pinged),
        Webhook::Unknown => NextModel::Nothing(IgnoredModel::UnknownEvent),
        _ => NextModel::Nothing(IgnoredModel::InvalidDocument),
    }
}

/// What follows when the check of a comment's author has come so far.
fn go_on(step: PermissionStep, comment: PrComment) -> (r: Next)
    ensures
        r@ == NextModel::after_check(step@, comment@),
        match step {
            PermissionStep::Ask(check) => r == Next::Ask(PendingComment { check, comment }),
            PermissionStep::Decided(Ok(true)) => r == Next::ReadCommand(comment),
            PermissionStep::Decided(Ok(false)) => r == Next::Nothing(Ignored::NotPermitted),
            PermissionStep::Decided(Err(e)) => r == Next::Nothing(Ignored::CheckFailed(e)),
        },
{
    match step {
        PermissionStep::Ask(check) => Next::Ask(PendingComment { check, comment }),
        PermissionStep::Decided(Ok(true)) => Next::ReadCommand(comment),
        PermissionStep::Decided(Ok(false)) => Next::Nothing(Ignored::NotPermitted),
        PermissionStep::Decided(Err(e)) => Next::Nothing(Ignored::CheckFailed(e)),
    }
}

impl Worker {
    /// Deals with an event that GitHub sent.
    pub fn handle_webhook(&self, webhook: Webhook) -> (r: Handling)
        ensures
            r.answer == if understood(webhook) {
                Answer::NoContent
            } else {
                Answer::BadRequest
            },
            r.next@ == webhook_leads_to(self@, webhook),
            match webhook {
                Webhook::IssueComment(Some(_)) => r.answer is NoContent,
                Webhook::PullRequest(Some(_)) => r.answer is NoContent,
                Webhook::Ping(Some(_)) => r.answer is NoContent && r.next is Nothing,
                Webhook::IssueComment(None) => r.answer is BadRequest && r.next is Nothing,
                Webhook::PullRequest(None) => r.answer is BadRequest && r.next is Nothing,
                Webhook::Ping(None) => r.answer is BadRequest && r.next is Nothing,
                Webhook::Unknown => r.answer is BadRequest && r.next is Nothing,
            },
    {
        match webhook {
            Webhook::IssueComment(Some(desc)) => Handling {
                answer: Answer::NoContent,
                next: self.handle_comment(desc),
            },
            Webhook::PullRequest(Some(desc)) => Handling {
                answer: Answer::NoContent,
                next: self.handle_change(desc),
            },
            Webhook::Ping(Some(_)) => Handling {
                answer: Answer::NoContent,
                next: Next::Nothing(Ignored::Pinged),
            },
            Webhook::Unknown => Handling {
                answer: Answer::BadRequest,
                next: Next::Nothing(Ignored::UnknownEvent),
            },
            _ => Handling {
                answer: Answer::BadRequest,
                next: Next::Nothing(Ignored::InvalidDocument),
            },
        }
    }

    /// Deals with a comment.
    fn handle_comment(&self, desc: CommentDesc) -> (r: Next)
        ensures
            r@ == comment_leads_to(self@, desc),
    {
        if !contains(desc.comment.body.as_str(), self.user_ident()) {
            Next::Nothing(Ignored::NotMentioned)
        } else if same_text(desc.issue.state.as_str(), "closed") {
            Next::Nothing(Ignored::IssueClosed)
        } else if desc.issue.pull_request.is_none() {
            Next::Nothing(Ignored::NotPullRequest)
        } else {
            self.handle_pr_comment(desc)
        }
    }

    /// Deals with a comment on a pull request.
    pub fn handle_pr_comment(&self, desc: CommentDesc) -> (r: Next)
        ensures
            r@ == pr_comment_leads_to(self@, desc),
            r matches Next::Ask(pending) ==> {
                &&& pending.comment.pr.0 == desc.issue.number
                &&& pending.comment.user@ == desc.comment.user.login@
                &&& pending.comment.body@ == desc.comment.body@
                &&& pending.comment.author@ == desc.issue.user.login@
                &&& pending.comment.title@ == desc.issue.title@
                &&& pending.comment.issue_body@ == desc.issue.body@
                &&& match pending.check {
                    PermissionCheck::Member { user, .. } => user@ == desc.comment.user.login@,
                    PermissionCheck::Collaborator { user, repo } => user@
                        == desc.comment.user.login@ && repo.owner@
                        == desc.repository.owner.login@ && repo.repo@ == desc.repository.name@,
                }
            },
            r is Ask || r is Nothing,
    {
        let repo = Repo { owner: desc.repository.owner.login, repo: desc.repository.name };
        match self.repo_config(&repo) {
            Some(repo_config) => {
                let user = desc.comment.user.login;
                let step = self.user_has_write(user.as_str(), &repo, repo_config);
                let comment = PrComment {
                    pipeline_id: repo_config.pipeline_id,
                    pr: Pr(desc.issue.number),
                    user,
                    body: desc.comment.body,
                    author: desc.issue.user.login,
                    title: desc.issue.title,
                    issue_body: desc.issue.body,
                };
                go_on(step, comment)
            },
            None => Next::Nothing(Ignored::UnknownRepo(repo)),
        }
    }

    /// Deals with a change of a pull request.
    fn handle_change(&self, desc: PullRequestDesc) -> (r: Next)
        ensures
            r@ == change_leads_to(self@, desc),
    {
        let repo = Repo { owner: desc.repository.owner.login, repo: desc.repository.name };
        match self.repo_config(&repo) {
            Some(repo_config) => Next::ReadCommit(
                PullRequestChange {
                    pipeline_id: repo_config.pipeline_id,
                    pr: Pr(desc.pull_request.number),
                    action: desc.action,
                    sha: desc.pull_request.head.sha,
                },
            ),
            None => Next::Nothing(Ignored::UnknownRepo(repo)),
        }
    }
}

impl PullRequestChange {
    /// Goes on with the commit that `sha` names, if it names one.
    pub fn commit(self, commit: Option<Commit>) -> (r: Next)
        ensures
            r@ == self@.after_commit(ui::commit_text(commit)),
            commit is None ==> r is Nothing,
            commit is Some ==> {
                let action = self.action@;
                let opened = action == "opened"@ || action == "reopened"@;
                &&& action == "closed"@ <==> r is Emit && r->Emit_0 is Closed
                &&& action == "closed"@ ==> r == Next::Emit(
                    Event::Closed(self.pipeline_id, self.pr),
                )
                &&& opened <==> r is Emit && r->Emit_0 is Opened
                &&& opened ==> r == Next::Emit(
                    Event::Opened(self.pipeline_id, self.pr, commit->0),
                )
                &&& action == "synchronize"@ <==> r is Emit && r->Emit_0 is Changed
                &&& action == "synchronize"@ ==> r == Next::Emit(
                    Event::Changed(self.pipeline_id, self.pr, commit->0),
                )
                &&& r is Emit || r is Nothing
                &&& r is Emit ==> r->Emit_0 is Closed || r->Emit_0 is Opened
                    || r->Emit_0 is Changed
            },
    {
        proof {
            actions_differ();
        }
        match commit {
            Some(commit) => {
                let action = self.action.as_str();
                if same_text(action, "closed") {
                    Next::Emit(Event::Closed(self.pipeline_id, self.pr))
                } else if same_text(action, "opened") || same_text(action, "reopened") {
                    Next::Emit(Event::Opened(self.pipeline_id, self.pr, commit))
                } else if same_text(action, "synchronize") {
                    Next::Emit(Event::Changed(self.pipeline_id, self.pr, commit))
                } else {
                    Next::Nothing(Ignored::OtherAction)
                }
            },
            None => Next::Nothing(Ignored::InvalidCommit),
        }
    }
}

impl PendingComment {
    /// The request of the question at hand.
    pub fn request(&self, worker: &Worker) -> (r: ApiRequest)
        ensures
            Some(r@) == self.check@.request(worker@),
            r.method == http::Method::Get,
            r.body is None,
            match self.check {
                PermissionCheck::Member { user, team, .. } => text::spells(
                    r.url@,
                    seq![
                        worker@.host,
                        "/teams/"@,
                        text::decimal(team as nat),
                        "/members/"@,
                        user@,
                    ],
                ),
                PermissionCheck::Collaborator { user, repo } => text::spells(
                    r.url@,
                    seq![
                        worker@.host,
                        "/repos/"@,
                        repo.owner@,
                        "/"@,
                        repo.repo@,
                        "/collaborators/"@,
                        user@,
                    ],
                ),
            },
    {
        self.check.request(worker)
    }

    /// Goes on with the reply.
    pub fn reply(self, reply: Result<u16, hyper::error::Error>) -> (r: Next)
        ensures
            r@ == self@.after_reply(reply),
            match reply {
                Ok(code) => if 200 <= code <= 299 {
                    r == Next::ReadCommand(self.comment)
                } else if code == 404 {
                    match self.check {
                        PermissionCheck::Member { user, rest, .. } => if rest@.len() == 0 {
                            r == Next::Nothing(Ignored::NotPermitted)
                        } else {
                            r matches Next::Ask(pending) && pending.comment == self.comment && (
                            pending.check matches PermissionCheck::Member {
                                user: asked,
                                team: next,
                                rest: left,
                            } && asked@ == user@ && next == rest@[0] && left@ == rest@.skip(1))
                        },
                        PermissionCheck::Collaborator { .. } => r == Next::Nothing(
                            Ignored::NotPermitted,
                        ),
                    }
                } else {
                    r == Next::Nothing(Ignored::CheckFailed(GithubRequestError::HttpStatus(code)))
                },
                Err(e) => r == Next::Nothing(Ignored::CheckFailed(GithubRequestError::Http(e))),
            },
    {
        go_on(self.check.reply(reply), self.comment)
    }
}

impl PrComment {
    /// Goes on with the command that the comment gives, if it gives one. It is
    /// read from the text of the comment and the name of its author.
    pub fn command(self, command: Option<Command>) -> (r: Next)
        ensures
            r@ == NextModel::ReadCommand(self@).after_command(command),
            match command {
                None => r == Next::Nothing(Ignored::NotCommand),
                Some(Command::Canceled) => r == Next::Emit(
                    Event::Canceled(self.pipeline_id, self.pr),
                ),
                Some(Command::Approved(user, commit)) => r is Emit && {
                    &&& r->Emit_0 is Approved
                    &&& r->Emit_0->Approved_0 == self.pipeline_id
                    &&& r->Emit_0->Approved_1 == self.pr
                    &&& r->Emit_0->Approved_2 == commit
                    &&& text::spells(
                        r->Emit_0->Approved_3@,
                        seq![
                            "#"@,
                            text::decimal(self.pr.0 as nat),
                            " a=@"@,
                            self.author@,
                            " r=@"@,
                            user@,
                            "\n\n## "@,
                            self.title@,
                            " ##\n\n"@,
                            self.issue_body@,
                        ],
                    )
                },
            },
    {
        match command {
            Some(command) => Next::Emit(self.handle_comment_command(command)),
            None => Next::Nothing(Ignored::NotCommand),
        }
    }

    /// The event that a command calls for.
    pub fn handle_comment_command(&self, command: Command) -> (r: Event)
        ensures
            r@ == command_event(self@, command),
            match command {
                Command::Canceled => r == Event::Canceled(self.pipeline_id, self.pr),
                Command::Approved(user, commit) => {
                    &&& r is Approved
                    &&& r->Approved_0 == self.pipeline_id
                    &&& r->Approved_1 == self.pr
                    &&& r->Approved_2 == commit
                    &&& text::spells(
                        r->Approved_3@,
                        seq![
                            "#"@,
                            text::decimal(self.pr.0 as nat),
                            " a=@"@,
                            self.author@,
                            " r=@"@,
                            user@,
                            "\n\n## "@,
                            self.title@,
                            " ##\n\n"@,
                            self.issue_body@,
                        ],
                    )
                },
            },
    {
        match command {
            Command::Approved(user, commit) => self.handle_approved_pr(user.as_str(), commit),
            Command::Canceled => self.handle_canceled_pr(),
        }
    }

    /// The event that an approval calls for.
    pub fn handle_approved_pr(&self, user: &str, commit: Option<Commit>) -> (r: Event)
        ensures
            r@ == EventModel::Approved(
                self@.pipeline_id,
                self@.pr,
                ui::commit_text(commit),
                approval_message(self@, user@),
            ),
            r is Approved,
            r->Approved_0 == self.pipeline_id,
            r->Approved_1 == self.pr,
            r->Approved_2 == commit,
            text::spells(
                r->Approved_3@,
                seq![
                    "#"@,
                    text::decimal(self.pr.0 as nat),
                    " a=@"@,
                    self.author@,
                    " r=@"@,
                    user@,
                    "\n\n## "@,
                    self.title@,
                    " ##\n\n"@,
                    self.issue_body@,
                ],
            ),
    {
        proof {
            message_spelled_out(self@, user@);
        }
        let mut message = "#".to_owned();
        message.append(self.pr.to_string().as_str());
        message.append(" a=@");
        message.append(self.author.as_str());
        message.append(" r=@");
        message.append(user);
        message.append("\n\n## ");
        message.append(self.title.as_str());
        message.append(" ##\n\n");
        message.append(self.issue_body.as_str());
        Event::Approved(self.pipeline_id, self.pr, commit, message)
    }

    /// The event that a cancellation calls for.
    pub fn handle_canceled_pr(&self) -> (r: Event)
        ensures
            r@ == EventModel::Canceled(self@.pipeline_id, self@.pr),
            r == Event::Canceled(self.pipeline_id, self.pr),
    {
        Event::Canceled(self.pipeline_id, self.pr)
    }
}

impl NextModel {
    /// What follows after these replies to questions.
    pub open spec fn run(self, replies: Seq<Result<u16, hyper::error::Error>>) -> NextModel
        decreases replies.len(),
    {
        if self is Ask && replies.len() > 0 {
            self.after_reply(replies[0]).run(replies.skip(1))
        } else {
            self
        }
    }
}

/// While the author's permission is checked, the check alone decides what
/// follows.
pub proof fn check_decides_what_follows(
    check: PermissionModel,
    comment: CommentModel,
    replies: Seq<Result<u16, hyper::error::Error>>,
)
    ensures
        NextModel::after_check(check, comment).run(replies) == NextModel::after_check(
            check.run(replies),
            comment,
        ),
    decreases replies.len(),
{
    if !(check is Decided) && replies.len() > 0 {
        check_decides_what_follows(check.after(replies[0]), comment, replies.skip(1));
    }
}

/// A comment leads to an event exactly if its author turns out to have
/// permission and its text is a command; a check that fails counts as no
/// permission.
pub proof fn only_permitted_commands_count(
    check: PermissionModel,
    comment: CommentModel,
    replies: Seq<Result<u16, hyper::error::Error>>,
    command: Option<Command>,
)
    ensures
        NextModel::after_check(check, comment).run(replies).after_command(command) is Emit <==> (
        check.run(replies) == PermissionModel::Decided(Ok::<bool, GithubRequestError>(true))
            && command is Some),
{
    check_decides_what_follows(check, comment, replies);
}

/// Something follows a comment only if it mentions the front end, is for an
/// open pull request, and is about a repository that is served.
pub proof fn other_comments_are_ignored(worker: WorkerModel, desc: CommentDesc)
    requires
        !(comment_leads_to(worker, desc) is Nothing),
    ensures
        worth_looking(worker, desc),
        worker.repos.contains_key(repo_of(desc.repository)),
{
}

/// If a comment leads to an event, then it mentions the front end and is for
/// an open pull request, GitHub said yes to a question about its author, its
/// text is a command, and the event is the one that the command calls for, for
/// that pull request and the pipeline that builds its repository.
pub proof fn event_of_a_comment(
    worker: WorkerModel,
    desc: CommentDesc,
    replies: Seq<Result<u16, hyper::error::Error>>,
    command: Option<Command>,
    event: EventModel,
)
    requires
        comment_leads_to(worker, desc).run(replies).after_command(command) == NextModel::Emit(
            event,
        ),
    ensures
        worth_looking(worker, desc),
        worker.repos.contains_key(repo_of(desc.repository)),
        exists|i: int|
            0 <= i < replies.len() && http::membership(#[trigger] replies[i]) == Ok::<
                bool,
                GithubRequestError,
            >(true),
        command is Some,
        event == command_event(
            comment_of(desc, worker.repos[repo_of(desc.repository)].pipeline_id),
            command->0,
        ),
{
    other_comments_are_ignored(worker, desc);
    let repo = repo_of(desc.repository);
    let config = worker.repos[repo];
    let comment = comment_of(desc, config.pipeline_id);
    let check = PermissionModel::start(desc.comment.user.login@, repo, config);
    check_decides_what_follows(check, comment, replies);
    assert(check != PermissionModel::Decided(Ok::<bool, GithubRequestError>(true)));
    access::permission_needs_a_yes(check, replies);
}

impl NextModel {
    /// The request of the question at hand.
    pub open spec fn request(self, worker: WorkerModel) -> Option<RequestModel> {
        match self {
            NextModel::Ask { check, .. } => check.request(worker),
            _ => None,
        }
    }
}

/// Whether two comments differ, in what is read of them, in nothing but who
/// made the pull request that they are for.
pub open spec fn same_but_for_author(a: CommentDesc, b: CommentDesc) -> bool {
    &&& a.issue.number == b.issue.number
    &&& a.issue.title@ == b.issue.title@
    &&& a.issue.body@ == b.issue.body@
    &&& (a.issue.pull_request is Some) == (b.issue.pull_request is Some)
    &&& a.issue.state@ == b.issue.state@
    &&& a.comment.user.login@ == b.comment.user.login@
    &&& a.comment.body@ == b.comment.body@
    &&& repo_of(a.repository) == repo_of(b.repository)
}

/// Whether a question is about this user: whether they belong to a team, or
/// whether they collaborate on the repository.
pub open spec fn asks_about(check: PermissionModel, user: Seq<char>, repo: RepoModel) -> bool {
    match check {
        PermissionModel::Member { user: asked, .. } => asked == user,
        PermissionModel::Collaborator { user: asked, repo: about } => asked == user && about
            == repo,
        PermissionModel::Decided(_) => false,
    }
}

/// Every question of a check that begins with one about a user is about that
/// user.
proof fn questions_are_about_the_user(
    check: PermissionModel,
    user: Seq<char>,
    repo: RepoModel,
    replies: Seq<Result<u16, hyper::error::Error>>,
)
    requires
        check is Decided || asks_about(check, user, repo),
    ensures
        check.run(replies) is Decided || asks_about(check.run(replies), user, repo),
    decreases replies.len(),
{
    if !(check is Decided) && replies.len() > 0 {
        questions_are_about_the_user(check.after(replies[0]), user, repo, replies.skip(1));
    }
}

/// Whatever GitHub has replied so far, the question at hand is about the user
/// who made the comment, and its request names that user.
pub proof fn only_the_commenter_is_asked_about(
    worker: WorkerModel,
    desc: CommentDesc,
    replies: Seq<Result<u16, hyper::error::Error>>,
    check: PermissionModel,
    comment: CommentModel,
)
    requires
        pr_comment_leads_to(worker, desc).run(replies) == (NextModel::Ask { check, comment }),
    ensures
        asks_about(check, desc.comment.user.login@, repo_of(desc.repository)),
        check.request(worker) == Some(
            worker.request(
                http::Method::Get,
                http::AcceptType::Regular,
                match check {
                    PermissionModel::Member { team, .. } => worker::member_url(
                        worker.host,
                        team,
                        desc.comment.user.login@,
                    ),
                    _ => worker::collaborator_url(
                        worker.host,
                        repo_of(desc.repository),
                        desc.comment.user.login@,
                    ),
                },
            ),
        ),
{
    let repo = repo_of(desc.repository);
    let config = worker.repos[repo];
    let user = desc.comment.user.login@;
    let start = PermissionModel::start(user, repo, config);
    if worker.repos.contains_key(repo) {
        check_decides_what_follows(start, comment_of(desc, config.pipeline_id), replies);
        questions_are_about_the_user(start, user, repo, replies);
    }
}

/// Having made the pull request grants nothing. For two comments that differ
/// only in who made it, whatever GitHub replies: the same questions are asked,
/// and in the end both lead to an event or neither does.
pub proof fn authorship_grants_nothing(
    worker: WorkerModel,
    a: CommentDesc,
    b: CommentDesc,
    replies: Seq<Result<u16, hyper::error::Error>>,
    command: Option<Command>,
)
    requires
        same_but_for_author(a, b),
    ensures
        pr_comment_leads_to(worker, a).run(replies).request(worker) == pr_comment_leads_to(
            worker,
            b,
        ).run(replies).request(worker),
        pr_comment_leads_to(worker, a).run(replies).after_command(command) is Emit
            == pr_comment_leads_to(worker, b).run(replies).after_command(command) is Emit,
        comment_leads_to(worker, a).run(replies).request(worker) == comment_leads_to(
            worker,
            b,
        ).run(replies).request(worker),
        comment_leads_to(worker, a).run(replies).after_command(command) is Emit
            == comment_leads_to(worker, b).run(replies).after_command(command) is Emit,
{
    let repo = repo_of(a.repository);
    if worker.repos.contains_key(repo) {
        let config = worker.repos[repo];
        let check = PermissionModel::start(a.comment.user.login@, repo, config);
        check_decides_what_follows(check, comment_of(a, config.pipeline_id), replies);
        check_decides_what_follows(check, comment_of(b, config.pipeline_id), replies);
    }
}

/// A change of a pull request leads to an event exactly if its repository is
/// served, its head is a commit, and it was closed, opened, reopened or
/// synchronized.
pub proof fn event_of_a_change(
    worker: WorkerModel,
    desc: PullRequestDesc,
    commit: Option<Seq<char>>,
)
    ensures
        change_leads_to(worker, desc).after_commit(commit) is Emit <==> {
            &&& worker.repos.contains_key(repo_of(desc.repository))
            &&& commit is Some
            &&& (desc.action@ == "closed"@ || desc.action@ == "opened"@ || desc.action@
                == "reopened"@ || desc.action@ == "synchronize"@)
        },
{
}

/// The event that a change of a pull request leads to is for that pull request
/// and the pipeline that builds its repository.
pub proof fn event_of_a_change_is_for_its_pipeline(
    worker: WorkerModel,
    desc: PullRequestDesc,
    commit: Option<Seq<char>>,
    event: EventModel,
)
    requires
        change_leads_to(worker, desc).after_commit(commit) == NextModel::Emit(event),
    ensures
        ui::event_pipeline(event) == worker.repos[repo_of(desc.repository)].pipeline_id,
        ui::event_pr(event) == desc.pull_request.number,
{
}

/// Nothing that is not understood leads to anything.
pub proof fn refused_events_lead_to_nothing(worker: WorkerModel, webhook: Webhook)
    requires
        !understood(webhook),
    ensures
        webhook_leads_to(worker, webhook) is Nothing,
{
}

/// Once a repository was added, a change of one of its pull requests is read
/// for the pipeline that it was last added with.
pub proof fn added_repository_is_watched(
    worker: WorkerModel,
    desc: PullRequestDesc,
    config: ConfigModel,
)
    ensures
        change_leads_to(worker.with_repo(repo_of(desc.repository), config), desc) == (
        NextModel::ReadCommit {
            pipeline_id: config.pipeline_id,
            pr: desc.pull_request.number,
            action: desc.action@,
            sha: desc.pull_request.head.sha@,
        }),
{
}

impl NextModel {
    /// What follows once every question was asked, if GitHub's replies about
    /// the teams and about being a collaborator are these.
    pub open spec fn answered(
        self,
        members: spec_fn(u32) -> Result<u16, hyper::error::Error>,
        collaborator: Result<u16, hyper::error::Error>,
    ) -> NextModel
        decreases
                match self {
                    NextModel::Ask { check, .. } => check.questions(),
                    _ => 0,
                },
    {
        match self {
            NextModel::Ask { check: PermissionModel::Member { team, .. }, .. } => self.after_reply(
                members(team),
            ).answered(members, collaborator),
            NextModel::Ask {
                check: PermissionModel::Collaborator { .. },
                ..
            } => self.after_reply(collaborator).answered(members, collaborator),
            _ => self,
        }
    }
}

/// Once every question was asked, the check's result decides what follows.
proof fn result_decides_what_follows(
    check: PermissionModel,
    comment: CommentModel,
    members: spec_fn(u32) -> Result<u16, hyper::error::Error>,
    collaborator: Result<u16, hyper::error::Error>,
)
    ensures
        NextModel::after_check(check, comment).answered(members, collaborator)
            == NextModel::after_check(
            PermissionModel::Decided(check.answered(members, collaborator)),
            comment,
        ),
    decreases check.questions(),
{
    match check {
        PermissionModel::Member { team, .. } => {
            result_decides_what_follows(
                check.after(members(team)),
                comment,
                members,
                collaborator,
            );
        },
        PermissionModel::Collaborator { .. } => {
            result_decides_what_follows(check.after(collaborator), comment, members, collaborator);
        },
        PermissionModel::Decided(_) => {},
    }
}

/// A command is passed on: if a comment mentions the front end, is for an open
/// pull request of a repository that is served, and gives a command, and if
/// GitHub answers, then the event that the command calls for follows exactly
/// if the author belongs to a team that may write to the repository, or, where
/// the repository has no teams, collaborates on it. Otherwise nothing follows.
pub proof fn commands_are_passed_on(
    worker: WorkerModel,
    desc: CommentDesc,
    members: spec_fn(u32) -> Result<u16, hyper::error::Error>,
    collaborator: Result<u16, hyper::error::Error>,
    command: Command,
)
    requires
        worth_looking(worker, desc),
        worker.repos.contains_key(repo_of(desc.repository)),
        match worker.repos[repo_of(desc.repository)].teams_with_write {
            Some(teams) => forall|team: u32| #[trigger]
                teams.contains(team) ==> http::membership(members(team)) is Ok,
            None => http::membership(collaborator) is Ok,
        },
    ensures
        ({
            let config = worker.repos[repo_of(desc.repository)];
            let permitted = match config.teams_with_write {
                Some(teams) => access::some_yes(teams, members),
                None => http::membership(collaborator) == Ok::<bool, GithubRequestError>(true),
            };
            comment_leads_to(worker, desc).answered(members, collaborator).after_command(
                Some(command),
            ) == if permitted {
                NextModel::Emit(command_event(comment_of(desc, config.pipeline_id), command))
            } else {
                NextModel::Nothing(IgnoredModel::NotPermitted)
            }
        }),
{
    let repo = repo_of(desc.repository);
    let config = worker.repos[repo];
    let comment = comment_of(desc, config.pipeline_id);
    let user = desc.comment.user.login@;
    let check = PermissionModel::start(user, repo, config);
    result_decides_what_follows(check, comment, members, collaborator);
    match config.teams_with_write {
        Some(teams) => {
            access::ascending_lists(teams);
            access::order_of_teams_is_irrelevant(
                user,
                teams,
                access::ascending(teams),
                members,
                collaborator,
            );
        },
        None => {
            let decided = check.after(collaborator);
            assert(decided.answered(members, collaborator) == http::membership(collaborator));
        },
    }
}

/// Only the first value of the header tells the kind of event, and only by one
/// of three names, each in full. Without a value the kind is unknown.
pub proof fn names_tell_the_kind(values: Option<Seq<Vec<u8>>>)
    ensures
        values is None || values->0.len() == 0 ==> kind_of(event_name(values)) is Unknown,
        values is Some && values->0.len() > 0 ==> {
            let kind = kind_of(event_name(values));
            let name = values->0[0]@;
            &&& kind is IssueComment <==> name == vstd::utf8::encode_utf8("issue_comment"@)
            &&& kind is PullRequest <==> name == vstd::utf8::encode_utf8("pull_request"@)
            &&& kind is Ping <==> name == vstd::utf8::encode_utf8("ping"@)
        },
{
    text::utf8_reads_back("issue_comment"@);
    text::utf8_reads_back("pull_request"@);
    text::utf8_reads_back("ping"@);
    text::utf8_reads_back(Seq::empty());
    reveal_strlit("issue_comment");
    reveal_strlit("pull_request");
    reveal_strlit("ping");
    assert("issue_comment"@.len() == 13);
    assert("pull_request"@.len() == 12);
    assert("ping"@.len() == 4);
    assert(vstd::utf8::decode_utf8(Seq::empty()).len() == 0);
}

/// The actions that matter are different words.
proof fn actions_differ()
    ensures
        "closed"@ != "opened"@,
        "closed"@ != "reopened"@,
        "closed"@ != "synchronize"@,
        "opened"@ != "synchronize"@,
        "reopened"@ != "synchronize"@,
{
    reveal_strlit("closed");
    reveal_strlit("opened");
    reveal_strlit("reopened");
    reveal_strlit("synchronize");
    assert("closed"@[0] == 'c');
    assert("opened"@[0] == 'o');
    assert("reopened"@[0] == 'r');
    assert("synchronize"@[0] == 's');
}

/// What the message of an approval consists of, character by character: the
/// number of the pull request, its author, the approver, and the title and the
/// text of the pull request, all of them in full.
pub proof fn message_spelled_out(comment: CommentModel, approver: Seq<char>)
    ensures
        text::spells(
            approval_message(comment, approver),
            seq![
                "#"@,
                text::decimal(comment.pr as nat),
                " a=@"@,
                comment.author,
                " r=@"@,
                approver,
                "\n\n## "@,
                comment.title,
                " ##\n\n"@,
                comment.issue_body,
            ],
        ),
{
    text::spell_10(
        "#"@,
        text::decimal(comment.pr as nat),
        " a=@"@,
        comment.author,
        " r=@"@,
        approver,
        "\n\n## "@,
        comment.title,
        " ##\n\n"@,
        comment.issue_body,
    );
}

/// An approval approves, whoever gives it and whether it names a commit or not:
/// the event is an approval for the comment's pipeline and pull request, with
/// exactly the commit that was named, or none if none was.
pub proof fn approvals_approve(comment: CommentModel, approver: String, commit: Option<Commit>)
    ensures
        ({
            let event = command_event(comment, Command::Approved(approver, commit));
            &&& event is Approved
            &&& event->Approved_0 == comment.pipeline_id
            &&& event->Approved_1 == comment.pr
            &&& event->Approved_2 is Some <==> commit is Some
            &&& commit is Some ==> event->Approved_2->0 == (commit->0).0@
            &&& text::spells(
                event->Approved_3,
                seq![
                    "#"@,
                    text::decimal(comment.pr as nat),
                    " a=@"@,
                    comment.author,
                    " r=@"@,
                    approver@,
                    "\n\n## "@,
                    comment.title,
                    " ##\n\n"@,
                    comment.issue_body,
                ],
            )
        }),
{
    message_spelled_out(comment, approver@);
}

/// Only a cancellation cancels, and only an approval approves; no command leads
/// to an event of another kind. A cancellation is for the comment's pipeline and
/// pull request.
pub proof fn only_cancellations_cancel(comment: CommentModel, command: Command)
    ensures
        command_event(comment, command) is Canceled <==> command is Canceled,
        command_event(comment, command) is Approved <==> command is Approved,
        command is Canceled ==> command_event(comment, command) == EventModel::Canceled(
            comment.pipeline_id,
            comment.pr,
        ),
{
}

/// What follows once a comment by somebody with permission was read: the event
/// of its command, or nothing if it gives none.
pub proof fn commands_count_once_read(comment: CommentModel, command: Command)
    ensures
        NextModel::ReadCommand(comment).after_command(None) == NextModel::Nothing(
            IgnoredModel::NotCommand,
        ),
        NextModel::ReadCommand(comment).after_command(Some(command)) is Emit,
        ({
            let event = NextModel::ReadCommand(comment).after_command(Some(command))->Emit_0;
            &&& event is Canceled <==> command is Canceled
            &&& event is Approved <==> command is Approved
            &&& ui::event_pipeline(event) == comment.pipeline_id
            &&& ui::event_pr(event) == comment.pr
            &&& command matches Command::Approved(approver, commit) ==> {
                &&& event->Approved_2 is Some <==> commit is Some
                &&& commit is Some ==> event->Approved_2->0 == (commit->0).0@
            }
        }),
{
}

/// What kind of event a change of a pull request leads to, and with which
/// commit, whatever the commit is: `closed`, and no other action, to one that
/// it was closed; `opened` and `reopened`, and no other, to one that it was
/// opened, with the commit that was read; `synchronize`, and no other, to one
/// that it changed, with the commit that was read. Any other action leads to
/// nothing, and so does a head that is not a commit.
pub proof fn changes_lead_to_their_events(
    pipeline_id: PipelineId,
    pr: u32,
    action: Seq<char>,
    sha: Seq<char>,
    commit: Seq<char>,
)
    ensures
        ({
            let change = NextModel::ReadCommit { pipeline_id, pr, action, sha };
            let next = change.after_commit(Some(commit));
            let opened = action == "opened"@ || action == "reopened"@;
            &&& action == "closed"@ <==> next is Emit && next->Emit_0 is Closed
            &&& action == "closed"@ ==> next == NextModel::Emit(EventModel::Closed(pipeline_id, pr))
            &&& opened <==> next is Emit && next->Emit_0 is Opened
            &&& opened ==> next == NextModel::Emit(EventModel::Opened(pipeline_id, pr, commit))
            &&& action == "synchronize"@ <==> next is Emit && next->Emit_0 is Changed
            &&& action == "synchronize"@ ==> next == NextModel::Emit(
                EventModel::Changed(pipeline_id, pr, commit),
            )
            &&& !opened && action != "closed"@ && action != "synchronize"@ ==> next
                == NextModel::Nothing(IgnoredModel::OtherAction)
            &&& change.after_commit(None) == NextModel::Nothing(IgnoredModel::InvalidCommit)
        }),
{
    actions_differ();
}

/// A change of a pull request is read for the repository that it names by owner
/// and name: with its number, its action and its head as they stand there, for
/// the pipeline that builds the repository; or it is ignored if that repository
/// is not served.
pub proof fn changes_are_read_as_they_stand(worker: WorkerModel, desc: PullRequestDesc)
    ensures
        ({
            let repo = RepoModel {
                owner: desc.repository.owner.login@,
                repo: desc.repository.name@,
            };
            if worker.repos.contains_key(repo) {
                change_leads_to(worker, desc) == (NextModel::ReadCommit {
                    pipeline_id: worker.repos[repo].pipeline_id,
                    pr: desc.pull_request.number,
                    action: desc.action@,
                    sha: desc.pull_request.head.sha@,
                })
            } else {
                change_leads_to(worker, desc) == NextModel::Nothing(IgnoredModel::UnknownRepo(repo))
            }
        }),
{
}

/// Why a comment is ignored before anybody is asked: it does not mention the
/// front end, or else its issue is closed, or else it is not for a pull request.
/// Any other comment is dealt with as a comment on a pull request.
pub proof fn why_comments_are_ignored(worker: WorkerModel, desc: CommentDesc)
    ensures
        ({
            let next = comment_leads_to(worker, desc);
            let mentioned = exists|before: Seq<char>, after: Seq<char>|
                desc.comment.body@ == #[trigger] (before + worker.user_ident + after);
            let closed = desc.issue.state@ == "closed"@;
            let pull = desc.issue.pull_request is Some;
            &&& next == NextModel::Nothing(IgnoredModel::NotMentioned) <==> !mentioned
            &&& next == NextModel::Nothing(IgnoredModel::IssueClosed) <==> mentioned && closed
            &&& next == NextModel::Nothing(IgnoredModel::NotPullRequest) <==> mentioned && !closed
                && !pull
            &&& mentioned && !closed && pull ==> next == pr_comment_leads_to(worker, desc)
        }),
{
    text::occurring_is_being_inside(worker.user_ident, desc.comment.body@);
}

/// A comment on a pull request of a repository that is served has the user who
/// made the comment asked about, and is kept as it stands meanwhile: as a
/// collaborator if the repository has no teams, else as a member of its teams.
/// If the set of teams is empty, or the repository is not served, nothing
/// follows.
pub proof fn comments_have_their_user_asked_about(worker: WorkerModel, desc: CommentDesc)
    ensures
        ({
            let next = pr_comment_leads_to(worker, desc);
            let repo = RepoModel {
                owner: desc.repository.owner.login@,
                repo: desc.repository.name@,
            };
            let user = desc.comment.user.login@;
            let kept = CommentModel {
                pipeline_id: worker.repos[repo].pipeline_id,
                pr: desc.issue.number,
                user: desc.comment.user.login@,
                body: desc.comment.body@,
                author: desc.issue.user.login@,
                title: desc.issue.title@,
                issue_body: desc.issue.body@,
            };
            if !worker.repos.contains_key(repo) {
                next == NextModel::Nothing(IgnoredModel::UnknownRepo(repo))
            } else {
                match worker.repos[repo].teams_with_write {
                    None => next == (NextModel::Ask {
                        check: PermissionModel::Collaborator { user, repo },
                        comment: kept,
                    }),
                    Some(teams) => if teams.is_empty() {
                        next == NextModel::Nothing(IgnoredModel::NotPermitted)
                    } else {
                        next matches NextModel::Ask { check, comment } && comment == kept && (
                        check matches PermissionModel::Member { user: asked, team, rest } && asked
                            == user && (forall|t: u32| #[trigger]
                            teams.contains(t) <==> t == team || rest.contains(t)))
                    },
                }
            }
        }),
{
    let repo = RepoModel { owner: desc.repository.owner.login@, repo: desc.repository.name@ };
    access::check_begins_as_it_should(desc.comment.user.login@, repo, worker.repos[repo]);
}

/// What the reply to a question does to a comment. A status from 200 to 299 has
/// its text read as a command. The status 404 ends it without permission, unless
/// teams are left: then the next of them is asked for. Anything else ends it
/// with what came. The comment is kept as it is.
pub proof fn reply_moves_the_comment(
    user: Seq<char>,
    team: u32,
    rest: Seq<u32>,
    repo: RepoModel,
    comment: CommentModel,
    code: u16,
    error: hyper::error::Error,
)
    ensures
        ({
            let member = NextModel::Ask {
                check: PermissionModel::Member { user, team, rest },
                comment,
            };
            let collaborator = NextModel::Ask {
                check: PermissionModel::Collaborator { user, repo },
                comment,
            };
            let no = NextModel::Nothing(IgnoredModel::NotPermitted);
            let bad = NextModel::Nothing(
                IgnoredModel::CheckFailed(GithubRequestError::HttpStatus(code)),
            );
            let none = NextModel::Nothing(
                IgnoredModel::CheckFailed(GithubRequestError::Http(error)),
            );
            &&& 200 <= code <= 299 ==> member.after_reply(Ok(code)) == NextModel::ReadCommand(
                comment,
            ) && collaborator.after_reply(Ok(code)) == NextModel::ReadCommand(comment)
            &&& code == 404 ==> collaborator.after_reply(Ok(code)) == no
            &&& code == 404 && rest.len() == 0 ==> member.after_reply(Ok(code)) == no
            &&& code == 404 && rest.len() > 0 ==> member.after_reply(Ok(code)) == (NextModel::Ask {
                check: PermissionModel::Member { user, team: rest[0], rest: rest.skip(1) },
                comment,
            })
            &&& !(200 <= code <= 299) && code != 404 ==> member.after_reply(Ok(code)) == bad
                && collaborator.after_reply(Ok(code)) == bad
            &&& member.after_reply(Err(error)) == none && collaborator.after_reply(Err(error))
                == none
        }),
{
    access::reply_moves_the_check(user, team, rest, repo, Ok(true), code, error);
}

/// The event that a comment leads to, in terms of the document that came with
/// it: it is for the pull request that the comment is for and the pipeline that
/// builds the repository named by owner and name. An approval carries the commit
/// of the command and a message with the author, the title and the text of the
/// pull request, and with the approver.
pub proof fn event_of_a_document(
    worker: WorkerModel,
    desc: CommentDesc,
    replies: Seq<Result<u16, hyper::error::Error>>,
    command: Option<Command>,
    event: EventModel,
)
    requires
        comment_leads_to(worker, desc).run(replies).after_command(command) == NextModel::Emit(
            event,
        ),
    ensures
        command is Some,
        ({
            let repo = RepoModel {
                owner: desc.repository.owner.login@,
                repo: desc.repository.name@,
            };
            &&& worker.repos.contains_key(repo)
            &&& match command->0 {
                Command::Canceled => event == EventModel::Canceled(
                    worker.repos[repo].pipeline_id,
                    desc.issue.number,
                ),
                Command::Approved(approver, commit) => {
                    &&& event is Approved
                    &&& event->Approved_0 == worker.repos[repo].pipeline_id
                    &&& event->Approved_1 == desc.issue.number
                    &&& event->Approved_2 is Some <==> commit is Some
                    &&& commit is Some ==> event->Approved_2->0 == (commit->0).0@
                    &&& text::spells(
                        event->Approved_3,
                        seq![
                            "#"@,
                            text::decimal(desc.issue.number as nat),
                            " a=@"@,
                            desc.issue.user.login@,
                            " r=@"@,
                            approver@,
                            "\n\n## "@,
                            desc.issue.title@,
                            " ##\n\n"@,
                            desc.issue.body@,
                        ],
                    )
                },
            }
        }),
{
    event_of_a_comment(worker, desc, replies, command, event);
    let repo = repo_of(desc.repository);
    let comment = comment_of(desc, worker.repos[repo].pipeline_id);
    match command->0 {
        Command::Canceled => {},
        Command::Approved(approver, commit) => {
            approvals_approve(comment, approver, commit);
        },
    }
}

/// Each event is dealt with by its kind, and an event is understood exactly if
/// its kind is known and its document could be read.
pub proof fn events_go_by_their_kind(
    worker: WorkerModel,
    comment: CommentDesc,
    change: PullRequestDesc,
    ping: PingDesc,
    webhook: Webhook,
)
    ensures
        webhook_leads_to(worker, Webhook::IssueComment(Some(comment))) == comment_leads_to(
            worker,
            comment,
        ),
        webhook_leads_to(worker, Webhook::PullRequest(Some(change))) == change_leads_to(
            worker,
            change,
        ),
        webhook_leads_to(worker, Webhook::Ping(Some(ping))) == NextModel::Nothing(
            IgnoredModel::Pinged,
        ),
        webhook_leads_to(worker, Webhook::Unknown) == NextModel::Nothing(
            IgnoredModel::UnknownEvent,
        ),
        webhook == Webhook::IssueComment(None) || webhook == Webhook::PullRequest(None) || webhook
            == Webhook::Ping(None) ==> webhook_leads_to(worker, webhook) == NextModel::Nothing(
            IgnoredModel::InvalidDocument,
        ),
        understood(webhook) <==> !(webhook is Unknown || webhook == Webhook::IssueComment(None)
            || webhook == Webhook::PullRequest(None) || webhook == Webhook::Ping(None)),
{
}

/// A comment or a change as a model has the same numbers and texts.
pub proof fn comments_and_changes_keep_their_texts(comment: PrComment, change: PullRequestChange)
    ensures
        comment@.pipeline_id == comment.pipeline_id,
        comment@.pr == comment.pr.0,
        comment@.user == comment.user@,
        comment@.body == comment.body@,
        comment@.author == comment.author@,
        comment@.title == comment.title@,
        comment@.issue_body == comment.issue_body@,
        change@ == (NextModel::ReadCommit {
            pipeline_id: change.pipeline_id,
            pr: change.pr.0,
            action: change.action@,
            sha: change.sha@,
        }),
{
}

/// A step as a model is the same step, with the same event, comment or change.
pub proof fn steps_keep_their_kind(next: Next)
    ensures
        match next {
            Next::Nothing(why) => next@ is Nothing && (why is NotPermitted <==> next@->Nothing_0
                is NotPermitted),
            Next::ReadCommit(change) => next@ == change@ && next@ is ReadCommit,
            Next::Ask(pending) => next@ is Ask && next@->check == pending.check@ && next@->comment
                == pending.comment@,
            Next::ReadCommand(comment) => next@ is ReadCommand && next@->ReadCommand_0 == comment@,
            Next::Emit(event) => next@ is Emit && next@->Emit_0 == event@,
        },
{
}

} // verus!
