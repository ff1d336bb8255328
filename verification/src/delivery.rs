//! Reporting back to a pull request how far its pipeline has come.
//!
//! A report is a comment on the pull request, a status of its commits, or
//! both. The delivery tells step by step what is to be done. Whoever runs it
//! writes a payload as JSON, or sends the request at hand, and hands back what
//! came of it.

use crate::desc::{PostCommentComment, StatusDesc, StatusModel};
use crate::error::GithubRequestError;
use crate::http::{self, read_acceptance, AcceptType, ApiRequest, Method, RequestModel};
use crate::pr::{Pr, Repo, RepoModel};
use crate::repos::ConfigModel;
use crate::ui::{Commit, Message, PipelineId, Status};
use crate::text;
use crate::worker::{self, Worker, WorkerModel};
use crate::{desc, ui};
use std::collections::VecDeque;
use vstd::prelude::*;

verus! {

/// A document to write as JSON.
#[derive(Debug)]
pub enum Payload {
    Comment(PostCommentComment),
    Status(StatusDesc),
}

/// A document with its texts as sequences of characters.
pub enum PayloadModel {
    Comment(Seq<char>),
    Status(StatusModel),
}

impl View for Payload {
    type V = PayloadModel;

    open spec fn view(&self) -> PayloadModel {
        match *self {
            Payload::Comment(comment) => PayloadModel::Comment(comment.body@),
            Payload::Status(status) => PayloadModel::Status(status@),
        }
    }
}

/// A document and where it is to be posted, one place after the other.
#[derive(Debug)]
pub struct Round {
    pub payload: Payload,
    pub urls: VecDeque<String>,
}

/// A round with its texts as sequences of characters.
pub struct RoundModel {
    pub payload: PayloadModel,
    pub urls: Seq<Seq<char>>,
}

/// The characters of each of the texts.
pub open spec fn texts(s: Seq<String>) -> Seq<Seq<char>> {
    Seq::new(s.len(), |i: int| s[i]@)
}

impl View for Round {
    type V = RoundModel;

    open spec fn view(&self) -> RoundModel {
        RoundModel { payload: self.payload@, urls: texts(self.urls@) }
    }
}

/// Each of the rounds as a model.
pub open spec fn rounds(s: Seq<Round>) -> Seq<RoundModel> {
    Seq::new(s.len(), |i: int| s[i]@)
}

/// The payload is to be written as JSON.
#[derive(Debug)]
pub struct Encoding {
    pub payload: Payload,
    pub urls: VecDeque<String>,
    pub later: VecDeque<Round>,
}

/// The body is to be posted.
#[derive(Debug)]
pub struct Posting {
    pub url: String,
    pub body: Vec<u8>,
    pub urls: VecDeque<String>,
    pub later: VecDeque<Round>,
}

/// How far the delivery has come.
#[derive(Debug)]
pub enum DeliveryStep {
    Encode(Encoding),
    Post(Posting),
    Done(Result<(), GithubRequestError>),
}

/// How far the delivery has come, with texts and bytes as sequences.
pub enum DeliveryModel {
    Encode { payload: PayloadModel, urls: Seq<Seq<char>>, later: Seq<RoundModel> },
    Post { url: Seq<char>, body: Seq<u8>, urls: Seq<Seq<char>>, later: Seq<RoundModel> },
    Done(Result<(), GithubRequestError>),
}

impl View for Encoding {
    type V = DeliveryModel;

    open spec fn view(&self) -> DeliveryModel {
        DeliveryModel::Encode {
            payload: self.payload@,
            urls: texts(self.urls@),
            later: rounds(self.later@),
        }
    }
}

impl View for Posting {
    type V = DeliveryModel;

    open spec fn view(&self) -> DeliveryModel {
        DeliveryModel::Post {
            url: self.url@,
            body: self.body@,
            urls: texts(self.urls@),
            later: rounds(self.later@),
        }
    }
}

impl View for DeliveryStep {
    type V = DeliveryModel;

    open spec fn view(&self) -> DeliveryModel {
        match *self {
            DeliveryStep::Encode(encoding) => encoding@,
            DeliveryStep::Post(posting) => posting@,
            DeliveryStep::Done(result) => DeliveryModel::Done(result),
        }
    }
}

impl DeliveryModel {
    /// The delivery of these rounds, one after the other.
    pub open spec fn start(rounds: Seq<RoundModel>) -> DeliveryModel {
        if rounds.len() == 0 {
            DeliveryModel::Done(Ok(()))
        } else {
            DeliveryModel::Encode {
                payload: rounds[0].payload,
                urls: rounds[0].urls,
                later: rounds.skip(1),
            }
        }
    }

    /// The delivery of a body to these places, and of later rounds after that.
    pub open spec fn post(
        body: Seq<u8>,
        urls: Seq<Seq<char>>,
        later: Seq<RoundModel>,
    ) -> DeliveryModel {
        if urls.len() == 0 {
            DeliveryModel::start(later)
        } else {
            DeliveryModel::Post { url: urls[0], body, urls: urls.skip(1), later }
        }
    }

    /// The request at hand.
    pub open spec fn request(self, worker: WorkerModel) -> Option<RequestModel> {
        match self {
            DeliveryModel::Post { url, body, .. } => Some(
                RequestModel {
                    body: Some(body),
                    ..worker.request(Method::Post, AcceptType::Regular, url)
                },
            ),
            _ => None,
        }
    }

    /// How far the delivery has come once the payload was written.
    pub open spec fn after_encoding(
        self,
        encoded: Result<Seq<u8>, serde_json::error::Error>,
    ) -> DeliveryModel {
        match (self, encoded) {
            (DeliveryModel::Encode { urls, later, .. }, Ok(body)) => DeliveryModel::post(
                body,
                urls,
                later,
            ),
            (DeliveryModel::Encode { .. }, Err(e)) => DeliveryModel::Done(
                Err(GithubRequestError::Json(e)),
            ),
            _ => self,
        }
    }

    /// How far the delivery has come after the reply to the request at hand.
    pub open spec fn after_reply(self, reply: Result<u16, hyper::error::Error>) -> DeliveryModel {
        match (self, http::acceptance(reply)) {
            (DeliveryModel::Post { body, urls, later, .. }, Ok(_)) => DeliveryModel::post(
                body,
                urls,
                later,
            ),
            (DeliveryModel::Post { .. }, Err(e)) => DeliveryModel::Done(Err(e)),
            _ => self,
        }
    }
}

/// The bytes that writing a payload gave.
pub open spec fn encoded_bytes(encoded: Result<Vec<u8>, serde_json::error::Error>) -> Result<
    Seq<u8>,
    serde_json::error::Error,
> {
    match encoded {
        Ok(body) => Ok(body@),
        Err(e) => Err(e),
    }
}

/// Whether a step is the next one when a body is still to be posted to these
/// places: the first place is next, with the others behind it; without places
/// the payload of the first later round is; without rounds it is over.
pub open spec fn goes_on_posting(
    step: DeliveryStep,
    body: Seq<u8>,
    urls: Seq<String>,
    later: Seq<Round>,
) -> bool {
    if urls.len() > 0 {
        step matches DeliveryStep::Post(posting) && posting.url == urls[0] && posting.body@ == body
            && posting.urls@ == urls.skip(1) && posting.later@ == later
    } else if later.len() > 0 {
        step matches DeliveryStep::Encode(encoding) && encoding.payload == later[0].payload
            && encoding.urls == later[0].urls && encoding.later@ == later.skip(1)
    } else {
        step == DeliveryStep::Done(Ok(()))
    }
}

/// Delivers these rounds, one after the other.
fn start(all: VecDeque<Round>) -> (r: DeliveryStep)
    ensures
        r@ == DeliveryModel::start(rounds(all@)),
        if all@.len() == 0 {
            r == DeliveryStep::Done(Ok(()))
        } else {
            r matches DeliveryStep::Encode(encoding) && encoding.payload == all@[0].payload
                && encoding.urls == all@[0].urls && encoding.later@ == all@.skip(1)
        },
{
    let mut later = all;
    match later.pop_front() {
        Some(round) => {
            assert(rounds(later@) =~= rounds(all@).skip(1));
            assert(later@ =~= all@.skip(1));
            DeliveryStep::Encode(Encoding { payload: round.payload, urls: round.urls, later })
        },
        None => DeliveryStep::Done(Ok(())),
    }
}

/// Delivers a body to these places, and later rounds after that.
fn post(body: Vec<u8>, all: VecDeque<String>, later: VecDeque<Round>) -> (r: DeliveryStep)
    ensures
        r@ == DeliveryModel::post(body@, texts(all@), rounds(later@)),
        goes_on_posting(r, body@, all@, later@),
{
    let mut urls = all;
    match urls.pop_front() {
        Some(url) => {
            assert(texts(urls@) =~= texts(all@).skip(1));
            assert(urls@ =~= all@.skip(1));
            DeliveryStep::Post(Posting { url, body, urls, later })
        },
        None => start(later),
    }
}

impl Encoding {
    /// Goes on with the payload as JSON, or with why it could not be written.
    pub fn encoded(self, encoded: Result<Vec<u8>, serde_json::error::Error>) -> (r: DeliveryStep)
        ensures
            r@ == self@.after_encoding(encoded_bytes(encoded)),
            match encoded {
                Ok(body) => goes_on_posting(r, body@, self.urls@, self.later@),
                Err(e) => r == DeliveryStep::Done(Err(GithubRequestError::Json(e))),
            },
    {
        match encoded {
            Ok(body) => post(body, self.urls, self.later),
            Err(e) => DeliveryStep::Done(Err(GithubRequestError::from(e))),
        }
    }
}

impl Posting {
    /// The request that posts the body.
    pub fn request(&self, worker: &Worker) -> (r: ApiRequest)
        ensures
            Some(r@) == self@.request(worker@),
            r.method == Method::Post,
            r.url@ == self.url@,
            r.body is Some,
            r.body->0@ == self.body@,
            r.headers@.len() == 3,
            r.headers@[0].value@ == vstd::utf8::encode_utf8("application/vnd.github.v3+json"@),
            r.headers@[1].value@ == worker@.authorization,
    {
        let request = worker.authed_request(Method::Post, AcceptType::Regular, self.url.clone());
        let r = ApiRequest { body: Some(self.body.clone()), ..request };
        assert(r@.headers =~= request@.headers);
        r
    }

    /// Goes on with the reply.
    pub fn reply(self, reply: Result<u16, hyper::error::Error>) -> (r: DeliveryStep)
        ensures
            r@ == self@.after_reply(reply),
            match reply {
                Ok(code) => if 200 <= code <= 299 {
                    goes_on_posting(r, self.body@, self.urls@, self.later@)
                } else {
                    r == DeliveryStep::Done(Err(GithubRequestError::HttpStatus(code)))
                },
                Err(e) => r == DeliveryStep::Done(Err(GithubRequestError::Http(e))),
            },
    {
        match read_acceptance(reply) {
            Ok(_) => post(self.body, self.urls, self.later),
            Err(e) => DeliveryStep::Done(Err(e)),
        }
    }
}

/// A link of a build in a comment: the words, and the link if there is one.
pub open spec fn linked(emoji: Seq<char>, words: Seq<char>, url: Option<Seq<char>>) -> Seq<char> {
    match url {
        Some(u) => emoji + " ["@ + words + "]("@ + u + ")"@,
        None => emoji + " "@ + words,
    }
}

/// The comment that a status calls for, if it does.
pub open spec fn comment_text(status: Status) -> Option<Seq<char>> {
    match status {
        Status::StartingBuild(_, _) => None,
        Status::Testing(_, _, _) => None,
        Status::Success(_, _, url) => Some(
            linked(":+1:"@, "Build succeeded"@, desc::optional_text(url)),
        ),
        Status::Failure(_, _, url) => Some(
            linked(":-1:"@, "Build failed"@, desc::optional_text(url)),
        ),
        Status::Unmergeable(_) => Some(":x: Merge conflict!"@),
        Status::Unmoveable(_, _) => Some(":scream: Internal error while fast-forward master"@),
        Status::Invalidated => Some(":not_good: New commits added"@),
        Status::NoCommit => Some(":scream: Internal error: no commit found for PR"@),
        Status::Completed(_, _) => None,
    }
}

/// What a commit status says while the build is not over.
pub open spec fn testing_text(pull_commit: Seq<char>, merge_commit: Seq<char>) -> Seq<char> {
    "Testing "@ + pull_commit + " with merge commit "@ + merge_commit
}

/// A commit status that this front end sets.
pub open spec fn commit_status(
    state: Seq<char>,
    target_url: Option<Seq<char>>,
    description: Seq<char>,
) -> StatusModel {
    StatusModel { state, target_url, description, context: "continuous-integration/aelita"@ }
}

/// A commit status and the commits that get it: the head of the pull request,
/// and the merge commit if there is one.
pub struct ReportModel {
    pub pull_commit: Seq<char>,
    pub merge_commit: Option<Seq<char>>,
    pub status: StatusModel,
}

/// The commit status that a status calls for, if it does.
pub open spec fn status_report(status: Status) -> Option<ReportModel> {
    match status {
        Status::StartingBuild(pull, merge) => Some(
            ReportModel {
                pull_commit: pull@,
                merge_commit: Some(merge@),
                status: commit_status("pending"@, None, testing_text(pull@, merge@)),
            },
        ),
        Status::Testing(pull, merge, url) => Some(
            ReportModel {
                pull_commit: pull@,
                merge_commit: Some(merge@),
                status: commit_status(
                    "pending"@,
                    desc::optional_text(url),
                    testing_text(pull@, merge@),
                ),
            },
        ),
        Status::Success(pull, merge, url) => Some(
            ReportModel {
                pull_commit: pull@,
                merge_commit: Some(merge@),
                status: commit_status("success"@, desc::optional_text(url), "Tests passed"@),
            },
        ),
        Status::Failure(pull, merge, url) => Some(
            ReportModel {
                pull_commit: pull@,
                merge_commit: Some(merge@),
                status: commit_status("failure"@, desc::optional_text(url), "Tests failed"@),
            },
        ),
        Status::Unmergeable(pull) => Some(
            ReportModel {
                pull_commit: pull@,
                merge_commit: None,
                status: commit_status("failure"@, None, "Merge failed"@),
            },
        ),
        Status::Unmoveable(pull, merge) => Some(
            ReportModel {
                pull_commit: pull@,
                merge_commit: Some(merge@),
                status: commit_status("error"@, None, "Merge failed"@),
            },
        ),
        Status::Invalidated => None,
        Status::NoCommit => None,
        Status::Completed(_, _) => None,
    }
}

/// The round that posts a comment, if there is one.
pub open spec fn comment_rounds(
    host: Seq<char>,
    repo: RepoModel,
    pr: u32,
    comment: Option<Seq<char>>,
) -> Seq<RoundModel> {
    match comment {
        Some(text) => seq![
            RoundModel {
                payload: PayloadModel::Comment(text),
                urls: seq![worker::comments_url(host, repo, pr)],
            },
        ],
        None => Seq::empty(),
    }
}

/// Where the status of a report goes: to the head of the pull request first,
/// then to the merge commit.
pub open spec fn status_urls(host: Seq<char>, repo: RepoModel, report: ReportModel) -> Seq<
    Seq<char>,
> {
    match report.merge_commit {
        Some(merge) => seq![
            worker::statuses_url(host, repo, report.pull_commit),
            worker::statuses_url(host, repo, merge),
        ],
        None => seq![worker::statuses_url(host, repo, report.pull_commit)],
    }
}

/// The round that posts a commit status, if there is one.
pub open spec fn status_rounds(
    host: Seq<char>,
    repo: RepoModel,
    report: Option<ReportModel>,
) -> Seq<RoundModel> {
    match report {
        Some(r) => seq![
            RoundModel {
                payload: PayloadModel::Status(r.status),
                urls: status_urls(host, repo, r),
            },
        ],
        None => Seq::empty(),
    }
}

/// What is to be posted to report a status: first the comment, then the commit
/// status.
pub open spec fn report_rounds(host: Seq<char>, repo: RepoModel, pr: u32, status: Status) -> Seq<
    RoundModel,
> {
    comment_rounds(host, repo, pr, comment_text(status)) + status_rounds(
        host,
        repo,
        status_report(status),
    )
}

/// Whether a repository is served and built by the given pipeline.
pub open spec fn built_by(
    worker: WorkerModel,
    repo: RepoModel,
    pipeline_id: PipelineId,
) -> bool {
    worker.repos.contains_key(repo) && worker.repos[repo].pipeline_id == pipeline_id
}

/// How the delivery of a report begins: with what is to be posted for a
/// repository that the pipeline builds, or, if it builds none, with an error.
pub open spec fn report_begins(
    worker: WorkerModel,
    pipeline_id: PipelineId,
    pr: u32,
    status: Status,
    step: DeliveryModel,
) -> bool {
    if exists|repo: RepoModel| built_by(worker, repo, pipeline_id) {
        exists|repo: RepoModel|
            #![trigger built_by(worker, repo, pipeline_id)]
            built_by(worker, repo, pipeline_id) && step == DeliveryModel::start(
                report_rounds(worker.host, repo, pr, status),
            )
    } else {
        step == DeliveryModel::Done(
            Err::<(), GithubRequestError>(GithubRequestError::Pipeline(pipeline_id)),
        )
    }
}

/// A commit status and the commits that get it.
#[derive(Debug)]
pub struct StatusReport {
    pub pull_commit: Commit,
    pub merge_commit: Option<Commit>,
    pub status: StatusDesc,
}

impl View for StatusReport {
    type V = ReportModel;

    open spec fn view(&self) -> ReportModel {
        ReportModel {
            pull_commit: self.pull_commit@,
            merge_commit: ui::commit_text(self.merge_commit),
            status: self.status@,
        }
    }
}

/// The words of a comment about a build, with a link to the build if there is
/// one.
fn link(emoji: &str, words: &str, url: &Option<String>) -> (r: String)
    ensures
        r@ == linked(emoji@, words@, desc::optional_text(*url)),
{
    let mut text = emoji.to_owned();
    match url {
        Some(u) => {
            text.append(" [");
            text.append(words);
            text.append("](");
            text.append(u.as_str());
            text.append(")");
        },
        None => {
            text.append(" ");
            text.append(words);
        },
    }
    text
}

/// The comment that a status calls for, if it does.
pub fn comment_for(status: &Status) -> (r: Option<String>)
    ensures
        desc::optional_text(r) == comment_text(*status),
        match *status {
            Status::Success(_, _, Some(url)) => r is Some && text::spells(
                r->0@,
                seq![":+1: [Build succeeded]("@, url@, ")"@],
            ),
            Status::Success(_, _, None) => r is Some && r->0@ == ":+1: Build succeeded"@,
            Status::Failure(_, _, Some(url)) => r is Some && text::spells(
                r->0@,
                seq![":-1: [Build failed]("@, url@, ")"@],
            ),
            Status::Failure(_, _, None) => r is Some && r->0@ == ":-1: Build failed"@,
            Status::Unmergeable(_) => r is Some && r->0@ == ":x: Merge conflict!"@,
            Status::Unmoveable(_, _) => r is Some && r->0@
                == ":scream: Internal error while fast-forward master"@,
            Status::Invalidated => r is Some && r->0@ == ":not_good: New commits added"@,
            Status::NoCommit => r is Some && r->0@
                == ":scream: Internal error: no commit found for PR"@,
            Status::StartingBuild(_, _) => r is None,
            Status::Testing(_, _, _) => r is None,
            Status::Completed(_, _) => r is None,
        },
{
    proof {
        comments_go_by_the_status(*status);
    }
    match status {
        Status::StartingBuild(_, _) => None,
        Status::Testing(_, _, _) => None,
        Status::Success(_, _, url) => Some(link(":+1:", "Build succeeded", url)),
        Status::Failure(_, _, url) => Some(link(":-1:", "Build failed", url)),
        Status::Unmergeable(_) => Some(":x: Merge conflict!".to_owned()),
        Status::Unmoveable(_, _) => Some(
            ":scream: Internal error while fast-forward master".to_owned(),
        ),
        Status::Invalidated => Some(":not_good: New commits added".to_owned()),
        Status::NoCommit => Some(":scream: Internal error: no commit found for PR".to_owned()),
        Status::Completed(_, _) => None,
    }
}

/// A commit status that this front end sets.
fn new_status(state: &str, target_url: Option<String>, description: String) -> (r: StatusDesc)
    ensures
        r@ == commit_status(state@, desc::optional_text(target_url), description@),
{
    StatusDesc {
        state: state.to_owned(),
        target_url,
        description,
        context: "continuous-integration/aelita".to_owned(),
    }
}

/// What a commit status says while the build is not over.
fn testing(pull_commit: &Commit, merge_commit: &Commit) -> (r: String)
    ensures
        r@ == testing_text(pull_commit@, merge_commit@),
{
    let mut text = "Testing ".to_owned();
    text.append(pull_commit.0.as_str());
    text.append(" with merge commit ");
    text.append(merge_commit.0.as_str());
    text
}

/// A copy of a text that may be missing.
fn copy_text(text: &Option<String>) -> (r: Option<String>)
    ensures
        desc::optional_text(r) == desc::optional_text(*text),
{
    match text {
        Some(t) => Some(t.clone()),
        None => None,
    }
}

/// The commit status that a status calls for, if it does.
pub fn report_for(status: &Status) -> (r: Option<StatusReport>)
    ensures
        match r {
            Some(report) => Some(report@),
            None => None,
        } == status_report(*status),
        r is None <==> status is Invalidated || status is NoCommit || status is Completed,
        match r {
            Some(report) => {
                &&& report.status.context@ == "continuous-integration/aelita"@
                &&& report.status.state@ == (match *status {
                    Status::StartingBuild(_, _) | Status::Testing(_, _, _) => "pending"@,
                    Status::Success(_, _, _) => "success"@,
                    Status::Unmoveable(_, _) => "error"@,
                    _ => "failure"@,
                })
                &&& match *status {
                    Status::StartingBuild(pull, merge) | Status::Unmoveable(pull, merge) => {
                        &&& report.pull_commit.0@ == pull.0@
                        &&& report.merge_commit is Some
                        &&& (report.merge_commit->0).0@ == merge.0@
                        &&& report.status.target_url is None
                    },
                    Status::Testing(pull, merge, url) | Status::Success(pull, merge, url)
                    | Status::Failure(pull, merge, url) => {
                        &&& report.pull_commit.0@ == pull.0@
                        &&& report.merge_commit is Some
                        &&& (report.merge_commit->0).0@ == merge.0@
                        &&& report.status.target_url is Some <==> url is Some
                        &&& url is Some ==> report.status.target_url->0@ == url->0@
                    },
                    Status::Unmergeable(pull) => {
                        &&& report.pull_commit.0@ == pull.0@
                        &&& report.merge_commit is None
                        &&& report.status.target_url is None
                    },
                    _ => false,
                }
            },
            None => true,
        },
{
    proof {
        commit_statuses_go_by_the_kind(*status);
    }
    match status {
        Status::StartingBuild(pull, merge) => Some(
            StatusReport {
                pull_commit: pull.clone(),
                merge_commit: Some(merge.clone()),
                status: new_status("pending", None, testing(pull, merge)),
            },
        ),
        Status::Testing(pull, merge, url) => Some(
            StatusReport {
                pull_commit: pull.clone(),
                merge_commit: Some(merge.clone()),
                status: new_status("pending", copy_text(url), testing(pull, merge)),
            },
        ),
        Status::Success(pull, merge, url) => Some(
            StatusReport {
                pull_commit: pull.clone(),
                merge_commit: Some(merge.clone()),
                status: new_status("success", copy_text(url), "Tests passed".to_owned()),
            },
        ),
        Status::Failure(pull, merge, url) => Some(
            StatusReport {
                pull_commit: pull.clone(),
                merge_commit: Some(merge.clone()),
                status: new_status("failure", copy_text(url), "Tests failed".to_owned()),
            },
        ),
        Status::Unmergeable(pull) => Some(
            StatusReport {
                pull_commit: pull.clone(),
                merge_commit: None,
                status: new_status("failure", None, "Merge failed".to_owned()),
            },
        ),
        Status::Unmoveable(pull, merge) => Some(
            StatusReport {
                pull_commit: pull.clone(),
                merge_commit: Some(merge.clone()),
                status: new_status("error", None, "Merge failed".to_owned()),
            },
        ),
        Status::Invalidated => None,
        Status::NoCommit => None,
        Status::Completed(_, _) => None,
    }
}

impl Worker {
    /// What is to be posted to report a status on a pull request.
    fn rounds_for(&self, repo: &Repo, pr: Pr, status: &Status) -> (r: VecDeque<Round>)
        ensures
            rounds(r@) == report_rounds(self@.host, repo@, pr.0, *status),
    {
        let mut all: VecDeque<Round> = VecDeque::new();
        match comment_for(status) {
            Some(body) => {
                let mut urls: VecDeque<String> = VecDeque::new();
                urls.push_back(self.comments_url(repo, pr));
                assert(texts(urls@) =~= seq![worker::comments_url(self@.host, repo@, pr.0)]);
                all.push_back(Round { payload: Payload::Comment(PostCommentComment { body }), urls });
            },
            None => {},
        }
        assert(rounds(all@) =~= comment_rounds(self@.host, repo@, pr.0, comment_text(*status)));
        match report_for(status) {
            Some(report) => {
                let mut urls: VecDeque<String> = VecDeque::new();
                urls.push_back(self.statuses_url(repo, &report.pull_commit));
                match &report.merge_commit {
                    Some(merge) => {
                        urls.push_back(self.statuses_url(repo, merge));
                    },
                    None => {},
                }
                assert(texts(urls@) =~= status_urls(self@.host, repo@, report@));
                all.push_back(Round { payload: Payload::Status(report.status), urls });
            },
            None => {},
        }
        assert(rounds(all@) =~= report_rounds(self@.host, repo@, pr.0, *status));
        all
    }

    /// Begins to report to a pull request how far its pipeline has come. The
    /// repository is one that the pipeline builds; there must be one.
    pub fn send_result_to_pr(&self, pipeline_id: PipelineId, pr: Pr, status: &Status) -> (r:
        DeliveryStep)
        ensures
            report_begins(self@, pipeline_id, pr.0, *status, r@),
    {
        match self.pipeline_repo(pipeline_id) {
            Some(repo) => {
                assert(built_by(self@, repo@, pipeline_id));
                start(self.rounds_for(repo, pr, status))
            },
            None => DeliveryStep::Done(Err(GithubRequestError::Pipeline(pipeline_id))),
        }
    }

    /// Begins to do what a pipeline asks for.
    pub fn handle_message(&self, msg: &Message) -> (r: DeliveryStep)
        ensures
            match *msg {
                Message::SendResult(pipeline_id, pr, status) => report_begins(
                    self@,
                    pipeline_id,
                    pr.0,
                    status,
                    r@,
                ),
            },
    {
        match msg {
            Message::SendResult(pipeline_id, pr, status) => self.send_result_to_pr(
                *pipeline_id,
                *pr,
                status,
            ),
        }
    }
}

/// One request of a delivery: where it goes, and its body.
pub struct PostModel {
    pub url: Seq<char>,
    pub body: Seq<u8>,
}

/// The requests that post one body to these places.
pub open spec fn posts_to(urls: Seq<Seq<char>>, body: Seq<u8>) -> Seq<PostModel> {
    Seq::new(urls.len(), |i: int| PostModel { url: urls[i], body })
}

/// The requests that these rounds call for, if payloads are written in this
/// way: those of the rounds before the first payload that cannot be written.
pub open spec fn posts_of(
    rounds: Seq<RoundModel>,
    encode: spec_fn(PayloadModel) -> Result<Seq<u8>, serde_json::error::Error>,
) -> Seq<PostModel>
    decreases rounds.len(),
{
    if rounds.len() == 0 {
        Seq::empty()
    } else {
        match encode(rounds[0].payload) {
            Ok(body) => posts_to(rounds[0].urls, body) + posts_of(rounds.skip(1), encode),
            Err(_) => Seq::empty(),
        }
    }
}

/// How these rounds end, if payloads are written in this way and every request
/// is accepted: with why the first payload that cannot be written cannot be, or
/// well if there is none.
pub open spec fn rounds_end(
    rounds: Seq<RoundModel>,
    encode: spec_fn(PayloadModel) -> Result<Seq<u8>, serde_json::error::Error>,
) -> Result<(), GithubRequestError>
    decreases rounds.len(),
{
    if rounds.len() == 0 {
        Ok(())
    } else {
        match encode(rounds[0].payload) {
            Ok(_) => rounds_end(rounds.skip(1), encode),
            Err(e) => Err(GithubRequestError::Json(e)),
        }
    }
}

/// How many steps these rounds take at most.
pub open spec fn steps_of(rounds: Seq<RoundModel>) -> nat
    decreases rounds.len(),
{
    if rounds.len() == 0 {
        0
    } else {
        1 + rounds[0].urls.len() + steps_of(rounds.skip(1))
    }
}

impl DeliveryModel {
    /// The requests that are still to be made, if payloads are written in this
    /// way and every request is accepted.
    pub open spec fn pending(
        self,
        encode: spec_fn(PayloadModel) -> Result<Seq<u8>, serde_json::error::Error>,
    ) -> Seq<PostModel> {
        match self {
            DeliveryModel::Encode { payload, urls, later } => match encode(payload) {
                Ok(body) => posts_to(urls, body) + posts_of(later, encode),
                Err(_) => Seq::empty(),
            },
            DeliveryModel::Post { url, body, urls, later } => seq![PostModel { url, body }]
                + posts_to(urls, body) + posts_of(later, encode),
            DeliveryModel::Done(_) => Seq::empty(),
        }
    }

    /// How the delivery ends, if payloads are written in this way and every
    /// request is accepted.
    pub open spec fn end(
        self,
        encode: spec_fn(PayloadModel) -> Result<Seq<u8>, serde_json::error::Error>,
    ) -> Result<(), GithubRequestError> {
        match self {
            DeliveryModel::Encode { payload, later, .. } => match encode(payload) {
                Ok(_) => rounds_end(later, encode),
                Err(e) => Err(GithubRequestError::Json(e)),
            },
            DeliveryModel::Post { later, .. } => rounds_end(later, encode),
            DeliveryModel::Done(result) => result,
        }
    }

    /// How many steps are left at most.
    pub open spec fn steps(self) -> nat {
        match self {
            DeliveryModel::Encode { urls, later, .. } => 1 + urls.len() + steps_of(later),
            DeliveryModel::Post { urls, later, .. } => 1 + urls.len() + steps_of(later),
            DeliveryModel::Done(_) => 0,
        }
    }

    /// Where the delivery stands after these replies, if payloads are written
    /// in this way.
    pub open spec fn run(
        self,
        encode: spec_fn(PayloadModel) -> Result<Seq<u8>, serde_json::error::Error>,
        replies: Seq<Result<u16, hyper::error::Error>>,
    ) -> DeliveryModel
        decreases self.steps(),
    {
        match self {
            DeliveryModel::Encode { payload, .. } => self.after_encoding(encode(payload)).run(
                encode,
                replies,
            ),
            DeliveryModel::Post { .. } => if replies.len() == 0 {
                self
            } else {
                self.after_reply(replies[0]).run(encode, replies.skip(1))
            },
            DeliveryModel::Done(_) => self,
        }
    }

    /// Whether the delivery waits for the reply to the first of the requests
    /// that are still to be made, or has ended in this way if there are none.
    pub open spec fn waits_for(
        self,
        pending: Seq<PostModel>,
        end: Result<(), GithubRequestError>,
    ) -> bool {
        if pending.len() == 0 {
            self == DeliveryModel::Done(end)
        } else {
            self matches DeliveryModel::Post { url, body, .. } && pending[0] == (PostModel {
                url,
                body,
            })
        }
    }
}

/// What is left to do after a body was posted somewhere.
proof fn post_leaves(
    encode: spec_fn(PayloadModel) -> Result<Seq<u8>, serde_json::error::Error>,
    body: Seq<u8>,
    urls: Seq<Seq<char>>,
    later: Seq<RoundModel>,
)
    ensures
        DeliveryModel::post(body, urls, later).pending(encode) == posts_to(urls, body) + posts_of(
            later,
            encode,
        ),
        DeliveryModel::post(body, urls, later).end(encode) == rounds_end(later, encode),
{
    if urls.len() == 0 {
        assert(posts_to(urls, body) + posts_of(later, encode) =~= posts_of(later, encode));
        if later.len() > 0 {
            assert(DeliveryModel::start(later).pending(encode) =~= posts_of(later, encode));
        }
    } else {
        assert(seq![PostModel { url: urls[0], body }] + posts_to(urls.skip(1), body) =~= posts_to(
            urls,
            body,
        ));
    }
}

/// As long as requests are accepted, they are made one after the other, in
/// the order that the rounds give: after `n` of them, the delivery waits for
/// the reply to the next, or has ended if there is none.
pub proof fn posts_are_made_in_turn(
    delivery: DeliveryModel,
    encode: spec_fn(PayloadModel) -> Result<Seq<u8>, serde_json::error::Error>,
    replies: Seq<Result<u16, hyper::error::Error>>,
)
    requires
        replies.len() <= delivery.pending(encode).len(),
        forall|i: int| 0 <= i < replies.len() ==> http::acceptance(#[trigger] replies[i]) is Ok,
    ensures
        delivery.run(encode, replies).waits_for(
            delivery.pending(encode).skip(replies.len() as int),
            delivery.end(encode),
        ),
    decreases delivery.steps(),
{
    match delivery {
        DeliveryModel::Encode { payload, urls, later } => {
            match encode(payload) {
                Ok(body) => {
                    post_leaves(encode, body, urls, later);
                    let next = DeliveryModel::post(body, urls, later);
                    assert(next.pending(encode) == delivery.pending(encode));
                    posts_are_made_in_turn(next, encode, replies);
                },
                Err(_) => {
                    let ended = delivery.after_encoding(encode(payload));
                    assert(ended.run(encode, replies) == ended);
                },
            }
        },
        DeliveryModel::Post { url, body, urls, later } => {
            let pending = delivery.pending(encode);
            if replies.len() > 0 {
                post_leaves(encode, body, urls, later);
                let next = DeliveryModel::post(body, urls, later);
                assert(http::acceptance(replies[0]) is Ok);
                assert(delivery.after_reply(replies[0]) == next);
                assert(next.pending(encode) =~= pending.skip(1));
                assert forall|i: int| 0 <= i < replies.skip(1).len() implies http::acceptance(
                    #[trigger] replies.skip(1)[i],
                ) is Ok by {
                    assert(replies.skip(1)[i] == replies[i + 1]);
                }
                posts_are_made_in_turn(next, encode, replies.skip(1));
                assert(pending.skip(1).skip(replies.len() - 1) =~= pending.skip(
                    replies.len() as int,
                ));
            } else {
                assert(pending.skip(0) =~= pending);
                assert(pending[0] == (PostModel { url, body }));
            }
        },
        DeliveryModel::Done(_) => {},
    }
}

/// Whether every payload of these rounds can be written.
pub open spec fn all_writable(
    rounds: Seq<RoundModel>,
    encode: spec_fn(PayloadModel) -> Result<Seq<u8>, serde_json::error::Error>,
) -> bool {
    forall|i: int| 0 <= i < rounds.len() ==> encode((#[trigger] rounds[i]).payload) is Ok
}

/// Rounds whose payloads can all be written end well.
proof fn writable_rounds_end_well(
    rounds: Seq<RoundModel>,
    encode: spec_fn(PayloadModel) -> Result<Seq<u8>, serde_json::error::Error>,
)
    requires
        all_writable(rounds, encode),
    ensures
        rounds_end(rounds, encode) == Ok::<(), GithubRequestError>(()),
    decreases rounds.len(),
{
    if rounds.len() > 0 {
        let rest = rounds.skip(1);
        assert(encode(rounds[0].payload) is Ok);
        assert forall|i: int| 0 <= i < rest.len() implies encode(
            (#[trigger] rest[i]).payload,
        ) is Ok by {
            assert(rest[i] == rounds[i + 1]);
        }
        writable_rounds_end_well(rest, encode);
    }
}

/// If every payload that is left can be written and every request is accepted,
/// the delivery ends well.
pub proof fn accepted_posts_deliver(
    delivery: DeliveryModel,
    encode: spec_fn(PayloadModel) -> Result<Seq<u8>, serde_json::error::Error>,
    replies: Seq<Result<u16, hyper::error::Error>>,
)
    requires
        match delivery {
            DeliveryModel::Encode { payload, later, .. } => encode(payload) is Ok && all_writable(
                later,
                encode,
            ),
            DeliveryModel::Post { later, .. } => all_writable(later, encode),
            DeliveryModel::Done(result) => result is Ok,
        },
        replies.len() == delivery.pending(encode).len(),
        forall|i: int| 0 <= i < replies.len() ==> http::acceptance(#[trigger] replies[i]) is Ok,
    ensures
        delivery.run(encode, replies) == DeliveryModel::Done(Ok::<(), GithubRequestError>(())),
{
    posts_are_made_in_turn(delivery, encode, replies);
    match delivery {
        DeliveryModel::Encode { later, .. } => {
            writable_rounds_end_well(later, encode);
        },
        DeliveryModel::Post { later, .. } => {
            writable_rounds_end_well(later, encode);
        },
        DeliveryModel::Done(result) => {
            assert(result->Ok_0 == ());
        },
    }
}

/// Replies that come one after the other can be handed over in two parts.
proof fn run_in_two_parts(
    delivery: DeliveryModel,
    encode: spec_fn(PayloadModel) -> Result<Seq<u8>, serde_json::error::Error>,
    replies: Seq<Result<u16, hyper::error::Error>>,
    n: int,
)
    requires
        0 <= n <= replies.len(),
    ensures
        delivery.run(encode, replies) == delivery.run(encode, replies.take(n)).run(
            encode,
            replies.skip(n),
        ),
    decreases delivery.steps(),
{
    match delivery {
        DeliveryModel::Encode { payload, urls, later } => {
            match encode(payload) {
                Ok(body) => {
                    post_shortens(body, urls, later);
                    run_in_two_parts(DeliveryModel::post(body, urls, later), encode, replies, n);
                },
                Err(_) => {
                    let ended = delivery.after_encoding(encode(payload));
                    assert(ended.run(encode, replies) == ended);
                    assert(ended.run(encode, replies.take(n)) == ended);
                    assert(ended.run(encode, replies.skip(n)) == ended);
                },
            }
        },
        DeliveryModel::Post { url, body, urls, later } => {
            if n == 0 {
                assert(replies.skip(0) =~= replies);
                assert(replies.take(0).len() == 0);
            } else {
                post_shortens(body, urls, later);
                run_in_two_parts(
                    delivery.after_reply(replies[0]),
                    encode,
                    replies.skip(1),
                    n - 1,
                );
                assert(replies.take(n)[0] == replies[0]);
                assert(replies.take(n).skip(1) =~= replies.skip(1).take(n - 1));
                assert(replies.skip(1).skip(n - 1) =~= replies.skip(n));
            }
        },
        DeliveryModel::Done(_) => {},
    }
}

/// Every step leaves fewer steps to do.
proof fn post_shortens(body: Seq<u8>, urls: Seq<Seq<char>>, later: Seq<RoundModel>)
    ensures
        DeliveryModel::post(body, urls, later).steps() <= urls.len() + steps_of(later),
{
}

/// The first request that is not accepted ends the delivery with the reason:
/// nothing is posted after it.
pub proof fn refused_post_ends_the_delivery(
    delivery: DeliveryModel,
    encode: spec_fn(PayloadModel) -> Result<Seq<u8>, serde_json::error::Error>,
    replies: Seq<Result<u16, hyper::error::Error>>,
    n: int,
)
    requires
        0 <= n < replies.len(),
        n < delivery.pending(encode).len(),
        forall|i: int| 0 <= i < n ==> http::acceptance(#[trigger] replies[i]) is Ok,
        http::acceptance(replies[n]) is Err,
    ensures
        delivery.run(encode, replies) == DeliveryModel::Done(
            Err::<(), GithubRequestError>(http::acceptance(replies[n])->Err_0),
        ),
{
    let before = replies.take(n);
    assert forall|i: int| 0 <= i < before.len() implies http::acceptance(
        #[trigger] before[i],
    ) is Ok by {
        assert(before[i] == replies[i]);
    }
    posts_are_made_in_turn(delivery, encode, before);
    run_in_two_parts(delivery, encode, replies, n);
    let waiting = delivery.run(encode, before);
    let ended = DeliveryModel::Done(
        Err::<(), GithubRequestError>(http::acceptance(replies[n])->Err_0),
    );
    assert(replies.skip(n)[0] == replies[n]);
    assert(waiting.after_reply(replies[n]) == ended);
    assert(ended.run(encode, replies.skip(n).skip(1)) == ended);
}

/// Up to the first payload that cannot be written, the rounds before it are
/// all that is posted, and its error is how the rounds end.
proof fn rounds_before_the_unwritable(
    rounds: Seq<RoundModel>,
    encode: spec_fn(PayloadModel) -> Result<Seq<u8>, serde_json::error::Error>,
    k: int,
)
    requires
        0 <= k < rounds.len(),
        forall|i: int| 0 <= i < k ==> encode((#[trigger] rounds[i]).payload) is Ok,
        encode(rounds[k].payload) is Err,
    ensures
        posts_of(rounds, encode) == posts_of(rounds.take(k), encode),
        rounds_end(rounds, encode) == Err::<(), GithubRequestError>(
            GithubRequestError::Json(encode(rounds[k].payload)->Err_0),
        ),
    decreases k,
{
    if k == 0 {
        assert(rounds.take(0).len() == 0);
    } else {
        let rest = rounds.skip(1);
        assert(encode(rounds[0].payload) is Ok);
        assert forall|i: int| 0 <= i < k - 1 implies encode(
            (#[trigger] rest[i]).payload,
        ) is Ok by {
            assert(rest[i] == rounds[i + 1]);
        }
        assert(rest[k - 1] == rounds[k]);
        rounds_before_the_unwritable(rest, encode, k - 1);
        assert(rounds.take(k).skip(1) =~= rest.take(k - 1));
        assert(rounds.take(k)[0] == rounds[0]);
    }
}

/// The first payload that cannot be written ends the delivery with the reason.
/// The requests of the rounds before it are all made, one after the other, as
/// long as they are accepted; once they all are, the delivery has ended with
/// that error, whatever else is replied, and nothing is posted any more.
pub proof fn unwritable_payload_ends_the_delivery(
    worker: WorkerModel,
    rounds: Seq<RoundModel>,
    encode: spec_fn(PayloadModel) -> Result<Seq<u8>, serde_json::error::Error>,
    replies: Seq<Result<u16, hyper::error::Error>>,
    k: int,
    n: int,
)
    requires
        0 <= k < rounds.len(),
        all_writable(rounds.take(k), encode),
        encode(rounds[k].payload) is Err,
        0 <= n <= replies.len(),
        n <= posts_of(rounds.take(k), encode).len(),
        forall|i: int| 0 <= i < n ==> http::acceptance(#[trigger] replies[i]) is Ok,
    ensures
        n < posts_of(rounds.take(k), encode).len() ==> (DeliveryModel::start(rounds).run(
            encode,
            replies.take(n),
        ) matches DeliveryModel::Post { url, body, .. } && posts_of(rounds.take(k), encode)[n]
            == (PostModel { url, body })),
        n == posts_of(rounds.take(k), encode).len() ==> {
            &&& DeliveryModel::start(rounds).run(encode, replies) == DeliveryModel::Done(
                Err::<(), GithubRequestError>(
                    GithubRequestError::Json(encode(rounds[k].payload)->Err_0),
                ),
            )
            &&& DeliveryModel::start(rounds).run(encode, replies.take(n)) == DeliveryModel::start(
                rounds,
            ).run(encode, replies)
            &&& DeliveryModel::start(rounds).run(encode, replies).request(worker) is None
        },
{
    let start = DeliveryModel::start(rounds);
    let before = replies.take(n);
    assert forall|i: int| 0 <= i < k implies encode((#[trigger] rounds[i]).payload) is Ok by {
        assert(rounds.take(k)[i] == rounds[i]);
    }
    rounds_before_the_unwritable(rounds, encode, k);
    assert(start.pending(encode) == posts_of(rounds, encode));
    assert(start.end(encode) == rounds_end(rounds, encode));
    assert forall|i: int| 0 <= i < before.len() implies http::acceptance(
        #[trigger] before[i],
    ) is Ok by {
        assert(before[i] == replies[i]);
    }
    posts_are_made_in_turn(start, encode, before);
    run_in_two_parts(start, encode, replies, n);
}

/// The requests for the commit status of a report, if there is one and it can
/// be written: at the head of the pull request and after that at the merge
/// commit, both with the same body.
pub open spec fn status_posts(
    host: Seq<char>,
    repo: RepoModel,
    report: Option<ReportModel>,
    encode: spec_fn(PayloadModel) -> Result<Seq<u8>, serde_json::error::Error>,
) -> Seq<PostModel> {
    match report {
        Some(r) => match encode(PayloadModel::Status(r.status)) {
            Ok(body) => posts_to(status_urls(host, repo, r), body),
            Err(_) => Seq::empty(),
        },
        None => Seq::empty(),
    }
}

/// How the commit status of a report ends, if every request is accepted.
pub open spec fn status_end(
    report: Option<ReportModel>,
    encode: spec_fn(PayloadModel) -> Result<Seq<u8>, serde_json::error::Error>,
) -> Result<(), GithubRequestError> {
    match report {
        Some(r) => match encode(PayloadModel::Status(r.status)) {
            Ok(_) => Ok(()),
            Err(e) => Err(GithubRequestError::Json(e)),
        },
        None => Ok(()),
    }
}

/// The requests of a report: the comment first, if the status calls for one,
/// then those for the commit status. If the comment cannot be written, nothing
/// is posted at all; if the commit status cannot be, the comment still is. The
/// report then ends with why it could not be written.
pub proof fn report_requests(
    host: Seq<char>,
    repo: RepoModel,
    pr: u32,
    status: Status,
    encode: spec_fn(PayloadModel) -> Result<Seq<u8>, serde_json::error::Error>,
)
    ensures
        DeliveryModel::start(report_rounds(host, repo, pr, status)).pending(encode) == (match (
            comment_text(status)
        ) {
            Some(text) => match encode(PayloadModel::Comment(text)) {
                Ok(body) => seq![
                    PostModel { url: worker::comments_url(host, repo, pr), body },
                ] + status_posts(host, repo, status_report(status), encode),
                Err(_) => Seq::<PostModel>::empty(),
            },
            None => status_posts(host, repo, status_report(status), encode),
        }),
        DeliveryModel::start(report_rounds(host, repo, pr, status)).end(encode) == (match (
            comment_text(status)
        ) {
            Some(text) => match encode(PayloadModel::Comment(text)) {
                Ok(_) => status_end(status_report(status), encode),
                Err(e) => Err::<(), GithubRequestError>(GithubRequestError::Json(e)),
            },
            None => status_end(status_report(status), encode),
        }),
{
    let all = report_rounds(host, repo, pr, status);
    let comments = comment_rounds(host, repo, pr, comment_text(status));
    let statuses = status_rounds(host, repo, status_report(status));
    if statuses.len() > 0 {
        assert(statuses.skip(1) =~= Seq::<RoundModel>::empty());
    }
    assert(posts_of(statuses, encode) =~= status_posts(
        host,
        repo,
        status_report(status),
        encode,
    )) by {
        assert(posts_of(Seq::<RoundModel>::empty(), encode) =~= Seq::<PostModel>::empty());
    }
    assert(rounds_end(statuses, encode) == status_end(status_report(status), encode)) by {
        assert(rounds_end(Seq::<RoundModel>::empty(), encode) == Ok::<(), GithubRequestError>(()));
    }
    if comments.len() > 0 {
        assert(all.skip(1) =~= statuses);
        match encode(comments[0].payload) {
            Ok(body) => {
                assert(posts_to(comments[0].urls, body) =~= seq![
                    PostModel { url: worker::comments_url(host, repo, pr), body },
                ]);
            },
            Err(_) => {},
        }
    } else {
        assert(all =~= statuses);
        assert(DeliveryModel::start(all).pending(encode) =~= posts_of(all, encode));
    }
}

/// Where one repository alone is built by a pipeline, the report goes to that
/// repository.
pub proof fn only_repository_gets_the_report(
    worker: WorkerModel,
    repo: RepoModel,
    pipeline_id: PipelineId,
    pr: u32,
    status: Status,
    step: DeliveryModel,
)
    requires
        report_begins(worker, pipeline_id, pr, status, step),
        built_by(worker, repo, pipeline_id),
        forall|other: RepoModel| #[trigger]
            built_by(worker, other, pipeline_id) ==> other == repo,
    ensures
        step == DeliveryModel::start(report_rounds(worker.host, repo, pr, status)),
{
}

/// While there is a request at hand, every request before it was accepted.
proof fn waiting_means_accepted(
    delivery: DeliveryModel,
    encode: spec_fn(PayloadModel) -> Result<Seq<u8>, serde_json::error::Error>,
    replies: Seq<Result<u16, hyper::error::Error>>,
)
    requires
        delivery.run(encode, replies) is Post,
    ensures
        forall|i: int| 0 <= i < replies.len() ==> http::acceptance(#[trigger] replies[i]) is Ok,
        replies.len() < delivery.pending(encode).len(),
    decreases delivery.steps(),
{
    match delivery {
        DeliveryModel::Encode { payload, urls, later } => {
            match encode(payload) {
                Ok(body) => {
                    post_leaves(encode, body, urls, later);
                    waiting_means_accepted(
                        DeliveryModel::post(body, urls, later),
                        encode,
                        replies,
                    );
                },
                Err(_) => {
                    let ended = delivery.after_encoding(encode(payload));
                    assert(ended.run(encode, replies) == ended);
                },
            }
        },
        DeliveryModel::Post { url, body, urls, later } => {
            if replies.len() > 0 {
                let rest = replies.skip(1);
                post_leaves(encode, body, urls, later);
                waiting_means_accepted(delivery.after_reply(replies[0]), encode, rest);
                assert forall|i: int| 0 <= i < replies.len() implies http::acceptance(
                    #[trigger] replies[i],
                ) is Ok by {
                    if i > 0 {
                        assert(replies[i] == rest[i - 1]);
                    }
                }
            }
        },
        DeliveryModel::Done(_) => {},
    }
}

/// Every request of a report is a proper request: the addresses that a report
/// is posted to are all at the host.
pub proof fn report_requests_are_proper(
    worker: WorkerModel,
    repo: RepoModel,
    pr: u32,
    status: Status,
    encode: spec_fn(PayloadModel) -> Result<Seq<u8>, serde_json::error::Error>,
    replies: Seq<Result<u16, hyper::error::Error>>,
    request: RequestModel,
)
    requires
        DeliveryModel::start(report_rounds(worker.host, repo, pr, status)).run(
            encode,
            replies,
        ).request(worker) == Some(request),
    ensures
        worker::proper_request(worker, request),
        request.method == Method::Post,
{
    let start = DeliveryModel::start(report_rounds(worker.host, repo, pr, status));
    let all = start.pending(encode);
    waiting_means_accepted(start, encode, replies);
    posts_are_made_in_turn(start, encode, replies);
    report_requests(worker.host, repo, pr, status, encode);
    let (pull, merge) = match status_report(status) {
        Some(report) => (
            report.pull_commit,
            match report.merge_commit {
                Some(m) => m,
                None => Seq::empty(),
            },
        ),
        None => (Seq::empty(), Seq::empty()),
    };
    worker::addresses_are_at_the_host(worker.host, repo, 0, Seq::empty(), pr, pull);
    worker::addresses_are_at_the_host(worker.host, repo, 0, Seq::empty(), pr, merge);
    let n = replies.len() as int;
    assert(all.skip(n)[0] == all[n]);
    assert(worker::at_host(worker.host, all[n].url));
    assert(request.headers == http::authed_headers(AcceptType::Regular, worker.authorization));
}

/// Once a repository was added, its pipeline can report: there is a repository
/// that it builds.
pub proof fn added_pipeline_can_report(
    worker: WorkerModel,
    repo: RepoModel,
    config: ConfigModel,
    pr: u32,
    status: Status,
    step: DeliveryModel,
)
    requires
        report_begins(worker.with_repo(repo, config), config.pipeline_id, pr, status, step),
    ensures
        !(step matches DeliveryModel::Done(Err(_))),
{
    assert(built_by(worker.with_repo(repo, config), repo, config.pipeline_id));
}

/// Which comment a status calls for. None while a build is about to start or is
/// running, and none once all is done; else one that says what happened, with
/// the given link, if there is one, and no other.
pub proof fn comments_go_by_the_status(status: Status)
    ensures
        comment_text(status) is None <==> status is StartingBuild || status is Testing
            || status is Completed,
        match status {
            Status::Success(_, _, Some(url)) => text::spells(
                comment_text(status)->0,
                seq![":+1: [Build succeeded]("@, url@, ")"@],
            ),
            Status::Success(_, _, None) => comment_text(status)->0 == ":+1: Build succeeded"@,
            Status::Failure(_, _, Some(url)) => text::spells(
                comment_text(status)->0,
                seq![":-1: [Build failed]("@, url@, ")"@],
            ),
            Status::Failure(_, _, None) => comment_text(status)->0 == ":-1: Build failed"@,
            Status::Unmergeable(_) => comment_text(status)->0 == ":x: Merge conflict!"@,
            Status::Unmoveable(_, _) => comment_text(status)->0
                == ":scream: Internal error while fast-forward master"@,
            Status::Invalidated => comment_text(status)->0 == ":not_good: New commits added"@,
            Status::NoCommit => comment_text(status)->0
                == ":scream: Internal error: no commit found for PR"@,
            _ => true,
        },
{
    reveal_strlit(":+1:");
    reveal_strlit(":-1:");
    reveal_strlit(" ");
    reveal_strlit(" [");
    reveal_strlit("](");
    reveal_strlit("Build succeeded");
    reveal_strlit("Build failed");
    reveal_strlit(":+1: Build succeeded");
    reveal_strlit(":-1: Build failed");
    reveal_strlit(":+1: [Build succeeded](");
    reveal_strlit(":-1: [Build failed](");
    assert(":+1:"@ + " "@ + "Build succeeded"@ =~= ":+1: Build succeeded"@);
    assert(":-1:"@ + " "@ + "Build failed"@ =~= ":-1: Build failed"@);
    assert(":+1:"@ + " ["@ + "Build succeeded"@ + "]("@ =~= ":+1: [Build succeeded]("@);
    assert(":-1:"@ + " ["@ + "Build failed"@ + "]("@ =~= ":-1: [Build failed]("@);
    match status {
        Status::Success(_, _, Some(url)) => {
            text::spell_3(":+1: [Build succeeded]("@, url@, ")"@);
        },
        Status::Failure(_, _, Some(url)) => {
            text::spell_3(":-1: [Build failed]("@, url@, ")"@);
        },
        _ => {},
    }
}

/// Which commit status a status calls for. Its state depends only on the kind of
/// status, whatever the commits and the link are: it is a success exactly for
/// `Success`, a failure exactly for `Failure` and `Unmergeable`, an error
/// exactly for `Unmoveable`, and pending exactly for `StartingBuild` and
/// `Testing`. Its link is the given one, if there is one.
pub proof fn commit_statuses_go_by_the_kind(status: Status)
    ensures
        status_report(status) is None <==> status is Invalidated || status is NoCommit
            || status is Completed,
        status_report(status) is Some ==> {
            let desc = status_report(status)->0.status;
            &&& desc.state == "success"@ <==> status is Success
            &&& desc.state == "failure"@ <==> status is Failure || status is Unmergeable
            &&& desc.state == "error"@ <==> status is Unmoveable
            &&& desc.state == "pending"@ <==> status is StartingBuild || status is Testing
            &&& desc.context == "continuous-integration/aelita"@
            &&& status is Success ==> desc.description == "Tests passed"@
            &&& status is Failure ==> desc.description == "Tests failed"@
            &&& status is Unmergeable || status is Unmoveable ==> desc.description
                == "Merge failed"@
        },
        match status {
            Status::Testing(_, _, url) | Status::Success(_, _, url) | Status::Failure(_, _, url) => {
                let link = status_report(status)->0.status.target_url;
                &&& link is Some <==> url is Some
                &&& url is Some ==> link->0 == url->0@
            },
            Status::StartingBuild(_, _) | Status::Unmergeable(_) | Status::Unmoveable(
                _,
                _,
            ) => status_report(status)->0.status.target_url is None,
            _ => true,
        },
        match status {
            Status::StartingBuild(pull, merge) | Status::Testing(pull, merge, _) => text::spells(
                status_report(status)->0.status.description,
                seq!["Testing "@, pull.0@, " with merge commit "@, merge.0@],
            ),
            _ => true,
        },
{
    reveal_strlit("success");
    reveal_strlit("failure");
    reveal_strlit("error");
    reveal_strlit("pending");
    assert("success"@[0] == 's');
    assert("failure"@[0] == 'f');
    assert("error"@[0] == 'e');
    assert("pending"@[0] == 'p');
    match status {
        Status::StartingBuild(pull, merge) => {
            text::spell_4("Testing "@, pull.0@, " with merge commit "@, merge.0@);
        },
        Status::Testing(pull, merge, _) => {
            text::spell_4("Testing "@, pull.0@, " with merge commit "@, merge.0@);
        },
        _ => {},
    }
}

/// Which commits get a commit status: the head of the pull request always, and
/// the merge commit wherever there is one, which is everywhere but for a pull
/// request that does not merge.
pub proof fn commit_statuses_are_for_both_commits(status: Status)
    ensures
        match status {
            Status::StartingBuild(pull, merge) | Status::Testing(pull, merge, _)
            | Status::Success(pull, merge, _) | Status::Failure(pull, merge, _)
            | Status::Unmoveable(pull, merge) => {
                &&& status_report(status)->0.pull_commit == pull.0@
                &&& status_report(status)->0.merge_commit == Some(merge.0@)
            },
            Status::Unmergeable(pull) => {
                &&& status_report(status)->0.pull_commit == pull.0@
                &&& status_report(status)->0.merge_commit is None
            },
            _ => true,
        },
{
}

/// What is posted for a status, and where. The comment, if there is one, comes
/// first and goes to the pull request, and nowhere else. The commit status, if
/// there is one, comes after it and goes to the head of the pull request, then
/// to the merge commit, if there is one, and nowhere else.
pub proof fn reports_go_where_they_belong(
    host: Seq<char>,
    repo: RepoModel,
    pr: u32,
    status: Status,
)
    ensures
        ({
            let all = report_rounds(host, repo, pr, status);
            let text = comment_text(status);
            let report = status_report(status);
            let first: int = if text is Some {
                1
            } else {
                0
            };
            &&& all.len() == first + (if report is Some {
                1int
            } else {
                0
            })
            &&& text is Some ==> {
                &&& all[0].payload == PayloadModel::Comment(text->0)
                &&& all[0].urls.len() == 1
                &&& text::spells(
                    all[0].urls[0],
                    seq![
                        host,
                        "/repos/"@,
                        repo.owner,
                        "/"@,
                        repo.repo,
                        "/issues/"@,
                        text::decimal(pr as nat),
                        "/comments"@,
                    ],
                )
            }
            &&& report is Some ==> {
                &&& all[first].payload == PayloadModel::Status(report->0.status)
                &&& all[first].urls.len() == (if report->0.merge_commit is Some {
                    2int
                } else {
                    1
                })
                &&& text::spells(
                    all[first].urls[0],
                    seq![
                        host,
                        "/repos/"@,
                        repo.owner,
                        "/"@,
                        repo.repo,
                        "/statuses/"@,
                        report->0.pull_commit,
                    ],
                )
                &&& report->0.merge_commit is Some ==> text::spells(
                    all[first].urls[1],
                    seq![
                        host,
                        "/repos/"@,
                        repo.owner,
                        "/"@,
                        repo.repo,
                        "/statuses/"@,
                        report->0.merge_commit->0,
                    ],
                )
            }
        }),
{
    let report = status_report(status);
    if report is Some {
        let pull = report->0.pull_commit;
        worker::addresses_spelled_out(host, repo, 0, Seq::empty(), pr, pull);
        if report->0.merge_commit is Some {
            let merge = report->0.merge_commit->0;
            worker::addresses_spelled_out(host, repo, 0, Seq::empty(), pr, merge);
        }
    }
    worker::addresses_spelled_out(host, repo, 0, Seq::empty(), pr, Seq::empty());
}

/// A delivery only posts: the request at hand has the method `Post`, the body
/// and the address that are its turn, and the front end's credentials. While a
/// payload is written, and at the end, there is no request.
pub proof fn deliveries_post(worker: WorkerModel, delivery: DeliveryModel)
    ensures
        delivery.request(worker) is Some <==> delivery is Post,
        match delivery {
            DeliveryModel::Post { url, body, .. } => {
                let request = delivery.request(worker)->0;
                &&& request.method == Method::Post
                &&& request.url == url
                &&& request.body == Some(body)
                &&& request.headers.len() == 3
                &&& vstd::utf8::decode_utf8(request.headers[0].value)
                    == "application/vnd.github.v3+json"@
                &&& request.headers[1].value == worker.authorization
            },
            _ => true,
        },
{
    match delivery {
        DeliveryModel::Post { url, .. } => {
            worker::requests_carry_the_credentials(worker, Method::Post, AcceptType::Regular, url);
        },
        _ => {},
    }
}

/// What moves a delivery. A payload that was written is posted to all its
/// places in turn before the next payload is written; the same body goes to
/// each place. A post counts only with a status from 200 to 299. Anything else
/// ends the delivery with what came, and so does a payload that cannot be
/// written.
pub proof fn what_moves_a_delivery(
    payload: PayloadModel,
    url: Seq<char>,
    body: Seq<u8>,
    urls: Seq<Seq<char>>,
    later: Seq<RoundModel>,
    code: u16,
    error: hyper::error::Error,
    unwritable: serde_json::error::Error,
)
    ensures
        ({
            let writing = DeliveryModel::Encode { payload, urls, later };
            let posting = DeliveryModel::Post { url, body, urls, later };
            let next = if urls.len() > 0 {
                DeliveryModel::Post { url: urls[0], body, urls: urls.skip(1), later }
            } else if later.len() > 0 {
                DeliveryModel::Encode {
                    payload: later[0].payload,
                    urls: later[0].urls,
                    later: later.skip(1),
                }
            } else {
                DeliveryModel::Done(Ok::<(), GithubRequestError>(()))
            };
            &&& writing.after_encoding(Ok(body)) == next
            &&& writing.after_encoding(Err(unwritable)) == DeliveryModel::Done(
                Err::<(), GithubRequestError>(GithubRequestError::Json(unwritable)),
            )
            &&& 200 <= code <= 299 ==> posting.after_reply(Ok(code)) == next
            &&& !(200 <= code <= 299) ==> posting.after_reply(Ok(code)) == DeliveryModel::Done(
                Err::<(), GithubRequestError>(GithubRequestError::HttpStatus(code)),
            )
            &&& posting.after_reply(Err(error)) == DeliveryModel::Done(
                Err::<(), GithubRequestError>(GithubRequestError::Http(error)),
            )
        }),
{
}

/// A report begins for a repository that is served and built by the pipeline,
/// with everything that the status calls for on that pull request. If there is
/// no such repository, it ends at once, with the pipeline as the error.
pub proof fn reports_begin_for_a_repository_of_the_pipeline(
    worker: WorkerModel,
    pipeline_id: PipelineId,
    pr: u32,
    status: Status,
    step: DeliveryModel,
)
    requires
        report_begins(worker, pipeline_id, pr, status, step),
    ensures
        (forall|repo: RepoModel| #[trigger]
            worker.repos.contains_key(repo) ==> worker.repos[repo].pipeline_id != pipeline_id)
            ==> step == DeliveryModel::Done(
            Err::<(), GithubRequestError>(GithubRequestError::Pipeline(pipeline_id)),
        ),
        (exists|repo: RepoModel| #[trigger]
            worker.repos.contains_key(repo) && worker.repos[repo].pipeline_id == pipeline_id)
            ==> exists|repo: RepoModel| #[trigger]
            worker.repos.contains_key(repo) && worker.repos[repo].pipeline_id == pipeline_id
                && starts_with(step, report_rounds(worker.host, repo, pr, status)),
{
    if exists|repo: RepoModel| #[trigger]
        worker.repos.contains_key(repo) && worker.repos[repo].pipeline_id == pipeline_id {
        let some = choose|repo: RepoModel| #[trigger]
            worker.repos.contains_key(repo) && worker.repos[repo].pipeline_id == pipeline_id;
        assert(built_by(worker, some, pipeline_id));
        let repo = choose|repo: RepoModel|
            #![trigger built_by(worker, repo, pipeline_id)]
            built_by(worker, repo, pipeline_id) && step == DeliveryModel::start(
                report_rounds(worker.host, repo, pr, status),
            );
        assert(worker.repos.contains_key(repo));
    }
}

/// Whether a delivery is at the beginning of these rounds: it writes the
/// payload of the first of them, or, if there are none, has ended well.
pub open spec fn starts_with(step: DeliveryModel, rounds: Seq<RoundModel>) -> bool {
    if rounds.len() == 0 {
        step == DeliveryModel::Done(Ok::<(), GithubRequestError>(()))
    } else {
        step == (DeliveryModel::Encode {
            payload: rounds[0].payload,
            urls: rounds[0].urls,
            later: rounds.skip(1),
        })
    }
}

/// A payload as a model is of the same kind and has the same texts.
pub proof fn payloads_keep_their_texts(payload: Payload)
    ensures
        match payload {
            Payload::Comment(comment) => payload@ == PayloadModel::Comment(comment.body@),
            Payload::Status(status) => {
                &&& payload@ is Status
                &&& payload@->Status_0.state == status.state@
                &&& payload@->Status_0.description == status.description@
                &&& payload@->Status_0.context == status.context@
                &&& payload@->Status_0.target_url is Some <==> status.target_url is Some
                &&& status.target_url is Some ==> payload@->Status_0.target_url->0
                    == status.target_url->0@
            },
        },
{
}

/// A step as a model has the same payload, places, body and rounds, each at its
/// position.
pub proof fn steps_keep_their_rounds(step: DeliveryStep, round: Round, i: int)
    ensures
        round@.payload == round.payload@,
        round@.urls.len() == round.urls@.len(),
        0 <= i < round.urls@.len() ==> round@.urls[i] == round.urls@[i]@,
        match step {
            DeliveryStep::Encode(encoding) => {
                &&& step@ is Encode
                &&& step@->payload == encoding.payload@
                &&& step@->Encode_urls.len() == encoding.urls@.len()
                &&& 0 <= i < encoding.urls@.len() ==> step@->Encode_urls[i] == encoding.urls@[i]@
                &&& step@->Encode_later.len() == encoding.later@.len()
                &&& 0 <= i < encoding.later@.len() ==> step@->Encode_later[i]
                    == encoding.later@[i]@
            },
            DeliveryStep::Post(posting) => {
                &&& step@ is Post
                &&& step@->url == posting.url@
                &&& step@->body == posting.body@
                &&& step@->Post_urls.len() == posting.urls@.len()
                &&& 0 <= i < posting.urls@.len() ==> step@->Post_urls[i] == posting.urls@[i]@
                &&& step@->Post_later.len() == posting.later@.len()
                &&& 0 <= i < posting.later@.len() ==> step@->Post_later[i] == posting.later@[i]@
            },
            DeliveryStep::Done(result) => step@ == DeliveryModel::Done(result),
        },
{
}

} // verus!
