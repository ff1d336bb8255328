//! What the front end exchanges with the build pipelines.

use crate::pr::Pr;
use vstd::prelude::*;

verus! {

/// Identifies a build pipeline.
#[derive(Clone, Copy, Debug, Eq, Hash, PartialEq, Structural)]
pub struct PipelineId(pub i32);

/// A commit, by the text that names it.
#[derive(Debug, Eq, PartialEq)]
pub struct Commit(pub String);

impl Clone for Commit {
    fn clone(&self) -> (r: Commit)
        ensures
            r@ == self@,
    {
        Commit(self.0.clone())
    }
}

impl View for Commit {
    type V = Seq<char>;

    open spec fn view(&self) -> Seq<char> {
        self.0@
    }
}

/// What the front end tells a pipeline about a pull request.
#[derive(Debug, Eq, PartialEq)]
pub enum Event {
    /// Somebody approved the pull request, perhaps at a given commit. The
    /// text is the message for the merge commit.
    Approved(PipelineId, Pr, Option<Commit>, String),
    /// Somebody took the pull request back.
    Canceled(PipelineId, Pr),
    /// The pull request was opened or reopened, with this commit at its head.
    Opened(PipelineId, Pr, Commit),
    /// The head of the pull request moved to this commit.
    Changed(PipelineId, Pr, Commit),
    /// The pull request was closed.
    Closed(PipelineId, Pr),
}

/// How far a pipeline has come with a pull request. The first commit is the
/// head of the pull request, the second the merge commit; a text is a link to
/// the build.
#[derive(Debug, Eq, PartialEq)]
pub enum Status {
    /// The build is about to start.
    StartingBuild(Commit, Commit),
    /// The build is running.
    Testing(Commit, Commit, Option<String>),
    /// The build succeeded.
    Success(Commit, Commit, Option<String>),
    /// The build failed.
    Failure(Commit, Commit, Option<String>),
    /// The pull request does not merge.
    Unmergeable(Commit),
    /// The merge commit cannot become the head of the master branch.
    Unmoveable(Commit, Commit),
    /// The pull request changed after it was approved.
    Invalidated,
    /// No commit is known for the pull request.
    NoCommit,
    /// The merge commit is the head of the master branch.
    Completed(Commit, Commit),
}

/// What a pipeline tells the front end.
#[derive(Debug, Eq, PartialEq)]
pub enum Message {
    /// Report how far the pipeline has come with the pull request.
    SendResult(PipelineId, Pr, Status),
}

/// A command that a comment gives.
#[derive(Debug, Eq, PartialEq)]
pub enum Command {
    /// Approved by the named user, perhaps at a given commit.
    Approved(String, Option<Commit>),
    /// Taken back.
    Canceled,
}

/// An event with its texts as sequences of characters.
pub enum EventModel {
    Approved(PipelineId, u32, Option<Seq<char>>, Seq<char>),
    Canceled(PipelineId, u32),
    Opened(PipelineId, u32, Seq<char>),
    Changed(PipelineId, u32, Seq<char>),
    Closed(PipelineId, u32),
}

/// The pipeline that an event is for.
pub open spec fn event_pipeline(event: EventModel) -> PipelineId {
    match event {
        EventModel::Approved(id, _, _, _) => id,
        EventModel::Canceled(id, _) => id,
        EventModel::Opened(id, _, _) => id,
        EventModel::Changed(id, _, _) => id,
        EventModel::Closed(id, _) => id,
    }
}

/// The pull request that an event is about.
pub open spec fn event_pr(event: EventModel) -> u32 {
    match event {
        EventModel::Approved(_, pr, _, _) => pr,
        EventModel::Canceled(_, pr) => pr,
        EventModel::Opened(_, pr, _) => pr,
        EventModel::Changed(_, pr, _) => pr,
        EventModel::Closed(_, pr) => pr,
    }
}

/// The text of a commit that may be missing.
pub open spec fn commit_text(commit: Option<Commit>) -> Option<Seq<char>> {
    match commit {
        Some(c) => Some(c@),
        None => None,
    }
}

impl View for Event {
    type V = EventModel;

    open spec fn view(&self) -> EventModel {
        match *self {
            Event::Approved(id, pr, commit, message) => EventModel::Approved(
                id,
                pr.0,
                commit_text(commit),
                message@,
            ),
            Event::Canceled(id, pr) => EventModel::Canceled(id, pr.0),
            Event::Opened(id, pr, commit) => EventModel::Opened(id, pr.0, commit@),
            Event::Changed(id, pr, commit) => EventModel::Changed(id, pr.0, commit@),
            Event::Closed(id, pr) => EventModel::Closed(id, pr.0),
        }
    }
}

/// An event as a model is the same event: of the same kind, for the same
/// pipeline and pull request, with the same commit and message.
pub proof fn events_keep_their_kind(event: Event)
    ensures
        match event {
            Event::Approved(id, pr, commit, message) => {
                &&& event@ is Approved
                &&& event@->Approved_0 == id
                &&& event@->Approved_1 == pr.0
                &&& commit is Some <==> event@->Approved_2 is Some
                &&& commit is Some ==> event@->Approved_2->0 == (commit->0).0@
                &&& event@->Approved_3 == message@
            },
            Event::Canceled(id, pr) => event@ == EventModel::Canceled(id, pr.0),
            Event::Opened(id, pr, commit) => event@ == EventModel::Opened(id, pr.0, commit.0@),
            Event::Changed(id, pr, commit) => event@ == EventModel::Changed(id, pr.0, commit.0@),
            Event::Closed(id, pr) => event@ == EventModel::Closed(id, pr.0),
        },
{
}

} // verus!
