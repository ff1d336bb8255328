//! Which teams may write to a repository.
//!
//! The lookup first asks what kind of owner the repository has, and for an
//! organization then fetches its teams and asks for each of them what it may
//! do. Whoever runs it sends the request at hand and hands back the reply (the
//! status of the response, or why there is none), and reads the document out
//! of a response when that is called for.

use crate::desc::{RepositoryDesc, TeamDesc, TeamRepoDesc};
use crate::error::GithubRequestError;
use crate::http::{self, read_acceptance, ApiRequest, RequestModel};
use crate::pr::{Repo, RepoModel};
use crate::repos::{self, ConfigModel};
use crate::text::{self, same_text};
use crate::ui::PipelineId;
use crate::worker::{self, Worker, WorkerModel};
use std::collections::{HashSet, VecDeque};
use vstd::prelude::*;

verus! {

broadcast use vstd::std_specs::hash::group_hash_axioms;

/// Why the lookup failed.
#[derive(Debug)]
pub enum LookupError {
    /// The kind of owner could not be found out.
    Owner(GithubRequestError),
    /// The teams could not be found out.
    Teams(GithubRequestError),
}

/// The description of the repository is to be fetched.
#[derive(Debug)]
pub struct OwnerQuery {
    pub repo: Repo,
}

/// The description of the repository is to be read out of the response.
#[derive(Debug)]
pub struct OwnerBody {
    pub repo: Repo,
}

/// The teams of the organization are to be fetched.
#[derive(Debug)]
pub struct TeamsQuery {
    pub repo: Repo,
}

/// The teams of the organization are to be read out of the response.
#[derive(Debug)]
pub struct TeamsBody {
    pub repo: Repo,
}

/// What a team may do is to be fetched. The rest of the teams follow; those in
/// `writing` are known to have permission to write.
#[derive(Debug)]
pub struct TeamQuery {
    pub repo: Repo,
    pub team: u32,
    pub rest: VecDeque<u32>,
    pub writing: HashSet<u32>,
}

/// What a team may do is to be read out of the response.
#[derive(Debug)]
pub struct TeamBody {
    pub repo: Repo,
    pub team: u32,
    pub rest: VecDeque<u32>,
    pub writing: HashSet<u32>,
}

/// How far the lookup has come.
#[derive(Debug)]
pub enum TeamLookup {
    AskOwner(OwnerQuery),
    ReadOwner(OwnerBody),
    AskTeams(TeamsQuery),
    ReadTeams(TeamsBody),
    AskTeam(TeamQuery),
    ReadTeam(TeamBody),
    /// The teams that may write, or nothing if the repository does not belong
    /// to an organization.
    Done(Result<Option<HashSet<u32>>, LookupError>),
}

/// How far the lookup has come, with texts and teams as sequences and sets.
pub enum LookupModel {
    AskOwner { repo: RepoModel },
    ReadOwner { repo: RepoModel },
    AskTeams { repo: RepoModel },
    ReadTeams { repo: RepoModel },
    AskTeam { repo: RepoModel, team: u32, rest: Seq<u32>, writing: Set<u32> },
    ReadTeam { repo: RepoModel, team: u32, rest: Seq<u32>, writing: Set<u32> },
    Done(Result<Option<Set<u32>>, LookupError>),
}

impl View for OwnerQuery {
    type V = LookupModel;

    open spec fn view(&self) -> LookupModel {
        LookupModel::AskOwner { repo: self.repo@ }
    }
}

impl View for OwnerBody {
    type V = LookupModel;

    open spec fn view(&self) -> LookupModel {
        LookupModel::ReadOwner { repo: self.repo@ }
    }
}

impl View for TeamsQuery {
    type V = LookupModel;

    open spec fn view(&self) -> LookupModel {
        LookupModel::AskTeams { repo: self.repo@ }
    }
}

impl View for TeamsBody {
    type V = LookupModel;

    open spec fn view(&self) -> LookupModel {
        LookupModel::ReadTeams { repo: self.repo@ }
    }
}

impl View for TeamQuery {
    type V = LookupModel;

    open spec fn view(&self) -> LookupModel {
        LookupModel::AskTeam {
            repo: self.repo@,
            team: self.team,
            rest: self.rest@,
            writing: self.writing@,
        }
    }
}

impl View for TeamBody {
    type V = LookupModel;

    open spec fn view(&self) -> LookupModel {
        LookupModel::ReadTeam {
            repo: self.repo@,
            team: self.team,
            rest: self.rest@,
            writing: self.writing@,
        }
    }
}

impl View for TeamLookup {
    type V = LookupModel;

    open spec fn view(&self) -> LookupModel {
        match *self {
            TeamLookup::AskOwner(query) => query@,
            TeamLookup::ReadOwner(body) => body@,
            TeamLookup::AskTeams(query) => query@,
            TeamLookup::ReadTeams(body) => body@,
            TeamLookup::AskTeam(query) => query@,
            TeamLookup::ReadTeam(body) => body@,
            TeamLookup::Done(found) => LookupModel::Done(found_teams(found)),
        }
    }
}

/// What a lookup has found, with the teams as a set.
pub open spec fn found_teams(found: Result<Option<HashSet<u32>>, LookupError>) -> Result<
    Option<Set<u32>>,
    LookupError,
> {
    match found {
        Ok(teams) => Ok(repos::optional_set(teams)),
        Err(e) => Err(e),
    }
}

/// Whether an owner of this kind is an organization.
pub open spec fn is_organization(owner_type: Seq<char>) -> bool {
    owner_type == "Organization"@
}

/// Whether a team with these permissions may write.
pub open spec fn may_write(desc: TeamRepoDesc) -> bool {
    desc.permissions.admin || desc.permissions.push
}

/// The numbers of teams, in their order.
pub open spec fn team_ids(teams: Seq<TeamDesc>) -> Seq<u32> {
    Seq::new(teams.len(), |i: int| teams[i].id)
}

impl LookupModel {
    /// The lookup when these teams are still to be asked for.
    pub open spec fn of_teams(repo: RepoModel, teams: Seq<u32>, writing: Set<u32>) -> LookupModel {
        if teams.len() == 0 {
            LookupModel::Done(Ok(Some(writing)))
        } else {
            LookupModel::AskTeam { repo, team: teams[0], rest: teams.skip(1), writing }
        }
    }

    /// The request at hand.
    pub open spec fn request(self, worker: WorkerModel) -> Option<RequestModel> {
        match self {
            LookupModel::AskOwner { repo } => Some(
                worker.request(
                    http::Method::Get,
                    http::AcceptType::Regular,
                    worker::repo_url(worker.host, repo),
                ),
            ),
            LookupModel::AskTeams { repo } => Some(
                worker.request(
                    http::Method::Get,
                    http::AcceptType::Regular,
                    worker::teams_url(worker.host, repo.owner),
                ),
            ),
            LookupModel::AskTeam { repo, team, .. } => Some(
                worker.request(
                    http::Method::Get,
                    http::AcceptType::Repository,
                    worker::team_repo_url(worker.host, team, repo),
                ),
            ),
            _ => None,
        }
    }

    /// How far the lookup has come after the reply to the request at hand. The
    /// response about a single team is read whatever its status.
    pub open spec fn after_reply(self, reply: Result<u16, hyper::error::Error>) -> LookupModel {
        match self {
            LookupModel::AskOwner { repo } => match http::acceptance(reply) {
                Ok(_) => LookupModel::ReadOwner { repo },
                Err(e) => LookupModel::Done(Err(LookupError::Owner(e))),
            },
            LookupModel::AskTeams { repo } => match http::acceptance(reply) {
                Ok(_) => LookupModel::ReadTeams { repo },
                Err(e) => LookupModel::Done(Err(LookupError::Teams(e))),
            },
            LookupModel::AskTeam { repo, team, rest, writing } => match reply {
                Ok(_) => LookupModel::ReadTeam { repo, team, rest, writing },
                Err(e) => LookupModel::Done(Err(LookupError::Teams(GithubRequestError::Http(e)))),
            },
            _ => self,
        }
    }

    /// How far the lookup has come once the kind of owner is known.
    pub open spec fn after_owner(
        self,
        owner_type: Result<Seq<char>, serde_json::error::Error>,
    ) -> LookupModel {
        match (self, owner_type) {
            (LookupModel::ReadOwner { repo }, Ok(kind)) => if is_organization(kind) {
                LookupModel::AskTeams { repo }
            } else {
                LookupModel::Done(Ok(None))
            },
            (LookupModel::ReadOwner { .. }, Err(e)) => LookupModel::Done(
                Err(LookupError::Owner(GithubRequestError::Json(e))),
            ),
            _ => self,
        }
    }

    /// How far the lookup has come once the teams are known.
    pub open spec fn after_teams(
        self,
        teams: Result<Seq<u32>, serde_json::error::Error>,
    ) -> LookupModel {
        match (self, teams) {
            (LookupModel::ReadTeams { repo }, Ok(ids)) => LookupModel::of_teams(
                repo,
                ids,
                Set::empty(),
            ),
            (LookupModel::ReadTeams { .. }, Err(e)) => LookupModel::Done(
                Err(LookupError::Teams(GithubRequestError::Json(e))),
            ),
            _ => self,
        }
    }

    /// How far the lookup has come once it is known what a team may do.
    pub open spec fn after_team(
        self,
        desc: Result<TeamRepoDesc, serde_json::error::Error>,
    ) -> LookupModel {
        match (self, desc) {
            (LookupModel::ReadTeam { repo, team, rest, writing }, Ok(d)) => LookupModel::of_teams(
                repo,
                rest,
                if may_write(d) {
                    writing.insert(team)
                } else {
                    writing
                },
            ),
            (LookupModel::ReadTeam { .. }, Err(e)) => LookupModel::Done(
                Err(LookupError::Teams(GithubRequestError::Json(e))),
            ),
            _ => self,
        }
    }
}

/// What the reader of an owner document learns from it.
pub open spec fn owner_type_of(
    desc: Result<RepositoryDesc, serde_json::error::Error>,
) -> Result<Seq<char>, serde_json::error::Error> {
    match desc {
        Ok(d) => Ok(d.owner.owner_type@),
        Err(e) => Err(e),
    }
}

/// What the reader of a list of teams learns from it.
pub open spec fn ids_of(desc: Result<Vec<TeamDesc>, serde_json::error::Error>) -> Result<
    Seq<u32>,
    serde_json::error::Error,
> {
    match desc {
        Ok(teams) => Ok(team_ids(teams@)),
        Err(e) => Err(e),
    }
}

/// Goes on with the teams that are still to be asked for.
fn ask_teams(repo: Repo, teams: VecDeque<u32>, writing: HashSet<u32>) -> (r: TeamLookup)
    ensures
        r@ == LookupModel::of_teams(repo@, teams@, writing@),
{
    let mut rest = teams;
    match rest.pop_front() {
        Some(team) => {
            assert(rest@ =~= teams@.skip(1));
            TeamLookup::AskTeam(TeamQuery { repo, team, rest, writing })
        },
        None => TeamLookup::Done(Ok(Some(writing))),
    }
}

impl OwnerQuery {
    /// The request for the description of the repository.
    pub fn request(&self, worker: &Worker) -> (r: ApiRequest)
        ensures
            Some(r@) == self@.request(worker@),
            r.method == http::Method::Get,
            r.body is None,
            text::spells(
                r.url@,
                seq![worker@.host, "/repos/"@, self.repo.owner@, "/"@, self.repo.repo@],
            ),
    {
        worker.repo_request(&self.repo)
    }

    /// Goes on with the reply.
    pub fn reply(self, reply: Result<u16, hyper::error::Error>) -> (r: TeamLookup)
        ensures
            r@ == self@.after_reply(reply),
            match reply {
                Ok(code) => if 200 <= code <= 299 {
                    r matches TeamLookup::ReadOwner(body) && body.repo@ == self.repo@
                } else {
                    r == TeamLookup::Done(
                        Err(LookupError::Owner(GithubRequestError::HttpStatus(code))),
                    )
                },
                Err(e) => r == TeamLookup::Done(
                    Err(LookupError::Owner(GithubRequestError::Http(e))),
                ),
            },
    {
        match read_acceptance(reply) {
            Ok(_) => TeamLookup::ReadOwner(OwnerBody { repo: self.repo }),
            Err(e) => TeamLookup::Done(Err(LookupError::Owner(e))),
        }
    }
}

impl OwnerBody {
    /// Goes on with the description of the repository, or with why it could
    /// not be read.
    pub fn document(self, desc: Result<RepositoryDesc, serde_json::error::Error>) -> (r: TeamLookup)
        ensures
            r@ == self@.after_owner(owner_type_of(desc)),
            match desc {
                Ok(d) => if d.owner.owner_type@ == "Organization"@ {
                    r matches TeamLookup::AskTeams(query) && query.repo@ == self.repo@
                } else {
                    r == TeamLookup::Done(Ok(None))
                },
                Err(e) => r == TeamLookup::Done(
                    Err(LookupError::Owner(GithubRequestError::Json(e))),
                ),
            },
    {
        match desc {
            Ok(d) => if same_text(d.owner.owner_type.as_str(), "Organization") {
                TeamLookup::AskTeams(TeamsQuery { repo: self.repo })
            } else {
                TeamLookup::Done(Ok(None))
            },
            Err(e) => TeamLookup::Done(Err(LookupError::Owner(GithubRequestError::from(e)))),
        }
    }
}

impl TeamsQuery {
    /// The request for the teams of the organization.
    pub fn request(&self, worker: &Worker) -> (r: ApiRequest)
        ensures
            Some(r@) == self@.request(worker@),
            r.method == http::Method::Get,
            r.body is None,
            text::spells(r.url@, seq![worker@.host, "/orgs/"@, self.repo.owner@, "/teams"@]),
    {
        worker.teams_request(&self.repo)
    }

    /// Goes on with the reply.
    pub fn reply(self, reply: Result<u16, hyper::error::Error>) -> (r: TeamLookup)
        ensures
            r@ == self@.after_reply(reply),
            match reply {
                Ok(code) => if 200 <= code <= 299 {
                    r matches TeamLookup::ReadTeams(body) && body.repo@ == self.repo@
                } else {
                    r == TeamLookup::Done(
                        Err(LookupError::Teams(GithubRequestError::HttpStatus(code))),
                    )
                },
                Err(e) => r == TeamLookup::Done(
                    Err(LookupError::Teams(GithubRequestError::Http(e))),
                ),
            },
    {
        match read_acceptance(reply) {
            Ok(_) => TeamLookup::ReadTeams(TeamsBody { repo: self.repo }),
            Err(e) => TeamLookup::Done(Err(LookupError::Teams(e))),
        }
    }
}

impl TeamsBody {
    /// Goes on with the teams of the organization, or with why they could not
    /// be read.
    pub fn document(self, desc: Result<Vec<TeamDesc>, serde_json::error::Error>) -> (r: TeamLookup)
        ensures
            r@ == self@.after_teams(ids_of(desc)),
            match desc {
                Ok(teams) => if teams@.len() == 0 {
                    r matches TeamLookup::Done(Ok(Some(writing))) && writing@.is_empty()
                } else {
                    r matches TeamLookup::AskTeam(query) && {
                        &&& query.repo@ == self.repo@
                        &&& query.team == teams@[0].id
                        &&& query.rest@.len() == teams@.len() - 1
                        &&& forall|i: int|
                            0 <= i < query.rest@.len() ==> #[trigger] query.rest@[i] == teams@[i
                                + 1].id
                        &&& query.writing@.is_empty()
                    }
                },
                Err(e) => r == TeamLookup::Done(
                    Err(LookupError::Teams(GithubRequestError::Json(e))),
                ),
            },
    {
        match desc {
            Ok(all_teams) => {
                let mut teams: VecDeque<u32> = VecDeque::new();
                let mut i: usize = 0;
                while i < all_teams.len()
                    invariant
                        i <= all_teams.len(),
                        teams@ == team_ids(all_teams@).take(i as int),
                    decreases all_teams.len() - i,
                {
                    teams.push_back(all_teams[i].id);
                    i = i + 1;
                    assert(teams@ =~= team_ids(all_teams@).take(i as int));
                }
                assert(teams@ =~= team_ids(all_teams@));
                ask_teams(self.repo, teams, HashSet::new())
            },
            Err(e) => TeamLookup::Done(Err(LookupError::Teams(GithubRequestError::from(e)))),
        }
    }
}

impl TeamQuery {
    /// The request for what the team may do.
    pub fn request(&self, worker: &Worker) -> (r: ApiRequest)
        ensures
            Some(r@) == self@.request(worker@),
            r.method == http::Method::Get,
            r.body is None,
            text::spells(
                r.url@,
                seq![
                    worker@.host,
                    "/teams/"@,
                    text::decimal(self.team as nat),
                    "/repos/"@,
                    self.repo.owner@,
                    "/"@,
                    self.repo.repo@,
                ],
            ),
    {
        worker.team_repo_request(self.team, &self.repo)
    }

    /// Goes on with the reply.
    pub fn reply(self, reply: Result<u16, hyper::error::Error>) -> (r: TeamLookup)
        ensures
            r@ == self@.after_reply(reply),
            match reply {
                Ok(_) => r matches TeamLookup::ReadTeam(body) && body.repo@ == self.repo@
                    && body.team == self.team && body.rest@ == self.rest@ && body.writing@
                    == self.writing@,
                Err(e) => r == TeamLookup::Done(
                    Err(LookupError::Teams(GithubRequestError::Http(e))),
                ),
            },
    {
        match reply {
            Ok(_) => TeamLookup::ReadTeam(
                TeamBody {
                    repo: self.repo,
                    team: self.team,
                    rest: self.rest,
                    writing: self.writing,
                },
            ),
            Err(e) => TeamLookup::Done(Err(LookupError::Teams(GithubRequestError::from(e)))),
        }
    }
}

impl TeamBody {
    /// Goes on with what the team may do, or with why that could not be read.
    pub fn document(self, desc: Result<TeamRepoDesc, serde_json::error::Error>) -> (r: TeamLookup)
        ensures
            r@ == self@.after_team(desc),
            match desc {
                Ok(d) => {
                    let writes = d.permissions.admin || d.permissions.push;
                    if self.rest@.len() == 0 {
                        r matches TeamLookup::Done(Ok(Some(writing))) && writing@ == (if writes {
                            self.writing@.insert(self.team)
                        } else {
                            self.writing@
                        })
                    } else {
                        r matches TeamLookup::AskTeam(query) && {
                            &&& query.repo@ == self.repo@
                            &&& query.team == self.rest@[0]
                            &&& query.rest@ == self.rest@.skip(1)
                            &&& query.writing@ == (if writes {
                                self.writing@.insert(self.team)
                            } else {
                                self.writing@
                            })
                        }
                    }
                },
                Err(e) => r == TeamLookup::Done(
                    Err(LookupError::Teams(GithubRequestError::Json(e))),
                ),
            },
    {
        match desc {
            Ok(d) => {
                let mut writing = self.writing;
                if d.permissions.admin || d.permissions.push {
                    writing.insert(self.team);
                }
                ask_teams(self.repo, self.rest, writing)
            },
            Err(e) => TeamLookup::Done(Err(LookupError::Teams(GithubRequestError::from(e)))),
        }
    }
}

impl Worker {
    /// Starts the lookup of the teams that may write to a repository.
    pub fn teams_with_write(&self, repo: &Repo) -> (r: TeamLookup)
        ensures
            r@ == (LookupModel::AskOwner { repo: repo@ }),
            r matches TeamLookup::AskOwner(query) && query.repo@ == repo@,
    {
        TeamLookup::AskOwner(OwnerQuery { repo: repo.clone() })
    }

    /// Serves a repository from now on, with what the lookup has found. If the
    /// lookup has failed, says why, and nothing changes.
    pub fn register(
        &mut self,
        pipeline_id: PipelineId,
        repo: Repo,
        found: Result<Option<HashSet<u32>>, LookupError>,
    ) -> (r: Result<(), LookupError>)
        ensures
            final(self)@ == old(self)@.registered(pipeline_id, repo@, found_teams(found)),
            match found {
                Ok(_) => r is Ok,
                Err(e) => r == Err::<(), LookupError>(e),
            },
    {
        match found {
            Ok(teams_with_write) => {
                self.add_pipeline(pipeline_id, repo, teams_with_write);
                Ok(())
            },
            Err(e) => Err(e),
        }
    }
}

impl WorkerModel {
    /// The front end once the lookup for a repository has ended: the repository
    /// is served with exactly the teams that were found, or nothing changes if
    /// the lookup has failed.
    pub open spec fn registered(
        self,
        pipeline_id: PipelineId,
        repo: RepoModel,
        found: Result<Option<Set<u32>>, LookupError>,
    ) -> WorkerModel {
        match found {
            Ok(teams_with_write) => self.with_repo(
                repo,
                ConfigModel { pipeline_id, teams_with_write },
            ),
            Err(_) => self,
        }
    }
}

/// What comes back about one team: the reply, and what is read out of the
/// response.
pub struct TeamAnswer {
    pub reply: Result<u16, hyper::error::Error>,
    pub desc: Result<TeamRepoDesc, serde_json::error::Error>,
}

/// Whether an answer tells what the team may do.
pub open spec fn tells(answer: TeamAnswer) -> bool {
    answer.reply is Ok && answer.desc is Ok
}

/// The teams whose answers say that they may write.
pub open spec fn writers(teams: Seq<u32>, answers: Seq<TeamAnswer>) -> Set<u32> {
    Set::new(|team: u32| exists|i: int| writer_at(teams, answers, team, i))
}

/// Whether answer `i` says that the team may write.
pub open spec fn writer_at(
    teams: Seq<u32>,
    answers: Seq<TeamAnswer>,
    team: u32,
    i: int,
) -> bool {
    0 <= i < teams.len() && teams[i] == team && may_write(answers[i].desc->Ok_0)
}

impl LookupModel {
    /// Where the lookup ends if the answers about the single teams come in
    /// this order.
    pub open spec fn run_teams(self, answers: Seq<TeamAnswer>) -> LookupModel
        decreases answers.len(),
    {
        if self is AskTeam && answers.len() > 0 {
            self.after_reply(answers[0].reply).after_team(answers[0].desc).run_teams(
                answers.skip(1),
            )
        } else {
            self
        }
    }
}

/// The writers among some teams are those among all but the first, and the
/// first if it may write.
proof fn first_writer(teams: Seq<u32>, writing: Set<u32>, answers: Seq<TeamAnswer>)
    requires
        answers.len() == teams.len(),
        teams.len() > 0,
    ensures
        (if may_write(answers[0].desc->Ok_0) {
            writing.insert(teams[0])
        } else {
            writing
        }).union(writers(teams.skip(1), answers.skip(1))) == writing.union(
            writers(teams, answers),
        ),
{
    let now = if may_write(answers[0].desc->Ok_0) {
        writing.insert(teams[0])
    } else {
        writing
    };
    let later = answers.skip(1);
    assert forall|team: u32|
        now.union(writers(teams.skip(1), later)).contains(team) == writing.union(
            writers(teams, answers),
        ).contains(team) by {
        if exists|i: int| writer_at(teams.skip(1), later, team, i) {
            let i = choose|i: int| writer_at(teams.skip(1), later, team, i);
            assert(writer_at(teams, answers, team, i + 1));
        }
        if exists|i: int| writer_at(teams, answers, team, i) {
            let i = choose|i: int| writer_at(teams, answers, team, i);
            if i > 0 {
                assert(writer_at(teams.skip(1), later, team, i - 1));
            }
        }
        if may_write(answers[0].desc->Ok_0) && team == teams[0] {
            assert(writer_at(teams, answers, team, 0));
        }
    }
    assert(now.union(writers(teams.skip(1), later)) =~= writing.union(writers(teams, answers)));
}

/// After the first `n` answers, all of which tell, the teams from position `n`
/// on are still to be asked for, and the writers among those before are known.
proof fn lookup_after_answers(
    repo: RepoModel,
    teams: Seq<u32>,
    writing: Set<u32>,
    answers: Seq<TeamAnswer>,
    n: int,
)
    requires
        0 <= n <= teams.len(),
        n <= answers.len(),
        forall|i: int| 0 <= i < n ==> tells(#[trigger] answers[i]),
    ensures
        LookupModel::of_teams(repo, teams, writing).run_teams(answers.take(n))
            == LookupModel::of_teams(
            repo,
            teams.skip(n),
            writing.union(writers(teams.take(n), answers.take(n))),
        ),
    decreases n,
{
    if n == 0 {
        assert forall|team: u32| !writers(teams.take(n), answers.take(n)).contains(team) by {
            assert(forall|i: int| !writer_at(teams.take(n), answers.take(n), team, i));
        }
        assert(writing.union(writers(teams.take(n), answers.take(n))) =~= writing);
        assert(teams.skip(n) =~= teams);
    } else {
        let now = if may_write(answers[0].desc->Ok_0) {
            writing.insert(teams[0])
        } else {
            writing
        };
        let later = answers.skip(1);
        assert(tells(answers[0]));
        assert forall|i: int| 0 <= i < n - 1 implies tells(#[trigger] later[i]) by {
            assert(later[i] == answers[i + 1]);
        }
        lookup_after_answers(repo, teams.skip(1), now, later, n - 1);
        assert(answers.take(n).skip(1) =~= later.take(n - 1));
        assert(teams.take(n).skip(1) =~= teams.skip(1).take(n - 1));
        assert(teams.skip(1).skip(n - 1) =~= teams.skip(n));
        first_writer(teams.take(n), writing, answers.take(n));
    }
}

/// The requests for the single teams follow the list of teams, one for each
/// position: after the first `n` answers, all of which tell, the request at
/// hand is the one for the team at position `n`, and after the last position
/// there is no further request.
pub proof fn teams_are_asked_in_order(
    worker: WorkerModel,
    repo: RepoModel,
    teams: Seq<u32>,
    writing: Set<u32>,
    answers: Seq<TeamAnswer>,
    n: int,
)
    requires
        0 <= n <= teams.len(),
        n <= answers.len(),
        forall|i: int| 0 <= i < n ==> tells(#[trigger] answers[i]),
    ensures
        LookupModel::of_teams(repo, teams, writing).run_teams(answers.take(n)).request(worker)
            == if n < teams.len() {
            Some(
                worker.request(
                    http::Method::Get,
                    http::AcceptType::Repository,
                    worker::team_repo_url(worker.host, teams[n], repo),
                ),
            )
        } else {
            None
        },
{
    lookup_after_answers(repo, teams, writing, answers, n);
}

/// If GitHub tells for every team what it may do, the lookup finds exactly
/// the teams that may administer the repository or push to it, besides those
/// that were known before.
pub proof fn lookup_finds_the_writers(
    repo: RepoModel,
    teams: Seq<u32>,
    writing: Set<u32>,
    answers: Seq<TeamAnswer>,
)
    requires
        answers.len() == teams.len(),
        forall|i: int| 0 <= i < answers.len() ==> tells(#[trigger] answers[i]),
    ensures
        LookupModel::of_teams(repo, teams, writing).run_teams(answers) == LookupModel::Done(
            Ok::<Option<Set<u32>>, LookupError>(Some(writing.union(writers(teams, answers)))),
        ),
{
    lookup_after_answers(repo, teams, writing, answers, teams.len() as int);
    assert(teams.take(teams.len() as int) =~= teams);
    assert(answers.take(teams.len() as int) =~= answers);
}

/// Why an answer does not tell what the team may do: there was no response,
/// or else its document could not be read.
pub open spec fn answer_error(answer: TeamAnswer) -> GithubRequestError {
    match answer.reply {
        Err(e) => GithubRequestError::Http(e),
        Ok(_) => GithubRequestError::Json(answer.desc->Err_0),
    }
}

/// The first answer that does not tell what the team may do fixes the error
/// that the lookup ends with, and ends the asking: whatever answers follow, the
/// lookup has ended with that error, never with some of the teams only, and no
/// further request is made.
pub proof fn first_missing_answer_ends_the_lookup(
    worker: WorkerModel,
    repo: RepoModel,
    teams: Seq<u32>,
    writing: Set<u32>,
    answers: Seq<TeamAnswer>,
    n: int,
)
    requires
        0 <= n < teams.len(),
        n < answers.len(),
        forall|i: int| 0 <= i < n ==> tells(#[trigger] answers[i]),
        !tells(answers[n]),
    ensures
        LookupModel::of_teams(repo, teams, writing).run_teams(answers) == LookupModel::Done(
            Err::<Option<Set<u32>>, LookupError>(LookupError::Teams(answer_error(answers[n]))),
        ),
        LookupModel::of_teams(repo, teams, writing).run_teams(answers.take(n + 1))
            == LookupModel::of_teams(repo, teams, writing).run_teams(answers),
        LookupModel::of_teams(repo, teams, writing).run_teams(answers.take(n + 1)).request(worker)
            is None,
    decreases n,
{
    let first = LookupModel::of_teams(repo, teams, writing);
    let second = first.after_reply(answers[0].reply).after_team(answers[0].desc);
    let later = answers.skip(1);
    assert(answers.take(n + 1).skip(1) =~= later.take(n));
    if n > 0 {
        let now = if may_write(answers[0].desc->Ok_0) {
            writing.insert(teams[0])
        } else {
            writing
        };
        assert(tells(answers[0]));
        assert forall|i: int| 0 <= i < n - 1 implies tells(#[trigger] later[i]) by {
            assert(later[i] == answers[i + 1]);
        }
        assert(later[n - 1] == answers[n]);
        first_missing_answer_ends_the_lookup(worker, repo, teams.skip(1), now, later, n - 1);
    } else {
        assert(second.run_teams(later) == second);
        assert(second.run_teams(later.take(n)) == second);
    }
}

/// Only for an organization are teams asked for at all: whatever other kind
/// of owner a repository has, the lookup ends at once and names no teams.
pub proof fn other_owners_have_no_teams(repo: RepoModel, owner_type: Seq<char>)
    requires
        owner_type != "Organization"@,
    ensures
        (LookupModel::ReadOwner { repo }).after_owner(Ok(owner_type)) == LookupModel::Done(
            Ok::<Option<Set<u32>>, LookupError>(None),
        ),
{
}

/// The lookup as a whole, for a repository of an organization: if every
/// request is answered, it finds exactly the teams of the organization that
/// may administer the repository or push to it.
pub proof fn lookup_as_a_whole(
    repo: RepoModel,
    owner_status: u16,
    teams_status: u16,
    teams: Seq<u32>,
    answers: Seq<TeamAnswer>,
)
    requires
        http::success(owner_status),
        http::success(teams_status),
        answers.len() == teams.len(),
        forall|i: int| 0 <= i < answers.len() ==> tells(#[trigger] answers[i]),
    ensures
        (LookupModel::AskOwner { repo }).after_reply(Ok(owner_status)).after_owner(
            Ok("Organization"@),
        ).after_reply(Ok(teams_status)).after_teams(Ok(teams)).run_teams(answers)
            == LookupModel::Done(
            Ok::<Option<Set<u32>>, LookupError>(Some(writers(teams, answers))),
        ),
{
    lookup_finds_the_writers(repo, teams, Set::empty(), answers);
    assert(Set::empty().union(writers(teams, answers)) =~= writers(teams, answers));
}

/// A repository of an organization is served with exactly the teams of the
/// organization that may administer it or push to it, if every request of the
/// lookup is answered.
pub proof fn organization_is_served_with_its_writers(
    worker: WorkerModel,
    pipeline_id: PipelineId,
    repo: RepoModel,
    owner_status: u16,
    teams_status: u16,
    teams: Seq<u32>,
    answers: Seq<TeamAnswer>,
)
    requires
        http::success(owner_status),
        http::success(teams_status),
        answers.len() == teams.len(),
        forall|i: int| 0 <= i < answers.len() ==> tells(#[trigger] answers[i]),
    ensures
        ({
            let end = (LookupModel::AskOwner { repo }).after_reply(Ok(owner_status)).after_owner(
                Ok("Organization"@),
            ).after_reply(Ok(teams_status)).after_teams(Ok(teams)).run_teams(answers);
            &&& end is Done
            &&& worker.registered(pipeline_id, repo, end->Done_0) == worker.with_repo(
                repo,
                ConfigModel { pipeline_id, teams_with_write: Some(writers(teams, answers)) },
            )
        }),
{
    lookup_as_a_whole(repo, owner_status, teams_status, teams, answers);
}

/// A repository of any other owner is served without teams, once its
/// description is read.
pub proof fn other_owner_is_served_without_teams(
    worker: WorkerModel,
    pipeline_id: PipelineId,
    repo: RepoModel,
    owner_status: u16,
    owner_type: Seq<char>,
)
    requires
        http::success(owner_status),
        owner_type != "Organization"@,
    ensures
        ({
            let end = (LookupModel::AskOwner { repo }).after_reply(Ok(owner_status)).after_owner(
                Ok(owner_type),
            );
            &&& end is Done
            &&& worker.registered(pipeline_id, repo, end->Done_0) == worker.with_repo(
                repo,
                ConfigModel { pipeline_id, teams_with_write: None },
            )
        }),
{
    other_owners_have_no_teams(repo, owner_type);
}

/// Every request of a lookup is a proper request.
pub proof fn lookup_requests_are_proper(
    worker: WorkerModel,
    lookup: LookupModel,
    request: RequestModel,
)
    requires
        lookup.request(worker) == Some(request),
    ensures
        worker::proper_request(worker, request),
{
    let (repo, team, accept_type) = match lookup {
        LookupModel::AskOwner { repo } => (repo, 0u32, http::AcceptType::Regular),
        LookupModel::AskTeams { repo } => (repo, 0u32, http::AcceptType::Regular),
        LookupModel::AskTeam { repo, team, .. } => (repo, team, http::AcceptType::Repository),
        _ => arbitrary(),
    };
    worker::addresses_are_at_the_host(worker.host, repo, team, Seq::empty(), 0, Seq::empty());
    assert(request.headers == http::authed_headers(accept_type, worker.authorization));
}

/// Every request of a lookup only reads: its method is `Get` and it has no
/// body, and it carries the front end's credentials. The repository, the teams
/// of its owner, and what a single team may do are each asked for at their own
/// address; what a team may do in the form that tells it, the others in the
/// usual form. While a document is read, and at the end, there is no request.
pub proof fn lookup_only_reads(
    worker: WorkerModel,
    repo: RepoModel,
    team: u32,
    rest: Seq<u32>,
    writing: Set<u32>,
    lookup: LookupModel,
)
    ensures
        lookup.request(worker) is Some <==> lookup is AskOwner || lookup is AskTeams
            || lookup is AskTeam,
        lookup.request(worker) is Some ==> {
            let request = lookup.request(worker)->0;
            &&& request.method == http::Method::Get
            &&& request.body is None
            &&& request.headers.len() == 3
            &&& vstd::utf8::decode_utf8(request.headers[0].value) == (if lookup is AskTeam {
                "application/vnd.github.v3.repository+json"@
            } else {
                "application/vnd.github.v3+json"@
            })
            &&& request.headers[1].value == worker.authorization
        },
        text::spells(
            (LookupModel::AskOwner { repo }).request(worker)->0.url,
            seq![worker.host, "/repos/"@, repo.owner, "/"@, repo.repo],
        ),
        text::spells(
            (LookupModel::AskTeams { repo }).request(worker)->0.url,
            seq![worker.host, "/orgs/"@, repo.owner, "/teams"@],
        ),
        text::spells(
            (LookupModel::AskTeam { repo, team, rest, writing }).request(worker)->0.url,
            seq![
                worker.host,
                "/teams/"@,
                text::decimal(team as nat),
                "/repos/"@,
                repo.owner,
                "/"@,
                repo.repo,
            ],
        ),
{
    worker::addresses_spelled_out(worker.host, repo, team, Seq::empty(), 0, Seq::empty());
    if lookup.request(worker) is Some {
        let accept_type = if lookup is AskTeam {
            http::AcceptType::Repository
        } else {
            http::AcceptType::Regular
        };
        let url = lookup.request(worker)->0.url;
        worker::requests_carry_the_credentials(worker, http::Method::Get, accept_type, url);
    }
}

/// What the reply to a request does to a lookup. About the repository and about
/// the teams, a status from 200 to 299 has the document read, and any other
/// ends the lookup with that status; about a single team, the document is read
/// whatever the status. Where there is no response, the lookup ends with why.
pub proof fn reply_moves_the_lookup(
    repo: RepoModel,
    team: u32,
    rest: Seq<u32>,
    writing: Set<u32>,
    code: u16,
    error: hyper::error::Error,
)
    ensures
        ({
            let owner = LookupModel::AskOwner { repo };
            let teams = LookupModel::AskTeams { repo };
            let single = LookupModel::AskTeam { repo, team, rest, writing };
            &&& 200 <= code <= 299 ==> owner.after_reply(Ok(code)) == (LookupModel::ReadOwner {
                repo,
            }) && teams.after_reply(Ok(code)) == (LookupModel::ReadTeams { repo })
            &&& !(200 <= code <= 299) ==> owner.after_reply(Ok(code)) == LookupModel::Done(
                Err::<Option<Set<u32>>, LookupError>(
                    LookupError::Owner(GithubRequestError::HttpStatus(code)),
                ),
            ) && teams.after_reply(Ok(code)) == LookupModel::Done(
                Err::<Option<Set<u32>>, LookupError>(
                    LookupError::Teams(GithubRequestError::HttpStatus(code)),
                ),
            )
            &&& single.after_reply(Ok(code)) == (LookupModel::ReadTeam {
                repo,
                team,
                rest,
                writing,
            })
            &&& owner.after_reply(Err(error)) == LookupModel::Done(
                Err::<Option<Set<u32>>, LookupError>(
                    LookupError::Owner(GithubRequestError::Http(error)),
                ),
            )
            &&& teams.after_reply(Err(error)) == LookupModel::Done(
                Err::<Option<Set<u32>>, LookupError>(
                    LookupError::Teams(GithubRequestError::Http(error)),
                ),
            )
            &&& single.after_reply(Err(error)) == LookupModel::Done(
                Err::<Option<Set<u32>>, LookupError>(
                    LookupError::Teams(GithubRequestError::Http(error)),
                ),
            )
        }),
{
}

/// What a document does to a lookup. An owner of the kind `Organization`, and
/// of no other, has its teams asked for. The teams are asked for one by one, in
/// the order of the list. A team counts as one that may write exactly if it may
/// administer or push, whatever else it may do. A document that cannot be read
/// ends the lookup with why.
pub proof fn document_moves_the_lookup(
    repo: RepoModel,
    owner_type: Seq<char>,
    teams: Seq<u32>,
    team: u32,
    rest: Seq<u32>,
    writing: Set<u32>,
    desc: TeamRepoDesc,
    error: serde_json::error::Error,
)
    ensures
        ({
            let owner = LookupModel::ReadOwner { repo };
            let list = LookupModel::ReadTeams { repo };
            let single = LookupModel::ReadTeam { repo, team, rest, writing };
            let after = single.after_team(Ok(desc));
            let known = if desc.permissions.admin || desc.permissions.push {
                writing.insert(team)
            } else {
                writing
            };
            &&& owner.after_owner(Ok(owner_type)) == (LookupModel::AskTeams { repo })
                <==> owner_type == "Organization"@
            &&& owner_type != "Organization"@ ==> owner.after_owner(Ok(owner_type))
                == LookupModel::Done(Ok::<Option<Set<u32>>, LookupError>(None))
            &&& teams.len() == 0 ==> list.after_teams(Ok(teams)) == LookupModel::Done(
                Ok::<Option<Set<u32>>, LookupError>(Some(Set::empty())),
            )
            &&& teams.len() > 0 ==> list.after_teams(Ok(teams)) == (LookupModel::AskTeam {
                repo,
                team: teams[0],
                rest: teams.skip(1),
                writing: Set::empty(),
            })
            &&& rest.len() == 0 ==> after == LookupModel::Done(
                Ok::<Option<Set<u32>>, LookupError>(Some(known)),
            )
            &&& rest.len() > 0 ==> after == (LookupModel::AskTeam {
                repo,
                team: rest[0],
                rest: rest.skip(1),
                writing: known,
            })
            &&& owner.after_owner(Err(error)) == LookupModel::Done(
                Err::<Option<Set<u32>>, LookupError>(
                    LookupError::Owner(GithubRequestError::Json(error)),
                ),
            )
            &&& list.after_teams(Err(error)) == LookupModel::Done(
                Err::<Option<Set<u32>>, LookupError>(
                    LookupError::Teams(GithubRequestError::Json(error)),
                ),
            )
            &&& single.after_team(Err(error)) == LookupModel::Done(
                Err::<Option<Set<u32>>, LookupError>(
                    LookupError::Teams(GithubRequestError::Json(error)),
                ),
            )
        }),
{
}

/// What is read out of the documents: the kind of owner as it stands there, and
/// the number of every team, in the order of the list.
pub proof fn documents_are_read_whole(
    owner: RepositoryDesc,
    teams: Vec<TeamDesc>,
    error: serde_json::error::Error,
)
    ensures
        owner_type_of(Ok(owner)) == Ok::<Seq<char>, serde_json::error::Error>(
            owner.owner.owner_type@,
        ),
        owner_type_of(Err(error)) == Err::<Seq<char>, serde_json::error::Error>(error),
        ids_of(Ok(teams)) is Ok,
        ids_of(Ok(teams))->Ok_0.len() == teams@.len(),
        forall|i: int| 0 <= i < teams@.len() ==> ids_of(Ok(teams))->Ok_0[i] == (
        #[trigger] teams@[i]).id,
        ids_of(Err(error)) == Err::<Seq<u32>, serde_json::error::Error>(error),
{
}

/// Registering serves the repository by the given pipeline with exactly the
/// teams that were found, without teams where none were asked for, and leaves
/// every other repository and all settings as they were. After a failed lookup
/// everything stays as it was.
pub proof fn registering_serves_what_was_found(
    worker: WorkerModel,
    pipeline_id: PipelineId,
    repo: RepoModel,
    teams: Option<HashSet<u32>>,
    error: LookupError,
    other: RepoModel,
)
    ensures
        ({
            let after = worker.registered(pipeline_id, repo, found_teams(Ok(teams)));
            &&& after.repos.contains_key(repo)
            &&& after.repos[repo].pipeline_id == pipeline_id
            &&& after.repos[repo].teams_with_write is Some <==> teams is Some
            &&& teams is Some ==> after.repos[repo].teams_with_write->0 == teams->0@
            &&& other != repo ==> after.repos.contains_key(other) == worker.repos.contains_key(
                other,
            )
            &&& other != repo ==> after.repos[other] == worker.repos[other]
            &&& after.host == worker.host
            &&& after.authorization == worker.authorization
            &&& after.user_ident == worker.user_ident
        }),
        worker.registered(pipeline_id, repo, found_teams(Err(error))) == worker,
{
}

} // verus!
