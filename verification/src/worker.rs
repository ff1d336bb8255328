//! The front end's settings and the requests that it makes.

use crate::http::{authed_request, AcceptType, ApiRequest, Method, RequestModel};
use crate::pr::{Pr, Repo, RepoModel};
use crate::repos::{ConfigModel, RepoConfig, RepoTable};
use crate::text::{self, decimal_text};
use crate::ui::{Commit, PipelineId};
use crate::{http, repos};
use std::collections::HashSet;
use vstd::prelude::*;

verus! {

/// The front end: where it listens, where GitHub is, which repositories it
/// serves, and as whom.
pub struct Worker {
    listen: String,
    host: String,
    repos: RepoTable,
    authorization: Vec<u8>,
    user_ident: String,
}

/// The front end with its texts as sequences and its repositories as a map.
pub struct WorkerModel {
    pub listen: Seq<char>,
    pub host: Seq<char>,
    pub repos: Map<RepoModel, ConfigModel>,
    pub authorization: Seq<u8>,
    pub user_ident: Seq<char>,
}

impl View for Worker {
    type V = WorkerModel;

    closed spec fn view(&self) -> WorkerModel {
        WorkerModel {
            listen: self.listen@,
            host: self.host@,
            repos: self.repos@,
            authorization: self.authorization@,
            user_ident: self.user_ident@,
        }
    }
}

/// Where GitHub tells whether a user belongs to a team.
pub open spec fn member_url(host: Seq<char>, team: u32, user: Seq<char>) -> Seq<char> {
    host + "/teams/"@ + text::decimal(team as nat) + "/members/"@ + user
}

/// Where GitHub describes a repository.
pub open spec fn repo_url(host: Seq<char>, repo: RepoModel) -> Seq<char> {
    host + "/repos/"@ + repo.owner + "/"@ + repo.repo
}

/// Where GitHub tells whether a user collaborates on a repository.
pub open spec fn collaborator_url(host: Seq<char>, repo: RepoModel, user: Seq<char>) -> Seq<
    char,
> {
    repo_url(host, repo) + "/collaborators/"@ + user
}

/// Where GitHub lists the teams of an organization.
pub open spec fn teams_url(host: Seq<char>, owner: Seq<char>) -> Seq<char> {
    host + "/orgs/"@ + owner + "/teams"@
}

/// Where GitHub tells what a team may do with a repository.
pub open spec fn team_repo_url(host: Seq<char>, team: u32, repo: RepoModel) -> Seq<char> {
    host + "/teams/"@ + text::decimal(team as nat) + "/repos/"@ + repo.owner + "/"@ + repo.repo
}

/// Where GitHub takes comments on a pull request.
pub open spec fn comments_url(host: Seq<char>, repo: RepoModel, pr: u32) -> Seq<char> {
    repo_url(host, repo) + "/issues/"@ + text::decimal(pr as nat) + "/comments"@
}

/// Where GitHub takes the statuses of a commit.
pub open spec fn statuses_url(host: Seq<char>, repo: RepoModel, commit: Seq<char>) -> Seq<char> {
    repo_url(host, repo) + "/statuses/"@ + commit
}

impl WorkerModel {
    /// A request that the front end makes at `url`, with its credentials.
    pub open spec fn request(
        self,
        method: Method,
        accept_type: AcceptType,
        url: Seq<char>,
    ) -> RequestModel {
        http::authed(method, accept_type, url, self.authorization)
    }

    /// The front end after a repository was added, or configured anew.
    pub open spec fn with_repo(self, repo: RepoModel, config: ConfigModel) -> WorkerModel {
        WorkerModel { repos: self.repos.insert(repo, config), ..self }
    }
}

impl Worker {
    /// A front end that serves no repository yet. It answers to `@` and the
    /// name of the user, and authenticates itself by the token.
    pub fn new(listen: String, host: String, token: String, user: String) -> (r: Worker)
        ensures
            r@ == (WorkerModel {
                listen: listen@,
                host: host@,
                repos: Map::empty(),
                authorization: text::utf8("token "@) + text::utf8(token@),
                user_ident: "@"@ + user@,
            }),
    {
        let mut authorization: Vec<u8> = vstd::slice::slice_to_vec("token ".as_bytes());
        authorization.extend_from_slice(token.as_str().as_bytes());
        assert(authorization@ =~= text::utf8("token "@) + text::utf8(token@));
        let mut user_ident = "@".to_owned();
        user_ident.append(user.as_str());
        Worker { listen, host, repos: RepoTable::new(), authorization, user_ident }
    }

    /// Serves a repository from now on, with the pipeline that builds it and,
    /// for a repository of an organization, the teams that may write to it.
    pub fn add_pipeline(
        &mut self,
        pipeline_id: PipelineId,
        repo: Repo,
        teams_with_write: Option<HashSet<u32>>,
    )
        ensures
            final(self)@ == old(self)@.with_repo(
                repo@,
                ConfigModel {
                    pipeline_id,
                    teams_with_write: repos::optional_set(teams_with_write),
                },
            ),
    {
        self.repos.insert(repo, RepoConfig { pipeline_id, teams_with_write });
    }

    /// The address to listen on for GitHub's events.
    pub fn listen(&self) -> (r: &str)
        ensures
            r@ == self@.listen,
    {
        self.listen.as_str()
    }

    /// The text that mentions the front end in a comment.
    pub fn user_ident(&self) -> (r: &str)
        ensures
            r@ == self@.user_ident,
    {
        self.user_ident.as_str()
    }

    /// How a repository is served, if it is.
    pub fn repo_config(&self, repo: &Repo) -> (r: Option<&RepoConfig>)
        ensures
            match r {
                Some(config) => self@.repos.contains_key(repo@) && config@ == self@.repos[repo@],
                None => !self@.repos.contains_key(repo@),
            },
    {
        self.repos.get(repo)
    }

    /// A repository that the given pipeline builds, if there is one. Where one
    /// pipeline builds several, it is one of them.
    pub fn pipeline_repo(&self, pipeline_id: PipelineId) -> (r: Option<&Repo>)
        ensures
            match r {
                Some(repo) => self@.repos.contains_key(repo@) && self@.repos[repo@].pipeline_id
                    == pipeline_id,
                None => forall|repo: RepoModel| #[trigger]
                    self@.repos.contains_key(repo) ==> self@.repos[repo].pipeline_id
                        != pipeline_id,
            },
    {
        self.repos.find_pipeline(pipeline_id)
    }

    /// A request at `url` that carries the front end's credentials.
    pub fn authed_request(&self, method: Method, accept_type: AcceptType, url: String) -> (r:
        ApiRequest)
        ensures
            r@ == self@.request(method, accept_type, url@),
            r.method == method,
            r.url@ == url@,
            r.body is None,
            r.headers@.len() == 3,
            r.headers@[0].value@ == vstd::utf8::encode_utf8(
                match accept_type {
                    AcceptType::Regular => "application/vnd.github.v3+json"@,
                    AcceptType::Repository => "application/vnd.github.v3.repository+json"@,
                },
            ),
            r.headers@[1].value@ == self@.authorization,
    {
        authed_request(method, accept_type, url, &self.authorization)
    }

    /// The request that asks whether a user belongs to a team.
    pub fn member_request(&self, user: &str, team: u32) -> (r: ApiRequest)
        ensures
            r@ == self@.request(
                Method::Get,
                AcceptType::Regular,
                member_url(self@.host, team, user@),
            ),
            r.method == Method::Get,
            r.body is None,
            text::spells(
                r.url@,
                seq![
                    self@.host,
                    "/teams/"@,
                    text::decimal(team as nat),
                    "/members/"@,
                    user@,
                ],
            ),
    {
        proof {
            text::spell_5(
                self@.host,
                "/teams/"@,
                text::decimal(team as nat),
                "/members/"@,
                user@,
            );
        }
        let mut url = self.host.clone();
        url.append("/teams/");
        url.append(decimal_text(team).as_str());
        url.append("/members/");
        url.append(user);
        self.authed_request(Method::Get, AcceptType::Regular, url)
    }

    /// Where GitHub describes a repository.
    fn repo_url(&self, repo: &Repo) -> (r: String)
        ensures
            r@ == repo_url(self@.host, repo@),
    {
        let mut url = self.host.clone();
        url.append("/repos/");
        url.append(repo.owner.as_str());
        url.append("/");
        url.append(repo.repo.as_str());
        url
    }

    /// The request that asks whether a user collaborates on a repository.
    pub fn collaborator_request(&self, user: &str, repo: &Repo) -> (r: ApiRequest)
        ensures
            r@ == self@.request(
                Method::Get,
                AcceptType::Regular,
                collaborator_url(self@.host, repo@, user@),
            ),
            r.method == Method::Get,
            r.body is None,
            text::spells(
                r.url@,
                seq![
                    self@.host,
                    "/repos/"@,
                    repo.owner@,
                    "/"@,
                    repo.repo@,
                    "/collaborators/"@,
                    user@,
                ],
            ),
    {
        proof {
            text::spell_7(
                self@.host,
                "/repos/"@,
                repo.owner@,
                "/"@,
                repo.repo@,
                "/collaborators/"@,
                user@,
            );
        }
        let mut url = self.repo_url(repo);
        url.append("/collaborators/");
        url.append(user);
        self.authed_request(Method::Get, AcceptType::Regular, url)
    }

    /// The request for the description of a repository, which tells whether it
    /// belongs to an organization.
    pub fn repo_request(&self, repo: &Repo) -> (r: ApiRequest)
        ensures
            r@ == self@.request(Method::Get, AcceptType::Regular, repo_url(self@.host, repo@)),
            r.method == Method::Get,
            r.body is None,
            text::spells(
                r.url@,
                seq![
                    self@.host,
                    "/repos/"@,
                    repo.owner@,
                    "/"@,
                    repo.repo@,
                ],
            ),
    {
        proof {
            text::spell_5(
                self@.host,
                "/repos/"@,
                repo.owner@,
                "/"@,
                repo.repo@,
            );
        }
        let url = self.repo_url(repo);
        self.authed_request(Method::Get, AcceptType::Regular, url)
    }

    /// The request for all teams of the organization that owns a repository.
    pub fn teams_request(&self, repo: &Repo) -> (r: ApiRequest)
        ensures
            r@ == self@.request(
                Method::Get,
                AcceptType::Regular,
                teams_url(self@.host, repo@.owner),
            ),
            r.method == Method::Get,
            r.body is None,
            text::spells(
                r.url@,
                seq![
                    self@.host,
                    "/orgs/"@,
                    repo.owner@,
                    "/teams"@,
                ],
            ),
    {
        proof {
            text::spell_4(
                self@.host,
                "/orgs/"@,
                repo.owner@,
                "/teams"@,
            );
        }
        let mut url = self.host.clone();
        url.append("/orgs/");
        url.append(repo.owner.as_str());
        url.append("/teams");
        self.authed_request(Method::Get, AcceptType::Regular, url)
    }

    /// The request for what a team may do with a repository.
    pub fn team_repo_request(&self, team: u32, repo: &Repo) -> (r: ApiRequest)
        ensures
            r@ == self@.request(
                Method::Get,
                AcceptType::Repository,
                team_repo_url(self@.host, team, repo@),
            ),
            r.method == Method::Get,
            r.body is None,
            text::spells(
                r.url@,
                seq![
                    self@.host,
                    "/teams/"@,
                    text::decimal(team as nat),
                    "/repos/"@,
                    repo.owner@,
                    "/"@,
                    repo.repo@,
                ],
            ),
    {
        proof {
            text::spell_7(
                self@.host,
                "/teams/"@,
                text::decimal(team as nat),
                "/repos/"@,
                repo.owner@,
                "/"@,
                repo.repo@,
            );
        }
        let mut url = self.host.clone();
        url.append("/teams/");
        url.append(decimal_text(team).as_str());
        url.append("/repos/");
        url.append(repo.owner.as_str());
        url.append("/");
        url.append(repo.repo.as_str());
        self.authed_request(Method::Get, AcceptType::Repository, url)
    }

    /// Where GitHub takes comments on a pull request.
    pub fn comments_url(&self, repo: &Repo, pr: Pr) -> (r: String)
        ensures
            r@ == comments_url(self@.host, repo@, pr.0),
            text::spells(
                r@,
                seq![
                    self@.host,
                    "/repos/"@,
                    repo.owner@,
                    "/"@,
                    repo.repo@,
                    "/issues/"@,
                    text::decimal(pr.0 as nat),
                    "/comments"@,
                ],
            ),
    {
        proof {
            text::spell_8(
                self@.host,
                "/repos/"@,
                repo.owner@,
                "/"@,
                repo.repo@,
                "/issues/"@,
                text::decimal(pr.0 as nat),
                "/comments"@,
            );
        }
        let mut url = self.repo_url(repo);
        url.append("/issues/");
        url.append(pr.to_string().as_str());
        url.append("/comments");
        url
    }

    /// Where GitHub takes the statuses of a commit.
    pub fn statuses_url(&self, repo: &Repo, commit: &Commit) -> (r: String)
        ensures
            r@ == statuses_url(self@.host, repo@, commit@),
            text::spells(
                r@,
                seq![
                    self@.host,
                    "/repos/"@,
                    repo.owner@,
                    "/"@,
                    repo.repo@,
                    "/statuses/"@,
                    commit.0@,
                ],
            ),
    {
        proof {
            text::spell_7(
                self@.host,
                "/repos/"@,
                repo.owner@,
                "/"@,
                repo.repo@,
                "/statuses/"@,
                commit.0@,
            );
        }
        let mut url = self.repo_url(repo);
        url.append("/statuses/");
        url.append(commit.0.as_str());
        url
    }
}

/// Once a repository was added, it is served as it was last added, and every
/// other repository is served as before.
pub proof fn added_repo_is_served(
    worker: WorkerModel,
    repo: RepoModel,
    config: ConfigModel,
    other: RepoModel,
)
    ensures
        worker.with_repo(repo, config).repos.contains_key(repo),
        worker.with_repo(repo, config).repos[repo] == config,
        other != repo ==> {
            &&& worker.with_repo(repo, config).repos.contains_key(other)
                == worker.repos.contains_key(other)
            &&& worker.repos.contains_key(other) ==> worker.with_repo(repo, config).repos[other]
                == worker.repos[other]
        },
{
}

/// Adding a repository changes nothing but the repositories.
pub proof fn adding_keeps_settings(worker: WorkerModel, repo: RepoModel, config: ConfigModel)
    ensures
        worker.with_repo(repo, config).listen == worker.listen,
        worker.with_repo(repo, config).host == worker.host,
        worker.with_repo(repo, config).authorization == worker.authorization,
        worker.with_repo(repo, config).user_ident == worker.user_ident,
{
}

/// Adding a repository a second time makes the first time as if it had not
/// been.
pub proof fn last_added_counts(
    worker: WorkerModel,
    repo: RepoModel,
    first: ConfigModel,
    second: ConfigModel,
)
    ensures
        worker.with_repo(repo, first).with_repo(repo, second) == worker.with_repo(repo, second),
{
    assert(worker.repos.insert(repo, first).insert(repo, second) =~= worker.repos.insert(
        repo,
        second,
    ));
}

/// In which order two different repositories are added does not matter.
pub proof fn adding_order_is_irrelevant(
    worker: WorkerModel,
    a: RepoModel,
    config_a: ConfigModel,
    b: RepoModel,
    config_b: ConfigModel,
)
    requires
        a != b,
    ensures
        worker.with_repo(a, config_a).with_repo(b, config_b) == worker.with_repo(
            b,
            config_b,
        ).with_repo(a, config_a),
{
    assert(worker.repos.insert(a, config_a).insert(b, config_b) =~= worker.repos.insert(
        b,
        config_b,
    ).insert(a, config_a));
}

/// Whether an address is at the host: it begins with the host, and a slash
/// ends the host's name.
pub open spec fn at_host(host: Seq<char>, url: Seq<char>) -> bool {
    (host + "/"@).is_prefix_of(url)
}

/// Whether a request is one that the front end may make: it goes to the host
/// that GitHub is at, and carries the front end's credentials.
pub open spec fn proper_request(worker: WorkerModel, request: RequestModel) -> bool {
    &&& at_host(worker.host, request.url)
    &&& exists|accept_type: AcceptType|
        request.headers == #[trigger] http::authed_headers(accept_type, worker.authorization)
}

/// Every address that the front end uses is at the host.
pub proof fn addresses_are_at_the_host(
    host: Seq<char>,
    repo: RepoModel,
    team: u32,
    user: Seq<char>,
    pr: u32,
    commit: Seq<char>,
)
    ensures
        at_host(host, member_url(host, team, user)),
        at_host(host, repo_url(host, repo)),
        at_host(host, collaborator_url(host, repo, user)),
        at_host(host, teams_url(host, repo.owner)),
        at_host(host, team_repo_url(host, team, repo)),
        at_host(host, comments_url(host, repo, pr)),
        at_host(host, statuses_url(host, repo, commit)),
{
    reveal_strlit("/");
    reveal_strlit("/teams/");
    reveal_strlit("/repos/");
    reveal_strlit("/orgs/");
    let base = host + "/"@;
    let n = base.len() as int;
    assert(member_url(host, team, user).subrange(0, n) =~= base);
    assert(repo_url(host, repo).subrange(0, n) =~= base);
    assert(collaborator_url(host, repo, user).subrange(0, n) =~= base);
    assert(teams_url(host, repo.owner).subrange(0, n) =~= base);
    assert(team_repo_url(host, team, repo).subrange(0, n) =~= base);
    assert(comments_url(host, repo, pr).subrange(0, n) =~= base);
    assert(statuses_url(host, repo, commit).subrange(0, n) =~= base);
}

/// Every request carries the method and the address that it is made with, and
/// the front end's own credentials, and has no body.
pub proof fn requests_carry_the_credentials(
    worker: WorkerModel,
    method: Method,
    accept_type: AcceptType,
    url: Seq<char>,
)
    ensures
        ({
            let request = worker.request(method, accept_type, url);
            &&& request.method == method
            &&& request.url == url
            &&& request.body is None
            &&& request.headers.len() == 3
            &&& request.headers[0].name == "Accept"@
            &&& vstd::utf8::decode_utf8(request.headers[0].value) == (match accept_type {
                AcceptType::Regular => "application/vnd.github.v3+json"@,
                AcceptType::Repository => "application/vnd.github.v3.repository+json"@,
            })
            &&& request.headers[1].name == "Authorization"@
            &&& request.headers[1].value == worker.authorization
        }),
{
    http::requests_carry_what_they_should(method, accept_type, url, worker.authorization);
}

/// What the addresses consist of, character by character.
pub proof fn addresses_spelled_out(
    host: Seq<char>,
    repo: RepoModel,
    team: u32,
    user: Seq<char>,
    pr: u32,
    commit: Seq<char>,
)
    ensures
        text::spells(
            member_url(host, team, user),
            seq![host, "/teams/"@, text::decimal(team as nat), "/members/"@, user],
        ),
        text::spells(
            repo_url(host, repo),
            seq![host, "/repos/"@, repo.owner, "/"@, repo.repo],
        ),
        text::spells(
            collaborator_url(host, repo, user),
            seq![host, "/repos/"@, repo.owner, "/"@, repo.repo, "/collaborators/"@, user],
        ),
        text::spells(
            teams_url(host, repo.owner),
            seq![host, "/orgs/"@, repo.owner, "/teams"@],
        ),
        text::spells(
            team_repo_url(host, team, repo),
            seq![host, "/teams/"@, text::decimal(team as nat), "/repos/"@, repo.owner, "/"@, repo.repo],
        ),
        text::spells(
            comments_url(host, repo, pr),
            seq![host, "/repos/"@, repo.owner, "/"@, repo.repo, "/issues/"@, text::decimal(pr as nat), "/comments"@],
        ),
        text::spells(
            statuses_url(host, repo, commit),
            seq![host, "/repos/"@, repo.owner, "/"@, repo.repo, "/statuses/"@, commit],
        ),
{
    text::spell_5(host, "/teams/"@, text::decimal(team as nat), "/members/"@, user);
    text::spell_5(host, "/repos/"@, repo.owner, "/"@, repo.repo);
    text::spell_7(host, "/repos/"@, repo.owner, "/"@, repo.repo, "/collaborators/"@, user);
    text::spell_4(host, "/orgs/"@, repo.owner, "/teams"@);
    text::spell_7(host, "/teams/"@, text::decimal(team as nat), "/repos/"@, repo.owner, "/"@, repo.repo);
    text::spell_8(host, "/repos/"@, repo.owner, "/"@, repo.repo, "/issues/"@, text::decimal(pr as nat), "/comments"@);
    text::spell_7(host, "/repos/"@, repo.owner, "/"@, repo.repo, "/statuses/"@, commit);
}

/// The address of a question about a user ends with the user's whole name,
/// however long it is, behind the word that says what is asked.
pub proof fn questions_end_with_the_whole_name(
    host: Seq<char>,
    repo: RepoModel,
    team: u32,
    user: Seq<char>,
)
    ensures
        ("/collaborators/"@ + user).is_suffix_of(collaborator_url(host, repo, user)),
        ("/members/"@ + user).is_suffix_of(member_url(host, team, user)),
{
    let a = collaborator_url(host, repo, user);
    let x = "/collaborators/"@ + user;
    assert(a.subrange(a.len() - x.len(), a.len() as int) =~= x);
    let b = member_url(host, team, user);
    let y = "/members/"@ + user;
    assert(b.subrange(b.len() - y.len(), b.len() as int) =~= y);
}

/// Different users are asked about at different addresses.
pub proof fn different_users_have_different_addresses(
    host: Seq<char>,
    repo: RepoModel,
    team: u32,
    a: Seq<char>,
    b: Seq<char>,
)
    requires
        a != b,
    ensures
        collaborator_url(host, repo, a) != collaborator_url(host, repo, b),
        member_url(host, team, a) != member_url(host, team, b),
{
    let n = repo_url(host, repo).len() + "/collaborators/"@.len();
    assert(collaborator_url(host, repo, a).skip(n as int) =~= a);
    assert(collaborator_url(host, repo, b).skip(n as int) =~= b);
    let m = (host + "/teams/"@ + text::decimal(team as nat) + "/members/"@).len();
    assert(member_url(host, team, a).skip(m as int) =~= a);
    assert(member_url(host, team, b).skip(m as int) =~= b);
}

/// Different teams are asked about at different addresses.
pub proof fn different_teams_have_different_addresses(
    host: Seq<char>,
    repo: RepoModel,
    user: Seq<char>,
    a: u32,
    b: u32,
)
    requires
        a != b,
    ensures
        member_url(host, a, user) != member_url(host, b, user),
        team_repo_url(host, a, repo) != team_repo_url(host, b, repo),
{
    let da = text::decimal(a as nat);
    let db = text::decimal(b as nat);
    let n = (host + "/teams/"@).len() as int;
    text::decimals_differ(a as nat, b as nat);
    assert(member_url(host, a, user).subrange(n, n + da.len()) =~= da);
    assert(member_url(host, b, user).subrange(n, n + db.len()) =~= db);
    assert(team_repo_url(host, a, repo).subrange(n, n + da.len()) =~= da);
    assert(team_repo_url(host, b, repo).subrange(n, n + db.len()) =~= db);
}

/// Comments on different pull requests, and the statuses of different commits,
/// go to different addresses.
pub proof fn different_reports_have_different_addresses(
    host: Seq<char>,
    repo: RepoModel,
    a: u32,
    b: u32,
    x: Seq<char>,
    y: Seq<char>,
)
    ensures
        a != b ==> comments_url(host, repo, a) != comments_url(host, repo, b),
        x != y ==> statuses_url(host, repo, x) != statuses_url(host, repo, y),
{
    if a != b {
        let da = text::decimal(a as nat);
        let db = text::decimal(b as nat);
        let n = (repo_url(host, repo) + "/issues/"@).len() as int;
        text::decimals_differ(a as nat, b as nat);
        assert(comments_url(host, repo, a).subrange(n, n + da.len()) =~= da);
        assert(comments_url(host, repo, b).subrange(n, n + db.len()) =~= db);
    }
    let n = (repo_url(host, repo) + "/statuses/"@).len() as int;
    assert(statuses_url(host, repo, x).skip(n) =~= x);
    assert(statuses_url(host, repo, y).skip(n) =~= y);
}

} // verus!
