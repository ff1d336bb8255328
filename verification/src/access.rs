//! Whether a user may give commands for a repository.
//!
//! The check asks GitHub one question after the other and decides after each
//! reply whether to go on. Whoever runs it sends the request of the question
//! at hand and hands back the reply: the status of the response, or why there
//! is none.

use crate::error::GithubRequestError;
use crate::http::{self, read_membership, ApiRequest, RequestModel};
use crate::pr::{Repo, RepoModel};
use crate::repos::{ConfigModel, RepoConfig};
use crate::text;
use crate::worker::{self, Worker, WorkerModel};
use std::collections::{HashSet, VecDeque};
use vstd::prelude::*;

verus! {

broadcast use vstd::std_specs::hash::group_hash_axioms;

/// The question at hand, and those that may follow.
#[derive(Debug)]
pub enum PermissionCheck {
    /// Does the user belong to the team? If not, the rest of the teams follow.
    Member { user: String, team: u32, rest: VecDeque<u32> },
    /// Does the user collaborate on the repository?
    Collaborator { user: String, repo: Repo },
}

/// How far the check has come.
#[derive(Debug)]
pub enum PermissionStep {
    /// A question is to be asked.
    Ask(PermissionCheck),
    /// Whether the user has permission, or why that could not be found out.
    Decided(Result<bool, GithubRequestError>),
}

/// How far the check has come, with texts and teams as sequences.
pub enum PermissionModel {
    Member { user: Seq<char>, team: u32, rest: Seq<u32> },
    Collaborator { user: Seq<char>, repo: RepoModel },
    Decided(Result<bool, GithubRequestError>),
}

impl View for PermissionCheck {
    type V = PermissionModel;

    open spec fn view(&self) -> PermissionModel {
        match *self {
            PermissionCheck::Member { user, team, rest } => PermissionModel::Member {
                user: user@,
                team,
                rest: rest@,
            },
            PermissionCheck::Collaborator { user, repo } => PermissionModel::Collaborator {
                user: user@,
                repo: repo@,
            },
        }
    }
}

impl View for PermissionStep {
    type V = PermissionModel;

    open spec fn view(&self) -> PermissionModel {
        match *self {
            PermissionStep::Ask(check) => check@,
            PermissionStep::Decided(result) => PermissionModel::Decided(result),
        }
    }
}

impl PermissionModel {
    /// The check of a user against teams, in the given order. Without teams
    /// nobody has permission.
    pub open spec fn of_teams(user: Seq<char>, teams: Seq<u32>) -> PermissionModel {
        if teams.len() == 0 {
            PermissionModel::Decided(Ok(false))
        } else {
            PermissionModel::Member { user, team: teams[0], rest: teams.skip(1) }
        }
    }

    /// The check of a user for a repository: for one of an organization,
    /// against the teams that may write to it, in ascending order; for any
    /// other, as a collaborator.
    pub open spec fn start(user: Seq<char>, repo: RepoModel, config: ConfigModel) -> PermissionModel {
        match config.teams_with_write {
            Some(teams) => PermissionModel::of_teams(user, ascending(teams)),
            None => PermissionModel::Collaborator { user, repo },
        }
    }

    /// The request of the question at hand.
    pub open spec fn request(self, worker: WorkerModel) -> Option<RequestModel> {
        match self {
            PermissionModel::Member { user, team, .. } => Some(
                worker.request(
                    http::Method::Get,
                    http::AcceptType::Regular,
                    worker::member_url(worker.host, team, user),
                ),
            ),
            PermissionModel::Collaborator { user, repo } => Some(
                worker.request(
                    http::Method::Get,
                    http::AcceptType::Regular,
                    worker::collaborator_url(worker.host, repo, user),
                ),
            ),
            PermissionModel::Decided(_) => None,
        }
    }

    /// How far the check has come after the reply. A yes and an error decide
    /// it; a no decides it only if no team is left.
    pub open spec fn after(self, reply: Result<u16, hyper::error::Error>) -> PermissionModel {
        match (self, http::membership(reply)) {
            (PermissionModel::Member { user, rest, .. }, Ok(false)) => PermissionModel::of_teams(
                user,
                rest,
            ),
            (PermissionModel::Decided(result), _) => self,
            (_, answer) => PermissionModel::Decided(answer),
        }
    }

    /// How many questions may still be asked.
    pub open spec fn questions(self) -> nat {
        match self {
            PermissionModel::Member { rest, .. } => rest.len() + 1,
            PermissionModel::Collaborator { .. } => 1,
            PermissionModel::Decided(_) => 0,
        }
    }

    /// Where the check ends if the replies come in this order.
    pub open spec fn run(self, replies: Seq<Result<u16, hyper::error::Error>>) -> PermissionModel
        decreases replies.len(),
    {
        if self is Decided || replies.len() == 0 {
            self
        } else {
            self.after(replies[0]).run(replies.skip(1))
        }
    }
}

/// The check of a user against teams, in the given order.
fn ask_teams(user: String, teams: VecDeque<u32>) -> (r: PermissionStep)
    ensures
        r@ == PermissionModel::of_teams(user@, teams@),
{
    let mut rest = teams;
    match rest.pop_front() {
        Some(team) => {
            assert(rest@ =~= teams@.skip(1));
            PermissionStep::Ask(PermissionCheck::Member { user, team, rest })
        },
        None => PermissionStep::Decided(Ok(false)),
    }
}

/// The members of a set below `n`, in ascending order.
pub open spec fn ascending_below(teams: Set<u32>, n: nat) -> Seq<u32>
    decreases n,
{
    if n == 0 {
        Seq::empty()
    } else {
        let before = ascending_below(teams, (n - 1) as nat);
        if teams.contains((n - 1) as u32) {
            before.push((n - 1) as u32)
        } else {
            before
        }
    }
}

/// The members of a set, in ascending order.
pub open spec fn ascending(teams: Set<u32>) -> Seq<u32> {
    ascending_below(teams, u32::MAX as nat + 1)
}

/// Whether every number is less than those after it.
pub open spec fn increasing(order: Seq<u32>) -> bool {
    forall|i: int, j: int| 0 <= i < j < order.len() ==> order[i] < order[j]
}

/// The members of a set below a bound stand in order, each once, and no others
/// do.
proof fn ascending_below_lists(teams: Set<u32>, n: nat)
    requires
        n <= u32::MAX + 1,
    ensures
        increasing(ascending_below(teams, n)),
        forall|team: u32| #[trigger]
            ascending_below(teams, n).contains(team) <==> teams.contains(team) && team < n,
    decreases n,
{
    if n > 0 {
        let before = ascending_below(teams, (n - 1) as nat);
        let all = ascending_below(teams, n);
        let last = (n - 1) as u32;
        ascending_below_lists(teams, (n - 1) as nat);
        assert forall|i: int, j: int| 0 <= i < j < all.len() implies all[i] < all[j] by {
            assert(before.contains(before[i]));
        }
        assert forall|team: u32| #[trigger]
            all.contains(team) <==> teams.contains(team) && team < n by {
            if before.contains(team) {
                let i = before.index_of(team);
                assert(all[i] == team);
            }
            if teams.contains(last) && team == last {
                assert(all[all.len() - 1] == team);
            }
            if all.contains(team) {
                let i = all.index_of(team);
                if i < before.len() {
                    assert(before[i] == team);
                }
            }
        }
    }
}

/// The ascending order of a set holds its members, each once.
pub proof fn ascending_lists(teams: Set<u32>)
    ensures
        increasing(ascending(teams)),
        ascending(teams).no_duplicates(),
        ascending(teams).to_set() == teams,
{
    ascending_below_lists(teams, u32::MAX as nat + 1);
    assert forall|team: u32| ascending(teams).to_set().contains(team) == teams.contains(team) by {
        assert(ascending(teams).contains(team) <==> teams.contains(team));
    }
    assert(ascending(teams).to_set() =~= teams);
}

/// Two increasing sequences with the same members are the same.
proof fn increasing_is_unique(a: Seq<u32>, b: Seq<u32>)
    requires
        increasing(a),
        increasing(b),
        forall|team: u32| a.contains(team) == b.contains(team),
    ensures
        a == b,
    decreases a.len(),
{
    if a.len() == 0 {
        if b.len() > 0 {
            assert(b.contains(b[0]));
        }
        assert(a =~= b);
    } else {
        assert(a.contains(a.last()));
        let i = b.index_of(a.last());
        assert(b.contains(b.last()));
        let j = a.index_of(b.last());
        assert(a.last() == b.last());
        let x = a.drop_last();
        let y = b.drop_last();
        assert forall|team: u32| x.contains(team) == y.contains(team) by {
            if x.contains(team) {
                let k = x.index_of(team);
                assert(a[k] == team);
                assert(b.contains(team));
                let l = b.index_of(team);
                assert(y[l] == team);
            }
            if y.contains(team) {
                let k = y.index_of(team);
                assert(b[k] == team);
                assert(a.contains(team));
                let l = a.index_of(team);
                assert(x[l] == team);
            }
        }
        increasing_is_unique(x, y);
        assert(a =~= x.push(a.last()));
        assert(b =~= y.push(b.last()));
    }
}

/// Puts a team that is not there yet at its place among teams in order.
fn put_in_order(order: &mut Vec<u32>, team: u32)
    requires
        increasing(old(order)@),
        !old(order)@.contains(team),
    ensures
        increasing(final(order)@),
        forall|t: u32| #[trigger]
            final(order)@.contains(t) <==> old(order)@.contains(t) || t == team,
{
    let ghost before = order@;
    let mut i: usize = 0;
    while i < order.len() && order[i] < team
        invariant
            order@ == before,
            increasing(before),
            i <= order.len(),
            forall|k: int| 0 <= k < i ==> before[k] < team,
        decreases order.len() - i,
    {
        i = i + 1;
    }
    if i < order.len() {
        assert(before.contains(before[i as int]));
    }
    order.insert(i, team);
    proof {
        let after = order@;
        assert(after == before.insert(i as int, team));
        assert(after[i as int] == team);
        assert forall|t: u32| #[trigger] after.contains(t) <==> before.contains(t) || t == team by {
            if before.contains(t) {
                let k = before.index_of(t);
                assert(after[if k < i { k } else { k + 1 }] == t);
            }
            if after.contains(t) {
                let k = after.index_of(t);
                if k < i {
                    assert(before[k] == t);
                } else if k > i {
                    assert(before[k - 1] == t);
                }
            }
        }
    }
}

/// The teams of a set, in ascending order.
fn in_order(teams: &HashSet<u32>) -> (r: VecDeque<u32>)
    ensures
        r@ == ascending(teams@),
{
    let mut sorted: Vec<u32> = Vec::new();
    let ghost walk = vstd::std_specs::iter::IteratorSpec::remaining(&teams.iter()).unref();
    for team in it: teams.iter()
        invariant
            it.seq().unref() == walk,
            walk.no_duplicates(),
            increasing(sorted@),
            forall|t: u32| #[trigger]
                sorted@.contains(t) <==> walk.take(it.index()).contains(t),
    {
        let ghost n = it.index();
        assert(*team == walk[n]);
        assert(!walk.take(n).contains(*team));
        put_in_order(&mut sorted, *team);
        assert(walk.take(n + 1) =~= walk.take(n).push(walk[n]));
        assert forall|t: u32| #[trigger] sorted@.contains(t) <==> walk.take(n + 1).contains(t) by {
            if walk.take(n).contains(t) {
                let k = walk.take(n).index_of(t);
                assert(walk.take(n + 1)[k] == t);
            }
            if t == walk[n] {
                assert(walk.take(n + 1)[n] == t);
            }
            if walk.take(n + 1).contains(t) {
                let k = walk.take(n + 1).index_of(t);
                if k < n {
                    assert(walk.take(n)[k] == t);
                }
            }
        }
    }
    proof {
        assert(walk.take(walk.len() as int) =~= walk);
        ascending_lists(teams@);
        assert forall|t: u32| sorted@.contains(t) == ascending(teams@).contains(t) by {
            assert(walk.to_set().contains(t) == teams@.contains(t));
            assert(ascending(teams@).to_set().contains(t) == teams@.contains(t));
        }
        increasing_is_unique(sorted@, ascending(teams@));
    }
    let mut r: VecDeque<u32> = VecDeque::new();
    let mut i: usize = 0;
    while i < sorted.len()
        invariant
            i <= sorted.len(),
            r@ == sorted@.take(i as int),
        decreases sorted.len() - i,
    {
        r.push_back(sorted[i]);
        i = i + 1;
        assert(r@ =~= sorted@.take(i as int));
    }
    assert(r@ =~= sorted@);
    r
}

impl Worker {
    /// Starts the check whether a user may give commands for a repository. For
    /// a repository of an organization, belonging to one of the teams that may
    /// write to it is asked for, team by team, in ascending order; for any other,
    /// being a collaborator.
    pub fn user_has_write(&self, user: &str, repo: &Repo, repo_config: &RepoConfig) -> (r:
        PermissionStep)
        ensures
            r@ == PermissionModel::start(user@, repo@, repo_config@),
            match repo_config.teams_with_write {
                None => r matches PermissionStep::Ask(
                    PermissionCheck::Collaborator { user: asked, repo: about },
                ) && asked@ == user@ && about.owner@ == repo.owner@ && about.repo@ == repo.repo@,
                Some(teams) => if teams@.is_empty() {
                    r == PermissionStep::Decided(Ok(false))
                } else {
                    r matches PermissionStep::Ask(
                        PermissionCheck::Member { user: asked, team, rest },
                    ) && asked@ == user@ && (forall|t: u32| #[trigger]
                        teams@.contains(t) <==> t == team || rest@.contains(t))
                },
            },
    {
        proof {
            check_begins_as_it_should(user@, repo@, repo_config@);
        }
        match &repo_config.teams_with_write {
            Some(teams) => {
                let order = in_order(teams);
                ask_teams(user.to_owned(), order)
            },
            None => PermissionStep::Ask(
                PermissionCheck::Collaborator { user: user.to_owned(), repo: repo.clone() },
            ),
        }
    }
}

impl PermissionCheck {
    /// The request of the question at hand.
    pub fn request(&self, worker: &Worker) -> (r: ApiRequest)
        ensures
            Some(r@) == self@.request(worker@),
            r.method == http::Method::Get,
            r.body is None,
            match *self {
                PermissionCheck::Member { user, team, .. } => text::spells(
                    r.url@,
                    seq![
                        worker@.host,
                        "/teams/"@,
                        text::decimal(team as nat),
                        "/members/"@,
                        user@,
                    ],
                ),
                PermissionCheck::Collaborator { user, repo } => text::spells(
                    r.url@,
                    seq![
                        worker@.host,
                        "/repos/"@,
                        repo.owner@,
                        "/"@,
                        repo.repo@,
                        "/collaborators/"@,
                        user@,
                    ],
                ),
            },
    {
        match self {
            PermissionCheck::Member { user, team, .. } => worker.member_request(
                user.as_str(),
                *team,
            ),
            PermissionCheck::Collaborator { user, repo } => worker.collaborator_request(
                user.as_str(),
                repo,
            ),
        }
    }

    /// Goes on with the reply to the question at hand.
    pub fn reply(self, reply: Result<u16, hyper::error::Error>) -> (r: PermissionStep)
        ensures
            r@ == self@.after(reply),
            match reply {
                Ok(code) => if 200 <= code <= 299 {
                    r == PermissionStep::Decided(Ok(true))
                } else if code == 404 {
                    match self {
                        PermissionCheck::Member { user, rest, .. } => if rest@.len() == 0 {
                            r == PermissionStep::Decided(Ok(false))
                        } else {
                            r matches PermissionStep::Ask(
                                PermissionCheck::Member { user: asked, team: next, rest: left },
                            ) && asked@ == user@ && next == rest@[0] && left@ == rest@.skip(1)
                        },
                        PermissionCheck::Collaborator { .. } => r == PermissionStep::Decided(
                            Ok(false),
                        ),
                    }
                } else {
                    r == PermissionStep::Decided(Err(GithubRequestError::HttpStatus(code)))
                },
                Err(e) => r == PermissionStep::Decided(Err(GithubRequestError::Http(e))),
            },
    {
        match read_membership(reply) {
            Ok(false) => match self {
                PermissionCheck::Member { user, rest, .. } => ask_teams(user, rest),
                PermissionCheck::Collaborator { .. } => PermissionStep::Decided(Ok(false)),
            },
            answer => PermissionStep::Decided(answer),
        }
    }
}

/// Whether the first `n` replies all say no.
pub open spec fn all_no(replies: Seq<Result<u16, hyper::error::Error>>, n: int) -> bool {
    forall|i: int|
        0 <= i < n ==> http::membership(#[trigger] replies[i]) == Ok::<bool, GithubRequestError>(
            false,
        )
}

/// As long as every team says no, the teams are asked one after the other:
/// after `n` times no, those from the `n`-th on are left.
pub proof fn teams_are_asked_in_turn(
    user: Seq<char>,
    order: Seq<u32>,
    replies: Seq<Result<u16, hyper::error::Error>>,
    n: int,
)
    requires
        0 <= n <= order.len(),
        n <= replies.len(),
        all_no(replies, n),
    ensures
        PermissionModel::of_teams(user, order).run(replies.take(n)) == PermissionModel::of_teams(
            user,
            order.skip(n),
        ),
    decreases n,
{
    if n == 0 {
        assert(order.skip(0) =~= order);
        assert(replies.take(0).len() == 0);
    } else {
        let rest = replies.skip(1);
        assert forall|i: int| 0 <= i < n - 1 implies http::membership(#[trigger] rest[i]) == Ok::<
            bool,
            GithubRequestError,
        >(false) by {
            assert(rest[i] == replies[i + 1]);
        }
        teams_are_asked_in_turn(user, order.skip(1), rest, n - 1);
        assert(replies.take(n)[0] == replies[0]);
        assert(replies.take(n).skip(1) =~= rest.take(n - 1));
        assert(order.skip(1).skip(n - 1) =~= order.skip(n));
    }
}

/// Replies that come one after the other can be handed over in two parts.
proof fn run_in_two_parts(
    check: PermissionModel,
    replies: Seq<Result<u16, hyper::error::Error>>,
    n: int,
)
    requires
        0 <= n <= replies.len(),
    ensures
        check.run(replies) == check.run(replies.take(n)).run(replies.skip(n)),
    decreases n,
{
    if n == 0 {
        assert(replies.skip(0) =~= replies);
        assert(replies.take(0).len() == 0);
    } else if !(check is Decided) {
        run_in_two_parts(check.after(replies[0]), replies.skip(1), n - 1);
        assert(replies.take(n)[0] == replies[0]);
        assert(replies.take(n).skip(1) =~= replies.skip(1).take(n - 1));
        assert(replies.skip(1).skip(n - 1) =~= replies.skip(n));
    }
}

/// The first reply that is not a no decides: a yes gives permission, an error
/// ends the check with that error, and no later team matters.
pub proof fn first_other_reply_decides(
    user: Seq<char>,
    order: Seq<u32>,
    replies: Seq<Result<u16, hyper::error::Error>>,
    n: int,
)
    requires
        0 <= n < order.len(),
        n < replies.len(),
        all_no(replies, n),
        http::membership(replies[n]) != Ok::<bool, GithubRequestError>(false),
    ensures
        PermissionModel::of_teams(user, order).run(replies) == PermissionModel::Decided(
            http::membership(replies[n]),
        ),
{
    let check = PermissionModel::of_teams(user, order);
    teams_are_asked_in_turn(user, order, replies, n);
    run_in_two_parts(check, replies, n);
    let left = PermissionModel::of_teams(user, order.skip(n));
    assert(replies.skip(n)[0] == replies[n]);
    let decided = PermissionModel::Decided(http::membership(replies[n]));
    assert(left.after(replies[n]) == decided);
    assert(decided.run(replies.skip(n).skip(1)) == decided);
}

/// If every team says no, there is no permission.
pub proof fn no_team_no_permission(
    user: Seq<char>,
    order: Seq<u32>,
    replies: Seq<Result<u16, hyper::error::Error>>,
)
    requires
        replies.len() >= order.len(),
        all_no(replies, order.len() as int),
    ensures
        PermissionModel::of_teams(user, order).run(replies) == PermissionModel::Decided(
            Ok::<bool, GithubRequestError>(false),
        ),
{
    let n = order.len() as int;
    teams_are_asked_in_turn(user, order, replies, n);
    run_in_two_parts(PermissionModel::of_teams(user, order), replies, n);
}

/// The check ends: it asks no more questions than it announces.
pub proof fn check_ends(check: PermissionModel, replies: Seq<Result<u16, hyper::error::Error>>)
    requires
        replies.len() >= check.questions(),
    ensures
        check.run(replies) is Decided,
    decreases check.questions(),
{
    if !(check is Decided) {
        check_ends(check.after(replies[0]), replies.skip(1));
    }
}

impl PermissionModel {
    /// Where the check ends if GitHub's replies about the teams and about being
    /// a collaborator are these.
    pub open spec fn answered(
        self,
        members: spec_fn(u32) -> Result<u16, hyper::error::Error>,
        collaborator: Result<u16, hyper::error::Error>,
    ) -> Result<bool, GithubRequestError>
        decreases self.questions(),
    {
        match self {
            PermissionModel::Member { team, .. } => self.after(members(team)).answered(
                members,
                collaborator,
            ),
            PermissionModel::Collaborator { .. } => self.after(collaborator).answered(
                members,
                collaborator,
            ),
            PermissionModel::Decided(result) => result,
        }
    }
}

/// Whether GitHub says yes for one of the teams.
pub open spec fn some_yes(
    teams: Set<u32>,
    members: spec_fn(u32) -> Result<u16, hyper::error::Error>,
) -> bool {
    exists|team: u32|
        #![trigger teams.contains(team)]
        teams.contains(team) && http::membership(members(team)) == Ok::<bool, GithubRequestError>(
            true,
        )
}

/// If GitHub answers for every team, a user has permission exactly if they
/// belong to one of the teams, in whatever order the teams are asked.
pub proof fn order_of_teams_is_irrelevant(
    user: Seq<char>,
    teams: Set<u32>,
    order: Seq<u32>,
    members: spec_fn(u32) -> Result<u16, hyper::error::Error>,
    collaborator: Result<u16, hyper::error::Error>,
)
    requires
        order.to_set() == teams,
        forall|team: u32| #[trigger]
            teams.contains(team) ==> http::membership(members(team)) is Ok,
    ensures
        PermissionModel::of_teams(user, order).answered(members, collaborator) == Ok::<
            bool,
            GithubRequestError,
        >(some_yes(teams, members)),
    decreases order.len(),
{
    if order.len() == 0 {
        assert forall|team: u32| !teams.contains(team) by {
            assert(!order.contains(team));
        }
    } else {
        let first = order[0];
        let rest = order.skip(1);
        assert(order.to_set().contains(first));
        assert forall|team: u32|
            teams.contains(team) == (team == first || rest.to_set().contains(team)) by {
            if order.contains(team) {
                let i = order.index_of(team);
                if i > 0 {
                    assert(rest[i - 1] == team);
                }
            }
            if rest.contains(team) {
                let i = rest.index_of(team);
                assert(order[i + 1] == team);
            }
        }
        assert forall|team: u32| #[trigger] rest.to_set().contains(team) implies http::membership(
            members(team),
        ) is Ok by {
            assert(teams.contains(team));
        }
        order_of_teams_is_irrelevant(user, rest.to_set(), rest, members, collaborator);
        if some_yes(rest.to_set(), members) {
            let team = choose|team: u32|
                #![trigger rest.to_set().contains(team)]
                rest.to_set().contains(team) && http::membership(members(team)) == Ok::<
                    bool,
                    GithubRequestError,
                >(true);
            assert(teams.contains(team));
        }
        if some_yes(teams, members) {
            let team = choose|team: u32|
                #![trigger teams.contains(team)]
                teams.contains(team) && http::membership(members(team)) == Ok::<
                    bool,
                    GithubRequestError,
                >(true);
            if team != first {
                assert(rest.to_set().contains(team));
            }
        }
        let answer = http::membership(members(first));
        assert(answer is Ok);
        if answer == Ok::<bool, GithubRequestError>(true) {
            assert(teams.contains(first));
            let decided = PermissionModel::Decided(answer);
            assert(decided.answered(members, collaborator) == answer);
        }
    }
}

/// Nobody gets permission unless GitHub says yes to one of the questions.
pub proof fn permission_needs_a_yes(
    check: PermissionModel,
    replies: Seq<Result<u16, hyper::error::Error>>,
)
    requires
        check != PermissionModel::Decided(Ok::<bool, GithubRequestError>(true)),
        check.run(replies) == PermissionModel::Decided(Ok::<bool, GithubRequestError>(true)),
    ensures
        exists|i: int|
            0 <= i < replies.len() && http::membership(#[trigger] replies[i]) == Ok::<
                bool,
                GithubRequestError,
            >(true),
    decreases replies.len(),
{
    if !(check is Decided) && replies.len() > 0 {
        let next = check.after(replies[0]);
        if next == PermissionModel::Decided(Ok::<bool, GithubRequestError>(true)) {
            assert(http::membership(replies[0]) == Ok::<bool, GithubRequestError>(true));
        } else {
            permission_needs_a_yes(next, replies.skip(1));
            let i = choose|i: int|
                0 <= i < replies.skip(1).len() && http::membership(#[trigger] replies.skip(1)[i])
                    == Ok::<bool, GithubRequestError>(true);
            assert(replies[i + 1] == replies.skip(1)[i]);
        }
    }
}

/// Every question of a check is a proper request.
pub proof fn questions_are_proper(
    worker: WorkerModel,
    check: PermissionModel,
    request: RequestModel,
)
    requires
        check.request(worker) == Some(request),
    ensures
        worker::proper_request(worker, request),
{
    match check {
        PermissionModel::Member { user, team, .. } => {
            let repo = RepoModel { owner: Seq::empty(), repo: Seq::empty() };
            worker::addresses_are_at_the_host(worker.host, repo, team, user, 0, Seq::empty());
        },
        PermissionModel::Collaborator { user, repo } => {
            worker::addresses_are_at_the_host(worker.host, repo, 0, user, 0, Seq::empty());
        },
        PermissionModel::Decided(_) => {},
    }
    assert(request.headers == http::authed_headers(
        http::AcceptType::Regular,
        worker.authorization,
    ));
}

/// A check begins with the right question. Without teams, it is whether the
/// user collaborates on the repository. With teams, it is whether the user
/// belongs to one of them, and the other teams, and no more, are left for
/// later; if the set of teams is empty, nobody has permission.
pub proof fn check_begins_as_it_should(user: Seq<char>, repo: RepoModel, config: ConfigModel)
    ensures
        config.teams_with_write is None ==> PermissionModel::start(user, repo, config)
            == (PermissionModel::Collaborator { user, repo }),
        config.teams_with_write is Some && config.teams_with_write->0.is_empty()
            ==> PermissionModel::start(user, repo, config) == PermissionModel::Decided(
            Ok::<bool, GithubRequestError>(false),
        ),
        config.teams_with_write is Some && !config.teams_with_write->0.is_empty() ==> (
        PermissionModel::start(user, repo, config) matches PermissionModel::Member {
            user: asked,
            team,
            rest,
        } && asked == user && rest.no_duplicates() && !rest.contains(team) && (forall|t: u32|
            #[trigger]
            config.teams_with_write->0.contains(t) <==> t == team || rest.contains(t))),
{
    if config.teams_with_write is Some {
        let teams = config.teams_with_write->0;
        let order = ascending(teams);
        ascending_lists(teams);
        if teams.is_empty() {
            if order.len() > 0 {
                assert(order.to_set().contains(order[0]));
            }
        } else {
            let t = teams.choose();
            assert(order.to_set().contains(t));
            let rest = order.skip(1);
            assert forall|t: u32| #[trigger]
                teams.contains(t) <==> t == order[0] || rest.contains(t) by {
                assert(order.to_set().contains(t) == teams.contains(t));
                if order.contains(t) {
                    let i = order.index_of(t);
                    if i > 0 {
                        assert(rest[i - 1] == t);
                    }
                }
                if rest.contains(t) {
                    let i = rest.index_of(t);
                    assert(order[i + 1] == t);
                }
                assert(order.contains(order[0]));
            }
            if rest.contains(order[0]) {
                let i = rest.index_of(order[0]);
                assert(order[i + 1] == order[0]);
            }
        }
    }
}

/// What a reply does to a check. A status from 200 to 299 ends it with yes. The
/// status 404 ends it with no, unless teams are left: then the next of them is
/// asked for, about the same user. Anything else ends it with an error that
/// tells what came. A check that has ended stays as it is.
pub proof fn reply_moves_the_check(
    user: Seq<char>,
    team: u32,
    rest: Seq<u32>,
    repo: RepoModel,
    result: Result<bool, GithubRequestError>,
    code: u16,
    error: hyper::error::Error,
)
    ensures
        ({
            let member = PermissionModel::Member { user, team, rest };
            let collaborator = PermissionModel::Collaborator { user, repo };
            let yes = PermissionModel::Decided(Ok::<bool, GithubRequestError>(true));
            let no = PermissionModel::Decided(Ok::<bool, GithubRequestError>(false));
            let bad = PermissionModel::Decided(
                Err::<bool, GithubRequestError>(GithubRequestError::HttpStatus(code)),
            );
            let none = PermissionModel::Decided(
                Err::<bool, GithubRequestError>(GithubRequestError::Http(error)),
            );
            &&& 200 <= code <= 299 ==> member.after(Ok(code)) == yes && collaborator.after(Ok(code))
                == yes
            &&& code == 404 ==> collaborator.after(Ok(code)) == no
            &&& code == 404 && rest.len() == 0 ==> member.after(Ok(code)) == no
            &&& code == 404 && rest.len() > 0 ==> member.after(Ok(code)) == (
            PermissionModel::Member { user, team: rest[0], rest: rest.skip(1) })
            &&& !(200 <= code <= 299) && code != 404 ==> member.after(Ok(code)) == bad
                && collaborator.after(Ok(code)) == bad
            &&& member.after(Err(error)) == none && collaborator.after(Err(error)) == none
            &&& PermissionModel::Decided(result).after(Ok(code)) == PermissionModel::Decided(result)
            &&& PermissionModel::Decided(result).after(Err(error)) == PermissionModel::Decided(
                result,
            )
        }),
{
}

/// Every question only reads: its method is `Get` and it has no body. It goes
/// to the address where GitHub tells whether the user belongs to the team, or
/// collaborates on the repository, and asks for the usual form.
pub proof fn questions_only_read(worker: WorkerModel, check: PermissionModel)
    ensures
        check is Decided <==> check.request(worker) is None,
        match check {
            PermissionModel::Member { user, team, .. } => text::spells(
                check.request(worker)->0.url,
                seq![worker.host, "/teams/"@, text::decimal(team as nat), "/members/"@, user],
            ),
            PermissionModel::Collaborator { user, repo } => text::spells(
                check.request(worker)->0.url,
                seq![
                    worker.host,
                    "/repos/"@,
                    repo.owner,
                    "/"@,
                    repo.repo,
                    "/collaborators/"@,
                    user,
                ],
            ),
            PermissionModel::Decided(_) => true,
        },
        !(check is Decided) ==> {
            let request = check.request(worker)->0;
            &&& request.method == http::Method::Get
            &&& request.body is None
            &&& request.headers.len() == 3
            &&& vstd::utf8::decode_utf8(request.headers[0].value)
                == "application/vnd.github.v3+json"@
            &&& request.headers[1].value == worker.authorization
        },
{
    match check {
        PermissionModel::Member { user, team, .. } => {
            let repo = RepoModel { owner: Seq::empty(), repo: Seq::empty() };
            worker::addresses_spelled_out(worker.host, repo, team, user, 0, Seq::empty());
            worker::requests_carry_the_credentials(
                worker,
                http::Method::Get,
                http::AcceptType::Regular,
                worker::member_url(worker.host, team, user),
            );
        },
        PermissionModel::Collaborator { user, repo } => {
            worker::addresses_spelled_out(worker.host, repo, 0, user, 0, Seq::empty());
            worker::requests_carry_the_credentials(
                worker,
                http::Method::Get,
                http::AcceptType::Regular,
                worker::collaborator_url(worker.host, repo, user),
            );
        },
        PermissionModel::Decided(_) => {},
    }
}

} // verus!
