use aelita_github::access::{PermissionCheck, PermissionStep};
use aelita_github::desc::{
    OwnerDesc, RepositoryDesc, TeamDesc, TeamRepoDesc, TeamRepoPermissions,
};
use aelita_github::error::GithubRequestError;
use aelita_github::pr::Repo;
use aelita_github::repos::RepoConfig;
use aelita_github::teams::{LookupError, TeamLookup};
use aelita_github::ui::PipelineId;
use aelita_github::worker::Worker;
use std::collections::HashSet;

fn worker() -> Worker {
    Worker::new("l".to_owned(), "h".to_owned(), "t".to_owned(), "bot".to_owned())
}

fn repo() -> Repo {
    Repo { owner: "acme".to_owned(), repo: "tool".to_owned() }
}

fn config(teams: Option<Vec<u32>>) -> RepoConfig {
    RepoConfig {
        pipeline_id: PipelineId(1),
        teams_with_write: teams.map(|t| t.into_iter().collect::<HashSet<u32>>()),
    }
}

type Reply = Result<u16, hyper::error::Error>;

/// Runs a check to its end and returns its result and the addresses asked.
fn run(
    worker: &Worker,
    step: PermissionStep,
    answer: impl Fn(&str) -> Reply,
) -> (Result<bool, GithubRequestError>, Vec<String>) {
    let mut asked = Vec::new();
    let mut step = step;
    loop {
        match step {
            PermissionStep::Ask(check) => {
                let url = check.request(worker).url;
                let reply = answer(&url);
                asked.push(url);
                step = check.reply(reply);
            }
            PermissionStep::Decided(result) => return (result, asked),
        }
    }
}

#[test]
fn collaborators_have_permission() {
    let w = worker();
    let step = w.user_has_write("ann", &repo(), &config(None));
    let (result, asked) = run(&w, step, |_| Ok(204));
    assert!(matches!(result, Ok(true)));
    assert_eq!(asked, vec!["h/repos/acme/tool/collaborators/ann".to_owned()]);
    let step = w.user_has_write("ann", &repo(), &config(None));
    assert!(matches!(run(&w, step, |_| Ok(404)).0, Ok(false)));
    let step = w.user_has_write("ann", &repo(), &config(None));
    assert!(matches!(
        run(&w, step, |_| Ok(500)).0,
        Err(GithubRequestError::HttpStatus(500))
    ));
}

#[test]
fn without_teams_nobody_has_permission() {
    let w = worker();
    let step = w.user_has_write("ann", &repo(), &config(Some(vec![])));
    let (result, asked) = run(&w, step, |_| Ok(204));
    assert!(matches!(result, Ok(false)));
    assert!(asked.is_empty());
}

#[test]
fn members_of_any_team_have_permission() {
    let w = worker();
    for yes in [1u32, 2, 3] {
        let step = w.user_has_write("ann", &repo(), &config(Some(vec![1, 2, 3])));
        let url = format!("h/teams/{}/members/ann", yes);
        let (result, asked) =
            run(&w, step, |u| if u == url.as_str() { Ok(204) } else { Ok(404) });
        assert!(matches!(result, Ok(true)));
        assert_eq!(asked.last(), Some(&url));
    }
}

#[test]
fn every_team_is_asked_once_in_ascending_order_before_a_no() {
    let w = worker();
    let step = w.user_has_write("ann", &repo(), &config(Some(vec![70, 5, 4294967295, 6, 5])));
    let (result, asked) = run(&w, step, |_| Ok(404));
    assert!(matches!(result, Ok(false)));
    assert_eq!(
        asked,
        vec![
            "h/teams/5/members/ann".to_owned(),
            "h/teams/6/members/ann".to_owned(),
            "h/teams/70/members/ann".to_owned(),
            "h/teams/4294967295/members/ann".to_owned(),
        ]
    );
}

#[test]
fn an_error_ends_the_check() {
    let w = worker();
    let step = w.user_has_write("ann", &repo(), &config(Some(vec![5, 6, 7])));
    let (result, asked) = run(&w, step, |_| Err(hyper::error::Error::TooLarge));
    assert!(matches!(result, Err(GithubRequestError::Http(hyper::error::Error::TooLarge))));
    assert_eq!(asked.len(), 1);
}

#[test]
fn teams_follow_in_their_order() {
    let check = PermissionCheck::Member {
        user: "ann".to_owned(),
        team: 9,
        rest: vec![4u32, 2].into_iter().collect(),
    };
    let (_, asked) = run(&worker(), PermissionStep::Ask(check), |_| Ok(404));
    assert_eq!(
        asked,
        vec![
            "h/teams/9/members/ann".to_owned(),
            "h/teams/4/members/ann".to_owned(),
            "h/teams/2/members/ann".to_owned(),
        ]
    );
}

fn owner(kind: &str) -> RepositoryDesc {
    RepositoryDesc {
        name: "tool".to_owned(),
        owner: OwnerDesc { login: "acme".to_owned(), owner_type: kind.to_owned() },
    }
}

fn team(id: u32) -> TeamDesc {
    TeamDesc { slug: "t".to_owned(), id }
}

fn may(admin: bool, push: bool, pull: bool) -> TeamRepoDesc {
    TeamRepoDesc { permissions: TeamRepoPermissions { admin, push, pull } }
}

fn json_error() -> serde_json::Error {
    serde_json::from_str::<u32>("x").unwrap_err()
}

fn after_owner(kind: &str) -> TeamLookup {
    let query = match worker().teams_with_write(&repo()) {
        TeamLookup::AskOwner(query) => query,
        other => panic!("{:?}", other),
    };
    assert_eq!(query.request(&worker()).url, "h/repos/acme/tool");
    match query.reply(Ok(200)) {
        TeamLookup::ReadOwner(body) => body.document(Ok(owner(kind))),
        other => panic!("{:?}", other),
    }
}

fn after_teams(teams: Vec<TeamDesc>) -> TeamLookup {
    let query = match after_owner("Organization") {
        TeamLookup::AskTeams(query) => query,
        other => panic!("{:?}", other),
    };
    assert_eq!(query.request(&worker()).url, "h/orgs/acme/teams");
    match query.reply(Ok(200)) {
        TeamLookup::ReadTeams(body) => body.document(Ok(teams)),
        other => panic!("{:?}", other),
    }
}

#[test]
fn only_organizations_have_teams() {
    assert!(matches!(after_owner("User"), TeamLookup::Done(Ok(None))));
    assert!(matches!(after_owner("Something"), TeamLookup::Done(Ok(None))));
    assert!(matches!(after_owner("organization"), TeamLookup::Done(Ok(None))));
    assert!(matches!(after_owner("Organization"), TeamLookup::AskTeams(_)));
}

#[test]
fn teams_that_administer_or_push_may_write() {
    let mut lookup = after_teams(vec![team(1), team(2), team(3), team(4)]);
    let answers = [
        may(true, false, true),
        may(false, false, true),
        may(false, true, true),
        may(true, true, true),
    ];
    for (i, answer) in answers.iter().enumerate() {
        let query = match lookup {
            TeamLookup::AskTeam(query) => query,
            other => panic!("{:?}", other),
        };
        assert_eq!(
            query.request(&worker()).url,
            format!("h/teams/{}/repos/acme/tool", i + 1)
        );
        // The status of this response does not matter.
        lookup = match query.reply(Ok(404)) {
            TeamLookup::ReadTeam(body) => body.document(Ok(*answer)),
            other => panic!("{:?}", other),
        };
    }
    match lookup {
        TeamLookup::Done(Ok(Some(teams))) => {
            assert_eq!(teams, vec![1u32, 3, 4].into_iter().collect::<HashSet<u32>>());
        }
        other => panic!("{:?}", other),
    }
}

#[test]
fn organization_without_teams() {
    match after_teams(vec![]) {
        TeamLookup::Done(Ok(Some(teams))) => assert!(teams.is_empty()),
        other => panic!("{:?}", other),
    }
}

#[test]
fn lookup_fails_at_the_owner() {
    let start = || match worker().teams_with_write(&repo()) {
        TeamLookup::AskOwner(query) => query,
        other => panic!("{:?}", other),
    };
    assert!(matches!(
        start().reply(Ok(404)),
        TeamLookup::Done(Err(LookupError::Owner(GithubRequestError::HttpStatus(404))))
    ));
    assert!(matches!(
        start().reply(Err(hyper::error::Error::Version)),
        TeamLookup::Done(Err(LookupError::Owner(GithubRequestError::Http(_))))
    ));
    match start().reply(Ok(200)) {
        TeamLookup::ReadOwner(body) => assert!(matches!(
            body.document(Err(json_error())),
            TeamLookup::Done(Err(LookupError::Owner(GithubRequestError::Json(_))))
        )),
        other => panic!("{:?}", other),
    }
}

#[test]
fn lookup_fails_at_the_teams() {
    let start = || match after_owner("Organization") {
        TeamLookup::AskTeams(query) => query,
        other => panic!("{:?}", other),
    };
    assert!(matches!(
        start().reply(Ok(500)),
        TeamLookup::Done(Err(LookupError::Teams(GithubRequestError::HttpStatus(500))))
    ));
    match start().reply(Ok(200)) {
        TeamLookup::ReadTeams(body) => assert!(matches!(
            body.document(Err(json_error())),
            TeamLookup::Done(Err(LookupError::Teams(GithubRequestError::Json(_))))
        )),
        other => panic!("{:?}", other),
    }
}

#[test]
fn lookup_fails_at_a_single_team() {
    let start = || match after_teams(vec![team(1), team(2)]) {
        TeamLookup::AskTeam(query) => query,
        other => panic!("{:?}", other),
    };
    assert!(matches!(
        start().reply(Err(hyper::error::Error::Header)),
        TeamLookup::Done(Err(LookupError::Teams(GithubRequestError::Http(_))))
    ));
    match start().reply(Ok(200)) {
        TeamLookup::ReadTeam(body) => assert!(matches!(
            body.document(Err(json_error())),
            TeamLookup::Done(Err(LookupError::Teams(GithubRequestError::Json(_))))
        )),
        other => panic!("{:?}", other),
    }
}

/// Answers the lookup for each team in turn and returns where it ends and the
/// addresses asked.
fn run_teams(
    lookup: TeamLookup,
    answers: Vec<(Reply, Result<TeamRepoDesc, serde_json::Error>)>,
) -> (TeamLookup, Vec<String>) {
    let mut lookup = lookup;
    let mut asked = Vec::new();
    for (reply, desc) in answers {
        lookup = match lookup {
            TeamLookup::AskTeam(query) => {
                asked.push(query.request(&worker()).url);
                match query.reply(reply) {
                    TeamLookup::ReadTeam(body) => body.document(desc),
                    other => other,
                }
            }
            other => other,
        };
    }
    (lookup, asked)
}

#[test]
fn teams_are_asked_for_in_the_order_of_the_list() {
    let lookup = after_teams(vec![team(9), team(2), team(9), team(4)]);
    let answers = (0..4).map(|_| (Ok(200), Ok(may(false, true, true)))).collect();
    let (end, asked) = run_teams(lookup, answers);
    assert_eq!(
        asked,
        vec![
            "h/teams/9/repos/acme/tool".to_owned(),
            "h/teams/2/repos/acme/tool".to_owned(),
            "h/teams/9/repos/acme/tool".to_owned(),
            "h/teams/4/repos/acme/tool".to_owned(),
        ]
    );
    match end {
        TeamLookup::Done(Ok(Some(teams))) => {
            assert_eq!(teams, vec![2u32, 4, 9].into_iter().collect::<HashSet<u32>>());
        }
        other => panic!("{:?}", other),
    }
}

#[test]
fn first_missing_answer_ends_the_asking() {
    let (end, asked) = run_teams(
        after_teams(vec![team(1), team(2), team(3), team(4)]),
        vec![
            (Ok(200), Ok(may(true, true, true))),
            (Err(hyper::error::Error::Header), Err(json_error())),
            (Ok(200), Err(json_error())),
            (Ok(200), Ok(may(true, true, true))),
        ],
    );
    assert!(matches!(
        end,
        TeamLookup::Done(Err(LookupError::Teams(GithubRequestError::Http(
            hyper::error::Error::Header
        ))))
    ));
    assert_eq!(asked.len(), 2);
    let (end, asked) = run_teams(
        after_teams(vec![team(1), team(2), team(3)]),
        vec![
            (Ok(200), Err(json_error())),
            (Err(hyper::error::Error::Header), Err(json_error())),
            (Ok(200), Ok(may(true, true, true))),
        ],
    );
    assert!(matches!(
        end,
        TeamLookup::Done(Err(LookupError::Teams(GithubRequestError::Json(_))))
    ));
    assert_eq!(asked.len(), 1);
}

#[test]
fn found_teams_are_registered() {
    let mut w = worker();
    let (end, _) = run_teams(
        after_teams(vec![team(6), team(5)]),
        vec![(Ok(200), Ok(may(false, true, true))), (Ok(200), Ok(may(false, false, true)))],
    );
    let found = match end {
        TeamLookup::Done(found) => found,
        other => panic!("{:?}", other),
    };
    assert!(w.register(PipelineId(4), repo(), found).is_ok());
    let config = w.repo_config(&repo()).unwrap();
    assert_eq!(config.pipeline_id, PipelineId(4));
    assert_eq!(
        config.teams_with_write,
        Some(vec![6u32].into_iter().collect::<HashSet<u32>>())
    );
    let found = match after_owner("User") {
        TeamLookup::Done(found) => found,
        other => panic!("{:?}", other),
    };
    assert!(w.register(PipelineId(5), repo(), found).is_ok());
    let config = w.repo_config(&repo()).unwrap();
    assert_eq!(config.pipeline_id, PipelineId(5));
    assert!(config.teams_with_write.is_none());
}

#[test]
fn failed_lookups_register_nothing() {
    let mut w = worker();
    let failed = Err(LookupError::Owner(GithubRequestError::HttpStatus(404)));
    assert!(matches!(
        w.register(PipelineId(4), repo(), failed),
        Err(LookupError::Owner(GithubRequestError::HttpStatus(404)))
    ));
    assert!(w.repo_config(&repo()).is_none());
    w.add_pipeline(PipelineId(1), repo(), None);
    let failed = Err(LookupError::Teams(GithubRequestError::HttpStatus(500)));
    assert!(matches!(
        w.register(PipelineId(4), repo(), failed),
        Err(LookupError::Teams(GithubRequestError::HttpStatus(500)))
    ));
    assert_eq!(w.repo_config(&repo()).unwrap().pipeline_id, PipelineId(1));
}
