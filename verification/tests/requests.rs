use aelita_github::error::GithubRequestError;
use aelita_github::http::{read_acceptance, read_membership, AcceptType, ApiRequest, Header, Method};
use aelita_github::pr::{Pr, Repo};
use aelita_github::ui::{Commit, PipelineId};
use aelita_github::worker::Worker;
use std::collections::HashSet;

fn worker() -> Worker {
    Worker::new(
        "127.0.0.1:80".to_owned(),
        "https://api.example".to_owned(),
        "s3cr\u{e9}t".to_owned(),
        "bot".to_owned(),
    )
}

fn repo() -> Repo {
    Repo { owner: "acme".to_owned(), repo: "tool".to_owned() }
}

fn header(name: &str, value: &[u8]) -> Header {
    Header { name: name.to_owned(), value: value.to_vec() }
}

fn expected(method: Method, accept: &[u8], url: &str) -> ApiRequest {
    ApiRequest {
        method,
        url: url.to_owned(),
        headers: vec![
            header("Accept", accept),
            header("Authorization", "token s3cr\u{e9}t".as_bytes()),
            header("User-Agent", b"aelita/0.1 (https://github.com/AelitaBot/aelita)"),
        ],
        body: None,
    }
}

const REGULAR: &[u8] = b"application/vnd.github.v3+json";
const REPOSITORY: &[u8] = b"application/vnd.github.v3.repository+json";

#[test]
fn new_worker() {
    let w = worker();
    assert_eq!(w.listen(), "127.0.0.1:80");
    assert_eq!(w.user_ident(), "@bot");
    assert!(w.repo_config(&repo()).is_none());
    assert!(w.pipeline_repo(PipelineId(1)).is_none());
}

#[test]
fn requests_carry_the_credentials() {
    let w = worker();
    assert_eq!(
        w.authed_request(Method::Post, AcceptType::Regular, "u".to_owned()),
        expected(Method::Post, REGULAR, "u")
    );
    assert_eq!(
        w.authed_request(Method::Get, AcceptType::Repository, "v".to_owned()),
        expected(Method::Get, REPOSITORY, "v")
    );
}

#[test]
fn addresses_of_requests() {
    let w = worker();
    assert_eq!(
        w.member_request("ann", 7),
        expected(Method::Get, REGULAR, "https://api.example/teams/7/members/ann")
    );
    assert_eq!(
        w.collaborator_request("ann", &repo()),
        expected(Method::Get, REGULAR, "https://api.example/repos/acme/tool/collaborators/ann")
    );
    assert_eq!(
        w.repo_request(&repo()),
        expected(Method::Get, REGULAR, "https://api.example/repos/acme/tool")
    );
    assert_eq!(
        w.teams_request(&repo()),
        expected(Method::Get, REGULAR, "https://api.example/orgs/acme/teams")
    );
    assert_eq!(
        w.team_repo_request(12, &repo()),
        expected(Method::Get, REPOSITORY, "https://api.example/teams/12/repos/acme/tool")
    );
    assert_eq!(
        w.comments_url(&repo(), Pr(5)),
        "https://api.example/repos/acme/tool/issues/5/comments"
    );
    assert_eq!(
        w.statuses_url(&repo(), &Commit("abc".to_owned())),
        "https://api.example/repos/acme/tool/statuses/abc"
    );
}

#[test]
fn added_repositories_are_served() {
    let mut w = worker();
    let other = Repo { owner: "acme".to_owned(), repo: "other".to_owned() };
    let mut teams = HashSet::new();
    teams.insert(4u32);
    w.add_pipeline(PipelineId(1), repo(), Some(teams.clone()));
    w.add_pipeline(PipelineId(2), other.clone(), None);
    let config = w.repo_config(&repo()).unwrap();
    assert_eq!(config.pipeline_id, PipelineId(1));
    assert_eq!(config.teams_with_write, Some(teams));
    assert_eq!(w.repo_config(&other).unwrap().teams_with_write, None);
    assert_eq!(w.pipeline_repo(PipelineId(1)), Some(&repo()));
    assert_eq!(w.pipeline_repo(PipelineId(2)), Some(&other));
    assert_eq!(w.pipeline_repo(PipelineId(3)), None);
}

#[test]
fn adding_again_replaces() {
    let mut w = worker();
    let other = Repo { owner: "acme".to_owned(), repo: "other".to_owned() };
    w.add_pipeline(PipelineId(1), repo(), Some(HashSet::new()));
    w.add_pipeline(PipelineId(2), other.clone(), None);
    w.add_pipeline(PipelineId(3), repo(), None);
    let config = w.repo_config(&repo()).unwrap();
    assert_eq!(config.pipeline_id, PipelineId(3));
    assert_eq!(config.teams_with_write, None);
    assert_eq!(w.repo_config(&other).unwrap().pipeline_id, PipelineId(2));
    assert_eq!(w.pipeline_repo(PipelineId(1)), None);
    assert_eq!(w.listen(), "127.0.0.1:80");
    assert_eq!(w.user_ident(), "@bot");
}

#[test]
fn replies_about_membership() {
    assert!(matches!(read_membership(Ok(204)), Ok(true)));
    assert!(matches!(read_membership(Ok(200)), Ok(true)));
    assert!(matches!(read_membership(Ok(299)), Ok(true)));
    assert!(matches!(read_membership(Ok(404)), Ok(false)));
    for code in [0u16, 199, 300, 302, 403, 405, 500, 65535] {
        match read_membership(Ok(code)) {
            Err(GithubRequestError::HttpStatus(c)) => assert_eq!(c, code),
            other => panic!("{:?}", other),
        }
    }
    assert!(matches!(
        read_membership(Err(hyper::error::Error::TooLarge)),
        Err(GithubRequestError::Http(hyper::error::Error::TooLarge))
    ));
}

#[test]
fn replies_about_acceptance() {
    assert!(read_acceptance(Ok(201)).is_ok());
    for code in [100u16, 199, 300, 404, 422, 600] {
        match read_acceptance(Ok(code)) {
            Err(GithubRequestError::HttpStatus(c)) => assert_eq!(c, code),
            other => panic!("{:?}", other),
        }
    }
    assert!(matches!(
        read_acceptance(Err(hyper::error::Error::Status)),
        Err(GithubRequestError::Http(hyper::error::Error::Status))
    ));
}

#[test]
fn errors_from_other_errors() {
    let int = "x".parse::<u32>().unwrap_err();
    assert!(matches!(GithubRequestError::from(int), GithubRequestError::Int(_)));
    let json = serde_json::from_str::<u32>("x").unwrap_err();
    assert!(matches!(GithubRequestError::from(json), GithubRequestError::Json(_)));
    let http = hyper::error::Error::Method;
    assert!(matches!(GithubRequestError::from(http), GithubRequestError::Http(_)));
}

#[test]
fn adding_order_does_not_matter() {
    let other = Repo { owner: "acme".to_owned(), repo: "other".to_owned() };
    let mut a = worker();
    a.add_pipeline(PipelineId(1), repo(), None);
    a.add_pipeline(PipelineId(2), other.clone(), Some(HashSet::new()));
    let mut b = worker();
    b.add_pipeline(PipelineId(2), other.clone(), Some(HashSet::new()));
    b.add_pipeline(PipelineId(1), repo(), None);
    assert_eq!(a.repo_config(&repo()), b.repo_config(&repo()));
    assert_eq!(a.repo_config(&other), b.repo_config(&other));
    assert_eq!(a.pipeline_repo(PipelineId(2)), b.pipeline_repo(PipelineId(2)));
}

#[test]
fn one_pipeline_for_two_repositories() {
    let other = Repo { owner: "acme".to_owned(), repo: "other".to_owned() };
    let mut w = worker();
    w.add_pipeline(PipelineId(1), repo(), None);
    w.add_pipeline(PipelineId(1), other.clone(), None);
    let found = w.pipeline_repo(PipelineId(1)).unwrap();
    assert!(*found == repo() || *found == other);
}

#[test]
fn every_request_goes_to_the_host() {
    let w = worker();
    let requests = vec![
        w.member_request("ann", 7),
        w.collaborator_request("ann", &repo()),
        w.repo_request(&repo()),
        w.teams_request(&repo()),
        w.team_repo_request(12, &repo()),
    ];
    for request in requests {
        assert!(request.url.starts_with("https://api.example/"));
        assert_eq!(request.headers[1].name, "Authorization");
    }
}
