use aelita_github::delivery::{comment_for, report_for, DeliveryStep, Payload};
use aelita_github::error::GithubRequestError;
use aelita_github::http::Method;
use aelita_github::pr::{Pr, Repo};
use aelita_github::ui::{Commit, Message, PipelineId, Status};
use aelita_github::worker::Worker;

fn worker() -> Worker {
    let mut w = Worker::new("l".to_owned(), "h".to_owned(), "t".to_owned(), "bot".to_owned());
    w.add_pipeline(
        PipelineId(1),
        Repo { owner: "acme".to_owned(), repo: "tool".to_owned() },
        None,
    );
    w
}

fn c(text: &str) -> Commit {
    Commit(text.to_owned())
}

fn url() -> Option<String> {
    Some("http://build/1".to_owned())
}

type Reply = Result<u16, hyper::error::Error>;

/// Writes a payload in a way that is easy to compare.
fn encode(payload: &Payload) -> Vec<u8> {
    match payload {
        Payload::Comment(comment) => format!("comment {}", comment.body).into_bytes(),
        Payload::Status(status) => {
            format!("status {} {}", status.state, status.description).into_bytes()
        }
    }
}

/// Runs a delivery to its end and returns its result and what was posted.
fn run(
    step: DeliveryStep,
    replies: Vec<Reply>,
) -> (Result<(), GithubRequestError>, Vec<(String, String)>) {
    run_with(step, replies, |payload| Ok(encode(payload)))
}

/// Runs a delivery to its end with payloads written in the given way.
fn run_with(
    step: DeliveryStep,
    replies: Vec<Reply>,
    write: impl Fn(&Payload) -> Result<Vec<u8>, serde_json::Error>,
) -> (Result<(), GithubRequestError>, Vec<(String, String)>) {
    let w = worker();
    let mut replies = replies.into_iter();
    let mut posts = Vec::new();
    let mut step = step;
    loop {
        match step {
            DeliveryStep::Encode(encoding) => {
                let body = write(&encoding.payload);
                step = encoding.encoded(body);
            }
            DeliveryStep::Post(posting) => {
                let request = posting.request(&w);
                assert_eq!(request.method, Method::Post);
                assert_eq!(request.headers.len(), 3);
                posts.push((request.url, String::from_utf8(request.body.unwrap()).unwrap()));
                step = posting.reply(replies.next().unwrap());
            }
            DeliveryStep::Done(result) => return (result, posts),
        }
    }
}

fn post(url: &str, body: &str) -> (String, String) {
    (url.to_owned(), body.to_owned())
}

#[test]
fn comments_for_statuses() {
    let text = |status: &Status| comment_for(status);
    assert_eq!(text(&Status::StartingBuild(c("p"), c("m"))), None);
    assert_eq!(text(&Status::Testing(c("p"), c("m"), url())), None);
    assert_eq!(
        text(&Status::Success(c("p"), c("m"), url())),
        Some(":+1: [Build succeeded](http://build/1)".to_owned())
    );
    assert_eq!(
        text(&Status::Success(c("p"), c("m"), None)),
        Some(":+1: Build succeeded".to_owned())
    );
    assert_eq!(
        text(&Status::Failure(c("p"), c("m"), url())),
        Some(":-1: [Build failed](http://build/1)".to_owned())
    );
    assert_eq!(
        text(&Status::Failure(c("p"), c("m"), None)),
        Some(":-1: Build failed".to_owned())
    );
    assert_eq!(text(&Status::Unmergeable(c("p"))), Some(":x: Merge conflict!".to_owned()));
    assert_eq!(
        text(&Status::Unmoveable(c("p"), c("m"))),
        Some(":scream: Internal error while fast-forward master".to_owned())
    );
    assert_eq!(text(&Status::Invalidated), Some(":not_good: New commits added".to_owned()));
    assert_eq!(
        text(&Status::NoCommit),
        Some(":scream: Internal error: no commit found for PR".to_owned())
    );
    assert_eq!(text(&Status::Completed(c("p"), c("m"))), None);
}

#[test]
fn commit_statuses_for_statuses() {
    let check = |status: Status, merge: Option<&str>, state: &str, link: Option<String>, words: &str| {
        let report = report_for(&status).unwrap();
        assert_eq!(report.pull_commit, c("p"));
        assert_eq!(report.merge_commit, merge.map(c));
        assert_eq!(report.status.state, state);
        assert_eq!(report.status.target_url, link);
        assert_eq!(report.status.description, words);
        assert_eq!(report.status.context, "continuous-integration/aelita");
    };
    let testing = "Testing p with merge commit m";
    check(Status::StartingBuild(c("p"), c("m")), Some("m"), "pending", None, testing);
    check(Status::Testing(c("p"), c("m"), url()), Some("m"), "pending", url(), testing);
    check(Status::Testing(c("p"), c("m"), None), Some("m"), "pending", None, testing);
    check(Status::Success(c("p"), c("m"), url()), Some("m"), "success", url(), "Tests passed");
    check(Status::Failure(c("p"), c("m"), url()), Some("m"), "failure", url(), "Tests failed");
    check(Status::Unmergeable(c("p")), None, "failure", None, "Merge failed");
    check(Status::Unmoveable(c("p"), c("m")), Some("m"), "error", None, "Merge failed");
    assert!(report_for(&Status::Invalidated).is_none());
    assert!(report_for(&Status::NoCommit).is_none());
    assert!(report_for(&Status::Completed(c("p"), c("m"))).is_none());
}

#[test]
fn comment_first_then_both_statuses() {
    let step = worker().send_result_to_pr(
        PipelineId(1),
        Pr(5),
        &Status::Success(c("p"), c("m"), None),
    );
    let (result, posts) = run(step, vec![Ok(201), Ok(201), Ok(201)]);
    assert!(result.is_ok());
    assert_eq!(
        posts,
        vec![
            post("h/repos/acme/tool/issues/5/comments", "comment :+1: Build succeeded"),
            post("h/repos/acme/tool/statuses/p", "status success Tests passed"),
            post("h/repos/acme/tool/statuses/m", "status success Tests passed"),
        ]
    );
}

#[test]
fn status_without_comment_and_comment_without_status() {
    let w = worker();
    let status = Status::StartingBuild(c("p"), c("m"));
    let (result, posts) =
        run(w.send_result_to_pr(PipelineId(1), Pr(5), &status), vec![Ok(201), Ok(201)]);
    assert!(result.is_ok());
    assert_eq!(posts.len(), 2);
    assert_eq!(posts[0].0, "h/repos/acme/tool/statuses/p");
    let (result, posts) =
        run(w.send_result_to_pr(PipelineId(1), Pr(5), &Status::NoCommit), vec![Ok(201)]);
    assert!(result.is_ok());
    assert_eq!(posts.len(), 1);
    let (result, posts) = run(
        w.send_result_to_pr(PipelineId(1), Pr(5), &Status::Unmergeable(c("p"))),
        vec![Ok(201), Ok(201)],
    );
    assert!(result.is_ok());
    assert_eq!(posts.len(), 2);
}

#[test]
fn completion_is_not_reported() {
    let step = worker().send_result_to_pr(
        PipelineId(1),
        Pr(5),
        &Status::Completed(c("p"), c("m")),
    );
    assert!(matches!(step, DeliveryStep::Done(Ok(()))));
}

#[test]
fn a_refused_post_ends_the_delivery() {
    let status = Status::Success(c("p"), c("m"), None);
    for n in 0..3 {
        let mut replies: Vec<Reply> = Vec::new();
        for _ in 0..n {
            replies.push(Ok(200));
        }
        replies.push(Ok(422));
        let step = worker().send_result_to_pr(PipelineId(1), Pr(5), &status);
        let (result, posts) = run(step, replies);
        assert!(matches!(result, Err(GithubRequestError::HttpStatus(422))));
        assert_eq!(posts.len(), n + 1);
    }
    let step = worker().send_result_to_pr(PipelineId(1), Pr(5), &status);
    let (result, posts) = run(step, vec![Err(hyper::error::Error::Uri(
        "x".parse::<hyper::Url>().unwrap_err(),
    ))]);
    assert!(matches!(result, Err(GithubRequestError::Http(_))));
    assert_eq!(posts.len(), 1);
}

#[test]
fn an_unwritable_payload_ends_the_delivery() {
    let step = worker().send_result_to_pr(PipelineId(1), Pr(5), &Status::NoCommit);
    match step {
        DeliveryStep::Encode(encoding) => {
            let json = serde_json::from_str::<u32>("x").unwrap_err();
            assert!(matches!(
                encoding.encoded(Err(json)),
                DeliveryStep::Done(Err(GithubRequestError::Json(_)))
            ));
        }
        other => panic!("{:?}", other),
    }
}

fn unwritable() -> serde_json::Error {
    serde_json::from_str::<u32>("x").unwrap_err()
}

#[test]
fn an_unwritable_comment_leaves_nothing_posted() {
    let status = Status::Success(c("p"), c("m"), None);
    let step = worker().send_result_to_pr(PipelineId(1), Pr(5), &status);
    let (result, posts) = run_with(step, vec![], |payload| match payload {
        Payload::Comment(_) => Err(unwritable()),
        Payload::Status(_) => Ok(encode(payload)),
    });
    assert!(matches!(result, Err(GithubRequestError::Json(_))));
    assert!(posts.is_empty());
}

#[test]
fn an_unwritable_status_leaves_the_comment_posted() {
    let write = |payload: &Payload| match payload {
        Payload::Comment(_) => Ok(encode(payload)),
        Payload::Status(_) => Err(unwritable()),
    };
    let status = Status::Success(c("p"), c("m"), None);
    let step = worker().send_result_to_pr(PipelineId(1), Pr(5), &status);
    let (result, posts) = run_with(step, vec![Ok(201), Ok(201), Ok(201)], write);
    assert!(matches!(result, Err(GithubRequestError::Json(_))));
    assert_eq!(
        posts,
        vec![post("h/repos/acme/tool/issues/5/comments", "comment :+1: Build succeeded")]
    );
    // A refused comment ends the delivery before the status is written.
    let step = worker().send_result_to_pr(PipelineId(1), Pr(5), &status);
    let (result, posts) = run_with(step, vec![Ok(422)], write);
    assert!(matches!(result, Err(GithubRequestError::HttpStatus(422))));
    assert_eq!(posts.len(), 1);
}

#[test]
fn unknown_pipelines_are_an_error() {
    let message = Message::SendResult(PipelineId(9), Pr(5), Status::NoCommit);
    match worker().handle_message(&message) {
        DeliveryStep::Done(Err(GithubRequestError::Pipeline(id))) => assert_eq!(id, PipelineId(9)),
        other => panic!("{:?}", other),
    }
}

#[test]
fn messages_begin_a_report() {
    let message = Message::SendResult(PipelineId(1), Pr(5), Status::Invalidated);
    let (result, posts) = run(worker().handle_message(&message), vec![Ok(201)]);
    assert!(result.is_ok());
    assert_eq!(
        posts,
        vec![post(
            "h/repos/acme/tool/issues/5/comments",
            "comment :not_good: New commits added"
        )]
    );
}
