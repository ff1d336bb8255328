use aelita_github::desc::{
    CommentDesc, IssueCommentComment, IssueCommentIssue, IssueCommentPullRequest, OwnerDesc,
    PingDesc, PrBranchDesc, PrDesc, PullRequestDesc, RepositoryDesc, UserDesc,
};
use aelita_github::error::GithubRequestError;
use aelita_github::pr::{Pr, Repo};
use aelita_github::ui::{Command, Commit, Event, PipelineId};
use aelita_github::webhook::{webhook_kind, Answer, Ignored, Next, Webhook, WebhookKind};
use aelita_github::worker::Worker;
use std::collections::HashSet;

fn repo() -> Repo {
    Repo { owner: "acme".to_owned(), repo: "tool".to_owned() }
}

fn worker(teams: Option<Vec<u32>>) -> Worker {
    let mut w = Worker::new("l".to_owned(), "h".to_owned(), "t".to_owned(), "bot".to_owned());
    w.add_pipeline(
        PipelineId(3),
        repo(),
        teams.map(|t| t.into_iter().collect::<HashSet<u32>>()),
    );
    w
}

fn user(login: &str) -> UserDesc {
    UserDesc { login: login.to_owned(), user_type: "User".to_owned() }
}

fn repository(owner: &str, name: &str) -> RepositoryDesc {
    RepositoryDesc {
        name: name.to_owned(),
        owner: OwnerDesc { login: owner.to_owned(), owner_type: "User".to_owned() },
    }
}

fn comment(body: &str) -> CommentDesc {
    CommentDesc {
        issue: IssueCommentIssue {
            number: 12,
            title: "A title".to_owned(),
            body: "A text".to_owned(),
            pull_request: Some(IssueCommentPullRequest { url: "u".to_owned() }),
            state: "open".to_owned(),
            user: user("ann"),
        },
        comment: IssueCommentComment { user: user("bob"), body: body.to_owned() },
        repository: repository("acme", "tool"),
    }
}

fn change(action: &str) -> PullRequestDesc {
    PullRequestDesc {
        action: action.to_owned(),
        pull_request: PrDesc {
            state: "open".to_owned(),
            number: 12,
            head: PrBranchDesc { sha: "abc".to_owned() },
        },
        repository: repository("acme", "tool"),
    }
}

fn after_comment(w: &Worker, desc: CommentDesc) -> Next {
    let handling = w.handle_webhook(Webhook::IssueComment(Some(desc)));
    assert_eq!(handling.answer, Answer::NoContent);
    handling.next
}

fn after_change(desc: PullRequestDesc, commit: Option<Commit>) -> Next {
    let handling = worker(None).handle_webhook(Webhook::PullRequest(Some(desc)));
    assert_eq!(handling.answer, Answer::NoContent);
    match handling.next {
        Next::ReadCommit(change) => {
            assert_eq!(change.sha, "abc");
            change.commit(commit)
        }
        other => other,
    }
}

#[test]
fn kinds_of_events() {
    let kind = |name: &[u8]| webhook_kind(Some(&[name.to_vec()]));
    assert_eq!(kind(b"issue_comment"), WebhookKind::IssueComment);
    assert_eq!(kind(b"pull_request"), WebhookKind::PullRequest);
    assert_eq!(kind(b"ping"), WebhookKind::Ping);
    assert_eq!(kind(b"push"), WebhookKind::Unknown);
    assert_eq!(kind(b"Ping"), WebhookKind::Unknown);
    assert_eq!(kind(b""), WebhookKind::Unknown);
    assert_eq!(kind(b"\xff"), WebhookKind::Unknown);
    assert_eq!(webhook_kind(None), WebhookKind::Unknown);
    assert_eq!(webhook_kind(Some(&[])), WebhookKind::Unknown);
    assert_eq!(
        webhook_kind(Some(&[b"ping".to_vec(), b"pull_request".to_vec()])),
        WebhookKind::Ping
    );
}

#[test]
fn answers() {
    let w = worker(None);
    assert_eq!(Answer::NoContent.code(), 204);
    assert_eq!(Answer::BadRequest.code(), 400);
    let answer = |webhook: Webhook| w.handle_webhook(webhook).answer;
    assert_eq!(answer(Webhook::IssueComment(Some(comment("x")))), Answer::NoContent);
    assert_eq!(answer(Webhook::PullRequest(Some(change("x")))), Answer::NoContent);
    assert_eq!(
        answer(Webhook::Ping(Some(PingDesc { zen: "z".to_owned() }))),
        Answer::NoContent
    );
    assert_eq!(answer(Webhook::IssueComment(None)), Answer::BadRequest);
    assert_eq!(answer(Webhook::PullRequest(None)), Answer::BadRequest);
    assert_eq!(answer(Webhook::Ping(None)), Answer::BadRequest);
    assert_eq!(answer(Webhook::Unknown), Answer::BadRequest);
}

#[test]
fn nothing_follows_other_events() {
    let w = worker(None);
    let next = |webhook: Webhook| w.handle_webhook(webhook).next;
    assert!(matches!(
        next(Webhook::Ping(Some(PingDesc { zen: "z".to_owned() }))),
        Next::Nothing(Ignored::Pinged)
    ));
    assert!(matches!(next(Webhook::Ping(None)), Next::Nothing(Ignored::InvalidDocument)));
    assert!(matches!(next(Webhook::IssueComment(None)), Next::Nothing(Ignored::InvalidDocument)));
    assert!(matches!(next(Webhook::PullRequest(None)), Next::Nothing(Ignored::InvalidDocument)));
    assert!(matches!(next(Webhook::Unknown), Next::Nothing(Ignored::UnknownEvent)));
}

#[test]
fn comments_that_are_ignored() {
    let w = worker(None);
    assert!(matches!(
        after_comment(&w, comment("bot r+")),
        Next::Nothing(Ignored::NotMentioned)
    ));
    let mut closed = comment("@bot r+");
    closed.issue.state = "closed".to_owned();
    assert!(matches!(after_comment(&w, closed), Next::Nothing(Ignored::IssueClosed)));
    let mut issue = comment("@bot r+");
    issue.issue.pull_request = None;
    assert!(matches!(after_comment(&w, issue), Next::Nothing(Ignored::NotPullRequest)));
    let mut elsewhere = comment("@bot r+");
    elsewhere.repository = repository("acme", "other");
    match after_comment(&w, elsewhere) {
        Next::Nothing(Ignored::UnknownRepo(r)) => {
            assert_eq!(r, Repo { owner: "acme".to_owned(), repo: "other".to_owned() });
        }
        other => panic!("{:?}", other),
    }
}

#[test]
fn permitted_approval() {
    let w = worker(None);
    let pending = match after_comment(&w, comment("@bot r+")) {
        Next::Ask(pending) => pending,
        other => panic!("{:?}", other),
    };
    assert_eq!(pending.request(&w).url, "h/repos/acme/tool/collaborators/bob");
    let comment = match pending.reply(Ok(204)) {
        Next::ReadCommand(comment) => comment,
        other => panic!("{:?}", other),
    };
    assert_eq!(comment.body, "@bot r+");
    assert_eq!(comment.user, "bob");
    let command = Command::Approved("carol".to_owned(), Some(Commit("abc".to_owned())));
    match comment.command(Some(command)) {
        Next::Emit(event) => assert_eq!(
            event,
            Event::Approved(
                PipelineId(3),
                Pr(12),
                Some(Commit("abc".to_owned())),
                "#12 a=@ann r=@carol\n\n## A title ##\n\nA text".to_owned(),
            )
        ),
        other => panic!("{:?}", other),
    }
}

#[test]
fn permitted_cancellation_and_chatter() {
    let w = worker(None);
    let permitted = || match after_comment(&w, comment("@bot r-")) {
        Next::Ask(pending) => match pending.reply(Ok(200)) {
            Next::ReadCommand(comment) => comment,
            other => panic!("{:?}", other),
        },
        other => panic!("{:?}", other),
    };
    match permitted().command(Some(Command::Canceled)) {
        Next::Emit(event) => assert_eq!(event, Event::Canceled(PipelineId(3), Pr(12))),
        other => panic!("{:?}", other),
    }
    assert!(matches!(permitted().command(None), Next::Nothing(Ignored::NotCommand)));
}

#[test]
fn users_without_permission() {
    let w = worker(None);
    let pending = || match after_comment(&w, comment("@bot r+")) {
        Next::Ask(pending) => pending,
        other => panic!("{:?}", other),
    };
    assert!(matches!(pending().reply(Ok(404)), Next::Nothing(Ignored::NotPermitted)));
    assert!(matches!(
        pending().reply(Ok(500)),
        Next::Nothing(Ignored::CheckFailed(GithubRequestError::HttpStatus(500)))
    ));
    assert!(matches!(
        pending().reply(Err(hyper::error::Error::TooLarge)),
        Next::Nothing(Ignored::CheckFailed(GithubRequestError::Http(_)))
    ));
}

#[test]
fn teams_are_asked_about_the_author() {
    let w = worker(Some(vec![8]));
    let pending = match after_comment(&w, comment("@bot r+")) {
        Next::Ask(pending) => pending,
        other => panic!("{:?}", other),
    };
    assert_eq!(pending.request(&w).url, "h/teams/8/members/bob");
    assert!(matches!(pending.reply(Ok(404)), Next::Nothing(Ignored::NotPermitted)));
    let w = worker(Some(vec![8, 9]));
    let pending = match after_comment(&w, comment("@bot r+")) {
        Next::Ask(pending) => pending,
        other => panic!("{:?}", other),
    };
    match pending.reply(Ok(404)) {
        Next::Ask(pending) => {
            assert!(matches!(pending.reply(Ok(204)), Next::ReadCommand(_)));
        }
        other => panic!("{:?}", other),
    }
    let w = worker(Some(vec![]));
    assert!(matches!(
        after_comment(&w, comment("@bot r+")),
        Next::Nothing(Ignored::NotPermitted)
    ));
}

#[test]
fn changes_of_pull_requests() {
    let abc = || Some(Commit("abc".to_owned()));
    let event = |action: &str| match after_change(change(action), abc()) {
        Next::Emit(event) => Some(event),
        Next::Nothing(Ignored::OtherAction) => None,
        other => panic!("{:?}", other),
    };
    let commit = Commit("abc".to_owned());
    assert_eq!(event("closed"), Some(Event::Closed(PipelineId(3), Pr(12))));
    assert_eq!(event("opened"), Some(Event::Opened(PipelineId(3), Pr(12), commit.clone())));
    assert_eq!(event("reopened"), Some(Event::Opened(PipelineId(3), Pr(12), commit.clone())));
    assert_eq!(event("synchronize"), Some(Event::Changed(PipelineId(3), Pr(12), commit.clone())));
    assert_eq!(event("labeled"), None);
    assert_eq!(event("Closed"), None);
}

#[test]
fn changes_without_a_commit_or_a_repository() {
    assert!(matches!(
        after_change(change("closed"), None),
        Next::Nothing(Ignored::InvalidCommit)
    ));
    let mut elsewhere = change("closed");
    elsewhere.repository = repository("other", "tool");
    assert!(matches!(
        after_change(elsewhere, Some(Commit("abc".to_owned()))),
        Next::Nothing(Ignored::UnknownRepo(_))
    ));
}

#[test]
fn authors_of_pull_requests_need_permission_too() {
    let by = |author: &str, commenter: &str| {
        let mut desc = comment("@bot r+");
        desc.issue.user = user(author);
        desc.comment.user = user(commenter);
        desc
    };
    let own = |w: &Worker, desc: CommentDesc| match w.handle_pr_comment(desc) {
        Next::Ask(pending) => pending,
        other => panic!("{:?}", other),
    };
    for author in ["bob", "ann"] {
        let w = worker(None);
        let pending = own(&w, by(author, "bob"));
        assert_eq!(pending.request(&w).url, "h/repos/acme/tool/collaborators/bob");
        assert!(matches!(pending.reply(Ok(404)), Next::Nothing(Ignored::NotPermitted)));
        let pending = own(&w, by(author, "bob"));
        assert!(matches!(pending.reply(Ok(204)), Next::ReadCommand(_)));
        let w = worker(Some(vec![9, 8]));
        let pending = own(&w, by(author, "bob"));
        assert_eq!(pending.request(&w).url, "h/teams/8/members/bob");
        match pending.reply(Ok(404)) {
            Next::Ask(pending) => {
                assert_eq!(pending.request(&w).url, "h/teams/9/members/bob");
                assert!(matches!(pending.reply(Ok(404)), Next::Nothing(Ignored::NotPermitted)));
            }
            other => panic!("{:?}", other),
        }
    }
}
