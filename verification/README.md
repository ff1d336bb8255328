# aelita_github

The GitHub front end of a merge bot, as a library verified with Verus.

GitHub sends events about pull requests and comments. The front end answers
them, finds out whether the author of a comment may give commands, and tells
the build pipelines what happened. The pipelines in turn have it report on pull
requests how far they have come.

`src/` decides, and its decisions are proved:

- `webhook`: what an event is answered, and what follows from it
- `access`: whether a user may give commands for a repository
- `teams`: which teams may write to a repository
- `delivery`: what is reported to a pull request, and in which order
- `worker`, `repos`: the settings, the repositories served, and the requests made
- `http`, `error`: requests, the meaning of replies, and what can go wrong
- `pr`, `ui`, `desc`, `text`: pull requests, messages, documents and texts

Work on the network alternates with decisions. Each of `webhook`, `access`,
`teams` and `delivery` is therefore a machine that tells the next step and
takes what came of it; `app/` runs the machines over HTTP and JSON.
