//! Repositories and pull requests.

use crate::text::{self, decimal_text};
use std::num::ParseIntError;
use std::str::FromStr;
use vstd::prelude::*;

verus! {

/// A repository, by its owner and its name.
#[derive(Debug, Hash)]
pub struct Repo {
    pub owner: String,
    pub repo: String,
}

/// The owner and the name of a repository as sequences of characters.
pub struct RepoModel {
    pub owner: Seq<char>,
    pub repo: Seq<char>,
}

impl View for Repo {
    type V = RepoModel;

    open spec fn view(&self) -> RepoModel {
        RepoModel { owner: self.owner@, repo: self.repo@ }
    }
}

impl Clone for Repo {
    fn clone(&self) -> (r: Repo)
        ensures
            r@ == self@,
    {
        Repo { owner: self.owner.clone(), repo: self.repo.clone() }
    }
}

impl PartialEq for Repo {
    fn eq(&self, other: &Repo) -> (r: bool) {
        self.owner == other.owner && self.repo == other.repo
    }
}

impl Eq for Repo {

}

impl vstd::std_specs::cmp::PartialEqSpecImpl for Repo {
    open spec fn obeys_eq_spec() -> bool {
        true
    }

    open spec fn eq_spec(&self, other: &Repo) -> bool {
        self.owner@ == other.owner@ && self.repo@ == other.repo@
    }
}

/// A pull request, by its number.
#[derive(Clone, Copy, Debug, Eq, PartialEq, Structural)]
pub struct Pr(pub u32);

/// The name under which a remote offers the head of pull request `n`.
pub open spec fn remote_name(n: u32) -> Seq<char> {
    "pull/"@ + text::decimal(n as nat) + "/head"@
}

/// The error that `str::parse::<u32>` gives for a text that it refuses.
pub uninterp spec fn u32_parse_error(s: Seq<char>) -> ParseIntError;

/// `str::parse::<u32>`. Claimed: it accepts an optional `+` and then decimal
/// digits only, at least one of them, with a value that fits into a `u32`,
/// and gives that value; it refuses any other text, with an error that
/// depends on the text alone. Which kind of error that is, is left unsaid.
#[verifier::external_body]
fn parse_u32(s: &str) -> (r: Result<u32, ParseIntError>)
    ensures
        match text::number_in(s@) {
            Some(n) => r == Ok::<u32, ParseIntError>(n),
            None => r == Err::<u32, ParseIntError>(u32_parse_error(s@)),
        },
{
    s.parse::<u32>()
}

impl Pr {
    /// The name under which a remote offers the head of this pull request.
    pub fn remote(&self) -> (r: String)
        ensures
            r@ == remote_name(self.0),
            text::spells(r@, seq!["pull/"@, text::decimal(self.0 as nat), "/head"@]),
    {
        proof {
            text::spell_3("pull/"@, text::decimal(self.0 as nat), "/head"@);
        }
        let mut name = "pull/".to_owned();
        name.append(decimal_text(self.0).as_str());
        name.append("/head");
        name
    }

    /// The number of the pull request, in decimal.
    pub fn to_string(&self) -> (r: String)
        ensures
            r@ == text::decimal(self.0 as nat),
    {
        decimal_text(self.0)
    }
}

impl FromStr for Pr {
    type Err = ParseIntError;

    /// Reads the number of a pull request.
    fn from_str(s: &str) -> (r: Result<Pr, ParseIntError>)
        ensures
            match text::number_in(s@) {
                Some(n) => r == Ok::<Pr, ParseIntError>(Pr(n)),
                None => r == Err::<Pr, ParseIntError>(u32_parse_error(s@)),
            },
    {
        match parse_u32(s) {
            Ok(n) => Ok(Pr(n)),
            Err(e) => Err(e),
        }
    }
}

/// The number of a pull request, in decimal. What the text is, `from` itself
/// states: there is no spec-level `String` to state it by.
impl From<Pr> for String {
    fn from(pr: Pr) -> (r: String)
        ensures
            r@ == text::decimal(pr.0 as nat),
    {
        decimal_text(pr.0)
    }
}

impl vstd::std_specs::convert::FromSpecImpl<Pr> for String {
    open spec fn obeys_from_spec() -> bool {
        false
    }

    open spec fn from_spec(pr: Pr) -> String {
        arbitrary()
    }
}

/// Reading the text of a pull request gives that pull request: what
/// `to_string` and the conversion into a `String` write, `from_str` accepts
/// and reads back.
pub proof fn pr_text_reads_back(pr: Pr)
    ensures
        text::number_in(text::decimal(pr.0 as nat)) == Some(pr.0),
{
    text::number_reads_back(pr.0);
}

/// Different pull requests have different remote names.
pub proof fn remote_names_differ(a: Pr, b: Pr)
    requires
        a.0 != b.0,
    ensures
        remote_name(a.0) != remote_name(b.0),
{
    let da = text::decimal(a.0 as nat);
    let db = text::decimal(b.0 as nat);
    text::number_reads_back(a.0);
    text::number_reads_back(b.0);
    if remote_name(a.0) == remote_name(b.0) {
        let head = "pull/"@.len() as int;
        assert(remote_name(a.0).len() == head + da.len() + "/head"@.len());
        assert(remote_name(b.0).len() == head + db.len() + "/head"@.len());
        assert(remote_name(a.0).subrange(head, head + da.len()) == da);
        assert(remote_name(b.0).subrange(head, head + db.len()) == db);
    }
}

/// Two repositories are the same exactly if both their owners and their names
/// are: neither alone tells them apart or makes them one.
pub proof fn repositories_go_by_owner_and_name(a: Repo, b: Repo)
    ensures
        a@ == b@ <==> a.owner@ == b.owner@ && a.repo@ == b.repo@,
        a@.owner == a.owner@,
        a@.repo == a.repo@,
{
}

/// The remote name of a pull request is its number between `pull/` and `/head`.
pub proof fn remote_name_spelled_out(n: u32)
    ensures
        text::spells(remote_name(n), seq!["pull/"@, text::decimal(n as nat), "/head"@]),
{
    text::spell_3("pull/"@, text::decimal(n as nat), "/head"@);
}

} // verus!
