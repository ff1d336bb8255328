//! Requests to GitHub and what their responses' statuses mean.

use crate::error::GithubRequestError;
use crate::text;
use vstd::prelude::*;

verus! {

/// The method of a request.
#[derive(Clone, Copy, Debug, Eq, PartialEq, Structural)]
pub enum Method {
    Get,
    Post,
}

/// Which form of a document a request asks for.
#[derive(Clone, Copy, Debug, Eq, PartialEq, Structural)]
pub enum AcceptType {
    /// The usual form.
    Regular,
    /// The form that tells what a team may do with a repository.
    Repository,
}

/// One header of a request.
#[derive(Debug, Eq, PartialEq)]
pub struct Header {
    pub name: String,
    pub value: Vec<u8>,
}

/// A request to send.
#[derive(Debug, Eq, PartialEq)]
pub struct ApiRequest {
    pub method: Method,
    pub url: String,
    pub headers: Vec<Header>,
    pub body: Option<Vec<u8>>,
}

/// A header with its name and its value as sequences.
pub struct HeaderModel {
    pub name: Seq<char>,
    pub value: Seq<u8>,
}

/// A request with its texts and bytes as sequences.
pub struct RequestModel {
    pub method: Method,
    pub url: Seq<char>,
    pub headers: Seq<HeaderModel>,
    pub body: Option<Seq<u8>>,
}

impl View for Header {
    type V = HeaderModel;

    open spec fn view(&self) -> HeaderModel {
        HeaderModel { name: self.name@, value: self.value@ }
    }
}

impl View for ApiRequest {
    type V = RequestModel;

    open spec fn view(&self) -> RequestModel {
        RequestModel {
            method: self.method,
            url: self.url@,
            headers: Seq::new(self.headers@.len(), |i: int| self.headers@[i]@),
            body: match self.body {
                Some(b) => Some(b@),
                None => None,
            },
        }
    }
}

/// The value of the `Accept` header.
pub open spec fn accept_value(accept_type: AcceptType) -> Seq<u8> {
    match accept_type {
        AcceptType::Regular => text::utf8("application/vnd.github.v3+json"@),
        AcceptType::Repository => text::utf8("application/vnd.github.v3.repository+json"@),
    }
}

/// The headers of every request: the form asked for, the credentials, and the
/// name of this program.
pub open spec fn authed_headers(accept_type: AcceptType, authorization: Seq<u8>) -> Seq<
    HeaderModel,
> {
    seq![
        HeaderModel { name: "Accept"@, value: accept_value(accept_type) },
        HeaderModel { name: "Authorization"@, value: authorization },
        HeaderModel {
            name: "User-Agent"@,
            value: text::utf8("aelita/0.1 (https://github.com/AelitaBot/aelita)"@),
        },
    ]
}

/// A request with these headers and no body.
pub open spec fn authed(
    method: Method,
    accept_type: AcceptType,
    url: Seq<char>,
    authorization: Seq<u8>,
) -> RequestModel {
    RequestModel { method, url, headers: authed_headers(accept_type, authorization), body: None }
}

/// Builds one header.
fn header(name: &str, value: &[u8]) -> (r: Header)
    ensures
        r@ == (HeaderModel { name: name@, value: value@ }),
{
    Header { name: name.to_owned(), value: vstd::slice::slice_to_vec(value) }
}

/// Builds a request that carries the given credentials.
pub fn authed_request(
    method: Method,
    accept_type: AcceptType,
    url: String,
    authorization: &Vec<u8>,
) -> (r: ApiRequest)
    ensures
        r@ == authed(method, accept_type, url@, authorization@),
        r.method == method,
        r.url@ == url@,
        r.body is None,
        r.headers@.len() == 3,
        r.headers@[0].name@ == "Accept"@,
        r.headers@[0].value@ == vstd::utf8::encode_utf8(
            match accept_type {
                AcceptType::Regular => "application/vnd.github.v3+json"@,
                AcceptType::Repository => "application/vnd.github.v3.repository+json"@,
            },
        ),
        r.headers@[1].name@ == "Authorization"@,
        r.headers@[1].value@ == authorization@,
        r.headers@[2].name@ == "User-Agent"@,
        r.headers@[2].value@ == vstd::utf8::encode_utf8(
            "aelita/0.1 (https://github.com/AelitaBot/aelita)"@,
        ),
{
    let accept = match accept_type {
        AcceptType::Regular => "application/vnd.github.v3+json",
        AcceptType::Repository => "application/vnd.github.v3.repository+json",
    };
    let mut headers: Vec<Header> = Vec::new();
    headers.push(header("Accept", accept.as_bytes()));
    headers.push(header("Authorization", authorization.as_slice()));
    headers.push(
        header("User-Agent", "aelita/0.1 (https://github.com/AelitaBot/aelita)".as_bytes()),
    );
    let r = ApiRequest { method, url, headers, body: None };
    assert(r@.headers =~= authed_headers(accept_type, authorization@));
    r
}

/// Whether a status is a success: 200 to 299.
pub open spec fn success(code: u16) -> bool {
    200 <= code < 300
}

/// Whether a status says that there is no such thing: 404.
pub open spec fn not_found(code: u16) -> bool {
    code == 404
}

/// `hyper::status::StatusCode::is_success`, of the status with the given
/// number. Claimed: a status is a success if its number is from 200 to 299,
/// and not otherwise, be it registered or not.
#[verifier::external_body]
pub(crate) fn is_success(code: u16) -> (r: bool)
    ensures
        r == success(code),
{
    hyper::status::StatusCode::from_u16(code).is_success()
}

/// `hyper::status::StatusCode::eq`, of the status with the given number and
/// `NotFound`. Claimed: two statuses are equal if their numbers are, and the
/// number of `NotFound` is 404.
#[verifier::external_body]
pub(crate) fn is_not_found(code: u16) -> (r: bool)
    ensures
        r == not_found(code),
{
    hyper::status::StatusCode::from_u16(code) == hyper::status::StatusCode::NotFound
}

/// What a reply says about whether somebody belongs to a group: a success
/// that they do, "not found" that they do not, anything else is an error.
pub open spec fn membership(reply: Result<u16, hyper::error::Error>) -> Result<
    bool,
    GithubRequestError,
> {
    match reply {
        Err(e) => Err(GithubRequestError::Http(e)),
        Ok(code) => if not_found(code) {
            Ok(false)
        } else if success(code) {
            Ok(true)
        } else {
            Err(GithubRequestError::HttpStatus(code))
        },
    }
}

/// Reads a reply about whether somebody belongs to a group. The reply is the
/// status of the response, or why there is none.
pub fn read_membership(reply: Result<u16, hyper::error::Error>) -> (r: Result<
    bool,
    GithubRequestError,
>)
    ensures
        r == membership(reply),
{
    match reply {
        Err(e) => Err(GithubRequestError::from(e)),
        Ok(code) => if is_not_found(code) {
            Ok(false)
        } else if is_success(code) {
            Ok(true)
        } else {
            Err(GithubRequestError::HttpStatus(code))
        },
    }
}

/// What a reply says about whether a request was carried out: only a success
/// says so.
pub open spec fn acceptance(reply: Result<u16, hyper::error::Error>) -> Result<
    (),
    GithubRequestError,
> {
    match reply {
        Err(e) => Err(GithubRequestError::Http(e)),
        Ok(code) => if success(code) {
            Ok(())
        } else {
            Err(GithubRequestError::HttpStatus(code))
        },
    }
}

/// Reads a reply about whether a request was carried out.
pub fn read_acceptance(reply: Result<u16, hyper::error::Error>) -> (r: Result<
    (),
    GithubRequestError,
>)
    ensures
        r == acceptance(reply),
{
    match reply {
        Err(e) => Err(GithubRequestError::from(e)),
        Ok(code) => if is_success(code) {
            Ok(())
        } else {
            Err(GithubRequestError::HttpStatus(code))
        },
    }
}

/// A request carries what it was asked to carry, and has no body: the method
/// and the address as they were given, one header for the form, one with
/// exactly the credentials, and one that names this program.
pub proof fn requests_carry_what_they_should(
    method: Method,
    accept_type: AcceptType,
    url: Seq<char>,
    authorization: Seq<u8>,
)
    ensures
        ({
            let request = authed(method, accept_type, url, authorization);
            &&& request.method == method
            &&& request.url == url
            &&& request.body is None
            &&& request.headers.len() == 3
            &&& request.headers[0].name == "Accept"@
            &&& vstd::utf8::decode_utf8(request.headers[0].value) == (match accept_type {
                AcceptType::Regular => "application/vnd.github.v3+json"@,
                AcceptType::Repository => "application/vnd.github.v3.repository+json"@,
            })
            &&& request.headers[1].name == "Authorization"@
            &&& request.headers[1].value == authorization
            &&& request.headers[2].name == "User-Agent"@
            &&& vstd::utf8::decode_utf8(request.headers[2].value)
                == "aelita/0.1 (https://github.com/AelitaBot/aelita)"@
        }),
{
    text::utf8_reads_back("application/vnd.github.v3+json"@);
    text::utf8_reads_back("application/vnd.github.v3.repository+json"@);
    text::utf8_reads_back("aelita/0.1 (https://github.com/AelitaBot/aelita)"@);
}

/// A question about a group is answered with yes by the statuses 200 to 299 and
/// by no other, and with no by 404 and by no other. Any other status is an error
/// that tells the status, and where there is no response the error tells why.
pub proof fn answers_about_groups(code: u16, error: hyper::error::Error)
    ensures
        membership(Ok(code)) == Ok::<bool, GithubRequestError>(true) <==> 200 <= code <= 299,
        membership(Ok(code)) == Ok::<bool, GithubRequestError>(false) <==> code == 404,
        !(200 <= code <= 299) && code != 404 ==> membership(Ok(code)) == Err::<
            bool,
            GithubRequestError,
        >(GithubRequestError::HttpStatus(code)),
        membership(Err(error)) == Err::<bool, GithubRequestError>(GithubRequestError::Http(error)),
{
}

/// A request was carried out if its status is from 200 to 299, and only then.
/// Any other status is an error that tells the status, and where there is no
/// response the error tells why.
pub proof fn answers_about_requests(code: u16, error: hyper::error::Error)
    ensures
        acceptance(Ok(code)) is Ok <==> 200 <= code <= 299,
        !(200 <= code <= 299) ==> acceptance(Ok(code)) == Err::<(), GithubRequestError>(
            GithubRequestError::HttpStatus(code),
        ),
        acceptance(Err(error)) == Err::<(), GithubRequestError>(GithubRequestError::Http(error)),
{
}

} // verus!
