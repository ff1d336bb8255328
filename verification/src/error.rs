//! What can go wrong while talking to GitHub.

use crate::ui::PipelineId;
use std::num::ParseIntError;
use vstd::prelude::*;

verus! {

/// `hyper::error::Error`: why no response came back. It is only carried.
#[verifier::external_type_specification]
#[verifier::external_body]
pub struct ExHyperError(hyper::error::Error);

/// `serde_json::error::Error`: why a JSON text could not be read or written.
/// It is only carried.
#[verifier::external_type_specification]
#[verifier::external_body]
pub struct ExJsonError(serde_json::error::Error);

/// `std::num::ParseIntError`: why a text is not a number. It is only carried.
#[verifier::external_type_specification]
#[verifier::external_body]
pub struct ExParseIntError(ParseIntError);

/// Why a request to GitHub did not do what it was sent for.
#[derive(Debug)]
pub enum GithubRequestError {
    /// The response has a status that is not a success.
    HttpStatus(u16),
    /// HTTP-level error
    Http(hyper::error::Error),
    /// Integer parsing error
    Int(ParseIntError),
    /// JSON error
    Json(serde_json::error::Error),
    /// Repo not found for pipeline
    Pipeline(PipelineId),
}

impl From<hyper::error::Error> for GithubRequestError {
    fn from(err: hyper::error::Error) -> (r: GithubRequestError) {
        GithubRequestError::Http(err)
    }
}

impl vstd::std_specs::convert::FromSpecImpl<hyper::error::Error> for GithubRequestError {
    open spec fn obeys_from_spec() -> bool {
        true
    }

    open spec fn from_spec(err: hyper::error::Error) -> GithubRequestError {
        GithubRequestError::Http(err)
    }
}

impl From<ParseIntError> for GithubRequestError {
    fn from(err: ParseIntError) -> (r: GithubRequestError) {
        GithubRequestError::Int(err)
    }
}

impl vstd::std_specs::convert::FromSpecImpl<ParseIntError> for GithubRequestError {
    open spec fn obeys_from_spec() -> bool {
        true
    }

    open spec fn from_spec(err: ParseIntError) -> GithubRequestError {
        GithubRequestError::Int(err)
    }
}

impl From<serde_json::error::Error> for GithubRequestError {
    fn from(err: serde_json::error::Error) -> (r: GithubRequestError) {
        GithubRequestError::Json(err)
    }
}

impl vstd::std_specs::convert::FromSpecImpl<serde_json::error::Error> for GithubRequestError {
    open spec fn obeys_from_spec() -> bool {
        true
    }

    open spec fn from_spec(err: serde_json::error::Error) -> GithubRequestError {
        GithubRequestError::Json(err)
    }
}

} // verus!
