//! The errors this SDK surfaces, and how an HTTP status maps onto them.

use vstd::prelude::*;
use reqwest::Error as ReqwestError;
use crate::text::{spec_decimal, u64_to_string};

verus! {

/// Declares `reqwest::Error` so that it can be carried opaquely inside
/// [`Error`]; nothing is assumed about its contents.
#[verifier::external_type_specification]
#[verifier::external_body]
pub struct ExReqwestError(ReqwestError);

/// An error coming from this SDK — unexpected or not.
#[derive(Debug)]
pub enum Error {
    /// An unexpected internal error coming from the HTTP client itself,
    /// preventing it from sending a request to the listing service.
    InternalClientError(ReqwestError),
    /// An unexpected error coming from the listing service's servers.
    InternalServerError,
    /// The requested resource does not exist. (404)
    NotFound,
    /// The client is being ratelimited from sending more HTTP requests.
    Ratelimit {
        /// The amount of seconds before the ratelimit is lifted.
        retry_after: u16,
    },
}

/// What [`Error::message`] renders for each error.
pub open spec fn spec_error_message(e: &Error) -> Seq<char> {
    match e {
        Error::InternalClientError(_) => "internal client error"@,
        Error::InternalServerError => "internal server error"@,
        Error::NotFound => "not found"@,
        Error::Ratelimit { retry_after } => "this client is ratelimited, try again in "@
            + spec_decimal(*retry_after as int / 60) + " seconds"@,
    }
}

impl Error {
    /// A human-readable description of the error.
    pub fn message(&self) -> (r: String)
        ensures
            r@ == spec_error_message(self),
    {
        match self {
            Error::InternalClientError(_) => String::from_str("internal client error"),
            Error::InternalServerError => String::from_str("internal server error"),
            Error::NotFound => String::from_str("not found"),
            Error::Ratelimit { retry_after } => {
                let mut r = String::from_str("this client is ratelimited, try again in ");
                let num = u64_to_string((*retry_after / 60) as u64);
                r.append(num.as_str());
                r.append(" seconds");
                r
            },
        }
    }
}

/// What status a response must carry for the request to have succeeded.
pub open spec fn spec_status_is_success(status: u16) -> bool {
    200 <= status < 300
}

/// Maps a response's HTTP status, with the ratelimit delay parsed from its
/// body if any, onto the request's outcome: success for a 2xx status,
/// [`Error::NotFound`] for 404, [`Error::Ratelimit`] for 429 when the delay
/// is known, and [`Error::InternalServerError`] for everything else. An
/// unauthorized status is refused here: the token is a programming error the
/// caller must rule out.
pub fn classify_status(status: u16, retry_after: Option<u16>) -> (r: Result<(), Error>)
    requires
        status != 401,
    ensures
        spec_status_is_success(status) ==> r is Ok,
        !spec_status_is_success(status) ==> match r {
            Err(Error::NotFound) => status == 404,
            Err(Error::Ratelimit { retry_after: ra }) => status == 429 && retry_after
                == Some(ra),
            Err(Error::InternalServerError) => status != 404 && !(status == 429
                && retry_after is Some),
            _ => false,
        },
{
    if 200 <= status && status < 300 {
        Ok(())
    } else if status == 404 {
        Err(Error::NotFound)
    } else if status == 429 {
        match retry_after {
            Some(ra) => Err(Error::Ratelimit { retry_after: ra }),
            None => Err(Error::InternalServerError),
        }
    } else {
        Err(Error::InternalServerError)
    }
}

} // verus!
