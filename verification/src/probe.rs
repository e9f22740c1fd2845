//! The domain prober's verified half: building the well-known challenge URL
//! and classifying a response against the expected token. The HTTP fetch
//! itself is the caller's: it hands the outcome in as a [`ProbeResult`].

use vstd::prelude::*;
use vstd::string::StringExecFns;
use crate::model::{challenge_url_spec, check_spec, outcome_view, CheckError, ProbeResult};

verus! {

/// Upper bound, in seconds, that a caller must put on one probe's full
/// request/response cycle; a fetch that exceeds it is handed in as a
/// transport failure.
pub const REQUEST_TIMEOUT_SECS: u64 = 30;

/// Builds the well-known ACME HTTP-01 challenge URL for `dns_name` and
/// `token`.
pub fn challenge_url(dns_name: &String, token: &String) -> (url: String)
    ensures
        url@ == challenge_url_spec(dns_name@, token@),
{
    let mut url = String::new();
    url.append("http://");
    url.append(dns_name.as_str());
    url.append("/.well-known/acme-challenge/");
    url.append(token.as_str());
    proof {
        assert(url@ =~= challenge_url_spec(dns_name@, token@));
    }
    url
}

/// Classifies one probe of a challenge URL against the expected token. The
/// check passes exactly when the responder replied with status 200 and the
/// token as the whole body; any other status fails on the status code, a 200
/// with another body is a body mismatch, and a transport failure (including a
/// timeout) is a network error with its cause.
pub fn check(token: &String, probe: &ProbeResult) -> (r: Result<(), CheckError>)
    ensures
        outcome_view(r) == check_spec(token@, probe@),
{
    match probe {
        ProbeResult::TransportFailure { cause } => Err(
            CheckError::NetworkError { cause: cause.clone() },
        ),
        ProbeResult::Reply { status, body } => {
            if *status != 200 {
                Err(CheckError::UnexpectedStatus { code: *status })
            } else if !body.eq(token) {
                Err(CheckError::BodyMismatch)
            } else {
                Ok(())
            }
        },
    }
}

} // verus!
