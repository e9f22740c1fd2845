use acme_check::model::{CheckError, ProbeResult};
use acme_check::probe::{challenge_url, check, REQUEST_TIMEOUT_SECS};

fn token() -> String {
    String::from("deadbeefcafe")
}

#[test]
fn check_passes_on_200_with_exact_token() {
    let probe = ProbeResult::Reply { status: 200, body: token() };
    assert_eq!(check(&token(), &probe), Ok(()));
}

#[test]
fn check_fails_on_404_with_that_status() {
    let probe = ProbeResult::Reply { status: 404, body: token() };
    assert_eq!(
        check(&token(), &probe),
        Err(CheckError::UnexpectedStatus { code: 404 })
    );
}

#[test]
fn check_fails_on_any_non_200_status_regardless_of_body() {
    for code in [201u16, 204, 301, 302, 403, 500, 503] {
        let probe = ProbeResult::Reply { status: code, body: token() };
        assert_eq!(
            check(&token(), &probe),
            Err(CheckError::UnexpectedStatus { code })
        );
    }
}

#[test]
fn check_fails_on_body_off_by_one_character() {
    let probe = ProbeResult::Reply { status: 200, body: String::from("deadbeefcaff") };
    assert_eq!(check(&token(), &probe), Err(CheckError::BodyMismatch));
}

#[test]
fn check_fails_on_longer_body_containing_token() {
    let probe = ProbeResult::Reply { status: 200, body: String::from("deadbeefcafe\n") };
    assert_eq!(check(&token(), &probe), Err(CheckError::BodyMismatch));
}

#[test]
fn check_fails_on_empty_body() {
    let probe = ProbeResult::Reply { status: 200, body: String::new() };
    assert_eq!(check(&token(), &probe), Err(CheckError::BodyMismatch));
}

#[test]
fn transport_failure_becomes_network_error_with_cause() {
    let probe = ProbeResult::TransportFailure {
        cause: String::from("timed out reading response"),
    };
    assert_eq!(
        check(&token(), &probe),
        Err(CheckError::NetworkError { cause: String::from("timed out reading response") })
    );
}

#[test]
fn challenge_url_is_the_well_known_http_path() {
    let url = challenge_url(&String::from("www.example.com"), &token());
    assert_eq!(url, "http://www.example.com/.well-known/acme-challenge/deadbeefcafe");
}

#[test]
fn request_timeout_bound_is_thirty_seconds() {
    assert_eq!(REQUEST_TIMEOUT_SECS, 30);
}
