//! Data model of one orchestration run and its mathematical image.
//!
//! Every executable type here has a view made of sequences and plain values;
//! the spec functions at the bottom say, over those views, which certificates
//! a filter selects, which (certificate, DNS name) pairs a run probes, and how
//! one probe outcome is classified against the expected token.

use vstd::prelude::*;

verus! {

/// A certificate descriptor as configuration supplies it: a display name and
/// the DNS names the certificate covers.
#[derive(Debug, PartialEq, Eq)]
pub struct Certificate {
    pub name: String,
    pub dns_names: Vec<String>,
}

/// Mathematical image of a [`Certificate`].
pub struct CertView {
    pub name: Seq<char>,
    pub dns_names: Seq<Seq<char>>,
}

impl View for Certificate {
    type V = CertView;

    open spec fn view(&self) -> CertView {
        CertView { name: self.name@, dns_names: name_views(self.dns_names@) }
    }
}

/// One (certificate name, DNS name) pair that a run probes.
#[derive(Debug, PartialEq, Eq)]
pub struct CheckTarget {
    pub cert_name: String,
    pub dns_name: String,
}

/// Mathematical image of a [`CheckTarget`].
pub struct TargetView {
    pub cert_name: Seq<char>,
    pub dns_name: Seq<char>,
}

impl View for CheckTarget {
    type V = TargetView;

    open spec fn view(&self) -> TargetView {
        TargetView { cert_name: self.cert_name@, dns_name: self.dns_name@ }
    }
}

/// What one HTTP fetch of a challenge URL produced: a reply, with its status
/// code and full body, or a transport-level failure (DNS resolution,
/// connection, TLS, timeout), with a description of the cause.
#[derive(Debug, PartialEq, Eq)]
pub enum ProbeResult {
    Reply { status: u16, body: String },
    TransportFailure { cause: String },
}

/// Mathematical image of a [`ProbeResult`].
pub enum ProbeView {
    Reply { status: u16, body: Seq<char> },
    TransportFailure { cause: Seq<char> },
}

impl View for ProbeResult {
    type V = ProbeView;

    open spec fn view(&self) -> ProbeView {
        match self {
            ProbeResult::Reply { status, body } => ProbeView::Reply {
                status: *status,
                body: body@,
            },
            ProbeResult::TransportFailure { cause } => ProbeView::TransportFailure {
                cause: cause@,
            },
        }
    }
}

/// Why one check failed.
#[derive(Debug, PartialEq, Eq)]
pub enum CheckError {
    /// The request did not complete: DNS, connection, transport or timeout.
    NetworkError { cause: String },
    /// The responder answered with a status other than 200.
    UnexpectedStatus { code: u16 },
    /// The responder answered 200, but the body was not the token.
    BodyMismatch,
}

/// Outcome of classifying one probe: a pass, or the failure's cause.
pub enum CheckView {
    Pass,
    NetworkError { cause: Seq<char> },
    UnexpectedStatus { code: u16 },
    BodyMismatch,
}

impl View for CheckError {
    type V = CheckView;

    open spec fn view(&self) -> CheckView {
        match self {
            CheckError::NetworkError { cause } => CheckView::NetworkError { cause: cause@ },
            CheckError::UnexpectedStatus { code } => CheckView::UnexpectedStatus { code: *code },
            CheckError::BodyMismatch => CheckView::BodyMismatch,
        }
    }
}

/// The view of a whole check result: `Ok` is a pass, an error keeps its cause.
pub open spec fn outcome_view(r: Result<(), CheckError>) -> CheckView {
    match r {
        Result::Ok(_) => CheckView::Pass,
        Result::Err(e) => e@,
    }
}

/// One logged check: which pair was probed and what came of it.
#[derive(Debug, PartialEq, Eq)]
pub struct CheckRecord {
    pub cert_name: String,
    pub dns_name: String,
    pub outcome: Result<(), CheckError>,
}

/// Mathematical image of a [`CheckRecord`].
pub struct RecordView {
    pub cert_name: Seq<char>,
    pub dns_name: Seq<char>,
    pub outcome: CheckView,
}

impl View for CheckRecord {
    type V = RecordView;

    open spec fn view(&self) -> RecordView {
        RecordView {
            cert_name: self.cert_name@,
            dns_name: self.dns_name@,
            outcome: outcome_view(self.outcome),
        }
    }
}

/// A failure of the run itself, as opposed to one check.
#[derive(Debug, PartialEq, Eq)]
pub enum RunError {
    /// The token could not be made servable; no checks were attempted.
    PublishError { cause: String },
    /// Teardown failed after all checks were attempted.
    CleanupError { cause: String },
}

/// Mathematical image of a [`RunError`].
pub enum RunErrorView {
    PublishError { cause: Seq<char> },
    CleanupError { cause: Seq<char> },
}

impl View for RunError {
    type V = RunErrorView;

    open spec fn view(&self) -> RunErrorView {
        match self {
            RunError::PublishError { cause } => RunErrorView::PublishError { cause: cause@ },
            RunError::CleanupError { cause } => RunErrorView::CleanupError { cause: cause@ },
        }
    }
}

/// The views of a sequence of names.
pub open spec fn name_views(names: Seq<String>) -> Seq<Seq<char>> {
    names.map_values(|n: String| n@)
}

/// The views of a sequence of certificates.
pub open spec fn cert_views(certs: Seq<Certificate>) -> Seq<CertView> {
    certs.map_values(|c: Certificate| c@)
}

/// The views of a sequence of targets.
pub open spec fn target_views(targets: Seq<CheckTarget>) -> Seq<TargetView> {
    targets.map_values(|t: CheckTarget| t@)
}

/// The views of a sequence of probe results.
pub open spec fn probe_views(probes: Seq<ProbeResult>) -> Seq<ProbeView> {
    probes.map_values(|p: ProbeResult| p@)
}

/// The views of a sequence of check records.
pub open spec fn record_views(records: Seq<CheckRecord>) -> Seq<RecordView> {
    records.map_values(|r: CheckRecord| r@)
}

/// A certificate is selected when the filter is empty or holds its name;
/// membership is all that counts.
pub open spec fn cert_selected(c: CertView, filter: Seq<Seq<char>>) -> bool {
    filter.len() == 0 || filter.contains(c.name)
}

/// The certificates a run covers: those the filter selects, in their original
/// relative order. An empty filter selects every certificate; filter names
/// that match nothing are ignored.
pub open spec fn selected_spec(certs: Seq<CertView>, filter: Seq<Seq<char>>) -> Seq<CertView>
    decreases certs.len(),
{
    if certs.len() == 0 {
        Seq::empty()
    } else if cert_selected(certs[0], filter) {
        seq![certs[0]] + selected_spec(certs.drop_first(), filter)
    } else {
        selected_spec(certs.drop_first(), filter)
    }
}

/// The probe targets one certificate contributes: one per DNS name, in order.
pub open spec fn cert_targets(c: CertView) -> Seq<TargetView> {
    c.dns_names.map_values(|d: Seq<char>| TargetView { cert_name: c.name, dns_name: d })
}

/// The full probe plan over a certificate list: every certificate's targets,
/// certificates in order, DNS names in order within each certificate.
pub open spec fn plan_spec(certs: Seq<CertView>) -> Seq<TargetView>
    decreases certs.len(),
{
    if certs.len() == 0 {
        Seq::empty()
    } else {
        cert_targets(certs[0]) + plan_spec(certs.drop_first())
    }
}

/// How one probe outcome is classified against the expected token: a pass
/// needs status exactly 200 and a body equal to the token; a non-200 status
/// fails on the status whatever the body; a 200 with another body is a
/// mismatch; a transport failure keeps its cause.
pub open spec fn check_spec(token: Seq<char>, probe: ProbeView) -> CheckView {
    match probe {
        ProbeView::TransportFailure { cause } => CheckView::NetworkError { cause },
        ProbeView::Reply { status, body } => if status != 200 {
            CheckView::UnexpectedStatus { code: status }
        } else if body != token {
            CheckView::BodyMismatch
        } else {
            CheckView::Pass
        },
    }
}

/// The well-known ACME HTTP-01 URL for a DNS name and token: plain HTTP on
/// the default port.
pub open spec fn challenge_url_spec(dns_name: Seq<char>, token: Seq<char>) -> Seq<char> {
    "http://"@ + dns_name + "/.well-known/acme-challenge/"@ + token
}

} // verus!
