//! The verification orchestrator: the decision logic of one run.
//!
//! A run brackets its checks between one token allocation and one teardown.
//! The outside work — publishing the token, each HTTP fetch, the teardown —
//! happens outside the library; a driver asks the [`Orchestrator`] what to do
//! next and hands each outcome back as a plain value. [`run`] replays a whole
//! run from its outcomes at once and returns the report the driver would have
//! assembled.

use vstd::prelude::*;
use crate::filter::filter_certs;
use crate::model::{
    cert_targets, cert_views, challenge_url_spec, check_spec, name_views, plan_spec, probe_views,
    record_views, selected_spec, target_views, CertView, Certificate, CheckRecord, CheckTarget,
    ProbeResult, ProbeView, RecordView, RunError, RunErrorView, TargetView,
};
use crate::probe::{challenge_url, check};

verus! {

/// Where in its lifecycle a run stands.
pub enum Phase {
    /// The token has not been allocated yet; no check has run.
    Setup,
    /// The token is servable; checks are under way.
    Checking,
    /// The run is over: either allocation failed, or teardown was attempted.
    Done,
}

/// The state machine of one orchestration run.
///
/// A driver builds it from the configured certificates and the caller's
/// filter, reports the allocation outcome, probes the targets one at a time in
/// order, hands each probe outcome back, and finally reports the teardown
/// outcome. The contracts force the run shape: allocation first, exactly one
/// teardown, and one recorded outcome per selected (certificate, DNS name)
/// pair, whatever each check returned.
pub struct Orchestrator {
    /// Every (certificate name, DNS name) pair the run covers, in order.
    pub targets: Vec<CheckTarget>,
    /// The run's token, once allocation has succeeded.
    pub token: Option<String>,
    /// How many targets have been attempted.
    pub next: usize,
    /// Whether teardown has been attempted.
    pub cleanup_attempted: bool,
    /// Where the run stands.
    pub phase: Phase,
}

impl Orchestrator {
    /// The state is consistent with its phase.
    pub open spec fn wf(&self) -> bool {
        &&& self.next <= self.targets.len()
        &&& (self.phase is Setup ==> self.next == 0 && self.token is None
            && !self.cleanup_attempted)
        &&& (self.phase is Checking ==> self.token is Some && !self.cleanup_attempted)
    }

    /// The run's token, where one exists.
    pub open spec fn active_token(&self) -> Seq<char> {
        match self.token {
            Some(t) => t@,
            None => Seq::empty(),
        }
    }

    /// Sets a run up: the targets are every DNS name of every certificate the
    /// filter selects, certificates in their original order, DNS names in
    /// order within each certificate.
    pub fn new(certs: Vec<Certificate>, filter: &Vec<String>) -> (r: Orchestrator)
        ensures
            r.wf(),
            r.phase is Setup,
            r.next == 0,
            !r.cleanup_attempted,
            target_views(r.targets@) == plan_spec(
                selected_spec(cert_views(certs@), name_views(filter@)),
            ),
    {
        let selected = filter_certs(certs, filter);
        let targets = build_targets(selected);
        Orchestrator {
            targets,
            token: None,
            next: 0,
            cleanup_attempted: false,
            phase: Phase::Setup,
        }
    }

    /// Takes the allocation outcome. On success the checks may start; on
    /// failure the run is over at once, no check is attempted and no teardown
    /// will be, and the error surfaces as the run's result.
    pub fn on_allocated(&mut self, outcome: Result<String, String>) -> (r: Result<(), RunError>)
        requires
            old(self).wf(),
            old(self).phase is Setup,
        ensures
            final(self).wf(),
            final(self).targets == old(self).targets,
            final(self).next == 0,
            !final(self).cleanup_attempted,
            outcome matches Ok(token) ==> final(self).phase is Checking && final(self).token
                == Some(token) && r is Ok,
            outcome matches Err(cause) ==> final(self).phase is Done && final(self).token is None
                && r == Err::<(), RunError>(RunError::PublishError { cause }),
    {
        match outcome {
            Ok(token) => {
                self.token = Some(token);
                self.phase = Phase::Checking;
                Ok(())
            },
            Err(cause) => {
                self.phase = Phase::Done;
                Err(RunError::PublishError { cause })
            },
        }
    }

    /// The next pair to probe, if any remains.
    pub fn next_target(&self) -> (t: Option<&CheckTarget>)
        requires
            self.wf(),
        ensures
            t is Some <==> (self.phase is Checking && self.next < self.targets.len()),
            t matches Some(x) ==> *x == self.targets@[self.next as int],
    {
        match self.phase {
            Phase::Checking => {
                if self.next < self.targets.len() {
                    Some(&self.targets[self.next])
                } else {
                    None
                }
            },
            _ => None,
        }
    }

    /// The challenge URL the next probe must fetch, if a pair remains.
    pub fn current_url(&self) -> (url: Option<String>)
        requires
            self.wf(),
            self.phase is Checking,
        ensures
            url is Some <==> self.next < self.targets.len(),
            url matches Some(u) ==> u@ == challenge_url_spec(
                self.targets@[self.next as int]@.dns_name,
                self.active_token(),
            ),
    {
        if self.next < self.targets.len() {
            let tok = self.token.as_ref().unwrap();
            Some(challenge_url(&self.targets[self.next].dns_name, tok))
        } else {
            None
        }
    }

    /// Takes one probe's outcome, classifies it against the token, and
    /// records it on the pair it belongs to. The run advances to the next
    /// pair whether the check passed or failed.
    pub fn on_probe(&mut self, probe: ProbeResult) -> (rec: CheckRecord)
        requires
            old(self).wf(),
            old(self).phase is Checking,
            old(self).next < old(self).targets.len(),
        ensures
            final(self).wf(),
            final(self).phase is Checking,
            final(self).targets == old(self).targets,
            final(self).token == old(self).token,
            !final(self).cleanup_attempted,
            final(self).next == old(self).next + 1,
            rec@ == (RecordView {
                cert_name: old(self).targets@[old(self).next as int]@.cert_name,
                dns_name: old(self).targets@[old(self).next as int]@.dns_name,
                outcome: check_spec(old(self).active_token(), probe@),
            }),
    {
        let cert_name = self.targets[self.next].cert_name.clone();
        let dns_name = self.targets[self.next].dns_name.clone();
        let tok = self.token.as_ref().unwrap();
        let outcome = check(tok, &probe);
        self.next = self.next + 1;
        CheckRecord { cert_name, dns_name, outcome }
    }

    /// Takes the teardown outcome, once every pair has been attempted.
    /// Teardown happens exactly once: this marks it attempted, and a failure
    /// surfaces as the run's result without erasing any recorded check.
    pub fn on_cleanup(&mut self, outcome: Result<(), String>) -> (r: Result<(), RunError>)
        requires
            old(self).wf(),
            old(self).phase is Checking,
            old(self).next == old(self).targets.len(),
        ensures
            final(self).wf(),
            final(self).phase is Done,
            final(self).cleanup_attempted,
            !old(self).cleanup_attempted,
            final(self).targets == old(self).targets,
            final(self).token == old(self).token,
            final(self).next == old(self).next,
            outcome matches Ok(_) ==> r is Ok,
            outcome matches Err(cause) ==> r == Err::<(), RunError>(
                RunError::CleanupError { cause },
            ),
    {
        self.cleanup_attempted = true;
        self.phase = Phase::Done;
        match outcome {
            Ok(_) => Ok(()),
            Err(cause) => Err(RunError::CleanupError { cause }),
        }
    }
}

/// One target per DNS name of each certificate, in order.
#[verifier::loop_isolation(false)]
fn build_targets(certs: Vec<Certificate>) -> (targets: Vec<CheckTarget>)
    ensures
        target_views(targets@) == plan_spec(cert_views(certs@)),
{
    let ghost all = cert_views(certs@);
    let mut remaining = certs;
    let mut targets: Vec<CheckTarget> = Vec::new();
    proof {
        assert(target_views(targets@) + plan_spec(cert_views(remaining@)) =~= plan_spec(all));
    }
    while remaining.len() > 0
        invariant
            plan_spec(all) == target_views(targets@) + plan_spec(cert_views(remaining@)),
        decreases remaining.len(),
    {
        let ghost before = cert_views(remaining@);
        let ghost built = target_views(targets@);
        let c = remaining.remove(0);
        proof {
            assert(before[0] == c@);
            assert(cert_views(remaining@) =~= before.drop_first());
        }
        let mut j: usize = 0;
        while j < c.dns_names.len()
            invariant
                j <= c.dns_names.len(),
                target_views(targets@) == built + cert_targets(c@).take(j as int),
            decreases c.dns_names.len() - j,
        {
            let ghost so_far = target_views(targets@);
            let cert_name = c.name.clone();
            let dns_name = c.dns_names[j].clone();
            targets.push(CheckTarget { cert_name, dns_name });
            proof {
                assert(cert_targets(c@)[j as int] == (TargetView {
                    cert_name: c@.name,
                    dns_name: c@.dns_names[j as int],
                }));
                assert(target_views(targets@) =~= so_far.push(cert_targets(c@)[j as int]));
                assert(target_views(targets@) =~= built + cert_targets(c@).take(j as int + 1));
            }
            j += 1;
        }
        proof {
            assert(cert_targets(c@).take(c.dns_names@.len() as int) =~= cert_targets(c@));
            assert(target_views(targets@) + plan_spec(cert_views(remaining@)) =~= built + (
            cert_targets(c@) + plan_spec(before.drop_first())));
            assert(target_views(targets@) + plan_spec(cert_views(remaining@)) =~= plan_spec(all));
        }
    }
    proof {
        assert(cert_views(remaining@) =~= Seq::<CertView>::empty());
        assert(target_views(targets@) + plan_spec(cert_views(remaining@)) =~= target_views(
            targets@,
        ));
    }
    targets
}

/// Everything one finished run reports: one record per attempted pair, in
/// order; whether teardown was attempted; and the run's own result, which
/// reflects allocation and teardown alone, never a single check.
#[derive(Debug, PartialEq, Eq)]
pub struct RunReport {
    pub records: Vec<CheckRecord>,
    pub cleanup_attempted: bool,
    pub result: Result<(), RunError>,
}

/// Mathematical image of a [`RunReport`].
pub struct ReportView {
    pub records: Seq<RecordView>,
    pub cleanup_attempted: bool,
    pub result: Result<(), RunErrorView>,
}

impl View for RunReport {
    type V = ReportView;

    open spec fn view(&self) -> ReportView {
        ReportView {
            records: record_views(self.records@),
            cleanup_attempted: self.cleanup_attempted,
            result: match self.result {
                Result::Ok(_) => Result::Ok(()),
                Result::Err(e) => Result::Err(e@),
            },
        }
    }
}

/// The records a run produces: target `i` carries the classification of probe
/// outcome `i`.
pub open spec fn records_spec(
    targets: Seq<TargetView>,
    token: Seq<char>,
    probes: Seq<ProbeView>,
) -> Seq<RecordView> {
    targets.map(
        |i: int, t: TargetView|
            RecordView {
                cert_name: t.cert_name,
                dns_name: t.dns_name,
                outcome: check_spec(token, probes[i]),
            },
    )
}

/// The view of an allocation outcome.
pub open spec fn alloc_view(alloc: Result<String, String>) -> Result<Seq<char>, Seq<char>> {
    match alloc {
        Result::Ok(t) => Result::Ok(t@),
        Result::Err(e) => Result::Err(e@),
    }
}

/// The view of a teardown outcome.
pub open spec fn cleanup_view(cleanup: Result<(), String>) -> Result<(), Seq<char>> {
    match cleanup {
        Result::Ok(_) => Result::Ok(()),
        Result::Err(e) => Result::Err(e@),
    }
}

/// What a whole run reports, as a function of the configuration, the filter,
/// and every outside outcome. A failed allocation ends the run with no check
/// and no teardown; a successful one is followed by one classified record per
/// planned pair, in order, and exactly one teardown, whose failure becomes
/// the run's result.
pub open spec fn run_spec(
    certs: Seq<CertView>,
    filter: Seq<Seq<char>>,
    alloc: Result<Seq<char>, Seq<char>>,
    probes: Seq<ProbeView>,
    cleanup: Result<(), Seq<char>>,
) -> ReportView {
    match alloc {
        Result::Err(cause) => ReportView {
            records: Seq::empty(),
            cleanup_attempted: false,
            result: Result::Err(RunErrorView::PublishError { cause }),
        },
        Result::Ok(token) => ReportView {
            records: records_spec(plan_spec(selected_spec(certs, filter)), token, probes),
            cleanup_attempted: true,
            result: match cleanup {
                Result::Ok(_) => Result::Ok(()),
                Result::Err(cause) => Result::Err(RunErrorView::CleanupError { cause }),
            },
        },
    }
}

/// Replays one whole run from its outside outcomes: the allocation outcome,
/// one probe outcome per planned pair, and the teardown outcome. Returns the
/// report the driver of an [`Orchestrator`] would have assembled.
pub fn run(
    certs: Vec<Certificate>,
    filter: &Vec<String>,
    alloc: Result<String, String>,
    probes: Vec<ProbeResult>,
    cleanup: Result<(), String>,
) -> (report: RunReport)
    requires
        alloc is Ok ==> probes@.len() == plan_spec(
            selected_spec(cert_views(certs@), name_views(filter@)),
        ).len(),
    ensures
        report@ == run_spec(
            cert_views(certs@),
            name_views(filter@),
            alloc_view(alloc),
            probe_views(probes@),
            cleanup_view(cleanup),
        ),
{
    let ghost cv = cert_views(certs@);
    let ghost fv = name_views(filter@);
    let ghost pv = probe_views(probes@);
    let ghost av = alloc_view(alloc);
    let ghost clv = cleanup_view(cleanup);
    let mut orch = Orchestrator::new(certs, filter);
    let ghost plan = target_views(orch.targets@);
    match orch.on_allocated(alloc) {
        Err(e) => {
            let report = RunReport {
                records: Vec::new(),
                cleanup_attempted: false,
                result: Err(e),
            };
            proof {
                assert(record_views(report.records@) =~= Seq::<RecordView>::empty());
                assert(report@ == run_spec(cv, fv, av, pv, clv));
            }
            report
        },
        Ok(_) => {
            let ghost token = orch.active_token();
            let mut rest = probes;
            let mut records: Vec<CheckRecord> = Vec::new();
            proof {
                assert(record_views(records@) =~= records_spec(plan, token, pv).take(0));
                assert(probe_views(rest@) =~= pv.skip(0));
            }
            while orch.next < orch.targets.len()
                invariant
                    orch.wf(),
                    orch.phase is Checking,
                    target_views(orch.targets@) == plan,
                    orch.active_token() == token,
                    orch.next == records.len(),
                    pv.len() == plan.len(),
                    probe_views(rest@) == pv.skip(orch.next as int),
                    record_views(records@) == records_spec(plan, token, pv).take(orch.next as int),
                decreases orch.targets.len() - orch.next,
            {
                let ghost n = orch.next as int;
                let ghost rest_before = probe_views(rest@);
                proof {
                    assert(rest@.len() == pv.skip(n).len());
                }
                let p = rest.remove(0);
                proof {
                    assert(p@ == rest_before[0]);
                    assert(p@ == pv[n]);
                    assert(probe_views(rest@) =~= rest_before.drop_first());
                    assert(probe_views(rest@) =~= pv.skip(n + 1));
                    assert(plan[n] == orch.targets@[n]@);
                }
                let rec = orch.on_probe(p);
                records.push(rec);
                proof {
                    assert(records_spec(plan, token, pv)[n] == rec@);
                    assert(record_views(records@) =~= records_spec(plan, token, pv).take(n + 1));
                }
            }
            let result = orch.on_cleanup(cleanup);
            let report = RunReport { records, cleanup_attempted: true, result };
            proof {
                assert(record_views(report.records@) =~= records_spec(plan, token, pv));
                assert(report@.records == run_spec(cv, fv, av, pv, clv).records);
                assert(report@ == run_spec(cv, fv, av, pv, clv));
            }
            report
        },
    }
}

/// One check's failure never prevents the later checks: whatever each probe
/// returned, a run whose allocation succeeded attempts and reports every
/// selected (certificate, DNS name) pair, in plan order, attributed to the
/// right pair.
pub proof fn lemma_failures_never_stop_the_run(
    certs: Seq<CertView>,
    filter: Seq<Seq<char>>,
    token: Seq<char>,
    probes: Seq<ProbeView>,
    cleanup: Result<(), Seq<char>>,
)
    ensures
        ({
            let report = run_spec(certs, filter, Result::Ok(token), probes, cleanup);
            let plan = plan_spec(selected_spec(certs, filter));
            &&& report.records.len() == plan.len()
            &&& forall|i: int|
                0 <= i < plan.len() ==> (#[trigger] report.records[i]).cert_name
                    == plan[i].cert_name && report.records[i].dns_name == plan[i].dns_name
        }),
{
}

/// Each reported outcome is the classification of that pair's own probe
/// against the run's token: a 200 reply whose body is the token passes, any
/// other status fails on the status code whatever the body, a 200 with a
/// different body is a body mismatch, and a transport failure is a network
/// error.
pub proof fn lemma_each_outcome_classified(
    certs: Seq<CertView>,
    filter: Seq<Seq<char>>,
    token: Seq<char>,
    probes: Seq<ProbeView>,
    cleanup: Result<(), Seq<char>>,
)
    ensures
        ({
            let report = run_spec(certs, filter, Result::Ok(token), probes, cleanup);
            let plan = plan_spec(selected_spec(certs, filter));
            forall|i: int|
                0 <= i < plan.len() ==> (#[trigger] report.records[i]).outcome == check_spec(
                    token,
                    probes[i],
                )
        }),
{
}

/// Teardown is attempted exactly when allocation succeeded: never after a
/// failed allocation, and always after a successful one — even when the
/// selected set is empty and when every check failed.
pub proof fn lemma_cleanup_follows_allocation(
    certs: Seq<CertView>,
    filter: Seq<Seq<char>>,
    alloc: Result<Seq<char>, Seq<char>>,
    probes: Seq<ProbeView>,
    cleanup: Result<(), Seq<char>>,
)
    ensures
        run_spec(certs, filter, alloc, probes, cleanup).cleanup_attempted == (alloc is Ok),
{
}

} // verus!
