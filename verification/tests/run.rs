use acme_check::model::{CheckError, CheckRecord, Certificate, ProbeResult, RunError};
use acme_check::run::{run, Orchestrator, RunReport};

fn cert(name: &str, dns_names: &[&str]) -> Certificate {
    Certificate {
        name: String::from(name),
        dns_names: dns_names.iter().map(|d| String::from(*d)).collect(),
    }
}

fn ok_reply(token: &str) -> ProbeResult {
    ProbeResult::Reply { status: 200, body: String::from(token) }
}

fn record(cert_name: &str, dns_name: &str, outcome: Result<(), CheckError>) -> CheckRecord {
    CheckRecord {
        cert_name: String::from(cert_name),
        dns_name: String::from(dns_name),
        outcome,
    }
}

#[test]
fn one_failure_never_stops_the_remaining_checks() {
    let certs = vec![cert("A", &["a1.example", "a2.example"]), cert("B", &["b1.example"])];
    let probes = vec![
        ProbeResult::TransportFailure { cause: String::from("connection refused") },
        ok_reply("tok"),
        ok_reply("tok"),
    ];
    let report = run(certs, &Vec::new(), Ok(String::from("tok")), probes, Ok(()));
    assert_eq!(
        report.records,
        vec![
            record(
                "A",
                "a1.example",
                Err(CheckError::NetworkError { cause: String::from("connection refused") })
            ),
            record("A", "a2.example", Ok(())),
            record("B", "b1.example", Ok(())),
        ]
    );
    assert!(report.cleanup_attempted);
    assert_eq!(report.result, Ok(()));
}

#[test]
fn failed_allocation_aborts_before_any_check_and_skips_cleanup() {
    let certs = vec![cert("A", &["a1.example"])];
    let report = run(
        certs,
        &Vec::new(),
        Err(String::from("challenge directory is not writable")),
        Vec::new(),
        Ok(()),
    );
    assert_eq!(
        report,
        RunReport {
            records: Vec::new(),
            cleanup_attempted: false,
            result: Err(RunError::PublishError {
                cause: String::from("challenge directory is not writable")
            }),
        }
    );
}

#[test]
fn cleanup_is_attempted_even_when_nothing_was_selected() {
    let certs = vec![cert("A", &["a1.example"])];
    let filter = vec![String::from("Z")];
    let report = run(certs, &filter, Ok(String::from("tok")), Vec::new(), Ok(()));
    assert_eq!(report.records, Vec::new());
    assert!(report.cleanup_attempted);
    assert_eq!(report.result, Ok(()));
}

#[test]
fn cleanup_is_attempted_even_when_every_check_fails() {
    let certs = vec![cert("A", &["a1.example", "a2.example"])];
    let probes = vec![
        ProbeResult::Reply { status: 503, body: String::new() },
        ProbeResult::TransportFailure { cause: String::from("dns error") },
    ];
    let report = run(certs, &Vec::new(), Ok(String::from("tok")), probes, Ok(()));
    assert_eq!(report.records.len(), 2);
    assert!(report.records.iter().all(|r| r.outcome.is_err()));
    assert!(report.cleanup_attempted);
    assert_eq!(report.result, Ok(()));
}

#[test]
fn cleanup_failure_is_the_runs_result_but_records_stay() {
    let certs = vec![cert("A", &["a1.example"])];
    let probes = vec![ok_reply("tok")];
    let report = run(
        certs,
        &Vec::new(),
        Ok(String::from("tok")),
        probes,
        Err(String::from("could not remove challenge file")),
    );
    assert_eq!(report.records, vec![record("A", "a1.example", Ok(()))]);
    assert!(report.cleanup_attempted);
    assert_eq!(
        report.result,
        Err(RunError::CleanupError { cause: String::from("could not remove challenge file") })
    );
}

#[test]
fn filtering_narrows_which_pairs_a_run_probes() {
    let certs = vec![cert("A", &["a1.example"]), cert("B", &["b1.example"])];
    let filter = vec![String::from("B")];
    let probes = vec![ok_reply("tok")];
    let report = run(certs, &filter, Ok(String::from("tok")), probes, Ok(()));
    assert_eq!(report.records, vec![record("B", "b1.example", Ok(()))]);
}

#[test]
fn a_driven_orchestrator_walks_every_target_in_order() {
    let certs = vec![cert("A", &["a1.example", "a2.example"]), cert("B", &["b1.example"])];
    let mut orch = Orchestrator::new(certs, &Vec::new());
    assert_eq!(
        orch.on_allocated(Ok(String::from("sekrit"))),
        Ok(())
    );

    let mut seen_urls = Vec::new();
    let mut records = Vec::new();
    while let Some(url) = orch.current_url() {
        let target = orch.next_target().expect("a target must remain");
        assert!(url.contains(target.dns_name.as_str()));
        seen_urls.push(url);
        records.push(orch.on_probe(ok_reply("sekrit")));
    }
    assert_eq!(
        seen_urls,
        vec![
            String::from("http://a1.example/.well-known/acme-challenge/sekrit"),
            String::from("http://a2.example/.well-known/acme-challenge/sekrit"),
            String::from("http://b1.example/.well-known/acme-challenge/sekrit"),
        ]
    );
    assert_eq!(
        records,
        vec![
            record("A", "a1.example", Ok(())),
            record("A", "a2.example", Ok(())),
            record("B", "b1.example", Ok(())),
        ]
    );
    assert_eq!(orch.on_cleanup(Ok(())), Ok(()));
    assert!(orch.cleanup_attempted);
}

#[test]
fn publish_failure_leaves_the_orchestrator_done_without_cleanup() {
    let mut orch = Orchestrator::new(vec![cert("A", &["a1.example"])], &Vec::new());
    let r = orch.on_allocated(Err(String::from("bind failed")));
    assert_eq!(
        r,
        Err(RunError::PublishError { cause: String::from("bind failed") })
    );
    assert_eq!(orch.next_target(), None);
    assert!(!orch.cleanup_attempted);
}
