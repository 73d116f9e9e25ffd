use isup::checker::{check_site, classify_error, CheckOutcome, ErrorClass, Verdict};

#[test]
fn dns_failures_are_recognised() {
    assert_eq!(
        classify_error("error sending request: dns error: failed to lookup address information"),
        ErrorClass::DnsFailure
    );
    assert_eq!(classify_error("failed to lookup address"), ErrorClass::DnsFailure);
    assert_eq!(classify_error("dns error and connection refused"), ErrorClass::DnsFailure);
}

#[test]
fn refused_connections_are_recognised() {
    assert_eq!(classify_error("tcp connect error: connection refused"), ErrorClass::ConnectionRefused);
    assert_eq!(classify_error("connection refused after timeout"), ErrorClass::ConnectionRefused);
}

#[test]
fn timeouts_are_recognised() {
    assert_eq!(classify_error("request timeout"), ErrorClass::Timeout);
    assert_eq!(classify_error("timeout"), ErrorClass::Timeout);
}

#[test]
fn other_failures_are_other() {
    assert_eq!(classify_error(""), ErrorClass::Other);
    assert_eq!(classify_error("operation timed out"), ErrorClass::Other);
    assert_eq!(classify_error("Connection Refused"), ErrorClass::Other);
    assert_eq!(classify_error("tls handshake failed"), ErrorClass::Other);
}

#[test]
fn only_2xx_responses_are_success() {
    assert!(CheckOutcome::Responded(200).is_success());
    assert!(CheckOutcome::Responded(204).is_success());
    assert!(!CheckOutcome::Responded(301).is_success());
    assert!(!CheckOutcome::Responded(404).is_success());
    assert!(!CheckOutcome::Responded(503).is_success());
    assert!(!CheckOutcome::Failed(ErrorClass::DnsFailure).is_success());
    assert!(!CheckOutcome::Failed(ErrorClass::ConnectionRefused).is_success());
    assert!(!CheckOutcome::Failed(ErrorClass::Timeout).is_success());
    assert!(!CheckOutcome::Failed(ErrorClass::Other).is_success());
}

#[test]
fn responses_are_described_by_the_catalog() {
    assert_eq!(CheckOutcome::Responded(200).description(), "ok");
    assert_eq!(CheckOutcome::Responded(503).description(), "unavailable");
    assert_eq!(CheckOutcome::Responded(600).description(), "Unknown Status Code 600");
}

#[test]
fn failures_are_described_as_unavailable() {
    for class in [
        ErrorClass::DnsFailure,
        ErrorClass::ConnectionRefused,
        ErrorClass::Timeout,
        ErrorClass::Other,
    ] {
        assert_eq!(CheckOutcome::Failed(class).description(), "unavailable");
    }
}

#[test]
fn verdicts_of_responses() {
    assert_eq!(CheckOutcome::Responded(200).verdict(), Verdict::Up);
    assert_eq!(CheckOutcome::Responded(299).verdict(), Verdict::Up);
    assert_eq!(CheckOutcome::Responded(404).verdict(), Verdict::DoesNotExist);
    assert_eq!(CheckOutcome::Responded(403).verdict(), Verdict::Restricted);
    assert_eq!(CheckOutcome::Responded(500).verdict(), Verdict::Down);
    assert_eq!(CheckOutcome::Responded(503).verdict(), Verdict::Down);
    assert_eq!(CheckOutcome::Responded(301).verdict(), Verdict::Reachable);
    assert_eq!(CheckOutcome::Responded(401).verdict(), Verdict::Reachable);
    assert_eq!(CheckOutcome::Responded(199).verdict(), Verdict::Reachable);
}

#[test]
fn verdicts_of_failures() {
    assert_eq!(CheckOutcome::Failed(ErrorClass::DnsFailure).verdict(), Verdict::DoesNotExist);
    assert_eq!(CheckOutcome::Failed(ErrorClass::ConnectionRefused).verdict(), Verdict::Down);
    assert_eq!(CheckOutcome::Failed(ErrorClass::Timeout).verdict(), Verdict::Down);
    assert_eq!(CheckOutcome::Failed(ErrorClass::Other).verdict(), Verdict::Down);
}

#[test]
fn probe_results_become_outcomes() {
    assert_eq!(check_site(&Ok(200)), CheckOutcome::Responded(200));
    assert_eq!(check_site(&Ok(503)), CheckOutcome::Responded(503));
    assert_eq!(
        check_site(&Err(String::from("dns error: no such host"))),
        CheckOutcome::Failed(ErrorClass::DnsFailure)
    );
    assert_eq!(
        check_site(&Err(String::from("connection refused"))),
        CheckOutcome::Failed(ErrorClass::ConnectionRefused)
    );
    assert_eq!(check_site(&Err(String::from("timeout"))), CheckOutcome::Failed(ErrorClass::Timeout));
    assert_eq!(check_site(&Err(String::new())), CheckOutcome::Failed(ErrorClass::Other));
}
