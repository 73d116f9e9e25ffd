//! Classification of a single probe: what came back, whether it counts as
//! success, and how it is described.

use vstd::prelude::*;
use crate::status::{spec_is_success, status_description, is_success, get_status_description};
use crate::text::{occurs_in, contains};

verus! {

/// Why a probe got no HTTP response.
#[derive(Clone, Copy, Debug, PartialEq, Eq, Structural)]
pub enum ErrorClass {
    /// The host name could not be resolved.
    DnsFailure,
    /// The host refused the connection.
    ConnectionRefused,
    /// No answer arrived before the deadline.
    Timeout,
    /// Any other transport failure.
    Other,
}

/// The result of one probe.
#[derive(Clone, Copy, Debug, PartialEq, Eq, Structural)]
pub enum CheckOutcome {
    /// The server answered with this HTTP status code.
    Responded(u16),
    /// The request failed before any response arrived.
    Failed(ErrorClass),
}

/// How a one-off check of a URL is reported to the operator.
#[derive(Clone, Copy, Debug, PartialEq, Eq, Structural)]
pub enum Verdict {
    /// The site answered with a success status.
    Up,
    /// The page is missing or the host name does not resolve.
    DoesNotExist,
    /// The site answers but turns automated clients away.
    Restricted,
    /// The server failed or could not be reached.
    Down,
    /// The site answered with some other non-success status.
    Reachable,
}

/// The status code whose description stands for every transport failure.
pub const FAILURE_STATUS: u16 = 503;

/// The class of a transport failure, read off its message. Name resolution
/// is looked for first, then refusal, then a timeout.
pub open spec fn error_class_of(message: Seq<char>) -> ErrorClass {
    if occurs_in(message, "dns error"@) || occurs_in(message, "failed to lookup address"@) {
        ErrorClass::DnsFailure
    } else if occurs_in(message, "connection refused"@) {
        ErrorClass::ConnectionRefused
    } else if occurs_in(message, "timeout"@) {
        ErrorClass::Timeout
    } else {
        ErrorClass::Other
    }
}

/// A probe counts as success only if it got a 2xx response.
pub open spec fn outcome_is_success(outcome: CheckOutcome) -> bool {
    match outcome {
        CheckOutcome::Responded(code) => spec_is_success(code),
        CheckOutcome::Failed(_) => false,
    }
}

/// The text that is stored and shown for a probe's outcome. Every transport
/// failure is described as an unavailable service.
pub open spec fn outcome_description(outcome: CheckOutcome) -> Seq<char> {
    match outcome {
        CheckOutcome::Responded(code) => status_description(code),
        CheckOutcome::Failed(_) => status_description(FAILURE_STATUS),
    }
}

/// The verdict of a one-off check.
pub open spec fn verdict_of(outcome: CheckOutcome) -> Verdict {
    match outcome {
        CheckOutcome::Responded(code) => if spec_is_success(code) {
            Verdict::Up
        } else if code == 404 {
            Verdict::DoesNotExist
        } else if code == 403 {
            Verdict::Restricted
        } else if code >= 500 {
            Verdict::Down
        } else {
            Verdict::Reachable
        },
        CheckOutcome::Failed(ErrorClass::DnsFailure) => Verdict::DoesNotExist,
        CheckOutcome::Failed(_) => Verdict::Down,
    }
}

/// Classifies a transport failure by the text of its error message.
pub fn classify_error(message: &str) -> (class: ErrorClass)
    ensures
        class == error_class_of(message@),
{
    if contains(message, "dns error") || contains(message, "failed to lookup address") {
        ErrorClass::DnsFailure
    } else if contains(message, "connection refused") {
        ErrorClass::ConnectionRefused
    } else if contains(message, "timeout") {
        ErrorClass::Timeout
    } else {
        ErrorClass::Other
    }
}

/// The outcome of a probe that ended with a response of status `code` or,
/// without one, with the error message `message`.
pub open spec fn outcome_of(response: Result<u16, Seq<char>>) -> CheckOutcome {
    match response {
        Ok(code) => CheckOutcome::Responded(code),
        Err(message) => CheckOutcome::Failed(error_class_of(message)),
    }
}

/// The content of a probe's raw result.
pub open spec fn response_view(response: Result<u16, String>) -> Result<u16, Seq<char>> {
    match response {
        Ok(code) => Ok(code),
        Err(message) => Err(message@),
    }
}

/// Turns the raw result of one probe into its outcome: any response counts
/// as an answer, whatever its status, and a transport failure is classified
/// by its message.
pub fn check_site(response: &Result<u16, String>) -> (outcome: CheckOutcome)
    ensures
        outcome == outcome_of(response_view(*response)),
{
    match response {
        Ok(code) => CheckOutcome::Responded(*code),
        Err(message) => CheckOutcome::Failed(classify_error(message.as_str())),
    }
}

impl CheckOutcome {
    /// Tells whether the probe counts as success.
    pub fn is_success(&self) -> (ok: bool)
        ensures
            ok == outcome_is_success(*self),
    {
        match self {
            CheckOutcome::Responded(code) => is_success(*code),
            CheckOutcome::Failed(_) => false,
        }
    }

    /// The text that describes the outcome.
    pub fn description(&self) -> (text: String)
        ensures
            text@ == outcome_description(*self),
    {
        match self {
            CheckOutcome::Responded(code) => get_status_description(*code),
            CheckOutcome::Failed(_) => get_status_description(FAILURE_STATUS),
        }
    }

    /// The verdict that a one-off check reports for the outcome.
    pub fn verdict(&self) -> (v: Verdict)
        ensures
            v == verdict_of(*self),
    {
        match self {
            CheckOutcome::Responded(code) => {
                if is_success(*code) {
                    Verdict::Up
                } else if *code == 404 {
                    Verdict::DoesNotExist
                } else if *code == 403 {
                    Verdict::Restricted
                } else if *code >= 500 {
                    Verdict::Down
                } else {
                    Verdict::Reachable
                }
            },
            CheckOutcome::Failed(ErrorClass::DnsFailure) => Verdict::DoesNotExist,
            CheckOutcome::Failed(_) => Verdict::Down,
        }
    }
}

/// A transport failure never counts as success, whatever its class.
pub proof fn lemma_failure_is_down(class: ErrorClass)
    ensures
        !outcome_is_success(CheckOutcome::Failed(class)),
        verdict_of(CheckOutcome::Failed(class)) != Verdict::Up,
{
}

} // verus!
