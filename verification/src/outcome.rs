//! What became of one request.

use vstd::prelude::*;

verus! {

/// Why a request produced no response.
#[derive(Clone, Copy, Debug, PartialEq, Eq, Structural)]
pub enum FailureReason {
    /// The request could not be assembled, for instance because a header
    /// value was not acceptable.
    Construction,
    /// The connection or the transfer failed.
    Transport,
    /// No response arrived within the time allowed.
    Timeout,
    /// The attempt ended without reporting what became of it.
    Aborted,
}

/// A failed attempt: the reason it is counted under, and what the HTTP
/// client said of it, for the diagnostic line.
#[derive(Debug)]
pub struct Failure {
    pub reason: FailureReason,
    pub detail: String,
}

/// The terminal result of one request attempt.
#[derive(Clone, Copy, Debug, PartialEq, Eq, Structural)]
pub enum RequestOutcome {
    /// A response arrived; `status_code` is its HTTP status.
    Completed { status_code: u16 },
    /// No response arrived.
    Failed { reason: FailureReason },
}

/// The class of an HTTP status code, by its hundreds.
#[derive(Clone, Copy, Debug, PartialEq, Eq, Structural)]
pub enum StatusClass {
    Informational,
    Success,
    Redirection,
    ClientError,
    ServerError,
    /// Any code outside 100 to 599.
    Other,
}

/// What an outcome is counted as: a failure, or a response of some class.
#[derive(Clone, Copy, Debug, PartialEq, Eq, Structural)]
pub enum OutcomeKind {
    Answered(StatusClass),
    Unanswered,
}

/// The class of status code `code`.
pub open spec fn class_of(code: u16) -> StatusClass {
    if 100 <= code < 200 {
        StatusClass::Informational
    } else if 200 <= code < 300 {
        StatusClass::Success
    } else if 300 <= code < 400 {
        StatusClass::Redirection
    } else if 400 <= code < 500 {
        StatusClass::ClientError
    } else if 500 <= code < 600 {
        StatusClass::ServerError
    } else {
        StatusClass::Other
    }
}

/// The reason recorded for a failed attempt. An error raised while the
/// request was assembled is a construction failure whatever else is known of
/// it; otherwise a timeout is told apart from other transport failures.
pub open spec fn reason_of(while_building: bool, timed_out: bool) -> FailureReason {
    if while_building {
        FailureReason::Construction
    } else if timed_out {
        FailureReason::Timeout
    } else {
        FailureReason::Transport
    }
}

/// The outcome of an attempt that ended with a status code or a failure.
pub open spec fn outcome_of(attempt: Result<u16, Failure>) -> RequestOutcome {
    match attempt {
        Ok(status_code) => RequestOutcome::Completed { status_code },
        Err(failure) => RequestOutcome::Failed { reason: failure.reason },
    }
}

/// The outcome counted for a request whose attempt handed back `reported`:
/// the outcome it reported, or a failure where it reported none, so that no
/// request of a batch is left without an outcome.
pub open spec fn outcome_or_aborted(reported: Option<RequestOutcome>) -> RequestOutcome {
    match reported {
        Some(outcome) => outcome,
        None => RequestOutcome::Failed { reason: FailureReason::Aborted },
    }
}

impl RequestOutcome {
    /// The outcome counted for a request whose attempt handed back
    /// `reported`.
    pub fn or_aborted(reported: Option<RequestOutcome>) -> (outcome: RequestOutcome)
        ensures
            outcome == outcome_or_aborted(reported),
    {
        match reported {
            Some(outcome) => outcome,
            None => RequestOutcome::Failed { reason: FailureReason::Aborted },
        }
    }

    /// The outcome of an attempt that ended with a status code or a
    /// failure.
    pub fn of_attempt(attempt: &Result<u16, Failure>) -> (outcome: RequestOutcome)
        ensures
            outcome == outcome_of(*attempt),
    {
        match attempt {
            Ok(status_code) => RequestOutcome::Completed { status_code: *status_code },
            Err(failure) => RequestOutcome::Failed { reason: failure.reason },
        }
    }

    /// What this outcome is counted as.
    pub open spec fn kind(self) -> OutcomeKind {
        match self {
            RequestOutcome::Completed { status_code } => OutcomeKind::Answered(
                class_of(status_code),
            ),
            RequestOutcome::Failed { .. } => OutcomeKind::Unanswered,
        }
    }

    /// What this outcome is counted as.
    pub fn classify(&self) -> (kind: OutcomeKind)
        ensures
            kind == self.kind(),
    {
        match self {
            RequestOutcome::Completed { status_code } => OutcomeKind::Answered(
                status_class(*status_code),
            ),
            RequestOutcome::Failed { .. } => OutcomeKind::Unanswered,
        }
    }

    /// Whether a response arrived.
    pub fn is_completed(&self) -> (completed: bool)
        ensures
            completed == (self is Completed),
    {
        match self {
            RequestOutcome::Completed { .. } => true,
            RequestOutcome::Failed { .. } => false,
        }
    }
}

/// The class of status code `code`.
pub fn status_class(code: u16) -> (class: StatusClass)
    ensures
        class == class_of(code),
{
    if code < 100 {
        StatusClass::Other
    } else if code < 200 {
        StatusClass::Informational
    } else if code < 300 {
        StatusClass::Success
    } else if code < 400 {
        StatusClass::Redirection
    } else if code < 500 {
        StatusClass::ClientError
    } else if code < 600 {
        StatusClass::ServerError
    } else {
        StatusClass::Other
    }
}

/// The reason recorded for a failed attempt, from what is known of the error.
pub fn failure_reason(while_building: bool, timed_out: bool) -> (reason: FailureReason)
    ensures
        reason == reason_of(while_building, timed_out),
{
    if while_building {
        FailureReason::Construction
    } else if timed_out {
        FailureReason::Timeout
    } else {
        FailureReason::Transport
    }
}

} // verus!
