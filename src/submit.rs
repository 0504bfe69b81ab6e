use vstd::prelude::*;

verus! {

/// How the metrics endpoint answered one submission.
#[derive(Clone, Copy, Debug, PartialEq, Eq, Structural)]
pub enum SubmitOutcome {
    /// HTTP 200: the datapoints were stored.
    Accepted,
    /// HTTP 401 or 403: the token was refused.
    Unauthorized,
    /// HTTP 400: the body was refused.
    BadRequest,
    /// Any other HTTP status.
    Rejected(u16),
    /// The request did not complete (connection, TLS or protocol failure).
    TransportFailed,
}

/// The outcome class of an HTTP status.
pub open spec fn outcome_of(status: u16) -> SubmitOutcome {
    if status == 200 {
        SubmitOutcome::Accepted
    } else if status == 401 || status == 403 {
        SubmitOutcome::Unauthorized
    } else if status == 400 {
        SubmitOutcome::BadRequest
    } else {
        SubmitOutcome::Rejected(status)
    }
}

/// Classifies the HTTP status of a submission. Every status has a class:
/// no answer of the endpoint is an error for the caller.
pub fn classify_status(status: u16) -> (r: SubmitOutcome)
    ensures
        r == outcome_of(status),
{
    if status == 200 {
        SubmitOutcome::Accepted
    } else if status == 401 || status == 403 {
        SubmitOutcome::Unauthorized
    } else if status == 400 {
        SubmitOutcome::BadRequest
    } else {
        SubmitOutcome::Rejected(status)
    }
}

/// The line logged for an outcome.
pub open spec fn message_of(o: SubmitOutcome) -> Seq<char> {
    match o {
        SubmitOutcome::Accepted => "Data submitted to Graphite successfully!"@,
        SubmitOutcome::Unauthorized => "Unauthorized! Check the token."@,
        SubmitOutcome::BadRequest => "Bad request!"@,
        SubmitOutcome::Rejected(_) => "Uncaught error writing data"@,
        SubmitOutcome::TransportFailed => "Could not send the data"@,
    }
}

impl SubmitOutcome {
    /// Whether the datapoints were stored.
    pub fn is_success(&self) -> (r: bool)
        ensures
            r == (*self == SubmitOutcome::Accepted),
    {
        match self {
            SubmitOutcome::Accepted => true,
            _ => false,
        }
    }

    /// The line to log for this outcome: at info level on success, at error
    /// level otherwise.
    pub fn message(&self) -> (r: &'static str)
        ensures
            r@ == message_of(*self),
    {
        match self {
            SubmitOutcome::Accepted => "Data submitted to Graphite successfully!",
            SubmitOutcome::Unauthorized => "Unauthorized! Check the token.",
            SubmitOutcome::BadRequest => "Bad request!",
            SubmitOutcome::Rejected(_) => "Uncaught error writing data",
            SubmitOutcome::TransportFailed => "Could not send the data",
        }
    }
}

} // verus!
