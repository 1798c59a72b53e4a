//! The error taxonomy: client errors that reject a request before any state
//! changes, storage errors, and the per-stage failures of the external
//! submission pipeline.

use vstd::prelude::*;

verus! {

/// A failure of the external submission pipeline, one variant per stage, so
/// that an operator can tell "third party unreachable" from "third party
/// changed their form" from "third party rejected submission".
#[derive(Debug, Clone, PartialEq, Eq, Structural)]
pub enum SubmissionError {
    /// The registration page could not be fetched (a transport failure).
    TokenFetchFailed,
    /// The page was fetched but the hidden one-time token was not found in
    /// it: the third party changed its page layout. Not retryable.
    TokenExtractFailed,
    /// The filled form could not be posted (a transport failure).
    SubmitFailed,
}

impl SubmissionError {
    /// A human-readable description of the failed stage.
    pub fn message(&self) -> (r: String)
        ensures
            self is TokenFetchFailed ==> r@
                == "Couldn't fetch access token from HPI Website. Are we blocked?"@,
            self is TokenExtractFailed ==> r@
                == "Couldn't extract token from HPI Website. Did the layout change?"@,
            self is SubmitFailed ==> r@
                == "Couldn't submit data to HPI Website. Are we blocked, was the format changed or did the user enter something malformed?"@,
    {
        match self {
            SubmissionError::TokenFetchFailed => "Couldn't fetch access token from HPI Website. Are we blocked?".to_owned(),
            SubmissionError::TokenExtractFailed => "Couldn't extract token from HPI Website. Did the layout change?".to_owned(),
            SubmissionError::SubmitFailed => "Couldn't submit data to HPI Website. Are we blocked, was the format changed or did the user enter something malformed?".to_owned(),
        }
    }
}

/// Everything that can go wrong while serving the leaderboard: bad or missing
/// credentials, malformed inputs, a claim for a score that no longer exists,
/// a storage collision, or a failed hand-off to the external pipeline.
#[derive(Debug, Clone, PartialEq, Eq)]
pub enum LeaderboardError {
    /// No bearer token was supplied with a score submission.
    MissingAuth,
    /// The supplied bearer token does not match the server-held secret.
    WrongAuth,
    /// The claim id is not a well-formed identifier.
    InvalidId,
    /// The claim id is well-formed but names no unclaimed score: it is either
    /// made up or already consumed.
    UnknownClaim,
    /// The submitted score is negative.
    InvalidScore,
    /// The submitted color is not a `#RRGGBB` hex string.
    MalformedColor,
    /// A claim opted into a stage but left a required field empty; the
    /// payload names the field.
    IncompleteData(String),
    /// The ledger refused an insert (a fresh id collided).
    InsertFailure,
    /// The ledger was asked to delete an unclaimed score that does not
    /// exist.
    DeleteError,
    /// The external submission pipeline failed after the claim was settled.
    TransmitError(SubmissionError),
}

impl LeaderboardError {
    /// A human-readable description, for the client-facing response body.
    pub fn message(&self) -> (r: String)
        ensures
            self is MissingAuth ==> r@ == "You didn't provide any credentials!"@,
            self is WrongAuth ==> r@ == "You didn't provide valid credentials!"@,
            self is InvalidId ==> r@ == "You didn't provide a valid id!"@,
            self is UnknownClaim ==> r@ == "You didn't provide a valid id!"@,
            self is InvalidScore ==> r@ == "The score is not valid!"@,
            self is MalformedColor ==> r@ == "The color is not valid!"@,
            self is InsertFailure ==> r@ == "Something went wrong while inserting!"@,
            self is DeleteError ==> r@ == "Couldn't delete unclaimed score!"@,
            self matches LeaderboardError::IncompleteData(f) ==> r@
                == "You didn't provide all necessary data points! ("@ + f@ + ")"@,
            self matches LeaderboardError::TransmitError(e) ==> r@ == "Couldn't transmit data to the HPI server! Reason: "@
                + e.message_spec(),
    {
        match self {
            LeaderboardError::MissingAuth => "You didn't provide any credentials!".to_owned(),
            LeaderboardError::WrongAuth => "You didn't provide valid credentials!".to_owned(),
            LeaderboardError::InvalidId => "You didn't provide a valid id!".to_owned(),
            LeaderboardError::UnknownClaim => "You didn't provide a valid id!".to_owned(),
            LeaderboardError::InvalidScore => "The score is not valid!".to_owned(),
            LeaderboardError::MalformedColor => "The color is not valid!".to_owned(),
            LeaderboardError::InsertFailure => "Something went wrong while inserting!".to_owned(),
            LeaderboardError::DeleteError => "Couldn't delete unclaimed score!".to_owned(),
            LeaderboardError::IncompleteData(f) => {
                let mut r = "You didn't provide all necessary data points! (".to_owned();
                r.append(f.as_str());
                r.append(")");
                r
            },
            LeaderboardError::TransmitError(e) => {
                let mut r = "Couldn't transmit data to the HPI server! Reason: ".to_owned();
                let inner = e.message();
                r.append(inner.as_str());
                r
            },
        }
    }
}

impl SubmissionError {
    /// The text `message` returns, available to specifications.
    pub open spec fn message_spec(&self) -> Seq<char> {
        match self {
            SubmissionError::TokenFetchFailed => "Couldn't fetch access token from HPI Website. Are we blocked?"@,
            SubmissionError::TokenExtractFailed => "Couldn't extract token from HPI Website. Did the layout change?"@,
            SubmissionError::SubmitFailed => "Couldn't submit data to HPI Website. Are we blocked, was the format changed or did the user enter something malformed?"@,
        }
    }
}

impl From<SubmissionError> for LeaderboardError {
    /// Any pipeline failure surfaces to the client as a transmit error.
    fn from(value: SubmissionError) -> (r: Self) {
        LeaderboardError::TransmitError(value)
    }
}

impl vstd::std_specs::convert::FromSpecImpl<SubmissionError> for LeaderboardError {
    open spec fn obeys_from_spec() -> bool {
        true
    }

    open spec fn from_spec(t: SubmissionError) -> Self {
        LeaderboardError::TransmitError(t)
    }
}

} // verus!
