//! A small game-score leaderboard service core: scores arrive from a game
//! client guarded by a bearer token, sit in a ledger of unclaimed scores until
//! a person claims them at a kiosk, and are then settled into a dense-ranked
//! leaderboard entry and, optionally, a submission to a third-party
//! registration form.

pub mod claim;
pub mod error;
pub mod helper;
pub mod ingress;
pub mod ledger;
pub mod ranking;
pub mod submission;

pub use claim::ClaimScore;
pub use claim::SettlementOutcome;
pub use error::LeaderboardError;
pub use error::SubmissionError;
pub use ledger::Ledger;
pub use ledger::ScoreRow;
pub use ledger::UnclaimedScore;
pub use ranking::PlacementScoreRow;
pub use submission::HPIFormData;
pub use submission::HPIFormDataFinalized;
