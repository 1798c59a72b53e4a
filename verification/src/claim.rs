//! Claim settlement: the state transition that consumes one unclaimed score
//! and turns it into zero or more persisted outcomes — a leaderboard entry
//! if the claimant opted in, and a filled identity form for the external
//! pipeline if they entered the raffle. The whole transition (fetch,
//! validate, delete, insert) happens inside one `&mut` borrow of the
//! ledger, so two settlements of the same id can never interleave: the
//! second one finds the id gone and reports an unknown claim.

use vstd::prelude::*;

use crate::error::LeaderboardError;
use crate::helper::sanitize_name;
use crate::helper::sanitize_spec;
use crate::helper::trim_end;
use crate::helper::trim_end_spec;
use crate::ledger::Ledger;
use crate::ledger::UnclaimedScore;
use crate::submission::HPIFormData;

verus! {

/// The decision a person submits at the kiosk: optional intents, the
/// display name for the leaderboard, and the identity fields that are
/// required only when the raffle is entered. Consumed once per settlement.
#[derive(Debug)]
pub struct ClaimScore {
    /// Whether the claimant wants the score on the leaderboard.
    pub wants_leaderboard: Option<bool>,
    /// Whether the claimant wants to enter the raffle registration.
    pub wants_raffle: Option<bool>,
    /// The display name, required when `wants_leaderboard` is true.
    pub nickname: String,
    /// Required when `wants_raffle` is true.
    pub email: String,
    /// Required when `wants_raffle` is true.
    pub firstname: String,
    /// Required when `wants_raffle` is true.
    pub lastname: String,
    /// Whether the claimant consented to the newsletter.
    pub newsletter: bool,
    /// The data-protection consent; must be present when `wants_raffle` is
    /// true.
    pub data_protection: Option<bool>,
    /// The claimant's occupation, as one of the form's option values.
    pub occupation: String,
}

/// The wording the third-party form expects for each occupation option;
/// anything unrecognized is "sonstiges".
pub open spec fn occupation_label(s: Seq<char>) -> Seq<char> {
    if s == "school"@ {
        "Schüler:in"@
    } else if s == "university"@ {
        "Student:in"@
    } else if s == "parent"@ {
        "Elternteil"@
    } else {
        "sonstiges"@
    }
}

/// The newsletter consent as the form's yes/no wording.
pub open spec fn consent_label(newsletter: bool) -> Seq<char> {
    if newsletter {
        "yes"@
    } else {
        "no"@
    }
}

/// Whether a filled identity form carries exactly this claim's data.
pub open spec fn form_data_matches(f: HPIFormData, claim: ClaimScore) -> bool {
    &&& f.firstname@ == claim.firstname@
    &&& f.lastname@ == claim.lastname@
    &&& f.email@ == claim.email@
    &&& f.occupation@ == occupation_label(claim.occupation@)
    &&& f.email_consent@ == consent_label(claim.newsletter)
    &&& f.data_processing_consent@ == "Ja, ich stimme zu."@
}

fn str_eq(a: &str, b: &str) -> (r: bool)
    ensures
        r == (a@ == b@),
{
    let n = a.unicode_len();
    if n != b.unicode_len() {
        proof {
            assert(a@.len() != b@.len());
        }
        return false;
    }
    for i in 0..n
        invariant
            n == a@.len(),
            n == b@.len(),
            forall|j: int| 0 <= j < i ==> a@[j] == b@[j],
    {
        if a.get_char(i) != b.get_char(i) {
            return false;
        }
    }
    proof {
        assert(a@ =~= b@);
    }
    true
}

impl HPIFormData {
    /// Builds the identity form from a claim: names and e-mail are taken as
    /// entered, the occupation and the newsletter consent are mapped to the
    /// wording the form expects, and the data-processing consent is the
    /// fixed sentence.
    pub fn from_claim(claim: ClaimScore) -> (r: HPIFormData)
        ensures
            form_data_matches(r, claim),
    {
        let occupation: String = if str_eq(claim.occupation.as_str(), "school") {
            "Schüler:in".to_owned()
        } else if str_eq(claim.occupation.as_str(), "university") {
            "Student:in".to_owned()
        } else if str_eq(claim.occupation.as_str(), "parent") {
            "Elternteil".to_owned()
        } else {
            "sonstiges".to_owned()
        };

        let email_consent: String = if claim.newsletter {
            "yes".to_owned()
        } else {
            "no".to_owned()
        };

        HPIFormData {
            firstname: claim.firstname,
            lastname: claim.lastname,
            email: claim.email,
            occupation,
            email_consent,
            data_processing_consent: "Ja, ich stimme zu.".to_owned(),
        }
    }
}

/// The first required field this claim leaves empty (after trimming
/// trailing whitespace), checked in submission order, or nothing if the
/// claim is complete for the stages it opted into.
pub open spec fn missing_field(claim: ClaimScore) -> Option<Seq<char>> {
    if claim.wants_leaderboard == Some(true) && trim_end_spec(claim.nickname@).len() == 0 {
        Some("nickname"@)
    } else if claim.wants_raffle == Some(true) && trim_end_spec(claim.email@).len() == 0 {
        Some("email"@)
    } else if claim.wants_raffle == Some(true) && trim_end_spec(claim.firstname@).len() == 0 {
        Some("firstname"@)
    } else if claim.wants_raffle == Some(true) && trim_end_spec(claim.lastname@).len() == 0 {
        Some("lastname"@)
    } else if claim.wants_raffle == Some(true) && claim.data_protection is None {
        Some("data_protection"@)
    } else {
        None
    }
}

/// What a settlement produced: the sanitized nickname that entered the
/// leaderboard, if any, and the filled identity form to hand to the
/// external pipeline, if any.
#[derive(Debug)]
pub struct SettlementOutcome {
    /// The sanitized nickname now on the leaderboard, when the claim opted
    /// in.
    pub leaderboard_nickname: Option<String>,
    /// The identity form to submit externally, when the claim opted in.
    pub raffle_form: Option<HPIFormData>,
}

/// The settlement transition relation between the ledger before and after:
/// an unknown id changes nothing and reports `UnknownClaim`; an incomplete
/// claim changes nothing and names its first missing field; otherwise the
/// unclaimed score is consumed exactly once, the leaderboard gains the
/// sanitized entry exactly when the claim opted in, and the identity form
/// is produced exactly when the raffle was entered.
pub open spec fn settle_post(
    pre: Ledger,
    post: Ledger,
    id: u128,
    claim: ClaimScore,
    r: Result<SettlementOutcome, LeaderboardError>,
) -> bool {
    &&& post.wf()
    &&& match r {
        Err(e) => {
            &&& post.same_state(pre)
            &&& if !pre.contains_unclaimed(id) {
                e == LeaderboardError::UnknownClaim
            } else {
                e matches LeaderboardError::IncompleteData(f) && Some(f@) == missing_field(claim)
            }
        },
        Ok(o) => {
            &&& pre.contains_unclaimed(id)
            &&& missing_field(claim) is None
            &&& post.unclaimed_view() == pre.unclaimed_view().remove(pre.unclaimed_index(id))
            &&& !post.contains_unclaimed(id)
            &&& {
                let score = pre.unclaimed_view()[pre.unclaimed_index(id)].1;
                let nick = sanitize_spec(trim_end_spec(claim.nickname@));
                &&& if claim.wants_leaderboard == Some(true) {
                    &&& o.leaderboard_nickname matches Some(n) && n@ == nick
                    &&& post.entries_view() == pre.entries_view().push((nick, score))
                } else {
                    o.leaderboard_nickname is None && post.entries_view() == pre.entries_view()
                }
                &&& if claim.wants_raffle == Some(true) {
                    o.raffle_form matches Some(f) && form_data_matches(f, claim)
                } else {
                    o.raffle_form is None
                }
            }
        },
    }
}

/// Settles one claim against the ledger in a single atomic step: fetch the
/// unclaimed score, validate the decision, then delete the score
/// unconditionally and apply the staged effects. Deletion happens even when
/// neither stage was opted into — an unclaimed score is consumed exactly
/// once regardless of outcome.
pub fn settle_claim(ledger: &mut Ledger, id: u128, claim: ClaimScore) -> (r: Result<
    SettlementOutcome,
    LeaderboardError,
>)
    requires
        old(ledger).wf(),
    ensures
        settle_post(*old(ledger), *final(ledger), id, claim, r),
{
    let record = match ledger.fetch_unclaimed(id) {
        Ok(u) => u,
        Err(e) => {
            return Err(e);
        },
    };

    let wants_leaderboard = match claim.wants_leaderboard {
        Some(true) => true,
        _ => false,
    };
    let wants_raffle = match claim.wants_raffle {
        Some(true) => true,
        _ => false,
    };

    if wants_leaderboard {
        if trim_end(claim.nickname.as_str()).unicode_len() == 0 {
            return Err(LeaderboardError::IncompleteData("nickname".to_owned()));
        }
    }
    if wants_raffle {
        if trim_end(claim.email.as_str()).unicode_len() == 0 {
            return Err(LeaderboardError::IncompleteData("email".to_owned()));
        }
        if trim_end(claim.firstname.as_str()).unicode_len() == 0 {
            return Err(LeaderboardError::IncompleteData("firstname".to_owned()));
        }
        if trim_end(claim.lastname.as_str()).unicode_len() == 0 {
            return Err(LeaderboardError::IncompleteData("lastname".to_owned()));
        }
        if claim.data_protection.is_none() {
            return Err(LeaderboardError::IncompleteData("data_protection".to_owned()));
        }
    }

    let sanitized_nickname: Option<String> = if wants_leaderboard {
        let trimmed = trim_end(claim.nickname.as_str());
        Some(sanitize_name(trimmed.to_owned()))
    } else {
        None
    };

    // the fetch above proved the id present, and nothing ran in between:
    // the delete cannot fail
    match ledger.delete_unclaimed(id) {
        Ok(()) => {},
        Err(e) => {
            proof {
                assert(false);
            }
            return Err(e);
        },
    }

    let leaderboard_nickname: Option<String> = match sanitized_nickname {
        Some(nick) => {
            let copy = nick.clone();
            ledger.insert_entry(nick, record.score);
            Some(copy)
        },
        None => None,
    };

    let raffle_form: Option<HPIFormData> = if wants_raffle {
        Some(HPIFormData::from_claim(claim))
    } else {
        None
    };

    Ok(SettlementOutcome { leaderboard_nickname, raffle_form })
}

/// The value of a textual UUID, in any of the formats uuid accepts
/// (simple, hyphenated, braced, URN), or nothing if the text is not one.
pub uninterp spec fn uuid_of(s: Seq<char>) -> Option<u128>;

/// Relies on uuid::Uuid::parse_str (read out through Uuid::as_u128):
/// parsing is a function of the input characters alone and never panics.
#[verifier::external_body]
fn parse_uuid(s: &str) -> (r: Option<u128>)
    ensures
        r == uuid_of(s@),
{
    match uuid::Uuid::parse_str(s) {
        Ok(u) => Some(u.as_u128()),
        Err(_) => None,
    }
}

/// The claim form lookup: resolves a textual id to the unclaimed score it
/// names, so the kiosk can show the claim form for it. A malformed id is
/// `InvalidId`; a well-formed id that names nothing is `UnknownClaim`.
pub fn claim_score_form(ledger: &Ledger, id_str: &str) -> (r: Result<
    UnclaimedScore,
    LeaderboardError,
>)
    requires
        ledger.wf(),
    ensures
        uuid_of(id_str@) is None <==> r == Err::<UnclaimedScore, LeaderboardError>(
            LeaderboardError::InvalidId,
        ),
        uuid_of(id_str@) matches Some(id) ==> {
            if ledger.contains_unclaimed(id) {
                r matches Ok(u) && u@ == ledger.unclaimed_view()[ledger.unclaimed_index(id)]
            } else {
                r == Err::<UnclaimedScore, LeaderboardError>(LeaderboardError::UnknownClaim)
            }
        },
{
    let id = match parse_uuid(id_str) {
        Some(id) => id,
        None => {
            return Err(LeaderboardError::InvalidId);
        },
    };
    ledger.fetch_unclaimed(id)
}

/// The claim endpoint: resolves the textual id and settles the claim
/// against the ledger in one atomic step. A malformed id is `InvalidId`
/// and changes nothing; otherwise the settlement transition applies.
pub fn claim_score_submit(ledger: &mut Ledger, id_str: &str, claim: ClaimScore) -> (r: Result<
    SettlementOutcome,
    LeaderboardError,
>)
    requires
        old(ledger).wf(),
    ensures
        final(ledger).wf(),
        uuid_of(id_str@) is None ==> r == Err::<SettlementOutcome, LeaderboardError>(
            LeaderboardError::InvalidId,
        ) && final(ledger).same_state(*old(ledger)),
        uuid_of(id_str@) matches Some(id) ==> settle_post(
            *old(ledger),
            *final(ledger),
            id,
            claim,
            r,
        ),
{
    let id = match parse_uuid(id_str) {
        Some(id) => id,
        None => {
            return Err(LeaderboardError::InvalidId);
        },
    };
    settle_claim(ledger, id, claim)
}

/// Once a settlement for an id has succeeded, the id is gone: any further
/// settlement attempt for the same id, whatever its claim says, reports
/// `UnknownClaim` and changes nothing. At most one of two claims for the
/// same unclaimed score can ever succeed.
pub proof fn lemma_second_claim_fails(
    l0: Ledger,
    l1: Ledger,
    l2: Ledger,
    id: u128,
    c1: ClaimScore,
    c2: ClaimScore,
    r1: Result<SettlementOutcome, LeaderboardError>,
    r2: Result<SettlementOutcome, LeaderboardError>,
)
    requires
        settle_post(l0, l1, id, c1, r1),
        r1 is Ok,
        settle_post(l1, l2, id, c2, r2),
    ensures
        r2 == Err::<SettlementOutcome, LeaderboardError>(LeaderboardError::UnknownClaim),
        l2.same_state(l1),
{
    assert(!l1.contains_unclaimed(id));
}

} // verus!
