//! The ingress guard: scores enter the ledger only with the right bearer
//! token, a non-negative score, and a well-formed `#RRGGBB` color. Any
//! violation rejects the submission before an unclaimed score is created.

use vstd::prelude::*;

use crate::error::LeaderboardError;
use crate::helper::slow_equals;
use crate::ledger::Ledger;

verus! {

/// An ASCII hexadecimal digit.
pub open spec fn is_hex_digit(c: char) -> bool {
    let u = c as u32;
    (0x30 <= u && u <= 0x39) || (0x61 <= u && u <= 0x66) || (0x41 <= u && u <= 0x46)
}

/// A well-formed color: exactly 7 characters, a leading `#`, and 6
/// hexadecimal digits.
pub open spec fn valid_color(s: Seq<char>) -> bool {
    s.len() == 7 && s[0] == '#' && (forall|i: int| 1 <= i < 7 ==> is_hex_digit(#[trigger] s[i]))
}

fn is_hex_digit_char(c: char) -> (r: bool)
    ensures
        r == is_hex_digit(c),
{
    let u = c as u32;
    (0x30 <= u && u <= 0x39) || (0x61 <= u && u <= 0x66) || (0x41 <= u && u <= 0x46)
}

/// Checks that a color is a 7-character `#RRGGBB` hex string.
pub fn validate_color(color: &str) -> (r: bool)
    ensures
        r == valid_color(color@),
{
    let n = color.unicode_len();
    if n != 7 {
        return false;
    }
    if color.get_char(0) != '#' {
        return false;
    }
    for i in 1..7usize
        invariant
            color@.len() == 7,
            color@[0] == '#',
            forall|j: int| 1 <= j < i ==> is_hex_digit(#[trigger] color@[j]),
    {
        if !is_hex_digit_char(color.get_char(i)) {
            return false;
        }
    }
    true
}

/// Relies on uuid::Uuid::new_v4 (read out through Uuid::as_u128): a freshly
/// drawn random version-4 UUID. Nothing is promised of the value; the ledger
/// enforces uniqueness when the id is inserted.
#[verifier::external_body]
fn random_uuid() -> u128 {
    uuid::Uuid::new_v4().as_u128()
}

/// Score ingress. The bearer token must match the server-held secret, the
/// score must be non-negative and the color well-formed; then, and only
/// then, the score enters the ledger under a fresh random id. On success the
/// returned id was not previously present; the only failure past validation
/// is a collision of the random id, which leaves the ledger unchanged.
pub fn submit_score(
    ledger: &mut Ledger,
    authorization: Option<&[u8]>,
    token: &[u8],
    score: i32,
    color: String,
) -> (r: Result<u128, LeaderboardError>)
    requires
        old(ledger).wf(),
    ensures
        final(ledger).wf(),
        match authorization {
            None => {
                &&& r == Err::<u128, LeaderboardError>(LeaderboardError::MissingAuth)
                &&& final(ledger).same_state(*old(ledger))
            },
            Some(a) => {
                if a@ != token@ {
                    &&& r == Err::<u128, LeaderboardError>(LeaderboardError::WrongAuth)
                    &&& final(ledger).same_state(*old(ledger))
                } else if score < 0 {
                    &&& r == Err::<u128, LeaderboardError>(LeaderboardError::InvalidScore)
                    &&& final(ledger).same_state(*old(ledger))
                } else if !valid_color(color@) {
                    &&& r == Err::<u128, LeaderboardError>(LeaderboardError::MalformedColor)
                    &&& final(ledger).same_state(*old(ledger))
                } else {
                    match r {
                        Ok(id) => {
                            &&& !old(ledger).contains_unclaimed(id)
                            &&& final(ledger).contains_unclaimed(id)
                            &&& final(ledger).unclaimed_view() == old(
                                ledger,
                            ).unclaimed_view().push((id, score as int, color@))
                            &&& final(ledger).entries_view() == old(ledger).entries_view()
                        },
                        Err(e) => {
                            &&& e == LeaderboardError::InsertFailure
                            &&& final(ledger).same_state(*old(ledger))
                        },
                    }
                }
            },
        },
{
    let auth = match authorization {
        Some(a) => a,
        None => {
            return Err(LeaderboardError::MissingAuth);
        },
    };

    if !slow_equals(auth, token) {
        return Err(LeaderboardError::WrongAuth);
    }

    if score < 0 {
        return Err(LeaderboardError::InvalidScore);
    }

    if !validate_color(color.as_str()) {
        return Err(LeaderboardError::MalformedColor);
    }

    let id = random_uuid();

    match ledger.insert_unclaimed(id, score, color) {
        Ok(()) => Ok(id),
        Err(e) => Err(e),
    }
}

} // verus!
