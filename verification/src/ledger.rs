//! The score ledger: unclaimed scores submitted by the game client, keyed by
//! a random 128-bit id, and the finalized leaderboard entries. The ledger is
//! held in memory; every mutating operation works on `&mut self`, so a
//! settlement that fetches, validates, deletes and inserts inside one call
//! is atomic with respect to any other borrower of the ledger.

use vstd::prelude::*;

use crate::error::LeaderboardError;

verus! {

/// A score that arrived from the game but has not been claimed by a person
/// yet. It exists until it is consumed by a settlement: there is no "claimed"
/// state, only "exists" or "gone".
#[derive(Debug)]
pub struct UnclaimedScore {
    /// Opaque unique identifier, drawn at random on ingress.
    pub id: u128,
    /// The validated, non-negative score.
    pub score: i32,
    /// The validated `#RRGGBB` color string.
    pub color: String,
}

impl View for UnclaimedScore {
    type V = (u128, int, Seq<char>);

    open spec fn view(&self) -> Self::V {
        (self.id, self.score as int, self.color@)
    }
}

impl UnclaimedScore {
    /// A field-for-field copy.
    pub fn duplicate(&self) -> (r: UnclaimedScore)
        ensures
            r@ == self@,
    {
        UnclaimedScore { id: self.id, score: self.score, color: self.color.clone() }
    }
}

/// A finalized leaderboard entry: immutable once created, append-only.
#[derive(Debug)]
pub struct ScoreRow {
    /// The sanitized display name chosen at claim time.
    pub nickname: String,
    /// The non-negative score.
    pub score: i32,
}

impl View for ScoreRow {
    type V = (Seq<char>, int);

    open spec fn view(&self) -> Self::V {
        (self.nickname@, self.score as int)
    }
}

impl ScoreRow {
    /// A field-for-field copy.
    pub fn duplicate(&self) -> (r: ScoreRow)
        ensures
            r@ == self@,
    {
        ScoreRow { nickname: self.nickname.clone(), score: self.score }
    }
}

/// The two tables of the store: unclaimed scores keyed by their random id,
/// and the append-only leaderboard.
pub struct Ledger {
    unclaimed: Vec<UnclaimedScore>,
    entries: Vec<ScoreRow>,
}

impl Ledger {
    /// The unclaimed scores as a sequence of (id, score, color) triples.
    pub closed spec fn unclaimed_view(self) -> Seq<(u128, int, Seq<char>)> {
        self.unclaimed@.map(|i: int, u: UnclaimedScore| u@)
    }

    /// The leaderboard entries as a sequence of (nickname, score) pairs.
    pub closed spec fn entries_view(self) -> Seq<(Seq<char>, int)> {
        self.entries@.map(|i: int, e: ScoreRow| e@)
    }

    /// Whether two ledgers hold exactly the same records.
    pub open spec fn same_state(self, other: Ledger) -> bool {
        self.unclaimed_view() == other.unclaimed_view() && self.entries_view()
            == other.entries_view()
    }

    /// Well-formedness: every unclaimed score has a distinct id.
    pub open spec fn wf(self) -> bool {
        forall|i: int, j: int|
            0 <= i < j < self.unclaimed_view().len() ==> (#[trigger] self.unclaimed_view()[i]).0
                != (#[trigger] self.unclaimed_view()[j]).0
    }

    /// Whether an unclaimed score with this id exists.
    pub open spec fn contains_unclaimed(self, id: u128) -> bool {
        exists|i: int|
            0 <= i < self.unclaimed_view().len() && (#[trigger] self.unclaimed_view()[i]).0 == id
    }

    /// The position of the unclaimed score with this id; meaningful only
    /// when one exists (and then, by well-formedness, unique).
    pub open spec fn unclaimed_index(self, id: u128) -> int {
        choose|i: int|
            0 <= i < self.unclaimed_view().len() && (#[trigger] self.unclaimed_view()[i]).0 == id
    }

    /// An empty store.
    pub fn new() -> (r: Ledger)
        ensures
            r.wf(),
            r.unclaimed_view() == Seq::<(u128, int, Seq<char>)>::empty(),
            r.entries_view() == Seq::<(Seq<char>, int)>::empty(),
    {
        let r = Ledger { unclaimed: Vec::new(), entries: Vec::new() };
        proof {
            assert(r.unclaimed_view() =~= Seq::<(u128, int, Seq<char>)>::empty());
            assert(r.entries_view() =~= Seq::<(Seq<char>, int)>::empty());
        }
        r
    }

    /// Whether an unclaimed score with this id exists.
    pub fn has_unclaimed(&self, id: u128) -> (b: bool)
        ensures
            b == self.contains_unclaimed(id),
    {
        let n = self.unclaimed.len();
        for i in 0..n
            invariant
                n == self.unclaimed.len(),
                forall|j: int| 0 <= j < i ==> (#[trigger] self.unclaimed_view()[j]).0 != id,
        {
            if self.unclaimed[i].id == id {
                proof {
                    assert((self.unclaimed_view()[i as int]).0 == id);
                }
                return true;
            }
        }
        false
    }

    /// Stores a new unclaimed score under the given id. The id must be
    /// fresh; if it is already taken the insert is refused and nothing
    /// changes.
    pub fn insert_unclaimed(&mut self, id: u128, score: i32, color: String) -> (r: Result<
        (),
        LeaderboardError,
    >)
        requires
            old(self).wf(),
        ensures
            final(self).wf(),
            final(self).entries_view() == old(self).entries_view(),
            !old(self).contains_unclaimed(id) ==> r is Ok && final(self).unclaimed_view() == old(
                self,
            ).unclaimed_view().push((id, score as int, color@)),
            old(self).contains_unclaimed(id) ==> r == Err::<(), LeaderboardError>(
                LeaderboardError::InsertFailure,
            ) && final(self).unclaimed_view() == old(self).unclaimed_view(),
            final(self).contains_unclaimed(id) == (r is Ok || old(self).contains_unclaimed(id)),
    {
        if self.has_unclaimed(id) {
            return Err(LeaderboardError::InsertFailure);
        }
        let ghost pre = *self;
        self.unclaimed.push(UnclaimedScore { id, score, color });
        proof {
            assert(self.unclaimed_view() =~= pre.unclaimed_view().push(
                (id, score as int, color@),
            ));
            assert(self.entries_view() =~= pre.entries_view());
            assert((self.unclaimed_view()[self.unclaimed_view().len() - 1]).0 == id);
        }
        Ok(())
    }

    /// Looks up an unclaimed score by id, returning a copy of the stored
    /// record, or `UnknownClaim` if no such score exists.
    pub fn fetch_unclaimed(&self, id: u128) -> (r: Result<UnclaimedScore, LeaderboardError>)
        requires
            self.wf(),
        ensures
            match r {
                Ok(u) => self.contains_unclaimed(id) && u@ == self.unclaimed_view()[self.unclaimed_index(id)],
                Err(e) => !self.contains_unclaimed(id) && e == LeaderboardError::UnknownClaim,
            },
    {
        let n = self.unclaimed.len();
        for i in 0..n
            invariant
                n == self.unclaimed.len(),
                self.wf(),
                forall|j: int| 0 <= j < i ==> (#[trigger] self.unclaimed_view()[j]).0 != id,
        {
            if self.unclaimed[i].id == id {
                proof {
                    assert((self.unclaimed_view()[i as int]).0 == id);
                    assert(self.unclaimed_index(id) == i) by {
                        let k = self.unclaimed_index(id);
                        assert(0 <= k < self.unclaimed_view().len() && (self.unclaimed_view()[k]).0
                            == id);
                    }
                }
                return Ok(self.unclaimed[i].duplicate());
            }
        }
        Err(LeaderboardError::UnknownClaim)
    }

    /// Deletes the unclaimed score with this id. Deleting an id that does
    /// not exist is a storage error surfaced to the caller, not silently
    /// ignored.
    pub fn delete_unclaimed(&mut self, id: u128) -> (r: Result<(), LeaderboardError>)
        requires
            old(self).wf(),
        ensures
            final(self).wf(),
            final(self).entries_view() == old(self).entries_view(),
            old(self).contains_unclaimed(id) ==> r is Ok && final(self).unclaimed_view() == old(
                self,
            ).unclaimed_view().remove(old(self).unclaimed_index(id)),
            !old(self).contains_unclaimed(id) ==> r == Err::<(), LeaderboardError>(
                LeaderboardError::DeleteError,
            ) && final(self).unclaimed_view() == old(self).unclaimed_view(),
            !final(self).contains_unclaimed(id),
    {
        let n = self.unclaimed.len();
        for i in 0..n
            invariant
                n == self.unclaimed.len(),
                *self == *old(self),
                old(self).wf(),
                forall|j: int| 0 <= j < i ==> (#[trigger] self.unclaimed_view()[j]).0 != id,
        {
            if self.unclaimed[i].id == id {
                let ghost pre = *self;
                proof {
                    assert((pre.unclaimed_view()[i as int]).0 == id);
                    assert(pre.unclaimed_index(id) == i) by {
                        let k = pre.unclaimed_index(id);
                        assert(0 <= k < pre.unclaimed_view().len() && (pre.unclaimed_view()[k]).0
                            == id);
                    }
                }
                self.unclaimed.remove(i);
                proof {
                    assert(self.unclaimed_view() =~= pre.unclaimed_view().remove(i as int));
                    assert(self.entries_view() =~= pre.entries_view());
                    assert forall|j: int|
                        0 <= j < self.unclaimed_view().len() implies (
                    #[trigger] self.unclaimed_view()[j]).0 != id by {
                        if j < i {
                            assert(self.unclaimed_view()[j] == pre.unclaimed_view()[j]);
                        } else {
                            assert(self.unclaimed_view()[j] == pre.unclaimed_view()[j + 1]);
                        }
                    }
                }
                return Ok(());
            }
        }
        Err(LeaderboardError::DeleteError)
    }

    /// Appends a finalized leaderboard entry.
    pub fn insert_entry(&mut self, nickname: String, score: i32)
        requires
            old(self).wf(),
        ensures
            final(self).wf(),
            final(self).unclaimed_view() == old(self).unclaimed_view(),
            final(self).entries_view() == old(self).entries_view().push((nickname@, score as int)),
    {
        let ghost pre = *self;
        self.entries.push(ScoreRow { nickname, score });
        proof {
            assert(self.unclaimed_view() =~= pre.unclaimed_view());
            assert(self.entries_view() =~= pre.entries_view().push((nickname@, score as int)));
        }
    }

    /// A copy of every leaderboard entry, in insertion order; the ranked
    /// ordering is imposed by the ranking engine, not here.
    pub fn scan_leaderboard(&self) -> (r: Vec<ScoreRow>)
        ensures
            r@.map(|i: int, e: ScoreRow| e@) == self.entries_view(),
    {
        let n = self.entries.len();
        let mut r: Vec<ScoreRow> = Vec::new();
        for i in 0..n
            invariant
                n == self.entries.len(),
                r@.len() == i,
                forall|k: int| 0 <= k < i ==> (#[trigger] r@[k])@ == self.entries_view()[k],
        {
            r.push(self.entries[i].duplicate());
        }
        proof {
            assert forall|k: int| 0 <= k < n implies (r@.map(|j: int, e: ScoreRow| e@))[k]
                == self.entries_view()[k] by {
                assert(r@[k]@ == self.entries_view()[k]);
            }
            assert(r@.map(|j: int, e: ScoreRow| e@) =~= self.entries_view());
        }
        r
    }

    /// A copy of every unclaimed score, in insertion order, for the
    /// moderator-facing review list.
    pub fn scan_unclaimed(&self) -> (r: Vec<UnclaimedScore>)
        ensures
            r@.map(|i: int, u: UnclaimedScore| u@) == self.unclaimed_view(),
    {
        let n = self.unclaimed.len();
        let mut r: Vec<UnclaimedScore> = Vec::new();
        for i in 0..n
            invariant
                n == self.unclaimed.len(),
                r@.len() == i,
                forall|k: int| 0 <= k < i ==> (#[trigger] r@[k])@ == self.unclaimed_view()[k],
        {
            r.push(self.unclaimed[i].duplicate());
        }
        proof {
            assert forall|k: int| 0 <= k < n implies (r@.map(|j: int, u: UnclaimedScore| u@))[k]
                == self.unclaimed_view()[k] by {
                assert(r@[k]@ == self.unclaimed_view()[k]);
            }
            assert(r@.map(|j: int, u: UnclaimedScore| u@) =~= self.unclaimed_view());
        }
        r
    }
}

} // verus!
