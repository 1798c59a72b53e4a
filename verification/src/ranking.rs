//! The ranking engine: turns the leaderboard entries into dense-ranked rows.
//! Tied scores share a placement, and the next distinct score's placement is
//! its 1-based position in the descending order (competition ranking: the
//! scores 13337, 1337, 1337 place 1, 2, 2).

use vstd::prelude::*;

use crate::ledger::Ledger;
use crate::ledger::ScoreRow;

verus! {

/// A leaderboard row together with its dense rank; derived on every read,
/// never stored.
#[derive(Debug)]
pub struct PlacementScoreRow {
    /// The sanitized display name.
    pub nickname: String,
    /// The score.
    pub score: i32,
    /// The 1-based dense rank.
    pub placement: u32,
}

impl View for PlacementScoreRow {
    type V = (Seq<char>, int, int);

    open spec fn view(&self) -> Self::V {
        (self.nickname@, self.score as int, self.placement as int)
    }
}

/// The (nickname, score) pairs of a row sequence.
pub open spec fn row_views(rows: Seq<ScoreRow>) -> Seq<(Seq<char>, int)> {
    rows.map(|i: int, e: ScoreRow| e@)
}

/// The (nickname, score) pairs of a ranked row sequence.
pub open spec fn placement_pairs(rows: Seq<PlacementScoreRow>) -> Seq<(Seq<char>, int)> {
    rows.map(|i: int, p: PlacementScoreRow| (p.nickname@, p.score as int))
}

/// How many rows hold a score strictly greater than `v`. The dense rank of a
/// row is one more than this count.
pub open spec fn count_gt(s: Seq<(Seq<char>, int)>, v: int) -> nat
    decreases s.len(),
{
    if s.len() == 0 {
        0
    } else {
        count_gt(s.drop_last(), v) + if s.last().1 > v {
            1nat
        } else {
            0nat
        }
    }
}

/// Scores never increase along the sequence.
pub open spec fn sorted_desc(s: Seq<(Seq<char>, int)>) -> bool {
    forall|i: int, j: int| 0 <= i <= j < s.len() ==> (#[trigger] s[i]).1 >= (#[trigger] s[j]).1
}

/// `count_gt` only looks at the score component, so it is the boundary index
/// whenever the rows greater than `v` are exactly a prefix.
proof fn lemma_count_gt_boundary(s: Seq<(Seq<char>, int)>, v: int, b: int)
    requires
        0 <= b <= s.len(),
        forall|j: int| 0 <= j < b ==> (#[trigger] s[j]).1 > v,
        forall|j: int| b <= j < s.len() ==> (#[trigger] s[j]).1 <= v,
    ensures
        count_gt(s, v) == b,
    decreases s.len(),
{
    if s.len() == 0 {
    } else {
        if b == s.len() {
            lemma_count_gt_boundary(s.drop_last(), v, b - 1);
        } else {
            lemma_count_gt_boundary(s.drop_last(), v, b);
        }
    }
}

/// Dense-ranks a descending-sorted row list: each row keeps its nickname and
/// score, and its placement is one more than the number of rows with a
/// strictly greater score.
pub fn compute_placements(rows: Vec<ScoreRow>) -> (r: Vec<PlacementScoreRow>)
    requires
        sorted_desc(row_views(rows@)),
        rows@.len() <= u32::MAX as int,
    ensures
        r@.len() == rows@.len(),
        forall|i: int|
            0 <= i < r@.len() ==> (#[trigger] r@[i])@ == (
                row_views(rows@)[i].0,
                row_views(rows@)[i].1,
                1 + count_gt(row_views(rows@), row_views(rows@)[i].1) as int,
            ),
{
    let ghost rv = row_views(rows@);
    let n = rows.len();
    let mut out: Vec<PlacementScoreRow> = Vec::new();

    let mut last_score: i32 = -1;
    let mut last_placement: u32 = 1;

    for i in 0..n
        invariant
            n == rows@.len(),
            n <= u32::MAX as int,
            rv == row_views(rows@),
            sorted_desc(rv),
            out@.len() == i,
            forall|k: int|
                0 <= k < i ==> (#[trigger] out@[k])@ == (
                    rv[k].0,
                    rv[k].1,
                    1 + count_gt(rv, rv[k].1) as int,
                ),
            i > 0 ==> last_score as int == rv[i - 1].1 && last_placement as int == 1 + count_gt(
                rv,
                rv[i - 1].1,
            ),
            i == 0 ==> last_score as int == -1 && last_placement == 1,
    {
        let row = &rows[i];
        proof {
            assert(rv[i as int] == rows@[i as int]@);
        }
        if last_score == row.score {
            proof {
                if i == 0 {
                    assert forall|j: int| 0 <= j < rv.len() implies (#[trigger] rv[j]).1
                        <= rv[0].1 by {}
                    lemma_count_gt_boundary(rv, rv[0].1, 0);
                } else {
                    assert(rv[i - 1].1 == rv[i as int].1);
                }
            }
            out.push(
                PlacementScoreRow {
                    nickname: row.nickname.clone(),
                    score: row.score,
                    placement: last_placement,
                },
            );
        } else {
            proof {
                assert forall|j: int| 0 <= j < i implies (#[trigger] rv[j]).1 > rv[i as int].1 by {
                    assert(rv[j].1 >= rv[i - 1].1);
                    assert(rv[i - 1].1 >= rv[i as int].1);
                    assert(rv[i - 1].1 != rv[i as int].1);
                }
                assert forall|j: int| i <= j < rv.len() implies (#[trigger] rv[j]).1
                    <= rv[i as int].1 by {}
                lemma_count_gt_boundary(rv, rv[i as int].1, i as int);
            }
            last_score = row.score;
            last_placement = (i + 1) as u32;
            out.push(
                PlacementScoreRow {
                    nickname: row.nickname.clone(),
                    score: row.score,
                    placement: last_placement,
                },
            );
        }
    }
    out
}

/// Sorts leaderboard rows by descending score, keeping the multiset of rows;
/// ties keep their relative order.
pub fn sort_rows_desc(rows: Vec<ScoreRow>) -> (r: Vec<ScoreRow>)
    ensures
        r@.len() == rows@.len(),
        sorted_desc(row_views(r@)),
        row_views(r@).to_multiset() == row_views(rows@).to_multiset(),
{
    broadcast use vstd::seq_lib::group_to_multiset_ensures;

    let n = rows.len();
    let mut out: Vec<ScoreRow> = Vec::new();
    for i in 0..n
        invariant
            n == rows@.len(),
            out@.len() == i,
            sorted_desc(row_views(out@)),
            row_views(out@).to_multiset() == row_views(rows@.take(i as int)).to_multiset(),
    {
        let row = rows[i].duplicate();
        let ghost pre = out@;
        let mut k: usize = 0;
        while k < out.len() && out[k].score >= row.score
            invariant
                k <= out@.len(),
                out@ == pre,
                forall|m: int| 0 <= m < k ==> (#[trigger] row_views(out@)[m]).1 >= row.score as int,
            decreases out@.len() - k,
        {
            proof {
                assert(row_views(out@)[k as int].1 == out@[k as int].score as int);
            }
            k = k + 1;
        }
        proof {
            if k < out@.len() {
                assert(out@[k as int].score < row.score);
            }
        }
        out.insert(k, row);
        proof {
            let rvp = row_views(pre);
            let rvn = row_views(out@);
            assert(rvn =~= rvp.insert(k as int, rows@[i as int]@)) by {
                assert(out@ == pre.insert(k as int, out@[k as int]));
                assert forall|m: int| 0 <= m < rvn.len() implies rvn[m] == rvp.insert(
                    k as int,
                    rows@[i as int]@,
                )[m] by {
                    if m < k {
                        assert(out@[m] == pre[m]);
                    } else if m == k {
                    } else {
                        assert(out@[m] == pre[m - 1]);
                    }
                }
            }
            assert forall|a: int, b: int| 0 <= a <= b < rvn.len() implies (#[trigger] rvn[a]).1 >= (
            #[trigger] rvn[b]).1 by {
                if a < k && b < k {
                    assert(rvn[a] == rvp[a] && rvn[b] == rvp[b]);
                } else if a < k && b == k {
                    assert(rvn[a] == rvp[a]);
                    assert(rvp[a].1 >= row.score as int);
                } else if a < k && b > k {
                    assert(rvn[a] == rvp[a] && rvn[b] == rvp[b - 1]);
                    assert(rvp[b - 1].1 <= rvp[k as int].1);
                } else if a == k && b == k {
                } else if a == k && b > k {
                    assert(rvn[b] == rvp[b - 1]);
                    assert(rvp[b - 1].1 <= rvp[k as int].1);
                    assert(rvp[k as int].1 < row.score as int);
                } else {
                    assert(rvn[a] == rvp[a - 1] && rvn[b] == rvp[b - 1]);
                }
            }
            broadcast use vstd::seq_lib::group_to_multiset_ensures;

            vstd::seq_lib::to_multiset_insert(rvp, k as int, rows@[i as int]@);
            assert(rvn.to_multiset() == rvp.to_multiset().insert(rows@[i as int]@));
            assert(row_views(rows@.take(i + 1)) =~= row_views(rows@.take(i as int)).push(
                rows@[i as int]@,
            ));
            assert((row_views(rows@.take(i as int)).push(rows@[i as int]@)).to_multiset()
                == row_views(rows@.take(i as int)).to_multiset().insert(rows@[i as int]@));
        }
    }
    proof {
        assert(rows@.take(n as int) =~= rows@);
    }
    out
}

/// The full leaderboard read: every finalized entry, sorted by descending
/// score and dense-ranked. Exactly the stored entries appear (as a multiset),
/// and each row's placement is one more than the number of rows that beat
/// its score.
pub fn leaderboard(ledger: &Ledger) -> (r: Vec<PlacementScoreRow>)
    requires
        ledger.entries_view().len() <= u32::MAX as int,
    ensures
        r@.len() == ledger.entries_view().len(),
        placement_pairs(r@).to_multiset() == ledger.entries_view().to_multiset(),
        sorted_desc(placement_pairs(r@)),
        forall|i: int|
            0 <= i < r@.len() ==> (#[trigger] r@[i])@.2 == 1 + count_gt(
                placement_pairs(r@),
                r@[i]@.1,
            ) as int,
{
    broadcast use vstd::seq_lib::group_to_multiset_ensures;

    let rows = ledger.scan_leaderboard();
    proof {
        assert(row_views(rows@) == ledger.entries_view());
    }
    let sorted = sort_rows_desc(rows);
    let ghost sv = row_views(sorted@);
    proof {
        assert(sorted@.len() == ledger.entries_view().len());
    }
    let r = compute_placements(sorted);
    proof {
        assert(placement_pairs(r@) =~= sv);
    }
    r
}

} // verus!
