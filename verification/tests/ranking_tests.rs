use leaderboard::claim::settle_claim;
use leaderboard::claim::ClaimScore;
use leaderboard::ingress::submit_score;
use leaderboard::ledger::Ledger;
use leaderboard::ledger::ScoreRow;
use leaderboard::ranking::compute_placements;
use leaderboard::ranking::leaderboard;
use leaderboard::ranking::sort_rows_desc;

const GOOD_TOKEN: &[u8] = b"asdf";

fn row(nickname: &str, score: i32) -> ScoreRow {
    ScoreRow { nickname: nickname.to_string(), score }
}

fn claim_with_nickname(nickname: &str) -> ClaimScore {
    ClaimScore {
        wants_leaderboard: Some(true),
        wants_raffle: None,
        nickname: nickname.to_string(),
        email: String::new(),
        firstname: String::new(),
        lastname: String::new(),
        newsletter: false,
        data_protection: None,
        occupation: String::new(),
    }
}

fn claim_score(ledger: &mut Ledger, nickname: &str, score: i32) {
    let id = submit_score(
        ledger,
        Some(GOOD_TOKEN),
        GOOD_TOKEN,
        score,
        "#123456".to_string(),
    )
    .unwrap();
    settle_claim(ledger, id, claim_with_nickname(nickname)).unwrap();
}

#[test]
fn ranking_is_dense_with_a_tie_below_the_top() {
    let rows = vec![row("a", 13337), row("b", 1337), row("c", 1337)];
    let ranked = compute_placements(rows);
    let placements: Vec<u32> = ranked.iter().map(|r| r.placement).collect();
    assert_eq!(placements, vec![1, 2, 2]);
}

#[test]
fn ranking_of_an_all_way_tie_is_all_ones() {
    let rows = vec![row("a", 1337), row("b", 1337), row("c", 1337)];
    let ranked = compute_placements(rows);
    let placements: Vec<u32> = ranked.iter().map(|r| r.placement).collect();
    assert_eq!(placements, vec![1, 1, 1]);
}

#[test]
fn ranking_skips_past_ties_competition_style() {
    let rows = vec![
        row("a", 50),
        row("b", 40),
        row("c", 40),
        row("d", 30),
        row("e", 30),
        row("f", 20),
    ];
    let ranked = compute_placements(rows);
    let placements: Vec<u32> = ranked.iter().map(|r| r.placement).collect();
    assert_eq!(placements, vec![1, 2, 2, 4, 4, 6]);
}

#[test]
fn empty_leaderboard_ranks_to_nothing() {
    let ranked = compute_placements(Vec::new());
    assert!(ranked.is_empty());
    assert!(leaderboard(&Ledger::new()).is_empty());
}

#[test]
fn the_largest_score_is_accepted_and_ranked() {
    let mut ledger = Ledger::new();
    claim_score(&mut ledger, "HELLO_TESTING!", i32::MAX);
    claim_score(&mut ledger, "BYE_TESTING!", 0);
    let board = leaderboard(&ledger);
    assert_eq!(board[0].score, i32::MAX);
    assert_eq!(board[0].placement, 1);
    assert_eq!(board[1].score, 0);
    assert_eq!(board[1].placement, 2);
}

#[test]
fn sort_orders_scores_descending_and_keeps_ties_stable() {
    let rows = vec![row("low", 1), row("high", 99), row("mid1", 50), row("mid2", 50)];
    let sorted = sort_rows_desc(rows);
    let names: Vec<String> = sorted.iter().map(|r| r.nickname.clone()).collect();
    assert_eq!(
        names,
        vec![
            "high".to_string(),
            "mid1".to_string(),
            "mid2".to_string(),
            "low".to_string()
        ]
    );
}

#[test]
fn different_scores_are_ordered_correctly() {
    let mut ledger = Ledger::new();
    claim_score(&mut ledger, "HELLO_TESTING!", 1337);
    claim_score(&mut ledger, "BYE_TESTING!", 13337);

    let board = leaderboard(&ledger);
    assert_eq!(board.len(), 2);
    assert_eq!(board[0].nickname, "BYE_TESTING!".to_string());
    assert_eq!(board[0].score, 13337);
    assert_eq!(board[0].placement, 1);
    assert_eq!(board[1].nickname, "HELLO_TESTING!".to_string());
    assert_eq!(board[1].score, 1337);
    assert_eq!(board[1].placement, 2);
}

#[test]
fn same_scores_get_same_position() {
    let mut ledger = Ledger::new();
    claim_score(&mut ledger, "HELLO_TESTING!", 1337);
    claim_score(&mut ledger, "HELLO_TESTING!", 1337);
    claim_score(&mut ledger, "BYE_TESTING!", 13337);

    let board = leaderboard(&ledger);
    assert_eq!(board.len(), 3);
    assert_eq!(board[0].nickname, "BYE_TESTING!".to_string());
    assert_eq!(board[0].placement, 1);
    assert_eq!(board[1].placement, 2);
    assert_eq!(board[2].placement, 2);
    assert_eq!(board[1].nickname, "HELLO_TESTING!".to_string());
    assert_eq!(board[2].nickname, "HELLO_TESTING!".to_string());
}
