use pot_game::game::Game;
use pot_game::game::PotError;
use pot_game::ids::AccountId;
use pot_game::lifecycle::initialize_game;
use pot_game::lifecycle::place_bid;
use pot_game::settle::settle_with_expected;

fn id(n: u128) -> AccountId {
    AccountId { hi: n, lo: n.wrapping_mul(7) }
}

fn fresh_game(burn_bps: u16, fee_bps: u16, treasury: Option<AccountId>) -> Game {
    initialize_game(id(1), id(2), 255, 1000, 3600, 1000, burn_bps, fee_bps, treasury)
        .expect("valid basis points")
}

#[test]
fn initialize_sets_every_field() {
    let g = fresh_game(500, 200, Some(id(9)));
    assert_eq!(g.admin, id(1));
    assert_eq!(g.vault, id(2));
    assert_eq!(g.bump, 255);
    assert_eq!(g.end_time, 1000 + 3600);
    assert_eq!(g.duration_seconds, 3600);
    assert_eq!(g.min_bid_lamports, 1000);
    assert_eq!(g.burn_bps, 500);
    assert_eq!(g.fee_bps, 200);
    assert_eq!(g.treasury, Some(id(9)));
    assert_eq!(g.last_bidder, AccountId { hi: 0, lo: 0 });
    assert!(!g.is_settled);
}

#[test]
fn initialize_rejects_bps_above_ten_thousand() {
    let r = initialize_game(id(1), id(2), 255, 1000, 3600, 1000, 10001, 0, None);
    assert_eq!(r, Err(PotError::BpsInvalid));
    let r = initialize_game(id(1), id(2), 255, 1000, 3600, 1000, 0, 10001, None);
    assert_eq!(r, Err(PotError::BpsInvalid));
    assert!(initialize_game(id(1), id(2), 255, 1000, 3600, 1000, 10000, 10000, None).is_ok());
}

#[test]
fn bid_too_small_changes_nothing() {
    let mut g = fresh_game(500, 200, None);
    let before = g;
    let r = place_bid(&mut g, id(3), 999, 1500);
    assert_eq!(r, Err(PotError::BidTooSmall));
    assert_eq!(g, before);
}

#[test]
fn bid_at_or_after_deadline_changes_nothing() {
    let mut g = fresh_game(500, 200, None);
    let before = g;
    let r = place_bid(&mut g, id(3), 5000, 4600);
    assert_eq!(r, Err(PotError::GameOver));
    assert_eq!(g, before);
    let r = place_bid(&mut g, id(3), 5000, 9999);
    assert_eq!(r, Err(PotError::GameOver));
    assert_eq!(g, before);
}

#[test]
fn accepted_bid_resets_deadline_exactly() {
    let mut g = fresh_game(500, 200, None);
    let t = place_bid(&mut g, id(3), 1000, 2000).expect("bid accepted");
    assert_eq!(t.from, id(3));
    assert_eq!(t.to, id(2));
    assert_eq!(t.lamports, 1000);
    assert_eq!(g.last_bidder, id(3));
    // A full fresh window from the bid time, not an increment of the old deadline.
    assert_eq!(g.end_time, 2000 + 3600);

    // A later, larger bid displaces the leader and resets the deadline again.
    let t = place_bid(&mut g, id(4), 70_000, 2100).expect("bid accepted");
    assert_eq!(t.lamports, 70_000);
    assert_eq!(g.last_bidder, id(4));
    assert_eq!(g.end_time, 2100 + 3600);

    // Any bid at the minimum displaces even a far larger previous bid.
    let _ = place_bid(&mut g, id(5), 1000, 2200).expect("bid accepted");
    assert_eq!(g.last_bidder, id(5));
    assert_eq!(g.end_time, 2200 + 3600);
}

#[test]
fn example_split_930_20_50() {
    // duration=3600, min_bid=1000, burn=500 bps, fee=200 bps; one bid of 1000
    // from A; settle with distributable 1000 (reserve 0).
    let treasury = id(9);
    let incinerator = id(8);
    let mut g = fresh_game(500, 200, Some(treasury));
    let a = id(3);
    place_bid(&mut g, a, 1000, 2000).expect("bid accepted");
    let end = g.end_time;
    let plan = settle_with_expected(
        &mut g,
        id(7),
        end,
        1000,
        0,
        Some(incinerator),
        incinerator,
        treasury,
    )
    .expect("settlement succeeds");
    assert!(g.is_settled);
    assert_eq!(plan.vault, id(2));
    assert_eq!(plan.game_id, id(7));
    assert_eq!(plan.bump, 255);
    assert_eq!(plan.payouts.len(), 3);
    assert_eq!(plan.payouts[0].to, a);
    assert_eq!(plan.payouts[0].lamports, 930);
    assert_eq!(plan.payouts[1].to, treasury);
    assert_eq!(plan.payouts[1].lamports, 20);
    assert_eq!(plan.payouts[2].to, incinerator);
    assert_eq!(plan.payouts[2].lamports, 50);
    // Conservation: the three parts sum back to the distributable pot.
    assert_eq!(930 + 20 + 50, 1000u64);
}

#[test]
fn settle_succeeds_at_most_once() {
    let mut g = fresh_game(500, 200, Some(id(9)));
    place_bid(&mut g, id(3), 1000, 2000).expect("bid accepted");
    let end = g.end_time;
    let inc = id(8);
    settle_with_expected(&mut g, id(7), end, 1000, 0, Some(inc), inc, id(9))
        .expect("first settlement succeeds");
    let before = g;
    let r = settle_with_expected(&mut g, id(7), end + 50, 1000, 0, Some(inc), inc, id(9));
    assert_eq!(r.unwrap_err(), PotError::AlreadySettled);
    assert_eq!(g, before);
}

#[test]
fn settle_with_zero_fee_ignores_treasury() {
    // fee_bps == 0 and no treasury recorded: an arbitrary treasury account
    // is accepted and gets nothing.
    let inc = id(8);
    let garbage = id(77);
    let mut g = fresh_game(500, 0, None);
    place_bid(&mut g, id(3), 1000, 2000).expect("bid accepted");
    let end = g.end_time;
    let plan = settle_with_expected(&mut g, id(7), end, 1000, 0, Some(inc), inc, garbage)
        .expect("settlement succeeds");
    assert_eq!(plan.payouts.len(), 2);
    assert_eq!(plan.payouts[0].to, id(3));
    assert_eq!(plan.payouts[0].lamports, 950);
    assert_eq!(plan.payouts[1].to, inc);
    assert_eq!(plan.payouts[1].lamports, 50);
}

#[test]
fn settle_before_deadline_fails() {
    let inc = id(8);
    let mut g = fresh_game(500, 200, Some(id(9)));
    place_bid(&mut g, id(3), 1000, 2000).expect("bid accepted");
    let end = g.end_time;
    let before = g;
    let r = settle_with_expected(&mut g, id(7), end - 1, 1000, 0, Some(inc), inc, id(9));
    assert_eq!(r.unwrap_err(), PotError::GameNotOver);
    assert_eq!(g, before);
}

#[test]
fn settle_without_winner_fails() {
    let inc = id(8);
    let mut g = fresh_game(500, 200, Some(id(9)));
    let end = g.end_time;
    let before = g;
    let r = settle_with_expected(&mut g, id(7), end, 1000, 0, Some(inc), inc, id(9));
    assert_eq!(r.unwrap_err(), PotError::NoWinner);
    assert_eq!(g, before);
}

#[test]
fn settle_with_pot_at_or_below_reserve_fails() {
    let inc = id(8);
    let mut g = fresh_game(500, 200, Some(id(9)));
    place_bid(&mut g, id(3), 1000, 2000).expect("bid accepted");
    let end = g.end_time;
    let before = g;
    let r = settle_with_expected(&mut g, id(7), end, 1000, 1000, Some(inc), inc, id(9));
    assert_eq!(r.unwrap_err(), PotError::EmptyPot);
    assert_eq!(g, before);
    let r = settle_with_expected(&mut g, id(7), end, 999, 1000, Some(inc), inc, id(9));
    assert_eq!(r.unwrap_err(), PotError::EmptyPot);
    assert_eq!(g, before);
}

#[test]
fn settle_with_wrong_burn_sink_fails() {
    let inc = id(8);
    let mut g = fresh_game(500, 200, Some(id(9)));
    place_bid(&mut g, id(3), 1000, 2000).expect("bid accepted");
    let end = g.end_time;
    let before = g;
    let r = settle_with_expected(&mut g, id(7), end, 1000, 0, Some(inc), id(66), id(9));
    assert_eq!(r.unwrap_err(), PotError::InvalidIncinerator);
    assert_eq!(g, before);
}

#[test]
fn settle_with_fee_due_needs_matching_treasury() {
    let inc = id(8);
    // Recorded treasury mismatches the supplied account.
    let mut g = fresh_game(500, 200, Some(id(9)));
    place_bid(&mut g, id(3), 1000, 2000).expect("bid accepted");
    let end = g.end_time;
    let before = g;
    let r = settle_with_expected(&mut g, id(7), end, 1000, 0, Some(inc), inc, id(10));
    assert_eq!(r.unwrap_err(), PotError::InvalidTreasury);
    assert_eq!(g, before);

    // Fee due but no treasury was ever recorded.
    let mut g = fresh_game(500, 200, None);
    place_bid(&mut g, id(3), 1000, 2000).expect("bid accepted");
    let end = g.end_time;
    let r = settle_with_expected(&mut g, id(7), end, 1000, 0, Some(inc), inc, id(9));
    assert_eq!(r.unwrap_err(), PotError::InvalidTreasury);
}

#[test]
fn settle_with_full_burn_and_full_fee_overflows() {
    // burn and fee each at 100%: the shares outgrow the pot and the checked
    // subtraction refuses a negative winner amount.
    let inc = id(8);
    let mut g = fresh_game(10000, 10000, Some(id(9)));
    place_bid(&mut g, id(3), 1000, 2000).expect("bid accepted");
    let end = g.end_time;
    let before = g;
    let r = settle_with_expected(&mut g, id(7), end, 1, 0, Some(inc), inc, id(9));
    assert_eq!(r.unwrap_err(), PotError::Math);
    assert_eq!(g, before);
}

#[test]
fn settle_rounds_in_favour_of_winner() {
    // 999 at 1 bp each: both shares round down to zero and the winner takes
    // the whole pot.
    let inc = id(8);
    let mut g = fresh_game(1, 1, Some(id(9)));
    place_bid(&mut g, id(3), 1000, 2000).expect("bid accepted");
    let end = g.end_time;
    let plan = settle_with_expected(&mut g, id(7), end, 999, 0, Some(inc), inc, id(9))
        .expect("settlement succeeds");
    assert_eq!(plan.payouts.len(), 1);
    assert_eq!(plan.payouts[0].to, id(3));
    assert_eq!(plan.payouts[0].lamports, 999);
}

#[test]
fn settle_conserves_the_largest_pot() {
    let inc = id(8);
    let mut g = fresh_game(3333, 3333, Some(id(9)));
    place_bid(&mut g, id(3), 1000, 2000).expect("bid accepted");
    let end = g.end_time;
    let plan = settle_with_expected(&mut g, id(7), end, u64::MAX, 0, Some(inc), inc, id(9))
        .expect("settlement succeeds");
    let total: u128 = plan.payouts.iter().map(|p| p.lamports as u128).sum();
    assert_eq!(total, u64::MAX as u128);
}

#[test]
fn default_account_id_is_the_sentinel() {
    assert_eq!(AccountId::default(), AccountId { hi: 0, lo: 0 });
    assert_eq!(AccountId::sentinel(), AccountId::default());
}

#[test]
fn settle_distributes_only_above_the_reserve() {
    // Pot 1500 with a reserve of 500: the split applies to 1000 and the
    // reserve stays behind in the vault.
    let inc = id(8);
    let mut g = fresh_game(500, 200, Some(id(9)));
    place_bid(&mut g, id(3), 1500, 2000).expect("bid accepted");
    let end = g.end_time;
    let plan = settle_with_expected(&mut g, id(7), end, 1500, 500, Some(inc), inc, id(9))
        .expect("settlement succeeds");
    assert_eq!(plan.payouts.len(), 3);
    assert_eq!(plan.payouts[0].lamports, 930);
    assert_eq!(plan.payouts[1].lamports, 20);
    assert_eq!(plan.payouts[2].lamports, 50);
}
