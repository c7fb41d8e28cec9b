//! Creating a game and bidding on it.

use crate::game::Game;
use crate::game::PotError;
use crate::ids::AccountId;
use vstd::prelude::*;

verus! {

/// A native value movement the host ledger must perform, atomically with the
/// state change of the operation that produced it.
#[derive(Clone, Copy, Debug, PartialEq, Eq, Structural)]
pub struct Transfer {
    pub from: AccountId,
    pub to: AccountId,
    pub lamports: u64,
}

/// The record a fresh game starts from: empty vault, no bidder, a deadline
/// one full window from now.
pub open spec fn initial_game(
    admin: AccountId,
    vault: AccountId,
    bump: u8,
    now: i64,
    duration_seconds: i64,
    min_bid_lamports: u64,
    burn_bps: u16,
    fee_bps: u16,
    treasury: Option<AccountId>,
) -> Game {
    Game {
        admin,
        vault,
        last_bidder: AccountId::spec_sentinel(),
        end_time: (now + duration_seconds) as i64,
        duration_seconds,
        min_bid_lamports,
        burn_bps,
        fee_bps,
        treasury,
        is_settled: false,
        bump,
    }
}

/// Creates the game record for an empty vault at its derived address.
///
/// Rejects a basis-point split above 100%; otherwise returns the record
/// exactly as [`initial_game`] states it, with `end_time` one full window
/// from `now`. The caller has already created the vault (at zero balance)
/// and derived `bump`.
pub fn initialize_game(
    admin: AccountId,
    vault: AccountId,
    bump: u8,
    now: i64,
    duration_seconds: i64,
    min_bid_lamports: u64,
    burn_bps: u16,
    fee_bps: u16,
    treasury: Option<AccountId>,
) -> (r: Result<Game, PotError>)
    requires
        burn_bps <= 10000 && fee_bps <= 10000 ==> i64::MIN <= now + duration_seconds
            <= i64::MAX,
    ensures
        burn_bps > 10000 || fee_bps > 10000 ==> r == Err::<Game, PotError>(PotError::BpsInvalid),
        burn_bps <= 10000 && fee_bps <= 10000 ==> r == Ok::<Game, PotError>(
            initial_game(
                admin,
                vault,
                bump,
                now,
                duration_seconds,
                min_bid_lamports,
                burn_bps,
                fee_bps,
                treasury,
            ),
        ),
        r matches Ok(g) ==> g.wf() && !g.is_settled && g.last_bidder.is_sentinel(),
{
    if !(burn_bps <= 10000 && fee_bps <= 10000) {
        return Err(PotError::BpsInvalid);
    }
    Ok(Game {
        admin,
        vault,
        last_bidder: AccountId::sentinel(),
        end_time: now + duration_seconds,
        duration_seconds,
        min_bid_lamports,
        burn_bps,
        fee_bps,
        treasury,
        is_settled: false,
        bump,
    })
}

/// The game after an accepted bid: the bidder leads and the deadline is one
/// full window from the bid time — a reset, not an extension of the old
/// deadline.
pub open spec fn bid_applied(g: Game, bidder: AccountId, now: i64) -> Game {
    Game { last_bidder: bidder, end_time: (now + g.duration_seconds) as i64, ..g }
}

/// The value movement an accepted bid asks of the host: the bid amount, from
/// the bidder into the game's vault.
pub open spec fn bid_transfer(g: Game, bidder: AccountId, lamports: u64) -> Transfer {
    Transfer { from: bidder, to: g.vault, lamports }
}

/// Accepts or rejects a bid.
///
/// A bid at or past the deadline fails with `GameOver`; one below the
/// minimum with `BidTooSmall`; either failure leaves the game unchanged and
/// asks no transfer of the host. An accepted bid makes the bidder the
/// leader, resets the deadline to one full window from `now` — whatever the
/// old deadline was — and returns the bidder-to-vault transfer the host must
/// perform. Any bid at or above the minimum displaces the previous leader,
/// regardless of what that leader paid.
pub fn place_bid(game: &mut Game, bidder: AccountId, lamports: u64, now: i64) -> (r: Result<
    Transfer,
    PotError,
>)
    requires
        now < old(game).end_time && lamports >= old(game).min_bid_lamports ==> i64::MIN <= now
            + old(game).duration_seconds <= i64::MAX,
    ensures
        now >= old(game).end_time ==> r == Err::<Transfer, PotError>(PotError::GameOver)
            && *final(game) == *old(game),
        now < old(game).end_time && lamports < old(game).min_bid_lamports ==> r == Err::<
            Transfer,
            PotError,
        >(PotError::BidTooSmall) && *final(game) == *old(game),
        now < old(game).end_time && lamports >= old(game).min_bid_lamports ==> r == Ok::<
            Transfer,
            PotError,
        >(bid_transfer(*old(game), bidder, lamports))
            && *final(game) == bid_applied(*old(game), bidder, now),
        final(game).wf() == old(game).wf(),
{
    if !(now < game.end_time) {
        return Err(PotError::GameOver);
    }
    if !(lamports >= game.min_bid_lamports) {
        return Err(PotError::BidTooSmall);
    }
    let transfer = Transfer { from: bidder, to: game.vault, lamports };
    game.last_bidder = bidder;
    game.end_time = now + game.duration_seconds;
    Ok(transfer)
}

/// The deadline never moves backwards across accepted bids: of two accepted
/// bids, the later one leaves the later deadline, because each resets the
/// deadline to a full window from its own bid time.
pub proof fn lemma_end_time_monotonic(g: Game, b1: AccountId, t1: i64, b2: AccountId, t2: i64)
    requires
        t1 <= t2,
        i64::MIN <= t1 + g.duration_seconds <= i64::MAX,
        i64::MIN <= t2 + g.duration_seconds <= i64::MAX,
    ensures
        bid_applied(bid_applied(g, b1, t1), b2, t2).end_time >= bid_applied(g, b1, t1).end_time,
{
}

} // verus!
