//! Settlement: once the deadline has passed, the vault's balance above the
//! ledger's reserve is split three ways — winner, fee treasury, burn sink —
//! and the game is marked terminal.

use crate::game::Game;
use crate::game::PotError;
use crate::ids::AccountId;
use crate::ids::incinerator_id;
use crate::ids::spec_incinerator_id;
use crate::split::lemma_share_bounds;
use crate::split::bps_share;
use crate::split::share_bps;
use vstd::prelude::*;

verus! {

/// One payout out of the vault.
#[derive(Clone, Copy, Debug, PartialEq, Eq, Structural)]
pub struct Payout {
    pub to: AccountId,
    pub lamports: u64,
}

/// Everything the host must perform to finish a settlement: the payouts, in
/// order, out of `vault`, each authorized by re-deriving the vault's address
/// from `(game_id, bump)` in place of a signature.
#[derive(Debug)]
pub struct SettlementPlan {
    /// The custodial account the payouts leave.
    pub vault: AccountId,
    /// The game record's own address: the derivation's parent.
    pub game_id: AccountId,
    /// The derivation nonce stored at creation.
    pub bump: u8,
    /// Winner first, then the fee (if any), then the burn (if any).
    pub payouts: Vec<Payout>,
}

/// The first reason this settlement attempt fails, or `None` where it
/// succeeds. `expected_incinerator` is what the well-known burn-sink string
/// decodes to; the checks run in the order the handler makes them.
pub open spec fn settle_error(
    g: Game,
    now: i64,
    vault_lamports: u64,
    rent_reserve: u64,
    expected_incinerator: Option<AccountId>,
    incinerator: AccountId,
    treasury: AccountId,
) -> Option<PotError> {
    if now < g.end_time {
        Some(PotError::GameNotOver)
    } else if g.is_settled {
        Some(PotError::AlreadySettled)
    } else if g.last_bidder.is_sentinel() {
        Some(PotError::NoWinner)
    } else if expected_incinerator != Some(incinerator) {
        Some(PotError::InvalidIncinerator)
    } else if vault_lamports <= rent_reserve {
        Some(PotError::EmptyPot)
    } else if g.fee_bps > 0 && g.treasury != Some(treasury) {
        Some(PotError::InvalidTreasury)
    } else if share_bps(vault_lamports - rent_reserve, g.burn_bps) + share_bps(
        vault_lamports - rent_reserve,
        g.fee_bps,
    ) > vault_lamports - rent_reserve {
        Some(PotError::Math)
    } else {
        None
    }
}

/// The payouts of a successful settlement over a distributable pot of
/// `amount`: the winner's remainder first, then the fee share if it is
/// positive, then the burn share if it is positive.
pub open spec fn settle_payouts(
    g: Game,
    amount: int,
    incinerator: AccountId,
    treasury: AccountId,
) -> Seq<Payout> {
    let burn = share_bps(amount, g.burn_bps);
    let fee = share_bps(amount, g.fee_bps);
    let winner = amount - burn - fee;
    seq![Payout { to: g.last_bidder, lamports: winner as u64 }] + (if fee > 0 {
        seq![Payout { to: treasury, lamports: fee as u64 }]
    } else {
        Seq::empty()
    }) + (if burn > 0 {
        seq![Payout { to: incinerator, lamports: burn as u64 }]
    } else {
        Seq::empty()
    })
}

/// A game after its settlement succeeded: the same record, terminally
/// settled.
pub open spec fn mark_settled(g: Game) -> Game {
    Game { is_settled: true, ..g }
}

/// Settles a game against an already-decoded burn-sink address.
///
/// Exactly one of two things happens. Either some check fails — deadline not
/// reached, already settled, no bidder, wrong burn-sink, pot at or below the
/// reserve, fee due but treasury absent or mismatched, or the shares
/// outgrowing the pot — and the game is left unchanged with that error; or
/// every check passes, the game is marked settled, and the returned plan
/// carries the three-way split of `vault_lamports - rent_reserve`, with any
/// rounding loss accruing to the winner. When `fee_bps` is zero the supplied
/// `treasury` is ignored entirely.
pub fn settle_with_expected(
    game: &mut Game,
    game_id: AccountId,
    now: i64,
    vault_lamports: u64,
    rent_reserve: u64,
    expected_incinerator: Option<AccountId>,
    incinerator: AccountId,
    treasury: AccountId,
) -> (r: Result<SettlementPlan, PotError>)
    requires
        old(game).wf(),
    ensures
        (match settle_error(
            *old(game),
            now,
            vault_lamports,
            rent_reserve,
            expected_incinerator,
            incinerator,
            treasury,
        ) {
            Some(e) => r == Err::<SettlementPlan, PotError>(e) && *final(game) == *old(game),
            None => r matches Ok(plan) && *final(game) == mark_settled(*old(game))
                && plan.vault == old(game).vault && plan.game_id == game_id && plan.bump == old(
                game,
            ).bump && plan.payouts@ == settle_payouts(
                *old(game),
                vault_lamports - rent_reserve,
                incinerator,
                treasury,
            ),
        }),
        final(game).wf(),
{
    if now < game.end_time {
        return Err(PotError::GameNotOver);
    }
    if game.is_settled {
        return Err(PotError::AlreadySettled);
    }
    if game.last_bidder == AccountId::sentinel() {
        return Err(PotError::NoWinner);
    }
    let expected = match expected_incinerator {
        Some(e) => e,
        None => { return Err(PotError::InvalidIncinerator) },
    };
    if incinerator != expected {
        return Err(PotError::InvalidIncinerator);
    }
    if vault_lamports <= rent_reserve {
        return Err(PotError::EmptyPot);
    }
    let distributable = vault_lamports - rent_reserve;
    let burn = bps_share(distributable, game.burn_bps);
    let fee = bps_share(distributable, game.fee_bps);
    if game.fee_bps > 0 {
        match game.treasury {
            None => { return Err(PotError::InvalidTreasury) },
            Some(t) => {
                if t != treasury {
                    return Err(PotError::InvalidTreasury);
                }
            },
        }
    }
    proof {
        lemma_share_bounds(distributable as int, game.burn_bps);
        lemma_share_bounds(distributable as int, game.fee_bps);
    }
    if fee > distributable - burn {
        return Err(PotError::Math);
    }
    let winner_amount = distributable - burn - fee;
    let mut payouts: Vec<Payout> = Vec::new();
    payouts.push(Payout { to: game.last_bidder, lamports: winner_amount });
    if fee > 0 {
        payouts.push(Payout { to: treasury, lamports: fee });
    }
    if burn > 0 {
        payouts.push(Payout { to: incinerator, lamports: burn });
    }
    proof {
        assert(payouts@ =~= settle_payouts(
            *old(game),
            vault_lamports - rent_reserve,
            incinerator,
            treasury,
        ));
    }
    game.is_settled = true;
    Ok(SettlementPlan { vault: game.vault, game_id, bump: game.bump, payouts })
}

/// Settles a game: decodes the well-known burn-sink address and proceeds as
/// [`settle_with_expected`] states, holding the supplied `incinerator`
/// against it.
pub fn settle(
    game: &mut Game,
    game_id: AccountId,
    now: i64,
    vault_lamports: u64,
    rent_reserve: u64,
    incinerator: AccountId,
    treasury: AccountId,
) -> (r: Result<SettlementPlan, PotError>)
    requires
        old(game).wf(),
    ensures
        (match settle_error(
            *old(game),
            now,
            vault_lamports,
            rent_reserve,
            spec_incinerator_id(),
            incinerator,
            treasury,
        ) {
            Some(e) => r == Err::<SettlementPlan, PotError>(e) && *final(game) == *old(game),
            None => r matches Ok(plan) && *final(game) == mark_settled(*old(game))
                && plan.vault == old(game).vault && plan.game_id == game_id && plan.bump == old(
                game,
            ).bump && plan.payouts@ == settle_payouts(
                *old(game),
                vault_lamports - rent_reserve,
                incinerator,
                treasury,
            ),
        }),
        final(game).wf(),
{
    let expected = incinerator_id();
    settle_with_expected(
        game,
        game_id,
        now,
        vault_lamports,
        rent_reserve,
        expected,
        incinerator,
        treasury,
    )
}

/// Settlement happens at most once: after one success, every later attempt —
/// at any later time, with any balances and accounts — fails with
/// `AlreadySettled` and asks no transfer of the host.
pub proof fn lemma_settle_at_most_once(
    g: Game,
    now1: i64,
    vault_lamports1: u64,
    rent_reserve1: u64,
    expected1: Option<AccountId>,
    incinerator1: AccountId,
    treasury1: AccountId,
    now2: i64,
    vault_lamports2: u64,
    rent_reserve2: u64,
    expected2: Option<AccountId>,
    incinerator2: AccountId,
    treasury2: AccountId,
)
    requires
        settle_error(
            g,
            now1,
            vault_lamports1,
            rent_reserve1,
            expected1,
            incinerator1,
            treasury1,
        ) is None,
        now2 >= now1,
    ensures
        settle_error(
            mark_settled(g),
            now2,
            vault_lamports2,
            rent_reserve2,
            expected2,
            incinerator2,
            treasury2,
        ) == Some(PotError::AlreadySettled),
{
}

/// With no fee due, the supplied treasury account is ignored entirely: any
/// two choices of it fail or succeed alike, with the same payouts.
pub proof fn lemma_treasury_ignored_without_fee(
    g: Game,
    now: i64,
    vault_lamports: u64,
    rent_reserve: u64,
    expected: Option<AccountId>,
    incinerator: AccountId,
    treasury1: AccountId,
    treasury2: AccountId,
    amount: int,
)
    requires
        g.fee_bps == 0,
        amount >= 0,
    ensures
        settle_error(g, now, vault_lamports, rent_reserve, expected, incinerator, treasury1)
            == settle_error(
            g,
            now,
            vault_lamports,
            rent_reserve,
            expected,
            incinerator,
            treasury2,
        ),
        settle_payouts(g, amount, incinerator, treasury1) == settle_payouts(
            g,
            amount,
            incinerator,
            treasury2,
        ),
{
    assert(share_bps(amount, 0u16) == 0);
    assert(settle_payouts(g, amount, incinerator, treasury1) =~= settle_payouts(
        g,
        amount,
        incinerator,
        treasury2,
    ));
}

} // verus!
