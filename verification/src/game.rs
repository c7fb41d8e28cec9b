//! The auction record and the error taxonomy.

use crate::ids::AccountId;
use vstd::prelude::*;

verus! {

/// One auction instance: created once, mutated in place, never deleted.
#[derive(Clone, Copy, Debug, PartialEq, Eq, Structural)]
pub struct Game {
    /// Creator of the game; informational, gates no operation.
    pub admin: AccountId,
    /// The derived custodial account that accumulates bids; set once at
    /// creation, cross-checked on every operation that touches it.
    pub vault: AccountId,
    /// Current leading bidder; the sentinel means "no bids yet".
    pub last_bidder: AccountId,
    /// Absolute timestamp after which no further bids are accepted.
    pub end_time: i64,
    /// The fresh window granted to `end_time` by every accepted bid.
    pub duration_seconds: i64,
    /// Minimum value units accepted per bid.
    pub min_bid_lamports: u64,
    /// Basis-point share of the distributable pot that is burned.
    pub burn_bps: u16,
    /// Basis-point share of the distributable pot paid as a fee.
    pub fee_bps: u16,
    /// Account entitled to the fee share; must be present and match the
    /// caller-supplied account when `fee_bps > 0` at settlement.
    pub treasury: Option<AccountId>,
    /// False until settlement succeeds, then permanently true.
    pub is_settled: bool,
    /// The derivation nonce that, with the fixed seed tag and the game's own
    /// address, yields the vault's address and authorizes transfers out of it.
    pub bump: u8,
}

impl Game {
    /// Well-formedness: each basis-point split is at most 100%. Their sum is
    /// deliberately not bounded; the settlement's checked subtraction guards
    /// against a negative payout instead.
    pub open spec fn wf(self) -> bool {
        self.burn_bps <= 10000 && self.fee_bps <= 10000
    }
}

/// Every way an operation can fail. A failure leaves all state unchanged.
#[derive(Clone, Copy, Debug, PartialEq, Eq, Structural)]
pub enum PotError {
    /// Overflow or underflow in the payout arithmetic.
    Math,
    /// A basis-point split above 100%.
    BpsInvalid,
    /// A bid placed at or after `end_time`.
    GameOver,
    /// Settlement attempted before `end_time`.
    GameNotOver,
    /// Settlement attempted after one already succeeded.
    AlreadySettled,
    /// Settlement attempted while `last_bidder` is still the sentinel.
    NoWinner,
    /// The vault holds no more than the ledger's minimum reserve.
    EmptyPot,
    /// A bid below `min_bid_lamports`.
    BidTooSmall,
    /// A fee is due but the treasury is absent or mismatched.
    InvalidTreasury,
    /// The supplied burn-sink is not the well-known incinerator address.
    InvalidIncinerator,
}

} // verus!
