//! Fixed-width account identifiers and the well-known addresses the auction
//! compares against.

use core::str::FromStr;

use vstd::prelude::*;

verus! {

/// A ledger account identifier: 32 bytes, held as two 128-bit halves
/// (`hi` is the first 16 bytes, big-endian; `lo` the last 16).
#[derive(Clone, Copy, Debug, PartialEq, Eq, Structural)]
pub struct AccountId {
    pub hi: u128,
    pub lo: u128,
}

impl AccountId {
    /// The all-zero sentinel identifier, meaning "no account".
    pub open spec fn spec_sentinel() -> AccountId {
        AccountId { hi: 0, lo: 0 }
    }

    /// True of the all-zero sentinel alone.
    pub open spec fn is_sentinel(self) -> bool {
        self == AccountId::spec_sentinel()
    }

    /// The all-zero sentinel identifier, meaning "no account".
    pub fn sentinel() -> (r: AccountId)
        ensures
            r == AccountId::spec_sentinel(),
    {
        AccountId { hi: 0, lo: 0 }
    }
}

impl Default for AccountId {
    /// The default identifier is the sentinel, as with ledger addresses.
    fn default() -> (r: Self)
        ensures
            r == AccountId::spec_sentinel(),
    {
        AccountId { hi: 0, lo: 0 }
    }
}

/// The fixed, well-known burn-sink address, in base58 form. Value sent there
/// is permanently removed from circulation.
pub const INCINERATOR: &'static str = "1nc1nerator11111111111111111111111111111111";

/// What base58 decoding yields on a string: the 32-byte identifier it spells,
/// or `None` where the string is not the base58 form of exactly 32 bytes.
pub uninterp spec fn base58_id_of(s: Seq<char>) -> Option<AccountId>;

/// Relies on `Pubkey::from_str` of anchor_lang's re-exported ledger address
/// type: base58 decoding, a function of the characters alone; it fails
/// exactly where the string does not spell 32 bytes.
#[verifier::external_body]
fn decode_base58_id(s: &str) -> (r: Option<AccountId>)
    ensures
        r == base58_id_of(s@),
{
    match anchor_lang::solana_program::pubkey::Pubkey::from_str(s) {
        Ok(pk) => {
            let b = pk.to_bytes();
            Some(AccountId {
                hi: u128::from_be_bytes(b[0..16].try_into().unwrap()),
                lo: u128::from_be_bytes(b[16..32].try_into().unwrap()),
            })
        }
        Err(_) => None,
    }
}

/// The burn-sink identifier that [`INCINERATOR`] spells.
pub open spec fn spec_incinerator_id() -> Option<AccountId> {
    base58_id_of(INCINERATOR@)
}

/// Decodes the well-known burn-sink address.
pub fn incinerator_id() -> (r: Option<AccountId>)
    ensures
        r == spec_incinerator_id(),
{
    decode_base58_id(INCINERATOR)
}

} // verus!
