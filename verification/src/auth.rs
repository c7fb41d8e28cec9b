//! Derivation of the vault's address, and the authorization check that
//! stands in for a signature.
//!
//! The vault is spendable by no private key: the program authorizes a
//! transfer out of it by re-presenting the (seed tag, game address, bump)
//! tuple its address was derived from, and the host compares the derivation
//! against the vault's actual address.

use anchor_lang::solana_program::pubkey::Pubkey;

use crate::ids::AccountId;
use vstd::prelude::*;

verus! {

/// What the ledger's program-address derivation yields on a seed tag, a
/// parent address, a bump nonce and a program id; `None` exactly where the
/// tag exceeds the ledger's 32-byte seed limit.
pub uninterp spec fn derived_address_of(
    tag: Seq<u8>,
    parent: AccountId,
    bump: u8,
    program: AccountId,
) -> Option<AccountId>;

/// Relies on `Pubkey::try_derive_address` of anchor_lang's re-exported
/// ledger address type: the derived address is the SHA-256 digest of the
/// seeds, the bump, the program id and a fixed marker — a function of those
/// arguments alone — and it fails exactly where a seed exceeds the 32-byte
/// limit (here only the tag can; the parent's 32 bytes and the 1-byte bump
/// are within it).
#[verifier::external_body]
fn derive_address_raw(tag: &Vec<u8>, parent: &AccountId, bump: u8, program: &AccountId) -> (r:
    Option<AccountId>)
    ensures
        r == derived_address_of(tag@, *parent, bump, *program),
        r is Some <==> tag@.len() <= 32,
{
    let mut pb = [0u8; 32];
    pb[..16].copy_from_slice(&parent.hi.to_be_bytes());
    pb[16..].copy_from_slice(&parent.lo.to_be_bytes());
    let mut prb = [0u8; 32];
    prb[..16].copy_from_slice(&program.hi.to_be_bytes());
    prb[16..].copy_from_slice(&program.lo.to_be_bytes());
    let seeds = [tag.as_slice(), pb.as_slice()];
    let pk = Pubkey::try_derive_address(&seeds, Some(bump), &Pubkey::new_from_array(prb)).ok()?;
    let b = pk.to_bytes();
    Some(AccountId {
        hi: u128::from_be_bytes(b[..16].try_into().unwrap()),
        lo: u128::from_be_bytes(b[16..].try_into().unwrap()),
    })
}

/// The fixed domain-separation tag the vault's address is derived under:
/// the bytes of "vault".
pub open spec fn spec_vault_tag() -> Seq<u8> {
    seq![118u8, 97u8, 117u8, 108u8, 116u8]
}

/// The fixed domain-separation tag, as bytes.
pub fn vault_tag() -> (r: Vec<u8>)
    ensures
        r@ == spec_vault_tag(),
{
    let mut t: Vec<u8> = Vec::new();
    t.push(118);
    t.push(97);
    t.push(117);
    t.push(108);
    t.push(116);
    proof {
        assert(t@ =~= spec_vault_tag());
    }
    t
}

/// The vault address a game and its bump derive under a program: a pure
/// function of the three, always defined since the tag is 5 bytes.
pub open spec fn spec_vault_address(game_id: AccountId, bump: u8, program: AccountId) -> AccountId {
    derived_address_of(spec_vault_tag(), game_id, bump, program)->0
}

/// Derives the vault address for a game record's own address and its stored
/// bump nonce, under the given program id.
pub fn derive_vault_address(game_id: &AccountId, bump: u8, program: &AccountId) -> (r: AccountId)
    ensures
        r == spec_vault_address(*game_id, bump, *program),
{
    let tag = vault_tag();
    let derived = derive_address_raw(&tag, game_id, bump, program);
    match derived {
        Some(a) => a,
        None => {
            // The tag is 5 bytes, within the seed limit, so the derivation
            // cannot fail.
            proof {
                assert(false);
            }
            AccountId::sentinel()
        },
    }
}

/// The authorization check at the transfer boundary: a transfer out of
/// `vault` is authorized by `(game_id, bump)` exactly when the derivation
/// re-yields the vault's actual address. This is the only authorization
/// path for vault funds.
pub fn vault_authorized(game_id: &AccountId, bump: u8, program: &AccountId, vault: &AccountId) -> (r:
    bool)
    ensures
        r == (spec_vault_address(*game_id, bump, *program) == *vault),
{
    let derived = derive_vault_address(game_id, bump, program);
    derived == *vault
}

} // verus!
