//! The escrow's address is derived from the asset, never taken on trust.

use vstd::prelude::*;
use anchor_lang::prelude::Pubkey;
use crate::error::VestingError;
use crate::identity::Identity;

verus! {

/// The program-derived address for a seed tag, an asset and a program, with
/// its bump seed; `None` where no address can be derived. It is a function of
/// its three arguments alone.
pub uninterp spec fn program_address(tag: Seq<char>, asset: Identity, program: Identity) -> Option<
    (Identity, u8),
>;

/// Calls `Pubkey::try_find_program_address` of `anchor_lang` with the two
/// seeds `tag` and `asset`. Trusted: the result is the derived address and
/// bump seed that `program_address` names, or `None` where the search finds
/// no bump seed.
#[verifier::external_body]
fn find_program_address(tag: &str, asset: &Identity, program: &Identity) -> (r: Option<
    (Identity, u8),
>)
    ensures
        r == program_address(tag@, *asset, *program),
{
    let seeds: [&[u8]; 2] = [tag.as_bytes(), &asset.bytes];
    let program_id = Pubkey::new_from_array(program.bytes);
    Pubkey::try_find_program_address(&seeds, &program_id).map(
        |found| (Identity::from_bytes(found.0.to_bytes()), found.1),
    )
}

/// The escrow address of `asset` under `program`, with its bump seed.
pub open spec fn escrow_address(asset: Identity, program: Identity) -> Option<(Identity, u8)> {
    program_address("escrow_wallet"@, asset, program)
}

/// Derives the escrow address of `asset` under `program`.
pub fn derive_escrow_address(asset: &Identity, program: &Identity) -> (r: Option<(Identity, u8)>)
    ensures
        r == escrow_address(*asset, *program),
{
    find_program_address("escrow_wallet", asset, program)
}

/// Whether the escrow a caller presents is the derived one: the address must
/// match, then the bump seed.
pub open spec fn escrow_check(derived: Option<(Identity, u8)>, wallet: Identity, bump: u8) -> Result<
    (),
    VestingError,
> {
    match derived {
        None => Err(VestingError::InvalidEscrowWallet),
        Some((address, expected_bump)) => {
            if wallet != address {
                Err(VestingError::InvalidEscrowWallet)
            } else if bump != expected_bump {
                Err(VestingError::InvalidEscrowBump)
            } else {
                Ok(())
            }
        },
    }
}

/// Checks the escrow a caller presents against the derived one.
pub fn check_escrow(derived: &Option<(Identity, u8)>, wallet: &Identity, bump: u8) -> (r: Result<
    (),
    VestingError,
>)
    ensures
        r == escrow_check(*derived, *wallet, bump),
{
    match derived {
        None => Err(VestingError::InvalidEscrowWallet),
        Some((address, expected_bump)) => {
            if !(*wallet == *address) {
                Err(VestingError::InvalidEscrowWallet)
            } else if bump != *expected_bump {
                Err(VestingError::InvalidEscrowBump)
            } else {
                Ok(())
            }
        },
    }
}

} // verus!
