use vstd::prelude::*;

use crate::pubkey::Pubkey;
use anchor_lang::solana_program::pubkey::Pubkey as SolanaPubkey;

verus! {

/// The derived address and bump seed of a program and a single seed, or
/// `None` where no bump seed gives an address off the ed25519 curve.
pub uninterp spec fn program_address(seed: Seq<u8>, program_id: Seq<u8>) -> Option<(Seq<u8>, u8)>;

/// The bytes and bump of a derivation result.
pub open spec fn derived_view(r: Option<(Pubkey, u8)>) -> Option<(Seq<u8>, u8)> {
    match r {
        Some((a, b)) => Some((a@, b)),
        None => None,
    }
}

/// Relies on solana_program's `Pubkey::try_find_program_address` with the
/// one seed `seed`: a search of the bump seeds from 255 down, hashing the
/// seeds, the bump and the program id, that returns the first address off
/// the ed25519 curve with its bump, or `None`; the search depends on its
/// arguments alone.
#[verifier::external_body]
pub(crate) fn find_program_address(seed: &[u8], program_id: &Pubkey) -> (r: Option<(Pubkey, u8)>)
    ensures
        derived_view(r) == program_address(seed@, program_id@),
{
    let id = SolanaPubkey::new_from_array(program_id.bytes);
    SolanaPubkey::try_find_program_address(&[seed], &id).map(
        |(a, b)| (Pubkey { bytes: a.to_bytes() }, b),
    )
}

} // verus!
