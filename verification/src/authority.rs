//! The program-derived authority: the single deterministic identity,
//! derived from a fixed domain-separation seed and the protocol's own
//! identity, that controls every holding account.
//!
//! It is stateless and never persisted: it is recomputed on demand.  The
//! derivation itself is delegated to the execution environment's address
//! derivation; only its determinism and shape are relied on here.

use vstd::prelude::*;
use solana_program::pubkey::Pubkey;
use crate::state::{identity_of, lemma_identity_view_injective, Identity};

verus! {

/// The 32-byte address derived for a protocol identity from the fixed
/// domain-separation seed.
pub uninterp spec fn pda_key_of(program_id: Seq<u8>) -> Seq<u8>;

/// The bump value accompanying the derivation, the signing proof that the
/// delegated-call mechanism accepts in place of a signature.
pub uninterp spec fn pda_bump_of(program_id: Seq<u8>) -> u8;

/// The program-derived authority, as an identity value.
pub open spec fn spec_pda(program_id: Identity) -> Identity {
    identity_of(pda_key_of(program_id@))
}

/// Relies on `solana_program::pubkey::Pubkey::find_program_address` with
/// the fixed seed `b"escrow"`: the derived address and bump value are a
/// function of the program identity alone, and the address is 32 bytes.
#[verifier::external_body]
fn find_escrow_authority(program_id: &Vec<u8>) -> (r: (Vec<u8>, u8))
    requires
        program_id@.len() == 32,
    ensures
        r.0@ == pda_key_of(program_id@),
        r.1 == pda_bump_of(program_id@),
        r.0@.len() == 32,
{
    let id = Pubkey::new_from_array(program_id.as_slice().try_into().unwrap());
    let (pda, bump) = Pubkey::find_program_address(&[b"escrow"], &id);
    (pda.to_bytes().to_vec(), bump)
}

/// Recomputes the program-derived authority and its bump value for the
/// given protocol identity.
pub fn derive_authority(program_id: &Identity) -> (r: (Identity, u8))
    ensures
        r.0 == spec_pda(*program_id),
        r.0@ == pda_key_of(program_id@),
        r.1 == pda_bump_of(program_id@),
{
    let bytes = program_id.to_bytes();
    proof {
        lemma_identity_view_injective(*program_id);
    }
    let (key_bytes, bump) = find_escrow_authority(&bytes);
    let id = Identity::from_slice(key_bytes.as_slice(), 0);
    proof {
        assert(key_bytes@.subrange(0, 32) =~= key_bytes@);
        lemma_identity_view_injective(id);
    }
    (id, bump)
}

} // verus!
