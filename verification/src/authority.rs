//! The program authority: a keyless identity derived deterministically from
//! a fixed domain-separation seed plus the hosting program's identity. No
//! private key exists for it; the derivation plus a bump discriminator is
//! recomputed and checked in place of a signature, which is what lets the
//! program itself — and nothing else — authorize custody transfers.
//!
//! Exactly one program authority exists per deployed program identity and
//! is shared by all open escrows.

use vstd::prelude::*;

verus! {

/// What the substrate's address derivation returns for a seed and a 32-byte
/// program identity: a derived 32-byte identity and its bump discriminator,
/// or nothing in the statistically improbable event that no bump yields a
/// valid address. The result depends on the two inputs alone.
pub uninterp spec fn derived_authority(seed: Seq<u8>, program_id: Seq<u8>) -> Option<(Seq<u8>, u8)>;

/// The fixed domain-separation seed under which every escrow authority is
/// derived: the bytes of the ASCII string "escrow".
pub open spec fn escrow_authority_seed() -> Seq<u8> {
    seq![101u8, 115u8, 99u8, 114u8, 111u8, 119u8]
}

/// The domain-separation seed as a byte vector.
pub fn authority_seed() -> (r: Vec<u8>)
    ensures
        r@ == escrow_authority_seed(),
{
    let mut s: Vec<u8> = Vec::new();
    s.push(101u8);
    s.push(115u8);
    s.push(99u8);
    s.push(114u8);
    s.push(111u8);
    s.push(119u8);
    proof {
        assert(s@ =~= escrow_authority_seed());
    }
    s
}

/// Relies on `Pubkey::try_find_program_address` (solana-pubkey, re-exported
/// by anchor-lang): for given seeds and program identity it returns the
/// derived program address and bump discriminator, a pure function of the
/// two inputs, or `None` when no bump yields a valid address.
#[verifier::external_body]
fn find_authority(seed: &Vec<u8>, program_id: &Vec<u8>) -> (r: Option<(Vec<u8>, u8)>)
    requires
        program_id@.len() == 32,
    ensures
        (match r {
            Some(p) => derived_authority(seed@, program_id@) == Some((p.0@, p.1))
                && p.0@.len() == 32,
            None => derived_authority(seed@, program_id@) is None,
        }),
{
    let mut id_bytes = [0u8; 32];
    id_bytes.copy_from_slice(program_id.as_slice());
    let pk = anchor_lang::solana_program::pubkey::Pubkey::new_from_array(id_bytes);
    match anchor_lang::solana_program::pubkey::Pubkey::try_find_program_address(
        &[seed.as_slice()],
        &pk,
    ) {
        Some((addr, bump)) => Some((addr.to_bytes().to_vec(), bump)),
        None => None,
    }
}

/// Derive the escrow program authority for a 32-byte program identity:
/// the identity custody accounts are handed to, and the bump that lets the
/// program prove the derivation when it authorizes a transfer out of
/// custody. Returns `None` for an identity that is not 32 bytes, or when
/// the derivation finds no valid address.
pub fn derive_escrow_authority(program_id: &Vec<u8>) -> (r: Option<(Vec<u8>, u8)>)
    ensures
        (match r {
            Some(p) => program_id@.len() == 32
                && derived_authority(escrow_authority_seed(), program_id@) == Some((p.0@, p.1))
                && p.0@.len() == 32,
            None => program_id@.len() != 32
                || derived_authority(escrow_authority_seed(), program_id@) is None,
        }),
{
    if program_id.len() != 32 {
        return None;
    }
    let seed = authority_seed();
    find_authority(&seed, program_id)
}

/// Byte-for-byte equality of two byte vectors.
fn bytes_eq(a: &Vec<u8>, b: &Vec<u8>) -> (r: bool)
    ensures
        r <==> a@ == b@,
{
    if a.len() != b.len() {
        return false;
    }
    let mut i: usize = 0;
    while i < a.len()
        invariant
            i <= a@.len(),
            a@.len() == b@.len(),
            forall|j: int| 0 <= j < i ==> a@[j] == b@[j],
        decreases a@.len() - i,
    {
        if a[i] != b[i] {
            return false;
        }
        i = i + 1;
    }
    proof {
        assert(a@ =~= b@);
    }
    true
}

/// The derivation-proof check: accept a claimed (identity, bump) pair
/// exactly when recomputing the derivation for this program identity
/// reproduces it. This is what stands in place of signature verification
/// for the program authority.
pub fn authorize(program_id: &Vec<u8>, identity: &Vec<u8>, bump: u8) -> (r: bool)
    ensures
        r <==> (program_id@.len() == 32
            && derived_authority(escrow_authority_seed(), program_id@)
                == Some((identity@, bump))),
{
    match derive_escrow_authority(program_id) {
        Some((derived, derived_bump)) => derived_bump == bump && bytes_eq(&derived, identity),
        None => false,
    }
}

} // verus!
