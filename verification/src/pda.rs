//! Program-derived addresses: addresses that belong to a program and are
//! found from seeds rather than from a key pair.
use vstd::prelude::*;

verus! {

/// The result of searching for a program-derived address: for the given
/// seeds and program, the first bump seed (counting down from 255) whose
/// derived address lies off the ed25519 curve, with that address; `None`
/// when the seeds are too many or too long or no bump seed works.
pub uninterp spec fn program_address(seeds: Seq<Seq<u8>>, program_id: [u8; 32]) -> Option<([u8; 32], u8)>;

/// `Pubkey::try_find_program_address` of `solana_sdk` (the form of
/// `find_program_address` that reports failure instead of panicking). Its
/// result depends on the seeds and the program alone and is named
/// `program_address`; it finds nothing when there are 16 or more seeds or a
/// seed is longer than 32 bytes. Which address and bump it finds otherwise (a
/// SHA-256 search off the curve) is not stated. Verus takes this contract on
/// trust.
#[verifier::external_body]
pub fn find_program_address(seeds: &Vec<Vec<u8>>, program_id: [u8; 32]) -> (r: Option<([u8; 32], u8)>)
    ensures
        r == program_address(seeds.deep_view(), program_id),
        seeds@.len() >= 16 ==> r is None,
        (exists|i: int| 0 <= i < seeds@.len() && #[trigger] seeds@[i]@.len() > 32) ==> r is None,
{
    let refs: Vec<&[u8]> = seeds.iter().map(|s| s.as_slice()).collect();
    solana_sdk::pubkey::Pubkey::try_find_program_address(&refs, &program_id.into()).map(|(k, bump)| (k.to_bytes(), bump))
}

} // verus!
