use vstd::prelude::*;

use crate::pubkey::Pubkey;

verus! {

/// What the bump-seed search returns for a seed list under a program
/// identity: the first address, walking the disambiguation byte downward
/// from 255, whose derivation succeeds, together with that byte; or nothing
/// in the statistically improbable event that no byte works. The search is
/// a pure function of the seed list and the program identity.
pub uninterp spec fn pda_of(seeds: Seq<Seq<u8>>, program_id: Seq<u8>) -> Option<(Seq<u8>, u8)>;

/// What single-shot address derivation returns for a seed list under a
/// program identity: the derived 32-byte address, or nothing when the seed
/// list is malformed or the derived point is unusable. A pure function of
/// the seed list and the program identity.
pub uninterp spec fn ca_of(seeds: Seq<Seq<u8>>, program_id: Seq<u8>) -> Option<Seq<u8>>;

/// Relies on `solana_program::pubkey::Pubkey::try_find_program_address`:
/// it deterministically derives an address and bump from the seeds and the
/// program identity, and its result, when found, is exactly what
/// `create_program_address` yields once the bump is appended as a one-byte
/// seed (the crate documents this pairing and its example asserts it).
/// The found bump is canonical: the search walks the byte downward from
/// 255 and returns the first — hence the greatest — one that derives, so
/// every greater byte failed to derive.
#[verifier::external_body]
pub(crate) fn solana_try_find_program_address(
    seeds: &Vec<Vec<u8>>,
    program_id: &Pubkey,
) -> (r: Option<(Pubkey, u8)>)
    requires
        program_id.wf(),
    ensures
        ({
            let d = pda_of(seeds.deep_view(), program_id@);
            match r {
                Some(found) => {
                    &&& d == Some((found.0@, found.1))
                    &&& found.0.wf()
                    &&& ca_of(seeds.deep_view().push(seq![found.1]), program_id@) == Some(
                        found.0@,
                    )
                    &&& forall|b: u8|
                        b > found.1 ==> ca_of(
                            seeds.deep_view().push(seq![b]),
                            program_id@,
                        ) is None
                },
                None => d is None,
            }
        }),
{
    let pid = solana_program::pubkey::Pubkey::try_from(program_id.to_vec().as_slice()).unwrap();
    let seed_slices: Vec<&[u8]> = seeds.iter().map(|s| s.as_slice()).collect();
    let (address, bump) =
        solana_program::pubkey::Pubkey::try_find_program_address(&seed_slices, &pid)?;
    Some((Pubkey::from_array(address.to_bytes()), bump))
}

/// Relies on `solana_program::pubkey::Pubkey::create_program_address`: it
/// deterministically derives an address from the seeds and the program
/// identity, or reports that these seeds derive no usable address.
#[verifier::external_body]
pub(crate) fn solana_create_program_address(
    seeds: &Vec<Vec<u8>>,
    program_id: &Pubkey,
) -> (r: Option<Pubkey>)
    requires
        program_id.wf(),
    ensures
        ({
            let d = ca_of(seeds.deep_view(), program_id@);
            match r {
                Some(address) => d == Some(address@) && address.wf(),
                None => d is None,
            }
        }),
{
    let pid = solana_program::pubkey::Pubkey::try_from(program_id.to_vec().as_slice()).unwrap();
    let seed_slices: Vec<&[u8]> = seeds.iter().map(|s| s.as_slice()).collect();
    match solana_program::pubkey::Pubkey::create_program_address(&seed_slices, &pid) {
        Ok(address) => Some(Pubkey::from_array(address.to_bytes())),
        Err(_) => None,
    }
}

} // verus!
