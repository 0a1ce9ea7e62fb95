//! Program-derived addresses, as the runtime's address library computes them.
//!
//! The three functions at the end of this file call the address library, and
//! their contracts are taken from its source, not proved. The rest states the
//! search for a derived address over what one derivation gives.

use crate::identity::Identity;
use anchor_lang::prelude::Pubkey;
use vstd::prelude::*;

verus! {

/// What `Pubkey::create_program_address` returns for `seeds` under `program`,
/// with nothing in place of its error.
pub uninterp spec fn seeded_address(seeds: Seq<Seq<u8>>, program: Seq<u8>) -> Option<Seq<u8>>;

/// What `Pubkey::is_on_curve` returns for the key of these bytes: whether they
/// are a point of the signing curve, that is a key that a private key can
/// exist for.
pub uninterp spec fn on_curve(bytes: Seq<u8>) -> bool;

/// The seeds followed by the bump seed as a seed of one byte.
pub open spec fn with_bump(seeds: Seq<Seq<u8>>, bump: u8) -> Seq<Seq<u8>> {
    seeds.push(seq![bump])
}

/// The search for a derived address ends at `bump`: the seeds followed by it
/// give an address, and followed by any higher bump seed they give none. The
/// bump seed zero is never tried.
pub open spec fn found_at(seeds: Seq<Seq<u8>>, program: Seq<u8>, bump: u8) -> bool {
    &&& 1 <= bump
    &&& seeded_address(with_bump(seeds, bump), program) is Some
    &&& forall|higher: u8|
        bump < higher ==> seeded_address(#[trigger] with_bump(seeds, higher), program) is None
}

/// The derived address of `seeds` under `program` and the bump seed that
/// gives it: the search tries the bump seeds from 255 down to 1 and ends at
/// the first that gives an address. There is none where no bump seed gives one.
pub open spec fn program_address(seeds: Seq<Seq<u8>>, program: Seq<u8>) -> Option<(Seq<u8>, u8)> {
    if exists|bump: u8| found_at(seeds, program, bump) {
        let bump = choose|bump: u8| found_at(seeds, program, bump);
        Some((seeded_address(with_bump(seeds, bump), program)->0, bump))
    } else {
        None
    }
}

/// The search ends at one bump seed at most, so where it ends the derived
/// address is the one found there.
pub proof fn search_ends_once(seeds: Seq<Seq<u8>>, program: Seq<u8>, bump: u8)
    requires
        found_at(seeds, program, bump),
    ensures
        program_address(seeds, program) == Some(
            (seeded_address(with_bump(seeds, bump), program)->0, bump),
        ),
{
    let chosen = choose|bump: u8| found_at(seeds, program, bump);
    if chosen < bump {
        assert(seeded_address(with_bump(seeds, bump), program) is None);
    } else if bump < chosen {
        assert(seeded_address(with_bump(seeds, chosen), program) is None);
    }
}

/// Where no bump seed from 1 to 255 gives an address, there is no derived
/// address.
pub proof fn search_may_fail(seeds: Seq<Seq<u8>>, program: Seq<u8>)
    requires
        forall|bump: u8|
            1 <= bump ==> seeded_address(#[trigger] with_bump(seeds, bump), program) is None,
    ensures
        program_address(seeds, program) is None,
{
}

/// Calls `Pubkey::try_find_program_address`. It tries the bump seeds from 255
/// down to 1, each with `Pubkey::create_program_address` on the seeds followed
/// by the bump seed as a seed of one byte, and returns the first address that
/// comes out with its bump seed, or nothing when none does. That function
/// gives no address on the curve.
#[verifier::external_body]
pub(crate) fn find_program_address(seeds: &Vec<Vec<u8>>, program: &Identity) -> (found: Option<
    (Identity, u8),
>)
    ensures
        found matches Some((address, bump)) ==> found_at(seeds.deep_view(), program@, bump)
            && seeded_address(with_bump(seeds.deep_view(), bump), program@) == Some(address@),
        found is None ==> forall|bump: u8|
            1 <= bump ==> seeded_address(
                #[trigger] with_bump(seeds.deep_view(), bump),
                program@,
            ) is None,
        found matches Some((address, _)) ==> !on_curve(address@),
{
    let parts: Vec<&[u8]> = seeds.iter().map(|seed| seed.as_slice()).collect();
    let program = Pubkey::new_from_array(program.bytes);
    Pubkey::try_find_program_address(&parts, &program).map(
        |(address, bump)| (Identity { bytes: address.to_bytes() }, bump),
    )
}

/// Calls `Pubkey::create_program_address`, which hashes the seeds and the
/// program and fails where a seed is too long, the seeds are too many, or the
/// hash is on the curve: so the address it gives is never on the curve.
#[verifier::external_body]
pub(crate) fn create_program_address(seeds: &Vec<Vec<u8>>, program: &Identity) -> (created: Option<
    Identity,
>)
    ensures
        created matches Some(address) ==> seeded_address(seeds.deep_view(), program@) == Some(
            address@,
        ),
        created is None ==> seeded_address(seeds.deep_view(), program@) is None,
        created matches Some(address) ==> !on_curve(address@),
{
    let parts: Vec<&[u8]> = seeds.iter().map(|seed| seed.as_slice()).collect();
    let program = Pubkey::new_from_array(program.bytes);
    Pubkey::create_program_address(&parts, &program).ok().map(
        |address| Identity { bytes: address.to_bytes() },
    )
}

/// Calls `Pubkey::is_on_curve` on the key of these bytes.
#[verifier::external_body]
pub(crate) fn is_on_curve(identity: &Identity) -> (r: bool)
    ensures
        r == on_curve(identity@),
{
    Pubkey::new_from_array(identity.bytes).is_on_curve()
}

} // verus!
