//! The keyless authority of a vault: how it is derived from its owner and how
//! it is presented in place of a signature.

use crate::address::{
    create_program_address, find_program_address, found_at, on_curve, program_address,
    search_ends_once, search_may_fail, seeded_address, with_bump,
};
use crate::identity::{Identity, PROGRAM_ID};
use vstd::prelude::*;

verus! {

/// The authority of a vault: the namespace tag, the owner and the nonce from
/// which the vault's address is re-derived. It is no secret and no key pair.
#[derive(Clone, Debug)]
pub struct DerivedAuthority {
    pub namespace_tag: Vec<u8>,
    pub owner: Identity,
    pub nonce: u8,
}

/// The triple of a derived authority as plain values: the capability that
/// stands in for a signature of the derived address.
pub struct Capability {
    pub namespace_tag: Seq<u8>,
    pub owner: Identity,
    pub nonce: u8,
}

impl Capability {
    /// The seeds presented for the derived address: the tag, the owner's bytes,
    /// and the nonce as one byte.
    pub open spec fn seeds(self) -> Seq<Seq<u8>> {
        with_bump(seq![self.namespace_tag, self.owner@], self.nonce)
    }

    /// The address that the capability stands for, where it stands for one.
    pub open spec fn stands_for(self) -> Option<Seq<u8>> {
        seeded_address(self.seeds(), PROGRAM_ID@)
    }
}

impl View for DerivedAuthority {
    type V = Capability;

    open spec fn view(&self) -> Capability {
        Capability { namespace_tag: self.namespace_tag@, owner: self.owner, nonce: self.nonce }
    }
}

/// What a derivation gives: the derived address and the authority that proves it.
#[derive(Clone, Debug)]
pub struct Derivation {
    pub address: Identity,
    pub authority: DerivedAuthority,
}

/// The address and the nonce that the derivation gives for `owner` under
/// `tag`, where it gives any: the address derived from the tag and the
/// owner's bytes under this program, and the highest nonce that gives one.
pub open spec fn derivation(tag: Seq<u8>, owner: Identity) -> Option<(Seq<u8>, u8)> {
    program_address(seq![tag, owner@], PROGRAM_ID@)
}

/// `derived` is what the derivation gives for `owner` under `tag`.
pub open spec fn derives(tag: Seq<u8>, owner: Identity, derived: Option<Derivation>) -> bool {
    match derived {
        Some(d) => {
            &&& derivation(tag, owner) == Some((d.address@, d.authority.nonce))
            &&& d.authority.namespace_tag@ == tag
            &&& d.authority.owner == owner
        },
        None => derivation(tag, owner) is None,
    }
}

/// The address of a derivation, where there is one.
pub open spec fn address_of(derived: Option<Derivation>) -> Option<Seq<u8>> {
    match derived {
        Some(d) => Some(d.address@),
        None => None,
    }
}

/// An owned copy of `bytes`.
fn bytes_of(bytes: &[u8]) -> (copy: Vec<u8>)
    ensures
        copy@ == bytes@,
{
    let mut copy: Vec<u8> = Vec::new();
    copy.extend_from_slice(bytes);
    copy
}

impl DerivedAuthority {
    /// Derives the address of `owner` under `tag` and the authority over it.
    /// The address is a function of the tag and the owner, and no private key
    /// can exist for it. The nonce is the highest for which the tag and the
    /// owner derive an address at all, and the authority returned stands for
    /// exactly the address returned. Nothing is derived where no nonce gives
    /// an address, as for a tag of more than 32 bytes.
    pub fn derive(tag: &[u8], owner: &Identity) -> (derived: Option<Derivation>)
        ensures
            derives(tag@, *owner, derived),
            derived matches Some(d) ==> found_at(seq![tag@, owner@], PROGRAM_ID@, d.authority.nonce),
            derived matches Some(d) ==> !on_curve(d.address@),
            derived matches Some(d) ==> d.authority@.stands_for() == Some(d.address@),
    {
        let mut seeds: Vec<Vec<u8>> = Vec::new();
        seeds.push(bytes_of(tag));
        seeds.push(owner.to_seed());
        let program = Identity { bytes: PROGRAM_ID };
        assert(seeds.deep_view() =~~= seq![tag@, owner@]);
        match find_program_address(&seeds, &program) {
            Some((address, nonce)) => {
                proof {
                    search_ends_once(seeds.deep_view(), program@, nonce);
                }
                let authority = DerivedAuthority { namespace_tag: bytes_of(tag), owner: *owner, nonce };
                Some(Derivation { address, authority })
            },
            None => {
                proof {
                    search_may_fail(seeds.deep_view(), program@);
                }
                None
            },
        }
    }

    /// The capability for use in authorizing a transfer: the seeds that the
    /// ledger takes in place of a signature of the derived address.
    pub fn prove(&self) -> (seeds: Vec<Vec<u8>>)
        ensures
            seeds.deep_view() == self@.seeds(),
    {
        let mut nonce: Vec<u8> = Vec::new();
        nonce.push(self.nonce);
        let mut seeds: Vec<Vec<u8>> = Vec::new();
        seeds.push(bytes_of(self.namespace_tag.as_slice()));
        seeds.push(self.owner.to_seed());
        seeds.push(nonce);
        assert(seeds.deep_view() =~~= self@.seeds());
        seeds
    }

    /// Re-derives the address from the tag, the owner and the nonce, without
    /// a search. No private key can exist for the address that comes out.
    pub fn address(&self) -> (address: Option<Identity>)
        ensures
            address matches Some(a) ==> self@.stands_for() == Some(a@),
            address is None ==> self@.stands_for() is None,
            address matches Some(a) ==> !on_curve(a@),
    {
        let seeds = self.prove();
        let program = Identity { bytes: PROGRAM_ID };
        create_program_address(&seeds, &program)
    }
}

} // verus!
