//! Identities: the 32-byte public identifiers of owners, vaults and asset types.

use crate::address::{is_on_curve, on_curve};
use vstd::prelude::*;

verus! {

/// A public identifier of 32 bytes. An owner's identity is a key that its holder
/// can sign for; a vault's identity is derived and has no private key.
#[derive(Clone, Copy, Debug)]
pub struct Identity {
    pub bytes: [u8; 32],
}

impl View for Identity {
    type V = Seq<u8>;

    open spec fn view(&self) -> Seq<u8> {
        self.bytes@
    }
}

impl Identity {
    /// An identity is its bytes: two identities with the same bytes are the same.
    pub proof fn same_bytes_same_identity(self, other: Identity)
        ensures
            self@.len() == 32,
            (self@ == other@) <==> (self == other),
    {
        if self@ == other@ {
            assert(self.bytes =~= other.bytes);
        }
    }

    /// Whether a private key can exist for this identity: whether its bytes
    /// are a point of the signing curve. A derived address never is.
    pub fn is_key(&self) -> (r: bool)
        ensures
            r == on_curve(self@),
    {
        is_on_curve(self)
    }

    /// The identity's bytes as an owned seed for an address derivation.
    pub fn to_seed(&self) -> (seed: Vec<u8>)
        ensures
            seed@ == self@,
    {
        let mut seed: Vec<u8> = Vec::new();
        let mut i: usize = 0;
        while i < 32
            invariant
                i <= 32,
                seed@ == self@.subrange(0, i as int),
            decreases 32 - i,
        {
            seed.push(self.bytes[i]);
            i = i + 1;
        }
        seed
    }
}

impl PartialEq for Identity {
    fn eq(&self, other: &Identity) -> (r: bool) {
        let mut i: usize = 0;
        while i < 32
            invariant
                i <= 32,
                forall|j: int| 0 <= j < i ==> self.bytes[j] == other.bytes[j],
            decreases 32 - i,
        {
            if self.bytes[i] != other.bytes[i] {
                return false;
            }
            i = i + 1;
        }
        proof {
            assert(self.bytes =~= other.bytes);
        }
        true
    }
}

impl Eq for Identity {}

impl vstd::std_specs::cmp::PartialEqSpecImpl for Identity {
    open spec fn obeys_eq_spec() -> bool {
        true
    }

    open spec fn eq_spec(&self, other: &Identity) -> bool {
        *self == *other
    }
}

/// The bytes of the identity under which this vault program is registered:
/// every vault address is derived under it.
pub const PROGRAM_ID: [u8; 32] = [
    174, 102, 99, 206, 121, 7, 129, 249, 41, 212, 2, 47, 92, 53, 26, 186,
    42, 46, 68, 140, 121, 128, 218, 30, 6, 234, 32, 104, 239, 231, 87, 5,
];

} // verus!
