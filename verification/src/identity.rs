//! Identities of the principals and records that take part in a campaign.

use vstd::prelude::*;
use vstd::std_specs::cmp::PartialEqSpecImpl;

verus! {

/// A 32-byte identity of a principal (creator, donor) or of a stored record.
#[derive(Clone, Copy, Debug, Eq)]
pub struct Identity {
    pub bytes: [u8; 32],
}

impl PartialEq for Identity {
    fn eq(&self, other: &Identity) -> (equal: bool) {
        let mut i: usize = 0;
        while i < 32
            invariant
                i <= 32,
                forall|j: int| 0 <= j < i ==> self.bytes[j] == other.bytes[j],
            decreases 32 - i,
        {
            if self.bytes[i] != other.bytes[i] {
                return false;
            }
            i += 1;
        }
        proof {
            assert(self.bytes =~= other.bytes);
        }
        true
    }
}

impl PartialEqSpecImpl for Identity {
    open spec fn obeys_eq_spec() -> bool {
        true
    }

    open spec fn eq_spec(&self, other: &Identity) -> bool {
        self.bytes == other.bytes
    }
}

impl Default for Identity {
    /// The identity of all zero bytes, which a record holds before it is bound.
    fn default() -> (id: Identity)
        ensures
            id.is_zero(),
    {
        Identity { bytes: [0u8; 32] }
    }
}

impl View for Identity {
    type V = Seq<u8>;

    /// An identity is its thirty-two bytes.
    open spec fn view(&self) -> Seq<u8> {
        self.bytes@
    }
}

impl Identity {
    /// Whether every byte of the identity is zero.
    pub open spec fn is_zero(&self) -> bool {
        forall|i: int| 0 <= i < 32 ==> self.bytes[i] == 0
    }

    /// The identity made of the given bytes.
    pub fn new(bytes: [u8; 32]) -> (id: Identity)
        ensures
            id.bytes == bytes,
    {
        Identity { bytes }
    }

    /// Whether two identities name the same principal or record.
    pub fn same(&self, other: &Identity) -> (same: bool)
        ensures
            same == (*self == *other),
    {
        *self == *other
    }
}

} // verus!
