//! The identity of a caller: a twenty-byte account address.

use vstd::prelude::*;

verus! {

/// An account address, as the execution host reports it for a caller.
///
/// Two identities are equal exactly when their twenty bytes are.
#[derive(Clone, Copy, Debug, PartialEq, Eq, Hash)]
pub struct Identity {
    pub bytes: [u8; 20],
}

impl Identity {
    /// Whether every byte of the address is zero.
    pub open spec fn is_zero(self) -> bool {
        forall|i: int| 0 <= i < 20 ==> self.bytes[i] == 0u8
    }

    /// The address made of the given bytes.
    pub fn new(bytes: [u8; 20]) -> (id: Identity)
        ensures
            id.bytes == bytes,
    {
        Identity { bytes }
    }

    /// The all-zero address, which owns a registry that was never initialised.
    pub fn zero() -> (id: Identity)
        ensures
            id.is_zero(),
    {
        Identity { bytes: [0u8; 20] }
    }

    /// Whether the two addresses are the same, byte for byte.
    pub fn same_as(&self, other: &Identity) -> (same: bool)
        ensures
            same == (*self == *other),
    {
        let mut i: usize = 0;
        while i < 20
            invariant
                i <= 20,
                forall|j: int| 0 <= j < i ==> self.bytes[j] == other.bytes[j],
            decreases 20 - i,
        {
            if self.bytes[i] != other.bytes[i] {
                return false;
            }
            i += 1;
        }
        assert(self.bytes =~= other.bytes);
        true
    }
}

} // verus!
