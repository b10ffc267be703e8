//! Identifiers of ledger accounts, assets and signers.

use vstd::prelude::*;

verus! {

/// A 32-byte identifier: a token mint, a vault, a pool record or a signer.
///
/// The core only ever copies identifiers and compares them; what they
/// address is the host's business.
#[derive(Clone, Copy, Debug, PartialEq, Eq, Hash)]
pub struct Address {
    pub bytes: [u8; 32],
}

/// Whether a byte sequence is the all-zero identifier.
pub open spec fn is_unassigned_id(id: Seq<u8>) -> bool {
    id == Seq::new(32, |i: int| 0u8)
}

impl View for Address {
    type V = Seq<u8>;

    open spec fn view(&self) -> Seq<u8> {
        self.bytes@
    }
}

impl Address {
    /// The identifier made of the given bytes.
    pub fn new(bytes: [u8; 32]) -> (address: Address)
        ensures
            address.bytes == bytes,
            address@ == bytes@,
    {
        Address { bytes }
    }

    /// The all-zero identifier, which marks a slot that was never assigned.
    pub fn unassigned() -> (address: Address)
        ensures
            address.is_unassigned(),
    {
        let address = Address { bytes: [0u8; 32] };
        assert(address@ =~= Seq::new(32, |i: int| 0u8));
        address
    }

    /// Whether this is the all-zero identifier.
    pub open spec fn is_unassigned(&self) -> bool {
        is_unassigned_id(self@)
    }

    /// Whether two identifiers are the same, byte for byte.
    pub fn same_as(&self, other: &Address) -> (same: bool)
        ensures
            same == (self@ == other@),
            same == (*self == *other),
    {
        let mut i: usize = 0;
        while i < 32
            invariant
                0 <= i <= 32,
                forall|j: int| 0 <= j < i ==> self.bytes@[j] == other.bytes@[j],
            decreases 32 - i,
        {
            if self.bytes[i] != other.bytes[i] {
                assert(self.bytes@[i as int] != other.bytes@[i as int]);
                return false;
            }
            i = i + 1;
        }
        assert(self.bytes@ =~= other.bytes@);
        assert(self.bytes =~= other.bytes);
        true
    }
}

} // verus!
