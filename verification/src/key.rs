//! Identities and record addresses.

use vstd::prelude::*;

verus! {

/// A 32-byte identity or record address.
#[derive(Clone, Copy, Debug, PartialEq, Eq, Hash)]
pub struct Key {
    pub bytes: [u8; 32],
}

impl View for Key {
    type V = Seq<u8>;

    open spec fn view(&self) -> Seq<u8> {
        self.bytes@
    }
}

impl Key {
    /// The key made of the given bytes.
    pub fn new(bytes: [u8; 32]) -> (key: Key)
        ensures
            key.bytes == bytes,
    {
        Key { bytes }
    }

    /// Whether two keys are the same identity.
    pub fn same(&self, other: &Key) -> (equal: bool)
        ensures
            equal == (*self == *other),
            equal == (self@ == other@),
    {
        let mut i: usize = 0;
        while i < 32
            invariant
                i <= 32,
                forall|j: int| 0 <= j < i ==> self.bytes[j] == other.bytes[j],
            decreases 32 - i,
        {
            if self.bytes[i] != other.bytes[i] {
                return false;
            }
            i += 1;
        }
        assert(self.bytes@ =~= other.bytes@);
        assert(self.bytes =~= other.bytes);
        true
    }
}

} // verus!
