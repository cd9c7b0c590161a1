use vstd::prelude::*;

verus! {

/// A 32-byte account address, as the program compares and stores it.
#[derive(Clone, Copy, Debug)]
pub struct Key {
    pub bytes: [u8; 32],
}

impl View for Key {
    type V = Seq<u8>;

    open spec fn view(&self) -> Seq<u8> {
        self.bytes@
    }
}

/// The all-zero address, which the program writes where no account is meant yet.
pub open spec fn is_zero_key(k: Key) -> bool {
    forall|i: int| 0 <= i < 32 ==> k.bytes@[i] == 0
}

impl Key {
    /// The all-zero address.
    pub fn zero() -> (k: Key)
        ensures
            is_zero_key(k),
    {
        Key { bytes: [0u8; 32] }
    }

    /// Whether two addresses are the same.
    pub fn same(&self, other: &Key) -> (r: bool)
        ensures
            r == (*self == *other),
    {
        let mut i: usize = 0;
        while i < 32
            invariant
                0 <= i <= 32,
                forall|j: int| 0 <= j < i ==> self.bytes@[j] == other.bytes@[j],
            decreases 32 - i,
        {
            if self.bytes[i] != other.bytes[i] {
                return false;
            }
            i = i + 1;
        }
        proof {
            assert(self.bytes =~= other.bytes);
        }
        true
    }
}

} // verus!
