use vstd::prelude::*;
use vstd::std_specs::cmp::PartialEqSpecImpl;

verus! {

/// A 32-byte identity: of a caller, an asset or a recipient. Two identities are the same when all
/// their bytes are.
#[derive(Clone, Copy, Debug, Eq)]
pub struct Pubkey {
    pub bytes: [u8; 32],
}

impl PartialEq for Pubkey {
    /// Compares byte by byte.
    fn eq(&self, other: &Pubkey) -> (r: bool) {
        let mut i: usize = 0;
        while i < 32
            invariant
                i <= 32,
                forall|j: int| 0 <= j < i ==> self.bytes[j] == other.bytes[j],
            decreases 32 - i,
        {
            if self.bytes[i] != other.bytes[i] {
                return false;
            }
            i += 1;
        }
        assert(self.bytes =~= other.bytes);
        assert(*self == *other);
        true
    }
}

impl PartialEqSpecImpl for Pubkey {
    open spec fn obeys_eq_spec() -> bool {
        true
    }

    open spec fn eq_spec(&self, other: &Pubkey) -> bool {
        *self == *other
    }
}

} // verus!
