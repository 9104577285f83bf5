//! Identities of the parties to a job.
//!
//! The hosting platform addresses parties by 32-byte public keys; the core
//! never inspects a key beyond comparing it for equality, so an identity is
//! just its 32 raw bytes.

use vstd::prelude::*;

verus! {

broadcast use vstd::array::group_array_axioms;

/// A party to a job: the buyer, the operator, an administrator, the
/// operations authority or the treasury destination, named by the 32 bytes of
/// its platform-level public key.
#[derive(Clone, Copy, Debug, Eq)]
pub struct Identity {
    /// The raw bytes of the platform-level public key.
    pub bytes: [u8; 32],
}

impl PartialEq for Identity {
    fn eq(&self, other: &Identity) -> (r: bool) {
        let mut i: usize = 0;
        while i < 32
            invariant
                i <= 32,
                forall|j: int| 0 <= j < i ==> self.bytes@[j] == other.bytes@[j],
            decreases 32 - i,
        {
            if self.bytes[i] != other.bytes[i] {
                return false;
            }
            i = i + 1;
        }
        proof {
            assert(self.bytes =~= other.bytes);
            assert(*self == *other);
        }
        true
    }
}

impl vstd::std_specs::cmp::PartialEqSpecImpl for Identity {
    open spec fn obeys_eq_spec() -> bool {
        true
    }

    open spec fn eq_spec(&self, other: &Identity) -> bool {
        *self == *other
    }
}

} // verus!
