//! Public identities of peers.

use vstd::prelude::*;
use vstd::std_specs::cmp::PartialEqSpecImpl;

verus! {

/// The public key by which a peer is known: 32 raw bytes. Two keys are the
/// same identity exactly when all their bytes agree.
#[derive(Clone, Copy, Debug, Eq, Hash)]
pub struct PublicKey(pub [u8; 32]);

impl PartialEq for PublicKey {
    /// Compares every byte, whatever the first difference.
    fn eq(&self, other: &Self) -> (equal: bool) {
        let mut equal = true;
        let mut index: usize = 0;
        while index < 32
            invariant
                index <= 32,
                equal <==> (forall|i: int| 0 <= i < index ==> self.0@[i] == other.0@[i]),
            decreases 32 - index,
        {
            if self.0[index] != other.0[index] {
                equal = false;
            }
            index += 1;
        }
        proof {
            if equal {
                assert(self.0 =~= other.0);
            }
        }
        equal
    }
}

impl PartialEqSpecImpl for PublicKey {
    open spec fn obeys_eq_spec() -> bool {
        true
    }

    open spec fn eq_spec(&self, other: &Self) -> bool {
        *self == *other
    }
}

} // verus!
