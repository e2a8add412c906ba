use vstd::prelude::*;

verus! {

/// A 32-byte identity: the authority over a mint or the owner of an account.
///
/// The ledger never checks how an identity was proved. Whoever calls an
/// operation has authenticated the identity it passes.
#[derive(Clone, Copy, Debug, Eq, Hash)]
pub struct Identity {
    pub bytes: [u8; 32],
}

impl PartialEq for Identity {
    /// Compares byte by byte and stops at the first difference.
    fn eq(&self, other: &Identity) -> (r: bool) {
        let mut i: usize = 0;
        while i < 32
            invariant
                i <= 32,
                forall|k: int| 0 <= k < i ==> self.bytes[k] == other.bytes[k],
            decreases 32 - i,
        {
            if self.bytes[i] != other.bytes[i] {
                return false;
            }
            i += 1;
        }
        // Arrays that agree at every index are the same array.
        assert(self.bytes =~= other.bytes);
        true
    }
}

impl vstd::std_specs::cmp::PartialEqSpecImpl for Identity {
    open spec fn obeys_eq_spec() -> bool {
        true
    }

    /// `==` on identities is equality of the 32 bytes.
    open spec fn eq_spec(&self, other: &Identity) -> bool {
        *self == *other
    }
}

} // verus!
