//! Account and contract addresses.

use vstd::prelude::*;

verus! {

/// The address of an account or a contract, as the ASCII bytes of its
/// 56-character `strkey` form (`G...` for an account, `C...` for a contract).
///
/// Two addresses are the same exactly when their bytes are.
#[derive(Clone, Copy, Debug)]
pub struct Address {
    /// The bytes of the `strkey` form.
    pub strkey: [u8; 56],
}

impl PartialEq for Address {
    fn eq(&self, other: &Self) -> (same: bool) {
        let mut i: usize = 0;
        while i < 56
            invariant
                i <= 56,
                forall|j: int| 0 <= j < i ==> self.strkey[j] == other.strkey[j],
            decreases 56 - i,
        {
            if self.strkey[i] != other.strkey[i] {
                return false;
            }
            i += 1;
        }
        assert(self.strkey =~= other.strkey);
        true
    }
}

impl vstd::std_specs::cmp::PartialEqSpecImpl for Address {
    open spec fn obeys_eq_spec() -> bool {
        true
    }

    open spec fn eq_spec(&self, other: &Self) -> bool {
        *self == *other
    }
}

impl Eq for Address {

}

} // verus!
