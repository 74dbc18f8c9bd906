use vstd::prelude::*;

verus! {

/// The length of a strkey, the text form of an account or contract address.
pub const STRKEY_LEN: usize = 56;

/// The address of an account or a contract, as its strkey.
///
/// A strkey is the canonical text form of an address, so two addresses are
/// the same exactly when their strkeys are.
#[derive(Clone, Copy, Debug)]
pub struct Address {
    pub strkey: [u8; 56],
}

impl PartialEq for Address {
    fn eq(&self, other: &Self) -> (same: bool) {
        let mut i: usize = 0;
        while i < STRKEY_LEN
            invariant
                i <= STRKEY_LEN,
                forall|j: int| 0 <= j < i ==> self.strkey[j] == other.strkey[j],
            decreases STRKEY_LEN - i,
        {
            if self.strkey[i] != other.strkey[i] {
                return false;
            }
            i += 1;
        }
        assert(self.strkey =~= other.strkey);
        true
    }
}

impl vstd::std_specs::cmp::PartialEqSpecImpl for Address {
    open spec fn obeys_eq_spec() -> bool {
        true
    }

    open spec fn eq_spec(&self, other: &Self) -> bool {
        *self == *other
    }
}

impl Eq for Address {

}

} // verus!
