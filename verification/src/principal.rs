use vstd::prelude::*;

verus! {

/// What kind of ledger identity a principal is.
#[derive(Clone, Copy, Debug, PartialEq, Eq, Structural, Hash)]
pub enum PrincipalKind {
    /// An account, controlled by a key pair.
    Account,
    /// A contract, identified by the hash it was deployed under.
    Contract,
}

/// An identity that can hold balances and give authorization proofs.
#[derive(Clone, Copy, Debug, PartialEq, Eq, Hash)]
pub struct Principal {
    pub kind: PrincipalKind,
    pub key: [u8; 32],
}

impl Principal {
    /// Whether two principals are the same identity: same kind, same key bytes.
    pub fn same(&self, other: &Principal) -> (r: bool)
        ensures
            r == (*self == *other),
    {
        if self.kind != other.kind {
            return false;
        }
        let mut i: usize = 0;
        while i < 32
            invariant
                i <= 32,
                forall|j: int| 0 <= j < i ==> self.key@[j] == other.key@[j],
            decreases 32 - i,
        {
            if self.key[i] != other.key[i] {
                return false;
            }
            i += 1;
        }
        proof {
            assert(self.key =~= other.key);
        }
        true
    }
}

} // verus!
