//! The base field of the protocol and the four-element words built from it.
//!
//! Every quantity that enters a commitment — identifiers, amounts, tags,
//! serial numbers — is encoded as elements of the Goldilocks prime field.

use vstd::prelude::*;

verus! {

/// Order of the Goldilocks prime field: `2^64 - 2^32 + 1`.
pub const FIELD_MODULUS: u64 = 0xFFFF_FFFF_0000_0001;

/// A machine word is a valid field element when it lies below the modulus.
pub open spec fn is_felt(v: u64) -> bool {
    v < FIELD_MODULUS
}

/// Reduces an arbitrary machine word into the canonical field range.
pub fn felt_reduce(v: u64) -> (r: u64)
    ensures
        is_felt(r),
        r == v as int % FIELD_MODULUS as int,
{
    v % FIELD_MODULUS
}

/// Four field elements: the protocol's digest, serial-number and
/// transaction-identifier shape.
#[derive(Clone, Copy, PartialEq, Eq, Structural, Debug)]
pub struct Word {
    pub e0: u64,
    pub e1: u64,
    pub e2: u64,
    pub e3: u64,
}

impl Word {
    /// All four elements lie in the field.
    pub open spec fn wf(self) -> bool {
        is_felt(self.e0) && is_felt(self.e1) && is_felt(self.e2) && is_felt(self.e3)
    }

    /// The word as a sequence of its four elements, in order.
    pub open spec fn to_elements(self) -> Seq<u64> {
        seq![self.e0, self.e1, self.e2, self.e3]
    }

    /// The all-zero word, the fixed serial number used where determinism
    /// across runs is wanted.
    pub fn zero() -> (r: Word)
        ensures
            r == (Word { e0: 0, e1: 0, e2: 0, e3: 0 }),
            r.wf(),
    {
        Word { e0: 0, e1: 0, e2: 0, e3: 0 }
    }

    /// Appends the four elements of the word to a vector of field elements.
    pub fn push_elements(&self, out: &mut Vec<u64>)
        ensures
            final(out)@ == old(out)@ + self.to_elements(),
    {
        out.push(self.e0);
        out.push(self.e1);
        out.push(self.e2);
        out.push(self.e3);
        proof {
            assert(out@ =~= old(out)@ + self.to_elements());
        }
    }
}

} // verus!
