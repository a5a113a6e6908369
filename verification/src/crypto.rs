//! The protocol hash.
//!
//! Every commitment of this layer is a Rescue Prime Optimized digest over a
//! sequence of field elements.  The digest itself is named, not modelled:
//! nothing here restates the permutation, and every property of the layer
//! is proved over the name.

use vstd::prelude::*;
use crate::field::{Word, is_felt};

verus! {

/// The RPO digest of a sequence of canonical field elements.
pub uninterp spec fn rpo_hash_of(elements: Seq<u64>) -> Seq<u64>;

/// Every element of the sequence is a canonical field element.
pub open spec fn all_felts(elements: Seq<u64>) -> bool {
    forall|i: int| 0 <= i < elements.len() ==> is_felt(#[trigger] elements[i])
}

/// Relies on miden_crypto::hash::rpo::Rpo256::hash_elements: the digest is
/// a function of the input field elements alone, and its four limbs are
/// canonical field elements.
#[verifier::external_body]
pub fn rpo_hash(elements: &Vec<u64>) -> (r: Word)
    requires
        all_felts(elements@),
    ensures
        r.to_elements() == rpo_hash_of(elements@),
        r.wf(),
{
    let felts: Vec<miden_crypto::Felt> =
        elements.iter().map(|v| miden_crypto::Felt::new_unchecked(*v)).collect();
    let limbs: [u64; 4] = miden_crypto::hash::rpo::Rpo256::hash_elements(&felts).into();
    Word { e0: limbs[0], e1: limbs[1], e2: limbs[2], e3: limbs[3] }
}

} // verus!
