//! Account identifiers and the routing tags derived from them.

use vstd::prelude::*;
use crate::field::is_felt;

verus! {

/// Identifier of a ledger account: a prefix and a suffix field element.
///
/// The protocol decomposes an identifier into these two elements wherever it
/// is written into note inputs; the pair is fixed at account creation and
/// treated as opaque here.
#[derive(Clone, Copy, PartialEq, Eq, Structural, Debug)]
pub struct AccountId {
    pub prefix: u64,
    pub suffix: u64,
}

impl AccountId {
    /// Both halves lie in the field.
    pub open spec fn wf(self) -> bool {
        is_felt(self.prefix) && is_felt(self.suffix)
    }
}

/// The owner identifier as a faucet component stores it in its storage
/// slot: element three holds the prefix, element two the suffix.  This is
/// a versioned layout contract of the faucet component, supplied by the
/// account collaborator — not a protocol rule of this layer.
pub fn owner_id_from_storage_word(w: &crate::field::Word) -> (r: AccountId)
    ensures
        r == (AccountId { prefix: w.e3, suffix: w.e2 }),
        w.wf() ==> r.wf(),
{
    AccountId { prefix: w.e3, suffix: w.e2 }
}

/// The routing tag of a note addressed to `target`: the 32 most significant
/// bits of the target's prefix element.  The derivation is deterministic, so
/// any two notes addressed to the same account carry the same tag.
pub open spec fn tag_for_spec(target: AccountId) -> u32 {
    (target.prefix >> 32) as u32
}

/// Derives the routing tag for a note addressed to `target`.
pub fn tag_for(target: AccountId) -> (r: u32)
    ensures
        r == tag_for_spec(target),
{
    let shifted: u64 = target.prefix >> 32;
    proof {
        let p = target.prefix;
        assert(p >> 32 < 0x1_0000_0000u64) by (bit_vector);
    }
    shifted as u32
}

} // verus!
