//! Serial-number sourcing.
//!
//! Private notes stay unlinkable only while their serial numbers are
//! unpredictable, so fresh serial numbers come from the process
//! generator; callers wanting determinism across runs pass a fixed word
//! to the factory instead.

use vstd::prelude::*;
use crate::field::{Word, felt_reduce};

verus! {

/// Relies on rand::random: four independent draws from the thread-local
/// generator.  Nothing is promised of the values.
#[verifier::external_body]
fn random_raw_word() -> (r: [u64; 4]) {
    [rand::random(), rand::random(), rand::random(), rand::random()]
}

/// Draws a fresh serial number: four random machine words, each reduced
/// into the field.  Whatever the generator returned, the result is a
/// well-formed word.
pub fn draw_serial() -> (r: Word)
    ensures
        r.wf(),
{
    let raw = random_raw_word();
    Word {
        e0: felt_reduce(raw[0]),
        e1: felt_reduce(raw[1]),
        e2: felt_reduce(raw[2]),
        e3: felt_reduce(raw[3]),
    }
}

} // verus!
