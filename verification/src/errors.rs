//! Error taxonomy of the protocol layer.
//!
//! Construction and submission errors are fatal to the call that raised
//! them; polling errors distinguish ledger facts (a discarded transaction)
//! from local policy expiry (a timeout), which is safe to retry.

use vstd::prelude::*;

verus! {

/// A note could not be built from the given inputs.  Always fatal to the
/// current note-building call; never retried.
#[derive(Clone, Copy, PartialEq, Eq, Structural, Debug)]
pub enum NoteConstructionError {
    /// The asset list of a note must not be empty.
    EmptyVault,
    /// Two assets in one vault name the same issuing faucet.
    DuplicateFaucet,
    /// An asset amount is zero or exceeds the largest encodable amount.
    InvalidAmount,
    /// A value that must be a field element is not one.
    InvalidFieldElement,
    /// A recipient digest handed to the issuance builder is not made of
    /// field elements.
    MalformedDigest,
}

/// A transaction request could not be assembled.
#[derive(Clone, Copy, PartialEq, Eq, Structural, Debug)]
pub enum TransactionRequestError {
    /// A request must name at least one output note, input note or script.
    EmptyRequest,
}

/// Submission of an assembled request was rejected.  Fatal to that attempt;
/// the caller may re-submit a fresh request, but the layer never retries.
#[derive(Clone, Copy, PartialEq, Eq, Structural, Debug)]
pub enum SubmissionError {
    /// The ledger collaborator rejected the request; the code it supplied is
    /// carried through unchanged.
    Rejected { code: u64 },
}

/// Waiting for a transaction to commit ended without a commitment.
#[derive(Clone, Copy, PartialEq, Eq, Structural, Debug)]
pub enum ConfirmationError {
    /// The ledger does not know the transaction at all — distinct from a
    /// pending transaction; the caller decides whether to retry.
    TransactionNotFound,
    /// The ledger discarded the transaction; the cause code is surfaced
    /// verbatim.  Terminal: never retried.
    Discarded { cause: u64 },
    /// The local wait budget ran out.  Not a ledger fact; the true status is
    /// unresolved and may be polled again later.
    Timeout,
}

/// Crediting a vault failed.
#[derive(Clone, Copy, PartialEq, Eq, Structural, Debug)]
pub enum VaultError {
    /// The credited balance would exceed the largest encodable amount.
    AmountOverflow,
}

} // verus!
