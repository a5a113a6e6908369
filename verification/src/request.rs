//! Transaction requests and the submission boundary.
//!
//! A request batches the intended ledger effects: notes to create, notes
//! to consume, an optional custom script.  Submission itself is a network
//! call performed by the surrounding process; this layer assembles and
//! validates the request before the call and interprets the answer after
//! it, and never retries a rejection.

use vstd::prelude::*;
use crate::errors::{SubmissionError, TransactionRequestError};
use crate::field::Word;
use crate::note::Note;

verus! {

/// Opaque reference to a transaction script, by its root digest.
#[derive(Clone, Copy, PartialEq, Eq, Structural, Debug)]
pub struct TransactionScriptRef {
    pub root: Word,
}

/// Opaque handle of a submitted transaction: fixed width, assigned by the
/// ledger at submission, stable across polls.
#[derive(Clone, Copy, PartialEq, Eq, Structural, Debug)]
pub struct TransactionId {
    pub word: Word,
}

impl TransactionId {
    /// The identifier in its fixed-width hexadecimal form, for logging
    /// and auditing.
    pub fn to_hex(&self) -> (r: String)
        ensures
            r@ == crate::hexfmt::word_hex_spec(self.word),
            r@.len() == 66,
    {
        crate::hexfmt::word_to_hex(&self.word)
    }
}

/// A batch of intended ledger effects, immutable once built and consumed
/// exactly once by submission.
#[derive(Clone, Debug)]
pub struct TransactionRequest {
    /// Notes the transaction creates.
    pub output_notes: Vec<Note>,
    /// Notes the transaction consumes without prior local authentication:
    /// ownership is proved by each note's own script.
    pub input_notes: Vec<Note>,
    /// An optional custom script to run.
    pub script: Option<TransactionScriptRef>,
}

impl TransactionRequest {
    /// At least one of the three parts is present.
    pub open spec fn is_nonempty(self) -> bool {
        self.output_notes@.len() > 0 || self.input_notes@.len() > 0 || self.script is Some
    }
}

/// Accumulates the parts of a transaction request; `build` validates.
#[derive(Clone, Debug)]
pub struct TransactionRequestBuilder {
    pub output_notes: Vec<Note>,
    pub input_notes: Vec<Note>,
    pub script: Option<TransactionScriptRef>,
}

impl TransactionRequestBuilder {
    /// An empty builder.
    pub fn new() -> (r: TransactionRequestBuilder)
        ensures
            r.output_notes@.len() == 0,
            r.input_notes@.len() == 0,
            r.script is None,
    {
        TransactionRequestBuilder { output_notes: Vec::new(), input_notes: Vec::new(), script: None }
    }

    /// Sets the notes the transaction will create — the issuance shape
    /// carries the mint note here.
    pub fn own_output_notes(self, notes: Vec<Note>) -> (r: TransactionRequestBuilder)
        ensures
            r.output_notes@ == notes@,
            r.input_notes@ == self.input_notes@,
            r.script == self.script,
    {
        TransactionRequestBuilder { output_notes: notes, ..self }
    }

    /// Sets the notes the transaction will consume unauthenticated — the
    /// consumption shape carries the target note here, ownership proved by
    /// the note's embedded script rather than by local authentication
    /// records.
    pub fn unauthenticated_input_notes(self, notes: Vec<Note>) -> (r: TransactionRequestBuilder)
        ensures
            r.input_notes@ == notes@,
            r.output_notes@ == self.output_notes@,
            r.script == self.script,
    {
        TransactionRequestBuilder { input_notes: notes, ..self }
    }

    /// Sets a custom transaction script.
    pub fn custom_script(self, script: TransactionScriptRef) -> (r: TransactionRequestBuilder)
        ensures
            r.script == Some(script),
            r.output_notes@ == self.output_notes@,
            r.input_notes@ == self.input_notes@,
    {
        TransactionRequestBuilder { script: Some(script), ..self }
    }

    /// Validates and assembles the request.  Fails exactly when nothing at
    /// all was added: an empty request never reaches the ledger
    /// collaborator.
    pub fn build(self) -> (r: Result<TransactionRequest, TransactionRequestError>)
        ensures
            r is Ok <==> self.output_notes@.len() > 0 || self.input_notes@.len() > 0
                || self.script is Some,
            r matches Ok(q) ==> q.output_notes@ == self.output_notes@
                && q.input_notes@ == self.input_notes@ && q.script == self.script
                && q.is_nonempty(),
            r is Err ==> r == Err::<TransactionRequest, TransactionRequestError>(
                TransactionRequestError::EmptyRequest,
            ),
    {
        if self.output_notes.len() == 0 && self.input_notes.len() == 0 && self.script.is_none() {
            Err(TransactionRequestError::EmptyRequest)
        } else {
            Ok(TransactionRequest {
                output_notes: self.output_notes,
                input_notes: self.input_notes,
                script: self.script,
            })
        }
    }
}

/// Interprets the ledger collaborator's answer to one submission: an
/// accepted request yields the ledger-assigned transaction identifier
/// unchanged; a rejection code is surfaced verbatim as a submission
/// error.  Fatal to this attempt either way — retries belong to the
/// confirmation tracker, never here.
pub fn finish_submission(outcome: Result<TransactionId, u64>) -> (r: Result<
    TransactionId,
    SubmissionError,
>)
    ensures
        outcome matches Ok(id) ==> r == Ok::<TransactionId, SubmissionError>(id),
        outcome matches Err(code) ==> r == Err::<TransactionId, SubmissionError>(
            SubmissionError::Rejected { code },
        ),
{
    match outcome {
        Ok(id) => Ok(id),
        Err(code) => Err(SubmissionError::Rejected { code }),
    }
}

} // verus!
