use miden_transfer::account::AccountId;
use miden_transfer::asset::FungibleAsset;
use miden_transfer::errors::{SubmissionError, TransactionRequestError};
use miden_transfer::field::Word;
use miden_transfer::note::{NoteFactory, NoteScriptRef, NoteType};
use miden_transfer::request::{
    finish_submission, TransactionId, TransactionRequestBuilder, TransactionScriptRef,
};

fn word(a: u64, b: u64, c: u64, d: u64) -> Word {
    Word { e0: a, e1: b, e2: c, e3: d }
}

fn sample_note() -> miden_transfer::note::Note {
    let f = NoteFactory::new(
        NoteScriptRef { root: word(11, 12, 13, 14) },
        NoteScriptRef { root: word(21, 22, 23, 24) },
    )
    .unwrap();
    let faucet = AccountId { prefix: 0xd8e3_fa79_3ea8_2360, suffix: 0x73_4ec9_1a98 };
    let alice = AccountId { prefix: 0x1122_3344_5566_7788, suffix: 0x99aa_bbcc };
    f.build_p2id_note(
        faucet,
        alice,
        vec![FungibleAsset { faucet_id: faucet, amount: 50 }],
        NoteType::Public,
        27,
        word(1, 2, 3, 4),
    )
    .unwrap()
}

#[test]
fn empty_request_fails_before_any_submission() {
    let r = TransactionRequestBuilder::new().build();
    assert_eq!(r.unwrap_err(), TransactionRequestError::EmptyRequest);
}

#[test]
fn issuance_shape_builds() {
    let q = TransactionRequestBuilder::new()
        .own_output_notes(vec![sample_note()])
        .build()
        .unwrap();
    assert_eq!(q.output_notes.len(), 1);
    assert_eq!(q.input_notes.len(), 0);
    assert!(q.script.is_none());
}

#[test]
fn consumption_shape_builds() {
    let q = TransactionRequestBuilder::new()
        .unauthenticated_input_notes(vec![sample_note()])
        .build()
        .unwrap();
    assert_eq!(q.input_notes.len(), 1);
    assert_eq!(q.output_notes.len(), 0);
}

#[test]
fn script_only_request_builds() {
    let q = TransactionRequestBuilder::new()
        .custom_script(TransactionScriptRef { root: word(1, 0, 0, 0) })
        .build()
        .unwrap();
    assert!(q.script.is_some());
}

#[test]
fn submission_outcome_is_surfaced_verbatim() {
    let id = TransactionId { word: word(9, 8, 7, 6) };
    assert_eq!(finish_submission(Ok(id)), Ok(id));
    assert_eq!(
        finish_submission(Err(13)),
        Err(SubmissionError::Rejected { code: 13 })
    );
}

#[test]
fn transaction_id_hex_is_fixed_width() {
    let id = TransactionId { word: word(0, 0, 0, 0x1f) };
    let h = id.to_hex();
    assert_eq!(
        h,
        "0x000000000000000000000000000000000000000000000000000000000000001f"
    );
    assert_eq!(h.len(), 66);
}
