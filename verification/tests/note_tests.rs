use miden_transfer::account::{tag_for, AccountId};
use miden_transfer::asset::FungibleAsset;
use miden_transfer::errors::NoteConstructionError;
use miden_transfer::field::Word;
use miden_transfer::hexfmt::word_to_hex;
use miden_transfer::note::{check_coupling, NoteFactory, NoteScriptRef, NoteType};
use miden_transfer::serial::draw_serial;

fn word(a: u64, b: u64, c: u64, d: u64) -> Word {
    Word { e0: a, e1: b, e2: c, e3: d }
}

fn factory() -> NoteFactory {
    NoteFactory::new(
        NoteScriptRef { root: word(11, 12, 13, 14) },
        NoteScriptRef { root: word(21, 22, 23, 24) },
    )
    .unwrap()
}

fn faucet() -> AccountId {
    AccountId { prefix: 0xd8e3_fa79_3ea8_2360, suffix: 0x73_4ec9_1a98 }
}

fn alice() -> AccountId {
    AccountId { prefix: 0x1122_3344_5566_7788, suffix: 0x99aa_bbcc }
}

#[test]
fn commitment_is_deterministic() {
    let f = factory();
    let assets = vec![FungibleAsset { faucet_id: faucet(), amount: 50 }];
    let serial = word(1, 2, 3, 4);
    let n1 = f
        .build_p2id_note(faucet(), alice(), assets.clone(), NoteType::Public, 27, serial)
        .unwrap();
    let n2 = f
        .build_p2id_note(faucet(), alice(), assets, NoteType::Public, 27, serial)
        .unwrap();
    let c1 = n1.commitment();
    let c2 = n2.commitment();
    assert_eq!(c1, c2);
    assert_eq!(word_to_hex(&c1), word_to_hex(&c2));
}

#[test]
fn commitment_depends_on_contents() {
    let f = factory();
    let assets = vec![FungibleAsset { faucet_id: faucet(), amount: 50 }];
    let n1 = f
        .build_p2id_note(faucet(), alice(), assets.clone(), NoteType::Public, 27, word(1, 2, 3, 4))
        .unwrap();
    let n2 = f
        .build_p2id_note(faucet(), alice(), assets, NoteType::Public, 27, word(4, 3, 2, 1))
        .unwrap();
    assert_ne!(n1.commitment(), n2.commitment());
    assert_ne!(n1.recipient.digest(), n2.recipient.digest());
}

#[test]
fn p2id_note_shape() {
    let f = factory();
    let assets = vec![FungibleAsset { faucet_id: faucet(), amount: 50 }];
    let target = alice();
    let note = f
        .build_p2id_note(faucet(), target, assets, NoteType::Private, 27, word(5, 6, 7, 8))
        .unwrap();
    assert_eq!(note.recipient.inputs, vec![target.suffix, target.prefix]);
    assert_eq!(note.recipient.script, f.p2id_script);
    assert_eq!(note.metadata.sender, faucet());
    assert_eq!(note.metadata.note_type, NoteType::Private);
    assert_eq!(note.metadata.aux, 27);
    assert_eq!(note.metadata.tag, tag_for(target));
    assert_eq!(note.metadata.tag, (target.prefix >> 32) as u32);
    assert_eq!(note.vault.assets, vec![FungibleAsset { faucet_id: faucet(), amount: 50 }]);
}

#[test]
fn p2id_note_rejects_empty_vault() {
    let f = factory();
    let r = f.build_p2id_note(faucet(), alice(), vec![], NoteType::Public, 0, word(0, 0, 0, 0));
    assert_eq!(r.unwrap_err(), NoteConstructionError::EmptyVault);
}

#[test]
fn p2id_note_rejects_duplicate_faucet() {
    let f = factory();
    let assets = vec![
        FungibleAsset { faucet_id: faucet(), amount: 50 },
        FungibleAsset { faucet_id: faucet(), amount: 25 },
    ];
    let r = f.build_p2id_note(faucet(), alice(), assets, NoteType::Public, 0, word(0, 0, 0, 0));
    assert_eq!(r.unwrap_err(), NoteConstructionError::DuplicateFaucet);
}

#[test]
fn p2id_note_rejects_zero_amount() {
    let f = factory();
    let assets = vec![FungibleAsset { faucet_id: faucet(), amount: 0 }];
    let r = f.build_p2id_note(faucet(), alice(), assets, NoteType::Public, 0, word(0, 0, 0, 0));
    assert_eq!(r.unwrap_err(), NoteConstructionError::InvalidAmount);
}

#[test]
fn p2id_note_rejects_bad_field_encoding() {
    let f = factory();
    let assets = vec![FungibleAsset { faucet_id: faucet(), amount: 1 }];
    let r = f.build_p2id_note(
        faucet(),
        alice(),
        assets,
        NoteType::Public,
        u64::MAX,
        word(0, 0, 0, 0),
    );
    assert_eq!(r.unwrap_err(), NoteConstructionError::InvalidFieldElement);
}

#[test]
fn mint_note_couples_by_digest_alone() {
    let f = factory();
    let assets = vec![FungibleAsset { faucet_id: faucet(), amount: 50 }];
    let target_note = f
        .build_p2id_note(faucet(), alice(), assets.clone(), NoteType::Public, 27, word(1, 2, 3, 4))
        .unwrap();
    let other_note = f
        .build_p2id_note(faucet(), alice(), assets, NoteType::Public, 27, word(9, 9, 9, 9))
        .unwrap();
    let digest = target_note.recipient.digest();
    let owner = alice();
    let mint = f
        .build_mint_note(faucet(), owner, digest, tag_for(alice()), 50, 27, 27, draw_serial())
        .unwrap();
    assert!(check_coupling(&mint, &target_note));
    assert!(!check_coupling(&mint, &other_note));

    // An equal-field reconstruction of the target couples too: the link is
    // the digest, never the object.
    let rebuilt = f
        .build_p2id_note(
            faucet(),
            alice(),
            vec![FungibleAsset { faucet_id: faucet(), amount: 50 }],
            NoteType::Public,
            27,
            word(1, 2, 3, 4),
        )
        .unwrap();
    assert!(check_coupling(&mint, &rebuilt));
}

#[test]
fn mint_note_with_mismatched_digest_is_not_an_error() {
    let f = factory();
    let assets = vec![FungibleAsset { faucet_id: faucet(), amount: 50 }];
    let target_note = f
        .build_p2id_note(faucet(), alice(), assets, NoteType::Public, 27, word(1, 2, 3, 4))
        .unwrap();
    let unrelated_digest = word(77, 78, 79, 80);
    let mint = f
        .build_mint_note(
            faucet(),
            alice(),
            unrelated_digest,
            tag_for(alice()),
            50,
            27,
            27,
            word(0, 0, 0, 0),
        )
        .unwrap();
    assert!(!check_coupling(&mint, &target_note));
}

#[test]
fn mint_note_shape() {
    let f = factory();
    let digest = word(41, 42, 43, 44);
    let owner = alice();
    let tag = tag_for(alice());
    let mint = f
        .build_mint_note(faucet(), owner, digest, tag, 50, 27, 31, word(6, 6, 6, 6))
        .unwrap();
    assert_eq!(mint.vault.assets, vec![FungibleAsset { faucet_id: faucet(), amount: 50 }]);
    assert_eq!(mint.metadata.sender, faucet());
    assert_eq!(mint.metadata.note_type, NoteType::Public);
    assert_eq!(mint.metadata.tag, tag);
    assert_eq!(mint.metadata.aux, 27);
    assert_eq!(mint.recipient.script, f.mint_script);
    assert_eq!(
        mint.recipient.inputs,
        vec![41, 42, 43, 44, tag as u64, 50, 31, owner.suffix, owner.prefix]
    );
}

#[test]
fn mint_note_rejects_malformed_digest() {
    let f = factory();
    let bad = word(0xFFFF_FFFF_0000_0001, 0, 0, 0);
    let r = f.build_mint_note(faucet(), alice(), bad, 0, 50, 0, 0, word(0, 0, 0, 0));
    assert_eq!(r.unwrap_err(), NoteConstructionError::MalformedDigest);
}

#[test]
fn mint_note_rejects_bad_amount() {
    let f = factory();
    let digest = word(1, 1, 1, 1);
    let r = f.build_mint_note(faucet(), alice(), digest, 0, 0, 0, 0, word(0, 0, 0, 0));
    assert_eq!(r.unwrap_err(), NoteConstructionError::InvalidAmount);
}

#[test]
fn drawn_serials_are_in_field() {
    let s = draw_serial();
    let m = 0xFFFF_FFFF_0000_0001u64;
    assert!(s.e0 < m && s.e1 < m && s.e2 < m && s.e3 < m);
}

#[test]
fn hex_rendering_is_fixed_width() {
    let h = word_to_hex(&word(1, 2, 3, 4));
    assert_eq!(
        h,
        "0x0000000000000001000000000000000200000000000000030000000000000004"
    );
    assert_eq!(h.len(), 66);
    let h2 = word_to_hex(&word(0xdead_beef_0123_4567, 0, 0xf, 0xabc));
    assert_eq!(
        h2,
        "0xdeadbeef012345670000000000000000000000000000000f0000000000000abc"
    );
}
