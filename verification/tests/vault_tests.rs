use miden_transfer::account::AccountId;
use miden_transfer::asset::{AccountVault, FungibleAsset, NoteAssets, MAX_ASSET_AMOUNT};
use miden_transfer::errors::{NoteConstructionError, VaultError};
use miden_transfer::field::Word;
use miden_transfer::note::{NoteFactory, NoteScriptRef, NoteType};

fn word(a: u64, b: u64, c: u64, d: u64) -> Word {
    Word { e0: a, e1: b, e2: c, e3: d }
}

fn factory() -> NoteFactory {
    NoteFactory::new(
        NoteScriptRef { root: word(11, 12, 13, 14) },
        NoteScriptRef { root: word(21, 22, 23, 24) },
    )
    .unwrap()
}

fn faucet() -> AccountId {
    AccountId { prefix: 0xd8e3_fa79_3ea8_2360, suffix: 0x73_4ec9_1a98 }
}

fn other_faucet() -> AccountId {
    AccountId { prefix: 0x0bad_cafe_0000_0001, suffix: 0x42 }
}

fn alice() -> AccountId {
    AccountId { prefix: 0x1122_3344_5566_7788, suffix: 0x99aa_bbcc }
}

#[test]
fn mint_fifty_then_twenty_five_accumulates() {
    // Faucet F mints 50 units to account A via a pay-to-id note with
    // aux 27; consumption brings A's balance for F to 50.  A second,
    // independent mint of 25 brings it to 75.
    let f = factory();
    let mut vault = AccountVault::new();

    let first = f
        .build_p2id_note(
            faucet(),
            alice(),
            vec![FungibleAsset { faucet_id: faucet(), amount: 50 }],
            NoteType::Public,
            27,
            word(1, 2, 3, 4),
        )
        .unwrap();
    vault.consume_note_assets(&first.vault).unwrap();
    assert_eq!(vault.balance(faucet()), 50);

    let second = f
        .build_p2id_note(
            faucet(),
            alice(),
            vec![FungibleAsset { faucet_id: faucet(), amount: 25 }],
            NoteType::Public,
            27,
            word(5, 6, 7, 8),
        )
        .unwrap();
    vault.consume_note_assets(&second.vault).unwrap();
    assert_eq!(vault.balance(faucet()), 75);
}

#[test]
fn consumption_leaves_other_balances_unchanged() {
    let mut vault = AccountVault::new();
    vault.credit(other_faucet(), 500).unwrap();

    let carried = NoteAssets::new(vec![FungibleAsset { faucet_id: faucet(), amount: 50 }]).unwrap();
    vault.consume_note_assets(&carried).unwrap();

    assert_eq!(vault.balance(faucet()), 50);
    assert_eq!(vault.balance(other_faucet()), 500);
}

#[test]
fn consumption_of_a_multi_asset_note_credits_each_faucet() {
    let mut vault = AccountVault::new();
    let carried = NoteAssets::new(vec![
        FungibleAsset { faucet_id: faucet(), amount: 7 },
        FungibleAsset { faucet_id: other_faucet(), amount: 9 },
    ])
    .unwrap();
    vault.consume_note_assets(&carried).unwrap();
    assert_eq!(vault.balance(faucet()), 7);
    assert_eq!(vault.balance(other_faucet()), 9);
}

#[test]
fn credit_overflow_is_rejected_and_rolls_back() {
    let mut vault = AccountVault::new();
    vault.credit(faucet(), MAX_ASSET_AMOUNT).unwrap();
    let r = vault.credit(faucet(), 1);
    assert_eq!(r.unwrap_err(), VaultError::AmountOverflow);
    assert_eq!(vault.balance(faucet()), MAX_ASSET_AMOUNT);
}

#[test]
fn consume_overflow_leaves_vault_untouched() {
    let mut vault = AccountVault::new();
    vault.credit(faucet(), MAX_ASSET_AMOUNT).unwrap();
    vault.credit(other_faucet(), 3).unwrap();
    let carried = NoteAssets::new(vec![
        FungibleAsset { faucet_id: other_faucet(), amount: 1 },
        FungibleAsset { faucet_id: faucet(), amount: 1 },
    ])
    .unwrap();
    let r = vault.consume_note_assets(&carried);
    assert_eq!(r.unwrap_err(), VaultError::AmountOverflow);
    assert_eq!(vault.balance(faucet()), MAX_ASSET_AMOUNT);
    assert_eq!(vault.balance(other_faucet()), 3);
}

#[test]
fn asset_validation() {
    assert_eq!(
        FungibleAsset::new(faucet(), 0).unwrap_err(),
        NoteConstructionError::InvalidAmount
    );
    assert_eq!(
        FungibleAsset::new(faucet(), MAX_ASSET_AMOUNT + 1).unwrap_err(),
        NoteConstructionError::InvalidAmount
    );
    let bad_id = AccountId { prefix: u64::MAX, suffix: 0 };
    assert_eq!(
        FungibleAsset::new(bad_id, 5).unwrap_err(),
        NoteConstructionError::InvalidFieldElement
    );
    let a = FungibleAsset::new(faucet(), 5).unwrap();
    assert_eq!(a, FungibleAsset { faucet_id: faucet(), amount: 5 });
}

#[test]
fn note_assets_validation() {
    assert_eq!(
        NoteAssets::new(vec![]).unwrap_err(),
        NoteConstructionError::EmptyVault
    );
    assert_eq!(
        NoteAssets::new(vec![
            FungibleAsset { faucet_id: faucet(), amount: 1 },
            FungibleAsset { faucet_id: faucet(), amount: 2 },
        ])
        .unwrap_err(),
        NoteConstructionError::DuplicateFaucet
    );
    let ok = NoteAssets::new(vec![
        FungibleAsset { faucet_id: faucet(), amount: 1 },
        FungibleAsset { faucet_id: other_faucet(), amount: 2 },
    ])
    .unwrap();
    assert_eq!(ok.assets.len(), 2);
}
