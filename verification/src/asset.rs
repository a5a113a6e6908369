//! Fungible assets, note vaults and account vaults.
//!
//! A note carries a non-empty vault of assets; an account accumulates
//! assets as notes are consumed into it.  Balances are modelled per issuing
//! faucet, and consumption is proved to conserve them exactly.

use vstd::prelude::*;
use crate::account::AccountId;
use crate::errors::{NoteConstructionError, VaultError};

verus! {

/// Largest amount a fungible asset can encode: it fits in the field and two
/// such amounts never wrap a machine word when added.
pub const MAX_ASSET_AMOUNT: u64 = 0x7FFF_FFFF_FFFF_FFFF;

/// A quantity of fungible units issued by one faucet account.
#[derive(Clone, Copy, PartialEq, Eq, Structural, Debug)]
pub struct FungibleAsset {
    pub faucet_id: AccountId,
    pub amount: u64,
}

impl FungibleAsset {
    /// The faucet identifier is valid and the amount is positive and
    /// encodable.
    pub open spec fn wf(self) -> bool {
        self.faucet_id.wf() && 0 < self.amount && self.amount <= MAX_ASSET_AMOUNT
    }

    /// Validates and builds an asset.
    pub fn new(faucet_id: AccountId, amount: u64) -> (r: Result<FungibleAsset, NoteConstructionError>)
        ensures
            r is Ok <==> faucet_id.wf() && 0 < amount && amount <= MAX_ASSET_AMOUNT,
            r matches Ok(a) ==> a == (FungibleAsset { faucet_id, amount }),
            r == Err::<FungibleAsset, NoteConstructionError>(NoteConstructionError::InvalidFieldElement)
                <==> !faucet_id.wf(),
            r == Err::<FungibleAsset, NoteConstructionError>(NoteConstructionError::InvalidAmount)
                <==> faucet_id.wf() && !(0 < amount && amount <= MAX_ASSET_AMOUNT),
    {
        if faucet_id.prefix >= crate::field::FIELD_MODULUS || faucet_id.suffix >= crate::field::FIELD_MODULUS {
            Err(NoteConstructionError::InvalidFieldElement)
        } else if amount == 0 || amount > MAX_ASSET_AMOUNT {
            Err(NoteConstructionError::InvalidAmount)
        } else {
            Ok(FungibleAsset { faucet_id, amount })
        }
    }
}

/// Contribution of one asset to the balance kept for `faucet`.
pub open spec fn asset_contrib(a: FungibleAsset, faucet: AccountId) -> int {
    if a.faucet_id == faucet {
        a.amount as int
    } else {
        0
    }
}

/// Total balance for `faucet` over a list of assets.
pub open spec fn balance_of(assets: Seq<FungibleAsset>, faucet: AccountId) -> int
    decreases assets.len(),
{
    if assets.len() == 0 {
        0
    } else {
        asset_contrib(assets[0], faucet) + balance_of(assets.drop_first(), faucet)
    }
}

/// No two assets in the list name the same issuing faucet.
pub open spec fn distinct_faucets(assets: Seq<FungibleAsset>) -> bool {
    forall|i: int, j: int|
        0 <= i < j < assets.len() ==> assets[i].faucet_id != assets[j].faucet_id
}

/// Every asset in the list is well formed.
pub open spec fn all_assets_wf(assets: Seq<FungibleAsset>) -> bool {
    forall|i: int| 0 <= i < assets.len() ==> #[trigger] assets[i].wf()
}

/// Well-formedness of any vault contents: valid assets, one entry per
/// faucet.
pub open spec fn vault_wf(assets: Seq<FungibleAsset>) -> bool {
    all_assets_wf(assets) && distinct_faucets(assets)
}

/// Appending an asset adds exactly its contribution to every balance.
pub proof fn lemma_balance_snoc(assets: Seq<FungibleAsset>, a: FungibleAsset, faucet: AccountId)
    ensures
        balance_of(assets.push(a), faucet) == balance_of(assets, faucet) + asset_contrib(a, faucet),
    decreases assets.len(),
{
    let snoc = assets.push(a);
    assert(snoc.len() == assets.len() + 1);
    if assets.len() == 0 {
        assert(snoc[0] == a);
        assert(snoc.drop_first() =~= Seq::<FungibleAsset>::empty());
        assert(balance_of(snoc.drop_first(), faucet) == 0);
        assert(balance_of(snoc, faucet) == asset_contrib(a, faucet) + balance_of(snoc.drop_first(), faucet));
        assert(balance_of(assets, faucet) == 0);
    } else {
        assert(snoc[0] == assets[0]);
        assert(snoc.drop_first() =~= assets.drop_first().push(a));
        lemma_balance_snoc(assets.drop_first(), a, faucet);
        assert(balance_of(snoc, faucet) == asset_contrib(assets[0], faucet) + balance_of(snoc.drop_first(), faucet));
        assert(balance_of(assets, faucet) == asset_contrib(assets[0], faucet) + balance_of(assets.drop_first(), faucet));
    }
}

/// Replacing the asset at one index shifts every balance by the difference
/// of the two contributions.
pub proof fn lemma_balance_update(assets: Seq<FungibleAsset>, i: int, b: FungibleAsset, faucet: AccountId)
    requires
        0 <= i < assets.len(),
    ensures
        balance_of(assets.update(i, b), faucet)
            == balance_of(assets, faucet) - asset_contrib(assets[i], faucet) + asset_contrib(b, faucet),
    decreases assets.len(),
{
    if i == 0 {
        assert(assets.update(0, b).drop_first() =~= assets.drop_first());
    } else {
        assert(assets.update(i, b).drop_first() =~= assets.drop_first().update(i - 1, b));
        lemma_balance_update(assets.drop_first(), i - 1, b, faucet);
    }
}

/// A faucet that no entry names has balance zero.
pub proof fn lemma_absent_balance(assets: Seq<FungibleAsset>, faucet: AccountId)
    requires
        forall|k: int| 0 <= k < assets.len() ==> assets[k].faucet_id != faucet,
    ensures
        balance_of(assets, faucet) == 0,
    decreases assets.len(),
{
    if assets.len() > 0 {
        lemma_absent_balance(assets.drop_first(), faucet);
    }
}

/// With pairwise-distinct faucets, the whole balance for the faucet named
/// at index `i` sits in that single entry.
pub proof fn lemma_distinct_balance_at(assets: Seq<FungibleAsset>, i: int)
    requires
        distinct_faucets(assets),
        0 <= i < assets.len(),
    ensures
        balance_of(assets, assets[i].faucet_id) == assets[i].amount as int,
    decreases assets.len(),
{
    let faucet = assets[i].faucet_id;
    if i == 0 {
        assert forall|k: int| 0 <= k < assets.drop_first().len() implies
            assets.drop_first()[k].faucet_id != faucet
        by {
            assert(assets.drop_first()[k] == assets[k + 1]);
        }
        lemma_absent_balance(assets.drop_first(), faucet);
    } else {
        assert(assets.drop_first()[i - 1] == assets[i]);
        assert forall|x: int, y: int|
            0 <= x < y < assets.drop_first().len() implies
            assets.drop_first()[x].faucet_id != assets.drop_first()[y].faucet_id
        by {
            assert(assets.drop_first()[x] == assets[x + 1]);
            assert(assets.drop_first()[y] == assets[y + 1]);
        }
        lemma_distinct_balance_at(assets.drop_first(), i - 1);
        assert(assets[0].faucet_id != faucet);
    }
}

/// A non-empty vault of assets carried by one note.  Immutable once built.
#[derive(Clone, Debug)]
pub struct NoteAssets {
    pub assets: Vec<FungibleAsset>,
}

impl NoteAssets {
    pub open spec fn wf(self) -> bool {
        self.assets@.len() > 0 && vault_wf(self.assets@)
    }

    /// Validates a list of assets as a note vault: non-empty, every asset
    /// well formed, and at most one entry per issuing faucet.
    pub fn new(assets: Vec<FungibleAsset>) -> (r: Result<NoteAssets, NoteConstructionError>)
        ensures
            r matches Ok(v) ==> v.assets@ == assets@ && v.wf(),
            r is Ok <==> assets@.len() > 0 && vault_wf(assets@),
            r == Err::<NoteAssets, NoteConstructionError>(NoteConstructionError::EmptyVault)
                <==> assets@.len() == 0,
            r == Err::<NoteAssets, NoteConstructionError>(NoteConstructionError::DuplicateFaucet)
                <==> assets@.len() > 0 && all_assets_wf(assets@) && !distinct_faucets(assets@),
            (r == Err::<NoteAssets, NoteConstructionError>(NoteConstructionError::InvalidFieldElement)
                || r == Err::<NoteAssets, NoteConstructionError>(NoteConstructionError::InvalidAmount))
                <==> assets@.len() > 0 && !all_assets_wf(assets@),
    {
        if assets.len() == 0 {
            return Err(NoteConstructionError::EmptyVault);
        }
        let mut i: usize = 0;
        while i < assets.len()
            invariant
                i <= assets@.len(),
                assets@.len() > 0,
                forall|j: int| 0 <= j < i ==> (#[trigger] assets@[j]).wf(),
            decreases assets@.len() - i,
        {
            let a = assets[i];
            if a.faucet_id.prefix >= crate::field::FIELD_MODULUS
                || a.faucet_id.suffix >= crate::field::FIELD_MODULUS {
                proof {
                    assert(!assets@[i as int].wf());
                }
                return Err(NoteConstructionError::InvalidFieldElement);
            }
            if a.amount == 0 || a.amount > MAX_ASSET_AMOUNT {
                proof {
                    assert(!assets@[i as int].wf());
                }
                return Err(NoteConstructionError::InvalidAmount);
            }
            i = i + 1;
        }
        let mut x: usize = 1;
        while x < assets.len()
            invariant
                1 <= x,
                x <= assets@.len(),
                assets@.len() > 0,
                all_assets_wf(assets@),
                forall|p: int, q: int|
                    0 <= p < q < x ==> assets@[p].faucet_id != assets@[q].faucet_id,
            decreases assets@.len() - x,
        {
            let mut y: usize = 0;
            while y < x
                invariant
                    y <= x,
                    x < assets@.len(),
                    assets@.len() > 0,
                    all_assets_wf(assets@),
                    forall|p: int, q: int|
                        0 <= p < q < x ==> assets@[p].faucet_id != assets@[q].faucet_id,
                    forall|q: int| 0 <= q < y ==> assets@[q].faucet_id != assets@[x as int].faucet_id,
                decreases x - y,
            {
                if assets[y].faucet_id == assets[x].faucet_id {
                    return Err(NoteConstructionError::DuplicateFaucet);
                }
                y = y + 1;
            }
            x = x + 1;
        }
        Ok(NoteAssets { assets })
    }
}

/// The asset holdings of an account, accumulated as notes are consumed
/// into it.  May be empty; keeps one entry per faucet.
#[derive(Clone, Debug)]
pub struct AccountVault {
    pub assets: Vec<FungibleAsset>,
}

impl AccountVault {
    pub open spec fn wf(self) -> bool {
        vault_wf(self.assets@)
    }

    /// Balance held for `faucet`.
    pub open spec fn balance_spec(self, faucet: AccountId) -> int {
        balance_of(self.assets@, faucet)
    }

    /// An empty vault: every balance is zero.
    pub fn new() -> (r: AccountVault)
        ensures
            r.wf(),
            r.assets@.len() == 0,
            forall|f: AccountId| #[trigger] r.balance_spec(f) == 0,
    {
        AccountVault { assets: Vec::new() }
    }

    fn find_index(&self, faucet: AccountId) -> (r: Option<usize>)
        ensures
            r matches Some(i) ==> i < self.assets@.len() && self.assets@[i as int].faucet_id == faucet,
            r is None ==> forall|m: int|
                0 <= m < self.assets@.len() ==> self.assets@[m].faucet_id != faucet,
    {
        let mut i: usize = 0;
        while i < self.assets.len()
            invariant
                i <= self.assets@.len(),
                forall|m: int| 0 <= m < i ==> self.assets@[m].faucet_id != faucet,
            decreases self.assets@.len() - i,
        {
            if self.assets[i].faucet_id == faucet {
                return Some(i);
            }
            i = i + 1;
        }
        None
    }

    /// Balance held for `faucet`, as a machine word.
    pub fn balance(&self, faucet: AccountId) -> (r: u64)
        requires
            self.wf(),
        ensures
            r as int == self.balance_spec(faucet),
            r <= MAX_ASSET_AMOUNT,
    {
        match self.find_index(faucet) {
            Some(i) => {
                proof {
                    lemma_distinct_balance_at(self.assets@, i as int);
                    assert(self.assets@[i as int].wf());
                }
                self.assets[i].amount
            },
            None => {
                proof {
                    lemma_absent_balance(self.assets@, faucet);
                }
                0
            },
        }
    }

    /// Credits `amount` units issued by `faucet`, merging with an existing
    /// entry.  Fails, leaving the vault unchanged, exactly when the merged
    /// balance would exceed the largest encodable amount.
    pub fn credit(&mut self, faucet: AccountId, amount: u64) -> (r: Result<(), VaultError>)
        requires
            old(self).wf(),
            faucet.wf(),
            0 < amount <= MAX_ASSET_AMOUNT,
        ensures
            final(self).wf(),
            r is Ok <==> old(self).balance_spec(faucet) + amount <= MAX_ASSET_AMOUNT,
            r is Ok ==> forall|f: AccountId| #[trigger] final(self).balance_spec(f)
                == old(self).balance_spec(f) + (if f == faucet { amount as int } else { 0 }),
            r is Err ==> *final(self) == *old(self),
    {
        match self.find_index(faucet) {
            Some(i) => {
                let cur = self.assets[i].amount;
                proof {
                    lemma_distinct_balance_at(self.assets@, i as int);
                    assert(self.assets@[i as int].wf());
                }
                if amount > MAX_ASSET_AMOUNT - cur {
                    Err(VaultError::AmountOverflow)
                } else {
                    let merged = FungibleAsset { faucet_id: faucet, amount: cur + amount };
                    self.assets.set(i, merged);
                    proof {
                        let before = old(self).assets@;
                        assert forall|f: AccountId| #[trigger] final(self).balance_spec(f)
                            == old(self).balance_spec(f) + (if f == faucet { amount as int } else { 0 })
                        by {
                            lemma_balance_update(before, i as int, merged, f);
                        }
                        assert forall|p: int, q: int|
                            0 <= p < q < self.assets@.len() implies
                            self.assets@[p].faucet_id != self.assets@[q].faucet_id
                        by {
                            assert(before[p].faucet_id == self.assets@[p].faucet_id);
                            assert(before[q].faucet_id == self.assets@[q].faucet_id);
                        }
                        assert forall|j: int| 0 <= j < self.assets@.len() implies
                            (#[trigger] self.assets@[j]).wf()
                        by {
                            assert(before[j].wf());
                        }
                    }
                    Ok(())
                }
            },
            None => {
                proof {
                    lemma_absent_balance(self.assets@, faucet);
                }
                let added = FungibleAsset { faucet_id: faucet, amount };
                self.assets.push(added);
                proof {
                    let before = old(self).assets@;
                    assert forall|f: AccountId| #[trigger] final(self).balance_spec(f)
                        == old(self).balance_spec(f) + (if f == faucet { amount as int } else { 0 })
                    by {
                        lemma_balance_snoc(before, added, f);
                    }
                    assert forall|p: int, q: int|
                        0 <= p < q < self.assets@.len() implies
                        self.assets@[p].faucet_id != self.assets@[q].faucet_id
                    by {
                        if q < before.len() {
                            assert(self.assets@[p] == before[p]);
                            assert(self.assets@[q] == before[q]);
                        } else {
                            assert(self.assets@[q] == added);
                            assert(self.assets@[p] == before[p]);
                        }
                    }
                    assert forall|j: int| 0 <= j < self.assets@.len() implies
                        (#[trigger] self.assets@[j]).wf()
                    by {
                        if j < before.len() {
                            assert(self.assets@[j] == before[j]);
                            assert(before[j].wf());
                        } else {
                            assert(self.assets@[j] == added);
                        }
                    }
                }
                Ok(())
            },
        }
    }

    /// Consumes a note's vault into the account: every carried asset is
    /// credited.  All-or-nothing: fails, leaving the vault unchanged,
    /// exactly when some merged balance would exceed the largest encodable
    /// amount.
    pub fn consume_note_assets(&mut self, vault: &NoteAssets) -> (r: Result<(), VaultError>)
        requires
            old(self).wf(),
            vault.wf(),
        ensures
            final(self).wf(),
            r is Ok <==> forall|j: int| 0 <= j < vault.assets@.len()
                ==> old(self).balance_spec((#[trigger] vault.assets@[j]).faucet_id)
                    + vault.assets@[j].amount <= MAX_ASSET_AMOUNT,
            r is Ok ==> forall|f: AccountId| #[trigger] final(self).balance_spec(f)
                == old(self).balance_spec(f) + balance_of(vault.assets@, f),
            r is Err ==> *final(self) == *old(self),
    {
        let n = vault.assets.len();
        let mut j: usize = 0;
        while j < n
            invariant
                old(self) == self,
                self.wf(),
                vault.wf(),
                n == vault.assets@.len(),
                j <= n,
                forall|m: int| 0 <= m < j
                    ==> self.balance_spec((#[trigger] vault.assets@[m]).faucet_id)
                        + vault.assets@[m].amount <= MAX_ASSET_AMOUNT,
            decreases n - j,
        {
            let a = vault.assets[j];
            proof {
                assert(vault.assets@[j as int].wf());
            }
            let held = self.balance(a.faucet_id);
            if a.amount > MAX_ASSET_AMOUNT - held {
                return Err(VaultError::AmountOverflow);
            }
            j = j + 1;
        }
        let mut k: usize = 0;
        while k < n
            invariant
                self.wf(),
                vault.wf(),
                n == vault.assets@.len(),
                k <= n,
                forall|m: int| 0 <= m < n
                    ==> old(self).balance_spec((#[trigger] vault.assets@[m]).faucet_id)
                        + vault.assets@[m].amount <= MAX_ASSET_AMOUNT,
                forall|f: AccountId| #[trigger] self.balance_spec(f)
                    == old(self).balance_spec(f)
                        + balance_of(vault.assets@.subrange(0, k as int), f),
            decreases n - k,
        {
            let a = vault.assets[k];
            proof {
                assert(vault.assets@[k as int].wf());
                let taken = vault.assets@.subrange(0, k as int);
                assert forall|m: int| 0 <= m < taken.len() implies
                    taken[m].faucet_id != a.faucet_id
                by {
                    assert(taken[m] == vault.assets@[m]);
                }
                lemma_absent_balance(taken, a.faucet_id);
            }
            let c = self.credit(a.faucet_id, a.amount);
            match c {
                Ok(_) => {},
                Err(e) => {
                    proof {
                        assert(false);
                    }
                    return Err(e);
                },
            }
            proof {
                let taken = vault.assets@.subrange(0, k as int);
                assert(vault.assets@.subrange(0, k as int + 1) =~= taken.push(a));
                assert forall|f: AccountId| #[trigger] self.balance_spec(f)
                    == old(self).balance_spec(f)
                        + balance_of(vault.assets@.subrange(0, k as int + 1), f)
                by {
                    lemma_balance_snoc(taken, a, f);
                }
            }
            k = k + 1;
        }
        proof {
            assert(vault.assets@.subrange(0, n as int) =~= vault.assets@);
        }
        Ok(())
    }
}

/// Balance conservation for a single-asset note: consuming a note that
/// carries `amount` units from `faucet` raises the consumer's balance for
/// that faucet by exactly `amount` and leaves every other balance
/// unchanged.
pub proof fn lemma_consume_conserves_balances(
    before: Seq<FungibleAsset>,
    after: Seq<FungibleAsset>,
    carried: Seq<FungibleAsset>,
    faucet: AccountId,
    amount: u64,
)
    requires
        carried =~= seq![FungibleAsset { faucet_id: faucet, amount }],
        forall|f: AccountId| #[trigger] balance_of(after, f)
            == balance_of(before, f) + balance_of(carried, f),
    ensures
        balance_of(after, faucet) == balance_of(before, faucet) + amount,
        forall|f: AccountId| f != faucet ==> #[trigger] balance_of(after, f) == balance_of(before, f),
{
    assert forall|f: AccountId| #[trigger] balance_of(carried, f) == asset_contrib(carried[0], f) by {
        assert(carried.len() == 1);
        assert(carried.drop_first() =~= Seq::<FungibleAsset>::empty());
        assert(balance_of(carried.drop_first(), f) == 0);
        assert(balance_of(carried, f) == asset_contrib(carried[0], f) + balance_of(carried.drop_first(), f));
    }
    assert(balance_of(after, faucet) == balance_of(before, faucet) + amount);
    assert forall|f: AccountId| f != faucet implies
        #[trigger] balance_of(after, f) == balance_of(before, f)
    by {
        assert(asset_contrib(carried[0], f) == 0);
    }
}

} // verus!
