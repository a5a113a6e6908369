//! Transfer notes and their construction.
//!
//! A note binds a non-empty asset vault, routing metadata and a recipient.
//! Its commitment is a deterministic hash over the three parts; the
//! recipient digest — the hash of serial number, script root and inputs —
//! decides who may consume the note.  The factory builds the two shapes
//! the transfer protocol needs: pay-to-id notes and faucet issuance
//! notes, coupled to their target solely through the recipient digest.

use vstd::prelude::*;
use crate::account::{AccountId, tag_for, tag_for_spec};
use crate::asset::{FungibleAsset, NoteAssets, MAX_ASSET_AMOUNT, all_assets_wf, distinct_faucets, vault_wf};
use crate::crypto::{all_felts, rpo_hash, rpo_hash_of};
use crate::errors::NoteConstructionError;
use crate::field::{FIELD_MODULUS, Word, is_felt};

verus! {

/// Visibility of a note on the ledger.
#[derive(Clone, Copy, PartialEq, Eq, Structural, Debug)]
pub enum NoteType {
    /// Stored on the ledger in full.
    Public,
    /// Only the commitment is stored; the note travels out of band.
    Private,
}

/// When a note may be consumed.  The transfer notes of this layer are
/// always consumable.
#[derive(Clone, Copy, PartialEq, Eq, Structural, Debug)]
pub enum NoteExecutionHint {
    Always,
}

/// Opaque reference to a note script: the root digest that the script
/// registry supplies for a symbolic name.  It enters commitments and is
/// never interpreted here.
#[derive(Clone, Copy, PartialEq, Eq, Structural, Debug)]
pub struct NoteScriptRef {
    pub root: Word,
}

impl NoteScriptRef {
    pub open spec fn wf(self) -> bool {
        self.root.wf()
    }
}

/// Field encoding of the note type.
pub open spec fn note_type_code(t: NoteType) -> u64 {
    match t {
        NoteType::Public => 1,
        NoteType::Private => 2,
    }
}

/// Field encoding of the execution hint.
pub open spec fn hint_code(h: NoteExecutionHint) -> u64 {
    match h {
        NoteExecutionHint::Always => 1,
    }
}

/// Provenance and routing data of a note.
#[derive(Clone, Copy, PartialEq, Eq, Structural, Debug)]
pub struct NoteMetadata {
    pub sender: AccountId,
    pub note_type: NoteType,
    pub tag: u32,
    pub execution_hint: NoteExecutionHint,
    pub aux: u64,
}

impl NoteMetadata {
    pub open spec fn wf(self) -> bool {
        self.sender.wf() && is_felt(self.aux)
    }

    /// Tag, note type and execution hint packed into one field element:
    /// the tag in the low 32 bits, the type and hint codes above it.
    pub open spec fn packed_flags(self) -> u64 {
        (self.tag + note_type_code(self.note_type) * 0x1_0000_0000
            + hint_code(self.execution_hint) * 0x100_0000_0000) as u64
    }

    /// The metadata as the four field elements that enter the commitment.
    pub open spec fn to_elements(self) -> Seq<u64> {
        seq![self.sender.prefix, self.sender.suffix, self.packed_flags(), self.aux]
    }

    /// Validates and builds note metadata.
    pub fn new(
        sender: AccountId,
        note_type: NoteType,
        tag: u32,
        execution_hint: NoteExecutionHint,
        aux: u64,
    ) -> (r: Result<NoteMetadata, NoteConstructionError>)
        ensures
            r is Ok <==> sender.wf() && is_felt(aux),
            r matches Ok(m) ==> m == (NoteMetadata { sender, note_type, tag, execution_hint, aux }),
            r is Err ==> r == Err::<NoteMetadata, NoteConstructionError>(
                NoteConstructionError::InvalidFieldElement,
            ),
    {
        if sender.prefix >= FIELD_MODULUS || sender.suffix >= FIELD_MODULUS
            || aux >= FIELD_MODULUS {
            Err(NoteConstructionError::InvalidFieldElement)
        } else {
            Ok(NoteMetadata { sender, note_type, tag, execution_hint, aux })
        }
    }
}

/// Largest number of input elements a note recipient may carry.
pub const MAX_NOTE_INPUTS: usize = 128;

/// Who may consume a note: a serial number, the consuming script and the
/// ordered inputs handed to it.  The digest over the three is the note's
/// sole consumption key.
#[derive(Clone, Debug)]
pub struct NoteRecipient {
    pub serial_num: Word,
    pub script: NoteScriptRef,
    pub inputs: Vec<u64>,
}

impl NoteRecipient {
    pub open spec fn wf(self) -> bool {
        self.serial_num.wf() && self.script.wf() && all_felts(self.inputs@)
            && self.inputs@.len() <= MAX_NOTE_INPUTS
    }

    /// The recipient digest: the hash of the serial number, the script
    /// root and the inputs commitment.
    pub open spec fn digest_spec(self) -> Seq<u64> {
        rpo_hash_of(
            self.serial_num.to_elements() + self.script.root.to_elements()
                + rpo_hash_of(self.inputs@),
        )
    }

    /// Computes the recipient digest.
    pub fn digest(&self) -> (r: Word)
        requires
            self.wf(),
        ensures
            r.to_elements() == self.digest_spec(),
            r.wf(),
    {
        let inner = rpo_hash(&self.inputs);
        let mut elems: Vec<u64> = Vec::new();
        self.serial_num.push_elements(&mut elems);
        self.script.root.push_elements(&mut elems);
        inner.push_elements(&mut elems);
        proof {
            assert(elems@ =~= self.serial_num.to_elements() + self.script.root.to_elements()
                + inner.to_elements());
            assert forall|i: int| 0 <= i < elems@.len() implies is_felt(#[trigger] elems@[i]) by {
                if i < 4 {
                    assert(elems@[i] == self.serial_num.to_elements()[i]);
                } else if i < 8 {
                    assert(elems@[i] == self.script.root.to_elements()[i - 4]);
                } else {
                    assert(elems@[i] == inner.to_elements()[i - 8]);
                }
            }
        }
        rpo_hash(&elems)
    }
}

/// One asset as the four field elements that enter the vault commitment.
pub open spec fn asset_elements(a: FungibleAsset) -> Seq<u64> {
    seq![a.faucet_id.prefix, a.faucet_id.suffix, 0u64, a.amount]
}

/// A whole asset list flattened into field elements, in order.
pub open spec fn vault_elements(assets: Seq<FungibleAsset>) -> Seq<u64>
    decreases assets.len(),
{
    if assets.len() == 0 {
        Seq::empty()
    } else {
        asset_elements(assets[0]) + vault_elements(assets.drop_first())
    }
}

/// Flattening distributes over appending one asset.
pub proof fn lemma_vault_elements_snoc(assets: Seq<FungibleAsset>, a: FungibleAsset)
    ensures
        vault_elements(assets.push(a)) == vault_elements(assets) + asset_elements(a),
    decreases assets.len(),
{
    let snoc = assets.push(a);
    if assets.len() == 0 {
        assert(snoc[0] == a);
        assert(snoc.drop_first() =~= Seq::<FungibleAsset>::empty());
        assert(vault_elements(snoc) == asset_elements(a) + vault_elements(snoc.drop_first()));
        assert(vault_elements(snoc.drop_first()) == Seq::<u64>::empty());
        assert(vault_elements(assets) == Seq::<u64>::empty());
        assert(asset_elements(a) + Seq::<u64>::empty() =~= Seq::<u64>::empty() + asset_elements(a));
    } else {
        assert(snoc[0] == assets[0]);
        assert(snoc.drop_first() =~= assets.drop_first().push(a));
        lemma_vault_elements_snoc(assets.drop_first(), a);
        assert(vault_elements(snoc) == asset_elements(assets[0]) + vault_elements(snoc.drop_first()));
        assert(vault_elements(snoc.drop_first())
            == vault_elements(assets.drop_first()) + asset_elements(a));
        assert(vault_elements(assets)
            == asset_elements(assets[0]) + vault_elements(assets.drop_first()));
        assert(asset_elements(assets[0]) + (vault_elements(assets.drop_first()) + asset_elements(a))
            =~= (asset_elements(assets[0]) + vault_elements(assets.drop_first()))
                + asset_elements(a));
    }
}

/// A committed, self-contained transfer unit.
#[derive(Clone, Debug)]
pub struct Note {
    pub vault: NoteAssets,
    pub metadata: NoteMetadata,
    pub recipient: NoteRecipient,
}

impl Note {
    pub open spec fn wf(self) -> bool {
        self.vault.wf() && self.metadata.wf() && self.recipient.wf()
    }

    /// The note commitment: the hash over the vault commitment, the
    /// metadata elements and the recipient digest.  A function of the
    /// three parts and of nothing else.
    pub open spec fn commitment_spec(self) -> Seq<u64> {
        rpo_hash_of(
            rpo_hash_of(vault_elements(self.vault.assets@)) + self.metadata.to_elements()
                + self.recipient.digest_spec(),
        )
    }

    /// Computes the note commitment.
    pub fn commitment(&self) -> (r: Word)
        requires
            self.wf(),
        ensures
            r.to_elements() == self.commitment_spec(),
            r.wf(),
    {
        let mut flat: Vec<u64> = Vec::new();
        let n = self.vault.assets.len();
        let mut i: usize = 0;
        proof {
            assert(self.vault.assets@.subrange(0, 0) =~= Seq::<FungibleAsset>::empty());
        }
        while i < n
            invariant
                self.wf(),
                n == self.vault.assets@.len(),
                i <= n,
                flat@ == vault_elements(self.vault.assets@.subrange(0, i as int)),
                all_felts(flat@),
            decreases n - i,
        {
            let a = self.vault.assets[i];
            proof {
                assert(self.vault.assets@[i as int].wf());
            }
            let ghost before = flat@;
            flat.push(a.faucet_id.prefix);
            flat.push(a.faucet_id.suffix);
            flat.push(0);
            flat.push(a.amount);
            proof {
                let taken = self.vault.assets@.subrange(0, i as int);
                assert(self.vault.assets@.subrange(0, i as int + 1) =~= taken.push(a));
                lemma_vault_elements_snoc(taken, a);
                assert(flat@ =~= before + asset_elements(a));
                assert forall|k: int| 0 <= k < flat@.len() implies is_felt(#[trigger] flat@[k]) by {
                    if k < before.len() {
                        assert(flat@[k] == before[k]);
                    } else {
                        assert(flat@[k] == asset_elements(a)[k - before.len()]);
                        assert(a.amount < FIELD_MODULUS);
                    }
                }
            }
            i = i + 1;
        }
        proof {
            assert(self.vault.assets@.subrange(0, n as int) =~= self.vault.assets@);
        }
        let vault_commitment = rpo_hash(&flat);
        let recipient_digest = self.recipient.digest();
        let mut elems: Vec<u64> = Vec::new();
        vault_commitment.push_elements(&mut elems);
        elems.push(self.metadata.sender.prefix);
        elems.push(self.metadata.sender.suffix);
        let flags = self.packed_flags_exec();
        elems.push(flags);
        elems.push(self.metadata.aux);
        recipient_digest.push_elements(&mut elems);
        proof {
            assert(elems@ =~= vault_commitment.to_elements() + self.metadata.to_elements()
                + recipient_digest.to_elements());
            assert forall|k: int| 0 <= k < elems@.len() implies is_felt(#[trigger] elems@[k]) by {
                if k < 4 {
                    assert(elems@[k] == vault_commitment.to_elements()[k]);
                } else if k < 8 {
                    assert(elems@[k] == self.metadata.to_elements()[k - 4]);
                } else {
                    assert(elems@[k] == recipient_digest.to_elements()[k - 8]);
                }
            }
        }
        rpo_hash(&elems)
    }

    /// Computes the packed tag, type and hint element.
    fn packed_flags_exec(&self) -> (r: u64)
        ensures
            r == self.metadata.packed_flags(),
            is_felt(r),
    {
        let type_code: u64 = match self.metadata.note_type {
            NoteType::Public => 1,
            NoteType::Private => 2,
        };
        let hint: u64 = match self.metadata.execution_hint {
            NoteExecutionHint::Always => 1,
        };
        (self.metadata.tag as u64) + type_code * 0x1_0000_0000 + hint * 0x100_0000_0000
    }
}

/// Commitment determinism: any two notes with identical vault, metadata
/// and recipient fields have identical commitments, however and whenever
/// each was constructed.
pub proof fn lemma_commitment_deterministic(a: Note, b: Note)
    requires
        a.vault.assets@ == b.vault.assets@,
        a.metadata == b.metadata,
        a.recipient.serial_num == b.recipient.serial_num,
        a.recipient.script == b.recipient.script,
        a.recipient.inputs@ == b.recipient.inputs@,
    ensures
        a.commitment_spec() == b.commitment_spec(),
        a.recipient.digest_spec() == b.recipient.digest_spec(),
{
}

/// The digest a mint note is coupled to: its first four input elements.
pub open spec fn mint_target_digest(mint: Note) -> Seq<u64> {
    mint.recipient.inputs@.subrange(0, 4)
}

/// A mint note funds exactly the notes whose recipient digest equals the
/// digest it carries.
pub open spec fn funds(mint: Note, target: Note) -> bool {
    mint_target_digest(mint) == target.recipient.digest_spec()
}

/// Digest coupling is the sole linking key: two target notes with equal
/// recipient digests are funded alike by any mint note, whatever their
/// other fields and wherever each object lives.
pub proof fn lemma_digest_is_sole_link(mint: Note, t1: Note, t2: Note)
    requires
        t1.recipient.digest_spec() == t2.recipient.digest_spec(),
    ensures
        funds(mint, t1) == funds(mint, t2),
{
}

/// Decides whether `mint` funds `target`, by digest equality alone.
pub fn check_coupling(mint: &Note, target: &Note) -> (r: bool)
    requires
        mint.wf(),
        target.wf(),
        mint.recipient.inputs@.len() >= 4,
    ensures
        r == funds(*mint, *target),
{
    let d = target.recipient.digest();
    let m0 = mint.recipient.inputs[0];
    let m1 = mint.recipient.inputs[1];
    let m2 = mint.recipient.inputs[2];
    let m3 = mint.recipient.inputs[3];
    let same = m0 == d.e0 && m1 == d.e1 && m2 == d.e2 && m3 == d.e3;
    proof {
        let carried = mint_target_digest(*mint);
        assert(carried.len() == 4);
        assert(carried[0] == m0 && carried[1] == m1 && carried[2] == m2 && carried[3] == m3);
        if same {
            assert(carried =~= d.to_elements());
        } else {
            assert(carried != d.to_elements());
        }
    }
    same
}

/// Builds the two transfer-note shapes from the well-known scripts the
/// registry supplied; pure over its inputs, no hidden state.
#[derive(Clone, Copy, PartialEq, Eq, Structural, Debug)]
pub struct NoteFactory {
    pub p2id_script: NoteScriptRef,
    pub mint_script: NoteScriptRef,
}

impl NoteFactory {
    pub open spec fn wf(self) -> bool {
        self.p2id_script.wf() && self.mint_script.wf()
    }

    /// A factory over the registry-supplied pay-to-id and issuance
    /// scripts.
    pub fn new(p2id_script: NoteScriptRef, mint_script: NoteScriptRef) -> (r: Result<NoteFactory, NoteConstructionError>)
        ensures
            r is Ok <==> p2id_script.wf() && mint_script.wf(),
            r matches Ok(f) ==> f == (NoteFactory { p2id_script, mint_script }),
            r is Err ==> r == Err::<NoteFactory, NoteConstructionError>(
                NoteConstructionError::InvalidFieldElement,
            ),
    {
        if p2id_script.root.e0 >= FIELD_MODULUS || p2id_script.root.e1 >= FIELD_MODULUS
            || p2id_script.root.e2 >= FIELD_MODULUS || p2id_script.root.e3 >= FIELD_MODULUS
            || mint_script.root.e0 >= FIELD_MODULUS || mint_script.root.e1 >= FIELD_MODULUS
            || mint_script.root.e2 >= FIELD_MODULUS || mint_script.root.e3 >= FIELD_MODULUS {
            Err(NoteConstructionError::InvalidFieldElement)
        } else {
            Ok(NoteFactory { p2id_script, mint_script })
        }
    }

    /// Builds a pay-to-id note: a note consumable only by `target`.  The
    /// routing tag is derived deterministically from `target`; the note
    /// inputs are the two-element decomposition of the target identifier,
    /// suffix first; the serial number is caller-supplied — drawn from a
    /// secure source for private notes, or fixed where determinism across
    /// runs is wanted.
    pub fn build_p2id_note(
        &self,
        sender: AccountId,
        target: AccountId,
        assets: Vec<FungibleAsset>,
        note_type: NoteType,
        aux: u64,
        serial_num: Word,
    ) -> (r: Result<Note, NoteConstructionError>)
        requires
            self.wf(),
        ensures
            r is Ok <==> sender.wf() && target.wf() && is_felt(aux) && serial_num.wf()
                && assets@.len() > 0 && vault_wf(assets@),
            r matches Ok(n) ==> {
                &&& n.vault.assets@ == assets@
                &&& n.metadata == (NoteMetadata {
                    sender,
                    note_type,
                    tag: tag_for_spec(target),
                    execution_hint: NoteExecutionHint::Always,
                    aux,
                })
                &&& n.recipient.serial_num == serial_num
                &&& n.recipient.script == self.p2id_script
                &&& n.recipient.inputs@ == seq![target.suffix, target.prefix]
                &&& n.wf()
            },
            !(sender.wf() && target.wf() && is_felt(aux) && serial_num.wf())
                ==> r == Err::<Note, NoteConstructionError>(
                    NoteConstructionError::InvalidFieldElement,
                ),
            sender.wf() && target.wf() && is_felt(aux) && serial_num.wf() ==> {
                &&& (r == Err::<Note, NoteConstructionError>(NoteConstructionError::EmptyVault)
                    <==> assets@.len() == 0)
                &&& (r == Err::<Note, NoteConstructionError>(NoteConstructionError::DuplicateFaucet)
                    <==> assets@.len() > 0 && all_assets_wf(assets@) && !distinct_faucets(assets@))
                &&& ((r == Err::<Note, NoteConstructionError>(NoteConstructionError::InvalidFieldElement)
                        || r == Err::<Note, NoteConstructionError>(NoteConstructionError::InvalidAmount))
                    <==> assets@.len() > 0 && !all_assets_wf(assets@))
            },
    {
        if sender.prefix >= FIELD_MODULUS || sender.suffix >= FIELD_MODULUS
            || target.prefix >= FIELD_MODULUS || target.suffix >= FIELD_MODULUS
            || aux >= FIELD_MODULUS
            || serial_num.e0 >= FIELD_MODULUS || serial_num.e1 >= FIELD_MODULUS
            || serial_num.e2 >= FIELD_MODULUS || serial_num.e3 >= FIELD_MODULUS {
            return Err(NoteConstructionError::InvalidFieldElement);
        }
        let vault = match NoteAssets::new(assets) {
            Ok(v) => v,
            Err(e) => {
                return Err(e);
            },
        };
        let mut inputs: Vec<u64> = Vec::new();
        inputs.push(target.suffix);
        inputs.push(target.prefix);
        proof {
            assert(inputs@ =~= seq![target.suffix, target.prefix]);
        }
        let recipient = NoteRecipient { serial_num, script: self.p2id_script, inputs };
        let tag = tag_for(target);
        let metadata = NoteMetadata {
            sender,
            note_type,
            tag,
            execution_hint: NoteExecutionHint::Always,
            aux,
        };
        Ok(Note { vault, metadata, recipient })
    }

    /// Builds an issuance note: it instructs `faucet_id` to mint `amount`
    /// units for the already-built target note identified by
    /// `recipient_digest`.  The digest — never an object reference — is
    /// the sole link to the target: a mismatched digest is not an error
    /// here, it merely yields a note no intended target can consume.  The
    /// serial number is the mint note's own and is never reused from the
    /// target.
    pub fn build_mint_note(
        &self,
        faucet_id: AccountId,
        owner_id: AccountId,
        recipient_digest: Word,
        output_tag: u32,
        amount: u64,
        aux1: u64,
        aux2: u64,
        serial_num: Word,
    ) -> (r: Result<Note, NoteConstructionError>)
        requires
            self.wf(),
        ensures
            r is Ok <==> recipient_digest.wf() && faucet_id.wf() && owner_id.wf()
                && is_felt(aux1) && is_felt(aux2) && serial_num.wf()
                && 0 < amount && amount <= MAX_ASSET_AMOUNT,
            r matches Ok(n) ==> {
                &&& n.vault.assets@ == seq![FungibleAsset { faucet_id, amount }]
                &&& n.metadata == (NoteMetadata {
                    sender: faucet_id,
                    note_type: NoteType::Public,
                    tag: output_tag,
                    execution_hint: NoteExecutionHint::Always,
                    aux: aux1,
                })
                &&& n.recipient.serial_num == serial_num
                &&& n.recipient.script == self.mint_script
                &&& n.recipient.inputs@ == seq![
                    recipient_digest.e0,
                    recipient_digest.e1,
                    recipient_digest.e2,
                    recipient_digest.e3,
                    output_tag as u64,
                    amount,
                    aux2,
                    owner_id.suffix,
                    owner_id.prefix,
                ]
                &&& mint_target_digest(n) == recipient_digest.to_elements()
                &&& n.wf()
            },
            r == Err::<Note, NoteConstructionError>(NoteConstructionError::MalformedDigest)
                <==> !recipient_digest.wf(),
            recipient_digest.wf()
                && !(faucet_id.wf() && owner_id.wf() && is_felt(aux1) && is_felt(aux2)
                    && serial_num.wf())
                ==> r == Err::<Note, NoteConstructionError>(
                    NoteConstructionError::InvalidFieldElement,
                ),
            recipient_digest.wf() && faucet_id.wf() && owner_id.wf() && is_felt(aux1)
                && is_felt(aux2) && serial_num.wf()
                && !(0 < amount && amount <= MAX_ASSET_AMOUNT)
                ==> r == Err::<Note, NoteConstructionError>(NoteConstructionError::InvalidAmount),
    {
        if recipient_digest.e0 >= FIELD_MODULUS || recipient_digest.e1 >= FIELD_MODULUS
            || recipient_digest.e2 >= FIELD_MODULUS || recipient_digest.e3 >= FIELD_MODULUS {
            return Err(NoteConstructionError::MalformedDigest);
        }
        if faucet_id.prefix >= FIELD_MODULUS || faucet_id.suffix >= FIELD_MODULUS
            || owner_id.prefix >= FIELD_MODULUS || owner_id.suffix >= FIELD_MODULUS
            || aux1 >= FIELD_MODULUS || aux2 >= FIELD_MODULUS
            || serial_num.e0 >= FIELD_MODULUS || serial_num.e1 >= FIELD_MODULUS
            || serial_num.e2 >= FIELD_MODULUS || serial_num.e3 >= FIELD_MODULUS {
            return Err(NoteConstructionError::InvalidFieldElement);
        }
        if amount == 0 || amount > MAX_ASSET_AMOUNT {
            return Err(NoteConstructionError::InvalidAmount);
        }
        let mut minted: Vec<FungibleAsset> = Vec::new();
        minted.push(FungibleAsset { faucet_id, amount });
        proof {
            assert(minted@ =~= seq![FungibleAsset { faucet_id, amount }]);
            assert(minted@[0].wf());
        }
        let vault = NoteAssets { assets: minted };
        let mut inputs: Vec<u64> = Vec::new();
        inputs.push(recipient_digest.e0);
        inputs.push(recipient_digest.e1);
        inputs.push(recipient_digest.e2);
        inputs.push(recipient_digest.e3);
        inputs.push(output_tag as u64);
        inputs.push(amount);
        inputs.push(aux2);
        inputs.push(owner_id.suffix);
        inputs.push(owner_id.prefix);
        proof {
            assert(inputs@ =~= seq![
                recipient_digest.e0,
                recipient_digest.e1,
                recipient_digest.e2,
                recipient_digest.e3,
                output_tag as u64,
                amount,
                aux2,
                owner_id.suffix,
                owner_id.prefix,
            ]);
            assert((output_tag as u64) < FIELD_MODULUS);
        }
        let recipient = NoteRecipient { serial_num, script: self.mint_script, inputs };
        let metadata = NoteMetadata {
            sender: faucet_id,
            note_type: NoteType::Public,
            tag: output_tag,
            execution_hint: NoteExecutionHint::Always,
            aux: aux1,
        };
        let built = Note { vault, metadata, recipient };
        proof {
            assert(mint_target_digest(built) =~= recipient_digest.to_elements());
        }
        Ok(built)
    }
}

} // verus!
