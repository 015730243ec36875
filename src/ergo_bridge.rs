//! The UTXO side of the Ergo bridge: boxes, a UTXO set indexed by owner, and
//! the byte layouts of the bridge's contracts.
use vstd::prelude::*;
use vstd::utf8::encode_utf8;
use crate::core_types::{Block, BlockMiner, WalletAddress, ONE_RTC};
use crate::hashing::{
    append_bytes, bytes_equal, hex_encode, hex_of, le_bytes, sha256, sha256_of, u64_le_bytes,
};
use crate::proof_of_antiquity::{fingerprint_of, hash_hardware, ValidatedProof};

verus! {

/// Identifier of a box: the digest of its contents.
pub type BoxId = [u8; 32];

/// A token held in a box.
#[derive(Debug, Clone, Copy)]
pub struct Token {
    pub token_id: [u8; 32],
    pub amount: u64,
}

/// Values a register can hold.
#[derive(Debug, Clone)]
pub enum RegisterValue {
    Long(i64),
    ByteArray(Vec<u8>),
    GroupElement(Vec<u8>),
    /// A collection of values, each in its serialized form.
    Collection(Vec<Vec<u8>>),
}

/// A named register of a box (R4 to R9).
#[derive(Debug, Clone)]
pub struct Register {
    pub name: String,
    pub value: RegisterValue,
}

/// An unspent output.
#[derive(Debug, Clone)]
pub struct Box {
    pub box_id: BoxId,
    /// Value in nano-units.
    pub value: u64,
    /// Spending condition.
    pub ergo_tree: Vec<u8>,
    pub creation_height: u64,
    pub tokens: Vec<Token>,
    /// Additional registers, at most one per name.
    pub additional_registers: Vec<Register>,
    pub transaction_id: [u8; 32],
    pub index: u16,
}

/// The bytes of a box's tokens: each id followed by its amount in eight
/// little-endian bytes.
pub open spec fn tokens_bytes(ts: Seq<Token>) -> Seq<u8>
    decreases ts.len(),
{
    if ts.len() == 0 {
        Seq::empty()
    } else {
        tokens_bytes(ts.drop_last()) + ts.last().token_id@ + le_bytes(ts.last().amount as nat, 8)
    }
}

/// The bytes whose digest is a box's id: value, tree, creation height and tokens.
pub open spec fn box_id_preimage(value: u64, tree: Seq<u8>, height: u64, tokens: Seq<Token>) -> Seq<
    u8,
> {
    le_bytes(value as nat, 8) + tree + le_bytes(height as nat, 8) + tokens_bytes(tokens)
}

/// The spending condition of a wallet: a two-byte header and the address.
pub open spec fn wallet_tree(address: Seq<char>) -> Seq<u8> {
    seq![0x00u8, 0x08u8] + encode_utf8(address)
}

impl Box {
    /// A box with the given contents, no registers, and its id computed from
    /// its contents.
    pub fn new(value: u64, ergo_tree: Vec<u8>, creation_height: u64, tokens: Vec<Token>) -> (r: Self)
        ensures
            r.value == value,
            r.ergo_tree == ergo_tree,
            r.creation_height == creation_height,
            r.tokens == tokens,
            r.additional_registers@.len() == 0,
            r.transaction_id@ == Seq::new(32, |i: int| 0u8),
            r.index == 0,
            r.box_id@ == sha256_of(box_id_preimage(value, ergo_tree@, creation_height, tokens@)),
    {
        let mut data: Vec<u8> = Vec::new();
        let v = u64_le_bytes(value);
        append_bytes(&mut data, v.as_slice());
        append_bytes(&mut data, ergo_tree.as_slice());
        let h = u64_le_bytes(creation_height);
        append_bytes(&mut data, h.as_slice());
        let mut i: usize = 0;
        proof {
            assert(tokens@.take(0) =~= Seq::<Token>::empty());
        }
        while i < tokens.len()
            invariant
                i <= tokens@.len(),
                data@ == le_bytes(value as nat, 8) + ergo_tree@ + le_bytes(creation_height as nat, 8)
                    + tokens_bytes(tokens@.take(i as int)),
            decreases tokens@.len() - i,
        {
            let ghost before = data@;
            let t = tokens[i];
            append_bytes(&mut data, &t.token_id);
            let a = u64_le_bytes(t.amount);
            append_bytes(&mut data, a.as_slice());
            proof {
                assert(tokens@.take(i + 1).drop_last() == tokens@.take(i as int));
                assert(tokens@.take(i + 1).last() == t);
                assert(data@ =~= le_bytes(value as nat, 8) + ergo_tree@ + le_bytes(
                    creation_height as nat,
                    8,
                ) + tokens_bytes(tokens@.take(i + 1)));
            }
            i = i + 1;
        }
        proof {
            assert(tokens@.take(tokens@.len() as int) == tokens@);
            assert(data@ =~= box_id_preimage(value, ergo_tree@, creation_height, tokens@));
        }
        let box_id = sha256(data.as_slice());
        let transaction_id = [0u8; 32];
        proof {
            assert(transaction_id@ =~= Seq::new(32, |i: int| 0u8));
        }
        Box {
            box_id,
            value,
            ergo_tree,
            creation_height,
            tokens,
            additional_registers: Vec::new(),
            transaction_id,
            index: 0,
        }
    }

    /// The spending condition that pays a wallet.
    pub fn wallet_to_ergo_tree(wallet: &WalletAddress) -> (r: Vec<u8>)
        ensures
            r@ == wallet_tree(wallet.0@),
    {
        let mut tree: Vec<u8> = Vec::new();
        tree.push(0x00u8);
        tree.push(0x08u8);
        append_bytes(&mut tree, wallet.0.as_str().as_bytes());
        proof {
            assert(tree@ =~= wallet_tree(wallet.0@));
        }
        tree
    }
}

/// A box in the UTXO set with the address that owns it.
#[derive(Debug)]
pub struct UtxoEntry {
    pub owner: String,
    pub utxo: Box,
}

/// The entries other than the box `id`, in order.
pub open spec fn entries_without(es: Seq<UtxoEntry>, id: Seq<u8>) -> Seq<UtxoEntry> {
    es.filter(|e: UtxoEntry| e.utxo.box_id@ != id)
}

/// The box with the given id, if any.
pub open spec fn box_with_id(es: Seq<UtxoEntry>, id: Seq<u8>) -> Option<Box>
    decreases es.len(),
{
    if es.len() == 0 {
        None
    } else if es.last().utxo.box_id@ == id {
        Some(es.last().utxo)
    } else {
        box_with_id(es.drop_last(), id)
    }
}

/// The boxes owned by `address`, in order.
pub open spec fn owned_boxes(es: Seq<UtxoEntry>, address: Seq<char>) -> Seq<Box>
    decreases es.len(),
{
    if es.len() == 0 {
        Seq::empty()
    } else if es.last().owner@ == address {
        owned_boxes(es.drop_last(), address).push(es.last().utxo)
    } else {
        owned_boxes(es.drop_last(), address)
    }
}

/// The total value of a list of boxes.
pub open spec fn total_value(bs: Seq<Box>) -> nat
    decreases bs.len(),
{
    if bs.len() == 0 {
        0
    } else {
        total_value(bs.drop_last()) + bs.last().value as nat
    }
}

/// The set of unspent boxes, each with its owner.
#[derive(Debug)]
pub struct UtxoSet {
    entries: Vec<UtxoEntry>,
}

fn retain_other_boxes(es: Vec<UtxoEntry>, id: &BoxId) -> (r: (Vec<UtxoEntry>, Option<Box>))
    ensures
        r.0@ == entries_without(es@, id@),
        r.1 == box_with_id(es@, id@),
{
    let ghost orig = es@;
    let mut out: Vec<UtxoEntry> = Vec::new();
    let mut found: Option<Box> = None;
    let mut rest = es;
    let n = rest.len();
    let mut i: usize = 0;
    proof {
        assert(orig.take(0) =~= Seq::<UtxoEntry>::empty());
        reveal(Seq::filter);
    }
    while rest.len() > 0
        invariant
            i + rest@.len() == n,
            n == orig.len(),
            rest@ == orig.subrange(i as int, n as int),
            out@ == orig.take(i as int).filter(|e: UtxoEntry| e.utxo.box_id@ != id@),
            found == box_with_id(orig.take(i as int), id@),
        decreases rest@.len(),
    {
        let e = rest.remove(0);
        proof {
            assert(e == orig[i as int]);
            assert(orig.take(i + 1) == orig.take(i as int).push(e));
            assert(orig.take(i + 1).drop_last() == orig.take(i as int));
            orig.take(i as int).lemma_filter_push(e, |e: UtxoEntry| e.utxo.box_id@ != id@);
        }
        if bytes_equal(&e.utxo.box_id, id) {
            found = Some(e.utxo);
        } else {
            out.push(e);
        }
        i = i + 1;
    }
    proof {
        assert(orig.take(n as int) == orig);
    }
    (out, found)
}

impl UtxoSet {
    /// The boxes with their owners, in order of arrival.
    pub closed spec fn entries(&self) -> Seq<UtxoEntry> {
        self.entries@
    }

    /// An empty set.
    pub fn new() -> (r: Self)
        ensures
            r.entries().len() == 0,
    {
        UtxoSet { entries: Vec::new() }
    }

    /// Adds a box owned by `owner_address`, replacing a box with the same id.
    pub fn add_box(&mut self, b: Box, owner_address: &str)
        ensures
            final(self).entries().len() > 0,
            final(self).entries() == entries_without(old(self).entries(), b.box_id@).push(
                final(self).entries().last(),
            ),
            final(self).entries().last().utxo == b,
            final(self).entries().last().owner@ == owner_address@,
    {
        let mut old_entries: Vec<UtxoEntry> = Vec::new();
        std::mem::swap(&mut old_entries, &mut self.entries);
        let (mut kept, _) = retain_other_boxes(old_entries, &b.box_id);
        kept.push(UtxoEntry { owner: owner_address.to_owned(), utxo: b });
        self.entries = kept;
    }

    /// Spends the box `box_id`: removes and returns it, or `None` when absent.
    pub fn spend_box(&mut self, box_id: &BoxId) -> (r: Option<Box>)
        ensures
            r == box_with_id(old(self).entries(), box_id@),
            final(self).entries() == entries_without(old(self).entries(), box_id@),
    {
        let mut old_entries: Vec<UtxoEntry> = Vec::new();
        std::mem::swap(&mut old_entries, &mut self.entries);
        let (kept, found) = retain_other_boxes(old_entries, box_id);
        self.entries = kept;
        found
    }

    /// The box `box_id`, if unspent.
    pub fn get_box(&self, box_id: &BoxId) -> (r: Option<&Box>)
        ensures
            match box_with_id(self.entries(), box_id@) {
                Some(b) => r matches Some(x) && *x == b,
                None => r is None,
            },
    {
        let mut i: usize = self.entries.len();
        proof {
            assert(self.entries@.take(i as int) == self.entries@);
        }
        while i > 0
            invariant
                i <= self.entries@.len(),
                box_with_id(self.entries@, box_id@) == box_with_id(
                    self.entries@.take(i as int),
                    box_id@,
                ),
            decreases i,
        {
            proof {
                assert(self.entries@.take(i as int).drop_last() == self.entries@.take(i - 1));
                assert(self.entries@.take(i as int).last() == self.entries@[i - 1]);
            }
            if bytes_equal(&self.entries[i - 1].utxo.box_id, box_id) {
                return Some(&self.entries[i - 1].utxo);
            }
            i = i - 1;
        }
        proof {
            assert(self.entries@.take(0) =~= Seq::<UtxoEntry>::empty());
        }
        None
    }

    /// The boxes owned by `address`, in order of arrival.
    pub fn get_boxes_for_address(&self, address: &str) -> (r: Vec<&Box>)
        ensures
            r@.len() == owned_boxes(self.entries(), address@).len(),
            forall|i: int| 0 <= i < r@.len() ==> *r@[i] == owned_boxes(self.entries(), address@)[i],
    {
        let key = address.to_owned();
        let mut out: Vec<&Box> = Vec::new();
        let mut i: usize = 0;
        while i < self.entries.len()
            invariant
                key@ == address@,
                i <= self.entries@.len(),
                out@.len() == owned_boxes(self.entries@.take(i as int), address@).len(),
                forall|k: int|
                    0 <= k < out@.len() ==> *out@[k] == owned_boxes(
                        self.entries@.take(i as int),
                        address@,
                    )[k],
            decreases self.entries@.len() - i,
        {
            proof {
                assert(self.entries@.take(i + 1).drop_last() == self.entries@.take(i as int));
                assert(self.entries@.take(i + 1).last() == self.entries@[i as int]);
            }
            if self.entries[i].owner == key {
                out.push(&self.entries[i].utxo);
            }
            i = i + 1;
        }
        proof {
            assert(self.entries@.take(self.entries@.len() as int) == self.entries@);
        }
        out
    }

    /// The total value of the boxes owned by `address`, held at the largest
    /// `u64`.
    pub fn get_balance(&self, address: &str) -> (r: u64)
        ensures
            r == if total_value(owned_boxes(self.entries(), address@)) > u64::MAX {
                u64::MAX as nat
            } else {
                total_value(owned_boxes(self.entries(), address@))
            },
    {
        let boxes = self.get_boxes_for_address(address);
        let ghost owned = owned_boxes(self.entries(), address@);
        let mut sum: u128 = 0;
        let mut i: usize = 0;
        while i < boxes.len()
            invariant
                i <= boxes@.len(),
                boxes@.len() == owned.len(),
                forall|k: int| 0 <= k < boxes@.len() ==> *boxes@[k] == owned[k],
                sum == total_value(owned.take(i as int)),
                sum <= i * 0xFFFF_FFFF_FFFF_FFFFu128,
                i <= usize::MAX,
            decreases boxes@.len() - i,
        {
            proof {
                assert(owned.take(i + 1).drop_last() == owned.take(i as int));
                assert(owned.take(i + 1).last() == owned[i as int]);
            }
            sum = sum + boxes[i].value as u128;
            i = i + 1;
        }
        proof {
            assert(owned.take(owned.len() as int) == owned);
        }
        if sum > u64::MAX as u128 {
            u64::MAX
        } else {
            sum as u64
        }
    }
}

/// Layout of the mining reward contract: version 1, the miner's key, the
/// minimum antiquity score as the eight little-endian bytes of its IEEE-754
/// bit pattern.
pub open spec fn reward_contract_bytes(pk: Seq<u8>, min_bits: u64) -> Seq<u8> {
    seq![0x01u8] + pk + le_bytes(min_bits as nat, 8)
}

/// Mining reward contract; the minimum score is given by its `f64` bit
/// pattern.
pub fn mining_reward_contract(miner_pk: [u8; 33], min_antiquity_bits: u64) -> (r: Vec<u8>)
    ensures
        r@ == reward_contract_bytes(miner_pk@, min_antiquity_bits),
{
    let mut contract: Vec<u8> = Vec::new();
    contract.push(0x01u8);
    append_bytes(&mut contract, &miner_pk);
    let bits = u64_le_bytes(min_antiquity_bits);
    append_bytes(&mut contract, bits.as_slice());
    proof {
        assert(contract@ =~= reward_contract_bytes(miner_pk@, min_antiquity_bits));
    }
    contract
}

/// Layout of the governance vote contract: version 2, proposal id, voting end
/// height in eight little-endian bytes.
pub open spec fn vote_contract_bytes(proposal_id: Seq<char>, end: u64) -> Seq<u8> {
    seq![0x02u8] + encode_utf8(proposal_id) + le_bytes(end as nat, 8)
}

/// Governance vote contract.
pub fn governance_vote_contract(proposal_id: &str, voting_end_height: u64) -> (r: Vec<u8>)
    ensures
        r@ == vote_contract_bytes(proposal_id@, voting_end_height),
{
    let mut contract: Vec<u8> = Vec::new();
    contract.push(0x02u8);
    append_bytes(&mut contract, proposal_id.as_bytes());
    let end = u64_le_bytes(voting_end_height);
    append_bytes(&mut contract, end.as_slice());
    proof {
        assert(contract@ =~= vote_contract_bytes(proposal_id@, voting_end_height));
    }
    contract
}

/// Layout of the badge minting contract: version 3, badge kind, recipient key.
pub open spec fn badge_contract_bytes(badge_type: Seq<char>, pk: Seq<u8>) -> Seq<u8> {
    seq![0x03u8] + encode_utf8(badge_type) + pk
}

/// Badge minting contract.
pub fn badge_mint_contract(badge_type: &str, recipient_pk: [u8; 33]) -> (r: Vec<u8>)
    ensures
        r@ == badge_contract_bytes(badge_type@, recipient_pk@),
{
    let mut contract: Vec<u8> = Vec::new();
    contract.push(0x03u8);
    append_bytes(&mut contract, badge_type.as_bytes());
    append_bytes(&mut contract, &recipient_pk);
    proof {
        assert(contract@ =~= badge_contract_bytes(badge_type@, recipient_pk@));
    }
    contract
}

/// Layout of the time-locked release contract: version 4, recipient key,
/// unlock height in eight little-endian bytes.
pub open spec fn timelock_contract_bytes(pk: Seq<u8>, unlock: u64) -> Seq<u8> {
    seq![0x04u8] + pk + le_bytes(unlock as nat, 8)
}

/// Time-locked release contract.
pub fn timelock_contract(recipient_pk: [u8; 33], unlock_height: u64) -> (r: Vec<u8>)
    ensures
        r@ == timelock_contract_bytes(recipient_pk@, unlock_height),
{
    let mut contract: Vec<u8> = Vec::new();
    contract.push(0x04u8);
    append_bytes(&mut contract, &recipient_pk);
    let unlock = u64_le_bytes(unlock_height);
    append_bytes(&mut contract, unlock.as_slice());
    proof {
        assert(contract@ =~= timelock_contract_bytes(recipient_pk@, unlock_height));
    }
    contract
}

/// Layout of the cross-chain bridge contract: version 5, source address, a
/// zero separator, destination address, amount in eight little-endian bytes.
pub open spec fn bridge_contract_bytes(rtc: Seq<char>, erg: Seq<char>, amount: u64) -> Seq<u8> {
    seq![0x05u8] + encode_utf8(rtc) + seq![0x00u8] + encode_utf8(erg) + le_bytes(amount as nat, 8)
}

/// Cross-chain bridge contract.
pub fn bridge_contract(rtc_address: &str, erg_address: &str, amount: u64) -> (r: Vec<u8>)
    ensures
        r@ == bridge_contract_bytes(rtc_address@, erg_address@, amount),
{
    let mut contract: Vec<u8> = Vec::new();
    contract.push(0x05u8);
    append_bytes(&mut contract, rtc_address.as_bytes());
    contract.push(0x00u8);
    append_bytes(&mut contract, erg_address.as_bytes());
    let a = u64_le_bytes(amount);
    append_bytes(&mut contract, a.as_slice());
    proof {
        assert(contract@ =~= bridge_contract_bytes(rtc_address@, erg_address@, amount));
    }
    contract
}

/// One context variable of an input.
#[derive(Debug, Clone)]
pub struct ContextVariable {
    pub name: String,
    pub value: Vec<u8>,
}

/// What authorizes spending a box.
#[derive(Debug, Clone)]
pub enum SpendingProof {
    /// No proof (genesis and special cases).
    Empty,
    /// A signature: proof of knowledge of a discrete log.
    ProofOfDLog { signature: Vec<u8> },
    /// Signatures of an m-of-n threshold.
    Threshold { signatures: Vec<Vec<u8>> },
    /// A proof of antiquity; the score is in hundredths.
    AntiquityProof { hardware_hash: String, antiquity_score: u64, entropy_hash: String },
}

/// A box being spent.
#[derive(Debug, Clone)]
pub struct TransactionInput {
    pub box_id: BoxId,
    pub spending_proof: SpendingProof,
    /// Context variables, at most one per name.
    pub extension: Vec<ContextVariable>,
}

/// A transaction: inputs spent, read-only data inputs and outputs created.
#[derive(Debug, Clone)]
pub struct ErgoTransaction {
    pub id: [u8; 32],
    pub inputs: Vec<TransactionInput>,
    pub data_inputs: Vec<BoxId>,
    pub outputs: Vec<Box>,
}

/// The concatenated ids of the inputs.
pub open spec fn input_ids(is: Seq<TransactionInput>) -> Seq<u8>
    decreases is.len(),
{
    if is.len() == 0 {
        Seq::empty()
    } else {
        input_ids(is.drop_last()) + is.last().box_id@
    }
}

/// The concatenated ids of the outputs.
pub open spec fn output_ids(os: Seq<Box>) -> Seq<u8>
    decreases os.len(),
{
    if os.len() == 0 {
        Seq::empty()
    } else {
        output_ids(os.drop_last()) + os.last().box_id@
    }
}

impl ErgoTransaction {
    /// A transaction whose id is the digest of its input ids followed by its
    /// output ids.
    pub fn new(inputs: Vec<TransactionInput>, outputs: Vec<Box>) -> (r: Self)
        ensures
            r.inputs == inputs,
            r.outputs == outputs,
            r.data_inputs@.len() == 0,
            r.id@ == sha256_of(input_ids(inputs@) + output_ids(outputs@)),
    {
        let mut data: Vec<u8> = Vec::new();
        let mut i: usize = 0;
        while i < inputs.len()
            invariant
                i <= inputs@.len(),
                data@ == input_ids(inputs@.take(i as int)),
            decreases inputs@.len() - i,
        {
            proof {
                assert(inputs@.take(i + 1).drop_last() == inputs@.take(i as int));
                assert(inputs@.take(i + 1).last() == inputs@[i as int]);
            }
            append_bytes(&mut data, &inputs[i].box_id);
            i = i + 1;
        }
        proof {
            assert(inputs@.take(inputs@.len() as int) == inputs@);
        }
        let mut j: usize = 0;
        while j < outputs.len()
            invariant
                j <= outputs@.len(),
                data@ == input_ids(inputs@) + output_ids(outputs@.take(j as int)),
            decreases outputs@.len() - j,
        {
            proof {
                assert(outputs@.take(j + 1).drop_last() == outputs@.take(j as int));
                assert(outputs@.take(j + 1).last() == outputs@[j as int]);
            }
            let ghost before = data@;
            append_bytes(&mut data, &outputs[j].box_id);
            proof {
                assert(data@ =~= input_ids(inputs@) + output_ids(outputs@.take(j + 1)));
            }
            j = j + 1;
        }
        proof {
            assert(outputs@.take(outputs@.len() as int) == outputs@);
        }
        let id = sha256(data.as_slice());
        ErgoTransaction { id, inputs, data_inputs: Vec::new(), outputs }
    }
}

/// A block header as contracts see it.
#[derive(Debug, Clone, Copy)]
pub struct BlockHeader {
    pub height: u64,
    pub id: [u8; 32],
    pub parent_id: [u8; 32],
    pub timestamp: u64,
    /// Total antiquity score of the block, in hundredths.
    pub total_antiquity_score: u64,
}

/// The context a contract is evaluated in.
#[derive(Debug)]
pub struct StateContext {
    pub height: u64,
    /// Recent block headers.
    pub last_headers: Vec<BlockHeader>,
    pub state_digest: [u8; 32],
    /// The box being spent.
    pub self_box: Option<Box>,
}

impl StateContext {
    /// A context at `height` with no headers, a zero state digest and no box.
    pub fn at_height(height: u64) -> (r: Self)
        ensures
            r.height == height,
            r.last_headers@.len() == 0,
            r.state_digest@ == Seq::new(32, |i: int| 0u8),
            r.self_box is None,
    {
        let state_digest = [0u8; 32];
        proof {
            assert(state_digest@ =~= Seq::new(32, |i: int| 0u8));
        }
        StateContext { height, last_headers: Vec::new(), state_digest, self_box: None }
    }

    /// The same context with the given headers.
    pub fn with_headers(self, headers: Vec<BlockHeader>) -> (r: Self)
        ensures
            r.last_headers == headers,
            r.height == self.height,
            r.state_digest == self.state_digest,
            r.self_box == self.self_box,
    {
        StateContext { last_headers: headers, ..self }
    }

    /// The same context spending the given box.
    pub fn with_self_box(self, b: Box) -> (r: Self)
        ensures
            r.self_box == Some(b),
            r.height == self.height,
            r.last_headers == self.last_headers,
            r.state_digest == self.state_digest,
    {
        StateContext { self_box: Some(b), ..self }
    }
}

/// Nano-units per whole token on the Ergo side.
pub const NANO_PER_TOKEN: u64 = 1_000_000_000;

/// A number held at the largest `u64`.
pub open spec fn held(n: nat) -> u64 {
    if n > u64::MAX {
        u64::MAX
    } else {
        n as u64
    }
}

/// Whether a box's registers are R4, holding a score in hundredths, and R5,
/// holding the bytes of a text.
pub open spec fn score_registers(rs: Seq<Register>, score: u64, text: Seq<char>) -> bool {
    &&& rs.len() == 2
    &&& rs[0].name@ == "R4"@
    &&& rs[0].value == RegisterValue::Long(score as i64)
    &&& rs[1].name@ == "R5"@
    &&& rs[1].value matches RegisterValue::ByteArray(b) && b@ == encode_utf8(text)
}

fn score_registers_for(score: u32, text: &String) -> (r: Vec<Register>)
    ensures
        score_registers(r@, score as u64, text@),
{
    let mut bytes: Vec<u8> = Vec::new();
    append_bytes(&mut bytes, text.as_str().as_bytes());
    let mut rs: Vec<Register> = Vec::new();
    rs.push(Register { name: "R4".to_owned(), value: RegisterValue::Long(score as i64) });
    rs.push(Register { name: "R5".to_owned(), value: RegisterValue::ByteArray(bytes) });
    rs
}

/// Whether `b` is the box paying a block's miner on the Ergo side: its whole
/// tokens in nano-units (held at the largest `u64`), the miner's spending
/// condition, the block height, its multiplier in R4 and its hardware in R5,
/// with zero ids.
pub open spec fn miner_box(b: Box, m: BlockMiner, height: u64) -> bool {
    &&& b.value == held((m.reward / ONE_RTC) as nat * NANO_PER_TOKEN as nat)
    &&& b.ergo_tree@ == wallet_tree(m.wallet.0@)
    &&& b.creation_height == height
    &&& b.tokens@.len() == 0
    &&& score_registers(b.additional_registers@, m.multiplier as u64, m.hardware@)
    &&& b.box_id@ == Seq::new(32, |i: int| 0u8)
    &&& b.transaction_id@ == Seq::new(32, |i: int| 0u8)
    &&& b.index == 0
}

/// The box paying a block's miner.
pub fn miner_to_ergo_box(m: &BlockMiner, height: u64) -> (r: Box)
    ensures
        miner_box(r, *m, height),
{
    let whole: u64 = m.reward / ONE_RTC;
    proof {
        assert(whole as u128 * NANO_PER_TOKEN as u128 <= 0xFFFF_FFFF_FFFF_FFFFu128 * 1_000_000_000)
            by (nonlinear_arith)
            requires
                whole <= 0xFFFF_FFFF_FFFF_FFFFu64,
        ;
    }
    let tokens: u128 = whole as u128 * NANO_PER_TOKEN as u128;
    let value: u64 = if tokens > u64::MAX as u128 {
        u64::MAX
    } else {
        tokens as u64
    };
    let zero = [0u8; 32];
    proof {
        assert(zero@ =~= Seq::new(32, |i: int| 0u8));
    }
    Box {
        box_id: zero,
        value,
        ergo_tree: Box::wallet_to_ergo_tree(&m.wallet),
        creation_height: height,
        tokens: Vec::new(),
        additional_registers: score_registers_for(m.multiplier, &m.hardware),
        transaction_id: zero,
        index: 0,
    }
}

/// Conversion of chain values to Ergo-style boxes.
pub trait ErgoCompatible {
    /// The box standing for this value at `height`.
    fn to_ergo_box(&self, height: u64) -> Box;
}

impl ErgoCompatible for BlockMiner {
    fn to_ergo_box(&self, height: u64) -> Box {
        miner_to_ergo_box(self, height)
    }
}

/// Sum of the multipliers of a block's miners, in hundredths.
pub open spec fn multiplier_total(ms: Seq<BlockMiner>) -> nat
    decreases ms.len(),
{
    if ms.len() == 0 {
        0
    } else {
        multiplier_total(ms.drop_last()) + ms.last().multiplier as nat
    }
}

/// A block in Ergo form: its header, with the block's hashes and the sum of
/// its multipliers (held at the largest `u64`), and one transaction per
/// miner creating that miner's box from no inputs.
pub fn rustchain_block_to_ergo(block: &Block) -> (r: (BlockHeader, Vec<ErgoTransaction>))
    ensures
        r.0.height == block.height,
        r.0.id == block.hash.0,
        r.0.parent_id == block.previous_hash.0,
        r.0.timestamp == block.timestamp,
        r.0.total_antiquity_score == held(multiplier_total(block.miners@)),
        r.1@.len() == block.miners@.len(),
        forall|i: int|
            0 <= i < r.1@.len() ==> {
                &&& (#[trigger] r.1@[i]).inputs@.len() == 0
                &&& r.1@[i].outputs@.len() == 1
                &&& miner_box(r.1@[i].outputs@[0], block.miners@[i], block.height)
            },
{
    let ms = &block.miners;
    let mut total: u128 = 0;
    let mut txs: Vec<ErgoTransaction> = Vec::new();
    let mut i: usize = 0;
    while i < ms.len()
        invariant
            ms == &block.miners,
            i <= ms@.len(),
            total == multiplier_total(ms@.take(i as int)),
            total <= i * 0xFFFF_FFFFu128,
            i <= usize::MAX,
            txs@.len() == i,
            forall|k: int|
                0 <= k < i ==> {
                    &&& (#[trigger] txs@[k]).inputs@.len() == 0
                    &&& txs@[k].outputs@.len() == 1
                    &&& miner_box(txs@[k].outputs@[0], ms@[k], block.height)
                },
        decreases ms@.len() - i,
    {
        proof {
            assert(ms@.take(i + 1).drop_last() == ms@.take(i as int));
            assert(ms@.take(i + 1).last() == ms@[i as int]);
        }
        total = total + ms[i].multiplier as u128;
        let output = miner_to_ergo_box(&ms[i], block.height);
        let mut outputs: Vec<Box> = Vec::new();
        outputs.push(output);
        txs.push(ErgoTransaction::new(Vec::new(), outputs));
        i = i + 1;
    }
    proof {
        assert(ms@.take(ms@.len() as int) == ms@);
    }
    let header = BlockHeader {
        height: block.height,
        id: block.hash.0,
        parent_id: block.previous_hash.0,
        timestamp: block.timestamp,
        total_antiquity_score: if total > u64::MAX as u128 {
            u64::MAX
        } else {
            total as u64
        },
    };
    (header, txs)
}

impl ErgoTransaction {
    /// The transaction paying a validated proof's miner: one input with a
    /// zero id spent by an antiquity proof (the hex of the hardware's
    /// fingerprint, the multiplier in hundredths, the hex of the
    /// anti-emulation hash), and one output paying `reward_amount` to the
    /// miner at `block_height`, its multiplier in R4 and its model in R5.
    pub fn mining_reward(proof: &ValidatedProof, reward_amount: u64, block_height: u64) -> (r: Self)
        ensures
            r.inputs@.len() == 1,
            r.inputs@[0].box_id@ == Seq::new(32, |i: int| 0u8),
            r.inputs@[0].extension@.len() == 0,
            r.inputs@[0].spending_proof matches SpendingProof::AntiquityProof {
                hardware_hash,
                antiquity_score,
                entropy_hash,
            } && hardware_hash@ == hex_of(fingerprint_of(proof.hardware)) && antiquity_score
                == proof.multiplier && entropy_hash@ == hex_of(proof.anti_emulation_hash@),
            r.outputs@.len() == 1,
            r.outputs@[0].value == reward_amount,
            r.outputs@[0].ergo_tree@ == wallet_tree(proof.wallet.0@),
            r.outputs@[0].creation_height == block_height,
            r.outputs@[0].tokens@.len() == 0,
            score_registers(
                r.outputs@[0].additional_registers@,
                proof.multiplier as u64,
                proof.hardware.model@,
            ),
            r.id@ == sha256_of(input_ids(r.inputs@) + output_ids(r.outputs@)),
    {
        let zero = [0u8; 32];
        proof {
            assert(zero@ =~= Seq::new(32, |i: int| 0u8));
        }
        let output = Box {
            box_id: zero,
            value: reward_amount,
            ergo_tree: Box::wallet_to_ergo_tree(&proof.wallet),
            creation_height: block_height,
            tokens: Vec::new(),
            additional_registers: score_registers_for(proof.multiplier, &proof.hardware.model),
            transaction_id: zero,
            index: 0,
        };
        let fingerprint = hash_hardware(&proof.hardware);
        let input = TransactionInput {
            box_id: zero,
            spending_proof: SpendingProof::AntiquityProof {
                hardware_hash: hex_encode(&fingerprint),
                antiquity_score: proof.multiplier as u64,
                entropy_hash: hex_encode(&proof.anti_emulation_hash),
            },
            extension: Vec::new(),
        };
        let mut inputs: Vec<TransactionInput> = Vec::new();
        inputs.push(input);
        let mut outputs: Vec<Box> = Vec::new();
        outputs.push(output);
        ErgoTransaction::new(inputs, outputs)
    }
}

} // verus!
