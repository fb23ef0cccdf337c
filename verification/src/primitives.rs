//! The computations that the bitcoin, secp256k1, nostr and http crates do for
//! the maker.
//!
//! Every function here hands plain values to one of those crates and takes
//! plain values back; scripts and trees of scripts are put together in the
//! builders of those crates, one call at a time. What a function returns is
//! either stated outright or given a name, a spec function without a body, that
//! stands for the crate's result on those values.

use crate::chain::{
    Hash160, InputModel, Network, OutPoint, OutputModel, PublicKey, SecretKey, Transaction, TransactionModel, TxOut,
    XOnlyPublicKey,
};
use bitcoin::absolute::LockTime;
use bitcoin::address::NetworkUnchecked;
use bitcoin::sighash::{Prevouts, SighashCache, TapSighashType};
use bitcoin::transaction::Version;
use bitcoin::{Amount, Sequence};
use ::nostr::util::JsonUtil;
use secp256k1::musig::{AggregatedNonce, KeyAggCache, PartialSignature, PublicNonce, Session};
use tungstenite::http::Uri;
use vstd::prelude::*;
use vstd::utf8::{decode_utf8, valid_utf8};

verus! {

/// An element of a script.
#[derive(Debug)]
pub enum Instruction {
    /// Pushed bytes.
    Push(Vec<u8>),
    /// Any other opcode.
    Op(u8),
    /// A push that the script ends inside of.
    Malformed,
}

/// What a script element holds.
pub enum InstructionModel {
    Push(Seq<u8>),
    Op(u8),
    Malformed,
}

impl View for Instruction {
    type V = InstructionModel;

    open spec fn view(&self) -> InstructionModel {
        match self {
            Instruction::Push(bytes) => InstructionModel::Push(bytes@),
            Instruction::Op(code) => InstructionModel::Op(*code),
            Instruction::Malformed => InstructionModel::Malformed,
        }
    }
}

/// The elements of a list of instructions.
pub open spec fn instruction_models(items: Seq<Instruction>) -> Seq<InstructionModel> {
    items.map_values(|item: Instruction| item@)
}

/// The elements that a script consists of.
pub uninterp spec fn instructions_of(script: Seq<u8>) -> Seq<InstructionModel>;

/// Parses a script with `bitcoin::Script::instructions`.
///
/// The result is that iterator's sequence: pushed bytes, opcodes, and one
/// malformed element where the script ends early.
#[verifier::external_body]
pub(crate) fn script_instructions(script: &[u8]) -> (r: Vec<Instruction>)
    ensures
        instruction_models(r@) == instructions_of(script@),
{
    bitcoin::Script::from_bytes(script)
        .instructions()
        .map(|item| match item {
            Ok(bitcoin::script::Instruction::PushBytes(bytes)) => {
                Instruction::Push(bytes.as_bytes().to_vec())
            }
            Ok(bitcoin::script::Instruction::Op(op)) => Instruction::Op(op.to_u8()),
            Err(_) => Instruction::Malformed,
        })
        .collect()
}

/// The number that an opcode pushes: -1, or 1 to 16.
pub open spec fn number_pushed_by(code: u8) -> Option<i32> {
    if code == 0x4f {
        Some(-1i32)
    } else if 0x51 <= code <= 0x60 {
        Some((code - 0x50) as i32)
    } else {
        None
    }
}

/// The number that an opcode pushes.
pub fn pushed_number(code: u8) -> (r: Option<i32>)
    ensures
        r == number_pushed_by(code),
{
    if code == 0x4f {
        Some(-1)
    } else if 0x51 <= code && code <= 0x60 {
        Some((code - 0x50) as i32)
    } else {
        None
    }
}

/// The opcodes of the contract templates.
pub const OP_DROP: u8 = 0x75;

pub const OP_EQUALVERIFY: u8 = 0x88;

pub const OP_SHA256: u8 = 0xa8;

pub const OP_HASH160: u8 = 0xa9;

pub const OP_CHECKSIG: u8 = 0xac;

pub const OP_CHECKSIGVERIFY: u8 = 0xad;

pub const OP_CLTV: u8 = 0xb1;

/// The elements of a hashlock script: only who knows the preimage of `hash`
/// and signs with `key` can spend.
pub open spec fn hashlock_elements(hash: Seq<u8>, key: Seq<u8>) -> Seq<InstructionModel> {
    seq![
        InstructionModel::Op(OP_SHA256),
        InstructionModel::Push(hash),
        InstructionModel::Op(OP_EQUALVERIFY),
        InstructionModel::Push(key),
        InstructionModel::Op(OP_CHECKSIG),
    ]
}

/// The bytes of a hashlock script.
pub open spec fn hashlock_bytes(hash: Seq<u8>, key: Seq<u8>) -> Seq<u8> {
    seq![OP_SHA256, 32u8] + hash + seq![OP_EQUALVERIFY, 32u8] + key + seq![OP_CHECKSIG]
}

/// The heights below this number; a lock time from it on is a moment.
pub const LOCK_TIME_THRESHOLD: u32 = 500_000_000;

/// The bytes of a number as scripts hold it: little-endian, with the highest
/// bit clear.
pub open spec fn script_number(n: nat) -> Seq<u8>
    decreases n,
{
    if n < 128 {
        seq![n as u8]
    } else {
        seq![(n % 256) as u8] + script_number(n / 256)
    }
}

/// The bytes that push a number: an opcode up to 16, a push of its bytes
/// beyond.
pub open spec fn pushed_bytes(n: nat) -> Seq<u8> {
    if n == 0 {
        seq![0u8]
    } else if n <= 16 {
        seq![(0x50 + n) as u8]
    } else {
        seq![script_number(n).len() as u8] + script_number(n)
    }
}

/// The element that pushes a number: zero is an empty push.
pub open spec fn pushed_element(n: nat) -> InstructionModel {
    if n == 0 {
        InstructionModel::Push(seq![])
    } else if n <= 16 {
        InstructionModel::Op((0x50 + n) as u8)
    } else {
        InstructionModel::Push(script_number(n))
    }
}

/// The bytes of a script that lets `key` spend once a lock time has passed.
pub open spec fn timelock_bytes(lock_time: u32, key: Seq<u8>) -> Seq<u8> {
    pushed_bytes(lock_time as nat) + seq![OP_CLTV, OP_DROP, 32u8] + key + seq![OP_CHECKSIG]
}

/// The elements of a script that lets `key` spend once a lock time has passed.
pub open spec fn timelock_elements(lock_time: u32, key: Seq<u8>) -> Seq<InstructionModel> {
    seq![
        pushed_element(lock_time as nat),
        InstructionModel::Op(OP_CLTV),
        InstructionModel::Op(OP_DROP),
        InstructionModel::Push(key),
        InstructionModel::Op(OP_CHECKSIG),
    ]
}

/// The number that little-endian bytes stand for.
pub open spec fn little_endian(bytes: Seq<u8>) -> int
    decreases bytes.len(),
{
    if bytes.len() == 0 {
        0
    } else {
        bytes[0] + 256 * little_endian(bytes.drop_first())
    }
}

/// Whether a script element pushes the positive number `value`, as an opcode
/// or as at most four little-endian bytes.
pub open spec fn pushes_number(item: InstructionModel, value: int) -> bool {
    match item {
        InstructionModel::Push(bytes) => 1 <= bytes.len() <= 4 && little_endian(bytes) == value,
        InstructionModel::Op(code) => number_pushed_by(code) is Some && number_pushed_by(code)->0
            == value,
        InstructionModel::Malformed => false,
    }
}

/// The bytes of a number in a script stand for it, and are at most four below
/// 2^31.
pub proof fn lemma_script_number(n: nat)
    ensures
        script_number(n).len() >= 1,
        little_endian(script_number(n)) == n,
        n < 0x80 ==> script_number(n).len() == 1,
        n < 0x8000 ==> script_number(n).len() <= 2,
        n < 0x80_0000 ==> script_number(n).len() <= 3,
        n < 0x8000_0000 ==> script_number(n).len() <= 4,
    decreases n,
{
    let bytes = script_number(n);
    if n < 128 {
        assert(bytes.drop_first() =~= Seq::<u8>::empty());
        assert(little_endian(bytes.drop_first()) == 0);
        assert(little_endian(bytes) == bytes[0] + 256 * little_endian(bytes.drop_first()));
    } else {
        lemma_script_number(n / 256);
        assert(bytes.drop_first() =~= script_number(n / 256));
    }
}

/// The element that pushes a number from 1 to below 2^31 pushes that number.
pub proof fn lemma_pushed_element(n: nat)
    requires
        0 < n < 0x8000_0000,
    ensures
        pushes_number(pushed_element(n), n as int),
{
    if n > 16 {
        lemma_script_number(n);
    }
}

/// The bytes of a script that only who knows the preimage of the legacy hash
/// and signs with `key` can spend.
pub open spec fn claim_bytes(hash: Seq<u8>, key: Seq<u8>) -> Seq<u8> {
    seq![OP_HASH160, 20u8] + hash + seq![OP_EQUALVERIFY, 32u8] + key + seq![OP_CHECKSIG]
}

/// The script that lets `key` spend once a lock time has passed.
pub open spec fn refund_bytes(lock_time: u32, key: Seq<u8>) -> Seq<u8> {
    seq![32u8] + key + seq![OP_CHECKSIGVERIFY] + pushed_bytes(lock_time as nat) + seq![OP_CLTV]
}

/// The type `bitcoin::script::Builder`: a script under construction.
#[verifier::external_type_specification]
#[verifier::external_body]
pub struct ExBuilder(bitcoin::script::Builder);

/// The bytes that a script under construction consists of.
pub uninterp spec fn built_bytes(builder: bitcoin::script::Builder) -> Seq<u8>;

/// Whether a script parses to its end.
pub open spec fn is_whole(items: Seq<InstructionModel>) -> bool {
    forall|i: int| 0 <= i < items.len() ==> !((#[trigger] items[i]) is Malformed)
}

/// Begins a script, by `bitcoin::script::Builder::new`: it has no bytes and no
/// elements.
#[verifier::external_body]
pub(crate) fn new_script() -> (r: bitcoin::script::Builder)
    ensures
        built_bytes(r) == Seq::<u8>::empty(),
        instructions_of(built_bytes(r)) == Seq::<InstructionModel>::empty(),
{
    bitcoin::script::Builder::new()
}

/// Adds an opcode that pushes nothing, by
/// `bitcoin::script::Builder::push_opcode`, which writes its byte: one element
/// more for a script that parses to its end.
#[verifier::external_body]
pub(crate) fn push_opcode(builder: bitcoin::script::Builder, code: u8) -> (r:
    bitcoin::script::Builder)
    requires
        code > 0x60,
    ensures
        built_bytes(r) == built_bytes(builder).push(code),
        is_whole(instructions_of(built_bytes(builder))) ==> instructions_of(built_bytes(r))
            == instructions_of(built_bytes(builder)).push(InstructionModel::Op(code)),
{
    builder.push_opcode(bitcoin::opcodes::Opcode::from(code))
}

/// Adds a push of at most 75 bytes, by `bitcoin::script::Builder::push_slice`,
/// which writes their number and the bytes: one element more for a script that
/// parses to its end.
#[verifier::external_body]
pub(crate) fn push_slice(builder: bitcoin::script::Builder, data: &[u8]) -> (r:
    bitcoin::script::Builder)
    requires
        data@.len() <= 75,
    ensures
        built_bytes(r) == built_bytes(builder).push(data@.len() as u8) + data@,
        is_whole(instructions_of(built_bytes(builder))) ==> instructions_of(built_bytes(r))
            == instructions_of(built_bytes(builder)).push(InstructionModel::Push(data@)),
{
    builder.push_slice(<&bitcoin::script::PushBytes>::try_from(data).unwrap())
}

/// Adds a push of a lock time, by `bitcoin::script::Builder::push_lock_time`,
/// which writes the number as an opcode where one exists for it (0 to 16) and
/// as a push of its little-endian bytes otherwise: one element more for a
/// script that parses to its end.
#[verifier::external_body]
pub(crate) fn push_lock_time(builder: bitcoin::script::Builder, lock_time: u32) -> (r:
    bitcoin::script::Builder)
    ensures
        built_bytes(r) == built_bytes(builder) + pushed_bytes(lock_time as nat),
        is_whole(instructions_of(built_bytes(builder))) ==> instructions_of(built_bytes(r))
            == instructions_of(built_bytes(builder)).push(pushed_element(lock_time as nat)),
{
    builder.push_lock_time(LockTime::from_consensus(lock_time))
}

/// Ends a script, by `bitcoin::script::Builder::into_bytes`.
#[verifier::external_body]
pub(crate) fn script_bytes(builder: bitcoin::script::Builder) -> (r: Vec<u8>)
    ensures
        r@ == built_bytes(builder),
{
    builder.into_bytes()
}

/// A transaction without its witnesses.
pub open spec fn without_witnesses(tx: TransactionModel) -> TransactionModel {
    TransactionModel {
        input: tx.input.map_values(|input: InputModel| InputModel { witness: seq![], ..input }),
        ..tx
    }
}

/// The id of a transaction that has no witnesses.
pub uninterp spec fn bare_txid(tx: TransactionModel) -> [u8; 32];

/// The id of a transaction, which does not cover the witnesses.
pub open spec fn txid_of(tx: TransactionModel) -> [u8; 32] {
    bare_txid(without_witnesses(tx))
}

/// Signing does not change the id of a transaction: two that differ in their
/// witnesses alone have the same.
pub proof fn law_txid_ignores_witnesses(tx: TransactionModel, signed: TransactionModel)
    requires
        without_witnesses(tx) == without_witnesses(signed),
    ensures
        txid_of(tx) == txid_of(signed),
{
}

/// The id of a transaction, by `bitcoin::Transaction::compute_txid`, which
/// does not cover the witnesses: they are left empty here.
#[verifier::external_body]
pub(crate) fn compute_txid(tx: &Transaction) -> (r: [u8; 32])
    ensures
        r == bare_txid(without_witnesses(tx@)),
{
    let input = tx.input.iter().map(|i| bitcoin::TxIn {
        previous_output: bitcoin::OutPoint {
            txid: bitcoin::hashes::Hash::from_byte_array(i.previous_output.txid),
            vout: i.previous_output.vout,
        },
        script_sig: i.script_sig.clone().into(),
        sequence: bitcoin::Sequence(i.sequence),
        witness: bitcoin::Witness::new(),
    }).collect();
    let output = tx.output.iter().map(|o| bitcoin::TxOut {
        value: bitcoin::Amount::from_sat(o.value), script_pubkey: o.script_pubkey.clone().into() }).collect();
    let lock_time = bitcoin::absolute::LockTime::from_consensus(tx.lock_time);
    let version = bitcoin::transaction::Version(tx.version);
    *bitcoin::Transaction { version, lock_time, input, output }.compute_txid().as_ref()
}

/// The hash that a signature with the taproot key signs, for a transaction
/// whose only input spends `prevout`, which is the output `spent`.
pub uninterp spec fn key_spend_hash(
    version: i32,
    lock_time: u32,
    prevout: OutPoint,
    sequence: u32,
    outputs: Seq<OutputModel>,
    spent: OutputModel,
) -> Option<[u8; 32]>;

/// The hash of a signature with the taproot key, by
/// `bitcoin::sighash::SighashCache::taproot_key_spend_signature_hash` with the
/// default hash type, for a transaction with one input; nothing where that
/// function fails.
#[verifier::external_body]
pub(crate) fn taproot_sighash(
    version: i32,
    lock_time: u32,
    prevout: &OutPoint,
    sequence: u32,
    outputs: &Vec<TxOut>,
    spent: &TxOut,
) -> (r: Option<[u8; 32]>)
    ensures
        r == key_spend_hash(
            version,
            lock_time,
            *prevout,
            sequence,
            outputs@.map_values(|output: TxOut| output@),
            spent@,
        ),
{
    let txid = bitcoin::hashes::Hash::from_byte_array(prevout.txid);
    let previous_output = bitcoin::OutPoint::new(txid, prevout.vout);
    let input = bitcoin::TxIn { previous_output, sequence: Sequence(sequence), ..Default::default() };
    let convert = |o: &TxOut| bitcoin::TxOut {
        value: Amount::from_sat(o.value), script_pubkey: o.script_pubkey.clone().into() };
    let output = outputs.iter().map(convert).collect();
    let lock_time = LockTime::from_consensus(lock_time);
    let tx = bitcoin::Transaction { version: Version(version), lock_time, input: vec![input], output };
    let hash = SighashCache::new(tx)
        .taproot_key_spend_signature_hash(0, &Prevouts::All(&[convert(spent)]), TapSighashType::Default);
    Some(*hash.ok()?.as_ref())
}

/// The type `bitcoin::taproot::TaprootBuilder`: a tree of scripts under
/// construction.
#[verifier::external_type_specification]
#[verifier::external_body]
pub struct ExTaprootBuilder(bitcoin::taproot::TaprootBuilder);

/// The scripts that were added to a tree, each with its depth, in order.
pub uninterp spec fn tree_leaves(tree: bitcoin::taproot::TaprootBuilder) -> Seq<(u8, Seq<u8>)>;

/// Begins a tree of scripts, by `bitcoin::taproot::TaprootBuilder::new`.
#[verifier::external_body]
pub(crate) fn new_tree() -> (r: bitcoin::taproot::TaprootBuilder)
    ensures
        tree_leaves(r) == Seq::<(u8, Seq<u8>)>::empty(),
{
    bitcoin::taproot::TaprootBuilder::new()
}

/// Adds a script to a tree, by `bitcoin::taproot::TaprootBuilder::add_leaf`.
///
/// That function takes the first script at any depth up to 128, and a second
/// one beside it; of what else it takes nothing is said here.
#[verifier::external_body]
pub(crate) fn add_leaf(tree: bitcoin::taproot::TaprootBuilder, depth: u8, script: &[u8]) -> (r:
    Option<bitcoin::taproot::TaprootBuilder>)
    ensures
        r is Some ==> tree_leaves(r->0) == tree_leaves(tree).push((depth, script@)),
        tree_leaves(tree).len() == 0 && depth <= 128 ==> r is Some,
        tree_leaves(tree).len() == 1 && tree_leaves(tree)[0].0 == depth && 0 < depth <= 128
            ==> r is Some,
{
    tree.add_leaf(depth, script.to_vec().into()).ok()
}

/// The output key and the tweak of the taproot output with `internal_key` and
/// a tree of these scripts, where `internal_key` is a point of the curve and
/// the tree is complete.
pub uninterp spec fn committed_tree(leaves: Seq<(u8, Seq<u8>)>, internal_key: [u8; 32]) -> Option<
    ([u8; 32], [u8; 32]),
>;

/// Commits to a tree of scripts, by
/// `bitcoin::taproot::TaprootBuilder::finalize`.
///
/// The result is the tweaked output key and the tweak, or nothing where the
/// internal key is no x-only public key or the tree is not complete. That crate
/// panics where the hash that it tweaks with is not below the order of the
/// curve: no input with such a hash is known.
#[verifier::external_body]
pub(crate) fn commit_to_tree(
    tree: bitcoin::taproot::TaprootBuilder,
    internal_key: &XOnlyPublicKey,
) -> (r: Option<([u8; 32], [u8; 32])>)
    ensures
        r == committed_tree(tree_leaves(tree), *internal_key),
{
    let secp = bitcoin::secp256k1::Secp256k1::verification_only();
    let key = bitcoin::key::XOnlyPublicKey::from_slice(internal_key).ok()?;
    let info = tree.finalize(&secp, key).ok()?;
    Some((info.output_key().serialize(), info.tap_tweak().to_scalar().to_be_bytes()))
}

/// The control block of `script` in the taproot output with `internal_key`
/// and a tree of these scripts: nothing where `script` is none of them, or
/// where there is no such output.
pub uninterp spec fn tree_control_block(
    leaves: Seq<(u8, Seq<u8>)>,
    internal_key: [u8; 32],
    script: Seq<u8>,
) -> Option<Seq<u8>>;

/// The control block of a script of a tree, by
/// `bitcoin::taproot::TaprootSpendInfo::control_block` and
/// `bitcoin::taproot::ControlBlock::serialize`, for the output that
/// [`commit_to_tree`] commits to, with the same panic.
///
/// A script of the tree has one wherever there is such an output.
#[verifier::external_body]
pub(crate) fn control_block(
    tree: bitcoin::taproot::TaprootBuilder,
    internal_key: &XOnlyPublicKey,
    script: &[u8],
) -> (r: Option<Vec<u8>>)
    ensures
        tree_control_block(tree_leaves(tree), *internal_key, script@) == match r {
            Some(block) => Some(block@),
            None => None,
        },
        (exists|i: int|
            0 <= i < tree_leaves(tree).len() && (#[trigger] tree_leaves(tree)[i]).1 == script@)
            ==> (r is Some <==> committed_tree(tree_leaves(tree), *internal_key) is Some),
{
    let secp = bitcoin::secp256k1::Secp256k1::verification_only();
    let key = bitcoin::key::XOnlyPublicKey::from_slice(internal_key).ok()?;
    let info = tree.finalize(&secp, key).ok()?;
    let leaf = (script.to_vec().into(), bitcoin::taproot::LeafVersion::TapScript);
    Some(info.control_block(&leaf)?.serialize())
}

/// Whether 33 bytes are a public key in compressed form.
pub uninterp spec fn is_public_key(bytes: [u8; 33]) -> bool;

/// Whether `secp256k1::PublicKey::from_slice` accepts the bytes.
#[verifier::external_body]
pub(crate) fn public_key_valid(bytes: &PublicKey) -> (r: bool)
    ensures
        r == is_public_key(*bytes),
{
    secp256k1::PublicKey::from_slice(bytes).is_ok()
}

/// The public key of a secret key.
pub uninterp spec fn public_key_of(secret: [u8; 32]) -> Option<[u8; 33]>;

/// The public key of a secret key, by
/// `bitcoin::secp256k1::PublicKey::from_secret_key`; nothing where the bytes
/// are no secret key: a number that is not zero and below the order of the
/// curve. What comes out is a public key.
#[verifier::external_body]
pub(crate) fn derive_public_key(secret: &SecretKey) -> (r: Option<PublicKey>)
    ensures
        r == public_key_of(*secret),
        r is Some <==> 0 < big_endian(secret@) < curve_order(),
        r matches Some(key) ==> is_public_key(key),
{
    let key = bitcoin::secp256k1::SecretKey::from_slice(secret).ok()?;
    let secp = bitcoin::secp256k1::Secp256k1::signing_only();
    Some(bitcoin::secp256k1::PublicKey::from_secret_key(&secp, &key).serialize())
}

/// The secret key that adding `nonce` to `secret` gives.
pub uninterp spec fn tweaked_secret(secret: [u8; 32], nonce: [u8; 32]) -> Option<[u8; 32]>;

/// Adds a nonce to a secret key with
/// `bitcoin::secp256k1::SecretKey::add_tweak`; nothing where either is no
/// secret key or the sum is none.
#[verifier::external_body]
pub(crate) fn add_to_secret(secret: &SecretKey, nonce: &SecretKey) -> (r: Option<SecretKey>)
    ensures
        r == tweaked_secret(*secret, *nonce),
{
    let key = bitcoin::secp256k1::SecretKey::from_slice(secret).ok()?;
    let tweak = bitcoin::secp256k1::SecretKey::from_slice(nonce).ok()?;
    Some(key.add_tweak(&tweak.into()).ok()?.secret_bytes())
}

/// The public key `point` moved by `nonce` times the generator.
pub uninterp spec fn tweaked_point(point: [u8; 33], nonce: [u8; 32]) -> Option<[u8; 33]>;

/// Moves a public key by a nonce with
/// `bitcoin::secp256k1::PublicKey::add_exp_tweak`; nothing where the key or
/// the nonce is invalid or the sum is no point.
#[verifier::external_body]
pub(crate) fn add_to_point(point: &PublicKey, nonce: &SecretKey) -> (r: Option<PublicKey>)
    ensures
        r == tweaked_point(*point, *nonce),
{
    let key = bitcoin::secp256k1::PublicKey::from_slice(point).ok()?;
    let tweak = bitcoin::secp256k1::SecretKey::from_slice(nonce).ok()?;
    let secp = bitcoin::secp256k1::Secp256k1::verification_only();
    Some(key.add_exp_tweak(&secp, &tweak.into()).ok()?.serialize())
}

/// The MuSig2 key of two keys, in this order.
pub uninterp spec fn aggregated_key(first: [u8; 33], second: [u8; 33]) -> Option<[u8; 32]>;

/// Aggregates two public keys, in this order, with
/// `secp256k1::musig::KeyAggCache`; nothing where either is no public key.
#[verifier::external_body]
pub(crate) fn aggregate_keys(first: &PublicKey, second: &PublicKey) -> (r: Option<XOnlyPublicKey>)
    ensures
        r == aggregated_key(*first, *second),
        r is Some <==> (is_public_key(*first) && is_public_key(*second)),
{
    let first = secp256k1::PublicKey::from_slice(first).ok()?;
    let second = secp256k1::PublicKey::from_slice(second).ok()?;
    Some(KeyAggCache::new(&[&first, &second]).agg_pk().to_byte_array())
}

/// Whether all of a list are public keys.
pub open spec fn are_public_keys(keys: Seq<[u8; 33]>) -> bool {
    forall|i: int| 0 <= i < keys.len() ==> is_public_key(#[trigger] keys[i])
}

/// The MuSig2 key of some keys, in this order, tweaked as the key of a taproot
/// output.
pub uninterp spec fn tweaked_aggregated_key(keys: Seq<[u8; 33]>, tap_tweak: [u8; 32]) -> Option<
    [u8; 32],
>;

/// Aggregates public keys and tweaks the result with
/// `secp256k1::musig::KeyAggCache::pubkey_xonly_tweak_add`; nothing where one
/// is no public key, the tweak is no scalar or the tweaked key is no point.
#[verifier::external_body]
pub(crate) fn tweak_aggregated_key(keys: &Vec<PublicKey>, tap_tweak: &[u8; 32]) -> (r: Option<
    XOnlyPublicKey,
>)
    requires
        keys@.len() > 0,
    ensures
        r == tweaked_aggregated_key(keys@, *tap_tweak),
        r is Some ==> are_public_keys(keys@) && is_scalar(*tap_tweak),
{
    let points: Result<Vec<_>, _> = keys.iter().map(|k| secp256k1::PublicKey::from_slice(k)).collect();
    let points = points.ok()?;
    let tweak = secp256k1::Scalar::from_be_bytes(*tap_tweak).ok()?;
    let mut cache = KeyAggCache::new(&points.iter().collect::<Vec<_>>());
    let key = cache.pubkey_xonly_tweak_add(&tweak).ok()?;
    Some(key.x_only_public_key().0.to_byte_array())
}

/// `secp256k1::musig::SecretNonce`.
#[verifier::external_type_specification]
#[verifier::external_body]
pub struct ExSecretNonce(secp256k1::musig::SecretNonce);

/// A nonce for one signature: the secret part stays with the signer, and is
/// gone once it has signed.
pub struct NoncePair {
    secret: secp256k1::musig::SecretNonce,
    key: PublicKey,
    public: [u8; 66],
}

impl NoncePair {
    /// The key that the nonce is for.
    pub closed spec fn spec_key(self) -> PublicKey {
        self.key
    }

    /// The part that the other signer gets.
    pub closed spec fn spec_public(self) -> [u8; 66] {
        self.public
    }

    /// The part that the other signer gets.
    pub fn public(&self) -> (r: [u8; 66])
        ensures
            r == self.spec_public(),
    {
        self.public
    }
}

/// Whether 66 bytes are a public nonce.
pub uninterp spec fn is_public_nonce(bytes: [u8; 66]) -> bool;

/// A new nonce for signing with the secret key of `key`, by
/// `secp256k1::musig::new_nonce_pair` with fresh randomness; nothing where
/// `key` is no public key.
///
/// What the nonce is rests on chance; it is a public nonce, and it is for
/// `key`.
#[verifier::external_body]
pub(crate) fn new_nonce(key: &PublicKey) -> (r: Option<NoncePair>)
    ensures
        r is Some <==> is_public_key(*key),
        r matches Some(pair) ==> pair.spec_key() == *key && is_public_nonce(pair.spec_public()),
{
    let pubkey = secp256k1::PublicKey::from_slice(key).ok()?;
    let random = secp256k1::musig::SessionSecretRand::from_rng(&mut secp256k1::rand::rng());
    let (secret, public) =
        secp256k1::musig::new_nonce_pair(random, None, None, pubkey, None, None);
    Some(NoncePair { secret, key: *key, public: public.serialize() })
}

/// Whether all of a list are public nonces.
pub open spec fn are_public_nonces(nonces: Seq<[u8; 66]>) -> bool {
    forall|i: int| 0 <= i < nonces.len() ==> is_public_nonce(#[trigger] nonces[i])
}

/// The sum of public nonces.
pub uninterp spec fn aggregated_nonce(nonces: Seq<[u8; 66]>) -> Option<[u8; 66]>;

/// Whether 66 bytes are a sum of public nonces.
pub uninterp spec fn is_aggregated_nonce(bytes: [u8; 66]) -> bool;

/// Adds public nonces with `secp256k1::musig::AggregatedNonce::new`; nothing
/// where one is no public nonce.
#[verifier::external_body]
pub(crate) fn aggregate_nonces(nonces: &Vec<[u8; 66]>) -> (r: Option<[u8; 66]>)
    requires
        nonces@.len() > 0,
    ensures
        r == aggregated_nonce(nonces@),
        r is Some <==> are_public_nonces(nonces@),
        r matches Some(sum) ==> is_aggregated_nonce(sum),
{
    let parsed: Result<Vec<_>, _> =
        nonces.iter().map(|n| PublicNonce::from_byte_array(n)).collect();
    let parsed = parsed.ok()?;
    Some(AggregatedNonce::new(&parsed.iter().collect::<Vec<_>>()).serialize())
}

/// What the signers of a message agree on before they sign.
#[derive(Debug)]
pub struct SigningSession {
    /// The message.
    pub message: [u8; 32],
    /// The sum of the signers' public nonces.
    pub nonce: [u8; 66],
    /// The tweak of the aggregated key.
    pub tap_tweak: [u8; 32],
    /// The keys, in the order in which they are aggregated.
    pub keys: Vec<PublicKey>,
}

/// What such a session holds.
pub struct SessionModel {
    pub message: [u8; 32],
    pub nonce: [u8; 66],
    pub tap_tweak: [u8; 32],
    pub keys: Seq<PublicKey>,
}

impl View for SigningSession {
    type V = SessionModel;

    open spec fn view(&self) -> SessionModel {
        SessionModel {
            message: self.message,
            nonce: self.nonce,
            tap_tweak: self.tap_tweak,
            keys: self.keys@,
        }
    }
}

impl SessionModel {
    /// Whether the session can be signed in.
    pub open spec fn wf(self) -> bool {
        &&& self.keys.len() > 0
        &&& is_aggregated_nonce(self.nonce)
        &&& tweaked_aggregated_key(self.keys, self.tap_tweak) is Some
    }

    /// Whether `signature` is the holder of `key`'s part of the signature, with
    /// the nonce `public`.
    pub open spec fn is_signed(self, key: PublicKey, public: [u8; 66], signature: [u8; 32]) -> bool {
        verifies_partially(
            self.message,
            self.nonce,
            self.tap_tweak,
            self.keys,
            key,
            public,
            signature,
        )
    }

    /// The signature that some parts add up to.
    pub open spec fn signature(self, parts: Seq<[u8; 32]>) -> [u8; 64] {
        aggregated_signature(self.message, self.nonce, self.tap_tweak, self.keys, parts)
    }
}

/// Whether `signature` is the part of a signature of `message` by the keys
/// `keys` that the holder of `key` adds with the nonce `public`: whether
/// `secp256k1::musig::Session::partial_verify` accepts it.
pub uninterp spec fn verifies_partially(
    message: [u8; 32],
    nonce: [u8; 66],
    tap_tweak: [u8; 32],
    keys: Seq<[u8; 33]>,
    key: [u8; 33],
    public: [u8; 66],
    signature: [u8; 32],
) -> bool;

/// Signs with `secp256k1::musig::Session::partial_sign`, in the session of the
/// keys, the tweak, the nonce and the message.
///
/// The signature rests on the secret part of the nonce; it is one that
/// verifies for the signer's key and the public part.
#[verifier::external_body]
pub(crate) fn sign_partially(
    session: &SigningSession,
    nonce: NoncePair,
    secret: &SecretKey,
) -> (r: [u8; 32])
    requires
        session@.wf(),
        public_key_of(*secret) == Some(nonce.spec_key()),
    ensures
        is_scalar(r),
        verifies_partially(
            session.message,
            session.nonce,
            session.tap_tweak,
            session.keys@,
            nonce.spec_key(),
            nonce.spec_public(),
            r,
        ),
{
    let points: Vec<_> =
        session.keys.iter().map(|k| secp256k1::PublicKey::from_slice(k).unwrap()).collect();
    let tweak = secp256k1::Scalar::from_be_bytes(session.tap_tweak).unwrap();
    let mut cache = KeyAggCache::new(&points.iter().collect::<Vec<_>>());
    cache.pubkey_xonly_tweak_add(&tweak).unwrap();
    let sum = AggregatedNonce::from_byte_array(&session.nonce).unwrap();
    let keypair = secp256k1::Keypair::from_secret_bytes(*secret).unwrap();
    Session::new(&cache, sum, &session.message)
        .partial_sign(nonce.secret, &keypair, &cache)
        .serialize()
}

/// Whether all of a list are scalars.
pub open spec fn are_scalars(parts: Seq<[u8; 32]>) -> bool {
    forall|i: int| 0 <= i < parts.len() ==> is_scalar(#[trigger] parts[i])
}

/// The signature of `message` by the keys `keys` that partial signatures add up
/// to.
pub uninterp spec fn aggregated_signature(
    message: [u8; 32],
    nonce: [u8; 66],
    tap_tweak: [u8; 32],
    keys: Seq<[u8; 33]>,
    parts: Seq<[u8; 32]>,
) -> [u8; 64];

/// Adds partial signatures with
/// `secp256k1::musig::Session::partial_sig_agg`, in the session of the keys,
/// the tweak, the nonce and the message.
#[verifier::external_body]
pub(crate) fn add_signatures(session: &SigningSession, parts: &Vec<[u8; 32]>) -> (r: [u8; 64])
    requires
        session@.wf(),
        parts@.len() > 0,
        are_scalars(parts@),
    ensures
        r == aggregated_signature(
            session.message,
            session.nonce,
            session.tap_tweak,
            session.keys@,
            parts@,
        ),
{
    let points: Vec<_> =
        session.keys.iter().map(|k| secp256k1::PublicKey::from_slice(k).unwrap()).collect();
    let tweak = secp256k1::Scalar::from_be_bytes(session.tap_tweak).unwrap();
    let mut cache = KeyAggCache::new(&points.iter().collect::<Vec<_>>());
    cache.pubkey_xonly_tweak_add(&tweak).unwrap();
    let sum = AggregatedNonce::from_byte_array(&session.nonce).unwrap();
    let parts: Vec<_> = parts
        .iter()
        .map(|p| PartialSignature::from_byte_array(p).unwrap())
        .collect();
    let session = Session::new(&cache, sum, &session.message);
    let sum = session.partial_sig_agg(&parts.iter().collect::<Vec<_>>());
    *sum.assume_valid().as_byte_array()
}

/// The number that big-endian bytes stand for.
pub open spec fn big_endian(bytes: Seq<u8>) -> nat
    decreases bytes.len(),
{
    if bytes.len() == 0 {
        0
    } else {
        256 * big_endian(bytes.drop_last()) + bytes.last() as nat
    }
}

/// The order of the curve.
pub open spec fn curve_order() -> nat {
    0xffff_ffff_ffff_ffff_ffff_ffff_ffff_fffe_baae_dce6_af48_a03b_bfd2_5e8c_d036_4141nat
}

/// Whether 32 big-endian bytes are a number below the order of the curve.
pub open spec fn is_scalar(bytes: [u8; 32]) -> bool {
    big_endian(bytes@) < curve_order()
}

/// Whether `bitcoin::secp256k1::Scalar::from_be_bytes` accepts the bytes.
#[verifier::external_body]
pub(crate) fn scalar_in_range(bytes: &[u8; 32]) -> (r: bool)
    ensures
        r == is_scalar(*bytes),
{
    bitcoin::secp256k1::Scalar::from_be_bytes(*bytes).is_ok()
}

/// The SHA-256 hash of a byte string.
pub uninterp spec fn sha256_of(bytes: Seq<u8>) -> [u8; 32];

/// Hashes with `bitcoin::hashes::sha256`.
#[verifier::external_body]
pub(crate) fn sha256(bytes: &[u8]) -> (r: [u8; 32])
    ensures
        r == sha256_of(bytes@),
{
    bitcoin::hashes::Hash::to_byte_array(<bitcoin::hashes::sha256::Hash as bitcoin::hashes::Hash>::hash(bytes))
}

/// The RIPEMD-160 hash of the SHA-256 hash of a byte string.
pub uninterp spec fn hash160_of(bytes: Seq<u8>) -> [u8; 20];

/// Hashes with `bitcoin::hashes::hash160`.
#[verifier::external_body]
pub(crate) fn hash160(bytes: &[u8]) -> (r: Hash160)
    ensures
        r == hash160_of(bytes@),
{
    bitcoin::hashes::Hash::to_byte_array(<bitcoin::hashes::hash160::Hash as bitcoin::hashes::Hash>::hash(bytes))
}

/// The output script that pays to the hash of a redeem script.
pub open spec fn p2wsh_bytes(redeemscript: Seq<u8>) -> Seq<u8> {
    seq![0u8, 32u8] + sha256_of(redeemscript)@
}

/// The output script of a redeem script, by `bitcoin::Script::to_p2wsh`: the
/// witness version zero and a push of the redeem script's SHA-256 hash.
#[verifier::external_body]
pub(crate) fn redeemscript_to_scriptpubkey(redeemscript: &[u8]) -> (r: Vec<u8>)
    ensures
        r@ == p2wsh_bytes(redeemscript@),
{
    bitcoin::Script::from_bytes(redeemscript).to_p2wsh().into_bytes()
}

/// The output script that an address of a network stands for; nothing where
/// the text is no address or one of another network.
pub uninterp spec fn address_script(text: Seq<char>, network: Network) -> Option<Seq<u8>>;

/// Parses an address with `bitcoin::Address::from_str`, requires the network
/// with `bitcoin::Address::require_network`, and gives the output script.
#[verifier::external_body]
pub(crate) fn parse_address(text: &str, network: Network) -> (r: Option<Vec<u8>>)
    ensures
        match (r, address_script(text@, network)) {
            (Some(script), Some(expected)) => script@ == expected,
            (None, None) => true,
            _ => false,
        },
{
    let required = match network {
        Network::Bitcoin => bitcoin::Network::Bitcoin,
        Network::Testnet => bitcoin::Network::Testnet,
        Network::Testnet4 => bitcoin::Network::Testnet4,
        Network::Signet => bitcoin::Network::Signet,
        Network::Regtest => bitcoin::Network::Regtest,
    };
    let address: bitcoin::Address<NetworkUnchecked> = text.parse().ok()?;
    Some(address.require_network(required).ok()?.script_pubkey().into_bytes())
}

/// The text of the address that stands for an output script on a network;
/// nothing where no address does.
pub uninterp spec fn address_of(script: Seq<u8>, network: Network) -> Option<Seq<char>>;

/// The address of an output script, by `bitcoin::Address::from_script` and its
/// `Display`. A taproot output, witness version one and a push of 32 bytes,
/// has one.
#[verifier::external_body]
pub(crate) fn script_address(script: &[u8], network: Network) -> (r: Option<String>)
    ensures
        match (r, address_of(script@, network)) {
            (Some(text), Some(expected)) => text@ == expected,
            (None, None) => true,
            _ => false,
        },
        script@.len() == 34 && script@[0] == 0x51 && script@[1] == 32 ==> r is Some,
{
    let network = match network {
        Network::Bitcoin => bitcoin::Network::Bitcoin,
        Network::Testnet => bitcoin::Network::Testnet,
        Network::Testnet4 => bitcoin::Network::Testnet4,
        Network::Signet => bitcoin::Network::Signet,
        Network::Regtest => bitcoin::Network::Regtest,
    };
    let address = bitcoin::Address::from_script(bitcoin::Script::from_bytes(script), network);
    Some(address.ok()?.to_string())
}

/// Whether a signature, DER encoded, is one of a digest under a key; not where
/// the signature or the key is malformed.
pub uninterp spec fn is_signed(digest: [u8; 32], signature: Seq<u8>, key: PublicKey) -> bool;

/// Verifies a signature with `bitcoin::secp256k1::Secp256k1::verify_ecdsa`.
#[verifier::external_body]
pub(crate) fn verify_ecdsa(digest: &[u8; 32], signature: &[u8], key: &PublicKey) -> (r: bool)
    ensures
        r == is_signed(*digest, signature@, *key),
{
    let message = bitcoin::secp256k1::Message::from_digest(*digest);
    let signature = bitcoin::secp256k1::ecdsa::Signature::from_der(signature);
    let key = bitcoin::secp256k1::PublicKey::from_slice(key);
    match (signature, key) {
        (Ok(signature), Ok(key)) => bitcoin::secp256k1::Secp256k1::verification_only()
            .verify_ecdsa(&message, &signature, &key)
            .is_ok(),
        _ => false,
    }
}

/// A message of a nostr relay.
#[verifier::external_type_specification]
#[verifier::external_body]
pub struct ExRelayMessage<'a>(::nostr::message::RelayMessage<'a>);

/// What a text says as a message of a nostr relay: nothing where it is none;
/// where it is one, whether it says of an event that the relay took it, and
/// nothing more where it is of another kind.
pub uninterp spec fn relay_message(text: Seq<char>) -> Option<Option<bool>>;

/// Parses a relay's message with `nostr::message::RelayMessage::from_json`,
/// and gives the status of an `Ok` message beside it. Of the message itself
/// nothing more is claimed.
#[verifier::external_body]
pub(crate) fn parse_relay_message(text: &str) -> (r: Option<
    (::nostr::message::RelayMessage<'static>, Option<bool>),
>)
    ensures
        match r {
            Some((_, status)) => relay_message(text@) == Some(status),
            None => relay_message(text@) is None,
        },
{
    let message = ::nostr::message::RelayMessage::from_json(text).ok()?;
    let status = match &message {
        ::nostr::message::RelayMessage::Ok { status, .. } => Some(*status),
        _ => None,
    };
    Some((message, status))
}

/// The text of bytes, by `String::from_utf8`: there is one exactly where the
/// bytes are valid UTF-8, and it is what they decode to.
#[verifier::external_body]
pub(crate) fn utf8_text(bytes: Vec<u8>) -> (r: Option<String>)
    ensures
        match r {
            Some(text) => valid_utf8(bytes@) && text@ == decode_utf8(bytes@),
            None => !valid_utf8(bytes@),
        },
{
    String::from_utf8(bytes).ok()
}

/// The parts of a URI that a connection needs.
#[derive(Debug)]
pub struct UriParts {
    /// The scheme, where it is named.
    pub scheme: Option<String>,
    /// The host, where there is an authority.
    pub host: Option<String>,
    /// The port, where it is named.
    pub port: Option<u16>,
}

/// What the parts of a URI hold.
pub struct UriModel {
    pub scheme: Option<Seq<char>>,
    pub host: Option<Seq<char>>,
    pub port: Option<u16>,
}

impl View for UriParts {
    type V = UriModel;

    open spec fn view(&self) -> UriModel {
        UriModel {
            scheme: match self.scheme {
                Some(text) => Some(text@),
                None => None,
            },
            host: match self.host {
                Some(text) => Some(text@),
                None => None,
            },
            port: self.port,
        }
    }
}

/// The parts of a text as a URI; nothing where it is none.
pub uninterp spec fn uri_parts(text: Seq<char>) -> Option<UriModel>;

/// Parses a URI with the `FromStr` of `http::Uri`, and gives its scheme, and
/// the host and the port of its authority.
#[verifier::external_body]
pub(crate) fn parse_uri(text: &str) -> (r: Option<UriParts>)
    ensures
        match r {
            Some(parts) => uri_parts(text@) == Some(parts@),
            None => uri_parts(text@) is None,
        },
{
    let uri: Uri = text.parse().ok()?;
    Some(UriParts {
        scheme: uri.scheme_str().map(|scheme| scheme.to_string()),
        host: uri.host().map(|host| host.to_string()),
        port: uri.port_u16(),
    })
}

/// A hashlock script is 69 bytes: it hashes with SHA-256, compares with the
/// hash, and checks a signature of the key, whatever they are.
pub proof fn law_hashlock_bytes_hold_hash_and_key(hash: Seq<u8>, key: Seq<u8>)
    requires
        hash.len() == 32,
        key.len() == 32,
    ensures
        hashlock_bytes(hash, key).len() == 69,
        hashlock_bytes(hash, key)[0] == 0xa8,
        hashlock_bytes(hash, key)[1] == 32,
        hashlock_bytes(hash, key).subrange(2, 34) == hash,
        hashlock_bytes(hash, key)[34] == 0x88,
        hashlock_bytes(hash, key)[35] == 32,
        hashlock_bytes(hash, key).subrange(36, 68) == key,
        hashlock_bytes(hash, key)[68] == 0xac,
        hashlock_elements(hash, key)[1] == InstructionModel::Push(hash),
        hashlock_elements(hash, key)[3] == InstructionModel::Push(key),
{
    assert(hashlock_bytes(hash, key).subrange(2, 34) =~= hash);
    assert(hashlock_bytes(hash, key).subrange(36, 68) =~= key);
}

/// A timelock script ends in the key and its signature check behind the lock
/// time, which it compares with that of the spending transaction.
pub proof fn law_timelock_bytes_hold_the_key(lock_time: u32, key: Seq<u8>)
    requires
        key.len() == 32,
    ensures
        ({
            let script = timelock_bytes(lock_time, key);
            let n = script.len() as int;
            &&& n >= 37
            &&& script[n - 36] == 0xb1
            &&& script[n - 35] == 0x75
            &&& script[n - 34] == 32
            &&& script.subrange(n - 33, n - 1) == key
            &&& script[n - 1] == 0xac
            &&& script.take(n - 36) == pushed_bytes(lock_time as nat)
        }),
        1 <= lock_time <= 16 ==> pushed_bytes(lock_time as nat) == seq![(0x50 + lock_time) as u8],
        17 <= lock_time < 128 ==> pushed_bytes(lock_time as nat) == seq![1u8, lock_time as u8],
        timelock_elements(lock_time, key)[1] == InstructionModel::Op(0xb1),
        timelock_elements(lock_time, key)[3] == InstructionModel::Push(key),
        lock_time > 16 ==> pushes_number(timelock_elements(lock_time, key)[0], lock_time as int)
            || lock_time >= 0x8000_0000,
{
    let script = timelock_bytes(lock_time, key);
    let n = script.len() as int;
    lemma_script_number(lock_time as nat);
    assert(script.subrange(n - 33, n - 1) =~= key);
    assert(script.take(n - 36) =~= pushed_bytes(lock_time as nat));
    if 17 <= lock_time < 128 {
        assert(pushed_bytes(lock_time as nat) =~= seq![1u8, lock_time as u8]);
    }
}

/// The output script of a redeem script names its SHA-256 hash behind two
/// bytes.
pub proof fn law_p2wsh_names_the_hash(redeemscript: Seq<u8>)
    ensures
        p2wsh_bytes(redeemscript).len() == 34,
        p2wsh_bytes(redeemscript)[0] == 0,
        p2wsh_bytes(redeemscript)[1] == 32,
        p2wsh_bytes(redeemscript).subrange(2, 34) == sha256_of(redeemscript)@,
{
    assert(p2wsh_bytes(redeemscript).subrange(2, 34) =~= sha256_of(redeemscript)@);
}

/// The opcodes push 1 to 16 and minus one, and no other pushes a number.
pub proof fn law_opcodes_push_small_numbers(code: u8)
    ensures
        number_pushed_by(0x4f) == Some(-1i32),
        number_pushed_by(code) is Some <==> code == 0x4f || 0x51 <= code <= 0x60,
        0x51 <= code <= 0x60 ==> number_pushed_by(code)->0 == code - 0x50,
        LOCK_TIME_THRESHOLD == 500_000_000,
{
}

/// Removing the witnesses changes nothing else of a transaction.
pub proof fn law_witnesses_alone_are_removed(tx: TransactionModel, i: int)
    ensures
        without_witnesses(tx).version == tx.version,
        without_witnesses(tx).lock_time == tx.lock_time,
        without_witnesses(tx).output == tx.output,
        without_witnesses(tx).input.len() == tx.input.len(),
        0 <= i < tx.input.len() ==> {
            &&& without_witnesses(tx).input[i].previous_output == tx.input[i].previous_output
            &&& without_witnesses(tx).input[i].sequence == tx.input[i].sequence
            &&& without_witnesses(tx).input[i].script_sig == tx.input[i].script_sig
            &&& without_witnesses(tx).input[i].witness == Seq::<Seq<u8>>::empty()
        },
{
}

} // verus!
