//! The scripts of a taproot contract.

use crate::chain::{
    bytes_equal, OutputModel, PublicKey, SecretKey, Transaction, TransactionModel, TxOut,
    XOnlyPublicKey,
};
use crate::primitives::{
    add_leaf, add_to_point, built_bytes, commit_to_tree, committed_tree, control_block,
    hashlock_bytes, hashlock_elements, instruction_models, instructions_of, key_spend_hash,
    new_script, new_tree, push_lock_time, push_opcode, push_slice, script_bytes,
    script_instructions, taproot_sighash, timelock_bytes, timelock_elements, tree_control_block,
    tree_leaves, tweaked_point, Instruction, InstructionModel, OP_CHECKSIG, OP_CLTV, OP_DROP,
    OP_EQUALVERIFY, OP_SHA256,
};
use crate::protocol::error::ProtocolError;
use crate::protocol::taproot_messages::to_array;
use vstd::prelude::*;

verus! {

/// The x coordinate of a compressed public key.
pub open spec fn x_coordinate(key: PublicKey) -> Seq<u8> {
    key@.subrange(1, 33)
}

/// The x-only form of a public key.
pub fn x_only(key: &PublicKey) -> (r: XOnlyPublicKey)
    ensures
        r@ == x_coordinate(*key),
{
    let mut out: [u8; 32] = [0u8; 32];
    let mut i: usize = 0;
    while i < 32
        invariant
            i <= 32,
            forall|j: int| 0 <= j < i ==> out@[j] == key@[j + 1],
        decreases 32 - i,
    {
        out[i] = key[i + 1];
        i += 1;
    }
    assert(out@ =~= x_coordinate(*key));
    out
}

/// The hashlock script `OP_SHA256 <hash> OP_EQUALVERIFY <pubkey> OP_CHECKSIG`.
pub fn create_hashlock_script(hash: &[u8; 32], pubkey: &XOnlyPublicKey) -> (r: Vec<u8>)
    ensures
        r@ == hashlock_bytes(hash@, pubkey@),
        instructions_of(r@) == hashlock_elements(hash@, pubkey@),
{
    let script = push_opcode(new_script(), OP_SHA256);
    let script = push_slice(script, hash.as_slice());
    let script = push_opcode(script, OP_EQUALVERIFY);
    let script = push_slice(script, pubkey.as_slice());
    let script = push_opcode(script, OP_CHECKSIG);
    let ghost items = instructions_of(built_bytes(script));
    assert(built_bytes(script) =~= hashlock_bytes(hash@, pubkey@));
    assert(items =~= hashlock_elements(hash@, pubkey@));
    script_bytes(script)
}

/// What [`extract_hash_from_hashlock`] finds among the elements of a script.
pub open spec fn hash_among(items: Seq<InstructionModel>) -> Result<Seq<u8>, ProtocolError> {
    if items.len() < 5 {
        Err(ProtocolError::General("Invalid hashlock script format"))
    } else if items[1] is Push && items[1]->Push_0.len() == 32 {
        Ok(items[1]->Push_0)
    } else {
        Err(ProtocolError::General("Failed to extract hash from hashlock script"))
    }
}

/// The bytes in a result.
pub open spec fn bytes_in<E>(r: Result<[u8; 32], E>) -> Result<Seq<u8>, E> {
    match r {
        Ok(hash) => Ok(hash@),
        Err(e) => Err(e),
    }
}

/// The hash among the elements of a hashlock script: its second element,
/// where that pushes 32 bytes.
pub fn hash_in_elements(items: &Vec<Instruction>) -> (r: Result<[u8; 32], ProtocolError>)
    ensures
        bytes_in(r) == hash_among(instruction_models(items@)),
{
    if items.len() < 5 {
        return Err(ProtocolError::General("Invalid hashlock script format"));
    }
    match &items[1] {
        Instruction::Push(bytes) => match to_array(bytes.as_slice()) {
            Some(hash) => Ok(hash),
            None => Err(ProtocolError::General("Failed to extract hash from hashlock script")),
        },
        _ => Err(ProtocolError::General("Failed to extract hash from hashlock script")),
    }
}

/// Extract the hash from a hashlock script.
pub fn extract_hash_from_hashlock(script: &[u8]) -> (r: Result<[u8; 32], ProtocolError>)
    ensures
        bytes_in(r) == hash_among(instructions_of(script@)),
{
    let items = script_instructions(script);
    hash_in_elements(&items)
}

/// Whether the fourth element of a script pushes exactly `key`.
pub open spec fn locks_to_key(items: Seq<InstructionModel>, key: Seq<u8>) -> bool {
    items.len() > 3 && items[3] == InstructionModel::Push(key)
}

/// A hashlock script gives back the hash and names the key that it was made
/// with.
pub proof fn law_hashlock_is_read_back(hash: [u8; 32], key: XOnlyPublicKey)
    ensures
        hash_among(hashlock_elements(hash@, key@)) == Ok::<Seq<u8>, ProtocolError>(hash@),
        locks_to_key(hashlock_elements(hash@, key@), key@),
        forall|other: Seq<u8>| #[trigger]
            locks_to_key(hashlock_elements(hash@, key@), other) ==> other == key@,
{
}

/// Whether the fourth element of a hashlock script is the given key.
pub fn hashlock_names_key(items: &Vec<Instruction>, key: &XOnlyPublicKey) -> (r: bool)
    ensures
        r == locks_to_key(instruction_models(items@), key@),
{
    if items.len() <= 3 {
        return false;
    }
    match &items[3] {
        Instruction::Push(bytes) => bytes_equal(bytes.as_slice(), key.as_slice()),
        _ => false,
    }
}

/// What [`check_taproot_hashlock_has_pubkey`] says of a script's elements and
/// the key derived from the nonce.
pub open spec fn hashlock_key_verdict(
    items: Seq<InstructionModel>,
    derived: Option<PublicKey>,
) -> Result<(), ProtocolError> {
    match derived {
        None => Err(ProtocolError::Secp),
        Some(key) => if locks_to_key(items, x_coordinate(key)) {
            Ok(())
        } else {
            Err(ProtocolError::General("Taproot hashlock pubkey doesn't match nonce-derived key"))
        },
    }
}

/// Check that a taproot hashlock script contains the public key derived from
/// `tweakable_point + nonce * G`.
pub fn check_taproot_hashlock_has_pubkey(
    hashlock_script: &[u8],
    tweakable_point: &PublicKey,
    nonce: &SecretKey,
) -> (r: Result<(), ProtocolError>)
    ensures
        r == hashlock_key_verdict(
            instructions_of(hashlock_script@),
            tweaked_point(*tweakable_point, *nonce),
        ),
{
    match add_to_point(tweakable_point, nonce) {
        None => Err(ProtocolError::Secp),
        Some(expected) => {
            let items = script_instructions(hashlock_script);
            if hashlock_names_key(&items, &x_only(&expected)) {
                Ok(())
            } else {
                Err(
                    ProtocolError::General(
                        "Taproot hashlock pubkey doesn't match nonce-derived key",
                    ),
                )
            }
        },
    }
}

/// The output script of a taproot output key.
pub open spec fn p2tr_bytes(output_key: [u8; 32]) -> Seq<u8> {
    seq![0x51u8, 32u8] + output_key@
}

/// The script that pays to a taproot output key: witness version one and a
/// push of the key.
pub fn p2tr_script(output_key: &[u8; 32]) -> (r: Vec<u8>)
    ensures
        r@ == p2tr_bytes(*output_key),
{
    let mut out: Vec<u8> = Vec::new();
    out.push(0x51u8);
    out.push(32u8);
    let mut i: usize = 0;
    while i < 32
        invariant
            i <= 32,
            out@ == seq![0x51u8, 32u8] + output_key@.subrange(0, i as int),
        decreases 32 - i,
    {
        out.push(output_key[i]);
        i += 1;
        assert(out@ =~= seq![0x51u8, 32u8] + output_key@.subrange(0, i as int));
    }
    assert(output_key@.subrange(0, 32) =~= output_key@);
    out
}

/// The timelock script `<locktime> OP_CLTV OP_DROP <pubkey> OP_CHECKSIG`.
pub fn create_timelock_script(locktime: u32, pubkey: &XOnlyPublicKey) -> (r: Vec<u8>)
    ensures
        r@ == timelock_bytes(locktime, pubkey@),
        instructions_of(r@) == timelock_elements(locktime, pubkey@),
{
    let script = push_lock_time(new_script(), locktime);
    let script = push_opcode(script, OP_CLTV);
    let script = push_opcode(script, OP_DROP);
    let script = push_slice(script, pubkey.as_slice());
    let script = push_opcode(script, OP_CHECKSIG);
    let ghost items = instructions_of(built_bytes(script));
    assert(built_bytes(script) =~= timelock_bytes(locktime, pubkey@));
    assert(items =~= timelock_elements(locktime, pubkey@));
    script_bytes(script)
}

/// The two scripts of a contract, side by side at depth one.
pub open spec fn contract_leaves(hashlock_script: Seq<u8>, timelock_script: Seq<u8>) -> Seq<
    (u8, Seq<u8>),
> {
    seq![(1u8, hashlock_script), (1u8, timelock_script)]
}

/// The output key and the tweak of the taproot output with `internal_key` and
/// the two scripts of a contract.
pub open spec fn taproot_commitment(
    hashlock_script: Seq<u8>,
    timelock_script: Seq<u8>,
    internal_key: [u8; 32],
) -> Option<([u8; 32], [u8; 32])> {
    committed_tree(contract_leaves(hashlock_script, timelock_script), internal_key)
}

/// The control block of `script` in that output.
pub open spec fn control_block_of(
    hashlock_script: Seq<u8>,
    timelock_script: Seq<u8>,
    internal_key: [u8; 32],
    script: Seq<u8>,
) -> Option<Seq<u8>> {
    tree_control_block(contract_leaves(hashlock_script, timelock_script), internal_key, script)
}

/// The tree of the two scripts of a contract: there always is one.
fn contract_tree(hashlock_script: &[u8], timelock_script: &[u8]) -> (r: Option<
    bitcoin::taproot::TaprootBuilder,
>)
    ensures
        r is Some,
        tree_leaves(r->0) == contract_leaves(hashlock_script@, timelock_script@),
{
    match add_leaf(new_tree(), 1, hashlock_script) {
        None => None,
        Some(tree) => {
            let tree = add_leaf(tree, 1, timelock_script);
            assert(tree_leaves(tree->0) =~= contract_leaves(hashlock_script@, timelock_script@));
            tree
        },
    }
}

/// Commits to the two scripts of a contract under an internal key: the output
/// key and the tweak.
pub fn commit_to_scripts(
    hashlock_script: &[u8],
    timelock_script: &[u8],
    internal_key: &XOnlyPublicKey,
) -> (r: Option<([u8; 32], [u8; 32])>)
    ensures
        r == taproot_commitment(hashlock_script@, timelock_script@, *internal_key),
{
    match contract_tree(hashlock_script, timelock_script) {
        None => None,
        Some(tree) => commit_to_tree(tree, internal_key),
    }
}

/// The control block of one of the two scripts of a contract. There is one
/// wherever the scripts and the internal key make a taproot output.
pub fn leaf_control_block(
    hashlock_script: &[u8],
    timelock_script: &[u8],
    internal_key: &XOnlyPublicKey,
    script: &[u8],
) -> (r: Option<Vec<u8>>)
    ensures
        control_block_of(hashlock_script@, timelock_script@, *internal_key, script@) == match r {
            Some(block) => Some(block@),
            None => None,
        },
        script@ == hashlock_script@ || script@ == timelock_script@ ==> (r is Some
            <==> taproot_commitment(hashlock_script@, timelock_script@, *internal_key) is Some),
{
    match contract_tree(hashlock_script, timelock_script) {
        None => None,
        Some(tree) => {
            proof {
                let leaves = contract_leaves(hashlock_script@, timelock_script@);
                assert(leaves[0].1 == hashlock_script@);
                assert(leaves[1].1 == timelock_script@);
            }
            control_block(tree, internal_key, script)
        },
    }
}

/// The output of a taproot contract.
#[derive(Debug, Clone, Copy, PartialEq, Eq)]
pub struct TaprootOutput {
    /// The tweaked key that the output pays to.
    pub output_key: XOnlyPublicKey,
    /// The tweak of the internal key.
    pub tap_tweak: [u8; 32],
}

/// Commits to a hashlock and a timelock script under an internal key: the
/// output script, and the key and tweak it comes from.
pub fn create_taproot_script(
    hashlock_script: &[u8],
    timelock_script: &[u8],
    internal_key: &XOnlyPublicKey,
) -> (r: Result<(Vec<u8>, TaprootOutput), ProtocolError>)
    ensures
        match (r, taproot_commitment(hashlock_script@, timelock_script@, *internal_key)) {
            (Ok((script, output)), Some((output_key, tap_tweak))) => script@ == p2tr_bytes(
                output_key,
            ) && output == (TaprootOutput { output_key, tap_tweak }),
            (Err(e), None) => e == ProtocolError::TaprootBuilder,
            _ => false,
        },
{
    match commit_to_scripts(hashlock_script, timelock_script, internal_key) {
        None => Err(ProtocolError::TaprootBuilder),
        Some((output_key, tap_tweak)) => Ok(
            (p2tr_script(&output_key), TaprootOutput { output_key, tap_tweak }),
        ),
    }
}

/// The hash that both parties sign to spend a contract together: the
/// transaction must have exactly one input, which spends the contract's
/// output.
pub open spec fn contract_sighash(
    tx: TransactionModel,
    amount: u64,
    commitment: Option<([u8; 32], [u8; 32])>,
) -> Result<[u8; 32], ProtocolError> {
    match commitment {
        None => Err(ProtocolError::TaprootBuilder),
        Some((output_key, _)) => if tx.input.len() != 1 {
            Err(ProtocolError::TaprootSighash)
        } else {
            match key_spend_hash(
                tx.version,
                tx.lock_time,
                tx.input[0].previous_output,
                tx.input[0].sequence,
                tx.output,
                OutputModel { value: amount, script_pubkey: p2tr_bytes(output_key) },
            ) {
                None => Err(ProtocolError::TaprootSighash),
                Some(hash) => Ok(hash),
            }
        },
    }
}

/// Calculate the hash that both parties sign to spend a contract together.
pub fn calculate_contract_sighash(
    spending_tx: &Transaction,
    contract_amount: u64,
    hashlock_script: &[u8],
    timelock_script: &[u8],
    internal_key: &XOnlyPublicKey,
) -> (r: Result<[u8; 32], ProtocolError>)
    ensures
        r == contract_sighash(
            spending_tx@,
            contract_amount,
            taproot_commitment(hashlock_script@, timelock_script@, *internal_key),
        ),
{
    let script_pubkey = match create_taproot_script(
        hashlock_script,
        timelock_script,
        internal_key,
    ) {
        Err(e) => {
            return Err(e);
        },
        Ok((script, _)) => script,
    };
    if spending_tx.input.len() != 1 {
        return Err(ProtocolError::TaprootSighash);
    }
    let spent = TxOut { value: contract_amount, script_pubkey };
    let input = &spending_tx.input[0];
    assert(spending_tx@.input[0] == input@);
    match taproot_sighash(
        spending_tx.version,
        spending_tx.lock_time,
        &input.previous_output,
        input.sequence,
        &spending_tx.output,
        &spent,
    ) {
        None => Err(ProtocolError::TaprootSighash),
        Some(hash) => Ok(hash),
    }
}

/// A hash is read from a script exactly where it has five elements at least
/// and the second pushes 32 bytes, which are the hash.
pub proof fn law_hash_is_the_second_element(items: Seq<InstructionModel>)
    ensures
        hash_among(items) is Ok <==> items.len() >= 5 && (items[1] matches InstructionModel::Push(
            hash,
        ) && hash.len() == 32),
        hash_among(items) matches Ok(hash) ==> items[1] == InstructionModel::Push(hash),
{
}

/// A hashlock script names the maker's key exactly where its fourth element
/// pushes the 32 bytes behind the first of the key moved by the nonce.
pub proof fn law_hashlock_key_is_derived(
    items: Seq<InstructionModel>,
    derived: Option<PublicKey>,
)
    ensures
        hashlock_key_verdict(items, derived) is Ok <==> {
            &&& derived is Some
            &&& items.len() >= 4
            &&& items[3] == InstructionModel::Push(derived->0@.subrange(1, 33))
        },
        derived is None ==> hashlock_key_verdict(items, derived) == Err::<(), ProtocolError>(
            ProtocolError::Secp,
        ),
        forall|hash: Seq<u8>|
            derived is Some ==> hashlock_key_verdict(
                #[trigger] hashlock_elements(hash, derived->0@.subrange(1, 33)),
                derived,
            ) is Ok,
{
}

/// The output script of a key holds the key behind two bytes, and is that of no
/// other key.
pub proof fn law_output_script_names_the_key(output_key: [u8; 32], other: [u8; 32])
    ensures
        p2tr_bytes(output_key).len() == 34,
        p2tr_bytes(output_key)[0] == 0x51,
        p2tr_bytes(output_key)[1] == 0x20,
        p2tr_bytes(output_key).subrange(2, 34) == output_key@,
        p2tr_bytes(output_key) == p2tr_bytes(other) ==> output_key@ == other@,
{
    assert(p2tr_bytes(output_key).subrange(2, 34) =~= output_key@);
    assert(p2tr_bytes(other).subrange(2, 34) =~= other@);
}

/// The x coordinate of a key is all but its first byte: keys that differ in
/// that byte alone have the same.
pub proof fn law_x_coordinate_drops_the_sign(key: PublicKey, i: int)
    ensures
        x_coordinate(key).len() == 32,
        0 <= i < 32 ==> x_coordinate(key)[i] == key[i + 1],
        seq![key[0]] + x_coordinate(key) == key@,
{
    assert(seq![key[0]] + x_coordinate(key) =~= key@);
}

/// Both scripts of a contract are committed to, the receiver's first, at the
/// same depth, and nothing else is.
pub proof fn law_contract_has_two_leaves(hashlock_script: Seq<u8>, timelock_script: Seq<u8>)
    ensures
        contract_leaves(hashlock_script, timelock_script).len() == 2,
        contract_leaves(hashlock_script, timelock_script)[0] == (1u8, hashlock_script),
        contract_leaves(hashlock_script, timelock_script)[1] == (1u8, timelock_script),
{
}

/// The hash that both parties sign covers what is spent and where it goes: it
/// is that of the only input, of all outputs, and of the contract's output with
/// its amount; and there is none for a transaction with another number of
/// inputs. What already stands in the witnesses has no part in it.
pub proof fn law_sighash_covers_the_spend(
    tx: TransactionModel,
    signed: TransactionModel,
    amount: u64,
    output_key: [u8; 32],
    tap_tweak: [u8; 32],
    hash: [u8; 32],
)
    requires
        signed.version == tx.version,
        signed.lock_time == tx.lock_time,
        signed.output == tx.output,
        signed.input.len() == tx.input.len(),
        forall|i: int|
            0 <= i < tx.input.len() ==> (#[trigger] signed.input[i]).previous_output
                == tx.input[i].previous_output && signed.input[i].sequence == tx.input[i].sequence,
    ensures
        contract_sighash(tx, amount, None) is Err,
        tx.input.len() != 1 ==> contract_sighash(tx, amount, Some((output_key, tap_tweak))) is Err,
        contract_sighash(signed, amount, Some((output_key, tap_tweak))) == contract_sighash(
            tx,
            amount,
            Some((output_key, tap_tweak)),
        ),
        contract_sighash(tx, amount, Some((output_key, tap_tweak))) == Ok::<_, ProtocolError>(hash)
            ==> key_spend_hash(
            tx.version,
            tx.lock_time,
            tx.input[0].previous_output,
            tx.input[0].sequence,
            tx.output,
            OutputModel { value: amount, script_pubkey: seq![0x51u8, 32u8] + output_key@ },
        ) == Some(hash),
        tx.input.len() == 1 && key_spend_hash(
            tx.version,
            tx.lock_time,
            tx.input[0].previous_output,
            tx.input[0].sequence,
            tx.output,
            OutputModel { value: amount, script_pubkey: seq![0x51u8, 32u8] + output_key@ },
        ) == Some(hash) ==> contract_sighash(tx, amount, Some((output_key, tap_tweak))) == Ok::<
            _,
            ProtocolError,
        >(hash),
{
    if tx.input.len() == 1 {
        assert(signed.input[0].previous_output == tx.input[0].previous_output);
    }
}

} // verus!
