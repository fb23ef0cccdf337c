//! A taproot contract between a sender and a receiver.

use crate::chain::{
    copy_bytes, hash_equal, Hash160, InputModel, Network, OutPoint, OutputModel, Transaction,
    TransactionModel, TxIn, TxOut, XOnlyPublicKey,
};
use crate::primitives::{
    address_of, built_bytes, claim_bytes, hash160, hash160_of, new_script, push_lock_time,
    push_opcode, push_slice, refund_bytes, script_address, script_bytes, OP_CHECKSIG, OP_CHECKSIGVERIFY, OP_CLTV,
    OP_EQUALVERIFY, OP_HASH160,
};
use crate::protocol::contract2::{
    commit_to_scripts, control_block_of, leaf_control_block, p2tr_bytes, p2tr_script,
    taproot_commitment,
};
use crate::protocol::error::ProtocolError;
use vstd::prelude::*;

verus! {

/// The sequence number of an input that locks nothing.
pub const MAX_SEQUENCE: u32 = 0xffff_ffff;

/// A taproot contract: the receiver takes it with a preimage, the sender takes
/// it back after a lock time.
#[derive(Debug)]
pub struct CoinSwapTaproot {
    /// The internal key.
    pub internal_key: XOnlyPublicKey,
    /// The key of the output.
    pub output_key: XOnlyPublicKey,
    /// The tweak of the internal key.
    pub tap_tweak: [u8; 32],
    /// The receiver's script.
    pub hashlock_script: Vec<u8>,
    /// The sender's script.
    pub timelock_script: Vec<u8>,
}

impl CoinSwapTaproot {
    /// Create a new contract. The sender's key is the internal key.
    pub fn new(
        sender_pubkey: &XOnlyPublicKey,
        receiver_pubkey: &XOnlyPublicKey,
        hashlock: &Hash160,
        locktime: u32,
    ) -> (r: Result<Self, ProtocolError>)
        ensures
            ({
                let hashlock_script = claim_bytes(hashlock@, receiver_pubkey@);
                let timelock_script = refund_bytes(locktime, sender_pubkey@);
                match (r, taproot_commitment(hashlock_script, timelock_script, *sender_pubkey)) {
                    (Ok(contract), Some((output_key, tap_tweak))) => {
                        &&& contract.hashlock_script@ == hashlock_script
                        &&& contract.timelock_script@ == timelock_script
                        &&& contract.internal_key == *sender_pubkey
                        &&& contract.output_key == output_key
                        &&& contract.tap_tweak == tap_tweak
                    },
                    (Err(e), None) => e == ProtocolError::TaprootBuilder,
                    _ => false,
                }
            }),
    {
        let hashlock_script = Self::build_hashlock_script(receiver_pubkey, hashlock);
        let timelock_script = Self::build_timelock_script(sender_pubkey, locktime);
        match commit_to_scripts(
            hashlock_script.as_slice(),
            timelock_script.as_slice(),
            sender_pubkey,
        ) {
            None => Err(ProtocolError::TaprootBuilder),
            Some((output_key, tap_tweak)) => Ok(
                CoinSwapTaproot {
                    internal_key: *sender_pubkey,
                    output_key,
                    tap_tweak,
                    hashlock_script,
                    timelock_script,
                },
            ),
        }
    }

    /// Build the hashlock script
    /// `OP_HASH160 <hash> OP_EQUALVERIFY <pubkey> OP_CHECKSIG`.
    fn build_hashlock_script(pubkey: &XOnlyPublicKey, hash: &Hash160) -> (r: Vec<u8>)
        ensures
            r@ == claim_bytes(hash@, pubkey@),
    {
        let script = push_opcode(new_script(), OP_HASH160);
        let script = push_slice(script, hash.as_slice());
        let script = push_opcode(script, OP_EQUALVERIFY);
        let script = push_slice(script, pubkey.as_slice());
        let script = push_opcode(script, OP_CHECKSIG);
        assert(built_bytes(script) =~= claim_bytes(hash@, pubkey@));
        script_bytes(script)
    }

    /// Build the timelock script `<pubkey> OP_CHECKSIGVERIFY <locktime> OP_CLTV`.
    fn build_timelock_script(pubkey: &XOnlyPublicKey, locktime: u32) -> (r: Vec<u8>)
        ensures
            r@ == refund_bytes(locktime, pubkey@),
    {
        let script = push_slice(new_script(), pubkey.as_slice());
        let script = push_opcode(script, OP_CHECKSIGVERIFY);
        let script = push_lock_time(script, locktime);
        let script = push_opcode(script, OP_CLTV);
        assert(built_bytes(script) =~= refund_bytes(locktime, pubkey@));
        script_bytes(script)
    }

    /// The output script to pay the contract to.
    pub fn script_pubkey(&self) -> (r: Vec<u8>)
        ensures
            r@ == p2tr_bytes(self.output_key),
    {
        p2tr_script(&self.output_key)
    }

    /// Get Taproot address for funding: the text of the address of the output
    /// script on a network.
    pub fn address(&self, network: Network) -> (r: String)
        ensures
            Some(r@) == address_of(p2tr_bytes(self.output_key), network),
    {
        let script = self.script_pubkey();
        assert(script@[0] == 0x51 && script@[1] == 32);
        let text = script_address(script.as_slice(), network);
        text.unwrap()
    }
}

/// A transaction that spends one output to one script.
pub open spec fn spend_model(
    outpoint: OutPoint,
    amount: u64,
    script: Seq<u8>,
    lock_time: u32,
    sequence: u32,
) -> TransactionModel {
    TransactionModel {
        version: 2,
        lock_time,
        input: seq![
            InputModel {
                previous_output: outpoint,
                script_sig: seq![],
                sequence,
                witness: seq![],
            },
        ],
        output: seq![OutputModel { value: amount, script_pubkey: script }],
    }
}

/// A transaction that spends one output to one script.
fn spend(outpoint: OutPoint, amount: u64, script: &[u8], lock_time: u32, sequence: u32) -> (r:
    Transaction)
    ensures
        r@ == spend_model(outpoint, amount, script@, lock_time, sequence),
{
    let mut input: Vec<TxIn> = Vec::new();
    input.push(
        TxIn {
            previous_output: outpoint,
            script_sig: Vec::new(),
            sequence,
            witness: Vec::new(),
        },
    );
    let mut output: Vec<TxOut> = Vec::new();
    output.push(TxOut { value: amount, script_pubkey: copy_bytes(script) });
    let r = Transaction { version: 2, lock_time, input, output };
    let ghost model = spend_model(outpoint, amount, script@, lock_time, sequence);
    assert(r.input@[0]@.script_sig =~= seq![]);
    assert(r.input@[0]@.witness =~= seq![]);
    assert(r@.input =~= model.input);
    assert(r@.output =~= model.output);
    r
}

/// The transaction by which the receiver takes a contract: at once, with the
/// preimage.
pub open spec fn claim_model(
    outpoint: OutPoint,
    amount: u64,
    script: Seq<u8>,
    fee: u64,
) -> TransactionModel {
    spend_model(outpoint, (amount - fee) as u64, script, 0, MAX_SEQUENCE)
}

/// The transaction by which the sender takes a contract back: not before the
/// lock time.
pub open spec fn refund_model(
    outpoint: OutPoint,
    amount: u64,
    script: Seq<u8>,
    lock_time: u32,
    fee: u64,
) -> TransactionModel {
    spend_model(outpoint, (amount - fee) as u64, script, lock_time, 0)
}

/// Create the transaction by which the receiver takes the contract, for a
/// given fee.
pub fn create_claim_tx(
    funding_outpoint: OutPoint,
    funding_amount: u64,
    recipient_script: &[u8],
    fee: u64,
) -> (r: Result<Transaction, ProtocolError>)
    ensures
        match r {
            Ok(tx) => fee <= funding_amount && tx@ == claim_model(
                funding_outpoint,
                funding_amount,
                recipient_script@,
                fee,
            ),
            Err(e) => fee > funding_amount && e == ProtocolError::InsufficientFunds,
        },
{
    match funding_amount.checked_sub(fee) {
        None => Err(ProtocolError::InsufficientFunds),
        Some(amount) => Ok(spend(funding_outpoint, amount, recipient_script, 0, MAX_SEQUENCE)),
    }
}

/// Create the transaction by which the sender takes the contract back, for a
/// given fee.
pub fn create_refund_tx(
    funding_outpoint: OutPoint,
    funding_amount: u64,
    refund_script: &[u8],
    locktime: u32,
    fee: u64,
) -> (r: Result<Transaction, ProtocolError>)
    ensures
        match r {
            Ok(tx) => fee <= funding_amount && tx@ == refund_model(
                funding_outpoint,
                funding_amount,
                refund_script@,
                locktime,
                fee,
            ),
            Err(e) => fee > funding_amount && e == ProtocolError::InsufficientFunds,
        },
{
    match funding_amount.checked_sub(fee) {
        None => Err(ProtocolError::InsufficientFunds),
        Some(amount) => Ok(spend(funding_outpoint, amount, refund_script, locktime, 0)),
    }
}

/// The bytes of the items of a witness.
pub open spec fn witness_items(witness: Seq<Vec<u8>>) -> Seq<Seq<u8>> {
    witness.map_values(|item: Vec<u8>| item@)
}

/// The witness for taking the contract with the preimage, given the control
/// block of the receiver's script, where there is one.
pub fn hashlock_witness(
    signature: Vec<u8>,
    preimage: &[u8],
    contract: &CoinSwapTaproot,
    control_block: Option<Vec<u8>>,
) -> (r: Result<Vec<Vec<u8>>, ProtocolError>)
    ensures
        match (r, control_block) {
            (Ok(witness), Some(block)) => witness_items(witness@) == seq![
                signature@,
                preimage@,
                contract.hashlock_script@,
                block@,
            ],
            (Err(e), None) => e == ProtocolError::General("Control block not found"),
            _ => false,
        },
{
    match control_block {
        None => Err(ProtocolError::General("Control block not found")),
        Some(block) => {
            let ghost items = seq![signature@, preimage@, contract.hashlock_script@, block@];
            let mut witness: Vec<Vec<u8>> = Vec::new();
            witness.push(signature);
            witness.push(copy_bytes(preimage));
            witness.push(copy_bytes(contract.hashlock_script.as_slice()));
            witness.push(block);
            assert(witness_items(witness@) =~= items);
            Ok(witness)
        },
    }
}

/// The witness for taking the contract back, given the control block of the
/// sender's script, where there is one.
pub fn timelock_witness(
    signature: Vec<u8>,
    contract: &CoinSwapTaproot,
    control_block: Option<Vec<u8>>,
) -> (r: Result<Vec<Vec<u8>>, ProtocolError>)
    ensures
        match (r, control_block) {
            (Ok(witness), Some(block)) => witness_items(witness@) == seq![
                signature@,
                contract.timelock_script@,
                block@,
            ],
            (Err(e), None) => e == ProtocolError::General("Control block not found"),
            _ => false,
        },
{
    match control_block {
        None => Err(ProtocolError::General("Control block not found")),
        Some(block) => {
            let ghost items = seq![signature@, contract.timelock_script@, block@];
            let mut witness: Vec<Vec<u8>> = Vec::new();
            witness.push(signature);
            witness.push(copy_bytes(contract.timelock_script.as_slice()));
            witness.push(block);
            assert(witness_items(witness@) =~= items);
            Ok(witness)
        },
    }
}

/// Create the witness for taking the contract with the preimage. There is one
/// wherever the contract's scripts and internal key make a taproot output.
pub fn create_hashlock_witness(
    signature: Vec<u8>,
    preimage: &[u8],
    contract: &CoinSwapTaproot,
) -> (r: Result<Vec<Vec<u8>>, ProtocolError>)
    ensures
        match (
            r,
            control_block_of(
                contract.hashlock_script@,
                contract.timelock_script@,
                contract.internal_key,
                contract.hashlock_script@,
            ),
        ) {
            (Ok(witness), Some(block)) => witness_items(witness@) == seq![
                signature@,
                preimage@,
                contract.hashlock_script@,
                block,
            ],
            (Err(e), None) => e == ProtocolError::General("Control block not found"),
            _ => false,
        },
        r is Ok <==> taproot_commitment(
            contract.hashlock_script@,
            contract.timelock_script@,
            contract.internal_key,
        ) is Some,
{
    let block = leaf_control_block(
        contract.hashlock_script.as_slice(),
        contract.timelock_script.as_slice(),
        &contract.internal_key,
        contract.hashlock_script.as_slice(),
    );
    hashlock_witness(signature, preimage, contract, block)
}

/// Create the witness for taking the contract back. There is one wherever the
/// contract's scripts and internal key make a taproot output.
pub fn create_timelock_witness(signature: Vec<u8>, contract: &CoinSwapTaproot) -> (r: Result<
    Vec<Vec<u8>>,
    ProtocolError,
>)
    ensures
        match (
            r,
            control_block_of(
                contract.hashlock_script@,
                contract.timelock_script@,
                contract.internal_key,
                contract.timelock_script@,
            ),
        ) {
            (Ok(witness), Some(block)) => witness_items(witness@) == seq![
                signature@,
                contract.timelock_script@,
                block,
            ],
            (Err(e), None) => e == ProtocolError::General("Control block not found"),
            _ => false,
        },
        r is Ok <==> taproot_commitment(
            contract.hashlock_script@,
            contract.timelock_script@,
            contract.internal_key,
        ) is Some,
{
    let block = leaf_control_block(
        contract.hashlock_script.as_slice(),
        contract.timelock_script.as_slice(),
        &contract.internal_key,
        contract.timelock_script.as_slice(),
    );
    timelock_witness(signature, contract, block)
}

/// Validate that a preimage opens a hashlock.
pub fn validate_hashlock(preimage: &[u8], expected_hash: &Hash160) -> (r: Result<
    (),
    ProtocolError,
>)
    ensures
        r == if hash160_of(preimage@) == *expected_hash {
            Ok::<(), ProtocolError>(())
        } else {
            Err(ProtocolError::General("Invalid preimage for hashlock"))
        },
{
    if hash_equal(&hash160(preimage), expected_hash) {
        Ok(())
    } else {
        Err(ProtocolError::General("Invalid preimage for hashlock"))
    }
}

/// Validate that a lock time has passed at a height.
pub fn validate_timelock(tx_locktime: u32, current_height: u32) -> (r: Result<(), ProtocolError>)
    ensures
        r == if tx_locktime > current_height {
            Err::<(), ProtocolError>(ProtocolError::General("Timelock not yet expired"))
        } else {
            Ok(())
        },
{
    if tx_locktime > current_height {
        return Err(ProtocolError::General("Timelock not yet expired"));
    }
    Ok(())
}

/// A claim and a refund pay what the contract holds less the fee, and no more.
pub proof fn law_spends_keep_the_fee(
    outpoint: OutPoint,
    amount: u64,
    fee: u64,
    script: Seq<u8>,
    lock_time: u32,
    sequence: u32,
)
    requires
        fee <= amount,
    ensures
        ({
            let tx = spend_model(outpoint, (amount - fee) as u64, script, lock_time, sequence);
            &&& tx.output.len() == 1
            &&& tx.output[0].value + fee == amount
            &&& tx.input.len() == 1
            &&& tx.input[0].previous_output == outpoint
        }),
{
}

/// A spend moves the whole amount that it is given to one script: it has
/// version two, one input without any signature, and the lock time and the
/// sequence that were asked for.
pub proof fn law_spend_is_what_was_asked_for(
    outpoint: OutPoint,
    amount: u64,
    script: Seq<u8>,
    lock_time: u32,
    sequence: u32,
)
    ensures
        ({
            let tx = spend_model(outpoint, amount, script, lock_time, sequence);
            &&& tx.version == 2
            &&& tx.lock_time == lock_time
            &&& tx.input.len() == 1
            &&& tx.input[0].sequence == sequence
            &&& tx.input[0].script_sig == Seq::<u8>::empty()
            &&& tx.input[0].witness == Seq::<Seq<u8>>::empty()
            &&& tx.output.len() == 1
            &&& tx.output[0].value == amount
            &&& tx.output[0].script_pubkey == script
        }),
        MAX_SEQUENCE == 4_294_967_295,
{
}

/// The receiver's script opens to a preimage of the hash and the receiver's
/// signature, the sender's to the sender's signature alone: the first names the
/// hash and the receiver's key, the second the sender's key at its start.
pub proof fn law_contract_scripts_name_the_parties(
    hash: Seq<u8>,
    receiver: Seq<u8>,
    sender: Seq<u8>,
    lock_time: u32,
)
    requires
        hash.len() == 20,
        receiver.len() == 32,
        sender.len() == 32,
    ensures
        claim_bytes(hash, receiver).len() == 57,
        claim_bytes(hash, receiver).subrange(0, 2) == seq![0xa9u8, 20u8],
        claim_bytes(hash, receiver).subrange(2, 22) == hash,
        claim_bytes(hash, receiver).subrange(22, 24) == seq![0x88u8, 32u8],
        claim_bytes(hash, receiver).subrange(24, 56) == receiver,
        claim_bytes(hash, receiver)[56] == 0xac,
        refund_bytes(lock_time, sender).len() > 34,
        refund_bytes(lock_time, sender)[0] == 32,
        refund_bytes(lock_time, sender).subrange(1, 33) == sender,
        refund_bytes(lock_time, sender)[33] == 0xad,
        refund_bytes(lock_time, sender).last() == 0xb1,
{
    assert(claim_bytes(hash, receiver).subrange(0, 2) =~= seq![0xa9u8, 20u8]);
    assert(claim_bytes(hash, receiver).subrange(2, 22) =~= hash);
    assert(claim_bytes(hash, receiver).subrange(22, 24) =~= seq![0x88u8, 32u8]);
    assert(claim_bytes(hash, receiver).subrange(24, 56) =~= receiver);
    assert(refund_bytes(lock_time, sender).subrange(1, 33) =~= sender);
}

/// A claim is final at once; a refund is bound to the lock time, which its
/// sequence does not switch off. Either spends the contract's output and pays
/// all of it but the fee.
pub proof fn law_refunds_wait_for_the_lock_time(
    outpoint: OutPoint,
    amount: u64,
    script: Seq<u8>,
    lock_time: u32,
    fee: u64,
)
    requires
        fee <= amount,
    ensures
        ({
            let claim = claim_model(outpoint, amount, script, fee);
            let refund = refund_model(outpoint, amount, script, lock_time, fee);
            &&& claim.lock_time == 0
            &&& claim.input[0].sequence == 0xffff_ffff
            &&& refund.lock_time == lock_time
            &&& refund.input[0].sequence < 0xffff_ffff
            &&& refund.input[0].sequence == 0
            &&& claim.input[0].previous_output == outpoint
            &&& refund.input[0].previous_output == outpoint
            &&& claim.output[0].value + fee == amount
            &&& refund.output[0].value + fee == amount
            &&& claim.output[0].script_pubkey == script
            &&& refund.output[0].script_pubkey == script
            &&& claim.input.len() == 1 && claim.output.len() == 1
            &&& refund.input.len() == 1 && refund.output.len() == 1
        }),
{
}

} // verus!
