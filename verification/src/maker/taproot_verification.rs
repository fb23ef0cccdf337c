//! Verification of a taker's taproot messages.

use crate::chain::{bytes_equal, key_equal, PublicKey, Transaction, XOnlyPublicKey};
use crate::error::MakerError;
use crate::maker::swapcoin::IncomingSwapCoin;
use crate::primitives::{
    derive_public_key, hashlock_elements, instruction_models, instructions_of,
    lemma_pushed_element, little_endian, number_pushed_by, public_key_of, pushed_number,
    script_instructions, timelock_elements, Instruction, InstructionModel, OP_CHECKSIG, OP_CLTV, OP_DROP, OP_EQUALVERIFY, OP_SHA256,
};
use crate::protocol::common_messages::SwapPrivkey;
use crate::protocol::contract2::{
    commit_to_scripts, hash_among, hash_in_elements, p2tr_bytes, p2tr_script, taproot_commitment,
};
use crate::protocol::error::ProtocolError;
use crate::protocol::taproot_messages::TaprootContractData;
use vstd::prelude::*;

verus! {

/// Whether a script element is a push of 32 bytes.
pub open spec fn pushes_key(item: InstructionModel) -> bool {
    item is Push && item->Push_0.len() == 32
}

/// The elements of a hashlock script:
/// `OP_SHA256 <32 bytes> OP_EQUALVERIFY <32 bytes> OP_CHECKSIG`.
pub open spec fn hashlock_template(items: Seq<InstructionModel>) -> bool {
    &&& items.len() == 5
    &&& items[0] == InstructionModel::Op(OP_SHA256)
    &&& pushes_key(items[1])
    &&& items[2] == InstructionModel::Op(OP_EQUALVERIFY)
    &&& pushes_key(items[3])
    &&& items[4] == InstructionModel::Op(OP_CHECKSIG)
}

/// The elements of a timelock script, but for the lock time at its start:
/// `_ OP_CLTV OP_DROP <32 bytes> OP_CHECKSIG`.
pub open spec fn timelock_template(items: Seq<InstructionModel>) -> bool {
    &&& items.len() == 5
    &&& items[1] == InstructionModel::Op(OP_CLTV)
    &&& items[2] == InstructionModel::Op(OP_DROP)
    &&& pushes_key(items[3])
    &&& items[4] == InstructionModel::Op(OP_CHECKSIG)
}

/// Whether a script parses to its end.
pub open spec fn parses(items: Seq<InstructionModel>) -> bool {
    forall|i: int| 0 <= i < items.len() ==> !(#[trigger] items[i] is Malformed)
}

/// What the elements of a hashlock script are rejected for.
pub open spec fn hashlock_script_verdict(items: Seq<InstructionModel>) -> Result<(), MakerError> {
    match hash_among(items) {
        Err(cause) => Err(
            MakerError::Contract { what: "Taproot hashlock script is invalid: {}", cause },
        ),
        Ok(_) => if !parses(items) {
            Err(MakerError::General("Taproot hashlock script parse error: EarlyEndOfScript"))
        } else if items.len() != 5 {
            Err(
                MakerError::WrongValue {
                    what: "Taproot hashlock script has {} instructions, expected {}",
                    found: items.len() as u64,
                    expected: 5,
                },
            )
        } else if !hashlock_template(items) {
            Err(MakerError::General("Taproot hashlock script has unexpected template"))
        } else {
            Ok(())
        },
    }
}

/// What the elements of a timelock script are rejected for, but for its lock
/// time.
pub open spec fn timelock_script_verdict(items: Seq<InstructionModel>) -> Result<(), MakerError> {
    if !parses(items) {
        Err(MakerError::General("Taproot timelock script parse error: EarlyEndOfScript"))
    } else if items.len() != 5 {
        Err(
            MakerError::WrongValue {
                what: "Taproot timelock script has {} instructions, expected {}",
                found: items.len() as u64,
                expected: 5,
            },
        )
    } else if !timelock_template(items) {
        Err(MakerError::General("Taproot timelock script has unexpected template"))
    } else {
        Ok(())
    }
}

/// The lock time that the first element of a timelock script stands for.
pub open spec fn lock_time_of(item: InstructionModel) -> Result<u64, MakerError> {
    match item {
        InstructionModel::Push(bytes) => if bytes.len() == 0 {
            Err(MakerError::General("Taproot timelock script has empty locktime"))
        } else if bytes.len() > 4 {
            Err(
                MakerError::Length {
                    what: "Taproot timelock has unexpected byte length {}",
                    length: bytes.len() as usize,
                },
            )
        } else if little_endian(bytes) == 0 {
            Err(MakerError::General("Taproot timelock value is zero"))
        } else {
            Ok(little_endian(bytes) as u64)
        },
        InstructionModel::Op(code) => match number_pushed_by(code) {
            Some(n) => if n <= 0 {
                Err(
                    MakerError::NonPositive {
                        what: "Taproot timelock value is non-positive ({})",
                        value: n,
                    },
                )
            } else {
                Ok(n as u64)
            },
            None => Err(
                MakerError::General("Taproot timelock script doesn't start with a locktime"),
            ),
        },
        InstructionModel::Malformed => Err(
            MakerError::General("Taproot timelock script is empty"),
        ),
    }
}

/// The scripts that the maker makes are ones that it accepts from others: a
/// hashlock script, and a timelock script of any lock time from one to below
/// 2^31, which is then read from it.
pub proof fn law_made_scripts_are_accepted(
    hash: [u8; 32],
    hashlock_key: XOnlyPublicKey,
    lock_time: u32,
    timelock_key: XOnlyPublicKey,
)
    requires
        0 < lock_time < 0x8000_0000,
    ensures
        hashlock_script_verdict(hashlock_elements(hash@, hashlock_key@)) is Ok,
        timelock_script_verdict(timelock_elements(lock_time, timelock_key@)) is Ok,
        lock_time_of(timelock_elements(lock_time, timelock_key@)[0]) == Ok::<u64, MakerError>(
            lock_time as u64,
        ),
{
    let items = hashlock_elements(hash@, hashlock_key@);
    let timelock = timelock_elements(lock_time, timelock_key@);
    lemma_pushed_element(lock_time as nat);
    assert(parses(items));
    assert(parses(timelock));
}

/// Whether a contract transaction pays `amount` to the taproot output key in
/// its first output.
pub open spec fn pays_contract(tx: Transaction, amount: u64, output_key: [u8; 32]) -> bool {
    &&& tx.input@.len() > 0
    &&& tx.output@.len() > 0
    &&& tx.output@[0].value == amount
    &&& tx.output@[0].script_pubkey@ == p2tr_bytes(output_key)
}

/// What the contract transaction at `i` is rejected for.
pub open spec fn contract_tx_verdict(
    tx: Transaction,
    amount: u64,
    output_key: [u8; 32],
    i: usize,
) -> Result<(), MakerError> {
    if tx.input@.len() == 0 {
        Err(MakerError::Item { what: "Taproot contract tx {} has no inputs", index: i })
    } else if tx.output@.len() == 0 {
        Err(MakerError::Item { what: "Taproot contract tx {} has no outputs", index: i })
    } else if amount != tx.output@[0].value {
        Err(
            MakerError::ItemValue {
                what: "Taproot contract tx {} amount {} does not match output value {}",
                index: i,
                found: amount,
                expected: tx.output@[0].value,
            },
        )
    } else if tx.output@[0].script_pubkey@ != p2tr_bytes(output_key) {
        Err(
            MakerError::Item {
                what: "Taproot contract tx {} output scriptpubkey does not match expected P2TR address derived from (internal_key, script_tree)",
                index: i,
            },
        )
    } else {
        Ok(())
    }
}

/// What the contract transactions from `i` on are rejected for: the reason of
/// the first one that is.
pub open spec fn contract_txs_verdict(
    txs: Seq<Transaction>,
    amounts: Seq<u64>,
    output_key: [u8; 32],
    i: int,
) -> Result<(), MakerError>
    decreases txs.len() - i,
{
    if i < 0 || i >= txs.len() {
        Ok(())
    } else {
        match contract_tx_verdict(txs[i], amounts[i], output_key, i as usize) {
            Err(e) => Err(e),
            Ok(_) => contract_txs_verdict(txs, amounts, output_key, i + 1),
        }
    }
}

/// What taproot contract data is rejected for, given the elements of its two
/// scripts and what they commit to.
pub open spec fn contract_data_verdict(
    data: TaprootContractData,
    maker_timelock: u32,
    refund_locktime_step: u16,
    hashlock: Seq<InstructionModel>,
    timelock: Seq<InstructionModel>,
    commitment: Option<([u8; 32], [u8; 32])>,
) -> Result<(), MakerError> {
    if data.contract_txs@.len() == 0 {
        Err(
            MakerError::General("Taker sent empty Taproot contract data (no contract txs)"),
        )
    } else if data.contract_txs@.len() != data.amounts@.len() {
        Err(
            MakerError::CountMismatch {
                what: "Taproot contract_txs count ({}) doesn't match amounts count ({})",
                first: data.contract_txs@.len() as usize,
                second: data.amounts@.len() as usize,
            },
        )
    } else if hashlock_script_verdict(hashlock) is Err {
        hashlock_script_verdict(hashlock)
    } else if timelock_script_verdict(timelock) is Err {
        timelock_script_verdict(timelock)
    } else {
        match lock_time_of(timelock[0]) {
            Err(e) => Err(e),
            Ok(locktime) => if locktime != maker_timelock + refund_locktime_step {
                Err(
                    MakerError::WrongValue {
                        what: "Taproot timelock value {} does not match expected taker locktime {}",
                        found: locktime,
                        expected: (maker_timelock + refund_locktime_step) as u64,
                    },
                )
            } else {
                commitment_verdict(data, commitment)
            },
        }
    }
}

/// What contract data is rejected for once its scripts are accepted.
pub open spec fn commitment_verdict(
    data: TaprootContractData,
    commitment: Option<([u8; 32], [u8; 32])>,
) -> Result<(), MakerError> {
    match commitment {
        None => Err(MakerError::General("Taproot tree finalization failed")),
        Some((output_key, tap_tweak)) => match data.tap_tweak.scalar() {
            Err(cause) => Err(
                MakerError::Contract { what: "Taproot tap tweak is no scalar: {}", cause },
            ),
            Ok(tweak) => if tweak != tap_tweak {
                Err(
                    MakerError::General(
                        "Taproot tap tweak does not match internal key and script tree",
                    ),
                )
            } else {
                contract_txs_verdict(data.contract_txs@, data.amounts@, output_key, 0)
            },
        },
    }
}

/// Whether every element of a script could be parsed.
fn all_parsed(items: &Vec<Instruction>) -> (r: bool)
    ensures
        r == parses(instruction_models(items@)),
{
    let mut i: usize = 0;
    while i < items.len()
        invariant
            i <= items.len(),
            forall|j: int|
                0 <= j < i ==> !(#[trigger] instruction_models(items@)[j] is Malformed),
        decreases items.len() - i,
    {
        match &items[i] {
            Instruction::Malformed => {
                assert(instruction_models(items@)[i as int] is Malformed);
                return false;
            },
            _ => {},
        }
        i += 1;
    }
    true
}

/// Whether a script element is the opcode `code`.
fn is_opcode(item: &Instruction, code: u8) -> (r: bool)
    ensures
        r == (item@ == InstructionModel::Op(code)),
{
    match item {
        Instruction::Op(op) => *op == code,
        _ => false,
    }
}

/// Whether a script element pushes 32 bytes.
fn is_key_push(item: &Instruction) -> (r: bool)
    ensures
        r == pushes_key(item@),
{
    match item {
        Instruction::Push(bytes) => bytes.len() == 32,
        _ => false,
    }
}

/// Checks the elements of a hashlock script.
pub fn verify_hashlock_elements(items: &Vec<Instruction>) -> (r: Result<(), MakerError>)
    ensures
        r == hashlock_script_verdict(instruction_models(items@)),
{
    match hash_in_elements(items) {
        Err(cause) => {
            return Err(
                MakerError::Contract { what: "Taproot hashlock script is invalid: {}", cause },
            );
        },
        Ok(_) => {},
    }
    if !all_parsed(items) {
        return Err(MakerError::General("Taproot hashlock script parse error: EarlyEndOfScript"));
    }
    if items.len() != 5 {
        return Err(
            MakerError::WrongValue {
                what: "Taproot hashlock script has {} instructions, expected {}",
                found: items.len() as u64,
                expected: 5,
            },
        );
    }
    if is_opcode(&items[0], OP_SHA256) && is_key_push(&items[1]) && is_opcode(
        &items[2],
        OP_EQUALVERIFY,
    ) && is_key_push(&items[3]) && is_opcode(&items[4], OP_CHECKSIG) {
        Ok(())
    } else {
        Err(MakerError::General("Taproot hashlock script has unexpected template"))
    }
}

/// Checks the elements of a timelock script, but for its lock time.
pub fn verify_timelock_elements(items: &Vec<Instruction>) -> (r: Result<(), MakerError>)
    ensures
        r == timelock_script_verdict(instruction_models(items@)),
{
    if !all_parsed(items) {
        return Err(MakerError::General("Taproot timelock script parse error: EarlyEndOfScript"));
    }
    if items.len() != 5 {
        return Err(
            MakerError::WrongValue {
                what: "Taproot timelock script has {} instructions, expected {}",
                found: items.len() as u64,
                expected: 5,
            },
        );
    }
    if is_opcode(&items[1], OP_CLTV) && is_opcode(&items[2], OP_DROP) && is_key_push(&items[3])
        && is_opcode(&items[4], OP_CHECKSIG) {
        Ok(())
    } else {
        Err(MakerError::General("Taproot timelock script has unexpected template"))
    }
}

/// The number that at most four little-endian bytes stand for.
fn read_little_endian(bytes: &Vec<u8>) -> (r: u64)
    requires
        1 <= bytes@.len() <= 4,
    ensures
        r == little_endian(bytes@),
{
    proof {
        reveal_with_fuel(little_endian, 5);
    }
    let n = bytes.len();
    let mut value: u64 = bytes[0] as u64;
    if n > 1 {
        value = value + 256 * (bytes[1] as u64);
    }
    if n > 2 {
        value = value + 65536 * (bytes[2] as u64);
    }
    if n > 3 {
        value = value + 16777216 * (bytes[3] as u64);
    }
    value
}

/// Reads the lock time at the start of a timelock script.
pub fn read_lock_time(item: &Instruction) -> (r: Result<u64, MakerError>)
    ensures
        r == lock_time_of(item@),
{
    match item {
        Instruction::Push(bytes) => {
            if bytes.len() == 0 {
                return Err(MakerError::General("Taproot timelock script has empty locktime"));
            }
            if bytes.len() > 4 {
                return Err(
                    MakerError::Length {
                        what: "Taproot timelock has unexpected byte length {}",
                        length: bytes.len(),
                    },
                );
            }
            let value = read_little_endian(bytes);
            if value == 0 {
                return Err(MakerError::General("Taproot timelock value is zero"));
            }
            Ok(value)
        },
        Instruction::Op(code) => match pushed_number(*code) {
            Some(n) => if n <= 0 {
                Err(
                    MakerError::NonPositive {
                        what: "Taproot timelock value is non-positive ({})",
                        value: n,
                    },
                )
            } else {
                Ok(n as u64)
            },
            None => Err(
                MakerError::General("Taproot timelock script doesn't start with a locktime"),
            ),
        },
        Instruction::Malformed => Err(MakerError::General("Taproot timelock script is empty")),
    }
}

/// Checks one contract transaction.
fn verify_contract_tx(tx: &Transaction, amount: u64, output_key: &[u8; 32], i: usize) -> (r: Result<
    (),
    MakerError,
>)
    ensures
        r == contract_tx_verdict(*tx, amount, *output_key, i),
{
    if tx.input.len() == 0 {
        return Err(MakerError::Item { what: "Taproot contract tx {} has no inputs", index: i });
    }
    if tx.output.len() == 0 {
        return Err(MakerError::Item { what: "Taproot contract tx {} has no outputs", index: i });
    }
    if amount != tx.output[0].value {
        return Err(
            MakerError::ItemValue {
                what: "Taproot contract tx {} amount {} does not match output value {}",
                index: i,
                found: amount,
                expected: tx.output[0].value,
            },
        );
    }
    let expected = p2tr_script(output_key);
    if !bytes_equal(tx.output[0].script_pubkey.as_slice(), expected.as_slice()) {
        return Err(
            MakerError::Item {
                what: "Taproot contract tx {} output scriptpubkey does not match expected P2TR address derived from (internal_key, script_tree)",
                index: i,
            },
        );
    }
    Ok(())
}

/// Checks that every contract transaction pays its amount to the output key.
pub fn verify_contract_txs(
    txs: &Vec<Transaction>,
    amounts: &Vec<u64>,
    output_key: &[u8; 32],
) -> (r: Result<(), MakerError>)
    requires
        txs@.len() == amounts@.len(),
    ensures
        r == contract_txs_verdict(txs@, amounts@, *output_key, 0),
{
    let mut i: usize = 0;
    while i < txs.len()
        invariant
            i <= txs.len(),
            txs@.len() == amounts@.len(),
            contract_txs_verdict(txs@, amounts@, *output_key, 0) == contract_txs_verdict(
                txs@,
                amounts@,
                *output_key,
                i as int,
            ),
        decreases txs.len() - i,
    {
        match verify_contract_tx(&txs[i], amounts[i], output_key, i) {
            Err(e) => {
                return Err(e);
            },
            Ok(_) => {},
        }
        i += 1;
    }
    Ok(())
}

/// Checks contract data whose scripts have been parsed and committed to.
pub fn verify_parsed_contract_data(
    data: &TaprootContractData,
    maker_timelock: u32,
    refund_locktime_step: u16,
    hashlock: &Vec<Instruction>,
    timelock: &Vec<Instruction>,
    commitment: Option<([u8; 32], [u8; 32])>,
) -> (r: Result<(), MakerError>)
    ensures
        r == contract_data_verdict(
            *data,
            maker_timelock,
            refund_locktime_step,
            instruction_models(hashlock@),
            instruction_models(timelock@),
            commitment,
        ),
{
    if data.contract_txs.len() == 0 {
        return Err(
            MakerError::General("Taker sent empty Taproot contract data (no contract txs)"),
        );
    }
    if data.contract_txs.len() != data.amounts.len() {
        return Err(
            MakerError::CountMismatch {
                what: "Taproot contract_txs count ({}) doesn't match amounts count ({})",
                first: data.contract_txs.len(),
                second: data.amounts.len(),
            },
        );
    }
    match verify_hashlock_elements(hashlock) {
        Err(e) => {
            return Err(e);
        },
        Ok(_) => {},
    }
    match verify_timelock_elements(timelock) {
        Err(e) => {
            return Err(e);
        },
        Ok(_) => {},
    }
    let locktime: u64 = match read_lock_time(&timelock[0]) {
        Err(e) => {
            return Err(e);
        },
        Ok(value) => value,
    };
    let expected: u64 = maker_timelock as u64 + refund_locktime_step as u64;
    if locktime != expected {
        return Err(
            MakerError::WrongValue {
                what: "Taproot timelock value {} does not match expected taker locktime {}",
                found: locktime,
                expected,
            },
        );
    }
    match commitment {
        None => Err(MakerError::General("Taproot tree finalization failed")),
        Some((output_key, tap_tweak)) => match data.tap_tweak_scalar() {
            Err(cause) => Err(
                MakerError::Contract { what: "Taproot tap tweak is no scalar: {}", cause },
            ),
            Ok(tweak) => {
                let same = bytes_equal(tweak.as_slice(), tap_tweak.as_slice());
                assert(tweak@ =~= tap_tweak@ ==> tweak =~= tap_tweak);
                if !same {
                    Err(
                        MakerError::General(
                            "Taproot tap tweak does not match internal key and script tree",
                        ),
                    )
                } else {
                    verify_contract_txs(&data.contract_txs, &data.amounts, &output_key)
                }
            },
        },
    }
}

/// Verify incoming taproot contract data from the taker.
pub fn verify_taproot_contract_data(
    data: &TaprootContractData,
    maker_timelock: u32,
    refund_locktime_step: u16,
) -> (r: Result<(), MakerError>)
    ensures
        r == contract_data_verdict(
            *data,
            maker_timelock,
            refund_locktime_step,
            instructions_of(data.hashlock_script@),
            instructions_of(data.timelock_script@),
            taproot_commitment(
                data.hashlock_script@,
                data.timelock_script@,
                data.internal_key,
            ),
        ),
{
    let hashlock = script_instructions(data.hashlock_script.as_slice());
    let timelock = script_instructions(data.timelock_script.as_slice());
    let commitment = commit_to_scripts(
        data.hashlock_script.as_slice(),
        data.timelock_script.as_slice(),
        &data.internal_key,
    );
    verify_parsed_contract_data(
        data,
        maker_timelock,
        refund_locktime_step,
        &hashlock,
        &timelock,
        commitment,
    )
}

/// Contract data that a maker accepts: the scripts have the two templates,
/// the lock time is the maker's plus the step, and every contract transaction
/// pays its amount to the output that the internal key and the scripts commit
/// to.
pub open spec fn acceptable_contract_data(
    data: TaprootContractData,
    maker_timelock: u32,
    refund_locktime_step: u16,
    hashlock: Seq<InstructionModel>,
    timelock: Seq<InstructionModel>,
    commitment: Option<([u8; 32], [u8; 32])>,
) -> bool {
    &&& data.contract_txs@.len() > 0
    &&& data.contract_txs@.len() == data.amounts@.len()
    &&& hashlock_template(hashlock)
    &&& timelock_template(timelock)
    &&& lock_time_of(timelock[0]) == Ok::<u64, MakerError>(
        (maker_timelock + refund_locktime_step) as u64,
    )
    &&& commitment is Some
    &&& data.tap_tweak.scalar() is Ok
    &&& data.tap_tweak.scalar()->Ok_0 == (commitment->0).1
    &&& forall|i: int|
        0 <= i < data.contract_txs@.len() ==> #[trigger] pays_contract(
            data.contract_txs@[i],
            data.amounts@[i],
            (commitment->0).0,
        )
}

/// The contract transactions from `i` on are accepted exactly where each of
/// them pays its amount to the output key.
proof fn lemma_contract_txs_verdict(
    txs: Seq<Transaction>,
    amounts: Seq<u64>,
    output_key: [u8; 32],
    i: int,
)
    requires
        0 <= i <= txs.len(),
    ensures
        contract_txs_verdict(txs, amounts, output_key, i) is Ok <==> forall|j: int|
            i <= j < txs.len() ==> #[trigger] pays_contract(txs[j], amounts[j], output_key),
    decreases txs.len() - i,
{
    if i < txs.len() {
        lemma_contract_txs_verdict(txs, amounts, output_key, i + 1);
        if contract_tx_verdict(txs[i], amounts[i], output_key, i as usize) is Err {
            assert(!pays_contract(txs[i], amounts[i], output_key));
        } else {
            assert(pays_contract(txs[i], amounts[i], output_key));
        }
    }
}

/// Contract data is accepted exactly where it is acceptable.
pub proof fn law_contract_data_accepted(
    data: TaprootContractData,
    maker_timelock: u32,
    refund_locktime_step: u16,
    hashlock: Seq<InstructionModel>,
    timelock: Seq<InstructionModel>,
    commitment: Option<([u8; 32], [u8; 32])>,
)
    ensures
        contract_data_verdict(
            data,
            maker_timelock,
            refund_locktime_step,
            hashlock,
            timelock,
            commitment,
        ) is Ok <==> acceptable_contract_data(
            data,
            maker_timelock,
            refund_locktime_step,
            hashlock,
            timelock,
            commitment,
        ),
{
    if commitment is Some {
        lemma_contract_txs_verdict(data.contract_txs@, data.amounts@, (commitment->0).0, 0);
    }
    if hashlock_template(hashlock) {
        assert(parses(hashlock));
    }
    if timelock_template(timelock) && lock_time_of(timelock[0]) is Ok {
        assert(parses(timelock));
    }
}

/// What a list of handed-over keys from `i` on is rejected for.
pub open spec fn handover_keys_verdict(
    privkeys: Seq<SwapPrivkey>,
    incoming: Seq<IncomingSwapCoin>,
    i: int,
    missing: &'static str,
    mismatch: &'static str,
) -> Result<(), MakerError>
    decreases privkeys.len() - i,
{
    if i < 0 || i >= privkeys.len() {
        Ok(())
    } else {
        match incoming[i].other_pubkey {
            None => Err(MakerError::General(missing)),
            Some(expected) => if public_key_of(privkeys[i].key) != Some(expected) {
                Err(MakerError::General(mismatch))
            } else {
                handover_keys_verdict(privkeys, incoming, i + 1, missing, mismatch)
            },
        }
    }
}

/// Checks that every handed-over key is the secret of the other party's key
/// in the incoming coin at the same position.
pub fn verify_handover_keys(
    privkeys: &Vec<SwapPrivkey>,
    incoming: &Vec<IncomingSwapCoin>,
    missing: &'static str,
    mismatch: &'static str,
) -> (r: Result<(), MakerError>)
    requires
        privkeys@.len() == incoming@.len(),
    ensures
        r == handover_keys_verdict(privkeys@, incoming@, 0, missing, mismatch),
{
    let mut i: usize = 0;
    while i < privkeys.len()
        invariant
            i <= privkeys.len(),
            privkeys@.len() == incoming@.len(),
            handover_keys_verdict(privkeys@, incoming@, 0, missing, mismatch)
                == handover_keys_verdict(privkeys@, incoming@, i as int, missing, mismatch),
        decreases privkeys.len() - i,
    {
        let derived: Option<PublicKey> = derive_public_key(&privkeys[i].key);
        match incoming[i].other_pubkey {
            None => {
                return Err(MakerError::General(missing));
            },
            Some(expected) => {
                let matching = match derived {
                    Some(key) => key_equal(&key, &expected),
                    None => false,
                };
                if !matching {
                    return Err(MakerError::General(mismatch));
                }
            },
        }
        i += 1;
    }
    Ok(())
}

/// What a taproot private key handover is rejected for.
pub open spec fn taproot_handover_verdict(
    privkeys: Seq<SwapPrivkey>,
    incoming: Seq<IncomingSwapCoin>,
) -> Result<(), MakerError> {
    if privkeys.len() != incoming.len() {
        Err(
            MakerError::CountMismatch {
                what: "Taproot privkey count {} doesn't match incoming swapcoin count {}",
                first: privkeys.len() as usize,
                second: incoming.len() as usize,
            },
        )
    } else {
        handover_keys_verdict(
            privkeys,
            incoming,
            0,
            "Missing other_pubkey on incoming swapcoin during Taproot handover verification",
            "Taproot privkey derives pubkey that doesn't match expected other_pubkey",
        )
    }
}

/// Verify taproot private key handover from the taker.
pub fn verify_taproot_privkey_handover(
    privkeys: &Vec<SwapPrivkey>,
    incoming_swapcoins: &Vec<IncomingSwapCoin>,
) -> (r: Result<(), MakerError>)
    ensures
        r == taproot_handover_verdict(privkeys@, incoming_swapcoins@),
{
    if privkeys.len() != incoming_swapcoins.len() {
        return Err(
            MakerError::CountMismatch {
                what: "Taproot privkey count {} doesn't match incoming swapcoin count {}",
                first: privkeys.len(),
                second: incoming_swapcoins.len(),
            },
        );
    }
    verify_handover_keys(
        privkeys,
        incoming_swapcoins,
        "Missing other_pubkey on incoming swapcoin during Taproot handover verification",
        "Taproot privkey derives pubkey that doesn't match expected other_pubkey",
    )
}

/// A key handover is accepted exactly where every key is the secret of the
/// other party's key in the coin at the same position.
pub proof fn law_handover_accepted(
    privkeys: Seq<SwapPrivkey>,
    incoming: Seq<IncomingSwapCoin>,
)
    ensures
        taproot_handover_verdict(privkeys, incoming) is Ok <==> privkeys.len() == incoming.len()
            && forall|i: int|
            0 <= i < privkeys.len() ==> incoming[i].other_pubkey is Some && public_key_of(
                (#[trigger] privkeys[i]).key,
            ) == incoming[i].other_pubkey,
{
    if privkeys.len() == incoming.len() {
        lemma_handover_keys(
            privkeys,
            incoming,
            0,
            "Missing other_pubkey on incoming swapcoin during Taproot handover verification",
            "Taproot privkey derives pubkey that doesn't match expected other_pubkey",
        );
    }
}

/// The keys from `i` on are accepted exactly where each is the secret of the
/// other party's key.
pub proof fn lemma_handover_keys(
    privkeys: Seq<SwapPrivkey>,
    incoming: Seq<IncomingSwapCoin>,
    i: int,
    missing: &'static str,
    mismatch: &'static str,
)
    requires
        0 <= i <= privkeys.len(),
        privkeys.len() == incoming.len(),
    ensures
        handover_keys_verdict(privkeys, incoming, i, missing, mismatch) is Ok <==> forall|j: int|
            i <= j < privkeys.len() ==> incoming[j].other_pubkey is Some && public_key_of(
                (#[trigger] privkeys[j]).key,
            ) == incoming[j].other_pubkey,
    decreases privkeys.len() - i,
{
    if i < privkeys.len() {
        lemma_handover_keys(privkeys, incoming, i + 1, missing, mismatch);
        assert(privkeys[i] == privkeys[i]);
    }
}

/// Contract data that the maker accepts can be claimed by the preimage and
/// refunded a step after the maker's own refund: the scripts are made of the
/// opcodes of the two templates, byte for byte, and every transaction pays its
/// amount to the output key, in an output of witness version one.
pub proof fn law_accepted_data_is_a_contract(
    data: TaprootContractData,
    maker_timelock: u32,
    refund_locktime_step: u16,
    hashlock: Seq<InstructionModel>,
    timelock: Seq<InstructionModel>,
    commitment: Option<([u8; 32], [u8; 32])>,
    i: int,
)
    requires
        contract_data_verdict(
            data,
            maker_timelock,
            refund_locktime_step,
            hashlock,
            timelock,
            commitment,
        ) is Ok,
        0 <= i < data.contract_txs@.len(),
    ensures
        hashlock.len() == 5,
        hashlock[0] == InstructionModel::Op(0xa8),
        hashlock[1] matches InstructionModel::Push(hash) && hash.len() == 32,
        hashlock[2] == InstructionModel::Op(0x88),
        hashlock[3] matches InstructionModel::Push(key) && key.len() == 32,
        hashlock[4] == InstructionModel::Op(0xac),
        timelock.len() == 5,
        lock_time_of(timelock[0]) matches Ok(height) && height - maker_timelock
            == refund_locktime_step,
        timelock[1] == InstructionModel::Op(0xb1),
        timelock[2] == InstructionModel::Op(0x75),
        timelock[3] matches InstructionModel::Push(key) && key.len() == 32,
        timelock[4] == InstructionModel::Op(0xac),
        commitment matches Some((output_key, tap_tweak)) && {
            &&& data.tap_tweak.scalar() == Ok::<[u8; 32], ProtocolError>(tap_tweak)
            &&& data.contract_txs@[i].output@[0].script_pubkey@ == seq![0x51u8, 32u8] + output_key@
        },
        data.contract_txs@.len() == data.amounts@.len(),
        data.contract_txs@[i].input@.len() > 0,
        data.contract_txs@[i].output@.len() > 0,
        data.contract_txs@[i].output@[0].value == data.amounts@[i],
{
    law_contract_data_accepted(
        data,
        maker_timelock,
        refund_locktime_step,
        hashlock,
        timelock,
        commitment,
    );
    assert(pays_contract(data.contract_txs@[i], data.amounts@[i], (commitment->0).0));
}

/// A lock time is a positive number: of one to four bytes, the lowest first,
/// or one that an opcode pushes, from 1 to 16.
pub proof fn law_lock_time_is_a_positive_number(bytes: Seq<u8>, code: u8)
    ensures
        lock_time_of(InstructionModel::Push(bytes)) is Ok <==> 1 <= bytes.len() <= 4 && exists|
            i: int,
        |
            0 <= i < bytes.len() && #[trigger] bytes[i] != 0,
        bytes.len() == 1 && bytes[0] != 0 ==> lock_time_of(InstructionModel::Push(bytes)) == Ok::<
            u64,
            MakerError,
        >(bytes[0] as u64),
        bytes.len() == 4 ==> (lock_time_of(InstructionModel::Push(bytes)) matches Ok(height)
            ==> height == bytes[0] + 0x100 * bytes[1] + 0x1_0000 * bytes[2] + 0x100_0000
            * bytes[3]),
        bytes.len() == 3 ==> (lock_time_of(InstructionModel::Push(bytes)) matches Ok(height)
            ==> height == bytes[0] + 0x100 * bytes[1] + 0x1_0000 * bytes[2]),
        bytes.len() == 2 ==> (lock_time_of(InstructionModel::Push(bytes)) matches Ok(height)
            ==> height == bytes[0] + 0x100 * bytes[1]),
        lock_time_of(InstructionModel::Op(code)) is Ok <==> 0x51 <= code <= 0x60,
        lock_time_of(InstructionModel::Op(code)) matches Ok(height) ==> height == code - 0x50,
        lock_time_of(InstructionModel::Malformed) is Err,
{
    reveal_with_fuel(little_endian, 5);
    let one = bytes.drop_first();
    let two = one.drop_first();
    let three = two.drop_first();
    if bytes.len() >= 1 {
        assert(forall|i: int| 0 <= i < one.len() ==> one[i] == bytes[i + 1]);
        assert(bytes[0] >= 0);
    }
    if bytes.len() >= 2 {
        assert(one[0] == bytes[1]);
        assert(forall|i: int| 0 <= i < two.len() ==> two[i] == bytes[i + 2]);
    }
    if bytes.len() >= 3 {
        assert(two[0] == bytes[2]);
        assert(forall|i: int| 0 <= i < three.len() ==> three[i] == bytes[i + 3]);
    }
    if bytes.len() >= 4 {
        assert(three[0] == bytes[3]);
    }
    if 1 <= bytes.len() <= 4 {
        assert(little_endian(bytes) == 0 <==> forall|i: int|
            0 <= i < bytes.len() ==> #[trigger] bytes[i] == 0);
    }
}

/// Data with the right scripts, tweak and payments is accepted, and a wrong
/// lock time, tweak, amount or output is rejected.
pub proof fn law_deviations_are_rejected(
    data: TaprootContractData,
    maker_timelock: u32,
    refund_locktime_step: u16,
    hashlock: Seq<InstructionModel>,
    timelock: Seq<InstructionModel>,
    commitment: Option<([u8; 32], [u8; 32])>,
    i: int,
)
    requires
        0 <= i < data.contract_txs@.len(),
    ensures
        ({
            let verdict = contract_data_verdict(
                data,
                maker_timelock,
                refund_locktime_step,
                hashlock,
                timelock,
                commitment,
            );
            &&& commitment is None ==> verdict is Err
            &&& commitment is Some && data.tap_tweak.scalar() != Ok::<[u8; 32], ProtocolError>(
                (commitment->0).1,
            ) ==> verdict is Err
            &&& data.amounts@.len() != data.contract_txs@.len() ==> verdict is Err
            &&& data.contract_txs@[i].output@.len() > 0 && data.contract_txs@[i].output@[0].value
                != data.amounts@[i] ==> verdict is Err
            &&& lock_time_of(timelock[0]) != Ok::<u64, MakerError>(
                (maker_timelock + refund_locktime_step) as u64,
            ) ==> verdict is Err
        }),
{
    if contract_data_verdict(
        data,
        maker_timelock,
        refund_locktime_step,
        hashlock,
        timelock,
        commitment,
    ) is Ok {
        law_accepted_data_is_a_contract(
            data,
            maker_timelock,
            refund_locktime_step,
            hashlock,
            timelock,
            commitment,
            i,
        );
    }
}

/// A rejection of contract data tells what came and what was needed: the number
/// of transactions and of amounts, the lock time found and the one expected,
/// and of a transaction its position, the amount claimed and the one paid.
pub proof fn law_data_rejections_tell_the_values(
    data: TaprootContractData,
    maker_timelock: u32,
    refund_locktime_step: u16,
    hashlock: Seq<InstructionModel>,
    timelock: Seq<InstructionModel>,
    commitment: Option<([u8; 32], [u8; 32])>,
    tx: Transaction,
    amount: u64,
    output_key: [u8; 32],
    i: usize,
)
    ensures
        ({
            let verdict = contract_data_verdict(
                data,
                maker_timelock,
                refund_locktime_step,
                hashlock,
                timelock,
                commitment,
            );
            &&& data.contract_txs@.len() == 0 ==> verdict is Err
            &&& data.contract_txs@.len() > 0 && data.contract_txs@.len() != data.amounts@.len()
                ==> (verdict matches Err(MakerError::CountMismatch { first, second, .. }) && first
                == data.contract_txs@.len() && second == data.amounts@.len())
            &&& data.contract_txs@.len() > 0 && data.contract_txs@.len() == data.amounts@.len()
                && hashlock_script_verdict(hashlock) is Ok && timelock_script_verdict(timelock) is Ok
                ==> (lock_time_of(timelock[0]) matches Ok(height) ==> (height != maker_timelock
                + refund_locktime_step ==> (verdict matches Err(
                MakerError::WrongValue { found, expected, .. },
            ) && found == height && expected == maker_timelock + refund_locktime_step)))
        }),
        tx.input@.len() > 0 && tx.output@.len() > 0 && tx.output@[0].value != amount ==> (
        contract_tx_verdict(tx, amount, output_key, i) matches Err(
            MakerError::ItemValue { index, found, expected, .. },
        ) && index == i && found == amount && expected == tx.output@[0].value),
        tx.input@.len() == 0 ==> (contract_tx_verdict(tx, amount, output_key, i) matches Err(
            MakerError::Item { index, .. },
        ) && index == i),
        contract_tx_verdict(tx, amount, output_key, i) is Ok <==> {
            &&& tx.input@.len() > 0
            &&& tx.output@.len() > 0
            &&& tx.output@[0].value == amount
            &&& tx.output@[0].script_pubkey@ == seq![0x51u8, 32u8] + output_key@
        },
{
    assert(data.contract_txs.len() == data.contract_txs@.len());
    assert(data.amounts.len() == data.amounts@.len());
}

/// A script is rejected for the first reason that there is: that it holds no
/// hash, that it does not parse, that it has another number of elements, that
/// it has other elements.
pub proof fn law_script_rejections(items: Seq<InstructionModel>, i: int)
    ensures
        items.len() < 5 ==> hashlock_script_verdict(items) is Err,
        items.len() > 5 ==> hashlock_script_verdict(items) is Err && timelock_script_verdict(
            items,
        ) is Err,
        items.len() < 5 ==> timelock_script_verdict(items) is Err,
        0 <= i < items.len() && items[i] is Malformed ==> hashlock_script_verdict(items) is Err
            && timelock_script_verdict(items) is Err,
        hashlock_script_verdict(items) is Ok ==> timelock_script_verdict(items) is Err,
{
}

} // verus!
