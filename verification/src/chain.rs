//! Plain bitcoin data: outpoints, transactions and the byte strings in them.

use crate::primitives::{compute_txid, txid_of};
use vstd::prelude::*;

verus! {

/// A transaction id, in the byte order of its hash.
pub type Txid = [u8; 32];

/// A compressed public key.
pub type PublicKey = [u8; 33];

/// An x-only public key.
pub type XOnlyPublicKey = [u8; 32];

/// A secret key or a nonce.
pub type SecretKey = [u8; 32];

/// The hash a legacy contract is locked to.
pub type Hash160 = [u8; 20];

/// The secret that opens a hashlock.
pub type Preimage = [u8; 32];

/// The networks of bitcoin.
#[derive(Debug, Clone, Copy, PartialEq, Eq, Structural)]
pub enum Network {
    Bitcoin,
    Testnet,
    Testnet4,
    Signet,
    Regtest,
}

/// Whether two byte strings hold the same bytes.
pub fn bytes_equal(a: &[u8], b: &[u8]) -> (r: bool)
    ensures
        r == (a@ == b@),
{
    if a.len() != b.len() {
        return false;
    }
    let mut i: usize = 0;
    while i < a.len()
        invariant
            a.len() == b.len(),
            i <= a.len(),
            forall|j: int| 0 <= j < i ==> a@[j] == b@[j],
        decreases a.len() - i,
    {
        if a[i] != b[i] {
            return false;
        }
        i += 1;
    }
    assert(a@ =~= b@);
    true
}

/// Whether two strings hold the same text.
pub fn str_equal(a: &str, b: &str) -> (r: bool)
    ensures
        r == (a@ == b@),
{
    a.to_owned() == b.to_owned()
}

/// Whether two transaction ids are the same.
pub fn txid_equal(a: &Txid, b: &Txid) -> (r: bool)
    ensures
        r == (*a == *b),
{
    let r = bytes_equal(a.as_slice(), b.as_slice());
    assert(a@ =~= b@ ==> *a =~= *b);
    r
}

/// Whether two hash values are the same.
pub fn hash32_equal(a: &[u8; 32], b: &[u8; 32]) -> (r: bool)
    ensures
        r == (*a == *b),
{
    let r = bytes_equal(a.as_slice(), b.as_slice());
    assert(a@ =~= b@ ==> *a =~= *b);
    r
}

/// Whether two public keys are the same.
pub fn key_equal(a: &PublicKey, b: &PublicKey) -> (r: bool)
    ensures
        r == (*a == *b),
{
    let r = bytes_equal(a.as_slice(), b.as_slice());
    assert(a@ =~= b@ ==> *a =~= *b);
    r
}

/// Whether two legacy hash values are the same.
pub fn hash_equal(a: &Hash160, b: &Hash160) -> (r: bool)
    ensures
        r == (*a == *b),
{
    let r = bytes_equal(a.as_slice(), b.as_slice());
    assert(a@ =~= b@ ==> *a =~= *b);
    r
}

/// A copy of a byte string.
pub fn copy_bytes(bytes: &[u8]) -> (r: Vec<u8>)
    ensures
        r@ == bytes@,
{
    let mut out: Vec<u8> = Vec::new();
    let mut i: usize = 0;
    while i < bytes.len()
        invariant
            i <= bytes.len(),
            out@ == bytes@.subrange(0, i as int),
        decreases bytes.len() - i,
    {
        out.push(bytes[i]);
        i += 1;
        assert(out@ =~= bytes@.subrange(0, i as int));
    }
    assert(bytes@.subrange(0, i as int) =~= bytes@);
    out
}

/// An output of a transaction, named by the transaction and its position.
#[derive(Clone, Copy, Debug, PartialEq, Eq)]
pub struct OutPoint {
    pub txid: Txid,
    pub vout: u32,
}

/// Whether two outpoints are the same.
pub fn outpoint_equal(a: &OutPoint, b: &OutPoint) -> (r: bool)
    ensures
        r == (*a == *b),
{
    a.vout == b.vout && txid_equal(&a.txid, &b.txid)
}

/// Whether `point` is among `points`.
pub fn has_outpoint(points: &Vec<OutPoint>, point: &OutPoint) -> (r: bool)
    ensures
        r == points@.contains(*point),
{
    let mut i: usize = 0;
    while i < points.len()
        invariant
            i <= points.len(),
            forall|j: int| 0 <= j < i ==> points@[j] != *point,
        decreases points.len() - i,
    {
        if outpoint_equal(&points[i], point) {
            return true;
        }
        i += 1;
    }
    false
}

/// An input of a transaction.
#[derive(Debug)]
pub struct TxIn {
    pub previous_output: OutPoint,
    pub script_sig: Vec<u8>,
    pub sequence: u32,
    pub witness: Vec<Vec<u8>>,
}

/// An output of a transaction: an amount in satoshis and the script that
/// guards it.
#[derive(Debug)]
pub struct TxOut {
    pub value: u64,
    pub script_pubkey: Vec<u8>,
}

/// A transaction.
#[derive(Debug)]
pub struct Transaction {
    pub version: i32,
    pub lock_time: u32,
    pub input: Vec<TxIn>,
    pub output: Vec<TxOut>,
}

/// What an input holds.
pub struct InputModel {
    pub previous_output: OutPoint,
    pub script_sig: Seq<u8>,
    pub sequence: u32,
    pub witness: Seq<Seq<u8>>,
}

/// What an output holds.
pub struct OutputModel {
    pub value: u64,
    pub script_pubkey: Seq<u8>,
}

/// What a transaction holds.
pub struct TransactionModel {
    pub version: i32,
    pub lock_time: u32,
    pub input: Seq<InputModel>,
    pub output: Seq<OutputModel>,
}

impl View for TxIn {
    type V = InputModel;

    open spec fn view(&self) -> InputModel {
        InputModel {
            previous_output: self.previous_output,
            script_sig: self.script_sig@,
            sequence: self.sequence,
            witness: self.witness@.map_values(|item: Vec<u8>| item@),
        }
    }
}

impl View for TxOut {
    type V = OutputModel;

    open spec fn view(&self) -> OutputModel {
        OutputModel { value: self.value, script_pubkey: self.script_pubkey@ }
    }
}

impl View for Transaction {
    type V = TransactionModel;

    open spec fn view(&self) -> TransactionModel {
        TransactionModel {
            version: self.version,
            lock_time: self.lock_time,
            input: self.input@.map_values(|input: TxIn| input@),
            output: self.output@.map_values(|output: TxOut| output@),
        }
    }
}

impl Clone for TxIn {
    fn clone(&self) -> (r: Self)
        ensures
            r@ == self@,
    {
        let mut witness: Vec<Vec<u8>> = Vec::new();
        let mut i: usize = 0;
        while i < self.witness.len()
            invariant
                i <= self.witness.len(),
                witness.len() == i,
                forall|j: int| 0 <= j < i ==> (#[trigger] witness@[j])@ == self.witness@[j]@,
            decreases self.witness.len() - i,
        {
            witness.push(copy_bytes(self.witness[i].as_slice()));
            i += 1;
        }
        let r = TxIn {
            previous_output: self.previous_output,
            script_sig: copy_bytes(self.script_sig.as_slice()),
            sequence: self.sequence,
            witness,
        };
        assert(r@.witness =~= self@.witness);
        r
    }
}

impl Clone for TxOut {
    fn clone(&self) -> (r: Self)
        ensures
            r@ == self@,
    {
        TxOut { value: self.value, script_pubkey: copy_bytes(self.script_pubkey.as_slice()) }
    }
}

impl Clone for Transaction {
    fn clone(&self) -> (r: Self)
        ensures
            r@ == self@,
    {
        let mut input: Vec<TxIn> = Vec::new();
        let mut i: usize = 0;
        while i < self.input.len()
            invariant
                i <= self.input.len(),
                input.len() == i,
                forall|j: int| 0 <= j < i ==> (#[trigger] input@[j])@ == self.input@[j]@,
            decreases self.input.len() - i,
        {
            input.push(self.input[i].clone());
            i += 1;
        }
        let mut output: Vec<TxOut> = Vec::new();
        let mut k: usize = 0;
        while k < self.output.len()
            invariant
                k <= self.output.len(),
                output.len() == k,
                forall|j: int| 0 <= j < k ==> (#[trigger] output@[j])@ == self.output@[j]@,
            decreases self.output.len() - k,
        {
            output.push(self.output[k].clone());
            k += 1;
        }
        let r = Transaction { version: self.version, lock_time: self.lock_time, input, output };
        assert(r@.input =~= self@.input);
        assert(r@.output =~= self@.output);
        r
    }
}

/// The position of the first output of `tx` that `script` guards.
pub open spec fn first_output_for(outputs: Seq<TxOut>, script: Seq<u8>) -> Option<int>
    decreases outputs.len(),
{
    if outputs.len() == 0 {
        None
    } else {
        match first_output_for(outputs.drop_last(), script) {
            Some(i) => Some(i),
            None => if outputs.last().script_pubkey@ == script {
                Some(outputs.len() - 1)
            } else {
                None
            },
        }
    }
}

/// [`first_output_for`] is the least position that holds the script.
pub proof fn lemma_first_output_for(outputs: Seq<TxOut>, script: Seq<u8>)
    ensures
        match first_output_for(outputs, script) {
            Some(i) => 0 <= i < outputs.len() && outputs[i].script_pubkey@ == script
                && forall|j: int| 0 <= j < i ==> (#[trigger] outputs[j]).script_pubkey@ != script,
            None => forall|j: int|
                0 <= j < outputs.len() ==> (#[trigger] outputs[j]).script_pubkey@ != script,
        },
    decreases outputs.len(),
{
    if outputs.len() > 0 {
        lemma_first_output_for(outputs.drop_last(), script);
        assert forall|j: int| 0 <= j < outputs.len() - 1 implies outputs[j]
            == outputs.drop_last()[j] by {}
    }
}

/// A prefix without the script leaves the search to what follows it.
proof fn lemma_first_output_extends(outputs: Seq<TxOut>, script: Seq<u8>, n: int)
    requires
        0 <= n <= outputs.len(),
        first_output_for(outputs.subrange(0, n), script) is Some,
    ensures
        first_output_for(outputs, script) == first_output_for(outputs.subrange(0, n), script),
    decreases outputs.len(),
{
    if n == outputs.len() {
        assert(outputs.subrange(0, n) =~= outputs);
    } else {
        assert(outputs.drop_last().subrange(0, n) =~= outputs.subrange(0, n));
        lemma_first_output_extends(outputs.drop_last(), script, n);
    }
}

impl Transaction {
    /// The id of the transaction.
    pub fn compute_txid(&self) -> (r: Txid)
        ensures
            r == txid_of(self@),
    {
        compute_txid(self)
    }

    /// The position of the first output that `script` guards.
    pub fn output_position(&self, script: &[u8]) -> (r: Option<usize>)
        ensures
            match (r, first_output_for(self.output@, script@)) {
                (Some(i), Some(j)) => i == j && i < self.output@.len(),
                (None, None) => true,
                _ => false,
            },
    {
        let mut i: usize = 0;
        assert(self.output@.subrange(0, 0).len() == 0);
        while i < self.output.len()
            invariant
                i <= self.output.len(),
                first_output_for(self.output@.subrange(0, i as int), script@) is None,
            decreases self.output.len() - i,
        {
            let here = bytes_equal(self.output[i].script_pubkey.as_slice(), script);
            proof {
                let next = self.output@.subrange(0, i + 1);
                assert(next.drop_last() =~= self.output@.subrange(0, i as int));
                assert(next.last() == self.output@[i as int]);
                if here {
                    lemma_first_output_extends(self.output@, script@, i + 1);
                }
            }
            if here {
                return Some(i);
            }
            i += 1;
        }
        assert(self.output@.subrange(0, i as int) =~= self.output@);
        None
    }
}

} // verus!
