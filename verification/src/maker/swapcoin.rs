//! The coins that a swap moves.

use crate::chain::{
    bytes_equal, copy_bytes, key_equal, str_equal, Hash160, OutPoint, Preimage, PublicKey, SecretKey, Transaction,
    TransactionModel, XOnlyPublicKey,
};
use crate::protocol::common_messages::ProtocolVersion;
use vstd::prelude::*;

verus! {

/// The text in an optional string.
pub open spec fn text_model(text: Option<String>) -> Option<Seq<char>> {
    match text {
        Some(s) => Some(s@),
        None => None,
    }
}

/// The bytes in an optional byte string.
pub open spec fn bytes_model(bytes: Option<Vec<u8>>) -> Option<Seq<u8>> {
    match bytes {
        Some(b) => Some(b@),
        None => None,
    }
}

/// What an optional transaction holds.
pub open spec fn tx_model(tx: Option<Transaction>) -> Option<TransactionModel> {
    match tx {
        Some(t) => Some(t@),
        None => None,
    }
}

/// A copy of an optional string.
pub fn copy_text(text: &Option<String>) -> (r: Option<String>)
    ensures
        text_model(r) == text_model(*text),
{
    match text {
        Some(s) => Some(s.clone()),
        None => None,
    }
}

/// A copy of an optional byte string.
pub fn copy_optional(bytes: &Option<Vec<u8>>) -> (r: Option<Vec<u8>>)
    ensures
        bytes_model(r) == bytes_model(*bytes),
{
    match bytes {
        Some(b) => Some(copy_bytes(b.as_slice())),
        None => None,
    }
}

/// A copy of an optional transaction.
pub fn copy_tx(tx: &Option<Transaction>) -> (r: Option<Transaction>)
    ensures
        tx_model(r) == tx_model(*tx),
{
    match tx {
        Some(t) => Some(t.clone()),
        None => None,
    }
}

/// A coin that the maker receives in a swap.
#[derive(Debug)]
pub struct IncomingSwapCoin {
    /// The protocol of the swap.
    pub protocol: ProtocolVersion,
    /// The swap that the coin belongs to.
    pub swap_id: Option<String>,
    /// The maker's key of the contract.
    pub my_privkey: Option<SecretKey>,
    /// The maker's public key of the contract.
    pub my_pubkey: Option<PublicKey>,
    /// The other party's public key.
    pub other_pubkey: Option<PublicKey>,
    /// The other party's key, once it is handed over.
    pub other_privkey: Option<SecretKey>,
    /// The contract transaction.
    pub contract_tx: Transaction,
    /// The script of the two keys of a legacy coin, which has one wherever both
    /// are known.
    pub multisig_redeemscript: Option<Vec<u8>>,
    /// The script of a legacy contract.
    pub contract_redeemscript: Option<Vec<u8>>,
    /// The hash that the script of a legacy contract is locked to.
    pub hashvalue: Option<Hash160>,
    /// The key that spends with the preimage.
    pub hashlock_privkey: SecretKey,
    /// The amount of the coin in satoshis.
    pub funding_amount: u64,
    /// The other party's signature of the contract transaction.
    pub others_contract_sig: Option<Vec<u8>>,
    /// The preimage, once it is known.
    pub hash_preimage: Option<Preimage>,
    /// The hashlock script of a taproot contract.
    pub hashlock_script: Option<Vec<u8>>,
    /// The timelock script of a taproot contract.
    pub timelock_script: Option<Vec<u8>>,
    /// The internal key of a taproot contract.
    pub internal_key: Option<XOnlyPublicKey>,
    /// The tap tweak of a taproot contract.
    pub tap_tweak: Option<[u8; 32]>,
}

/// What such a coin holds.
pub struct IncomingModel {
    pub protocol: ProtocolVersion,
    pub swap_id: Option<Seq<char>>,
    pub my_privkey: Option<SecretKey>,
    pub my_pubkey: Option<PublicKey>,
    pub other_pubkey: Option<PublicKey>,
    pub other_privkey: Option<SecretKey>,
    pub contract_tx: TransactionModel,
    pub multisig_redeemscript: Option<Seq<u8>>,
    pub contract_redeemscript: Option<Seq<u8>>,
    pub hashvalue: Option<Hash160>,
    pub hashlock_privkey: SecretKey,
    pub funding_amount: u64,
    pub others_contract_sig: Option<Seq<u8>>,
    pub hash_preimage: Option<Preimage>,
    pub hashlock_script: Option<Seq<u8>>,
    pub timelock_script: Option<Seq<u8>>,
    pub internal_key: Option<XOnlyPublicKey>,
    pub tap_tweak: Option<[u8; 32]>,
}

impl View for IncomingSwapCoin {
    type V = IncomingModel;

    open spec fn view(&self) -> IncomingModel {
        IncomingModel {
            protocol: self.protocol,
            swap_id: text_model(self.swap_id),
            my_privkey: self.my_privkey,
            my_pubkey: self.my_pubkey,
            other_pubkey: self.other_pubkey,
            other_privkey: self.other_privkey,
            contract_tx: self.contract_tx@,
            multisig_redeemscript: bytes_model(self.multisig_redeemscript),
            contract_redeemscript: bytes_model(self.contract_redeemscript),
            hashvalue: self.hashvalue,
            hashlock_privkey: self.hashlock_privkey,
            funding_amount: self.funding_amount,
            others_contract_sig: bytes_model(self.others_contract_sig),
            hash_preimage: self.hash_preimage,
            hashlock_script: bytes_model(self.hashlock_script),
            timelock_script: bytes_model(self.timelock_script),
            internal_key: self.internal_key,
            tap_tweak: self.tap_tweak,
        }
    }
}

impl Clone for IncomingSwapCoin {
    fn clone(&self) -> (r: Self)
        ensures
            r@ == self@,
    {
        IncomingSwapCoin {
            protocol: self.protocol,
            swap_id: copy_text(&self.swap_id),
            my_privkey: self.my_privkey,
            my_pubkey: self.my_pubkey,
            other_pubkey: self.other_pubkey,
            other_privkey: self.other_privkey,
            contract_tx: self.contract_tx.clone(),
            multisig_redeemscript: copy_optional(&self.multisig_redeemscript),
            contract_redeemscript: copy_optional(&self.contract_redeemscript),
            hashvalue: self.hashvalue,
            hashlock_privkey: self.hashlock_privkey,
            funding_amount: self.funding_amount,
            others_contract_sig: copy_optional(&self.others_contract_sig),
            hash_preimage: self.hash_preimage,
            hashlock_script: copy_optional(&self.hashlock_script),
            timelock_script: copy_optional(&self.timelock_script),
            internal_key: self.internal_key,
            tap_tweak: self.tap_tweak,
        }
    }
}

/// A coin that the maker sends in a swap.
#[derive(Debug)]
pub struct OutgoingSwapCoin {
    /// The protocol of the swap.
    pub protocol: ProtocolVersion,
    /// The swap that the coin belongs to.
    pub swap_id: Option<String>,
    /// The maker's key of the contract.
    pub my_privkey: Option<SecretKey>,
    /// The maker's public key of the contract.
    pub my_pubkey: Option<PublicKey>,
    /// The other party's public key.
    pub other_pubkey: Option<PublicKey>,
    /// The contract transaction.
    pub contract_tx: Transaction,
    /// The output of the contract transaction that holds the contract.
    pub contract_vout: u32,
    /// The funding transaction that the contract transaction spends.
    pub funding_tx: Option<Transaction>,
    /// The script of the two keys of a legacy coin, which has one wherever both
    /// are known.
    pub multisig_redeemscript: Option<Vec<u8>>,
    /// The script of a legacy contract.
    pub contract_redeemscript: Option<Vec<u8>>,
    /// The key that spends after the timeout.
    pub timelock_privkey: SecretKey,
    /// The timeout, where the contract has one that can be read.
    pub timelock: Option<u32>,
    /// The amount of the coin in satoshis.
    pub funding_amount: u64,
    /// The other party's signature of the contract transaction.
    pub others_contract_sig: Option<Vec<u8>>,
    /// The hashlock script of a taproot contract.
    pub hashlock_script: Option<Vec<u8>>,
    /// The timelock script of a taproot contract.
    pub timelock_script: Option<Vec<u8>>,
    /// The internal key of a taproot contract.
    pub internal_key: Option<XOnlyPublicKey>,
    /// The tap tweak of a taproot contract.
    pub tap_tweak: Option<[u8; 32]>,
}

/// What such a coin holds.
pub struct OutgoingModel {
    pub protocol: ProtocolVersion,
    pub swap_id: Option<Seq<char>>,
    pub my_privkey: Option<SecretKey>,
    pub my_pubkey: Option<PublicKey>,
    pub other_pubkey: Option<PublicKey>,
    pub contract_tx: TransactionModel,
    pub contract_vout: u32,
    pub funding_tx: Option<TransactionModel>,
    pub multisig_redeemscript: Option<Seq<u8>>,
    pub contract_redeemscript: Option<Seq<u8>>,
    pub timelock_privkey: SecretKey,
    pub timelock: Option<u32>,
    pub funding_amount: u64,
    pub others_contract_sig: Option<Seq<u8>>,
    pub hashlock_script: Option<Seq<u8>>,
    pub timelock_script: Option<Seq<u8>>,
    pub internal_key: Option<XOnlyPublicKey>,
    pub tap_tweak: Option<[u8; 32]>,
}

impl View for OutgoingSwapCoin {
    type V = OutgoingModel;

    open spec fn view(&self) -> OutgoingModel {
        OutgoingModel {
            protocol: self.protocol,
            swap_id: text_model(self.swap_id),
            my_privkey: self.my_privkey,
            my_pubkey: self.my_pubkey,
            other_pubkey: self.other_pubkey,
            contract_tx: self.contract_tx@,
            contract_vout: self.contract_vout,
            funding_tx: tx_model(self.funding_tx),
            multisig_redeemscript: bytes_model(self.multisig_redeemscript),
            contract_redeemscript: bytes_model(self.contract_redeemscript),
            timelock_privkey: self.timelock_privkey,
            timelock: self.timelock,
            funding_amount: self.funding_amount,
            others_contract_sig: bytes_model(self.others_contract_sig),
            hashlock_script: bytes_model(self.hashlock_script),
            timelock_script: bytes_model(self.timelock_script),
            internal_key: self.internal_key,
            tap_tweak: self.tap_tweak,
        }
    }
}

impl Clone for OutgoingSwapCoin {
    fn clone(&self) -> (r: Self)
        ensures
            r@ == self@,
    {
        OutgoingSwapCoin {
            protocol: self.protocol,
            swap_id: copy_text(&self.swap_id),
            my_privkey: self.my_privkey,
            my_pubkey: self.my_pubkey,
            other_pubkey: self.other_pubkey,
            contract_tx: self.contract_tx.clone(),
            contract_vout: self.contract_vout,
            funding_tx: copy_tx(&self.funding_tx),
            multisig_redeemscript: copy_optional(&self.multisig_redeemscript),
            contract_redeemscript: copy_optional(&self.contract_redeemscript),
            timelock_privkey: self.timelock_privkey,
            timelock: self.timelock,
            funding_amount: self.funding_amount,
            others_contract_sig: copy_optional(&self.others_contract_sig),
            hashlock_script: copy_optional(&self.hashlock_script),
            timelock_script: copy_optional(&self.timelock_script),
            internal_key: self.internal_key,
            tap_tweak: self.tap_tweak,
        }
    }
}

/// What a list of incoming coins holds.
pub open spec fn incoming_models(items: Seq<IncomingSwapCoin>) -> Seq<IncomingModel> {
    items.map_values(|item: IncomingSwapCoin| item@)
}

/// A copy of a list of incoming coins.
pub fn copy_incoming(items: &Vec<IncomingSwapCoin>) -> (r: Vec<IncomingSwapCoin>)
    ensures
        incoming_models(r@) == incoming_models(items@),
{
    let mut out: Vec<IncomingSwapCoin> = Vec::new();
    let mut i: usize = 0;
    while i < items.len()
        invariant
            i <= items.len(),
            out.len() == i,
            forall|j: int| 0 <= j < i ==> (#[trigger] out@[j])@ == items@[j]@,
        decreases items.len() - i,
    {
        out.push(items[i].clone());
        i += 1;
    }
    assert(incoming_models(out@) =~= incoming_models(items@));
    out
}

/// What a list of outgoing coins holds.
pub open spec fn outgoing_models(items: Seq<OutgoingSwapCoin>) -> Seq<OutgoingModel> {
    items.map_values(|item: OutgoingSwapCoin| item@)
}

/// A copy of a list of outgoing coins.
pub fn copy_outgoing(items: &Vec<OutgoingSwapCoin>) -> (r: Vec<OutgoingSwapCoin>)
    ensures
        outgoing_models(r@) == outgoing_models(items@),
{
    let mut out: Vec<OutgoingSwapCoin> = Vec::new();
    let mut i: usize = 0;
    while i < items.len()
        invariant
            i <= items.len(),
            out.len() == i,
            forall|j: int| 0 <= j < i ==> (#[trigger] out@[j])@ == items@[j]@,
        decreases items.len() - i,
    {
        out.push(items[i].clone());
        i += 1;
    }
    assert(outgoing_models(out@) =~= outgoing_models(items@));
    out
}

/// What a list of transactions holds.
pub open spec fn tx_models(items: Seq<Transaction>) -> Seq<TransactionModel> {
    items.map_values(|item: Transaction| item@)
}

/// A copy of a list of transactions.
pub fn copy_txs(items: &Vec<Transaction>) -> (r: Vec<Transaction>)
    ensures
        tx_models(r@) == tx_models(items@),
{
    let mut out: Vec<Transaction> = Vec::new();
    let mut i: usize = 0;
    while i < items.len()
        invariant
            i <= items.len(),
            out.len() == i,
            forall|j: int| 0 <= j < i ==> (#[trigger] out@[j])@ == items@[j]@,
        decreases items.len() - i,
    {
        out.push(items[i].clone());
        i += 1;
    }
    assert(tx_models(out@) =~= tx_models(items@));
    out
}

/// A copy of a list of outpoints.
pub fn copy_outpoints(points: &Vec<OutPoint>) -> (r: Vec<OutPoint>)
    ensures
        r@ == points@,
{
    let mut out: Vec<OutPoint> = Vec::new();
    let mut i: usize = 0;
    while i < points.len()
        invariant
            i <= points.len(),
            out@ == points@.subrange(0, i as int),
        decreases points.len() - i,
    {
        out.push(points[i]);
        i += 1;
        assert(out@ =~= points@.subrange(0, i as int));
    }
    assert(points@.subrange(0, i as int) =~= points@);
    out
}

/// Whether an unfinished outgoing coin belongs to the swap `swap_id`.
pub fn has_unfinished_outgoing_swapcoin(outgoing: &Vec<OutgoingSwapCoin>, swap_id: &str) -> (r: bool)
    ensures
        r <==> exists|i: int|
            0 <= i < outgoing@.len() && text_model((#[trigger] outgoing@[i]).swap_id) == Some(
                swap_id@,
            ),
{
    let mut i: usize = 0;
    while i < outgoing.len()
        invariant
            i <= outgoing.len(),
            forall|j: int|
                0 <= j < i ==> text_model((#[trigger] outgoing@[j]).swap_id) != Some(swap_id@),
        decreases outgoing.len() - i,
    {
        if let Some(id) = &outgoing[i].swap_id {
            if str_equal(id.as_str(), swap_id) {
                return true;
            }
        }
        i += 1;
    }
    false
}

/// A script of two keys, either of which must sign.
#[derive(Debug)]
pub struct TwoKeyScript {
    /// The maker's key.
    pub my_pubkey: PublicKey,
    /// The other party's key.
    pub other_pubkey: PublicKey,
    /// The script that is made from them.
    pub script: Vec<u8>,
}

/// The script that was made from two keys.
pub open spec fn script_of(
    scripts: Seq<TwoKeyScript>,
    my_pubkey: PublicKey,
    other_pubkey: PublicKey,
) -> Option<Seq<u8>>
    decreases scripts.len(),
{
    if scripts.len() == 0 {
        None
    } else if scripts[0].my_pubkey == my_pubkey && scripts[0].other_pubkey == other_pubkey {
        Some(scripts[0].script@)
    } else {
        script_of(scripts.drop_first(), my_pubkey, other_pubkey)
    }
}

/// The two keys of an outgoing legacy coin, where both are known.
pub open spec fn keys_of(coin: OutgoingSwapCoin) -> Option<(PublicKey, PublicKey)> {
    if coin.protocol == ProtocolVersion::Legacy && coin.my_pubkey is Some && coin.other_pubkey is Some {
        Some((coin.my_pubkey->0, coin.other_pubkey->0))
    } else {
        None
    }
}

/// Whether an outgoing coin spends from a script: it is of the legacy protocol,
/// and the script is that of its two keys.
pub open spec fn spends_script(
    coin: OutgoingSwapCoin,
    script: Seq<u8>,
    scripts: Seq<TwoKeyScript>,
) -> bool {
    match keys_of(coin) {
        Some((my_pubkey, other_pubkey)) => script_of(scripts, my_pubkey, other_pubkey) == Some(
            script,
        ),
        None => false,
    }
}

/// The two keys of an outgoing legacy coin.
pub fn two_keys(coin: &OutgoingSwapCoin) -> (r: Option<(PublicKey, PublicKey)>)
    ensures
        r == keys_of(*coin),
{
    if coin.protocol != ProtocolVersion::Legacy {
        return None;
    }
    match (coin.my_pubkey, coin.other_pubkey) {
        (Some(my_pubkey), Some(other_pubkey)) => Some((my_pubkey, other_pubkey)),
        _ => None,
    }
}

/// Whether an outgoing coin spends from a script. `scripts` are those made
/// from the keys of coins.
pub fn is_of_script(coin: &OutgoingSwapCoin, script: &[u8], scripts: &Vec<TwoKeyScript>) -> (r:
    bool)
    ensures
        r == spends_script(*coin, script@, scripts@),
{
    let (my_pubkey, other_pubkey) = match two_keys(coin) {
        Some(keys) => keys,
        None => {
            return false;
        },
    };
    let mut i: usize = 0;
    assert(scripts@.skip(0) =~= scripts@);
    while i < scripts.len()
        invariant
            i <= scripts.len(),
            script_of(scripts@, my_pubkey, other_pubkey) == script_of(
                scripts@.skip(i as int),
                my_pubkey,
                other_pubkey,
            ),
            keys_of(*coin) == Some((my_pubkey, other_pubkey)),
        decreases scripts.len() - i,
    {
        assert(scripts@.skip(i as int).drop_first() =~= scripts@.skip(i + 1));
        if key_equal(&scripts[i].my_pubkey, &my_pubkey) && key_equal(
            &scripts[i].other_pubkey,
            &other_pubkey,
        ) {
            return bytes_equal(scripts[i].script.as_slice(), script);
        }
        i += 1;
    }
    assert(scripts@.skip(i as int).len() == 0);
    false
}

/// A coin is found by a script exactly where it is a legacy coin that knows
/// both keys and the script is the one made of them; a taproot coin never is.
pub proof fn law_coins_are_found_by_their_keys(
    coin: OutgoingSwapCoin,
    script: Seq<u8>,
    scripts: Seq<TwoKeyScript>,
)
    ensures
        spends_script(coin, script, scripts) <==> {
            &&& coin.protocol == ProtocolVersion::Legacy
            &&& coin.my_pubkey is Some
            &&& coin.other_pubkey is Some
            &&& script_of(scripts, coin.my_pubkey->0, coin.other_pubkey->0) == Some(script)
        },
        keys_of(coin) matches Some((mine, other)) ==> coin.my_pubkey == Some(mine)
            && coin.other_pubkey == Some(other),
{
}

/// The script of two keys is one that was made of these keys in this order, and
/// there is one wherever one was made.
pub proof fn law_script_is_made_of_the_keys(
    scripts: Seq<TwoKeyScript>,
    mine: PublicKey,
    other: PublicKey,
    i: int,
)
    ensures
        script_of(scripts, mine, other) matches Some(script) ==> exists|k: int|
            0 <= k < scripts.len() && (#[trigger] scripts[k]).my_pubkey == mine
                && scripts[k].other_pubkey == other && scripts[k].script@ == script,
        0 <= i < scripts.len() && scripts[i].my_pubkey == mine && scripts[i].other_pubkey == other
            ==> script_of(scripts, mine, other) is Some,
    decreases scripts.len(),
{
    if scripts.len() > 0 {
        let rest = scripts.drop_first();
        law_script_is_made_of_the_keys(rest, mine, other, i - 1);
        if script_of(scripts, mine, other) is Some {
            if scripts[0].my_pubkey == mine && scripts[0].other_pubkey == other {
                assert(scripts[0].script@ == script_of(scripts, mine, other)->0);
            } else {
                let k = choose|k: int|
                    0 <= k < rest.len() && (#[trigger] rest[k]).my_pubkey == mine
                        && rest[k].other_pubkey == other && rest[k].script@ == script_of(
                        rest,
                        mine,
                        other,
                    )->0;
                assert(scripts[k + 1] == rest[k]);
            }
        }
        if 0 < i < scripts.len() {
            assert(rest[i - 1] == scripts[i]);
        }
    }
}

} // verus!
