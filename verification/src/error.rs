//! The errors of the maker.

use crate::chain::Txid;
use crate::maker::handlers::SwapPhase;
use crate::maker::nostr::txid_text;
use crate::maker::rpc::cookie::{digit_text, hex_digit, hex_text};
use crate::protocol::error::ProtocolError;
use crate::settings::{decimal, decimal_text};
use vstd::prelude::*;
use vstd::string::{StrSliceExecFns, StringExecFns};

verus! {

/// What a maker operation can fail with.
///
/// A text `what` has holes `{}`, which the other fields fill in their order.
#[allow(inconsistent_fields)]
#[derive(Debug)]
pub enum MakerError {
    /// A condition that its text describes.
    General(&'static str),
    /// The maker already serves as many swaps as it may.
    TooManySwaps,
    /// The wallet does not cover the active swaps and the requested one.
    InsufficientLiquidity { available: u64, reserved: u64, requested: u64 },
    /// A swap was proposed again under different terms.
    SwapParamMismatch,
    /// A message came in a phase that does not expect it.
    UnexpectedPhase(SwapPhase),
    /// A message names another swap than the connection's.
    SwapIdMismatch,
    /// Two lists that belong together differ in length.
    CountMismatch { what: &'static str, first: usize, second: usize },
    /// A message's item, named by its position, failed the check `what`.
    Item { what: &'static str, index: usize },
    /// A value other than the expected one.
    WrongValue { what: &'static str, found: u64, expected: u64 },
    /// A contract transaction without exactly one input and one output.
    Structure { what: &'static str, index: usize, inputs: usize, outputs: usize },
    /// A value of an item other than the expected one.
    ItemValue { what: &'static str, index: usize, found: u64, expected: u64 },
    /// A transaction id of an item other than the expected one.
    ItemTxid { what: &'static str, index: usize, found: Txid, expected: Txid },
    /// A byte string of a length that has no meaning.
    Length { what: &'static str, length: usize },
    /// A number that must be positive and is not.
    NonPositive { what: &'static str, value: i32 },
    /// A contract that the protocol rejects.
    Contract { what: &'static str, cause: ProtocolError },
    /// An item, named by its position, that the protocol rejects.
    ItemContract { what: &'static str, index: usize, cause: ProtocolError },
    /// A failure of the contract protocol.
    Protocol(ProtocolError),
    /// A key, a nonce or their sum is not valid.
    Secp,
    /// A failure of the network layer.
    Net(NetFault),
    /// A failure that the wallet or the chain reported.
    Wallet(WalletFault),
}

/// The failures of the network layer that the maker tells apart.
#[derive(Debug, Clone, Copy, PartialEq, Eq, Structural)]
pub enum NetFault {
    /// A text that is no address of the maker's network.
    InvalidNetworkAddressDetailed,
}

/// The failures of the wallet that the maker tells apart.
#[derive(Debug)]
pub enum WalletFault {
    /// The wallet holds less than the operation needs.
    InsufficientFund { available: u64, required: u64 },
    /// The node answered a call with an error code and a message.
    Rpc { code: i32, message: String },
    /// A fidelity bond's lock time is outside the accepted range.
    InvalidBondLocktime,
    /// A height that no lock time can express.
    Locktime,
    /// Any other failure.
    Other,
}

/// A text whose holes `{}` are filled, in their order.
pub open spec fn filled(template: Seq<char>, parts: Seq<Seq<char>>) -> Seq<char>
    decreases template.len(),
{
    if template.len() == 0 {
        seq![]
    } else if template.len() >= 2 && template[0] == '{' && template[1] == '}' && parts.len() > 0 {
        parts[0] + filled(template.skip(2), parts.drop_first())
    } else {
        seq![template[0]] + filled(template.skip(1), parts)
    }
}

/// What a list of texts holds.
pub open spec fn part_models(parts: Seq<String>) -> Seq<Seq<char>> {
    parts.map_values(|part: String| part@)
}

/// Fills the holes of a text.
fn fill(template: &str, parts: Vec<String>) -> (r: String)
    ensures
        r@ == filled(template@, part_models(parts@)),
{
    let n = template.unicode_len();
    let ghost models = part_models(parts@);
    let mut out = String::new();
    let mut i: usize = 0;
    let mut k: usize = 0;
    assert(template@.skip(0) =~= template@);
    assert(models.skip(0) =~= models);
    assert(out@ + filled(template@, models) =~= filled(template@, models));
    while i < n
        invariant
            n == template@.len(),
            i <= n,
            k <= parts@.len(),
            models == part_models(parts@),
            out@ + filled(template@.skip(i as int), models.skip(k as int)) == filled(
                template@,
                models,
            ),
        decreases n - i,
    {
        let ghost rest = template@.skip(i as int);
        let ghost left = models.skip(k as int);
        let ghost before = out@;
        if n - i >= 2 && template.get_char(i) == '{' && template.get_char(i + 1) == '}' && k
            < parts.len() {
            out.append(parts[k].as_str());
            proof {
                assert(left[0] == parts@[k as int]@);
                assert(rest.skip(2) =~= template@.skip(i + 2));
                assert(left.drop_first() =~= models.skip(k + 1));
                let tail = filled(rest.skip(2), left.drop_first());
                assert(before + (left[0] + tail) =~= out@ + tail);
            }
            i += 2;
            k += 1;
        } else {
            out.append(template.substring_char(i, i + 1));
            proof {
                assert(template@.subrange(i as int, i + 1) =~= seq![rest[0]]);
                assert(rest.skip(1) =~= template@.skip(i + 1));
                let tail = filled(rest.skip(1), left);
                assert(before + (seq![rest[0]] + tail) =~= out@ + tail);
            }
            i += 1;
        }
    }
    assert(template@.skip(i as int) =~= seq![]);
    assert(out@ + filled(seq![], models.skip(k as int)) =~= out@);
    out
}

/// The last digits of a number, with zeros before them where it has fewer.
pub open spec fn last_digits(n: nat, count: nat) -> Seq<char>
    decreases count,
{
    if count == 0 {
        seq![]
    } else {
        last_digits(n / 10, (count - 1) as nat).push(hex_digit((n % 10) as int))
    }
}

/// The last digits of a number.
fn last_digits_text(n: u64, count: u64) -> (r: String)
    ensures
        r@ == last_digits(n as nat, count as nat),
    decreases count,
{
    if count == 0 {
        let out = String::new();
        assert(out@ =~= last_digits(n as nat, 0));
        return out;
    }
    let mut out = last_digits_text(n / 10, count - 1);
    let ghost before = out@;
    out.append(digit_text((n % 10) as u8));
    assert(out@ =~= before.push(hex_digit((n % 10) as int)));
    out
}

/// The text of an amount in satoshis: bitcoins, with eight decimals where the
/// amount is not whole.
pub open spec fn amount(sats: nat) -> Seq<char> {
    if sats % 100_000_000 == 0 {
        decimal(sats / 100_000_000) + " BTC"@
    } else {
        decimal(sats / 100_000_000) + "."@ + last_digits(sats % 100_000_000, 8) + " BTC"@
    }
}

/// The text of an amount in satoshis.
pub fn amount_text(sats: u64) -> (r: String)
    ensures
        r@ == amount(sats as nat),
{
    let mut out = decimal_text(sats / 100_000_000);
    if sats % 100_000_000 != 0 {
        out.append(".");
        out.append(last_digits_text(sats % 100_000_000, 8).as_str());
    }
    out.append(" BTC");
    out
}

/// The text of a number that may be negative.
pub open spec fn signed(n: int) -> Seq<char> {
    if n < 0 {
        "-"@ + decimal((-n) as nat)
    } else {
        decimal(n as nat)
    }
}

/// The text of a number that may be negative.
fn signed_text(n: i32) -> (r: String)
    ensures
        r@ == signed(n as int),
{
    if n < 0 {
        let mut out = "-".to_owned();
        out.append(decimal_text((-(n as i64)) as u64).as_str());
        out
    } else {
        decimal_text(n as u64)
    }
}

impl MakerError {
    /// The text of a failure that a text describes; nothing for the others.
    pub open spec fn described(&self) -> Option<Seq<char>> {
        match self {
            MakerError::General(text) => Some(text@),
            MakerError::CountMismatch { what, first, second } => Some(
                filled(what@, seq![decimal(*first as nat), decimal(*second as nat)]),
            ),
            MakerError::Item { what, index } => Some(filled(what@, seq![decimal(*index as nat)])),
            MakerError::WrongValue { what, found, expected } => Some(
                filled(what@, seq![decimal(*found as nat), decimal(*expected as nat)]),
            ),
            MakerError::Structure { what, index, inputs, outputs } => Some(
                filled(
                    what@,
                    seq![decimal(*index as nat), decimal(*inputs as nat), decimal(*outputs as nat)],
                ),
            ),
            MakerError::ItemValue { what, index, found, expected } => Some(
                filled(
                    what@,
                    seq![decimal(*index as nat), amount(*found as nat), amount(*expected as nat)],
                ),
            ),
            MakerError::ItemTxid { what, index, found, expected } => Some(
                filled(
                    what@,
                    seq![
                        decimal(*index as nat),
                        hex_text(found@.reverse()),
                        hex_text(expected@.reverse()),
                    ],
                ),
            ),
            MakerError::Length { what, length } => Some(
                filled(what@, seq![decimal(*length as nat)]),
            ),
            MakerError::NonPositive { what, value } => Some(
                filled(what@, seq![signed(*value as int)]),
            ),
            MakerError::Contract { what, cause } => Some(filled(what@, seq![cause.shown()])),
            MakerError::ItemContract { what, index, cause } => Some(
                filled(what@, seq![decimal(*index as nat), cause.shown()]),
            ),
            _ => None,
        }
    }

    /// The text of a failure that a text describes; nothing for the others.
    pub fn description(&self) -> (r: Option<String>)
        ensures
            match (r, self.described()) {
                (Some(text), Some(expected)) => text@ == expected,
                (None, None) => true,
                _ => false,
            },
    {
        let (what, parts): (&str, Vec<String>) = match self {
            MakerError::General(text) => {
                return Some((*text).to_owned());
            },
            MakerError::CountMismatch { what, first, second } => (
                *what,
                vec![decimal_text(*first as u64), decimal_text(*second as u64)],
            ),
            MakerError::Item { what, index } => (*what, vec![decimal_text(*index as u64)]),
            MakerError::WrongValue { what, found, expected } => (
                *what,
                vec![decimal_text(*found), decimal_text(*expected)],
            ),
            MakerError::Structure { what, index, inputs, outputs } => (
                *what,
                vec![
                    decimal_text(*index as u64),
                    decimal_text(*inputs as u64),
                    decimal_text(*outputs as u64),
                ],
            ),
            MakerError::ItemValue { what, index, found, expected } => (
                *what,
                vec![decimal_text(*index as u64), amount_text(*found), amount_text(*expected)],
            ),
            MakerError::ItemTxid { what, index, found, expected } => (
                *what,
                vec![decimal_text(*index as u64), txid_text(found), txid_text(expected)],
            ),
            MakerError::Length { what, length } => (*what, vec![decimal_text(*length as u64)]),
            MakerError::NonPositive { what, value } => (*what, vec![signed_text(*value)]),
            MakerError::Contract { what, cause } => (*what, vec![cause.text()]),
            MakerError::ItemContract { what, index, cause } => (
                *what,
                vec![decimal_text(*index as u64), cause.text()],
            ),
            _ => {
                return None;
            },
        };
        let ghost models = part_models(parts@);
        proof {
            if models.len() == 1 {
                assert(models =~= seq![models[0]]);
            } else if models.len() == 2 {
                assert(models =~= seq![models[0], models[1]]);
            } else {
                assert(models =~= seq![models[0], models[1], models[2]]);
            }
        }
        Some(fill(what, parts))
    }
}

/// A hole is filled with the next part, and what stands around it is kept: a
/// text without a hole is told as it is.
pub proof fn law_holes_are_filled_in_order(
    before: Seq<char>,
    after: Seq<char>,
    part: Seq<char>,
    rest: Seq<Seq<char>>,
)
    requires
        forall|i: int| 0 <= i < before.len() ==> #[trigger] before[i] != '{',
    ensures
        filled(before, rest) == before,
        filled(before + "{}"@ + after, seq![part] + rest) == before + part + filled(after, rest),
    decreases before.len(),
{
    reveal_strlit("{}");
    let whole = before + "{}"@ + after;
    let parts = seq![part] + rest;
    if before.len() == 0 {
        assert(whole.skip(2) =~= after);
        assert(parts.drop_first() =~= rest);
        assert(before + part + filled(after, rest) =~= part + filled(after, rest));
        assert(filled(before, rest) =~= before);
    } else {
        let tail = before.skip(1);
        assert forall|i: int| 0 <= i < tail.len() implies #[trigger] tail[i] != '{' by {
            assert(tail[i] == before[i + 1]);
        }
        law_holes_are_filled_in_order(tail, after, part, rest);
        assert(before[0] != '{');
        assert(whole[0] == before[0]);
        assert(whole.skip(1) =~= tail + "{}"@ + after);
        assert(seq![before[0]] + tail =~= before);
        assert(seq![before[0]] + (tail + part + filled(after, rest)) =~= before + part + filled(
            after,
            rest,
        ));
    }
}

/// A whole number of bitcoins is told as such, any other amount with its
/// satoshis in eight decimals.
pub proof fn law_amounts_are_told_in_bitcoins(whole: nat, sats: nat)
    requires
        sats < 100_000_000,
    ensures
        amount(whole * 100_000_000) == decimal(whole) + " BTC"@,
        sats > 0 ==> amount(whole * 100_000_000 + sats) == decimal(whole) + "."@ + last_digits(
            sats,
            8,
        ) + " BTC"@,
        last_digits(sats, 8).len() == 8,
        signed(-1) == "-"@ + decimal(1),
{
    assert((whole * 100_000_000) % 100_000_000 == 0);
    assert((whole * 100_000_000) / 100_000_000 == whole as int);
    assert((whole * 100_000_000 + sats) % 100_000_000 == sats as int);
    assert((whole * 100_000_000 + sats) / 100_000_000 == whole as int);
    reveal_with_fuel(last_digits, 9);
}

} // verus!
