//! The errors of the contract protocol.

use crate::settings::{decimal, decimal_text};
use vstd::prelude::*;
use vstd::string::StringExecFns;

verus! {

/// What a protocol operation can fail with.
#[allow(inconsistent_fields)]
#[derive(Debug)]
pub enum ProtocolError {
    /// A condition that its text describes.
    General(&'static str),
    /// A key, a nonce or their sum is not valid.
    Secp,
    /// A message of another kind than the expected one.
    WrongMessage { expected: &'static str, received: &'static str },
    /// A wrong number of signatures.
    WrongNumOfSigs { expected: usize, received: usize },
    /// A wrong number of contract transactions.
    WrongNumOfContractTxs { expected: usize, received: usize },
    /// A wrong number of private keys.
    WrongNumOfPrivkeys { expected: usize, received: usize },
    /// A funding amount other than the agreed one.
    IncorrectFundingAmount { expected: u64, found: u64 },
    /// An amount that does not cover the fee.
    InsufficientFunds,
    /// Bytes that are no scalar of the curve.
    ScalarOutOfRange,
    /// Keys that cannot be committed to in a taproot output.
    TaprootBuilder,
    /// A signature hash that cannot be computed.
    TaprootSighash,
    /// A tweak that takes an aggregated key to no key.
    MusigTweak,
}

/// Two numbers after their names.
fn pair_text(first: &str, a: u64, second: &str, b: u64) -> (r: String)
    ensures
        r@ == first@ + decimal(a as nat) + second@ + decimal(b as nat) + " }"@,
{
    let mut out = first.to_owned();
    out.append(decimal_text(a).as_str());
    out.append(second);
    out.append(decimal_text(b).as_str());
    out.append(" }");
    out
}

impl ProtocolError {
    /// The failure by its name, with what it holds: the form of `Debug`, whose
    /// quotes stand round a text that has none itself.
    pub open spec fn shown(&self) -> Seq<char> {
        match self {
            ProtocolError::General(text) => "General(\""@ + text@ + "\")"@,
            ProtocolError::WrongMessage { expected, received } => {
                "WrongMessage { expected: "@ + "\""@ + expected@ + "\""@ + ", received: "@ + "\""@ + received@ + "\""@ + " }"@
            },
            ProtocolError::WrongNumOfSigs { expected, received } => {
                "WrongNumOfSigs { expected: "@ + decimal(*expected as nat) + ", received: "@ + decimal(*received as nat) + " }"@
            },
            ProtocolError::WrongNumOfContractTxs { expected, received } => {
                "WrongNumOfContractTxs { expected: "@ + decimal(*expected as nat) + ", received: "@ + decimal(*received as nat) + " }"@
            },
            ProtocolError::WrongNumOfPrivkeys { expected, received } => {
                "WrongNumOfPrivkeys { expected: "@ + decimal(*expected as nat) + ", received: "@ + decimal(*received as nat) + " }"@
            },
            ProtocolError::IncorrectFundingAmount { expected, found } => {
                "IncorrectFundingAmount { expected: "@ + decimal(*expected as nat) + ", found: "@ + decimal(*found as nat) + " }"@
            },
            ProtocolError::Secp => "Secp"@,
            ProtocolError::InsufficientFunds => "InsufficientFunds"@,
            ProtocolError::ScalarOutOfRange => "ScalarOutOfRange"@,
            ProtocolError::TaprootBuilder => "TaprootBuilder"@,
            ProtocolError::TaprootSighash => "TaprootSighash"@,
            ProtocolError::MusigTweak => "MusigTweak"@,
        }
    }

    /// The failure by its name, with what it holds.
    pub fn text(&self) -> (r: String)
        ensures
            r@ == self.shown(),
    {
        match self {
            ProtocolError::General(text) => {
                let mut out = "General(\"".to_owned();
                out.append(text);
                out.append("\")");
                out
            },
            ProtocolError::WrongMessage { expected, received } => {
                let mut out = "WrongMessage { expected: ".to_owned();
                out.append("\"");
                out.append(expected);
                out.append("\"");
                out.append(", received: ");
                out.append("\"");
                out.append(received);
                out.append("\"");
                out.append(" }");
                out
            },
            ProtocolError::WrongNumOfSigs { expected, received } => pair_text(
                "WrongNumOfSigs { expected: ",
                *expected as u64,
                ", received: ",
                *received as u64,
            ),
            ProtocolError::WrongNumOfContractTxs { expected, received } => pair_text(
                "WrongNumOfContractTxs { expected: ",
                *expected as u64,
                ", received: ",
                *received as u64,
            ),
            ProtocolError::WrongNumOfPrivkeys { expected, received } => pair_text(
                "WrongNumOfPrivkeys { expected: ",
                *expected as u64,
                ", received: ",
                *received as u64,
            ),
            ProtocolError::IncorrectFundingAmount { expected, found } => pair_text(
                "IncorrectFundingAmount { expected: ",
                *expected as u64,
                ", found: ",
                *found as u64,
            ),
            ProtocolError::Secp => "Secp".to_owned(),
            ProtocolError::InsufficientFunds => "InsufficientFunds".to_owned(),
            ProtocolError::ScalarOutOfRange => "ScalarOutOfRange".to_owned(),
            ProtocolError::TaprootBuilder => "TaprootBuilder".to_owned(),
            ProtocolError::TaprootSighash => "TaprootSighash".to_owned(),
            ProtocolError::MusigTweak => "MusigTweak".to_owned(),
        }
    }
}

} // verus!
