use openswap_maker::error::{amount_text, MakerError};
use openswap_maker::primitives::pushed_number;
use openswap_maker::protocol::error::ProtocolError;

fn text(e: MakerError) -> String {
    e.description().unwrap()
}

#[test]
fn failures_are_described() {
    assert_eq!(text(MakerError::General("No hash")), "No hash");
    assert_eq!(
        text(MakerError::CountMismatch {
            what: "Privkey count {} doesn't match incoming swapcoin count {}",
            first: 2,
            second: 31,
        }),
        "Privkey count 2 doesn't match incoming swapcoin count 31"
    );
    assert_eq!(
        text(MakerError::Item {
            what: "Taproot contract tx {} has no inputs",
            index: 4,
        }),
        "Taproot contract tx 4 has no inputs"
    );
    assert_eq!(
        text(MakerError::WrongValue {
            what: "Taproot hashlock script has {} instructions, expected {}",
            found: 3,
            expected: 5,
        }),
        "Taproot hashlock script has 3 instructions, expected 5"
    );
    assert_eq!(
        text(MakerError::Structure {
            what: "Sender contract tx {} has invalid structure: {} inputs, {} outputs",
            index: 1,
            inputs: 0,
            outputs: 2,
        }),
        "Sender contract tx 1 has invalid structure: 0 inputs, 2 outputs"
    );
    assert_eq!(
        text(MakerError::ItemValue {
            what: "Taproot contract tx {} amount {} does not match output value {}",
            index: 0,
            found: 50_000,
            expected: 200_000_000,
        }),
        "Taproot contract tx 0 amount 0.00050000 BTC does not match output value 2 BTC"
    );
    assert_eq!(
        text(MakerError::Length {
            what: "Taproot timelock has unexpected byte length {}",
            length: 5,
        }),
        "Taproot timelock has unexpected byte length 5"
    );
    assert_eq!(
        text(MakerError::NonPositive {
            what: "Taproot timelock value is non-positive ({})",
            value: -1,
        }),
        "Taproot timelock value is non-positive (-1)"
    );
    assert_eq!(
        text(MakerError::Contract {
            what: "Invalid hashlock script: {}",
            cause: ProtocolError::WrongNumOfSigs {
                expected: 1,
                received: 2,
            },
        }),
        "Invalid hashlock script: WrongNumOfSigs { expected: 1, received: 2 }"
    );
    assert!(MakerError::TooManySwaps.description().is_none());
}

#[test]
fn a_cause_is_shown_as_it_is_debugged() {
    for cause in [
        ProtocolError::General("Invalid contract output"),
        ProtocolError::Secp,
        ProtocolError::WrongMessage {
            expected: "Offer",
            received: "Hello",
        },
        ProtocolError::WrongNumOfContractTxs {
            expected: 10,
            received: 0,
        },
        ProtocolError::WrongNumOfPrivkeys {
            expected: 1,
            received: 3,
        },
        ProtocolError::IncorrectFundingAmount {
            expected: 100,
            found: 99,
        },
        ProtocolError::InsufficientFunds,
        ProtocolError::ScalarOutOfRange,
        ProtocolError::TaprootBuilder,
        ProtocolError::TaprootSighash,
        ProtocolError::MusigTweak,
    ] {
        assert_eq!(cause.text(), format!("{cause:?}"));
    }
}

#[test]
fn amounts_are_shown_in_bitcoins() {
    for sats in [0, 1, 99, 100_000_000, 123_456_789, 2_100_000_000_000_000, 150_000_000] {
        assert_eq!(amount_text(sats), bitcoin::Amount::from_sat(sats).to_string());
    }
}

#[test]
fn opcodes_push_numbers() {
    for code in 0..=255u8 {
        let class = bitcoin::opcodes::Opcode::from(code)
            .classify(bitcoin::opcodes::ClassifyContext::Legacy);
        let expected = match class {
            bitcoin::opcodes::Class::PushNum(n) => Some(n),
            _ => None,
        };
        assert_eq!(pushed_number(code), expected);
    }
}
