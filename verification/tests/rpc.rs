use openswap_maker::chain::Network;
use openswap_maker::error::{MakerError, NetFault};
use openswap_maker::maker::rpc::cookie::{
    bytes_to_hex, cookie_path, cookie_tmp_path, parse_token_hex, tokens_equal, verify_rpc_auth,
    RPC_COOKIE_BYTES,
};
use openswap_maker::maker::rpc::messages::{RpcAuthEnvelope, RpcMsgReq};
use openswap_maker::maker::rpc::server::{
    handle_request, parse_rpc_destination_address, plan_request, tor_address, CoinKind, RpcPlan,
};
use openswap_maker::protocol::common_messages::RateBits;

#[test]
fn verify_rpc_auth_accepts_valid_rejects_invalid() {
    let mut bytes = [0u8; RPC_COOKIE_BYTES];
    bytes[0] = 0xab;
    let token = bytes_to_hex(&bytes);

    let envelope = RpcAuthEnvelope {
        token: token.clone(),
        msg: RpcMsgReq::Ping,
    };

    assert!(matches!(
        verify_rpc_auth(&envelope, &token),
        Ok(RpcMsgReq::Ping)
    ));
    assert!(matches!(
        verify_rpc_auth(&envelope, "00".repeat(RPC_COOKIE_BYTES * 2).as_str()),
        Err(MakerError::General("unauthorized"))
    ));
    assert!(matches!(
        verify_rpc_auth(
            &RpcAuthEnvelope {
                token: "not-hex".to_string(),
                msg: RpcMsgReq::Ping,
            },
            &token
        ),
        Err(MakerError::General("unauthorized"))
    ));
}

#[test]
fn parse_rpc_destination_address_rejects_invalid_address() {
    let err = parse_rpc_destination_address("not-an-address", Network::Regtest)
        .expect_err("invalid address should fail");
    assert!(matches!(
        err,
        MakerError::Net(NetFault::InvalidNetworkAddressDetailed)
    ));
}

#[test]
fn parse_rpc_destination_address_rejects_wrong_network() {
    let err = parse_rpc_destination_address("1BoatSLRHtKNngkdXEeobR76b53LETtpyT", Network::Regtest)
        .expect_err("mainnet address should fail for regtest");
    assert!(matches!(
        err,
        MakerError::Net(NetFault::InvalidNetworkAddressDetailed)
    ));
}

#[test]
fn a_destination_of_the_network_gives_its_script() {
    let script = parse_rpc_destination_address("1BoatSLRHtKNngkdXEeobR76b53LETtpyT", Network::Bitcoin)
        .unwrap();
    assert_eq!(script.len(), 25);
    assert_eq!(&script[..3], &[0x76, 0xa9, 20]);
    assert_eq!(&script[23..], &[0x88, 0xac]);
}

#[test]
fn tokens_are_written_and_read_back() {
    let mut bytes = [0u8; 32];
    for i in 0..32 {
        bytes[i] = (i * 8 + 3) as u8;
    }
    let text = bytes_to_hex(&bytes);
    assert_eq!(&text[..6], "030b13");
    assert_eq!(parse_token_hex(&text).unwrap(), bytes);
    assert_eq!(parse_token_hex(&format!(" {}\n", text.to_uppercase())).unwrap(), bytes);
    assert!(parse_token_hex(&text[..63]).is_err());
    assert!(tokens_equal(&bytes, &bytes));
    let mut other = bytes;
    other[31] ^= 1;
    assert!(!tokens_equal(&bytes, &other));
}

#[test]
fn the_cookie_is_written_elsewhere_first() {
    assert_eq!(cookie_path("/data"), "/data/rpc_cookie");
    assert_eq!(cookie_tmp_path("/data/"), "/data/rpc_cookie.tmp");
    assert_eq!(cookie_path(""), "rpc_cookie");
}

#[test]
fn requests_come_to_plans() {
    let plan = |request: RpcMsgReq| handle_request(request, Network::Regtest).unwrap();
    assert!(matches!(plan(RpcMsgReq::Ping), RpcPlan::Pong));
    assert!(matches!(plan(RpcMsgReq::Utxo), RpcPlan::ListCoins(CoinKind::All)));
    assert!(matches!(plan(RpcMsgReq::SwapUtxo), RpcPlan::ListCoins(CoinKind::Swap)));
    assert!(matches!(
        plan(RpcMsgReq::ContractUtxo),
        RpcPlan::ListCoins(CoinKind::Contract)
    ));
    assert!(matches!(
        plan(RpcMsgReq::FidelityUtxo),
        RpcPlan::ListCoins(CoinKind::Fidelity)
    ));
    assert!(matches!(plan(RpcMsgReq::Balances), RpcPlan::Balances));
    assert!(matches!(plan(RpcMsgReq::NewAddress), RpcPlan::NewAddress));
    assert!(matches!(plan(RpcMsgReq::GetTorAddress), RpcPlan::TorAddress));
    assert!(matches!(plan(RpcMsgReq::GetDataDir), RpcPlan::DataDir));
    assert!(matches!(plan(RpcMsgReq::Stop), RpcPlan::Stop));
    assert!(matches!(plan(RpcMsgReq::ListFidelity), RpcPlan::ListBonds));
    assert!(matches!(plan(RpcMsgReq::SyncWallet), RpcPlan::SyncWallet));
}

#[test]
fn a_payment_needs_an_address_of_the_network() {
    let request = || RpcMsgReq::SendToAddress {
        address: "1BoatSLRHtKNngkdXEeobR76b53LETtpyT".to_string(),
        amount: 1_000,
        feerate: RateBits(1),
    };
    assert!(matches!(
        handle_request(request(), Network::Regtest),
        Err(MakerError::Net(NetFault::InvalidNetworkAddressDetailed))
    ));
    match handle_request(request(), Network::Bitcoin).unwrap() {
        RpcPlan::Send { script, amount, feerate } => {
            assert_eq!(script.len(), 25);
            assert_eq!(amount, 1_000);
            assert_eq!(feerate, RateBits(1));
        }
        _ => panic!("a payment is planned"),
    }
    match plan_request(request(), Some(vec![1, 2])).unwrap() {
        RpcPlan::Send { script, .. } => assert_eq!(script, vec![1, 2]),
        _ => panic!("a payment is planned"),
    }
}

#[test]
fn the_tor_address_has_the_port() {
    assert_eq!(tor_address("abc.onion", 6102), "abc.onion:6102");
}
