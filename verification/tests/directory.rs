use openswap_maker::chain::{OutPoint, Transaction, TxOut};
use openswap_maker::market::directory::{
    names_connection, readable_text, settings_with, verify_post, BondFacts, ConnectionType, DirectoryServer, DirectoryServerError, OfferMetadata,
};
use openswap_maker::market::rpc::{handle_request, RpcMsgReq, RpcMsgResp};
use openswap_maker::protocol::common_messages::{FidelityBond, FidelityProof};

#[test]
fn directory_test_valid_config() {
    let contents = r#"
            [directory_config]
            port = 8080
            socks_port = 19060
        "#;
    let dns = DirectoryServer::new(contents, "", None);
    let default_dns = DirectoryServer::default();

    assert_eq!(dns.port, default_dns.port);
    assert_eq!(dns.socks_port, default_dns.socks_port);
}

#[test]
fn directory_test_missing_fields() {
    let contents = r#"
            [directory_config]
            port = 8080
        "#;
    let dns = DirectoryServer::new(contents, "", None);

    assert_eq!(dns.port, 8080);
    assert_eq!(dns.socks_port, DirectoryServer::default().socks_port);
}

#[test]
fn directory_test_incorrect_data_type() {
    let contents = r#"
            [directory_config]
            port = "not_a_number"
        "#;
    let dns = DirectoryServer::new(contents, "", None);
    let default_dns = DirectoryServer::default();

    assert_eq!(dns.port, default_dns.port);
    assert_eq!(dns.socks_port, default_dns.socks_port);
}

#[test]
fn directory_test_missing_file() {
    let contents = "port = 8080\nsocks_port = 19060\nconnection_type = tor\nrpc_port = 4321\n";
    let dns = DirectoryServer::new(contents, "", None);
    let default_dns = DirectoryServer::default();

    assert_eq!(dns.port, default_dns.port);
    assert_eq!(dns.socks_port, default_dns.socks_port);
}

#[test]
fn connection_type_is_read_or_given() {
    let text = "connection_type = clearnet\nrpc_port = 4000";
    assert_eq!(
        DirectoryServer::new(text, "", None).connection_type,
        ConnectionType::CLEARNET
    );
    assert_eq!(
        DirectoryServer::new(text, "", Some(ConnectionType::TOR)).connection_type,
        ConnectionType::TOR
    );
    assert_eq!(
        DirectoryServer::new("", "", None).connection_type,
        ConnectionType::TOR
    );
    assert_eq!(DirectoryServer::new(text, "", None).rpc_port, 4000);
}

#[test]
fn addresses_are_listed_once_and_served_in_order() {
    let mut dns = DirectoryServer::new("", "a:1\nb:2\r\na:1\nc:3", None);
    assert_eq!(dns.list_addresses(), vec!["a:1", "b:2", "c:3"]);
    dns.add_address("b:2".to_string());
    dns.add_address("d:4".to_string());
    assert_eq!(dns.serve(2), "a:1\nb:2\n");
    assert_eq!(dns.serve(4), "a:1\nb:2\nc:3\nd:4\n");
    assert_eq!(dns.serve(5), "");
    assert_eq!(dns.serve(0), "");
    let RpcMsgResp::ListAddressesResp(listed) = handle_request(RpcMsgReq::ListAddresses, &dns);
    assert_eq!(listed, vec!["a:1", "b:2", "c:3", "d:4"]);
}

#[test]
fn written_addresses_are_read_back() {
    let mut dns = DirectoryServer::default();
    dns.add_address("x:1".to_string());
    dns.add_address("y:2".to_string());
    let file = dns.address_file();
    assert_eq!(file, "x:1\ny:2\n");
    assert_eq!(
        DirectoryServer::new("", &file, None).list_addresses(),
        dns.list_addresses()
    );
}

fn secret() -> bitcoin::secp256k1::SecretKey {
    bitcoin::secp256k1::SecretKey::from_slice(&[9u8; 32]).unwrap()
}

fn bond_proof() -> FidelityProof {
    let secp = bitcoin::secp256k1::Secp256k1::new();
    let cert_hash = [5u8; 32];
    let message = bitcoin::secp256k1::Message::from_digest(cert_hash);
    let signature = secp.sign_ecdsa(&message, &secret());
    let pubkey = bitcoin::secp256k1::PublicKey::from_secret_key(&secp, &secret());
    FidelityProof {
        bond: FidelityBond {
            bond_index: 7,
            outpoint: OutPoint {
                txid: [1u8; 32],
                vout: 0,
            },
            amount: 10_000,
            lock_time: 1_000,
            pubkey: pubkey.serialize(),
            conf_height: Some(10),
            is_spent: false,
        },
        cert_hash,
        cert_sig: signature.serialize_der().to_vec(),
    }
}

fn facts() -> BondFacts {
    let redeemscript = vec![0x51u8];
    let script_pubkey = bitcoin::Script::from_bytes(&redeemscript).to_p2wsh().to_bytes();
    BondFacts {
        redeemscript,
        transaction: Transaction {
            version: 2,
            lock_time: 0,
            input: vec![],
            output: vec![TxOut {
                value: 10_000,
                script_pubkey,
            }],
        },
        cert_hash: [5u8; 32],
        height: 999,
    }
}

fn post(proof: FidelityProof) -> OfferMetadata {
    OfferMetadata {
        url: "maker:1".to_string(),
        proof,
    }
}

#[test]
fn a_post_with_a_valid_bond_is_listed() {
    let mut dns = DirectoryServer::default();
    assert_eq!(dns.take_post(post(bond_proof()), &facts()), Ok(true));
    assert_eq!(dns.list_addresses(), vec!["maker:1"]);
}

#[test]
fn a_post_with_a_wrong_signature_is_not_listed() {
    let mut dns = DirectoryServer::default();
    let mut other = bond_proof();
    other.cert_sig[10] ^= 1;
    assert_eq!(dns.take_post(post(other), &facts()), Ok(false));
    let mut malformed = bond_proof();
    malformed.cert_sig = vec![1, 2, 3];
    assert_eq!(dns.take_post(post(malformed), &facts()), Ok(false));
    assert!(dns.list_addresses().is_empty());
}

#[test]
fn a_post_must_match_chain_and_certificate() {
    let expired = BondFacts {
        height: 1_000,
        ..facts()
    };
    assert_eq!(verify_post(&bond_proof(), &expired, true), Ok(false));
    let other_certificate = BondFacts {
        cert_hash: [6u8; 32],
        ..facts()
    };
    assert_eq!(verify_post(&bond_proof(), &other_certificate, true), Ok(false));
    let other_script = BondFacts {
        redeemscript: vec![0x52u8],
        ..facts()
    };
    assert_eq!(verify_post(&bond_proof(), &other_script, true), Ok(false));
    let mut timed = bond_proof();
    timed.bond.lock_time = 1_600_000_000;
    assert_eq!(verify_post(&timed, &facts(), true), Ok(false));
    assert_eq!(verify_post(&bond_proof(), &facts(), true), Ok(true));
}

#[test]
fn a_post_without_transaction_output_fails() {
    let mut none = facts();
    none.transaction.output.clear();
    assert_eq!(
        verify_post(&bond_proof(), &none, true),
        Err(DirectoryServerError::OutputsIndexError)
    );
    let late = BondFacts {
        height: 500_000_000,
        ..facts()
    };
    assert_eq!(
        verify_post(&bond_proof(), &late, true),
        Err(DirectoryServerError::Locktime)
    );
}

#[test]
fn a_connection_type_is_written_to_the_settings() {
    let config = "# comment\n[directory_config]\nport = 8080\nconnection_type = tor\nport=9090\n";
    assert!(names_connection(config));
    let text = settings_with(config, ConnectionType::CLEARNET);
    assert_eq!(text, "connection_type = CLEARNET\nport = 9090");
    let dns = DirectoryServer::new(&text, "", None);
    assert_eq!(dns.connection_type, ConnectionType::CLEARNET);
    assert_eq!(dns.port, 9090);
    let back = settings_with(&text, ConnectionType::TOR);
    assert_eq!(back, "connection_type = TOR\nport = 9090");
    assert_eq!(
        DirectoryServer::new(&back, "", None).connection_type,
        ConnectionType::TOR
    );
    assert!(!names_connection("port = 8080"));
}

#[test]
fn addresses_are_read_up_to_a_line_that_is_no_text() {
    assert_eq!(readable_text(&b"a:1\nb:2".to_vec()), "a:1\nb:2");
    assert_eq!(readable_text(&b"a:1\nb\xff:2\nc:3\n".to_vec()), "a:1\n");
    assert_eq!(readable_text(&b"\xff\nc:3\n".to_vec()), "");
    assert_eq!(readable_text(&vec![]), "");
    assert_eq!(readable_text(&"ä:1\n".as_bytes().to_vec()), "ä:1\n");
}
