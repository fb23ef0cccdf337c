use openswap_maker::relay_pool::{RelayPool, RelayPoolError, SocketFault, SocketOutcome};

fn pool() -> RelayPool {
    RelayPool::new(&vec![
        "wss://a".to_string(),
        "wss://b".to_string(),
        "wss://a".to_string(),
    ])
}

#[test]
fn a_relay_is_in_the_pool_once() {
    let mut urls = pool().relay_urls();
    urls.sort();
    assert_eq!(urls, vec!["wss://a", "wss://b"]);
}

#[test]
fn a_relay_is_connected_before_its_first_use() {
    let mut pool = pool();
    assert_eq!(pool.begin("wss://a", false), Ok(true));
    pool.connected("wss://a");
    assert_eq!(pool.begin("wss://a", false), Ok(false));
    assert_eq!(pool.begin("wss://b", false), Ok(true));
}

#[test]
fn use_of_a_relay_can_be_refused() {
    let pool = pool();
    assert_eq!(
        pool.begin("wss://c", false),
        Err(RelayPoolError::UnknownRelay("wss://c".to_string()))
    );
    assert_eq!(pool.begin("wss://a", true), Err(RelayPoolError::Shutdown));
}

#[test]
fn a_failed_send_drops_the_connection() {
    let mut pool = pool();
    pool.connected("wss://a");
    assert_eq!(pool.sent("wss://a", true), Ok(()));
    assert_eq!(pool.begin("wss://a", false), Ok(false));
    assert_eq!(pool.sent("wss://a", false), Err(RelayPoolError::WebSocket(SocketFault::Failed)));
    assert_eq!(pool.begin("wss://a", false), Ok(true));
}

const NOTICE: &str = r#"["NOTICE","slow down"]"#;

#[test]
fn reads_end_in_different_ways() {
    let mut pool = pool();
    pool.connected("wss://a");
    let mut read = |outcome, shutdown| {
        pool.received("wss://a", outcome, shutdown)
            .map(|answer| (answer.text, answer.status))
    };
    let notice = (NOTICE.to_string(), None);
    assert_eq!(read(SocketOutcome::Text(NOTICE.to_string()), true), Ok(notice.clone()));
    assert_eq!(read(SocketOutcome::Binary(NOTICE.as_bytes().to_vec()), false), Ok(notice));
    assert_eq!(
        read(SocketOutcome::Text("{}".to_string()), false),
        Err(RelayPoolError::NostrParsing)
    );
    assert_eq!(
        read(SocketOutcome::Text(String::new()), false),
        Err(RelayPoolError::NostrParsing)
    );
    assert_eq!(
        read(SocketOutcome::Binary(b"hello".to_vec()), false),
        Err(RelayPoolError::NostrParsing)
    );
    assert_eq!(
        read(SocketOutcome::Binary(vec![0xff, 0xfe]), true),
        Err(RelayPoolError::Utf8)
    );
    assert_eq!(
        read(SocketOutcome::ControlFrame, false),
        Err(RelayPoolError::WebSocket(SocketFault::Reset))
    );
    assert_eq!(
        read(SocketOutcome::TimedOut, false),
        Err(RelayPoolError::WebSocket(SocketFault::TimedOut))
    );
    assert_eq!(
        read(SocketOutcome::TimedOut, true),
        Err(RelayPoolError::Shutdown)
    );
    assert_eq!(
        read(SocketOutcome::ControlFrame, true),
        Err(RelayPoolError::Shutdown)
    );
    assert_eq!(
        read(SocketOutcome::Failed, false),
        Err(RelayPoolError::WebSocket(SocketFault::Failed))
    );
    assert_eq!(pool.begin("wss://a", false), Ok(true));
}

#[test]
fn a_message_that_cannot_be_read_leaves_the_connection() {
    let mut pool = pool();
    pool.connected("wss://a");
    assert!(pool
        .received("wss://a", SocketOutcome::Binary(vec![0xc0]), false)
        .is_err());
    assert!(pool
        .received("wss://a", SocketOutcome::Text("no".to_string()), false)
        .is_err());
    assert_eq!(pool.begin("wss://a", false), Ok(false));
}

#[test]
fn a_response_is_text() {
    let mut pool = pool();
    pool.connected("wss://a");
    let taken = format!(r#"["OK","{}",true,""]"#, "ab".repeat(32));
    let answer = pool.answered("wss://a", SocketOutcome::Text(taken.clone())).unwrap();
    assert_eq!(answer.text, taken);
    assert_eq!(answer.status, Some(true));
    assert!(matches!(
        answer.message,
        nostr::message::RelayMessage::Ok { status: true, .. }
    ));
    let refused = format!(r#"["OK","{}",false,"spam"]"#, "ab".repeat(32));
    let answer = pool.answered("wss://a", SocketOutcome::Text(refused)).unwrap();
    assert_eq!(answer.status, Some(false));
    let mut error = |outcome| pool.answered("wss://a", outcome).map(|_| ()).unwrap_err();
    let reset = RelayPoolError::WebSocket(SocketFault::Reset);
    assert_eq!(error(SocketOutcome::Binary(taken.into_bytes())), reset);
    assert_eq!(error(SocketOutcome::ControlFrame), reset);
    assert_eq!(
        error(SocketOutcome::TimedOut),
        RelayPoolError::WebSocket(SocketFault::TimedOut)
    );
    assert_eq!(
        error(SocketOutcome::Text("[]".to_string())),
        RelayPoolError::NostrParsing
    );
    assert_eq!(pool.begin("wss://a", false), Ok(false));
    let failed = RelayPoolError::WebSocket(SocketFault::Failed);
    assert_eq!(
        pool.answered("wss://a", SocketOutcome::Failed).map(|_| ()).unwrap_err(),
        failed
    );
    assert_eq!(pool.begin("wss://a", false), Ok(true));
}

#[test]
fn relays_do_not_affect_each_other() {
    let mut pool = pool();
    pool.connected("wss://a");
    pool.connected("wss://b");
    pool.disconnect("wss://a");
    assert_eq!(pool.begin("wss://a", false), Ok(true));
    assert_eq!(pool.begin("wss://b", false), Ok(false));
    pool.disconnect_all();
    assert_eq!(pool.begin("wss://b", false), Ok(true));
}

#[test]
fn a_dropped_relay_stays_in_the_pool() {
    let mut pool = pool();
    let urls = pool.relay_urls();
    pool.connected("wss://a");
    assert!(pool.sent("wss://a", false).is_err());
    assert!(pool
        .received("wss://b", SocketOutcome::Failed, false)
        .is_err());
    pool.disconnect("wss://b");
    assert_eq!(pool.relay_urls(), urls);
    assert_eq!(pool.begin("wss://a", false), Ok(true));
    assert_eq!(pool.begin("wss://b", false), Ok(true));
}
