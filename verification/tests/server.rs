use openswap_maker::maker::handlers::ConnectionState;
use openswap_maker::maker::ongoing_swaps::IdleSwapData;
use openswap_maker::maker::server::{
    admit_heartbeat, after_read, dropped_swap_record, frame_deadline, frame_length, frame_message,
    keeps_reading, next_loop_step, next_port, next_read_timeout, startup_mode, swap_is_quiet,
    BondRenewal, ConnectionLimiter, HeartbeatAction, LoopStep, PeriodicTimer, ReadEnd, ReadNext,
    RenewalAction, RenewalEvent, StartupMode, CONNECTION_BURST, CONNECTION_READ_TIMEOUT,
    FIDELITY_BOND_UPDATE_INTERVAL, MAX_INBOUND_CONNECTIONS, MAX_PENDING_CONNECTIONS, MESSAGE_ASSEMBLY_TIMEOUT,
    MIN_KEEPALIVE_INTERVAL, TICK_SECS, TOKEN,
};
use openswap_maker::maker::swap_tracker::MakerSwapPhase;
use openswap_maker::protocol::common_messages::ProtocolVersion;

/// Long enough for all tokens to come back.
const REFILL: u64 = CONNECTION_BURST;

#[test]
fn pending_connections_are_bounded() {
    let mut limiter = ConnectionLimiter::new(0);
    let permits: Vec<_> = (0..MAX_PENDING_CONNECTIONS)
        .map(|_| limiter.try_acquire(0).expect("pending slot below limit"))
        .collect();

    assert!(limiter.try_acquire(REFILL).is_none());
    assert_eq!(limiter.counts().1, MAX_PENDING_CONNECTIONS);
    assert_eq!(limiter.tokens_left(), CONNECTION_BURST - TOKEN);
    for permit in permits {
        limiter.release(permit);
    }
    assert_eq!(limiter.counts(), (0, 0));
}

#[test]
fn established_connections_are_bounded() {
    let mut limiter = ConnectionLimiter::new(0);
    let mut permits = Vec::new();
    let mut now = 0;
    for _ in 0..MAX_INBOUND_CONNECTIONS {
        now += TOKEN;
        let mut permit = limiter.try_acquire(now).expect("active slot below limit");
        limiter.mark_established(&mut permit);
        permits.push(permit);
    }

    now += TOKEN;
    assert!(limiter.try_acquire(now).is_none());
    assert_eq!(limiter.counts(), (MAX_INBOUND_CONNECTIONS, 0));
    for permit in permits {
        limiter.release(permit);
    }
    assert_eq!(limiter.counts().0, 0);
}

#[test]
fn token_bucket_limits_connection_burst() {
    let mut limiter = ConnectionLimiter::new(0);
    let mut permits = Vec::new();
    for _ in 0..MAX_PENDING_CONNECTIONS {
        let mut permit = limiter.try_acquire(0).expect("token within burst");
        limiter.mark_established(&mut permit);
        permits.push(permit);
    }
    while limiter.tokens_left() >= TOKEN {
        let permit = limiter.try_acquire(0);
        if let Some(mut permit) = permit {
            limiter.mark_established(&mut permit);
            permits.push(permit);
        }
    }
    assert!(limiter.try_acquire(0).is_none());
}

#[test]
fn heartbeat_admission_rejects_throttles_and_promotes() {
    let mut limiter = ConnectionLimiter::new(0);
    let mut permit = limiter.try_acquire(0).unwrap();
    let mut last_keepalive = None;

    assert!(matches!(
        admit_heartbeat(false, &mut last_keepalive, &mut permit, &mut limiter, 5),
        HeartbeatAction::Reject
    ));
    assert!(permit.is_pending());

    assert!(matches!(
        admit_heartbeat(true, &mut last_keepalive, &mut permit, &mut limiter, 5),
        HeartbeatAction::Accept
    ));
    assert!(!permit.is_pending());
    assert!(matches!(
        admit_heartbeat(true, &mut last_keepalive, &mut permit, &mut limiter, 6),
        HeartbeatAction::Throttle
    ));
    assert!(matches!(
        admit_heartbeat(
            true,
            &mut last_keepalive,
            &mut permit,
            &mut limiter,
            5 + MIN_KEEPALIVE_INTERVAL
        ),
        HeartbeatAction::Accept
    ));
}

#[test]
fn tokens_come_back_at_the_rate() {
    let mut limiter = ConnectionLimiter::new(0);
    let permit = limiter.try_acquire(0).unwrap();
    limiter.release(permit);
    assert_eq!(limiter.tokens_left(), CONNECTION_BURST - TOKEN);
    let permit = limiter.try_acquire(TOKEN / 8).unwrap();
    limiter.release(permit);
    assert_eq!(limiter.tokens_left(), CONNECTION_BURST - TOKEN - TOKEN / 2);
}

#[test]
fn frames_are_read_back() {
    let body = vec![7u8; 300];
    let frame = frame_message(&body);
    assert_eq!(frame.len(), 304);
    let prefix = [frame[0], frame[1], frame[2], frame[3]];
    assert_eq!(prefix, [0, 0, 1, 44]);
    assert_eq!(frame_length(&prefix, 300).unwrap(), 300);
    assert!(frame_length(&prefix, 299).is_err());
    assert_eq!(&frame[4..], &body[..]);
}

#[test]
fn a_frame_has_its_own_deadline() {
    assert_eq!(frame_deadline(10, None), 10 + MESSAGE_ASSEMBLY_TIMEOUT);
    assert_eq!(frame_deadline(10, Some(11)), 11);
    assert_eq!(next_read_timeout(None, 5).unwrap(), CONNECTION_READ_TIMEOUT);
    assert_eq!(next_read_timeout(Some(5), 5).unwrap(), 1_000_000);
    assert_eq!(next_read_timeout(Some(9_000_000), 5).unwrap(), 8_999_995);
    assert!(next_read_timeout(Some(5), 6).is_err());
}

#[test]
fn a_timer_is_due_once_per_interval() {
    let mut timer = PeriodicTimer::at_once(4);
    assert!(timer.is_due());
    assert!(!timer.is_due());
    timer.tick();
    assert!(!timer.is_due());
    timer.tick();
    assert!(timer.is_due());
    let mut late = PeriodicTimer::after_interval(4);
    assert!(!late.is_due());
}

#[test]
fn a_maker_without_a_watchtower_only_recovers() {
    assert_eq!(startup_mode(true), StartupMode::Serve);
    assert_eq!(startup_mode(false), StartupMode::RecoverOnly);
}

#[test]
fn a_bond_is_renewed_between_swaps() {
    let ticks = FIDELITY_BOND_UPDATE_INTERVAL / TICK_SECS;
    let idle = RenewalEvent::Ticked {
        swaps_under_way: false,
    };
    let busy = RenewalEvent::Ticked {
        swaps_under_way: true,
    };
    let mut renewal = BondRenewal::new();
    for _ in 1..ticks {
        assert_eq!(renewal.step(idle), RenewalAction::Rest);
    }
    assert_eq!(renewal.step(busy), RenewalAction::Rest);
    for _ in 1..ticks {
        assert_eq!(renewal.step(idle), RenewalAction::Rest);
    }
    assert_eq!(renewal.step(idle), RenewalAction::Redeem);
    assert_eq!(
        renewal.step(RenewalEvent::Redeemed { done: false }),
        RenewalAction::Rest
    );
    assert_eq!(
        renewal.step(RenewalEvent::Redeemed { done: true }),
        RenewalAction::SetUp
    );
    assert_eq!(renewal.step(RenewalEvent::SetUp), RenewalAction::Rest);
    assert_eq!(renewal.timer.elapsed, 0);
}

#[test]
fn ports_follow_each_other_up_to_the_last() {
    assert_eq!(next_port(6102).unwrap(), 6104);
    assert_eq!(next_port(61997).unwrap(), 61999);
    assert!(next_port(61998).is_err());
    assert!(next_port(65535).is_err());
}

#[test]
fn a_connection_is_closed_in_time() {
    let state = ConnectionState::new(ProtocolVersion::Legacy, 0);
    let mut limiter = ConnectionLimiter::new(0);
    let mut permit = limiter.try_acquire(0).unwrap();
    assert_eq!(
        next_loop_step(&state, &permit, 100, false, 50),
        LoopStep::Read {
            deadline: Some(100)
        }
    );
    assert_eq!(next_loop_step(&state, &permit, 100, true, 50), LoopStep::Close);
    let idle = 901 * 1_000_000_000;
    assert_eq!(next_loop_step(&state, &permit, 100, false, idle), LoopStep::Close);
    limiter.mark_established(&mut permit);
    assert_eq!(
        next_loop_step(&state, &permit, 100, false, 100),
        LoopStep::Read { deadline: None }
    );
}

#[test]
fn a_quiet_swap_ends_the_reading() {
    let mut state = ConnectionState::new(ProtocolVersion::Legacy, 0);
    let later = 901 * 1_000_000_000;
    assert!(swap_is_quiet(&state, None, later));
    let active = ConnectionState::new(ProtocolVersion::Legacy, later);
    assert!(swap_is_quiet(&state, Some(&active), later));
    state.swap_id = Some("swap".to_string());
    assert!(swap_is_quiet(&state, None, later));
    assert!(!swap_is_quiet(&state, Some(&active), later));
    assert!(keeps_reading(true, false));
    assert!(!keeps_reading(true, true));
    assert!(!keeps_reading(false, false));
}

#[test]
fn reads_go_on_until_all_came() {
    assert_eq!(after_read(ReadEnd::Bytes(3), 5, true), ReadNext::Missing(2));
    assert_eq!(after_read(ReadEnd::Bytes(5), 5, true), ReadNext::Missing(0));
    assert_eq!(after_read(ReadEnd::Bytes(0), 5, true), ReadNext::Closed);
    assert_eq!(after_read(ReadEnd::Interrupted, 5, true), ReadNext::Missing(5));
    assert_eq!(after_read(ReadEnd::TimedOut, 5, true), ReadNext::Expired);
    assert_eq!(after_read(ReadEnd::TimedOut, 5, false), ReadNext::Error);
    assert_eq!(after_read(ReadEnd::Failed, 5, true), ReadNext::Error);
}

#[test]
fn an_idle_swap_gets_a_record() {
    let idle = IdleSwapData {
        swap_id: "swap".to_string(),
        protocol: ProtocolVersion::Taproot,
        swap_amount_sat: 50_000,
        incoming_swapcoins: vec![],
        outgoing_swapcoins: vec![],
        funding_broadcast: true,
    };
    let record = dropped_swap_record(&idle, 7);
    assert_eq!(record.swap_id, "swap");
    assert_eq!(record.phase, MakerSwapPhase::TakerDropped);
    assert_eq!((record.created_at, record.updated_at), (7, 7));
    assert!(record.funding_broadcast);
}
