use openswap_maker::maker::connection_limiter::{ConnectionGuard, ConnectionLimiter, IpAddr};

const SECOND: u64 = 1_000_000_000;

fn remote_ip(last: u8) -> IpAddr {
    IpAddr::V4([10, 0, 0, last])
}

#[test]
fn enforces_global_limit() {
    let mut limiter = ConnectionLimiter::new(2, 10, 100, 60);
    assert!(limiter.try_accept(remote_ip(1), 0));
    assert!(limiter.try_accept(remote_ip(2), 0));
    assert!(!limiter.try_accept(remote_ip(3), 0));
}

#[test]
fn enforces_per_ip_limit_for_remote_peers() {
    let mut limiter = ConnectionLimiter::new(10, 1, 100, 60);
    let ip = remote_ip(4);
    assert!(limiter.try_accept(ip, 0));
    assert!(!limiter.try_accept(ip, 0));
}

#[test]
fn enforces_connection_rate_for_remote_peers() {
    let mut limiter = ConnectionLimiter::new(10, 10, 2, 60);
    let ip = remote_ip(5);
    assert!(limiter.try_accept(ip, 0));
    limiter.release(ip);
    assert!(limiter.try_accept(ip, 1));
    limiter.release(ip);
    assert!(!limiter.try_accept(ip, 2));
}

#[test]
fn guard_releases_connection_on_drop() {
    let mut limiter = ConnectionLimiter::new(1, 10, 10, 60);
    let ip = remote_ip(6);
    assert!(limiter.try_accept(ip, 0));
    {
        let guard = ConnectionGuard::new(ip);
        assert!(!limiter.try_accept(remote_ip(7), 0));
        guard.give_back(&mut limiter);
    }
    assert!(limiter.try_accept(remote_ip(7), 0));
}

#[test]
fn loopback_skips_per_ip_limits() {
    let mut limiter = ConnectionLimiter::new(3, 1, 1, 60);
    let loopback = IpAddr::V4([127, 0, 0, 1]);
    assert!(limiter.try_accept(loopback, 0));
    assert!(limiter.try_accept(loopback, 0));
    assert!(limiter.try_accept(loopback, 0));
}

#[test]
fn loopback_keeps_to_the_global_limit() {
    let mut limiter = ConnectionLimiter::new(1, 1, 1, 60);
    let loopback = IpAddr::V6([0, 0, 0, 0, 0, 0, 0, 0, 0, 0, 0, 0, 0, 0, 0, 1]);
    assert!(loopback.is_loopback());
    assert!(limiter.try_accept(loopback, 0));
    assert!(!limiter.try_accept(loopback, 0));
    limiter.release(loopback);
    assert!(limiter.try_accept(loopback, 0));
}

#[test]
fn other_addresses_are_not_loopback() {
    assert!(!remote_ip(1).is_loopback());
    assert!(IpAddr::V4([127, 9, 8, 7]).is_loopback());
    assert!(!IpAddr::V6([0u8; 16]).is_loopback());
    let mut mapped = [0u8; 16];
    mapped[15] = 1;
    mapped[0] = 1;
    assert!(!IpAddr::V6(mapped).is_loopback());
}

#[test]
fn a_new_window_starts_the_count_anew() {
    let mut limiter = ConnectionLimiter::new(10, 10, 1, 60);
    let ip = remote_ip(8);
    assert!(limiter.try_accept(ip, 0));
    assert!(!limiter.try_accept(ip, 60 * SECOND - 1));
    assert!(limiter.try_accept(ip, 60 * SECOND));
}

#[test]
fn peers_do_not_count_for_each_other() {
    let mut limiter = ConnectionLimiter::new(10, 1, 1, 60);
    assert!(limiter.try_accept(remote_ip(1), 0));
    assert!(limiter.try_accept(remote_ip(2), 0));
    assert!(!limiter.try_accept(remote_ip(1), 0));
    limiter.release(remote_ip(2));
    assert!(!limiter.try_accept(remote_ip(1), 1));
}

#[test]
fn a_freed_place_is_open_to_others_and_to_the_same_address() {
    let mut limiter = ConnectionLimiter::new(1, 1, 2, 60);
    let (first, second) = (remote_ip(1), remote_ip(2));
    assert!(limiter.try_accept(first, 0));
    assert!(!limiter.try_accept(second, 0));
    ConnectionGuard::new(first).give_back(&mut limiter);
    assert!(limiter.try_accept(second, 0));
    ConnectionGuard::new(second).give_back(&mut limiter);
    assert!(limiter.try_accept(first, 0));
    ConnectionGuard::new(first).give_back(&mut limiter);
    assert!(!limiter.try_accept(first, 0));
    assert!(limiter.try_accept(second, 0));
}

#[test]
fn a_refused_connection_can_begin_a_window() {
    let mut limiter = ConnectionLimiter::new(2, 2, 0, 1);
    assert!(!limiter.try_accept(remote_ip(1), 0));
    assert!(!limiter.try_accept(remote_ip(1), 2_000_000_000));
    let mut capped = ConnectionLimiter::new(2, 1, 1, 1);
    assert!(capped.try_accept(remote_ip(1), 0));
    assert!(!capped.try_accept(remote_ip(1), 2_000_000_000));
    ConnectionGuard::new(remote_ip(1)).give_back(&mut capped);
    assert!(!capped.try_accept(remote_ip(1), 999_999_999));
    assert!(capped.try_accept(remote_ip(1), 1_000_000_000));
}
