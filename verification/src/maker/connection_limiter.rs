//! A limit on connections, in all and per address.
//!
//! The limiter enforces a cap on concurrent connections, and for peers other
//! than this machine a cap on concurrent connections and on connections per
//! time window. Peers that come in through a local proxy all appear as this
//! machine, so for them the global cap alone applies.

use crate::chain::bytes_equal;
use crate::maker::handlers::NANOS_PER_SEC;
use vstd::prelude::*;

verus! {

/// An address of a peer.
#[derive(Debug, Clone, Copy, PartialEq, Eq)]
pub enum IpAddr {
    /// Version four.
    V4([u8; 4]),
    /// Version six.
    V6([u8; 16]),
}

/// The byte at a position of the version six address of this machine.
pub open spec fn loopback_byte(i: int) -> u8 {
    if i == 15 {
        1
    } else {
        0
    }
}

/// Whether sixteen bytes are the version six address of this machine.
pub open spec fn is_loopback_v6(octets: [u8; 16]) -> bool {
    forall|i: int| 0 <= i < 16 ==> #[trigger] octets@[i] == loopback_byte(i)
}

/// Whether sixteen bytes are the version six address of this machine.
fn loopback_v6(octets: &[u8; 16]) -> (r: bool)
    ensures
        r == is_loopback_v6(*octets),
{
    let mut i: usize = 0;
    while i < 16
        invariant
            i <= 16,
            forall|j: int| 0 <= j < i ==> #[trigger] octets@[j] == loopback_byte(j),
        decreases 16 - i,
    {
        let expected: u8 = if i == 15 {
            1
        } else {
            0
        };
        if octets[i] != expected {
            assert(octets@[i as int] != loopback_byte(i as int));
            return false;
        }
        i += 1;
    }
    true
}

impl IpAddr {
    /// Whether the address is one of this machine: 127.x.x.x or ::1.
    pub open spec fn loopback(&self) -> bool {
        match self {
            IpAddr::V4(octets) => octets@[0] == 127,
            IpAddr::V6(octets) => is_loopback_v6(*octets),
        }
    }

    /// Whether the address is one of this machine.
    pub fn is_loopback(&self) -> (r: bool)
        ensures
            r == self.loopback(),
    {
        match self {
            IpAddr::V4(octets) => octets[0] == 127,
            IpAddr::V6(octets) => loopback_v6(octets),
        }
    }

    /// Whether two addresses are the same.
    pub fn same(&self, other: &IpAddr) -> (r: bool)
        ensures
            r == (*self == *other),
    {
        match (self, other) {
            (IpAddr::V4(a), IpAddr::V4(b)) => {
                let r = bytes_equal(a.as_slice(), b.as_slice());
                assert(a@ =~= b@ ==> *a =~= *b);
                r
            },
            (IpAddr::V6(a), IpAddr::V6(b)) => {
                let r = bytes_equal(a.as_slice(), b.as_slice());
                assert(a@ =~= b@ ==> *a =~= *b);
                r
            },
            _ => false,
        }
    }
}

/// The connections of a peer.
#[derive(Debug, Clone, Copy, PartialEq, Eq)]
pub struct Peer {
    /// The peer's address.
    pub ip: IpAddr,
    /// Its connections at the moment.
    pub active: usize,
    /// Its connections in the current window.
    pub recent: u32,
    /// When the window began, in nanoseconds.
    pub since: u64,
}

/// Whether no address stands twice in a list.
pub open spec fn distinct(peers: Seq<Peer>) -> bool {
    forall|i: int, j: int|
        0 <= i < j < peers.len() ==> (#[trigger] peers[i]).ip != (#[trigger] peers[j]).ip
}

/// Whether an address stands in a list.
pub open spec fn knows(peers: Seq<Peer>, ip: IpAddr) -> bool {
    exists|i: int| 0 <= i < peers.len() && (#[trigger] peers[i]).ip == ip
}

/// The place of an address in a list.
pub open spec fn place(peers: Seq<Peer>, ip: IpAddr) -> int {
    choose|i: int| 0 <= i < peers.len() && (#[trigger] peers[i]).ip == ip
}

/// What is known of an address, where anything is.
pub open spec fn peer_at(peers: Seq<Peer>, ip: IpAddr) -> Option<Peer> {
    if knows(peers, ip) {
        Some(peers[place(peers, ip)])
    } else {
        None
    }
}

/// An address has one place.
proof fn lemma_place(peers: Seq<Peer>, i: int)
    requires
        distinct(peers),
        0 <= i < peers.len(),
    ensures
        knows(peers, peers[i].ip),
        place(peers, peers[i].ip) == i,
{
    assert(knows(peers, peers[i].ip));
    let p = place(peers, peers[i].ip);
    assert(0 <= p < peers.len() && peers[p].ip == peers[i].ip);
    if p < i {
        assert(peers[p].ip != peers[i].ip);
    } else if i < p {
        assert(peers[i].ip != peers[p].ip);
    }
}

/// The limits on connections, and the connections.
#[derive(Debug)]
pub struct ConnectionLimiter {
    max_connections: usize,
    max_per_ip: usize,
    rate_limit_per_ip: u32,
    rate_window: u64,
    active_count: usize,
    peers: Vec<Peer>,
}

/// A peer once its window is over: the count starts anew.
pub open spec fn in_window(known: Option<Peer>, ip: IpAddr, window: u64, now: u64) -> Peer {
    match known {
        None => Peer { ip, active: 0, recent: 0, since: now },
        Some(peer) => if now >= peer.since && now - peer.since >= window {
            Peer { recent: 0, since: now, ..peer }
        } else {
            peer
        },
    }
}

/// Whether a connection is accepted.
pub open spec fn accepts(limiter: ConnectionLimiter, ip: IpAddr, now: u64) -> bool {
    &&& limiter.active() < limiter.max_connections()
    &&& ip.loopback() || {
        let known = peer_at(limiter.peers(), ip);
        let peer = in_window(known, ip, limiter.rate_window(), now);
        peer.active < limiter.max_per_ip() && peer.recent < limiter.rate_limit_per_ip()
    }
}

impl ConnectionLimiter {
    /// The cap on connections.
    pub closed spec fn max_connections(&self) -> usize {
        self.max_connections
    }

    /// The cap on connections of an address.
    pub closed spec fn max_per_ip(&self) -> usize {
        self.max_per_ip
    }

    /// The cap on connections of an address in a window.
    pub closed spec fn rate_limit_per_ip(&self) -> u32 {
        self.rate_limit_per_ip
    }

    /// The length of a window in nanoseconds.
    pub closed spec fn rate_window(&self) -> u64 {
        self.rate_window
    }

    /// The connections at the moment.
    pub closed spec fn active(&self) -> usize {
        self.active_count
    }

    /// The remote peers.
    pub closed spec fn peers(&self) -> Seq<Peer> {
        self.peers@
    }

    /// Whether the connections keep to the limits and each address is counted
    /// once.
    pub open spec fn wf(&self) -> bool {
        &&& self.active() <= self.max_connections()
        &&& distinct(self.peers())
        &&& forall|i: int|
            0 <= i < self.peers().len() ==> (#[trigger] self.peers()[i]).active
                <= self.max_per_ip() && self.peers()[i].recent <= self.rate_limit_per_ip()
    }

    /// Whether two limiters have the same limits.
    pub open spec fn same_limits(&self, other: ConnectionLimiter) -> bool {
        &&& self.max_connections() == other.max_connections()
        &&& self.max_per_ip() == other.max_per_ip()
        &&& self.rate_limit_per_ip() == other.rate_limit_per_ip()
        &&& self.rate_window() == other.rate_window()
    }

    /// Create a new limiter.
    pub fn new(
        max_connections: usize,
        max_per_ip: usize,
        rate_limit_per_ip: u32,
        rate_window_secs: u64,
    ) -> (r: Self)
        requires
            rate_window_secs * NANOS_PER_SEC <= u64::MAX,
        ensures
            r.wf(),
            r.active() == 0,
            r.peers().len() == 0,
            r.max_connections() == max_connections,
            r.max_per_ip() == max_per_ip,
            r.rate_limit_per_ip() == rate_limit_per_ip,
            r.rate_window() == rate_window_secs * NANOS_PER_SEC,
    {
        ConnectionLimiter {
            max_connections,
            max_per_ip,
            rate_limit_per_ip,
            rate_window: rate_window_secs * NANOS_PER_SEC,
            active_count: 0,
            peers: Vec::new(),
        }
    }

    /// The place of an address among the peers.
    fn find(&self, ip: &IpAddr) -> (r: Option<usize>)
        requires
            self.wf(),
        ensures
            match r {
                Some(i) => i < self.peers().len() && knows(self.peers(), *ip) && place(
                    self.peers(),
                    *ip,
                ) == i && self.peers()[i as int].ip == *ip,
                None => !knows(self.peers(), *ip),
            },
    {
        let mut i: usize = 0;
        while i < self.peers.len()
            invariant
                self.wf(),
                i <= self.peers().len(),
                forall|j: int| 0 <= j < i ==> (#[trigger] self.peers()[j]).ip != *ip,
            decreases self.peers().len() - i,
        {
            if self.peers[i].ip.same(ip) {
                proof {
                    lemma_place(self.peers(), i as int);
                }
                return Some(i);
            }
            i += 1;
        }
        None
    }

    /// Attempt to register a new connection from `ip` at the moment `now`, in
    /// nanoseconds. Returns whether it is accepted; a connection is not where
    /// it would exceed one of the limits. A refused connection counts nowhere,
    /// but may begin a new window.
    pub fn try_accept(&mut self, ip: IpAddr, now: u64) -> (r: bool)
        requires
            old(self).wf(),
        ensures
            final(self).wf(),
            final(self).same_limits(*old(self)),
            r == accepts(*old(self), ip, now),
            final(self).active() == old(self).active() + if r {
                1int
            } else {
                0
            },
            r && !ip.loopback() ==> peer_at(final(self).peers(), ip) == Some(
                ({
                    let peer = in_window(
                        peer_at(old(self).peers(), ip),
                        ip,
                        old(self).rate_window(),
                        now,
                    );
                    Peer {
                        active: (peer.active + 1) as usize,
                        recent: (peer.recent + 1) as u32,
                        ..peer
                    }
                }),
            ),
            !r && !ip.loopback() ==> peer_at(final(self).peers(), ip) == if old(self).active()
                >= old(self).max_connections() || active_of(old(self).peers(), ip) >= old(
                self,
            ).max_per_ip() {
                peer_at(old(self).peers(), ip)
            } else {
                Some(in_window(peer_at(old(self).peers(), ip), ip, old(self).rate_window(), now))
            },
            ip.loopback() ==> final(self).peers() == old(self).peers(),
            forall|other: IpAddr|
                other != ip ==> #[trigger] peer_at(final(self).peers(), other) == peer_at(
                    old(self).peers(),
                    other,
                ),
    {
        if self.active_count >= self.max_connections {
            return false;
        }
        if !ip.is_loopback() {
            let found = self.find(&ip);
            let ghost before = self.peers();
            let mut peer = match found {
                Some(i) => self.peers[i],
                None => Peer { ip, active: 0, recent: 0, since: now },
            };
            if peer.active >= self.max_per_ip {
                return false;
            }
            if now >= peer.since && now - peer.since >= self.rate_window {
                peer.recent = 0;
                peer.since = now;
            }
            let allowed = peer.recent < self.rate_limit_per_ip;
            if allowed {
                peer.active = peer.active + 1;
                peer.recent = peer.recent + 1;
            }
            match found {
                Some(i) => {
                    self.peers.set(i, peer);
                    proof {
                        lemma_changed(before, i as int, peer);
                    }
                },
                None => {
                    self.peers.push(peer);
                    proof {
                        lemma_added(before, peer);
                    }
                },
            }
            if !allowed {
                return false;
            }
        }
        self.active_count = self.active_count + 1;
        true
    }

    /// Release a connection that was accepted.
    pub fn release(&mut self, ip: IpAddr)
        requires
            old(self).wf(),
            old(self).active() > 0,
        ensures
            final(self).wf(),
            released(*old(self), *final(self), ip),
    {
        self.active_count = self.active_count - 1;
        if !ip.is_loopback() {
            let ghost before = self.peers();
            if let Some(i) = self.find(&ip) {
                let mut peer = self.peers[i];
                if peer.active > 0 {
                    peer.active = peer.active - 1;
                }
                self.peers.set(i, peer);
                proof {
                    lemma_changed(before, i as int, peer);
                }
            }
        }
    }
}

/// The connections of an address at the moment.
pub open spec fn active_of(peers: Seq<Peer>, ip: IpAddr) -> int {
    match peer_at(peers, ip) {
        None => 0,
        Some(peer) => peer.active as int,
    }
}

/// Whether `after` is `before` without one connection of `ip`. What is known of
/// the window of `ip` stays, and so does all that is known of the others.
pub open spec fn released(
    before: ConnectionLimiter,
    after: ConnectionLimiter,
    ip: IpAddr,
) -> bool {
    &&& after.same_limits(before)
    &&& after.active() == before.active() - 1
    &&& ip.loopback() ==> after.peers() == before.peers()
    &&& !ip.loopback() ==> peer_at(after.peers(), ip) == match peer_at(before.peers(), ip) {
        None => None,
        Some(peer) => Some(
            Peer {
                active: if peer.active > 0 {
                    (peer.active - 1) as usize
                } else {
                    0
                },
                ..peer
            },
        ),
    }
    &&& forall|other: IpAddr|
        other != ip ==> #[trigger] peer_at(after.peers(), other) == peer_at(before.peers(), other)
}

/// Changing what is known of one address leaves the others alone.
proof fn lemma_changed(peers: Seq<Peer>, i: int, peer: Peer)
    requires
        distinct(peers),
        0 <= i < peers.len(),
        peer.ip == peers[i].ip,
    ensures
        distinct(peers.update(i, peer)),
        peer_at(peers.update(i, peer), peer.ip) == Some(peer),
        forall|other: IpAddr|
            other != peer.ip ==> #[trigger] peer_at(peers.update(i, peer), other) == peer_at(
                peers,
                other,
            ),
{
    let changed = peers.update(i, peer);
    assert forall|a: int, b: int| 0 <= a < b < changed.len() implies (#[trigger] changed[a]).ip != (
    #[trigger] changed[b]).ip by {
        assert(peers[a].ip != peers[b].ip);
    }
    lemma_place(changed, i);
    assert forall|other: IpAddr| other != peer.ip implies #[trigger] peer_at(changed, other)
        == peer_at(peers, other) by {
        if knows(peers, other) {
            let p = place(peers, other);
            assert(peers[p].ip == other);
            assert(changed[p] == peers[p]);
            lemma_place(changed, p);
        } else if knows(changed, other) {
            let p = place(changed, other);
            assert(changed[p].ip == other);
            assert(peers[p].ip == other);
        }
    }
}

/// Adding an address leaves the others alone.
proof fn lemma_added(peers: Seq<Peer>, peer: Peer)
    requires
        distinct(peers),
        !knows(peers, peer.ip),
    ensures
        distinct(peers.push(peer)),
        peer_at(peers.push(peer), peer.ip) == Some(peer),
        forall|other: IpAddr|
            other != peer.ip ==> #[trigger] peer_at(peers.push(peer), other) == peer_at(
                peers,
                other,
            ),
{
    let grown = peers.push(peer);
    assert forall|a: int, b: int| 0 <= a < b < grown.len() implies (#[trigger] grown[a]).ip != (
    #[trigger] grown[b]).ip by {
        if b < peers.len() {
            assert(peers[a].ip != peers[b].ip);
        } else {
            assert(peers[a].ip != peer.ip);
        }
    }
    lemma_place(grown, peers.len() as int);
    assert forall|other: IpAddr| other != peer.ip implies #[trigger] peer_at(grown, other)
        == peer_at(peers, other) by {
        if knows(peers, other) {
            let p = place(peers, other);
            assert(peers[p].ip == other);
            assert(grown[p] == peers[p]);
            lemma_place(grown, p);
        } else if knows(grown, other) {
            let p = place(grown, other);
            assert(grown[p].ip == other);
            assert(peers[p].ip == other);
        }
    }
}

/// A connection that the limiter accepted, to be given back to it.
#[derive(Debug)]
pub struct ConnectionGuard {
    ip: IpAddr,
}

impl ConnectionGuard {
    /// The address of the connection.
    pub closed spec fn ip(&self) -> IpAddr {
        self.ip
    }

    /// Construct a guard for a connection that the limiter has accepted.
    pub fn new(ip: IpAddr) -> (r: Self)
        ensures
            r.ip() == ip,
    {
        ConnectionGuard { ip }
    }

    /// Gives the connection back.
    pub fn give_back(self, limiter: &mut ConnectionLimiter)
        requires
            old(limiter).wf(),
            old(limiter).active() > 0,
        ensures
            final(limiter).wf(),
            released(*old(limiter), *final(limiter), self.ip()),
    {
        limiter.release(self.ip);
    }
}

/// Neither the connections in all nor those of one address exceed their caps.
pub proof fn law_caps_hold(limiter: ConnectionLimiter, ip: IpAddr)
    requires
        limiter.wf(),
    ensures
        limiter.active() <= limiter.max_connections(),
        active_of(limiter.peers(), ip) <= limiter.max_per_ip(),
{
    if knows(limiter.peers(), ip) {
        let p = place(limiter.peers(), ip);
        assert(limiter.peers()[p].ip == ip);
    }
}

/// A connection given back frees its place in the cap on connections: whether a
/// connection from any other address is accepted is then up to the limits of
/// that address alone.
pub proof fn law_freed_place_is_open(
    before: ConnectionLimiter,
    after: ConnectionLimiter,
    gone: IpAddr,
    ip: IpAddr,
    now: u64,
)
    requires
        before.wf(),
        released(before, after, gone),
        ip != gone,
    ensures
        accepts(after, ip, now) <==> ip.loopback() || {
            let peer = in_window(peer_at(before.peers(), ip), ip, before.rate_window(), now);
            peer.active < before.max_per_ip() && peer.recent < before.rate_limit_per_ip()
        },
{
}

/// An address whose connection is given back is accepted again at any moment at
/// which its window has room.
pub proof fn law_released_address_is_accepted(
    before: ConnectionLimiter,
    after: ConnectionLimiter,
    ip: IpAddr,
    now: u64,
)
    requires
        before.wf(),
        released(before, after, ip),
        active_of(before.peers(), ip) > 0 || ip.loopback(),
    ensures
        accepts(after, ip, now) <==> ip.loopback() || in_window(
            peer_at(before.peers(), ip),
            ip,
            before.rate_window(),
            now,
        ).recent < before.rate_limit_per_ip(),
{
    law_caps_hold(before, ip);
}

/// The addresses of this machine are 127.x.x.x and the version six address
/// whose bytes are zero but for a last one.
pub proof fn law_loopback_addresses(four: [u8; 4], six: [u8; 16])
    ensures
        IpAddr::V4(four).loopback() <==> four[0] == 127,
        IpAddr::V6(six).loopback() ==> six[15] == 1 && six[0] == 0,
        IpAddr::V6(six).loopback() <==> six@ == Seq::new(15, |i: int| 0u8).push(1u8),
{
    let bytes = Seq::new(15, |i: int| 0u8).push(1u8);
    assert(forall|i: int| 0 <= i < 16 ==> #[trigger] bytes[i] == loopback_byte(i));
    if is_loopback_v6(six) {
        assert(six@ =~= bytes);
        assert(six@[15] == loopback_byte(15));
        assert(six@[0] == loopback_byte(0));
    }
}

/// A window lasts its length: within it an address keeps its count, at its end
/// and after the count begins at zero, and the open connections are never
/// forgotten.
pub proof fn law_window_begins_anew(peer: Peer, ip: IpAddr, window: u64, now: u64)
    ensures
        now < peer.since + window ==> in_window(Some(peer), ip, window, now) == peer,
        now >= peer.since + window ==> in_window(Some(peer), ip, window, now).recent == 0
            && in_window(Some(peer), ip, window, now).since == now,
        in_window(Some(peer), ip, window, now).active == peer.active,
        in_window(Some(peer), ip, window, now).ip == peer.ip,
        in_window(None, ip, window, now).ip == ip,
        in_window(None, ip, window, now).active == 0,
        in_window(None, ip, window, now).recent == 0,
        in_window(None, ip, window, now).since == now,
{
}

/// A connection is accepted exactly where the cap on all connections is not
/// reached and, for an address of another machine, neither the cap on its open
/// connections nor that on its connections of the window is; an address that was
/// never seen is held to the caps only.
pub proof fn law_accepted_within_the_limits(limiter: ConnectionLimiter, ip: IpAddr, now: u64)
    ensures
        limiter.active() >= limiter.max_connections() ==> !accepts(limiter, ip, now),
        ip.loopback() ==> (accepts(limiter, ip, now) <==> limiter.active()
            < limiter.max_connections()),
        !ip.loopback() && !knows(limiter.peers(), ip) ==> (accepts(limiter, ip, now)
            <==> limiter.active() < limiter.max_connections() && limiter.max_per_ip() > 0
            && limiter.rate_limit_per_ip() > 0),
        !ip.loopback() ==> (peer_at(limiter.peers(), ip) matches Some(peer) ==> {
            &&& now < peer.since + limiter.rate_window() ==> (accepts(limiter, ip, now)
                <==> limiter.active() < limiter.max_connections() && peer.active
                < limiter.max_per_ip() && peer.recent < limiter.rate_limit_per_ip())
            &&& now >= peer.since + limiter.rate_window() ==> (accepts(limiter, ip, now)
                <==> limiter.active() < limiter.max_connections() && peer.active
                < limiter.max_per_ip() && limiter.rate_limit_per_ip() > 0)
        }),
{
}

/// What is known of an address is what stands under it, and nothing of another.
pub proof fn law_peers_are_found_by_address(peers: Seq<Peer>, i: int)
    requires
        distinct(peers),
        0 <= i < peers.len(),
    ensures
        peer_at(peers, peers[i].ip) == Some(peers[i]),
        active_of(peers, peers[i].ip) == peers[i].active,
{
    let ip = peers[i].ip;
    assert(knows(peers, ip));
    let p = place(peers, ip);
    assert(peers[p].ip == peers[i].ip);
    if p < i {
        assert(peers[p].ip != peers[i].ip);
    } else if i < p {
        assert(peers[i].ip != peers[p].ip);
    }
}

/// Giving a connection back frees one place of its address and keeps what
/// counts for the rate.
pub proof fn law_release_frees_one_place(
    before: ConnectionLimiter,
    after: ConnectionLimiter,
    ip: IpAddr,
    other: IpAddr,
)
    requires
        released(before, after, ip),
        !ip.loopback(),
    ensures
        after.active() + 1 == before.active(),
        active_of(before.peers(), ip) > 0 ==> active_of(after.peers(), ip) + 1 == active_of(
            before.peers(),
            ip,
        ),
        peer_at(before.peers(), ip) matches Some(peer) ==> (peer_at(after.peers(), ip) matches Some(
            kept,
        ) && kept.recent == peer.recent && kept.since == peer.since),
        other != ip ==> active_of(after.peers(), other) == active_of(before.peers(), other),
        after.max_connections() == before.max_connections(),
        after.max_per_ip() == before.max_per_ip(),
{
}

} // verus!
