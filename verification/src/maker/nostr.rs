//! Announcements of the fidelity bond on nostr.

use crate::chain::{str_equal, Network, OutPoint, Txid};
use crate::error::MakerError;
use crate::maker::rpc::cookie::{bytes_to_hex, hex_text};
use crate::primitives::{parse_relay_message, parse_uri, relay_message, uri_parts, UriModel, UriParts};
use crate::settings::{decimal, decimal_text};
use vstd::prelude::*;
use vstd::string::StringExecFns;

verus! {

/// Seconds for which an announcement is valid: a day.
pub const EXPIRATION_SECS: u64 = 86400;

/// How often an announcement is tried on one relay.
pub const MAX_RETRIES: usize = 3;

/// Seconds between two tries on one relay.
pub const RELAY_DELAY: u64 = 2;

/// The event kind of coinswap announcements.
pub const COINSWAP_KIND: u16 = 37778;

/// The event kind of announcements on a network.
pub open spec fn kind_of(network: Network) -> u16 {
    match network {
        Network::Bitcoin => 37778,
        Network::Signet => 37779,
        Network::Regtest => 37780,
        Network::Testnet => 37781,
        Network::Testnet4 => 37782,
    }
}

/// Returns the event kind for the given network.
pub fn swap_kind(network: Network) -> (r: u16)
    ensures
        r == kind_of(network),
{
    match network {
        Network::Bitcoin => 37778,
        Network::Signet => 37779,
        Network::Regtest => 37780,
        Network::Testnet => 37781,
        Network::Testnet4 => 37782,
    }
}

/// Announcements of different networks do not mix, and their kind is one that
/// relays replace by its identifier.
pub proof fn law_kinds_tell_networks_apart(a: Network, b: Network)
    ensures
        kind_of(a) == kind_of(b) ==> a == b,
        30000 <= kind_of(a) < 40000,
{
}

/// The text of a transaction id: its bytes from last to first, in hexadecimal
/// digits.
pub fn txid_text(txid: &Txid) -> (r: String)
    ensures
        r@ == hex_text(txid@.reverse()),
{
    let mut reversed: [u8; 32] = [0u8; 32];
    let mut i: usize = 0;
    while i < 32
        invariant
            i <= 32,
            forall|j: int| 0 <= j < i ==> reversed@[j] == txid@[31 - j],
        decreases 32 - i,
    {
        reversed[i] = txid[31 - i];
        i += 1;
    }
    assert(reversed@ =~= txid@.reverse());
    bytes_to_hex(&reversed)
}

/// The content of an announcement.
pub open spec fn content_of(outpoint: OutPoint) -> Seq<char> {
    hex_text(outpoint.txid@.reverse()) + seq![':'] + decimal(outpoint.vout as nat)
}

/// The content of an announcement: the bond's output.
pub fn announcement(outpoint: &OutPoint) -> (r: String)
    ensures
        r@ == content_of(*outpoint),
{
    proof {
        reveal_strlit(":");
        assert(":"@ =~= seq![':']);
    }
    let mut text = txid_text(&outpoint.txid);
    text.append(":");
    text.append(decimal_text(outpoint.vout as u64).as_str());
    text
}

/// The identifier of an announcement, which stays the same for a bond.
pub fn announcement_tag(outpoint: &OutPoint) -> (r: String)
    ensures
        r@ == "fidelity:"@ + content_of(*outpoint),
{
    let mut text = "fidelity:".to_owned();
    text.append(announcement(outpoint).as_str());
    text
}

/// The second at which an announcement made now expires.
pub fn expiration(now: u64) -> (r: u64)
    requires
        now <= u64::MAX - EXPIRATION_SECS,
    ensures
        r == now + EXPIRATION_SECS,
{
    now + EXPIRATION_SECS
}

/// An announcement of a bond, before it is signed.
#[derive(Debug)]
pub struct Announcement {
    /// The event kind.
    pub kind: u16,
    /// The content: the bond's output.
    pub content: String,
    /// The identifier, which stays the same for a bond.
    pub identifier: String,
    /// The second at which it expires.
    pub expires: u64,
}

/// Whether an announcement is that of a bond under a kind at a time, or why
/// there is none.
pub open spec fn announces(
    r: Result<Announcement, MakerError>,
    kind: u16,
    outpoint: OutPoint,
    now: u64,
) -> bool {
    match r {
        Ok(made) => {
            &&& now <= u64::MAX - EXPIRATION_SECS
            &&& made.kind == kind
            &&& made.content@ == content_of(outpoint)
            &&& made.identifier@ == "fidelity:"@ + content_of(outpoint)
            &&& made.expires == now + EXPIRATION_SECS
        },
        Err(e) => {
            &&& now > u64::MAX - EXPIRATION_SECS
            &&& e == MakerError::General("failed to create expiration time")
        },
    }
}

/// The announcement of a bond under a kind at a time.
fn announcement_of(kind: u16, outpoint: &OutPoint, now: u64) -> (r: Result<Announcement, MakerError>)
    ensures
        announces(r, kind, *outpoint, now),
{
    if now > u64::MAX - EXPIRATION_SECS {
        return Err(MakerError::General("failed to create expiration time"));
    }
    Ok(
        Announcement {
            kind,
            content: announcement(outpoint),
            identifier: announcement_tag(outpoint),
            expires: expiration(now),
        },
    )
}

/// The announcement of a bond on a network at a time.
pub fn bond_announcement(outpoint: &OutPoint, network: Network, now: u64) -> (r: Result<
    Announcement,
    MakerError,
>)
    ensures
        announces(r, kind_of(network), *outpoint, now),
{
    announcement_of(swap_kind(network), outpoint, now)
}

/// The coinswap announcement of a bond at a time, under one kind whatever the
/// network.
pub fn coinswap_announcement(outpoint: &OutPoint, now: u64) -> (r: Result<Announcement, MakerError>)
    ensures
        announces(r, COINSWAP_KIND, *outpoint, now),
{
    announcement_of(COINSWAP_KIND, outpoint, now)
}

/// Where a relay is reached, from the parts of its address: it must have a
/// scheme for web sockets and a host, and the scheme gives the port where none
/// is named.
pub open spec fn reached_at(parts: Option<UriModel>) -> Option<(Seq<char>, u16)> {
    match parts {
        Some(UriModel { scheme: Some(scheme), host: Some(host), port }) => if scheme == "ws"@
            || scheme == "wss"@ {
            Some(
                (
                    host,
                    match port {
                        Some(named) => named,
                        None => if scheme == "wss"@ {
                            443
                        } else {
                            80
                        },
                    },
                ),
            )
        } else {
            None
        },
        _ => None,
    }
}

/// The host and the port of a relay, from the parts of its address.
pub fn host_and_port(parts: Option<UriParts>) -> (r: Result<(String, u16), MakerError>)
    ensures
        match r {
            Ok((host, port)) => parts is Some && reached_at(Some(parts->0@)) == Some(
                (host@, port),
            ),
            Err(e) => (parts is None || reached_at(Some(parts->0@)) is None) && e
                == MakerError::General("invalid relay url"),
        },
{
    let parts = match parts {
        Some(parts) => parts,
        None => {
            return Err(MakerError::General("invalid relay url"));
        },
    };
    let ghost model = parts@;
    let (scheme, host) = match (parts.scheme, parts.host) {
        (Some(scheme), Some(host)) => (scheme, host),
        _ => {
            return Err(MakerError::General("invalid relay url"));
        },
    };
    let secure = str_equal(scheme.as_str(), "wss");
    if !secure && !str_equal(scheme.as_str(), "ws") {
        return Err(MakerError::General("invalid relay url"));
    }
    let port: u16 = match parts.port {
        Some(named) => named,
        None => if secure {
            443
        } else {
            80
        },
    };
    assert(reached_at(Some(model)) == Some((host@, port)));
    Ok((host, port))
}

/// The host and the port that a relay's address names.
pub fn relay_address(url: &str) -> (r: Result<(String, u16), MakerError>)
    ensures
        match r {
            Ok((host, port)) => reached_at(uri_parts(url@)) == Some((host@, port)),
            Err(e) => reached_at(uri_parts(url@)) is None && e == MakerError::General(
                "invalid relay url",
            ),
        },
{
    host_and_port(parse_uri(url))
}

/// What a relay answers to an announcement.
#[derive(Debug, Clone, Copy, PartialEq, Eq, Structural)]
pub enum RelayReply {
    /// The relay says whether it took the event.
    Status(bool),
    /// Anything else, an unreadable answer, or none.
    Other,
}

/// Whether a relay's answer confirms the announcement.
pub fn confirms(reply: RelayReply) -> (r: Result<(), MakerError>)
    ensures
        r == if reply == RelayReply::Status(true) {
            Ok::<(), MakerError>(())
        } else {
            Err(MakerError::General("nostr relay did not confirm event"))
        },
{
    match reply {
        RelayReply::Status(true) => Ok(()),
        _ => Err(MakerError::General("nostr relay did not confirm event")),
    }
}

/// Whether the text that a relay answers with confirms the announcement.
pub fn text_confirms(text: &str) -> (r: Result<(), MakerError>)
    ensures
        r == if relay_message(text@) == Some(Some(true)) {
            Ok::<(), MakerError>(())
        } else {
            Err(MakerError::General("nostr relay did not confirm event"))
        },
{
    match parse_relay_message(text) {
        Some((_, Some(status))) => confirms(RelayReply::Status(status)),
        _ => confirms(RelayReply::Other),
    }
}

/// What a broadcast does next.
#[derive(Debug, Clone, Copy, PartialEq, Eq, Structural)]
pub enum BroadcastAction {
    /// Publish on the relay at a position.
    Publish { relay: usize, attempt: usize },
    /// Pause before the next try.
    Pause,
    /// Nothing is left to do.
    Finish,
}

/// What came of an action.
#[derive(Debug, Clone, Copy, PartialEq, Eq, Structural)]
pub enum BroadcastEvent {
    /// Whether the relay confirmed.
    Published(bool),
    /// The pause is over.
    Paused,
    /// The maker is to stop.
    Stop,
}

/// A broadcast to relays under way.
#[derive(Debug, Clone, Copy, PartialEq, Eq, Structural)]
pub struct Broadcast {
    /// The number of relays.
    pub relays: usize,
    /// The relay that is being tried.
    pub relay: usize,
    /// How often it has been tried, the current try included.
    pub attempt: usize,
    /// Whether a relay has confirmed.
    pub accepted: bool,
    /// What is being done.
    pub doing: BroadcastAction,
}

/// The broadcast at the relay at a position.
pub open spec fn at_relay(broadcast: Broadcast, relay: usize, accepted: bool) -> Broadcast {
    Broadcast {
        relay,
        attempt: 1,
        accepted,
        doing: if relay < broadcast.relays {
            BroadcastAction::Publish { relay, attempt: 1 }
        } else {
            BroadcastAction::Finish
        },
        ..broadcast
    }
}

/// The broadcast after an event: each relay is tried until it confirms, but
/// no more than thrice.
pub open spec fn broadcast_after(broadcast: Broadcast, event: BroadcastEvent) -> Broadcast {
    match (broadcast.doing, event) {
        (_, BroadcastEvent::Stop) => Broadcast { doing: BroadcastAction::Finish, ..broadcast },
        (BroadcastAction::Publish { .. }, BroadcastEvent::Published(true)) => at_relay(
            broadcast,
            (broadcast.relay + 1) as usize,
            true,
        ),
        (BroadcastAction::Publish { .. }, BroadcastEvent::Published(false)) =>
        if broadcast.attempt < MAX_RETRIES {
            Broadcast { doing: BroadcastAction::Pause, ..broadcast }
        } else {
            at_relay(broadcast, (broadcast.relay + 1) as usize, broadcast.accepted)
        },
        (BroadcastAction::Pause, BroadcastEvent::Paused) => Broadcast {
            attempt: (broadcast.attempt + 1) as usize,
            doing: BroadcastAction::Publish {
                relay: broadcast.relay,
                attempt: (broadcast.attempt + 1) as usize,
            },
            ..broadcast
        },
        _ => broadcast,
    }
}

impl Broadcast {
    /// Whether the broadcast is at one of its relays, within the tries.
    pub open spec fn wf(&self) -> bool {
        &&& 1 <= self.attempt <= MAX_RETRIES
        &&& match self.doing {
            BroadcastAction::Publish { relay, attempt } => self.relay < self.relays && relay
                == self.relay && attempt == self.attempt,
            BroadcastAction::Pause => self.relay < self.relays && self.attempt < MAX_RETRIES,
            BroadcastAction::Finish => self.relay <= self.relays,
        }
    }

    /// Begins a broadcast to a number of relays.
    pub fn begin(relays: usize) -> (r: Self)
        ensures
            r.wf(),
            r.relays == relays,
            r.relay == 0,
            !r.accepted,
            relays > 0 ==> r.doing == (BroadcastAction::Publish { relay: 0, attempt: 1 }),
            relays == 0 ==> r.doing == BroadcastAction::Finish,
    {
        let doing = if relays > 0 {
            BroadcastAction::Publish { relay: 0, attempt: 1 }
        } else {
            BroadcastAction::Finish
        };
        Broadcast { relays, relay: 0, attempt: 1, accepted: false, doing }
    }

    /// Goes on to the next relay.
    fn next_relay(&mut self, accepted: bool)
        requires
            old(self).relay < old(self).relays,
        ensures
            *final(self) == at_relay(*old(self), (old(self).relay + 1) as usize, accepted),
    {
        self.relay = self.relay + 1;
        self.attempt = 1;
        self.accepted = accepted;
        self.doing = if self.relay < self.relays {
            BroadcastAction::Publish { relay: self.relay, attempt: 1 }
        } else {
            BroadcastAction::Finish
        };
    }

    /// Takes what came of the last action and returns the next. An event that
    /// the action does not bring changes nothing.
    pub fn step(&mut self, event: BroadcastEvent) -> (r: BroadcastAction)
        requires
            old(self).wf(),
        ensures
            final(self).wf(),
            *final(self) == broadcast_after(*old(self), event),
            r == final(self).doing,
    {
        match (self.doing, event) {
            (_, BroadcastEvent::Stop) => {
                self.doing = BroadcastAction::Finish;
            },
            (BroadcastAction::Publish { .. }, BroadcastEvent::Published(true)) => {
                self.next_relay(true);
            },
            (BroadcastAction::Publish { .. }, BroadcastEvent::Published(false)) => {
                if self.attempt < MAX_RETRIES {
                    self.doing = BroadcastAction::Pause;
                } else {
                    let accepted = self.accepted;
                    self.next_relay(accepted);
                }
            },
            (BroadcastAction::Pause, BroadcastEvent::Paused) => {
                self.attempt = self.attempt + 1;
                self.doing = BroadcastAction::Publish {
                    relay: self.relay,
                    attempt: self.attempt,
                };
            },
            _ => {},
        }
        self.doing
    }
}

/// The tries that are left at most.
pub open spec fn tries_left(broadcast: Broadcast) -> int {
    match broadcast.doing {
        BroadcastAction::Finish => 0,
        BroadcastAction::Pause => 2 * (MAX_RETRIES * (broadcast.relays - broadcast.relay)
            - broadcast.attempt),
        BroadcastAction::Publish { .. } => 2 * (MAX_RETRIES * (broadcast.relays - broadcast.relay)
            - broadcast.attempt) + 1,
    }
}

/// A broadcast comes to its end: each answer leaves fewer tries.
pub proof fn law_broadcast_ends(broadcast: Broadcast, event: BroadcastEvent)
    requires
        broadcast.wf(),
        match broadcast.doing {
            BroadcastAction::Publish { .. } => event is Published,
            BroadcastAction::Pause => event is Paused,
            BroadcastAction::Finish => false,
        },
    ensures
        0 <= tries_left(broadcast_after(broadcast, event)) < tries_left(broadcast),
{
}

/// A broadcast counts as accepted once a relay has confirmed, and only then.
pub proof fn law_acceptance_is_a_relays(broadcast: Broadcast, event: BroadcastEvent)
    requires
        broadcast.wf(),
    ensures
        broadcast_after(broadcast, event).accepted == (broadcast.accepted || (
        broadcast.doing is Publish && event == BroadcastEvent::Published(true))),
{
}

/// The kinds of the five networks.
pub proof fn law_kinds_of_the_networks()
    ensures
        kind_of(Network::Bitcoin) == 37778,
        kind_of(Network::Signet) == 37779,
        kind_of(Network::Regtest) == 37780,
        kind_of(Network::Testnet) == 37781,
        kind_of(Network::Testnet4) == 37782,
        COINSWAP_KIND == kind_of(Network::Bitcoin),
        MAX_RETRIES == 3,
        RELAY_DELAY == 2,
{
}

/// An announcement names the bond's output, its id in reverse and its number
/// behind a colon, keeps an identifier of its own, and expires after a day.
pub proof fn law_announcement_names_the_bond(
    made: Announcement,
    kind: u16,
    outpoint: OutPoint,
    now: u64,
)
    requires
        announces(Ok(made), kind, outpoint, now),
    ensures
        made.kind == kind,
        made.content@ == hex_text(outpoint.txid@.reverse()) + ":"@ + decimal(outpoint.vout as nat),
        made.identifier@ == "fidelity:"@ + made.content@,
        made.expires - now == 24 * 60 * 60,
{
    reveal_strlit(":");
    assert(":"@ =~= seq![':']);
}

/// An announcement fails only where its end is no time any more.
pub proof fn law_announcement_fails_at_the_end_of_time(
    e: MakerError,
    kind: u16,
    outpoint: OutPoint,
    now: u64,
)
    requires
        announces(Err(e), kind, outpoint, now),
    ensures
        now + 86_400 > u64::MAX,
{
}

/// A relay is reached exactly where its address has a host and a scheme for web
/// sockets: at the port that is named, or at that of the scheme.
pub proof fn law_relays_are_reached_by_scheme(
    scheme: Seq<char>,
    host: Seq<char>,
    port: u16,
    parts: UriModel,
)
    ensures
        reached_at(None) is None,
        reached_at(Some(parts)) is Some <==> parts.host is Some && (parts.scheme == Some("ws"@)
            || parts.scheme == Some("wss"@)),
        reached_at(Some(parts)) matches Some((found, _)) ==> parts.host == Some(found),
        parts.port == Some(port) ==> (reached_at(Some(parts)) matches Some((_, at)) ==> at == port),
        reached_at(
            Some(UriModel { scheme: Some("ws"@), host: Some(host), port: None }),
        ) == Some((host, 80u16)),
        reached_at(
            Some(UriModel { scheme: Some("wss"@), host: Some(host), port: None }),
        ) == Some((host, 443u16)),
{
    reveal_strlit("ws");
    reveal_strlit("wss");
    assert("ws"@.len() != "wss"@.len());
}

/// A relay that does not confirm is tried three times, with a pause before each
/// further try, and left for the next one; one that confirms is left at once.
pub proof fn law_each_relay_is_tried_thrice(broadcast: Broadcast)
    requires
        broadcast.wf(),
        broadcast.doing == (BroadcastAction::Publish { relay: broadcast.relay, attempt: 1 }),
        broadcast.relay + 1 < broadcast.relays,
    ensures
        ({
            let no = BroadcastEvent::Published(false);
            let first = broadcast_after(broadcast, no);
            let second = broadcast_after(first, BroadcastEvent::Paused);
            let third = broadcast_after(
                broadcast_after(second, no),
                BroadcastEvent::Paused,
            );
            let next = broadcast_after(third, no);
            let confirmed = broadcast_after(broadcast, BroadcastEvent::Published(true));
            &&& first.doing is Pause
            &&& second.doing == (BroadcastAction::Publish { relay: broadcast.relay, attempt: 2 })
            &&& third.doing == (BroadcastAction::Publish { relay: broadcast.relay, attempt: 3 })
            &&& next.doing == (BroadcastAction::Publish {
                relay: (broadcast.relay + 1) as usize,
                attempt: 1,
            })
            &&& next.accepted == broadcast.accepted
            &&& confirmed.doing == (BroadcastAction::Publish {
                relay: (broadcast.relay + 1) as usize,
                attempt: 1,
            })
            &&& confirmed.accepted
            &&& next.relays == broadcast.relays
        }),
{
}

/// A broadcast ends behind the last relay or on a stop request, and then no
/// more is done.
pub proof fn law_broadcast_stops(broadcast: Broadcast, event: BroadcastEvent)
    requires
        broadcast.wf(),
    ensures
        broadcast_after(broadcast, BroadcastEvent::Stop).doing is Finish,
        broadcast_after(broadcast, BroadcastEvent::Stop).accepted == broadcast.accepted,
        broadcast.doing is Publish && broadcast.relay + 1 == broadcast.relays ==> broadcast_after(
            broadcast,
            BroadcastEvent::Published(true),
        ).doing is Finish,
        broadcast.doing is Finish ==> broadcast_after(broadcast, event) == broadcast,
        broadcast.doing is Publish && event is Paused ==> broadcast_after(broadcast, event)
            == broadcast,
        broadcast.doing is Pause && event is Published ==> broadcast_after(broadcast, event)
            == broadcast,
{
}

} // verus!
