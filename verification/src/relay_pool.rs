//! A pool of connections to nostr relays.
//!
//! A relay is connected to on first use. Where a read or a write fails, the
//! connection is dropped and made anew on the next use; a read that merely
//! times out leaves it alone.

use crate::chain::str_equal;
use crate::primitives::{parse_relay_message, relay_message, utf8_text};
use vstd::prelude::*;
use vstd::utf8::{decode_utf8, valid_utf8};

verus! {

/// Seconds after which a read is interrupted, so that a shutdown is noticed.
pub const SOCKET_READ_TIMEOUT: u64 = 5;

/// What is wrong with a connection.
#[derive(Debug, Clone, Copy, PartialEq, Eq, Structural)]
pub enum SocketFault {
    /// It failed.
    Failed,
    /// A read timed out; the connection is healthy.
    TimedOut,
    /// The relay sent something other than a message.
    Reset,
}

/// The failures of the pool.
#[derive(Debug, Clone, PartialEq, Eq)]
pub enum RelayPoolError {
    /// The connection could not be made, read from or written to.
    WebSocket(SocketFault),
    /// A message of the relay could not be parsed.
    NostrParsing,
    /// A binary message was no text.
    Utf8,
    /// The relay of this address is not one of the pool.
    UnknownRelay(String),
    /// The pool is being shut down.
    Shutdown,
}

/// What a failure of the pool holds.
pub enum RelayPoolFault {
    WebSocket(SocketFault),
    NostrParsing,
    Utf8,
    UnknownRelay(Seq<char>),
    Shutdown,
}

/// What a read came to.
#[derive(Debug)]
pub enum SocketOutcome {
    /// A frame of text.
    Text(String),
    /// A frame of bytes.
    Binary(Vec<u8>),
    /// A frame that brings no message: a ping, a pong or a close.
    ControlFrame,
    /// It timed out; the connection is healthy.
    TimedOut,
    /// It failed.
    Failed,
}

/// A message of a relay.
#[derive(Debug)]
pub struct RelayAnswer {
    /// The text that it was read from.
    pub text: String,
    /// Whether the relay took an event, where the message says so.
    pub status: Option<bool>,
    /// The message.
    pub message: ::nostr::message::RelayMessage<'static>,
}

/// A relay.
#[derive(Debug)]
pub struct RelayEntry {
    /// The relay's address.
    pub url: String,
    /// Whether there is a connection to it.
    pub connected: bool,
}

/// A pool of relays.
#[derive(Debug)]
pub struct RelayPool {
    /// The relays.
    pub relays: Vec<RelayEntry>,
}

/// Whether a relay is one of a pool.
pub open spec fn has_relay(relays: Seq<RelayEntry>, url: Seq<char>) -> bool {
    exists|i: int| 0 <= i < relays.len() && (#[trigger] relays[i]).url@ == url
}

/// Whether no relay stands twice.
pub open spec fn distinct_urls(relays: Seq<RelayEntry>) -> bool {
    forall|i: int, j: int|
        0 <= i < j < relays.len() ==> (#[trigger] relays[i]).url@ != (#[trigger] relays[j]).url@
}

/// Whether two lists name the same relays, in the same order.
pub open spec fn same_relays(first: Seq<RelayEntry>, second: Seq<RelayEntry>) -> bool {
    &&& first.len() == second.len()
    &&& forall|i: int| 0 <= i < first.len() ==> (#[trigger] first[i]).url@ == second[i].url@
}

/// Whether there is a connection to a relay.
pub open spec fn is_connected(relays: Seq<RelayEntry>, url: Seq<char>) -> bool {
    exists|i: int|
        0 <= i < relays.len() && (#[trigger] relays[i]).url@ == url && relays[i].connected
}

/// Whether two failures are the same.
pub open spec fn same_error(first: RelayPoolError, second: RelayPoolFault) -> bool {
    match (first, second) {
        (RelayPoolError::WebSocket(a), RelayPoolFault::WebSocket(b)) => a == b,
        (RelayPoolError::NostrParsing, RelayPoolFault::NostrParsing) => true,
        (RelayPoolError::Utf8, RelayPoolFault::Utf8) => true,
        (RelayPoolError::UnknownRelay(a), RelayPoolFault::UnknownRelay(b)) => a@ == b,
        (RelayPoolError::Shutdown, RelayPoolFault::Shutdown) => true,
        _ => false,
    }
}

/// What stops the use of a relay.
pub open spec fn use_verdict(relays: Seq<RelayEntry>, url: Seq<char>, shutdown: bool) -> Result<
    (),
    RelayPoolFault,
> {
    if shutdown {
        Err(RelayPoolFault::Shutdown)
    } else if !has_relay(relays, url) {
        Err(RelayPoolFault::UnknownRelay(url))
    } else {
        Ok(())
    }
}

/// What a text comes to: a message, or a failure to parse it.
pub open spec fn text_verdict(text: Seq<char>) -> Result<(Seq<char>, Option<bool>), RelayPoolFault> {
    match relay_message(text) {
        Some(status) => Ok((text, status)),
        None => Err(RelayPoolFault::NostrParsing),
    }
}

/// What a read comes to; `shutdown` is asked again where it brought nothing.
pub open spec fn read_verdict(outcome: SocketOutcome, shutdown: bool) -> Result<
    (Seq<char>, Option<bool>),
    RelayPoolFault,
> {
    match outcome {
        SocketOutcome::Text(text) => text_verdict(text@),
        SocketOutcome::Binary(bytes) => if valid_utf8(bytes@) {
            text_verdict(decode_utf8(bytes@))
        } else {
            Err(RelayPoolFault::Utf8)
        },
        SocketOutcome::ControlFrame => if shutdown {
            Err(RelayPoolFault::Shutdown)
        } else {
            Err(RelayPoolFault::WebSocket(SocketFault::Reset))
        },
        SocketOutcome::TimedOut => if shutdown {
            Err(RelayPoolFault::Shutdown)
        } else {
            Err(RelayPoolFault::WebSocket(SocketFault::TimedOut))
        },
        SocketOutcome::Failed => Err(RelayPoolFault::WebSocket(SocketFault::Failed)),
    }
}

/// What the response to a message that was just sent comes to: only text is
/// one, and a shutdown is not asked about.
pub open spec fn response_verdict(outcome: SocketOutcome) -> Result<
    (Seq<char>, Option<bool>),
    RelayPoolFault,
> {
    match outcome {
        SocketOutcome::Binary(_) => Err(RelayPoolFault::WebSocket(SocketFault::Reset)),
        _ => read_verdict(outcome, false),
    }
}

/// Whether a result is that of a verdict.
pub open spec fn gives(
    r: Result<RelayAnswer, RelayPoolError>,
    verdict: Result<(Seq<char>, Option<bool>), RelayPoolFault>,
) -> bool {
    match (r, verdict) {
        (Ok(answer), Ok((text, status))) => answer.text@ == text && answer.status == status,
        (Err(e), Err(expected)) => same_error(e, expected),
        _ => false,
    }
}

/// The relays once the connection to one of them has been made or dropped.
pub open spec fn with_connection(
    relays: Seq<RelayEntry>,
    url: Seq<char>,
    connected: bool,
) -> spec_fn(Seq<char>) -> bool {
    |other: Seq<char>|
        if other == url {
            connected && has_relay(relays, url)
        } else {
            is_connected(relays, other)
        }
}

/// Parses the text of a frame.
fn parsed(text: String) -> (r: Result<RelayAnswer, RelayPoolError>)
    ensures
        gives(r, text_verdict(text@)),
{
    match parse_relay_message(text.as_str()) {
        Some((message, status)) => Ok(RelayAnswer { text, status, message }),
        None => Err(RelayPoolError::NostrParsing),
    }
}

impl RelayPool {
    /// Creates a pool of the given relays, without connections. A relay that
    /// is given twice is taken once.
    pub fn new(relay_urls: &Vec<String>) -> (r: Self)
        ensures
            distinct_urls(r.relays@),
            forall|url: Seq<char>| #[trigger]
                has_relay(r.relays@, url) == (exists|i: int|
                    0 <= i < relay_urls@.len() && (#[trigger] relay_urls@[i])@ == url),
            forall|i: int| 0 <= i < r.relays@.len() ==> !(#[trigger] r.relays@[i]).connected,
    {
        let mut pool = RelayPool { relays: Vec::new() };
        let mut i: usize = 0;
        while i < relay_urls.len()
            invariant
                i <= relay_urls.len(),
                distinct_urls(pool.relays@),
                forall|url: Seq<char>| #[trigger]
                    has_relay(pool.relays@, url) == (exists|k: int|
                        0 <= k < i && (#[trigger] relay_urls@[k])@ == url),
                forall|k: int|
                    0 <= k < pool.relays@.len() ==> !(#[trigger] pool.relays@[k]).connected,
            decreases relay_urls.len() - i,
        {
            let ghost before = pool.relays@;
            match pool.find(relay_urls[i].as_str()) {
                Some(_) => {},
                None => {
                    pool.relays.push(RelayEntry { url: relay_urls[i].clone(), connected: false });
                    proof {
                        assert forall|url: Seq<char>| #[trigger]
                            has_relay(pool.relays@, url) == (has_relay(before, url) || url
                            == relay_urls@[i as int]@) by {
                            if has_relay(before, url) {
                                let k = choose|k: int|
                                    0 <= k < before.len() && (#[trigger] before[k]).url@ == url;
                                assert(pool.relays@[k].url@ == url);
                            }
                            assert(pool.relays@[before.len() as int].url@ == relay_urls@[i as int]@);
                        }
                        assert forall|a: int, b: int|
                            0 <= a < b < pool.relays@.len() implies (#[trigger] pool.relays@[a]).url@
                            != (#[trigger] pool.relays@[b]).url@ by {
                            if b < before.len() {
                                assert(before[a].url@ != before[b].url@);
                            } else {
                                assert(before[a].url@ != relay_urls@[i as int]@);
                            }
                        }
                    }
                },
            }
            i += 1;
        }
        pool
    }

    /// The place of a relay.
    fn find(&self, url: &str) -> (r: Option<usize>)
        ensures
            match r {
                Some(i) => i < self.relays@.len() && self.relays@[i as int].url@ == url@
                    && has_relay(self.relays@, url@),
                None => !has_relay(self.relays@, url@),
            },
    {
        let mut i: usize = 0;
        while i < self.relays.len()
            invariant
                i <= self.relays.len(),
                forall|j: int| 0 <= j < i ==> (#[trigger] self.relays@[j]).url@ != url@,
            decreases self.relays.len() - i,
        {
            if str_equal(self.relays[i].url.as_str(), url) {
                return Some(i);
            }
            i += 1;
        }
        None
    }

    /// Returns the relays of the pool.
    pub fn relay_urls(&self) -> (r: Vec<String>)
        ensures
            r@.len() == self.relays@.len(),
            forall|i: int| 0 <= i < r@.len() ==> (#[trigger] r@[i])@ == self.relays@[i].url@,
    {
        let mut urls: Vec<String> = Vec::new();
        let mut i: usize = 0;
        while i < self.relays.len()
            invariant
                i <= self.relays.len(),
                urls@.len() == i,
                forall|k: int| 0 <= k < i ==> (#[trigger] urls@[k])@ == self.relays@[k].url@,
            decreases self.relays.len() - i,
        {
            urls.push(self.relays[i].url.clone());
            i += 1;
        }
        urls
    }

    /// Begins to use a relay: whether it must be connected to first.
    pub fn begin(&self, relay_url: &str, shutdown: bool) -> (r: Result<bool, RelayPoolError>)
        requires
            distinct_urls(self.relays@),
        ensures
            match (r, use_verdict(self.relays@, relay_url@, shutdown)) {
                (Ok(connect), Ok(_)) => connect == !is_connected(self.relays@, relay_url@),
                (Err(e), Err(expected)) => same_error(e, expected),
                _ => false,
            },
    {
        if shutdown {
            return Err(RelayPoolError::Shutdown);
        }
        match self.find(relay_url) {
            None => Err(RelayPoolError::UnknownRelay(relay_url.to_owned())),
            Some(i) => {
                proof {
                    if is_connected(self.relays@, relay_url@) {
                        let j = choose|j: int|
                            0 <= j < self.relays@.len() && (#[trigger] self.relays@[j]).url@
                                == relay_url@ && self.relays@[j].connected;
                        if j < i {
                            assert(self.relays@[j].url@ != self.relays@[i as int].url@);
                        } else if i < j {
                            assert(self.relays@[i as int].url@ != self.relays@[j].url@);
                        }
                    } else {
                        assert(!self.relays@[i as int].connected);
                    }
                }
                Ok(!self.relays[i].connected)
            },
        }
    }

    /// Sets whether there is a connection to a relay.
    fn set_connected(&mut self, relay_url: &str, connected: bool)
        requires
            distinct_urls(old(self).relays@),
        ensures
            distinct_urls(final(self).relays@),
            same_relays(final(self).relays@, old(self).relays@),
            forall|url: Seq<char>| #[trigger]
                has_relay(final(self).relays@, url) == has_relay(old(self).relays@, url),
            forall|url: Seq<char>| #[trigger]
                is_connected(final(self).relays@, url) == with_connection(
                    old(self).relays@,
                    relay_url@,
                    connected,
                )(url),
    {
        let ghost before = self.relays@;
        match self.find(relay_url) {
            None => {
                proof {
                    assert forall|url: Seq<char>| #[trigger]
                        is_connected(self.relays@, url) == with_connection(
                        before,
                        relay_url@,
                        connected,
                    )(url) by {
                        if is_connected(before, url) {
                            let k = choose|k: int|
                                0 <= k < before.len() && (#[trigger] before[k]).url@ == url
                                    && before[k].connected;
                            assert(has_relay(before, url));
                        }
                    }
                }
            },
            Some(i) => {
                let url = self.relays[i].url.clone();
                self.relays.set(i, RelayEntry { url, connected });
                proof {
                    let after = self.relays@;
                    assert(after[i as int].url@ == before[i as int].url@);
                    assert forall|a: int, b: int| 0 <= a < b < after.len() implies (
                    #[trigger] after[a]).url@ != (#[trigger] after[b]).url@ by {
                        assert(before[a].url@ != before[b].url@);
                    }
                    assert forall|url: Seq<char>| #[trigger]
                        has_relay(after, url) == has_relay(before, url) by {
                        if has_relay(before, url) {
                            let k = choose|k: int|
                                0 <= k < before.len() && (#[trigger] before[k]).url@ == url;
                            assert(after[k].url@ == url);
                        }
                        if has_relay(after, url) {
                            let k = choose|k: int|
                                0 <= k < after.len() && (#[trigger] after[k]).url@ == url;
                            assert(before[k].url@ == url);
                        }
                    }
                    assert forall|url: Seq<char>| #[trigger]
                        is_connected(after, url) == with_connection(
                        before,
                        relay_url@,
                        connected,
                    )(url) by {
                        if url == relay_url@ {
                            assert(has_relay(before, url));
                            if is_connected(after, url) {
                                let k = choose|k: int|
                                    0 <= k < after.len() && (#[trigger] after[k]).url@ == url
                                        && after[k].connected;
                                if k < i {
                                    assert(after[k].url@ != after[i as int].url@);
                                } else if i < k {
                                    assert(after[i as int].url@ != after[k].url@);
                                }
                            }
                            if connected {
                                assert(after[i as int].connected);
                            }
                        } else {
                            if is_connected(after, url) {
                                let k = choose|k: int|
                                    0 <= k < after.len() && (#[trigger] after[k]).url@ == url
                                        && after[k].connected;
                                assert(before[k] == after[k]);
                            }
                            if is_connected(before, url) {
                                let k = choose|k: int|
                                    0 <= k < before.len() && (#[trigger] before[k]).url@ == url
                                        && before[k].connected;
                                assert(before[k] == after[k]);
                            }
                        }
                    }
                }
            },
        }
    }

    /// Records that a relay has been connected to.
    pub fn connected(&mut self, relay_url: &str)
        requires
            distinct_urls(old(self).relays@),
        ensures
            distinct_urls(final(self).relays@),
            same_relays(final(self).relays@, old(self).relays@),
            forall|url: Seq<char>| #[trigger]
                has_relay(final(self).relays@, url) == has_relay(old(self).relays@, url),
            forall|url: Seq<char>| #[trigger]
                is_connected(final(self).relays@, url) == with_connection(
                    old(self).relays@,
                    relay_url@,
                    true,
                )(url),
    {
        self.set_connected(relay_url, true);
    }

    /// Takes what a write came to: a failure drops the connection.
    pub fn sent(&mut self, relay_url: &str, ok: bool) -> (r: Result<(), RelayPoolError>)
        requires
            distinct_urls(old(self).relays@),
        ensures
            distinct_urls(final(self).relays@),
            same_relays(final(self).relays@, old(self).relays@),
            forall|url: Seq<char>| #[trigger]
                has_relay(final(self).relays@, url) == has_relay(old(self).relays@, url),
            ok ==> r == Ok::<(), RelayPoolError>(()) && *final(self) == *old(self),
            !ok ==> r == Err::<(), RelayPoolError>(RelayPoolError::WebSocket(SocketFault::Failed)),
            !ok ==> forall|url: Seq<char>| #[trigger]
                is_connected(final(self).relays@, url) == with_connection(
                    old(self).relays@,
                    relay_url@,
                    false,
                )(url),
    {
        if ok {
            return Ok(());
        }
        self.set_connected(relay_url, false);
        Err(RelayPoolError::WebSocket(SocketFault::Failed))
    }

    /// Takes what a read came to: the message that it brought, or why there is
    /// none. A failed read drops the connection; one that brought nothing, or
    /// no message, does not.
    pub fn received(
        &mut self,
        relay_url: &str,
        outcome: SocketOutcome,
        shutdown: bool,
    ) -> (r: Result<RelayAnswer, RelayPoolError>)
        requires
            distinct_urls(old(self).relays@),
        ensures
            distinct_urls(final(self).relays@),
            same_relays(final(self).relays@, old(self).relays@),
            forall|url: Seq<char>| #[trigger]
                has_relay(final(self).relays@, url) == has_relay(old(self).relays@, url),
            gives(r, read_verdict(outcome, shutdown)),
            !(outcome is Failed) ==> *final(self) == *old(self),
            outcome is Failed ==> forall|url: Seq<char>| #[trigger]
                is_connected(final(self).relays@, url) == with_connection(
                    old(self).relays@,
                    relay_url@,
                    false,
                )(url),
    {
        match outcome {
            SocketOutcome::Text(text) => parsed(text),
            SocketOutcome::Binary(bytes) => match utf8_text(bytes) {
                Some(text) => parsed(text),
                None => Err(RelayPoolError::Utf8),
            },
            SocketOutcome::ControlFrame => if shutdown {
                Err(RelayPoolError::Shutdown)
            } else {
                Err(RelayPoolError::WebSocket(SocketFault::Reset))
            },
            SocketOutcome::TimedOut => if shutdown {
                Err(RelayPoolError::Shutdown)
            } else {
                Err(RelayPoolError::WebSocket(SocketFault::TimedOut))
            },
            SocketOutcome::Failed => {
                self.set_connected(relay_url, false);
                Err(RelayPoolError::WebSocket(SocketFault::Failed))
            },
        }
    }

    /// Takes what the read after a write came to: the response, or why there is
    /// none. Only a frame of text is a response.
    pub fn answered(
        &mut self,
        relay_url: &str,
        outcome: SocketOutcome,
    ) -> (r: Result<RelayAnswer, RelayPoolError>)
        requires
            distinct_urls(old(self).relays@),
        ensures
            distinct_urls(final(self).relays@),
            same_relays(final(self).relays@, old(self).relays@),
            forall|url: Seq<char>| #[trigger]
                has_relay(final(self).relays@, url) == has_relay(old(self).relays@, url),
            gives(r, response_verdict(outcome)),
            !(outcome is Failed) ==> *final(self) == *old(self),
            outcome is Failed ==> forall|url: Seq<char>| #[trigger]
                is_connected(final(self).relays@, url) == with_connection(
                    old(self).relays@,
                    relay_url@,
                    false,
                )(url),
    {
        match outcome {
            SocketOutcome::Binary(_) => Err(RelayPoolError::WebSocket(SocketFault::Reset)),
            _ => self.received(relay_url, outcome, false),
        }
    }

    /// Drops the connection to a relay; it is made anew on the next use.
    pub fn disconnect(&mut self, relay_url: &str)
        requires
            distinct_urls(old(self).relays@),
        ensures
            distinct_urls(final(self).relays@),
            same_relays(final(self).relays@, old(self).relays@),
            forall|url: Seq<char>| #[trigger]
                has_relay(final(self).relays@, url) == has_relay(old(self).relays@, url),
            forall|url: Seq<char>| #[trigger]
                is_connected(final(self).relays@, url) == with_connection(
                    old(self).relays@,
                    relay_url@,
                    false,
                )(url),
    {
        self.set_connected(relay_url, false);
    }

    /// Drops all connections.
    pub fn disconnect_all(&mut self)
        requires
            distinct_urls(old(self).relays@),
        ensures
            distinct_urls(final(self).relays@),
            final(self).relays@.len() == old(self).relays@.len(),
            forall|i: int|
                0 <= i < final(self).relays@.len() ==> (#[trigger] final(self).relays@[i]).url@
                    == old(self).relays@[i].url@ && !final(self).relays@[i].connected,
    {
        let ghost before = self.relays@;
        let mut i: usize = 0;
        while i < self.relays.len()
            invariant
                i <= self.relays.len(),
                self.relays@.len() == before.len(),
                forall|k: int| i <= k < before.len() ==> self.relays@[k] == before[k],
                forall|k: int|
                    0 <= k < i ==> (#[trigger] self.relays@[k]).url@ == before[k].url@
                        && !self.relays@[k].connected,
            decreases self.relays.len() - i,
        {
            let url = self.relays[i].url.clone();
            self.relays.set(i, RelayEntry { url, connected: false });
            i += 1;
        }
        proof {
            let after = self.relays@;
            assert forall|a: int, b: int| 0 <= a < b < after.len() implies (#[trigger] after[a]).url@
                != (#[trigger] after[b]).url@ by {
                assert(before[a].url@ != before[b].url@);
            }
        }
    }
}

/// Operations on one relay leave the connections to the others alone.
pub proof fn law_relays_are_independent(
    relays: Seq<RelayEntry>,
    url: Seq<char>,
    other: Seq<char>,
    connected: bool,
)
    requires
        url != other,
    ensures
        with_connection(relays, url, connected)(other) == is_connected(relays, other),
{
}

/// A relay can be used exactly while the pool is not shut down and where it is
/// one of the pool; a relay that is not is named.
pub proof fn law_only_relays_of_the_pool_are_used(
    relays: Seq<RelayEntry>,
    url: Seq<char>,
    shutdown: bool,
)
    ensures
        use_verdict(relays, url, shutdown) is Ok <==> !shutdown && exists|i: int|
            0 <= i < relays.len() && (#[trigger] relays[i]).url@ == url,
        shutdown ==> use_verdict(relays, url, shutdown) == Err::<(), RelayPoolFault>(
            RelayPoolFault::Shutdown,
        ),
        !shutdown && use_verdict(relays, url, shutdown) is Err ==> use_verdict(
            relays,
            url,
            shutdown,
        ) == Err::<(), RelayPoolFault>(RelayPoolFault::UnknownRelay(url)),
{
}

/// A message is read from text and from bytes that are text alike; a read that
/// brings no frame of either brings none, and a shutdown goes before a timeout.
pub proof fn law_messages_are_read(text: String, bytes: Vec<u8>, shutdown: bool)
    requires
        valid_utf8(bytes@),
        decode_utf8(bytes@) == text@,
    ensures
        read_verdict(SocketOutcome::Text(text), shutdown) == read_verdict(
            SocketOutcome::Binary(bytes),
            shutdown,
        ),
        read_verdict(SocketOutcome::Text(text), shutdown) is Ok <==> relay_message(text@) is Some,
        read_verdict(SocketOutcome::Text(text), shutdown) matches Ok((read, status)) ==> read
            == text@ && relay_message(text@) == Some(status),
        read_verdict(SocketOutcome::TimedOut, shutdown) == Err::<
            (Seq<char>, Option<bool>),
            RelayPoolFault,
        >(
            if shutdown {
                RelayPoolFault::Shutdown
            } else {
                RelayPoolFault::WebSocket(SocketFault::TimedOut)
            },
        ),
        read_verdict(SocketOutcome::ControlFrame, true) == read_verdict(
            SocketOutcome::TimedOut,
            true,
        ),
        read_verdict(SocketOutcome::ControlFrame, false) == Err::<
            (Seq<char>, Option<bool>),
            RelayPoolFault,
        >(RelayPoolFault::WebSocket(SocketFault::Reset)),
        read_verdict(SocketOutcome::Failed, shutdown) == Err::<
            (Seq<char>, Option<bool>),
            RelayPoolFault,
        >(RelayPoolFault::WebSocket(SocketFault::Failed)),
{
}

/// Bytes that are no text are reported as such, and only text is a response.
pub proof fn law_only_text_responds(text: String, bytes: Vec<u8>, shutdown: bool)
    ensures
        !valid_utf8(bytes@) ==> read_verdict(SocketOutcome::Binary(bytes), shutdown) == Err::<
            (Seq<char>, Option<bool>),
            RelayPoolFault,
        >(RelayPoolFault::Utf8),
        response_verdict(SocketOutcome::Binary(bytes)) == Err::<
            (Seq<char>, Option<bool>),
            RelayPoolFault,
        >(RelayPoolFault::WebSocket(SocketFault::Reset)),
        response_verdict(SocketOutcome::Text(text)) == read_verdict(
            SocketOutcome::Text(text),
            shutdown,
        ),
        response_verdict(SocketOutcome::TimedOut) is Err,
        response_verdict(SocketOutcome::Failed) is Err,
        SOCKET_READ_TIMEOUT == 5,
{
}

/// A change of one relay's connection is seen for that relay, where it is one
/// of the pool, and for no other.
pub proof fn law_connections_are_each_relays_own(
    relays: Seq<RelayEntry>,
    url: Seq<char>,
    other: Seq<char>,
    connected: bool,
)
    ensures
        has_relay(relays, url) ==> with_connection(relays, url, connected)(url) == connected,
        !has_relay(relays, url) ==> !with_connection(relays, url, connected)(url),
        other != url ==> with_connection(relays, url, connected)(other) == is_connected(
            relays,
            other,
        ),
        is_connected(relays, url) ==> has_relay(relays, url),
{
    if is_connected(relays, url) {
        let i = choose|i: int|
            0 <= i < relays.len() && (#[trigger] relays[i]).url@ == url && relays[i].connected;
        assert(relays[i].url@ == url);
    }
}

/// A response that does not come is a fault of the connection, never a
/// shutdown.
pub proof fn law_missing_responses_are_faults()
    ensures
        response_verdict(SocketOutcome::TimedOut) == Err::<
            (Seq<char>, Option<bool>),
            RelayPoolFault,
        >(RelayPoolFault::WebSocket(SocketFault::TimedOut)),
        response_verdict(SocketOutcome::ControlFrame) == Err::<
            (Seq<char>, Option<bool>),
            RelayPoolFault,
        >(RelayPoolFault::WebSocket(SocketFault::Reset)),
        response_verdict(SocketOutcome::Failed) == Err::<
            (Seq<char>, Option<bool>),
            RelayPoolFault,
        >(RelayPoolFault::WebSocket(SocketFault::Failed)),
{
}

/// What a read gives is the text that was read, with what it says of an event,
/// and a failure is the one that there was.
pub proof fn law_answers_tell_the_text(
    r: Result<RelayAnswer, RelayPoolError>,
    text: Seq<char>,
    status: Option<bool>,
    url: Seq<char>,
)
    ensures
        gives(r, Ok((text, status))) <==> (r matches Ok(answer) && answer.text@ == text
            && answer.status == status),
        gives(r, Err(RelayPoolFault::NostrParsing)) <==> r == Err::<RelayAnswer, RelayPoolError>(
            RelayPoolError::NostrParsing,
        ),
        gives(r, Err(RelayPoolFault::Utf8)) <==> r == Err::<RelayAnswer, RelayPoolError>(
            RelayPoolError::Utf8,
        ),
        gives(r, Err(RelayPoolFault::Shutdown)) <==> r == Err::<RelayAnswer, RelayPoolError>(
            RelayPoolError::Shutdown,
        ),
        gives(r, Err(RelayPoolFault::UnknownRelay(url))) <==> (r matches Err(
            RelayPoolError::UnknownRelay(named),
        ) && named@ == url),
        gives(r, Err(RelayPoolFault::WebSocket(SocketFault::Failed))) <==> r == Err::<
            RelayAnswer,
            RelayPoolError,
        >(RelayPoolError::WebSocket(SocketFault::Failed)),
{
}

} // verus!
