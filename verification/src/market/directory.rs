//! A directory server: makers post their addresses, takers ask for them.

use crate::chain::{bytes_equal, hash32_equal, str_equal, Transaction};
use crate::maker::config::{number_or_default, port_or};
use crate::primitives::{
    is_signed, p2wsh_bytes, redeemscript_to_scriptpubkey, utf8_text, verify_ecdsa, LOCK_TIME_THRESHOLD,
};
use crate::protocol::common_messages::FidelityProof;
use crate::settings::{
    is_setting, is_value, law_lines_are_read_back, law_merged_keeps_values, law_with_value,
    lemma_position, lemma_settings_are_settings, lookup, merged, parse_settings, position,
    setting_lines, setting_models, settings, value_of, with_value, write_with_value,
};
use vstd::prelude::*;
use vstd::string::{StrSliceExecFns, StringExecFns};
use vstd::utf8::{decode_utf8, valid_utf8};

verus! {

/// How the server is reached.
#[derive(Debug, Clone, Copy, PartialEq, Eq, Structural)]
pub enum ConnectionType {
    /// Over Tor.
    TOR,
    /// Directly.
    CLEARNET,
}

/// The failures of the directory server.
#[derive(Debug, Clone, Copy, PartialEq, Eq, Structural)]
pub enum DirectoryServerError {
    /// The transaction of a fidelity bond has no output.
    OutputsIndexError,
    /// The height of the chain is no lock time.
    Locktime,
}

/// A maker's address with the proof of its fidelity bond.
#[derive(Debug)]
pub struct OfferMetadata {
    /// The address.
    pub url: String,
    /// The proof.
    pub proof: FidelityProof,
}

/// A request to the server.
#[derive(Debug)]
pub enum Request {
    /// A maker posts its address.
    Post { metadata: Box<OfferMetadata> },
    /// A taker asks for the addresses of some makers.
    Get { makers: u32 },
    /// An address is posted without proof.
    Dummy { url: String },
}

/// The directory server.
#[derive(Debug)]
pub struct DirectoryServer {
    /// Port for remote control.
    pub rpc_port: u16,
    /// Port for makers and takers.
    pub port: u16,
    /// Socks port of Tor.
    pub socks_port: u16,
    /// How the server is reached.
    pub connection_type: ConnectionType,
    /// The addresses of makers.
    pub addresses: Vec<String>,
}

/// What a list of addresses holds.
pub open spec fn address_models(addresses: Seq<String>) -> Seq<Seq<char>> {
    addresses.map_values(|a: String| a@)
}

/// The addresses with another one, which is not added twice.
pub open spec fn with_address(addresses: Seq<Seq<char>>, url: Seq<char>) -> Seq<Seq<char>> {
    if addresses.contains(url) {
        addresses
    } else {
        addresses.push(url)
    }
}

/// The text of the first `n` addresses: each with a line end.
pub open spec fn lines_text(addresses: Seq<Seq<char>>, n: int) -> Seq<char>
    decreases n,
{
    if n <= 0 {
        seq![]
    } else {
        lines_text(addresses, n - 1) + addresses[n - 1] + seq!['\n']
    }
}

/// A line without the carriage return before its end.
pub open spec fn without_return(line: Seq<char>) -> Seq<char> {
    if line.len() > 0 && line.last() == '\r' {
        line.drop_last()
    } else {
        line
    }
}

/// The lines of a text from a position on.
pub open spec fn lines_from(text: Seq<char>, from: int) -> Seq<Seq<char>>
    decreases text.len() - from,
{
    if from < 0 || from >= text.len() {
        seq![]
    } else {
        proof {
            lemma_position(text, '\n', from);
        }
        let end = position(text, '\n', from);
        if end >= text.len() {
            seq![text.subrange(from, text.len() as int)]
        } else {
            seq![without_return(text.subrange(from, end))] + lines_from(text, end + 1)
        }
    }
}

/// The addresses with some lines added one after the other.
pub open spec fn with_lines(addresses: Seq<Seq<char>>, lines: Seq<Seq<char>>) -> Seq<Seq<char>>
    decreases lines.len(),
{
    if lines.len() == 0 {
        addresses
    } else {
        with_lines(with_address(addresses, lines[0]), lines.drop_first())
    }
}

/// The connection type that a setting stands for.
pub open spec fn connection_of(value: Option<Seq<char>>) -> ConnectionType {
    if value == Some("clearnet"@) || value == Some("CLEARNET"@) {
        ConnectionType::CLEARNET
    } else {
        ConnectionType::TOR
    }
}

/// The connection type of the settings; Tor where they name none.
fn connection_or(fields: &Vec<(String, String)>) -> (r: ConnectionType)
    ensures
        r == connection_of(value_of(setting_models(fields@), "connection_type"@)),
{
    match lookup(fields, "connection_type") {
        None => ConnectionType::TOR,
        Some(value) => if str_equal(value.as_str(), "clearnet") || str_equal(
            value.as_str(),
            "CLEARNET",
        ) {
            ConnectionType::CLEARNET
        } else {
            ConnectionType::TOR
        },
    }
}

/// The length of the first line of some bytes, with its line end.
pub open spec fn line_length(bytes: Seq<u8>) -> int
    decreases bytes.len(),
{
    if bytes.len() == 0 {
        0
    } else if bytes[0] == 10 {
        1
    } else {
        1 + line_length(bytes.drop_first())
    }
}

/// A line ends at the first line end, or where the bytes end.
proof fn lemma_line_length(bytes: Seq<u8>, n: int)
    requires
        0 < n <= bytes.len(),
        forall|i: int| 0 <= i < n - 1 ==> #[trigger] bytes[i] != 10,
        bytes[n - 1] == 10 || n == bytes.len(),
    ensures
        line_length(bytes) == n,
    decreases n,
{
    if n > 1 {
        let rest = bytes.drop_first();
        assert(bytes[0] != 10);
        assert forall|i: int| 0 <= i < n - 2 implies #[trigger] rest[i] != 10 by {
            assert(rest[i] == bytes[i + 1]);
        }
        lemma_line_length(rest, n - 1);
    } else if bytes[0] != 10 {
        assert(line_length(bytes.drop_first()) == 0);
    }
}

/// The length of a first line is within the bytes.
pub proof fn lemma_line_within(bytes: Seq<u8>)
    ensures
        0 <= line_length(bytes) <= bytes.len(),
        bytes.len() > 0 ==> line_length(bytes) > 0,
    decreases bytes.len(),
{
    if bytes.len() > 0 {
        lemma_line_within(bytes.drop_first());
    }
}

/// The text of a file, up to the first line that is no text.
pub open spec fn readable(bytes: Seq<u8>) -> Seq<char>
    decreases bytes.len(),
{
    if bytes.len() == 0 {
        seq![]
    } else {
        proof {
            lemma_line_within(bytes);
        }
        let line = bytes.take(line_length(bytes));
        if valid_utf8(line) {
            decode_utf8(line) + readable(bytes.skip(line_length(bytes)))
        } else {
            seq![]
        }
    }
}

/// Reads the text of a file, up to the first line that is no text.
pub fn readable_text(bytes: &Vec<u8>) -> (r: String)
    ensures
        r@ == readable(bytes@),
{
    let mut out = String::new();
    let mut from: usize = 0;
    assert(bytes@.skip(0) =~= bytes@);
    assert(out@ + readable(bytes@) =~= readable(bytes@));
    while from < bytes.len()
        invariant
            from <= bytes.len(),
            out@ + readable(bytes@.skip(from as int)) == readable(bytes@),
        decreases bytes.len() - from,
    {
        let ghost rest = bytes@.skip(from as int);
        let mut line: Vec<u8> = Vec::new();
        let mut ended = false;
        let mut i: usize = from;
        while i < bytes.len() && !ended
            invariant
                from <= i <= bytes.len(),
                rest == bytes@.skip(from as int),
                line@ =~= bytes@.subrange(from as int, i as int),
                ended ==> i > from && bytes@[i - 1] == 10,
                forall|j: int| 0 <= j < line@.len() - 1 ==> #[trigger] rest[j] != 10,
                !ended ==> forall|j: int| 0 <= j < line@.len() ==> #[trigger] rest[j] != 10,
            decreases bytes.len() - i,
        {
            let byte = bytes[i];
            assert(rest[i - from] == byte);
            line.push(byte);
            ended = byte == 10;
            i += 1;
        }
        let ghost text = out@;
        proof {
            assert(rest[i - from - 1] == bytes@[i - 1]);
            lemma_line_length(rest, i - from);
            assert(line@ =~= rest.take(i - from));
            assert(rest.skip(i - from) =~= bytes@.skip(i as int));
        }
        match utf8_text(line) {
            Some(read) => {
                out.append(read.as_str());
                proof {
                    let tail = readable(bytes@.skip(i as int));
                    assert(text + (read@ + tail) =~= out@ + tail);
                }
            },
            None => {
                assert(out@ + readable(rest) =~= out@);
                return out;
            },
        }
        from = i;
    }
    assert(bytes@.skip(from as int) =~= seq![]);
    assert(out@ + readable(seq![]) =~= out@);
    out
}

/// The text of a connection type in the settings.
pub open spec fn connection_text(kind: ConnectionType) -> Seq<char> {
    match kind {
        ConnectionType::TOR => "TOR"@,
        ConnectionType::CLEARNET => "CLEARNET"@,
    }
}

/// The settings file with another connection type.
pub open spec fn replaced_kind(config: Seq<char>, kind: ConnectionType) -> Seq<char> {
    setting_lines(
        with_value(merged(settings(config)), "connection_type"@, connection_text(kind)),
    )
}

/// Whether a settings file names a connection type.
pub fn names_connection(config: &str) -> (r: bool)
    ensures
        r == (value_of(settings(config@), "connection_type"@) is Some),
{
    let fields = parse_settings(config);
    lookup(&fields, "connection_type").is_some()
}

/// Writes a settings file anew with another connection type: the settings of
/// the file, each key once, and nothing else.
pub fn settings_with(config: &str, kind: ConnectionType) -> (r: String)
    requires
        value_of(settings(config@), "connection_type"@) is Some,
    ensures
        r@ == replaced_kind(config@, kind),
{
    let fields = parse_settings(config);
    let text = match kind {
        ConnectionType::TOR => "TOR",
        ConnectionType::CLEARNET => "CLEARNET",
    };
    write_with_value(&fields, "connection_type", text)
}

/// A connection type that was written to the settings is read back from them,
/// and every other setting is what it was.
pub proof fn law_replaced_kind_is_read_back(config: Seq<char>, kind: ConnectionType, key: Seq<char>)
    requires
        value_of(settings(config), "connection_type"@) is Some,
    ensures
        connection_of(value_of(settings(replaced_kind(config, kind)), "connection_type"@)) == kind,
        key != "connection_type"@ ==> value_of(settings(replaced_kind(config, kind)), key)
            == value_of(settings(config), key),
{
    reveal_strlit("TOR");
    reveal_strlit("CLEARNET");
    reveal_strlit("clearnet");
    let name = "connection_type"@;
    let text = connection_text(kind);
    let fields = settings(config);
    lemma_settings_are_settings(config);
    law_merged_keeps_values(fields, name);
    law_merged_keeps_values(fields, key);
    law_with_value(merged(fields), name, text, name);
    law_with_value(merged(fields), name, text, key);
    let after = with_value(merged(fields), name, text);
    assert(is_value(text));
    assert forall|i: int| 0 <= i < after.len() implies is_setting(#[trigger] after[i]) by {
        assert(is_setting(merged(fields)[i]));
    }
    law_lines_are_read_back(after);
}

impl Default for DirectoryServer {
    fn default() -> (r: Self)
        ensures
            r.rpc_port == 4321,
            r.port == 8080,
            r.socks_port == 19060,
            r.connection_type == ConnectionType::TOR,
            r.listing() == Seq::<Seq<char>>::empty(),
    {
        let r = DirectoryServer {
            rpc_port: 4321,
            port: 8080,
            socks_port: 19060,
            connection_type: ConnectionType::TOR,
            addresses: Vec::new(),
        };
        assert(r.listing() =~= Seq::<Seq<char>>::empty());
        r
    }
}

impl DirectoryServer {
    /// The addresses in the order in which they came.
    pub open spec fn listing(&self) -> Seq<Seq<char>> {
        address_models(self.addresses@)
    }

    /// Whether no address is listed twice.
    pub open spec fn wf(&self) -> bool {
        self.listing().no_duplicates()
    }

    /// Whether another server differs in its addresses alone.
    pub open spec fn same_settings(&self, other: DirectoryServer) -> bool {
        &&& self.rpc_port == other.rpc_port
        &&& self.port == other.port
        &&& self.socks_port == other.socks_port
        &&& self.connection_type == other.connection_type
    }

    /// Constructs a server from the text of its settings file and of its
    /// address file. A connection type that is given goes before that of the
    /// settings; what is missing or unreadable stays at its default.
    pub fn new(config: &str, addresses: &str, connection_type: Option<ConnectionType>) -> (r: Self)
        ensures
            r.wf(),
            ({
                let fields = settings(config@);
                let ports = u16::MAX as int;
                &&& r.rpc_port == number_or_default(fields, "rpc_port"@, ports, 4321)
                &&& r.port == number_or_default(fields, "port"@, ports, 8080)
                &&& r.socks_port == number_or_default(fields, "socks_port"@, ports, 19060)
                &&& r.connection_type == match connection_type {
                    Some(given) => given,
                    None => connection_of(value_of(fields, "connection_type"@)),
                }
            }),
            r.listing() == with_lines(seq![], lines_from(addresses@, 0)),
    {
        let fields = parse_settings(config);
        let connection = match connection_type {
            Some(given) => given,
            None => connection_or(&fields),
        };
        let mut server = DirectoryServer {
            rpc_port: port_or(&fields, "rpc_port", 4321),
            port: port_or(&fields, "port", 8080),
            socks_port: port_or(&fields, "socks_port", 19060),
            connection_type: connection,
            addresses: Vec::new(),
        };
        assert(server.listing() =~= seq![]);
        server.load_addresses(addresses);
        server
    }

    /// Adds an address; one that is listed already stays listed once.
    pub fn add_address(&mut self, url: String)
        requires
            old(self).wf(),
        ensures
            final(self).wf(),
            final(self).same_settings(*old(self)),
            final(self).listing() == with_address(old(self).listing(), url@),
    {
        let ghost before = self.listing();
        let mut i: usize = 0;
        while i < self.addresses.len()
            invariant
                *self == *old(self),
                old(self).wf(),
                before == self.listing(),
                i <= self.addresses@.len(),
                forall|j: int| 0 <= j < i ==> #[trigger] before[j] != url@,
            decreases self.addresses@.len() - i,
        {
            if str_equal(self.addresses[i].as_str(), url.as_str()) {
                assert(before[i as int] == url@);
                return;
            }
            assert(before[i as int] != url@);
            i += 1;
        }
        self.addresses.push(url);
        assert(self.listing() =~= before.push(url@));
        assert(!before.contains(url@));
    }

    /// Adds the addresses of an address file.
    fn load_addresses(&mut self, text: &str)
        requires
            old(self).wf(),
        ensures
            final(self).wf(),
            final(self).same_settings(*old(self)),
            final(self).listing() == with_lines(old(self).listing(), lines_from(text@, 0)),
    {
        let n = text.unicode_len();
        let ghost lines = lines_from(text@, 0);
        let ghost start = self.listing();
        let mut from: usize = 0;
        while from < n
            invariant
                n == text@.len(),
                from <= n,
                self.wf(),
                self.same_settings(*old(self)),
                with_lines(self.listing(), lines_from(text@, from as int)) == with_lines(
                    start,
                    lines,
                ),
            decreases n - from,
        {
            let ghost before = self.listing();
            let ghost rest = lines_from(text@, from as int);
            let mut end: usize = from;
            while end < n && text.get_char(end) != '\n'
                invariant
                    n == text@.len(),
                    from <= end <= n,
                    position(text@, '\n', from as int) == position(text@, '\n', end as int),
                decreases n - end,
            {
                end += 1;
            }
            let line = text.substring_char(from, end);
            let m = line.unicode_len();
            let kept = if end < n && m > 0 && line.get_char(m - 1) == '\r' {
                let short = line.substring_char(0, m - 1);
                assert(short@ =~= line@.drop_last());
                short
            } else {
                line
            };
            self.add_address(kept.to_owned());
            proof {
                assert(rest[0] == kept@);
                if end < n {
                    assert(rest.drop_first() =~= lines_from(text@, end + 1));
                } else {
                    assert(rest.drop_first() =~= seq![]);
                    assert(lines_from(text@, n as int) =~= seq![]);
                }
            }
            from = if end < n {
                end + 1
            } else {
                n
            };
        }
    }

    /// The text of the first `makers` addresses, or nothing where there are
    /// fewer.
    pub fn serve(&self, makers: u32) -> (r: String)
        ensures
            r@ == if self.listing().len() < makers {
                seq![]
            } else {
                lines_text(self.listing(), makers as int)
            },
    {
        if (self.addresses.len() as u64) < makers as u64 {
            let r = String::new();
            assert(r@ =~= seq![]);
            return r;
        }
        self.text_of(makers as usize)
    }

    /// The text of the address file.
    pub fn address_file(&self) -> (r: String)
        ensures
            r@ == lines_text(self.listing(), self.listing().len() as int),
    {
        self.text_of(self.addresses.len())
    }

    /// The text of the first `n` addresses.
    fn text_of(&self, n: usize) -> (r: String)
        requires
            n <= self.listing().len(),
        ensures
            r@ == lines_text(self.listing(), n as int),
    {
        proof {
            reveal_strlit("\n");
            assert("\n"@ =~= seq!['\n']);
        }
        let mut text = String::new();
        let mut i: usize = 0;
        assert(text@ =~= seq![]);
        while i < n
            invariant
                i <= n <= self.listing().len(),
                self.listing() == address_models(self.addresses@),
                text@ == lines_text(self.listing(), i as int),
                "\n"@ == seq!['\n'],
            decreases n - i,
        {
            text.append(self.addresses[i].as_str());
            text.append("\n");
            assert(self.listing()[i as int] == self.addresses@[i as int]@);
            i += 1;
        }
        text
    }

    /// The addresses.
    pub fn list_addresses(&self) -> (r: Vec<String>)
        ensures
            address_models(r@) == self.listing(),
    {
        let mut out: Vec<String> = Vec::new();
        let mut i: usize = 0;
        while i < self.addresses.len()
            invariant
                i <= self.addresses@.len(),
                out@.len() == i,
                forall|k: int| 0 <= k < i ==> (#[trigger] out@[k])@ == self.addresses@[k]@,
            decreases self.addresses@.len() - i,
        {
            out.push(self.addresses[i].clone());
            i += 1;
        }
        assert(address_models(out@) =~= self.listing());
        out
    }

    /// Takes a maker's post: its address is listed where the proof of its bond
    /// holds. Returns whether it does.
    pub fn take_post(&mut self, metadata: OfferMetadata, facts: &BondFacts) -> (r: Result<
        bool,
        DirectoryServerError,
    >)
        requires
            old(self).wf(),
        ensures
            final(self).wf(),
            final(self).same_settings(*old(self)),
            r == post_verdict(
                metadata.proof,
                *facts,
                is_signed(
                    metadata.proof.cert_hash,
                    metadata.proof.cert_sig@,
                    metadata.proof.bond.pubkey,
                ),
            ),
            final(self).listing() == if r == Ok::<bool, DirectoryServerError>(true) {
                with_address(old(self).listing(), metadata.url@)
            } else {
                old(self).listing()
            },
    {
        let signed = verify_ecdsa(
            &metadata.proof.cert_hash,
            metadata.proof.cert_sig.as_slice(),
            &metadata.proof.bond.pubkey,
        );
        match verify_post(&metadata.proof, facts, signed) {
            Err(e) => Err(e),
            Ok(holds) => {
                if holds {
                    self.add_address(metadata.url);
                }
                Ok(holds)
            },
        }
    }
}

/// What the chain and the bond's own rules say of a fidelity bond.
#[derive(Debug)]
pub struct BondFacts {
    /// The script that locks the bond's coins.
    pub redeemscript: Vec<u8>,
    /// The transaction of the bond.
    pub transaction: Transaction,
    /// The hash of the certificate that binds the bond to the address.
    pub cert_hash: [u8; 32],
    /// The height of the chain.
    pub height: u32,
}

/// Whether the proof of a bond holds, or why that cannot be told: the bond's
/// first output must be locked by its script, its certificate be that of the
/// address and be signed with its key, and its lock time lie ahead.
pub open spec fn post_verdict(proof: FidelityProof, facts: BondFacts, signed: bool) -> Result<
    bool,
    DirectoryServerError,
> {
    if facts.transaction.output@.len() == 0 {
        Err(DirectoryServerError::OutputsIndexError)
    } else if facts.height >= LOCK_TIME_THRESHOLD {
        Err(DirectoryServerError::Locktime)
    } else {
        Ok(
            p2wsh_bytes(facts.redeemscript@) == facts.transaction.output@[0].script_pubkey@
                && signed && facts.height < proof.bond.lock_time && proof.bond.lock_time
                < LOCK_TIME_THRESHOLD && proof.cert_hash == facts.cert_hash,
        )
    }
}

/// Checks the proof of a bond. `signed` is whether the certificate is signed
/// with the bond's key.
pub fn verify_post(proof: &FidelityProof, facts: &BondFacts, signed: bool) -> (r: Result<
    bool,
    DirectoryServerError,
>)
    ensures
        r == post_verdict(*proof, *facts, signed),
{
    if facts.transaction.output.len() == 0 {
        return Err(DirectoryServerError::OutputsIndexError);
    }
    if facts.height >= LOCK_TIME_THRESHOLD {
        return Err(DirectoryServerError::Locktime);
    }
    let script = redeemscript_to_scriptpubkey(facts.redeemscript.as_slice());
    Ok(
        bytes_equal(script.as_slice(), facts.transaction.output[0].script_pubkey.as_slice())
            && signed && facts.height < proof.bond.lock_time && proof.bond.lock_time
            < LOCK_TIME_THRESHOLD && hash32_equal(&proof.cert_hash, &facts.cert_hash),
    )
}

/// Whether an address keeps its form in a file of lines.
pub open spec fn is_line(address: Seq<char>) -> bool {
    &&& forall|i: int| 0 <= i < address.len() ==> #[trigger] address[i] != '\n'
    &&& address.len() > 0 ==> address.last() != '\r'
}

/// The lines from a position on are those of the text that begins there.
proof fn lemma_lines_shift(text: Seq<char>, from: int)
    requires
        0 <= from <= text.len(),
    ensures
        lines_from(text, from) == lines_from(text.subrange(from, text.len() as int), 0),
    decreases text.len() - from,
{
    let rest = text.subrange(from, text.len() as int);
    if from < text.len() {
        lemma_position(text, '\n', from);
        lemma_position_shift(text, from, from);
        let end = position(text, '\n', from);
        assert(rest.subrange(0, end - from) =~= text.subrange(from, end));
        if end < text.len() {
            lemma_lines_shift(text, end + 1);
            lemma_lines_shift(rest, end - from + 1);
            assert(rest.subrange(end - from + 1, rest.len() as int) =~= text.subrange(
                end + 1,
                text.len() as int,
            ));
        } else {
            assert(rest.subrange(0, rest.len() as int) =~= rest);
        }
    }
}

/// Positions shift with the start of a text.
proof fn lemma_position_shift(text: Seq<char>, from: int, at: int)
    requires
        0 <= from <= at <= text.len(),
    ensures
        position(text.subrange(from, text.len() as int), '\n', at - from) == position(
            text,
            '\n',
            at,
        ) - from,
    decreases text.len() - at,
{
    let rest = text.subrange(from, text.len() as int);
    if at < text.len() && text[at] != '\n' {
        assert(rest[at - from] == text[at]);
        lemma_position_shift(text, from, at + 1);
    }
}

/// A line before a text.
proof fn lemma_line_before(line: Seq<char>, rest: Seq<char>)
    requires
        is_line(line),
    ensures
        lines_from(line + seq!['\n'] + rest, 0) == seq![line] + lines_from(rest, 0),
{
    let text = line + seq!['\n'] + rest;
    let n = line.len() as int;
    assert(text[n] == '\n');
    assert forall|i: int| 0 <= i < n implies text[i] != '\n' by {
        assert(text[i] == line[i]);
    }
    lemma_position(text, '\n', 0);
    assert(position(text, '\n', 0) == n) by {
        let p = position(text, '\n', 0);
        if p > n {
            assert(text[n] != '\n');
        }
        if p < n {
            assert(text[p] == '\n');
        }
    }
    assert(text.subrange(0, n) =~= line);
    lemma_lines_shift(text, n + 1);
    assert(text.subrange(n + 1, text.len() as int) =~= rest);
}

/// The text of addresses is that of the first before that of the others.
proof fn lemma_first_address(addresses: Seq<Seq<char>>, n: int)
    requires
        0 < n <= addresses.len(),
    ensures
        lines_text(addresses, n) == addresses[0] + seq!['\n'] + lines_text(
            addresses.drop_first(),
            n - 1,
        ),
    decreases n,
{
    if n == 1 {
        assert(lines_text(addresses, 0) =~= seq![]);
        assert(lines_text(addresses.drop_first(), 0) =~= seq![]);
        assert(lines_text(addresses, 1) =~= addresses[0] + seq!['\n'] + seq![]);
    } else {
        lemma_first_address(addresses, n - 1);
        let others = addresses.drop_first();
        assert(others[n - 2] == addresses[n - 1]);
        assert(lines_text(addresses, n) =~= addresses[0] + seq!['\n'] + lines_text(others, n - 1));
    }
}

/// The lines of written addresses are the addresses.
proof fn lemma_lines_of_addresses(addresses: Seq<Seq<char>>)
    requires
        forall|i: int| 0 <= i < addresses.len() ==> is_line(#[trigger] addresses[i]),
    ensures
        lines_from(lines_text(addresses, addresses.len() as int), 0) == addresses,
    decreases addresses.len(),
{
    if addresses.len() == 0 {
        assert(lines_from(seq![], 0) =~= addresses);
    } else {
        let others = addresses.drop_first();
        assert forall|i: int| 0 <= i < others.len() implies is_line(#[trigger] others[i]) by {
            assert(others[i] == addresses[i + 1]);
        }
        lemma_lines_of_addresses(others);
        lemma_first_address(addresses, addresses.len() as int);
        assert(is_line(addresses[0]));
        lemma_line_before(addresses[0], lines_text(others, others.len() as int));
        assert(seq![addresses[0]] + others =~= addresses);
    }
}

/// Adding lines that are not listed yet, and not twice, appends them.
proof fn lemma_new_lines(addresses: Seq<Seq<char>>, lines: Seq<Seq<char>>)
    requires
        (addresses + lines).no_duplicates(),
    ensures
        with_lines(addresses, lines) == addresses + lines,
    decreases lines.len(),
{
    if lines.len() == 0 {
        assert(addresses + lines =~= addresses);
    } else {
        let both = addresses + lines;
        assert(both[addresses.len() as int] == lines[0]);
        if addresses.contains(lines[0]) {
            let i = choose|i: int| 0 <= i < addresses.len() && addresses[i] == lines[0];
            assert(both[i] == both[addresses.len() as int]);
        }
        let grown = addresses.push(lines[0]);
        assert(grown + lines.drop_first() =~= both);
        lemma_new_lines(grown, lines.drop_first());
    }
}

/// The addresses that were written to the file are read back, in their order.
pub proof fn law_addresses_are_read_back(addresses: Seq<Seq<char>>)
    requires
        addresses.no_duplicates(),
        forall|i: int| 0 <= i < addresses.len() ==> is_line(#[trigger] addresses[i]),
    ensures
        with_lines(seq![], lines_from(lines_text(addresses, addresses.len() as int), 0))
            == addresses,
{
    lemma_lines_of_addresses(addresses);
    assert(Seq::<Seq<char>>::empty() + addresses =~= addresses);
    lemma_new_lines(seq![], addresses);
}

/// A post is taken exactly where the first output of the bond is locked by the
/// bond's script, the certificate is that of the address and signed, and the
/// lock time is a height ahead of the chain.
pub proof fn law_post_needs_a_live_bond(proof: FidelityProof, facts: BondFacts, signed: bool)
    ensures
        post_verdict(proof, facts, signed) == Ok::<bool, DirectoryServerError>(true) <==> {
            &&& facts.transaction.output@.len() > 0
            &&& facts.transaction.output@[0].script_pubkey@ == p2wsh_bytes(facts.redeemscript@)
            &&& signed
            &&& facts.height < proof.bond.lock_time < 500_000_000
            &&& proof.cert_hash == facts.cert_hash
        },
        post_verdict(proof, facts, signed) is Err <==> facts.transaction.output@.len() == 0
            || facts.height >= 500_000_000,
        facts.transaction.output@.len() == 0 ==> post_verdict(proof, facts, signed) == Err::<
            bool,
            DirectoryServerError,
        >(DirectoryServerError::OutputsIndexError),
{
}

/// An address that was posted is listed, once, behind those before it, of which
/// none is lost or moved; posting it again changes nothing.
pub proof fn law_posted_address_is_listed(
    addresses: Seq<Seq<char>>,
    url: Seq<char>,
    other: Seq<char>,
    i: int,
)
    requires
        addresses.no_duplicates(),
    ensures
        with_address(addresses, url).contains(url),
        with_address(addresses, url).no_duplicates(),
        0 <= i < addresses.len() ==> with_address(addresses, url)[i] == addresses[i],
        with_address(with_address(addresses, url), url) == with_address(addresses, url),
        other != url ==> (with_address(addresses, url).contains(other) <==> addresses.contains(
            other,
        )),
        !addresses.contains(url) ==> with_address(addresses, url).last() == url,
        with_address(addresses, url).len() <= addresses.len() + 1,
{
    let after = with_address(addresses, url);
    if !addresses.contains(url) {
        assert(after[addresses.len() as int] == url);
        if addresses.contains(other) {
            let k = choose|k: int| 0 <= k < addresses.len() && addresses[k] == other;
            assert(after[k] == other);
        }
        if after.contains(other) && other != url {
            let k = choose|k: int| 0 <= k < after.len() && after[k] == other;
            assert(addresses[k] == other);
        }
        assert forall|a: int, b: int| 0 <= a < b < after.len() implies after[a] != after[b] by {
            if b == addresses.len() {
                assert(addresses[a] == after[a]);
            }
        }
    }
}

/// The text that a taker is served ends each of the first addresses with a line
/// end: one more address appends its own line and keeps the text before it.
pub proof fn law_served_text_is_lines(addresses: Seq<Seq<char>>, n: int)
    requires
        0 <= n < addresses.len(),
    ensures
        lines_text(addresses, 0) == Seq::<char>::empty(),
        lines_text(addresses, n + 1).len() == lines_text(addresses, n).len() + addresses[n].len()
            + 1,
        lines_text(addresses, n + 1).last() == '\n',
        lines_text(addresses, n + 1).take(lines_text(addresses, n).len() as int) == lines_text(
            addresses,
            n,
        ),
        lines_text(addresses, n + 1).subrange(
            lines_text(addresses, n).len() as int,
            (lines_text(addresses, n).len() + addresses[n].len()) as int,
        ) == addresses[n],
{
    let before = lines_text(addresses, n);
    let after = lines_text(addresses, n + 1);
    assert(after == before + addresses[n] + seq!['\n']);
    assert(after.take(before.len() as int) =~= before);
    assert(after.subrange(before.len() as int, (before.len() + addresses[n].len()) as int)
        =~= addresses[n]);
}

/// The server is reached directly only where the settings say so, in lower or
/// upper case; otherwise over Tor.
pub proof fn law_tor_is_the_default(value: Option<Seq<char>>)
    ensures
        connection_of(None) is TOR,
        connection_of(Some("clearnet"@)) is CLEARNET,
        connection_of(Some("CLEARNET"@)) is CLEARNET,
        connection_of(value) is CLEARNET ==> value == Some("clearnet"@) || value == Some(
            "CLEARNET"@,
        ),
{
}

/// A file of one line is read whole where it is text, and not at all where it
/// is not.
pub proof fn law_single_line_is_read_whole(bytes: Seq<u8>)
    requires
        bytes.len() > 0,
        forall|i: int| 0 <= i < bytes.len() - 1 ==> #[trigger] bytes[i] != 10,
    ensures
        line_length(bytes) == bytes.len(),
        valid_utf8(bytes) ==> readable(bytes) == decode_utf8(bytes),
        !valid_utf8(bytes) ==> readable(bytes) == Seq::<char>::empty(),
    decreases bytes.len(),
{
    lemma_single_line(bytes);
    assert(bytes.take(line_length(bytes)) =~= bytes);
    assert(bytes.skip(line_length(bytes)).len() == 0);
    reveal_with_fuel(readable, 2);
    if valid_utf8(bytes) {
        assert(readable(bytes.skip(line_length(bytes))) =~= Seq::<char>::empty());
        assert(readable(bytes) =~= decode_utf8(bytes));
    }
}

proof fn lemma_single_line(bytes: Seq<u8>)
    requires
        bytes.len() > 0,
        forall|i: int| 0 <= i < bytes.len() - 1 ==> #[trigger] bytes[i] != 10,
    ensures
        line_length(bytes) == bytes.len(),
    decreases bytes.len(),
{
    let rest = bytes.drop_first();
    if bytes.len() > 1 {
        assert(bytes[0] != 10);
        assert forall|i: int| 0 <= i < rest.len() - 1 implies #[trigger] rest[i] != 10 by {
            assert(rest[i] == bytes[i + 1]);
        }
        lemma_single_line(rest);
    } else {
        assert(line_length(rest) == 0);
    }
}

} // verus!
