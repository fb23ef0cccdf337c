//! The texts that tell how far swaps and their recovery have come.

use crate::chain::Txid;
use crate::maker::rpc::cookie::{digit_text, hex_text};
use crate::maker::swap_tracker::{MakerRecoveryState, MakerSwapRecord, MakerSwapTracker};
use crate::protocol::common_messages::ProtocolVersion;
use crate::settings::{decimal, decimal_text};
use vstd::prelude::*;
use vstd::string::StringExecFns;

verus! {

/// The first eight digits of the text of a transaction id.
pub open spec fn short_text(txid: Txid) -> Seq<char> {
    hex_text(txid@.reverse()).subrange(0, 8)
}

/// The first eight digits of the text of a transaction id.
pub fn short_txid(txid: &Txid) -> (r: String)
    ensures
        r@ == short_text(*txid),
{
    let mut out = String::new();
    let mut i: usize = 0;
    while i < 4
        invariant
            i <= 4,
            out@ == hex_text(txid@.reverse()).subrange(0, 2 * i),
        decreases 4 - i,
    {
        let b = txid[31 - i];
        out.append(digit_text(b / 16));
        out.append(digit_text(b % 16));
        i += 1;
        assert(out@ =~= hex_text(txid@.reverse()).subrange(0, 2 * i));
    }
    out
}

/// A list of transaction ids: the short text of each in quotes, with a comma
/// and a space between two.
pub open spec fn listed(txids: Seq<Txid>) -> Seq<char>
    decreases txids.len(),
{
    if txids.len() == 0 {
        seq![]
    } else {
        let last = "\""@ + short_text(txids.last()) + "\""@;
        if txids.len() == 1 {
            last
        } else {
            listed(txids.drop_last()) + ", "@ + last
        }
    }
}

/// Truncates each transaction id to its first eight digits, for a compact
/// list.
pub fn short_txids(txids: &Vec<Txid>) -> (r: String)
    ensures
        r@ == "["@ + listed(txids@) + "]"@,
{
    let mut out = "[".to_owned();
    let mut i: usize = 0;
    assert(listed(txids@.subrange(0, 0)) =~= seq![]);
    assert(out@ =~= "["@ + listed(txids@.subrange(0, 0)));
    while i < txids.len()
        invariant
            i <= txids@.len(),
            out@ == "["@ + listed(txids@.subrange(0, i as int)),
        decreases txids@.len() - i,
    {
        let ghost before = out@;
        if i > 0 {
            out.append(", ");
        }
        out.append("\"");
        out.append(short_txid(&txids[i]).as_str());
        out.append("\"");
        proof {
            let next = txids@.subrange(0, i + 1);
            assert(next.drop_last() =~= txids@.subrange(0, i as int));
            assert(next.last() == txids@[i as int]);
            let last = "\""@ + short_text(next.last()) + "\""@;
            if i == 0 {
                assert(listed(txids@.subrange(0, 0)) =~= seq![]);
                assert(listed(next) == last);
                assert(out@ =~= "["@ + last);
            } else {
                assert(listed(next) == listed(next.drop_last()) + ", "@ + last);
                assert(out@ =~= "["@ + (listed(next.drop_last()) + ", "@ + last));
            }
        }
        i += 1;
    }
    assert(txids@.subrange(0, txids@.len() as int) =~= txids@);
    out.append("]");
    out
}

/// A labelled list of transaction ids; nothing where there are none.
pub open spec fn part(label: Seq<char>, txids: Seq<Txid>) -> Seq<char> {
    if txids.len() == 0 {
        seq![]
    } else {
        label + ("["@ + listed(txids) + "]"@)
    }
}

/// Appends a labelled list of transaction ids, where there are any.
fn append_part(out: &mut String, label: &str, txids: &Vec<Txid>)
    ensures
        final(out)@ == old(out)@ + part(label@, txids@),
{
    if txids.len() > 0 {
        out.append(label);
        out.append(short_txids(txids).as_str());
        assert(out@ =~= old(out)@ + part(label@, txids@));
    } else {
        assert(out@ =~= old(out)@ + part(label@, txids@));
    }
}

/// The text of a recovery state: the phase and the transactions that made it.
pub open spec fn recovery_text(state: MakerRecoveryState) -> Seq<char> {
    "phase="@ + state.phase.name()@ + part(" in_swept="@, state.incoming_swept@) + part(
        " out_recovered="@,
        state.outgoing_recovered@,
    ) + part(" out_discarded="@, state.outgoing_discarded@)
}

impl MakerRecoveryState {
    /// The text of the state.
    pub fn text(&self) -> (r: String)
        ensures
            r@ == recovery_text(*self),
    {
        let mut out = "phase=".to_owned();
        out.append(self.phase.as_text());
        append_part(&mut out, " in_swept=", &self.incoming_swept);
        append_part(&mut out, " out_recovered=", &self.outgoing_recovered);
        append_part(&mut out, " out_discarded=", &self.outgoing_discarded);
        out
    }
}

/// The name of a protocol.
pub open spec fn protocol_name(protocol: ProtocolVersion) -> &'static str {
    match protocol {
        ProtocolVersion::Legacy => "Legacy",
        ProtocolVersion::Taproot => "Taproot",
    }
}

/// The name of a protocol.
fn protocol_text(protocol: ProtocolVersion) -> (r: &'static str)
    ensures
        r == protocol_name(protocol),
{
    match protocol {
        ProtocolVersion::Legacy => "Legacy",
        ProtocolVersion::Taproot => "Taproot",
    }
}

/// The text of a truth value.
pub open spec fn truth_name(b: bool) -> &'static str {
    if b {
        "true"
    } else {
        "false"
    }
}

/// The text of a truth value.
fn truth_text(b: bool) -> (r: &'static str)
    ensures
        r == truth_name(b),
{
    if b {
        "true"
    } else {
        "false"
    }
}

/// The text of a record: what the swap is on one line, its recovery on the
/// next.
pub open spec fn record_text(record: MakerSwapRecord) -> Seq<char> {
    "["@ + record.swap_id@ + "] phase="@ + record.phase.name()@ + " proto="@ + protocol_name(
        record.protocol,
    )@ + " amt="@ + decimal(record.swap_amount_sat as nat) + " in="@ + decimal(
        record.incoming_count as nat,
    ) + " out="@ + decimal(record.outgoing_count as nat) + " funded="@ + truth_name(
        record.funding_broadcast,
    )@ + "\n  recovery: "@ + recovery_text(record.recovery)
}

impl MakerSwapRecord {
    /// The text of the record.
    pub fn text(&self) -> (r: String)
        ensures
            r@ == record_text(*self),
    {
        let mut out = "[".to_owned();
        out.append(self.swap_id.as_str());
        out.append("] phase=");
        out.append(self.phase.as_text());
        out.append(" proto=");
        out.append(protocol_text(self.protocol));
        out.append(" amt=");
        out.append(decimal_text(self.swap_amount_sat).as_str());
        out.append(" in=");
        out.append(decimal_text(self.incoming_count as u64).as_str());
        out.append(" out=");
        out.append(decimal_text(self.outgoing_count as u64).as_str());
        out.append(" funded=");
        out.append(truth_text(self.funding_broadcast));
        out.append("\n  recovery: ");
        out.append(self.recovery.text().as_str());
        out
    }
}

/// The texts of the first `n` records, each on lines of its own.
pub open spec fn records_text(entries: Seq<(String, MakerSwapRecord)>, n: int) -> Seq<char>
    decreases n,
{
    if n <= 0 {
        seq![]
    } else {
        let last = "[MakerSwapTracker] "@ + record_text(entries[n - 1].1);
        if n == 1 {
            last
        } else {
            records_text(entries, n - 1) + "\n"@ + last
        }
    }
}

impl MakerSwapTracker {
    /// The text of all records, in the order in which they were first saved.
    pub fn text(&self) -> (r: String)
        requires
            self.wf(),
        ensures
            r@ == if self.entries().len() == 0 {
                "[MakerSwapTracker] (empty)"@
            } else {
                records_text(self.entries(), self.entries().len() as int)
            },
    {
        let records = self.all_records();
        if records.len() == 0 {
            return "[MakerSwapTracker] (empty)".to_owned();
        }
        let mut out = String::new();
        let mut i: usize = 0;
        assert(out@ =~= records_text(self.entries(), 0));
        while i < records.len()
            invariant
                i <= records@.len(),
                records@.len() == self.entries().len(),
                forall|j: int| 0 <= j < records@.len() ==> *records@[j] == self.entries()[j].1,
                out@ == records_text(self.entries(), i as int),
            decreases records@.len() - i,
        {
            if i > 0 {
                out.append("\n");
            }
            out.append("[MakerSwapTracker] ");
            out.append(records[i].text().as_str());
            i += 1;
            assert(out@ =~= records_text(self.entries(), i as int));
        }
        out
    }
}

/// Records that differ in one number alone differ in their text in that number
/// alone, which stands behind its own label.
pub proof fn law_numbers_stand_behind_their_labels(
    record: MakerSwapRecord,
    amount: u64,
    incoming: usize,
    outgoing: usize,
)
    ensures
        ({
            let before = "["@ + record.swap_id@ + "] phase="@ + record.phase.name()@ + " proto="@
                + protocol_name(record.protocol)@;
            let after = " funded="@ + truth_name(record.funding_broadcast)@ + "\n  recovery: "@
                + recovery_text(record.recovery);
            record_text(
                MakerSwapRecord {
                    swap_amount_sat: amount,
                    incoming_count: incoming,
                    outgoing_count: outgoing,
                    ..record
                },
            ) == before + (" amt="@ + decimal(amount as nat)) + (" in="@ + decimal(
                incoming as nat,
            )) + (" out="@ + decimal(outgoing as nat)) + after
        }),
        protocol_name(ProtocolVersion::Legacy) == "Legacy",
        protocol_name(ProtocolVersion::Taproot) == "Taproot",
        truth_name(true) == "true",
        truth_name(false) == "false",
{
    let before = "["@ + record.swap_id@ + "] phase="@ + record.phase.name()@ + " proto="@
        + protocol_name(record.protocol)@;
    let after = " funded="@ + truth_name(record.funding_broadcast)@ + "\n  recovery: "@
        + recovery_text(record.recovery);
    let changed = MakerSwapRecord {
        swap_amount_sat: amount,
        incoming_count: incoming,
        outgoing_count: outgoing,
        ..record
    };
    assert(record_text(changed) =~= before + (" amt="@ + decimal(amount as nat)) + (" in="@
        + decimal(incoming as nat)) + (" out="@ + decimal(outgoing as nat)) + after);
}

/// Each kind of transaction of a recovery is listed behind its own label, and a
/// kind without any is left out.
pub proof fn law_transactions_stand_behind_their_labels(state: MakerRecoveryState)
    ensures
        state.incoming_swept@.len() == 0 && state.outgoing_recovered@.len() == 0
            && state.outgoing_discarded@.len() == 0 ==> recovery_text(state) == "phase="@
            + state.phase.name()@,
        state.incoming_swept@.len() > 0 && state.outgoing_recovered@.len() == 0
            && state.outgoing_discarded@.len() == 0 ==> recovery_text(state) == "phase="@
            + state.phase.name()@ + (" in_swept="@ + ("["@ + listed(state.incoming_swept@) + "]"@)),
        state.incoming_swept@.len() == 0 && state.outgoing_recovered@.len() > 0
            && state.outgoing_discarded@.len() == 0 ==> recovery_text(state) == "phase="@
            + state.phase.name()@ + (" out_recovered="@ + ("["@ + listed(state.outgoing_recovered@)
            + "]"@)),
        state.incoming_swept@.len() == 0 && state.outgoing_recovered@.len() == 0
            && state.outgoing_discarded@.len() > 0 ==> recovery_text(state) == "phase="@
            + state.phase.name()@ + (" out_discarded="@ + ("["@ + listed(state.outgoing_discarded@)
            + "]"@)),
{
    let swept = part(" in_swept="@, state.incoming_swept@);
    let recovered = part(" out_recovered="@, state.outgoing_recovered@);
    let discarded = part(" out_discarded="@, state.outgoing_discarded@);
    let start = "phase="@ + state.phase.name()@;
    assert(recovery_text(state) == start + swept + recovered + discarded);
    if swept.len() == 0 && recovered.len() == 0 {
        assert(start + swept + recovered + discarded =~= start + discarded);
    }
    if swept.len() == 0 && discarded.len() == 0 {
        assert(start + swept + recovered + discarded =~= start + recovered);
    }
    if recovered.len() == 0 && discarded.len() == 0 {
        assert(start + swept + recovered + discarded =~= start + swept);
    }
    if swept.len() == 0 && recovered.len() == 0 && discarded.len() == 0 {
        assert(start + discarded =~= start);
    }
}

/// One more transaction is appended to a list behind a comma, in quotes, by the
/// first eight digits of its id; the list of one holds nothing else.
pub proof fn law_lists_grow_at_the_end(txids: Seq<Txid>, txid: Txid)
    ensures
        listed(seq![txid]) == "\""@ + hex_text(txid@.reverse()).subrange(0, 8) + "\""@,
        txids.len() > 0 ==> listed(txids.push(txid)) == listed(txids) + ", "@ + listed(seq![txid]),
{
    assert(txids.push(txid).drop_last() =~= txids);
    assert(seq![txid].last() == txid);
}

/// Each record stands on lines of its own, in the order of the records.
pub proof fn law_records_are_told_in_order(entries: Seq<(String, MakerSwapRecord)>, n: int)
    requires
        1 <= n < entries.len(),
    ensures
        records_text(entries, 1) == "[MakerSwapTracker] "@ + record_text(entries[0].1),
        records_text(entries, n + 1) == records_text(entries, n) + "\n"@ + (
        "[MakerSwapTracker] "@ + record_text(entries[n].1)),
{
}

} // verus!
