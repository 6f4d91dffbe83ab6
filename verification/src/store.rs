//! The in-memory store of captured notifications, and the ingestion logic.
//!
//! The store is a single append-only sequence: records are pushed at the
//! end, never reordered, mutated or evicted, and live until the process
//! exits. Ingestion builds one record per inbound request from the capture
//! second, the request headers and the parsed JSON body; listing hands the
//! whole sequence back unchanged.

use vstd::prelude::*;

use crate::decimal::dec_of;
use crate::decimal::dec_val;
use crate::decimal::lemma_dec_round_trip;
use crate::json::is_json_bytes;
use crate::json::parse_json;

verus! {

/// One captured webhook notification. Immutable once built.
pub struct CapturedNotification {
    /// Seconds since the Unix epoch at receipt, rendered in decimal.
    /// Assigned by the server, never by the caller.
    pub timestamp: String,
    /// The request headers as (name, value) pairs, in the order presented,
    /// with duplicates kept and nothing normalized.
    pub headers: Vec<(String, String)>,
    /// The parsed JSON body, carried through without interpretation.
    pub body: serde_json::Value,
}

/// The append-only sequence of every notification captured since process
/// start. Created empty; insertion order is arrival order.
pub struct Store {
    notes: Vec<CapturedNotification>,
}

impl View for Store {
    type V = Seq<CapturedNotification>;

    closed spec fn view(&self) -> Seq<CapturedNotification> {
        self.notes@
    }
}

/// Why an ingestion request was rejected.
#[derive(Debug, PartialEq, Eq, Structural)]
pub enum IngestError {
    /// The request body was not well-formed JSON.
    MalformedBody,
}

impl Store {
    /// An empty store: what the process starts with.
    pub fn new() -> (s: Store)
        ensures
            s@ == Seq::<CapturedNotification>::empty(),
            s@.len() == 0,
    {
        Store { notes: Vec::new() }
    }

    /// Append one record. Everything already stored keeps its position;
    /// the new record becomes the last element.
    pub fn capture(&mut self, n: CapturedNotification)
        ensures
            final(self)@ == old(self)@.push(n),
    {
        self.notes.push(n);
    }

    /// How many notifications have been captured.
    pub fn len(&self) -> (l: usize)
        ensures
            l == self@.len(),
    {
        self.notes.len()
    }

    /// The record at position `i` (position zero is the oldest).
    pub fn get(&self, i: usize) -> (n: &CapturedNotification)
        requires
            i < self@.len(),
        ensures
            *n == self@[i as int],
    {
        &self.notes[i]
    }

    /// Every captured notification, oldest first: what the listing endpoint
    /// returns. Takes the store immutably, so listing changes nothing and
    /// two consecutive listings see the same sequence.
    pub fn list(&self) -> (all: &Vec<CapturedNotification>)
        ensures
            all@ == self@,
    {
        &self.notes
    }
}

/// Build the record for one inbound notification: the capture second
/// rendered in decimal, the headers exactly as presented, the body
/// untouched.
pub fn build_notification(
    captured_at_secs: u64,
    headers: Vec<(String, String)>,
    body: serde_json::Value,
) -> (n: CapturedNotification)
    ensures
        n.timestamp@ == dec_of(captured_at_secs as nat),
        n.headers == headers,
        n.body == body,
{
    CapturedNotification {
        timestamp: crate::decimal::u64_to_decimal(captured_at_secs),
        headers,
        body,
    }
}

/// Record one notification: what the ingestion endpoint does once the
/// transport has supplied the capture second, the headers and the parsed
/// body. The record is appended after everything captured before it.
pub fn ingest(
    store: &mut Store,
    captured_at_secs: u64,
    headers: Vec<(String, String)>,
    body: serde_json::Value,
)
    ensures
        final(store)@ == old(store)@.push(final(store)@.last()),
        final(store)@.len() == old(store)@.len() + 1,
        final(store)@.last().timestamp@ == dec_of(captured_at_secs as nat),
        final(store)@.last().headers == headers,
        final(store)@.last().body == body,
{
    let n = build_notification(captured_at_secs, headers, body);
    store.capture(n);
}

/// Handle one raw ingestion body: parse it as JSON and record the
/// notification, or reject the request without touching the store. A body
/// that is not well-formed JSON is the one rejection this logic knows.
pub fn ingest_raw(
    store: &mut Store,
    captured_at_secs: u64,
    headers: Vec<(String, String)>,
    raw_body: &[u8],
) -> (r: Result<(), IngestError>)
    ensures
        r is Ok <==> is_json_bytes(raw_body@),
        r is Ok ==> final(store)@ == old(store)@.push(final(store)@.last())
            && final(store)@.len() == old(store)@.len() + 1
            && final(store)@.last().timestamp@ == dec_of(captured_at_secs as nat)
            && final(store)@.last().headers == headers,
        r is Err ==> final(store)@ == old(store)@
            && r == Result::<(), IngestError>::Err(IngestError::MalformedBody),
{
    match parse_json(raw_body) {
        Ok(body) => {
            ingest(store, captured_at_secs, headers, body);
            Ok(())
        },
        Err(_) => Err(IngestError::MalformedBody),
    }
}

/// The numeric reading of a record's timestamp.
pub open spec fn timestamp_val(n: CapturedNotification) -> nat {
    dec_val(n.timestamp@)
}

/// Timestamps never decrease along the store: a record captured earlier
/// carries a timestamp no later than any record captured after it.
pub open spec fn timestamps_nondecreasing(s: Seq<CapturedNotification>) -> bool {
    forall|i: int, j: int|
        0 <= i <= j < s.len() ==> timestamp_val(s[i]) <= timestamp_val(s[j])
}

/// A capture puts the submitted record, body included, at the end of the
/// sequence, after everything captured before it.
pub proof fn lemma_capture_appends(s: Seq<CapturedNotification>, n: CapturedNotification)
    ensures
        s.push(n).len() == s.len() + 1,
        s.push(n).last() == n,
        s.push(n).last().body == n.body,
{
}

/// A capture disturbs nothing already stored: every earlier record keeps
/// its position, so sequential submissions are listed in submission order.
pub proof fn lemma_capture_preserves_order(
    s: Seq<CapturedNotification>,
    n: CapturedNotification,
    i: int,
)
    requires
        0 <= i < s.len(),
    ensures
        s.push(n)[i] == s[i],
{
}

/// Weak timestamp monotonicity: the server's clock hands ingestion whole
/// seconds that never run backwards, so capturing at a second no earlier
/// than every second already recorded keeps the stored timestamps
/// nondecreasing (equal timestamps are permitted: the clock has one-second
/// resolution).
pub proof fn lemma_timestamps_monotonic(
    s: Seq<CapturedNotification>,
    n: CapturedNotification,
    secs: u64,
)
    requires
        timestamps_nondecreasing(s),
        n.timestamp@ == dec_of(secs as nat),
        forall|i: int| 0 <= i < s.len() ==> timestamp_val(s[i]) <= secs as nat,
    ensures
        timestamps_nondecreasing(s.push(n)),
{
    lemma_dec_round_trip(secs as nat);
    assert(timestamp_val(n) == secs as nat);
    assert forall|i: int, j: int|
        0 <= i <= j < s.push(n).len() implies timestamp_val(s.push(n)[i]) <= timestamp_val(
        s.push(n)[j],
    ) by {
        if j < s.len() {
            assert(s.push(n)[i] == s[i]);
            assert(s.push(n)[j] == s[j]);
        } else {
            assert(s.push(n)[j] == n);
            if i < s.len() {
                assert(s.push(n)[i] == s[i]);
            }
        }
    }
}

} // verus!
