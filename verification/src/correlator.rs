//! Correlates round-trip probes with the sentinel bytes that answer them.
//!
//! Each issued probe is a token in a FIFO queue; the inbound byte stream is
//! scanned one byte at a time, and every sentinel byte completes the oldest
//! pending probe. The transport is assumed to deliver responses in the order
//! the probes were sent, so positional matching needs no per-request id.

use vstd::prelude::*;

verus! {

/// The in-band byte that marks one probe response as fully arrived.
pub const SENTINEL: u8 = 0x84;

/// Length of the fixed filler payload sent with every probe.
pub const PROBE_PAYLOAD_LEN: usize = 253;

/// The filler block written to the channel for each probe. Its size is
/// chosen so the round trip exercises a full-size transfer rather than a
/// degenerate minimal one.
pub fn probe_payload() -> (payload: Vec<u8>)
    ensures
        payload@.len() == PROBE_PAYLOAD_LEN,
        forall|i: int| 0 <= i < payload@.len() ==> payload@[i] == 0u8,
{
    let mut payload: Vec<u8> = Vec::new();
    let mut i: usize = 0;
    while i < PROBE_PAYLOAD_LEN
        invariant
            i <= PROBE_PAYLOAD_LEN,
            payload@.len() == i,
            forall|k: int| 0 <= k < payload@.len() ==> payload@[k] == 0u8,
        decreases PROBE_PAYLOAD_LEN - i,
    {
        payload.push(0u8);
        i += 1;
    }
    payload
}

/// How many sentinel bytes a stream carries.
pub open spec fn sentinel_count(bytes: Seq<u8>) -> nat
    decreases bytes.len(),
{
    if bytes.len() == 0 {
        0
    } else {
        sentinel_count(bytes.drop_last()) + if bytes.last() == SENTINEL {
            1nat
        } else {
            0nat
        }
    }
}

/// The queue left over after scanning `bytes` against `pending`: each
/// sentinel byte, in stream order, removes the oldest entry still queued.
pub open spec fn pump_remaining(pending: Seq<u64>, bytes: Seq<u8>) -> Seq<u64>
    decreases bytes.len(),
{
    if bytes.len() == 0 {
        pending
    } else {
        let left = pump_remaining(pending, bytes.drop_last());
        if bytes.last() == SENTINEL && left.len() > 0 {
            left.drop_first()
        } else {
            left
        }
    }
}

/// The tokens completed by scanning `bytes` against `pending`, in the
/// order they complete: each sentinel byte completes the oldest entry
/// still queued; all other bytes are discarded.
pub open spec fn pump_completed(pending: Seq<u64>, bytes: Seq<u8>) -> Seq<u64>
    decreases bytes.len(),
{
    if bytes.len() == 0 {
        Seq::empty()
    } else {
        let done = pump_completed(pending, bytes.drop_last());
        let left = pump_remaining(pending, bytes.drop_last());
        if bytes.last() == SENTINEL && left.len() > 0 {
            done.push(left[0])
        } else {
            done
        }
    }
}

/// How many completions scanning `bytes` against `pending` produces: one
/// per sentinel byte, until the queue runs out.
pub open spec fn completion_count(pending: Seq<u64>, bytes: Seq<u8>) -> int {
    vstd::math::min(sentinel_count(bytes) as int, pending.len() as int)
}

/// FIFO of outstanding probes, each an opaque token handed back to the
/// caller when the probe was issued.
pub struct ResponseCorrelator {
    /// Outstanding probe tokens, oldest first.
    pub pending: Vec<u64>,
    /// Token the next issued probe will receive.
    pub next_token: u64,
}

/// Tokens strictly increase along the queue: queue position order is issue
/// order, and no token appears twice.
pub open spec fn tokens_increasing(tokens: Seq<u64>) -> bool {
    forall|i: int, j: int| 0 <= i < j < tokens.len() ==> tokens[i] < tokens[j]
}

impl ResponseCorrelator {
    /// Every pending token was issued (is below `next_token`) and the queue
    /// holds them in strictly increasing issue order.
    pub open spec fn wf(self) -> bool {
        &&& tokens_increasing(self.pending@)
        &&& forall|i: int| 0 <= i < self.pending@.len() ==> self.pending@[i] < self.next_token
    }

    /// An empty correlator with no probe outstanding.
    pub fn new() -> (c: Self)
        ensures
            c.wf(),
            c.pending@.len() == 0,
            c.next_token == 0,
    {
        ResponseCorrelator { pending: Vec::new(), next_token: 0 }
    }

    /// Registers one outstanding probe and returns its token. The caller
    /// then writes [`crate::command::Command::Echo`] with the fixed payload
    /// on the channel.
    pub fn issue_probe(&mut self) -> (token: u64)
        requires
            old(self).wf(),
            old(self).next_token < u64::MAX,
        ensures
            final(self).wf(),
            token == old(self).next_token,
            final(self).pending@ == old(self).pending@.push(token),
            final(self).next_token == old(self).next_token + 1,
    {
        let token = self.next_token;
        self.pending.push(token);
        self.next_token = self.next_token + 1;
        token
    }

    /// Consumes one inbound byte. A sentinel completes the oldest pending
    /// probe and yields its token; every other byte, and a sentinel with
    /// nothing pending, is discarded.
    pub fn pump_byte(&mut self, byte: u8) -> (completed: Option<u64>)
        ensures
            byte == SENTINEL && old(self).pending@.len() > 0 ==> {
                &&& completed == Some(old(self).pending@[0])
                &&& final(self).pending@ == old(self).pending@.drop_first()
            },
            !(byte == SENTINEL && old(self).pending@.len() > 0) ==> {
                &&& completed is None
                &&& final(self).pending@ == old(self).pending@
            },
            final(self).next_token == old(self).next_token,
            old(self).wf() ==> final(self).wf(),
    {
        if byte == SENTINEL && self.pending.len() > 0 {
            let token = self.pending.remove(0);
            Some(token)
        } else {
            None
        }
    }

    /// Consumes a whole inbound buffer, byte by byte, and returns the
    /// completed tokens in completion order.
    pub fn pump(&mut self, bytes: &Vec<u8>) -> (completed: Vec<u64>)
        ensures
            completed@ == pump_completed(old(self).pending@, bytes@),
            final(self).pending@ == pump_remaining(old(self).pending@, bytes@),
            final(self).next_token == old(self).next_token,
            old(self).wf() ==> final(self).wf(),
    {
        let mut completed: Vec<u64> = Vec::new();
        let mut i: usize = 0;
        while i < bytes.len()
            invariant
                i <= bytes@.len(),
                completed@ == pump_completed(old(self).pending@, bytes@.take(i as int)),
                self.pending@ == pump_remaining(old(self).pending@, bytes@.take(i as int)),
                self.next_token == old(self).next_token,
                old(self).wf() ==> self.wf(),
            decreases bytes@.len() - i,
        {
            let b = bytes[i];
            proof {
                assert(bytes@.take(i as int + 1).drop_last() =~= bytes@.take(i as int));
                assert(bytes@.take(i as int + 1).last() == bytes@[i as int]);
            }
            match self.pump_byte(b) {
                Some(token) => completed.push(token),
                None => {},
            }
            i += 1;
        }
        proof {
            assert(bytes@.take(bytes@.len() as int) =~= bytes@);
        }
        completed
    }
}

/// Scanning a byte stream completes the oldest pending probes — one per
/// sentinel byte until the queue runs out — in queue order, and leaves the
/// rest queued in order.
pub proof fn lemma_pump_closed_form(pending: Seq<u64>, bytes: Seq<u8>)
    ensures
        pump_completed(pending, bytes) =~= pending.take(completion_count(pending, bytes)),
        pump_remaining(pending, bytes) =~= pending.skip(completion_count(pending, bytes)),
    decreases bytes.len(),
{
    if bytes.len() == 0 {
    } else {
        let rest = bytes.drop_last();
        lemma_pump_closed_form(pending, rest);
        let k = completion_count(pending, rest);
        let left = pump_remaining(pending, rest);
        if bytes.last() == SENTINEL && left.len() > 0 {
            assert(k < pending.len());
            assert(left[0] == pending[k]);
            assert(completion_count(pending, bytes) == k + 1);
            assert(pending.take(k).push(pending[k]) =~= pending.take(k + 1));
            assert(pending.skip(k).drop_first() =~= pending.skip(k + 1));
        }
    }
}

/// With exactly as many sentinel bytes delivered as probes outstanding —
/// in any mixture with non-sentinel bytes — every pending probe completes,
/// in the order the probes were issued, each exactly once, and none
/// remains pending.
pub proof fn lemma_full_delivery(pending: Seq<u64>, bytes: Seq<u8>)
    requires
        tokens_increasing(pending),
        sentinel_count(bytes) == pending.len(),
    ensures
        pump_completed(pending, bytes) =~= pending,
        pump_remaining(pending, bytes) =~= Seq::<u64>::empty(),
        tokens_increasing(pump_completed(pending, bytes)),
{
    lemma_pump_closed_form(pending, bytes);
    assert(pending.take(pending.len() as int) =~= pending);
}

/// With fewer sentinel bytes delivered than probes outstanding, exactly
/// that many probes complete — the oldest ones, in the order they were
/// issued — and the remainder stay pending, still in order.
pub proof fn lemma_partial_delivery(pending: Seq<u64>, bytes: Seq<u8>)
    requires
        sentinel_count(bytes) < pending.len(),
    ensures
        pump_completed(pending, bytes) =~= pending.take(sentinel_count(bytes) as int),
        pump_remaining(pending, bytes) =~= pending.skip(sentinel_count(bytes) as int),
        pump_completed(pending, bytes).len() == sentinel_count(bytes),
        pump_remaining(pending, bytes).len() == pending.len() - sentinel_count(bytes),
{
    lemma_pump_closed_form(pending, bytes);
}

} // verus!
