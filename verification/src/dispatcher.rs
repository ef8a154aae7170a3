//! The dispatcher: a bounded in-memory queue between the hook adapter and
//! the external sink.
//!
//! `submit` never blocks and never grows the buffer past its capacity: when
//! the buffer is full the oldest unsent record is dropped and counted. A
//! flush worker outside the library drains the buffer with `take_batch`,
//! attempts the send, and reports the outcome back with `note_sent` or
//! `note_send_failed`; delivery is best effort, at most once.

use vstd::prelude::*;

use crate::event::{EventRecord, RecordModel};

verus! {

/// A read-only snapshot of the dispatcher's counters.
#[derive(Clone, Copy, PartialEq, Eq, Structural, Debug)]
pub struct DispatchStats {
    /// Records handed to the sink in batches whose send succeeded.
    pub sent_count: u64,
    /// Records dropped because the buffer was full when they arrived.
    pub dropped_count: u64,
    /// Batches discarded because their send failed.
    pub error_count: u64,
}

/// `x + 1`, stopping at the top of the counter's range.
pub open spec fn sat_inc(x: u64) -> u64 {
    if x == u64::MAX {
        x
    } else {
        (x + 1) as u64
    }
}

/// `x + n`, stopping at the top of the counter's range.
pub open spec fn sat_add(x: u64, n: u64) -> u64 {
    if x + n > u64::MAX {
        u64::MAX
    } else {
        (x + n) as u64
    }
}

/// The buffer contents after one `submit` of `m` into a buffer `buf` of
/// capacity `cap`: appended when there is room, else the oldest record
/// makes way for it.
pub open spec fn spec_submit_buf(buf: Seq<RecordModel>, cap: int, m: RecordModel) -> Seq<
    RecordModel,
> {
    if buf.len() < cap {
        buf.push(m)
    } else {
        buf.subrange(1, buf.len() as int).push(m)
    }
}

/// The drop counter after one `submit` into a buffer `buf` of capacity
/// `cap` whose counter stood at `dropped`.
pub open spec fn spec_submit_dropped(buf: Seq<RecordModel>, cap: int, dropped: u64) -> u64 {
    if buf.len() < cap {
        dropped
    } else {
        sat_inc(dropped)
    }
}

/// The buffer contents after a whole stream of submissions, oldest first,
/// with no flush in between.
pub open spec fn spec_submit_all(
    buf: Seq<RecordModel>,
    cap: int,
    recs: Seq<RecordModel>,
) -> Seq<RecordModel>
    decreases recs.len(),
{
    if recs.len() == 0 {
        buf
    } else {
        spec_submit_all(
            spec_submit_buf(buf, cap, recs[0]),
            cap,
            recs.subrange(1, recs.len() as int),
        )
    }
}

/// Law: however long the sink stalls, the buffer holds exactly the newest
/// records of the submitted stream, in submission order, and never more
/// than its capacity: dropping always claims the oldest.
pub proof fn lemma_submit_all_keeps_newest(buf: Seq<RecordModel>, cap: int, recs: Seq<RecordModel>)
    requires
        1 <= cap,
        buf.len() <= cap,
    ensures
        ({
            let all = buf + recs;
            let start: int = if all.len() <= cap {
                0
            } else {
                all.len() - cap
            };
            spec_submit_all(buf, cap, recs) == all.subrange(start, all.len() as int)
        }),
    decreases recs.len(),
{
    let all = buf + recs;
    let start: int = if all.len() <= cap {
        0
    } else {
        all.len() - cap
    };
    if recs.len() == 0 {
        assert(all =~= buf);
        assert(all.subrange(0, all.len() as int) =~= all);
    } else {
        let first = recs[0];
        let rest = recs.subrange(1, recs.len() as int);
        let b1 = spec_submit_buf(buf, cap, first);
        lemma_submit_all_keeps_newest(b1, cap, rest);
        let all1 = b1 + rest;
        let start1: int = if all1.len() <= cap {
            0
        } else {
            all1.len() - cap
        };
        if buf.len() < cap {
            assert(all1 =~= all);
            assert(spec_submit_all(buf, cap, recs) == all.subrange(start, all.len() as int));
        } else {
            assert(all1 =~= all.subrange(1, all.len() as int));
            assert(spec_submit_all(buf, cap, recs) == all1.subrange(start1, all1.len() as int));
            assert(all1.subrange(start1, all1.len() as int) =~= all.subrange(
                start,
                all.len() as int,
            ));
        }
    }
}

/// Folding one more submission onto a whole stream of submissions.
pub proof fn lemma_submit_all_snoc(
    buf: Seq<RecordModel>,
    cap: int,
    recs: Seq<RecordModel>,
    m: RecordModel,
)
    ensures
        spec_submit_all(buf, cap, recs.push(m)) == spec_submit_buf(
            spec_submit_all(buf, cap, recs),
            cap,
            m,
        ),
    decreases recs.len(),
{
    reveal_with_fuel(spec_submit_all, 3);
    if recs.len() == 0 {
        assert(recs.push(m)[0] == m);
        assert(recs.push(m).subrange(1, 1) =~= Seq::<RecordModel>::empty());
    } else {
        let first = recs[0];
        assert(recs.push(m)[0] == first);
        assert(recs.push(m).subrange(1, recs.len() as int + 1) =~= recs.subrange(
            1,
            recs.len() as int,
        ).push(m));
        lemma_submit_all_snoc(
            spec_submit_buf(buf, cap, first),
            cap,
            recs.subrange(1, recs.len() as int),
            m,
        );
    }
}

/// The bounded record queue with its delivery counters.
pub struct Dispatcher {
    buffer: Vec<EventRecord>,
    capacity: usize,
    sent_count: u64,
    dropped_count: u64,
    error_count: u64,
}

impl Dispatcher {
    /// The buffered records, oldest first, as their models.
    pub closed spec fn buf(&self) -> Seq<RecordModel> {
        self.buffer@.map_values(|r: EventRecord| r@)
    }

    /// The capacity the queue was created with.
    pub closed spec fn cap(&self) -> int {
        self.capacity as int
    }

    pub closed spec fn sent(&self) -> u64 {
        self.sent_count
    }

    pub closed spec fn dropped(&self) -> u64 {
        self.dropped_count
    }

    pub closed spec fn errors(&self) -> u64 {
        self.error_count
    }

    /// The queue never outgrows its capacity, which is at least one.
    pub closed spec fn wf(&self) -> bool {
        1 <= self.capacity && self.buffer@.len() <= self.capacity
    }

    /// What well-formedness lets callers rely on: a positive capacity that
    /// the buffer never exceeds.
    pub proof fn lemma_wf_bounds(&self)
        requires
            self.wf(),
        ensures
            1 <= self.cap(),
            self.buf().len() <= self.cap(),
    {
    }

    /// A fresh dispatcher: empty buffer, zeroed counters. A capacity of
    /// zero is raised to one so that the queue can always hold the newest
    /// record.
    pub fn new(capacity: usize) -> (d: Dispatcher)
        ensures
            d.wf(),
            d.cap() == if capacity == 0 { 1int } else { capacity as int },
            d.buf() == Seq::<RecordModel>::empty(),
            d.sent() == 0u64 && d.dropped() == 0u64 && d.errors() == 0u64,
    {
        let cap: usize = if capacity == 0 {
            1
        } else {
            capacity
        };
        let d = Dispatcher {
            buffer: Vec::new(),
            capacity: cap,
            sent_count: 0,
            dropped_count: 0,
            error_count: 0,
        };
        proof {
            assert(d.buf() =~= Seq::<RecordModel>::empty());
        }
        d
    }

    /// Non-blocking enqueue: appends the record, dropping and counting the
    /// oldest one first when the buffer is full. Never touches the other
    /// counters.
    pub fn submit(&mut self, rec: EventRecord)
        requires
            old(self).wf(),
        ensures
            final(self).wf(),
            final(self).cap() == old(self).cap(),
            final(self).sent() == old(self).sent(),
            final(self).errors() == old(self).errors(),
            final(self).buf() == spec_submit_buf(old(self).buf(), old(self).cap(), rec@),
            final(self).dropped() == spec_submit_dropped(old(self).buf(), old(self).cap(), old(self).dropped()),
    {
        if self.buffer.len() == self.capacity {
            let ghost before = self.buffer@;
            self.buffer.remove(0);
            proof {
                assert(self.buf() =~= before.map_values(|r: EventRecord| r@).subrange(
                    1,
                    before.len() as int,
                ));
            }
            if self.dropped_count < u64::MAX {
                self.dropped_count = self.dropped_count + 1;
            }
        }
        let ghost mid = self.buffer@;
        self.buffer.push(rec);
        proof {
            assert(self.buf() =~= mid.map_values(|r: EventRecord| r@).push(rec@));
            assert(self.buf() =~= spec_submit_buf(old(self).buf(), old(self).cap(), rec@));
        }
    }

    /// Removes and returns everything buffered, oldest first, for one send
    /// attempt. Counters are untouched: the outcome of the attempt is
    /// reported separately.
    pub fn take_batch(&mut self) -> (batch: Vec<EventRecord>)
        requires
            old(self).wf(),
        ensures
            final(self).wf(),
            final(self).cap() == old(self).cap(),
            final(self).sent() == old(self).sent(),
            final(self).dropped() == old(self).dropped(),
            final(self).errors() == old(self).errors(),
            batch@.map_values(|r: EventRecord| r@) == old(self).buf(),
            final(self).buf() == Seq::<RecordModel>::empty(),
    {
        let mut batch: Vec<EventRecord> = Vec::new();
        core::mem::swap(&mut batch, &mut self.buffer);
        proof {
            assert(self.buf() =~= Seq::<RecordModel>::empty());
        }
        batch
    }

    /// Records that a batch of `n` records reached the sink.
    pub fn note_sent(&mut self, n: usize)
        requires
            old(self).wf(),
        ensures
            final(self).wf(),
            final(self).cap() == old(self).cap(),
            final(self).buf() == old(self).buf(),
            final(self).dropped() == old(self).dropped(),
            final(self).errors() == old(self).errors(),
            final(self).sent() == sat_add(old(self).sent(), n as u64),
    {
        if self.sent_count > u64::MAX - n as u64 {
            self.sent_count = u64::MAX;
        } else {
            self.sent_count = self.sent_count + n as u64;
        }
    }

    /// Records that a batch was discarded after its bounded retries failed.
    pub fn note_send_failed(&mut self)
        requires
            old(self).wf(),
        ensures
            final(self).wf(),
            final(self).cap() == old(self).cap(),
            final(self).buf() == old(self).buf(),
            final(self).dropped() == old(self).dropped(),
            final(self).sent() == old(self).sent(),
            final(self).errors() == sat_inc(old(self).errors()),
    {
        if self.error_count < u64::MAX {
            self.error_count = self.error_count + 1;
        }
    }

    /// How many records are waiting to be flushed.
    pub fn pending(&self) -> (n: usize)
        ensures
            n == self.buf().len(),
    {
        self.buffer.len()
    }

    /// A snapshot of the counters.
    pub fn stats(&self) -> (s: DispatchStats)
        ensures
            s.sent_count == self.sent(),
            s.dropped_count == self.dropped(),
            s.error_count == self.errors(),
    {
        DispatchStats {
            sent_count: self.sent_count,
            dropped_count: self.dropped_count,
            error_count: self.error_count,
        }
    }
}

/// Whether the flush worker is due: there is something pending and either
/// the count-based trigger or the time-based trigger has fired.
pub fn flush_due(pending: usize, count_trigger: usize, elapsed_ns: u64, interval_ns: u64) -> (b:
    bool)
    ensures
        b == (pending > 0 && (pending >= count_trigger || elapsed_ns >= interval_ns)),
{
    pending > 0 && (pending >= count_trigger || elapsed_ns >= interval_ns)
}

/// The delay before retry number `attempt` (counted from zero): the base
/// delay doubled each attempt, never past `cap_ns`.
pub open spec fn spec_backoff_ns(attempt: nat, base_ns: u64, cap_ns: u64) -> u64
    decreases attempt,
{
    if base_ns >= cap_ns {
        cap_ns
    } else if attempt == 0 {
        base_ns
    } else {
        let prev = spec_backoff_ns((attempt - 1) as nat, base_ns, cap_ns);
        if prev >= cap_ns / 2 {
            cap_ns
        } else {
            (prev * 2) as u64
        }
    }
}

/// Executable counterpart of `spec_backoff_ns`: exponential backoff with a
/// hard ceiling, so a retry loop always sleeps a bounded time.
pub fn retry_backoff_ns(attempt: u32, base_ns: u64, cap_ns: u64) -> (d: u64)
    ensures
        d == spec_backoff_ns(attempt as nat, base_ns, cap_ns),
        d <= cap_ns || d == base_ns,
{
    if base_ns >= cap_ns {
        return cap_ns;
    }
    let mut d: u64 = base_ns;
    let mut i: u32 = 0;
    while i < attempt
        invariant
            i <= attempt,
            base_ns < cap_ns,
            d == spec_backoff_ns(i as nat, base_ns, cap_ns),
            d <= cap_ns,
        decreases attempt - i,
    {
        if d >= cap_ns / 2 {
            d = cap_ns;
        } else {
            d = d * 2;
        }
        i = i + 1;
    }
    d
}

} // verus!
