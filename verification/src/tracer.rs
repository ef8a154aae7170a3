//! The tracer: the pipeline behind the hook entry point.
//!
//! One call of `on_event` is one host callback: the raw values are turned
//! into an event record, the sampler judges it, and an accepted record goes
//! into the dispatcher's bounded buffer — synchronously, without blocking,
//! and without any path that could raise back into the host. A ghost
//! history of every record built, and of every record accepted, ties a run
//! of the tracer to the specification-level stream functions, on which the
//! ordering laws below are proved.

use vstd::prelude::*;

use crate::adapter::{
    make_record, parse_event_kind, spec_parse_kind, spec_payload_model, spec_record_model,
};
use crate::config::TracerConfig;
use crate::dispatcher::{
    lemma_submit_all_keeps_newest, lemma_submit_all_snoc, sat_add, sat_inc, spec_submit_all,
    spec_submit_buf, spec_submit_dropped, DispatchStats, Dispatcher,
};
use crate::event::{EventRecord, RecordModel};
use crate::sampler::SamplerConfig;

verus! {

/// What one hook callback came to.
#[derive(Clone, Copy, PartialEq, Eq, Structural, Debug)]
pub enum HookOutcome {
    /// The tracer is not active; the event was not even recorded.
    Inactive,
    /// The host named an event kind the tracer does not handle.
    Unrecognized,
    /// The record was built but the sampler rejected its frame.
    Rejected,
    /// The record was handed to the dispatcher.
    Forwarded,
}

/// The accept decision of one configuration, as a predicate on records.
pub open spec fn accepts_pred(cfg: SamplerConfig) -> spec_fn(RecordModel) -> bool {
    |r: RecordModel| cfg.spec_accepts(r)
}

/// Membership in one frame, as a predicate on records.
pub open spec fn frame_pred(frame: u64) -> spec_fn(RecordModel) -> bool {
    |r: RecordModel| r.frame_id == frame
}

/// Membership in one frame and acceptance, together.
pub open spec fn frame_accepts_pred(cfg: SamplerConfig, frame: u64) -> spec_fn(
    RecordModel,
) -> bool {
    |r: RecordModel| r.frame_id == frame && cfg.spec_accepts(r)
}

/// The records of `recs` that the sampler forwards, in input order.
pub open spec fn forwarded_stream(cfg: SamplerConfig, recs: Seq<RecordModel>) -> Seq<RecordModel> {
    recs.filter(accepts_pred(cfg))
}

/// The records of `recs` that belong to one frame, in input order.
pub open spec fn frame_events(recs: Seq<RecordModel>, frame: u64) -> Seq<RecordModel> {
    recs.filter(frame_pred(frame))
}

/// Filtering one appended element: it stays exactly when the predicate
/// holds of it, and the rest of the filtered sequence is untouched.
proof fn lemma_filter_push<A>(s: Seq<A>, pred: spec_fn(A) -> bool, x: A)
    ensures
        s.push(x).filter(pred) == (if pred(x) {
            s.filter(pred).push(x)
        } else {
            s.filter(pred)
        }),
{
    reveal(Seq::filter);
    assert(s.push(x).drop_last() =~= s);
    assert(s.push(x).last() == x);
}

/// Two filters in a row are one filter by the conjunction.
proof fn lemma_filter_compose<A>(
    s: Seq<A>,
    p: spec_fn(A) -> bool,
    q: spec_fn(A) -> bool,
    pq: spec_fn(A) -> bool,
)
    requires
        forall|x: A| #[trigger] pq(x) == (p(x) && q(x)),
    ensures
        s.filter(p).filter(q) == s.filter(pq),
    decreases s.len(),
{
    reveal(Seq::filter);
    if s.len() == 0 {
        assert(s.filter(p).filter(q) =~= Seq::<A>::empty());
        assert(s.filter(pq) =~= Seq::<A>::empty());
    } else {
        let butlast = s.drop_last();
        let x = s.last();
        lemma_filter_compose(butlast, p, q, pq);
        assert(s =~= butlast.push(x));
        lemma_filter_push(butlast, p, x);
        lemma_filter_push(butlast, pq, x);
        if p(x) {
            lemma_filter_push(butlast.filter(p), q, x);
        }
    }
}

/// Law: forwarding preserves the input order of events within every frame.
/// Restricting the forwarded stream to one frame is the same as forwarding
/// that frame's own events: the sampler only ever removes whole records,
/// it never reorders or duplicates them.
pub proof fn lemma_forward_order_per_frame(cfg: SamplerConfig, recs: Seq<RecordModel>, frame: u64)
    ensures
        frame_events(forwarded_stream(cfg, recs), frame) == forwarded_stream(
            cfg,
            frame_events(recs, frame),
        ),
{
    assert(forall|r: RecordModel| #[trigger]
        frame_accepts_pred(cfg, frame)(r) == (accepts_pred(cfg)(r) && frame_pred(frame)(r)));
    assert(forall|r: RecordModel| #[trigger]
        frame_accepts_pred(cfg, frame)(r) == (frame_pred(frame)(r) && accepts_pred(cfg)(r)));
    lemma_filter_compose(recs, accepts_pred(cfg), frame_pred(frame), frame_accepts_pred(cfg, frame));
    lemma_filter_compose(recs, frame_pred(frame), accepts_pred(cfg), frame_accepts_pred(cfg, frame));
}

/// Timestamps never decrease along `recs`.
pub open spec fn timestamps_monotone(recs: Seq<RecordModel>) -> bool {
    forall|i: int, j: int|
        0 <= i <= j < recs.len() ==> recs[i].timestamp_ns <= recs[j].timestamp_ns
}

/// Every element of a filtered sequence occurs in the sequence it was
/// filtered from.
proof fn lemma_filter_from_source(s: Seq<RecordModel>, pred: spec_fn(RecordModel) -> bool)
    ensures
        forall|i: int|
            0 <= i < s.filter(pred).len() ==> exists|k: int|
                0 <= k < s.len() && s[k] == #[trigger] s.filter(pred)[i],
    decreases s.len(),
{
    reveal(Seq::filter);
    if s.len() > 0 {
        let butlast = s.drop_last();
        lemma_filter_from_source(butlast, pred);
        let bf = butlast.filter(pred);
        let f = s.filter(pred);
        assert forall|i: int| 0 <= i < f.len() implies exists|k: int|
            0 <= k < s.len() && s[k] == #[trigger] f[i] by {
            if i < bf.len() {
                assert(f[i] == bf[i]);
                let k = choose|k: int| 0 <= k < butlast.len() && butlast[k] == bf[i];
                assert(s[k] == f[i]);
            } else {
                assert(f[i] == s.last());
                assert(s[s.len() - 1] == f[i]);
            }
        }
    }
}

/// Filtering keeps timestamps non-decreasing.
proof fn lemma_filter_preserves_monotone(s: Seq<RecordModel>, pred: spec_fn(RecordModel) -> bool)
    requires
        timestamps_monotone(s),
    ensures
        timestamps_monotone(s.filter(pred)),
    decreases s.len(),
{
    reveal(Seq::filter);
    if s.len() > 0 {
        let butlast = s.drop_last();
        assert forall|i: int, j: int|
            0 <= i <= j < butlast.len() implies butlast[i].timestamp_ns
            <= butlast[j].timestamp_ns by {
            assert(butlast[i] == s[i] && butlast[j] == s[j]);
        }
        lemma_filter_preserves_monotone(butlast, pred);
        lemma_filter_from_source(butlast, pred);
        let bf = butlast.filter(pred);
        let f = s.filter(pred);
        assert forall|i: int, j: int|
            0 <= i <= j < f.len() implies f[i].timestamp_ns <= f[j].timestamp_ns by {
            if j < bf.len() {
                assert(f[i] == bf[i] && f[j] == bf[j]);
            } else if i < bf.len() {
                assert(f[i] == bf[i] && f[j] == s.last());
                let k = choose|k: int| 0 <= k < butlast.len() && butlast[k] == bf[i];
                assert(s[k] == bf[i]);
                assert(s[k].timestamp_ns <= s[s.len() - 1].timestamp_ns);
            }
        }
    }
}

/// Law: forwarding keeps the clock invariant of an activation. When the
/// host delivers one frame's events with non-decreasing timestamps, the
/// forwarded stream of that frame carries non-decreasing timestamps too.
pub proof fn lemma_forward_preserves_timestamps(
    cfg: SamplerConfig,
    recs: Seq<RecordModel>,
    frame: u64,
)
    requires
        timestamps_monotone(frame_events(recs, frame)),
    ensures
        timestamps_monotone(frame_events(forwarded_stream(cfg, recs), frame)),
{
    lemma_forward_order_per_frame(cfg, recs, frame);
    lemma_filter_preserves_monotone(frame_events(recs, frame), accepts_pred(cfg));
}

/// The tracer: sampler configuration, dispatcher, and the activity flag
/// the hook entry checks before doing any work.
pub struct Tracer {
    config: SamplerConfig,
    dispatcher: Dispatcher,
    active: bool,
    history: Ghost<Seq<RecordModel>>,
    accepted: Ghost<Seq<RecordModel>>,
    since_flush: Ghost<Seq<RecordModel>>,
}

impl Tracer {
    /// The sampler configuration in force.
    pub closed spec fn cfg(&self) -> SamplerConfig {
        self.config
    }

    /// Whether the hook entry currently does any work.
    pub closed spec fn is_active(&self) -> bool {
        self.active
    }

    /// Every record built so far, in callback order.
    pub closed spec fn hist(&self) -> Seq<RecordModel> {
        self.history@
    }

    /// Every record the sampler accepted so far, in callback order.
    pub closed spec fn accepted_hist(&self) -> Seq<RecordModel> {
        self.accepted@
    }

    /// The records accepted since the flush worker last took a batch, in
    /// callback order — what the buffer would hold, had it no capacity.
    pub closed spec fn pending_hist(&self) -> Seq<RecordModel> {
        self.since_flush@
    }

    /// The records waiting in the dispatcher, oldest first.
    pub closed spec fn buf(&self) -> Seq<RecordModel> {
        self.dispatcher.buf()
    }

    pub closed spec fn cap(&self) -> int {
        self.dispatcher.cap()
    }

    pub closed spec fn sent(&self) -> u64 {
        self.dispatcher.sent()
    }

    pub closed spec fn dropped(&self) -> u64 {
        self.dispatcher.dropped()
    }

    pub closed spec fn errors(&self) -> u64 {
        self.dispatcher.errors()
    }

    /// The dispatcher is sound, the accepted history is exactly the
    /// forwarded part of the full history, and the buffer is exactly the
    /// pending history folded through the bounded queue.
    pub closed spec fn wf(&self) -> bool {
        &&& self.dispatcher.wf()
        &&& self.accepted@ == forwarded_stream(self.config, self.history@)
        &&& self.dispatcher.buf() == spec_submit_all(
            Seq::<RecordModel>::empty(),
            self.dispatcher.cap(),
            self.since_flush@,
        )
    }

    /// A fresh, inactive tracer over an empty buffer.
    pub fn new(config: SamplerConfig, buffer_capacity: usize) -> (t: Tracer)
        ensures
            t.wf(),
            t.cfg() == config,
            !t.is_active(),
            t.hist() == Seq::<RecordModel>::empty(),
            t.accepted_hist() == Seq::<RecordModel>::empty(),
            t.pending_hist() == Seq::<RecordModel>::empty(),
            t.buf() == Seq::<RecordModel>::empty(),
            t.cap() == if buffer_capacity == 0 { 1int } else { buffer_capacity as int },
            t.sent() == 0u64 && t.dropped() == 0u64 && t.errors() == 0u64,
    {
        let t = Tracer {
            config,
            dispatcher: Dispatcher::new(buffer_capacity),
            active: false,
            history: Ghost(Seq::empty()),
            accepted: Ghost(Seq::empty()),
            since_flush: Ghost(Seq::empty()),
        };
        proof {
            reveal(Seq::filter);
            assert(forwarded_stream(config, Seq::<RecordModel>::empty()) =~= Seq::<
                RecordModel,
            >::empty());
        }
        t
    }

    /// A tracer set up from a validated configuration: every kind
    /// reported, the configured rate and capacity, active if and only if
    /// the configuration starts enabled.
    pub fn from_config(c: &TracerConfig) -> (t: Tracer)
        ensures
            t.wf(),
            t.cfg() == (SamplerConfig {
                sample_rate_ppm: c.sample_rate_ppm,
                call_enabled: true,
                return_enabled: true,
                line_enabled: true,
                exception_enabled: true,
            }),
            t.is_active() == c.enabled,
            t.hist() == Seq::<RecordModel>::empty(),
            t.accepted_hist() == Seq::<RecordModel>::empty(),
            t.pending_hist() == Seq::<RecordModel>::empty(),
            t.buf() == Seq::<RecordModel>::empty(),
            t.cap() == if c.buffer_capacity == 0 { 1int } else { c.buffer_capacity as int },
            t.sent() == 0u64 && t.dropped() == 0u64 && t.errors() == 0u64,
    {
        let mut t = Tracer::new(SamplerConfig::all_kinds(c.sample_rate_ppm), c.buffer_capacity);
        t.set_active(c.enabled);
        t
    }

    /// Flips the activity flag; everything else, the histories included,
    /// stays as it is.
    pub fn set_active(&mut self, active: bool)
        requires
            old(self).wf(),
        ensures
            final(self).wf(),
            final(self).is_active() == active,
            final(self).cfg() == old(self).cfg(),
            final(self).hist() == old(self).hist(),
            final(self).accepted_hist() == old(self).accepted_hist(),
            final(self).pending_hist() == old(self).pending_hist(),
            final(self).buf() == old(self).buf(),
            final(self).cap() == old(self).cap(),
            final(self).sent() == old(self).sent(),
            final(self).dropped() == old(self).dropped(),
            final(self).errors() == old(self).errors(),
    {
        self.active = active;
    }

    /// The hook entry point: one host callback, from raw extracted values
    /// to a buffered record or a counted refusal. Total on every input —
    /// no failure can escape into the traced program.
    pub fn on_event(
        &mut self,
        event_name: &str,
        frame_id: u64,
        code_id: Option<u64>,
        line: Option<u32>,
        timestamp_ns: u64,
        payload: Option<String>,
    ) -> (outcome: HookOutcome)
        requires
            old(self).wf(),
        ensures
            final(self).wf(),
            final(self).cfg() == old(self).cfg(),
            final(self).is_active() == old(self).is_active(),
            final(self).cap() == old(self).cap(),
            final(self).sent() == old(self).sent(),
            final(self).errors() == old(self).errors(),
            final(self).accepted_hist() == forwarded_stream(final(self).cfg(), final(self).hist()),
            (outcome == HookOutcome::Inactive) <==> !old(self).is_active(),
            (outcome == HookOutcome::Unrecognized) <==> (old(self).is_active() && spec_parse_kind(
                event_name@,
            ) is None),
            (outcome == HookOutcome::Inactive || outcome == HookOutcome::Unrecognized) ==> {
                &&& final(self).hist() == old(self).hist()
                &&& final(self).pending_hist() == old(self).pending_hist()
                &&& final(self).buf() == old(self).buf()
                &&& final(self).dropped() == old(self).dropped()
            },
            old(self).is_active() ==> (spec_parse_kind(event_name@) matches Some(k) ==> {
                let m = spec_record_model(
                    k,
                    frame_id,
                    code_id,
                    line,
                    timestamp_ns,
                    spec_payload_model(payload),
                );
                &&& final(self).hist() == old(self).hist().push(m)
                &&& (outcome == HookOutcome::Forwarded <==> old(self).cfg().spec_accepts(m))
                &&& (old(self).cfg().spec_accepts(m) ==> {
                    &&& final(self).accepted_hist() == old(self).accepted_hist().push(m)
                    &&& final(self).pending_hist() == old(self).pending_hist().push(m)
                    &&& final(self).buf() == spec_submit_buf(old(self).buf(), old(self).cap(), m)
                    &&& final(self).dropped() == spec_submit_dropped(
                        old(self).buf(),
                        old(self).cap(),
                        old(self).dropped(),
                    )
                })
                &&& (!old(self).cfg().spec_accepts(m) ==> {
                    &&& outcome == HookOutcome::Rejected
                    &&& final(self).accepted_hist() == old(self).accepted_hist()
                    &&& final(self).pending_hist() == old(self).pending_hist()
                    &&& final(self).buf() == old(self).buf()
                    &&& final(self).dropped() == old(self).dropped()
                })
            }),
    {
        if !self.active {
            return HookOutcome::Inactive;
        }
        let kind_opt = parse_event_kind(event_name);
        match kind_opt {
            Option::None => HookOutcome::Unrecognized,
            Option::Some(kind) => {
                let rec = make_record(kind, frame_id, code_id, line, timestamp_ns, payload);
                let ghost m = rec@;
                let ghost prior = self.history@;
                self.history = Ghost(self.history@.push(m));
                proof {
                    lemma_filter_push(prior, accepts_pred(self.config), m);
                }
                if self.config.accepts(&rec) {
                    self.accepted = Ghost(self.accepted@.push(m));
                    proof {
                        lemma_submit_all_snoc(
                            Seq::<RecordModel>::empty(),
                            self.dispatcher.cap(),
                            self.since_flush@,
                            m,
                        );
                    }
                    self.since_flush = Ghost(self.since_flush@.push(m));
                    self.dispatcher.submit(rec);
                    HookOutcome::Forwarded
                } else {
                    HookOutcome::Rejected
                }
            },
        }
    }

    /// How many records are waiting to be flushed.
    pub fn pending(&self) -> (n: usize)
        ensures
            n == self.buf().len(),
    {
        self.dispatcher.pending()
    }

    /// Removes and returns everything buffered, oldest first, for one
    /// send attempt by the flush worker.
    pub fn take_batch(&mut self) -> (batch: Vec<EventRecord>)
        requires
            old(self).wf(),
        ensures
            final(self).wf(),
            final(self).cfg() == old(self).cfg(),
            final(self).is_active() == old(self).is_active(),
            final(self).hist() == old(self).hist(),
            final(self).accepted_hist() == old(self).accepted_hist(),
            final(self).pending_hist() == Seq::<RecordModel>::empty(),
            final(self).cap() == old(self).cap(),
            final(self).sent() == old(self).sent(),
            final(self).dropped() == old(self).dropped(),
            final(self).errors() == old(self).errors(),
            batch@.map_values(|r: EventRecord| r@) == old(self).buf(),
            final(self).buf() == Seq::<RecordModel>::empty(),
    {
        self.since_flush = Ghost(Seq::empty());
        self.dispatcher.take_batch()
    }

    /// Reports a batch of `n` records as delivered.
    pub fn note_sent(&mut self, n: usize)
        requires
            old(self).wf(),
        ensures
            final(self).wf(),
            final(self).cfg() == old(self).cfg(),
            final(self).is_active() == old(self).is_active(),
            final(self).hist() == old(self).hist(),
            final(self).accepted_hist() == old(self).accepted_hist(),
            final(self).pending_hist() == old(self).pending_hist(),
            final(self).buf() == old(self).buf(),
            final(self).cap() == old(self).cap(),
            final(self).dropped() == old(self).dropped(),
            final(self).errors() == old(self).errors(),
            final(self).sent() == sat_add(old(self).sent(), n as u64),
    {
        self.dispatcher.note_sent(n);
    }

    /// Reports a batch as discarded after its bounded retries failed.
    pub fn note_send_failed(&mut self)
        requires
            old(self).wf(),
        ensures
            final(self).wf(),
            final(self).cfg() == old(self).cfg(),
            final(self).is_active() == old(self).is_active(),
            final(self).hist() == old(self).hist(),
            final(self).accepted_hist() == old(self).accepted_hist(),
            final(self).pending_hist() == old(self).pending_hist(),
            final(self).buf() == old(self).buf(),
            final(self).cap() == old(self).cap(),
            final(self).dropped() == old(self).dropped(),
            final(self).sent() == old(self).sent(),
            final(self).errors() == sat_inc(old(self).errors()),
    {
        self.dispatcher.note_send_failed();
    }

    /// A snapshot of the delivery counters.
    pub fn stats(&self) -> (s: DispatchStats)
        ensures
            s.sent_count == self.sent(),
            s.dropped_count == self.dropped(),
            s.error_count == self.errors(),
    {
        self.dispatcher.stats()
    }
}

/// Law: however long the flush worker stalls, the buffer holds exactly the
/// newest records accepted since the last flush, in acceptance order, and
/// never more than the capacity: what is lost to a full buffer is always
/// the oldest pending record, counted by the drop counter.
pub proof fn lemma_buffer_keeps_newest(t: Tracer)
    requires
        t.wf(),
    ensures
        ({
            let ph = t.pending_hist();
            let start: int = if ph.len() <= t.cap() {
                0
            } else {
                ph.len() - t.cap()
            };
            t.buf() == ph.subrange(start, ph.len() as int)
        }),
        t.buf().len() <= t.cap(),
{
    let ph = t.pending_hist();
    t.dispatcher.lemma_wf_bounds();
    lemma_submit_all_keeps_newest(Seq::<RecordModel>::empty(), t.cap(), ph);
    assert(Seq::<RecordModel>::empty() + ph =~= ph);
}

} // verus!
