//! The filter/sampler: decides per event record whether it is forwarded.
//!
//! The decision is keyed on the frame identifier alone, so every
//! non-exception event of one activation gets the same verdict, and an
//! activation is never reported half. Exception events bypass the rate
//! entirely: they are rare and diagnostically valuable.

use vstd::prelude::*;

use crate::event::{EventKind, EventRecord, RecordModel};

verus! {

/// The sampling rate is expressed in parts per million of this scale:
/// a rate of `PPM_SCALE` accepts every frame.
pub const PPM_SCALE: u32 = 1_000_000;

/// Sampling configuration: which kinds are reported at all, and which
/// fraction of frames is kept, in parts per million (valid range
/// `1..=PPM_SCALE`).
#[derive(Clone, Copy, PartialEq, Eq, Structural, Debug)]
pub struct SamplerConfig {
    /// Sampling rate in parts per million of `PPM_SCALE`.
    pub sample_rate_ppm: u32,
    /// Report `Call` events.
    pub call_enabled: bool,
    /// Report `Return` events.
    pub return_enabled: bool,
    /// Report `Line` events.
    pub line_enabled: bool,
    /// Report `Exception` events.
    pub exception_enabled: bool,
}

impl SamplerConfig {
    /// A valid configuration keeps the rate inside `(0, PPM_SCALE]`.
    pub open spec fn wf(&self) -> bool {
        0 < self.sample_rate_ppm <= PPM_SCALE
    }

    /// Whether events of kind `k` are reported at all.
    pub open spec fn kind_enabled(&self, k: EventKind) -> bool {
        match k {
            EventKind::Call => self.call_enabled,
            EventKind::Return => self.return_enabled,
            EventKind::Line => self.line_enabled,
            EventKind::Exception => self.exception_enabled,
        }
    }

    /// The sampling verdict for one frame: a deterministic function of the
    /// frame identifier alone, so one activation is judged exactly once.
    pub open spec fn spec_sample_pass(&self, frame_id: u64) -> bool {
        spec_sample_slot(frame_id) < self.sample_rate_ppm
    }

    /// The full accept decision for one record: its kind must be enabled,
    /// and a non-exception record must additionally pass the per-frame
    /// sampling verdict. Exception records are never sampled away.
    pub open spec fn spec_accepts(&self, r: RecordModel) -> bool {
        &&& self.kind_enabled(r.kind)
        &&& (r.kind == EventKind::Exception || self.spec_sample_pass(r.frame_id))
    }

    /// A configuration that reports every kind at the given rate.
    pub fn all_kinds(sample_rate_ppm: u32) -> (c: SamplerConfig)
        ensures
            c == (SamplerConfig {
                sample_rate_ppm,
                call_enabled: true,
                return_enabled: true,
                line_enabled: true,
                exception_enabled: true,
            }),
    {
        SamplerConfig {
            sample_rate_ppm,
            call_enabled: true,
            return_enabled: true,
            line_enabled: true,
            exception_enabled: true,
        }
    }

    /// Executable accept decision; constant time and allocation free.
    pub fn accepts(&self, rec: &EventRecord) -> (b: bool)
        ensures
            b == self.spec_accepts(rec@),
    {
        let enabled: bool = match rec.kind {
            EventKind::Call => self.call_enabled,
            EventKind::Return => self.return_enabled,
            EventKind::Line => self.line_enabled,
            EventKind::Exception => self.exception_enabled,
        };
        if !enabled {
            false
        } else if matches!(rec.kind, EventKind::Exception) {
            true
        } else {
            sample_slot(rec.frame_id) < self.sample_rate_ppm as u64
        }
    }
}

/// The slot a frame hashes to, in `0..PPM_SCALE`: the frame identifier is
/// spread over the scale with a fixed multiplier so that nearby identifiers
/// do not fall into one run of slots.
pub open spec fn spec_sample_slot(frame_id: u64) -> int {
    ((frame_id as int) % 999_983) * 1_009 % (PPM_SCALE as int)
}

/// Executable counterpart of `spec_sample_slot`.
pub fn sample_slot(frame_id: u64) -> (s: u64)
    ensures
        s == spec_sample_slot(frame_id),
        s < PPM_SCALE as u64,
{
    let reduced: u64 = frame_id % 999_983;
    (reduced * 1_009) % 1_000_000
}

/// Law: sampling is consistent per frame. For a fixed configuration the
/// per-frame verdict of two non-exception records of one frame is the same,
/// and when both kinds are reported at all, so is the full accept decision:
/// an activation's events are kept as a whole or dropped as a whole.
pub proof fn lemma_sampling_consistent_per_frame(
    cfg: SamplerConfig,
    a: RecordModel,
    b: RecordModel,
)
    requires
        a.frame_id == b.frame_id,
        a.kind != EventKind::Exception,
        b.kind != EventKind::Exception,
    ensures
        cfg.spec_sample_pass(a.frame_id) == cfg.spec_sample_pass(b.frame_id),
        cfg.kind_enabled(a.kind) && cfg.kind_enabled(b.kind) ==> cfg.spec_accepts(a)
            == cfg.spec_accepts(b),
{
}

/// Law: an exception record whose kind is reported is accepted under every
/// sampling rate; the rate does not occur in its accept decision.
pub proof fn lemma_exception_always_accepted(cfg: SamplerConfig, r: RecordModel)
    requires
        r.kind == EventKind::Exception,
        cfg.exception_enabled,
    ensures
        cfg.spec_accepts(r),
        forall|rate: u32|
            (SamplerConfig { sample_rate_ppm: rate, ..cfg }).spec_accepts(r),
{
}

/// Law: at the full rate every record of an enabled kind is accepted.
pub proof fn lemma_full_rate_accepts_all(cfg: SamplerConfig, r: RecordModel)
    requires
        cfg.sample_rate_ppm == PPM_SCALE,
        cfg.kind_enabled(r.kind),
    ensures
        cfg.spec_accepts(r),
{
    assert(0 <= (r.frame_id as int) % 999_983 < 999_983);
    assert(spec_sample_slot(r.frame_id) < PPM_SCALE as int);
}

} // verus!
