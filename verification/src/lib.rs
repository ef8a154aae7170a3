//! Trace-event interception and dispatch layer.
//!
//! The library receives per-call execution events from a host runtime hook,
//! turns them into immutable event records, decides per event whether it is
//! forwarded (sampling, keyed on the frame so activations stay whole), buffers
//! accepted records in a bounded queue that never blocks the traced program,
//! and manages installing and removing the hook in the host's single hook slot.

pub mod adapter;
pub mod config;
pub mod dispatcher;
pub mod event;
pub mod registry;
pub mod sampler;
pub mod tracer;

pub use adapter::make_record;
pub use adapter::parse_event_kind;
pub use config::ConfigError;
pub use config::TracerConfig;
pub use dispatcher::flush_due;
pub use dispatcher::retry_backoff_ns;
pub use dispatcher::DispatchStats;
pub use dispatcher::Dispatcher;
pub use registry::InstallMode;
pub use registry::RegState;
pub use registry::RegistrationError;
pub use registry::RegistrationManager;
pub use registry::SlotContent;
pub use event::EventKind;
pub use event::EventRecord;
pub use event::RecordModel;
pub use event::SourceLocation;
pub use sampler::SamplerConfig;
pub use sampler::PPM_SCALE;
pub use tracer::HookOutcome;
pub use tracer::Tracer;
