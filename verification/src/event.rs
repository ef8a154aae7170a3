//! The event record: the immutable value describing one observed execution
//! event, and the ghost-level model that contracts speak of.

use vstd::prelude::*;

verus! {

/// The kind of an observed execution event.
#[derive(Clone, Copy, PartialEq, Eq, Structural, Debug)]
pub enum EventKind {
    /// A callable was entered (one activation began).
    Call,
    /// The activation returned normally.
    Return,
    /// A line of the activation was about to execute.
    Line,
    /// An exception was raised in the activation.
    Exception,
}

/// A best-effort source position: a code unit identifier and a line number.
/// Absent as a whole when the frame is native or opaque.
#[derive(Clone, Copy, PartialEq, Eq, Structural, Debug)]
pub struct SourceLocation {
    /// Opaque identifier of the code unit the frame executes.
    pub code_id: u64,
    /// Line number inside that code unit.
    pub line: u32,
}

/// One observed execution event, immutable once constructed.
pub struct EventRecord {
    /// What happened.
    pub kind: EventKind,
    /// Identifier stable for the lifetime of one activation.
    pub frame_id: u64,
    /// Best-effort source position; `None` when it could not be extracted.
    pub location: Option<SourceLocation>,
    /// Monotonic clock sample taken at capture, in nanoseconds.
    pub timestamp_ns: u64,
    /// Kind-specific data: the exception type name for `Exception` events,
    /// absent for every other kind.
    pub payload: Option<String>,
}

/// The mathematical model of an event record: the same fields with the
/// payload as a sequence of characters.
pub struct RecordModel {
    pub kind: EventKind,
    pub frame_id: u64,
    pub location: Option<SourceLocation>,
    pub timestamp_ns: u64,
    pub payload: Option<Seq<char>>,
}

impl View for EventRecord {
    type V = RecordModel;

    open spec fn view(&self) -> RecordModel {
        RecordModel {
            kind: self.kind,
            frame_id: self.frame_id,
            location: self.location,
            timestamp_ns: self.timestamp_ns,
            payload: match self.payload {
                Option::Some(s) => Option::Some(s@),
                Option::None => Option::None,
            },
        }
    }
}

} // verus!
