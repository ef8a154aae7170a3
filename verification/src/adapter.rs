//! The hook adapter: turns the raw values of one host callback into an
//! event record.
//!
//! The host runtime names the event with a string and hands a frame plus an
//! event-specific argument; the embedding glue extracts plain values from
//! those and calls in here. Every extraction failure upstream arrives as an
//! absent optional value and degrades to an absent field of the record —
//! nothing on this path can fail or panic, so no error can escape back into
//! the traced program.

use vstd::prelude::*;

use crate::event::{EventKind, EventRecord, RecordModel, SourceLocation};

verus! {

/// The event kind named by a host event string: the four structural events
/// are recognized, anything else is not.
pub open spec fn spec_parse_kind(s: Seq<char>) -> Option<EventKind> {
    if s == "call"@ {
        Option::Some(EventKind::Call)
    } else if s == "line"@ {
        Option::Some(EventKind::Line)
    } else if s == "return"@ {
        Option::Some(EventKind::Return)
    } else if s == "exception"@ {
        Option::Some(EventKind::Exception)
    } else {
        Option::None
    }
}

/// Character-for-character string comparison.
fn str_eq(a: &str, b: &str) -> (r: bool)
    ensures
        r == (a@ == b@),
{
    let la: usize = a.unicode_len();
    let lb: usize = b.unicode_len();
    if la != lb {
        return false;
    }
    let mut i: usize = 0;
    while i < la
        invariant
            i <= la,
            la == a@.len(),
            lb == b@.len(),
            la == lb,
            forall|j: int| 0 <= j < i ==> a@[j] == b@[j],
        decreases la - i,
    {
        let ca: char = a.get_char(i);
        let cb: char = b.get_char(i);
        if ca != cb {
            assert(a@[i as int] != b@[i as int]);
            return false;
        }
        i = i + 1;
    }
    proof {
        assert(a@ =~= b@);
    }
    true
}

/// Maps the host's event string to an event kind; `None` for any string
/// that is not one of the four structural events, which the caller treats
/// as an event to ignore rather than an error.
pub fn parse_event_kind(s: &str) -> (k: Option<EventKind>)
    ensures
        k == spec_parse_kind(s@),
{
    if str_eq(s, "call") {
        Option::Some(EventKind::Call)
    } else if str_eq(s, "line") {
        Option::Some(EventKind::Line)
    } else if str_eq(s, "return") {
        Option::Some(EventKind::Return)
    } else if str_eq(s, "exception") {
        Option::Some(EventKind::Exception)
    } else {
        Option::None
    }
}

/// The source position of a record, present exactly when both parts could
/// be extracted from the frame.
pub open spec fn spec_location_of(code_id: Option<u64>, line: Option<u32>) -> Option<
    SourceLocation,
> {
    match (code_id, line) {
        (Option::Some(c), Option::Some(l)) => Option::Some(SourceLocation { code_id: c, line: l }),
        _ => Option::None,
    }
}

/// The model of the record built from one callback's raw values: the
/// location is best effort, and the payload is kept for exception events
/// only — no other kind carries data, so argument values never leak into
/// the stream.
pub open spec fn spec_record_model(
    kind: EventKind,
    frame_id: u64,
    code_id: Option<u64>,
    line: Option<u32>,
    timestamp_ns: u64,
    payload: Option<Seq<char>>,
) -> RecordModel {
    RecordModel {
        kind,
        frame_id,
        location: spec_location_of(code_id, line),
        timestamp_ns,
        payload: if kind == EventKind::Exception {
            payload
        } else {
            Option::None
        },
    }
}

/// The payload as the model sees it.
pub open spec fn spec_payload_model(payload: Option<String>) -> Option<Seq<char>> {
    match payload {
        Option::Some(s) => Option::Some(s@),
        Option::None => Option::None,
    }
}

/// Builds the immutable event record for one host callback from plain
/// extracted values. Total: every combination of absent optional inputs
/// yields a record with the matching fields absent.
pub fn make_record(
    kind: EventKind,
    frame_id: u64,
    code_id: Option<u64>,
    line: Option<u32>,
    timestamp_ns: u64,
    payload: Option<String>,
) -> (r: EventRecord)
    ensures
        r@ == spec_record_model(
            kind,
            frame_id,
            code_id,
            line,
            timestamp_ns,
            spec_payload_model(payload),
        ),
{
    let location: Option<SourceLocation> = match (code_id, line) {
        (Option::Some(c), Option::Some(l)) => Option::Some(SourceLocation { code_id: c, line: l }),
        _ => Option::None,
    };
    let kept: Option<String> = if matches!(kind, EventKind::Exception) {
        payload
    } else {
        Option::None
    };
    EventRecord { kind, frame_id, location, timestamp_ns, payload: kept }
}

} // verus!
