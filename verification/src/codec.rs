//! The byte-level entry points around protobuf: the size gate that comes
//! before any decoding, and the validation of what decoding produced.
use vstd::prelude::*;
use crate::convert::{fail, rejects, err};
use crate::error::{SchemaError, SchemaErrorKind};
use crate::event::{Event, event_error, is_wire_event};
use crate::limits::EVENT_MAX;
use crate::wire;

verus! {

/// An encoded event longer than `EVENT_MAX` bytes is rejected as `TooLarge`
/// at path `event`, before any protobuf parsing.
pub fn check_event_size(encoded_len: usize) -> (r: Result<(), SchemaError>)
    ensures
        encoded_len > EVENT_MAX ==> rejects(r, fail(""@, "event"@, SchemaErrorKind::TooLarge).unwrap()),
        encoded_len <= EVENT_MAX ==> r is Ok,
{
    if encoded_len > EVENT_MAX {
        err("", "event", SchemaErrorKind::TooLarge)
    } else {
        Ok(())
    }
}

/// Validates the protobuf decoding of an encoded event: `None` (the bytes
/// are not a protobuf `Event`, e.g. invalid UTF-8 in a string) is
/// `Malformed` at path `event`; a decoded wire event is validated by
/// `Event::try_from_wire`.
pub fn event_from_decoded(decoded: Option<wire::Event>) -> (r: Result<Event, SchemaError>)
    ensures
        match decoded {
            None => rejects(r, fail(""@, "event"@, SchemaErrorKind::Malformed).unwrap()),
            Some(w) => match event_error(w) {
                Some(f) => rejects(r, f),
                None => r matches Ok(d) && is_wire_event(w, d),
            },
        },
{
    match decoded {
        None => err("", "event", SchemaErrorKind::Malformed),
        Some(w) => Event::try_from_wire(w),
    }
}

} // verus!
