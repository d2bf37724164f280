//! Atlas event schema: the typed domain model every Atlas component uses.
//!
//! - Domain to wire is infallible (`to_wire`).
//! - Wire to domain validates untrusted input (`Event::try_from_wire`),
//!   reporting the exact field path and kind of the first rule that fails.
//! - `codec` holds the size gate before protobuf decoding and the validation
//!   of what decoding produced.
pub mod classes;
pub mod codec;
pub mod convert;
pub mod error;
pub mod event;
pub mod ids;
pub mod limits;
pub mod objects;
pub mod ocsf;
pub mod wire;

pub use codec::{check_event_size, event_from_decoded};
pub use error::{SchemaError, SchemaErrorKind};
pub use event::{Device, Event, EventKind, EventMeta, Sensor};
pub use ids::{BootId, DeviceUid, EventId, ProcessUid, process_uid, process_uid_from_digest, process_uid_preimage};
pub use objects::{
    File, Hashes, Integrity, IpAddr, NetworkEndpoint, Process, ProcessRef, Signature, SignatureStatus, User,
};
pub use ocsf::OcsfIds;
