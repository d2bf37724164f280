//! The event envelope.
use vstd::prelude::*;
use crate::classes::dns::{
    DnsActivity, dns_activity_error, is_wire_dns_activity, dns_activity_valid, same_dns_activity,
    lemma_dns_activity_round_trip, lemma_dns_activity_wire_unique,
};
use crate::classes::file::{
    FileSystemActivity, file_activity_error, is_wire_file_activity, file_activity_valid,
    lemma_file_activity_round_trip, lemma_file_activity_wire_unique,
};
use crate::classes::module::{
    ModuleActivity, is_wire_module_activity, module_activity_error, module_activity_valid,
    lemma_module_activity_round_trip, lemma_module_activity_wire_unique,
};
use crate::classes::network::{
    NetworkActivity, is_wire_network_activity, network_activity_error, network_activity_valid,
    lemma_network_activity_round_trip, lemma_network_activity_wire_unique,
};
use crate::classes::process::{
    ProcessActivity, is_wire_process_activity, process_activity_error, process_activity_valid,
    lemma_process_activity_round_trip, lemma_process_activity_wire_unique,
};
use crate::classes::registry::{
    RegistryKeyActivity, RegistryValueActivity, is_wire_registry_key_activity,
    is_wire_registry_value_activity, registry_key_activity_error, registry_value_activity_error,
    registry_key_activity_valid, registry_value_activity_valid, lemma_registry_key_activity_round_trip,
    lemma_registry_value_activity_round_trip, lemma_registry_key_activity_wire_unique,
    lemma_registry_value_activity_wire_unique,
};
use crate::convert::{Failure, fail, rejects, require, err, fixed, wire_enum, EnumCode};
use crate::error::{SchemaError, SchemaErrorKind};
use crate::ids::{BootId, DeviceUid, EventId, UuidVariant, uuid_variant_of, is_uuid_v7};
use crate::objects::{enum_error, first, wrong_length};
use crate::wire;

verus! {

#[derive(Debug, Clone, PartialEq, Eq)]
pub struct Event {
    pub meta: EventMeta,
    pub device: Device,
    pub kind: EventKind,
}

#[derive(Debug, Clone, PartialEq, Eq)]
pub struct EventMeta {
    pub event_id: EventId,
    /// When the event occurred: nanoseconds since the Unix epoch, UTC.
    pub time: i64,
    pub sensor: Sensor,
}

#[derive(Debug, Clone, Copy, PartialEq, Eq)]
pub enum Sensor {
    Etw,
    Driver,
}

#[derive(Debug, Clone, Copy, PartialEq, Eq)]
pub struct Device {
    /// Must be checked against the agent's authenticated identity by the server.
    pub uid: DeviceUid,
    pub boot_id: BootId,
}

#[derive(Debug, Clone, PartialEq, Eq)]
pub enum EventKind {
    Process(ProcessActivity),
    Module(ModuleActivity),
    Network(NetworkActivity),
    File(FileSystemActivity),
    RegistryKey(RegistryKeyActivity),
    RegistryValue(RegistryValueActivity),
    Dns(DnsActivity),
}

pub open spec fn sensor_number(s: Sensor) -> i32 {
    match s {
        Sensor::Etw => 1,
        Sensor::Driver => 2,
    }
}

pub open spec fn sensor_code(raw: i32) -> EnumCode<Sensor> {
    if raw == 0 {
        EnumCode::Unspecified
    } else if raw == 1 {
        EnumCode::Known(Sensor::Etw)
    } else if raw == 2 {
        EnumCode::Known(Sensor::Driver)
    } else {
        EnumCode::Unknown
    }
}

fn sensor_from_number(raw: i32) -> (r: EnumCode<Sensor>)
    ensures
        r == sensor_code(raw),
{
    match wire::Sensor::from_number(raw) {
        Some(wire::Sensor::Unspecified) => EnumCode::Unspecified,
        Some(wire::Sensor::Etw) => EnumCode::Known(Sensor::Etw),
        Some(wire::Sensor::Driver) => EnumCode::Known(Sensor::Driver),
        None => {
            assert(wire::sensor_number(wire::Sensor::Unspecified) == 0);
            assert(wire::sensor_number(wire::Sensor::Etw) == 1);
            assert(wire::sensor_number(wire::Sensor::Driver) == 2);
            EnumCode::Unknown
        },
    }
}

#[verifier::opaque]
pub open spec fn is_wire_kind(w: wire::EventKind, d: EventKind) -> bool {
    match (w, d) {
        (wire::EventKind::Process(w), EventKind::Process(d)) => is_wire_process_activity(w, d),
        (wire::EventKind::Module(w), EventKind::Module(d)) => is_wire_module_activity(w, d),
        (wire::EventKind::Network(w), EventKind::Network(d)) => is_wire_network_activity(w, d),
        (wire::EventKind::File(w), EventKind::File(d)) => is_wire_file_activity(w, d),
        (wire::EventKind::RegistryKey(w), EventKind::RegistryKey(d)) => is_wire_registry_key_activity(w, d),
        (wire::EventKind::RegistryValue(w), EventKind::RegistryValue(d)) => is_wire_registry_value_activity(w, d),
        (wire::EventKind::Dns(w), EventKind::Dns(d)) => is_wire_dns_activity(w, d),
        _ => false,
    }
}

#[verifier::opaque]
pub open spec fn kind_error(w: wire::EventKind) -> Option<Failure> {
    match w {
        wire::EventKind::Process(a) => process_activity_error(a),
        wire::EventKind::Module(a) => module_activity_error(a),
        wire::EventKind::Network(a) => network_activity_error(a),
        wire::EventKind::File(a) => file_activity_error(a),
        wire::EventKind::RegistryKey(a) => registry_key_activity_error(a),
        wire::EventKind::RegistryValue(a) => registry_value_activity_error(a),
        wire::EventKind::Dns(a) => dns_activity_error(a),
    }
}

/// `w` is the wire form of the event `d`.
pub open spec fn is_wire_event(w: wire::Event, d: Event) -> bool {
    &&& w.event_id@ == d.meta.event_id@@
    &&& w.time == d.meta.time
    &&& w.sensor == sensor_number(d.meta.sensor)
    &&& w.device matches Some(dev) && dev.uid@ == d.device.uid.0@ && dev.boot_id@ == d.device.boot_id.0@
    &&& w.kind matches Some(k) && is_wire_kind(k, d.kind)
}

/// The event id must be 16 bytes and a UUIDv7.
pub open spec fn event_id_error(b: Vec<u8>) -> Option<Failure> {
    if b@.len() != 16 || !(b@[6] >> 4 == 7 && uuid_variant_of(b@[8]) == UuidVariant::Rfc4122) {
        fail(""@, "event_id"@, SchemaErrorKind::Malformed)
    } else {
        None
    }
}

/// The first rule that a wire event breaks, in the order the fields are
/// checked: event id, sensor, device, kind, then the class.
pub open spec fn event_error(w: wire::Event) -> Option<Failure> {
    first(
        event_id_error(w.event_id),
        first(
            enum_error(sensor_code(w.sensor), ""@, "sensor"@),
            first(
                match w.device {
                    None => fail(""@, "device"@, SchemaErrorKind::Missing),
                    Some(d) => first(
                        wrong_length(d.uid, 16, "device"@, "uid"@),
                        wrong_length(d.boot_id, 16, "device"@, "boot_id"@),
                    ),
                },
                match w.kind {
                    None => fail(""@, "kind"@, SchemaErrorKind::Missing),
                    Some(k) => kind_error(k),
                },
            ),
        ),
    )
}

impl EventKind {
    pub fn to_wire(self) -> (r: wire::EventKind)
        ensures
            is_wire_kind(r, self),
    {
        reveal(is_wire_kind);
        match self {
            EventKind::Process(a) => wire::EventKind::Process(a.to_wire()),
            EventKind::Module(a) => wire::EventKind::Module(a.to_wire()),
            EventKind::Network(a) => wire::EventKind::Network(a.to_wire()),
            EventKind::File(a) => wire::EventKind::File(a.to_wire()),
            EventKind::RegistryKey(a) => wire::EventKind::RegistryKey(a.to_wire()),
            EventKind::RegistryValue(a) => wire::EventKind::RegistryValue(a.to_wire()),
            EventKind::Dns(a) => wire::EventKind::Dns(a.to_wire()),
        }
    }

    pub fn from_wire(w: wire::EventKind) -> (r: Result<Self, SchemaError>)
        ensures
            match kind_error(w) {
                Some(f) => rejects(r, f),
                None => r matches Ok(d) && is_wire_kind(w, d),
            },
    {
        reveal(kind_error);
        reveal(is_wire_kind);
        match w {
            wire::EventKind::Process(a) => Ok(EventKind::Process(ProcessActivity::from_wire(a)?)),
            wire::EventKind::Module(a) => Ok(EventKind::Module(ModuleActivity::from_wire(a)?)),
            wire::EventKind::Network(a) => Ok(EventKind::Network(NetworkActivity::from_wire(a)?)),
            wire::EventKind::File(a) => Ok(EventKind::File(FileSystemActivity::from_wire(a)?)),
            wire::EventKind::RegistryKey(a) => Ok(EventKind::RegistryKey(RegistryKeyActivity::from_wire(a)?)),
            wire::EventKind::RegistryValue(a) => Ok(EventKind::RegistryValue(RegistryValueActivity::from_wire(a)?)),
            wire::EventKind::Dns(a) => Ok(EventKind::Dns(DnsActivity::from_wire(a)?)),
        }
    }
}

impl Event {
    /// The wire form of the event (domain to wire never fails).
    pub fn to_wire(self) -> (r: wire::Event)
        ensures
            is_wire_event(r, self),
    {
        let sensor = match self.meta.sensor {
            Sensor::Etw => wire::Sensor::Etw,
            Sensor::Driver => wire::Sensor::Driver,
        };
        wire::Event {
            event_id: vstd::slice::slice_to_vec(self.meta.event_id.as_bytes()),
            time: self.meta.time,
            sensor: sensor.number(),
            device: Some(
                wire::Device {
                    uid: vstd::slice::slice_to_vec(self.device.uid.as_bytes()),
                    boot_id: vstd::slice::slice_to_vec(self.device.boot_id.as_bytes()),
                },
            ),
            kind: Some(self.kind.to_wire()),
        }
    }

    /// The validation gate for untrusted wire data: the event that `w` is the
    /// wire form of, or the first rule it breaks.
    pub fn try_from_wire(w: wire::Event) -> (r: Result<Self, SchemaError>)
        ensures
            match event_error(w) {
                Some(f) => rejects(r, f),
                None => r matches Ok(d) && is_wire_event(w, d),
            },
    {
        let id_bytes = fixed::<16>(w.event_id, "", "event_id")?;
        let event_id = match EventId::from_uuid(id_bytes) {
            Some(id) => id,
            None => return err("", "event_id", SchemaErrorKind::Malformed),
        };
        let sensor = wire_enum(sensor_from_number(w.sensor), "", "sensor")?;
        let device = require(w.device, "", "device")?;
        let uid = DeviceUid::from_bytes(fixed::<16>(device.uid, "device", "uid")?);
        let boot_id = BootId::from_bytes(fixed::<16>(device.boot_id, "device", "boot_id")?);
        let kind = require(w.kind, "", "kind")?;
        let kind = EventKind::from_wire(kind)?;
        Ok(Event { meta: EventMeta { event_id, time: w.time, sensor }, device: Device { uid, boot_id }, kind })
    }
}


// ---------------------------------------------------------------- laws

/// Every string, list and byte field of the event is within its limit.
pub open spec fn kind_valid(k: EventKind) -> bool {
    match k {
        EventKind::Process(a) => process_activity_valid(a),
        EventKind::Module(a) => module_activity_valid(a),
        EventKind::Network(a) => network_activity_valid(a),
        EventKind::File(a) => file_activity_valid(a),
        EventKind::RegistryKey(a) => registry_key_activity_valid(a),
        EventKind::RegistryValue(a) => registry_value_activity_valid(a),
        EventKind::Dns(a) => dns_activity_valid(a),
    }
}

/// A valid event: its id is a UUIDv7 (which every `EventId` is) and every
/// field is within its limit.
pub open spec fn event_valid(e: Event) -> bool {
    is_uuid_v7(e.meta.event_id@) && kind_valid(e.kind)
}

/// Two event kinds that are equal field by field (lists compared as sequences).
pub open spec fn same_kind(a: EventKind, b: EventKind) -> bool {
    match (a, b) {
        (EventKind::Dns(x), EventKind::Dns(y)) => same_dns_activity(x, y),
        _ => a == b,
    }
}

/// Two events that are equal field by field (lists compared as sequences).
pub open spec fn same_event(a: Event, b: Event) -> bool {
    a.meta == b.meta && a.device == b.device && same_kind(a.kind, b.kind)
}

/// Domain to wire to domain is lossless for every valid event: the wire form
/// `w` of a valid event `e` passes validation, and the event that validation
/// returns for `w` (any `d` whose wire form `w` is) equals `e`.
pub proof fn lemma_event_round_trip(e: Event, w: wire::Event, d: Event)
    requires
        event_valid(e),
        is_wire_event(w, e),
    ensures
        event_error(w) is None,
        is_wire_event(w, d) ==> same_event(d, e),
{
    broadcast use vstd::array::group_array_axioms;
    reveal(kind_error);
    reveal(is_wire_kind);
    let b = e.meta.event_id@;
    assert(w.event_id@ == b@);
    match e.meta.sensor {
        Sensor::Etw => {},
        Sensor::Driver => {},
    }
    let k = w.kind.unwrap();
    match (k, e.kind) {
        (wire::EventKind::Process(x), EventKind::Process(a)) => lemma_process_activity_round_trip(a, x),
        (wire::EventKind::Module(x), EventKind::Module(a)) => lemma_module_activity_round_trip(a, x),
        (wire::EventKind::Network(x), EventKind::Network(a)) => lemma_network_activity_round_trip(a, x),
        (wire::EventKind::File(x), EventKind::File(a)) => lemma_file_activity_round_trip(a, x),
        (wire::EventKind::RegistryKey(x), EventKind::RegistryKey(a)) => lemma_registry_key_activity_round_trip(a, x),
        (wire::EventKind::RegistryValue(x), EventKind::RegistryValue(a)) => lemma_registry_value_activity_round_trip(a, x),
        (wire::EventKind::Dns(x), EventKind::Dns(a)) => lemma_dns_activity_round_trip(a, x),
        _ => {},
    }
    if is_wire_event(w, d) {
        assert(d.meta.event_id@@ =~= e.meta.event_id@@);
        assert(d.meta.event_id@ == e.meta.event_id@);
        EventId::lemma_view_injective(d.meta.event_id, e.meta.event_id);
        assert(d.meta.sensor == e.meta.sensor);
        assert(d.device.uid.0 == e.device.uid.0);
        assert(d.device.boot_id.0 == e.device.boot_id.0);
        match (k, d.kind, e.kind) {
            (wire::EventKind::Process(x), EventKind::Process(a1), EventKind::Process(a2)) => lemma_process_activity_wire_unique(x, a1, a2),
            (wire::EventKind::Module(x), EventKind::Module(a1), EventKind::Module(a2)) => lemma_module_activity_wire_unique(x, a1, a2),
            (wire::EventKind::Network(x), EventKind::Network(a1), EventKind::Network(a2)) => lemma_network_activity_wire_unique(x, a1, a2),
            (wire::EventKind::File(x), EventKind::File(a1), EventKind::File(a2)) => lemma_file_activity_wire_unique(x, a1, a2),
            (wire::EventKind::RegistryKey(x), EventKind::RegistryKey(a1), EventKind::RegistryKey(a2)) => lemma_registry_key_activity_wire_unique(x, a1, a2),
            (wire::EventKind::RegistryValue(x), EventKind::RegistryValue(a1), EventKind::RegistryValue(a2)) => lemma_registry_value_activity_wire_unique(x, a1, a2),
            (wire::EventKind::Dns(x), EventKind::Dns(a1), EventKind::Dns(a2)) => lemma_dns_activity_wire_unique(x, a1, a2),
            _ => {},
        }
    }
}

/// Sensors travel as the numbers of `atlas.events.v1.Sensor` (1 ETW,
/// 2 DRIVER): a wire event and the event it is the wire form of agree on the
/// sensor, and decoding knows exactly these numbers (0 is the absent
/// `SENSOR_UNSPECIFIED`, anything else is unknown).
pub proof fn lemma_sensor_numbers(w: wire::Event, d: Event, raw: i32)
    requires
        is_wire_event(w, d),
    ensures
        w.sensor == 1i32 <==> d.meta.sensor == Sensor::Etw,
        w.sensor == 2i32 <==> d.meta.sensor == Sensor::Driver,
        sensor_code(raw) is Unspecified <==> raw == 0,
        sensor_code(raw) is Known <==> 1 <= raw <= 2,
        sensor_code(raw) matches EnumCode::Known(s) ==> sensor_number(s) == raw,
{
}

/// The event id passes validation exactly when it is 16 bytes, the high
/// nibble of byte 6 is 7 and the top two bits of byte 8 are `10`; any other
/// byte string is `event_id: Malformed`.
pub proof fn lemma_event_id_accepted(b: Vec<u8>)
    ensures
        event_id_error(b) is None <==> (b@.len() == 16 && b@[6] >> 4 == 7 && b@[8] & 0xc0 == 0x80),
        event_id_error(b) is Some ==> event_id_error(b) == fail(""@, "event_id"@, SchemaErrorKind::Malformed),
{
    let b8 = b@[8];
    assert((b8 & 0x80 != 0 && b8 & 0xc0 == 0x80) <==> b8 & 0xc0 == 0x80) by (bit_vector);
}

/// Version skew reads as such: a class whose `activity` oneof is absent (an
/// activity from a newer schema) is rejected as `activity: Missing`, whatever
/// its other fields hold.
pub proof fn lemma_absent_activity_is_missing(w: wire::EventKind)
    requires
        match w {
            wire::EventKind::Process(a) => a.activity is None,
            wire::EventKind::Module(a) => a.activity is None,
            wire::EventKind::Network(a) => a.activity is None,
            wire::EventKind::File(a) => a.activity is None,
            wire::EventKind::RegistryKey(a) => a.activity is None,
            wire::EventKind::RegistryValue(a) => a.activity is None,
            wire::EventKind::Dns(a) => a.activity is None,
        },
    ensures
        kind_error(w) == fail(""@, "activity"@, SchemaErrorKind::Missing),
{
    reveal(kind_error);
}

/// The event id is checked first: a wire event with a bad event id is
/// rejected as `event_id: Malformed`, whatever its other fields hold; and an
/// absent device or kind is `device: Missing` or `kind: Missing` once the id
/// and sensor pass.
pub proof fn lemma_envelope_check_order(w: wire::Event)
    ensures
        event_id_error(w.event_id) is Some ==> event_error(w) == fail(""@, "event_id"@, SchemaErrorKind::Malformed),
        event_id_error(w.event_id) is None && sensor_code(w.sensor) is Known && w.device is None
            ==> event_error(w) == fail(""@, "device"@, SchemaErrorKind::Missing),
        event_id_error(w.event_id) is None && sensor_code(w.sensor) is Known && w.kind is None
            && (w.device matches Some(d) && d.uid@.len() == 16 && d.boot_id@.len() == 16)
            ==> event_error(w) == fail(""@, "kind"@, SchemaErrorKind::Missing),
{
}

} // verus!
