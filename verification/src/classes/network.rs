//! Network Activity (OCSF 4001).
use vstd::prelude::*;
use crate::convert::{Failure, fail, rejects, require, wire_enum, EnumCode};
use crate::error::{SchemaError, SchemaErrorKind};
use crate::objects::{
    NetworkEndpoint, ProcessRef, enum_error, first, is_wire_required_endpoint,
    is_wire_required_process_ref, required_endpoint_error, required_process_ref_error,
    process_ref_valid, lemma_process_ref_round_trip, lemma_endpoint_round_trip,
    lemma_process_ref_wire_unique, lemma_endpoint_wire_unique,
};
use crate::wire;

verus! {

#[derive(Debug, Clone, PartialEq, Eq)]
pub struct NetworkActivity {
    pub actor: ProcessRef,
    pub src_endpoint: NetworkEndpoint,
    pub dst_endpoint: NetworkEndpoint,
    pub protocol: NetworkProtocol,
    pub direction: NetworkDirection,
    pub action: NetworkAction,
}

#[derive(Debug, Clone, Copy, PartialEq, Eq)]
pub enum NetworkProtocol {
    Tcp,
    Udp,
}

#[derive(Debug, Clone, Copy, PartialEq, Eq)]
pub enum NetworkDirection {
    Inbound,
    Outbound,
}

#[derive(Debug, Clone, Copy, PartialEq, Eq)]
pub enum NetworkAction {
    Open,
    Close { bytes_in: Option<u64>, bytes_out: Option<u64> },
}

pub open spec fn network_protocol_number(p: NetworkProtocol) -> i32 {
    match p {
        NetworkProtocol::Tcp => 1,
        NetworkProtocol::Udp => 2,
    }
}

pub open spec fn network_protocol_code(raw: i32) -> EnumCode<NetworkProtocol> {
    if raw == 0 {
        EnumCode::Unspecified
    } else if raw == 1 {
        EnumCode::Known(NetworkProtocol::Tcp)
    } else if raw == 2 {
        EnumCode::Known(NetworkProtocol::Udp)
    } else {
        EnumCode::Unknown
    }
}

pub open spec fn network_direction_number(d: NetworkDirection) -> i32 {
    match d {
        NetworkDirection::Inbound => 1,
        NetworkDirection::Outbound => 2,
    }
}

pub open spec fn network_direction_code(raw: i32) -> EnumCode<NetworkDirection> {
    if raw == 0 {
        EnumCode::Unspecified
    } else if raw == 1 {
        EnumCode::Known(NetworkDirection::Inbound)
    } else if raw == 2 {
        EnumCode::Known(NetworkDirection::Outbound)
    } else {
        EnumCode::Unknown
    }
}

fn protocol_from_number(raw: i32) -> (r: EnumCode<NetworkProtocol>)
    ensures
        r == network_protocol_code(raw),
{
    match wire::NetworkProtocol::from_number(raw) {
        Some(wire::NetworkProtocol::Unspecified) => EnumCode::Unspecified,
        Some(wire::NetworkProtocol::Tcp) => EnumCode::Known(NetworkProtocol::Tcp),
        Some(wire::NetworkProtocol::Udp) => EnumCode::Known(NetworkProtocol::Udp),
        None => {
            assert(wire::network_protocol_number(wire::NetworkProtocol::Unspecified) == 0);
            assert(wire::network_protocol_number(wire::NetworkProtocol::Tcp) == 1);
            assert(wire::network_protocol_number(wire::NetworkProtocol::Udp) == 2);
            EnumCode::Unknown
        },
    }
}

fn direction_from_number(raw: i32) -> (r: EnumCode<NetworkDirection>)
    ensures
        r == network_direction_code(raw),
{
    match wire::NetworkDirection::from_number(raw) {
        Some(wire::NetworkDirection::Unspecified) => EnumCode::Unspecified,
        Some(wire::NetworkDirection::Inbound) => EnumCode::Known(NetworkDirection::Inbound),
        Some(wire::NetworkDirection::Outbound) => EnumCode::Known(NetworkDirection::Outbound),
        None => {
            assert(wire::network_direction_number(wire::NetworkDirection::Unspecified) == 0);
            assert(wire::network_direction_number(wire::NetworkDirection::Inbound) == 1);
            assert(wire::network_direction_number(wire::NetworkDirection::Outbound) == 2);
            EnumCode::Unknown
        },
    }
}

pub open spec fn is_wire_network_activity(w: wire::NetworkActivity, d: NetworkActivity) -> bool {
    &&& is_wire_required_process_ref(w.actor, d.actor)
    &&& is_wire_required_endpoint(w.src_endpoint, d.src_endpoint)
    &&& is_wire_required_endpoint(w.dst_endpoint, d.dst_endpoint)
    &&& w.protocol == network_protocol_number(d.protocol)
    &&& w.direction == network_direction_number(d.direction)
    &&& match (w.activity, d.action) {
        (Some(wire::NetworkActivityKind::Open(_)), NetworkAction::Open) => true,
        (Some(wire::NetworkActivityKind::Close(c)), NetworkAction::Close { bytes_in, bytes_out }) => {
            c.bytes_in == bytes_in && c.bytes_out == bytes_out
        },
        _ => false,
    }
}

/// The activity is checked first: an unknown (newer) activity reads as
/// `activity: Missing`, not as a missing class field.
pub open spec fn network_activity_error(w: wire::NetworkActivity) -> Option<Failure> {
    if w.activity is None {
        fail(""@, "activity"@, SchemaErrorKind::Missing)
    } else {
        first(
            required_process_ref_error(w.actor, ""@, "actor.process"@),
            first(
                required_endpoint_error(w.src_endpoint, ""@, "src_endpoint"@),
                first(
                    required_endpoint_error(w.dst_endpoint, ""@, "dst_endpoint"@),
                    first(
                        enum_error(network_protocol_code(w.protocol), ""@, "protocol"@),
                        enum_error(network_direction_code(w.direction), ""@, "direction"@),
                    ),
                ),
            ),
        )
    }
}

impl NetworkActivity {
    pub fn to_wire(self) -> (r: wire::NetworkActivity)
        ensures
            is_wire_network_activity(r, self),
    {
        let protocol = match self.protocol {
            NetworkProtocol::Tcp => wire::NetworkProtocol::Tcp,
            NetworkProtocol::Udp => wire::NetworkProtocol::Udp,
        };
        let direction = match self.direction {
            NetworkDirection::Inbound => wire::NetworkDirection::Inbound,
            NetworkDirection::Outbound => wire::NetworkDirection::Outbound,
        };
        let activity = match self.action {
            NetworkAction::Open => wire::NetworkActivityKind::Open(wire::NetworkOpen {  }),
            NetworkAction::Close { bytes_in, bytes_out } => wire::NetworkActivityKind::Close(
                wire::NetworkClose { bytes_in, bytes_out },
            ),
        };
        wire::NetworkActivity {
            actor: Some(self.actor.to_wire()),
            src_endpoint: Some(self.src_endpoint.to_wire()),
            dst_endpoint: Some(self.dst_endpoint.to_wire()),
            protocol: protocol.number(),
            direction: direction.number(),
            activity: Some(activity),
        }
    }

    pub fn from_wire(w: wire::NetworkActivity) -> (r: Result<Self, SchemaError>)
        ensures
            match network_activity_error(w) {
                Some(f) => rejects(r, f),
                None => r matches Ok(d) && is_wire_network_activity(w, d),
            },
    {
        let activity = require(w.activity, "", "activity")?;
        let actor = ProcessRef::required(w.actor, "", "actor.process")?;
        let src_endpoint = NetworkEndpoint::required(w.src_endpoint, "", "src_endpoint")?;
        let dst_endpoint = NetworkEndpoint::required(w.dst_endpoint, "", "dst_endpoint")?;
        let protocol = wire_enum(protocol_from_number(w.protocol), "", "protocol")?;
        let direction = wire_enum(direction_from_number(w.direction), "", "direction")?;
        let action = match activity {
            wire::NetworkActivityKind::Open(_) => NetworkAction::Open,
            wire::NetworkActivityKind::Close(c) => NetworkAction::Close {
                bytes_in: c.bytes_in,
                bytes_out: c.bytes_out,
            },
        };
        Ok(NetworkActivity { actor, src_endpoint, dst_endpoint, protocol, direction, action })
    }
}


// ---------------------------------------------------------------- laws

/// Every string in the activity is within its limit.
pub open spec fn network_activity_valid(d: NetworkActivity) -> bool {
    process_ref_valid(d.actor)
}

/// A network activity within its limits passes validation in its wire form.
pub proof fn lemma_network_activity_round_trip(d: NetworkActivity, w: wire::NetworkActivity)
    requires
        network_activity_valid(d),
        is_wire_network_activity(w, d),
    ensures
        network_activity_error(w) is None,
{
    lemma_process_ref_round_trip(d.actor, w.actor, ""@, "actor.process"@);
    lemma_endpoint_round_trip(d.src_endpoint, w.src_endpoint, ""@, "src_endpoint"@);
    lemma_endpoint_round_trip(d.dst_endpoint, w.dst_endpoint, ""@, "dst_endpoint"@);
    match d.protocol {
        NetworkProtocol::Tcp => {},
        NetworkProtocol::Udp => {},
    }
    match d.direction {
        NetworkDirection::Inbound => {},
        NetworkDirection::Outbound => {},
    }
}

/// The wire form of a network activity determines it.
pub proof fn lemma_network_activity_wire_unique(w: wire::NetworkActivity, d1: NetworkActivity, d2: NetworkActivity)
    requires
        is_wire_network_activity(w, d1),
        is_wire_network_activity(w, d2),
    ensures
        d1 == d2,
{
    lemma_process_ref_wire_unique(w.actor.unwrap(), d1.actor, d2.actor);
    lemma_endpoint_wire_unique(w.src_endpoint.unwrap(), d1.src_endpoint, d2.src_endpoint);
    lemma_endpoint_wire_unique(w.dst_endpoint.unwrap(), d1.dst_endpoint, d2.dst_endpoint);
    assert(d1.protocol == d2.protocol);
    assert(d1.direction == d2.direction);
}

/// Protocols and directions travel as the numbers of
/// `atlas.events.v1.NetworkProtocol` (1 TCP, 2 UDP) and
/// `atlas.events.v1.NetworkDirection` (1 INBOUND, 2 OUTBOUND), and the
/// activity as the oneof case of the same name: a wire network activity and
/// the activity it is the wire form of agree on each.
pub proof fn lemma_network_activity_numbers(w: wire::NetworkActivity, d: NetworkActivity)
    requires
        is_wire_network_activity(w, d),
    ensures
        w.protocol == 1i32 <==> d.protocol == NetworkProtocol::Tcp,
        w.protocol == 2i32 <==> d.protocol == NetworkProtocol::Udp,
        w.direction == 1i32 <==> d.direction == NetworkDirection::Inbound,
        w.direction == 2i32 <==> d.direction == NetworkDirection::Outbound,
        (w.activity matches Some(wire::NetworkActivityKind::Open(_))) <==> d.action is Open,
        (w.activity matches Some(wire::NetworkActivityKind::Close(_))) <==> d.action is Close,
{
}

/// Decoding knows exactly the protocol and direction numbers 1 and 2; 0 is
/// the absent `*_UNSPECIFIED`, anything else is unknown, and a known number
/// decodes to the value that encodes back to it.
pub proof fn lemma_network_numbers_known(raw: i32)
    ensures
        network_protocol_code(raw) is Unspecified <==> raw == 0,
        network_protocol_code(raw) is Known <==> 1 <= raw <= 2,
        network_protocol_code(raw) matches EnumCode::Known(p) ==> network_protocol_number(p) == raw,
        network_direction_code(raw) is Unspecified <==> raw == 0,
        network_direction_code(raw) is Known <==> 1 <= raw <= 2,
        network_direction_code(raw) matches EnumCode::Known(p) ==> network_direction_number(p) == raw,
{
}

} // verus!
