//! The `atlas.events.v1` wire messages: plain values in the shape of the
//! protobuf definitions (field for field, proto3 semantics: an absent
//! sub-message is `None`, an absent scalar is its zero value, an enum is its
//! raw number, and a `oneof` is an `Option` of an enum of its members).
use vstd::prelude::*;

verus! {

/// `atlas.events.v1.User`.
#[derive(Debug, Clone, PartialEq, Eq, Default)]
pub struct User {
    pub uid: String,
    pub name: String,
}

/// `atlas.events.v1.Hashes`.
#[derive(Debug, Clone, PartialEq, Eq, Default)]
pub struct Hashes {
    pub sha256: Option<Vec<u8>>,
}

/// `atlas.events.v1.SignatureStatus`.
#[derive(Debug, Clone, Copy, PartialEq, Eq)]
pub enum SignatureStatus {
    Unspecified,
    Valid,
    Invalid,
    Unsigned,
}

/// `atlas.events.v1.Signature`.
#[derive(Debug, Clone, PartialEq, Eq, Default)]
pub struct Signature {
    pub signer: Option<String>,
    /// A `SignatureStatus` number.
    pub status: i32,
}

/// `atlas.events.v1.File`.
#[derive(Debug, Clone, PartialEq, Eq, Default)]
pub struct File {
    pub path: String,
    pub name: String,
    pub hashes: Option<Hashes>,
    pub signature: Option<Signature>,
}

/// `atlas.events.v1.ProcessRef`.
#[derive(Debug, Clone, PartialEq, Eq, Default)]
pub struct ProcessRef {
    pub uid: Vec<u8>,
    pub pid: u32,
    pub file: Option<File>,
    pub user: Option<User>,
}

/// `atlas.events.v1.Integrity`.
#[derive(Debug, Clone, Copy, PartialEq, Eq)]
pub enum Integrity {
    Unspecified,
    Untrusted,
    Low,
    Medium,
    High,
    System,
    Protected,
}

/// `atlas.events.v1.Process`.
#[derive(Debug, Clone, PartialEq, Eq, Default)]
pub struct Process {
    pub uid: Vec<u8>,
    pub pid: u32,
    pub file: Option<File>,
    pub user: Option<User>,
    pub cmd_line: String,
    pub cmd_line_truncated: bool,
    pub created_time: i64,
    /// An `Integrity` number, when present.
    pub integrity: Option<i32>,
    pub parent_process: Option<ProcessRef>,
}

/// `atlas.events.v1.NetworkEndpoint`.
#[derive(Debug, Clone, PartialEq, Eq, Default)]
pub struct NetworkEndpoint {
    pub ip: Vec<u8>,
    pub port: u32,
}

/// `atlas.events.v1.ProcessActivity`.
#[derive(Debug, Clone, PartialEq, Eq, Default)]
pub struct ProcessActivity {
    pub activity: Option<ProcessActivityKind>,
}

/// The `activity` oneof of `ProcessActivity`.
#[derive(Debug, Clone, PartialEq, Eq)]
pub enum ProcessActivityKind {
    Launch(ProcessLaunch),
    Terminate(ProcessTerminate),
}

/// `atlas.events.v1.ProcessLaunch`.
#[derive(Debug, Clone, PartialEq, Eq, Default)]
pub struct ProcessLaunch {
    pub actor: Option<ProcessRef>,
    pub process: Option<Process>,
}

/// `atlas.events.v1.ProcessTerminate`.
#[derive(Debug, Clone, PartialEq, Eq, Default)]
pub struct ProcessTerminate {
    pub process: Option<ProcessRef>,
    pub exit_code: Option<i32>,
}

/// `atlas.events.v1.ModuleActivity`.
#[derive(Debug, Clone, PartialEq, Eq, Default)]
pub struct ModuleActivity {
    pub actor: Option<ProcessRef>,
    pub activity: Option<ModuleActivityKind>,
}

/// The `activity` oneof of `ModuleActivity`.
#[derive(Debug, Clone, PartialEq, Eq)]
pub enum ModuleActivityKind {
    Load(ModuleLoad),
}

/// `atlas.events.v1.ModuleLoad`.
#[derive(Debug, Clone, PartialEq, Eq, Default)]
pub struct ModuleLoad {
    pub file: Option<File>,
    pub base_address: u64,
}

/// `atlas.events.v1.NetworkProtocol`.
#[derive(Debug, Clone, Copy, PartialEq, Eq)]
pub enum NetworkProtocol {
    Unspecified,
    Tcp,
    Udp,
}

/// `atlas.events.v1.NetworkDirection`.
#[derive(Debug, Clone, Copy, PartialEq, Eq)]
pub enum NetworkDirection {
    Unspecified,
    Inbound,
    Outbound,
}

/// `atlas.events.v1.NetworkActivity`.
#[derive(Debug, Clone, PartialEq, Eq, Default)]
pub struct NetworkActivity {
    pub actor: Option<ProcessRef>,
    pub src_endpoint: Option<NetworkEndpoint>,
    pub dst_endpoint: Option<NetworkEndpoint>,
    /// A `NetworkProtocol` number.
    pub protocol: i32,
    /// A `NetworkDirection` number.
    pub direction: i32,
    pub activity: Option<NetworkActivityKind>,
}

/// The `activity` oneof of `NetworkActivity`.
#[derive(Debug, Clone, PartialEq, Eq)]
pub enum NetworkActivityKind {
    Open(NetworkOpen),
    Close(NetworkClose),
}

/// `atlas.events.v1.NetworkOpen`.
#[derive(Debug, Clone, Copy, PartialEq, Eq, Default)]
pub struct NetworkOpen {}

/// `atlas.events.v1.NetworkClose`.
#[derive(Debug, Clone, Copy, PartialEq, Eq, Default)]
pub struct NetworkClose {
    pub bytes_in: Option<u64>,
    pub bytes_out: Option<u64>,
}

/// `atlas.events.v1.FileSystemActivity`.
#[derive(Debug, Clone, PartialEq, Eq, Default)]
pub struct FileSystemActivity {
    pub actor: Option<ProcessRef>,
    pub file: Option<File>,
    pub activity: Option<FileSystemActivityKind>,
}

/// The `activity` oneof of `FileSystemActivity`.
#[derive(Debug, Clone, PartialEq, Eq)]
pub enum FileSystemActivityKind {
    Create(FileCreate),
    Read(FileRead),
    Update(FileUpdate),
    Delete(FileDelete),
    Rename(FileRename),
    SetAttributes(FileSetAttributes),
}

/// `atlas.events.v1.FileCreate`.
#[derive(Debug, Clone, Copy, PartialEq, Eq, Default)]
pub struct FileCreate {}

/// `atlas.events.v1.FileRead`.
#[derive(Debug, Clone, Copy, PartialEq, Eq, Default)]
pub struct FileRead {}

/// `atlas.events.v1.FileUpdate`.
#[derive(Debug, Clone, Copy, PartialEq, Eq, Default)]
pub struct FileUpdate {}

/// `atlas.events.v1.FileDelete`.
#[derive(Debug, Clone, Copy, PartialEq, Eq, Default)]
pub struct FileDelete {}

/// `atlas.events.v1.FileRename`.
#[derive(Debug, Clone, PartialEq, Eq, Default)]
pub struct FileRename {
    pub file_result: Option<File>,
}

/// `atlas.events.v1.FileSetAttributes`.
#[derive(Debug, Clone, Copy, PartialEq, Eq, Default)]
pub struct FileSetAttributes {}

/// `atlas.events.v1.RegistryKeyActivity`.
#[derive(Debug, Clone, PartialEq, Eq, Default)]
pub struct RegistryKeyActivity {
    pub actor: Option<ProcessRef>,
    pub path: String,
    pub activity: Option<RegistryKeyActivityKind>,
}

/// The `activity` oneof of `RegistryKeyActivity`.
#[derive(Debug, Clone, PartialEq, Eq)]
pub enum RegistryKeyActivityKind {
    Create(RegistryKeyCreate),
    Delete(RegistryKeyDelete),
    Rename(RegistryKeyRename),
}

/// `atlas.events.v1.RegistryKeyCreate`.
#[derive(Debug, Clone, Copy, PartialEq, Eq, Default)]
pub struct RegistryKeyCreate {}

/// `atlas.events.v1.RegistryKeyDelete`.
#[derive(Debug, Clone, Copy, PartialEq, Eq, Default)]
pub struct RegistryKeyDelete {}

/// `atlas.events.v1.RegistryKeyRename`.
#[derive(Debug, Clone, PartialEq, Eq, Default)]
pub struct RegistryKeyRename {
    pub prev_path: String,
}

/// `atlas.events.v1.RegistryValueActivity`.
#[derive(Debug, Clone, PartialEq, Eq, Default)]
pub struct RegistryValueActivity {
    pub actor: Option<ProcessRef>,
    pub key_path: String,
    pub name: String,
    pub activity: Option<RegistryValueActivityKind>,
}

/// The `activity` oneof of `RegistryValueActivity`.
#[derive(Debug, Clone, PartialEq, Eq)]
pub enum RegistryValueActivityKind {
    SetValue(RegistryValueSet),
    Delete(RegistryValueDelete),
}

/// `atlas.events.v1.RegistryValueSet`. The proto field `type` (a Windows
/// `REG_*` constant, with explicit presence) is `value_type` here.
#[derive(Debug, Clone, PartialEq, Eq, Default)]
pub struct RegistryValueSet {
    pub value_type: Option<u32>,
    pub data: Vec<u8>,
    pub data_truncated: bool,
}

/// `atlas.events.v1.RegistryValueDelete`.
#[derive(Debug, Clone, Copy, PartialEq, Eq, Default)]
pub struct RegistryValueDelete {}

/// `atlas.events.v1.DnsActivity`.
#[derive(Debug, Clone, PartialEq, Eq, Default)]
pub struct DnsActivity {
    pub actor: Option<ProcessRef>,
    pub hostname: String,
    pub query_type: u32,
    pub activity: Option<DnsActivityKind>,
}

/// The `activity` oneof of `DnsActivity`.
#[derive(Debug, Clone, PartialEq, Eq)]
pub enum DnsActivityKind {
    Response(DnsResponse),
}

/// `atlas.events.v1.DnsAnswer`. The proto field `type` is `rr_type` here.
#[derive(Debug, Clone, PartialEq, Eq, Default)]
pub struct DnsAnswer {
    pub rr_type: u32,
    pub data: String,
}

/// `atlas.events.v1.DnsResponse`.
#[derive(Debug, Clone, PartialEq, Eq, Default)]
pub struct DnsResponse {
    pub rcode: Option<u32>,
    pub platform_status: Option<u32>,
    pub answers: Vec<DnsAnswer>,
}

/// `atlas.events.v1.Sensor`.
#[derive(Debug, Clone, Copy, PartialEq, Eq)]
pub enum Sensor {
    Unspecified,
    Etw,
    Driver,
}

/// `atlas.events.v1.Device`.
#[derive(Debug, Clone, PartialEq, Eq, Default)]
pub struct Device {
    pub uid: Vec<u8>,
    pub boot_id: Vec<u8>,
}

/// `atlas.events.v1.Event`.
#[derive(Debug, Clone, PartialEq, Eq, Default)]
pub struct Event {
    pub event_id: Vec<u8>,
    pub time: i64,
    /// A `Sensor` number.
    pub sensor: i32,
    pub device: Option<Device>,
    pub kind: Option<EventKind>,
}

/// The `kind` oneof of `Event` (field numbers 10 to 16).
#[derive(Debug, Clone, PartialEq, Eq)]
pub enum EventKind {
    Process(ProcessActivity),
    Module(ModuleActivity),
    Network(NetworkActivity),
    File(FileSystemActivity),
    RegistryKey(RegistryKeyActivity),
    RegistryValue(RegistryValueActivity),
    Dns(DnsActivity),
}

// ---- enum numbers ----

pub open spec fn signature_status_number(s: SignatureStatus) -> i32 {
    match s {
        SignatureStatus::Unspecified => 0,
        SignatureStatus::Valid => 1,
        SignatureStatus::Invalid => 2,
        SignatureStatus::Unsigned => 3,
    }
}

pub open spec fn integrity_number(i: Integrity) -> i32 {
    match i {
        Integrity::Unspecified => 0,
        Integrity::Untrusted => 1,
        Integrity::Low => 2,
        Integrity::Medium => 3,
        Integrity::High => 4,
        Integrity::System => 5,
        Integrity::Protected => 6,
    }
}

pub open spec fn network_protocol_number(p: NetworkProtocol) -> i32 {
    match p {
        NetworkProtocol::Unspecified => 0,
        NetworkProtocol::Tcp => 1,
        NetworkProtocol::Udp => 2,
    }
}

pub open spec fn network_direction_number(d: NetworkDirection) -> i32 {
    match d {
        NetworkDirection::Unspecified => 0,
        NetworkDirection::Inbound => 1,
        NetworkDirection::Outbound => 2,
    }
}

pub open spec fn sensor_number(s: Sensor) -> i32 {
    match s {
        Sensor::Unspecified => 0,
        Sensor::Etw => 1,
        Sensor::Driver => 2,
    }
}

impl SignatureStatus {
    /// The proto enum number.
    pub fn number(self) -> (r: i32)
        ensures
            r == signature_status_number(self),
    {
        match self {
            SignatureStatus::Unspecified => 0,
            SignatureStatus::Valid => 1,
            SignatureStatus::Invalid => 2,
            SignatureStatus::Unsigned => 3,
        }
    }

    /// The enum value with this number, if this build knows it.
    pub fn from_number(raw: i32) -> (r: Option<Self>)
        ensures
            match r {
                Some(s) => signature_status_number(s) == raw,
                None => forall|s: SignatureStatus| signature_status_number(s) != raw,
            },
    {
        match raw {
            0 => Some(SignatureStatus::Unspecified),
            1 => Some(SignatureStatus::Valid),
            2 => Some(SignatureStatus::Invalid),
            3 => Some(SignatureStatus::Unsigned),
            _ => None,
        }
    }
}

impl Integrity {
    /// The proto enum number.
    pub fn number(self) -> (r: i32)
        ensures
            r == integrity_number(self),
    {
        match self {
            Integrity::Unspecified => 0,
            Integrity::Untrusted => 1,
            Integrity::Low => 2,
            Integrity::Medium => 3,
            Integrity::High => 4,
            Integrity::System => 5,
            Integrity::Protected => 6,
        }
    }

    /// The enum value with this number, if this build knows it.
    pub fn from_number(raw: i32) -> (r: Option<Self>)
        ensures
            match r {
                Some(i) => integrity_number(i) == raw,
                None => forall|i: Integrity| integrity_number(i) != raw,
            },
    {
        match raw {
            0 => Some(Integrity::Unspecified),
            1 => Some(Integrity::Untrusted),
            2 => Some(Integrity::Low),
            3 => Some(Integrity::Medium),
            4 => Some(Integrity::High),
            5 => Some(Integrity::System),
            6 => Some(Integrity::Protected),
            _ => None,
        }
    }
}

impl NetworkProtocol {
    /// The proto enum number.
    pub fn number(self) -> (r: i32)
        ensures
            r == network_protocol_number(self),
    {
        match self {
            NetworkProtocol::Unspecified => 0,
            NetworkProtocol::Tcp => 1,
            NetworkProtocol::Udp => 2,
        }
    }

    /// The enum value with this number, if this build knows it.
    pub fn from_number(raw: i32) -> (r: Option<Self>)
        ensures
            match r {
                Some(p) => network_protocol_number(p) == raw,
                None => forall|p: NetworkProtocol| network_protocol_number(p) != raw,
            },
    {
        match raw {
            0 => Some(NetworkProtocol::Unspecified),
            1 => Some(NetworkProtocol::Tcp),
            2 => Some(NetworkProtocol::Udp),
            _ => None,
        }
    }
}

impl NetworkDirection {
    /// The proto enum number.
    pub fn number(self) -> (r: i32)
        ensures
            r == network_direction_number(self),
    {
        match self {
            NetworkDirection::Unspecified => 0,
            NetworkDirection::Inbound => 1,
            NetworkDirection::Outbound => 2,
        }
    }

    /// The enum value with this number, if this build knows it.
    pub fn from_number(raw: i32) -> (r: Option<Self>)
        ensures
            match r {
                Some(d) => network_direction_number(d) == raw,
                None => forall|d: NetworkDirection| network_direction_number(d) != raw,
            },
    {
        match raw {
            0 => Some(NetworkDirection::Unspecified),
            1 => Some(NetworkDirection::Inbound),
            2 => Some(NetworkDirection::Outbound),
            _ => None,
        }
    }
}

impl Sensor {
    /// The proto enum number.
    pub fn number(self) -> (r: i32)
        ensures
            r == sensor_number(self),
    {
        match self {
            Sensor::Unspecified => 0,
            Sensor::Etw => 1,
            Sensor::Driver => 2,
        }
    }

    /// The enum value with this number, if this build knows it.
    pub fn from_number(raw: i32) -> (r: Option<Self>)
        ensures
            match r {
                Some(s) => sensor_number(s) == raw,
                None => forall|s: Sensor| sensor_number(s) != raw,
            },
    {
        match raw {
            0 => Some(Sensor::Unspecified),
            1 => Some(Sensor::Etw),
            2 => Some(Sensor::Driver),
            _ => None,
        }
    }
}

} // verus!
