//! Shared objects and their wire conversions.
//!
//! For each object: `is_wire_*(w, d)` states that the wire value `w` is the
//! wire form of the domain value `d` (it holds both for `to_wire` and for a
//! successful `from_wire`), and `*_error(w, path)` is the first rule that the
//! wire value breaks, in the order the fields are checked (`None` if none).
use vstd::prelude::*;
use crate::convert::{Failure, spec_join, fail, rejects, utf8_len, join, bounded, fixed, require, err, u16_field, wire_enum, EnumCode};
use crate::error::{SchemaError, SchemaErrorKind};
use crate::ids::ProcessUid;
use crate::limits::{CMD_LINE_MAX, PATH_MAX, SIGNER_MAX, USER_NAME_MAX, USER_UID_MAX};
use crate::wire;

verus! {

/// The first of two failures, if any.
pub open spec fn first(a: Option<Failure>, b: Option<Failure>) -> Option<Failure> {
    if a is Some {
        a
    } else {
        b
    }
}

/// `s` is over `max` UTF-8 bytes: `TooLarge` at `path.field`.
pub open spec fn too_large(s: String, max: usize, path: Seq<char>, field: Seq<char>) -> Option<Failure> {
    if utf8_len(s@) > max {
        fail(path, field, SchemaErrorKind::TooLarge)
    } else {
        None
    }
}

/// `b` is not `n` bytes long: `Malformed` at `path.field`.
pub open spec fn wrong_length(b: Vec<u8>, n: nat, path: Seq<char>, field: Seq<char>) -> Option<Failure> {
    if b@.len() != n {
        fail(path, field, SchemaErrorKind::Malformed)
    } else {
        None
    }
}

// ---------------------------------------------------------------- User

#[derive(Debug, Clone, PartialEq, Eq)]
pub struct User {
    /// Windows SID string.
    pub uid: String,
    /// `DOMAIN\user`.
    pub name: String,
}

pub open spec fn is_wire_user(w: wire::User, d: User) -> bool {
    w.uid == d.uid && w.name == d.name
}

pub open spec fn user_error(w: wire::User, path: Seq<char>) -> Option<Failure> {
    first(too_large(w.uid, USER_UID_MAX, path, "uid"@), too_large(w.name, USER_NAME_MAX, path, "name"@))
}

pub open spec fn is_wire_opt_user(w: Option<wire::User>, d: Option<User>) -> bool {
    match (w, d) {
        (None, None) => true,
        (Some(w), Some(d)) => is_wire_user(w, d),
        _ => false,
    }
}

pub open spec fn opt_user_error(w: Option<wire::User>, parent: Seq<char>) -> Option<Failure> {
    match w {
        Some(u) => user_error(u, spec_join(parent, "user"@)),
        None => None,
    }
}

impl User {
    pub fn to_wire(self) -> (r: wire::User)
        ensures
            is_wire_user(r, self),
    {
        wire::User { uid: self.uid, name: self.name }
    }

    pub fn from_wire(w: wire::User, path: &str) -> (r: Result<Self, SchemaError>)
        ensures
            match user_error(w, path@) {
                Some(f) => rejects(r, f),
                None => r matches Ok(d) && is_wire_user(w, d),
            },
    {
        let uid = bounded(w.uid, USER_UID_MAX, path, "uid")?;
        let name = bounded(w.name, USER_NAME_MAX, path, "name")?;
        Ok(User { uid, name })
    }

    /// An optional `User` sub-message at `parent.user`.
    pub fn optional(w: Option<wire::User>, parent: &str) -> (r: Result<Option<Self>, SchemaError>)
        ensures
            match opt_user_error(w, parent@) {
                Some(f) => rejects(r, f),
                None => r matches Ok(d) && is_wire_opt_user(w, d),
            },
    {
        match w {
            Some(u) => {
                let path = join(parent, "user");
                let d = User::from_wire(u, path.as_str())?;
                Ok(Some(d))
            },
            None => Ok(None),
        }
    }
}


// ---------------------------------------------------------------- Hashes

#[derive(Debug, Clone, PartialEq, Eq)]
pub struct Hashes {
    pub sha256: Option<[u8; 32]>,
}

pub open spec fn is_wire_hashes(w: wire::Hashes, d: Hashes) -> bool {
    match (w.sha256, d.sha256) {
        (None, None) => true,
        (Some(b), Some(a)) => b@ == a@,
        _ => false,
    }
}

pub open spec fn hashes_error(w: wire::Hashes, path: Seq<char>) -> Option<Failure> {
    match w.sha256 {
        Some(b) => wrong_length(b, 32, path, "sha256"@),
        None => None,
    }
}

impl Hashes {
    pub fn to_wire(self) -> (r: wire::Hashes)
        ensures
            is_wire_hashes(r, self),
    {
        match self.sha256 {
            Some(h) => wire::Hashes { sha256: Some(vstd::slice::slice_to_vec(&h)) },
            None => wire::Hashes { sha256: None },
        }
    }

    pub fn from_wire(w: wire::Hashes, path: &str) -> (r: Result<Self, SchemaError>)
        ensures
            match hashes_error(w, path@) {
                Some(f) => rejects(r, f),
                None => r matches Ok(d) && is_wire_hashes(w, d),
            },
    {
        let sha256 = match w.sha256 {
            Some(b) => Some(fixed::<32>(b, path, "sha256")?),
            None => None,
        };
        Ok(Hashes { sha256 })
    }
}

// ---------------------------------------------------------------- Signature

#[derive(Debug, Clone, Copy, PartialEq, Eq)]
pub enum SignatureStatus {
    Valid,
    Invalid,
    Unsigned,
}

/// The wire number of a signature status.
pub open spec fn signature_status_number(s: SignatureStatus) -> i32 {
    match s {
        SignatureStatus::Valid => 1,
        SignatureStatus::Invalid => 2,
        SignatureStatus::Unsigned => 3,
    }
}

/// What a wire signature status number means.
pub open spec fn signature_status_code(raw: i32) -> EnumCode<SignatureStatus> {
    if raw == 0 {
        EnumCode::Unspecified
    } else if raw == 1 {
        EnumCode::Known(SignatureStatus::Valid)
    } else if raw == 2 {
        EnumCode::Known(SignatureStatus::Invalid)
    } else if raw == 3 {
        EnumCode::Known(SignatureStatus::Unsigned)
    } else {
        EnumCode::Unknown
    }
}

/// The failure, if any, of a proto enum number with this meaning at `path.field`.
pub open spec fn enum_error<D>(code: EnumCode<D>, path: Seq<char>, field: Seq<char>) -> Option<Failure> {
    match code {
        EnumCode::Known(_) => None,
        EnumCode::Unspecified => fail(path, field, SchemaErrorKind::Missing),
        EnumCode::Unknown => fail(path, field, SchemaErrorKind::UnknownEnum),
    }
}

fn signature_status_from_number(raw: i32) -> (r: EnumCode<SignatureStatus>)
    ensures
        r == signature_status_code(raw),
{
    match wire::SignatureStatus::from_number(raw) {
        Some(wire::SignatureStatus::Unspecified) => EnumCode::Unspecified,
        Some(wire::SignatureStatus::Valid) => EnumCode::Known(SignatureStatus::Valid),
        Some(wire::SignatureStatus::Invalid) => EnumCode::Known(SignatureStatus::Invalid),
        Some(wire::SignatureStatus::Unsigned) => EnumCode::Known(SignatureStatus::Unsigned),
        None => {
            assert(raw != 0 && raw != 1 && raw != 2 && raw != 3) by {
                assert(wire::signature_status_number(wire::SignatureStatus::Unspecified) == 0);
                assert(wire::signature_status_number(wire::SignatureStatus::Valid) == 1);
                assert(wire::signature_status_number(wire::SignatureStatus::Invalid) == 2);
                assert(wire::signature_status_number(wire::SignatureStatus::Unsigned) == 3);
            }
            EnumCode::Unknown
        },
    }
}

impl SignatureStatus {
    fn to_wire(self) -> (r: wire::SignatureStatus)
        ensures
            wire::signature_status_number(r) == signature_status_number(self),
    {
        match self {
            SignatureStatus::Valid => wire::SignatureStatus::Valid,
            SignatureStatus::Invalid => wire::SignatureStatus::Invalid,
            SignatureStatus::Unsigned => wire::SignatureStatus::Unsigned,
        }
    }
}

#[derive(Debug, Clone, PartialEq, Eq)]
pub struct Signature {
    pub signer: Option<String>,
    pub status: SignatureStatus,
}

pub open spec fn is_wire_signature(w: wire::Signature, d: Signature) -> bool {
    w.signer == d.signer && w.status == signature_status_number(d.status)
}

pub open spec fn signature_error(w: wire::Signature, path: Seq<char>) -> Option<Failure> {
    first(
        enum_error(signature_status_code(w.status), path, "status"@),
        match w.signer {
            Some(s) => too_large(s, SIGNER_MAX, path, "signer"@),
            None => None,
        },
    )
}

impl Signature {
    pub fn to_wire(self) -> (r: wire::Signature)
        ensures
            is_wire_signature(r, self),
    {
        wire::Signature { signer: self.signer, status: self.status.to_wire().number() }
    }

    pub fn from_wire(w: wire::Signature, path: &str) -> (r: Result<Self, SchemaError>)
        ensures
            match signature_error(w, path@) {
                Some(f) => rejects(r, f),
                None => r matches Ok(d) && is_wire_signature(w, d),
            },
    {
        let status = wire_enum(signature_status_from_number(w.status), path, "status")?;
        let signer = match w.signer {
            Some(s) => Some(bounded(s, SIGNER_MAX, path, "signer")?),
            None => None,
        };
        Ok(Signature { signer, status })
    }
}

// ---------------------------------------------------------------- File

#[derive(Debug, Clone, PartialEq, Eq)]
pub struct File {
    pub path: String,
    pub name: String,
    pub hashes: Option<Hashes>,
    pub signature: Option<Signature>,
}

pub open spec fn is_wire_file(w: wire::File, d: File) -> bool {
    &&& w.path == d.path
    &&& w.name == d.name
    &&& match (w.hashes, d.hashes) {
        (None, None) => true,
        (Some(wh), Some(dh)) => is_wire_hashes(wh, dh),
        _ => false,
    }
    &&& match (w.signature, d.signature) {
        (None, None) => true,
        (Some(ws), Some(ds)) => is_wire_signature(ws, ds),
        _ => false,
    }
}

pub open spec fn file_error(w: wire::File, path: Seq<char>) -> Option<Failure> {
    first(
        too_large(w.path, PATH_MAX, path, "path"@),
        first(
            too_large(w.name, PATH_MAX, path, "name"@),
            first(
                match w.hashes {
                    Some(h) => hashes_error(h, spec_join(path, "hashes"@)),
                    None => None,
                },
                match w.signature {
                    Some(s) => signature_error(s, spec_join(path, "signature"@)),
                    None => None,
                },
            ),
        ),
    )
}

/// A required `File` at `parent.field`: `Missing` there when absent.
pub open spec fn required_file_error(w: Option<wire::File>, parent: Seq<char>, field: Seq<char>) -> Option<Failure> {
    match w {
        None => fail(parent, field, SchemaErrorKind::Missing),
        Some(f) => file_error(f, spec_join(parent, field)),
    }
}

pub open spec fn is_wire_required_file(w: Option<wire::File>, d: File) -> bool {
    w matches Some(f) && is_wire_file(f, d)
}

impl File {
    pub fn to_wire(self) -> (r: wire::File)
        ensures
            is_wire_file(r, self),
    {
        let hashes = match self.hashes {
            Some(h) => Some(h.to_wire()),
            None => None,
        };
        let signature = match self.signature {
            Some(s) => Some(s.to_wire()),
            None => None,
        };
        wire::File { path: self.path, name: self.name, hashes, signature }
    }

    pub fn from_wire(w: wire::File, path: &str) -> (r: Result<Self, SchemaError>)
        ensures
            match file_error(w, path@) {
                Some(f) => rejects(r, f),
                None => r matches Ok(d) && is_wire_file(w, d),
            },
    {
        let p = bounded(w.path, PATH_MAX, path, "path")?;
        let name = bounded(w.name, PATH_MAX, path, "name")?;
        let hashes = match w.hashes {
            Some(h) => {
                let sub = join(path, "hashes");
                Some(Hashes::from_wire(h, sub.as_str())?)
            },
            None => None,
        };
        let signature = match w.signature {
            Some(s) => {
                let sub = join(path, "signature");
                Some(Signature::from_wire(s, sub.as_str())?)
            },
            None => None,
        };
        Ok(File { path: p, name, hashes, signature })
    }

    /// A required `File` sub-message at `parent.field`.
    pub fn required(w: Option<wire::File>, parent: &str, field: &str) -> (r: Result<Self, SchemaError>)
        ensures
            match required_file_error(w, parent@, field@) {
                Some(f) => rejects(r, f),
                None => r matches Ok(d) && is_wire_required_file(w, d),
            },
    {
        let w = require(w, parent, field)?;
        let path = join(parent, field);
        File::from_wire(w, path.as_str())
    }
}

// ---------------------------------------------------------------- ProcessRef

/// The actor core carried by every event.
#[derive(Debug, Clone, PartialEq, Eq)]
pub struct ProcessRef {
    pub uid: ProcessUid,
    pub pid: u32,
    pub file: File,
    pub user: Option<User>,
}

pub open spec fn is_wire_process_ref(w: wire::ProcessRef, d: ProcessRef) -> bool {
    &&& w.uid@ == d.uid.0@
    &&& w.pid == d.pid
    &&& is_wire_required_file(w.file, d.file)
    &&& is_wire_opt_user(w.user, d.user)
}

pub open spec fn process_ref_error(w: wire::ProcessRef, path: Seq<char>) -> Option<Failure> {
    first(
        wrong_length(w.uid, 16, path, "uid"@),
        first(required_file_error(w.file, path, "file"@), opt_user_error(w.user, path)),
    )
}

pub open spec fn required_process_ref_error(
    w: Option<wire::ProcessRef>,
    parent: Seq<char>,
    field: Seq<char>,
) -> Option<Failure> {
    match w {
        None => fail(parent, field, SchemaErrorKind::Missing),
        Some(p) => process_ref_error(p, spec_join(parent, field)),
    }
}

pub open spec fn is_wire_required_process_ref(w: Option<wire::ProcessRef>, d: ProcessRef) -> bool {
    w matches Some(p) && is_wire_process_ref(p, d)
}

impl ProcessRef {
    pub fn to_wire(self) -> (r: wire::ProcessRef)
        ensures
            is_wire_process_ref(r, self),
    {
        let user = match self.user {
            Some(u) => Some(u.to_wire()),
            None => None,
        };
        wire::ProcessRef {
            uid: vstd::slice::slice_to_vec(self.uid.as_bytes()),
            pid: self.pid,
            file: Some(self.file.to_wire()),
            user,
        }
    }

    pub fn from_wire(w: wire::ProcessRef, path: &str) -> (r: Result<Self, SchemaError>)
        ensures
            match process_ref_error(w, path@) {
                Some(f) => rejects(r, f),
                None => r matches Ok(d) && is_wire_process_ref(w, d),
            },
    {
        let uid = ProcessUid::from_bytes(fixed::<16>(w.uid, path, "uid")?);
        let file = File::required(w.file, path, "file")?;
        let user = User::optional(w.user, path)?;
        Ok(ProcessRef { uid, pid: w.pid, file, user })
    }

    /// A required `ProcessRef` sub-message at `parent.field`.
    pub fn required(w: Option<wire::ProcessRef>, parent: &str, field: &str) -> (r: Result<Self, SchemaError>)
        ensures
            match required_process_ref_error(w, parent@, field@) {
                Some(f) => rejects(r, f),
                None => r matches Ok(d) && is_wire_required_process_ref(w, d),
            },
    {
        let w = require(w, parent, field)?;
        let path = join(parent, field);
        ProcessRef::from_wire(w, path.as_str())
    }
}

// ---------------------------------------------------------------- Process

#[derive(Debug, Clone, Copy, PartialEq, Eq)]
pub enum Integrity {
    Untrusted,
    Low,
    Medium,
    High,
    System,
    Protected,
}

/// The wire number of an integrity level.
pub open spec fn integrity_number(i: Integrity) -> i32 {
    match i {
        Integrity::Untrusted => 1,
        Integrity::Low => 2,
        Integrity::Medium => 3,
        Integrity::High => 4,
        Integrity::System => 5,
        Integrity::Protected => 6,
    }
}

/// What a wire integrity number means.
pub open spec fn integrity_code(raw: i32) -> EnumCode<Integrity> {
    if raw == 0 {
        EnumCode::Unspecified
    } else if raw == 1 {
        EnumCode::Known(Integrity::Untrusted)
    } else if raw == 2 {
        EnumCode::Known(Integrity::Low)
    } else if raw == 3 {
        EnumCode::Known(Integrity::Medium)
    } else if raw == 4 {
        EnumCode::Known(Integrity::High)
    } else if raw == 5 {
        EnumCode::Known(Integrity::System)
    } else if raw == 6 {
        EnumCode::Known(Integrity::Protected)
    } else {
        EnumCode::Unknown
    }
}

fn integrity_from_number(raw: i32) -> (r: EnumCode<Integrity>)
    ensures
        r == integrity_code(raw),
{
    match wire::Integrity::from_number(raw) {
        Some(wire::Integrity::Unspecified) => EnumCode::Unspecified,
        Some(wire::Integrity::Untrusted) => EnumCode::Known(Integrity::Untrusted),
        Some(wire::Integrity::Low) => EnumCode::Known(Integrity::Low),
        Some(wire::Integrity::Medium) => EnumCode::Known(Integrity::Medium),
        Some(wire::Integrity::High) => EnumCode::Known(Integrity::High),
        Some(wire::Integrity::System) => EnumCode::Known(Integrity::System),
        Some(wire::Integrity::Protected) => EnumCode::Known(Integrity::Protected),
        None => {
            assert(wire::integrity_number(wire::Integrity::Unspecified) == 0);
            assert(wire::integrity_number(wire::Integrity::Untrusted) == 1);
            assert(wire::integrity_number(wire::Integrity::Low) == 2);
            assert(wire::integrity_number(wire::Integrity::Medium) == 3);
            assert(wire::integrity_number(wire::Integrity::High) == 4);
            assert(wire::integrity_number(wire::Integrity::System) == 5);
            assert(wire::integrity_number(wire::Integrity::Protected) == 6);
            EnumCode::Unknown
        },
    }
}

impl Integrity {
    fn to_wire(self) -> (r: wire::Integrity)
        ensures
            wire::integrity_number(r) == integrity_number(self),
    {
        match self {
            Integrity::Untrusted => wire::Integrity::Untrusted,
            Integrity::Low => wire::Integrity::Low,
            Integrity::Medium => wire::Integrity::Medium,
            Integrity::High => wire::Integrity::High,
            Integrity::System => wire::Integrity::System,
            Integrity::Protected => wire::Integrity::Protected,
        }
    }
}

/// Full process detail; only carried by Process Launch.
#[derive(Debug, Clone, PartialEq, Eq)]
pub struct Process {
    pub uid: ProcessUid,
    pub pid: u32,
    pub file: File,
    pub user: Option<User>,
    pub cmd_line: String,
    pub cmd_line_truncated: bool,
    /// Nanoseconds since the Unix epoch, UTC.
    pub created_time: i64,
    pub integrity: Option<Integrity>,
    /// The parent recorded by the OS (can be spoofed). `None` when the OS
    /// reports no parent (e.g. early boot processes).
    pub parent_process: Option<ProcessRef>,
}

pub open spec fn is_wire_process(w: wire::Process, d: Process) -> bool {
    &&& w.uid@ == d.uid.0@
    &&& w.pid == d.pid
    &&& is_wire_required_file(w.file, d.file)
    &&& is_wire_opt_user(w.user, d.user)
    &&& w.cmd_line == d.cmd_line
    &&& w.cmd_line_truncated == d.cmd_line_truncated
    &&& w.created_time == d.created_time
    &&& match (w.integrity, d.integrity) {
        (None, None) => true,
        (Some(raw), Some(i)) => raw == integrity_number(i),
        _ => false,
    }
    &&& match (w.parent_process, d.parent_process) {
        (None, None) => true,
        (Some(wp), Some(dp)) => is_wire_process_ref(wp, dp),
        _ => false,
    }
}

pub open spec fn process_error(w: wire::Process, path: Seq<char>) -> Option<Failure> {
    first(
        wrong_length(w.uid, 16, path, "uid"@),
        first(
            required_file_error(w.file, path, "file"@),
            first(
                opt_user_error(w.user, path),
                first(
                    too_large(w.cmd_line, CMD_LINE_MAX, path, "cmd_line"@),
                    first(
                        match w.integrity {
                            Some(raw) => enum_error(integrity_code(raw), path, "integrity"@),
                            None => None,
                        },
                        match w.parent_process {
                            Some(p) => process_ref_error(p, spec_join(path, "parent_process"@)),
                            None => None,
                        },
                    ),
                ),
            ),
        ),
    )
}

impl Process {
    pub fn to_wire(self) -> (r: wire::Process)
        ensures
            is_wire_process(r, self),
    {
        let user = match self.user {
            Some(u) => Some(u.to_wire()),
            None => None,
        };
        let integrity = match self.integrity {
            Some(i) => Some(i.to_wire().number()),
            None => None,
        };
        let parent_process = match self.parent_process {
            Some(p) => Some(p.to_wire()),
            None => None,
        };
        wire::Process {
            uid: vstd::slice::slice_to_vec(self.uid.as_bytes()),
            pid: self.pid,
            file: Some(self.file.to_wire()),
            user,
            cmd_line: self.cmd_line,
            cmd_line_truncated: self.cmd_line_truncated,
            created_time: self.created_time,
            integrity,
            parent_process,
        }
    }

    pub fn from_wire(w: wire::Process, path: &str) -> (r: Result<Self, SchemaError>)
        ensures
            match process_error(w, path@) {
                Some(f) => rejects(r, f),
                None => r matches Ok(d) && is_wire_process(w, d),
            },
    {
        let uid = ProcessUid::from_bytes(fixed::<16>(w.uid, path, "uid")?);
        let file = File::required(w.file, path, "file")?;
        let user = User::optional(w.user, path)?;
        let cmd_line = bounded(w.cmd_line, CMD_LINE_MAX, path, "cmd_line")?;
        let integrity = match w.integrity {
            Some(raw) => Some(wire_enum(integrity_from_number(raw), path, "integrity")?),
            None => None,
        };
        let parent_process = match w.parent_process {
            Some(p) => {
                let sub = join(path, "parent_process");
                Some(ProcessRef::from_wire(p, sub.as_str())?)
            },
            None => None,
        };
        Ok(Process {
            uid,
            pid: w.pid,
            file,
            user,
            cmd_line,
            cmd_line_truncated: w.cmd_line_truncated,
            created_time: w.created_time,
            integrity,
            parent_process,
        })
    }
}

// ---------------------------------------------------------------- NetworkEndpoint

/// An IP address, as its bytes in network order.
#[derive(Debug, Clone, Copy, PartialEq, Eq)]
pub enum IpAddr {
    V4([u8; 4]),
    V6([u8; 16]),
}

/// The wire bytes of an address: 4 for IPv4, 16 for IPv6.
pub open spec fn ip_bytes(ip: IpAddr) -> Seq<u8> {
    match ip {
        IpAddr::V4(a) => a@,
        IpAddr::V6(a) => a@,
    }
}

#[derive(Debug, Clone, Copy, PartialEq, Eq)]
pub struct NetworkEndpoint {
    pub ip: IpAddr,
    pub port: u16,
}

pub open spec fn is_wire_endpoint(w: wire::NetworkEndpoint, d: NetworkEndpoint) -> bool {
    w.ip@ == ip_bytes(d.ip) && w.port == d.port as u32
}

pub open spec fn endpoint_error(w: wire::NetworkEndpoint, path: Seq<char>) -> Option<Failure> {
    if w.ip@.len() != 4 && w.ip@.len() != 16 {
        fail(path, "ip"@, SchemaErrorKind::Malformed)
    } else if w.port > u16::MAX {
        fail(path, "port"@, SchemaErrorKind::Malformed)
    } else {
        None
    }
}

pub open spec fn required_endpoint_error(
    w: Option<wire::NetworkEndpoint>,
    parent: Seq<char>,
    field: Seq<char>,
) -> Option<Failure> {
    match w {
        None => fail(parent, field, SchemaErrorKind::Missing),
        Some(e) => endpoint_error(e, spec_join(parent, field)),
    }
}

pub open spec fn is_wire_required_endpoint(w: Option<wire::NetworkEndpoint>, d: NetworkEndpoint) -> bool {
    w matches Some(e) && is_wire_endpoint(e, d)
}

impl NetworkEndpoint {
    pub fn to_wire(self) -> (r: wire::NetworkEndpoint)
        ensures
            is_wire_endpoint(r, self),
    {
        let ip = match self.ip {
            IpAddr::V4(a) => vstd::slice::slice_to_vec(&a),
            IpAddr::V6(a) => vstd::slice::slice_to_vec(&a),
        };
        wire::NetworkEndpoint { ip, port: self.port as u32 }
    }

    /// A required `NetworkEndpoint` sub-message at `parent.field`.
    pub fn required(w: Option<wire::NetworkEndpoint>, parent: &str, field: &str) -> (r: Result<Self, SchemaError>)
        ensures
            match required_endpoint_error(w, parent@, field@) {
                Some(f) => rejects(r, f),
                None => r matches Ok(d) && is_wire_required_endpoint(w, d),
            },
    {
        let w = require(w, parent, field)?;
        let path = join(parent, field);
        let n = w.ip.len();
        let ip = if n == 4 {
            IpAddr::V4(fixed::<4>(w.ip, path.as_str(), "ip")?)
        } else if n == 16 {
            IpAddr::V6(fixed::<16>(w.ip, path.as_str(), "ip")?)
        } else {
            return err(path.as_str(), "ip", SchemaErrorKind::Malformed);
        };
        let port = u16_field(w.port, path.as_str(), "port")?;
        Ok(NetworkEndpoint { ip, port })
    }
}


// ---------------------------------------------------------------- laws

/// Every string of a user is within its limit.
pub open spec fn user_valid(d: User) -> bool {
    utf8_len(d.uid@) <= USER_UID_MAX && utf8_len(d.name@) <= USER_NAME_MAX
}

pub open spec fn opt_user_valid(d: Option<User>) -> bool {
    d matches Some(u) ==> user_valid(u)
}

/// Every string of a file (and of its signature) is within its limit.
pub open spec fn file_valid(d: File) -> bool {
    &&& utf8_len(d.path@) <= PATH_MAX
    &&& utf8_len(d.name@) <= PATH_MAX
    &&& d.signature matches Some(sig) ==> (sig.signer matches Some(s) ==> utf8_len(s@) <= SIGNER_MAX)
}

pub open spec fn process_ref_valid(d: ProcessRef) -> bool {
    file_valid(d.file) && opt_user_valid(d.user)
}

pub open spec fn process_valid(d: Process) -> bool {
    &&& file_valid(d.file)
    &&& opt_user_valid(d.user)
    &&& utf8_len(d.cmd_line@) <= CMD_LINE_MAX
    &&& d.parent_process matches Some(p) ==> process_ref_valid(p)
}

/// A user within its limits passes validation in its wire form, at any path.
pub proof fn lemma_user_round_trip(d: Option<User>, w: Option<wire::User>, parent: Seq<char>)
    requires
        opt_user_valid(d),
        is_wire_opt_user(w, d),
    ensures
        opt_user_error(w, parent) is None,
{
}

/// A file within its limits passes validation in its wire form, at any path.
pub proof fn lemma_file_round_trip(d: File, w: Option<wire::File>, parent: Seq<char>, field: Seq<char>)
    requires
        file_valid(d),
        is_wire_required_file(w, d),
    ensures
        required_file_error(w, parent, field) is None,
{
    let f = w.unwrap();
    assert(signature_code_round_trip(d.signature)) by {
        if let Some(sig) = d.signature {
            match sig.status {
                SignatureStatus::Valid => {},
                SignatureStatus::Invalid => {},
                SignatureStatus::Unsigned => {},
            }
        }
    }
}

/// The wire number of a signature status means that status.
pub open spec fn signature_code_round_trip(d: Option<Signature>) -> bool {
    d matches Some(sig) ==> signature_status_code(signature_status_number(sig.status)) == EnumCode::Known(sig.status)
}

/// A process reference within its limits passes validation in its wire form.
pub proof fn lemma_process_ref_round_trip(d: ProcessRef, w: Option<wire::ProcessRef>, parent: Seq<char>, field: Seq<char>)
    requires
        process_ref_valid(d),
        is_wire_required_process_ref(w, d),
    ensures
        required_process_ref_error(w, parent, field) is None,
{
    let p = w.unwrap();
    let path = spec_join(parent, field);
    lemma_file_round_trip(d.file, p.file, path, "file"@);
    lemma_user_round_trip(d.user, p.user, path);
}

/// A process within its limits passes validation in its wire form.
pub proof fn lemma_process_round_trip(d: Process, w: wire::Process, path: Seq<char>)
    requires
        process_valid(d),
        is_wire_process(w, d),
    ensures
        process_error(w, path) is None,
{
    lemma_file_round_trip(d.file, w.file, path, "file"@);
    lemma_user_round_trip(d.user, w.user, path);
    if let Some(i) = d.integrity {
        match i {
            Integrity::Untrusted => {},
            Integrity::Low => {},
            Integrity::Medium => {},
            Integrity::High => {},
            Integrity::System => {},
            Integrity::Protected => {},
        }
    }
    if let Some(p) = d.parent_process {
        lemma_process_ref_round_trip(p, w.parent_process, path, "parent_process"@);
        assert(process_ref_error(w.parent_process.unwrap(), spec_join(path, "parent_process"@)) is None);
    }
}

/// An endpoint always passes validation in its wire form.
pub proof fn lemma_endpoint_round_trip(d: NetworkEndpoint, w: Option<wire::NetworkEndpoint>, parent: Seq<char>, field: Seq<char>)
    requires
        is_wire_required_endpoint(w, d),
    ensures
        required_endpoint_error(w, parent, field) is None,
{
}

/// The wire form of a file determines the file.
pub proof fn lemma_file_wire_unique(w: Option<wire::File>, d1: File, d2: File)
    requires
        is_wire_required_file(w, d1),
        is_wire_required_file(w, d2),
    ensures
        d1 == d2,
{
    broadcast use vstd::array::group_array_axioms;
    if let (Some(s1), Some(s2)) = (d1.signature, d2.signature) {
        assert(signature_status_number(s1.status) == signature_status_number(s2.status));
        assert(s1.status == s2.status);
    }
    if let (Some(h1), Some(h2)) = (d1.hashes, d2.hashes) {
        if let (Some(a1), Some(a2)) = (h1.sha256, h2.sha256) {
            assert(a1@ == a2@);
            assert(a1 == a2);
        }
    }
}

/// The wire form of a process reference determines it.
pub proof fn lemma_process_ref_wire_unique(w: wire::ProcessRef, d1: ProcessRef, d2: ProcessRef)
    requires
        is_wire_process_ref(w, d1),
        is_wire_process_ref(w, d2),
    ensures
        d1 == d2,
{
    broadcast use vstd::array::group_array_axioms;
    lemma_file_wire_unique(w.file, d1.file, d2.file);
    assert(d1.uid.0 == d2.uid.0);
}

/// The wire form of a process determines it.
pub proof fn lemma_process_wire_unique(w: wire::Process, d1: Process, d2: Process)
    requires
        is_wire_process(w, d1),
        is_wire_process(w, d2),
    ensures
        d1 == d2,
{
    broadcast use vstd::array::group_array_axioms;
    lemma_file_wire_unique(w.file, d1.file, d2.file);
    assert(d1.uid.0 == d2.uid.0);
    if let (Some(p1), Some(p2)) = (d1.parent_process, d2.parent_process) {
        lemma_process_ref_wire_unique(w.parent_process.unwrap(), p1, p2);
    }
    if let (Some(i1), Some(i2)) = (d1.integrity, d2.integrity) {
        assert(integrity_number(i1) == integrity_number(i2));
        assert(i1 == i2);
    }
}

/// The wire form of an endpoint determines it.
pub proof fn lemma_endpoint_wire_unique(w: wire::NetworkEndpoint, d1: NetworkEndpoint, d2: NetworkEndpoint)
    requires
        is_wire_endpoint(w, d1),
        is_wire_endpoint(w, d2),
    ensures
        d1 == d2,
{
    broadcast use {vstd::array::group_array_axioms, vstd::array::array_len_matches_n};
    match (d1.ip, d2.ip) {
        (IpAddr::V4(a), IpAddr::V4(b)) => assert(a == b),
        (IpAddr::V6(a), IpAddr::V6(b)) => assert(a == b),
        (IpAddr::V4(a), IpAddr::V6(b)) => assert(a@.len() == 4 && b@.len() == 16),
        (IpAddr::V6(a), IpAddr::V4(b)) => assert(a@.len() == 16 && b@.len() == 4),
    }
}

/// Integrity levels travel as the numbers of `atlas.events.v1.Integrity`
/// (1 UNTRUSTED, 2 LOW, 3 MEDIUM, 4 HIGH, 5 SYSTEM, 6 PROTECTED): a wire
/// process and the process it is the wire form of carry the level of the same
/// name, so encoding writes and decoding reads exactly these numbers.
pub proof fn lemma_process_integrity_numbers(w: wire::Process, d: Process)
    requires
        is_wire_process(w, d),
    ensures
        w.integrity is None <==> d.integrity is None,
        w.integrity == Some(1i32) <==> d.integrity == Some(Integrity::Untrusted),
        w.integrity == Some(2i32) <==> d.integrity == Some(Integrity::Low),
        w.integrity == Some(3i32) <==> d.integrity == Some(Integrity::Medium),
        w.integrity == Some(4i32) <==> d.integrity == Some(Integrity::High),
        w.integrity == Some(5i32) <==> d.integrity == Some(Integrity::System),
        w.integrity == Some(6i32) <==> d.integrity == Some(Integrity::Protected),
{
}

/// Decoding knows exactly the integrity numbers 1 to 6; 0 is the absent
/// `INTEGRITY_UNSPECIFIED`, anything else is unknown, and a known number
/// decodes to the level that encodes back to it.
pub proof fn lemma_integrity_numbers_known(raw: i32)
    ensures
        integrity_code(raw) is Unspecified <==> raw == 0,
        integrity_code(raw) is Known <==> 1 <= raw <= 6,
        integrity_code(raw) matches EnumCode::Known(i) ==> integrity_number(i) == raw,
{
}

/// Signature statuses travel as the numbers of `atlas.events.v1.SignatureStatus`
/// (1 VALID, 2 INVALID, 3 UNSIGNED): a wire signature and the signature it is
/// the wire form of carry the status of the same name.
pub proof fn lemma_signature_status_numbers(w: wire::Signature, d: Signature)
    requires
        is_wire_signature(w, d),
    ensures
        w.status == 1i32 <==> d.status == SignatureStatus::Valid,
        w.status == 2i32 <==> d.status == SignatureStatus::Invalid,
        w.status == 3i32 <==> d.status == SignatureStatus::Unsigned,
{
}

/// Decoding knows exactly the signature status numbers 1 to 3; 0 is the
/// absent `SIGNATURE_STATUS_UNSPECIFIED`, anything else is unknown, and a
/// known number decodes to the status that encodes back to it.
pub proof fn lemma_signature_status_numbers_known(raw: i32)
    ensures
        signature_status_code(raw) is Unspecified <==> raw == 0,
        signature_status_code(raw) is Known <==> 1 <= raw <= 3,
        signature_status_code(raw) matches EnumCode::Known(s) ==> signature_status_number(s) == raw,
{
}

/// An endpoint's address travels as its bytes in network order: 4 bytes for
/// IPv4 and 16 for IPv6, the length telling the family; the port travels
/// unchanged.
pub proof fn lemma_endpoint_address_bytes(w: wire::NetworkEndpoint, d: NetworkEndpoint)
    requires
        is_wire_endpoint(w, d),
    ensures
        w.ip@.len() == 4 <==> d.ip is V4,
        w.ip@.len() == 16 <==> d.ip is V6,
        d.ip matches IpAddr::V4(a) ==> forall|i: int| 0 <= i < 4 ==> w.ip@[i] == a[i],
        d.ip matches IpAddr::V6(a) ==> forall|i: int| 0 <= i < 16 ==> w.ip@[i] == a[i],
        w.port == d.port,
{
    broadcast use {vstd::array::group_array_axioms, vstd::array::array_len_matches_n};
}

} // verus!
