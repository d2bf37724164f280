use atlas_schema::limits::PATH_MAX;
use atlas_schema::wire;
use atlas_schema::{
    File, Hashes, Integrity, IpAddr, NetworkEndpoint, Process, ProcessRef, ProcessUid, SchemaError,
    SchemaErrorKind, Signature, SignatureStatus, User,
};

fn file(path: &str) -> File {
    File { path: path.into(), name: "x.exe".into(), hashes: None, signature: None }
}

fn proc_ref() -> ProcessRef {
    ProcessRef { uid: ProcessUid::from_bytes([7; 16]), pid: 42, file: file("C:\\x.exe"), user: None }
}

fn kind_at<T: std::fmt::Debug>(r: Result<T, SchemaError>) -> (String, SchemaErrorKind) {
    let e = r.unwrap_err();
    (e.field_path, e.kind)
}

#[test]
fn file_round_trips_with_enrichment() {
    let f = File {
        hashes: Some(Hashes { sha256: Some([1; 32]) }),
        signature: Some(Signature { signer: None, status: SignatureStatus::Unsigned }),
        ..file("C:\\a.dll")
    };
    assert_eq!(File::from_wire(f.clone().to_wire(), "file").unwrap(), f);
}

#[test]
fn file_path_over_limit_is_too_large() {
    let w = wire::File { path: "a".repeat(PATH_MAX + 1), ..file("x").to_wire() };
    assert_eq!(kind_at(File::from_wire(w, "file")), ("file.path".into(), SchemaErrorKind::TooLarge));
}

#[test]
fn sha256_must_be_32_bytes() {
    let w = wire::File { hashes: Some(wire::Hashes { sha256: Some(vec![0; 31]) }), ..file("x").to_wire() };
    assert_eq!(kind_at(File::from_wire(w, "file")), ("file.hashes.sha256".into(), SchemaErrorKind::Malformed));
}

#[test]
fn signature_status_unspecified_is_missing_and_unknown_is_unknown() {
    let w = |status| wire::File { signature: Some(wire::Signature { signer: None, status }), ..file("x").to_wire() };
    assert_eq!(kind_at(File::from_wire(w(0), "f")), ("f.signature.status".into(), SchemaErrorKind::Missing));
    assert_eq!(kind_at(File::from_wire(w(99), "f")), ("f.signature.status".into(), SchemaErrorKind::UnknownEnum));
}

#[test]
fn process_ref_uid_must_be_16_bytes() {
    let w = wire::ProcessRef { uid: vec![0; 15], ..proc_ref().to_wire() };
    assert_eq!(
        kind_at(ProcessRef::from_wire(w, "actor.process")),
        ("actor.process.uid".into(), SchemaErrorKind::Malformed)
    );
}

#[test]
fn process_round_trips_and_integrity_zero_is_missing() {
    let p = Process {
        uid: ProcessUid::from_bytes([1; 16]),
        pid: 1,
        file: file("C:\\p.exe"),
        user: None,
        cmd_line: String::new(),
        cmd_line_truncated: false,
        created_time: 0,
        integrity: None,
        parent_process: Some(proc_ref()),
    };
    assert_eq!(Process::from_wire(p.clone().to_wire(), "process").unwrap(), p);
    let w = wire::Process { integrity: Some(0), ..p.to_wire() };
    assert_eq!(kind_at(Process::from_wire(w, "process")), ("process.integrity".into(), SchemaErrorKind::Missing));
}

#[test]
fn endpoints_round_trip_v4_and_v6() {
    let mut localhost = [0u8; 16];
    localhost[15] = 1;
    for ip in [IpAddr::V4([10, 0, 0, 1]), IpAddr::V6(localhost)] {
        let e = NetworkEndpoint { ip, port: 443 };
        assert_eq!(NetworkEndpoint::required(Some(e.to_wire()), "", "src_endpoint").unwrap(), e);
    }
}

#[test]
fn endpoint_rejects_bad_ip_length_bad_port_and_absence() {
    let bad_ip = wire::NetworkEndpoint { ip: vec![1, 2, 3, 4, 5], port: 1 };
    assert_eq!(
        kind_at(NetworkEndpoint::required(Some(bad_ip), "", "dst_endpoint")),
        ("dst_endpoint.ip".into(), SchemaErrorKind::Malformed)
    );
    let bad_port = wire::NetworkEndpoint { ip: vec![1, 2, 3, 4], port: 70_000 };
    assert_eq!(
        kind_at(NetworkEndpoint::required(Some(bad_port), "", "src_endpoint")),
        ("src_endpoint.port".into(), SchemaErrorKind::Malformed)
    );
    assert_eq!(
        kind_at(NetworkEndpoint::required(None, "", "src_endpoint")),
        ("src_endpoint".into(), SchemaErrorKind::Missing)
    );
}

#[test]
fn wire_forms_carry_the_enum_numbers() {
    let sig = Signature { signer: Some("Microsoft".into()), status: SignatureStatus::Invalid }.to_wire();
    assert_eq!(sig.status, 2);
    let p = Process {
        uid: ProcessUid::from_bytes([1; 16]),
        pid: 1,
        file: file("C:\\p.exe"),
        user: Some(User { uid: "S-1-5-18".into(), name: "NT AUTHORITY\\SYSTEM".into() }),
        cmd_line: "p.exe".into(),
        cmd_line_truncated: true,
        created_time: -5,
        integrity: Some(Integrity::Protected),
        parent_process: None,
    };
    let w = p.clone().to_wire();
    assert_eq!(w.integrity, Some(6));
    assert_eq!(w.uid, vec![1; 16]);
    assert_eq!(Process::from_wire(w, "process").unwrap(), p);
}

#[test]
fn user_strings_are_bounded() {
    let w = wire::User { uid: "a".repeat(257), name: String::new() };
    assert_eq!(kind_at(User::from_wire(w, "actor.process.user")), ("actor.process.user.uid".into(), SchemaErrorKind::TooLarge));
    let w = wire::User { uid: "a".repeat(256), name: "b".repeat(1025) };
    assert_eq!(kind_at(User::from_wire(w, "u")), ("u.name".into(), SchemaErrorKind::TooLarge));
    let w = wire::User { uid: "a".repeat(256), name: "b".repeat(1024) };
    assert!(User::from_wire(w, "u").is_ok());
}

#[test]
fn multibyte_strings_are_measured_in_utf8_bytes() {
    // 16384 two-byte characters: exactly PATH_MAX bytes.
    let at_limit = "é".repeat(PATH_MAX / 2);
    assert!(File::from_wire(wire::File { name: at_limit.clone(), ..file("x").to_wire() }, "f").is_ok());
    let over = at_limit + "a";
    assert_eq!(
        kind_at(File::from_wire(wire::File { name: over, ..file("x").to_wire() }, "f")),
        ("f.name".into(), SchemaErrorKind::TooLarge)
    );
}
