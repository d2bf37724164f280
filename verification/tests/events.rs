//! Event-level samples, the validation rule table, round trips and OCSF ids.
use atlas_schema::classes::dns::{DnsAction, DnsActivity, DnsAnswer};
use atlas_schema::classes::file::{FileAction, FileSystemActivity};
use atlas_schema::classes::module::{ModuleAction, ModuleActivity};
use atlas_schema::classes::network::{NetworkAction, NetworkActivity, NetworkDirection, NetworkProtocol};
use atlas_schema::classes::process::ProcessActivity;
use atlas_schema::classes::registry::{
    RegValueType, RegistryKeyAction, RegistryKeyActivity, RegistryValueAction, RegistryValueActivity,
};
use atlas_schema::limits::{
    CMD_LINE_MAX, DNS_ANSWERS_MAX, DNS_ANSWER_DATA_MAX, DNS_HOSTNAME_MAX, EVENT_MAX, PATH_MAX, REG_DATA_MAX,
    SIGNER_MAX, USER_NAME_MAX, USER_UID_MAX,
};
use atlas_schema::wire::{self, EventKind as Kind};
use atlas_schema::{
    check_event_size, event_from_decoded, process_uid, BootId, Device, DeviceUid, Event, EventId, EventKind,
    EventMeta, File, Hashes, Integrity, IpAddr, NetworkEndpoint, Process, ProcessRef, SchemaError,
    SchemaErrorKind as K, Sensor, Signature, SignatureStatus, User,
};

// ---------------------------------------------------------------- samples

fn fixed_event_id() -> EventId {
    // 0192... is a valid UUIDv7 (version nibble 7, RFC 9562 variant).
    EventId::from_uuid([0x01, 0x92, 0x2a, 0x6e, 0x5b, 0x00, 0x70, 0x00, 0x80, 0x00, 0x00, 0x00, 0x00, 0x00, 0x00, 0x01])
        .expect("valid v7")
}

fn device() -> Device {
    Device { uid: DeviceUid::from_bytes([0xd0; 16]), boot_id: BootId::from_bytes([0xb0; 16]) }
}

fn file(path: &str) -> File {
    let name = path.rsplit('\\').next().unwrap_or(path).to_owned();
    File { path: path.to_owned(), name, hashes: None, signature: None }
}

fn user() -> User {
    User { uid: "S-1-5-21-1000-1000-1000-1001".into(), name: "DESK-01\\jake".into() }
}

fn proc_ref(start_key: u64, path: &str, pid: u32) -> ProcessRef {
    let d = device();
    ProcessRef { uid: process_uid(&d.uid, &d.boot_id, start_key), pid, file: file(path), user: Some(user()) }
}

fn actor() -> ProcessRef {
    proc_ref(7788, "C:\\Windows\\System32\\WindowsPowerShell\\v1.0\\powershell.exe", 7788)
}

fn event(kind: EventKind) -> Event {
    Event {
        meta: EventMeta { event_id: fixed_event_id(), time: 1_790_000_000_123_456_789, sensor: Sensor::Etw },
        device: device(),
        kind,
    }
}

fn file_event(action: FileAction) -> Event {
    event(EventKind::File(FileSystemActivity { actor: actor(), file: file("C:\\Users\\jake\\a.txt"), action }))
}

fn net_event(action: NetworkAction) -> Event {
    let mut localhost = [0u8; 16];
    localhost[15] = 1;
    event(EventKind::Network(NetworkActivity {
        actor: actor(),
        src_endpoint: NetworkEndpoint { ip: IpAddr::V4([10, 0, 0, 5]), port: 50123 },
        dst_endpoint: NetworkEndpoint { ip: IpAddr::V6(localhost), port: 443 },
        protocol: NetworkProtocol::Tcp,
        direction: NetworkDirection::Outbound,
        action,
    }))
}

fn reg_key_event(action: RegistryKeyAction) -> Event {
    event(EventKind::RegistryKey(RegistryKeyActivity { actor: actor(), path: "HKLM\\SOFTWARE\\Atlas\\New".into(), action }))
}

fn reg_value_event(action: RegistryValueAction) -> Event {
    event(EventKind::RegistryValue(RegistryValueActivity {
        actor: actor(),
        key_path: "HKCU\\Software\\Microsoft\\Windows\\CurrentVersion\\Run".into(),
        name: "Updater".into(),
        action,
    }))
}

/// One valid event per (class, activity), named `<class>_<activity>`.
fn samples() -> Vec<(&'static str, Event)> {
    let launch = ProcessActivity::Launch {
        actor: proc_ref(4120, "C:\\Program Files\\Microsoft Office\\root\\Office16\\WINWORD.EXE", 4120),
        process: Process {
            uid: actor().uid,
            pid: 7788,
            file: File {
                hashes: Some(Hashes { sha256: Some([0xab; 32]) }),
                signature: Some(Signature { signer: Some("Microsoft Windows".into()), status: SignatureStatus::Valid }),
                ..file("C:\\Windows\\System32\\WindowsPowerShell\\v1.0\\powershell.exe")
            },
            user: Some(user()),
            cmd_line: "powershell.exe -enc SQBFAFgA".into(),
            cmd_line_truncated: false,
            created_time: 1_790_000_000_123_000_000,
            integrity: Some(Integrity::Medium),
            parent_process: Some(proc_ref(4120, "C:\\Program Files\\Microsoft Office\\root\\Office16\\WINWORD.EXE", 4120)),
        },
    };
    vec![
        ("process_launch", event(EventKind::Process(launch))),
        ("process_terminate", event(EventKind::Process(ProcessActivity::Terminate { process: actor(), exit_code: Some(0) }))),
        (
            "module_load",
            event(EventKind::Module(ModuleActivity {
                actor: actor(),
                action: ModuleAction::Load { file: file("C:\\Windows\\System32\\amsi.dll"), base_address: 0x7ffb_1234_0000 },
            })),
        ),
        ("network_open", net_event(NetworkAction::Open)),
        ("network_close", net_event(NetworkAction::Close { bytes_in: Some(5120), bytes_out: Some(812) })),
        ("file_create", file_event(FileAction::Create)),
        ("file_read", file_event(FileAction::Read)),
        ("file_update", file_event(FileAction::Update)),
        ("file_delete", file_event(FileAction::Delete)),
        ("file_rename", file_event(FileAction::Rename { file_result: file("C:\\Users\\jake\\a.txt.locked") })),
        ("file_set_attributes", file_event(FileAction::SetAttributes)),
        ("registry_key_create", reg_key_event(RegistryKeyAction::Create)),
        ("registry_key_delete", reg_key_event(RegistryKeyAction::Delete)),
        ("registry_key_rename", reg_key_event(RegistryKeyAction::Rename { prev_path: "HKLM\\SOFTWARE\\Atlas\\Old".into() })),
        (
            "registry_value_set",
            reg_value_event(RegistryValueAction::SetValue {
                value_type: RegValueType::Sz,
                data: "C:\\Users\\Public\\u.exe\0".encode_utf16().flat_map(u16::to_le_bytes).collect(),
                data_truncated: false,
            }),
        ),
        ("registry_value_delete", reg_value_event(RegistryValueAction::Delete)),
        (
            "dns_response",
            event(EventKind::Dns(DnsActivity {
                actor: actor(),
                hostname: "example.com".into(),
                query_type: 28,
                action: DnsAction::Response {
                    rcode: Some(0),
                    platform_status: Some(0),
                    answers: vec![DnsAnswer { rr_type: 28, data: "2606:2800:21f:cb07:6820:80da:af6b:8b2c".into() }],
                },
            })),
        ),
    ]
}

// ---------------------------------------------------------------- round trip

#[test]
fn every_sample_round_trips() {
    for (name, event) in samples() {
        let decoded = Event::try_from_wire(event.clone().to_wire()).unwrap_or_else(|e| panic!("{name}: {}", e.to_string()));
        assert_eq!(decoded, event, "{name}");
    }
}

// ---------------------------------------------------------------- validation

fn wire_sample(name: &str) -> wire::Event {
    let (_, event) = samples().into_iter().find(|(n, _)| *n == name).expect("sample exists");
    event.to_wire()
}

fn check(w: wire::Event) -> Result<Event, SchemaError> {
    Event::try_from_wire(w)
}

fn launch(w: &mut wire::Event) -> &mut wire::ProcessLaunch {
    match w.kind.as_mut() {
        Some(Kind::Process(wire::ProcessActivity { activity: Some(wire::ProcessActivityKind::Launch(l)) })) => l,
        _ => panic!("not a launch"),
    }
}

fn launch_process(w: &mut wire::Event) -> &mut wire::Process {
    launch(w).process.as_mut().expect("process")
}

fn launch_file(w: &mut wire::Event) -> &mut wire::File {
    launch_process(w).file.as_mut().expect("file")
}

fn network(w: &mut wire::Event) -> &mut wire::NetworkActivity {
    match w.kind.as_mut() {
        Some(Kind::Network(n)) => n,
        _ => panic!("not network"),
    }
}

fn file_activity(w: &mut wire::Event) -> &mut wire::FileSystemActivity {
    match w.kind.as_mut() {
        Some(Kind::File(f)) => f,
        _ => panic!("not file"),
    }
}

fn reg_key(w: &mut wire::Event) -> &mut wire::RegistryKeyActivity {
    match w.kind.as_mut() {
        Some(Kind::RegistryKey(k)) => k,
        _ => panic!("not registry key"),
    }
}

fn reg_value(w: &mut wire::Event) -> &mut wire::RegistryValueActivity {
    match w.kind.as_mut() {
        Some(Kind::RegistryValue(v)) => v,
        _ => panic!("not registry value"),
    }
}

fn reg_value_set(w: &mut wire::Event) -> &mut wire::RegistryValueSet {
    match reg_value(w).activity.as_mut() {
        Some(wire::RegistryValueActivityKind::SetValue(s)) => s,
        _ => panic!("not a set"),
    }
}

fn dns_activity(w: &mut wire::Event) -> &mut wire::DnsActivity {
    match w.kind.as_mut() {
        Some(Kind::Dns(d)) => d,
        _ => panic!("not dns"),
    }
}

fn dns_response(w: &mut wire::Event) -> &mut wire::DnsResponse {
    match dns_activity(w).activity.as_mut() {
        Some(wire::DnsActivityKind::Response(r)) => r,
        None => panic!("no response"),
    }
}

fn long(n: usize) -> String {
    "a".repeat(n)
}

type Mutation = fn(&mut wire::Event);

const CASES: &[(&str, Mutation, &str, K)] = &[
    // envelope
    ("process_launch", |w| w.event_id.truncate(15), "event_id", K::Malformed),
    ("process_launch", |w| w.event_id[6] = 0x40, "event_id", K::Malformed), // version 4, not 7
    ("process_launch", |w| w.sensor = 0, "sensor", K::Missing),
    ("process_launch", |w| w.sensor = 99, "sensor", K::UnknownEnum),
    ("process_launch", |w| w.device = None, "device", K::Missing),
    ("process_launch", |w| w.device.as_mut().unwrap().uid.truncate(15), "device.uid", K::Malformed),
    ("process_launch", |w| w.device.as_mut().unwrap().boot_id.clear(), "device.boot_id", K::Malformed),
    ("process_launch", |w| w.kind = None, "kind", K::Missing),
    // process
    (
        "process_launch",
        |w| match w.kind.as_mut() {
            Some(Kind::Process(p)) => p.activity = None,
            _ => unreachable!(),
        },
        "activity",
        K::Missing,
    ),
    ("process_launch", |w| launch(w).actor = None, "actor.process", K::Missing),
    ("process_launch", |w| launch(w).actor.as_mut().unwrap().file = None, "actor.process.file", K::Missing),
    ("process_launch", |w| launch(w).process = None, "process", K::Missing),
    ("process_launch", |w| launch_process(w).file = None, "process.file", K::Missing),
    ("process_launch", |w| launch_file(w).path = long(PATH_MAX + 1), "process.file.path", K::TooLarge),
    ("process_launch", |w| launch_file(w).name = long(PATH_MAX + 1), "process.file.name", K::TooLarge),
    ("process_launch", |w| launch_process(w).cmd_line = long(CMD_LINE_MAX + 1), "process.cmd_line", K::TooLarge),
    ("process_launch", |w| launch_process(w).uid.push(0), "process.uid", K::Malformed),
    ("process_launch", |w| launch_process(w).integrity = Some(0), "process.integrity", K::Missing),
    ("process_launch", |w| launch_process(w).integrity = Some(42), "process.integrity", K::UnknownEnum),
    (
        "process_launch",
        |w| launch_process(w).parent_process.as_mut().unwrap().uid.truncate(3),
        "process.parent_process.uid",
        K::Malformed,
    ),
    (
        "process_launch",
        |w| launch_file(w).hashes.as_mut().unwrap().sha256.as_mut().unwrap().truncate(31),
        "process.file.hashes.sha256",
        K::Malformed,
    ),
    (
        "process_launch",
        |w| launch_file(w).signature.as_mut().unwrap().status = 0,
        "process.file.signature.status",
        K::Missing,
    ),
    (
        "process_terminate",
        |w| match w.kind.as_mut() {
            Some(Kind::Process(wire::ProcessActivity { activity: Some(wire::ProcessActivityKind::Terminate(t)) })) => {
                t.process = None
            }
            _ => unreachable!(),
        },
        "process",
        K::Missing,
    ),
    // module
    (
        "module_load",
        |w| match w.kind.as_mut() {
            Some(Kind::Module(wire::ModuleActivity { activity: Some(wire::ModuleActivityKind::Load(l)), .. })) => {
                l.file = None
            }
            _ => unreachable!(),
        },
        "module.file",
        K::Missing,
    ),
    (
        "module_load",
        |w| match w.kind.as_mut() {
            Some(Kind::Module(m)) => m.actor = None,
            _ => unreachable!(),
        },
        "actor.process",
        K::Missing,
    ),
    // network
    ("network_open", |w| network(w).src_endpoint = None, "src_endpoint", K::Missing),
    ("network_open", |w| network(w).dst_endpoint.as_mut().unwrap().ip = vec![1, 2, 3, 4, 5], "dst_endpoint.ip", K::Malformed),
    ("network_open", |w| network(w).src_endpoint.as_mut().unwrap().port = 70_000, "src_endpoint.port", K::Malformed),
    ("network_open", |w| network(w).protocol = 0, "protocol", K::Missing),
    ("network_open", |w| network(w).direction = 9, "direction", K::UnknownEnum),
    ("network_open", |w| network(w).activity = None, "activity", K::Missing),
    // file
    ("file_create", |w| file_activity(w).file = None, "file", K::Missing),
    (
        "file_rename",
        |w| match file_activity(w).activity.as_mut() {
            Some(wire::FileSystemActivityKind::Rename(r)) => r.file_result = None,
            _ => unreachable!(),
        },
        "file_result",
        K::Missing,
    ),
    (
        "file_rename",
        |w| match file_activity(w).activity.as_mut() {
            Some(wire::FileSystemActivityKind::Rename(r)) => r.file_result.as_mut().unwrap().path = long(PATH_MAX + 1),
            _ => unreachable!(),
        },
        "file_result.path",
        K::TooLarge,
    ),
    // registry key
    ("registry_key_create", |w| reg_key(w).path = long(PATH_MAX + 1), "reg_key.path", K::TooLarge),
    (
        "registry_key_rename",
        |w| match reg_key(w).activity.as_mut() {
            Some(wire::RegistryKeyActivityKind::Rename(r)) => r.prev_path = long(PATH_MAX + 1),
            _ => unreachable!(),
        },
        "prev_reg_key.path",
        K::TooLarge,
    ),
    // registry value
    ("registry_value_set", |w| reg_value(w).key_path = long(PATH_MAX + 1), "reg_value.path", K::TooLarge),
    ("registry_value_set", |w| reg_value(w).name = long(PATH_MAX + 1), "reg_value.name", K::TooLarge),
    // user / signer strings (bounded so attacker-controlled actor fields stay small)
    (
        "process_launch",
        |w| launch(w).actor.as_mut().unwrap().user.as_mut().unwrap().uid = long(USER_UID_MAX + 1),
        "actor.process.user.uid",
        K::TooLarge,
    ),
    ("process_launch", |w| launch_process(w).user.as_mut().unwrap().name = long(USER_NAME_MAX + 1), "process.user.name", K::TooLarge),
    (
        "process_launch",
        |w| launch_process(w).parent_process.as_mut().unwrap().user.as_mut().unwrap().uid = long(USER_UID_MAX + 1),
        "process.parent_process.user.uid",
        K::TooLarge,
    ),
    (
        "process_launch",
        |w| launch_file(w).signature.as_mut().unwrap().signer = Some(long(SIGNER_MAX + 1)),
        "process.file.signature.signer",
        K::TooLarge,
    ),
    ("registry_value_set", |w| reg_value_set(w).value_type = Some(12), "reg_value.type", K::UnknownEnum),
    ("registry_value_set", |w| reg_value_set(w).data = vec![0; REG_DATA_MAX + 1], "reg_value.data", K::TooLarge),
    // dns
    ("dns_response", |w| dns_activity(w).hostname = long(DNS_HOSTNAME_MAX + 1), "query.hostname", K::TooLarge),
    ("dns_response", |w| dns_activity(w).query_type = 65_536, "query.type", K::Malformed),
    ("dns_response", |w| dns_response(w).rcode = Some(70_000), "rcode", K::Malformed),
    (
        "dns_response",
        |w| {
            let a = dns_response(w).answers[0].clone();
            dns_response(w).answers = vec![a; DNS_ANSWERS_MAX + 1];
        },
        "answers",
        K::TooLarge,
    ),
    (
        "dns_response",
        |w| {
            let r = dns_response(w);
            let a = r.answers[0].clone();
            r.answers = vec![a.clone(), a.clone(), wire::DnsAnswer { data: long(DNS_ANSWER_DATA_MAX + 1), ..a }];
        },
        "answers[2].data",
        K::TooLarge,
    ),
    ("dns_response", |w| dns_response(w).answers[0].rr_type = 70_000, "answers[0].type", K::Malformed),
];

#[test]
fn every_rule_rejects_with_exact_path_and_kind() {
    for (i, (sample, mutate, path, kind)) in CASES.iter().enumerate() {
        let mut w = wire_sample(sample);
        mutate(&mut w);
        let err = check(w).expect_err(&format!("case {i} ({path}) should be rejected"));
        assert_eq!((err.field_path.as_str(), err.kind), (*path, *kind), "case {i}");
    }
}

const AT_LIMIT: &[(&str, Mutation)] = &[
    ("process_launch", |w| launch_file(w).path = long(PATH_MAX)),
    ("process_launch", |w| launch_process(w).cmd_line = long(CMD_LINE_MAX)),
    ("registry_value_set", |w| reg_value_set(w).data = vec![0; REG_DATA_MAX]),
    ("dns_response", |w| dns_activity(w).hostname = long(DNS_HOSTNAME_MAX)),
    ("dns_response", |w| {
        let a = dns_response(w).answers[0].clone();
        dns_response(w).answers = vec![a; DNS_ANSWERS_MAX];
    }),
    ("network_open", |w| network(w).src_endpoint.as_mut().unwrap().port = 65_535),
];

#[test]
fn values_exactly_at_limits_are_accepted() {
    for (i, (sample, mutate)) in AT_LIMIT.iter().enumerate() {
        let mut w = wire_sample(sample);
        mutate(&mut w);
        check(w).unwrap_or_else(|e| panic!("case {i}: {}", e.to_string()));
    }
}

#[test]
fn optional_fields_may_be_absent() {
    let mut w = wire_sample("process_launch");
    let p = launch_process(&mut w);
    p.user = None;
    p.integrity = None;
    p.parent_process = None;
    let f = p.file.as_mut().unwrap();
    f.hashes = None;
    f.signature = None;
    check(w).expect("optional fields are optional");
}

#[test]
fn empty_strings_are_allowed() {
    // proto3 cannot tell "absent" from "empty"; e.g. the System process has no image path.
    let mut w = wire_sample("process_launch");
    launch_file(&mut w).path.clear();
    launch_process(&mut w).cmd_line.clear();
    check(w).expect("empty strings are valid");
}

#[test]
fn oversized_input_is_rejected_before_decoding() {
    let err = check_event_size(EVENT_MAX + 1).unwrap_err();
    assert_eq!((err.field_path.as_str(), err.kind), ("event", K::TooLarge));
    assert!(check_event_size(EVENT_MAX).is_ok());
}

#[test]
fn undecodable_bytes_are_malformed() {
    let err = event_from_decoded(None).unwrap_err();
    assert_eq!((err.field_path.as_str(), err.kind), ("event", K::Malformed));
}

#[test]
fn invalid_utf8_in_a_string_is_malformed() {
    // Protobuf decoding refuses a `string` field that is not UTF-8, so no
    // wire event comes out of it: that is `event: Malformed`.
    let err = event_from_decoded(None).unwrap_err();
    assert_eq!((err.field_path.as_str(), err.kind), ("event", K::Malformed));
}

#[test]
fn class_from_a_newer_schema_is_rejected_as_missing_kind() {
    // An event class this build does not know decodes as an unknown field,
    // so the `kind` oneof is absent.
    let mut w = wire_sample("process_launch");
    w.kind = None;
    let err = event_from_decoded(Some(w)).unwrap_err();
    assert_eq!((err.field_path.as_str(), err.kind), ("kind", K::Missing));
}

#[test]
fn activity_from_a_newer_schema_is_rejected_as_missing_activity() {
    // A process activity this build does not know decodes as an absent
    // `activity` oneof inside the process class.
    let mut w = wire_sample("process_launch");
    w.kind = Some(Kind::Process(wire::ProcessActivity { activity: None }));
    let err = event_from_decoded(Some(w)).unwrap_err();
    assert_eq!((err.field_path.as_str(), err.kind), ("activity", K::Missing));
}

#[test]
fn decoded_events_are_validated() {
    let (_, e) = samples().into_iter().next().unwrap();
    assert_eq!(event_from_decoded(Some(e.clone().to_wire())).unwrap(), e);
    let mut w = wire_sample("process_launch");
    w.sensor = 7;
    let err = event_from_decoded(Some(w)).unwrap_err();
    assert_eq!((err.field_path.as_str(), err.kind), ("sensor", K::UnknownEnum));
}

#[test]
fn unknown_activity_is_reported_before_class_fields() {
    // A newer activity decodes as an absent `activity` oneof, and it may omit
    // fields today's activities require. Version skew must read as
    // `activity: Missing`, not as a missing class field.
    for sample in ["module_load", "network_open", "file_create", "registry_key_create", "registry_value_set", "dns_response"] {
        let mut w = wire_sample(sample);
        match w.kind.as_mut().expect("sample has a kind") {
            Kind::Module(c) => (c.activity, c.actor) = (None, None),
            Kind::Network(c) => (c.activity, c.actor, c.dst_endpoint) = (None, None, None),
            Kind::File(c) => (c.activity, c.actor, c.file) = (None, None, None),
            Kind::RegistryKey(c) => (c.activity, c.actor) = (None, None),
            Kind::RegistryValue(c) => (c.activity, c.actor) = (None, None),
            Kind::Dns(c) => (c.activity, c.actor) = (None, None),
            Kind::Process(_) => unreachable!("process has no class-level fields"),
        }
        let err = check(w).unwrap_err();
        assert_eq!((err.field_path.as_str(), err.kind), ("activity", K::Missing), "{sample}");
    }
}

#[test]
fn registry_value_set_without_type_is_missing_not_reg_none() {
    let mut w = wire_sample("registry_value_set");
    reg_value_set(&mut w).value_type = None; // field absent on the wire
    let err = check(w).unwrap_err();
    assert_eq!((err.field_path.as_str(), err.kind), ("reg_value.type", K::Missing));
}

#[test]
fn explicit_reg_none_is_a_valid_value_type() {
    let mut w = wire_sample("registry_value_set");
    reg_value_set(&mut w).value_type = Some(0); // REG_NONE, present on the wire
    check(w).expect("REG_NONE is a real Windows value type");
}

#[test]
fn wire_form_of_the_envelope_carries_ids_and_numbers() {
    let (_, e) = samples().into_iter().next().unwrap();
    let w = e.to_wire();
    assert_eq!(w.event_id, fixed_event_id().as_bytes().to_vec());
    assert_eq!(w.sensor, 1);
    assert_eq!(w.device.as_ref().unwrap().uid, vec![0xd0; 16]);
    assert_eq!(w.device.as_ref().unwrap().boot_id, vec![0xb0; 16]);
    let mut w2 = w.clone();
    w2.sensor = 2;
    assert_eq!(check(w2).unwrap().meta.sensor, Sensor::Driver);
}

// ---------------------------------------------------------------- OCSF ids

/// (sample, category_uid, class_uid, activity_id), OCSF 1.9.0.
const EXPECTED: &[(&str, u32, u32, u32)] = &[
    ("process_launch", 1, 1007, 1),
    ("process_terminate", 1, 1007, 2),
    ("module_load", 1, 1005, 1),
    ("network_open", 4, 4001, 1),
    ("network_close", 4, 4001, 2),
    ("file_create", 1, 1001, 1),
    ("file_read", 1, 1001, 2),
    ("file_update", 1, 1001, 3),
    ("file_delete", 1, 1001, 4),
    ("file_rename", 1, 1001, 5),
    ("file_set_attributes", 1, 1001, 6),
    ("registry_key_create", 1, 201001, 1),
    ("registry_key_delete", 1, 201001, 4),
    ("registry_key_rename", 1, 201001, 5),
    ("registry_value_set", 1, 201002, 2),
    ("registry_value_delete", 1, 201002, 4),
    ("dns_response", 4, 4003, 2),
];

#[test]
fn derived_ids_match_ocsf_1_9_0() {
    let samples = samples();
    assert_eq!(samples.len(), EXPECTED.len(), "every sample needs an expected row");
    for (name, event) in samples {
        let &(_, category, class, activity) =
            EXPECTED.iter().find(|row| row.0 == name).unwrap_or_else(|| panic!("no expected ids for {name}"));
        let ids = event.kind.ocsf_ids();
        assert_eq!((ids.category_uid, ids.class_uid, ids.activity_id), (category, class, activity), "{name}");
        assert_eq!(ids.type_uid(), u64::from(class) * 100 + u64::from(activity), "{name}");
    }
}

#[test]
fn type_uid_examples() {
    let ids = |name: &str| samples().into_iter().find(|(n, _)| *n == name).unwrap().1.kind.ocsf_ids();
    assert_eq!(ids("process_launch").type_uid(), 100_701);
    assert_eq!(ids("registry_value_set").type_uid(), 20_100_202);
}
