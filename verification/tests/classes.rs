use atlas_schema::classes::dns::{DnsAction, DnsActivity, DnsAnswer};
use atlas_schema::classes::file::{FileAction, FileSystemActivity};
use atlas_schema::classes::module::{ModuleAction, ModuleActivity};
use atlas_schema::classes::network::{NetworkAction, NetworkActivity, NetworkDirection, NetworkProtocol};
use atlas_schema::classes::process::ProcessActivity;
use atlas_schema::classes::registry::{
    RegValueType, RegistryKeyAction, RegistryKeyActivity, RegistryValueAction, RegistryValueActivity,
};
use atlas_schema::limits::{CMD_LINE_MAX, DNS_ANSWERS_MAX, DNS_ANSWER_DATA_MAX, REG_DATA_MAX};
use atlas_schema::wire;
use atlas_schema::{File, Integrity, IpAddr, NetworkEndpoint, Process, ProcessRef, ProcessUid, SchemaErrorKind};

fn file(path: &str) -> File {
    File { path: path.into(), name: "x.exe".into(), hashes: None, signature: None }
}

fn proc_ref() -> ProcessRef {
    ProcessRef { uid: ProcessUid::from_bytes([7; 16]), pid: 42, file: file("C:\\x.exe"), user: None }
}

// ---- dns ----

fn response(answers: Vec<DnsAnswer>) -> DnsActivity {
    DnsActivity {
        actor: proc_ref(),
        hostname: "example.com".into(),
        query_type: 1,
        action: DnsAction::Response { rcode: Some(3), platform_status: Some(9003), answers },
    }
}

fn answer(data: &str) -> DnsAnswer {
    DnsAnswer { rr_type: 1, data: data.into() }
}

#[test]
fn response_round_trips() {
    let a = response(vec![answer("93.184.216.34"), answer("93.184.216.35")]);
    assert_eq!(DnsActivity::from_wire(a.clone().to_wire()).unwrap(), a);
}

#[test]
fn too_many_answers_is_too_large() {
    let e = DnsActivity::from_wire(response(vec![answer("x"); DNS_ANSWERS_MAX + 1]).to_wire()).unwrap_err();
    assert_eq!((e.field_path.as_str(), e.kind), ("answers", SchemaErrorKind::TooLarge));
}

#[test]
fn answer_errors_carry_their_index() {
    let long = "a".repeat(DNS_ANSWER_DATA_MAX + 1);
    let e = DnsActivity::from_wire(response(vec![answer("ok"), answer(&long)]).to_wire()).unwrap_err();
    assert_eq!((e.field_path.as_str(), e.kind), ("answers[1].data", SchemaErrorKind::TooLarge));
}

#[test]
fn answer_indices_above_nine_are_decimal() {
    let mut answers = vec![answer("ok"); 12];
    answers.push(answer(&"a".repeat(DNS_ANSWER_DATA_MAX + 1)));
    let e = DnsActivity::from_wire(response(answers).to_wire()).unwrap_err();
    assert_eq!((e.field_path.as_str(), e.kind), ("answers[12].data", SchemaErrorKind::TooLarge));
}

#[test]
fn query_type_must_fit_u16() {
    let w = wire::DnsActivity { query_type: 65_536, ..response(vec![]).to_wire() };
    let e = DnsActivity::from_wire(w).unwrap_err();
    assert_eq!((e.field_path.as_str(), e.kind), ("query.type", SchemaErrorKind::Malformed));
}

// ---- file ----

fn file_activity(action: FileAction) -> FileSystemActivity {
    FileSystemActivity { actor: proc_ref(), file: file("C:\\a.txt"), action }
}

#[test]
fn every_action_round_trips() {
    let actions = [
        FileAction::Create,
        FileAction::Read,
        FileAction::Update,
        FileAction::Delete,
        FileAction::Rename { file_result: file("C:\\b.txt") },
        FileAction::SetAttributes,
    ];
    for action in actions {
        let a = file_activity(action);
        assert_eq!(FileSystemActivity::from_wire(a.clone().to_wire()).unwrap(), a);
    }
}

#[test]
fn rename_without_result_is_missing_file_result() {
    let mut w = file_activity(FileAction::Rename { file_result: file("C:\\b.txt") }).to_wire();
    let Some(wire::FileSystemActivityKind::Rename(r)) = w.activity.as_mut() else { unreachable!() };
    r.file_result = None;
    let e = FileSystemActivity::from_wire(w).unwrap_err();
    assert_eq!((e.field_path.as_str(), e.kind), ("file_result", SchemaErrorKind::Missing));
}

// ---- module ----

fn load() -> ModuleActivity {
    ModuleActivity { actor: proc_ref(), action: ModuleAction::Load { file: file("C:\\amsi.dll"), base_address: 0x7ff0_0000 } }
}

#[test]
fn load_round_trips() {
    assert_eq!(ModuleActivity::from_wire(load().to_wire()).unwrap(), load());
}

#[test]
fn load_without_file_is_missing_module_file() {
    let mut w = load().to_wire();
    let Some(wire::ModuleActivityKind::Load(l)) = w.activity.as_mut() else { unreachable!() };
    l.file = None;
    let e = ModuleActivity::from_wire(w).unwrap_err();
    assert_eq!((e.field_path.as_str(), e.kind), ("module.file", SchemaErrorKind::Missing));
}

// ---- network ----

fn net_activity(action: NetworkAction) -> NetworkActivity {
    let ep = |port| NetworkEndpoint { ip: IpAddr::V4([10, 0, 0, 1]), port };
    NetworkActivity {
        actor: proc_ref(),
        src_endpoint: ep(50000),
        dst_endpoint: ep(443),
        protocol: NetworkProtocol::Udp,
        direction: NetworkDirection::Inbound,
        action,
    }
}

#[test]
fn open_and_close_round_trip() {
    for a in [net_activity(NetworkAction::Open), net_activity(NetworkAction::Close { bytes_in: Some(1), bytes_out: None })] {
        assert_eq!(NetworkActivity::from_wire(a.clone().to_wire()).unwrap(), a);
    }
}

#[test]
fn unspecified_protocol_is_missing_and_unknown_direction_is_unknown() {
    let w = wire::NetworkActivity { protocol: 0, ..net_activity(NetworkAction::Open).to_wire() };
    let e = NetworkActivity::from_wire(w).unwrap_err();
    assert_eq!((e.field_path.as_str(), e.kind), ("protocol", SchemaErrorKind::Missing));

    let w = wire::NetworkActivity { direction: 9, ..net_activity(NetworkAction::Open).to_wire() };
    let e = NetworkActivity::from_wire(w).unwrap_err();
    assert_eq!((e.field_path.as_str(), e.kind), ("direction", SchemaErrorKind::UnknownEnum));
}

// ---- process ----

fn launch() -> ProcessActivity {
    ProcessActivity::Launch {
        actor: proc_ref(),
        process: Process {
            uid: ProcessUid::from_bytes([9; 16]),
            pid: 100,
            file: file("C:\\child.exe"),
            user: None,
            cmd_line: "child.exe /x".into(),
            cmd_line_truncated: false,
            created_time: 5,
            integrity: Some(Integrity::High),
            parent_process: Some(proc_ref()),
        },
    }
}

#[test]
fn launch_and_terminate_round_trip() {
    for a in [launch(), ProcessActivity::Terminate { process: proc_ref(), exit_code: Some(-1) }] {
        assert_eq!(ProcessActivity::from_wire(a.clone().to_wire()).unwrap(), a);
    }
}

#[test]
fn launch_without_actor_is_missing_actor_process() {
    let mut w = launch().to_wire();
    let Some(wire::ProcessActivityKind::Launch(l)) = w.activity.as_mut() else { unreachable!() };
    l.actor = None;
    let e = ProcessActivity::from_wire(w).unwrap_err();
    assert_eq!((e.field_path.as_str(), e.kind), ("actor.process", SchemaErrorKind::Missing));
}

#[test]
fn cmd_line_over_limit_is_too_large() {
    let mut w = launch().to_wire();
    let Some(wire::ProcessActivityKind::Launch(l)) = w.activity.as_mut() else { unreachable!() };
    l.process.as_mut().unwrap().cmd_line = "a".repeat(CMD_LINE_MAX + 1);
    let e = ProcessActivity::from_wire(w).unwrap_err();
    assert_eq!((e.field_path.as_str(), e.kind), ("process.cmd_line", SchemaErrorKind::TooLarge));
}

#[test]
fn missing_activity_is_missing() {
    let e = ProcessActivity::from_wire(wire::ProcessActivity { activity: None }).unwrap_err();
    assert_eq!((e.field_path.as_str(), e.kind), ("activity", SchemaErrorKind::Missing));
}

// ---- registry ----

fn key(action: RegistryKeyAction) -> RegistryKeyActivity {
    RegistryKeyActivity { actor: proc_ref(), path: "HKLM\\SOFTWARE\\New".into(), action }
}

fn set(data: Vec<u8>) -> RegistryValueActivity {
    RegistryValueActivity {
        actor: proc_ref(),
        key_path: "HKCU\\Software\\Run".into(),
        name: "x".into(),
        action: RegistryValueAction::SetValue { value_type: RegValueType::Dword, data, data_truncated: false },
    }
}

#[test]
fn key_actions_round_trip() {
    for action in [
        RegistryKeyAction::Create,
        RegistryKeyAction::Delete,
        RegistryKeyAction::Rename { prev_path: "HKLM\\SOFTWARE\\Old".into() },
    ] {
        let a = key(action);
        assert_eq!(RegistryKeyActivity::from_wire(a.clone().to_wire()).unwrap(), a);
    }
}

#[test]
fn value_actions_round_trip() {
    let delete = RegistryValueActivity { action: RegistryValueAction::Delete, ..set(vec![]) };
    for a in [set(vec![1, 0, 0, 0]), delete] {
        assert_eq!(RegistryValueActivity::from_wire(a.clone().to_wire()).unwrap(), a);
    }
}

#[test]
fn reg_value_type_raw_values_match_windows_constants() {
    for raw in 0..=11 {
        assert_eq!(RegValueType::from_raw(raw).unwrap().as_raw(), raw);
    }
    assert_eq!(RegValueType::from_raw(12), None);
}

#[test]
fn unknown_value_type_and_oversized_data_are_rejected() {
    let mut w = set(vec![]).to_wire();
    let Some(wire::RegistryValueActivityKind::SetValue(s)) = w.activity.as_mut() else { unreachable!() };
    s.value_type = Some(12);
    let e = RegistryValueActivity::from_wire(w).unwrap_err();
    assert_eq!((e.field_path.as_str(), e.kind), ("reg_value.type", SchemaErrorKind::UnknownEnum));

    let e = RegistryValueActivity::from_wire(set(vec![0; REG_DATA_MAX + 1]).to_wire()).unwrap_err();
    assert_eq!((e.field_path.as_str(), e.kind), ("reg_value.data", SchemaErrorKind::TooLarge));
}
