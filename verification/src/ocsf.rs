//! OCSF 1.9.0 numeric ids, derived from the domain types. They are never
//! stored, so they cannot disagree with the event.
use vstd::prelude::*;
use crate::classes::dns::DnsAction;
use crate::classes::file::FileAction;
use crate::classes::module::ModuleAction;
use crate::classes::network::NetworkAction;
use crate::classes::process::ProcessActivity;
use crate::classes::registry::{RegistryKeyAction, RegistryValueAction};
use crate::event::EventKind;

verus! {

#[derive(Debug, Clone, Copy, PartialEq, Eq)]
pub struct OcsfIds {
    pub category_uid: u32,
    pub class_uid: u32,
    pub activity_id: u32,
}

impl OcsfIds {
    /// `class_uid * 100 + activity_id`, as OCSF requires.
    pub fn type_uid(&self) -> (r: u64)
        ensures
            r == self.class_uid * 100 + self.activity_id,
    {
        self.class_uid as u64 * 100 + self.activity_id as u64
    }
}

/// OCSF category 1, System Activity.
pub const SYSTEM: u32 = 1;
/// OCSF category 4, Network Activity.
pub const NETWORK: u32 = 4;

/// The OCSF `(category_uid, class_uid, activity_id)` of an event kind.
pub open spec fn ocsf_triple(k: EventKind) -> (u32, u32, u32) {
    match k {
        EventKind::Process(a) => (SYSTEM, 1007, match a {
            ProcessActivity::Launch { .. } => 1,
            ProcessActivity::Terminate { .. } => 2,
        }),
        EventKind::Module(a) => (SYSTEM, 1005, match a.action {
            ModuleAction::Load { .. } => 1,
        }),
        EventKind::Network(a) => (NETWORK, 4001, match a.action {
            NetworkAction::Open => 1,
            NetworkAction::Close { .. } => 2,
        }),
        EventKind::File(a) => (SYSTEM, 1001, match a.action {
            FileAction::Create => 1,
            FileAction::Read => 2,
            FileAction::Update => 3,
            FileAction::Delete => 4,
            FileAction::Rename { .. } => 5,
            FileAction::SetAttributes => 6,
        }),
        EventKind::RegistryKey(a) => (SYSTEM, 201001, match a.action {
            RegistryKeyAction::Create => 1,
            RegistryKeyAction::Delete => 4,
            RegistryKeyAction::Rename { .. } => 5,
        }),
        EventKind::RegistryValue(a) => (SYSTEM, 201002, match a.action {
            RegistryValueAction::SetValue { .. } => 2,
            RegistryValueAction::Delete => 4,
        }),
        EventKind::Dns(a) => (NETWORK, 4003, match a.action {
            DnsAction::Response { .. } => 2,
        }),
    }
}

impl EventKind {
    pub fn ocsf_ids(&self) -> (r: OcsfIds)
        ensures
            (r.category_uid, r.class_uid, r.activity_id) == ocsf_triple(*self),
    {
        let (category_uid, class_uid, activity_id) = match self {
            EventKind::Process(a) => (SYSTEM, 1007, match a {
                ProcessActivity::Launch { .. } => 1,
                ProcessActivity::Terminate { .. } => 2,
            }),
            EventKind::Module(a) => (SYSTEM, 1005, match a.action {
                ModuleAction::Load { .. } => 1,
            }),
            EventKind::Network(a) => (NETWORK, 4001, match a.action {
                NetworkAction::Open => 1,
                NetworkAction::Close { .. } => 2,
            }),
            EventKind::File(a) => (SYSTEM, 1001, match a.action {
                FileAction::Create => 1,
                FileAction::Read => 2,
                FileAction::Update => 3,
                FileAction::Delete => 4,
                FileAction::Rename { .. } => 5,
                FileAction::SetAttributes => 6,
            }),
            EventKind::RegistryKey(a) => (SYSTEM, 201001, match a.action {
                RegistryKeyAction::Create => 1,
                RegistryKeyAction::Delete => 4,
                RegistryKeyAction::Rename { .. } => 5,
            }),
            EventKind::RegistryValue(a) => (SYSTEM, 201002, match a.action {
                RegistryValueAction::SetValue { .. } => 2,
                RegistryValueAction::Delete => 4,
            }),
            EventKind::Dns(a) => (NETWORK, 4003, match a.action {
                DnsAction::Response { .. } => 2,
            }),
        };
        OcsfIds { category_uid, class_uid, activity_id }
    }
}

/// The OCSF 1.9.0 category and class of an event depend only on its class:
/// Process Activity is (1 System, 1007), Module Activity (1, 1005), Network
/// Activity (4 Network, 4001), File System Activity (1, 1001), Registry Key
/// Activity (1, 201001), Registry Value Activity (1, 201002) and DNS Activity
/// (4, 4003), whatever the activity, actor, endpoints or other fields.
pub proof fn lemma_ocsf_class_ids(k: EventKind)
    ensures
        k is Process ==> ocsf_triple(k).0 == 1 && ocsf_triple(k).1 == 1007,
        k is Module ==> ocsf_triple(k).0 == 1 && ocsf_triple(k).1 == 1005,
        k is Network ==> ocsf_triple(k).0 == 4 && ocsf_triple(k).1 == 4001,
        k is File ==> ocsf_triple(k).0 == 1 && ocsf_triple(k).1 == 1001,
        k is RegistryKey ==> ocsf_triple(k).0 == 1 && ocsf_triple(k).1 == 201001,
        k is RegistryValue ==> ocsf_triple(k).0 == 1 && ocsf_triple(k).1 == 201002,
        k is Dns ==> ocsf_triple(k).0 == 4 && ocsf_triple(k).1 == 4003,
{
}

/// Two events of the same class have the same category and class ids, and
/// two events of different classes have different class ids.
pub proof fn lemma_ocsf_class_determines_ids(a: EventKind, b: EventKind)
    ensures
        same_class(a, b) ==> ocsf_triple(a).0 == ocsf_triple(b).0 && ocsf_triple(a).1 == ocsf_triple(b).1,
        !same_class(a, b) ==> ocsf_triple(a).1 != ocsf_triple(b).1,
{
    lemma_ocsf_class_ids(a);
    lemma_ocsf_class_ids(b);
}

/// The two kinds are events of the same class.
pub open spec fn same_class(a: EventKind, b: EventKind) -> bool {
    ||| a is Process && b is Process
    ||| a is Module && b is Module
    ||| a is Network && b is Network
    ||| a is File && b is File
    ||| a is RegistryKey && b is RegistryKey
    ||| a is RegistryValue && b is RegistryValue
    ||| a is Dns && b is Dns
}

/// The OCSF 1.9.0 activity id of each activity: Launch 1 and Terminate 2;
/// Load 1; Open 1 and Close 2; file Create 1, Read 2, Update 3, Delete 4,
/// Rename 5, Set Attributes 6; registry key Create 1, Delete 4, Rename 5;
/// registry value Set 2, Delete 4; DNS Response 2.
pub proof fn lemma_ocsf_activity_ids(k: EventKind)
    ensures
        k matches EventKind::Process(a) ==> ocsf_triple(k).2 == (if a is Launch { 1u32 } else { 2u32 }),
        k is Module ==> ocsf_triple(k).2 == 1,
        k matches EventKind::Network(a) ==> ocsf_triple(k).2 == (if a.action is Open { 1u32 } else { 2u32 }),
        k matches EventKind::File(a) ==> ocsf_triple(k).2 == (
            if a.action is Create { 1u32 }
            else if a.action is Read { 2u32 }
            else if a.action is Update { 3u32 }
            else if a.action is Delete { 4u32 }
            else if a.action is Rename { 5u32 }
            else { 6u32 }),
        k matches EventKind::RegistryKey(a) ==> ocsf_triple(k).2 == (
            if a.action is Create { 1u32 } else if a.action is Delete { 4u32 } else { 5u32 }),
        k matches EventKind::RegistryValue(a) ==> ocsf_triple(k).2 == (if a.action is SetValue { 2u32 } else { 4u32 }),
        k is Dns ==> ocsf_triple(k).2 == 2,
{
}

} // verus!
