//! Registry Key Activity (OCSF 201001) and Registry Value Activity (OCSF 201002).
use vstd::prelude::*;
use crate::convert::{Failure, fail, rejects, require, bounded, err};
use crate::error::{SchemaError, SchemaErrorKind};
use crate::limits::{PATH_MAX, REG_DATA_MAX};
use crate::objects::{
    ProcessRef, first, is_wire_required_process_ref, required_process_ref_error, too_large,
    process_ref_valid, lemma_process_ref_round_trip, lemma_process_ref_wire_unique,
};
use crate::convert::utf8_len;
use crate::wire;

verus! {

#[derive(Debug, Clone, PartialEq, Eq)]
pub struct RegistryKeyActivity {
    pub actor: ProcessRef,
    /// `reg_key.path`. For `Rename`: the new path.
    pub path: String,
    pub action: RegistryKeyAction,
}

#[derive(Debug, Clone, PartialEq, Eq)]
pub enum RegistryKeyAction {
    Create,
    Delete,
    /// `prev_path` is `prev_reg_key.path`, the original path.
    Rename { prev_path: String },
}

#[derive(Debug, Clone, PartialEq, Eq)]
pub struct RegistryValueActivity {
    pub actor: ProcessRef,
    /// `reg_value.path`: the containing key.
    pub key_path: String,
    /// `reg_value.name`; empty means the default value of the key.
    pub name: String,
    pub action: RegistryValueAction,
}

#[derive(Debug, Clone, PartialEq, Eq)]
pub enum RegistryValueAction {
    SetValue { value_type: RegValueType, data: Vec<u8>, data_truncated: bool },
    Delete,
}

/// Windows `REG_*` value types; `as_raw` gives the Windows constant.
#[derive(Debug, Clone, Copy, PartialEq, Eq)]
pub enum RegValueType {
    RegNone,
    Sz,
    ExpandSz,
    Binary,
    Dword,
    DwordBigEndian,
    Link,
    MultiSz,
    ResourceList,
    FullResourceDescriptor,
    ResourceRequirementsList,
    Qword,
}

/// The Windows constant of a value type (`REG_NONE` = 0 .. `REG_QWORD` = 11).
pub open spec fn reg_value_type_raw(t: RegValueType) -> u32 {
    match t {
        RegValueType::RegNone => 0,
        RegValueType::Sz => 1,
        RegValueType::ExpandSz => 2,
        RegValueType::Binary => 3,
        RegValueType::Dword => 4,
        RegValueType::DwordBigEndian => 5,
        RegValueType::Link => 6,
        RegValueType::MultiSz => 7,
        RegValueType::ResourceList => 8,
        RegValueType::FullResourceDescriptor => 9,
        RegValueType::ResourceRequirementsList => 10,
        RegValueType::Qword => 11,
    }
}

impl RegValueType {
    /// The value type whose Windows constant is `raw`; `None` above 11.
    pub fn from_raw(raw: u32) -> (r: Option<Self>)
        ensures
            raw <= 11 ==> (r matches Some(t) && reg_value_type_raw(t) == raw),
            raw > 11 ==> r is None,
    {
        match raw {
            0 => Some(RegValueType::RegNone),
            1 => Some(RegValueType::Sz),
            2 => Some(RegValueType::ExpandSz),
            3 => Some(RegValueType::Binary),
            4 => Some(RegValueType::Dword),
            5 => Some(RegValueType::DwordBigEndian),
            6 => Some(RegValueType::Link),
            7 => Some(RegValueType::MultiSz),
            8 => Some(RegValueType::ResourceList),
            9 => Some(RegValueType::FullResourceDescriptor),
            10 => Some(RegValueType::ResourceRequirementsList),
            11 => Some(RegValueType::Qword),
            _ => Option::None,
        }
    }

    /// The Windows constant of this value type.
    pub fn as_raw(self) -> (r: u32)
        ensures
            r == reg_value_type_raw(self),
    {
        match self {
            RegValueType::RegNone => 0,
            RegValueType::Sz => 1,
            RegValueType::ExpandSz => 2,
            RegValueType::Binary => 3,
            RegValueType::Dword => 4,
            RegValueType::DwordBigEndian => 5,
            RegValueType::Link => 6,
            RegValueType::MultiSz => 7,
            RegValueType::ResourceList => 8,
            RegValueType::FullResourceDescriptor => 9,
            RegValueType::ResourceRequirementsList => 10,
            RegValueType::Qword => 11,
        }
    }
}

// ---------------------------------------------------------------- keys

pub open spec fn is_wire_registry_key_activity(w: wire::RegistryKeyActivity, d: RegistryKeyActivity) -> bool {
    &&& is_wire_required_process_ref(w.actor, d.actor)
    &&& w.path == d.path
    &&& match (w.activity, d.action) {
        (Some(wire::RegistryKeyActivityKind::Create(_)), RegistryKeyAction::Create) => true,
        (Some(wire::RegistryKeyActivityKind::Delete(_)), RegistryKeyAction::Delete) => true,
        (Some(wire::RegistryKeyActivityKind::Rename(r)), RegistryKeyAction::Rename { prev_path }) => {
            r.prev_path == prev_path
        },
        _ => false,
    }
}

/// The activity is checked first: an unknown (newer) activity reads as
/// `activity: Missing`, not as a missing class field.
pub open spec fn registry_key_activity_error(w: wire::RegistryKeyActivity) -> Option<Failure> {
    match w.activity {
        None => fail(""@, "activity"@, SchemaErrorKind::Missing),
        Some(a) => first(
            required_process_ref_error(w.actor, ""@, "actor.process"@),
            first(
                too_large(w.path, PATH_MAX, ""@, "reg_key.path"@),
                match a {
                    wire::RegistryKeyActivityKind::Rename(r) => too_large(
                        r.prev_path,
                        PATH_MAX,
                        ""@,
                        "prev_reg_key.path"@,
                    ),
                    _ => None,
                },
            ),
        ),
    }
}

impl RegistryKeyActivity {
    pub fn to_wire(self) -> (r: wire::RegistryKeyActivity)
        ensures
            is_wire_registry_key_activity(r, self),
    {
        let activity = match self.action {
            RegistryKeyAction::Create => wire::RegistryKeyActivityKind::Create(wire::RegistryKeyCreate {  }),
            RegistryKeyAction::Delete => wire::RegistryKeyActivityKind::Delete(wire::RegistryKeyDelete {  }),
            RegistryKeyAction::Rename { prev_path } => wire::RegistryKeyActivityKind::Rename(
                wire::RegistryKeyRename { prev_path },
            ),
        };
        wire::RegistryKeyActivity { actor: Some(self.actor.to_wire()), path: self.path, activity: Some(activity) }
    }

    pub fn from_wire(w: wire::RegistryKeyActivity) -> (r: Result<Self, SchemaError>)
        ensures
            match registry_key_activity_error(w) {
                Some(f) => rejects(r, f),
                None => r matches Ok(d) && is_wire_registry_key_activity(w, d),
            },
    {
        let activity = require(w.activity, "", "activity")?;
        let actor = ProcessRef::required(w.actor, "", "actor.process")?;
        let path = bounded(w.path, PATH_MAX, "", "reg_key.path")?;
        let action = match activity {
            wire::RegistryKeyActivityKind::Create(_) => RegistryKeyAction::Create,
            wire::RegistryKeyActivityKind::Delete(_) => RegistryKeyAction::Delete,
            wire::RegistryKeyActivityKind::Rename(r) => {
                let prev_path = bounded(r.prev_path, PATH_MAX, "", "prev_reg_key.path")?;
                RegistryKeyAction::Rename { prev_path }
            },
        };
        Ok(RegistryKeyActivity { actor, path, action })
    }
}

// ---------------------------------------------------------------- values

pub open spec fn is_wire_registry_value_activity(
    w: wire::RegistryValueActivity,
    d: RegistryValueActivity,
) -> bool {
    &&& is_wire_required_process_ref(w.actor, d.actor)
    &&& w.key_path == d.key_path
    &&& w.name == d.name
    &&& match (w.activity, d.action) {
        (
            Some(wire::RegistryValueActivityKind::SetValue(s)),
            RegistryValueAction::SetValue { value_type, data, data_truncated },
        ) => {
            &&& s.value_type == Some(reg_value_type_raw(value_type))
            &&& s.data == data
            &&& s.data_truncated == data_truncated
        },
        (Some(wire::RegistryValueActivityKind::Delete(_)), RegistryValueAction::Delete) => true,
        _ => false,
    }
}

/// The checks of a `Set`: the value type must be present (`REG_NONE` is 0,
/// so absence is not a value) and known, and the data within its limit.
pub open spec fn registry_value_set_error(s: wire::RegistryValueSet) -> Option<Failure> {
    match s.value_type {
        None => fail(""@, "reg_value.type"@, SchemaErrorKind::Missing),
        Some(raw) => if raw > 11 {
            fail(""@, "reg_value.type"@, SchemaErrorKind::UnknownEnum)
        } else if s.data@.len() > REG_DATA_MAX {
            fail(""@, "reg_value.data"@, SchemaErrorKind::TooLarge)
        } else {
            None
        },
    }
}

/// The activity is checked first: an unknown (newer) activity reads as
/// `activity: Missing`, not as a missing class field.
pub open spec fn registry_value_activity_error(w: wire::RegistryValueActivity) -> Option<Failure> {
    match w.activity {
        None => fail(""@, "activity"@, SchemaErrorKind::Missing),
        Some(a) => first(
            required_process_ref_error(w.actor, ""@, "actor.process"@),
            first(
                too_large(w.key_path, PATH_MAX, ""@, "reg_value.path"@),
                first(
                    too_large(w.name, PATH_MAX, ""@, "reg_value.name"@),
                    match a {
                        wire::RegistryValueActivityKind::SetValue(s) => registry_value_set_error(s),
                        wire::RegistryValueActivityKind::Delete(_) => None,
                    },
                ),
            ),
        ),
    }
}

impl RegistryValueActivity {
    pub fn to_wire(self) -> (r: wire::RegistryValueActivity)
        ensures
            is_wire_registry_value_activity(r, self),
    {
        let activity = match self.action {
            RegistryValueAction::SetValue { value_type, data, data_truncated } => {
                wire::RegistryValueActivityKind::SetValue(
                    wire::RegistryValueSet { value_type: Some(value_type.as_raw()), data, data_truncated },
                )
            },
            RegistryValueAction::Delete => wire::RegistryValueActivityKind::Delete(wire::RegistryValueDelete {  }),
        };
        wire::RegistryValueActivity {
            actor: Some(self.actor.to_wire()),
            key_path: self.key_path,
            name: self.name,
            activity: Some(activity),
        }
    }

    pub fn from_wire(w: wire::RegistryValueActivity) -> (r: Result<Self, SchemaError>)
        ensures
            match registry_value_activity_error(w) {
                Some(f) => rejects(r, f),
                None => r matches Ok(d) && is_wire_registry_value_activity(w, d),
            },
    {
        let activity = require(w.activity, "", "activity")?;
        let actor = ProcessRef::required(w.actor, "", "actor.process")?;
        let key_path = bounded(w.key_path, PATH_MAX, "", "reg_value.path")?;
        let name = bounded(w.name, PATH_MAX, "", "reg_value.name")?;
        let action = match activity {
            wire::RegistryValueActivityKind::SetValue(s) => {
                let raw = require(s.value_type, "", "reg_value.type")?;
                let value_type = match RegValueType::from_raw(raw) {
                    Some(t) => t,
                    None => return err("", "reg_value.type", SchemaErrorKind::UnknownEnum),
                };
                if s.data.len() > REG_DATA_MAX {
                    return err("", "reg_value.data", SchemaErrorKind::TooLarge);
                }
                RegistryValueAction::SetValue { value_type, data: s.data, data_truncated: s.data_truncated }
            },
            wire::RegistryValueActivityKind::Delete(_) => RegistryValueAction::Delete,
        };
        Ok(RegistryValueActivity { actor, key_path, name, action })
    }
}


// ---------------------------------------------------------------- laws

/// Every string in the activity is within its limit.
pub open spec fn registry_key_activity_valid(d: RegistryKeyActivity) -> bool {
    &&& process_ref_valid(d.actor)
    &&& utf8_len(d.path@) <= PATH_MAX
    &&& d.action matches RegistryKeyAction::Rename { prev_path } ==> utf8_len(prev_path@) <= PATH_MAX
}

/// A registry key activity within its limits passes validation in its wire form.
pub proof fn lemma_registry_key_activity_round_trip(d: RegistryKeyActivity, w: wire::RegistryKeyActivity)
    requires
        registry_key_activity_valid(d),
        is_wire_registry_key_activity(w, d),
    ensures
        registry_key_activity_error(w) is None,
{
    lemma_process_ref_round_trip(d.actor, w.actor, ""@, "actor.process"@);
}

/// The wire form of a registry key activity determines it.
pub proof fn lemma_registry_key_activity_wire_unique(
    w: wire::RegistryKeyActivity,
    d1: RegistryKeyActivity,
    d2: RegistryKeyActivity,
)
    requires
        is_wire_registry_key_activity(w, d1),
        is_wire_registry_key_activity(w, d2),
    ensures
        d1 == d2,
{
    lemma_process_ref_wire_unique(w.actor.unwrap(), d1.actor, d2.actor);
}

/// Every string and the data of the activity are within their limits.
pub open spec fn registry_value_activity_valid(d: RegistryValueActivity) -> bool {
    &&& process_ref_valid(d.actor)
    &&& utf8_len(d.key_path@) <= PATH_MAX
    &&& utf8_len(d.name@) <= PATH_MAX
    &&& d.action matches RegistryValueAction::SetValue { data, .. } ==> data@.len() <= REG_DATA_MAX
}

/// A registry value activity within its limits passes validation in its wire form.
pub proof fn lemma_registry_value_activity_round_trip(d: RegistryValueActivity, w: wire::RegistryValueActivity)
    requires
        registry_value_activity_valid(d),
        is_wire_registry_value_activity(w, d),
    ensures
        registry_value_activity_error(w) is None,
{
    lemma_process_ref_round_trip(d.actor, w.actor, ""@, "actor.process"@);
}

/// The wire form of a registry value activity determines it.
pub proof fn lemma_registry_value_activity_wire_unique(
    w: wire::RegistryValueActivity,
    d1: RegistryValueActivity,
    d2: RegistryValueActivity,
)
    requires
        is_wire_registry_value_activity(w, d1),
        is_wire_registry_value_activity(w, d2),
    ensures
        d1 == d2,
{
    lemma_process_ref_wire_unique(w.actor.unwrap(), d1.actor, d2.actor);
    match (w.activity, d1.action, d2.action) {
        (
            Some(wire::RegistryValueActivityKind::SetValue(s)),
            RegistryValueAction::SetValue { value_type: t1, .. },
            RegistryValueAction::SetValue { value_type: t2, .. },
        ) => {
            assert(reg_value_type_raw(t1) == reg_value_type_raw(t2));
            assert(t1 == t2);
        },
        _ => {},
    }
}

/// Registry value types are the Windows constants: `REG_NONE` 0, `REG_SZ` 1,
/// `REG_EXPAND_SZ` 2, `REG_BINARY` 3, `REG_DWORD` 4, `REG_DWORD_BIG_ENDIAN` 5,
/// `REG_LINK` 6, `REG_MULTI_SZ` 7, `REG_RESOURCE_LIST` 8,
/// `REG_FULL_RESOURCE_DESCRIPTOR` 9, `REG_RESOURCE_REQUIREMENTS_LIST` 10,
/// `REG_QWORD` 11; distinct types have distinct constants.
pub proof fn lemma_reg_value_type_constants(a: RegValueType, b: RegValueType)
    ensures
        reg_value_type_raw(RegValueType::RegNone) == 0,
        reg_value_type_raw(RegValueType::Sz) == 1,
        reg_value_type_raw(RegValueType::ExpandSz) == 2,
        reg_value_type_raw(RegValueType::Binary) == 3,
        reg_value_type_raw(RegValueType::Dword) == 4,
        reg_value_type_raw(RegValueType::DwordBigEndian) == 5,
        reg_value_type_raw(RegValueType::Link) == 6,
        reg_value_type_raw(RegValueType::MultiSz) == 7,
        reg_value_type_raw(RegValueType::ResourceList) == 8,
        reg_value_type_raw(RegValueType::FullResourceDescriptor) == 9,
        reg_value_type_raw(RegValueType::ResourceRequirementsList) == 10,
        reg_value_type_raw(RegValueType::Qword) == 11,
        reg_value_type_raw(a) == reg_value_type_raw(b) ==> a == b,
{
}

/// Each registry key action travels as the `RegistryKeyActivity` oneof case
/// of the same name, and each value action as the `RegistryValueActivity`
/// case of the same name, with the value type as its Windows constant.
pub proof fn lemma_registry_action_cases(
    wk: wire::RegistryKeyActivity,
    dk: RegistryKeyActivity,
    wv: wire::RegistryValueActivity,
    dv: RegistryValueActivity,
)
    requires
        is_wire_registry_key_activity(wk, dk),
        is_wire_registry_value_activity(wv, dv),
    ensures
        (wk.activity matches Some(wire::RegistryKeyActivityKind::Create(_))) <==> dk.action is Create,
        (wk.activity matches Some(wire::RegistryKeyActivityKind::Delete(_))) <==> dk.action is Delete,
        (wk.activity matches Some(wire::RegistryKeyActivityKind::Rename(_))) <==> dk.action is Rename,
        (wv.activity matches Some(wire::RegistryValueActivityKind::SetValue(_))) <==> dv.action is SetValue,
        (wv.activity matches Some(wire::RegistryValueActivityKind::Delete(_))) <==> dv.action is Delete,
        dv.action matches RegistryValueAction::SetValue { value_type, .. } ==> (
            wv.activity matches Some(wire::RegistryValueActivityKind::SetValue(s))
                && s.value_type == Some(reg_value_type_raw(value_type))),
{
}

} // verus!
