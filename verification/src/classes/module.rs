//! Module Activity (OCSF 1005).
use vstd::prelude::*;
use crate::convert::{Failure, fail, rejects, require};
use crate::error::{SchemaError, SchemaErrorKind};
use crate::objects::{
    File, ProcessRef, first, is_wire_required_file, is_wire_required_process_ref, required_file_error,
    required_process_ref_error, file_valid, process_ref_valid, lemma_file_round_trip,
    lemma_process_ref_round_trip, lemma_file_wire_unique, lemma_process_ref_wire_unique,
};
use crate::wire;

verus! {

#[derive(Debug, Clone, PartialEq, Eq)]
pub struct ModuleActivity {
    pub actor: ProcessRef,
    pub action: ModuleAction,
}

#[derive(Debug, Clone, PartialEq, Eq)]
pub enum ModuleAction {
    Load { file: File, base_address: u64 },
}

pub open spec fn is_wire_module_activity(w: wire::ModuleActivity, d: ModuleActivity) -> bool {
    &&& is_wire_required_process_ref(w.actor, d.actor)
    &&& match (w.activity, d.action) {
        (Some(wire::ModuleActivityKind::Load(l)), ModuleAction::Load { file, base_address }) => {
            is_wire_required_file(l.file, file) && l.base_address == base_address
        },
        _ => false,
    }
}

/// The activity is checked first: an unknown (newer) activity reads as
/// `activity: Missing`.
pub open spec fn module_activity_error(w: wire::ModuleActivity) -> Option<Failure> {
    match w.activity {
        None => fail(""@, "activity"@, SchemaErrorKind::Missing),
        Some(wire::ModuleActivityKind::Load(l)) => first(
            required_process_ref_error(w.actor, ""@, "actor.process"@),
            required_file_error(l.file, ""@, "module.file"@),
        ),
    }
}

impl ModuleActivity {
    pub fn to_wire(self) -> (r: wire::ModuleActivity)
        ensures
            is_wire_module_activity(r, self),
    {
        let activity = match self.action {
            ModuleAction::Load { file, base_address } => wire::ModuleActivityKind::Load(
                wire::ModuleLoad { file: Some(file.to_wire()), base_address },
            ),
        };
        wire::ModuleActivity { actor: Some(self.actor.to_wire()), activity: Some(activity) }
    }

    pub fn from_wire(w: wire::ModuleActivity) -> (r: Result<Self, SchemaError>)
        ensures
            match module_activity_error(w) {
                Some(f) => rejects(r, f),
                None => r matches Ok(d) && is_wire_module_activity(w, d),
            },
    {
        let activity = require(w.activity, "", "activity")?;
        let actor = ProcessRef::required(w.actor, "", "actor.process")?;
        let action = match activity {
            wire::ModuleActivityKind::Load(l) => {
                let file = File::required(l.file, "", "module.file")?;
                ModuleAction::Load { file, base_address: l.base_address }
            },
        };
        Ok(ModuleActivity { actor, action })
    }
}


// ---------------------------------------------------------------- laws

/// Every string in the activity is within its limit.
pub open spec fn module_activity_valid(d: ModuleActivity) -> bool {
    process_ref_valid(d.actor) && match d.action {
        ModuleAction::Load { file, .. } => file_valid(file),
    }
}

/// A module activity within its limits passes validation in its wire form.
pub proof fn lemma_module_activity_round_trip(d: ModuleActivity, w: wire::ModuleActivity)
    requires
        module_activity_valid(d),
        is_wire_module_activity(w, d),
    ensures
        module_activity_error(w) is None,
{
    lemma_process_ref_round_trip(d.actor, w.actor, ""@, "actor.process"@);
    match (w.activity, d.action) {
        (Some(wire::ModuleActivityKind::Load(l)), ModuleAction::Load { file, .. }) => {
            lemma_file_round_trip(file, l.file, ""@, "module.file"@);
        },
        _ => {},
    }
}

/// The wire form of a module activity determines it.
pub proof fn lemma_module_activity_wire_unique(w: wire::ModuleActivity, d1: ModuleActivity, d2: ModuleActivity)
    requires
        is_wire_module_activity(w, d1),
        is_wire_module_activity(w, d2),
    ensures
        d1 == d2,
{
    lemma_process_ref_wire_unique(w.actor.unwrap(), d1.actor, d2.actor);
    match (w.activity, d1.action, d2.action) {
        (
            Some(wire::ModuleActivityKind::Load(l)),
            ModuleAction::Load { file: f1, .. },
            ModuleAction::Load { file: f2, .. },
        ) => {
            lemma_file_wire_unique(l.file, f1, f2);
        },
        _ => {},
    }
}

} // verus!
