//! File System Activity (OCSF 1001).
use vstd::prelude::*;
use crate::convert::{Failure, fail, rejects, require};
use crate::error::{SchemaError, SchemaErrorKind};
use crate::objects::{
    File, ProcessRef, first, is_wire_required_file, is_wire_required_process_ref, required_file_error,
    required_process_ref_error, file_valid, process_ref_valid, lemma_file_round_trip,
    lemma_process_ref_round_trip, lemma_file_wire_unique, lemma_process_ref_wire_unique,
};
use crate::wire;

verus! {

#[derive(Debug, Clone, PartialEq, Eq)]
pub struct FileSystemActivity {
    pub actor: ProcessRef,
    /// For `Rename`: the original file.
    pub file: File,
    pub action: FileAction,
}

#[derive(Debug, Clone, PartialEq, Eq)]
pub enum FileAction {
    Create,
    Read,
    Update,
    Delete,
    Rename { file_result: File },
    SetAttributes,
}

pub open spec fn is_wire_file_action(w: Option<wire::FileSystemActivityKind>, d: FileAction) -> bool {
    match (w, d) {
        (Some(wire::FileSystemActivityKind::Create(_)), FileAction::Create) => true,
        (Some(wire::FileSystemActivityKind::Read(_)), FileAction::Read) => true,
        (Some(wire::FileSystemActivityKind::Update(_)), FileAction::Update) => true,
        (Some(wire::FileSystemActivityKind::Delete(_)), FileAction::Delete) => true,
        (Some(wire::FileSystemActivityKind::Rename(r)), FileAction::Rename { file_result }) => {
            is_wire_required_file(r.file_result, file_result)
        },
        (Some(wire::FileSystemActivityKind::SetAttributes(_)), FileAction::SetAttributes) => true,
        _ => false,
    }
}

pub open spec fn is_wire_file_activity(w: wire::FileSystemActivity, d: FileSystemActivity) -> bool {
    &&& is_wire_required_process_ref(w.actor, d.actor)
    &&& is_wire_required_file(w.file, d.file)
    &&& is_wire_file_action(w.activity, d.action)
}

/// The activity is checked first: an unknown (newer) activity reads as
/// `activity: Missing`, not as a missing class field.
pub open spec fn file_activity_error(w: wire::FileSystemActivity) -> Option<Failure> {
    match w.activity {
        None => fail(""@, "activity"@, SchemaErrorKind::Missing),
        Some(a) => first(
            required_process_ref_error(w.actor, ""@, "actor.process"@),
            first(
                required_file_error(w.file, ""@, "file"@),
                match a {
                    wire::FileSystemActivityKind::Rename(r) => required_file_error(r.file_result, ""@, "file_result"@),
                    _ => None,
                },
            ),
        ),
    }
}

impl FileSystemActivity {
    pub fn to_wire(self) -> (r: wire::FileSystemActivity)
        ensures
            is_wire_file_activity(r, self),
    {
        let activity = match self.action {
            FileAction::Create => wire::FileSystemActivityKind::Create(wire::FileCreate {  }),
            FileAction::Read => wire::FileSystemActivityKind::Read(wire::FileRead {  }),
            FileAction::Update => wire::FileSystemActivityKind::Update(wire::FileUpdate {  }),
            FileAction::Delete => wire::FileSystemActivityKind::Delete(wire::FileDelete {  }),
            FileAction::Rename { file_result } => wire::FileSystemActivityKind::Rename(
                wire::FileRename { file_result: Some(file_result.to_wire()) },
            ),
            FileAction::SetAttributes => wire::FileSystemActivityKind::SetAttributes(wire::FileSetAttributes {  }),
        };
        wire::FileSystemActivity {
            actor: Some(self.actor.to_wire()),
            file: Some(self.file.to_wire()),
            activity: Some(activity),
        }
    }

    pub fn from_wire(w: wire::FileSystemActivity) -> (r: Result<Self, SchemaError>)
        ensures
            match file_activity_error(w) {
                Some(f) => rejects(r, f),
                None => r matches Ok(d) && is_wire_file_activity(w, d),
            },
    {
        let activity = require(w.activity, "", "activity")?;
        let actor = ProcessRef::required(w.actor, "", "actor.process")?;
        let file = File::required(w.file, "", "file")?;
        let action = match activity {
            wire::FileSystemActivityKind::Create(_) => FileAction::Create,
            wire::FileSystemActivityKind::Read(_) => FileAction::Read,
            wire::FileSystemActivityKind::Update(_) => FileAction::Update,
            wire::FileSystemActivityKind::Delete(_) => FileAction::Delete,
            wire::FileSystemActivityKind::Rename(r) => {
                let file_result = File::required(r.file_result, "", "file_result")?;
                FileAction::Rename { file_result }
            },
            wire::FileSystemActivityKind::SetAttributes(_) => FileAction::SetAttributes,
        };
        Ok(FileSystemActivity { actor, file, action })
    }
}


// ---------------------------------------------------------------- laws

/// Every string in the activity is within its limit.
pub open spec fn file_activity_valid(d: FileSystemActivity) -> bool {
    &&& process_ref_valid(d.actor)
    &&& file_valid(d.file)
    &&& d.action matches FileAction::Rename { file_result } ==> file_valid(file_result)
}

/// A file system activity within its limits passes validation in its wire form.
pub proof fn lemma_file_activity_round_trip(d: FileSystemActivity, w: wire::FileSystemActivity)
    requires
        file_activity_valid(d),
        is_wire_file_activity(w, d),
    ensures
        file_activity_error(w) is None,
{
    lemma_process_ref_round_trip(d.actor, w.actor, ""@, "actor.process"@);
    lemma_file_round_trip(d.file, w.file, ""@, "file"@);
    match (w.activity, d.action) {
        (Some(wire::FileSystemActivityKind::Rename(r)), FileAction::Rename { file_result }) => {
            lemma_file_round_trip(file_result, r.file_result, ""@, "file_result"@);
        },
        _ => {},
    }
}

/// The wire form of a file system activity determines it.
pub proof fn lemma_file_activity_wire_unique(w: wire::FileSystemActivity, d1: FileSystemActivity, d2: FileSystemActivity)
    requires
        is_wire_file_activity(w, d1),
        is_wire_file_activity(w, d2),
    ensures
        d1 == d2,
{
    lemma_process_ref_wire_unique(w.actor.unwrap(), d1.actor, d2.actor);
    lemma_file_wire_unique(w.file, d1.file, d2.file);
    match (w.activity, d1.action, d2.action) {
        (
            Some(wire::FileSystemActivityKind::Rename(r)),
            FileAction::Rename { file_result: f1 },
            FileAction::Rename { file_result: f2 },
        ) => {
            lemma_file_wire_unique(r.file_result, f1, f2);
        },
        _ => {},
    }
}

/// Each file action travels as the `FileSystemActivity` oneof case of the
/// same name: a wire file activity and the activity it is the wire form of
/// agree on the action.
pub proof fn lemma_file_action_cases(w: wire::FileSystemActivity, d: FileSystemActivity)
    requires
        is_wire_file_activity(w, d),
    ensures
        (w.activity matches Some(wire::FileSystemActivityKind::Create(_))) <==> d.action is Create,
        (w.activity matches Some(wire::FileSystemActivityKind::Read(_))) <==> d.action is Read,
        (w.activity matches Some(wire::FileSystemActivityKind::Update(_))) <==> d.action is Update,
        (w.activity matches Some(wire::FileSystemActivityKind::Delete(_))) <==> d.action is Delete,
        (w.activity matches Some(wire::FileSystemActivityKind::Rename(_))) <==> d.action is Rename,
        (w.activity matches Some(wire::FileSystemActivityKind::SetAttributes(_))) <==> d.action is SetAttributes,
{
}

} // verus!
