//! Process Activity (OCSF 1007).
use vstd::prelude::*;
use crate::convert::{Failure, fail, rejects, require};
use crate::error::{SchemaError, SchemaErrorKind};
use crate::objects::{
    Process, ProcessRef, first, is_wire_process, is_wire_required_process_ref, process_error,
    required_process_ref_error, process_ref_valid, process_valid, lemma_process_ref_round_trip,
    lemma_process_round_trip, lemma_process_ref_wire_unique, lemma_process_wire_unique,
};
use crate::wire;

verus! {

#[allow(inconsistent_fields)]
#[derive(Debug, Clone, PartialEq, Eq)]
pub enum ProcessActivity {
    Launch {
        /// The process that actually issued the creation.
        actor: ProcessRef,
        /// The new process, full detail.
        process: Process,
    },
    Terminate { process: ProcessRef, exit_code: Option<i32> },
}

pub open spec fn is_wire_process_activity(w: wire::ProcessActivity, d: ProcessActivity) -> bool {
    match (w.activity, d) {
        (Some(wire::ProcessActivityKind::Launch(l)), ProcessActivity::Launch { actor, process }) => {
            &&& is_wire_required_process_ref(l.actor, actor)
            &&& l.process matches Some(p) && is_wire_process(p, process)
        },
        (Some(wire::ProcessActivityKind::Terminate(t)), ProcessActivity::Terminate { process, exit_code }) => {
            is_wire_required_process_ref(t.process, process) && t.exit_code == exit_code
        },
        _ => false,
    }
}

pub open spec fn process_activity_error(w: wire::ProcessActivity) -> Option<Failure> {
    match w.activity {
        None => fail(""@, "activity"@, SchemaErrorKind::Missing),
        Some(wire::ProcessActivityKind::Launch(l)) => first(
            required_process_ref_error(l.actor, ""@, "actor.process"@),
            match l.process {
                None => fail(""@, "process"@, SchemaErrorKind::Missing),
                Some(p) => process_error(p, "process"@),
            },
        ),
        Some(wire::ProcessActivityKind::Terminate(t)) => required_process_ref_error(t.process, ""@, "process"@),
    }
}

impl ProcessActivity {
    pub fn to_wire(self) -> (r: wire::ProcessActivity)
        ensures
            is_wire_process_activity(r, self),
    {
        let activity = match self {
            ProcessActivity::Launch { actor, process } => wire::ProcessActivityKind::Launch(
                wire::ProcessLaunch { actor: Some(actor.to_wire()), process: Some(process.to_wire()) },
            ),
            ProcessActivity::Terminate { process, exit_code } => wire::ProcessActivityKind::Terminate(
                wire::ProcessTerminate { process: Some(process.to_wire()), exit_code },
            ),
        };
        wire::ProcessActivity { activity: Some(activity) }
    }

    pub fn from_wire(w: wire::ProcessActivity) -> (r: Result<Self, SchemaError>)
        ensures
            match process_activity_error(w) {
                Some(f) => rejects(r, f),
                None => r matches Ok(d) && is_wire_process_activity(w, d),
            },
    {
        match require(w.activity, "", "activity")? {
            wire::ProcessActivityKind::Launch(l) => {
                let actor = ProcessRef::required(l.actor, "", "actor.process")?;
                let p = require(l.process, "", "process")?;
                let process = Process::from_wire(p, "process")?;
                Ok(ProcessActivity::Launch { actor, process })
            },
            wire::ProcessActivityKind::Terminate(t) => {
                let process = ProcessRef::required(t.process, "", "process")?;
                Ok(ProcessActivity::Terminate { process, exit_code: t.exit_code })
            },
        }
    }
}


// ---------------------------------------------------------------- laws

/// Every string in the activity is within its limit.
pub open spec fn process_activity_valid(d: ProcessActivity) -> bool {
    match d {
        ProcessActivity::Launch { actor, process } => process_ref_valid(actor) && process_valid(process),
        ProcessActivity::Terminate { process, .. } => process_ref_valid(process),
    }
}

/// A process activity within its limits passes validation in its wire form.
pub proof fn lemma_process_activity_round_trip(d: ProcessActivity, w: wire::ProcessActivity)
    requires
        process_activity_valid(d),
        is_wire_process_activity(w, d),
    ensures
        process_activity_error(w) is None,
{
    match (w.activity, d) {
        (Some(wire::ProcessActivityKind::Launch(l)), ProcessActivity::Launch { actor, process }) => {
            lemma_process_ref_round_trip(actor, l.actor, ""@, "actor.process"@);
            lemma_process_round_trip(process, l.process.unwrap(), "process"@);
        },
        (Some(wire::ProcessActivityKind::Terminate(t)), ProcessActivity::Terminate { process, .. }) => {
            lemma_process_ref_round_trip(process, t.process, ""@, "process"@);
        },
        _ => {},
    }
}

/// The wire form of a process activity determines it.
pub proof fn lemma_process_activity_wire_unique(w: wire::ProcessActivity, d1: ProcessActivity, d2: ProcessActivity)
    requires
        is_wire_process_activity(w, d1),
        is_wire_process_activity(w, d2),
    ensures
        d1 == d2,
{
    match (w.activity, d1, d2) {
        (
            Some(wire::ProcessActivityKind::Launch(l)),
            ProcessActivity::Launch { actor: a1, process: p1 },
            ProcessActivity::Launch { actor: a2, process: p2 },
        ) => {
            lemma_process_ref_wire_unique(l.actor.unwrap(), a1, a2);
            lemma_process_wire_unique(l.process.unwrap(), p1, p2);
        },
        (
            Some(wire::ProcessActivityKind::Terminate(t)),
            ProcessActivity::Terminate { process: p1, .. },
            ProcessActivity::Terminate { process: p2, .. },
        ) => {
            lemma_process_ref_wire_unique(t.process.unwrap(), p1, p2);
        },
        _ => {},
    }
}

} // verus!
