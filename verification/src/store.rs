//! What the compendium does with the process table for each event it
//! stores: every event is recorded, and process steps also keep the table
//! of known processes, keyed by their unique process id, up to date.
use vstd::prelude::*;

use crate::event::process::Process;
use crate::event::{Event, EventData, ProcessData, ProcessExecData, ProcessExitData, ProcessForkData};

verus! {

/// A change to the process table.
#[derive(Debug, Clone, Copy, PartialEq, Eq)]
pub enum ProcessTableAction {
    /// Add a new process.
    Insert(Process),
    /// Replace the process stored under `key`, or add it.
    Upsert { key: i64, process: Process },
    /// Remove the process stored under `key`.
    Delete { key: i64 },
}

/// The key under which a process is stored: its unique process id read as
/// a signed 64-bit number.
pub open spec fn process_key(p: Process) -> i64 {
    p.upid as i64
}

/// The change to the process table that an event calls for: a fork adds
/// the child, an exec or a snapshot replaces (or adds) the process, an exit
/// removes it; other events leave the table alone.
pub open spec fn process_table_action(e: Event) -> Option<ProcessTableAction> {
    match e.data {
        EventData::Process(ProcessData::Fork(ProcessForkData { child })) => Some(
            ProcessTableAction::Insert(child),
        ),
        EventData::Process(ProcessData::Exec(ProcessExecData(proc))) => Some(
            ProcessTableAction::Upsert { key: process_key(proc), process: proc },
        ),
        EventData::Process(ProcessData::Exit(ProcessExitData(proc))) => Some(
            ProcessTableAction::Delete { key: process_key(proc) },
        ),
        EventData::Process(ProcessData::Proc(proc)) => Some(
            ProcessTableAction::Upsert { key: process_key(proc), process: proc },
        ),
        _ => None,
    }
}

/// Only process events change the process table: a fork inserts the
/// child, an exec or a snapshot stores the process under its unique
/// process id, an exit removes the entry under that id; file and network
/// events leave the table alone.
pub proof fn lemma_process_table_by_kind(e: Event, p: Process)
    ensures
        !(e.data is Process) ==> process_table_action(e) is None,
        e.data == EventData::Process(ProcessData::Fork(ProcessForkData { child: p }))
            ==> process_table_action(e) == Some(ProcessTableAction::Insert(p)),
        e.data == EventData::Process(ProcessData::Exec(ProcessExecData(p))) ==> process_table_action(e)
            == Some(ProcessTableAction::Upsert { key: p.upid as i64, process: p }),
        e.data == EventData::Process(ProcessData::Proc(p)) ==> process_table_action(e) == Some(
            ProcessTableAction::Upsert { key: p.upid as i64, process: p },
        ),
        e.data == EventData::Process(ProcessData::Exit(ProcessExitData(p))) ==> process_table_action(e)
            == Some(ProcessTableAction::Delete { key: p.upid as i64 }),
{
}

/// Decides the change to the process table for a stored event.
pub fn plan_process_update(event: &Event) -> (r: Option<ProcessTableAction>)
    ensures
        r == process_table_action(*event),
{
    if let EventData::Process(proc) = &event.data {
        match proc {
            ProcessData::Fork(ProcessForkData { child }) => Some(ProcessTableAction::Insert(*child)),
            ProcessData::Exec(ProcessExecData(proc)) => Some(
                ProcessTableAction::Upsert { key: proc.upid as i64, process: *proc },
            ),
            ProcessData::Exit(ProcessExitData(proc)) => Some(
                ProcessTableAction::Delete { key: proc.upid as i64 },
            ),
            ProcessData::Proc(proc) => Some(
                ProcessTableAction::Upsert { key: proc.upid as i64, process: *proc },
            ),
        }
    } else {
        None
    }
}

} // verus!
