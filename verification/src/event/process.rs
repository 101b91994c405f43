//! The process that an event is about.
use vstd::prelude::*;

verus! {

/// A process, identified by its unique process id.
#[derive(Debug, Clone, Copy, PartialEq, Eq, Structural)]
pub struct Process {
    pub upid: u64,
}

} // verus!
