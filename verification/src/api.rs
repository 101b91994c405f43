//! The messages exchanged with the compendium service, held as plain
//! values with the fields of their protocol definitions. A message field
//! that the protocol makes optional is an `Option`.
use vstd::prelude::*;

use crate::event::process::Process;

verus! {

/// A point in time as carried on the wire: whole seconds and the
/// nanoseconds within that second.
#[derive(Debug, Clone, Copy, PartialEq, Eq)]
pub struct Timestamp {
    pub seconds: i64,
    pub nanos: i32,
}

/// One event as sent to the compendium.
#[derive(Debug, Clone)]
pub struct FactMsg {
    pub timestamp: Option<Timestamp>,
    pub hostname: String,
    pub msg: Option<Msg>,
}

/// The kind of activity a message reports.
#[derive(Debug, Clone)]
pub enum Msg {
    File(FileActivity),
    Process(ProcessActivity),
    Net(NetworkActivity),
}

/// A file operation and the process that made it.
#[derive(Debug, Clone)]
pub struct FileActivity {
    pub file: Option<File>,
    pub process: Option<Process>,
}

/// The paths of the file an operation is about.
#[derive(Debug, Clone)]
pub struct FileActivityBase {
    pub path: String,
    pub host_path: String,
}

/// A file operation.
#[derive(Debug, Clone)]
pub enum File {
    Open(FileOpen),
    Creation(FileCreation),
    Unlink(FileUnlink),
    Permission(FilePermissionChange),
    Ownership(FileOwnershipChange),
    Rename(FileRename),
}

#[derive(Debug, Clone)]
pub struct FileOpen {
    pub activity: Option<FileActivityBase>,
}

#[derive(Debug, Clone)]
pub struct FileCreation {
    pub activity: Option<FileActivityBase>,
}

#[derive(Debug, Clone)]
pub struct FileUnlink {
    pub activity: Option<FileActivityBase>,
}

/// New permission bits of a file.
#[derive(Debug, Clone)]
pub struct FilePermissionChange {
    pub activity: Option<FileActivityBase>,
    pub mode: u32,
}

/// New owner and group of a file, with their names when known.
#[derive(Debug, Clone)]
pub struct FileOwnershipChange {
    pub activity: Option<FileActivityBase>,
    pub uid: u32,
    pub gid: u32,
    pub username: String,
    pub group: String,
}

/// A rename: source and destination.
#[derive(Debug, Clone)]
pub struct FileRename {
    pub old: Option<FileActivityBase>,
    pub new: Option<FileActivityBase>,
}

/// A process lifecycle step or snapshot.
#[derive(Debug, Clone)]
pub struct ProcessActivity {
    pub process: Option<ProcessActivityKind>,
}

/// Which process lifecycle step a message reports.
#[derive(Debug, Clone, Copy)]
pub enum ProcessActivityKind {
    Fork(ProcessFork),
    Exec(Process),
    Exit(Process),
    Proc(Process),
}

/// A new child process.
#[derive(Debug, Clone, Copy)]
pub struct ProcessFork {
    pub child: Option<Process>,
}

/// A network operation and the process that made it.
#[derive(Debug, Clone)]
pub struct NetworkActivity {
    pub process: Option<Process>,
    pub net: Option<Net>,
}

/// A network operation.
#[derive(Debug, Clone)]
pub enum Net {
    Listen(Socket),
    Accept(Accept),
    Connect(Connect),
}

/// A socket end: the address as text and the port.
#[derive(Debug, Clone)]
pub struct Socket {
    pub address: String,
    pub port: u32,
}

/// Both ends of an accepted connection.
#[derive(Debug, Clone)]
pub struct Accept {
    pub local: Option<Socket>,
    pub remote: Option<Socket>,
}

/// Both ends of an outgoing connection.
#[derive(Debug, Clone)]
pub struct Connect {
    pub local: Option<Socket>,
    pub remote: Option<Socket>,
}

} // verus!
