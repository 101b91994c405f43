//! The records that the kernel-side probes hand to user space, held as
//! plain values: each union of the kernel layout becomes a struct holding
//! what every one of its members reads as.
use vstd::prelude::*;

use crate::event::process::Process;

verus! {

/// Size of the path buffers filled in kernel side.
pub const PATH_MAX: usize = 4096;

/// Identifies a file on the host: inode number and device.
#[derive(Debug, Clone, Copy, PartialEq, Eq, Structural, Default)]
pub struct InodeKey {
    pub inode: u64,
    pub dev: u64,
}

/// The kind of activity that a kernel record reports.
#[derive(Debug, Clone, Copy, PartialEq, Eq)]
pub enum EventType {
    FileActivityOpen,
    FileActivityCreation,
    FileActivityUnlink,
    FileActivityChmod,
    FileActivityChown,
    FileActivityRename,
    ProcessFork,
    ProcessExec,
    ProcessExit,
    SocketListen,
    SocketAccept,
    SocketConnect,
}

impl EventType {
    /// Record kinds that describe an operation on a file.
    pub open spec fn is_file_activity(self) -> bool {
        ||| self is FileActivityOpen
        ||| self is FileActivityCreation
        ||| self is FileActivityUnlink
        ||| self is FileActivityChmod
        ||| self is FileActivityChown
        ||| self is FileActivityRename
    }
}

/// A socket address as the kernel reports it: the address in network
/// byte order (IPv4 in the first four bytes) and the port.
#[derive(Debug, Clone, Copy, PartialEq, Eq)]
pub struct RawSocket {
    pub address: [u8; 16],
    pub port: u16,
}

/// Both ends of an accepted or connected socket.
#[derive(Debug, Clone, Copy, PartialEq, Eq)]
pub struct RawSocketPair {
    pub local: RawSocket,
    pub remote: RawSocket,
}

/// The network part of a record: address family and the socket data read
/// as a listening socket or as a connection.
#[derive(Debug, Clone, Copy, PartialEq, Eq)]
pub struct RawNetwork {
    pub family: u16,
    pub listen: RawSocket,
    pub accept: RawSocketPair,
    pub connect: RawSocketPair,
}

/// The file part of a record: the path buffer (NUL terminated) and inode.
#[derive(Debug, Clone)]
pub struct RawFile {
    pub path: Vec<u8>,
    pub inode: InodeKey,
}

/// Old and new permission bits of a chmod.
#[derive(Debug, Clone, Copy, PartialEq, Eq)]
pub struct RawChmod {
    pub new: u16,
    pub old: u16,
}

/// A user and group pair.
#[derive(Debug, Clone, Copy, PartialEq, Eq)]
pub struct RawOwner {
    pub uid: u32,
    pub gid: u32,
}

/// Old and new ownership of a chown.
#[derive(Debug, Clone, Copy, PartialEq, Eq)]
pub struct RawChown {
    pub new: RawOwner,
    pub old: RawOwner,
}

/// The source of a rename: its path buffer (NUL terminated) and inode.
#[derive(Debug, Clone)]
pub struct RawRename {
    pub old_filename: Vec<u8>,
    pub old_inode: InodeKey,
}

/// The operation-specific part of a file record.
#[derive(Debug, Clone)]
pub struct RawExtra {
    pub chmod: RawChmod,
    pub chown: RawChown,
    pub rename: RawRename,
}

/// One record of activity as read from the kernel.
#[derive(Debug, Clone)]
pub struct RawEvent {
    pub type_: EventType,
    /// Nanoseconds since boot.
    pub timestamp: u64,
    pub process: Process,
    pub file: RawFile,
    pub network: RawNetwork,
    pub extra: RawExtra,
}

} // verus!
