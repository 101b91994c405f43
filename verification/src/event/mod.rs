//! Events: what the tracker reports about files, processes and sockets.
use vstd::prelude::*;
use vstd::string::*;
use vstd::utf8::*;

use crate::ebpf::{EventType, InodeKey, RawEvent, RawExtra};
use crate::path;
use crate::text;

pub mod kind_laws;
pub mod laws;
pub mod message_laws;
pub mod network;
pub mod process;
pub mod socket;
pub mod wire;

use network::{AcceptData, ConnectData, ListenData, NetworkData, socket_from_raw};
use process::Process;

verus! {

/// Why a kernel record could not be turned into an event.
#[derive(Debug, Clone, Copy, PartialEq, Eq)]
pub enum EventError {
    /// The buffer's bytes before its NUL are not valid UTF-8.
    InvalidUtf8,
}

/// Reads a NUL-terminated buffer as a UTF-8 string.
pub fn slice_to_string(s: &[u8]) -> (r: Result<String, EventError>)
    requires
        path::has_nul(s@),
    ensures
        match r {
            Ok(text) => valid_utf8(path::c_str(s@)) && text@ == decode_utf8(path::c_str(s@)),
            Err(e) => !valid_utf8(path::c_str(s@)) && e == EventError::InvalidUtf8,
        },
{
    let bytes = path::c_str_bytes(s);
    match text::str_from_utf8(bytes.as_slice()) {
        Some(text) => {
            proof {
                encode_utf8_decode_utf8(text@);
            }
            Ok(text.to_owned())
        },
        None => Err(EventError::InvalidUtf8),
    }
}

/// The suffix that the kernel appends to the path of a removed file.
pub open spec fn deleted_suffix() -> Seq<char> {
    seq![' ', '(', 'd', 'e', 'l', 'e', 't', 'e', 'd', ')']
}

/// The text ends with the suffix of a removed file.
pub open spec fn ends_with_deleted(s: Seq<char>) -> bool {
    s.len() >= 10 && s.subrange(s.len() - 10, s.len() as int) == deleted_suffix()
}

/// The path `p` with its file name written as the text `name_text`:
/// when that text ends with the suffix that marks a removed file, the
/// parent joined with the text without the suffix; else `p` with the
/// bytes of its file name replaced by the text's UTF-8 bytes. A path
/// without a file name stays as it is.
pub open spec fn with_name_text(p: Seq<u8>, name_text: Seq<char>) -> Seq<u8> {
    if path::file_name(p) is None {
        p
    } else if ends_with_deleted(name_text) {
        path::join(path::parent(p), encode_utf8(name_text.subrange(0, name_text.len() - 10)))
    } else {
        p.subrange(0, path::name_begin(p)) + encode_utf8(name_text) + p.subrange(
            path::name_end(p),
            p.len() as int,
        )
    }
}

/// The path that a kernel path buffer reports. Its file name is read as
/// UTF-8, each invalid sequence replaced by U+FFFD, and written back that
/// way, with the suffix that marks a removed file taken off.
pub open spec fn sanitized_d_path(buf: Seq<u8>) -> Seq<u8> {
    let p = path::c_str(buf);
    match path::file_name(p) {
        Some(name) => with_name_text(p, text::utf8_lossy(name)),
        None => p,
    }
}

fn ends_with_deleted_exec(s: &str) -> (r: bool)
    ensures
        r == ends_with_deleted(s@),
{
    let n = s.unicode_len();
    if n < 10 {
        return false;
    }
    let expected = [' ', '(', 'd', 'e', 'l', 'e', 't', 'e', 'd', ')'];
    let mut i: usize = 0;
    while i < 10
        invariant
            n == s@.len(),
            n >= 10,
            i <= 10,
            expected@ == deleted_suffix(),
            forall|j: int| 0 <= j < i ==> s@[n - 10 + j] == deleted_suffix()[j],
        decreases 10 - i,
    {
        if s.get_char(n - 10 + i) != expected[i] {
            assert(s@.subrange(n - 10, n as int)[i as int] != deleted_suffix()[i as int]);
            return false;
        }
        i = i + 1;
    }
    assert(s@.subrange(n - 10, n as int) =~= deleted_suffix());
    true
}

/// Writes the file name of `p` as the text `name_text`, without the
/// suffix that marks a removed file when the text ends with it.
pub fn rewrite_file_name(p: Vec<u8>, name_text: &str) -> (r: Vec<u8>)
    ensures
        r@ == with_name_text(p@, name_text@),
{
    match path::file_name_bounds(p.as_slice()) {
        None => p,
        Some((b, e, _)) => {
            if ends_with_deleted_exec(name_text) {
                let n = name_text.unicode_len();
                let stripped = name_text.substring_char(0, n - 10);
                let parent = path::parent_exec(p.as_slice());
                path::join_exec(parent, stripped.as_bytes())
            } else {
                let mut r = path::copy_range(p.as_slice(), 0, b);
                let name = name_text.as_bytes();
                let tail = path::copy_range(p.as_slice(), e, p.len());
                let ghost head = r@;
                let mut i: usize = 0;
                while i < name.len()
                    invariant
                        i <= name@.len(),
                        r@ == head + name@.subrange(0, i as int),
                    decreases name@.len() - i,
                {
                    r.push(name[i]);
                    i = i + 1;
                    assert(r@ =~= head + name@.subrange(0, i as int));
                }
                let ghost mid = r@;
                let mut j: usize = 0;
                while j < tail.len()
                    invariant
                        j <= tail@.len(),
                        r@ == mid + tail@.subrange(0, j as int),
                    decreases tail@.len() - j,
                {
                    r.push(tail[j]);
                    j = j + 1;
                    assert(r@ =~= mid + tail@.subrange(0, j as int));
                }
                assert(name@.subrange(0, name@.len() as int) =~= name@);
                assert(tail@.subrange(0, tail@.len() as int) =~= tail@);
                r
            }
        },
    }
}

/// Sanitizes a buffer filled by the kernel's `d_path`: the file name is
/// read as UTF-8, invalid sequences replaced by U+FFFD, and the suffix
/// " (deleted)" that the kernel appends to the path of a removed file is
/// taken off it. A file whose name really ends in " (deleted)" is reported
/// without it as well.
pub fn sanitize_d_path(s: &[u8]) -> (r: Vec<u8>)
    requires
        path::has_nul(s@),
    ensures
        r@ == sanitized_d_path(s@),
{
    let p = path::c_str_bytes(s);
    match path::file_name_bounds(p.as_slice()) {
        Some((b, e, _)) => {
            let name = path::copy_range(p.as_slice(), b, e);
            let text = text::string_from_utf8_lossy(name.as_slice());
            rewrite_file_name(p, text.as_str())
        },
        None => p,
    }
}

/// What a test asks `Event::new` to build.
#[derive(Debug, Clone)]
pub enum EventTestData {
    Creation,
    Unlink,
    Chmod(u16, u16),
    Rename(Vec<u8>),
}

/// One reported activity: when, on which host, and what happened.
#[derive(Debug, Clone)]
pub struct Event {
    /// Nanoseconds since the Unix epoch.
    pub timestamp: u64,
    pub hostname: String,
    pub data: EventData,
}

/// What an event reports.
#[derive(Debug, Clone, PartialEq)]
pub enum EventData {
    File { process: Process, file: FileData },
    Process(ProcessData),
    Network { process: Process, network: NetworkData },
}

/// An operation on a file.
#[derive(Debug, Clone, PartialEq)]
pub enum FileData {
    Open(BaseFileData),
    Creation(BaseFileData),
    Unlink(BaseFileData),
    Chmod(ChmodFileData),
    Chown(ChownFileData),
    Rename(RenameFileData),
}

/// The file that an operation is about: its path as the process saw it,
/// its path on the host (filled in later by the host scanner) and its inode.
#[derive(Debug, Clone)]
pub struct BaseFileData {
    pub filename: Vec<u8>,
    pub host_file: Vec<u8>,
    pub inode: InodeKey,
}

impl PartialEq for BaseFileData {
    /// Two file records are equal when their paths are; the inode is not
    /// compared.
    fn eq(&self, other: &Self) -> (r: bool) {
        path::bytes_eq(self.filename.as_slice(), other.filename.as_slice()) && path::bytes_eq(
            self.host_file.as_slice(),
            other.host_file.as_slice(),
        )
    }
}

impl vstd::std_specs::cmp::PartialEqSpecImpl for BaseFileData {
    open spec fn obeys_eq_spec() -> bool {
        true
    }

    open spec fn eq_spec(&self, other: &Self) -> bool {
        same_paths(*self, *other)
    }
}

/// Two file records name the same paths.
pub open spec fn same_paths(a: BaseFileData, b: BaseFileData) -> bool {
    a.filename@ == b.filename@ && a.host_file@ == b.host_file@
}

/// A change of permission bits.
#[derive(Debug, Clone, PartialEq)]
pub struct ChmodFileData {
    pub inner: BaseFileData,
    pub new_mode: u16,
    pub old_mode: u16,
}

/// A change of owner and group.
#[derive(Debug, Clone, PartialEq)]
pub struct ChownFileData {
    pub inner: BaseFileData,
    pub new_uid: u32,
    pub new_gid: u32,
    pub old_uid: u32,
    pub old_gid: u32,
}

/// A rename, from `old` to `new`.
#[derive(Debug, Clone, PartialEq)]
pub struct RenameFileData {
    pub new: BaseFileData,
    pub old: BaseFileData,
}

/// A process lifecycle step, or a snapshot of a process.
#[derive(Debug, Clone, Copy, PartialEq, Eq, Structural)]
pub enum ProcessData {
    Fork(ProcessForkData),
    Exec(ProcessExecData),
    Exit(ProcessExitData),
    Proc(Process),
}

/// A new child process.
#[derive(Debug, Clone, Copy, PartialEq, Eq, Structural)]
pub struct ProcessForkData {
    pub child: Process,
}

/// A process that replaced its program image.
#[derive(Debug, Clone, Copy, PartialEq, Eq, Structural)]
pub struct ProcessExecData(pub Process);

/// A process that ended.
#[derive(Debug, Clone, Copy, PartialEq, Eq, Structural)]
pub struct ProcessExitData(pub Process);

/// The inode key that nothing has been read into.
pub open spec fn no_inode() -> InodeKey {
    InodeKey { inode: 0, dev: 0 }
}

/// `b` holds the given paths and inode.
pub open spec fn base_is(b: BaseFileData, filename: Seq<u8>, host_file: Seq<u8>, inode: InodeKey) -> bool {
    b.filename@ == filename && b.host_file@ == host_file && b.inode == inode
}

/// The file operation that `Event::new` builds for a test request.
pub open spec fn test_file_is(file: FileData, data: EventTestData, filename: Vec<u8>, host_file: Vec<u8>) -> bool {
    let inner = BaseFileData { filename, host_file, inode: no_inode() };
    match data {
        EventTestData::Creation => file == FileData::Creation(inner),
        EventTestData::Unlink => file == FileData::Unlink(inner),
        EventTestData::Chmod(new_mode, old_mode) => file == FileData::Chmod(
            ChmodFileData { inner, new_mode, old_mode },
        ),
        EventTestData::Rename(old_path) => file matches FileData::Rename(r) && r.new == inner
            && r.old.filename == old_path && base_is(r.old, old_path@, seq![], no_inode()),
    }
}

/// The inode that a file event is about; the new one for a rename.
pub open spec fn inode_of(data: EventData) -> Option<InodeKey> {
    match data {
        EventData::File { file, .. } => Some(
            match file {
                FileData::Open(d) => d.inode,
                FileData::Creation(d) => d.inode,
                FileData::Unlink(d) => d.inode,
                FileData::Chmod(d) => d.inner.inode,
                FileData::Chown(d) => d.inner.inode,
                FileData::Rename(d) => d.new.inode,
            },
        ),
        _ => None,
    }
}

/// The source inode of a rename.
pub open spec fn old_inode_of(data: EventData) -> Option<InodeKey> {
    match data {
        EventData::File { file: FileData::Rename(d), .. } => Some(d.old.inode),
        _ => None,
    }
}

/// The host path of the file that a file event is about; the new one for
/// a rename.
pub open spec fn host_path_of(data: EventData) -> Option<Vec<u8>> {
    match data {
        EventData::File { file, .. } => Some(
            match file {
                FileData::Open(d) => d.host_file,
                FileData::Creation(d) => d.host_file,
                FileData::Unlink(d) => d.host_file,
                FileData::Chmod(d) => d.inner.host_file,
                FileData::Chown(d) => d.inner.host_file,
                FileData::Rename(d) => d.new.host_file,
            },
        ),
        _ => None,
    }
}

/// The host path of the source of a rename.
pub open spec fn old_host_path_of(data: EventData) -> Option<Vec<u8>> {
    match data {
        EventData::File { file: FileData::Rename(d), .. } => Some(d.old.host_file),
        _ => None,
    }
}

/// `b` with its host path replaced.
pub open spec fn base_with_host(b: BaseFileData, host_file: Vec<u8>) -> BaseFileData {
    BaseFileData { host_file, ..b }
}

/// The event data with the host path of its file replaced (the new file
/// for a rename); other events are left as they are.
pub open spec fn with_host_path(data: EventData, host_path: Vec<u8>) -> EventData {
    match data {
        EventData::File { process, file } => EventData::File {
            process,
            file: match file {
                FileData::Open(d) => FileData::Open(base_with_host(d, host_path)),
                FileData::Creation(d) => FileData::Creation(base_with_host(d, host_path)),
                FileData::Unlink(d) => FileData::Unlink(base_with_host(d, host_path)),
                FileData::Chmod(d) => FileData::Chmod(
                    ChmodFileData { inner: base_with_host(d.inner, host_path), ..d },
                ),
                FileData::Chown(d) => FileData::Chown(
                    ChownFileData { inner: base_with_host(d.inner, host_path), ..d },
                ),
                FileData::Rename(d) => FileData::Rename(
                    RenameFileData { new: base_with_host(d.new, host_path), ..d },
                ),
            },
        },
        _ => data,
    }
}

/// The event data with the host path of a rename's source replaced;
/// other events are left as they are.
pub open spec fn with_old_host_path(data: EventData, host_path: Vec<u8>) -> EventData {
    match data {
        EventData::File { process, file: FileData::Rename(d) } => EventData::File {
            process,
            file: FileData::Rename(RenameFileData { old: base_with_host(d.old, host_path), ..d }),
        },
        _ => data,
    }
}

impl Event {
    /// Builds a file event for a test: a creation, unlink, chmod or rename
    /// of `filename`, by `process`, at the given time.
    pub fn new(
        data: EventTestData,
        hostname: &str,
        filename: Vec<u8>,
        host_file: Vec<u8>,
        process: Process,
        timestamp: u64,
    ) -> (r: Result<Self, EventError>)
        ensures
            r is Ok,
            r matches Ok(e) ==> {
                &&& e.timestamp == timestamp
                &&& e.hostname@ == hostname@
                &&& e.data matches EventData::File { process: p, file }
                &&& p == process
                &&& test_file_is(file, data, filename, host_file)
            },
    {
        let inner = BaseFileData { filename, host_file, inode: InodeKey { inode: 0, dev: 0 } };
        let file = match data {
            EventTestData::Creation => FileData::Creation(inner),
            EventTestData::Unlink => FileData::Unlink(inner),
            EventTestData::Chmod(new_mode, old_mode) => {
                let data = ChmodFileData { inner, new_mode, old_mode };
                FileData::Chmod(data)
            },
            EventTestData::Rename(old_path) => {
                let data = RenameFileData {
                    new: inner,
                    old: BaseFileData {
                        filename: old_path,
                        host_file: Vec::new(),
                        inode: InodeKey { inode: 0, dev: 0 },
                    },
                };
                FileData::Rename(data)
            },
        };
        let data = EventData::File { process, file };
        Ok(Event { timestamp, hostname: hostname.to_owned(), data })
    }

    /// The inode that triggered the event; for operations on two inodes,
    /// like rename, the new one. None for process and network events.
    pub fn get_inode(&self) -> (r: Option<&InodeKey>)
        ensures
            match r {
                Some(i) => inode_of(self.data) == Some(*i),
                None => inode_of(self.data) is None,
            },
    {
        match &self.data {
            EventData::File { file: FileData::Open(data), .. } => Some(&data.inode),
            EventData::File { file: FileData::Creation(data), .. } => Some(&data.inode),
            EventData::File { file: FileData::Unlink(data), .. } => Some(&data.inode),
            EventData::File { file: FileData::Chmod(data), .. } => Some(&data.inner.inode),
            EventData::File { file: FileData::Chown(data), .. } => Some(&data.inner.inode),
            EventData::File { file: FileData::Rename(data), .. } => Some(&data.new.inode),
            EventData::Process(_) | EventData::Network { .. } => None,
        }
    }

    /// The old inode of a rename; None for every other event.
    pub fn get_old_inode(&self) -> (r: Option<&InodeKey>)
        ensures
            match r {
                Some(i) => old_inode_of(self.data) == Some(*i),
                None => old_inode_of(self.data) is None,
            },
    {
        match &self.data {
            EventData::File { file: FileData::Rename(data), .. } => Some(&data.old.inode),
            _ => None,
        }
    }

    /// Sets the host path of the file the event is about; for a rename,
    /// of the new file. Process and network events are left unchanged.
    pub fn set_host_path(&mut self, host_path: Vec<u8>)
        ensures
            *final(self) == (Event { data: with_host_path(old(self).data, host_path), ..*old(self) }),
    {
        match &mut self.data {
            EventData::File { file: FileData::Open(data), .. } => data.host_file = host_path,
            EventData::File { file: FileData::Creation(data), .. } => data.host_file = host_path,
            EventData::File { file: FileData::Unlink(data), .. } => data.host_file = host_path,
            EventData::File { file: FileData::Chmod(data), .. } => data.inner.host_file = host_path,
            EventData::File { file: FileData::Chown(data), .. } => data.inner.host_file = host_path,
            EventData::File { file: FileData::Rename(data), .. } => data.new.host_file = host_path,
            EventData::Process(_) | EventData::Network { .. } => {},
        }
    }

    /// Sets the host path of a rename's source; other events are left
    /// unchanged.
    pub fn set_old_host_path(&mut self, host_path: Vec<u8>)
        ensures
            *final(self) == (Event { data: with_old_host_path(old(self).data, host_path), ..*old(self) }),
    {
        if let EventData::File { file: FileData::Rename(data), .. } = &mut self.data {
            data.old.host_file = host_path
        }
    }

    /// Whether the event is about a file.
    pub fn is_file_event(&self) -> (r: bool)
        ensures
            r == self.data is File,
    {
        matches!(self.data, EventData::File { .. })
    }

    /// Whether the event is about a process.
    pub fn is_process_event(&self) -> (r: bool)
        ensures
            r == self.data is Process,
    {
        matches!(self.data, EventData::Process(_))
    }
}

/// The file record built from a kernel path buffer and inode: the path
/// sanitized, no host path yet.
pub open spec fn base_from_raw(b: BaseFileData, filename: Seq<u8>, inode: InodeKey) -> bool {
    base_is(b, sanitized_d_path(filename), seq![], inode)
}

/// The file operation that a kernel file record of type `t` describes.
pub open spec fn file_from_raw(
    f: FileData,
    t: EventType,
    filename: Seq<u8>,
    inode: InodeKey,
    extra: RawExtra,
) -> bool {
    match t {
        EventType::FileActivityOpen => f matches FileData::Open(b) && base_from_raw(b, filename, inode),
        EventType::FileActivityCreation => f matches FileData::Creation(b) && base_from_raw(
            b,
            filename,
            inode,
        ),
        EventType::FileActivityUnlink => f matches FileData::Unlink(b) && base_from_raw(b, filename, inode),
        EventType::FileActivityChmod => f matches FileData::Chmod(d) && base_from_raw(
            d.inner,
            filename,
            inode,
        ) && d.new_mode == extra.chmod.new && d.old_mode == extra.chmod.old,
        EventType::FileActivityChown => f matches FileData::Chown(d) && base_from_raw(
            d.inner,
            filename,
            inode,
        ) && d.new_uid == extra.chown.new.uid && d.new_gid == extra.chown.new.gid && d.old_uid
            == extra.chown.old.uid && d.old_gid == extra.chown.old.gid,
        EventType::FileActivityRename => f matches FileData::Rename(d) && base_from_raw(
            d.new,
            filename,
            inode,
        ) && base_from_raw(d.old, extra.rename.old_filename@, extra.rename.old_inode),
        _ => false,
    }
}

/// The kernel record carries the NUL-terminated path buffers that its
/// kind needs.
pub open spec fn raw_event_ok(value: RawEvent) -> bool {
    value.type_.is_file_activity() ==> {
        &&& path::has_nul(value.file.path@)
        &&& value.type_ is FileActivityRename ==> path::has_nul(value.extra.rename.old_filename@)
    }
}

/// What `EventData::try_from_raw` gives for a kernel record.
pub open spec fn data_from_raw(r: Result<EventData, EventError>, value: RawEvent) -> bool {
    let process = value.process;
    let net = value.network;
    match value.type_ {
        EventType::ProcessFork => r == Ok::<EventData, EventError>(
            EventData::Process(ProcessData::Fork(ProcessForkData { child: process })),
        ),
        EventType::ProcessExec => r == Ok::<EventData, EventError>(
            EventData::Process(ProcessData::Exec(ProcessExecData(process))),
        ),
        EventType::ProcessExit => r == Ok::<EventData, EventError>(
            EventData::Process(ProcessData::Exit(ProcessExitData(process))),
        ),
        EventType::SocketListen => r == Ok::<EventData, EventError>(
            EventData::Network {
                process,
                network: NetworkData::Listen(ListenData(socket_from_raw(net.listen, net.family))),
            },
        ),
        EventType::SocketAccept => r == Ok::<EventData, EventError>(
            EventData::Network {
                process,
                network: NetworkData::Accept(
                    AcceptData {
                        local: socket_from_raw(net.accept.local, net.family),
                        remote: socket_from_raw(net.accept.remote, net.family),
                    },
                ),
            },
        ),
        EventType::SocketConnect => r == Ok::<EventData, EventError>(
            EventData::Network {
                process,
                network: NetworkData::Connect(
                    ConnectData {
                        local: socket_from_raw(net.connect.local, net.family),
                        remote: socket_from_raw(net.connect.remote, net.family),
                    },
                ),
            },
        ),
        _ => r matches Ok(EventData::File { process: p, file }) && p == process && file_from_raw(
            file,
            value.type_,
            value.file.path@,
            value.file.inode,
            value.extra,
        ),
    }
}

impl BaseFileData {
    /// Builds the file record of a kernel path buffer and inode.
    pub fn new(filename: &[u8], inode: InodeKey) -> (r: Result<Self, EventError>)
        requires
            path::has_nul(filename@),
        ensures
            r matches Ok(b) && base_from_raw(b, filename@, inode),
    {
        Ok(
            BaseFileData {
                filename: sanitize_d_path(filename),
                host_file: Vec::new(),  // filled in later by the host scanner
                inode,
            },
        )
    }
}

impl FileData {
    /// Builds the file operation that a kernel file record describes.
    pub fn new(event_type: EventType, filename: &[u8], inode: InodeKey, extra_data: &RawExtra) -> (r:
        Result<Self, EventError>)
        requires
            event_type.is_file_activity(),
            path::has_nul(filename@),
            event_type is FileActivityRename ==> path::has_nul(extra_data.rename.old_filename@),
        ensures
            r matches Ok(f) && file_from_raw(f, event_type, filename@, inode, *extra_data),
    {
        let inner = match BaseFileData::new(filename, inode) {
            Ok(b) => b,
            Err(e) => return Err(e),
        };
        let file = match event_type {
            EventType::FileActivityOpen => FileData::Open(inner),
            EventType::FileActivityCreation => FileData::Creation(inner),
            EventType::FileActivityUnlink => FileData::Unlink(inner),
            EventType::FileActivityChmod => {
                let data = ChmodFileData {
                    inner,
                    new_mode: extra_data.chmod.new,
                    old_mode: extra_data.chmod.old,
                };
                FileData::Chmod(data)
            },
            EventType::FileActivityChown => {
                let data = ChownFileData {
                    inner,
                    new_uid: extra_data.chown.new.uid,
                    new_gid: extra_data.chown.new.gid,
                    old_uid: extra_data.chown.old.uid,
                    old_gid: extra_data.chown.old.gid,
                };
                FileData::Chown(data)
            },
            _ => {
                let old = match BaseFileData::new(
                    extra_data.rename.old_filename.as_slice(),
                    extra_data.rename.old_inode,
                ) {
                    Ok(b) => b,
                    Err(e) => return Err(e),
                };
                FileData::Rename(RenameFileData { new: inner, old })
            },
        };
        Ok(file)
    }
}

impl EventData {
    /// Reads what a kernel record reports. Outgoing connections have no
    /// event form and are refused.
    pub fn try_from_raw(value: &RawEvent) -> (r: Result<Self, EventError>)
        requires
            raw_event_ok(*value),
        ensures
            data_from_raw(r, *value),
    {
        let process = value.process;
        let data = match value.type_ {
            EventType::ProcessFork => {
                let child = value.process;
                EventData::Process(ProcessData::Fork(ProcessForkData { child }))
            },
            EventType::ProcessExec => EventData::Process(ProcessData::Exec(ProcessExecData(value.process))),
            EventType::ProcessExit => EventData::Process(ProcessData::Exit(ProcessExitData(value.process))),
            EventType::SocketListen => EventData::Network {
                process,
                network: NetworkData::Listen(ListenData::new(&value.network)),
            },
            EventType::SocketAccept => EventData::Network {
                process,
                network: NetworkData::Accept(AcceptData::new(&value.network)),
            },
            EventType::SocketConnect => EventData::Network {
                process,
                network: NetworkData::Connect(ConnectData::new(&value.network)),
            },
            _ => {
                let file = match FileData::new(
                    value.type_,
                    value.file.path.as_slice(),
                    value.file.inode,
                    &value.extra,
                ) {
                    Ok(f) => f,
                    Err(e) => return Err(e),
                };
                EventData::File { file, process }
            },
        };
        Ok(data)
    }

    /// The snapshot event of a process.
    pub fn try_from_process(value: Process) -> (r: Result<Self, EventError>)
        ensures
            r == Ok::<EventData, EventError>(EventData::Process(ProcessData::Proc(value))),
    {
        Ok(EventData::Process(ProcessData::Proc(value)))
    }
}

impl Event {
    /// The event of a kernel record: its time since boot moved onto the
    /// host's boot time, tagged with the host name.
    pub fn try_from_raw(value: &RawEvent, boot_time: u64, hostname: &str) -> (r: Result<
        Self,
        EventError,
    >)
        requires
            raw_event_ok(*value),
            boot_time + value.timestamp <= u64::MAX,
        ensures
            match r {
                Ok(e) => e.timestamp == boot_time + value.timestamp && e.hostname@ == hostname@
                    && data_from_raw(Ok(e.data), *value),
                Err(err) => data_from_raw(Err(err), *value),
            },
    {
        let timestamp = boot_time + value.timestamp;
        let data = match EventData::try_from_raw(value) {
            Ok(d) => d,
            Err(e) => return Err(e),
        };
        Ok(Event { timestamp, hostname: hostname.to_owned(), data })
    }

    /// The snapshot event of a process, read at the given time.
    pub fn try_from_process(value: Process, timestamp: u64, hostname: &str) -> (r: Result<
        Self,
        EventError,
    >)
        ensures
            r matches Ok(e) && e.timestamp == timestamp && e.hostname@ == hostname@ && e.data
                == EventData::Process(ProcessData::Proc(value)),
    {
        let data = match EventData::try_from_process(value) {
            Ok(d) => d,
            Err(e) => return Err(e),
        };
        Ok(Event { timestamp, hostname: hostname.to_owned(), data })
    }
}

/// Two file operations are equal when they are the same kind of operation
/// on files with the same paths and with the same other fields.
pub open spec fn file_eq(a: FileData, b: FileData) -> bool {
    match (a, b) {
        (FileData::Open(x), FileData::Open(y)) => same_paths(x, y),
        (FileData::Creation(x), FileData::Creation(y)) => same_paths(x, y),
        (FileData::Unlink(x), FileData::Unlink(y)) => same_paths(x, y),
        (FileData::Chmod(x), FileData::Chmod(y)) => same_paths(x.inner, y.inner) && x.new_mode == y.new_mode
            && x.old_mode == y.old_mode,
        (FileData::Chown(x), FileData::Chown(y)) => same_paths(x.inner, y.inner) && x.new_uid == y.new_uid
            && x.new_gid == y.new_gid && x.old_uid == y.old_uid && x.old_gid == y.old_gid,
        (FileData::Rename(x), FileData::Rename(y)) => same_paths(x.new, y.new) && same_paths(x.old, y.old),
        _ => false,
    }
}

/// Two event bodies are equal when they report the same thing; inodes are
/// not compared.
pub open spec fn data_eq(a: EventData, b: EventData) -> bool {
    match (a, b) {
        (EventData::File { process: p, file: f }, EventData::File { process: q, file: g }) => p == q
            && file_eq(f, g),
        (EventData::Process(x), EventData::Process(y)) => x == y,
        (
            EventData::Network { process: p, network: n },
            EventData::Network { process: q, network: m },
        ) => p == q && n == m,
        _ => false,
    }
}

fn file_data_eq(a: &FileData, b: &FileData) -> (r: bool)
    ensures
        r == file_eq(*a, *b),
{
    match (a, b) {
        (FileData::Open(x), FileData::Open(y)) => x == y,
        (FileData::Creation(x), FileData::Creation(y)) => x == y,
        (FileData::Unlink(x), FileData::Unlink(y)) => x == y,
        (FileData::Chmod(x), FileData::Chmod(y)) => x.inner == y.inner && x.new_mode == y.new_mode
            && x.old_mode == y.old_mode,
        (FileData::Chown(x), FileData::Chown(y)) => x.inner == y.inner && x.new_uid == y.new_uid
            && x.new_gid == y.new_gid && x.old_uid == y.old_uid && x.old_gid == y.old_gid,
        (FileData::Rename(x), FileData::Rename(y)) => x.new == y.new && x.old == y.old,
        _ => false,
    }
}

fn event_data_eq(a: &EventData, b: &EventData) -> (r: bool)
    ensures
        r == data_eq(*a, *b),
{
    match (a, b) {
        (EventData::File { process: p, file: f }, EventData::File { process: q, file: g }) => *p == *q
            && file_data_eq(f, g),
        (EventData::Process(x), EventData::Process(y)) => *x == *y,
        (
            EventData::Network { process: p, network: n },
            EventData::Network { process: q, network: m },
        ) => *p == *q && *n == *m,
        _ => false,
    }
}

impl PartialEq for Event {
    /// Two events are equal when they come from the same host and report
    /// the same thing; the time is not compared.
    fn eq(&self, other: &Self) -> (r: bool) {
        self.hostname == other.hostname && event_data_eq(&self.data, &other.data)
    }
}

impl vstd::std_specs::cmp::PartialEqSpecImpl for Event {
    open spec fn obeys_eq_spec() -> bool {
        true
    }

    open spec fn eq_spec(&self, other: &Self) -> bool {
        self.hostname@ == other.hostname@ && data_eq(self.data, other.data)
    }
}

} // verus!
