//! The wire form of events: the messages sent to the compendium, and
//! reading them back.
use vstd::prelude::*;
use vstd::string::*;
use vstd::utf8::*;

use super::network::{NetworkData, net_api_is, net_api_ok, net_from_api, net_message_ok};
use super::process::Process;
use super::{
    BaseFileData, ChmodFileData, ChownFileData, Event, EventData, FileData, ProcessData,
    ProcessExecData, ProcessExitData, ProcessForkData, RenameFileData, base_is, no_inode,
};
use crate::api;
use crate::ebpf::InodeKey;
use crate::text;

verus! {

/// Nanoseconds in one second.
pub const NANOS_PER_SEC: u64 = 1_000_000_000;

/// The value of an `i64` read back as a `u64` (two's complement).
pub open spec fn wrap_to_u64(x: int) -> int {
    if x >= 0 { x } else { x + 0x1_0000_0000_0000_0000 }
}

/// Splits a nanosecond count into whole seconds and the remaining nanoseconds.
pub fn timestamp_to_proto(ts: u64) -> (r: api::Timestamp)
    ensures
        r.seconds == ts / NANOS_PER_SEC,
        r.nanos == ts % NANOS_PER_SEC,
{
    let seconds = (ts / NANOS_PER_SEC) as i64;
    let nanos = (ts % NANOS_PER_SEC) as i32;
    api::Timestamp { seconds, nanos }
}

/// Whether `proto_to_timestamp` can compute its result without overflowing.
pub open spec fn proto_timestamp_in_range(t: api::Timestamp) -> bool {
    &&& i64::MIN <= t.seconds * NANOS_PER_SEC <= i64::MAX
    &&& wrap_to_u64(t.seconds * NANOS_PER_SEC) + wrap_to_u64(t.nanos as int) <= u64::MAX
}

/// Joins whole seconds and nanoseconds back into one nanosecond count; a
/// negative part is read as its two's complement.
pub fn proto_to_timestamp(t: api::Timestamp) -> (r: u64)
    requires
        proto_timestamp_in_range(t),
    ensures
        r == wrap_to_u64(t.seconds * NANOS_PER_SEC) + wrap_to_u64(t.nanos as int),
{
    let whole: i64 = t.seconds * 1_000_000_000;
    let whole_u: u64 = if whole >= 0 {
        whole as u64
    } else {
        (whole + i64::MAX + 1) as u64 + 0x8000_0000_0000_0000
    };
    let nanos_u: u64 = if t.nanos >= 0 {
        t.nanos as u64
    } else {
        (t.nanos as i64 + i64::MAX + 1) as u64 + 0x8000_0000_0000_0000
    };
    whole_u + nanos_u
}

/// A nanosecond count survives the trip to the wire and back, as long as
/// its whole seconds times 10^9 fit in an `i64` (before the year 2262).
pub proof fn lemma_timestamp_roundtrip(ts: u64)
    requires
        ts < 9_223_372_037_000_000_000,
    ensures
        proto_timestamp_in_range(
            api::Timestamp { seconds: (ts / NANOS_PER_SEC) as i64, nanos: (ts % NANOS_PER_SEC) as i32 },
        ),
        wrap_to_u64((ts / NANOS_PER_SEC) as i64 * NANOS_PER_SEC) + wrap_to_u64(
            (ts % NANOS_PER_SEC) as i32 as int,
        ) == ts,
{
    assert(ts / NANOS_PER_SEC * NANOS_PER_SEC + ts % NANOS_PER_SEC == ts) by (nonlinear_arith);
    assert(ts / NANOS_PER_SEC <= 9_223_372_036) by (nonlinear_arith)
        requires ts < 9_223_372_037_000_000_000;
    assert(ts / NANOS_PER_SEC * NANOS_PER_SEC <= ts) by (nonlinear_arith);
}

/// The wire form of a file record: its paths read as UTF-8, invalid
/// sequences replaced (a valid UTF-8 path is decoded as it is).
pub open spec fn base_api_is(r: api::FileActivityBase, b: BaseFileData) -> bool {
    &&& r.path@ == text::utf8_lossy(b.filename@)
    &&& r.host_path@ == text::utf8_lossy(b.host_file@)
    &&& valid_utf8(b.filename@) ==> r.path@ == decode_utf8(b.filename@)
    &&& valid_utf8(b.host_file@) ==> r.host_path@ == decode_utf8(b.host_file@)
}

/// The file record that a wire record denotes: the paths' UTF-8 bytes,
/// no inode.
pub open spec fn base_from_api(r: BaseFileData, a: api::FileActivityBase) -> bool {
    base_is(r, encode_utf8(a.path@), encode_utf8(a.host_path@), no_inode())
}

/// The wire form of a file operation. Only the new mode of a chmod and
/// the new owner of a chown are sent; owner names are left empty.
pub open spec fn file_api_is(r: api::File, f: FileData) -> bool {
    match f {
        FileData::Open(b) => r matches api::File::Open(o) && o.activity matches Some(a) && base_api_is(
            a,
            b,
        ),
        FileData::Creation(b) => r matches api::File::Creation(o) && o.activity matches Some(a)
            && base_api_is(a, b),
        FileData::Unlink(b) => r matches api::File::Unlink(o) && o.activity matches Some(a)
            && base_api_is(a, b),
        FileData::Chmod(d) => r matches api::File::Permission(p) && p.activity matches Some(a)
            && base_api_is(a, d.inner) && p.mode == d.new_mode as u32,
        FileData::Chown(d) => r matches api::File::Ownership(o) && o.activity matches Some(a)
            && base_api_is(a, d.inner) && o.uid == d.new_uid && o.gid == d.new_gid && o.username@
            == Seq::<char>::empty() && o.group@ == Seq::<char>::empty(),
        FileData::Rename(d) => r matches api::File::Rename(n) && (n.old matches Some(o)
            && base_api_is(o, d.old)) && (n.new matches Some(w) && base_api_is(w, d.new)),
    }
}

/// A wire file operation carries the records that it needs.
pub open spec fn file_api_ok(f: api::File) -> bool {
    match f {
        api::File::Open(o) => o.activity is Some,
        api::File::Creation(o) => o.activity is Some,
        api::File::Unlink(o) => o.activity is Some,
        api::File::Permission(p) => p.activity is Some,
        api::File::Ownership(o) => o.activity is Some,
        api::File::Rename(n) => n.old is Some && n.new is Some,
    }
}

/// The file operation that a wire file operation denotes. The mode is cut
/// to 16 bits; the old mode and old owner, which the wire does not carry,
/// are zero.
pub open spec fn file_from_api(r: FileData, f: api::File) -> bool {
    match f {
        api::File::Open(o) => r matches FileData::Open(b) && base_from_api(b, o.activity.unwrap()),
        api::File::Creation(o) => r matches FileData::Creation(b) && base_from_api(
            b,
            o.activity.unwrap(),
        ),
        api::File::Unlink(o) => r matches FileData::Unlink(b) && base_from_api(b, o.activity.unwrap()),
        api::File::Permission(p) => r matches FileData::Chmod(d) && base_from_api(
            d.inner,
            p.activity.unwrap(),
        ) && d.new_mode == p.mode as u16 && d.old_mode == 0,
        api::File::Ownership(o) => r matches FileData::Chown(d) && base_from_api(
            d.inner,
            o.activity.unwrap(),
        ) && d.new_uid == o.uid && d.new_gid == o.gid && d.old_uid == 0 && d.old_gid == 0,
        api::File::Rename(n) => r matches FileData::Rename(d) && base_from_api(d.new, n.new.unwrap())
            && base_from_api(d.old, n.old.unwrap()),
    }
}

/// The wire form of a process step.
pub open spec fn process_api(p: ProcessData) -> api::ProcessActivityKind {
    match p {
        ProcessData::Fork(d) => api::ProcessActivityKind::Fork(api::ProcessFork { child: Some(d.child) }),
        ProcessData::Exec(ProcessExecData(proc)) => api::ProcessActivityKind::Exec(proc),
        ProcessData::Exit(ProcessExitData(proc)) => api::ProcessActivityKind::Exit(proc),
        ProcessData::Proc(proc) => api::ProcessActivityKind::Proc(proc),
    }
}

/// A wire process step names the process it needs.
pub open spec fn process_api_ok(p: api::ProcessActivityKind) -> bool {
    p matches api::ProcessActivityKind::Fork(f) ==> f.child is Some
}

/// The process step that a wire process step denotes.
pub open spec fn process_from_api(p: api::ProcessActivityKind) -> ProcessData {
    match p {
        api::ProcessActivityKind::Fork(f) => ProcessData::Fork(ProcessForkData { child: f.child.unwrap() }),
        api::ProcessActivityKind::Exec(proc) => ProcessData::Exec(ProcessExecData(proc)),
        api::ProcessActivityKind::Exit(proc) => ProcessData::Exit(ProcessExitData(proc)),
        api::ProcessActivityKind::Proc(proc) => ProcessData::Proc(proc),
    }
}

/// The wire form of what an event reports.
pub open spec fn data_api_is(r: api::Msg, d: EventData) -> bool {
    match d {
        EventData::File { process, file } => r matches api::Msg::File(a) && a.process == Some(process)
            && (a.file matches Some(f) && file_api_is(f, file)),
        EventData::Process(p) => r matches api::Msg::Process(a) && a.process == Some(process_api(p)),
        EventData::Network { process, network } => r matches api::Msg::Net(a) && a.process == Some(
            process,
        ) && (a.net matches Some(n) && net_api_is(n, network)),
    }
}

/// A wire message body carries everything that it needs.
pub open spec fn data_api_ok(m: api::Msg) -> bool {
    match m {
        api::Msg::File(a) => a.process is Some && (a.file matches Some(f) && file_api_ok(f)),
        api::Msg::Process(a) => a.process matches Some(p) && process_api_ok(p),
        api::Msg::Net(a) => a.process is Some && (a.net matches Some(n) && net_api_ok(n)),
    }
}

/// What a wire message body denotes.
pub open spec fn data_from_api(r: EventData, m: api::Msg) -> bool {
    match m {
        api::Msg::File(a) => r matches EventData::File { process, file } && process == a.process.unwrap()
            && file_from_api(file, a.file.unwrap()),
        api::Msg::Process(a) => r == EventData::Process(process_from_api(a.process.unwrap())),
        api::Msg::Net(a) => r == EventData::Network {
            process: a.process.unwrap(),
            network: net_from_api(a.net.unwrap()),
        },
    }
}

/// The wire form of an event.
pub open spec fn event_api_is(r: api::FactMsg, e: Event) -> bool {
    &&& r.timestamp == Some(
        api::Timestamp {
            seconds: (e.timestamp / NANOS_PER_SEC) as i64,
            nanos: (e.timestamp % NANOS_PER_SEC) as i32,
        },
    )
    &&& r.hostname@ == e.hostname@
    &&& r.msg matches Some(m) && data_api_is(m, e.data)
}

/// A wire message carries a time that fits and everything else it needs.
pub open spec fn event_api_ok(m: api::FactMsg) -> bool {
    &&& m.timestamp matches Some(t) && proto_timestamp_in_range(t)
    &&& m.msg matches Some(d) && data_api_ok(d)
}

/// The event that a wire message denotes.
pub open spec fn event_from_api(r: Event, m: api::FactMsg) -> bool {
    &&& r.timestamp == wrap_to_u64(m.timestamp.unwrap().seconds * NANOS_PER_SEC) + wrap_to_u64(
        m.timestamp.unwrap().nanos as int,
    )
    &&& r.hostname@ == m.hostname@
    &&& data_from_api(r.data, m.msg.unwrap())
}

impl BaseFileData {
    /// The wire form: paths read as UTF-8, invalid sequences replaced.
    pub fn to_api(self) -> (r: api::FileActivityBase)
        ensures
            base_api_is(r, self),
    {
        api::FileActivityBase {
            path: text::string_from_utf8_lossy(self.filename.as_slice()),
            host_path: text::string_from_utf8_lossy(self.host_file.as_slice()),
        }
    }

    /// Reads a wire file record: the paths' bytes, no inode.
    pub fn from_api(value: api::FileActivityBase) -> (r: Self)
        ensures
            base_from_api(r, value),
    {
        BaseFileData {
            filename: value.path.as_str().as_bytes_vec(),
            host_file: value.host_path.as_str().as_bytes_vec(),
            inode: InodeKey { inode: 0, dev: 0 },
        }
    }
}

impl ChmodFileData {
    /// The wire form: the file and its new mode.
    pub fn to_api(self) -> (r: api::FilePermissionChange)
        ensures
            r.activity matches Some(a) && base_api_is(a, self.inner),
            r.mode == self.new_mode as u32,
    {
        let ChmodFileData { inner: file, new_mode, .. } = self;
        let activity = file.to_api();
        api::FilePermissionChange { activity: Some(activity), mode: new_mode as u32 }
    }
}

impl ChownFileData {
    /// The wire form: the file and its new owner, without owner names.
    pub fn to_api(self) -> (r: api::FileOwnershipChange)
        ensures
            r.activity matches Some(a) && base_api_is(a, self.inner),
            r.uid == self.new_uid,
            r.gid == self.new_gid,
            r.username@ == Seq::<char>::empty(),
            r.group@ == Seq::<char>::empty(),
    {
        let ChownFileData { inner: file, new_uid, new_gid, .. } = self;
        let activity = file.to_api();
        api::FileOwnershipChange {
            activity: Some(activity),
            uid: new_uid,
            gid: new_gid,
            username: String::new(),
            group: String::new(),
        }
    }
}

impl RenameFileData {
    /// The wire form: source and destination.
    pub fn to_api(self) -> (r: api::FileRename)
        ensures
            r.old matches Some(o) && base_api_is(o, self.old),
            r.new matches Some(n) && base_api_is(n, self.new),
    {
        let RenameFileData { new, old } = self;
        let new = new.to_api();
        let old = old.to_api();
        api::FileRename { old: Some(old), new: Some(new) }
    }
}

impl FileData {
    /// The wire form of a file operation.
    pub fn to_api(self) -> (r: api::File)
        ensures
            file_api_is(r, self),
    {
        match self {
            FileData::Open(event) => {
                let activity = Some(event.to_api());
                api::File::Open(api::FileOpen { activity })
            },
            FileData::Creation(event) => {
                let activity = Some(event.to_api());
                api::File::Creation(api::FileCreation { activity })
            },
            FileData::Unlink(event) => {
                let activity = Some(event.to_api());
                api::File::Unlink(api::FileUnlink { activity })
            },
            FileData::Chmod(event) => api::File::Permission(event.to_api()),
            FileData::Chown(event) => api::File::Ownership(event.to_api()),
            FileData::Rename(event) => api::File::Rename(event.to_api()),
        }
    }

    /// Reads a wire file operation.
    pub fn from_api(value: api::File) -> (r: Self)
        requires
            file_api_ok(value),
        ensures
            file_from_api(r, value),
    {
        match value {
            api::File::Creation(api::FileCreation { activity: Some(data) }) => FileData::Creation(
                BaseFileData::from_api(data),
            ),
            api::File::Open(api::FileOpen { activity: Some(data) }) => FileData::Open(
                BaseFileData::from_api(data),
            ),
            api::File::Unlink(api::FileUnlink { activity: Some(data) }) => FileData::Unlink(
                BaseFileData::from_api(data),
            ),
            api::File::Permission(api::FilePermissionChange { activity: Some(data), mode }) => {
                FileData::Chmod(
                    ChmodFileData { inner: BaseFileData::from_api(data), new_mode: mode as u16, old_mode: 0 },
                )
            },
            api::File::Ownership(api::FileOwnershipChange { activity: Some(data), uid, gid, .. }) => {
                FileData::Chown(
                    ChownFileData {
                        inner: BaseFileData::from_api(data),
                        new_uid: uid,
                        new_gid: gid,
                        old_uid: 0,
                        old_gid: 0,
                    },
                )
            },
            api::File::Rename(api::FileRename { old: Some(old), new: Some(new) }) => FileData::Rename(
                RenameFileData { new: BaseFileData::from_api(new), old: BaseFileData::from_api(old) },
            ),
            _ => unreached(),
        }
    }
}

impl ProcessForkData {
    /// The wire form of a fork.
    pub fn to_api(self) -> (r: api::ProcessFork)
        ensures
            r == (api::ProcessFork { child: Some(self.child) }),
    {
        api::ProcessFork { child: Some(self.child) }
    }

    /// Reads a wire fork.
    pub fn from_api(value: api::ProcessFork) -> (r: Self)
        requires
            value.child is Some,
        ensures
            r == (ProcessForkData { child: value.child.unwrap() }),
    {
        match value {
            api::ProcessFork { child: Some(child) } => ProcessForkData { child },
            _ => unreached(),
        }
    }
}

impl ProcessExecData {
    /// The wire form: the process.
    pub fn to_api(self) -> (r: Process)
        ensures
            r == self.0,
    {
        self.0
    }

    /// Reads a wire exec.
    pub fn from_api(proc: Process) -> (r: Self)
        ensures
            r == ProcessExecData(proc),
    {
        ProcessExecData(proc)
    }
}

impl ProcessExitData {
    /// The wire form: the process.
    pub fn to_api(self) -> (r: Process)
        ensures
            r == self.0,
    {
        self.0
    }

    /// Reads a wire exit.
    pub fn from_api(proc: Process) -> (r: Self)
        ensures
            r == ProcessExitData(proc),
    {
        ProcessExitData(proc)
    }
}

impl ProcessData {
    /// The wire form of a process step.
    pub fn to_api(self) -> (r: api::ProcessActivityKind)
        ensures
            r == process_api(self),
    {
        match self {
            ProcessData::Fork(data) => api::ProcessActivityKind::Fork(data.to_api()),
            ProcessData::Exec(proc) => api::ProcessActivityKind::Exec(proc.to_api()),
            ProcessData::Exit(proc) => api::ProcessActivityKind::Exit(proc.to_api()),
            ProcessData::Proc(proc) => api::ProcessActivityKind::Proc(proc),
        }
    }

    /// Reads a wire process step.
    pub fn from_api(value: api::ProcessActivityKind) -> (r: Self)
        requires
            process_api_ok(value),
        ensures
            r == process_from_api(value),
    {
        match value {
            api::ProcessActivityKind::Fork(data) => ProcessData::Fork(ProcessForkData::from_api(data)),
            api::ProcessActivityKind::Exec(process) => ProcessData::Exec(ProcessExecData::from_api(process)),
            api::ProcessActivityKind::Proc(process) => ProcessData::Proc(process),
            api::ProcessActivityKind::Exit(process) => ProcessData::Exit(ProcessExitData::from_api(process)),
        }
    }
}

impl EventData {
    /// The wire form of what the event reports.
    pub fn to_api(self) -> (r: api::Msg)
        ensures
            data_api_is(r, self),
    {
        match self {
            EventData::File { file, process } => {
                let activity = api::FileActivity { file: Some(file.to_api()), process: Some(process) };
                api::Msg::File(activity)
            },
            EventData::Process(data) => {
                let activity = api::ProcessActivity { process: Some(data.to_api()) };
                api::Msg::Process(activity)
            },
            EventData::Network { process, network } => {
                let activity = api::NetworkActivity {
                    process: Some(process),
                    net: Some(network.to_api()),
                };
                api::Msg::Net(activity)
            },
        }
    }

    /// Reads a wire message body.
    pub fn from_api(value: api::Msg) -> (r: Self)
        requires
            data_api_ok(value),
        ensures
            data_from_api(r, value),
    {
        match value {
            api::Msg::File(api::FileActivity { process: Some(proc), file: Some(file) }) => EventData::File {
                process: proc,
                file: FileData::from_api(file),
            },
            api::Msg::Process(api::ProcessActivity { process: Some(proc) }) => EventData::Process(
                ProcessData::from_api(proc),
            ),
            api::Msg::Net(api::NetworkActivity { process: Some(proc), net: Some(net) }) => EventData::Network {
                process: proc,
                network: NetworkData::from_api(net),
            },
            _ => unreached(),
        }
    }
}

impl Event {
    /// The wire form of the event.
    pub fn to_api(self) -> (r: api::FactMsg)
        ensures
            event_api_is(r, self),
    {
        let timestamp = timestamp_to_proto(self.timestamp);
        api::FactMsg { timestamp: Some(timestamp), hostname: self.hostname, msg: Some(self.data.to_api()) }
    }

    /// Reads a wire message.
    pub fn from_api(value: api::FactMsg) -> (r: Self)
        requires
            event_api_ok(value),
        ensures
            event_from_api(r, value),
    {
        match value {
            api::FactMsg { timestamp: Some(timestamp), hostname, msg: Some(data) } => Event {
                timestamp: proto_to_timestamp(timestamp),
                hostname,
                data: EventData::from_api(data),
            },
            _ => unreached(),
        }
    }
}

/// Whether `proto_to_timestamp` can read a wire time without overflowing.
pub fn timestamp_fits(t: api::Timestamp) -> (r: bool)
    ensures
        r == proto_timestamp_in_range(t),
{
    let whole = match t.seconds.checked_mul(1_000_000_000) {
        Some(w) => w,
        None => return false,
    };
    let whole_u: u64 = if whole >= 0 {
        whole as u64
    } else {
        (whole + i64::MAX + 1) as u64 + 0x8000_0000_0000_0000
    };
    let nanos_u: u64 = if t.nanos >= 0 {
        t.nanos as u64
    } else {
        (t.nanos as i64 + i64::MAX + 1) as u64 + 0x8000_0000_0000_0000
    };
    whole_u.checked_add(nanos_u).is_some()
}

fn file_message_ok(f: &api::File) -> (r: bool)
    ensures
        r == file_api_ok(*f),
{
    match f {
        api::File::Open(o) => o.activity.is_some(),
        api::File::Creation(o) => o.activity.is_some(),
        api::File::Unlink(o) => o.activity.is_some(),
        api::File::Permission(p) => p.activity.is_some(),
        api::File::Ownership(o) => o.activity.is_some(),
        api::File::Rename(n) => n.old.is_some() && n.new.is_some(),
    }
}

/// Whether a wire message can be read as an event: it has a time that
/// fits, a body, and every part that its kind needs, with addresses that
/// read as IP addresses.
pub fn message_ok(value: &api::FactMsg) -> (r: bool)
    ensures
        r == event_api_ok(*value),
{
    let time_ok = match &value.timestamp {
        Some(t) => timestamp_fits(*t),
        None => false,
    };
    if !time_ok {
        return false;
    }
    match &value.msg {
        Some(api::Msg::File(a)) => a.process.is_some() && match &a.file {
            Some(f) => file_message_ok(f),
            None => false,
        },
        Some(api::Msg::Process(a)) => match &a.process {
            Some(api::ProcessActivityKind::Fork(f)) => f.child.is_some(),
            Some(_) => true,
            None => false,
        },
        Some(api::Msg::Net(a)) => a.process.is_some() && match &a.net {
            Some(n) => net_message_ok(n),
            None => false,
        },
        None => false,
    }
}

} // verus!
