//! What each operation does with each kind of event, stated kind by kind:
//! which file an inode or a host path belongs to, which kind of record,
//! message or event each kind turns into, and which events compare equal.
use vstd::prelude::*;
use vstd::std_specs::cmp::PartialEqSpec;
use vstd::utf8::*;

use super::network::{
    AcceptData, ConnectData, ListenData, NetworkData, SocketData, net_from_api, socket_from_raw,
};
use super::process::Process;
use super::wire::{data_api_is, data_from_api};
use super::{
    BaseFileData, ChmodFileData, ChownFileData, Event, EventData, EventError, EventTestData,
    FileData, ProcessData, ProcessExecData, ProcessExitData, ProcessForkData, RenameFileData,
    data_from_raw, host_path_of, inode_of, old_host_path_of, old_inode_of, sanitized_d_path,
    test_file_is, with_host_path, with_old_host_path,
};
use crate::api;
use crate::ebpf::{RawEvent, RawSocket};
use crate::ip::ip_text;
use crate::text::utf8_lossy;

verus! {

/// The inode that a file event reports is the inode of the file that its
/// operation is about; for a rename it is the inode of the new file, and
/// the old inode is that of the file renamed.
pub proof fn lemma_inode_by_kind(
    process: Process,
    b: BaseFileData,
    c: ChmodFileData,
    o: ChownFileData,
    r: RenameFileData,
)
    ensures
        inode_of(EventData::File { process, file: FileData::Open(b) }) == Some(b.inode),
        inode_of(EventData::File { process, file: FileData::Creation(b) }) == Some(b.inode),
        inode_of(EventData::File { process, file: FileData::Unlink(b) }) == Some(b.inode),
        inode_of(EventData::File { process, file: FileData::Chmod(c) }) == Some(c.inner.inode),
        inode_of(EventData::File { process, file: FileData::Chown(o) }) == Some(o.inner.inode),
        inode_of(EventData::File { process, file: FileData::Rename(r) }) == Some(r.new.inode),
        old_inode_of(EventData::File { process, file: FileData::Rename(r) }) == Some(r.old.inode),
{
}

/// The host path that a file event reports is that of the file its
/// operation is about (the new file of a rename), and setting it changes
/// that file's host path and nothing else; the old host path of a rename
/// is that of the file renamed, and setting it changes only that.
pub proof fn lemma_host_path_by_kind(
    process: Process,
    b: BaseFileData,
    c: ChmodFileData,
    o: ChownFileData,
    r: RenameFileData,
    h: Vec<u8>,
)
    ensures
        host_path_of(EventData::File { process, file: FileData::Open(b) }) == Some(b.host_file),
        host_path_of(EventData::File { process, file: FileData::Creation(b) }) == Some(b.host_file),
        host_path_of(EventData::File { process, file: FileData::Unlink(b) }) == Some(b.host_file),
        host_path_of(EventData::File { process, file: FileData::Chmod(c) }) == Some(c.inner.host_file),
        host_path_of(EventData::File { process, file: FileData::Chown(o) }) == Some(o.inner.host_file),
        host_path_of(EventData::File { process, file: FileData::Rename(r) }) == Some(r.new.host_file),
        old_host_path_of(EventData::File { process, file: FileData::Rename(r) }) == Some(
            r.old.host_file,
        ),
        with_host_path(EventData::File { process, file: FileData::Open(b) }, h) == (EventData::File {
            process,
            file: FileData::Open(BaseFileData { filename: b.filename, host_file: h, inode: b.inode }),
        }),
        with_host_path(EventData::File { process, file: FileData::Unlink(b) }, h) == (EventData::File {
            process,
            file: FileData::Unlink(BaseFileData { filename: b.filename, host_file: h, inode: b.inode }),
        }),
        with_host_path(EventData::File { process, file: FileData::Creation(b) }, h) == (EventData::File {
            process,
            file: FileData::Creation(BaseFileData { filename: b.filename, host_file: h, inode: b.inode }),
        }),
        with_host_path(EventData::File { process, file: FileData::Chmod(c) }, h) == (EventData::File {
            process,
            file: FileData::Chmod(
                ChmodFileData {
                    inner: BaseFileData { filename: c.inner.filename, host_file: h, inode: c.inner.inode },
                    new_mode: c.new_mode,
                    old_mode: c.old_mode,
                },
            ),
        }),
        with_host_path(EventData::File { process, file: FileData::Chown(o) }, h) == (EventData::File {
            process,
            file: FileData::Chown(
                ChownFileData {
                    inner: BaseFileData { filename: o.inner.filename, host_file: h, inode: o.inner.inode },
                    new_uid: o.new_uid,
                    new_gid: o.new_gid,
                    old_uid: o.old_uid,
                    old_gid: o.old_gid,
                },
            ),
        }),
        with_host_path(EventData::File { process, file: FileData::Rename(r) }, h) == (EventData::File {
            process,
            file: FileData::Rename(
                RenameFileData {
                    new: BaseFileData { filename: r.new.filename, host_file: h, inode: r.new.inode },
                    old: r.old,
                },
            ),
        }),
        with_old_host_path(EventData::File { process, file: FileData::Rename(r) }, h) == (
        EventData::File {
            process,
            file: FileData::Rename(
                RenameFileData {
                    new: r.new,
                    old: BaseFileData { filename: r.old.filename, host_file: h, inode: r.old.inode },
                },
            ),
        }),
{
}

/// Each kind of kernel record gives the event of the same kind, about the
/// record's process: a file record the file operation of its kind on the
/// record's (sanitized) path and inode, a process record the process step
/// of its kind, a socket record the network operation of its kind.
pub proof fn lemma_raw_kinds(value: RawEvent, r: Result<EventData, EventError>)
    requires
        data_from_raw(r, value),
    ensures
        value.type_ is FileActivityOpen ==> (r matches Ok(EventData::File { file: FileData::Open(_), .. })),
        value.type_ is FileActivityCreation ==> (r matches Ok(
            EventData::File { file: FileData::Creation(_), .. },
        )),
        value.type_ is FileActivityUnlink ==> (r matches Ok(
            EventData::File { file: FileData::Unlink(_), .. },
        )),
        value.type_ is FileActivityChmod ==> (r matches Ok(EventData::File { file: FileData::Chmod(c), .. })
            && c.new_mode == value.extra.chmod.new && c.old_mode == value.extra.chmod.old),
        value.type_ is FileActivityChown ==> (r matches Ok(EventData::File { file: FileData::Chown(o), .. })
            && o.new_uid == value.extra.chown.new.uid && o.new_gid == value.extra.chown.new.gid
            && o.old_uid == value.extra.chown.old.uid && o.old_gid == value.extra.chown.old.gid),
        value.type_ is FileActivityRename ==> (r matches Ok(
            EventData::File { file: FileData::Rename(n), .. },
        ) && n.new.filename@ == sanitized_d_path(value.file.path@) && n.old.filename@
            == sanitized_d_path(value.extra.rename.old_filename@)),
        value.type_.is_file_activity() ==> (r matches Ok(EventData::File { process, .. }) && process
            == value.process),
        value.type_.is_file_activity() ==> (r matches Ok(d) && inode_of(d) == Some(value.file.inode)),
        value.type_ is FileActivityRename ==> (r matches Ok(d) && old_inode_of(d) == Some(
            value.extra.rename.old_inode,
        )),
        value.type_ is ProcessFork ==> r == Ok::<EventData, EventError>(
            EventData::Process(ProcessData::Fork(ProcessForkData { child: value.process })),
        ),
        value.type_ is ProcessExec ==> r == Ok::<EventData, EventError>(
            EventData::Process(ProcessData::Exec(ProcessExecData(value.process))),
        ),
        value.type_ is ProcessExit ==> r == Ok::<EventData, EventError>(
            EventData::Process(ProcessData::Exit(ProcessExitData(value.process))),
        ),
        value.type_ is SocketListen ==> (r matches Ok(
            EventData::Network { process, network: NetworkData::Listen(ListenData(s)) },
        ) && process == value.process && s.port == value.network.listen.port),
        value.type_ is SocketAccept ==> (r matches Ok(
            EventData::Network { process, network: NetworkData::Accept(a) },
        ) && process == value.process && a.local.port == value.network.accept.local.port
            && a.remote.port == value.network.accept.remote.port),
        value.type_ is SocketConnect ==> (r matches Ok(
            EventData::Network { process, network: NetworkData::Connect(c) },
        ) && process == value.process && c.local.port == value.network.connect.local.port
            && c.remote.port == value.network.connect.remote.port),
{
}

/// A test event is the file operation that was asked for, on the given
/// paths: a creation, an unlink, a chmod with the given modes, or a
/// rename to `filename` from the given old path.
pub proof fn lemma_test_event_kinds(
    file: FileData,
    data: EventTestData,
    filename: Vec<u8>,
    host_file: Vec<u8>,
)
    requires
        test_file_is(file, data, filename, host_file),
    ensures
        data is Creation ==> (file matches FileData::Creation(b) && b.filename == filename),
        data is Unlink ==> (file matches FileData::Unlink(b) && b.filename == filename),
        data matches EventTestData::Chmod(n, o) ==> (file matches FileData::Chmod(c) && c.new_mode == n
            && c.old_mode == o && c.inner.filename == filename),
        data matches EventTestData::Rename(old_path) ==> (file matches FileData::Rename(r)
            && r.new.filename == filename && r.old.filename == old_path),
{
}

/// A process step goes on the wire as the step of the same kind, naming
/// the same process, and a wire step reads back as the step of its kind.
pub proof fn lemma_process_wire_kinds(m: api::Msg, p: Process, r: EventData)
    ensures
        data_api_is(m, EventData::Process(ProcessData::Exec(ProcessExecData(p)))) ==> m == api::Msg::Process(
            api::ProcessActivity { process: Some(api::ProcessActivityKind::Exec(p)) },
        ),
        data_api_is(m, EventData::Process(ProcessData::Exit(ProcessExitData(p)))) ==> m == api::Msg::Process(
            api::ProcessActivity { process: Some(api::ProcessActivityKind::Exit(p)) },
        ),
        data_api_is(m, EventData::Process(ProcessData::Fork(ProcessForkData { child: p }))) ==> m
            == api::Msg::Process(
            api::ProcessActivity {
                process: Some(api::ProcessActivityKind::Fork(api::ProcessFork { child: Some(p) })),
            },
        ),
        data_api_is(m, EventData::Process(ProcessData::Proc(p))) ==> m == api::Msg::Process(
            api::ProcessActivity { process: Some(api::ProcessActivityKind::Proc(p)) },
        ),
        data_from_api(r, m) && m == api::Msg::Process(
            api::ProcessActivity { process: Some(api::ProcessActivityKind::Exec(p)) },
        ) ==> r == EventData::Process(ProcessData::Exec(ProcessExecData(p))),
        data_from_api(r, m) && m == api::Msg::Process(
            api::ProcessActivity { process: Some(api::ProcessActivityKind::Exit(p)) },
        ) ==> r == EventData::Process(ProcessData::Exit(ProcessExitData(p))),
        data_from_api(r, m) && m == api::Msg::Process(
            api::ProcessActivity {
                process: Some(api::ProcessActivityKind::Fork(api::ProcessFork { child: Some(p) })),
            },
        ) ==> r == EventData::Process(ProcessData::Fork(ProcessForkData { child: p })),
        data_from_api(r, m) && m == api::Msg::Process(
            api::ProcessActivity { process: Some(api::ProcessActivityKind::Proc(p)) },
        ) ==> r == EventData::Process(ProcessData::Proc(p)),
{
}

/// The file operation that a wire message body carries.
pub open spec fn wire_file(m: api::Msg) -> api::File {
    m->File_0.file.unwrap()
}

/// A file operation goes on the wire as the operation of the same kind,
/// by the same process, with the text of its paths (for a rename, the new
/// file as the new one), and a wire operation reads back as the file
/// operation of its kind.
pub proof fn lemma_file_wire_kinds(
    m: api::Msg,
    process: Process,
    b: BaseFileData,
    c: ChmodFileData,
    o: ChownFileData,
    r: RenameFileData,
    d: EventData,
)
    ensures
        data_api_is(m, EventData::File { process, file: FileData::Open(b) }) ==> {
            &&& m is File && m->File_0.process == Some(process)
            &&& wire_file(m) is Open
            &&& wire_file(m)->Open_0.activity.unwrap().path@ == utf8_lossy(b.filename@)
            &&& wire_file(m)->Open_0.activity.unwrap().host_path@ == utf8_lossy(b.host_file@)
        },
        data_api_is(m, EventData::File { process, file: FileData::Creation(b) }) ==> {
            &&& m is File && wire_file(m) is Creation
            &&& wire_file(m)->Creation_0.activity.unwrap().path@ == utf8_lossy(b.filename@)
        },
        data_api_is(m, EventData::File { process, file: FileData::Unlink(b) }) ==> {
            &&& m is File && wire_file(m) is Unlink
            &&& wire_file(m)->Unlink_0.activity.unwrap().path@ == utf8_lossy(b.filename@)
        },
        data_api_is(m, EventData::File { process, file: FileData::Chmod(c) }) ==> {
            &&& m is File && wire_file(m) is Permission
            &&& wire_file(m)->Permission_0.mode == c.new_mode as u32
            &&& wire_file(m)->Permission_0.activity.unwrap().path@ == utf8_lossy(c.inner.filename@)
        },
        data_api_is(m, EventData::File { process, file: FileData::Chown(o) }) ==> {
            &&& m is File && wire_file(m) is Ownership
            &&& wire_file(m)->Ownership_0.uid == o.new_uid && wire_file(m)->Ownership_0.gid == o.new_gid
            &&& wire_file(m)->Ownership_0.activity.unwrap().path@ == utf8_lossy(o.inner.filename@)
        },
        data_api_is(m, EventData::File { process, file: FileData::Rename(r) }) ==> {
            &&& m is File && wire_file(m) is Rename
            &&& wire_file(m)->Rename_0.new.unwrap().path@ == utf8_lossy(r.new.filename@)
            &&& wire_file(m)->Rename_0.old.unwrap().path@ == utf8_lossy(r.old.filename@)
        },
        data_from_api(d, m) && m is File ==> d is File && d->File_process == m->File_0.process.unwrap(),
        data_from_api(d, m) && m is File && wire_file(m) is Open ==> {
            &&& d->File_file is Open
            &&& d->File_file->Open_0.filename@ == encode_utf8(wire_file(m)->Open_0.activity.unwrap().path@)
            &&& d->File_file->Open_0.host_file@ == encode_utf8(
                wire_file(m)->Open_0.activity.unwrap().host_path@,
            )
        },
        data_from_api(d, m) && m is File && wire_file(m) is Creation ==> d->File_file is Creation,
        data_from_api(d, m) && m is File && wire_file(m) is Unlink ==> d->File_file is Unlink,
        data_from_api(d, m) && m is File && wire_file(m) is Permission ==> {
            &&& d->File_file is Chmod
            &&& d->File_file->Chmod_0.new_mode == wire_file(m)->Permission_0.mode as u16
        },
        data_from_api(d, m) && m is File && wire_file(m) is Ownership ==> {
            &&& d->File_file is Chown
            &&& d->File_file->Chown_0.new_uid == wire_file(m)->Ownership_0.uid
            &&& d->File_file->Chown_0.new_gid == wire_file(m)->Ownership_0.gid
        },
        data_from_api(d, m) && m is File && wire_file(m) is Rename ==> {
            &&& d->File_file is Rename
            &&& d->File_file->Rename_0.new.filename@ == encode_utf8(
                wire_file(m)->Rename_0.new.unwrap().path@,
            )
            &&& d->File_file->Rename_0.old.filename@ == encode_utf8(
                wire_file(m)->Rename_0.old.unwrap().path@,
            )
        },
{
}

/// A kernel socket record of the IPv4 family (2) gives an IPv4 address,
/// one of any other family an IPv6 address; the port is the record's.
pub proof fn lemma_socket_family(data: RawSocket, family: u16)
    ensures
        family == 2 ==> socket_from_raw(data, family).addr is V4,
        family != 2 ==> socket_from_raw(data, family).addr is V6,
        socket_from_raw(data, family).port == data.port,
{
}

/// The wire text of a socket end is the text of its address, with its
/// port.
pub open spec fn socket_on_wire(s: api::Socket, d: SocketData) -> bool {
    s.address@ == decode_utf8(ip_text(d.addr)) && s.port == d.port as u32
}

/// A network operation goes on the wire as the operation of the same
/// kind, by the same process, with each socket end in its place (the
/// local end as the local one), and a wire operation reads back as the
/// network operation of its kind.
pub proof fn lemma_net_wire_kinds(
    m: api::Msg,
    process: Process,
    s: SocketData,
    a: AcceptData,
    c: ConnectData,
    n: api::Net,
)
    ensures
        data_api_is(m, EventData::Network { process, network: NetworkData::Listen(ListenData(s)) }) ==> {
            &&& m is Net && m->Net_0.process == Some(process)
            &&& m->Net_0.net.unwrap() is Listen
            &&& socket_on_wire(m->Net_0.net.unwrap()->Listen_0, s)
        },
        data_api_is(m, EventData::Network { process, network: NetworkData::Accept(a) }) ==> {
            &&& m is Net && m->Net_0.process == Some(process)
            &&& m->Net_0.net.unwrap() is Accept
            &&& socket_on_wire(m->Net_0.net.unwrap()->Accept_0.local.unwrap(), a.local)
            &&& socket_on_wire(m->Net_0.net.unwrap()->Accept_0.remote.unwrap(), a.remote)
        },
        data_api_is(m, EventData::Network { process, network: NetworkData::Connect(c) }) ==> {
            &&& m is Net && m->Net_0.process == Some(process)
            &&& m->Net_0.net.unwrap() is Connect
            &&& socket_on_wire(m->Net_0.net.unwrap()->Connect_0.local.unwrap(), c.local)
            &&& socket_on_wire(m->Net_0.net.unwrap()->Connect_0.remote.unwrap(), c.remote)
        },
        n is Listen ==> net_from_api(n) is Listen,
        n is Accept ==> net_from_api(n) is Accept,
        n is Connect ==> net_from_api(n) is Connect,
{
}

/// Two file operations are of the same kind.
pub open spec fn same_file_kind(f: FileData, g: FileData) -> bool {
    ||| f is Open && g is Open
    ||| f is Creation && g is Creation
    ||| f is Unlink && g is Unlink
    ||| f is Chmod && g is Chmod
    ||| f is Chown && g is Chown
    ||| f is Rename && g is Rename
}

/// Events compare equal only when they are about the same kind of thing:
/// file events of different operations, or a file event and a process or
/// network event, are never equal. Every event equals itself, whatever its
/// time, and equality does not depend on the order of the two events.
pub proof fn lemma_event_eq_kinds(
    e1: Event,
    e2: Event,
    p: Process,
    q: Process,
    f: FileData,
    g: FileData,
    b1: BaseFileData,
    b2: BaseFileData,
    r1: RenameFileData,
    r2: RenameFileData,
    t: u64,
)
    ensures
        e1.data == (EventData::File { process: p, file: f }) && e2.data == (EventData::File {
            process: q,
            file: g,
        }) && !same_file_kind(f, g) ==> !e1.eq_spec(&e2),
        e1.data is File && !(e2.data is File) ==> !e1.eq_spec(&e2),
        e1.data is Process && !(e2.data is Process) ==> !e1.eq_spec(&e2),
        e1.hostname@ != e2.hostname@ ==> !e1.eq_spec(&e2),
        !(e1.data is File) ==> (e1.eq_spec(&e2) <==> e1.hostname@ == e2.hostname@ && e1.data
            == e2.data),
        e1.data == (EventData::File { process: p, file: f }) && e2.data == (EventData::File {
            process: q,
            file: g,
        }) && e1.eq_spec(&e2) ==> p == q && host_path_of(e1.data).unwrap()@ == host_path_of(
            e2.data,
        ).unwrap()@,
        e1.data == (EventData::File { process: p, file: FileData::Open(b1) }) && e2.data == (
        EventData::File { process: q, file: FileData::Open(b2) }) ==> (e1.eq_spec(&e2) <==> (
        e1.hostname@ == e2.hostname@ && p == q && b1.filename@ == b2.filename@ && b1.host_file@
            == b2.host_file@)),
        e1.data == (EventData::File { process: p, file: FileData::Rename(r1) }) && e2.data == (
        EventData::File { process: q, file: FileData::Rename(r2) }) ==> (e1.eq_spec(&e2) <==> (
        e1.hostname@ == e2.hostname@ && p == q && r1.new.filename@ == r2.new.filename@
            && r1.new.host_file@ == r2.new.host_file@ && r1.old.filename@ == r2.old.filename@
            && r1.old.host_file@ == r2.old.host_file@)),
        e1.eq_spec(&e2) == e2.eq_spec(&e1),
        e1.eq_spec(&e1),
        e1.eq_spec(&Event { timestamp: t, ..e1 }),
{
    assert(e1.hostname@ == e1.hostname@);
}

} // verus!
