//! Properties that relate the event operations to one another.
use vstd::prelude::*;
use vstd::string::*;
use vstd::utf8::*;

use super::network::{
    ListenData, NetworkData, SocketData, net_api_is, net_api_ok, net_from_api, socket_api_is,
    socket_api_ok, socket_from_api,
};
use super::wire::{
    base_api_is, base_from_api, event_api_is, event_api_ok, event_from_api,
    lemma_timestamp_roundtrip,
};
use super::{
    BaseFileData, Event, EventData, FileData, host_path_of, inode_of, no_inode, old_host_path_of,
    old_inode_of, with_host_path, with_old_host_path,
};
use crate::api;
use crate::ip::roundtrip::lemma_ip_text_roundtrip;
use crate::ip::{ip_text, lemma_ip_text_ascii};
use crate::text::lemma_ascii_valid_utf8;

verus! {

/// An event has an inode exactly when it is a file event, and an old inode
/// exactly when it is a rename.
pub proof fn lemma_inode_iff_file_event(e: Event)
    ensures
        inode_of(e.data) is Some <==> e.data is File,
        old_inode_of(e.data) is Some <==> e.data matches EventData::File { file: FileData::Rename(_), .. },
{
}

/// After setting the host path of a file event, the event reports that
/// host path; its inodes, its old host path and everything else but that
/// one path stay as they were.
pub proof fn lemma_set_host_path_reads_back(e: Event, host_path: Vec<u8>)
    requires
        e.data is File,
    ensures
        host_path_of(with_host_path(e.data, host_path)) == Some(host_path),
        inode_of(with_host_path(e.data, host_path)) == inode_of(e.data),
        old_inode_of(with_host_path(e.data, host_path)) == old_inode_of(e.data),
        old_host_path_of(with_host_path(e.data, host_path)) == old_host_path_of(e.data),
{
}

/// Setting a host path leaves process and network events unchanged.
pub proof fn lemma_set_host_path_ignores_other_events(e: Event, host_path: Vec<u8>)
    requires
        !(e.data is File),
    ensures
        with_host_path(e.data, host_path) == e.data,
        with_old_host_path(e.data, host_path) == e.data,
{
}

/// After setting the old host path of a rename, the event reports it; the
/// new host path and the inodes stay as they were. Every other event is
/// left unchanged.
pub proof fn lemma_set_old_host_path_reads_back(e: Event, host_path: Vec<u8>)
    ensures
        old_inode_of(e.data) is Some ==> old_host_path_of(with_old_host_path(e.data, host_path)) == Some(
            host_path,
        ),
        old_inode_of(e.data) is None ==> with_old_host_path(e.data, host_path) == e.data,
        host_path_of(with_old_host_path(e.data, host_path)) == host_path_of(e.data),
        inode_of(with_old_host_path(e.data, host_path)) == inode_of(e.data),
        old_inode_of(with_old_host_path(e.data, host_path)) == old_inode_of(e.data),
{
}

/// Setting the host path twice is setting it once, to the second value.
pub proof fn lemma_set_host_path_last_wins(e: Event, first: Vec<u8>, second: Vec<u8>)
    ensures
        with_host_path(with_host_path(e.data, first), second) == with_host_path(e.data, second),
{
}

/// Both paths of a file record are valid UTF-8.
pub open spec fn base_paths_utf8(b: BaseFileData) -> bool {
    valid_utf8(b.filename@) && valid_utf8(b.host_file@)
}

/// Every path that the event data holds is valid UTF-8.
pub open spec fn paths_utf8(d: EventData) -> bool {
    match d {
        EventData::File { file, .. } => match file {
            FileData::Open(b) => base_paths_utf8(b),
            FileData::Creation(b) => base_paths_utf8(b),
            FileData::Unlink(b) => base_paths_utf8(b),
            FileData::Chmod(c) => base_paths_utf8(c.inner),
            FileData::Chown(c) => base_paths_utf8(c.inner),
            FileData::Rename(r) => base_paths_utf8(r.new) && base_paths_utf8(r.old),
        },
        _ => true,
    }
}

/// `r` is the file record `b` as read back from the wire: same paths, no
/// inode.
pub open spec fn base_read_back(r: BaseFileData, b: BaseFileData) -> bool {
    r.filename@ == b.filename@ && r.host_file@ == b.host_file@ && r.inode == no_inode()
}

/// `r` is the event data `d` as read back from the wire: everything
/// returns but the inodes, the old mode of a chmod and the old owner of a
/// chown, which the wire does not carry and which come back as zero.
pub open spec fn data_read_back(r: EventData, d: EventData) -> bool {
    match d {
        EventData::File { process, file } => r matches EventData::File { process: p, file: f }
            && p == process && match file {
            FileData::Open(b) => f matches FileData::Open(c) && base_read_back(c, b),
            FileData::Creation(b) => f matches FileData::Creation(c) && base_read_back(c, b),
            FileData::Unlink(b) => f matches FileData::Unlink(c) && base_read_back(c, b),
            FileData::Chmod(x) => f matches FileData::Chmod(y) && base_read_back(y.inner, x.inner)
                && y.new_mode == x.new_mode && y.old_mode == 0,
            FileData::Chown(x) => f matches FileData::Chown(y) && base_read_back(y.inner, x.inner)
                && y.new_uid == x.new_uid && y.new_gid == x.new_gid && y.old_uid == 0 && y.old_gid
                == 0,
            FileData::Rename(x) => f matches FileData::Rename(y) && base_read_back(y.new, x.new)
                && base_read_back(y.old, x.old),
        },
        _ => r == d,
    }
}

proof fn lemma_base_read_back(b: BaseFileData, a: api::FileActivityBase, r: BaseFileData)
    requires
        base_api_is(a, b),
        base_from_api(r, a),
        base_paths_utf8(b),
    ensures
        base_read_back(r, b),
{
    decode_utf8_encode_utf8(b.filename@);
    decode_utf8_encode_utf8(b.host_file@);
}

proof fn lemma_socket_read_back(s: SocketData, a: api::Socket)
    requires
        socket_api_is(a, s),
    ensures
        socket_api_ok(a),
        socket_from_api(a) == s,
{
    lemma_ip_text_ascii(s.addr);
    lemma_ascii_valid_utf8(ip_text(s.addr));
    decode_utf8_encode_utf8(ip_text(s.addr));
    lemma_ip_text_roundtrip(s.addr);
}

proof fn lemma_net_read_back(n: NetworkData, a: api::Net)
    requires
        net_api_is(a, n),
    ensures
        net_api_ok(a),
        net_from_api(a) == n,
{
    match n {
        NetworkData::Listen(ListenData(sock)) => {
            if let api::Net::Listen(s) = a {
                lemma_socket_read_back(sock, s);
            }
        },
        NetworkData::Accept(d) => {
            if let api::Net::Accept(x) = a {
                lemma_socket_read_back(d.local, x.local.unwrap());
                lemma_socket_read_back(d.remote, x.remote.unwrap());
            }
        },
        NetworkData::Connect(d) => {
            if let api::Net::Connect(x) = a {
                lemma_socket_read_back(d.local, x.local.unwrap());
                lemma_socket_read_back(d.remote, x.remote.unwrap());
            }
        },
    }
}

/// The wire form of every event can be read back.
pub proof fn lemma_event_api_readable(e: Event, m: api::FactMsg)
    requires
        event_api_is(m, e),
        e.timestamp < 9_223_372_037_000_000_000,
    ensures
        event_api_ok(m),
{
    lemma_timestamp_roundtrip(e.timestamp);
    let d = m.msg.unwrap();
    match e.data {
        EventData::File { file, .. } => {},
        EventData::Process(p) => {},
        EventData::Network { network, .. } => {
            if let api::Msg::Net(a) = d {
                lemma_net_read_back(network, a.net.unwrap());
            }
        },
    }
}

/// Sending an event and reading the message back gives the event again:
/// the same time, host name, process, paths, new mode or owner and
/// network ends. The inodes, the old mode of a chmod and the old owner of
/// a chown do not travel and come back as zero. This holds for events
/// whose paths are valid UTF-8 (others come back with invalid sequences
/// replaced) and whose time, in whole seconds times 10^9, fits in an
/// `i64`.
pub proof fn lemma_event_api_roundtrip(e: Event, m: api::FactMsg, r: Event)
    requires
        event_api_is(m, e),
        event_from_api(r, m),
        e.timestamp < 9_223_372_037_000_000_000,
        paths_utf8(e.data),
    ensures
        r.timestamp == e.timestamp,
        r.hostname@ == e.hostname@,
        data_read_back(r.data, e.data),
{
    lemma_timestamp_roundtrip(e.timestamp);
    let d = m.msg.unwrap();
    match e.data {
        EventData::File { file, process } => {
            if let api::Msg::File(a) = d {
                let f = a.file.unwrap();
                if let EventData::File { file: rf, .. } = r.data {
                    match file {
                        FileData::Open(b) => {
                            if let api::File::Open(o) = f {
                                if let FileData::Open(c) = rf {
                                    lemma_base_read_back(b, o.activity.unwrap(), c);
                                }
                            }
                        },
                        FileData::Creation(b) => {
                            if let api::File::Creation(o) = f {
                                if let FileData::Creation(c) = rf {
                                    lemma_base_read_back(b, o.activity.unwrap(), c);
                                }
                            }
                        },
                        FileData::Unlink(b) => {
                            if let api::File::Unlink(o) = f {
                                if let FileData::Unlink(c) = rf {
                                    lemma_base_read_back(b, o.activity.unwrap(), c);
                                }
                            }
                        },
                        FileData::Chmod(x) => {
                            if let api::File::Permission(o) = f {
                                if let FileData::Chmod(y) = rf {
                                    lemma_base_read_back(x.inner, o.activity.unwrap(), y.inner);
                                }
                            }
                        },
                        FileData::Chown(x) => {
                            if let api::File::Ownership(o) = f {
                                if let FileData::Chown(y) = rf {
                                    lemma_base_read_back(x.inner, o.activity.unwrap(), y.inner);
                                }
                            }
                        },
                        FileData::Rename(x) => {
                            if let api::File::Rename(o) = f {
                                if let FileData::Rename(y) = rf {
                                    lemma_base_read_back(x.new, o.new.unwrap(), y.new);
                                    lemma_base_read_back(x.old, o.old.unwrap(), y.old);
                                }
                            }
                        },
                    }
                }
            }
        },
        EventData::Process(p) => {},
        EventData::Network { network, .. } => {
            if let api::Msg::Net(a) = d {
                lemma_net_read_back(network, a.net.unwrap());
            }
        },
    }
}

} // verus!
