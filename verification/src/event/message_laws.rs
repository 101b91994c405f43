//! Reading a wire message and sending the event again gives the message
//! back, when the message is already in the form that the library sends.
use vstd::prelude::*;
use vstd::string::*;
use vstd::utf8::*;

use super::network::{SocketData, socket_api_is, socket_from_api};
use super::wire::{
    NANOS_PER_SEC, base_api_is, base_from_api, event_api_is, event_api_ok, event_from_api,
    file_api_is, file_api_ok, file_from_api, process_api, process_from_api,
};
use super::{BaseFileData, Event, EventData, FileData};
use crate::api;
use crate::ip::{ip_text, parse_ip};

verus! {

/// Two wire file records hold the same paths.
pub open spec fn same_base(a: api::FileActivityBase, b: api::FileActivityBase) -> bool {
    a.path@ == b.path@ && a.host_path@ == b.host_path@
}

/// Two optional wire file records are both present and the same.
pub open spec fn same_some_base(a: Option<api::FileActivityBase>, b: Option<api::FileActivityBase>) -> bool {
    a matches Some(x) && (b matches Some(y) && same_base(x, y))
}

/// Two wire file operations say the same.
pub open spec fn same_file(a: api::File, b: api::File) -> bool {
    match (a, b) {
        (api::File::Open(x), api::File::Open(y)) => same_some_base(x.activity, y.activity),
        (api::File::Creation(x), api::File::Creation(y)) => same_some_base(x.activity, y.activity),
        (api::File::Unlink(x), api::File::Unlink(y)) => same_some_base(x.activity, y.activity),
        (api::File::Permission(x), api::File::Permission(y)) => same_some_base(x.activity, y.activity)
            && x.mode == y.mode,
        (api::File::Ownership(x), api::File::Ownership(y)) => same_some_base(x.activity, y.activity)
            && x.uid == y.uid && x.gid == y.gid && x.username@ == y.username@ && x.group@ == y.group@,
        (api::File::Rename(x), api::File::Rename(y)) => same_some_base(x.old, y.old) && same_some_base(
            x.new,
            y.new,
        ),
        _ => false,
    }
}

/// Two wire socket ends say the same.
pub open spec fn same_socket(a: api::Socket, b: api::Socket) -> bool {
    a.address@ == b.address@ && a.port == b.port
}

/// Two wire network operations say the same.
pub open spec fn same_net(a: api::Net, b: api::Net) -> bool {
    match (a, b) {
        (api::Net::Listen(x), api::Net::Listen(y)) => same_socket(x, y),
        (api::Net::Accept(x), api::Net::Accept(y)) => (x.local matches Some(l) && (y.local matches Some(
            m,
        ) && same_socket(l, m))) && (x.remote matches Some(l) && (y.remote matches Some(m)
            && same_socket(l, m))),
        (api::Net::Connect(x), api::Net::Connect(y)) => (x.local matches Some(l) && (y.local matches Some(
            m,
        ) && same_socket(l, m))) && (x.remote matches Some(l) && (y.remote matches Some(m)
            && same_socket(l, m))),
        _ => false,
    }
}

/// Two wire message bodies say the same.
pub open spec fn same_msg(a: api::Msg, b: api::Msg) -> bool {
    match (a, b) {
        (api::Msg::File(x), api::Msg::File(y)) => x.process == y.process && (x.file matches Some(f) && (
        y.file matches Some(g) && same_file(f, g))),
        (api::Msg::Process(x), api::Msg::Process(y)) => x.process == y.process,
        (api::Msg::Net(x), api::Msg::Net(y)) => x.process == y.process && (x.net matches Some(n) && (
        y.net matches Some(m) && same_net(n, m))),
        _ => false,
    }
}

/// The address text is the one the library writes for that address.
pub open spec fn canonical_address(s: api::Socket) -> bool {
    parse_ip(encode_utf8(s.address@)) matches Some(a) && ip_text(a) == encode_utf8(s.address@)
}

/// A socket end in the form the library sends: canonical address text and
/// a 16-bit port.
pub open spec fn canonical_socket(s: api::Socket) -> bool {
    canonical_address(s) && s.port < 0x10000
}

/// A wire file operation in the form the library sends: a 16-bit mode and
/// no owner names.
pub open spec fn canonical_file(f: api::File) -> bool {
    match f {
        api::File::Permission(p) => p.mode < 0x10000,
        api::File::Ownership(o) => o.username@.len() == 0 && o.group@.len() == 0,
        _ => true,
    }
}

/// A wire message body in the form the library sends.
pub open spec fn canonical_msg(m: api::Msg) -> bool {
    match m {
        api::Msg::File(a) => canonical_file(a.file.unwrap()),
        api::Msg::Process(_) => true,
        api::Msg::Net(a) => match a.net.unwrap() {
            api::Net::Listen(s) => canonical_socket(s),
            api::Net::Accept(x) => canonical_socket(x.local.unwrap()) && canonical_socket(x.remote.unwrap()),
            api::Net::Connect(x) => canonical_socket(x.local.unwrap()) && canonical_socket(x.remote.unwrap()),
        },
    }
}

/// A wire message in the form the library sends: readable, with a time of
/// non-negative seconds and nanoseconds below one second, and a canonical
/// body.
pub open spec fn canonical_message(m: api::FactMsg) -> bool {
    &&& event_api_ok(m)
    &&& m.timestamp.unwrap().seconds >= 0
    &&& 0 <= m.timestamp.unwrap().nanos < NANOS_PER_SEC
    &&& canonical_msg(m.msg.unwrap())
}

proof fn lemma_base_again(a: api::FileActivityBase, b: BaseFileData, a2: api::FileActivityBase)
    requires
        base_from_api(b, a),
        base_api_is(a2, b),
    ensures
        same_base(a2, a),
{
    encode_utf8_valid_utf8(a.path@);
    encode_utf8_valid_utf8(a.host_path@);
    encode_utf8_decode_utf8(a.path@);
    encode_utf8_decode_utf8(a.host_path@);
}

proof fn lemma_socket_again(s: api::Socket, d: SocketData, s2: api::Socket)
    requires
        canonical_socket(s),
        d == socket_from_api(s),
        socket_api_is(s2, d),
    ensures
        same_socket(s2, s),
{
    encode_utf8_decode_utf8(s.address@);
}

proof fn lemma_file_again(f: api::File, d: FileData, f2: api::File)
    requires
        file_api_ok(f),
        canonical_file(f),
        file_from_api(d, f),
        file_api_is(f2, d),
    ensures
        same_file(f2, f),
{
    match f {
        api::File::Open(x) => {
            if let (FileData::Open(b), api::File::Open(y)) = (d, f2) {
                lemma_base_again(x.activity.unwrap(), b, y.activity.unwrap());
            }
        },
        api::File::Creation(x) => {
            if let (FileData::Creation(b), api::File::Creation(y)) = (d, f2) {
                lemma_base_again(x.activity.unwrap(), b, y.activity.unwrap());
            }
        },
        api::File::Unlink(x) => {
            if let (FileData::Unlink(b), api::File::Unlink(y)) = (d, f2) {
                lemma_base_again(x.activity.unwrap(), b, y.activity.unwrap());
            }
        },
        api::File::Permission(x) => {
            if let (FileData::Chmod(c), api::File::Permission(y)) = (d, f2) {
                lemma_base_again(x.activity.unwrap(), c.inner, y.activity.unwrap());
            }
        },
        api::File::Ownership(x) => {
            if let (FileData::Chown(c), api::File::Ownership(y)) = (d, f2) {
                lemma_base_again(x.activity.unwrap(), c.inner, y.activity.unwrap());
                assert(x.username@ =~= y.username@);
                assert(x.group@ =~= y.group@);
            }
        },
        api::File::Rename(x) => {
            if let (FileData::Rename(r), api::File::Rename(y)) = (d, f2) {
                lemma_base_again(x.old.unwrap(), r.old, y.old.unwrap());
                lemma_base_again(x.new.unwrap(), r.new, y.new.unwrap());
            }
        },
    }
}

/// A wire message in the form that the library sends comes back unchanged
/// when it is read as an event and that event is sent again: the same
/// time, host name, process, paths, mode, owner and socket ends.
pub proof fn lemma_message_roundtrip(m: api::FactMsg, e: Event, m2: api::FactMsg)
    requires
        canonical_message(m),
        event_from_api(e, m),
        event_api_is(m2, e),
    ensures
        m2.timestamp == m.timestamp,
        m2.hostname@ == m.hostname@,
        same_msg(m2.msg.unwrap(), m.msg.unwrap()),
{
    let t = m.timestamp.unwrap();
    let s = t.seconds as int;
    let n = t.nanos as int;
    assert(e.timestamp == s * 1_000_000_000 + n);
    assert((s * 1_000_000_000 + n) / 1_000_000_000 == s && (s * 1_000_000_000 + n) % 1_000_000_000 == n)
        by (nonlinear_arith)
        requires
            s >= 0,
            0 <= n < 1_000_000_000,
    ;
    let d = m.msg.unwrap();
    let d2 = m2.msg.unwrap();
    match d {
        api::Msg::File(a) => {
            if let (EventData::File { file, .. }, api::Msg::File(a2)) = (e.data, d2) {
                lemma_file_again(a.file.unwrap(), file, a2.file.unwrap());
            }
        },
        api::Msg::Process(a) => {
            let p = a.process.unwrap();
            assert(process_api(process_from_api(p)) == p);
        },
        api::Msg::Net(a) => {
            if let (EventData::Network { network, .. }, api::Msg::Net(a2)) = (e.data, d2) {
                match a.net.unwrap() {
                    api::Net::Listen(x) => {
                        if let api::Net::Listen(y) = a2.net.unwrap() {
                            lemma_socket_again(x, socket_from_api(x), y);
                        }
                    },
                    api::Net::Accept(x) => {
                        if let api::Net::Accept(y) = a2.net.unwrap() {
                            lemma_socket_again(x.local.unwrap(), socket_from_api(x.local.unwrap()), y.local.unwrap());
                            lemma_socket_again(x.remote.unwrap(), socket_from_api(x.remote.unwrap()), y.remote.unwrap());
                        }
                    },
                    api::Net::Connect(x) => {
                        if let api::Net::Connect(y) = a2.net.unwrap() {
                            lemma_socket_again(x.local.unwrap(), socket_from_api(x.local.unwrap()), y.local.unwrap());
                            lemma_socket_again(x.remote.unwrap(), socket_from_api(x.remote.unwrap()), y.remote.unwrap());
                        }
                    },
                }
            }
        },
    }
}

} // verus!
