//! Network activity: listening sockets, accepted and outgoing connections.
use vstd::prelude::*;

use vstd::string::*;
use vstd::utf8::*;

use crate::api;
use crate::ebpf::{RawNetwork, RawSocket};
use crate::ip::{IpAddr, ip_text, ip_to_string, parse_ip, parse_ip_str};

verus! {

/// A network operation seen on a socket.
#[derive(Debug, Clone, Copy, PartialEq, Eq, Structural)]
pub enum NetworkData {
    Accept(AcceptData),
    Listen(ListenData),
    Connect(ConnectData),
}

/// One end of a socket: address and port.
#[derive(Debug, Clone, Copy, PartialEq, Eq, Structural)]
pub struct SocketData {
    pub addr: IpAddr,
    pub port: u16,
}

/// The socket that started listening.
#[derive(Debug, Clone, Copy, PartialEq, Eq, Structural)]
pub struct ListenData(pub SocketData);

/// Both ends of an accepted connection.
#[derive(Debug, Clone, Copy, PartialEq, Eq, Structural)]
pub struct AcceptData {
    pub local: SocketData,
    pub remote: SocketData,
}

/// Both ends of an outgoing connection.
#[derive(Debug, Clone, Copy, PartialEq, Eq, Structural)]
pub struct ConnectData {
    pub local: SocketData,
    pub remote: SocketData,
}

/// The number that the first `n` bytes make when read most significant
/// byte first.
pub open spec fn be_uint(bytes: Seq<u8>) -> nat
    decreases bytes.len(),
{
    if bytes.len() == 0 {
        0
    } else {
        be_uint(bytes.drop_last()) * 256 + bytes.last() as nat
    }
}

/// Calls `byteorder::NetworkEndian::read_u32`, which reads the first four
/// bytes as a big-endian number (`u32::from_be_bytes`) and panics on a
/// shorter buffer.
#[verifier::external_body]
fn read_u32_be(buf: &[u8]) -> (r: u32)
    requires
        buf@.len() >= 4,
    ensures
        r == be_uint(buf@.subrange(0, 4)),
{
    <byteorder::NetworkEndian as byteorder::ByteOrder>::read_u32(buf)
}

/// Calls `byteorder::NetworkEndian::read_u128`, which reads the first
/// sixteen bytes as a big-endian number (`u128::from_be_bytes`) and panics
/// on a shorter buffer.
#[verifier::external_body]
fn read_u128_be(buf: &[u8]) -> (r: u128)
    requires
        buf@.len() >= 16,
    ensures
        r == be_uint(buf@.subrange(0, 16)),
{
    <byteorder::NetworkEndian as byteorder::ByteOrder>::read_u128(buf)
}

/// Reads `libc::AF_INET`, the address family of IPv4 sockets, which libc
/// defines as 2 on Linux, the platform whose kernel records are read here.
#[verifier::external_body]
fn af_inet() -> (r: i32)
    ensures
        r == 2,
{
    libc::AF_INET
}

/// The address family of IPv4 sockets.
pub open spec fn inet_family() -> u16 {
    2
}

/// The socket end that a kernel socket record describes: an IPv4 address
/// from the first four bytes for the IPv4 family, else an IPv6 address
/// from all sixteen.
pub open spec fn socket_from_raw(data: RawSocket, family: u16) -> SocketData {
    SocketData {
        addr: if family == inet_family() {
            IpAddr::V4(be_uint(data.address@.subrange(0, 4)) as u32)
        } else {
            IpAddr::V6(be_uint(data.address@.subrange(0, 16)) as u128)
        },
        port: data.port,
    }
}

impl SocketData {
    /// Reads a socket end from its kernel record.
    pub fn new(data: RawSocket, family: u16) -> (r: Self)
        ensures
            r == socket_from_raw(data, family),
    {
        let addr = if family == af_inet() as u16 {
            IpAddr::V4(read_u32_be(&data.address))
        } else {
            IpAddr::V6(read_u128_be(&data.address))
        };
        let port = data.port;
        SocketData { addr, port }
    }
}

impl ListenData {
    /// Reads the listening socket from a kernel network record.
    pub fn new(data: &RawNetwork) -> (r: Self)
        ensures
            r == ListenData(socket_from_raw(data.listen, data.family)),
    {
        ListenData(SocketData::new(data.listen, data.family))
    }
}

impl AcceptData {
    /// Reads both ends of an accepted connection from a kernel network record.
    pub fn new(data: &RawNetwork) -> (r: Self)
        ensures
            r == (AcceptData {
                local: socket_from_raw(data.accept.local, data.family),
                remote: socket_from_raw(data.accept.remote, data.family),
            }),
    {
        let local = SocketData::new(data.accept.local, data.family);
        let remote = SocketData::new(data.accept.remote, data.family);
        AcceptData { local, remote }
    }
}

impl ConnectData {
    /// Reads both ends of an outgoing connection from a kernel network record.
    pub fn new(data: &RawNetwork) -> (r: Self)
        ensures
            r == (ConnectData {
                local: socket_from_raw(data.connect.local, data.family),
                remote: socket_from_raw(data.connect.remote, data.family),
            }),
    {
        let local = SocketData::new(data.connect.local, data.family);
        let remote = SocketData::new(data.connect.remote, data.family);
        ConnectData { local, remote }
    }
}

/// The wire form of a socket end: the address as text.
pub open spec fn socket_api_is(r: api::Socket, s: SocketData) -> bool {
    r.address@ == decode_utf8(ip_text(s.addr)) && r.port == s.port as u32
}

/// The address of a wire socket end reads as an IP address.
pub open spec fn socket_api_ok(s: api::Socket) -> bool {
    parse_ip(encode_utf8(s.address@)) is Some
}

/// The socket end that a wire socket end denotes; the port is cut to 16 bits.
pub open spec fn socket_from_api(s: api::Socket) -> SocketData {
    SocketData { addr: parse_ip(encode_utf8(s.address@)).unwrap(), port: s.port as u16 }
}

/// The wire form of an accepted connection.
pub open spec fn accept_api_is(r: api::Accept, a: AcceptData) -> bool {
    &&& r.local matches Some(l) && socket_api_is(l, a.local)
    &&& r.remote matches Some(m) && socket_api_is(m, a.remote)
}

/// A wire accepted connection has both ends, and both read.
pub open spec fn accept_api_ok(a: api::Accept) -> bool {
    &&& a.local matches Some(l) && socket_api_ok(l)
    &&& a.remote matches Some(m) && socket_api_ok(m)
}

/// The wire form of an outgoing connection.
pub open spec fn connect_api_is(r: api::Connect, c: ConnectData) -> bool {
    &&& r.local matches Some(l) && socket_api_is(l, c.local)
    &&& r.remote matches Some(m) && socket_api_is(m, c.remote)
}

/// A wire outgoing connection has both ends, and both read.
pub open spec fn connect_api_ok(c: api::Connect) -> bool {
    &&& c.local matches Some(l) && socket_api_ok(l)
    &&& c.remote matches Some(m) && socket_api_ok(m)
}

/// The wire form of a network operation.
pub open spec fn net_api_is(r: api::Net, n: NetworkData) -> bool {
    match n {
        NetworkData::Listen(ListenData(sock)) => r matches api::Net::Listen(s) && socket_api_is(s, sock),
        NetworkData::Accept(d) => r matches api::Net::Accept(a) && accept_api_is(a, d),
        NetworkData::Connect(d) => r matches api::Net::Connect(c) && connect_api_is(c, d),
    }
}

/// A wire network operation can be read back.
pub open spec fn net_api_ok(n: api::Net) -> bool {
    match n {
        api::Net::Listen(s) => socket_api_ok(s),
        api::Net::Accept(a) => accept_api_ok(a),
        api::Net::Connect(c) => connect_api_ok(c),
    }
}

/// The network operation that a wire network operation denotes.
pub open spec fn net_from_api(n: api::Net) -> NetworkData {
    match n {
        api::Net::Listen(s) => NetworkData::Listen(ListenData(socket_from_api(s))),
        api::Net::Accept(a) => NetworkData::Accept(
            AcceptData {
                local: socket_from_api(a.local.unwrap()),
                remote: socket_from_api(a.remote.unwrap()),
            },
        ),
        api::Net::Connect(c) => NetworkData::Connect(
            ConnectData {
                local: socket_from_api(c.local.unwrap()),
                remote: socket_from_api(c.remote.unwrap()),
            },
        ),
    }
}

impl SocketData {
    /// The wire form: the address written as text.
    pub fn to_api(self) -> (r: api::Socket)
        ensures
            socket_api_is(r, self),
    {
        api::Socket { address: ip_to_string(self.addr), port: self.port as u32 }
    }

    /// Reads a wire socket end; the port is cut to 16 bits.
    pub fn from_api(value: api::Socket) -> (r: Self)
        requires
            socket_api_ok(value),
        ensures
            r == socket_from_api(value),
    {
        let addr = match parse_ip_str(value.address.as_str()) {
            Some(a) => a,
            None => unreached(),
        };
        SocketData { addr, port: value.port as u16 }
    }
}

impl AcceptData {
    /// The wire form of both ends.
    pub fn to_api(self) -> (r: api::Accept)
        ensures
            accept_api_is(r, self),
    {
        api::Accept { local: Some(self.local.to_api()), remote: Some(self.remote.to_api()) }
    }

    /// Reads both ends of a wire accepted connection.
    pub fn from_api(value: api::Accept) -> (r: Self)
        requires
            accept_api_ok(value),
        ensures
            r == (AcceptData {
                local: socket_from_api(value.local.unwrap()),
                remote: socket_from_api(value.remote.unwrap()),
            }),
    {
        match value {
            api::Accept { local: Some(local), remote: Some(remote) } => AcceptData {
                local: SocketData::from_api(local),
                remote: SocketData::from_api(remote),
            },
            _ => unreached(),
        }
    }
}

impl ConnectData {
    /// The wire form of both ends.
    pub fn to_api(self) -> (r: api::Connect)
        ensures
            connect_api_is(r, self),
    {
        api::Connect { local: Some(self.local.to_api()), remote: Some(self.remote.to_api()) }
    }

    /// Reads both ends of a wire outgoing connection.
    pub fn from_api(value: api::Connect) -> (r: Self)
        requires
            connect_api_ok(value),
        ensures
            r == (ConnectData {
                local: socket_from_api(value.local.unwrap()),
                remote: socket_from_api(value.remote.unwrap()),
            }),
    {
        match value {
            api::Connect { local: Some(local), remote: Some(remote) } => ConnectData {
                local: SocketData::from_api(local),
                remote: SocketData::from_api(remote),
            },
            _ => unreached(),
        }
    }
}

impl NetworkData {
    /// The wire form of a network operation.
    pub fn to_api(self) -> (r: api::Net)
        ensures
            net_api_is(r, self),
    {
        match self {
            NetworkData::Listen(ListenData(sock)) => api::Net::Listen(sock.to_api()),
            NetworkData::Accept(data) => api::Net::Accept(data.to_api()),
            NetworkData::Connect(data) => api::Net::Connect(data.to_api()),
        }
    }

    /// Reads a wire network operation.
    pub fn from_api(value: api::Net) -> (r: Self)
        requires
            net_api_ok(value),
        ensures
            r == net_from_api(value),
    {
        match value {
            api::Net::Listen(sock) => NetworkData::Listen(ListenData(SocketData::from_api(sock))),
            api::Net::Accept(data) => NetworkData::Accept(AcceptData::from_api(data)),
            api::Net::Connect(data) => NetworkData::Connect(ConnectData::from_api(data)),
        }
    }
}

fn socket_message_ok(s: &api::Socket) -> (r: bool)
    ensures
        r == socket_api_ok(*s),
{
    parse_ip_str(s.address.as_str()).is_some()
}

/// Whether a wire network operation can be read back.
pub fn net_message_ok(n: &api::Net) -> (r: bool)
    ensures
        r == net_api_ok(*n),
{
    match n {
        api::Net::Listen(s) => socket_message_ok(s),
        api::Net::Accept(a) => match (&a.local, &a.remote) {
            (Some(l), Some(m)) => socket_message_ok(l) && socket_message_ok(m),
            _ => false,
        },
        api::Net::Connect(c) => match (&c.local, &c.remote) {
            (Some(l), Some(m)) => socket_message_ok(l) && socket_message_ok(m),
            _ => false,
        },
    }
}

} // verus!
