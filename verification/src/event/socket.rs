//! Listening sockets as a kind of network activity of their own.
use vstd::prelude::*;

use vstd::string::*;
use vstd::utf8::*;

use crate::api;
use crate::ebpf::RawNetwork;
use crate::ip::{IpAddr, ip_text, ip_to_string, parse_ip, parse_ip_str};

verus! {

/// A socket operation: so far only starting to listen.
#[derive(Debug, Clone, PartialEq)]
pub enum SocketData {
    Listen(ListenData),
}

/// The address and port that a socket listens on.
#[derive(Debug, Clone, Copy, PartialEq, Eq)]
pub struct ListenData {
    pub addr: IpAddr,
    pub port: u16,
}

impl ListenData {
    /// Reads the listening socket from a kernel network record.
    pub fn new(data: &RawNetwork) -> (r: Self)
        ensures
            r == (ListenData {
                addr: super::network::socket_from_raw(data.listen, data.family).addr,
                port: data.listen.port,
            }),
    {
        let s = super::network::SocketData::new(data.listen, data.family);
        ListenData { addr: s.addr, port: s.port }
    }
}

impl SocketData {
    /// The wire form: a listening socket with its address written as text.
    pub fn to_api(self) -> (r: api::Net)
        ensures
            match self {
                SocketData::Listen(l) => r matches api::Net::Listen(s) && s.address@ == decode_utf8(
                    ip_text(l.addr),
                ) && s.port == l.port as u32,
            },
    {
        match self {
            SocketData::Listen(ListenData { addr, port }) => {
                let sock = api::Socket { address: ip_to_string(addr), port: port as u32 };
                api::Net::Listen(sock)
            },
        }
    }

    /// Reads a wire listening socket; the port is cut to 16 bits.
    pub fn from_api(value: api::Net) -> (r: Self)
        requires
            value matches api::Net::Listen(s) && parse_ip(encode_utf8(s.address@)) is Some,
        ensures
            value matches api::Net::Listen(s) && r == SocketData::Listen(
                ListenData {
                    addr: parse_ip(encode_utf8(s.address@)).unwrap(),
                    port: s.port as u16,
                },
            ),
    {
        match value {
            api::Net::Listen(api::Socket { address, port }) => {
                let addr = match parse_ip_str(address.as_str()) {
                    Some(a) => a,
                    None => unreached(),
                };
                SocketData::Listen(ListenData { addr, port: port as u16 })
            },
            api::Net::Accept(_) | api::Net::Connect(_) => unreached(),
        }
    }
}

} // verus!
