use fact_core::api;
use fact_core::ebpf::{
    EventType, InodeKey, RawChmod, RawChown, RawEvent, RawExtra, RawFile, RawNetwork, RawOwner,
    RawRename, RawSocket, RawSocketPair,
};
use fact_core::event::network::{AcceptData, ConnectData, ListenData, NetworkData, SocketData};
use fact_core::event::process::Process;
use fact_core::event::{
    BaseFileData, ChmodFileData, ChownFileData, Event, EventData, EventTestData,
    FileData, ProcessData, ProcessExecData, ProcessExitData, ProcessForkData, RenameFileData,
};
use fact_core::event::socket::{ListenData as Listen, SocketData as Sock};
use fact_core::event::wire::{proto_to_timestamp, timestamp_to_proto};
use fact_core::ip::IpAddr;
use fact_core::store::{plan_process_update, ProcessTableAction};

fn path_buf(s: &[u8]) -> Vec<u8> {
    let mut v = s.to_vec();
    v.resize(64, 0);
    v
}

fn sock(address: [u8; 16], port: u16) -> RawSocket {
    RawSocket { address, port }
}

fn raw(type_: EventType) -> RawEvent {
    let mut v6 = [0u8; 16];
    v6[15] = 1;
    RawEvent {
        type_,
        timestamp: 5,
        process: Process { upid: 42 },
        file: RawFile { path: path_buf(b"/tmp/a (deleted)"), inode: InodeKey { inode: 7, dev: 3 } },
        network: RawNetwork {
            family: 2,
            listen: sock([127, 0, 0, 1, 0, 0, 0, 0, 0, 0, 0, 0, 0, 0, 0, 0], 8080),
            accept: RawSocketPair {
                local: sock([10, 0, 0, 1, 0, 0, 0, 0, 0, 0, 0, 0, 0, 0, 0, 0], 443),
                remote: sock([10, 0, 0, 2, 0, 0, 0, 0, 0, 0, 0, 0, 0, 0, 0, 0], 50000),
            },
            connect: RawSocketPair { local: sock(v6, 1), remote: sock(v6, 2) },
        },
        extra: RawExtra {
            chmod: RawChmod { new: 0o644, old: 0o600 },
            chown: RawChown { new: RawOwner { uid: 1, gid: 2 }, old: RawOwner { uid: 3, gid: 4 } },
            rename: RawRename { old_filename: path_buf(b"/tmp/old"), old_inode: InodeKey { inode: 9, dev: 3 } },
        },
    }
}

fn base(filename: &[u8], host: &[u8]) -> BaseFileData {
    BaseFileData { filename: filename.to_vec(), host_file: host.to_vec(), inode: InodeKey { inode: 1, dev: 1 } }
}

#[test]
fn timestamps_split_and_join() {
    let t = timestamp_to_proto(1_500_000_000_123);
    assert_eq!(t, api::Timestamp { seconds: 1500, nanos: 123 });
    assert_eq!(proto_to_timestamp(t), 1_500_000_000_123);
    assert_eq!(proto_to_timestamp(timestamp_to_proto(0)), 0);
    let big = 9_223_372_036_999_999_999u64;
    assert_eq!(proto_to_timestamp(timestamp_to_proto(big)), big);
    // a negative count of seconds reads back as two's complement
    assert_eq!(proto_to_timestamp(api::Timestamp { seconds: -1, nanos: 0 }), 18_446_744_072_709_551_616);
}

#[test]
fn new_builds_file_events() {
    let p = Process { upid: 1 };
    let e = Event::new(EventTestData::Creation, "host", b"/a".to_vec(), b"/h/a".to_vec(), p, 10).unwrap();
    assert_eq!(e.timestamp, 10);
    assert_eq!(e.hostname, "host");
    assert!(e.is_file_event());
    assert!(!e.is_process_event());
    assert_eq!(e.get_inode(), Some(&InodeKey { inode: 0, dev: 0 }));
    assert_eq!(e.get_old_inode(), None);
    assert_eq!(e.data, EventData::File { process: p, file: FileData::Creation(base(b"/a", b"/h/a")) });

    let e = Event::new(EventTestData::Chmod(0o755, 0o644), "host", b"/a".to_vec(), vec![], p, 0).unwrap();
    match e.data {
        EventData::File { file: FileData::Chmod(ChmodFileData { new_mode, old_mode, .. }), .. } => {
            assert_eq!((new_mode, old_mode), (0o755, 0o644));
        },
        _ => panic!("not a chmod"),
    }

    let e = Event::new(EventTestData::Rename(b"/old".to_vec()), "h", b"/new".to_vec(), vec![], p, 0).unwrap();
    assert_eq!(e.get_old_inode(), Some(&InodeKey { inode: 0, dev: 0 }));
    match &e.data {
        EventData::File { file: FileData::Rename(RenameFileData { new, old }), .. } => {
            assert_eq!(new.filename, b"/new".to_vec());
            assert_eq!(old.filename, b"/old".to_vec());
            assert!(old.host_file.is_empty());
        },
        _ => panic!("not a rename"),
    }
    let e = Event::new(EventTestData::Unlink, "h", b"/u".to_vec(), vec![], p, 0).unwrap();
    assert!(matches!(e.data, EventData::File { file: FileData::Unlink(_), .. }));
}

#[test]
fn host_paths_are_set_where_they_belong() {
    let p = Process { upid: 1 };
    let mut e = Event::new(EventTestData::Rename(b"/old".to_vec()), "h", b"/new".to_vec(), vec![], p, 0).unwrap();
    e.set_host_path(b"/host/new".to_vec());
    e.set_old_host_path(b"/host/old".to_vec());
    match &e.data {
        EventData::File { file: FileData::Rename(RenameFileData { new, old }), .. } => {
            assert_eq!(new.host_file, b"/host/new".to_vec());
            assert_eq!(old.host_file, b"/host/old".to_vec());
        },
        _ => panic!("not a rename"),
    }

    let mut e = Event::new(EventTestData::Creation, "h", b"/c".to_vec(), vec![], p, 0).unwrap();
    e.set_old_host_path(b"/ignored".to_vec());
    e.set_host_path(b"/first".to_vec());
    e.set_host_path(b"/second".to_vec());
    assert_eq!(e.data, EventData::File { process: p, file: FileData::Creation(base(b"/c", b"/second")) });

    let mut e = Event::try_from_process(p, 3, "h").unwrap();
    let before = e.clone();
    e.set_host_path(b"/x".to_vec());
    e.set_old_host_path(b"/y".to_vec());
    assert_eq!(e.data, before.data);
    assert!(e.is_process_event());
    assert_eq!(e.get_inode(), None);
}

#[test]
fn raw_file_records() {
    let d = EventData::try_from_raw(&raw(EventType::FileActivityOpen)).unwrap();
    let expected_base = BaseFileData { filename: b"/tmp/a".to_vec(), host_file: vec![], inode: InodeKey { inode: 7, dev: 3 } };
    match &d {
        EventData::File { process, file: FileData::Open(b) } => {
            assert_eq!(*process, Process { upid: 42 });
            assert_eq!(b.filename, expected_base.filename);
            assert_eq!(b.inode, expected_base.inode);
        },
        _ => panic!("not an open"),
    }
    let d = EventData::try_from_raw(&raw(EventType::FileActivityChown)).unwrap();
    assert_eq!(
        d,
        EventData::File {
            process: Process { upid: 42 },
            file: FileData::Chown(ChownFileData { inner: expected_base.clone(), new_uid: 1, new_gid: 2, old_uid: 3, old_gid: 4 }),
        }
    );
    let d = EventData::try_from_raw(&raw(EventType::FileActivityChmod)).unwrap();
    assert_eq!(
        d,
        EventData::File {
            process: Process { upid: 42 },
            file: FileData::Chmod(ChmodFileData { inner: expected_base.clone(), new_mode: 0o644, old_mode: 0o600 }),
        }
    );
    let d = EventData::try_from_raw(&raw(EventType::FileActivityRename)).unwrap();
    match d {
        EventData::File { file: FileData::Rename(r), .. } => {
            assert_eq!(r.new.filename, b"/tmp/a".to_vec());
            assert_eq!(r.old.filename, b"/tmp/old".to_vec());
            assert_eq!(r.old.inode, InodeKey { inode: 9, dev: 3 });
        },
        _ => panic!("not a rename"),
    }
    let e = Event::try_from_raw(&raw(EventType::FileActivityUnlink), 100, "node").unwrap();
    assert_eq!(e.timestamp, 105);
    assert_eq!(e.hostname, "node");
    assert_eq!(e.get_inode(), Some(&InodeKey { inode: 7, dev: 3 }));
    let e = Event::try_from_raw(&raw(EventType::FileActivityCreation), 0, "n").unwrap();
    assert!(matches!(e.data, EventData::File { file: FileData::Creation(_), .. }));
}

#[test]
fn raw_process_and_network_records() {
    let p = Process { upid: 42 };
    assert_eq!(
        EventData::try_from_raw(&raw(EventType::ProcessFork)).unwrap(),
        EventData::Process(ProcessData::Fork(ProcessForkData { child: p }))
    );
    assert_eq!(
        EventData::try_from_raw(&raw(EventType::ProcessExec)).unwrap(),
        EventData::Process(ProcessData::Exec(ProcessExecData(p)))
    );
    assert_eq!(
        EventData::try_from_raw(&raw(EventType::ProcessExit)).unwrap(),
        EventData::Process(ProcessData::Exit(ProcessExitData(p)))
    );
    assert_eq!(
        EventData::try_from_raw(&raw(EventType::SocketListen)).unwrap(),
        EventData::Network {
            process: p,
            network: NetworkData::Listen(ListenData(SocketData { addr: IpAddr::V4(0x7f00_0001), port: 8080 })),
        }
    );
    assert_eq!(
        EventData::try_from_raw(&raw(EventType::SocketAccept)).unwrap(),
        EventData::Network {
            process: p,
            network: NetworkData::Accept(AcceptData {
                local: SocketData { addr: IpAddr::V4(0x0a00_0001), port: 443 },
                remote: SocketData { addr: IpAddr::V4(0x0a00_0002), port: 50000 },
            }),
        }
    );
    let mut connect = raw(EventType::SocketConnect);
    connect.network.family = 10;
    assert_eq!(
        EventData::try_from_raw(&connect).unwrap(),
        EventData::Network {
            process: p,
            network: NetworkData::Connect(ConnectData {
                local: SocketData { addr: IpAddr::V6(1), port: 1 },
                remote: SocketData { addr: IpAddr::V6(1), port: 2 },
            }),
        }
    );
    let e = Event::try_from_raw(&raw(EventType::SocketConnect), 0, "h").unwrap();
    assert_eq!(
        e.data,
        EventData::Network {
            process: p,
            network: NetworkData::Connect(ConnectData {
                local: SocketData { addr: IpAddr::V4(0), port: 1 },
                remote: SocketData { addr: IpAddr::V4(0), port: 2 },
            }),
        }
    );
    assert_eq!(EventData::try_from_process(p).unwrap(), EventData::Process(ProcessData::Proc(p)));
    let e = Event::try_from_process(p, 77, "h").unwrap();
    assert_eq!(e.timestamp, 77);
}

#[test]
fn raw_sockets_by_family() {
    let mut addr = [0u8; 16];
    addr[0] = 0x20;
    addr[1] = 0x01;
    addr[15] = 0x01;
    let v6 = SocketData::new(RawSocket { address: addr, port: 22 }, 10);
    assert_eq!(v6, SocketData { addr: IpAddr::V6(0x2001_0000_0000_0000_0000_0000_0000_0001), port: 22 });
    let v4 = SocketData::new(RawSocket { address: addr, port: 22 }, 2);
    assert_eq!(v4, SocketData { addr: IpAddr::V4(0x2001_0000), port: 22 });
    let mut net = raw(EventType::SocketListen).network;
    net.listen = RawSocket { address: addr, port: 9 };
    net.family = 10;
    let l = fact_core::event::socket::ListenData::new(&net);
    assert_eq!(l, fact_core::event::socket::ListenData { addr: IpAddr::V6(0x2001_0000_0000_0000_0000_0000_0000_0001), port: 9 });
    assert_eq!(ListenData::new(&net), ListenData(SocketData { addr: l.addr, port: 9 }));
}

#[test]
fn events_travel_to_the_wire_and_back() {
    let p = Process { upid: 8 };
    let events = vec![
        Event { timestamp: 1_700_000_000_000_000_001, hostname: "h1".to_string(), data: EventData::File { process: p, file: FileData::Open(base(b"/a", b"/h/a")) } },
        Event { timestamp: 2, hostname: "h2".to_string(), data: EventData::File { process: p, file: FileData::Rename(RenameFileData { new: base(b"/n", b""), old: base(b"/o", b"/ho") }) } },
        Event { timestamp: 3, hostname: "h3".to_string(), data: EventData::Process(ProcessData::Fork(ProcessForkData { child: p })) },
        Event {
            timestamp: 4,
            hostname: "h4".to_string(),
            data: EventData::Network {
                process: p,
                network: NetworkData::Accept(AcceptData {
                    local: SocketData { addr: IpAddr::V6(1), port: 1 },
                    remote: SocketData { addr: IpAddr::V4(0x0102_0304), port: 65535 },
                }),
            },
        },
        Event {
            timestamp: 5,
            hostname: "h5".to_string(),
            data: EventData::Network {
                process: p,
                network: NetworkData::Connect(ConnectData {
                    local: SocketData { addr: IpAddr::V4(0x0a00_0005), port: 40000 },
                    remote: SocketData { addr: IpAddr::V6(0x2001_0db8 << 96), port: 443 },
                }),
            },
        },
    ];
    for e in events {
        let back = Event::from_api(e.clone().to_api());
        assert_eq!(back.timestamp, e.timestamp);
        assert!(back == e);
    }
}

#[test]
fn wire_form_of_file_operations() {
    let p = Process { upid: 8 };
    let chmod = Event {
        timestamp: 1,
        hostname: "h".to_string(),
        data: EventData::File { process: p, file: FileData::Chmod(ChmodFileData { inner: base(b"/a\xff", b"/b"), new_mode: 0o700, old_mode: 0o600 }) },
    };
    let msg = chmod.clone().to_api();
    match msg.msg.clone().unwrap() {
        api::Msg::File(api::FileActivity { file: Some(api::File::Permission(pc)), process: Some(q)}) => {
            assert_eq!(q, p);
            assert_eq!(pc.mode, 0o700);
            let a = pc.activity.unwrap();
            assert_eq!(a.path, "/a\u{FFFD}");
            assert_eq!(a.host_path, "/b");
        },
        _ => panic!("not a permission change"),
    }
    // the old mode does not travel
    let back = Event::from_api(msg);
    match back.data {
        EventData::File { file: FileData::Chmod(c), .. } => assert_eq!((c.new_mode, c.old_mode), (0o700, 0)),
        _ => panic!("not a chmod"),
    }
    let chown = FileData::Chown(ChownFileData { inner: base(b"/a", b""), new_uid: 5, new_gid: 6, old_uid: 7, old_gid: 8 });
    match chown.to_api() {
        api::File::Ownership(o) => {
            assert_eq!((o.uid, o.gid), (5, 6));
            assert_eq!(o.username, "");
            assert_eq!(o.group, "");
        },
        _ => panic!("not an ownership change"),
    }
    // the mode and the port are cut to 16 bits
    let f = FileData::from_api(api::File::Permission(api::FilePermissionChange {
        activity: Some(api::FileActivityBase { path: "/p".to_string(), host_path: String::new() }),
        mode: 0x1_0123,
    }));
    assert!(matches!(f, FileData::Chmod(ChmodFileData { new_mode: 0x0123, .. })));
    let s = SocketData::from_api(api::Socket { address: "::ffff:10.0.0.1".to_string(), port: 0x1_0050 });
    assert_eq!(s, SocketData { addr: IpAddr::V6(0xffff_0a00_0001), port: 0x50 });
    let s = SocketData { addr: IpAddr::V4(0x0a00_0001), port: 80 }.to_api();
    assert_eq!(s.address, "10.0.0.1");
    assert_eq!(s.port, 80);
}

#[test]
fn socket_kind_wire_form() {
    let s = Sock::Listen(Listen { addr: IpAddr::V4(0x7f00_0001), port: 80 });
    let net = s.clone().to_api();
    match &net {
        api::Net::Listen(sock) => {
            assert_eq!(sock.address, "127.0.0.1");
            assert_eq!(sock.port, 80);
        },
        _ => panic!("not a listen"),
    }
    assert_eq!(Sock::from_api(net), s);
}

#[test]
fn equality_ignores_time_and_inodes() {
    let p = Process { upid: 1 };
    let a = BaseFileData { filename: b"/a".to_vec(), host_file: b"/h".to_vec(), inode: InodeKey { inode: 1, dev: 2 } };
    let b = BaseFileData { filename: b"/a".to_vec(), host_file: b"/h".to_vec(), inode: InodeKey { inode: 3, dev: 4 } };
    let c = BaseFileData { filename: b"/a".to_vec(), host_file: b"/x".to_vec(), inode: InodeKey { inode: 1, dev: 2 } };
    assert!(a == b);
    assert!(a != c);
    let e1 = Event { timestamp: 1, hostname: "h".to_string(), data: EventData::File { process: p, file: FileData::Open(a) } };
    let e2 = Event { timestamp: 2, hostname: "h".to_string(), data: EventData::File { process: p, file: FileData::Open(b) } };
    let e3 = Event { timestamp: 2, hostname: "g".to_string(), data: e2.data.clone() };
    let e4 = Event { timestamp: 2, hostname: "h".to_string(), data: EventData::File { process: p, file: FileData::Unlink(c) } };
    assert!(e1 == e2);
    assert!(e2 != e3);
    assert!(e2 != e4);
}

#[test]
fn process_table_follows_process_steps() {
    let p = Process { upid: u64::MAX };
    let ev = |data| Event { timestamp: 0, hostname: String::new(), data };
    assert_eq!(plan_process_update(&ev(EventData::Process(ProcessData::Fork(ProcessForkData { child: p })))), Some(ProcessTableAction::Insert(p)));
    assert_eq!(plan_process_update(&ev(EventData::Process(ProcessData::Exec(ProcessExecData(p))))), Some(ProcessTableAction::Upsert { key: -1, process: p }));
    assert_eq!(plan_process_update(&ev(EventData::Process(ProcessData::Exit(ProcessExitData(Process { upid: 5 }))))), Some(ProcessTableAction::Delete { key: 5 }));
    assert_eq!(plan_process_update(&ev(EventData::Process(ProcessData::Proc(p)))), Some(ProcessTableAction::Upsert { key: -1, process: p }));
    assert_eq!(plan_process_update(&ev(EventData::File { process: p, file: FileData::Open(base(b"/a", b"")) })), None);
}

#[test]
fn outgoing_connection_wire_form() {
    let c = ConnectData {
        local: SocketData { addr: IpAddr::V4(0xc0a8_0001), port: 51000 },
        remote: SocketData { addr: IpAddr::V6(1), port: 53 },
    };
    match NetworkData::Connect(c).to_api() {
        api::Net::Connect(api::Connect { local: Some(l), remote: Some(r) }) => {
            assert_eq!((l.address.as_str(), l.port), ("192.168.0.1", 51000));
            assert_eq!((r.address.as_str(), r.port), ("::1", 53));
        },
        _ => panic!("not an outgoing connection"),
    }
    let back = NetworkData::from_api(api::Net::Connect(api::Connect {
        local: Some(api::Socket { address: "10.1.2.3".to_string(), port: 1 }),
        remote: Some(api::Socket { address: "fe80::2".to_string(), port: 2 }),
    }));
    assert_eq!(
        back,
        NetworkData::Connect(ConnectData {
            local: SocketData { addr: IpAddr::V4(0x0a01_0203), port: 1 },
            remote: SocketData { addr: IpAddr::V6(0xfe80_0000_0000_0000_0000_0000_0000_0002), port: 2 },
        })
    );
}
