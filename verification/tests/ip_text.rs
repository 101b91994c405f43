use fact_core::ip::{ip_to_string, parse_ip_str, IpAddr};

fn v6(groups: [u16; 8]) -> IpAddr {
    let mut v: u128 = 0;
    for g in groups {
        v = (v << 16) | g as u128;
    }
    IpAddr::V6(v)
}

#[test]
fn ipv4_text() {
    assert_eq!(ip_to_string(IpAddr::V4(0x7f00_0001)), "127.0.0.1");
    assert_eq!(ip_to_string(IpAddr::V4(0)), "0.0.0.0");
    assert_eq!(ip_to_string(IpAddr::V4(0xffff_ffff)), "255.255.255.255");
    assert_eq!(ip_to_string(IpAddr::V4(0x0a00_640a)), "10.0.100.10");
}

#[test]
fn ipv6_text() {
    assert_eq!(ip_to_string(v6([0, 0, 0, 0, 0, 0, 0, 1])), "::1");
    assert_eq!(ip_to_string(v6([0; 8])), "::");
    assert_eq!(ip_to_string(v6([0x2001, 0xdb8, 0, 0, 0, 0, 0, 1])), "2001:db8::1");
    assert_eq!(ip_to_string(v6([1, 2, 3, 4, 5, 6, 7, 8])), "1:2:3:4:5:6:7:8");
    assert_eq!(ip_to_string(v6([1, 0, 2, 3, 4, 5, 6, 7])), "1:0:2:3:4:5:6:7");
    // the longest run of zeros is written as `::`
    assert_eq!(ip_to_string(v6([1, 0, 0, 1, 0, 0, 0, 1])), "1:0:0:1::1");
    // of two equally long runs, the first
    assert_eq!(ip_to_string(v6([1, 0, 0, 2, 0, 0, 3, 4])), "1::2:0:0:3:4");
    assert_eq!(ip_to_string(v6([1, 0, 0, 0, 0, 0, 0, 0])), "1::");
    assert_eq!(ip_to_string(v6([0xfe80, 0, 0, 0, 0xabcd, 0xef, 0x1234, 0xffff])), "fe80::abcd:ef:1234:ffff");
    // IPv4-mapped addresses
    assert_eq!(ip_to_string(v6([0, 0, 0, 0, 0, 0xffff, 0xc0a8, 0x0101])), "::ffff:192.168.1.1");
}

#[test]
fn ip_parse() {
    assert_eq!(parse_ip_str("127.0.0.1"), Some(IpAddr::V4(0x7f00_0001)));
    assert_eq!(parse_ip_str("::1"), Some(v6([0, 0, 0, 0, 0, 0, 0, 1])));
    assert_eq!(parse_ip_str("::"), Some(v6([0; 8])));
    assert_eq!(parse_ip_str("2001:DB8::0001"), Some(v6([0x2001, 0xdb8, 0, 0, 0, 0, 0, 1])));
    assert_eq!(parse_ip_str("1:2:3:4:5:6:7:8"), Some(v6([1, 2, 3, 4, 5, 6, 7, 8])));
    assert_eq!(parse_ip_str("::ffff:1.2.3.4"), Some(v6([0, 0, 0, 0, 0, 0xffff, 0x0102, 0x0304])));
    assert_eq!(parse_ip_str("1:2:3:4:5:6:1.2.3.4"), Some(v6([1, 2, 3, 4, 5, 6, 0x0102, 0x0304])));
    assert_eq!(parse_ip_str("1:2:3:4:5:6:7::"), Some(v6([1, 2, 3, 4, 5, 6, 7, 0])));
    assert_eq!(parse_ip_str("::2:3:4:5:6:7:8"), Some(v6([0, 2, 3, 4, 5, 6, 7, 8])));
}

#[test]
fn ip_parse_rejects() {
    for bad in [
        "", "1.2.3", "1.2.3.4.5", "1.2.3.256", "01.2.3.4", "1.2.3.4 ", "1::2::3", ":::", ":1::",
        "1:2:3:4:5:6:7", "1:2:3:4:5:6:7:8:9", "1:2:3:4:5:6:7:8::", "::1:2:3:4:5:6:7:8",
        "12345::", "1.2.3.4::", "::1.2.3", "1:2:3:4:5:6:7:1.2.3.4", "g::", "::01.2.3.4",
    ] {
        assert_eq!(parse_ip_str(bad), None, "accepted {:?}", bad);
    }
}

#[test]
fn ip_text_reads_back() {
    let addrs = [
        IpAddr::V4(0xc0a8_0001),
        v6([0, 0, 0, 0, 0, 0, 0, 1]),
        v6([1, 0, 0, 2, 0, 0, 3, 4]),
        v6([0, 0, 0, 0, 0, 0xffff, 0x0a00, 0x0001]),
        v6([0xffff; 8]),
    ];
    for a in addrs {
        assert_eq!(parse_ip_str(&ip_to_string(a)), Some(a));
    }
}
