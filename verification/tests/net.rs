use nordvpn_viking::net::{IpAddr, Ipv4Addr, Ipv6Addr};

fn v6(groups: [u16; 8]) -> Ipv6Addr {
    Ipv6Addr {
        a: groups[0],
        b: groups[1],
        c: groups[2],
        d: groups[3],
        e: groups[4],
        f: groups[5],
        g: groups[6],
        h: groups[7],
    }
}

#[test]
fn dotted_addresses_are_read() {
    assert_eq!(IpAddr::parse("192.0.2.17"), Some(IpAddr::V4(Ipv4Addr::new(192, 0, 2, 17))));
    assert_eq!(IpAddr::parse("0.0.0.0"), Some(IpAddr::V4(Ipv4Addr::new(0, 0, 0, 0))));
    assert_eq!(
        IpAddr::parse("255.255.255.255"),
        Some(IpAddr::V4(Ipv4Addr::new(255, 255, 255, 255)))
    );
}

#[test]
fn dotted_addresses_that_are_none() {
    for text in [
        "", "1", "1.2.3", "1.2.3.4.5", "256.1.1.1", "1.2.3.256", "01.2.3.4", "1.2.3.04", "1..3.4",
        ".1.2.3", "1.2.3.", "1.2.3.4 ", " 1.2.3.4", "a.b.c.d", "1.2.3.1000", "+1.2.3.4",
        "１.2.3.4",
    ] {
        assert_eq!(IpAddr::parse(text), None, "{:?}", text);
    }
}

#[test]
fn addresses_with_colons_are_read() {
    assert_eq!(
        IpAddr::parse("2001:db8:0:0:0:8a2e:370:7334"),
        Some(IpAddr::V6(v6([0x2001, 0xdb8, 0, 0, 0, 0x8a2e, 0x370, 0x7334])))
    );
    assert_eq!(
        IpAddr::parse("2001:0DB8::8A2E:0370:7334"),
        Some(IpAddr::V6(v6([0x2001, 0xdb8, 0, 0, 0, 0x8a2e, 0x370, 0x7334])))
    );
    assert_eq!(IpAddr::parse("::"), Some(IpAddr::V6(v6([0; 8]))));
    assert_eq!(IpAddr::parse("::1"), Some(IpAddr::V6(v6([0, 0, 0, 0, 0, 0, 0, 1]))));
    assert_eq!(IpAddr::parse("1::"), Some(IpAddr::V6(v6([1, 0, 0, 0, 0, 0, 0, 0]))));
    assert_eq!(
        IpAddr::parse("1:2:3:4:5:6:7::"),
        Some(IpAddr::V6(v6([1, 2, 3, 4, 5, 6, 7, 0])))
    );
    assert_eq!(
        IpAddr::parse("::2:3:4:5:6:7:8"),
        Some(IpAddr::V6(v6([0, 2, 3, 4, 5, 6, 7, 8])))
    );
    assert_eq!(
        IpAddr::parse("ffff:FFFF:0:00:000:0000:a:F"),
        Some(IpAddr::V6(v6([0xffff, 0xffff, 0, 0, 0, 0, 0xa, 0xf])))
    );
}

#[test]
fn addresses_with_a_dotted_end_are_read() {
    assert_eq!(
        IpAddr::parse("::ffff:192.0.2.1"),
        Some(IpAddr::V6(v6([0, 0, 0, 0, 0, 0xffff, 0xc000, 0x0201])))
    );
    assert_eq!(
        IpAddr::parse("1:2:3:4:5:6:1.2.3.4"),
        Some(IpAddr::V6(v6([1, 2, 3, 4, 5, 6, 0x0102, 0x0304])))
    );
    assert_eq!(
        IpAddr::parse("::1.2.3.4"),
        Some(IpAddr::V6(v6([0, 0, 0, 0, 0, 0, 0x0102, 0x0304])))
    );
    assert_eq!(
        IpAddr::parse("64:ff9b::255.255.255.255"),
        Some(IpAddr::V6(v6([0x64, 0xff9b, 0, 0, 0, 0, 0xffff, 0xffff])))
    );
    assert_eq!(
        IpAddr::parse("1:2:3:4:5::1.2.3.4"),
        Some(IpAddr::V6(v6([1, 2, 3, 4, 5, 0, 0x0102, 0x0304])))
    );
}

#[test]
fn addresses_with_colons_that_are_none() {
    for text in [
        ":", ":::", "1", "1:2", "1:2:3:4:5:6:7", "1:2:3:4:5:6:7:8:9", "1:2:3:4:5:6:7:8::", "::1:2:3:4:5:6:7:8",
        "1::2::3", "12345::", "g::", "1:2:3:4:5:6:7:", ":1:2:3:4:5:6:7", "1:::2",
        "1:2:3:4:5:6:7:8 ", "::1 ", "1.2.3.4::", "1:2:3:4:5:6:7:1.2.3.4", "::1.2.3.4:5",
        "1:2:3:4:5:6:7::1.2.3.4", "::ffff:1.2.3", "::ffff:01.2.3.4", "::ffff:1.2.3.256",
        "1:2:3:4:5:1.2.3.4", "1.2.3.4:1:2:3:4:5:6", "::1.2.3.4.5",
    ] {
        assert_eq!(IpAddr::parse(text), None, "{:?}", text);
    }
}

#[test]
fn dotted_addresses_are_written() {
    assert_eq!(Ipv4Addr::new(192, 0, 2, 17).to_string(), "192.0.2.17");
    assert_eq!(Ipv4Addr::new(0, 0, 0, 0).to_string(), "0.0.0.0");
    assert_eq!(IpAddr::V4(Ipv4Addr::new(255, 100, 10, 1)).to_string(), "255.100.10.1");
}

#[test]
fn addresses_with_colons_are_written() {
    assert_eq!(v6([0x2001, 0xdb8, 0, 0, 0, 0x8a2e, 0x370, 0x7334]).to_string(), "2001:db8::8a2e:370:7334");
    assert_eq!(v6([0; 8]).to_string(), "::");
    assert_eq!(v6([0, 0, 0, 0, 0, 0, 0, 1]).to_string(), "::1");
    assert_eq!(v6([1, 0, 0, 0, 0, 0, 0, 0]).to_string(), "1::");
    assert_eq!(v6([1, 2, 3, 4, 5, 6, 7, 8]).to_string(), "1:2:3:4:5:6:7:8");
    assert_eq!(v6([1, 0, 3, 4, 5, 6, 7, 8]).to_string(), "1:0:3:4:5:6:7:8");
    assert_eq!(v6([1, 0, 0, 2, 0, 0, 0, 3]).to_string(), "1:0:0:2::3");
    assert_eq!(v6([1, 0, 0, 2, 3, 0, 0, 4]).to_string(), "1::2:3:0:0:4");
    assert_eq!(v6([0xabcd, 0xef01, 0x10, 0x100, 0x1000, 0xffff, 0, 0]).to_string(), "abcd:ef01:10:100:1000:ffff::");
    assert_eq!(IpAddr::V6(v6([0xfe80, 0, 0, 0, 0, 0, 0, 0x1])).to_string(), "fe80::1");
    assert_eq!(v6([8, 7, 6, 5, 4, 3, 2, 1]).segments(), vec![8, 7, 6, 5, 4, 3, 2, 1]);
    assert_eq!(v6([0, 0, 0, 0, 0, 0xffff, 0xc000, 0x0201]).to_string(), "::ffff:192.0.2.1");
    assert_eq!(v6([0, 0, 0, 0, 0, 0xffff, 0, 0]).to_string(), "::ffff:0.0.0.0");
    assert_eq!(v6([0, 0, 0, 0, 0, 0xffff, 0xffff, 0xffff]).to_string(), "::ffff:255.255.255.255");
    assert_eq!(v6([0, 0, 0, 0, 0, 0, 0x0102, 0x0304]).to_string(), "::102:304");
    assert_eq!(v6([0, 0, 0, 0, 1, 0xffff, 0x0102, 0x0304]).to_string(), "::1:ffff:102:304");
}

#[test]
fn what_is_written_is_read_back() {
    let samples = [
        [0u16; 8],
        [0, 0, 0, 0, 0, 0, 0, 1],
        [1, 0, 0, 0, 0, 0, 0, 0],
        [1, 0, 0, 2, 0, 0, 0, 3],
        [1, 0, 0, 2, 3, 0, 0, 4],
        [0, 1, 0, 1, 0, 1, 0, 1],
        [0xffff; 8],
        [0, 0, 1, 1, 1, 1, 0, 0],
        [0x2001, 0xdb8, 0, 0, 0, 0x8a2e, 0x370, 0x7334],
        [0, 0, 0, 0, 0, 0xffff, 0xc000, 0x0201],
        [0, 0, 0, 0, 0, 0xffff, 0, 0],
        [0, 0, 0, 0, 0, 0, 0x0102, 0x0304],
    ];
    for groups in samples {
        let ip = IpAddr::V6(v6(groups));
        assert_eq!(IpAddr::parse(&ip.to_string()), Some(ip), "{:?}", groups);
    }
    for octets in [[0u8, 0, 0, 0], [1, 2, 3, 4], [255, 255, 255, 255], [10, 0, 100, 9]] {
        let ip = IpAddr::V4(Ipv4Addr::new(octets[0], octets[1], octets[2], octets[3]));
        assert_eq!(IpAddr::parse(&ip.to_string()), Some(ip), "{:?}", octets);
    }
}
