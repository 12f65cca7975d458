use nix::errno::{EINVAL, ENAMETOOLONG};
use nix::socket::addr::{
    AddressFamily, InetAddr, IpAddr, SockAddr, UnixAddr, AF_INET, AF_INET6, AF_UNIX,
    UNIX_PATH_MAX,
};
use nix::socket::multicast::ip_mreq;
use nix::NixError;
use std::collections::hash_map::DefaultHasher;
use std::hash::{Hash, Hasher};

fn hash_of<T: Hash>(v: &T) -> u64 {
    let mut h = DefaultHasher::new();
    v.hash(&mut h);
    h.finish()
}

fn text(v: Vec<u8>) -> String {
    String::from_utf8(v).unwrap()
}

#[test]
fn ipv4_round_trip_boundaries() {
    for ip in [[0u8, 0, 0, 0], [255, 255, 255, 255], [1, 2, 3, 4], [127, 0, 0, 1]] {
        for port in [0u16, 1, 80, 255, 256, 65535] {
            let a = InetAddr::new(IpAddr::V4(ip), port);
            assert_eq!(a.ip(), IpAddr::V4(ip));
            assert_eq!(a.port(), port);
        }
    }
}

#[test]
fn ipv6_round_trip_boundaries() {
    let cases = [
        [0u16; 8],
        [0xffff; 8],
        [0, 0, 0, 0, 0, 0, 0, 1],
        [0x2001, 0xdb8, 0, 0, 0x1, 0xff00, 0x42, 0x8329],
        [0x0102, 0x0304, 0x0506, 0x0708, 0x090a, 0x0b0c, 0x0d0e, 0x0f10],
    ];
    for s in cases {
        for port in [0u16, 443, 65535] {
            let a = InetAddr::new(IpAddr::V6(s), port);
            assert_eq!(a.ip(), IpAddr::V6(s));
            assert_eq!(a.port(), port);
        }
    }
}

#[test]
fn fields_are_in_network_order() {
    match InetAddr::new(IpAddr::V4([10, 0, 0, 1]), 0x1234) {
        InetAddr::V4(sa) => {
            assert_eq!(sa.sin_family(), AF_INET);
            assert_eq!(sa.sin_port(), [0x12, 0x34]);
            assert_eq!(sa.sin_addr(), [10, 0, 0, 1]);
        }
        InetAddr::V6(_) => panic!("expected an IPv4 address"),
    }
    match InetAddr::new(IpAddr::V6([0x2001, 0xdb8, 0, 0, 0, 0, 0, 1]), 80) {
        InetAddr::V6(sa) => {
            assert_eq!(sa.sin6_family(), AF_INET6);
            assert_eq!(sa.sin6_port(), [0, 80]);
            assert_eq!(sa.sin6_addr()[0..4], [0x20, 0x01, 0x0d, 0xb8]);
            assert_eq!(sa.sin6_addr()[15], 1);
            assert_eq!(sa.sin6_flowinfo(), 0);
            assert_eq!(sa.sin6_scope_id(), 0);
        }
        InetAddr::V4(_) => panic!("expected an IPv6 address"),
    }
}

#[test]
fn unix_round_trip() {
    let a = UnixAddr::new(b"/tmp/sock").unwrap();
    assert_eq!(a.path(), b"/tmp/sock".to_vec());
    assert_eq!(a.sun_family(), AF_UNIX);
    assert_eq!(a.sun_path().len(), UNIX_PATH_MAX);
    let empty = UnixAddr::new(b"").unwrap();
    assert_eq!(empty.path(), Vec::<u8>::new());
    let longest = vec![b'a'; UNIX_PATH_MAX - 1];
    assert_eq!(UnixAddr::new(&longest).unwrap().path(), longest);
    let fits = vec![b'b'; UNIX_PATH_MAX - 2];
    assert_eq!(UnixAddr::new(&fits).unwrap().path(), fits);
}

#[test]
fn unix_path_too_long() {
    let too_long = vec![b'a'; UNIX_PATH_MAX];
    assert_eq!(UnixAddr::new(&too_long).err(), Some(NixError::Sys(ENAMETOOLONG)));
    let much_too_long = vec![b'a'; 4 * UNIX_PATH_MAX];
    assert_eq!(SockAddr::new_unix(&much_too_long).err(), Some(NixError::Sys(ENAMETOOLONG)));
}

#[test]
fn unix_path_with_nul_is_invalid() {
    assert_eq!(UnixAddr::new(b"/tmp/a\0b").err(), Some(NixError::InvalidPath));
    assert_eq!(SockAddr::new_unix(b"\0").err(), Some(NixError::InvalidPath));
}

#[test]
fn equal_inputs_give_equal_addresses_and_hashes() {
    let a = SockAddr::new_inet(InetAddr::new(IpAddr::V4([192, 168, 1, 7]), 8080));
    let b = SockAddr::new_inet(InetAddr::new(IpAddr::V4([192, 168, 1, 7]), 8080));
    assert!(a == b);
    assert_eq!(hash_of(&a), hash_of(&b));
    let c = SockAddr::new_inet(InetAddr::new(IpAddr::V6([0xfe80, 0, 0, 0, 0, 0, 0, 9]), 22));
    let d = SockAddr::new_inet(InetAddr::new(IpAddr::V6([0xfe80, 0, 0, 0, 0, 0, 0, 9]), 22));
    assert!(c == d);
    assert_eq!(hash_of(&c), hash_of(&d));
    let u = SockAddr::new_unix(b"/run/x.sock").unwrap();
    let v = SockAddr::new_unix(b"/run/x.sock").unwrap();
    assert!(u == v);
    assert_eq!(hash_of(&u), hash_of(&v));
    assert!(u.clone() == u);
}

#[test]
fn different_addresses_are_unequal() {
    let a = InetAddr::new(IpAddr::V4([1, 2, 3, 4]), 80);
    assert!(a != InetAddr::new(IpAddr::V4([1, 2, 3, 4]), 81));
    assert!(a != InetAddr::new(IpAddr::V4([1, 2, 3, 5]), 80));
    assert!(a != InetAddr::new(IpAddr::V6([0, 0, 0, 0, 0, 0xffff, 0x0102, 0x0304]), 80));
    let u = SockAddr::new_unix(b"/tmp/a").unwrap();
    assert!(u != SockAddr::new_unix(b"/tmp/ab").unwrap());
    assert!(u != SockAddr::new_inet(a));
}

#[test]
fn families() {
    let v4 = SockAddr::new_inet(InetAddr::new(IpAddr::V4([1, 2, 3, 4]), 1));
    let v6 = SockAddr::new_inet(InetAddr::new(IpAddr::V6([0; 8]), 1));
    let un = SockAddr::new_unix(b"/x").unwrap();
    assert_eq!(v4.family(), AddressFamily::Inet);
    assert_eq!(v6.family(), AddressFamily::Inet6);
    assert_eq!(un.family(), AddressFamily::Unix);
    assert_eq!(AddressFamily::Unix.as_raw(), 1);
    assert_eq!(AddressFamily::Inet.as_raw(), 2);
    assert_eq!(AddressFamily::Inet6.as_raw(), 10);
    assert_eq!(v4.socklen(), 16);
    assert_eq!(v6.socklen(), 28);
    assert_eq!(un.socklen(), 110);
}

#[test]
fn display_forms() {
    let v4 = SockAddr::new_inet(InetAddr::new(IpAddr::V4([1, 2, 3, 4]), 80));
    assert_eq!(v4.to_str(), "1.2.3.4:80");
    let v6 = SockAddr::new_inet(InetAddr::new(IpAddr::V6([0, 0, 0, 0, 0, 0, 0, 1]), 443));
    assert_eq!(v6.to_str(), "[::1]:443");
    let un = SockAddr::new_unix(b"/tmp/sock").unwrap();
    assert_eq!(un.to_str(), "/tmp/sock");
}

#[test]
fn ipv6_text_forms() {
    let cases: [([u16; 8], &str); 8] = [
        ([0; 8], "[::]:0"),
        ([0x2001, 0xdb8, 0, 0, 0x1, 0xff00, 0x42, 0x8329], "[2001:db8::1:ff00:42:8329]:0"),
        ([1, 0, 0, 2, 0, 0, 0, 3], "[1:0:0:2::3]:0"),
        ([1, 0, 2, 0, 3, 0, 4, 0], "[1:0:2:0:3:0:4:0]:0"),
        ([1, 0, 0, 2, 3, 0, 0, 4], "[1::2:3:0:0:4]:0"),
        ([0, 0, 0, 0, 0, 0xffff, 0xc0a8, 0x0001], "[::ffff:192.168.0.1]:0"),
        ([0xfe80, 0, 0, 0, 0, 0, 0, 0], "[fe80::]:0"),
        ([0xabcd, 0xef01, 0x2345, 0x6789, 0xabcd, 0xef01, 0x2345, 0x6789], "[abcd:ef01:2345:6789:abcd:ef01:2345:6789]:0"),
    ];
    for (s, want) in cases {
        let a = InetAddr::new(IpAddr::V6(s), 0);
        assert_eq!(a.to_str(), want);
        assert_eq!(text(a.text()), want);
    }
}

#[test]
fn ipv4_text_forms() {
    assert_eq!(InetAddr::new(IpAddr::V4([0, 0, 0, 0]), 0).to_str(), "0.0.0.0:0");
    assert_eq!(
        InetAddr::new(IpAddr::V4([255, 255, 255, 255]), 65535).to_str(),
        "255.255.255.255:65535"
    );
    assert_eq!(text(InetAddr::new(IpAddr::V4([10, 20, 100, 9]), 1000).text()), "10.20.100.9:1000");
}

#[test]
fn unix_text_is_lossy() {
    let a = UnixAddr::new(b"/tmp/\xffx").unwrap();
    assert_eq!(a.to_str(), "/tmp/\u{fffd}x");
}

#[test]
fn multicast_group_must_be_ipv4() {
    let v6 = InetAddr::new(IpAddr::V6([0xff02, 0, 0, 0, 0, 0, 0, 1]), 0);
    let v4 = InetAddr::new(IpAddr::V4([224, 0, 0, 1]), 0);
    assert_eq!(ip_mreq::new(&v6, None).err(), Some(NixError::Sys(EINVAL)));
    assert_eq!(ip_mreq::new(&v4, Some(&v6)).err(), Some(NixError::invalid_argument()));
}

#[test]
fn multicast_interface_defaults_to_any() {
    let group = InetAddr::new(IpAddr::V4([224, 0, 0, 251]), 5353);
    let req = ip_mreq::new(&group, None).unwrap();
    assert_eq!(req.imr_multiaddr, [224, 0, 0, 251]);
    assert_eq!(req.imr_interface, [0, 0, 0, 0]);
    let iface = InetAddr::new(IpAddr::V4([192, 168, 1, 20]), 0);
    let req = ip_mreq::new(&group, Some(&iface)).unwrap();
    assert_eq!(req.imr_multiaddr, [224, 0, 0, 251]);
    assert_eq!(req.imr_interface, [192, 168, 1, 20]);
}
