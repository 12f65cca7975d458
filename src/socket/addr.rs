//! IPv4, IPv6 and Unix-domain socket addresses. Each is held in the shape of
//! the kernel's structure, with ports and addresses as bytes in network order.
use vstd::prelude::*;

use crate::errno::ENAMETOOLONG;
use crate::socket::text::{
    decimal, ipv4_text, ipv6_text, lossy_string, push_decimal, push_ipv4, push_ipv6, utf8_lossy,
    COLON,
};
use crate::{NixError, NixResult};

verus! {

pub const AF_UNIX: u16 = 1;
pub const AF_INET: u16 = 2;
pub const AF_INET6: u16 = 10;

/// Capacity of the path buffer of a Unix-domain address, terminator included.
pub const UNIX_PATH_MAX: usize = 108;

#[derive(Clone, Copy, Debug, PartialEq, Eq, Structural, Hash)]
pub enum AddressFamily {
    Unix,
    Inet,
    Inet6,
}

impl AddressFamily {
    pub open spec fn spec_raw(self) -> u16 {
        match self {
            AddressFamily::Unix => AF_UNIX,
            AddressFamily::Inet => AF_INET,
            AddressFamily::Inet6 => AF_INET6,
        }
    }

    /// The family tag that the kernel's structures carry.
    pub fn as_raw(self) -> (r: u16)
        ensures
            r == self.spec_raw(),
    {
        match self {
            AddressFamily::Unix => AF_UNIX,
            AddressFamily::Inet => AF_INET,
            AddressFamily::Inet6 => AF_INET6,
        }
    }
}

/// An IP address: four octets, or eight 16-bit segments.
#[derive(Clone, Copy, Debug, PartialEq, Eq, Hash)]
pub enum IpAddr {
    V4([u8; 4]),
    V6([u16; 8]),
}

/// The high byte of a 16-bit value.
pub open spec fn hi(v: u16) -> u8 {
    (v / 256) as u8
}

/// The low byte of a 16-bit value.
pub open spec fn lo(v: u16) -> u8 {
    (v % 256) as u8
}

/// The 16-bit value whose big-endian bytes are `h` and `l`.
pub open spec fn be16(h: u8, l: u8) -> u16 {
    (h * 256 + l) as u16
}

/// The big-endian bytes of eight segments.
pub open spec fn segment_bytes(s: Seq<u16>) -> Seq<u8> {
    Seq::new(16, |i: int| if i % 2 == 0 { hi(s[i / 2]) } else { lo(s[i / 2]) })
}

fn split16(v: u16) -> (r: (u8, u8))
    ensures
        r.0 == hi(v),
        r.1 == lo(v),
        be16(r.0, r.1) == v,
{
    ((v / 256) as u8, (v % 256) as u8)
}

fn join16(h: u8, l: u8) -> (r: u16)
    ensures
        r == be16(h, l),
        hi(r) == h,
        lo(r) == l,
{
    (h as u16) * 256 + (l as u16)
}

/// The kernel's IPv4 socket address.
#[derive(Clone, Copy, Debug, PartialEq, Eq, Hash)]
pub struct SockaddrIn {
    sin_family: u16,
    sin_port: [u8; 2],
    sin_addr: [u8; 4],
    sin_zero: [u8; 8],
}

/// The kernel's IPv6 socket address.
#[derive(Clone, Copy, Debug, PartialEq, Eq, Hash)]
pub struct SockaddrIn6 {
    sin6_family: u16,
    sin6_port: [u8; 2],
    sin6_flowinfo: u32,
    sin6_addr: [u8; 16],
    sin6_scope_id: u32,
}

impl SockaddrIn {
    pub closed spec fn wf(&self) -> bool {
        &&& self.sin_family == AF_INET
        &&& forall|i: int| 0 <= i < 8 ==> self.sin_zero@[i] == 0
    }

    pub closed spec fn spec_port_bytes(&self) -> Seq<u8> {
        self.sin_port@
    }

    pub closed spec fn spec_addr_bytes(&self) -> Seq<u8> {
        self.sin_addr@
    }

    pub fn sin_family(&self) -> (r: u16)
        requires
            self.wf(),
        ensures
            r == AF_INET,
    {
        self.sin_family
    }

    /// The port, in network byte order.
    pub fn sin_port(&self) -> (r: [u8; 2])
        ensures
            r@ == self.spec_port_bytes(),
    {
        self.sin_port
    }

    /// The address, in network byte order.
    pub fn sin_addr(&self) -> (r: [u8; 4])
        ensures
            r@ == self.spec_addr_bytes(),
    {
        self.sin_addr
    }
}

impl SockaddrIn6 {
    pub closed spec fn wf(&self) -> bool {
        self.sin6_family == AF_INET6
    }

    pub closed spec fn spec_port_bytes(&self) -> Seq<u8> {
        self.sin6_port@
    }

    pub closed spec fn spec_addr_bytes(&self) -> Seq<u8> {
        self.sin6_addr@
    }

    pub closed spec fn spec_flowinfo(&self) -> u32 {
        self.sin6_flowinfo
    }

    pub closed spec fn spec_scope_id(&self) -> u32 {
        self.sin6_scope_id
    }

    pub fn sin6_family(&self) -> (r: u16)
        requires
            self.wf(),
        ensures
            r == AF_INET6,
    {
        self.sin6_family
    }

    /// The port, in network byte order.
    pub fn sin6_port(&self) -> (r: [u8; 2])
        ensures
            r@ == self.spec_port_bytes(),
    {
        self.sin6_port
    }

    pub fn sin6_flowinfo(&self) -> (r: u32)
        ensures
            r == self.spec_flowinfo(),
    {
        self.sin6_flowinfo
    }

    /// The address, in network byte order.
    pub fn sin6_addr(&self) -> (r: [u8; 16])
        ensures
            r@ == self.spec_addr_bytes(),
    {
        self.sin6_addr
    }

    pub fn sin6_scope_id(&self) -> (r: u32)
        ensures
            r == self.spec_scope_id(),
    {
        self.sin6_scope_id
    }
}

/// An internet socket address: an IP address and a port.
#[derive(Clone, Copy, Debug, Hash)]
pub enum InetAddr {
    V4(SockaddrIn),
    V6(SockaddrIn6),
}

impl InetAddr {
    pub open spec fn wf(&self) -> bool {
        match self {
            InetAddr::V4(sa) => sa.wf(),
            InetAddr::V6(sa) => sa.wf(),
        }
    }

    /// The port, in host order.
    pub open spec fn spec_port(&self) -> u16 {
        match self {
            InetAddr::V4(sa) => be16(sa.spec_port_bytes()[0], sa.spec_port_bytes()[1]),
            InetAddr::V6(sa) => be16(sa.spec_port_bytes()[0], sa.spec_port_bytes()[1]),
        }
    }

    /// The bytes of the address, in network order.
    pub open spec fn spec_addr_bytes(&self) -> Seq<u8> {
        match self {
            InetAddr::V4(sa) => sa.spec_addr_bytes(),
            InetAddr::V6(sa) => sa.spec_addr_bytes(),
        }
    }

    /// The IP address this socket address holds.
    pub open spec fn spec_ip_is(&self, ip: IpAddr) -> bool {
        match (self, ip) {
            (InetAddr::V4(sa), IpAddr::V4(o)) => sa.spec_addr_bytes() == o@,
            (InetAddr::V6(sa), IpAddr::V6(s)) => sa.spec_addr_bytes() == segment_bytes(s@),
            _ => false,
        }
    }

    /// The equality of internet addresses: family, port and address, and for
    /// IPv6 also the flow information and scope; never the padding.
    pub open spec fn same_as(&self, other: &InetAddr) -> bool {
        match (self, other) {
            (InetAddr::V4(a), InetAddr::V4(b)) => {
                &&& a.spec_port_bytes() == b.spec_port_bytes()
                &&& a.spec_addr_bytes() == b.spec_addr_bytes()
            },
            (InetAddr::V6(a), InetAddr::V6(b)) => {
                &&& a.spec_port_bytes() == b.spec_port_bytes()
                &&& a.spec_addr_bytes() == b.spec_addr_bytes()
                &&& a.spec_flowinfo() == b.spec_flowinfo()
                &&& a.spec_scope_id() == b.spec_scope_id()
            },
            _ => false,
        }
    }

    /// Encodes `ip` and `port` in the kernel's layout for the address's
    /// family, in network byte order, with every other field zero.
    pub fn new(ip: IpAddr, port: u16) -> (r: InetAddr)
        ensures
            r.wf(),
            r.spec_ip_is(ip),
            r.spec_port() == port,
            ip is V4 <==> r is V4,
            r is V6 ==> r->V6_0.spec_flowinfo() == 0 && r->V6_0.spec_scope_id() == 0,
    {
        let (ph, pl) = split16(port);
        match ip {
            IpAddr::V4(o) => {
                let sa = SockaddrIn {
                    sin_family: AF_INET,
                    sin_port: [ph, pl],
                    sin_addr: [o[0], o[1], o[2], o[3]],
                    sin_zero: [0, 0, 0, 0, 0, 0, 0, 0],
                };
                assert(sa.sin_addr@ =~= o@);
                InetAddr::V4(sa)
            },
            IpAddr::V6(s) => {
                let (b0, b1) = split16(s[0]);
                let (b2, b3) = split16(s[1]);
                let (b4, b5) = split16(s[2]);
                let (b6, b7) = split16(s[3]);
                let (b8, b9) = split16(s[4]);
                let (b10, b11) = split16(s[5]);
                let (b12, b13) = split16(s[6]);
                let (b14, b15) = split16(s[7]);
                let sa = SockaddrIn6 {
                    sin6_family: AF_INET6,
                    sin6_port: [ph, pl],
                    sin6_flowinfo: 0,
                    sin6_addr: [b0, b1, b2, b3, b4, b5, b6, b7, b8, b9, b10, b11, b12, b13, b14, b15],
                    sin6_scope_id: 0,
                };
                assert(sa.sin6_addr@ =~= segment_bytes(s@));
                InetAddr::V6(sa)
            },
        }
    }

    /// Gets the IP address associated with this socket address.
    pub fn ip(&self) -> (r: IpAddr)
        ensures
            self.spec_ip_is(r),
    {
        match self {
            InetAddr::V4(sa) => {
                let a = sa.sin_addr();
                let r = [a[0], a[1], a[2], a[3]];
                assert(r@ =~= a@);
                IpAddr::V4(r)
            },
            InetAddr::V6(sa) => {
                let a = sa.sin6_addr();
                let s = [
                    join16(a[0], a[1]),
                    join16(a[2], a[3]),
                    join16(a[4], a[5]),
                    join16(a[6], a[7]),
                    join16(a[8], a[9]),
                    join16(a[10], a[11]),
                    join16(a[12], a[13]),
                    join16(a[14], a[15]),
                ];
                assert(segment_bytes(s@) =~= a@);
                IpAddr::V6(s)
            },
        }
    }

    /// The address as text: `a.b.c.d:port` for IPv4, `[groups]:port` for IPv6.
    pub open spec fn spec_text(&self) -> Seq<u8> {
        match self {
            InetAddr::V4(sa) => ipv4_text(sa.spec_addr_bytes()) + seq![COLON] + decimal(
                self.spec_port() as nat,
            ),
            InetAddr::V6(sa) => seq![91u8] + ipv6_text(segments_of(sa.spec_addr_bytes())) + seq![
                93u8,
                COLON,
            ] + decimal(self.spec_port() as nat),
        }
    }

    /// The address as ASCII text.
    pub fn text(&self) -> (r: Vec<u8>)
        ensures
            r@ == self.spec_text(),
    {
        let mut out: Vec<u8> = Vec::new();
        let port = self.port();
        match self.ip() {
            IpAddr::V4(o) => {
                push_ipv4(&mut out, o);
            },
            IpAddr::V6(s) => {
                proof {
                    lemma_segments_round_trip(s@);
                }
                out.push(91);
                push_ipv6(&mut out, s);
                out.push(93);
            },
        }
        out.push(COLON);
        push_decimal(&mut out, port as u32);
        assert(out@ =~= self.spec_text());
        out
    }

    pub fn to_str(&self) -> (r: String)
        ensures
            r@ == utf8_lossy(self.spec_text()),
    {
        let t = self.text();
        lossy_string(t.as_slice())
    }

    /// Gets the port number associated with this socket address, in host order.
    pub fn port(&self) -> (r: u16)
        ensures
            r == self.spec_port(),
    {
        match self {
            InetAddr::V4(sa) => {
                let p = sa.sin_port();
                join16(p[0], p[1])
            },
            InetAddr::V6(sa) => {
                let p = sa.sin6_port();
                join16(p[0], p[1])
            },
        }
    }
}

/// Whether two byte strings are equal.
fn bytes_eq(a: &[u8], b: &[u8]) -> (r: bool)
    ensures
        r == (a@ == b@),
{
    if a.len() != b.len() {
        return false;
    }
    let mut i: usize = 0;
    while i < a.len()
        invariant
            a@.len() == b@.len(),
            i <= a@.len(),
            forall|j: int| 0 <= j < i ==> a@[j] == b@[j],
        decreases a@.len() - i,
    {
        if a[i] != b[i] {
            return false;
        }
        i = i + 1;
    }
    assert(a@ =~= b@);
    true
}

impl PartialEq for InetAddr {
    fn eq(&self, other: &InetAddr) -> (r: bool) {
        match (self, other) {
            (InetAddr::V4(a), InetAddr::V4(b)) => {
                bytes_eq(a.sin_port().as_slice(), b.sin_port().as_slice())
                    && bytes_eq(a.sin_addr().as_slice(), b.sin_addr().as_slice())
            },
            (InetAddr::V6(a), InetAddr::V6(b)) => {
                bytes_eq(a.sin6_port().as_slice(), b.sin6_port().as_slice())
                    && bytes_eq(a.sin6_addr().as_slice(), b.sin6_addr().as_slice())
                    && a.sin6_flowinfo() == b.sin6_flowinfo()
                    && a.sin6_scope_id() == b.sin6_scope_id()
            },
            _ => false,
        }
    }
}

impl vstd::std_specs::cmp::PartialEqSpecImpl for InetAddr {
    open spec fn obeys_eq_spec() -> bool {
        true
    }

    open spec fn eq_spec(&self, other: &InetAddr) -> bool {
        self.same_as(other)
    }
}

impl Eq for InetAddr {

}

/// Equality of internet addresses is exactly equality of what they hold:
/// family, IP address and port, and for IPv6 flow information and scope.
/// Two well-formed addresses that agree on these agree on every byte, padding
/// included, so hashing their encodings gives the same result.
pub proof fn law_inet_equality(a: InetAddr, b: InetAddr, ip: IpAddr, port: u16)
    requires
        a.wf(),
        b.wf(),
        a.spec_ip_is(ip),
        a.spec_port() == port,
    ensures
        a.same_as(&b) <==> {
            &&& b.spec_ip_is(ip)
            &&& b.spec_port() == port
            &&& (a is V6 ==> a->V6_0.spec_flowinfo() == b->V6_0.spec_flowinfo()
                && a->V6_0.spec_scope_id() == b->V6_0.spec_scope_id())
        },
        a.same_as(&b) ==> a == b,
{
    broadcast use vstd::array::group_array_axioms;

    match (a, b) {
        (InetAddr::V4(x), InetAddr::V4(y)) => {
            if b.spec_port() == port {
                assert(x.sin_port@ =~= y.sin_port@);
            }
            if a.same_as(&b) {
                assert(x.sin_zero@ =~= y.sin_zero@);
                assert(x.sin_zero == y.sin_zero);
                assert(x.sin_addr == y.sin_addr);
                assert(x.sin_port == y.sin_port);
            }
        },
        (InetAddr::V6(x), InetAddr::V6(y)) => {
            if b.spec_port() == port {
                assert(x.sin6_port@ =~= y.sin6_port@);
            }
            if a.same_as(&b) {
                assert(x.sin6_addr == y.sin6_addr);
                assert(x.sin6_port == y.sin6_port);
            }
        },
        _ => {},
    }
}

proof fn lemma_be16_split(v: u16)
    ensures
        be16(hi(v), lo(v)) == v,
{
}

/// The eight segments whose big-endian bytes are `b`.
pub open spec fn segments_of(b: Seq<u8>) -> Seq<u16> {
    Seq::new(8, |k: int| be16(b[2 * k], b[2 * k + 1]))
}

proof fn lemma_segments_round_trip(s: Seq<u16>)
    requires
        s.len() == 8,
    ensures
        segments_of(segment_bytes(s)) == s,
{
    assert forall|k: int| 0 <= k < 8 implies segments_of(segment_bytes(s))[k] == s[k] by {
        lemma_be16_split(s[k]);
    }
    assert(segments_of(segment_bytes(s)) =~= s);
}

/// Encoding an IP address and port and decoding them again gives back what
/// went in: an address holds exactly one IP address and one port. The first
/// two requirements are what `InetAddr::new(ip, port)` ensures of its result,
/// the last two what `ip()` and `port()` ensure of theirs.
pub proof fn law_inet_round_trip(a: InetAddr, ip: IpAddr, port: u16, ip2: IpAddr, port2: u16)
    requires
        a.spec_ip_is(ip),
        a.spec_port() == port,
        a.spec_ip_is(ip2),
        a.spec_port() == port2,
    ensures
        ip2 == ip,
        port2 == port,
{
    broadcast use vstd::array::group_array_axioms;

    match (ip, ip2) {
        (IpAddr::V4(o), IpAddr::V4(o2)) => {
            assert(o == o2);
        },
        (IpAddr::V6(x), IpAddr::V6(y)) => {
            assert forall|k: int| 0 <= k < 8 implies x@[k] == y@[k] by {
                let bx = segment_bytes(x@);
                let by = segment_bytes(y@);
                assert(bx[2 * k] == by[2 * k]);
                assert(bx[2 * k + 1] == by[2 * k + 1]);
                lemma_be16_split(x@[k]);
                lemma_be16_split(y@[k]);
            }
            assert(x@ =~= y@);
            assert(x == y);
        },
        _ => {},
    }
}

/// The length of the C string at the start of `s`: the index of its first
/// NUL byte, or its whole length when it has none.
pub open spec fn c_strlen(s: Seq<u8>) -> nat
    decreases s.len(),
{
    if s.len() == 0 {
        0
    } else if s[0] == 0 {
        0
    } else {
        1 + c_strlen(s.drop_first())
    }
}

/// Whether `s` holds no NUL byte.
pub open spec fn no_nul(s: Seq<u8>) -> bool {
    forall|i: int| 0 <= i < s.len() ==> s[i] != 0
}

proof fn lemma_c_strlen(s: Seq<u8>)
    ensures
        c_strlen(s) <= s.len(),
        c_strlen(s) < s.len() ==> s[c_strlen(s) as int] == 0,
        forall|j: int| 0 <= j < c_strlen(s) ==> s[j] != 0,
    decreases s.len(),
{
    if s.len() > 0 && s[0] != 0 {
        lemma_c_strlen(s.drop_first());
        assert forall|j: int| 0 <= j < c_strlen(s) implies s[j] != 0 by {
            if j > 0 {
                assert(s[j] == s.drop_first()[j - 1]);
            }
        }
    }
}

proof fn lemma_c_strlen_at(s: Seq<u8>, i: int)
    requires
        0 <= i < s.len(),
        s[i] == 0,
        forall|j: int| 0 <= j < i ==> s[j] != 0,
    ensures
        c_strlen(s) == i,
{
    lemma_c_strlen(s);
}

/// A Unix-domain socket address: the family tag and a fixed buffer that
/// holds the path followed by NUL bytes.
#[derive(Debug, Hash)]
pub struct UnixAddr {
    sun_family: u16,
    sun_path: Vec<u8>,
}

impl UnixAddr {
    #[verifier::type_invariant]
    pub closed spec fn wf(&self) -> bool {
        &&& self.sun_family == AF_UNIX
        &&& self.sun_path@.len() == UNIX_PATH_MAX
        &&& c_strlen(self.sun_path@) < UNIX_PATH_MAX
        &&& forall|i: int|
            c_strlen(self.sun_path@) <= i < UNIX_PATH_MAX ==> self.sun_path@[i] == 0
    }

    /// The path the address names.
    pub closed spec fn spec_path(&self) -> Seq<u8> {
        self.sun_path@.take(c_strlen(self.sun_path@) as int)
    }

    /// The whole path buffer, terminator and padding included.
    pub closed spec fn spec_buffer(&self) -> Seq<u8> {
        self.sun_path@
    }

    /// Encodes `path`. Fails with `InvalidPath` when it holds a NUL byte, and
    /// with `ENAMETOOLONG` when it does not fit in the buffer with its
    /// terminator; nothing is built then.
    pub fn new(path: &[u8]) -> (r: NixResult<UnixAddr>)
        ensures
            !no_nul(path@) ==> r == Err::<UnixAddr, NixError>(NixError::InvalidPath),
            no_nul(path@) && path@.len() >= UNIX_PATH_MAX ==> r == Err::<UnixAddr, NixError>(
                NixError::Sys(ENAMETOOLONG),
            ),
            no_nul(path@) && path@.len() < UNIX_PATH_MAX ==> r is Ok && r->Ok_0.wf()
                && r->Ok_0.spec_path() == path@,
    {
        let mut i: usize = 0;
        while i < path.len()
            invariant
                i <= path@.len(),
                forall|j: int| 0 <= j < i ==> path@[j] != 0,
            decreases path@.len() - i,
        {
            if path[i] == 0 {
                return Err(NixError::InvalidPath);
            }
            i = i + 1;
        }
        if path.len() >= UNIX_PATH_MAX {
            return Err(NixError::Sys(ENAMETOOLONG));
        }
        let mut buf: Vec<u8> = Vec::new();
        let mut k: usize = 0;
        while k < path.len()
            invariant
                k <= path@.len(),
                buf@ == path@.take(k as int),
            decreases path@.len() - k,
        {
            buf.push(path[k]);
            k = k + 1;
            assert(buf@ =~= path@.take(k as int));
        }
        while buf.len() < UNIX_PATH_MAX
            invariant
                path@.len() < UNIX_PATH_MAX,
                path@.len() <= buf@.len() <= UNIX_PATH_MAX,
                buf@.take(path@.len() as int) == path@,
                forall|j: int| path@.len() <= j < buf@.len() ==> buf@[j] == 0,
            decreases UNIX_PATH_MAX - buf@.len(),
        {
            let ghost prev = buf@;
            buf.push(0);
            assert(buf@.take(path@.len() as int) =~= prev.take(path@.len() as int));
        }
        let ghost n = path@.len() as int;
        assert forall|j: int| 0 <= j < n implies buf@[j] != 0 by {
            assert(buf@[j] == buf@.take(n)[j]);
        }
        proof {
            lemma_c_strlen_at(buf@, n);
        }
        let r = UnixAddr { sun_family: AF_UNIX, sun_path: buf };
        assert(r.spec_path() =~= path@);
        Ok(r)
    }

    pub fn sun_family(&self) -> (r: u16)
        ensures
            r == AF_UNIX,
    {
        proof {
            use_type_invariant(self);
        }
        self.sun_family
    }

    /// The whole path buffer, as the kernel reads it.
    pub fn sun_path(&self) -> (r: &[u8])
        ensures
            r@ == self.spec_buffer(),
    {
        self.sun_path.as_slice()
    }

    /// The path: the bytes of the buffer before its first NUL.
    pub fn path(&self) -> (r: Vec<u8>)
        ensures
            r@ == self.spec_path(),
    {
        proof {
            use_type_invariant(self);
            lemma_c_strlen(self.sun_path@);
        }
        let mut out: Vec<u8> = Vec::new();
        let mut i: usize = 0;
        while i < UNIX_PATH_MAX && self.sun_path[i] != 0
            invariant
                self.wf(),
                i <= c_strlen(self.sun_path@),
                out@ == self.sun_path@.take(i as int),
                forall|j: int| 0 <= j < c_strlen(self.sun_path@) ==> self.sun_path@[j] != 0,
                c_strlen(self.sun_path@) < UNIX_PATH_MAX ==> self.sun_path@[c_strlen(self.sun_path@) as int] == 0,
            decreases UNIX_PATH_MAX - i,
        {
            out.push(self.sun_path[i]);
            i = i + 1;
            assert(out@ =~= self.sun_path@.take(i as int));
        }
        out
    }
}

/// A fresh vector holding the bytes of `s`.
fn copy_bytes(s: &[u8]) -> (r: Vec<u8>)
    ensures
        r@ == s@,
{
    let mut out: Vec<u8> = Vec::new();
    let mut i: usize = 0;
    while i < s.len()
        invariant
            i <= s@.len(),
            out@ == s@.take(i as int),
        decreases s@.len() - i,
    {
        out.push(s[i]);
        i = i + 1;
        assert(out@ =~= s@.take(i as int));
    }
    assert(out@ =~= s@);
    out
}

impl Clone for UnixAddr {
    fn clone(&self) -> (r: UnixAddr)
        ensures
            r.spec_buffer() == self.spec_buffer(),
            r.spec_path() == self.spec_path(),
    {
        proof {
            use_type_invariant(self);
        }
        UnixAddr { sun_family: self.sun_family, sun_path: copy_bytes(self.sun_path.as_slice()) }
    }
}

impl UnixAddr {
    /// The path as text, each invalid UTF-8 sequence replaced.
    pub fn to_str(&self) -> (r: String)
        ensures
            r@ == utf8_lossy(self.spec_path()),
    {
        let p = self.path();
        lossy_string(p.as_slice())
    }
}

impl PartialEq for UnixAddr {
    fn eq(&self, other: &UnixAddr) -> (r: bool) {
        let a = self.path();
        let b = other.path();
        bytes_eq(a.as_slice(), b.as_slice())
    }
}

impl vstd::std_specs::cmp::PartialEqSpecImpl for UnixAddr {
    open spec fn obeys_eq_spec() -> bool {
        true
    }

    open spec fn eq_spec(&self, other: &UnixAddr) -> bool {
        self.spec_path() == other.spec_path()
    }
}

impl Eq for UnixAddr {

}

/// Encoding a path and decoding it again gives the path back: `a` stands for
/// what `UnixAddr::new(path)` built from a path without NUL bytes that fits
/// with its terminator, `decoded` for what `a.path()` then returned. A path
/// that does not fit builds no address at all (see `UnixAddr::new`).
pub proof fn law_unix_round_trip(path: Seq<u8>, a: UnixAddr, decoded: Seq<u8>)
    requires
        no_nul(path),
        path.len() < UNIX_PATH_MAX,
        a.wf(),
        a.spec_path() == path,
        decoded == a.spec_path(),
    ensures
        decoded == path,
        no_nul(decoded),
{
}

/// Two well-formed Unix addresses with the same path have the same buffer,
/// byte for byte, so hashing their encodings gives the same result.
pub proof fn law_unix_equality(a: UnixAddr, b: UnixAddr)
    requires
        a.wf(),
        b.wf(),
        a.spec_path() == b.spec_path(),
    ensures
        a.spec_buffer() == b.spec_buffer(),
{
    lemma_c_strlen(a.sun_path@);
    lemma_c_strlen(b.sun_path@);
    let n = c_strlen(a.sun_path@) as int;
    assert(a.spec_path().len() == n);
    assert(b.spec_path().len() == c_strlen(b.sun_path@));
    assert forall|i: int| 0 <= i < UNIX_PATH_MAX implies a.sun_path@[i] == b.sun_path@[i] by {
        if i < n {
            assert(a.sun_path@[i] == a.spec_path()[i]);
            assert(b.sun_path@[i] == b.spec_path()[i]);
        }
    }
    assert(a.sun_path@ =~= b.sun_path@);
}

/// A socket address of any of the supported families.
#[derive(Clone, Debug, Hash)]
pub enum SockAddr {
    Inet(InetAddr),
    Unix(UnixAddr),
}

impl SockAddr {
    pub open spec fn spec_family(&self) -> AddressFamily {
        match self {
            SockAddr::Inet(InetAddr::V4(..)) => AddressFamily::Inet,
            SockAddr::Inet(InetAddr::V6(..)) => AddressFamily::Inet6,
            SockAddr::Unix(..) => AddressFamily::Unix,
        }
    }

    pub open spec fn same_as(&self, other: &SockAddr) -> bool {
        match (self, other) {
            (SockAddr::Inet(a), SockAddr::Inet(b)) => a.same_as(b),
            (SockAddr::Unix(a), SockAddr::Unix(b)) => a.spec_path() == b.spec_path(),
            _ => false,
        }
    }

    pub fn new_inet(addr: InetAddr) -> (r: SockAddr)
        ensures
            r == SockAddr::Inet(addr),
    {
        SockAddr::Inet(addr)
    }

    /// A Unix-domain address for `path`, failing as `UnixAddr::new` does.
    pub fn new_unix(path: &[u8]) -> (r: NixResult<SockAddr>)
        ensures
            !no_nul(path@) ==> r == Err::<SockAddr, NixError>(NixError::InvalidPath),
            no_nul(path@) && path@.len() >= UNIX_PATH_MAX ==> r == Err::<SockAddr, NixError>(
                NixError::Sys(ENAMETOOLONG),
            ),
            no_nul(path@) && path@.len() < UNIX_PATH_MAX ==> r is Ok && r->Ok_0 is Unix
                && r->Ok_0->Unix_0.spec_path() == path@,
    {
        match UnixAddr::new(path) {
            Ok(u) => Ok(SockAddr::Unix(u)),
            Err(e) => Err(e),
        }
    }

    pub fn family(&self) -> (r: AddressFamily)
        ensures
            r == self.spec_family(),
    {
        match self {
            SockAddr::Inet(InetAddr::V4(..)) => AddressFamily::Inet,
            SockAddr::Inet(InetAddr::V6(..)) => AddressFamily::Inet6,
            SockAddr::Unix(..) => AddressFamily::Unix,
        }
    }

    /// The address as text: an internet address as `InetAddr::text` writes
    /// it, a Unix-domain address as its bare path.
    pub open spec fn spec_text(&self) -> Seq<u8> {
        match self {
            SockAddr::Inet(a) => a.spec_text(),
            SockAddr::Unix(u) => u.spec_path(),
        }
    }

    pub fn text(&self) -> (r: Vec<u8>)
        ensures
            r@ == self.spec_text(),
    {
        match self {
            SockAddr::Inet(a) => a.text(),
            SockAddr::Unix(u) => u.path(),
        }
    }

    pub fn to_str(&self) -> (r: String)
        ensures
            r@ == utf8_lossy(self.spec_text()),
    {
        let t = self.text();
        lossy_string(t.as_slice())
    }

    /// The size of the kernel structure for this address's family, as the
    /// length that goes with it into an address-taking system call.
    pub fn socklen(&self) -> (r: u32)
        ensures
            self.spec_family() == AddressFamily::Inet ==> r == 16,
            self.spec_family() == AddressFamily::Inet6 ==> r == 28,
            self.spec_family() == AddressFamily::Unix ==> r == 2 + UNIX_PATH_MAX,
    {
        match self {
            SockAddr::Inet(InetAddr::V4(..)) => 16,
            SockAddr::Inet(InetAddr::V6(..)) => 28,
            SockAddr::Unix(..) => 110,
        }
    }
}

impl PartialEq for SockAddr {
    fn eq(&self, other: &SockAddr) -> (r: bool) {
        match (self, other) {
            (SockAddr::Inet(a), SockAddr::Inet(b)) => a == b,
            (SockAddr::Unix(a), SockAddr::Unix(b)) => a == b,
            _ => false,
        }
    }
}

impl vstd::std_specs::cmp::PartialEqSpecImpl for SockAddr {
    open spec fn obeys_eq_spec() -> bool {
        true
    }

    open spec fn eq_spec(&self, other: &SockAddr) -> bool {
        self.same_as(other)
    }
}

impl Eq for SockAddr {

}

} // verus!
