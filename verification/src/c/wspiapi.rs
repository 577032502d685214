//! Name resolution for systems without a resolver of their own: IPv4 only,
//! built on the older lookups by service name and by host name.
//!
//! The lookups themselves are the caller's: they are handed in as functions.
//! Addresses and ports are in network byte order, as the lookups give them.

use libc::c_int;
use vstd::prelude::*;

verus! {

/// No such host is known.
pub const EAI_NONAME: c_int = 11001;

/// The host is known, but has no address on record.
pub const EAI_NODATA: c_int = 11001;

/// The name server failed for now.
pub const EAI_AGAIN: c_int = 11002;

/// The lookup failed for good.
pub const EAI_FAIL: c_int = 11003;

/// The flags make no sense together.
pub const EAI_BADFLAGS: c_int = 10022;

/// The address family is not supported.
pub const EAI_FAMILY: c_int = 10047;

/// The socket type is not supported.
pub const EAI_SOCKTYPE: c_int = 10044;

/// The service is unknown for the socket type.
pub const EAI_SERVICE: c_int = 10109;

/// Host lookup error: no such host.
pub const WSAHOST_NOT_FOUND: c_int = 11001;

/// Host lookup error: try again later.
pub const WSATRY_AGAIN: c_int = 11002;

/// Host lookup error: not recoverable.
pub const WSANO_RECOVERY: c_int = 11003;

/// Host lookup error: the name is valid and has no data of the kind asked for.
pub const WSANO_DATA: c_int = 11004;

/// The address is meant for binding a listening socket.
pub const AI_PASSIVE: i32 = 0x1;

/// The canonical name of the host is wanted.
pub const AI_CANONNAME: i32 = 0x2;

/// The node name must be a numeric address.
pub const AI_NUMERICHOST: i32 = 0x4;

/// Protocol family: any.
pub const PF_UNSPEC: i32 = 0;

/// Protocol family: IPv4.
pub const PF_INET: i32 = 2;

/// Address family: IPv4.
pub const AF_INET: u16 = 2;

/// Socket type: stream.
pub const SOCK_STREAM: i32 = 1;

/// Socket type: datagram.
pub const SOCK_DGRAM: i32 = 2;

/// Socket type: raw.
pub const SOCK_RAW: i32 = 3;

/// The address that stands for every address of the host, in host byte order.
pub const INADDR_ANY: u32 = 0x0000_0000;

/// The loopback address, in host byte order.
pub const INADDR_LOOPBACK: u32 = 0x7f00_0001;

/// What the address parser answers to text that is no address.
pub const INADDR_NONE: u32 = 0xffff_ffff;

/// The room for a host name with its terminator.
pub const NI_MAXHOST: usize = 1025;

/// The size of an IPv4 socket address.
pub const SOCKADDR_IN_SIZE: usize = 16;

/// The size of an IPv4 address.
pub const IN_ADDR_SIZE: u16 = 4;

/// One resolved address: an entry of the result list.
#[derive(Debug, Clone, Copy, PartialEq, Eq, Structural)]
pub struct AddrInfo {
    pub ai_flags: i32,
    pub ai_family: i32,
    pub ai_socktype: i32,
    pub ai_protocol: i32,
    pub ai_addrlen: usize,
    pub sin_family: u16,
    /// The port, in network byte order.
    pub sin_port: u16,
    /// The address, in network byte order.
    pub sin_addr: u32,
}

/// A 16-bit value with its two bytes exchanged.
pub open spec fn swapped16(x: u16) -> u16 {
    ((x % 256) * 256 + x / 256) as u16
}

/// A 32-bit value with its four bytes in reverse order.
pub open spec fn swapped32(x: u32) -> u32 {
    ((x % 256) * 0x100_0000 + (x / 256 % 256) * 0x1_0000 + (x / 0x1_0000 % 256) * 256 + x
        / 0x100_0000) as u32
}

/// A port in network byte order, on a host that stores the low byte first.
pub fn htons(hostshort: u16) -> (netshort: u16)
    ensures
        netshort == swapped16(hostshort),
{
    let netshort = (hostshort << 8) | (hostshort >> 8);
    assert(netshort == ((hostshort % 256) * 256 + hostshort / 256) as u16) by (bit_vector)
        requires
            netshort == (hostshort << 8) | (hostshort >> 8),
    ;
    netshort
}

/// An address in network byte order, on a host that stores the low byte first.
pub fn htonl(hostlong: u32) -> (netlong: u32)
    ensures
        netlong == swapped32(hostlong),
{
    let netlong = (hostlong << 24) | ((hostlong & 0xff00) << 8) | ((hostlong >> 8) & 0xff00) | (
    hostlong >> 24);
    assert(netlong == ((hostlong % 256) * 0x100_0000 + (hostlong / 256 % 256) * 0x1_0000 + (hostlong
        / 0x1_0000 % 256) * 256 + hostlong / 0x100_0000) as u32) by (bit_vector)
        requires
            netlong == (hostlong << 24) | ((hostlong & 0xff00) << 8) | ((hostlong >> 8) & 0xff00)
                | (hostlong >> 24),
    ;
    netlong
}

/// The entry for one address: IPv4, no flags, with the given socket type,
/// protocol, port and address.
pub open spec fn new_addr_info(socket_type: i32, protocol: i32, port: u16, address: u32) -> AddrInfo {
    AddrInfo {
        ai_flags: 0,
        ai_family: PF_INET,
        ai_socktype: socket_type,
        ai_protocol: protocol,
        ai_addrlen: SOCKADDR_IN_SIZE,
        sin_family: AF_INET,
        sin_port: port,
        sin_addr: address,
    }
}

/// Makes the entry for one address.
pub fn wspiapi_new_addr_info(socket_type: i32, protocol: i32, port: u16, address: u32) -> (entry:
    AddrInfo)
    ensures
        entry == new_addr_info(socket_type, protocol, port, address),
{
    AddrInfo {
        ai_flags: 0,
        ai_family: PF_INET,
        ai_socktype: socket_type,
        ai_protocol: protocol,
        ai_addrlen: SOCKADDR_IN_SIZE,
        sin_family: AF_INET,
        sin_port: port,
        sin_addr: address,
    }
}

/// The list in which every entry is followed by its datagram twin: a new
/// entry for the same address and protocol, with the datagram socket type and
/// the given port.
pub open spec fn cloned(udp_port: u16, entries: Seq<AddrInfo>) -> Seq<AddrInfo> {
    Seq::new(
        2 * entries.len(),
        |i: int|
            if i % 2 == 0 {
                entries[i / 2]
            } else {
                new_addr_info(SOCK_DGRAM, entries[i / 2].ai_protocol, udp_port, entries[i / 2].sin_addr)
            },
    )
}

/// Gives every entry of `res` a datagram twin right behind it. Always answers 0.
pub fn wspiapi_clone(udp_port: u16, res: &mut Vec<AddrInfo>) -> (error: i32)
    ensures
        error == 0,
        final(res)@ == cloned(udp_port, old(res)@),
{
    let mut twinned: Vec<AddrInfo> = Vec::new();
    let mut i: usize = 0;
    while i < res.len()
        invariant
            i <= res.len(),
            res@ == old(res)@,
            twinned@ == cloned(udp_port, res@.take(i as int)),
        decreases res.len() - i,
    {
        let next = res[i];
        let twin = wspiapi_new_addr_info(SOCK_DGRAM, next.ai_protocol, udp_port, next.sin_addr);
        twinned.push(next);
        twinned.push(twin);
        proof {
            assert(twinned@ =~= cloned(udp_port, res@.take(i + 1)));
        }
        i = i + 1;
    }
    proof {
        assert(res@.take(i as int) == res@);
    }
    *res = twinned;
    0
}

/// How much of a host name fits before the terminator.
pub open spec fn fitting(source: Seq<u8>) -> int {
    if source.len() < NI_MAXHOST - 1 {
        source.len() as int
    } else {
        NI_MAXHOST - 1
    }
}

/// A buffer after a host name was copied into it: the part of the name that
/// fits, a terminator, and behind it what the buffer held before.
pub open spec fn copied(before: Seq<u8>, source: Seq<u8>) -> Seq<u8> {
    source.take(fitting(source)) + seq![0u8] + before.skip(fitting(source) + 1)
}

/// Copies a host name into `dest` and terminates it, cutting it to what
/// fits before the terminator. The bytes behind the terminator stay.
pub fn wspiapi_strcpy_ni_maxhost(dest: &mut [u8; NI_MAXHOST], source_without_nul: &[u8])
    ensures
        final(dest)@ == copied(old(dest)@, source_without_nul@),
{
    let len = if source_without_nul.len() < NI_MAXHOST - 1 {
        source_without_nul.len()
    } else {
        NI_MAXHOST - 1
    };
    let mut i: usize = 0;
    while i < len
        invariant
            i <= len,
            len <= NI_MAXHOST - 1,
            len <= source_without_nul@.len(),
            dest@.len() == NI_MAXHOST,
            old(dest)@.len() == NI_MAXHOST,
            forall|j: int| 0 <= j < i ==> dest@[j] == source_without_nul@[j],
            forall|j: int| i <= j < NI_MAXHOST ==> dest@[j] == old(dest)@[j],
        decreases len - i,
    {
        dest[i] = source_without_nul[i];
        i = i + 1;
    }
    dest[len] = 0;
    proof {
        assert(dest@ =~= copied(old(dest)@, source_without_nul@));
    }
}

/// The resolver's error for a failed host lookup.
pub open spec fn dns_error(lookup_error: i32) -> i32 {
    if lookup_error == WSAHOST_NOT_FOUND {
        EAI_NONAME
    } else if lookup_error == WSATRY_AGAIN {
        EAI_AGAIN
    } else if lookup_error == WSANO_RECOVERY {
        EAI_FAIL
    } else if lookup_error == WSANO_DATA {
        EAI_NODATA
    } else {
        EAI_NONAME
    }
}

/// Maps the error of a failed host lookup to the resolver's error.
pub fn map_dns_error(lookup_error: i32) -> (error: i32)
    ensures
        error == dns_error(lookup_error),
        error > 0,
{
    if lookup_error == WSAHOST_NOT_FOUND {
        EAI_NONAME
    } else if lookup_error == WSATRY_AGAIN {
        EAI_AGAIN
    } else if lookup_error == WSANO_RECOVERY {
        EAI_FAIL
    } else if lookup_error == WSANO_DATA {
        EAI_NODATA
    } else {
        EAI_NONAME
    }
}

/// The byte is a decimal digit.
pub open spec fn is_digit(byte: u8) -> bool {
    48 <= byte <= 57
}

/// Every byte of the text is a decimal digit.
pub open spec fn all_digits(text: Seq<u8>) -> bool {
    forall|i: int| 0 <= i < text.len() ==> is_digit(#[trigger] text[i])
}

/// The number that a row of decimal digits writes.
pub open spec fn decimal(digits: Seq<u8>) -> nat
    decreases digits.len(),
{
    if digits.len() == 0 {
        0
    } else {
        decimal(digits.drop_last()) * 10 + (if is_digit(digits.last()) {
            (digits.last() - 48) as nat
        } else {
            0
        })
    }
}

/// The text without a leading plus sign.
pub open spec fn unsigned(text: Seq<u8>) -> Seq<u8> {
    if text.len() > 0 && text[0] == 43 {
        text.skip(1)
    } else {
        text
    }
}

/// The number that a service name writes, if it is a number: an optional
/// plus sign and then one or more decimal digits, of a value that fits 32 bits.
pub open spec fn numeric(text: Seq<u8>) -> Option<u32> {
    let digits = unsigned(text);
    if digits.len() > 0 && all_digits(digits) && decimal(digits) <= u32::MAX {
        Some(decimal(digits) as u32)
    } else {
        None
    }
}

/// A row of digits writes no less than any row it begins with.
proof fn lemma_decimal_grows(digits: Seq<u8>, end: int)
    requires
        0 <= end <= digits.len(),
    ensures
        decimal(digits.take(end)) <= decimal(digits),
    decreases digits.len() - end,
{
    if end < digits.len() {
        assert(digits.take(end + 1).drop_last() == digits.take(end));
        lemma_decimal_grows(digits, end + 1);
    } else {
        assert(digits.take(end) == digits);
    }
}

/// Reads a service name as a port number.
pub fn parse_port(service: &[u8]) -> (port: Option<u32>)
    ensures
        port == numeric(service@),
{
    let start: usize = if service.len() > 0 && service[0] == 43 {
        1
    } else {
        0
    };
    let ghost digits = unsigned(service@);
    if start == service.len() {
        return None;
    }
    let mut value: u64 = 0;
    let mut i: usize = start;
    while i < service.len()
        invariant
            start <= i <= service.len(),
            digits == service@.skip(start as int),
            digits == unsigned(service@),
            all_digits(digits.take(i - start)),
            value == decimal(digits.take(i - start)),
            value <= u32::MAX,
        decreases service.len() - i,
    {
        let byte = service[i];
        proof {
            assert(digits.take(i + 1 - start).drop_last() == digits.take(i - start));
            assert(digits.take(i + 1 - start).last() == byte);
            assert(digits[i - start] == byte);
        }
        if byte < 48 || byte > 57 {
            proof {
                assert(!is_digit(digits[i - start]));
            }
            return None;
        }
        value = value * 10 + (byte - 48) as u64;
        proof {
            assert(value == decimal(digits.take(i + 1 - start)));
        }
        if value > u32::MAX as u64 {
            proof {
                lemma_decimal_grows(digits, i + 1 - start);
            }
            return None;
        }
        proof {
            assert forall|j: int| 0 <= j < i + 1 - start implies is_digit(
                #[trigger] digits.take(i + 1 - start)[j],
            ) by {
                if j < i - start {
                    assert(digits.take(i - start)[j] == digits[j]);
                }
            }
        }
        i = i + 1;
    }
    proof {
        assert(digits.take(i - start) == digits);
    }
    Some(value as u32)
}

/// The hints of a request, with `true` for each pointer member that is set.
#[derive(Debug, Clone, Copy, PartialEq, Eq, Structural)]
pub struct Hints {
    pub ai_flags: i32,
    pub ai_family: i32,
    pub ai_socktype: i32,
    pub ai_protocol: i32,
    pub ai_addrlen: usize,
    pub ai_canonname: bool,
    pub ai_addr: bool,
    pub ai_next: bool,
}

/// What a request asks for, once its hints are accepted.
#[derive(Debug, Clone, Copy, PartialEq, Eq, Structural)]
pub struct Request {
    pub flags: i32,
    pub socket_type: i32,
    pub protocol: i32,
}

/// What the hints of a request come to. Without hints everything is zero.
/// Hints are refused, in this order: with `EAI_FAIL` where a member other
/// than flags, family, socket type and protocol is set; with `EAI_BADFLAGS`
/// where no node is given and the canonical-name flag is clear; with
/// `EAI_FAMILY` for a family other than unspecified and IPv4; with
/// `EAI_SOCKTYPE` for a socket type other than zero, stream, datagram and raw.
pub open spec fn checked_hints(node_given: bool, hints: Option<Hints>) -> Result<Request, i32> {
    match hints {
        None => Ok(Request { flags: 0, socket_type: 0, protocol: 0 }),
        Some(hints) => if hints.ai_addrlen != 0 || hints.ai_canonname || hints.ai_addr
            || hints.ai_next {
            Err(EAI_FAIL)
        } else if hints.ai_flags & AI_CANONNAME == 0 && !node_given {
            Err(EAI_BADFLAGS)
        } else if hints.ai_family != PF_UNSPEC && hints.ai_family != PF_INET {
            Err(EAI_FAMILY)
        } else if hints.ai_socktype != 0 && hints.ai_socktype != SOCK_STREAM && hints.ai_socktype
            != SOCK_DGRAM && hints.ai_socktype != SOCK_RAW {
            Err(EAI_SOCKTYPE)
        } else {
            Ok(
                Request {
                    flags: hints.ai_flags,
                    socket_type: hints.ai_socktype,
                    protocol: hints.ai_protocol,
                },
            )
        },
    }
}

/// Checks the hints of a request.
pub fn check_hints(node_given: bool, hints: Option<Hints>) -> (request: Result<Request, i32>)
    ensures
        request == checked_hints(node_given, hints),
{
    match hints {
        None => Ok(Request { flags: 0, socket_type: 0, protocol: 0 }),
        Some(hints) => {
            if hints.ai_addrlen != 0 || hints.ai_canonname || hints.ai_addr || hints.ai_next {
                return Err(EAI_FAIL);
            }
            let flags = hints.ai_flags;
            if flags & AI_CANONNAME == 0 && !node_given {
                return Err(EAI_BADFLAGS);
            }
            if hints.ai_family != PF_UNSPEC && hints.ai_family != PF_INET {
                return Err(EAI_FAMILY);
            }
            let socket_type = hints.ai_socktype;
            if socket_type != 0 && socket_type != SOCK_STREAM && socket_type != SOCK_DGRAM
                && socket_type != SOCK_RAW {
                return Err(EAI_SOCKTYPE);
            }
            Ok(Request { flags, socket_type, protocol: hints.ai_protocol })
        },
    }
}

/// The ports and the socket type that a service comes to.
#[derive(Debug, Clone, Copy, PartialEq, Eq, Structural)]
pub struct ServicePlan {
    /// The port of the entries that are made first.
    pub port: u16,
    /// The port of the datagram twins.
    pub udp_port: u16,
    pub socket_type: i32,
    /// Every entry gets a datagram twin.
    pub clone: bool,
}

/// The plan for a request without a service: port zero, the socket type as asked.
pub open spec fn no_service(socket_type: i32) -> ServicePlan {
    ServicePlan { port: 0, udp_port: 0, socket_type, clone: false }
}

/// The plan for a service given as a number: its low 16 bits, in network
/// byte order, for stream and datagram alike.
pub open spec fn numbered_service(raw_port: u32, socket_type: i32) -> ServicePlan {
    ServicePlan {
        port: swapped16((raw_port % 0x1_0000) as u16),
        udp_port: swapped16((raw_port % 0x1_0000) as u16),
        socket_type,
        clone: false,
    }
}

/// A datagram lookup is made for an open socket type and for datagrams.
pub open spec fn wants_udp(socket_type: i32) -> bool {
    socket_type == 0 || socket_type == SOCK_DGRAM
}

/// A stream lookup is made for an open socket type and for streams.
pub open spec fn wants_tcp(socket_type: i32) -> bool {
    socket_type == 0 || socket_type == SOCK_STREAM
}

/// The plan for a service given by name, from what the two lookups found.
/// The stream port goes before the datagram port. A port of zero counts as
/// no service: the request fails, with `EAI_NONAME` for an open socket type
/// and `EAI_SERVICE` for a given one. An open socket type becomes stream if
/// a stream port was found and datagram if not, and with both ports found
/// every entry gets a datagram twin.
pub open spec fn named_service(socket_type: i32, udp: Option<u16>, tcp: Option<u16>) -> Result<
    ServicePlan,
    i32,
> {
    let udp_port = match udp {
        Some(port) => port,
        None => 0,
    };
    let tcp_port = match tcp {
        Some(port) => port,
        None => 0,
    };
    let port = match tcp {
        Some(port) => port,
        None => udp_port,
    };
    if port == 0 {
        Err(
            if socket_type == 0 {
                EAI_NONAME
            } else {
                EAI_SERVICE
            },
        )
    } else if socket_type == 0 {
        Ok(
            ServicePlan {
                port,
                udp_port,
                socket_type: if tcp_port != 0 {
                    SOCK_STREAM
                } else {
                    SOCK_DGRAM
                },
                clone: tcp_port != 0 && udp_port != 0,
            },
        )
    } else {
        Ok(ServicePlan { port, udp_port, socket_type, clone: false })
    }
}

/// Makes the plan for a service given by name.
pub fn plan_named_service(socket_type: i32, udp: Option<u16>, tcp: Option<u16>) -> (plan: Result<
    ServicePlan,
    i32,
>)
    ensures
        plan == named_service(socket_type, udp, tcp),
{
    let mut port: u16 = 0;
    let mut udp_port: u16 = 0;
    let mut tcp_port: u16 = 0;
    match udp {
        Some(found) => {
            port = found;
            udp_port = port;
        },
        None => {},
    }
    match tcp {
        Some(found) => {
            port = found;
            tcp_port = port;
        },
        None => {},
    }
    if port == 0 {
        return Err(
            if socket_type == 0 {
                EAI_NONAME
            } else {
                EAI_SERVICE
            },
        );
    }
    if socket_type == 0 {
        Ok(
            ServicePlan {
                port,
                udp_port,
                socket_type: if tcp_port != 0 {
                    SOCK_STREAM
                } else {
                    SOCK_DGRAM
                },
                clone: tcp_port != 0 && udp_port != 0,
            },
        )
    } else {
        Ok(ServicePlan { port, udp_port, socket_type, clone: false })
    }
}

/// The number of dots in a text.
pub open spec fn count_dots(text: Seq<u8>) -> nat
    decreases text.len(),
{
    if text.len() == 0 {
        0
    } else {
        count_dots(text.drop_last()) + (if text.last() == 46 {
            1nat
        } else {
            0nat
        })
    }
}

/// What the address parser's answer comes to: its value for text that is no
/// address becomes none.
pub open spec fn accepted_v4(parsed: u32) -> Option<u32> {
    if parsed == INADDR_NONE {
        None
    } else {
        Some(parsed)
    }
}

/// Counts the dots in a text.
fn dots(address: &[u8]) -> (count: usize)
    ensures
        count == count_dots(address@),
{
    let mut count: usize = 0;
    let mut i: usize = 0;
    while i < address.len()
        invariant
            i <= address.len(),
            count <= i,
            count == count_dots(address@.take(i as int)),
        decreases address.len() - i,
    {
        proof {
            assert(address@.take(i + 1).drop_last() == address@.take(i as int));
        }
        if address[i] == 46 {
            count = count + 1;
        }
        i = i + 1;
    }
    proof {
        assert(address@.take(i as int) == address@);
    }
    count
}

/// Reads a node name as a dotted IPv4 address. Text without exactly three
/// dots is no address and is not shown to the parser. Other text is what
/// the parser `inet_addr` makes of it.
pub fn wspiapi_parse_v4_address<A: FnOnce(&[u8]) -> u32>(address: &[u8], inet_addr: A) -> (parsed:
    Option<u32>)
    requires
        inet_addr.requires((address,)),
    ensures
        count_dots(address@) != 3 ==> parsed is None,
        count_dots(address@) == 3 ==> exists|answer: u32| #[trigger]
            inet_addr.ensures((address,), answer) && parsed == accepted_v4(answer),
{
    if dots(address) != 3 {
        return None;
    }
    let addr = inet_addr(address);
    if addr == INADDR_NONE {
        return None;
    }
    Some(addr)
}

/// The result of a request: the entries in order, and the canonical name of
/// the host where one was asked for and found. The name goes with the first entry.
pub struct AddrInfoList {
    pub entries: Vec<AddrInfo>,
    pub canonname: Option<Vec<u8>>,
}

/// What a result list stands for.
pub struct Addresses {
    pub entries: Seq<AddrInfo>,
    pub canonname: Option<Seq<u8>>,
}

impl View for AddrInfoList {
    type V = Addresses;

    open spec fn view(&self) -> Addresses {
        Addresses {
            entries: self.entries@,
            canonname: match self.canonname {
                Some(name) => Some(name@),
                None => None,
            },
        }
    }
}

/// What a result or an error stands for.
pub open spec fn answer_view(answer: Result<AddrInfoList, i32>) -> Result<Addresses, i32> {
    match answer {
        Ok(list) => Ok(list@),
        Err(error) => Err(error),
    }
}

/// What the outside lookups answer in the course of one request. Which of
/// them are made depends on the request; the answer of one that is not made
/// counts for nothing.
pub struct Lookups {
    /// The datagram port of the service, looked up by name.
    pub udp: Option<u16>,
    /// The stream port of the service, looked up by name.
    pub tcp: Option<u16>,
    /// The node name as an address, from the address parser.
    pub parsed: u32,
    /// The addresses of the node, looked up by host name.
    pub hosts: Result<AddrInfoList, i32>,
}

/// The text of a name that may be absent.
pub open spec fn text(name: Option<&[u8]>) -> Option<Seq<u8>> {
    match name {
        Some(name) => Some(name@),
        None => None,
    }
}

/// The address for a request without a node name: any address for a
/// passive request, the loopback address otherwise.
pub open spec fn local_address(flags: i32) -> u32 {
    swapped32(
        if flags & AI_PASSIVE != 0 {
            INADDR_ANY
        } else {
            INADDR_LOOPBACK
        },
    )
}

/// The plan for the service of a request. A service given as a number needs
/// no lookup. For one given by name, the datagram lookup counts for an open
/// socket type and for datagrams, the stream lookup for an open socket type
/// and for streams.
pub open spec fn planned(
    service: Option<Seq<u8>>,
    socket_type: i32,
    udp: Option<u16>,
    tcp: Option<u16>,
) -> Result<ServicePlan, i32> {
    match service {
        None => Ok(no_service(socket_type)),
        Some(name) => match numeric(name) {
            Some(raw_port) => Ok(numbered_service(raw_port, socket_type)),
            None => named_service(
                socket_type,
                if wants_udp(socket_type) {
                    udp
                } else {
                    None
                },
                if wants_tcp(socket_type) {
                    tcp
                } else {
                    None
                },
            ),
        },
    }
}

/// The address of the node of a request where the node is absent or a
/// numeric address. The parser counts for text with exactly three dots.
pub open spec fn numeric_address(node: Option<Seq<u8>>, flags: i32, parsed: u32) -> Option<u32> {
    match node {
        None => Some(local_address(flags)),
        Some(name) => if count_dots(name) == 3 {
            accepted_v4(parsed)
        } else {
            None
        },
    }
}

/// The host lookup is made: the node is no numeric address and the request
/// does not insist on one.
pub open spec fn looks_up_host(node: Option<Seq<u8>>, flags: i32, parsed: u32) -> bool {
    numeric_address(node, flags, parsed) is None && flags & AI_NUMERICHOST == 0
}

/// The entries of a request before any twins are made: one entry for an
/// absent or numeric node; `EAI_NONAME` for another node where the request
/// insists on a numeric one; else what the host lookup found, its error if
/// that is not zero.
pub open spec fn found(
    node: Option<Seq<u8>>,
    request: Request,
    plan: ServicePlan,
    parsed: u32,
    hosts: Result<AddrInfoList, i32>,
) -> Result<Addresses, i32> {
    match numeric_address(node, request.flags, parsed) {
        Some(address) => Ok(
            Addresses {
                entries: seq![
                    new_addr_info(plan.socket_type, request.protocol, plan.port, address),
                ],
                canonname: None,
            },
        ),
        None => if request.flags & AI_NUMERICHOST != 0 {
            Err(EAI_NONAME)
        } else {
            match hosts {
                Ok(list) => Ok(list@),
                Err(error) => if error != 0 {
                    Err(error)
                } else {
                    Ok(Addresses { entries: Seq::empty(), canonname: None })
                },
            }
        },
    }
}

/// The answer to a request, given what the lookups answer.
///
/// A request without node and without service fails with `EAI_NONAME`. Then
/// the hints are checked, then the service is turned into ports, then the
/// node into entries. Last, every entry gets its datagram twin where the
/// plan says so.
pub open spec fn resolved(
    node: Option<Seq<u8>>,
    service: Option<Seq<u8>>,
    hints: Option<Hints>,
    lookups: Lookups,
) -> Result<Addresses, i32> {
    if node is None && service is None {
        Err(EAI_NONAME)
    } else {
        match checked_hints(node is Some, hints) {
            Err(error) => Err(error),
            Ok(request) => match planned(service, request.socket_type, lookups.udp, lookups.tcp) {
                Err(error) => Err(error),
                Ok(plan) => match found(node, request, plan, lookups.parsed, lookups.hosts) {
                    Err(error) => Err(error),
                    Ok(list) => Ok(
                        if plan.clone {
                            Addresses {
                                entries: cloned(plan.udp_port, list.entries),
                                canonname: list.canonname,
                            }
                        } else {
                            list
                        },
                    ),
                },
            },
        }
    }
}

/// Every lookup that the request makes was answered as `lookups` says. The
/// service lookups are made for a service that is no number; the address
/// parser for a node with exactly three dots; the host lookup for a node
/// that is no numeric address, unless the request insists on one, and it is
/// handed the socket type and port of the plan.
pub open spec fn consulted<S, A, H>(
    node: Option<&[u8]>,
    service: Option<&[u8]>,
    hints: Option<Hints>,
    lookups: Lookups,
    getservbyname: S,
    inet_addr: A,
    lookup_node: H,
) -> bool where
    S: Fn(&[u8], bool) -> Option<u16>,
    A: FnOnce(&[u8]) -> u32,
    H: FnOnce(&[u8], i32, i32, u16, bool) -> Result<AddrInfoList, i32>,
 {
    checked_hints(node is Some, hints) matches Ok(request) ==> {
        &&& service matches Some(name) ==> numeric(name@) is None ==> {
            &&& wants_udp(request.socket_type) ==> getservbyname.ensures((name, false), lookups.udp)
            &&& wants_tcp(request.socket_type) ==> getservbyname.ensures((name, true), lookups.tcp)
        }
        &&& planned(text(service), request.socket_type, lookups.udp, lookups.tcp) matches Ok(plan)
            ==> node matches Some(name) ==> {
            &&& count_dots(name@) == 3 ==> inet_addr.ensures((name,), lookups.parsed)
            &&& looks_up_host(text(node), request.flags, lookups.parsed) ==> lookup_node.ensures(
                (
                    name,
                    plan.socket_type,
                    request.protocol,
                    plan.port,
                    request.flags & AI_CANONNAME != 0,
                ),
                lookups.hosts,
            )
        }
    }
}

/// Turns the service of a request into ports, looking it up by name where
/// it is no number.
fn plan_service<S: Fn(&[u8], bool) -> Option<u16>>(
    service: Option<&[u8]>,
    socket_type: i32,
    getservbyname: &S,
) -> (out: (Result<ServicePlan, i32>, Ghost<Option<u16>>, Ghost<Option<u16>>))
    requires
        forall|name: &[u8], tcp: bool| getservbyname.requires((name, tcp)),
    ensures
        out.0 == planned(text(service), socket_type, out.1@, out.2@),
        service matches Some(name) ==> numeric(name@) is None ==> {
            &&& wants_udp(socket_type) ==> getservbyname.ensures((name, false), out.1@)
            &&& wants_tcp(socket_type) ==> getservbyname.ensures((name, true), out.2@)
        },
{
    match service {
        None => (
            Ok(ServicePlan { port: 0, udp_port: 0, socket_type, clone: false }),
            Ghost(None),
            Ghost(None),
        ),
        Some(name) => match parse_port(name) {
            Some(raw_port) => {
                let port = htons((raw_port % 0x1_0000) as u16);
                (
                    Ok(ServicePlan { port, udp_port: port, socket_type, clone: false }),
                    Ghost(None),
                    Ghost(None),
                )
            },
            None => {
                let udp = if socket_type == 0 || socket_type == SOCK_DGRAM {
                    getservbyname(name, false)
                } else {
                    None
                };
                let tcp = if socket_type == 0 || socket_type == SOCK_STREAM {
                    getservbyname(name, true)
                } else {
                    None
                };
                (plan_named_service(socket_type, udp, tcp), Ghost(udp), Ghost(tcp))
            },
        },
    }
}

/// Turns the node of a request into an address where it is absent or numeric.
fn address_of<A: FnOnce(&[u8]) -> u32>(node: Option<&[u8]>, flags: i32, inet_addr: A) -> (out: (
    Option<u32>,
    Ghost<u32>,
))
    requires
        forall|name: &[u8]| inet_addr.requires((name,)),
    ensures
        out.0 == numeric_address(text(node), flags, out.1@),
        node matches Some(name) ==> count_dots(name@) == 3 ==> inet_addr.ensures((name,), out.1@),
{
    match node {
        None => {
            let any_or_loopback = if flags & AI_PASSIVE != 0 {
                INADDR_ANY
            } else {
                INADDR_LOOPBACK
            };
            (Some(htonl(any_or_loopback)), Ghost(0))
        },
        Some(name) => {
            let parsed = wspiapi_parse_v4_address(name, inet_addr);
            let ghost answer = if count_dots(name@) == 3 {
                choose|answer: u32| #[trigger]
                    inet_addr.ensures((name,), answer) && parsed == accepted_v4(answer)
            } else {
                0
            };
            (parsed, Ghost(answer))
        },
    }
}

/// Resolves a node name and a service name to a list of IPv4 addresses.
///
/// The three lookups are handed in: `getservbyname` finds the port of a
/// service for datagrams (`false`) or streams (`true`), `inet_addr` reads a
/// dotted address, and `lookup_node` finds the addresses of a host, given the
/// socket type, protocol and port for its entries and whether the canonical
/// name is wanted. The answer is `resolved` of the request and of what the
/// lookups answered.
pub fn wspiapi_legacy_get_addr_info<S, A, H>(
    node: Option<&[u8]>,
    service: Option<&[u8]>,
    hints: Option<Hints>,
    getservbyname: &S,
    inet_addr: A,
    lookup_node: H,
) -> (res: Result<AddrInfoList, i32>) where
    S: Fn(&[u8], bool) -> Option<u16>,
    A: FnOnce(&[u8]) -> u32,
    H: FnOnce(&[u8], i32, i32, u16, bool) -> Result<AddrInfoList, i32>,

    requires
        forall|name: &[u8], tcp: bool| getservbyname.requires((name, tcp)),
        forall|name: &[u8]| inet_addr.requires((name,)),
        forall|name: &[u8], socket_type: i32, protocol: i32, port: u16, canonical: bool|
            lookup_node.requires((name, socket_type, protocol, port, canonical)),
    ensures
        exists|lookups: Lookups| #[trigger]
            consulted(node, service, hints, lookups, *getservbyname, inet_addr, lookup_node)
                && answer_view(res) == resolved(text(node), text(service), hints, lookups),
{
    let ghost unasked = Err::<AddrInfoList, i32>(0);
    if node.is_none() && service.is_none() {
        proof {
            let lookups = Lookups { udp: None, tcp: None, parsed: 0, hosts: unasked };
            assert(consulted(node, service, hints, lookups, *getservbyname, inet_addr, lookup_node));
        }
        return Err(EAI_NONAME);
    }
    let request = match check_hints(node.is_some(), hints) {
        Ok(request) => request,
        Err(error) => {
            proof {
                let lookups = Lookups { udp: None, tcp: None, parsed: 0, hosts: unasked };
                assert(consulted(
                    node,
                    service,
                    hints,
                    lookups,
                    *getservbyname,
                    inet_addr,
                    lookup_node,
                ));
            }
            return Err(error);
        },
    };
    let (planned_service, Ghost(udp), Ghost(tcp)) = plan_service(
        service,
        request.socket_type,
        getservbyname,
    );
    let plan = match planned_service {
        Ok(plan) => plan,
        Err(error) => {
            proof {
                let lookups = Lookups { udp, tcp, parsed: 0, hosts: unasked };
                assert(consulted(
                    node,
                    service,
                    hints,
                    lookups,
                    *getservbyname,
                    inet_addr,
                    lookup_node,
                ));
            }
            return Err(error);
        },
    };
    let (address, Ghost(parsed)) = address_of(node, request.flags, inet_addr);
    let mut list = match address {
        Some(address) => {
            proof {
                let lookups = Lookups { udp, tcp, parsed, hosts: unasked };
                assert(consulted(
                    node,
                    service,
                    hints,
                    lookups,
                    *getservbyname,
                    inet_addr,
                    lookup_node,
                ));
            }
            let mut entries = Vec::new();
            entries.push(wspiapi_new_addr_info(plan.socket_type, request.protocol, plan.port, address));
            AddrInfoList { entries, canonname: None }
        },
        None => {
            if request.flags & AI_NUMERICHOST != 0 {
                proof {
                    let lookups = Lookups { udp, tcp, parsed, hosts: unasked };
                    assert(consulted(
                        node,
                        service,
                        hints,
                        lookups,
                        *getservbyname,
                        inet_addr,
                        lookup_node,
                    ));
                }
                return Err(EAI_NONAME);
            }
            let name = match node {
                Some(name) => name,
                None => vstd::pervasive::unreached(),
            };
            let hosts = lookup_node(
                name,
                plan.socket_type,
                request.protocol,
                plan.port,
                request.flags & AI_CANONNAME != 0,
            );
            proof {
                let lookups = Lookups { udp, tcp, parsed, hosts };
                assert(consulted(
                    node,
                    service,
                    hints,
                    lookups,
                    *getservbyname,
                    inet_addr,
                    lookup_node,
                ));
            }
            match hosts {
                Ok(list) => list,
                Err(error) => {
                    if error != 0 {
                        return Err(error);
                    }
                    AddrInfoList { entries: Vec::new(), canonname: None }
                },
            }
        },
    };
    if plan.clone {
        wspiapi_clone(plan.udp_port, &mut list.entries);
    }
    Ok(list)
}

/// The length of the text in a buffer: the number of bytes before the
/// first zero, or all of them where there is no zero.
pub open spec fn c_len(buf: Seq<u8>) -> nat
    decreases buf.len(),
{
    if buf.len() == 0 || buf[0] == 0 {
        0
    } else {
        1 + c_len(buf.skip(1))
    }
}

/// The text in a buffer: the bytes before the first zero.
pub open spec fn c_str(buf: Seq<u8>) -> Seq<u8> {
    buf.take(c_len(buf) as int)
}

/// The text ends at the first place that holds a zero or ends the buffer.
proof fn lemma_c_len(buf: Seq<u8>, end: int)
    requires
        0 <= end <= buf.len(),
        forall|j: int| 0 <= j < end ==> buf[j] != 0,
        end == buf.len() || buf[end] == 0,
    ensures
        c_len(buf) == end,
    decreases buf.len(),
{
    if end > 0 {
        let rest = buf.skip(1);
        assert forall|j: int| 0 <= j < end - 1 implies rest[j] != 0 by {
            assert(rest[j] == buf[j + 1]);
        }
        lemma_c_len(rest, end - 1);
    }
}

/// Measures the text in a buffer.
fn text_len(buf: &[u8; NI_MAXHOST]) -> (len: usize)
    ensures
        len == c_len(buf@),
        len <= NI_MAXHOST,
{
    let mut len: usize = 0;
    while len < NI_MAXHOST && buf[len] != 0
        invariant
            len <= NI_MAXHOST,
            buf@.len() == NI_MAXHOST,
            forall|j: int| 0 <= j < len ==> buf@[j] != 0,
        decreases NI_MAXHOST - len,
    {
        len = len + 1;
    }
    proof {
        lemma_c_len(buf@, len as int);
    }
    len
}

/// Whether two buffers hold the same text.
fn same_text(name: &[u8; NI_MAXHOST], alias: &[u8; NI_MAXHOST]) -> (same: bool)
    ensures
        same == (c_str(name@) == c_str(alias@)),
{
    let len = text_len(name);
    if len != text_len(alias) {
        proof {
            assert(c_str(name@).len() != c_str(alias@).len());
        }
        return false;
    }
    let mut i: usize = 0;
    while i < len
        invariant
            i <= len,
            len == c_len(name@),
            len == c_len(alias@),
            len <= NI_MAXHOST,
            name@.len() == NI_MAXHOST,
            alias@.len() == NI_MAXHOST,
            forall|j: int| 0 <= j < i ==> name@[j] == alias@[j],
        decreases len - i,
    {
        if name[i] != alias[i] {
            proof {
                assert(c_str(name@)[i as int] != c_str(alias@)[i as int]);
            }
            return false;
        }
        i = i + 1;
    }
    proof {
        assert(c_str(name@) =~= c_str(alias@));
    }
    true
}

/// Copies the text of a buffer.
pub fn wspiapi_strdup(string: &[u8; NI_MAXHOST]) -> (copy: Vec<u8>)
    ensures
        copy@ == c_str(string@),
{
    let len = text_len(string);
    let mut copy: Vec<u8> = Vec::new();
    let mut i: usize = 0;
    while i < len
        invariant
            i <= len,
            len == c_len(string@),
            len <= NI_MAXHOST,
            string@.len() == NI_MAXHOST,
            copy@ == string@.take(i as int),
        decreases len - i,
    {
        copy.push(string[i]);
        proof {
            assert(copy@ =~= string@.take(i + 1));
        }
        i = i + 1;
    }
    copy
}

/// What a host lookup finds: the name of the host on record, the kind and
/// length of its addresses, and the addresses.
pub struct HostEnt {
    pub h_name: Vec<u8>,
    pub h_addrtype: u16,
    pub h_length: u16,
    pub h_addr_list: Vec<u32>,
}

/// The entries, one for each address.
pub open spec fn entries_for(
    addresses: Seq<u32>,
    socket_type: i32,
    protocol: i32,
    port: u16,
) -> Seq<AddrInfo> {
    Seq::new(addresses.len(), |i: int| new_addr_info(socket_type, protocol, port, addresses[i]))
}

/// The result list after a host was found: its addresses as entries where
/// they are IPv4 addresses and there is at least one, the list as it was
/// otherwise.
pub open spec fn hosted(
    before: Seq<AddrInfo>,
    host: HostEnt,
    socket_type: i32,
    protocol: i32,
    port: u16,
) -> Seq<AddrInfo> {
    if host.h_addrtype == AF_INET && host.h_length == IN_ADDR_SIZE && host.h_addr_list@.len() > 0 {
        entries_for(host.h_addr_list@, socket_type, protocol, port)
    } else {
        before
    }
}

/// The resolver's error for the answer of a host lookup, zero for a host found.
pub open spec fn host_error(answer: Result<HostEnt, i32>) -> i32 {
    match answer {
        Ok(_) => 0,
        Err(lookup_error) => dns_error(lookup_error),
    }
}

/// The result list after the answer of a host lookup was taken down.
pub open spec fn host_entries(
    answer: Result<HostEnt, i32>,
    before: Seq<AddrInfo>,
    socket_type: i32,
    protocol: i32,
    port: u16,
) -> Seq<AddrInfo> {
    match answer {
        Ok(host) => hosted(before, host, socket_type, protocol, port),
        Err(_) => before,
    }
}

/// The alias buffer after the answer of a host lookup was taken down.
pub open spec fn host_alias(answer: Result<HostEnt, i32>, before: Seq<u8>) -> Seq<u8> {
    match answer {
        Ok(host) => copied(before, host.h_name@),
        Err(_) => before,
    }
}

/// Takes down what a host lookup answered. An error is mapped and changes
/// nothing. A host that was found has its IPv4 addresses put in place of the
/// list and its name on record copied to `alias_ref`, and the answer is 0.
pub fn record_host(
    answer: &Result<HostEnt, i32>,
    socket_type: i32,
    protocol: i32,
    port: u16,
    alias_ref: &mut [u8; NI_MAXHOST],
    res: &mut Vec<AddrInfo>,
) -> (error: i32)
    ensures
        error == host_error(*answer),
        error == 0 || error == EAI_NONAME || error == EAI_AGAIN || error == EAI_FAIL,
        final(res)@ == host_entries(*answer, old(res)@, socket_type, protocol, port),
        final(alias_ref)@ == host_alias(*answer, old(alias_ref)@),
{
    match answer {
        Ok(host) => {
            if host.h_addrtype == AF_INET && host.h_length == IN_ADDR_SIZE
                && host.h_addr_list.len() > 0 {
                let mut entries: Vec<AddrInfo> = Vec::new();
                let mut i: usize = 0;
                while i < host.h_addr_list.len()
                    invariant
                        i <= host.h_addr_list@.len(),
                        entries@ == entries_for(
                            host.h_addr_list@.take(i as int),
                            socket_type,
                            protocol,
                            port,
                        ),
                    decreases host.h_addr_list@.len() - i,
                {
                    entries.push(
                        wspiapi_new_addr_info(socket_type, protocol, port, host.h_addr_list[i]),
                    );
                    proof {
                        assert(entries@ =~= entries_for(
                            host.h_addr_list@.take(i + 1),
                            socket_type,
                            protocol,
                            port,
                        ));
                    }
                    i = i + 1;
                }
                proof {
                    assert(host.h_addr_list@.take(i as int) == host.h_addr_list@);
                }
                *res = entries;
            }
            wspiapi_strcpy_ni_maxhost(alias_ref, host.h_name.as_slice());
            0
        },
        Err(lookup_error) => map_dns_error(*lookup_error),
    }
}

/// Looks a host up once: empties the alias, asks `gethostbyname` for the
/// node, and takes down the answer as `record_host` says.
pub fn wspiapi_query_dns<G: Fn(&[u8]) -> Result<HostEnt, i32>>(
    node: &[u8],
    socket_type: i32,
    protocol: i32,
    port: u16,
    alias_ref: &mut [u8; NI_MAXHOST],
    res: &mut Vec<AddrInfo>,
    gethostbyname: &G,
) -> (error: i32)
    requires
        gethostbyname.requires((node,)),
    ensures
        exists|answer: Result<HostEnt, i32>| #[trigger]
            gethostbyname.ensures((node,), answer) && {
                &&& error == host_error(answer)
                &&& final(res)@ == host_entries(answer, old(res)@, socket_type, protocol, port)
                &&& final(alias_ref)@ == host_alias(answer, old(alias_ref)@.update(0, 0u8))
            },
{
    alias_ref[0] = 0;
    let answer = gethostbyname(node);
    record_host(&answer, socket_type, protocol, port, alias_ref, res)
}

/// What follows one lookup in the pursuit of a host.
#[derive(Debug, Clone, Copy, PartialEq, Eq, Structural)]
pub enum Pursuit {
    /// The pursuit ends with this error, zero for none.
    Done(i32),
    /// The host is looked up again.
    Again,
}

/// The most lookups that one pursuit makes.
pub const ALIAS_LIMIT: u32 = 16;

/// What follows a lookup that answered `error`, left the list with entries
/// or not (`found`), and left an alias that is empty or not and the same as
/// the name or not, after `alias_count` lookups that were followed by
/// another. An error ends the pursuit, and so does an empty list. A list
/// with entries is pursued further, and that fails with `EAI_FAIL` where the
/// alias is empty, names the host as before, or the limit is reached.
pub open spec fn pursue(
    error: i32,
    found: bool,
    alias_empty: bool,
    same_name: bool,
    alias_count: u32,
) -> Pursuit {
    if error > 0 || !found {
        Pursuit::Done(error)
    } else if alias_empty || same_name || alias_count + 1 == ALIAS_LIMIT {
        Pursuit::Done(EAI_FAIL)
    } else {
        Pursuit::Again
    }
}

/// Decides what follows one lookup.
pub fn after_query(
    error: i32,
    found: bool,
    alias_empty: bool,
    same_name: bool,
    alias_count: u32,
) -> (next: Pursuit)
    requires
        alias_count < ALIAS_LIMIT,
    ensures
        next == pursue(error, found, alias_empty, same_name, alias_count),
{
    if error > 0 {
        Pursuit::Done(error)
    } else if !found {
        Pursuit::Done(error)
    } else if alias_empty || same_name || alias_count + 1 == ALIAS_LIMIT {
        Pursuit::Done(EAI_FAIL)
    } else {
        Pursuit::Again
    }
}

/// Where the pursuit of a host stands.
pub struct Chase {
    /// The buffer with the name that the host was last known by.
    pub name: Seq<u8>,
    /// The buffer with the name that the last lookup gave.
    pub alias: Seq<u8>,
    /// The entries that the last lookup left.
    pub entries: Seq<AddrInfo>,
    /// The lookups so far that were followed by another.
    pub alias_count: nat,
    /// The error that ended the pursuit, zero for none.
    pub end: Option<i32>,
}

/// The pursuit of `node` before the first lookup: the node as name, cut to
/// the room of a host name, and no alias.
pub open spec fn chase_start(node: Seq<u8>) -> Chase {
    Chase {
        name: copied(Seq::new(NI_MAXHOST as nat, |i: int| 0u8), node),
        alias: Seq::new(NI_MAXHOST as nat, |i: int| 0u8),
        entries: Seq::empty(),
        alias_count: 0,
        end: None,
    }
}

/// The pursuit after one more lookup that answered `answer`. The answer is
/// taken down, and `pursue` says what follows; where the host is looked up
/// again, the alias becomes the name.
pub open spec fn chase_step(
    c: Chase,
    answer: Result<HostEnt, i32>,
    socket_type: i32,
    protocol: i32,
    port: u16,
) -> Chase {
    let alias = host_alias(answer, c.alias.update(0, 0u8));
    let entries = host_entries(answer, c.entries, socket_type, protocol, port);
    match pursue(
        host_error(answer),
        entries.len() > 0,
        alias[0] == 0,
        c_str(c.name) == c_str(alias),
        c.alias_count as u32,
    ) {
        Pursuit::Done(error) => Chase {
            name: c.name,
            alias,
            entries,
            alias_count: c.alias_count,
            end: Some(error),
        },
        Pursuit::Again => Chase {
            name: alias,
            alias: c.name,
            entries,
            alias_count: c.alias_count + 1,
            end: None,
        },
    }
}

/// The pursuit of `node` after lookups that answered `answers`, in order.
pub open spec fn chase(
    node: Seq<u8>,
    answers: Seq<Result<HostEnt, i32>>,
    socket_type: i32,
    protocol: i32,
    port: u16,
) -> Chase
    decreases answers.len(),
{
    if answers.len() == 0 {
        chase_start(node)
    } else {
        chase_step(
            chase(node, answers.drop_last(), socket_type, protocol, port),
            answers.last(),
            socket_type,
            protocol,
            port,
        )
    }
}

/// What a pursuit that has ended comes to: its error, or its entries, with
/// the last alias as canonical name where one is wanted.
pub open spec fn chased(c: Chase, ai_canonname: bool) -> Result<Addresses, i32> {
    match c.end {
        Some(error) if error != 0 => Err(error),
        _ => Ok(
            Addresses {
                entries: c.entries,
                canonname: if ai_canonname {
                    Some(c_str(c.alias))
                } else {
                    None
                },
            },
        ),
    }
}

/// A pursuit ends in success only with an empty list, and in failure only
/// with one of three errors.
pub proof fn lemma_chase_ends(
    c: Chase,
    answer: Result<HostEnt, i32>,
    socket_type: i32,
    protocol: i32,
    port: u16,
)
    ensures
        chase_step(c, answer, socket_type, protocol, port).end matches Some(error) ==> {
            ||| error == 0 && chase_step(c, answer, socket_type, protocol, port).entries.len() == 0
            ||| error == EAI_NONAME
            ||| error == EAI_AGAIN
            ||| error == EAI_FAIL
        },
{
}

/// Looks up the addresses of a host, by at most `ALIAS_LIMIT` lookups of
/// the node through `gethostbyname`. The answer is `chased` of the pursuit
/// that the answers of the lookups make, and that pursuit has ended.
pub fn wspiapi_lookup_node<G: Fn(&[u8]) -> Result<HostEnt, i32>>(
    node: &[u8],
    socket_type: i32,
    protocol: i32,
    port: u16,
    ai_canonname: bool,
    gethostbyname: &G,
) -> (res: Result<AddrInfoList, i32>)
    requires
        gethostbyname.requires((node,)),
    ensures
        exists|answers: Seq<Result<HostEnt, i32>>|
            {
                &&& 0 < answers.len() <= ALIAS_LIMIT
                &&& forall|i: int|
                    0 <= i < answers.len() ==> gethostbyname.ensures((node,), #[trigger] answers[i])
                &&& (#[trigger] chase(node@, answers, socket_type, protocol, port)).end is Some
                &&& answer_view(res) == chased(
                    chase(node@, answers, socket_type, protocol, port),
                    ai_canonname,
                )
            },
{
    let mut entries: Vec<AddrInfo> = Vec::new();
    let mut name: [u8; NI_MAXHOST] = [0u8; NI_MAXHOST];
    wspiapi_strcpy_ni_maxhost(&mut name, node);
    let mut alias: [u8; NI_MAXHOST] = [0u8; NI_MAXHOST];
    let mut alias_count: u32 = 0;
    let mut error: i32 = 0;
    let mut pursuing = true;
    let ghost mut answers: Seq<Result<HostEnt, i32>> = Seq::empty();
    proof {
        assert(name@ =~= chase_start(node@).name);
        assert(alias@ =~= chase_start(node@).alias);
    }
    while pursuing
        invariant
            gethostbyname.requires((node,)),
            alias_count < ALIAS_LIMIT,
            answers.len() == alias_count + (if pursuing {
                0int
            } else {
                1int
            }),
            forall|i: int|
                0 <= i < answers.len() ==> gethostbyname.ensures((node,), #[trigger] answers[i]),
            chase(node@, answers, socket_type, protocol, port) == (Chase {
                name: name@,
                alias: alias@,
                entries: entries@,
                alias_count: alias_count as nat,
                end: if pursuing {
                    None
                } else {
                    Some(error)
                },
            }),
        decreases
                2 * (ALIAS_LIMIT - alias_count) + (if pursuing {
                    1int
                } else {
                    0int
                }),
    {
        let ghost before = chase(node@, answers, socket_type, protocol, port);
        error =
        wspiapi_query_dns(node, socket_type, protocol, port, &mut alias, &mut entries, gethostbyname);
        proof {
            let answer = choose|answer: Result<HostEnt, i32>| #[trigger]
                gethostbyname.ensures((node,), answer) && error == host_error(answer) && entries@
                    == host_entries(answer, before.entries, socket_type, protocol, port) && alias@
                    == host_alias(answer, before.alias.update(0, 0u8));
            assert(answers.push(answer).drop_last() == answers);
            answers = answers.push(answer);
        }
        let alias_empty = alias[0] == 0;
        let same_name = same_text(&name, &alias);
        match after_query(error, entries.len() > 0, alias_empty, same_name, alias_count) {
            Pursuit::Done(end) => {
                error = end;
                pursuing = false;
            },
            Pursuit::Again => {
                alias_count = alias_count + 1;
                let held = name;
                name = alias;
                alias = held;
            },
        }
    }
    if error != 0 {
        return Err(error);
    }
    let canonname = if ai_canonname {
        Some(wspiapi_strdup(&alias))
    } else {
        None
    };
    Ok(AddrInfoList { entries, canonname })
}

} // verus!
