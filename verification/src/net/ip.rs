//! IPv4: header format, checksummed packet construction, routing of outgoing packets and the
//! dispatch of incoming ones.
use vstd::prelude::*;

use crate::bytes::{be16, be16_at, be32_at, spec_u16_be};
use crate::net::ethernet::{frame_bytes, EtherType, EthernetPacket, MacAddress};
use crate::net::{internet_checksum, spec_octets, with_word, Interface, Ipv4Addr};

verus! {

/// Transport protocols that this stack recognises inside IPv4.
#[derive(Clone, Copy, Debug, PartialEq, Eq, Structural)]
pub enum IPProtocol {
    Icmp,
    Tcp,
    Udp,
}

/// The protocol number of `p`.
pub open spec fn ip_protocol_value(p: IPProtocol) -> u8 {
    match p {
        IPProtocol::Icmp => 0x01,
        IPProtocol::Tcp => 0x06,
        IPProtocol::Udp => 0x11,
    }
}

/// The protocol that number `v` names, if this stack knows it.
pub open spec fn spec_ip_protocol(v: u8) -> Option<IPProtocol> {
    if v == 0x01 {
        Some(IPProtocol::Icmp)
    } else if v == 0x06 {
        Some(IPProtocol::Tcp)
    } else if v == 0x11 {
        Some(IPProtocol::Udp)
    } else {
        None
    }
}

impl IPProtocol {
    /// The protocol named by `value`; gives `value` back when it names none.
    pub fn try_from(value: u8) -> (r: Result<IPProtocol, u8>)
        ensures
            r matches Ok(p) ==> spec_ip_protocol(value) == Some(p),
            r matches Err(e) ==> spec_ip_protocol(value) is None && e == value,
    {
        if value == 0x01 {
            Ok(IPProtocol::Icmp)
        } else if value == 0x06 {
            Ok(IPProtocol::Tcp)
        } else if value == 0x11 {
            Ok(IPProtocol::Udp)
        } else {
            Err(value)
        }
    }

    /// The protocol number.
    pub fn value(self) -> (r: u8)
        ensures
            r == ip_protocol_value(self),
    {
        match self {
            IPProtocol::Icmp => 0x01,
            IPProtocol::Tcp => 0x06,
            IPProtocol::Udp => 0x11,
        }
    }
}

/// The "reserved" flag bit.
pub const IPV4_FLAG_R: u8 = 1;

/// The "don't fragment" flag bit.
pub const IPV4_FLAG_DF: u8 = 2;

/// The "more fragments" flag bit.
pub const IPV4_FLAG_MF: u8 = 4;

/// An IPv4 header without options.
#[derive(Clone, Copy, Debug)]
pub struct IPv4Header {
    /// 4-bit version; 4 for IPv4.
    pub version: u8,
    /// 4-bit header length in 32-bit words; 5 without options.
    pub ihl: u8,
    /// Differentiated services code point.
    pub dscp: u8,
    /// 2-bit explicit congestion notification.
    pub ecn: u8,
    /// Length of the whole packet, header included.
    pub total_length: u16,
    pub identification: u16,
    /// 3 flag bits (`IPV4_FLAG_*`).
    pub flags: u8,
    /// 13-bit fragment offset.
    pub fragment_offset: u16,
    pub ttl: u8,
    pub protocol: IPProtocol,
    pub header_checksum: u16,
    pub source_address: Ipv4Addr,
    pub destination_address: Ipv4Addr,
}

/// Ways in which an IPv4 packet fails to be read or built.
#[derive(Debug, PartialEq, Eq, Structural)]
pub enum IpError {
    PacketNotLongEnough,
    UnknownProtocol,
    DataTooLong,
}

/// Whether the fields of `h` are those that the 20 header bytes `v` hold.
pub open spec fn ipv4_header_matches(h: IPv4Header, v: Seq<u8>) -> bool {
    &&& v.len() >= 20
    &&& h.version == v[0] / 16
    &&& h.ihl == v[0] % 16
    &&& h.dscp == v[1] / 4
    &&& h.ecn == v[1] % 4
    &&& h.total_length == be16_at(v, 2)
    &&& h.identification == be16_at(v, 4)
    &&& h.flags == v[6] / 32
    &&& h.fragment_offset == be16_at(v, 6) % 0x2000
    &&& h.ttl == v[8]
    &&& Some(h.protocol) == spec_ip_protocol(v[9])
    &&& h.header_checksum == be16_at(v, 10)
    &&& h.source_address.0 == be32_at(v, 12)
    &&& h.destination_address.0 == be32_at(v, 16)
}

/// The 20 bytes of `h` on the wire.
pub open spec fn ipv4_header_bytes(h: IPv4Header) -> Seq<u8> {
    seq![((h.version % 16) * 16 + h.ihl % 16) as u8, ((h.dscp % 64) * 4 + h.ecn % 4) as u8]
        + spec_u16_be(h.total_length) + spec_u16_be(h.identification) + spec_u16_be(
        ((h.flags % 8) * 0x2000 + h.fragment_offset % 0x2000) as u16,
    ) + seq![h.ttl, ip_protocol_value(h.protocol)] + spec_u16_be(h.header_checksum) + spec_octets(
        h.source_address,
    ) + spec_octets(h.destination_address)
}

/// Whether every field of `h` fits the width it has on the wire, so that writing and reading
/// it loses nothing.
pub open spec fn ipv4_header_fits(h: IPv4Header) -> bool {
    &&& h.version < 16
    &&& h.ihl < 16
    &&& h.dscp < 64
    &&& h.ecn < 4
    &&& h.flags < 8
    &&& h.fragment_offset < 0x2000
}

/// `h` with its checksum field replaced by `c`.
pub open spec fn with_header_checksum(h: IPv4Header, c: u16) -> IPv4Header {
    IPv4Header { header_checksum: c, ..h }
}

/// The header of a packet that this stack sends from `source` to `destination` with a payload
/// of `payload_len` bytes: no options, don't-fragment, identification 0xFEED, TTL 20, ICMP,
/// and the checksum of the header's own bytes.
pub open spec fn outgoing_header(source: Ipv4Addr, destination: Ipv4Addr, payload_len: nat) -> IPv4Header {
    let h0 = IPv4Header {
        version: 4,
        ihl: 5,
        dscp: 0,
        ecn: 0,
        total_length: crate::bytes::word16(20int + payload_len),
        identification: 0xFEED,
        flags: IPV4_FLAG_DF,
        fragment_offset: 0,
        ttl: 20,
        protocol: IPProtocol::Icmp,
        header_checksum: 0,
        source_address: source,
        destination_address: destination,
    };
    with_header_checksum(h0, internet_checksum(ipv4_header_bytes(h0)))
}

impl IPv4Header {
    /// Reads a header from its 20 bytes; fails when the protocol is not one this stack knows.
    pub fn try_from(v: [u8; 20]) -> (r: Result<IPv4Header, IpError>)
        ensures
            r is Ok <==> spec_ip_protocol(v@[9]) is Some,
            r matches Ok(h) ==> ipv4_header_matches(h, v@),
            r matches Err(e) ==> e == IpError::UnknownProtocol,
    {
        let protocol = match IPProtocol::try_from(v[9]) {
            Ok(p) => p,
            Err(_) => {
                return Err(IpError::UnknownProtocol);
            },
        };
        let f = crate::bytes::u16_from_be(v[6], v[7]);
        let source_address = Ipv4Addr(crate::bytes::u32_from_be(v[12], v[13], v[14], v[15]));
        let destination_address = Ipv4Addr(crate::bytes::u32_from_be(v[16], v[17], v[18], v[19]));
        Ok(IPv4Header {
            version: v[0] / 16,
            ihl: v[0] % 16,
            dscp: v[1] / 4,
            ecn: v[1] % 4,
            total_length: crate::bytes::u16_from_be(v[2], v[3]),
            identification: crate::bytes::u16_from_be(v[4], v[5]),
            flags: v[6] / 32,
            fragment_offset: f % 0x2000,
            ttl: v[8],
            protocol,
            header_checksum: crate::bytes::u16_from_be(v[10], v[11]),
            source_address,
            destination_address,
        })
    }

    /// The 20 bytes of the header on the wire.
    pub fn to_bytes(&self) -> (r: [u8; 20])
        ensures
            r@ == ipv4_header_bytes(*self),
    {
        let b0 = (self.version % 16) * 16 + self.ihl % 16;
        let b1 = (self.dscp % 64) * 4 + self.ecn % 4;
        let tl = crate::bytes::u16_to_be(self.total_length);
        let id = crate::bytes::u16_to_be(self.identification);
        let fo = crate::bytes::u16_to_be((self.flags % 8) as u16 * 0x2000 + self.fragment_offset % 0x2000);
        let cs = crate::bytes::u16_to_be(self.header_checksum);
        let s = self.source_address.octets();
        let d = self.destination_address.octets();
        let r = [
            b0,
            b1,
            tl[0],
            tl[1],
            id[0],
            id[1],
            fo[0],
            fo[1],
            self.ttl,
            self.protocol.value(),
            cs[0],
            cs[1],
            s[0],
            s[1],
            s[2],
            s[3],
            d[0],
            d[1],
            d[2],
            d[3],
        ];
        assert(r@ =~= ipv4_header_bytes(*self));
        r
    }
}

/// An IPv4 packet whose payload is borrowed from the buffer it came from.
#[derive(Debug)]
pub struct IPv4Packet<'a> {
    pub header: IPv4Header,
    pub data: &'a [u8],
}

/// The bytes of a packet on the wire.
pub open spec fn ipv4_packet_bytes(h: IPv4Header, data: Seq<u8>) -> Seq<u8> {
    ipv4_header_bytes(h) + data
}

/// The error with which `IPv4Packet::try_from` refuses `v`, if it refuses it.
pub open spec fn ipv4_error_for(v: Seq<u8>) -> Option<IpError> {
    if v.len() < 21 {
        Some(IpError::PacketNotLongEnough)
    } else if spec_ip_protocol(v[9]) is None {
        Some(IpError::UnknownProtocol)
    } else {
        None
    }
}

/// Largest payload that `from_source_dest_and_data` accepts: what fits in one Ethernet frame.
pub open spec fn max_ipv4_payload() -> int {
    crate::net::ethernet::ETHERNET_MTU - 20
}

impl<'a> IPv4Packet<'a> {
    /// Reads a packet: the 20-byte header and the payload after it.
    pub fn try_from(v: &'a [u8]) -> (r: Result<IPv4Packet<'a>, IpError>)
        ensures
            r is Err <==> ipv4_error_for(v@) is Some,
            r matches Err(e) ==> ipv4_error_for(v@) == Some(e),
            r matches Ok(p) ==> ipv4_header_matches(p.header, v@) && p.data@ == v@.subrange(
                20,
                v@.len() as int,
            ),
    {
        if v.len() < 21 {
            return Err(IpError::PacketNotLongEnough);
        }
        let h: [u8; 20] = [
            v[0],
            v[1],
            v[2],
            v[3],
            v[4],
            v[5],
            v[6],
            v[7],
            v[8],
            v[9],
            v[10],
            v[11],
            v[12],
            v[13],
            v[14],
            v[15],
            v[16],
            v[17],
            v[18],
            v[19],
        ];
        let header = match IPv4Header::try_from(h) {
            Ok(hd) => hd,
            Err(e) => {
                return Err(e);
            },
        };
        proof {
            assert(forall|i: int| 0 <= i < 20 ==> h@[i] == v@[i]);
        }
        Ok(IPv4Packet { header, data: vstd::slice::slice_subrange(v, 20, v.len()) })
    }

    /// A packet from `source` to `destination` carrying `data` as ICMP, with its checksum
    /// filled in; fails when `data` does not fit in one Ethernet frame.
    pub fn from_source_dest_and_data(source: Ipv4Addr, destination: Ipv4Addr, data: &'a [u8]) -> (r:
        Result<IPv4Packet<'a>, IpError>)
        ensures
            r is Err <==> data@.len() > max_ipv4_payload(),
            r matches Err(e) ==> e == IpError::DataTooLong,
            r matches Ok(p) ==> {
                &&& p.data@ == data@
                &&& p.header.version == 4
                &&& p.header.ihl == 5
                &&& p.header.dscp == 0
                &&& p.header.ecn == 0
                &&& p.header.total_length == 20 + data@.len()
                &&& p.header.identification == 0xFEED
                &&& p.header.flags == IPV4_FLAG_DF
                &&& p.header.fragment_offset == 0
                &&& p.header.ttl == 20
                &&& p.header.protocol == IPProtocol::Icmp
                &&& p.header.source_address == source
                &&& p.header.destination_address == destination
                &&& p.header.header_checksum == internet_checksum(
                    ipv4_header_bytes(with_header_checksum(p.header, 0)),
                )
                &&& p.header == outgoing_header(source, destination, data@.len())
            },
    {
        if data.len() > 0xffff - 20 {
            return Err(IpError::DataTooLong);
        }
        let total_len = crate::bytes::usize_to_u16(20 + data.len());
        if total_len > crate::net::ethernet::ETHERNET_MTU {
            return Err(IpError::DataTooLong);
        }
        let p = IPv4Packet {
            header: IPv4Header {
                version: 4,
                ihl: 5,
                dscp: 0,
                ecn: 0,
                total_length: total_len,
                identification: 0xFEED,
                flags: IPV4_FLAG_DF,
                fragment_offset: 0,
                ttl: 20,
                protocol: IPProtocol::Icmp,
                header_checksum: 0,
                source_address: source,
                destination_address: destination,
            },
            data,
        };
        Ok(p.with_checksum())
    }

    /// The packet as the bytes that go on the wire.
    pub fn to_bytes(&self) -> (r: Vec<u8>)
        requires
            self.data@.len() + 20 <= usize::MAX,
        ensures
            r@ == ipv4_packet_bytes(self.header, self.data@),
    {
        let h = self.header.to_bytes();
        let mut buf: Vec<u8> = Vec::with_capacity(20 + self.data.len());
        buf.extend_from_slice(h.as_slice());
        buf.extend_from_slice(self.data);
        assert(buf@ =~= ipv4_packet_bytes(self.header, self.data@));
        buf
    }

    /// The packet with its header checksum recomputed over the header.
    pub fn with_checksum(self) -> (r: Self)
        ensures
            r.data == self.data,
            r.header == with_header_checksum(
                self.header,
                internet_checksum(ipv4_header_bytes(with_header_checksum(self.header, 0))),
            ),
    {
        let mut s = self;
        s.header.header_checksum = 0;
        let bytes = s.header.to_bytes();
        s.header.header_checksum = crate::net::ones_complement_checksum(bytes.as_slice());
        s
    }
}

/// `ipv4_header_bytes` with the checksum field set is the zero-checksum header with its
/// sixth word replaced.
proof fn lemma_header_bytes_with_checksum(h: IPv4Header, c: u16)
    ensures
        ipv4_header_bytes(with_header_checksum(h, c)) == with_word(
            ipv4_header_bytes(with_header_checksum(h, 0)),
            5,
            c,
        ),
{
    assert(ipv4_header_bytes(with_header_checksum(h, c)) =~= with_word(
        ipv4_header_bytes(with_header_checksum(h, 0)),
        5,
        c,
    ));
}

/// Law: a header whose checksum was computed by `with_checksum` verifies: the checksum over
/// its 20 bytes is zero.
pub proof fn lemma_ipv4_checksum_verifies(h: IPv4Header)
    ensures
        ({
            let c = internet_checksum(ipv4_header_bytes(with_header_checksum(h, 0)));
            internet_checksum(ipv4_header_bytes(with_header_checksum(h, c))) == 0
        }),
{
    let z = ipv4_header_bytes(with_header_checksum(h, 0));
    let c = internet_checksum(z);
    lemma_header_bytes_with_checksum(h, c);
    crate::net::lemma_checksum_verifies(z, 5);
}

/// Law: a packet whose fields fit their widths, written to bytes and read back, gives the
/// same header and payload.
pub proof fn lemma_ipv4_roundtrip(h: IPv4Header, data: Seq<u8>)
    requires
        ipv4_header_fits(h),
        data.len() >= 1,
    ensures
        ipv4_error_for(ipv4_packet_bytes(h, data)) is None,
        ipv4_header_matches(h, ipv4_packet_bytes(h, data)),
        ipv4_packet_bytes(h, data).subrange(20, ipv4_packet_bytes(h, data).len() as int) == data,
{
    let b = ipv4_packet_bytes(h, data);
    let hb = ipv4_header_bytes(h);
    assert(hb.len() == 20);
    crate::bytes::lemma_u16_be_roundtrip(h.total_length);
    crate::bytes::lemma_u16_be_roundtrip(h.identification);
    crate::bytes::lemma_u16_be_roundtrip(h.header_checksum);
    crate::bytes::lemma_u32_be_roundtrip(h.source_address.0);
    crate::bytes::lemma_u32_be_roundtrip(h.destination_address.0);
    let fo = ((h.flags % 8) * 0x2000 + h.fragment_offset % 0x2000) as u16;
    crate::bytes::lemma_u16_be_roundtrip(fo);
    assert(fo == h.flags * 0x2000 + h.fragment_offset);
    assert(be16_at(b, 6) == fo);
    assert(fo / 256 / 32 == h.flags) by (nonlinear_arith)
        requires
            fo == h.flags * 0x2000 + h.fragment_offset,
            h.fragment_offset < 0x2000,
            h.flags < 8,
    ;
    assert(fo % 0x2000 == h.fragment_offset) by (nonlinear_arith)
        requires
            fo == h.flags * 0x2000 + h.fragment_offset,
            h.fragment_offset < 0x2000,
    ;
    assert(b.subrange(20, b.len() as int) =~= data);
}

/// The address whose hardware address an outgoing packet to `destination` is sent to: the
/// destination itself when it is on the same subnet as the gateway, otherwise the gateway.
pub open spec fn spec_next_hop(interface: Interface, destination: Ipv4Addr) -> Ipv4Addr {
    if interface.subnet_mask.0 & interface.gateway.0 == interface.subnet_mask.0 & destination.0 {
        destination
    } else {
        interface.gateway
    }
}

/// Law: a destination on the gateway's subnet (equal to it in every bit that the subnet mask
/// sets) is reached directly, any other through the gateway; on a /24 subnet that means the
/// first three octets agree; the gateway itself is always reached directly, and with an empty
/// mask every destination is.
pub proof fn lemma_next_hop(interface: Interface, destination: Ipv4Addr)
    ensures
        (interface.subnet_mask.0 & interface.gateway.0 == interface.subnet_mask.0 & destination.0) ==> spec_next_hop(interface, destination) == destination,
        (interface.subnet_mask.0 & interface.gateway.0 != interface.subnet_mask.0 & destination.0) ==> spec_next_hop(interface, destination) == interface.gateway,
        interface.subnet_mask.0 == 0xFFFF_FF00 ==> spec_next_hop(interface, destination) == (if interface.gateway.0 / 256 == destination.0 / 256 {
            destination
        } else {
            interface.gateway
        }),
        destination == interface.gateway ==> spec_next_hop(interface, destination) == destination,
        interface.subnet_mask.0 == 0 ==> spec_next_hop(interface, destination) == destination,
{
    let m = interface.subnet_mask.0;
    let g = interface.gateway.0;
    let d = destination.0;
    assert(m == 0xFFFF_FF00 ==> ((m & g == m & d) <==> g / 256 == d / 256)) by (bit_vector);
    assert(m == 0 ==> m & g == m & d) by (bit_vector);
}

/// Chooses the next hop of an outgoing packet to `destination`.
pub fn ipv4_next_hop(interface: &Interface, destination: Ipv4Addr) -> (r: Ipv4Addr)
    ensures
        r == spec_next_hop(*interface, destination),
        (interface.subnet_mask.0 & interface.gateway.0 == interface.subnet_mask.0 & destination.0) ==> r == destination,
        (interface.subnet_mask.0 & interface.gateway.0 != interface.subnet_mask.0 & destination.0) ==> r == interface.gateway,
{
    let on_same_subnet: bool = interface.subnet_mask.0 & interface.gateway.0
        == interface.subnet_mask.0 & destination.0;
    if on_same_subnet {
        destination
    } else {
        interface.gateway
    }
}

/// The Ethernet frame that carries `packet` from `interface` to the hardware address
/// `dest_mac` of its next hop.
pub fn ipv4_frame(packet: &IPv4Packet, interface: &Interface, dest_mac: MacAddress) -> (r: Vec<u8>)
    requires
        packet.data@.len() + 34 <= usize::MAX,
    ensures
        r@ == frame_bytes(
            dest_mac,
            interface.mac,
            EtherType::IPv4,
            ipv4_packet_bytes(packet.header, packet.data@),
        ),
{
    let bytes = packet.to_bytes();
    let ep = EthernetPacket {
        destination: dest_mac,
        source: interface.mac,
        typ: EtherType::IPv4,
        data: bytes.as_slice(),
    };
    ep.to_bytes()
}

/// What the stack does with an incoming IPv4 packet.
#[derive(Clone, Copy, Debug, PartialEq, Eq, Structural)]
pub enum IpAction {
    /// Not addressed to this interface.
    Ignore,
    Icmp,
    Tcp,
    Udp,
}

/// Decides how an incoming packet is handled: packets for other addresses are ignored, the
/// others go to the handler of their protocol.
pub fn handle_packet(packet: &IPv4Packet, interface: &Interface) -> (r: IpAction)
    ensures
        packet.header.destination_address != interface.ip ==> r == IpAction::Ignore,
        packet.header.destination_address == interface.ip ==> r == (match packet.header.protocol {
            IPProtocol::Icmp => IpAction::Icmp,
            IPProtocol::Tcp => IpAction::Tcp,
            IPProtocol::Udp => IpAction::Udp,
        }),
{
    if packet.header.destination_address != interface.ip {
        return IpAction::Ignore;
    }
    match packet.header.protocol {
        IPProtocol::Icmp => IpAction::Icmp,
        IPProtocol::Tcp => IpAction::Tcp,
        IPProtocol::Udp => IpAction::Udp,
    }
}


/// Law: the protocol numbers are IANA's: ICMP 1, TCP 6, UDP 17; a number read as a protocol
/// is that protocol's number, and every protocol is read back from its number.
pub proof fn lemma_ip_protocol_numbers(v: u8, p: IPProtocol)
    ensures
        ip_protocol_value(IPProtocol::Icmp) == 1,
        ip_protocol_value(IPProtocol::Tcp) == 6,
        ip_protocol_value(IPProtocol::Udp) == 17,
        spec_ip_protocol(v) matches Some(q) ==> ip_protocol_value(q) == v,
        spec_ip_protocol(ip_protocol_value(p)) == Some(p),
{
}

} // verus!
