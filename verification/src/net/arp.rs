//! Address Resolution Protocol: packet format, the table of learnt addresses, and the
//! answer to incoming requests.
use vstd::prelude::*;

use crate::bytes::{be16, be16_at, spec_u16_be};
use crate::net::ethernet::{
    ether_type_value, frame_bytes, spec_ether_type, EtherType, EthernetPacket, MacAddress,
};
use crate::net::{spec_octets, Interface, Ipv4Addr};

verus! {

/// Ways in which bytes fail to be an ARP packet for IPv4 over Ethernet.
#[derive(Debug, PartialEq, Eq, Structural)]
pub enum ArpError {
    PacketNotLongEnough,
    HardwareLengthNot6,
    HardwareTypeNotEthernet,
    ProtocolTypeNotIPv4,
    ProtocolLenNot4,
    UnknownProtocolType,
}

/// An ARP packet; it travels inside an Ethernet frame.
#[derive(Clone, Copy, Debug)]
pub struct ArpPacket {
    /// 1 means Ethernet.
    pub hardware_type: u16,
    pub protocol_type: EtherType,
    /// Length of a hardware address: 6 for Ethernet.
    pub hardware_length: u8,
    /// Length of a protocol address: 4 for IPv4.
    pub protocol_length: u8,
    /// 1 is a request, 2 a reply.
    pub operation: u16,
    pub sender_hardware_address: MacAddress,
    pub sender_protocol_address: Ipv4Addr,
    pub target_hardware_address: MacAddress,
    pub target_protocol_address: Ipv4Addr,
}

/// Length of an ARP packet for IPv4 over Ethernet.
pub const ARP_PACKET_LEN: usize = 28;

/// The error with which `ArpPacket::try_from` refuses `v`, if it refuses it.
pub open spec fn arp_error_for(v: Seq<u8>) -> Option<ArpError> {
    if v.len() < 28 {
        Some(ArpError::PacketNotLongEnough)
    } else if be16_at(v, 0) != 1 {
        Some(ArpError::HardwareTypeNotEthernet)
    } else if spec_ether_type(be16_at(v, 2)) is None {
        Some(ArpError::UnknownProtocolType)
    } else if be16_at(v, 2) != 0x0800 {
        Some(ArpError::ProtocolTypeNotIPv4)
    } else if v[4] != 6 {
        Some(ArpError::HardwareLengthNot6)
    } else if v[5] != 4 {
        Some(ArpError::ProtocolLenNot4)
    } else {
        None
    }
}

/// Whether the fields of `p` are those that the first 28 bytes of `v` hold.
pub open spec fn arp_matches(p: ArpPacket, v: Seq<u8>) -> bool {
    &&& v.len() >= 28
    &&& p.hardware_type == be16_at(v, 0)
    &&& Some(p.protocol_type) == spec_ether_type(be16_at(v, 2))
    &&& p.hardware_length == v[4]
    &&& p.protocol_length == v[5]
    &&& p.operation == be16_at(v, 6)
    &&& p.sender_hardware_address.0@ == v.subrange(8, 14)
    &&& spec_octets(p.sender_protocol_address) == v.subrange(14, 18)
    &&& p.target_hardware_address.0@ == v.subrange(18, 24)
    &&& spec_octets(p.target_protocol_address) == v.subrange(24, 28)
}

/// The 28 bytes of `p` on the wire.
pub open spec fn arp_bytes(p: ArpPacket) -> Seq<u8> {
    spec_u16_be(p.hardware_type) + spec_u16_be(ether_type_value(p.protocol_type)) + seq![
        p.hardware_length,
        p.protocol_length,
    ] + spec_u16_be(p.operation) + p.sender_hardware_address.0@ + spec_octets(
        p.sender_protocol_address,
    ) + p.target_hardware_address.0@ + spec_octets(p.target_protocol_address)
}

/// Whether `p` describes IPv4 over Ethernet, as every packet that this stack builds does.
pub open spec fn arp_well_formed(p: ArpPacket) -> bool {
    &&& p.hardware_type == 1
    &&& p.protocol_type == EtherType::IPv4
    &&& p.hardware_length == 6
    &&& p.protocol_length == 4
}

fn ipv4_at(v: &[u8], at: usize) -> (r: Ipv4Addr)
    requires
        at + 4 <= v@.len(),
    ensures
        spec_octets(r) == v@.subrange(at as int, at + 4),
{
    let r = Ipv4Addr::from_octets([v[at], v[at + 1], v[at + 2], v[at + 3]]);
    assert(v@.subrange(at as int, at + 4) =~= seq![v@[at as int], v@[at + 1], v@[at + 2], v@[at + 3]]);
    r
}

fn mac_at(v: &[u8], at: usize) -> (r: MacAddress)
    requires
        at + 6 <= v@.len(),
    ensures
        r.0@ == v@.subrange(at as int, at + 6),
{
    let r = MacAddress([v[at], v[at + 1], v[at + 2], v[at + 3], v[at + 4], v[at + 5]]);
    assert(r.0@ =~= v@.subrange(at as int, at + 6));
    r
}

impl ArpPacket {
    /// Reads an ARP packet for IPv4 over Ethernet from the first 28 bytes of `v`.
    pub fn try_from(v: &[u8]) -> (r: Result<ArpPacket, ArpError>)
        ensures
            r is Err <==> arp_error_for(v@) is Some,
            r matches Err(e) ==> arp_error_for(v@) == Some(e),
            r matches Ok(p) ==> arp_matches(p, v@) && arp_well_formed(p),
    {
        if v.len() < 28 {
            return Err(ArpError::PacketNotLongEnough);
        }
        let hardware_type = crate::bytes::u16_from_be(v[0], v[1]);
        if hardware_type != 1 {
            return Err(ArpError::HardwareTypeNotEthernet);
        }
        let prot = crate::bytes::u16_from_be(v[2], v[3]);
        let protocol_type = match EtherType::try_from(prot) {
            Ok(t) => t,
            Err(_) => {
                return Err(ArpError::UnknownProtocolType);
            },
        };
        if protocol_type.value() != EtherType::IPv4.value() {
            return Err(ArpError::ProtocolTypeNotIPv4);
        }
        let hardware_length = v[4];
        if hardware_length != 6 {
            return Err(ArpError::HardwareLengthNot6);
        }
        let protocol_length = v[5];
        if protocol_length != 4 {
            return Err(ArpError::ProtocolLenNot4);
        }
        Ok(ArpPacket {
            hardware_type,
            protocol_type,
            hardware_length,
            protocol_length,
            operation: crate::bytes::u16_from_be(v[6], v[7]),
            sender_hardware_address: mac_at(v, 8),
            sender_protocol_address: ipv4_at(v, 14),
            target_hardware_address: mac_at(v, 18),
            target_protocol_address: ipv4_at(v, 24),
        })
    }

    /// A request that asks who holds `target_ip`.
    pub fn new_arp_request(sender_mac: MacAddress, sender_ip: Ipv4Addr, target_ip: Ipv4Addr) -> (r:
        ArpPacket)
        ensures
            arp_well_formed(r),
            r.operation == 1,
            r.sender_hardware_address == sender_mac,
            r.sender_protocol_address == sender_ip,
            r.target_hardware_address.0@ == seq![0u8, 0u8, 0u8, 0u8, 0u8, 0u8],
            r.target_protocol_address == target_ip,
    {
        let r = ArpPacket {
            hardware_type: 1,
            protocol_type: EtherType::IPv4,
            hardware_length: 6,
            protocol_length: 4,
            operation: 1,
            sender_hardware_address: sender_mac,
            sender_protocol_address: sender_ip,
            target_hardware_address: MacAddress::from([0u8; 6]),
            target_protocol_address: target_ip,
        };
        assert(r.target_hardware_address.0@ =~= seq![0u8, 0u8, 0u8, 0u8, 0u8, 0u8]);
        r
    }

    /// A reply that tells `target` that `sender_ip` is at `sender_mac`.
    pub fn new_arp_reply(
        sender_mac: MacAddress,
        sender_ip: Ipv4Addr,
        target_mac: MacAddress,
        target_ip: Ipv4Addr,
    ) -> (r: ArpPacket)
        ensures
            arp_well_formed(r),
            r.operation == 2,
            r.sender_hardware_address == sender_mac,
            r.sender_protocol_address == sender_ip,
            r.target_hardware_address == target_mac,
            r.target_protocol_address == target_ip,
    {
        ArpPacket {
            hardware_type: 1,
            protocol_type: EtherType::IPv4,
            hardware_length: 6,
            protocol_length: 4,
            operation: 2,
            sender_hardware_address: sender_mac,
            sender_protocol_address: sender_ip,
            target_hardware_address: target_mac,
            target_protocol_address: target_ip,
        }
    }

    /// The 28 bytes of the packet on the wire.
    pub fn to_bytes(&self) -> (r: [u8; 28])
        ensures
            r@ == arp_bytes(*self),
    {
        let h = crate::bytes::u16_to_be(self.hardware_type);
        let p = crate::bytes::u16_to_be(self.protocol_type.value());
        let o = crate::bytes::u16_to_be(self.operation);
        let sh = self.sender_hardware_address.0;
        let sp = self.sender_protocol_address.octets();
        let th = self.target_hardware_address.0;
        let tp = self.target_protocol_address.octets();
        let r = [
            h[0],
            h[1],
            p[0],
            p[1],
            self.hardware_length,
            self.protocol_length,
            o[0],
            o[1],
            sh[0],
            sh[1],
            sh[2],
            sh[3],
            sh[4],
            sh[5],
            sp[0],
            sp[1],
            sp[2],
            sp[3],
            th[0],
            th[1],
            th[2],
            th[3],
            th[4],
            th[5],
            tp[0],
            tp[1],
            tp[2],
            tp[3],
        ];
        assert(r@ =~= arp_bytes(*self));
        r
    }
}

/// Law: a well-formed packet written to bytes is read back unchanged.
pub proof fn lemma_arp_roundtrip(p: ArpPacket)
    requires
        arp_well_formed(p),
    ensures
        arp_error_for(arp_bytes(p)) is None,
        arp_matches(p, arp_bytes(p)),
{
    let b = arp_bytes(p);
    crate::bytes::lemma_u16_be_roundtrip(p.hardware_type);
    crate::bytes::lemma_u16_be_roundtrip(ether_type_value(p.protocol_type));
    crate::bytes::lemma_u16_be_roundtrip(p.operation);
    assert(b.subrange(8, 14) =~= p.sender_hardware_address.0@);
    assert(b.subrange(14, 18) =~= spec_octets(p.sender_protocol_address));
    assert(b.subrange(18, 24) =~= p.target_hardware_address.0@);
    assert(b.subrange(24, 28) =~= spec_octets(p.target_protocol_address));
}

/// Law: the packet read from bytes is written back as the same 28 bytes.
pub proof fn lemma_arp_bytes_of_parsed(p: ArpPacket, v: Seq<u8>)
    requires
        arp_matches(p, v),
    ensures
        arp_bytes(p) == v.subrange(0, 28),
{
    crate::bytes::lemma_be16_inverse(v[0], v[1]);
    crate::bytes::lemma_be16_inverse(v[2], v[3]);
    crate::bytes::lemma_be16_inverse(v[6], v[7]);
    assert(ether_type_value(p.protocol_type) == be16_at(v, 2));
    assert(arp_bytes(p) =~= v.subrange(0, 28));
}

/// Table of the hardware addresses learnt for IPv4 addresses.
#[verifier::external_body]
pub struct ArpTable {
    table: hashbrown::HashMap<u32, MacAddress>,
}

/// The learnt addresses, keyed by the bits of the IPv4 address.
pub uninterp spec fn arp_table_contents(t: ArpTable) -> Map<u32, MacAddress>;

impl ArpTable {
    /// An empty table (`hashbrown::HashMap::new`).
    #[verifier::external_body]
    fn map_new() -> (r: ArpTable)
        ensures
            arp_table_contents(r).dom() == Set::<u32>::empty(),
    {
        ArpTable { table: hashbrown::HashMap::new() }
    }

    /// An empty table.
    pub fn new() -> (r: ArpTable)
        ensures
            arp_table_contents(r).dom() == Set::<u32>::empty(),
    {
        Self::map_new()
    }

    /// Records that `ip` is at `mac`, replacing what was known of `ip`
    /// (`hashbrown::HashMap::insert`).
    #[verifier::external_body]
    fn map_insert(&mut self, ip: Ipv4Addr, mac: MacAddress)
        ensures
            arp_table_contents(*final(self)) == arp_table_contents(*old(self)).insert(ip.0, mac),
    {
        self.table.insert(ip.0, mac);
    }

    /// Records that `ip` is at `mac`, replacing what was known of `ip`.
    pub fn insert(&mut self, ip: Ipv4Addr, mac: MacAddress)
        ensures
            arp_table_contents(*final(self)) == arp_table_contents(*old(self)).insert(ip.0, mac),
    {
        self.map_insert(ip, mac)
    }

    /// The hardware address known for `ip`, if any (`hashbrown::HashMap::get`).
    #[verifier::external_body]
    fn map_get(&self, ip: Ipv4Addr) -> (r: Option<MacAddress>)
        ensures
            r == (if arp_table_contents(*self).contains_key(ip.0) {
                Some(arp_table_contents(*self)[ip.0])
            } else {
                None
            }),
    {
        self.table.get(&ip.0).copied()
    }

    /// The hardware address known for `ip`, if any.
    pub fn get(&self, ip: Ipv4Addr) -> (r: Option<MacAddress>)
        ensures
            r == (if arp_table_contents(*self).contains_key(ip.0) {
                Some(arp_table_contents(*self)[ip.0])
            } else {
                None
            }),
    {
        self.map_get(ip)
    }
}

/// An IPv4 packet, as its bytes, that waits for the hardware address of its next hop.
#[derive(Debug)]
pub struct WaitingPacket {
    pub hop: Ipv4Addr,
    pub bytes: Vec<u8>,
}

/// The packets of `w` whose next hop the table `t` knows, each with the hop's hardware
/// address, in their order.
pub open spec fn ready_packets(t: Map<u32, MacAddress>, w: Seq<WaitingPacket>) -> Seq<(MacAddress, WaitingPacket)>
    decreases w.len(),
{
    if w.len() == 0 {
        Seq::empty()
    } else {
        let rest = ready_packets(t, w.drop_last());
        if t.contains_key(w.last().hop.0) {
            rest.push((t[w.last().hop.0], w.last()))
        } else {
            rest
        }
    }
}

/// The packets of `w` whose next hop the table `t` does not know yet, in their order.
pub open spec fn still_waiting(t: Map<u32, MacAddress>, w: Seq<WaitingPacket>) -> Seq<WaitingPacket>
    decreases w.len(),
{
    if w.len() == 0 {
        Seq::empty()
    } else {
        let rest = still_waiting(t, w.drop_last());
        if t.contains_key(w.last().hop.0) {
            rest
        } else {
            rest.push(w.last())
        }
    }
}

/// Splits the packets that wait for an address: those whose next hop `table` now knows go
/// out, with the hop's hardware address; the others keep waiting. Both keep their order.
pub fn release_waiting(table: &ArpTable, waiting: Vec<WaitingPacket>) -> (r: (Vec<(MacAddress, WaitingPacket)>, Vec<WaitingPacket>))
    ensures
        r.0@ == ready_packets(arp_table_contents(*table), waiting@),
        r.1@ == still_waiting(arp_table_contents(*table), waiting@),
{
    let ghost t = arp_table_contents(*table);
    let ghost orig = waiting@;
    let mut rest = waiting;
    let mut ready: Vec<(MacAddress, WaitingPacket)> = Vec::new();
    let mut still: Vec<WaitingPacket> = Vec::new();
    let ghost mut i: int = 0;
    assert(orig.take(0) =~= Seq::<WaitingPacket>::empty());
    while rest.len() > 0
        invariant
            0 <= i <= orig.len(),
            t == arp_table_contents(*table),
            rest@ == orig.skip(i),
            ready@ == ready_packets(t, orig.take(i)),
            still@ == still_waiting(t, orig.take(i)),
        decreases rest@.len(),
    {
        let w = rest.remove(0);
        proof {
            assert(w == orig[i]);
            assert(orig.take(i + 1).drop_last() =~= orig.take(i));
            assert(orig.take(i + 1).last() == w);
        }
        match table.get(w.hop) {
            Some(mac) => {
                ready.push((mac, w));
            },
            None => {
                still.push(w);
            },
        }
        proof {
            i = i + 1;
            assert(rest@ =~= orig.skip(i));
        }
    }
    assert(orig.take(i) =~= orig);
    (ready, still)
}

/// What the table holds after `p` has been handled on `interface`.
pub open spec fn arp_table_after(t: Map<u32, MacAddress>, p: ArpPacket, interface: Interface) -> Map<
    u32,
    MacAddress,
> {
    if (p.operation == 1 && p.target_protocol_address == interface.ip) || p.operation == 2 {
        t.insert(p.sender_protocol_address.0, p.sender_hardware_address)
    } else {
        t
    }
}

/// The frame that answers a request for our address.
pub open spec fn arp_reply_frame(p: ArpPacket, interface: Interface) -> Seq<u8> {
    frame_bytes(
        p.sender_hardware_address,
        interface.mac,
        EtherType::Arp,
        arp_bytes(
            ArpPacket {
                hardware_type: 1,
                protocol_type: EtherType::IPv4,
                hardware_length: 6,
                protocol_length: 4,
                operation: 2,
                sender_hardware_address: interface.mac,
                sender_protocol_address: interface.ip,
                target_hardware_address: p.sender_hardware_address,
                target_protocol_address: p.sender_protocol_address,
            },
        ),
    )
}

/// Handles an incoming ARP packet: learns the sender of replies and of requests addressed to
/// us, and returns the reply frame to send for a request that asks for our address.
pub fn handle_arp_incoming(p: &ArpPacket, interface: &Interface, table: &mut ArpTable) -> (r:
    Option<Vec<u8>>)
    ensures
        arp_table_contents(*final(table)) == arp_table_after(
            arp_table_contents(*old(table)),
            *p,
            *interface,
        ),
        r is Some <==> (p.operation == 1 && p.target_protocol_address == interface.ip),
        r matches Some(f) ==> f@ == arp_reply_frame(*p, *interface),
{
    if p.operation == 1 {
        if p.target_protocol_address != interface.ip {
            return None;
        }
        table.insert(p.sender_protocol_address, p.sender_hardware_address);
        let arp = ArpPacket::new_arp_reply(
            interface.mac,
            interface.ip,
            p.sender_hardware_address,
            p.sender_protocol_address,
        );
        let arp_bytes = arp.to_bytes();
        let ep = EthernetPacket {
            destination: p.sender_hardware_address,
            source: interface.mac,
            typ: EtherType::Arp,
            data: arp_bytes.as_slice(),
        };
        Some(ep.to_bytes())
    } else if p.operation == 2 {
        table.insert(p.sender_protocol_address, p.sender_hardware_address);
        None
    } else {
        None
    }
}

} // verus!
