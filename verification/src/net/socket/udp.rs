//! UDP: datagram format and the registry of bound sockets.
use vstd::prelude::*;

use crate::bytes::{be16_at, spec_u16_be};
use crate::net::ip::IPv4Packet;
use crate::net::socket::{spec_should_accept, Port, SocketAddrV4, SocketError};
use crate::net::Ipv4Addr;
use crossbeam_queue::ArrayQueue;

verus! {

/// The 8-byte UDP header.
#[derive(Clone, Copy, Debug, PartialEq, Eq, Structural)]
pub struct UdpPacketHeader {
    pub src_port: Port,
    pub dst_port: Port,
    /// Length of header and payload.
    pub length: u16,
    pub checksum: u16,
}

/// A UDP datagram.
#[derive(Clone, Debug)]
pub struct UdpPacket {
    pub header: UdpPacketHeader,
    pub data: Vec<u8>,
}

/// The 8 bytes of a header on the wire.
pub open spec fn udp_header_bytes(h: UdpPacketHeader) -> Seq<u8> {
    spec_u16_be(h.src_port) + spec_u16_be(h.dst_port) + spec_u16_be(h.length) + spec_u16_be(h.checksum)
}

/// Whether `h` is the header that the bytes `v` start with.
pub open spec fn udp_header_matches(h: UdpPacketHeader, v: Seq<u8>) -> bool {
    &&& v.len() >= 8
    &&& h.src_port == be16_at(v, 0)
    &&& h.dst_port == be16_at(v, 2)
    &&& h.length == be16_at(v, 4)
    &&& h.checksum == be16_at(v, 6)
}

impl UdpPacketHeader {
    /// The 8 bytes of the header on the wire.
    pub fn to_bytes(self) -> (r: [u8; 8])
        ensures
            r@ == udp_header_bytes(self),
    {
        let s = crate::bytes::u16_to_be(self.src_port);
        let d = crate::bytes::u16_to_be(self.dst_port);
        let l = crate::bytes::u16_to_be(self.length);
        let c = crate::bytes::u16_to_be(self.checksum);
        let r = [s[0], s[1], d[0], d[1], l[0], l[1], c[0], c[1]];
        assert(r@ =~= udp_header_bytes(self));
        r
    }

    /// Reads a header from its 8 bytes.
    pub fn from_bytes(bytes: [u8; 8]) -> (r: UdpPacketHeader)
        ensures
            udp_header_matches(r, bytes@),
    {
        UdpPacketHeader {
            src_port: crate::bytes::u16_from_be(bytes[0], bytes[1]),
            dst_port: crate::bytes::u16_from_be(bytes[2], bytes[3]),
            length: crate::bytes::u16_from_be(bytes[4], bytes[5]),
            checksum: crate::bytes::u16_from_be(bytes[6], bytes[7]),
        }
    }
}

/// The bytes of a datagram on the wire.
pub open spec fn udp_packet_bytes(h: UdpPacketHeader, data: Seq<u8>) -> Seq<u8> {
    udp_header_bytes(h) + data
}

impl UdpPacket {
    /// A datagram from `src_port` to `dst_port` carrying a copy of `data`, with its length set
    /// and its checksum left at 0 (the UDP checksum is optional).
    pub fn new(src_port: Port, dst_port: Port, data: &[u8]) -> (r: UdpPacket)
        requires
            data@.len() + 8 <= 0xffff,
        ensures
            r.header.src_port == src_port,
            r.header.dst_port == dst_port,
            r.header.length == data@.len() + 8,
            r.header.checksum == 0,
            r.data@ == data@,
    {
        let header = UdpPacketHeader {
            src_port,
            dst_port,
            length: crate::bytes::usize_to_u16(data.len() + 8),
            checksum: 0,
        };
        let mut v: Vec<u8> = Vec::new();
        v.extend_from_slice(data);
        UdpPacket { header, data: v }
    }

    /// The datagram as the bytes that go on the wire.
    pub fn to_bytes(&self) -> (r: Vec<u8>)
        requires
            self.data@.len() + 8 <= usize::MAX,
        ensures
            r@ == udp_packet_bytes(self.header, self.data@),
    {
        let mut joined: Vec<u8> = Vec::with_capacity(8 + self.data.len());
        let h = self.header.to_bytes();
        joined.extend_from_slice(h.as_slice());
        joined.extend_from_slice(self.data.as_slice());
        assert(joined@ =~= udp_packet_bytes(self.header, self.data@));
        joined
    }

    /// Reads a datagram: the header from the first 8 bytes and the rest as payload; none
    /// when the bytes are too short for a header.
    pub fn from_bytes(data: &[u8]) -> (r: Option<UdpPacket>)
        ensures
            r is None <==> data@.len() < 8,
            r matches Some(p) ==> udp_header_matches(p.header, data@) && p.data@ == data@.skip(8),
    {
        if data.len() < 8 {
            return None;
        }
        let mut v: Vec<u8> = Vec::with_capacity(data.len() - 8);
        v.extend_from_slice(vstd::slice::slice_subrange(data, 8, data.len()));
        let h = [data[0], data[1], data[2], data[3], data[4], data[5], data[6], data[7]];
        assert(v@ =~= data@.skip(8));
        Some(UdpPacket { header: UdpPacketHeader::from_bytes(h), data: v })
    }
}

/// Law: a datagram written to bytes is read back with the same header and payload.
pub proof fn lemma_udp_roundtrip(h: UdpPacketHeader, data: Seq<u8>)
    ensures
        udp_header_matches(h, udp_packet_bytes(h, data)),
        udp_packet_bytes(h, data).skip(8) == data,
{
    crate::bytes::lemma_u16_be_roundtrip(h.src_port);
    crate::bytes::lemma_u16_be_roundtrip(h.dst_port);
    crate::bytes::lemma_u16_be_roundtrip(h.length);
    crate::bytes::lemma_u16_be_roundtrip(h.checksum);
    assert(udp_packet_bytes(h, data).skip(8) =~= data);
}

/// Law: a header read from bytes is written back as the same 8 bytes.
pub proof fn lemma_udp_header_bytes_of_parsed(h: UdpPacketHeader, v: Seq<u8>)
    requires
        udp_header_matches(h, v),
    ensures
        udp_header_bytes(h) == v.subrange(0, 8),
{
    crate::bytes::lemma_be16_inverse(v[0], v[1]);
    crate::bytes::lemma_be16_inverse(v[2], v[3]);
    crate::bytes::lemma_be16_inverse(v[4], v[5]);
    crate::bytes::lemma_be16_inverse(v[6], v[7]);
    assert(udp_header_bytes(h) =~= v.subrange(0, 8));
}

/// Datagrams that a socket holds before the oldest are read; later ones are dropped.
pub const PACKET_QUEUE_LEN: usize = 10;

/// A datagram that arrived, with the addresses of the packet that carried it.
#[derive(Debug)]
pub struct UdpPacketWrapper {
    pub src_ip: Ipv4Addr,
    pub dst_ip: Ipv4Addr,
    pub packet: UdpPacket,
}

/// What the registry holds for one bound port: the address it is bound to and the datagrams
/// that wait to be read, oldest first.
#[derive(Debug)]
pub struct UdpRegistryKey {
    pub binding_address: Ipv4Addr,
    pub incoming_packet_buffer: ArrayQueue<UdpPacketWrapper>,
}

/// The datagrams in a socket's queue, oldest first.
pub uninterp spec fn datagram_queue_contents(q: ArrayQueue<UdpPacketWrapper>) -> Seq<UdpPacketWrapper>;

/// The capacity that a socket's queue was made with.
pub uninterp spec fn datagram_queue_capacity(q: ArrayQueue<UdpPacketWrapper>) -> nat;

/// `ArrayQueue::new` for datagrams: an empty queue of capacity `cap` (it panics on a zero
/// capacity, and on one too large to round up to a power of two).
#[verifier::external_body]
fn datagram_queue_new(cap: usize) -> (r: ArrayQueue<UdpPacketWrapper>)
    requires
        0 < cap <= usize::MAX / 2,
    ensures
        datagram_queue_contents(r) == Seq::<UdpPacketWrapper>::empty(),
        datagram_queue_capacity(r) == cap,
{
    ArrayQueue::new(cap)
}

/// `ArrayQueue::push` for datagrams: adds `value` behind the others, or hands it back when
/// the queue holds as many datagrams as its capacity.
#[verifier::external_body]
fn datagram_queue_push(q: &mut ArrayQueue<UdpPacketWrapper>, value: UdpPacketWrapper) -> (r: Result<(), UdpPacketWrapper>)
    ensures
        datagram_queue_contents(*old(q)).len() < datagram_queue_capacity(*old(q)) ==> r is Ok
            && datagram_queue_capacity(*final(q)) == datagram_queue_capacity(*old(q))
            && datagram_queue_contents(*final(q)) == datagram_queue_contents(*old(q)).push(value),
        datagram_queue_contents(*old(q)).len() >= datagram_queue_capacity(*old(q)) ==> datagram_queue_capacity(*final(q)) == datagram_queue_capacity(*old(q)) && (r matches Err(v) && v == value)
            && datagram_queue_contents(*final(q)) == datagram_queue_contents(*old(q)),
{
    q.push(value)
}

/// `ArrayQueue::pop` for datagrams: takes out the oldest datagram, or none when the queue
/// is empty.
#[verifier::external_body]
fn datagram_queue_pop(q: &mut ArrayQueue<UdpPacketWrapper>) -> (r: Option<UdpPacketWrapper>)
    ensures
        datagram_queue_capacity(*final(q)) == datagram_queue_capacity(*old(q)),
        datagram_queue_contents(*old(q)).len() == 0 ==> r is None && datagram_queue_contents(*final(q))
            == datagram_queue_contents(*old(q)),
        datagram_queue_contents(*old(q)).len() > 0 ==> r == Some(datagram_queue_contents(*old(q))[0])
            && datagram_queue_contents(*final(q)) == datagram_queue_contents(*old(q)).drop_first(),
{
    q.pop()
}

/// The datagrams that wait for the socket of entry `k`, oldest first.
pub open spec fn pending(k: UdpRegistryKey) -> Seq<UdpPacketWrapper> {
    datagram_queue_contents(k.incoming_packet_buffer)
}

/// Invariant of an entry: its queue was made for `PACKET_QUEUE_LEN` datagrams and holds no
/// more.
pub open spec fn udp_key_wf(k: UdpRegistryKey) -> bool {
    &&& datagram_queue_capacity(k.incoming_packet_buffer) == PACKET_QUEUE_LEN
    &&& pending(k).len() <= PACKET_QUEUE_LEN
}

/// The bound UDP ports.
#[verifier::external_body]
pub struct UdpRegistry {
    map: hashbrown::HashMap<u16, UdpRegistryKey>,
}

/// What the registry holds, by port.
pub uninterp spec fn udp_registry_contents(r: UdpRegistry) -> Map<u16, UdpRegistryKey>;

impl UdpRegistry {
    /// An empty registry (`hashbrown::HashMap::new`).
    #[verifier::external_body]
    fn map_new() -> (r: UdpRegistry)
        ensures
            udp_registry_contents(r).dom() == Set::<u16>::empty(),
    {
        UdpRegistry { map: hashbrown::HashMap::new() }
    }

    /// An empty registry.
    pub fn new() -> (r: UdpRegistry)
        ensures
            udp_registry_contents(r).dom() == Set::<u16>::empty(),
    {
        Self::map_new()
    }

    /// Files `key` under `port`, returning what was filed there before
    /// (`hashbrown::HashMap::insert`).
    #[verifier::external_body]
    fn map_insert(&mut self, port: u16, key: UdpRegistryKey) -> (r: Option<UdpRegistryKey>)
        ensures
            udp_registry_contents(*final(self)) == udp_registry_contents(*old(self)).insert(port, key),
            r == (if udp_registry_contents(*old(self)).contains_key(port) {
                Some(udp_registry_contents(*old(self))[port])
            } else {
                None
            }),
    {
        self.map.insert(port, key)
    }

    /// Files `key` under `port`, returning what was filed there before.
    pub fn insert(&mut self, port: u16, key: UdpRegistryKey) -> (r: Option<UdpRegistryKey>)
        ensures
            udp_registry_contents(*final(self)) == udp_registry_contents(*old(self)).insert(port, key),
            r == (if udp_registry_contents(*old(self)).contains_key(port) {
                Some(udp_registry_contents(*old(self))[port])
            } else {
                None
            }),
    {
        self.map_insert(port, key)
    }

    /// Takes out what is filed under `port` (`hashbrown::HashMap::remove`).
    #[verifier::external_body]
    fn map_remove(&mut self, port: u16) -> (r: Option<UdpRegistryKey>)
        ensures
            udp_registry_contents(*final(self)) == udp_registry_contents(*old(self)).remove(port),
            r == (if udp_registry_contents(*old(self)).contains_key(port) {
                Some(udp_registry_contents(*old(self))[port])
            } else {
                None
            }),
    {
        self.map.remove(&port)
    }

    /// Takes out what is filed under `port`.
    pub fn remove(&mut self, port: u16) -> (r: Option<UdpRegistryKey>)
        ensures
            udp_registry_contents(*final(self)) == udp_registry_contents(*old(self)).remove(port),
            r == (if udp_registry_contents(*old(self)).contains_key(port) {
                Some(udp_registry_contents(*old(self))[port])
            } else {
                None
            }),
    {
        self.map_remove(port)
    }
}

/// A UDP socket bound to a local address.
#[derive(Clone, Copy, Debug)]
pub struct UdpSocket {
    pub address: SocketAddrV4,
}

/// Delivers a datagram that arrived in `ip_packet` to the socket bound to its destination
/// port.  The datagram is dropped when it is too short for a UDP header, when no socket is
/// bound there, when the socket's binding address does not take it, or when the socket's
/// queue is full.  Returns whether the socket is to be woken (it is, whenever it took or
/// would have taken the datagram).
pub fn handle_incoming_packet(registry: &mut UdpRegistry, ip_packet: &IPv4Packet) -> (r: bool)
    requires
        forall|p: u16| #[trigger] udp_registry_contents(*old(registry)).contains_key(p) ==> udp_key_wf(udp_registry_contents(*old(registry))[p]),
    ensures
        forall|p: u16| #[trigger] udp_registry_contents(*final(registry)).contains_key(p) ==> udp_key_wf(udp_registry_contents(*final(registry))[p]),
        ip_packet.data@.len() < 8 ==> !r && udp_registry_contents(*final(registry)) == udp_registry_contents(*old(registry)),
        ip_packet.data@.len() >= 8 ==> ({
            let port = be16_at(ip_packet.data@, 2) as u16;
            let m = udp_registry_contents(*old(registry));
            let m2 = udp_registry_contents(*final(registry));
            &&& r == (m.contains_key(port) && spec_should_accept(ip_packet.header.destination_address, m[port].binding_address))
            &&& m2.dom() == m.dom()
            &&& forall|p: u16| p != port && #[trigger] m.contains_key(p) ==> m2[p] == m[p]
            &&& m.contains_key(port) ==> m2[port].binding_address == m[port].binding_address
            &&& !r ==> m2 == m
            &&& (r && pending(m[port]).len() < PACKET_QUEUE_LEN) ==> {
                &&& pending(m2[port]).len() == pending(m[port]).len() + 1
                &&& pending(m2[port]).drop_last() == pending(m[port])
                &&& pending(m2[port]).last().src_ip == ip_packet.header.source_address
                &&& pending(m2[port]).last().dst_ip == ip_packet.header.destination_address
                &&& udp_header_matches(pending(m2[port]).last().packet.header, ip_packet.data@)
                &&& pending(m2[port]).last().packet.data@ == ip_packet.data@.skip(8)
            }
            &&& (r && pending(m[port]).len() >= PACKET_QUEUE_LEN) ==> pending(m2[port]) == pending(m[port])
        }),
{
    let udp_packet = match UdpPacket::from_bytes(ip_packet.data) {
        Some(p) => p,
        None => {
            return false;
        },
    };
    let dst_port = udp_packet.header.dst_port;
    let ghost m = udp_registry_contents(*registry);
    let mut registry_key = match registry.remove(dst_port) {
        Some(k) => k,
        None => {
            return false;
        },
    };
    let accept_packet = crate::net::socket::should_accept_packet(
        ip_packet.header.destination_address,
        registry_key.binding_address,
    );
    if !accept_packet {
        registry.insert(dst_port, registry_key);
        assert(udp_registry_contents(*registry) =~= m);
        return false;
    }
    let wrapper = UdpPacketWrapper {
        src_ip: ip_packet.header.source_address,
        dst_ip: ip_packet.header.destination_address,
        packet: udp_packet,
    };
    let ghost w = wrapper;
    match datagram_queue_push(&mut registry_key.incoming_packet_buffer, wrapper) {
        Ok(()) => {},
        Err(_) => {},
    }
    proof {
        if pending(m[dst_port]).len() < PACKET_QUEUE_LEN {
            assert(pending(registry_key).drop_last() =~= pending(m[dst_port]));
            assert(pending(registry_key).last() == w);
        }
    }
    registry.insert(dst_port, registry_key);
    true
}

impl UdpSocket {
    /// Binds a socket to `address`, filing a fresh entry with an empty queue under its port;
    /// the socket then has the port to itself. When the port is already bound, nothing
    /// changes and the bind fails with `PortAlreadyInUse`.
    pub fn bind(registry: &mut UdpRegistry, address: SocketAddrV4) -> (r: Result<UdpSocket, SocketError>)
        ensures
            udp_registry_contents(*old(registry)).contains_key(address.port) <==> r is Err,
            r matches Err(e) ==> e == SocketError::PortAlreadyInUse
                && udp_registry_contents(*final(registry)) == udp_registry_contents(*old(registry)),
            r matches Ok(s) ==> {
                let m2 = udp_registry_contents(*final(registry));
                &&& s.address == address
                &&& m2 == udp_registry_contents(*old(registry)).insert(
                    address.port,
                    UdpRegistryKey { binding_address: address.ip, incoming_packet_buffer: m2[address.port].incoming_packet_buffer },
                )
                &&& pending(m2[address.port]).len() == 0
                &&& udp_key_wf(m2[address.port])
            },
    {
        let ghost m = udp_registry_contents(*registry);
        match registry.remove(address.port()) {
            Some(existing) => {
                registry.insert(address.port(), existing);
                assert(udp_registry_contents(*registry) =~= m);
                return Err(SocketError::PortAlreadyInUse);
            },
            None => {},
        }
        let key = UdpRegistryKey {
            binding_address: address.ip(),
            incoming_packet_buffer: datagram_queue_new(PACKET_QUEUE_LEN),
        };
        registry.insert(address.port(), key);
        assert(udp_registry_contents(*registry) =~= m.insert(address.port, key));
        Ok(UdpSocket { address })
    }

    /// Takes the oldest datagram that waits for this socket, if any.
    pub fn poll_next(&self, registry: &mut UdpRegistry) -> (r: Option<UdpPacketWrapper>)
        requires
            udp_registry_contents(*old(registry)).contains_key(self.address.port),
            udp_key_wf(udp_registry_contents(*old(registry))[self.address.port]),
        ensures
            ({
                let m = udp_registry_contents(*old(registry));
                let q = pending(m[self.address.port]);
                let m2 = udp_registry_contents(*final(registry));
                &&& m2.dom() == m.dom()
                &&& forall|p: u16| p != self.address.port && #[trigger] m.contains_key(p) ==> m2[p] == m[p]
                &&& m2[self.address.port].binding_address == m[self.address.port].binding_address
                &&& udp_key_wf(m2[self.address.port])
                &&& q.len() == 0 ==> r is None && pending(m2[self.address.port]) == q
                &&& q.len() > 0 ==> r == Some(q[0]) && pending(m2[self.address.port]) == q.skip(1)
            }),
    {
        let port = self.address.port();
        let ghost m = udp_registry_contents(*registry);
        let mut key = match registry.remove(port) {
            Some(k) => k,
            None => {
                proof {
                    assert(false);
                }
                return None;
            },
        };
        let packet = datagram_queue_pop(&mut key.incoming_packet_buffer);
        proof {
            if pending(m[port]).len() > 0 {
                assert(pending(key) =~= pending(m[port]).skip(1));
            }
        }
        registry.insert(port, key);
        packet
    }

    /// Unbinds the socket: its entry leaves the registry.  Returns whether there was one.
    pub fn unbind(&self, registry: &mut UdpRegistry) -> (r: bool)
        ensures
            udp_registry_contents(*final(registry)) == udp_registry_contents(*old(registry)).remove(self.address.port),
            r == udp_registry_contents(*old(registry)).contains_key(self.address.port),
    {
        registry.remove(self.address.port()).is_some()
    }

    /// The datagram that `send_data` sends to `dst_port`: from this socket's port, with its
    /// length set; fails when the data does not fit in one datagram.
    pub fn datagram(&self, dst_port: Port, data: Vec<u8>) -> (r: Result<UdpPacket, SocketError>)
        ensures
            r is Err <==> data@.len() + 8 > 0xffff,
            r matches Err(e) ==> e == SocketError::DataWasTooLong,
            r matches Ok(p) ==> p.header.src_port == self.address.port && p.header.dst_port == dst_port
                && p.header.length == data@.len() + 8 && p.header.checksum == 0 && p.data@ == data@,
    {
        if data.len() > 0xffff - 8 {
            return Err(SocketError::DataWasTooLong);
        }
        Ok(UdpPacket {
            header: UdpPacketHeader {
                src_port: self.address.port(),
                dst_port,
                length: crate::bytes::usize_to_u16(data.len() + 8),
                checksum: 0,
            },
            data,
        })
    }
}

} // verus!
