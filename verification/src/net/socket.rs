//! Transport-layer sockets: ports, addresses and the checks shared by UDP and TCP.
use vstd::prelude::*;

use crate::net::ip::{IPProtocol, IPv4Packet, IpError};
use crate::net::Ipv4Addr;

pub mod tcp;
pub mod udp;

verus! {

/// A transport-layer port number.
pub type Port = u16;

/// An IPv4 address together with a port.
#[derive(Clone, Copy, Debug, PartialEq, Eq, Structural)]
pub struct SocketAddrV4 {
    pub ip: Ipv4Addr,
    pub port: Port,
}

/// The number under which a socket address is filed: the address bits above the port.
pub open spec fn spec_socket_key(a: SocketAddrV4) -> u64 {
    (a.ip.0 * 0x1_0000 + a.port) as u64
}

impl SocketAddrV4 {
    /// The socket address made of `ip` and `port`.
    pub fn new(ip: Ipv4Addr, port: Port) -> (r: SocketAddrV4)
        ensures
            r.ip == ip,
            r.port == port,
    {
        SocketAddrV4 { ip, port }
    }

    /// The address.
    pub fn ip(&self) -> (r: Ipv4Addr)
        ensures
            r == self.ip,
    {
        self.ip
    }

    /// The port.
    pub fn port(&self) -> (r: Port)
        ensures
            r == self.port,
    {
        self.port
    }

    /// The number under which the socket address is filed; distinct addresses get distinct
    /// numbers.
    pub fn key(&self) -> (r: u64)
        ensures
            r == spec_socket_key(*self),
    {
        let ip = self.ip.0 as u64;
        let port = self.port as u64;
        assert((ip << 16) | port == ip * 0x1_0000 + port) by (bit_vector)
            requires
                ip <= 0xffff_ffff,
                port <= 0xffff,
        ;
        (ip << 16) | port
    }
}

/// Distinct socket addresses are filed under distinct numbers.
pub proof fn lemma_socket_key_injective(a: SocketAddrV4, b: SocketAddrV4)
    ensures
        spec_socket_key(a) == spec_socket_key(b) ==> a == b,
{
    let ka = a.ip.0 * 0x1_0000 + a.port;
    let kb = b.ip.0 * 0x1_0000 + b.port;
    if spec_socket_key(a) == spec_socket_key(b) {
        assert(ka == kb);
        assert(a.ip.0 == b.ip.0 && a.port == b.port) by (nonlinear_arith)
            requires
                ka == kb,
                ka == a.ip.0 * 0x1_0000 + a.port,
                kb == b.ip.0 * 0x1_0000 + b.port,
                a.port < 0x1_0000,
                b.port < 0x1_0000,
        ;
    }
}

/// Ways in which a socket operation fails.
#[derive(Debug, PartialEq, Eq, Structural)]
pub enum SocketError {
    PortAlreadyInUse,
    DataWasTooLong,
    HigherLevelPacketWasTooShort,
    IpError(IpError),
}

/// Whether a socket bound to `binding_address` takes a packet sent to `destination`: it
/// does when it is bound to every address, when the packet is for loopback, or when the
/// packet is for the bound address.
pub open spec fn spec_should_accept(destination: Ipv4Addr, binding_address: Ipv4Addr) -> bool {
    binding_address.0 == 0 || destination.0 / 0x100_0000 == 127 || destination == binding_address
}

/// Decides whether a socket bound to `binding_address` takes a packet sent to `destination`.
pub fn should_accept_packet(destination: Ipv4Addr, binding_address: Ipv4Addr) -> (r: bool)
    ensures
        r == spec_should_accept(destination, binding_address),
{
    binding_address.is_unspecified() || destination.is_loopback() || destination == binding_address
}

/// Which transport handles an incoming packet.
#[derive(Clone, Copy, Debug, PartialEq, Eq, Structural)]
pub enum TransportDispatch {
    Tcp,
    Udp,
}

/// Routes a packet that was already found to carry TCP or UDP to the handler of its
/// transport.
pub fn handle_incoming_packet(packet: &IPv4Packet) -> (r: TransportDispatch)
    requires
        packet.header.protocol != IPProtocol::Icmp,
    ensures
        packet.header.protocol == IPProtocol::Tcp ==> r == TransportDispatch::Tcp,
        packet.header.protocol == IPProtocol::Udp ==> r == TransportDispatch::Udp,
{
    match packet.header.protocol {
        IPProtocol::Tcp => TransportDispatch::Tcp,
        _ => TransportDispatch::Udp,
    }
}

} // verus!
