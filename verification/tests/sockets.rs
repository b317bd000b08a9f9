use os::net::ip::{IPProtocol, IPv4Packet};
use os::net::socket::udp::{handle_incoming_packet, UdpRegistry, UdpSocket};
use os::net::socket::{should_accept_packet, SocketAddrV4, SocketError};
use os::net::{ones_complement_checksum, Ipv4Addr};
use os::net::socket::tcp::{handle_incoming_packet as tcp_in, TcpError, TcpListener, TcpRegistry};

/// Carries `bytes` from `source` to `destination` as the payload of a UDP packet over IPv4.
fn carry(source: Ipv4Addr, destination: Ipv4Addr, bytes: &[u8]) -> Vec<u8> {
    let mut packet = IPv4Packet::from_source_dest_and_data(source, destination, bytes).unwrap();
    packet.header.protocol = IPProtocol::Udp;
    packet.with_checksum().to_bytes()
}

#[test]
fn send_udp_packet_to_self() {
    let mut registry = UdpRegistry::new();
    let localhost = Ipv4Addr::localhost();
    let incoming_socket = UdpSocket::bind(&mut registry, SocketAddrV4::new(localhost, 2)).expect("Can obtain port 2");
    let outgoing_socket = UdpSocket::bind(&mut registry, SocketAddrV4::new(localhost, 3)).expect("Can obtain port 3");

    let test_data = b"This is some test bytes that should survive transmission";

    let datagram = outgoing_socket.datagram(2, test_data.to_vec()).expect("Can send UDP data");
    let wire = carry(localhost, localhost, &datagram.to_bytes());
    let ip = IPv4Packet::try_from(wire.as_slice()).unwrap();
    assert!(handle_incoming_packet(&mut registry, &ip));

    let response = incoming_socket.poll_next(&mut registry).expect("socket not force closed ");
    assert_eq!(response.packet.data.as_slice(), test_data);
    assert_eq!(response.packet.header.src_port, 3);
    assert!(incoming_socket.poll_next(&mut registry).is_none());
}

#[test]
fn udp_delivery_rules() {
    let mut registry = UdpRegistry::new();
    let me = Ipv4Addr::from_octets([192, 168, 10, 2]);
    let other = Ipv4Addr::from_octets([192, 168, 10, 9]);
    let socket = UdpSocket::bind(&mut registry, SocketAddrV4::new(me, 7)).unwrap();
    assert_eq!(UdpSocket::bind(&mut registry, SocketAddrV4::new(me, 7)).err(), Some(SocketError::PortAlreadyInUse));
    assert_eq!(UdpSocket::bind(&mut registry, SocketAddrV4::new(other, 7)).err(), Some(SocketError::PortAlreadyInUse));

    let to = |port: u16, dst: Ipv4Addr| {
        let d = UdpSocket { address: SocketAddrV4::new(other, 999) }.datagram(port, vec![port as u8]).unwrap();
        carry(other, dst, &d.to_bytes())
    };
    // no socket on the port
    let w = to(8, me);
    assert!(!handle_incoming_packet(&mut registry, &IPv4Packet::try_from(w.as_slice()).unwrap()));
    // the socket's binding address does not take another destination
    let w = to(7, other);
    assert!(!handle_incoming_packet(&mut registry, &IPv4Packet::try_from(w.as_slice()).unwrap()));
    assert!(socket.poll_next(&mut registry).is_none());
    // the queue holds ten datagrams, in order
    for _ in 0..11 {
        let w = to(7, me);
        assert!(handle_incoming_packet(&mut registry, &IPv4Packet::try_from(w.as_slice()).unwrap()));
    }
    let mut n = 0;
    while socket.poll_next(&mut registry).is_some() {
        n += 1;
    }
    assert_eq!(n, 10);
    assert!(socket.unbind(&mut registry));
    assert!(!socket.unbind(&mut registry));

    assert!(should_accept_packet(me, Ipv4Addr(0)));
    assert!(should_accept_packet(Ipv4Addr::localhost(), me));
    assert!(should_accept_packet(me, me));
    assert!(!should_accept_packet(other, me));
    let big = vec![0u8; 0xffff - 7];
    assert_eq!(socket.datagram(1, big).err().map(|e| e == SocketError::DataWasTooLong), Some(true));
}

/// A bare TCP segment from `src_port` to `dst_port` with sequence number 1 and `flags`.
fn tcp_segment(src_port: u16, dst_port: u16, flags: u8) -> Vec<u8> {
    let mut b = vec![0u8; 20];
    b[0..2].copy_from_slice(&src_port.to_be_bytes());
    b[2..4].copy_from_slice(&dst_port.to_be_bytes());
    b[7] = 1;
    b[12] = 0x50;
    b[13] = flags;
    b
}

fn carry_tcp(source: Ipv4Addr, destination: Ipv4Addr, bytes: &[u8]) -> Vec<u8> {
    let mut packet = IPv4Packet::from_source_dest_and_data(source, destination, bytes).unwrap();
    packet.header.protocol = IPProtocol::Tcp;
    packet.with_checksum().to_bytes()
}

#[test]
fn tcp_listener_accepts_pending_connections_in_order() {
    let mut registry = TcpRegistry::new();
    let me = Ipv4Addr::from_octets([10, 0, 0, 1]);
    let listener = TcpListener::bind(&mut registry, SocketAddrV4::new(me, 80)).unwrap();
    assert_eq!(TcpListener::bind(&mut registry, SocketAddrV4::new(me, 80)).err(), Some(TcpError::PortAlreadyInUse));
    assert!(TcpListener::try_get_stream(&mut registry, listener.binding_address).is_none());

    // Eleven peers open connections; the pending queue keeps the first ten.
    for i in 0..11u8 {
        let peer = Ipv4Addr::from_octets([10, 0, 0, 100 + i]);
        let wire = carry_tcp(peer, me, &tcp_segment(4000, 80, 0x02));
        let ip = IPv4Packet::try_from(wire.as_slice()).unwrap();
        let handled = tcp_in(&mut registry, &ip);
        assert!(handled.wake_listener);
        assert!(handled.reply.is_none());
    }
    for i in 0..10u8 {
        let stream = TcpListener::try_get_stream(&mut registry, listener.binding_address).expect("pending connection");
        assert_eq!(stream.remote_addr, SocketAddrV4::new(Ipv4Addr::from_octets([10, 0, 0, 100 + i]), 4000));
        assert_eq!(stream.local_addr, SocketAddrV4::new(me, 80));
    }
    assert!(TcpListener::try_get_stream(&mut registry, listener.binding_address).is_none());

    // A second segment from an accepted peer is answered with SYN+ACK to that peer.
    let peer = Ipv4Addr::from_octets([10, 0, 0, 100]);
    let wire = carry_tcp(peer, me, &tcp_segment(4000, 80, 0x02));
    let ip = IPv4Packet::try_from(wire.as_slice()).unwrap();
    let handled = tcp_in(&mut registry, &ip);
    assert!(!handled.wake_listener);
    let reply = handled.reply.expect("handshake answer");
    assert_eq!(reply.remote_addr, SocketAddrV4::new(peer, 4000));
    assert_eq!(reply.bytes[13], 0x12);
    assert_eq!(u32::from_be_bytes([reply.bytes[8], reply.bytes[9], reply.bytes[10], reply.bytes[11]]), 2);
    assert_eq!(reply.bytes.len(), 20);
    let mut pseudo = Vec::new();
    pseudo.extend_from_slice(&me.octets());
    pseudo.extend_from_slice(&peer.octets());
    pseudo.extend_from_slice(&[0, 6, 0, 20]);
    pseudo.extend_from_slice(&reply.bytes);
    assert_eq!(ones_complement_checksum(&pseudo), 0);

    // A segment to a port nobody listens on is dropped.
    let wire = carry_tcp(peer, me, &tcp_segment(4000, 81, 0x02));
    let ip = IPv4Packet::try_from(wire.as_slice()).unwrap();
    let handled = tcp_in(&mut registry, &ip);
    assert!(!handled.wake_listener && handled.reply.is_none());
}
