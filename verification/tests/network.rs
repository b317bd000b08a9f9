use os::net::arp::{handle_arp_incoming, release_waiting, ArpError, ArpPacket, ArpTable, WaitingPacket};
use os::net::ethernet::{broadcast_mac, EtherType, EthernetError, EthernetPacket, MacAddress};
use os::net::icmp::{
    handle_icmp, ControlMessageType, EchoPacket, ICMPError, ICMPPacket, IcmpAction, NoSubcode,
};
use os::net::icmp::ping::{ping_request, PingResponseQueue};
use os::net::ip::{handle_packet, ipv4_next_hop, IPProtocol, IPv4Packet, IpAction, IpError};
use os::net::socket::udp::{UdpPacket, UdpPacketHeader};
use os::net::{
    handle_frame, ncu_args, ncu_destination, ones_complement_checksum, FrameAction, Interface, Ipv4Addr,
    NcuArgsError, NetworkStream, PacketQueue,
    WhichInterface, PACKET_QUEUE_SIZE,
};

fn reference_checksum(data: &[u8]) -> u16 {
    let mut sum: u32 = 0;
    for pair in data.chunks(2) {
        let hi = pair[0] as u32;
        let lo = if pair.len() > 1 { pair[1] as u32 } else { 0 };
        sum += (hi << 8) | lo;
    }
    while sum >> 16 != 0 {
        sum = (sum & 0xffff) + (sum >> 16);
    }
    !(sum as u16)
}

fn interface() -> Interface {
    Interface {
        mac: MacAddress([0x52, 0x54, 0, 0x12, 0x34, 0x56]),
        ip: Ipv4Addr::from_octets([192, 168, 10, 2]),
        gateway: Ipv4Addr::from_octets([192, 168, 10, 1]),
        subnet_mask: Ipv4Addr::from_octets([255, 255, 255, 0]),
        which: WhichInterface::RTL8139,
    }
}

#[test]
fn checksum_known_values() {
    // the header of RFC 1071's example sums to 0xddf2
    assert_eq!(ones_complement_checksum(&[0x00, 0x01, 0xf2, 0x03, 0xf4, 0xf5, 0xf6, 0xf7]), !0xddf2u16);
    assert_eq!(ones_complement_checksum(&[]), 0xffff);
    assert_eq!(ones_complement_checksum(&[0xff]), 0x00ff);
    let data: Vec<u8> = (0..=255u8).cycle().take(1001).collect();
    assert_eq!(ones_complement_checksum(&data), reference_checksum(&data));
}

#[test]
fn checksum_with_itself_filled_in_verifies() {
    let mut data = vec![0x45, 0x00, 0x00, 0x1c, 0x12, 0x34, 0x00, 0x00, 0x40, 0x01, 0, 0, 10, 0, 2, 15, 10, 0, 2, 2];
    let c = ones_complement_checksum(&data);
    data[10] = (c >> 8) as u8;
    data[11] = c as u8;
    assert_eq!(ones_complement_checksum(&data), 0);
}

#[test]
fn ipv4_addr_octets() {
    let a = Ipv4Addr::from_octets([10, 0, 2, 15]);
    assert_eq!(a, Ipv4Addr(0x0a00_020f));
    assert_eq!(a.octets(), [10, 0, 2, 15]);
    assert!(Ipv4Addr::localhost().is_loopback());
    assert!(Ipv4Addr::from_octets([127, 9, 9, 9]).is_loopback());
    assert!(!a.is_loopback());
    assert!(Ipv4Addr(0).is_unspecified());
    assert!(!a.is_unspecified());
}

#[test]
fn ethernet_parse_and_write() {
    let mut frame = vec![0xff; 6];
    frame.extend_from_slice(&[1, 2, 3, 4, 5, 6, 0x08, 0x06, 9, 9]);
    let p = EthernetPacket::try_from(frame.as_slice()).unwrap();
    assert_eq!(p.destination.0, broadcast_mac().0);
    assert_eq!(p.source.0, [1, 2, 3, 4, 5, 6]);
    assert_eq!(p.typ, EtherType::Arp);
    assert_eq!(p.data, &[9, 9]);
    assert_eq!(p.total_len(), 16);
    assert_eq!(p.to_bytes(), frame);
    let mut buf = vec![0u8; 20];
    p.write_into(&mut buf);
    assert_eq!(&buf[..16], frame.as_slice());
    assert_eq!(&buf[16..], &[0, 0, 0, 0]);
}

#[test]
fn ethernet_errors() {
    assert_eq!(EthernetPacket::try_from(&[0u8; 13][..]).err(), Some(EthernetError::EthernetPacketNotLongEnough));
    let mut frame = vec![0u8; 14];
    frame[12] = 0x86;
    frame[13] = 0xdd;
    assert_eq!(EthernetPacket::try_from(frame.as_slice()).err(), Some(EthernetError::UnknownEtherType));
    assert_eq!(MacAddress::try_from(&[1u8, 2, 3][..]).map(|m| m.0), Err(EthernetError::MACWrongLengthSlice));
    assert_eq!(MacAddress::try_from(&[1u8, 2, 3, 4, 5, 6][..]).map(|m| m.0), Ok([1, 2, 3, 4, 5, 6]));
    assert_eq!(EtherType::try_from(0x0800), Ok(EtherType::IPv4));
    assert_eq!(EtherType::try_from(0x1234), Err(0x1234));
    assert_eq!(EtherType::Arp.value(), 0x0806);
}

#[test]
fn arp_request_round_trip() {
    let req = ArpPacket::new_arp_request(
        MacAddress([1, 2, 3, 4, 5, 6]),
        Ipv4Addr::from_octets([10, 0, 2, 15]),
        Ipv4Addr::from_octets([10, 0, 2, 2]),
    );
    let bytes = req.to_bytes();
    assert_eq!(
        bytes,
        [0, 1, 8, 0, 6, 4, 0, 1, 1, 2, 3, 4, 5, 6, 10, 0, 2, 15, 0, 0, 0, 0, 0, 0, 10, 0, 2, 2]
    );
    let back = ArpPacket::try_from(&bytes).unwrap();
    assert_eq!(back.to_bytes(), bytes);
    assert_eq!(back.operation, 1);
    assert_eq!(back.target_protocol_address, Ipv4Addr::from_octets([10, 0, 2, 2]));
}

#[test]
fn arp_errors() {
    let good = ArpPacket::new_arp_request(MacAddress([0; 6]), Ipv4Addr(1), Ipv4Addr(2)).to_bytes();
    assert_eq!(ArpPacket::try_from(&good[..27]).err(), Some(ArpError::PacketNotLongEnough));
    let mut b = good;
    b[1] = 6;
    assert_eq!(ArpPacket::try_from(&b).err(), Some(ArpError::HardwareTypeNotEthernet));
    let mut b = good;
    b[2] = 0x12;
    assert_eq!(ArpPacket::try_from(&b).err(), Some(ArpError::UnknownProtocolType));
    let mut b = good;
    b[3] = 0x06;
    assert_eq!(ArpPacket::try_from(&b).err(), Some(ArpError::ProtocolTypeNotIPv4));
    let mut b = good;
    b[4] = 8;
    assert_eq!(ArpPacket::try_from(&b).err(), Some(ArpError::HardwareLengthNot6));
    let mut b = good;
    b[5] = 16;
    assert_eq!(ArpPacket::try_from(&b).err(), Some(ArpError::ProtocolLenNot4));
}

#[test]
fn arp_request_for_us_is_answered_and_learned() {
    let intf = interface();
    let asker = MacAddress([0xa, 0xb, 0xc, 0xd, 0xe, 0xf]);
    let asker_ip = Ipv4Addr::from_octets([192, 168, 10, 7]);
    let req = ArpPacket::new_arp_request(asker, asker_ip, intf.ip);
    let mut table = ArpTable::new();
    let reply = handle_arp_incoming(&req, &intf, &mut table).unwrap();
    assert_eq!(table.get(asker_ip).map(|m| m.0), Some(asker.0));
    let frame = EthernetPacket::try_from(reply.as_slice()).unwrap();
    assert_eq!(frame.destination.0, asker.0);
    assert_eq!(frame.source.0, intf.mac.0);
    assert_eq!(frame.typ, EtherType::Arp);
    let answer = ArpPacket::try_from(frame.data).unwrap();
    assert_eq!(answer.operation, 2);
    assert_eq!(answer.sender_hardware_address.0, intf.mac.0);
    assert_eq!(answer.sender_protocol_address, intf.ip);
    assert_eq!(answer.target_hardware_address.0, asker.0);
    assert_eq!(answer.target_protocol_address, asker_ip);

    // a request for another host gets no answer
    let other = ArpPacket::new_arp_request(asker, asker_ip, Ipv4Addr::from_octets([192, 168, 10, 9]));
    let mut table2 = ArpTable::new();
    assert!(handle_arp_incoming(&other, &intf, &mut table2).is_none());
    assert!(table2.get(asker_ip).is_none());
}

#[test]
fn arp_reply_is_learned_without_answer() {
    let intf = interface();
    let peer = MacAddress([9; 6]);
    let peer_ip = Ipv4Addr::from_octets([192, 168, 10, 1]);
    let rep = ArpPacket::new_arp_reply(peer, peer_ip, intf.mac, intf.ip);
    let mut table = ArpTable::new();
    assert!(handle_arp_incoming(&rep, &intf, &mut table).is_none());
    assert_eq!(table.get(peer_ip).map(|m| m.0), Some(peer.0));
}

fn ipv4_bytes(dst: [u8; 4], protocol: u8, payload: &[u8]) -> Vec<u8> {
    let total = 20 + payload.len();
    let mut v = vec![0x45, 0, (total >> 8) as u8, total as u8, 0, 1, 0x40, 0, 64, protocol, 0, 0, 192, 168, 10, 7];
    v.extend_from_slice(&dst);
    v.extend_from_slice(payload);
    v
}

#[test]
fn ipv4_parse_and_serialise() {
    let raw = ipv4_bytes([192, 168, 10, 2], 17, &[1, 2, 3]);
    let p = IPv4Packet::try_from(raw.as_slice()).unwrap();
    assert_eq!(p.header.version, 4);
    assert_eq!(p.header.ihl, 5);
    assert_eq!(p.header.total_length, 23);
    assert_eq!(p.header.identification, 1);
    assert_eq!(p.header.flags, 2);
    assert_eq!(p.header.ttl, 64);
    assert_eq!(p.header.protocol, IPProtocol::Udp);
    assert_eq!(p.header.source_address, Ipv4Addr::from_octets([192, 168, 10, 7]));
    assert_eq!(p.data, &[1, 2, 3]);
    assert_eq!(p.to_bytes(), raw);
    let with = IPv4Packet::try_from(raw.as_slice()).unwrap().with_checksum();
    let bytes = with.to_bytes();
    assert_eq!(ones_complement_checksum(&bytes[..20]), 0);
}

#[test]
fn ipv4_errors() {
    assert_eq!(IPv4Packet::try_from(&[0u8; 20][..]).err(), Some(IpError::PacketNotLongEnough));
    let raw = ipv4_bytes([1, 2, 3, 4], 99, &[0]);
    assert_eq!(IPv4Packet::try_from(raw.as_slice()).err(), Some(IpError::UnknownProtocol));
    let big = vec![0u8; 1481];
    assert_eq!(
        IPv4Packet::from_source_dest_and_data(Ipv4Addr(1), Ipv4Addr(2), &big).err(),
        Some(IpError::DataTooLong)
    );
    let ok = vec![0u8; 1480];
    let p = IPv4Packet::from_source_dest_and_data(Ipv4Addr(1), Ipv4Addr(2), &ok).unwrap();
    assert_eq!(p.header.total_length, 1500);
    assert_eq!(p.header.protocol, IPProtocol::Icmp);
    assert_eq!(IPProtocol::try_from(6), Ok(IPProtocol::Tcp));
    assert_eq!(IPProtocol::try_from(2), Err(2));
    assert_eq!(IPProtocol::Icmp.value(), 1);
}

#[test]
fn ipv4_dispatch_and_next_hop() {
    let intf = interface();
    let raw = ipv4_bytes([192, 168, 10, 2], 6, &[0]);
    assert_eq!(handle_packet(&IPv4Packet::try_from(raw.as_slice()).unwrap(), &intf), IpAction::Tcp);
    let raw = ipv4_bytes([192, 168, 10, 3], 6, &[0]);
    assert_eq!(handle_packet(&IPv4Packet::try_from(raw.as_slice()).unwrap(), &intf), IpAction::Ignore);
    let local = Ipv4Addr::from_octets([192, 168, 10, 77]);
    assert_eq!(ipv4_next_hop(&intf, local), local);
    assert_eq!(ipv4_next_hop(&intf, Ipv4Addr::from_octets([8, 8, 8, 8])), intf.gateway);
}

#[test]
fn icmp_echo_request_is_answered() {
    let intf = interface();
    let payload = [0xde, 0xad, 0xbe, 0xef];
    let mut req = ping_request(7, 3, &payload);
    req.calc_new_checksum();
    let icmp_bytes = req.to_bytes();
    assert_eq!(ones_complement_checksum(&icmp_bytes), 0);
    assert_eq!(req.total_len(), 12);
    let raw = ipv4_bytes([192, 168, 10, 2], 1, &icmp_bytes);
    let ip = IPv4Packet::try_from(raw.as_slice()).unwrap();
    match handle_icmp(&ip, &intf) {
        IcmpAction::Reply(reply) => {
            assert_eq!(reply.destination, Ipv4Addr::from_octets([192, 168, 10, 7]));
            let ipr = IPv4Packet::try_from(reply.packet.as_slice()).unwrap();
            assert_eq!(ipr.header.source_address, intf.ip);
            assert_eq!(ipr.header.destination_address, Ipv4Addr::from_octets([192, 168, 10, 7]));
            assert_eq!(ipr.header.protocol, IPProtocol::Icmp);
            assert_eq!(ipr.header.total_length, 32);
            let back = ICMPPacket::try_from(ipr.data).unwrap();
            assert_eq!(back.typ, ControlMessageType::EchoReply(NoSubcode::NoCode));
            assert_eq!(back.other, 0x0007_0003);
            assert_eq!(back.data, &payload);
            assert_eq!(ones_complement_checksum(ipr.data), 0);
        }
        _ => panic!("an echo request must be answered"),
    }
}

#[test]
fn icmp_errors_and_types() {
    assert_eq!(ICMPPacket::try_from(&[8u8, 0, 0][..]).err(), Some(ICMPError::PacketNotLongEnough));
    assert_eq!(ICMPPacket::try_from(&[2u8, 0, 0, 0, 0, 0, 0, 0][..]).err(), Some(ICMPError::UnknownControlMessageType));
    assert_eq!(ControlMessageType::try_from((8, 0)), Ok(ControlMessageType::EchoRequest(NoSubcode::NoCode)));
    assert_eq!(ControlMessageType::try_from((8, 1)), Err(1));
    assert_eq!(ControlMessageType::try_from((2, 0)), Err(2));
    let t = ControlMessageType::EchoRequest(NoSubcode::NoCode);
    assert_eq!((t.outer_as(), t.inner_as()), (8, 0));
    assert_eq!(EchoPacket::from(0x0007_0003), EchoPacket { identifier: 7, sequence_num: 3 });
}

#[test]
fn ping_responses_are_matched_by_identifier() {
    let payload = [1u8, 2];
    let mut reply = ping_request(42, 1, &payload);
    reply.typ = ControlMessageType::EchoReply(NoSubcode::NoCode);
    let mut q = PingResponseQueue::new();
    assert!(q.handle_icmp_echo_response(&reply));
    assert!(q.find_matching_ping_response(41).is_none());
    let info = q.find_matching_ping_response(42).unwrap();
    assert_eq!((info.identifier, info.sequence_num, info.payload.clone()), (42, 1, vec![1, 2]));
    assert!(q.find_matching_ping_response(42).is_none());
}

#[test]
fn udp_packets() {
    let p = UdpPacket::new(1000, 53, &[7, 8, 9]);
    assert_eq!(p.header.length, 11);
    let bytes = p.to_bytes();
    assert_eq!(bytes, vec![0x03, 0xe8, 0, 53, 0, 11, 0, 0, 7, 8, 9]);
    let back = UdpPacket::from_bytes(&bytes).unwrap();
    assert_eq!(back.header, p.header);
    assert_eq!(back.data, vec![7, 8, 9]);
    let h = UdpPacketHeader::from_bytes([0, 1, 0, 2, 0, 8, 0xab, 0xcd]);
    assert_eq!((h.src_port, h.dst_port, h.length, h.checksum), (1, 2, 8, 0xabcd));
    assert_eq!(h.to_bytes(), [0, 1, 0, 2, 0, 8, 0xab, 0xcd]);
}

fn frame(dst: MacAddress, src: MacAddress, typ: [u8; 2], payload: &[u8]) -> Vec<u8> {
    let mut v = dst.0.to_vec();
    v.extend_from_slice(&src.0);
    v.extend_from_slice(&typ);
    v.extend_from_slice(payload);
    v
}

#[test]
fn handle_frame_routes_by_ether_type() {
    let intf = interface();
    let peer = MacAddress([3; 6]);
    let mut table = ArpTable::new();

    let ip = ipv4_bytes([192, 168, 10, 2], 17, &[0; 8]);
    match handle_frame(&frame(intf.mac, peer, [0x08, 0x00], &ip), &intf, &mut table) {
        FrameAction::Ip(a) => assert_eq!(a, IpAction::Udp),
        _ => panic!("an IPv4 packet goes to the IP handler"),
    }
    assert_eq!(table.get(Ipv4Addr::from_octets([192, 168, 10, 7])).map(|m| m.0), Some(peer.0));

    let req = ArpPacket::new_arp_request(peer, Ipv4Addr::from_octets([192, 168, 10, 8]), intf.ip).to_bytes();
    match handle_frame(&frame(broadcast_mac(), peer, [0x08, 0x06], &req), &intf, &mut table) {
        FrameAction::Arp(Some(_)) => {}
        _ => panic!("a request for us is answered"),
    }

    let unknown = frame(intf.mac, peer, [0x86, 0xdd], &[0; 40]);
    assert!(matches!(handle_frame(&unknown, &intf, &mut table), FrameAction::Drop));
    let short_ip = frame(intf.mac, peer, [0x08, 0x00], &[0x45; 10]);
    assert!(matches!(handle_frame(&short_ip, &intf, &mut table), FrameAction::Drop));
}

#[test]
fn packet_queue_is_fifo_and_bounded() {
    let mut q = PacketQueue::new();
    assert_eq!(q.pop(), None);
    for i in 0..PACKET_QUEUE_SIZE {
        assert!(q.push_packet(vec![i as u8]));
    }
    assert!(!q.push_packet(vec![0xff]));
    assert_eq!(q.pop(), Some(vec![0]));
    let mut s = NetworkStream { queue: q };
    assert_eq!(s.poll_next(), Some(vec![1]));
}

#[test]
fn ncu_arguments_name_address_and_port() {
    match ncu_args(&["192.168.10.7", "8080"]) {
        Ok((a, p)) => {
            assert_eq!(a, Ipv4Addr::from_octets([192, 168, 10, 7]));
            assert_eq!(p, 8080);
        }
        Err(e) => panic!("arguments refused: {e:?}"),
    }
    assert!(matches!(ncu_args(&["192.168.10.7"]), Err(NcuArgsError::TooFewArgs)));
    assert!(matches!(ncu_args(&[]), Err(NcuArgsError::TooFewArgs)));
    assert!(matches!(ncu_args(&["192.168.10", "80"]), Err(NcuArgsError::BadAddress(_))));
    assert!(matches!(ncu_args(&["192.168.10.7", "65536"]), Err(NcuArgsError::BadPort(_))));
    assert!(matches!(ncu_args(&["192.168.10.7", " 80"]), Err(NcuArgsError::BadPort(_))));
    assert!(matches!(ncu_args(&["192.168.10.7", "+"]), Err(NcuArgsError::BadPort(_))));
    assert!(matches!(ncu_destination(Ok(5), "+0065535"), Ok((Ipv4Addr(5), 65535))));
    assert!(matches!(ncu_destination(Ok(5), ""), Err(NcuArgsError::BadPort(_))));
    let refused = "x".parse::<core::net::Ipv4Addr>().unwrap_err();
    assert!(matches!(ncu_destination(Err(refused), "80"), Err(NcuArgsError::BadAddress(_))));
}

#[test]
fn ipv4_header_keeps_all_six_dscp_bits() {
    let mut v = [0u8; 20];
    v[0] = 0x45;
    v[1] = 0xB9;
    v[9] = 17;
    let h = os::net::ip::IPv4Header::try_from(v).unwrap();
    assert_eq!(h.dscp, 46);
    assert_eq!(h.ecn, 1);
    assert_eq!(h.to_bytes()[1], 0xB9);
}

#[test]
fn ping_with_count_zero_never_stops_sending() {
    assert!(os::net::icmp::ping::should_send(0, 0));
    assert!(os::net::icmp::ping::should_send(65535, 0));
    assert!(os::net::icmp::ping::should_send(2, 3));
    assert!(!os::net::icmp::ping::should_send(3, 3));
}

#[test]
fn ping_sender_paces_requests_a_second_apart() {
    use_ping_sender();
}

fn use_ping_sender() {
    let mut s = os::net::icmp::ping::PingSender::new(2, 100);
    assert_eq!(s.step(100), os::net::icmp::ping::PingStep::Send(0));
    assert_eq!(s.step(500), os::net::icmp::ping::PingStep::Wait);
    assert_eq!(s.step(1100), os::net::icmp::ping::PingStep::Send(1));
    assert_eq!(s.step(5000), os::net::icmp::ping::PingStep::Done);
    assert!(s.done);
    let mut forever = os::net::icmp::ping::PingSender::new(0, 0);
    forever.next_sequence = 65535;
    assert_eq!(forever.step(0), os::net::icmp::ping::PingStep::Send(65535));
    assert_eq!(forever.next_sequence, 0);
    assert_eq!(forever.step(1000), os::net::icmp::ping::PingStep::Send(0));
}

#[test]
fn checksum_appended_verifies_and_odd_byte_is_zero_padded() {
    let d = [0x45u8, 0x00, 0x00, 0x1c, 0xfe, 0xed, 0x40, 0x00, 0x14, 0x01];
    let c = ones_complement_checksum(&d);
    let mut with = d.to_vec();
    with.extend_from_slice(&c.to_be_bytes());
    assert_eq!(ones_complement_checksum(&with), 0);
    let odd = [0x12u8, 0x34, 0x56];
    assert_eq!(ones_complement_checksum(&odd), ones_complement_checksum(&[0x12, 0x34, 0x56, 0x00]));
    assert_eq!(ones_complement_checksum(&odd), !(0x1234u16 + 0x5600));
}

#[test]
fn waiting_packets_go_out_once_their_hop_is_known() {
    let mut table = ArpTable::new();
    let a = Ipv4Addr::from_octets([192, 168, 10, 1]);
    let b = Ipv4Addr::from_octets([192, 168, 10, 9]);
    let mac = MacAddress([2, 0, 0, 0, 0, 1]);
    table.insert(a, mac);
    let waiting = vec![
        WaitingPacket { hop: b, bytes: vec![1] },
        WaitingPacket { hop: a, bytes: vec![2] },
        WaitingPacket { hop: b, bytes: vec![3] },
        WaitingPacket { hop: a, bytes: vec![4] },
    ];
    let (ready, still) = release_waiting(&table, waiting);
    assert_eq!(ready.len(), 2);
    assert_eq!((ready[0].0 .0, ready[0].1.bytes.clone()), (mac.0, vec![2]));
    assert_eq!((ready[1].0 .0, ready[1].1.bytes.clone()), (mac.0, vec![4]));
    assert_eq!(still.iter().map(|w| w.bytes[0]).collect::<Vec<_>>(), vec![1, 3]);
}

#[test]
fn short_udp_data_is_dropped_by_the_library() {
    let mut registry = os::net::socket::udp::UdpRegistry::new();
    let me = Ipv4Addr::from_octets([10, 0, 0, 1]);
    let _s = os::net::socket::udp::UdpSocket::bind(&mut registry, os::net::socket::SocketAddrV4::new(me, 7)).unwrap();
    let mut packet = IPv4Packet::from_source_dest_and_data(me, me, &[0, 7, 0, 7, 0, 9]).unwrap();
    packet.header.protocol = IPProtocol::Udp;
    let wire = packet.with_checksum().to_bytes();
    let ip = IPv4Packet::try_from(wire.as_slice()).unwrap();
    assert!(!os::net::socket::udp::handle_incoming_packet(&mut registry, &ip));
    assert!(UdpPacket::from_bytes(&[1, 2, 3]).is_none());
    assert!(UdpPacket::from_bytes(&[0, 1, 0, 2, 0, 8, 0, 0]).is_some());
}

#[test]
fn ping_arguments_and_routes() {
    assert_eq!(os::net::ping_args(&["10.0.0.2"]).unwrap(), Ipv4Addr::from_octets([10, 0, 0, 2]));
    assert!(os::net::ping_args(&["10.0.0"]).is_err());
    assert_eq!(os::net::PING_COUNT, 5);
    assert_eq!(os::net::frame_route(Ipv4Addr::localhost()), os::net::FrameRoute::Loopback);
    assert_eq!(os::net::frame_route(Ipv4Addr::from_octets([127, 9, 9, 9])), os::net::FrameRoute::Loopback);
    assert_eq!(os::net::frame_route(Ipv4Addr::from_octets([10, 0, 0, 2])), os::net::FrameRoute::Card);
    let intf = Ipv4Addr::from_octets([10, 0, 0, 1]);
    let lo = os::net::socket::SocketAddrV4::new(Ipv4Addr::from_octets([127, 0, 0, 1]), 80);
    let far = os::net::socket::SocketAddrV4::new(Ipv4Addr::from_octets([8, 8, 8, 8]), 80);
    assert_eq!(os::net::socket::tcp::segment_source(lo, intf), Ipv4Addr::localhost());
    assert_eq!(os::net::socket::tcp::segment_source(far, intf), intf);
}
