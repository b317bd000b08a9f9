use os::pci::class_codes::{
    BridgeSubClass, ClassCode, MassStorageControllerSubClass, NetworkControllerSubClass, NoSubClass,
};
use os::pci::{ConfigSpace, PCIBusDevice, PCIDevice, CONFIG_ADDRESS, CONFIG_DATA};
use os::port::{PortGeneric, ReadWriteAccess};
use os::volatile::Volatile;
use os::net::nic::rtl8139::{
    find_rtl, fmt_mac, InterruptAction, Ports, RTL8139, RX_BUFFER_TOTAL, TX_BUFFER_SIZE,
};
use os::mem::phys::{zeroed_bytes, PhysBuf};

/// A zeroed device buffer of `len` bytes at physical address `at`.
fn phys(len: usize, at: u64) -> PhysBuf {
    PhysBuf::from(zeroed_bytes(len), at, at + len as u64 - 1).unwrap()
}

/// A card at `io_base` with its buffers at made-up physical addresses.
fn card(io_base: u16) -> RTL8139 {
    RTL8139::new(io_base, phys(RX_BUFFER_TOTAL, 0x10_0000), phys(4 * TX_BUFFER_SIZE, 0x20_0000))
}

fn rtl_space(base: u32) -> ConfigSpace {
    let mut d = [0u32; 16];
    d[0] = 0x8139_10EC; // device, vendor
    d[1] = 0x0290_0007; // status, command
    d[2] = 0x0200_0020; // class 2 (network), subclass 0 (ethernet), prog if 0, revision 0x20
    d[3] = 0x0000_0000;
    d[4] = base;
    d[15] = 0x0000_010B; // interrupt line 11
    ConfigSpace { dwords: d }
}

#[test]
fn config_address_packs_the_fields() {
    assert_eq!(PCIBusDevice::config_address(0, 0, 0, 0), 0x8000_0000);
    assert_eq!(PCIBusDevice::config_address(1, 2, 3, 0x0E), 0x8001_130C);
    assert_eq!(PCIBusDevice::config_address(0xFF, 31, 7, 0xFF), 0x80FF_FFFC);
}

#[test]
fn word_at_picks_the_half() {
    assert_eq!(PCIBusDevice::word_at(0x1234_5678, 0), 0x5678);
    assert_eq!(PCIBusDevice::word_at(0x1234_5678, 2), 0x1234);
    assert_eq!(PCIBusDevice::word_at(0x1234_5678, 0x0E), 0x1234);
}

#[test]
fn bus_uses_the_configuration_ports() {
    let bus = PCIBusDevice::new();
    assert_eq!(bus.address.port, CONFIG_ADDRESS);
    assert_eq!(bus.data.port, CONFIG_DATA);
}

#[test]
fn device_reads_words_and_dwords() {
    let dev = PCIDevice::new(0, 3);
    assert_eq!(dev.bus, 0);
    assert_eq!(dev.slot, 3);
    let space = rtl_space(0xC001);
    assert_eq!(dev.read_word(&space, 0), 0x10EC);
    assert_eq!(dev.read_word(&space, 2), 0x8139);
    assert_eq!(dev.read_dword(&space, 0x10), 0xC001);
    assert_eq!(dev.read_dword(&space, 0x12), 0xC001);
}

#[test]
fn header_type_is_third_byte_of_dword_3() {
    let mut space = rtl_space(0xC001);
    space.dwords[3] = 0x0080_0000;
    assert_eq!(PCIDevice::new(0, 0).get_header_type(&space), 0x80);
}

#[test]
fn get_header_decodes_a_network_card() {
    let space = rtl_space(0xC001);
    let h = PCIDevice::new(0, 3).get_header(&space).unwrap();
    assert_eq!(h.vendor_id, 0x10EC);
    assert_eq!(h.device_id, 0x8139);
    assert_eq!(h.command, 0x0007);
    assert_eq!(h.status, 0x0290);
    assert_eq!(h.revision_id, 0x20);
    assert_eq!(h.prog_if, 0);
    assert_eq!(h.class, ClassCode::NetworkController(NetworkControllerSubClass::Ethernet));
    assert_eq!(h.header_type, 0);
    assert_eq!(h.base_addr0, 0xC001);
    assert_eq!(h.interrupt_line, 11);
}

#[test]
fn get_header_absent_device_is_none() {
    let mut space = rtl_space(0xC001);
    space.dwords[0] = 0xFFFF_FFFF;
    assert!(PCIDevice::new(0, 0).get_header(&space).is_none());
}

#[test]
fn get_header_unknown_class_is_none() {
    let mut space = rtl_space(0xC001);
    space.dwords[2] = 0x1300_0000;
    assert!(PCIDevice::new(0, 0).get_header(&space).is_none());
}

#[test]
fn enable_bus_mastering_sets_bit_2_only() {
    let mut space = rtl_space(0xC001);
    space.dwords[1] = 0x0290_0003;
    PCIDevice::new(0, 0).enable_bus_mastering(&mut space);
    assert_eq!(space.dwords[1], 0x0290_0007);
    assert_eq!(space.dwords[0], 0x8139_10EC);
}

#[test]
fn class_code_try_from() {
    assert_eq!(
        ClassCode::try_from((0x1, 0x6)),
        Ok(ClassCode::MassStorageController(MassStorageControllerSubClass::SerialAta))
    );
    assert_eq!(ClassCode::try_from((0x6, 0x4)), Ok(ClassCode::Bridge(BridgeSubClass::PciToPci)));
    // unknown class: the class code comes back
    assert_eq!(ClassCode::try_from((0x13, 0x0)), Err(0x13));
    // unknown subclass: the subclass code comes back
    assert_eq!(ClassCode::try_from((0x2, 0x42)), Err(0x42));
    // classes without subclasses never decode
    assert_eq!(ClassCode::try_from((0x12, 0x0)), Err(0x0));
    assert_eq!(ClassCode::try_from((0xFF, 0x7)), Err(0x7));
    assert_eq!(NoSubClass::try_from(5), Err(5));
}

#[test]
fn port_and_volatile() {
    let p: PortGeneric<u8, ReadWriteAccess> = PortGeneric::new(0x60);
    assert_eq!(p.port, 0x60);
    let mut v = Volatile::new(3u32);
    assert_eq!(v.read(), 3);
    v.write(9);
    assert_eq!(v.read(), 9);
    assert_eq!(Volatile::new_const(7u8).read(), 7);
}

#[test]
fn rtl_ports_are_at_their_offsets() {
    let p = Ports::new(0xC000);
    assert_eq!(p.mac[0].port, 0xC000);
    assert_eq!(p.mac[5].port, 0xC005);
    assert_eq!(p.tx_status[3].port, 0xC01C);
    assert_eq!(p.tx_start_addr[1].port, 0xC024);
    assert_eq!(p.receive_buffer_start.port, 0xC030);
    assert_eq!(p.command_reg.port, 0xC037);
    assert_eq!(p.capr.port, 0xC038);
    assert_eq!(p.interrupt_mask.port, 0xC03C);
    assert_eq!(p.interrupt_status.port, 0xC03E);
    assert_eq!(p.rx_config.port, 0xC044);
    assert_eq!(p.config1.port, 0xC052);
}

#[test]
fn rtl_try_new_only_for_rtl8139() {
    let space = rtl_space(0xC001);
    let h = PCIDevice::new(0, 3).get_header(&space).unwrap();
    let rtl = RTL8139::try_new(&h, phys(RX_BUFFER_TOTAL, 0x10_0000), phys(4 * TX_BUFFER_SIZE, 0x20_0000)).unwrap();
    assert_eq!(rtl.ports.mac[0].port, 0xC000);
    assert_eq!(rtl.rx_offset, 0);
    assert_eq!(rtl.tx_desc, 0);
    assert_eq!(rtl.rx_buf.buf.len(), RX_BUFFER_TOTAL);
    assert_eq!(rtl.tx_buf.buf.len(), 4 * TX_BUFFER_SIZE);

    let mut other = rtl_space(0xC001);
    other.dwords[0] = 0x100E_8086;
    let h2 = PCIDevice::new(0, 4).get_header(&other).unwrap();
    assert!(RTL8139::try_new(&h2, phys(RX_BUFFER_TOTAL, 0x10_0000), phys(4 * TX_BUFFER_SIZE, 0x20_0000)).is_none());
}

#[test]
fn find_rtl_finds_the_first_card() {
    let rtl = PCIDevice::new(0, 3).get_header(&rtl_space(0xC001));
    let mut other_space = rtl_space(0xC001);
    other_space.dwords[0] = 0x100E_8086;
    let other = PCIDevice::new(0, 1).get_header(&other_space);
    assert_eq!(find_rtl(&[None, other, rtl]), Some(2));
    assert_eq!(find_rtl(&[None, other]), None);
    assert_eq!(find_rtl(&[]), None);
}

fn put_frame(rtl: &mut RTL8139, at: usize, status: u16, data: &[u8]) {
    let len = (data.len() + 4) as u16; // the card counts the checksum too
    rtl.rx_buf.buf[at] = status as u8;
    rtl.rx_buf.buf[at + 1] = (status >> 8) as u8;
    rtl.rx_buf.buf[at + 2] = len as u8;
    rtl.rx_buf.buf[at + 3] = (len >> 8) as u8;
    rtl.rx_buf.buf[at + 4..at + 4 + data.len()].copy_from_slice(data);
}

#[test]
fn receive_packet_takes_frames_in_turn() {
    let mut rtl = card(0xC000);
    put_frame(&mut rtl, 0, 1, &[1, 2, 3, 4, 5]);
    // next frame: 0 + 9 + 4 rounded up to 16
    put_frame(&mut rtl, 16, 1, &[9, 9]);
    let first = rtl.receive_packet(0).unwrap();
    assert_eq!(first, vec![1, 2, 3, 4, 5]);
    assert_eq!(rtl.rx_offset, 16);
    assert_eq!(rtl.capr(), 0);
    let second = rtl.receive_packet(0).unwrap();
    assert_eq!(second, vec![9, 9]);
    assert_eq!(rtl.rx_offset, 28);
    assert_eq!(rtl.capr(), 12);
}

#[test]
fn receive_packet_none_when_empty_or_bad() {
    let mut rtl = card(0xC000);
    put_frame(&mut rtl, 0, 1, &[1, 2]);
    assert!(rtl.rx_frame_ok());
    assert!(rtl.receive_packet(1).is_none());
    assert_eq!(rtl.rx_offset, 0);
    // a frame whose status lacks ROK cannot be taken
    put_frame(&mut rtl, 0, 0, &[1, 2]);
    assert!(!rtl.rx_frame_ok());
}

#[test]
fn receive_packet_wraps_around_the_ring() {
    let mut rtl = card(0xC000);
    rtl.rx_offset = 8188;
    put_frame(&mut rtl, 8188, 1, &[7; 8]);
    let p = rtl.receive_packet(0).unwrap();
    assert_eq!(p.len(), 8);
    // 8188 + 12 + 4 = 8204, wraps to 12
    assert_eq!(rtl.rx_offset, 12);
    assert_eq!(rtl.capr(), 0xFFFC);
}

#[test]
fn send_packet_rotates_slots() {
    let mut rtl = card(0xC000);
    let r0 = rtl.send_packet(&[0xAA, 0xBB], 0x2000);
    assert_eq!((r0.desc, r0.offset, r0.status), (0, 0, 2));
    assert_eq!(&rtl.tx_buf.buf[0..3], &[0xAA, 0xBB, 0]);
    for _ in 0..3 {
        rtl.send_packet(&[1], 0x2000);
    }
    assert_eq!(rtl.tx_desc, 0);
    let r4 = rtl.send_packet(&[5; 60], 0xA000);
    assert_eq!((r4.desc, r4.offset, r4.status), (0, 0, 60));
}

#[test]
fn send_arp_builds_the_probe() {
    let mut rtl = card(0xC000);
    rtl.tx_desc = 1;
    let mac = [0x52, 0x54, 0x00, 0x12, 0x34, 0x56];
    let r = rtl.send_arp(mac, 0x2000);
    assert_eq!((r.desc, r.offset, r.status), (1, 2048, 42));
    let frame = &rtl.tx_buf.buf[2048..2048 + 42];
    assert_eq!(&frame[0..6], &[0xff; 6]);
    assert_eq!(&frame[6..12], &mac);
    assert_eq!(&frame[12..22], &[0x08, 0x06, 0, 1, 0x08, 0, 6, 4, 0, 1]);
    assert_eq!(&frame[22..28], &mac);
    assert_eq!(&frame[28..32], &[10, 0, 2, 15]);
    assert_eq!(&frame[32..38], &[0; 6]);
    assert_eq!(&frame[38..42], &[10, 0, 2, 2]);
}

#[test]
fn handle_interrupt_decodes_status() {
    assert_eq!(RTL8139::handle_interrupt(0), InterruptAction::Done);
    assert_eq!(
        RTL8139::handle_interrupt(0x5),
        InterruptAction::Acknowledge { status: 5, receive: true, transmitted: true, receive_error: false }
    );
    assert_eq!(
        RTL8139::handle_interrupt(0x2),
        InterruptAction::Acknowledge { status: 2, receive: false, transmitted: false, receive_error: true }
    );
}

#[test]
fn fmt_mac_is_uppercase_hex_with_colons() {
    assert_eq!(fmt_mac(&[0x52, 0x54, 0x00, 0x12, 0xab, 0xff]), "52:54:00:12:AB:FF");
    assert_eq!(fmt_mac(&[0; 6]), "00:00:00:00:00:00");
}

#[test]
fn phys_buf_is_zeroed_and_checks_contiguity() {
    let b = phys(5, 0x3000);
    assert_eq!(b.buf, vec![0; 5]);
    assert_eq!(b.addr(), 0x3000);
    assert!(PhysBuf::from(vec![1, 2, 3], 0x1000, 0x1002).is_ok());
    assert!(PhysBuf::from(vec![1, 2, 3], 0x1002, 0x1000).is_err());
    let back = PhysBuf::from(vec![1, 2, 3], 0x1000, 0x2002);
    assert_eq!(back.err(), Some(vec![1, 2, 3]));
}
