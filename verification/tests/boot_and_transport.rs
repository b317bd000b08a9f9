use os::mem::{align_up, layout_to_size_index, AreaFrameAllocator, Frame, Layout};
use os::multiboot::{
    BootInformationFormat, NameError, MemoryEntry, MemoryRegionType, RawMemoryEntry, SectionType, TagError,
};
use os::net::socket::tcp::{EphemeralPortTracker, TcpError, TcpSegment, TcpSegmentHeader};

fn le32(v: &mut Vec<u8>, x: u32) {
    v.extend_from_slice(&x.to_le_bytes());
}

fn le64(v: &mut Vec<u8>, x: u64) {
    v.extend_from_slice(&x.to_le_bytes());
}

/// Boot information with a memory map of three entries (one of an unknown type) and the end tag.
fn boot_info() -> Vec<u8> {
    let mut v = Vec::new();
    le32(&mut v, 0); // total size, set below
    le32(&mut v, 0);
    // memory map tag
    le32(&mut v, 6);
    le32(&mut v, 16 + 3 * 24);
    le32(&mut v, 24);
    le32(&mut v, 0);
    for (base, len, typ) in [(0u64, 0x9fc00u64, 1u32), (0x100000, 0x7ee0000, 2), (0x8000000, 0x1000, 9)] {
        le64(&mut v, base);
        le64(&mut v, len);
        le32(&mut v, typ);
        le32(&mut v, 0);
    }
    // end tag
    le32(&mut v, 0);
    le32(&mut v, 8);
    let n = v.len() as u32;
    v[0..4].copy_from_slice(&n.to_le_bytes());
    v
}

#[test]
fn boot_info_tags_and_memory_map() {
    let boot = BootInformationFormat::load(0x1000, boot_info());
    assert_eq!(boot.start_addr(), 0x1000);
    assert_eq!(boot.end_addr(), 0x1000 + boot.bytes.len() as u64);
    let tags = boot.tags().unwrap();
    assert_eq!(tags.len(), 1);
    assert_eq!((tags[0].typ, tags[0].size, tags[0].offset), (6, 88, 8));
    assert_eq!(boot.get(9), Err(TagError::NotFound));
    let map = boot.memory_map().unwrap();
    assert_eq!(map.entry_size, 24);
    let entries = map.get_all_entries(&boot);
    assert_eq!(
        entries,
        vec![
            MemoryEntry { base_addr: 0, length: 0x9fc00, typ: MemoryRegionType::Available },
            MemoryEntry { base_addr: 0x100000, length: 0x7ee0000, typ: MemoryRegionType::Reserved },
        ]
    );
    assert!(boot.elf_symbols().is_err());
}

#[test]
fn broken_tag_chain_has_no_tags() {
    let mut b = boot_info();
    let n = b.len();
    // the end tag is missing its size
    b[n - 4..].copy_from_slice(&4u32.to_le_bytes());
    let boot = BootInformationFormat::load(0, b);
    assert!(boot.tags().is_none());
}

#[test]
fn memory_map_validation() {
    let boot = BootInformationFormat::load(0, boot_info());
    let mut map = boot.memory_map().unwrap();
    assert!(map.validate().is_ok());
    map.entry_size = 20;
    assert_eq!(map.validate().err(), Some(TagError::ValidationError));
}

#[test]
fn region_and_section_types() {
    assert_eq!(MemoryRegionType::try_from(1), Ok(MemoryRegionType::Available));
    assert_eq!(MemoryRegionType::try_from(5), Ok(MemoryRegionType::DefectiveRam));
    assert_eq!(MemoryRegionType::try_from(6), Err(6));
    assert!(MemoryEntry::try_from(&RawMemoryEntry { base_addr: 0, length: 1, typ: 0 }).is_err());
    assert_eq!(SectionType::try_from(1), Ok(SectionType::Progbits));
    assert_eq!(SectionType::try_from(0), Ok(SectionType::Inactive));
    assert!(SectionType::try_from(0x1234).is_err());
}

#[test]
fn align_up_rounds_to_the_next_multiple() {
    assert_eq!(align_up(0, 8), 0);
    assert_eq!(align_up(1, 8), 8);
    assert_eq!(align_up(8, 8), 8);
    assert_eq!(align_up(4097, 4096), 8192);
    assert_eq!(Frame::containing_address(8191), Frame { number: 1 });
}

#[test]
fn size_classes() {
    assert_eq!(layout_to_size_index(&Layout { size: 1, align: 1 }), Some(0));
    assert_eq!(layout_to_size_index(&Layout { size: 9, align: 1 }), Some(1));
    assert_eq!(layout_to_size_index(&Layout { size: 8, align: 2048 }), Some(8));
    assert_eq!(layout_to_size_index(&Layout { size: 2049, align: 8 }), None);
}

#[test]
fn frame_allocator_skips_kernel_and_boot_info() {
    let areas = vec![
        MemoryEntry { base_addr: 0, length: 4 * 4096, typ: MemoryRegionType::Available },
        MemoryEntry { base_addr: 16 * 4096, length: 2 * 4096, typ: MemoryRegionType::Available },
    ];
    // kernel in frames 1..=2, boot information in frame 17
    let mut a = AreaFrameAllocator::new(4096, 3 * 4096 - 1, 17 * 4096, 17 * 4096 + 100, areas);
    let mut got = Vec::new();
    while let Some(f) = a.allocate_frame() {
        got.push(f.number);
    }
    assert_eq!(got, vec![0, 3, 16]);
}

#[test]
fn tcp_header_round_trip_and_errors() {
    let mut bytes = vec![0x30, 0x39, 0x00, 0x50, 0, 0, 0, 1, 0, 0, 0, 2, 0x50, 0x12, 0xff, 0xff, 0, 0, 0, 0];
    let h = TcpSegmentHeader::from_bytes(&bytes).unwrap();
    assert_eq!((h.src_port, h.dst_port, h.sequence_num, h.ack_num), (12345, 80, 1, 2));
    assert_eq!((h.data_offset, h.flags, h.window_size), (5, 0x12, 0xffff));
    assert_eq!(h.byte_count(), 20);
    assert_eq!(h.to_bytes().to_vec(), bytes);
    bytes.extend_from_slice(&[7, 7, 7]);
    let seg = TcpSegment::from_bytes(&bytes).unwrap();
    assert_eq!(seg.data, vec![7, 7, 7]);
    assert_eq!(seg.to_bytes(), bytes);
    assert_eq!(TcpSegmentHeader::from_bytes(&bytes[..19]).err(), Some(TcpError::HigherLevelPacketWasTooShort));
    let mut with_options = bytes[..20].to_vec();
    with_options[12] = 0x60;
    assert_eq!(TcpSegmentHeader::from_bytes(&with_options).err(), Some(TcpError::HigherLevelPacketWasTooShort));
    with_options.extend_from_slice(&[1, 1, 1, 0]);
    assert_eq!(TcpSegmentHeader::from_bytes(&with_options).unwrap().options, vec![1, 1, 1, 0]);
    assert_eq!(TcpSegmentHeader::options_length(5), 0);
    assert_eq!(TcpSegmentHeader::options_length(15), 40);
}

#[test]
fn ephemeral_ports() {
    let mut t = EphemeralPortTracker::new();
    assert_eq!(t.get_new(), 49153);
    t.last_registered = 0xfffe;
    assert_eq!(t.get_new(), 49152);
}

fn boot_info_with_name(name: &[u8]) -> Vec<u8> {
    let mut v = Vec::new();
    le32(&mut v, 0);
    le32(&mut v, 0);
    le32(&mut v, 2);
    le32(&mut v, 8 + name.len() as u32 + 1);
    v.extend_from_slice(name);
    v.push(0);
    while v.len() % 8 != 0 {
        v.push(0);
    }
    le32(&mut v, 0);
    le32(&mut v, 8);
    let n = v.len() as u32;
    v[0..4].copy_from_slice(&n.to_le_bytes());
    v
}

#[test]
fn boot_loader_name_reads_up_to_the_zero_byte() {
    let boot = BootInformationFormat::load(0, boot_info_with_name(b"GRUB 2.06"));
    let tag = boot.boot_loader_name().unwrap();
    assert_eq!(tag.header.offset, 8);
    assert_eq!(tag.name(&boot), Ok("GRUB 2.06".to_string()));
    let bad = BootInformationFormat::load(0, boot_info_with_name(&[0xff, 0xfe]));
    let tag = bad.boot_loader_name().unwrap();
    assert_eq!(tag.name(&bad), Err(NameError::NotUtf8));
    let none = BootInformationFormat::load(0, boot_info());
    assert_eq!(none.boot_loader_name().err(), Some(TagError::NotFound));
}

#[test]
fn frame_allocator_starts_at_the_lowest_area() {
    let areas = vec![
        MemoryEntry { base_addr: 40 * 4096, length: 4096, typ: MemoryRegionType::Available },
        MemoryEntry { base_addr: 8 * 4096 + 5, length: 4096, typ: MemoryRegionType::Available },
    ];
    let a = AreaFrameAllocator::new(0, 0, 0, 0, areas);
    assert_eq!(a.current_area.unwrap().base_addr, 8 * 4096 + 5);
    assert_eq!(a.next_free_frame, Frame { number: 8 });
    let none = AreaFrameAllocator::new(0, 0, 0, 0, Vec::new());
    assert!(none.current_area.is_none());
    assert_eq!(none.next_free_frame, Frame { number: 0 });
}
