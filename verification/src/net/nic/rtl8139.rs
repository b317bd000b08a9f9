//! The RTL8139 network card: where its registers are, how frames are taken out of its
//! receive ring and put into its four transmit slots, and what its interrupt status asks for.
use vstd::prelude::*;
use vstd::string::StringExecFns;

use crate::bytes::le16_at;
use crate::bytes::u16_le_at;
use crate::mem::align_up;
use crate::mem::phys::PhysBuf;
use crate::net::Ipv4Addr;
use crate::net::arp::ArpPacket;
use crate::net::arp::arp_bytes;
use crate::net::ethernet::EtherType;
use crate::net::ethernet::MacAddress;
use crate::net::ethernet::frame_bytes;
use crate::pci::PCIDeviceHeader;
use crate::port::Port;
use crate::port::PortGeneric;

verus! {

/// The vendor number of Realtek.
pub const VENDOR_ID: u16 = 0x10EC;

/// The device number of the RTL8139.
pub const DEVICE_ID: u16 = 0x8139;

/// Bytes the card may write past the end of the receive ring before wrapping.
pub const RX_BUFFER_PAD: usize = 16;

/// Room after the ring for a frame that the card writes past its end.
pub const RX_BUFFER_WRAP_PAD: usize = 1500;

/// Length of the receive ring.
pub const RX_BUFFER_LEN: usize = 8192;

/// Length of the receive buffer: the ring and the room after it.
pub const RX_BUFFER_TOTAL: usize = 9708;

/// Length of each of the four transmit slots.
pub const TX_BUFFER_SIZE: usize = 2048;

/// Number of transmit slots.
pub const TX_DESCRIPTORS: usize = 4;

/// Receive status: the frame was received intact.
pub const RECEIVE_STATUS_ROK: u16 = 1;

/// Transmit status: the card has finished with the slot.
pub const TRANSMIT_STATUS_OWN: u32 = 0x2000;

/// Interrupt: a frame was received.
pub const INTERRUPT_ROK: u16 = 0x1;

/// Interrupt: a receive error.
pub const INTERRUPT_RER: u16 = 0x2;

/// Interrupt: a frame was sent.
pub const INTERRUPT_TOK: u16 = 0x4;

/// The interrupts enabled at start: frames received and frames sent.
pub const INTERRUPT_MASK_INIT: u16 = 0x5;

/// The receive configuration at start: accept every frame (all, physical match, multicast,
/// broadcast, runt) and let the card write past the end of the ring.
pub const RECEIVE_CONFIGURATION_INIT: u32 = 0x9F;

/// The registers of one card, each a port above its I/O base.
pub struct Ports {
    pub mac: [Port<u8>; 6],
    pub tx_status: [Port<u32>; 4],
    pub tx_start_addr: [Port<u32>; 4],
    pub receive_buffer_start: Port<u32>,
    pub command_reg: Port<u8>,
    /// Where the driver has read the receive ring up to.
    pub capr: Port<u16>,
    /// Where the card has written the receive ring up to.
    pub current_buffer_address: Port<u16>,
    pub interrupt_mask: Port<u16>,
    pub interrupt_status: Port<u16>,
    pub tx_config: Port<u32>,
    pub rx_config: Port<u32>,
    pub config0: Port<u8>,
    pub config1: Port<u8>,
}

/// Whether every register of `p` is at its offset above `io_base`.
pub open spec fn ports_at(p: Ports, io_base: u16) -> bool {
    &&& forall|i: int| 0 <= i < 6 ==> #[trigger] p.mac@[i].port == io_base + i
    &&& forall|i: int| 0 <= i < 4 ==> #[trigger] p.tx_status@[i].port == io_base + 0x10 + 4 * i
    &&& forall|i: int| 0 <= i < 4 ==> #[trigger] p.tx_start_addr@[i].port == io_base + 0x20 + 4 * i
    &&& p.receive_buffer_start.port == io_base + 0x30
    &&& p.command_reg.port == io_base + 0x37
    &&& p.capr.port == io_base + 0x38
    &&& p.current_buffer_address.port == io_base + 0x3A
    &&& p.interrupt_mask.port == io_base + 0x3C
    &&& p.interrupt_status.port == io_base + 0x3E
    &&& p.tx_config.port == io_base + 0x40
    &&& p.rx_config.port == io_base + 0x44
    &&& p.config0.port == io_base + 0x51
    &&& p.config1.port == io_base + 0x52
}

impl Ports {
    /// The registers of the card whose I/O base, from its PCI header, is `io_base`.
    pub fn new(io_base: u16) -> (r: Ports)
        requires
            io_base + 0x52 <= u16::MAX,
        ensures
            ports_at(r, io_base),
    {
        let r = Ports {
            mac: [
                PortGeneric::new(io_base),
                PortGeneric::new(io_base + 0x01),
                PortGeneric::new(io_base + 0x02),
                PortGeneric::new(io_base + 0x03),
                PortGeneric::new(io_base + 0x04),
                PortGeneric::new(io_base + 0x05),
            ],
            tx_status: [
                PortGeneric::new(io_base + 0x10),
                PortGeneric::new(io_base + 0x14),
                PortGeneric::new(io_base + 0x18),
                PortGeneric::new(io_base + 0x1C),
            ],
            tx_start_addr: [
                PortGeneric::new(io_base + 0x20),
                PortGeneric::new(io_base + 0x24),
                PortGeneric::new(io_base + 0x28),
                PortGeneric::new(io_base + 0x2C),
            ],
            receive_buffer_start: PortGeneric::new(io_base + 0x30),
            command_reg: PortGeneric::new(io_base + 0x37),
            capr: PortGeneric::new(io_base + 0x38),
            current_buffer_address: PortGeneric::new(io_base + 0x3A),
            interrupt_mask: PortGeneric::new(io_base + 0x3C),
            interrupt_status: PortGeneric::new(io_base + 0x3E),
            tx_config: PortGeneric::new(io_base + 0x40),
            rx_config: PortGeneric::new(io_base + 0x44),
            config0: PortGeneric::new(io_base + 0x51),
            config1: PortGeneric::new(io_base + 0x52),
        };
        assert(forall|i: int| 0 <= i < 6 ==> #[trigger] r.mac@[i].port == io_base + i) by {
            assert(r.mac@[0].port == io_base + 0);
        }
        r
    }
}

/// One card: its registers, its receive ring, its transmit slots, where the next received
/// frame starts, and which transmit slot is next.
pub struct RTL8139 {
    pub ports: Ports,
    pub rx_buf: PhysBuf,
    pub tx_buf: PhysBuf,
    pub rx_offset: usize,
    pub tx_desc: usize,
}

/// Whether a PCI header is that of an RTL8139.
pub open spec fn is_rtl8139(h: PCIDeviceHeader) -> bool {
    h.vendor_id == VENDOR_ID && h.device_id == DEVICE_ID
}

/// Whether the first base address of an RTL8139 header is a usable I/O port: its low bit
/// marks it as a port, and the registers above it fit below the top of the port space.
pub open spec fn io_base_usable(h: PCIDeviceHeader) -> bool {
    &&& h.base_addr0 & 1 == 1
    &&& h.base_addr0 < 0xFFFF
    &&& (h.base_addr0 & 0xFFFC) + 0x52 <= 0xFFFF
}

/// What an interrupt status asks the driver to do.
#[derive(Clone, Copy, Debug, PartialEq, Eq, Structural)]
pub enum InterruptAction {
    /// No interrupt is pending.
    Done,
    /// Write `status` back to acknowledge it, then take frames out of the ring if `receive`,
    /// and report a finished transmission if `transmitted`.
    Acknowledge { status: u16, receive: bool, transmitted: bool, receive_error: bool },
}

impl RTL8139 {
    /// The invariant: the buffers have their lengths, the next frame starts inside the ring
    /// and the next transmit slot is one of the four.
    pub open spec fn wf(&self) -> bool {
        &&& self.rx_buf.buf@.len() == RX_BUFFER_TOTAL
        &&& self.tx_buf.buf@.len() == TX_BUFFER_SIZE * TX_DESCRIPTORS
        &&& self.rx_offset < RX_BUFFER_LEN
        &&& self.tx_desc < TX_DESCRIPTORS
    }

    /// A card at `io_base` with zeroed buffers, reading from the start of its ring and
    /// sending from its first slot.
    pub fn new(io_base: u16, rx_buf: PhysBuf, tx_buf: PhysBuf) -> (r: RTL8139)
        requires
            io_base + 0x52 <= u16::MAX,
            rx_buf.buf@ == Seq::new(RX_BUFFER_TOTAL as nat, |i: int| 0u8),
            tx_buf.buf@ == Seq::new((TX_BUFFER_SIZE * TX_DESCRIPTORS) as nat, |i: int| 0u8),
        ensures
            r.wf(),
            ports_at(r.ports, io_base),
            r.rx_offset == 0,
            r.tx_desc == 0,
            r.rx_buf == rx_buf,
            r.tx_buf == tx_buf,
            forall|i: int| 0 <= i < RX_BUFFER_TOTAL ==> r.rx_buf.buf@[i] == 0,
            forall|i: int| 0 <= i < TX_BUFFER_SIZE * TX_DESCRIPTORS ==> r.tx_buf.buf@[i] == 0,
    {
        RTL8139 { ports: Ports::new(io_base), rx_buf, tx_buf, rx_offset: 0, tx_desc: 0 }
    }

    /// The card that `pci_header` describes, if it is an RTL8139; its registers are at the
    /// first base address with the two flag bits cleared.
    pub fn try_new(pci_header: &PCIDeviceHeader, rx_buf: PhysBuf, tx_buf: PhysBuf) -> (r: Option<RTL8139>)
        requires
            is_rtl8139(*pci_header) ==> io_base_usable(*pci_header),
            rx_buf.buf@ == Seq::new(RX_BUFFER_TOTAL as nat, |i: int| 0u8),
            tx_buf.buf@ == Seq::new((TX_BUFFER_SIZE * TX_DESCRIPTORS) as nat, |i: int| 0u8),
        ensures
            r is Some <==> is_rtl8139(*pci_header),
            r matches Some(d) ==> {
                &&& d.wf()
                &&& ports_at(d.ports, (pci_header.base_addr0 & 0xFFFC) as u16)
                &&& d.rx_offset == 0
                &&& d.tx_desc == 0
                &&& d.rx_buf == rx_buf
                &&& d.tx_buf == tx_buf
            },
    {
        if pci_header.vendor_id != VENDOR_ID || pci_header.device_id != DEVICE_ID {
            return None;
        }
        let io_base = (pci_header.base_addr0 & 0xFFFC) as u16;
        Some(RTL8139::new(io_base, rx_buf, tx_buf))
    }

    /// The value for the read-pointer register once the frames before `rx_offset` are
    /// consumed: the offset less the pad, modulo 2^16.
    pub fn capr(&self) -> (r: u16)
        requires
            self.wf(),
        ensures
            r == (self.rx_offset + 0x1_0000 - RX_BUFFER_PAD) % 0x1_0000,
    {
        (self.rx_offset as u16).wrapping_sub(RX_BUFFER_PAD as u16)
    }

    /// What the interrupt status `status` asks for: nothing when it is zero; otherwise to
    /// acknowledge it and handle each cause that it flags.
    pub fn handle_interrupt(status: u16) -> (r: InterruptAction)
        ensures
            status == 0 ==> r == InterruptAction::Done,
            status != 0 ==> r == (InterruptAction::Acknowledge {
                status,
                receive: status & INTERRUPT_ROK != 0,
                transmitted: status & INTERRUPT_TOK != 0,
                receive_error: status & INTERRUPT_RER != 0,
            }),
    {
        if status == 0 {
            return InterruptAction::Done;
        }
        InterruptAction::Acknowledge {
            status,
            receive: status & INTERRUPT_ROK != 0,
            transmitted: status & INTERRUPT_TOK != 0,
            receive_error: status & INTERRUPT_RER != 0,
        }
    }
}

/// The status word of the frame at `offset` of the receive ring `buf`.
pub open spec fn rx_status(buf: Seq<u8>, offset: int) -> u16 {
    le16_at(buf, offset) as u16
}

/// The length word of the frame at `offset`: its data and checksum, without the header.
pub open spec fn rx_length(buf: Seq<u8>, offset: int) -> int {
    le16_at(buf, offset + 2)
}

/// Whether the frame at `offset` of the receive ring can be taken: its status reports it
/// received intact, and its length covers its header and lies inside the ring.
pub open spec fn rx_frame_sound(buf: Seq<u8>, offset: int) -> bool {
    &&& rx_status(buf, offset) & RECEIVE_STATUS_ROK != 0
    &&& 4 <= rx_length(buf, offset)
    &&& offset + rx_length(buf, offset) <= RX_BUFFER_TOTAL
}

/// Where the frame after one of length `len` at `offset` starts: past its 4-byte header and
/// its length, rounded up to a dword, and wrapped around the ring.
pub open spec fn next_rx_offset(offset: int, len: int) -> int {
    ((offset + len + 4 + 3) / 4 * 4) % (RX_BUFFER_LEN as int)
}

/// The bytes of the transmit buffer `old` after `packet` is copied into it at `offset`.
pub open spec fn with_slot(old: Seq<u8>, offset: int, packet: Seq<u8>) -> Seq<u8> {
    old.subrange(0, offset) + packet + old.subrange(offset + packet.len(), old.len() as int)
}

/// Where a frame was put for sending: the transmit slot, its offset in the transmit buffer,
/// and the value for the slot's status register (the length; writing it starts the send).
#[derive(Clone, Copy, Debug, PartialEq, Eq, Structural)]
pub struct TxRequest {
    pub desc: usize,
    pub offset: usize,
    pub status: u32,
}

proof fn lemma_align4(x: int, r: int)
    requires
        0 <= x,
        r % 4 == 0,
        x <= r < x + 4,
    ensures
        r == (x + 3) / 4 * 4,
{
}

impl RTL8139 {
    /// Whether the frame at the ring position can be taken (see `rx_frame_sound`); a card
    /// that reports a frame that cannot be taken is in error.
    pub fn rx_frame_ok(&self) -> (r: bool)
        requires
            self.wf(),
        ensures
            r == rx_frame_sound(self.rx_buf.buf@, self.rx_offset as int),
    {
        let offset = self.rx_offset;
        let header = u16_le_at(self.rx_buf.buf.as_slice(), offset);
        let len = u16_le_at(self.rx_buf.buf.as_slice(), offset + 2) as usize;
        proof {
            assert(le16_at(self.rx_buf.buf@, offset as int) == header);
        }
        header & RECEIVE_STATUS_ROK != 0 && 4 <= len && offset + len <= RX_BUFFER_TOTAL
    }

    /// Takes the next frame out of the receive ring: none when the command register `cmd`
    /// reports the ring empty (bit 0), the ring then left as it is; otherwise the frame's
    /// data, and the ring position moves past it. The frame must be sound (`rx_frame_sound`).
    pub fn receive_packet(&mut self, cmd: u8) -> (r: Option<Vec<u8>>)
        requires
            old(self).wf(),
            cmd & 1 == 0 ==> rx_frame_sound(old(self).rx_buf.buf@, old(self).rx_offset as int),
        ensures
            final(self).wf(),
            final(self).rx_buf == old(self).rx_buf,
            final(self).tx_buf == old(self).tx_buf,
            final(self).tx_desc == old(self).tx_desc,
            cmd & 1 != 0 ==> {
                &&& r is None
                &&& final(self).rx_offset == old(self).rx_offset
            },
            cmd & 1 == 0 ==> {
                let offset = old(self).rx_offset as int;
                let len = rx_length(old(self).rx_buf.buf@, offset);
                &&& r matches Some(out) && out@ == old(self).rx_buf.buf@.subrange(offset + 4, offset + len)
                &&& final(self).rx_offset == next_rx_offset(offset, len)
            },
    {
        if cmd & 1 == 1 {
            return None;
        }
        assert(cmd & 1 == 0) by (bit_vector)
            requires
                cmd & 1 != 1,
        ;
        let offset = self.rx_offset;
        let pkt_length = u16_le_at(self.rx_buf.buf.as_slice(), offset + 2) as usize;
        let mut out: Vec<u8> = Vec::new();
        let mut i: usize = offset + 4;
        while i < offset + pkt_length
            invariant
                self.wf(),
                offset == self.rx_offset,
                4 <= pkt_length,
                offset + pkt_length <= RX_BUFFER_TOTAL,
                offset + 4 <= i <= offset + pkt_length,
                out@ == self.rx_buf.buf@.subrange(offset + 4, i as int),
            decreases offset + pkt_length - i,
        {
            out.push(self.rx_buf.buf[i]);
            i = i + 1;
            assert(out@ =~= self.rx_buf.buf@.subrange(offset + 4, i as int));
        }
        let end = offset + pkt_length + 4;
        assert(4usize & 3usize == 0) by (bit_vector);
        let aligned = align_up(end, 4);
        proof {
            let ghost m: usize = 3;
            assert(aligned & m == 0 ==> aligned % 4 == 0) by (bit_vector)
                requires
                    m == 3,
            ;
            lemma_align4(end as int, aligned as int);
        }
        self.rx_offset = aligned % RX_BUFFER_LEN;
        Some(out)
    }

    /// Puts `packet` into the next transmit slot, whose status register reads `tx_status`,
    /// and moves on to the slot after it.
    pub fn send_packet(&mut self, packet: &[u8], tx_status: u32) -> (r: TxRequest)
        requires
            old(self).wf(),
            packet@.len() <= TX_BUFFER_SIZE,
            tx_status & TRANSMIT_STATUS_OWN != 0,
        ensures
            final(self).wf(),
            r.desc == old(self).tx_desc,
            r.offset == r.desc * TX_BUFFER_SIZE,
            r.status == packet@.len(),
            final(self).tx_desc == (old(self).tx_desc + 1) % (TX_DESCRIPTORS as int),
            final(self).tx_buf.buf@ == with_slot(old(self).tx_buf.buf@, r.offset as int, packet@),
            final(self).rx_buf == old(self).rx_buf,
            final(self).rx_offset == old(self).rx_offset,
    {
        let len = packet.len();
        let desc = self.tx_desc;
        self.tx_desc = (self.tx_desc + 1) % TX_DESCRIPTORS;
        let offset = desc * TX_BUFFER_SIZE;
        let mut i: usize = 0;
        while i < len
            invariant
                self.wf(),
                len == packet@.len(),
                len <= TX_BUFFER_SIZE,
                desc < TX_DESCRIPTORS,
                offset == desc * TX_BUFFER_SIZE,
                i <= len,
                self.tx_desc == (old(self).tx_desc + 1) % (TX_DESCRIPTORS as int),
                old(self).tx_buf.buf@.len() == TX_BUFFER_SIZE * TX_DESCRIPTORS,
                self.rx_buf == old(self).rx_buf,
                self.rx_offset == old(self).rx_offset,
                self.tx_buf.buf@ == with_slot(old(self).tx_buf.buf@, offset as int, packet@.subrange(0, i as int)),
            decreases len - i,
        {
            self.tx_buf.buf.set(offset + i, packet[i]);
            i = i + 1;
            assert(self.tx_buf.buf@ =~= with_slot(old(self).tx_buf.buf@, offset as int, packet@.subrange(0, i as int)));
        }
        assert(packet@.subrange(0, len as int) =~= packet@);
        let status = (len as u32) & 0x1FFF;
        assert(status == len as u32) by (bit_vector)
            requires
                len as u32 <= 2048,
                status == (len as u32) & 0x1FFF,
        ;
        TxRequest { desc, offset, status }
    }
}

/// The ARP request that asks who holds 10.0.2.2 (the gateway of the emulator's user network),
/// from the card with address `mac` at 10.0.2.15, sent to every host.
pub open spec fn arp_probe(mac: Seq<u8>) -> Seq<u8> {
    seq![0xffu8, 0xffu8, 0xffu8, 0xffu8, 0xffu8, 0xffu8] + mac + seq![
        0x08u8,
        0x06u8,
        0x00u8,
        0x01u8,
        0x08u8,
        0x00u8,
        6u8,
        4u8,
        0x00u8,
        0x01u8,
    ] + mac + seq![10u8, 0u8, 2u8, 15u8, 0u8, 0u8, 0u8, 0u8, 0u8, 0u8, 10u8, 0u8, 2u8, 2u8]
}

/// The probe that `send_arp` sends is the frame, to the broadcast address, of the ARP request
/// from `mac` at 10.0.2.15 that asks who holds 10.0.2.2.
pub proof fn lemma_arp_probe_is_request(mac: [u8; 6])
    ensures
        arp_probe(mac@) == frame_bytes(
            MacAddress([0xffu8, 0xffu8, 0xffu8, 0xffu8, 0xffu8, 0xffu8]),
            MacAddress(mac),
            EtherType::Arp,
            arp_bytes(
                ArpPacket {
                    hardware_type: 1,
                    protocol_type: EtherType::IPv4,
                    hardware_length: 6,
                    protocol_length: 4,
                    operation: 1,
                    sender_hardware_address: MacAddress(mac),
                    sender_protocol_address: Ipv4Addr(0x0a00_020f),
                    target_hardware_address: MacAddress([0u8, 0u8, 0u8, 0u8, 0u8, 0u8]),
                    target_protocol_address: Ipv4Addr(0x0a00_0202),
                },
            ),
        ),
{
    let bcast = MacAddress([0xffu8, 0xffu8, 0xffu8, 0xffu8, 0xffu8, 0xffu8]);
    let zero = MacAddress([0u8, 0u8, 0u8, 0u8, 0u8, 0u8]);
    assert(bcast.0@ =~= seq![0xffu8, 0xffu8, 0xffu8, 0xffu8, 0xffu8, 0xffu8]);
    assert(zero.0@ =~= seq![0u8, 0u8, 0u8, 0u8, 0u8, 0u8]);
    assert(crate::bytes::spec_u32_be(0x0a00_020f) =~= seq![10u8, 0u8, 2u8, 15u8]);
    assert(crate::bytes::spec_u32_be(0x0a00_0202) =~= seq![10u8, 0u8, 2u8, 2u8]);
    assert(crate::bytes::spec_u16_be(0x0806) =~= seq![0x08u8, 0x06u8]);
    assert(crate::bytes::spec_u16_be(0x0800) =~= seq![0x08u8, 0x00u8]);
    assert(crate::bytes::spec_u16_be(1) =~= seq![0x00u8, 0x01u8]);
    assert(arp_probe(mac@) =~= frame_bytes(
        bcast,
        MacAddress(mac),
        EtherType::Arp,
        arp_bytes(
            ArpPacket {
                hardware_type: 1,
                protocol_type: EtherType::IPv4,
                hardware_length: 6,
                protocol_length: 4,
                operation: 1,
                sender_hardware_address: MacAddress(mac),
                sender_protocol_address: Ipv4Addr(0x0a00_020f),
                target_hardware_address: zero,
                target_protocol_address: Ipv4Addr(0x0a00_0202),
            },
        ),
    ));
}

/// The uppercase hexadecimal digit of `n`.
pub open spec fn hex_upper(n: int) -> char {
    if n < 10 {
        (0x30 + n) as char
    } else {
        (0x41 + n - 10) as char
    }
}

/// The first `n` bytes of a MAC address as text: two uppercase hex digits each, the bytes
/// separated by colons.
pub open spec fn mac_text(mac: Seq<u8>, n: nat) -> Seq<char>
    decreases n,
{
    if n == 0 {
        Seq::empty()
    } else {
        let b = mac[n - 1];
        mac_text(mac, (n - 1) as nat) + seq![hex_upper((b / 16) as int), hex_upper((b % 16) as int)] + (if n
            < 6 {
            seq![':']
        } else {
            Seq::empty()
        })
    }
}

fn hex_digit_str(n: u8) -> (r: &'static str)
    requires
        n < 16,
    ensures
        r@ == seq![hex_upper(n as int)],
{
    if n == 0 {
        proof { reveal_strlit("0"); }
        "0"
    } else if n == 1 {
        proof { reveal_strlit("1"); }
        "1"
    } else if n == 2 {
        proof { reveal_strlit("2"); }
        "2"
    } else if n == 3 {
        proof { reveal_strlit("3"); }
        "3"
    } else if n == 4 {
        proof { reveal_strlit("4"); }
        "4"
    } else if n == 5 {
        proof { reveal_strlit("5"); }
        "5"
    } else if n == 6 {
        proof { reveal_strlit("6"); }
        "6"
    } else if n == 7 {
        proof { reveal_strlit("7"); }
        "7"
    } else if n == 8 {
        proof { reveal_strlit("8"); }
        "8"
    } else if n == 9 {
        proof { reveal_strlit("9"); }
        "9"
    } else if n == 10 {
        proof { reveal_strlit("A"); }
        "A"
    } else if n == 11 {
        proof { reveal_strlit("B"); }
        "B"
    } else if n == 12 {
        proof { reveal_strlit("C"); }
        "C"
    } else if n == 13 {
        proof { reveal_strlit("D"); }
        "D"
    } else if n == 14 {
        proof { reveal_strlit("E"); }
        "E"
    } else {
        proof { reveal_strlit("F"); }
        "F"
    }
}

/// A MAC address as text, such as `52:54:00:12:34:56`.
pub fn fmt_mac(mac: &[u8; 6]) -> (r: String)
    ensures
        r@ == mac_text(mac@, 6),
{
    let mut out = String::new();
    let mut i: usize = 0;
    while i < 6
        invariant
            i <= 6,
            mac@.len() == 6,
            out@ == mac_text(mac@, i as nat),
        decreases 6 - i,
    {
        let b = mac[i];
        out.append(hex_digit_str(b / 16));
        out.append(hex_digit_str(b % 16));
        if i != 5 {
            proof { reveal_strlit(":"); }
            out.append(":");
        }
        i = i + 1;
        assert(out@ =~= mac_text(mac@, i as nat));
    }
    out
}

impl RTL8139 {
    /// Sends `arp_probe(mac)`, the card's address being `mac`, through the next transmit slot,
    /// whose status register reads `tx_status`.
    pub fn send_arp(&mut self, mac: [u8; 6], tx_status: u32) -> (r: TxRequest)
        requires
            old(self).wf(),
            tx_status & TRANSMIT_STATUS_OWN != 0,
        ensures
            final(self).wf(),
            r.desc == old(self).tx_desc,
            r.offset == r.desc * TX_BUFFER_SIZE,
            r.status == 42,
            final(self).tx_desc == (old(self).tx_desc + 1) % (TX_DESCRIPTORS as int),
            final(self).tx_buf.buf@ == with_slot(old(self).tx_buf.buf@, r.offset as int, arp_probe(mac@)),
            final(self).rx_buf == old(self).rx_buf,
            final(self).rx_offset == old(self).rx_offset,
    {
        let mut packet = [0u8; 42];
        let mut i: usize = 0;
        while i < 6
            invariant
                i <= 6,
                forall|j: int| 0 <= j < i ==> packet@[j] == 0xff,
                forall|j: int| 6 <= j < 42 ==> packet@[j] == 0,
            decreases 6 - i,
        {
            packet[i] = 0xff;
            i = i + 1;
        }
        let mut i: usize = 0;
        while i < 6
            invariant
                i <= 6,
                forall|j: int| 0 <= j < 6 ==> packet@[j] == 0xff,
                mac@.len() == 6,
                forall|k: int| 6 <= k < 12 ==> packet@[k] == (if k - 6 < i { mac@[k - 6] } else { 0u8 }),
                forall|k: int| 22 <= k < 28 ==> packet@[k] == (if k - 22 < i { mac@[k - 22] } else { 0u8 }),
                forall|j: int| 12 <= j < 22 ==> packet@[j] == 0,
                forall|j: int| 28 <= j < 42 ==> packet@[j] == 0,
            decreases 6 - i,
        {
            packet[6 + i] = mac[i];
            packet[22 + i] = mac[i];
            i = i + 1;
        }
        packet[12] = 0x08;
        packet[13] = 0x06;
        packet[14] = 0x00;
        packet[15] = 0x01;
        packet[16] = 0x08;
        packet[17] = 0x00;
        packet[18] = 6;
        packet[19] = 4;
        packet[20] = 0x00;
        packet[21] = 0x01;
        packet[28] = 10;
        packet[29] = 0;
        packet[30] = 2;
        packet[31] = 15;
        packet[38] = 10;
        packet[39] = 0;
        packet[40] = 2;
        packet[41] = 2;
        assert(packet@ =~= arp_probe(mac@));
        self.send_packet(&packet, tx_status)
    }
}

/// The position, among `headers` (the devices in the order they are probed), of the first
/// that is an RTL8139.
pub fn find_rtl(headers: &[Option<PCIDeviceHeader>]) -> (r: Option<usize>)
    ensures
        r matches Some(i) ==> {
            &&& i < headers@.len()
            &&& headers@[i as int] matches Some(h) && is_rtl8139(h)
            &&& forall|j: int| 0 <= j < i ==> !(#[trigger] headers@[j] matches Some(h) && is_rtl8139(h))
        },
        r is None ==> forall|j: int| 0 <= j < headers@.len() ==> !(#[trigger] headers@[j] matches Some(h) && is_rtl8139(h)),
{
    let mut i: usize = 0;
    while i < headers.len()
        invariant
            i <= headers@.len(),
            forall|j: int| 0 <= j < i ==> !(#[trigger] headers@[j] matches Some(h) && is_rtl8139(h)),
        decreases headers@.len() - i,
    {
        match &headers[i] {
            Some(h) => {
                if h.vendor_id == VENDOR_ID && h.device_id == DEVICE_ID {
                    return Some(i);
                }
            },
            None => {},
        }
        i = i + 1;
    }
    None
}

} // verus!
