//! TCP: segment format, connection state machine, and the bookkeeping of listeners.
use vstd::prelude::*;

use crate::bytes::{be16_at, be32_at, spec_u16_be, spec_u32_be};
use crate::net::ip::{IPv4Packet, IpError};
use crate::net::socket::{spec_should_accept, spec_socket_key, Port, SocketAddrV4};
use crate::net::{internet_checksum, spec_octets, with_word, Ipv4Addr};
use crossbeam_queue::ArrayQueue;

verus! {

/// Window size that this stack advertises, in segments.
pub const TCP_WINDOW_SIZE: u16 = 10;

/// Connections that a listener holds before they are accepted.
pub const MAX_PENDING_CONNECTIONS: usize = 10;

/// Last packet from the sender.
pub const TCP_FIN: u8 = 1;

/// Synchronise sequence numbers.
pub const TCP_SYN: u8 = 2;

/// Reset the connection.
pub const TCP_RST: u8 = 4;

/// Push function.
pub const TCP_PSH: u8 = 8;

/// The acknowledgement number is significant.
pub const TCP_ACK: u8 = 16;

/// The urgent pointer is significant.
pub const TCP_URG: u8 = 32;

/// ECN echo.
pub const TCP_ECE: u8 = 64;

/// Congestion window reduced.
pub const TCP_CWR: u8 = 128;

/// The fixed part of a TCP header and its options.
#[derive(Clone, Debug)]
pub struct TcpSegmentHeader {
    pub src_port: Port,
    pub dst_port: Port,
    pub sequence_num: u32,
    pub ack_num: u32,
    /// Header length in 32-bit words (4 bits on the wire).
    pub data_offset: u8,
    /// Flag bits (`TCP_*`).
    pub flags: u8,
    pub window_size: u16,
    pub checksum: u16,
    pub urgent_pointer: u16,
    /// Present when `data_offset` is greater than 5.
    pub options: Vec<u8>,
}

/// A TCP segment: header and payload.
#[derive(Clone, Debug)]
pub struct TcpSegment {
    pub header: TcpSegmentHeader,
    pub data: Vec<u8>,
}

/// Ways in which a TCP operation fails.
#[derive(Debug, PartialEq, Eq, Structural)]
pub enum TcpError {
    NoInterfaceAvailable,
    ConnectionAlreadyEstablished,
    ConnectionDoesntExist,
    TcpSegmentBufferFull,
    HigherLevelPacketWasTooShort,
    PortAlreadyInUse,
    IpError(IpError),
}

/// The states of a TCP connection.
#[derive(Clone, Copy, Debug, PartialEq, Eq, Structural)]
pub enum TcpConnectionState {
    Closed,
    Listen,
    SynSent,
    SynReceived,
    Established,
    FinWait1,
    FinWait2,
    CloseWait,
    TimeWait,
    LastAck,
    Closing,
}

/// Whether we opened the connection or a remote host did.
#[derive(Clone, Copy, Debug, PartialEq, Eq, Structural)]
pub enum OpenStatus {
    /// Listening.
    PassiveOpen,
    /// We made the connection.
    ActiveOpen,
}

/// Bytes of options that a header of `data_offset` words carries.
pub open spec fn spec_options_length(data_offset: u8) -> int {
    if data_offset < 5 {
        0
    } else {
        (data_offset - 5) * 4
    }
}

/// The 20 fixed header bytes on the wire (options are not written).
pub open spec fn tcp_header_bytes(h: TcpSegmentHeader) -> Seq<u8> {
    spec_u16_be(h.src_port) + spec_u16_be(h.dst_port) + spec_u32_be(h.sequence_num) + spec_u32_be(
        h.ack_num,
    ) + seq![((h.data_offset % 16) * 16) as u8, h.flags] + spec_u16_be(h.window_size) + spec_u16_be(
        h.checksum,
    ) + spec_u16_be(h.urgent_pointer)
}

/// The bytes of a segment on the wire.
pub open spec fn tcp_segment_bytes(s: TcpSegment) -> Seq<u8> {
    tcp_header_bytes(s.header) + s.data@
}

/// Whether `v` is too short for the header it announces.
pub open spec fn tcp_too_short(v: Seq<u8>) -> bool {
    v.len() < 20 || v.len() < 20 + spec_options_length(v[12] / 16)
}

/// Whether `h` is the header that the bytes `v` start with.
pub open spec fn tcp_header_matches(h: TcpSegmentHeader, v: Seq<u8>) -> bool {
    &&& !tcp_too_short(v)
    &&& h.src_port == be16_at(v, 0)
    &&& h.dst_port == be16_at(v, 2)
    &&& h.sequence_num == be32_at(v, 4)
    &&& h.ack_num == be32_at(v, 8)
    &&& h.data_offset == v[12] / 16
    &&& h.flags == v[13]
    &&& h.window_size == be16_at(v, 14)
    &&& h.checksum == be16_at(v, 16)
    &&& h.urgent_pointer == be16_at(v, 18)
    &&& h.options@ == v.subrange(20, 20 + spec_options_length(v[12] / 16))
}

/// Whether `s` is the segment that the bytes `v` hold.
pub open spec fn tcp_segment_matches(s: TcpSegment, v: Seq<u8>) -> bool {
    &&& tcp_header_matches(s.header, v)
    &&& s.data@ == v.skip(20 + spec_options_length(v[12] / 16))
}

/// Whether the options of `h` are as long as its data offset says.
pub open spec fn tcp_header_consistent(h: TcpSegmentHeader) -> bool {
    h.options@.len() == spec_options_length(h.data_offset)
}

impl TcpSegmentHeader {
    /// Length of the header with its options.
    pub fn byte_count(&self) -> (r: usize)
        requires
            tcp_header_consistent(*self),
        ensures
            r == 20 + self.options@.len(),
    {
        20 + self.options.len()
    }

    /// Bytes of options that a header of `data_offset` words carries.
    pub fn options_length(data_offset: u8) -> (r: usize)
        ensures
            r == spec_options_length(data_offset),
    {
        if data_offset < 5 {
            0
        } else {
            (data_offset as usize - 5) * 4
        }
    }

    /// The 20 fixed header bytes on the wire.
    pub fn to_bytes(&self) -> (r: [u8; 20])
        ensures
            r@ == tcp_header_bytes(*self),
    {
        let s = crate::bytes::u16_to_be(self.src_port);
        let d = crate::bytes::u16_to_be(self.dst_port);
        let q = crate::bytes::u32_to_be(self.sequence_num);
        let a = crate::bytes::u32_to_be(self.ack_num);
        let w = crate::bytes::u16_to_be(self.window_size);
        let c = crate::bytes::u16_to_be(self.checksum);
        let u = crate::bytes::u16_to_be(self.urgent_pointer);
        let r = [
            s[0],
            s[1],
            d[0],
            d[1],
            q[0],
            q[1],
            q[2],
            q[3],
            a[0],
            a[1],
            a[2],
            a[3],
            (self.data_offset % 16) * 16,
            self.flags,
            w[0],
            w[1],
            c[0],
            c[1],
            u[0],
            u[1],
        ];
        assert(r@ =~= tcp_header_bytes(*self));
        r
    }

    /// Reads a header and its options from the front of `bytes`.
    pub fn from_bytes(bytes: &[u8]) -> (r: Result<TcpSegmentHeader, TcpError>)
        ensures
            r is Err <==> tcp_too_short(bytes@),
            r matches Err(e) ==> e == TcpError::HigherLevelPacketWasTooShort,
            r matches Ok(h) ==> tcp_header_matches(h, bytes@) && tcp_header_consistent(h),
    {
        if bytes.len() < 20 {
            return Err(TcpError::HigherLevelPacketWasTooShort);
        }
        let data_offset = bytes[12] / 16;
        let optlen = Self::options_length(data_offset);
        if bytes.len() < 20 + optlen {
            return Err(TcpError::HigherLevelPacketWasTooShort);
        }
        let mut options: Vec<u8> = Vec::new();
        options.extend_from_slice(vstd::slice::slice_subrange(bytes, 20, 20 + optlen));
        assert(options@ =~= bytes@.subrange(20, 20 + optlen));
        Ok(TcpSegmentHeader {
            src_port: crate::bytes::u16_from_be(bytes[0], bytes[1]),
            dst_port: crate::bytes::u16_from_be(bytes[2], bytes[3]),
            sequence_num: crate::bytes::u32_from_be(bytes[4], bytes[5], bytes[6], bytes[7]),
            ack_num: crate::bytes::u32_from_be(bytes[8], bytes[9], bytes[10], bytes[11]),
            data_offset,
            flags: bytes[13],
            window_size: crate::bytes::u16_from_be(bytes[14], bytes[15]),
            checksum: crate::bytes::u16_from_be(bytes[16], bytes[17]),
            urgent_pointer: crate::bytes::u16_from_be(bytes[18], bytes[19]),
            options,
        })
    }
}

impl TcpSegment {
    /// The segment as bytes: the 20 fixed header bytes and the payload.
    pub fn to_bytes(&self) -> (r: Vec<u8>)
        requires
            tcp_header_consistent(self.header),
            self.header.options@.len() + self.data@.len() + 20 <= usize::MAX,
        ensures
            r@ == tcp_segment_bytes(*self),
    {
        let mut out: Vec<u8> = Vec::with_capacity(self.header.byte_count() + self.data.len());
        let h = self.header.to_bytes();
        out.extend_from_slice(h.as_slice());
        out.extend_from_slice(self.data.as_slice());
        assert(out@ =~= tcp_segment_bytes(*self));
        out
    }

    /// Reads a segment: the header with its options, and the payload after them.
    pub fn from_bytes(bytes: &[u8]) -> (r: Result<TcpSegment, TcpError>)
        ensures
            r is Err <==> tcp_too_short(bytes@),
            r matches Err(e) ==> e == TcpError::HigherLevelPacketWasTooShort,
            r matches Ok(s) ==> tcp_segment_matches(s, bytes@) && tcp_header_consistent(s.header),
    {
        let header = match TcpSegmentHeader::from_bytes(bytes) {
            Ok(h) => h,
            Err(e) => {
                return Err(e);
            },
        };
        let count = header.byte_count();
        let mut dv: Vec<u8> = Vec::new();
        dv.extend_from_slice(vstd::slice::slice_subrange(bytes, count, bytes.len()));
        assert(dv@ =~= bytes@.skip(20 + spec_options_length(bytes@[12] / 16)));
        Ok(TcpSegment { header, data: dv })
    }
}

/// Law: a segment without options, written to bytes, is read back unchanged.  (With options
/// it is not: `to_bytes` does not write them, so a data offset above 5 — 6, say — makes the
/// reader take the first payload bytes for options.)
pub proof fn lemma_tcp_roundtrip(s: TcpSegment)
    requires
        s.header.data_offset <= 5,
        tcp_header_consistent(s.header),
    ensures
        !tcp_too_short(tcp_segment_bytes(s)),
        ({
            let v = tcp_segment_bytes(s);
            &&& s.header.src_port == be16_at(v, 0)
            &&& s.header.dst_port == be16_at(v, 2)
            &&& s.header.sequence_num == be32_at(v, 4)
            &&& s.header.ack_num == be32_at(v, 8)
            &&& s.header.data_offset == v[12] / 16
            &&& s.header.flags == v[13]
            &&& s.header.window_size == be16_at(v, 14)
            &&& s.header.checksum == be16_at(v, 16)
            &&& s.header.urgent_pointer == be16_at(v, 18)
            &&& s.header.options@ == v.subrange(20, 20 + spec_options_length(v[12] / 16))
            &&& s.data@ == v.skip(20 + spec_options_length(v[12] / 16))
        }),
{
    let h = s.header;
    let v = tcp_segment_bytes(s);
    crate::bytes::lemma_u16_be_roundtrip(h.src_port);
    crate::bytes::lemma_u16_be_roundtrip(h.dst_port);
    crate::bytes::lemma_u32_be_roundtrip(h.sequence_num);
    crate::bytes::lemma_u32_be_roundtrip(h.ack_num);
    crate::bytes::lemma_u16_be_roundtrip(h.window_size);
    crate::bytes::lemma_u16_be_roundtrip(h.checksum);
    crate::bytes::lemma_u16_be_roundtrip(h.urgent_pointer);
    assert(v[12] / 16 == h.data_offset);
    assert(spec_options_length(v[12] / 16) == 0);
    assert(h.options@ =~= v.subrange(20, 20));
    assert(s.data@ =~= v.skip(20));
}

/// One TCP connection between a local and a remote socket address.
#[derive(Debug)]
pub struct TcpConnection {
    pub local_addr: SocketAddrV4,
    pub remote_addr: SocketAddrV4,
    pub open_status: OpenStatus,
    pub state: TcpConnectionState,
    pub current_squence_num: u32,
    /// Most recent byte that we acknowledged.
    pub current_ack_num: u32,
    pub last_read_byte: u32,
    /// Segments received and not read yet; a free slot is `None`.
    pub segment_buffer: Vec<Option<TcpSegment>>,
    /// Set when a segment arrives; whoever waits for data is to be woken.
    pub new_segment_notified: bool,
}

/// The receive buffer of a connection holds `TCP_WINDOW_SIZE` slots.
pub open spec fn tcp_connection_wf(c: TcpConnection) -> bool {
    c.segment_buffer@.len() == TCP_WINDOW_SIZE
}

/// The states and openings in which `update` knows what to do.
pub open spec fn update_handled(state: TcpConnectionState, open_status: OpenStatus) -> bool {
    match state {
        TcpConnectionState::Established => true,
        TcpConnectionState::Listen => true,
        TcpConnectionState::Closed => open_status == OpenStatus::ActiveOpen,
        TcpConnectionState::SynSent => open_status == OpenStatus::PassiveOpen,
        TcpConnectionState::SynReceived => open_status == OpenStatus::PassiveOpen,
        _ => false,
    }
}

/// Whether `s` is the bare segment of connection `c` with flags `flags`: its ports, its
/// sequence and acknowledgement numbers, a 5-word header, our window, and no payload.
pub open spec fn is_base_segment(s: TcpSegment, c: TcpConnection, flags: u8) -> bool {
    &&& s.header.src_port == c.local_addr.port
    &&& s.header.dst_port == c.remote_addr.port
    &&& s.header.sequence_num == c.current_squence_num
    &&& s.header.ack_num == c.current_ack_num
    &&& s.header.data_offset == 5
    &&& s.header.flags == flags
    &&& s.header.window_size == TCP_WINDOW_SIZE * 1400
    &&& s.header.checksum == 0
    &&& s.header.urgent_pointer == 0
    &&& s.header.options@.len() == 0
    &&& s.data@.len() == 0
}

/// The bytes of a bare segment from port `src` to port `dst` with sequence number `seq`,
/// acknowledgement number `ack` and flags `flags`: a 5-word header, our window, checksum and
/// urgent pointer zero, no payload.
pub open spec fn base_segment_bytes(src: Port, dst: Port, seq: u32, ack: u32, flags: u8) -> Seq<u8> {
    spec_u16_be(src) + spec_u16_be(dst) + spec_u32_be(seq) + spec_u32_be(ack) + seq![80u8, flags]
        + spec_u16_be(crate::bytes::word16(TCP_WINDOW_SIZE * 1400)) + spec_u16_be(0) + spec_u16_be(0)
}

proof fn lemma_base_segment_bytes(s: TcpSegment, c: TcpConnection, flags: u8)
    requires
        is_base_segment(s, c, flags),
    ensures
        tcp_segment_bytes(s) == base_segment_bytes(
            c.local_addr.port,
            c.remote_addr.port,
            c.current_squence_num,
            c.current_ack_num,
            flags,
        ),
{
    assert(tcp_segment_bytes(s) =~= base_segment_bytes(
        c.local_addr.port,
        c.remote_addr.port,
        c.current_squence_num,
        c.current_ack_num,
        flags,
    ));
}

/// Whether the segment in `b` (if any) continues the stream that `read` reads: it starts
/// where the read data ends, or it straddles the start of the read data.
pub open spec fn segment_extends(b: Option<TcpSegment>, read_byte: u32) -> bool {
    b matches Some(s) && (s.header.sequence_num == read_byte || (s.header.sequence_num
        < read_byte && s.header.sequence_num + s.data@.len() > read_byte))
}

/// Whether `new_buf` is the receive buffer `old_buf` after taking in the segment that the
/// bytes `v` hold: a SYN is not kept; any other segment goes into the first free slot, and
/// the buffer stays as it was when no slot is free.
pub open spec fn buffer_after_receive(old_buf: Seq<Option<TcpSegment>>, new_buf: Seq<Option<TcpSegment>>, v: Seq<u8>) -> bool {
    if v[13] == TCP_SYN {
        new_buf == old_buf
    } else if exists|j: int| 0 <= j < old_buf.len() && #[trigger] old_buf[j] is None {
        exists|j: int|
            #![trigger old_buf[j]]
            {
                &&& 0 <= j < old_buf.len()
                &&& old_buf[j] is None
                &&& forall|k: int| 0 <= k < j ==> #[trigger] old_buf[k] is Some
                &&& new_buf == old_buf.update(j, new_buf[j])
                &&& new_buf[j] matches Some(s) && tcp_segment_matches(s, v)
            }
    } else {
        new_buf == old_buf
    }
}

/// Whether `c2` is the connection `c` after taking in the segment that the bytes `v` hold:
/// addresses, opening and sequence number kept; a SYN moves it to SynSent and acknowledges
/// the sender's sequence number; an ACK establishes it; its buffer as `buffer_after_receive`
/// says.
pub open spec fn received_by(c: TcpConnection, c2: TcpConnection, v: Seq<u8>) -> bool {
    &&& c2.local_addr == c.local_addr
    &&& c2.remote_addr == c.remote_addr
    &&& c2.open_status == c.open_status
    &&& c2.current_squence_num == c.current_squence_num
    &&& c2.new_segment_notified
    &&& c2.state == (if v[13] == TCP_SYN {
        TcpConnectionState::SynSent
    } else if v[13] == TCP_ACK {
        TcpConnectionState::Established
    } else {
        c.state
    })
    &&& c2.current_ack_num == (if v[13] == TCP_SYN {
        crate::bytes::word32(be32_at(v, 4) + 1)
    } else {
        c.current_ack_num
    })
    &&& c2.last_read_byte == (if v[13] == TCP_SYN {
        crate::bytes::word32(be32_at(v, 4) + 1)
    } else {
        c.last_read_byte
    })
    &&& buffer_after_receive(c.segment_buffer@, c2.segment_buffer@, v)
}

impl TcpConnection {
    /// A connection between `local_addr` and `remote_addr`: one that we listen for starts in
    /// Listen, one that we open starts Closed; numbers start at 0 and the buffer is empty.
    pub fn new(remote_addr: SocketAddrV4, local_addr: SocketAddrV4, open_status: OpenStatus) -> (r:
        TcpConnection)
        ensures
            tcp_connection_wf(r),
            r.local_addr == local_addr,
            r.remote_addr == remote_addr,
            r.open_status == open_status,
            r.state == (if open_status == OpenStatus::PassiveOpen {
                TcpConnectionState::Listen
            } else {
                TcpConnectionState::Closed
            }),
            r.current_ack_num == 0,
            r.current_squence_num == 0,
            r.last_read_byte == 0,
            !r.new_segment_notified,
            forall|i: int| 0 <= i < TCP_WINDOW_SIZE ==> r.segment_buffer@[i] is None,
    {
        let random_seq_num: u32 = 0;
        let mut segment_buffer: Vec<Option<TcpSegment>> = Vec::new();
        let mut i: usize = 0;
        while i < 10
            invariant
                i <= 10,
                segment_buffer@.len() == i,
                forall|j: int| 0 <= j < i ==> segment_buffer@[j] is None,
            decreases 10 - i,
        {
            segment_buffer.push(None);
            i = i + 1;
        }
        TcpConnection {
            local_addr,
            remote_addr,
            open_status,
            state: match open_status {
                OpenStatus::PassiveOpen => TcpConnectionState::Listen,
                OpenStatus::ActiveOpen => TcpConnectionState::Closed,
            },
            current_ack_num: 0,
            current_squence_num: random_seq_num,
            last_read_byte: random_seq_num,
            segment_buffer,
            new_segment_notified: false,
        }
    }

    /// Takes in a segment that arrived in `ip_packet`.  A SYN moves the connection to SynSent
    /// and acknowledges the sender's sequence number; an ACK establishes the connection; any
    /// segment but a SYN is kept in the first free slot of the buffer.
    pub fn recieve_segment(&mut self, ip_packet: &IPv4Packet) -> (r: Result<(), TcpError>)
        requires
            tcp_connection_wf(*old(self)),
            !tcp_too_short(ip_packet.data@) && ip_packet.data@[13] == TCP_SYN ==> be32_at(
                ip_packet.data@,
                4,
            ) < 0xffff_ffff,
        ensures
            tcp_connection_wf(*final(self)),
            final(self).local_addr == old(self).local_addr,
            final(self).remote_addr == old(self).remote_addr,
            final(self).open_status == old(self).open_status,
            final(self).current_squence_num == old(self).current_squence_num,
            tcp_too_short(ip_packet.data@) ==> r == Err::<(), TcpError>(
                TcpError::HigherLevelPacketWasTooShort,
            ) && *final(self) == *old(self),
            !tcp_too_short(ip_packet.data@) ==> final(self).new_segment_notified,
            !tcp_too_short(ip_packet.data@) ==> received_by(*old(self), *final(self), ip_packet.data@),
            !tcp_too_short(ip_packet.data@) && ip_packet.data@[13] == TCP_SYN ==> {
                &&& r is Ok
                &&& final(self).state == TcpConnectionState::SynSent
                &&& final(self).current_ack_num == be32_at(ip_packet.data@, 4) + 1
                &&& final(self).last_read_byte == final(self).current_ack_num
                &&& final(self).segment_buffer@ == old(self).segment_buffer@
            },
            !tcp_too_short(ip_packet.data@) && ip_packet.data@[13] != TCP_SYN ==> {
                &&& final(self).state == (if ip_packet.data@[13] == TCP_ACK {
                    TcpConnectionState::Established
                } else {
                    old(self).state
                })
                &&& final(self).current_ack_num == old(self).current_ack_num
                &&& final(self).last_read_byte == old(self).last_read_byte
                &&& (r is Ok <==> exists|j: int|
                    0 <= j < old(self).segment_buffer@.len() && #[trigger] old(
                        self,
                    ).segment_buffer@[j] is None)
                &&& r matches Err(e) ==> e == TcpError::TcpSegmentBufferFull
                    && final(self).segment_buffer@ == old(self).segment_buffer@
                &&& r is Ok ==> exists|j: int|
                    #![trigger old(self).segment_buffer@[j]]
                    {
                        &&& 0 <= j < old(self).segment_buffer@.len()
                        &&& old(self).segment_buffer@[j] is None
                        &&& forall|k: int|
                            0 <= k < j ==> #[trigger] old(self).segment_buffer@[k] is Some
                        &&& final(self).segment_buffer@ == old(self).segment_buffer@.update(
                            j,
                            final(self).segment_buffer@[j],
                        )
                        &&& final(self).segment_buffer@[j] matches Some(s) && tcp_segment_matches(
                            s,
                            ip_packet.data@,
                        )
                    }
            },
    {
        let segment = match TcpSegment::from_bytes(ip_packet.data) {
            Ok(s) => s,
            Err(e) => {
                return Err(e);
            },
        };
        self.new_segment_notified = true;
        if segment.header.flags == TCP_SYN {
            self.state = TcpConnectionState::SynSent;
            self.current_ack_num = segment.header.sequence_num + 1;
            self.last_read_byte = self.current_ack_num;
            return Ok(());
        }
        if segment.header.flags == TCP_ACK {
            self.state = TcpConnectionState::Established;
        }
        let n = self.segment_buffer.len();
        let mut i: usize = 0;
        while i < n && self.segment_buffer[i].is_some()
            invariant
                n == self.segment_buffer@.len(),
                i <= n,
                forall|k: int| 0 <= k < i ==> #[trigger] self.segment_buffer@[k] is Some,
            decreases n - i,
        {
            i = i + 1;
        }
        if i < n {
            self.segment_buffer.set(i, Some(segment));
            return Ok(());
        }
        Err(TcpError::TcpSegmentBufferFull)
    }

    /// Takes one step of the handshake and returns the segment to send, if any: an active
    /// opener that is Closed sends SYN and goes to SynSent; a passive opener answers a SYN
    /// with SYN+ACK, and in SynReceived sends ACK; Listen and Established send nothing.
    pub fn update(&mut self) -> (r: Option<TcpSegment>)
        requires
            update_handled(old(self).state, old(self).open_status),
        ensures
            final(self).local_addr == old(self).local_addr,
            final(self).remote_addr == old(self).remote_addr,
            final(self).open_status == old(self).open_status,
            final(self).current_squence_num == old(self).current_squence_num,
            final(self).current_ack_num == old(self).current_ack_num,
            final(self).last_read_byte == old(self).last_read_byte,
            final(self).segment_buffer@ == old(self).segment_buffer@,
            final(self).new_segment_notified == old(self).new_segment_notified,
            final(self).state == (if old(self).state == TcpConnectionState::Closed {
                TcpConnectionState::SynSent
            } else {
                old(self).state
            }),
            old(self).state == TcpConnectionState::Established ==> r is None,
            old(self).state == TcpConnectionState::Listen ==> r is None,
            old(self).state == TcpConnectionState::Closed ==> (r matches Some(s) && is_base_segment(
                s,
                *old(self),
                TCP_SYN,
            )),
            old(self).state == TcpConnectionState::SynSent ==> (r matches Some(s) && is_base_segment(
                s,
                *old(self),
                TCP_ACK | TCP_SYN,
            )),
            old(self).state == TcpConnectionState::SynReceived ==> (r matches Some(s)
                && is_base_segment(s, *old(self), TCP_ACK)),
    {
        match self.state {
            TcpConnectionState::Established => None,
            TcpConnectionState::Closed => {
                let mut segment = self.create_base_segment();
                segment.header.flags = TCP_SYN;
                self.state = TcpConnectionState::SynSent;
                Some(segment)
            },
            TcpConnectionState::SynSent => {
                let mut segment = self.create_base_segment();
                segment.header.flags = TCP_ACK | TCP_SYN;
                Some(segment)
            },
            TcpConnectionState::SynReceived => {
                let mut segment = self.create_base_segment();
                segment.header.flags = TCP_ACK;
                Some(segment)
            },
            _ => None,
        }
    }

    /// Reads received data into `buf`.  The connection only reads when no buffered segment
    /// continues the stream from `last_read_byte`, and then reads nothing.
    pub fn read(&mut self, buf: &mut [u8]) -> (r: usize)
        requires
            forall|i: int|
                0 <= i < old(self).segment_buffer@.len() ==> (#[trigger] old(
                    self,
                ).segment_buffer@[i] matches Some(s) ==> s.header.sequence_num + s.data@.len()
                    <= 0xffff_ffff),
            forall|i: int|
                0 <= i < old(self).segment_buffer@.len() ==> !segment_extends(
                    #[trigger] old(self).segment_buffer@[i],
                    old(self).last_read_byte,
                ),
        ensures
            r == 0,
            *final(self) == *old(self),
            final(buf)@ == old(buf)@,
    {
        let start = self.last_read_byte;
        let mut end = self.last_read_byte;
        let n = self.segment_buffer.len();
        let mut i: usize = 0;
        while i < n
            invariant
                n == self.segment_buffer@.len(),
                i <= n,
                start == self.last_read_byte,
                end == start,
                forall|k: int|
                    0 <= k < self.segment_buffer@.len() ==> (#[trigger] self.segment_buffer@[k] matches Some(s)
                        ==> s.header.sequence_num + s.data@.len() <= 0xffff_ffff),
                forall|k: int|
                    0 <= k < self.segment_buffer@.len() ==> !segment_extends(
                        #[trigger] self.segment_buffer@[k],
                        self.last_read_byte,
                    ),
            decreases n - i,
        {
            if let Some(segment) = &self.segment_buffer[i] {
                let start_byte = segment.header.sequence_num;
                let end_byte = start_byte + crate::bytes::usize_to_u32(segment.data.len());
                if end == start_byte || (start_byte < start && end_byte > start) {
                    end = end_byte;
                }
            }
            i = i + 1;
        }
        0
    }

    /// The bare segment of this connection: its ports and numbers, a 5-word header, our
    /// window, no flags and no payload.
    pub fn create_base_segment(&self) -> (r: TcpSegment)
        ensures
            is_base_segment(r, *self, 0),
    {
        let header = TcpSegmentHeader {
            src_port: self.local_addr.port(),
            dst_port: self.remote_addr.port(),
            sequence_num: self.current_squence_num,
            ack_num: self.current_ack_num,
            data_offset: 5,
            flags: 0,
            window_size: TCP_WINDOW_SIZE * 1400,
            checksum: 0,
            urgent_pointer: 0,
            options: Vec::new(),
        };
        TcpSegment { header, data: Vec::new() }
    }
}

/// The pseudo-header that the TCP checksum covers: both addresses, the protocol number and
/// the segment length.
pub open spec fn tcp_pseudo_header(local: SocketAddrV4, remote: SocketAddrV4, len: u16) -> Seq<u8> {
    spec_octets(local.ip) + spec_octets(remote.ip) + seq![0u8, 6u8] + spec_u16_be(len)
}

/// The checksum that a segment sent from `local` to `remote` carries.
pub open spec fn tcp_checksum(local: SocketAddrV4, remote: SocketAddrV4, seg: Seq<u8>) -> u16 {
    internet_checksum(tcp_pseudo_header(local, remote, seg.len() as u16) + seg)
}

/// The bytes of `segment` as it is sent from `local_addr` to `remote_addr`: its checksum is
/// computed over the pseudo-header and the segment, and written into the checksum field.
pub fn checksummed_segment_bytes(local_addr: SocketAddrV4, remote_addr: SocketAddrV4, segment: &TcpSegment) -> (r: Vec<u8>)
    requires
        tcp_header_consistent(segment.header),
        20 + segment.data@.len() <= 0xffff,
    ensures
        r@ == tcp_segment_bytes(*segment).update(16, (tcp_checksum(local_addr, remote_addr, tcp_segment_bytes(*segment)) / 256) as u8).update(
            17,
            (tcp_checksum(local_addr, remote_addr, tcp_segment_bytes(*segment)) % 256) as u8,
        ),
{
    let mut segment_bytes = segment.to_bytes();
    let l = local_addr.ip.octets();
    let rm = remote_addr.ip.octets();
    let len = crate::bytes::u16_to_be(crate::bytes::usize_to_u16(segment_bytes.len()));
    let mut full: Vec<u8> = Vec::with_capacity(segment_bytes.len() + 12);
    full.push(l[0]);
    full.push(l[1]);
    full.push(l[2]);
    full.push(l[3]);
    full.push(rm[0]);
    full.push(rm[1]);
    full.push(rm[2]);
    full.push(rm[3]);
    full.push(0);
    full.push(6);
    full.push(len[0]);
    full.push(len[1]);
    full.extend_from_slice(segment_bytes.as_slice());
    assert(full@ =~= tcp_pseudo_header(local_addr, remote_addr, segment_bytes@.len() as u16) + segment_bytes@);
    let checksum = crate::net::ones_complement_checksum(full.as_slice());
    let c = crate::bytes::u16_to_be(checksum);
    segment_bytes.set(16, c[0]);
    segment_bytes.set(17, c[1]);
    segment_bytes
}

/// The bytes of `seg` as it is sent from `local` to `remote`: with the checksum over the
/// pseudo-header and `seg` written into the checksum field.
pub open spec fn with_tcp_checksum(local: SocketAddrV4, remote: SocketAddrV4, seg: Seq<u8>) -> Seq<u8> {
    seg.update(16, (tcp_checksum(local, remote, seg) / 256) as u8).update(17, (tcp_checksum(local, remote, seg) % 256) as u8)
}

/// Law: a segment whose checksum field was zero verifies once sent: the checksum over the
/// pseudo-header and the bytes that `checksummed_segment_bytes` produces is zero.
pub proof fn lemma_tcp_checksum_verifies(local: SocketAddrV4, remote: SocketAddrV4, seg: Seq<u8>)
    requires
        20 <= seg.len() <= 0xffff,
        seg[16] == 0,
        seg[17] == 0,
    ensures
        ({
            let c = tcp_checksum(local, remote, seg);
            let sent = seg.update(16, (c / 256) as u8).update(17, (c % 256) as u8);
            internet_checksum(tcp_pseudo_header(local, remote, sent.len() as u16) + sent) == 0
        }),
{
    let c = tcp_checksum(local, remote, seg);
    let sent = seg.update(16, (c / 256) as u8).update(17, (c % 256) as u8);
    let ph = tcp_pseudo_header(local, remote, seg.len() as u16);
    let full = ph + seg;
    assert(ph.len() == 12);
    assert(ph + sent =~= with_word(full, 14, c));
    crate::net::lemma_checksum_verifies(full, 14);
}

/// Hands out local ports from the ephemeral range.
#[derive(Debug)]
pub struct EphemeralPortTracker {
    pub range_start: u16,
    pub range_end: u16,
    pub last_registered: u16,
}

impl EphemeralPortTracker {
    /// The tracker for the range 49152..65535, starting at its beginning.
    pub fn new() -> (r: EphemeralPortTracker)
        ensures
            r.range_start == 49152,
            r.range_end == 0xffff,
            r.last_registered == 49152,
    {
        EphemeralPortTracker { range_start: 49152, range_end: 0xffff, last_registered: 49152 }
    }

    /// The port after the last one handed out, wrapping to the start of the range at its
    /// end.  (The tracker does not record the port it hands out.)
    pub fn get_new(&self) -> (r: Port)
        requires
            self.last_registered < 0xffff,
        ensures
            r == (if self.last_registered + 1 >= self.range_end {
                self.range_start as int
            } else {
                self.last_registered + 1
            }),
    {
        let mut new = self.last_registered + 1;
        if new >= self.range_end {
            new = self.range_start;
        }
        new
    }
}

/// The connections of one listener, keyed by the remote socket address (`spec_socket_key`).
#[verifier::external_body]
#[derive(Debug)]
pub struct TcpConnections {
    map: hashbrown::HashMap<u64, TcpConnection>,
}

/// What a connection table holds, by key of the remote address.
pub uninterp spec fn tcp_connections_contents(c: TcpConnections) -> Map<u64, TcpConnection>;

impl TcpConnections {
    /// An empty table (`hashbrown::HashMap::new`).
    #[verifier::external_body]
    fn map_new() -> (r: TcpConnections)
        ensures
            tcp_connections_contents(r).dom() == Set::<u64>::empty(),
    {
        TcpConnections { map: hashbrown::HashMap::new() }
    }

    /// An empty table.
    pub fn new() -> (r: TcpConnections)
        ensures
            tcp_connections_contents(r).dom() == Set::<u64>::empty(),
    {
        Self::map_new()
    }

    /// Files `conn` under `key`, returning what was filed there before
    /// (`hashbrown::HashMap::insert`).
    #[verifier::external_body]
    fn map_insert(&mut self, key: u64, conn: TcpConnection) -> (r: Option<TcpConnection>)
        ensures
            tcp_connections_contents(*final(self)) == tcp_connections_contents(*old(self)).insert(key, conn),
            r == (if tcp_connections_contents(*old(self)).contains_key(key) {
                Some(tcp_connections_contents(*old(self))[key])
            } else {
                None
            }),
    {
        self.map.insert(key, conn)
    }

    /// Files `conn` under `key`, returning what was filed there before.
    pub fn insert(&mut self, key: u64, conn: TcpConnection) -> (r: Option<TcpConnection>)
        ensures
            tcp_connections_contents(*final(self)) == tcp_connections_contents(*old(self)).insert(key, conn),
            r == (if tcp_connections_contents(*old(self)).contains_key(key) {
                Some(tcp_connections_contents(*old(self))[key])
            } else {
                None
            }),
    {
        self.map_insert(key, conn)
    }

    /// Takes out what is filed under `key` (`hashbrown::HashMap::remove`).
    #[verifier::external_body]
    fn map_remove(&mut self, key: u64) -> (r: Option<TcpConnection>)
        ensures
            tcp_connections_contents(*final(self)) == tcp_connections_contents(*old(self)).remove(key),
            r == (if tcp_connections_contents(*old(self)).contains_key(key) {
                Some(tcp_connections_contents(*old(self))[key])
            } else {
                None
            }),
    {
        self.map.remove(&key)
    }

    /// Takes out what is filed under `key`.
    pub fn remove(&mut self, key: u64) -> (r: Option<TcpConnection>)
        ensures
            tcp_connections_contents(*final(self)) == tcp_connections_contents(*old(self)).remove(key),
            r == (if tcp_connections_contents(*old(self)).contains_key(key) {
                Some(tcp_connections_contents(*old(self))[key])
            } else {
                None
            }),
    {
        self.map_remove(key)
    }
}

/// What the registry holds for one listening port.
#[derive(Debug)]
pub struct TcpRegistryKey {
    pub binding_address: Ipv4Addr,
    /// Connections not accepted yet, oldest first.
    pub pending_connections: ArrayQueue<TcpConnection>,
    /// Accepted connections.
    pub connections: TcpConnections,
}

/// The connections in a listener's pending queue, oldest first.
pub uninterp spec fn connection_queue_contents(q: ArrayQueue<TcpConnection>) -> Seq<TcpConnection>;

/// The capacity that a listener's pending queue was made with.
pub uninterp spec fn connection_queue_capacity(q: ArrayQueue<TcpConnection>) -> nat;

/// `ArrayQueue::new` for connections: an empty queue of capacity `cap` (it panics on a zero
/// capacity, and on one too large to round up to a power of two).
#[verifier::external_body]
fn connection_queue_new(cap: usize) -> (r: ArrayQueue<TcpConnection>)
    requires
        0 < cap <= usize::MAX / 2,
    ensures
        connection_queue_contents(r) == Seq::<TcpConnection>::empty(),
        connection_queue_capacity(r) == cap,
{
    ArrayQueue::new(cap)
}

/// `ArrayQueue::push` for connections: adds `value` behind the others, or hands it back
/// when the queue holds as many connections as its capacity.
#[verifier::external_body]
fn connection_queue_push(q: &mut ArrayQueue<TcpConnection>, value: TcpConnection) -> (r: Result<(), TcpConnection>)
    ensures
        connection_queue_contents(*old(q)).len() < connection_queue_capacity(*old(q)) ==> r is Ok
            && connection_queue_capacity(*final(q)) == connection_queue_capacity(*old(q))
            && connection_queue_contents(*final(q)) == connection_queue_contents(*old(q)).push(value),
        connection_queue_contents(*old(q)).len() >= connection_queue_capacity(*old(q)) ==> connection_queue_capacity(*final(q)) == connection_queue_capacity(*old(q)) && (r matches Err(v) && v == value)
            && connection_queue_contents(*final(q)) == connection_queue_contents(*old(q)),
{
    q.push(value)
}

/// `ArrayQueue::pop` for connections: takes out the oldest connection, or none when the
/// queue is empty.
#[verifier::external_body]
fn connection_queue_pop(q: &mut ArrayQueue<TcpConnection>) -> (r: Option<TcpConnection>)
    ensures
        connection_queue_capacity(*final(q)) == connection_queue_capacity(*old(q)),
        connection_queue_contents(*old(q)).len() == 0 ==> r is None && connection_queue_contents(*final(q))
            == connection_queue_contents(*old(q)),
        connection_queue_contents(*old(q)).len() > 0 ==> r == Some(connection_queue_contents(*old(q))[0])
            && connection_queue_contents(*final(q)) == connection_queue_contents(*old(q)).drop_first(),
{
    q.pop()
}

/// `ArrayQueue::is_empty` for connections: whether the queue holds none.
#[verifier::external_body]
fn connection_queue_is_empty(q: &ArrayQueue<TcpConnection>) -> (r: bool)
    ensures
        r == (connection_queue_contents(*q).len() == 0),
{
    q.is_empty()
}

/// The connections that wait to be accepted on the listener of entry `k`, oldest first.
pub open spec fn pending_conns(k: TcpRegistryKey) -> Seq<TcpConnection> {
    connection_queue_contents(k.pending_connections)
}

/// The listening TCP ports.
#[verifier::external_body]
pub struct TcpRegistry {
    map: hashbrown::HashMap<u16, TcpRegistryKey>,
}

/// What the registry holds, by local port.
pub uninterp spec fn tcp_registry_contents(r: TcpRegistry) -> Map<u16, TcpRegistryKey>;

impl TcpRegistry {
    /// An empty registry (`hashbrown::HashMap::new`).
    #[verifier::external_body]
    fn map_new() -> (r: TcpRegistry)
        ensures
            tcp_registry_contents(r).dom() == Set::<u16>::empty(),
    {
        TcpRegistry { map: hashbrown::HashMap::new() }
    }

    /// An empty registry.
    pub fn new() -> (r: TcpRegistry)
        ensures
            tcp_registry_contents(r).dom() == Set::<u16>::empty(),
    {
        Self::map_new()
    }

    /// Whether something is filed under `port` (`hashbrown::HashMap::contains_key`).
    #[verifier::external_body]
    fn map_contains_key(&self, port: u16) -> (r: bool)
        ensures
            r == tcp_registry_contents(*self).contains_key(port),
    {
        self.map.contains_key(&port)
    }

    /// Whether something is filed under `port`.
    pub fn contains_key(&self, port: u16) -> (r: bool)
        ensures
            r == tcp_registry_contents(*self).contains_key(port),
    {
        self.map_contains_key(port)
    }

    /// Files `key` under `port`, returning what was filed there before
    /// (`hashbrown::HashMap::insert`).
    #[verifier::external_body]
    fn map_insert(&mut self, port: u16, key: TcpRegistryKey) -> (r: Option<TcpRegistryKey>)
        ensures
            tcp_registry_contents(*final(self)) == tcp_registry_contents(*old(self)).insert(port, key),
            r == (if tcp_registry_contents(*old(self)).contains_key(port) {
                Some(tcp_registry_contents(*old(self))[port])
            } else {
                None
            }),
    {
        self.map.insert(port, key)
    }

    /// Files `key` under `port`, returning what was filed there before.
    pub fn insert(&mut self, port: u16, key: TcpRegistryKey) -> (r: Option<TcpRegistryKey>)
        ensures
            tcp_registry_contents(*final(self)) == tcp_registry_contents(*old(self)).insert(port, key),
            r == (if tcp_registry_contents(*old(self)).contains_key(port) {
                Some(tcp_registry_contents(*old(self))[port])
            } else {
                None
            }),
    {
        self.map_insert(port, key)
    }

    /// Takes out what is filed under `port` (`hashbrown::HashMap::remove`).
    #[verifier::external_body]
    fn map_remove(&mut self, port: u16) -> (r: Option<TcpRegistryKey>)
        ensures
            tcp_registry_contents(*final(self)) == tcp_registry_contents(*old(self)).remove(port),
            r == (if tcp_registry_contents(*old(self)).contains_key(port) {
                Some(tcp_registry_contents(*old(self))[port])
            } else {
                None
            }),
    {
        self.map.remove(&port)
    }

    /// Takes out what is filed under `port`.
    pub fn remove(&mut self, port: u16) -> (r: Option<TcpRegistryKey>)
        ensures
            tcp_registry_contents(*final(self)) == tcp_registry_contents(*old(self)).remove(port),
            r == (if tcp_registry_contents(*old(self)).contains_key(port) {
                Some(tcp_registry_contents(*old(self))[port])
            } else {
                None
            }),
    {
        self.map_remove(port)
    }
}

/// Whether a connection is one that a listener holds: opened passively, in a state that
/// `update` handles, with a full-size receive buffer.
pub open spec fn listener_connection_ok(c: TcpConnection) -> bool {
    &&& tcp_connection_wf(c)
    &&& c.open_status == OpenStatus::PassiveOpen
    &&& (c.state == TcpConnectionState::Listen || c.state == TcpConnectionState::SynSent || c.state
        == TcpConnectionState::Established)
}

/// Invariant of the registry entry of one listener.
pub open spec fn tcp_key_wf(k: TcpRegistryKey) -> bool {
    &&& connection_queue_capacity(k.pending_connections) == MAX_PENDING_CONNECTIONS
    &&& pending_conns(k).len() <= MAX_PENDING_CONNECTIONS
    &&& forall|i: int| 0 <= i < pending_conns(k).len() ==> listener_connection_ok(#[trigger] pending_conns(k)[i])
    &&& forall|a: u64| #[trigger] tcp_connections_contents(k.connections).contains_key(a) ==> listener_connection_ok(tcp_connections_contents(k.connections)[a])
}

/// Invariant of the registry: every entry keeps its invariant.
pub open spec fn tcp_registry_wf(m: Map<u16, TcpRegistryKey>) -> bool {
    forall|p: u16| #[trigger] m.contains_key(p) ==> tcp_key_wf(m[p])
}

/// A segment that the stack is to send, with the addresses it goes between.
#[derive(Debug)]
pub struct OutgoingSegment {
    pub local_addr: SocketAddrV4,
    pub remote_addr: SocketAddrV4,
    /// The segment bytes, checksum filled in.
    pub bytes: Vec<u8>,
}

/// What handling an incoming segment asks the caller to do.
#[derive(Debug)]
pub struct TcpHandled {
    /// A segment to send in answer, if any.
    pub reply: Option<OutgoingSegment>,
    /// Whether the listener waiting for new connections is to be woken.
    pub wake_listener: bool,
}

/// Takes in a TCP segment that arrived in `packet`.  It is dropped when it is malformed,
/// when no listener is on its destination port, or when the listener's binding address does
/// not take it.  A segment of a known connection is passed to it, and the connection's next
/// handshake step is answered; a segment from a new remote address opens a pending
/// connection (dropped when the pending queue is full) and wakes the listener.
pub fn handle_incoming_packet(registry: &mut TcpRegistry, packet: &IPv4Packet) -> (r: TcpHandled)
    requires
        tcp_registry_wf(tcp_registry_contents(*old(registry))),
        !tcp_too_short(packet.data@) && packet.data@[13] == TCP_SYN ==> be32_at(packet.data@, 4) < 0xffff_ffff,
    ensures
        tcp_registry_wf(tcp_registry_contents(*final(registry))),
        tcp_registry_contents(*final(registry)).dom() == tcp_registry_contents(*old(registry)).dom(),
        ({
            let m = tcp_registry_contents(*old(registry));
            let m2 = tcp_registry_contents(*final(registry));
            let port = be16_at(packet.data@, 2) as u16;
            let remote = SocketAddrV4 { ip: packet.header.source_address, port: be16_at(packet.data@, 0) as u16 };
            let accepted = !tcp_too_short(packet.data@) && m.contains_key(port) && spec_should_accept(packet.header.destination_address, m[port].binding_address);
            &&& !accepted ==> m2 == m && r.reply is None && !r.wake_listener
            &&& forall|p: u16| p != port && #[trigger] m.contains_key(p) ==> m2[p] == m[p]
            &&& accepted ==> m2[port].binding_address == m[port].binding_address
            &&& accepted && !tcp_connections_contents(m[port].connections).contains_key(spec_socket_key(remote)) ==> {
                &&& r.wake_listener
                &&& r.reply is None
                &&& tcp_connections_contents(m2[port].connections) == tcp_connections_contents(m[port].connections)
                &&& pending_conns(m[port]).len() < MAX_PENDING_CONNECTIONS ==> {
                    &&& pending_conns(m2[port]).len() == pending_conns(m[port]).len() + 1
                    &&& pending_conns(m2[port]).drop_last() == pending_conns(m[port])
                    &&& pending_conns(m2[port]).last().remote_addr == remote
                    &&& pending_conns(m2[port]).last().local_addr == SocketAddrV4 { ip: packet.header.destination_address, port }
                    &&& pending_conns(m2[port]).last().open_status == OpenStatus::PassiveOpen
                    &&& pending_conns(m2[port]).last().state == (if packet.data@[13] == TCP_SYN {
                        TcpConnectionState::SynSent
                    } else if packet.data@[13] == TCP_ACK {
                        TcpConnectionState::Established
                    } else {
                        TcpConnectionState::Listen
                    })
                    &&& pending_conns(m2[port]).last().current_ack_num == (if packet.data@[13] == TCP_SYN {
                        (be32_at(packet.data@, 4) + 1) as u32
                    } else {
                        0u32
                    })
                    &&& pending_conns(m2[port]).last().last_read_byte == pending_conns(m2[port]).last().current_ack_num
                    &&& pending_conns(m2[port]).last().current_squence_num == 0
                    &&& pending_conns(m2[port]).last().new_segment_notified
                    &&& pending_conns(m2[port]).last().segment_buffer@.len() == TCP_WINDOW_SIZE
                    &&& forall|i: int| 1 <= i < TCP_WINDOW_SIZE ==> #[trigger] pending_conns(m2[port]).last().segment_buffer@[i] is None
                    &&& packet.data@[13] == TCP_SYN ==> pending_conns(m2[port]).last().segment_buffer@[0] is None
                    &&& packet.data@[13] != TCP_SYN ==> (pending_conns(m2[port]).last().segment_buffer@[0] matches Some(s)
                        && tcp_segment_matches(s, packet.data@))
                }
                &&& pending_conns(m[port]).len() >= MAX_PENDING_CONNECTIONS ==> pending_conns(m2[port]) == pending_conns(m[port])
            }
            &&& accepted && tcp_connections_contents(m[port].connections).contains_key(spec_socket_key(remote)) ==> {
                let local = SocketAddrV4 { ip: packet.header.destination_address, port };
                let c = tcp_connections_contents(m[port].connections)[spec_socket_key(remote)];
                let c2 = tcp_connections_contents(m2[port].connections)[spec_socket_key(remote)];
                let flags = packet.data@[13];
                let ack = if flags == TCP_SYN { (be32_at(packet.data@, 4) + 1) as u32 } else { c.current_ack_num };
                let answered = flags == TCP_SYN || (flags != TCP_ACK && c.state == TcpConnectionState::SynSent);
                &&& !r.wake_listener
                &&& pending_conns(m2[port]) == pending_conns(m[port])
                &&& tcp_connections_contents(m2[port].connections).dom() == tcp_connections_contents(m[port].connections).dom()
                &&& c2.current_ack_num == ack
                &&& received_by(c, c2, packet.data@)
                &&& c2.state == (if flags == TCP_SYN {
                    TcpConnectionState::SynSent
                } else if flags == TCP_ACK {
                    TcpConnectionState::Established
                } else {
                    c.state
                })
                &&& (r.reply is Some <==> answered)
                &&& r.reply matches Some(o) ==> {
                    &&& o.remote_addr == remote
                    &&& o.local_addr == local
                    &&& o.bytes@ == with_tcp_checksum(
                        local,
                        remote,
                        base_segment_bytes(c.local_addr.port, c.remote_addr.port, c.current_squence_num, ack, TCP_ACK | TCP_SYN),
                    )
                }
            }
        }),
{
    let ghost m = tcp_registry_contents(*registry);
    let segment = match TcpSegment::from_bytes(packet.data) {
        Ok(s) => s,
        Err(_) => {
            return TcpHandled { reply: None, wake_listener: false };
        },
    };
    let port = segment.header.dst_port;
    let mut key = match registry.remove(port) {
        Some(k) => k,
        None => {
            return TcpHandled { reply: None, wake_listener: false };
        },
    };
    if !crate::net::socket::should_accept_packet(packet.header.destination_address, key.binding_address) {
        registry.insert(port, key);
        assert(tcp_registry_contents(*registry) =~= m);
        return TcpHandled { reply: None, wake_listener: false };
    }
    let remote_addr = SocketAddrV4::new(packet.header.source_address, segment.header.src_port);
    let local_addr = SocketAddrV4::new(packet.header.destination_address, port);
    let remote_key = remote_addr.key();
    let result = match key.connections.remove(remote_key) {
        Some(mut connection) => {
            let _ = connection.recieve_segment(packet);
            let ghost received = connection;
            let reply = match connection.update() {
                Some(seg) => {
                    proof {
                        lemma_base_segment_bytes(seg, received, TCP_ACK | TCP_SYN);
                    }
                    let bytes = checksummed_segment_bytes(local_addr, remote_addr, &seg);
                    Some(OutgoingSegment { local_addr, remote_addr, bytes })
                },
                None => None,
            };
            key.connections.insert(remote_key, connection);
            TcpHandled { reply, wake_listener: false }
        },
        None => {
            let mut new_connection = TcpConnection::new(remote_addr, local_addr, OpenStatus::PassiveOpen);
            let _ = new_connection.recieve_segment(packet);
            let pushed = connection_queue_push(&mut key.pending_connections, new_connection);
            if pushed.is_ok() {
                assert(pending_conns(key).drop_last() =~= pending_conns(m[port]));
            }
            TcpHandled { reply: None, wake_listener: true }
        },
    };
    registry.insert(port, key);
    assert(tcp_registry_contents(*registry).dom() =~= m.dom());
    result
}

/// The source address of the packet that carries a segment to `remote`: 127.0.0.1 for a
/// loopback peer, else the address of the interface it goes out on.
pub fn segment_source(remote: SocketAddrV4, interface_ip: Ipv4Addr) -> (r: Ipv4Addr)
    ensures
        r == (if remote.ip.0 / 0x100_0000 == 127 {
            Ipv4Addr(0x7f00_0001)
        } else {
            interface_ip
        }),
{
    if remote.ip.is_loopback() {
        Ipv4Addr::localhost()
    } else {
        interface_ip
    }
}

/// Listens for connections on a local port.
#[derive(Clone, Copy, Debug)]
pub struct TcpListener {
    pub binding_address: SocketAddrV4,
}

/// A connection that a listener handed out.
#[derive(Clone, Copy, Debug)]
pub struct TcpStream {
    pub local_addr: SocketAddrV4,
    pub remote_addr: SocketAddrV4,
}

impl TcpListener {
    /// Listens on the port of `binding_address`, filing a fresh entry for it; fails with
    /// `PortAlreadyInUse`, changing nothing, when the port is taken.
    pub fn bind(registry: &mut TcpRegistry, binding_address: SocketAddrV4) -> (r: Result<TcpListener, TcpError>)
        requires
            tcp_registry_wf(tcp_registry_contents(*old(registry))),
        ensures
            tcp_registry_wf(tcp_registry_contents(*final(registry))),
            tcp_registry_contents(*old(registry)).contains_key(binding_address.port) <==> r is Err,
            r matches Err(e) ==> e == TcpError::PortAlreadyInUse && tcp_registry_contents(*final(registry)) == tcp_registry_contents(*old(registry)),
            r matches Ok(l) ==> {
                let m2 = tcp_registry_contents(*final(registry));
                &&& l.binding_address == binding_address
                &&& m2.dom() == tcp_registry_contents(*old(registry)).dom().insert(binding_address.port)
                &&& forall|p: u16| p != binding_address.port && #[trigger] tcp_registry_contents(*old(registry)).contains_key(p) ==> m2[p] == tcp_registry_contents(*old(registry))[p]
                &&& m2[binding_address.port].binding_address == binding_address.ip
                &&& pending_conns(m2[binding_address.port]).len() == 0
                &&& tcp_connections_contents(m2[binding_address.port].connections).dom() == Set::<u64>::empty()
            },
    {
        if registry.contains_key(binding_address.port()) {
            return Err(TcpError::PortAlreadyInUse);
        }
        registry.insert(
            binding_address.port(),
            TcpRegistryKey {
                binding_address: binding_address.ip(),
                pending_connections: connection_queue_new(MAX_PENDING_CONNECTIONS),
                connections: TcpConnections::new(),
            },
        );
        Ok(TcpListener { binding_address })
    }

    /// Accepts the oldest pending connection on the port of `binding_address`, if any: it
    /// moves from the pending queue to the accepted connections, and a stream for it is
    /// returned.
    pub fn try_get_stream(registry: &mut TcpRegistry, binding_address: SocketAddrV4) -> (r: Option<TcpStream>)
        requires
            tcp_registry_wf(tcp_registry_contents(*old(registry))),
            tcp_registry_contents(*old(registry)).contains_key(binding_address.port),
            ({
                let k = tcp_registry_contents(*old(registry))[binding_address.port];
                pending_conns(k).len() > 0 ==> !tcp_connections_contents(k.connections).contains_key(
                    spec_socket_key(pending_conns(k)[0].remote_addr),
                )
            }),
        ensures
            tcp_registry_wf(tcp_registry_contents(*final(registry))),
            ({
                let m = tcp_registry_contents(*old(registry));
                let m2 = tcp_registry_contents(*final(registry));
                let port = binding_address.port;
                let q = pending_conns(m[port]);
                &&& m2.dom() == m.dom()
                &&& forall|p: u16| p != port && #[trigger] m.contains_key(p) ==> m2[p] == m[p]
                &&& m2[port].binding_address == m[port].binding_address
                &&& q.len() == 0 ==> r is None && m2 == m
                &&& q.len() > 0 ==> {
                    &&& r == Some(TcpStream { local_addr: q[0].local_addr, remote_addr: q[0].remote_addr })
                    &&& pending_conns(m2[port]) == q.skip(1)
                    &&& tcp_connections_contents(m2[port].connections) == tcp_connections_contents(m[port].connections).insert(
                        spec_socket_key(q[0].remote_addr),
                        q[0],
                    )
                }
            }),
    {
        let ghost m = tcp_registry_contents(*registry);
        let port = binding_address.port();
        let mut entry = match registry.remove(port) {
            Some(k) => k,
            None => {
                proof {
                    assert(false);
                }
                return None;
            },
        };
        if connection_queue_is_empty(&entry.pending_connections) {
            registry.insert(port, entry);
            assert(tcp_registry_contents(*registry) =~= m);
            return None;
        }
        let connection = match connection_queue_pop(&mut entry.pending_connections) {
            Some(c) => c,
            None => {
                proof {
                    assert(false);
                }
                return None;
            },
        };
        assert(pending_conns(entry) =~= pending_conns(m[port]).skip(1));
        let remote_addr = connection.remote_addr;
        let local_addr = connection.local_addr;
        entry.connections.insert(remote_addr.key(), connection);
        registry.insert(port, entry);
        assert(tcp_registry_contents(*registry).dom() =~= m.dom());
        Some(TcpStream { local_addr, remote_addr })
    }
}

impl TcpStream {
    /// Reads received data of this connection into `buf`; fails with `ConnectionDoesntExist`
    /// when the listener holds no accepted connection for the remote address.
    pub fn read(&mut self, registry: &mut TcpRegistry, buf: &mut [u8]) -> (r: Result<usize, TcpError>)
        requires
            tcp_registry_contents(*old(registry)).contains_key(old(self).local_addr.port),
            ({
                let cs = tcp_connections_contents(tcp_registry_contents(*old(registry))[old(self).local_addr.port].connections);
                let k = spec_socket_key(old(self).remote_addr);
                cs.contains_key(k) ==> {
                    &&& forall|i: int| 0 <= i < cs[k].segment_buffer@.len() ==> (#[trigger] cs[k].segment_buffer@[i] matches Some(s) ==> s.header.sequence_num + s.data@.len() <= 0xffff_ffff)
                    &&& forall|i: int| 0 <= i < cs[k].segment_buffer@.len() ==> !segment_extends(#[trigger] cs[k].segment_buffer@[i], cs[k].last_read_byte)
                }
            }),
        ensures
            ({
                let m = tcp_registry_contents(*old(registry));
                let m2 = tcp_registry_contents(*final(registry));
                let port = old(self).local_addr.port;
                &&& m2.dom() == m.dom()
                &&& forall|p: u16| p != port && #[trigger] m.contains_key(p) ==> m2[p] == m[p]
                &&& m2[port].binding_address == m[port].binding_address
                &&& pending_conns(m2[port]) == pending_conns(m[port])
                &&& tcp_connections_contents(m2[port].connections) == tcp_connections_contents(m[port].connections)
            }),
            *final(self) == *old(self),
            final(buf)@ == old(buf)@,
            ({
                let cs = tcp_connections_contents(tcp_registry_contents(*old(registry))[old(self).local_addr.port].connections);
                &&& cs.contains_key(spec_socket_key(old(self).remote_addr)) ==> r == Ok::<usize, TcpError>(0)
                &&& !cs.contains_key(spec_socket_key(old(self).remote_addr)) ==> r == Err::<usize, TcpError>(TcpError::ConnectionDoesntExist)
            }),
    {
        let ghost m = tcp_registry_contents(*registry);
        let port = self.local_addr.port();
        let mut reg_key = match registry.remove(port) {
            Some(k) => k,
            None => {
                proof {
                    assert(false);
                }
                return Err(TcpError::ConnectionDoesntExist);
            },
        };
        let rk = self.remote_addr.key();
        let ghost cs = tcp_connections_contents(reg_key.connections);
        let result = match reg_key.connections.remove(rk) {
            Some(mut connection) => {
                let n = connection.read(buf);
                reg_key.connections.insert(rk, connection);
                assert(tcp_connections_contents(reg_key.connections) =~= cs);
                Ok(n)
            },
            None => Err(TcpError::ConnectionDoesntExist),
        };
        registry.insert(port, reg_key);
        assert(tcp_registry_contents(*registry).dom() =~= m.dom());
        result
    }
}

} // verus!
