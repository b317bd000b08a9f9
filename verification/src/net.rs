//! Network stack: wire formats of Ethernet, ARP, IPv4, ICMP, UDP and TCP, and the
//! decisions the stack takes on incoming frames.
use vstd::prelude::*;

use crate::bytes::be16;
use crate::queue::{frame_queue_capacity, frame_queue_contents, frame_queue_new, frame_queue_pop, frame_queue_push};
use crossbeam_queue::ArrayQueue;
use crate::bytes::be16_at;
use crate::bytes::be32_at;

pub mod arp;
pub mod ethernet;
pub mod icmp;
pub mod ip;
pub mod nic;
pub mod socket;

verus! {

/// An IPv4 address, held as its 32 bits with the first octet most significant.
#[derive(Clone, Copy, Debug, PartialEq, Eq, Structural)]
pub struct Ipv4Addr(pub u32);

/// The four octets of an address.
pub open spec fn spec_octets(a: Ipv4Addr) -> Seq<u8> {
    crate::bytes::spec_u32_be(a.0)
}

impl Ipv4Addr {
    /// 127.0.0.1
    pub fn localhost() -> (r: Ipv4Addr)
        ensures
            r.0 == 0x7f00_0001,
    {
        Ipv4Addr(0x7f00_0001)
    }

    /// The address made of four octets, first octet most significant.
    pub fn from_octets(o: [u8; 4]) -> (r: Ipv4Addr)
        ensures
            r.0 == be16(o@[0], o@[1]) * 65536 + be16(o@[2], o@[3]),
            spec_octets(r) == o@,
    {
        let r = Ipv4Addr(crate::bytes::u32_from_be(o[0], o[1], o[2], o[3]));
        proof {
            crate::bytes::lemma_be16_inverse(o@[0], o@[1]);
            crate::bytes::lemma_be16_inverse(o@[2], o@[3]);
            let hi = be16(o@[0], o@[1]);
            let lo = be16(o@[2], o@[3]);
            assert((hi * 65536 + lo) / 0x100_0000 == hi / 256) by (nonlinear_arith)
                requires 0 <= hi <= 0xffff, 0 <= lo <= 0xffff;
            assert(((hi * 65536 + lo) / 0x1_0000) % 256 == hi % 256) by (nonlinear_arith)
                requires 0 <= hi <= 0xffff, 0 <= lo <= 0xffff;
            assert(((hi * 65536 + lo) / 256) % 256 == lo / 256) by (nonlinear_arith)
                requires 0 <= hi <= 0xffff, 0 <= lo <= 0xffff;
            assert((hi * 65536 + lo) % 256 == lo % 256) by (nonlinear_arith)
                requires 0 <= hi <= 0xffff, 0 <= lo <= 0xffff;
            assert(spec_octets(r) =~= o@);
        }
        r
    }

    /// The four octets of the address.
    pub fn octets(&self) -> (r: [u8; 4])
        ensures
            r@ == spec_octets(*self),
    {
        crate::bytes::u32_to_be(self.0)
    }

    /// Whether the address is in 127.0.0.0/8.
    pub fn is_loopback(&self) -> (r: bool)
        ensures
            r == (self.0 / 0x100_0000 == 127),
    {
        self.0 / 0x100_0000 == 127
    }

    /// Whether the address is 0.0.0.0.
    pub fn is_unspecified(&self) -> (r: bool)
        ensures
            r == (self.0 == 0),
    {
        self.0 == 0
    }
}

/// Which network card an interface sends through.
#[derive(Clone, Copy, Debug, PartialEq, Eq, Structural)]
pub enum WhichInterface {
    RTL8139,
}

/// Addressing of one network connection; it does not hold the card itself.
#[derive(Clone, Copy, Debug)]
pub struct Interface {
    pub mac: ethernet::MacAddress,
    pub ip: Ipv4Addr,
    pub gateway: Ipv4Addr,
    pub subnet_mask: Ipv4Addr,
    pub which: WhichInterface,
}

/// Number of 16-bit words that the checksum adds up (an odd trailing byte is padded with zero).
pub open spec fn num_words(d: Seq<u8>) -> nat {
    ((d.len() + 1) / 2) as nat
}

/// The `k`-th big-endian 16-bit word of `d`, zero-padded at the end.
pub open spec fn word(d: Seq<u8>, k: int) -> nat {
    if 2 * k + 1 < d.len() {
        be16(d[2 * k], d[2 * k + 1]) as nat
    } else {
        be16(d[2 * k], 0) as nat
    }
}

/// Sum of the first `n` words of `d`.
pub open spec fn sum_words(d: Seq<u8>, n: nat) -> nat
    decreases n,
{
    if n == 0 {
        0
    } else {
        sum_words(d, (n - 1) as nat) + word(d, n - 1)
    }
}

/// Sum of all words of `d`.
pub open spec fn words_sum(d: Seq<u8>) -> nat {
    sum_words(d, num_words(d))
}

/// Folds the carries above bit 15 back into the low 16 bits until none are left.
pub open spec fn fold_carries(x: nat) -> nat
    decreases x,
{
    if x < 0x1_0000 {
        x
    } else {
        proof {
            lemma_fold_step_smaller(x);
        }
        fold_carries(x % 0x1_0000 + x / 0x1_0000)
    }
}

/// The Internet checksum (one's complement of the one's complement sum) of `d`.
pub open spec fn internet_checksum(d: Seq<u8>) -> u16 {
    (0xffff - fold_carries(words_sum(d))) as u16
}

pub proof fn lemma_fold_step_smaller(x: nat)
    requires
        x >= 0x1_0000,
    ensures
        x % 0x1_0000 + x / 0x1_0000 < x,
{
    assert(x == (x / 0x1_0000) * 0x1_0000 + x % 0x1_0000) by (nonlinear_arith);
    assert((x / 0x1_0000) >= 1) by (nonlinear_arith)
        requires
            x >= 0x1_0000,
    ;
    assert((x / 0x1_0000) * 0x1_0000 > x / 0x1_0000) by (nonlinear_arith)
        requires
            (x / 0x1_0000) >= 1,
    ;
}

/// One folding step keeps the value modulo 0xffff, and keeps it non-zero.
pub proof fn lemma_fold_step_mod(x: nat)
    ensures
        (x % 0x1_0000 + x / 0x1_0000) % 0xffff == x % 0xffff,
        x > 0 ==> x % 0x1_0000 + x / 0x1_0000 > 0,
{
    let q = x / 0x1_0000;
    let r = x % 0x1_0000;
    assert(x == q * 0x1_0000 + r) by (nonlinear_arith)
        requires
            q == x / 0x1_0000,
            r == x % 0x1_0000,
    ;
    assert(q * 0x1_0000 + r == q * 0xffff + (q + r)) by (nonlinear_arith);
    vstd::arithmetic::div_mod::lemma_mod_multiples_vanish(q as int, (q + r) as int, 0xffff);
}

/// Folding keeps the value modulo 0xffff, stays within 16 bits, and is zero only for zero.
pub proof fn lemma_fold_carries(x: nat)
    ensures
        fold_carries(x) <= 0xffff,
        fold_carries(x) % 0xffff == x % 0xffff,
        (fold_carries(x) == 0) == (x == 0),
    decreases x,
{
    if x >= 0x1_0000 {
        lemma_fold_step_smaller(x);
        lemma_fold_step_mod(x);
        lemma_fold_carries(x % 0x1_0000 + x / 0x1_0000);
    }
}

/// The bytes `d` with its `w`-th word replaced by `v`.
pub open spec fn with_word(d: Seq<u8>, w: int, v: u16) -> Seq<u8> {
    d.update(2 * w, (v / 256) as u8).update(2 * w + 1, (v % 256) as u8)
}

proof fn lemma_sum_words_with_word(d: Seq<u8>, w: int, v: u16, n: nat)
    requires
        0 <= w,
        2 * w + 1 < d.len(),
        n <= num_words(d),
    ensures
        sum_words(with_word(d, w, v), n) + (if w < n { word(d, w) } else { 0 }) == sum_words(d, n)
            + (if w < n { v as nat } else { 0 }),
    decreases n,
{
    let d2 = with_word(d, w, v);
    if n > 0 {
        lemma_sum_words_with_word(d, w, v, (n - 1) as nat);
        let k = n - 1;
        if k == w {
            assert(word(d2, k) == v as nat);
        } else {
            assert(word(d2, k) == word(d, k));
        }
    }
}

/// Law: storing the checksum of a message into a zeroed, word-aligned checksum field makes
/// the checksum of the resulting message zero, which is how a receiver verifies it.
pub proof fn lemma_checksum_verifies(d: Seq<u8>, w: int)
    requires
        0 <= w,
        2 * w + 1 < d.len(),
        d[2 * w] == 0,
        d[2 * w + 1] == 0,
    ensures
        internet_checksum(with_word(d, w, internet_checksum(d))) == 0,
{
    let c = internet_checksum(d);
    let d2 = with_word(d, w, c);
    let s = words_sum(d);
    assert(word(d, w) == 0);
    lemma_sum_words_with_word(d, w, c, num_words(d));
    assert(num_words(d2) == num_words(d));
    let s2 = words_sum(d2);
    assert(s2 == s + c);
    lemma_fold_carries(s);
    lemma_fold_carries(s2);
    let f = fold_carries(s);
    assert(c == 0xffff - f);
    assert((s + c) % 0xffff == (f + c) % 0xffff) by {
        vstd::arithmetic::div_mod::lemma_add_mod_noop(s as int, c as int, 0xffff);
        vstd::arithmetic::div_mod::lemma_add_mod_noop(f as int, c as int, 0xffff);
    }
    assert((f + c) % 0xffff == 0);
    assert(s2 > 0);
    assert(fold_carries(s2) == 0xffff);
}

/// Computes the Internet checksum (RFC 1071) of `data`.
pub fn ones_complement_checksum(data: &[u8]) -> (r: u16)
    requires
        data@.len() <= 0x2_0002,
    ensures
        r == internet_checksum(data@),
{
    let len = data.len();
    let mut sum: u32 = 0;
    let mut k: usize = 0;
    let nw = (len + 1) / 2;
    while k < nw
        invariant
            len == data@.len(),
            len <= 0x2_0002,
            nw == num_words(data@),
            k <= nw,
            sum == sum_words(data@, k as nat),
            sum <= k * 0xffff,
        decreases nw - k,
    {
        let hi = data[2 * k];
        let lo = if 2 * k + 1 < len { data[2 * k + 1] } else { 0 };
        let w = crate::bytes::u16_from_be(hi, lo);
        assert(sum + w <= (k + 1) * 0xffff) by (nonlinear_arith)
            requires
                sum <= k * 0xffff,
                w <= 0xffff,
        ;
        assert((k + 1) * 0xffff <= 0x1_0001 * 0xffff) by (nonlinear_arith)
            requires
                k + 1 <= 0x1_0001,
        ;
        sum = sum + w as u32;
        k = k + 1;
    }
    proof {
        lemma_fold_carries(sum as nat);
    }
    while sum >> 16 != 0
        invariant
            fold_carries(sum as nat) == fold_carries(words_sum(data@)),
        decreases sum,
    {
        let ghost old_sum = sum;
        assert(sum >> 16 == sum / 0x1_0000) by (bit_vector);
        assert(sum & 0xffff == sum % 0x1_0000) by (bit_vector);
        proof {
            lemma_fold_step_smaller(sum as nat);
        }
        sum = (sum & 0xffff) + (sum >> 16);
        assert(fold_carries(old_sum as nat) == fold_carries(sum as nat));
    }
    assert(sum >> 16 == sum / 0x1_0000) by (bit_vector);
    let s16 = sum as u16;
    assert(!s16 == 0xffff - s16) by (bit_vector);
    !s16
}


proof fn lemma_sum_words_same(d: Seq<u8>, e: Seq<u8>, n: nat)
    requires
        forall|k: int| 0 <= k < n ==> word(d, k) == word(e, k),
    ensures
        sum_words(d, n) == sum_words(e, n),
    decreases n,
{
    if n > 0 {
        lemma_sum_words_same(d, e, (n - 1) as nat);
    }
}

/// Law: an odd trailing byte counts as the high byte of a word padded with zero, so padding
/// an odd-length message with one zero byte keeps its checksum.
pub proof fn lemma_checksum_odd_padding(d: Seq<u8>)
    requires
        d.len() % 2 == 1,
    ensures
        internet_checksum(d) == internet_checksum(d + seq![0u8]),
{
    let e = d + seq![0u8];
    assert(num_words(e) == num_words(d));
    assert forall|k: int| 0 <= k < num_words(d) implies word(d, k) == word(e, k) by {
        if 2 * k + 1 < d.len() {
            assert(e[2 * k] == d[2 * k] && e[2 * k + 1] == d[2 * k + 1]);
        } else {
            assert(2 * k + 1 == d.len());
            assert(e[2 * k] == d[2 * k] && e[2 * k + 1] == 0);
        }
    }
    lemma_sum_words_same(d, e, num_words(d));
}

/// Law: appending to an even-length message its checksum, most significant byte first,
/// gives a message whose checksum is zero.
pub proof fn lemma_checksum_append_verifies(d: Seq<u8>)
    requires
        d.len() % 2 == 0,
    ensures
        internet_checksum(d + crate::bytes::spec_u16_be(internet_checksum(d))) == 0,
{
    let m = d.len() / 2;
    let z = d + seq![0u8, 0u8];
    assert(num_words(z) == m + 1);
    assert forall|k: int| 0 <= k < m implies word(d, k) == word(z, k) by {
        assert(z[2 * k] == d[2 * k] && z[2 * k + 1] == d[2 * k + 1]);
    }
    lemma_sum_words_same(d, z, m as nat);
    assert(word(z, m as int) == 0);
    assert(words_sum(z) == words_sum(d));
    lemma_checksum_verifies(z, m as int);
    assert(with_word(z, m as int, internet_checksum(z)) =~= d + crate::bytes::spec_u16_be(internet_checksum(d)));
}

/// Frames that a queue holds at most; a frame that arrives when it is full is dropped.
pub const PACKET_QUEUE_SIZE: usize = 16;

/// Frames received from the card and not yet handled, oldest first.
pub struct PacketQueue {
    pub queue: ArrayQueue<Vec<u8>>,
}

impl PacketQueue {
    /// The frames, oldest first.
    pub open spec fn frames(&self) -> Seq<Seq<u8>> {
        frame_queue_contents(self.queue)
    }

    /// The invariant: the queue was made for `PACKET_QUEUE_SIZE` frames, and holds no more.
    pub open spec fn wf(&self) -> bool {
        &&& frame_queue_capacity(self.queue) == PACKET_QUEUE_SIZE
        &&& self.frames().len() <= PACKET_QUEUE_SIZE
    }

    /// An empty queue.
    pub fn new() -> (r: PacketQueue)
        ensures
            r.wf(),
            r.frames() == Seq::<Seq<u8>>::empty(),
    {
        PacketQueue { queue: frame_queue_new(PACKET_QUEUE_SIZE) }
    }

    /// Adds `packet` behind the others, unless the queue is full; says whether it was added.
    pub fn push_packet(&mut self, packet: Vec<u8>) -> (r: bool)
        requires
            old(self).wf(),
        ensures
            final(self).wf(),
            r == (old(self).frames().len() < PACKET_QUEUE_SIZE),
            r ==> final(self).frames() == old(self).frames().push(packet@),
            !r ==> final(self).frames() == old(self).frames(),
    {
        match frame_queue_push(&mut self.queue, packet) {
            Ok(()) => true,
            Err(_) => false,
        }
    }

    /// Takes out the oldest frame, if any.
    pub fn pop(&mut self) -> (r: Option<Vec<u8>>)
        requires
            old(self).wf(),
        ensures
            final(self).wf(),
            old(self).frames().len() == 0 ==> r is None && final(self).frames() == old(self).frames(),
            old(self).frames().len() > 0 ==> {
                &&& r matches Some(p) && p@ == old(self).frames()[0]
                &&& final(self).frames() == old(self).frames().drop_first()
            },
    {
        frame_queue_pop(&mut self.queue)
    }
}

/// The stream of received frames that the network task reads.
pub struct NetworkStream {
    pub queue: PacketQueue,
}

impl NetworkStream {
    /// The next frame, oldest first; none means the task has to wait for the card.
    pub fn poll_next(&mut self) -> (r: Option<Vec<u8>>)
        requires
            old(self).queue.wf(),
        ensures
            final(self).queue.wf(),
            old(self).queue.frames().len() == 0 ==> r is None && final(self).queue.frames() == old(
                self,
            ).queue.frames(),
            old(self).queue.frames().len() > 0 ==> {
                &&& r matches Some(p) && p@ == old(self).queue.frames()[0]
                &&& final(self).queue.frames() == old(self).queue.frames().drop_first()
            },
    {
        self.queue.pop()
    }
}

/// What the network task does with one received frame.
pub enum FrameAction {
    /// The frame, or the packet inside it, does not parse: nothing to do.
    Drop,
    /// An ARP packet was handled; the reply frame to send, if one is owed.
    Arp(Option<Vec<u8>>),
    /// An IPv4 packet, for the handler that `handle_packet` chose; its sender was learned.
    Ip(ip::IpAction),
}

/// How `handle_packet` dispatches the IPv4 packet `v` received on `interface`.
pub open spec fn spec_ip_action(v: Seq<u8>, interface: Interface) -> ip::IpAction {
    if be32_at(v, 16) != interface.ip.0 {
        ip::IpAction::Ignore
    } else {
        match ip::spec_ip_protocol(v[9]) {
            Some(ip::IPProtocol::Icmp) => ip::IpAction::Icmp,
            Some(ip::IPProtocol::Tcp) => ip::IpAction::Tcp,
            _ => ip::IpAction::Udp,
        }
    }
}

/// Handles one received frame on `interface`: ARP packets go to `handle_arp_incoming`; for
/// an IPv4 packet the sender's hardware address is learned into `table` (the frame shows it
/// owns its source address) and the packet is dispatched by `handle_packet`; the rest is
/// dropped.
pub fn handle_frame(packet: &[u8], interface: &Interface, table: &mut arp::ArpTable) -> (r: FrameAction)
    requires
        packet@.len() >= 14,
    ensures
        !ethernet::frame_parses(packet@) ==> r is Drop && arp::arp_table_contents(*final(table))
            == arp::arp_table_contents(*old(table)),
        ethernet::frame_parses(packet@) && ethernet::spec_ether_type(be16_at(packet@, 12)) == Some(
            ethernet::EtherType::Arp,
        ) ==> {
            let data = packet@.subrange(14, packet@.len() as int);
            if arp::arp_error_for(data) is Some {
                r is Drop && arp::arp_table_contents(*final(table)) == arp::arp_table_contents(*old(table))
            } else {
                exists|p: arp::ArpPacket|
                    {
                        &&& #[trigger] arp::arp_matches(p, data)
                        &&& arp::arp_table_contents(*final(table)) == arp::arp_table_after(
                            arp::arp_table_contents(*old(table)),
                            p,
                            *interface,
                        )
                        &&& r matches FrameAction::Arp(reply)
                        &&& reply is Some <==> (p.operation == 1 && p.target_protocol_address == interface.ip)
                        &&& reply matches Some(f) ==> f@ == arp::arp_reply_frame(p, *interface)
                    }
            }
        },
        ethernet::frame_parses(packet@) && ethernet::spec_ether_type(be16_at(packet@, 12)) == Some(
            ethernet::EtherType::IPv4,
        ) ==> {
            let data = packet@.subrange(14, packet@.len() as int);
            if ip::ipv4_error_for(data) is Some {
                r is Drop && arp::arp_table_contents(*final(table)) == arp::arp_table_contents(*old(table))
            } else {
                &&& r == FrameAction::Ip(spec_ip_action(data, *interface))
                &&& exists|m: ethernet::MacAddress|
                    {
                        &&& #[trigger] m.0@ == packet@.subrange(6, 12)
                        &&& arp::arp_table_contents(*final(table)) == arp::arp_table_contents(
                            *old(table),
                        ).insert(be32_at(data, 12) as u32, m)
                    }
            }
        },
{
    let ep = match ethernet::EthernetPacket::try_from(packet) {
        Ok(ep) => ep,
        Err(_) => {
            return FrameAction::Drop;
        },
    };
    match ep.typ {
        ethernet::EtherType::Arp => {
            match arp::ArpPacket::try_from(ep.data) {
                Ok(a) => {
                    let reply = arp::handle_arp_incoming(&a, interface, table);
                    FrameAction::Arp(reply)
                },
                Err(_) => FrameAction::Drop,
            }
        },
        ethernet::EtherType::IPv4 => {
            match ip::IPv4Packet::try_from(ep.data) {
                Ok(ip_packet) => {
                    table.insert(ip_packet.header.source_address, ep.source);
                    FrameAction::Ip(ip::handle_packet(&ip_packet, interface))
                },
                Err(_) => FrameAction::Drop,
            }
        },
    }
}


/// The error of `core::net::Ipv4Addr`'s `from_str`.
#[verifier::external_type_specification]
#[verifier::external_body]
pub struct ExAddrParseError(core::net::AddrParseError);

/// The error of the integer types' `from_str`.
#[verifier::external_type_specification]
#[verifier::external_body]
pub struct ExParseIntError(core::num::ParseIntError);

/// The address, as its 32 bits, that `core::net::Ipv4Addr`'s `from_str` reads from the text
/// `s`; none when it refuses `s`.
pub uninterp spec fn parsed_ipv4(s: Seq<char>) -> Option<u32>;

/// `<core::net::Ipv4Addr as FromStr>::from_str`, which reads an address in dotted-decimal
/// notation. The contract names what it reads (`parsed_ipv4`) and leaves the error value
/// unsaid.
#[verifier::external_body]
fn parse_ipv4(s: &str) -> (r: Result<u32, core::net::AddrParseError>)
    ensures
        r is Ok <==> parsed_ipv4(s@) is Some,
        r matches Ok(bits) ==> parsed_ipv4(s@) == Some(bits),
{
    match s.parse::<core::net::Ipv4Addr>() {
        Ok(a) => Ok(u32::from(a)),
        Err(e) => Err(e),
    }
}

/// Whether every character of `s` is an ASCII decimal digit.
pub open spec fn all_digits(s: Seq<char>) -> bool {
    forall|i: int| 0 <= i < s.len() ==> '0' <= #[trigger] s[i] <= '9'
}

/// The value of the decimal digits `s`, most significant first.
pub open spec fn decimal_value(s: Seq<char>) -> int
    decreases s.len(),
{
    if s.len() == 0 {
        0
    } else {
        decimal_value(s.drop_last()) * 10 + (s.last() as int - '0' as int)
    }
}

/// What `u16`'s `from_str` reads from the text `s`: an optional `+` sign followed by one or
/// more decimal digits, and nothing else, whose value fits in 16 bits.
pub open spec fn spec_parse_u16(s: Seq<char>) -> Option<u16> {
    let d = if s.len() > 0 && s[0] == '+' {
        s.drop_first()
    } else {
        s
    };
    if d.len() > 0 && all_digits(d) && decimal_value(d) <= u16::MAX {
        Some(decimal_value(d) as u16)
    } else {
        None
    }
}

/// `<u16 as FromStr>::from_str`: reads a decimal number as its documentation describes (an
/// optional `+`, then only digits, a value of at most 65535); the error value is left unsaid.
#[verifier::external_body]
fn parse_u16(s: &str) -> (r: Result<u16, core::num::ParseIntError>)
    ensures
        r is Ok <==> spec_parse_u16(s@) is Some,
        r matches Ok(v) ==> spec_parse_u16(s@) == Some(v),
{
    s.parse::<u16>()
}

/// Why `ncu` refuses its arguments.
#[derive(Debug)]
pub enum NcuArgsError {
    /// Fewer than an address and a port.
    TooFewArgs,
    /// The first argument is not an IPv4 address.
    BadAddress(core::net::AddrParseError),
    /// The second argument is not a port number.
    BadPort(core::num::ParseIntError),
}

/// The destination of `ncu` once its first argument has been read as `address`: refused with
/// the address's error when it did not parse, else with the port's error when `port` is not a
/// port number, else the address and the port.
pub fn ncu_destination(address: Result<u32, core::net::AddrParseError>, port: &str) -> (r: Result<
    (Ipv4Addr, u16),
    NcuArgsError,
>)
    ensures
        address is Err ==> (r matches Err(NcuArgsError::BadAddress(e)) && address == Err::<u32, core::net::AddrParseError>(e)),
        address is Ok && spec_parse_u16(port@) is None ==> r matches Err(NcuArgsError::BadPort(_)),
        address is Ok && spec_parse_u16(port@) is Some ==> r == Ok::<(Ipv4Addr, u16), NcuArgsError>(
            (Ipv4Addr(address->Ok_0), spec_parse_u16(port@)->Some_0),
        ),
{
    let bits = match address {
        Ok(b) => b,
        Err(e) => {
            return Err(NcuArgsError::BadAddress(e));
        },
    };
    match parse_u16(port) {
        Ok(p) => Ok((Ipv4Addr(bits), p)),
        Err(e) => Err(NcuArgsError::BadPort(e)),
    }
}

/// The destination that the arguments of `ncu` name: the IPv4 address in the first and the
/// port in the second. Refused when there are fewer than two arguments, else as
/// `ncu_destination` refuses what `core::net::Ipv4Addr`'s `from_str` read from the first.
pub fn ncu_args(args: &[&str]) -> (r: Result<(Ipv4Addr, u16), NcuArgsError>)
    ensures
        args@.len() < 2 <==> r matches Err(NcuArgsError::TooFewArgs),
        args@.len() >= 2 ==> (r is Ok <==> parsed_ipv4(args@[0]@) is Some && spec_parse_u16(args@[1]@) is Some),
        args@.len() >= 2 && parsed_ipv4(args@[0]@) is None ==> r matches Err(NcuArgsError::BadAddress(_)),
        args@.len() >= 2 && parsed_ipv4(args@[0]@) is Some && spec_parse_u16(args@[1]@) is None ==> r matches Err(NcuArgsError::BadPort(_)),
        args@.len() >= 2 && parsed_ipv4(args@[0]@) is Some && spec_parse_u16(args@[1]@) is Some ==> r == Ok::<(Ipv4Addr, u16), NcuArgsError>(
            (Ipv4Addr(parsed_ipv4(args@[0]@)->Some_0), spec_parse_u16(args@[1]@)->Some_0),
        ),
{
    if args.len() < 2 {
        return Err(NcuArgsError::TooFewArgs);
    }
    ncu_destination(parse_ipv4(args[0]), args[1])
}


/// How many echo requests the `ping` command sends.
pub const PING_COUNT: u16 = 5;

/// The address that the arguments of the `ping` command name: its first argument, read as
/// `core::net::Ipv4Addr`'s `from_str` reads it; refused with that parser's error.
pub fn ping_args(args: &[&str]) -> (r: Result<Ipv4Addr, core::net::AddrParseError>)
    requires
        args@.len() >= 1,
    ensures
        r is Ok <==> parsed_ipv4(args@[0]@) is Some,
        r matches Ok(a) ==> parsed_ipv4(args@[0]@) == Some(a.0),
{
    match parse_ipv4(args[0]) {
        Ok(bits) => Ok(Ipv4Addr(bits)),
        Err(e) => Err(e),
    }
}

/// Where a frame that carries an IPv4 packet goes.
#[derive(Clone, Copy, Debug, PartialEq, Eq, Structural)]
pub enum FrameRoute {
    /// Back onto this machine's own receive queue.
    Loopback,
    /// Out through the network card.
    Card,
}

/// The route of a frame whose packet goes to `destination`: a loopback address (127.0.0.0/8)
/// sends it back to the receive queue, any other address through the card.
pub fn frame_route(destination: Ipv4Addr) -> (r: FrameRoute)
    ensures
        r == (if destination.0 / 0x100_0000 == 127 {
            FrameRoute::Loopback
        } else {
            FrameRoute::Card
        }),
{
    if destination.is_loopback() {
        FrameRoute::Loopback
    } else {
        FrameRoute::Card
    }
}

} // verus!
