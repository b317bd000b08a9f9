//! Ethernet II frames.
use vstd::prelude::*;

use crate::bytes::{be16, be16_at, spec_u16_be};

verus! {

/// Largest payload that one Ethernet frame carries.
pub const ETHERNET_MTU: u16 = 1500;

/// Length of the Ethernet header: two addresses and the EtherType.
pub const ETHERNET_HEADER_LEN: usize = 14;

/// Ways in which bytes fail to be an Ethernet frame.
#[derive(Debug, PartialEq, Eq, Structural)]
pub enum EthernetError {
    MACWrongLengthSlice,
    EthernetPacketNotLongEnough,
    UnknownEtherType,
}

/// A 48-bit hardware address.
#[derive(Clone, Copy, Debug)]
pub struct MacAddress(pub [u8; 6]);

/// The broadcast address ff:ff:ff:ff:ff:ff.
pub fn broadcast_mac() -> (r: MacAddress)
    ensures
        forall|i: int| 0 <= i < 6 ==> r.0@[i] == 0xff,
{
    MacAddress([0xff, 0xff, 0xff, 0xff, 0xff, 0xff])
}

impl MacAddress {
    /// The address whose bytes are `v`; fails unless `v` holds exactly six bytes.
    pub fn try_from(v: &[u8]) -> (r: Result<MacAddress, EthernetError>)
        ensures
            v@.len() == 6 <==> r is Ok,
            r matches Ok(m) ==> m.0@ == v@,
            r matches Err(e) ==> e == EthernetError::MACWrongLengthSlice,
    {
        if v.len() != 6 {
            return Err(EthernetError::MACWrongLengthSlice);
        }
        let m = MacAddress([v[0], v[1], v[2], v[3], v[4], v[5]]);
        assert(m.0@ =~= v@);
        Ok(m)
    }

    /// The address made of `value`.
    pub fn from(value: [u8; 6]) -> (r: MacAddress)
        ensures
            r.0 == value,
    {
        MacAddress(value)
    }
}

/// The protocols that this stack carries in Ethernet frames.
#[derive(Clone, Copy, Debug, PartialEq, Eq, Structural)]
pub enum EtherType {
    IPv4,
    Arp,
}

/// The number that names an EtherType on the wire.
pub open spec fn ether_type_value(t: EtherType) -> u16 {
    match t {
        EtherType::IPv4 => 0x0800,
        EtherType::Arp => 0x0806,
    }
}

/// The EtherType named by `v`, if it is one this stack knows.
pub open spec fn spec_ether_type(v: int) -> Option<EtherType> {
    if v == 0x0800 {
        Some(EtherType::IPv4)
    } else if v == 0x0806 {
        Some(EtherType::Arp)
    } else {
        None
    }
}

impl EtherType {
    /// The EtherType named by `value`; gives `value` back when it names none.
    pub fn try_from(value: u16) -> (r: Result<EtherType, u16>)
        ensures
            r matches Ok(t) ==> spec_ether_type(value as int) == Some(t),
            r matches Err(e) ==> spec_ether_type(value as int) is None && e == value,
    {
        if value == 0x0800 {
            Ok(EtherType::IPv4)
        } else if value == 0x0806 {
            Ok(EtherType::Arp)
        } else {
            Err(value)
        }
    }

    /// The number that names this EtherType on the wire.
    pub fn value(self) -> (r: u16)
        ensures
            r == ether_type_value(self),
    {
        match self {
            EtherType::IPv4 => 0x0800,
            EtherType::Arp => 0x0806,
        }
    }
}

/// A frame whose payload is borrowed from the buffer it was read from.
#[derive(Debug)]
pub struct EthernetPacket<'a> {
    pub destination: MacAddress,
    pub source: MacAddress,
    pub typ: EtherType,
    pub data: &'a [u8],
}

/// The bytes of a frame with these header fields and payload.
pub open spec fn frame_bytes(dest: MacAddress, src: MacAddress, typ: EtherType, data: Seq<u8>) -> Seq<u8> {
    dest.0@ + src.0@ + spec_u16_be(ether_type_value(typ)) + data
}

/// Whether `v` is a frame that `EthernetPacket::try_from` accepts.
pub open spec fn frame_parses(v: Seq<u8>) -> bool {
    v.len() >= 14 && spec_ether_type(be16_at(v, 12)) is Some
}

impl<'a> EthernetPacket<'a> {
    /// Reads a frame from `v`: two addresses, the EtherType and the payload after them.
    pub fn try_from(v: &'a [u8]) -> (r: Result<EthernetPacket<'a>, EthernetError>)
        ensures
            r is Ok <==> frame_parses(v@),
            r matches Ok(p) ==> {
                &&& p.destination.0@ == v@.subrange(0, 6)
                &&& p.source.0@ == v@.subrange(6, 12)
                &&& Some(p.typ) == spec_ether_type(be16_at(v@, 12))
                &&& p.data@ == v@.subrange(14, v@.len() as int)
            },
            r matches Err(e) ==> (if v@.len() < 14 {
                e == EthernetError::EthernetPacketNotLongEnough
            } else {
                e == EthernetError::UnknownEtherType
            }),
    {
        if v.len() < 14 {
            return Err(EthernetError::EthernetPacketNotLongEnough);
        }
        let destination = MacAddress([v[0], v[1], v[2], v[3], v[4], v[5]]);
        let source = MacAddress([v[6], v[7], v[8], v[9], v[10], v[11]]);
        let t = crate::bytes::u16_from_be(v[12], v[13]);
        let typ = match EtherType::try_from(t) {
            Ok(typ) => typ,
            Err(_) => {
                return Err(EthernetError::UnknownEtherType);
            },
        };
        let data = vstd::slice::slice_subrange(v, 14, v.len());
        assert(destination.0@ =~= v@.subrange(0, 6));
        assert(source.0@ =~= v@.subrange(6, 12));
        Ok(EthernetPacket { destination, source, typ, data })
    }

    /// Writes the frame into the front of `buf`, leaving the rest of `buf` as it was.
    pub fn write_into(&self, buf: &mut [u8])
        requires
            self.data@.len() + 14 <= old(buf)@.len(),
        ensures
            final(buf)@.len() == old(buf)@.len(),
            final(buf)@.subrange(0, self.data@.len() + 14int) == frame_bytes(
                self.destination,
                self.source,
                self.typ,
                self.data@,
            ),
            final(buf)@.subrange(self.data@.len() + 14int, old(buf)@.len() as int) == old(buf)@.subrange(
                self.data@.len() + 14int,
                old(buf)@.len() as int,
            ),
    {
        let n = self.data.len();
        let blen = buf.len();
        let t = crate::bytes::u16_to_be(self.typ.value());
        let mut i: usize = 0;
        while i < 6
            invariant
                i <= 6,
                buf@.len() == old(buf)@.len(),
                n + 14 <= buf@.len(),
                forall|j: int| 0 <= j < i ==> #[trigger] buf@[j] == self.destination.0@[j],
                forall|j: int| 0 <= j < i ==> #[trigger] buf@[6 + j] == self.source.0@[j],
                forall|j: int| 12 <= j < buf@.len() ==> #[trigger] buf@[j] == old(buf)@[j],
            decreases 6 - i,
        {
            buf[i] = self.destination.0[i];
            buf[6 + i] = self.source.0[i];
            i = i + 1;
        }
        buf[12] = t[0];
        buf[13] = t[1];
        let mut k: usize = 0;
        while k < n
            invariant
                k <= n,
                n == self.data@.len(),
                buf@.len() == old(buf)@.len(),
                blen == buf@.len(),
                n + 14 <= buf@.len(),
                forall|j: int| 0 <= j < 6 ==> #[trigger] buf@[j] == self.destination.0@[j],
                forall|j: int| 0 <= j < 6 ==> #[trigger] buf@[6 + j] == self.source.0@[j],
                buf@[12] == t@[0],
                buf@[13] == t@[1],
                forall|j: int| 0 <= j < k ==> #[trigger] buf@[14 + j] == self.data@[j],
                forall|j: int| 14 + k <= j < buf@.len() ==> #[trigger] buf@[j] == old(buf)@[j],
            decreases n - k,
        {
            buf[14 + k] = self.data[k];
            k = k + 1;
        }
        let ghost fb = frame_bytes(self.destination, self.source, self.typ, self.data@);
        assert forall|j: int| 0 <= j < n + 14 implies buf@[j] == fb[j] by {
            if j < 6 {
            } else if j < 12 {
                assert(buf@[6 + (j - 6)] == self.source.0@[j - 6]);
            } else if j < 14 {
            } else {
                assert(buf@[14 + (j - 14)] == self.data@[j - 14]);
            }
        }
        assert(buf@.subrange(0, n + 14) =~= frame_bytes(
            self.destination,
            self.source,
            self.typ,
            self.data@,
        ));
        assert(buf@.subrange(n + 14, buf@.len() as int) =~= old(buf)@.subrange(
            n + 14,
            old(buf)@.len() as int,
        ));
    }

    /// The frame as the bytes that go on the wire.
    pub fn to_bytes(&self) -> (r: Vec<u8>)
        requires
            self.data@.len() + 14 <= usize::MAX,
        ensures
            r@ == frame_bytes(self.destination, self.source, self.typ, self.data@),
    {
        let n = self.total_len();
        let mut v: Vec<u8> = vec![0u8; n];
        self.write_into(v.as_mut_slice());
        assert(v@ =~= v@.subrange(0, n as int));
        v
    }

    /// Number of bytes that the frame takes on the wire.
    pub fn total_len(&self) -> (r: usize)
        requires
            self.data@.len() + 14 <= usize::MAX,
        ensures
            r == self.data@.len() + 14,
    {
        14 + self.data.len()
    }
}


/// Law: the EtherTypes are IEEE's: IPv4 0x0800, ARP 0x0806; a number read as an EtherType
/// is its number, and every EtherType is read back from its number.
pub proof fn lemma_ether_type_numbers(v: int, t: EtherType)
    ensures
        ether_type_value(EtherType::IPv4) == 0x0800,
        ether_type_value(EtherType::Arp) == 0x0806,
        spec_ether_type(v) matches Some(u) ==> ether_type_value(u) == v,
        spec_ether_type(ether_type_value(t) as int) == Some(t),
{
}

} // verus!
