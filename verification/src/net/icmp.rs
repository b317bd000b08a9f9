//! ICMP: message format, checksums, and the answer to echo requests.
use vstd::prelude::*;

use crate::bytes::{be16_at, be32_at, spec_u16_be, spec_u32_be};
use crate::net::ip::{ipv4_packet_bytes, max_ipv4_payload, outgoing_header, IPv4Header, IPv4Packet};
use crate::net::{internet_checksum, with_word, Interface, Ipv4Addr};

pub mod ping;

verus! {

/// An ICMP message whose payload is borrowed from the buffer it came from.
#[derive(Debug, Clone, Copy)]
pub struct ICMPPacket<'a> {
    pub typ: ControlMessageType,
    pub checksum: u16,
    /// The rest of the header; for echo messages, the identifier and the sequence number.
    pub other: u32,
    pub data: &'a [u8],
}

/// Ways in which bytes fail to be an ICMP message.
#[derive(Debug, PartialEq, Eq, Structural)]
pub enum ICMPError {
    UnknownControlMessageType,
    PacketNotLongEnough,
}

/// The bytes of an ICMP message on the wire.
pub open spec fn icmp_bytes(typ: ControlMessageType, checksum: u16, other: u32, data: Seq<u8>) -> Seq<u8> {
    seq![message_type_value(typ), message_code_value(typ)] + spec_u16_be(checksum) + spec_u32_be(other) + data
}

/// The error with which `ICMPPacket::try_from` refuses `v`, if it refuses it.
pub open spec fn icmp_error_for(v: Seq<u8>) -> Option<ICMPError> {
    if v.len() < 8 {
        Some(ICMPError::PacketNotLongEnough)
    } else if spec_control_message_type(v[0], v[1]) is Err {
        Some(ICMPError::UnknownControlMessageType)
    } else {
        None
    }
}

impl<'a> ICMPPacket<'a> {
    /// Reads an ICMP message: type, code, checksum, the rest of the header, and the payload.
    pub fn try_from(v: &'a [u8]) -> (r: Result<ICMPPacket<'a>, ICMPError>)
        ensures
            r is Err <==> icmp_error_for(v@) is Some,
            r matches Err(e) ==> icmp_error_for(v@) == Some(e),
            r matches Ok(p) ==> {
                &&& Ok::<ControlMessageType, u8>(p.typ) == spec_control_message_type(v@[0], v@[1])
                &&& p.checksum == be16_at(v@, 2)
                &&& p.other == be32_at(v@, 4)
                &&& p.data@ == v@.skip(8)
            },
    {
        if v.len() < 8 {
            return Err(ICMPError::PacketNotLongEnough);
        }
        let typ = match ControlMessageType::try_from((v[0], v[1])) {
            Ok(t) => t,
            Err(_) => {
                return Err(ICMPError::UnknownControlMessageType);
            },
        };
        Ok(ICMPPacket {
            typ,
            checksum: crate::bytes::u16_from_be(v[2], v[3]),
            other: crate::bytes::u32_from_be(v[4], v[5], v[6], v[7]),
            data: vstd::slice::slice_subrange(v, 8, v.len()),
        })
    }

    /// Replaces the checksum with the one computed over the message; the message then
    /// verifies (its checksum over all its bytes is zero).
    pub fn calc_new_checksum(&mut self)
        requires
            old(self).data@.len() + 8 <= 0x2_0000,
        ensures
            final(self).typ == old(self).typ,
            final(self).other == old(self).other,
            final(self).data == old(self).data,
            final(self).checksum == internet_checksum(
                icmp_bytes(old(self).typ, 0, old(self).other, old(self).data@),
            ),
            internet_checksum(final(self).spec_bytes()) == 0,
    {
        self.checksum = 0;
        let bytes = self.to_bytes();
        self.checksum = crate::net::ones_complement_checksum(bytes.as_slice());
        proof {
            let z = icmp_bytes(self.typ, 0, self.other, self.data@);
            assert(icmp_bytes(self.typ, self.checksum, self.other, self.data@) =~= with_word(z, 1, self.checksum));
            crate::net::lemma_checksum_verifies(z, 1);
        }
    }

    /// The bytes of the message on the wire.
    pub open spec fn spec_bytes(self) -> Seq<u8> {
        icmp_bytes(self.typ, self.checksum, self.other, self.data@)
    }

    /// The message as the bytes that go on the wire.
    pub fn to_bytes(&self) -> (r: Vec<u8>)
        requires
            self.data@.len() + 8 <= usize::MAX,
        ensures
            r@ == self.spec_bytes(),
    {
        let cs = crate::bytes::u16_to_be(self.checksum);
        let o = crate::bytes::u32_to_be(self.other);
        let mut buf: Vec<u8> = Vec::with_capacity(self.total_len());
        buf.push(self.typ.outer_as());
        buf.push(self.typ.inner_as());
        buf.push(cs[0]);
        buf.push(cs[1]);
        buf.push(o[0]);
        buf.push(o[1]);
        buf.push(o[2]);
        buf.push(o[3]);
        buf.extend_from_slice(self.data);
        assert(buf@ =~= self.spec_bytes());
        buf
    }

    /// Number of bytes of the message on the wire.
    pub fn total_len(&self) -> (r: usize)
        requires
            self.data@.len() + 8 <= usize::MAX,
        ensures
            r == self.data@.len() + 8,
    {
        8 + self.data.len()
    }
}

/// Law: a message written to bytes is read back unchanged.
pub proof fn lemma_icmp_roundtrip(p: ICMPPacket)
    ensures
        icmp_error_for(p.spec_bytes()) is None,
        Ok::<ControlMessageType, u8>(p.typ) == spec_control_message_type(p.spec_bytes()[0], p.spec_bytes()[1]),
        be16_at(p.spec_bytes(), 2) == p.checksum,
        be32_at(p.spec_bytes(), 4) == p.other,
        p.spec_bytes().skip(8) == p.data@,
{
    lemma_message_type_roundtrip(p.typ);
    crate::bytes::lemma_u16_be_roundtrip(p.checksum);
    crate::bytes::lemma_u32_be_roundtrip(p.other);
    assert(p.spec_bytes().skip(8) =~= p.data@);
}

/// The identifier and sequence number that an echo message carries in its header.
#[derive(Debug, Clone, Copy, PartialEq, Eq, Structural)]
pub struct EchoPacket {
    pub identifier: u16,
    pub sequence_num: u16,
}

impl EchoPacket {
    /// Splits the rest-of-header word of an echo message: identifier in the high half,
    /// sequence number in the low half.
    pub fn from(v: u32) -> (r: EchoPacket)
        ensures
            r.identifier == v / 0x1_0000,
            r.sequence_num == v % 0x1_0000,
    {
        EchoPacket { identifier: crate::bytes::u32_high_half(v), sequence_num: crate::bytes::u32_low_half(v) }
    }
}

/// An answer that the stack sends back: an IPv4 packet and the address it goes to.
#[derive(Debug)]
pub struct IcmpReply {
    pub destination: Ipv4Addr,
    pub packet: Vec<u8>,
}

/// The echo reply to an echo request `icmpp`: same header word and payload, fresh checksum.
pub open spec fn echo_reply_bytes(other: u32, data: Seq<u8>) -> Seq<u8> {
    let z = icmp_bytes(ControlMessageType::EchoReply(NoSubcode::NoCode), 0, other, data);
    icmp_bytes(ControlMessageType::EchoReply(NoSubcode::NoCode), internet_checksum(z), other, data)
}

/// Builds the answer to an echo request that arrived with `header` on `interface`: an echo
/// reply with the same header word and payload, in an IPv4 packet back to the sender.
pub fn handle_icmp_echo_request(icmpp: ICMPPacket, header: &IPv4Header, interface: &Interface) -> (r:
    IcmpReply)
    requires
        icmpp.data@.len() + 8 <= max_ipv4_payload(),
    ensures
        r.destination == header.source_address,
        r.packet@ == ipv4_packet_bytes(
            outgoing_header(interface.ip, header.source_address, 8 + icmpp.data@.len()),
            echo_reply_bytes(icmpp.other, icmpp.data@),
        ),
{
    let mut response = ICMPPacket {
        typ: ControlMessageType::EchoReply(NoSubcode::NoCode),
        checksum: 0,
        other: icmpp.other,
        data: icmpp.data,
    };
    response.calc_new_checksum();
    let resp_bytes = response.to_bytes();
    let ipv4 = IPv4Packet::from_source_dest_and_data(
        interface.ip,
        header.source_address,
        resp_bytes.as_slice(),
    );
    match ipv4 {
        Ok(p) => {
            let packet = p.to_bytes();
            assert(resp_bytes@ == echo_reply_bytes(icmpp.other, icmpp.data@));
            assert(ipv4_packet_bytes(p.header, echo_reply_bytes(icmpp.other, icmpp.data@)) == packet@);
            IcmpReply { destination: header.source_address, packet }
        },
        Err(_) => {
            proof {
                assert(false);
            }
            IcmpReply { destination: header.source_address, packet: Vec::new() }
        },
    }
}

/// What the stack does with an incoming ICMP message.
#[derive(Debug)]
pub enum IcmpAction<'a> {
    /// Malformed, or of a type that the stack does not handle.
    Ignore,
    /// An echo request, answered with this reply.
    Reply(IcmpReply),
    /// An echo reply to one of our requests.
    EchoResponse(ICMPPacket<'a>),
}

/// Handles an ICMP message that arrived, addressed to us, in `packet` on `interface`.
pub fn handle_icmp<'a>(packet: &IPv4Packet<'a>, interface: &Interface) -> (r: IcmpAction<'a>)
    requires
        icmp_error_for(packet.data@) is None && packet.data@[0] == 8 && packet.data@[1] == 0
            ==> packet.data@.len() <= max_ipv4_payload(),
    ensures
        icmp_error_for(packet.data@) is Some ==> r is Ignore,
        r matches IcmpAction::Reply(rep) ==> icmp_error_for(packet.data@) is None
            && packet.data@[0] == 8 && packet.data@[1] == 0
            && rep.destination == packet.header.source_address
            && rep.packet@ == ipv4_packet_bytes(
                outgoing_header(interface.ip, packet.header.source_address, packet.data@.len()),
                echo_reply_bytes(crate::bytes::word32(be32_at(packet.data@, 4)), packet.data@.skip(8)),
            ),
        r matches IcmpAction::EchoResponse(p) ==> icmp_error_for(packet.data@) is None
            && packet.data@[0] == 0 && packet.data@[1] == 0
            && p.data@ == packet.data@.skip(8)
            && p.other == be32_at(packet.data@, 4),
        icmp_error_for(packet.data@) is None && packet.data@[0] == 8 && packet.data@[1] == 0
            ==> r is Reply,
        icmp_error_for(packet.data@) is None && packet.data@[0] == 0 && packet.data@[1] == 0
            ==> r is EchoResponse,
        icmp_error_for(packet.data@) is None && !(packet.data@[0] == 8 && packet.data@[1] == 0)
            && !(packet.data@[0] == 0 && packet.data@[1] == 0) ==> r is Ignore,
{
    let icmpp = match ICMPPacket::try_from(packet.data) {
        Ok(p) => p,
        Err(_) => {
            return IcmpAction::Ignore;
        },
    };
    match icmpp.typ {
        ControlMessageType::EchoRequest(NoSubcode::NoCode) => {
            IcmpAction::Reply(handle_icmp_echo_request(icmpp, &packet.header, interface))
        },
        ControlMessageType::EchoReply(NoSubcode::NoCode) => IcmpAction::EchoResponse(icmpp),
        _ => IcmpAction::Ignore,
    }
}

/// Code of the message types that have no subcodes (always 0).
#[derive(Clone, Copy, Debug, PartialEq, Eq, Structural)]
pub enum NoSubcode {
    NoCode,
}

/// The code number of each `NoSubcode`.
pub open spec fn no_subcode_value(c: NoSubcode) -> u8 {
    match c {
        NoSubcode::NoCode => 0,
    }
}

/// The `NoSubcode` that code `v` names, if any.
pub open spec fn spec_no_subcode(v: u8) -> Option<NoSubcode> {
    if v == 0 {
        Some(NoSubcode::NoCode)
    } else {
        None
    }
}

impl NoSubcode {
    /// The code named by `value`; gives `value` back when it names none.
    pub fn try_from(value: u8) -> (r: Result<NoSubcode, u8>)
        ensures
            r matches Ok(c) ==> spec_no_subcode(value) == Some(c),
            r matches Err(e) ==> spec_no_subcode(value) is None && e == value,
    {
        if value == 0 {
            Ok(NoSubcode::NoCode)
        } else {
            Err(value)
        }
    }

    /// The code number.
    pub fn value(self) -> (r: u8)
        ensures
            r == no_subcode_value(self),
    {
        match self {
            NoSubcode::NoCode => 0,
        }
    }
}

/// Codes of Destination Unreachable messages.
#[derive(Clone, Copy, Debug, PartialEq, Eq, Structural)]
pub enum DestinationUnreachableSubcode {
    NetUnreachable,
    HostUnreachable,
    ProtocolUnreachable,
    PortUnreachable,
    FragmentationNeededDfSet,
    SourceRouteFailed,
    DestinationNetworkUnknown,
    DestinationHostUnknown,
    SourceHostIsolated,
    NetworkAdministrativelyProhibited,
    HostAdministrativelyProhibited,
    NetworkUnreachableForTos,
    HostUnreachableForTos,
    CommunicationAdministrativelyProhibited,
    HostPrecedenceViolation,
    PrecedenceCutoffInEffect,
}

/// The code number of each `DestinationUnreachableSubcode`.
pub open spec fn destination_unreachable_subcode_value(c: DestinationUnreachableSubcode) -> u8 {
    match c {
        DestinationUnreachableSubcode::NetUnreachable => 0,
        DestinationUnreachableSubcode::HostUnreachable => 1,
        DestinationUnreachableSubcode::ProtocolUnreachable => 2,
        DestinationUnreachableSubcode::PortUnreachable => 3,
        DestinationUnreachableSubcode::FragmentationNeededDfSet => 4,
        DestinationUnreachableSubcode::SourceRouteFailed => 5,
        DestinationUnreachableSubcode::DestinationNetworkUnknown => 6,
        DestinationUnreachableSubcode::DestinationHostUnknown => 7,
        DestinationUnreachableSubcode::SourceHostIsolated => 8,
        DestinationUnreachableSubcode::NetworkAdministrativelyProhibited => 9,
        DestinationUnreachableSubcode::HostAdministrativelyProhibited => 10,
        DestinationUnreachableSubcode::NetworkUnreachableForTos => 11,
        DestinationUnreachableSubcode::HostUnreachableForTos => 12,
        DestinationUnreachableSubcode::CommunicationAdministrativelyProhibited => 13,
        DestinationUnreachableSubcode::HostPrecedenceViolation => 14,
        DestinationUnreachableSubcode::PrecedenceCutoffInEffect => 15,
    }
}

/// The `DestinationUnreachableSubcode` that code `v` names, if any.
pub open spec fn spec_destination_unreachable_subcode(v: u8) -> Option<DestinationUnreachableSubcode> {
    if v == 0 {
        Some(DestinationUnreachableSubcode::NetUnreachable)
    } else if v == 1 {
        Some(DestinationUnreachableSubcode::HostUnreachable)
    } else if v == 2 {
        Some(DestinationUnreachableSubcode::ProtocolUnreachable)
    } else if v == 3 {
        Some(DestinationUnreachableSubcode::PortUnreachable)
    } else if v == 4 {
        Some(DestinationUnreachableSubcode::FragmentationNeededDfSet)
    } else if v == 5 {
        Some(DestinationUnreachableSubcode::SourceRouteFailed)
    } else if v == 6 {
        Some(DestinationUnreachableSubcode::DestinationNetworkUnknown)
    } else if v == 7 {
        Some(DestinationUnreachableSubcode::DestinationHostUnknown)
    } else if v == 8 {
        Some(DestinationUnreachableSubcode::SourceHostIsolated)
    } else if v == 9 {
        Some(DestinationUnreachableSubcode::NetworkAdministrativelyProhibited)
    } else if v == 10 {
        Some(DestinationUnreachableSubcode::HostAdministrativelyProhibited)
    } else if v == 11 {
        Some(DestinationUnreachableSubcode::NetworkUnreachableForTos)
    } else if v == 12 {
        Some(DestinationUnreachableSubcode::HostUnreachableForTos)
    } else if v == 13 {
        Some(DestinationUnreachableSubcode::CommunicationAdministrativelyProhibited)
    } else if v == 14 {
        Some(DestinationUnreachableSubcode::HostPrecedenceViolation)
    } else if v == 15 {
        Some(DestinationUnreachableSubcode::PrecedenceCutoffInEffect)
    } else {
        None
    }
}

impl DestinationUnreachableSubcode {
    /// The code named by `value`; gives `value` back when it names none.
    pub fn try_from(value: u8) -> (r: Result<DestinationUnreachableSubcode, u8>)
        ensures
            r matches Ok(c) ==> spec_destination_unreachable_subcode(value) == Some(c),
            r matches Err(e) ==> spec_destination_unreachable_subcode(value) is None && e == value,
    {
        if value == 0 {
            Ok(DestinationUnreachableSubcode::NetUnreachable)
        } else if value == 1 {
            Ok(DestinationUnreachableSubcode::HostUnreachable)
        } else if value == 2 {
            Ok(DestinationUnreachableSubcode::ProtocolUnreachable)
        } else if value == 3 {
            Ok(DestinationUnreachableSubcode::PortUnreachable)
        } else if value == 4 {
            Ok(DestinationUnreachableSubcode::FragmentationNeededDfSet)
        } else if value == 5 {
            Ok(DestinationUnreachableSubcode::SourceRouteFailed)
        } else if value == 6 {
            Ok(DestinationUnreachableSubcode::DestinationNetworkUnknown)
        } else if value == 7 {
            Ok(DestinationUnreachableSubcode::DestinationHostUnknown)
        } else if value == 8 {
            Ok(DestinationUnreachableSubcode::SourceHostIsolated)
        } else if value == 9 {
            Ok(DestinationUnreachableSubcode::NetworkAdministrativelyProhibited)
        } else if value == 10 {
            Ok(DestinationUnreachableSubcode::HostAdministrativelyProhibited)
        } else if value == 11 {
            Ok(DestinationUnreachableSubcode::NetworkUnreachableForTos)
        } else if value == 12 {
            Ok(DestinationUnreachableSubcode::HostUnreachableForTos)
        } else if value == 13 {
            Ok(DestinationUnreachableSubcode::CommunicationAdministrativelyProhibited)
        } else if value == 14 {
            Ok(DestinationUnreachableSubcode::HostPrecedenceViolation)
        } else if value == 15 {
            Ok(DestinationUnreachableSubcode::PrecedenceCutoffInEffect)
        } else {
            Err(value)
        }
    }

    /// The code number.
    pub fn value(self) -> (r: u8)
        ensures
            r == destination_unreachable_subcode_value(self),
    {
        match self {
            DestinationUnreachableSubcode::NetUnreachable => 0,
            DestinationUnreachableSubcode::HostUnreachable => 1,
            DestinationUnreachableSubcode::ProtocolUnreachable => 2,
            DestinationUnreachableSubcode::PortUnreachable => 3,
            DestinationUnreachableSubcode::FragmentationNeededDfSet => 4,
            DestinationUnreachableSubcode::SourceRouteFailed => 5,
            DestinationUnreachableSubcode::DestinationNetworkUnknown => 6,
            DestinationUnreachableSubcode::DestinationHostUnknown => 7,
            DestinationUnreachableSubcode::SourceHostIsolated => 8,
            DestinationUnreachableSubcode::NetworkAdministrativelyProhibited => 9,
            DestinationUnreachableSubcode::HostAdministrativelyProhibited => 10,
            DestinationUnreachableSubcode::NetworkUnreachableForTos => 11,
            DestinationUnreachableSubcode::HostUnreachableForTos => 12,
            DestinationUnreachableSubcode::CommunicationAdministrativelyProhibited => 13,
            DestinationUnreachableSubcode::HostPrecedenceViolation => 14,
            DestinationUnreachableSubcode::PrecedenceCutoffInEffect => 15,
        }
    }
}

/// Codes of Redirect messages.
#[derive(Clone, Copy, Debug, PartialEq, Eq, Structural)]
pub enum RedirectSubcode {
    Network,
    Host,
    TosAndNetwork,
    TosAndHost,
}

/// The code number of each `RedirectSubcode`.
pub open spec fn redirect_subcode_value(c: RedirectSubcode) -> u8 {
    match c {
        RedirectSubcode::Network => 0,
        RedirectSubcode::Host => 1,
        RedirectSubcode::TosAndNetwork => 2,
        RedirectSubcode::TosAndHost => 3,
    }
}

/// The `RedirectSubcode` that code `v` names, if any.
pub open spec fn spec_redirect_subcode(v: u8) -> Option<RedirectSubcode> {
    if v == 0 {
        Some(RedirectSubcode::Network)
    } else if v == 1 {
        Some(RedirectSubcode::Host)
    } else if v == 2 {
        Some(RedirectSubcode::TosAndNetwork)
    } else if v == 3 {
        Some(RedirectSubcode::TosAndHost)
    } else {
        None
    }
}

impl RedirectSubcode {
    /// The code named by `value`; gives `value` back when it names none.
    pub fn try_from(value: u8) -> (r: Result<RedirectSubcode, u8>)
        ensures
            r matches Ok(c) ==> spec_redirect_subcode(value) == Some(c),
            r matches Err(e) ==> spec_redirect_subcode(value) is None && e == value,
    {
        if value == 0 {
            Ok(RedirectSubcode::Network)
        } else if value == 1 {
            Ok(RedirectSubcode::Host)
        } else if value == 2 {
            Ok(RedirectSubcode::TosAndNetwork)
        } else if value == 3 {
            Ok(RedirectSubcode::TosAndHost)
        } else {
            Err(value)
        }
    }

    /// The code number.
    pub fn value(self) -> (r: u8)
        ensures
            r == redirect_subcode_value(self),
    {
        match self {
            RedirectSubcode::Network => 0,
            RedirectSubcode::Host => 1,
            RedirectSubcode::TosAndNetwork => 2,
            RedirectSubcode::TosAndHost => 3,
        }
    }
}

/// Codes of Router Advertisement messages.
#[derive(Clone, Copy, Debug, PartialEq, Eq, Structural)]
pub enum RouterAdvertisementSubcode {
    NormalRouterAdvertisement,
    DoesNotRouteCommonTraffic,
}

/// The code number of each `RouterAdvertisementSubcode`.
pub open spec fn router_advertisement_subcode_value(c: RouterAdvertisementSubcode) -> u8 {
    match c {
        RouterAdvertisementSubcode::NormalRouterAdvertisement => 0,
        RouterAdvertisementSubcode::DoesNotRouteCommonTraffic => 16,
    }
}

/// The `RouterAdvertisementSubcode` that code `v` names, if any.
pub open spec fn spec_router_advertisement_subcode(v: u8) -> Option<RouterAdvertisementSubcode> {
    if v == 0 {
        Some(RouterAdvertisementSubcode::NormalRouterAdvertisement)
    } else if v == 16 {
        Some(RouterAdvertisementSubcode::DoesNotRouteCommonTraffic)
    } else {
        None
    }
}

impl RouterAdvertisementSubcode {
    /// The code named by `value`; gives `value` back when it names none.
    pub fn try_from(value: u8) -> (r: Result<RouterAdvertisementSubcode, u8>)
        ensures
            r matches Ok(c) ==> spec_router_advertisement_subcode(value) == Some(c),
            r matches Err(e) ==> spec_router_advertisement_subcode(value) is None && e == value,
    {
        if value == 0 {
            Ok(RouterAdvertisementSubcode::NormalRouterAdvertisement)
        } else if value == 16 {
            Ok(RouterAdvertisementSubcode::DoesNotRouteCommonTraffic)
        } else {
            Err(value)
        }
    }

    /// The code number.
    pub fn value(self) -> (r: u8)
        ensures
            r == router_advertisement_subcode_value(self),
    {
        match self {
            RouterAdvertisementSubcode::NormalRouterAdvertisement => 0,
            RouterAdvertisementSubcode::DoesNotRouteCommonTraffic => 16,
        }
    }
}

/// Codes of Time Exceeded messages.
#[derive(Clone, Copy, Debug, PartialEq, Eq, Structural)]
pub enum TimeExceededSubcode {
    TtlExceededInTransit,
    FragmentReassemblyExceeded,
}

/// The code number of each `TimeExceededSubcode`.
pub open spec fn time_exceeded_subcode_value(c: TimeExceededSubcode) -> u8 {
    match c {
        TimeExceededSubcode::TtlExceededInTransit => 0,
        TimeExceededSubcode::FragmentReassemblyExceeded => 1,
    }
}

/// The `TimeExceededSubcode` that code `v` names, if any.
pub open spec fn spec_time_exceeded_subcode(v: u8) -> Option<TimeExceededSubcode> {
    if v == 0 {
        Some(TimeExceededSubcode::TtlExceededInTransit)
    } else if v == 1 {
        Some(TimeExceededSubcode::FragmentReassemblyExceeded)
    } else {
        None
    }
}

impl TimeExceededSubcode {
    /// The code named by `value`; gives `value` back when it names none.
    pub fn try_from(value: u8) -> (r: Result<TimeExceededSubcode, u8>)
        ensures
            r matches Ok(c) ==> spec_time_exceeded_subcode(value) == Some(c),
            r matches Err(e) ==> spec_time_exceeded_subcode(value) is None && e == value,
    {
        if value == 0 {
            Ok(TimeExceededSubcode::TtlExceededInTransit)
        } else if value == 1 {
            Ok(TimeExceededSubcode::FragmentReassemblyExceeded)
        } else {
            Err(value)
        }
    }

    /// The code number.
    pub fn value(self) -> (r: u8)
        ensures
            r == time_exceeded_subcode_value(self),
    {
        match self {
            TimeExceededSubcode::TtlExceededInTransit => 0,
            TimeExceededSubcode::FragmentReassemblyExceeded => 1,
        }
    }
}

/// Codes of Parameter Problem messages.
#[derive(Clone, Copy, Debug, PartialEq, Eq, Structural)]
pub enum ParameterProblemSubcode {
    PointerIndicatesError,
    MissingRequiredOption,
    BadLength,
}

/// The code number of each `ParameterProblemSubcode`.
pub open spec fn parameter_problem_subcode_value(c: ParameterProblemSubcode) -> u8 {
    match c {
        ParameterProblemSubcode::PointerIndicatesError => 0,
        ParameterProblemSubcode::MissingRequiredOption => 1,
        ParameterProblemSubcode::BadLength => 2,
    }
}

/// The `ParameterProblemSubcode` that code `v` names, if any.
pub open spec fn spec_parameter_problem_subcode(v: u8) -> Option<ParameterProblemSubcode> {
    if v == 0 {
        Some(ParameterProblemSubcode::PointerIndicatesError)
    } else if v == 1 {
        Some(ParameterProblemSubcode::MissingRequiredOption)
    } else if v == 2 {
        Some(ParameterProblemSubcode::BadLength)
    } else {
        None
    }
}

impl ParameterProblemSubcode {
    /// The code named by `value`; gives `value` back when it names none.
    pub fn try_from(value: u8) -> (r: Result<ParameterProblemSubcode, u8>)
        ensures
            r matches Ok(c) ==> spec_parameter_problem_subcode(value) == Some(c),
            r matches Err(e) ==> spec_parameter_problem_subcode(value) is None && e == value,
    {
        if value == 0 {
            Ok(ParameterProblemSubcode::PointerIndicatesError)
        } else if value == 1 {
            Ok(ParameterProblemSubcode::MissingRequiredOption)
        } else if value == 2 {
            Ok(ParameterProblemSubcode::BadLength)
        } else {
            Err(value)
        }
    }

    /// The code number.
    pub fn value(self) -> (r: u8)
        ensures
            r == parameter_problem_subcode_value(self),
    {
        match self {
            ParameterProblemSubcode::PointerIndicatesError => 0,
            ParameterProblemSubcode::MissingRequiredOption => 1,
            ParameterProblemSubcode::BadLength => 2,
        }
    }
}

/// Codes of Photuris messages.
#[derive(Clone, Copy, Debug, PartialEq, Eq, Structural)]
pub enum PhototurisSubcode {
    BadSpi,
    AuthenticationFailed,
    DecompressionFailed,
    DecryptionFailed,
    NeedAuthentication,
    NeedAuthorization,
}

/// The code number of each `PhototurisSubcode`.
pub open spec fn phototuris_subcode_value(c: PhototurisSubcode) -> u8 {
    match c {
        PhototurisSubcode::BadSpi => 0,
        PhototurisSubcode::AuthenticationFailed => 1,
        PhototurisSubcode::DecompressionFailed => 2,
        PhototurisSubcode::DecryptionFailed => 3,
        PhototurisSubcode::NeedAuthentication => 4,
        PhototurisSubcode::NeedAuthorization => 5,
    }
}

/// The `PhototurisSubcode` that code `v` names, if any.
pub open spec fn spec_phototuris_subcode(v: u8) -> Option<PhototurisSubcode> {
    if v == 0 {
        Some(PhototurisSubcode::BadSpi)
    } else if v == 1 {
        Some(PhototurisSubcode::AuthenticationFailed)
    } else if v == 2 {
        Some(PhototurisSubcode::DecompressionFailed)
    } else if v == 3 {
        Some(PhototurisSubcode::DecryptionFailed)
    } else if v == 4 {
        Some(PhototurisSubcode::NeedAuthentication)
    } else if v == 5 {
        Some(PhototurisSubcode::NeedAuthorization)
    } else {
        None
    }
}

impl PhototurisSubcode {
    /// The code named by `value`; gives `value` back when it names none.
    pub fn try_from(value: u8) -> (r: Result<PhototurisSubcode, u8>)
        ensures
            r matches Ok(c) ==> spec_phototuris_subcode(value) == Some(c),
            r matches Err(e) ==> spec_phototuris_subcode(value) is None && e == value,
    {
        if value == 0 {
            Ok(PhototurisSubcode::BadSpi)
        } else if value == 1 {
            Ok(PhototurisSubcode::AuthenticationFailed)
        } else if value == 2 {
            Ok(PhototurisSubcode::DecompressionFailed)
        } else if value == 3 {
            Ok(PhototurisSubcode::DecryptionFailed)
        } else if value == 4 {
            Ok(PhototurisSubcode::NeedAuthentication)
        } else if value == 5 {
            Ok(PhototurisSubcode::NeedAuthorization)
        } else {
            Err(value)
        }
    }

    /// The code number.
    pub fn value(self) -> (r: u8)
        ensures
            r == phototuris_subcode_value(self),
    {
        match self {
            PhototurisSubcode::BadSpi => 0,
            PhototurisSubcode::AuthenticationFailed => 1,
            PhototurisSubcode::DecompressionFailed => 2,
            PhototurisSubcode::DecryptionFailed => 3,
            PhototurisSubcode::NeedAuthentication => 4,
            PhototurisSubcode::NeedAuthorization => 5,
        }
    }
}

/// Codes of Extended Echo Reply messages.
#[derive(Clone, Copy, Debug, PartialEq, Eq, Structural)]
pub enum ExtendedEchoReplySubcode {
    NoError,
    MalformedQuery,
    NoSuchInterface,
    NoSuchTableEntry,
    MultipleInterfacesSatisfy,
}

/// The code number of each `ExtendedEchoReplySubcode`.
pub open spec fn extended_echo_reply_subcode_value(c: ExtendedEchoReplySubcode) -> u8 {
    match c {
        ExtendedEchoReplySubcode::NoError => 0,
        ExtendedEchoReplySubcode::MalformedQuery => 1,
        ExtendedEchoReplySubcode::NoSuchInterface => 2,
        ExtendedEchoReplySubcode::NoSuchTableEntry => 3,
        ExtendedEchoReplySubcode::MultipleInterfacesSatisfy => 4,
    }
}

/// The `ExtendedEchoReplySubcode` that code `v` names, if any.
pub open spec fn spec_extended_echo_reply_subcode(v: u8) -> Option<ExtendedEchoReplySubcode> {
    if v == 0 {
        Some(ExtendedEchoReplySubcode::NoError)
    } else if v == 1 {
        Some(ExtendedEchoReplySubcode::MalformedQuery)
    } else if v == 2 {
        Some(ExtendedEchoReplySubcode::NoSuchInterface)
    } else if v == 3 {
        Some(ExtendedEchoReplySubcode::NoSuchTableEntry)
    } else if v == 4 {
        Some(ExtendedEchoReplySubcode::MultipleInterfacesSatisfy)
    } else {
        None
    }
}

impl ExtendedEchoReplySubcode {
    /// The code named by `value`; gives `value` back when it names none.
    pub fn try_from(value: u8) -> (r: Result<ExtendedEchoReplySubcode, u8>)
        ensures
            r matches Ok(c) ==> spec_extended_echo_reply_subcode(value) == Some(c),
            r matches Err(e) ==> spec_extended_echo_reply_subcode(value) is None && e == value,
    {
        if value == 0 {
            Ok(ExtendedEchoReplySubcode::NoError)
        } else if value == 1 {
            Ok(ExtendedEchoReplySubcode::MalformedQuery)
        } else if value == 2 {
            Ok(ExtendedEchoReplySubcode::NoSuchInterface)
        } else if value == 3 {
            Ok(ExtendedEchoReplySubcode::NoSuchTableEntry)
        } else if value == 4 {
            Ok(ExtendedEchoReplySubcode::MultipleInterfacesSatisfy)
        } else {
            Err(value)
        }
    }

    /// The code number.
    pub fn value(self) -> (r: u8)
        ensures
            r == extended_echo_reply_subcode_value(self),
    {
        match self {
            ExtendedEchoReplySubcode::NoError => 0,
            ExtendedEchoReplySubcode::MalformedQuery => 1,
            ExtendedEchoReplySubcode::NoSuchInterface => 2,
            ExtendedEchoReplySubcode::NoSuchTableEntry => 3,
            ExtendedEchoReplySubcode::MultipleInterfacesSatisfy => 4,
        }
    }
}

/// ICMP message types, each with its code.
#[derive(Clone, Copy, Debug, PartialEq, Eq, Structural)]
pub enum ControlMessageType {
    EchoReply(NoSubcode),
    DestinationUnreachable(DestinationUnreachableSubcode),
    SourceQuench(NoSubcode),
    Redirect(RedirectSubcode),
    EchoRequest(NoSubcode),
    RouterAdvertisement(RouterAdvertisementSubcode),
    RouterSolicitation(NoSubcode),
    TimeExceeded(TimeExceededSubcode),
    ParameterProblem(ParameterProblemSubcode),
    Timestamp(NoSubcode),
    TimestampReply(NoSubcode),
    InformationRequest(NoSubcode),
    InformationReply(NoSubcode),
    AddressMaskRequest(NoSubcode),
    AddressMaskReply(NoSubcode),
    Photuris(PhototurisSubcode),
    ExtendedEchoRequest(NoSubcode),
    ExtendedEchoReply(ExtendedEchoReplySubcode),
}

/// The type number of `t`.
pub open spec fn message_type_value(t: ControlMessageType) -> u8 {
    match t {
        ControlMessageType::EchoReply(_) => 0,
        ControlMessageType::DestinationUnreachable(_) => 3,
        ControlMessageType::SourceQuench(_) => 4,
        ControlMessageType::Redirect(_) => 5,
        ControlMessageType::EchoRequest(_) => 8,
        ControlMessageType::RouterAdvertisement(_) => 9,
        ControlMessageType::RouterSolicitation(_) => 10,
        ControlMessageType::TimeExceeded(_) => 11,
        ControlMessageType::ParameterProblem(_) => 12,
        ControlMessageType::Timestamp(_) => 13,
        ControlMessageType::TimestampReply(_) => 14,
        ControlMessageType::InformationRequest(_) => 15,
        ControlMessageType::InformationReply(_) => 16,
        ControlMessageType::AddressMaskRequest(_) => 17,
        ControlMessageType::AddressMaskReply(_) => 18,
        ControlMessageType::Photuris(_) => 40,
        ControlMessageType::ExtendedEchoRequest(_) => 42,
        ControlMessageType::ExtendedEchoReply(_) => 43,
    }
}

/// The code number of `t`.
pub open spec fn message_code_value(t: ControlMessageType) -> u8 {
    match t {
        ControlMessageType::EchoReply(c) => no_subcode_value(c),
        ControlMessageType::DestinationUnreachable(c) => destination_unreachable_subcode_value(c),
        ControlMessageType::SourceQuench(c) => no_subcode_value(c),
        ControlMessageType::Redirect(c) => redirect_subcode_value(c),
        ControlMessageType::EchoRequest(c) => no_subcode_value(c),
        ControlMessageType::RouterAdvertisement(c) => router_advertisement_subcode_value(c),
        ControlMessageType::RouterSolicitation(c) => no_subcode_value(c),
        ControlMessageType::TimeExceeded(c) => time_exceeded_subcode_value(c),
        ControlMessageType::ParameterProblem(c) => parameter_problem_subcode_value(c),
        ControlMessageType::Timestamp(c) => no_subcode_value(c),
        ControlMessageType::TimestampReply(c) => no_subcode_value(c),
        ControlMessageType::InformationRequest(c) => no_subcode_value(c),
        ControlMessageType::InformationReply(c) => no_subcode_value(c),
        ControlMessageType::AddressMaskRequest(c) => no_subcode_value(c),
        ControlMessageType::AddressMaskReply(c) => no_subcode_value(c),
        ControlMessageType::Photuris(c) => phototuris_subcode_value(c),
        ControlMessageType::ExtendedEchoRequest(c) => no_subcode_value(c),
        ControlMessageType::ExtendedEchoReply(c) => extended_echo_reply_subcode_value(c),
    }
}

/// The message type named by type `t` and code `c`; the error is the number that names
/// nothing: the type when it is unknown, else the code.
pub open spec fn spec_control_message_type(t: u8, c: u8) -> Result<ControlMessageType, u8> {
    if t == 0 {
        match spec_no_subcode(c) {
            Some(x) => Ok(ControlMessageType::EchoReply(x)),
            None => Err(c),
        }
    } else if t == 3 {
        match spec_destination_unreachable_subcode(c) {
            Some(x) => Ok(ControlMessageType::DestinationUnreachable(x)),
            None => Err(c),
        }
    } else if t == 4 {
        match spec_no_subcode(c) {
            Some(x) => Ok(ControlMessageType::SourceQuench(x)),
            None => Err(c),
        }
    } else if t == 5 {
        match spec_redirect_subcode(c) {
            Some(x) => Ok(ControlMessageType::Redirect(x)),
            None => Err(c),
        }
    } else if t == 8 {
        match spec_no_subcode(c) {
            Some(x) => Ok(ControlMessageType::EchoRequest(x)),
            None => Err(c),
        }
    } else if t == 9 {
        match spec_router_advertisement_subcode(c) {
            Some(x) => Ok(ControlMessageType::RouterAdvertisement(x)),
            None => Err(c),
        }
    } else if t == 10 {
        match spec_no_subcode(c) {
            Some(x) => Ok(ControlMessageType::RouterSolicitation(x)),
            None => Err(c),
        }
    } else if t == 11 {
        match spec_time_exceeded_subcode(c) {
            Some(x) => Ok(ControlMessageType::TimeExceeded(x)),
            None => Err(c),
        }
    } else if t == 12 {
        match spec_parameter_problem_subcode(c) {
            Some(x) => Ok(ControlMessageType::ParameterProblem(x)),
            None => Err(c),
        }
    } else if t == 13 {
        match spec_no_subcode(c) {
            Some(x) => Ok(ControlMessageType::Timestamp(x)),
            None => Err(c),
        }
    } else if t == 14 {
        match spec_no_subcode(c) {
            Some(x) => Ok(ControlMessageType::TimestampReply(x)),
            None => Err(c),
        }
    } else if t == 15 {
        match spec_no_subcode(c) {
            Some(x) => Ok(ControlMessageType::InformationRequest(x)),
            None => Err(c),
        }
    } else if t == 16 {
        match spec_no_subcode(c) {
            Some(x) => Ok(ControlMessageType::InformationReply(x)),
            None => Err(c),
        }
    } else if t == 17 {
        match spec_no_subcode(c) {
            Some(x) => Ok(ControlMessageType::AddressMaskRequest(x)),
            None => Err(c),
        }
    } else if t == 18 {
        match spec_no_subcode(c) {
            Some(x) => Ok(ControlMessageType::AddressMaskReply(x)),
            None => Err(c),
        }
    } else if t == 40 {
        match spec_phototuris_subcode(c) {
            Some(x) => Ok(ControlMessageType::Photuris(x)),
            None => Err(c),
        }
    } else if t == 42 {
        match spec_no_subcode(c) {
            Some(x) => Ok(ControlMessageType::ExtendedEchoRequest(x)),
            None => Err(c),
        }
    } else if t == 43 {
        match spec_extended_echo_reply_subcode(c) {
            Some(x) => Ok(ControlMessageType::ExtendedEchoReply(x)),
            None => Err(c),
        }
    } else {
        Err(t)
    }
}

impl ControlMessageType {
    /// The message type named by the type number `tup.0` and the code `tup.1`.
    pub fn try_from(tup: (u8, u8)) -> (r: Result<ControlMessageType, u8>)
        ensures
            r == spec_control_message_type(tup.0, tup.1),
    {
        let (v1, v2) = tup;
        if v1 == 0 {
            match NoSubcode::try_from(v2) {
                Ok(x) => Ok(ControlMessageType::EchoReply(x)),
                Err(e) => Err(e),
            }
        } else if v1 == 3 {
            match DestinationUnreachableSubcode::try_from(v2) {
                Ok(x) => Ok(ControlMessageType::DestinationUnreachable(x)),
                Err(e) => Err(e),
            }
        } else if v1 == 4 {
            match NoSubcode::try_from(v2) {
                Ok(x) => Ok(ControlMessageType::SourceQuench(x)),
                Err(e) => Err(e),
            }
        } else if v1 == 5 {
            match RedirectSubcode::try_from(v2) {
                Ok(x) => Ok(ControlMessageType::Redirect(x)),
                Err(e) => Err(e),
            }
        } else if v1 == 8 {
            match NoSubcode::try_from(v2) {
                Ok(x) => Ok(ControlMessageType::EchoRequest(x)),
                Err(e) => Err(e),
            }
        } else if v1 == 9 {
            match RouterAdvertisementSubcode::try_from(v2) {
                Ok(x) => Ok(ControlMessageType::RouterAdvertisement(x)),
                Err(e) => Err(e),
            }
        } else if v1 == 10 {
            match NoSubcode::try_from(v2) {
                Ok(x) => Ok(ControlMessageType::RouterSolicitation(x)),
                Err(e) => Err(e),
            }
        } else if v1 == 11 {
            match TimeExceededSubcode::try_from(v2) {
                Ok(x) => Ok(ControlMessageType::TimeExceeded(x)),
                Err(e) => Err(e),
            }
        } else if v1 == 12 {
            match ParameterProblemSubcode::try_from(v2) {
                Ok(x) => Ok(ControlMessageType::ParameterProblem(x)),
                Err(e) => Err(e),
            }
        } else if v1 == 13 {
            match NoSubcode::try_from(v2) {
                Ok(x) => Ok(ControlMessageType::Timestamp(x)),
                Err(e) => Err(e),
            }
        } else if v1 == 14 {
            match NoSubcode::try_from(v2) {
                Ok(x) => Ok(ControlMessageType::TimestampReply(x)),
                Err(e) => Err(e),
            }
        } else if v1 == 15 {
            match NoSubcode::try_from(v2) {
                Ok(x) => Ok(ControlMessageType::InformationRequest(x)),
                Err(e) => Err(e),
            }
        } else if v1 == 16 {
            match NoSubcode::try_from(v2) {
                Ok(x) => Ok(ControlMessageType::InformationReply(x)),
                Err(e) => Err(e),
            }
        } else if v1 == 17 {
            match NoSubcode::try_from(v2) {
                Ok(x) => Ok(ControlMessageType::AddressMaskRequest(x)),
                Err(e) => Err(e),
            }
        } else if v1 == 18 {
            match NoSubcode::try_from(v2) {
                Ok(x) => Ok(ControlMessageType::AddressMaskReply(x)),
                Err(e) => Err(e),
            }
        } else if v1 == 40 {
            match PhototurisSubcode::try_from(v2) {
                Ok(x) => Ok(ControlMessageType::Photuris(x)),
                Err(e) => Err(e),
            }
        } else if v1 == 42 {
            match NoSubcode::try_from(v2) {
                Ok(x) => Ok(ControlMessageType::ExtendedEchoRequest(x)),
                Err(e) => Err(e),
            }
        } else if v1 == 43 {
            match ExtendedEchoReplySubcode::try_from(v2) {
                Ok(x) => Ok(ControlMessageType::ExtendedEchoReply(x)),
                Err(e) => Err(e),
            }
        } else {
            Err(v1)
        }
    }

    /// The type number.
    pub fn outer_as(&self) -> (r: u8)
        ensures
            r == message_type_value(*self),
    {
        match self {
            ControlMessageType::EchoReply(_) => 0,
            ControlMessageType::DestinationUnreachable(_) => 3,
            ControlMessageType::SourceQuench(_) => 4,
            ControlMessageType::Redirect(_) => 5,
            ControlMessageType::EchoRequest(_) => 8,
            ControlMessageType::RouterAdvertisement(_) => 9,
            ControlMessageType::RouterSolicitation(_) => 10,
            ControlMessageType::TimeExceeded(_) => 11,
            ControlMessageType::ParameterProblem(_) => 12,
            ControlMessageType::Timestamp(_) => 13,
            ControlMessageType::TimestampReply(_) => 14,
            ControlMessageType::InformationRequest(_) => 15,
            ControlMessageType::InformationReply(_) => 16,
            ControlMessageType::AddressMaskRequest(_) => 17,
            ControlMessageType::AddressMaskReply(_) => 18,
            ControlMessageType::Photuris(_) => 40,
            ControlMessageType::ExtendedEchoRequest(_) => 42,
            ControlMessageType::ExtendedEchoReply(_) => 43,
        }
    }

    /// The code number.
    pub fn inner_as(&self) -> (r: u8)
        ensures
            r == message_code_value(*self),
    {
        match self {
            ControlMessageType::EchoReply(c) => c.value(),
            ControlMessageType::DestinationUnreachable(c) => c.value(),
            ControlMessageType::SourceQuench(c) => c.value(),
            ControlMessageType::Redirect(c) => c.value(),
            ControlMessageType::EchoRequest(c) => c.value(),
            ControlMessageType::RouterAdvertisement(c) => c.value(),
            ControlMessageType::RouterSolicitation(c) => c.value(),
            ControlMessageType::TimeExceeded(c) => c.value(),
            ControlMessageType::ParameterProblem(c) => c.value(),
            ControlMessageType::Timestamp(c) => c.value(),
            ControlMessageType::TimestampReply(c) => c.value(),
            ControlMessageType::InformationRequest(c) => c.value(),
            ControlMessageType::InformationReply(c) => c.value(),
            ControlMessageType::AddressMaskRequest(c) => c.value(),
            ControlMessageType::AddressMaskReply(c) => c.value(),
            ControlMessageType::Photuris(c) => c.value(),
            ControlMessageType::ExtendedEchoRequest(c) => c.value(),
            ControlMessageType::ExtendedEchoReply(c) => c.value(),
        }
    }
}

/// Law: the type and code numbers of a message type name it again.
pub proof fn lemma_message_type_roundtrip(t: ControlMessageType)
    ensures
        spec_control_message_type(message_type_value(t), message_code_value(t)) == Ok::<ControlMessageType, u8>(t),
{
}

/// Law: the type number of each message type is the one that RFC 792 gives it (RFC 2521
/// for Photuris, RFC 8335 for extended echo).
pub proof fn lemma_message_type_numbers(t: ControlMessageType)
    ensures
        t is EchoReply ==> message_type_value(t) == 0,
        t is DestinationUnreachable ==> message_type_value(t) == 3,
        t is SourceQuench ==> message_type_value(t) == 4,
        t is Redirect ==> message_type_value(t) == 5,
        t is EchoRequest ==> message_type_value(t) == 8,
        t is RouterAdvertisement ==> message_type_value(t) == 9,
        t is RouterSolicitation ==> message_type_value(t) == 10,
        t is TimeExceeded ==> message_type_value(t) == 11,
        t is ParameterProblem ==> message_type_value(t) == 12,
        t is Timestamp ==> message_type_value(t) == 13,
        t is TimestampReply ==> message_type_value(t) == 14,
        t is InformationRequest ==> message_type_value(t) == 15,
        t is InformationReply ==> message_type_value(t) == 16,
        t is AddressMaskRequest ==> message_type_value(t) == 17,
        t is AddressMaskReply ==> message_type_value(t) == 18,
        t is Photuris ==> message_type_value(t) == 40,
        t is ExtendedEchoRequest ==> message_type_value(t) == 42,
        t is ExtendedEchoReply ==> message_type_value(t) == 43,
{
}

/// Law: the code number of each `NoSubcode`, as the RFCs number them.
pub proof fn lemma_no_subcode_numbers(c: NoSubcode)
    ensures
        c == NoSubcode::NoCode ==> no_subcode_value(c) == 0,
{
}

/// Law: the code number of each `DestinationUnreachableSubcode`, as the RFCs number them.
pub proof fn lemma_destination_unreachable_subcode_numbers(c: DestinationUnreachableSubcode)
    ensures
        c == DestinationUnreachableSubcode::NetUnreachable ==> destination_unreachable_subcode_value(c) == 0,
        c == DestinationUnreachableSubcode::HostUnreachable ==> destination_unreachable_subcode_value(c) == 1,
        c == DestinationUnreachableSubcode::ProtocolUnreachable ==> destination_unreachable_subcode_value(c) == 2,
        c == DestinationUnreachableSubcode::PortUnreachable ==> destination_unreachable_subcode_value(c) == 3,
        c == DestinationUnreachableSubcode::FragmentationNeededDfSet ==> destination_unreachable_subcode_value(c) == 4,
        c == DestinationUnreachableSubcode::SourceRouteFailed ==> destination_unreachable_subcode_value(c) == 5,
        c == DestinationUnreachableSubcode::DestinationNetworkUnknown ==> destination_unreachable_subcode_value(c) == 6,
        c == DestinationUnreachableSubcode::DestinationHostUnknown ==> destination_unreachable_subcode_value(c) == 7,
        c == DestinationUnreachableSubcode::SourceHostIsolated ==> destination_unreachable_subcode_value(c) == 8,
        c == DestinationUnreachableSubcode::NetworkAdministrativelyProhibited ==> destination_unreachable_subcode_value(c) == 9,
        c == DestinationUnreachableSubcode::HostAdministrativelyProhibited ==> destination_unreachable_subcode_value(c) == 10,
        c == DestinationUnreachableSubcode::NetworkUnreachableForTos ==> destination_unreachable_subcode_value(c) == 11,
        c == DestinationUnreachableSubcode::HostUnreachableForTos ==> destination_unreachable_subcode_value(c) == 12,
        c == DestinationUnreachableSubcode::CommunicationAdministrativelyProhibited ==> destination_unreachable_subcode_value(c) == 13,
        c == DestinationUnreachableSubcode::HostPrecedenceViolation ==> destination_unreachable_subcode_value(c) == 14,
        c == DestinationUnreachableSubcode::PrecedenceCutoffInEffect ==> destination_unreachable_subcode_value(c) == 15,
{
}

/// Law: the code number of each `RedirectSubcode`, as the RFCs number them.
pub proof fn lemma_redirect_subcode_numbers(c: RedirectSubcode)
    ensures
        c == RedirectSubcode::Network ==> redirect_subcode_value(c) == 0,
        c == RedirectSubcode::Host ==> redirect_subcode_value(c) == 1,
        c == RedirectSubcode::TosAndNetwork ==> redirect_subcode_value(c) == 2,
        c == RedirectSubcode::TosAndHost ==> redirect_subcode_value(c) == 3,
{
}

/// Law: the code number of each `RouterAdvertisementSubcode`, as the RFCs number them.
pub proof fn lemma_router_advertisement_subcode_numbers(c: RouterAdvertisementSubcode)
    ensures
        c == RouterAdvertisementSubcode::NormalRouterAdvertisement ==> router_advertisement_subcode_value(c) == 0,
        c == RouterAdvertisementSubcode::DoesNotRouteCommonTraffic ==> router_advertisement_subcode_value(c) == 16,
{
}

/// Law: the code number of each `TimeExceededSubcode`, as the RFCs number them.
pub proof fn lemma_time_exceeded_subcode_numbers(c: TimeExceededSubcode)
    ensures
        c == TimeExceededSubcode::TtlExceededInTransit ==> time_exceeded_subcode_value(c) == 0,
        c == TimeExceededSubcode::FragmentReassemblyExceeded ==> time_exceeded_subcode_value(c) == 1,
{
}

/// Law: the code number of each `ParameterProblemSubcode`, as the RFCs number them.
pub proof fn lemma_parameter_problem_subcode_numbers(c: ParameterProblemSubcode)
    ensures
        c == ParameterProblemSubcode::PointerIndicatesError ==> parameter_problem_subcode_value(c) == 0,
        c == ParameterProblemSubcode::MissingRequiredOption ==> parameter_problem_subcode_value(c) == 1,
        c == ParameterProblemSubcode::BadLength ==> parameter_problem_subcode_value(c) == 2,
{
}

/// Law: the code number of each `PhototurisSubcode`, as the RFCs number them.
pub proof fn lemma_phototuris_subcode_numbers(c: PhototurisSubcode)
    ensures
        c == PhototurisSubcode::BadSpi ==> phototuris_subcode_value(c) == 0,
        c == PhototurisSubcode::AuthenticationFailed ==> phototuris_subcode_value(c) == 1,
        c == PhototurisSubcode::DecompressionFailed ==> phototuris_subcode_value(c) == 2,
        c == PhototurisSubcode::DecryptionFailed ==> phototuris_subcode_value(c) == 3,
        c == PhototurisSubcode::NeedAuthentication ==> phototuris_subcode_value(c) == 4,
        c == PhototurisSubcode::NeedAuthorization ==> phototuris_subcode_value(c) == 5,
{
}

/// Law: the code number of each `ExtendedEchoReplySubcode`, as the RFCs number them.
pub proof fn lemma_extended_echo_reply_subcode_numbers(c: ExtendedEchoReplySubcode)
    ensures
        c == ExtendedEchoReplySubcode::NoError ==> extended_echo_reply_subcode_value(c) == 0,
        c == ExtendedEchoReplySubcode::MalformedQuery ==> extended_echo_reply_subcode_value(c) == 1,
        c == ExtendedEchoReplySubcode::NoSuchInterface ==> extended_echo_reply_subcode_value(c) == 2,
        c == ExtendedEchoReplySubcode::NoSuchTableEntry ==> extended_echo_reply_subcode_value(c) == 3,
        c == ExtendedEchoReplySubcode::MultipleInterfacesSatisfy ==> extended_echo_reply_subcode_value(c) == 4,
{
}

/// Law: a type and code that are read as a message type are that type's numbers.
pub proof fn lemma_message_type_read_back(t: u8, c: u8)
    ensures
        spec_control_message_type(t, c) matches Ok(m) ==> message_type_value(m) == t && message_code_value(m) == c,
{
}

} // verus!
