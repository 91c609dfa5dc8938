//! Reading received IPv6 packets with smoltcp's wire parsers: which packets
//! ask for a draw, and at which destination address.
//!
//! Checksums are not verified: the payload is never read, and a wrong pixel
//! is soon drawn over. Headers are checked as far as smoltcp checks them.

use smoltcp::phy::ChecksumCapabilities;
use smoltcp::wire::{
    IpAddress, Icmpv6Packet, Icmpv6Repr, Ipv6Address, Ipv6Packet, Ipv6Repr, UdpPacket, UdpRepr,
};
use vstd::prelude::*;
use vstd::slice::slice_subrange;
use crate::backend::{ipv6_segments, segments_of, ECHO_PORT};

verus! {

/// The big-endian 16-bit integer at `i` and `i + 1`.
pub open spec fn be16(b: Seq<u8>, i: int) -> int {
    b[i] as int * 256 + b[i + 1] as int
}

/// Whether `b` starts with an IPv6 header, version 6, whose payload lies within `b`.
pub open spec fn ipv6_ok(b: Seq<u8>) -> bool {
    &&& b.len() >= 40
    &&& 40 + be16(b, 4) <= b.len()
    &&& b[0] / 16 == 6
}

/// The payload of an IPv6 packet, as long as its header says.
pub open spec fn ipv6_payload(b: Seq<u8>) -> Seq<u8> {
    b.subrange(40, 40 + be16(b, 4))
}

/// The destination address of an IPv6 packet.
pub open spec fn ipv6_dst(b: Seq<u8>) -> Seq<u8> {
    b.subrange(24, 40)
}

/// Whether smoltcp finds an ICMPv6 message long enough for its type.
pub uninterp spec fn icmpv6_len_ok(b: Seq<u8>) -> bool;

/// Whether an ICMPv6 message is an echo request.
pub open spec fn is_echo_request(b: Seq<u8>) -> bool {
    b[0] == 128 && b[1] == 0
}

/// Whether a UDP header fits in `b` and its length field lies between the header and `b`'s end.
pub open spec fn udp_ok(b: Seq<u8>) -> bool {
    &&& b.len() >= 8
    &&& 8 <= be16(b, 4) <= b.len()
}

/// The destination address, as segments, of an ICMPv6 echo request over IPv6.
pub open spec fn icmp_echo_target(b: Seq<u8>) -> Option<Seq<u16>> {
    if ipv6_ok(b) && icmpv6_len_ok(ipv6_payload(b)) && is_echo_request(ipv6_payload(b)) {
        Some(segments_of(ipv6_dst(b)))
    } else {
        None
    }
}

/// The destination address, as segments, of a UDP datagram over IPv6 to the echo port.
pub open spec fn udp_echo_target(b: Seq<u8>) -> Option<Seq<u16>> {
    if ipv6_ok(b) && udp_ok(ipv6_payload(b)) && be16(ipv6_payload(b), 2) == ECHO_PORT {
        Some(segments_of(ipv6_dst(b)))
    } else {
        None
    }
}

/// What the library reads from an IPv6 header.
pub struct Ipv6Header {
    pub src: [u8; 16],
    pub dst: [u8; 16],
    pub payload_len: usize,
}

/// Relies on smoltcp's `Ipv6Repr::parse`, which checks the buffer's length
/// against the header and its payload length field, and the version.
#[verifier::external_body]
fn parse_ipv6(b: &[u8]) -> (r: Option<Ipv6Header>)
    ensures
        r is Some <==> ipv6_ok(b@),
        r matches Some(h) ==> h.src@ == b@.subrange(8, 24),
        r matches Some(h) ==> h.dst@ == ipv6_dst(b@),
        r matches Some(h) ==> h.payload_len == be16(b@, 4),
{
    match Ipv6Repr::parse(&Ipv6Packet::new_unchecked(b)) {
        Ok(repr) => Some(Ipv6Header { src: repr.src_addr.0, dst: repr.dst_addr.0, payload_len: repr.payload_len }),
        Err(_) => None,
    }
}

/// Relies on smoltcp's `Icmpv6Packet::new_checked`, which needs four bytes, and
/// for an echo request eight.
#[verifier::external_body]
fn icmpv6_check_len(b: &[u8]) -> (r: bool)
    ensures
        r == icmpv6_len_ok(b@),
        r ==> b@.len() >= 4,
        b@.len() >= 1 && b@[0] == 128 ==> (r <==> b@.len() >= 8),
{
    Icmpv6Packet::new_checked(b).is_ok()
}

/// Relies on smoltcp's `Icmpv6Repr::parse` with checksums ignored: on a message
/// that passed `Icmpv6Packet::new_checked`, the result is an echo request exactly
/// for type 128 and code 0.
#[verifier::external_body]
fn icmpv6_parse_is_echo_request(src: &[u8; 16], dst: &[u8; 16], b: &[u8]) -> (r: bool)
    requires
        icmpv6_len_ok(b@),
        b@.len() >= 4,
    ensures
        r == is_echo_request(b@),
{
    let src = IpAddress::Ipv6(Ipv6Address(*src));
    let dst = IpAddress::Ipv6(Ipv6Address(*dst));
    let packet = Icmpv6Packet::new_unchecked(b);
    matches!(Icmpv6Repr::parse(&src, &dst, &packet, &ChecksumCapabilities::ignored()), Ok(Icmpv6Repr::EchoRequest { .. }))
}

/// Relies on smoltcp's `UdpPacket::new_checked`, which checks the header and the length field.
#[verifier::external_body]
fn udp_check_len(b: &[u8]) -> (r: bool)
    ensures
        r == udp_ok(b@),
{
    UdpPacket::new_checked(b).is_ok()
}

/// Relies on smoltcp's `UdpRepr::parse` with checksums ignored: it refuses
/// destination port 0 and otherwise gives the destination port.
#[verifier::external_body]
fn udp_parse_dst_port(src: &[u8; 16], dst: &[u8; 16], b: &[u8]) -> (r: Option<u16>)
    requires
        b@.len() >= 8,
    ensures
        r is Some <==> be16(b@, 2) != 0,
        r matches Some(port) ==> port == be16(b@, 2),
{
    let src = IpAddress::Ipv6(Ipv6Address(*src));
    let dst = IpAddress::Ipv6(Ipv6Address(*dst));
    let packet = UdpPacket::new_unchecked(b);
    match UdpRepr::parse(&packet, &src, &dst, &ChecksumCapabilities::ignored()) {
        Ok(repr) => Some(repr.dst_port),
        Err(_) => None,
    }
}

/// The destination address of `packet` when it is an ICMPv6 echo request over IPv6.
pub fn icmp_draw_target(packet: &[u8]) -> (r: Option<[u16; 8]>)
    ensures
        r is Some <==> icmp_echo_target(packet@) is Some,
        r matches Some(s) ==> icmp_echo_target(packet@) == Some(s@),
{
    let hdr = match parse_ipv6(packet) {
        Some(h) => h,
        None => return None,
    };
    let payload = slice_subrange(packet, 40, 40 + hdr.payload_len);
    if !icmpv6_check_len(payload) {
        return None;
    }
    if !icmpv6_parse_is_echo_request(&hdr.src, &hdr.dst, payload) {
        return None;
    }
    Some(ipv6_segments(&hdr.dst))
}

/// The destination address of `packet` when it is a UDP datagram over IPv6 to the echo port.
pub fn udp_draw_target(packet: &[u8]) -> (r: Option<[u16; 8]>)
    ensures
        r is Some <==> udp_echo_target(packet@) is Some,
        r matches Some(s) ==> udp_echo_target(packet@) == Some(s@),
{
    let hdr = match parse_ipv6(packet) {
        Some(h) => h,
        None => return None,
    };
    let payload = slice_subrange(packet, 40, 40 + hdr.payload_len);
    if !udp_check_len(payload) {
        return None;
    }
    match udp_parse_dst_port(&hdr.src, &hdr.dst, payload) {
        Some(port) => if port == ECHO_PORT {
            Some(ipv6_segments(&hdr.dst))
        } else {
            None
        },
        None => None,
    }
}

} // verus!
