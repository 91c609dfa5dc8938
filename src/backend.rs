//! The draw protocol carried in IPv6 destination addresses, the address
//! ranges the service answers on, and the counter of accepted packets.
//!
//! An address `PPPP:PPPP:PPPP:SXXX:0YYY:00RR:00GG:00BB` asks for a pixel at
//! `(XXX, YYY)` in the color `(RR, GG, BB)`, fully opaque. Of the nibble `S`,
//! bit 1 (bit 13 of the fourth segment) selects the size: clear for a single
//! pixel, set for a 2×2 block. Bit 0 of `S` is ignored, so `S = 1` (the
//! single-pixel range) and `S = 2` (the block range) are the canonical forms.

use std::sync::atomic::{AtomicU32, Ordering};
use std::sync::Arc;
use vstd::prelude::*;
use crate::canvas::{drawn, Canvas};
use crate::place::SharedImageHandle;
use crate::utils::Color;
use crate::wire::{icmp_draw_target, icmp_echo_target, udp_draw_target, udp_echo_target};

verus! {

/// Packets for the echo service on this UDP port draw.
pub const ECHO_PORT: u16 = 7;

/// The length of each of the two address prefixes the service answers on.
pub const SUBNET_PREFIX_LEN: u8 = 52;

/// The fourth segment that marks the single-pixel address range.
pub const SMALL_SUBNET: u16 = 0x1000;

/// The fourth segment that marks the 2×2 block address range.
pub const BIG_SUBNET: u16 = 0x2000;

/// One draw asked for by a packet.
pub struct PixelRequest {
    pub pos: (u16, u16),
    pub color: Color,
    pub size: u8,
}

/// What an address asks for, from its eight 16-bit segments.
pub open spec fn decoded(s: Seq<u16>) -> PixelRequest {
    PixelRequest {
        pos: ((s[3] % 0x1000) as u16, (s[4] % 0x1000) as u16),
        color: Color { r: (s[5] % 0x100) as u8, g: (s[6] % 0x100) as u8, b: (s[7] % 0x100) as u8, a: 255 },
        size: if (s[3] / 0x2000) % 2 == 1 { 2 } else { 1 },
    }
}

/// Whether a request can be written into an address and read back.
pub open spec fn is_valid_request(req: PixelRequest) -> bool {
    &&& req.pos.0 < 0x1000
    &&& req.pos.1 < 0x1000
    &&& (req.size == 1 || req.size == 2)
    &&& req.color.a == 255
}

/// The address, below the first three segments of `prefix`, that asks for `req`.
pub open spec fn encoded(prefix: Seq<u16>, req: PixelRequest) -> Seq<u16> {
    seq![
        prefix[0],
        prefix[1],
        prefix[2],
        ((if req.size == 2 { BIG_SUBNET } else { SMALL_SUBNET }) + req.pos.0) as u16,
        req.pos.1,
        req.color.r as u16,
        req.color.g as u16,
        req.color.b as u16,
    ]
}

/// The eight big-endian 16-bit segments of sixteen address bytes.
pub open spec fn segments_of(b: Seq<u8>) -> Seq<u16> {
    Seq::new(8, |i: int| (b[2 * i] as int * 256 + b[2 * i + 1] as int) as u16)
}

impl PixelRequest {
    /// Reads the draw request out of an address given by its segments. Every
    /// address gives a request; whether the address belongs to this service is
    /// decided elsewhere.
    pub fn from_ipv6(ip: &[u16; 8]) -> (req: PixelRequest)
        ensures
            req == decoded(ip@),
    {
        let (s3, s4, s5, s6, s7) = (ip[3], ip[4], ip[5], ip[6], ip[7]);
        assert(((s3 & 0x3000u16) >> 13u16) + 1 == (if (s3 / 0x2000) % 2 == 1 { 2u16 } else { 1u16 })) by (bit_vector);
        assert(s3 & 0xfffu16 == s3 % 0x1000) by (bit_vector);
        assert(s4 & 0xfffu16 == s4 % 0x1000) by (bit_vector);
        assert(s5 & 0xffu16 == s5 % 0x100) by (bit_vector);
        assert(s6 & 0xffu16 == s6 % 0x100) by (bit_vector);
        assert(s7 & 0xffu16 == s7 % 0x100) by (bit_vector);
        // the size is bit 13 plus one, computed without a branch
        let size = (((s3 & 0x3000) >> 13) + 1) as u8;
        let x = s3 & 0xfff;
        let y = s4 & 0xfff;
        let r = (s5 & 0xff) as u8;
        let g = (s6 & 0xff) as u8;
        let b = (s7 & 0xff) as u8;
        PixelRequest { pos: (x, y), color: Color::rgb(r, g, b), size }
    }

    /// The address under the first three segments of `prefix` that asks for this request.
    pub fn to_ipv6(&self, prefix: &[u16; 8]) -> (ip: [u16; 8])
        requires
            is_valid_request(*self),
        ensures
            ip@ == encoded(prefix@, *self),
    {
        let subnet = if self.size == 2 { BIG_SUBNET } else { SMALL_SUBNET };
        let ip = [
            prefix[0],
            prefix[1],
            prefix[2],
            subnet + self.pos.0,
            self.pos.1,
            self.color.r as u16,
            self.color.g as u16,
            self.color.b as u16,
        ];
        assert(ip@ =~= encoded(prefix@, *self));
        ip
    }
}

/// Writing a valid request into an address and reading it back gives the same request.
pub proof fn lemma_decode_encoded(prefix: Seq<u16>, req: PixelRequest)
    requires
        is_valid_request(req),
    ensures
        decoded(encoded(prefix, req)) == req,
{
    let s3 = encoded(prefix, req)[3];
    let x = req.pos.0;
    if req.size == 2 {
        assert(s3 == 0x2000 + x);
        assert(((0x2000 + x) as u16) % 0x1000 == x && (((0x2000 + x) as u16) / 0x2000) % 2 == 1) by (nonlinear_arith)
            requires x < 0x1000;
    } else {
        assert(s3 == 0x1000 + x);
        assert(((0x1000 + x) as u16) % 0x1000 == x && (((0x1000 + x) as u16) / 0x2000) % 2 == 0) by (nonlinear_arith)
            requires x < 0x1000;
    }
}

/// Every address asks for some draw, and that draw is a valid request: the
/// position lies within 4096 × 4096, the size is 1 or 2, the color is opaque.
pub proof fn lemma_decoded_is_valid(s: Seq<u16>)
    ensures
        is_valid_request(decoded(s)),
{
}

/// The segments of an address given by its sixteen bytes, most significant first.
pub fn ipv6_segments(octets: &[u8; 16]) -> (s: [u16; 8])
    ensures
        s@ == segments_of(octets@),
{
    let mut s: [u16; 8] = [0; 8];
    let mut i: usize = 0;
    while i < 8
        invariant
            i <= 8,
            forall|j: int| 0 <= j < i ==> s@[j] == segments_of(octets@)[j],
        decreases 8 - i,
    {
        s[i] = (octets[2 * i] as u16) * 256 + octets[2 * i + 1] as u16;
        i += 1;
    }
    assert(s@ =~= segments_of(octets@));
    s
}

/// Each segment of `addr` with the bits of the same segment of `mask` set.
pub fn or_addr(addr: &[u16; 8], mask: &[u16; 8]) -> (r: [u16; 8])
    ensures
        forall|i: int| 0 <= i < 8 ==> r@[i] == addr@[i] | mask@[i],
{
    let mut r: [u16; 8] = [0; 8];
    let mut i: usize = 0;
    while i < 8
        invariant
            i <= 8,
            forall|j: int| 0 <= j < i ==> r@[j] == addr@[j] | mask@[j],
        decreases 8 - i,
    {
        r[i] = addr[i] | mask[i];
        i += 1;
    }
    r
}

/// The two address ranges to answer on, each of prefix length 52: the
/// single-pixel range and the 2×2 block range under the /48 `prefix48`.
pub fn subnet_prefixes(prefix48: &[u16; 8]) -> (r: ([u16; 8], [u16; 8]))
    ensures
        forall|i: int| 0 <= i < 8 && i != 3 ==> r.0@[i] == prefix48@[i] && r.1@[i] == prefix48@[i],
        r.0@[3] == prefix48@[3] | SMALL_SUBNET,
        r.1@[3] == prefix48@[3] | BIG_SUBNET,
{
    let small = or_addr(prefix48, &[0, 0, 0, SMALL_SUBNET, 0, 0, 0, 0]);
    let big = or_addr(prefix48, &[0, 0, 0, BIG_SUBNET, 0, 0, 0, 0]);
    assert forall|i: int| 0 <= i < 8 && i != 3 implies small@[i] == prefix48@[i] && big@[i] == prefix48@[i] by {
        let v = prefix48@[i];
        assert(v | 0u16 == v) by (bit_vector);
    }
    (small, big)
}

/// The raw socket a packet was received on.
#[derive(Debug, Clone, Copy, PartialEq, Eq, Structural)]
pub enum PacketKind {
    Icmpv6,
    Udp,
}

/// The destination address, as segments, of a received packet that asks for a draw.
pub open spec fn draw_target(kind: PacketKind, packet: Seq<u8>) -> Option<Seq<u16>> {
    match kind {
        PacketKind::Icmpv6 => icmp_echo_target(packet),
        PacketKind::Udp => udp_echo_target(packet),
    }
}

/// The pixels after a draw request is applied to them.
pub open spec fn applied(pixels: Map<(u32, u32), Seq<u8>>, req: PixelRequest) -> Map<(u32, u32), Seq<u8>> {
    drawn(pixels, req.pos.0 as u32, req.pos.1 as u32, req.color, req.size == 2)
}

/// The draw request of a received packet, or `None` when the packet is
/// malformed or of another kind than an echo request.
pub fn packet_request(kind: PacketKind, packet: &[u8]) -> (r: Option<PixelRequest>)
    ensures
        r is Some <==> draw_target(kind, packet@) is Some,
        r matches Some(req) ==> req == decoded(draw_target(kind, packet@)->Some_0),
{
    let target = match kind {
        PacketKind::Icmpv6 => icmp_draw_target(packet),
        PacketKind::Udp => udp_draw_target(packet),
    };
    match target {
        Some(segments) => Some(PixelRequest::from_ipv6(&segments)),
        None => None,
    }
}

/// Applies one received packet to a canvas; `true` when it asked for a draw.
/// Any other packet leaves the canvas as it was.
pub fn apply_packet(kind: PacketKind, packet: &[u8], canvas: &mut Canvas) -> (accepted: bool)
    requires
        old(canvas).wf(),
    ensures
        accepted == draw_target(kind, packet@) is Some,
        final(canvas).wf(),
        final(canvas).width() == old(canvas).width(),
        final(canvas).height() == old(canvas).height(),
        final(canvas).pixels() == match draw_target(kind, packet@) {
            Some(s) => applied(old(canvas).pixels(), decoded(s)),
            None => old(canvas).pixels(),
        },
{
    match packet_request(kind, packet) {
        Some(req) => {
            canvas.put(req.pos.0 as u32, req.pos.1 as u32, req.color, req.size == 2);
            true
        },
        None => false,
    }
}

/// Applies one received packet to the shared canvas and counts it; `true`
/// when it asked for a draw. Any other packet is dropped uncounted.
pub fn handle_packet(kind: PacketKind, packet: &[u8], image: &SharedImageHandle, counter: &PacketCounter) -> (accepted: bool)
    requires
        image.wf(),
    ensures
        accepted == draw_target(kind, packet@) is Some,
{
    match packet_request(kind, packet) {
        Some(req) => {
            image.put(req.pos.0 as u32, req.pos.1 as u32, req.color, req.size == 2);
            counter.increment();
            true
        },
        None => false,
    }
}

/// Counts accepted packets; once a second the count is taken and published as a rate.
///
/// Both integers are atomics shared by every thread that holds the counter, so
/// no method here can promise what it reads: another thread may count in
/// between. What the methods do promise is that they never block or panic.
pub struct PacketCounter {
    pps: AtomicU32,
    counter: AtomicU32,
}

impl PacketCounter {
    pub fn new() -> Arc<PacketCounter> {
        Arc::new(PacketCounter { pps: AtomicU32::new(0), counter: AtomicU32::new(0) })
    }

    /// Counts one packet, without blocking. The count wraps at `u32::MAX`.
    pub fn increment(&self) {
        self.counter.fetch_add(1, Ordering::Relaxed);
    }

    /// Takes the count, leaving zero, and keeps it as the last rate.
    pub fn reset_pps(&self) -> u32 {
        let pps = self.counter.swap(0, Ordering::Relaxed);
        self.pps.store(pps, Ordering::Relaxed);
        pps
    }

    /// The rate kept by the last `reset_pps`.
    pub fn last_pps(&self) -> u32 {
        self.pps.load(Ordering::Relaxed)
    }
}

} // verus!
