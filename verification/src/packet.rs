//! The kernel-side packet classifier: a bounds-checked accessor over the raw
//! frame bytes and a three-stage decision chain (Ethernet -> IPv4 -> TCP) that
//! ends in one of three dispositions.
//!
//! The classifier is a pure function of the frame bytes and the fixed
//! blocklist: it performs a constant number of fixed-offset reads, each one
//! proved in bounds before the byte is touched, and never loops over packet
//! content.

use vstd::prelude::*;

verus! {

/// Width in bytes of the Ethernet header.
pub const ETH_HDR_LEN: usize = 14;

/// Offset of the 2-byte Ethernet type field within the Ethernet header.
pub const ETH_TYPE_OFFSET: usize = 12;

/// Ethernet type value that announces an IPv4 payload.
pub const ETH_P_IP: u16 = 0x0800;

/// Width in bytes of a minimum-length IPv4 header. The classifier assumes no
/// IP options are present; a packet that carries options is read at the wrong
/// offset on purpose, a simplification inherited from the wire-format model.
pub const IPV4_HDR_LEN: usize = 20;

/// Offset of the 1-byte protocol field within the IPv4 header.
pub const IPV4_PROTOCOL_OFFSET: usize = 9;

/// IPv4 protocol number of TCP.
pub const IP_PROTO_TCP: u16 = 6;

/// Offset of the 2-byte destination-port field within the TCP header.
pub const TCP_DEST_PORT_OFFSET: usize = 2;

/// Failure of a bounds-checked read: the requested field does not lie within
/// the received bytes.
#[derive(Clone, Copy, Debug, PartialEq, Eq, Structural)]
pub struct OutOfBounds;

/// The three-way outcome of classifying one frame.
#[derive(Clone, Copy, Debug, PartialEq, Eq, Structural)]
pub enum Disposition {
    /// Let the frame continue up the network stack.
    Pass,
    /// Discard the frame: its destination port is on the blocklist.
    Drop,
    /// Discard the frame because a header field could not be read in bounds.
    RejectMalformed,
}

/// The big-endian value of the `width`-byte field at `offset`, for the two
/// field widths that occur in the headers read here.
pub open spec fn spec_read_at(frame: Seq<u8>, offset: int, width: int) -> int
    recommends
        width == 1 || width == 2,
        0 <= offset,
        offset + width <= frame.len(),
{
    if width == 1 {
        frame[offset] as int
    } else {
        frame[offset] * 256 + frame[offset + 1]
    }
}

/// The bounds-checked accessor: the single choke point through which every
/// untrusted packet byte passes. Returns the big-endian value of the
/// `width`-byte field at `offset` only if the whole field lies within the
/// frame; the read is never performed before the bound is established.
pub fn read_at(frame: &Vec<u8>, offset: usize, width: usize) -> (r: Result<u16, OutOfBounds>)
    requires
        width == 1 || width == 2,
    ensures
        r is Ok <==> offset + width <= frame@.len(),
        r is Ok ==> r->Ok_0 as int == spec_read_at(frame@, offset as int, width as int),
{
    if frame.len() < width || offset > frame.len() - width {
        return Err(OutOfBounds);
    }
    let high = frame[offset];
    if width == 1 {
        Ok(high as u16)
    } else {
        let low = frame[offset + 1];
        Ok((high as u16) * 256 + (low as u16))
    }
}

/// Whether `port` is one of the fixed destination ports of legacy cleartext
/// protocols that the firewall drops.
pub open spec fn spec_blocked_port(port: int) -> bool {
    ||| port == 20
    ||| port == 21
    ||| port == 23
    ||| port == 25
    ||| port == 70
    ||| port == 80
    ||| port == 110
    ||| port == 139
    ||| port == 143
    ||| port == 161
    ||| port == 162
    ||| port == 445
    ||| port == 1521
}

/// Membership test in the fixed blocklist of insecure destination ports.
pub fn is_blocked_port(port: u16) -> (r: bool)
    ensures
        r == spec_blocked_port(port as int),
{
    port == 20 || port == 21 || port == 23 || port == 25 || port == 70 || port == 80
        || port == 110 || port == 139 || port == 143 || port == 161 || port == 162
        || port == 445 || port == 1521
}

/// The disposition of one frame: the decision chain over the Ethernet type
/// field, the IPv4 protocol field, and the TCP destination port, where any
/// out-of-bounds field read ends the chain with `RejectMalformed`.
pub open spec fn spec_classify(frame: Seq<u8>) -> Disposition {
    if frame.len() < ETH_TYPE_OFFSET + 2 {
        Disposition::RejectMalformed
    } else if spec_read_at(frame, ETH_TYPE_OFFSET as int, 2) != ETH_P_IP {
        Disposition::Pass
    } else if frame.len() < ETH_HDR_LEN + IPV4_PROTOCOL_OFFSET + 1 {
        Disposition::RejectMalformed
    } else if spec_read_at(frame, (ETH_HDR_LEN + IPV4_PROTOCOL_OFFSET) as int, 1) != IP_PROTO_TCP {
        Disposition::Pass
    } else if frame.len() < ETH_HDR_LEN + IPV4_HDR_LEN + TCP_DEST_PORT_OFFSET + 2 {
        Disposition::RejectMalformed
    } else if spec_blocked_port(
        spec_read_at(frame, (ETH_HDR_LEN + IPV4_HDR_LEN + TCP_DEST_PORT_OFFSET) as int, 2),
    ) {
        Disposition::Drop
    } else {
        Disposition::Pass
    }
}

/// Classifies one received frame. Pure in the frame bytes: no I/O, no
/// allocation, a constant number of bounds-checked reads.
pub fn classify(frame: &Vec<u8>) -> (r: Disposition)
    ensures
        r == spec_classify(frame@),
{
    let ethertype = match read_at(frame, ETH_TYPE_OFFSET, 2) {
        Ok(v) => v,
        Err(_) => {
            return Disposition::RejectMalformed;
        },
    };
    if ethertype != ETH_P_IP {
        return Disposition::Pass;
    }
    let protocol = match read_at(frame, ETH_HDR_LEN + IPV4_PROTOCOL_OFFSET, 1) {
        Ok(v) => v,
        Err(_) => {
            return Disposition::RejectMalformed;
        },
    };
    if protocol != IP_PROTO_TCP {
        return Disposition::Pass;
    }
    let dest_port = match read_at(frame, ETH_HDR_LEN + IPV4_HDR_LEN + TCP_DEST_PORT_OFFSET, 2) {
        Ok(v) => v,
        Err(_) => {
            return Disposition::RejectMalformed;
        },
    };
    if is_blocked_port(dest_port) {
        Disposition::Drop
    } else {
        Disposition::Pass
    }
}

/// A frame too short to hold even the Ethernet type field is rejected as
/// malformed, never passed and never dropped.
pub proof fn lemma_truncated_frame_rejected(frame: Seq<u8>)
    requires
        frame.len() < ETH_TYPE_OFFSET + 2,
    ensures
        spec_classify(frame) == Disposition::RejectMalformed,
{
}

/// A frame that announces IPv4 but is too short to hold the IPv4 protocol
/// field is rejected as malformed.
pub proof fn lemma_truncated_ipv4_rejected(frame: Seq<u8>)
    requires
        frame.len() >= ETH_TYPE_OFFSET + 2,
        spec_read_at(frame, ETH_TYPE_OFFSET as int, 2) == ETH_P_IP,
        frame.len() < ETH_HDR_LEN + IPV4_PROTOCOL_OFFSET + 1,
    ensures
        spec_classify(frame) == Disposition::RejectMalformed,
{
}

/// A frame that announces IPv4 and TCP but is too short to hold the TCP
/// destination-port field is rejected as malformed.
pub proof fn lemma_truncated_tcp_rejected(frame: Seq<u8>)
    requires
        frame.len() >= ETH_HDR_LEN + IPV4_PROTOCOL_OFFSET + 1,
        spec_read_at(frame, ETH_TYPE_OFFSET as int, 2) == ETH_P_IP,
        spec_read_at(frame, (ETH_HDR_LEN + IPV4_PROTOCOL_OFFSET) as int, 1) == IP_PROTO_TCP,
        frame.len() < ETH_HDR_LEN + IPV4_HDR_LEN + TCP_DEST_PORT_OFFSET + 2,
    ensures
        spec_classify(frame) == Disposition::RejectMalformed,
{
}

/// Every well-formed frame that is not IPv4 passes, whatever its payload.
pub proof fn lemma_non_ipv4_passes(frame: Seq<u8>)
    requires
        frame.len() >= ETH_TYPE_OFFSET + 2,
        spec_read_at(frame, ETH_TYPE_OFFSET as int, 2) != ETH_P_IP,
    ensures
        spec_classify(frame) == Disposition::Pass,
{
}

/// Every well-formed IPv4 frame whose protocol is not TCP passes.
pub proof fn lemma_non_tcp_passes(frame: Seq<u8>)
    requires
        frame.len() >= ETH_HDR_LEN + IPV4_PROTOCOL_OFFSET + 1,
        spec_read_at(frame, ETH_TYPE_OFFSET as int, 2) == ETH_P_IP,
        spec_read_at(frame, (ETH_HDR_LEN + IPV4_PROTOCOL_OFFSET) as int, 1) != IP_PROTO_TCP,
    ensures
        spec_classify(frame) == Disposition::Pass,
{
}

/// Every well-formed IPv4/TCP frame is dropped exactly when its destination
/// port is on the blocklist, and passes otherwise.
pub proof fn lemma_tcp_blocklist_decides(frame: Seq<u8>)
    requires
        frame.len() >= ETH_HDR_LEN + IPV4_HDR_LEN + TCP_DEST_PORT_OFFSET + 2,
        spec_read_at(frame, ETH_TYPE_OFFSET as int, 2) == ETH_P_IP,
        spec_read_at(frame, (ETH_HDR_LEN + IPV4_PROTOCOL_OFFSET) as int, 1) == IP_PROTO_TCP,
    ensures
        spec_classify(frame) == Disposition::Drop <==> spec_blocked_port(
            spec_read_at(frame, (ETH_HDR_LEN + IPV4_HDR_LEN + TCP_DEST_PORT_OFFSET) as int, 2),
        ),
        spec_classify(frame) == Disposition::Pass <==> !spec_blocked_port(
            spec_read_at(frame, (ETH_HDR_LEN + IPV4_HDR_LEN + TCP_DEST_PORT_OFFSET) as int, 2),
        ),
{
}

} // verus!
