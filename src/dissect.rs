//! Dissection of a captured Ethernet frame into the IPv4 and TCP or UDP
//! header fields that flow reconstruction reads, with every length checked.
//! The acceptance rules are exactly those of `dissect_spec`: a frame is
//! judged by its EtherType, its header-length fields and its lengths; fields
//! that flow reconstruction does not use (the IPv4 version nibble, the IPv4
//! total-length field, checksums, options) are not examined.

use vstd::prelude::*;
use crate::datatype::{Ipv4Connection, TcpFlags};

verus! {

/// Length of an Ethernet II header.
pub const ETHERNET_HEADER_LEN: usize = 14;

/// EtherType of IPv4.
pub const ETHERTYPE_IPV4: u16 = 0x0800;

/// IPv4 protocol number of TCP.
pub const PROTOCOL_TCP: u8 = 6;

/// IPv4 protocol number of UDP.
pub const PROTOCOL_UDP: u8 = 17;

/// Shortest IPv4 header, and shortest TCP header.
pub const MIN_HEADER_LEN: usize = 20;

/// Length of a UDP header.
pub const UDP_HEADER_LEN: usize = 8;

/// The fields of a TCP segment that the TCP tracker reads.
#[derive(PartialEq, Eq, Structural, Clone, Copy, Debug, Hash)]
pub struct TcpPacket {
    pub sip: u32,
    pub dip: u32,
    pub sport: u16,
    pub dport: u16,
    pub flags: TcpFlags,
    /// Bytes of the frame after all its headers.
    pub payload: u64,
}

/// The fields of a UDP datagram that the UDP tracker reads.
#[derive(PartialEq, Eq, Structural, Clone, Copy, Debug, Hash)]
pub struct UdpPacket {
    pub sip: u32,
    pub dip: u32,
    pub sport: u16,
    pub dport: u16,
    /// Bytes of the frame after all its headers, or 0 if it is shorter.
    pub payload: u64,
}

impl TcpPacket {
    pub open spec fn key(self) -> Ipv4Connection {
        Ipv4Connection { sip: self.sip, dip: self.dip, sport: self.sport, dport: self.dport }
    }
}

impl UdpPacket {
    pub open spec fn key(self) -> Ipv4Connection {
        Ipv4Connection { sip: self.sip, dip: self.dip, sport: self.sport, dport: self.dport }
    }
}

/// A dissected frame.
#[derive(PartialEq, Eq, Structural, Clone, Copy, Debug, Hash)]
pub enum Packet {
    Tcp(TcpPacket),
    Udp(UdpPacket),
}

/// Why a frame was not dissected.
#[derive(PartialEq, Eq, Structural, Clone, Copy, Debug, Hash)]
pub enum Reject {
    /// Fewer bytes than an Ethernet header.
    TooShort,
    /// The EtherType is not IPv4.
    NotIpv4,
    /// The IPv4 header is cut off.
    TruncatedIpv4,
    /// The IPv4 header length field gives less than 20 bytes.
    BadIpv4HeaderLength,
    /// The IPv4 payload is neither TCP nor UDP.
    UnsupportedProtocol,
    /// The TCP header is cut off.
    TruncatedTcp,
    /// The TCP data offset gives less than 20 bytes.
    BadTcpHeaderLength,
    /// The UDP header is cut off.
    TruncatedUdp,
}

/// The big-endian 16-bit integer at `b[i]`, `b[i + 1]`.
pub open spec fn be16(b: Seq<u8>, i: int) -> u16 {
    (b[i] as int * 256 + b[i + 1] as int) as u16
}

/// The big-endian 32-bit integer at `b[i]` .. `b[i + 3]`.
pub open spec fn be32(b: Seq<u8>, i: int) -> u32 {
    (b[i] as int * 16777216 + b[i + 1] as int * 65536 + b[i + 2] as int * 256
        + b[i + 3] as int) as u32
}

/// The flags in the thirteenth byte of a TCP header.
pub open spec fn flags_of(b: u8) -> TcpFlags {
    TcpFlags {
        fin: b & 0x01 != 0,
        syn: b & 0x02 != 0,
        rst: b & 0x04 != 0,
        psh: b & 0x08 != 0,
        ack: b & 0x10 != 0,
        urg: b & 0x20 != 0,
    }
}

/// Length of the IPv4 header of frame `f`: the low nibble of its first byte,
/// times four.
pub open spec fn ipv4_header_len(f: Seq<u8>) -> int {
    (f[14] % 16) as int * 4
}

/// Length of the TCP header at `off` in frame `f`: the high nibble of its
/// thirteenth byte, times four.
pub open spec fn tcp_header_len(f: Seq<u8>, off: int) -> int {
    (f[off + 12] / 16) as int * 4
}

/// The dissection of frame `f`, whose declared length is `len`. Each layer
/// is checked in turn. The captured bytes must hold every field that is read
/// (the Ethernet header, the fixed 20 bytes of the IPv4 header, the whole TCP
/// header or the UDP header); the declared length must cover the IPv4 header and,
/// for TCP, the whole TCP header. The payload length is what the declared
/// length leaves after all headers, or 0 where it leaves nothing.
pub open spec fn dissect_spec(f: Seq<u8>, len: int) -> Result<Packet, Reject> {
    if f.len() < 14 {
        Err(Reject::TooShort)
    } else if be16(f, 12) != ETHERTYPE_IPV4 {
        Err(Reject::NotIpv4)
    } else if f.len() < 34 {
        Err(Reject::TruncatedIpv4)
    } else if ipv4_header_len(f) < 20 {
        Err(Reject::BadIpv4HeaderLength)
    } else if len < 14 + ipv4_header_len(f) {
        Err(Reject::TruncatedIpv4)
    } else {
        let off = 14 + ipv4_header_len(f);
        let sip = be32(f, 26);
        let dip = be32(f, 30);
        if f[23] == PROTOCOL_TCP {
            if f.len() < off + 20 {
                Err(Reject::TruncatedTcp)
            } else if tcp_header_len(f, off) < 20 {
                Err(Reject::BadTcpHeaderLength)
            } else if f.len() < off + tcp_header_len(f, off) {
                Err(Reject::TruncatedTcp)
            } else if len < off + tcp_header_len(f, off) {
                Err(Reject::TruncatedTcp)
            } else {
                Ok(Packet::Tcp(TcpPacket {
                    sip,
                    dip,
                    sport: be16(f, off),
                    dport: be16(f, off + 2),
                    flags: flags_of(f[off + 13]),
                    payload: (len - off - tcp_header_len(f, off)) as u64,
                }))
            }
        } else if f[23] == PROTOCOL_UDP {
            if f.len() < off + 8 {
                Err(Reject::TruncatedUdp)
            } else {
                Ok(Packet::Udp(UdpPacket {
                    sip,
                    dip,
                    sport: be16(f, off),
                    dport: be16(f, off + 2),
                    payload: if len > off + 8 { (len - off - 8) as u64 } else { 0 },
                }))
            }
        } else {
            Err(Reject::UnsupportedProtocol)
        }
    }
}

fn read_be16(b: &[u8], i: usize) -> (r: u16)
    requires
        i + 1 < b@.len(),
    ensures
        r == be16(b@, i as int),
{
    b[i] as u16 * 256 + b[i + 1] as u16
}

fn read_be32(b: &[u8], i: usize) -> (r: u32)
    requires
        i + 3 < b@.len(),
    ensures
        r == be32(b@, i as int),
{
    b[i] as u32 * 16777216 + b[i + 1] as u32 * 65536 + b[i + 2] as u32 * 256 + b[i + 3] as u32
}

/// Dissects `frame`, a captured frame whose declared length is `len`.
pub fn dissect(frame: &[u8], len: usize) -> (r: Result<Packet, Reject>)
    ensures
        r == dissect_spec(frame@, len as int),
{
    let n = frame.len();
    if n < ETHERNET_HEADER_LEN {
        return Err(Reject::TooShort);
    }
    if read_be16(frame, 12) != ETHERTYPE_IPV4 {
        return Err(Reject::NotIpv4);
    }
    if n < ETHERNET_HEADER_LEN + MIN_HEADER_LEN {
        return Err(Reject::TruncatedIpv4);
    }
    let ihl = (frame[14] % 16) as usize * 4;
    if ihl < MIN_HEADER_LEN {
        return Err(Reject::BadIpv4HeaderLength);
    }
    let off = ETHERNET_HEADER_LEN + ihl;
    if len < off {
        return Err(Reject::TruncatedIpv4);
    }
    let sip = read_be32(frame, 26);
    let dip = read_be32(frame, 30);
    let protocol = frame[23];
    if protocol == PROTOCOL_TCP {
        if n < off + MIN_HEADER_LEN {
            return Err(Reject::TruncatedTcp);
        }
        let thl = (frame[off + 12] / 16) as usize * 4;
        if thl < MIN_HEADER_LEN {
            return Err(Reject::BadTcpHeaderLength);
        }
        if n - off < thl {
            return Err(Reject::TruncatedTcp);
        }
        if len - off < thl {
            return Err(Reject::TruncatedTcp);
        }
        let b = frame[off + 13];
        let flags = TcpFlags {
            fin: b & 0x01 != 0,
            syn: b & 0x02 != 0,
            rst: b & 0x04 != 0,
            psh: b & 0x08 != 0,
            ack: b & 0x10 != 0,
            urg: b & 0x20 != 0,
        };
        Ok(Packet::Tcp(TcpPacket {
            sip,
            dip,
            sport: read_be16(frame, off),
            dport: read_be16(frame, off + 2),
            flags,
            payload: (len - off - thl) as u64,
        }))
    } else if protocol == PROTOCOL_UDP {
        if n < off + UDP_HEADER_LEN {
            return Err(Reject::TruncatedUdp);
        }
        let payload: u64 = if len - off > UDP_HEADER_LEN {
            (len - off - UDP_HEADER_LEN) as u64
        } else {
            0
        };
        Ok(Packet::Udp(UdpPacket {
            sip,
            dip,
            sport: read_be16(frame, off),
            dport: read_be16(frame, off + 2),
            payload,
        }))
    } else {
        Err(Reject::UnsupportedProtocol)
    }
}

/// Dissection reads nothing but the frame's bytes and its declared length:
/// the same bytes dissect the same way every time.
pub proof fn lemma_dissect_deterministic(f: Seq<u8>, g: Seq<u8>, len: int)
    requires
        f == g,
    ensures
        dissect_spec(f, len) == dissect_spec(g, len),
{
}

} // verus!
