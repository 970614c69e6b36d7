//! The engine: local-subnet test, timestamps, and the run over a trace that
//! hands each dissected frame to the TCP or the UDP tracker.

use vstd::prelude::*;
use crate::datatype::{Ipv4Connection, TcpDataExchange, UdpDataExchange};
use crate::dissect::{
    be16, dissect, dissect_spec, ipv4_header_len, tcp_header_len, Packet, ETHERTYPE_IPV4,
};
use crate::table::{one_orientation, FlowTable};
use crate::tcp::{lemma_tcp_monotone, lemma_tcp_step_one_orientation, tcp_flow_grows, tcp_step};
use crate::udp::{lemma_udp_monotone, lemma_udp_step_one_orientation, udp_flow_grows, udp_step};

verus! {

/// Microseconds in a second.
pub const MICROS_PER_SECOND: u64 = 1_000_000;

/// The netmask of a prefix of `prefix` bits.
pub open spec fn mask_of(prefix: u8) -> u32 {
    if prefix == 0 {
        0
    } else {
        u32::MAX << ((32 - prefix) as u32)
    }
}

/// A subnet is a network address and a prefix length of at most 32 bits.
pub open spec fn valid_subnet(subnet: (u32, u8)) -> bool {
    subnet.1 <= 32
}

/// `ip` lies in `subnet`: it agrees with the network address on the prefix.
pub open spec fn in_subnet(ip: u32, subnet: (u32, u8)) -> bool {
    ip & mask_of(subnet.1) == subnet.0 & mask_of(subnet.1)
}

/// `ip` may open a flow: there is no local subnet, or `ip` lies in it.
pub open spec fn may_open(ip: u32, local: Option<(u32, u8)>) -> bool {
    match local {
        None => true,
        Some(s) => in_subnet(ip, s),
    }
}

pub open spec fn valid_local(local: Option<(u32, u8)>) -> bool {
    match local {
        None => true,
        Some(s) => valid_subnet(s),
    }
}

fn netmask(prefix: u8) -> (r: u32)
    requires
        prefix <= 32,
    ensures
        r == mask_of(prefix),
{
    if prefix == 0 {
        0
    } else {
        let shift: u32 = (32 - prefix) as u32;
        u32::MAX << shift
    }
}

/// Whether `ip` lies in `subnet`.
pub fn is_ipv4_lan(ip: u32, subnet: (u32, u8)) -> (r: bool)
    requires
        valid_subnet(subnet),
    ensures
        r == in_subnet(ip, subnet),
{
    let mask = netmask(subnet.1);
    (ip & mask) == (subnet.0 & mask)
}

/// Whether `ip` may open a flow under the optional local subnet.
pub fn may_open_flow(ip: u32, local: Option<(u32, u8)>) -> (r: bool)
    requires
        valid_local(local),
    ensures
        r == may_open(ip, local),
{
    match local {
        None => true,
        Some(s) => is_ipv4_lan(ip, s),
    }
}

/// The subnet of `addr` with a prefix of `prefix` bits: the address with
/// its host bits cleared. None if the prefix is longer than 32 bits.
pub fn subnet_of(addr: u32, prefix: u8) -> (r: Option<(u32, u8)>)
    ensures
        r == (if prefix <= 32 {
            Some((addr & mask_of(prefix), prefix))
        } else {
            None::<(u32, u8)>
        }),
{
    if prefix > 32 {
        None
    } else {
        Some((addr & netmask(prefix), prefix))
    }
}

/// The timestamp in microseconds of `sec` seconds and `usec` microseconds,
/// if it fits in 64 bits.
pub fn timestamp_micros(sec: u64, usec: u64) -> (r: Option<u64>)
    ensures
        r == (if sec * 1_000_000 + usec <= u64::MAX {
            Some((sec * 1_000_000 + usec) as u64)
        } else {
            None::<u64>
        }),
{
    match sec.checked_mul(MICROS_PER_SECOND) {
        Some(m) => m.checked_add(usec),
        None => None,
    }
}

/// One captured frame: its timestamp in microseconds, the bytes captured,
/// and the length the frame had on the wire.
pub struct CaptureRecord {
    pub ts: u64,
    pub data: Vec<u8>,
    pub len: usize,
}

/// The TCP and the UDP flows after the frame `f` of declared length `len`,
/// seen at `now`: a rejected frame changes nothing.
pub open spec fn engine_step(
    tcp: Map<Ipv4Connection, TcpDataExchange>,
    udp: Map<Ipv4Connection, UdpDataExchange>,
    now: u64,
    f: Seq<u8>,
    len: int,
    local: Option<(u32, u8)>,
) -> (Map<Ipv4Connection, TcpDataExchange>, Map<Ipv4Connection, UdpDataExchange>) {
    match dissect_spec(f, len) {
        Ok(Packet::Tcp(p)) => (tcp_step(tcp, now, p, local), udp),
        Ok(Packet::Udp(p)) => (tcp, udp_step(udp, now, p)),
        Err(_) => (tcp, udp),
    }
}

/// The TCP and the UDP flows of a trace, from empty tables, frame by frame.
pub open spec fn trace_tables(recs: Seq<CaptureRecord>, local: Option<(u32, u8)>) -> (
    Map<Ipv4Connection, TcpDataExchange>,
    Map<Ipv4Connection, UdpDataExchange>,
)
    decreases recs.len(),
{
    if recs.len() == 0 {
        (Map::empty(), Map::empty())
    } else {
        let before = trace_tables(recs.drop_last(), local);
        let r = recs.last();
        engine_step(before.0, before.1, r.ts, r.data@, r.len as int, local)
    }
}

/// Applies the frame `frame` of declared length `len`, seen at `now`, to the
/// TCP or the UDP flows.
pub fn process_frame(
    tcp: &mut FlowTable<TcpDataExchange>,
    udp: &mut FlowTable<UdpDataExchange>,
    now: u64,
    frame: &[u8],
    len: usize,
    local: Option<(u32, u8)>,
)
    requires
        old(tcp).wf(),
        old(udp).wf(),
        valid_local(local),
    ensures
        final(tcp).wf(),
        final(udp).wf(),
        (final(tcp)@, final(udp)@) == engine_step(old(tcp)@, old(udp)@, now, frame@, len as int, local),
        one_orientation(old(tcp)@) ==> one_orientation(final(tcp)@),
        one_orientation(old(udp)@) ==> one_orientation(final(udp)@),
{
    match dissect(frame, len) {
        Ok(Packet::Tcp(p)) => crate::tcp::process_packet(tcp, now, &p, local),
        Ok(Packet::Udp(p)) => crate::udp::process_packet(udp, now, &p),
        Err(_) => {},
    }
}

/// No frame puts a flow in a table under both orientations of its key.
pub proof fn lemma_engine_step_one_orientation(
    tcp: Map<Ipv4Connection, TcpDataExchange>,
    udp: Map<Ipv4Connection, UdpDataExchange>,
    now: u64,
    f: Seq<u8>,
    len: int,
    local: Option<(u32, u8)>,
)
    requires
        one_orientation(tcp),
        one_orientation(udp),
    ensures
        one_orientation(engine_step(tcp, udp, now, f, len, local).0),
        one_orientation(engine_step(tcp, udp, now, f, len, local).1),
{
    match dissect_spec(f, len) {
        Ok(Packet::Tcp(p)) => lemma_tcp_step_one_orientation(tcp, now, p, local),
        Ok(Packet::Udp(p)) => lemma_udp_step_one_orientation(udp, now, p),
        Err(_) => {},
    }
}

/// The frame holds an IPv4 header that names TCP or UDP, but too few bytes
/// follow the IPv4 header for the TCP header (its fixed 20 bytes, or the
/// length its data offset gives) or for the UDP header.
pub open spec fn l4_truncated(f: Seq<u8>) -> bool {
    let off = 14 + ipv4_header_len(f);
    &&& f.len() >= 24
    &&& {
        ||| f[23] == 6 && f.len() < off + 20
        ||| f[23] == 6 && f.len() >= off + 20 && f.len() < off + tcp_header_len(f, off)
        ||| f[23] == 17 && f.len() < off + 8
    }
}

/// A frame shorter than an Ethernet header, one whose EtherType is not IPv4,
/// and one whose TCP or UDP header is cut off are rejected, and a rejected
/// frame leaves both tables as they were.
pub proof fn lemma_rejected_frame_changes_nothing(
    tcp: Map<Ipv4Connection, TcpDataExchange>,
    udp: Map<Ipv4Connection, UdpDataExchange>,
    now: u64,
    f: Seq<u8>,
    len: int,
    local: Option<(u32, u8)>,
)
    requires
        f.len() < 14 || be16(f, 12) != ETHERTYPE_IPV4 || l4_truncated(f) || dissect_spec(
            f,
            len,
        ) is Err,
    ensures
        dissect_spec(f, len) is Err,
        engine_step(tcp, udp, now, f, len, local) == (tcp, udp),
{
}

/// Key symmetry over a run: after any trace, no flow of either table is
/// held under both orientations of its key, so traffic in both directions
/// of a flow meets in one entry.
pub proof fn lemma_trace_one_orientation(recs: Seq<CaptureRecord>, local: Option<(u32, u8)>)
    ensures
        one_orientation(trace_tables(recs, local).0),
        one_orientation(trace_tables(recs, local).1),
    decreases recs.len(),
{
    if recs.len() > 0 {
        let before = recs.drop_last();
        lemma_trace_one_orientation(before, local);
        let t = trace_tables(before, local);
        let r = recs.last();
        lemma_engine_step_one_orientation(t.0, t.1, r.ts, r.data@, r.len as int, local);
    }
}

/// Every flow of `a` is in `b`, none of its counters lower, its first-seen
/// and closing timestamps, once set, the same.
pub open spec fn tables_grow(
    a: (Map<Ipv4Connection, TcpDataExchange>, Map<Ipv4Connection, UdpDataExchange>),
    b: (Map<Ipv4Connection, TcpDataExchange>, Map<Ipv4Connection, UdpDataExchange>),
) -> bool {
    &&& forall|k: Ipv4Connection|
        #[trigger] a.0.contains_key(k) ==> b.0.contains_key(k) && tcp_flow_grows(a.0[k], b.0[k])
    &&& forall|k: Ipv4Connection|
        #[trigger] a.1.contains_key(k) ==> b.1.contains_key(k) && udp_flow_grows(a.1[k], b.1[k])
}

/// Monotonicity over a run: the flows after the first `n` frames of a trace
/// are all there at its end, with no counter lower and no first-seen or
/// closing timestamp changed once set.
pub proof fn lemma_trace_monotone(recs: Seq<CaptureRecord>, n: int, local: Option<(u32, u8)>)
    requires
        0 <= n <= recs.len(),
    ensures
        tables_grow(trace_tables(recs.subrange(0, n), local), trace_tables(recs, local)),
    decreases recs.len(),
{
    if n == recs.len() {
        assert(recs.subrange(0, n) =~= recs);
    } else {
        let before = recs.drop_last();
        lemma_trace_monotone(before, n, local);
        assert(before.subrange(0, n) =~= recs.subrange(0, n));
        let t = trace_tables(before, local);
        let r = recs.last();
        match dissect_spec(r.data@, r.len as int) {
            Ok(Packet::Tcp(p)) => lemma_tcp_monotone(t.0, r.ts, p, local),
            Ok(Packet::Udp(p)) => lemma_udp_monotone(t.1, r.ts, p),
            Err(_) => {},
        }
    }
}

/// Reconstructs the TCP and the UDP flows of a trace, frame by frame in the
/// order given; `local` is the subnet whose hosts may open TCP flows, if
/// there is one.
pub fn process_trace(records: &Vec<CaptureRecord>, local: Option<(u32, u8)>) -> (r: (
    FlowTable<TcpDataExchange>,
    FlowTable<UdpDataExchange>,
))
    requires
        valid_local(local),
    ensures
        r.0.wf(),
        r.1.wf(),
        (r.0@, r.1@) == trace_tables(records@, local),
        one_orientation(r.0@),
        one_orientation(r.1@),
{
    let mut tcp: FlowTable<TcpDataExchange> = FlowTable::new();
    let mut udp: FlowTable<UdpDataExchange> = FlowTable::new();
    let mut i: usize = 0;
    proof {
        assert(records@.subrange(0, 0).len() == 0);
    }
    while i < records.len()
        invariant
            i <= records@.len(),
            tcp.wf(),
            udp.wf(),
            valid_local(local),
            (tcp@, udp@) == trace_tables(records@.subrange(0, i as int), local),
            one_orientation(tcp@),
            one_orientation(udp@),
        decreases records@.len() - i,
    {
        let rec = &records[i];
        proof {
            lemma_engine_step_one_orientation(tcp@, udp@, rec.ts, rec.data@, rec.len as int, local);
            assert(records@.subrange(0, i + 1).drop_last() =~= records@.subrange(0, i as int));
        }
        process_frame(&mut tcp, &mut udp, rec.ts, rec.data.as_slice(), rec.len, local);
        i = i + 1;
    }
    proof {
        assert(records@.subrange(0, i as int) =~= records@);
    }
    (tcp, udp)
}

} // verus!
