//! The TCP flow tracker: opens a flow on a SYN without ACK, marks the
//! answering side's start on its SYN+ACK, stamps a side's closing time with
//! each FIN or RST it sends, and counts every packet of a known flow on the side that
//! sent it.

use vstd::prelude::*;
use crate::datatype::{Ipv4Connection, TcpDataExchange, TcpFlowMetrics};
use crate::dissect::TcpPacket;
use crate::parser::{may_open, may_open_flow, valid_local};
use crate::table::{one_orientation, FlowTable};

verus! {

/// The key of a flow.
pub type Connection = Ipv4Connection;

/// The record kept per TCP flow.
pub type Metrics = TcpDataExchange;

/// A side's statistics after it sent `p` at `now`. The answering side takes
/// its first-seen timestamp from its SYN+ACK, while unset; either side takes
/// its closing timestamp from each FIN or RST it sends; then the packet is
/// counted.
pub open spec fn side_after(s: TcpFlowMetrics, now: u64, p: TcpPacket, answering: bool) -> TcpFlowMetrics {
    let opened = if answering && p.flags.syn && p.flags.ack && s.ts == 0 {
        TcpFlowMetrics { ts: now, ..s }
    } else {
        s
    };
    let closed = if p.flags.fin || p.flags.rst {
        TcpFlowMetrics { te: now, ..opened }
    } else {
        opened
    };
    closed.counted(now, p.payload, p.flags)
}

/// `p` opens a new flow in `m`: it has SYN without ACK, neither its key nor
/// the reversed key is held, and its source may open flows.
pub open spec fn opens_flow(
    m: Map<Ipv4Connection, TcpDataExchange>,
    p: TcpPacket,
    local: Option<(u32, u8)>,
) -> bool {
    &&& p.flags.syn
    &&& !p.flags.ack
    &&& !m.contains_key(p.key())
    &&& !m.contains_key(p.key().reversed())
    &&& may_open(p.sip, local)
}

/// A flow opened at `now`, before its first packet is counted.
pub open spec fn opened_at(now: u64) -> TcpDataExchange {
    TcpDataExchange {
        sender: TcpFlowMetrics { ts: now, ..TcpFlowMetrics::empty() },
        receiver: TcpFlowMetrics::empty(),
    }
}

/// The TCP flows after packet `p` seen at `now`.
pub open spec fn tcp_step(
    m: Map<Ipv4Connection, TcpDataExchange>,
    now: u64,
    p: TcpPacket,
    local: Option<(u32, u8)>,
) -> Map<Ipv4Connection, TcpDataExchange> {
    let k = p.key();
    let r = k.reversed();
    let m1 = if opens_flow(m, p, local) {
        m.insert(k, opened_at(now))
    } else {
        m
    };
    let m2 = if m1.contains_key(k) {
        m1.insert(k, TcpDataExchange { sender: side_after(m1[k].sender, now, p, false), ..m1[k] })
    } else {
        m1
    };
    if m2.contains_key(r) {
        m2.insert(r, TcpDataExchange { receiver: side_after(m2[r].receiver, now, p, true), ..m2[r] })
    } else {
        m2
    }
}

fn mark_and_count(s: &mut TcpFlowMetrics, now: u64, p: &TcpPacket, answering: bool)
    ensures
        *final(s) == side_after(*old(s), now, *p, answering),
{
    if answering && p.flags.syn && p.flags.ack && s.ts == 0 {
        s.set_ts(now);
    }
    if p.flags.fin || p.flags.rst {
        s.set_te(now);
    }
    s.apply(now, p.payload, p.flags);
}

/// Applies TCP packet `p`, seen at `now`, to the flows in `table`; `local`
/// is the subnet whose hosts may open flows, if there is one.
pub fn process_packet(
    table: &mut FlowTable<TcpDataExchange>,
    now: u64,
    p: &TcpPacket,
    local: Option<(u32, u8)>,
)
    requires
        old(table).wf(),
        valid_local(local),
    ensures
        final(table).wf(),
        final(table)@ == tcp_step(old(table)@, now, *p, local),
        one_orientation(old(table)@) ==> one_orientation(final(table)@),
{
    proof {
        if one_orientation(table@) {
            lemma_tcp_step_one_orientation(table@, now, *p, local);
        }
    }
    let k = Ipv4Connection::new(p.sip, p.dip, p.sport, p.dport);
    let r = Ipv4Connection::rev(p.sip, p.dip, p.sport, p.dport);
    if p.flags.syn && !p.flags.ack && table.find(&k).is_none() && table.find(&r).is_none()
        && may_open_flow(p.sip, local) {
        let mut flow = TcpDataExchange::new();
        flow.get_sender().set_ts(now);
        table.insert(k, flow);
    }
    if let Some(i) = table.find(&k) {
        let mut flow = *table.record_at(i);
        mark_and_count(flow.get_sender(), now, p, false);
        table.set_at(i, flow);
    }
    if let Some(i) = table.find(&r) {
        let mut flow = *table.record_at(i);
        mark_and_count(flow.get_receiver(), now, p, true);
        table.set_at(i, flow);
    }
}

/// No counter of `b` is below that of `a`, and a first-seen timestamp that
/// is set in `a` is the same in `b`.
pub open spec fn tcp_side_grows(a: TcpFlowMetrics, b: TcpFlowMetrics) -> bool {
    &&& a.packs <= b.packs
    &&& a.bytes <= b.bytes
    &&& a.packs_data <= b.packs_data
    &&& a.packs_ack <= b.packs_ack
    &&& a.packs_syn <= b.packs_syn
    &&& a.packs_rst <= b.packs_rst
    &&& a.packs_fin <= b.packs_fin
    &&& a.packs_urg <= b.packs_urg
    &&& a.packs_psh <= b.packs_psh
    &&& a.ts != 0 ==> b.ts == a.ts
}

/// The closing timestamp of `b` is that of `a`, or `now`.
pub open spec fn tcp_close_kept_or_now(a: TcpFlowMetrics, b: TcpFlowMetrics, now: u64) -> bool {
    b.te == a.te || b.te == now
}

pub open spec fn tcp_flow_grows(a: TcpDataExchange, b: TcpDataExchange) -> bool {
    tcp_side_grows(a.sender, b.sender) && tcp_side_grows(a.receiver, b.receiver)
}

/// A packet opens at most its own key, and only where neither that key nor
/// its reversal was held; so no flow comes to be held in both orientations.
pub proof fn lemma_tcp_step_one_orientation(
    m: Map<Ipv4Connection, TcpDataExchange>,
    now: u64,
    p: TcpPacket,
    local: Option<(u32, u8)>,
)
    requires
        one_orientation(m),
    ensures
        one_orientation(tcp_step(m, now, p, local)),
        tcp_step(m, now, p, local).dom() == (if opens_flow(m, p, local) {
            m.dom().insert(p.key())
        } else {
            m.dom()
        }),
{
    let m3 = tcp_step(m, now, p, local);
    let d = if opens_flow(m, p, local) {
        m.dom().insert(p.key())
    } else {
        m.dom()
    };
    assert(m3.dom() =~= d);
    assert forall|k: Ipv4Connection|
        #![trigger m3.contains_key(k.reversed())]
        m3.contains_key(k) && m3.contains_key(k.reversed()) implies k.reversed() == k by {
        if !m.contains_key(k) || !m.contains_key(k.reversed()) {
            assert(opens_flow(m, p, local));
            assert(k.reversed().reversed() == k);
        }
    }
}

/// Every flow stays in the table, none of its counters decreases, and a
/// first-seen timestamp, once set, does not change. A closing timestamp
/// changes only to the packet's own timestamp, so on a trace in timestamp
/// order it never decreases and, once set, never returns to 0.
pub proof fn lemma_tcp_monotone(
    m: Map<Ipv4Connection, TcpDataExchange>,
    now: u64,
    p: TcpPacket,
    local: Option<(u32, u8)>,
)
    ensures
        forall|k: Ipv4Connection|
            #[trigger] m.contains_key(k) ==> tcp_step(m, now, p, local).contains_key(k)
                && tcp_flow_grows(m[k], tcp_step(m, now, p, local)[k])
                && tcp_close_kept_or_now(m[k].sender, tcp_step(m, now, p, local)[k].sender, now)
                && tcp_close_kept_or_now(m[k].receiver, tcp_step(m, now, p, local)[k].receiver, now),
{
}

/// Traffic in both directions of a flow meets in one entry: once a packet
/// from A to B has left a flow under its key, a packet from B to A adds no
/// entry and is counted on the answering side of that flow.
pub proof fn lemma_tcp_key_symmetry(
    m: Map<Ipv4Connection, TcpDataExchange>,
    t1: u64,
    p: TcpPacket,
    t2: u64,
    q: TcpPacket,
    local: Option<(u32, u8)>,
)
    requires
        one_orientation(m),
        q.key() == p.key().reversed(),
        tcp_step(m, t1, p, local).contains_key(p.key()),
    ensures
        ({
            let m1 = tcp_step(m, t1, p, local);
            let m2 = tcp_step(m1, t2, q, local);
            &&& m2.dom() == m1.dom()
            &&& one_orientation(m2)
            &&& q.key() != p.key() ==> {
                &&& !m2.contains_key(q.key())
                &&& m2[p.key()] == (TcpDataExchange {
                    receiver: side_after(m1[p.key()].receiver, t2, q, true),
                    ..m1[p.key()]
                })
            }
        }),
{
    let m1 = tcp_step(m, t1, p, local);
    lemma_tcp_step_one_orientation(m, t1, p, local);
    assert(q.key().reversed() == p.key());
    lemma_tcp_step_one_orientation(m1, t2, q, local);
    if q.key() != p.key() {
        assert(!m1.contains_key(q.key()));
    }
}

} // verus!
