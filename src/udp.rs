//! The UDP flow tracker. A datagram whose key and reversed key are both
//! unknown opens a flow under its own key: the side seen first is the
//! sender. Later datagrams are counted on the side that sent them. After
//! each datagram, every open side that has carried traffic and has been idle
//! for longer than the timeout is closed.

use vstd::prelude::*;
use crate::datatype::{Ipv4Connection, UdpDataExchange, UdpFlowMetrics};
use crate::dissect::UdpPacket;
use crate::table::{one_orientation, FlowTable};

verus! {

/// The key of a flow.
pub type Connection = Ipv4Connection;

/// The record kept per UDP flow.
pub type Metrics = UdpDataExchange;

/// Idle time, in microseconds, after which a side is closed.
pub const IDLE_TIMEOUT: u64 = 30_000_000;

/// The UDP flows after datagram `p`, seen at `now`, is counted, before the
/// idle sweep.
pub open spec fn udp_record(
    m: Map<Ipv4Connection, UdpDataExchange>,
    now: u64,
    p: UdpPacket,
) -> Map<Ipv4Connection, UdpDataExchange> {
    let k = p.key();
    let r = k.reversed();
    if m.contains_key(k) {
        m.insert(k, UdpDataExchange { sender: m[k].sender.counted(now, p.payload), ..m[k] })
    } else if m.contains_key(r) {
        m.insert(r, UdpDataExchange { receiver: m[r].receiver.counted(now, p.payload), ..m[r] })
    } else {
        m.insert(
            k,
            UdpDataExchange {
                sender: UdpFlowMetrics::empty().counted(now, p.payload),
                receiver: UdpFlowMetrics::empty(),
            },
        )
    }
}

/// Side `s` is open, has carried traffic, and at `now` has been idle for
/// longer than the timeout. A side that has carried nothing has nothing to
/// time out: closing it would put its closing time before its first
/// datagram.
pub open spec fn idle_expired(s: UdpFlowMetrics, now: u64) -> bool {
    s.te == 0 && s.packs > 0 && now > s.last_pack + IDLE_TIMEOUT
}

pub open spec fn swept_side(s: UdpFlowMetrics, now: u64) -> UdpFlowMetrics {
    if idle_expired(s, now) {
        UdpFlowMetrics { te: now, ..s }
    } else {
        s
    }
}

pub open spec fn swept(d: UdpDataExchange, now: u64) -> UdpDataExchange {
    UdpDataExchange { sender: swept_side(d.sender, now), receiver: swept_side(d.receiver, now) }
}

/// The UDP flows after datagram `p` seen at `now`: it is counted, then
/// every flow is swept for idle sides.
pub open spec fn udp_step(
    m: Map<Ipv4Connection, UdpDataExchange>,
    now: u64,
    p: UdpPacket,
) -> Map<Ipv4Connection, UdpDataExchange> {
    udp_record(m, now, p).map_values(|d: UdpDataExchange| swept(d, now))
}

fn close_if_idle(s: &mut UdpFlowMetrics, now: u64)
    ensures
        *final(s) == swept_side(*old(s), now),
{
    let last = s.get_last_pack();
    if s.get_te() == 0 && s.packs > 0 && now > last && now - last > IDLE_TIMEOUT {
        s.set_te(now);
    }
}

/// Applies UDP datagram `p`, seen at `now`, to the flows in `table`.
pub fn process_packet(table: &mut FlowTable<UdpDataExchange>, now: u64, p: &UdpPacket)
    requires
        old(table).wf(),
    ensures
        final(table).wf(),
        final(table)@ == udp_step(old(table)@, now, *p),
        one_orientation(old(table)@) ==> one_orientation(final(table)@),
{
    proof {
        if one_orientation(table@) {
            lemma_udp_step_one_orientation(table@, now, *p);
        }
    }
    let k = Ipv4Connection::new(p.sip, p.dip, p.sport, p.dport);
    let r = Ipv4Connection::rev(p.sip, p.dip, p.sport, p.dport);
    if let Some(i) = table.find(&k) {
        let mut flow = *table.record_at(i);
        flow.get_sender().apply(now, p.payload);
        table.set_at(i, flow);
    } else if let Some(i) = table.find(&r) {
        let mut flow = *table.record_at(i);
        flow.get_receiver().apply(now, p.payload);
        table.set_at(i, flow);
    } else {
        let mut flow = UdpDataExchange::new();
        flow.get_sender().apply(now, p.payload);
        table.insert(k, flow);
    }
    let ghost recorded = table@;
    let ghost order = table.order();
    let n = table.len();
    let mut i: usize = 0;
    while i < n
        invariant
            table.wf(),
            table.order() == order,
            n == order.len(),
            i <= n,
            table@.dom() == recorded.dom(),
            forall|j: int| 0 <= j < i ==> #[trigger] table@[order[j]] == swept(recorded[order[j]], now),
            forall|j: int| i <= j < n ==> #[trigger] table@[order[j]] == recorded[order[j]],
        decreases n - i,
    {
        proof {
            table.lemma_order();
            assert(order.contains(order[i as int]));
            assert(recorded.contains_key(order[i as int]));
        }
        let mut flow = *table.record_at(i);
        close_if_idle(flow.get_sender(), now);
        close_if_idle(flow.get_receiver(), now);
        table.set_at(i, flow);
        proof {
            assert(table@.dom() =~= recorded.dom());
        }
        i = i + 1;
    }
    proof {
        table.lemma_order();
        let swept_all = recorded.map_values(|d: UdpDataExchange| swept(d, now));
        assert forall|k2: Ipv4Connection| #[trigger] table@.contains_key(k2) implies table@[k2] == swept_all[k2] by {
            assert(order.contains(k2));
            let j = choose|j: int| 0 <= j < order.len() && order[j] == k2;
            assert(table@[order[j]] == swept(recorded[order[j]], now));
        }
        assert(table@ =~= swept_all);
    }
}

/// No counter of `b` is below that of `a`, and a first-seen or closing
/// timestamp that is set in `a` is the same in `b`.
pub open spec fn udp_side_grows(a: UdpFlowMetrics, b: UdpFlowMetrics) -> bool {
    &&& a.packs <= b.packs
    &&& a.bytes <= b.bytes
    &&& a.packs_data <= b.packs_data
    &&& a.ts != 0 ==> b.ts == a.ts
    &&& a.te != 0 ==> b.te == a.te
}

pub open spec fn udp_flow_grows(a: UdpDataExchange, b: UdpDataExchange) -> bool {
    udp_side_grows(a.sender, b.sender) && udp_side_grows(a.receiver, b.receiver)
}

/// A datagram opens a flow only under its own key, and only where neither
/// that key nor its reversal was held; so no flow comes to be held in both
/// orientations.
pub proof fn lemma_udp_step_one_orientation(
    m: Map<Ipv4Connection, UdpDataExchange>,
    now: u64,
    p: UdpPacket,
)
    requires
        one_orientation(m),
    ensures
        one_orientation(udp_step(m, now, p)),
        udp_step(m, now, p).dom() == (if !m.contains_key(p.key()) && !m.contains_key(
            p.key().reversed(),
        ) {
            m.dom().insert(p.key())
        } else {
            m.dom()
        }),
{
    let m2 = udp_step(m, now, p);
    let d = if !m.contains_key(p.key()) && !m.contains_key(p.key().reversed()) {
        m.dom().insert(p.key())
    } else {
        m.dom()
    };
    assert(m2.dom() =~= d);
    assert forall|k: Ipv4Connection|
        #![trigger m2.contains_key(k.reversed())]
        m2.contains_key(k) && m2.contains_key(k.reversed()) implies k.reversed() == k by {
        assert(k.reversed().reversed() == k);
    }
}

/// Every flow stays in the table, none of its counters decreases, and a
/// first-seen or closing timestamp, once set, does not change.
pub proof fn lemma_udp_monotone(m: Map<Ipv4Connection, UdpDataExchange>, now: u64, p: UdpPacket)
    ensures
        forall|k: Ipv4Connection|
            #[trigger] m.contains_key(k) ==> udp_step(m, now, p).contains_key(k)
                && udp_flow_grows(m[k], udp_step(m, now, p)[k]),
{
    let m1 = udp_record(m, now, p);
    assert forall|k: Ipv4Connection| #[trigger] m.contains_key(k) implies udp_step(m, now, p).contains_key(k)
        && udp_flow_grows(m[k], udp_step(m, now, p)[k]) by {
        assert(m1.contains_key(k));
        assert(udp_flow_grows(m[k], m1[k]));
    }
}

/// Traffic in both directions of a flow meets in one entry: once a datagram
/// from A to B has left a flow under its key, a datagram from B to A adds
/// no entry and is counted on the other side of that flow.
pub proof fn lemma_udp_key_symmetry(
    m: Map<Ipv4Connection, UdpDataExchange>,
    t1: u64,
    p: UdpPacket,
    t2: u64,
    q: UdpPacket,
)
    requires
        one_orientation(m),
        q.key() == p.key().reversed(),
        udp_step(m, t1, p).contains_key(p.key()),
    ensures
        ({
            let m1 = udp_step(m, t1, p);
            let m2 = udp_step(m1, t2, q);
            &&& m2.dom() == m1.dom()
            &&& one_orientation(m2)
            &&& q.key() != p.key() ==> {
                &&& !m2.contains_key(q.key())
                &&& m2[p.key()] == swept(
                    UdpDataExchange {
                        receiver: m1[p.key()].receiver.counted(t2, q.payload),
                        ..m1[p.key()]
                    },
                    t2,
                )
            }
        }),
{
    let m1 = udp_step(m, t1, p);
    lemma_udp_step_one_orientation(m, t1, p);
    assert(q.key().reversed() == p.key());
    lemma_udp_step_one_orientation(m1, t2, q);
    if q.key() != p.key() {
        assert(!m1.contains_key(q.key()));
    }
}

/// Idle closure: a side of flow `k` that has carried traffic, is still open,
/// and has last been seen more than the timeout before `now` is closed at
/// `now` by a datagram of another flow; a side already closed keeps its
/// closing timestamp.
pub proof fn lemma_udp_idle_closure(
    m: Map<Ipv4Connection, UdpDataExchange>,
    now: u64,
    p: UdpPacket,
    k: Ipv4Connection,
)
    requires
        m.contains_key(k),
        p.key() != k,
        p.key() != k.reversed(),
    ensures
        udp_step(m, now, p).contains_key(k),
        m[k].sender.te == 0 && m[k].sender.packs > 0 && now > m[k].sender.last_pack
            + IDLE_TIMEOUT ==> udp_step(m, now, p)[k].sender.te == now,
        m[k].receiver.te == 0 && m[k].receiver.packs > 0 && now > m[k].receiver.last_pack
            + IDLE_TIMEOUT ==> udp_step(m, now, p)[k].receiver.te == now,
        m[k].sender.te != 0 ==> udp_step(m, now, p)[k].sender.te == m[k].sender.te,
        m[k].receiver.te != 0 ==> udp_step(m, now, p)[k].receiver.te == m[k].receiver.te,
{
    let m1 = udp_record(m, now, p);
    assert(p.key().reversed() != k);
    assert(m1[k] == m[k]);
}

} // verus!
