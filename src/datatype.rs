//! Flow keys and the per-direction statistics kept for each flow.

use vstd::prelude::*;

verus! {

/// The addresses and ports of one direction of a flow; IPv4 addresses are
/// held as big-endian integers (`a.b.c.d` is `a * 2^24 + b * 2^16 + c * 2^8 + d`).
#[derive(PartialEq, Eq, Structural, Clone, Copy, Debug, Hash)]
pub struct Ipv4Connection {
    pub sip: u32,
    pub dip: u32,
    pub sport: u16,
    pub dport: u16,
}

impl Ipv4Connection {
    /// The same flow seen from its other end.
    pub open spec fn reversed(self) -> Ipv4Connection {
        Ipv4Connection { sip: self.dip, dip: self.sip, sport: self.dport, dport: self.sport }
    }

    /// The key of traffic sent from `sip:sport` to `dip:dport`.
    pub fn new(sip: u32, dip: u32, sport: u16, dport: u16) -> (r: Ipv4Connection)
        ensures
            r == (Ipv4Connection { sip, dip, sport, dport }),
    {
        Ipv4Connection { sip, dip, sport, dport }
    }

    /// The key of the traffic that answers `sip:sport` -> `dip:dport`.
    pub fn rev(sip: u32, dip: u32, sport: u16, dport: u16) -> (r: Ipv4Connection)
        ensures
            r == (Ipv4Connection { sip, dip, sport, dport }).reversed(),
    {
        Ipv4Connection { sip: dip, dip: sip, sport: dport, dport: sport }
    }

    /// The output columns of the key: source address, source port,
    /// destination address, destination port.
    pub fn columns(&self) -> (r: Vec<u64>)
        ensures
            r@ == seq![self.sip as u64, self.sport as u64, self.dip as u64, self.dport as u64],
    {
        vec![self.sip as u64, self.sport as u64, self.dip as u64, self.dport as u64]
    }
}

/// The six TCP control flags that the statistics count.
#[derive(PartialEq, Eq, Structural, Clone, Copy, Debug, Hash)]
pub struct TcpFlags {
    pub syn: bool,
    pub ack: bool,
    pub fin: bool,
    pub rst: bool,
    pub psh: bool,
    pub urg: bool,
}

/// What one direction of a TCP flow has carried. Counters saturate at
/// `u64::MAX`; timestamps are microseconds.
#[derive(PartialEq, Eq, Structural, Clone, Copy, Debug, Hash)]
pub struct TcpFlowMetrics {
    /// Packets.
    pub packs: u64,
    /// Payload bytes.
    pub bytes: u64,
    /// Packets with a payload.
    pub packs_data: u64,
    /// Packets with ACK set.
    pub packs_ack: u64,
    /// Packets with SYN set.
    pub packs_syn: u64,
    /// Packets with RST set.
    pub packs_rst: u64,
    /// Packets with FIN set.
    pub packs_fin: u64,
    /// Packets with URG set.
    pub packs_urg: u64,
    /// Packets with PSH set.
    pub packs_psh: u64,
    /// Timestamp of the most recent packet.
    pub last_pack: u64,
    /// Timestamp of the first packet of this direction; 0 while unset.
    pub ts: u64,
    /// Timestamp at which this direction was closed; 0 while open.
    pub te: u64,
}

/// `c + 1` if `yes`, else `c`; saturating.
pub open spec fn count_if(c: u64, yes: bool) -> u64 {
    if yes {
        c.saturating_add(1)
    } else {
        c
    }
}

impl TcpFlowMetrics {
    /// Statistics of a direction that has seen nothing.
    pub open spec fn empty() -> TcpFlowMetrics {
        TcpFlowMetrics {
            packs: 0,
            bytes: 0,
            packs_data: 0,
            packs_ack: 0,
            packs_syn: 0,
            packs_rst: 0,
            packs_fin: 0,
            packs_urg: 0,
            packs_psh: 0,
            last_pack: 0,
            ts: 0,
            te: 0,
        }
    }

    /// The statistics after one more packet with the given payload length and
    /// flags, seen at `now`: the counting rule shared by both directions.
    pub open spec fn counted(self, now: u64, payload: u64, flags: TcpFlags) -> TcpFlowMetrics {
        TcpFlowMetrics {
            packs: self.packs.saturating_add(1),
            bytes: self.bytes.saturating_add(payload),
            packs_data: count_if(self.packs_data, payload > 0),
            packs_ack: count_if(self.packs_ack, flags.ack),
            packs_syn: count_if(self.packs_syn, flags.syn),
            packs_rst: count_if(self.packs_rst, flags.rst),
            packs_fin: count_if(self.packs_fin, flags.fin),
            packs_urg: count_if(self.packs_urg, flags.urg),
            packs_psh: count_if(self.packs_psh, flags.psh),
            last_pack: now,
            ..self
        }
    }

    pub fn new() -> (r: TcpFlowMetrics)
        ensures
            r == TcpFlowMetrics::empty(),
    {
        TcpFlowMetrics {
            packs: 0,
            bytes: 0,
            packs_data: 0,
            packs_ack: 0,
            packs_syn: 0,
            packs_rst: 0,
            packs_fin: 0,
            packs_urg: 0,
            packs_psh: 0,
            last_pack: 0,
            ts: 0,
            te: 0,
        }
    }

    /// Records the first-seen timestamp.
    pub fn set_ts(&mut self, ts: u64)
        ensures
            *final(self) == (TcpFlowMetrics { ts, ..*old(self) }),
    {
        self.ts = ts;
    }

    /// Records the closing timestamp.
    pub fn set_te(&mut self, te: u64)
        ensures
            *final(self) == (TcpFlowMetrics { te, ..*old(self) }),
    {
        self.te = te;
    }

    /// Records the timestamp of the most recent packet.
    pub fn set_last_pack(&mut self, last_pack: u64)
        ensures
            *final(self) == (TcpFlowMetrics { last_pack, ..*old(self) }),
    {
        self.last_pack = last_pack;
    }

    pub fn update_packs(&mut self)
        ensures
            *final(self) == (TcpFlowMetrics { packs: old(self).packs.saturating_add(1), ..*old(self) }),
    {
        self.packs = self.packs.saturating_add(1);
    }

    pub fn update_bytes(&mut self, bytes: u64)
        ensures
            *final(self) == (TcpFlowMetrics { bytes: old(self).bytes.saturating_add(bytes), ..*old(self) }),
    {
        self.bytes = self.bytes.saturating_add(bytes);
    }

    pub fn update_packs_data(&mut self)
        ensures
            *final(self) == (TcpFlowMetrics {
                packs_data: old(self).packs_data.saturating_add(1),
                ..*old(self)
            }),
    {
        self.packs_data = self.packs_data.saturating_add(1);
    }

    pub fn update_packs_ack(&mut self)
        ensures
            *final(self) == (TcpFlowMetrics {
                packs_ack: old(self).packs_ack.saturating_add(1),
                ..*old(self)
            }),
    {
        self.packs_ack = self.packs_ack.saturating_add(1);
    }

    pub fn update_packs_syn(&mut self)
        ensures
            *final(self) == (TcpFlowMetrics {
                packs_syn: old(self).packs_syn.saturating_add(1),
                ..*old(self)
            }),
    {
        self.packs_syn = self.packs_syn.saturating_add(1);
    }

    pub fn update_packs_rst(&mut self)
        ensures
            *final(self) == (TcpFlowMetrics {
                packs_rst: old(self).packs_rst.saturating_add(1),
                ..*old(self)
            }),
    {
        self.packs_rst = self.packs_rst.saturating_add(1);
    }

    pub fn update_packs_fin(&mut self)
        ensures
            *final(self) == (TcpFlowMetrics {
                packs_fin: old(self).packs_fin.saturating_add(1),
                ..*old(self)
            }),
    {
        self.packs_fin = self.packs_fin.saturating_add(1);
    }

    pub fn update_packs_urg(&mut self)
        ensures
            *final(self) == (TcpFlowMetrics {
                packs_urg: old(self).packs_urg.saturating_add(1),
                ..*old(self)
            }),
    {
        self.packs_urg = self.packs_urg.saturating_add(1);
    }

    pub fn update_packs_psh(&mut self)
        ensures
            *final(self) == (TcpFlowMetrics {
                packs_psh: old(self).packs_psh.saturating_add(1),
                ..*old(self)
            }),
    {
        self.packs_psh = self.packs_psh.saturating_add(1);
    }

    /// Counts one packet seen at `now` with `payload` bytes of payload and
    /// the given flags.
    pub fn apply(&mut self, now: u64, payload: u64, flags: TcpFlags)
        ensures
            *final(self) == old(self).counted(now, payload, flags),
    {
        if flags.ack {
            self.update_packs_ack();
        }
        if flags.syn {
            self.update_packs_syn();
        }
        if flags.rst {
            self.update_packs_rst();
        }
        if flags.fin {
            self.update_packs_fin();
        }
        if flags.urg {
            self.update_packs_urg();
        }
        if flags.psh {
            self.update_packs_psh();
        }
        if payload > 0 {
            self.update_packs_data();
            self.update_bytes(payload);
        }
        self.update_packs();
        self.set_last_pack(now);
    }

    /// The output columns: packets, bytes, data packets, then the ACK, SYN,
    /// RST, FIN, URG and PSH counts, first seen, closed at.
    pub fn columns(&self) -> (r: Vec<u64>)
        ensures
            r@ == seq![
                self.packs, self.bytes, self.packs_data, self.packs_ack, self.packs_syn,
                self.packs_rst, self.packs_fin, self.packs_urg, self.packs_psh, self.ts, self.te,
            ],
    {
        vec![
            self.packs, self.bytes, self.packs_data, self.packs_ack, self.packs_syn,
            self.packs_rst, self.packs_fin, self.packs_urg, self.packs_psh, self.ts, self.te,
        ]
    }
}

/// What one direction of a UDP flow has carried. Counters saturate at
/// `u64::MAX`; timestamps are microseconds.
#[derive(PartialEq, Eq, Structural, Clone, Copy, Debug, Hash)]
pub struct UdpFlowMetrics {
    /// Datagrams.
    pub packs: u64,
    /// Payload bytes.
    pub bytes: u64,
    /// Datagrams with a payload.
    pub packs_data: u64,
    /// Timestamp of the most recent datagram.
    pub last_pack: u64,
    /// Timestamp of the first datagram of this direction; 0 while unset.
    pub ts: u64,
    /// Timestamp at which this direction was closed for idleness; 0 while open.
    pub te: u64,
}

impl UdpFlowMetrics {
    /// Statistics of a direction that has seen nothing.
    pub open spec fn empty() -> UdpFlowMetrics {
        UdpFlowMetrics { packs: 0, bytes: 0, packs_data: 0, last_pack: 0, ts: 0, te: 0 }
    }

    /// The statistics after one more datagram with the given payload length,
    /// seen at `now`. The first-seen timestamp is taken while it is unset.
    pub open spec fn counted(self, now: u64, payload: u64) -> UdpFlowMetrics {
        UdpFlowMetrics {
            packs: self.packs.saturating_add(1),
            bytes: self.bytes.saturating_add(payload),
            packs_data: count_if(self.packs_data, payload > 0),
            last_pack: now,
            ts: if self.ts == 0 { now } else { self.ts },
            te: self.te,
        }
    }

    pub fn new() -> (r: UdpFlowMetrics)
        ensures
            r == UdpFlowMetrics::empty(),
    {
        UdpFlowMetrics { packs: 0, bytes: 0, packs_data: 0, last_pack: 0, ts: 0, te: 0 }
    }

    /// Records the first-seen timestamp.
    pub fn set_ts(&mut self, ts: u64)
        ensures
            *final(self) == (UdpFlowMetrics { ts, ..*old(self) }),
    {
        self.ts = ts;
    }

    /// Records the closing timestamp.
    pub fn set_te(&mut self, te: u64)
        ensures
            *final(self) == (UdpFlowMetrics { te, ..*old(self) }),
    {
        self.te = te;
    }

    pub fn get_ts(&self) -> (r: u64)
        ensures
            r == self.ts,
    {
        self.ts
    }

    pub fn get_te(&self) -> (r: u64)
        ensures
            r == self.te,
    {
        self.te
    }

    pub fn get_last_pack(&self) -> (r: u64)
        ensures
            r == self.last_pack,
    {
        self.last_pack
    }

    /// Records the timestamp of the most recent datagram.
    pub fn set_last_pack(&mut self, last_pack: u64)
        ensures
            *final(self) == (UdpFlowMetrics { last_pack, ..*old(self) }),
    {
        self.last_pack = last_pack;
    }

    pub fn update_packs(&mut self)
        ensures
            *final(self) == (UdpFlowMetrics { packs: old(self).packs.saturating_add(1), ..*old(self) }),
    {
        self.packs = self.packs.saturating_add(1);
    }

    pub fn update_bytes(&mut self, bytes: u64)
        ensures
            *final(self) == (UdpFlowMetrics { bytes: old(self).bytes.saturating_add(bytes), ..*old(self) }),
    {
        self.bytes = self.bytes.saturating_add(bytes);
    }

    pub fn update_packs_data(&mut self)
        ensures
            *final(self) == (UdpFlowMetrics {
                packs_data: old(self).packs_data.saturating_add(1),
                ..*old(self)
            }),
    {
        self.packs_data = self.packs_data.saturating_add(1);
    }

    /// Counts one datagram seen at `now` with `payload` bytes of payload.
    pub fn apply(&mut self, now: u64, payload: u64)
        ensures
            *final(self) == old(self).counted(now, payload),
    {
        if self.get_ts() == 0 {
            self.set_ts(now);
        }
        if payload > 0 {
            self.update_packs_data();
            self.update_bytes(payload);
        }
        self.update_packs();
        self.set_last_pack(now);
    }

    /// The output columns: datagrams, bytes, data datagrams, first seen,
    /// closed at.
    pub fn columns(&self) -> (r: Vec<u64>)
        ensures
            r@ == seq![self.packs, self.bytes, self.packs_data, self.ts, self.te],
    {
        vec![self.packs, self.bytes, self.packs_data, self.ts, self.te]
    }
}

/// A TCP flow: the statistics of the side that opened it and of the side
/// that answered.
#[derive(PartialEq, Eq, Structural, Clone, Copy, Debug, Hash)]
pub struct TcpDataExchange {
    pub sender: TcpFlowMetrics,
    pub receiver: TcpFlowMetrics,
}

impl TcpDataExchange {
    pub open spec fn empty() -> TcpDataExchange {
        TcpDataExchange { sender: TcpFlowMetrics::empty(), receiver: TcpFlowMetrics::empty() }
    }

    pub fn new() -> (r: TcpDataExchange)
        ensures
            r == TcpDataExchange::empty(),
    {
        TcpDataExchange { sender: TcpFlowMetrics::new(), receiver: TcpFlowMetrics::new() }
    }

    pub fn get_sender(&mut self) -> (r: &mut TcpFlowMetrics)
        ensures
            *r == old(self).sender,
            *final(self) == (TcpDataExchange { sender: *final(r), receiver: old(self).receiver }),
    {
        &mut self.sender
    }

    pub fn get_receiver(&mut self) -> (r: &mut TcpFlowMetrics)
        ensures
            *r == old(self).receiver,
            *final(self) == (TcpDataExchange { sender: old(self).sender, receiver: *final(r) }),
    {
        &mut self.receiver
    }
}

/// A UDP flow: the statistics of the side seen first and of the other side.
#[derive(PartialEq, Eq, Structural, Clone, Copy, Debug, Hash)]
pub struct UdpDataExchange {
    pub sender: UdpFlowMetrics,
    pub receiver: UdpFlowMetrics,
}

impl UdpDataExchange {
    pub open spec fn empty() -> UdpDataExchange {
        UdpDataExchange { sender: UdpFlowMetrics::empty(), receiver: UdpFlowMetrics::empty() }
    }

    pub fn new() -> (r: UdpDataExchange)
        ensures
            r == UdpDataExchange::empty(),
    {
        UdpDataExchange { sender: UdpFlowMetrics::new(), receiver: UdpFlowMetrics::new() }
    }

    pub fn get_sender(&mut self) -> (r: &mut UdpFlowMetrics)
        ensures
            *r == old(self).sender,
            *final(self) == (UdpDataExchange { sender: *final(r), receiver: old(self).receiver }),
    {
        &mut self.sender
    }

    pub fn get_receiver(&mut self) -> (r: &mut UdpFlowMetrics)
        ensures
            *r == old(self).receiver,
            *final(self) == (UdpDataExchange { sender: old(self).sender, receiver: *final(r) }),
    {
        &mut self.receiver
    }
}

} // verus!
