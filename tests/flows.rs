use flowtrace::datatype::{Ipv4Connection, TcpFlags, TcpFlowMetrics, UdpFlowMetrics};
use flowtrace::dissect::{dissect, Packet, Reject, TcpPacket, UdpPacket};
use flowtrace::parser::{
    is_ipv4_lan, process_frame, process_trace, subnet_of, timestamp_micros, CaptureRecord,
};
use flowtrace::table::FlowTable;

const A: [u8; 4] = [192, 168, 1, 10];
const B: [u8; 4] = [93, 184, 216, 34];
const C: [u8; 4] = [192, 168, 1, 20];
const D: [u8; 4] = [8, 8, 8, 8];

const FIN: u8 = 0x01;
const SYN: u8 = 0x02;
const RST: u8 = 0x04;
const PSH: u8 = 0x08;
const ACK: u8 = 0x10;
const URG: u8 = 0x20;

fn ip(a: [u8; 4]) -> u32 {
    u32::from_be_bytes(a)
}

fn ipv4_frame(src: [u8; 4], dst: [u8; 4], protocol: u8, l4: &[u8], payload: usize) -> Vec<u8> {
    let mut f = vec![0x02, 0, 0, 0, 0, 1, 0x02, 0, 0, 0, 0, 2, 0x08, 0x00];
    let total = 20 + l4.len() + payload;
    f.extend_from_slice(&[0x45, 0, (total >> 8) as u8, total as u8, 0, 0, 0x40, 0, 64, protocol, 0, 0]);
    f.extend_from_slice(&src);
    f.extend_from_slice(&dst);
    f.extend_from_slice(l4);
    f.extend(std::iter::repeat(0u8).take(payload));
    f
}

fn tcp_frame(src: [u8; 4], dst: [u8; 4], sport: u16, dport: u16, flags: u8, payload: usize) -> Vec<u8> {
    let mut h = Vec::new();
    h.extend_from_slice(&sport.to_be_bytes());
    h.extend_from_slice(&dport.to_be_bytes());
    h.extend_from_slice(&[0, 0, 0, 1, 0, 0, 0, 0, 0x50, flags, 0xff, 0xff, 0, 0, 0, 0]);
    ipv4_frame(src, dst, 6, &h, payload)
}

fn udp_frame(src: [u8; 4], dst: [u8; 4], sport: u16, dport: u16, payload: usize) -> Vec<u8> {
    let mut h = Vec::new();
    h.extend_from_slice(&sport.to_be_bytes());
    h.extend_from_slice(&dport.to_be_bytes());
    h.extend_from_slice(&((8 + payload) as u16).to_be_bytes());
    h.extend_from_slice(&[0, 0]);
    ipv4_frame(src, dst, 17, &h, payload)
}

fn record(ts: u64, frame: Vec<u8>) -> CaptureRecord {
    let len = frame.len();
    CaptureRecord { ts, data: frame, len }
}

fn flags(syn: bool, ack: bool, fin: bool, rst: bool, psh: bool, urg: bool) -> TcpFlags {
    TcpFlags { syn, ack, fin, rst, psh, urg }
}

#[test]
fn tcp_handshake_data_and_close() {
    let recs = vec![
        record(0, tcp_frame(A, B, 40000, 80, SYN, 0)),
        record(10, tcp_frame(B, A, 80, 40000, SYN | ACK, 0)),
        record(20, tcp_frame(A, B, 40000, 80, ACK, 100)),
        record(30, tcp_frame(A, B, 40000, 80, FIN, 0)),
    ];
    let (tcp, udp) = process_trace(&recs, None);
    assert_eq!(tcp.len(), 1);
    assert_eq!(udp.len(), 0);
    let key = Ipv4Connection::new(ip(A), ip(B), 40000, 80);
    assert_eq!(tcp.key_at(0), key);
    let flow = tcp.get(&key).unwrap();
    let s = flow.sender;
    assert_eq!(s.packs, 3);
    assert_eq!(s.packs_data, 1);
    assert_eq!(s.bytes, 100);
    assert_eq!(s.packs_syn, 1);
    assert_eq!(s.packs_fin, 1);
    assert_eq!(s.ts, 0);
    assert_eq!(s.te, 30);
    let r = flow.receiver;
    assert_eq!(r.packs, 1);
    assert_eq!(r.packs_syn, 1);
    assert_eq!(r.packs_ack, 1);
    assert_eq!(r.ts, 10);
    assert_eq!(r.te, 0);
    assert_eq!(r.bytes, 0);
}

#[test]
fn udp_single_datagram() {
    let recs = vec![record(5, udp_frame(A, B, 5353, 53, 50))];
    let (tcp, udp) = process_trace(&recs, None);
    assert_eq!(tcp.len(), 0);
    assert_eq!(udp.len(), 1);
    let flow = udp.get(&Ipv4Connection::new(ip(A), ip(B), 5353, 53)).unwrap();
    assert_eq!(flow.sender.packs, 1);
    assert_eq!(flow.sender.bytes, 50);
    assert_eq!(flow.sender.packs_data, 1);
    assert_eq!(flow.sender.ts, 5);
    assert_eq!(flow.sender.te, 0);
    assert_eq!(flow.receiver, UdpFlowMetrics::new());
}

#[test]
fn udp_idle_side_closed_by_later_datagram() {
    let t = 1_000_000u64;
    let later = t + 30_000_001;
    let recs = vec![
        record(t, udp_frame(A, B, 5000, 53, 10)),
        record(later, udp_frame(C, D, 6000, 123, 10)),
        record(later + 5_000_000, udp_frame(C, D, 6000, 123, 10)),
    ];
    let (_, udp) = process_trace(&recs, None);
    let first = udp.get(&Ipv4Connection::new(ip(A), ip(B), 5000, 53)).unwrap();
    assert_eq!(first.sender.te, later);
    assert_eq!(first.receiver.te, 0);
    let second = udp.get(&Ipv4Connection::new(ip(C), ip(D), 6000, 123)).unwrap();
    assert_eq!(second.sender.te, 0);
    assert_eq!(second.sender.packs, 2);
}

#[test]
fn udp_side_idle_for_exactly_the_timeout_stays_open() {
    let t = 1_000_000u64;
    let recs = vec![
        record(t, udp_frame(A, B, 5000, 53, 10)),
        record(t + 30_000_000, udp_frame(C, D, 6000, 123, 10)),
    ];
    let (_, udp) = process_trace(&recs, None);
    let first = udp.get(&Ipv4Connection::new(ip(A), ip(B), 5000, 53)).unwrap();
    assert_eq!(first.sender.te, 0);
}

#[test]
fn udp_reply_counts_on_receiver_side() {
    let recs = vec![
        record(100, udp_frame(A, B, 5000, 53, 20)),
        record(150, udp_frame(B, A, 53, 5000, 0)),
        record(170, udp_frame(B, A, 53, 5000, 70)),
    ];
    let (_, udp) = process_trace(&recs, None);
    assert_eq!(udp.len(), 1);
    assert!(udp.get(&Ipv4Connection::new(ip(B), ip(A), 53, 5000)).is_none());
    let flow = udp.get(&Ipv4Connection::new(ip(A), ip(B), 5000, 53)).unwrap();
    assert_eq!(flow.receiver.packs, 2);
    assert_eq!(flow.receiver.packs_data, 1);
    assert_eq!(flow.receiver.bytes, 70);
    assert_eq!(flow.receiver.ts, 150);
    assert_eq!(flow.receiver.last_pack, 170);
    assert_eq!(flow.sender.packs, 1);
}

#[test]
fn tcp_reply_lands_in_same_entry() {
    let recs = vec![
        record(1, tcp_frame(A, B, 40000, 443, SYN, 0)),
        record(2, tcp_frame(B, A, 443, 40000, ACK | PSH, 30)),
        record(3, tcp_frame(B, A, 443, 40000, SYN, 0)),
    ];
    let (tcp, _) = process_trace(&recs, None);
    assert_eq!(tcp.len(), 1);
    assert!(tcp.get(&Ipv4Connection::new(ip(B), ip(A), 443, 40000)).is_none());
    let flow = tcp.get(&Ipv4Connection::new(ip(A), ip(B), 40000, 443)).unwrap();
    assert_eq!(flow.receiver.packs, 2);
    assert_eq!(flow.receiver.packs_psh, 1);
    assert_eq!(flow.receiver.packs_syn, 1);
    assert_eq!(flow.receiver.bytes, 30);
}

#[test]
fn tcp_packet_of_unknown_flow_is_ignored() {
    let recs = vec![
        record(1, tcp_frame(A, B, 40000, 443, ACK, 10)),
        record(2, tcp_frame(A, B, 40000, 443, SYN | ACK, 0)),
    ];
    let (tcp, _) = process_trace(&recs, None);
    assert_eq!(tcp.len(), 0);
}

#[test]
fn tcp_syn_from_outside_local_subnet_opens_nothing() {
    let local = subnet_of(ip([192, 168, 1, 0]), 24);
    let recs = vec![
        record(1, tcp_frame(B, A, 40000, 22, SYN, 0)),
        record(2, tcp_frame(A, B, 40001, 443, SYN, 0)),
    ];
    let (tcp, _) = process_trace(&recs, local);
    assert_eq!(tcp.len(), 1);
    assert!(tcp.get(&Ipv4Connection::new(ip(A), ip(B), 40001, 443)).is_some());
}

#[test]
fn tcp_rst_closes_the_side_that_sent_it() {
    let recs = vec![
        record(1, tcp_frame(A, B, 40000, 443, SYN, 0)),
        record(7, tcp_frame(B, A, 443, 40000, RST | ACK, 0)),
        record(9, tcp_frame(B, A, 443, 40000, RST, 0)),
    ];
    let (tcp, _) = process_trace(&recs, None);
    let flow = tcp.get(&Ipv4Connection::new(ip(A), ip(B), 40000, 443)).unwrap();
    assert_eq!(flow.receiver.te, 9);
    assert_eq!(flow.receiver.packs_rst, 2);
    assert_eq!(flow.sender.te, 0);
}

#[test]
fn tcp_second_syn_ack_keeps_first_seen() {
    let recs = vec![
        record(1, tcp_frame(A, B, 40000, 443, SYN, 0)),
        record(4, tcp_frame(B, A, 443, 40000, SYN | ACK, 0)),
        record(6, tcp_frame(B, A, 443, 40000, SYN | ACK | URG, 0)),
    ];
    let (tcp, _) = process_trace(&recs, None);
    let flow = tcp.get(&Ipv4Connection::new(ip(A), ip(B), 40000, 443)).unwrap();
    assert_eq!(flow.receiver.ts, 4);
    assert_eq!(flow.receiver.packs_urg, 1);
    assert_eq!(flow.receiver.last_pack, 6);
}

#[test]
fn counters_never_decrease_over_a_run() {
    let frames = vec![
        tcp_frame(A, B, 40000, 80, SYN, 0),
        tcp_frame(B, A, 80, 40000, SYN | ACK, 0),
        tcp_frame(A, B, 40000, 80, ACK, 500),
        tcp_frame(B, A, 80, 40000, ACK, 1400),
        tcp_frame(A, B, 40000, 80, FIN | ACK, 0),
        tcp_frame(B, A, 80, 40000, FIN | ACK, 0),
    ];
    let mut tcp = FlowTable::new();
    let mut udp = FlowTable::new();
    let key = Ipv4Connection::new(ip(A), ip(B), 40000, 80);
    let mut prev: Option<(TcpFlowMetrics, TcpFlowMetrics)> = None;
    for (i, f) in frames.iter().enumerate() {
        process_frame(&mut tcp, &mut udp, 100 + i as u64, f, f.len(), None);
        let flow = *tcp.get(&key).unwrap();
        if let Some((s, r)) = prev {
            for (a, b) in [(s, flow.sender), (r, flow.receiver)] {
                assert!(a.packs <= b.packs);
                assert!(a.bytes <= b.bytes);
                assert!(a.packs_data <= b.packs_data);
                assert!(a.packs_ack <= b.packs_ack);
                assert!(a.packs_fin <= b.packs_fin);
                assert!(a.ts == 0 || a.ts == b.ts);
                assert!(a.te == 0 || a.te == b.te);
            }
        }
        prev = Some((flow.sender, flow.receiver));
    }
    let (s, r) = prev.unwrap();
    assert_eq!((s.ts, s.te, r.ts, r.te), (100, 104, 101, 105));
    assert_eq!((s.bytes, r.bytes), (500, 1400));
}

#[test]
fn dissecting_twice_gives_same_result() {
    let f = tcp_frame(A, B, 1, 2, SYN | PSH, 7);
    assert_eq!(dissect(&f, f.len()), dissect(&f, f.len()));
    let g = vec![1u8, 2, 3];
    assert_eq!(dissect(&g, 3), dissect(&g, 3));
}

#[test]
fn rejected_frames_leave_tables_unchanged() {
    let mut tcp = FlowTable::new();
    let mut udp = FlowTable::new();
    let open = tcp_frame(A, B, 40000, 80, SYN, 0);
    process_frame(&mut tcp, &mut udp, 1, &open, open.len(), None);
    let dg = udp_frame(A, B, 5000, 53, 4);
    process_frame(&mut tcp, &mut udp, 1, &dg, dg.len(), None);
    let before_tcp = *tcp.record_at(0);
    let before_udp = *udp.record_at(0);

    let short = open[..13].to_vec();
    let mut arp = tcp_frame(A, B, 40000, 80, ACK, 10);
    arp[12] = 0x08;
    arp[13] = 0x06;
    let cut_tcp = tcp_frame(A, B, 40000, 80, ACK, 0)[..14 + 20 + 19].to_vec();
    let cut_udp = udp_frame(A, B, 5000, 53, 0)[..14 + 20 + 7].to_vec();
    for f in [short, arp, cut_tcp, cut_udp] {
        process_frame(&mut tcp, &mut udp, 50, &f, f.len(), None);
    }
    assert_eq!(tcp.len(), 1);
    assert_eq!(udp.len(), 1);
    assert_eq!(*tcp.record_at(0), before_tcp);
    assert_eq!(*udp.record_at(0), before_udp);
}

#[test]
fn dissect_tcp_fields() {
    let f = tcp_frame(A, B, 40000, 80, SYN | ACK | URG, 12);
    let expected = TcpPacket {
        sip: ip(A),
        dip: ip(B),
        sport: 40000,
        dport: 80,
        flags: flags(true, true, false, false, false, true),
        payload: 12,
    };
    assert_eq!(dissect(&f, f.len()), Ok(Packet::Tcp(expected)));
}

#[test]
fn dissect_payload_uses_declared_length() {
    let f = tcp_frame(A, B, 1, 2, ACK, 0);
    assert_eq!(f.len(), 54);
    match dissect(&f, 1514) {
        Ok(Packet::Tcp(p)) => assert_eq!(p.payload, 1460),
        other => panic!("unexpected {:?}", other),
    }
}

#[test]
fn dissect_udp_payload_floors_at_zero() {
    let f = udp_frame(A, B, 1, 2, 0);
    let expected = UdpPacket { sip: ip(A), dip: ip(B), sport: 1, dport: 2, payload: 0 };
    assert_eq!(dissect(&f, 36), Ok(Packet::Udp(expected)));
    assert_eq!(dissect(&f, f.len()), Ok(Packet::Udp(expected)));
}

#[test]
fn dissect_rejections() {
    assert_eq!(dissect(&[0u8; 13], 13), Err(Reject::TooShort));
    let mut not_ip = udp_frame(A, B, 1, 2, 0);
    not_ip[12] = 0x86;
    not_ip[13] = 0xdd;
    assert_eq!(dissect(&not_ip, not_ip.len()), Err(Reject::NotIpv4));
    let f = udp_frame(A, B, 1, 2, 0);
    assert_eq!(dissect(&f[..30], 30), Err(Reject::TruncatedIpv4));
    let mut bad_ihl = f.clone();
    bad_ihl[14] = 0x44;
    assert_eq!(dissect(&bad_ihl, bad_ihl.len()), Err(Reject::BadIpv4HeaderLength));
    let mut long_ihl = f.clone();
    long_ihl[14] = 0x4f;
    assert_eq!(dissect(&long_ihl, long_ihl.len()), Err(Reject::TruncatedIpv4));
    let mut icmp = f.clone();
    icmp[23] = 1;
    assert_eq!(dissect(&icmp, icmp.len()), Err(Reject::UnsupportedProtocol));
    assert_eq!(dissect(&f[..41], 41), Err(Reject::TruncatedUdp));
    let t = tcp_frame(A, B, 1, 2, SYN, 0);
    assert_eq!(dissect(&t[..53], 53), Err(Reject::TruncatedTcp));
    let mut bad_off = t.clone();
    bad_off[14 + 20 + 12] = 0x40;
    assert_eq!(dissect(&bad_off, bad_off.len()), Err(Reject::BadTcpHeaderLength));
    let mut long_off = t.clone();
    long_off[14 + 20 + 12] = 0x60;
    assert_eq!(dissect(&long_off, long_off.len()), Err(Reject::TruncatedTcp));
}

#[test]
fn dissect_agrees_with_etherparse_builder() {
    let builder = etherparse::PacketBuilder::ethernet2([1, 2, 3, 4, 5, 6], [6, 5, 4, 3, 2, 1])
        .ipv4(A, B, 64)
        .tcp(40000, 80, 7, 1024)
        .syn()
        .ack(9)
        .psh();
    let payload = [0xabu8; 33];
    let mut frame = Vec::new();
    builder.write(&mut frame, &payload).unwrap();
    match dissect(&frame, frame.len()) {
        Ok(Packet::Tcp(p)) => {
            assert_eq!((p.sip, p.dip, p.sport, p.dport), (ip(A), ip(B), 40000, 80));
            assert_eq!(p.flags, flags(true, true, false, false, true, false));
            assert_eq!(p.payload, 33);
        },
        other => panic!("unexpected {:?}", other),
    }
    let builder = etherparse::PacketBuilder::ethernet2([1, 2, 3, 4, 5, 6], [6, 5, 4, 3, 2, 1])
        .ipv4(D, C, 64)
        .udp(53, 6000);
    let mut frame = Vec::new();
    builder.write(&mut frame, &[1u8; 9]).unwrap();
    let expected = UdpPacket { sip: ip(D), dip: ip(C), sport: 53, dport: 6000, payload: 9 };
    assert_eq!(dissect(&frame, frame.len()), Ok(Packet::Udp(expected)));
}

#[test]
fn subnet_membership() {
    let net = (ip([10, 1, 0, 0]), 16u8);
    assert!(is_ipv4_lan(ip([10, 1, 200, 3]), net));
    assert!(!is_ipv4_lan(ip([10, 2, 0, 1]), net));
    assert!(is_ipv4_lan(ip([1, 2, 3, 4]), (0, 0)));
    assert!(is_ipv4_lan(ip([1, 2, 3, 4]), (ip([1, 2, 3, 4]), 32)));
    assert!(!is_ipv4_lan(ip([1, 2, 3, 5]), (ip([1, 2, 3, 4]), 32)));
}

#[test]
fn subnet_of_clears_host_bits() {
    assert_eq!(subnet_of(ip([192, 168, 1, 77]), 24), Some((ip([192, 168, 1, 0]), 24)));
    assert_eq!(subnet_of(ip([192, 168, 1, 77]), 0), Some((0, 0)));
    assert_eq!(subnet_of(ip([192, 168, 1, 77]), 32), Some((ip([192, 168, 1, 77]), 32)));
    assert_eq!(subnet_of(ip([192, 168, 1, 77]), 33), None);
}

#[test]
fn timestamps_in_microseconds() {
    assert_eq!(timestamp_micros(3, 250), Some(3_000_250));
    assert_eq!(timestamp_micros(0, 0), Some(0));
    assert_eq!(timestamp_micros(u64::MAX / 1_000_000 + 1, 0), None);
    assert_eq!(timestamp_micros(u64::MAX / 1_000_000, 999_999), None);
}

#[test]
fn output_columns() {
    let key = Ipv4Connection::rev(ip(A), ip(B), 1, 2);
    assert_eq!(key.columns(), vec![ip(B) as u64, 2, ip(A) as u64, 1]);
    let mut m = TcpFlowMetrics::new();
    m.apply(9, 100, flags(true, true, true, true, true, true));
    m.set_ts(4);
    m.set_te(9);
    assert_eq!(m.columns(), vec![1, 100, 1, 1, 1, 1, 1, 1, 1, 4, 9]);
    let mut u = UdpFlowMetrics::new();
    u.apply(8, 0);
    u.apply(12, 30);
    assert_eq!(u.columns(), vec![2, 30, 1, 8, 0]);
    assert_eq!(u.get_last_pack(), 12);
}

#[test]
fn counters_saturate() {
    let mut m = TcpFlowMetrics::new();
    m.update_bytes(u64::MAX - 1);
    m.update_bytes(5);
    assert_eq!(m.bytes, u64::MAX);
}

#[test]
fn tcp_each_fin_restamps_closing_time() {
    let recs = vec![
        record(1, tcp_frame(A, B, 40000, 443, SYN, 0)),
        record(5, tcp_frame(A, B, 40000, 443, FIN | ACK, 0)),
        record(9, tcp_frame(A, B, 40000, 443, FIN | ACK, 0)),
    ];
    let (tcp, _) = process_trace(&recs, None);
    let flow = tcp.get(&Ipv4Connection::new(ip(A), ip(B), 40000, 443)).unwrap();
    assert_eq!(flow.sender.te, 9);
    assert_eq!(flow.sender.packs_fin, 2);
    assert_eq!(flow.receiver.te, 0);
}

#[test]
fn tcp_header_cut_off_by_capture_is_rejected() {
    let mut f = tcp_frame(A, B, 40000, 80, SYN, 0);
    f[14 + 20 + 12] = 0x60;
    assert_eq!(f.len(), 54);
    assert_eq!(dissect(&f, 100), Err(Reject::TruncatedTcp));
    let mut tcp = FlowTable::new();
    let mut udp = FlowTable::new();
    process_frame(&mut tcp, &mut udp, 3, &f, 100, None);
    assert_eq!(tcp.len(), 0);
    assert_eq!(udp.len(), 0);
    let mut whole = f.clone();
    whole.extend_from_slice(&[1, 1, 0, 0]);
    match dissect(&whole, 100) {
        Ok(Packet::Tcp(p)) => assert_eq!(p.payload, 100 - 14 - 20 - 24),
        other => panic!("unexpected {:?}", other),
    }
}
