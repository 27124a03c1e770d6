use cjdns_seeder::control::{control_step, LoopAction, LoopEvent};
use cjdns_seeder::peer::{CjdnsPeer, PeerAddr, PeerIp};
use cjdns_seeder::pool::{PeerNode, PeerSource, Recommendation, SeederState};
use cjdns_seeder::rtypes::{RTypes_CryptoAuth_State_t, RTypes_StrList_t};
use cjdns_seeder::seeder::{
    CredsError, LlAddr, LlAddrPayload, Seeder, LLADDR_OTHER_TYPE, LLADDR_UDP4_TYPE,
    LLADDR_UDP6_TYPE, SocketV4, SocketV6, CURRENT_PROTOCOL,
    LLADDR_REPLY_MAGIC,
};
use cjdns_seeder::wire::{
    connect_peer_message, parse_core_event, peers_request, CoreMsgError, CORE_PEER,
    CORE_PEER_GONE,
};

const T0: u64 = 10_000_000;

fn key(b: u8) -> [u8; 32] {
    [b; 32]
}

fn peer(b: u8) -> CjdnsPeer {
    CjdnsPeer {
        address: PeerAddr { ip: PeerIp::V4([10, 0, 0, b]), port: 1000 + b as u16 },
        pubkey: key(b),
        login: b as u16,
        password: [b; 8],
        version: 22,
    }
}

fn node(b: u8) -> PeerNode {
    PeerNode { ip6: [0; 16], public_key: key(b), path: 1, metric: 2, version: 22 }
}

fn rec(source: PeerSource, b: u8, seen: u64) -> Recommendation {
    Recommendation { source, peer: peer(b), seen }
}

fn seed(name: &str) -> PeerSource {
    PeerSource::Seed(name.to_string())
}

fn v4(magic: u32, ip: [u8; 4], port: u16) -> LlAddr {
    LlAddr { magic, addr: LlAddrPayload::Udp4(SocketV4 { ip, port }) }
}

#[test]
fn prune_drops_stale_entries() {
    let mut st = SeederState::new();
    let ttl = 20 * 60 * 1000;
    st.current_peers.push((node(1), T0 - ttl));
    st.current_peers.push((node(2), T0 - ttl + 1));
    st.tried_peers.push((peer(3), T0 - ttl - 5));
    st.tried_peers.push((peer(4), T0));
    st.recommended_peers.push(rec(PeerSource::Supernode, 5, T0 - ttl));
    st.recommended_peers.push(rec(seed("a"), 6, T0 - 1));
    st.prune(T0);
    assert_eq!(st.current_peers, vec![(node(2), T0 - ttl + 1)]);
    assert_eq!(st.tried_peers, vec![(peer(4), T0)]);
    assert_eq!(st.recommended_peers, vec![rec(seed("a"), 6, T0 - 1)]);
    for (_, t) in &st.current_peers {
        assert!(T0 - t <= ttl);
    }
    st.prune(T0);
    assert_eq!(st.current_peers.len(), 1);
}

#[test]
fn rate_limit_blocks_connect_within_a_minute() {
    let mut st = SeederState::new();
    st.recommended_peers.push(rec(PeerSource::Supernode, 1, T0));
    st.tried_peers.push((peer(9), T0 - 59_999));
    assert_eq!(st.take_connect_peer(T0), None);
    assert_eq!(st.tried_peers.len(), 1);
    assert_eq!(st.take_connect_peer(T0 + 1), Some(peer(1)));
    assert_eq!(st.take_connect_peer(T0 + 2), None);
}

#[test]
fn supernode_candidates_come_first() {
    let mut st = SeederState::new();
    st.recommended_peers.push(rec(seed("example.org"), 1, T0));
    st.recommended_peers.push(rec(PeerSource::Supernode, 2, T0));
    assert_eq!(st.get_connect_peer(T0, true), Some(peer(2)));
    assert_eq!(st.get_connect_peer(T0, false), Some(peer(1)));
}

#[test]
fn supernode_target_of_four() {
    let mut st = SeederState::new();
    for b in 1..=5u8 {
        st.recommended_peers.push(rec(PeerSource::Supernode, b, T0));
    }
    for b in 1..=4u8 {
        st.current_peers.push((node(b), T0));
    }
    assert_eq!(st.pick_peer(T0, true), None);
    assert_eq!(st.get_connect_peer(T0, true), None);
    st.current_peers.pop();
    assert_eq!(st.pick_peer(T0, true), Some(peer(4)));
}

#[test]
fn unrestricted_target_of_two() {
    let mut st = SeederState::new();
    st.recommended_peers.push(rec(seed("s"), 1, T0));
    st.recommended_peers.push(rec(seed("s"), 2, T0));
    st.recommended_peers.push(rec(seed("s"), 3, T0));
    st.current_peers.push((node(1), T0));
    assert_eq!(st.get_connect_peer(T0, true), Some(peer(2)));
    st.current_peers.push((node(2), T0));
    assert_eq!(st.get_connect_peer(T0, true), None);
}

#[test]
fn tried_peers_are_skipped() {
    let mut st = SeederState::new();
    st.recommended_peers.push(rec(PeerSource::Supernode, 1, T0));
    st.recommended_peers.push(rec(PeerSource::Supernode, 2, T0));
    st.tried_peers.push((peer(1), T0 - 120_000));
    assert_eq!(st.get_connect_peer(T0, true), Some(peer(2)));
    assert_eq!(st.last_attempt(), T0 - 120_000);
}

#[test]
fn seeds_are_visited_round_robin() {
    let mut st = SeederState::new();
    let seeds = vec![("A".to_string(), false), ("B".to_string(), true), ("C".to_string(), false)];
    let mut seen = Vec::new();
    for i in 0..7u64 {
        let now = T0 + i * 60_000;
        let s = st.next_dns_seed(&seeds, now).unwrap();
        st.dns_result(s.0.clone(), s.1, None, Vec::new(), now);
        seen.push(s.0);
    }
    assert_eq!(seen, vec!["A", "B", "C", "A", "B", "C", "A"]);
}

#[test]
fn dns_lookup_waits_a_minute() {
    let mut st = SeederState::new();
    let seeds = vec![("A".to_string(), false)];
    st.dns_result("A".to_string(), false, None, Vec::new(), T0);
    assert_eq!(st.next_dns_seed(&seeds, T0 + 59_999), None);
    assert_eq!(st.next_dns_seed(&seeds, T0 + 60_000), Some(("A".to_string(), false)));
    assert_eq!(st.next_dns_seed(&Vec::new(), T0 + 60_000), None);
}

#[test]
fn census_every_three_minutes() {
    let mut st = SeederState::new();
    assert!(st.census_due(T0));
    assert_eq!(st.last_get_peers, T0);
    assert!(!st.census_due(T0 + 179_999));
    assert!(st.census_due(T0 + 180_000));
    assert_eq!(st.last_get_peers, T0 + 180_000);
}

#[test]
fn same_address_twice_is_no_change() {
    let mut s = Seeder::new(key(7));
    assert!(!s.has_lladdr());
    assert!(s.got_lladdr(v4(LLADDR_REPLY_MAGIC, [1, 2, 3, 4], 5)));
    assert!(s.has_lladdr());
    assert!(!s.got_lladdr(v4(LLADDR_REPLY_MAGIC, [1, 2, 3, 4], 5)));
    assert!(s.got_lladdr(v4(LLADDR_REPLY_MAGIC, [1, 2, 3, 9], 5)));
    assert_eq!(s.mpi.v4, Some(SocketV4 { ip: [1, 2, 3, 9], port: 5 }));
}

#[test]
fn bad_magic_and_other_family_are_ignored() {
    let mut s = Seeder::new(key(7));
    assert!(!s.got_lladdr(v4(LLADDR_REPLY_MAGIC ^ 1, [1, 2, 3, 4], 5)));
    assert!(!s.got_lladdr(LlAddr { magic: LLADDR_REPLY_MAGIC, addr: LlAddrPayload::Other }));
    assert!(!s.has_lladdr());
    let a6 = SocketV6 { ip: [3; 16], port: 8 };
    assert!(s.got_lladdr(LlAddr { magic: LLADDR_REPLY_MAGIC, addr: LlAddrPayload::Udp6(a6) }));
    assert!(!s.got_lladdr(LlAddr { magic: LLADDR_REPLY_MAGIC, addr: LlAddrPayload::Udp6(a6) }));
}

#[test]
fn credentials_need_password_and_address() {
    let mut s = Seeder::new(key(7));
    assert_eq!(s.mk_creds(), Err(CredsError::MissingPasswd));
    s.public_peer(3, 0x0102030405060708, vec![9, 9]);
    assert_eq!(s.mk_creds(), Err(CredsError::NoAddress));
    s.got_lladdr(v4(LLADDR_REPLY_MAGIC, [1, 2, 3, 4], 5));
    s.got_lladdr(LlAddr {
        magic: LLADDR_REPLY_MAGIC,
        addr: LlAddrPayload::Udp6(SocketV6 { ip: [6; 16], port: 7 }),
    });
    let c = s.mk_creds().unwrap();
    assert_eq!(c.code, vec![9, 9]);
    assert_eq!(c.peers.len(), 2);
    assert_eq!(c.peers[0].address, PeerAddr { ip: PeerIp::V4([1, 2, 3, 4]), port: 5 });
    assert_eq!(c.peers[1].address, PeerAddr { ip: PeerIp::V6([6; 16]), port: 7 });
    for p in &c.peers {
        assert_eq!(p.pubkey, key(7));
        assert_eq!(p.login, 3);
        assert_eq!(p.password, [1, 2, 3, 4, 5, 6, 7, 8]);
        assert_eq!(p.version, CURRENT_PROTOCOL);
    }
}

#[test]
fn public_peer_gives_placeholder_record() {
    let mut s = Seeder::new(key(7));
    let p = s.public_peer(12, 0xff00, vec![]);
    assert_eq!(p.address, PeerAddr { ip: PeerIp::V4([1, 1, 1, 1]), port: 1 });
    assert_eq!(p.pubkey, [0; 32]);
    assert_eq!(p.login, 12);
    assert_eq!(p.password, [0, 0, 0, 0, 0, 0, 0xff, 0]);
    assert_eq!(s.mpi.passwd.as_ref().map(|x| x.user_num), Some(12));
}

#[test]
fn seed_registry_add_update_remove() {
    let mut s = Seeder::new(key(1));
    s.add_dns_seed("a.org".to_string(), false);
    s.add_dns_seed("b.org".to_string(), true);
    s.add_dns_seed("a.org".to_string(), true);
    assert_eq!(
        s.list_dns_seeds(),
        vec![("a.org".to_string(), true), ("b.org".to_string(), true)]
    );
    assert!(s.rm_dns_seed("a.org".to_string()));
    assert!(!s.rm_dns_seed("a.org".to_string()));
    assert_eq!(s.list_dns_seeds(), vec![("b.org".to_string(), true)]);
}

#[test]
fn supernode_peers_queue_and_merge() {
    let mut s = Seeder::new(key(1));
    s.got_peers(vec![peer(1), peer(2)], T0);
    let q = s.take_snode_peers();
    assert_eq!(q, vec![(peer(1), T0), (peer(2), T0)]);
    assert!(s.snode_peers.is_empty());
    let mut st = SeederState::new();
    st.merge_supernode_peers(q);
    assert_eq!(st.recommended_peers[1], rec(PeerSource::Supernode, 2, T0));
}

#[test]
fn core_events_update_connected_peers() {
    let mut st = SeederState::new();
    st.peer_event(node(1), false, T0);
    st.peer_event(node(1), false, T0 + 5);
    assert_eq!(st.current_peers, vec![(node(1), T0 + 5)]);
    st.peer_event(node(1), true, T0 + 6);
    assert!(st.current_peers.is_empty());
}

fn core_msg(t: u32, n: usize) -> Vec<u8> {
    let mut m = t.to_be_bytes().to_vec();
    for i in 0..n {
        m.push(i as u8);
    }
    m
}

#[test]
fn core_message_parsing() {
    assert_eq!(parse_core_event(&[0, 0]), Err(CoreMsgError::Truncated));
    assert_eq!(parse_core_event(&core_msg(77, 64)), Err(CoreMsgError::UnhandledType(77)));
    assert_eq!(parse_core_event(&core_msg(CORE_PEER, 63)), Err(CoreMsgError::Truncated));
    let (gone, n) = parse_core_event(&core_msg(CORE_PEER_GONE, 64)).unwrap();
    assert!(gone);
    let want: Vec<u8> = (16..48).collect();
    assert_eq!(n.public_key.to_vec(), want);
    assert_eq!(n.ip6.to_vec(), (0..16).collect::<Vec<u8>>());
    assert_eq!(n.path, u64::from_be_bytes([48, 49, 50, 51, 52, 53, 54, 55]));
    assert_eq!(n.metric, u32::from_be_bytes([56, 57, 58, 59]));
    assert_eq!(n.version, u32::from_be_bytes([60, 61, 62, 63]));
    let (gone, _) = parse_core_event(&core_msg(CORE_PEER, 70)).unwrap();
    assert!(!gone);
}

#[test]
fn peers_request_is_type_only() {
    assert_eq!(peers_request(), vec![0, 0, 2, 7]);
}

#[test]
fn connect_message_layout() {
    let p = peer(4);
    let m = connect_peer_message(&p, b"abc", b"secret");
    assert_eq!(m.len(), 98);
    assert_eq!(&m[0..4], &[0, 0, 2, 11]);
    assert_eq!(&m[4..20], &[0, 0, 0, 0, 0, 0, 0, 0, 0, 0, 0xff, 0xff, 10, 0, 0, 4]);
    assert_eq!(&m[20..52], &[4; 32]);
    assert_eq!(&m[52..55], b"abc");
    assert_eq!(&m[55..68], &[0; 13]);
    assert_eq!(&m[68..74], b"secret");
    assert_eq!(&m[74..92], &[0; 18]);
    assert_eq!(&m[92..94], &[22, 0]);
    assert_eq!(&m[94..96], &1004u16.to_le_bytes());
    assert_eq!(&m[96..98], &[0, 0]);
    let mut p6 = peer(5);
    p6.address.ip = PeerIp::V6([9; 16]);
    assert_eq!(&connect_peer_message(&p6, b"", b"")[4..20], &[9; 16]);
}

#[test]
fn end_to_end_seed_to_connect() {
    let mut s = Seeder::new(key(1));
    s.add_dns_seed("example.org".to_string(), true);
    let mut st = SeederState::new();
    let seeds = s.list_dns_seeds();
    let plan = st.cycle_begin(&seeds, s.take_snode_peers(), T0);
    assert!(plan.request_peers);
    assert_eq!(plan.lookup, Some(("example.org".to_string(), true)));
    st.dns_result("example.org".to_string(), true, Some(key(42)), vec![peer(8)], T0);
    assert_eq!(st.recommended_snode, Some(key(42)));
    assert_eq!(st.recommended_peers, vec![rec(seed("example.org"), 8, T0)]);
    st.tried_peers.push((peer(99), T0));
    assert_eq!(st.take_connect_peer(T0), None);
    let later = T0 + 60_000;
    let got = st.take_connect_peer(later).unwrap();
    assert_eq!(got.address, peer(8).address);
    assert_eq!(got.pubkey, key(8));
    assert_eq!(st.take_connect_peer(later + 60_000), None);
    assert_eq!(st.tried_peers.iter().filter(|(p, _)| p.pubkey == key(8)).count(), 1);
}

#[test]
fn untrusted_seed_key_is_ignored() {
    let mut st = SeederState::new();
    st.dns_result("x".to_string(), false, Some(key(42)), vec![], T0);
    assert_eq!(st.recommended_snode, None);
    assert_eq!(st.last_dns_req, T0);
}

#[test]
fn crypto_state_codes() {
    assert_eq!(RTypes_CryptoAuth_State_t::Established.code(), 100);
    assert_eq!(RTypes_CryptoAuth_State_t::from_code(3), Some(RTypes_CryptoAuth_State_t::SentKey));
    assert_eq!(RTypes_CryptoAuth_State_t::from_code(5), None);
    let l = RTypes_StrList_t::new(vec!["a".to_string(), "b".to_string()]);
    assert_eq!(l.len, 2);
}

#[test]
fn no_cooldown_before_first_attempt() {
    let mut st = SeederState::new();
    st.recommended_peers.push(rec(seed("s"), 1, 0));
    st.recommended_peers.push(rec(PeerSource::Supernode, 2, 0));
    assert_eq!(st.take_connect_peer(0), Some(peer(2)));
    assert_eq!(st.take_connect_peer(59_999), None);
    assert_eq!(st.take_connect_peer(60_000), Some(peer(1)));
}

#[test]
fn control_loop_decisions() {
    assert_eq!(control_step(&LoopEvent::CycleFinished { ok: false }), LoopAction::Backoff { ms: 3_000 });
    assert_eq!(control_step(&LoopEvent::BackoffElapsed), LoopAction::OpenWindow { ms: 10_000 });
    assert_eq!(control_step(&LoopEvent::CycleFinished { ok: true }), LoopAction::OpenWindow { ms: 10_000 });
    assert_eq!(control_step(&LoopEvent::CycleTimedOut), LoopAction::OpenWindow { ms: 10_000 });
    assert_eq!(control_step(&LoopEvent::Shutdown), LoopAction::Stop);
    assert_eq!(control_step(&LoopEvent::Inbound { parsed: true }), LoopAction::KeepWaiting);
    assert_eq!(control_step(&LoopEvent::Inbound { parsed: false }), LoopAction::StartCycle);
    assert_eq!(control_step(&LoopEvent::InboxClosed), LoopAction::StartCycle);
    assert_eq!(control_step(&LoopEvent::WindowElapsed), LoopAction::StartCycle);
}

#[test]
fn own_address_report_decoding() {
    let mut addr = [0u8; 16];
    addr[..4].copy_from_slice(&[192, 168, 1, 2]);
    let a = LlAddr::decode(LLADDR_REPLY_MAGIC, LLADDR_UDP4_TYPE, [0x1f, 0x90], addr);
    assert_eq!(a.addr, LlAddrPayload::Udp4(SocketV4 { ip: [192, 168, 1, 2], port: 8080 }));
    let b = LlAddr::decode(7, LLADDR_UDP6_TYPE, [0, 1], [5; 16]);
    assert_eq!(b.magic, 7);
    assert_eq!(b.addr, LlAddrPayload::Udp6(SocketV6 { ip: [5; 16], port: 1 }));
    let c = LlAddr::decode(LLADDR_REPLY_MAGIC, LLADDR_OTHER_TYPE, [0, 1], [5; 16]);
    assert_eq!(c.addr, LlAddrPayload::Other);
    let d = LlAddr::decode(LLADDR_REPLY_MAGIC, 200, [0, 1], [5; 16]);
    assert_eq!(d.addr, LlAddrPayload::Unknown(200));
    let mut s = Seeder::new(key(1));
    assert!(!s.got_lladdr(d));
    assert!(!s.has_lladdr());
    assert!(s.got_lladdr(a));
}

#[test]
fn add_seed_updates_first_of_its_name() {
    let mut s = Seeder::new(key(1));
    s.dns_seeds.push(("a".to_string(), false));
    s.dns_seeds.push(("a".to_string(), false));
    s.add_dns_seed("a".to_string(), true);
    assert_eq!(s.list_dns_seeds(), vec![("a".to_string(), true), ("a".to_string(), false)]);
}

#[test]
fn tried_peer_is_not_reconnected_within_ttl() {
    let mut st = SeederState::new();
    st.recommended_peers.push(rec(PeerSource::Supernode, 1, T0));
    assert_eq!(st.take_connect_peer(T0), Some(peer(1)));
    let mut now = T0;
    for _ in 0..19 {
        now += 60_000;
        st.recommended_peers.push(rec(PeerSource::Supernode, 1, now));
        st.prune(now);
        assert_eq!(st.take_connect_peer(now), None);
    }
    now = T0 + 20 * 60_000;
    st.prune(now);
    assert_eq!(st.take_connect_peer(now), Some(peer(1)));
}
