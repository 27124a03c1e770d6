use vstd::prelude::*;
use crate::peer::{CjdnsPeer, PeerAddr, PeerIp};
use crate::pool::distinct_names;

verus! {

/// The protocol version that this node speaks.
pub const CURRENT_PROTOCOL: u16 = 22;

/// The tag that marks a reply carrying this node's own address.
pub const LLADDR_REPLY_MAGIC: u32 = 0x4c4c_4152;

/// Address family tags of a reply carrying this node's own address.
pub const LLADDR_UDP4_TYPE: u8 = 1;

pub const LLADDR_UDP6_TYPE: u8 = 2;

pub const LLADDR_OTHER_TYPE: u8 = 3;

/// An IPv4 address and port.
#[derive(Clone, Copy, Debug, PartialEq, Eq)]
pub struct SocketV4 {
    pub ip: [u8; 4],
    pub port: u16,
}

/// An IPv6 address and port.
#[derive(Clone, Copy, Debug, PartialEq, Eq)]
pub struct SocketV6 {
    pub ip: [u8; 16],
    pub port: u16,
}

/// The address that a peer saw this node at, by family.
#[derive(Clone, Copy, Debug, PartialEq, Eq)]
pub enum LlAddrPayload {
    Udp4(SocketV4),
    Udp6(SocketV6),
    Other,
    /// A family tag that is none of the known ones.
    Unknown(u8),
}

/// A reply that reports this node's own address, with its tag.
#[derive(Clone, Copy, Debug, PartialEq, Eq)]
pub struct LlAddr {
    pub magic: u32,
    pub addr: LlAddrPayload,
}

/// The credentials that this node hands out as a public peer.
#[derive(Clone, Debug, PartialEq, Eq)]
pub struct MyPeeringPasswd {
    pub user_num: u16,
    pub passwd: u64,
    pub code: Vec<u8>,
}

/// What this node knows of itself as a public peer.
#[derive(Clone, Debug, PartialEq, Eq)]
pub struct MyPeeringInfo {
    pub passwd: Option<MyPeeringPasswd>,
    pub v4: Option<SocketV4>,
    pub v6: Option<SocketV6>,
}

/// What is posted to the supernode: one peer record per known address, then
/// the identity code.
#[derive(Clone, Debug, PartialEq, Eq)]
pub struct Creds {
    pub peers: Vec<CjdnsPeer>,
    pub code: Vec<u8>,
}

/// Why credentials could not be made.
#[derive(Clone, Copy, Debug, PartialEq, Eq)]
pub enum CredsError {
    /// No login and password were assigned.
    MissingPasswd,
    /// Neither an IPv4 nor an IPv6 address is known.
    NoAddress,
}

/// The peer-discovery state that the rest of the node talks to: its key, the
/// DNS seeds, the supernode's latest recommendations and its own peering
/// details.
pub struct Seeder {
    pub my_pubkey: [u8; 32],
    pub mpi: MyPeeringInfo,
    pub dns_seeds: Vec<(String, bool)>,
    pub snode_peers: Vec<(CjdnsPeer, u64)>,
}

pub open spec fn same_v4(a: SocketV4, b: SocketV4) -> bool {
    a.ip@ == b.ip@ && a.port == b.port
}

pub open spec fn same_v6(a: SocketV6, b: SocketV6) -> bool {
    a.ip@ == b.ip@ && a.port == b.port
}

/// What a report of this node's own address does: the addresses kept after it,
/// and whether it is news.
pub open spec fn lladdr_update(
    v4: Option<SocketV4>,
    v6: Option<SocketV6>,
    lla: LlAddr,
) -> (Option<SocketV4>, Option<SocketV6>, bool) {
    if lla.magic != LLADDR_REPLY_MAGIC {
        (v4, v6, false)
    } else {
        match lla.addr {
            LlAddrPayload::Udp4(sa) => match v4 {
                Some(cur) => if same_v4(cur, sa) {
                    (v4, v6, false)
                } else {
                    (Some(sa), v6, true)
                },
                None => (Some(sa), v6, true),
            },
            LlAddrPayload::Udp6(sa) => match v6 {
                Some(cur) => if same_v6(cur, sa) {
                    (v4, v6, false)
                } else {
                    (v4, Some(sa), true)
                },
                None => (v4, Some(sa), true),
            },
            LlAddrPayload::Other => (v4, v6, false),
            LlAddrPayload::Unknown(_) => (v4, v6, false),
        }
    }
}

/// Eight bytes, most significant first.
pub open spec fn be64(x: u64) -> Seq<u8> {
    seq![
        (x / 0x100_0000_0000_0000) as u8,
        (x / 0x1_0000_0000_0000 % 0x100) as u8,
        (x / 0x100_0000_0000 % 0x100) as u8,
        (x / 0x1_0000_0000 % 0x100) as u8,
        (x / 0x100_0000 % 0x100) as u8,
        (x / 0x1_0000 % 0x100) as u8,
        (x / 0x100 % 0x100) as u8,
        (x % 0x100) as u8,
    ]
}

/// `p` announces this node at `address` with the given key and credentials.
pub open spec fn announces(p: CjdnsPeer, key: [u8; 32], pw: MyPeeringPasswd, address: PeerAddr) -> bool {
    &&& p.address == address
    &&& p.pubkey == key
    &&& p.login == pw.user_num
    &&& p.password@ == be64(pw.passwd)
    &&& p.version == CURRENT_PROTOCOL
}

/// `c` holds one record per known address, in order, and the identity code.
pub open spec fn creds_of(c: Creds, key: [u8; 32], m: MyPeeringInfo) -> bool {
    let pw = m.passwd->Some_0;
    &&& c.code@ == pw.code@
    &&& c.peers@.len() == known_addrs(m).len()
    &&& forall|i: int|
        0 <= i < c.peers@.len() ==> announces(#[trigger] c.peers@[i], key, pw, known_addrs(m)[i])
}

pub open spec fn v4_addr(s: SocketV4) -> PeerAddr {
    PeerAddr { ip: PeerIp::V4(s.ip), port: s.port }
}

pub open spec fn v6_addr(s: SocketV6) -> PeerAddr {
    PeerAddr { ip: PeerIp::V6(s.ip), port: s.port }
}

/// The addresses that credentials are made for: IPv4 first, then IPv6.
pub open spec fn known_addrs(m: MyPeeringInfo) -> Seq<PeerAddr> {
    (if m.v4 is Some {
        seq![v4_addr(m.v4->Some_0)]
    } else {
        Seq::empty()
    }) + (if m.v6 is Some {
        seq![v6_addr(m.v6->Some_0)]
    } else {
        Seq::empty()
    })
}

/// Whether a seed of that name is registered.
pub open spec fn has_seed(seeds: Seq<(String, bool)>, name: Seq<char>) -> bool {
    exists|i: int| 0 <= i < seeds.len() && (#[trigger] seeds[i]).0@ == name
}

/// Seed `i` is the first of that name.
pub open spec fn first_named(seeds: Seq<(String, bool)>, name: Seq<char>, i: int) -> bool {
    &&& 0 <= i < seeds.len()
    &&& seeds[i].0@ == name
    &&& forall|j: int| 0 <= j < i ==> (#[trigger] seeds[j]).0@ != name
}

/// The bytes of `x`, most significant first.
pub fn be_bytes(x: u64) -> (r: [u8; 8])
    ensures
        r@ == be64(x),
{
    let r = [
        (x / 0x100_0000_0000_0000) as u8,
        (x / 0x1_0000_0000_0000 % 0x100) as u8,
        (x / 0x100_0000_0000 % 0x100) as u8,
        (x / 0x1_0000_0000 % 0x100) as u8,
        (x / 0x100_0000 % 0x100) as u8,
        (x / 0x1_0000 % 0x100) as u8,
        (x / 0x100 % 0x100) as u8,
        (x % 0x100) as u8,
    ];
    assert(r@ =~= be64(x));
    r
}

fn same_ip4(a: &[u8; 4], b: &[u8; 4]) -> (r: bool)
    ensures
        r == (a@ == b@),
{
    let r = a[0] == b[0] && a[1] == b[1] && a[2] == b[2] && a[3] == b[3];
    if r {
        assert(a@ =~= b@);
    }
    r
}

fn same_ip6(a: &[u8; 16], b: &[u8; 16]) -> (r: bool)
    ensures
        r == (a@ == b@),
{
    let mut i: usize = 0;
    while i < 16
        invariant
            i <= 16,
            a@.len() == 16,
            b@.len() == 16,
            forall|j: int| 0 <= j < i ==> a@[j] == b@[j],
        decreases 16 - i,
    {
        if a[i] != b[i] {
            return false;
        }
        i = i + 1;
    }
    assert(a@ =~= b@);
    true
}

impl LlAddr {
    /// Reads a reply from its tag, family tag, port in network byte order and
    /// address bytes; an IPv4 address is the first four of them.
    pub fn decode(magic: u32, family: u8, port_be: [u8; 2], addr: [u8; 16]) -> (r: LlAddr)
        ensures
            r.magic == magic,
            family == LLADDR_UDP4_TYPE ==> (r.addr matches LlAddrPayload::Udp4(sa) && sa.ip@
                == addr@.take(4) && sa.port == port_be@[0] as int * 256 + port_be@[1] as int),
            family == LLADDR_UDP6_TYPE ==> (r.addr matches LlAddrPayload::Udp6(sa) && sa.ip@
                == addr@ && sa.port == port_be@[0] as int * 256 + port_be@[1] as int),
            family == LLADDR_OTHER_TYPE ==> r.addr == LlAddrPayload::Other,
            family != LLADDR_UDP4_TYPE && family != LLADDR_UDP6_TYPE && family
                != LLADDR_OTHER_TYPE ==> r.addr == LlAddrPayload::Unknown(family),
    {
        let port: u16 = port_be[0] as u16 * 256 + port_be[1] as u16;
        let payload = if family == LLADDR_UDP4_TYPE {
            let ip = [addr[0], addr[1], addr[2], addr[3]];
            assert(ip@ =~= addr@.take(4));
            LlAddrPayload::Udp4(SocketV4 { ip, port })
        } else if family == LLADDR_UDP6_TYPE {
            LlAddrPayload::Udp6(SocketV6 { ip: addr, port })
        } else if family == LLADDR_OTHER_TYPE {
            LlAddrPayload::Other
        } else {
            LlAddrPayload::Unknown(family)
        };
        LlAddr { magic, addr: payload }
    }
}

impl Seeder {
    pub fn new(my_pubkey: [u8; 32]) -> (r: Self)
        ensures
            r.my_pubkey == my_pubkey,
            r.mpi.passwd is None,
            r.mpi.v4 is None,
            r.mpi.v6 is None,
            r.dns_seeds@.len() == 0,
            r.snode_peers@.len() == 0,
    {
        Seeder {
            my_pubkey,
            mpi: MyPeeringInfo { passwd: None, v4: None, v6: None },
            dns_seeds: Vec::new(),
            snode_peers: Vec::new(),
        }
    }

    /// Whether an address of this node has been reported.
    pub fn has_lladdr(&self) -> (r: bool)
        ensures
            r == (self.mpi.v4 is Some || self.mpi.v6 is Some),
    {
        self.mpi.v4.is_some() || self.mpi.v6.is_some()
    }

    /// Takes a report of the address that a peer sees this node at. A report
    /// with a wrong tag, or of another family, changes nothing. Returns
    /// whether the address is new or differs from the one known.
    pub fn got_lladdr(&mut self, lla: LlAddr) -> (r: bool)
        ensures
            (final(self).mpi.v4, final(self).mpi.v6, r) == lladdr_update(
                old(self).mpi.v4,
                old(self).mpi.v6,
                lla,
            ),
            final(self).mpi.passwd == old(self).mpi.passwd,
            final(self).my_pubkey == old(self).my_pubkey,
            final(self).dns_seeds == old(self).dns_seeds,
            final(self).snode_peers == old(self).snode_peers,
    {
        if lla.magic != LLADDR_REPLY_MAGIC {
            return false;
        }
        match lla.addr {
            LlAddrPayload::Udp4(sa) => {
                if let Some(cur) = &self.mpi.v4 {
                    if same_ip4(&cur.ip, &sa.ip) && cur.port == sa.port {
                        return false;
                    }
                }
                self.mpi.v4 = Some(sa);
                true
            },
            LlAddrPayload::Udp6(sa) => {
                if let Some(cur) = &self.mpi.v6 {
                    if same_ip6(&cur.ip, &sa.ip) && cur.port == sa.port {
                        return false;
                    }
                }
                self.mpi.v6 = Some(sa);
                true
            },
            LlAddrPayload::Other => false,
            LlAddrPayload::Unknown(_) => false,
        }
    }

    /// The credentials to post to the supernode: one record per known
    /// address, binding it to this node's key, login, password and protocol
    /// version, and the identity code.
    pub fn mk_creds(&self) -> (r: Result<Creds, CredsError>)
        ensures
            self.mpi.passwd is None ==> r == Err::<Creds, CredsError>(CredsError::MissingPasswd),
            self.mpi.passwd is Some && self.mpi.v4 is None && self.mpi.v6 is None ==> r == Err::<
                Creds,
                CredsError,
            >(CredsError::NoAddress),
            self.mpi.passwd is Some && (self.mpi.v4 is Some || self.mpi.v6 is Some) ==> (r matches Ok(
                c,
            ) && creds_of(c, self.my_pubkey, self.mpi)),
    {
        let pw = match &self.mpi.passwd {
            Some(x) => x,
            None => {
                return Err(CredsError::MissingPasswd);
            },
        };
        if self.mpi.v4.is_none() && self.mpi.v6.is_none() {
            return Err(CredsError::NoAddress);
        }
        let password = be_bytes(pw.passwd);
        let mut peers: Vec<CjdnsPeer> = Vec::new();
        if let Some(v4) = &self.mpi.v4 {
            peers.push(
                CjdnsPeer {
                    address: PeerAddr { ip: PeerIp::V4(v4.ip), port: v4.port },
                    pubkey: self.my_pubkey,
                    login: pw.user_num,
                    password,
                    version: CURRENT_PROTOCOL,
                },
            );
        }
        if let Some(v6) = &self.mpi.v6 {
            peers.push(
                CjdnsPeer {
                    address: PeerAddr { ip: PeerIp::V6(v6.ip), port: v6.port },
                    pubkey: self.my_pubkey,
                    login: pw.user_num,
                    password,
                    version: CURRENT_PROTOCOL,
                },
            );
        }
        let code = pw.code.clone();
        Ok(Creds { peers, code })
    }

    /// Stores the login number, password and code under which this node
    /// peers publicly, and returns the record whose peering line gives the
    /// login and password to authorize: a placeholder address and key.
    pub fn public_peer(&mut self, user_num: u16, passwd: u64, code: Vec<u8>) -> (r: CjdnsPeer)
        ensures
            final(self).mpi.passwd == Some(MyPeeringPasswd { user_num, passwd, code }),
            final(self).mpi.v4 == old(self).mpi.v4,
            final(self).mpi.v6 == old(self).mpi.v6,
            final(self).my_pubkey == old(self).my_pubkey,
            final(self).dns_seeds == old(self).dns_seeds,
            final(self).snode_peers == old(self).snode_peers,
            r.address.ip == PeerIp::V4([1u8, 1u8, 1u8, 1u8]),
            r.address.port == 1,
            r.pubkey@ == Seq::new(32, |_i: int| 0u8),
            r.login == user_num,
            r.password@ == be64(passwd),
            r.version == CURRENT_PROTOCOL,
    {
        self.mpi.passwd = Some(MyPeeringPasswd { user_num, passwd, code });
        let r = CjdnsPeer {
            address: PeerAddr { ip: PeerIp::V4([1u8, 1u8, 1u8, 1u8]), port: 1 },
            pubkey: [0u8; 32],
            login: user_num,
            password: be_bytes(passwd),
            version: CURRENT_PROTOCOL,
        };
        assert(r.pubkey@ =~= Seq::new(32, |_i: int| 0u8));
        r
    }

    /// Queues peers that the supernode recommended, received at `now`, for
    /// the next discovery cycle.
    pub fn got_peers(&mut self, peers: Vec<CjdnsPeer>, now: u64)
        ensures
            final(self).snode_peers@ == old(self).snode_peers@ + peers@.map_values(
                |p: CjdnsPeer| (p, now),
            ),
            final(self).mpi == old(self).mpi,
            final(self).my_pubkey == old(self).my_pubkey,
            final(self).dns_seeds == old(self).dns_seeds,
    {
        let ghost f = |p: CjdnsPeer| (p, now);
        let mut i: usize = 0;
        while i < peers.len()
            invariant
                i <= peers@.len(),
                self.snode_peers@ == old(self).snode_peers@ + peers@.take(i as int).map_values(f),
                forall|p: CjdnsPeer| #[trigger] f(p) == (p, now),
                self.mpi == old(self).mpi,
                self.my_pubkey == old(self).my_pubkey,
                self.dns_seeds == old(self).dns_seeds,
            decreases peers@.len() - i,
        {
            let p = peers[i];
            self.snode_peers.push((p, now));
            assert(peers@.take(i + 1) =~= peers@.take(i as int).push(p));
            assert(peers@.take(i + 1).map_values(f) =~= peers@.take(i as int).map_values(f).push(
                (p, now),
            ));
            i = i + 1;
            assert(self.snode_peers@ =~= old(self).snode_peers@ + peers@.take(i as int).map_values(
                f,
            ));
        }
        assert(peers@.take(i as int) =~= peers@);
    }

    /// Hands over the supernode's queued recommendations, leaving none.
    pub fn take_snode_peers(&mut self) -> (r: Vec<(CjdnsPeer, u64)>)
        ensures
            r@ == old(self).snode_peers@,
            final(self).snode_peers@.len() == 0,
            final(self).mpi == old(self).mpi,
            final(self).my_pubkey == old(self).my_pubkey,
            final(self).dns_seeds == old(self).dns_seeds,
    {
        let mut out: Vec<(CjdnsPeer, u64)> = Vec::new();
        let mut i: usize = 0;
        while i < self.snode_peers.len()
            invariant
                i <= self.snode_peers@.len(),
                out@ == self.snode_peers@.take(i as int),
            decreases self.snode_peers@.len() - i,
        {
            out.push(self.snode_peers[i]);
            i = i + 1;
            assert(out@ =~= self.snode_peers@.take(i as int));
        }
        assert(self.snode_peers@.take(i as int) =~= self.snode_peers@);
        self.snode_peers = Vec::new();
        out
    }

    /// Registers a DNS seed, or sets the trust flag of the first one of that
    /// name.
    pub fn add_dns_seed(&mut self, seed: String, trust_snode: bool)
        ensures
            has_seed(old(self).dns_seeds@, seed@) ==> exists|i: int|
                first_named(old(self).dns_seeds@, seed@, i) && final(self).dns_seeds@ == old(
                    self,
                ).dns_seeds@.update(i, (old(self).dns_seeds@[i].0, trust_snode)),
            !has_seed(old(self).dns_seeds@, seed@) ==> final(self).dns_seeds@ == old(
                self,
            ).dns_seeds@.push((seed, trust_snode)),
            distinct_names(old(self).dns_seeds@) ==> distinct_names(final(self).dns_seeds@),
            final(self).mpi == old(self).mpi,
            final(self).my_pubkey == old(self).my_pubkey,
            final(self).snode_peers == old(self).snode_peers,
    {
        let mut found = false;
        let ghost mut first: int = 0;
        let mut out: Vec<(String, bool)> = Vec::new();
        let mut i: usize = 0;
        while i < self.dns_seeds.len()
            invariant
                i <= self.dns_seeds@.len(),
                *self == *old(self),
                out@.len() == i,
                found == exists|j: int| 0 <= j < i && (#[trigger] self.dns_seeds@[j]).0@ == seed@,
                found ==> 0 <= first < i && first_named(self.dns_seeds@, seed@, first),
                forall|j: int|
                    0 <= j < i ==> (#[trigger] out@[j]) == if found && j == first {
                        (self.dns_seeds@[j].0, trust_snode)
                    } else {
                        self.dns_seeds@[j]
                    },
            decreases self.dns_seeds@.len() - i,
        {
            let name = self.dns_seeds[i].0.clone();
            if !found && name == seed {
                out.push((name, trust_snode));
                found = true;
                proof {
                    first = i as int;
                }
            } else {
                let t = self.dns_seeds[i].1;
                out.push((name, t));
            }
            i = i + 1;
        }
        if !found {
            out.push((seed, trust_snode));
            assert(out@ =~= old(self).dns_seeds@.push((seed, trust_snode)));
        } else {
            assert(out@ =~= old(self).dns_seeds@.update(
                first,
                (old(self).dns_seeds@[first].0, trust_snode),
            ));
        }
        self.dns_seeds = out;
    }

    /// Removes the seed of that name; returns whether there was one.
    pub fn rm_dns_seed(&mut self, seed: String) -> (r: bool)
        ensures
            r == has_seed(old(self).dns_seeds@, seed@),
            final(self).dns_seeds@ == old(self).dns_seeds@.filter(
                |e: (String, bool)| e.0@ != seed@,
            ),
            distinct_names(old(self).dns_seeds@) ==> distinct_names(final(self).dns_seeds@),
            final(self).mpi == old(self).mpi,
            final(self).my_pubkey == old(self).my_pubkey,
            final(self).snode_peers == old(self).snode_peers,
    {
        let ghost f = |e: (String, bool)| e.0@ != seed@;
        let mut found = false;
        let mut out: Vec<(String, bool)> = Vec::new();
        let mut i: usize = 0;
        while i < self.dns_seeds.len()
            invariant
                i <= self.dns_seeds@.len(),
                *self == *old(self),
                out@ == self.dns_seeds@.take(i as int).filter(f),
                forall|e: (String, bool)| #[trigger] f(e) == (e.0@ != seed@),
                found == exists|j: int| 0 <= j < i && (#[trigger] self.dns_seeds@[j]).0@ == seed@,
            decreases self.dns_seeds@.len() - i,
        {
            reveal(Seq::filter);
            assert(self.dns_seeds@.take(i + 1).drop_last() =~= self.dns_seeds@.take(i as int));
            let name = self.dns_seeds[i].0.clone();
            let t = self.dns_seeds[i].1;
            if name == seed {
                found = true;
            } else {
                out.push((name, t));
            }
            i = i + 1;
        }
        assert(self.dns_seeds@.take(i as int) =~= self.dns_seeds@);
        self.dns_seeds = out;
        proof {
            if distinct_names(old(self).dns_seeds@) {
                lemma_filter_unique(old(self).dns_seeds@, f);
            }
        }
        found
    }

    /// A copy of the registered seeds.
    pub fn list_dns_seeds(&self) -> (r: Vec<(String, bool)>)
        ensures
            r@ == self.dns_seeds@,
    {
        let mut out: Vec<(String, bool)> = Vec::new();
        let mut i: usize = 0;
        while i < self.dns_seeds.len()
            invariant
                i <= self.dns_seeds@.len(),
                out@ == self.dns_seeds@.take(i as int),
            decreases self.dns_seeds@.len() - i,
        {
            out.push((self.dns_seeds[i].0.clone(), self.dns_seeds[i].1));
            i = i + 1;
            assert(out@ =~= self.dns_seeds@.take(i as int));
        }
        assert(self.dns_seeds@.take(i as int) =~= self.dns_seeds@);
        out
    }
}

proof fn lemma_filter_unique(s: Seq<(String, bool)>, f: spec_fn((String, bool)) -> bool)
    requires
        distinct_names(s),
    ensures
        distinct_names(s.filter(f)),
    decreases s.len(),
{
    reveal(Seq::filter);
    if s.len() > 0 {
        lemma_filter_unique(s.drop_last(), f);
        let t = s.drop_last().filter(f);
        assert forall|j: int| 0 <= j < t.len() implies (#[trigger] t[j]).0@ != s.last().0@ by {
            assert(t.contains(t[j]));
            s.drop_last().lemma_filter_contains_rev(f, t[j]);
            let k = choose|k: int| 0 <= k < s.drop_last().len() && s.drop_last()[k] == t[j];
            assert(s[k] == t[j]);
        }
    }
}

/// Reporting an address that is already known is no change; reporting one
/// that differs from it is.
pub proof fn lemma_address_change(v4: Option<SocketV4>, v6: Option<SocketV6>, a: SocketV4, b: SocketV4)
    ensures
        ({
            let first = lladdr_update(v4, v6, LlAddr { magic: LLADDR_REPLY_MAGIC, addr: LlAddrPayload::Udp4(a) });
            let again = lladdr_update(first.0, first.1, LlAddr { magic: LLADDR_REPLY_MAGIC, addr: LlAddrPayload::Udp4(a) });
            let other = lladdr_update(first.0, first.1, LlAddr { magic: LLADDR_REPLY_MAGIC, addr: LlAddrPayload::Udp4(b) });
            &&& !again.2
            &&& again.0 == first.0
            &&& !same_v4(a, b) ==> other.2 && other.0 == Some(b)
        }),
{
}

} // verus!
