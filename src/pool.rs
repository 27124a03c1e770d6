use vstd::prelude::*;
use crate::peer::{same_key, CjdnsPeer};

verus! {

/// How long an entry of any table stays without being seen again.
pub const TTL_MS: u64 = 1_200_000;

/// The shortest time between two connect attempts.
pub const CONNECT_COOLDOWN_MS: u64 = 60_000;

/// The shortest time between two DNS seed lookups.
pub const DNS_INTERVAL_MS: u64 = 60_000;

/// The shortest time between two requests for the core's peer list.
pub const CENSUS_INTERVAL_MS: u64 = 180_000;

/// A peer as the routing core reports it.
#[derive(Clone, Copy, Debug, PartialEq, Eq)]
pub struct PeerNode {
    pub ip6: [u8; 16],
    pub public_key: [u8; 32],
    pub path: u64,
    pub metric: u32,
    pub version: u32,
}

/// Where a recommendation came from: the supernode, or a named DNS seed.
#[derive(Debug, PartialEq, Eq)]
pub enum PeerSource {
    Supernode,
    Seed(String),
}

impl PeerSource {
    /// A copy of this source.
    pub fn duplicate(&self) -> (r: Self)
        ensures
            r == *self,
    {
        match self {
            PeerSource::Supernode => PeerSource::Supernode,
            PeerSource::Seed(s) => PeerSource::Seed(s.clone()),
        }
    }
}

/// A recommended peer, with its source and when it was last recommended.
#[derive(Debug, PartialEq, Eq)]
pub struct Recommendation {
    pub source: PeerSource,
    pub peer: CjdnsPeer,
    pub seen: u64,
}

impl Recommendation {
    /// A copy of this recommendation.
    pub fn duplicate(&self) -> (r: Self)
        ensures
            r == *self,
    {
        Recommendation { source: self.source.duplicate(), peer: self.peer, seen: self.seen }
    }
}

/// The tables that the discovery cycle reads and maintains.
pub struct SeederState {
    /// Names of the seeds looked up since the rotation last restarted.
    pub tried_seeds: Vec<String>,
    /// Peers that the core reported as connected, with when.
    pub current_peers: Vec<(PeerNode, u64)>,
    /// Peers recommended by the supernode and by the seeds.
    pub recommended_peers: Vec<Recommendation>,
    /// Peers that a connect was sent for, with when.
    pub tried_peers: Vec<(CjdnsPeer, u64)>,
    pub last_get_peers: u64,
    pub last_dns_req: u64,
    /// The supernode key that the last trusted seed named.
    pub recommended_snode: Option<[u8; 32]>,
}

/// An entry seen at `seen` is still live at `now`.
pub open spec fn fresh(seen: u64, now: u64) -> bool {
    seen + TTL_MS > now
}

pub open spec fn is_connected(current: Seq<(PeerNode, u64)>, key: Seq<u8>) -> bool {
    exists|i: int| 0 <= i < current.len() && (#[trigger] current[i]).0.public_key@ == key
}

pub open spec fn is_tried(tried: Seq<(CjdnsPeer, u64)>, key: Seq<u8>) -> bool {
    exists|i: int| 0 <= i < tried.len() && (#[trigger] tried[i]).0.pubkey@ == key
}

/// Whether a recommendation is looked at in a pass restricted to the supernode.
pub open spec fn considered(r: Recommendation, restricted: bool) -> bool {
    !restricted || r.source is Supernode
}

/// How many considered recommendations name a connected peer.
pub open spec fn connected_count(
    recs: Seq<Recommendation>,
    current: Seq<(PeerNode, u64)>,
    restricted: bool,
) -> nat
    decreases recs.len(),
{
    if recs.len() == 0 {
        0
    } else {
        connected_count(recs.drop_last(), current, restricted) + if considered(
            recs.last(),
            restricted,
        ) && is_connected(current, recs.last().peer.pubkey@) {
            1nat
        } else {
            0nat
        }
    }
}

/// The first considered recommendation whose peer is neither connected nor
/// recently tried.
pub open spec fn first_candidate(
    recs: Seq<Recommendation>,
    current: Seq<(PeerNode, u64)>,
    tried: Seq<(CjdnsPeer, u64)>,
    restricted: bool,
) -> Option<CjdnsPeer>
    decreases recs.len(),
{
    if recs.len() == 0 {
        None
    } else {
        match first_candidate(recs.drop_last(), current, tried, restricted) {
            Some(p) => Some(p),
            None => {
                let r = recs.last();
                if considered(r, restricted) && !is_connected(current, r.peer.pubkey@) && !is_tried(
                    tried,
                    r.peer.pubkey@,
                ) {
                    Some(r.peer)
                } else {
                    None
                }
            },
        }
    }
}

/// The time of the latest connect attempt, 0 when there was none.
pub open spec fn last_attempt(tried: Seq<(CjdnsPeer, u64)>) -> u64
    decreases tried.len(),
{
    if tried.len() == 0 {
        0
    } else {
        let rest = last_attempt(tried.drop_last());
        if tried.last().1 > rest {
            tried.last().1
        } else {
            rest
        }
    }
}

/// A connect attempt was made, the latest less than a minute before `now`.
pub open spec fn cooling(tried: Seq<(CjdnsPeer, u64)>, now: u64) -> bool {
    tried.len() > 0 && last_attempt(tried) + CONNECT_COOLDOWN_MS > now
}

/// How many connected peers a pass aims for.
pub open spec fn target(restricted: bool) -> nat {
    if restricted {
        4
    } else {
        2
    }
}

impl SeederState {
    /// The peer that one pass selects.
    pub open spec fn pick(&self, now: u64, restricted: bool) -> Option<CjdnsPeer> {
        if cooling(self.tried_peers@, now) {
            None
        } else {
            match first_candidate(
                self.recommended_peers@,
                self.current_peers@,
                self.tried_peers@,
                restricted,
            ) {
                Some(c) => if connected_count(
                    self.recommended_peers@,
                    self.current_peers@,
                    restricted,
                ) < target(restricted) {
                    Some(c)
                } else {
                    None
                },
                None => None,
            }
        }
    }

    /// The peer to connect to: from the supernode's recommendations first,
    /// else from all of them.
    pub open spec fn connect_choice(&self, now: u64) -> Option<CjdnsPeer> {
        if self.pick(now, true) is Some {
            self.pick(now, true)
        } else {
            self.pick(now, false)
        }
    }

    pub fn new() -> (r: Self)
        ensures
            r.tried_seeds@.len() == 0,
            r.current_peers@.len() == 0,
            r.recommended_peers@.len() == 0,
            r.tried_peers@.len() == 0,
            r.last_get_peers == 0,
            r.last_dns_req == 0,
            r.recommended_snode is None,
    {
        SeederState {
            tried_seeds: Vec::new(),
            current_peers: Vec::new(),
            recommended_peers: Vec::new(),
            tried_peers: Vec::new(),
            last_get_peers: 0,
            last_dns_req: 0,
            recommended_snode: None,
        }
    }

    fn connected(&self, key: &[u8; 32]) -> (r: bool)
        ensures
            r == is_connected(self.current_peers@, key@),
    {
        let mut i: usize = 0;
        while i < self.current_peers.len()
            invariant
                i <= self.current_peers@.len(),
                forall|j: int| 0 <= j < i ==> (#[trigger] self.current_peers@[j]).0.public_key@ != key@,
            decreases self.current_peers@.len() - i,
        {
            if same_key(&self.current_peers[i].0.public_key, key) {
                return true;
            }
            i = i + 1;
        }
        false
    }

    fn tried(&self, key: &[u8; 32]) -> (r: bool)
        ensures
            r == is_tried(self.tried_peers@, key@),
    {
        let mut i: usize = 0;
        while i < self.tried_peers.len()
            invariant
                i <= self.tried_peers@.len(),
                forall|j: int| 0 <= j < i ==> (#[trigger] self.tried_peers@[j]).0.pubkey@ != key@,
            decreases self.tried_peers@.len() - i,
        {
            if same_key(&self.tried_peers[i].0.pubkey, key) {
                return true;
            }
            i = i + 1;
        }
        false
    }

    /// The time of the latest connect attempt.
    pub fn last_attempt(&self) -> (r: u64)
        ensures
            r == last_attempt(self.tried_peers@),
    {
        let mut m: u64 = 0;
        let mut i: usize = 0;
        while i < self.tried_peers.len()
            invariant
                i <= self.tried_peers@.len(),
                m == last_attempt(self.tried_peers@.take(i as int)),
            decreases self.tried_peers@.len() - i,
        {
            assert(self.tried_peers@.take(i + 1).drop_last() =~= self.tried_peers@.take(i as int));
            if self.tried_peers[i].1 > m {
                m = self.tried_peers[i].1;
            }
            i = i + 1;
        }
        assert(self.tried_peers@.take(i as int) =~= self.tried_peers@);
        m
    }

    /// One selection pass, restricted to the supernode's recommendations or not.
    pub fn pick_peer(&self, now: u64, restricted: bool) -> (r: Option<CjdnsPeer>)
        ensures
            r == self.pick(now, restricted),
    {
        let recs = &self.recommended_peers;
        let mut candidate: Option<CjdnsPeer> = None;
        let mut count: u64 = 0;
        let mut i: usize = 0;
        while i < recs.len()
            invariant
                recs == &self.recommended_peers,
                i <= recs@.len(),
                count == connected_count(recs@.take(i as int), self.current_peers@, restricted),
                count <= i,
                candidate == first_candidate(
                    recs@.take(i as int),
                    self.current_peers@,
                    self.tried_peers@,
                    restricted,
                ),
            decreases recs@.len() - i,
        {
            assert(recs@.take(i + 1).drop_last() =~= recs@.take(i as int));
            let r = &recs[i];
            let counted = match r.source {
                PeerSource::Supernode => true,
                PeerSource::Seed(_) => !restricted,
            };
            if counted {
                if self.connected(&r.peer.pubkey) {
                    count = count + 1;
                } else if self.tried(&r.peer.pubkey) {
                } else if candidate.is_none() {
                    candidate = Some(r.peer);
                }
            }
            i = i + 1;
        }
        assert(recs@.take(i as int) =~= recs@);
        let last = self.last_attempt();
        if self.tried_peers.len() > 0 && (now < CONNECT_COOLDOWN_MS || last > now
            - CONNECT_COOLDOWN_MS) {
            return None;
        }
        match candidate {
            Some(c) => {
                let goal: u64 = if restricted {
                    4
                } else {
                    2
                };
                if count < goal {
                    Some(c)
                } else {
                    None
                }
            },
            None => None,
        }
    }

    /// The peer to connect to now, if any: a pass over the supernode's
    /// recommendations, then, when that selects none and `snode_peers_first`
    /// was asked, a pass over all of them.
    pub fn get_connect_peer(&self, now: u64, snode_peers_first: bool) -> (r: Option<CjdnsPeer>)
        ensures
            snode_peers_first ==> r == self.connect_choice(now),
            !snode_peers_first ==> r == self.pick(now, false),
            cooling(self.tried_peers@, now) ==> r is None,
    {
        if snode_peers_first {
            let first = self.pick_peer(now, true);
            if first.is_some() {
                return first;
            }
        }
        self.pick_peer(now, false)
    }
}

/// A supernode recommendation made of a peer and when it was received.
pub open spec fn snode_rec(e: (CjdnsPeer, u64)) -> Recommendation {
    Recommendation { source: PeerSource::Supernode, peer: e.0, seen: e.1 }
}

/// A recommendation by the seed `seed`, made at `now`.
pub open spec fn seed_rec(seed: String, p: CjdnsPeer, now: u64) -> Recommendation {
    Recommendation { source: PeerSource::Seed(seed), peer: p, seen: now }
}

/// Whether a name is among the tried seeds.
pub open spec fn named(tried: Seq<String>, name: Seq<char>) -> bool {
    exists|j: int| 0 <= j < tried.len() && (#[trigger] tried[j])@ == name
}

/// Seed `i` is the first whose name has not been tried.
pub open spec fn is_first_untried(seeds: Seq<(String, bool)>, tried: Seq<String>, i: int) -> bool {
    &&& 0 <= i < seeds.len()
    &&& !named(tried, seeds[i].0@)
    &&& forall|j: int| 0 <= j < i ==> named(tried, (#[trigger] seeds[j]).0@)
}

pub open spec fn all_tried(seeds: Seq<(String, bool)>, tried: Seq<String>) -> bool {
    forall|j: int| 0 <= j < seeds.len() ==> named(tried, (#[trigger] seeds[j]).0@)
}

impl SeederState {
    /// Drops from every table what was last seen `TTL_MS` or longer before `now`.
    pub fn prune(&mut self, now: u64)
        ensures
            final(self).current_peers@ == old(self).current_peers@.filter(
                |e: (PeerNode, u64)| fresh(e.1, now),
            ),
            final(self).tried_peers@ == old(self).tried_peers@.filter(
                |e: (CjdnsPeer, u64)| fresh(e.1, now),
            ),
            final(self).recommended_peers@ == old(self).recommended_peers@.filter(
                |r: Recommendation| fresh(r.seen, now),
            ),
            forall|i: int|
                0 <= i < final(self).current_peers@.len() ==> fresh(
                    (#[trigger] final(self).current_peers@[i]).1,
                    now,
                ),
            forall|i: int|
                0 <= i < final(self).tried_peers@.len() ==> fresh(
                    (#[trigger] final(self).tried_peers@[i]).1,
                    now,
                ),
            forall|i: int|
                0 <= i < final(self).recommended_peers@.len() ==> fresh(
                    (#[trigger] final(self).recommended_peers@[i]).seen,
                    now,
                ),
            final(self).tried_seeds == old(self).tried_seeds,
            final(self).last_get_peers == old(self).last_get_peers,
            final(self).last_dns_req == old(self).last_dns_req,
            final(self).recommended_snode == old(self).recommended_snode,
    {
        let ghost f1 = |e: (PeerNode, u64)| fresh(e.1, now);
        let ghost f2 = |e: (CjdnsPeer, u64)| fresh(e.1, now);
        let ghost f3 = |r: Recommendation| fresh(r.seen, now);
        reveal(Seq::filter);

        let mut cur: Vec<(PeerNode, u64)> = Vec::new();
        let mut i: usize = 0;
        while i < self.current_peers.len()
            invariant
                self.current_peers == old(self).current_peers,
                i <= self.current_peers@.len(),
                cur@ == self.current_peers@.take(i as int).filter(f1),
                forall|e: (PeerNode, u64)| #[trigger] f1(e) == fresh(e.1, now),
            decreases self.current_peers@.len() - i,
        {
            reveal(Seq::filter);
            assert(self.current_peers@.take(i + 1).drop_last() =~= self.current_peers@.take(i as int));
            let e = self.current_peers[i];
            if e.1 >= now || now - e.1 < TTL_MS {
                cur.push(e);
            }
            i = i + 1;
        }
        assert(self.current_peers@.take(i as int) =~= self.current_peers@);

        let mut tp: Vec<(CjdnsPeer, u64)> = Vec::new();
        let mut i: usize = 0;
        while i < self.tried_peers.len()
            invariant
                self.tried_peers == old(self).tried_peers,
                i <= self.tried_peers@.len(),
                tp@ == self.tried_peers@.take(i as int).filter(f2),
                forall|e: (CjdnsPeer, u64)| #[trigger] f2(e) == fresh(e.1, now),
            decreases self.tried_peers@.len() - i,
        {
            reveal(Seq::filter);
            assert(self.tried_peers@.take(i + 1).drop_last() =~= self.tried_peers@.take(i as int));
            let e = self.tried_peers[i];
            if e.1 >= now || now - e.1 < TTL_MS {
                tp.push(e);
            }
            i = i + 1;
        }
        assert(self.tried_peers@.take(i as int) =~= self.tried_peers@);

        let mut rp: Vec<Recommendation> = Vec::new();
        let mut i: usize = 0;
        while i < self.recommended_peers.len()
            invariant
                self.recommended_peers == old(self).recommended_peers,
                i <= self.recommended_peers@.len(),
                rp@ == self.recommended_peers@.take(i as int).filter(f3),
                forall|r: Recommendation| #[trigger] f3(r) == fresh(r.seen, now),
            decreases self.recommended_peers@.len() - i,
        {
            reveal(Seq::filter);
            assert(self.recommended_peers@.take(i + 1).drop_last()
                =~= self.recommended_peers@.take(i as int));
            let r = &self.recommended_peers[i];
            if r.seen >= now || now - r.seen < TTL_MS {
                rp.push(r.duplicate());
            }
            i = i + 1;
        }
        assert(self.recommended_peers@.take(i as int) =~= self.recommended_peers@);

        self.current_peers = cur;
        self.tried_peers = tp;
        self.recommended_peers = rp;
        proof {
            assert forall|i: int| 0 <= i < self.current_peers@.len() implies fresh(
                (#[trigger] self.current_peers@[i]).1,
                now,
            ) by {
                old(self).current_peers@.lemma_filter_pred(f1, i);
            }
            assert forall|i: int| 0 <= i < self.tried_peers@.len() implies fresh(
                (#[trigger] self.tried_peers@[i]).1,
                now,
            ) by {
                old(self).tried_peers@.lemma_filter_pred(f2, i);
            }
            assert forall|i: int| 0 <= i < self.recommended_peers@.len() implies fresh(
                (#[trigger] self.recommended_peers@[i]).seen,
                now,
            ) by {
                old(self).recommended_peers@.lemma_filter_pred(f3, i);
            }
        }
    }

    /// Appends the supernode's recommendations, each with when it arrived.
    pub fn merge_supernode_peers(&mut self, peers: Vec<(CjdnsPeer, u64)>)
        ensures
            final(self).recommended_peers@ == old(self).recommended_peers@ + peers@.map_values(
                |e: (CjdnsPeer, u64)| snode_rec(e),
            ),
            final(self).current_peers == old(self).current_peers,
            final(self).tried_peers == old(self).tried_peers,
            final(self).tried_seeds == old(self).tried_seeds,
            final(self).last_get_peers == old(self).last_get_peers,
            final(self).last_dns_req == old(self).last_dns_req,
            final(self).recommended_snode == old(self).recommended_snode,
    {
        let ghost f = |e: (CjdnsPeer, u64)| snode_rec(e);
        let mut i: usize = 0;
        while i < peers.len()
            invariant
                i <= peers@.len(),
                self.recommended_peers@ == old(self).recommended_peers@ + peers@.take(
                    i as int,
                ).map_values(f),
                forall|e: (CjdnsPeer, u64)| #[trigger] f(e) == snode_rec(e),
                self.current_peers == old(self).current_peers,
                self.tried_peers == old(self).tried_peers,
                self.tried_seeds == old(self).tried_seeds,
                self.last_get_peers == old(self).last_get_peers,
                self.last_dns_req == old(self).last_dns_req,
                self.recommended_snode == old(self).recommended_snode,
            decreases peers@.len() - i,
        {
            let e = peers[i];
            self.recommended_peers.push(Recommendation { source: PeerSource::Supernode, peer: e.0, seen: e.1 });
            assert(peers@.take(i + 1) =~= peers@.take(i as int).push(e));
            assert(peers@.take(i + 1).map_values(f) =~= peers@.take(i as int).map_values(f).push(
                snode_rec(e),
            ));
            i = i + 1;
            assert(self.recommended_peers@ =~= old(self).recommended_peers@ + peers@.take(
                i as int,
            ).map_values(f));
        }
        assert(peers@.take(i as int) =~= peers@);
    }

    /// Whether the core should be asked for its peers now; if so, notes the
    /// request as made at `now`.
    pub fn census_due(&mut self, now: u64) -> (r: bool)
        ensures
            r == (old(self).last_get_peers + CENSUS_INTERVAL_MS <= now),
            final(self).last_get_peers == if r {
                now
            } else {
                old(self).last_get_peers
            },
            final(self).tried_seeds == old(self).tried_seeds,
            final(self).current_peers == old(self).current_peers,
            final(self).recommended_peers == old(self).recommended_peers,
            final(self).tried_peers == old(self).tried_peers,
            final(self).last_dns_req == old(self).last_dns_req,
            final(self).recommended_snode == old(self).recommended_snode,
    {
        if now >= CENSUS_INTERVAL_MS && self.last_get_peers <= now - CENSUS_INTERVAL_MS {
            self.last_get_peers = now;
            true
        } else {
            false
        }
    }

    fn seed_tried(&self, name: &String) -> (r: bool)
        ensures
            r == named(self.tried_seeds@, name@),
    {
        let mut j: usize = 0;
        while j < self.tried_seeds.len()
            invariant
                j <= self.tried_seeds@.len(),
                forall|k: int| 0 <= k < j ==> (#[trigger] self.tried_seeds@[k])@ != name@,
            decreases self.tried_seeds@.len() - j,
        {
            if self.tried_seeds[j] == *name {
                return true;
            }
            j = j + 1;
        }
        false
    }

    /// The seed to look up in this cycle, if a lookup is due: the first seed
    /// not yet tried in this rotation, or, when every seed has been, the first
    /// seed of a new rotation. The chosen seed is marked as tried.
    pub fn next_dns_seed(&mut self, seeds: &Vec<(String, bool)>, now: u64) -> (r: Option<(String, bool)>)
        ensures
            old(self).last_dns_req + DNS_INTERVAL_MS > now ==> r is None && final(self).tried_seeds
                == old(self).tried_seeds,
            old(self).last_dns_req + DNS_INTERVAL_MS <= now && !all_tried(
                seeds@,
                old(self).tried_seeds@,
            ) ==> exists|i: int|
                is_first_untried(seeds@, old(self).tried_seeds@, i) && r == Some(seeds@[i])
                    && final(self).tried_seeds@ == old(self).tried_seeds@.push(seeds@[i].0),
            old(self).last_dns_req + DNS_INTERVAL_MS <= now && all_tried(
                seeds@,
                old(self).tried_seeds@,
            ) && seeds@.len() > 0 ==> r == Some(seeds@[0]) && final(self).tried_seeds@ == seq![
                seeds@[0].0,
            ],
            old(self).last_dns_req + DNS_INTERVAL_MS <= now && seeds@.len() == 0 ==> r is None
                && final(self).tried_seeds@.len() == 0,
            final(self).current_peers == old(self).current_peers,
            final(self).recommended_peers == old(self).recommended_peers,
            final(self).tried_peers == old(self).tried_peers,
            final(self).last_get_peers == old(self).last_get_peers,
            final(self).last_dns_req == old(self).last_dns_req,
            final(self).recommended_snode == old(self).recommended_snode,
    {
        if now < DNS_INTERVAL_MS || self.last_dns_req > now - DNS_INTERVAL_MS {
            return None;
        }
        let mut i: usize = 0;
        while i < seeds.len()
            invariant
                i <= seeds@.len(),
                old(self).last_dns_req + DNS_INTERVAL_MS <= now,
                self.tried_seeds == old(self).tried_seeds,
                self.current_peers == old(self).current_peers,
                self.recommended_peers == old(self).recommended_peers,
                self.tried_peers == old(self).tried_peers,
                self.last_get_peers == old(self).last_get_peers,
                self.last_dns_req == old(self).last_dns_req,
                self.recommended_snode == old(self).recommended_snode,
                forall|j: int| 0 <= j < i ==> named(self.tried_seeds@, (#[trigger] seeds@[j]).0@),
            decreases seeds@.len() - i,
        {
            if !self.seed_tried(&seeds[i].0) {
                let pick = (seeds[i].0.clone(), seeds[i].1);
                assert(is_first_untried(seeds@, old(self).tried_seeds@, i as int));
                self.tried_seeds.push(seeds[i].0.clone());
                return Some(pick);
            }
            i = i + 1;
        }
        self.tried_seeds = Vec::new();
        if seeds.len() == 0 {
            return None;
        }
        self.tried_seeds.push(seeds[0].0.clone());
        assert(self.tried_seeds@ =~= seq![seeds@[0].0]);
        Some((seeds[0].0.clone(), seeds[0].1))
    }

    /// Commits what a seed lookup found: a trusted seed's supernode key, and
    /// the seed's peers, recommended as of `now`.
    pub fn dns_result(
        &mut self,
        seed: String,
        trust: bool,
        snode_pubkey: Option<[u8; 32]>,
        peers: Vec<CjdnsPeer>,
        now: u64,
    )
        ensures
            final(self).recommended_snode == if trust && snode_pubkey is Some {
                snode_pubkey
            } else {
                old(self).recommended_snode
            },
            final(self).recommended_peers@ == old(self).recommended_peers@ + peers@.map_values(
                |p: CjdnsPeer| seed_rec(seed, p, now),
            ),
            final(self).last_dns_req == now,
            final(self).tried_seeds == old(self).tried_seeds,
            final(self).current_peers == old(self).current_peers,
            final(self).tried_peers == old(self).tried_peers,
            final(self).last_get_peers == old(self).last_get_peers,
    {
        let ghost f = |p: CjdnsPeer| seed_rec(seed, p, now);
        if trust && snode_pubkey.is_some() {
            self.recommended_snode = snode_pubkey;
        }
        let mut i: usize = 0;
        while i < peers.len()
            invariant
                i <= peers@.len(),
                self.recommended_peers@ == old(self).recommended_peers@ + peers@.take(
                    i as int,
                ).map_values(f),
                forall|p: CjdnsPeer| #[trigger] f(p) == seed_rec(seed, p, now),
                self.recommended_snode == if trust && snode_pubkey is Some {
                    snode_pubkey
                } else {
                    old(self).recommended_snode
                },
                self.tried_seeds == old(self).tried_seeds,
                self.current_peers == old(self).current_peers,
                self.tried_peers == old(self).tried_peers,
                self.last_get_peers == old(self).last_get_peers,
            decreases peers@.len() - i,
        {
            let p = peers[i];
            let src = PeerSource::Seed(seed.clone());
            self.recommended_peers.push(Recommendation { source: src, peer: p, seen: now });
            assert(peers@.take(i + 1) =~= peers@.take(i as int).push(p));
            assert(peers@.take(i + 1).map_values(f) =~= peers@.take(i as int).map_values(f).push(
                seed_rec(seed, p, now),
            ));
            i = i + 1;
            assert(self.recommended_peers@ =~= old(self).recommended_peers@ + peers@.take(
                i as int,
            ).map_values(f));
        }
        assert(peers@.take(i as int) =~= peers@);
        self.last_dns_req = now;
    }

    /// Selects the peer to connect to, if any, and records the attempt at `now`.
    pub fn take_connect_peer(&mut self, now: u64) -> (r: Option<CjdnsPeer>)
        ensures
            r == old(self).connect_choice(now),
            cooling(old(self).tried_peers@, now) ==> r is None,
            final(self).tried_peers@ == match r {
                Some(p) => old(self).tried_peers@.push((p, now)),
                None => old(self).tried_peers@,
            },
            final(self).tried_seeds == old(self).tried_seeds,
            final(self).current_peers == old(self).current_peers,
            final(self).recommended_peers == old(self).recommended_peers,
            final(self).last_get_peers == old(self).last_get_peers,
            final(self).last_dns_req == old(self).last_dns_req,
            final(self).recommended_snode == old(self).recommended_snode,
    {
        let r = self.get_connect_peer(now, true);
        if let Some(p) = r {
            self.tried_peers.push((p, now));
        }
        r
    }

    /// Records that the core reported a peer as present (`gone` false) or gone.
    pub fn peer_event(&mut self, node: PeerNode, gone: bool, now: u64)
        ensures
            final(self).current_peers@ == if gone {
                old(self).current_peers@.filter(
                    |e: (PeerNode, u64)| e.0.public_key@ != node.public_key@,
                )
            } else {
                old(self).current_peers@.filter(
                    |e: (PeerNode, u64)| e.0.public_key@ != node.public_key@,
                ).push((node, now))
            },
            final(self).tried_seeds == old(self).tried_seeds,
            final(self).recommended_peers == old(self).recommended_peers,
            final(self).tried_peers == old(self).tried_peers,
            final(self).last_get_peers == old(self).last_get_peers,
            final(self).last_dns_req == old(self).last_dns_req,
            final(self).recommended_snode == old(self).recommended_snode,
    {
        let ghost f = |e: (PeerNode, u64)| e.0.public_key@ != node.public_key@;
        reveal(Seq::filter);
        let mut cur: Vec<(PeerNode, u64)> = Vec::new();
        let mut i: usize = 0;
        while i < self.current_peers.len()
            invariant
                self.current_peers == old(self).current_peers,
                i <= self.current_peers@.len(),
                cur@ == self.current_peers@.take(i as int).filter(f),
                forall|e: (PeerNode, u64)| #[trigger] f(e) == (e.0.public_key@ != node.public_key@),
            decreases self.current_peers@.len() - i,
        {
            reveal(Seq::filter);
            assert(self.current_peers@.take(i + 1).drop_last() =~= self.current_peers@.take(i as int));
            let e = self.current_peers[i];
            if !same_key(&e.0.public_key, &node.public_key) {
                cur.push(e);
            }
            i = i + 1;
        }
        assert(self.current_peers@.take(i as int) =~= self.current_peers@);
        if !gone {
            cur.push((node, now));
        }
        self.current_peers = cur;
    }
}

/// The first candidate of a pass is the peer of a recommendation that the pass
/// considers, whose peer is neither connected nor tried.
pub proof fn lemma_first_candidate_found(
    recs: Seq<Recommendation>,
    current: Seq<(PeerNode, u64)>,
    tried: Seq<(CjdnsPeer, u64)>,
    restricted: bool,
)
    ensures
        first_candidate(recs, current, tried, restricted) matches Some(p) ==> exists|i: int|
            0 <= i < recs.len() && considered(#[trigger] recs[i], restricted) && recs[i].peer == p
                && !is_connected(current, p.pubkey@) && !is_tried(tried, p.pubkey@),
    decreases recs.len(),
{
    if recs.len() > 0 {
        lemma_first_candidate_found(recs.drop_last(), current, tried, restricted);
        if first_candidate(recs.drop_last(), current, tried, restricted) is Some {
            let p = first_candidate(recs.drop_last(), current, tried, restricted)->Some_0;
            let i = choose|i: int|
                0 <= i < recs.drop_last().len() && considered(
                    #[trigger] recs.drop_last()[i],
                    restricted,
                ) && recs.drop_last()[i].peer == p && !is_connected(current, p.pubkey@)
                    && !is_tried(tried, p.pubkey@);
            assert(recs[i] == recs.drop_last()[i]);
        } else {
            assert(recs[recs.len() - 1] == recs.last());
        }
    }
}

/// When the supernode has recommended a peer that is neither connected nor
/// recently tried, fewer than four of its recommendations are connected and
/// no attempt was made in the last minute, the peer chosen is one that the
/// supernode recommended, before any seed's.
pub proof fn lemma_supernode_first(st: SeederState, now: u64)
    requires
        !cooling(st.tried_peers@, now),
        first_candidate(st.recommended_peers@, st.current_peers@, st.tried_peers@, true) is Some,
        connected_count(st.recommended_peers@, st.current_peers@, true) < 4,
    ensures
        st.connect_choice(now) == first_candidate(
            st.recommended_peers@,
            st.current_peers@,
            st.tried_peers@,
            true,
        ),
        st.connect_choice(now) matches Some(p) && exists|i: int|
            0 <= i < st.recommended_peers@.len() && (#[trigger] st.recommended_peers@[i]).source is Supernode
                && st.recommended_peers@[i].peer == p,
{
    lemma_first_candidate_found(st.recommended_peers@, st.current_peers@, st.tried_peers@, true);
}

/// A pass selects nothing once its target is met: four connected peers among
/// the supernode's recommendations, two among all of them.
pub proof fn lemma_target_saturation(st: SeederState, now: u64)
    ensures
        connected_count(st.recommended_peers@, st.current_peers@, true) >= 4 ==> st.pick(
            now,
            true,
        ) is None,
        connected_count(st.recommended_peers@, st.current_peers@, false) >= 2 ==> st.pick(
            now,
            false,
        ) is None,
        connected_count(st.recommended_peers@, st.current_peers@, true) >= 4 && connected_count(
            st.recommended_peers@,
            st.current_peers@,
            false,
        ) >= 2 ==> st.connect_choice(now) is None,
{
}

/// The names of the first `k` seeds.
pub open spec fn seed_names(seeds: Seq<(String, bool)>, k: int) -> Seq<Seq<char>> {
    seeds.take(k).map_values(|e: (String, bool)| e.0@)
}

pub open spec fn tried_names(tried: Seq<String>) -> Seq<Seq<char>> {
    tried.map_values(|s: String| s@)
}

pub open spec fn distinct_names(seeds: Seq<(String, bool)>) -> bool {
    forall|i: int, j: int|
        0 <= i < seeds.len() && 0 <= j < seeds.len() && i != j ==> (#[trigger] seeds[i]).0@
            != (#[trigger] seeds[j]).0@
}

/// Seeds are visited in turn: when the first `k` seeds of a list of distinct
/// names have been tried, the next lookup takes seed `k` and the tried names
/// become the first `k + 1`; when all have been tried, it takes the first
/// seed again and the tried names become that one alone.
pub proof fn lemma_round_robin(seeds: Seq<(String, bool)>, tried: Seq<String>, k: int)
    requires
        distinct_names(seeds),
        0 <= k <= seeds.len(),
        tried_names(tried) == seed_names(seeds, k),
    ensures
        k < seeds.len() ==> (forall|i: int| is_first_untried(seeds, tried, i) <==> i == k),
        k < seeds.len() ==> !all_tried(seeds, tried),
        k < seeds.len() ==> tried_names(tried.push(seeds[k].0)) == seed_names(seeds, k + 1),
        k == seeds.len() ==> all_tried(seeds, tried),
        seeds.len() > 0 ==> tried_names(seq![seeds[0].0]) == seed_names(seeds, 1),
{
    assert(tried_names(tried).len() == tried.len());
    assert(seed_names(seeds, k).len() == k);
    assert(tried.len() == k);
    assert forall|j: int| 0 <= j < seeds.len() implies named(tried, (#[trigger] seeds[j]).0@)
        <==> j < k by {
        if j < k {
            assert(tried_names(tried)[j] == tried[j]@);
            assert(seed_names(seeds, k)[j] == seeds.take(k)[j].0@);
            assert(seeds.take(k)[j] == seeds[j]);
            assert(tried[j]@ == seeds[j].0@);
        }
        if named(tried, seeds[j].0@) {
            let m = choose|m: int| 0 <= m < tried.len() && (#[trigger] tried[m])@ == seeds[j].0@;
            assert(tried_names(tried)[m] == tried[m]@);
            assert(seed_names(seeds, k)[m] == seeds.take(k)[m].0@);
            assert(seeds.take(k)[m] == seeds[m]);
            assert(seeds[m].0@ == seeds[j].0@);
        }
    }
    if k < seeds.len() {
        assert(is_first_untried(seeds, tried, k));
        let t2 = tried.push(seeds[k].0);
        assert forall|j: int| 0 <= j < k + 1 implies tried_names(t2)[j] == seed_names(
            seeds,
            k + 1,
        )[j] by {
            assert(tried_names(t2)[j] == t2[j]@);
            assert(seed_names(seeds, k + 1)[j] == seeds.take(k + 1)[j].0@);
            assert(seeds.take(k + 1)[j] == seeds[j]);
            if j < k {
                assert(t2[j] == tried[j]);
                assert(tried_names(tried)[j] == tried[j]@);
                assert(seed_names(seeds, k)[j] == seeds.take(k)[j].0@);
                assert(seeds.take(k)[j] == seeds[j]);
            }
        }
        assert(tried_names(t2) =~= seed_names(seeds, k + 1));
    }
    if seeds.len() > 0 {
        assert(tried_names(seq![seeds[0].0]) =~= seed_names(seeds, 1));
    }
}

/// What a discovery cycle asks of the outside world before it selects a peer.
#[derive(Debug, PartialEq, Eq)]
pub struct CyclePlan {
    /// Ask the core for its current peers.
    pub request_peers: bool,
    /// Look up this seed, with its trust flag.
    pub lookup: Option<(String, bool)>,
}

impl SeederState {
    /// The first half of a discovery cycle at `now`: merges the supernode's
    /// queued recommendations, prunes every table, and decides whether to ask
    /// the core for its peers and which seed, if any, to look up.
    pub fn cycle_begin(
        &mut self,
        seeds: &Vec<(String, bool)>,
        snode_peers: Vec<(CjdnsPeer, u64)>,
        now: u64,
    ) -> (r: CyclePlan)
        ensures
            final(self).recommended_peers@ == (old(self).recommended_peers@ + snode_peers@.map_values(
                |e: (CjdnsPeer, u64)| snode_rec(e),
            )).filter(|r: Recommendation| fresh(r.seen, now)),
            final(self).current_peers@ == old(self).current_peers@.filter(
                |e: (PeerNode, u64)| fresh(e.1, now),
            ),
            final(self).tried_peers@ == old(self).tried_peers@.filter(
                |e: (CjdnsPeer, u64)| fresh(e.1, now),
            ),
            r.request_peers == (old(self).last_get_peers + CENSUS_INTERVAL_MS <= now),
            final(self).last_get_peers == if r.request_peers {
                now
            } else {
                old(self).last_get_peers
            },
            old(self).last_dns_req + DNS_INTERVAL_MS > now ==> r.lookup is None
                && final(self).tried_seeds == old(self).tried_seeds,
            old(self).last_dns_req + DNS_INTERVAL_MS <= now && !all_tried(
                seeds@,
                old(self).tried_seeds@,
            ) ==> exists|i: int|
                is_first_untried(seeds@, old(self).tried_seeds@, i) && r.lookup == Some(seeds@[i])
                    && final(self).tried_seeds@ == old(self).tried_seeds@.push(seeds@[i].0),
            old(self).last_dns_req + DNS_INTERVAL_MS <= now && all_tried(
                seeds@,
                old(self).tried_seeds@,
            ) && seeds@.len() > 0 ==> r.lookup == Some(seeds@[0]) && final(self).tried_seeds@
                == seq![seeds@[0].0],
            old(self).last_dns_req + DNS_INTERVAL_MS <= now && seeds@.len() == 0 ==> r.lookup is None
                && final(self).tried_seeds@.len() == 0,
            final(self).last_dns_req == old(self).last_dns_req,
            final(self).recommended_snode == old(self).recommended_snode,
    {
        self.merge_supernode_peers(snode_peers);
        self.prune(now);
        let request_peers = self.census_due(now);
        let lookup = self.next_dns_seed(seeds, now);
        CyclePlan { request_peers, lookup }
    }
}

proof fn lemma_last_attempt_push(s: Seq<(CjdnsPeer, u64)>, e: (CjdnsPeer, u64))
    ensures
        last_attempt(s.push(e)) >= e.1,
        last_attempt(s.push(e)) >= last_attempt(s),
{
    assert(s.push(e).drop_last() =~= s);
}

/// Pruning keeps the cooldown: when a connect attempt was made less than a
/// minute before `now`, one still was after the tables are pruned at `now`,
/// so a whole cycle (prune, then select) sends no connect.
pub proof fn lemma_prune_keeps_cooldown(tried: Seq<(CjdnsPeer, u64)>, now: u64)
    ensures
        cooling(tried, now) ==> cooling(tried.filter(|e: (CjdnsPeer, u64)| fresh(e.1, now)), now),
    decreases tried.len(),
{
    let f = |e: (CjdnsPeer, u64)| fresh(e.1, now);
    reveal(Seq::filter);
    if tried.len() > 0 && cooling(tried, now) {
        let rest = tried.drop_last();
        let e = tried.last();
        assert(tried.filter(f) == if f(e) {
            rest.filter(f).push(e)
        } else {
            rest.filter(f)
        });
        if e.1 > last_attempt(rest) {
            assert(f(e));
            lemma_last_attempt_push(rest.filter(f), e);
        } else {
            lemma_prune_keeps_cooldown(rest, now);
            if f(e) {
                lemma_last_attempt_push(rest.filter(f), e);
            }
        }
    }
}

/// A peer whose key is in the tried table is not chosen again: so after a
/// connect to it, no further connect to it is sent while its entry stays,
/// that is for `TTL_MS` after the attempt.
pub proof fn lemma_tried_not_chosen(st: SeederState, now: u64, key: Seq<u8>)
    requires
        is_tried(st.tried_peers@, key),
    ensures
        !(st.connect_choice(now) matches Some(p) && p.pubkey@ == key),
{
    lemma_first_candidate_found(st.recommended_peers@, st.current_peers@, st.tried_peers@, true);
    lemma_first_candidate_found(st.recommended_peers@, st.current_peers@, st.tried_peers@, false);
}

/// A tried entry made at `t` survives a prune at `now` while `now` is less
/// than `TTL_MS` after `t`.
pub proof fn lemma_tried_entry_kept(tried: Seq<(CjdnsPeer, u64)>, i: int, now: u64)
    requires
        0 <= i < tried.len(),
        fresh(tried[i].1, now),
    ensures
        is_tried(tried.filter(|e: (CjdnsPeer, u64)| fresh(e.1, now)), tried[i].0.pubkey@),
{
    let f = |e: (CjdnsPeer, u64)| fresh(e.1, now);
    tried.lemma_filter_contains(f, i);
    let s = tried.filter(f);
    assert(s.contains(tried[i]));
    let k = choose|k: int| 0 <= k < s.len() && s[k] == tried[i];
    assert(s[k].0.pubkey@ == tried[i].0.pubkey@);
}

} // verus!
