use vstd::prelude::*;
use crate::peer::{ip16, push_bytes, push_ip16, CjdnsPeer};
use crate::pool::PeerNode;

verus! {

/// Message type asking the core for its current peers.
pub const PATHFINDER_PEERS: u32 = 519;

/// Message type asking the core to connect to a peer.
pub const PATHFINDER_CONNECT_PEER: u32 = 523;

/// Message type of the core's report that a peer is present.
pub const CORE_PEER: u32 = 1027;

/// Message type of the core's report that a peer is gone.
pub const CORE_PEER_GONE: u32 = 1028;

/// Bytes in a peer record of the core: address, key, path, metric, version.
pub const NODE_LEN: usize = 64;

/// Bytes of the login and password fields of a connect record.
pub const LOGIN_FIELD: usize = 16;

pub const PASSWORD_FIELD: usize = 24;

/// Why a message from the core was not taken.
#[derive(Clone, Copy, Debug, PartialEq, Eq)]
pub enum CoreMsgError {
    /// The message ends before its type or its peer record does.
    Truncated,
    /// The message is of a type that is neither "peer" nor "peer gone".
    UnhandledType(u32),
}

/// Four bytes, most significant first.
pub open spec fn be32(x: u32) -> Seq<u8> {
    seq![(x / 0x1000000) as u8, (x / 0x10000 % 0x100) as u8, (x / 0x100 % 0x100) as u8, (x % 0x100) as u8]
}

/// Two bytes, least significant first.
pub open spec fn le16(x: u16) -> Seq<u8> {
    seq![(x % 0x100) as u8, (x / 0x100) as u8]
}

/// The number that `n` bytes from `at` spell, most significant first.
pub open spec fn read_be(b: Seq<u8>, at: int, n: nat) -> nat
    decreases n,
{
    if n == 0 {
        0
    } else {
        read_be(b, at, (n - 1) as nat) * 256 + b[at + n - 1] as nat
    }
}

/// `s` followed by zero bytes up to length `n`.
pub open spec fn zero_padded(s: Seq<u8>, n: nat) -> Seq<u8> {
    s + Seq::new((n - s.len()) as nat, |_i: int| 0u8)
}

/// The request for the core's current peers.
pub open spec fn peers_request_bytes() -> Seq<u8> {
    be32(PATHFINDER_PEERS)
}

/// The connect command for `p`, with its login and password text.
pub open spec fn connect_bytes(p: CjdnsPeer, login: Seq<u8>, password: Seq<u8>) -> Seq<u8> {
    be32(PATHFINDER_CONNECT_PEER) + ip16(p.address.ip) + p.pubkey@ + zero_padded(
        login,
        LOGIN_FIELD as nat,
    ) + zero_padded(password, PASSWORD_FIELD as nat) + le16(p.version) + le16(p.address.port)
        + seq![0u8, 0u8]
}

/// `node` is the peer record of the core that starts at `at`.
pub open spec fn is_node_at(b: Seq<u8>, at: int, node: PeerNode) -> bool {
    &&& node.ip6@ == b.subrange(at, at + 16)
    &&& node.public_key@ == b.subrange(at + 16, at + 48)
    &&& node.path == read_be(b, at + 48, 8)
    &&& node.metric == read_be(b, at + 56, 4)
    &&& node.version == read_be(b, at + 60, 4)
}

proof fn lemma_read_be_bound(b: Seq<u8>, at: int, n: nat)
    requires
        0 <= at,
        at + n <= b.len(),
    ensures
        read_be(b, at, n) < pow256(n),
    decreases n,
{
    if n > 0 {
        lemma_read_be_bound(b, at, (n - 1) as nat);
        assert(read_be(b, at, (n - 1) as nat) * 256 + 255 < pow256(n)) by (nonlinear_arith)
            requires
                read_be(b, at, (n - 1) as nat) < pow256((n - 1) as nat),
                pow256(n) == pow256((n - 1) as nat) * 256,
        ;
    }
}

pub open spec fn pow256(n: nat) -> nat
    decreases n,
{
    if n == 0 {
        1
    } else {
        pow256((n - 1) as nat) * 256
    }
}

/// Reads `n` bytes from `at` as a number, most significant first.
fn read_be_exec(b: &[u8], at: usize, n: usize) -> (r: u64)
    requires
        n <= 8,
        at + n <= b@.len(),
    ensures
        r == read_be(b@, at as int, n as nat),
{
    let len = b.len();
    let mut v: u64 = 0;
    let mut i: usize = 0;
    proof {
        reveal_with_fuel(pow256, 9);
        assert(pow256(8) == 0x1_0000_0000_0000_0000);
    }
    while i < n
        invariant
            i <= n <= 8,
            at + n <= b@.len(),
            v == read_be(b@, at as int, i as nat),
            len == b@.len(),
            pow256(8) == 0x1_0000_0000_0000_0000,
        decreases n - i,
    {
        proof {
            lemma_read_be_bound(b@, at as int, i as nat);
            lemma_pow256_mono(i as nat, 7);
        }
        v = v * 256 + b[at + i] as u64;
        i = i + 1;
    }
    v
}

proof fn lemma_pow256_mono(a: nat, b: nat)
    requires
        a <= b,
    ensures
        pow256(a) <= pow256(b),
    decreases b - a,
{
    if a < b {
        lemma_pow256_mono(a, (b - 1) as nat);
    }
}

fn copy_ip6(b: &[u8], at: usize) -> (r: [u8; 16])
    requires
        at + 16 <= b@.len(),
    ensures
        r@ == b@.subrange(at as int, at + 16),
{
    let len = b.len();
    let mut r = [0u8; 16];
    let mut i: usize = 0;
    while i < 16
        invariant
            i <= 16,
            at + 16 <= b@.len(),
            len == b@.len(),
            r@.len() == 16,
            forall|j: int| 0 <= j < i ==> r@[j] == b@[at + j],
        decreases 16 - i,
    {
        r.set(i, b[at + i]);
        i = i + 1;
    }
    assert(r@ =~= b@.subrange(at as int, at + 16));
    r
}

fn copy_key(b: &[u8], at: usize) -> (r: [u8; 32])
    requires
        at + 32 <= b@.len(),
    ensures
        r@ == b@.subrange(at as int, at + 32),
{
    let len = b.len();
    let mut r = [0u8; 32];
    let mut i: usize = 0;
    while i < 32
        invariant
            i <= 32,
            at + 32 <= b@.len(),
            len == b@.len(),
            r@.len() == 32,
            forall|j: int| 0 <= j < i ==> r@[j] == b@[at + j],
        decreases 32 - i,
    {
        r.set(i, b[at + i]);
        i = i + 1;
    }
    assert(r@ =~= b@.subrange(at as int, at + 32));
    r
}

/// Reads a message of the core: its type, four bytes most significant first,
/// then a peer record. Returns whether the peer is gone, and the peer.
pub fn parse_core_event(msg: &[u8]) -> (r: Result<(bool, PeerNode), CoreMsgError>)
    ensures
        msg@.len() < 4 ==> r == Err::<(bool, PeerNode), CoreMsgError>(CoreMsgError::Truncated),
        msg@.len() >= 4 && read_be(msg@, 0, 4) != CORE_PEER && read_be(msg@, 0, 4)
            != CORE_PEER_GONE ==> r == Err::<(bool, PeerNode), CoreMsgError>(
            CoreMsgError::UnhandledType(read_be(msg@, 0, 4) as u32),
        ),
        msg@.len() >= 4 && (read_be(msg@, 0, 4) == CORE_PEER || read_be(msg@, 0, 4)
            == CORE_PEER_GONE) && msg@.len() < 4 + NODE_LEN ==> r == Err::<
            (bool, PeerNode),
            CoreMsgError,
        >(CoreMsgError::Truncated),
        msg@.len() >= 4 + NODE_LEN && (read_be(msg@, 0, 4) == CORE_PEER || read_be(msg@, 0, 4)
            == CORE_PEER_GONE) ==> (r matches Ok((gone, node)) && gone == (read_be(msg@, 0, 4)
            == CORE_PEER_GONE) && is_node_at(msg@, 4, node)),
{
    if msg.len() < 4 {
        return Err(CoreMsgError::Truncated);
    }
    proof {
        lemma_read_be_bound(msg@, 0, 4);
        reveal_with_fuel(pow256, 5);
        assert(pow256(4) == 0x1_0000_0000);
    }
    let t = read_be_exec(msg, 0, 4) as u32;
    let gone = if t == CORE_PEER {
        false
    } else if t == CORE_PEER_GONE {
        true
    } else {
        return Err(CoreMsgError::UnhandledType(t));
    };
    if msg.len() < 4 + NODE_LEN {
        return Err(CoreMsgError::Truncated);
    }
    proof {
        lemma_read_be_bound(msg@, 60, 4);
        lemma_read_be_bound(msg@, 64, 4);
        reveal_with_fuel(pow256, 5);
        assert(pow256(4) == 0x1_0000_0000);
    }
    let node = PeerNode {
        ip6: copy_ip6(msg, 4),
        public_key: copy_key(msg, 20),
        path: read_be_exec(msg, 52, 8),
        metric: read_be_exec(msg, 60, 4) as u32,
        version: read_be_exec(msg, 64, 4) as u32,
    };
    Ok((gone, node))
}

fn push_be32(out: &mut Vec<u8>, x: u32)
    ensures
        final(out)@ == old(out)@ + be32(x),
{
    out.push((x / 0x1000000) as u8);
    out.push((x / 0x10000 % 0x100) as u8);
    out.push((x / 0x100 % 0x100) as u8);
    out.push((x % 0x100) as u8);
    assert(final(out)@ =~= old(out)@ + be32(x));
}

fn push_le16(out: &mut Vec<u8>, x: u16)
    ensures
        final(out)@ == old(out)@ + le16(x),
{
    out.push((x % 0x100) as u8);
    out.push((x / 0x100) as u8);
    assert(final(out)@ =~= old(out)@ + le16(x));
}

fn push_padded(out: &mut Vec<u8>, s: &[u8], n: usize)
    requires
        s@.len() <= n,
    ensures
        final(out)@ == old(out)@ + zero_padded(s@, n as nat),
{
    push_bytes(out, s);
    let mut i: usize = s.len();
    while i < n
        invariant
            s@.len() <= i <= n,
            out@ == old(out)@ + s@ + Seq::new((i - s@.len()) as nat, |_j: int| 0u8),
        decreases n - i,
    {
        out.push(0u8);
        i = i + 1;
        assert(out@ =~= old(out)@ + s@ + Seq::new((i - s@.len()) as nat, |_j: int| 0u8));
    }
    assert(out@ =~= old(out)@ + zero_padded(s@, n as nat));
}

/// The request for the core's current peers.
pub fn peers_request() -> (r: Vec<u8>)
    ensures
        r@ == peers_request_bytes(),
{
    let mut out: Vec<u8> = Vec::new();
    push_be32(&mut out, PATHFINDER_PEERS);
    assert(out@ =~= peers_request_bytes());
    out
}

/// The command asking the core to connect to `p`: type, address in 16 bytes,
/// key, login and password each zero-padded to its field, then version and
/// port, least significant byte first, and two bytes of padding.
pub fn connect_peer_message(p: &CjdnsPeer, login: &[u8], password: &[u8]) -> (r: Vec<u8>)
    requires
        login@.len() <= LOGIN_FIELD,
        password@.len() <= PASSWORD_FIELD,
    ensures
        r@ == connect_bytes(*p, login@, password@),
        r@.len() == 4 + 16 + 32 + LOGIN_FIELD + PASSWORD_FIELD + 6,
{
    let mut out: Vec<u8> = Vec::new();
    push_be32(&mut out, PATHFINDER_CONNECT_PEER);
    push_ip16(&mut out, &p.address.ip);
    push_bytes(&mut out, p.pubkey.as_slice());
    push_padded(&mut out, login, LOGIN_FIELD);
    push_padded(&mut out, password, PASSWORD_FIELD);
    push_le16(&mut out, p.version);
    push_le16(&mut out, p.address.port);
    out.push(0u8);
    out.push(0u8);
    assert(out@ =~= connect_bytes(*p, login@, password@));
    out
}

} // verus!
