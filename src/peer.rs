use vstd::prelude::*;

verus! {

/// An IP address as raw bytes.
#[derive(Clone, Copy, Debug, PartialEq, Eq)]
pub enum PeerIp {
    V4([u8; 4]),
    V6([u8; 16]),
}

/// An IP address with a port.
#[derive(Clone, Copy, Debug, PartialEq, Eq)]
pub struct PeerAddr {
    pub ip: PeerIp,
    pub port: u16,
}

/// A peer that may be connected to: where it listens, its key and the
/// credentials that it accepts.
#[derive(Clone, Copy, Debug, PartialEq, Eq)]
pub struct CjdnsPeer {
    pub address: PeerAddr,
    pub pubkey: [u8; 32],
    pub login: u16,
    pub password: [u8; 8],
    pub version: u16,
}

/// The 16-byte form of an address: IPv4 mapped under `::ffff:`, IPv6 as is.
pub open spec fn ip16(ip: PeerIp) -> Seq<u8> {
    match ip {
        PeerIp::V4(a) => seq![0u8, 0, 0, 0, 0, 0, 0, 0, 0, 0, 0xffu8, 0xffu8] + a@,
        PeerIp::V6(a) => a@,
    }
}

/// Writes the 16-byte form of `ip` at the end of `out`.
pub fn push_ip16(out: &mut Vec<u8>, ip: &PeerIp)
    ensures
        final(out)@ == old(out)@ + ip16(*ip),
{
    match ip {
        PeerIp::V4(a) => {
            let mut i: usize = 0;
            while i < 10
                invariant
                    i <= 10,
                    out@ == old(out)@ + Seq::new(i as nat, |_j: int| 0u8),
                decreases 10 - i,
            {
                out.push(0u8);
                i = i + 1;
                assert(out@ =~= old(out)@ + Seq::new(i as nat, |_j: int| 0u8));
            }
            out.push(0xffu8);
            out.push(0xffu8);
            push_bytes(out, a.as_slice());
            assert(out@ =~= old(out)@ + ip16(*ip));
        },
        PeerIp::V6(a) => {
            push_bytes(out, a.as_slice());
        },
    }
}

/// Appends the bytes of `b` to `out`.
pub fn push_bytes(out: &mut Vec<u8>, b: &[u8])
    ensures
        final(out)@ == old(out)@ + b@,
{
    let mut i: usize = 0;
    while i < b.len()
        invariant
            i <= b@.len(),
            out@ == old(out)@ + b@.take(i as int),
        decreases b@.len() - i,
    {
        out.push(b[i]);
        i = i + 1;
        assert(out@ =~= old(out)@ + b@.take(i as int));
    }
    assert(b@.take(b@.len() as int) =~= b@);
}

/// Whether two keys hold the same bytes.
pub fn same_key(a: &[u8; 32], b: &[u8; 32]) -> (r: bool)
    ensures
        r == (a@ == b@),
{
    let mut i: usize = 0;
    while i < 32
        invariant
            i <= 32,
            a@.len() == 32,
            b@.len() == 32,
            forall|j: int| 0 <= j < i ==> a@[j] == b@[j],
        decreases 32 - i,
    {
        if a[i] != b[i] {
            return false;
        }
        i = i + 1;
    }
    assert(a@ =~= b@);
    true
}

} // verus!
