//! The host's view of its connected peers: which addresses are live, in
//! what order they joined, and how the set shrinks when writes to some of
//! them fail. The byte streams themselves live outside this crate; the
//! surrounding I/O layer keeps one stream per address listed here and
//! mutates this set in lockstep, so the eviction rules proved here govern
//! the real connection table.

use vstd::prelude::*;

verus! {

/// A peer's socket address as plain values: the IP (an IPv4 address in the
/// low 32 bits when `is_v6` is false), and the port.
#[derive(Clone, Copy, PartialEq, Eq, Structural, Debug)]
pub struct PeerAddr {
    pub ip: u128,
    pub port: u16,
    pub is_v6: bool,
}

/// The peers of `s` that are not listed in `failed`, in their original
/// order.
pub open spec fn spec_surviving(s: Seq<PeerAddr>, failed: Seq<PeerAddr>) -> Seq<PeerAddr>
    decreases s.len(),
{
    if s.len() == 0 {
        Seq::empty()
    } else {
        let rest = spec_surviving(s.drop_last(), failed);
        if failed.contains(s.last()) {
            rest
        } else {
            rest.push(s.last())
        }
    }
}

/// The peers of `s` that are listed in `failed`, in their original order.
pub open spec fn spec_evicted(s: Seq<PeerAddr>, failed: Seq<PeerAddr>) -> Seq<PeerAddr>
    decreases s.len(),
{
    if s.len() == 0 {
        Seq::empty()
    } else {
        let rest = spec_evicted(s.drop_last(), failed);
        if failed.contains(s.last()) {
            rest.push(s.last())
        } else {
            rest
        }
    }
}

/// The set of live peers, in the order they were accepted. Every address
/// appears at most once.
pub struct ConnectionSet {
    peers: Vec<PeerAddr>,
}

impl View for ConnectionSet {
    type V = Seq<PeerAddr>;

    closed spec fn view(&self) -> Seq<PeerAddr> {
        self.peers@
    }
}

impl ConnectionSet {
    /// No address is listed twice.
    pub open spec fn wf(self) -> bool {
        forall|i: int, j: int| 0 <= i < j < self@.len() ==> self@[i] != self@[j]
    }

    pub fn new() -> (r: ConnectionSet)
        ensures
            r@ == Seq::<PeerAddr>::empty(),
            r.wf(),
    {
        ConnectionSet { peers: Vec::new() }
    }

    pub fn len(&self) -> (r: usize)
        ensures
            r == self@.len(),
    {
        self.peers.len()
    }

    pub fn is_empty(&self) -> (r: bool)
        ensures
            r == (self@.len() == 0),
    {
        self.peers.len() == 0
    }

    pub fn contains(&self, addr: &PeerAddr) -> (r: bool)
        ensures
            r == self@.contains(*addr),
    {
        let mut i: usize = 0;
        while i < self.peers.len()
            invariant
                i <= self@.len(),
                forall|j: int| 0 <= j < i ==> self@[j] != *addr,
            decreases self@.len() - i,
        {
            if self.peers[i] == *addr {
                return true;
            }
            i = i + 1;
        }
        false
    }

    /// Adds a newly accepted peer. Accepting an address that is already
    /// live replaces its stream outside this crate and leaves the set
    /// unchanged.
    pub fn insert(&mut self, addr: PeerAddr)
        requires
            old(self).wf(),
        ensures
            final(self).wf(),
            final(self)@ == if old(self)@.contains(addr) {
                old(self)@
            } else {
                old(self)@.push(addr)
            },
    {
        if !self.contains(&addr) {
            self.peers.push(addr);
        }
    }

    /// Settles a broadcast attempt: every peer whose write failed is
    /// evicted, in one pass, and the survivors keep their order. Returns
    /// the evicted addresses, empty exactly when every write succeeded.
    pub fn evict_failed(&mut self, failed: &Vec<PeerAddr>) -> (r: Vec<PeerAddr>)
        requires
            old(self).wf(),
        ensures
            final(self).wf(),
            final(self)@ == spec_surviving(old(self)@, failed@),
            r@ == spec_evicted(old(self)@, failed@),
    {
        let mut kept: Vec<PeerAddr> = Vec::new();
        let mut evicted: Vec<PeerAddr> = Vec::new();
        let mut i: usize = 0;
        proof {
            assert(self@.subrange(0, 0) =~= Seq::<PeerAddr>::empty());
        }
        while i < self.peers.len()
            invariant
                i <= self@.len(),
                kept@ == spec_surviving(self@.subrange(0, i as int), failed@),
                evicted@ == spec_evicted(self@.subrange(0, i as int), failed@),
            decreases self@.len() - i,
        {
            proof {
                assert(self@.subrange(0, (i + 1) as int).drop_last() =~= self@.subrange(
                    0,
                    i as int,
                ));
                assert(self@.subrange(0, (i + 1) as int).last() == self@[i as int]);
            }
            if contains_addr(failed, &self.peers[i]) {
                evicted.push(self.peers[i]);
            } else {
                kept.push(self.peers[i]);
            }
            i = i + 1;
        }
        proof {
            assert(self@.subrange(0, self@.len() as int) =~= self@);
            lemma_surviving_distinct(old(self)@, failed@);
        }
        self.peers = kept;
        evicted
    }

    /// Drops every peer at once, as on shutdown.
    pub fn disconnect_all(&mut self)
        ensures
            final(self)@ == Seq::<PeerAddr>::empty(),
            final(self).wf(),
    {
        self.peers.clear();
    }

    /// The live addresses, for display.
    pub fn clients(&self) -> (r: Vec<PeerAddr>)
        ensures
            r@ == self@,
    {
        let mut out: Vec<PeerAddr> = Vec::new();
        let mut i: usize = 0;
        while i < self.peers.len()
            invariant
                i <= self@.len(),
                out@ == self@.subrange(0, i as int),
            decreases self@.len() - i,
        {
            out.push(self.peers[i]);
            i = i + 1;
        }
        proof {
            assert(self@.subrange(0, self@.len() as int) =~= self@);
        }
        out
    }
}

/// Whether `addrs` lists `addr`.
pub fn contains_addr(addrs: &Vec<PeerAddr>, addr: &PeerAddr) -> (r: bool)
    ensures
        r == addrs@.contains(*addr),
{
    let mut i: usize = 0;
    while i < addrs.len()
        invariant
            i <= addrs@.len(),
            forall|j: int| 0 <= j < i ==> addrs@[j] != *addr,
        decreases addrs@.len() - i,
    {
        if addrs[i] == *addr {
            return true;
        }
        i = i + 1;
    }
    false
}

/// Evicting from a duplicate-free peer list leaves the survivors
/// duplicate-free, and every survivor comes from the original list.
proof fn lemma_surviving_distinct(s: Seq<PeerAddr>, failed: Seq<PeerAddr>)
    requires
        forall|i: int, j: int| 0 <= i < j < s.len() ==> s[i] != s[j],
    ensures
        forall|i: int, j: int|
            0 <= i < j < spec_surviving(s, failed).len() ==> spec_surviving(s, failed)[i]
                != spec_surviving(s, failed)[j],
        forall|i: int|
            0 <= i < spec_surviving(s, failed).len() ==> s.contains(
                #[trigger] spec_surviving(s, failed)[i],
            ),
    decreases s.len(),
{
    if s.len() > 0 {
        let d = s.drop_last();
        assert(d =~= s.subrange(0, s.len() - 1));
        assert forall|i: int, j: int| 0 <= i < j < d.len() implies d[i] != d[j] by {
            assert(s[i] == d[i] && s[j] == d[j]);
        }
        lemma_surviving_distinct(d, failed);
        let f = spec_surviving(s, failed);
        let fd = spec_surviving(d, failed);
        assert forall|i: int| 0 <= i < fd.len() implies s.contains(#[trigger] fd[i]) by {
            let k = choose|k: int| 0 <= k < d.len() && d[k] == fd[i];
            assert(s[k] == fd[i]);
        }
        if !failed.contains(s.last()) {
            assert(f == fd.push(s.last()));
            assert forall|i: int, j: int| 0 <= i < j < f.len() implies f[i] != f[j] by {
                if j == f.len() - 1 {
                    assert(f[i] == fd[i]);
                    assert(f[j] == s.last());
                    let k = choose|k: int| 0 <= k < d.len() && d[k] == fd[i];
                    assert(s[k] == fd[i]);
                    assert(s[s.len() - 1] == s.last());
                    assert(s[k] != s[s.len() - 1]);
                } else {
                    assert(f[i] == fd[i] && f[j] == fd[j]);
                }
            }
            assert forall|i: int| 0 <= i < f.len() implies s.contains(#[trigger] f[i]) by {
                if i == f.len() - 1 {
                    assert(s[s.len() - 1] == s.last());
                    assert(f[i] == s.last());
                } else {
                    assert(f[i] == fd[i]);
                }
            }
        } else {
            assert(f == fd);
        }
    }
}

} // verus!
