//! The peers that are connected to the signaling server, each under its
//! network address, in the order in which they came.

use vstd::prelude::*;

verus! {

/// The network address of a peer: what its socket address holds.
#[allow(inconsistent_fields)]
#[derive(Clone, Copy, Debug, PartialEq, Eq, Structural, Hash)]
pub enum PeerAddr {
    V4 { ip: u32, port: u16 },
    V6 { ip: u128, port: u16, flowinfo: u32, scope_id: u32 },
}

/// One connected peer.
#[derive(Clone, Copy, Debug, PartialEq, Eq, Structural)]
pub struct PeerRecord {
    pub addr: PeerAddr,
    /// When the peer connected, in seconds since the Unix epoch.
    pub connected_at: i64,
}

/// Some record is under `addr`.
pub open spec fn has_addr(peers: Seq<PeerRecord>, addr: PeerAddr) -> bool {
    exists|i: int| 0 <= i < peers.len() && (#[trigger] peers[i]).addr == addr
}

/// No two records are under one address.
pub open spec fn unique_addresses(peers: Seq<PeerRecord>) -> bool {
    forall|i: int, j: int|
        0 <= i < j < peers.len() ==> (#[trigger] peers[i]).addr != (#[trigger] peers[j]).addr
}

/// The place of the record under `addr`, where there is one.
pub open spec fn position_of(peers: Seq<PeerRecord>, addr: PeerAddr) -> int {
    choose|i: int| 0 <= i < peers.len() && (#[trigger] peers[i]).addr == addr
}

/// The records with `record` among them: in the place of the one under its
/// address if there is one, else at the end.
pub open spec fn with_record(peers: Seq<PeerRecord>, record: PeerRecord) -> Seq<PeerRecord> {
    if has_addr(peers, record.addr) {
        peers.update(position_of(peers, record.addr), record)
    } else {
        peers.push(record)
    }
}

/// The records that are not under `addr`, in order.
pub open spec fn without_addr(peers: Seq<PeerRecord>, addr: PeerAddr) -> Seq<PeerRecord>
    decreases peers.len(),
{
    if peers.len() == 0 {
        peers
    } else if peers.last().addr == addr {
        without_addr(peers.drop_last(), addr)
    } else {
        without_addr(peers.drop_last(), addr).push(peers.last())
    }
}

/// The addresses of the records that are not under `sender`, in order: the
/// peers that a frame from `sender` goes to.
pub open spec fn others(peers: Seq<PeerRecord>, sender: PeerAddr) -> Seq<PeerAddr> {
    without_addr(peers, sender).map_values(|record: PeerRecord| record.addr)
}

/// An address is among the records if it is among all but the last, or is
/// the last one's.
proof fn lemma_has_addr_step(peers: Seq<PeerRecord>, addr: PeerAddr)
    requires
        peers.len() > 0,
    ensures
        has_addr(peers, addr) <==> has_addr(peers.drop_last(), addr) || peers.last().addr == addr,
{
    let init = peers.drop_last();
    if has_addr(peers, addr) {
        let i = choose|i: int| 0 <= i < peers.len() && (#[trigger] peers[i]).addr == addr;
        if i < init.len() {
            assert(init[i].addr == addr);
        }
    }
    if has_addr(init, addr) {
        let i = choose|i: int| 0 <= i < init.len() && (#[trigger] init[i]).addr == addr;
        assert(peers[i].addr == addr);
    }
    if peers.last().addr == addr {
        assert(peers[peers.len() - 1].addr == addr);
    }
}

/// Records with unique addresses are all but the last, with unique
/// addresses, and a last one under yet another address; and the other way
/// round.
proof fn lemma_unique_step(peers: Seq<PeerRecord>)
    requires
        peers.len() > 0,
    ensures
        unique_addresses(peers) <==> unique_addresses(peers.drop_last()) && !has_addr(
            peers.drop_last(),
            peers.last().addr,
        ),
{
    let init = peers.drop_last();
    let last = peers.last();
    if unique_addresses(peers) {
        assert forall|i: int, j: int| 0 <= i < j < init.len() implies (#[trigger] init[i]).addr != (
        #[trigger] init[j]).addr by {
            assert(peers[i].addr != peers[j].addr);
        }
        if has_addr(init, last.addr) {
            let i = choose|i: int| 0 <= i < init.len() && (#[trigger] init[i]).addr == last.addr;
            assert(peers[i].addr != peers[peers.len() - 1].addr);
        }
    }
    if unique_addresses(init) && !has_addr(init, last.addr) {
        assert forall|i: int, j: int| 0 <= i < j < peers.len() implies (#[trigger] peers[i]).addr
            != (#[trigger] peers[j]).addr by {
            if j < init.len() {
                assert(init[i].addr != init[j].addr);
            } else {
                assert(init[i].addr != last.addr);
            }
        }
    }
}

/// What `with_record` holds: the old addresses and the new one.
pub proof fn with_record_holds(peers: Seq<PeerRecord>, record: PeerRecord, addr: PeerAddr)
    ensures
        has_addr(with_record(peers, record), addr) <==> has_addr(peers, addr) || addr
            == record.addr,
        with_record(peers, record).len() == if has_addr(peers, record.addr) {
            peers.len()
        } else {
            peers.len() + 1
        },
        with_record(peers, record).len() >= 1,
        unique_addresses(peers) ==> unique_addresses(with_record(peers, record)),
{
    let out = with_record(peers, record);
    if has_addr(peers, record.addr) {
        let p = position_of(peers, record.addr);
        assert(out[p].addr == record.addr);
        if has_addr(out, addr) {
            let i = choose|i: int| 0 <= i < out.len() && (#[trigger] out[i]).addr == addr;
            assert(peers[i].addr == out[i].addr);
        }
        if has_addr(peers, addr) {
            let i = choose|i: int| 0 <= i < peers.len() && (#[trigger] peers[i]).addr == addr;
            assert(out[i].addr == peers[i].addr);
        }
        if unique_addresses(peers) {
            assert forall|i: int, j: int| 0 <= i < j < out.len() implies (#[trigger] out[i]).addr
                != (#[trigger] out[j]).addr by {
                assert(peers[i].addr != peers[j].addr);
                assert(out[i].addr == peers[i].addr);
                assert(out[j].addr == peers[j].addr);
            }
        }
    } else {
        assert(out.drop_last() =~= peers);
        lemma_has_addr_step(out, addr);
        lemma_unique_step(out);
    }
}

/// What `without_addr` holds: the old records but the one under `addr`.
pub proof fn without_addr_holds(peers: Seq<PeerRecord>, addr: PeerAddr, other: PeerAddr)
    ensures
        has_addr(without_addr(peers, addr), other) <==> has_addr(peers, other) && other != addr,
        without_addr(peers, addr).len() <= peers.len(),
        unique_addresses(peers) ==> unique_addresses(without_addr(peers, addr)),
        unique_addresses(peers) ==> without_addr(peers, addr).len() == if has_addr(peers, addr) {
            peers.len() - 1
        } else {
            peers.len() as int
        },
        !has_addr(peers, addr) ==> without_addr(peers, addr) == peers,
    decreases peers.len(),
{
    if peers.len() > 0 {
        let init = peers.drop_last();
        let last = peers.last();
        let inner = without_addr(init, addr);
        let out = without_addr(peers, addr);
        without_addr_holds(init, addr, other);
        without_addr_holds(init, addr, last.addr);
        lemma_has_addr_step(peers, other);
        lemma_has_addr_step(peers, addr);
        lemma_unique_step(peers);
        if last.addr != addr {
            assert(out.drop_last() =~= inner);
            lemma_has_addr_step(out, other);
            lemma_unique_step(out);
            if !has_addr(peers, addr) {
                assert(out =~= peers);
            }
        }
    }
}

/// A frame goes to each of the other peers once, and never back to its
/// sender: among peers with unique addresses, `others` holds exactly the
/// addresses that are registered and are not the sender's, none of them
/// twice. Of `n` peers beside a registered sender it holds `n`.
pub proof fn fan_out_reaches_exactly_the_others(
    peers: Seq<PeerRecord>,
    sender: PeerAddr,
    addr: PeerAddr,
)
    requires
        unique_addresses(peers),
    ensures
        others(peers, sender).contains(addr) <==> has_addr(peers, addr) && addr != sender,
        !others(peers, sender).contains(sender),
        others(peers, sender).no_duplicates(),
        others(peers, sender).len() == if has_addr(peers, sender) {
            peers.len() - 1
        } else {
            peers.len() as int
        },
{
    let kept = without_addr(peers, sender);
    let out = others(peers, sender);
    without_addr_holds(peers, sender, addr);
    without_addr_holds(peers, sender, sender);
    assert forall|to: PeerAddr| out.contains(to) <==> has_addr(kept, to) by {
        if out.contains(to) {
            let k = choose|k: int| 0 <= k < out.len() && out[k] == to;
            assert(kept[k].addr == to);
        }
        if has_addr(kept, to) {
            let k = choose|k: int| 0 <= k < kept.len() && (#[trigger] kept[k]).addr == to;
            assert(out[k] == to);
        }
    }
    assert forall|i: int, j: int| 0 <= i < out.len() && 0 <= j < out.len() && i != j implies out[i]
        != out[j] by {
        if i < j {
            assert(kept[i].addr != kept[j].addr);
        } else {
            assert(kept[j].addr != kept[i].addr);
        }
    }
}

/// The connected peers. No two of them share an address.
pub struct PeerRegistry {
    peers: Vec<PeerRecord>,
}

impl View for PeerRegistry {
    type V = Seq<PeerRecord>;

    closed spec fn view(&self) -> Seq<PeerRecord> {
        self.peers@
    }
}

impl PeerRegistry {
    #[verifier::type_invariant]
    spec fn well_formed(&self) -> bool {
        unique_addresses(self.peers@)
    }

    /// A registry without peers.
    pub fn new() -> (registry: PeerRegistry)
        ensures
            registry@ == Seq::<PeerRecord>::empty(),
    {
        PeerRegistry { peers: Vec::new() }
    }

    pub fn len(&self) -> (n: usize)
        ensures
            n == self@.len(),
    {
        self.peers.len()
    }

    pub fn is_empty(&self) -> (empty: bool)
        ensures
            empty == (self@.len() == 0),
    {
        self.peers.len() == 0
    }

    /// The records, in the order in which their peers came. Their
    /// addresses are unique.
    pub fn snapshot(&self) -> (records: Vec<PeerRecord>)
        ensures
            records@ == self@,
            unique_addresses(records@),
    {
        proof {
            use_type_invariant(self);
        }
        self.peers.clone()
    }

    /// The peer that came first among those still connected.
    pub fn first(&self) -> (record: Option<PeerRecord>)
        ensures
            record == if self@.len() == 0 {
                None
            } else {
                Some(self@[0])
            },
    {
        if self.peers.len() == 0 {
            None
        } else {
            Some(self.peers[0])
        }
    }

    /// The place of the record under `addr`.
    fn position(&self, addr: PeerAddr) -> (at: Option<usize>)
        ensures
            match at {
                Some(i) => i < self.peers@.len() && self.peers@[i as int].addr == addr,
                None => !has_addr(self.peers@, addr),
            },
    {
        let mut i: usize = 0;
        while i < self.peers.len()
            invariant
                i <= self.peers@.len(),
                forall|k: int| 0 <= k < i ==> (#[trigger] self.peers@[k]).addr != addr,
            decreases self.peers@.len() - i,
        {
            if self.peers[i].addr == addr {
                return Some(i);
            }
            i = i + 1;
        }
        None
    }

    pub fn contains(&self, addr: PeerAddr) -> (found: bool)
        ensures
            found == has_addr(self@, addr),
    {
        self.position(addr).is_some()
    }

    /// The record under `addr`.
    pub fn get(&self, addr: PeerAddr) -> (record: Option<PeerRecord>)
        ensures
            match record {
                Some(r) => r.addr == addr && self@.contains(r),
                None => !has_addr(self@, addr),
            },
    {
        match self.position(addr) {
            Some(i) => Some(self.peers[i]),
            None => None,
        }
    }

    /// Registers a peer. A record that is already under the same address
    /// is replaced and keeps its place.
    pub fn insert(&mut self, record: PeerRecord)
        ensures
            final(self)@ == with_record(old(self)@, record),
            has_addr(final(self)@, record.addr),
            final(self)@.len() >= 1,
    {
        proof {
            use_type_invariant(&*self);
            with_record_holds(self.peers@, record, record.addr);
        }
        let ghost before = self.peers@;
        let mut peers = self.peers.clone();
        assert(peers@ =~= before);
        match self.position(record.addr) {
            Some(i) => {
                peers.set(i, record);
                proof {
                    lemma_position_is_unique(before, record.addr, i as int);
                }
            },
            None => {
                peers.push(record);
            },
        }
        self.peers = peers;
    }

    /// Removes the peer under `addr`, if there is one, and says whether
    /// there was.
    pub fn remove(&mut self, addr: PeerAddr) -> (removed: bool)
        ensures
            final(self)@ == without_addr(old(self)@, addr),
            removed == has_addr(old(self)@, addr),
            !has_addr(final(self)@, addr),
    {
        proof {
            use_type_invariant(&*self);
            without_addr_holds(self.peers@, addr, addr);
        }
        let ghost before = self.peers@;
        match self.position(addr) {
            Some(i) => {
                let mut peers = self.peers.clone();
                assert(peers@ =~= before);
                peers.remove(i);
                proof {
                    lemma_without_addr_at(before, addr, i as int);
                }
                self.peers = peers;
                true
            },
            None => false,
        }
    }

    /// The peers that a frame from `sender` is handed to: every peer but
    /// the sender.
    pub fn recipients(&self, sender: PeerAddr) -> (to: Vec<PeerAddr>)
        ensures
            to@ == others(self@, sender),
    {
        let mut to: Vec<PeerAddr> = Vec::new();
        let mut i: usize = 0;
        while i < self.peers.len()
            invariant
                i <= self.peers@.len(),
                to@ == others(self.peers@.take(i as int), sender),
            decreases self.peers@.len() - i,
        {
            let record = self.peers[i];
            proof {
                let next = self.peers@.take(i + 1);
                assert(next.drop_last() =~= self.peers@.take(i as int));
                assert(next.last() == record);
            }
            if !(record.addr == sender) {
                to.push(record.addr);
            }
            i = i + 1;
            assert(to@ =~= others(self.peers@.take(i as int), sender));
        }
        assert(self.peers@.take(i as int) =~= self.peers@);
        to
    }
}

/// Among unique addresses, an address has one place.
proof fn lemma_position_is_unique(peers: Seq<PeerRecord>, addr: PeerAddr, at: int)
    requires
        unique_addresses(peers),
        0 <= at < peers.len(),
        peers[at].addr == addr,
    ensures
        has_addr(peers, addr),
        position_of(peers, addr) == at,
{
    let p = position_of(peers, addr);
    if p < at {
        assert(peers[p].addr != peers[at].addr);
    } else if at < p {
        assert(peers[at].addr != peers[p].addr);
    }
}

/// Removing the record at the place of its address is `without_addr`.
proof fn lemma_without_addr_at(peers: Seq<PeerRecord>, addr: PeerAddr, at: int)
    requires
        unique_addresses(peers),
        0 <= at < peers.len(),
        peers[at].addr == addr,
    ensures
        without_addr(peers, addr) == peers.remove(at),
    decreases peers.len(),
{
    let init = peers.drop_last();
    lemma_unique_step(peers);
    if at == peers.len() - 1 {
        without_addr_holds(init, addr, addr);
        assert(init =~= peers.remove(at));
    } else {
        assert(peers[at].addr != peers[peers.len() - 1].addr);
        lemma_without_addr_at(init, addr, at);
        assert(init.remove(at).push(peers.last()) =~= peers.remove(at));
    }
}

} // verus!
