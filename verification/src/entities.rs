//! Accessor and mutator layer over the host's entity chain.
//!
//! The host process keeps its game objects in a singly linked chain of
//! fixed-layout records in its own memory, rooted at a well-known location
//! and terminated by a null link.  This crate never dereferences that memory
//! itself: the unverified boundary reads each record and registers it here,
//! in a `MemoryImage` that maps addresses to records.  Traversal, the
//! player-finding heuristic, and position updates are verified against that
//! image; position coordinates are carried as raw 32-bit patterns and never
//! interpreted.
//!
//! A corrupted chain (a cycle or a wild pointer) has no bound, so every walk
//! takes an explicit step bound and reports exceeding it as a layout error
//! instead of looping.

use vstd::prelude::*;

verus! {

/// One entity record, as read from the host's fixed layout.
#[derive(Clone, Copy, Debug, PartialEq, Eq, Structural)]
pub struct EntityRecord {
    /// Validity marker; zero marks a tail-of-chain or inactive entry.
    pub extent: u16,
    /// Raw bit pattern of the first position coordinate.
    pub x_bits: u32,
    /// Raw bit pattern of the second position coordinate.
    pub y_bits: u32,
    /// Address of the next record; zero terminates the chain.
    pub next: u64,
}

/// One traversal step's result: an entity's address together with its record.
#[derive(Clone, Copy, Debug, PartialEq, Eq, Structural)]
pub struct EntityView {
    /// Address the record lives at.
    pub addr: u64,
    /// Validity marker.
    pub extent: u16,
    /// Raw bit pattern of the first position coordinate.
    pub x_bits: u32,
    /// Raw bit pattern of the second position coordinate.
    pub y_bits: u32,
    /// Address of the next record.
    pub next: u64,
}

/// A walk met something inconsistent with the expected layout.
#[derive(Clone, Copy, Debug, PartialEq, Eq, Structural)]
pub enum MemoryLayoutError {
    /// A link points at an address no record was registered for.
    WildPointer { addr: u64 },
    /// The walk did not reach a null link within its step bound.
    TraversalOverrun,
}

/// Where a bounded walk of the chain ends.
#[derive(Clone, Copy, Debug, PartialEq, Eq, Structural)]
pub enum ChainEnd {
    /// A null link was reached.
    Terminated,
    /// A link led to an unregistered address.
    Wild { addr: u64 },
    /// The step bound ran out first.
    OutOfFuel,
}

/// The record registered for `addr`, scanning entries in registration order.
pub open spec fn spec_lookup(entries: Seq<(u64, EntityRecord)>, addr: u64) -> Option<EntityRecord>
    decreases entries.len(),
{
    if entries.len() == 0 {
        None
    } else if entries[0].0 == addr {
        Some(entries[0].1)
    } else {
        spec_lookup(entries.drop_first(), addr)
    }
}

/// How a walk from `addr` ends within `fuel` steps.
pub open spec fn chain_end(entries: Seq<(u64, EntityRecord)>, addr: u64, fuel: nat) -> ChainEnd
    decreases fuel,
{
    if addr == 0 {
        ChainEnd::Terminated
    } else if fuel == 0 {
        ChainEnd::OutOfFuel
    } else {
        match spec_lookup(entries, addr) {
            None => ChainEnd::Wild { addr },
            Some(rec) => chain_end(entries, rec.next, (fuel - 1) as nat),
        }
    }
}

/// The addresses a walk from `addr` visits, in link order, within `fuel`
/// steps.
pub open spec fn chain_from(entries: Seq<(u64, EntityRecord)>, addr: u64, fuel: nat) -> Seq<u64>
    decreases fuel,
{
    if addr == 0 || fuel == 0 {
        seq![]
    } else {
        match spec_lookup(entries, addr) {
            None => seq![],
            Some(rec) => seq![addr] + chain_from(entries, rec.next, (fuel - 1) as nat),
        }
    }
}

/// Once a chain terminates within some bound, any larger bound sees the very
/// same chain: the elements a traversal yields do not depend on the bound.
pub proof fn lemma_chain_fuel_irrelevant(
    entries: Seq<(u64, EntityRecord)>,
    addr: u64,
    f1: nat,
    f2: nat,
)
    requires
        chain_end(entries, addr, f1) == ChainEnd::Terminated,
        f1 <= f2,
    ensures
        chain_end(entries, addr, f2) == ChainEnd::Terminated,
        chain_from(entries, addr, f2) == chain_from(entries, addr, f1),
    decreases f1,
{
    if addr == 0 {
    } else {
        match spec_lookup(entries, addr) {
            None => {
                assert(false);
            }
            Some(rec) => {
                lemma_chain_fuel_irrelevant(entries, rec.next, (f1 - 1) as nat, (f2 - 1) as nat);
            }
        }
    }
}

/// Whether the registered record at `addr` makes it a player candidate: a
/// non-zero validity marker and a non-null forward link.
pub open spec fn is_player_node(entries: Seq<(u64, EntityRecord)>, addr: u64) -> bool {
    match spec_lookup(entries, addr) {
        Some(rec) => rec.extent != 0 && rec.next != 0,
        None => false,
    }
}

/// The last player candidate of a chain, the reverse-engineered heuristic
/// for the local player.
pub open spec fn last_player(entries: Seq<(u64, EntityRecord)>, chain: Seq<u64>) -> Option<u64>
    decreases chain.len(),
{
    if chain.len() == 0 {
        None
    } else if is_player_node(entries, chain.last()) {
        Some(chain.last())
    } else {
        last_player(entries, chain.drop_last())
    }
}

/// A terminated walk yields the chain itself, in link order: it starts at
/// the root, every element is a registered record, each record's forward
/// link is the next element, and the last record's link is null.  Together
/// with the bound's irrelevance this pins a traversal of a chain of N
/// entities to exactly those N entities in order.
pub proof fn lemma_chain_is_link_ordered(entries: Seq<(u64, EntityRecord)>, addr: u64, fuel: nat)
    requires
        chain_end(entries, addr, fuel) == ChainEnd::Terminated,
    ensures
        ({
            let chain = chain_from(entries, addr, fuel);
            &&& (chain.len() == 0 <==> addr == 0)
            &&& chain.len() > 0 ==> chain[0] == addr
            &&& forall|i: int|
                0 <= i < chain.len() ==> spec_lookup(entries, #[trigger] chain[i]) is Some
            &&& forall|i: int|
                0 <= i < chain.len() - 1 ==> spec_lookup(entries, #[trigger] chain[i])->Some_0.next
                    == chain[i + 1]
            &&& chain.len() > 0 ==> spec_lookup(entries, chain.last())->Some_0.next == 0
        }),
    decreases fuel,
{
    if addr != 0 {
        let rec = spec_lookup(entries, addr)->Some_0;
        lemma_chain_is_link_ordered(entries, rec.next, (fuel - 1) as nat);
        let tail = chain_from(entries, rec.next, (fuel - 1) as nat);
        let chain = chain_from(entries, addr, fuel);
        assert(chain == seq![addr] + tail);
        assert(chain.len() == 1 + tail.len());
        assert forall|i: int| 0 <= i < chain.len() implies spec_lookup(
            entries,
            #[trigger] chain[i],
        ) is Some by {
            if i > 0 {
                assert(chain[i] == tail[i - 1]);
            }
        }
        assert forall|i: int| 0 <= i < chain.len() - 1 implies spec_lookup(
            entries,
            #[trigger] chain[i],
        )->Some_0.next == chain[i + 1] by {
            if i == 0 {
                assert(tail.len() > 0);
                assert(tail[0] == rec.next);
                assert(chain[1] == tail[0]);
            } else {
                assert(chain[i] == tail[i - 1]);
                assert(chain[i + 1] == tail[i]);
            }
        }
        if tail.len() == 0 {
            assert(rec.next == 0);
            assert(chain.last() == addr);
        } else {
            assert(chain.last() == tail.last());
        }
    }
}

/// A chain's last player candidate is a registered record with a non-zero
/// validity marker and a non-null link.
pub proof fn lemma_last_player_is_player(entries: Seq<(u64, EntityRecord)>, chain: Seq<u64>)
    requires
        last_player(entries, chain) is Some,
    ensures
        is_player_node(entries, last_player(entries, chain)->Some_0),
    decreases chain.len(),
{
    if chain.len() == 0 {
    } else if is_player_node(entries, chain.last()) {
    } else {
        lemma_last_player_is_player(entries, chain.drop_last());
    }
}

/// The registered picture of the host's entity memory: the root pointer's
/// value and every record the boundary has read, keyed by address.
pub struct MemoryImage {
    /// Value of the root pointer; zero if it was null.
    pub root: u64,
    /// Registered records in registration order.
    pub entries: Vec<(u64, EntityRecord)>,
}

impl MemoryImage {
    /// An image with no registered records.
    pub fn new(root: u64) -> (img: MemoryImage)
        ensures
            img.root == root,
            img.entries@ =~= Seq::<(u64, EntityRecord)>::empty(),
    {
        MemoryImage { root, entries: Vec::new() }
    }

    /// Registers the record read at `addr`.  Refuses a null address and an
    /// address already registered; returns whether the record was added.
    pub fn record_entity(&mut self, addr: u64, rec: EntityRecord) -> (added: bool)
        ensures
            final(self).root == old(self).root,
            added == (addr != 0 && spec_lookup(old(self).entries@, addr) is None),
            added ==> final(self).entries@ == old(self).entries@.push((addr, rec)),
            !added ==> final(self).entries@ == old(self).entries@,
    {
        if addr == 0 {
            return false;
        }
        match self.lookup(addr) {
            Some(_) => false,
            None => {
                self.entries.push((addr, rec));
                true
            }
        }
    }

    /// The record registered for `addr`, if any.
    pub fn lookup(&self, addr: u64) -> (r: Option<EntityRecord>)
        ensures
            r == spec_lookup(self.entries@, addr),
    {
        let n = self.entries.len();
        let mut i: usize = 0;
        proof {
            assert(self.entries@.skip(0) =~= self.entries@);
        }
        while i < n
            invariant
                0 <= i <= n,
                n == self.entries@.len(),
                spec_lookup(self.entries@.skip(i as int), addr) == spec_lookup(
                    self.entries@,
                    addr,
                ),
            decreases n - i,
        {
            let (a, rec) = self.entries[i];
            proof {
                assert(self.entries@.skip(i as int)[0] == self.entries@[i as int]);
                assert(self.entries@.skip(i as int).drop_first() =~= self.entries@.skip(
                    i as int + 1,
                ));
            }
            if a == addr {
                return Some(rec);
            }
            i = i + 1;
        }
        proof {
            assert(self.entries@.skip(i as int) =~= Seq::<(u64, EntityRecord)>::empty());
        }
        None
    }

    /// The root of the chain, or `None` if the root pointer was null.
    pub fn head(&self) -> (r: Option<u64>)
        ensures
            r == (if self.root == 0 {
                None::<u64>
            } else {
                Some(self.root)
            }),
    {
        if self.root == 0 {
            None
        } else {
            Some(self.root)
        }
    }

    /// Walks the chain from the root, following each record's forward link
    /// until a null link, and yields every visited entity in link order.
    /// The walk reads only the forward links, so a caller may rewrite the
    /// positions of yielded entities without disturbing it, and it starts
    /// over from the root on every call.  A link to an unregistered address
    /// and a walk longer than `bound` are layout errors.
    pub fn traverse(&self, bound: usize) -> (r: Result<Vec<EntityView>, MemoryLayoutError>)
        ensures
            match r {
                Ok(v) => chain_end(self.entries@, self.root, bound as nat) == ChainEnd::Terminated
                    && v@.map_values(|e: EntityView| e.addr) == chain_from(
                    self.entries@,
                    self.root,
                    bound as nat,
                ) && (forall|i: int|
                    0 <= i < v@.len() ==> spec_lookup(self.entries@, v@[i].addr) == Some(
                        EntityRecord {
                            extent: v@[i].extent,
                            x_bits: v@[i].x_bits,
                            y_bits: v@[i].y_bits,
                            next: v@[i].next,
                        },
                    )),
                Err(MemoryLayoutError::WildPointer { addr }) => chain_end(
                    self.entries@,
                    self.root,
                    bound as nat,
                ) == (ChainEnd::Wild { addr }),
                Err(MemoryLayoutError::TraversalOverrun) => chain_end(
                    self.entries@,
                    self.root,
                    bound as nat,
                ) == ChainEnd::OutOfFuel,
            },
    {
        let mut out: Vec<EntityView> = Vec::new();
        let mut cur: u64 = self.root;
        let mut steps: usize = 0;
        proof {
            assert(out@.map_values(|e: EntityView| e.addr) =~= Seq::<u64>::empty());
            assert(Seq::<u64>::empty() + chain_from(self.entries@, self.root, bound as nat)
                =~= chain_from(self.entries@, self.root, bound as nat));
        }
        while cur != 0
            invariant
                steps <= bound,
                out@.len() == steps,
                chain_end(self.entries@, self.root, bound as nat) == chain_end(
                    self.entries@,
                    cur,
                    (bound - steps) as nat,
                ),
                out@.map_values(|e: EntityView| e.addr) + chain_from(
                    self.entries@,
                    cur,
                    (bound - steps) as nat,
                ) == chain_from(self.entries@, self.root, bound as nat),
                forall|i: int|
                    0 <= i < out@.len() ==> spec_lookup(self.entries@, out@[i].addr) == Some(
                        EntityRecord {
                            extent: out@[i].extent,
                            x_bits: out@[i].x_bits,
                            y_bits: out@[i].y_bits,
                            next: out@[i].next,
                        },
                    ),
            decreases bound - steps,
        {
            if steps == bound {
                return Err(MemoryLayoutError::TraversalOverrun);
            }
            match self.lookup(cur) {
                None => {
                    return Err(MemoryLayoutError::WildPointer { addr: cur });
                }
                Some(rec) => {
                    let ghost pre = out@.map_values(|e: EntityView| e.addr);
                    out.push(
                        EntityView {
                            addr: cur,
                            extent: rec.extent,
                            x_bits: rec.x_bits,
                            y_bits: rec.y_bits,
                            next: rec.next,
                        },
                    );
                    proof {
                        assert(out@.map_values(|e: EntityView| e.addr) =~= pre.push(cur));
                        assert(pre.push(cur) + chain_from(
                            self.entries@,
                            rec.next,
                            (bound - (steps + 1)) as nat,
                        ) =~= pre + (seq![cur] + chain_from(
                            self.entries@,
                            rec.next,
                            (bound - (steps + 1)) as nat,
                        )));
                    }
                    steps = steps + 1;
                    cur = rec.next;
                }
            }
        }
        proof {
            assert(out@.map_values(|e: EntityView| e.addr) + chain_from(
                self.entries@,
                cur,
                (bound - steps) as nat,
            ) =~= out@.map_values(|e: EntityView| e.addr));
        }
        Ok(out)
    }

    /// Walks the chain and returns the address of the last entity with a
    /// non-zero validity marker and a non-null forward link — the
    /// reverse-engineered heuristic identifying the local player.  `None` if
    /// no entity qualifies.
    pub fn find_local_player(&self, bound: usize) -> (r: Result<
        Option<u64>,
        MemoryLayoutError,
    >)
        ensures
            match r {
                Ok(p) => chain_end(self.entries@, self.root, bound as nat) == ChainEnd::Terminated
                    && p == last_player(
                    self.entries@,
                    chain_from(self.entries@, self.root, bound as nat),
                ),
                Err(e) => self.traverse_err_witness(e, bound as nat),
            },
    {
        let views = match self.traverse(bound) {
            Ok(v) => v,
            Err(e) => {
                return Err(e);
            }
        };
        let ghost chain = chain_from(self.entries@, self.root, bound as nat);
        let mut best: Option<u64> = None;
        let n = views.len();
        let mut i: usize = 0;
        proof {
            assert(chain.take(0) =~= Seq::<u64>::empty());
        }
        while i < n
            invariant
                0 <= i <= n,
                n == views@.len(),
                chain == views@.map_values(|e: EntityView| e.addr),
                best == last_player(self.entries@, chain.take(i as int)),
                forall|k: int|
                    0 <= k < views@.len() ==> spec_lookup(self.entries@, views@[k].addr) == Some(
                        EntityRecord {
                            extent: views@[k].extent,
                            x_bits: views@[k].x_bits,
                            y_bits: views@[k].y_bits,
                            next: views@[k].next,
                        },
                    ),
            decreases n - i,
        {
            let e = views[i];
            proof {
                let t = chain.take(i as int + 1);
                assert(t.last() == chain[i as int]);
                assert(chain[i as int] == views@[i as int].addr);
                assert(t.drop_last() =~= chain.take(i as int));
            }
            if e.extent != 0 && e.next != 0 {
                best = Some(e.addr);
            }
            i = i + 1;
        }
        proof {
            assert(chain.take(n as int) =~= chain);
        }
        Ok(best)
    }

    /// What a traversal error certifies of the chain.
    pub open spec fn traverse_err_witness(self, e: MemoryLayoutError, fuel: nat) -> bool {
        match e {
            MemoryLayoutError::WildPointer { addr } => chain_end(self.entries@, self.root, fuel)
                == (ChainEnd::Wild { addr }),
            MemoryLayoutError::TraversalOverrun => chain_end(self.entries@, self.root, fuel)
                == ChainEnd::OutOfFuel,
        }
    }

    /// Overwrites the position of the entity registered at `addr`, in place,
    /// leaving its validity marker, its forward link, and every other record
    /// untouched.  Fails exactly when no record is registered at `addr`.
    pub fn write_position(&mut self, addr: u64, x_bits: u32, y_bits: u32) -> (r: Result<
        (),
        MemoryLayoutError,
    >)
        ensures
            final(self).root == old(self).root,
            match r {
                Ok(()) => spec_lookup(old(self).entries@, addr) is Some
                    && final(self).entries@.len() == old(self).entries@.len() && (forall|a: u64|
                    a != addr ==> spec_lookup(final(self).entries@, a) == spec_lookup(
                        old(self).entries@,
                        a,
                    )) && spec_lookup(final(self).entries@, addr) == Some(
                    EntityRecord {
                        extent: spec_lookup(old(self).entries@, addr)->Some_0.extent,
                        x_bits,
                        y_bits,
                        next: spec_lookup(old(self).entries@, addr)->Some_0.next,
                    },
                ),
                Err(e) => e == (MemoryLayoutError::WildPointer { addr }) && spec_lookup(
                    old(self).entries@,
                    addr,
                ) is None && final(self).entries@ == old(self).entries@,
            },
    {
        let n = self.entries.len();
        let mut i: usize = 0;
        proof {
            assert(self.entries@.skip(0) =~= self.entries@);
        }
        while i < n
            invariant
                0 <= i <= n,
                n == self.entries@.len(),
                self.root == old(self).root,
                self.entries@ == old(self).entries@,
                spec_lookup(self.entries@.skip(i as int), addr) == spec_lookup(
                    self.entries@,
                    addr,
                ),
                forall|m: int| 0 <= m < i ==> self.entries@[m].0 != addr,
            decreases n - i,
        {
            proof {
                assert(self.entries@.skip(i as int)[0] == self.entries@[i as int]);
                assert(self.entries@.skip(i as int).drop_first() =~= self.entries@.skip(
                    i as int + 1,
                ));
            }
            let (a, rec) = self.entries[i];
            if a == addr {
                let newrec = EntityRecord { extent: rec.extent, x_bits, y_bits, next: rec.next };
                self.entries[i] = (addr, newrec);
                proof {
                    lemma_lookup_update_all(old(self).entries@, i as int, newrec);
                }
                return Ok(());
            }
            i = i + 1;
        }
        proof {
            assert(self.entries@.skip(i as int) =~= Seq::<(u64, EntityRecord)>::empty());
        }
        Err(MemoryLayoutError::WildPointer { addr })
    }
}

/// Updating the first entry holding a key changes lookups of that key to the
/// new record and no lookup of any other key.
proof fn lemma_lookup_update(
    entries: Seq<(u64, EntityRecord)>,
    i: int,
    newrec: EntityRecord,
    a: u64,
)
    requires
        0 <= i < entries.len(),
        forall|m: int| 0 <= m < i ==> entries[m].0 != entries[i].0,
    ensures
        spec_lookup(entries.update(i, (entries[i].0, newrec)), a) == (if a == entries[i].0 {
            Some(newrec)
        } else {
            spec_lookup(entries, a)
        }),
    decreases i,
{
    let k = entries[i].0;
    let up = entries.update(i, (k, newrec));
    if i == 0 {
        if a == k {
            assert(up[0].0 == a);
        } else {
            assert(up[0] == (k, newrec));
            assert(up.drop_first() =~= entries.drop_first());
        }
    } else {
        assert(up[0] == entries[0]);
        if entries[0].0 == a {
        } else {
            let tail = entries.drop_first();
            assert(up.drop_first() =~= tail.update(i - 1, (k, newrec)));
            assert(tail[i - 1] == entries[i]);
            assert forall|m: int| 0 <= m < i - 1 implies (#[trigger] tail[m]).0 != tail[i - 1].0 by {
                assert(tail[m] == entries[m + 1]);
            }
            lemma_lookup_update(tail, i - 1, newrec, a);
        }
    }
}

proof fn lemma_lookup_update_all(entries: Seq<(u64, EntityRecord)>, i: int, newrec: EntityRecord)
    requires
        0 <= i < entries.len(),
        forall|m: int| 0 <= m < i ==> entries[m].0 != entries[i].0,
    ensures
        forall|a: u64|
            spec_lookup(entries.update(i, (entries[i].0, newrec)), a) == (if a == entries[i].0 {
                Some(newrec)
            } else {
                spec_lookup(entries, a)
            }),
{
    assert forall|a: u64|
        spec_lookup(entries.update(i, (entries[i].0, newrec)), a) == (if a == entries[i].0 {
            Some(newrec)
        } else {
            spec_lookup(entries, a)
        }) by {
        lemma_lookup_update(entries, i, newrec, a);
    }
}

} // verus!
