//! The central authority for node identity and ownership: a flat arena of
//! capability-erased node records, an identity counter, and a weak
//! back-reference type through which nodes reach their owner without a
//! cycle.

use vstd::prelude::*;
use crate::node::Node;
use crate::node::NodeHandle;
use crate::node::NodeId;
use crate::node::PlatformNode;

verus! {

/// A node as the arena stores it: erased to the capability surface,
/// identity and native handle.
#[derive(Clone, Copy, Debug, PartialEq, Eq, Structural)]
pub struct NodeRecord {
    pub id: NodeId,
    pub handle: NodeHandle,
}

/// Why the arena refused a node.
#[derive(Clone, Copy, Debug, PartialEq, Eq, Structural)]
pub enum ArenaError {
    /// The node's identity was not minted by this context.
    ForeignId,
    /// A node with the same identity is already in the arena.
    DuplicateId,
}

/// Whether `nodes` holds a record with identity `id`.
pub open spec fn holds_id(nodes: Seq<NodeRecord>, id: NodeId) -> bool {
    exists|i: int| 0 <= i < nodes.len() && nodes[i].id == id
}

/// The result of inserting identity `id` into an arena whose records are
/// `nodes` and whose identity counter stands at `counter`: refused when
/// the identity was not minted by this arena's context or is already
/// present, accepted otherwise.
pub open spec fn emplace_result(nodes: Seq<NodeRecord>, counter: u64, id: NodeId) -> Result<
    (),
    ArenaError,
> {
    if id.raw >= counter {
        Err(ArenaError::ForeignId)
    } else if holds_id(nodes, id) {
        Err(ArenaError::DuplicateId)
    } else {
        Ok(())
    }
}

/// The records that inserting `id` with `handle` leaves behind: appended
/// on acceptance, unchanged on refusal.
pub open spec fn emplace_push(
    nodes: Seq<NodeRecord>,
    counter: u64,
    id: NodeId,
    handle: NodeHandle,
) -> Seq<NodeRecord> {
    if emplace_result(nodes, counter, id) is Ok {
        nodes.push(NodeRecord { id, handle })
    } else {
        nodes
    }
}

/// Owns the node arena and mints identities. A context is distinguished
/// from its peers by a caller-chosen serial, and `destroy` models its
/// teardown: the arena empties (dropping every owned node releases its
/// native handle) and every weak reference to it stops resolving.
pub struct Context {
    serial: u64,
    alive: bool,
    next: u64,
    arena: Vec<NodeRecord>,
    issued: Ghost<Seq<u64>>,
}

/// A non-owning back-reference to a `Context`: it resolves to the context
/// while the context lives and reports absence after the context has been
/// destroyed.
#[derive(Clone, Copy, Debug, PartialEq, Eq, Structural)]
pub struct WeakContext {
    serial: u64,
}

impl Context {
    /// The serial this context was created with.
    pub closed spec fn serial_spec(self) -> u64 {
        self.serial
    }

    /// Whether this context has not yet been destroyed.
    pub closed spec fn live(self) -> bool {
        self.alive
    }

    /// The value the next minted identity will carry; strictly greater
    /// than every identity minted so far.
    pub closed spec fn counter(self) -> u64 {
        self.next
    }

    /// Every identity value this context has minted, oldest first.
    pub closed spec fn issued_ids(self) -> Seq<u64> {
        self.issued@
    }

    /// The arena contents, in insertion order.
    pub closed spec fn nodes(self) -> Seq<NodeRecord> {
        self.arena@
    }

    /// Whether the arena holds a node with identity `id`.
    pub open spec fn contains_id(self, id: NodeId) -> bool {
        holds_id(self.nodes(), id)
    }

    /// The arena's internal consistency: every minted identity is below
    /// the counter and they strictly increase in minting order; arena
    /// identities are pairwise distinct and all minted here.
    pub open spec fn wf(self) -> bool {
        &&& forall|i: int|
            0 <= i < self.issued_ids().len() ==> self.issued_ids()[i] < self.counter()
        &&& forall|i: int, j: int|
            0 <= i < j < self.issued_ids().len() ==> self.issued_ids()[i] < self.issued_ids()[j]
        &&& forall|i: int, j: int|
            0 <= i < j < self.nodes().len() ==> self.nodes()[i].id != self.nodes()[j].id
        &&& forall|i: int| 0 <= i < self.nodes().len() ==> self.nodes()[i].id.raw < self.counter()
    }

    /// A fresh, live context with an empty arena. The caller chooses a
    /// serial that is unique among the contexts it creates; weak
    /// references resolve by that serial.
    pub fn new(serial: u64) -> (r: Context)
        ensures
            r.wf(),
            r.live(),
            r.serial_spec() == serial,
            r.counter() == 0,
            r.issued_ids() == Seq::<u64>::empty(),
            r.nodes() == Seq::<NodeRecord>::empty(),
    {
        Context {
            serial,
            alive: true,
            next: 0,
            arena: Vec::new(),
            issued: Ghost(Seq::empty()),
        }
    }

    /// Mints a fresh identity, strictly greater than every identity this
    /// context has issued before.
    pub fn next_id(&mut self) -> (r: NodeId)
        requires
            old(self).wf(),
            old(self).counter() < u64::MAX,
        ensures
            final(self).wf(),
            r.raw == old(self).counter(),
            final(self).counter() == old(self).counter() + 1,
            final(self).issued_ids() == old(self).issued_ids().push(r.raw),
            final(self).serial_spec() == old(self).serial_spec(),
            final(self).live() == old(self).live(),
            final(self).nodes() == old(self).nodes(),
    {
        let id = NodeId { raw: self.next };
        self.next = self.next + 1;
        proof {
            self.issued@ = self.issued@.push(id.raw);
            assert forall|i: int|
                0 <= i < self.issued_ids().len() implies self.issued_ids()[i]
                < self.counter() by {
                if i < old(self).issued_ids().len() {
                    assert(self.issued_ids()[i] == old(self).issued_ids()[i]);
                    assert(old(self).issued_ids()[i] < old(self).counter());
                } else {
                    assert(self.issued_ids()[i] == id.raw);
                }
            }
            assert forall|i: int, j: int|
                0 <= i < j < self.issued_ids().len() implies self.issued_ids()[i]
                < self.issued_ids()[j] by {
                if j < old(self).issued_ids().len() {
                    assert(old(self).issued_ids()[i] < old(self).issued_ids()[j]);
                } else {
                    assert(self.issued_ids()[j] == id.raw);
                    assert(old(self).issued_ids()[i] < old(self).counter());
                }
            }
            assert(forall|i: int|
                0 <= i < old(self).nodes().len() ==> old(self).nodes()[i].id.raw < old(
                    self,
                ).counter());
            assert(self.wf());
        }
        id
    }

    /// Inserts a capability-erased record under `id`. An identity this
    /// context did not mint, or one already present, is rejected and the
    /// arena is left unchanged.
    pub fn emplace_entry(&mut self, id: NodeId, handle: NodeHandle) -> (r: Result<(), ArenaError>)
        requires
            old(self).wf(),
        ensures
            final(self).wf(),
            r == emplace_result(old(self).nodes(), old(self).counter(), id),
            final(self).nodes() == emplace_push(old(self).nodes(), old(self).counter(), id, handle),
            final(self).serial_spec() == old(self).serial_spec(),
            final(self).live() == old(self).live(),
            final(self).counter() == old(self).counter(),
            final(self).issued_ids() == old(self).issued_ids(),
    {
        if id.raw >= self.next {
            Err(ArenaError::ForeignId)
        } else if self.contains_entry(id) {
            Err(ArenaError::DuplicateId)
        } else {
            self.arena.push(NodeRecord { id, handle });
            proof {
                assert forall|i: int, j: int|
                    0 <= i < j < self.nodes().len() implies self.nodes()[i].id
                    != self.nodes()[j].id by {
                    if j < old(self).nodes().len() {
                        assert(old(self).nodes()[i].id != old(self).nodes()[j].id);
                    } else {
                        assert(self.nodes()[j] == NodeRecord { id, handle });
                        assert(!holds_id(old(self).nodes(), id));
                        assert(old(self).nodes()[i].id != id);
                    }
                }
                assert forall|i: int|
                    0 <= i < self.nodes().len() implies self.nodes()[i].id.raw
                    < self.counter() by {
                    if i < old(self).nodes().len() {
                        assert(old(self).nodes()[i].id.raw < old(self).counter());
                    } else {
                        assert(self.nodes()[i] == NodeRecord { id, handle });
                    }
                }
                assert(forall|i: int|
                    0 <= i < old(self).issued_ids().len() ==> old(self).issued_ids()[i] < old(
                        self,
                    ).counter());
                assert(forall|i: int, j: int|
                    0 <= i < j < old(self).issued_ids().len() ==> old(self).issued_ids()[i] < old(
                        self,
                    ).issued_ids()[j]);
                assert(self.wf());
            }
            Ok(())
        }
    }

    /// Takes ownership of a node, erased to the `Node` and `PlatformNode`
    /// capabilities, and inserts it into the arena keyed by its own
    /// identity.
    pub fn emplace_node<N: Node + PlatformNode>(&mut self, node: N) -> (r: Result<(), ArenaError>)
        requires
            old(self).wf(),
        ensures
            final(self).wf(),
            r == emplace_result(old(self).nodes(), old(self).counter(), node.id_spec()),
            final(self).nodes() == emplace_push(
                old(self).nodes(),
                old(self).counter(),
                node.id_spec(),
                node.handle_spec(),
            ),
            final(self).serial_spec() == old(self).serial_spec(),
            final(self).live() == old(self).live(),
            final(self).counter() == old(self).counter(),
            final(self).issued_ids() == old(self).issued_ids(),
    {
        let id = node.id();
        let handle = node.handle();
        self.emplace_entry(id, handle)
    }

    /// Whether the arena holds a node with identity `id`.
    pub fn contains_entry(&self, id: NodeId) -> (r: bool)
        ensures
            r == self.contains_id(id),
    {
        let mut i: usize = 0;
        while i < self.arena.len()
            invariant
                0 <= i <= self.arena.len(),
                forall|j: int| 0 <= j < i as int ==> self.nodes()[j].id != id,
            decreases self.arena.len() - i,
        {
            if self.arena[i].id == id {
                return true;
            }
            i = i + 1;
        }
        false
    }

    /// How many nodes the arena holds.
    pub fn node_count(&self) -> (r: usize)
        ensures
            r == self.nodes().len(),
    {
        self.arena.len()
    }

    /// A weak back-reference to this context; holding it does not keep
    /// the context alive.
    pub fn downgrade(&self) -> (w: WeakContext)
        ensures
            w.serial_of() == self.serial_spec(),
    {
        WeakContext { serial: self.serial }
    }

    /// Tears the context down: the arena empties, dropping every owned
    /// node (which releases each native handle exactly once), and weak
    /// references to this context stop resolving.
    pub fn destroy(&mut self)
        requires
            old(self).wf(),
        ensures
            final(self).wf(),
            !final(self).live(),
            final(self).nodes() == Seq::<NodeRecord>::empty(),
            final(self).serial_spec() == old(self).serial_spec(),
            final(self).counter() == old(self).counter(),
            final(self).issued_ids() == old(self).issued_ids(),
    {
        self.alive = false;
        self.arena = Vec::new();
        proof {
            assert forall|i: int|
                0 <= i < self.issued_ids().len() implies self.issued_ids()[i]
                < self.counter() by {
                assert(self.issued_ids()[i] == old(self).issued_ids()[i]);
                assert(old(self).issued_ids()[i] < old(self).counter());
            }
            assert forall|i: int, j: int|
                0 <= i < j < self.issued_ids().len() implies self.issued_ids()[i]
                < self.issued_ids()[j] by {
                assert(old(self).issued_ids()[i] < old(self).issued_ids()[j]);
            }
            assert(self.wf());
        }
    }
}

impl WeakContext {
    /// The serial of the context this reference was taken from.
    pub closed spec fn serial_of(self) -> u64 {
        self.serial
    }

    /// Whether this reference resolves to `c`: it was taken from a
    /// context with `c`'s serial and `c` has not been destroyed.
    pub open spec fn resolves(self, c: Context) -> bool {
        c.live() && c.serial_spec() == self.serial_of()
    }

    /// Attempts to resolve this reference against `c`: the context comes
    /// back while it lives, absence after it has been destroyed.
    pub fn upgrade<'a>(&self, c: &'a Context) -> (r: Option<&'a Context>)
        ensures
            r is Some <==> self.resolves(*c),
            r is Some ==> r == Some(c),
    {
        if c.alive && c.serial == self.serial {
            Some(c)
        } else {
            None
        }
    }
}

/// Law: identities minted by one context are pairwise distinct and
/// strictly increase in the order they were issued.
pub proof fn lemma_issued_ids_strictly_increase(c: Context)
    requires
        c.wf(),
    ensures
        forall|i: int, j: int|
            0 <= i < j < c.issued_ids().len() ==> c.issued_ids()[i] < c.issued_ids()[j],
        forall|i: int, j: int|
            0 <= i < j < c.issued_ids().len() ==> c.issued_ids()[i] != c.issued_ids()[j],
{
}

/// Law: once a context has been destroyed, no weak reference resolves to
/// it, whichever context it was taken from.
pub proof fn lemma_destroyed_context_never_upgrades(c: Context, w: WeakContext)
    requires
        !c.live(),
    ensures
        !w.resolves(c),
{
}

} // verus!
