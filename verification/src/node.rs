//! Node identity and the capability contracts a concrete node type must
//! satisfy to participate in the view tree.

use vstd::prelude::*;

verus! {

/// An opaque identity for a node, minted by a `Context`. It names a node
/// without granting ownership; a context never reuses one while it lives.
#[derive(Clone, Copy, Debug, PartialEq, Eq, Hash, Structural)]
pub struct NodeId {
    pub raw: u64,
}

/// An opaque native platform resource backing a node (a window or view
/// handle). The platform handle provider issues it; this core models the
/// provider by naming each handle after the identity it was minted with.
#[derive(Clone, Copy, Debug, PartialEq, Eq, Hash, Structural)]
pub struct NodeHandle {
    pub raw: u64,
}

/// The capability every tree participant exposes: its identity.
pub trait Node {
    /// The identity this node was created with.
    spec fn id_spec(&self) -> NodeId;

    /// Returns the node's identity.
    fn id(&self) -> (r: NodeId)
        ensures
            r == self.id_spec(),
    ;
}

/// The capability every native-backed node exposes: its platform handle.
pub trait PlatformNode {
    /// The handle this node's native resource was allocated under.
    spec fn handle_spec(&self) -> NodeHandle;

    /// Returns the node's native handle.
    fn handle(&self) -> (r: NodeHandle)
        ensures
            r == self.handle_spec(),
    ;
}

} // verus!
