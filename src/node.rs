//! Wrapper of a remote participant's handle.
use vstd::prelude::*;
use crate::native::{Call, CallModel, Native};

verus! {

/// A remote participant. The wrapper is either owned, and then releases its
/// reference when disposed, or borrowed, and then never releases it. Which
/// one is fixed at construction.
#[derive(Debug)]
pub struct Node {
    handle: u64,
    owned: bool,
}

/// How many times `d` releases node `h`.
pub open spec fn node_releases(d: Seq<CallModel>, h: u64) -> nat
    decreases d.len(),
{
    if d.len() == 0 {
        0
    } else {
        node_releases(d.drop_last(), h) + if d.last() == (CallModel::NodeRelease { node: h }) {
            1nat
        } else {
            0nat
        }
    }
}

impl Node {
    /// The native handle.
    pub closed spec fn spec_handle(&self) -> u64 {
        self.handle
    }

    /// Whether disposing of the wrapper releases the handle.
    pub closed spec fn spec_owned(&self) -> bool {
        self.owned
    }

    /// What disposing of the wrapper invokes: one release if owned, nothing otherwise.
    pub open spec fn disposal(&self) -> Seq<CallModel> {
        if self.spec_owned() {
            seq![CallModel::NodeRelease { node: self.spec_handle() }]
        } else {
            seq![]
        }
    }

    /// Takes ownership of a reference to a node.
    pub fn from_handle(handle: u64) -> (r: Node)
        ensures
            r.spec_handle() == handle,
            r.spec_owned(),
    {
        Node { handle, owned: true }
    }

    /// Observes a node the engine manages, without taking a reference.
    pub fn from_handle_unowned(handle: u64) -> (r: Node)
        ensures
            r.spec_handle() == handle,
            !r.spec_owned(),
    {
        Node { handle, owned: false }
    }

    /// The native handle.
    pub fn handle(&self) -> (r: u64)
        ensures
            r == self.spec_handle(),
    {
        self.handle
    }

    /// Whether disposing of the wrapper releases the handle.
    pub fn is_owned(&self) -> (r: bool)
        ensures
            r == self.spec_owned(),
    {
        self.owned
    }

    /// The node's identifier.
    pub fn id<E: Native>(&self, e: &mut E) -> (r: u32)
        ensures
            final(e).calls() == old(e).calls().push(
                Call::NodeGetId { node: self.spec_handle(), result: r },
            ),
    {
        e.node_get_id(self.handle)
    }

    /// Adds a reference to the node. It is not tied to the wrapper: the
    /// caller owes a matching [`Node::release`].
    pub fn retain<E: Native>(&self, e: &mut E)
        ensures
            final(e).calls() == old(e).calls().push(Call::NodeRetain { node: self.spec_handle() }),
    {
        e.node_retain(self.handle)
    }

    /// Drops a reference to the node, independently of disposal.
    pub fn release<E: Native>(&self, e: &mut E)
        ensures
            final(e).calls() == old(e).calls().push(Call::NodeRelease { node: self.spec_handle() }),
    {
        e.node_release(self.handle)
    }

    /// Ends the wrapper's life: releases the reference if owned, and does
    /// nothing if borrowed. The wrapper is consumed, so this happens once.
    pub fn dispose<E: Native>(self, e: &mut E)
        ensures
            final(e).calls() == old(e).calls() + self.disposal(),
    {
        if self.owned {
            e.node_release(self.handle);
        } else {
            assert(old(e).calls() + self.disposal() =~= old(e).calls());
        }
    }
}

/// Disposing of an owned node releases its reference exactly once; disposing
/// of a borrowed node releases nothing.
pub proof fn node_disposal_releases(n: Node)
    ensures
        node_releases(n.disposal(), n.spec_handle()) == if n.spec_owned() {
            1nat
        } else {
            0nat
        },
{
    let d = n.disposal();
    if n.spec_owned() {
        assert(d.drop_last() =~= Seq::<CallModel>::empty());
    }
    assert(node_releases(Seq::<CallModel>::empty(), n.spec_handle()) == 0);
}

} // verus!
