//! The binder context-manager slot.
//!
//! A [`Context`] holds at most one manager node and the identity of the
//! caller that installed it. Only that identity may install a node again
//! after it was removed. Callers share a context behind one lock, which
//! `&mut self` stands for here.
use vstd::prelude::*;

use crate::error::{error_of, Error, KernelResult, EBUSY, EPERM};

verus! {

/// A reference to a binder node: the node's identifier, and whether the
/// reference keeps the node alive (strong) or must be resolved through the
/// context each time (weak).
#[derive(Clone, Copy, Debug, PartialEq, Eq, Structural)]
pub struct NodeRef {
    pub node: u64,
    pub strong: bool,
}

impl NodeRef {
    /// A new reference to the same node, strong or weak as asked.
    pub fn clone_ref(&self, strong: bool) -> (r: NodeRef)
        ensures
            r == (NodeRef { node: self.node, strong }),
    {
        NodeRef { node: self.node, strong }
    }
}

/// An error of the binder protocol.
#[derive(Clone, Copy, Debug, PartialEq, Eq, Structural)]
pub enum BinderError {
    /// The node asked for is gone.
    Dead,
    /// A kernel error.
    Kernel(Error),
}

impl BinderError {
    /// The error for a node that is gone.
    pub fn new_dead() -> (r: BinderError)
        ensures
            r == BinderError::Dead,
    {
        BinderError::Dead
    }
}

/// A result whose error is a [`BinderError`].
pub type BinderResult<T> = core::result::Result<T, BinderError>;

struct Manager {
    node: Option<NodeRef>,
    uid: Option<u32>,
}

/// The context-manager slot of one binder domain.
pub struct Context {
    manager: Manager,
}

/// The outcome of installing `node_ref` on behalf of `caller` in a slot that
/// holds `node` and remembers `uid`: the result, then the node and the
/// identity afterwards.
pub open spec fn set_spec(node: Option<NodeRef>, uid: Option<u32>, node_ref: NodeRef, caller: u32)
    -> (KernelResult<()>, Option<NodeRef>, Option<u32>)
{
    if node is Some {
        (Err(error_of(EBUSY)), node, uid)
    } else if uid is Some && uid->0 != caller {
        (Err(error_of(EPERM)), node, uid)
    } else {
        (Ok(()), Some(node_ref), Some(caller))
    }
}

/// What asking a slot that holds `node` for a reference returns.
pub open spec fn get_spec(node: Option<NodeRef>, strong: bool) -> BinderResult<NodeRef> {
    match node {
        None => Err(BinderError::Dead),
        Some(n) => Ok(NodeRef { node: n.node, strong }),
    }
}

/// What resolving `handle` through a slot that holds `node` returns: a
/// strong reference resolves by itself, a weak one only while the slot
/// holds its node.
pub open spec fn resolve_spec(node: Option<NodeRef>, handle: NodeRef) -> BinderResult<NodeRef> {
    if handle.strong {
        Ok(handle)
    } else {
        match node {
            Some(n) if n.node == handle.node => Ok(handle),
            _ => Err(BinderError::Dead),
        }
    }
}

impl Context {
    /// The node in the slot, if any.
    pub closed spec fn spec_node(&self) -> Option<NodeRef> {
        self.manager.node
    }

    /// The identity that installed a node last, if any did.
    pub closed spec fn spec_uid(&self) -> Option<u32> {
        self.manager.uid
    }

    /// An empty slot that no identity has used.
    pub fn new() -> (r: Context)
        ensures
            r.spec_node() is None,
            r.spec_uid() is None,
    {
        Context { manager: Manager { node: None, uid: None } }
    }

    /// Installs `node_ref` as the manager node on behalf of `caller_uid`.
    /// Fails with `EBUSY` where a node is installed, and with `EPERM` where
    /// another identity installed one before.
    pub fn set_manager_node(&mut self, node_ref: NodeRef, caller_uid: u32) -> (r: KernelResult<()>)
        ensures
            (r, final(self).spec_node(), final(self).spec_uid())
                == set_spec(old(self).spec_node(), old(self).spec_uid(), node_ref, caller_uid),
    {
        let manager = &mut self.manager;
        if manager.node.is_some() {
            return Err(Error(-EBUSY));
        }
        if let Some(uid) = manager.uid {
            if uid != caller_uid {
                return Err(Error(-EPERM));
            }
        }
        manager.node = Some(node_ref);
        manager.uid = Some(caller_uid);
        Ok(())
    }

    /// Removes the manager node, if any; the identity stays remembered.
    pub fn unset_manager_node(&mut self)
        ensures
            final(self).spec_node() is None,
            final(self).spec_uid() == old(self).spec_uid(),
    {
        self.manager.node = None;
    }

    /// Returns a new strong or weak reference to the manager node; fails
    /// with [`BinderError::Dead`] where none is installed.
    pub fn get_manager_node(&self, strong: bool) -> (r: BinderResult<NodeRef>)
        ensures
            r == get_spec(self.spec_node(), strong),
    {
        match &self.manager.node {
            None => Err(BinderError::new_dead()),
            Some(n) => Ok(n.clone_ref(strong)),
        }
    }

    /// Resolves a reference that [`Self::get_manager_node`] returned: a
    /// strong one always, a weak one only while its node is installed.
    pub fn resolve(&self, handle: &NodeRef) -> (r: BinderResult<NodeRef>)
        ensures
            r == resolve_spec(self.spec_node(), *handle),
    {
        if handle.strong {
            return Ok(*handle);
        }
        match &self.manager.node {
            Some(n) => {
                if n.node == handle.node {
                    Ok(*handle)
                } else {
                    Err(BinderError::new_dead())
                }
            },
            None => Err(BinderError::new_dead()),
        }
    }
}

/// The slot protocol: on a new slot `get` fails with `Dead`; once `owner`
/// installed a node and it was removed, another identity is refused with
/// `EPERM` while `owner` may install again; a strong reference taken while
/// the node was installed still resolves after the removal, and a weak one
/// then fails with `Dead`.
pub proof fn lemma_manager_slot_protocol(n: NodeRef, m: NodeRef, owner: u32, other: u32, strong: bool)
    requires
        owner != other,
    ensures
        get_spec(None, strong) == Err::<NodeRef, BinderError>(BinderError::Dead),
        ({
            let set1 = set_spec(None, None, n, owner);
            let strong_ref = get_spec(set1.1, true);
            let weak_ref = get_spec(set1.1, false);
            // after the removal the slot holds no node and remembers `owner`
            &&& set1.0 is Ok
            &&& set_spec(None, set1.2, m, other).0 == Err::<(), Error>(error_of(EPERM))
            &&& set_spec(None, set1.2, m, other).1 is None
            &&& set_spec(None, set1.2, m, owner).0 is Ok
            &&& set_spec(None, set1.2, m, owner).1 == Some(m)
            &&& strong_ref is Ok
            &&& resolve_spec(None, strong_ref->Ok_0) == strong_ref
            &&& weak_ref is Ok
            &&& resolve_spec(set1.1, weak_ref->Ok_0) == weak_ref
            &&& resolve_spec(None, weak_ref->Ok_0) == Err::<NodeRef, BinderError>(BinderError::Dead)
        }),
{
}

} // verus!
