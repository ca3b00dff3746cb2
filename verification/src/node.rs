use vstd::prelude::*;

verus! {

/// Errors surfaced at the construction and mutation boundary.
#[derive(Clone, Copy, Debug, PartialEq, Eq, Structural)]
pub enum NodeError {
    /// A raw node index was neither the detached sentinel nor a valid index.
    InvalidIndex,
    /// An operation value did not have a recognized, well-formed shape.
    InvalidOperation,
}

/// The identity every node variant embeds: an optional position in the graph.
///
/// A node is *detached* (`node == None`) until the graph engine inserts it and
/// assigns an index. The raw form of the identity is a signed value where `-1`
/// is the detached sentinel and any non-negative value up to `u32::MAX` is an
/// index; indices are 32 bits wide, as in a compact graph representation.
#[derive(Clone, Copy, Debug, PartialEq, Eq, Structural, Hash)]
pub struct DAGNode {
    pub node: Option<u32>,
}

impl DAGNode {
    /// The raw index value: the index itself, or `-1` when detached.
    pub open spec fn spec_nid(&self) -> int {
        match self.node {
            Some(i) => i as int,
            None => -1,
        }
    }

    /// The raw index value; the detached sentinel numerically precedes every
    /// valid index.
    pub fn py_nid(&self) -> (r: i64)
        ensures
            r == self.spec_nid(),
    {
        match self.node {
            Some(i) => i as i64,
            None => -1,
        }
    }

    /// Builds an identity from a raw value: `-1` means detached, a
    /// non-negative value in index range means attached at that index, and
    /// everything else is rejected.
    pub fn py_new(nid: i64) -> (r: Result<DAGNode, NodeError>)
        ensures
            nid == -1 ==> r == Ok::<DAGNode, NodeError>(DAGNode { node: None }),
            0 <= nid <= u32::MAX ==> r == Ok::<DAGNode, NodeError>(
                DAGNode { node: Some(nid as u32) },
            ),
            !(-1 <= nid <= u32::MAX) ==> r == Err::<DAGNode, NodeError>(NodeError::InvalidIndex),
    {
        if nid == -1 {
            Ok(DAGNode { node: None })
        } else if 0 <= nid && nid <= u32::MAX as i64 {
            Ok(DAGNode { node: Some(nid as u32) })
        } else {
            Err(NodeError::InvalidIndex)
        }
    }

    /// The raw index value, as exposed to callers.
    pub fn get_py_node_id(&self) -> (r: i64)
        ensures
            r == self.spec_nid(),
    {
        self.py_nid()
    }

    /// Sets the identity from a raw value: `-1` detaches, a non-negative
    /// value attaches at that index.
    pub fn set_py_node_id(&mut self, nid: i64)
        requires
            -1 <= nid <= u32::MAX,
        ensures
            nid == -1 ==> final(self).node == None::<u32>,
            nid >= 0 ==> final(self).node == Some(nid as u32),
    {
        self.node = if nid == -1 {
            None
        } else {
            Some(nid as u32)
        };
    }

    /// The identity's portable state: the index, or `None` when detached.
    pub fn get_state(&self) -> (r: Option<u32>)
        ensures
            r == self.node,
    {
        self.node
    }

    /// Restores the identity from its portable state, bypassing any graph
    /// attachment logic: the index is taken as given.
    pub fn set_state(&mut self, index: Option<u32>)
        ensures
            final(self).node == index,
    {
        self.node = index;
    }

    /// Ordering on the raw index value alone, for deterministic container
    /// ordering: a detached identity precedes every attached one.
    pub fn lt(&self, other: &DAGNode) -> (r: bool)
        ensures
            r == (self.spec_nid() < other.spec_nid()),
    {
        self.py_nid() < other.py_nid()
    }

    /// Ordering on the raw index value alone; see [`DAGNode::lt`].
    pub fn gt(&self, other: &DAGNode) -> (r: bool)
        ensures
            r == (self.spec_nid() > other.spec_nid()),
    {
        self.py_nid() > other.py_nid()
    }

    /// Hash of the bare identity: the raw index value itself.
    pub fn id_hash(&self) -> (r: i64)
        ensures
            r == self.spec_nid(),
    {
        self.py_nid()
    }
}

} // verus!
