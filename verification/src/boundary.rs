use vstd::prelude::*;
use crate::node::DAGNode;
use crate::params::Wire;

verus! {

/// Equality of boundary-node payloads: the identity indices match and the
/// wires are the same. The input/output tag deliberately does not
/// participate: two boundary nodes with the same index and wire are equal
/// whatever their roles. Whether the tag should ever participate is a
/// recorded open design question; until it is decided otherwise, the tag
/// stays out, and [`crate::variants::lemma_cross_tag_equality`] pins the
/// behavior down.
pub open spec fn spec_boundary_eq(a_base: DAGNode, a_wire: Wire, b_base: DAGNode, b_wire: Wire) -> bool {
    a_base.spec_nid() == b_base.spec_nid() && a_wire == b_wire
}

/// Compares two boundary payloads; see [`spec_boundary_eq`].
pub fn boundary_equal(a_base: &DAGNode, a_wire: &Wire, b_base: &DAGNode, b_wire: &Wire) -> (r:
    bool)
    ensures
        r == spec_boundary_eq(*a_base, *a_wire, *b_base, *b_wire),
{
    a_base.py_nid() == b_base.py_nid() && a_wire.id == b_wire.id
}

/// Equality of boundary-node payloads is transitive, whatever the tags: it
/// compares the raw index values and the wires, and both comparisons are
/// equalities.
pub proof fn lemma_boundary_eq_transitive(
    a_base: DAGNode,
    a_wire: Wire,
    b_base: DAGNode,
    b_wire: Wire,
    c_base: DAGNode,
    c_wire: Wire,
)
    requires
        spec_boundary_eq(a_base, a_wire, b_base, b_wire),
        spec_boundary_eq(b_base, b_wire, c_base, c_wire),
    ensures
        spec_boundary_eq(a_base, a_wire, c_base, c_wire),
{
}

/// A node that represents the incoming end of a wire: the source of the
/// wire's lifetime in the graph.
#[derive(Clone, Copy, Debug, PartialEq, Eq, Structural, Hash)]
pub struct DAGInNode {
    pub base: DAGNode,
    pub wire: Wire,
}

/// A node that represents the outgoing end of a wire: the sink of the
/// wire's lifetime in the graph.
#[derive(Clone, Copy, Debug, PartialEq, Eq, Structural, Hash)]
pub struct DAGOutNode {
    pub base: DAGNode,
    pub wire: Wire,
}

impl DAGInNode {
    /// Builds an already-attached input-boundary node; used by the graph
    /// engine during insertion, never by external callers.
    pub fn new(node: u32, wire: Wire) -> (r: DAGInNode)
        ensures
            r.base.node == Some(node),
            r.wire == wire,
    {
        DAGInNode { base: DAGNode { node: Some(node) }, wire }
    }

    /// Builds a detached input-boundary node around a wire.
    pub fn py_new(wire: Wire) -> (r: DAGInNode)
        ensures
            r.base.node == None::<u32>,
            r.wire == wire,
    {
        DAGInNode { base: DAGNode { node: None }, wire }
    }

    /// Equality against another input-boundary node; see
    /// [`spec_boundary_eq`].
    pub fn is_equal(&self, other: &DAGInNode) -> (r: bool)
        ensures
            r == spec_boundary_eq(self.base, self.wire, other.base, other.wire),
    {
        boundary_equal(&self.base, &self.wire, &other.base, &other.wire)
    }

    /// The node's hash: the raw index value combined with the wire's own
    /// hash, which for an opaque wire reference is its index. Equal boundary
    /// nodes agree on both, so equal nodes hash equal; the value is
    /// deterministic within one process only.
    pub fn hash(&self) -> u64 {
        crate::hashing::hash_index_and_id(self.base.py_nid(), self.wire.id)
    }
}

impl DAGOutNode {
    /// Builds an already-attached output-boundary node; used by the graph
    /// engine during insertion, never by external callers.
    pub fn new(node: u32, wire: Wire) -> (r: DAGOutNode)
        ensures
            r.base.node == Some(node),
            r.wire == wire,
    {
        DAGOutNode { base: DAGNode { node: Some(node) }, wire }
    }

    /// Builds a detached output-boundary node around a wire.
    pub fn py_new(wire: Wire) -> (r: DAGOutNode)
        ensures
            r.base.node == None::<u32>,
            r.wire == wire,
    {
        DAGOutNode { base: DAGNode { node: None }, wire }
    }

    /// Equality against another output-boundary node; see
    /// [`spec_boundary_eq`].
    pub fn is_equal(&self, other: &DAGOutNode) -> (r: bool)
        ensures
            r == spec_boundary_eq(self.base, self.wire, other.base, other.wire),
    {
        boundary_equal(&self.base, &self.wire, &other.base, &other.wire)
    }

    /// The node's hash, built exactly as [`DAGInNode::hash`] is.
    pub fn hash(&self) -> u64 {
        crate::hashing::hash_index_and_id(self.base.py_nid(), self.wire.id)
    }
}

} // verus!
