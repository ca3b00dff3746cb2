use vstd::prelude::*;
use vstd::math::min;
use crate::boundary::{boundary_equal, spec_boundary_eq, DAGInNode, DAGOutNode};
use crate::instruction::{copy_label, label_view, CircuitInstruction, InstructionView};
use crate::node::DAGNode;
use crate::op_node::{lemma_op_eq_reflexive, lemma_op_eq_symmetric, spec_op_nodes_eq, DAGOpNode, OpNodeView};
use crate::operation::{OpDescriptor, OpDescriptorView};
use crate::params::{copy_params, copy_wires, Param, Wire};

verus! {

/// The mathematical content of a node, over the three variants.
#[verifier::ext_equal]
pub enum NodeView {
    Op(OpNodeView),
    In(DAGInNode),
    Out(DAGOutNode),
}

/// A graph vertex: one of the three node variants, as a closed tagged
/// union. The graph engine and containers dispatch on it; each variant's
/// own operations live on its type.
#[derive(Clone, Debug)]
pub enum Node {
    Op(DAGOpNode),
    In(DAGInNode),
    Out(DAGOutNode),
}

impl View for Node {
    type V = NodeView;

    open spec fn view(&self) -> NodeView {
        match self {
            Node::Op(n) => NodeView::Op(n@),
            Node::In(n) => NodeView::In(*n),
            Node::Out(n) => NodeView::Out(*n),
        }
    }
}

/// Variant-aware node equality under the closeness verdicts `close`: an
/// operation node is never equal to a boundary node, two operation nodes
/// compare as [`spec_op_nodes_eq`] says, and two boundary nodes compare by
/// index and wire alone — the input/output tag does not participate, so an
/// input and an output node with matching index and wire are equal; see
/// [`spec_boundary_eq`].
pub open spec fn spec_nodes_eq(a: NodeView, b: NodeView, close: Seq<bool>) -> bool {
    match (a, b) {
        (NodeView::Op(x), NodeView::Op(y)) => spec_op_nodes_eq(x, y, close),
        (NodeView::In(x), NodeView::In(y)) => spec_boundary_eq(x.base, x.wire, y.base, y.wire),
        (NodeView::In(x), NodeView::Out(y)) => spec_boundary_eq(x.base, x.wire, y.base, y.wire),
        (NodeView::Out(x), NodeView::In(y)) => spec_boundary_eq(x.base, x.wire, y.base, y.wire),
        (NodeView::Out(x), NodeView::Out(y)) => spec_boundary_eq(x.base, x.wire, y.base, y.wire),
        _ => false,
    }
}

/// The closeness-verdict length two nodes need: only a pair of operation
/// nodes consults the verdicts at all.
pub open spec fn close_len_ok(a: NodeView, b: NodeView, close: Seq<bool>) -> bool {
    match (a, b) {
        (NodeView::Op(x), NodeView::Op(y)) => close.len() >= min(
            x.instruction.params.len() as int,
            y.instruction.params.len() as int,
        ),
        _ => true,
    }
}

/// Compares two nodes of any variants; see [`spec_nodes_eq`].
pub fn nodes_equal(a: &Node, b: &Node, param_close: &Vec<bool>) -> (r: bool)
    requires
        close_len_ok(a@, b@, param_close@),
    ensures
        r == spec_nodes_eq(a@, b@, param_close@),
{
    match (a, b) {
        (Node::Op(x), Node::Op(y)) => x.is_equal(y, param_close),
        (Node::In(x), Node::In(y)) => boundary_equal(&x.base, &x.wire, &y.base, &y.wire),
        (Node::In(x), Node::Out(y)) => boundary_equal(&x.base, &x.wire, &y.base, &y.wire),
        (Node::Out(x), Node::In(y)) => boundary_equal(&x.base, &x.wire, &y.base, &y.wire),
        (Node::Out(x), Node::Out(y)) => boundary_equal(&x.base, &x.wire, &y.base, &y.wire),
        _ => false,
    }
}

/// The variant-appropriate hash of a node.
pub fn node_hash(n: &Node) -> u64 {
    match n {
        Node::Op(x) => x.hash(),
        Node::In(x) => x.hash(),
        Node::Out(x) => x.hash(),
    }
}

/// The mathematical content of a node's portable form.
#[verifier::ext_equal]
pub enum NodeSnapshotView {
    Op {
        operation: OpDescriptorView,
        params: Seq<Param>,
        label: Option<Seq<char>>,
        qargs: Seq<Wire>,
        cargs: Seq<Wire>,
        nid: int,
    },
    In { wire: Wire, nid: int },
    Out { wire: Wire, nid: int },
}

/// The portable form of a node: its variant tag, the payload its detached
/// constructor needs, and the raw index value (`-1` for a detached node).
/// The materialized-representation cache is transient and does not travel;
/// a restored node materializes it lazily again.
#[derive(Clone, Debug)]
pub enum NodeSnapshot {
    Op {
        operation: OpDescriptor,
        params: Vec<Param>,
        label: Option<String>,
        qargs: Vec<Wire>,
        cargs: Vec<Wire>,
        nid: i64,
    },
    In { wire: Wire, nid: i64 },
    Out { wire: Wire, nid: i64 },
}

impl View for NodeSnapshot {
    type V = NodeSnapshotView;

    open spec fn view(&self) -> NodeSnapshotView {
        match self {
            NodeSnapshot::Op { operation, params, label, qargs, cargs, nid } => NodeSnapshotView::Op {
                operation: operation@,
                params: params@,
                label: label_view(*label),
                qargs: qargs@,
                cargs: cargs@,
                nid: *nid as int,
            },
            NodeSnapshot::In { wire, nid } => NodeSnapshotView::In { wire: *wire, nid: *nid as int },
            NodeSnapshot::Out { wire, nid } => NodeSnapshotView::Out {
                wire: *wire,
                nid: *nid as int,
            },
        }
    }
}

/// The identity a raw index value denotes.
pub open spec fn spec_base_from_nid(nid: int) -> DAGNode {
    DAGNode {
        node: if nid == -1 {
            None
        } else {
            Some(nid as u32)
        },
    }
}

/// What taking a snapshot yields, for each variant.
pub open spec fn spec_snapshot(n: NodeView) -> NodeSnapshotView {
    match n {
        NodeView::Op(x) => NodeSnapshotView::Op {
            operation: x.instruction.operation,
            params: x.instruction.params,
            label: x.instruction.label,
            qargs: x.instruction.qubits,
            cargs: x.instruction.clbits,
            nid: x.base.spec_nid(),
        },
        NodeView::In(x) => NodeSnapshotView::In { wire: x.wire, nid: x.base.spec_nid() },
        NodeView::Out(x) => NodeSnapshotView::Out { wire: x.wire, nid: x.base.spec_nid() },
    }
}

/// What restoring a portable form yields: the detached constructor is
/// replayed on the recorded payload, and the raw index is then set directly,
/// bypassing graph attachment — the index is data here, not a live graph
/// reference, and is trusted as recorded.
pub open spec fn spec_restore(s: NodeSnapshotView) -> NodeView {
    match s {
        NodeSnapshotView::Op { operation, params, label, qargs, cargs, nid } => NodeView::Op(
            OpNodeView {
                base: spec_base_from_nid(nid),
                instruction: InstructionView {
                    operation,
                    qubits: qargs,
                    clbits: cargs,
                    params,
                    label,
                    cache: None,
                },
            },
        ),
        NodeSnapshotView::In { wire, nid } => NodeView::In(
            DAGInNode { base: spec_base_from_nid(nid), wire },
        ),
        NodeSnapshotView::Out { wire, nid } => NodeView::Out(
            DAGOutNode { base: spec_base_from_nid(nid), wire },
        ),
    }
}

/// Takes a node's portable form; see [`spec_snapshot`].
pub fn snapshot(n: &Node) -> (s: NodeSnapshot)
    ensures
        s@ == spec_snapshot(n@),
{
    match n {
        Node::Op(x) => {
            let s = NodeSnapshot::Op {
                operation: x.instruction.operation.duplicate(),
                params: copy_params(&x.instruction.params),
                label: copy_label(&x.instruction.label),
                qargs: copy_wires(&x.instruction.qubits),
                cargs: copy_wires(&x.instruction.clbits),
                nid: x.base.py_nid(),
            };
            proof {
                assert(s@ =~= spec_snapshot(n@));
            }
            s
        },
        Node::In(x) => NodeSnapshot::In { wire: x.wire, nid: x.base.py_nid() },
        Node::Out(x) => NodeSnapshot::Out { wire: x.wire, nid: x.base.py_nid() },
    }
}

/// The raw index value a portable form records.
pub open spec fn spec_snapshot_nid(s: NodeSnapshotView) -> int {
    match s {
        NodeSnapshotView::Op { nid, .. } => nid,
        NodeSnapshotView::In { nid, .. } => nid,
        NodeSnapshotView::Out { nid, .. } => nid,
    }
}

/// Rebuilds a node from its portable form; see [`spec_restore`]. The
/// recorded index must be the detached sentinel or lie in index range — the
/// only shape a snapshot taken from a real node can record.
pub fn restore(s: NodeSnapshot) -> (n: Node)
    requires
        -1 <= spec_snapshot_nid(s@) <= u32::MAX,
    ensures
        n@ == spec_restore(s@),
{
    match s {
        NodeSnapshot::Op { operation, params, label, qargs, cargs, nid } => {
            let node = Node::Op(
                DAGOpNode {
                    base: base_from_nid(nid),
                    instruction: CircuitInstruction {
                        operation,
                        qubits: qargs,
                        clbits: cargs,
                        params,
                        label,
                        cache: None,
                    },
                },
            );
            proof {
                assert(node@ =~= spec_restore(s@));
            }
            node
        },
        NodeSnapshot::In { wire, nid } => Node::In(DAGInNode { base: base_from_nid(nid), wire }),
        NodeSnapshot::Out { wire, nid } => Node::Out(DAGOutNode { base: base_from_nid(nid), wire }),
    }
}

/// Builds the identity a raw index value denotes.
fn base_from_nid(nid: i64) -> (r: DAGNode)
    requires
        -1 <= nid <= u32::MAX,
    ensures
        r == spec_base_from_nid(nid as int),
{
    DAGNode {
        node: if nid == -1 {
            None
        } else {
            Some(nid as u32)
        },
    }
}

/// A node with its transient cache emptied; every other part of its content
/// stands as it is.
pub open spec fn spec_strip_cache(n: NodeView) -> NodeView {
    match n {
        NodeView::Op(x) => NodeView::Op(
            OpNodeView { base: x.base, instruction: x.instruction.with_cache(None) },
        ),
        NodeView::In(x) => NodeView::In(x),
        NodeView::Out(x) => NodeView::Out(x),
    }
}

/// Snapshot round-trip: restoring a node's portable form reproduces the
/// node exactly, for every variant and for detached as well as attached
/// nodes — down to the one transient field, the materialized-representation
/// cache, which a snapshot deliberately leaves behind.
pub proof fn lemma_snapshot_roundtrip(n: NodeView)
    ensures
        spec_restore(spec_snapshot(n)) == spec_strip_cache(n),
{
    match n {
        NodeView::Op(x) => {
            assert(spec_base_from_nid(x.base.spec_nid()) == x.base);
            assert(spec_restore(spec_snapshot(n)) =~= spec_strip_cache(n));
        },
        NodeView::In(x) => {
            assert(spec_base_from_nid(x.base.spec_nid()) == x.base);
        },
        NodeView::Out(x) => {
            assert(spec_base_from_nid(x.base.spec_nid()) == x.base);
        },
    }
}

/// Snapshot round-trip under the library's own equality: the restored node
/// is equal to the original, under any closeness verdicts that accept each
/// numeric parameter against itself — the cache difference is invisible to
/// equality.
pub proof fn lemma_snapshot_roundtrip_equal(n: NodeView, close: Seq<bool>)
    requires
        n matches NodeView::Op(x) ==> forall|i: int|
            (0 <= i < x.instruction.params.len() && ((#[trigger] x.instruction.params[i]) matches
                Param::Float(_))) ==> close[i],
    ensures
        spec_nodes_eq(spec_restore(spec_snapshot(n)), n, close),
{
    lemma_snapshot_roundtrip(n);
    match n {
        NodeView::Op(x) => {
            lemma_op_eq_reflexive(x, close);
        },
        NodeView::In(_) => {
        },
        NodeView::Out(_) => {
        },
    }
}

/// Boundary-node cross-tag equality: an input node and an output node with
/// identical index and identical wire are equal — the tag does not
/// participate in the comparison. This pins down a recorded open design
/// question: the behavior is deliberate, not inherited by accident.
pub proof fn lemma_cross_tag_equality(a: DAGInNode, b: DAGOutNode, close: Seq<bool>)
    requires
        a.base.spec_nid() == b.base.spec_nid(),
        a.wire == b.wire,
    ensures
        spec_nodes_eq(NodeView::In(a), NodeView::Out(b), close),
{
}

/// Node equality is reflexive, under closeness verdicts that accept each
/// numeric parameter against itself.
pub proof fn lemma_nodes_eq_reflexive(n: NodeView, close: Seq<bool>)
    requires
        n matches NodeView::Op(x) ==> forall|i: int|
            (0 <= i < x.instruction.params.len() && ((#[trigger] x.instruction.params[i]) matches
                Param::Float(_))) ==> close[i],
    ensures
        spec_nodes_eq(n, n, close),
{
    match n {
        NodeView::Op(x) => {
            lemma_op_eq_reflexive(x, close);
        },
        NodeView::In(_) => {
        },
        NodeView::Out(_) => {
        },
    }
}

/// Node equality is symmetric under the same closeness verdicts.
pub proof fn lemma_nodes_eq_symmetric(a: NodeView, b: NodeView, close: Seq<bool>)
    ensures
        spec_nodes_eq(a, b, close) == spec_nodes_eq(b, a, close),
{
    match (a, b) {
        (NodeView::Op(x), NodeView::Op(y)) => {
            lemma_op_eq_symmetric(x, y, close);
        },
        _ => {
        },
    }
}

} // verus!
