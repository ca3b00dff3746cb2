use vstd::prelude::*;
use vstd::math::min;
use crate::instruction::{label_view, CircuitInstruction, InstructionView};
use crate::node::{DAGNode, NodeError};
use crate::operation::{kind_is_backed, OpData, OpDataView, OpDescriptor, OpKind};
use crate::params::{param_pair_eq, params_pairwise_eq, wires_equal, Param, Wire};

verus! {

/// The mathematical content of an operation node: its identity and its
/// payload.
#[verifier::ext_equal]
pub struct OpNodeView {
    pub base: DAGNode,
    pub instruction: InstructionView,
}

/// A node that represents one operation of the circuit: an identity plus an
/// instruction payload.
#[derive(Clone, Debug)]
pub struct DAGOpNode {
    pub base: DAGNode,
    pub instruction: CircuitInstruction,
}

impl View for DAGOpNode {
    type V = OpNodeView;

    open spec fn view(&self) -> OpNodeView {
        OpNodeView { base: self.base, instruction: self.instruction@ }
    }
}

/// The wire sequence an optional target tuple stands for: the empty tuple
/// when omitted.
pub open spec fn opt_wires_view(w: Option<Vec<Wire>>) -> Seq<Wire> {
    match w {
        Some(v) => v@,
        None => Seq::empty(),
    }
}

/// The node a fresh construction yields: detached, carrying the given
/// operation, targets, parameters and label; the cache starts out holding
/// the host-side value the operation was extracted from, when there is one.
pub open spec fn spec_new_node(op: OpDataView, qargs: Seq<Wire>, cargs: Seq<Wire>) -> OpNodeView {
    OpNodeView {
        base: DAGNode { node: None },
        instruction: InstructionView {
            operation: op.operation,
            qubits: qargs,
            clbits: cargs,
            params: op.params,
            label: op.label,
            cache: if op.external != 0 {
                Some(op.external)
            } else {
                None
            },
        },
    }
}

/// Equality of two operation nodes under the closeness verdicts `close`.
///
/// This equality is identity-biased by design: it replaces object identity
/// for container membership and is not a semantic-equivalence oracle. The
/// two identity indices must match exactly (detached matches only detached),
/// the descriptors must be equal, and the target tuples must be equal
/// element-wise. Parameters are re-examined pairwise — under the tolerant
/// verdicts — only for the fixed native gate representation; for every other
/// representation the descriptor equality already settles them.
///
/// Because the tolerant verdicts need not be transitive, this relation is
/// reflexive (under verdicts that accept equal values) and symmetric, but
/// deliberately not transitive: a known relaxation, not a defect.
pub open spec fn spec_op_nodes_eq(a: OpNodeView, b: OpNodeView, close: Seq<bool>) -> bool {
    &&& a.base.spec_nid() == b.base.spec_nid()
    &&& a.instruction.operation == b.instruction.operation
    &&& (a.instruction.operation.kind matches OpKind::StandardGate ==> params_pairwise_eq(
        a.instruction.params,
        b.instruction.params,
        close,
    ))
    &&& a.instruction.qubits == b.instruction.qubits
    &&& a.instruction.clbits == b.instruction.clbits
}

/// Whether a parameter list holds any symbolic expression.
pub open spec fn spec_is_parameterized(params: Seq<Param>) -> bool {
    exists|i: int| 0 <= i < params.len() && #[trigger] params[i].spec_is_expression()
}

/// What an instruction duplication yields: the instruction itself for a
/// plain copy; for a deep copy, the descriptor is rebuilt around a fresh
/// backing object and the materialized-representation cache is emptied, so
/// the copy shares no mutable state with its source.
pub open spec fn spec_duplicate_instruction(
    inst: InstructionView,
    deepcopy: bool,
    fresh_backing: u64,
) -> InstructionView {
    if deepcopy {
        InstructionView {
            operation: inst.operation.deep_copy(fresh_backing),
            qubits: inst.qubits,
            clbits: inst.clbits,
            params: inst.params,
            label: inst.label,
            cache: None,
        }
    } else {
        inst
    }
}

/// What replacing the operation yields: the descriptor, parameters and label
/// are refreshed from the new operation value, the targets and identity stay,
/// and the cache takes the new operation's host-side value, when it has one.
pub open spec fn spec_set_op(n: OpNodeView, op: OpDataView) -> OpNodeView {
    OpNodeView {
        base: n.base,
        instruction: InstructionView {
            operation: op.operation,
            qubits: n.instruction.qubits,
            clbits: n.instruction.clbits,
            params: op.params,
            label: op.label,
            cache: if op.external != 0 {
                Some(op.external)
            } else {
                None
            },
        },
    }
}

/// What a rename yields: the descriptor keeps everything but its name, and
/// the cache is emptied, since the materialized representation of the
/// operation is stale after any operation-mutating path.
pub open spec fn spec_set_name(n: OpNodeView, name: Seq<char>) -> OpNodeView {
    OpNodeView {
        base: n.base,
        instruction: InstructionView {
            operation: crate::operation::OpDescriptorView {
                kind: n.instruction.operation.kind,
                name,
                num_qubits: n.instruction.operation.num_qubits,
                num_clbits: n.instruction.operation.num_clbits,
                directive: n.instruction.operation.directive,
                control_flow: n.instruction.operation.control_flow,
                controlled: n.instruction.operation.controlled,
                backing: n.instruction.operation.backing,
            },
            qubits: n.instruction.qubits,
            clbits: n.instruction.clbits,
            params: n.instruction.params,
            label: n.instruction.label,
            cache: None,
        },
    }
}

impl OpDescriptor {
    /// Whether the descriptor has a recognized shape; see
    /// [`crate::operation::OpDescriptorView::wf`].
    pub fn check_wf(&self) -> (r: bool)
        ensures
            r == self@.wf(),
    {
        let backed = matches!(self.kind, OpKind::Gate | OpKind::Instruction | OpKind::Operation);
        (backed == (self.backing != 0)) && !self.name.as_str().is_empty()
    }
}

impl DAGOpNode {
    /// Builds a detached operation node from a raw operation value and
    /// optional target tuples; empty tuples default when omitted. A value
    /// whose descriptor shape is not recognized is rejected.
    pub fn py_new(op: OpData, qargs: Option<Vec<Wire>>, cargs: Option<Vec<Wire>>) -> (r: Result<
        DAGOpNode,
        NodeError,
    >)
        ensures
            op@.operation.wf() ==> (r matches Ok(n) && n@ == spec_new_node(
                op@,
                opt_wires_view(qargs),
                opt_wires_view(cargs),
            )),
            !op@.operation.wf() ==> r == Err::<DAGOpNode, NodeError>(NodeError::InvalidOperation),
    {
        if !op.operation.check_wf() {
            return Err(NodeError::InvalidOperation);
        }
        let qubits = match qargs {
            Some(q) => q,
            None => Vec::new(),
        };
        let clbits = match cargs {
            Some(c) => c,
            None => Vec::new(),
        };
        let cache = if op.external != 0 {
            Some(op.external)
        } else {
            None
        };
        let node = DAGOpNode {
            base: DAGNode { node: None },
            instruction: CircuitInstruction {
                operation: op.operation,
                qubits,
                clbits,
                params: op.params,
                label: op.label,
                cache,
            },
        };
        Ok(node)
    }

    /// Equality against another operation node, given the caller's verdicts
    /// on numeric parameter closeness, indexed by parameter position; see
    /// [`spec_op_nodes_eq`].
    pub fn is_equal(&self, other: &DAGOpNode, param_close: &Vec<bool>) -> (r: bool)
        requires
            param_close@.len() >= min(
                self@.instruction.params.len() as int,
                other@.instruction.params.len() as int,
            ),
        ensures
            r == spec_op_nodes_eq(self@, other@, param_close@),
    {
        if self.base.py_nid() != other.base.py_nid() {
            return false;
        }
        if !self.instruction.operation.eq_descriptor(&other.instruction.operation) {
            return false;
        }
        if matches!(self.instruction.operation.kind, OpKind::StandardGate) {
            let n = if self.instruction.params.len() < other.instruction.params.len() {
                self.instruction.params.len()
            } else {
                other.instruction.params.len()
            };
            let mut i: usize = 0;
            while i < n
                invariant
                    0 <= i <= n,
                    n == min(
                        self@.instruction.params.len() as int,
                        other@.instruction.params.len() as int,
                    ),
                    param_close@.len() >= n,
                    self@.base.spec_nid() == other@.base.spec_nid(),
                    self@.instruction.operation == other@.instruction.operation,
                    self@.instruction.operation.kind matches OpKind::StandardGate,
                    forall|j: int|
                        0 <= j < i ==> param_pair_eq(
                            self@.instruction.params[j],
                            other@.instruction.params[j],
                            param_close@[j],
                        ),
                decreases n - i,
            {
                let pa = self.instruction.params[i];
                let pb = other.instruction.params[i];
                let ok = match (pa, pb) {
                    (Param::Float(_), Param::Float(_)) => param_close[i],
                    (Param::ParameterExpression(x), Param::ParameterExpression(y)) => x == y,
                    (Param::Obj(x), Param::Obj(y)) => x == y,
                    _ => false,
                };
                if !ok {
                    proof {
                        assert(!param_pair_eq(
                            self@.instruction.params[i as int],
                            other@.instruction.params[i as int],
                            param_close@[i as int],
                        ));
                    }
                    return false;
                }
                i = i + 1;
            }
        }
        wires_equal(&self.instruction.qubits, &other.instruction.qubits) && wires_equal(
            &self.instruction.clbits,
            &other.instruction.clbits,
        )
    }

    /// The node's hash: the raw index value combined with the operation's
    /// name, and nothing else. This is deliberately coarser than the
    /// equality above — equal nodes necessarily share index and name, so the
    /// hash contract holds, while the hash stays cheap; see
    /// [`lemma_op_hash_consistency`]. The value is deterministic within one
    /// process only.
    pub fn hash(&self) -> u64 {
        crate::hashing::hash_index_and_bytes(
            self.base.py_nid(),
            self.instruction.operation.name.as_str().as_bytes(),
        )
    }

    /// Builds a detached node around an instruction; when `deepcopy` is
    /// asked, the payload is rebuilt so that it shares no mutable state with
    /// the source, with `fresh_backing` as the handle of the rebuilt backing
    /// object; see [`spec_duplicate_instruction`].
    pub fn from_instruction(instruction: CircuitInstruction, deepcopy: bool, fresh_backing: u64) -> (r:
        DAGOpNode)
        requires
            fresh_backing != 0,
        ensures
            r@.base == (DAGNode { node: None }),
            r@.instruction == spec_duplicate_instruction(instruction@, deepcopy, fresh_backing),
    {
        let instruction = if deepcopy {
            let inst = CircuitInstruction {
                operation: instruction.operation.deep_copy(fresh_backing),
                qubits: instruction.qubits,
                clbits: instruction.clbits,
                params: instruction.params,
                label: instruction.label,
                cache: None,
            };
            proof {
                assert(inst@ =~= spec_duplicate_instruction(inst@, false, fresh_backing));
            }
            inst
        } else {
            instruction
        };
        DAGOpNode { base: DAGNode { node: None }, instruction }
    }

    /// Copies the payload out of the node as a stand-alone instruction, with
    /// an empty cache; a deep copy shares no mutable state with the node.
    pub fn to_circuit_instruction(&self, deepcopy: bool, fresh_backing: u64) -> (r:
        CircuitInstruction)
        requires
            fresh_backing != 0,
        ensures
            r@ == spec_duplicate_instruction(self@.instruction, deepcopy, fresh_backing).with_cache(
                None,
            ),
    {
        let copied = self.instruction.duplicate();
        let operation = if deepcopy {
            self.instruction.operation.deep_copy(fresh_backing)
        } else {
            copied.operation
        };
        let r = CircuitInstruction {
            operation,
            qubits: copied.qubits,
            clbits: copied.clbits,
            params: copied.params,
            label: copied.label,
            cache: None,
        };
        proof {
            assert(r@ =~= spec_duplicate_instruction(self@.instruction, deepcopy, fresh_backing)
                .with_cache(None));
        }
        r
    }

    /// Replaces the operation from a raw operation value, refreshing the
    /// derived parameters and label and re-validating the shape; see
    /// [`spec_set_op`].
    pub fn set_op(&mut self, op: OpData) -> (r: Result<(), NodeError>)
        ensures
            op@.operation.wf() ==> (r matches Ok(_) && final(self)@ == spec_set_op(
                old(self)@,
                op@,
            )),
            !op@.operation.wf() ==> r == Err::<(), NodeError>(NodeError::InvalidOperation)
                && final(self)@ == old(self)@,
    {
        if !op.operation.check_wf() {
            return Err(NodeError::InvalidOperation);
        }
        self.instruction.operation = op.operation;
        self.instruction.params = op.params;
        self.instruction.label = op.label;
        self.instruction.cache = if op.external != 0 {
            Some(op.external)
        } else {
            None
        };
        proof {
            assert(self@ =~= spec_set_op(old(self)@, op@));
        }
        Ok(())
    }

    /// Renames the operation. The name lives on the descriptor, so the
    /// change goes through it, and the cached external representation is
    /// invalidated; an empty name is rejected, since the descriptor must
    /// keep a recognized shape. See [`spec_set_name`].
    pub fn set_name(&mut self, new_name: String) -> (r: Result<(), NodeError>)
        ensures
            new_name@.len() > 0 ==> (r matches Ok(_) && final(self)@ == spec_set_name(
                old(self)@,
                new_name@,
            )),
            new_name@.len() == 0 ==> r == Err::<(), NodeError>(NodeError::InvalidOperation)
                && final(self)@ == old(self)@,
    {
        if new_name.as_str().is_empty() {
            return Err(NodeError::InvalidOperation);
        }
        self.instruction.operation = OpDescriptor {
            kind: self.instruction.operation.kind,
            name: new_name,
            num_qubits: self.instruction.operation.num_qubits,
            num_clbits: self.instruction.operation.num_clbits,
            directive: self.instruction.operation.directive,
            control_flow: self.instruction.operation.control_flow,
            controlled: self.instruction.operation.controlled,
            backing: self.instruction.operation.backing,
        };
        self.instruction.cache = None;
        proof {
            assert(self@ =~= spec_set_name(old(self)@, self.instruction.operation.name@));
        }
        Ok(())
    }

    /// Replaces the quantum target tuple.
    pub fn set_qargs(&mut self, qargs: Vec<Wire>)
        ensures
            final(self)@ == (OpNodeView {
                base: old(self)@.base,
                instruction: old(self)@.instruction.with_qubits(qargs@),
            }),
    {
        self.instruction.qubits = qargs;
        proof {
            assert(self@ =~= (OpNodeView {
                base: old(self)@.base,
                instruction: old(self)@.instruction.with_qubits(self.instruction.qubits@),
            }));
        }
    }

    /// Replaces the classical target tuple.
    pub fn set_cargs(&mut self, cargs: Vec<Wire>)
        ensures
            final(self)@ == (OpNodeView {
                base: old(self)@.base,
                instruction: old(self)@.instruction.with_clbits(cargs@),
            }),
    {
        self.instruction.clbits = cargs;
        proof {
            assert(self@ =~= (OpNodeView {
                base: old(self)@.base,
                instruction: old(self)@.instruction.with_clbits(self.instruction.clbits@),
            }));
        }
    }

    /// Replaces the parameter list.
    pub fn set_params(&mut self, params: Vec<Param>)
        ensures
            final(self)@ == (OpNodeView {
                base: old(self)@.base,
                instruction: old(self)@.instruction.with_params(params@),
            }),
    {
        self.instruction.params = params;
        proof {
            assert(self@ =~= (OpNodeView {
                base: old(self)@.base,
                instruction: old(self)@.instruction.with_params(self.instruction.params@),
            }));
        }
    }

    /// Replaces the label.
    pub fn set_label(&mut self, label: Option<String>)
        ensures
            final(self)@ == (OpNodeView {
                base: old(self)@.base,
                instruction: old(self)@.instruction.with_label(label_view(label)),
            }),
    {
        self.instruction.label = label;
        proof {
            assert(self@ =~= (OpNodeView {
                base: old(self)@.base,
                instruction: old(self)@.instruction.with_label(label_view(self.instruction.label)),
            }));
        }
    }

    /// The operation descriptor.
    pub fn get_op(&self) -> (r: &OpDescriptor)
        ensures
            r@ == self@.instruction.operation,
    {
        &self.instruction.operation
    }

    /// How many qubits the operation acts on.
    pub fn num_qubits(&self) -> (r: u32)
        ensures
            r == self@.instruction.operation.num_qubits,
    {
        self.instruction.operation.num_qubits
    }

    /// How many clbits the operation acts on.
    pub fn num_clbits(&self) -> (r: u32)
        ensures
            r == self@.instruction.operation.num_clbits,
    {
        self.instruction.operation.num_clbits
    }

    /// The quantum target tuple.
    pub fn get_qargs(&self) -> (r: &Vec<Wire>)
        ensures
            r@ == self@.instruction.qubits,
    {
        &self.instruction.qubits
    }

    /// The classical target tuple.
    pub fn get_cargs(&self) -> (r: &Vec<Wire>)
        ensures
            r@ == self@.instruction.clbits,
    {
        &self.instruction.clbits
    }

    /// The operation's name.
    pub fn get_name(&self) -> (r: &String)
        ensures
            r@ == self@.instruction.operation.name,
    {
        &self.instruction.operation.name
    }

    /// The parameter list.
    pub fn get_params(&self) -> (r: &Vec<Param>)
        ensures
            r@ == self@.instruction.params,
    {
        &self.instruction.params
    }

    /// The label, if any.
    pub fn label(&self) -> (r: &Option<String>)
        ensures
            label_view(*r) == self@.instruction.label,
    {
        &self.instruction.label
    }

    /// The cached external representation of the operation, if one is
    /// materialized.
    pub fn cached_representation(&self) -> (r: Option<u64>)
        ensures
            r == self@.instruction.cache,
    {
        self.instruction.cache
    }

    /// Whether the operation is a fixed native gate.
    pub fn is_standard_gate(&self) -> (r: bool)
        ensures
            r == (self@.instruction.operation.kind matches OpKind::StandardGate),
    {
        matches!(self.instruction.operation.kind, OpKind::StandardGate)
    }

    /// Whether the operation is a controlled gate.
    pub fn is_controlled_gate(&self) -> (r: bool)
        ensures
            r == self@.instruction.operation.controlled,
    {
        self.instruction.operation.controlled
    }

    /// Whether the operation is a directive.
    pub fn is_directive(&self) -> (r: bool)
        ensures
            r == self@.instruction.operation.directive,
    {
        self.instruction.operation.directive
    }

    /// Whether the operation is a control-flow operation.
    pub fn is_control_flow(&self) -> (r: bool)
        ensures
            r == self@.instruction.operation.control_flow,
    {
        self.instruction.operation.control_flow
    }

    /// Whether any parameter is a symbolic expression.
    pub fn is_parameterized(&self) -> (r: bool)
        ensures
            r == spec_is_parameterized(self@.instruction.params),
    {
        let mut i: usize = 0;
        while i < self.instruction.params.len()
            invariant
                0 <= i <= self@.instruction.params.len(),
                forall|j: int|
                    0 <= j < i ==> !(#[trigger] self@.instruction.params[j].spec_is_expression()),
            decreases self@.instruction.params.len() - i,
        {
            if matches!(self.instruction.params[i], Param::ParameterExpression(_)) {
                proof {
                    assert(self@.instruction.params[i as int].spec_is_expression());
                }
                return true;
            }
            i = i + 1;
        }
        false
    }
}

/// Equality of operation nodes is reflexive, as long as the closeness
/// verdicts accept each numeric parameter against itself — which a relative
/// comparison does for every value that is equal to itself.
pub proof fn lemma_op_eq_reflexive(n: OpNodeView, close: Seq<bool>)
    requires
        forall|i: int|
            (0 <= i < n.instruction.params.len() && ((#[trigger] n.instruction.params[i]) matches
                Param::Float(_))) ==> close[i],
    ensures
        spec_op_nodes_eq(n, n, close),
{
    assert forall|i: int|
        0 <= i < min(
            n.instruction.params.len() as int,
            n.instruction.params.len() as int,
        ) implies param_pair_eq(n.instruction.params[i], n.instruction.params[i], close[i]) by {
        assert(0 <= i < n.instruction.params.len());
    }
}

/// Equality of operation nodes is symmetric under the same closeness
/// verdicts, since every pairing rule is symmetric in its two parameters.
pub proof fn lemma_op_eq_symmetric(a: OpNodeView, b: OpNodeView, close: Seq<bool>)
    ensures
        spec_op_nodes_eq(a, b, close) == spec_op_nodes_eq(b, a, close),
{
    if spec_op_nodes_eq(a, b, close) && (a.instruction.operation.kind matches OpKind::StandardGate) {
        assert forall|i: int|
            0 <= i < min(
                b.instruction.params.len() as int,
                a.instruction.params.len() as int,
            ) implies param_pair_eq(b.instruction.params[i], a.instruction.params[i], close[i]) by {
            assert(param_pair_eq(a.instruction.params[i], b.instruction.params[i], close[i]));
        }
    }
    if spec_op_nodes_eq(b, a, close) && (b.instruction.operation.kind matches OpKind::StandardGate) {
        assert forall|i: int|
            0 <= i < min(
                a.instruction.params.len() as int,
                b.instruction.params.len() as int,
            ) implies param_pair_eq(a.instruction.params[i], b.instruction.params[i], close[i]) by {
            assert(param_pair_eq(b.instruction.params[i], a.instruction.params[i], close[i]));
        }
    }
}

/// The provable fragment of transitivity: equality of operation nodes is
/// transitive wherever no tolerant numeric comparison is involved — that
/// is, when the first node's parameters hold no plain numeric value — and
/// the middle node's parameter list is no shorter than the outer pair's
/// shared positions. With tolerant verdicts in play transitivity genuinely
/// fails (two values can each be close to a third without being close to
/// each other): a known relaxation, documented at [`spec_op_nodes_eq`].
pub proof fn lemma_op_eq_transitive_without_floats(
    a: OpNodeView,
    b: OpNodeView,
    c: OpNodeView,
    close_ab: Seq<bool>,
    close_bc: Seq<bool>,
    close_ac: Seq<bool>,
)
    requires
        spec_op_nodes_eq(a, b, close_ab),
        spec_op_nodes_eq(b, c, close_bc),
        b.instruction.params.len() >= min(
            a.instruction.params.len() as int,
            c.instruction.params.len() as int,
        ),
        forall|i: int|
            0 <= i < a.instruction.params.len() ==> !((#[trigger] a.instruction.params[i]) matches
                Param::Float(_)),
    ensures
        spec_op_nodes_eq(a, c, close_ac),
{
    if (a.instruction.operation.kind matches OpKind::StandardGate) {
        assert forall|i: int|
            0 <= i < min(
                a.instruction.params.len() as int,
                c.instruction.params.len() as int,
            ) implies param_pair_eq(
            a.instruction.params[i],
            c.instruction.params[i],
            close_ac[i],
        ) by {
            assert(param_pair_eq(a.instruction.params[i], b.instruction.params[i], close_ab[i]));
            assert(param_pair_eq(b.instruction.params[i], c.instruction.params[i], close_bc[i]));
        }
    }
}

/// Deep-duplication independence: a deep duplicate built around a fresh
/// backing object keeps the source's whole content — identity aside, since
/// the duplicate comes out detached — while sharing no backing object with
/// it and starting with an empty cache. Mutating the duplicate's descriptor
/// can therefore never reach the source's.
pub proof fn lemma_deep_duplicate_independent(inst: InstructionView, fresh_backing: u64)
    requires
        kind_is_backed(inst.operation.kind) ==> fresh_backing != inst.operation.backing,
    ensures
        ({
            let dup = spec_duplicate_instruction(inst, true, fresh_backing);
            &&& dup.cache == None::<u64>
            &&& kind_is_backed(inst.operation.kind) ==> dup.operation.backing
                != inst.operation.backing
            &&& !kind_is_backed(inst.operation.kind) ==> dup.operation == inst.operation
            &&& dup.operation.kind == inst.operation.kind
            &&& dup.operation.name == inst.operation.name
            &&& dup.params == inst.params
            &&& dup.qubits == inst.qubits
            &&& dup.clbits == inst.clbits
            &&& dup.label == inst.label
        }),
{
    if !kind_is_backed(inst.operation.kind) {
        assert(spec_duplicate_instruction(inst, true, fresh_backing).operation =~= inst.operation);
    }
}

/// Hash consistency: any two operation nodes that are equal — under any
/// closeness verdicts — agree on the raw index value and on the operation's
/// name, which are exactly the fields the hash combines. Equal nodes
/// therefore hash equal, though the hash examines fewer fields than the
/// equality compares.
pub proof fn lemma_op_hash_consistency(a: OpNodeView, b: OpNodeView, close: Seq<bool>)
    requires
        spec_op_nodes_eq(a, b, close),
    ensures
        a.base.spec_nid() == b.base.spec_nid(),
        a.instruction.operation.name == b.instruction.operation.name,
{
}

} // verus!
