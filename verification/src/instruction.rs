use vstd::prelude::*;
use crate::operation::{OpDescriptor, OpDescriptorView};
use crate::params::{copy_params, copy_wires, Param, Wire};

verus! {

/// The mathematical content of an operation node's payload.
#[verifier::ext_equal]
pub struct InstructionView {
    pub operation: OpDescriptorView,
    pub qubits: Seq<Wire>,
    pub clbits: Seq<Wire>,
    pub params: Seq<Param>,
    pub label: Option<Seq<char>>,
    pub cache: Option<u64>,
}

impl InstructionView {
    /// The recognized instruction shapes: exactly those whose descriptor is
    /// well formed.
    pub open spec fn wf(&self) -> bool {
        self.operation.wf()
    }

    /// The same payload with another materialized-representation cache.
    pub open spec fn with_cache(&self, cache: Option<u64>) -> InstructionView {
        InstructionView {
            operation: self.operation,
            qubits: self.qubits,
            clbits: self.clbits,
            params: self.params,
            label: self.label,
            cache,
        }
    }

    /// The same payload with another quantum target tuple.
    pub open spec fn with_qubits(&self, qubits: Seq<Wire>) -> InstructionView {
        InstructionView {
            operation: self.operation,
            qubits,
            clbits: self.clbits,
            params: self.params,
            label: self.label,
            cache: self.cache,
        }
    }

    /// The same payload with another classical target tuple.
    pub open spec fn with_clbits(&self, clbits: Seq<Wire>) -> InstructionView {
        InstructionView {
            operation: self.operation,
            qubits: self.qubits,
            clbits,
            params: self.params,
            label: self.label,
            cache: self.cache,
        }
    }

    /// The same payload with another parameter list.
    pub open spec fn with_params(&self, params: Seq<Param>) -> InstructionView {
        InstructionView {
            operation: self.operation,
            qubits: self.qubits,
            clbits: self.clbits,
            params,
            label: self.label,
            cache: self.cache,
        }
    }

    /// The same payload with another label.
    pub open spec fn with_label(&self, label: Option<Seq<char>>) -> InstructionView {
        InstructionView {
            operation: self.operation,
            qubits: self.qubits,
            clbits: self.clbits,
            params: self.params,
            label,
            cache: self.cache,
        }
    }
}

/// The view of an optional label.
pub open spec fn label_view(label: Option<String>) -> Option<Seq<char>> {
    match label {
        Some(s) => Some(s@),
        None => None,
    }
}

/// Copies an optional label.
pub fn copy_label(label: &Option<String>) -> (r: Option<String>)
    ensures
        label_view(r) == label_view(*label),
{
    match label {
        Some(s) => Some(s.clone()),
        None => None,
    }
}

/// The payload of an operation node: the operation descriptor, its quantum
/// and classical target wires (two independent ordered tuples), its
/// parameter list, an optional label, and the lazily materialized cache of
/// the operation's external representation.
///
/// The node owns this envelope exclusively; the wires and any backing object
/// of the descriptor are non-owning references into caller-owned tables.
#[derive(Clone, Debug)]
pub struct CircuitInstruction {
    pub operation: OpDescriptor,
    pub qubits: Vec<Wire>,
    pub clbits: Vec<Wire>,
    pub params: Vec<Param>,
    pub label: Option<String>,
    /// Handle of a materialized external representation of the operation,
    /// `None` until one is materialized; reset to `None` on any deep copy so
    /// it is lazily rebuilt instead of aliasing the source's.
    pub cache: Option<u64>,
}

impl View for CircuitInstruction {
    type V = InstructionView;

    open spec fn view(&self) -> InstructionView {
        InstructionView {
            operation: self.operation@,
            qubits: self.qubits@,
            clbits: self.clbits@,
            params: self.params@,
            label: label_view(self.label),
            cache: self.cache,
        }
    }
}

impl CircuitInstruction {
    /// A plain copy of the whole envelope, identical in content.
    pub fn duplicate(&self) -> (r: CircuitInstruction)
        ensures
            r@ == self@,
    {
        let r = CircuitInstruction {
            operation: self.operation.duplicate(),
            qubits: copy_wires(&self.qubits),
            clbits: copy_wires(&self.clbits),
            params: copy_params(&self.params),
            label: copy_label(&self.label),
            cache: self.cache,
        };
        proof {
            assert(r@ =~= self@);
        }
        r
    }
}

} // verus!
