use vstd::prelude::*;
use crate::params::Param;

verus! {

/// The closed set of representations an operation descriptor can take.
///
/// `StandardGate` and `StandardInstruction` are fixed, native
/// representations from the system's own catalog; `Gate`, `Instruction` and
/// `Operation` wrap an externally owned, opaque object; `Unitary` carries a
/// raw unitary matrix owned by the descriptor itself.
#[derive(Clone, Copy, Debug, PartialEq, Eq, Structural, Hash)]
pub enum OpKind {
    StandardGate,
    StandardInstruction,
    Gate,
    Instruction,
    Operation,
    Unitary,
}

/// Whether a representation wraps an externally owned backing object.
pub open spec fn kind_is_backed(kind: OpKind) -> bool {
    kind matches OpKind::Gate || kind matches OpKind::Instruction || kind
        matches OpKind::Operation
}

/// The mathematical content of an operation descriptor.
#[verifier::ext_equal]
pub struct OpDescriptorView {
    pub kind: OpKind,
    pub name: Seq<char>,
    pub num_qubits: u32,
    pub num_clbits: u32,
    pub directive: bool,
    pub control_flow: bool,
    pub controlled: bool,
    pub backing: u64,
}

impl OpDescriptorView {
    /// The recognized descriptor shapes: a backing object exactly for the
    /// externally backed kinds, and a non-empty name.
    pub open spec fn wf(&self) -> bool {
        &&& (kind_is_backed(self.kind) <==> self.backing != 0)
        &&& self.name.len() > 0
    }

    /// What a deep copy of a descriptor is: identical content, except that a
    /// backed descriptor is rebuilt around a fresh backing object, so that
    /// the copy shares no mutable state with its source. Self-contained
    /// kinds are plain values and are copied as they stand.
    pub open spec fn deep_copy(&self, fresh_backing: u64) -> OpDescriptorView {
        OpDescriptorView {
            kind: self.kind,
            name: self.name,
            num_qubits: self.num_qubits,
            num_clbits: self.num_clbits,
            directive: self.directive,
            control_flow: self.control_flow,
            controlled: self.controlled,
            backing: if kind_is_backed(self.kind) {
                fresh_backing
            } else {
                self.backing
            },
        }
    }
}

/// What an operation node knows of "what this node does": the representation
/// kind, the operation's name, its wire counts, a few capability flags the
/// descriptor system derives from the operation, and — for the kinds that
/// wrap an external object — a handle to that backing object.
///
/// Backing handles index the caller's object table; handle `0` means "no
/// backing object". Two backed descriptors wrap the same operation exactly
/// when their handles are equal: descriptor equality delegates sameness of
/// the opaque external object to the identity of its handle.
#[derive(Clone, Debug)]
pub struct OpDescriptor {
    pub kind: OpKind,
    pub name: String,
    pub num_qubits: u32,
    pub num_clbits: u32,
    /// Whether the operation is a directive rather than a proper operation.
    pub directive: bool,
    /// Whether the operation is a control-flow operation.
    pub control_flow: bool,
    /// Whether the operation is a controlled gate.
    pub controlled: bool,
    /// Handle of the externally owned backing object, `0` when none.
    pub backing: u64,
}

impl View for OpDescriptor {
    type V = OpDescriptorView;

    open spec fn view(&self) -> OpDescriptorView {
        OpDescriptorView {
            kind: self.kind,
            name: self.name@,
            num_qubits: self.num_qubits,
            num_clbits: self.num_clbits,
            directive: self.directive,
            control_flow: self.control_flow,
            controlled: self.controlled,
            backing: self.backing,
        }
    }
}

impl OpDescriptor {
    /// Descriptor-level equality: the representations, names, wire counts,
    /// flags and backing objects all agree.
    pub fn eq_descriptor(&self, other: &OpDescriptor) -> (r: bool)
        ensures
            r == (self@ == other@),
    {
        let r = self.kind == other.kind && self.name == other.name && self.num_qubits
            == other.num_qubits && self.num_clbits == other.num_clbits && self.directive
            == other.directive && self.control_flow == other.control_flow && self.controlled
            == other.controlled && self.backing == other.backing;
        proof {
            if r {
                assert(self@ =~= other@);
            }
        }
        r
    }

    /// A plain copy: an identical descriptor, sharing the same backing
    /// object when there is one.
    pub fn duplicate(&self) -> (r: OpDescriptor)
        ensures
            r@ == self@,
    {
        OpDescriptor {
            kind: self.kind,
            name: self.name.clone(),
            num_qubits: self.num_qubits,
            num_clbits: self.num_clbits,
            directive: self.directive,
            control_flow: self.control_flow,
            controlled: self.controlled,
            backing: self.backing,
        }
    }

    /// Deep-copies the descriptor according to its kind-specific rule;
    /// `fresh_backing` is the handle of the newly rebuilt backing object for
    /// the externally backed kinds.
    pub fn deep_copy(&self, fresh_backing: u64) -> (r: OpDescriptor)
        requires
            fresh_backing != 0,
        ensures
            r@ == self@.deep_copy(fresh_backing),
            self@.wf() ==> r@.wf(),
    {
        OpDescriptor {
            kind: self.kind,
            name: self.name.clone(),
            num_qubits: self.num_qubits,
            num_clbits: self.num_clbits,
            directive: self.directive,
            control_flow: self.control_flow,
            controlled: self.controlled,
            backing: if matches!(self.kind, OpKind::Gate | OpKind::Instruction | OpKind::Operation) {
                fresh_backing
            } else {
                self.backing
            },
        }
    }
}

/// The mathematical content of a raw operation value.
#[verifier::ext_equal]
pub struct OpDataView {
    pub operation: OpDescriptorView,
    pub params: Seq<Param>,
    pub label: Option<Seq<char>>,
    pub external: u64,
}

/// A raw operation value, as handed in by a caller: the descriptor it
/// carries, the parameter list and label derived from it, and the handle of
/// the host-side value it was extracted from (`0` when it was built
/// natively). Construction and mutation paths validate the descriptor's
/// shape before accepting it.
#[derive(Clone, Debug)]
pub struct OpData {
    pub operation: OpDescriptor,
    pub params: Vec<Param>,
    pub label: Option<String>,
    pub external: u64,
}

impl View for OpData {
    type V = OpDataView;

    open spec fn view(&self) -> OpDataView {
        OpDataView {
            operation: self.operation@,
            params: self.params@,
            label: match self.label {
                Some(s) => Some(s@),
                None => None,
            },
            external: self.external,
        }
    }
}

} // verus!
