use dag_nodes::variants::{node_hash, nodes_equal, restore, snapshot};
use dag_nodes::CircuitInstruction;
use dag_nodes::DAGInNode;
use dag_nodes::DAGOpNode;
use dag_nodes::DAGOutNode;
use dag_nodes::Node;
use dag_nodes::OpData;
use dag_nodes::OpDescriptor;
use dag_nodes::OpKind;
use dag_nodes::Param;
use dag_nodes::Wire;

fn descriptor(kind: OpKind, name: &str, backing: u64) -> OpDescriptor {
    OpDescriptor {
        kind,
        name: name.to_string(),
        num_qubits: 2,
        num_clbits: 1,
        directive: false,
        control_flow: false,
        controlled: false,
        backing,
    }
}

fn sample_op_node(nid: i64) -> DAGOpNode {
    let mut n = DAGOpNode::py_new(
        OpData {
            operation: descriptor(OpKind::StandardGate, "rzz", 0),
            params: vec![Param::Float(0.5f64.to_bits()), Param::Obj(4)],
            label: Some("mark".to_string()),
            external: 0,
        },
        Some(vec![Wire { id: 1 }, Wire { id: 2 }]),
        Some(vec![Wire { id: 3 }]),
    )
    .unwrap();
    if nid >= 0 {
        n.base.set_py_node_id(nid);
    }
    n
}

fn trivially_close(len: usize) -> Vec<bool> {
    vec![true; len]
}

#[test]
fn snapshot_roundtrip_op_node() {
    for nid in [-1i64, 6] {
        let n = sample_op_node(nid);
        let restored = restore(snapshot(&Node::Op(n.clone())));
        let Node::Op(r) = restored else { panic!("variant changed in the round trip") };
        assert_eq!(r.base.py_nid(), nid);
        assert_eq!(r.get_name(), n.get_name());
        assert_eq!(r.get_op().kind, OpKind::StandardGate);
        assert_eq!(r.get_params(), n.get_params());
        assert_eq!(r.get_qargs(), n.get_qargs());
        assert_eq!(r.get_cargs(), n.get_cargs());
        assert_eq!(r.label(), n.label());
        assert_eq!(r.cached_representation(), None);
        assert!(r.is_equal(&n, &trivially_close(2)));
    }
}

#[test]
fn snapshot_roundtrip_boundary_nodes() {
    let incoming = DAGInNode::new(4, Wire { id: 9 });
    let Node::In(r) = restore(snapshot(&Node::In(incoming))) else {
        panic!("variant changed in the round trip")
    };
    assert_eq!(r, incoming);

    let detached = DAGOutNode::py_new(Wire { id: 9 });
    let Node::Out(r) = restore(snapshot(&Node::Out(detached))) else {
        panic!("variant changed in the round trip")
    };
    assert_eq!(r, detached);
    assert_eq!(r.base.py_nid(), -1);
}

#[test]
fn deep_duplication_is_independent() {
    let source = DAGOpNode::py_new(
        OpData {
            operation: descriptor(OpKind::Gate, "custom", 42),
            params: vec![Param::Obj(4)],
            label: None,
            external: 8,
        },
        Some(vec![Wire { id: 1 }]),
        None,
    )
    .unwrap();
    let copied: CircuitInstruction = source.to_circuit_instruction(false, 1);
    let mut dup = DAGOpNode::from_instruction(copied, true, 99);
    assert_eq!(dup.base.py_nid(), -1);
    assert_eq!(dup.get_op().backing, 99);
    assert_eq!(source.get_op().backing, 42);
    assert_eq!(dup.cached_representation(), None);
    // mutating the duplicate's descriptor leaves the source untouched
    dup.set_name("changed".to_string()).unwrap();
    assert_eq!(dup.get_name().as_str(), "changed");
    assert_eq!(source.get_name().as_str(), "custom");
}

#[test]
fn shallow_duplication_keeps_backing_and_cache() {
    let source = DAGOpNode::py_new(
        OpData {
            operation: descriptor(OpKind::Gate, "custom", 42),
            params: vec![],
            label: None,
            external: 8,
        },
        None,
        None,
    )
    .unwrap();
    assert_eq!(source.cached_representation(), Some(8));
    let copied = source.to_circuit_instruction(false, 1);
    // copying the payload out always starts with an empty cache
    assert_eq!(copied.cache, None);
    assert_eq!(copied.operation.backing, 42);
    let shallow = DAGOpNode::from_instruction(source.instruction.clone(), false, 1);
    assert_eq!(shallow.get_op().backing, 42);
    assert_eq!(shallow.cached_representation(), Some(8));
}

#[test]
fn boundary_equality_ignores_tag() {
    let wire = Wire { id: 5 };
    let input = DAGInNode::new(2, wire);
    let output = DAGOutNode::new(2, wire);
    assert!(input.is_equal(&input));
    assert!(nodes_equal(&Node::In(input), &Node::Out(output), &Vec::new()));
    assert!(nodes_equal(&Node::Out(output), &Node::In(input), &Vec::new()));
    assert_eq!(node_hash(&Node::In(input)), node_hash(&Node::Out(output)));
}

#[test]
fn boundary_equality_needs_index_and_wire() {
    let a = DAGInNode::new(2, Wire { id: 5 });
    let other_wire = DAGInNode::new(2, Wire { id: 6 });
    let other_index = DAGInNode::new(3, Wire { id: 5 });
    let detached = DAGInNode::py_new(Wire { id: 5 });
    assert!(!a.is_equal(&other_wire));
    assert!(!a.is_equal(&other_index));
    assert!(!a.is_equal(&detached));
}

#[test]
fn operation_and_boundary_nodes_never_compare_equal() {
    let op = sample_op_node(2);
    let boundary = DAGInNode::new(2, Wire { id: 1 });
    assert!(!nodes_equal(&Node::Op(op), &Node::In(boundary), &trivially_close(2)));
}

#[test]
fn equal_boundary_nodes_hash_equal() {
    for (nid, wire) in [(0u32, 1u64), (7, 0), (250, 9000)] {
        let a = DAGInNode::new(nid, Wire { id: wire });
        let b = DAGInNode::new(nid, Wire { id: wire });
        assert!(a.is_equal(&b));
        assert_eq!(a.hash(), b.hash());
    }
}
