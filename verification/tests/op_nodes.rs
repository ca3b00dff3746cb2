use dag_nodes::DAGOpNode;
use dag_nodes::NodeError;
use dag_nodes::OpData;
use dag_nodes::OpDescriptor;
use dag_nodes::OpKind;
use dag_nodes::Param;
use dag_nodes::Wire;

fn descriptor(kind: OpKind, name: &str, backing: u64) -> OpDescriptor {
    OpDescriptor {
        kind,
        name: name.to_string(),
        num_qubits: 1,
        num_clbits: 0,
        directive: false,
        control_flow: false,
        controlled: false,
        backing,
    }
}

fn std_gate_data(name: &str, params: Vec<Param>) -> OpData {
    OpData { operation: descriptor(OpKind::StandardGate, name, 0), params, label: None, external: 0 }
}

fn wires(ids: &[u64]) -> Vec<Wire> {
    ids.iter().map(|&id| Wire { id }).collect()
}

fn float_param(x: f64) -> Param {
    Param::Float(x.to_bits())
}

fn close(a: f64, b: f64) -> bool {
    approx::RelativeEq::relative_eq(&a, &b, f64::EPSILON, 1e-10)
}

/// Per-position closeness verdicts for two nodes' parameter lists, the way a
/// host runtime computes them before asking for node equality.
fn verdicts(a: &DAGOpNode, b: &DAGOpNode) -> Vec<bool> {
    let pa = a.get_params();
    let pb = b.get_params();
    let n = pa.len().min(pb.len());
    let mut v = Vec::new();
    for i in 0..n {
        v.push(match (&pa[i], &pb[i]) {
            (Param::Float(x), Param::Float(y)) => close(f64::from_bits(*x), f64::from_bits(*y)),
            _ => false,
        });
    }
    v
}

fn equal(a: &DAGOpNode, b: &DAGOpNode) -> bool {
    a.is_equal(b, &verdicts(a, b))
}

#[test]
fn construction_is_detached() {
    let n = DAGOpNode::py_new(std_gate_data("h", vec![]), Some(wires(&[0])), None).unwrap();
    assert_eq!(n.base.node, None);
    assert_eq!(n.get_name().as_str(), "h");
    assert_eq!(n.get_qargs(), &wires(&[0]));
    assert_eq!(n.get_cargs(), &Vec::new());
    assert_eq!(n.cached_representation(), None);
}

#[test]
fn unrecognized_shapes_are_rejected() {
    // an empty name is not a recognized operation
    let r = DAGOpNode::py_new(std_gate_data("", vec![]), None, None);
    assert_eq!(r.err(), Some(NodeError::InvalidOperation));
    // a fixed native gate never carries a backing object
    let bad = OpData {
        operation: descriptor(OpKind::StandardGate, "x", 17),
        params: vec![],
        label: None,
        external: 0,
    };
    assert_eq!(DAGOpNode::py_new(bad, None, None).err(), Some(NodeError::InvalidOperation));
    // a wrapped gate must carry one
    let bad = OpData {
        operation: descriptor(OpKind::Gate, "g", 0),
        params: vec![],
        label: None,
        external: 0,
    };
    assert_eq!(DAGOpNode::py_new(bad, None, None).err(), Some(NodeError::InvalidOperation));
}

#[test]
fn tolerant_parameter_equality() {
    let a = DAGOpNode::py_new(std_gate_data("rz", vec![float_param(0.1)]), Some(wires(&[0])), None)
        .unwrap();
    let near = DAGOpNode::py_new(
        std_gate_data("rz", vec![float_param(0.1 + 1e-12)]),
        Some(wires(&[0])),
        None,
    )
    .unwrap();
    let far = DAGOpNode::py_new(
        std_gate_data("rz", vec![float_param(0.1001)]),
        Some(wires(&[0])),
        None,
    )
    .unwrap();
    let off_by_relative_1e8 = DAGOpNode::py_new(
        std_gate_data("rz", vec![float_param(0.1 * (1.0 + 1e-8))]),
        Some(wires(&[0])),
        None,
    )
    .unwrap();
    assert!(equal(&a, &near));
    assert!(!equal(&a, &far));
    assert!(!equal(&a, &off_by_relative_1e8));
}

#[test]
fn gate_pair_scenario() {
    let a = DAGOpNode::py_new(
        std_gate_data("rx", vec![float_param(0.5)]),
        Some(wires(&[1, 2])),
        Some(wires(&[7])),
    )
    .unwrap();
    let b = DAGOpNode::py_new(
        std_gate_data("rx", vec![float_param(0.5000000000001)]),
        Some(wires(&[1, 2])),
        Some(wires(&[7])),
    )
    .unwrap();
    assert!(equal(&a, &b));
    let mut c = DAGOpNode::py_new(
        std_gate_data("rx", vec![float_param(0.5000000000001)]),
        Some(wires(&[1, 2])),
        Some(wires(&[7])),
    )
    .unwrap();
    c.set_qargs(wires(&[1, 3]));
    assert!(!equal(&a, &c));
}

#[test]
fn expression_and_object_parameters() {
    let a = DAGOpNode::py_new(
        std_gate_data("rz", vec![Param::ParameterExpression(5)]),
        Some(wires(&[0])),
        None,
    )
    .unwrap();
    let same = DAGOpNode::py_new(
        std_gate_data("rz", vec![Param::ParameterExpression(5)]),
        Some(wires(&[0])),
        None,
    )
    .unwrap();
    let other = DAGOpNode::py_new(
        std_gate_data("rz", vec![Param::ParameterExpression(6)]),
        Some(wires(&[0])),
        None,
    )
    .unwrap();
    let mismatched = DAGOpNode::py_new(
        std_gate_data("rz", vec![float_param(5.0)]),
        Some(wires(&[0])),
        None,
    )
    .unwrap();
    assert!(equal(&a, &same));
    assert!(!equal(&a, &other));
    assert!(!equal(&a, &mismatched));
    let objs = DAGOpNode::py_new(
        std_gate_data("rz", vec![Param::Obj(9)]),
        Some(wires(&[0])),
        None,
    )
    .unwrap();
    let objs2 = DAGOpNode::py_new(
        std_gate_data("rz", vec![Param::Obj(9)]),
        Some(wires(&[0])),
        None,
    )
    .unwrap();
    assert!(equal(&objs, &objs2));
}

#[test]
fn non_native_parameters_settled_by_descriptor() {
    // for a wrapped gate the descriptor equality already settles parameters:
    // they are not re-examined, so differing stored lists do not matter
    let backed = |params: Vec<Param>| OpData {
        operation: descriptor(OpKind::Gate, "custom", 42),
        params,
        label: None,
        external: 0,
    };
    let a = DAGOpNode::py_new(backed(vec![float_param(0.1)]), Some(wires(&[0])), None).unwrap();
    let b = DAGOpNode::py_new(backed(vec![float_param(0.7)]), Some(wires(&[0])), None).unwrap();
    assert!(equal(&a, &b));
}

#[test]
fn identity_indices_must_match_exactly() {
    let a = DAGOpNode::py_new(std_gate_data("h", vec![]), Some(wires(&[0])), None).unwrap();
    let mut b = DAGOpNode::py_new(std_gate_data("h", vec![]), Some(wires(&[0])), None).unwrap();
    assert!(equal(&a, &b));
    b.base.set_py_node_id(4);
    assert!(!equal(&a, &b));
}

#[test]
fn equality_is_reflexive_and_symmetric() {
    let n = DAGOpNode::py_new(
        std_gate_data("rz", vec![float_param(1.25), Param::Obj(3)]),
        Some(wires(&[0])),
        None,
    )
    .unwrap();
    assert!(equal(&n, &n));
    let m = DAGOpNode::py_new(
        std_gate_data("rz", vec![float_param(1.25 + 1e-13), Param::Obj(3)]),
        Some(wires(&[0])),
        None,
    )
    .unwrap();
    assert_eq!(equal(&n, &m), equal(&m, &n));
    assert!(equal(&n, &m));
}

#[test]
fn equal_nodes_hash_equal() {
    let cases: Vec<(i64, &str, f64)> = vec![
        (-1, "h", 0.0),
        (0, "rz", 0.25),
        (3, "rx", 1.5),
        (250, "crz", -0.75),
        (65536, "u", 3.25),
    ];
    for (nid, name, x) in cases {
        let mut a = DAGOpNode::py_new(
            std_gate_data(name, vec![float_param(x)]),
            Some(wires(&[0])),
            None,
        )
        .unwrap();
        let mut b = DAGOpNode::py_new(
            std_gate_data(name, vec![float_param(x)]),
            Some(wires(&[0])),
            None,
        )
        .unwrap();
        a.base.set_py_node_id(nid);
        b.base.set_py_node_id(nid);
        assert!(equal(&a, &b));
        assert_eq!(a.hash(), b.hash());
    }
}

#[test]
fn parameterized_means_some_expression() {
    let plain = DAGOpNode::py_new(
        std_gate_data("rz", vec![float_param(0.5), Param::Obj(1)]),
        None,
        None,
    )
    .unwrap();
    assert!(!plain.is_parameterized());
    let symbolic = DAGOpNode::py_new(
        std_gate_data("rz", vec![float_param(0.5), Param::ParameterExpression(2)]),
        None,
        None,
    )
    .unwrap();
    assert!(symbolic.is_parameterized());
}

#[test]
fn descriptor_flags_pass_through() {
    let mut d = descriptor(OpKind::StandardGate, "cx", 0);
    d.controlled = true;
    let n = DAGOpNode::py_new(
        OpData { operation: d, params: vec![], label: None, external: 0 },
        None,
        None,
    )
    .unwrap();
    assert!(n.is_standard_gate());
    assert!(n.is_controlled_gate());
    assert!(!n.is_directive());
    assert!(!n.is_control_flow());
    assert_eq!(n.num_qubits(), 1);
    assert_eq!(n.num_clbits(), 0);
}

#[test]
fn mutators_replace_their_field() {
    let mut n = DAGOpNode::py_new(
        std_gate_data("rz", vec![float_param(0.5)]),
        Some(wires(&[0])),
        Some(wires(&[1])),
    )
    .unwrap();
    n.set_qargs(wires(&[5]));
    n.set_cargs(wires(&[6]));
    n.set_params(vec![Param::Obj(8)]);
    n.set_label(Some("tagged".to_string()));
    assert_eq!(n.get_qargs(), &wires(&[5]));
    assert_eq!(n.get_cargs(), &wires(&[6]));
    assert_eq!(n.get_params(), &vec![Param::Obj(8)]);
    assert_eq!(n.label(), &Some("tagged".to_string()));
}

#[test]
fn set_op_refreshes_derived_fields() {
    let mut n = DAGOpNode::py_new(std_gate_data("rz", vec![float_param(0.5)]), None, None)
        .unwrap();
    let replacement = OpData {
        operation: descriptor(OpKind::Gate, "custom", 11),
        params: vec![Param::Obj(2)],
        label: Some("renamed".to_string()),
        external: 33,
    };
    n.set_op(replacement).unwrap();
    assert_eq!(n.get_name().as_str(), "custom");
    assert_eq!(n.get_params(), &vec![Param::Obj(2)]);
    assert_eq!(n.label(), &Some("renamed".to_string()));
    assert_eq!(n.cached_representation(), Some(33));
    // and the shape is still validated on this path
    let bad = OpData {
        operation: descriptor(OpKind::StandardGate, "", 0),
        params: vec![],
        label: None,
        external: 0,
    };
    assert_eq!(n.set_op(bad).err(), Some(NodeError::InvalidOperation));
    assert_eq!(n.get_name().as_str(), "custom");
}

#[test]
fn rename_goes_through_descriptor_and_invalidates_cache() {
    let mut n = DAGOpNode::py_new(
        OpData {
            operation: descriptor(OpKind::Gate, "custom", 11),
            params: vec![],
            label: None,
            external: 33,
        },
        None,
        None,
    )
    .unwrap();
    assert_eq!(n.cached_representation(), Some(33));
    n.set_name("renamed".to_string()).unwrap();
    assert_eq!(n.get_name().as_str(), "renamed");
    assert_eq!(n.cached_representation(), None);
    assert_eq!(n.set_name(String::new()).err(), Some(NodeError::InvalidOperation));
    assert_eq!(n.get_name().as_str(), "renamed");
}
