use dag_nodes::DAGNode;
use dag_nodes::NodeError;

#[test]
fn detached_construction() {
    let n = DAGNode::py_new(-1).unwrap();
    assert_eq!(n.node, None);
    assert_eq!(n.py_nid(), -1);
    assert_eq!(n.get_py_node_id(), -1);
}

#[test]
fn attached_construction() {
    let n = DAGNode::py_new(7).unwrap();
    assert_eq!(n.node, Some(7));
    assert_eq!(n.py_nid(), 7);
}

#[test]
fn invalid_raw_index_is_rejected() {
    assert_eq!(DAGNode::py_new(-2), Err(NodeError::InvalidIndex));
    assert_eq!(DAGNode::py_new(-100), Err(NodeError::InvalidIndex));
    assert_eq!(DAGNode::py_new(i64::from(u32::MAX) + 1), Err(NodeError::InvalidIndex));
}

#[test]
fn attach_and_detach() {
    let mut n = DAGNode::py_new(-1).unwrap();
    assert_eq!(n.node, None);
    n.set_py_node_id(5);
    assert_eq!(n.node, Some(5));
    assert_eq!(n.py_nid(), 5);
    n.set_py_node_id(-1);
    assert_eq!(n.node, None);
}

#[test]
fn ordering_by_raw_index() {
    let detached = DAGNode { node: None };
    let low = DAGNode { node: Some(0) };
    let high = DAGNode { node: Some(9) };
    assert!(detached.lt(&low));
    assert!(low.lt(&high));
    assert!(high.gt(&detached));
    assert!(!low.lt(&low));
    assert!(!low.gt(&low));
}

#[test]
fn identity_state_roundtrip() {
    let mut n = DAGNode { node: Some(3) };
    let state = n.get_state();
    assert_eq!(state, Some(3));
    n.set_state(None);
    assert_eq!(n.node, None);
    n.set_state(state);
    assert_eq!(n.node, Some(3));
}

#[test]
fn identity_hash_is_raw_index() {
    assert_eq!(DAGNode { node: Some(12) }.id_hash(), 12);
    assert_eq!(DAGNode { node: None }.id_hash(), -1);
}
