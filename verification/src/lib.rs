//! Node-representation layer of a circuit dependency graph.
//!
//! Each vertex of the graph is one of three node kinds — an operation node,
//! an input-boundary node, or an output-boundary node — sharing one identity
//! concept (an optional position in the graph) while carrying different
//! payloads, equality rules and hashes. The layer also offers a snapshot
//! protocol, which turns a node into a portable record and back, and a
//! duplication protocol, which produces copies that share no backing state
//! with their source.

pub mod boundary;
pub mod hashing;
pub mod instruction;
pub mod node;
pub mod op_node;
pub mod operation;
pub mod params;
pub mod variants;

pub use boundary::DAGInNode;
pub use boundary::DAGOutNode;
pub use instruction::CircuitInstruction;
pub use node::DAGNode;
pub use node::NodeError;
pub use op_node::DAGOpNode;
pub use operation::OpData;
pub use operation::OpDescriptor;
pub use operation::OpKind;
pub use params::Param;
pub use params::Wire;
pub use variants::Node;
pub use variants::NodeSnapshot;
