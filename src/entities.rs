//! Row shapes of the relational tables, and their conversions to records.
use vstd::prelude::*;
use vstd::std_specs::convert::FromSpecImpl;
use crate::ids::{Id, Timestamp};
use crate::models::{Node, NodeStatus, Operation, OperationType};

verus! {

/// The `operation_type` column's values.
#[derive(Clone, Copy, Debug, PartialEq, Eq, Structural)]
pub enum DbOperationType {
    PowerOn,
    PowerOff,
    Reboot,
}

/// The `node_status` column's values.
#[derive(Clone, Copy, Debug, PartialEq, Eq, Structural)]
pub enum DbNodeStatus {
    PowerOn,
    PowerOff,
    Rebooting,
}

/// A row of the `operations` table.
#[derive(Clone, Copy, Debug, PartialEq, Eq, Structural)]
pub struct DbOperation {
    pub id: Id,
    pub node_id: Id,
    pub operation_type: DbOperationType,
    pub created_at: Option<Timestamp>,
    pub updated_at: Option<Timestamp>,
}

/// A row of the `nodes` table.
#[derive(Clone, Debug)]
pub struct DbNode {
    pub id: Id,
    pub name: String,
    pub cluster_id: Id,
    pub status: DbNodeStatus,
    pub created_at: Option<Timestamp>,
    pub updated_at: Option<Timestamp>,
}

pub open spec fn db_operation_type(t: OperationType) -> DbOperationType {
    match t {
        OperationType::PowerOn => DbOperationType::PowerOn,
        OperationType::PowerOff => DbOperationType::PowerOff,
        OperationType::Reboot => DbOperationType::Reboot,
    }
}

pub open spec fn operation_type_of(t: DbOperationType) -> OperationType {
    match t {
        DbOperationType::PowerOn => OperationType::PowerOn,
        DbOperationType::PowerOff => OperationType::PowerOff,
        DbOperationType::Reboot => OperationType::Reboot,
    }
}

pub open spec fn db_node_status(s: NodeStatus) -> DbNodeStatus {
    match s {
        NodeStatus::PowerOn => DbNodeStatus::PowerOn,
        NodeStatus::PowerOff => DbNodeStatus::PowerOff,
        NodeStatus::Rebooting => DbNodeStatus::Rebooting,
    }
}

pub open spec fn node_status_of(s: DbNodeStatus) -> NodeStatus {
    match s {
        DbNodeStatus::PowerOn => NodeStatus::PowerOn,
        DbNodeStatus::PowerOff => NodeStatus::PowerOff,
        DbNodeStatus::Rebooting => NodeStatus::Rebooting,
    }
}

pub open spec fn db_node(v: Node) -> DbNode {
    DbNode {
        id: v.id,
        name: v.name,
        cluster_id: v.cluster_id,
        status: db_node_status(v.status),
        created_at: v.created_at,
        updated_at: v.updated_at,
    }
}

pub open spec fn node_of_row(v: DbNode) -> Node {
    Node {
        id: v.id,
        name: v.name,
        cluster_id: v.cluster_id,
        status: node_status_of(v.status),
        created_at: v.created_at,
        updated_at: v.updated_at,
    }
}

pub open spec fn db_operation(v: Operation) -> DbOperation {
    DbOperation {
        id: v.id,
        node_id: v.node_id,
        operation_type: db_operation_type(v.operation_type),
        created_at: v.created_at,
        updated_at: v.updated_at,
    }
}

pub open spec fn operation_of_row(v: DbOperation) -> Operation {
    Operation {
        id: v.id,
        node_id: v.node_id,
        operation_type: operation_type_of(v.operation_type),
        created_at: v.created_at,
        updated_at: v.updated_at,
    }
}

impl From<OperationType> for DbOperationType {
    fn from(op_type: OperationType) -> Self {
        match op_type {
            OperationType::PowerOn => DbOperationType::PowerOn,
            OperationType::PowerOff => DbOperationType::PowerOff,
            OperationType::Reboot => DbOperationType::Reboot,
        }
    }
}

impl FromSpecImpl<OperationType> for DbOperationType {
    open spec fn obeys_from_spec() -> bool {
        true
    }

    open spec fn from_spec(v: OperationType) -> DbOperationType {
        db_operation_type(v)
    }
}

impl From<DbOperationType> for OperationType {
    fn from(op_type: DbOperationType) -> Self {
        match op_type {
            DbOperationType::PowerOn => OperationType::PowerOn,
            DbOperationType::PowerOff => OperationType::PowerOff,
            DbOperationType::Reboot => OperationType::Reboot,
        }
    }
}

impl FromSpecImpl<DbOperationType> for OperationType {
    open spec fn obeys_from_spec() -> bool {
        true
    }

    open spec fn from_spec(v: DbOperationType) -> OperationType {
        operation_type_of(v)
    }
}

impl From<NodeStatus> for DbNodeStatus {
    fn from(status: NodeStatus) -> Self {
        match status {
            NodeStatus::PowerOn => DbNodeStatus::PowerOn,
            NodeStatus::PowerOff => DbNodeStatus::PowerOff,
            NodeStatus::Rebooting => DbNodeStatus::Rebooting,
        }
    }
}

impl FromSpecImpl<NodeStatus> for DbNodeStatus {
    open spec fn obeys_from_spec() -> bool {
        true
    }

    open spec fn from_spec(v: NodeStatus) -> DbNodeStatus {
        db_node_status(v)
    }
}

impl From<DbNodeStatus> for NodeStatus {
    fn from(status: DbNodeStatus) -> Self {
        match status {
            DbNodeStatus::PowerOn => NodeStatus::PowerOn,
            DbNodeStatus::PowerOff => NodeStatus::PowerOff,
            DbNodeStatus::Rebooting => NodeStatus::Rebooting,
        }
    }
}

impl FromSpecImpl<DbNodeStatus> for NodeStatus {
    open spec fn obeys_from_spec() -> bool {
        true
    }

    open spec fn from_spec(v: DbNodeStatus) -> NodeStatus {
        node_status_of(v)
    }
}

impl From<Operation> for DbOperation {
    fn from(op: Operation) -> Self {
        DbOperation {
            id: op.id,
            node_id: op.node_id,
            operation_type: DbOperationType::from(op.operation_type),
            created_at: op.created_at,
            updated_at: op.updated_at,
        }
    }
}

impl FromSpecImpl<Operation> for DbOperation {
    open spec fn obeys_from_spec() -> bool {
        true
    }

    open spec fn from_spec(v: Operation) -> DbOperation {
        db_operation(v)
    }
}

impl From<DbOperation> for Operation {
    fn from(op: DbOperation) -> Self {
        Operation {
            id: op.id,
            node_id: op.node_id,
            operation_type: OperationType::from(op.operation_type),
            created_at: op.created_at,
            updated_at: op.updated_at,
        }
    }
}

impl FromSpecImpl<DbOperation> for Operation {
    open spec fn obeys_from_spec() -> bool {
        true
    }

    open spec fn from_spec(v: DbOperation) -> Operation {
        operation_of_row(v)
    }
}

impl From<Node> for DbNode {
    fn from(node: Node) -> Self {
        DbNode {
            id: node.id,
            name: node.name,
            cluster_id: node.cluster_id,
            status: DbNodeStatus::from(node.status),
            created_at: node.created_at,
            updated_at: node.updated_at,
        }
    }
}

impl FromSpecImpl<Node> for DbNode {
    open spec fn obeys_from_spec() -> bool {
        true
    }

    open spec fn from_spec(v: Node) -> DbNode {
        db_node(v)
    }
}

impl From<DbNode> for Node {
    fn from(node: DbNode) -> Self {
        Node {
            id: node.id,
            name: node.name,
            cluster_id: node.cluster_id,
            status: NodeStatus::from(node.status),
            created_at: node.created_at,
            updated_at: node.updated_at,
        }
    }
}

impl FromSpecImpl<DbNode> for Node {
    open spec fn obeys_from_spec() -> bool {
        true
    }

    open spec fn from_spec(v: DbNode) -> Node {
        node_of_row(v)
    }
}

/// Storing a node as a row and reading it back gives the same node.
pub proof fn lemma_node_row_round_trip(n: Node)
    ensures
        node_of_row(db_node(n)) == n,
{
}

/// Storing an operation as a row and reading it back gives the same
/// operation.
pub proof fn lemma_operation_row_round_trip(o: Operation)
    ensures
        operation_of_row(db_operation(o)) == o,
{
}

} // verus!
