//! Cluster, node and operation records.
use vstd::prelude::*;
use crate::ids::{Id, Timestamp, fresh_id};

verus! {

/// The power state of a node.
#[derive(Clone, Copy, Debug, PartialEq, Eq, Structural, Hash)]
pub enum NodeStatus {
    PowerOn,
    PowerOff,
    Rebooting,
}

/// The kind of a power operation.
#[derive(Clone, Copy, Debug, PartialEq, Eq, Structural, Hash)]
pub enum OperationType {
    PowerOn,
    PowerOff,
    Reboot,
}

/// The status that a node takes when an operation of type `t` is recorded.
pub open spec fn target_of(t: OperationType) -> NodeStatus {
    match t {
        OperationType::PowerOn => NodeStatus::PowerOn,
        OperationType::PowerOff => NodeStatus::PowerOff,
        OperationType::Reboot => NodeStatus::Rebooting,
    }
}

impl OperationType {
    /// The status that the target node takes once this operation is recorded.
    pub fn target_status(&self) -> (r: NodeStatus)
        ensures
            r == target_of(*self),
    {
        match self {
            OperationType::PowerOn => NodeStatus::PowerOn,
            OperationType::PowerOff => NodeStatus::PowerOff,
            OperationType::Reboot => NodeStatus::Rebooting,
        }
    }
}

/// A named group of nodes.
#[derive(Clone, Debug)]
pub struct Cluster {
    pub id: Id,
    pub name: String,
    pub created_at: Option<Timestamp>,
    pub updated_at: Option<Timestamp>,
}

/// A managed compute unit.
#[derive(Clone, Debug)]
pub struct Node {
    pub id: Id,
    pub name: String,
    pub cluster_id: Id,
    pub status: NodeStatus,
    pub created_at: Option<Timestamp>,
    pub updated_at: Option<Timestamp>,
}

/// A recorded power command against a node.
#[derive(Clone, Copy, Debug, PartialEq, Eq, Structural)]
pub struct Operation {
    pub id: Id,
    pub node_id: Id,
    pub operation_type: OperationType,
    pub created_at: Option<Timestamp>,
    pub updated_at: Option<Timestamp>,
}

impl Operation {
    /// A new operation with a fresh random id and no timestamps: storage
    /// assigns those.
    pub fn new(node_id: Id, operation_type: OperationType) -> (r: Operation)
        ensures
            r.node_id == node_id,
            r.operation_type == operation_type,
            r.created_at is None,
            r.updated_at is None,
    {
        Operation::with_id(fresh_id(), node_id, operation_type)
    }

    /// A new operation with the given id and no timestamps.
    pub fn with_id(id: Id, node_id: Id, operation_type: OperationType) -> (r: Operation)
        ensures
            r.id == id,
            r.node_id == node_id,
            r.operation_type == operation_type,
            r.created_at is None,
            r.updated_at is None,
    {
        Operation { id, node_id, operation_type, created_at: None, updated_at: None }
    }
}

} // verus!

verus! {

impl Cluster {
    /// A field-by-field copy.
    pub fn duplicate(&self) -> (r: Cluster)
        ensures
            r == *self,
    {
        Cluster {
            id: self.id,
            name: self.name.clone(),
            created_at: self.created_at,
            updated_at: self.updated_at,
        }
    }
}

impl Node {
    /// A field-by-field copy.
    pub fn duplicate(&self) -> (r: Node)
        ensures
            r == *self,
    {
        Node {
            id: self.id,
            name: self.name.clone(),
            cluster_id: self.cluster_id,
            status: self.status,
            created_at: self.created_at,
            updated_at: self.updated_at,
        }
    }
}

/// `n` with status `s` and last-update instant `u`, every other field kept.
pub open spec fn with_status(n: Node, s: NodeStatus, u: Option<Timestamp>) -> Node {
    Node {
        id: n.id,
        name: n.name,
        cluster_id: n.cluster_id,
        status: s,
        created_at: n.created_at,
        updated_at: u,
    }
}

} // verus!
