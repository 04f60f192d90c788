//! The decisions of a relational store: how a failed statement is reported,
//! and the steps that record an operation together with its node's status.
use vstd::prelude::*;
use crate::ids::Id;
use crate::models::{NodeStatus, Operation, target_of};
use crate::repository::RepositoryError;

verus! {

/// The kind of statement that a store ran.
#[derive(Clone, Copy, Debug, PartialEq, Eq, Structural)]
pub enum Statement {
    /// A read of a whole table.
    List,
    /// A read of one row by id.
    Get,
    /// An insertion.
    Insert,
    /// An update by id.
    Update,
    /// A deletion by id.
    Delete,
}

/// The error that a failed statement of kind `statement` is reported as:
/// a failed read by id means the id is not valid, a failed insertion that
/// the id is taken, a failed update or deletion that the id is not stored,
/// and a failed listing is a generic failure described by `detail`.
pub fn storage_error(statement: Statement, detail: String) -> (r: RepositoryError)
    ensures
        match statement {
            Statement::List => (r matches RepositoryError::Generic(d) && d@ == detail@),
            Statement::Get => r == RepositoryError::InvalidId,
            Statement::Insert => r == RepositoryError::AlreadyExists,
            Statement::Update | Statement::Delete => r == RepositoryError::DoesNotExist,
        },
{
    match statement {
        Statement::List => RepositoryError::Generic(detail),
        Statement::Get => RepositoryError::InvalidId,
        Statement::Insert => RepositoryError::AlreadyExists,
        Statement::Update | Statement::Delete => RepositoryError::DoesNotExist,
    }
}

/// What to do next inside the transaction that records an operation.
#[derive(Debug)]
pub enum TxAction {
    /// Set node `node_id`'s status to `status` and its update instant to now,
    /// keeping `inserted` for the commit.
    UpdateNode { node_id: Id, status: NodeStatus, inserted: Operation },
    /// Commit, and return the recorded operation.
    Commit(Operation),
    /// Roll back, and fail with the error.
    Rollback(RepositoryError),
}

/// The step after the insertion of `operation` returned `inserted` (the
/// stored row, or the failure's text): update the node to the operation's
/// target status, or roll back with a generic failure.
pub fn after_insert(operation: &Operation, inserted: Result<Operation, String>) -> (r: TxAction)
    ensures
        match inserted {
            Ok(o) => r == (TxAction::UpdateNode {
                node_id: operation.node_id,
                status: target_of(operation.operation_type),
                inserted: o,
            }),
            Err(e) => (r matches TxAction::Rollback(RepositoryError::Generic(d)) && d@ == e@),
        },
{
    match inserted {
        Ok(o) => TxAction::UpdateNode {
            node_id: operation.node_id,
            status: operation.operation_type.target_status(),
            inserted: o,
        },
        Err(e) => TxAction::Rollback(RepositoryError::Generic(e)),
    }
}

/// The step after the node update returned `updated` (the number of rows it
/// changed, or the failure's text): commit `inserted` when the node was
/// there; roll back with `DoesNotExist` when no row changed, since the node
/// went away since it was checked; roll back with a generic failure when the
/// statement failed.
pub fn after_update(inserted: Operation, updated: Result<u64, String>) -> (r: TxAction)
    ensures
        match updated {
            Ok(n) => if n == 0 {
                r == TxAction::Rollback(RepositoryError::DoesNotExist)
            } else {
                r == TxAction::Commit(inserted)
            },
            Err(e) => (r matches TxAction::Rollback(RepositoryError::Generic(d)) && d@ == e@),
        },
{
    match updated {
        Ok(n) => if n == 0 {
            TxAction::Rollback(RepositoryError::DoesNotExist)
        } else {
            TxAction::Commit(inserted)
        },
        Err(e) => TxAction::Rollback(RepositoryError::Generic(e)),
    }
}

} // verus!
