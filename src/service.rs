//! Submission of power operations against nodes.
use vstd::prelude::*;
use vstd::string::StringExecFns;
use crate::ids::{Id, fresh_id, hyphenated, hyphenated_of};
use crate::models::{Node, Operation, OperationType};
use crate::repository::{NodeRepository, RepositoryError, operation_applied, repository_message};
use crate::table::{has_key, row_for};

verus! {

/// How a submission fails.
#[derive(Debug)]
pub enum OperationServiceError {
    /// The target node could not be found; nothing was written.
    NodeNotFound(Id),
    /// Storage failed while recording; nothing was written.
    RepositoryError(RepositoryError),
}

/// The text that says no node has the id whose text is `id_text`.
pub open spec fn node_not_found_text(id_text: Seq<char>) -> Seq<char> {
    "Node not found: `"@ + id_text + "`"@
}

/// The text that describes `e`; a storage error is described as storage
/// describes it.
pub open spec fn service_message(e: OperationServiceError) -> Seq<char> {
    match e {
        OperationServiceError::NodeNotFound(id) => node_not_found_text(hyphenated_of(id.value)),
        OperationServiceError::RepositoryError(r) => repository_message(r),
    }
}

/// The text that says no node has the id whose text is `id_text`.
pub fn node_not_found_message(id_text: &str) -> (r: String)
    ensures
        r@ == node_not_found_text(id_text@),
{
    String::from_str("Node not found: `").concat(id_text).concat("`")
}

impl OperationServiceError {
    /// The text that describes this error.
    pub fn message(&self) -> (r: String)
        ensures
            r@ == service_message(*self),
    {
        match self {
            OperationServiceError::NodeNotFound(id) => {
                let text = hyphenated(*id);
                node_not_found_message(text.as_str())
            },
            OperationServiceError::RepositoryError(e) => e.message(),
        }
    }
}

/// The operation that a submission of type `t` against `node_id` hands to
/// storage, given the id it drew.
pub open spec fn submitted(id: Id, node_id: Id, t: OperationType) -> Operation {
    Operation { id, node_id, operation_type: t, created_at: None, updated_at: None }
}

/// What a submission of type `t` against `node_id` may leave behind: storage
/// taken from `before` to `after`, and the result `r`.
///
/// An unknown node gives `NodeNotFound` for that id. On success the returned
/// record is for that node and type, it was appended to the log, and the
/// node took the type's target status, together. On any failure, neither the
/// node table nor the log changed.
pub open spec fn submission_outcome<N: NodeRepository>(
    before: N,
    after: N,
    node_id: Id,
    t: OperationType,
    r: Result<Operation, OperationServiceError>,
) -> bool {
    &&& after.inv()
    &&& after.reliable() == before.reliable()
    &&& after.cluster_rows() == before.cluster_rows()
    &&& !has_key(before.node_rows(), node_id) ==> r == Err::<Operation, OperationServiceError>(
        OperationServiceError::NodeNotFound(node_id),
    )
    &&& match r {
        Ok(o) => {
            &&& o.node_id == node_id
            &&& o.operation_type == t
            &&& operation_applied(
                before.node_rows(),
                before.operation_rows(),
                submitted(o.id, node_id, t),
                o,
                after.node_rows(),
                after.operation_rows(),
            )
        },
        Err(e) => {
            &&& e matches OperationServiceError::NodeNotFound(k) ==> k == node_id
            &&& after.node_rows() == before.node_rows()
            &&& after.operation_rows() == before.operation_rows()
        },
    }
}

/// Success that a submission against `node_id` owes: on a reliable store
/// that holds the node, it fails only if the id it drew is already in the
/// log, which cannot happen while the log is empty. The node's current
/// status never matters.
pub open spec fn submission_owed<N: NodeRepository>(
    before: N,
    node_id: Id,
    r: Result<Operation, OperationServiceError>,
) -> bool {
    before.reliable() && has_key(before.node_rows(), node_id) ==> (r is Ok
        || before.operation_rows().len() > 0)
}

/// The result of the existence check on `node_id`, given what the lookup
/// returned: the node, or `NodeNotFound` for that id whatever the lookup's
/// error was.
pub fn check_lookup(node_id: Id, lookup: Result<Node, RepositoryError>) -> (r: Result<
    Node,
    OperationServiceError,
>)
    ensures
        match lookup {
            Ok(n) => r == Ok::<Node, OperationServiceError>(n),
            Err(_) => r == Err::<Node, OperationServiceError>(
                OperationServiceError::NodeNotFound(node_id),
            ),
        },
{
    match lookup {
        Ok(n) => Ok(n),
        Err(_) => Err(OperationServiceError::NodeNotFound(node_id)),
    }
}

/// The result of a submission once storage returned `recorded` for the
/// operation handed to it: the stored record, or the storage error as is.
pub fn finish_submission(recorded: Result<Operation, RepositoryError>) -> (r: Result<
    Operation,
    OperationServiceError,
>)
    ensures
        match recorded {
            Ok(o) => r == Ok::<Operation, OperationServiceError>(o),
            Err(e) => r == Err::<Operation, OperationServiceError>(
                OperationServiceError::RepositoryError(e),
            ),
        },
{
    match recorded {
        Ok(o) => Ok(o),
        Err(e) => Err(OperationServiceError::RepositoryError(e)),
    }
}

/// Records power operations and moves node status with them.
pub struct OperationService<N: NodeRepository> {
    node_repository: N,
}

impl<N: NodeRepository> OperationService<N> {
    /// The storage behind the service.
    pub closed spec fn repo(&self) -> N {
        self.node_repository
    }

    pub fn new(node_repository: N) -> (r: Self)
        ensures
            r.repo() == node_repository,
    {
        OperationService { node_repository }
    }

    /// The storage behind the service.
    pub fn repository(&self) -> (r: &N)
        ensures
            *r == self.repo(),
    {
        &self.node_repository
    }

    /// Records a power-on of `node_id`; the node's status becomes `PowerOn`.
    pub fn power_on(&mut self, node_id: &Id) -> (r: Result<Operation, OperationServiceError>)
        requires
            old(self).repo().inv(),
        ensures
            submission_outcome(
                old(self).repo(),
                final(self).repo(),
                *node_id,
                OperationType::PowerOn,
                r,
            ),
            submission_owed(old(self).repo(), *node_id, r),
    {
        self.create_operation(node_id, OperationType::PowerOn)
    }

    /// Records a power-off of `node_id`; the node's status becomes `PowerOff`.
    pub fn power_off(&mut self, node_id: &Id) -> (r: Result<Operation, OperationServiceError>)
        requires
            old(self).repo().inv(),
        ensures
            submission_outcome(
                old(self).repo(),
                final(self).repo(),
                *node_id,
                OperationType::PowerOff,
                r,
            ),
            submission_owed(old(self).repo(), *node_id, r),
    {
        self.create_operation(node_id, OperationType::PowerOff)
    }

    /// Records a reboot of `node_id`; the node's status becomes `Rebooting`.
    pub fn reboot(&mut self, node_id: &Id) -> (r: Result<Operation, OperationServiceError>)
        requires
            old(self).repo().inv(),
        ensures
            submission_outcome(
                old(self).repo(),
                final(self).repo(),
                *node_id,
                OperationType::Reboot,
                r,
            ),
            submission_owed(old(self).repo(), *node_id, r),
    {
        self.create_operation(node_id, OperationType::Reboot)
    }

    /// Records an operation of type `operation_type` against `node_id`,
    /// with id `operation_id`. On a reliable store it succeeds exactly when
    /// the node is stored and the id is not yet in the log.
    pub fn submit_with_id(
        &mut self,
        operation_id: Id,
        node_id: &Id,
        operation_type: OperationType,
    ) -> (r: Result<Operation, OperationServiceError>)
        requires
            old(self).repo().inv(),
        ensures
            submission_outcome(old(self).repo(), final(self).repo(), *node_id, operation_type, r),
            r matches Ok(o) ==> o.id == operation_id,
            old(self).repo().reliable() ==> (r is Ok <==> has_key(old(self).repo().node_rows(), *node_id)
                && !has_key(old(self).repo().operation_rows(), operation_id)),
    {
        if let Err(e) = self.node_check(node_id) {
            return Err(e);
        }
        let operation = Operation::with_id(operation_id, *node_id, operation_type);
        let recorded = self.node_repository.create_operation(&operation);
        proof {
            if let Ok(o) = recorded {
                assert(operation == submitted(o.id, *node_id, operation_type));
            }
        }
        finish_submission(recorded)
    }

    fn create_operation(&mut self, node_id: &Id, operation_type: OperationType) -> (r: Result<
        Operation,
        OperationServiceError,
    >)
        requires
            old(self).repo().inv(),
        ensures
            submission_outcome(old(self).repo(), final(self).repo(), *node_id, operation_type, r),
            submission_owed(old(self).repo(), *node_id, r),
    {
        let operation_id = fresh_id();
        self.submit_with_id(operation_id, node_id, operation_type)
    }

    fn node_check(&self, node_id: &Id) -> (r: Result<Node, OperationServiceError>)
        requires
            self.repo().inv(),
        ensures
            r matches Ok(n) ==> row_for(self.repo().node_rows(), *node_id) == Some(n),
            r matches Err(e) ==> e == OperationServiceError::NodeNotFound(*node_id),
            self.repo().reliable() ==> (r is Ok <==> has_key(self.repo().node_rows(), *node_id)),
    {
        let lookup = self.node_repository.get_node(node_id);
        check_lookup(*node_id, lookup)
    }
}

} // verus!
