//! Laws that relate several store calls.
use vstd::prelude::*;
use crate::ids::Id;
use crate::models::{Cluster, Node, NodeStatus, Operation, OperationType, target_of};
use crate::repository::{NodeRepository, cluster_created_from, node_created_from, operation_applied};
use crate::service::{OperationServiceError, submission_outcome};
use crate::table::{has_key, index_of, keys_unique, lemma_push_new, lemma_row_at, lemma_update_same_key, row_for};

verus! {

/// How many records of `ops` target node `n`.
pub open spec fn operations_for(ops: Seq<Operation>, n: Id) -> nat
    decreases ops.len(),
{
    if ops.len() == 0 {
        0
    } else {
        operations_for(ops.drop_last(), n) + if ops.last().node_id == n {
            1nat
        } else {
            0nat
        }
    }
}

/// The status of node `n` in `nodes`, if it is stored.
pub open spec fn status_of(nodes: Seq<Node>, n: Id) -> Option<NodeStatus> {
    match row_for(nodes, n) {
        Some(node) => Some(node.status),
        None => None,
    }
}

/// One recorded operation against node `n` leaves `n` with the operation's
/// target status, adds one record for `n` to the log, and keeps node ids
/// unique.
pub proof fn lemma_operation_step(
    nodes0: Seq<Node>,
    ops0: Seq<Operation>,
    input: Operation,
    o: Operation,
    nodes: Seq<Node>,
    ops: Seq<Operation>,
)
    requires
        keys_unique(nodes0),
        operation_applied(nodes0, ops0, input, o, nodes, ops),
    ensures
        keys_unique(nodes),
        status_of(nodes, input.node_id) == Some(target_of(o.operation_type)),
        operations_for(ops, input.node_id) == operations_for(ops0, input.node_id) + 1,
        forall|k: Id| k != input.node_id ==> #[trigger] row_for(nodes, k) == row_for(nodes0, k),
        forall|k: Id|
            k != input.node_id ==> #[trigger] operations_for(ops, k) == operations_for(ops0, k),
{
    let i = index_of(nodes0, input.node_id);
    let v = nodes[i];
    lemma_row_at(nodes0, i);
    lemma_update_same_key(nodes0, i, v);
    assert(ops.drop_last() =~= ops0);
    assert forall|k: Id| k != input.node_id implies #[trigger] operations_for(ops, k)
        == operations_for(ops0, k) by {
        assert(ops.drop_last() =~= ops0);
    }
}

/// One successful submission of type `t` against `node_id`, taking a
/// well-formed store from `before` to `after`: the node now has the target
/// status of `t`, the log holds one more record for it, and every other
/// node's row and log count are as they were.
pub proof fn lemma_submission_couples<N: NodeRepository>(
    before: N,
    after: N,
    node_id: Id,
    t: OperationType,
    r: Result<Operation, OperationServiceError>,
)
    requires
        before.inv(),
        submission_outcome(before, after, node_id, t, r),
        r is Ok,
    ensures
        status_of(after.node_rows(), node_id) == Some(target_of(t)),
        operations_for(after.operation_rows(), node_id) == operations_for(
            before.operation_rows(),
            node_id,
        ) + 1,
        forall|k: Id|
            k != node_id ==> #[trigger] row_for(after.node_rows(), k) == row_for(
                before.node_rows(),
                k,
            ),
        forall|k: Id|
            k != node_id ==> #[trigger] operations_for(after.operation_rows(), k)
                == operations_for(before.operation_rows(), k),
{
    before.lemma_nodes_unique();
    let o = r->Ok_0;
    lemma_operation_step(
        before.node_rows(),
        before.operation_rows(),
        crate::service::submitted(o.id, node_id, t),
        o,
        after.node_rows(),
        after.operation_rows(),
    );
}

/// Coupling of the operation log and node status. Along any run of
/// successful submissions against one node `n` (state `history[j]` before
/// the submission `submissions[j]` = (what was handed to storage, what it
/// returned), `history[j + 1]` after it), after the k-th submission `n`'s
/// status is the target of the k-th operation's type, and the log holds
/// exactly k more records for `n` than at the start.
pub proof fn lemma_status_follows_operations(
    n: Id,
    history: Seq<(Seq<Node>, Seq<Operation>)>,
    submissions: Seq<(Operation, Operation)>,
)
    requires
        history.len() == submissions.len() + 1,
        keys_unique(history[0].0),
        forall|j: int|
            0 <= j < submissions.len() ==> (#[trigger] submissions[j]).0.node_id == n
                && operation_applied(
                history[j].0,
                history[j].1,
                submissions[j].0,
                submissions[j].1,
                history[j + 1].0,
                history[j + 1].1,
            ),
    ensures
        forall|k: int|
            1 <= k <= submissions.len() ==> status_of(#[trigger] history[k].0, n) == Some(
                target_of(submissions[k - 1].1.operation_type),
            ),
        forall|k: int|
            0 <= k <= submissions.len() ==> operations_for(#[trigger] history[k].1, n)
                == operations_for(history[0].1, n) + k,
    decreases submissions.len(),
{
    let m = submissions.len() as int;
    if m > 0 {
        let h = history.drop_last();
        let s = submissions.drop_last();
        assert forall|j: int| 0 <= j < s.len() implies (#[trigger] s[j]).0.node_id == n
            && operation_applied(h[j].0, h[j].1, s[j].0, s[j].1, h[j + 1].0, h[j + 1].1) by {
            assert(s[j] == submissions[j]);
            assert(h[j] == history[j] && h[j + 1] == history[j + 1]);
        }
        lemma_status_follows_operations(n, h, s);
        lemma_unique_along(h, s);
        let last = m - 1;
        assert(submissions[last].0.node_id == n);
        assert(h[last] == history[last]);
        lemma_operation_step(
            history[last].0,
            history[last].1,
            submissions[last].0,
            submissions[last].1,
            history[m].0,
            history[m].1,
        );
        assert forall|k: int| 1 <= k <= m implies status_of(#[trigger] history[k].0, n) == Some(
            target_of(submissions[k - 1].1.operation_type),
        ) by {
            if k < m {
                assert(h[k] == history[k] && s[k - 1] == submissions[k - 1]);
            }
        }
        assert forall|k: int| 0 <= k <= m implies operations_for(#[trigger] history[k].1, n)
            == operations_for(history[0].1, n) + k by {
            if k < m {
                assert(h[k] == history[k]);
            }
            assert(h[0] == history[0]);
            assert(h[last] == history[last]);
        }
    }
}

/// Node ids stay unique along a run of recorded operations.
proof fn lemma_unique_along(
    history: Seq<(Seq<Node>, Seq<Operation>)>,
    submissions: Seq<(Operation, Operation)>,
)
    requires
        history.len() == submissions.len() + 1,
        keys_unique(history[0].0),
        forall|j: int|
            0 <= j < submissions.len() ==> operation_applied(
                history[j].0,
                history[j].1,
                (#[trigger] submissions[j]).0,
                submissions[j].1,
                history[j + 1].0,
                history[j + 1].1,
            ),
    ensures
        forall|k: int| 0 <= k < history.len() ==> keys_unique(#[trigger] history[k].0),
    decreases submissions.len(),
{
    let m = submissions.len() as int;
    if m > 0 {
        let h = history.drop_last();
        let s = submissions.drop_last();
        assert forall|j: int| 0 <= j < s.len() implies operation_applied(
            h[j].0,
            h[j].1,
            (#[trigger] s[j]).0,
            s[j].1,
            h[j + 1].0,
            h[j + 1].1,
        ) by {
            assert(s[j] == submissions[j]);
            assert(h[j] == history[j] && h[j + 1] == history[j + 1]);
        }
        lemma_unique_along(h, s);
        assert(h[m - 1] == history[m - 1]);
        lemma_operation_step(
            history[m - 1].0,
            history[m - 1].1,
            submissions[m - 1].0,
            submissions[m - 1].1,
            history[m].0,
            history[m].1,
        );
        assert forall|k: int| 0 <= k < history.len() implies keys_unique(#[trigger] history[k].0) by {
            if k < m {
                assert(h[k] == history[k]);
            }
        }
    }
}

/// Id fidelity for operations: once storage recorded `o` for the submitted
/// `input`, a lookup of `input`'s id in the log finds `o`, which has
/// `input`'s id, node and type, and whose instants are set.
pub proof fn lemma_operation_record_then_get(
    nodes0: Seq<Node>,
    ops0: Seq<Operation>,
    input: Operation,
    o: Operation,
    nodes: Seq<Node>,
    ops: Seq<Operation>,
)
    requires
        keys_unique(ops0),
        operation_applied(nodes0, ops0, input, o, nodes, ops),
    ensures
        row_for(ops, input.id) == Some(o),
        o.id == input.id,
        o.node_id == input.node_id,
        o.operation_type == input.operation_type,
        o.created_at is Some,
        o.updated_at is Some,
{
    lemma_push_new(ops0, o);
}

/// Id fidelity for clusters: once a cluster made from `input` is created in
/// `rows`, a lookup of `input`'s id finds a record with `input`'s id and name,
/// whose instants are set.
pub proof fn lemma_cluster_create_then_get(rows: Seq<Cluster>, input: Cluster, c: Cluster)
    requires
        keys_unique(rows),
        !has_key(rows, input.id),
        cluster_created_from(input, c),
    ensures
        row_for(rows.push(c), input.id) == Some(c),
        c.id == input.id,
        c.name == input.name,
        c.created_at is Some,
        c.updated_at is Some,
{
    lemma_push_new(rows, c);
}

/// Id fidelity for nodes: once a node made from `input` is created in
/// `rows`, a lookup of `input`'s id finds a record with `input`'s id, name,
/// cluster and status, whose instants are set.
pub proof fn lemma_node_create_then_get(rows: Seq<Node>, input: Node, n: Node)
    requires
        keys_unique(rows),
        !has_key(rows, input.id),
        node_created_from(input, n),
    ensures
        row_for(rows.push(n), input.id) == Some(n),
        n.id == input.id,
        n.name == input.name,
        n.cluster_id == input.cluster_id,
        n.status == input.status,
        n.created_at is Some,
        n.updated_at is Some,
{
    lemma_push_new(rows, n);
}

} // verus!
