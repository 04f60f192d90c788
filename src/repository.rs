//! What a store of clusters, nodes and operations offers, and how it fails.
use vstd::prelude::*;
use vstd::string::StringExecFns;
use crate::ids::Id;
use crate::models::{Cluster, Node, NodeStatus, Operation, target_of, with_status};
use crate::table::{has_key, index_of, keys_unique, row_for, without_key};

verus! {

/// How a store operation fails.
#[derive(Clone, Debug)]
pub enum RepositoryError {
    /// The store's lock was poisoned; the text describes it.
    LockError(String),
    /// A record with this id is already stored.
    AlreadyExists,
    /// No record with this id is stored.
    DoesNotExist,
    /// No record could be read for this id.
    InvalidId,
    /// Any other storage failure; the text describes it.
    Generic(String),
}

/// The text that describes `e`.
pub open spec fn repository_message(e: RepositoryError) -> Seq<char> {
    match e {
        RepositoryError::LockError(d) => "PoisonError: `"@ + d@ + "`"@,
        RepositoryError::AlreadyExists => "This entity already exists"@,
        RepositoryError::DoesNotExist => "This entity does not exist"@,
        RepositoryError::InvalidId => "The id format is not valid"@,
        RepositoryError::Generic(_) => "Repository error"@,
    }
}

impl RepositoryError {
    /// The text that describes this error.
    pub fn message(&self) -> (r: String)
        ensures
            r@ == repository_message(*self),
    {
        match self {
            RepositoryError::LockError(d) => String::from_str("PoisonError: `").concat(
                d.as_str(),
            ).concat("`"),
            RepositoryError::AlreadyExists => String::from_str("This entity already exists"),
            RepositoryError::DoesNotExist => String::from_str("This entity does not exist"),
            RepositoryError::InvalidId => String::from_str("The id format is not valid"),
            RepositoryError::Generic(_) => String::from_str("Repository error"),
        }
    }
}

/// Selects nodes whose name, or whose cluster's name, holds `name`.
#[derive(Clone, Debug)]
pub struct NodeFilter {
    pub name: String,
}

/// `pat` occurs in `s` as a run of consecutive characters.
pub open spec fn is_substring(pat: Seq<char>, s: Seq<char>) -> bool {
    exists|i: int| 0 <= i <= s.len() - pat.len() && #[trigger] s.subrange(i, i + pat.len()) == pat
}

/// Whether a listing with `filter` returns node `n`, given the stored
/// clusters. Without a filter every node is listed. With one, a node is
/// listed when its cluster is stored and the filter's text occurs in the
/// node's name or in that cluster's name (case-sensitive).
pub open spec fn node_selected(filter: Option<NodeFilter>, n: Node, clusters: Seq<Cluster>) -> bool {
    match filter {
        None => true,
        Some(f) => has_key(clusters, n.cluster_id) && (is_substring(f.name@, n.name@)
            || is_substring(f.name@, clusters[index_of(clusters, n.cluster_id)].name@)),
    }
}

/// The predicate that a listing with `filter` applies to each node.
pub open spec fn selects(filter: Option<NodeFilter>, clusters: Seq<Cluster>) -> spec_fn(Node) -> bool {
    |n: Node| node_selected(filter, n, clusters)
}

/// A record that storage made from `input` on creation: the caller's fields
/// kept, both instants set.
pub open spec fn cluster_created_from(input: Cluster, c: Cluster) -> bool {
    &&& c.id == input.id
    &&& c.name == input.name
    &&& c.created_at is Some
    &&& c.updated_at is Some
}

/// A record that storage made from `input` on update of `before`: the
/// caller's fields kept, the creation instant of `before` kept, the update
/// instant set.
pub open spec fn cluster_updated_from(before: Cluster, input: Cluster, c: Cluster) -> bool {
    &&& c.id == input.id
    &&& c.name == input.name
    &&& c.created_at == before.created_at
    &&& c.updated_at is Some
}

/// As `cluster_created_from`, for nodes.
pub open spec fn node_created_from(input: Node, n: Node) -> bool {
    &&& n.id == input.id
    &&& n.name == input.name
    &&& n.cluster_id == input.cluster_id
    &&& n.status == input.status
    &&& n.created_at is Some
    &&& n.updated_at is Some
}

/// As `cluster_updated_from`, for nodes.
pub open spec fn node_updated_from(before: Node, input: Node, n: Node) -> bool {
    &&& n.id == input.id
    &&& n.name == input.name
    &&& n.cluster_id == input.cluster_id
    &&& n.status == input.status
    &&& n.created_at == before.created_at
    &&& n.updated_at is Some
}

/// The operation record that storage made from `input`: the caller's fields
/// kept, both instants set.
pub open spec fn operation_recorded_from(input: Operation, o: Operation) -> bool {
    &&& o.id == input.id
    &&& o.node_id == input.node_id
    &&& o.operation_type == input.operation_type
    &&& o.created_at is Some
    &&& o.updated_at is Some
}

/// `after` is the node table `before` once the node `id` has taken status
/// `s`, with a fresh update instant; every other node unchanged.
pub open spec fn status_applied(before: Seq<Node>, after: Seq<Node>, id: Id, s: NodeStatus) -> bool {
    let i = index_of(before, id);
    &&& has_key(before, id)
    &&& after[i].updated_at is Some
    &&& after == before.update(i, with_status(before[i], s, after[i].updated_at))
}

/// `nodes` and `ops` are what storage holds after recording `o`, made from
/// the submitted `input`, against the tables `nodes0` and `ops0`: the record
/// appended, and its node's status set to the operation's target.
pub open spec fn operation_applied(
    nodes0: Seq<Node>,
    ops0: Seq<Operation>,
    input: Operation,
    o: Operation,
    nodes: Seq<Node>,
    ops: Seq<Operation>,
) -> bool {
    &&& !has_key(ops0, input.id)
    &&& operation_recorded_from(input, o)
    &&& ops == ops0.push(o)
    &&& status_applied(nodes0, nodes, input.node_id, target_of(input.operation_type))
}

/// Storage of cluster records.
///
/// `cluster_rows` is the table as a sequence with unique ids. What a call
/// does when it succeeds, and that it changes nothing when it fails, is fixed
/// here. When it succeeds is fixed only for a `reliable` store; otherwise it
/// may also depend on the storage behind it.
pub trait ClusterRepository {
    /// The store's own well-formedness, which every call keeps.
    spec fn inv(&self) -> bool;

    /// The cluster table.
    spec fn cluster_rows(&self) -> Seq<Cluster>;

    /// The store fails only for the reasons that its contracts name: no
    /// connection, lock or other outside failure stands in the way.
    spec fn reliable(&self) -> bool;

    /// A well-formed store holds no two clusters with one id.
    proof fn lemma_clusters_unique(&self)
        requires
            self.inv(),
        ensures
            keys_unique(self.cluster_rows()),
    ;

    /// Every stored cluster.
    fn get_clusters(&self) -> (r: Result<Vec<Cluster>, RepositoryError>)
        requires
            self.inv(),
        ensures
            r matches Ok(v) ==> v@ == self.cluster_rows(),
            self.reliable() ==> r is Ok,
    ;

    /// The cluster with id `cluster_id`.
    fn get_cluster(&self, cluster_id: &Id) -> (r: Result<Cluster, RepositoryError>)
        requires
            self.inv(),
        ensures
            r matches Ok(c) ==> row_for(self.cluster_rows(), *cluster_id) == Some(c),
            self.reliable() ==> (r is Ok <==> has_key(self.cluster_rows(), *cluster_id)),
    ;

    /// Stores a cluster under a new id.
    fn create_cluster(&mut self, cluster: &Cluster) -> (r: Result<Cluster, RepositoryError>)
        requires
            old(self).inv(),
        ensures
            final(self).inv(),
            final(self).reliable() == old(self).reliable(),
            old(self).reliable() ==> (r is Ok <==> !has_key(old(self).cluster_rows(), cluster.id)),
            match r {
                Ok(c) => {
                    &&& !has_key(old(self).cluster_rows(), cluster.id)
                    &&& cluster_created_from(*cluster, c)
                    &&& final(self).cluster_rows() == old(self).cluster_rows().push(c)
                },
                Err(_) => final(self).cluster_rows() == old(self).cluster_rows(),
            },
    ;

    /// Replaces the stored cluster that has `cluster`'s id.
    fn update_cluster(&mut self, cluster: &Cluster) -> (r: Result<Cluster, RepositoryError>)
        requires
            old(self).inv(),
        ensures
            final(self).inv(),
            final(self).reliable() == old(self).reliable(),
            old(self).reliable() ==> (r is Ok <==> has_key(old(self).cluster_rows(), cluster.id)),
            match r {
                Ok(c) => {
                    let rows = old(self).cluster_rows();
                    let i = index_of(rows, cluster.id);
                    &&& has_key(rows, cluster.id)
                    &&& cluster_updated_from(rows[i], *cluster, c)
                    &&& final(self).cluster_rows() == rows.update(i, c)
                },
                Err(_) => final(self).cluster_rows() == old(self).cluster_rows(),
            },
    ;

    /// Removes the cluster with id `cluster_id`, and returns that id.
    fn delete_cluster(&mut self, cluster_id: &Id) -> (r: Result<Id, RepositoryError>)
        requires
            old(self).inv(),
        ensures
            final(self).inv(),
            final(self).reliable() == old(self).reliable(),
            old(self).reliable() ==> (r is Ok <==> has_key(old(self).cluster_rows(), *cluster_id)),
            match r {
                Ok(k) => {
                    &&& k == *cluster_id
                    &&& has_key(old(self).cluster_rows(), k)
                    &&& final(self).cluster_rows() == without_key(old(self).cluster_rows(), k)
                },
                Err(_) => final(self).cluster_rows() == old(self).cluster_rows(),
            },
    ;
}

/// Storage of node records and of the operation log, joined with the
/// cluster table for listing.
///
/// `node_rows` and `operation_rows` are the two tables as sequences with
/// unique ids.
pub trait NodeRepository: ClusterRepository {
    /// The node table.
    spec fn node_rows(&self) -> Seq<Node>;

    /// The operation log, oldest first.
    spec fn operation_rows(&self) -> Seq<Operation>;

    /// A well-formed store holds no two nodes, and no two operations, with
    /// one id.
    proof fn lemma_nodes_unique(&self)
        requires
            self.inv(),
        ensures
            keys_unique(self.node_rows()),
            keys_unique(self.operation_rows()),
    ;

    /// The stored nodes that `filter` selects, in table order.
    fn get_nodes(&self, filter: Option<NodeFilter>) -> (r: Result<Vec<Node>, RepositoryError>)
        requires
            self.inv(),
        ensures
            r matches Ok(v) ==> v@ == self.node_rows().filter(selects(filter, self.cluster_rows())),
            self.reliable() ==> r is Ok,
    ;

    /// The node with id `node_id`.
    fn get_node(&self, node_id: &Id) -> (r: Result<Node, RepositoryError>)
        requires
            self.inv(),
        ensures
            r matches Ok(n) ==> row_for(self.node_rows(), *node_id) == Some(n),
            self.reliable() ==> (r is Ok <==> has_key(self.node_rows(), *node_id)),
    ;

    /// Stores a node under a new id.
    fn create_node(&mut self, node: &Node) -> (r: Result<Node, RepositoryError>)
        requires
            old(self).inv(),
        ensures
            final(self).inv(),
            final(self).reliable() == old(self).reliable(),
            old(self).reliable() ==> (r is Ok <==> !has_key(old(self).node_rows(), node.id)),
            final(self).cluster_rows() == old(self).cluster_rows(),
            final(self).operation_rows() == old(self).operation_rows(),
            match r {
                Ok(n) => {
                    &&& !has_key(old(self).node_rows(), node.id)
                    &&& node_created_from(*node, n)
                    &&& final(self).node_rows() == old(self).node_rows().push(n)
                },
                Err(_) => final(self).node_rows() == old(self).node_rows(),
            },
    ;

    /// Replaces the stored node that has `node`'s id.
    fn update_node(&mut self, node: &Node) -> (r: Result<Node, RepositoryError>)
        requires
            old(self).inv(),
        ensures
            final(self).inv(),
            final(self).reliable() == old(self).reliable(),
            old(self).reliable() ==> (r is Ok <==> has_key(old(self).node_rows(), node.id)),
            final(self).cluster_rows() == old(self).cluster_rows(),
            final(self).operation_rows() == old(self).operation_rows(),
            match r {
                Ok(n) => {
                    let rows = old(self).node_rows();
                    let i = index_of(rows, node.id);
                    &&& has_key(rows, node.id)
                    &&& node_updated_from(rows[i], *node, n)
                    &&& final(self).node_rows() == rows.update(i, n)
                },
                Err(_) => final(self).node_rows() == old(self).node_rows(),
            },
    ;

    /// Removes the node with id `node_id`, and returns that id.
    fn delete_node(&mut self, node_id: &Id) -> (r: Result<Id, RepositoryError>)
        requires
            old(self).inv(),
        ensures
            final(self).inv(),
            final(self).reliable() == old(self).reliable(),
            old(self).reliable() ==> (r is Ok <==> has_key(old(self).node_rows(), *node_id)),
            final(self).cluster_rows() == old(self).cluster_rows(),
            final(self).operation_rows() == old(self).operation_rows(),
            match r {
                Ok(k) => {
                    &&& k == *node_id
                    &&& has_key(old(self).node_rows(), k)
                    &&& final(self).node_rows() == without_key(old(self).node_rows(), k)
                },
                Err(_) => final(self).node_rows() == old(self).node_rows(),
            },
    ;

    /// Records `operation` and sets its node's status to the operation's
    /// target, as one step: on success both happen, on failure neither.
    fn create_operation(&mut self, operation: &Operation) -> (r: Result<Operation, RepositoryError>)
        requires
            old(self).inv(),
        ensures
            final(self).inv(),
            final(self).reliable() == old(self).reliable(),
            old(self).reliable() ==> (r is Ok <==> !has_key(old(self).operation_rows(), operation.id) && has_key(
                old(self).node_rows(),
                operation.node_id,
            )),
            final(self).cluster_rows() == old(self).cluster_rows(),
            match r {
                Ok(o) => operation_applied(
                    old(self).node_rows(),
                    old(self).operation_rows(),
                    *operation,
                    o,
                    final(self).node_rows(),
                    final(self).operation_rows(),
                ),
                Err(_) => {
                    &&& final(self).node_rows() == old(self).node_rows()
                    &&& final(self).operation_rows() == old(self).operation_rows()
                },
            },
    ;
}

} // verus!

verus! {

/// Sets the status of the stored node `node_id` to `status`: reads the node,
/// changes its status, and stores it back. On success the node keeps its
/// other fields and creation instant, and takes a fresh update instant; on
/// failure nothing changed. An unknown id always fails.
pub fn patch_node_status<N: NodeRepository>(repo: &mut N, node_id: Id, status: NodeStatus) -> (r:
    Result<Node, RepositoryError>)
    requires
        old(repo).inv(),
    ensures
        final(repo).inv(),
        final(repo).reliable() == old(repo).reliable(),
        old(repo).reliable() ==> (r is Ok <==> has_key(old(repo).node_rows(), node_id)),
        final(repo).cluster_rows() == old(repo).cluster_rows(),
        final(repo).operation_rows() == old(repo).operation_rows(),
        !has_key(old(repo).node_rows(), node_id) ==> r is Err,
        match r {
            Ok(n) => {
                let rows = old(repo).node_rows();
                let i = index_of(rows, node_id);
                &&& has_key(rows, node_id)
                &&& n == with_status(rows[i], status, n.updated_at)
                &&& n.updated_at is Some
                &&& final(repo).node_rows() == rows.update(i, n)
            },
            Err(_) => final(repo).node_rows() == old(repo).node_rows(),
        },
{
    let mut node = match repo.get_node(&node_id) {
        Ok(n) => n,
        Err(e) => return Err(e),
    };
    node.status = status;
    repo.update_node(&node)
}

} // verus!
