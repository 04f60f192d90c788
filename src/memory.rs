//! Stores held in memory.
use vstd::prelude::*;
use crate::ids::{Id, now};
use crate::filter::node_matches;
use crate::models::{Cluster, Node, Operation, target_of, with_status};
use crate::repository::{ClusterRepository, NodeFilter, NodeRepository, RepositoryError, selects};
use crate::table::{
    has_key, keys_unique, lemma_push_new, lemma_remove_at, lemma_row_at, lemma_update_same_key,
    position,
};

verus! {

/// A cluster table held in memory.
pub struct MemoryClusterRepository {
    clusters: Vec<Cluster>,
}

impl MemoryClusterRepository {
    /// An empty table.
    pub fn new() -> (r: MemoryClusterRepository)
        ensures
            r.inv(),
            r.cluster_rows() == Seq::<Cluster>::empty(),
    {
        MemoryClusterRepository { clusters: Vec::new() }
    }
}

impl Default for MemoryClusterRepository {
    fn default() -> (r: MemoryClusterRepository)
        ensures
            r.inv(),
            r.cluster_rows() == Seq::<Cluster>::empty(),
    {
        MemoryClusterRepository::new()
    }
}

impl ClusterRepository for MemoryClusterRepository {
    open spec fn inv(&self) -> bool {
        keys_unique(self.cluster_rows())
    }

    closed spec fn cluster_rows(&self) -> Seq<Cluster> {
        self.clusters@
    }

    open spec fn reliable(&self) -> bool {
        true
    }

    proof fn lemma_clusters_unique(&self) {
    }

    fn get_clusters(&self) -> (r: Result<Vec<Cluster>, RepositoryError>)
        ensures
            r is Ok,
    {
        let mut out: Vec<Cluster> = Vec::new();
        let mut i: usize = 0;
        while i < self.clusters.len()
            invariant
                i <= self.clusters@.len(),
                out@ == self.clusters@.subrange(0, i as int),
            decreases self.clusters@.len() - i,
        {
            out.push(self.clusters[i].duplicate());
            i = i + 1;
            assert(out@ =~= self.clusters@.subrange(0, i as int));
        }
        assert(out@ =~= self.clusters@);
        Ok(out)
    }

    fn get_cluster(&self, cluster_id: &Id) -> (r: Result<Cluster, RepositoryError>)
        ensures
            r is Ok <==> has_key(self.cluster_rows(), *cluster_id),
            r is Err ==> r == Err::<Cluster, RepositoryError>(RepositoryError::InvalidId),
    {
        match position(&self.clusters, *cluster_id) {
            Some(i) => {
                proof {
                    lemma_row_at(self.clusters@, i as int);
                }
                Ok(self.clusters[i].duplicate())
            },
            None => Err(RepositoryError::InvalidId),
        }
    }

    fn create_cluster(&mut self, cluster: &Cluster) -> (r: Result<Cluster, RepositoryError>)
        ensures
            r is Ok <==> !has_key(old(self).cluster_rows(), cluster.id),
            r is Err ==> r == Err::<Cluster, RepositoryError>(RepositoryError::AlreadyExists),
    {
        if position(&self.clusters, cluster.id).is_some() {
            return Err(RepositoryError::AlreadyExists);
        }
        let t = now();
        let c = Cluster {
            id: cluster.id,
            name: cluster.name.clone(),
            created_at: Some(t),
            updated_at: Some(t),
        };
        proof {
            lemma_push_new(self.clusters@, c);
        }
        self.clusters.push(c.duplicate());
        Ok(c)
    }

    fn update_cluster(&mut self, cluster: &Cluster) -> (r: Result<Cluster, RepositoryError>)
        ensures
            r is Ok <==> has_key(old(self).cluster_rows(), cluster.id),
            r is Err ==> r == Err::<Cluster, RepositoryError>(RepositoryError::DoesNotExist),
    {
        match position(&self.clusters, cluster.id) {
            None => Err(RepositoryError::DoesNotExist),
            Some(i) => {
                let c = Cluster {
                    id: cluster.id,
                    name: cluster.name.clone(),
                    created_at: self.clusters[i].created_at,
                    updated_at: Some(now()),
                };
                proof {
                    lemma_row_at(self.clusters@, i as int);
                    lemma_update_same_key(self.clusters@, i as int, c);
                }
                self.clusters[i] = c.duplicate();
                Ok(c)
            },
        }
    }

    fn delete_cluster(&mut self, cluster_id: &Id) -> (r: Result<Id, RepositoryError>)
        ensures
            r is Ok <==> has_key(old(self).cluster_rows(), *cluster_id),
            r is Err ==> r == Err::<Id, RepositoryError>(RepositoryError::DoesNotExist),
    {
        match position(&self.clusters, *cluster_id) {
            None => Err(RepositoryError::DoesNotExist),
            Some(i) => {
                proof {
                    lemma_remove_at(self.clusters@, i as int);
                }
                self.clusters.remove(i);
                Ok(*cluster_id)
            },
        }
    }
}

} // verus!

verus! {

/// A node table and an operation log held in memory, with the cluster table
/// that node listings join against.
pub struct MemoryNodeRepository {
    clusters: MemoryClusterRepository,
    nodes: Vec<Node>,
    operations: Vec<Operation>,
}

impl MemoryNodeRepository {
    /// Empty tables.
    pub fn new() -> (r: MemoryNodeRepository)
        ensures
            r.inv(),
            r.cluster_rows() == Seq::<Cluster>::empty(),
            r.node_rows() == Seq::<Node>::empty(),
            r.operation_rows() == Seq::<Operation>::empty(),
    {
        MemoryNodeRepository {
            clusters: MemoryClusterRepository::new(),
            nodes: Vec::new(),
            operations: Vec::new(),
        }
    }

    /// The operation log, oldest first.
    pub fn get_operations(&self) -> (r: Vec<Operation>)
        ensures
            r@ == self.operation_rows(),
    {
        let mut out: Vec<Operation> = Vec::new();
        let mut i: usize = 0;
        while i < self.operations.len()
            invariant
                i <= self.operations@.len(),
                out@ == self.operations@.subrange(0, i as int),
            decreases self.operations@.len() - i,
        {
            out.push(self.operations[i]);
            i = i + 1;
            assert(out@ =~= self.operations@.subrange(0, i as int));
        }
        assert(out@ =~= self.operations@);
        out
    }
}

impl Default for MemoryNodeRepository {
    fn default() -> (r: MemoryNodeRepository)
        ensures
            r.inv(),
            r.cluster_rows() == Seq::<Cluster>::empty(),
            r.node_rows() == Seq::<Node>::empty(),
            r.operation_rows() == Seq::<Operation>::empty(),
    {
        MemoryNodeRepository::new()
    }
}

impl ClusterRepository for MemoryNodeRepository {
    closed spec fn inv(&self) -> bool {
        &&& keys_unique(self.clusters.clusters@)
        &&& keys_unique(self.nodes@)
        &&& keys_unique(self.operations@)
    }

    closed spec fn cluster_rows(&self) -> Seq<Cluster> {
        self.clusters.clusters@
    }

    open spec fn reliable(&self) -> bool {
        true
    }

    proof fn lemma_clusters_unique(&self) {
    }

    fn get_clusters(&self) -> (r: Result<Vec<Cluster>, RepositoryError>)
        ensures
            r is Ok,
    {
        self.clusters.get_clusters()
    }

    fn get_cluster(&self, cluster_id: &Id) -> (r: Result<Cluster, RepositoryError>)
        ensures
            r is Ok <==> has_key(self.cluster_rows(), *cluster_id),
            r is Err ==> r == Err::<Cluster, RepositoryError>(RepositoryError::InvalidId),
    {
        self.clusters.get_cluster(cluster_id)
    }

    fn create_cluster(&mut self, cluster: &Cluster) -> (r: Result<Cluster, RepositoryError>)
        ensures
            final(self).node_rows() == old(self).node_rows(),
            final(self).operation_rows() == old(self).operation_rows(),
            r is Ok <==> !has_key(old(self).cluster_rows(), cluster.id),
            r is Err ==> r == Err::<Cluster, RepositoryError>(RepositoryError::AlreadyExists),
    {
        self.clusters.create_cluster(cluster)
    }

    fn update_cluster(&mut self, cluster: &Cluster) -> (r: Result<Cluster, RepositoryError>)
        ensures
            final(self).node_rows() == old(self).node_rows(),
            final(self).operation_rows() == old(self).operation_rows(),
            r is Ok <==> has_key(old(self).cluster_rows(), cluster.id),
            r is Err ==> r == Err::<Cluster, RepositoryError>(RepositoryError::DoesNotExist),
    {
        self.clusters.update_cluster(cluster)
    }

    fn delete_cluster(&mut self, cluster_id: &Id) -> (r: Result<Id, RepositoryError>)
        ensures
            final(self).node_rows() == old(self).node_rows(),
            final(self).operation_rows() == old(self).operation_rows(),
            r is Ok <==> has_key(old(self).cluster_rows(), *cluster_id),
            r is Err ==> r == Err::<Id, RepositoryError>(RepositoryError::DoesNotExist),
    {
        self.clusters.delete_cluster(cluster_id)
    }
}

impl NodeRepository for MemoryNodeRepository {
    closed spec fn node_rows(&self) -> Seq<Node> {
        self.nodes@
    }

    closed spec fn operation_rows(&self) -> Seq<Operation> {
        self.operations@
    }

    proof fn lemma_nodes_unique(&self) {
    }

    fn get_nodes(&self, filter: Option<NodeFilter>) -> (r: Result<Vec<Node>, RepositoryError>)
        ensures
            r is Ok,
    {
        let ghost pred = selects(filter, self.cluster_rows());
        let mut out: Vec<Node> = Vec::new();
        let mut i: usize = 0;
        while i < self.nodes.len()
            invariant
                i <= self.nodes@.len(),
                keys_unique(self.clusters.clusters@),
                pred == selects(filter, self.cluster_rows()),
                self.cluster_rows() == self.clusters.clusters@,
                out@ == self.nodes@.subrange(0, i as int).filter(pred),
            decreases self.nodes@.len() - i,
        {
            let keep = node_matches(&filter, &self.nodes[i], &self.clusters.clusters);
            let ghost before = self.nodes@.subrange(0, i as int);
            let ghost after = self.nodes@.subrange(0, i + 1);
            proof {
                assert(after.drop_last() =~= before);
                assert(after.last() == self.nodes@[i as int]);
                reveal_with_fuel(Seq::filter, 1);
            }
            if keep {
                out.push(self.nodes[i].duplicate());
            }
            i = i + 1;
        }
        assert(self.nodes@.subrange(0, self.nodes@.len() as int) =~= self.nodes@);
        Ok(out)
    }

    fn get_node(&self, node_id: &Id) -> (r: Result<Node, RepositoryError>)
        ensures
            r is Ok <==> has_key(self.node_rows(), *node_id),
            r is Err ==> r == Err::<Node, RepositoryError>(RepositoryError::InvalidId),
    {
        match position(&self.nodes, *node_id) {
            Some(i) => {
                proof {
                    lemma_row_at(self.nodes@, i as int);
                }
                Ok(self.nodes[i].duplicate())
            },
            None => Err(RepositoryError::InvalidId),
        }
    }

    fn create_node(&mut self, node: &Node) -> (r: Result<Node, RepositoryError>)
        ensures
            r is Ok <==> !has_key(old(self).node_rows(), node.id),
            r is Err ==> r == Err::<Node, RepositoryError>(RepositoryError::AlreadyExists),
    {
        if position(&self.nodes, node.id).is_some() {
            return Err(RepositoryError::AlreadyExists);
        }
        let t = now();
        let n = Node {
            id: node.id,
            name: node.name.clone(),
            cluster_id: node.cluster_id,
            status: node.status,
            created_at: Some(t),
            updated_at: Some(t),
        };
        proof {
            lemma_push_new(self.nodes@, n);
        }
        self.nodes.push(n.duplicate());
        Ok(n)
    }

    fn update_node(&mut self, node: &Node) -> (r: Result<Node, RepositoryError>)
        ensures
            r is Ok <==> has_key(old(self).node_rows(), node.id),
            r is Err ==> r == Err::<Node, RepositoryError>(RepositoryError::DoesNotExist),
    {
        match position(&self.nodes, node.id) {
            None => Err(RepositoryError::DoesNotExist),
            Some(i) => {
                let n = Node {
                    id: node.id,
                    name: node.name.clone(),
                    cluster_id: node.cluster_id,
                    status: node.status,
                    created_at: self.nodes[i].created_at,
                    updated_at: Some(now()),
                };
                proof {
                    lemma_row_at(self.nodes@, i as int);
                    lemma_update_same_key(self.nodes@, i as int, n);
                }
                self.nodes[i] = n.duplicate();
                Ok(n)
            },
        }
    }

    fn delete_node(&mut self, node_id: &Id) -> (r: Result<Id, RepositoryError>)
        ensures
            r is Ok <==> has_key(old(self).node_rows(), *node_id),
            r is Err ==> r == Err::<Id, RepositoryError>(RepositoryError::DoesNotExist),
    {
        match position(&self.nodes, *node_id) {
            None => Err(RepositoryError::DoesNotExist),
            Some(i) => {
                proof {
                    lemma_remove_at(self.nodes@, i as int);
                }
                self.nodes.remove(i);
                Ok(*node_id)
            },
        }
    }

    fn create_operation(&mut self, operation: &Operation) -> (r: Result<Operation, RepositoryError>)
        ensures
            r is Ok <==> !has_key(old(self).operation_rows(), operation.id) && has_key(
                old(self).node_rows(),
                operation.node_id,
            ),
            has_key(old(self).operation_rows(), operation.id) ==> r == Err::<
                Operation,
                RepositoryError,
            >(RepositoryError::AlreadyExists),
            !has_key(old(self).operation_rows(), operation.id) && !has_key(
                old(self).node_rows(),
                operation.node_id,
            ) ==> r == Err::<Operation, RepositoryError>(RepositoryError::DoesNotExist),
    {
        if position(&self.operations, operation.id).is_some() {
            return Err(RepositoryError::AlreadyExists);
        }
        match position(&self.nodes, operation.node_id) {
            None => Err(RepositoryError::DoesNotExist),
            Some(i) => {
                let t = now();
                let o = Operation {
                    id: operation.id,
                    node_id: operation.node_id,
                    operation_type: operation.operation_type,
                    created_at: Some(t),
                    updated_at: Some(t),
                };
                let n = Node {
                    id: self.nodes[i].id,
                    name: self.nodes[i].name.clone(),
                    cluster_id: self.nodes[i].cluster_id,
                    status: operation.operation_type.target_status(),
                    created_at: self.nodes[i].created_at,
                    updated_at: Some(t),
                };
                proof {
                    lemma_row_at(self.nodes@, i as int);
                    lemma_update_same_key(self.nodes@, i as int, n);
                    lemma_push_new(self.operations@, o);
                    assert(n == with_status(self.nodes@[i as int], target_of(operation.operation_type), Some(t)));
                }
                self.nodes[i] = n;
                self.operations.push(o);
                Ok(o)
            },
        }
    }
}

} // verus!
