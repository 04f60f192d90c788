use fleet_control::auth::{Action, Scope, request_status, response_status};
use fleet_control::filter::{contains_substring, node_matches};
use fleet_control::ids::Id;
use fleet_control::memory::MemoryNodeRepository;
use fleet_control::models::{Cluster, Node, NodeStatus};
use fleet_control::repository::{ClusterRepository, NodeFilter, NodeRepository, RepositoryError, patch_node_status};

const NODE_NAME: &str = "NODE_NAME";
const VALID: &str = "im_a_valid_user";

fn random_id() -> Id {
    Id::from_u128(uuid::Uuid::new_v4().as_u128())
}

fn create_test_node(node_id: Id, name: String, cluster_id: Id) -> Node {
    Node {
        id: node_id,
        name,
        cluster_id,
        status: NodeStatus::PowerOn,
        created_at: None,
        updated_at: None,
    }
}

fn filter(name: &str) -> Option<NodeFilter> {
    Some(NodeFilter { name: name.to_string() })
}

/// A store with one cluster named `cluster_name` and one node in it.
fn prepare_repo(node_id: Id, node_name: &str, cluster_name: &str) -> MemoryNodeRepository {
    let cluster_id = random_id();
    let mut repo = MemoryNodeRepository::new();
    repo.create_cluster(&Cluster {
        id: cluster_id,
        name: cluster_name.to_string(),
        created_at: None,
        updated_at: None,
    })
    .unwrap();
    repo.create_node(&create_test_node(node_id, node_name.to_string(), cluster_id)).unwrap();
    repo
}

#[test]
fn get_all_work_without_filter() {
    let repo = prepare_repo(random_id(), NODE_NAME, "cluster");
    let res = repo.get_nodes(None);
    assert_eq!(response_status(Action::List, res.is_ok()), 200);
    let nodes = res.unwrap();
    assert_eq!(nodes.len(), 1);
    assert_eq!(nodes[0].name, NODE_NAME);
}

#[test]
fn get_all_returns_filter_is_ok() {
    let repo = prepare_repo(random_id(), NODE_NAME, "cluster");
    let res = repo.get_nodes(filter("NODE"));
    assert_eq!(response_status(Action::List, res.is_ok()), 200);
    let nodes = res.unwrap();
    assert_eq!(nodes.len(), 1);
    assert_eq!(nodes[0].name, NODE_NAME);
}

#[test]
fn get_all_does_not_return_filter_is_not_ok() {
    let repo = prepare_repo(random_id(), NODE_NAME, "cluster");
    let nodes = repo.get_nodes(filter("other")).unwrap();
    assert!(nodes.is_empty());
}

#[test]
fn get_all_without_filter_integration_works() {
    let repo = prepare_repo(random_id(), NODE_NAME, "cluster");
    let res = repo.get_nodes(None);
    assert_eq!(request_status(Scope::Nodes, Some(VALID), Action::List, res.is_ok()), 200);
    assert_eq!(res.unwrap()[0].name, NODE_NAME);
}

#[test]
fn get_all_without_filter_integration_fails_if_no_authentication() {
    assert_eq!(request_status(Scope::Nodes, None, Action::List, true), 401);
}

#[test]
fn get_all_filter_integration_works() {
    let repo = prepare_repo(random_id(), NODE_NAME, "cluster");
    let res = repo.get_nodes(filter("NODE"));
    assert_eq!(request_status(Scope::Nodes, Some(VALID), Action::List, res.is_ok()), 200);
    assert_eq!(res.unwrap()[0].name, NODE_NAME);
}

#[test]
fn get_all_filter_integration_fails_if_no_authentication() {
    assert_eq!(request_status(Scope::Nodes, None, Action::List, true), 401);
}

#[test]
fn get_all_wrong_filter_integration_works() {
    let repo = prepare_repo(random_id(), NODE_NAME, "cluster");
    let res = repo.get_nodes(filter("other"));
    assert_eq!(request_status(Scope::Nodes, Some(VALID), Action::List, res.is_ok()), 200);
    assert!(res.unwrap().is_empty());
}

#[test]
fn get_all_wrong_filter_integration_fails_if_no_authentication() {
    assert_eq!(request_status(Scope::Nodes, None, Action::List, true), 401);
}

#[test]
fn nodes_get_works() {
    let node_id = random_id();
    let repo = prepare_repo(node_id, NODE_NAME, "cluster");
    let res = repo.get_node(&node_id);
    assert_eq!(response_status(Action::Fetch, res.is_ok()), 200);
    let node = res.unwrap();
    assert_eq!(node.name, NODE_NAME);
}

#[test]
fn nodes_get_integration_works() {
    let node_id = random_id();
    let repo = prepare_repo(node_id, NODE_NAME, "cluster");
    let res = repo.get_node(&node_id);
    assert!(res.is_ok());
    assert_eq!(request_status(Scope::Nodes, Some(VALID), Action::Fetch, res.is_ok()), 200);
    assert_eq!(res.unwrap().name, NODE_NAME);
}

#[test]
fn nodes_get_integration_fails_if_no_authentication() {
    assert_eq!(request_status(Scope::Nodes, None, Action::Fetch, true), 401);
}

#[test]
fn nodes_create_works() {
    let mut repo = MemoryNodeRepository::new();
    let res = repo.create_node(&create_test_node(random_id(), NODE_NAME.to_string(), random_id()));
    assert_eq!(response_status(Action::Create, res.is_ok()), 201);
}

#[test]
fn nodes_create_integration_works() {
    let mut repo = MemoryNodeRepository::new();
    let res = repo.create_node(&create_test_node(random_id(), NODE_NAME.to_string(), random_id()));
    assert_eq!(request_status(Scope::Nodes, Some(VALID), Action::Create, res.is_ok()), 201);
    assert_eq!(res.unwrap().name, NODE_NAME);
}

#[test]
fn nodes_create_integration_fails_if_no_authentication() {
    assert_eq!(request_status(Scope::Nodes, None, Action::Create, true), 401);
}

#[test]
fn nodes_update_works() {
    let node_id = random_id();
    let mut repo = prepare_repo(node_id, NODE_NAME, "cluster");
    let mut node = repo.get_node(&node_id).unwrap();
    node.status = NodeStatus::PowerOff;
    let res = repo.update_node(&node);
    assert_eq!(response_status(Action::Update, res.is_ok()), 200);
    assert_eq!(res.unwrap().status, NodeStatus::PowerOff);
}

#[test]
fn nodes_update_integration_works() {
    let node_id = random_id();
    let mut repo = prepare_repo(node_id, NODE_NAME, "cluster");
    let node = repo.get_node(&node_id).unwrap();
    let res = repo.update_node(&node);
    assert_eq!(request_status(Scope::Nodes, Some(VALID), Action::Update, res.is_ok()), 200);
    assert_eq!(res.unwrap().name, NODE_NAME);
}

#[test]
fn nodes_update_integration_fails_if_no_authentication() {
    assert_eq!(request_status(Scope::Nodes, None, Action::Update, true), 401);
}

#[test]
fn nodes_delete_works() {
    let node_id = random_id();
    let mut repo = prepare_repo(node_id, NODE_NAME, "cluster");
    let res = repo.delete_node(&node_id);
    assert_eq!(response_status(Action::Delete, res.is_ok()), 200);
}

#[test]
fn nodes_delete_integration_works() {
    let node_id = random_id();
    let mut repo = prepare_repo(node_id, NODE_NAME, "cluster");
    let res = repo.delete_node(&node_id);
    assert_eq!(request_status(Scope::Nodes, Some(VALID), Action::Delete, res.is_ok()), 200);
    assert_eq!(res.unwrap(), node_id);
}

#[test]
fn nodes_delete_integration_fails_if_no_authentication() {
    assert_eq!(request_status(Scope::Nodes, None, Action::Delete, true), 401);
}

#[test]
fn filter_matches_cluster_name() {
    let node_id = random_id();
    let repo = prepare_repo(node_id, "box", "alpha");
    let nodes = repo.get_nodes(filter("alph")).unwrap();
    assert_eq!(nodes.len(), 1);
    assert_eq!(nodes[0].id, node_id);
    assert_eq!(nodes[0].name, "box");
}

#[test]
fn filter_is_case_sensitive_and_needs_a_stored_cluster() {
    let repo = prepare_repo(random_id(), "box", "alpha");
    assert!(repo.get_nodes(filter("ALPH")).unwrap().is_empty());
    assert_eq!(repo.get_nodes(filter("")).unwrap().len(), 1);
    let mut orphan_repo = MemoryNodeRepository::new();
    orphan_repo.create_node(&create_test_node(random_id(), "box".to_string(), random_id())).unwrap();
    assert!(orphan_repo.get_nodes(filter("box")).unwrap().is_empty());
    assert_eq!(orphan_repo.get_nodes(None).unwrap().len(), 1);
}

#[test]
fn filter_keeps_table_order() {
    let cluster_id = random_id();
    let mut repo = MemoryNodeRepository::new();
    repo.create_cluster(&Cluster { id: cluster_id, name: "c".to_string(), created_at: None, updated_at: None }).unwrap();
    for (k, name) in ["web-1", "db-1", "web-2"].iter().enumerate() {
        repo.create_node(&create_test_node(Id::from_u128(k as u128 + 1), name.to_string(), cluster_id)).unwrap();
    }
    let names: Vec<String> = repo.get_nodes(filter("web")).unwrap().into_iter().map(|n| n.name).collect();
    assert_eq!(names, vec!["web-1".to_string(), "web-2".to_string()]);
}

#[test]
fn substring_search() {
    assert!(contains_substring("alpha", "alph"));
    assert!(contains_substring("alpha", "pha"));
    assert!(contains_substring("alpha", ""));
    assert!(contains_substring("", ""));
    assert!(!contains_substring("alpha", "alphas"));
    assert!(!contains_substring("alpha", "ah"));
    assert!(contains_substring("größe", "öß"));
}

#[test]
fn node_matches_without_filter_or_by_name() {
    let clusters = vec![Cluster { id: Id::from_u128(1), name: "alpha".to_string(), created_at: None, updated_at: None }];
    let node = create_test_node(Id::from_u128(2), "box".to_string(), Id::from_u128(1));
    assert!(node_matches(&None, &node, &clusters));
    assert!(node_matches(&filter("bo"), &node, &clusters));
    assert!(node_matches(&filter("lph"), &node, &clusters));
    assert!(!node_matches(&filter("zzz"), &node, &clusters));
}

#[test]
fn node_errors_by_kind_and_fidelity() {
    let n1 = Id::from_u128(0x11);
    let c1 = Id::from_u128(0xC1);
    let mut repo = MemoryNodeRepository::new();
    assert!(matches!(repo.get_node(&n1), Err(RepositoryError::InvalidId)));
    assert!(matches!(repo.update_node(&create_test_node(n1, "a".to_string(), c1)), Err(RepositoryError::DoesNotExist)));
    assert!(matches!(repo.delete_node(&n1), Err(RepositoryError::DoesNotExist)));
    let mut input = create_test_node(n1, "box".to_string(), c1);
    input.status = NodeStatus::Rebooting;
    let created = repo.create_node(&input).unwrap();
    assert!(created.created_at.is_some());
    assert!(created.updated_at.is_some());
    assert!(matches!(repo.create_node(&input), Err(RepositoryError::AlreadyExists)));
    let fetched = repo.get_node(&n1).unwrap();
    assert_eq!(fetched.id, n1);
    assert_eq!(fetched.name, "box");
    assert_eq!(fetched.cluster_id, c1);
    assert_eq!(fetched.status, NodeStatus::Rebooting);
}

#[test]
fn patch_sets_status_and_keeps_the_rest() {
    let node_id = random_id();
    let mut repo = prepare_repo(node_id, "box", "alpha");
    let before = repo.get_node(&node_id).unwrap();
    let res = patch_node_status(&mut repo, node_id, NodeStatus::Rebooting);
    assert_eq!(response_status(Action::Update, res.is_ok()), 200);
    let patched = res.unwrap();
    assert_eq!(patched.status, NodeStatus::Rebooting);
    assert_eq!(patched.name, "box");
    assert_eq!(patched.cluster_id, before.cluster_id);
    assert_eq!(patched.created_at, before.created_at);
    assert_eq!(repo.get_node(&node_id).unwrap().status, NodeStatus::Rebooting);
    let unknown = random_id();
    assert!(matches!(patch_node_status(&mut repo, unknown, NodeStatus::PowerOff), Err(RepositoryError::InvalidId)));
    assert_eq!(response_status(Action::Update, false), 404);
}
