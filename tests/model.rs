use fleet_control::config::listen_address;
use fleet_control::repository::RepositoryError;
use fleet_control::service::{OperationServiceError, finish_submission};
use fleet_control::transaction::{Statement, TxAction, after_insert, after_update, storage_error};
use fleet_control::auth::{Action, Scope, admits, request_status, response_status, token_is_valid};
use fleet_control::entities::{DbNode, DbNodeStatus, DbOperation, DbOperationType};
use fleet_control::ids::{Id, Timestamp, fresh_id, now};
use fleet_control::models::{Node, NodeStatus, Operation, OperationType};

#[test]
fn target_status_mapping() {
    assert_eq!(OperationType::PowerOn.target_status(), NodeStatus::PowerOn);
    assert_eq!(OperationType::PowerOff.target_status(), NodeStatus::PowerOff);
    assert_eq!(OperationType::Reboot.target_status(), NodeStatus::Rebooting);
}

#[test]
fn new_operations_get_distinct_ids_and_no_instants() {
    let node_id = Id::from_u128(5);
    let a = Operation::new(node_id, OperationType::Reboot);
    let b = Operation::new(node_id, OperationType::Reboot);
    assert_ne!(a.id, b.id);
    assert_eq!(a.node_id, node_id);
    assert_eq!(a.operation_type, OperationType::Reboot);
    assert!(a.created_at.is_none());
    assert!(a.updated_at.is_none());
    assert_eq!(uuid::Uuid::from_u128(a.id.as_u128()).get_version_num(), 4);
}

#[test]
fn fresh_ids_and_clock() {
    assert_ne!(fresh_id(), fresh_id());
    let t = now();
    assert!(t.micros > 1_600_000_000_000_000);
    assert!(now().micros >= t.micros);
    assert_eq!(Timestamp::from_micros(3).micros, 3);
}

#[test]
fn guard_lets_through_only_the_token_on_guarded_scopes() {
    assert!(token_is_valid("im_a_valid_user"));
    assert!(!token_is_valid("im_a_valid_user "));
    assert!(!token_is_valid(""));
    for scope in [Scope::Clusters, Scope::Nodes, Scope::Operations] {
        assert!(!admits(scope, None));
        assert!(!admits(scope, Some("wrong")));
        assert!(admits(scope, Some("im_a_valid_user")));
    }
    for scope in [Scope::Health, Scope::Features] {
        assert!(admits(scope, None));
        assert!(admits(scope, Some("wrong")));
        assert_eq!(request_status(scope, None, Action::Probe, true), 200);
    }
}

#[test]
fn status_codes() {
    assert_eq!(response_status(Action::List, false), 500);
    assert_eq!(response_status(Action::List, true), 200);
    assert_eq!(response_status(Action::Fetch, false), 404);
    assert_eq!(response_status(Action::Update, false), 404);
    assert_eq!(response_status(Action::Update, true), 200);
    assert_eq!(response_status(Action::Create, false), 500);
    assert_eq!(response_status(Action::Delete, false), 500);
    assert_eq!(response_status(Action::Delete, true), 200);
    assert_eq!(response_status(Action::Submit, false), 500);
    assert_eq!(response_status(Action::Probe, false), 200);
}

#[test]
fn row_conversions() {
    assert_eq!(DbOperationType::from(OperationType::Reboot), DbOperationType::Reboot);
    assert_eq!(OperationType::from(DbOperationType::PowerOff), OperationType::PowerOff);
    assert_eq!(DbNodeStatus::from(NodeStatus::Rebooting), DbNodeStatus::Rebooting);
    assert_eq!(NodeStatus::from(DbNodeStatus::PowerOn), NodeStatus::PowerOn);
    let op = Operation {
        id: Id::from_u128(1),
        node_id: Id::from_u128(2),
        operation_type: OperationType::PowerOff,
        created_at: Some(Timestamp::from_micros(10)),
        updated_at: None,
    };
    let row = DbOperation::from(op);
    assert_eq!(row.operation_type, DbOperationType::PowerOff);
    assert_eq!(Operation::from(row), op);
    let node = Node {
        id: Id::from_u128(3),
        name: "box".to_string(),
        cluster_id: Id::from_u128(4),
        status: NodeStatus::Rebooting,
        created_at: None,
        updated_at: Some(Timestamp::from_micros(11)),
    };
    let row = DbNode::from(node);
    assert_eq!(row.status, DbNodeStatus::Rebooting);
    let back = Node::from(row);
    assert_eq!(back.name, "box");
    assert_eq!(back.status, NodeStatus::Rebooting);
    assert_eq!(back.updated_at, Some(Timestamp::from_micros(11)));
}

#[test]
fn listen_address_defaults_to_8080() {
    assert_eq!(listen_address(None), "127.0.0.1:8080");
    assert_eq!(listen_address(Some("9000".to_string())), "127.0.0.1:9000");
}

#[test]
fn storage_errors_by_statement() {
    assert!(matches!(storage_error(Statement::Get, "x".to_string()), RepositoryError::InvalidId));
    assert!(matches!(storage_error(Statement::Insert, "x".to_string()), RepositoryError::AlreadyExists));
    assert!(matches!(storage_error(Statement::Update, "x".to_string()), RepositoryError::DoesNotExist));
    assert!(matches!(storage_error(Statement::Delete, "x".to_string()), RepositoryError::DoesNotExist));
    match storage_error(Statement::List, "pool timed out".to_string()) {
        RepositoryError::Generic(d) => assert_eq!(d, "pool timed out"),
        other => panic!("unexpected {:?}", other),
    }
}

#[test]
fn transaction_commits_only_after_insert_and_update() {
    let op = Operation::new(Id::from_u128(9), OperationType::Reboot);
    let mut stored = op;
    stored.created_at = Some(Timestamp::from_micros(1));
    match after_insert(&op, Ok(stored)) {
        TxAction::UpdateNode { node_id, status, inserted } => {
            assert_eq!(node_id, op.node_id);
            assert_eq!(status, NodeStatus::Rebooting);
            assert_eq!(inserted, stored);
        }
        other => panic!("unexpected {:?}", other),
    }
    match after_insert(&op, Err("duplicate key".to_string())) {
        TxAction::Rollback(RepositoryError::Generic(d)) => assert_eq!(d, "duplicate key"),
        other => panic!("unexpected {:?}", other),
    }
    match after_update(stored, Ok(1)) {
        TxAction::Commit(o) => assert_eq!(o, stored),
        other => panic!("unexpected {:?}", other),
    }
    assert!(matches!(after_update(stored, Ok(0)), TxAction::Rollback(RepositoryError::DoesNotExist)));
    assert!(matches!(after_update(stored, Err("lost".to_string())), TxAction::Rollback(RepositoryError::Generic(_))));
}

#[test]
fn finish_submission_passes_storage_errors_through() {
    let op = Operation::new(Id::from_u128(9), OperationType::PowerOn);
    assert_eq!(finish_submission(Ok(op)).unwrap(), op);
    assert!(matches!(
        finish_submission(Err(RepositoryError::DoesNotExist)),
        Err(OperationServiceError::RepositoryError(RepositoryError::DoesNotExist))
    ));
}
