use buyu::error::ErrorKind;
use buyu::models::message::{MessageNodeRecord, VersionMeta};
use buyu::services::message_service::{check_version_in_node, plan_version_deletion};
use buyu::services::messages::{check_base_version, next_version_index, plan_version_removal, VersionRemoval, VersionSlot};
use buyu::services::versioning::check_version_index;

fn node(id: &str, active: Option<&str>) -> MessageNodeRecord {
    MessageNodeRecord {
        id: id.to_string(),
        conversation_id: "conv-1".to_string(),
        author_agent_id: None,
        role: "assistant".to_string(),
        order_key: "0001".to_string(),
        active_version_id: active.map(|value| value.to_string()),
        created_at: 1,
    }
}

fn version(id: &str, node_id: &str, status: &str) -> VersionMeta {
    VersionMeta {
        id: id.to_string(),
        node_id: node_id.to_string(),
        status: status.to_string(),
        model_name: None,
        prompt_tokens: None,
        completion_tokens: None,
        finish_reason: None,
        created_at: 1,
    }
}

#[test]
fn version_of_another_node_is_refused() {
    let n = node("node-1", Some("v1"));
    let v = version("v9", "node-2", "committed");
    let error = check_version_in_node(&n, &v).unwrap_err();
    assert_eq!(error.kind, ErrorKind::Validation);
    assert_eq!(error.code, "VERSION_NOT_IN_NODE");
    assert_eq!(error.message, "version does not belong to the node");
    let error = plan_version_deletion(&n, &v, &[v.clone()]).unwrap_err();
    assert_eq!(error.code, "VERSION_NOT_IN_NODE");
}

#[test]
fn version_of_the_node_is_accepted() {
    let n = node("node-1", Some("v1"));
    let v = version("v1", "node-1", "committed");
    assert!(check_version_in_node(&n, &v).is_ok());
}

#[test]
fn deleting_the_only_version_deletes_the_node() {
    let n = node("node-1", Some("v1"));
    let v = version("v1", "node-1", "generating");
    let plan = plan_version_deletion(&n, &v, &[v.clone()]).unwrap();
    assert!(plan.cancel_generation);
    assert!(!plan.restore_active);
    assert!(plan.result.node_deleted);
    assert_eq!(plan.result.new_active_version_id, None);
}

#[test]
fn deleting_the_active_version_falls_back_to_the_last_other_version() {
    let n = node("node-1", Some("v2"));
    let versions = vec![
        version("v1", "node-1", "committed"),
        version("v2", "node-1", "committed"),
        version("v3", "node-1", "committed"),
    ];
    let plan = plan_version_deletion(&n, &versions[1], &versions).unwrap();
    assert!(!plan.cancel_generation);
    assert!(plan.restore_active);
    assert!(!plan.result.node_deleted);
    assert_eq!(plan.result.new_active_version_id, Some("v3".to_string()));

    let plan = plan_version_deletion(&node("node-1", Some("v3")), &versions[2], &versions).unwrap();
    assert_eq!(plan.result.new_active_version_id, Some("v2".to_string()));
}

#[test]
fn deleting_an_inactive_version_keeps_the_active_one() {
    let n = node("node-1", Some("v1"));
    let versions = vec![version("v1", "node-1", "committed"), version("v2", "node-1", "failed")];
    let plan = plan_version_deletion(&n, &versions[1], &versions).unwrap();
    assert!(!plan.restore_active);
    assert!(!plan.result.node_deleted);
    assert_eq!(plan.result.new_active_version_id, Some("v1".to_string()));
}

#[test]
fn switching_needs_a_version_of_the_group() {
    assert!(check_version_index(1, 3).is_ok());
    assert!(check_version_index(3, 3).is_ok());
    let error = check_version_index(4, 3).unwrap_err();
    assert_eq!(error.message, "target version 4 is out of range 1..=3");
    let error = check_version_index(-1, 0).unwrap_err();
    assert_eq!(error.message, "target version -1 is out of range 1..=0");
}

fn slot(id: &str, index: i64, active: bool) -> VersionSlot {
    VersionSlot { id: id.to_string(), version_index: index, is_active: active }
}

#[test]
fn new_versions_are_numbered_after_the_highest() {
    assert_eq!(next_version_index(&[]), 1);
    assert_eq!(next_version_index(&[slot("a", 2, false), slot("b", 5, true), slot("c", 3, false)]), 6);
    assert!(check_base_version("n1", "n1").is_ok());
    assert_eq!(
        check_base_version("n1", "n2").unwrap_err().message,
        "base_version_id does not belong to node_id"
    );
}

#[test]
fn removing_a_version_hands_over_to_the_highest_other() {
    let versions = vec![slot("a", 1, false), slot("b", 3, false), slot("c", 3, false), slot("d", 2, true)];
    assert_eq!(
        plan_version_removal(&versions, "d").unwrap(),
        VersionRemoval::DeleteVersion { replacement: Some("c".to_string()) }
    );
    assert_eq!(
        plan_version_removal(&versions, "a").unwrap(),
        VersionRemoval::DeleteVersion { replacement: None }
    );
    assert_eq!(
        plan_version_removal(&[slot("a", 1, true)], "a").unwrap(),
        VersionRemoval::DeleteNode
    );
    let error = plan_version_removal(&versions, "z").unwrap_err();
    assert_eq!(error.message, "message_version 'z' not found");
}
