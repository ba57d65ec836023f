//! The embedded form: a request document decided under the permissive
//! key/value configuration.

use toleration_policy::{Settings, Taint, validate};

const REQ_POD_WITH_EQUAL_TOLERATION: &str = r#"{
  "operation": "CREATE",
  "object": {
    "apiVersion": "v1",
    "kind": "Pod",
    "metadata": {"name": "nginx"},
    "spec": {
      "containers": [{"image": "nginx", "name": "nginx"}],
      "tolerations": [
        {"effect": "NoSchedule", "key": "dedicated", "operator": "Equal", "value": "tenantA"},
        {"effect": "NoSchedule", "key": "example-key", "operator": "Equal", "value": "tenantA"}
      ]
    }
  },
  "userInfo": {
    "username": "kubernetes-admin",
    "groups": ["system:masters", "system:authenticated"]
  }
}"#;

const REQ_POD_WITH_EXISTS_TOLERATION: &str = r#"{
  "operation": "CREATE",
  "object": {
    "apiVersion": "v1",
    "kind": "Pod",
    "metadata": {"name": "nginx"},
    "spec": {
      "containers": [{"image": "nginx", "name": "nginx"}],
      "tolerations": [
        {"effect": "NoSchedule", "key": "dedicated", "operator": "Exists"}
      ]
    }
  },
  "userInfo": {
    "username": "kubernetes-admin",
    "groups": ["system:masters", "system:authenticated"]
  }
}"#;

const REQ_POD_WITHOUT_TOLERATION: &str = r#"{
  "operation": "CREATE",
  "object": {
    "apiVersion": "v1",
    "kind": "Pod",
    "metadata": {"name": "nginx"},
    "spec": {
      "containers": [{"image": "nginx", "name": "nginx"}]
    }
  },
  "userInfo": {
    "username": "kubernetes-admin",
    "groups": ["system:masters", "system:authenticated"]
  }
}"#;

const REQ_DELETE: &str = r#"{
  "operation": "DELETE",
  "object": {
    "apiVersion": "v1",
    "kind": "Pod",
    "metadata": {"name": "nginx"},
    "spec": {
      "containers": [{"image": "nginx", "name": "nginx"}],
      "tolerations": [
        {"effect": "NoSchedule", "key": "dedicated", "operator": "Equal", "value": "tenantA"}
      ]
    }
  },
  "userInfo": {
    "username": "kubernetes-admin",
    "groups": ["system:masters", "system:authenticated"]
  }
}"#;

const REQ_NOT_A_POD: &str = r#"{
  "operation": "CREATE",
  "object": {
    "apiVersion": "v1",
    "kind": "Namespace",
    "metadata": {"name": "tenant-a"},
    "spec": {"containers": "none"}
  },
  "userInfo": {
    "username": "kubernetes-admin",
    "groups": ["system:masters", "system:authenticated"]
  }
}"#;

fn request(raw: &str) -> serde_json::Value {
    serde_json::from_str(raw).unwrap()
}

fn settings(key: &str, value: &str, allowed_users: &str, allowed_groups: &str) -> Settings {
    Settings {
        taint: Taint { key: String::from(key), value: String::from(value) },
        allowed_users: allowed_users.split(',').map(String::from).collect(),
        allowed_groups: allowed_groups.split(',').map(String::from).collect(),
    }
}

#[test]
fn lib_allow_creation_because_of_matching_username() {
    let req = request(REQ_POD_WITH_EQUAL_TOLERATION);
    let cfg = settings("dedicated", "tenantA", "admin,kubernetes-admin", "");
    let result = validate(&req, &cfg);
    assert!(result.accepted);
    assert_eq!(result.message, None);
}

#[test]
fn lib_allow_creation_because_of_matching_group() {
    let req = request(REQ_POD_WITH_EQUAL_TOLERATION);
    let cfg = settings("example-key", "tenantA", "", "system:masters,my-admin-group");
    let result = validate(&req, &cfg);
    assert!(result.accepted);
    assert_eq!(result.message, None);
}

#[test]
fn lib_allow_creation_because_taint_is_not_tracked_by_policy() {
    let req = request(REQ_POD_WITH_EQUAL_TOLERATION);
    let cfg = settings("another-key", "another-value", "alice,bob", "power-users");
    let result = validate(&req, &cfg);
    assert!(result.accepted);
    assert_eq!(result.message, None);
}

#[test]
fn lib_allow_creation_because_pod_does_not_have_tolerations() {
    let req = request(REQ_POD_WITHOUT_TOLERATION);
    let cfg = settings("dedicated", "tenantA", "alice,bob", "power-users");
    let result = validate(&req, &cfg);
    assert!(result.accepted);
    assert_eq!(result.message, None);
}

#[test]
fn lib_reject_creation_because_of_not_allowed() {
    let req = request(REQ_POD_WITH_EQUAL_TOLERATION);
    let cfg = settings("dedicated", "tenantA", "alice,bob", "power-users");
    let result = validate(&req, &cfg);
    assert!(!result.accepted);
    assert_eq!(
        result.message,
        Some(
            "User not allowed to create Pods that tolerate the taint key: dedicated, value : tenantA"
                .into()
        ),
    );
}

#[test]
fn reject_creation_because_nobody_can_use_the_exists_toleration() {
    let req = request(REQ_POD_WITH_EXISTS_TOLERATION);
    let cfg = settings("dedicated", "tenantA", "alice,bob", "tenantB");
    let result = validate(&req, &cfg);
    assert!(!result.accepted);
    assert_eq!(
        result.message,
        Some("Nobody can use the protected taint 'dedicated' with the operation 'Exists'".into()),
    );

    let cfg = settings("dedicated", "tenantA", "alice,bob", "system:masters");
    let result = validate(&req, &cfg);
    assert!(!result.accepted);
    assert_eq!(
        result.message,
        Some("Nobody can use the protected taint 'dedicated' with the operation 'Exists'".into()),
    );
}

#[test]
fn lib_accept_because_delete_operation() {
    let req = request(REQ_DELETE);
    let cfg = settings("dedicated", "tenantA", "alice,bob", "power-users");
    let result = validate(&req, &cfg);
    assert!(result.accepted);
    assert_eq!(result.message, None);
}

#[test]
fn accept_because_not_a_pod_related_operation() {
    let req = request(REQ_NOT_A_POD);
    let cfg = settings("dedicated", "tenantA", "alice,bob", "power-users");
    let result = validate(&req, &cfg);
    assert!(result.accepted);
    assert_eq!(result.message, None);
}
