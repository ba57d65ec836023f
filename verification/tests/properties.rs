//! The stated properties of the decision core, exercised on concrete
//! values through the model-level entry points, plus the smaller pieces:
//! the comma split, the rendered names, and the payload errors.

use toleration_policy::{
    AdmissionRequest, Config, PayloadError, PodDocument, ProtectedToleration, Settings, Taint,
    Toleration, TolerationEntry, UserInfo, Workload, decide, eval, eval_request, validate_request,
};

fn entry(key: &str, operator: &str, value: Option<&str>) -> TolerationEntry {
    TolerationEntry {
        key: Some(String::from(key)),
        operator: Some(String::from(operator)),
        value: value.map(String::from),
        effect: Some(String::from("NoSchedule")),
    }
}

fn pod_with(tolerations: Option<Vec<TolerationEntry>>) -> Option<PodDocument> {
    Some(PodDocument { spec: Some(Workload { tolerations }) })
}

fn request(
    operation: &str,
    workload: Option<PodDocument>,
    username: &str,
    groups: Vec<&str>,
) -> AdmissionRequest {
    AdmissionRequest {
        operation: Some(String::from(operation)),
        workload,
        user_info: UserInfo {
            username: Some(String::from(username)),
            groups: Some(groups.into_iter().map(String::from).collect()),
        },
    }
}

fn dedicated_settings(allowed_users: Vec<&str>, allowed_groups: Vec<&str>) -> Settings {
    Settings {
        taint: Taint { key: String::from("dedicated"), value: String::from("tenantA") },
        allowed_users: allowed_users.into_iter().map(String::from).collect(),
        allowed_groups: allowed_groups.into_iter().map(String::from).collect(),
    }
}

#[test]
fn foreign_operation_is_always_accepted() {
    let tolerations = vec![entry("dedicated", "Exists", None)];
    let req = request("CONNECT", pod_with(Some(tolerations)), "nobody", vec![]);
    let cfg = dedicated_settings(vec![], vec![]);
    let verdict = validate_request(&req, &cfg);
    assert!(verdict.accepted);
    assert_eq!(verdict.message, None);
}

#[test]
fn delete_operation_is_accepted() {
    let tolerations = vec![entry("dedicated", "Equal", Some("tenantA"))];
    let req = request("DELETE", pod_with(Some(tolerations)), "nobody", vec![]);
    let cfg = dedicated_settings(vec![], vec![]);
    let verdict = validate_request(&req, &cfg);
    assert!(verdict.accepted);
    assert_eq!(verdict.message, None);
}

#[test]
fn unrecognized_object_is_accepted() {
    let req = request("CREATE", None, "nobody", vec![]);
    let cfg = dedicated_settings(vec!["alice"], vec!["power-users"]);
    let verdict = validate_request(&req, &cfg);
    assert!(verdict.accepted);
    assert_eq!(verdict.message, None);
}

#[test]
fn missing_toleration_list_is_accepted() {
    let req = request("CREATE", pod_with(None), "nobody", vec![]);
    let cfg = dedicated_settings(vec!["alice"], vec!["power-users"]);
    let verdict = validate_request(&req, &cfg);
    assert!(verdict.accepted);
    assert_eq!(verdict.message, None);
}

#[test]
fn empty_toleration_list_is_accepted() {
    let req = request("CREATE", pod_with(Some(vec![])), "nobody", vec![]);
    let cfg = dedicated_settings(vec!["alice"], vec!["power-users"]);
    let verdict = validate_request(&req, &cfg);
    assert!(verdict.accepted);
    assert_eq!(verdict.message, None);
}

#[test]
fn allowed_user_is_accepted() {
    let tolerations = vec![entry("dedicated", "Equal", Some("tenantA"))];
    let req = request("CREATE", pod_with(Some(tolerations)), "admin", vec![]);
    let cfg = dedicated_settings(vec!["admin"], vec![]);
    let verdict = validate_request(&req, &cfg);
    assert!(verdict.accepted);
    assert_eq!(verdict.message, None);
}

#[test]
fn exists_veto_ignores_the_allow_lists() {
    let tolerations = vec![entry("dedicated", "Exists", None)];
    let req = request("CREATE", pod_with(Some(tolerations)), "admin", vec!["power-users"]);
    let cfg = dedicated_settings(vec!["admin"], vec!["power-users"]);
    let verdict = validate_request(&req, &cfg);
    assert!(!verdict.accepted);
    assert_eq!(
        verdict.message,
        Some("Nobody can use the protected taint 'dedicated' with the operation 'Exists'".into()),
    );
}

#[test]
fn unauthorized_user_is_rejected_with_the_taint_named() {
    let tolerations = vec![entry("dedicated", "Equal", Some("tenantA"))];
    let req = request("CREATE", pod_with(Some(tolerations)), "admin", vec![]);
    let cfg = dedicated_settings(vec!["alice", "bob"], vec!["power-users"]);
    let verdict = validate_request(&req, &cfg);
    assert!(!verdict.accepted);
    assert_eq!(
        verdict.message,
        Some(
            "User not allowed to create Pods that tolerate the taint key: dedicated, value : tenantA"
                .into()
        ),
    );
}

#[test]
fn matching_group_is_accepted_before_the_user_check() {
    let tolerations = vec![entry("dedicated", "Equal", Some("tenantA"))];
    let req = request("CREATE", pod_with(Some(tolerations)), "admin", vec!["power-users"]);
    let cfg = dedicated_settings(vec![], vec!["power-users"]);
    let verdict = validate_request(&req, &cfg);
    assert!(verdict.accepted);
    assert_eq!(verdict.message, None);
}

#[test]
fn absent_groups_fall_back_to_the_user_check() {
    let tolerations = vec![entry("dedicated", "Equal", Some("tenantA"))];
    let req = AdmissionRequest {
        operation: Some(String::from("UPDATE")),
        workload: pod_with(Some(tolerations)),
        user_info: UserInfo { username: Some(String::from("admin")), groups: None },
    };
    let cfg = dedicated_settings(vec!["admin"], vec!["power-users"]);
    let verdict = validate_request(&req, &cfg);
    assert!(verdict.accepted);
    assert_eq!(verdict.message, None);
}

#[test]
fn strict_triple_matches_literally() {
    let tolerations = vec![entry("example-key", "Exists", None)];
    let req = request("CREATE", pod_with(Some(tolerations)), "nobody", vec![]);
    let cfg = Config {
        toleration: Toleration {
            effect: String::from("NoSchedule"),
            key: String::from("example-key"),
            operator: String::from("Exists"),
        },
        allowed_groups: None,
        allowed_users: None,
    };
    let verdict = eval_request(&req, &cfg);
    assert!(!verdict.accepted);
    assert_eq!(
        verdict.message,
        Some(
            "User not allowed to create Pod objects with toleration: key: example-key, operator: Exists, effect: NoSchedule)"
                .into()
        ),
    );
}

#[test]
fn strict_triple_does_not_match_on_effect_difference() {
    let mut toleration = entry("example-key", "Exists", None);
    toleration.effect = Some(String::from("NoExecute"));
    let req = request("CREATE", pod_with(Some(vec![toleration])), "nobody", vec![]);
    let cfg = Config {
        toleration: Toleration {
            effect: String::from("NoSchedule"),
            key: String::from("example-key"),
            operator: String::from("Exists"),
        },
        allowed_groups: None,
        allowed_users: None,
    };
    let verdict = eval_request(&req, &cfg);
    assert!(verdict.accepted);
    assert_eq!(verdict.message, None);
}

#[test]
fn first_matching_entry_settles_the_scan() {
    let tolerations = vec![
        entry("unrelated", "Equal", Some("other")),
        entry("dedicated", "Equal", Some("tenantB")),
        entry("dedicated", "Equal", Some("tenantA")),
    ];
    let req = request("CREATE", pod_with(Some(tolerations)), "admin", vec![]);
    let cfg = dedicated_settings(vec!["admin"], vec![]);
    let verdict = validate_request(&req, &cfg);
    assert!(verdict.accepted);
    assert_eq!(verdict.message, None);
}

#[test]
fn decide_takes_the_two_shapes_interchangeably() {
    let tolerations = vec![entry("dedicated", "Equal", Some("tenantA"))];
    let req = request("CREATE", pod_with(Some(tolerations)), "nobody", vec![]);
    let p = ProtectedToleration::KeyValue {
        key: String::from("dedicated"),
        value: String::from("tenantA"),
    };
    let verdict = decide(&req, &p, &vec![], &vec![]);
    assert!(!verdict.accepted);
}

#[test]
fn malformed_payload_is_a_fatal_error() {
    let cfg = Config {
        toleration: Toleration {
            effect: String::from("NoSchedule"),
            key: String::from("example-key"),
            operator: String::from("Exists"),
        },
        allowed_groups: None,
        allowed_users: None,
    };
    let result = eval("this is not json", &cfg);
    assert!(matches!(result, Err(PayloadError::Malformed)));
    let result = eval("{}", &cfg).unwrap();
    assert!(result.accepted);
    assert_eq!(result.message, None);
}

#[test]
fn equal_inputs_yield_equal_verdicts() {
    let raw = r#"{
      "operation": "CREATE",
      "object": {
        "kind": "Pod",
        "spec": {
          "containers": [{"image": "nginx", "name": "nginx"}],
          "tolerations": [{"effect": "NoSchedule", "key": "example-key", "operator": "Exists"}]
        }
      },
      "userInfo": {"username": "nobody", "groups": []}
    }"#;
    let cfg = Config {
        toleration: Toleration {
            effect: String::from("NoSchedule"),
            key: String::from("example-key"),
            operator: String::from("Exists"),
        },
        allowed_groups: Some(String::from("power-users")),
        allowed_users: Some(String::from("alice,bob")),
    };
    let first = eval(raw, &cfg).unwrap();
    let second = eval(raw, &cfg).unwrap();
    assert_eq!(first.accepted, second.accepted);
    assert_eq!(first.message, second.message);
    assert!(!first.accepted);
}

#[test]
fn allow_lists_are_split_at_every_comma() {
    let cfg = Config {
        toleration: Toleration {
            effect: String::from("NoSchedule"),
            key: String::from("example-key"),
            operator: String::from("Exists"),
        },
        allowed_groups: Some(String::from("system:masters,my-admin-group")),
        allowed_users: Some(String::from("")),
    };
    assert_eq!(
        cfg.allowed_groups(),
        vec![String::from("system:masters"), String::from("my-admin-group")],
    );
    assert_eq!(cfg.allowed_users(), vec![String::from("")]);

    let cfg = Config {
        toleration: Toleration {
            effect: String::from("NoSchedule"),
            key: String::from("k"),
            operator: String::from("Exists"),
        },
        allowed_groups: Some(String::from("a,")),
        allowed_users: None,
    };
    assert_eq!(cfg.allowed_groups(), vec![String::from("a"), String::from("")]);
    assert_eq!(cfg.allowed_users(), Vec::<String>::new());
}

#[test]
fn rendered_names_have_the_exact_shape() {
    let taint = Taint { key: String::from("dedicated"), value: String::from("tenantA") };
    assert_eq!(taint.display_string(), String::from("key: dedicated, value : tenantA"));
    let toleration = Toleration {
        effect: String::from("NoSchedule"),
        key: String::from("example-key"),
        operator: String::from("Exists"),
    };
    assert_eq!(
        toleration.display_string(),
        String::from("key: example-key, operator: Exists, effect: NoSchedule)"),
    );
}
