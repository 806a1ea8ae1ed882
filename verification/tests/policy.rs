use image_transfer::error::ImageError;
use image_transfer::policy::{
    container_policy_is_default_insecure, ContainerPolicy, PolicyEntry, INSECURE_ACCEPT_ANYTHING,
    POLICY_PATH,
};

// Default value as of the Fedora 34 containers-common-1-21.fc34.noarch package.
const DEFAULT_POLICY: &str = r#"{
    "default": [
        {
            "type": "insecureAcceptAnything"
        }
    ],
    "transports":
        {
            "docker-daemon":
                {
                    "": [{"type":"insecureAcceptAnything"}]
                }
        }
}
"#;

// Stripped down copy from the manual.
const REASONABLY_LOCKED_DOWN: &str = r#"{
    "default": [{"type": "reject"}],
    "transports": {
        "dir": {
            "": [{"type": "insecureAcceptAnything"}]
        },
        "atomic": {
            "hostname:5000/myns/official": [
                {
                    "type": "signedBy",
                    "keyType": "GPGKeys",
                    "keyPath": "/path/to/official-pubkey.gpg"
                }
            ]
        }
    }
}
"#;

#[test]
fn policy_is_insecure() {
    let p: ContainerPolicy = ContainerPolicy::parse(DEFAULT_POLICY).unwrap();
    assert!(p.is_default_insecure());
    for &v in &["{}", REASONABLY_LOCKED_DOWN] {
        let p: ContainerPolicy = ContainerPolicy::parse(v).unwrap();
        assert!(!p.is_default_insecure());
    }
}

fn audit(text: &str) -> Result<bool, ImageError> {
    container_policy_is_default_insecure(Ok(text.to_string()))
}

#[test]
fn audit_single_insecure_rule_is_insecure() {
    assert_eq!(audit(r#"{"default": [{"type": "insecureAcceptAnything"}]}"#), Ok(true));
    assert_eq!(audit(DEFAULT_POLICY), Ok(true));
}

#[test]
fn audit_empty_object_is_secure() {
    assert_eq!(audit("{}"), Ok(false));
}

#[test]
fn audit_reject_is_secure() {
    assert_eq!(audit(r#"{"default": [{"type": "reject"}]}"#), Ok(false));
    assert_eq!(audit(REASONABLY_LOCKED_DOWN), Ok(false));
}

#[test]
fn audit_more_than_one_rule_is_secure() {
    let two = r#"{"default": [{"type": "insecureAcceptAnything"}, {"type": "insecureAcceptAnything"}]}"#;
    assert_eq!(audit(two), Ok(false));
    let mixed = r#"{"default": [{"type": "insecureAcceptAnything"}, {"type": "reject"}]}"#;
    assert_eq!(audit(mixed), Ok(false));
}

#[test]
fn audit_no_rules_is_secure() {
    assert_eq!(audit(r#"{"default": []}"#), Ok(false));
    assert_eq!(audit(r#"{"default": null}"#), Ok(false));
    assert_eq!(audit(r#"{"transports": {}}"#), Ok(false));
}

#[test]
fn audit_only_reads_the_default_rules() {
    let text = r#"{"default": [{"type": "reject"}], "transports": {"docker": {"": [{"type": "insecureAcceptAnything"}]}}}"#;
    assert_eq!(audit(text), Ok(false));
}

#[test]
fn audit_ignores_other_members_of_a_rule() {
    let text = r#"{"default": [{"keyType": "GPGKeys", "type": "insecureAcceptAnything"}]}"#;
    assert_eq!(audit(text), Ok(true));
}

#[test]
fn audit_unreadable_document_is_a_read_error() {
    let r = container_policy_is_default_insecure(Err("No such file or directory".to_string()));
    assert_eq!(r, Err(ImageError::PolicyRead("No such file or directory".to_string())));
}

#[test]
fn audit_malformed_document_is_a_parse_error() {
    for text in [
        "",
        "not json",
        "{",
        "[]",
        "null",
        "\"default\"",
        r#"{"default": 5}"#,
        r#"{"default": {"type": "reject"}}"#,
        r#"{"default": ["reject"]}"#,
        r#"{"default": [{}]}"#,
        r#"{"default": [{"type": 5}]}"#,
        r#"{"default": [{"type": null}]}"#,
        r#"{"default": [{"type": "reject"}, {"kind": "reject"}]}"#,
    ] {
        assert_eq!(audit(text), Err(ImageError::PolicyParse(text.to_string())), "{}", text);
    }
}

#[test]
fn policy_parse_keeps_the_rules_in_order() {
    let p = ContainerPolicy::parse(r#"{"default": [{"type": "a"}, {"type": "b"}, {"type": "a"}]}"#)
        .unwrap();
    let want = ContainerPolicy {
        default: Some(vec![
            PolicyEntry { ty: "a".to_string() },
            PolicyEntry { ty: "b".to_string() },
            PolicyEntry { ty: "a".to_string() },
        ]),
    };
    assert_eq!(p, want);
    assert_eq!(ContainerPolicy::parse("{}").unwrap(), ContainerPolicy { default: None });
}

#[test]
fn policy_from_json_reads_a_value() {
    let v: serde_json::Value = serde_json::from_str(DEFAULT_POLICY).unwrap();
    let p = ContainerPolicy::from_json(&v).unwrap();
    assert!(p.is_default_insecure());
    assert!(ContainerPolicy::from_json(&serde_json::Value::Null).is_none());
    let entry = serde_json::from_str::<serde_json::Value>(r#"{"type": "reject"}"#).unwrap();
    assert_eq!(PolicyEntry::from_json(&entry), Some(PolicyEntry { ty: "reject".to_string() }));
    assert_eq!(PolicyEntry::from_json(&serde_json::Value::Bool(true)), None);
}

#[test]
fn is_default_insecure_on_built_policies() {
    let entry = |s: &str| PolicyEntry { ty: s.to_string() };
    assert!(ContainerPolicy { default: Some(vec![entry(INSECURE_ACCEPT_ANYTHING)]) }
        .is_default_insecure());
    assert!(!ContainerPolicy { default: None }.is_default_insecure());
    assert!(!ContainerPolicy { default: Some(vec![]) }.is_default_insecure());
    assert!(!ContainerPolicy { default: Some(vec![entry("insecureacceptanything")]) }
        .is_default_insecure());
    assert!(!ContainerPolicy {
        default: Some(vec![entry(INSECURE_ACCEPT_ANYTHING), entry(INSECURE_ACCEPT_ANYTHING)])
    }
    .is_default_insecure());
}

#[test]
fn policy_constants() {
    assert_eq!(POLICY_PATH, "/etc/containers/policy.json");
    assert_eq!(INSECURE_ACCEPT_ANYTHING, "insecureAcceptAnything");
}
