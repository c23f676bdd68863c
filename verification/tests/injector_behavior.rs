use sero::injector::{
    build_gateway_slice, eject_patch, escape_pointer_token, inject_patch, is_ipv4_address,
    label_pointer, BootstrapError, LabelPatch, PodIdentity,
};
use sero::labels::{add_label, gateway_selector, has_label_key, remove_label, service_selector, Label};

fn label(key: &str, value: &str) -> Label {
    Label { key: key.to_string(), value: value.to_string() }
}

fn keys_and_values(ls: &[Label]) -> Vec<(String, String)> {
    ls.iter().map(|l| (l.key.clone(), l.value.clone())).collect()
}

#[test]
fn pointer_escaping_follows_the_json_pointer_rules() {
    assert_eq!(escape_pointer_token("plain"), "plain");
    assert_eq!(escape_pointer_token("a/b"), "a~1b");
    assert_eq!(escape_pointer_token("a~b"), "a~0b");
    assert_eq!(escape_pointer_token("~/"), "~0~1");
    assert_eq!(escape_pointer_token(""), "");
    assert_eq!(
        escape_pointer_token("kubernetes.io/service-name"),
        "kubernetes.io~1service-name"
    );
}

#[test]
fn label_pointer_escapes_the_slash_in_the_key() {
    assert_eq!(
        label_pointer("kubernetes.io/service-name"),
        "/metadata/labels/kubernetes.io~1service-name"
    );
}

#[test]
fn inject_patch_adds_the_routing_label() {
    let p = inject_patch(&"demo".to_string());
    match p {
        LabelPatch::Add { path, value } => {
            assert_eq!(path, "/metadata/labels/kubernetes.io~1service-name");
            assert_eq!(value, "demo");
        },
        LabelPatch::Remove { .. } => panic!("inject must add the label"),
    }
}

#[test]
fn eject_patch_removes_the_routing_label() {
    let p = eject_patch();
    match p {
        LabelPatch::Remove { path } => {
            assert_eq!(path, "/metadata/labels/kubernetes.io~1service-name");
        },
        LabelPatch::Add { .. } => panic!("eject must remove the label"),
    }
}

#[test]
fn selectors_name_the_label_keys() {
    assert_eq!(service_selector(&"demo".to_string()), "kubernetes.io/service-name=demo");
    assert_eq!(gateway_selector(&"demo".to_string()), "sero.rs/service-name=demo");
}

#[test]
fn inject_then_eject_restores_the_label_set() {
    let key = "kubernetes.io/service-name".to_string();
    let before = vec![label("sero.rs/service-name", "demo"), label("team", "infra")];
    assert!(!has_label_key(&before, &key));
    let injected = add_label(&before, &key, &"demo".to_string());
    assert!(has_label_key(&injected, &key));
    let ejected = remove_label(&injected, &key);
    assert_eq!(keys_and_values(&ejected), keys_and_values(&before));
}

#[test]
fn adding_an_existing_key_replaces_its_value() {
    let key = "kubernetes.io/service-name".to_string();
    let before = vec![label("kubernetes.io/service-name", "old"), label("team", "infra")];
    let after = add_label(&before, &key, &"new".to_string());
    let kv = keys_and_values(&after);
    assert_eq!(kv.len(), 2);
    assert!(kv.contains(&("kubernetes.io/service-name".to_string(), "new".to_string())));
    assert!(kv.contains(&("team".to_string(), "infra".to_string())));
}

#[test]
fn ipv4_accepts_strict_dotted_quads() {
    assert!(is_ipv4_address("0.0.0.0"));
    assert!(is_ipv4_address("10.0.42.1"));
    assert!(is_ipv4_address("255.255.255.255"));
    assert!(is_ipv4_address("192.168.0.1"));
}

#[test]
fn ipv4_rejects_everything_else() {
    assert!(!is_ipv4_address(""));
    assert!(!is_ipv4_address("1.2.3"));
    assert!(!is_ipv4_address("1.2.3.4.5"));
    assert!(!is_ipv4_address("256.1.1.1"));
    assert!(!is_ipv4_address("01.2.3.4"));
    assert!(!is_ipv4_address("1.2.3.04"));
    assert!(!is_ipv4_address("a.b.c.d"));
    assert!(!is_ipv4_address("1..2.3"));
    assert!(!is_ipv4_address("fe80::1"));
    assert!(!is_ipv4_address("1.2.3.4 "));
}

fn pod() -> PodIdentity {
    PodIdentity {
        name: "sero-0".to_string(),
        namespace: Some("default".to_string()),
        uid: Some("abc-123".to_string()),
        pod_ips: Some(vec![
            "10.0.0.7".to_string(),
            "fe80::1".to_string(),
            "10.0.0.8".to_string(),
        ]),
    }
}

#[test]
fn gateway_slice_is_built_from_the_pod_identity() {
    let g = build_gateway_slice(&pod(), &"demo".to_string(), &"http".to_string(), 8080)
        .expect("identity is complete");
    assert_eq!(g.generate_name, "demo-sero-");
    assert_eq!(g.namespace, "default");
    assert_eq!(g.owner_name, "sero-0");
    assert_eq!(g.owner_uid, "abc-123");
    assert_eq!(g.addresses, vec!["10.0.0.7", "10.0.0.8"]);
    assert_eq!(g.port_name, "http");
    assert_eq!(g.port_number, 8080);
    assert_eq!(
        keys_and_values(&g.labels),
        vec![
            ("kubernetes.io/service-name".to_string(), "demo".to_string()),
            ("sero.rs/service-name".to_string(), "demo".to_string()),
        ]
    );
}

#[test]
fn missing_identity_is_a_bootstrap_error() {
    let mut p = pod();
    p.uid = None;
    assert_eq!(
        build_gateway_slice(&p, &"demo".to_string(), &"http".to_string(), 8080).unwrap_err(),
        BootstrapError::MissingUid
    );
    let mut p = pod();
    p.namespace = None;
    assert_eq!(
        build_gateway_slice(&p, &"demo".to_string(), &"http".to_string(), 8080).unwrap_err(),
        BootstrapError::MissingNamespace
    );
    let mut p = pod();
    p.pod_ips = None;
    assert_eq!(
        build_gateway_slice(&p, &"demo".to_string(), &"http".to_string(), 8080).unwrap_err(),
        BootstrapError::MissingPodIps
    );
}
