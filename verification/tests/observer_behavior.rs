use sero::endpoint_watcher::{
    serving_endpoints, EndpointCount, EndpointModel, EndpointWatcher, PortModel, SliceEvent,
    SliceModel,
};
use sero::labels::Label;

fn label(key: &str, value: &str) -> Label {
    Label { key: key.to_string(), value: value.to_string() }
}

fn slice(name: &str, labels: Vec<Label>, port_names: Option<Vec<Option<&str>>>, serving: Vec<bool>) -> SliceModel {
    SliceModel {
        name: name.to_string(),
        labels,
        ports: port_names.map(|ns| {
            ns.into_iter().map(|n| PortModel { name: n.map(|s| s.to_string()) }).collect()
        }),
        endpoints: serving.into_iter().map(|s| EndpointModel { serving: s }).collect(),
    }
}

fn workload_slice(name: &str, svc: &str, serving: Vec<bool>) -> SliceModel {
    slice(
        name,
        vec![label("kubernetes.io/service-name", svc)],
        Some(vec![Some("http")]),
        serving,
    )
}

fn gateway_slice(name: &str, svc: &str, serving: Vec<bool>) -> SliceModel {
    slice(
        name,
        vec![
            label("kubernetes.io/service-name", svc),
            label("sero.rs/service-name", svc),
        ],
        Some(vec![Some("http")]),
        serving,
    )
}

#[test]
fn counts_split_workload_and_gateway() {
    let svc = "demo".to_string();
    let port = "http".to_string();
    let slices = vec![
        workload_slice("a", "demo", vec![true, true, false]),
        gateway_slice("b", "demo", vec![true]),
        workload_slice("c", "demo", vec![false]),
    ];
    let c = serving_endpoints(&slices, &svc, &port);
    assert_eq!(c, EndpointCount { workload: 2, gateway: 1 });
}

#[test]
fn slice_without_resolved_port_does_not_count() {
    let svc = "demo".to_string();
    let port = "http".to_string();
    let slices = vec![
        slice("a", vec![label("kubernetes.io/service-name", "demo")], Some(vec![Some("metrics")]), vec![true]),
        slice("b", vec![label("kubernetes.io/service-name", "demo")], None, vec![true]),
        slice("c", vec![label("kubernetes.io/service-name", "demo")], Some(vec![None]), vec![true]),
    ];
    let c = serving_endpoints(&slices, &svc, &port);
    assert_eq!(c, EndpointCount { workload: 0, gateway: 0 });
}

#[test]
fn gateway_label_for_another_service_counts_as_workload() {
    let svc = "demo".to_string();
    let port = "http".to_string();
    let slices = vec![slice(
        "a",
        vec![
            label("kubernetes.io/service-name", "demo"),
            label("sero.rs/service-name", "other"),
        ],
        Some(vec![Some("http")]),
        vec![true],
    )];
    let c = serving_endpoints(&slices, &svc, &port);
    assert_eq!(c, EndpointCount { workload: 1, gateway: 0 });
}

#[test]
fn empty_cache_counts_nothing() {
    let svc = "demo".to_string();
    let port = "http".to_string();
    let c = serving_endpoints(&Vec::new(), &svc, &port);
    assert_eq!(c, EndpointCount { workload: 0, gateway: 0 });
    assert!(!c.backend_is_serving());
    assert!(!c.sero_is_serving());
}

#[test]
fn published_count_follows_the_cache() {
    let mut w = EndpointWatcher::new("demo".to_string(), "http".to_string());
    assert_eq!(w.published, EndpointCount { workload: 0, gateway: 0 });

    let changed = w.handle_event(SliceEvent::Applied(workload_slice("a", "demo", vec![true])));
    assert!(changed);
    assert_eq!(w.published, EndpointCount { workload: 1, gateway: 0 });
    assert!(w.backend_is_serving());
    assert!(!w.sero_is_serving());

    let changed = w.handle_event(SliceEvent::Applied(gateway_slice("b", "demo", vec![true])));
    assert!(changed);
    assert_eq!(w.published, EndpointCount { workload: 1, gateway: 1 });

    let changed = w.handle_event(SliceEvent::Deleted("a".to_string()));
    assert!(changed);
    assert_eq!(w.published, EndpointCount { workload: 0, gateway: 1 });
}

#[test]
fn unchanged_count_is_not_republished() {
    let mut w = EndpointWatcher::new("demo".to_string(), "http".to_string());
    let changed = w.handle_event(SliceEvent::Applied(workload_slice("a", "demo", vec![true])));
    assert!(changed);
    // the same slice observed again: same classification, no publication
    let changed = w.handle_event(SliceEvent::Applied(workload_slice("a", "demo", vec![true])));
    assert!(!changed);
    // an endpoint flips from serving to not serving within the slice
    let changed =
        w.handle_event(SliceEvent::Applied(workload_slice("a", "demo", vec![false])));
    assert!(changed);
    assert_eq!(w.published, EndpointCount { workload: 0, gateway: 0 });
}

#[test]
fn modified_slice_replaces_its_cache_entry() {
    let mut w = EndpointWatcher::new("demo".to_string(), "http".to_string());
    w.handle_event(SliceEvent::Applied(workload_slice("a", "demo", vec![true])));
    w.handle_event(SliceEvent::Applied(workload_slice("a", "demo", vec![true, true])));
    assert_eq!(w.published, EndpointCount { workload: 2, gateway: 0 });
    assert_eq!(w.slices.len(), 1);
}

#[test]
fn deleting_an_unknown_slice_changes_nothing() {
    let mut w = EndpointWatcher::new("demo".to_string(), "http".to_string());
    w.handle_event(SliceEvent::Applied(workload_slice("a", "demo", vec![true])));
    let changed = w.handle_event(SliceEvent::Deleted("b".to_string()));
    assert!(!changed);
    assert_eq!(w.published, EndpointCount { workload: 1, gateway: 0 });
}
