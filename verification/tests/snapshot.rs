use podwatch::app::state::pods::Pod;
use podwatch::k8s::order::sort_by_name;
use podwatch::k8s::reflector::{Event, Snapshot};
use podwatch::k8s::{ObjectMeta, Resource};
use std::sync::Arc;

fn pod(namespace: Option<&str>, name: &str, uid: &str) -> Arc<Pod> {
    Arc::new(Pod {
        metadata: ObjectMeta {
            name: Some(name.to_string()),
            generate_name: None,
            namespace: namespace.map(|n| n.to_string()),
            uid: Some(uid.to_string()),
            creation_timestamp: None,
            deletion_timestamp: None,
        },
        status: None,
    })
}

fn uids(snapshot: &Snapshot<Pod>) -> Vec<(String, String)> {
    let mut seen: Vec<(String, String)> = snapshot
        .state()
        .iter()
        .map(|p| (p.metadata.name_any(), p.metadata.uid.clone().unwrap_or_default()))
        .collect();
    seen.sort();
    seen
}

fn pair(name: &str, uid: &str) -> (String, String) {
    (name.to_string(), uid.to_string())
}

#[test]
fn new_snapshot_is_empty() {
    let snapshot: Snapshot<Pod> = Snapshot::new();
    assert!(snapshot.state().is_empty());
}

#[test]
fn added_inserts_and_replaces() {
    let mut snapshot = Snapshot::new();
    snapshot.apply(Event::Added(pod(Some("a"), "x", "1")));
    snapshot.apply(Event::Added(pod(Some("a"), "y", "2")));
    assert_eq!(uids(&snapshot), vec![pair("x", "1"), pair("y", "2")]);
    snapshot.apply(Event::Added(pod(Some("a"), "x", "3")));
    assert_eq!(uids(&snapshot), vec![pair("x", "3"), pair("y", "2")]);
}

#[test]
fn modified_replaces_and_inserts() {
    let mut snapshot = Snapshot::new();
    snapshot.apply(Event::Modified(pod(Some("a"), "x", "1")));
    assert_eq!(uids(&snapshot), vec![pair("x", "1")]);
    snapshot.apply(Event::Modified(pod(Some("a"), "x", "2")));
    assert_eq!(uids(&snapshot), vec![pair("x", "2")]);
}

#[test]
fn modified_twice_is_modified_once() {
    let mut once = Snapshot::new();
    once.apply(Event::Added(pod(Some("a"), "x", "1")));
    once.apply(Event::Added(pod(Some("a"), "y", "2")));
    once.apply(Event::Modified(pod(Some("a"), "x", "9")));
    let mut twice = Snapshot::new();
    twice.apply(Event::Added(pod(Some("a"), "x", "1")));
    twice.apply(Event::Added(pod(Some("a"), "y", "2")));
    twice.apply(Event::Modified(pod(Some("a"), "x", "9")));
    twice.apply(Event::Modified(pod(Some("a"), "x", "9")));
    assert_eq!(uids(&once), uids(&twice));
    assert_eq!(twice.state().len(), 2);
}

#[test]
fn removed_deletes() {
    let mut snapshot = Snapshot::new();
    snapshot.apply(Event::Added(pod(Some("a"), "x", "1")));
    snapshot.apply(Event::Added(pod(Some("a"), "y", "2")));
    snapshot.apply(Event::Added(pod(Some("a"), "z", "3")));
    snapshot.apply(Event::Removed(pod(Some("a"), "y", "whatever")));
    assert_eq!(uids(&snapshot), vec![pair("x", "1"), pair("z", "3")]);
}

#[test]
fn removed_of_absent_is_a_no_op() {
    let mut snapshot = Snapshot::new();
    snapshot.apply(Event::Removed(pod(Some("a"), "x", "1")));
    assert!(snapshot.state().is_empty());
    snapshot.apply(Event::Added(pod(Some("a"), "x", "1")));
    snapshot.apply(Event::Removed(pod(Some("a"), "other", "1")));
    snapshot.apply(Event::Removed(pod(Some("b"), "x", "1")));
    snapshot.apply(Event::Removed(pod(None, "x", "1")));
    assert_eq!(uids(&snapshot), vec![pair("x", "1")]);
}

#[test]
fn identity_is_namespace_and_name() {
    let mut snapshot = Snapshot::new();
    snapshot.apply(Event::Added(pod(Some("a"), "x", "1")));
    snapshot.apply(Event::Added(pod(Some("b"), "x", "2")));
    snapshot.apply(Event::Added(pod(None, "x", "3")));
    snapshot.apply(Event::Added(pod(Some(""), "x", "4")));
    assert_eq!(snapshot.state().len(), 4);
    snapshot.apply(Event::Modified(pod(Some("b"), "x", "5")));
    assert_eq!(uids(&snapshot), vec![pair("x", "1"), pair("x", "3"), pair("x", "4"), pair("x", "5")]);
}

#[test]
fn same_identity_compares_namespace_and_name() {
    let a = pod(Some("a"), "x", "1");
    assert!(a.meta().same_identity(pod(Some("a"), "x", "2").meta()));
    assert!(!a.meta().same_identity(pod(Some("a"), "y", "1").meta()));
    assert!(!a.meta().same_identity(pod(Some("b"), "x", "1").meta()));
    assert!(!a.meta().same_identity(pod(None, "x", "1").meta()));
    assert!(pod(None, "x", "1").meta().same_identity(pod(None, "x", "2").meta()));
}

#[test]
fn replay_folds_events_last_write_wins() {
    let events = vec![
        Event::Added(pod(Some("a"), "x", "1")),
        Event::Added(pod(Some("a"), "y", "2")),
        Event::Modified(pod(Some("a"), "x", "3")),
        Event::Removed(pod(Some("a"), "y", "2")),
        Event::Added(pod(Some("a"), "z", "4")),
        Event::Removed(pod(Some("a"), "z", "4")),
        Event::Added(pod(Some("a"), "z", "5")),
        Event::Removed(pod(Some("a"), "gone", "6")),
    ];
    let replayed = Snapshot::replay(&events);
    assert_eq!(uids(&replayed), vec![pair("x", "3"), pair("z", "5")]);
    let mut stepwise = Snapshot::new();
    for event in events {
        stepwise.apply(event);
    }
    assert_eq!(uids(&stepwise), uids(&replayed));
}

#[test]
fn replay_of_nothing_is_empty() {
    let events: Vec<Event<Pod>> = Vec::new();
    assert!(Snapshot::replay(&events).state().is_empty());
}

#[test]
fn state_hands_out_the_same_objects() {
    let mut snapshot = Snapshot::new();
    let x = pod(Some("a"), "x", "1");
    snapshot.apply(Event::Added(x.clone()));
    let listed = snapshot.state();
    assert_eq!(listed.len(), 1);
    assert!(Arc::ptr_eq(&listed[0], &x));
}

#[test]
fn sort_by_name_orders_and_keeps_everything() {
    let mut items = vec![
        pod(Some("a"), "web-2", "1"),
        pod(Some("a"), "api", "2"),
        pod(Some("a"), "web-10", "3"),
        pod(Some("a"), "Web", "4"),
        pod(Some("a"), "", "5"),
        pod(Some("a"), "web", "6"),
    ];
    sort_by_name(&mut items);
    let names: Vec<String> = items.iter().map(|p| p.metadata.name_any()).collect();
    assert_eq!(names, vec!["", "Web", "api", "web", "web-10", "web-2"]);
}

#[test]
fn sort_by_name_keeps_the_order_of_equal_names() {
    let mut items = vec![
        pod(Some("b"), "x", "1"),
        pod(Some("a"), "x", "2"),
        pod(Some("c"), "a", "3"),
        pod(Some("d"), "x", "4"),
    ];
    sort_by_name(&mut items);
    let seen: Vec<String> = items.iter().map(|p| p.metadata.uid.clone().unwrap()).collect();
    assert_eq!(seen, vec!["3", "1", "2", "4"]);
}

#[test]
fn sort_by_name_agrees_with_the_order_of_strings() {
    let names = ["é", "z", "a", "ab", "", "A", "日本", "zz", "~", "a\u{10FFFF}", "aé"];
    let mut items: Vec<Arc<Pod>> = names.iter().map(|n| pod(None, n, "u")).collect();
    sort_by_name(&mut items);
    let sorted: Vec<String> = items.iter().map(|p| p.metadata.name_any()).collect();
    let mut expected: Vec<String> = names.iter().map(|n| n.to_string()).collect();
    expected.sort();
    assert_eq!(sorted, expected);
}

#[test]
fn name_any_falls_back() {
    let mut metadata = ObjectMeta {
        name: Some("named".to_string()),
        generate_name: Some("gen-".to_string()),
        namespace: None,
        uid: None,
        creation_timestamp: None,
        deletion_timestamp: None,
    };
    assert_eq!(metadata.name_any(), "named");
    assert_eq!(metadata.name_str(), "named");
    metadata.name = None;
    assert_eq!(metadata.name_any(), "gen-");
    metadata.generate_name = None;
    assert_eq!(metadata.name_any(), "");
}
