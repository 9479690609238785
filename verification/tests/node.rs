use xds_client::message::Node;
use xds_client::node::{build_node, build_struct, NodeEnvironment};
use xds_client::table::Table;

fn value(node: &Node, key: &str) -> Option<String> {
    node.metadata.as_ref().unwrap().get(&key.to_string()).cloned()
}

fn full() -> NodeEnvironment {
    NodeEnvironment {
        instance_ip: Some("10.0.0.7".to_string()),
        pod_name: Some("ztunnel-abc".to_string()),
        pod_namespace: Some("istio-system".to_string()),
        node_name: Some("worker-1".to_string()),
    }
}

fn empty() -> NodeEnvironment {
    NodeEnvironment { instance_ip: None, pod_name: None, pod_namespace: None, node_name: None }
}

#[test]
fn node_is_named_by_its_environment() {
    let node = build_node(&full(), &Table::new());
    assert_eq!(
        node.id,
        "ztunnel~10.0.0.7~ztunnel-abc.istio-system~istio-system.svc.cluster.local"
    );
    assert_eq!(value(&node, "NAME"), Some("ztunnel-abc".to_string()));
    assert_eq!(value(&node, "NAMESPACE"), Some("istio-system".to_string()));
    assert_eq!(value(&node, "INSTANCE_IPS"), Some("10.0.0.7".to_string()));
    assert_eq!(value(&node, "NODE_NAME"), Some("worker-1".to_string()));
    assert_eq!(node.metadata.as_ref().unwrap().entries().len(), 4);
}

#[test]
fn missing_variables_have_defaults() {
    let node = build_node(&empty(), &Table::new());
    assert_eq!(node.id, "ztunnel~1.1.1.1~.~.svc.cluster.local");
    assert_eq!(value(&node, "NAME"), Some("".to_string()));
    assert_eq!(value(&node, "NAMESPACE"), Some("".to_string()));
    assert_eq!(value(&node, "INSTANCE_IPS"), Some("1.1.1.1".to_string()));
    assert_eq!(value(&node, "NODE_NAME"), Some("".to_string()));
}

#[test]
fn proxy_metadata_goes_before_the_environment() {
    let mut proxy: Table<String, String> = Table::new();
    proxy.insert("NAME".to_string(), "other".to_string());
    proxy.insert("CLUSTER_ID".to_string(), "east".to_string());
    let node = build_node(&full(), &proxy);
    assert_eq!(value(&node, "NAME"), Some("other".to_string()));
    assert_eq!(value(&node, "CLUSTER_ID"), Some("east".to_string()));
    assert_eq!(value(&node, "NAMESPACE"), Some("istio-system".to_string()));
    assert_eq!(node.metadata.as_ref().unwrap().entries().len(), 5);
    assert!(node.id.starts_with("ztunnel~10.0.0.7~ztunnel-abc."));
}

#[test]
fn later_pairs_win() {
    let fields = build_struct(&vec![
        ("a".to_string(), "1".to_string()),
        ("b".to_string(), "2".to_string()),
        ("a".to_string(), "3".to_string()),
    ]);
    assert_eq!(fields.get(&"a".to_string()), Some(&"3".to_string()));
    assert_eq!(fields.get(&"b".to_string()), Some(&"2".to_string()));
    assert_eq!(fields.entries().len(), 2);
}

#[test]
fn copied_node_says_the_same() {
    let node = build_node(&full(), &Table::new());
    let copy = node.clone();
    assert_eq!(copy.id, node.id);
    for (k, v) in node.metadata.as_ref().unwrap().entries() {
        assert_eq!(value(&copy, k), Some(v.clone()));
    }
    assert_eq!(copy.metadata.as_ref().unwrap().entries().len(), 4);
    let bare = Node { id: "x".to_string(), metadata: None };
    assert!(bare.clone().metadata.is_none());
}
