use std::collections::HashMap;

use zookeeper_operator::children::{
    create_tolerations, desired_children, object_to_owner_reference,
};
use zookeeper_operator::types::{
    ObjectMeta, Pod, ZooKeeperCluster, ZooKeeperClusterSpec, ZooKeeperVersion,
};
use zookeeper_operator::Error;

fn meta(name: Option<&str>, uid: Option<&str>) -> ObjectMeta {
    ObjectMeta {
        name: name.map(|s| s.to_string()),
        namespace: Some("ns".to_string()),
        uid: uid.map(|s| s.to_string()),
        deletion_timestamp: None,
        finalizers: None,
    }
}

fn snapshot(replicas: i32) -> ZooKeeperCluster {
    ZooKeeperCluster {
        metadata: meta(Some("zk1"), Some("uid-1")),
        spec: ZooKeeperClusterSpec { version: ZooKeeperVersion::v3_6_2, replicas },
        status: None,
    }
}

#[test]
fn zero_replicas_yield_no_children() {
    let children = desired_children(&snapshot(0)).unwrap();
    assert!(children.is_empty());
}

#[test]
fn children_count_and_names_match_replicas() {
    let children = desired_children(&snapshot(3)).unwrap();
    assert_eq!(children.len(), 3);
    assert_eq!(children[0].name, "zk1-0");
    assert_eq!(children[1].name, "zk1-1");
    assert_eq!(children[2].name, "zk1-2");
    let mut names: Vec<String> = children.iter().map(|p| p.name.clone()).collect();
    names.sort();
    names.dedup();
    assert_eq!(names.len(), 3);
}

#[test]
fn children_carry_owner_labels_and_image() {
    let children = desired_children(&snapshot(2)).unwrap();
    for child in &children {
        assert_eq!(child.owner_references.len(), 1);
        let owner = &child.owner_references[0];
        assert_eq!(owner.api_version, "zookeeper.stackable.de/v1");
        assert_eq!(owner.kind, "ZooKeeperCluster");
        assert_eq!(owner.name, "zk1");
        assert_eq!(owner.uid, "uid-1");
        assert_eq!(owner.controller, Some(true));
        assert_eq!(child.labels, vec![("zookeeper-name".to_string(), "zk1".to_string())]);
        assert_eq!(child.containers.len(), 1);
        assert_eq!(child.containers[0].name, "zookeeper");
        assert_eq!(child.containers[0].image, "stackable/zookeeper:v3_6_2");
        assert_eq!(child.anti_affinity.len(), 1);
        assert_eq!(child.anti_affinity[0].topology_key, "kubernetes.io/hostname");
        assert_eq!(
            child.anti_affinity[0].match_labels,
            vec![("zookeeper-name".to_string(), "zk1".to_string())]
        );
        assert_eq!(child.tolerations, create_tolerations());
    }
}

#[test]
fn compute_is_deterministic() {
    let a = desired_children(&snapshot(4)).unwrap();
    let b = desired_children(&snapshot(4)).unwrap();
    assert_eq!(a, b);
}

#[test]
fn version_images_are_fixed() {
    assert_eq!(ZooKeeperVersion::v3_6_2.image(), "stackable/zookeeper:v3_6_2");
    assert_eq!(ZooKeeperVersion::v3_5_8.image(), "stackable/zookeeper:v3_5_8");
}

#[test]
fn tolerations_are_the_fixed_set() {
    let t = create_tolerations();
    assert_eq!(t.len(), 3);
    assert_eq!(t[0].effect.as_deref(), Some("NoExecute"));
    assert_eq!(t[0].key.as_deref(), Some("kubernetes.io/arch"));
    assert_eq!(t[0].operator.as_deref(), Some("Equal"));
    assert_eq!(t[0].value.as_deref(), Some("stackable-linux"));
    assert_eq!(t[0].toleration_seconds, None);
    assert_eq!(t[1].effect.as_deref(), Some("NoSchedule"));
    assert_eq!(t[1].key.as_deref(), Some("kubernetes.io/arch"));
    assert_eq!(t[1].operator.as_deref(), Some("Equal"));
    assert_eq!(t[1].value.as_deref(), Some("stackable-linux"));
    assert_eq!(t[2].effect.as_deref(), Some("NoSchedule"));
    assert_eq!(t[2].key.as_deref(), Some("node.kubernetes.io/network-unavailable"));
    assert_eq!(t[2].operator.as_deref(), Some("Exists"));
    assert_eq!(t[2].value, None);
}

#[test]
fn owner_reference_requires_name() {
    let r = object_to_owner_reference(&meta(None, Some("uid-1")));
    assert!(matches!(r, Err(Error::MissingObjectKey { name }) if name == ".metadata.name"));
}

#[test]
fn owner_reference_requires_uid() {
    let r = object_to_owner_reference(&meta(Some("zk1"), None));
    assert!(matches!(r, Err(Error::MissingObjectKey { name }) if name == ".metadata.backtrace"));
}

#[test]
fn owner_reference_from_complete_metadata() {
    let r = object_to_owner_reference(&meta(Some("zk1"), Some("uid-1"))).unwrap();
    assert_eq!(r.api_version, "zookeeper.stackable.de/v1");
    assert_eq!(r.kind, "ZooKeeperCluster");
    assert_eq!(r.name, "zk1");
    assert_eq!(r.uid, "uid-1");
    assert_eq!(r.controller, None);
}

#[test]
fn children_need_a_uid_only_when_children_exist() {
    let mut zk = snapshot(3);
    zk.metadata.uid = None;
    assert!(matches!(
        desired_children(&zk),
        Err(Error::MissingObjectKey { name }) if name == ".metadata.backtrace"
    ));
    let mut empty = snapshot(0);
    empty.metadata.uid = None;
    assert!(desired_children(&empty).unwrap().is_empty());
}

#[test]
fn applying_the_same_specification_twice_changes_nothing() {
    let children = desired_children(&snapshot(2)).unwrap();
    let mut backend: HashMap<String, Pod> = HashMap::new();
    for child in &children {
        backend.insert(child.name.clone(), child.clone());
    }
    let after_first = backend.clone();
    for child in &children {
        backend.insert(child.name.clone(), child.clone());
    }
    assert_eq!(backend, after_first);
}
