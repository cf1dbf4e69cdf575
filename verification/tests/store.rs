//! Tests of the transaction manager: upsert-by-identity, atomic batches,
//! delta accounting, and the translator-to-store path.

use kube_facts::facts::{Fact, HostFact, HostSpec, ObjectMeta, Relation, WorkloadFact, WorkloadSpec};
use kube_facts::node::inject_node_relation;
use kube_facts::pod::inject_pod_relation;
use kube_facts::resource;
use kube_facts::store::{DeltaEntry, Op, TransactionManager, Update};

fn meta(name: &str, namespace: &str) -> ObjectMeta {
    ObjectMeta {
        name: Some(name.to_string()),
        cluster_name: None,
        namespace: Some(namespace.to_string()),
        uid: None,
        labels: None,
    }
}

fn workload(name: &str, namespace: &str, node_name: Option<&str>) -> WorkloadFact {
    WorkloadFact {
        metadata: meta(name, namespace),
        spec: WorkloadSpec { node_name: node_name.map(|s| s.to_string()), affinity: None },
    }
}

fn host(name: &str, pod_cidr: Option<&str>) -> HostFact {
    HostFact {
        metadata: ObjectMeta {
            name: Some(name.to_string()),
            cluster_name: None,
            namespace: None,
            uid: None,
            labels: None,
        },
        spec: HostSpec { pod_cidr: pod_cidr.map(|s| s.to_string()) },
    }
}

fn insert(f: Fact) -> Update {
    Update { op: Op::Insert, fact: f }
}

fn delete(f: Fact) -> Update {
    Update { op: Op::Delete, fact: f }
}

#[test]
fn fresh_insert_reports_one_assertion() {
    let mut mgr = TransactionManager::new();
    let f = Fact::Workload(workload("p1", "default", None));
    let delta = mgr.apply(vec![insert(f.clone())]);
    assert_eq!(mgr.len(), 1);
    assert_eq!(delta.len(), 1);
    assert_eq!(delta[0].relation, Relation::Workload);
    assert_eq!(delta[0].weight, 1);
    assert_eq!(delta[0].fact, f);
}

#[test]
fn upsert_keeps_one_fact_per_identity() {
    // Two submissions for one identity with different placements: exactly
    // one current fact remains, reflecting the latest submission.
    let mut mgr = TransactionManager::new();
    let first = Fact::Workload(workload("p1", "default", Some("node-a")));
    let second = Fact::Workload(workload("p1", "default", Some("node-b")));
    mgr.apply(vec![insert(first)]);
    let delta = mgr.apply(vec![insert(second.clone())]);
    assert_eq!(mgr.len(), 1);
    let current = mgr.get(&second).expect("the identity is held");
    assert_eq!(current, &second);
    // The replacement is reported as a retraction of the prior fact and an
    // assertion of the new one.
    assert_eq!(delta.len(), 2);
    assert_eq!(delta[0].weight, -1);
    assert_eq!(delta[0].fact, Fact::Workload(workload("p1", "default", Some("node-a"))));
    assert_eq!(delta[1].weight, 1);
    assert_eq!(delta[1].fact, second);
}

#[test]
fn same_identity_different_relations_do_not_collide() {
    let mut mgr = TransactionManager::new();
    let w = Fact::Workload(workload("x", "default", None));
    let h = Fact::Host(host("x", None));
    // The host fact carries no namespace, but even an identical identity
    // would land in its own relation; both facts are held.
    mgr.apply(vec![insert(w), insert(h)]);
    assert_eq!(mgr.len(), 2);
}

#[test]
fn batch_applies_every_update_in_order() {
    let mut mgr = TransactionManager::new();
    let delta = mgr.apply(vec![
        insert(Fact::Workload(workload("a", "ns", None))),
        insert(Fact::Workload(workload("b", "ns", None))),
        insert(Fact::Host(host("n1", Some("10.0.0.0/24")))),
    ]);
    assert_eq!(mgr.len(), 3);
    assert_eq!(delta.len(), 3);
    assert!(delta.iter().all(|e: &DeltaEntry| e.weight == 1));
    assert_eq!(delta[0].fact, Fact::Workload(workload("a", "ns", None)));
    assert_eq!(delta[1].fact, Fact::Workload(workload("b", "ns", None)));
    assert_eq!(delta[2].fact, Fact::Host(host("n1", Some("10.0.0.0/24"))));
}

#[test]
fn batch_with_internal_upsert_accounts_for_all_updates() {
    // Three updates, the last two for one identity: every update appears in
    // the delta accounting, and the store holds the batch's outcome.
    let mut mgr = TransactionManager::new();
    let delta = mgr.apply(vec![
        insert(Fact::Workload(workload("a", "ns", None))),
        insert(Fact::Workload(workload("b", "ns", Some("node-1")))),
        insert(Fact::Workload(workload("b", "ns", Some("node-2")))),
    ]);
    assert_eq!(mgr.len(), 2);
    assert_eq!(delta.len(), 4);
    assert_eq!((delta[0].weight, delta[1].weight), (1, 1));
    assert_eq!(delta[2].weight, -1);
    assert_eq!(delta[2].fact, Fact::Workload(workload("b", "ns", Some("node-1"))));
    assert_eq!(delta[3].weight, 1);
    assert_eq!(delta[3].fact, Fact::Workload(workload("b", "ns", Some("node-2"))));
    let latest = Fact::Workload(workload("b", "ns", Some("node-2")));
    assert_eq!(mgr.get(&latest), Some(&latest));
}

#[test]
fn empty_batch_changes_nothing_and_reports_nothing() {
    let mut mgr = TransactionManager::new();
    mgr.apply(vec![insert(Fact::Host(host("n1", None)))]);
    let delta = mgr.apply(Vec::new());
    assert_eq!(mgr.len(), 1);
    assert!(delta.is_empty());
}

#[test]
fn delete_retracts_the_held_fact() {
    let mut mgr = TransactionManager::new();
    let f = Fact::Host(host("n1", Some("10.1.0.0/24")));
    mgr.apply(vec![insert(f.clone())]);
    let delta = mgr.apply(vec![delete(Fact::Host(host("n1", None)))]);
    assert_eq!(mgr.len(), 0);
    assert_eq!(delta.len(), 1);
    assert_eq!(delta[0].weight, -1);
    assert_eq!(delta[0].relation, Relation::Host);
    assert_eq!(delta[0].fact, f);
}

#[test]
fn delete_of_absent_identity_reports_nothing() {
    let mut mgr = TransactionManager::new();
    let delta = mgr.apply(vec![delete(Fact::Workload(workload("ghostly", "ns", None)))]);
    assert_eq!(mgr.len(), 0);
    assert!(delta.is_empty());
}

#[test]
fn init_applies_the_seeding_batch() {
    let seed = vec![
        insert(Fact::Workload(workload("seeded", "ns", None))),
        insert(Fact::Host(host("n1", None))),
    ];
    let (mgr, delta) = TransactionManager::init(seed);
    assert_eq!(mgr.len(), 2);
    assert_eq!(delta.len(), 2);
}

#[test]
fn init_with_empty_seed_is_an_empty_ready_store() {
    let (mgr, delta) = TransactionManager::init(Vec::new());
    assert_eq!(mgr.len(), 0);
    assert!(delta.is_empty());
}

#[test]
fn inject_pod_relation_upserts_the_translation() {
    let mut mgr = TransactionManager::new();
    let p = resource::Pod {
        metadata: resource::ObjectMeta {
            name: Some("p1".to_string()),
            cluster_name: None,
            namespace: Some("default".to_string()),
            uid: None,
            labels: None,
        },
        spec: Some(resource::PodSpec { node_name: Some("node-a".to_string()), affinity: None }),
    };
    let delta = inject_pod_relation(&mut mgr, &p);
    assert_eq!(mgr.len(), 1);
    assert_eq!(delta.len(), 1);
    assert_eq!(delta[0].weight, 1);
    assert_eq!(delta[0].relation, Relation::Workload);

    // A second snapshot of the same workload replaces the fact.
    let p2 = resource::Pod {
        metadata: resource::ObjectMeta {
            name: Some("p1".to_string()),
            cluster_name: None,
            namespace: Some("default".to_string()),
            uid: None,
            labels: None,
        },
        spec: Some(resource::PodSpec { node_name: Some("node-b".to_string()), affinity: None }),
    };
    let delta2 = inject_pod_relation(&mut mgr, &p2);
    assert_eq!(mgr.len(), 1);
    assert_eq!(delta2.len(), 2);
    assert_eq!(delta2[0].weight, -1);
    assert_eq!(delta2[1].weight, 1);
    let expected = Fact::Workload(workload("p1", "default", Some("node-b")));
    assert_eq!(mgr.get(&expected), Some(&expected));
}

#[test]
fn inject_node_relation_upserts_the_translation() {
    let mut mgr = TransactionManager::new();
    let n = resource::Node {
        metadata: resource::ObjectMeta {
            name: Some("n1".to_string()),
            cluster_name: None,
            namespace: None,
            uid: None,
            labels: None,
        },
        spec: Some(resource::NodeSpec { pod_cidr: Some("10.0.0.0/24".to_string()) }),
    };
    let delta = inject_node_relation(&mut mgr, &n);
    assert_eq!(mgr.len(), 1);
    assert_eq!(delta.len(), 1);
    assert_eq!(delta[0].relation, Relation::Host);
    let expected = Fact::Host(host("n1", Some("10.0.0.0/24")));
    assert_eq!(mgr.get(&expected), Some(&expected));
}

#[test]
fn lookup_of_absent_identity_is_none() {
    let mgr = TransactionManager::new();
    let probe = Fact::Workload(workload("nobody", "ns", None));
    assert_eq!(mgr.get(&probe), None);
}
