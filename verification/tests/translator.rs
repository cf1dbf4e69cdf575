//! Tests of the translator: optionality fidelity, determinism, order
//! preservation, and the concrete affinity scenarios.

use kube_facts::common::{get_labels, get_object_metadata};
use kube_facts::facts;
use kube_facts::kv::KeyValue;
use kube_facts::node::get_node_object;
use kube_facts::pod::{
    event_workload_fact, get_affinity, get_label_selector, get_node_affinity,
    get_node_selector_requirement, get_node_selectorterm, get_pod_affinity, get_pod_affinity_term,
    get_pod_antiaffinity, get_pod_object,
};
use kube_facts::resource;

fn empty_meta() -> resource::ObjectMeta {
    resource::ObjectMeta {
        name: None,
        cluster_name: None,
        namespace: None,
        uid: None,
        labels: None,
    }
}

fn named_meta(name: &str, namespace: &str) -> resource::ObjectMeta {
    resource::ObjectMeta {
        name: Some(name.to_string()),
        cluster_name: None,
        namespace: Some(namespace.to_string()),
        uid: None,
        labels: None,
    }
}

fn requirement(key: &str, op: &str, values: Option<Vec<&str>>) -> resource::Requirement {
    resource::Requirement {
        key: key.to_string(),
        operator: op.to_string(),
        values: values.map(|vs| vs.into_iter().map(|v| v.to_string()).collect()),
    }
}

#[test]
fn workload_without_spec_still_translates() {
    let p = resource::Pod { metadata: named_meta("p1", "default"), spec: None };
    let f = get_pod_object(&p);
    assert_eq!(f.metadata.name.as_deref(), Some("p1"));
    assert_eq!(f.metadata.namespace.as_deref(), Some("default"));
    assert!(f.spec.node_name.is_none());
    assert!(f.spec.affinity.is_none());
}

#[test]
fn metadata_absent_fields_stay_absent() {
    let m = empty_meta();
    let dd = get_object_metadata(&m);
    assert!(dd.name.is_none());
    assert!(dd.cluster_name.is_none());
    assert!(dd.namespace.is_none());
    assert!(dd.uid.is_none());
    assert!(dd.labels.is_none());
}

#[test]
fn metadata_present_fields_carry_over() {
    let m = resource::ObjectMeta {
        name: Some("w".to_string()),
        cluster_name: Some("c".to_string()),
        namespace: Some("ns".to_string()),
        uid: Some("u-123".to_string()),
        labels: Some(vec![KeyValue { key: "app".to_string(), value: "db".to_string() }]),
    };
    let dd = get_object_metadata(&m);
    assert_eq!(dd.name.as_deref(), Some("w"));
    assert_eq!(dd.cluster_name.as_deref(), Some("c"));
    assert_eq!(dd.namespace.as_deref(), Some("ns"));
    assert_eq!(dd.uid.as_deref(), Some("u-123"));
    let labels = dd.labels.unwrap();
    assert_eq!(labels.len(), 1);
    assert_eq!(labels[0].key, "app");
    assert_eq!(labels[0].value, "db");
}

#[test]
fn labels_preserve_iteration_order() {
    let src = Some(vec![
        KeyValue { key: "b".to_string(), value: "2".to_string() },
        KeyValue { key: "a".to_string(), value: "1".to_string() },
        KeyValue { key: "c".to_string(), value: "3".to_string() },
    ]);
    let out = get_labels(&src).unwrap();
    let keys: Vec<&str> = out.iter().map(|kv| kv.key.as_str()).collect();
    assert_eq!(keys, vec!["b", "a", "c"]);
}

#[test]
fn labels_absent_stays_absent_present_empty_stays_present() {
    assert!(get_labels(&None).is_none());
    let out = get_labels(&Some(Vec::new()));
    assert!(out.is_some());
    assert!(out.unwrap().is_empty());
}

#[test]
fn requirement_values_absent_stays_absent() {
    let r = get_node_selector_requirement(&requirement("k", "Exists", None));
    assert_eq!(r.key, "k");
    assert_eq!(r.operator, "Exists");
    assert!(r.values.is_none());
}

#[test]
fn requirement_values_present_empty_stays_present() {
    let r = get_node_selector_requirement(&requirement("k", "In", Some(vec![])));
    let values = r.values.expect("an empty value list is still a present one");
    assert!(values.is_empty());
}

#[test]
fn requirement_order_is_preserved() {
    let term = resource::NodeSelectorTerm {
        match_expressions: Some(vec![
            requirement("a", "In", Some(vec!["x", "y"])),
            requirement("b", "Exists", None),
        ]),
        match_fields: None,
    };
    let out = get_node_selectorterm(&term);
    let es = out.match_expressions.unwrap();
    assert_eq!(es.len(), 2);
    assert_eq!(es[0].key, "a");
    assert_eq!(es[0].operator, "In");
    assert_eq!(es[0].values.as_ref().unwrap(), &vec!["x".to_string(), "y".to_string()]);
    assert_eq!(es[1].key, "b");
    assert_eq!(es[1].operator, "Exists");
    assert!(es[1].values.is_none());
    assert!(out.match_fields.is_none());
}

#[test]
fn workload_with_spec_but_absent_fields_keeps_them_absent() {
    let p = resource::Pod {
        metadata: named_meta("p2", "default"),
        spec: Some(resource::PodSpec { node_name: None, affinity: None }),
    };
    let f = get_pod_object(&p);
    assert!(f.spec.node_name.is_none());
    assert!(f.spec.affinity.is_none());
}

#[test]
fn match_fields_translate_like_match_expressions() {
    let term = resource::NodeSelectorTerm {
        match_expressions: None,
        match_fields: Some(vec![
            requirement("metadata.name", "In", Some(vec!["n1"])),
            requirement("spec.unschedulable", "NotIn", Some(vec!["true"])),
        ]),
    };
    let out = get_node_selectorterm(&term);
    assert!(out.match_expressions.is_none());
    let fs = out.match_fields.unwrap();
    assert_eq!(fs.len(), 2);
    assert_eq!(fs[0].key, "metadata.name");
    assert_eq!(fs[1].key, "spec.unschedulable");
    assert_eq!(fs[1].operator, "NotIn");
}

#[test]
fn translation_is_deterministic() {
    let p = resource::Pod {
        metadata: named_meta("p1", "default"),
        spec: Some(resource::PodSpec {
            node_name: Some("n1".to_string()),
            affinity: Some(resource::Affinity {
                node_affinity: Some(resource::NodeAffinity {
                    required_during_scheduling_ignored_during_execution: Some(
                        resource::NodeSelector {
                            node_selector_terms: vec![resource::NodeSelectorTerm {
                                match_expressions: Some(vec![requirement(
                                    "zone",
                                    "In",
                                    Some(vec!["us-east"]),
                                )]),
                                match_fields: None,
                            }],
                        },
                    ),
                }),
                pod_affinity: None,
                pod_anti_affinity: None,
            }),
        }),
    };
    let f1 = get_pod_object(&p);
    let f2 = get_pod_object(&p);
    assert_eq!(f1, f2);
}

#[test]
fn node_affinity_scenario() {
    // The hard node-affinity constraint carries over term for term; the two
    // workload-affinity slots, absent in the source, stay absent.
    let af = resource::Affinity {
        node_affinity: Some(resource::NodeAffinity {
            required_during_scheduling_ignored_during_execution: Some(resource::NodeSelector {
                node_selector_terms: vec![resource::NodeSelectorTerm {
                    match_expressions: Some(vec![requirement("zone", "In", Some(vec!["us-east"]))]),
                    match_fields: None,
                }],
            }),
        }),
        pod_affinity: None,
        pod_anti_affinity: None,
    };
    let p = resource::Pod {
        metadata: named_meta("p1", "default"),
        spec: Some(resource::PodSpec { node_name: None, affinity: Some(af) }),
    };
    let f = get_pod_object(&p);
    let affinity = f.spec.affinity.expect("the affinity sub-structure is present in the source");
    assert!(affinity.pod_affinity.is_none());
    assert!(affinity.pod_anti_affinity.is_none());
    let na = affinity.node_affinity.expect("node affinity is present in the source");
    let sel = na.required.expect("the hard constraint is present in the source");
    assert_eq!(sel.terms.len(), 1);
    let es = sel.terms[0].match_expressions.as_ref().unwrap();
    assert_eq!(es.len(), 1);
    assert_eq!(es[0].key, "zone");
    assert_eq!(es[0].operator, "In");
    assert_eq!(es[0].values.as_ref().unwrap(), &vec!["us-east".to_string()]);
    assert!(sel.terms[0].match_fields.is_none());
}

#[test]
fn node_selector_with_no_terms_is_present_and_empty() {
    let af = resource::Affinity {
        node_affinity: Some(resource::NodeAffinity {
            required_during_scheduling_ignored_during_execution: Some(resource::NodeSelector {
                node_selector_terms: Vec::new(),
            }),
        }),
        pod_affinity: None,
        pod_anti_affinity: None,
    };
    let na = get_node_affinity(&af).unwrap();
    let sel = na.required.unwrap();
    assert!(sel.terms.is_empty());
}

#[test]
fn absent_node_affinity_stays_absent() {
    let af = resource::Affinity { node_affinity: None, pod_affinity: None, pod_anti_affinity: None };
    assert!(get_node_affinity(&af).is_none());
    assert!(get_pod_affinity(&af).is_none());
    assert!(get_pod_antiaffinity(&af).is_none());
    let whole = get_affinity(&af);
    assert!(whole.node_affinity.is_none());
    assert!(whole.pod_affinity.is_none());
    assert!(whole.pod_anti_affinity.is_none());
}

#[test]
fn anti_affinity_reads_its_own_slot() {
    let anti = resource::PodAffinity {
        required_during_scheduling_ignored_during_execution: Some(vec![
            resource::PodAffinityTerm {
                label_selector: None,
                namespace_selector: None,
                namespaces: None,
                topology_key: "zone".to_string(),
            },
        ]),
    };
    let af = resource::Affinity {
        node_affinity: None,
        pod_affinity: None,
        pod_anti_affinity: Some(anti),
    };
    assert!(get_pod_affinity(&af).is_none());
    let out = get_pod_antiaffinity(&af).expect("the anti-affinity slot is present");
    let terms = out.required.unwrap();
    assert_eq!(terms.len(), 1);
    assert_eq!(terms[0].topology_key, "zone");
}

#[test]
fn pod_affinity_term_translates_selectors() {
    let term = resource::PodAffinityTerm {
        label_selector: Some(resource::LabelSelector {
            match_expressions: Some(vec![requirement("app", "In", Some(vec!["db"]))]),
            match_labels: Some(vec![KeyValue {
                key: "tier".to_string(),
                value: "backend".to_string(),
            }]),
        }),
        namespace_selector: None,
        namespaces: Some(vec!["default".to_string(), "kube-system".to_string()]),
        topology_key: "kubernetes.io/hostname".to_string(),
    };
    let out = get_pod_affinity_term(&term);
    let ls = out.label_selector.unwrap();
    let es = ls.match_expressions.unwrap();
    assert_eq!(es[0].key, "app");
    let labels = ls.match_labels.unwrap();
    assert_eq!(labels[0].key, "tier");
    assert_eq!(labels[0].value, "backend");
    assert!(out.namespace_selector.is_none());
    assert_eq!(
        out.namespaces.unwrap(),
        vec!["default".to_string(), "kube-system".to_string()]
    );
    assert_eq!(out.topology_key, "kubernetes.io/hostname");
}

#[test]
fn label_selector_absent_parts_stay_absent() {
    let ls = resource::LabelSelector { match_expressions: None, match_labels: None };
    let out = get_label_selector(&ls);
    assert!(out.match_expressions.is_none());
    assert!(out.match_labels.is_none());
}

#[test]
fn host_without_pod_cidr_has_absent_field() {
    // Absent means absent: no empty-string placeholder.
    let n = resource::Node {
        metadata: named_meta("n1", "default"),
        spec: Some(resource::NodeSpec { pod_cidr: None }),
    };
    let f = get_node_object(&n);
    assert!(f.spec.pod_cidr.is_none());
    assert_ne!(f.spec.pod_cidr, Some(String::new()));
}

#[test]
fn host_without_spec_still_translates() {
    let n = resource::Node { metadata: named_meta("n1", "default"), spec: None };
    let f = get_node_object(&n);
    assert_eq!(f.metadata.name.as_deref(), Some("n1"));
    assert!(f.spec.pod_cidr.is_none());
}

#[test]
fn host_with_pod_cidr_carries_it() {
    let n = resource::Node {
        metadata: named_meta("n1", "default"),
        spec: Some(resource::NodeSpec { pod_cidr: Some("10.0.0.0/24".to_string()) }),
    };
    let f = get_node_object(&n);
    assert_eq!(f.spec.pod_cidr.as_deref(), Some("10.0.0.0/24"));
}

#[test]
fn event_of_workload_kind_yields_named_fact() {
    let fact = event_workload_fact(&Some("Pod".to_string()), &Some("p9".to_string()))
        .expect("a workload event names a fact");
    assert_eq!(fact.metadata.name.as_deref(), Some("p9"));
    assert!(fact.metadata.namespace.is_none());
    assert!(fact.spec.node_name.is_none());
}

#[test]
fn event_of_other_kind_or_missing_fields_yields_nothing() {
    assert!(event_workload_fact(&Some("Service".to_string()), &Some("s1".to_string())).is_none());
    assert!(event_workload_fact(&None, &Some("p1".to_string())).is_none());
    assert!(event_workload_fact(&Some("Pod".to_string()), &None).is_none());
}

#[test]
fn relation_names_are_stable() {
    assert_eq!(facts::relation_name(facts::Relation::Workload), "WorkloadFact");
    assert_eq!(facts::relation_name(facts::Relation::Host), "HostFact");
}
