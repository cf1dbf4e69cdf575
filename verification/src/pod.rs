//! Translation of workload-unit snapshots into [`facts::WorkloadFact`]
//! records.
//!
//! The spec functions at the top are the mathematical statement of the
//! translation: a total function from the resource view to the fact view.
//! Each executable function below is proved to implement the corresponding
//! spec function exactly, so translation is deterministic, never panics,
//! and preserves the presence or absence of every optional field.

use vstd::prelude::*;

use crate::common::{copy_opt_string, get_labels, get_object_metadata, object_meta_fact};
use crate::facts;
use crate::resource;
use crate::store::{
    insert_update, lemma_batch_singleton, update_delta, upsert, DeltaEntry, Op, TransactionManager,
    Update,
};
use vstd::string::StringExecFns;

verus! {

// ---------------------------------------------------------------------------
// The mathematical translation
// ---------------------------------------------------------------------------

/// One selector requirement: key, operator and optional values carry over
/// unchanged; an absent value list stays absent.
pub open spec fn requirement_fact(r: resource::RequirementView) -> facts::RequirementView {
    facts::RequirementView { key: r.key, operator: r.operator, values: r.values }
}

/// A requirement list carries over element for element, in order.
pub open spec fn requirements_fact(rs: Seq<resource::RequirementView>) -> Seq<
    facts::RequirementView,
> {
    rs.map_values(|r: resource::RequirementView| requirement_fact(r))
}

/// One node-selector term: both requirement lists are optional and carry
/// over independently.
pub open spec fn node_selector_term_fact(t: resource::NodeSelectorTermView) -> facts::NodeSelectorTermView {
    facts::NodeSelectorTermView {
        match_expressions: match t.match_expressions {
            Some(es) => Some(requirements_fact(es)),
            None => None,
        },
        match_fields: match t.match_fields {
            Some(es) => Some(requirements_fact(es)),
            None => None,
        },
    }
}

/// A node selector: the term list is required once the selector exists, and
/// carries over in order (it may be empty).
pub open spec fn node_selector_fact(s: resource::NodeSelectorView) -> facts::NodeSelectorView {
    facts::NodeSelectorView {
        terms: s.node_selector_terms.map_values(
            |t: resource::NodeSelectorTermView| node_selector_term_fact(t),
        ),
    }
}

/// Node affinity: only the hard scheduling constraint is projected.
pub open spec fn node_affinity_fact(a: resource::NodeAffinityView) -> facts::NodeAffinityView {
    facts::NodeAffinityView {
        required: match a.required_during_scheduling_ignored_during_execution {
            Some(s) => Some(node_selector_fact(s)),
            None => None,
        },
    }
}

/// A label selector: requirements and label entries carry over in order.
pub open spec fn label_selector_fact(ls: resource::LabelSelectorView) -> facts::LabelSelectorView {
    facts::LabelSelectorView {
        match_expressions: match ls.match_expressions {
            Some(es) => Some(requirements_fact(es)),
            None => None,
        },
        match_labels: ls.match_labels,
    }
}

/// One workload-affinity term: each selector slot is optional, the
/// namespace list is optional, the topology key is required.
pub open spec fn pod_affinity_term_fact(t: resource::PodAffinityTermView) -> facts::PodAffinityTermView {
    facts::PodAffinityTermView {
        label_selector: match t.label_selector {
            Some(s) => Some(label_selector_fact(s)),
            None => None,
        },
        namespace_selector: match t.namespace_selector {
            Some(s) => Some(label_selector_fact(s)),
            None => None,
        },
        namespaces: t.namespaces,
        topology_key: t.topology_key,
    }
}

/// A workload (anti-)affinity constraint: the optional term list carries
/// over in order.
pub open spec fn pod_affinity_fact(pa: resource::PodAffinityView) -> facts::PodAffinityView {
    facts::PodAffinityView {
        required: match pa.required_during_scheduling_ignored_during_execution {
            Some(ts) => Some(
                ts.map_values(|t: resource::PodAffinityTermView| pod_affinity_term_fact(t)),
            ),
            None => None,
        },
    }
}

/// The whole affinity sub-structure: three independent optional slots, each
/// present in the fact exactly when present in the source.  The
/// anti-affinity slot of the fact is filled from the source's anti-affinity
/// slot, never from the affinity slot.
pub open spec fn affinity_fact(a: resource::AffinityView) -> facts::AffinityView {
    facts::AffinityView {
        node_affinity: match a.node_affinity {
            Some(na) => Some(node_affinity_fact(na)),
            None => None,
        },
        pod_affinity: match a.pod_affinity {
            Some(pa) => Some(pod_affinity_fact(pa)),
            None => None,
        },
        pod_anti_affinity: match a.pod_anti_affinity {
            Some(pa) => Some(pod_affinity_fact(pa)),
            None => None,
        },
    }
}

/// The spec part of a workload fact.  A snapshot with no spec at all still
/// translates, to a record whose fields are all absent.
pub open spec fn workload_spec_fact(s: Option<resource::PodSpecView>) -> facts::WorkloadSpecView {
    match s {
        Some(sp) => facts::WorkloadSpecView {
            node_name: sp.node_name,
            affinity: match sp.affinity {
                Some(a) => Some(affinity_fact(a)),
                None => None,
            },
        },
        None => facts::WorkloadSpecView { node_name: None, affinity: None },
    }
}

/// The translation of one workload snapshot: a total function of the
/// snapshot's view and of nothing else.
pub open spec fn pod_fact(p: resource::PodView) -> facts::WorkloadFactView {
    facts::WorkloadFactView {
        metadata: object_meta_fact(p.metadata),
        spec: workload_spec_fact(p.spec),
    }
}

// ---------------------------------------------------------------------------
// The executable translator
// ---------------------------------------------------------------------------

/// A fresh copy of a string list, in order (requirement values, namespaces).
fn copy_strings(v: &Vec<String>) -> (r: Vec<String>)
    ensures
        r.deep_view() == v.deep_view(),
{
    let mut r: Vec<String> = Vec::new();
    let mut i: usize = 0;
    while i < v.len()
        invariant
            i <= v.len(),
            r.deep_view() == v.deep_view().take(i as int),
        decreases v.len() - i,
    {
        let ghost pre = r.deep_view();
        r.push(v[i].clone());
        i = i + 1;
        proof {
            assert(r.deep_view() =~= pre.push(v.deep_view()[i - 1]));
            assert(r.deep_view() =~= v.deep_view().take(i as int));
        }
    }
    proof {
        assert(v.deep_view().take(v.len() as int) =~= v.deep_view());
    }
    r
}

/// Translates one selector requirement.
pub fn get_node_selector_requirement(nsrq: &resource::Requirement) -> (dd_selreq: facts::Requirement)
    ensures
        dd_selreq@ == requirement_fact(nsrq@),
{
    facts::Requirement {
        key: nsrq.key.clone(),
        operator: nsrq.operator.clone(),
        values: match &nsrq.values {
            Some(values) => Some(copy_strings(values)),
            None => None,
        },
    }
}

/// Translates a requirement list, preserving order.
fn get_requirements(exprs: &Vec<resource::Requirement>) -> (r: Vec<facts::Requirement>)
    ensures
        r.deep_view() == requirements_fact(exprs.deep_view()),
{
    let mut dd_exprs: Vec<facts::Requirement> = Vec::new();
    let mut i: usize = 0;
    while i < exprs.len()
        invariant
            i <= exprs.len(),
            dd_exprs.deep_view() == requirements_fact(exprs.deep_view().take(i as int)),
        decreases exprs.len() - i,
    {
        let ghost pre = dd_exprs.deep_view();
        dd_exprs.push(get_node_selector_requirement(&exprs[i]));
        i = i + 1;
        proof {
            assert(dd_exprs.deep_view() =~= pre.push(
                requirement_fact(exprs.deep_view()[i - 1]),
            ));
            assert(dd_exprs.deep_view() =~= requirements_fact(
                exprs.deep_view().take(i as int),
            ));
        }
    }
    proof {
        assert(exprs.deep_view().take(exprs.len() as int) =~= exprs.deep_view());
    }
    dd_exprs
}

/// Translates one node-selector term.
pub fn get_node_selectorterm(nst: &resource::NodeSelectorTerm) -> (dd_node_selterm: facts::NodeSelectorTerm)
    ensures
        dd_node_selterm@ == node_selector_term_fact(nst@),
{
    facts::NodeSelectorTerm {
        match_expressions: match &nst.match_expressions {
            Some(match_exprs) => Some(get_requirements(match_exprs)),
            None => None,
        },
        match_fields: match &nst.match_fields {
            Some(match_fields) => Some(get_requirements(match_fields)),
            None => None,
        },
    }
}

/// Translates the node-affinity slot of an affinity sub-structure.  The
/// result is present exactly when the source slot is; the term list of a
/// present selector is always present, though possibly empty.
pub fn get_node_affinity(af: &resource::Affinity) -> (r: Option<facts::NodeAffinity>)
    ensures
        r.deep_view() == affinity_fact(af@).node_affinity,
{
    match &af.node_affinity {
        Some(node_affinity) => {
            let required = match &node_affinity.required_during_scheduling_ignored_during_execution {
                Some(required) => {
                    let mut reqd_terms: Vec<facts::NodeSelectorTerm> = Vec::new();
                    let mut i: usize = 0;
                    while i < required.node_selector_terms.len()
                        invariant
                            i <= required.node_selector_terms.len(),
                            reqd_terms.deep_view() == required.node_selector_terms.deep_view().take(
                                i as int,
                            ).map_values(
                                |t: resource::NodeSelectorTermView| node_selector_term_fact(t),
                            ),
                        decreases required.node_selector_terms.len() - i,
                    {
                        let ghost pre = reqd_terms.deep_view();
                        reqd_terms.push(get_node_selectorterm(&required.node_selector_terms[i]));
                        i = i + 1;
                        proof {
                            assert(reqd_terms.deep_view() =~= pre.push(
                                node_selector_term_fact(
                                    required.node_selector_terms.deep_view()[i - 1],
                                ),
                            ));
                            assert(reqd_terms.deep_view() =~= required.node_selector_terms.deep_view().take(
                                i as int,
                            ).map_values(
                                |t: resource::NodeSelectorTermView| node_selector_term_fact(t),
                            ));
                        }
                    }
                    proof {
                        assert(required.node_selector_terms.deep_view().take(
                            required.node_selector_terms.len() as int,
                        ) =~= required.node_selector_terms.deep_view());
                    }
                    Some(facts::NodeSelector { terms: reqd_terms })
                },
                None => None,
            };
            Some(facts::NodeAffinity { required })
        },
        None => None,
    }
}

/// Translates a label selector.
pub fn get_label_selector(ls: &resource::LabelSelector) -> (dd_label_selector: facts::LabelSelector)
    ensures
        dd_label_selector@ == label_selector_fact(ls@),
{
    facts::LabelSelector {
        match_expressions: match &ls.match_expressions {
            Some(match_exprs) => Some(get_requirements(match_exprs)),
            None => None,
        },
        match_labels: get_labels(&ls.match_labels),
    }
}

/// Translates one workload-affinity term.
pub fn get_pod_affinity_term(pat: &resource::PodAffinityTerm) -> (dd_pod_term: facts::PodAffinityTerm)
    ensures
        dd_pod_term@ == pod_affinity_term_fact(pat@),
{
    facts::PodAffinityTerm {
        label_selector: match &pat.label_selector {
            Some(lbl_selector) => Some(get_label_selector(lbl_selector)),
            None => None,
        },
        namespace_selector: match &pat.namespace_selector {
            Some(ns_selector) => Some(get_label_selector(ns_selector)),
            None => None,
        },
        namespaces: match &pat.namespaces {
            Some(ns_vec) => Some(copy_strings(ns_vec)),
            None => None,
        },
        topology_key: pat.topology_key.clone(),
    }
}

/// Translates one workload (anti-)affinity constraint.  Shared by the
/// affinity and anti-affinity slots, which have the same shape.
fn get_pod_affinity_slot(pod_affinity: &resource::PodAffinity) -> (dd_pod_affinity: facts::PodAffinity)
    ensures
        dd_pod_affinity@ == pod_affinity_fact(pod_affinity@),
{
    let required = match &pod_affinity.required_during_scheduling_ignored_during_execution {
        Some(required) => {
            let mut pa_required: Vec<facts::PodAffinityTerm> = Vec::new();
            let mut i: usize = 0;
            while i < required.len()
                invariant
                    i <= required.len(),
                    pa_required.deep_view() == required.deep_view().take(i as int).map_values(
                        |t: resource::PodAffinityTermView| pod_affinity_term_fact(t),
                    ),
                decreases required.len() - i,
            {
                let ghost pre = pa_required.deep_view();
                pa_required.push(get_pod_affinity_term(&required[i]));
                i = i + 1;
                proof {
                    assert(pa_required.deep_view() =~= pre.push(
                        pod_affinity_term_fact(required.deep_view()[i - 1]),
                    ));
                    assert(pa_required.deep_view() =~= required.deep_view().take(
                        i as int,
                    ).map_values(|t: resource::PodAffinityTermView| pod_affinity_term_fact(t)));
                }
            }
            proof {
                assert(required.deep_view().take(required.len() as int) =~= required.deep_view());
            }
            Some(pa_required)
        },
        None => None,
    };
    facts::PodAffinity { required }
}

/// Translates the workload-affinity slot.
pub fn get_pod_affinity(af: &resource::Affinity) -> (r: Option<facts::PodAffinity>)
    ensures
        r.deep_view() == affinity_fact(af@).pod_affinity,
{
    match &af.pod_affinity {
        Some(pod_affinity) => Some(get_pod_affinity_slot(pod_affinity)),
        None => None,
    }
}

/// Translates the workload anti-affinity slot.  The slot has the same shape
/// as the affinity slot but is read from its own field of the source.
pub fn get_pod_antiaffinity(af: &resource::Affinity) -> (r: Option<facts::PodAffinity>)
    ensures
        r.deep_view() == affinity_fact(af@).pod_anti_affinity,
{
    match &af.pod_anti_affinity {
        Some(pod_anti_affinity) => Some(get_pod_affinity_slot(pod_anti_affinity)),
        None => None,
    }
}

/// Translates the whole affinity sub-structure.
pub fn get_affinity(af: &resource::Affinity) -> (affinity: facts::Affinity)
    ensures
        affinity@ == affinity_fact(af@),
{
    facts::Affinity {
        node_affinity: get_node_affinity(af),
        pod_affinity: get_pod_affinity(af),
        pod_anti_affinity: get_pod_antiaffinity(af),
    }
}

/// Translates one workload snapshot into its canonical fact.  Total: a
/// snapshot with no spec still yields a fact, with every spec field absent.
pub fn get_pod_object(p: &resource::Pod) -> (pod_obj: facts::WorkloadFact)
    ensures
        pod_obj@ == pod_fact(p@),
{
    let spec = match &p.spec {
        Some(spec) => facts::WorkloadSpec {
            node_name: copy_opt_string(&spec.node_name),
            affinity: match &spec.affinity {
                Some(aff) => Some(get_affinity(aff)),
                None => None,
            },
        },
        None => facts::WorkloadSpec { node_name: None, affinity: None },
    };
    facts::WorkloadFact { metadata: get_object_metadata(&p.metadata), spec }
}

/// Translates one workload snapshot and commits it as a single-update,
/// atomic insertion batch; hands back the commit's delta.  Any fact already
/// held for the snapshot's identity is replaced, never duplicated.
pub fn inject_pod_relation(mgr: &mut TransactionManager, p: &resource::Pod) -> (delta: Vec<
    DeltaEntry,
>)
    requires
        old(mgr).wf(),
    ensures
        final(mgr).wf(),
        final(mgr)@ == upsert(old(mgr)@, facts::FactView::Workload(pod_fact(p@))),
        delta.deep_view() == update_delta(
            old(mgr)@,
            insert_update(facts::FactView::Workload(pod_fact(p@))),
        ),
{
    let pod_obj = get_pod_object(p);
    let updates = vec![Update { op: Op::Insert, fact: facts::Fact::Workload(pod_obj) }];
    proof {
        assert(updates.deep_view() =~= seq![
            insert_update(facts::FactView::Workload(pod_fact(p@))),
        ]);
        lemma_batch_singleton(old(mgr)@, insert_update(facts::FactView::Workload(pod_fact(p@))));
    }
    mgr.apply(updates)
}

/// The minimal workload fact that an event notification names: only the
/// workload's name is known.
pub open spec fn event_fact(name: Seq<char>) -> facts::WorkloadFactView {
    facts::WorkloadFactView {
        metadata: facts::ObjectMetaView {
            name: Some(name),
            cluster_name: None,
            namespace: None,
            uid: None,
            labels: None,
        },
        spec: facts::WorkloadSpecView { node_name: None, affinity: None },
    }
}

/// The decision behind handling a cluster event: an event whose involved
/// object is of the workload kind yields a minimal fact naming it; any other
/// kind, or an event missing its kind or its object name, yields nothing.
/// No field is ever assumed present.
pub fn event_workload_fact(kind: &Option<String>, name: &Option<String>) -> (r: Option<
    facts::WorkloadFact,
>)
    ensures
        r.deep_view() == (match (kind.deep_view(), name.deep_view()) {
            (Some(k), Some(n)) => if k == "Pod"@ {
                Some(event_fact(n))
            } else {
                None
            },
            _ => None,
        }),
{
    match (kind, name) {
        (Some(k), Some(n)) => {
            let pod_kind = String::from_str("Pod");
            if *k == pod_kind {
                Some(
                    facts::WorkloadFact {
                        metadata: facts::ObjectMeta {
                            name: Some(n.clone()),
                            cluster_name: None,
                            namespace: None,
                            uid: None,
                            labels: None,
                        },
                        spec: facts::WorkloadSpec { node_name: None, affinity: None },
                    },
                )
            } else {
                None
            }
        },
        _ => None,
    }
}

} // verus!
