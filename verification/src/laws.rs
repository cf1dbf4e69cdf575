//! The library's stated laws, each proved from the public contracts.
//!
//! The translator laws (optionality fidelity, determinism, order
//! preservation) are stated over the spec translation functions that every
//! executable translator is proved to implement exactly; the store laws
//! (upsert semantics, atomic batches) are stated over the spec store model
//! that [`crate::store::TransactionManager::apply`] is proved to implement
//! exactly.

use vstd::prelude::*;

use crate::facts::{FactView, IdentityView, Relation};
use crate::node::node_fact;
use crate::pod::{
    affinity_fact, node_selector_fact, node_selector_term_fact, pod_affinity_term_fact, pod_fact,
    requirement_fact, requirements_fact,
};
use crate::resource;
use crate::store::{
    apply_batch, apply_update, batch_delta, delta_entry, has_key, lemma_upsert_lookup, lookup,
    unique_keys, update_delta, upsert, Op, UpdateView,
};
use crate::{facts, pod};

verus! {

// ---------------------------------------------------------------------------
// Optionality fidelity
// ---------------------------------------------------------------------------

/// A requirement's value list is present in the fact exactly when it is
/// present in the source.
pub proof fn lemma_optionality_fidelity_requirement(r: resource::RequirementView)
    ensures
        requirement_fact(r).values is Some <==> r.values is Some,
{
}

/// A node-selector term's two requirement lists are each present in the
/// fact exactly when present in the source, with unchanged length.
pub proof fn lemma_optionality_fidelity_term(t: resource::NodeSelectorTermView)
    ensures
        node_selector_term_fact(t).match_expressions is Some <==> t.match_expressions is Some,
        node_selector_term_fact(t).match_fields is Some <==> t.match_fields is Some,
        t.match_expressions is Some ==> node_selector_term_fact(t).match_expressions->0.len()
            == t.match_expressions->0.len(),
        t.match_fields is Some ==> node_selector_term_fact(t).match_fields->0.len()
            == t.match_fields->0.len(),
{
}

/// A label selector's requirement list and label mapping are each present
/// in the fact exactly when present in the source.
pub proof fn lemma_optionality_fidelity_label_selector(ls: resource::LabelSelectorView)
    ensures
        pod::label_selector_fact(ls).match_expressions is Some <==> ls.match_expressions is Some,
        pod::label_selector_fact(ls).match_labels is Some <==> ls.match_labels is Some,
{
}

/// A workload-affinity term's selectors and namespace list are each present
/// in the fact exactly when present in the source; the required topology
/// key carries over.
pub proof fn lemma_optionality_fidelity_pod_term(t: resource::PodAffinityTermView)
    ensures
        pod_affinity_term_fact(t).label_selector is Some <==> t.label_selector is Some,
        pod_affinity_term_fact(t).namespace_selector is Some <==> t.namespace_selector is Some,
        pod_affinity_term_fact(t).namespaces is Some <==> t.namespaces is Some,
        pod_affinity_term_fact(t).topology_key == t.topology_key,
{
}

/// Each slot of the affinity sub-structure is present in the fact exactly
/// when present in the source, down to the hard node-selector: an absent
/// slot stays absent, and the term list of a present selector is always
/// present (possibly empty), with the source's length.
pub proof fn lemma_optionality_fidelity_affinity(a: resource::AffinityView)
    ensures
        affinity_fact(a).node_affinity is Some <==> a.node_affinity is Some,
        affinity_fact(a).pod_affinity is Some <==> a.pod_affinity is Some,
        affinity_fact(a).pod_anti_affinity is Some <==> a.pod_anti_affinity is Some,
        a.node_affinity is Some ==> (affinity_fact(a).node_affinity->0.required is Some
            <==> a.node_affinity->0.required_during_scheduling_ignored_during_execution is Some),
        a.node_affinity is Some
            && a.node_affinity->0.required_during_scheduling_ignored_during_execution is Some
            ==> affinity_fact(a).node_affinity->0.required->0.terms.len()
            == a.node_affinity->0.required_during_scheduling_ignored_during_execution->0.node_selector_terms.len(),
        a.pod_affinity is Some ==> (affinity_fact(a).pod_affinity->0.required is Some
            <==> a.pod_affinity->0.required_during_scheduling_ignored_during_execution is Some),
        a.pod_anti_affinity is Some ==> (affinity_fact(a).pod_anti_affinity->0.required is Some
            <==> a.pod_anti_affinity->0.required_during_scheduling_ignored_during_execution is Some),
{
}

/// Every optional field of a workload snapshot is present in its fact
/// exactly when present in the source: metadata field for field, and the
/// spec fields through the optional spec itself.
pub proof fn lemma_optionality_fidelity_workload(p: resource::PodView)
    ensures
        pod_fact(p).metadata.name is Some <==> p.metadata.name is Some,
        pod_fact(p).metadata.cluster_name is Some <==> p.metadata.cluster_name is Some,
        pod_fact(p).metadata.namespace is Some <==> p.metadata.namespace is Some,
        pod_fact(p).metadata.uid is Some <==> p.metadata.uid is Some,
        pod_fact(p).metadata.labels is Some <==> p.metadata.labels is Some,
        pod_fact(p).spec.node_name is Some <==> (p.spec is Some && p.spec->0.node_name is Some),
        pod_fact(p).spec.affinity is Some <==> (p.spec is Some && p.spec->0.affinity is Some),
        (p.spec is Some && p.spec->0.affinity is Some) ==> pod_fact(p).spec.affinity->0
            == affinity_fact(p.spec->0.affinity->0),
{
}

/// Every optional field of a host snapshot is present in its fact exactly
/// when present in the source; in particular an absent network range stays
/// absent, it never becomes an empty string.
pub proof fn lemma_optionality_fidelity_host(n: resource::NodeView)
    ensures
        node_fact(n).metadata.name is Some <==> n.metadata.name is Some,
        node_fact(n).metadata.cluster_name is Some <==> n.metadata.cluster_name is Some,
        node_fact(n).metadata.namespace is Some <==> n.metadata.namespace is Some,
        node_fact(n).metadata.uid is Some <==> n.metadata.uid is Some,
        node_fact(n).metadata.labels is Some <==> n.metadata.labels is Some,
        node_fact(n).spec.pod_cidr is Some <==> (n.spec is Some && n.spec->0.pod_cidr is Some),
        (n.spec is Some && n.spec->0.pod_cidr is Some) ==> node_fact(n).spec.pod_cidr->0
            == n.spec->0.pod_cidr->0,
{
}

// ---------------------------------------------------------------------------
// Determinism
// ---------------------------------------------------------------------------

/// Translating one workload snapshot twice yields structurally equal facts:
/// the executable translator's contract pins its result to `pod_fact` of
/// the input view and of nothing else.
pub proof fn lemma_translation_deterministic_workload(
    p: resource::PodView,
    f1: facts::WorkloadFactView,
    f2: facts::WorkloadFactView,
)
    requires
        f1 == pod_fact(p),
        f2 == pod_fact(p),
    ensures
        f1 == f2,
{
}

/// Translating one host snapshot twice yields structurally equal facts.
pub proof fn lemma_translation_deterministic_host(
    n: resource::NodeView,
    f1: facts::HostFactView,
    f2: facts::HostFactView,
)
    requires
        f1 == node_fact(n),
        f2 == node_fact(n),
    ensures
        f1 == f2,
{
}

// ---------------------------------------------------------------------------
// Order preservation
// ---------------------------------------------------------------------------

/// A translated requirement list has the source's length, and at every
/// position the translation of the source's requirement at that position,
/// with key, operator and values unchanged.
pub proof fn lemma_order_preservation_requirements(es: Seq<resource::RequirementView>)
    ensures
        requirements_fact(es).len() == es.len(),
        forall|i: int|
            0 <= i < es.len() ==> (#[trigger] requirements_fact(es)[i]) == requirement_fact(es[i]),
        forall|i: int|
            0 <= i < es.len() ==> (#[trigger] requirements_fact(es)[i]).key == es[i].key
                && requirements_fact(es)[i].operator == es[i].operator
                && requirements_fact(es)[i].values == es[i].values,
{
}

/// A translated node selector keeps its term list in source order.
pub proof fn lemma_order_preservation_terms(s: resource::NodeSelectorView)
    ensures
        node_selector_fact(s).terms.len() == s.node_selector_terms.len(),
        forall|i: int|
            0 <= i < s.node_selector_terms.len() ==> (#[trigger] node_selector_fact(s).terms[i])
                == node_selector_term_fact(s.node_selector_terms[i]),
{
}

// ---------------------------------------------------------------------------
// Upsert semantics
// ---------------------------------------------------------------------------

/// Submitting two facts for one key in turn leaves exactly one current
/// fact for that key — the later one — and touches no other key; the store
/// grew by one exactly when the key was fresh at the start.
pub proof fn lemma_upsert_semantics(s: Seq<FactView>, f1: FactView, f2: FactView)
    requires
        unique_keys(s),
        f1.key() == f2.key(),
    ensures
        unique_keys(upsert(upsert(s, f1), f2)),
        lookup(upsert(upsert(s, f1), f2), f2.key()) == Some(f2),
        forall|k: (Relation, IdentityView)|
            k != f2.key() ==> (#[trigger] lookup(upsert(upsert(s, f1), f2), k)) == lookup(s, k),
        upsert(upsert(s, f1), f2).len() == if has_key(s, f1.key()) {
            s.len() as int
        } else {
            s.len() + 1 as int
        },
{
    lemma_upsert_lookup(s, f1);
    let s1 = upsert(s, f1);
    lemma_upsert_lookup(s1, f2);
    assert(lookup(s1, f2.key()) == Some(f1));
    assert(has_key(s1, f2.key()));
    assert forall|k: (Relation, IdentityView)|
        k != f2.key() implies (#[trigger] lookup(upsert(s1, f2), k)) == lookup(s, k) by {
        assert(lookup(upsert(s1, f2), k) == lookup(s1, k));
        assert(lookup(s1, k) == lookup(s, k));
    }
}

// ---------------------------------------------------------------------------
// Atomic batches
// ---------------------------------------------------------------------------

/// Batches compose: applying one batch and then another, in two commits, is
/// the same as applying their concatenation in one commit, and the reported
/// deltas concatenate likewise.  Commit order alone determines the outcome:
/// no caller ever observes a state between the two halves.
pub proof fn lemma_batch_composition(
    s: Seq<FactView>,
    us1: Seq<UpdateView>,
    us2: Seq<UpdateView>,
)
    ensures
        apply_batch(s, us1 + us2) == apply_batch(apply_batch(s, us1), us2),
        batch_delta(s, us1 + us2) == batch_delta(s, us1) + batch_delta(
            apply_batch(s, us1),
            us2,
        ),
    decreases us1.len(),
{
    if us1.len() == 0 {
        assert(us1 + us2 =~= us2);
        assert(apply_batch(s, us1) == s);
        assert(batch_delta(s, us1) == Seq::<crate::store::DeltaEntryView>::empty());
        assert(batch_delta(s, us1) + batch_delta(s, us2) =~= batch_delta(s, us2));
    } else {
        let s1 = apply_update(s, us1[0]);
        assert((us1 + us2)[0] == us1[0]);
        assert((us1 + us2).drop_first() =~= us1.drop_first() + us2);
        lemma_batch_composition(s1, us1.drop_first(), us2);
        assert(apply_batch(s, us1 + us2) == apply_batch(s1, us1.drop_first() + us2));
        assert(batch_delta(s, us1 + us2) == update_delta(s, us1[0]) + batch_delta(
            s1,
            us1.drop_first() + us2,
        ));
        assert(update_delta(s, us1[0]) + (batch_delta(s1, us1.drop_first()) + batch_delta(
            apply_batch(s1, us1.drop_first()),
            us2,
        )) =~= (update_delta(s, us1[0]) + batch_delta(s1, us1.drop_first())) + batch_delta(
            apply_batch(s1, us1.drop_first()),
            us2,
        ));
    }
}

/// Every insertion of a committed batch is accounted for in the commit's
/// delta: the delta holds an assertion entry carrying that very fact with
/// multiplicity one.  Together with the exact contract of
/// [`crate::store::TransactionManager::apply`] — which reports either the
/// whole batch's delta or, had the call not happened, none of it — no
/// partially accounted batch exists.
pub proof fn lemma_batch_delta_accounts_inserts(
    s: Seq<FactView>,
    us: Seq<UpdateView>,
    i: int,
)
    requires
        0 <= i < us.len(),
        us[i].op == Op::Insert,
    ensures
        exists|j: int|
            0 <= j < batch_delta(s, us).len() && (#[trigger] batch_delta(s, us)[j])
                == delta_entry(us[i].fact, 1),
    decreases us.len(),
{
    let d0 = update_delta(s, us[0]);
    let s1 = apply_update(s, us[0]);
    let rest = batch_delta(s1, us.drop_first());
    assert(batch_delta(s, us) == d0 + rest);
    if i == 0 {
        let j = d0.len() - 1;
        assert(d0[j] == delta_entry(us[0].fact, 1));
        assert(batch_delta(s, us)[j] == delta_entry(us[i].fact, 1));
    } else {
        assert(us.drop_first()[i - 1] == us[i]);
        lemma_batch_delta_accounts_inserts(s1, us.drop_first(), i - 1);
        let j2 = choose|j: int|
            0 <= j < rest.len() && (#[trigger] rest[j]) == delta_entry(us.drop_first()[i - 1].fact, 1);
        assert(batch_delta(s, us)[d0.len() + j2] == rest[j2]);
        assert(batch_delta(s, us)[d0.len() + j2] == delta_entry(us[i].fact, 1));
    }
}

} // verus!
