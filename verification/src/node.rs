//! Translation of host snapshots into [`facts::HostFact`] records.

use vstd::prelude::*;

use crate::common::{copy_opt_string, get_object_metadata, object_meta_fact};
use crate::facts;
use crate::resource;
use crate::store::{
    insert_update, lemma_batch_singleton, update_delta, upsert, DeltaEntry, Op, TransactionManager,
    Update,
};

verus! {

/// The spec part of a host fact: the network range carries over exactly when
/// present, and stays absent (never an empty string) when absent; a snapshot
/// with no spec at all translates to a record with the field absent.
pub open spec fn host_spec_fact(s: Option<resource::NodeSpecView>) -> facts::HostSpecView {
    match s {
        Some(sp) => facts::HostSpecView { pod_cidr: sp.pod_cidr },
        None => facts::HostSpecView { pod_cidr: None },
    }
}

/// The translation of one host snapshot: a total function of the snapshot's
/// view and of nothing else.
pub open spec fn node_fact(n: resource::NodeView) -> facts::HostFactView {
    facts::HostFactView {
        metadata: object_meta_fact(n.metadata),
        spec: host_spec_fact(n.spec),
    }
}

/// Translates one host snapshot into its canonical fact.
pub fn get_node_object(n: &resource::Node) -> (node_obj: facts::HostFact)
    ensures
        node_obj@ == node_fact(n@),
{
    let spec = match &n.spec {
        Some(spec) => facts::HostSpec { pod_cidr: copy_opt_string(&spec.pod_cidr) },
        None => facts::HostSpec { pod_cidr: None },
    };
    facts::HostFact { metadata: get_object_metadata(&n.metadata), spec }
}

/// Translates one host snapshot and commits it as a single-update, atomic
/// insertion batch; hands back the commit's delta.  Any fact already held
/// for the snapshot's identity is replaced, never duplicated.
pub fn inject_node_relation(mgr: &mut TransactionManager, n: &resource::Node) -> (delta: Vec<
    DeltaEntry,
>)
    requires
        old(mgr).wf(),
    ensures
        final(mgr).wf(),
        final(mgr)@ == upsert(old(mgr)@, facts::FactView::Host(node_fact(n@))),
        delta.deep_view() == update_delta(
            old(mgr)@,
            insert_update(facts::FactView::Host(node_fact(n@))),
        ),
{
    let node_obj = get_node_object(n);
    let updates = vec![Update { op: Op::Insert, fact: facts::Fact::Host(node_obj) }];
    proof {
        assert(updates.deep_view() =~= seq![insert_update(facts::FactView::Host(node_fact(n@)))]);
        lemma_batch_singleton(old(mgr)@, insert_update(facts::FactView::Host(node_fact(n@))));
    }
    mgr.apply(updates)
}

} // verus!
