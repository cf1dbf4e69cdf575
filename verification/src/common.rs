//! Metadata translation shared by every resource kind.
//!
//! The functions here are total and pure: they never fail, never default a
//! missing field, and copy label entries in the source's iteration order.

use vstd::prelude::*;

use crate::facts;
use crate::kv::KeyValue;
use crate::resource;

verus! {

/// What metadata translation returns: the same fields, re-represented in the
/// canonical schema.  A field absent in the source is absent in the fact.
pub open spec fn object_meta_fact(m: resource::ObjectMetaView) -> facts::ObjectMetaView {
    facts::ObjectMetaView {
        name: m.name,
        cluster_name: m.cluster_name,
        namespace: m.namespace,
        uid: m.uid,
        labels: m.labels,
    }
}

/// Translates an optional label mapping.  An absent mapping stays absent; a
/// present one is rebuilt entry by entry, preserving the source order.
pub fn get_labels(label_tree: &Option<Vec<KeyValue>>) -> (r: Option<Vec<KeyValue>>)
    ensures
        r.deep_view() == label_tree.deep_view(),
{
    match label_tree {
        Some(lbl_map) => {
            let mut map: Vec<KeyValue> = Vec::new();
            let mut i: usize = 0;
            while i < lbl_map.len()
                invariant
                    i <= lbl_map.len(),
                    map.deep_view() == lbl_map.deep_view().take(i as int),
                decreases lbl_map.len() - i,
            {
                let ghost pre = map.deep_view();
                map.push(lbl_map[i].clone());
                i = i + 1;
                proof {
                    assert(map.deep_view() =~= pre.push(lbl_map.deep_view()[i - 1]));
                    assert(map.deep_view() =~= lbl_map.deep_view().take(i as int));
                }
            }
            proof {
                assert(lbl_map.deep_view().take(lbl_map.len() as int) =~= lbl_map.deep_view());
            }
            Some(map)
        },
        None => None,
    }
}

/// A fresh copy of an optional string, present exactly when the source is.
pub(crate) fn copy_opt_string(o: &Option<String>) -> (r: Option<String>)
    ensures
        r.deep_view() == o.deep_view(),
{
    match o {
        Some(s) => Some(s.clone()),
        None => None,
    }
}

/// Translates resource metadata into fact metadata.  Name, cluster name,
/// namespace, unique identifier and labels are each carried over exactly;
/// none is defaulted when absent.
pub fn get_object_metadata(meta: &resource::ObjectMeta) -> (r: facts::ObjectMeta)
    ensures
        r@ == object_meta_fact(meta@),
{
    facts::ObjectMeta {
        name: copy_opt_string(&meta.name),
        cluster_name: copy_opt_string(&meta.cluster_name),
        namespace: copy_opt_string(&meta.namespace),
        uid: copy_opt_string(&meta.uid),
        labels: get_labels(&meta.labels),
    }
}

} // verus!
