//! The input side of the translator: plain, fully typed models of the
//! resource descriptions that a cluster change stream delivers.
//!
//! Every optional field of the source schema is an `Option` here, so that
//! "present" and "absent" are distinguished structurally, never by a default
//! value.  Sequence-valued fields keep the source's iteration order.  The
//! field names follow the source schema (including the long
//! `required_during_scheduling_ignored_during_execution`), so that the glue
//! code that fills these records from a live stream is a transparent
//! field-for-field copy.
//!
//! Each type carries a mathematical view (`...View`) over `Seq` and `Option`,
//! which is what the translator's contracts speak of.

use vstd::prelude::*;

use crate::kv::{KeyValue, KeyValueView};

verus! {

/// One selector requirement: a key, an operator and an optional list of
/// operand values.  The source schema has two structurally identical copies
/// of this record (one for node selectors, one for label selectors); the
/// model shares a single type between the two positions.
pub struct Requirement {
    pub key: String,
    pub operator: String,
    pub values: Option<Vec<String>>,
}

#[verifier::ext_equal]
pub struct RequirementView {
    pub key: Seq<char>,
    pub operator: Seq<char>,
    pub values: Option<Seq<Seq<char>>>,
}

impl View for Requirement {
    type V = RequirementView;

    open spec fn view(&self) -> RequirementView {
        RequirementView {
            key: self.key@,
            operator: self.operator@,
            values: self.values.deep_view(),
        }
    }
}

impl DeepView for Requirement {
    type V = RequirementView;

    open spec fn deep_view(&self) -> RequirementView {
        self.view()
    }
}

/// One term of a node selector: two optional requirement lists.
pub struct NodeSelectorTerm {
    pub match_expressions: Option<Vec<Requirement>>,
    pub match_fields: Option<Vec<Requirement>>,
}

#[verifier::ext_equal]
pub struct NodeSelectorTermView {
    pub match_expressions: Option<Seq<RequirementView>>,
    pub match_fields: Option<Seq<RequirementView>>,
}

impl View for NodeSelectorTerm {
    type V = NodeSelectorTermView;

    open spec fn view(&self) -> NodeSelectorTermView {
        NodeSelectorTermView {
            match_expressions: self.match_expressions.deep_view(),
            match_fields: self.match_fields.deep_view(),
        }
    }
}

impl DeepView for NodeSelectorTerm {
    type V = NodeSelectorTermView;

    open spec fn deep_view(&self) -> NodeSelectorTermView {
        self.view()
    }
}

/// A node selector: a required (possibly empty) ordered list of terms.
pub struct NodeSelector {
    pub node_selector_terms: Vec<NodeSelectorTerm>,
}

#[verifier::ext_equal]
pub struct NodeSelectorView {
    pub node_selector_terms: Seq<NodeSelectorTermView>,
}

impl View for NodeSelector {
    type V = NodeSelectorView;

    open spec fn view(&self) -> NodeSelectorView {
        NodeSelectorView { node_selector_terms: self.node_selector_terms.deep_view() }
    }
}

impl DeepView for NodeSelector {
    type V = NodeSelectorView;

    open spec fn deep_view(&self) -> NodeSelectorView {
        self.view()
    }
}

/// Node affinity as the source schema states it.  Only the hard scheduling
/// constraint is read by the translator; the projection is a strict subset
/// of the source fields.
pub struct NodeAffinity {
    pub required_during_scheduling_ignored_during_execution: Option<NodeSelector>,
}

#[verifier::ext_equal]
pub struct NodeAffinityView {
    pub required_during_scheduling_ignored_during_execution: Option<NodeSelectorView>,
}

impl View for NodeAffinity {
    type V = NodeAffinityView;

    open spec fn view(&self) -> NodeAffinityView {
        NodeAffinityView {
            required_during_scheduling_ignored_during_execution:
                self.required_during_scheduling_ignored_during_execution.deep_view(),
        }
    }
}

impl DeepView for NodeAffinity {
    type V = NodeAffinityView;

    open spec fn deep_view(&self) -> NodeAffinityView {
        self.view()
    }
}

/// A label selector: optional requirement list and optional label mapping,
/// the mapping kept as an ordered entry sequence.
pub struct LabelSelector {
    pub match_expressions: Option<Vec<Requirement>>,
    pub match_labels: Option<Vec<KeyValue>>,
}

#[verifier::ext_equal]
pub struct LabelSelectorView {
    pub match_expressions: Option<Seq<RequirementView>>,
    pub match_labels: Option<Seq<KeyValueView>>,
}

impl View for LabelSelector {
    type V = LabelSelectorView;

    open spec fn view(&self) -> LabelSelectorView {
        LabelSelectorView {
            match_expressions: self.match_expressions.deep_view(),
            match_labels: self.match_labels.deep_view(),
        }
    }
}

impl DeepView for LabelSelector {
    type V = LabelSelectorView;

    open spec fn deep_view(&self) -> LabelSelectorView {
        self.view()
    }
}

/// One term of a workload (anti-)affinity constraint.
pub struct PodAffinityTerm {
    pub label_selector: Option<LabelSelector>,
    pub namespace_selector: Option<LabelSelector>,
    pub namespaces: Option<Vec<String>>,
    pub topology_key: String,
}

#[verifier::ext_equal]
pub struct PodAffinityTermView {
    pub label_selector: Option<LabelSelectorView>,
    pub namespace_selector: Option<LabelSelectorView>,
    pub namespaces: Option<Seq<Seq<char>>>,
    pub topology_key: Seq<char>,
}

impl View for PodAffinityTerm {
    type V = PodAffinityTermView;

    open spec fn view(&self) -> PodAffinityTermView {
        PodAffinityTermView {
            label_selector: self.label_selector.deep_view(),
            namespace_selector: self.namespace_selector.deep_view(),
            namespaces: self.namespaces.deep_view(),
            topology_key: self.topology_key@,
        }
    }
}

impl DeepView for PodAffinityTerm {
    type V = PodAffinityTermView;

    open spec fn deep_view(&self) -> PodAffinityTermView {
        self.view()
    }
}

/// Workload affinity as the source schema states it.  The same shape stands
/// in the `pod_affinity` and the `pod_anti_affinity` slot of [`Affinity`].
pub struct PodAffinity {
    pub required_during_scheduling_ignored_during_execution: Option<Vec<PodAffinityTerm>>,
}

#[verifier::ext_equal]
pub struct PodAffinityView {
    pub required_during_scheduling_ignored_during_execution: Option<Seq<PodAffinityTermView>>,
}

impl View for PodAffinity {
    type V = PodAffinityView;

    open spec fn view(&self) -> PodAffinityView {
        PodAffinityView {
            required_during_scheduling_ignored_during_execution:
                self.required_during_scheduling_ignored_during_execution.deep_view(),
        }
    }
}

impl DeepView for PodAffinity {
    type V = PodAffinityView;

    open spec fn deep_view(&self) -> PodAffinityView {
        self.view()
    }
}

/// The placement-affinity sub-structure of a workload: three independent
/// optional slots.
pub struct Affinity {
    pub node_affinity: Option<NodeAffinity>,
    pub pod_affinity: Option<PodAffinity>,
    pub pod_anti_affinity: Option<PodAffinity>,
}

#[verifier::ext_equal]
pub struct AffinityView {
    pub node_affinity: Option<NodeAffinityView>,
    pub pod_affinity: Option<PodAffinityView>,
    pub pod_anti_affinity: Option<PodAffinityView>,
}

impl View for Affinity {
    type V = AffinityView;

    open spec fn view(&self) -> AffinityView {
        AffinityView {
            node_affinity: self.node_affinity.deep_view(),
            pod_affinity: self.pod_affinity.deep_view(),
            pod_anti_affinity: self.pod_anti_affinity.deep_view(),
        }
    }
}

impl DeepView for Affinity {
    type V = AffinityView;

    open spec fn deep_view(&self) -> AffinityView {
        self.view()
    }
}

/// The object metadata common to all watched resource kinds.  The labels
/// mapping is kept as an entry sequence in the source's iteration order.
pub struct ObjectMeta {
    pub name: Option<String>,
    pub cluster_name: Option<String>,
    pub namespace: Option<String>,
    pub uid: Option<String>,
    pub labels: Option<Vec<KeyValue>>,
}

#[verifier::ext_equal]
pub struct ObjectMetaView {
    pub name: Option<Seq<char>>,
    pub cluster_name: Option<Seq<char>>,
    pub namespace: Option<Seq<char>>,
    pub uid: Option<Seq<char>>,
    pub labels: Option<Seq<KeyValueView>>,
}

impl View for ObjectMeta {
    type V = ObjectMetaView;

    open spec fn view(&self) -> ObjectMetaView {
        ObjectMetaView {
            name: self.name.deep_view(),
            cluster_name: self.cluster_name.deep_view(),
            namespace: self.namespace.deep_view(),
            uid: self.uid.deep_view(),
            labels: self.labels.deep_view(),
        }
    }
}

impl DeepView for ObjectMeta {
    type V = ObjectMetaView;

    open spec fn deep_view(&self) -> ObjectMetaView {
        self.view()
    }
}

/// The part of a workload's specification that the translator projects.
pub struct PodSpec {
    pub node_name: Option<String>,
    pub affinity: Option<Affinity>,
}

#[verifier::ext_equal]
pub struct PodSpecView {
    pub node_name: Option<Seq<char>>,
    pub affinity: Option<AffinityView>,
}

impl View for PodSpec {
    type V = PodSpecView;

    open spec fn view(&self) -> PodSpecView {
        PodSpecView {
            node_name: self.node_name.deep_view(),
            affinity: self.affinity.deep_view(),
        }
    }
}

impl DeepView for PodSpec {
    type V = PodSpecView;

    open spec fn deep_view(&self) -> PodSpecView {
        self.view()
    }
}

/// A workload-unit resource snapshot: metadata plus an optional spec.
/// A snapshot with no spec at all is still translatable.
pub struct Pod {
    pub metadata: ObjectMeta,
    pub spec: Option<PodSpec>,
}

#[verifier::ext_equal]
pub struct PodView {
    pub metadata: ObjectMetaView,
    pub spec: Option<PodSpecView>,
}

impl View for Pod {
    type V = PodView;

    open spec fn view(&self) -> PodView {
        PodView { metadata: self.metadata@, spec: self.spec.deep_view() }
    }
}

impl DeepView for Pod {
    type V = PodView;

    open spec fn deep_view(&self) -> PodView {
        self.view()
    }
}

/// The part of a host's specification that the translator projects.
pub struct NodeSpec {
    pub pod_cidr: Option<String>,
}

#[verifier::ext_equal]
pub struct NodeSpecView {
    pub pod_cidr: Option<Seq<char>>,
}

impl View for NodeSpec {
    type V = NodeSpecView;

    open spec fn view(&self) -> NodeSpecView {
        NodeSpecView { pod_cidr: self.pod_cidr.deep_view() }
    }
}

impl DeepView for NodeSpec {
    type V = NodeSpecView;

    open spec fn deep_view(&self) -> NodeSpecView {
        self.view()
    }
}

/// A host resource snapshot: metadata plus an optional spec.
pub struct Node {
    pub metadata: ObjectMeta,
    pub spec: Option<NodeSpec>,
}

#[verifier::ext_equal]
pub struct NodeView {
    pub metadata: ObjectMetaView,
    pub spec: Option<NodeSpecView>,
}

impl View for Node {
    type V = NodeView;

    open spec fn view(&self) -> NodeView {
        NodeView { metadata: self.metadata@, spec: self.spec.deep_view() }
    }
}

impl DeepView for Node {
    type V = NodeView;

    open spec fn deep_view(&self) -> NodeView {
        self.view()
    }
}

} // verus!
