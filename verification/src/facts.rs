//! The canonical fact schema: the strongly typed records that the translator
//! emits and the transaction manager commits.
//!
//! A fact is keyed by the identity of its source resource (name, namespace
//! and cluster name); the store treats successive facts for one identity as
//! replacements, never as accumulating rows.  Every optional field of the
//! source schema stays optional here, so a fact states exactly which fields
//! the source carried.

use vstd::prelude::*;

use crate::kv::{KeyValue, KeyValueView};

verus! {

// ---------------------------------------------------------------------------
// Selector requirements
// ---------------------------------------------------------------------------

/// One selector requirement of a fact: key, operator, optional value list.
/// Shared by node-selector terms and label selectors.
#[derive(Debug, PartialEq)]
pub struct Requirement {
    pub key: String,
    pub operator: String,
    pub values: Option<Vec<String>>,
}

#[verifier::ext_equal]
pub struct RequirementView {
    pub key: Seq<char>,
    pub operator: Seq<char>,
    pub values: Option<Seq<Seq<char>>>,
}

impl View for Requirement {
    type V = RequirementView;

    open spec fn view(&self) -> RequirementView {
        RequirementView {
            key: self.key@,
            operator: self.operator@,
            values: self.values.deep_view(),
        }
    }
}

impl DeepView for Requirement {
    type V = RequirementView;

    open spec fn deep_view(&self) -> RequirementView {
        self.view()
    }
}

/// A fresh copy of a string list with the same contents in the same order.
fn clone_strings(v: &Vec<String>) -> (r: Vec<String>)
    ensures
        r.deep_view() == v.deep_view(),
{
    let mut r: Vec<String> = Vec::new();
    let mut i: usize = 0;
    while i < v.len()
        invariant
            i <= v.len(),
            r.deep_view() == v.deep_view().take(i as int),
        decreases v.len() - i,
    {
        let ghost pre = r.deep_view();
        r.push(v[i].clone());
        i = i + 1;
        proof {
            assert(r.deep_view() =~= pre.push(v.deep_view()[i - 1]));
            assert(r.deep_view() =~= v.deep_view().take(i as int));
        }
    }
    proof {
        assert(v.deep_view().take(v.len() as int) =~= v.deep_view());
    }
    r
}

/// A fresh copy of an optional string, present exactly when the source is.
fn clone_opt_string(o: &Option<String>) -> (r: Option<String>)
    ensures
        r.deep_view() == o.deep_view(),
{
    match o {
        Some(s) => Some(s.clone()),
        None => None,
    }
}

impl Clone for Requirement {
    fn clone(&self) -> (r: Requirement)
        ensures
            r@ == self@,
    {
        Requirement {
            key: self.key.clone(),
            operator: self.operator.clone(),
            values: match &self.values {
                Some(v) => Some(clone_strings(v)),
                None => None,
            },
        }
    }
}

/// A fresh copy of a requirement list with the same contents in order.
fn clone_requirements(v: &Vec<Requirement>) -> (r: Vec<Requirement>)
    ensures
        r.deep_view() == v.deep_view(),
{
    let mut r: Vec<Requirement> = Vec::new();
    let mut i: usize = 0;
    while i < v.len()
        invariant
            i <= v.len(),
            r.deep_view() == v.deep_view().take(i as int),
        decreases v.len() - i,
    {
        let ghost pre = r.deep_view();
        r.push(v[i].clone());
        i = i + 1;
        proof {
            assert(r.deep_view() =~= pre.push(v.deep_view()[i - 1]));
            assert(r.deep_view() =~= v.deep_view().take(i as int));
        }
    }
    proof {
        assert(v.deep_view().take(v.len() as int) =~= v.deep_view());
    }
    r
}

/// A fresh copy of a label-entry list with the same contents in order.
fn clone_keyvalues(v: &Vec<KeyValue>) -> (r: Vec<KeyValue>)
    ensures
        r.deep_view() == v.deep_view(),
{
    let mut r: Vec<KeyValue> = Vec::new();
    let mut i: usize = 0;
    while i < v.len()
        invariant
            i <= v.len(),
            r.deep_view() == v.deep_view().take(i as int),
        decreases v.len() - i,
    {
        let ghost pre = r.deep_view();
        r.push(v[i].clone());
        i = i + 1;
        proof {
            assert(r.deep_view() =~= pre.push(v.deep_view()[i - 1]));
            assert(r.deep_view() =~= v.deep_view().take(i as int));
        }
    }
    proof {
        assert(v.deep_view().take(v.len() as int) =~= v.deep_view());
    }
    r
}

// ---------------------------------------------------------------------------
// Node affinity
// ---------------------------------------------------------------------------

/// One term of a node selector.
#[derive(Debug, PartialEq)]
pub struct NodeSelectorTerm {
    pub match_expressions: Option<Vec<Requirement>>,
    pub match_fields: Option<Vec<Requirement>>,
}

#[verifier::ext_equal]
pub struct NodeSelectorTermView {
    pub match_expressions: Option<Seq<RequirementView>>,
    pub match_fields: Option<Seq<RequirementView>>,
}

impl View for NodeSelectorTerm {
    type V = NodeSelectorTermView;

    open spec fn view(&self) -> NodeSelectorTermView {
        NodeSelectorTermView {
            match_expressions: self.match_expressions.deep_view(),
            match_fields: self.match_fields.deep_view(),
        }
    }
}

impl DeepView for NodeSelectorTerm {
    type V = NodeSelectorTermView;

    open spec fn deep_view(&self) -> NodeSelectorTermView {
        self.view()
    }
}

impl Clone for NodeSelectorTerm {
    fn clone(&self) -> (r: NodeSelectorTerm)
        ensures
            r@ == self@,
    {
        NodeSelectorTerm {
            match_expressions: match &self.match_expressions {
                Some(v) => Some(clone_requirements(v)),
                None => None,
            },
            match_fields: match &self.match_fields {
                Some(v) => Some(clone_requirements(v)),
                None => None,
            },
        }
    }
}

/// A node selector: a required, possibly empty, ordered list of terms.
/// The list is always present once the selector itself is present.
#[derive(Debug, PartialEq)]
pub struct NodeSelector {
    pub terms: Vec<NodeSelectorTerm>,
}

#[verifier::ext_equal]
pub struct NodeSelectorView {
    pub terms: Seq<NodeSelectorTermView>,
}

impl View for NodeSelector {
    type V = NodeSelectorView;

    open spec fn view(&self) -> NodeSelectorView {
        NodeSelectorView { terms: self.terms.deep_view() }
    }
}

impl DeepView for NodeSelector {
    type V = NodeSelectorView;

    open spec fn deep_view(&self) -> NodeSelectorView {
        self.view()
    }
}

/// A fresh copy of a node-selector term list with the same contents in order.
fn clone_node_terms(v: &Vec<NodeSelectorTerm>) -> (r: Vec<NodeSelectorTerm>)
    ensures
        r.deep_view() == v.deep_view(),
{
    let mut r: Vec<NodeSelectorTerm> = Vec::new();
    let mut i: usize = 0;
    while i < v.len()
        invariant
            i <= v.len(),
            r.deep_view() == v.deep_view().take(i as int),
        decreases v.len() - i,
    {
        let ghost pre = r.deep_view();
        r.push(v[i].clone());
        i = i + 1;
        proof {
            assert(r.deep_view() =~= pre.push(v.deep_view()[i - 1]));
            assert(r.deep_view() =~= v.deep_view().take(i as int));
        }
    }
    proof {
        assert(v.deep_view().take(v.len() as int) =~= v.deep_view());
    }
    r
}

impl Clone for NodeSelector {
    fn clone(&self) -> (r: NodeSelector)
        ensures
            r@ == self@,
    {
        NodeSelector { terms: clone_node_terms(&self.terms) }
    }
}

/// The hard node-affinity constraint of a workload fact.
#[derive(Debug, PartialEq)]
pub struct NodeAffinity {
    pub required: Option<NodeSelector>,
}

#[verifier::ext_equal]
pub struct NodeAffinityView {
    pub required: Option<NodeSelectorView>,
}

impl View for NodeAffinity {
    type V = NodeAffinityView;

    open spec fn view(&self) -> NodeAffinityView {
        NodeAffinityView { required: self.required.deep_view() }
    }
}

impl DeepView for NodeAffinity {
    type V = NodeAffinityView;

    open spec fn deep_view(&self) -> NodeAffinityView {
        self.view()
    }
}

impl Clone for NodeAffinity {
    fn clone(&self) -> (r: NodeAffinity)
        ensures
            r@ == self@,
    {
        NodeAffinity {
            required: match &self.required {
                Some(s) => Some(s.clone()),
                None => None,
            },
        }
    }
}

// ---------------------------------------------------------------------------
// Workload affinity
// ---------------------------------------------------------------------------

/// A label selector of a fact.
#[derive(Debug, PartialEq)]
pub struct LabelSelector {
    pub match_expressions: Option<Vec<Requirement>>,
    pub match_labels: Option<Vec<KeyValue>>,
}

#[verifier::ext_equal]
pub struct LabelSelectorView {
    pub match_expressions: Option<Seq<RequirementView>>,
    pub match_labels: Option<Seq<KeyValueView>>,
}

impl View for LabelSelector {
    type V = LabelSelectorView;

    open spec fn view(&self) -> LabelSelectorView {
        LabelSelectorView {
            match_expressions: self.match_expressions.deep_view(),
            match_labels: self.match_labels.deep_view(),
        }
    }
}

impl DeepView for LabelSelector {
    type V = LabelSelectorView;

    open spec fn deep_view(&self) -> LabelSelectorView {
        self.view()
    }
}

impl Clone for LabelSelector {
    fn clone(&self) -> (r: LabelSelector)
        ensures
            r@ == self@,
    {
        LabelSelector {
            match_expressions: match &self.match_expressions {
                Some(v) => Some(clone_requirements(v)),
                None => None,
            },
            match_labels: match &self.match_labels {
                Some(v) => Some(clone_keyvalues(v)),
                None => None,
            },
        }
    }
}

/// One term of a workload (anti-)affinity constraint.
#[derive(Debug, PartialEq)]
pub struct PodAffinityTerm {
    pub label_selector: Option<LabelSelector>,
    pub namespace_selector: Option<LabelSelector>,
    pub namespaces: Option<Vec<String>>,
    pub topology_key: String,
}

#[verifier::ext_equal]
pub struct PodAffinityTermView {
    pub label_selector: Option<LabelSelectorView>,
    pub namespace_selector: Option<LabelSelectorView>,
    pub namespaces: Option<Seq<Seq<char>>>,
    pub topology_key: Seq<char>,
}

impl View for PodAffinityTerm {
    type V = PodAffinityTermView;

    open spec fn view(&self) -> PodAffinityTermView {
        PodAffinityTermView {
            label_selector: self.label_selector.deep_view(),
            namespace_selector: self.namespace_selector.deep_view(),
            namespaces: self.namespaces.deep_view(),
            topology_key: self.topology_key@,
        }
    }
}

impl DeepView for PodAffinityTerm {
    type V = PodAffinityTermView;

    open spec fn deep_view(&self) -> PodAffinityTermView {
        self.view()
    }
}

impl Clone for PodAffinityTerm {
    fn clone(&self) -> (r: PodAffinityTerm)
        ensures
            r@ == self@,
    {
        PodAffinityTerm {
            label_selector: match &self.label_selector {
                Some(s) => Some(s.clone()),
                None => None,
            },
            namespace_selector: match &self.namespace_selector {
                Some(s) => Some(s.clone()),
                None => None,
            },
            namespaces: match &self.namespaces {
                Some(v) => Some(clone_strings(v)),
                None => None,
            },
            topology_key: self.topology_key.clone(),
        }
    }
}

/// The workload-affinity constraint of a fact; the same shape stands in the
/// `pod_affinity` and the `pod_anti_affinity` slot of [`Affinity`].
#[derive(Debug, PartialEq)]
pub struct PodAffinity {
    pub required: Option<Vec<PodAffinityTerm>>,
}

#[verifier::ext_equal]
pub struct PodAffinityView {
    pub required: Option<Seq<PodAffinityTermView>>,
}

impl View for PodAffinity {
    type V = PodAffinityView;

    open spec fn view(&self) -> PodAffinityView {
        PodAffinityView { required: self.required.deep_view() }
    }
}

impl DeepView for PodAffinity {
    type V = PodAffinityView;

    open spec fn deep_view(&self) -> PodAffinityView {
        self.view()
    }
}

/// A fresh copy of an affinity-term list with the same contents in order.
fn clone_pod_terms(v: &Vec<PodAffinityTerm>) -> (r: Vec<PodAffinityTerm>)
    ensures
        r.deep_view() == v.deep_view(),
{
    let mut r: Vec<PodAffinityTerm> = Vec::new();
    let mut i: usize = 0;
    while i < v.len()
        invariant
            i <= v.len(),
            r.deep_view() == v.deep_view().take(i as int),
        decreases v.len() - i,
    {
        let ghost pre = r.deep_view();
        r.push(v[i].clone());
        i = i + 1;
        proof {
            assert(r.deep_view() =~= pre.push(v.deep_view()[i - 1]));
            assert(r.deep_view() =~= v.deep_view().take(i as int));
        }
    }
    proof {
        assert(v.deep_view().take(v.len() as int) =~= v.deep_view());
    }
    r
}

impl Clone for PodAffinity {
    fn clone(&self) -> (r: PodAffinity)
        ensures
            r@ == self@,
    {
        PodAffinity {
            required: match &self.required {
                Some(v) => Some(clone_pod_terms(v)),
                None => None,
            },
        }
    }
}

/// The placement-affinity sub-structure of a workload fact: three
/// independent optional slots.
#[derive(Debug, PartialEq)]
pub struct Affinity {
    pub node_affinity: Option<NodeAffinity>,
    pub pod_affinity: Option<PodAffinity>,
    pub pod_anti_affinity: Option<PodAffinity>,
}

#[verifier::ext_equal]
pub struct AffinityView {
    pub node_affinity: Option<NodeAffinityView>,
    pub pod_affinity: Option<PodAffinityView>,
    pub pod_anti_affinity: Option<PodAffinityView>,
}

impl View for Affinity {
    type V = AffinityView;

    open spec fn view(&self) -> AffinityView {
        AffinityView {
            node_affinity: self.node_affinity.deep_view(),
            pod_affinity: self.pod_affinity.deep_view(),
            pod_anti_affinity: self.pod_anti_affinity.deep_view(),
        }
    }
}

impl DeepView for Affinity {
    type V = AffinityView;

    open spec fn deep_view(&self) -> AffinityView {
        self.view()
    }
}

impl Clone for Affinity {
    fn clone(&self) -> (r: Affinity)
        ensures
            r@ == self@,
    {
        Affinity {
            node_affinity: match &self.node_affinity {
                Some(a) => Some(a.clone()),
                None => None,
            },
            pod_affinity: match &self.pod_affinity {
                Some(a) => Some(a.clone()),
                None => None,
            },
            pod_anti_affinity: match &self.pod_anti_affinity {
                Some(a) => Some(a.clone()),
                None => None,
            },
        }
    }
}

// ---------------------------------------------------------------------------
// Metadata and the two fact kinds
// ---------------------------------------------------------------------------

/// The metadata of a fact.  Every field is optional: a field absent in the
/// source resource is absent here, never defaulted.
#[derive(Debug, PartialEq)]
pub struct ObjectMeta {
    pub name: Option<String>,
    pub cluster_name: Option<String>,
    pub namespace: Option<String>,
    pub uid: Option<String>,
    pub labels: Option<Vec<KeyValue>>,
}

#[verifier::ext_equal]
pub struct ObjectMetaView {
    pub name: Option<Seq<char>>,
    pub cluster_name: Option<Seq<char>>,
    pub namespace: Option<Seq<char>>,
    pub uid: Option<Seq<char>>,
    pub labels: Option<Seq<KeyValueView>>,
}

impl View for ObjectMeta {
    type V = ObjectMetaView;

    open spec fn view(&self) -> ObjectMetaView {
        ObjectMetaView {
            name: self.name.deep_view(),
            cluster_name: self.cluster_name.deep_view(),
            namespace: self.namespace.deep_view(),
            uid: self.uid.deep_view(),
            labels: self.labels.deep_view(),
        }
    }
}

impl DeepView for ObjectMeta {
    type V = ObjectMetaView;

    open spec fn deep_view(&self) -> ObjectMetaView {
        self.view()
    }
}

impl Clone for ObjectMeta {
    fn clone(&self) -> (r: ObjectMeta)
        ensures
            r@ == self@,
    {
        ObjectMeta {
            name: clone_opt_string(&self.name),
            cluster_name: clone_opt_string(&self.cluster_name),
            namespace: clone_opt_string(&self.namespace),
            uid: clone_opt_string(&self.uid),
            labels: match &self.labels {
                Some(v) => Some(clone_keyvalues(v)),
                None => None,
            },
        }
    }
}

/// The identity under which the store keys a fact: name, namespace and
/// cluster name of the source resource.
#[verifier::ext_equal]
pub struct IdentityView {
    pub name: Option<Seq<char>>,
    pub namespace: Option<Seq<char>>,
    pub cluster_name: Option<Seq<char>>,
}

impl ObjectMetaView {
    /// The fact identity carried by this metadata.
    pub open spec fn identity(self) -> IdentityView {
        IdentityView { name: self.name, namespace: self.namespace, cluster_name: self.cluster_name }
    }
}

/// Whether two optional strings hold the same value (or are both absent).
fn opt_string_eq(a: &Option<String>, b: &Option<String>) -> (r: bool)
    ensures
        r == (a.deep_view() == b.deep_view()),
{
    match (a, b) {
        (Some(x), Some(y)) => *x == *y,
        (None, None) => true,
        _ => false,
    }
}

impl ObjectMeta {
    /// Whether two facts' metadata carry the same identity.
    pub fn same_identity(&self, other: &ObjectMeta) -> (r: bool)
        ensures
            r == (self@.identity() == other@.identity()),
    {
        opt_string_eq(&self.name, &other.name)
            && opt_string_eq(&self.namespace, &other.namespace)
            && opt_string_eq(&self.cluster_name, &other.cluster_name)
    }
}

/// The specification part of a workload fact.  It is always present on the
/// fact; each of its fields is present exactly when the source carried it.
#[derive(Debug, PartialEq)]
pub struct WorkloadSpec {
    pub node_name: Option<String>,
    pub affinity: Option<Affinity>,
}

#[verifier::ext_equal]
pub struct WorkloadSpecView {
    pub node_name: Option<Seq<char>>,
    pub affinity: Option<AffinityView>,
}

impl View for WorkloadSpec {
    type V = WorkloadSpecView;

    open spec fn view(&self) -> WorkloadSpecView {
        WorkloadSpecView {
            node_name: self.node_name.deep_view(),
            affinity: self.affinity.deep_view(),
        }
    }
}

impl DeepView for WorkloadSpec {
    type V = WorkloadSpecView;

    open spec fn deep_view(&self) -> WorkloadSpecView {
        self.view()
    }
}

impl Clone for WorkloadSpec {
    fn clone(&self) -> (r: WorkloadSpec)
        ensures
            r@ == self@,
    {
        WorkloadSpec {
            node_name: clone_opt_string(&self.node_name),
            affinity: match &self.affinity {
                Some(a) => Some(a.clone()),
                None => None,
            },
        }
    }
}

/// The canonical record of one workload unit.
#[derive(Debug, PartialEq)]
pub struct WorkloadFact {
    pub metadata: ObjectMeta,
    pub spec: WorkloadSpec,
}

#[verifier::ext_equal]
pub struct WorkloadFactView {
    pub metadata: ObjectMetaView,
    pub spec: WorkloadSpecView,
}

impl View for WorkloadFact {
    type V = WorkloadFactView;

    open spec fn view(&self) -> WorkloadFactView {
        WorkloadFactView { metadata: self.metadata@, spec: self.spec@ }
    }
}

impl DeepView for WorkloadFact {
    type V = WorkloadFactView;

    open spec fn deep_view(&self) -> WorkloadFactView {
        self.view()
    }
}

impl Clone for WorkloadFact {
    fn clone(&self) -> (r: WorkloadFact)
        ensures
            r@ == self@,
    {
        WorkloadFact { metadata: self.metadata.clone(), spec: self.spec.clone() }
    }
}

impl WorkloadFactView {
    /// The identity under which the store keys this fact.
    pub open spec fn identity(self) -> IdentityView {
        self.metadata.identity()
    }
}

/// The specification part of a host fact.
#[derive(Debug, PartialEq)]
pub struct HostSpec {
    pub pod_cidr: Option<String>,
}

#[verifier::ext_equal]
pub struct HostSpecView {
    pub pod_cidr: Option<Seq<char>>,
}

impl View for HostSpec {
    type V = HostSpecView;

    open spec fn view(&self) -> HostSpecView {
        HostSpecView { pod_cidr: self.pod_cidr.deep_view() }
    }
}

impl DeepView for HostSpec {
    type V = HostSpecView;

    open spec fn deep_view(&self) -> HostSpecView {
        self.view()
    }
}

impl Clone for HostSpec {
    fn clone(&self) -> (r: HostSpec)
        ensures
            r@ == self@,
    {
        HostSpec { pod_cidr: clone_opt_string(&self.pod_cidr) }
    }
}

/// The canonical record of one host.
#[derive(Debug, PartialEq)]
pub struct HostFact {
    pub metadata: ObjectMeta,
    pub spec: HostSpec,
}

#[verifier::ext_equal]
pub struct HostFactView {
    pub metadata: ObjectMetaView,
    pub spec: HostSpecView,
}

impl View for HostFact {
    type V = HostFactView;

    open spec fn view(&self) -> HostFactView {
        HostFactView { metadata: self.metadata@, spec: self.spec@ }
    }
}

impl DeepView for HostFact {
    type V = HostFactView;

    open spec fn deep_view(&self) -> HostFactView {
        self.view()
    }
}

impl Clone for HostFact {
    fn clone(&self) -> (r: HostFact)
        ensures
            r@ == self@,
    {
        HostFact { metadata: self.metadata.clone(), spec: self.spec.clone() }
    }
}

impl HostFactView {
    /// The identity under which the store keys this fact.
    pub open spec fn identity(self) -> IdentityView {
        self.metadata.identity()
    }
}

// ---------------------------------------------------------------------------
// Relations and tagged facts
// ---------------------------------------------------------------------------

/// The input relation a fact belongs to.  One stable tag per fact kind,
/// agreed with the rule engine at build time.
#[derive(Clone, Copy, Debug, PartialEq, Eq, Structural)]
pub enum Relation {
    Workload,
    Host,
}

/// The symbolic name of a relation, as reported beside each delta.
pub fn relation_name(r: Relation) -> (s: &'static str)
    ensures
        r == Relation::Workload ==> s@ == "WorkloadFact"@,
        r == Relation::Host ==> s@ == "HostFact"@,
{
    match r {
        Relation::Workload => "WorkloadFact",
        Relation::Host => "HostFact",
    }
}

/// A fact tagged with the relation it belongs to.
#[derive(Debug, PartialEq)]
pub enum Fact {
    Workload(WorkloadFact),
    Host(HostFact),
}

#[verifier::ext_equal]
pub enum FactView {
    Workload(WorkloadFactView),
    Host(HostFactView),
}

impl View for Fact {
    type V = FactView;

    open spec fn view(&self) -> FactView {
        match self {
            Fact::Workload(f) => FactView::Workload(f@),
            Fact::Host(f) => FactView::Host(f@),
        }
    }
}

impl DeepView for Fact {
    type V = FactView;

    open spec fn deep_view(&self) -> FactView {
        self.view()
    }
}

impl Clone for Fact {
    fn clone(&self) -> (r: Fact)
        ensures
            r@ == self@,
    {
        match self {
            Fact::Workload(f) => Fact::Workload(f.clone()),
            Fact::Host(f) => Fact::Host(f.clone()),
        }
    }
}

impl FactView {
    /// The relation this fact belongs to.
    pub open spec fn relation(self) -> Relation {
        match self {
            FactView::Workload(_) => Relation::Workload,
            FactView::Host(_) => Relation::Host,
        }
    }

    /// The identity under which the store keys this fact.
    pub open spec fn identity(self) -> IdentityView {
        match self {
            FactView::Workload(f) => f.identity(),
            FactView::Host(f) => f.identity(),
        }
    }
}

impl FactView {
    /// The key under which the store holds this fact: its relation together
    /// with its identity.  Facts of different relations never collide.
    pub open spec fn key(self) -> (Relation, IdentityView) {
        (self.relation(), self.identity())
    }
}

impl Fact {
    /// The relation this fact belongs to.
    pub fn relation(&self) -> (r: Relation)
        ensures
            r == self@.relation(),
    {
        match self {
            Fact::Workload(_) => Relation::Workload,
            Fact::Host(_) => Relation::Host,
        }
    }

    /// Whether two facts would occupy the same slot of the store: same
    /// relation and same identity.
    pub fn same_key(&self, other: &Fact) -> (r: bool)
        ensures
            r == (self@.key() == other@.key()),
    {
        match (self, other) {
            (Fact::Workload(a), Fact::Workload(b)) => a.metadata.same_identity(&b.metadata),
            (Fact::Host(a), Fact::Host(b)) => a.metadata.same_identity(&b.metadata),
            _ => false,
        }
    }
}

} // verus!
