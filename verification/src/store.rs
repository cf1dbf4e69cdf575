//! The transaction manager and its fact store.
//!
//! The store holds at most one fact per key (relation plus identity):
//! submitting a fact for a key that is already present replaces the prior
//! fact, it never accumulates a second row.  A batch of updates is applied
//! as one atomic operation: callers hand the whole batch to
//! [`TransactionManager::apply`], which owns the store exclusively for the
//! duration of the call, applies every update in the given order, and
//! reports the resulting delta — one retraction or assertion entry per
//! changed fact, each tagged with its relation and a signed multiplicity.
//!
//! Serialization across concurrent callers is by exclusive access to the
//! manager (a mutual-exclusion wrapper around the single owned value):
//! between two calls the store is never in a mid-batch state, so the
//! committing phase of one caller is unobservable to every other.

use vstd::prelude::*;

use crate::facts::{Fact, FactView, IdentityView, Relation};

verus! {

// ---------------------------------------------------------------------------
// Updates and delta entries
// ---------------------------------------------------------------------------

/// The operation of one update: assert a fact, or retract the fact currently
/// held for the update's key.
#[derive(Clone, Copy, Debug, PartialEq, Eq, Structural)]
pub enum Op {
    Insert,
    Delete,
}

/// One element of a batch: an operation together with the fact it concerns.
/// For a deletion the fact names the key to clear; its other fields are not
/// consulted.
#[derive(Debug, PartialEq)]
pub struct Update {
    pub op: Op,
    pub fact: Fact,
}

#[verifier::ext_equal]
pub struct UpdateView {
    pub op: Op,
    pub fact: FactView,
}

impl View for Update {
    type V = UpdateView;

    open spec fn view(&self) -> UpdateView {
        UpdateView { op: self.op, fact: self.fact@ }
    }
}

impl DeepView for Update {
    type V = UpdateView;

    open spec fn deep_view(&self) -> UpdateView {
        self.view()
    }
}

/// An insertion update for the given fact.
pub open spec fn insert_update(f: FactView) -> UpdateView {
    UpdateView { op: Op::Insert, fact: f }
}

/// One line of a commit report: a fact value, the relation it belongs to,
/// and a signed multiplicity (`+1` asserted, `-1` retracted).
#[derive(Debug, PartialEq)]
pub struct DeltaEntry {
    pub relation: Relation,
    pub weight: i64,
    pub fact: Fact,
}

#[verifier::ext_equal]
pub struct DeltaEntryView {
    pub relation: Relation,
    pub weight: int,
    pub fact: FactView,
}

impl View for DeltaEntry {
    type V = DeltaEntryView;

    open spec fn view(&self) -> DeltaEntryView {
        DeltaEntryView { relation: self.relation, weight: self.weight as int, fact: self.fact@ }
    }
}

impl DeepView for DeltaEntry {
    type V = DeltaEntryView;

    open spec fn deep_view(&self) -> DeltaEntryView {
        self.view()
    }
}

/// The delta entry reporting fact `f` with multiplicity `w`.
pub open spec fn delta_entry(f: FactView, w: int) -> DeltaEntryView {
    DeltaEntryView { relation: f.relation(), weight: w, fact: f }
}

// ---------------------------------------------------------------------------
// The mathematical store
// ---------------------------------------------------------------------------

/// The store never holds two facts with one key.
pub open spec fn unique_keys(s: Seq<FactView>) -> bool {
    forall|i: int, j: int|
        0 <= i < j < s.len() ==> (#[trigger] s[i].key()) != (#[trigger] s[j].key())
}

/// Whether some fact with key `k` is held.
pub open spec fn has_key(s: Seq<FactView>, k: (Relation, IdentityView)) -> bool {
    exists|i: int| 0 <= i < s.len() && (#[trigger] s[i].key()) == k
}

/// The position of the fact with key `k` (meaningful when `has_key` and the
/// keys are unique).
pub open spec fn key_index(s: Seq<FactView>, k: (Relation, IdentityView)) -> int {
    choose|i: int| 0 <= i < s.len() && (#[trigger] s[i].key()) == k
}

/// The fact currently held for key `k`, if any.
pub open spec fn lookup(s: Seq<FactView>, k: (Relation, IdentityView)) -> Option<FactView> {
    if has_key(s, k) {
        Some(s[key_index(s, k)])
    } else {
        None
    }
}

/// Upsert: replace the fact holding `f`'s key, or append `f` if the key is
/// fresh.  Positions of unrelated facts do not move.
pub open spec fn upsert(s: Seq<FactView>, f: FactView) -> Seq<FactView> {
    if has_key(s, f.key()) {
        s.update(key_index(s, f.key()), f)
    } else {
        s.push(f)
    }
}

/// Deletion: drop the fact holding key `k`; a miss leaves the store as it
/// was.
pub open spec fn remove_key(s: Seq<FactView>, k: (Relation, IdentityView)) -> Seq<FactView> {
    if has_key(s, k) {
        s.remove(key_index(s, k))
    } else {
        s
    }
}

/// The store state after one update.
pub open spec fn apply_update(s: Seq<FactView>, u: UpdateView) -> Seq<FactView> {
    match u.op {
        Op::Insert => upsert(s, u.fact),
        Op::Delete => remove_key(s, u.fact.key()),
    }
}

/// The delta of one update against store state `s`: an insertion retracts
/// any prior fact for the key and asserts the new one; a deletion retracts
/// the prior fact if one is held, and reports nothing on a miss.
pub open spec fn update_delta(s: Seq<FactView>, u: UpdateView) -> Seq<DeltaEntryView> {
    match u.op {
        Op::Insert => match lookup(s, u.fact.key()) {
            Some(prior) => seq![delta_entry(prior, -1), delta_entry(u.fact, 1)],
            None => seq![delta_entry(u.fact, 1)],
        },
        Op::Delete => match lookup(s, u.fact.key()) {
            Some(prior) => seq![delta_entry(prior, -1)],
            None => Seq::empty(),
        },
    }
}

/// The store state after a whole batch, applied in order.
pub open spec fn apply_batch(s: Seq<FactView>, us: Seq<UpdateView>) -> Seq<FactView>
    decreases us.len(),
{
    if us.len() == 0 {
        s
    } else {
        apply_batch(apply_update(s, us[0]), us.drop_first())
    }
}

/// The delta of a whole batch: each update's delta against the store state
/// at its position, concatenated in batch order.
pub open spec fn batch_delta(s: Seq<FactView>, us: Seq<UpdateView>) -> Seq<DeltaEntryView>
    decreases us.len(),
{
    if us.len() == 0 {
        Seq::empty()
    } else {
        update_delta(s, us[0]) + batch_delta(apply_update(s, us[0]), us.drop_first())
    }
}

// ---------------------------------------------------------------------------
// Store lemmas
// ---------------------------------------------------------------------------

/// Upsert keeps the keys unique.
pub proof fn lemma_upsert_unique(s: Seq<FactView>, f: FactView)
    requires
        unique_keys(s),
    ensures
        unique_keys(upsert(s, f)),
{
    if has_key(s, f.key()) {
        let idx = key_index(s, f.key());
        assert(0 <= idx < s.len() && s[idx].key() == f.key());
        let t = s.update(idx, f);
        assert forall|i: int, j: int|
            0 <= i < j < t.len() implies (#[trigger] t[i].key()) != (#[trigger] t[j].key()) by {
            assert(s[i].key() == if i == idx { s[idx].key() } else { t[i].key() });
            assert(s[j].key() == if j == idx { s[idx].key() } else { t[j].key() });
        }
    } else {
        let t = s.push(f);
        assert forall|i: int, j: int|
            0 <= i < j < t.len() implies (#[trigger] t[i].key()) != (#[trigger] t[j].key()) by {
            if j == s.len() {
                assert(t[j] == f);
                assert(t[i] == s[i]);
            } else {
                assert(t[i] == s[i]);
                assert(t[j] == s[j]);
            }
        }
    }
}

/// Deletion keeps the keys unique.
pub proof fn lemma_remove_unique(s: Seq<FactView>, k: (Relation, IdentityView))
    requires
        unique_keys(s),
    ensures
        unique_keys(remove_key(s, k)),
{
    if has_key(s, k) {
        let idx = key_index(s, k);
        let t = s.remove(idx);
        assert forall|i: int, j: int|
            0 <= i < j < t.len() implies (#[trigger] t[i].key()) != (#[trigger] t[j].key()) by {
            let si = if i < idx { i } else { i + 1 };
            let sj = if j < idx { j } else { j + 1 };
            assert(t[i] == s[si]);
            assert(t[j] == s[sj]);
        }
    }
}

/// Appending one update to a batch applies it to the batch's final state,
/// and appends its delta to the batch's delta.
pub proof fn lemma_batch_snoc(s: Seq<FactView>, us: Seq<UpdateView>, u: UpdateView)
    ensures
        apply_batch(s, us.push(u)) == apply_update(apply_batch(s, us), u),
        batch_delta(s, us.push(u)) == batch_delta(s, us) + update_delta(apply_batch(s, us), u),
    decreases us.len(),
{
    if us.len() == 0 {
        let t = us.push(u);
        assert(t[0] == u);
        assert(t.drop_first() =~= Seq::<UpdateView>::empty());
        assert(apply_batch(s, t) == apply_batch(apply_update(s, t[0]), t.drop_first()));
        assert(apply_batch(apply_update(s, u), Seq::<UpdateView>::empty()) == apply_update(s, u));
        assert(batch_delta(s, t) == update_delta(s, t[0]) + batch_delta(
            apply_update(s, t[0]),
            t.drop_first(),
        ));
        assert(batch_delta(apply_update(s, u), Seq::<UpdateView>::empty())
            == Seq::<DeltaEntryView>::empty());
        assert(batch_delta(s, us) == Seq::<DeltaEntryView>::empty());
        assert(batch_delta(s, t) =~= batch_delta(s, us) + update_delta(s, u));
    } else {
        assert(us.push(u)[0] == us[0]);
        assert(us.push(u).drop_first() =~= us.drop_first().push(u));
        lemma_batch_snoc(apply_update(s, us[0]), us.drop_first(), u);
        assert(batch_delta(s, us.push(u)) =~= batch_delta(s, us) + update_delta(
            apply_batch(s, us),
            u,
        ));
    }
}

/// A batch of one update applies that update, and reports that update's
/// delta.
pub proof fn lemma_batch_singleton(s: Seq<FactView>, u: UpdateView)
    ensures
        apply_batch(s, seq![u]) == apply_update(s, u),
        batch_delta(s, seq![u]) == update_delta(s, u),
{
    let t = seq![u];
    assert(t[0] == u);
    assert(t.drop_first() =~= Seq::<UpdateView>::empty());
    assert(apply_batch(s, t) == apply_batch(apply_update(s, t[0]), t.drop_first()));
    assert(apply_batch(apply_update(s, u), Seq::<UpdateView>::empty()) == apply_update(s, u));
    assert(batch_delta(s, t) == update_delta(s, t[0]) + batch_delta(
        apply_update(s, t[0]),
        t.drop_first(),
    ));
    assert(batch_delta(apply_update(s, u), Seq::<UpdateView>::empty())
        == Seq::<DeltaEntryView>::empty());
    assert(batch_delta(s, t) =~= update_delta(s, u));
}

/// What an upsert does, key by key: afterwards the upserted fact is the one
/// held for its key, every other key is untouched, and the store grew by one
/// exactly when the key was fresh.
pub proof fn lemma_upsert_lookup(s: Seq<FactView>, f: FactView)
    requires
        unique_keys(s),
    ensures
        unique_keys(upsert(s, f)),
        lookup(upsert(s, f), f.key()) == Some(f),
        forall|k: (Relation, IdentityView)|
            k != f.key() ==> #[trigger] lookup(upsert(s, f), k) == lookup(s, k),
        upsert(s, f).len() == if has_key(s, f.key()) {
            s.len() as int
        } else {
            s.len() + 1 as int
        },
{
    lemma_upsert_unique(s, f);
    let t = upsert(s, f);
    if has_key(s, f.key()) {
        let idx = key_index(s, f.key());
        assert(0 <= idx < s.len() && s[idx].key() == f.key());
        assert(t[idx] == f);
        lemma_key_index_is(t, f.key(), idx);
        assert(lookup(t, f.key()) == Some(f));
        assert forall|k: (Relation, IdentityView)|
            k != f.key() implies #[trigger] lookup(t, k) == lookup(s, k) by {
            if has_key(s, k) {
                let i = key_index(s, k);
                assert(0 <= i < s.len() && s[i].key() == k);
                assert(i != idx);
                assert(t[i] == s[i]);
                lemma_key_index_is(t, k, i);
            } else {
                if has_key(t, k) {
                    let i = choose|i: int| 0 <= i < t.len() && (#[trigger] t[i].key()) == k;
                    assert(i != idx);
                    assert(t[i] == s[i]);
                    assert(has_key(s, k));
                }
            }
        }
    } else {
        let idx = s.len() as int;
        assert(t[idx] == f);
        lemma_key_index_is(t, f.key(), idx);
        assert(lookup(t, f.key()) == Some(f));
        assert forall|k: (Relation, IdentityView)|
            k != f.key() implies #[trigger] lookup(t, k) == lookup(s, k) by {
            if has_key(s, k) {
                let i = key_index(s, k);
                assert(0 <= i < s.len() && s[i].key() == k);
                assert(t[i] == s[i]);
                lemma_key_index_is(t, k, i);
            } else {
                if has_key(t, k) {
                    let i = choose|i: int| 0 <= i < t.len() && (#[trigger] t[i].key()) == k;
                    assert(i != idx);
                    assert(t[i] == s[i]);
                    assert(has_key(s, k));
                }
            }
        }
    }
}

// ---------------------------------------------------------------------------
// The executable store
// ---------------------------------------------------------------------------

/// The fact store: at most one fact per key, in first-insertion order.
pub struct FactStore {
    facts: Vec<Fact>,
}

impl View for FactStore {
    type V = Seq<FactView>;

    closed spec fn view(&self) -> Seq<FactView> {
        self.facts.deep_view()
    }
}

impl FactStore {
    /// The store's invariant: its keys are unique.
    pub open spec fn wf(self) -> bool {
        unique_keys(self@)
    }

    /// An empty store.
    pub fn new() -> (s: FactStore)
        ensures
            s@ == Seq::<FactView>::empty(),
            s.wf(),
    {
        let s = FactStore { facts: Vec::new() };
        proof {
            assert(s@ =~= Seq::<FactView>::empty());
        }
        s
    }

    /// How many facts are held, over all relations.
    pub fn len(&self) -> (n: usize)
        ensures
            n == self@.len(),
    {
        self.facts.len()
    }

    /// The position of the fact sharing `sample`'s key, if one is held.
    fn find_index(&self, sample: &Fact) -> (r: Option<usize>)
        ensures
            match r {
                Some(i) => 0 <= i < self@.len() && self@[i as int].key() == sample@.key(),
                None => !has_key(self@, sample@.key()),
            },
    {
        let mut j: usize = 0;
        while j < self.facts.len()
            invariant
                j <= self.facts.len(),
                self@.len() == self.facts.len(),
                forall|k: int| 0 <= k < j ==> (#[trigger] self@[k].key()) != sample@.key(),
            decreases self.facts.len() - j,
        {
            if self.facts[j].same_key(sample) {
                proof {
                    assert(self@[j as int] == self.facts.deep_view()[j as int]);
                }
                return Some(j);
            }
            j = j + 1;
        }
        None
    }

    /// A reference to the fact currently held for `sample`'s key.
    pub fn get(&self, sample: &Fact) -> (r: Option<&Fact>)
        requires
            self.wf(),
        ensures
            r.deep_view() == lookup(self@, sample@.key()),
    {
        let idx = self.find_index(sample);
        match idx {
            Some(i) => {
                let found = &self.facts[i];
                proof {
                    lemma_key_index_is(self@, sample@.key(), i as int);
                }
                Some(found)
            },
            None => None,
        }
    }

    /// Replace the fact holding `f`'s key with `f`, or append `f` if the key
    /// is fresh; hand back the prior fact, if any.
    fn upsert_fact(&mut self, f: Fact) -> (prior: Option<Fact>)
        requires
            old(self).wf(),
        ensures
            final(self).wf(),
            final(self)@ == upsert(old(self)@, f@),
            prior.deep_view() == lookup(old(self)@, f@.key()),
    {
        proof {
            lemma_upsert_unique(old(self)@, f@);
        }
        let idx = self.find_index(&f);
        match idx {
            Some(i) => {
                proof {
                    lemma_key_index_is(self@, f@.key(), i as int);
                }
                let ghost pre = self@;
                let old_fact = self.facts.remove(i);
                self.facts.insert(i, f);
                proof {
                    assert(self@ =~= pre.update(i as int, f@));
                }
                Some(old_fact)
            },
            None => {
                let ghost pre = self@;
                self.facts.push(f);
                proof {
                    assert(self@ =~= pre.push(self.facts.deep_view()[pre.len() as int]));
                }
                None
            },
        }
    }

    /// Drop the fact holding `sample`'s key, handing it back; a miss leaves
    /// the store unchanged and hands back nothing.
    fn delete_fact(&mut self, sample: &Fact) -> (prior: Option<Fact>)
        requires
            old(self).wf(),
        ensures
            final(self).wf(),
            final(self)@ == remove_key(old(self)@, sample@.key()),
            prior.deep_view() == lookup(old(self)@, sample@.key()),
    {
        proof {
            lemma_remove_unique(old(self)@, sample@.key());
        }
        let idx = self.find_index(sample);
        match idx {
            Some(i) => {
                proof {
                    lemma_key_index_is(self@, sample@.key(), i as int);
                }
                let ghost pre = self@;
                let old_fact = self.facts.remove(i);
                proof {
                    assert(self@ =~= pre.remove(i as int));
                }
                Some(old_fact)
            },
            None => None,
        }
    }
}

/// With unique keys, a position holding key `k` is the position `key_index`
/// names.
pub proof fn lemma_key_index_is(s: Seq<FactView>, k: (Relation, IdentityView), i: int)
    requires
        unique_keys(s),
        0 <= i < s.len(),
        s[i].key() == k,
    ensures
        has_key(s, k),
        key_index(s, k) == i,
{
    assert(has_key(s, k));
    let j = key_index(s, k);
    assert(0 <= j < s.len() && s[j].key() == k);
    if i < j {
        assert(s[i].key() != s[j].key());
    } else if j < i {
        assert(s[j].key() != s[i].key());
    }
}

// ---------------------------------------------------------------------------
// The transaction manager
// ---------------------------------------------------------------------------

/// The owner of the single fact-store handle.  All mutation goes through
/// [`TransactionManager::apply`], whose exclusive receiver serializes
/// callers: during a call the manager is mid-commit, and between calls it is
/// ready, with every batch either fully applied or not begun.
pub struct TransactionManager {
    store: FactStore,
}

impl View for TransactionManager {
    type V = Seq<FactView>;

    closed spec fn view(&self) -> Seq<FactView> {
        self.store@
    }
}

impl TransactionManager {
    /// The manager's invariant: the store's keys are unique.
    pub open spec fn wf(self) -> bool {
        unique_keys(self@)
    }

    /// A manager over an empty store, ready for its first batch.
    pub fn new() -> (mgr: TransactionManager)
        ensures
            mgr@ == Seq::<FactView>::empty(),
            mgr.wf(),
    {
        TransactionManager { store: FactStore::new() }
    }

    /// A manager initialized with a seeding batch, together with the seed's
    /// delta.  The seed may be empty.
    pub fn init(seed: Vec<Update>) -> (r: (TransactionManager, Vec<DeltaEntry>))
        ensures
            r.0.wf(),
            r.0@ == apply_batch(Seq::<FactView>::empty(), seed.deep_view()),
            r.1.deep_view() == batch_delta(Seq::<FactView>::empty(), seed.deep_view()),
    {
        let mut mgr = TransactionManager::new();
        let delta = mgr.apply(seed);
        (mgr, delta)
    }

    /// How many facts are held, over all relations.
    pub fn len(&self) -> (n: usize)
        ensures
            n == self@.len(),
    {
        self.store.len()
    }

    /// A reference to the fact currently held for `sample`'s key.
    pub fn get(&self, sample: &Fact) -> (r: Option<&Fact>)
        requires
            self.wf(),
        ensures
            r.deep_view() == lookup(self@, sample@.key()),
    {
        self.store.get(sample)
    }

    /// Apply one batch of updates as a single atomic commit, in the given
    /// order, and report the delta.  After the call the store holds exactly
    /// the batch's outcome: no partial application is ever observable, since
    /// the exclusive receiver admits no other caller mid-call.
    ///
    /// A dynamically typed store could reject a commit over a schema
    /// mismatch; here updates are typed facts and the contract covers every
    /// input, so the call cannot fail and returns no error.
    pub fn apply(&mut self, updates: Vec<Update>) -> (delta: Vec<DeltaEntry>)
        requires
            old(self).wf(),
        ensures
            final(self).wf(),
            final(self)@ == apply_batch(old(self)@, updates.deep_view()),
            delta.deep_view() == batch_delta(old(self)@, updates.deep_view()),
    {
        let ghost us = updates.deep_view();
        let mut delta: Vec<DeltaEntry> = Vec::new();
        let mut i: usize = 0;
        proof {
            assert(us.take(0) =~= Seq::<UpdateView>::empty());
            assert(delta.deep_view() =~= batch_delta(old(self)@, us.take(0)));
        }
        while i < updates.len()
            invariant
                i <= updates.len(),
                us == updates.deep_view(),
                us.len() == updates.len(),
                self.wf(),
                self@ == apply_batch(old(self)@, us.take(i as int)),
                delta.deep_view() == batch_delta(old(self)@, us.take(i as int)),
            decreases updates.len() - i,
        {
            let ghost pre_store = self@;
            let ghost pre_delta = delta.deep_view();
            let u = &updates[i];
            proof {
                assert(u@ == us[i as int]);
            }
            match u.op {
                Op::Insert => {
                    let stored = u.fact.clone();
                    let prior = self.store.upsert_fact(stored);
                    match prior {
                        Some(old_fact) => {
                            let rel = old_fact.relation();
                            let ghost d1 = delta.deep_view();
                            delta.push(DeltaEntry { relation: rel, weight: -1, fact: old_fact });
                            proof {
                                assert(delta.deep_view() =~= d1.push(
                                    delta.deep_view()[d1.len() as int],
                                ));
                            }
                        },
                        None => {},
                    }
                    let rel = u.fact.relation();
                    let ghost d2 = delta.deep_view();
                    delta.push(DeltaEntry { relation: rel, weight: 1, fact: u.fact.clone() });
                    proof {
                        assert(delta.deep_view() =~= d2.push(delta.deep_view()[d2.len() as int]));
                        assert(delta.deep_view() =~= pre_delta + update_delta(
                            pre_store,
                            us[i as int],
                        ));
                    }
                },
                Op::Delete => {
                    let prior = self.store.delete_fact(&u.fact);
                    match prior {
                        Some(old_fact) => {
                            let rel = old_fact.relation();
                            let ghost d1 = delta.deep_view();
                            delta.push(DeltaEntry { relation: rel, weight: -1, fact: old_fact });
                            proof {
                                assert(delta.deep_view() =~= d1.push(
                                    delta.deep_view()[d1.len() as int],
                                ));
                            }
                        },
                        None => {},
                    }
                    proof {
                        assert(delta.deep_view() =~= pre_delta + update_delta(
                            pre_store,
                            us[i as int],
                        ));
                    }
                },
            }
            i = i + 1;
            proof {
                assert(us.take(i as int) =~= us.take(i as int - 1).push(us[i as int - 1]));
                lemma_batch_snoc(old(self)@, us.take(i as int - 1), us[i as int - 1]);
            }
        }
        proof {
            assert(us.take(updates.len() as int) =~= us);
        }
        delta
    }
}

} // verus!
