//! The proof store: for each proof key, whether the proof is done, and the
//! artifact once it is.

use crate::stage::StageKind;
use crate::strmap::StrMap;
use vstd::prelude::*;

verus! {

/// One entry of the store.
#[derive(Debug, PartialEq, Eq)]
pub struct ProofRecord {
    pub stage: StageKind,
    pub ready: bool,
    pub value: String,
}

/// What an entry holds: the stage that produces the proof, whether the proof
/// is done, and the reference to its artifact (empty until it is done).
pub struct ProofState {
    pub stage: StageKind,
    pub ready: bool,
    pub value: Seq<char>,
}

impl View for ProofRecord {
    type V = ProofState;

    open spec fn view(&self) -> ProofState {
        ProofState { stage: self.stage, ready: self.ready, value: self.value@ }
    }
}

impl Clone for ProofRecord {
    fn clone(&self) -> (res: Self)
        ensures
            res == *self,
    {
        ProofRecord { stage: self.stage, ready: self.ready, value: self.value.clone() }
    }
}

/// The entry of a proof that was asked for and is not done.
pub open spec fn pending_state(stage: StageKind) -> ProofState {
    ProofState { stage, ready: false, value: Seq::<char>::empty() }
}

/// The store after a proof was asked for under `key`: a key that is known
/// keeps its entry.
pub open spec fn store_create(
    m: Map<Seq<char>, ProofState>,
    key: Seq<char>,
    stage: StageKind,
) -> Map<Seq<char>, ProofState> {
    if m.dom().contains(key) {
        m
    } else {
        m.insert(key, pending_state(stage))
    }
}

/// The store after the artifact `value` was reported for `key`: only an
/// entry that is not ready takes it.
pub open spec fn store_publish(
    m: Map<Seq<char>, ProofState>,
    key: Seq<char>,
    value: Seq<char>,
) -> Map<Seq<char>, ProofState> {
    if m.dom().contains(key) && !m[key].ready {
        m.insert(key, ProofState { stage: m[key].stage, ready: true, value })
    } else {
        m
    }
}

/// Whether `after` keeps every entry of `before`, and every ready entry
/// as it was.
pub open spec fn store_extends(
    before: Map<Seq<char>, ProofState>,
    after: Map<Seq<char>, ProofState>,
) -> bool {
    forall|k: Seq<char>| #[trigger]
        before.dom().contains(k) ==> after.dom().contains(k) && after[k].stage == before[k].stage
            && (before[k].ready ==> after[k] == before[k])
}

pub struct ProofStore {
    records: StrMap<ProofRecord>,
}

impl View for ProofStore {
    type V = Map<Seq<char>, ProofState>;

    closed spec fn view(&self) -> Map<Seq<char>, ProofState> {
        self.records@.map_values(|r: ProofRecord| r@)
    }
}

impl ProofStore {
    pub closed spec fn wf(&self) -> bool {
        self.records.wf()
    }

    pub fn new() -> (store: Self)
        ensures
            store.wf(),
            store@ == Map::<Seq<char>, ProofState>::empty(),
    {
        let store = ProofStore { records: StrMap::new() };
        assert(store@ =~= Map::<Seq<char>, ProofState>::empty());
        store
    }

    /// The number of proofs that were asked for.
    pub fn len(&self) -> (n: usize)
        requires
            self.wf(),
        ensures
            n == self@.dom().len(),
            self@.dom().finite(),
    {
        assert(self@.dom() =~= self.records@.dom());
        self.records.len()
    }

    pub fn contains(&self, key: &String) -> (b: bool)
        requires
            self.wf(),
        ensures
            b == self@.dom().contains(key@),
    {
        self.records.contains_key(key)
    }

    /// Whether the proof under `key` is done.
    pub fn is_ready(&self, key: &String) -> (b: bool)
        requires
            self.wf(),
        ensures
            b == (self@.dom().contains(key@) && self@[key@].ready),
    {
        match self.records.get(key) {
            Some(r) => r.ready,
            None => false,
        }
    }

    /// The entry under `key`.
    pub fn get(&self, key: &String) -> (record: Option<ProofRecord>)
        requires
            self.wf(),
        ensures
            match record {
                Some(r) => self@.dom().contains(key@) && r@ == self@[key@],
                None => !self@.dom().contains(key@),
            },
    {
        match self.records.get(key) {
            Some(r) => Some(r.clone()),
            None => None,
        }
    }

    /// The artifact of the proof under `key`, once it is done.
    pub fn artifact(&self, key: &String) -> (value: Option<String>)
        requires
            self.wf(),
        ensures
            match value {
                Some(v) => self@.dom().contains(key@) && self@[key@].ready && v@
                    == self@[key@].value,
                None => !(self@.dom().contains(key@) && self@[key@].ready),
            },
    {
        match self.records.get(key) {
            Some(r) => {
                if r.ready {
                    Some(r.value.clone())
                } else {
                    None
                }
            },
            None => None,
        }
    }

    /// Records that a proof was asked for under `key`. Returns whether the
    /// key was new; a key that is known keeps its entry.
    pub fn create(&mut self, key: String, stage: StageKind) -> (created: bool)
        requires
            old(self).wf(),
        ensures
            final(self).wf(),
            created == !old(self)@.dom().contains(key@),
            final(self)@ == store_create(old(self)@, key@, stage),
            store_extends(old(self)@, final(self)@),
    {
        if self.records.contains_key(&key) {
            false
        } else {
            let ghost k = key@;
            let record = ProofRecord { stage, ready: false, value: String::new() };
            self.records.insert(key, record);
            assert(self@ =~= store_create(old(self)@, k, stage));
            true
        }
    }

    /// Takes the artifact of the proof under `key`. Returns whether the entry
    /// became ready by this call; a key that is unknown or ready changes
    /// nothing.
    pub fn publish(&mut self, key: &String, value: String) -> (published: bool)
        requires
            old(self).wf(),
        ensures
            final(self).wf(),
            published == (old(self)@.dom().contains(key@) && !old(self)@[key@].ready),
            final(self)@ == store_publish(old(self)@, key@, value@),
            store_extends(old(self)@, final(self)@),
    {
        let stage = match self.records.get(key) {
            Some(r) => {
                if r.ready {
                    return false;
                }
                r.stage
            },
            None => {
                return false;
            },
        };
        let ghost v = value@;
        let record = ProofRecord { stage, ready: true, value };
        self.records.insert(key.clone(), record);
        assert(self@ =~= store_publish(old(self)@, key@, v));
        true
    }
}

/// Readiness never regresses: asking for a proof and reporting an artifact
/// both keep every ready entry, with the artifact it had.
pub proof fn lemma_ready_is_final(
    m: Map<Seq<char>, ProofState>,
    key: Seq<char>,
    stage: StageKind,
    value: Seq<char>,
)
    ensures
        store_extends(m, store_create(m, key, stage)),
        store_extends(m, store_publish(m, key, value)),
{
}

/// An entry becomes ready at most once: a second artifact for the same key
/// changes nothing.
pub proof fn lemma_publish_once(
    m: Map<Seq<char>, ProofState>,
    key: Seq<char>,
    first: Seq<char>,
    second: Seq<char>,
)
    ensures
        store_publish(store_publish(m, key, first), key, second) == store_publish(m, key, first),
{
}

/// Keeping ready entries composes over any number of steps.
pub proof fn lemma_store_extends_transitive(
    a: Map<Seq<char>, ProofState>,
    b: Map<Seq<char>, ProofState>,
    c: Map<Seq<char>, ProofState>,
)
    requires
        store_extends(a, b),
        store_extends(b, c),
    ensures
        store_extends(a, c),
{
    assert forall|k: Seq<char>| #[trigger] a.dom().contains(k) implies c.dom().contains(k)
        && c[k].stage == a[k].stage && (a[k].ready ==> c[k] == a[k]) by {
        assert(b.dom().contains(k));
    }
}

} // verus!
