//! A small map keyed by strings, kept in insertion order.

use vstd::prelude::*;

verus! {

/// A finite map from strings to values. Lookups walk the entries, which suits
/// the handful of workers and jobs that one process tracks.
pub struct StrMap<V> {
    keys: Vec<String>,
    vals: Vec<V>,
    model: Ghost<Map<Seq<char>, V>>,
}

impl<V> View for StrMap<V> {
    type V = Map<Seq<char>, V>;

    closed spec fn view(&self) -> Map<Seq<char>, V> {
        self.model@
    }
}

impl<V> StrMap<V> {
    /// The entries are consistent: every key occurs once and the view holds
    /// exactly the entries.
    pub closed spec fn wf(&self) -> bool {
        &&& self.keys@.len() == self.vals@.len()
        &&& self.model@.dom().finite()
        &&& self.model@.dom().len() == self.keys@.len()
        &&& forall|i: int, j: int|
            0 <= i < j < self.keys@.len() ==> (#[trigger] self.keys@[i])@ != (
            #[trigger] self.keys@[j])@
        &&& forall|i: int|
            0 <= i < self.keys@.len() ==> self.model@.dom().contains((#[trigger] self.keys@[i])@)
                && self.model@[self.keys@[i]@] == self.vals@[i]
        &&& forall|k: Seq<char>| #[trigger]
            self.model@.dom().contains(k) ==> exists|i: int|
                0 <= i < self.keys@.len() && (#[trigger] self.keys@[i])@ == k
    }

    pub fn new() -> (m: Self)
        ensures
            m.wf(),
            m@ == Map::<Seq<char>, V>::empty(),
    {
        StrMap { keys: Vec::new(), vals: Vec::new(), model: Ghost(Map::empty()) }
    }

    /// The entries are finitely many.
    pub proof fn lemma_finite(&self)
        requires
            self.wf(),
        ensures
            self@.dom().finite(),
    {
    }

    /// The number of entries.
    pub fn len(&self) -> (n: usize)
        requires
            self.wf(),
        ensures
            n == self@.dom().len(),
            self@.dom().finite(),
    {
        self.keys.len()
    }

    fn find(&self, key: &String) -> (found: Option<usize>)
        requires
            self.wf(),
        ensures
            match found {
                Some(i) => i < self.keys@.len() && self.keys@[i as int]@ == key@
                    && self@.dom().contains(key@) && self@[key@] == self.vals@[i as int],
                None => !self@.dom().contains(key@),
            },
    {
        let mut i: usize = 0;
        while i < self.keys.len()
            invariant
                self.wf(),
                i <= self.keys@.len(),
                forall|j: int| 0 <= j < i ==> (#[trigger] self.keys@[j])@ != key@,
            decreases self.keys@.len() - i,
        {
            if self.keys[i] == *key {
                return Some(i);
            }
            i += 1;
        }
        None
    }

    pub fn contains_key(&self, key: &String) -> (b: bool)
        requires
            self.wf(),
        ensures
            b == self@.dom().contains(key@),
    {
        self.find(key).is_some()
    }

    pub fn get(&self, key: &String) -> (value: Option<&V>)
        requires
            self.wf(),
        ensures
            match value {
                Some(v) => self@.dom().contains(key@) && *v == self@[key@],
                None => !self@.dom().contains(key@),
            },
    {
        match self.find(key) {
            Some(i) => Some(&self.vals[i]),
            None => None,
        }
    }

    /// Binds `key` to `value`, replacing what it was bound to.
    pub fn insert(&mut self, key: String, value: V)
        requires
            old(self).wf(),
        ensures
            final(self).wf(),
            final(self)@ == old(self)@.insert(key@, value),
    {
        let ghost k = key@;
        let ghost v = value;
        match self.find(&key) {
            Some(i) => {
                self.vals[i] = value;
                self.model = Ghost(self.model@.insert(k, v));
                proof {
                    assert(self.model@.dom() =~= old(self).model@.dom());
                    assert forall|j: int| 0 <= j < self.keys@.len() implies self.model@.dom().contains(
                        (#[trigger] self.keys@[j])@,
                    ) && self.model@[self.keys@[j]@] == self.vals@[j] by {
                        if j != i as int {
                            assert(self.keys@[j]@ != self.keys@[i as int]@);
                        }
                    }
                }
            },
            None => {
                self.keys.push(key);
                self.vals.push(value);
                self.model = Ghost(self.model@.insert(k, v));
                proof {
                    let n = old(self).keys@.len() as int;
                    assert forall|a: int, b: int| 0 <= a < b < self.keys@.len() implies (
                    #[trigger] self.keys@[a])@ != (#[trigger] self.keys@[b])@ by {
                        if b == n {
                            assert(old(self).model@.dom().contains(old(self).keys@[a]@));
                        }
                    }
                    assert forall|q: Seq<char>| #[trigger]
                        self.model@.dom().contains(q) implies exists|j: int|
                        0 <= j < self.keys@.len() && (#[trigger] self.keys@[j])@ == q by {
                        if q == k {
                            assert(self.keys@[n]@ == q);
                        } else {
                            assert(old(self).model@.dom().contains(q));
                            let j = choose|j: int|
                                0 <= j < old(self).keys@.len() && (#[trigger] old(
                                    self,
                                ).keys@[j])@ == q;
                            assert(self.keys@[j]@ == q);
                        }
                    }
                }
            },
        }
    }
}

} // verus!
