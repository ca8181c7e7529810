use vstd::prelude::*;
use crate::naming::bytes_equal;

verus! {

/// Prepaid storage credit of each registered account, keyed by the bytes of
/// the account identifier.
pub struct Ledger {
    entries: Vec<(Vec<u8>, u128)>,
    model: Ghost<Map<Seq<u8>, u128>>,
}

impl View for Ledger {
    type V = Map<Seq<u8>, u128>;

    closed spec fn view(&self) -> Map<Seq<u8>, u128> {
        self.model@
    }
}

impl Ledger {
    /// The entries hold each key once, and agree with the model.
    pub closed spec fn wf(&self) -> bool {
        &&& forall|i: int|
            0 <= i < self.entries@.len() ==> {
                &&& self.model@.contains_key(#[trigger] self.entries@[i].0@)
                &&& self.model@[self.entries@[i].0@] == self.entries@[i].1
            }
        &&& forall|k: Seq<u8>|
            #[trigger] self.model@.contains_key(k) ==> exists|i: int|
                0 <= i < self.entries@.len() && #[trigger] self.entries@[i].0@ == k
        &&& forall|i: int, j: int|
            0 <= i < self.entries@.len() && 0 <= j < self.entries@.len() && i != j
                ==> #[trigger] self.entries@[i].0@ != #[trigger] self.entries@[j].0@
    }

    pub fn new() -> (r: Ledger)
        ensures
            r.wf(),
            r@ == Map::<Seq<u8>, u128>::empty(),
    {
        Ledger { entries: Vec::new(), model: Ghost(Map::empty()) }
    }

    fn find(&self, key: &Vec<u8>) -> (r: Option<usize>)
        requires
            self.wf(),
        ensures
            match r {
                Some(i) => i < self.entries@.len() && self.entries@[i as int].0@ == key@,
                None => !self@.contains_key(key@),
            },
    {
        let mut i: usize = 0;
        while i < self.entries.len()
            invariant
                self.wf(),
                0 <= i <= self.entries@.len(),
                forall|j: int| 0 <= j < i ==> #[trigger] self.entries@[j].0@ != key@,
            decreases self.entries@.len() - i,
        {
            if bytes_equal(&self.entries[i].0, key) {
                return Some(i);
            }
            i = i + 1;
        }
        None
    }

    /// The credit of `key`, or `None` where it has no entry.
    pub fn get(&self, key: &Vec<u8>) -> (r: Option<u128>)
        requires
            self.wf(),
        ensures
            r == (if self@.contains_key(key@) {
                Some(self@[key@])
            } else {
                None::<u128>
            }),
    {
        match self.find(key) {
            Some(i) => Some(self.entries[i].1),
            None => None,
        }
    }

    /// Sets the credit of `key` to `value`, creating the entry if needed.
    pub fn insert(&mut self, key: Vec<u8>, value: u128)
        requires
            old(self).wf(),
        ensures
            final(self).wf(),
            final(self)@ == old(self)@.insert(key@, value),
    {
        let ghost k = key@;
        let ghost mut at: int = 0;
        match self.find(&key) {
            Some(i) => {
                self.entries.set(i, (key, value));
                proof {
                    at = i as int;
                }
            },
            None => {
                self.entries.push((key, value));
                proof {
                    at = self.entries@.len() - 1;
                }
            },
        }
        assert(self.entries@[at].0@ == k);
        self.model = Ghost(self.model@.insert(k, value));
        proof {
            assert forall|q: Seq<u8>| #[trigger] self.model@.contains_key(q) implies exists|i: int|
                0 <= i < self.entries@.len() && #[trigger] self.entries@[i].0@ == q by {
                if q == k {
                    assert(self.entries@[at].0@ == q);
                } else {
                    assert(old(self).model@.contains_key(q));
                    let idx = choose|i: int|
                        0 <= i < old(self).entries@.len() && old(self).entries@[i].0@ == q;
                    assert(self.entries@[idx].0@ == q);
                }
            }
        }
    }
}

} // verus!
