use vstd::prelude::*;
use crate::metadata::TokenArgs;
use crate::naming::bytes_equal;

verus! {

/// Whether `name` is the name of one of `records`.
pub open spec fn has_name(records: Seq<(Seq<u8>, TokenArgs)>, name: Seq<u8>) -> bool {
    exists|i: int| 0 <= i < records.len() && (#[trigger] records[i]).0 == name
}

/// Created tokens, in the order of their creation: each name is held once and
/// never replaced or removed.
pub struct Registry {
    records: Vec<(Vec<u8>, TokenArgs)>,
}

impl View for Registry {
    type V = Seq<(Seq<u8>, TokenArgs)>;

    closed spec fn view(&self) -> Seq<(Seq<u8>, TokenArgs)> {
        Seq::new(self.records@.len(), |i: int| (self.records@[i].0@, self.records@[i].1))
    }
}

impl Registry {
    /// Names are unique and their number fits in a `u32`.
    pub closed spec fn wf(&self) -> bool {
        &&& self.records@.len() <= u32::MAX
        &&& forall|i: int, j: int|
            0 <= i < self.records@.len() && 0 <= j < self.records@.len() && i != j
                ==> #[trigger] self.records@[i].0@ != #[trigger] self.records@[j].0@
    }

    pub fn new() -> (r: Registry)
        ensures
            r.wf(),
            r@ == Seq::<(Seq<u8>, TokenArgs)>::empty(),
    {
        let r = Registry { records: Vec::new() };
        assert(r@ =~= Seq::<(Seq<u8>, TokenArgs)>::empty());
        r
    }

    /// The number of records.
    pub fn len(&self) -> (r: u32)
        requires
            self.wf(),
        ensures
            r == self@.len(),
    {
        self.records.len() as u32
    }

    /// Whether a record of `name` exists.
    pub fn contains(&self, name: &Vec<u8>) -> (r: bool)
        ensures
            r == has_name(self@, name@),
    {
        let mut i: usize = 0;
        while i < self.records.len()
            invariant
                0 <= i <= self.records@.len(),
                forall|j: int| 0 <= j < i ==> #[trigger] self.records@[j].0@ != name@,
            decreases self.records@.len() - i,
        {
            if bytes_equal(&self.records[i].0, name) {
                assert(self@[i as int].0 == name@);
                return true;
            }
            i = i + 1;
        }
        assert forall|j: int| 0 <= j < self@.len() implies (#[trigger] self@[j]).0 != name@ by {
            assert(self.records@[j].0@ != name@);
        }
        false
    }

    /// Adds a record of `name` if there is none; says whether it did.
    pub fn insert(&mut self, name: Vec<u8>, args: TokenArgs) -> (r: bool)
        requires
            old(self).wf(),
            old(self)@.len() < u32::MAX,
        ensures
            final(self).wf(),
            r == !has_name(old(self)@, name@),
            r ==> final(self)@ == old(self)@.push((name@, args)),
            !r ==> final(self)@ == old(self)@,
    {
        if self.contains(&name) {
            return false;
        }
        let ghost n = name@;
        let ghost a = args;
        self.records.push((name, args));
        proof {
            assert forall|i: int, j: int|
                0 <= i < self.records@.len() && 0 <= j < self.records@.len() && i != j
                    implies #[trigger] self.records@[i].0@ != #[trigger] self.records@[j].0@ by {
                let last = self.records@.len() - 1;
                if i == last {
                    assert(old(self)@[j].0 != n);
                } else if j == last {
                    assert(old(self)@[i].0 != n);
                }
            }
            assert(self@ =~= old(self)@.push((n, a)));
        }
        true
    }
}

} // verus!
