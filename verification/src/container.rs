use crate::guard::Guard;
use crate::guard::Trace;
use crate::guard::labels_of;
use crate::guard::release_all_lifo;
use vstd::prelude::*;

verus! {

/// An ordered container that owns its guards. Clearing it, or destroying
/// it at the end of its own scope, releases every held element exactly
/// once, in reverse insertion order. The view is the sequence of the held
/// elements' labels, oldest insertion first.
pub struct GuardVec {
    items: Vec<Guard>,
}

impl View for GuardVec {
    type V = Seq<Seq<char>>;

    closed spec fn view(&self) -> Seq<Seq<char>> {
        labels_of(self.items@)
    }
}

impl GuardVec {
    /// A fresh, empty container.
    pub fn new() -> (v: GuardVec)
        ensures
            v@ == Seq::<Seq<char>>::empty(),
    {
        let v = GuardVec { items: Vec::new() };
        proof {
            assert(v@ =~= Seq::<Seq<char>>::empty());
        }
        v
    }

    /// Inserts a guard at the end: the container takes ownership of it and
    /// of its eventual release. No event fires here.
    pub fn push(&mut self, g: Guard)
        ensures
            final(self)@ == old(self)@.push(g.label_view()),
    {
        let ghost pre = self@;
        self.items.push(g);
        proof {
            assert(self@ =~= pre.push(g.label_view()));
        }
    }

    /// How many guards the container currently holds.
    pub fn len(&self) -> (n: usize)
        ensures
            n == self@.len(),
    {
        self.items.len()
    }

    /// Releases every held element, newest insertion first, and leaves the
    /// container empty but valid: further insertions are allowed.
    pub fn clear(&mut self, tr: &mut Trace)
        ensures
            final(self)@ == Seq::<Seq<char>>::empty(),
            final(tr)@ == old(tr)@ + old(self)@.reverse(),
    {
        let mut drained: Vec<Guard> = Vec::new();
        core::mem::swap(&mut drained, &mut self.items);
        proof {
            assert(self@ =~= Seq::<Seq<char>>::empty());
        }
        release_all_lifo(drained, tr);
    }

    /// The end of the container's own lifetime: the remaining elements are
    /// released in reverse insertion order, then the backing storage goes
    /// away with no event of its own.
    pub fn destroy(self, tr: &mut Trace)
        ensures
            final(tr)@ == old(tr)@ + self@.reverse(),
    {
        let GuardVec { items } = self;
        release_all_lifo(items, tr);
    }
}

} // verus!
