use crate::guard::Guard;
use crate::guard::Trace;
use crate::guard::labels_of;
use crate::guard::release_all_lifo;
use vstd::prelude::*;

verus! {

/// A lexical scope made explicit: guards are bound to it in creation order,
/// and leaving the scope releases every binding still live, newest first.
/// The view is the sequence of the live bindings' labels, oldest first.
pub struct Scope {
    bindings: Vec<Guard>,
}

impl View for Scope {
    type V = Seq<Seq<char>>;

    closed spec fn view(&self) -> Seq<Seq<char>> {
        labels_of(self.bindings@)
    }
}

impl Scope {
    /// A fresh scope with no bindings.
    pub fn new() -> (sc: Scope)
        ensures
            sc@ == Seq::<Seq<char>>::empty(),
    {
        let sc = Scope { bindings: Vec::new() };
        proof {
            assert(sc@ =~= Seq::<Seq<char>>::empty());
        }
        sc
    }

    /// Binds a guard to this scope: it becomes the newest live binding, and
    /// the scope now owns its eventual release. No event fires here.
    pub fn bind(&mut self, g: Guard)
        ensures
            final(self)@ == old(self)@.push(g.label_view()),
    {
        let ghost pre = self@;
        self.bindings.push(g);
        proof {
            assert(self@ =~= pre.push(g.label_view()));
        }
    }

    /// How many bindings are still live in this scope.
    pub fn live(&self) -> (n: usize)
        ensures
            n == self@.len(),
    {
        self.bindings.len()
    }

    /// Explicit early release of binding `i` (0 is the oldest): its event
    /// fires here and now, not at scope end, and the binding is gone from
    /// the scope, so scope exit can never release it a second time.
    pub fn release_at(&mut self, i: usize, tr: &mut Trace)
        requires
            i < old(self)@.len(),
        ensures
            final(self)@ == old(self)@.remove(i as int),
            final(tr)@ == old(tr)@.push(old(self)@[i as int]),
    {
        let ghost pre = self@;
        proof {
            assert(pre[i as int] == self.bindings@[i as int].label_view());
        }
        let g = self.bindings.remove(i);
        proof {
            assert(self@ =~= pre.remove(i as int));
        }
        g.release(tr);
    }

    /// Leaving the scope: every binding still live is released, in the
    /// exact reverse of creation order (last created, first released).
    pub fn exit(self, tr: &mut Trace)
        ensures
            final(tr)@ == old(tr)@ + self@.reverse(),
    {
        let Scope { bindings } = self;
        release_all_lifo(bindings, tr);
    }
}

} // verus!
