use vstd::prelude::*;

verus! {

/// The observable record of release events. Each entry is the label of one
/// guard, appended at the instant that guard's lifetime ended; the view is
/// the sequence of those labels, oldest event first.
pub struct Trace {
    events: Vec<&'static str>,
}

impl View for Trace {
    type V = Seq<Seq<char>>;

    closed spec fn view(&self) -> Seq<Seq<char>> {
        self.events@.map_values(|s: &'static str| s@)
    }
}

impl Trace {
    /// A fresh trace with no events.
    pub fn new() -> (tr: Trace)
        ensures
            tr@ == Seq::<Seq<char>>::empty(),
    {
        let tr = Trace { events: Vec::new() };
        proof {
            assert(tr@ =~= Seq::<Seq<char>>::empty());
        }
        tr
    }

    /// How many release events have fired so far.
    pub fn len(&self) -> (n: usize)
        ensures
            n == self@.len(),
    {
        self.events.len()
    }

    /// The label carried by the `i`th event.
    pub fn event(&self, i: usize) -> (label: &'static str)
        requires
            i < self@.len(),
        ensures
            label@ == self@[i as int],
    {
        self.events[i]
    }
}

/// A guarded value: it owns one identifying label, set at construction and
/// immutable, and it fires one release event when its lifetime ends.
///
/// `release` consumes the guard, so a second release of the same guard, or
/// a release through a moved-out binding, is not representable: ownership
/// exclusivity, not a runtime check, rules out a double event.
pub struct Guard {
    label: &'static str,
}

impl Guard {
    /// The label this guard carries.
    pub closed spec fn label_view(self) -> Seq<char> {
        self.label@
    }

    /// A new live guard bound to `label`. No event fires at construction.
    pub fn construct(label: &'static str) -> (g: Guard)
        ensures
            g.label_view() == label@,
    {
        Guard { label }
    }

    /// Ends this guard's lifetime: its release event fires here and now.
    pub fn release(self, tr: &mut Trace)
        ensures
            final(tr)@ == old(tr)@.push(self.label_view()),
    {
        let ghost pre = tr@;
        tr.events.push(self.label);
        proof {
            assert(tr@ =~= pre.push(self.label_view()));
        }
    }
}

/// The labels of a sequence of guards, in the same order.
pub open spec fn labels_of(gs: Seq<Guard>) -> Seq<Seq<char>> {
    gs.map_values(|g: Guard| g.label_view())
}

/// Releases every guard of `gs`, newest (last) first: one event per guard,
/// in the exact reverse of the order they stand in.
pub fn release_all_lifo(gs: Vec<Guard>, tr: &mut Trace)
    ensures
        final(tr)@ == old(tr)@ + labels_of(gs@).reverse(),
{
    let ghost pre = tr@;
    let ghost all = labels_of(gs@);
    let mut rest = gs;
    while rest.len() > 0
        invariant
            labels_of(rest@) == all.subrange(0, rest@.len() as int),
            rest@.len() <= all.len(),
            tr@ == pre + all.subrange(rest@.len() as int, all.len() as int).reverse(),
        decreases rest@.len(),
    {
        let ghost k = rest@.len() as int;
        let ghost prev = rest@;
        let g = match rest.pop() {
            Some(g) => g,
            None => {
                proof {
                    assert(false);
                }
                return ;
            },
        };
        proof {
            assert(labels_of(rest@) =~= all.subrange(0, k - 1));
            assert(labels_of(prev)[k - 1] == prev[k - 1].label_view());
            assert(g.label_view() == all[k - 1]);
            assert(all.subrange(k - 1, all.len() as int).reverse() =~= all.subrange(
                k,
                all.len() as int,
            ).reverse().push(all[k - 1]));
        }
        g.release(tr);
    }
    proof {
        assert(tr@ =~= pre + all.reverse());
    }
}

} // verus!
