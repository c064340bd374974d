use crate::container::GuardVec;
use crate::guard::Guard;
use crate::guard::Trace;
use crate::scope::Scope;
use vstd::prelude::*;

verus! {

/// Flat LIFO: three sibling guards in one scope, no other action. At scope
/// exit the release events fire in strict reverse construction order.
pub fn experiment_a_lifo_order(tr: &mut Trace)
    ensures
        final(tr)@ == old(tr)@ + seq!["C"@, "B"@, "A"@],
{
    let mut sc = Scope::new();
    sc.bind(Guard::construct("A"));
    sc.bind(Guard::construct("B"));
    sc.bind(Guard::construct("C"));
    proof {
        assert(sc@.reverse() =~= seq!["C"@, "B"@, "A"@]);
    }
    sc.exit(tr);
}

/// Nested scopes with explicit early release: `inner2` is released at the
/// early-release call site, `inner1` at the inner scope's end, and `outer`
/// by an explicit release that pre-empts the outer scope's end.
pub fn experiment_b_nested_and_explicit_drop(tr: &mut Trace)
    ensures
        final(tr)@ == old(tr)@ + seq!["inner2"@, "inner1"@, "outer"@],
{
    let ghost pre = tr@;
    let mut outer_scope = Scope::new();
    outer_scope.bind(Guard::construct("outer"));
    {
        let mut inner_scope = Scope::new();
        inner_scope.bind(Guard::construct("inner1"));
        inner_scope.bind(Guard::construct("inner2"));
        // Early release: the event for `inner2` fires immediately, and the
        // binding is gone, so the scope exit below cannot fire it again.
        inner_scope.release_at(1, tr);
        proof {
            assert(inner_scope@ =~= seq!["inner1"@]);
        }
        // Inner scope ends: `inner1` is the only live binding left.
        inner_scope.exit(tr);
    }
    // Explicit release of `outer` before the outer scope's natural end.
    outer_scope.release_at(0, tr);
    proof {
        assert(outer_scope@ =~= Seq::<Seq<char>>::empty());
    }
    outer_scope.exit(tr);
    proof {
        assert(tr@ =~= pre + seq!["inner2"@, "inner1"@, "outer"@]);
    }
}

/// Takes ownership of `g` and performs no explicit action on it: the guard
/// is released at the end of this function's own scope, so the release is
/// attributed to the current owner, not to the caller's declaration site.
pub fn takes_ownership(g: Guard, tr: &mut Trace)
    ensures
        final(tr)@ == old(tr)@.push(g.label_view()),
{
    let ghost pre = tr@;
    let mut sc = Scope::new();
    sc.bind(g);
    sc.exit(tr);
    proof {
        assert(sc@.reverse() =~= seq![g.label_view()]);
        assert(tr@ =~= pre.push(g.label_view()));
    }
}

/// Ownership transfer across a call boundary: `move_src` moves from `a` to
/// `b` (leaving `a` inert — the compiler refuses any later use of it), then
/// into `takes_ownership`, whose scope end fires the single release event.
pub fn experiment_c_move_and_function_return(tr: &mut Trace)
    ensures
        final(tr)@ == old(tr)@ + seq!["move_src"@],
{
    let ghost pre = tr@;
    let a = Guard::construct("move_src");
    let b = a;
    takes_ownership(b, tr);
    proof {
        assert(tr@ =~= pre + seq!["move_src"@]);
    }
}

/// Container semantics: three guards are inserted and cleared — each fires
/// once, in reverse insertion order, and the container stays usable — then
/// two more are inserted and released by the container's own end of life.
pub fn experiment_d_vec_clear_and_scope(tr: &mut Trace)
    ensures
        final(tr)@ == old(tr)@ + seq!["v[2]"@, "v[1]"@, "v[0]"@, "v2[1]"@, "v2[0]"@],
{
    let ghost pre = tr@;
    let mut v = GuardVec::new();
    v.push(Guard::construct("v[0]"));
    v.push(Guard::construct("v[1]"));
    v.push(Guard::construct("v[2]"));
    proof {
        assert(v@.reverse() =~= seq!["v[2]"@, "v[1]"@, "v[0]"@]);
    }
    v.clear(tr);
    v.push(Guard::construct("v2[0]"));
    v.push(Guard::construct("v2[1]"));
    proof {
        assert(v@.reverse() =~= seq!["v2[1]"@, "v2[0]"@]);
    }
    v.destroy(tr);
    proof {
        assert(tr@ =~= pre + seq!["v[2]"@, "v[1]"@, "v[0]"@, "v2[1]"@, "v2[0]"@]);
    }
}

/// Every label released over one full run, in event order: scenario A,
/// then B, then C, then D.
pub open spec fn full_trace() -> Seq<Seq<char>> {
    seq![
        "C"@,
        "B"@,
        "A"@,
        "inner2"@,
        "inner1"@,
        "outer"@,
        "move_src"@,
        "v[2]"@,
        "v[1]"@,
        "v[0]"@,
        "v2[1]"@,
        "v2[0]"@,
    ]
}

/// Entry point: runs the four scenarios in their fixed order on a fresh
/// trace and returns the full event record.
pub fn run_all() -> (tr: Trace)
    ensures
        tr@ == full_trace(),
{
    let mut tr = Trace::new();
    experiment_a_lifo_order(&mut tr);
    experiment_b_nested_and_explicit_drop(&mut tr);
    experiment_c_move_and_function_return(&mut tr);
    experiment_d_vec_clear_and_scope(&mut tr);
    proof {
        assert(tr@ =~= full_trace());
    }
    tr
}

} // verus!
