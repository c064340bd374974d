use vstd::multiset::Multiset;
use vstd::prelude::*;
use vstd::seq_lib::lemma_multiset_commutative;
use vstd::seq_lib::to_multiset_build;
use vstd::seq_lib::to_multiset_len;
use vstd::seq_lib::to_multiset_remove;

verus! {

/// One release per binding: leaving a scope whose live bindings carry
/// `labels` — or clearing or destroying a container holding them — emits
/// exactly `labels.len()` events, and their multiset is exactly the
/// multiset of the bindings' labels. Nothing is leaked (zero events) and
/// nothing fires twice (two or more events for one binding).
pub proof fn lemma_one_release_per_binding(labels: Seq<Seq<char>>)
    ensures
        labels.reverse().len() == labels.len(),
        labels.reverse().to_multiset() == labels.to_multiset(),
{
    labels.lemma_reverse_to_multiset();
}

/// Early release pre-empts scope exit. A scope holds `labels` and binding
/// `i` is released explicitly; the scope then exits. Per the contracts of
/// `Scope::release_at` and `Scope::exit`, the events that fire are
/// `seq![labels[i]] + labels.remove(i).reverse()`: the explicitly released
/// label fires first, at the call site; the exit emits only the remaining
/// bindings; and overall each binding still fires exactly once.
pub proof fn lemma_early_release_then_exit(labels: Seq<Seq<char>>, i: int)
    requires
        0 <= i < labels.len(),
    ensures
        (seq![labels[i]] + labels.remove(i).reverse())[0] == labels[i],
        (seq![labels[i]] + labels.remove(i).reverse()).len() == labels.len(),
        (seq![labels[i]] + labels.remove(i).reverse()).to_multiset() == labels.to_multiset(),
{
    let l = labels[i];
    let removed = labels.remove(i);
    let events = seq![l] + removed.reverse();
    lemma_multiset_commutative(seq![l], removed.reverse());
    removed.lemma_reverse_to_multiset();
    to_multiset_remove(labels, i);
    to_multiset_build(Seq::<Seq<char>>::empty(), l);
    to_multiset_len(Seq::<Seq<char>>::empty());
    assert(Seq::<Seq<char>>::empty().to_multiset() =~= Multiset::<Seq<char>>::empty()) by {
        vstd::multiset::lemma_multiset_empty_len(Seq::<Seq<char>>::empty().to_multiset());
    }
    assert(seq![l] =~= Seq::<Seq<char>>::empty().push(l));
    vstd::seq_lib::to_multiset_contains(labels, l);
    assert(labels.contains(l));
    assert(events.to_multiset() =~= labels.to_multiset());
}

} // verus!
