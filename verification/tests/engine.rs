use drop_playground::container::GuardVec;
use drop_playground::guard::Guard;
use drop_playground::guard::Trace;
use drop_playground::scenarios::takes_ownership;
use drop_playground::scope::Scope;

fn events_of(tr: &Trace) -> Vec<&'static str> {
    let mut out: Vec<&'static str> = Vec::new();
    let mut i: usize = 0;
    while i < tr.len() {
        out.push(tr.event(i));
        i += 1;
    }
    out
}

#[test]
fn construction_fires_no_event() {
    let mut tr = Trace::new();
    let mut sc = Scope::new();
    sc.bind(Guard::construct("quiet"));
    assert_eq!(tr.len(), 0);
    sc.exit(&mut tr);
    assert_eq!(events_of(&tr), vec!["quiet"]);
}

#[test]
fn scope_exit_is_lifo() {
    let mut tr = Trace::new();
    let mut sc = Scope::new();
    sc.bind(Guard::construct("first"));
    sc.bind(Guard::construct("second"));
    sc.bind(Guard::construct("third"));
    sc.bind(Guard::construct("fourth"));
    sc.exit(&mut tr);
    assert_eq!(events_of(&tr), vec!["fourth", "third", "second", "first"]);
}

#[test]
fn empty_scope_exit_fires_nothing() {
    let mut tr = Trace::new();
    let sc = Scope::new();
    sc.exit(&mut tr);
    assert_eq!(tr.len(), 0);
}

#[test]
fn explicit_release_fires_at_the_call_site_and_never_again() {
    let mut tr = Trace::new();
    let mut sc = Scope::new();
    sc.bind(Guard::construct("x"));
    sc.bind(Guard::construct("y"));
    sc.bind(Guard::construct("z"));
    sc.release_at(1, &mut tr);
    // The event for `y` has already fired, before any scope exit.
    assert_eq!(events_of(&tr), vec!["y"]);
    assert_eq!(sc.live(), 2);
    sc.exit(&mut tr);
    // `y` does not fire again; the rest still release in reverse order.
    assert_eq!(events_of(&tr), vec!["y", "z", "x"]);
}

#[test]
fn transferred_guard_is_released_in_the_callee() {
    let mut tr = Trace::new();
    let original_binding = Guard::construct("moved");
    let new_binding = original_binding;
    // `original_binding` is inert from here on: using it again would be
    // rejected by the compiler, so only `new_binding` can ever release.
    takes_ownership(new_binding, &mut tr);
    assert_eq!(events_of(&tr), vec!["moved"]);
}

#[test]
fn clearing_a_container_releases_all_in_reverse_insertion_order() {
    let mut tr = Trace::new();
    let mut v = GuardVec::new();
    v.push(Guard::construct("one"));
    v.push(Guard::construct("two"));
    v.push(Guard::construct("three"));
    v.clear(&mut tr);
    assert_eq!(events_of(&tr), vec!["three", "two", "one"]);
    assert_eq!(v.len(), 0);
}

#[test]
fn cleared_container_remains_usable() {
    let mut tr = Trace::new();
    let mut v = GuardVec::new();
    v.push(Guard::construct("early"));
    v.clear(&mut tr);
    v.push(Guard::construct("late1"));
    v.push(Guard::construct("late2"));
    assert_eq!(v.len(), 2);
    v.destroy(&mut tr);
    assert_eq!(events_of(&tr), vec!["early", "late2", "late1"]);
}

#[test]
fn clearing_an_empty_container_fires_nothing() {
    let mut tr = Trace::new();
    let mut v = GuardVec::new();
    v.clear(&mut tr);
    assert_eq!(tr.len(), 0);
    v.destroy(&mut tr);
    assert_eq!(tr.len(), 0);
}

#[test]
fn duplicate_labels_each_fire_once() {
    let mut tr = Trace::new();
    let mut sc = Scope::new();
    sc.bind(Guard::construct("twin"));
    sc.bind(Guard::construct("twin"));
    sc.exit(&mut tr);
    assert_eq!(events_of(&tr), vec!["twin", "twin"]);
}
