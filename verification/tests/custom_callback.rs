use frappe_tea::{Callback, Observable, Source, Subscribe};
use std::cell::RefCell;
use std::rc::Rc;

/// Counts how often it is invoked and adds up what it is invoked with.
struct Tally {
    seen: Rc<RefCell<(u32, i64)>>,
}

impl Callback<i64> for Tally {
    fn call(&mut self, value: &i64) {
        let mut seen = self.seen.borrow_mut();
        seen.0 += 1;
        seen.1 += *value;
    }
}

#[test]
fn callback_of_the_callers_own_type() {
    let seen = Rc::new(RefCell::new((0, 0)));
    let mut s: Source<i64, Tally> = Source::new(3);
    let observer = s.observer();
    assert!(observer.subscribe(Some(&mut s), Tally { seen: seen.clone() }).is_some());
    assert_eq!(*seen.borrow(), (1, 3));
    s.set(4);
    s.set(5);
    assert_eq!(*seen.borrow(), (3, 12));
    assert_eq!(observer.with(Some(&s), |v: Option<&i64>| v.copied()), Some(5));
}

#[test]
fn source_dereferences_to_its_value() {
    let mut s: Source<i64, Tally> = Source::new(3);
    assert_eq!(*s, 3);
    s.set(8);
    assert_eq!(*s, 8);
    s.set_with(|v: &mut i64| *v -= 1);
    assert_eq!(*s, 7);
}

#[test]
fn boxed_observer_is_an_observable() {
    let seen = Rc::new(RefCell::new((0, 0)));
    let mut s: Source<i64, Tally> = Source::new(3);
    let observer = Box::new(s.observer());
    let unsub = observer.subscribe(Some(&mut s), Tally { seen: seen.clone() }).unwrap();
    s.set(10);
    assert_eq!(*seen.borrow(), (2, 13));
    assert_eq!(observer.with(Some(&s), |v: Option<&i64>| v.copied()), Some(10));
    unsub.unsubscribe(Some(&mut s));
    s.set(11);
    assert_eq!(*seen.borrow(), (2, 13));
}
