use frappe_tea::{FnCallback, MapCallback, Observable, Source, Subscribe};
use std::cell::RefCell;
use std::rc::Rc;

type Boxed = FnCallback<i32, Box<dyn FnMut(&i32)>>;

type Text = fn(&i32) -> String;

type Sink = FnCallback<String, fn(&String)>;

/// A callback that appends every value it is invoked with to `log`.
fn recorder(log: &Rc<RefCell<Vec<i32>>>) -> Boxed {
    let log = log.clone();
    FnCallback::new(Box::new(move |v: &i32| log.borrow_mut().push(*v)))
}

fn new_log() -> Rc<RefCell<Vec<i32>>> {
    Rc::new(RefCell::new(Vec::new()))
}

#[test]
fn create_source() {
    let _s: Source<i32, Boxed> = Source::new(0);
    let _s: Source<i32, Boxed> = Source::from(0);
    let _s: Source<i32, Boxed> = 0.into();
}

#[test]
fn set_value() {
    let mut s = Source::new(0);

    let expected_v = Rc::new(RefCell::new(0));
    let count = Rc::new(RefCell::new(0));

    let (c, e) = (count.clone(), expected_v.clone());
    s.observer().subscribe(
        Some(&mut s),
        FnCallback::new(move |v: &i32| {
            assert_eq!(*v, *e.borrow());

            *c.borrow_mut() += 1;
        }),
    );

    assert_eq!(*count.borrow(), 1);

    *expected_v.borrow_mut() = 7;

    s.set(7);

    assert_eq!(*count.borrow(), 2);
}

#[test]
fn map() {
    let mut s = Source::new(1);

    let expected_v = Rc::new(RefCell::new(2));
    let count = Rc::new(RefCell::new(0));

    let (c, e) = (count.clone(), expected_v.clone());
    s.observer().map(|v: &i32| *v * 2).subscribe(
        Some(&mut s),
        FnCallback::new(move |v: &i32| {
            assert_eq!(*v, *e.borrow());

            *c.borrow_mut() += 1;
        }),
    );

    assert_eq!(*count.borrow(), 1);

    *expected_v.borrow_mut() = 14;

    s.set(7);

    assert_eq!(*count.borrow(), 2);
}

#[test]
fn subscribe_pushes_the_current_value_once() {
    let mut s: Source<i32, Boxed> = Source::new(41);
    let log = new_log();
    let unsub = s.observer().subscribe(Some(&mut s), recorder(&log));
    assert!(unsub.is_some());
    assert_eq!(*log.borrow(), vec![41]);
}

#[test]
fn set_notifies_every_subscriber_once() {
    let mut s: Source<i32, Boxed> = Source::new(1);
    let logs = [new_log(), new_log(), new_log()];
    for log in &logs {
        s.observer().subscribe(Some(&mut s), recorder(log));
    }
    s.set(5);
    for log in &logs {
        assert_eq!(*log.borrow(), vec![1, 5]);
    }
}

#[test]
fn set_without_subscribers_only_stores_the_value() {
    let mut s: Source<i32, Boxed> = Source::new(1);
    s.set(2);
    let o = s.observer();
    assert_eq!(o.with(Some(&s), |v: Option<&i32>| v.copied()), Some(2));
}

#[test]
fn unsubscribed_callback_is_not_invoked_again() {
    let mut s: Source<i32, Boxed> = Source::new(0);
    let (first, second) = (new_log(), new_log());
    let unsub = s.observer().subscribe(Some(&mut s), recorder(&first)).unwrap();
    s.observer().subscribe(Some(&mut s), recorder(&second));
    s.set(1);
    unsub.unsubscribe(Some(&mut s));
    s.set(2);
    s.set(3);
    assert_eq!(*first.borrow(), vec![0, 1]);
    assert_eq!(*second.borrow(), vec![0, 1, 2, 3]);
}

#[test]
fn two_subscribers_then_one() {
    let mut s: Source<i32, Boxed> = Source::new(0);
    let (log1, log2) = (new_log(), new_log());
    let unsub1 = s.observer().subscribe(Some(&mut s), recorder(&log1)).unwrap();
    assert_eq!(*log1.borrow(), vec![0]);
    let _unsub2 = s.observer().subscribe(Some(&mut s), recorder(&log2)).unwrap();
    assert_eq!(*log2.borrow(), vec![0]);
    s.set(7);
    assert_eq!(*log1.borrow(), vec![0, 7]);
    assert_eq!(*log2.borrow(), vec![0, 7]);
    unsub1.unsubscribe(Some(&mut s));
    s.set(14);
    assert_eq!(*log1.borrow(), vec![0, 7]);
    assert_eq!(*log2.borrow(), vec![0, 7, 14]);
}

#[test]
fn dropped_source_makes_observers_inert() {
    let mut owner: Option<Source<i32, Boxed>> = Some(Source::new(3));
    let observer = owner.as_mut().unwrap().observer();
    let before = new_log();
    let unsub = observer.subscribe(owner.as_mut(), recorder(&before)).unwrap();

    owner = None;

    let after = new_log();
    assert!(observer.subscribe(owner.as_mut(), recorder(&after)).is_none());
    assert!(after.borrow().is_empty());
    assert_eq!(observer.with(owner.as_ref(), |v: Option<&i32>| v.copied()), None);
    let copy = observer.clone(owner.as_mut());
    assert!(copy.subscribe(owner.as_mut(), recorder(&after)).is_none());
    unsub.unsubscribe(owner.as_mut());
    assert_eq!(*before.borrow(), vec![3]);
}

#[test]
fn with_reads_the_value_and_registers_nothing() {
    let mut s: Source<i32, Boxed> = Source::new(9);
    let log = new_log();
    let observer = s.observer();
    assert_eq!(observer.with(Some(&s), |v: Option<&i32>| v.map(|x| x + 1)), Some(10));
    s.set(10);
    assert_eq!(observer.with(Some(&s), |v: Option<&i32>| v.copied()), Some(10));
    observer.subscribe(Some(&mut s), recorder(&log));
    assert_eq!(*log.borrow(), vec![10]);
}

#[test]
fn set_with_changes_in_place_and_returns_the_result() {
    let mut s: Source<i32, Boxed> = Source::new(20);
    let log = new_log();
    s.observer().subscribe(Some(&mut s), recorder(&log));
    let old = s.set_with(|v: &mut i32| {
        let old = *v;
        *v += 22;
        old
    });
    assert_eq!(old, 20);
    assert_eq!(*log.borrow(), vec![20, 42]);
}

#[test]
fn cloned_observer_subscribes_under_its_own_id() {
    let mut s: Source<i32, Boxed> = Source::new(1);
    let (first, second) = (new_log(), new_log());
    let observer = s.observer();
    let copy = observer.clone(Some(&mut s));
    let unsub = observer.subscribe(Some(&mut s), recorder(&first)).unwrap();
    copy.subscribe(Some(&mut s), recorder(&second));
    s.set(2);
    assert_eq!(*first.borrow(), vec![1, 2]);
    assert_eq!(*second.borrow(), vec![1, 2]);
    unsub.unsubscribe(Some(&mut s));
    s.set(3);
    assert_eq!(*first.borrow(), vec![1, 2]);
    assert_eq!(*second.borrow(), vec![1, 2, 3]);
}

#[test]
fn subscribing_again_replaces_the_callback() {
    let mut s: Source<i32, Boxed> = Source::new(1);
    let (first, second) = (new_log(), new_log());
    let observer = s.observer();
    observer.subscribe(Some(&mut s), recorder(&first));
    observer.subscribe(Some(&mut s), recorder(&second));
    s.set(2);
    assert_eq!(*first.borrow(), vec![1]);
    assert_eq!(*second.borrow(), vec![1, 2]);
}

#[test]
fn observer_of_another_source_does_not_subscribe() {
    let mut small: Source<i32, Boxed> = Source::new(1);
    let mut large: Source<i32, Boxed> = Source::new(2);
    large.observer();
    let stranger = large.observer();
    let log = new_log();
    assert!(stranger.subscribe(Some(&mut small), recorder(&log)).is_none());
    assert!(log.borrow().is_empty());
    small.set(5);
    assert!(log.borrow().is_empty());
}

#[test]
fn cancelling_twice_is_harmless() {
    let mut s: Source<i32, Boxed> = Source::new(1);
    let (first, second) = (new_log(), new_log());
    let observer = s.observer();
    let unsub1 = observer.subscribe(Some(&mut s), recorder(&first)).unwrap();
    let unsub2 = observer.subscribe(Some(&mut s), recorder(&second)).unwrap();
    unsub1.unsubscribe(Some(&mut s));
    unsub2.unsubscribe(Some(&mut s));
    s.set(2);
    assert_eq!(*first.borrow(), vec![1]);
    assert_eq!(*second.borrow(), vec![1]);
}

#[test]
fn mapped_subscriber_gets_every_value_transformed() {
    let mut s = Source::new(1);
    let log = new_log();
    s.observer().map(|v: &i32| *v * 2).subscribe(Some(&mut s), recorder(&log));
    s.set(7);
    s.set(-3);
    s.set_with(|v: &mut i32| *v = 10);
    assert_eq!(*log.borrow(), vec![2, 14, -6, 20]);
}

#[test]
fn mapped_subscription_is_cancelled_at_the_source() {
    let mut s = Source::new(1);
    let log = new_log();
    let calls = Rc::new(RefCell::new(0));
    let seen = calls.clone();
    let mapped = s.observer().map(move |v: &i32| {
        *seen.borrow_mut() += 1;
        *v * 2
    });
    let unsub = mapped.subscribe(Some(&mut s), recorder(&log)).unwrap();
    s.set(2);
    assert_eq!(*calls.borrow(), 2);
    unsub.unsubscribe(Some(&mut s));
    s.set(3);
    assert_eq!(*log.borrow(), vec![2, 4]);
    assert_eq!(*calls.borrow(), 2);
}

#[test]
fn mapping_function_is_shared_between_subscriptions() {
    let mut s = Source::new(1);
    let (first, second) = (new_log(), new_log());
    let calls = Rc::new(RefCell::new(0));
    let seen = calls.clone();
    let mapped = s.observer().map(move |v: &i32| {
        *seen.borrow_mut() += 1;
        *v + *seen.borrow()
    });
    mapped.subscribe(Some(&mut s), recorder(&first));
    mapped.subscribe(Some(&mut s), recorder(&second));
    s.set(10);
    assert_eq!(*first.borrow(), vec![2]);
    assert_eq!(*second.borrow(), vec![3, 13]);
}

#[test]
fn mapped_with_samples_the_transformed_value() {
    let mut s: Source<i32, MapCallback<Text, Sink, String>> = Source::new(4);
    let mapped = s.observer().map((|v: &i32| v.to_string()) as Text);
    let len = mapped.with(Some(&s), |v: Option<&String>| v.map(|t| t.len()));
    assert_eq!(len, Some(1));
    s.set(123);
    let text = mapped.with(Some(&s), |v: Option<&String>| v.cloned());
    assert_eq!(text, Some("123".to_string()));
    let gone = mapped.with(None::<&Source<i32, Boxed>>, |v: Option<&String>| v.cloned());
    assert_eq!(gone, None);
}

#[test]
fn maps_compose() {
    let mut s = Source::new(2);
    let log = Rc::new(RefCell::new(Vec::new()));
    let sink = log.clone();
    let record = FnCallback::new(move |t: &String| sink.borrow_mut().push(t.clone()));
    s.observer()
        .map(|v: &i32| *v + 1)
        .map(|v: &i32| format!("<{}>", v))
        .subscribe(Some(&mut s), record);
    s.set(9);
    assert_eq!(*log.borrow(), vec!["<3>".to_string(), "<10>".to_string()]);
}
