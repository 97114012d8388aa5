use frappe_tea::components::each::Each;
use frappe_tea::components::if_::{Chain, If, Render};
use frappe_tea::context::Context;
use frappe_tea::{FnCallback, Source};

type Flag = Source<bool, FnCallback<bool, fn(&bool)>>;

fn rendered(render: Render) -> Option<Option<usize>> {
    match render {
        Render::Keep => None,
        Render::Branch(i) => Some(Some(i)),
        Render::Otherwise => Some(None),
    }
}

#[test]
fn single_condition() {
    let mut chain = Chain::new();
    assert_eq!(chain.push(), 0);
    assert_eq!(rendered(chain.update(0, false)), Some(None));
    assert_eq!(rendered(chain.update(0, false)), None);
    assert_eq!(rendered(chain.update(0, true)), Some(Some(0)));
    assert_eq!(rendered(chain.update(0, true)), None);
    assert_eq!(rendered(chain.update(0, false)), Some(None));
}

#[test]
fn first_true_condition_wins() {
    let mut chain = Chain::new();
    for expected in 0..3 {
        assert_eq!(chain.push(), expected);
    }
    assert_eq!(rendered(chain.update(2, true)), Some(Some(2)));
    assert_eq!(rendered(chain.update(1, true)), Some(Some(1)));
    assert_eq!(rendered(chain.update(2, false)), None);
    assert_eq!(rendered(chain.update(0, true)), Some(Some(0)));
    assert_eq!(rendered(chain.update(1, false)), None);
    assert_eq!(rendered(chain.update(0, false)), Some(None));
    assert_eq!(rendered(chain.update(2, true)), Some(Some(2)));
}

#[test]
fn conditions_are_reported_as_they_are_added() {
    let mut chain = Chain::new();
    let first = chain.push();
    assert_eq!(rendered(chain.update(first, false)), Some(None));
    let second = chain.push();
    assert_eq!(rendered(chain.update(second, true)), Some(Some(1)));
    let third = chain.push();
    assert_eq!(rendered(chain.update(third, true)), None);
}

#[test]
fn blocks_are_children_of_the_node_they_are_made_in() {
    let mut root: Context<()> = Context::default();
    let mut flag: Flag = Source::new(true);
    let shown = If::new(&mut root, flag.observer(), || "on");
    let mut list: Source<Vec<i32>, FnCallback<Vec<i32>, fn(&Vec<i32>)>> = Source::new(vec![1, 2]);
    let items = Each::iter(&mut root, list.observer(), |item: &i32| *item * 2);
    assert!(root.next_child().position().eq_parts(&(0, 1, 2)));

    let (simple, cx) = shown.into_parts();
    assert!(cx.position().eq_parts(&(0, 1, 0)));
    assert!(cx.dynamic());
    assert_eq!((simple.child_fn)(), "on");

    let (iter, cx) = items.into_parts();
    assert!(cx.position().eq_parts(&(0, 1, 1)));
    assert!(!cx.dynamic());
    assert_eq!((iter.each_fn)(&4), 8);
}
