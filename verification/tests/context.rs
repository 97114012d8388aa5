use frappe_tea::context::{Context, Id};

#[test]
fn root_id_is_all_zero() {
    let id = Id::default();
    assert_eq!((id.sum(), id.depth(), id.index()), (0, 0, 0));
    assert_eq!(id.custom_id(), None);
    assert!(id.eq_parts(&(0, 0, 0)));
    assert!(!id.eq_parts(&(0, 1, 0)));
}

#[test]
fn setters_add_to_the_parts() {
    let mut id = Id::default();
    id.set_sum(3);
    id.set_sum(4);
    id.set_depth(2);
    id.set_index(5);
    id.set_index(1);
    assert!(id.eq_parts(&(7, 2, 6)));
}

#[test]
fn custom_id_is_kept() {
    let mut id = Id::default();
    id.set_custom_id("title".to_string());
    assert_eq!(id.custom_id(), Some("title"));
    assert!(id.eq_parts(&(0, 0, 0)));
}

#[test]
fn child_id_is_made_from_the_parent() {
    let mut parent = Id::default();
    parent.set_sum(4);
    parent.set_depth(2);
    parent.set_index(3);
    let mut child = Id::default();
    child.set_id(&parent, 6);
    assert!(child.eq_parts(&(9, 3, 6)));
}

#[test]
fn contexts_number_their_children() {
    let mut root: Context<()> = Context::default();
    assert!(!root.dynamic());
    let first = root.next_child();
    let mut second = root.next_child();
    assert!(first.position().eq_parts(&(0, 1, 0)));
    assert!(second.position().eq_parts(&(0, 1, 1)));
    let grandchild = second.next_child();
    assert!(grandchild.position().eq_parts(&(2, 2, 0)));
    let third = Context::from_parent_cx(&root, 2);
    assert!(third.position().eq_parts(&(0, 1, 2)));
    root.clear();
    assert!(root.next_child().position().eq_parts(&(0, 1, 0)));
}

#[test]
fn a_context_can_be_marked_dynamic() {
    let mut root: Context<()> = Context::default();
    root.set_dynamic();
    assert!(root.dynamic());
    assert!(!root.next_child().dynamic());
}

#[test]
fn id_is_written_as_three_numbers() {
    let mut id = Id::default();
    assert_eq!(id.to_string(), "0-0-0");
    id.set_sum(7);
    id.set_depth(20);
    id.set_index(1005);
    assert_eq!(id.to_string(), "7-20-1005");
    let mut large = Id::default();
    large.set_sum(usize::MAX);
    assert_eq!(large.to_string(), format!("{}-0-0", usize::MAX));
}

#[test]
fn custom_id_is_written_as_it_is() {
    let mut id = Id::default();
    id.set_sum(7);
    id.set_custom_id("main-title".to_string());
    assert_eq!(id.to_string(), "main-title");
}

#[test]
fn cloned_id_is_equal_in_every_part() {
    let mut id = Id::default();
    id.set_sum(3);
    id.set_custom_id("x".to_string());
    let copy = id.clone();
    assert!(copy.eq_parts(&(3, 0, 0)));
    assert_eq!(copy.custom_id(), Some("x"));
}
