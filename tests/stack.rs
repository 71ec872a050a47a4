use linked_lists::first::List;

#[test]
fn first_basic() {
    let mut list = List::new();

    assert_eq!(list.pop(), None);

    list.push(1);
    list.push(2);
    list.push(3);

    assert_eq!(list.pop(), Some(3));
    assert_eq!(list.pop(), Some(2));

    list.push(4);
    list.push(5);

    assert_eq!(list.pop(), Some(5));
    assert_eq!(list.pop(), Some(4));

    assert_eq!(list.pop(), Some(1));
    assert_eq!(list.pop(), None);
}

#[test]
fn first_head_leaves_top_in_place() {
    let mut list = List::new();
    assert_eq!(list.head(), None);
    list.push(7);
    list.push(-8);
    assert_eq!(list.head(), Some(-8));
    assert_eq!(list.head(), Some(-8));
    assert_eq!(list.pop(), Some(-8));
    assert_eq!(list.head(), Some(7));
}

#[test]
fn first_pop_on_empty_repeats() {
    let mut list = List::new();
    assert_eq!(list.pop(), None);
    assert_eq!(list.pop(), None);
    assert_eq!(list.pop(), None);
    list.push(i32::MAX);
    list.push(i32::MIN);
    assert_eq!(list.pop(), Some(i32::MIN));
    assert_eq!(list.pop(), Some(i32::MAX));
    assert_eq!(list.pop(), None);
}

#[test]
fn first_long_stack_drops_without_recursion() {
    let mut list = List::new();
    let mut i: i32 = 0;
    while i < 200_000 {
        list.push(i);
        i += 1;
    }
    assert_eq!(list.pop(), Some(199_999));
    drop(list);
}
