use linked_lists::third::List;

#[test]
fn third_basics() {
    let list = List::new();
    assert_eq!(list.head(), None);

    let list = list.prepend(1).prepend(2).prepend(3);
    assert_eq!(list.head(), Some(&3));

    let list = list.tail();
    assert_eq!(list.head(), Some(&2));

    let list = list.tail();
    assert_eq!(list.head(), Some(&1));

    let list = list.tail();
    assert_eq!(list.head(), None);

    let list = list.tail();
    assert_eq!(list.head(), None);
}

#[test]
fn third_iter() {
    let list = List::new().prepend(1).prepend(2).prepend(3);

    let mut iter = list.iter();
    assert_eq!(iter.next(), Some(&3));
    assert_eq!(iter.next(), Some(&2));
    assert_eq!(iter.next(), Some(&1));
}

#[test]
fn third_iter_ends() {
    let list = List::new().prepend(1).prepend(2).prepend(3);
    let mut iter = list.iter();
    assert_eq!(iter.next(), Some(&3));
    assert_eq!(iter.next(), Some(&2));
    assert_eq!(iter.next(), Some(&1));
    assert_eq!(iter.next(), None);
    assert_eq!(iter.next(), None);
}

#[test]
fn third_prepend_leaves_receiver() {
    let a = List::new().prepend(1);
    let b = a.prepend(2);
    assert_eq!(a.head(), Some(&1));
    assert_eq!(b.head(), Some(&2));
    assert_eq!(b.tail().head(), Some(&1));
}

#[test]
fn third_branches_share_suffix() {
    let shared = List::new().prepend(1).prepend(2);
    let left = shared.prepend(10);
    let right = shared.prepend(20);
    drop(shared);

    let mut l = left.iter();
    assert_eq!(l.next(), Some(&10));
    assert_eq!(l.next(), Some(&2));
    assert_eq!(l.next(), Some(&1));
    assert_eq!(l.next(), None);

    drop(left);
    let mut r = right.iter();
    assert_eq!(r.next(), Some(&20));
    assert_eq!(r.next(), Some(&2));
    assert_eq!(r.next(), Some(&1));
    assert_eq!(r.next(), None);
}

#[test]
fn third_tail_of_empty_is_empty() {
    let list: List<u8> = List::new();
    let t = list.tail();
    assert_eq!(t.head(), None);
    assert_eq!(t.tail().head(), None);
    assert_eq!(t.iter().next(), None);
}

#[test]
fn third_long_list_drops_without_recursion() {
    let mut list = List::new();
    for i in 0..200_000u32 {
        list = list.prepend(i);
    }
    let kept = list.tail().tail();
    drop(list);
    assert_eq!(kept.head(), Some(&199_997));
    drop(kept);
}
