use linked_lists::{fifth, fifth_unsafe};

#[test]
fn fifth_unsafe_basics() {
    let mut list = fifth_unsafe::List::new();

    assert_eq!(list.pop(), None);

    list.push(1);
    list.push(2);
    list.push(3);

    assert_eq!(list.pop(), Some(1));
    assert_eq!(list.pop(), Some(2));

    list.push(4);
    list.push(5);

    assert_eq!(list.pop(), Some(3));
    assert_eq!(list.pop(), Some(4));

    assert_eq!(list.pop(), Some(5));
    assert_eq!(list.pop(), None);

    list.push(6);
    list.push(7);

    assert_eq!(list.pop(), Some(6));
    assert_eq!(list.pop(), Some(7));
    assert_eq!(list.pop(), None);
}

#[test]
fn fifth_basics() {
    let mut list = fifth::List::new();

    assert_eq!(list.pop(), None);

    list.push(1);
    list.push(2);
    list.push(3);

    assert_eq!(list.pop(), Some(1));
    assert_eq!(list.pop(), Some(2));

    list.push(4);
    list.push(5);

    assert_eq!(list.pop(), Some(3));
    assert_eq!(list.pop(), Some(4));

    assert_eq!(list.pop(), Some(5));
    assert_eq!(list.pop(), None);

    list.push(6);
    list.push(7);

    assert_eq!(list.pop(), Some(6));
    assert_eq!(list.pop(), Some(7));
    assert_eq!(list.pop(), None);
}

#[test]
fn fifth_fifo_over_many_pushes() {
    let mut list = fifth::List::new();
    for i in 0..1000u32 {
        list.push(i);
    }
    for i in 0..1000u32 {
        assert_eq!(list.pop(), Some(i));
    }
    assert_eq!(list.pop(), None);
    assert_eq!(list.pop(), None);
}

#[test]
fn fifth_unsafe_refill_after_draining() {
    let mut list = fifth_unsafe::List::new();
    list.push(String::from("a"));
    assert_eq!(list.pop(), Some(String::from("a")));
    assert_eq!(list.pop(), None);
    list.push(String::from("b"));
    assert_eq!(list.pop(), Some(String::from("b")));
    assert_eq!(list.pop(), None);
}

#[test]
fn fifth_unsafe_interleaved_reuses_slots() {
    let mut list = fifth_unsafe::List::new();
    let mut next_in: u64 = 0;
    let mut next_out: u64 = 0;
    for round in 0..50u64 {
        for _ in 0..(round % 7 + 1) {
            list.push(next_in);
            next_in += 1;
        }
        for _ in 0..(round % 5) {
            if next_out < next_in {
                assert_eq!(list.pop(), Some(next_out));
                next_out += 1;
            }
        }
    }
    while next_out < next_in {
        assert_eq!(list.pop(), Some(next_out));
        next_out += 1;
    }
    assert_eq!(list.pop(), None);
}
