//! An owned stack of `i32` values, each node exclusively owned by its predecessor.
use crate::model::{front, rest, pushed_front};
use vstd::prelude::*;

verus! {

enum Link {
    Empty,
    More(Box<Node>),
}

struct Node {
    elem: i32,
    next: Link,
}

/// The elements reachable from `link`, front first.
spec fn link_view(link: Link) -> Seq<i32>
    decreases link,
{
    match link {
        Link::Empty => Seq::empty(),
        Link::More(n) => seq![n.elem].add(link_view(n.next)),
    }
}

/// A last-in, first-out stack of `i32` values.
pub struct List {
    head: Link,
}

impl View for List {
    type V = Seq<i32>;

    /// The elements from the top of the stack down.
    closed spec fn view(&self) -> Seq<i32> {
        link_view(self.head)
    }
}

impl List {
    /// An empty stack.
    pub fn new() -> (r: Self)
        ensures
            r@ == Seq::<i32>::empty(),
    {
        List { head: Link::Empty }
    }

    /// Puts `elem` on top of the stack.
    pub fn push(&mut self, elem: i32)
        ensures
            final(self)@ == pushed_front(old(self)@, elem),
    {
        let mut rest = Link::Empty;
        std::mem::swap(&mut rest, &mut self.head);
        self.head = Link::More(Box::new(Node { elem: elem, next: rest }));
    }

    /// Removes and returns the top element, or `None` when the stack is empty.
    pub fn pop(&mut self) -> (r: Option<i32>)
        ensures
            r == front(old(self)@),
            final(self)@ == rest(old(self)@),
    {
        let mut taken = Link::Empty;
        std::mem::swap(&mut taken, &mut self.head);
        match taken {
            Link::Empty => None,
            Link::More(n) => {
                let node = *n;
                self.head = node.next;
                Some(node.elem)
            }
        }
    }

    /// The top element, left in place, or `None` when the stack is empty.
    pub fn head(&self) -> (r: Option<i32>)
        ensures
            r == front(self@),
    {
        match &self.head {
            Link::Empty => None,
            Link::More(n) => Some(n.elem),
        }
    }
}

impl Drop for List {
    /// Tears the chain down one node at a time, detaching each node's successor
    /// before the node itself is freed, so that no destructor recurses.
    fn drop(&mut self)
        ensures
            final(self)@ == Seq::<i32>::empty(),
        opens_invariants none
        no_unwind
    {
        let mut current = Link::Empty;
        std::mem::swap(&mut current, &mut self.head);
        loop
            invariant
                self.head is Empty,
            decreases link_view(current).len(),
        {
            match current {
                Link::Empty => break,
                Link::More(n) => {
                    let mut node = *n;
                    current = Link::Empty;
                    std::mem::swap(&mut current, &mut node.next);
                },
            }
        }
    }
}

} // verus!
