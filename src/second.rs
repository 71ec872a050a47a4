//! A generic owned stack with peeking and three ways to walk it.
use crate::model::{front, rest, pushed_front};
use vstd::prelude::*;

verus! {

/// A node of the stack's chain: one element and the rest of the chain.
pub struct Node<T> {
    elem: T,
    next: Option<Box<Node<T>>>,
}

/// The elements reachable from `link`, front first.
spec fn link_view<T>(link: Option<Box<Node<T>>>) -> Seq<T>
    decreases link,
{
    match link {
        None => Seq::empty(),
        Some(n) => seq![n.elem].add(link_view(n.next)),
    }
}

/// A last-in, first-out stack.
pub struct List<T> {
    head: Option<Box<Node<T>>>,
}

impl<T> View for List<T> {
    type V = Seq<T>;

    /// The elements from the top of the stack down.
    closed spec fn view(&self) -> Seq<T> {
        link_view(self.head)
    }
}

impl<T> List<T> {
    /// An empty stack.
    pub fn new() -> (r: Self)
        ensures
            r@ == Seq::<T>::empty(),
    {
        List { head: None }
    }

    /// Puts `elem` on top of the stack.
    pub fn push(&mut self, elem: T)
        ensures
            final(self)@ == pushed_front(old(self)@, elem),
    {
        let rest = self.head.take();
        self.head = Some(Box::new(Node { elem: elem, next: rest }));
    }

    /// Removes and returns the top element, or `None` when the stack is empty.
    pub fn pop(&mut self) -> (r: Option<T>)
        ensures
            r == front(old(self)@),
            final(self)@ == rest(old(self)@),
    {
        match self.head.take() {
            None => None,
            Some(n) => {
                let node = *n;
                self.head = node.next;
                Some(node.elem)
            },
        }
    }

    /// A view of the top element, or `None` when the stack is empty.
    pub fn peek(&self) -> (r: Option<&T>)
        ensures
            self@.len() == 0 ==> r is None,
            self@.len() > 0 ==> r == Some(&self@[0]),
    {
        match &self.head {
            None => None,
            Some(n) => Some(&n.elem),
        }
    }

    /// A mutable view of the top element, or `None` when the stack is empty.
    /// What is written through it becomes the new top element.
    pub fn peek_mut(&mut self) -> (r: Option<&mut T>)
        ensures
            old(self)@.len() == 0 ==> r is None && final(self)@ == old(self)@,
            old(self)@.len() > 0 ==> r is Some && *r.unwrap() == old(self)@[0] && final(self)@
                == old(self)@.update(0, *final(r.unwrap())),
    {
        match &mut self.head {
            None => None,
            Some(n) => Some(&mut n.elem),
        }
    }
}

/// A consuming walk that hands out the elements from the top down.
pub struct IntoIter<T>(List<T>);

/// A walk over shared views of the elements, from the top down.
pub struct Iter<'a, T> {
    next: Option<&'a Node<T>>,
}

/// A walk over exclusive views of the elements, from the top down.
pub struct IterMut<'a, T> {
    /// The part of the chain not yet handed out. Its final value, once the
    /// walk's borrow ends, is what the stack holds from there on.
    pub next: Option<&'a mut Node<T>>,
}

/// The elements from `node` on, front first.
spec fn node_view<T>(node: Node<T>) -> Seq<T> {
    seq![node.elem].add(link_view(node.next))
}

impl<T> View for Node<T> {
    type V = Seq<T>;

    /// The elements from this node on, front first.
    closed spec fn view(&self) -> Seq<T> {
        node_view(*self)
    }
}

impl<T> View for IntoIter<T> {
    type V = Seq<T>;

    /// The elements not yet handed out.
    closed spec fn view(&self) -> Seq<T> {
        self.0@
    }
}

impl<'a, T> View for Iter<'a, T> {
    type V = Seq<T>;

    /// The elements not yet handed out.
    closed spec fn view(&self) -> Seq<T> {
        match self.next {
            None => Seq::empty(),
            Some(n) => node_view(*n),
        }
    }
}

impl<'a, T> View for IterMut<'a, T> {
    type V = Seq<T>;

    /// The current values of the elements not yet handed out.
    closed spec fn view(&self) -> Seq<T> {
        match self.next {
            None => Seq::empty(),
            Some(n) => node_view(*n),
        }
    }
}

impl<T> List<T> {
    /// Turns the stack into a walk that pops its elements one by one.
    pub fn into_iter(self) -> (r: IntoIter<T>)
        ensures
            r@ == self@,
    {
        IntoIter(self)
    }

    /// A walk over views of the elements, from the top down.
    pub fn iter(&self) -> (r: Iter<'_, T>)
        ensures
            r@ == self@,
    {
        Iter {
            next: match &self.head {
                None => None,
                Some(b) => Some(&**b),
            },
        }
    }

    /// A walk over mutable views of the elements, from the top down. The stack
    /// keeps its shape: once the walk's borrow ends, it holds, in order, the
    /// final values of the elements' views.
    pub fn iter_mut(&mut self) -> (r: IterMut<'_, T>)
        ensures
            r@ == old(self)@,
            final(self)@ == (match r.next {
                None => Seq::<T>::empty(),
                Some(n) => (*final(n))@,
            }),
    {
        IterMut {
            next: match &mut self.head {
                None => None,
                Some(b) => Some(&mut **b),
            },
        }
    }
}

impl<T> IntoIter<T> {
    /// Pops the next element, or gives `None` once the stack is drained.
    pub fn next(&mut self) -> (r: Option<T>)
        ensures
            r == front(old(self)@),
            final(self)@ == rest(old(self)@),
    {
        self.0.pop()
    }
}

impl<'a, T> Iter<'a, T> {
    /// The next element's view, or `None` at the end.
    pub fn next(&mut self) -> (r: Option<&'a T>)
        ensures
            old(self)@.len() == 0 ==> r is None,
            old(self)@.len() > 0 ==> r == Some(&old(self)@[0]),
            final(self)@ == rest(old(self)@),
    {
        match self.next {
            None => None,
            Some(node) => {
                self.next = match &node.next {
                    None => None,
                    Some(b) => Some(&**b),
                };
                Some(&node.elem)
            },
        }
    }
}

impl<'a, T> IterMut<'a, T> {
    /// The next element's mutable view, or `None` at the end. What the walk
    /// had left to hand out ends up as the final value of that view followed by
    /// what the walk has left afterwards.
    pub fn next(&mut self) -> (r: Option<&'a mut T>)
        ensures
            old(self)@.len() == 0 ==> r is None,
            old(self)@.len() > 0 ==> r is Some && *r.unwrap() == old(self)@[0],
            final(self)@ == rest(old(self)@),
            old(self)@.len() == 0 ==> (match old(self).next {
                None => Seq::<T>::empty(),
                Some(n) => (*final(n))@,
            }) == Seq::<T>::empty(),
            old(self)@.len() > 0 ==> (match old(self).next {
                None => Seq::<T>::empty(),
                Some(n) => (*final(n))@,
            }) == pushed_front((match final(self).next {
                None => Seq::<T>::empty(),
                Some(n) => (*final(n))@,
            }), *final(r.unwrap())),
    {
        match self.next.take() {
            None => None,
            Some(node) => {
                self.next = match &mut node.next {
                    None => None,
                    Some(b) => Some(&mut **b),
                };
                Some(&mut node.elem)
            },
        }
    }
}

impl<T> Drop for List<T> {
    /// Tears the chain down one node at a time, detaching each node's successor
    /// before the node itself is freed, so that no destructor recurses.
    fn drop(&mut self)
        ensures
            final(self)@ == Seq::<T>::empty(),
        opens_invariants none
        no_unwind
    {
        let mut current: Option<Box<Node<T>>> = None;
        std::mem::swap(&mut current, &mut self.head);
        loop
            invariant
                self.head is None,
            decreases link_view(current).len(),
        {
            match current {
                None => break,
                Some(n) => {
                    let mut node = *n;
                    current = None;
                    std::mem::swap(&mut current, &mut node.next);
                },
            }
        }
    }
}

} // verus!
