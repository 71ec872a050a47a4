//! A persistent list: nodes are immutable and shared through reference counts,
//! so lists built from one another share their common suffix.
use std::sync::Arc;
use crate::model::{rest, pushed_front};
use vstd::prelude::*;

verus! {

/// A shared node of a persistent list.
pub struct Node<T> {
    elem: T,
    next: Option<Arc<Node<T>>>,
}

/// The elements reachable from `link`, front first.
spec fn link_view<T>(link: Option<Arc<Node<T>>>) -> Seq<T>
    decreases link,
{
    match link {
        None => Seq::empty(),
        Some(n) => seq![n.elem].add(link_view(n.next)),
    }
}

/// Relies on Arc::clone: the new handle refers to the same value.
#[verifier::external_body]
fn share<U>(a: &Arc<U>) -> (r: Arc<U>)
    ensures
        r == *a,
{
    Arc::clone(a)
}

/// Relies on Arc::try_unwrap: it hands the value back when `a` was its only
/// handle, and otherwise gives `a` back as it was.
#[verifier::external_body]
fn try_take<U>(a: Arc<U>) -> (r: Result<U, Arc<U>>)
    ensures
        match r {
            Ok(v) => v == *a,
            Err(b) => b == a,
        },
    opens_invariants none
    no_unwind
{
    Arc::try_unwrap(a)
}

/// A second handle on the chain that `link` refers to.
fn share_link<T>(link: &Option<Arc<Node<T>>>) -> (r: Option<Arc<Node<T>>>)
    ensures
        r == *link,
{
    match link {
        None => None,
        Some(n) => Some(share(n)),
    }
}

/// An immutable list whose handles may share their tails.
pub struct List<T> {
    head: Option<Arc<Node<T>>>,
}

/// A walk over views of a list's elements, front to back.
pub struct Iter<'a, T> {
    next: Option<&'a Node<T>>,
}

impl<T> View for List<T> {
    type V = Seq<T>;

    /// The elements, front first.
    closed spec fn view(&self) -> Seq<T> {
        link_view(self.head)
    }
}

impl<'a, T> View for Iter<'a, T> {
    type V = Seq<T>;

    /// The elements not yet handed out.
    closed spec fn view(&self) -> Seq<T> {
        match self.next {
            None => Seq::empty(),
            Some(n) => seq![n.elem].add(link_view(n.next)),
        }
    }
}

impl<T> List<T> {
    /// An empty list.
    pub fn new() -> (r: Self)
        ensures
            r@ == Seq::<T>::empty(),
    {
        List { head: None }
    }

    /// A walk over views of the elements, front to back.
    pub fn iter(&self) -> (r: Iter<'_, T>)
        ensures
            r@ == self@,
    {
        Iter {
            next: match &self.head {
                None => None,
                Some(n) => Some(&**n),
            },
        }
    }

    /// A new list with `elem` in front of this one's elements, which it shares;
    /// this list stays as it was.
    pub fn prepend(&self, elem: T) -> (r: List<T>)
        ensures
            r@ == pushed_front(self@, elem),
    {
        List { head: Some(Arc::new(Node { elem: elem, next: share_link(&self.head) })) }
    }

    /// The list without its first element, sharing the rest; empty when this
    /// list has at most one element.
    pub fn tail(&self) -> (r: List<T>)
        ensures
            r@ == rest(self@),
    {
        List {
            head: match &self.head {
                None => None,
                Some(n) => share_link(&n.next),
            },
        }
    }

    /// A view of the first element, or `None` when the list is empty.
    pub fn head(&self) -> (r: Option<&T>)
        ensures
            self@.len() == 0 ==> r is None,
            self@.len() > 0 ==> r == Some(&self@[0]),
    {
        match &self.head {
            None => None,
            Some(n) => Some(&n.elem),
        }
    }
}

impl<'a, T> Iter<'a, T> {
    /// The next element's view, or `None` at the end.
    pub fn next(&mut self) -> (r: Option<&'a T>)
        ensures
            old(self)@.len() == 0 ==> r is None,
            old(self)@.len() > 0 ==> r == Some(&old(self)@[0]),
            final(self)@ == rest(old(self)@),
    {
        match self.next {
            None => None,
            Some(node) => {
                self.next = match &node.next {
                    None => None,
                    Some(n) => Some(&**n),
                };
                Some(&node.elem)
            },
        }
    }
}

impl<T> Drop for List<T> {
    /// Frees the nodes that only this list refers to, one at a time, and stops
    /// at the first node that another list still holds.
    fn drop(&mut self)
        ensures
            final(self)@ == Seq::<T>::empty(),
        opens_invariants none
        no_unwind
    {
        let mut current: Option<Arc<Node<T>>> = None;
        std::mem::swap(&mut current, &mut self.head);
        loop
            invariant
                self.head is None,
            decreases link_view(current).len(),
        {
            match current {
                None => break,
                Some(n) => {
                    match try_take(n) {
                        Ok(node) => {
                            let mut node = node;
                            current = None;
                            std::mem::swap(&mut current, &mut node.next);
                        },
                        Err(_) => break,
                    }
                },
            }
        }
    }
}

} // verus!
