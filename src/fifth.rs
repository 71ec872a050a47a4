//! A first-in, first-out queue with constant-time append. Its last node is
//! reached through an index that is re-derived on each append from the slot
//! just filled, rather than through a long-lived borrow of the node.
//!
//! A queue that holds its tail as a borrow of the last node has to borrow the
//! whole queue for as long as that tail lives, so each borrow of it allows a
//! single append, and the queue type carries that borrow's lifetime. Keeping
//! the nodes in an arena and the tail as a slot index removes that
//! restriction: `push` and `pop` borrow the queue only for the call, and any
//! sequence of them may follow one another.
use crate::arena::Chain;
use crate::model::{front, rest, pushed_back};
use vstd::prelude::*;

verus! {

/// A first-in, first-out queue.
pub struct List<T> {
    chain: Chain<T>,
}

impl<T> View for List<T> {
    type V = Seq<T>;

    /// The elements, front first.
    closed spec fn view(&self) -> Seq<T> {
        self.chain@
    }
}

impl<T> List<T> {
    /// The queue's layout invariant: every element is reachable from the
    /// front, and the tail names the last node exactly when there is one.
    pub closed spec fn wf(&self) -> bool {
        self.chain.wf()
    }

    /// An empty queue.
    pub fn new() -> (r: Self)
        ensures
            r.wf(),
            r@ == Seq::<T>::empty(),
    {
        List { chain: Chain::new() }
    }

    /// Appends `elem` at the back of the queue.
    pub fn push(&mut self, elem: T)
        requires
            old(self).wf(),
        ensures
            final(self).wf(),
            final(self)@ == pushed_back(old(self)@, elem),
    {
        self.chain.push_back(elem);
    }

    /// Removes and returns the front element, or `None` when the queue is empty.
    pub fn pop(&mut self) -> (r: Option<T>)
        requires
            old(self).wf(),
        ensures
            final(self).wf(),
            r == front(old(self)@),
            final(self)@ == rest(old(self)@),
    {
        self.chain.pop_front()
    }
}

} // verus!
