//! A first-in, first-out chain of nodes kept in an arena and linked by slot
//! index. The tail is a non-owning index into the arena: it names the last
//! node of the chain while there is one, and is cleared the moment the chain
//! becomes empty, so it never names a vacated slot.
use crate::model::{front, rest, pushed_back};
use vstd::prelude::*;

verus! {

/// Nodes in slots of an arena, linked front to back by slot index.
pub struct Chain<T> {
    /// The element held in each slot; `None` for a vacant slot.
    elems: Vec<Option<T>>,
    /// The slot of each node's successor.
    links: Vec<Option<usize>>,
    /// Vacant slots ready for reuse.
    vacant: Vec<usize>,
    /// The slot of the first node.
    head: Option<usize>,
    /// The slot of the last node, observed but never owned.
    tail: Option<usize>,
    /// The slots of the chain's nodes, front to back.
    order: Ghost<Seq<usize>>,
}

impl<T> Chain<T> {
    /// The chain's layout invariant.
    pub closed spec fn wf(&self) -> bool {
        let order = self.order@;
        &&& self.elems@.len() == self.links@.len()
        &&& order.no_duplicates()
        &&& forall|i: int| 0 <= i < order.len() ==> order[i] < self.elems@.len()
        &&& forall|i: int| 0 <= i < order.len() ==> (#[trigger] self.elems@[order[i] as int]) is Some
        &&& forall|i: int|
            0 <= i < order.len() - 1 ==> #[trigger] self.links@[order[i] as int] == Some(order[i + 1])
        &&& order.len() > 0 ==> self.links@[order.last() as int] is None
        &&& self.vacant@.no_duplicates()
        &&& forall|j: int|
            0 <= j < self.vacant@.len() ==> #[trigger] self.vacant@[j] < self.elems@.len()
                && self.elems@[self.vacant@[j] as int] is None
        &&& self.head == (if order.len() == 0 {
            None
        } else {
            Some(order[0])
        })
        &&& self.tail == (if order.len() == 0 {
            None
        } else {
            Some(order.last())
        })
    }
}

impl<T> View for Chain<T> {
    type V = Seq<T>;

    /// The elements, front first.
    closed spec fn view(&self) -> Seq<T> {
        self.order@.map_values(|s: usize| self.elems@[s as int]->Some_0)
    }
}

impl<T> Chain<T> {
    /// An empty chain over an empty arena.
    pub fn new() -> (r: Self)
        ensures
            r.wf(),
            r@ == Seq::<T>::empty(),
    {
        let r = Chain {
            elems: Vec::new(),
            links: Vec::new(),
            vacant: Vec::new(),
            head: None,
            tail: None,
            order: Ghost(Seq::empty()),
        };
        assert(r@ =~= Seq::<T>::empty());
        r
    }

    /// Appends `elem` after the last node.
    pub fn push_back(&mut self, elem: T)
        requires
            old(self).wf(),
        ensures
            final(self).wf(),
            final(self)@ == pushed_back(old(self)@, elem),
    {
        let slot: usize;
        if self.vacant.len() > 0 {
            slot = self.vacant.pop().unwrap();
            assert(self.elems@[slot as int] is None);
            self.elems.set(slot, Some(elem));
            self.links.set(slot, None);
        } else {
            slot = self.elems.len();
            self.elems.push(Some(elem));
            self.links.push(None);
        }
        let ghost order = self.order@;
        assert(!order.contains(slot)) by {
            if order.contains(slot) {
                let i = choose|i: int| 0 <= i < order.len() && order[i] == slot;
                assert(old(self).elems@[order[i] as int] is Some);
            }
        }
        match self.tail {
            Some(t) => {
                self.links.set(t, Some(slot));
            },
            None => {
                self.head = Some(slot);
            },
        }
        self.tail = Some(slot);
        self.order = Ghost(order.push(slot));
        assert(self@ =~= old(self)@.push(elem));
    }

    /// Detaches the first node and returns its element, or `None` when the
    /// chain is empty. The vacated slot is kept for reuse, and the tail index is
    /// cleared once no node is left.
    pub fn pop_front(&mut self) -> (r: Option<T>)
        requires
            old(self).wf(),
        ensures
            final(self).wf(),
            r == front(old(self)@),
            final(self)@ == rest(old(self)@),
    {
        match self.head {
            None => None,
            Some(h) => {
                let ghost order = self.order@;
                assert(self.elems@[order[0] as int] is Some);
                let elem = self.elems[h].take();
                self.head = self.links[h];
                if self.head.is_none() {
                    self.tail = None;
                }
                assert(!self.vacant@.contains(h)) by {
                    if self.vacant@.contains(h) {
                        let j = choose|j: int| 0 <= j < self.vacant@.len() && self.vacant@[j] == h;
                        assert(old(self).elems@[self.vacant@[j] as int] is None);
                    }
                }
                self.vacant.push(h);
                self.order = Ghost(order.drop_first());
                assert(self.order@.len() > 0 ==> self.head == Some(order[1]));
                assert(forall|i: int| 0 <= i < self.order@.len() ==> self.order@[i] != h);
                assert(self@ =~= old(self)@.drop_first());
                elem
            },
        }
    }
}

} // verus!
