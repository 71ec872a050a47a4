//! The sequence model that every list's contract is written in, and the laws
//! that follow for sequences of operations.
use vstd::prelude::*;

verus! {

/// The first element of `s`, or `None` when `s` is empty.
pub open spec fn front<T>(s: Seq<T>) -> Option<T> {
    if s.len() == 0 {
        None
    } else {
        Some(s[0])
    }
}

/// `s` without its first element; an empty `s` stays empty.
pub open spec fn rest<T>(s: Seq<T>) -> Seq<T> {
    if s.len() == 0 {
        s
    } else {
        s.drop_first()
    }
}

/// `s` with `e` put in front.
pub open spec fn pushed_front<T>(s: Seq<T>, e: T) -> Seq<T> {
    seq![e].add(s)
}

/// `s` with `e` put at the back.
pub open spec fn pushed_back<T>(s: Seq<T>, e: T) -> Seq<T> {
    s.push(e)
}

/// `s` after each of `es`, in order, is put in front.
pub open spec fn stacked<T>(s: Seq<T>, es: Seq<T>) -> Seq<T>
    decreases es.len(),
{
    if es.len() == 0 {
        s
    } else {
        stacked(pushed_front(s, es[0]), es.drop_first())
    }
}

/// `s` after each of `es`, in order, is put at the back.
pub open spec fn queued<T>(s: Seq<T>, es: Seq<T>) -> Seq<T>
    decreases es.len(),
{
    if es.len() == 0 {
        s
    } else {
        queued(pushed_back(s, es[0]), es.drop_first())
    }
}

/// What is left of `s` after `n` removals from the front.
pub open spec fn rest_n<T>(s: Seq<T>, n: nat) -> Seq<T>
    decreases n,
{
    if n == 0 {
        s
    } else {
        rest_n(rest(s), (n - 1) as nat)
    }
}

/// The elements that removals from the front hand out, in order, until `s`
/// is empty.
pub open spec fn drained<T>(s: Seq<T>) -> Seq<T>
    decreases s.len(),
{
    if s.len() == 0 {
        Seq::empty()
    } else {
        seq![s[0]].add(drained(s.drop_first()))
    }
}

/// Removals from the front hand out the elements in their order.
pub proof fn lemma_drained_is_identity<T>(s: Seq<T>)
    ensures
        drained(s) == s,
    decreases s.len(),
{
    if s.len() > 0 {
        lemma_drained_is_identity(s.drop_first());
        assert(seq![s[0]].add(s.drop_first()) =~= s);
    }
}

/// Putting each of `es` in front of `s` leaves `es` reversed ahead of `s`.
pub proof fn lemma_stacked<T>(s: Seq<T>, es: Seq<T>)
    ensures
        stacked(s, es) == es.reverse().add(s),
    decreases es.len(),
{
    if es.len() > 0 {
        lemma_stacked(pushed_front(s, es[0]), es.drop_first());
        assert(es.drop_first().reverse().add(pushed_front(s, es[0])) =~= es.reverse().add(s));
    }
}

/// Putting each of `es` at the back of `s` leaves `es` after `s`.
pub proof fn lemma_queued<T>(s: Seq<T>, es: Seq<T>)
    ensures
        queued(s, es) == s.add(es),
    decreases es.len(),
{
    if es.len() > 0 {
        lemma_queued(pushed_back(s, es[0]), es.drop_first());
        assert(pushed_back(s, es[0]).add(es.drop_first()) =~= s.add(es));
    }
}

/// `n` removals from the front leave `s` without its first `n` elements.
pub proof fn lemma_rest_n<T>(s: Seq<T>, n: nat)
    requires
        n <= s.len(),
    ensures
        rest_n(s, n) == s.skip(n as int),
    decreases n,
{
    if n > 0 {
        lemma_rest_n(rest(s), (n - 1) as nat);
        assert(rest(s).skip(n - 1) =~= s.skip(n as int));
    }
}

/// Last in, first out: after `e1..en` are pushed onto an empty stack, popping
/// until it is empty, or walking it from the top, hands out `en..e1`; popping an empty stack hands out
/// nothing and leaves it empty, however often it is done.
pub proof fn law_stack_lifo<T>(es: Seq<T>)
    ensures
        drained(stacked(Seq::<T>::empty(), es)) == es.reverse(),
        front(Seq::<T>::empty()) is None,
        rest(Seq::<T>::empty()) == Seq::<T>::empty(),
{
    lemma_stacked(Seq::<T>::empty(), es);
    lemma_drained_is_identity(stacked(Seq::<T>::empty(), es));
    assert(es.reverse().add(Seq::<T>::empty()) =~= es.reverse());
}

/// First in, first out: after `e1..en` are pushed onto a queue holding `s`,
/// popping until it is empty hands out `s` and then `e1..en`.
pub proof fn law_queue_fifo<T>(s: Seq<T>, es: Seq<T>)
    ensures
        drained(queued(s, es)) == s.add(es),
{
    lemma_queued(s, es);
    lemma_drained_is_identity(queued(s, es));
}

/// A queue emptied by as many pops as it held elements, and then pushed
/// `e1..en`, hands `e1..en` out again: the first element pushed after the
/// queue ran dry is at its front.
pub proof fn law_queue_refill<T>(s: Seq<T>, es: Seq<T>)
    ensures
        rest_n(s, s.len()).len() == 0,
        drained(queued(rest_n(s, s.len()), es)) == es,
        es.len() > 0 ==> front(queued(rest_n(s, s.len()), es)) == Some(es[0]),
{
    lemma_rest_n(s, s.len());
    assert(rest_n(s, s.len()) =~= Seq::<T>::empty());
    law_queue_fifo(Seq::<T>::empty(), es);
    lemma_queued(Seq::<T>::empty(), es);
    assert(Seq::<T>::empty().add(es) =~= es);
}

/// A value written through a mutable view of the front element is what a later
/// look at the front sees, and the elements behind it stay as they were.
pub proof fn law_write_at_front<T>(s: Seq<T>, v: T)
    requires
        s.len() > 0,
    ensures
        front(s.update(0, v)) == Some(v),
        rest(s.update(0, v)) == rest(s),
{
    assert(rest(s.update(0, v)) =~= rest(s));
}

/// Branching: two lists made by putting `x` and `y` in front of one list `a`
/// each start with their own element and go on with all of `a`, which itself
/// is unchanged; the rest of an empty list is empty.
pub proof fn law_prepend_branches<T>(a: Seq<T>, x: T, y: T)
    ensures
        front(pushed_front(a, x)) == Some(x),
        front(pushed_front(a, y)) == Some(y),
        rest(pushed_front(a, x)) == a,
        rest(pushed_front(a, y)) == a,
        rest(Seq::<T>::empty()) == Seq::<T>::empty(),
{
    assert(rest(pushed_front(a, x)) =~= a);
    assert(rest(pushed_front(a, y)) =~= a);
}

} // verus!
