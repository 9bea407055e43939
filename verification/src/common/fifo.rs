//! A first-in first-out queue that holds at most its capacity.
use vstd::prelude::*;

use std::collections::VecDeque;

verus! {

/// The queue and success flag after pushing `item` onto `s` with room for `cap` items.
pub open spec fn fifo_push<T>(s: Seq<T>, cap: nat, item: T) -> (Seq<T>, bool) {
    if s.len() < cap {
        (s.push(item), true)
    } else {
        (s, false)
    }
}

/// The queue and item after popping the front of `s`.
pub open spec fn fifo_pop<T>(s: Seq<T>) -> (Seq<T>, Option<T>) {
    if s.len() > 0 {
        (s.drop_first(), Some(s[0]))
    } else {
        (s, None)
    }
}

/// Items leave in the order they came: popping after a successful push
/// gives the oldest item, which is the pushed one only if the queue was empty.
pub proof fn lemma_fifo_order<T>(s: Seq<T>, cap: nat, item: T)
    requires
        s.len() < cap,
    ensures
        fifo_push(s, cap, item).1,
        fifo_pop(fifo_push(s, cap, item).0).1 == Some(if s.len() == 0 {
            item
        } else {
            s[0]
        }),
        s.len() > 0 ==> fifo_pop(fifo_push(s, cap, item).0).0 == fifo_pop(s).0.push(item),
{
    if s.len() > 0 {
        assert(s.push(item).drop_first() =~= s.drop_first().push(item));
    }
}

/// A queue never holds more than its capacity.
pub proof fn lemma_fifo_bounded<T>(s: Seq<T>, cap: nat, item: T)
    requires
        s.len() <= cap,
    ensures
        fifo_push(s, cap, item).0.len() <= cap,
        fifo_pop(s).0.len() <= cap,
{
}

/// The queue after pushing each of `xs` in turn onto `s`.
pub open spec fn fifo_push_all<T>(s: Seq<T>, cap: nat, xs: Seq<T>) -> Seq<T>
    decreases xs.len(),
{
    if xs.len() == 0 {
        s
    } else {
        fifo_push_all(fifo_push(s, cap, xs[0]).0, cap, xs.drop_first())
    }
}

/// What `k` pops from `s` return, in turn.
pub open spec fn fifo_pop_all<T>(s: Seq<T>, k: nat) -> Seq<Option<T>>
    decreases k,
{
    if k == 0 {
        Seq::empty()
    } else {
        seq![fifo_pop(s).1] + fifo_pop_all(fifo_pop(s).0, (k - 1) as nat)
    }
}

/// Pushes with room all succeed and append in order.
pub proof fn lemma_fifo_push_all<T>(s: Seq<T>, cap: nat, xs: Seq<T>)
    requires
        s.len() + xs.len() <= cap,
    ensures
        fifo_push_all(s, cap, xs) == s + xs,
    decreases xs.len(),
{
    if xs.len() > 0 {
        lemma_fifo_push_all(s.push(xs[0]), cap, xs.drop_first());
        assert(s.push(xs[0]) + xs.drop_first() =~= s + xs);
    }
}

/// Popping a queue as many times as it holds items returns every item,
/// oldest first, and leaves it empty; one more pop returns nothing.
pub proof fn lemma_fifo_pop_all<T>(q: Seq<T>)
    ensures
        fifo_pop_all(q, q.len()) == q.map_values(|x: T| Some(x)),
        fifo_pop_all(q, q.len() + 1) == q.map_values(|x: T| Some(x)).push(None),
    decreases q.len(),
{
    if q.len() > 0 {
        lemma_fifo_pop_all(q.drop_first());
        assert(seq![Some(q[0])] + q.drop_first().map_values(|x: T| Some(x)) =~= q.map_values(
            |x: T| Some(x),
        ));
        assert(seq![Some(q[0])] + q.drop_first().map_values(|x: T| Some(x)).push(None)
            =~= q.map_values(|x: T| Some(x)).push(None));
    } else {
        assert(fifo_pop(q).1 == None::<T>);
        assert(fifo_pop_all(fifo_pop(q).0, 0) =~= Seq::<Option<T>>::empty());
        assert(fifo_pop_all(q, 1) =~= seq![None::<T>]);
        assert(q.map_values(|x: T| Some(x)) =~= Seq::<Option<T>>::empty());
    }
}

/// Generic FIFO.
#[derive(Debug)]
pub struct Fifo<T> {
    data: VecDeque<T>,
    capacity: usize,
}

impl<T> View for Fifo<T> {
    type V = Seq<T>;

    /// Items from oldest to newest.
    closed spec fn view(&self) -> Seq<T> {
        self.data@
    }
}

impl<T> Fifo<T> {
    /// Maximum number of items.
    pub closed spec fn cap(&self) -> nat {
        self.capacity as nat
    }

    pub fn new(capacity: usize) -> (r: Self)
        ensures
            r@ == Seq::<T>::empty(),
            r.cap() == capacity,
    {
        Fifo { data: VecDeque::with_capacity(capacity), capacity }
    }

    /// Push at the back if there is room; whether it was pushed.
    pub fn push(&mut self, item: T) -> (r: bool)
        ensures
            (final(self)@, r) == fifo_push(old(self)@, old(self).cap(), item),
            final(self).cap() == old(self).cap(),
    {
        if self.data.len() < self.capacity {
            self.data.push_back(item);
            true
        } else {
            false
        }
    }

    /// Take the item at the front.
    pub fn pop(&mut self) -> (r: Option<T>)
        ensures
            (final(self)@, r) == fifo_pop(old(self)@),
            final(self).cap() == old(self).cap(),
    {
        let r = self.data.pop_front();
        proof {
            if old(self)@.len() > 0 {
                assert(self@ =~= old(self)@.drop_first());
            }
        }
        r
    }

    /// The item at the front, if any.
    pub fn peek(&self) -> (r: Option<&T>)
        ensures
            match r {
                Some(x) => self@.len() > 0 && *x == self@[0],
                None => self@.len() == 0,
            },
    {
        if self.data.len() > 0 {
            Some(&self.data[0])
        } else {
            None
        }
    }

    pub fn len(&self) -> (r: usize)
        ensures
            r == self@.len(),
    {
        self.data.len()
    }

    pub fn is_empty(&self) -> (r: bool)
        ensures
            r == (self@.len() == 0),
    {
        self.data.len() == 0
    }

    pub fn is_full(&self) -> (r: bool)
        ensures
            r == (self@.len() >= self.cap()),
    {
        self.data.len() >= self.capacity
    }

    pub fn clear(&mut self)
        ensures
            final(self)@ == Seq::<T>::empty(),
            final(self).cap() == old(self).cap(),
    {
        self.data.clear();
    }
}

} // verus!
