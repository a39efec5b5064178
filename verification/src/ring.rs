//! A first-in first-out queue of bounded length that makes room for a new
//! item by dropping its oldest one: the storage of the ball's motion trail.

use vstd::prelude::*;
use std::collections::VecDeque;

verus! {

/// The items of a queue of capacity `cap` holding `s` after `item` is
/// pushed: the oldest item is dropped when the queue is full.
pub open spec fn pushed<T>(s: Seq<T>, cap: nat, item: T) -> Seq<T> {
    if s.len() >= cap {
        s.drop_first().push(item)
    } else {
        s.push(item)
    }
}

/// The items after pushing each of `items` in turn.
pub open spec fn pushed_all<T>(s: Seq<T>, cap: nat, items: Seq<T>) -> Seq<T>
    decreases items.len(),
{
    if items.len() == 0 {
        s
    } else {
        pushed(pushed_all(s, cap, items.drop_last()), cap, items.last())
    }
}

/// The last `n` items of `s` (all of them when it is shorter).
pub open spec fn last_n<T>(s: Seq<T>, n: nat) -> Seq<T> {
    if s.len() <= n {
        s
    } else {
        s.skip(s.len() - n)
    }
}

/// A queue always holds exactly the most recent items it was given: pushing
/// any items into a queue of capacity `cap` (at least 1) that holds at most
/// `cap` items leaves the last `cap` items of everything queued, in order.
pub proof fn lemma_keeps_most_recent<T>(s: Seq<T>, cap: nat, items: Seq<T>)
    requires
        cap >= 1,
        s.len() <= cap,
    ensures
        pushed_all(s, cap, items) == last_n(s + items, cap),
    decreases items.len(),
{
    if items.len() > 0 {
        let prefix = items.drop_last();
        lemma_keeps_most_recent(s, cap, prefix);
        let before = last_n(s + prefix, cap);
        assert(s + items == (s + prefix).push(items.last()));
        let all = s + items;
        if (s + prefix).len() < cap {
            assert(pushed(before, cap, items.last()) =~= last_n(all, cap));
        } else {
            assert(before.len() == cap);
            assert(pushed(before, cap, items.last()) =~= last_n(all, cap));
        }
    } else {
        assert(s + items =~= s);
    }
}

/// Queue of at most `capacity` items, oldest first.
#[derive(Debug)]
pub struct BoundedQueue<T> {
    items: VecDeque<T>,
    capacity: usize,
}

impl<T> View for BoundedQueue<T> {
    type V = Seq<T>;

    /// The queued items, oldest first.
    closed spec fn view(&self) -> Seq<T> {
        self.items@
    }
}

impl<T> BoundedQueue<T> {
    #[verifier::type_invariant]
    spec fn inv(self) -> bool {
        &&& self.capacity >= 1
        &&& self.items@.len() <= self.capacity
    }

    /// The most items the queue holds.
    pub closed spec fn cap(self) -> nat {
        self.capacity as nat
    }

    /// An empty queue for at most `capacity` items.
    pub fn new(capacity: usize) -> (q: Self)
        requires
            capacity >= 1,
        ensures
            q@ == Seq::<T>::empty(),
            q.cap() == capacity,
    {
        BoundedQueue { items: VecDeque::with_capacity(capacity), capacity }
    }

    /// The most items the queue holds.
    pub fn capacity(&self) -> (c: usize)
        ensures
            c == self.cap(),
            c >= 1,
    {
        proof {
            use_type_invariant(self);
        }
        self.capacity
    }

    /// Number of queued items; never more than the capacity, which is
    /// positive.
    pub fn len(&self) -> (n: usize)
        ensures
            n == self@.len(),
            n <= self.cap(),
            self.cap() >= 1,
    {
        proof {
            use_type_invariant(self);
        }
        self.items.len()
    }

    pub fn is_empty(&self) -> (b: bool)
        ensures
            b == (self@.len() == 0),
    {
        self.items.len() == 0
    }

    /// The item at position `i`, counting from the oldest.
    pub fn get(&self, i: usize) -> (item: &T)
        requires
            i < self@.len(),
        ensures
            *item == self@[i as int],
    {
        &self.items[i]
    }

    /// The oldest item, if any.
    pub fn front(&self) -> (item: Option<&T>)
        ensures
            item == (if self@.len() > 0 { Some(&self@[0]) } else { None }),
    {
        if self.items.len() > 0 {
            Some(&self.items[0])
        } else {
            None
        }
    }

    /// The newest item, if any.
    pub fn back(&self) -> (item: Option<&T>)
        ensures
            item == (if self@.len() > 0 { Some(&self@[self@.len() - 1]) } else { None }),
    {
        let n = self.items.len();
        if n > 0 {
            Some(&self.items[n - 1])
        } else {
            None
        }
    }

    /// Append `item` as the newest, first dropping the oldest item when the
    /// queue is full.
    pub fn push_evicting(&mut self, item: T)
        ensures
            final(self).cap() == old(self).cap(),
            final(self)@ == pushed(old(self)@, old(self).cap(), item),
    {
        proof {
            use_type_invariant(&*self);
        }
        let mut items = VecDeque::new();
        std::mem::swap(&mut items, &mut self.items);
        if items.len() >= self.capacity {
            let _ = items.pop_front();
        }
        items.push_back(item);
        self.items = items;
    }

    /// Replace the item at position `i`, counting from the oldest.
    pub fn set(&mut self, i: usize, item: T)
        requires
            i < old(self)@.len(),
        ensures
            final(self).cap() == old(self).cap(),
            final(self)@ == old(self)@.update(i as int, item),
    {
        proof {
            use_type_invariant(&*self);
        }
        let mut items = VecDeque::new();
        std::mem::swap(&mut items, &mut self.items);
        let _ = items.remove(i);
        items.insert(i, item);
        self.items = items;
        assert(self@ =~= old(self)@.update(i as int, item));
    }

    /// Remove and return the oldest item, if any.
    pub fn pop_front(&mut self) -> (item: Option<T>)
        ensures
            final(self).cap() == old(self).cap(),
            old(self)@.len() > 0 ==> item == Some(old(self)@[0]) && final(self)@
                == old(self)@.drop_first(),
            old(self)@.len() == 0 ==> item is None && final(self)@ == old(self)@,
    {
        proof {
            use_type_invariant(&*self);
        }
        let mut items = VecDeque::new();
        std::mem::swap(&mut items, &mut self.items);
        let item = items.pop_front();
        self.items = items;
        item
    }

    /// Remove every item, keeping the storage for reuse.
    pub fn clear(&mut self)
        ensures
            final(self).cap() == old(self).cap(),
            final(self)@ == Seq::<T>::empty(),
    {
        proof {
            use_type_invariant(&*self);
        }
        let mut items = VecDeque::new();
        std::mem::swap(&mut items, &mut self.items);
        items.clear();
        self.items = items;
    }
}

} // verus!
