//! A fixed-capacity pool that keeps its items oldest first: once it is full,
//! a new item overwrites the oldest, so filling it never grows it past the
//! capacity it was made with. This is the storage of the particle system.

use vstd::prelude::*;

verus! {

/// The items of `s` whose flag in `keep` is set, in order.
pub open spec fn kept<T>(s: Seq<T>, keep: Seq<bool>) -> Seq<T>
    decreases s.len(),
{
    if s.len() == 0 {
        Seq::empty()
    } else if keep[s.len() - 1] {
        kept(s.drop_last(), keep).push(s.last())
    } else {
        kept(s.drop_last(), keep)
    }
}

/// The items, oldest first, of a pool of capacity `cap` holding `s` after
/// `item` is pushed: appended while there is room, otherwise the oldest item
/// gives way to it.
pub open spec fn pushed_oldest<T>(s: Seq<T>, cap: nat, item: T) -> Seq<T> {
    if s.len() < cap {
        s.push(item)
    } else {
        s.drop_first().push(item)
    }
}

/// Pushing into a pool that respects its capacity keeps it within that
/// capacity: it grows by one while there is room and stays full after. The
/// new item is the newest; every earlier item is kept, in order, except the
/// oldest when the pool was full.
pub proof fn lemma_push_respects_capacity<T>(s: Seq<T>, cap: nat, item: T)
    requires
        cap >= 1,
        s.len() <= cap,
    ensures
        pushed_oldest(s, cap, item).len() == if s.len() < cap { s.len() + 1 } else { cap },
        pushed_oldest(s, cap, item).len() <= cap,
        pushed_oldest(s, cap, item).last() == item,
        s.len() < cap ==> forall|i: int|
            0 <= i < s.len() ==> #[trigger] pushed_oldest(s, cap, item)[i] == s[i],
        s.len() == cap ==> forall|i: int|
            1 <= i < s.len() ==> #[trigger] pushed_oldest(s, cap, item)[i - 1] == s[i],
{
}

/// Pool of at most `capacity` items.
#[derive(Debug)]
pub struct Pool<T> {
    items: Vec<T>,
    capacity: usize,
}

impl<T> View for Pool<T> {
    type V = Seq<T>;

    /// The pooled items.
    closed spec fn view(&self) -> Seq<T> {
        self.items@
    }
}

proof fn lemma_kept_len<T>(s: Seq<T>, keep: Seq<bool>)
    ensures
        kept(s, keep).len() <= s.len(),
    decreases s.len(),
{
    if s.len() > 0 {
        lemma_kept_len(s.drop_last(), keep);
    }
}

impl<T> Pool<T> {
    #[verifier::type_invariant]
    spec fn inv(self) -> bool {
        &&& self.capacity >= 1
        &&& self.items@.len() <= self.capacity
    }

    /// The most items the pool holds.
    pub closed spec fn cap(self) -> nat {
        self.capacity as nat
    }

    /// An empty pool for `capacity` items (at least one).
    pub fn new(capacity: usize) -> (p: Self)
        ensures
            p@ == Seq::<T>::empty(),
            p.cap() == if capacity >= 1 { capacity as nat } else { 1 },
    {
        let capacity = if capacity >= 1 { capacity } else { 1 };
        Pool { items: Vec::with_capacity(capacity), capacity }
    }

    /// The most items the pool holds; always at least one.
    pub fn capacity(&self) -> (c: usize)
        ensures
            c == self.cap(),
            c >= 1,
    {
        proof {
            use_type_invariant(self);
        }
        self.capacity
    }

    /// Number of pooled items; never more than the capacity.
    pub fn len(&self) -> (n: usize)
        ensures
            n == self@.len(),
            n <= self.cap(),
    {
        proof {
            use_type_invariant(self);
        }
        self.items.len()
    }

    pub fn is_empty(&self) -> (b: bool)
        ensures
            b == (self@.len() == 0),
    {
        self.items.len() == 0
    }

    /// Whether the pool holds as many items as its capacity.
    pub fn is_full(&self) -> (b: bool)
        ensures
            b == (self@.len() >= self.cap()),
    {
        self.items.len() >= self.capacity
    }

    /// The pooled items.
    pub fn as_slice(&self) -> (s: &[T])
        ensures
            s@ == self@,
    {
        self.items.as_slice()
    }

    /// Put `item` in the pool as its newest item: appended while there is
    /// room, otherwise it overwrites the oldest item.
    pub fn push(&mut self, item: T)
        ensures
            final(self).cap() == old(self).cap(),
            final(self)@ == pushed_oldest(old(self)@, old(self).cap(), item),
    {
        proof {
            use_type_invariant(&*self);
        }
        let mut items = Vec::new();
        std::mem::swap(&mut items, &mut self.items);
        if items.len() >= self.capacity {
            let ghost before = items@;
            items.remove(0);
            assert(items@ =~= before.drop_first());
        }
        items.push(item);
        self.items = items;
    }

    /// Replace the item at `i`.
    pub fn set(&mut self, i: usize, item: T)
        requires
            i < old(self)@.len(),
        ensures
            final(self).cap() == old(self).cap(),
            final(self)@ == old(self)@.update(i as int, item),
    {
        proof {
            use_type_invariant(&*self);
        }
        let mut items = Vec::new();
        std::mem::swap(&mut items, &mut self.items);
        items.set(i, item);
        self.items = items;
    }

    /// Remove every item, keeping the storage for reuse.
    pub fn clear(&mut self)
        ensures
            final(self).cap() == old(self).cap(),
            final(self)@ == Seq::<T>::empty(),
    {
        proof {
            use_type_invariant(&*self);
        }
        let mut items = Vec::new();
        std::mem::swap(&mut items, &mut self.items);
        items.clear();
        self.items = items;
    }
}

impl<T: Copy> Pool<T> {
    /// Keep the items whose flag is set in `keep`, in their order, and drop
    /// the others; the items are compacted in place.
    pub fn retain_flagged(&mut self, keep: &[bool])
        requires
            keep@.len() == old(self)@.len(),
        ensures
            final(self).cap() == old(self).cap(),
            final(self)@ == kept(old(self)@, keep@),
    {
        proof {
            use_type_invariant(&*self);
        }
        let ghost original = self.items@;
        let mut items = Vec::new();
        std::mem::swap(&mut items, &mut self.items);
        let n = items.len();
        let mut w: usize = 0;
        let mut i: usize = 0;
        while i < n
            invariant
                n == original.len(),
                keep@.len() == n,
                items@.len() == n,
                w <= i <= n,
                items@.take(w as int) == kept(original.take(i as int), keep@),
                items@.skip(i as int) == original.skip(i as int),
            decreases n - i,
        {
            let x = items[i];
            proof {
                assert(x == original[i as int]) by {
                    assert(items@.skip(i as int)[0] == items@[i as int]);
                    assert(original.skip(i as int)[0] == original[i as int]);
                }
                assert(original.take(i + 1).drop_last() =~= original.take(i as int));
                assert(original.take(i + 1).last() == x);
            }
            if keep[i] {
                let ghost before = items@;
                items.set(w, x);
                proof {
                    assert(items@.take(w + 1) =~= before.take(w as int).push(x));
                    assert(items@.skip(i + 1) =~= before.skip(i + 1));
                    assert(before.skip(i + 1) =~= before.skip(i as int).drop_first());
                    assert(original.skip(i + 1) =~= original.skip(i as int).drop_first());
                }
                w = w + 1;
            } else {
                proof {
                    assert(items@.skip(i + 1) =~= items@.skip(i as int).drop_first());
                    assert(original.skip(i + 1) =~= original.skip(i as int).drop_first());
                }
            }
            i = i + 1;
        }
        items.truncate(w);
        proof {
            assert(original.take(n as int) =~= original);
            lemma_kept_len(original, keep@);
        }
        self.items = items;
    }
}

} // verus!
