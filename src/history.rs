use vstd::prelude::*;

verus! {

/// The last `cap` items of `s`, in their order (all of `s` when it is no longer).
pub open spec fn keep_last<T>(s: Seq<T>, cap: nat) -> Seq<T> {
    if s.len() > cap {
        s.subrange(s.len() - cap, s.len() as int)
    } else {
        s
    }
}

/// What a history of capacity `cap` holds after `items` are pushed, one by one, onto `start`.
pub open spec fn push_all<T>(start: Seq<T>, cap: nat, items: Seq<T>) -> Seq<T>
    decreases items.len(),
{
    if items.len() == 0 {
        start
    } else {
        push_all(keep_last(start.push(items[0]), cap), cap, items.drop_first())
    }
}

/// A fixed-capacity ring of the most recent items, oldest first.
///
/// Pushing onto a full ring overwrites its oldest item.
pub struct BoundedHistory<T> {
    buf: Vec<T>,
    /// Physical index of the oldest item once the ring is full.
    head: usize,
    capacity: usize,
}

impl<T> View for BoundedHistory<T> {
    type V = Seq<T>;

    /// The items, oldest first.
    closed spec fn view(&self) -> Seq<T> {
        self.buf@.subrange(self.head as int, self.buf@.len() as int) + self.buf@.subrange(
            0,
            self.head as int,
        )
    }
}

impl<T> BoundedHistory<T> {
    pub closed spec fn wf(&self) -> bool {
        &&& self.buf@.len() <= self.capacity
        &&& self.buf@.len() < self.capacity ==> self.head == 0
        &&& (self.head == 0 || self.head < self.buf@.len())
    }

    pub closed spec fn cap(&self) -> nat {
        self.capacity as nat
    }

    /// An empty history that keeps at most `capacity` items.
    pub fn new(capacity: usize) -> (r: Self)
        ensures
            r.wf(),
            r@ == Seq::<T>::empty(),
            r.cap() == capacity,
    {
        let r = BoundedHistory { buf: Vec::new(), head: 0, capacity };
        assert(r@ =~= Seq::<T>::empty());
        r
    }

    /// Empties the history and sets a new capacity.
    pub fn reset(&mut self, capacity: usize)
        ensures
            final(self).wf(),
            final(self)@ == Seq::<T>::empty(),
            final(self).cap() == capacity,
    {
        self.buf = Vec::new();
        self.head = 0;
        self.capacity = capacity;
        assert(self@ =~= Seq::<T>::empty());
    }

    pub fn capacity(&self) -> (r: usize)
        ensures
            r == self.cap(),
    {
        self.capacity
    }

    pub fn len(&self) -> (r: usize)
        requires
            self.wf(),
        ensures
            r == self@.len(),
    {
        self.buf.len()
    }

    pub fn is_empty(&self) -> (r: bool)
        requires
            self.wf(),
        ensures
            r == (self@.len() == 0),
    {
        self.buf.len() == 0
    }

    /// The item at position `i`, counting from the oldest.
    pub fn get(&self, i: usize) -> (r: &T)
        requires
            self.wf(),
            i < self@.len(),
        ensures
            *r == self@[i as int],
    {
        let len = self.buf.len();
        let k: usize = if i < len - self.head {
            self.head + i
        } else {
            i - (len - self.head)
        };
        &self.buf[k]
    }

    /// Appends `item` as the newest item, dropping the oldest one when the history would
    /// exceed its capacity.
    pub fn push(&mut self, item: T)
        requires
            old(self).wf(),
        ensures
            final(self).wf(),
            final(self).cap() == old(self).cap(),
            final(self)@ == keep_last(old(self)@.push(item), old(self).cap()),
    {
        let ghost before = self@;
        let len = self.buf.len();
        if self.capacity == 0 {
            assert(keep_last(before.push(item), 0) =~= Seq::<T>::empty());
        } else if len < self.capacity {
            self.buf.push(item);
            assert(self@ =~= before.push(item));
        } else {
            let ghost old_buf = self.buf@;
            let h = self.head;
            self.buf.set(h, item);
            self.head = if h + 1 == self.capacity {
                0
            } else {
                h + 1
            };
            assert(self@ =~= keep_last(before.push(item), self.capacity as nat)) by {
                let n = len as int;
                assert(before =~= old_buf.subrange(h as int, n) + old_buf.subrange(0, h as int));
                assert(keep_last(before.push(item), self.capacity as nat) =~= before.push(
                    item,
                ).subrange(1, n + 1));
            }
        }
    }
}

/// The history never holds more items than its capacity, whatever sequence of items is
/// pushed onto it.
pub proof fn lemma_push_all_bounded<T>(start: Seq<T>, cap: nat, items: Seq<T>)
    requires
        start.len() <= cap,
    ensures
        push_all(start, cap, items).len() <= cap,
    decreases items.len(),
{
    if items.len() > 0 {
        lemma_push_all_bounded(keep_last(start.push(items[0]), cap), cap, items.drop_first());
    }
}

} // verus!
