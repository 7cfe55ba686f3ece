//! A growable ring buffer for queueing bytes between the core and a host.
//! One slot is always kept free, and a push that would fill the buffer
//! doubles its capacity first, keeping the queued elements in order.
use vstd::prelude::*;

verus! {

pub struct RingBuffer<T: Clone> {
    pub data: Vec<Option<T>>,
    pub head: usize,
    pub tail: usize,
}

/// How many elements a ring with this head, tail and capacity holds.
pub open spec fn rb_len_spec<T: Clone>(rb: RingBuffer<T>) -> int {
    if rb.tail >= rb.head {
        rb.tail - rb.head
    } else {
        rb.data@.len() + rb.tail - rb.head
    }
}

/// The backing-store slot of the queue's i-th element.
pub open spec fn rb_index<T: Clone>(rb: RingBuffer<T>, i: int) -> int {
    if rb.head + i < rb.data@.len() {
        rb.head + i
    } else {
        rb.head + i - rb.data@.len()
    }
}

/// The buffer's well-formedness: indices in bounds, a bounded capacity with
/// one slot free, and every queued slot occupied.
pub open spec fn rb_wf<T: Clone>(rb: RingBuffer<T>) -> bool {
    &&& 1 <= rb.data@.len() <= 0x1000000
    &&& rb.head < rb.data@.len()
    &&& rb.tail < rb.data@.len()
    &&& forall|i: int| 0 <= i < rb_len_spec(rb) ==> rb.data@[rb_index(rb, i)] is Some
}

/// The queued elements, oldest first.
pub open spec fn rb_view<T: Clone>(rb: RingBuffer<T>) -> Seq<T> {
    Seq::new(rb_len_spec(rb) as nat, |i: int| rb.data@[rb_index(rb, i)]->0)
}

impl<T: Clone> RingBuffer<T> {
    /// An empty buffer; `capacity` minus one elements fit before it grows.
    pub fn new(capacity: usize) -> (r: RingBuffer<T>)
        requires
            1 <= capacity <= 0x1000000,
        ensures
            rb_wf(r),
            rb_view(r) == Seq::<T>::empty(),
    {
        let mut data: Vec<Option<T>> = Vec::new();
        let mut i: usize = 0;
        while i < capacity
            invariant
                i <= capacity,
                data@.len() == i,
            decreases capacity - i,
        {
            data.push(None);
            i = i + 1;
        }
        let r = RingBuffer { data, head: 0, tail: 0 };
        proof {
            assert(rb_view(r) =~= Seq::<T>::empty());
        }
        r
    }

    /// How many elements are queued.
    pub fn len(&self) -> (r: usize)
        requires
            rb_wf(*self),
        ensures
            r == rb_view(*self).len(),
    {
        if self.tail >= self.head {
            self.tail - self.head
        } else {
            self.data.len() + self.tail - self.head
        }
    }

    /// Double the capacity, keeping the queued elements in order from slot
    /// zero.
    #[verifier::loop_isolation(false)]
    fn grow(&mut self)
        requires
            rb_wf(*old(self)),
            old(self).data@.len() <= 0x800000,
        ensures
            rb_wf(*final(self)),
            rb_view(*final(self)) == rb_view(*old(self)),
            final(self).data@.len() == 2 * old(self).data@.len(),
            rb_view(*final(self)).len() < final(self).data@.len() - 1,
    {
        let n = self.len();
        let cap = self.data.len();
        let ghost before = *self;
        let mut data: Vec<Option<T>> = Vec::new();
        let mut i: usize = 0;
        while i < n
            invariant
                rb_wf(before),
                n == rb_view(before).len(),
                i <= n,
                n < cap,
                cap == before.data@.len(),
                self.head == before.head,
                self.tail == before.tail,
                self.data@.len() == cap,
                data@.len() == i,
                forall|j: int| 0 <= j < i ==> (#[trigger] data@[j]) is Some,
                forall|j: int| 0 <= j < i ==> (#[trigger] data@[j])->0 == rb_view(before)[j],
                forall|j: int|
                    i <= j < n ==> self.data@[rb_index(before, j)] == before.data@[rb_index(
                        before,
                        j,
                    )],
            decreases n - i,
        {
            let idx = if self.head + i < cap {
                self.head + i
            } else {
                self.head + i - cap
            };
            proof {
                assert(idx == rb_index(before, i as int));
                assert(before.data@[rb_index(before, i as int)] is Some);
            }
            let ghost taken = self.data@[idx as int];
            let element = self.data[idx].take();
            proof {
                assert(taken == before.data@[rb_index(before, i as int)]);
                assert forall|j: int|
                    i + 1 <= j < n implies self.data@[rb_index(before, j)] == before.data@[
                    rb_index(before, j)] by {
                    assert(rb_index(before, j) != rb_index(before, i as int));
                }
            }
            let ghost pre_data = data@;
            data.push(element);
            proof {
                assert(data@ == pre_data.push(taken));
                assert forall|j: int| 0 <= j < i implies data@[j] == pre_data[j] by {}
                assert(data@[i as int] == taken);
                assert(rb_view(before)[i as int] == before.data@[rb_index(before, i as int)]->0);
                assert forall|j: int| 0 <= j < i + 1 implies data@[j] is Some && data@[j]->0
                    == rb_view(before)[j] by {
                    if j == i {
                        assert(data@[j] == taken);
                        assert(taken is Some);
                        assert(data@[j]->0 == rb_view(before)[j]);
                    } else {
                        assert(data@[j] is Some);
                        assert(data@[j]->0 == rb_view(before)[j]);
                    }
                }
            }
            i = i + 1;
        }
        while i < 2 * cap
            invariant
                n <= i <= 2 * cap,
                cap <= 0x800000,
                n < cap,
                data@.len() == i,
                forall|j: int| 0 <= j < n ==> (#[trigger] data@[j]) is Some,
                forall|j: int| 0 <= j < n ==> (#[trigger] data@[j])->0 == rb_view(before)[j],
            decreases 2 * cap - i,
        {
            data.push(None);
            i = i + 1;
        }
        let ghost built = data@;
        self.data = data;
        self.head = 0;
        self.tail = n;
        proof {
            assert(self.data@ == built);
            assert forall|k: int| 0 <= k < rb_len_spec(*self) implies self.data@[rb_index(
                *self,
                k,
            )] is Some by {
                assert(rb_index(*self, k) == k);
                assert(built[k] is Some);
            }
            assert forall|k: int| 0 <= k < rb_view(*self).len() implies rb_view(*self)[k]
                == rb_view(before)[k] by {
                assert(rb_index(*self, k) == k);
                assert(built[k]->0 == rb_view(before)[k]);
            }
            assert(rb_view(*self) =~= rb_view(before));
        }
    }

    /// Drop every element.
    pub fn clear(&mut self)
        requires
            rb_wf(*old(self)),
        ensures
            rb_wf(*final(self)),
            rb_view(*final(self)) == Seq::<T>::empty(),
    {
        self.head = 0;
        self.tail = 0;
        proof {
            assert(rb_view(*self) =~= Seq::<T>::empty());
        }
    }

    /// Append an element, growing first when only one slot is left.
    pub fn push(&mut self, item: T)
        requires
            rb_wf(*old(self)),
            old(self).data@.len() <= 0x800000,
        ensures
            rb_wf(*final(self)),
            rb_view(*final(self)) == rb_view(*old(self)).push(item),
    {
        if self.len() == self.data.len() - 1 {
            self.grow();
        }
        let cap = self.data.len();
        let ghost before = *self;
        self.data[self.tail] = Some(item);
        let new_tail = if self.tail + 1 < cap {
            self.tail + 1
        } else {
            0
        };
        self.tail = new_tail;
        proof {
            assert forall|i: int| 0 <= i < rb_len_spec(*self) implies self.data@[rb_index(
                *self,
                i,
            )] is Some by {
                if i < rb_len_spec(*self) - 1 {
                    assert(before.data@[rb_index(before, i)] is Some);
                }
            }
            assert(rb_view(*self) =~= rb_view(before).push(item));
        }
    }

    /// Remove and return the oldest element; `None` leaves the buffer as it
    /// was.
    pub fn pop(&mut self) -> (r: Option<T>)
        requires
            rb_wf(*old(self)),
        ensures
            rb_wf(*final(self)),
            rb_view(*old(self)).len() == 0 ==> r is None && *final(self) == *old(self),
            rb_view(*old(self)).len() > 0 ==> r == Some(rb_view(*old(self))[0]) && rb_view(
                *final(self),
            ) == rb_view(*old(self)).drop_first(),
    {
        if self.tail == self.head {
            return None;
        }
        let ghost before = *self;
        let item = self.data[self.head].take();
        let cap = self.data.len();
        let new_head = if self.head + 1 < cap {
            self.head + 1
        } else {
            0
        };
        self.head = new_head;
        proof {
            assert(before.data@[rb_index(before, 0)] is Some);
            assert forall|i: int| 0 <= i < rb_len_spec(*self) implies self.data@[rb_index(
                *self,
                i,
            )] is Some by {
                assert(before.data@[rb_index(before, i + 1)] is Some);
                assert(rb_index(*self, i) == rb_index(before, i + 1));
            }
            assert(rb_view(*self) =~= rb_view(before).drop_first());
        }
        item
    }
}

} // verus!
