//! A bounded circular queue that hands items from an interrupt handler
//! (the producer) to ordinary code (the consumer) without allocating or
//! blocking once it is built.
use vstd::prelude::*;

verus! {

/// What a queue holds: its items from front to rear, and its capacity.
pub struct QueueModel<T> {
    pub items: Seq<T>,
    pub capacity: nat,
}

impl<T> QueueModel<T> {
    /// An empty queue of the given capacity.
    pub open spec fn empty(capacity: nat) -> QueueModel<T> {
        QueueModel { items: Seq::empty(), capacity }
    }

    /// There is room for one more item.
    pub open spec fn has_room(self) -> bool {
        self.items.len() < self.capacity
    }

    /// The queue after an enqueue of `x`: `x` joins the rear when there is
    /// room; a full queue is left as it is.
    pub open spec fn enqueued(self, x: T) -> QueueModel<T> {
        if self.has_room() {
            QueueModel { items: self.items.push(x), capacity: self.capacity }
        } else {
            self
        }
    }

    /// What a dequeue returns: the front item, or `None` when empty.
    pub open spec fn front(self) -> Option<T> {
        if self.items.len() > 0 {
            Some(self.items[0])
        } else {
            None
        }
    }

    /// The queue after a dequeue: the front item leaves, if there is one.
    pub open spec fn dequeued(self) -> QueueModel<T> {
        if self.items.len() > 0 {
            QueueModel { items: self.items.drop_first(), capacity: self.capacity }
        } else {
            self
        }
    }

    /// The queue after enqueuing each of `xs` in order.
    pub open spec fn enqueue_all(self, xs: Seq<T>) -> QueueModel<T>
        decreases xs.len(),
    {
        if xs.len() == 0 {
            self
        } else {
            self.enqueue_all(xs.drop_last()).enqueued(xs.last())
        }
    }

    /// What `n` dequeues in a row return, in order.
    pub open spec fn dequeue_n(self, n: nat) -> Seq<Option<T>>
        decreases n,
    {
        if n == 0 {
            Seq::empty()
        } else {
            seq![self.front()] + self.dequeued().dequeue_n((n - 1) as nat)
        }
    }
}

/// The slot `i` places after `front` in a ring of `capacity` slots, for
/// `front` and `i` below `capacity`.
pub open spec fn slot(front: int, i: int, capacity: int) -> int {
    if front + i < capacity {
        front + i
    } else {
        front + i - capacity
    }
}

/// A bounded first-in first-out queue over a ring of slots allocated once.
pub struct Queue<T: Copy> {
    array: Vec<Option<T>>,
    front: usize,
    len: usize,
}

impl<T: Copy> View for Queue<T> {
    type V = QueueModel<T>;

    closed spec fn view(&self) -> QueueModel<T> {
        QueueModel {
            items: Seq::new(
                self.len as nat,
                |i: int| self.array@[slot(self.front as int, i, self.array@.len() as int)].unwrap(),
            ),
            capacity: self.array@.len(),
        }
    }
}

impl<T: Copy> Queue<T> {
    /// The slots in use hold items and lie inside the ring.
    pub closed spec fn wf(&self) -> bool {
        &&& self.len <= self.array@.len()
        &&& (self.array@.len() > 0 ==> self.front < self.array@.len())
        &&& (self.array@.len() == 0 ==> self.front == 0)
        &&& forall|i: int|
            0 <= i < self.len ==> (#[trigger] self.array@[slot(
                self.front as int,
                i,
                self.array@.len() as int,
            )]) is Some
    }

    /// An empty queue with room for `size` items.
    pub fn new(size: usize) -> (r: Queue<T>)
        ensures
            r.wf(),
            r@ == QueueModel::<T>::empty(size as nat),
    {
        let mut array: Vec<Option<T>> = Vec::with_capacity(size);
        let mut i: usize = 0;
        while i < size
            invariant
                i <= size,
                array@.len() == i,
            decreases size - i,
        {
            array.push(None);
            i = i + 1;
        }
        let r = Queue { array, front: 0, len: 0 };
        assert(r@.items =~= Seq::<T>::empty());
        r
    }

    /// The number of items held.
    pub fn len(&self) -> (r: usize)
        ensures
            r == self@.items.len(),
    {
        self.len
    }

    /// The number of items the queue can hold.
    pub fn capacity(&self) -> (r: usize)
        ensures
            r == self@.capacity,
    {
        self.array.len()
    }

    /// Adds a copy of `obj` at the rear; fails, leaving the queue as it is,
    /// when the queue is full.
    pub fn enqueue(&mut self, obj: &T) -> (r: Result<(), &'static str>)
        requires
            old(self).wf(),
        ensures
            final(self).wf(),
            final(self)@ == old(self)@.enqueued(*obj),
            r is Ok <==> old(self)@.has_room(),
    {
        if self.len == self.array.len() {
            Err("Queue overflow")
        } else {
            let ghost old_items = self@.items;
            let cap = self.array.len();
            let rear = if self.len < cap - self.front {
                self.front + self.len
            } else {
                self.len - (cap - self.front)
            };
            self.array.set(rear, Some(*obj));
            self.len = self.len + 1;
            assert(self@.items =~= old_items.push(*obj));
            Ok(())
        }
    }

    /// Removes and returns the front item; `None` when the queue is empty.
    pub fn dequeue(&mut self) -> (r: Option<T>)
        requires
            old(self).wf(),
        ensures
            final(self).wf(),
            r == old(self)@.front(),
            final(self)@ == old(self)@.dequeued(),
    {
        if self.len == 0 {
            None
        } else {
            let ghost old_items = self@.items;
            assert(self.array@[slot(self.front as int, 0, self.array@.len() as int)] is Some);
            let item = self.array[self.front];
            let cap = self.array.len();
            self.front = if self.front + 1 < cap {
                self.front + 1
            } else {
                0
            };
            self.len = self.len - 1;
            let ghost f0 = old(self).front as int;
            assert forall|i: int| 0 <= i < self.len implies #[trigger] slot(self.front as int, i, cap as int)
                == slot(f0, i + 1, cap as int) by {}
            assert forall|i: int| 0 <= i < self.len implies (#[trigger] self.array@[slot(
                self.front as int,
                i,
                self.array@.len() as int,
            )]) is Some by {
                assert(old(self).array@[slot(f0, i + 1, cap as int)] is Some);
            }
            assert(self@.items =~= old_items.drop_first());
            match item {
                Some(x) => Some(x),
                None => None,
            }
        }
    }
}

/// Enqueuing items that fit into an empty queue leaves exactly those items,
/// in the order given.
pub proof fn lemma_enqueue_all_fits<T>(capacity: nat, xs: Seq<T>)
    requires
        xs.len() <= capacity,
    ensures
        QueueModel::<T>::empty(capacity).enqueue_all(xs) == (QueueModel { items: xs, capacity }),
    decreases xs.len(),
{
    if xs.len() == 0 {
        assert(xs =~= Seq::<T>::empty());
    } else {
        lemma_enqueue_all_fits(capacity, xs.drop_last());
        assert(xs.drop_last().push(xs.last()) =~= xs);
    }
}

/// Dequeuing as many times as a queue holds items returns them in order;
/// one dequeue more returns `None`.
pub proof fn lemma_drain<T>(q: QueueModel<T>)
    ensures
        q.dequeue_n(q.items.len()) == q.items.map_values(|x: T| Some(x)),
        q.dequeue_n(q.items.len() + 1) == q.items.map_values(|x: T| Some(x)).push(None),
    decreases q.items.len(),
{
    if q.items.len() == 0 {
        assert(q.dequeue_n(0) =~= q.items.map_values(|x: T| Some(x)));
        assert(q.dequeue_n(1) =~= seq![q.front()] + q.dequeued().dequeue_n(0));
        assert(q.dequeue_n(1) =~= q.items.map_values(|x: T| Some(x)).push(None));
    } else {
        let rest = q.dequeued();
        lemma_drain(rest);
        assert(rest.items.len() + 1 == q.items.len());
        assert(q.dequeue_n(q.items.len()) =~= q.items.map_values(|x: T| Some(x)));
        assert(q.dequeue_n(q.items.len() + 1) =~= q.items.map_values(|x: T| Some(x)).push(None));
    }
}

/// Enqueuing `n` items, no more than the capacity, into an empty queue and
/// then dequeuing `n + 1` times returns the items in the order they were
/// enqueued, then `None`.
pub proof fn lemma_round_trip<T>(capacity: nat, xs: Seq<T>)
    requires
        xs.len() <= capacity,
    ensures
        QueueModel::<T>::empty(capacity).enqueue_all(xs).dequeue_n(xs.len() + 1)
            == xs.map_values(|x: T| Some(x)).push(None),
{
    lemma_enqueue_all_fits(capacity, xs);
    lemma_drain(QueueModel { items: xs, capacity });
}

/// Enqueuing one item more than the capacity into an empty queue: the last
/// enqueue finds the queue full and changes nothing, and the first
/// `capacity` items stay, to be dequeued in order.
pub proof fn lemma_overflow<T>(capacity: nat, xs: Seq<T>)
    requires
        xs.len() == capacity + 1,
    ensures
        !QueueModel::<T>::empty(capacity).enqueue_all(xs.take(capacity as int)).has_room(),
        QueueModel::<T>::empty(capacity).enqueue_all(xs)
            == QueueModel::<T>::empty(capacity).enqueue_all(xs.take(capacity as int)),
        QueueModel::<T>::empty(capacity).enqueue_all(xs).items == xs.take(capacity as int),
        QueueModel::<T>::empty(capacity).enqueue_all(xs).dequeue_n(capacity)
            == xs.take(capacity as int).map_values(|x: T| Some(x)),
{
    let first = xs.take(capacity as int);
    lemma_enqueue_all_fits(capacity, first);
    assert(xs.drop_last() =~= first);
    lemma_drain(QueueModel { items: first, capacity });
}

} // verus!
