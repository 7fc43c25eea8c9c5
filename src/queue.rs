//! A bounded first-in first-out queue. A send into a full queue is refused
//! and leaves it as it was: the caller waits for a slot and tries again,
//! which is how backpressure travels from a slow consumer to its producer.
use vstd::prelude::*;

verus! {

/// The contents after offering `item` to a queue of capacity `cap` holding
/// `s`: appended at the back when a slot is free, else unchanged.
pub open spec fn after_send<T>(s: Seq<T>, cap: nat, item: T) -> Seq<T> {
    if s.len() < cap { s.push(item) } else { s }
}

/// The contents after taking from a queue holding `s`: the front item is
/// gone, when there is one.
pub open spec fn after_receive<T>(s: Seq<T>) -> Seq<T> {
    if s.len() == 0 { s } else { s.drop_first() }
}

/// The contents after offering `items`, in order, to a queue of capacity
/// `cap` holding `s`.
pub open spec fn after_sends<T>(s: Seq<T>, cap: nat, items: Seq<T>) -> Seq<T>
    decreases items.len(),
{
    if items.len() == 0 {
        s
    } else {
        after_send(after_sends(s, cap, items.drop_last()), cap, items.last())
    }
}

/// The items that `n` takes from a queue holding `s` hand out, in order.
pub open spec fn received<T>(s: Seq<T>, n: nat) -> Seq<T>
    decreases n,
{
    if n == 0 || s.len() == 0 {
        Seq::empty()
    } else {
        seq![s[0]].add(received(s.drop_first(), (n - 1) as nat))
    }
}

/// A first-in first-out queue that never holds more than its capacity.
pub struct BoundedQueue<T> {
    items: Vec<T>,
    capacity: usize,
}

impl<T> View for BoundedQueue<T> {
    type V = Seq<T>;

    closed spec fn view(&self) -> Seq<T> {
        self.items@
    }
}

impl<T> BoundedQueue<T> {
    /// The capacity the queue was made with.
    pub closed spec fn cap(&self) -> nat {
        self.capacity as nat
    }

    pub closed spec fn wf(&self) -> bool {
        &&& self.capacity > 0
        &&& self.items@.len() <= self.capacity
    }

    /// An empty queue that holds at most `capacity` items.
    pub fn new(capacity: usize) -> (r: BoundedQueue<T>)
        requires
            capacity > 0,
        ensures
            r.wf(),
            r@ == Seq::<T>::empty(),
            r.cap() == capacity,
    {
        BoundedQueue { items: Vec::new(), capacity }
    }

    pub fn capacity(&self) -> (r: usize)
        ensures
            r == self.cap(),
    {
        self.capacity
    }

    pub fn len(&self) -> (r: usize)
        ensures
            r == self@.len(),
    {
        self.items.len()
    }

    pub fn is_empty(&self) -> (r: bool)
        ensures
            r == (self@.len() == 0),
    {
        self.items.len() == 0
    }

    pub fn is_full(&self) -> (r: bool)
        ensures
            r == (self@.len() >= self.cap()),
    {
        self.items.len() >= self.capacity
    }

    /// Appends `item` when a slot is free; otherwise hands it back in `Err`
    /// and leaves the queue unchanged.
    pub fn try_send(&mut self, item: T) -> (r: Result<(), T>)
        requires
            old(self).wf(),
        ensures
            final(self).wf(),
            final(self).cap() == old(self).cap(),
            final(self)@ == after_send(old(self)@, old(self).cap(), item),
            r is Ok == (old(self)@.len() < old(self).cap()),
            r matches Err(back) ==> back == item,
    {
        if self.items.len() < self.capacity {
            self.items.push(item);
            Ok(())
        } else {
            Err(item)
        }
    }

    /// Takes the front item, or `None` when the queue is empty.
    pub fn try_receive(&mut self) -> (r: Option<T>)
        requires
            old(self).wf(),
        ensures
            final(self).wf(),
            final(self).cap() == old(self).cap(),
            final(self)@ == after_receive(old(self)@),
            r == (if old(self)@.len() == 0 { None } else { Some(old(self)@[0]) }),
    {
        if self.items.len() == 0 {
            None
        } else {
            let item = self.items.remove(0);
            assert(self.items@ =~= old(self)@.drop_first());
            Some(item)
        }
    }
}

/// A send into a full queue changes nothing; once a take has freed a slot,
/// the same send adds exactly that one item at the back, and the queue again
/// holds as many items as before, the rest of them unchanged and in order.
pub proof fn lemma_full_queue_send_waits<T>(s: Seq<T>, cap: nat, item: T)
    requires
        cap > 0,
        s.len() == cap,
    ensures
        after_send(s, cap, item) == s,
        after_send(after_receive(s), cap, item) == s.drop_first().push(item),
        after_send(after_receive(s), cap, item).len() == s.len(),
        seq![s[0]] + after_send(after_receive(s), cap, item) == s.push(item),
{
    assert(seq![s[0]] + s.drop_first().push(item) =~= s.push(item));
}

/// Items offered to an empty queue, as many as it has room for, are all
/// kept, and the takes that follow hand them out in the order they came.
pub proof fn lemma_queue_keeps_order<T>(cap: nat, items: Seq<T>)
    requires
        items.len() <= cap,
    ensures
        after_sends(Seq::empty(), cap, items) == items,
        received(after_sends(Seq::empty(), cap, items), items.len()) == items,
{
    lemma_sends_fill(cap, items);
    lemma_received_all(items);
}

proof fn lemma_sends_fill<T>(cap: nat, items: Seq<T>)
    requires
        items.len() <= cap,
    ensures
        after_sends(Seq::empty(), cap, items) == items,
    decreases items.len(),
{
    if items.len() > 0 {
        lemma_sends_fill(cap, items.drop_last());
        assert(items.drop_last().push(items.last()) =~= items);
    }
}

proof fn lemma_received_all<T>(s: Seq<T>)
    ensures
        received(s, s.len()) == s,
    decreases s.len(),
{
    if s.len() > 0 {
        lemma_received_all(s.drop_first());
        assert(seq![s[0]] + s.drop_first() =~= s);
    }
}

} // verus!
