use vstd::prelude::*;
use crate::event::Event;

verus! {

/// A first-in first-out queue of pending events.
#[derive(Debug, Clone, Hash, PartialEq, Eq)]
pub struct Queue(std::collections::VecDeque<Event>);

impl View for Queue {
    type V = Seq<Event>;

    /// The pending events, the next to leave first.
    closed spec fn view(&self) -> Seq<Event> {
        self.0@
    }
}

impl Queue {
    pub fn new() -> (r: Queue)
        ensures
            r@ == Seq::<Event>::empty(),
    {
        Queue(std::collections::VecDeque::new())
    }

    /// Adds `event` behind every pending event.
    pub fn enqueue(&mut self, event: Event)
        ensures
            final(self)@ == old(self)@.push(event),
    {
        self.0.push_back(event);
    }

    /// Takes the oldest pending event, if any.
    pub fn dequeue(&mut self) -> (r: Option<Event>)
        ensures
            old(self)@.len() == 0 ==> r is None && final(self)@ == old(self)@,
            old(self)@.len() > 0 ==> r == Some(old(self)@[0]) && final(self)@ == old(self)@.drop_first(),
    {
        self.0.pop_front()
    }
}

/// The queue after enqueuing `es` in order, starting from `q`.
pub open spec fn enqueue_all(q: Seq<Event>, es: Seq<Event>) -> Seq<Event>
    decreases es.len(),
{
    if es.len() == 0 {
        q
    } else {
        enqueue_all(q.push(es[0]), es.drop_first())
    }
}

/// The events that repeated dequeuing takes from `q`, in order, until it is
/// empty.
pub open spec fn dequeue_all(q: Seq<Event>) -> Seq<Event>
    decreases q.len(),
{
    if q.len() == 0 {
        Seq::empty()
    } else {
        seq![q[0]] + dequeue_all(q.drop_first())
    }
}

proof fn lemma_enqueue_all_appends(q: Seq<Event>, es: Seq<Event>)
    ensures
        enqueue_all(q, es) == q + es,
    decreases es.len(),
{
    if es.len() > 0 {
        lemma_enqueue_all_appends(q.push(es[0]), es.drop_first());
        assert(q.push(es[0]) + es.drop_first() =~= q + es);
    } else {
        assert(q + es =~= q);
    }
}

proof fn lemma_dequeue_all_identity(q: Seq<Event>)
    ensures
        dequeue_all(q) == q,
    decreases q.len(),
{
    if q.len() > 0 {
        lemma_dequeue_all_identity(q.drop_first());
        assert(seq![q[0]] + q.drop_first() =~= q);
    }
}

/// Events enqueued one after another on an empty queue, with no dequeue in
/// between, are dequeued in the order they were enqueued; once they are all
/// taken, the queue is empty and yields nothing.
pub proof fn lemma_fifo(es: Seq<Event>)
    ensures
        enqueue_all(Seq::empty(), es) == es,
        dequeue_all(enqueue_all(Seq::empty(), es)) == es,
{
    lemma_enqueue_all_appends(Seq::empty(), es);
    assert(Seq::<Event>::empty() + es =~= es);
    lemma_dequeue_all_identity(es);
}

} // verus!
