use vstd::prelude::*;
use std::collections::VecDeque;
use crate::events::event::Event;

verus! {

/// The events that wait to be handled, oldest first.
pub struct EventQueue {
    pub queue: VecDeque<Event>,
}

impl View for EventQueue {
    type V = Seq<Event>;

    /// The waiting events, oldest first.
    open spec fn view(&self) -> Seq<Event> {
        self.queue@
    }
}

/// The queue `waiting` after each of `events` has been added in turn.
pub open spec fn added_all(waiting: Seq<Event>, events: Seq<Event>) -> Seq<Event>
    decreases events.len(),
{
    if events.len() == 0 {
        waiting
    } else {
        added_all(waiting, events.drop_last()).push(events.last())
    }
}

/// What is left of the queue `waiting` after `count` events have been taken
/// from it.
pub open spec fn taken(waiting: Seq<Event>, count: nat) -> Seq<Event>
    decreases count,
{
    if count == 0 {
        waiting
    } else {
        taken(waiting, (count - 1) as nat).drop_first()
    }
}

/// Events leave the queue in the order in which they were added: of the
/// events added to an empty queue, the one that is taken after `count`
/// others is the one that was added after `count` others.
pub proof fn lemma_first_in_first_out(events: Seq<Event>, count: nat)
    requires
        count < events.len(),
    ensures
        taken(added_all(Seq::empty(), events), count).len() == events.len() - count,
        taken(added_all(Seq::empty(), events), count).first() == events[count as int],
{
    lemma_added_all(Seq::empty(), events);
    lemma_taken(events, count);
}

/// Adding events to a queue puts them behind those that wait.
pub proof fn lemma_added_all(waiting: Seq<Event>, events: Seq<Event>)
    ensures
        added_all(waiting, events) == waiting + events,
    decreases events.len(),
{
    if events.len() == 0 {
        assert(waiting + events =~= waiting);
    } else {
        lemma_added_all(waiting, events.drop_last());
        assert((waiting + events.drop_last()).push(events.last()) =~= waiting + events);
    }
}

/// Taking `count` events from a queue leaves those behind the first `count`.
pub proof fn lemma_taken(waiting: Seq<Event>, count: nat)
    requires
        count <= waiting.len(),
    ensures
        taken(waiting, count) == waiting.skip(count as int),
    decreases count,
{
    if count == 0 {
        assert(waiting.skip(0) =~= waiting);
    } else {
        lemma_taken(waiting, (count - 1) as nat);
        assert(waiting.skip(count - 1).drop_first() =~= waiting.skip(count as int));
    }
}

impl EventQueue {
    /// A queue in which nothing waits.
    pub fn new() -> (queue: EventQueue)
        ensures
            queue@ == Seq::<Event>::empty(),
    {
        EventQueue { queue: VecDeque::new() }
    }

    /// Adds `event` behind the events that wait.
    pub fn add_event(&mut self, event: Event)
        ensures
            final(self)@ == old(self)@.push(event),
    {
        self.queue.push_back(event);
    }

    /// Takes the oldest event from the queue, or gives `None` when nothing
    /// waits.
    pub fn get_event(&mut self) -> (event: Option<Event>)
        ensures
            old(self)@.len() == 0 ==> event is None && final(self)@ == old(self)@,
            old(self)@.len() > 0 ==> event == Some(old(self)@.first()) && final(self)@ == old(
                self,
            )@.drop_first(),
    {
        let event = self.queue.pop_front();
        proof {
            if old(self)@.len() > 0 {
                assert(self@ =~= old(self)@.drop_first());
            }
        }
        event
    }
}

} // verus!
