//! The event channel between the jobs of a batch and the one consumer that
//! shows its progress: a bounded queue that never makes a sender wait.
//!
//! When the queue is full the oldest event leaves to make room. A terminal
//! event is always taken, and nothing is taken after it, so it is never lost
//! and there is never a second one. Once the consumer has stopped listening
//! every event is discarded.

use std::collections::VecDeque;
use vstd::prelude::*;
use crate::progress::Event;

verus! {

/// Whether `event` ends a batch.
pub open spec fn terminal(event: Event) -> bool {
    event is Finished || event is Error
}

/// The state of a channel, by what it stands for.
pub ghost struct ChannelState {
    /// The events that were sent and not yet received, the oldest first.
    pub pending: Seq<Event>,
    /// The number of events that the queue holds before the oldest leaves.
    pub capacity: nat,
    /// Whether the consumer is listening.
    pub listening: bool,
    /// Whether a terminal event was taken.
    pub ended: bool,
}

impl ChannelState {
    /// Whether the state is one that a channel can be in: a terminal event
    /// is the last in the queue, and is there only after one was taken.
    pub open spec fn wf(self) -> bool {
        &&& self.pending.len() <= self.capacity + 1
        &&& forall|i: int| 0 <= i < self.pending.len() - 1 ==> !terminal(self.pending[i])
        &&& !self.ended ==> self.pending.len() <= self.capacity
        &&& !self.ended ==> forall|i: int| 0 <= i < self.pending.len() ==> !terminal(
            self.pending[i],
        )
    }

    /// Whether `event` is taken into the queue.
    pub open spec fn takes(self, event: Event) -> bool {
        self.listening && !self.ended && (terminal(event) || self.capacity > 0)
    }

    /// The state after `event` was sent.
    pub open spec fn sent(self, event: Event) -> ChannelState {
        if !self.takes(event) {
            self
        } else {
            ChannelState {
                pending: if terminal(event) || self.pending.len() < self.capacity {
                    self.pending.push(event)
                } else {
                    self.pending.drop_first().push(event)
                },
                capacity: self.capacity,
                listening: true,
                ended: terminal(event),
            }
        }
    }

    /// The state after the consumer took the oldest event.
    pub open spec fn received(self) -> ChannelState {
        if self.pending.len() == 0 {
            self
        } else {
            ChannelState {
                pending: self.pending.drop_first(),
                capacity: self.capacity,
                listening: self.listening,
                ended: self.ended,
            }
        }
    }

    /// The state after the consumer stopped listening.
    pub open spec fn stopped(self) -> ChannelState {
        ChannelState {
            pending: Seq::empty(),
            capacity: self.capacity,
            listening: false,
            ended: self.ended,
        }
    }
}

/// The channel between the jobs of a batch and its consumer.
pub struct EventChannel {
    pending: VecDeque<Event>,
    capacity: usize,
    listening: bool,
    ended: bool,
}

impl View for EventChannel {
    type V = ChannelState;

    closed spec fn view(&self) -> ChannelState {
        ChannelState {
            pending: self.pending@,
            capacity: self.capacity as nat,
            listening: self.listening,
            ended: self.ended,
        }
    }
}

impl EventChannel {
    /// A channel that holds up to `capacity` events, with a consumer
    /// listening.
    pub fn new(capacity: usize) -> (r: Self)
        ensures
            r@.wf(),
            r@ == (ChannelState {
                pending: Seq::empty(),
                capacity: capacity as nat,
                listening: true,
                ended: false,
            }),
    {
        EventChannel { pending: VecDeque::new(), capacity, listening: true, ended: false }
    }

    /// The number of events that wait for the consumer.
    pub fn len(&self) -> (r: usize)
        ensures
            r == self@.pending.len(),
    {
        self.pending.len()
    }

    /// Whether a terminal event was taken.
    pub fn is_ended(&self) -> (r: bool)
        ensures
            r == self@.ended,
    {
        self.ended
    }

    /// Sends `event` and says whether it was taken. It is discarded when the
    /// consumer has stopped listening, or after a terminal event.
    pub fn send(&mut self, event: Event) -> (r: bool)
        requires
            old(self)@.wf(),
        ensures
            final(self)@.wf(),
            final(self)@ == old(self)@.sent(event),
            r == old(self)@.takes(event),
    {
        if !self.listening || self.ended {
            return false;
        }
        let ends = match &event {
            Event::Finished => true,
            Event::Error(_) => true,
            _ => false,
        };
        if ends {
            self.pending.push_back(event);
            self.ended = true;
            true
        } else if self.capacity == 0 {
            false
        } else {
            if self.pending.len() >= self.capacity {
                let _ = self.pending.pop_front();
            }
            self.pending.push_back(event);
            true
        }
    }

    /// The oldest event that waits, if there is one.
    pub fn try_receive(&mut self) -> (r: Option<Event>)
        requires
            old(self)@.wf(),
        ensures
            final(self)@.wf(),
            final(self)@ == old(self)@.received(),
            match r {
                Some(event) => old(self)@.pending.len() > 0 && event == old(self)@.pending[0],
                None => old(self)@.pending.len() == 0,
            },
    {
        let r = self.pending.pop_front();
        proof {
            if old(self)@.pending.len() > 0 {
                assert(self.pending@ =~= old(self)@.pending.drop_first());
            } else {
                assert(self.pending@ =~= old(self)@.pending);
            }
        }
        r
    }

    /// Stops listening: what waits is dropped, and what is sent from now on
    /// is discarded.
    pub fn stop(&mut self)
        requires
            old(self)@.wf(),
        ensures
            final(self)@.wf(),
            final(self)@ == old(self)@.stopped(),
    {
        self.pending.clear();
        self.listening = false;
    }
}

/// The number of terminal events among `events`.
pub open spec fn terminals_in(events: Seq<Event>) -> nat
    decreases events.len(),
{
    if events.len() == 0 {
        0
    } else {
        terminals_in(events.drop_last()) + if terminal(events.last()) {
            1nat
        } else {
            0nat
        }
    }
}

/// The state of the channel `s` after `events` were sent, in order.
pub open spec fn after_sending(s: ChannelState, events: Seq<Event>) -> ChannelState
    decreases events.len(),
{
    if events.len() == 0 {
        s
    } else {
        after_sending(s, events.drop_last()).sent(events.last())
    }
}

/// The events among `events` that the channel `s` takes as they are sent,
/// in order.
pub open spec fn taken(s: ChannelState, events: Seq<Event>) -> Seq<Event>
    decreases events.len(),
{
    if events.len() == 0 {
        Seq::empty()
    } else if after_sending(s, events.drop_last()).takes(events.last()) {
        taken(s, events.drop_last()).push(events.last())
    } else {
        taken(s, events.drop_last())
    }
}

/// Whatever is sent to a fresh channel with a listening consumer, it takes
/// at most one terminal event; it takes the first one that is sent, and that
/// one waits as the last event of the queue, behind all that were sent
/// before it and are still there.
pub proof fn lemma_one_terminal_event(capacity: nat, events: Seq<Event>)
    ensures
        ({
            let start = ChannelState {
                pending: Seq::empty(),
                capacity,
                listening: true,
                ended: false,
            };
            let end = after_sending(start, events);
            &&& end.wf()
            &&& end.listening
            &&& end.capacity == capacity
            &&& terminals_in(taken(start, events)) == if end.ended {
                1nat
            } else {
                0nat
            }
            &&& end.ended <==> terminals_in(events) > 0
            &&& end.ended ==> end.pending.len() > 0 && terminal(end.pending.last())
        }),
    decreases events.len(),
{
    let start = ChannelState { pending: Seq::empty(), capacity, listening: true, ended: false };
    if events.len() > 0 {
        lemma_one_terminal_event(capacity, events.drop_last());
        let mid = after_sending(start, events.drop_last());
        let e = events.last();
        if mid.takes(e) {
            let t = taken(start, events.drop_last());
            assert(taken(start, events) == t.push(e));
            assert(t.push(e).drop_last() =~= t);
            assert(t.push(e).last() == e);
        }
    }
}

} // verus!
