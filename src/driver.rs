use vstd::prelude::*;

use crate::key::KeyCode;
use crate::window::{
    close_requested, delivered, is_key_press, key_released, translate_events, Event, PlatformEvent,
};

verus! {

/// Whether an event ends the application's loop: a close request, or the
/// Escape key coming up. The release, not the press, is the trigger, so the
/// key is no longer held when the window goes away.
pub open spec fn stops(e: Event) -> bool {
    e == Event::Close || e == Event::KeyReleased(KeyCode::Escape)
}

/// Whether a run of events leaves a running loop running.
pub open spec fn keeps_running(events: Seq<Event>) -> bool {
    forall|i: int| 0 <= i < events.len() ==> !stops(#[trigger] events[i])
}

/// The run flag of the application's loop. It starts set and, once cleared,
/// stays cleared.
pub struct Driver {
    running: bool,
}

impl View for Driver {
    type V = bool;

    closed spec fn view(&self) -> bool {
        self.running
    }
}

impl Driver {
    /// A driver whose loop is running.
    pub fn new() -> (r: Driver)
        ensures
            r@,
    {
        Driver { running: true }
    }

    /// Whether the loop should go on.
    pub fn is_running(&self) -> (r: bool)
        ensures
            r == self@,
    {
        self.running
    }

    /// Takes one event: the flag is cleared on an event that stops the loop,
    /// and left as it was on any other.
    pub fn handle(&mut self, event: Event)
        ensures
            final(self)@ == (old(self)@ && !stops(event)),
    {
        match event {
            Event::Close => self.running = false,
            Event::KeyReleased(KeyCode::Escape) => self.running = false,
            _ => {},
        }
    }

    /// Takes the events of one poll, in order.
    pub fn handle_all(&mut self, events: &Vec<Event>)
        ensures
            final(self)@ == (old(self)@ && keeps_running(events@)),
    {
        let ghost start = self@;
        let mut i: usize = 0;
        while i < events.len()
            invariant
                i <= events@.len(),
                self@ == (start && keeps_running(events@.subrange(0, i as int))),
            decreases events@.len() - i,
        {
            self.handle(events[i]);
            proof {
                let done = events@.subrange(0, i as int);
                let next = events@.subrange(0, i + 1);
                assert(next =~= done.push(events@[i as int]));
                assert(keeps_running(next) == (keeps_running(done) && !stops(events@[i as int]))) by {
                    if keeps_running(done) && !stops(events@[i as int]) {
                        assert forall|j: int| 0 <= j < next.len() implies !stops(#[trigger] next[j]) by {
                            if j < i {
                                assert(next[j] == done[j]);
                            }
                        }
                    }
                    if keeps_running(next) {
                        assert forall|j: int| 0 <= j < done.len() implies !stops(#[trigger] done[j]) by {
                            assert(next[j] == done[j]);
                        }
                        assert(!stops(next[i as int]));
                    }
                }
            }
            i = i + 1;
        }
        proof {
            assert(events@.subrange(0, i as int) =~= events@);
        }
    }

    /// One turn of the loop's decisions: translates what the platform queued,
    /// takes each resulting event in order, and returns them as delivered.
    pub fn poll(&mut self, queue: &Vec<PlatformEvent>) -> (r: Vec<Event>)
        ensures
            r@ == delivered(queue@),
            final(self)@ == (old(self)@ && keeps_running(r@)),
    {
        let events = translate_events(queue);
        self.handle_all(&events);
        events
    }
}

/// A close request anywhere in a poll stops the loop.
pub proof fn lemma_close_request_stops(queue: Seq<PlatformEvent>, i: int)
    requires
        0 <= i < queue.len(),
        queue[i] == close_requested(),
    ensures
        !keeps_running(delivered(queue)),
{
    assert(stops(delivered(queue)[i]));
}

/// A release of Escape anywhere in a poll stops the loop.
pub proof fn lemma_escape_release_stops(queue: Seq<PlatformEvent>, i: int)
    requires
        0 <= i < queue.len(),
        queue[i] == key_released(KeyCode::Escape),
    ensures
        !keeps_running(delivered(queue)),
{
    assert(stops(delivered(queue)[i]));
}

/// Key presses never stop the loop: a poll made of nothing else leaves a
/// running loop running, whatever the keys.
pub proof fn lemma_key_presses_keep_running(queue: Seq<PlatformEvent>)
    requires
        forall|i: int| 0 <= i < queue.len() ==> is_key_press(#[trigger] queue[i]),
    ensures
        keeps_running(delivered(queue)),
{
    assert forall|i: int| 0 <= i < delivered(queue).len() implies !stops(#[trigger] delivered(queue)[i]) by {
        assert(is_key_press(queue[i]));
    }
}

} // verus!
