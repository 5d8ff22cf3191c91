//! The event loop driver: which platform events end the loop.
//!
//! The driver has two states. It starts running, stops at the first request to
//! close the window or the first press of the escape key, and never runs
//! again. Every other event is discarded.

use vstd::prelude::*;

verus! {

/// The key code of the escape key, in the numbering of the window system's
/// virtual key codes.
pub const ESCAPE_KEY: u32 = 36;

/// A platform event, as far as the loop tells events apart.
#[derive(Clone, Copy, Debug, PartialEq, Eq, Structural)]
pub enum PlatformEvent {
    /// The user asked to close the window.
    CloseRequested,
    /// A key was pressed or released; `key` is its code if the window system
    /// recognised the key.
    KeyboardInput { key: Option<u32> },
    /// Any other event of a window, of a device or of the system.
    Other,
}

/// What the loop does after an event.
#[derive(Clone, Copy, Debug, PartialEq, Eq, Structural)]
pub enum LoopControl {
    Continue,
    Terminate,
}

/// The state of the driver.
#[derive(Clone, Copy, Debug, PartialEq, Eq, Structural)]
pub enum LoopState {
    Running,
    /// Terminal: no event leads back to `Running`.
    Stopped,
}

impl PlatformEvent {
    /// The event ends the loop: a close request, or keyboard input that
    /// carries the escape key.
    pub open spec fn terminates(self) -> bool {
        match self {
            PlatformEvent::CloseRequested => true,
            PlatformEvent::KeyboardInput { key } => key == Some(ESCAPE_KEY),
            PlatformEvent::Other => false,
        }
    }
}

/// The decision for `event`, a function of the event alone.
pub open spec fn decision(event: PlatformEvent) -> LoopControl {
    if event.terminates() {
        LoopControl::Terminate
    } else {
        LoopControl::Continue
    }
}

impl LoopState {
    /// The state after `event` is delivered in this state.
    pub open spec fn after(self, event: PlatformEvent) -> LoopState {
        if self == LoopState::Running && !event.terminates() {
            LoopState::Running
        } else {
            LoopState::Stopped
        }
    }

    /// The state after all of `events` are delivered in this state, one by one.
    pub open spec fn after_all(self, events: Seq<PlatformEvent>) -> LoopState
        decreases events.len(),
    {
        if events.len() == 0 {
            self
        } else {
            self.after_all(events.drop_last()).after(events.last())
        }
    }

    /// Delivers `event` in this state.
    pub fn step(self, event: &PlatformEvent) -> (next: LoopState)
        ensures
            next == self.after(*event),
    {
        match self {
            LoopState::Running => match decide(event) {
                LoopControl::Continue => LoopState::Running,
                LoopControl::Terminate => LoopState::Stopped,
            },
            LoopState::Stopped => LoopState::Stopped,
        }
    }
}

/// No event before position `end` ends the loop.
pub open spec fn none_terminates(events: Seq<PlatformEvent>, end: int) -> bool {
    forall|i: int| 0 <= i < end && i < events.len() ==> !(#[trigger] events[i]).terminates()
}

/// Position `at` holds the first event of `events` that ends the loop.
pub open spec fn first_terminating(events: Seq<PlatformEvent>, at: int) -> bool {
    &&& 0 <= at < events.len()
    &&& events[at].terminates()
    &&& none_terminates(events, at)
}

/// How many of `events` a running loop takes: all up to and with the first one
/// that ends it, or all of them if none does.
pub open spec fn consumed(events: Seq<PlatformEvent>) -> nat
    decreases events.len(),
{
    if events.len() == 0 {
        0
    } else if events.first().terminates() {
        1
    } else {
        1 + consumed(events.drop_first())
    }
}

/// Maps one event to the loop's decision.
pub fn decide(event: &PlatformEvent) -> (control: LoopControl)
    ensures
        control == decision(*event),
        (control == LoopControl::Terminate) == event.terminates(),
{
    match event {
        PlatformEvent::KeyboardInput { key } => match key {
            Some(code) => {
                if *code == ESCAPE_KEY {
                    LoopControl::Terminate
                } else {
                    LoopControl::Continue
                }
            },
            None => LoopControl::Continue,
        },
        PlatformEvent::CloseRequested => LoopControl::Terminate,
        PlatformEvent::Other => LoopControl::Continue,
    }
}

/// Runs a loop on `events` from the running state. Returns the state it ends
/// in and the number of events it took.
///
/// The loop stops at the first event that ends it and leaves the events after
/// that one untouched. If none ends it, it takes every event and is still
/// running: it would wait for the next.
pub fn drive(events: &[PlatformEvent]) -> (result: (LoopState, usize))
    ensures
        result.1 == consumed(events@),
        result.1 <= events@.len(),
        result.0 == LoopState::Running.after_all(events@),
        result.0 == LoopState::Running.after_all(events@.take(result.1 as int)),
        result.0 == LoopState::Stopped ==> first_terminating(events@, result.1 - 1),
        result.0 == LoopState::Running ==> result.1 == events@.len() && none_terminates(
            events@,
            events@.len() as int,
        ),
{
    let mut state = LoopState::Running;
    let mut taken: usize = 0;
    while taken < events.len() && state == LoopState::Running
        invariant
            taken <= events@.len(),
            state == LoopState::Running ==> none_terminates(events@, taken as int),
            state == LoopState::Stopped ==> first_terminating(events@, taken - 1),
        decreases events@.len() - taken,
    {
        state = state.step(&events[taken]);
        taken = taken + 1;
    }
    proof {
        if state == LoopState::Running {
            lemma_running_takes_all(events@);
            assert(events@.take(taken as int) =~= events@);
        } else {
            lemma_stops_at_first_terminating(events@, taken - 1);
        }
    }
    (state, taken)
}

/// Events that do not end the loop leave the state as it is, and a stopped
/// loop stays stopped whatever arrives.
pub proof fn lemma_step_keeps_state(state: LoopState, event: PlatformEvent)
    ensures
        !event.terminates() ==> state.after(event) == state,
        state == LoopState::Stopped ==> state.after(event) == LoopState::Stopped,
        event.terminates() ==> state.after(event) == LoopState::Stopped,
{
}

/// A close request stops the loop, whatever its state.
pub proof fn lemma_close_request_stops(state: LoopState)
    ensures
        state.after(PlatformEvent::CloseRequested) == LoopState::Stopped,
        decision(PlatformEvent::CloseRequested) == LoopControl::Terminate,
{
}

/// A loop that meets no event that ends it takes every event and stays in the
/// state it began in.
pub proof fn lemma_running_takes_all(events: Seq<PlatformEvent>)
    requires
        none_terminates(events, events.len() as int),
    ensures
        consumed(events) == events.len(),
        forall|state: LoopState| #[trigger] state.after_all(events) == state,
    decreases events.len(),
{
    if events.len() > 0 {
        let rest = events.drop_first();
        assert forall|i: int| 0 <= i < rest.len() implies !(#[trigger] rest[i]).terminates() by {
            assert(rest[i] == events[i + 1]);
        }
        lemma_running_takes_all(rest);
        let front = events.drop_last();
        assert forall|i: int| 0 <= i < front.len() implies !(#[trigger] front[i]).terminates() by {
            assert(front[i] == events[i]);
        }
        lemma_running_takes_all(front);
        assert(!events.first().terminates());
        assert(!events.last().terminates());
        assert forall|state: LoopState| #[trigger] state.after_all(events) == state by {
            assert(state.after_all(front) == state);
        }
    }
}

/// A running loop stops exactly at the first event that ends it: it takes that
/// event and the ones before it, is still running before it, and is stopped
/// from then on, whatever follows.
pub proof fn lemma_stops_at_first_terminating(events: Seq<PlatformEvent>, at: int)
    requires
        first_terminating(events, at),
    ensures
        consumed(events) == at + 1,
        LoopState::Running.after_all(events.take(at)) == LoopState::Running,
        LoopState::Running.after_all(events.take(at + 1)) == LoopState::Stopped,
        LoopState::Running.after_all(events) == LoopState::Stopped,
{
    lemma_consumed_at_first_terminating(events, at);
    let before = events.take(at);
    assert forall|i: int| 0 <= i < before.len() implies !(#[trigger] before[i]).terminates() by {
        assert(before[i] == events[i]);
    }
    lemma_running_takes_all(before);
    let upto = events.take(at + 1);
    assert(upto.drop_last() =~= before);
    assert(upto.last() == events[at]);
    lemma_stopped_is_terminal(events, at + 1);
    assert(events.take(events.len() as int) =~= events);
}

/// Whatever came before, as long as none of it ended the loop: an event that
/// ends the loop ends it there and then. The loop takes every event before it
/// and that event, is running until then and stopped after. This holds of a
/// close request after any number of unrelated events.
pub proof fn lemma_terminating_event_ends_any_run(before: Seq<PlatformEvent>, last: PlatformEvent)
    requires
        none_terminates(before, before.len() as int),
        last.terminates(),
    ensures
        consumed(before.push(last)) == before.len() + 1,
        LoopState::Running.after_all(before) == LoopState::Running,
        LoopState::Running.after_all(before.push(last)) == LoopState::Stopped,
{
    let events = before.push(last);
    assert(events[before.len() as int] == last);
    assert forall|i: int| 0 <= i < before.len() implies !(#[trigger] events[i]).terminates() by {
        assert(events[i] == before[i]);
    }
    lemma_stops_at_first_terminating(events, before.len() as int);
    assert(events.take(before.len() as int) =~= before);
}

/// The count of events taken, where `at` holds the first event that ends the
/// loop.
proof fn lemma_consumed_at_first_terminating(events: Seq<PlatformEvent>, at: int)
    requires
        first_terminating(events, at),
    ensures
        consumed(events) == at + 1,
    decreases events.len(),
{
    if at > 0 {
        let rest = events.drop_first();
        assert(!events[0].terminates());
        assert(rest[at - 1] == events[at]);
        assert forall|i: int| 0 <= i < at - 1 && i < rest.len() implies !(#[trigger] rest[i]).terminates() by {
            assert(rest[i] == events[i + 1]);
        }
        lemma_consumed_at_first_terminating(rest, at - 1);
    }
}

/// Once the loop has stopped after `n` events, it is stopped after any more of
/// them.
proof fn lemma_stopped_is_terminal(events: Seq<PlatformEvent>, n: int)
    requires
        0 <= n <= events.len(),
        LoopState::Running.after_all(events.take(n)) == LoopState::Stopped,
    ensures
        forall|m: int| n <= m <= events.len() ==> LoopState::Running.after_all(#[trigger] events.take(m)) == LoopState::Stopped,
    decreases events.len() - n,
{
    if n < events.len() {
        let next = events.take(n + 1);
        assert(next.drop_last() =~= events.take(n));
        lemma_stopped_is_terminal(events, n + 1);
    }
}

} // verus!
