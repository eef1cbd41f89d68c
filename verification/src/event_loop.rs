//! The decisions of the receive loop. The loop itself, which waits for
//! readiness and touches the hardware, lives with the caller: it hands each
//! event to `EventLoop::step` and carries out the action that comes back.

use vstd::prelude::*;

verus! {

/// Readiness token of the termination signal.
pub const TOKEN_TERMINATE: usize = 3;

/// Readiness token of the interrupt line.
pub const TOKEN_INTERRUPT: usize = 4;

/// Readiness token of the status timer.
pub const TOKEN_TIMER: usize = 5;

/// Delay before the first status report, in milliseconds.
pub const STATUS_DELAY_MS: u32 = 1000;

/// Time between status reports, in milliseconds.
pub const STATUS_INTERVAL_MS: u32 = 25;

/// What the loop is told.
#[derive(Clone, Copy, Debug, PartialEq, Eq, Structural)]
pub enum Event {
    /// The interrupt line has seen a rising edge: the FIFO holds data.
    Interrupt,
    /// The status timer has expired.
    Timer,
    /// The process was asked to stop.
    Terminate,
    /// The interrupt line was sampled and is high: data is still waiting.
    LineHigh,
    /// The interrupt line was sampled and is low: the FIFO is empty.
    LineLow,
}

/// What the loop is to do next. After each action but `Wait`, `EmitStatus`
/// and `Shutdown` the caller reports back with `LineHigh` or `LineLow`.
#[derive(Clone, Copy, Debug, PartialEq, Eq, Structural)]
pub enum Action {
    /// Take the next readiness event, waiting for one if none is at hand.
    Wait,
    /// Take the edge off the interrupt line, then sample the line.
    Acknowledge,
    /// Sample the interrupt line.
    SampleLine,
    /// Read what the FIFO holds and hand it to packet reassembly, then
    /// sample the interrupt line.
    ReadFifo,
    /// Send a status report, then go on as for `Wait`.
    EmitStatus,
    /// Switch the power amplifier off, reset the chip and leave the loop.
    Shutdown,
}

/// Where the loop stands.
#[derive(Clone, Copy, Debug, PartialEq, Eq, Structural)]
pub enum Phase {
    /// Nothing is going on.
    Idle,
    /// The FIFO is being emptied.
    Draining,
    /// The loop has been left.
    Stopped,
}

/// The state of the loop.
#[derive(Clone, Copy, Debug, PartialEq, Eq, Structural)]
pub struct EventLoop {
    pub phase: Phase,
    /// A request to stop came in while the FIFO was being emptied.
    pub shutdown_pending: bool,
    /// A status report fell due while the FIFO was being emptied.
    pub status_pending: bool,
    /// Whether anyone listens to status reports.
    pub telemetry: bool,
}

/// How the status timer is to be set.
#[derive(Clone, Copy, Debug, PartialEq, Eq, Structural)]
pub struct TimerPlan {
    pub initial_ms: u32,
    /// Zero switches the timer off.
    pub interval_ms: u32,
}

/// The timer for a loop with or without a listener for status reports:
/// periodic if there is one, switched off if there is none.
pub fn timer_plan(telemetry: bool) -> (plan: TimerPlan)
    ensures
        telemetry ==> plan == (TimerPlan {
            initial_ms: STATUS_DELAY_MS,
            interval_ms: STATUS_INTERVAL_MS,
        }),
        !telemetry ==> plan == (TimerPlan { initial_ms: 0, interval_ms: 0 }),
{
    if telemetry {
        TimerPlan { initial_ms: STATUS_DELAY_MS, interval_ms: STATUS_INTERVAL_MS }
    } else {
        TimerPlan { initial_ms: 0, interval_ms: 0 }
    }
}

impl Event {
    /// The event that a readiness token stands for, if it is one of the
    /// three that the loop registers.
    pub open spec fn of_token(token: usize) -> Option<Event> {
        if token == TOKEN_TERMINATE {
            Some(Event::Terminate)
        } else if token == TOKEN_INTERRUPT {
            Some(Event::Interrupt)
        } else if token == TOKEN_TIMER {
            Some(Event::Timer)
        } else {
            None
        }
    }

    /// Computes `of_token`.
    #[verifier::when_used_as_spec(of_token)]
    pub fn from_token(token: usize) -> (event: Option<Event>)
        ensures
            event == Self::of_token(token),
    {
        if token == TOKEN_TERMINATE {
            Some(Event::Terminate)
        } else if token == TOKEN_INTERRUPT {
            Some(Event::Interrupt)
        } else if token == TOKEN_TIMER {
            Some(Event::Timer)
        } else {
            None
        }
    }

    /// The event for a sample of the interrupt line.
    pub fn from_level(high: bool) -> (event: Event)
        ensures
            event == if high {
                Event::LineHigh
            } else {
                Event::LineLow
            },
    {
        if high {
            Event::LineHigh
        } else {
            Event::LineLow
        }
    }
}

impl EventLoop {
    /// The loop before anything has happened.
    pub fn new(telemetry: bool) -> (state: EventLoop)
        ensures
            state == (EventLoop {
                phase: Phase::Idle,
                shutdown_pending: false,
                status_pending: false,
                telemetry,
            }),
    {
        EventLoop { phase: Phase::Idle, shutdown_pending: false, status_pending: false, telemetry }
    }

    /// The state and the action after `event`.
    ///
    /// While idle, an interrupt begins a drain, the timer brings a status
    /// report if anyone listens, and a request to stop is carried out at
    /// once. While the FIFO is being emptied, every sample that finds the
    /// line high leads to another read; a request to stop and a status
    /// report that falls due are noted and the drain goes on; the sample
    /// that finds the line low ends the drain, and only then a noted
    /// request to stop is carried out, or else a noted status report is
    /// sent.
    pub open spec fn stepped(self, event: Event) -> (EventLoop, Action) {
        match self.phase {
            Phase::Stopped => (self, Action::Shutdown),
            Phase::Idle => match event {
                Event::Interrupt => (EventLoop { phase: Phase::Draining, ..self }, Action::Acknowledge),
                Event::Timer => (
                    self,
                    if self.telemetry {
                        Action::EmitStatus
                    } else {
                        Action::Wait
                    },
                ),
                Event::Terminate => (EventLoop { phase: Phase::Stopped, ..self }, Action::Shutdown),
                Event::LineHigh | Event::LineLow => (self, Action::Wait),
            },
            Phase::Draining => match event {
                Event::Interrupt => (self, Action::Acknowledge),
                Event::Timer => (
                    EventLoop { status_pending: self.status_pending || self.telemetry, ..self },
                    Action::SampleLine,
                ),
                Event::Terminate => (
                    EventLoop { shutdown_pending: true, ..self },
                    Action::SampleLine,
                ),
                Event::LineHigh => (self, Action::ReadFifo),
                Event::LineLow => if self.shutdown_pending {
                    (
                        EventLoop {
                            phase: Phase::Stopped,
                            shutdown_pending: false,
                            status_pending: false,
                            ..self
                        },
                        Action::Shutdown,
                    )
                } else if self.status_pending {
                    (
                        EventLoop { phase: Phase::Idle, status_pending: false, ..self },
                        Action::EmitStatus,
                    )
                } else {
                    (EventLoop { phase: Phase::Idle, ..self }, Action::Wait)
                },
            },
        }
    }

    /// Takes one event and says what to do next.
    pub fn step(&mut self, event: Event) -> (action: Action)
        ensures
            (*final(self), action) == old(self).stepped(event),
    {
        match self.phase {
            Phase::Stopped => Action::Shutdown,
            Phase::Idle => match event {
                Event::Interrupt => {
                    self.phase = Phase::Draining;
                    Action::Acknowledge
                },
                Event::Timer => if self.telemetry {
                    Action::EmitStatus
                } else {
                    Action::Wait
                },
                Event::Terminate => {
                    self.phase = Phase::Stopped;
                    Action::Shutdown
                },
                Event::LineHigh | Event::LineLow => Action::Wait,
            },
            Phase::Draining => match event {
                Event::Interrupt => Action::Acknowledge,
                Event::Timer => {
                    self.status_pending = self.status_pending || self.telemetry;
                    Action::SampleLine
                },
                Event::Terminate => {
                    self.shutdown_pending = true;
                    Action::SampleLine
                },
                Event::LineHigh => Action::ReadFifo,
                Event::LineLow => if self.shutdown_pending {
                    self.phase = Phase::Stopped;
                    self.shutdown_pending = false;
                    self.status_pending = false;
                    Action::Shutdown
                } else if self.status_pending {
                    self.phase = Phase::Idle;
                    self.status_pending = false;
                    Action::EmitStatus
                } else {
                    self.phase = Phase::Idle;
                    Action::Wait
                },
            },
        }
    }

    /// The state after a run of events, and the actions in their order.
    pub open spec fn ran(self, events: Seq<Event>) -> (EventLoop, Seq<Action>)
        decreases events.len(),
    {
        if events.len() == 0 {
            (self, Seq::empty())
        } else {
            let (before, actions) = self.ran(events.drop_last());
            let (after, action) = before.stepped(events.last());
            (after, actions.push(action))
        }
    }
}

/// A request to stop that comes in while the FIFO is being emptied waits
/// for the end of the drain, and the drain loses nothing by it.
///
/// Take a loop that is emptying the FIFO, and any events among which the
/// line has not yet been found low. Then the loop is still emptying the
/// FIFO, it has not been told to shut down, and each time the line was
/// found high it has been told to read the FIFO. If a request to stop was
/// among the events, it is noted; and once it is noted, the sample that
/// finds the line low, and nothing before it, brings the shutdown.
pub proof fn lemma_termination_waits_for_drain(start: EventLoop, events: Seq<Event>)
    requires
        start.phase is Draining,
        forall|i: int| 0 <= i < events.len() ==> !(#[trigger] events[i] is LineLow),
    ensures
        ({
            let (end, actions) = start.ran(events);
            &&& end.phase is Draining
            &&& actions.len() == events.len()
            &&& forall|i: int| 0 <= i < actions.len() ==> !(#[trigger] actions[i] is Shutdown)
            &&& forall|i: int|
                0 <= i < events.len() && #[trigger] events[i] is LineHigh ==> actions[i]
                    is ReadFifo
            &&& (start.shutdown_pending || exists|i: int|
                0 <= i < events.len() && #[trigger] events[i] is Terminate)
                ==> end.shutdown_pending && end.stepped(Event::LineLow).1 is Shutdown
        }),
    decreases events.len(),
{
    if events.len() > 0 {
        let earlier = events.drop_last();
        lemma_termination_waits_for_drain(start, earlier);
        let (before, actions) = start.ran(earlier);
        let (after, action) = before.stepped(events.last());
        let all = actions.push(action);
        assert(!(events[events.len() - 1] is LineLow));
        assert forall|i: int| 0 <= i < all.len() implies !(#[trigger] all[i] is Shutdown) by {
            if i < actions.len() {
                assert(all[i] == actions[i]);
            }
        }
        assert forall|i: int| 0 <= i < events.len() && #[trigger] events[i] is LineHigh implies all[i]
            is ReadFifo by {
            if i < actions.len() {
                assert(events[i] == earlier[i]);
                assert(all[i] == actions[i]);
            }
        }
        if start.shutdown_pending || exists|i: int|
            0 <= i < events.len() && #[trigger] events[i] is Terminate {
            if !start.shutdown_pending {
                let i = choose|i: int| 0 <= i < events.len() && #[trigger] events[i] is Terminate;
                if i < earlier.len() {
                    assert(earlier[i] is Terminate);
                }
            }
        }
    }
}

} // verus!
