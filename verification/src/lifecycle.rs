//! The lifecycle of the serving process: it runs, an interrupt makes it
//! drain, and when the last request in flight has its answer it stops.
//!
//! The controller is a state machine. The program around it reports what
//! happens (a connection is offered, a request has its answer, the
//! interrupt arrives) and does what the machine answers. A second interrupt
//! while draining changes nothing: the drain goes on to its end.

use crate::startup::GRACEFUL_EXIT_CODE;
use vstd::prelude::*;

verus! {

/// The phases of the process, in the order in which they come.
#[derive(Debug, Clone, Copy, PartialEq, Eq, Structural)]
pub enum Phase {
    /// Connections are accepted.
    Running,
    /// No connection is accepted; requests in flight are finishing.
    Draining,
    /// Nothing is in flight and the process ends.
    Stopped,
}

/// What the program reports to the controller.
#[derive(Debug, Clone, Copy, PartialEq, Eq, Structural)]
pub enum LifecycleEvent {
    /// A new connection asks to be served.
    ConnectionOffered,
    /// A request in flight has received its answer.
    RequestFinished,
    /// The interrupt signal was observed.
    Interrupt,
}

/// What the controller tells the program to do.
#[derive(Debug, Clone, Copy, PartialEq, Eq, Structural)]
pub enum LifecycleAction {
    /// Serve the connection that was offered.
    Accept,
    /// Turn the connection that was offered away.
    Refuse,
    /// Go on as before.
    Continue,
    /// Stop accepting and let the requests in flight finish.
    Drain,
    /// End the process with this code.
    Exit { code: i32 },
}

/// The most requests the controller keeps count of. A connection offered
/// beyond it is refused.
pub const MAX_IN_FLIGHT: u64 = u64::MAX;

/// The state of the controller as a mathematical value.
pub struct LifecycleView {
    pub phase: Phase,
    pub in_flight: nat,
}

/// The controller of one serving process.
#[derive(Debug)]
pub struct Lifecycle {
    phase: Phase,
    in_flight: u64,
}

/// The states a controller can be in: draining means that something is in
/// flight, stopped means that nothing is.
pub open spec fn well_formed(state: LifecycleView) -> bool {
    &&& state.in_flight <= MAX_IN_FLIGHT
    &&& state.phase == Phase::Draining ==> state.in_flight > 0
    &&& state.phase == Phase::Stopped ==> state.in_flight == 0
}

/// The state a controller starts in.
pub open spec fn initial() -> LifecycleView {
    LifecycleView { phase: Phase::Running, in_flight: 0 }
}

/// The state after an event, and the action that answers it.
pub open spec fn next(state: LifecycleView, event: LifecycleEvent) -> (
    LifecycleView,
    LifecycleAction,
) {
    match (state.phase, event) {
        (Phase::Running, LifecycleEvent::ConnectionOffered) => if state.in_flight < MAX_IN_FLIGHT {
            (
                LifecycleView { phase: Phase::Running, in_flight: state.in_flight + 1 },
                LifecycleAction::Accept,
            )
        } else {
            (state, LifecycleAction::Refuse)
        },
        (Phase::Running, LifecycleEvent::RequestFinished) => if state.in_flight > 0 {
            (
                LifecycleView { phase: Phase::Running, in_flight: (state.in_flight - 1) as nat },
                LifecycleAction::Continue,
            )
        } else {
            (state, LifecycleAction::Continue)
        },
        (Phase::Running, LifecycleEvent::Interrupt) => if state.in_flight > 0 {
            (
                LifecycleView { phase: Phase::Draining, in_flight: state.in_flight },
                LifecycleAction::Drain,
            )
        } else {
            (
                LifecycleView { phase: Phase::Stopped, in_flight: 0 },
                LifecycleAction::Exit { code: GRACEFUL_EXIT_CODE },
            )
        },
        (Phase::Draining, LifecycleEvent::ConnectionOffered) => (state, LifecycleAction::Refuse),
        (Phase::Draining, LifecycleEvent::RequestFinished) => if state.in_flight > 1 {
            (
                LifecycleView { phase: Phase::Draining, in_flight: (state.in_flight - 1) as nat },
                LifecycleAction::Continue,
            )
        } else {
            (
                LifecycleView { phase: Phase::Stopped, in_flight: 0 },
                LifecycleAction::Exit { code: GRACEFUL_EXIT_CODE },
            )
        },
        (Phase::Draining, LifecycleEvent::Interrupt) => (state, LifecycleAction::Continue),
        (Phase::Stopped, LifecycleEvent::ConnectionOffered) => (state, LifecycleAction::Refuse),
        (Phase::Stopped, _) => (state, LifecycleAction::Continue),
    }
}

impl View for Lifecycle {
    type V = LifecycleView;

    closed spec fn view(&self) -> LifecycleView {
        LifecycleView { phase: self.phase, in_flight: self.in_flight as nat }
    }
}

impl Lifecycle {
    #[verifier::type_invariant]
    spec fn holds_together(self) -> bool {
        well_formed(self@)
    }

    /// A controller that runs with nothing in flight.
    pub fn new() -> (lifecycle: Lifecycle)
        ensures
            lifecycle@ == initial(),
    {
        Lifecycle { phase: Phase::Running, in_flight: 0 }
    }

    /// The phase the process is in.
    pub fn phase(&self) -> (phase: Phase)
        ensures
            phase == self@.phase,
    {
        self.phase
    }

    /// The number of requests that wait for their answer.
    pub fn in_flight(&self) -> (count: u64)
        ensures
            count == self@.in_flight,
            well_formed(self@),
    {
        proof {
            use_type_invariant(self);
        }
        self.in_flight
    }

    /// Takes an event and answers with the action to perform.
    pub fn step(&mut self, event: LifecycleEvent) -> (action: LifecycleAction)
        ensures
            well_formed(old(self)@),
            (final(self)@, action) == next(old(self)@, event),
    {
        proof {
            use_type_invariant(&*self);
        }
        let (phase, in_flight, action) = match (self.phase, event) {
            (Phase::Running, LifecycleEvent::ConnectionOffered) => {
                if self.in_flight < MAX_IN_FLIGHT {
                    (Phase::Running, self.in_flight + 1, LifecycleAction::Accept)
                } else {
                    (self.phase, self.in_flight, LifecycleAction::Refuse)
                }
            },
            (Phase::Running, LifecycleEvent::RequestFinished) => {
                if self.in_flight > 0 {
                    (Phase::Running, self.in_flight - 1, LifecycleAction::Continue)
                } else {
                    (self.phase, self.in_flight, LifecycleAction::Continue)
                }
            },
            (Phase::Running, LifecycleEvent::Interrupt) => {
                if self.in_flight > 0 {
                    (Phase::Draining, self.in_flight, LifecycleAction::Drain)
                } else {
                    (Phase::Stopped, 0, LifecycleAction::Exit { code: GRACEFUL_EXIT_CODE })
                }
            },
            (Phase::Draining, LifecycleEvent::ConnectionOffered) => {
                (self.phase, self.in_flight, LifecycleAction::Refuse)
            },
            (Phase::Draining, LifecycleEvent::RequestFinished) => {
                if self.in_flight > 1 {
                    (Phase::Draining, self.in_flight - 1, LifecycleAction::Continue)
                } else {
                    (Phase::Stopped, 0, LifecycleAction::Exit { code: GRACEFUL_EXIT_CODE })
                }
            },
            (Phase::Draining, LifecycleEvent::Interrupt) => {
                (self.phase, self.in_flight, LifecycleAction::Continue)
            },
            (Phase::Stopped, LifecycleEvent::ConnectionOffered) => {
                (self.phase, self.in_flight, LifecycleAction::Refuse)
            },
            (Phase::Stopped, _) => (self.phase, self.in_flight, LifecycleAction::Continue),
        };
        *self = Lifecycle { phase, in_flight };
        action
    }
}

/// The place of a phase in the order of the phases.
pub open spec fn phase_rank(phase: Phase) -> nat {
    match phase {
        Phase::Running => 0,
        Phase::Draining => 1,
        Phase::Stopped => 2,
    }
}

/// Every step leads from a state a controller can be in to another one.
pub proof fn lemma_step_keeps_well_formed(state: LifecycleView, event: LifecycleEvent)
    requires
        well_formed(state),
    ensures
        well_formed(next(state, event).0),
{
}

/// Once the interrupt has been taken, nothing is accepted any more: a
/// connection offered to a process that is not running is refused, and the
/// state stays as it is.
pub proof fn lemma_refuses_unless_running(state: LifecycleView, event: LifecycleEvent)
    requires
        state.phase != Phase::Running,
    ensures
        next(state, event).1 != LifecycleAction::Accept,
        event == LifecycleEvent::ConnectionOffered ==> next(state, event) == (
            state,
            LifecycleAction::Refuse,
        ),
{
}

/// The interrupt ends the running phase, whatever is in flight.
pub proof fn lemma_interrupt_ends_running(state: LifecycleView)
    ensures
        next(state, LifecycleEvent::Interrupt).0.phase != Phase::Running,
{
}

/// The phases come in one order: no step leads back to an earlier one.
pub proof fn lemma_phase_never_goes_back(state: LifecycleView, event: LifecycleEvent)
    ensures
        phase_rank(state.phase) <= phase_rank(next(state, event).0.phase),
{
}

/// The process ends only when nothing is in flight, and then with the code
/// of a graceful shutdown; and it ends as soon as it has stopped.
pub proof fn lemma_exits_only_when_drained(state: LifecycleView, event: LifecycleEvent)
    requires
        well_formed(state),
    ensures
        next(state, event).1 is Exit <==> (state.phase != Phase::Stopped && next(
            state,
            event,
        ).0.phase == Phase::Stopped),
        next(state, event).1 is Exit ==> next(state, event).0.in_flight == 0 && next(
            state,
            event,
        ).1 == (LifecycleAction::Exit { code: GRACEFUL_EXIT_CODE }),
{
}

/// A request in flight leaves the count by receiving its answer and in no
/// other way: the count falls only on `RequestFinished`, and then by one.
pub proof fn lemma_requests_leave_by_finishing(state: LifecycleView, event: LifecycleEvent)
    requires
        well_formed(state),
    ensures
        next(state, event).0.in_flight < state.in_flight ==> event
            == LifecycleEvent::RequestFinished && next(state, event).0.in_flight + 1
            == state.in_flight,
        next(state, event).0.in_flight > state.in_flight ==> next(state, event).1
            == LifecycleAction::Accept && next(state, event).0.in_flight == state.in_flight + 1,
{
}

/// The state after a run of events.
pub open spec fn run(state: LifecycleView, events: Seq<LifecycleEvent>) -> LifecycleView
    decreases events.len(),
{
    if events.len() == 0 {
        state
    } else {
        next(run(state, events.drop_last()), events.last()).0
    }
}

/// The action that answers the event at `at` of a run.
pub open spec fn action_at(
    state: LifecycleView,
    events: Seq<LifecycleEvent>,
    at: int,
) -> LifecycleAction {
    next(run(state, events.take(at)), events[at]).1
}

/// A run keeps the controller in states it can be in, and never leads back
/// to an earlier phase.
pub proof fn lemma_run(state: LifecycleView, events: Seq<LifecycleEvent>)
    requires
        well_formed(state),
    ensures
        well_formed(run(state, events)),
        phase_rank(state.phase) <= phase_rank(run(state, events).phase),
    decreases events.len(),
{
    if events.len() > 0 {
        lemma_run(state, events.drop_last());
    }
}

/// In any run, no connection that is offered after an interrupt is
/// accepted.
pub proof fn lemma_nothing_accepted_after_interrupt(
    state: LifecycleView,
    events: Seq<LifecycleEvent>,
    interrupt: int,
    later: int,
)
    requires
        well_formed(state),
        0 <= interrupt < later < events.len(),
        events[interrupt] == LifecycleEvent::Interrupt,
    ensures
        action_at(state, events, later) != LifecycleAction::Accept,
{
    let before = events.take(interrupt);
    let through = events.take(interrupt + 1);
    let until = events.take(later);
    assert(through.drop_last() =~= before);
    assert(through.last() == LifecycleEvent::Interrupt);
    assert(run(state, through).phase != Phase::Running);
    lemma_run(state, through);
    let rest = until.subrange(interrupt + 1, later);
    assert(until =~= through + rest);
    lemma_run_splits(state, through, rest);
    lemma_run(run(state, through), rest);
}

/// A run of two parts is the run of the second part from where the first
/// has led.
pub proof fn lemma_run_splits(
    state: LifecycleView,
    first: Seq<LifecycleEvent>,
    second: Seq<LifecycleEvent>,
)
    ensures
        run(state, first + second) == run(run(state, first), second),
    decreases second.len(),
{
    if second.len() == 0 {
        assert(first + second =~= first);
    } else {
        lemma_run_splits(state, first, second.drop_last());
        assert((first + second).drop_last() =~= first + second.drop_last());
        assert((first + second).last() == second.last());
    }
}

/// A run that has stopped has nothing in flight: every request that was
/// accepted has received its answer.
pub proof fn lemma_stopped_run_is_drained(state: LifecycleView, events: Seq<LifecycleEvent>)
    requires
        well_formed(state),
        run(state, events).phase == Phase::Stopped,
    ensures
        run(state, events).in_flight == 0,
{
    lemma_run(state, events);
}

} // verus!
