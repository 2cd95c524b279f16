//! Supervisor and indicator in one loop: a single state object, no second
//! task and no shared cell. The indicator is checked once per cycle, so its
//! precision is the time that one pass of the loop takes.

use vstd::prelude::*;
use crate::blink::{poll_spec, toggle_due, InlineIndicator, InlineState};
use crate::phase::{ConnectivityPhase, Observation};
use crate::supervisor::{tick_spec, Supervisor, SupervisorState};

verus! {

/// The loop's state as contracts see it.
pub struct PollingState {
    /// The supervisor's part.
    pub supervisor: SupervisorState,
    /// The indicator's part.
    pub indicator: InlineState,
}

/// What the caller has to do after one cycle of the polling loop.
#[derive(Clone, Copy, Debug, PartialEq, Eq, Structural)]
pub struct PollOutcome {
    /// The phase of this cycle.
    pub phase: ConnectivityPhase,
    /// Whether the output is to be toggled now.
    pub toggle: bool,
    /// Whether the "network ready" line is to be printed now.
    pub report_network_ready: bool,
    /// Whether the failed status read is to be logged.
    pub report_radio_fault: bool,
}

/// One cycle of the polling loop: the supervisor's step first, then the
/// indicator's check against the period of the state just decided.
pub open spec fn polling_tick_spec(before: PollingState, seen: Observation, now_ms: u64) -> (
    PollingState,
    PollOutcome,
) {
    let (supervisor, outcome) = tick_spec(before.supervisor, seen);
    (
        PollingState {
            supervisor,
            indicator: poll_spec(before.indicator, now_ms, supervisor.published),
        },
        PollOutcome {
            phase: outcome.phase,
            toggle: toggle_due(
                before.indicator.last_toggle_ms,
                now_ms,
                supervisor.published.period_ms(),
            ),
            report_network_ready: outcome.report_network_ready,
            report_radio_fault: outcome.report_radio_fault,
        },
    )
}

/// Supervisor and inline indicator, owned by the one loop that runs both.
pub struct PollingSupervisor {
    supervisor: Supervisor,
    indicator: InlineIndicator,
}

impl View for PollingSupervisor {
    type V = PollingState;

    closed spec fn view(&self) -> PollingState {
        PollingState { supervisor: self.supervisor@, indicator: self.indicator@ }
    }
}

impl PollingSupervisor {
    /// A fresh supervisor, and an output at the given level since `now_ms`.
    pub fn new(high: bool, now_ms: u64) -> (polling: PollingSupervisor)
        ensures
            polling@.supervisor == crate::supervisor::initial_state(),
            polling@.indicator == (InlineState { high, last_toggle_ms: now_ms }),
    {
        PollingSupervisor {
            supervisor: Supervisor::new(),
            indicator: InlineIndicator::new(high, now_ms),
        }
    }

    /// The supervisor's part of the state.
    pub fn supervisor(&self) -> (supervisor: &Supervisor)
        ensures
            supervisor@ == self@.supervisor,
    {
        &self.supervisor
    }

    /// The indicator's part of the state.
    pub fn indicator(&self) -> (indicator: &InlineIndicator)
        ensures
            indicator@ == self@.indicator,
    {
        &self.indicator
    }

    /// Takes one cycle at clock reading `now_ms` on what was observed after
    /// the stack was serviced.
    pub fn tick(&mut self, seen: Observation, now_ms: u64) -> (outcome: PollOutcome)
        ensures
            (final(self)@, outcome) == polling_tick_spec(old(self)@, seen, now_ms),
    {
        let step = self.supervisor.tick(seen);
        let shown = self.supervisor.published();
        let toggle = self.indicator.poll(now_ms, shown);
        PollOutcome {
            phase: step.phase,
            toggle,
            report_network_ready: step.report_network_ready,
            report_radio_fault: step.report_radio_fault,
        }
    }
}

} // verus!
