//! The connection supervisor: the state carried from cycle to cycle, the
//! step that one cycle takes, and what holds of every run of cycles.

use vstd::prelude::*;
use crate::indicator::LedState;
use crate::phase::{decide, decide_spec, needs_lease_probe, needs_lease_probe_spec};
use crate::phase::{ConnectivityPhase, Observation, RadioStatus};

verus! {

/// Pause between two supervision cycles, in milliseconds. It bounds how late
/// a change of phase reaches the indicator and how long the stack waits to
/// be serviced.
pub const SUPERVISOR_PACING_MS: u64 = 10;

/// The supervisor's state as contracts see it.
pub struct SupervisorState {
    /// Whether a lease has been acknowledged since the last association.
    pub lease_acquired: bool,
    /// The indicator state that was published last.
    pub published: LedState,
}

/// What the caller has to do after one cycle.
#[derive(Clone, Copy, Debug, PartialEq, Eq, Structural)]
pub struct TickOutcome {
    /// The phase of this cycle.
    pub phase: ConnectivityPhase,
    /// The indicator state to store in the shared cell, if it changed.
    pub publish: Option<LedState>,
    /// Whether the "network ready" line is to be printed now.
    pub report_network_ready: bool,
    /// Whether the failed status read is to be logged.
    pub report_radio_fault: bool,
}

/// The state before the first cycle: nothing acknowledged, fast blink.
pub open spec fn initial_state() -> SupervisorState {
    SupervisorState { lease_acquired: false, published: LedState::Connecting }
}

/// One cycle: the decision table gives the phase and the reports, only the
/// flag is carried over, and the indicator state is published if and only
/// if it differs from the one published last.
pub open spec fn tick_spec(before: SupervisorState, seen: Observation) -> (
    SupervisorState,
    TickOutcome,
) {
    let decision = decide_spec(before.lease_acquired, seen);
    let shown = decision.phase.indicator_spec();
    (
        SupervisorState { lease_acquired: decision.lease_acquired, published: shown },
        TickOutcome {
            phase: decision.phase,
            publish: if shown != before.published {
                Some(shown)
            } else {
                None
            },
            report_network_ready: decision.report_network_ready,
            report_radio_fault: decision.report_radio_fault,
        },
    )
}

/// The state after a run of cycles.
pub open spec fn run_spec(start: SupervisorState, inputs: Seq<Observation>) -> SupervisorState
    decreases inputs.len(),
{
    if inputs.len() == 0 {
        start
    } else {
        tick_spec(run_spec(start, inputs.drop_last()), inputs.last()).0
    }
}

/// What cycle `i` of a run hands to the caller.
pub open spec fn outcome_at(start: SupervisorState, inputs: Seq<Observation>, i: int) -> TickOutcome
    recommends
        0 <= i < inputs.len(),
{
    tick_spec(run_spec(start, inputs.take(i)), inputs[i]).1
}

/// The connection supervisor. It only reacts to what it is shown: it never
/// decides to reconnect.
pub struct Supervisor {
    lease_acquired: bool,
    published: LedState,
}

impl View for Supervisor {
    type V = SupervisorState;

    closed spec fn view(&self) -> SupervisorState {
        SupervisorState { lease_acquired: self.lease_acquired, published: self.published }
    }
}

impl Supervisor {
    /// The slow blink is published exactly while a lease is acknowledged.
    #[verifier::type_invariant]
    spec fn consistent(self) -> bool {
        self.published == if self.lease_acquired {
            LedState::Connected
        } else {
            LedState::Connecting
        }
    }

    /// A supervisor before its first cycle.
    pub fn new() -> (supervisor: Supervisor)
        ensures
            supervisor@ == initial_state(),
    {
        Supervisor { lease_acquired: false, published: LedState::Connecting }
    }

    /// Whether a lease has been acknowledged since the last association.
    pub fn lease_acquired(&self) -> (flag: bool)
        ensures
            flag == self@.lease_acquired,
    {
        self.lease_acquired
    }

    /// The indicator state published last; it is the slow blink exactly
    /// while a lease is acknowledged.
    pub fn published(&self) -> (state: LedState)
        ensures
            state == self@.published,
            state == LedState::Connected <==> self@.lease_acquired,
    {
        proof {
            use_type_invariant(self);
        }
        self.published
    }

    /// Whether the coming cycle has to ask the stack about the interface and
    /// the lease, given the radio's answer. Where it need not, any answer
    /// may stand in the observation.
    pub fn needs_lease_probe(&self, radio: RadioStatus) -> (needed: bool)
        ensures
            needed == needs_lease_probe_spec(self@.lease_acquired, radio),
    {
        needs_lease_probe(self.lease_acquired, radio)
    }

    /// Takes one cycle on what was observed after the stack was serviced.
    pub fn tick(&mut self, seen: Observation) -> (outcome: TickOutcome)
        ensures
            (final(self)@, outcome) == tick_spec(old(self)@, seen),
    {
        let decision = decide(self.lease_acquired, seen);
        let shown = decision.phase.indicator();
        let publish = if shown != self.published {
            Some(shown)
        } else {
            None
        };
        *self = Supervisor { lease_acquired: decision.lease_acquired, published: shown };
        TickOutcome {
            phase: decision.phase,
            publish,
            report_network_ready: decision.report_network_ready,
            report_radio_fault: decision.report_radio_fault,
        }
    }

    /// Takes one cycle per observation, in order, and collects the outcomes.
    pub fn run(&mut self, inputs: &[Observation]) -> (outcomes: Vec<TickOutcome>)
        ensures
            final(self)@ == run_spec(old(self)@, inputs@),
            outcomes@.len() == inputs@.len(),
            forall|i: int|
                0 <= i < inputs@.len() ==> #[trigger] outcomes@[i] == outcome_at(
                    old(self)@,
                    inputs@,
                    i,
                ),
    {
        let ghost start = self@;
        let mut outcomes: Vec<TickOutcome> = Vec::new();
        let mut done: usize = 0;
        proof {
            assert(inputs@.take(0) =~= Seq::<Observation>::empty());
        }
        while done < inputs.len()
            invariant
                done <= inputs@.len(),
                self@ == run_spec(start, inputs@.take(done as int)),
                outcomes@.len() == done,
                forall|i: int|
                    0 <= i < done ==> #[trigger] outcomes@[i] == outcome_at(start, inputs@, i),
            decreases inputs@.len() - done,
        {
            proof {
                let grown = inputs@.take(done + 1);
                assert(grown.drop_last() =~= inputs@.take(done as int));
                assert(grown.last() == inputs@[done as int]);
            }
            let outcome = self.tick(inputs[done]);
            outcomes.push(outcome);
            done = done + 1;
        }
        proof {
            assert(inputs@.take(done as int) =~= inputs@);
        }
        outcomes
    }
}

/// Before the first cycle the supervisor takes the indicator to show what
/// an untouched cell reads as, so the first store is owed only to a change.
pub proof fn lemma_initial_state_matches_cell()
    ensures
        initial_state().published == LedState::decode(crate::indicator::INITIAL_CELL),
{
}

/// The phase and the reports of a cycle depend on the state before it only
/// through the lease-acknowledged flag, and on nothing else but that
/// cycle's observation.
pub proof fn lemma_phase_reads_flag_and_observation(
    a: SupervisorState,
    b: SupervisorState,
    seen: Observation,
)
    requires
        a.lease_acquired == b.lease_acquired,
    ensures
        tick_spec(a, seen).1.phase == decide_spec(a.lease_acquired, seen).phase,
        tick_spec(a, seen).1.phase == tick_spec(b, seen).1.phase,
        tick_spec(a, seen).1.report_network_ready == tick_spec(b, seen).1.report_network_ready,
        tick_spec(a, seen).1.report_radio_fault == tick_spec(b, seen).1.report_radio_fault,
        tick_spec(a, seen).0 == tick_spec(b, seen).0,
{
}

/// Two runs from the same state over the same observations agree cycle by
/// cycle, and end in the same state.
pub proof fn lemma_same_inputs_same_run(
    start: SupervisorState,
    first: Seq<Observation>,
    second: Seq<Observation>,
    i: int,
)
    requires
        first.len() == second.len(),
        forall|k: int| 0 <= k < first.len() ==> first[k] == second[k],
        0 <= i < first.len(),
    ensures
        outcome_at(start, first, i) == outcome_at(start, second, i),
        run_spec(start, first) == run_spec(start, second),
{
    assert(first =~= second);
}

/// A cycle of a run sees of all earlier cycles only the flag they left.
pub proof fn lemma_cycle_reads_flag_left_behind(
    start: SupervisorState,
    inputs: Seq<Observation>,
    i: int,
)
    requires
        0 <= i < inputs.len(),
    ensures
        outcome_at(start, inputs, i).phase == decide_spec(
            run_spec(start, inputs.take(i)).lease_acquired,
            inputs[i],
        ).phase,
        run_spec(start, inputs.take(i + 1)) == tick_spec(
            run_spec(start, inputs.take(i)),
            inputs[i],
        ).0,
{
    let grown = inputs.take(i + 1);
    assert(grown.drop_last() =~= inputs.take(i));
    assert(grown.last() == inputs[i]);
}

/// After any cycle the published indicator state renders that cycle's
/// phase, and it was handed out for storing exactly if it changed.
pub proof fn lemma_published_renders_phase(before: SupervisorState, seen: Observation)
    ensures
        tick_spec(before, seen).0.published == tick_spec(before, seen).1.phase.indicator_spec(),
        tick_spec(before, seen).1.publish is Some <==> tick_spec(before, seen).0.published
            != before.published,
        tick_spec(before, seen).1.publish is Some ==> tick_spec(before, seen).1.publish
            == Some(tick_spec(before, seen).0.published),
{
}

/// Showing the same observation again publishes nothing: one store per
/// change of the indicator state.
pub proof fn lemma_no_redundant_publish(before: SupervisorState, seen: Observation)
    ensures
        ({
            let once = tick_spec(before, seen).0;
            tick_spec(once, seen).1.publish is None
        }),
{
}

/// A flag that is set after `n` cycles was either set from the start or set
/// by a cycle that showed a lease, and the radio has stayed associated in
/// every cycle since.
pub proof fn lemma_flag_has_witness(start: SupervisorState, inputs: Seq<Observation>, n: int)
    requires
        0 <= n <= inputs.len(),
        run_spec(start, inputs.take(n)).lease_acquired,
    ensures
        (start.lease_acquired && forall|k: int|
            0 <= k < n ==> (#[trigger] inputs[k]).radio == RadioStatus::Connected) || exists|j: int|
            0 <= j < n && (#[trigger] inputs[j]).shows_lease() && forall|k: int|
                j <= k < n ==> (#[trigger] inputs[k]).radio == RadioStatus::Connected,
    decreases n,
{
    if n == 0 {
        assert(inputs.take(0) =~= Seq::<Observation>::empty());
    } else {
        let grown = inputs.take(n);
        assert(grown.drop_last() =~= inputs.take(n - 1));
        assert(grown.last() == inputs[n - 1]);
        let earlier = run_spec(start, inputs.take(n - 1));
        assert(inputs[n - 1].radio == RadioStatus::Connected);
        if earlier.lease_acquired {
            lemma_flag_has_witness(start, inputs, n - 1);
            if start.lease_acquired && forall|k: int|
                0 <= k < n - 1 ==> (#[trigger] inputs[k]).radio == RadioStatus::Connected {
                assert forall|k: int| 0 <= k < n implies (#[trigger] inputs[k]).radio
                    == RadioStatus::Connected by {
                    if k < n - 1 {
                    }
                }
            } else {
                let j = choose|j: int|
                    0 <= j < n - 1 && (#[trigger] inputs[j]).shows_lease() && forall|k: int|
                        j <= k < n - 1 ==> (#[trigger] inputs[k]).radio == RadioStatus::Connected;
                assert forall|k: int| j <= k < n implies (#[trigger] inputs[k]).radio
                    == RadioStatus::Connected by {
                    if k < n - 1 {
                    }
                }
                assert(0 <= j < n && inputs[j].shows_lease());
            }
        } else {
            assert(inputs[n - 1].shows_lease());
            assert forall|k: int| n - 1 <= k < n implies (#[trigger] inputs[k]).radio
                == RadioStatus::Connected by {
            }
        }
    }
}

/// From a fresh start, a cycle reports `ConnectedWithAddress` only if some
/// cycle up to it showed a lease and no cycle since then was `Connecting`:
/// a lease seen before a disassociation is never trusted after it.
pub proof fn lemma_address_needs_lease_since_connecting(inputs: Seq<Observation>, i: int)
    requires
        0 <= i < inputs.len(),
        outcome_at(initial_state(), inputs, i).phase == ConnectivityPhase::ConnectedWithAddress,
    ensures
        exists|j: int|
            0 <= j <= i && (#[trigger] inputs[j]).shows_lease() && forall|k: int|
                j <= k <= i ==> (#[trigger] outcome_at(initial_state(), inputs, k)).phase
                    != ConnectivityPhase::Connecting,
{
    let start = initial_state();
    lemma_cycle_reads_flag_left_behind(start, inputs, i);
    lemma_flag_has_witness(start, inputs, i + 1);
    let j = choose|j: int|
        0 <= j < i + 1 && (#[trigger] inputs[j]).shows_lease() && forall|k: int|
            j <= k < i + 1 ==> (#[trigger] inputs[k]).radio == RadioStatus::Connected;
    assert forall|k: int| j <= k <= i implies (#[trigger] outcome_at(start, inputs, k)).phase
        != ConnectivityPhase::Connecting by {
        assert(inputs[k].radio == RadioStatus::Connected);
    }
    assert(0 <= j <= i && inputs[j].shows_lease());
}

/// The "network ready" report of a run fires in exactly those cycles in
/// which the flag goes from unset to set, so never in a cycle that follows
/// one with `ConnectedWithAddress`.
pub proof fn lemma_one_report_per_rising_edge(
    start: SupervisorState,
    inputs: Seq<Observation>,
    i: int,
)
    requires
        0 <= i < inputs.len(),
    ensures
        outcome_at(start, inputs, i).report_network_ready <==> (!run_spec(
            start,
            inputs.take(i),
        ).lease_acquired && run_spec(start, inputs.take(i + 1)).lease_acquired),
        i > 0 && outcome_at(start, inputs, i - 1).phase == ConnectivityPhase::ConnectedWithAddress
            ==> !outcome_at(start, inputs, i).report_network_ready,
{
    lemma_cycle_reads_flag_left_behind(start, inputs, i);
    if i > 0 {
        lemma_cycle_reads_flag_left_behind(start, inputs, i - 1);
    }
}

} // verus!
