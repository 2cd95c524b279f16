//! One supervision cycle as a pure decision: from what the radio and the
//! network stack report, and whether a lease was already acknowledged, to
//! the connectivity phase and what has to be reported.

use vstd::prelude::*;
use crate::indicator::LedState;

verus! {

/// What the radio controller answered when asked whether it is associated.
#[derive(Clone, Copy, Debug, PartialEq, Eq, Structural)]
pub enum RadioStatus {
    /// Associated with the access point.
    Connected,
    /// Not associated, or the association was lost.
    Disconnected,
    /// The status could not be read.
    Fault,
}

impl RadioStatus {
    /// The status that a controller's answer stands for.
    pub open spec fn of_reading<E>(reading: Result<bool, E>) -> RadioStatus {
        match reading {
            Ok(true) => RadioStatus::Connected,
            Ok(false) => RadioStatus::Disconnected,
            Err(_) => RadioStatus::Fault,
        }
    }

    /// Classifies a controller's answer; the error itself stays with the
    /// caller, who logs it.
    pub fn from_reading<E>(reading: &Result<bool, E>) -> (status: RadioStatus)
        ensures
            status == RadioStatus::of_reading(*reading),
    {
        match reading {
            Ok(true) => RadioStatus::Connected,
            Ok(false) => RadioStatus::Disconnected,
            Err(_) => RadioStatus::Fault,
        }
    }
}

/// Everything one cycle reads from the outside.
#[derive(Clone, Copy, Debug, PartialEq, Eq, Structural)]
pub struct Observation {
    /// The radio controller's answer.
    pub radio: RadioStatus,
    /// Whether the network interface reports link-level readiness.
    pub interface_up: bool,
    /// Whether the stack handed out an address configuration when asked.
    pub lease_readable: bool,
}

impl Observation {
    /// A lease counts as seen only while associated, with the interface up
    /// and the configuration readable.
    pub open spec fn shows_lease(self) -> bool {
        self.radio == RadioStatus::Connected && self.interface_up && self.lease_readable
    }
}

/// The supervisor's coarse classification of connectivity.
#[derive(Clone, Copy, Debug, PartialEq, Eq, Structural)]
pub enum ConnectivityPhase {
    /// Not associated, or the radio status could not be read.
    Connecting,
    /// Associated, no address confirmed yet.
    Connected,
    /// Associated, address confirmed.
    ConnectedWithAddress,
}

impl ConnectivityPhase {
    /// What the indicator shows in this phase. There are two cadences only:
    /// the slow one is kept for a confirmed address, and the phase between
    /// association and address blinks like `Connecting`.
    pub open spec fn indicator_spec(self) -> LedState {
        match self {
            ConnectivityPhase::ConnectedWithAddress => LedState::Connected,
            _ => LedState::Connecting,
        }
    }

    /// The indicator state that renders this phase.
    pub fn indicator(self) -> (state: LedState)
        ensures
            state == self.indicator_spec(),
    {
        match self {
            ConnectivityPhase::ConnectedWithAddress => LedState::Connected,
            _ => LedState::Connecting,
        }
    }
}

/// There are two cadences and no third: a confirmed address blinks strictly
/// slower than `Connecting`, and the phase in between blinks like
/// `Connecting`.
pub proof fn lemma_two_cadences()
    ensures
        ConnectivityPhase::Connecting.indicator_spec().period_ms()
            < ConnectivityPhase::ConnectedWithAddress.indicator_spec().period_ms(),
        ConnectivityPhase::Connected.indicator_spec()
            == ConnectivityPhase::Connecting.indicator_spec(),
{
}

/// What one cycle decides.
#[derive(Clone, Copy, Debug, PartialEq, Eq, Structural)]
pub struct Decision {
    /// The phase of this cycle.
    pub phase: ConnectivityPhase,
    /// The lease-acknowledged flag to carry into the next cycle.
    pub lease_acquired: bool,
    /// Whether the "network ready" line is due now.
    pub report_network_ready: bool,
    /// Whether a failed status read is to be logged.
    pub report_radio_fault: bool,
}

/// Whether the stack has to be asked about the interface and the lease in
/// this cycle: only while associated and with no lease acknowledged yet.
pub open spec fn needs_lease_probe_spec(lease_acquired: bool, radio: RadioStatus) -> bool {
    radio == RadioStatus::Connected && !lease_acquired
}

/// The decision table. A fault or a lost association resets to
/// `Connecting` and drops the flag, whatever was known of a lease. While
/// associated, a set flag is kept; an unset one is set, and reported, in
/// the cycle that shows a lease.
pub open spec fn decide_spec(lease_acquired: bool, seen: Observation) -> Decision {
    match seen.radio {
        RadioStatus::Fault => Decision {
            phase: ConnectivityPhase::Connecting,
            lease_acquired: false,
            report_network_ready: false,
            report_radio_fault: true,
        },
        RadioStatus::Disconnected => Decision {
            phase: ConnectivityPhase::Connecting,
            lease_acquired: false,
            report_network_ready: false,
            report_radio_fault: false,
        },
        RadioStatus::Connected => if lease_acquired {
            Decision {
                phase: ConnectivityPhase::ConnectedWithAddress,
                lease_acquired: true,
                report_network_ready: false,
                report_radio_fault: false,
            }
        } else if seen.interface_up && seen.lease_readable {
            Decision {
                phase: ConnectivityPhase::ConnectedWithAddress,
                lease_acquired: true,
                report_network_ready: true,
                report_radio_fault: false,
            }
        } else {
            Decision {
                phase: ConnectivityPhase::Connected,
                lease_acquired: false,
                report_network_ready: false,
                report_radio_fault: false,
            }
        },
    }
}

/// Tells whether this cycle has to probe the stack for a lease.
pub fn needs_lease_probe(lease_acquired: bool, radio: RadioStatus) -> (needed: bool)
    ensures
        needed == needs_lease_probe_spec(lease_acquired, radio),
{
    match radio {
        RadioStatus::Connected => !lease_acquired,
        _ => false,
    }
}

/// Evaluates the decision table for one cycle.
pub fn decide(lease_acquired: bool, seen: Observation) -> (decision: Decision)
    ensures
        decision == decide_spec(lease_acquired, seen),
{
    match seen.radio {
        RadioStatus::Fault => Decision {
            phase: ConnectivityPhase::Connecting,
            lease_acquired: false,
            report_network_ready: false,
            report_radio_fault: true,
        },
        RadioStatus::Disconnected => Decision {
            phase: ConnectivityPhase::Connecting,
            lease_acquired: false,
            report_network_ready: false,
            report_radio_fault: false,
        },
        RadioStatus::Connected => {
            let fresh: bool = !lease_acquired && seen.interface_up && seen.lease_readable;
            let acquired: bool = lease_acquired || fresh;
            Decision {
                phase: if acquired {
                    ConnectivityPhase::ConnectedWithAddress
                } else {
                    ConnectivityPhase::Connected
                },
                lease_acquired: acquired,
                report_network_ready: fresh,
                report_radio_fault: false,
            }
        },
    }
}

/// The phase is `Connecting` exactly when the radio is not associated, and
/// then no lease is trusted any more, whatever the flag was before.
pub proof fn lemma_disassociation_resets(lease_acquired: bool, seen: Observation)
    ensures
        decide_spec(lease_acquired, seen).phase == ConnectivityPhase::Connecting
            <==> seen.radio != RadioStatus::Connected,
        seen.radio != RadioStatus::Connected ==> !decide_spec(lease_acquired, seen).lease_acquired,
{
}

/// The flag carried forward says exactly that the phase is
/// `ConnectedWithAddress`, and a fault is reported exactly for a failed read.
pub proof fn lemma_flag_tracks_phase(lease_acquired: bool, seen: Observation)
    ensures
        decide_spec(lease_acquired, seen).lease_acquired
            <==> decide_spec(lease_acquired, seen).phase == ConnectivityPhase::ConnectedWithAddress,
        decide_spec(lease_acquired, seen).report_radio_fault <==> seen.radio == RadioStatus::Fault,
{
}

/// The "network ready" line is due exactly on the rising edge of the flag,
/// and a rising edge needs a lease shown in that very cycle.
pub proof fn lemma_report_on_rising_edge(lease_acquired: bool, seen: Observation)
    ensures
        decide_spec(lease_acquired, seen).report_network_ready
            <==> (!lease_acquired && decide_spec(lease_acquired, seen).lease_acquired),
        decide_spec(lease_acquired, seen).report_network_ready ==> seen.shows_lease(),
{
}

/// In a cycle that needs no probe the decision does not read what the stack
/// would have answered, so the probe may be skipped.
pub proof fn lemma_unprobed_answers_ignored(lease_acquired: bool, a: Observation, b: Observation)
    requires
        a.radio == b.radio,
        !needs_lease_probe_spec(lease_acquired, a.radio),
    ensures
        decide_spec(lease_acquired, a) == decide_spec(lease_acquired, b),
{
}

/// With the interface down the lease is not read at all.
pub proof fn lemma_lease_unread_while_down(lease_acquired: bool, a: Observation, b: Observation)
    requires
        a.radio == b.radio,
        !a.interface_up,
        !b.interface_up,
    ensures
        decide_spec(lease_acquired, a) == decide_spec(lease_acquired, b),
{
}

} // verus!
