use wifi_supervisor::indicator::LedState;
use wifi_supervisor::phase::{decide, needs_lease_probe};
use wifi_supervisor::phase::{ConnectivityPhase, Decision, Observation, RadioStatus};
use wifi_supervisor::supervisor::{Supervisor, TickOutcome, SUPERVISOR_PACING_MS};

fn fault() -> Observation {
    Observation { radio: RadioStatus::Fault, interface_up: false, lease_readable: false }
}

fn disconnected() -> Observation {
    Observation { radio: RadioStatus::Disconnected, interface_up: false, lease_readable: false }
}

fn associated_without_lease() -> Observation {
    Observation { radio: RadioStatus::Connected, interface_up: true, lease_readable: false }
}

fn associated_with_lease() -> Observation {
    Observation { radio: RadioStatus::Connected, interface_up: true, lease_readable: true }
}

fn phases(outcomes: &[TickOutcome]) -> Vec<ConnectivityPhase> {
    outcomes.iter().map(|outcome| outcome.phase).collect()
}

fn reports(outcomes: &[TickOutcome]) -> usize {
    outcomes.iter().filter(|outcome| outcome.report_network_ready).count()
}

#[test]
fn radio_status_is_classified_from_the_controller_answer() {
    assert_eq!(RadioStatus::from_reading::<()>(&Ok(true)), RadioStatus::Connected);
    assert_eq!(RadioStatus::from_reading::<()>(&Ok(false)), RadioStatus::Disconnected);
    assert_eq!(RadioStatus::from_reading(&Err::<bool, u8>(7)), RadioStatus::Fault);
}

#[test]
fn fault_resets_to_connecting_and_clears_the_flag() {
    let expected = Decision {
        phase: ConnectivityPhase::Connecting,
        lease_acquired: false,
        report_network_ready: false,
        report_radio_fault: true,
    };
    assert_eq!(decide(true, fault()), expected);
    assert_eq!(decide(false, fault()), expected);
    let with_stale_lease =
        Observation { radio: RadioStatus::Fault, interface_up: true, lease_readable: true };
    assert_eq!(decide(true, with_stale_lease), expected);
}

#[test]
fn disassociation_resets_to_connecting_and_clears_the_flag() {
    let expected = Decision {
        phase: ConnectivityPhase::Connecting,
        lease_acquired: false,
        report_network_ready: false,
        report_radio_fault: false,
    };
    assert_eq!(decide(true, disconnected()), expected);
    assert_eq!(decide(false, disconnected()), expected);
    let with_stale_lease =
        Observation { radio: RadioStatus::Disconnected, interface_up: true, lease_readable: true };
    assert_eq!(decide(true, with_stale_lease), expected);
}

#[test]
fn first_readable_lease_sets_the_flag_and_reports() {
    let decision = decide(false, associated_with_lease());
    assert_eq!(
        decision,
        Decision {
            phase: ConnectivityPhase::ConnectedWithAddress,
            lease_acquired: true,
            report_network_ready: true,
            report_radio_fault: false,
        }
    );
}

#[test]
fn acknowledged_lease_is_kept_without_a_second_report() {
    let expected = Decision {
        phase: ConnectivityPhase::ConnectedWithAddress,
        lease_acquired: true,
        report_network_ready: false,
        report_radio_fault: false,
    };
    assert_eq!(decide(true, associated_with_lease()), expected);
    assert_eq!(decide(true, associated_without_lease()), expected);
    let interface_down =
        Observation { radio: RadioStatus::Connected, interface_up: false, lease_readable: false };
    assert_eq!(decide(true, interface_down), expected);
}

#[test]
fn association_without_lease_is_the_intermediate_phase() {
    let expected = Decision {
        phase: ConnectivityPhase::Connected,
        lease_acquired: false,
        report_network_ready: false,
        report_radio_fault: false,
    };
    assert_eq!(decide(false, associated_without_lease()), expected);
    let interface_down =
        Observation { radio: RadioStatus::Connected, interface_up: false, lease_readable: true };
    assert_eq!(decide(false, interface_down), expected);
    let nothing =
        Observation { radio: RadioStatus::Connected, interface_up: false, lease_readable: false };
    assert_eq!(decide(false, nothing), expected);
}

#[test]
fn lease_is_probed_only_while_associated_and_unacknowledged() {
    assert!(needs_lease_probe(false, RadioStatus::Connected));
    assert!(!needs_lease_probe(true, RadioStatus::Connected));
    assert!(!needs_lease_probe(false, RadioStatus::Disconnected));
    assert!(!needs_lease_probe(true, RadioStatus::Disconnected));
    assert!(!needs_lease_probe(false, RadioStatus::Fault));
    assert!(!needs_lease_probe(true, RadioStatus::Fault));

    let mut supervisor = Supervisor::new();
    assert!(supervisor.needs_lease_probe(RadioStatus::Connected));
    supervisor.tick(associated_with_lease());
    assert!(!supervisor.needs_lease_probe(RadioStatus::Connected));
}

#[test]
fn phases_map_to_two_indicator_states() {
    assert_eq!(ConnectivityPhase::Connecting.indicator(), LedState::Connecting);
    assert_eq!(ConnectivityPhase::Connected.indicator(), LedState::Connecting);
    assert_eq!(ConnectivityPhase::ConnectedWithAddress.indicator(), LedState::Connected);
    assert!(
        ConnectivityPhase::Connecting.indicator().blink_period_ms()
            < ConnectivityPhase::ConnectedWithAddress.indicator().blink_period_ms()
    );
}

#[test]
fn supervisor_starts_connecting_with_nothing_acknowledged() {
    let supervisor = Supervisor::new();
    assert!(!supervisor.lease_acquired());
    assert_eq!(supervisor.published(), LedState::Connecting);
    assert_eq!(SUPERVISOR_PACING_MS, 10);
}

#[test]
fn fault_then_association_then_lease_reports_once() {
    let inputs =
        vec![fault(), disconnected(), associated_without_lease(), associated_with_lease()];
    let mut supervisor = Supervisor::new();
    let outcomes = supervisor.run(&inputs);
    assert_eq!(
        phases(&outcomes),
        vec![
            ConnectivityPhase::Connecting,
            ConnectivityPhase::Connecting,
            ConnectivityPhase::Connected,
            ConnectivityPhase::ConnectedWithAddress,
        ]
    );
    assert_eq!(reports(&outcomes), 1);
    assert!(outcomes[3].report_network_ready);
    assert!(outcomes[0].report_radio_fault);
    assert!(!outcomes[1].report_radio_fault);
    assert_eq!(outcomes[0].publish, None);
    assert_eq!(outcomes[1].publish, None);
    assert_eq!(outcomes[2].publish, None);
    assert_eq!(outcomes[3].publish, Some(LedState::Connected));
    assert!(supervisor.lease_acquired());
    assert_eq!(supervisor.published(), LedState::Connected);
}

#[test]
fn lease_is_reported_again_after_disassociation() {
    let inputs = vec![associated_with_lease(), disconnected(), associated_with_lease()];
    let mut supervisor = Supervisor::new();
    let outcomes = supervisor.run(&inputs);
    assert_eq!(
        phases(&outcomes),
        vec![
            ConnectivityPhase::ConnectedWithAddress,
            ConnectivityPhase::Connecting,
            ConnectivityPhase::ConnectedWithAddress,
        ]
    );
    assert_eq!(reports(&outcomes), 2);
    assert!(outcomes[0].report_network_ready);
    assert!(!outcomes[1].report_network_ready);
    assert!(outcomes[2].report_network_ready);
    assert_eq!(outcomes[0].publish, Some(LedState::Connected));
    assert_eq!(outcomes[1].publish, Some(LedState::Connecting));
    assert_eq!(outcomes[2].publish, Some(LedState::Connected));
}

#[test]
fn stale_lease_is_not_trusted_after_disassociation() {
    let mut supervisor = Supervisor::new();
    supervisor.tick(associated_with_lease());
    assert!(supervisor.lease_acquired());
    let lost = supervisor.tick(disconnected());
    assert_eq!(lost.phase, ConnectivityPhase::Connecting);
    assert!(!supervisor.lease_acquired());
    let back = supervisor.tick(associated_without_lease());
    assert_eq!(back.phase, ConnectivityPhase::Connected);
    assert!(!back.report_network_ready);
    assert_eq!(supervisor.published(), LedState::Connecting);
}

#[test]
fn fault_after_address_clears_the_flag() {
    let mut supervisor = Supervisor::new();
    supervisor.tick(associated_with_lease());
    let failed = supervisor.tick(fault());
    assert_eq!(failed.phase, ConnectivityPhase::Connecting);
    assert!(failed.report_radio_fault);
    assert_eq!(failed.publish, Some(LedState::Connecting));
    assert!(!supervisor.lease_acquired());
    let again = supervisor.tick(associated_with_lease());
    assert!(again.report_network_ready);
}

#[test]
fn repeated_address_cycles_report_once_and_publish_once() {
    let inputs = vec![
        associated_with_lease(),
        associated_with_lease(),
        associated_without_lease(),
        associated_with_lease(),
    ];
    let mut supervisor = Supervisor::new();
    let outcomes = supervisor.run(&inputs);
    assert_eq!(phases(&outcomes), vec![ConnectivityPhase::ConnectedWithAddress; 4]);
    assert_eq!(reports(&outcomes), 1);
    let stores = outcomes.iter().filter(|outcome| outcome.publish.is_some()).count();
    assert_eq!(stores, 1);
}

#[test]
fn same_inputs_give_the_same_run() {
    let inputs = vec![
        associated_without_lease(),
        associated_with_lease(),
        fault(),
        associated_with_lease(),
        disconnected(),
        associated_without_lease(),
    ];
    let mut first = Supervisor::new();
    let mut second = Supervisor::new();
    let once = first.run(&inputs);
    let twice = second.run(&inputs);
    assert_eq!(once, twice);
    assert_eq!(first.lease_acquired(), second.lease_acquired());
    assert_eq!(first.published(), second.published());
}

#[test]
fn run_is_tick_by_tick() {
    let inputs = vec![
        disconnected(),
        associated_with_lease(),
        associated_with_lease(),
        fault(),
    ];
    let mut stepped = Supervisor::new();
    let by_hand: Vec<TickOutcome> = inputs.iter().map(|seen| stepped.tick(*seen)).collect();
    let mut whole = Supervisor::new();
    assert_eq!(whole.run(&inputs), by_hand);
    assert_eq!(whole.run(&[]), Vec::<TickOutcome>::new());
    assert_eq!(whole.published(), stepped.published());
}

#[test]
fn address_phase_always_follows_a_lease_seen_since_connecting() {
    let inputs = vec![
        associated_with_lease(),
        disconnected(),
        associated_without_lease(),
        associated_without_lease(),
        associated_with_lease(),
        associated_without_lease(),
        fault(),
        associated_without_lease(),
    ];
    let mut supervisor = Supervisor::new();
    let outcomes = supervisor.run(&inputs);
    for (i, outcome) in outcomes.iter().enumerate() {
        if outcome.phase == ConnectivityPhase::ConnectedWithAddress {
            let since = (0..=i)
                .rev()
                .take_while(|k| outcomes[*k].phase != ConnectivityPhase::Connecting);
            let seen = since.into_iter().any(|k| {
                inputs[k].radio == RadioStatus::Connected
                    && inputs[k].interface_up
                    && inputs[k].lease_readable
            });
            assert!(seen);
        }
    }
    assert_eq!(
        phases(&outcomes),
        vec![
            ConnectivityPhase::ConnectedWithAddress,
            ConnectivityPhase::Connecting,
            ConnectivityPhase::Connected,
            ConnectivityPhase::Connected,
            ConnectivityPhase::ConnectedWithAddress,
            ConnectivityPhase::ConnectedWithAddress,
            ConnectivityPhase::Connecting,
            ConnectivityPhase::Connected,
        ]
    );
}
