use smart_hot_water_tank::connectivity::Address;
use smart_hot_water_tank::connectivity::ConnectivityStatus;
use smart_hot_water_tank::network::Action;
use smart_hot_water_tank::network::Event;
use smart_hot_water_tank::network::LinkError;
use smart_hot_water_tank::network::NetworkManager;
use smart_hot_water_tank::network::Phase;
use smart_hot_water_tank::network::Report;
use smart_hot_water_tank::network::Step;
use smart_hot_water_tank::network::PROBE_PERIOD_MS;
use smart_hot_water_tank::network::RETRY_DELAY_MS;
use smart_hot_water_tank::reading::TemperatureReading;
use smart_hot_water_tank::store::SharedStateStore;
use smart_hot_water_tank::store::StoreSnapshot;
use smart_hot_water_tank::telemetry::TelemetrySample;
use smart_hot_water_tank::telemetry::TransportError;

const HOME: Address = Address(192, 168, 1, 20);

fn reading() -> TemperatureReading {
    TemperatureReading::from_centi(2300)
}

fn connected_manager() -> NetworkManager {
    let mut m = NetworkManager::new();
    m.step(Event::Started, reading());
    m.step(Event::Associated, reading());
    m.step(Event::LeaseAcquired(HOME), reading());
    m.step(Event::ClockSynced, reading());
    m
}

#[test]
fn delays_are_fixed() {
    assert_eq!(RETRY_DELAY_MS, 1000);
    assert_eq!(PROBE_PERIOD_MS, 10000);
}

#[test]
fn manager_starts_idle_and_disconnected() {
    let m = NetworkManager::new();
    assert_eq!(m.current_phase(), Phase::Idle);
    assert_eq!(m.status(), ConnectivityStatus::Disconnected);
    assert!(!m.upload_in_flight());
    assert_eq!(m.pending(reading()), Action::Restart);
}

#[test]
fn connect_sequence_runs_association_lease_and_clock_sync() {
    let mut m = NetworkManager::new();
    assert_eq!(
        m.step(Event::Started, reading()),
        Step { action: Action::Associate, report: None }
    );
    assert_eq!(m.status(), ConnectivityStatus::Connecting);
    assert_eq!(
        m.step(Event::Associated, reading()),
        Step { action: Action::AcquireLease, report: None }
    );
    assert_eq!(m.status(), ConnectivityStatus::Connecting);
    assert_eq!(
        m.step(Event::LeaseAcquired(HOME), reading()),
        Step { action: Action::SyncClock, report: None }
    );
    assert_eq!(m.current_phase(), Phase::Synchronizing(HOME));
    assert_eq!(m.status(), ConnectivityStatus::Connecting);
    assert_eq!(
        m.step(Event::ClockSynced, reading()),
        Step { action: Action::Wait(10000), report: None }
    );
    assert_eq!(m.status(), ConnectivityStatus::Connected(HOME));
    assert!(!m.upload_in_flight());
}

#[test]
fn live_probe_leads_to_an_upload_of_whole_degrees() {
    let mut m = connected_manager();
    assert_eq!(m.step(Event::TimerElapsed, reading()), Step { action: Action::Probe, report: None });
    assert!(!m.upload_in_flight());
    let step = m.step(Event::ProbeAlive(HOME), TemperatureReading::from_centi(2300));
    assert_eq!(step, Step { action: Action::Upload(TelemetrySample { temp: 23 }), report: None });
    assert!(m.upload_in_flight());
    assert_eq!(m.status(), ConnectivityStatus::Connected(HOME));
    assert_eq!(
        m.step(Event::UploadSucceeded, reading()),
        Step { action: Action::Wait(10000), report: None }
    );
    assert!(!m.upload_in_flight());
    assert_eq!(m.current_phase(), Phase::Monitoring(HOME));
}

#[test]
fn live_probe_refreshes_the_address() {
    let mut m = connected_manager();
    m.step(Event::TimerElapsed, reading());
    let moved = Address(192, 168, 1, 77);
    m.step(Event::ProbeAlive(moved), reading());
    assert_eq!(m.status(), ConnectivityStatus::Connected(moved));
    m.step(Event::UploadSucceeded, reading());
    assert_eq!(m.status(), ConnectivityStatus::Connected(moved));
}

#[test]
fn live_probe_without_an_address_keeps_the_last_one() {
    let mut m = connected_manager();
    m.step(Event::TimerElapsed, reading());
    let step = m.step(Event::ProbeAlive(Address(0, 0, 0, 0)), reading());
    assert!(matches!(step.action, Action::Upload(_)));
    assert_eq!(m.status(), ConnectivityStatus::Connected(HOME));
    assert!(m.status().is_well_formed());
}

#[test]
fn failed_upload_is_reported_and_leaves_the_link_connected() {
    let failures: Vec<TransportError> =
        vec![TransportError::Timeout, TransportError::Refused, TransportError::Status(500)];
    for failure in failures {
        let mut m = connected_manager();
        m.step(Event::TimerElapsed, reading());
        m.step(Event::ProbeAlive(HOME), reading());
        assert!(m.upload_in_flight());
        let step = m.step(Event::UploadFailed(failure), reading());
        assert_eq!(
            step,
            Step { action: Action::Wait(10000), report: Some(Report::UploadFailed(failure)) }
        );
        assert!(!m.upload_in_flight());
        assert_eq!(m.status(), ConnectivityStatus::Connected(HOME));
        assert_eq!(m.step(Event::TimerElapsed, reading()).action, Action::Probe);
    }
}

#[test]
fn dead_probe_disconnects_and_starts_a_fresh_attempt() {
    let mut m = connected_manager();
    m.step(Event::TimerElapsed, reading());
    let lost = m.step(Event::ProbeDead, reading());
    assert_eq!(lost, Step { action: Action::Restart, report: Some(Report::LinkLost) });
    assert_eq!(m.status(), ConnectivityStatus::Disconnected);
    assert!(!m.upload_in_flight());
    let again = m.step(Event::Started, reading());
    assert_eq!(again, Step { action: Action::Associate, report: None });
    assert_eq!(m.status(), ConnectivityStatus::Connecting);
    assert!(!m.upload_in_flight());
    m.step(Event::Associated, reading());
    m.step(Event::LeaseAcquired(HOME), reading());
    assert_eq!(m.step(Event::ClockSynced, reading()).action, Action::Wait(10000));
    assert_eq!(m.status(), ConnectivityStatus::Connected(HOME));
}

#[test]
fn association_failure_is_retried_after_the_delay() {
    let mut m = NetworkManager::new();
    m.step(Event::Started, reading());
    assert_eq!(
        m.step(Event::StageFailed, reading()),
        Step {
            action: Action::Wait(1000),
            report: Some(Report::LinkFailed(LinkError::Association)),
        }
    );
    assert_eq!(m.status(), ConnectivityStatus::Connecting);
    assert_eq!(
        m.step(Event::TimerElapsed, reading()),
        Step { action: Action::Associate, report: None }
    );
}

#[test]
fn lease_failure_is_retried_from_the_association() {
    let mut m = NetworkManager::new();
    m.step(Event::Started, reading());
    m.step(Event::Associated, reading());
    assert_eq!(
        m.step(Event::StageFailed, reading()),
        Step {
            action: Action::Wait(1000),
            report: Some(Report::LinkFailed(LinkError::AddressLease)),
        }
    );
    assert_eq!(m.step(Event::TimerElapsed, reading()).action, Action::Associate);
}

#[test]
fn lease_of_the_unset_address_counts_as_a_failure() {
    let mut m = NetworkManager::new();
    m.step(Event::Started, reading());
    m.step(Event::Associated, reading());
    assert_eq!(
        m.step(Event::LeaseAcquired(Address(0, 0, 0, 0)), reading()),
        Step {
            action: Action::Wait(1000),
            report: Some(Report::LinkFailed(LinkError::AddressLease)),
        }
    );
    assert_eq!(m.status(), ConnectivityStatus::Connecting);
}

#[test]
fn clock_sync_failure_is_retried_from_the_association() {
    let mut m = NetworkManager::new();
    m.step(Event::Started, reading());
    m.step(Event::Associated, reading());
    m.step(Event::LeaseAcquired(HOME), reading());
    assert_eq!(
        m.step(Event::StageFailed, reading()),
        Step { action: Action::Wait(1000), report: Some(Report::LinkFailed(LinkError::ClockSync)) }
    );
    assert_eq!(m.status(), ConnectivityStatus::Connecting);
    assert_eq!(m.step(Event::TimerElapsed, reading()).action, Action::Associate);
}

#[test]
fn a_thousand_failed_attempts_leave_the_task_attempting() {
    let mut m = NetworkManager::new();
    assert_eq!(m.step(Event::Started, reading()).action, Action::Associate);
    let mut i: u32 = 0;
    while i < 1000 {
        let kind: u32 = i % 3;
        if kind >= 1 {
            assert_eq!(m.step(Event::Associated, reading()).action, Action::AcquireLease);
        }
        if kind == 2 {
            assert_eq!(m.step(Event::LeaseAcquired(HOME), reading()).action, Action::SyncClock);
        }
        let failed = m.step(Event::StageFailed, reading());
        assert_eq!(failed.action, Action::Wait(RETRY_DELAY_MS));
        assert!(matches!(failed.report, Some(Report::LinkFailed(_))));
        assert_eq!(m.status(), ConnectivityStatus::Connecting);
        assert_eq!(m.step(Event::TimerElapsed, reading()).action, Action::Associate);
        assert_eq!(m.current_phase(), Phase::Associating);
        i += 1;
    }
    m.step(Event::Associated, reading());
    m.step(Event::LeaseAcquired(HOME), reading());
    m.step(Event::ClockSynced, reading());
    assert_eq!(m.status(), ConnectivityStatus::Connected(HOME));
}

#[test]
fn events_that_a_phase_does_not_wait_for_change_nothing() {
    let mut m = NetworkManager::new();
    assert_eq!(
        m.step(Event::UploadSucceeded, reading()),
        Step { action: Action::Restart, report: None }
    );
    assert_eq!(m.current_phase(), Phase::Idle);
    m.step(Event::Started, reading());
    assert_eq!(
        m.step(Event::ProbeDead, reading()),
        Step { action: Action::Associate, report: None }
    );
    assert_eq!(
        m.step(Event::ClockSynced, reading()),
        Step { action: Action::Associate, report: None }
    );
    assert_eq!(m.current_phase(), Phase::Associating);
    let mut up = connected_manager();
    assert_eq!(
        up.step(Event::StageFailed, reading()),
        Step { action: Action::Wait(10000), report: None }
    );
    assert_eq!(
        up.step(Event::UploadFailed(TransportError::Timeout), reading()),
        Step { action: Action::Wait(10000), report: None }
    );
    assert_eq!(up.status(), ConnectivityStatus::Connected(HOME));
}

#[test]
fn status_never_skips_connecting() {
    let events: Vec<Event> = vec![
        Event::Started,
        Event::ClockSynced,
        Event::ProbeAlive(HOME),
        Event::Associated,
        Event::StageFailed,
        Event::TimerElapsed,
        Event::Associated,
        Event::LeaseAcquired(HOME),
        Event::ClockSynced,
        Event::TimerElapsed,
        Event::ProbeAlive(Address(0, 0, 0, 0)),
        Event::UploadFailed(TransportError::Refused),
        Event::TimerElapsed,
        Event::ProbeDead,
        Event::TimerElapsed,
        Event::Started,
    ];
    let mut m = NetworkManager::new();
    let mut before = m.status();
    for event in events {
        m.step(event, reading());
        let after = m.status();
        let allowed = match (before, after) {
            (ConnectivityStatus::Disconnected, ConnectivityStatus::Disconnected) => true,
            (ConnectivityStatus::Disconnected, ConnectivityStatus::Connecting) => true,
            (ConnectivityStatus::Connecting, ConnectivityStatus::Connecting) => true,
            (ConnectivityStatus::Connecting, ConnectivityStatus::Connected(_)) => true,
            (ConnectivityStatus::Connected(_), ConnectivityStatus::Connected(_)) => true,
            (ConnectivityStatus::Connected(_), ConnectivityStatus::Disconnected) => true,
            _ => false,
        };
        assert!(allowed);
        assert!(after.is_well_formed());
        before = after;
    }
    assert_eq!(before, ConnectivityStatus::Connecting);
}

#[test]
fn run_step_publishes_status_and_flag_to_the_store() {
    let mut store = SharedStateStore::new();
    store.set_temperature(TemperatureReading::from_centi(4711));
    let mut m = NetworkManager::new();
    assert_eq!(m.run_step(&mut store, Event::Started).action, Action::Associate);
    assert_eq!(store.get_connectivity(), ConnectivityStatus::Connecting);
    m.run_step(&mut store, Event::Associated);
    m.run_step(&mut store, Event::LeaseAcquired(HOME));
    assert_eq!(store.get_connectivity(), ConnectivityStatus::Connecting);
    assert_eq!(m.run_step(&mut store, Event::ClockSynced).action, Action::Wait(10000));
    assert_eq!(store.get_connectivity(), ConnectivityStatus::Connected(HOME));
    assert!(!store.get_upload_flag());
    assert_eq!(m.run_step(&mut store, Event::TimerElapsed).action, Action::Probe);
    let step = m.run_step(&mut store, Event::ProbeAlive(HOME));
    assert_eq!(step.action, Action::Upload(TelemetrySample { temp: 47 }));
    assert!(store.get_upload_flag());
    let done = m.run_step(&mut store, Event::UploadFailed(TransportError::Status(500)));
    assert_eq!(done.report, Some(Report::UploadFailed(TransportError::Status(500))));
    assert!(!store.get_upload_flag());
    assert_eq!(store.get_connectivity(), ConnectivityStatus::Connected(HOME));
    m.run_step(&mut store, Event::TimerElapsed);
    let lost = m.run_step(&mut store, Event::ProbeDead);
    assert_eq!(lost, Step { action: Action::Restart, report: Some(Report::LinkLost) });
    assert_eq!(store.get_connectivity(), ConnectivityStatus::Disconnected);
    assert!(!store.get_upload_flag());
    assert_eq!(m.run_step(&mut store, Event::Started).action, Action::Associate);
    assert_eq!(store.get_connectivity(), ConnectivityStatus::Connecting);
    assert_eq!(store.get_temperature().centi(), 4711);
}

#[test]
fn run_step_takes_the_upload_from_the_store_and_leaves_the_temperature() {
    let mut store = SharedStateStore::new();
    let mut m = connected_manager();
    m.run_step(&mut store, Event::TimerElapsed);
    store.set_temperature(TemperatureReading::from_centi(-525));
    let step = m.run_step(&mut store, Event::ProbeAlive(HOME));
    assert_eq!(step.action, Action::Upload(TelemetrySample { temp: -5 }));
    assert_eq!(
        store.snapshot(),
        StoreSnapshot {
            temperature: TemperatureReading::from_centi(-525),
            connectivity: ConnectivityStatus::Connected(HOME),
            upload_in_flight: true,
        }
    );
}

#[test]
fn advance_and_pending_make_up_a_step() {
    let mut a = NetworkManager::new();
    let mut b = NetworkManager::new();
    let events: Vec<Event> = vec![
        Event::Started,
        Event::Associated,
        Event::LeaseAcquired(HOME),
        Event::ClockSynced,
        Event::TimerElapsed,
        Event::ProbeAlive(HOME),
    ];
    for event in events {
        let step = a.step(event, reading());
        let report = b.advance(event);
        assert_eq!(step.report, report);
        assert_eq!(step.action, b.pending(reading()));
        assert_eq!(a.current_phase(), b.current_phase());
    }
    assert_eq!(a.current_phase(), Phase::Uploading(HOME));
}

fn next_random(state: &mut u32) -> u32 {
    *state = state.wrapping_mul(1664525).wrapping_add(1013904223);
    *state >> 16
}

fn random_event(state: &mut u32) -> Event {
    let draw: u32 = next_random(state);
    let address = if draw % 5 == 0 {
        Address(0, 0, 0, 0)
    } else {
        Address(10, 0, (draw % 7) as u8, (draw % 251) as u8)
    };
    match next_random(state) % 10 {
        0 => Event::Started,
        1 => Event::Associated,
        2 => Event::LeaseAcquired(address),
        3 => Event::ClockSynced,
        4 => Event::StageFailed,
        5 => Event::TimerElapsed,
        6 => Event::ProbeAlive(address),
        7 => Event::ProbeDead,
        8 => Event::UploadSucceeded,
        _ => Event::UploadFailed(TransportError::Status(503)),
    }
}

#[test]
fn any_run_of_events_keeps_the_rules_of_the_link() {
    let mut store = SharedStateStore::new();
    let mut m = NetworkManager::new();
    let mut seed: u32 = 0x2F6E_2B1D;
    let mut before = m.status();
    let mut uploads: u32 = 0;
    let mut connects: u32 = 0;
    let mut i: u32 = 0;
    while i < 20000 {
        let event = random_event(&mut seed);
        let step = m.run_step(&mut store, event);
        let after = m.status();
        assert!(after.is_well_formed());
        assert_eq!(store.get_connectivity(), after);
        assert_eq!(store.get_upload_flag(), m.upload_in_flight());
        assert_eq!(matches!(step.action, Action::Upload(_)), m.upload_in_flight());
        if m.upload_in_flight() {
            assert!(after.is_connected());
            uploads += 1;
        }
        match (before, after) {
            (ConnectivityStatus::Disconnected, ConnectivityStatus::Connected(_)) => {
                panic!("connected without connecting")
            }
            (ConnectivityStatus::Connected(_), ConnectivityStatus::Connecting) => {
                panic!("connecting without disconnecting")
            }
            (ConnectivityStatus::Connecting, ConnectivityStatus::Disconnected) => {
                panic!("gave up connecting")
            }
            (ConnectivityStatus::Connecting, ConnectivityStatus::Connected(_)) => {
                assert_eq!(event, Event::ClockSynced);
                connects += 1;
            }
            (ConnectivityStatus::Connected(_), ConnectivityStatus::Disconnected) => {
                assert_eq!(event, Event::ProbeDead);
                assert_eq!(step.report, Some(Report::LinkLost));
            }
            _ => {}
        }
        before = after;
        i += 1;
    }
    assert!(connects > 0);
    assert!(uploads > 0);
}
