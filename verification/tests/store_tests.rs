use smart_hot_water_tank::connectivity::Address;
use smart_hot_water_tank::connectivity::ConnectivityStatus;
use smart_hot_water_tank::reading::TemperatureReading;
use smart_hot_water_tank::store::SharedStateStore;
use smart_hot_water_tank::store::StoreSnapshot;

#[test]
fn store_starts_without_reading_link_or_upload() {
    let store = SharedStateStore::new();
    assert_eq!(store.get_temperature(), TemperatureReading::unavailable());
    assert_eq!(store.get_temperature().centi(), -25000);
    assert_eq!(store.get_connectivity(), ConnectivityStatus::Disconnected);
    assert!(!store.get_upload_flag());
}

#[test]
fn store_returns_what_was_written_last() {
    let mut store = SharedStateStore::new();
    store.set_temperature(TemperatureReading::from_centi(2300));
    assert_eq!(store.get_temperature().centi(), 2300);
    store.set_temperature(TemperatureReading::from_centi(-525));
    assert_eq!(store.get_temperature().centi(), -525);
    store.set_upload_flag(true);
    assert!(store.get_upload_flag());
    store.set_upload_flag(false);
    assert!(!store.get_upload_flag());
    assert!(store.set_connectivity(ConnectivityStatus::Connecting));
    assert_eq!(store.get_connectivity(), ConnectivityStatus::Connecting);
    let up = ConnectivityStatus::Connected(Address(192, 168, 1, 20));
    assert!(store.set_connectivity(up));
    assert_eq!(store.get_connectivity(), up);
}

#[test]
fn store_fields_do_not_touch_each_other() {
    let mut store = SharedStateStore::new();
    store.set_temperature(TemperatureReading::from_centi(4200));
    assert_eq!(store.get_connectivity(), ConnectivityStatus::Disconnected);
    assert!(!store.get_upload_flag());
    store.set_upload_flag(true);
    assert_eq!(store.get_temperature().centi(), 4200);
    assert!(store.set_connectivity(ConnectivityStatus::Connecting));
    assert_eq!(store.get_temperature().centi(), 4200);
    assert!(store.get_upload_flag());
}

#[test]
fn store_refuses_connected_status_with_unset_address() {
    let mut store = SharedStateStore::new();
    assert!(store.set_connectivity(ConnectivityStatus::Connecting));
    assert!(!store.set_connectivity(ConnectivityStatus::Connected(Address(0, 0, 0, 0))));
    assert_eq!(store.get_connectivity(), ConnectivityStatus::Connecting);
    assert!(store.get_connectivity().is_well_formed());
}

#[test]
fn snapshot_reads_all_three_fields() {
    let mut store = SharedStateStore::new();
    store.set_temperature(TemperatureReading::from_centi(2150));
    store.set_upload_flag(true);
    let up = ConnectivityStatus::Connected(Address(10, 0, 0, 9));
    assert!(store.set_connectivity(up));
    assert_eq!(
        store.snapshot(),
        StoreSnapshot {
            temperature: TemperatureReading::from_centi(2150),
            connectivity: up,
            upload_in_flight: true,
        }
    );
}

fn shared_between_threads<T: Send + Sync + 'static>(value: T) -> std::sync::Arc<T> {
    std::sync::Arc::new(value)
}

#[test]
fn store_can_be_shared_between_tasks() {
    let shared = shared_between_threads(std::sync::RwLock::new(SharedStateStore::new()));
    let writer = std::sync::Arc::clone(&shared);
    let reader = std::sync::Arc::clone(&shared);
    writer.write().unwrap().set_temperature(TemperatureReading::from_centi(0x0101_0101));
    assert_eq!(reader.read().unwrap().get_temperature().centi(), 0x0101_0101);
    writer.write().unwrap().set_temperature(TemperatureReading::from_centi(-0x0202_0202));
    assert_eq!(reader.read().unwrap().get_temperature().centi(), -0x0202_0202);
    assert_eq!(reader.read().unwrap().get_connectivity(), ConnectivityStatus::Disconnected);
}

#[test]
fn a_write_replaces_one_field_only() {
    let mut store = SharedStateStore::new();
    let start = store.snapshot();
    store.set_temperature(TemperatureReading::from_centi(1234));
    assert_eq!(
        store.snapshot(),
        StoreSnapshot { temperature: TemperatureReading::from_centi(1234), ..start }
    );
    assert!(store.set_connectivity(ConnectivityStatus::Connected(Address(10, 1, 1, 1))));
    store.set_upload_flag(true);
    let full = store.snapshot();
    assert!(!store.set_connectivity(ConnectivityStatus::Connected(Address(0, 0, 0, 0))));
    assert_eq!(store.snapshot(), full);
    store.set_upload_flag(false);
    assert_eq!(store.snapshot(), StoreSnapshot { upload_in_flight: false, ..full });
}

#[test]
fn a_read_changes_nothing() {
    let mut store = SharedStateStore::new();
    store.set_temperature(TemperatureReading::from_centi(-525));
    let before = store.snapshot();
    let _ = store.get_temperature();
    let _ = store.get_connectivity();
    let _ = store.get_upload_flag();
    assert_eq!(store.snapshot(), before);
}
