use city_directory::address_book::{AddressBook, RegisterError};
use city_directory::city_info::{CityInfo, CityMetaData};
use city_directory::directory::{get_telemetry_by_name, resolve_address, TelemetryLookup};
use city_directory::telemetry_store::TelemetryStore;

fn meta(name: &str, id: &str, map: &str, address: &str) -> CityMetaData {
    CityMetaData {
        name: name.to_owned(),
        id: id.to_owned(),
        map: map.to_owned(),
        address: address.to_owned(),
    }
}

fn info(simrunning: bool, elapsed: f64, population: u32) -> CityInfo {
    CityInfo {
        simrunning,
        elapsed_bits: elapsed.to_bits(),
        population,
    }
}

#[test]
fn register_distinct_then_list() {
    let mut book = AddressBook::new();
    assert!(book.register(meta("alpha", "a1", "m1", "10.0.0.1:9000")).is_ok());
    assert!(book.register(meta("beta", "b2", "m2", "10.0.0.2:9000")).is_ok());
    let all = book.list();
    assert_eq!(all.len(), 2);
    assert_eq!(all[0].name, "alpha");
    assert_eq!(all[0].id, "a1");
    assert_eq!(all[1].name, "beta");
    assert_eq!(all[1].address, "10.0.0.2:9000");
}

#[test]
fn register_same_name_twice_fails_and_retains_first() {
    let mut book = AddressBook::new();
    assert!(book.register(meta("alpha", "a1", "m1", "10.0.0.1:9000")).is_ok());
    let second = book.register(meta("alpha", "zz", "m9", "10.9.9.9:9"));
    assert_eq!(second, Err(RegisterError::NameConflict));
    let all = book.list();
    assert_eq!(all.len(), 1);
    assert_eq!(all[0].id, "a1");
    assert_eq!(all[0].map, "m1");
    assert_eq!(all[0].address, "10.0.0.1:9000");
}

#[test]
fn resolve_returns_registered_metadata() {
    let mut book = AddressBook::new();
    assert!(book.register(meta("alpha", "a1", "m1", "10.0.0.1:9000")).is_ok());
    let found = book.resolve(&"alpha".to_owned()).expect("registered name resolves");
    assert_eq!(found.name, "alpha");
    assert_eq!(found.id, "a1");
    assert_eq!(found.map, "m1");
    assert_eq!(found.address, "10.0.0.1:9000");
    assert!(book.resolve(&"beta".to_owned()).is_none());
}

#[test]
fn register_many_then_resolve_all() {
    let mut book = AddressBook::new();
    for i in 0..8u32 {
        let name = format!("city{}", i);
        let id = format!("id{}", i);
        assert!(book.register(meta(&name, &id, "m", "127.0.0.1:9000")).is_ok());
    }
    for i in 0..8u32 {
        let name = format!("city{}", i);
        let found = book.resolve(&name).expect("every registered name resolves");
        assert_eq!(found.id, format!("id{}", i));
    }
    assert_eq!(book.list().len(), 8);
}

#[test]
fn put_then_get_returns_exactly_what_was_put() {
    let mut store = TelemetryStore::new();
    let t = info(true, 12.5, 42);
    store.put("a1".to_owned(), t);
    let got = store.get(&"a1".to_owned()).expect("stored id is found");
    assert_eq!(got, t);
    assert_eq!(f64::from_bits(got.elapsed_bits), 12.5);
}

#[test]
fn put_twice_last_write_wins() {
    let mut store = TelemetryStore::new();
    store.put("a1".to_owned(), info(true, 1.0, 1));
    store.put("a1".to_owned(), info(false, 2.25, 7));
    let got = store.get(&"a1".to_owned()).expect("stored id is found");
    assert!(!got.simrunning);
    assert_eq!(f64::from_bits(got.elapsed_bits), 2.25);
    assert_eq!(got.population, 7);
}

#[test]
fn get_unknown_id_is_none() {
    let store = TelemetryStore::new();
    assert!(store.get(&"nobody".to_owned()).is_none());
}

#[test]
fn lookup_never_registered_is_node_unknown() {
    let book = AddressBook::new();
    let mut store = TelemetryStore::new();
    store.put("orphan".to_owned(), info(true, 3.0, 9));
    let r = get_telemetry_by_name(&book, &store, &"ghost".to_owned());
    assert_eq!(r, TelemetryLookup::NodeUnknown);
}

#[test]
fn lookup_registered_without_put_is_pending() {
    let mut book = AddressBook::new();
    let store = TelemetryStore::new();
    assert!(book.register(meta("alpha", "a1", "m1", "10.0.0.1:9000")).is_ok());
    let r = get_telemetry_by_name(&book, &store, &"alpha".to_owned());
    assert_eq!(r, TelemetryLookup::TelemetryPending);
}

#[test]
fn lookup_after_put_finds_latest_snapshot() {
    let mut book = AddressBook::new();
    let mut store = TelemetryStore::new();
    assert!(book.register(meta("alpha", "a1", "m1", "10.0.0.1:9000")).is_ok());
    store.put("a1".to_owned(), info(true, 1.0, 1));
    let latest = info(false, 99.75, 123);
    store.put("a1".to_owned(), latest);
    let r = get_telemetry_by_name(&book, &store, &"alpha".to_owned());
    assert_eq!(r, TelemetryLookup::Found(latest));
}

#[test]
fn orphan_telemetry_becomes_visible_once_registered() {
    let mut book = AddressBook::new();
    let mut store = TelemetryStore::new();
    let t = info(true, 5.5, 10);
    store.put("a1".to_owned(), t);
    assert_eq!(
        get_telemetry_by_name(&book, &store, &"alpha".to_owned()),
        TelemetryLookup::NodeUnknown
    );
    assert!(book.register(meta("alpha", "a1", "m1", "10.0.0.1:9000")).is_ok());
    assert_eq!(
        get_telemetry_by_name(&book, &store, &"alpha".to_owned()),
        TelemetryLookup::Found(t)
    );
}

#[test]
fn resolve_address_by_name() {
    let mut book = AddressBook::new();
    assert!(book.register(meta("alpha", "a1", "m1", "10.0.0.1:9000")).is_ok());
    assert_eq!(
        resolve_address(&book, &"alpha".to_owned()),
        Some("10.0.0.1:9000".to_owned())
    );
    assert_eq!(resolve_address(&book, &"beta".to_owned()), None);
}
