use monitor_scenes::model::{Config, Mapping};
use monitor_scenes::store::{load, ConfigStore, LoadError, Source};

fn mapping(monitor: &str, scene: &str) -> Mapping {
    Mapping { monitor_name: String::from(monitor), scene_name: String::from(scene) }
}

fn config(enabled: bool, secret: &str, mappings: Vec<Mapping>) -> Config {
    Config { enabled, connection_secret: String::from(secret), mappings }
}

fn pairs(config: &Config) -> Vec<(String, String)> {
    config.mappings.iter().map(|m| (m.monitor_name.clone(), m.scene_name.clone())).collect()
}

fn pair(monitor: &str, scene: &str) -> (String, String) {
    (String::from(monitor), String::from(scene))
}

#[test]
fn unopened_source_is_unreadable() {
    assert!(matches!(load(Source::Unopened), Err(LoadError::Unreadable)));
}

#[test]
fn unparsed_source_is_malformed() {
    assert!(matches!(load(Source::Unparsed), Err(LoadError::Malformed)));
}

#[test]
fn parsed_source_loads_unchanged() {
    let cfg = config(false, "s3cret", vec![mapping("A", "One"), mapping("B", "Two")]);
    let loaded = load(Source::Parsed(cfg)).expect("a parsed configuration loads");
    assert!(!loaded.enabled);
    assert_eq!(loaded.connection_secret, "s3cret");
    assert_eq!(pairs(&loaded), vec![pair("A", "One"), pair("B", "Two")]);
}

#[test]
fn load_does_not_judge_the_mappings() {
    let dup = config(true, "", vec![mapping("A", "One"), mapping("A", "Two")]);
    let loaded = load(Source::Parsed(dup)).expect("duplicates are accepted");
    assert_eq!(pairs(&loaded), vec![pair("A", "One"), pair("A", "Two")]);
    let empty = load(Source::Parsed(config(true, "", Vec::new()))).expect("no mappings is fine");
    assert!(empty.mappings.is_empty());
}

#[test]
fn store_opens_only_on_a_valid_configuration() {
    assert_eq!(ConfigStore::open(Source::Unopened).err(), Some(LoadError::Unreadable));
    assert_eq!(ConfigStore::open(Source::Unparsed).err(), Some(LoadError::Malformed));
    let store = ConfigStore::open(Source::Parsed(config(true, "pw", vec![mapping("A", "One")])))
        .expect("a parsed configuration opens the store");
    assert!(store.read().enabled);
    assert_eq!(store.read().connection_secret, "pw");
    assert_eq!(pairs(store.read()), vec![pair("A", "One")]);
}

#[test]
fn new_store_holds_the_initial_configuration() {
    let store = ConfigStore::new(config(false, "pw", vec![mapping("A", "One")]));
    assert!(!store.read().enabled);
    assert_eq!(store.read().connection_secret, "pw");
    assert_eq!(pairs(store.read()), vec![pair("A", "One")]);
}

#[test]
fn replace_swaps_the_whole_configuration() {
    let mut store = ConfigStore::new(config(true, "old", vec![mapping("A", "One")]));
    store.replace(config(false, "new", vec![mapping("B", "Two"), mapping("C", "Three")]));
    assert!(!store.read().enabled);
    assert_eq!(store.read().connection_secret, "new");
    assert_eq!(pairs(store.read()), vec![pair("B", "Two"), pair("C", "Three")]);
}

#[test]
fn successful_reload_puts_the_new_configuration_in_force() {
    let mut store = ConfigStore::new(config(true, "old", vec![mapping("A", "One")]));
    let outcome = store.reload(Source::Parsed(config(true, "new", vec![mapping("A", "Two")])));
    assert_eq!(outcome, Ok(()));
    assert_eq!(store.read().connection_secret, "new");
    assert_eq!(store.scene_for(&Some(String::from("A"))), Some(String::from("Two")));
}

#[test]
fn malformed_reload_keeps_the_working_configuration() {
    let mut store = ConfigStore::new(config(true, "old", vec![mapping("A", "One")]));
    assert_eq!(store.reload(Source::Unparsed), Err(LoadError::Malformed));
    assert!(store.read().enabled);
    assert_eq!(store.read().connection_secret, "old");
    assert_eq!(pairs(store.read()), vec![pair("A", "One")]);
    assert_eq!(store.scene_for(&Some(String::from("A"))), Some(String::from("One")));
}

#[test]
fn unreadable_reload_keeps_the_working_configuration() {
    let mut store = ConfigStore::new(config(true, "old", vec![mapping("A", "One")]));
    assert_eq!(store.reload(Source::Unopened), Err(LoadError::Unreadable));
    assert!(store.read().enabled);
    assert_eq!(store.read().connection_secret, "old");
    assert_eq!(pairs(store.read()), vec![pair("A", "One")]);
}

#[test]
fn repeated_reloads_are_independent() {
    let mut store = ConfigStore::new(config(false, "old", Vec::new()));
    for _ in 0..3 {
        let outcome = store.reload(Source::Parsed(config(true, "new", vec![mapping("A", "One")])));
        assert_eq!(outcome, Ok(()));
        assert!(store.read().enabled);
        assert_eq!(store.read().connection_secret, "new");
        assert_eq!(pairs(store.read()), vec![pair("A", "One")]);
    }
    assert_eq!(store.reload(Source::Unparsed), Err(LoadError::Malformed));
    assert_eq!(store.reload(Source::Unparsed), Err(LoadError::Malformed));
    assert_eq!(pairs(store.read()), vec![pair("A", "One")]);
}

#[test]
fn store_answers_from_the_configuration_in_force() {
    let mut store =
        ConfigStore::new(config(true, "", vec![mapping("A", "One"), mapping("A", "Shadowed")]));
    assert_eq!(store.scene_for(&Some(String::from("A"))), Some(String::from("One")));
    assert_eq!(store.scene_for(&Some(String::from("B"))), None);
    assert_eq!(store.scene_for(&None), None);
    store.replace(config(false, "", vec![mapping("A", "One")]));
    assert_eq!(store.scene_for(&Some(String::from("A"))), None);
}
