use serde_json::Value;
use tempus_engine::metadata::RuleDefinition;
use tempus_engine::RuleStore;

fn j(text: &str) -> Value {
    serde_json::from_str(text).unwrap()
}

#[test]
fn insert_adds_and_replaces() {
    let mut store = RuleStore::new();
    store.insert(RuleDefinition::new("r", j("{}")));
    assert_eq!(store.len(), 1);
    store.insert(RuleDefinition::new("r", j(r#"{"==":[1,1]}"#)));
    assert_eq!(store.len(), 1); // replaced, not duplicated
}

fn named(name: &str, logic: &str) -> RuleDefinition {
    RuleDefinition::new(name, j(logic))
}

#[test]
fn from_rules_keeps_order_and_finds_last_namesake() {
    let store = RuleStore::from_rules(vec![named("a", "1"), named("b", "2"), named("a", "3")]);
    assert_eq!(store.len(), 3);
    assert_eq!(store.all()[0].logic, j("1"));
    assert_eq!(store.all()[2].logic, j("3"));
    assert_eq!(store.get("a").unwrap().logic, j("3"));
    assert_eq!(store.get("b").unwrap().logic, j("2"));
    assert!(store.get("c").is_none());
}

#[test]
fn get_after_insert_finds_the_rule() {
    let mut store = RuleStore::from_rules(vec![named("a", "1"), named("b", "2")]);
    store.insert(named("a", "10"));
    assert_eq!(store.get("a").unwrap().logic, j("10"));
    assert_eq!(store.all()[0].logic, j("10"));
    store.insert(named("c", "30"));
    assert_eq!(store.get("c").unwrap().logic, j("30"));
    assert_eq!(store.len(), 3);
}

#[test]
fn insert_keeps_other_names() {
    let mut store = RuleStore::from_rules(vec![named("a", "1"), named("b", "2")]);
    store.insert(named("b", "20"));
    store.insert(named("z", "26"));
    assert_eq!(store.get("a").unwrap().logic, j("1"));
}

#[test]
fn insert_twice_is_insert_once() {
    let mut once = RuleStore::new();
    once.insert(named("a", "1"));
    let mut twice = RuleStore::new();
    twice.insert(named("a", "1"));
    twice.insert(named("a", "1"));
    assert_eq!(once.all(), twice.all());
}

#[test]
fn insert_replaces_the_last_namesake() {
    let mut store = RuleStore::from_rules(vec![named("a", "1"), named("a", "2")]);
    store.insert(named("a", "3"));
    assert_eq!(store.all()[0].logic, j("1"));
    assert_eq!(store.all()[1].logic, j("3"));
    assert_eq!(store.len(), 2);
}

#[test]
fn empty_store() {
    let store = RuleStore::default();
    assert!(store.is_empty());
    assert_eq!(store.len(), 0);
    assert!(store.get("a").is_none());
    assert!(store.all().is_empty());
}

