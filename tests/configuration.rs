use rust_backend::{configure, parse_action, Action, ConfigError, PerformOn};

fn args(words: &[&str]) -> Vec<String> {
    words.iter().map(|w| w.to_string()).collect()
}

fn addr(s: &str) -> Option<String> {
    Some(s.to_string())
}

#[test]
fn missing_backend_address_exits_with_one() {
    let r = configure(None, addr("10.0.0.5"), &args(&["setup"]));
    assert_eq!(r.as_ref().err(), Some(&ConfigError::MissingBackendAddr));
    assert_eq!(r.err().unwrap().exit_code(), 1);
}

#[test]
fn missing_db_address_exits_with_one() {
    let r = configure(addr("backend"), None, &args(&["setup"]));
    assert_eq!(r.as_ref().err(), Some(&ConfigError::MissingDbAddr));
    assert_eq!(r.err().unwrap().exit_code(), 1);
}

#[test]
fn missing_addresses_come_before_usage() {
    let r = configure(None, None, &args(&["bogus"]));
    assert_eq!(r.err(), Some(ConfigError::MissingBackendAddr));
}

#[test]
fn usage_error_exits_with_one() {
    let r = configure(addr("backend"), addr("10.0.0.5"), &args(&["deploy"]));
    assert_eq!(r.as_ref().err(), Some(&ConfigError::Usage));
    assert_eq!(ConfigError::Usage.exit_code(), 1);
}

#[test]
fn full_configuration() {
    let c = configure(addr("backend"), addr("10.0.0.5"), &args(&["teardown", "neo4j"])).ok().unwrap();
    assert_eq!(c.action(), Action::Teardown(PerformOn::Neo4j));
    assert_eq!(c.backend_addr(), "backend");
    assert_eq!(c.db_addr(), "10.0.0.5");
}

#[test]
fn arguments_name_the_action() {
    assert_eq!(parse_action(&args(&["setup"])), Some(Action::Setup(PerformOn::All)));
    assert_eq!(parse_action(&args(&["setup", "postgres"])), Some(Action::Setup(PerformOn::Postgres)));
    assert_eq!(parse_action(&args(&["setup", "mongodb"])), Some(Action::Setup(PerformOn::MongoDB)));
    assert_eq!(parse_action(&args(&["teardown"])), Some(Action::Teardown(PerformOn::All)));
    assert_eq!(parse_action(&args(&["teardown", "neo4j"])), Some(Action::Teardown(PerformOn::Neo4j)));
    assert_eq!(parse_action(&args(&[])), None);
    assert_eq!(parse_action(&args(&["setup", "mysql"])), None);
    assert_eq!(parse_action(&args(&["setup", "neo4j", "extra"])), None);
    assert_eq!(parse_action(&args(&["Setup"])), None);
}
