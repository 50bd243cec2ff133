use katika::dispatch::{surface_open_outcome, HostOpenOutcome};

#[test]
fn successful_open_is_an_empty_ack() {
    assert_eq!(surface_open_outcome(HostOpenOutcome::Opened), Ok(()));
}

#[test]
fn failed_open_carries_the_diagnostic_verbatim() {
    let r = surface_open_outcome(HostOpenOutcome::Failed("no handler registered".to_string()));
    assert_eq!(r, Err("no handler registered".to_string()));
}

#[test]
fn failure_for_empty_url_is_not_a_success() {
    let r = surface_open_outcome(HostOpenOutcome::Failed("cannot open an empty url".to_string()));
    match r {
        Ok(()) => panic!("a reported failure must not surface as success"),
        Err(message) => assert!(!message.is_empty()),
    }
}

#[test]
fn outcomes_are_independent() {
    let a = surface_open_outcome(HostOpenOutcome::Opened);
    let b = surface_open_outcome(HostOpenOutcome::Failed("permission denied".to_string()));
    assert_eq!(a, Ok(()));
    assert_eq!(b, Err("permission denied".to_string()));
}
