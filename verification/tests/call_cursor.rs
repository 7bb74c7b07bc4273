use quack_pprof::controller::{results, stop, Operation, ResultsStep, StopStep};
use quack_pprof::cursor::PerCallCursor;
use quack_pprof::registry::SessionRegistry;

#[test]
fn cursor_is_first_exactly_once() {
    let mut cursor = PerCallCursor::new();
    assert!(cursor.advance());
    assert!(!cursor.advance());
    assert!(!cursor.advance());
}

#[test]
fn cursors_of_two_calls_are_independent() {
    let mut one = PerCallCursor::new();
    let mut two = PerCallCursor::new();
    assert!(one.advance());
    assert!(two.advance());
    assert!(!one.advance());
    assert!(!two.advance());
}

#[test]
fn new_registry_is_idle() {
    let mut registry = SessionRegistry::new();
    assert!(!registry.is_active());
    assert!(registry.peek_if_present().is_none());
    assert!(registry.take_if_present().is_none());
    assert!(!registry.is_active());
}

#[test]
fn stop_when_idle_yields_one_row_then_none() {
    let mut registry = SessionRegistry::new();
    let mut cursor = PerCallCursor::new();
    match stop(&mut cursor, &mut registry) {
        StopStep::Rows(rows) => assert_eq!(rows, vec!["No profiling session running".to_string()]),
        StopStep::Export(_) => panic!("an idle registry has nothing to export"),
    }
    assert!(!registry.is_active());
    match stop(&mut cursor, &mut registry) {
        StopStep::Rows(rows) => assert!(rows.is_empty()),
        StopStep::Export(_) => panic!("an idle registry has nothing to export"),
    }
    assert!(!registry.is_active());
}

#[test]
fn results_when_idle_yields_one_row_then_none() {
    let registry = SessionRegistry::new();
    let mut cursor = PerCallCursor::new();
    match results(&mut cursor, &registry) {
        ResultsStep::Rows(rows) => {
            assert_eq!(rows, vec!["No profiling session running".to_string()])
        }
        ResultsStep::Inspect(_) => panic!("an idle registry has nothing to inspect"),
    }
    match results(&mut cursor, &registry) {
        ResultsStep::Rows(rows) => assert!(rows.is_empty()),
        ResultsStep::Inspect(_) => panic!("an idle registry has nothing to inspect"),
    }
    assert!(!registry.is_active());
}

#[test]
fn operations_name_their_column() {
    assert_eq!(Operation::Start.column_name(), "status");
    assert_eq!(Operation::Stop.column_name(), "status");
    assert_eq!(Operation::Results.column_name(), "stack_trace");
}

#[test]
fn only_stop_is_bound_to_a_path() {
    assert!(!Operation::Start.has_path());
    assert!(Operation::Stop.has_path());
    assert!(!Operation::Results.has_path());
}
