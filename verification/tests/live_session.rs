use pprof::protos::{Message, Profile};
use quack_pprof::controller::{results, start, stop, ResultsStep, StopStep};
use quack_pprof::cursor::PerCallCursor;
use quack_pprof::materializer::{describe_export, list_frames};
use quack_pprof::registry::{SessionRegistry, StartOutcome};
use quack_pprof::sampler::{exclusion_list, SamplerFailure, Session, SAMPLING_FREQUENCY};

const STARTED: &str = "Profiling started with signal-safe configuration";
const RUNNING: &str = "Profiling already running";
const IDLE: &str = "No profiling session running";
const EMPTY: &str = "No stack traces collected yet";

fn start_rows(registry: &mut SessionRegistry) -> Vec<String> {
    let mut cursor = PerCallCursor::new();
    start(&mut cursor, registry).ok().unwrap()
}

fn stop_session(registry: &mut SessionRegistry) -> Session {
    let mut cursor = PerCallCursor::new();
    match stop(&mut cursor, registry) {
        StopStep::Export(session) => session,
        StopStep::Rows(rows) => panic!("stop found no session: {:?}", rows),
    }
}

fn burn() -> u64 {
    let mut sum: u64 = 0;
    for i in 0..40_000_000u64 {
        sum = sum.wrapping_mul(31).wrapping_add(i ^ (sum >> 7));
    }
    sum
}

#[test]
fn exclusion_list_names_the_four_libraries() {
    assert_eq!(SAMPLING_FREQUENCY, 1000);
    assert_eq!(exclusion_list(), vec!["libc", "libgcc", "pthread", "vdso"]);
}

#[test]
fn started_session_records_its_configuration() {
    let mut registry = SessionRegistry::new();
    assert_eq!(registry.try_start().ok(), Some(StartOutcome::Started));
    let session = registry.take_if_present().unwrap();
    assert_eq!(session.frequency(), 1000);
    assert_eq!(session.exclusions(), &vec!["libc", "libgcc", "pthread", "vdso"]);
}

#[test]
fn try_start_when_idle_starts() {
    let mut registry = SessionRegistry::new();
    assert_eq!(registry.try_start().ok(), Some(StartOutcome::Started));
    assert!(registry.is_active());
    assert_eq!(registry.peek_if_present().unwrap().frequency(), 1000);
}

#[test]
fn try_start_when_active_keeps_the_session() {
    let mut registry = SessionRegistry::new();
    assert_eq!(registry.try_start().ok(), Some(StartOutcome::Started));
    assert_eq!(registry.try_start().ok(), Some(StartOutcome::AlreadyRunning));
    assert_eq!(registry.try_start().ok(), Some(StartOutcome::AlreadyRunning));
    assert!(registry.is_active());
    assert!(registry.take_if_present().is_some());
    assert!(!registry.is_active());
    assert!(registry.take_if_present().is_none());
}

#[test]
fn install_puts_a_session_into_an_idle_registry() {
    let mut first = SessionRegistry::new();
    assert_eq!(first.try_start().ok(), Some(StartOutcome::Started));
    let session = first.take_if_present().unwrap();
    let mut second = SessionRegistry::new();
    assert_eq!(second.install(Ok(session)).ok(), Some(StartOutcome::Started));
    assert!(second.is_active());
    assert!(!first.is_active());
}

#[test]
fn install_of_a_failure_leaves_the_registry_idle() {
    let mut registry = SessionRegistry::new();
    let failure = SamplerFailure { reason: "create profiler error".to_string() };
    let handed_back = registry.install(Err(failure)).err().unwrap();
    assert_eq!(handed_back.reason, "create profiler error");
    assert!(!registry.is_active());
}

#[test]
fn install_into_an_active_registry_keeps_its_session() {
    let mut registry = SessionRegistry::new();
    assert_eq!(registry.try_start().ok(), Some(StartOutcome::Started));
    let failure = SamplerFailure { reason: "create profiler error".to_string() };
    assert_eq!(registry.install(Err(failure)).ok(), Some(StartOutcome::AlreadyRunning));
    assert!(registry.is_active());
}

#[test]
fn start_when_idle_yields_the_started_row() {
    let mut registry = SessionRegistry::new();
    let mut cursor = PerCallCursor::new();
    assert_eq!(start(&mut cursor, &mut registry).ok().unwrap(), vec![STARTED.to_string()]);
    assert!(registry.is_active());
    assert!(start(&mut cursor, &mut registry).ok().unwrap().is_empty());
    assert!(registry.is_active());
}

#[test]
fn start_when_active_yields_the_running_row() {
    let mut registry = SessionRegistry::new();
    assert_eq!(start_rows(&mut registry), vec![STARTED.to_string()]);
    let mut cursor = PerCallCursor::new();
    assert_eq!(start(&mut cursor, &mut registry).ok().unwrap(), vec![RUNNING.to_string()]);
    assert!(start(&mut cursor, &mut registry).ok().unwrap().is_empty());
    assert!(registry.is_active());
    stop_session(&mut registry);
    assert!(!registry.is_active());
}

#[test]
fn many_starts_give_one_session() {
    let mut registry = SessionRegistry::new();
    let mut started = 0;
    let mut running = 0;
    for _ in 0..8 {
        let rows = start_rows(&mut registry);
        assert_eq!(rows.len(), 1);
        if rows[0] == STARTED {
            started += 1;
        } else if rows[0] == RUNNING {
            running += 1;
        }
    }
    assert_eq!(started, 1);
    assert_eq!(running, 7);
    assert!(registry.is_active());
    stop_session(&mut registry);
    assert!(!registry.is_active());
    assert!(registry.take_if_present().is_none());
}

#[test]
fn stop_when_active_takes_the_session() {
    let mut registry = SessionRegistry::new();
    assert_eq!(start_rows(&mut registry), vec![STARTED.to_string()]);
    let mut cursor = PerCallCursor::new();
    let session = match stop(&mut cursor, &mut registry) {
        StopStep::Export(session) => session,
        StopStep::Rows(rows) => panic!("stop found no session: {:?}", rows),
    };
    assert!(!registry.is_active());
    assert_eq!(session.frequency(), 1000);
    match stop(&mut cursor, &mut registry) {
        StopStep::Rows(rows) => assert!(rows.is_empty()),
        StopStep::Export(_) => panic!("a later invocation exports nothing"),
    }
    let mut next = PerCallCursor::new();
    match stop(&mut next, &mut registry) {
        StopStep::Rows(rows) => assert_eq!(rows, vec![IDLE.to_string()]),
        StopStep::Export(_) => panic!("the session was taken before"),
    }
}

#[test]
fn exported_session_encodes_as_a_profile() {
    let mut registry = SessionRegistry::new();
    assert_eq!(start_rows(&mut registry), vec![STARTED.to_string()]);
    assert!(burn() != 1);
    let session = stop_session(&mut registry);
    let report = session.report().ok().unwrap();
    let bytes = report.encode().ok().unwrap();
    assert!(!bytes.is_empty());
    let profile = Profile::decode(&bytes[..]).unwrap();
    assert_eq!(profile.sample_type.len(), 2);
    assert_eq!(profile.string_table[0], "");
    assert_eq!(profile.period, 1_000_000);
    assert_eq!(describe_export("/tmp/profile.pb", &Ok(())), "Profile saved to /tmp/profile.pb");
}

#[test]
fn restart_after_stop() {
    let mut registry = SessionRegistry::new();
    assert_eq!(start_rows(&mut registry), vec![STARTED.to_string()]);
    drop(stop_session(&mut registry));
    assert_eq!(start_rows(&mut registry), vec![STARTED.to_string()]);
    assert!(registry.is_active());
}

#[test]
fn results_when_active_lists_stacks_or_the_placeholder() {
    let mut registry = SessionRegistry::new();
    assert_eq!(start_rows(&mut registry), vec![STARTED.to_string()]);
    assert!(burn() != 1);
    let mut cursor = PerCallCursor::new();
    let rows = match results(&mut cursor, &registry) {
        ResultsStep::Inspect(session) => list_frames(&session.report()),
        ResultsStep::Rows(rows) => panic!("results found no session: {:?}", rows),
    };
    assert!(!rows.is_empty());
    if rows.len() == 1 && rows[0] == EMPTY {
        return;
    }
    for row in rows.iter() {
        assert!(row.contains("FRAME:"), "row {:?}", row);
        assert!(!row.contains('\n'), "row {:?}", row);
    }
    match results(&mut cursor, &registry) {
        ResultsStep::Rows(rows) => assert!(rows.is_empty()),
        ResultsStep::Inspect(_) => panic!("a later invocation inspects nothing"),
    }
}

#[test]
fn results_do_not_consume_the_session() {
    let mut registry = SessionRegistry::new();
    assert_eq!(start_rows(&mut registry), vec![STARTED.to_string()]);
    for _ in 0..2 {
        let mut cursor = PerCallCursor::new();
        match results(&mut cursor, &registry) {
            ResultsStep::Inspect(session) => assert!(!list_frames(&session.report()).is_empty()),
            ResultsStep::Rows(rows) => panic!("results found no session: {:?}", rows),
        }
        assert!(registry.is_active());
    }
    let session = stop_session(&mut registry);
    let bytes = session.report().ok().unwrap().encode().ok().unwrap();
    assert!(Profile::decode(&bytes[..]).is_ok());
    assert!(!registry.is_active());
}

#[test]
fn second_profiler_does_not_start() {
    let mut first = SessionRegistry::new();
    assert_eq!(first.try_start().ok(), Some(StartOutcome::Started));
    let mut second = SessionRegistry::new();
    let failure = second.try_start().err().unwrap();
    assert_eq!(failure.reason, "start running cpu profiler error");
    assert!(!second.is_active());
    assert!(first.is_active());
}

#[test]
fn profiler_failure_ends_the_call_and_leaves_the_registry_idle() {
    let mut first = SessionRegistry::new();
    assert_eq!(first.try_start().ok(), Some(StartOutcome::Started));
    let mut second = SessionRegistry::new();
    let mut cursor = PerCallCursor::new();
    let failure = start(&mut cursor, &mut second).err().unwrap();
    assert_eq!(failure.reason, "start running cpu profiler error");
    assert!(!second.is_active());
    assert!(start(&mut cursor, &mut second).ok().unwrap().is_empty());
    drop(stop_session(&mut first));
    assert_eq!(start_rows(&mut second), vec![STARTED.to_string()]);
    assert!(second.is_active());
}
