use quack_pprof::controller::describe_start;
use quack_pprof::materializer::{
    after_encoding, after_report, after_write, contained_report, describe_export, list_frames,
    list_frames_in, ExportError,
};
use quack_pprof::registry::StartOutcome;
use quack_pprof::rows::{RowBatch, StopParameters, TextEncodingFailure};
use quack_pprof::sampler::{ReportError, SessionReport, WriteError};

fn rows(texts: &[&str]) -> Vec<String> {
    texts.iter().map(|text| text.to_string()).collect()
}

#[test]
fn start_rows_have_their_exact_text() {
    assert_eq!(
        describe_start(StartOutcome::Started),
        "Profiling started with signal-safe configuration"
    );
    assert_eq!(describe_start(StartOutcome::AlreadyRunning), "Profiling already running");
}

#[test]
fn saved_profile_names_the_path() {
    assert_eq!(describe_export("/tmp/out.pb", &Ok(())), "Profile saved to /tmp/out.pb");
    assert_eq!(describe_export("", &Ok(())), "Profile saved to ");
}

#[test]
fn report_failure_of_an_export() {
    let outcome = Err(ExportError::Report(ReportError::Sampler("create profiler error".to_string())));
    assert_eq!(describe_export("p", &outcome), "Failed to build report: create profiler error");
}

#[test]
fn report_fault_of_an_export() {
    let outcome = Err(ExportError::Report(ReportError::Internal));
    assert_eq!(describe_export("p", &outcome), "Internal error: Failed to build report safely");
}

#[test]
fn profile_failure_of_an_export() {
    let outcome = Err(ExportError::Write(WriteError::Profile("bad".to_string())));
    assert_eq!(describe_export("p", &outcome), "Failed to create pprof profile: bad");
}

#[test]
fn profile_fault_of_an_export() {
    let outcome = Err(ExportError::Write(WriteError::Internal));
    assert_eq!(
        describe_export("p", &outcome),
        "Internal error: Failed to create pprof profile safely"
    );
}

#[test]
fn unwritable_path_is_reported_not_raised() {
    let reason = "No such file or directory (os error 2)".to_string();
    let outcome = Err(ExportError::Write(WriteError::File(reason)));
    let status = describe_export("/no/such/dir/out.pb", &outcome);
    assert_eq!(status, "Failed to write profile: No such file or directory (os error 2)");
    assert!(status.contains("Failed to write profile"));
}

#[test]
fn encoding_failure_of_an_export() {
    let outcome = Err(ExportError::Write(WriteError::Encoding("buffer full".to_string())));
    assert_eq!(describe_export("p", &outcome), "Failed to write profile: buffer full");
}

#[test]
fn report_without_stacks_has_a_placeholder_row() {
    assert_eq!(list_frames_in(""), rows(&["No stack traces collected yet"]));
    assert_eq!(list_frames_in("\n\n"), rows(&["No stack traces collected yet"]));
    assert_eq!(list_frames_in("THREAD: main 3\n"), rows(&["No stack traces collected yet"]));
}

#[test]
fn report_with_stacks_lists_them_in_order() {
    let text = "FRAME: b -> FRAME: a -> THREAD: main 2\nFRAME: c -> THREAD: worker 1\n";
    assert_eq!(
        list_frames_in(text),
        rows(&["FRAME: b -> FRAME: a -> THREAD: main 2", "FRAME: c -> THREAD: worker 1"])
    );
}

#[test]
fn listing_does_not_sort() {
    let text = "FRAME: z 1\nFRAME: a 1\nFRAME: m 1\n";
    assert_eq!(list_frames_in(text), rows(&["FRAME: z 1", "FRAME: a 1", "FRAME: m 1"]));
}

#[test]
fn report_error_of_an_inspection() {
    let built: Result<SessionReport, ReportError> =
        Err(ReportError::Sampler("create profiler error".to_string()));
    assert_eq!(list_frames(&built), rows(&["Error building report: create profiler error"]));
}

#[test]
fn report_fault_of_an_inspection() {
    let built: Result<SessionReport, ReportError> = Err(ReportError::Internal);
    assert_eq!(list_frames(&built), rows(&["Internal error: Failed to build report safely"]));
}

#[test]
fn batch_of_encodable_rows() {
    let batch = RowBatch::encode(rows(&["a", "", "FRAME: b"])).ok().unwrap();
    assert_eq!(batch.len(), 3);
    assert_eq!(batch.rows(), &rows(&["a", "", "FRAME: b"]));
}

#[test]
fn batch_of_no_rows() {
    let batch = RowBatch::encode(Vec::new()).ok().unwrap();
    assert_eq!(batch.len(), 0);
    assert!(batch.rows().is_empty());
}

#[test]
fn batch_with_a_terminator_names_the_first_such_row() {
    let failure = RowBatch::encode(rows(&["a", "b\0c", "d", "\0"])).err().unwrap();
    assert_eq!(failure, TextEncodingFailure::Row(1));
    let failure = RowBatch::encode(rows(&["\0"])).err().unwrap();
    assert_eq!(failure, TextEncodingFailure::Row(0));
    let failure = RowBatch::encode(rows(&["a", "b", "c\0"])).err().unwrap();
    assert_eq!(failure, TextEncodingFailure::Row(2));
}

#[test]
fn stop_is_bound_to_any_path_without_terminator() {
    let bound = StopParameters::bind("/tmp/profile.pb".to_string()).ok().unwrap();
    assert_eq!(bound.path(), "/tmp/profile.pb");
    let bound = StopParameters::bind(String::new()).ok().unwrap();
    assert_eq!(bound.path(), "");
}

#[test]
fn stop_is_not_bound_to_a_path_with_terminator() {
    let failure = StopParameters::bind("/tmp/pro\0file".to_string()).err().unwrap();
    assert_eq!(failure, TextEncodingFailure::Path);
}

#[test]
fn fault_while_building_a_report_is_an_internal_error() {
    assert!(matches!(contained_report(None), Err(ReportError::Internal)));
    assert!(matches!(after_report(None), Err(ExportError::Report(ReportError::Internal))));
    let rows_of_fault = list_frames(&contained_report(None));
    assert_eq!(rows_of_fault, rows(&["Internal error: Failed to build report safely"]));
    let outcome = after_report(None).map(|_| ());
    assert_eq!(describe_export("p", &outcome), "Internal error: Failed to build report safely");
}

#[test]
fn error_while_building_a_report_keeps_its_text() {
    let attempt = Some(Err(ReportError::Sampler("create profiler error".to_string())));
    match contained_report(attempt) {
        Err(ReportError::Sampler(reason)) => assert_eq!(reason, "create profiler error"),
        _ => panic!("the error of the profiler is handed on"),
    }
    let attempt = Some(Err(ReportError::Sampler("create profiler error".to_string())));
    let outcome = after_report(attempt).map(|_| ());
    assert_eq!(describe_export("p", &outcome), "Failed to build report: create profiler error");
}

#[test]
fn fault_while_encoding_is_an_internal_error() {
    let outcome = after_encoding(None).map(|_| ());
    assert!(matches!(outcome, Err(ExportError::Write(WriteError::Internal))));
    assert_eq!(
        describe_export("p", &outcome),
        "Internal error: Failed to create pprof profile safely"
    );
}

#[test]
fn encoded_bytes_go_on_to_be_written() {
    let bytes = after_encoding(Some(Ok(vec![1u8, 2, 3]))).ok().unwrap();
    assert_eq!(bytes, vec![1u8, 2, 3]);
    let attempt = Some(Err(WriteError::Profile("bad".to_string())));
    let outcome = after_encoding(attempt).map(|_| ());
    assert_eq!(describe_export("p", &outcome), "Failed to create pprof profile: bad");
    let attempt = Some(Err(WriteError::Encoding("full".to_string())));
    let outcome = after_encoding(attempt).map(|_| ());
    assert_eq!(describe_export("p", &outcome), "Failed to write profile: full");
}

#[test]
fn written_file_ends_the_export() {
    assert_eq!(describe_export("/tmp/x", &after_write(Ok(()))), "Profile saved to /tmp/x");
    let outcome = after_write(Err("Permission denied (os error 13)".to_string()));
    assert!(matches!(outcome, Err(ExportError::Write(WriteError::File(_)))));
    assert_eq!(
        describe_export("/tmp/x", &outcome),
        "Failed to write profile: Permission denied (os error 13)"
    );
}
