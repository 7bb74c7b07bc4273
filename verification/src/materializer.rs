//! The report materializer: what a finished export and an inspected report
//! look like to the caller.
//!
//! An export runs in three steps: build the report of the session, encode it
//! as a profile, write the bytes to the file. Each step needs what the step
//! before it gave, so the first failure ends the export. The outcome becomes
//! one status string, whatever went wrong.
//!
//! An inspection renders the report as text and keeps the lines that show a
//! stack.
//!
//! The steps that call into the profiler may fault, and writing the file is
//! not done here. The caller makes those calls, contains a fault as `None`,
//! and hands over what came back; what it means is decided here.

use crate::rows::{all_encodable, encodable, lemma_joined_text_is_encodable};
use crate::sampler::{ReportError, SessionReport, WriteError};
use crate::text::{
    contains, is_piece, lemma_lines_with, lemma_no_marker_no_lines, lemma_piece_chars, lines_with,
    marked_lines, occurs_at,
};
use vstd::prelude::*;
use vstd::string::StringExecFns;

verus! {

/// Why an export did not save a profile.
#[derive(Debug)]
pub enum ExportError {
    /// No report could be built from the session.
    Report(ReportError),
    /// The report could not be encoded or written.
    Write(WriteError),
}

/// What a contained attempt to build a report came to. `None` stands for a
/// fault.
pub fn contained_report(attempt: Option<Result<SessionReport, ReportError>>) -> (built: Result<
    SessionReport,
    ReportError,
>)
    ensures
        built == match attempt {
            Some(built) => built,
            None => Err(ReportError::Internal),
        },
{
    match attempt {
        Some(built) => built,
        None => Err(ReportError::Internal),
    }
}

/// First step of an export: the report to go on with, or why the export
/// ends here. `None` stands for a fault.
pub fn after_report(attempt: Option<Result<SessionReport, ReportError>>) -> (step: Result<
    SessionReport,
    ExportError,
>)
    ensures
        step == match attempt {
            Some(Ok(report)) => Ok(report),
            Some(Err(error)) => Err(ExportError::Report(error)),
            None => Err(ExportError::Report(ReportError::Internal)),
        },
{
    match contained_report(attempt) {
        Ok(report) => Ok(report),
        Err(error) => Err(ExportError::Report(error)),
    }
}

/// Second step of an export: the bytes to write, or why the export ends
/// here. `None` stands for a fault.
pub fn after_encoding(attempt: Option<Result<Vec<u8>, WriteError>>) -> (step: Result<
    Vec<u8>,
    ExportError,
>)
    ensures
        step == match attempt {
            Some(Ok(bytes)) => Ok(bytes),
            Some(Err(error)) => Err(ExportError::Write(error)),
            None => Err(ExportError::Write(WriteError::Internal)),
        },
{
    match attempt {
        Some(Ok(bytes)) => Ok(bytes),
        Some(Err(error)) => Err(ExportError::Write(error)),
        None => Err(ExportError::Write(WriteError::Internal)),
    }
}

/// Last step of an export: how it ended, given what creating and writing the
/// file came to, an error being its text.
pub fn after_write(written: Result<(), String>) -> (outcome: Result<(), ExportError>)
    ensures
        outcome == match written {
            Ok(()) => Ok(()),
            Err(reason) => Err(ExportError::Write(WriteError::File(reason))),
        },
{
    match written {
        Ok(()) => Ok(()),
        Err(reason) => Err(ExportError::Write(WriteError::File(reason))),
    }
}

/// The status string of an export to `path` that ended in `outcome`.
pub open spec fn export_status(path: Seq<char>, outcome: Result<(), ExportError>) -> Seq<char> {
    match outcome {
        Ok(()) => "Profile saved to "@ + path,
        Err(ExportError::Report(ReportError::Sampler(reason))) => "Failed to build report: "@
            + reason@,
        Err(ExportError::Report(ReportError::Internal)) =>
            "Internal error: Failed to build report safely"@,
        Err(ExportError::Write(WriteError::Profile(reason))) => "Failed to create pprof profile: "@
            + reason@,
        Err(ExportError::Write(WriteError::Internal)) =>
            "Internal error: Failed to create pprof profile safely"@,
        Err(ExportError::Write(WriteError::Encoding(reason))) => "Failed to write profile: "@
            + reason@,
        Err(ExportError::Write(WriteError::File(reason))) => "Failed to write profile: "@
            + reason@,
    }
}

/// The text that `outcome` carries from outside the library: the error text
/// of the profiler, the encoder or the file system, or nothing.
pub open spec fn export_reason(outcome: Result<(), ExportError>) -> Seq<char> {
    match outcome {
        Err(ExportError::Report(ReportError::Sampler(reason))) => reason@,
        Err(ExportError::Write(WriteError::Profile(reason))) => reason@,
        Err(ExportError::Write(WriteError::Encoding(reason))) => reason@,
        Err(ExportError::Write(WriteError::File(reason))) => reason@,
        _ => Seq::empty(),
    }
}

/// The status string of an export is encodable where the path and the text
/// that came from outside are.
pub proof fn lemma_export_status_is_encodable(path: Seq<char>, outcome: Result<(), ExportError>)
    requires
        encodable(path),
        encodable(export_reason(outcome)),
    ensures
        encodable(export_status(path, outcome)),
{
    reveal_strlit("Profile saved to ");
    reveal_strlit("Failed to build report: ");
    reveal_strlit("Internal error: Failed to build report safely");
    reveal_strlit("Failed to create pprof profile: ");
    reveal_strlit("Internal error: Failed to create pprof profile safely");
    reveal_strlit("Failed to write profile: ");
    match outcome {
        Ok(()) => lemma_joined_text_is_encodable("Profile saved to "@, path),
        Err(ExportError::Report(ReportError::Sampler(reason))) => lemma_joined_text_is_encodable(
            "Failed to build report: "@,
            reason@,
        ),
        Err(ExportError::Report(ReportError::Internal)) => {},
        Err(ExportError::Write(WriteError::Profile(reason))) => lemma_joined_text_is_encodable(
            "Failed to create pprof profile: "@,
            reason@,
        ),
        Err(ExportError::Write(WriteError::Internal)) => {},
        Err(ExportError::Write(WriteError::Encoding(reason))) => lemma_joined_text_is_encodable(
            "Failed to write profile: "@,
            reason@,
        ),
        Err(ExportError::Write(WriteError::File(reason))) => lemma_joined_text_is_encodable(
            "Failed to write profile: "@,
            reason@,
        ),
    }
}

/// The status string tells how the export ended: it begins with the words
/// for a saved profile exactly when the export succeeded, whatever the path
/// and the text from outside hold, and with the words for a failed write
/// when the file could not be created or written.
pub proof fn lemma_status_tells_outcome(path: Seq<char>, outcome: Result<(), ExportError>)
    ensures
        outcome is Ok <==> "Profile saved to "@.is_prefix_of(export_status(path, outcome)),
        outcome matches Err(ExportError::Write(WriteError::File(_)))
            ==> "Failed to write profile: "@.is_prefix_of(export_status(path, outcome)),
{
    reveal_strlit("Profile saved to ");
    reveal_strlit("Failed to build report: ");
    reveal_strlit("Internal error: Failed to build report safely");
    reveal_strlit("Failed to create pprof profile: ");
    reveal_strlit("Internal error: Failed to create pprof profile safely");
    reveal_strlit("Failed to write profile: ");
    let saved = "Profile saved to "@;
    let status = export_status(path, outcome);
    if outcome is Ok {
        assert(status.subrange(0, saved.len() as int) =~= saved);
    } else {
        assert(status.len() > 0 && status[0] != 'P');
        if saved.is_prefix_of(status) {
            assert(status.subrange(0, saved.len() as int)[0] == saved[0]);
        }
        if outcome matches Err(ExportError::Write(WriteError::File(_))) {
            let failed = "Failed to write profile: "@;
            assert(status.subrange(0, failed.len() as int) =~= failed);
        }
    }
}

/// The status string of an export to `path` that ended in `outcome`.
pub fn describe_export(path: &str, outcome: &Result<(), ExportError>) -> (status: String)
    ensures
        status@ == export_status(path@, *outcome),
        *outcome is Ok <==> "Profile saved to "@.is_prefix_of(status@),
        *outcome matches Err(ExportError::Write(WriteError::File(_)))
            ==> "Failed to write profile: "@.is_prefix_of(status@),
        encodable(path@) && encodable(export_reason(*outcome)) ==> encodable(status@),
{
    proof {
        lemma_status_tells_outcome(path@, *outcome);
        if encodable(path@) && encodable(export_reason(*outcome)) {
            lemma_export_status_is_encodable(path@, *outcome);
        }
    }
    match outcome {
        Ok(()) => String::from_str("Profile saved to ").concat(path),
        Err(ExportError::Report(ReportError::Sampler(reason))) => String::from_str(
            "Failed to build report: ",
        ).concat(reason.as_str()),
        Err(ExportError::Report(ReportError::Internal)) => String::from_str(
            "Internal error: Failed to build report safely",
        ),
        Err(ExportError::Write(WriteError::Profile(reason))) => String::from_str(
            "Failed to create pprof profile: ",
        ).concat(reason.as_str()),
        Err(ExportError::Write(WriteError::Internal)) => String::from_str(
            "Internal error: Failed to create pprof profile safely",
        ),
        Err(ExportError::Write(WriteError::Encoding(reason))) => String::from_str(
            "Failed to write profile: ",
        ).concat(reason.as_str()),
        Err(ExportError::Write(WriteError::File(reason))) => String::from_str(
            "Failed to write profile: ",
        ).concat(reason.as_str()),
    }
}

/// What marks a stack frame in the text of a report.
pub open spec fn frame_marker() -> Seq<char> {
    "FRAME:"@
}

/// The rows that show the stacks of a report rendered as `text`: its lines
/// that hold a frame marker, in their order, or one line that says that
/// there are none.
pub open spec fn frame_listing(text: Seq<char>) -> Seq<Seq<char>> {
    let frames = lines_with(text, frame_marker());
    if frames.len() == 0 {
        seq!["No stack traces collected yet"@]
    } else {
        frames
    }
}

/// The row that stands for a report that could not be built.
pub open spec fn report_failure(error: ReportError) -> Seq<char> {
    match error {
        ReportError::Sampler(reason) => "Error building report: "@ + reason@,
        ReportError::Internal => "Internal error: Failed to build report safely"@,
    }
}

/// The row that says that there are no stacks holds no frame marker, so it
/// is not taken for a stack.
pub proof fn lemma_placeholder_is_no_frame()
    ensures
        !contains("No stack traces collected yet"@, frame_marker()),
{
    reveal_strlit("No stack traces collected yet");
    reveal_strlit("FRAME:");
    let placeholder = "No stack traces collected yet"@;
    assert forall|at: int| !occurs_at(placeholder, frame_marker(), at) by {
        if 0 <= at && at + frame_marker().len() <= placeholder.len() {
            assert(placeholder.subrange(at, at + frame_marker().len())[0] == placeholder[at]);
            assert(placeholder[at] != 'F');
        }
    }
}

/// What holds of the rows of a listing: there is at least one; without a
/// frame marker in `text` it is the one that says that there are no stacks;
/// otherwise each row is a stretch of `text` that holds the marker and no
/// line feed, which the row that says that there are none is not; and every
/// row is encodable if `text` is.
pub proof fn lemma_listing(text: Seq<char>)
    ensures
        frame_listing(text).len() > 0,
        !contains(text, frame_marker()) ==> frame_listing(text) == seq![
            "No stack traces collected yet"@,
        ],
        frame_listing(text) == seq!["No stack traces collected yet"@] || forall|i: int|
            0 <= i < frame_listing(text).len() ==> {
                &&& contains(#[trigger] frame_listing(text)[i], frame_marker())
                &&& is_piece(text, frame_listing(text)[i])
                &&& !frame_listing(text)[i].contains('\n')
            },
        !contains("No stack traces collected yet"@, frame_marker()),
        encodable(text) ==> all_encodable(frame_listing(text)),
{
    let frames = lines_with(text, frame_marker());
    lemma_placeholder_is_no_frame();
    lemma_lines_with(text, frame_marker());
    if !contains(text, frame_marker()) {
        lemma_no_marker_no_lines(text, frame_marker());
    }
    if encodable(text) {
        if frames.len() == 0 {
            reveal_strlit("No stack traces collected yet");
        } else {
            assert forall|i: int| 0 <= i < frames.len() implies encodable(#[trigger] frames[i]) by {
                if frames[i].contains('\0') {
                    lemma_piece_chars(text, frames[i], '\0');
                }
            }
        }
    }
}

/// The row that stands for a report that could not be built is encodable
/// where the error text of the profiler is.
pub proof fn lemma_report_failure_is_encodable(error: ReportError)
    requires
        error matches ReportError::Sampler(reason) ==> encodable(reason@),
    ensures
        encodable(report_failure(error)),
{
    reveal_strlit("Error building report: ");
    reveal_strlit("Internal error: Failed to build report safely");
    if let ReportError::Sampler(reason) = error {
        lemma_joined_text_is_encodable("Error building report: "@, reason@);
    }
}

/// The rows that show the stacks of a report rendered as `text`.
pub fn list_frames_in(text: &str) -> (rows: Vec<String>)
    ensures
        rows.deep_view() == frame_listing(text@),
        encodable(text@) ==> all_encodable(rows.deep_view()),
{
    proof {
        lemma_listing(text@);
    }
    let mut rows = marked_lines(text, "FRAME:");
    if rows.len() == 0 {
        rows.push(String::from_str("No stack traces collected yet"));
    }
    rows
}

/// The rows of an inspection: the stacks of the report, or the one row that
/// says why there is no report. Never empty.
///
/// The text of a report is the profiler's, so for a report the rows are the
/// listing of some text.
pub fn list_frames(built: &Result<SessionReport, ReportError>) -> (rows: Vec<String>)
    ensures
        rows.len() > 0,
        match *built {
            Ok(_) => exists|text: Seq<char>| rows.deep_view() == frame_listing(text),
            Err(error) => {
                &&& rows.deep_view() == seq![report_failure(error)]
                &&& (error matches ReportError::Sampler(reason) ==> encodable(reason@))
                    ==> all_encodable(rows.deep_view())
            },
        },
{
    proof {
        if *built is Err {
            let error = built->Err_0;
            if error matches ReportError::Sampler(reason) ==> encodable(reason@) {
                lemma_report_failure_is_encodable(error);
            }
        }
    }
    match built {
        Ok(report) => {
            let text = report.render();
            proof {
                lemma_listing(text@);
            }
            list_frames_in(text.as_str())
        },
        Err(ReportError::Sampler(reason)) => {
            let mut rows: Vec<String> = Vec::new();
            rows.push(String::from_str("Error building report: ").concat(reason.as_str()));
            rows
        },
        Err(ReportError::Internal) => {
            let mut rows: Vec<String> = Vec::new();
            rows.push(String::from_str("Internal error: Failed to build report safely"));
            rows
        },
    }
}

} // verus!
