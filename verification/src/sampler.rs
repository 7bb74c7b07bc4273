//! The sampling profiler.
//!
//! Stack sampling, symbol resolution and the profile encoding belong to the
//! `pprof` crate. This module declares its types, wraps the calls that are
//! made into it, and gives the rest of the library two types of its own:
//! `Session`, a running profiler together with the configuration it was
//! started with, and `SessionReport`, the samples of a session at one
//! moment.
//!
//! None of the wrappers promises anything about what the profiler returns:
//! that depends on the machine and on what the process did while it was
//! sampled. A call into the profiler may also raise a fault instead of
//! returning; the library does not contain faults, its callers do.

use vstd::prelude::*;
use vstd::string::StringExecFns;

verus! {

/// `pprof::ProfilerGuard`: the running profiler. It stops when the guard is
/// dropped. Nothing inside it is visible here.
#[verifier::external_type_specification]
#[verifier::external_body]
pub struct ExProfilerGuard<'a>(pprof::ProfilerGuard<'a>);

/// `pprof::Report`: the stacks that were sampled, with their counts. Nothing
/// inside it is visible here.
#[verifier::external_type_specification]
#[verifier::external_body]
pub struct ExReport(pprof::Report);

/// `pprof::protos::Profile`: a report as a profile message. Nothing inside
/// it is visible here.
#[verifier::external_type_specification]
#[verifier::external_body]
pub struct ExProfile(pprof::protos::Profile);

/// `pprof::Error`: why the profiler refused. Nothing inside it is visible
/// here.
#[verifier::external_type_specification]
#[verifier::external_body]
pub struct ExSamplerError(pprof::Error);

/// Samples per second of every session.
pub const SAMPLING_FREQUENCY: i32 = 1000;

/// Names of the libraries in which no sample is taken, because unwinding a
/// stack from inside them is not safe in a signal handler.
pub open spec fn exclusion_names() -> Seq<Seq<char>> {
    seq!["libc"@, "libgcc"@, "pthread"@, "vdso"@]
}

/// The exclusion list as it is handed to the profiler.
pub fn exclusion_list() -> (names: Vec<String>)
    ensures
        names.deep_view() == exclusion_names(),
{
    let mut names: Vec<String> = Vec::new();
    names.push(String::from_str("libc"));
    names.push(String::from_str("libgcc"));
    names.push(String::from_str("pthread"));
    names.push(String::from_str("vdso"));
    names
}

/// Starts the profiler: `pprof::ProfilerGuardBuilder::default()`, then
/// `frequency`, `blocklist` and `build`.
///
/// `build` divides one million by the frequency when it arms the timer, so
/// a frequency of zero is left out. Whether the profiler starts depends on
/// the process (its signal handlers, a profiler that already runs), so
/// nothing is claimed of the result.
#[verifier::external_body]
fn start_profiler(frequency: i32, exclusions: &Vec<String>) -> (started: Result<
    pprof::ProfilerGuard<'static>,
    pprof::Error,
>)
    requires
        frequency != 0,
{
    pprof::ProfilerGuardBuilder::default().frequency(frequency).blocklist(exclusions).build()
}

/// The text of a profiler error, as the `Display` impl of `pprof::Error`
/// writes it. Nothing is claimed of the text.
#[verifier::external_body]
fn error_text(error: &pprof::Error) -> (text: String) {
    format!("{}", error)
}

/// Builds a report of the samples collected so far:
/// `pprof::ProfilerGuard::report`, then `pprof::ReportBuilder::build`.
///
/// The guard is only borrowed and goes on sampling. The samples are whatever
/// the signal handler has recorded, so nothing is claimed of the result.
#[verifier::external_body]
fn collect_report(guard: &pprof::ProfilerGuard<'static>) -> (built: Result<
    pprof::Report,
    pprof::Error,
>) {
    guard.report().build()
}

/// The report as a profile message: `pprof::Report::pprof`.
///
/// It divides by the sampling frequency that the report carries, which is
/// that of the guard the report was built from and so not zero. Nothing is
/// claimed of the result.
#[verifier::external_body]
fn report_profile(report: &pprof::Report) -> (profile: Result<
    pprof::protos::Profile,
    pprof::Error,
>) {
    report.pprof()
}

/// The bytes of a profile message: `prost::Message::encode`, which `pprof`
/// hands on as `pprof::protos::Message`, into an empty vector. An encoding
/// error comes back as its text. Nothing is claimed of the bytes.
#[verifier::external_body]
fn profile_bytes(profile: &pprof::protos::Profile) -> (encoded: Result<Vec<u8>, String>) {
    let mut content = Vec::new();
    match pprof::protos::Message::encode(profile, &mut content) {
        Ok(()) => Ok(content),
        Err(error) => Err(error.to_string()),
    }
}

/// The report as the `Debug` impl of `pprof::Report` writes it: one line for
/// each distinct stack, in the order in which the report's hash map is
/// walked. That order differs from run to run, so nothing is claimed of the
/// text.
#[verifier::external_body]
fn report_text(report: &pprof::Report) -> (text: String) {
    format!("{:?}", report)
}

/// Why the profiler could not be started.
#[derive(Debug)]
pub struct SamplerFailure {
    pub reason: String,
}

/// Why no report could be built from a session.
#[derive(Debug)]
pub enum ReportError {
    /// The profiler returned an error; this is its text.
    Sampler(String),
    /// The profiler raised a fault, which the caller contained.
    Internal,
}

/// Why a report was not written out as a profile.
#[derive(Debug)]
pub enum WriteError {
    /// The profiler could not turn the report into a profile; its error text.
    Profile(String),
    /// The profiler raised a fault on the way, which the caller contained.
    Internal,
    /// The profile could not be serialised; the encoder's error text.
    Encoding(String),
    /// The file could not be created or written; the error text.
    File(String),
}

/// A running profiler, with the configuration it was started with.
///
/// Dropping a session stops the profiler.
pub struct Session {
    guard: pprof::ProfilerGuard<'static>,
    frequency: i32,
    exclusions: Vec<String>,
}

/// The samples of a session at the moment the report was built.
pub struct SessionReport {
    report: pprof::Report,
}

impl Session {
    /// Samples per second this session was started with.
    pub closed spec fn sampling_frequency(&self) -> int {
        self.frequency as int
    }

    /// Library names this session was started with.
    pub closed spec fn excluded(&self) -> Seq<Seq<char>> {
        self.exclusions.deep_view()
    }

    /// The session was started at `SAMPLING_FREQUENCY` with the exclusion
    /// list.
    pub open spec fn signal_safe(&self) -> bool {
        &&& self.sampling_frequency() == SAMPLING_FREQUENCY
        &&& self.excluded() == exclusion_names()
    }

    /// Starts the profiler at `SAMPLING_FREQUENCY` with the exclusion list.
    /// The profiler decides whether it starts; when it does, the session
    /// records what it was started with.
    ///
    /// Only the registry starts sessions, so that every session is held by a
    /// registry or was taken out of one.
    pub(crate) fn launch() -> (launched: Result<Session, SamplerFailure>)
        ensures
            launched matches Ok(session) ==> session.signal_safe(),
    {
        let exclusions = exclusion_list();
        match start_profiler(SAMPLING_FREQUENCY, &exclusions) {
            Ok(guard) => Ok(Session { guard, frequency: SAMPLING_FREQUENCY, exclusions }),
            Err(error) => Err(SamplerFailure { reason: error_text(&error) }),
        }
    }

    /// Samples per second this session was started with.
    pub fn frequency(&self) -> (hz: i32)
        ensures
            hz == self.sampling_frequency(),
    {
        self.frequency
    }

    /// Library names this session was started with.
    pub fn exclusions(&self) -> (names: &Vec<String>)
        ensures
            names.deep_view() == self.excluded(),
    {
        &self.exclusions
    }

    /// Builds a report of the samples collected so far. The session is not
    /// consumed and goes on sampling.
    ///
    /// An error of the profiler comes back as `ReportError::Sampler`. A fault
    /// of the profiler is not contained here: the caller that contains it
    /// reports `ReportError::Internal`.
    pub fn report(&self) -> (built: Result<SessionReport, ReportError>)
        ensures
            built matches Err(error) ==> error is Sampler,
    {
        match collect_report(&self.guard) {
            Ok(report) => Ok(SessionReport { report }),
            Err(error) => Err(ReportError::Sampler(error_text(&error))),
        }
    }
}

impl SessionReport {
    /// The report as a serialised profile message.
    ///
    /// An error of the profiler comes back as `WriteError::Profile`, one of
    /// the encoder as `WriteError::Encoding`. A fault of the profiler is not
    /// contained here: the caller that contains it reports
    /// `WriteError::Internal`.
    pub fn encode(&self) -> (encoded: Result<Vec<u8>, WriteError>)
        ensures
            encoded matches Err(error) ==> error is Profile || error is Encoding,
    {
        match report_profile(&self.report) {
            Ok(profile) => match profile_bytes(&profile) {
                Ok(bytes) => Ok(bytes),
                Err(text) => Err(WriteError::Encoding(text)),
            },
            Err(error) => Err(WriteError::Profile(error_text(&error))),
        }
    }

    /// The report as text, one line for each distinct stack.
    pub(crate) fn render(&self) -> (text: String) {
        report_text(&self.report)
    }
}

} // verus!
