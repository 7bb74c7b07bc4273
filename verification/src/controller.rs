//! The session controller: the three operations, start, stop and results.
//!
//! The host invokes an operation again and again until it gets no rows. The
//! first invocation of a call does the work and yields every row; each later
//! one yields none and changes nothing. The cursor of the call tells the two
//! apart.
//!
//! Stop and results end in work that is done outside this library, because
//! it may fault or touches a file. They hand the session to the caller, who
//! builds the report and, for stop, writes the profile. The materializer
//! turns what came of it into rows.

use crate::cursor::PerCallCursor;
use crate::registry::{slot_after_start, start_outcome, SessionRegistry, StartOutcome};
use crate::rows::{all_encodable, encodable};
use crate::sampler::{SamplerFailure, Session};
use vstd::prelude::*;
use vstd::string::StringExecFns;

verus! {

/// The three operations.
#[derive(Clone, Copy, Debug, PartialEq, Eq, Structural)]
pub enum Operation {
    Start,
    Stop,
    Results,
}

impl Operation {
    /// Name of the one column of its rows.
    pub open spec fn column(self) -> Seq<char> {
        match self {
            Operation::Start => "status"@,
            Operation::Stop => "status"@,
            Operation::Results => "stack_trace"@,
        }
    }

    /// Whether a call of it is bound to a path.
    pub open spec fn takes_path(self) -> bool {
        self == Operation::Stop
    }

    /// Name of the one column of its rows.
    pub fn column_name(self) -> (name: &'static str)
        ensures
            name@ == self.column(),
            encodable(name@),
    {
        proof {
            reveal_strlit("status");
            reveal_strlit("stack_trace");
        }
        match self {
            Operation::Start => "status",
            Operation::Stop => "status",
            Operation::Results => "stack_trace",
        }
    }

    /// Whether a call of it is bound to a path.
    pub fn has_path(self) -> (bound: bool)
        ensures
            bound == self.takes_path(),
    {
        match self {
            Operation::Stop => true,
            _ => false,
        }
    }
}

/// The row that tells how an attempt to start ended.
pub open spec fn start_status(outcome: StartOutcome) -> Seq<char> {
    match outcome {
        StartOutcome::Started => "Profiling started with signal-safe configuration"@,
        StartOutcome::AlreadyRunning => "Profiling already running"@,
    }
}

/// The row of stop and results when no session is held.
pub open spec fn idle_status() -> Seq<char> {
    "No profiling session running"@
}

/// What an invocation of stop or results comes to.
pub enum Reply {
    /// These rows, and nothing more to do.
    Rows(Seq<Seq<char>>),
    /// This session was taken out of the registry and is to be exported.
    Export(Session),
    /// This session stays in the registry and is to be inspected.
    Inspect(Session),
}

/// The rows of an invocation of start, or the failure of the profiler.
pub open spec fn start_reply(
    exhausted: bool,
    slot: Option<Session>,
    launched: Result<Session, SamplerFailure>,
) -> Result<Seq<Seq<char>>, SamplerFailure> {
    if exhausted {
        Ok(Seq::empty())
    } else {
        match start_outcome(slot, launched) {
            Ok(outcome) => Ok(seq![start_status(outcome)]),
            Err(failure) => Err(failure),
        }
    }
}

/// The rows of `result` as sequences of characters.
pub open spec fn shown(result: Result<Vec<String>, SamplerFailure>) -> Result<
    Seq<Seq<char>>,
    SamplerFailure,
> {
    match result {
        Ok(rows) => Ok(rows.deep_view()),
        Err(failure) => Err(failure),
    }
}

/// What the registry holds after an invocation of start.
pub open spec fn slot_after_start_call(
    exhausted: bool,
    slot: Option<Session>,
    launched: Result<Session, SamplerFailure>,
) -> Option<Session> {
    if exhausted {
        slot
    } else {
        slot_after_start(slot, launched)
    }
}

/// What an invocation of stop comes to.
pub open spec fn stop_reply(exhausted: bool, slot: Option<Session>) -> Reply {
    if exhausted {
        Reply::Rows(Seq::empty())
    } else {
        match slot {
            Some(session) => Reply::Export(session),
            None => Reply::Rows(seq![idle_status()]),
        }
    }
}

/// What the registry holds after an invocation of stop.
pub open spec fn slot_after_stop_call(exhausted: bool, slot: Option<Session>) -> Option<Session> {
    if exhausted {
        slot
    } else {
        None
    }
}

/// What an invocation of results comes to. It leaves the registry as it is.
pub open spec fn results_reply(exhausted: bool, slot: Option<Session>) -> Reply {
    if exhausted {
        Reply::Rows(Seq::empty())
    } else {
        match slot {
            Some(session) => Reply::Inspect(session),
            None => Reply::Rows(seq![idle_status()]),
        }
    }
}

/// What an invocation of stop comes to.
pub enum StopStep {
    /// These rows, and nothing more to do.
    Rows(Vec<String>),
    /// This session was taken out of the registry and is to be exported.
    Export(Session),
}

impl View for StopStep {
    type V = Reply;

    open spec fn view(&self) -> Reply {
        match *self {
            StopStep::Rows(rows) => Reply::Rows(rows.deep_view()),
            StopStep::Export(session) => Reply::Export(session),
        }
    }
}

/// What an invocation of results comes to.
pub enum ResultsStep<'a> {
    /// These rows, and nothing more to do.
    Rows(Vec<String>),
    /// This session stays in the registry and is to be inspected.
    Inspect(&'a Session),
}

impl<'a> View for ResultsStep<'a> {
    type V = Reply;

    open spec fn view(&self) -> Reply {
        match *self {
            ResultsStep::Rows(rows) => Reply::Rows(rows.deep_view()),
            ResultsStep::Inspect(session) => Reply::Inspect(*session),
        }
    }
}

/// The rows that do not depend on anything from outside are encodable.
pub proof fn lemma_fixed_rows_are_encodable()
    ensures
        encodable(start_status(StartOutcome::Started)),
        encodable(start_status(StartOutcome::AlreadyRunning)),
        encodable(idle_status()),
{
    reveal_strlit("Profiling started with signal-safe configuration");
    reveal_strlit("Profiling already running");
    reveal_strlit("No profiling session running");
}

/// The batch of one row.
fn one_row(row: String) -> (rows: Vec<String>)
    ensures
        rows.deep_view() == seq![row@],
{
    let mut rows: Vec<String> = Vec::new();
    rows.push(row);
    rows
}

/// The batch of no rows, which ends the iteration of a call.
fn no_rows() -> (rows: Vec<String>)
    ensures
        rows.deep_view() == Seq::<Seq<char>>::empty(),
{
    Vec::new()
}

/// The row that tells how an attempt to start ended.
pub fn describe_start(outcome: StartOutcome) -> (status: String)
    ensures
        status@ == start_status(outcome),
        encodable(status@),
{
    proof {
        lemma_fixed_rows_are_encodable();
    }
    match outcome {
        StartOutcome::Started => String::from_str(
            "Profiling started with signal-safe configuration",
        ),
        StartOutcome::AlreadyRunning => String::from_str("Profiling already running"),
    }
}

/// One invocation of start.
///
/// The first invocation of a call starts a session unless one is held, and
/// yields one row that says which. Where the profiler does not start, its
/// failure is returned and the registry stays idle. Later invocations yield
/// no rows and ask nothing of the registry or the profiler.
pub fn start(cursor: &mut PerCallCursor, registry: &mut SessionRegistry) -> (rows: Result<
    Vec<String>,
    SamplerFailure,
>)
    ensures
        final(cursor).exhausted(),
        rows matches Ok(batch) ==> all_encodable(batch.deep_view()),
        exists|launched: Result<Session, SamplerFailure>|
            {
                &&& shown(rows) == #[trigger] start_reply(
                    old(cursor).exhausted(),
                    old(registry).session(),
                    launched,
                )
                &&& final(registry).session() == slot_after_start_call(
                    old(cursor).exhausted(),
                    old(registry).session(),
                    launched,
                )
                &&& launched matches Ok(session) ==> session.signal_safe()
            },
{
    if !cursor.advance() {
        let rows = no_rows();
        proof {
            let unasked: Result<Session, SamplerFailure> = Err(arbitrary());
            assert(start_reply(true, registry.session(), unasked) == Ok::<
                Seq<Seq<char>>,
                SamplerFailure,
            >(Seq::empty()));
        }
        return Ok(rows);
    }
    let outcome = registry.try_start();
    proof {
        let launched = choose|launched: Result<Session, SamplerFailure>|
            {
                &&& outcome == #[trigger] start_outcome(old(registry).session(), launched)
                &&& registry.session() == slot_after_start(old(registry).session(), launched)
                &&& launched matches Ok(session) ==> session.signal_safe()
            };
        assert(start_reply(false, old(registry).session(), launched) == match outcome {
            Ok(o) => Ok::<Seq<Seq<char>>, SamplerFailure>(seq![start_status(o)]),
            Err(failure) => Err(failure),
        });
    }
    match outcome {
        Ok(outcome) => Ok(one_row(describe_start(outcome))),
        Err(failure) => Err(failure),
    }
}

/// One invocation of stop.
///
/// The first invocation of a call takes the session out of the registry and
/// hands it over for export, or yields the one row that says that there is
/// none. Later invocations yield no rows and leave the registry as it is.
pub fn stop(cursor: &mut PerCallCursor, registry: &mut SessionRegistry) -> (step: StopStep)
    ensures
        final(cursor).exhausted(),
        step@ == stop_reply(old(cursor).exhausted(), old(registry).session()),
        step matches StopStep::Rows(rows) ==> all_encodable(rows.deep_view()),
        final(registry).session() == slot_after_stop_call(
            old(cursor).exhausted(),
            old(registry).session(),
        ),
{
    proof {
        lemma_fixed_rows_are_encodable();
    }
    if !cursor.advance() {
        return StopStep::Rows(no_rows());
    }
    match registry.take_if_present() {
        Some(session) => StopStep::Export(session),
        None => StopStep::Rows(one_row(String::from_str("No profiling session running"))),
    }
}

/// One invocation of results.
///
/// The first invocation of a call hands out the session for inspection, or
/// yields the one row that says that there is none. Later invocations yield
/// no rows. The registry keeps what it holds.
pub fn results<'a>(cursor: &mut PerCallCursor, registry: &'a SessionRegistry) -> (step:
    ResultsStep<'a>)
    ensures
        final(cursor).exhausted(),
        step@ == results_reply(old(cursor).exhausted(), registry.session()),
        step matches ResultsStep::Rows(rows) ==> all_encodable(rows.deep_view()),
{
    proof {
        lemma_fixed_rows_are_encodable();
    }
    if !cursor.advance() {
        return ResultsStep::Rows(no_rows());
    }
    match registry.peek_if_present() {
        Some(session) => ResultsStep::Inspect(session),
        None => ResultsStep::Rows(one_row(String::from_str("No profiling session running"))),
    }
}

} // verus!
