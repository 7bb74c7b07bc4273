//! Sequences of calls: what holds of the registry however the calls are
//! ordered.
//!
//! The registry is reached under one lock, so calls that arrive together
//! take effect one after another, in some order. A statement about every
//! sequence of calls is therefore a statement about every interleaving.

use crate::controller::{
    idle_status, results_reply, slot_after_start_call, slot_after_stop_call, start_reply,
    start_status, stop_reply, Reply,
};
use crate::registry::{slot_after_start, start_outcome, StartOutcome};
use crate::sampler::{SamplerFailure, Session};
use vstd::prelude::*;

verus! {

/// The first invocation of a call of one of the three operations. A start
/// carries what the profiler answers if it is asked.
pub enum Call {
    Start(Result<Session, SamplerFailure>),
    Stop,
    Results,
}

/// What the registry holds after `call`.
pub open spec fn slot_after(slot: Option<Session>, call: Call) -> Option<Session> {
    match call {
        Call::Start(launched) => slot_after_start_call(false, slot, launched),
        Call::Stop => slot_after_stop_call(false, slot),
        Call::Results => slot,
    }
}

/// What the registry holds after `calls`, one after another.
pub open spec fn slot_after_all(slot: Option<Session>, calls: Seq<Call>) -> Option<Session>
    decreases calls.len(),
{
    if calls.len() == 0 {
        slot
    } else {
        slot_after(slot_after_all(slot, calls.drop_last()), calls.last())
    }
}

/// One start for each of `answers`, in their order, each with the answer
/// that the profiler would give to it.
pub open spec fn starts(answers: Seq<Result<Session, SamplerFailure>>) -> Seq<Call> {
    Seq::new(answers.len(), |i: int| Call::Start(answers[i]))
}

/// Results, called `times` times.
pub open spec fn inspections(times: nat) -> Seq<Call> {
    Seq::new(times, |i: int| Call::Results)
}

/// What may be seen of a call.
pub enum Event {
    /// The call puts a new session into the registry.
    Opens,
    /// The call takes the session out of the registry.
    Takes,
    /// The call yields the row that reports a new session.
    ReportsStarted,
    /// The call yields the row that reports a session that was already there.
    ReportsRunning,
}

/// `event` is seen of `call` when the registry holds `slot`.
pub open spec fn seen(event: Event, slot: Option<Session>, call: Call) -> bool {
    match event {
        Event::Opens => call matches Call::Start(launched) && start_outcome(slot, launched) == Ok::<
            StartOutcome,
            SamplerFailure,
        >(StartOutcome::Started),
        Event::Takes => call is Stop && stop_reply(false, slot) is Export,
        Event::ReportsStarted => call matches Call::Start(launched) && start_reply(
            false,
            slot,
            launched,
        ) == Ok::<Seq<Seq<char>>, SamplerFailure>(seq![start_status(StartOutcome::Started)]),
        Event::ReportsRunning => call matches Call::Start(launched) && start_reply(
            false,
            slot,
            launched,
        ) == Ok::<Seq<Seq<char>>, SamplerFailure>(seq![start_status(StartOutcome::AlreadyRunning)]),
    }
}

/// 1 where a session is held, else 0.
pub open spec fn held(slot: Option<Session>) -> int {
    if slot is Some {
        1
    } else {
        0
    }
}

/// Of how many of `calls` `event` is seen, each call judged by what the
/// registry holds when its turn comes.
pub open spec fn count(event: Event, slot: Option<Session>, calls: Seq<Call>) -> int
    decreases calls.len(),
{
    if calls.len() == 0 {
        0
    } else {
        count(event, slot, calls.drop_last()) + if seen(
            event,
            slot_after_all(slot, calls.drop_last()),
            calls.last(),
        ) {
            1int
        } else {
            0int
        }
    }
}

/// The first invocations on an idle registry: a start that the profiler
/// answers with a session yields the row that reports it and leaves the
/// registry active; a stop and results yield the row that says that there is
/// no session, and the registry stays idle.
pub proof fn lemma_calls_on_idle(session: Session)
    ensures
        start_reply(false, None, Ok(session)) == Ok::<Seq<Seq<char>>, SamplerFailure>(
            seq![start_status(StartOutcome::Started)],
        ),
        slot_after(None, Call::Start(Ok(session))) == Some(session),
        stop_reply(false, None) == Reply::Rows(seq![idle_status()]),
        slot_after(None, Call::Stop) is None,
        results_reply(false, None) == Reply::Rows(seq![idle_status()]),
        slot_after(None, Call::Results) is None,
{
}

/// A start never succeeds while a session is held: it reports the session
/// that is there and leaves it in place.
pub proof fn lemma_no_start_while_active(
    session: Session,
    launched: Result<Session, SamplerFailure>,
)
    ensures
        start_outcome(Some(session), launched) == Ok::<StartOutcome, SamplerFailure>(
            StartOutcome::AlreadyRunning,
        ),
        slot_after_start(Some(session), launched) == Some(session),
{
}

/// Sessions are neither lost nor doubled: after any sequence of calls, the
/// sessions held at first plus those started, less those taken out, are the
/// sessions held at last, which is none or one.
pub proof fn lemma_at_most_one_session(slot: Option<Session>, calls: Seq<Call>)
    ensures
        held(slot) + count(Event::Opens, slot, calls) - count(Event::Takes, slot, calls) == held(
            slot_after_all(slot, calls),
        ),
        0 <= held(slot_after_all(slot, calls)) <= 1,
    decreases calls.len(),
{
    if calls.len() > 0 {
        lemma_at_most_one_session(slot, calls.drop_last());
    }
}

/// A start on an active registry yields the row that says so, and a stop
/// that follows it still gets the session that was there.
pub proof fn lemma_start_keeps_session(session: Session, launched: Result<Session, SamplerFailure>)
    ensures
        start_reply(false, Some(session), launched) == Ok::<Seq<Seq<char>>, SamplerFailure>(
            seq![start_status(StartOutcome::AlreadyRunning)],
        ),
        stop_reply(false, slot_after_start_call(false, Some(session), launched)) == Reply::Export(
            session,
        ),
{
}

/// A stop on an active registry takes the session for export and leaves the
/// registry idle, before the export begins and so however it ends.
pub proof fn lemma_stop_consumes_session(session: Session)
    ensures
        stop_reply(false, Some(session)) == Reply::Export(session),
        slot_after_stop_call(false, Some(session)) is None,
        stop_reply(false, slot_after_stop_call(false, Some(session))) == Reply::Rows(
            seq![idle_status()],
        ),
{
}

/// Results does not consume the session: however often it is called, it
/// hands out the session that is held, and a stop that follows gets that
/// session.
pub proof fn lemma_results_keep_session(session: Session, times: nat)
    ensures
        slot_after_all(Some(session), inspections(times)) == Some(session),
        results_reply(false, slot_after_all(Some(session), inspections(times))) == Reply::Inspect(
            session,
        ),
        stop_reply(false, slot_after_all(Some(session), inspections(times))) == Reply::Export(
            session,
        ),
    decreases times,
{
    if times > 0 {
        assert(inspections(times).drop_last() =~= inspections((times - 1) as nat));
        lemma_results_keep_session(session, (times - 1) as nat);
    }
}

/// An invocation with an exhausted cursor, as every invocation after the
/// first of a call is, yields no rows and leaves the registry as it is.
pub proof fn lemma_later_invocations_yield_nothing(
    slot: Option<Session>,
    launched: Result<Session, SamplerFailure>,
)
    ensures
        start_reply(true, slot, launched) == Ok::<Seq<Seq<char>>, SamplerFailure>(Seq::empty()),
        slot_after_start_call(true, slot, launched) == slot,
        stop_reply(true, slot) == Reply::Rows(Seq::empty()),
        slot_after_stop_call(true, slot) == slot,
        results_reply(true, slot) == Reply::Rows(Seq::empty()),
{
}

/// Starts that meet on an idle registry: in whichever order they take
/// effect, if the profiler starts for the one that comes first, exactly that
/// one reports a new session, every other one reports a session that is
/// already there, and the registry holds the one session.
pub proof fn lemma_starts_on_idle(answers: Seq<Result<Session, SamplerFailure>>)
    requires
        answers.len() >= 1,
        answers[0] is Ok,
    ensures
        count(Event::ReportsStarted, None, starts(answers)) == 1,
        count(Event::ReportsRunning, None, starts(answers)) == answers.len() - 1,
        slot_after_all(None, starts(answers)) == Some(answers[0]->Ok_0),
    decreases answers.len(),
{
    let calls = starts(answers);
    let before = starts(answers.drop_last());
    assert(calls.drop_last() =~= before);
    if answers.len() > 1 {
        lemma_starts_on_idle(answers.drop_last());
    } else {
        assert(count(Event::ReportsStarted, None, before) == 0);
        assert(count(Event::ReportsRunning, None, before) == 0);
    }
    let started = seq![start_status(StartOutcome::Started)];
    let running = seq![start_status(StartOutcome::AlreadyRunning)];
    assert(started != running) by {
        lemma_rows_differ();
        assert(started[0] != running[0]);
    }
    let slot = slot_after_all(None, before);
    assert(seen(Event::ReportsStarted, slot, calls.last()) == (slot is None));
    assert(seen(Event::ReportsRunning, slot, calls.last()) == (slot is Some));
}

/// The two rows of start are different texts.
pub proof fn lemma_rows_differ()
    ensures
        start_status(StartOutcome::Started) != start_status(StartOutcome::AlreadyRunning),
{
    reveal_strlit("Profiling started with signal-safe configuration");
    reveal_strlit("Profiling already running");
    assert(start_status(StartOutcome::Started).len() == 48);
    assert(start_status(StartOutcome::AlreadyRunning).len() == 25);
}

} // verus!
