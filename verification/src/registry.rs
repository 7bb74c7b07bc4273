//! The session registry: the one slot that holds the running session.
//!
//! A process keeps a single registry and reaches it under a lock: starting
//! and taking a session need the registry exclusively. The slot is private,
//! so a session gets in and out only through the operations below, and there
//! is never more than one.

use crate::sampler::{SamplerFailure, Session};
use vstd::prelude::*;

verus! {

/// How an attempt to start a session ended.
#[derive(Clone, Copy, Debug, PartialEq, Eq, Structural)]
pub enum StartOutcome {
    /// The registry was idle and holds a new session now.
    Started,
    /// The registry already held a session, which it keeps.
    AlreadyRunning,
}

/// Holder of at most one session.
pub struct SessionRegistry {
    slot: Option<Session>,
}

/// How an attempt to start ends in a registry that holds `slot`, where
/// `launched` is what the profiler answers when it is asked to start. It is
/// asked only when the registry is idle.
pub open spec fn start_outcome(
    slot: Option<Session>,
    launched: Result<Session, SamplerFailure>,
) -> Result<StartOutcome, SamplerFailure> {
    if slot is Some {
        Ok(StartOutcome::AlreadyRunning)
    } else {
        match launched {
            Ok(_) => Ok(StartOutcome::Started),
            Err(failure) => Err(failure),
        }
    }
}

/// What the registry holds after that attempt.
pub open spec fn slot_after_start(
    slot: Option<Session>,
    launched: Result<Session, SamplerFailure>,
) -> Option<Session> {
    if slot is Some {
        slot
    } else {
        match launched {
            Ok(session) => Some(session),
            Err(_) => None,
        }
    }
}

impl SessionRegistry {
    /// The session that is held, if any.
    pub closed spec fn session(&self) -> Option<Session> {
        self.slot
    }

    /// Whether a session is held.
    pub open spec fn active(&self) -> bool {
        self.session() is Some
    }

    /// An idle registry.
    pub fn new() -> (registry: SessionRegistry)
        ensures
            registry.session() is None,
    {
        SessionRegistry { slot: None }
    }

    /// Whether a session is held.
    pub fn is_active(&self) -> (held: bool)
        ensures
            held == self.active(),
    {
        self.slot.is_some()
    }

    /// Puts the answer of the profiler into an idle registry. An active
    /// registry keeps its session, and a session in `launched` is dropped,
    /// which stops it.
    pub fn install(&mut self, launched: Result<Session, SamplerFailure>) -> (outcome: Result<
        StartOutcome,
        SamplerFailure,
    >)
        ensures
            outcome == start_outcome(old(self).session(), launched),
            final(self).session() == slot_after_start(old(self).session(), launched),
    {
        if self.slot.is_some() {
            return Ok(StartOutcome::AlreadyRunning);
        }
        match launched {
            Ok(session) => {
                self.slot = Some(session);
                Ok(StartOutcome::Started)
            },
            Err(failure) => Err(failure),
        }
    }

    /// Starts a session unless one is held.
    ///
    /// An active registry is left as it is and the profiler is not asked.
    /// In an idle registry the profiler decides: either it starts, and the
    /// registry holds the new session, or it says why it did not, and the
    /// registry stays idle. A session that was started runs with the
    /// signal-safe configuration.
    pub fn try_start(&mut self) -> (outcome: Result<StartOutcome, SamplerFailure>)
        ensures
            exists|launched: Result<Session, SamplerFailure>|
                {
                    &&& outcome == #[trigger] start_outcome(old(self).session(), launched)
                    &&& final(self).session() == slot_after_start(old(self).session(), launched)
                    &&& launched matches Ok(session) ==> session.signal_safe()
                },
    {
        if self.slot.is_some() {
            proof {
                let unasked: Result<Session, SamplerFailure> = Err(arbitrary());
                assert(start_outcome(self.session(), unasked) == Ok::<StartOutcome, SamplerFailure>(
                    StartOutcome::AlreadyRunning,
                ));
            }
            return Ok(StartOutcome::AlreadyRunning);
        }
        self.install(Session::launch())
    }

    /// Removes the session and hands it over.
    pub fn take_if_present(&mut self) -> (taken: Option<Session>)
        ensures
            taken == old(self).session(),
            final(self).session() is None,
    {
        self.slot.take()
    }

    /// The session, which stays where it is.
    pub fn peek_if_present(&self) -> (held: Option<&Session>)
        ensures
            held matches Some(session) ==> self.session() == Some(*session),
            held is None ==> self.session() is None,
    {
        self.slot.as_ref()
    }
}

} // verus!
