//! The one-time-consumption flag of a single-shot asynchronous operation:
//! once the operation has yielded a terminal value, every later poll fails
//! with `FutureAlreadyCompleted` instead of driving the work again.

use vstd::prelude::*;
use crate::error::Error;

verus! {

/// Whether a single-shot operation has already yielded its terminal value.
#[derive(Debug)]
pub struct SingleShot {
    completed: bool,
}

/// What a poll is told to do: drive the operation, or fail because it has
/// already completed.
pub open spec fn poll_decision(completed: bool) -> Result<(), Error> {
    if completed {
        Err(Error::FutureAlreadyCompleted)
    } else {
        Ok(())
    }
}

/// Whether the operation has completed after one more poll, given whether
/// that poll yielded a terminal value.
pub open spec fn after_poll(completed: bool, terminal: bool) -> bool {
    completed || terminal
}

/// Whether the operation has completed after a run of polls, each given by
/// whether it yielded a terminal value.
pub open spec fn after_polls(completed: bool, terminals: Seq<bool>) -> bool
    decreases terminals.len(),
{
    if terminals.len() == 0 {
        completed
    } else {
        after_polls(after_poll(completed, terminals[0]), terminals.drop_first())
    }
}

impl SingleShot {
    /// Whether the terminal value has been handed out.
    pub closed spec fn is_done(self) -> bool {
        self.completed
    }

    /// A fresh operation that has not completed.
    pub fn new() -> (s: SingleShot)
        ensures
            !s.is_done(),
    {
        SingleShot { completed: false }
    }

    /// Whether the terminal value has been handed out.
    pub fn is_completed(&self) -> (r: bool)
        ensures
            r == self.is_done(),
    {
        self.completed
    }

    /// Decides a poll: `Ok` to drive the operation, or
    /// `FutureAlreadyCompleted` once it has completed.
    pub fn begin_poll(&self) -> (r: Result<(), Error>)
        ensures
            r == poll_decision(self.is_done()),
    {
        if self.completed {
            Err(Error::FutureAlreadyCompleted)
        } else {
            Ok(())
        }
    }

    /// Records what driving the operation gave: `Some` for a terminal value,
    /// which is handed back and marks the operation completed, `None` when it
    /// is still pending. An operation that had already completed hands back
    /// `FutureAlreadyCompleted` and drops what it was given.
    pub fn finish<T>(&mut self, outcome: Option<Result<T, Error>>) -> (r: Option<Result<T, Error>>)
        ensures
            final(self).is_done() == after_poll(old(self).is_done(), outcome is Some),
            old(self).is_done() ==> r == Some(Err::<T, Error>(Error::FutureAlreadyCompleted)),
            !old(self).is_done() ==> r == outcome,
    {
        if self.completed {
            return Some(Err(Error::FutureAlreadyCompleted));
        }
        if outcome.is_some() {
            self.completed = true;
        }
        outcome
    }
}

/// After a poll that yielded a terminal value, every later poll is refused
/// with `FutureAlreadyCompleted`, whatever the polls in between gave.
pub proof fn lemma_completed_is_final(completed: bool, later: Seq<bool>)
    ensures
        poll_decision(after_polls(after_poll(completed, true), later)) == Err::<(), Error>(
            Error::FutureAlreadyCompleted,
        ),
    decreases later.len(),
{
    if later.len() > 0 {
        lemma_completed_is_final(true, later.drop_first());
    }
}

} // verus!
