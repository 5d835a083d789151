//! A mutual-exclusion guard for a synchronously re-entrant execution
//! environment: a host call made inside a critical section may call back
//! into the same component before the section returns. The guard owns one
//! flag of execution state and rejects any nested entry while the flag is
//! set, so at most one critical section is ever active on a guard.
//!
//! Because a nested invocation runs while the outer one still holds its
//! borrow of the surrounding state, a critical section here is a function
//! value that receives the guard in its entered state together with a
//! caller-chosen context value, and returns the context (possibly updated)
//! with its result. On a rejected entry the context is handed back
//! untouched, which is how "no side effect on rejection" is stated.

use vstd::prelude::*;

verus! {

/// The two states of the guard's state machine: `Idle` while no critical
/// section is running, `Active` from the moment a section is entered until
/// the moment it returns, across every nested call made in between.
#[derive(Clone, Copy, Debug, PartialEq, Eq, Structural)]
pub enum GuardState {
    Idle,
    Active,
}

/// The only error the guard itself produces: an entry was attempted while
/// a critical section was already active on the same guard.
#[derive(Clone, Copy, Debug, PartialEq, Eq, Structural)]
pub enum ReentrancyGuardError {
    ReentrantCall,
}

/// A single-flag reentrancy guard. The flag is owned exclusively by the
/// guard: consumers reach it only through [`ReentrancyGuard::non_reentrant`].
#[derive(Clone, Copy)]
pub struct ReentrancyGuard {
    /// True exactly while a critical section is executing.
    entered: bool,
}

impl View for ReentrancyGuard {
    type V = GuardState;

    closed spec fn view(&self) -> GuardState {
        if self.entered {
            GuardState::Active
        } else {
            GuardState::Idle
        }
    }
}

/// The one guard value whose state is `Active`: the value a critical
/// section observes while it runs. The guard carries no data besides its
/// flag, so the state determines the value.
pub closed spec fn active_guard() -> ReentrancyGuard {
    ReentrancyGuard { entered: true }
}

/// The value a critical section is handed is in the `Active` state.
pub proof fn lemma_active_guard_state()
    ensures
        active_guard()@ == GuardState::Active,
{
}

/// Whether the guard's state machine admits a new entry: only from `Idle`.
/// An attempt made from `Active` is a rejected transition that leaves the
/// state unchanged.
pub open spec fn enter_allowed(s: GuardState) -> bool {
    s == GuardState::Idle
}

/// The guard state after a completed top-level attempt that found the guard
/// in state `s`: an admitted attempt returns to `Idle` whatever the critical
/// section's outcome was, and a rejected attempt leaves `s` as it is.
pub open spec fn run_result_state(s: GuardState) -> GuardState {
    if enter_allowed(s) {
        GuardState::Idle
    } else {
        s
    }
}

/// Mutual exclusion over the guard's state machine: while a critical section
/// is active the guard admits no second entry, so a call nested inside a
/// running section is rejected and leaves the state `Active`, exactly as it
/// found it.
pub proof fn lemma_mutual_exclusion(s: GuardState)
    requires
        s == GuardState::Active,
    ensures
        !enter_allowed(s),
        run_result_state(s) == s,
{
}

/// Idempotent reset: an admitted attempt leaves the guard `Idle` again
/// whatever the section's outcome, so a subsequent independent attempt is
/// admitted in turn. The guard's state machine cycles for the life of the
/// component.
pub proof fn lemma_idempotent_reset(s: GuardState)
    requires
        enter_allowed(s),
    ensures
        run_result_state(s) == GuardState::Idle,
        enter_allowed(run_result_state(s)),
{
}

impl ReentrancyGuard {
    /// A fresh guard, at rest.
    pub fn new() -> (g: Self)
        ensures
            g@ == GuardState::Idle,
    {
        ReentrancyGuard { entered: false }
    }

    /// Initializes the guard, setting the flag to its rest state. Meant to
    /// run once, at construction of the surrounding component, before any
    /// guarded call.
    pub fn init(&mut self)
        ensures
            final(self)@ == GuardState::Idle,
    {
        self.entered = false;
    }

    /// The guard's current state, for observation only.
    pub fn state(&self) -> (s: GuardState)
        ensures
            s == self@,
    {
        if self.entered {
            GuardState::Active
        } else {
            GuardState::Idle
        }
    }

    /// Runs `f` as a critical section under mutual exclusion.
    ///
    /// If the guard is already `Active`, the attempt is rejected: the result
    /// is `ReentrantCall`, the guard is unchanged, and `ctx` is returned
    /// exactly as it was given — `f` is never invoked and no side effect
    /// takes place.
    ///
    /// Otherwise the flag is set *before* `f` runs — so `f` observes the
    /// guard as `Active`, and any nested entry attempt made from inside `f`
    /// (or from a host callback reached through it) is rejected — and is
    /// cleared *after* `f` returns, unconditionally, on success and on a
    /// domain error alike. The section's own result passes through
    /// unchanged, wrapped as `Ok`.
    pub fn non_reentrant<T, C, F: FnOnce(ReentrancyGuard, C) -> (C, Result<T, ReentrancyGuardError>)>(
        &mut self,
        ctx: C,
        f: F,
    ) -> (out: (C, Result<T, ReentrancyGuardError>))
        requires
            enter_allowed(old(self)@) ==> call_requires(f, (active_guard(), ctx)),
        ensures
            final(self)@ == run_result_state(old(self)@),
            !enter_allowed(old(self)@) ==> {
                &&& *final(self) == *old(self)
                &&& out.0 == ctx
                &&& out.1 == Result::<T, ReentrancyGuardError>::Err(ReentrancyGuardError::ReentrantCall)
            },
            enter_allowed(old(self)@) ==> call_ensures(f, (active_guard(), ctx), out),
    {
        if self.entered {
            return (ctx, Err(ReentrancyGuardError::ReentrantCall));
        }
        self.entered = true;
        let g = ReentrancyGuard { entered: true };
        let out = f(g, ctx);
        self.entered = false;
        out
    }
}

} // verus!
