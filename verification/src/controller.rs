//! The life of one account: log in until it works, then attempt, back off,
//! and attempt again, for ever.
//!
//! The controller decides and the caller acts. Each decision is a command:
//! sleep for so long, then do one thing. The caller reports what the thing
//! gave as an event and receives the next command.

use crate::placement::{AttemptFailure, WorkOutcome};
use crate::session::{AuthError, Session};
use vstd::prelude::*;

verus! {

/// Attempts that one cycle may spend before the account backs off.
pub const MAX_ATTEMPTS: u32 = 5;

/// Pause before a login is tried again, in milliseconds.
pub const AUTH_RETRY_MILLIS: u64 = 1000;

/// Pause after an attempt that painted nothing, in milliseconds.
pub const ATTEMPT_PAUSE_MILLIS: u64 = 100;

/// The shortest back-off, in seconds.
pub const MIN_DELAY_SECONDS: u32 = 1;

/// What the caller is to do once it has slept.
#[derive(Clone, Copy, Debug, PartialEq, Eq)]
pub enum Task {
    /// Log in, and report `AuthSucceeded` or `AuthFailed`.
    Authenticate,
    /// Run one placement attempt under the current session, and report
    /// `AttemptEnded`.
    Attempt,
}

/// A decision of the controller: sleep, then act.
#[derive(Clone, Copy, Debug, PartialEq, Eq)]
pub struct Command {
    pub sleep_millis: u64,
    pub task: Task,
}

/// What the caller reports back.
#[derive(Debug)]
pub enum Event {
    /// The login gave a session.
    AuthSucceeded(Session),
    /// The login failed.
    AuthFailed(AuthError),
    /// A placement attempt ended, with an outcome or a failure.
    AttemptEnded(Result<WorkOutcome, AttemptFailure>),
}

/// The controller as mathematical values.
pub struct ControllerModel {
    /// The live session; none while the account has to log in.
    pub session: Option<Session>,
    /// Attempts that the current cycle has spent.
    pub attempts_used: nat,
    /// The back-off last recorded, in seconds.
    pub delay_seconds: nat,
}

impl ControllerModel {
    /// The invariant: a cycle never spends its whole budget without ending,
    /// and the recorded back-off is one that a response can carry.
    pub open spec fn wf(self) -> bool {
        self.attempts_used < MAX_ATTEMPTS && self.delay_seconds <= u32::MAX
    }

    /// Attempts that the current cycle may still spend.
    pub open spec fn remaining(self) -> int {
        MAX_ATTEMPTS - self.attempts_used
    }

    /// The state after an attempt that painted nothing, with the back-off to
    /// keep on record, and the command that follows: a short pause while
    /// the budget lasts, the pause and the back-off once it is spent.
    pub open spec fn after_spent_attempt(self, delay_seconds: nat) -> (ControllerModel, Command) {
        if self.attempts_used + 1 < MAX_ATTEMPTS {
            (
                ControllerModel {
                    session: self.session,
                    attempts_used: self.attempts_used + 1,
                    delay_seconds,
                },
                Command { sleep_millis: ATTEMPT_PAUSE_MILLIS, task: Task::Attempt },
            )
        } else {
            (
                ControllerModel { session: self.session, attempts_used: 0, delay_seconds },
                Command {
                    sleep_millis: (ATTEMPT_PAUSE_MILLIS + delay_seconds * 1000) as u64,
                    task: Task::Attempt,
                },
            )
        }
    }

    /// The transition: the state and the command that follow an event.
    pub open spec fn next(self, event: Event) -> (ControllerModel, Command) {
        match event {
            Event::AuthSucceeded(session) => (
                ControllerModel {
                    session: Some(session),
                    attempts_used: 0,
                    delay_seconds: self.delay_seconds,
                },
                Command { sleep_millis: 0, task: Task::Attempt },
            ),
            Event::AuthFailed(_) => (
                ControllerModel {
                    session: None,
                    attempts_used: 0,
                    delay_seconds: self.delay_seconds,
                },
                Command { sleep_millis: AUTH_RETRY_MILLIS, task: Task::Authenticate },
            ),
            Event::AttemptEnded(result) => if self.session is None {
                (self, Command { sleep_millis: AUTH_RETRY_MILLIS, task: Task::Authenticate })
            } else {
                match result {
                    Ok(WorkOutcome::Done(seconds)) | Ok(WorkOutcome::Wait(seconds)) => (
                        ControllerModel {
                            session: self.session,
                            attempts_used: 0,
                            delay_seconds: seconds as nat,
                        },
                        Command { sleep_millis: (seconds * 1000) as u64, task: Task::Attempt },
                    ),
                    Ok(WorkOutcome::NextJob) => self.after_spent_attempt(MIN_DELAY_SECONDS as nat),
                    Err(_) => self.after_spent_attempt(self.delay_seconds),
                }
            },
        }
    }
}

impl ControllerModel {
    /// The state and the total sleep, in milliseconds, after `n` attempts in
    /// a row that each found the canvas already right.
    pub open spec fn after_next_jobs(self, n: nat) -> (ControllerModel, nat)
        decreases n,
    {
        if n == 0 {
            (self, 0)
        } else {
            let (before, slept) = self.after_next_jobs((n - 1) as nat);
            let (after, command) = before.next(Event::AttemptEnded(Ok(WorkOutcome::NextJob)));
            (after, slept + command.sleep_millis as nat)
        }
    }
}

/// Every transition keeps the invariant: whatever the event, the budget that
/// remains afterwards is at least one attempt and at most the whole budget.
pub proof fn next_keeps_budget_in_range(state: ControllerModel, event: Event)
    requires
        state.wf(),
    ensures
        state.next(event).0.wf(),
        0 < state.next(event).0.remaining() <= MAX_ATTEMPTS,
{
}

/// An attempt that found the canvas already right costs exactly one attempt
/// of the budget and a pause; the attempt that spends the last one ends the
/// cycle with the pause and the shortest back-off, and the next cycle has
/// the whole budget again. The session stays, and the next task is another
/// attempt.
pub proof fn next_job_spends_one_attempt(state: ControllerModel)
    requires
        state.wf(),
        state.session is Some,
    ensures
        ({
            let (after, command) = state.next(Event::AttemptEnded(Ok(WorkOutcome::NextJob)));
            &&& after.session == state.session
            &&& command.task == Task::Attempt
            &&& command.sleep_millis >= ATTEMPT_PAUSE_MILLIS
            &&& after.delay_seconds == MIN_DELAY_SECONDS
            &&& 0 < after.remaining() <= MAX_ATTEMPTS
            &&& state.remaining() > 1 ==> after.remaining() == state.remaining() - 1
                && command.sleep_millis == ATTEMPT_PAUSE_MILLIS
            &&& state.remaining() == 1 ==> after.remaining() == MAX_ATTEMPTS
                && command.sleep_millis == ATTEMPT_PAUSE_MILLIS + MIN_DELAY_SECONDS * 1000
        }),
{
}

/// However many attempts in a row find the canvas already right, the
/// account never spins: each one pauses, and each time the budget runs out
/// the account backs off before the next cycle. The session stays
/// throughout.
pub proof fn next_jobs_always_sleep(state: ControllerModel, n: nat)
    requires
        state.wf(),
        state.session is Some,
    ensures
        ({
            let (after, slept) = state.after_next_jobs(n);
            &&& after.wf()
            &&& after.session == state.session
            &&& after.attempts_used == (state.attempts_used + n) % (MAX_ATTEMPTS as nat)
            &&& slept == n * ATTEMPT_PAUSE_MILLIS + ((state.attempts_used + n) / (
            MAX_ATTEMPTS as nat)) * (MIN_DELAY_SECONDS * 1000)
        }),
    decreases n,
{
    assert(MAX_ATTEMPTS == 5 && MIN_DELAY_SECONDS == 1 && ATTEMPT_PAUSE_MILLIS == 100);
    let cycles: nat = (state.attempts_used + n) / 5;
    assert(cycles * (MIN_DELAY_SECONDS * 1000) == cycles * 1000) by (nonlinear_arith)
        requires
            MIN_DELAY_SECONDS == 1,
    ;
    assert(n * ATTEMPT_PAUSE_MILLIS == n * 100) by (nonlinear_arith)
        requires
            ATTEMPT_PAUSE_MILLIS == 100,
    ;
    if n > 0 {
        let earlier: int = (state.attempts_used + n - 1) / 5;
        assert(earlier * (MIN_DELAY_SECONDS * 1000) == earlier * 1000) by (nonlinear_arith)
            requires
                MIN_DELAY_SECONDS == 1,
        ;
        assert((n - 1) * ATTEMPT_PAUSE_MILLIS == (n - 1) * 100) by (nonlinear_arith)
            requires
                ATTEMPT_PAUSE_MILLIS == 100,
        ;
        next_jobs_always_sleep(state, (n - 1) as nat);
        let (before, slept) = state.after_next_jobs((n - 1) as nat);
        next_job_spends_one_attempt(before);
        let spent: int = state.attempts_used + n - 1;
        assert(before.attempts_used == spent % 5);
        assert(spent % 5 < 4 ==> (spent + 1) % 5 == spent % 5 + 1 && (spent + 1) / 5 == spent / 5);
        assert(spent % 5 == 4 ==> (spent + 1) % 5 == 0 && (spent + 1) / 5 == spent / 5 + 1);
    }
}

/// Only a failed login sends the account back to logging in: after any
/// other event an account with a session still has one and is told to
/// attempt.
pub proof fn session_kept_unless_login_fails(state: ControllerModel, event: Event)
    requires
        state.wf(),
        state.session is Some,
        !(event is AuthFailed),
    ensures
        state.next(event).0.session is Some,
        state.next(event).1.task == Task::Attempt,
        event is AttemptEnded ==> state.next(event).0.session == state.session,
{
}

/// A failed login, whatever the state, leaves the account without a session
/// and has it log in again after the fixed pause.
pub proof fn failed_login_is_retried(state: ControllerModel, why: AuthError)
    ensures
        state.next(Event::AuthFailed(why)).0.session is None,
        state.next(Event::AuthFailed(why)).1 == (Command {
            sleep_millis: AUTH_RETRY_MILLIS,
            task: Task::Authenticate,
        }),
{
}

/// The controller of one account.
#[derive(Clone, Debug)]
pub struct Controller {
    session: Option<Session>,
    attempts_used: u32,
    delay_seconds: u32,
}

impl View for Controller {
    type V = ControllerModel;

    closed spec fn view(&self) -> ControllerModel {
        ControllerModel {
            session: self.session,
            attempts_used: self.attempts_used as nat,
            delay_seconds: self.delay_seconds as nat,
        }
    }
}

impl Controller {
    /// A controller for an account that has not logged in yet, and its first
    /// command: log in at once.
    pub fn new() -> (r: (Controller, Command))
        ensures
            r.0@.wf(),
            r.0@.session is None,
            r.0@.attempts_used == 0,
            r.0@.delay_seconds == MIN_DELAY_SECONDS,
            r.1 == (Command { sleep_millis: 0, task: Task::Authenticate }),
    {
        (
            Controller { session: None, attempts_used: 0, delay_seconds: MIN_DELAY_SECONDS },
            Command { sleep_millis: 0, task: Task::Authenticate },
        )
    }

    /// Takes an event and returns the next command.
    pub fn step(&mut self, event: Event) -> (command: Command)
        requires
            old(self)@.wf(),
        ensures
            final(self)@ == old(self)@.next(event).0,
            command == old(self)@.next(event).1,
            final(self)@.wf(),
    {
        match event {
            Event::AuthSucceeded(session) => {
                self.session = Some(session);
                self.attempts_used = 0;
                Command { sleep_millis: 0, task: Task::Attempt }
            },
            Event::AuthFailed(_) => {
                self.session = None;
                self.attempts_used = 0;
                Command { sleep_millis: AUTH_RETRY_MILLIS, task: Task::Authenticate }
            },
            Event::AttemptEnded(result) => {
                if self.session.is_none() {
                    return Command { sleep_millis: AUTH_RETRY_MILLIS, task: Task::Authenticate };
                }
                match result {
                    Ok(WorkOutcome::Done(seconds)) => self.back_off(seconds),
                    Ok(WorkOutcome::Wait(seconds)) => self.back_off(seconds),
                    Ok(WorkOutcome::NextJob) => self.spend_attempt(MIN_DELAY_SECONDS),
                    Err(_) => {
                        let delay: u32 = self.delay_seconds;
                        self.spend_attempt(delay)
                    },
                }
            },
        }
    }

    /// Ends the cycle with a back-off that a response has set.
    fn back_off(&mut self, seconds: u32) -> (command: Command)
        requires
            old(self)@.wf(),
        ensures
            final(self)@ == (ControllerModel {
                session: old(self)@.session,
                attempts_used: 0,
                delay_seconds: seconds as nat,
            }),
            command == (Command { sleep_millis: (seconds * 1000) as u64, task: Task::Attempt }),
    {
        self.attempts_used = 0;
        self.delay_seconds = seconds;
        Command { sleep_millis: seconds as u64 * 1000, task: Task::Attempt }
    }

    /// Counts an attempt that painted nothing and records the back-off.
    fn spend_attempt(&mut self, delay_seconds: u32) -> (command: Command)
        requires
            old(self)@.wf(),
        ensures
            final(self)@ == old(self)@.after_spent_attempt(delay_seconds as nat).0,
            command == old(self)@.after_spent_attempt(delay_seconds as nat).1,
    {
        self.delay_seconds = delay_seconds;
        if self.attempts_used + 1 < MAX_ATTEMPTS {
            self.attempts_used = self.attempts_used + 1;
            Command { sleep_millis: ATTEMPT_PAUSE_MILLIS, task: Task::Attempt }
        } else {
            self.attempts_used = 0;
            Command {
                sleep_millis: ATTEMPT_PAUSE_MILLIS + delay_seconds as u64 * 1000,
                task: Task::Attempt,
            }
        }
    }

    /// The live session, if the account is logged in.
    pub fn session(&self) -> (s: Option<&Session>)
        ensures
            match s {
                Some(session) => self@.session == Some(*session),
                None => self@.session is None,
            },
    {
        self.session.as_ref()
    }

    /// Whether the account is logged in.
    pub fn is_authenticated(&self) -> (b: bool)
        ensures
            b == self@.session is Some,
    {
        self.session.is_some()
    }

    /// Attempts that the current cycle has spent.
    pub fn attempts_used(&self) -> (n: u32)
        ensures
            n == self@.attempts_used,
    {
        self.attempts_used
    }

    /// Attempts that the current cycle may still spend.
    pub fn remaining_attempts(&self) -> (n: u32)
        requires
            self@.wf(),
        ensures
            n == self@.remaining(),
            0 < n <= MAX_ATTEMPTS,
    {
        MAX_ATTEMPTS - self.attempts_used
    }

    /// The back-off last recorded, in seconds.
    pub fn delay_seconds(&self) -> (n: u32)
        ensures
            n == self@.delay_seconds,
    {
        self.delay_seconds
    }
}

} // verus!
