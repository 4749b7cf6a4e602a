use place_bot::controller::{
    Command, Controller, Event, Task, ATTEMPT_PAUSE_MILLIS, AUTH_RETRY_MILLIS, MAX_ATTEMPTS,
    MIN_DELAY_SECONDS,
};
use place_bot::draw::FailReason;
use place_bot::placement::{AttemptFailure, OracleError, WorkOutcome};
use place_bot::session::{AuthError, Session};

fn session(name: &str) -> Session {
    Session {
        cookies: vec![String::from("reddit_session=abc")],
        modhash: String::from("token"),
        username: String::from(name),
    }
}

fn logged_in() -> Controller {
    let (mut controller, first) = Controller::new();
    assert_eq!(first, Command { sleep_millis: 0, task: Task::Authenticate });
    let command = controller.step(Event::AuthSucceeded(session("alice")));
    assert_eq!(command, Command { sleep_millis: 0, task: Task::Attempt });
    controller
}

#[test]
fn constants_are_the_documented_ones() {
    assert_eq!(MAX_ATTEMPTS, 5);
    assert_eq!(AUTH_RETRY_MILLIS, 1000);
    assert_eq!(ATTEMPT_PAUSE_MILLIS, 100);
    assert_eq!(MIN_DELAY_SECONDS, 1);
}

#[test]
fn new_controller_asks_for_a_login() {
    let (controller, first) = Controller::new();
    assert_eq!(first, Command { sleep_millis: 0, task: Task::Authenticate });
    assert!(!controller.is_authenticated());
    assert!(controller.session().is_none());
    assert_eq!(controller.attempts_used(), 0);
    assert_eq!(controller.remaining_attempts(), 5);
    assert_eq!(controller.delay_seconds(), 1);
}

#[test]
fn done_sleeps_the_given_seconds() {
    let mut controller = logged_in();
    let command = controller.step(Event::AttemptEnded(Ok(WorkOutcome::Done(5))));
    assert_eq!(command, Command { sleep_millis: 5000, task: Task::Attempt });
    assert!(controller.is_authenticated());
    assert_eq!(controller.attempts_used(), 0);
    assert_eq!(controller.delay_seconds(), 5);
}

#[test]
fn wait_sleeps_and_keeps_the_session() {
    let mut controller = logged_in();
    let command = controller.step(Event::AttemptEnded(Ok(WorkOutcome::Wait(12))));
    assert_eq!(command, Command { sleep_millis: 12000, task: Task::Attempt });
    assert_eq!(controller.session().unwrap().username, "alice");
    assert_eq!(controller.attempts_used(), 0);
}

#[test]
fn login_fails_three_times_then_succeeds() {
    let (mut controller, _) = Controller::new();
    for why in [AuthError::Transport, AuthError::Decode, AuthError::MissingCookies] {
        let command = controller.step(Event::AuthFailed(why));
        assert_eq!(command, Command { sleep_millis: 1000, task: Task::Authenticate });
        assert!(!controller.is_authenticated());
    }
    let command = controller.step(Event::AuthSucceeded(session("bob")));
    assert_eq!(command, Command { sleep_millis: 0, task: Task::Attempt });
    let live = controller.session().unwrap();
    assert_eq!(live.username, "bob");
    assert_eq!(live.modhash, "token");
    assert_eq!(live.cookies, vec![String::from("reddit_session=abc")]);
}

#[test]
fn five_next_jobs_fall_through_with_minimal_delay() {
    let mut controller = logged_in();
    for used in 1u32..5 {
        let command = controller.step(Event::AttemptEnded(Ok(WorkOutcome::NextJob)));
        assert_eq!(command, Command { sleep_millis: 100, task: Task::Attempt });
        assert_eq!(controller.attempts_used(), used);
        assert_eq!(controller.remaining_attempts(), 5 - used);
    }
    let command = controller.step(Event::AttemptEnded(Ok(WorkOutcome::NextJob)));
    assert_eq!(command, Command { sleep_millis: 1100, task: Task::Attempt });
    assert_eq!(controller.attempts_used(), 0);
    assert_eq!(controller.remaining_attempts(), 5);
    assert_eq!(controller.delay_seconds(), 1);
    assert!(controller.is_authenticated());
    assert_eq!(controller.session().unwrap().username, "alice");
}

#[test]
fn many_next_jobs_never_exhaust_the_budget_and_always_sleep() {
    let mut controller = logged_in();
    let mut slept: u64 = 0;
    for _ in 0..23 {
        let command = controller.step(Event::AttemptEnded(Ok(WorkOutcome::NextJob)));
        assert!(command.sleep_millis >= 100);
        assert_eq!(command.task, Task::Attempt);
        assert!(controller.remaining_attempts() >= 1);
        slept += command.sleep_millis;
    }
    assert_eq!(controller.attempts_used(), 3);
    assert_eq!(slept, 23 * 100 + 4 * 1000);
}

#[test]
fn failures_spend_the_budget_and_keep_the_recorded_delay() {
    let mut controller = logged_in();
    let command = controller.step(Event::AttemptEnded(Ok(WorkOutcome::Done(30))));
    assert_eq!(command.sleep_millis, 30000);
    let failures = [
        AttemptFailure::Oracle(OracleError::Transport),
        AttemptFailure::Oracle(OracleError::Decode),
        AttemptFailure::Draw(FailReason::Transport),
        AttemptFailure::Draw(FailReason::Decode),
    ];
    for why in failures {
        let command = controller.step(Event::AttemptEnded(Err(why)));
        assert_eq!(command, Command { sleep_millis: 100, task: Task::Attempt });
        assert!(controller.is_authenticated());
    }
    let last = AttemptFailure::Draw(FailReason::UnexpectedStatus(500));
    let command = controller.step(Event::AttemptEnded(Err(last)));
    assert_eq!(command, Command { sleep_millis: 30100, task: Task::Attempt });
    assert_eq!(controller.attempts_used(), 0);
    assert_eq!(controller.delay_seconds(), 30);
}

#[test]
fn next_job_resets_the_recorded_delay() {
    let mut controller = logged_in();
    controller.step(Event::AttemptEnded(Ok(WorkOutcome::Wait(40))));
    assert_eq!(controller.delay_seconds(), 40);
    controller.step(Event::AttemptEnded(Ok(WorkOutcome::NextJob)));
    assert_eq!(controller.delay_seconds(), 1);
    assert_eq!(controller.attempts_used(), 1);
}

#[test]
fn done_in_mid_cycle_restores_the_budget() {
    let mut controller = logged_in();
    controller.step(Event::AttemptEnded(Ok(WorkOutcome::NextJob)));
    controller.step(Event::AttemptEnded(Ok(WorkOutcome::NextJob)));
    assert_eq!(controller.remaining_attempts(), 3);
    let command = controller.step(Event::AttemptEnded(Ok(WorkOutcome::Done(0))));
    assert_eq!(command, Command { sleep_millis: 0, task: Task::Attempt });
    assert_eq!(controller.remaining_attempts(), 5);
}

#[test]
fn longest_wait_does_not_overflow() {
    let mut controller = logged_in();
    let command = controller.step(Event::AttemptEnded(Ok(WorkOutcome::Wait(u32::MAX))));
    assert_eq!(command.sleep_millis, 4294967295000);
    for _ in 0..4 {
        controller.step(Event::AttemptEnded(Err(AttemptFailure::Draw(FailReason::Transport))));
    }
    let command =
        controller.step(Event::AttemptEnded(Err(AttemptFailure::Draw(FailReason::Transport))));
    assert_eq!(command.sleep_millis, 4294967295100);
}

#[test]
fn attempt_report_without_session_asks_for_login() {
    let (mut controller, _) = Controller::new();
    let command = controller.step(Event::AttemptEnded(Ok(WorkOutcome::NextJob)));
    assert_eq!(command, Command { sleep_millis: 1000, task: Task::Authenticate });
    assert_eq!(controller.attempts_used(), 0);
    assert!(!controller.is_authenticated());
}

#[test]
fn failed_login_discards_the_session() {
    let mut controller = logged_in();
    controller.step(Event::AttemptEnded(Ok(WorkOutcome::NextJob)));
    let command = controller.step(Event::AuthFailed(AuthError::Transport));
    assert_eq!(command, Command { sleep_millis: 1000, task: Task::Authenticate });
    assert!(!controller.is_authenticated());
    assert_eq!(controller.attempts_used(), 0);
}
