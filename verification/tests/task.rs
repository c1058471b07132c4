use tokio::runtime::Builder;
use unicom_usage::handler::{
    add_task, handle_task_exit, handle_task_status, handle_task_stop, Reply,
};
use unicom_usage::utils::task::{
    tick_outcome, user_not_found, RetryState, StartOutcome, StopOutcome, TaskAction, TaskRegistry,
    TaskStatus, TickOutcome, RETRY_CEILING,
};

#[test]
fn new_task_has_the_full_count() {
    assert_eq!(RETRY_CEILING, 3);
    assert_eq!(RetryState::new(), RetryState::Healthy(3));
    assert_eq!(RetryState::new().next_action(), TaskAction::SleepThenTick);
}

#[test]
fn three_failures_in_a_row_end_the_task() {
    let state = RetryState::new().after(TickOutcome::QueryFailed);
    assert_eq!(state, RetryState::Healthy(2));
    let state = state.after(TickOutcome::DeliveryFailed);
    assert_eq!(state, RetryState::Healthy(1));
    assert_eq!(state.next_action(), TaskAction::SleepThenTick);
    let state = state.after(TickOutcome::QueryFailed);
    assert_eq!(state, RetryState::Terminated);
    assert_eq!(state.next_action(), TaskAction::Exit);
}

#[test]
fn success_restores_the_full_count() {
    let state = RetryState::new().after(TickOutcome::QueryFailed).after(TickOutcome::QueryFailed);
    assert_eq!(state, RetryState::Healthy(1));
    assert_eq!(state.after(TickOutcome::Quiet), RetryState::Healthy(3));
    assert_eq!(state.after(TickOutcome::Delivered), RetryState::Healthy(3));
    let state = state
        .after(TickOutcome::Delivered)
        .after(TickOutcome::QueryFailed)
        .after(TickOutcome::QueryFailed);
    assert_eq!(state, RetryState::Healthy(1));
}

#[test]
fn ended_task_stays_ended() {
    for outcome in [
        TickOutcome::Quiet,
        TickOutcome::Delivered,
        TickOutcome::DeliveryFailed,
        TickOutcome::QueryFailed,
    ] {
        assert_eq!(RetryState::Terminated.after(outcome), RetryState::Terminated);
    }
}

#[test]
fn tick_outcome_from_what_happened() {
    assert_eq!(tick_outcome(false, false, false), TickOutcome::QueryFailed);
    assert_eq!(tick_outcome(false, true, true), TickOutcome::QueryFailed);
    assert_eq!(tick_outcome(true, false, false), TickOutcome::Quiet);
    assert_eq!(tick_outcome(true, false, true), TickOutcome::Quiet);
    assert_eq!(tick_outcome(true, true, true), TickOutcome::Delivered);
    assert_eq!(tick_outcome(true, true, false), TickOutcome::DeliveryFailed);
}

#[test]
fn missing_user_is_named() {
    assert_eq!(user_not_found("qq_1"), "User qq_1 not found in config");
}

#[test]
fn registry_starts_empty() {
    let registry = TaskRegistry::new();
    assert_eq!(registry.status("qq_1"), TaskStatus::NotRunning);
    assert_eq!(handle_task_status(&registry, "qq_1"), Reply::TaskNotRunning);
}

#[test]
fn stop_without_a_task_is_an_answer() {
    let mut registry = TaskRegistry::new();
    assert_eq!(registry.stop("qq_1"), StopOutcome::NotRunning);
    assert_eq!(handle_task_stop(&mut registry, "qq_1"), Reply::TaskNotRunning);
    assert_eq!(Reply::TaskNotRunning.text(), "ChinaUnicom: Task is not running.");
    assert_eq!(registry.status("qq_1"), TaskStatus::NotRunning);
}

#[test]
fn task_is_registered_and_stopped() {
    let runtime = Builder::new_current_thread().build().unwrap();
    let mut registry = TaskRegistry::new();
    let handle = runtime.spawn(async {});
    assert_eq!(registry.add_task("qq_1".to_string(), handle), StartOutcome::Started);
    assert_eq!(registry.status("qq_1"), TaskStatus::Running);
    assert_eq!(registry.status("qq_2"), TaskStatus::NotRunning);
    assert_eq!(handle_task_status(&registry, "qq_1"), Reply::TaskRunning);
    assert_eq!(registry.stop("qq_2"), StopOutcome::NotRunning);
    assert_eq!(registry.status("qq_1"), TaskStatus::Running);
    assert_eq!(registry.stop("qq_1"), StopOutcome::Stopped);
    assert_eq!(registry.status("qq_1"), TaskStatus::NotRunning);
    assert_eq!(registry.stop("qq_1"), StopOutcome::NotRunning);
}

#[test]
fn stopped_task_is_cancelled() {
    let runtime = Builder::new_current_thread().enable_time().build().unwrap();
    let mut registry = TaskRegistry::new();
    let handle = runtime.spawn(async {
        tokio::time::sleep(std::time::Duration::from_secs(3600)).await;
    });
    let watch = handle.abort_handle();
    assert_eq!(add_task(&mut registry, "qq_1".to_string(), handle), Reply::TaskStarted);
    assert_eq!(handle_task_stop(&mut registry, "qq_1"), Reply::TaskStopped);
    runtime.block_on(async { tokio::task::yield_now().await });
    assert!(watch.is_finished());
}

#[test]
fn second_task_of_a_user_is_turned_away() {
    let runtime = Builder::new_current_thread().enable_time().build().unwrap();
    let mut registry = TaskRegistry::new();
    let first = runtime.spawn(async {
        tokio::time::sleep(std::time::Duration::from_secs(3600)).await;
    });
    let second = runtime.spawn(async {
        tokio::time::sleep(std::time::Duration::from_secs(3600)).await;
    });
    let first_watch = first.abort_handle();
    let second_watch = second.abort_handle();
    assert_eq!(add_task(&mut registry, "qq_1".to_string(), first), Reply::TaskStarted);
    assert_eq!(add_task(&mut registry, "qq_1".to_string(), second), Reply::TaskRunning);
    runtime.block_on(async { tokio::task::yield_now().await });
    assert!(!first_watch.is_finished());
    assert!(second_watch.is_finished());
    assert_eq!(registry.status("qq_1"), TaskStatus::Running);
}

#[test]
fn task_that_gives_up_leaves_no_handle_behind() {
    let runtime = Builder::new_current_thread().build().unwrap();
    let mut registry = TaskRegistry::new();
    registry.add_task("qq_1".to_string(), runtime.spawn(async {}));
    registry.add_task("qq_2".to_string(), runtime.spawn(async {}));
    let mut state = RetryState::new();
    let mut ticks = 0;
    while state.next_action() == TaskAction::SleepThenTick {
        state = state.after(tick_outcome(false, false, false));
        ticks += 1;
    }
    assert_eq!(ticks, 3);
    assert_eq!(state.next_action(), TaskAction::Exit);
    handle_task_exit(&mut registry, "qq_1");
    assert_eq!(registry.status("qq_1"), TaskStatus::NotRunning);
    assert_eq!(handle_task_status(&registry, "qq_1"), Reply::TaskNotRunning);
    assert_eq!(registry.status("qq_2"), TaskStatus::Running);
}
