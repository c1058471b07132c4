//! The repeating task of one user: how many failures it survives, and the
//! registry of the tasks that run.

use vstd::prelude::*;
use vstd::string::StringExecFns;
use dashmap::DashMap;
use tokio::task::JoinHandle;

verus! {

/// The failures in a row that end a task.
pub const RETRY_CEILING: u8 = 3;

/// How a task stands after its ticks so far.
#[derive(Clone, Copy, Debug, PartialEq, Eq, Structural)]
pub enum RetryState {
    /// The task goes on; it ends after this many failures in a row.
    Healthy(u8),
    /// The task has ended for good.
    Terminated,
}

/// How one tick of a task went.
#[derive(Clone, Copy, Debug, PartialEq, Eq, Structural)]
pub enum TickOutcome {
    /// The reading was reconciled and there was nothing to tell.
    Quiet,
    /// The reading was reconciled and the report was delivered.
    Delivered,
    /// The reading was reconciled, but the report could not be delivered.
    DeliveryFailed,
    /// The query failed.
    QueryFailed,
}

/// What a task does next.
#[derive(Clone, Copy, Debug, PartialEq, Eq, Structural)]
pub enum TaskAction {
    /// Sleep for the polling interval, then run one tick.
    SleepThenTick,
    /// Leave the registry and end.
    Exit,
}

impl TickOutcome {
    /// Whether the tick counts as a failure. A failed query and a failed
    /// delivery count alike.
    pub open spec fn is_failure(self) -> bool {
        self is DeliveryFailed || self is QueryFailed
    }
}

impl RetryState {
    /// Whether the state is one that a task can be in: a healthy task has
    /// between one failure and `RETRY_CEILING` failures left.
    pub open spec fn is_valid(self) -> bool {
        self matches RetryState::Healthy(left) ==> 1 <= left <= RETRY_CEILING
    }

    /// The state after one more tick. A tick that went well puts the task
    /// back to the full count; a failure takes one off, and the task ends
    /// when none is left. A task that has ended stays so.
    pub open spec fn next(self, outcome: TickOutcome) -> RetryState {
        match self {
            RetryState::Terminated => RetryState::Terminated,
            RetryState::Healthy(left) => if !outcome.is_failure() {
                RetryState::Healthy(RETRY_CEILING)
            } else if left <= 1 {
                RetryState::Terminated
            } else {
                RetryState::Healthy((left - 1) as u8)
            },
        }
    }

    /// The state after a run of ticks.
    pub open spec fn after_all(self, outcomes: Seq<TickOutcome>) -> RetryState
        decreases outcomes.len(),
    {
        if outcomes.len() == 0 {
            self
        } else {
            self.after_all(outcomes.drop_last()).next(outcomes.last())
        }
    }

    /// What a task in this state does next.
    pub open spec fn action(self) -> TaskAction {
        match self {
            RetryState::Healthy(_) => TaskAction::SleepThenTick,
            RetryState::Terminated => TaskAction::Exit,
        }
    }

    /// The state of a task that starts.
    pub fn new() -> (state: RetryState)
        ensures
            state == RetryState::Healthy(RETRY_CEILING),
            state.is_valid(),
    {
        RetryState::Healthy(RETRY_CEILING)
    }

    /// The state after one more tick.
    pub fn after(self, outcome: TickOutcome) -> (state: RetryState)
        ensures
            state == self.next(outcome),
            self.is_valid() ==> state.is_valid(),
    {
        match self {
            RetryState::Terminated => RetryState::Terminated,
            RetryState::Healthy(left) => match outcome {
                TickOutcome::Quiet | TickOutcome::Delivered => RetryState::Healthy(RETRY_CEILING),
                TickOutcome::DeliveryFailed | TickOutcome::QueryFailed => if left <= 1 {
                    RetryState::Terminated
                } else {
                    RetryState::Healthy(left - 1)
                },
            },
        }
    }

    /// What a task in this state does next.
    pub fn next_action(self) -> (action: TaskAction)
        ensures
            action == self.action(),
    {
        match self {
            RetryState::Healthy(_) => TaskAction::SleepThenTick,
            RetryState::Terminated => TaskAction::Exit,
        }
    }
}

/// The outcome of a tick from what happened in it: whether the query and
/// the reconciliation went through, whether there was something to tell,
/// and whether telling it went through.
pub fn tick_outcome(reconciled: bool, should_notify: bool, delivered: bool) -> (outcome: TickOutcome)
    ensures
        outcome == if !reconciled {
            TickOutcome::QueryFailed
        } else if !should_notify {
            TickOutcome::Quiet
        } else if delivered {
            TickOutcome::Delivered
        } else {
            TickOutcome::DeliveryFailed
        },
        outcome.is_failure() <==> !reconciled || (should_notify && !delivered),
{
    if !reconciled {
        TickOutcome::QueryFailed
    } else if !should_notify {
        TickOutcome::Quiet
    } else if delivered {
        TickOutcome::Delivered
    } else {
        TickOutcome::DeliveryFailed
    }
}

/// Why no task can be made for a user without a configuration.
pub fn user_not_found(user: &str) -> (text: String)
    ensures
        text@ == "User "@ + user@ + " not found in config"@,
{
    let mut text = "User ".to_owned();
    text.append(user);
    text.append(" not found in config");
    text
}

/// A task that starts and then fails `RETRY_CEILING` times in a row has
/// ended, and what it does next is to leave the registry; with fewer
/// failures it goes on.
pub proof fn law_three_failures_end_a_task(first: TickOutcome, second: TickOutcome, third: TickOutcome)
    requires
        first.is_failure(),
        second.is_failure(),
        third.is_failure(),
    ensures
        RetryState::Healthy(RETRY_CEILING).next(first).action() == TaskAction::SleepThenTick,
        RetryState::Healthy(RETRY_CEILING).next(first).next(second).action()
            == TaskAction::SleepThenTick,
        RetryState::Healthy(RETRY_CEILING).next(first).next(second).next(third)
            == RetryState::Terminated,
        RetryState::Terminated.action() == TaskAction::Exit,
{
}

/// Whatever came before, a task whose last `RETRY_CEILING` ticks all failed
/// has ended.
pub proof fn law_failures_in_a_row(state: RetryState, outcomes: Seq<TickOutcome>)
    requires
        state.is_valid(),
        outcomes.len() >= RETRY_CEILING,
        forall|i: int|
            outcomes.len() - RETRY_CEILING <= i < outcomes.len() ==> (#[trigger] outcomes[i]).is_failure(),
    ensures
        state.after_all(outcomes) == RetryState::Terminated,
{
    let n = outcomes.len() as int;
    let o3 = outcomes;
    let o2 = o3.drop_last();
    let o1 = o2.drop_last();
    let o0 = o1.drop_last();
    lemma_after_all_is_valid(state, o0);
    assert(o3.last() == outcomes[n - 1]);
    assert(o2.last() == outcomes[n - 2]);
    assert(o1.last() == outcomes[n - 3]);
    let s0 = state.after_all(o0);
    let s1 = state.after_all(o1);
    let s2 = state.after_all(o2);
    assert(s1 == s0.next(o1.last()));
    assert(s2 == s1.next(o2.last()));
    assert(state.after_all(o3) == s2.next(o3.last()));
}

/// A run of ticks leaves a task in a state that a task can be in.
proof fn lemma_after_all_is_valid(state: RetryState, outcomes: Seq<TickOutcome>)
    requires
        state.is_valid(),
    ensures
        state.after_all(outcomes).is_valid(),
    decreases outcomes.len(),
{
    if outcomes.len() > 0 {
        lemma_after_all_is_valid(state, outcomes.drop_last());
    }
}

/// The concurrent map of the dashmap crate.
#[verifier::external_type_specification]
#[verifier::external_body]
#[verifier::reject_recursive_types(K)]
#[verifier::reject_recursive_types(V)]
#[verifier::reject_recursive_types(S)]
pub struct ExDashMap<K, V, S>(DashMap<K, V, S>);

/// The handle of a task that the tokio runtime runs.
#[verifier::external_type_specification]
#[verifier::external_body]
#[verifier::reject_recursive_types(T)]
pub struct ExJoinHandle<T>(JoinHandle<T>);

/// The error with which the tokio runtime answers for a task that did not
/// run to its end.
#[verifier::external_type_specification]
#[verifier::external_body]
pub struct ExJoinError(tokio::task::JoinError);

/// The users that a map of tasks has an entry for.
pub uninterp spec fn task_users(tasks: DashMap<String, JoinHandle<()>>) -> Set<Seq<char>>;

/// `DashMap::new`. Trusted: the new map has no entry.
#[verifier::external_body]
fn tasks_new() -> (tasks: DashMap<String, JoinHandle<()>>)
    ensures
        task_users(tasks) == Set::<Seq<char>>::empty(),
{
    DashMap::new()
}

/// `DashMap::contains_key`. Trusted: it answers whether the map has an
/// entry for the user.
#[verifier::external_body]
fn tasks_contains(tasks: &DashMap<String, JoinHandle<()>>, user: &str) -> (found: bool)
    ensures
        found == task_users(*tasks).contains(user@),
{
    tasks.contains_key(user)
}

/// `DashMap::insert`, on a map that nothing else can reach meanwhile.
/// Trusted: afterwards the map has an entry for the user and the entries it
/// had for others, and the handle that the user's entry held before comes
/// back, if there was one.
#[verifier::external_body]
fn tasks_insert(
    tasks: &mut DashMap<String, JoinHandle<()>>,
    user: String,
    handle: JoinHandle<()>,
) -> (before: Option<JoinHandle<()>>)
    ensures
        task_users(*final(tasks)) == task_users(*old(tasks)).insert(user@),
        before.is_some() == task_users(*old(tasks)).contains(user@),
{
    tasks.insert(user, handle)
}

/// `DashMap::remove`, on a map that nothing else can reach meanwhile.
/// Trusted: afterwards the map has no entry for the user and the entries it
/// had for others, and the handle that the user's entry held comes back, if
/// there was one.
#[verifier::external_body]
fn tasks_remove(tasks: &mut DashMap<String, JoinHandle<()>>, user: &str) -> (before: Option<
    JoinHandle<()>,
>)
    ensures
        task_users(*final(tasks)) == task_users(*old(tasks)).remove(user@),
        before.is_some() == task_users(*old(tasks)).contains(user@),
{
    tasks.remove(user).map(|entry| entry.1)
}

/// `JoinHandle::abort`: asks the runtime to cancel the task. Nothing is
/// known of the task afterwards.
#[verifier::external_body]
fn abort(handle: &JoinHandle<()>) {
    handle.abort()
}

/// Whether a user's task runs.
#[derive(Clone, Copy, Debug, PartialEq, Eq, Structural)]
pub enum TaskStatus {
    /// The registry holds a task of the user.
    Running,
    /// The registry holds no task of the user.
    NotRunning,
}

/// What became of a task that was handed to the registry.
#[derive(Clone, Copy, Debug, PartialEq, Eq, Structural)]
pub enum StartOutcome {
    /// The task is now the user's task.
    Started,
    /// The user had a task already, which goes on; the new one was
    /// cancelled.
    AlreadyRunning,
}

/// What a request to stop a task found.
#[derive(Clone, Copy, Debug, PartialEq, Eq, Structural)]
pub enum StopOutcome {
    /// The user's task was cancelled.
    Stopped,
    /// The user had no task.
    NotRunning,
}

/// The tasks that run, one per user at most.
pub struct TaskRegistry {
    tasks: DashMap<String, JoinHandle<()>>,
}

impl TaskRegistry {
    /// The users whose task runs.
    pub closed spec fn running(&self) -> Set<Seq<char>> {
        task_users(self.tasks)
    }

    /// Whether the task of `user` runs, by the registry alone.
    pub open spec fn status_of(&self, user: Seq<char>) -> TaskStatus {
        if self.running().contains(user) {
            TaskStatus::Running
        } else {
            TaskStatus::NotRunning
        }
    }

    /// A registry without tasks.
    pub fn new() -> (registry: TaskRegistry)
        ensures
            registry.running() == Set::<Seq<char>>::empty(),
    {
        TaskRegistry { tasks: tasks_new() }
    }

    /// Whether the task of `user` runs. Only the registry is asked, not
    /// whether the user's configuration wants a task.
    pub fn status(&self, user: &str) -> (status: TaskStatus)
        ensures
            status == self.status_of(user@),
    {
        if tasks_contains(&self.tasks, user) {
            TaskStatus::Running
        } else {
            TaskStatus::NotRunning
        }
    }

    /// Takes `handle` as the task of `user`. Where the user has a task
    /// already, that one goes on and `handle` is cancelled.
    pub fn add_task(&mut self, user: String, handle: JoinHandle<()>) -> (outcome: StartOutcome)
        ensures
            final(self).running() == old(self).running().insert(user@),
            outcome == StartOutcome::AlreadyRunning <==> old(self).running().contains(user@),
    {
        if tasks_contains(&self.tasks, user.as_str()) {
            abort(&handle);
            assert(self.running().insert(user@) =~= self.running());
            StartOutcome::AlreadyRunning
        } else {
            let _ = tasks_insert(&mut self.tasks, user, handle);
            StartOutcome::Started
        }
    }

    /// Cancels the task of `user` and takes it out of the registry. A user
    /// without a task is reported as such.
    pub fn stop(&mut self, user: &str) -> (outcome: StopOutcome)
        ensures
            final(self).running() == old(self).running().remove(user@),
            outcome == StopOutcome::Stopped <==> old(self).running().contains(user@),
    {
        match tasks_remove(&mut self.tasks, user) {
            Some(handle) => {
                abort(&handle);
                StopOutcome::Stopped
            },
            None => StopOutcome::NotRunning,
        }
    }

    /// Takes the task of `user` out of the registry once it has ended by
    /// itself, so that no handle of a dead task stays behind.
    pub fn task_exited(&mut self, user: &str)
        ensures
            final(self).running() == old(self).running().remove(user@),
    {
        let _ = tasks_remove(&mut self.tasks, user);
    }
}

} // verus!
