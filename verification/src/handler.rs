//! What the service answers, and the decisions behind each command: the
//! changes a command asks of the store and of the task registry, and the
//! reply that each outcome gets.

use vstd::prelude::*;
use vstd::string::StringExecFns;
use crate::model::config::Model as ConfigModel;
use crate::model::config::{Setting, ValidationError};
use crate::utils::task::{StartOutcome, StopOutcome, TaskRegistry, TaskStatus};
use crate::utils::text::{occurs_at, occurs_in};

verus! {

/// The seconds that the service waits for an answer of the user before it
/// gives up what it was doing, with nothing changed.
pub const WAIT_SECONDS: u64 = 30;

/// Why the store did not do what it was asked.
#[derive(Debug, PartialEq, Eq)]
pub enum StoreError {
    /// A record with this key exists already.
    AlreadyExists,
    /// There is no record with this key.
    NotFound,
    /// Anything else, with the store's own words.
    Other(String),
}

/// Everything the service says to a user, but for the report itself and
/// the listing of a configuration.
#[derive(Debug, PartialEq, Eq)]
pub enum Reply {
    /// The user has no configuration.
    NotRegistered,
    /// Registration asks for the session cookie.
    AskCookie,
    /// Registration asks for the application identity.
    AskAppId,
    /// Registration asks for the token.
    AskTokenOnline,
    /// The registration was stored.
    Registered,
    /// The user is registered already.
    AlreadyRegistered,
    /// The registration could not be stored.
    RegisterFailed(String),
    /// A query on demand failed.
    QueryFailed(String),
    /// Deregistration asks whether the user is sure.
    AskDeregister,
    /// The user's records are gone.
    Deregistered,
    /// There was nothing to deregister.
    NothingToDeregister,
    /// The user's configuration could not be removed.
    DeregisterFailed(String),
    /// The change of a setting asks which setting is meant.
    AskSetting,
    /// The user gave up the change.
    SettingCancelled,
    /// There is no setting of that number.
    InvalidSetting,
    /// The new value is not allowed.
    SettingRefused(ValidationError),
    /// The changed configuration was stored.
    Updated,
    /// The changed configuration could not be stored.
    UpdateFailed(String),
    /// The task could not be started, because the configuration could not
    /// be stored.
    StartNotSaved(String),
    /// The task runs now.
    TaskStarted,
    /// The task could not be started.
    StartFailed(String),
    /// The task could not be stopped, because the configuration could not
    /// be stored.
    StopNotSaved(String),
    /// The task was stopped.
    TaskStopped,
    /// The user has no task that runs.
    TaskNotRunning,
    /// The task is switched off and so is not started again.
    NoRestartWhenDisabled,
    /// The task runs.
    TaskRunning,
    /// Commands are taken in private chats only.
    PrivateChatOnly,
    /// The task could not be started when the service came up.
    AutoStartFailed(String),
}

/// The words of a reply.
pub open spec fn reply_text(reply: Reply) -> Seq<char> {
    match reply {
        Reply::NotRegistered => "You have not registered yet, please use the `register` command to register first."@,
        Reply::AskCookie => "Please send your China Unicom Cookie in 30s."@,
        Reply::AskAppId => "Please send your China Unicom AppId in 30s."@,
        Reply::AskTokenOnline => "Please send your China Unicom TokenOnline in 30s."@,
        Reply::Registered => "Register success, your task will be automatically started, you can use the `task` command to view the status of the task or control it."@,
        Reply::AlreadyRegistered => "You have already registered, if you want to update your cookie, please use the `set` command."@,
        Reply::RegisterFailed(detail) => "An error occurred while registering: "@ + detail@,
        Reply::QueryFailed(detail) => "An error occurred while querying: "@ + detail@,
        Reply::AskDeregister => "Are you sure you want to cancel the China Unicom Oxidebot service?\nThis will stop notification service and delete all your data.\nSend 'y' to confirm, 'n' to cancel."@,
        Reply::Deregistered => "Deregister success."@,
        Reply::NothingToDeregister => "You have not registered yet."@,
        Reply::DeregisterFailed(detail) => "An error occurred while deregistering: "@ + detail@,
        Reply::AskSetting => "Please send a option number to set:\n1.cookie: String\n2.interval: i64(seconds)\n3.timeout: i64(seconds) or None\n4.free_threshold: f64(GB) or None\n5.nonfree_threshold: f64(GB) or None\n\nSend 0 to cancel"@,
        Reply::SettingCancelled => "Config set operation cancel."@,
        Reply::InvalidSetting => "Invalid option number, exited."@,
        Reply::SettingRefused(_) => "The interval must be at least 60 seconds."@,
        Reply::Updated => "Update success."@,
        Reply::UpdateFailed(detail) => "An error occurred while updating: "@ + detail@,
        Reply::StartNotSaved(detail) => "ChinaUnicom: Task start failed to update config: "@ + detail@,
        Reply::TaskStarted => "ChinaUnicom: Task start success."@,
        Reply::StartFailed(detail) => "ChinaUnicom: Task start failed: "@ + detail@,
        Reply::StopNotSaved(detail) => "ChinaUnicom: Task stop failed to update config: "@ + detail@,
        Reply::TaskStopped => "ChinaUnicom: Task stop success."@,
        Reply::TaskNotRunning => "ChinaUnicom: Task is not running."@,
        Reply::NoRestartWhenDisabled => "ChinaUnicom: Task is stop, so it will not restart."@,
        Reply::TaskRunning => "ChinaUnicom: Task is running."@,
        Reply::PrivateChatOnly => "This command can only be used in private chat."@,
        Reply::AutoStartFailed(detail) => "ChinaUnicom: Task Auto start failed: "@ + detail@,
    }
}

/// The detail of the failure that a reply reports, where it reports one.
pub open spec fn reply_detail(reply: Reply) -> Option<Seq<char>> {
    match reply {
        Reply::RegisterFailed(detail) => Some(detail@),
        Reply::QueryFailed(detail) => Some(detail@),
        Reply::DeregisterFailed(detail) => Some(detail@),
        Reply::UpdateFailed(detail) => Some(detail@),
        Reply::StartNotSaved(detail) => Some(detail@),
        Reply::StartFailed(detail) => Some(detail@),
        Reply::StopNotSaved(detail) => Some(detail@),
        Reply::AutoStartFailed(detail) => Some(detail@),
        _ => None,
    }
}

fn with_detail(prefix: &str, detail: &String) -> (text: String)
    ensures
        text@ == prefix@ + detail@,
{
    let mut text = prefix.to_owned();
    text.append(detail.as_str());
    text
}

impl Reply {
    /// The words of the reply.
    pub fn text(&self) -> (text: String)
        ensures
            text@ == reply_text(*self),
    {
        match self {
            Reply::NotRegistered => "You have not registered yet, please use the `register` command to register first.".to_owned(),
            Reply::AskCookie => "Please send your China Unicom Cookie in 30s.".to_owned(),
            Reply::AskAppId => "Please send your China Unicom AppId in 30s.".to_owned(),
            Reply::AskTokenOnline => "Please send your China Unicom TokenOnline in 30s.".to_owned(),
            Reply::Registered => "Register success, your task will be automatically started, you can use the `task` command to view the status of the task or control it.".to_owned(),
            Reply::AlreadyRegistered => "You have already registered, if you want to update your cookie, please use the `set` command.".to_owned(),
            Reply::RegisterFailed(detail) => with_detail("An error occurred while registering: ", detail),
            Reply::QueryFailed(detail) => with_detail("An error occurred while querying: ", detail),
            Reply::AskDeregister => "Are you sure you want to cancel the China Unicom Oxidebot service?\nThis will stop notification service and delete all your data.\nSend 'y' to confirm, 'n' to cancel.".to_owned(),
            Reply::Deregistered => "Deregister success.".to_owned(),
            Reply::NothingToDeregister => "You have not registered yet.".to_owned(),
            Reply::DeregisterFailed(detail) => with_detail("An error occurred while deregistering: ", detail),
            Reply::AskSetting => "Please send a option number to set:\n1.cookie: String\n2.interval: i64(seconds)\n3.timeout: i64(seconds) or None\n4.free_threshold: f64(GB) or None\n5.nonfree_threshold: f64(GB) or None\n\nSend 0 to cancel".to_owned(),
            Reply::SettingCancelled => "Config set operation cancel.".to_owned(),
            Reply::InvalidSetting => "Invalid option number, exited.".to_owned(),
            Reply::SettingRefused(_) => "The interval must be at least 60 seconds.".to_owned(),
            Reply::Updated => "Update success.".to_owned(),
            Reply::UpdateFailed(detail) => with_detail("An error occurred while updating: ", detail),
            Reply::StartNotSaved(detail) => with_detail("ChinaUnicom: Task start failed to update config: ", detail),
            Reply::TaskStarted => "ChinaUnicom: Task start success.".to_owned(),
            Reply::StartFailed(detail) => with_detail("ChinaUnicom: Task start failed: ", detail),
            Reply::StopNotSaved(detail) => with_detail("ChinaUnicom: Task stop failed to update config: ", detail),
            Reply::TaskStopped => "ChinaUnicom: Task stop success.".to_owned(),
            Reply::TaskNotRunning => "ChinaUnicom: Task is not running.".to_owned(),
            Reply::NoRestartWhenDisabled => "ChinaUnicom: Task is stop, so it will not restart.".to_owned(),
            Reply::TaskRunning => "ChinaUnicom: Task is running.".to_owned(),
            Reply::PrivateChatOnly => "This command can only be used in private chat.".to_owned(),
            Reply::AutoStartFailed(detail) => with_detail("ChinaUnicom: Task Auto start failed: ", detail),
        }
    }
}

/// A reply that reports a failure holds the detail of the failure in its
/// words.
pub proof fn law_failure_replies_hold_the_detail(reply: Reply)
    ensures
        reply_detail(reply) matches Some(detail) ==> occurs_in(reply_text(reply), detail),
{
    if let Some(detail) = reply_detail(reply) {
        let text = reply_text(reply);
        let at = text.len() - detail.len();
        assert(text.subrange(at, at + detail.len()) =~= detail);
        assert(occurs_at(text, detail, at));
    }
}

/// The words for a failure of the store.
pub open spec fn store_error_text(error: StoreError) -> Seq<char> {
    match error {
        StoreError::AlreadyExists => "the record exists already"@,
        StoreError::NotFound => "there is no such record"@,
        StoreError::Other(detail) => detail@,
    }
}

impl StoreError {
    /// The words for the failure.
    pub fn detail(self) -> (text: String)
        ensures
            text@ == store_error_text(self),
    {
        match self {
            StoreError::AlreadyExists => "the record exists already".to_owned(),
            StoreError::NotFound => "there is no such record".to_owned(),
            StoreError::Other(detail) => detail,
        }
    }
}

/// What follows the storing of a registration.
#[derive(Debug, PartialEq, Eq)]
pub struct RegisterOutcome {
    /// What the user is told.
    pub reply: Reply,
    /// Whether the user's task is started now.
    pub start_task: bool,
}

/// Decides what follows the attempt to store a new registration. The task
/// is started exactly where the record was stored; a user who is
/// registered already is told so; any other failure is reported with its
/// detail.
pub fn handle_register(stored: Result<(), StoreError>) -> (outcome: RegisterOutcome)
    ensures
        outcome.start_task == stored.is_ok(),
        stored is Ok ==> outcome.reply == Reply::Registered,
        stored == Err::<(), StoreError>(StoreError::AlreadyExists) ==> outcome.reply
            == Reply::AlreadyRegistered,
        (stored matches Err(error) && error != StoreError::AlreadyExists) ==> (outcome.reply
            matches Reply::RegisterFailed(detail) && detail@ == store_error_text(stored->Err_0)),
{
    match stored {
        Ok(_) => RegisterOutcome { reply: Reply::Registered, start_task: true },
        Err(StoreError::AlreadyExists) => RegisterOutcome {
            reply: Reply::AlreadyRegistered,
            start_task: false,
        },
        Err(error) => RegisterOutcome {
            reply: Reply::RegisterFailed(error.detail()),
            start_task: false,
        },
    }
}

/// What an on-demand query sends back: the report, whether or not the
/// rolling reference point moved, or the failure with its detail.
pub fn handle_query(queried: Result<(bool, String), String>) -> (text: String)
    ensures
        queried matches Ok(answer) ==> text == answer.1,
        queried matches Err(detail) ==> text@ == reply_text(Reply::QueryFailed(detail)),
{
    match queried {
        Ok(answer) => answer.1,
        Err(detail) => Reply::QueryFailed(detail).text(),
    }
}

/// One step of a deregistration.
#[derive(Clone, Copy, Debug, PartialEq, Eq, Structural)]
pub enum DeregisterStep {
    /// Cancel the user's task and take it out of the registry.
    StopTask,
    /// Remove the rolling reference point; a failure is passed over.
    DeleteLast,
    /// Remove the day's reference point; a failure is passed over.
    DeleteDaily,
    /// Remove the configuration; the outcome decides the reply.
    DeleteConfig,
}

/// The steps of a deregistration, in order: none where the user did not
/// confirm, else the task, the two reference points and the configuration.
pub open spec fn deregister_steps(confirmed: bool) -> Seq<DeregisterStep> {
    if confirmed {
        seq![
            DeregisterStep::StopTask,
            DeregisterStep::DeleteLast,
            DeregisterStep::DeleteDaily,
            DeregisterStep::DeleteConfig,
        ]
    } else {
        Seq::empty()
    }
}

/// Decides what a deregistration does once the user has answered.
pub fn handle_deregister(confirmed: bool) -> (steps: Vec<DeregisterStep>)
    ensures
        steps@ == deregister_steps(confirmed),
{
    let mut steps: Vec<DeregisterStep> = Vec::new();
    if confirmed {
        steps.push(DeregisterStep::StopTask);
        steps.push(DeregisterStep::DeleteLast);
        steps.push(DeregisterStep::DeleteDaily);
        steps.push(DeregisterStep::DeleteConfig);
    }
    assert(steps@ =~= deregister_steps(confirmed));
    steps
}

/// The reply to a deregistration, from what the store said when the
/// configuration was removed.
pub fn deregister_reply(deleted: Result<(), StoreError>) -> (reply: Reply)
    ensures
        deleted is Ok ==> reply == Reply::Deregistered,
        deleted == Err::<(), StoreError>(StoreError::NotFound) ==> reply
            == Reply::NothingToDeregister,
        (deleted matches Err(error) && error != StoreError::NotFound) ==> (reply
            matches Reply::DeregisterFailed(detail) && detail@ == store_error_text(deleted->Err_0)),
{
    match deleted {
        Ok(_) => Reply::Deregistered,
        Err(StoreError::NotFound) => Reply::NothingToDeregister,
        Err(error) => Reply::DeregisterFailed(error.detail()),
    }
}

/// The settings that a user can change.
#[derive(Clone, Copy, Debug, PartialEq, Eq, Structural)]
pub enum ConfigField {
    /// The session cookie.
    Cookie,
    /// The polling interval.
    Interval,
    /// The staleness timeout.
    Timeout,
    /// The free-data threshold.
    FreeThreshold,
    /// The paid-data threshold.
    NonfreeThreshold,
}

/// What the user chose when asked which setting to change.
#[derive(Clone, Copy, Debug, PartialEq, Eq, Structural)]
pub enum SetChoice {
    /// Nothing is changed.
    Cancel,
    /// This setting is changed.
    Field(ConfigField),
    /// The number names no setting.
    Invalid,
}

/// The choice that an option number stands for: 0 gives up, 1 to 5 name
/// the settings in the order in which they are offered.
pub open spec fn choice_of(option: u8) -> SetChoice {
    if option == 0 {
        SetChoice::Cancel
    } else if option == 1 {
        SetChoice::Field(ConfigField::Cookie)
    } else if option == 2 {
        SetChoice::Field(ConfigField::Interval)
    } else if option == 3 {
        SetChoice::Field(ConfigField::Timeout)
    } else if option == 4 {
        SetChoice::Field(ConfigField::FreeThreshold)
    } else if option == 5 {
        SetChoice::Field(ConfigField::NonfreeThreshold)
    } else {
        SetChoice::Invalid
    }
}

/// Reads the user's choice of a setting.
pub fn choose_setting(option: u8) -> (choice: SetChoice)
    ensures
        choice == choice_of(option),
{
    match option {
        0 => SetChoice::Cancel,
        1 => SetChoice::Field(ConfigField::Cookie),
        2 => SetChoice::Field(ConfigField::Interval),
        3 => SetChoice::Field(ConfigField::Timeout),
        4 => SetChoice::Field(ConfigField::FreeThreshold),
        5 => SetChoice::Field(ConfigField::NonfreeThreshold),
        _ => SetChoice::Invalid,
    }
}

/// What a choice of a setting is answered with where nothing more is
/// asked of the user: the choice to give up and a number that names no
/// setting each end the change.
pub fn choice_reply(choice: SetChoice) -> (reply: Option<Reply>)
    ensures
        reply == match choice {
            SetChoice::Cancel => Some(Reply::SettingCancelled),
            SetChoice::Invalid => Some(Reply::InvalidSetting),
            SetChoice::Field(_) => None,
        },
{
    match choice {
        SetChoice::Cancel => Some(Reply::SettingCancelled),
        SetChoice::Invalid => Some(Reply::InvalidSetting),
        SetChoice::Field(_) => None,
    }
}

/// Changes one setting of a configuration. A value that is not allowed
/// leaves nothing to store, and the reply says why.
pub fn handle_config_set(config: ConfigModel, setting: Setting) -> (changed: Result<
    ConfigModel,
    Reply,
>)
    ensures
        changed.is_err() <==> (setting matches Setting::Interval(secs) && secs
            < crate::model::config::MIN_INTERVAL),
        changed matches Ok(model) ==> model == config.updated(setting),
        changed matches Err(reply) ==> reply == Reply::SettingRefused(
            ValidationError::IntervalTooShort,
        ),
{
    match config.set(setting) {
        Ok(model) => Ok(model),
        Err(error) => Err(Reply::SettingRefused(error)),
    }
}

/// What follows the storing of a changed configuration.
#[derive(Debug, PartialEq, Eq)]
pub struct UpdateOutcome {
    /// What the user is told.
    pub reply: Reply,
    /// Whether the user's task is started anew, so that it runs under the
    /// new settings.
    pub restart_task: bool,
}

/// Decides what follows the attempt to store a changed configuration: the
/// task is started anew exactly where the change was stored.
pub fn config_update_outcome(stored: Result<(), StoreError>) -> (outcome: UpdateOutcome)
    ensures
        outcome.restart_task == stored.is_ok(),
        stored is Ok ==> outcome.reply == Reply::Updated,
        stored matches Err(error) ==> (outcome.reply matches Reply::UpdateFailed(detail) && detail@
            == store_error_text(error)),
{
    match stored {
        Ok(_) => UpdateOutcome { reply: Reply::Updated, restart_task: true },
        Err(error) => UpdateOutcome { reply: Reply::UpdateFailed(error.detail()), restart_task: false },
    }
}

/// What a request to start a task leads to.
#[derive(Debug, PartialEq, Eq)]
pub enum StartPlan {
    /// The task runs already: nothing is done.
    AlreadyRunning,
    /// A task is launched, after the configuration in `persist`, if there
    /// is one, has been stored.
    Launch { persist: Option<ConfigModel> },
}

/// The plan for a request to start a task.
pub open spec fn start_plan(config: ConfigModel, status: TaskStatus) -> StartPlan {
    if status == TaskStatus::Running {
        StartPlan::AlreadyRunning
    } else if config.enable_task {
        StartPlan::Launch { persist: None }
    } else {
        StartPlan::Launch { persist: Some(ConfigModel { enable_task: true, ..config }) }
    }
}

/// Decides what a request to start a task leads to. Nothing is done for a
/// task that runs; else the task is launched, and the configuration is
/// first stored as switched on, where it was not.
pub fn handle_add_task(config: &ConfigModel, status: TaskStatus) -> (plan: StartPlan)
    ensures
        plan == start_plan(*config, status),
{
    match status {
        TaskStatus::Running => StartPlan::AlreadyRunning,
        TaskStatus::NotRunning => if config.enable_task {
            StartPlan::Launch { persist: None }
        } else {
            StartPlan::Launch { persist: Some(config.clone().with_enable_task(true)) }
        },
    }
}

/// Takes a launched task into the registry. A user who has a task already
/// keeps it.
pub fn add_task(
    registry: &mut TaskRegistry,
    user: String,
    handle: tokio::task::JoinHandle<()>,
) -> (reply: Reply)
    ensures
        final(registry).running() == old(registry).running().insert(user@),
        final(registry).status_of(user@) == TaskStatus::Running,
        reply == if old(registry).running().contains(user@) {
            Reply::TaskRunning
        } else {
            Reply::TaskStarted
        },
{
    match registry.add_task(user, handle) {
        StartOutcome::Started => Reply::TaskStarted,
        StartOutcome::AlreadyRunning => Reply::TaskRunning,
    }
}

/// The configuration to store before a task is stopped: the same, switched
/// off, where it is switched on; nothing where it is switched off already.
pub fn stop_plan(config: &ConfigModel) -> (persist: Option<ConfigModel>)
    ensures
        persist == if config.enable_task {
            Some(ConfigModel { enable_task: false, ..*config })
        } else {
            None
        },
{
    if config.enable_task {
        Some(config.clone().with_enable_task(false))
    } else {
        None
    }
}

/// Stops the user's task. A user without a task is told that none runs:
/// that is an answer, not a failure.
pub fn handle_task_stop(registry: &mut TaskRegistry, user: &str) -> (reply: Reply)
    ensures
        final(registry).running() == old(registry).running().remove(user@),
        final(registry).status_of(user@) == TaskStatus::NotRunning,
        reply == if old(registry).running().contains(user@) {
            Reply::TaskStopped
        } else {
            Reply::TaskNotRunning
        },
{
    match registry.stop(user) {
        StopOutcome::Stopped => Reply::TaskStopped,
        StopOutcome::NotRunning => Reply::TaskNotRunning,
    }
}

/// What follows the cancelling of a task that is to start anew.
#[derive(Debug, PartialEq, Eq)]
pub enum RestartPlan {
    /// The task is started again.
    Start,
    /// The task stays stopped, and the user is told why.
    StayStopped(Reply),
}

/// Cancels the user's task, if one runs, and decides by the configuration
/// whether a new one is started: it is where the task is switched on.
pub fn handle_restart_task(
    registry: &mut TaskRegistry,
    user: &str,
    config: &ConfigModel,
) -> (plan: RestartPlan)
    ensures
        final(registry).running() == old(registry).running().remove(user@),
        plan == if config.enable_task {
            RestartPlan::Start
        } else {
            RestartPlan::StayStopped(Reply::NoRestartWhenDisabled)
        },
{
    let _ = registry.stop(user);
    if config.enable_task {
        RestartPlan::Start
    } else {
        RestartPlan::StayStopped(Reply::NoRestartWhenDisabled)
    }
}

/// Says whether the user's task runs, by the registry alone.
pub fn handle_task_status(registry: &TaskRegistry, user: &str) -> (reply: Reply)
    ensures
        reply == if registry.running().contains(user@) {
            Reply::TaskRunning
        } else {
            Reply::TaskNotRunning
        },
{
    match registry.status(user) {
        TaskStatus::Running => Reply::TaskRunning,
        TaskStatus::NotRunning => Reply::TaskNotRunning,
    }
}

/// Ends a task that gave up by itself: it leaves the registry, so that the
/// user's status is "not running" from then on.
pub fn handle_task_exit(registry: &mut TaskRegistry, user: &str)
    ensures
        final(registry).running() == old(registry).running().remove(user@),
        final(registry).status_of(user@) == TaskStatus::NotRunning,
{
    registry.task_exited(user);
}

} // verus!
