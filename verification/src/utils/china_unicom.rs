//! The reconciliation engine: given a fresh reading and the stored reference
//! points, which records to replace, whether to tell the user, and what.
//!
//! The day's reference point is replaced when there is none or when the
//! reading falls on another civil day than the stored one. The new one is
//! taken from the rolling reference point where one exists, so that the
//! day starts from the last accepted reading, and from the fresh reading
//! where none exists.

use vstd::prelude::*;
use vstd::string::StringExecFns;
use crate::model::config::Model as ConfigModel;
use crate::model::daily::Model as DailyModel;
use crate::model::daily::build_daily;
use crate::model::last::Model as LastModel;
use crate::model::last::build_last;
use crate::model::usage::UsageReading;
use crate::utils::format::{gigabytes, push_gigabytes};
use crate::utils::text::{contains, occurs_in};

verus! {

/// One change to the stored records of a user.
#[derive(Debug, PartialEq, Eq)]
pub enum StoreWrite {
    /// Remove the day's reference point of this user.
    DeleteDaily(String),
    /// Store this reference point of the day.
    InsertDaily(DailyModel),
    /// Remove the rolling reference point of this user.
    DeleteLast(String),
    /// Store this rolling reference point.
    InsertLast(LastModel),
}

/// Whether `new_data` replaces the rolling reference point: there is none
/// yet, or a configured timeout has passed since it was taken, or more free
/// or more paid data than a configured threshold was used since.
pub open spec fn should_replace(
    config: ConfigModel,
    new_data: UsageReading,
    last_model: Option<LastModel>,
) -> bool {
    match last_model {
        None => true,
        Some(last) => {
            ||| (config.timeout matches Some(timeout) && new_data.time.seconds()
                - last.time.seconds() > timeout)
            ||| (config.free_threshold matches Some(threshold) && new_data.free_flow_used
                - last.free_flow_used > threshold)
            ||| (config.nonfree_threshold matches Some(threshold) && new_data.non_free_flow_used
                - last.non_free_flow_used > threshold)
        },
    }
}

/// Whether `new_data` starts a new day: there is no reference point of the
/// day, or the stored one was taken on another civil day.
pub open spec fn day_rolls_over(new_data: UsageReading, daily_model: Option<DailyModel>) -> bool {
    match daily_model {
        None => true,
        Some(daily) => new_data.time.day() != daily.time.day(),
    }
}

/// The reference point that a new day starts from.
pub open spec fn daily_seed(
    new_data: UsageReading,
    last_model: Option<LastModel>,
    config: ConfigModel,
) -> DailyModel {
    match last_model {
        Some(last) => <DailyModel as vstd::std_specs::convert::FromSpec<LastModel>>::from_spec(last),
        None => DailyModel::from_reading(new_data, config.user, config.bot),
    }
}

/// The changes to the day's reference point that `new_data` asks for.
pub open spec fn daily_writes(
    new_data: UsageReading,
    last_model: Option<LastModel>,
    daily_model: Option<DailyModel>,
    config: ConfigModel,
) -> Seq<StoreWrite> {
    if !day_rolls_over(new_data, daily_model) {
        Seq::empty()
    } else if daily_model is Some {
        seq![
            StoreWrite::DeleteDaily(config.user),
            StoreWrite::InsertDaily(daily_seed(new_data, last_model, config)),
        ]
    } else {
        seq![StoreWrite::InsertDaily(daily_seed(new_data, last_model, config))]
    }
}

/// The changes to the rolling reference point that `new_data` asks for.
pub open spec fn last_writes(
    new_data: UsageReading,
    last_model: Option<LastModel>,
    config: ConfigModel,
) -> Seq<StoreWrite> {
    if !should_replace(config, new_data, last_model) {
        Seq::empty()
    } else if last_model is Some {
        seq![
            StoreWrite::DeleteLast(config.user),
            StoreWrite::InsertLast(LastModel::from_reading(new_data, config.user, config.bot)),
        ]
    } else {
        seq![StoreWrite::InsertLast(LastModel::from_reading(new_data, config.user, config.bot))]
    }
}

/// All the changes that `new_data` asks for, in the order to make them.
pub open spec fn store_writes(
    new_data: UsageReading,
    last_model: Option<LastModel>,
    daily_model: Option<DailyModel>,
    config: ConfigModel,
) -> Seq<StoreWrite> {
    daily_writes(new_data, last_model, daily_model, config) + last_writes(
        new_data,
        last_model,
        config,
    )
}

/// Decides whether `new_data` replaces the rolling reference point.
pub fn should_update_last(
    config: &ConfigModel,
    new_data: &UsageReading,
    last_model: &Option<LastModel>,
) -> (replace: bool)
    ensures
        replace == should_replace(*config, *new_data, *last_model),
{
    match last_model {
        None => true,
        Some(last) => {
            if let Some(timeout) = config.timeout {
                if new_data.time.seconds_since(&last.time) > timeout {
                    return true;
                }
            }
            if let Some(free_threshold) = config.free_threshold {
                if (new_data.free_flow_used as i128) - (last.free_flow_used as i128)
                    > free_threshold as i128 {
                    return true;
                }
            }
            if let Some(nonfree_threshold) = config.nonfree_threshold {
                if (new_data.non_free_flow_used as i128) - (last.non_free_flow_used as i128)
                    > nonfree_threshold as i128 {
                    return true;
                }
            }
            false
        },
    }
}

/// What a reading does to the stored records.
#[derive(Debug, PartialEq, Eq)]
pub struct DataUpdate {
    /// Whether the rolling reference point is replaced.
    pub updated_last: bool,
    /// The changes to make, in order.
    pub writes: Vec<StoreWrite>,
}

/// Works out the changes that `new_data` asks for: first those to the
/// day's reference point, then those to the rolling one.
pub fn handle_data_update(
    new_data: &UsageReading,
    last_model: &Option<LastModel>,
    daily_model: &Option<DailyModel>,
    config: &ConfigModel,
) -> (update: DataUpdate)
    ensures
        update.updated_last == should_replace(*config, *new_data, *last_model),
        update.writes@ == store_writes(*new_data, *last_model, *daily_model, *config),
{
    let mut writes: Vec<StoreWrite> = Vec::new();
    let rolls = match daily_model {
        None => true,
        Some(daily) => !new_data.time.same_day(&daily.time),
    };
    if rolls {
        if daily_model.is_some() {
            writes.push(StoreWrite::DeleteDaily(config.user.clone()));
        }
        match last_model {
            Some(last) => {
                let new_daily_model = DailyModel::from(last.clone());
                writes.push(StoreWrite::InsertDaily(new_daily_model));
            },
            None => {
                let new_daily_model = build_daily(
                    new_data.clone(),
                    config.user.clone(),
                    config.bot.clone(),
                );
                writes.push(StoreWrite::InsertDaily(new_daily_model));
            },
        }
    }
    assert(writes@ =~= daily_writes(*new_data, *last_model, *daily_model, *config));
    let updated_last = should_update_last(config, new_data, last_model);
    if updated_last {
        if last_model.is_some() {
            writes.push(StoreWrite::DeleteLast(config.user.clone()));
        }
        let new_last_model = build_last(new_data.clone(), config.user.clone(), config.bot.clone());
        writes.push(StoreWrite::InsertLast(new_last_model));
    }
    assert(writes@ =~= store_writes(*new_data, *last_model, *daily_model, *config));
    DataUpdate { updated_last, writes }
}

/// A line of two volumes: each label, then its volume in gigabytes.
pub open spec fn pair_line(
    first_label: Seq<char>,
    first: int,
    second_label: Seq<char>,
    second: int,
) -> Seq<char> {
    first_label + gigabytes(first) + " GB, "@ + second_label + gigabytes(second) + " GB\n"@
}

/// The paid and the free data used between `base` and `new_data`.
pub open spec fn delta_line(
    paid_label: Seq<char>,
    free_label: Seq<char>,
    new_data: UsageReading,
    base: UsageReading,
) -> Seq<char> {
    pair_line(
        paid_label,
        new_data.non_free_flow_used - base.non_free_flow_used,
        free_label,
        new_data.free_flow_used - base.free_flow_used,
    )
}

/// The general and the directed data used, each with its allotment.
pub open spec fn used_line(new_data: UsageReading) -> Seq<char> {
    "通用已用: "@ + gigabytes(new_data.non_limit_flow_used as int) + "/"@ + gigabytes(
        new_data.non_limit_flow as int,
    ) + " GB, "@ + "定向已用: "@ + gigabytes(new_data.limit_flow_used as int) + "/"@ + gigabytes(
        new_data.limit_flow as int,
    ) + " GB\n"@
}

/// The general and the directed data left: what is allotted less what is
/// used.
pub open spec fn left_line(new_data: UsageReading) -> Seq<char> {
    pair_line(
        "通用余: "@,
        new_data.non_limit_flow - new_data.non_limit_flow_used,
        "定向余: "@,
        new_data.limit_flow - new_data.limit_flow_used,
    )
}

/// The report on `new_data`: the plan's name; the data used since the
/// rolling reference point, where there was one; the data used since the
/// day's reference point, where there was one; the data used of what is
/// allotted; the data left.
pub open spec fn report(
    new_data: UsageReading,
    last_model: Option<LastModel>,
    daily_model: Option<DailyModel>,
) -> Seq<char> {
    new_data.package_name@ + ":\n"@ + (match last_model {
        Some(last) => delta_line("跳: "@, "免: "@, new_data, last.reading()),
        None => Seq::empty(),
    }) + (match daily_model {
        Some(daily) => delta_line("今跳: "@, "今免: "@, new_data, daily.reading()),
        None => Seq::empty(),
    }) + used_line(new_data) + left_line(new_data)
}

fn push_pair_line(out: &mut String, first_label: &str, first: i128, second_label: &str, second: i128)
    ensures
        final(out)@ == old(out)@ + pair_line(first_label@, first as int, second_label@, second as int),
{
    out.append(first_label);
    push_gigabytes(out, first);
    out.append(" GB, ");
    out.append(second_label);
    push_gigabytes(out, second);
    out.append(" GB\n");
    assert(out@ =~= old(out)@ + pair_line(
        first_label@,
        first as int,
        second_label@,
        second as int,
    ));
}

fn push_delta_line(
    out: &mut String,
    paid_label: &str,
    free_label: &str,
    new_data: &UsageReading,
    base: &UsageReading,
)
    ensures
        final(out)@ == old(out)@ + delta_line(paid_label@, free_label@, *new_data, *base),
{
    push_pair_line(
        out,
        paid_label,
        (new_data.non_free_flow_used as i128) - (base.non_free_flow_used as i128),
        free_label,
        (new_data.free_flow_used as i128) - (base.free_flow_used as i128),
    );
}

fn push_used_line(out: &mut String, new_data: &UsageReading)
    ensures
        final(out)@ == old(out)@ + used_line(*new_data),
{
    out.append("通用已用: ");
    push_gigabytes(out, new_data.non_limit_flow_used as i128);
    out.append("/");
    push_gigabytes(out, new_data.non_limit_flow as i128);
    out.append(" GB, ");
    out.append("定向已用: ");
    push_gigabytes(out, new_data.limit_flow_used as i128);
    out.append("/");
    push_gigabytes(out, new_data.limit_flow as i128);
    out.append(" GB\n");
    assert(out@ =~= old(out)@ + used_line(*new_data));
}

/// Writes the report on `new_data` against the reference points that were
/// stored before it arrived.
pub fn build_message(
    new_data: &UsageReading,
    last_model: Option<LastModel>,
    daily_model: Option<DailyModel>,
) -> (message: String)
    ensures
        message@ == report(*new_data, last_model, daily_model),
{
    let mut message = String::new();
    message.append(new_data.package_name.as_str());
    message.append(":\n");
    if let Some(last) = &last_model {
        let base = last.to_reading();
        push_delta_line(&mut message, "跳: ", "免: ", new_data, &base);
    }
    if let Some(daily) = &daily_model {
        let base = daily.to_reading();
        push_delta_line(&mut message, "今跳: ", "今免: ", new_data, &base);
    }
    push_used_line(&mut message, new_data);
    push_pair_line(
        &mut message,
        "通用余: ",
        (new_data.non_limit_flow as i128) - (new_data.non_limit_flow_used as i128),
        "定向余: ",
        (new_data.limit_flow as i128) - (new_data.limit_flow_used as i128),
    );
    assert(message@ =~= report(*new_data, last_model, daily_model));
    message
}

/// The outcome of one reconciliation.
#[derive(Debug, PartialEq, Eq)]
pub struct Reconciliation {
    /// Whether the user is told: exactly when the rolling reference point
    /// is replaced.
    pub should_notify: bool,
    /// The report on the reading.
    pub message: String,
    /// The changes to make to the stored records, in order.
    pub writes: Vec<StoreWrite>,
}

/// Reconciles a fresh reading with the stored reference points: the changes
/// to the store, whether to tell the user, and the report, which measures
/// against the reference points as they were before the reading arrived.
pub fn reconcile(
    new_data: &UsageReading,
    config: &ConfigModel,
    last_model: Option<LastModel>,
    daily_model: Option<DailyModel>,
) -> (outcome: Reconciliation)
    ensures
        outcome.should_notify == should_replace(*config, *new_data, last_model),
        outcome.writes@ == store_writes(*new_data, last_model, daily_model, *config),
        outcome.message@ == report(*new_data, last_model, daily_model),
{
    let update = handle_data_update(new_data, &last_model, &daily_model, config);
    let message = build_message(new_data, last_model, daily_model);
    Reconciliation { should_notify: update.updated_last, message, writes: update.writes }
}

/// The code by which the usage source says that the session has expired.
pub open spec fn auth_expired_code() -> Seq<char> {
    "999998"@
}

/// Whether an error of the usage source says that the session has expired.
pub open spec fn is_auth_expired(message: Seq<char>) -> bool {
    occurs_in(message, auth_expired_code())
}

/// Why the usage source gave no reading.
#[derive(Debug, PartialEq, Eq)]
pub enum FetchError {
    /// The session has expired; new credentials may help.
    AuthExpired,
    /// Anything else, with the source's own words.
    Other(String),
}

/// Tells an expired session from any other failure of the usage source.
pub fn classify_fetch_error(message: String) -> (error: FetchError)
    ensures
        is_auth_expired(message@) ==> error == FetchError::AuthExpired,
        !is_auth_expired(message@) ==> error == FetchError::Other(message),
{
    if contains(message.as_str(), "999998") {
        FetchError::AuthExpired
    } else {
        FetchError::Other(message)
    }
}

/// The configuration with the credentials that a re-authentication gave.
pub fn handle_auth_update(config: &ConfigModel, cookie: String, token_online: String) -> (new_config:
    ConfigModel)
    ensures
        new_config == (ConfigModel { cookie, token_online, ..*config }),
{
    config.clone().with_credentials(cookie, token_online)
}

/// Where one query stands: what has to happen next.
#[derive(Debug, PartialEq, Eq)]
pub enum QueryStep {
    /// Ask the usage source, with the cookie of this configuration.
    Fetch(ConfigModel),
    /// Exchange the token of this configuration for new credentials.
    Reauthenticate(ConfigModel),
    /// Store this configuration, which holds the new credentials.
    SaveCredentials(ConfigModel),
    /// Ask the usage source once more, with the new cookie.
    Retry(ConfigModel),
    /// Reconcile this reading, under this configuration.
    Reconcile(ConfigModel, UsageReading),
    /// Give up, with the reason.
    Fail(String),
}

/// What came back from the step that was due.
#[derive(Debug, PartialEq, Eq)]
pub enum QueryEvent {
    /// The usage source gave a reading.
    Fetched(UsageReading),
    /// The usage source failed, in its own words.
    FetchFailed(String),
    /// The re-authentication gave new credentials.
    Reauthenticated { cookie: String, token_online: String },
    /// The re-authentication failed.
    ReauthenticationFailed(String),
    /// The store took the configuration.
    Saved,
    /// The store refused the configuration.
    SaveFailed(String),
}

/// The step that follows `step` once `event` has come back. An expired
/// session at the first request leads to a re-authentication, the storing
/// of the new credentials and one more request; any other failure ends the
/// query, and so does a failure of the second request, whatever its kind.
/// An event that does not answer the step leaves it as it is.
pub open spec fn next_step(step: QueryStep, event: QueryEvent) -> QueryStep {
    match (step, event) {
        (QueryStep::Fetch(config), QueryEvent::Fetched(data)) => QueryStep::Reconcile(config, data),
        (QueryStep::Fetch(config), QueryEvent::FetchFailed(message)) => if is_auth_expired(
            message@,
        ) {
            QueryStep::Reauthenticate(config)
        } else {
            QueryStep::Fail(message)
        },
        (
            QueryStep::Reauthenticate(config),
            QueryEvent::Reauthenticated { cookie, token_online },
        ) => QueryStep::SaveCredentials(ConfigModel { cookie, token_online, ..config }),
        (
            QueryStep::Reauthenticate(config),
            QueryEvent::ReauthenticationFailed(message),
        ) => QueryStep::Fail(message),
        (QueryStep::SaveCredentials(config), QueryEvent::Saved) => QueryStep::Retry(config),
        (QueryStep::SaveCredentials(config), QueryEvent::SaveFailed(message)) => QueryStep::Fail(
            message,
        ),
        (QueryStep::Retry(config), QueryEvent::Fetched(data)) => QueryStep::Reconcile(config, data),
        (QueryStep::Retry(config), QueryEvent::FetchFailed(message)) => QueryStep::Fail(message),
        (step, _) => step,
    }
}

impl QueryStep {
    /// The first step of a query under `config`.
    pub fn start(config: ConfigModel) -> (step: QueryStep)
        ensures
            step == QueryStep::Fetch(config),
    {
        QueryStep::Fetch(config)
    }

    /// Whether the query has come to its end.
    pub open spec fn is_final(self) -> bool {
        self is Reconcile || self is Fail
    }

    /// The step that follows once `event` has come back.
    pub fn advance(self, event: QueryEvent) -> (next: QueryStep)
        ensures
            next == next_step(self, event),
    {
        match self {
            QueryStep::Fetch(config) => match event {
                QueryEvent::Fetched(data) => QueryStep::Reconcile(config, data),
                QueryEvent::FetchFailed(message) => match classify_fetch_error(message) {
                    FetchError::AuthExpired => QueryStep::Reauthenticate(config),
                    FetchError::Other(message) => QueryStep::Fail(message),
                },
                _ => QueryStep::Fetch(config),
            },
            QueryStep::Reauthenticate(config) => match event {
                QueryEvent::Reauthenticated { cookie, token_online } => QueryStep::SaveCredentials(
                    config.with_credentials(cookie, token_online),
                ),
                QueryEvent::ReauthenticationFailed(message) => QueryStep::Fail(message),
                _ => QueryStep::Reauthenticate(config),
            },
            QueryStep::SaveCredentials(config) => match event {
                QueryEvent::Saved => QueryStep::Retry(config),
                QueryEvent::SaveFailed(message) => QueryStep::Fail(message),
                _ => QueryStep::SaveCredentials(config),
            },
            QueryStep::Retry(config) => match event {
                QueryEvent::Fetched(data) => QueryStep::Reconcile(config, data),
                QueryEvent::FetchFailed(message) => QueryStep::Fail(message),
                _ => QueryStep::Retry(config),
            },
            QueryStep::Reconcile(config, data) => QueryStep::Reconcile(config, data),
            QueryStep::Fail(message) => QueryStep::Fail(message),
        }
    }
}

/// The reference points stored for one user.
#[derive(Debug, PartialEq, Eq)]
pub struct Snapshots {
    /// The rolling reference point.
    pub last: Option<LastModel>,
    /// The reference point of the day.
    pub daily: Option<DailyModel>,
}

/// The stored reference points after one change.
pub open spec fn after_write(stored: Snapshots, write: StoreWrite) -> Snapshots {
    match write {
        StoreWrite::DeleteDaily(_) => Snapshots { daily: None, ..stored },
        StoreWrite::InsertDaily(daily) => Snapshots { daily: Some(daily), ..stored },
        StoreWrite::DeleteLast(_) => Snapshots { last: None, ..stored },
        StoreWrite::InsertLast(last) => Snapshots { last: Some(last), ..stored },
    }
}

/// The stored reference points after a run of changes, made in order.
pub open spec fn after_writes(stored: Snapshots, writes: Seq<StoreWrite>) -> Snapshots
    decreases writes.len(),
{
    if writes.len() == 0 {
        stored
    } else {
        after_write(after_writes(stored, writes.drop_last()), writes.last())
    }
}

/// The stored reference points once `new_data` has been reconciled with
/// them.
pub open spec fn after_reading(stored: Snapshots, new_data: UsageReading, config: ConfigModel) -> Snapshots {
    Snapshots {
        last: if should_replace(config, new_data, stored.last) {
            Some(LastModel::from_reading(new_data, config.user, config.bot))
        } else {
            stored.last
        },
        daily: if day_rolls_over(new_data, stored.daily) {
            Some(daily_seed(new_data, stored.last, config))
        } else {
            stored.daily
        },
    }
}

/// Whether no limit of the configuration is below zero.
pub open spec fn limits_are_non_negative(config: ConfigModel) -> bool {
    &&& config.timeout matches Some(timeout) ==> timeout >= 0
    &&& config.free_threshold matches Some(threshold) ==> threshold >= 0
    &&& config.nonfree_threshold matches Some(threshold) ==> threshold >= 0
}

impl Snapshots {
    /// Makes the changes to the stored reference points, in order.
    pub fn apply(self, writes: &Vec<StoreWrite>) -> (stored: Snapshots)
        ensures
            stored == after_writes(self, writes@),
    {
        let mut stored = self;
        let mut done: usize = 0;
        while done < writes.len()
            invariant
                done <= writes@.len(),
                stored == after_writes(self, writes@.take(done as int)),
            decreases writes@.len() - done,
        {
            proof {
                let next = writes@.take(done + 1);
                assert(next.drop_last() =~= writes@.take(done as int));
                assert(next.last() == writes@[done as int]);
            }
            match &writes[done] {
                StoreWrite::DeleteDaily(_) => {
                    stored.daily = None;
                },
                StoreWrite::InsertDaily(daily) => {
                    stored.daily = Some(daily.clone());
                },
                StoreWrite::DeleteLast(_) => {
                    stored.last = None;
                },
                StoreWrite::InsertLast(last) => {
                    stored.last = Some(last.clone());
                },
            }
            done += 1;
        }
        assert(writes@.take(done as int) =~= writes@);
        stored
    }
}

/// The changes that a reading asks for turn the stored reference points
/// into those that the commit policy and the day rule call for: the rolling
/// one is the reading exactly when the policy fires, and the day's one is
/// new exactly when the day rolls over.
pub proof fn law_writes_give_the_reconciled_state(
    stored: Snapshots,
    new_data: UsageReading,
    config: ConfigModel,
)
    ensures
        after_writes(stored, store_writes(new_data, stored.last, stored.daily, config))
            == after_reading(stored, new_data, config),
{
    let daily = daily_writes(new_data, stored.last, stored.daily, config);
    let last = last_writes(new_data, stored.last, config);
    lemma_after_writes_concat(stored, daily, last);
    let mid = after_writes(stored, daily);
    lemma_after_short_writes(stored, daily);
    lemma_after_short_writes(mid, last);
}

/// Changes made one run after another are the changes of both runs.
proof fn lemma_after_writes_concat(stored: Snapshots, first: Seq<StoreWrite>, second: Seq<StoreWrite>)
    ensures
        after_writes(stored, first + second) == after_writes(after_writes(stored, first), second),
    decreases second.len(),
{
    if second.len() == 0 {
        assert(first + second =~= first);
    } else {
        lemma_after_writes_concat(stored, first, second.drop_last());
        assert((first + second).drop_last() =~= first + second.drop_last());
        assert((first + second).last() == second.last());
    }
}

/// What a run of at most two changes does.
proof fn lemma_after_short_writes(stored: Snapshots, writes: Seq<StoreWrite>)
    requires
        writes.len() <= 2,
    ensures
        writes.len() == 0 ==> after_writes(stored, writes) == stored,
        writes.len() == 1 ==> after_writes(stored, writes) == after_write(stored, writes[0]),
        writes.len() == 2 ==> after_writes(stored, writes) == after_write(
            after_write(stored, writes[0]),
            writes[1],
        ),
{
    if writes.len() >= 1 {
        let front = writes.drop_last();
        if front.len() >= 1 {
            assert(front.drop_last().len() == 0);
            assert(after_writes(stored, front.drop_last()) == stored);
            assert(front.last() == writes[0]);
        }
        assert(after_writes(stored, writes) == after_write(
            after_writes(stored, front),
            writes.last(),
        ));
    }
}

/// The user is told exactly when the rolling reference point moves: the
/// changes hold a new rolling reference point when the commit policy fires,
/// as their last one, and none when it does not.
pub proof fn law_notice_goes_with_a_new_reference(
    new_data: UsageReading,
    last_model: Option<LastModel>,
    daily_model: Option<DailyModel>,
    config: ConfigModel,
)
    ensures
        should_replace(config, new_data, last_model) <==> exists|i: int|
            0 <= i < store_writes(new_data, last_model, daily_model, config).len()
                && #[trigger] store_writes(new_data, last_model, daily_model, config)[i] is InsertLast,
        should_replace(config, new_data, last_model) ==> store_writes(
            new_data,
            last_model,
            daily_model,
            config,
        ).last() == StoreWrite::InsertLast(
            LastModel::from_reading(new_data, config.user, config.bot),
        ),
{
    let writes = store_writes(new_data, last_model, daily_model, config);
    if should_replace(config, new_data, last_model) {
        assert(writes[writes.len() - 1] is InsertLast);
    }
}

/// A reading that has just been reconciled does not replace the rolling
/// reference point when it is reconciled again, whatever was stored before
/// the first time, unless a limit below zero is configured: with no timeout
/// and no threshold at all, never.
pub proof fn law_same_reading_keeps_the_reference(
    stored: Snapshots,
    new_data: UsageReading,
    config: ConfigModel,
)
    requires
        limits_are_non_negative(config),
    ensures
        !should_replace(config, new_data, after_reading(stored, new_data, config).last),
        after_reading(after_reading(stored, new_data, config), new_data, config).last
            == after_reading(stored, new_data, config).last,
{
}

/// The day's reference point is replaced when the reading falls on another
/// civil day than the stored one, and left alone when it falls on the same
/// day, whatever limits the configuration holds.
pub proof fn law_day_rollover(
    new_data: UsageReading,
    last_model: Option<LastModel>,
    daily: DailyModel,
    config: ConfigModel,
)
    ensures
        new_data.time.day() != daily.time.day() ==> daily_writes(
            new_data,
            last_model,
            Some(daily),
            config,
        ) == seq![
            StoreWrite::DeleteDaily(config.user),
            StoreWrite::InsertDaily(daily_seed(new_data, last_model, config)),
        ],
        new_data.time.day() == daily.time.day() ==> daily_writes(
            new_data,
            last_model,
            Some(daily),
            config,
        ) == Seq::<StoreWrite>::empty(),
        new_data.time.day() == daily.time.day() ==> after_reading(
            Snapshots { last: last_model, daily: Some(daily) },
            new_data,
            config,
        ).daily == Some(daily),
{
}

/// A first request that fails because the session has expired, followed by
/// a re-authentication that succeeds, the storing of the new credentials
/// and a second request that succeeds, ends with the reading of the second
/// request, under the configuration that holds the new credentials.
pub proof fn law_expired_session_recovers(
    config: ConfigModel,
    message: String,
    cookie: String,
    token_online: String,
    data: UsageReading,
)
    requires
        is_auth_expired(message@),
    ensures
        ({
            let rotated = ConfigModel { cookie, token_online, ..config };
            let asked = next_step(QueryStep::Fetch(config), QueryEvent::FetchFailed(message));
            let renewed = next_step(asked, QueryEvent::Reauthenticated { cookie, token_online });
            let saved = next_step(renewed, QueryEvent::Saved);
            let answered = next_step(saved, QueryEvent::Fetched(data));
            &&& asked == QueryStep::Reauthenticate(config)
            &&& renewed == QueryStep::SaveCredentials(rotated)
            &&& saved == QueryStep::Retry(rotated)
            &&& answered == QueryStep::Reconcile(rotated, data)
        }),
{
}

/// The usage source is asked twice at most: a second request that fails
/// ends the query, whatever the failure, and a query that has ended stays
/// as it is, whatever comes in.
pub proof fn law_one_retry_at_most(
    config: ConfigModel,
    message: String,
    step: QueryStep,
    event: QueryEvent,
)
    ensures
        next_step(QueryStep::Retry(config), QueryEvent::FetchFailed(message)) == QueryStep::Fail(
            message,
        ),
        step.is_final() ==> next_step(step, event) == step,
{
}

} // verus!
