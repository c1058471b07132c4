use unicom_usage::model::daily::build_daily;
use unicom_usage::model::last::build_last;
use unicom_usage::model::time::Timestamp;
use unicom_usage::model::{ConfigModel, DailyModel, LastModel, UsageReading};
use unicom_usage::utils::china_unicom::{
    build_message, handle_data_update, reconcile, should_update_last, Snapshots, StoreWrite,
};

const GB: i64 = 1 << 30;
// 2024-01-01T00:00:00 at UTC+8.
const NEW_YEAR: i64 = 1_704_038_400;
const UTC8: i32 = 28_800;

fn at(secs: i64) -> Timestamp {
    Timestamp::new(secs, UTC8).unwrap()
}

fn reading(secs: i64, free_used: i64, paid_used: i64) -> UsageReading {
    UsageReading {
        package_name: "plan".to_string(),
        time: at(secs),
        sum_flow_used: free_used + paid_used,
        free_flow_used: free_used,
        non_free_flow_used: paid_used,
        limit_flow_used: 2 * GB,
        non_limit_flow_used: 3 * GB,
        limit_flow: 40 * GB,
        non_limit_flow: 10 * GB,
        sum_flow: 50 * GB,
        ..UsageReading::default()
    }
}

fn quiet_config() -> ConfigModel {
    ConfigModel {
        user: "qq_1".to_string(),
        bot: "qq_2".to_string(),
        timeout: None,
        free_threshold: None,
        nonfree_threshold: None,
        ..ConfigModel::default()
    }
}

fn last_of(data: &UsageReading) -> LastModel {
    build_last(data.clone(), "qq_1".to_string(), "qq_2".to_string())
}

fn daily_of(data: &UsageReading) -> DailyModel {
    build_daily(data.clone(), "qq_1".to_string(), "qq_2".to_string())
}

#[test]
fn first_reading_is_always_accepted() {
    let data = reading(NEW_YEAR, 0, 0);
    assert!(should_update_last(&quiet_config(), &data, &None));
    assert!(should_update_last(&ConfigModel::default(), &data, &None));
}

#[test]
fn nothing_configured_nothing_replaced() {
    let last = last_of(&reading(NEW_YEAR, GB, GB));
    let data = reading(NEW_YEAR + 1_000_000, 30 * GB, 30 * GB);
    assert!(!should_update_last(&quiet_config(), &data, &Some(last)));
}

#[test]
fn timeout_alone_replaces() {
    let config = ConfigModel { timeout: Some(1800), ..quiet_config() };
    let last = Some(last_of(&reading(NEW_YEAR, GB, GB)));
    assert!(!should_update_last(&config, &reading(NEW_YEAR + 1800, GB, GB), &last));
    assert!(should_update_last(&config, &reading(NEW_YEAR + 1801, GB, GB), &last));
    assert!(!should_update_last(&config, &reading(NEW_YEAR - 5000, GB, GB), &last));
}

#[test]
fn free_threshold_alone_replaces() {
    let config = ConfigModel { free_threshold: Some(GB / 2), ..quiet_config() };
    let last = Some(last_of(&reading(NEW_YEAR, GB, GB)));
    assert!(!should_update_last(&config, &reading(NEW_YEAR + 9999, GB + GB / 2, 9 * GB), &last));
    assert!(should_update_last(&config, &reading(NEW_YEAR + 9999, GB + GB / 2 + 1, GB), &last));
}

#[test]
fn paid_threshold_scenario() {
    // Last paid use 1.0, threshold 0.5: 1.6 replaces, 1.4 does not.
    let config = ConfigModel { nonfree_threshold: Some(GB / 2), ..quiet_config() };
    let last = last_of(&reading(NEW_YEAR, 0, GB));
    let more = reading(NEW_YEAR + 60, 0, 1_717_986_918);
    let less = reading(NEW_YEAR + 60, 0, 1_503_238_554);
    assert!(should_update_last(&config, &more, &Some(last.clone())));
    assert!(!should_update_last(&config, &less, &Some(last.clone())));
    let day = daily_of(&reading(NEW_YEAR, 0, GB));
    let outcome = reconcile(&more, &config, Some(last.clone()), Some(day.clone()));
    assert!(outcome.should_notify);
    let outcome = reconcile(&less, &config, Some(last), Some(day));
    assert!(!outcome.should_notify);
    assert!(outcome.writes.is_empty());
}

#[test]
fn counters_that_fall_back_do_not_replace() {
    // A new billing cycle starts the counters again.
    let config = ConfigModel {
        free_threshold: Some(GB / 2),
        nonfree_threshold: Some(GB / 2),
        ..quiet_config()
    };
    let last = Some(last_of(&reading(NEW_YEAR, 20 * GB, 20 * GB)));
    assert!(!should_update_last(&config, &reading(NEW_YEAR + 60, 0, 0), &last));
}

#[test]
fn extreme_counters_do_not_overflow() {
    let config = ConfigModel { free_threshold: Some(i64::MAX), nonfree_threshold: Some(i64::MIN), ..quiet_config() };
    let last = Some(last_of(&reading(NEW_YEAR, i64::MIN, i64::MAX)));
    // free: MAX - MIN > MAX holds.
    assert!(should_update_last(&config, &reading(NEW_YEAR, i64::MAX, i64::MAX), &last));
    let config = ConfigModel { nonfree_threshold: Some(i64::MIN), ..quiet_config() };
    // paid: MIN - MAX > MIN does not hold.
    assert!(!should_update_last(&config, &reading(NEW_YEAR, 0, i64::MIN), &last));
    // paid: MIN + 1 - MAX + ... : 0 - MAX > MIN holds.
    assert!(should_update_last(&config, &reading(NEW_YEAR, 0, 0), &last));
}

#[test]
fn first_query_creates_both_reference_points() {
    let config = ConfigModel { interval: 60, ..quiet_config() };
    let data = reading(NEW_YEAR + 10, GB, GB);
    let outcome = reconcile(&data, &config, None, None);
    assert!(outcome.should_notify);
    assert_eq!(
        outcome.writes,
        vec![StoreWrite::InsertDaily(daily_of(&data)), StoreWrite::InsertLast(last_of(&data))]
    );
    let stored = Snapshots { last: None, daily: None }.apply(&outcome.writes);
    assert_eq!(stored, Snapshots { last: Some(last_of(&data)), daily: Some(daily_of(&data)) });
}

#[test]
fn same_reading_twice_replaces_once() {
    let config = quiet_config();
    let data = reading(NEW_YEAR + 10, GB, GB);
    let first = reconcile(&data, &config, None, None);
    assert!(first.should_notify);
    let stored = Snapshots { last: None, daily: None }.apply(&first.writes);
    let second = reconcile(&data, &config, stored.last.clone(), stored.daily.clone());
    assert!(!second.should_notify);
    assert!(second.writes.is_empty());
    let again = Snapshots { last: stored.last.clone(), daily: stored.daily.clone() };
    assert_eq!(again.apply(&second.writes), stored);
    // With limits that are not below zero it is the same.
    let config = ConfigModel { timeout: Some(0), free_threshold: Some(0), nonfree_threshold: Some(0), ..quiet_config() };
    let second = reconcile(&data, &config, stored.last.clone(), stored.daily.clone());
    assert!(!second.should_notify);
    // A limit below zero makes every reading count.
    let config = ConfigModel { free_threshold: Some(-1), ..quiet_config() };
    let second = reconcile(&data, &config, stored.last.clone(), stored.daily.clone());
    assert!(second.should_notify);
}

#[test]
fn no_daily_snapshot_and_no_last_seeds_from_the_reading() {
    let data = reading(NEW_YEAR + 10, GB, GB);
    let update = handle_data_update(&data, &None, &None, &quiet_config());
    assert!(update.updated_last);
    assert_eq!(update.writes[0], StoreWrite::InsertDaily(daily_of(&data)));
}

#[test]
fn no_daily_snapshot_seeds_from_the_last() {
    let old = reading(NEW_YEAR - 100, GB, GB);
    let data = reading(NEW_YEAR + 10, 2 * GB, GB);
    let update = handle_data_update(&data, &Some(last_of(&old)), &None, &quiet_config());
    assert!(!update.updated_last);
    assert_eq!(update.writes, vec![StoreWrite::InsertDaily(DailyModel::from(last_of(&old)))]);
    assert_eq!(DailyModel::from(last_of(&old)), daily_of(&old));
}

#[test]
fn daily_snapshot_of_another_day_is_replaced() {
    let yesterday = reading(NEW_YEAR - 1, GB, GB);
    let data = reading(NEW_YEAR, 2 * GB, GB);
    // Whatever the limits say.
    for config in [quiet_config(), ConfigModel { timeout: Some(0), ..quiet_config() }] {
        let update = handle_data_update(
            &data,
            &Some(last_of(&yesterday)),
            &Some(daily_of(&yesterday)),
            &config,
        );
        assert_eq!(update.writes[0], StoreWrite::DeleteDaily("qq_1".to_string()));
        assert_eq!(update.writes[1], StoreWrite::InsertDaily(daily_of(&yesterday)));
        assert_eq!(update.updated_last, config.timeout.is_some());
        assert_eq!(update.writes.len(), if update.updated_last { 4 } else { 2 });
    }
    let update = handle_data_update(&data, &None, &Some(daily_of(&yesterday)), &quiet_config());
    assert_eq!(
        update.writes,
        vec![
            StoreWrite::DeleteDaily("qq_1".to_string()),
            StoreWrite::InsertDaily(daily_of(&data)),
            StoreWrite::InsertLast(last_of(&data)),
        ]
    );
}

#[test]
fn daily_snapshot_of_the_same_day_is_kept() {
    let morning = reading(NEW_YEAR, GB, GB);
    let evening = reading(NEW_YEAR + 86_399, 2 * GB, GB);
    for config in [quiet_config(), ConfigModel { timeout: Some(1), ..quiet_config() }] {
        let update = handle_data_update(
            &evening,
            &Some(last_of(&morning)),
            &Some(daily_of(&morning)),
            &config,
        );
        assert_eq!(update.updated_last, config.timeout.is_some());
        if update.updated_last {
            assert_eq!(
                update.writes,
                vec![
                    StoreWrite::DeleteLast("qq_1".to_string()),
                    StoreWrite::InsertLast(last_of(&evening)),
                ]
            );
        } else {
            assert!(update.writes.is_empty());
        }
        let before = Snapshots { last: Some(last_of(&morning)), daily: Some(daily_of(&morning)) };
        assert_eq!(before.apply(&update.writes).daily, Some(daily_of(&morning)));
    }
}

#[test]
fn day_is_judged_on_the_clock_of_each_reading() {
    // One instant: the evening of 31 December in UTC, 1 January at UTC+8.
    let mut here = reading(NEW_YEAR, GB, GB);
    let mut there = reading(NEW_YEAR, GB, GB);
    there.time = Timestamp::new(NEW_YEAR, 0).unwrap();
    let update = handle_data_update(&here, &Some(last_of(&here)), &Some(daily_of(&there)), &quiet_config());
    assert_eq!(update.writes.len(), 2);
    here.time = there.time;
    let update = handle_data_update(&here, &Some(last_of(&here)), &Some(daily_of(&there)), &quiet_config());
    assert!(update.writes.is_empty());
}

#[test]
fn report_without_reference_points() {
    let data = reading(NEW_YEAR, GB, GB);
    assert_eq!(
        build_message(&data, None, None),
        "plan:\n通用已用: 3.00/10.00 GB, 定向已用: 2.00/40.00 GB\n通用余: 7.00 GB, 定向余: 38.00 GB\n"
    );
}

#[test]
fn report_with_both_reference_points() {
    let last = reading(NEW_YEAR, GB, GB);
    let daily = reading(NEW_YEAR - 50, GB / 2, GB / 4);
    let data = reading(NEW_YEAR + 60, 3 * GB, 1_717_986_918);
    assert_eq!(
        build_message(&data, Some(last_of(&last)), Some(daily_of(&daily))),
        "plan:\n跳: 0.60 GB, 免: 2.00 GB\n今跳: 1.35 GB, 今免: 2.50 GB\n通用已用: 3.00/10.00 GB, 定向已用: 2.00/40.00 GB\n通用余: 7.00 GB, 定向余: 38.00 GB\n"
    );
}

#[test]
fn report_parts_come_and_go_independently() {
    let base = reading(NEW_YEAR, GB, GB);
    let data = reading(NEW_YEAR + 60, GB, GB);
    let tail = "通用已用: 3.00/10.00 GB, 定向已用: 2.00/40.00 GB\n通用余: 7.00 GB, 定向余: 38.00 GB\n";
    assert_eq!(
        build_message(&data, Some(last_of(&base)), None),
        format!("plan:\n跳: 0.00 GB, 免: 0.00 GB\n{}", tail)
    );
    assert_eq!(
        build_message(&data, None, Some(daily_of(&base))),
        format!("plan:\n今跳: 0.00 GB, 今免: 0.00 GB\n{}", tail)
    );
}

#[test]
fn report_shows_overuse_and_falling_counters_as_negative() {
    let base = reading(NEW_YEAR, 5 * GB, 5 * GB);
    let mut data = reading(NEW_YEAR + 60, GB, GB);
    data.non_limit_flow_used = 11 * GB;
    assert_eq!(
        build_message(&data, Some(last_of(&base)), None),
        "plan:\n跳: -4.00 GB, 免: -4.00 GB\n通用已用: 11.00/10.00 GB, 定向已用: 2.00/40.00 GB\n通用余: -1.00 GB, 定向余: 38.00 GB\n"
    );
}

#[test]
fn report_measures_against_what_was_stored_before() {
    let config = ConfigModel { nonfree_threshold: Some(GB / 2), ..quiet_config() };
    let last = reading(NEW_YEAR, 0, GB);
    let data = reading(NEW_YEAR + 60, 0, 1_717_986_918);
    let outcome = reconcile(&data, &config, Some(last_of(&last)), None);
    assert!(outcome.should_notify);
    assert!(outcome.message.contains("跳: 0.60 GB, 免: 0.00 GB\n"));
    assert_eq!(outcome.message, build_message(&data, Some(last_of(&last)), None));
}

#[test]
fn snapshot_conversions_keep_the_reading() {
    let data = reading(NEW_YEAR, GB, 2 * GB);
    let last = last_of(&data);
    assert_eq!(last.user, "qq_1");
    assert_eq!(last.bot, "qq_2");
    assert_eq!(last.to_reading(), data);
    assert_eq!(UsageReading::from(last.clone()), data);
    let daily: DailyModel = last.clone().into();
    assert_eq!(daily.to_reading(), data);
    assert_eq!(daily.user, "qq_1");
    assert_eq!(UsageReading::from(daily), data);
    assert_eq!(LastModel::default().to_reading(), UsageReading::default());
    assert_eq!(DailyModel::default().to_reading(), UsageReading::default());
}
