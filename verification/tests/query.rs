use unicom_usage::model::{ConfigModel, UsageReading};
use unicom_usage::utils::china_unicom::{
    classify_fetch_error, handle_auth_update, FetchError, QueryEvent, QueryStep,
};

fn config() -> ConfigModel {
    ConfigModel {
        user: "qq_1".to_string(),
        cookie: "old cookie".to_string(),
        token_online: "old token".to_string(),
        app_id: "app".to_string(),
        ..ConfigModel::default()
    }
}

fn rotated() -> ConfigModel {
    ConfigModel { cookie: "new cookie".to_string(), token_online: "new token".to_string(), ..config() }
}

fn data(name: &str) -> UsageReading {
    UsageReading { package_name: name.to_string(), ..UsageReading::default() }
}

#[test]
fn expired_session_is_told_by_its_code() {
    assert_eq!(classify_fetch_error("code 999998: login".to_string()), FetchError::AuthExpired);
    assert_eq!(classify_fetch_error("999998".to_string()), FetchError::AuthExpired);
    assert_eq!(
        classify_fetch_error("code 99999: no".to_string()),
        FetchError::Other("code 99999: no".to_string())
    );
    assert_eq!(classify_fetch_error(String::new()), FetchError::Other(String::new()));
}

#[test]
fn auth_update_rotates_both_credentials() {
    assert_eq!(
        handle_auth_update(&config(), "new cookie".to_string(), "new token".to_string()),
        rotated()
    );
}

#[test]
fn query_that_succeeds_at_once() {
    let step = QueryStep::start(config());
    assert_eq!(step, QueryStep::Fetch(config()));
    assert_eq!(
        step.advance(QueryEvent::Fetched(data("a"))),
        QueryStep::Reconcile(config(), data("a"))
    );
}

#[test]
fn expired_session_is_renewed_and_the_query_retried_once() {
    let step = QueryStep::start(config());
    let step = step.advance(QueryEvent::FetchFailed("error 999998".to_string()));
    assert_eq!(step, QueryStep::Reauthenticate(config()));
    let step = step.advance(QueryEvent::Reauthenticated {
        cookie: "new cookie".to_string(),
        token_online: "new token".to_string(),
    });
    assert_eq!(step, QueryStep::SaveCredentials(rotated()));
    let step = step.advance(QueryEvent::Saved);
    assert_eq!(step, QueryStep::Retry(rotated()));
    let step = step.advance(QueryEvent::Fetched(data("retried")));
    assert_eq!(step, QueryStep::Reconcile(rotated(), data("retried")));
}

#[test]
fn second_expiry_is_not_retried() {
    let step = QueryStep::Retry(rotated());
    assert_eq!(
        step.advance(QueryEvent::FetchFailed("error 999998".to_string())),
        QueryStep::Fail("error 999998".to_string())
    );
}

#[test]
fn other_failures_end_the_query_with_their_words() {
    assert_eq!(
        QueryStep::start(config()).advance(QueryEvent::FetchFailed("timeout".to_string())),
        QueryStep::Fail("timeout".to_string())
    );
    assert_eq!(
        QueryStep::Reauthenticate(config())
            .advance(QueryEvent::ReauthenticationFailed("bad token".to_string())),
        QueryStep::Fail("bad token".to_string())
    );
    assert_eq!(
        QueryStep::SaveCredentials(rotated()).advance(QueryEvent::SaveFailed("disk".to_string())),
        QueryStep::Fail("disk".to_string())
    );
}

#[test]
fn events_that_answer_nothing_are_passed_over() {
    assert_eq!(QueryStep::start(config()).advance(QueryEvent::Saved), QueryStep::Fetch(config()));
    assert_eq!(
        QueryStep::Reauthenticate(config()).advance(QueryEvent::Fetched(data("a"))),
        QueryStep::Reauthenticate(config())
    );
    assert_eq!(
        QueryStep::SaveCredentials(config()).advance(QueryEvent::FetchFailed("x".to_string())),
        QueryStep::SaveCredentials(config())
    );
    assert_eq!(QueryStep::Retry(config()).advance(QueryEvent::Saved), QueryStep::Retry(config()));
    assert_eq!(
        QueryStep::Fail("x".to_string()).advance(QueryEvent::Fetched(data("a"))),
        QueryStep::Fail("x".to_string())
    );
    assert_eq!(
        QueryStep::Reconcile(config(), data("a")).advance(QueryEvent::FetchFailed("x".to_string())),
        QueryStep::Reconcile(config(), data("a"))
    );
}
