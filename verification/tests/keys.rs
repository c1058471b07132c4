use unicom_usage::utils::oxidebot_util::{
    get_user_bot_from, make_key, message_target, Target, TargetError,
};

#[test]
fn key_is_server_underscore_identity() {
    assert_eq!(make_key("onebot", "12345"), "onebot_12345");
    assert_eq!(make_key("", ""), "_");
}

#[test]
fn keys_of_user_and_bot() {
    assert_eq!(
        get_user_bot_from("onebot", Some("1"), Some("2")),
        Some(("onebot_1".to_string(), "onebot_2".to_string()))
    );
    assert_eq!(get_user_bot_from("onebot", None, Some("2")), None);
    assert_eq!(get_user_bot_from("onebot", Some("1"), None), None);
    assert_eq!(get_user_bot_from("onebot", None, None), None);
}

#[test]
fn target_is_read_from_the_keys() {
    assert_eq!(
        message_target("onebot_1", "onebot_2"),
        Ok(Target {
            server: "onebot".to_string(),
            bot_id: "2".to_string(),
            user_id: "1".to_string()
        })
    );
}

#[test]
fn keys_fall_apart_at_the_first_underscore() {
    assert_eq!(
        message_target("a_b_c", "x_y_z"),
        Ok(Target { server: "x".to_string(), bot_id: "y_z".to_string(), user_id: "b_c".to_string() })
    );
    assert_eq!(
        message_target("_", "_"),
        Ok(Target { server: String::new(), bot_id: String::new(), user_id: String::new() })
    );
}

#[test]
fn keys_without_underscore_are_refused_bot_first() {
    assert_eq!(message_target("onebot_1", "onebot2"), Err(TargetError::InvalidBot));
    assert_eq!(message_target("onebot1", "onebot_2"), Err(TargetError::InvalidUser));
    assert_eq!(message_target("onebot1", "onebot2"), Err(TargetError::InvalidBot));
    assert_eq!(message_target("", ""), Err(TargetError::InvalidBot));
}

#[test]
fn made_key_is_read_back() {
    let user = make_key("telegram", "42");
    let bot = make_key("telegram", "7");
    let target = message_target(&user, &bot).unwrap();
    assert_eq!(target.server, "telegram");
    assert_eq!(target.user_id, "42");
    assert_eq!(target.bot_id, "7");
}
