use natebot::env::{
    get_config, get_config_safe, load_var_u32, load_var_usize, load_vec_u64, parse_u64_list,
    EnvError,
};

fn full_env() -> Vec<(String, String)> {
    [
        ("AUDIT_ENABLED_SERVERS", "123, 456 ,x,789"),
        ("CUSTOM_STATUS", "hello"),
        ("DATABASE_URL", "postgres://localhost/db"),
        ("DISCORD_TOKEN", "SECRET-REDACTED"),
        ("LOTTERY_ODDS", "1000"),
        ("QUEUE_MAX_SOUNDS", "10"),
        ("REACTION_TARGET_IDS", "42"),
        ("REACTION_TARGET_ODDS", "+5"),
        ("REDIS_URL", "redis://127.0.0.1/"),
        ("SOUNDCLOUD_CLIENT_ID", "id"),
        ("SOUNDCLOUD_CLIENT_SECRET", "secret"),
        ("WEBDRIVER_PORT", "4444"),
    ]
    .iter()
    .map(|(k, v)| (k.to_string(), v.to_string()))
    .collect()
}

fn without(env: &[(String, String)], key: &str) -> Vec<(String, String)> {
    env.iter().filter(|(k, _)| k != key).cloned().collect()
}

fn with(env: &[(String, String)], key: &str, value: &str) -> Vec<(String, String)> {
    let mut v = without(env, key);
    v.push((key.to_string(), value.to_string()));
    v
}

#[test]
fn load_env_vars() {
    let env = full_env();
    let _ = get_config(&env);

    let v = get_config_safe(&env);
    assert!(v.is_ok());
}

#[test]
fn config_fields_are_read() {
    let c = get_config(&full_env());
    assert_eq!(c.audit_enabled_servers, vec![123, 456, 789]);
    assert_eq!(c.custom_status, "hello");
    assert_eq!(c.database_url, "postgres://localhost/db");
    assert_eq!(c.lottery_odds, 1000);
    assert_eq!(c.queue_max_sounds, 10);
    assert_eq!(c.reaction_target_ids, vec![42]);
    assert_eq!(c.reaction_target_odds, 5);
    assert_eq!(c.redis_url, "redis://127.0.0.1/");
    assert_eq!(c.webdriver_port, 4444);
}

#[test]
fn missing_variable_is_reported_first_in_order() {
    let env = without(&without(&full_env(), "DISCORD_TOKEN"), "REDIS_URL");
    match get_config_safe(&env) {
        Err(EnvError::MissingVar(k)) => assert_eq!(k, "DISCORD_TOKEN"),
        _ => panic!("expected a missing variable"),
    }
}

#[test]
fn unreadable_number_is_missing() {
    let env = with(&full_env(), "WEBDRIVER_PORT", "70000");
    match get_config_safe(&env) {
        Err(EnvError::MissingVar(k)) => assert_eq!(k, "WEBDRIVER_PORT"),
        _ => panic!("expected a missing variable"),
    }
    let env = with(&full_env(), "QUEUE_MAX_SOUNDS", "-1");
    assert!(matches!(load_var_usize(&env, "QUEUE_MAX_SOUNDS"), Err(EnvError::MissingVar(_))));
}

#[test]
fn odds_out_of_range() {
    let env = with(&full_env(), "LOTTERY_ODDS", "0");
    match get_config_safe(&env) {
        Err(EnvError::InvalidRangeVar(k, lo, hi)) => {
            assert_eq!(k, "LOTTERY_ODDS");
            assert_eq!((lo, hi), (1, u32::MAX));
        }
        _ => panic!("expected a range error"),
    }
    assert_eq!(load_var_u32(&env, "LOTTERY_ODDS", 0, 3).ok(), Some(0));
    assert!(load_var_u32(&env, "LOTTERY_ODDS", 1, 3).is_err());
}

#[test]
fn list_skips_unreadable_pieces() {
    assert_eq!(parse_u64_list(""), Vec::<u64>::new());
    assert_eq!(parse_u64_list(" 1,2 ,, 3 ,\u{a0}4\u{a0},18446744073709551616"), vec![1, 2, 3, 4]);
    assert_eq!(parse_u64_list("+7,-7,0007"), vec![7, 7]);
    let env = with(&full_env(), "AUDIT_ENABLED_SERVERS", "");
    assert_eq!(load_vec_u64(&env, "AUDIT_ENABLED_SERVERS").ok(), Some(vec![]));
}

#[test]
fn error_messages() {
    assert_eq!(
        EnvError::MissingVar("REDIS_URL".to_string()).message(),
        "Could not find environment variable: REDIS_URL"
    );
    assert_eq!(
        EnvError::InvalidRangeVar("LOTTERY_ODDS".to_string(), 1, 4294967295).message(),
        "Environment variable 'LOTTERY_ODDS' not in valid range: 1 - 4294967295"
    );
}
