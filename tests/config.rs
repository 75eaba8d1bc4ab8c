use chat_client::config::{parse_config, parse_u64, ConfigError, Setting};

fn s(v: &str) -> Option<String> {
    Some(v.to_string())
}

#[test]
fn parses_numbers() {
    assert_eq!(parse_u64("0"), Some(0));
    assert_eq!(parse_u64("4330"), Some(4330));
    assert_eq!(parse_u64("341316763868332034"), Some(341316763868332034));
    assert_eq!(parse_u64("18446744073709551615"), Some(u64::MAX));
}

#[test]
fn rejects_non_numbers() {
    assert_eq!(parse_u64(""), None);
    assert_eq!(parse_u64("12a"), None);
    assert_eq!(parse_u64("-1"), None);
    assert_eq!(parse_u64(" 1"), None);
    assert_eq!(parse_u64("18446744073709551616"), None);
    assert_eq!(parse_u64("99999999999999999999x"), None);
}

#[test]
fn full_config() {
    let c = parse_config(s("tok"), s("341316763868332034"), s("4330")).unwrap();
    assert_eq!(c.token, "tok");
    assert_eq!(c.filters.channel_id, 341316763868332034);
    assert_eq!(c.filters.contact_id, 4330);
}

#[test]
fn missing_settings() {
    assert_eq!(
        parse_config(None, s("1"), s("2")).err(),
        Some(ConfigError::Missing(Setting::UserToken))
    );
    assert_eq!(
        parse_config(s("t"), None, s("2")).err(),
        Some(ConfigError::Missing(Setting::ContactChannelId))
    );
    assert_eq!(
        parse_config(s("t"), s("1"), None).err(),
        Some(ConfigError::Missing(Setting::ContactId))
    );
}

#[test]
fn malformed_settings() {
    assert_eq!(
        parse_config(s("t"), s("x"), s("2")).err(),
        Some(ConfigError::NotANumber(Setting::ContactChannelId))
    );
    assert_eq!(
        parse_config(s("t"), s("1"), s("")).err(),
        Some(ConfigError::NotANumber(Setting::ContactId))
    );
}

#[test]
fn variable_names() {
    assert_eq!(Setting::UserToken.var_name(), "USER_TOKEN");
    assert_eq!(Setting::ContactChannelId.var_name(), "CONTACT_CHANNEL_ID");
    assert_eq!(Setting::ContactId.var_name(), "CONTACT_ID");
}
