use btcli::conf::{
    after_load, keeps_log, mask_key, settings_complete, AppConfig, ConfigResult, ConfigStep, NOT_FOUND,
};

fn sample() -> AppConfig {
    AppConfig {
        appid: "your appid".to_string(),
        key: "your key".to_string(),
        source_lang: "auto".to_string(),
        target_lang: "zh".to_string(),
        enable_logging: false,
    }
}

#[test]
fn loaded_settings_are_used() {
    match after_load(ConfigResult::Loaded(sample())) {
        ConfigStep::Use(config) => {
            assert_eq!(config.appid, "your appid");
            assert_eq!(config.key, "your key");
            assert_eq!(config.source_lang, "auto");
            assert_eq!(config.target_lang, "zh");
            assert!(!config.enable_logging);
        }
        _ => panic!("the settings were loaded"),
    }
}

#[test]
fn a_missing_file_asks_for_the_example() {
    let step = after_load(ConfigResult::Failed("config.toml not found, generating...".to_string()));
    assert!(matches!(step, ConfigStep::CreateExample));
    let step = after_load(ConfigResult::Failed(NOT_FOUND.to_string()));
    assert!(matches!(step, ConfigStep::CreateExample));
}

#[test]
fn any_other_reason_ends_the_attempt() {
    let reason = "config.toml is not a file, please delete it and try again.";
    match after_load(ConfigResult::Failed(reason.to_string())) {
        ConfigStep::Fail(message) => assert_eq!(message, reason),
        _ => panic!("the reason does not tell of a missing file"),
    }
    match after_load(ConfigResult::Failed(String::new())) {
        ConfigStep::Fail(message) => assert_eq!(message, ""),
        _ => panic!("the reason does not tell of a missing file"),
    }
    match after_load(ConfigResult::Failed("Not Found".to_string())) {
        ConfigStep::Fail(message) => assert_eq!(message, "Not Found"),
        _ => panic!("the words are matched by case"),
    }
}

#[test]
fn settings_are_complete_when_no_text_is_empty() {
    assert!(settings_complete("id", "key", "auto", "zh"));
    assert!(!settings_complete("", "key", "auto", "zh"));
    assert!(!settings_complete("id", "", "auto", "zh"));
    assert!(!settings_complete("id", "key", "", "zh"));
    assert!(!settings_complete("id", "key", "auto", ""));
    assert!(!settings_complete("", "", "", ""));
    assert!(settings_complete(" ", " ", " ", " "));
}

#[test]
fn short_keys_are_shown_as_stars() {
    assert_eq!(mask_key(""), Some(String::new()));
    assert_eq!(mask_key("a"), Some("*".to_string()));
    assert_eq!(mask_key("abcdef"), Some("******".to_string()));
    // Two characters of three bytes each: six bytes, six stars.
    assert_eq!(mask_key("密钥"), Some("******".to_string()));
}

#[test]
fn long_keys_keep_their_ends() {
    assert_eq!(mask_key("abcdefg"), Some("abc***bcdefg".to_string()));
    assert_eq!(mask_key("0123456789abcdef"), Some("012***abcdef".to_string()));
    assert_eq!(mask_key("your key"), Some("you***ur key".to_string()));
}

#[test]
fn long_keys_go_by_characters_and_bytes() {
    // Seven characters, nine bytes: the tail starts at byte one.
    assert_eq!(mask_key("abcdef密"), Some("abc***bcdef密".to_string()));
    // Seven characters, the first of three bytes: byte one is inside it.
    assert_eq!(mask_key("密abcdef"), None);
    // Three characters in nine bytes: fewer than six characters.
    assert_eq!(mask_key("密钥匙"), None);
}

#[test]
fn a_log_is_kept_as_the_settings_say() {
    let mut config = sample();
    assert!(!keeps_log(&Ok(config.clone())));
    config.enable_logging = true;
    assert!(keeps_log(&Ok(config)));
}

#[test]
fn a_log_is_kept_while_there_are_no_settings() {
    assert!(keeps_log(&Err("config.toml not found, generating...".to_string())));
    assert!(keeps_log(&Err(String::new())));
}
