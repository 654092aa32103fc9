use upmc::config::{
    channel_config_from_json, channel_config_or_default, channel_config_to_json, cli_channel,
    resolve_channel, updater_version_url, window_title, ChannelConfig, JavaNotFound,
    UpdateChannel, UPDATER_DEV_VERSION_URL, UPDATER_VERSION_URL,
};

fn args(list: &[&str]) -> Vec<String> {
    let mut v = vec!["upmc.exe".to_string()];
    v.extend(list.iter().map(|s| s.to_string()));
    v
}

fn dev_config(build: Option<&str>) -> ChannelConfig {
    ChannelConfig { channel: UpdateChannel::Dev, dev_build_id: build.map(|s| s.to_string()) }
}

#[test]
fn channel_flag_selects_and_persists() {
    let (cfg, save) = resolve_channel(&args(&["--channel", "dev"]), ChannelConfig::default_config());
    assert!(save);
    assert!(matches!(cfg.channel, UpdateChannel::Dev));

    let (cfg, save) = resolve_channel(&args(&["--channel", "STABLE"]), dev_config(Some("abc1234")));
    assert!(save);
    assert!(matches!(cfg.channel, UpdateChannel::Stable));
    // switching to stable clears the recorded dev build id
    assert!(cfg.dev_build_id.is_none());
}

#[test]
fn absent_flag_leaves_the_persisted_channel_untouched() {
    let (cfg, save) = resolve_channel(&args(&[]), dev_config(Some("abc1234")));
    assert!(!save);
    assert!(matches!(cfg.channel, UpdateChannel::Dev));
    assert_eq!(cfg.dev_build_id.as_deref(), Some("abc1234"));
}

#[test]
fn unknown_channel_value_falls_back_to_the_persisted_choice() {
    let (cfg, save) = resolve_channel(&args(&["--channel", "beta"]), dev_config(None));
    assert!(!save);
    assert!(matches!(cfg.channel, UpdateChannel::Dev));
}

#[test]
fn later_flags_win_and_lone_flag_is_ignored() {
    assert!(matches!(
        cli_channel(&args(&["--channel", "dev", "--channel", "stable"])),
        Some(UpdateChannel::Stable)
    ));
    assert!(cli_channel(&args(&["--channel"])).is_none());
    assert!(cli_channel(&args(&["-c", "dev"])).is_none());
}

#[test]
fn channel_config_round_trips_through_json() {
    let cfg = dev_config(Some("abc1234"));
    let text = channel_config_to_json(&cfg);
    let back = channel_config_from_json(&text);
    assert!(matches!(back.channel, UpdateChannel::Dev));
    assert_eq!(back.dev_build_id.as_deref(), Some("abc1234"));

    let stable = ChannelConfig::default_config();
    let back = channel_config_from_json(&channel_config_to_json(&stable));
    assert!(matches!(back.channel, UpdateChannel::Stable));
    assert!(back.dev_build_id.is_none());
}

#[test]
fn unreadable_channel_records_fall_back_to_stable() {
    let cfg = channel_config_or_default(None);
    assert!(matches!(cfg.channel, UpdateChannel::Stable));
    let cfg = channel_config_from_json("{nonsense");
    assert!(matches!(cfg.channel, UpdateChannel::Stable));
    // an unrecognised channel value discards the whole record
    let cfg = channel_config_from_json("{\"channel\":\"beta\",\"dev_build_id\":\"x\"}");
    assert!(matches!(cfg.channel, UpdateChannel::Stable));
    assert!(cfg.dev_build_id.is_none());
}

#[test]
fn each_channel_has_its_own_version_document() {
    assert_eq!(updater_version_url(UpdateChannel::Stable), UPDATER_VERSION_URL);
    assert_eq!(updater_version_url(UpdateChannel::Dev), UPDATER_DEV_VERSION_URL);
    assert_ne!(UPDATER_VERSION_URL, UPDATER_DEV_VERSION_URL);
}

#[test]
fn window_title_shows_version_or_short_build_id() {
    assert_eq!(
        window_title(UpdateChannel::Stable, None, "0.3.6"),
        "我的服务器 - 更新器 v0.3.6"
    );
    assert_eq!(
        window_title(UpdateChannel::Dev, Some("abc1234def"), "0.3.6"),
        "我的服务器 - 更新器 dev-abc1234"
    );
    assert_eq!(
        window_title(UpdateChannel::Dev, Some("ab12"), "0.3.6"),
        "我的服务器 - 更新器 dev-ab12"
    );
    assert_eq!(window_title(UpdateChannel::Dev, None, "0.3.6"), "我的服务器 - 更新器 dev");
}

#[test]
fn missing_java_has_a_guided_message() {
    let msg = JavaNotFound.message();
    assert!(msg.contains("Java"));
    assert!(msg.contains("https://"));
}
