use nekostream::config::{AppConfig, AudioInputMode, ConfigError, EnvVars};

fn vars() -> EnvVars {
    EnvVars {
        discord_token: Some("token".to_string()),
        audio_bind_addr: None,
        audio_sample_rate: None,
        audio_channels: None,
        audio_input_mode: None,
        ffmpeg_bin: None,
        ffmpeg_input_url: None,
        bot_locale: None,
        message_templates_path: None,
    }
}

#[test]
fn defaults_apply() {
    let v = vars();
    assert_eq!(v.bind_addr_text(), "0.0.0.0:3030");
    let cfg = AppConfig::from_vars(v, true).ok().unwrap();
    assert_eq!(cfg.discord_token, "token");
    assert_eq!(cfg.audio_bind_addr, "0.0.0.0:3030");
    assert_eq!(cfg.audio_sample_rate, 48000);
    assert_eq!(cfg.audio_channels, 2);
    assert_eq!(cfg.audio_input_mode, AudioInputMode::RawTcp);
    assert_eq!(cfg.ffmpeg_bin, "ffmpeg");
    assert_eq!(cfg.ffmpeg_input_url, None);
    assert_eq!(cfg.bot_locale, "zh-TW");
    assert_eq!(cfg.message_templates_path, "config/messages.toml");
}

#[test]
fn missing_token_is_refused_first() {
    let mut v = vars();
    v.discord_token = None;
    v.audio_input_mode = Some("bogus".to_string());
    let e = AppConfig::from_vars(v, false).err().unwrap();
    assert!(matches!(e, ConfigError::MissingDiscordToken));
    assert_eq!(e.message(), "DISCORD_TOKEN is required");
}

#[test]
fn bad_bind_address_is_refused() {
    let mut v = vars();
    v.audio_bind_addr = Some("nowhere".to_string());
    assert_eq!(v.bind_addr_text(), "nowhere");
    let e = AppConfig::from_vars(v, false).err().unwrap();
    assert_eq!(e.message(), "AUDIO_BIND_ADDR must be a valid socket address");
}

#[test]
fn mode_is_read_case_insensitively() {
    let mut v = vars();
    v.audio_input_mode = Some("FFMPEG_URL".to_string());
    v.ffmpeg_input_url = Some("srt://0.0.0.0:9998".to_string());
    let cfg = AppConfig::from_vars(v, true).ok().unwrap();
    assert_eq!(cfg.audio_input_mode, AudioInputMode::FfmpegUrl);
    assert_eq!(cfg.ffmpeg_input_url.as_deref(), Some("srt://0.0.0.0:9998"));
}

#[test]
fn unknown_mode_reports_lowercased_value() {
    let mut v = vars();
    v.audio_input_mode = Some("UDP".to_string());
    let e = AppConfig::from_vars(v, true).err().unwrap();
    assert_eq!(
        e.message(),
        "AUDIO_INPUT_MODE must be one of: raw_tcp, ffmpeg_url (got: udp)"
    );
}

#[test]
fn ffmpeg_mode_needs_url() {
    let mut v = vars();
    v.audio_input_mode = Some("ffmpeg_url".to_string());
    let e = AppConfig::from_vars(v, true).err().unwrap();
    assert_eq!(
        e.message(),
        "FFMPEG_INPUT_URL is required when AUDIO_INPUT_MODE=ffmpeg_url"
    );
}

#[test]
fn numbers_fall_back_when_unparsable() {
    let mut v = vars();
    v.audio_sample_rate = Some("+44100".to_string());
    v.audio_channels = Some("-1".to_string());
    let cfg = AppConfig::from_vars(v, true).ok().unwrap();
    assert_eq!(cfg.audio_sample_rate, 44100);
    assert_eq!(cfg.audio_channels, 2);
}

#[test]
fn explicit_values_are_kept() {
    let mut v = vars();
    v.audio_bind_addr = Some("127.0.0.1:4000".to_string());
    v.ffmpeg_bin = Some("/usr/bin/ffmpeg".to_string());
    v.bot_locale = Some("en-US".to_string());
    v.message_templates_path = Some("m.toml".to_string());
    v.audio_channels = Some("1".to_string());
    let cfg = AppConfig::from_vars(v, true).ok().unwrap();
    assert_eq!(cfg.audio_bind_addr, "127.0.0.1:4000");
    assert_eq!(cfg.ffmpeg_bin, "/usr/bin/ffmpeg");
    assert_eq!(cfg.bot_locale, "en-US");
    assert_eq!(cfg.message_templates_path, "m.toml");
    assert_eq!(cfg.audio_channels, 1);
}

#[test]
fn parses_mode_names() {
    assert_eq!(AudioInputMode::parse("raw_tcp"), Some(AudioInputMode::RawTcp));
    assert_eq!(AudioInputMode::parse("ffmpeg_url"), Some(AudioInputMode::FfmpegUrl));
    assert_eq!(AudioInputMode::parse("RAW_TCP"), None);
}

#[test]
fn lowered_mode_entry_point() {
    let cfg = AppConfig::from_lowered_mode(vars(), true, "raw_tcp".to_string()).ok().unwrap();
    assert_eq!(cfg.audio_input_mode, AudioInputMode::RawTcp);
    let e = AppConfig::from_lowered_mode(vars(), true, "RAW_TCP".to_string()).err().unwrap();
    assert!(matches!(e, ConfigError::InvalidAudioInputMode(ref s) if s == "RAW_TCP"));
}
