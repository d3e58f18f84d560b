//! Bot configuration: the values read from the environment, their defaults,
//! and the checks that reject an unusable configuration.

use vstd::prelude::*;
use vstd::string::*;

use crate::text::{parse_u32, parse_u32_text, same_text};

verus! {

/// Where the PCM audio comes from.
#[derive(Clone, Copy, Debug, PartialEq, Eq, Structural)]
pub enum AudioInputMode {
    /// Raw `f32le` PCM sent to a TCP listener.
    RawTcp,
    /// An input URL that ffmpeg converts to PCM.
    FfmpegUrl,
}

/// The mode that a (lowercased) `AUDIO_INPUT_MODE` value names, if any.
pub open spec fn input_mode_from_name(s: Seq<char>) -> Option<AudioInputMode> {
    if s == "raw_tcp"@ {
        Some(AudioInputMode::RawTcp)
    } else if s == "ffmpeg_url"@ {
        Some(AudioInputMode::FfmpegUrl)
    } else {
        None
    }
}

impl AudioInputMode {
    /// The mode that `value` names: `raw_tcp` or `ffmpeg_url`.
    pub fn parse(value: &str) -> (r: Option<AudioInputMode>)
        ensures
            r == input_mode_from_name(value@),
    {
        if same_text(value, "raw_tcp") {
            Some(AudioInputMode::RawTcp)
        } else if same_text(value, "ffmpeg_url") {
            Some(AudioInputMode::FfmpegUrl)
        } else {
            None
        }
    }
}

/// The full Unicode lowercase mapping of a text, as `str::to_lowercase`
/// computes it.
pub uninterp spec fn unicode_lowercase(s: Seq<char>) -> Seq<char>;

/// `str::to_lowercase`: the contract claims only that the result is the
/// Unicode lowercase of the argument, a function of the argument alone
/// (std documents the mapping as locale independent).
#[verifier::external_body]
fn to_lowercase(s: &str) -> (r: String)
    ensures
        r@ == unicode_lowercase(s@),
{
    s.to_lowercase()
}

/// The configuration variables as the environment gave them; `None` where a
/// variable is unset or not valid Unicode.
pub struct EnvVars {
    pub discord_token: Option<String>,
    pub audio_bind_addr: Option<String>,
    pub audio_sample_rate: Option<String>,
    pub audio_channels: Option<String>,
    pub audio_input_mode: Option<String>,
    pub ffmpeg_bin: Option<String>,
    pub ffmpeg_input_url: Option<String>,
    pub bot_locale: Option<String>,
    pub message_templates_path: Option<String>,
}

/// The bot's configuration.
#[derive(Clone, Debug)]
pub struct AppConfig {
    pub discord_token: String,
    /// The socket address of the raw PCM listener, in text form.
    pub audio_bind_addr: String,
    pub audio_sample_rate: u32,
    pub audio_channels: u32,
    pub audio_input_mode: AudioInputMode,
    pub ffmpeg_bin: String,
    pub ffmpeg_input_url: Option<String>,
    pub bot_locale: String,
    pub message_templates_path: String,
}

/// Why a configuration is refused.
#[derive(Debug)]
pub enum ConfigError {
    /// `DISCORD_TOKEN` is unset.
    MissingDiscordToken,
    /// `AUDIO_BIND_ADDR` is not a socket address.
    InvalidBindAddr,
    /// `AUDIO_INPUT_MODE`, lowercased, names no mode.
    InvalidAudioInputMode(String),
    /// ffmpeg input was chosen without an input URL.
    MissingFfmpegInputUrl,
}

/// The kinds of [`ConfigError`], without their payload.
#[derive(Clone, Copy, Debug, PartialEq, Eq, Structural)]
pub enum ConfigProblem {
    MissingDiscordToken,
    InvalidBindAddr,
    InvalidAudioInputMode,
    MissingFfmpegInputUrl,
}

/// The kind of a configuration error.
pub open spec fn problem_of(e: ConfigError) -> ConfigProblem {
    match e {
        ConfigError::MissingDiscordToken => ConfigProblem::MissingDiscordToken,
        ConfigError::InvalidBindAddr => ConfigProblem::InvalidBindAddr,
        ConfigError::InvalidAudioInputMode(_) => ConfigProblem::InvalidAudioInputMode,
        ConfigError::MissingFfmpegInputUrl => ConfigProblem::MissingFfmpegInputUrl,
    }
}

/// The text of a configuration error.
pub open spec fn config_error_text(e: ConfigError) -> Seq<char> {
    match e {
        ConfigError::MissingDiscordToken => "DISCORD_TOKEN is required"@,
        ConfigError::InvalidBindAddr => "AUDIO_BIND_ADDR must be a valid socket address"@,
        ConfigError::InvalidAudioInputMode(got) => "AUDIO_INPUT_MODE must be one of: raw_tcp, ffmpeg_url (got: "@
            + got@ + ")"@,
        ConfigError::MissingFfmpegInputUrl => "FFMPEG_INPUT_URL is required when AUDIO_INPUT_MODE=ffmpeg_url"@,
    }
}

impl ConfigError {
    /// The text that reports this error.
    pub fn message(&self) -> (r: String)
        ensures
            r@ == config_error_text(*self),
    {
        match self {
            ConfigError::MissingDiscordToken => "DISCORD_TOKEN is required".to_owned(),
            ConfigError::InvalidBindAddr => "AUDIO_BIND_ADDR must be a valid socket address".to_owned(),
            ConfigError::InvalidAudioInputMode(got) => {
                let mut s = "AUDIO_INPUT_MODE must be one of: raw_tcp, ffmpeg_url (got: ".to_owned();
                s.append(got.as_str());
                s.append(")");
                s
            },
            ConfigError::MissingFfmpegInputUrl => "FFMPEG_INPUT_URL is required when AUDIO_INPUT_MODE=ffmpeg_url".to_owned(),
        }
    }
}

/// The text of a variable, or `default` when it is unset.
pub open spec fn text_or(v: Option<String>, default: Seq<char>) -> Seq<char> {
    match v {
        Some(s) => s@,
        None => default,
    }
}

/// The number that a variable holds, or `default` when it is unset or not a
/// `u32`.
pub open spec fn number_or(v: Option<String>, default: u32) -> u32 {
    match v {
        Some(s) => match parse_u32(s@) {
            Some(n) => n,
            None => default,
        },
        None => default,
    }
}

/// The character view of an optional text.
pub open spec fn opt_text(v: Option<String>) -> Option<Seq<char>> {
    match v {
        Some(s) => Some(s@),
        None => None,
    }
}

/// The default listener address.
pub open spec fn default_bind_addr() -> Seq<char> {
    "0.0.0.0:3030"@
}

/// The `AUDIO_INPUT_MODE` text after lowercasing: the Unicode lowercase of
/// the variable, or `raw_tcp` (already lowercase) when it is unset.
pub open spec fn lowered_mode_text(vars: EnvVars) -> Seq<char> {
    match vars.audio_input_mode {
        Some(s) => unicode_lowercase(s@),
        None => "raw_tcp"@,
    }
}

/// The first reason, in the order the checks run, to refuse `vars`, given
/// whether the listener address parses and the lowercased mode text.
pub open spec fn first_problem(vars: EnvVars, bind_addr_valid: bool, lowered_mode: Seq<char>) -> Option<
    ConfigProblem,
> {
    if vars.discord_token is None {
        Some(ConfigProblem::MissingDiscordToken)
    } else if !bind_addr_valid {
        Some(ConfigProblem::InvalidBindAddr)
    } else if input_mode_from_name(lowered_mode) is None {
        Some(ConfigProblem::InvalidAudioInputMode)
    } else if input_mode_from_name(lowered_mode) == Some(AudioInputMode::FfmpegUrl)
        && vars.ffmpeg_input_url is None {
        Some(ConfigProblem::MissingFfmpegInputUrl)
    } else {
        None
    }
}

/// `cfg` holds the values of `vars`, with the defaults where they are unset,
/// and the input mode `mode`.
pub open spec fn config_from(cfg: AppConfig, vars: EnvVars, mode: AudioInputMode) -> bool {
    &&& vars.discord_token matches Some(t) && cfg.discord_token@ == t@
    &&& cfg.audio_bind_addr@ == text_or(vars.audio_bind_addr, default_bind_addr())
    &&& cfg.audio_sample_rate == number_or(vars.audio_sample_rate, 48000)
    &&& cfg.audio_channels == number_or(vars.audio_channels, 2)
    &&& cfg.audio_input_mode == mode
    &&& cfg.ffmpeg_bin@ == text_or(vars.ffmpeg_bin, "ffmpeg"@)
    &&& opt_text(cfg.ffmpeg_input_url) == opt_text(vars.ffmpeg_input_url)
    &&& cfg.bot_locale@ == text_or(vars.bot_locale, "zh-TW"@)
    &&& cfg.message_templates_path@ == text_or(vars.message_templates_path, "config/messages.toml"@)
}

/// The text of an optional variable, or `default`.
fn take_or(v: Option<String>, default: &str) -> (r: String)
    ensures
        r@ == text_or(v, default@),
{
    match v {
        Some(s) => s,
        None => default.to_owned(),
    }
}

/// The number in an optional variable, or `default`.
fn number_or_default(v: &Option<String>, default: u32) -> (r: u32)
    ensures
        r == number_or(*v, default),
{
    match v {
        Some(s) => match parse_u32_text(s.as_str()) {
            Some(n) => n,
            None => default,
        },
        None => default,
    }
}

impl EnvVars {
    /// The listener address text: `AUDIO_BIND_ADDR`, or `0.0.0.0:3030`.
    pub fn bind_addr_text(&self) -> (r: String)
        ensures
            r@ == text_or(self.audio_bind_addr, default_bind_addr()),
    {
        match &self.audio_bind_addr {
            Some(s) => s.clone(),
            None => "0.0.0.0:3030".to_owned(),
        }
    }
}

impl AppConfig {
    /// The configuration that `vars` describe, given whether the listener
    /// address parses as a socket address; the mode text is lowercased with
    /// `str::to_lowercase` before it is read.
    pub fn from_vars(vars: EnvVars, bind_addr_valid: bool) -> (r: Result<AppConfig, ConfigError>)
        ensures
            ({
                let lowered = lowered_mode_text(vars);
                &&& r is Err <==> first_problem(vars, bind_addr_valid, lowered) is Some
                &&& r matches Err(e) ==> Some(problem_of(e)) == first_problem(
                    vars,
                    bind_addr_valid,
                    lowered,
                )
                &&& r matches Err(ConfigError::InvalidAudioInputMode(got)) ==> got@ == lowered
                &&& r matches Ok(cfg) ==> input_mode_from_name(lowered) == Some(cfg.audio_input_mode)
                    && config_from(cfg, vars, cfg.audio_input_mode)
            }),
    {
        let raw = match &vars.audio_input_mode {
            Some(s) => to_lowercase(s.as_str()),
            None => "raw_tcp".to_owned(),
        };
        Self::from_lowered_mode(vars, bind_addr_valid, raw)
    }

    /// The configuration that `vars` describe, given whether the listener
    /// address parses and the lowercased `AUDIO_INPUT_MODE` text.
    pub fn from_lowered_mode(vars: EnvVars, bind_addr_valid: bool, lowered_mode: String) -> (r:
        Result<AppConfig, ConfigError>)
        ensures
            r is Err <==> first_problem(vars, bind_addr_valid, lowered_mode@) is Some,
            r matches Err(e) ==> Some(problem_of(e)) == first_problem(
                vars,
                bind_addr_valid,
                lowered_mode@,
            ),
            r matches Err(ConfigError::InvalidAudioInputMode(got)) ==> got@ == lowered_mode@,
            r matches Ok(cfg) ==> input_mode_from_name(lowered_mode@) == Some(cfg.audio_input_mode)
                && config_from(cfg, vars, cfg.audio_input_mode),
    {
        let EnvVars {
            discord_token,
            audio_bind_addr,
            audio_sample_rate,
            audio_channels,
            audio_input_mode: _,
            ffmpeg_bin,
            ffmpeg_input_url,
            bot_locale,
            message_templates_path,
        } = vars;
        let discord_token = match discord_token {
            Some(t) => t,
            None => return Err(ConfigError::MissingDiscordToken),
        };
        if !bind_addr_valid {
            return Err(ConfigError::InvalidBindAddr);
        }
        let audio_bind_addr = take_or(audio_bind_addr, "0.0.0.0:3030");
        let audio_sample_rate = number_or_default(&audio_sample_rate, 48000);
        let audio_channels = number_or_default(&audio_channels, 2);
        let audio_input_mode = match AudioInputMode::parse(lowered_mode.as_str()) {
            Some(m) => m,
            None => return Err(ConfigError::InvalidAudioInputMode(lowered_mode)),
        };
        let ffmpeg_bin = take_or(ffmpeg_bin, "ffmpeg");
        let bot_locale = take_or(bot_locale, "zh-TW");
        let message_templates_path = take_or(message_templates_path, "config/messages.toml");
        if audio_input_mode == AudioInputMode::FfmpegUrl && ffmpeg_input_url.is_none() {
            return Err(ConfigError::MissingFfmpegInputUrl);
        }
        Ok(
            AppConfig {
                discord_token,
                audio_bind_addr,
                audio_sample_rate,
                audio_channels,
                audio_input_mode,
                ffmpeg_bin,
                ffmpeg_input_url,
                bot_locale,
                message_templates_path,
            },
        )
    }
}

} // verus!
