//! What the command line offers beside the daemon: checking a configuration
//! file and producing a sample configuration.

use crate::config::{FanConfig, IloConfig, TargetFans, TargetIlo};
use vstd::prelude::*;

verus! {

/// A parsed TOML document. Nothing is read from it.
#[verifier::external_type_specification]
#[verifier::external_body]
pub struct ExTomlValue(toml::Value);

/// The error of the TOML parser. It is read through its rendering only.
#[verifier::external_type_specification]
#[verifier::external_body]
pub struct ExTomlError(toml::de::Error);

/// The error with which the TOML parser turns `content` down; nothing
/// where `content` is a TOML document.
pub uninterp spec fn toml_failure(content: Seq<char>) -> Option<toml::de::Error>;

/// The words in which a parser error describes itself.
pub uninterp spec fn toml_error_text(error: toml::de::Error) -> Seq<char>;

/// The message with which the TOML parser turns `content` down; nothing
/// where `content` is a TOML document.
pub open spec fn toml_syntax_error(content: Seq<char>) -> Option<Seq<char>> {
    match toml_failure(content) {
        Some(error) => Some(toml_error_text(error)),
        None => None,
    }
}

/// Calls the `FromStr` of `toml::Value`. Whether it succeeds, and with which
/// error it fails, depends on `content` alone.
#[verifier::external_body]
fn parse_toml(content: &str) -> (parsed: Result<toml::Value, toml::de::Error>)
    ensures
        match parsed {
            Ok(_) => toml_failure(content@) is None,
            Err(error) => toml_failure(content@) == Some(error),
        },
{
    content.parse::<toml::Value>()
}

/// Calls `to_string` on a parser error, which renders it with its `Display`.
#[verifier::external_body]
fn render_toml_error(error: &toml::de::Error) -> (text: String)
    ensures
        text@ == toml_error_text(*error),
{
    error.to_string()
}

/// What the TOML parser says against `content`, if anything.
fn check_toml_syntax(content: &str) -> (error: Option<String>)
    ensures
        match error {
            Some(message) => toml_syntax_error(content@) == Some(message@),
            None => toml_syntax_error(content@) is None,
        },
{
    match parse_toml(content) {
        Ok(_) => None,
        Err(error) => Some(render_toml_error(&error)),
    }
}

/// The verdict on a file's syntax, given what the parser said of it.
pub open spec fn syntax_verdict(error: Option<Seq<char>>) -> Result<Seq<char>, Seq<char>> {
    match error {
        None => Ok("The file contains valid TOML syntax"@),
        Some(message) => Err("TOML syntax validation failed: "@ + message),
    }
}

/// The verdict on a file's syntax: `content` is what reading the file at
/// `path` gave, its text or the reason it could not be read.
pub open spec fn toml_verdict(path: Seq<char>, content: Result<Seq<char>, Seq<char>>) -> Result<
    Seq<char>,
    Seq<char>,
> {
    match content {
        Ok(text) => syntax_verdict(toml_syntax_error(text)),
        Err(reason) => Err("Failed to read file '"@ + path + "': "@ + reason),
    }
}

/// The verdict on a configuration: `loaded` is what loading it gave, the
/// configuration or the reason it could not be loaded.
pub open spec fn config_verdict(loaded: Result<IloConfig, Seq<char>>) -> Result<
    Seq<char>,
    Seq<char>,
> {
    match loaded {
        Err(reason) => Err("Failed to load configuration: "@ + reason),
        Ok(config) => if config.valid() {
            Ok("Configuration is valid"@)
        } else if !config.speeds_valid() {
            Err(
                "Configuration validation failed: "@ + "max_fan_speed must be between 0 and 100"@,
            )
        } else {
            Err("Configuration validation failed: "@ + "target fan numbers start at 1"@)
        },
    }
}

/// The verdict of the whole check, from the verdicts of its two halves: the
/// syntax is judged first, and the configuration only where the syntax holds.
pub open spec fn check_verdict(
    syntax: Result<Seq<char>, Seq<char>>,
    config: Result<Seq<char>, Seq<char>>,
) -> Result<Seq<char>, Seq<char>> {
    match syntax {
        Err(reason) => Err("TOML syntax validation failed: "@ + reason),
        Ok(_) => match config {
            Ok(_) => Ok("Configuration validation passed"@),
            Err(reason) => Err("Configuration validation failed: "@ + reason),
        },
    }
}

/// The view of a verdict.
pub open spec fn verdict_view(verdict: Result<String, String>) -> Result<Seq<char>, Seq<char>> {
    match verdict {
        Ok(text) => Ok(text@),
        Err(text) => Err(text@),
    }
}

/// The view of what reading a file gave.
pub open spec fn loaded_view(loaded: Result<IloConfig, String>) -> Result<IloConfig, Seq<char>> {
    match loaded {
        Ok(config) => Ok(config),
        Err(reason) => Err(reason@),
    }
}

/// `head` followed by `tail`.
fn joined(head: &str, tail: &str) -> (text: String)
    ensures
        text@ == head@ + tail@,
{
    let mut text = String::from_str(head);
    text.append(tail);
    text
}

/// Words the verdict on a file's syntax, given what the parser said of it.
pub fn syntax_report(error: Option<String>) -> (verdict: Result<String, String>)
    ensures
        verdict_view(verdict) == syntax_verdict(
            match error {
                Some(message) => Some(message@),
                None => None,
            },
        ),
{
    match error {
        None => Ok(String::from_str("The file contains valid TOML syntax")),
        Some(message) => Err(joined("TOML syntax validation failed: ", message.as_str())),
    }
}

/// Checks that a file holds TOML, whatever the document says. `content` is
/// what reading the file at `path` gave: its text, or the reason it could not
/// be read.
pub fn toml_validation(path: &str, content: &Result<String, String>) -> (verdict: Result<
    String,
    String,
>)
    ensures
        verdict_view(verdict) == toml_verdict(path@, verdict_view(*content)),
{
    match content {
        Ok(text) => syntax_report(check_toml_syntax(text.as_str())),
        Err(reason) => {
            let mut message = joined("Failed to read file '", path);
            message.append("': ");
            message.append(reason.as_str());
            Err(message)
        },
    }
}

/// Checks a loaded configuration against the rules of [`IloConfig::valid`].
/// `loaded` is what loading the file gave: the configuration, or the reason it
/// could not be loaded.
pub fn config_validation(loaded: &Result<IloConfig, String>) -> (verdict: Result<String, String>)
    ensures
        verdict_view(verdict) == config_verdict(loaded_view(*loaded)),
{
    match loaded {
        Err(reason) => Err(joined("Failed to load configuration: ", reason.as_str())),
        Ok(config) => match config.validate() {
            Ok(()) => Ok(String::from_str("Configuration is valid")),
            Err(error) => Err(joined("Configuration validation failed: ", error.message())),
        },
    }
}

/// Checks a configuration file: first that it is TOML, then that it holds a
/// valid configuration.
pub fn config_check(path: &str, content: &Result<String, String>, loaded: &Result<
    IloConfig,
    String,
>) -> (verdict: Result<String, String>)
    ensures
        verdict_view(verdict) == check_verdict(
            toml_verdict(path@, verdict_view(*content)),
            config_verdict(loaded_view(*loaded)),
        ),
{
    match toml_validation(path, content) {
        Err(reason) => Err(joined("TOML syntax validation failed: ", reason.as_str())),
        Ok(_) => match config_validation(loaded) {
            Ok(_) => Ok(String::from_str("Configuration validation passed")),
            Err(reason) => Err(joined("Configuration validation failed: ", reason.as_str())),
        },
    }
}

/// The intervals of the sample configuration.
pub open spec fn sample_ranges() -> Seq<FanConfig> {
    seq![
        FanConfig { min_temp: 0, max_temp: 55, max_fan_speed: 20 },
        FanConfig { min_temp: 55, max_temp: 60, max_fan_speed: 40 },
        FanConfig { min_temp: 61, max_temp: 70, max_fan_speed: 70 },
        FanConfig { min_temp: 71, max_temp: 100, max_fan_speed: 100 },
    ]
}

/// `target` is a sample controller named `host`.
pub open spec fn is_sample_target(target: TargetIlo, host: Seq<char>) -> bool {
    &&& target.host@ == host
    &&& target.user@ == "USERNAME"@
    &&& target.password@ == "PASSWORD"@
    &&& target.target_fans == TargetFans::NumFans(7)
    &&& target.ranges() == sample_ranges()
}

/// A sample controller named `host`.
fn sample_target(host: &str) -> (target: TargetIlo)
    ensures
        is_sample_target(target, host@),
        target.valid(),
{
    let ranges = vec![
        FanConfig { min_temp: 0, max_temp: 55, max_fan_speed: 20 },
        FanConfig { min_temp: 55, max_temp: 60, max_fan_speed: 40 },
        FanConfig { min_temp: 61, max_temp: 70, max_fan_speed: 70 },
        FanConfig { min_temp: 71, max_temp: 100, max_fan_speed: 100 },
    ];
    assert(ranges@ =~= sample_ranges());
    TargetIlo {
        host: String::from_str(host),
        user: String::from_str("USERNAME"),
        password: String::from_str("PASSWORD"),
        target_fans: TargetFans::NumFans(7),
        temperature_fan_config: ranges,
    }
}

/// The sample configuration: a period of one minute and one sample
/// controller, or two with `dual`. It is valid as it stands.
pub fn show_sample(dual: bool) -> (config: IloConfig)
    ensures
        config.valid(),
        config.run_period_seconds == 60,
        config.targets@.len() == if dual {
            2nat
        } else {
            1nat
        },
        is_sample_target(config.targets@[0], "ILO_HOST_NAME_OR_IP_ADDRESS"@),
        dual ==> is_sample_target(config.targets@[1], "ILO_HOST2_NAME_OR_IP_ADDRESS"@),
{
    let mut targets: Vec<TargetIlo> = Vec::new();
    targets.push(sample_target("ILO_HOST_NAME_OR_IP_ADDRESS"));
    if dual {
        targets.push(sample_target("ILO_HOST2_NAME_OR_IP_ADDRESS"));
    }
    IloConfig { run_period_seconds: 60, targets }
}

} // verus!
