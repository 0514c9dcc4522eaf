use ilo4_fan_control::cmds::{
    config_check, config_validation, show_sample, syntax_report, toml_validation,
};
use ilo4_fan_control::config::{FanConfig, IloConfig, TargetFans};

fn ok(text: &str) -> Result<String, String> {
    Ok(text.to_string())
}

fn err(text: &str) -> Result<String, String> {
    Err(text.to_string())
}

const GOOD: &str = "run_period_seconds = 60\n\n[[targets]]\nhost = \"ilo\"\n";

#[test]
fn a_toml_document_passes_the_syntax_check() {
    assert_eq!(toml_validation("c.toml", &ok(GOOD)), ok("The file contains valid TOML syntax"));
    assert_eq!(toml_validation("c.toml", &ok("")), ok("The file contains valid TOML syntax"));
}

#[test]
fn test_invalid_toml_content() {
    let content = ok("This is not valid TOML content");
    let result = toml_validation("c.toml", &content);
    assert!(result.is_err());
    let message = result.unwrap_err();
    assert!(message.starts_with("TOML syntax validation failed: "));
    assert!(message.len() > "TOML syntax validation failed: ".len());
    let loaded: Result<IloConfig, String> = Err("no configuration".to_string());
    assert!(config_check("c.toml", &content, &loaded).is_err());
}

#[test]
fn a_file_that_cannot_be_read_is_reported_with_its_path() {
    assert_eq!(
        toml_validation("/etc/fans.toml", &err("No such file or directory")),
        err("Failed to read file '/etc/fans.toml': No such file or directory")
    );
}

#[test]
fn the_parser_s_words_are_passed_on() {
    assert_eq!(
        syntax_report(Some("expected `=`".to_string())),
        err("TOML syntax validation failed: expected `=`")
    );
    assert_eq!(syntax_report(None), ok("The file contains valid TOML syntax"));
}

#[test]
fn a_loaded_configuration_is_validated() {
    assert_eq!(config_validation(&Ok(show_sample(false))), ok("Configuration is valid"));
    let mut fast = show_sample(true);
    fast.targets[1].temperature_fan_config[0].max_fan_speed = 120;
    assert_eq!(
        config_validation(&Ok(fast)),
        err("Configuration validation failed: max_fan_speed must be between 0 and 100")
    );
    let mut zero = show_sample(false);
    zero.targets[0].target_fans = TargetFans::TargetFans(vec![1, 0]);
    assert_eq!(
        config_validation(&Ok(zero)),
        err("Configuration validation failed: target fan numbers start at 1")
    );
    assert_eq!(
        config_validation(&Err("missing field `targets`".to_string())),
        err("Failed to load configuration: missing field `targets`")
    );
}

#[test]
fn the_check_judges_syntax_before_content() {
    let loaded = Ok(show_sample(false));
    assert_eq!(config_check("c.toml", &ok(GOOD), &loaded), ok("Configuration validation passed"));
    assert_eq!(
        config_check("c.toml", &err("denied"), &loaded),
        err("TOML syntax validation failed: Failed to read file 'c.toml': denied")
    );
    let bad: Result<IloConfig, String> = Err("missing field `targets`".to_string());
    assert_eq!(
        config_check("c.toml", &ok(GOOD), &bad),
        err("Configuration validation failed: Failed to load configuration: missing field `targets`")
    );
    let broken = config_check("c.toml", &ok("a = = 1"), &loaded).unwrap_err();
    assert!(broken.starts_with("TOML syntax validation failed: TOML syntax validation failed: "));
}

#[test]
fn the_sample_holds_one_controller_or_two() {
    let single = show_sample(false);
    assert_eq!(single.run_period_seconds, 60);
    assert_eq!(single.targets.len(), 1);
    assert_eq!(single.targets[0].host, "ILO_HOST_NAME_OR_IP_ADDRESS");
    assert_eq!(single.targets[0].user, "USERNAME");
    assert_eq!(single.targets[0].password, "PASSWORD");
    match &single.targets[0].target_fans {
        TargetFans::NumFans(count) => assert_eq!(*count, 7),
        TargetFans::TargetFans(list) => panic!("explicit list {:?}", list),
    }
    assert_eq!(
        single.targets[0].temperature_fan_config,
        vec![
            FanConfig { min_temp: 0, max_temp: 55, max_fan_speed: 20 },
            FanConfig { min_temp: 55, max_temp: 60, max_fan_speed: 40 },
            FanConfig { min_temp: 61, max_temp: 70, max_fan_speed: 70 },
            FanConfig { min_temp: 71, max_temp: 100, max_fan_speed: 100 },
        ]
    );
    assert_eq!(single.validate(), Ok(()));

    let dual = show_sample(true);
    assert_eq!(dual.targets.len(), 2);
    assert_eq!(dual.targets[0].host, "ILO_HOST_NAME_OR_IP_ADDRESS");
    assert_eq!(dual.targets[1].host, "ILO_HOST2_NAME_OR_IP_ADDRESS");
    assert_eq!(dual.targets[1].temperature_fan_config, dual.targets[0].temperature_fan_config);
    assert_eq!(dual.validate(), Ok(()));
}
