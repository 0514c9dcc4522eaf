use ilo4_fan_control::config::{ConfigError, FanConfig, IloConfig, TargetFans, TargetIlo};

fn create_valid_config() -> IloConfig {
    IloConfig {
        run_period_seconds: 60,
        targets: vec![
            TargetIlo {
                host: "192.168.1.100".to_string(),
                user: "admin".to_string(),
                password: "password123".to_string(),
                target_fans: TargetFans::NumFans(3),
                temperature_fan_config: vec![
                    FanConfig {
                        min_temp: 30,
                        max_temp: 50,
                        max_fan_speed: 50,
                    },
                    FanConfig {
                        min_temp: 51,
                        max_temp: 70,
                        max_fan_speed: 100,
                    },
                ],
            },
            TargetIlo {
                host: "192.168.1.101".to_string(),
                user: "admin".to_string(),
                password: "password456".to_string(),
                target_fans: TargetFans::TargetFans(vec![1, 2]),
                temperature_fan_config: vec![
                    FanConfig {
                        min_temp: 25,
                        max_temp: 40,
                        max_fan_speed: 30,
                    },
                    FanConfig {
                        min_temp: 41,
                        max_temp: 60,
                        max_fan_speed: 80,
                    },
                ],
            },
        ],
    }
}

#[test]
fn test_valid_config_validation() {
    let config = create_valid_config();
    assert!(config.validate().is_ok());
}

#[test]
fn test_invalid_fan_speed_validation() {
    let mut config = create_valid_config();
    // Set an invalid fan speed above 100%
    config.targets[0].temperature_fan_config[0].max_fan_speed = 120;
    assert!(config.validate().is_err());
}

#[test]
fn test_target_fans_variants() {
    let config = create_valid_config();

    // Check NumFans variant
    match &config.targets[0].target_fans {
        TargetFans::NumFans(num) => assert_eq!(*num, 3),
        _ => panic!("Expected NumFans variant"),
    }

    // Check TargetFans variant
    match &config.targets[1].target_fans {
        TargetFans::TargetFans(fans) => {
            assert_eq!(fans.len(), 2);
            assert_eq!(fans[0], 1);
            assert_eq!(fans[1], 2);
        }
        _ => panic!("Expected TargetFans variant"),
    }
}

#[test]
fn a_speed_above_one_hundred_is_reported_first() {
    let mut config = create_valid_config();
    config.targets[1].target_fans = TargetFans::TargetFans(vec![0, 2]);
    assert_eq!(config.validate(), Err(ConfigError::ZeroFanIndex));
    config.targets[1].temperature_fan_config[1].max_fan_speed = 101;
    assert_eq!(config.validate(), Err(ConfigError::FanSpeedOutOfRange));
}

#[test]
fn one_hundred_percent_is_valid() {
    let mut config = create_valid_config();
    config.targets[0].temperature_fan_config[0].max_fan_speed = 100;
    assert_eq!(config.validate(), Ok(()));
    assert_eq!(
        ConfigError::FanSpeedOutOfRange.message(),
        "max_fan_speed must be between 0 and 100"
    );
    assert_eq!(ConfigError::ZeroFanIndex.message(), "target fan numbers start at 1");
}
