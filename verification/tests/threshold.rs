use ilo4_fan_control::config::{FanConfig, TargetFans, TargetIlo};
use ilo4_fan_control::gen_ssh::{decimal_string, fan_command, generate_fan_commands};
use ilo4_fan_control::threshold::{scale_speed, speed_for};

fn range(min_temp: u8, max_temp: u8, max_fan_speed: u8) -> FanConfig {
    FanConfig { min_temp, max_temp, max_fan_speed }
}

fn three_ranges() -> Vec<FanConfig> {
    vec![range(0, 30, 50), range(31, 60, 75), range(61, 85, 100)]
}

fn target(fans: TargetFans) -> TargetIlo {
    TargetIlo {
        host: "ilo".to_string(),
        user: "admin".to_string(),
        password: "password".to_string(),
        target_fans: fans,
        temperature_fan_config: three_ranges(),
    }
}

#[test]
fn scaling_is_exact_at_both_ends() {
    assert_eq!(scale_speed(0), 0);
    assert_eq!(scale_speed(100), 255);
}

#[test]
fn scaling_rounds_a_tie_up() {
    assert_eq!(scale_speed(10), 26);
    assert_eq!(scale_speed(50), 128);
    assert_eq!(scale_speed(75), 191);
    assert_eq!(scale_speed(1), 3);
    assert_eq!(scale_speed(25), 64);
    assert_eq!(scale_speed(99), 252);
}

#[test]
fn scaling_agrees_with_rounding_in_floating_point() {
    for percent in 0..=255u8 {
        let expected = ((percent as f32) * 2.55).round() as u8;
        assert_eq!(scale_speed(percent), expected, "at {} percent", percent);
    }
}

#[test]
fn scaling_is_the_nearest_integer() {
    for percent in 0..=100u32 {
        let value = scale_speed(percent as u8) as u32;
        assert_eq!(value, (percent * 255 + 50) / 100);
        assert!(100 * value + 50 > 255 * percent);
        assert!(100 * value <= 255 * percent + 50);
    }
}

#[test]
fn more_than_all_is_full_speed() {
    assert_eq!(scale_speed(101), 255);
    assert_eq!(scale_speed(255), 255);
}

#[test]
fn the_first_interval_that_contains_the_temperature_wins() {
    let overlapping = vec![range(0, 50, 10), range(40, 60, 20), range(40, 45, 30)];
    assert_eq!(speed_for(&overlapping, 45), Some(26));
    assert_eq!(speed_for(&overlapping, 55), Some(51));
    assert_eq!(speed_for(&overlapping, 61), None);
}

#[test]
fn both_bounds_belong_to_the_interval() {
    let ranges = three_ranges();
    assert_eq!(speed_for(&ranges, 0), Some(128));
    assert_eq!(speed_for(&ranges, 30), Some(128));
    assert_eq!(speed_for(&ranges, 31), Some(191));
    assert_eq!(speed_for(&ranges, 85), Some(255));
    assert_eq!(speed_for(&ranges, 86), None);
}

#[test]
fn an_empty_or_inverted_table_matches_nothing() {
    assert_eq!(speed_for(&vec![], 40), None);
    assert_eq!(speed_for(&vec![range(50, 40, 80)], 45), None);
}

#[test]
fn a_count_resolves_to_the_first_fans() {
    assert_eq!(TargetFans::NumFans(3).resolve(), vec![0, 1, 2]);
    assert_eq!(TargetFans::NumFans(0).resolve(), Vec::<u8>::new());
    assert_eq!(TargetFans::NumFans(255).resolve().len(), 255);
    assert_eq!(TargetFans::NumFans(255).resolve()[254], 254);
}

#[test]
fn a_list_resolves_in_place() {
    assert_eq!(TargetFans::TargetFans(vec![1, 3, 5]).resolve(), vec![0, 2, 4]);
    assert_eq!(TargetFans::TargetFans(vec![5, 1, 5, 255]).resolve(), vec![4, 0, 4, 254]);
    assert_eq!(TargetFans::TargetFans(vec![]).resolve(), Vec::<u8>::new());
    assert!(TargetFans::TargetFans(vec![1, 2]).is_one_based());
    assert!(!TargetFans::TargetFans(vec![1, 0]).is_one_based());
    assert!(TargetFans::NumFans(0).is_one_based());
}

#[test]
fn a_temperature_in_a_gap_gives_no_command() {
    let mut gapped = target(TargetFans::NumFans(4));
    gapped.temperature_fan_config = vec![range(20, 30, 50), range(40, 50, 75)];
    assert_eq!(generate_fan_commands(&gapped, 35), Vec::<String>::new());
    assert_eq!(generate_fan_commands(&gapped, 19), Vec::<String>::new());
    assert_eq!(generate_fan_commands(&gapped, 51), Vec::<String>::new());
}

#[test]
fn a_count_of_three_at_forty_five_degrees() {
    let commands = generate_fan_commands(&target(TargetFans::NumFans(3)), 45);
    assert_eq!(commands, vec!["fan p 0 max 191", "fan p 1 max 191", "fan p 2 max 191"]);
}

#[test]
fn an_explicit_list_at_seventy_degrees() {
    let commands = generate_fan_commands(&target(TargetFans::TargetFans(vec![1, 3, 5])), 70);
    assert_eq!(commands, vec!["fan p 0 max 255", "fan p 2 max 255", "fan p 4 max 255"]);
}

#[test]
fn no_fans_give_no_command() {
    assert_eq!(generate_fan_commands(&target(TargetFans::NumFans(0)), 45), Vec::<String>::new());
}

#[test]
fn the_command_text_is_fixed() {
    assert_eq!(fan_command(0, 0), "fan p 0 max 0");
    assert_eq!(fan_command(12, 255), "fan p 12 max 255");
    assert_eq!(fan_command(254, 9), "fan p 254 max 9");
}

#[test]
fn numbers_are_written_in_decimal() {
    assert_eq!(decimal_string(0), "0");
    assert_eq!(decimal_string(9), "9");
    assert_eq!(decimal_string(10), "10");
    assert_eq!(decimal_string(100), "100");
    assert_eq!(decimal_string(1234567890), "1234567890");
    assert_eq!(decimal_string(usize::MAX), usize::MAX.to_string());
}
