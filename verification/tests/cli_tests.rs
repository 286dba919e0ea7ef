use telemetry_engine::cli::{identify_command, parse_command, CliCommand};

#[test]
fn test_parse_empty() {
    assert!(parse_command("").is_none());
    assert!(parse_command("   ").is_none());
}

#[test]
fn test_parse_simple() {
    let cmd = parse_command("help").unwrap();
    assert_eq!(cmd.name, "help");
    assert_eq!(cmd.args.len(), 0);
}

#[test]
fn test_parse_with_args() {
    let cmd = parse_command("led_color 255 0 128").unwrap();
    assert_eq!(cmd.name, "led_color");
    assert_eq!(cmd.args.len(), 3);
    assert_eq!(cmd.args[0], "255");
    assert_eq!(cmd.args[1], "0");
    assert_eq!(cmd.args[2], "128");
}

#[test]
fn test_parse_extra_whitespace() {
    let cmd = parse_command("  imu_stream   50  ").unwrap();
    assert_eq!(cmd.name, "imu_stream");
    assert_eq!(cmd.args.len(), 1);
    assert_eq!(cmd.args[0], "50");
}

#[test]
fn test_identify_commands() {
    assert!(matches!(identify_command("help"), CliCommand::Help));
    assert!(matches!(identify_command("imu_read"), CliCommand::ImuRead));
    assert!(matches!(identify_command("led_on"), CliCommand::LedOn));
    assert!(matches!(identify_command("invalid"), CliCommand::Unknown));
}

#[test]
fn test_parse_excess_args_ignored() {
    let cmd = parse_command("led_color 1 2 3 4 5 6").unwrap();
    assert_eq!(cmd.name, "led_color");
    assert_eq!(cmd.args.len(), 4);
    assert_eq!(cmd.args, vec!["1", "2", "3", "4"]);
}

#[test]
fn test_identify_full_vocabulary() {
    assert!(matches!(identify_command("status"), CliCommand::Status));
    assert!(matches!(identify_command("reset"), CliCommand::Reset));
    assert!(matches!(identify_command("imu_stream"), CliCommand::ImuStream));
    assert!(matches!(identify_command("imu_stop"), CliCommand::ImuStreamStop));
    assert!(matches!(identify_command("imu_range"), CliCommand::ImuRange));
    assert!(matches!(identify_command("imu_filter"), CliCommand::ImuFilter));
    assert!(matches!(identify_command("imu_status"), CliCommand::ImuStatus));
    assert!(matches!(identify_command("led_off"), CliCommand::LedOff));
    assert!(matches!(identify_command("led_color"), CliCommand::LedColor));
    assert!(matches!(identify_command("HELP"), CliCommand::Unknown));
}
