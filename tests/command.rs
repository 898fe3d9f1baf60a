use sys::command::{command_from_lowered, parse_command, Command};

#[test]
fn verbs_are_matched_ignoring_case() {
    assert_eq!(parse_command(Some("info")), Command::Info);
    assert_eq!(parse_command(Some("INFO")), Command::Info);
    assert_eq!(parse_command(Some("Status")), Command::Status);
    assert_eq!(parse_command(Some("--HELP")), Command::Help);
    assert_eq!(parse_command(Some("-h")), Command::Help);
    assert_eq!(parse_command(Some("help")), Command::Help);
    assert_eq!(parse_command(Some("-V")), Command::Version);
    assert_eq!(parse_command(Some("--version")), Command::Version);
}

#[test]
fn missing_argument_asks_for_help() {
    assert_eq!(parse_command(None), Command::Help);
}

#[test]
fn unknown_verb_is_unknown() {
    assert_eq!(parse_command(Some("reboot")), Command::Unknown);
    assert_eq!(parse_command(Some("")), Command::Unknown);
    assert_eq!(parse_command(Some("info ")), Command::Unknown);
}

#[test]
fn lowered_verb_is_matched_exactly() {
    assert_eq!(command_from_lowered(&"status".to_string()), Command::Status);
    assert_eq!(command_from_lowered(&"Status".to_string()), Command::Unknown);
}
