use fieldmid::cli::Command;

#[test]
fn parse_defaults_to_run() {
    assert!(matches!(Command::parse_arg(None), Ok(Command::Run)));
}

#[test]
fn parse_known_commands() {
    assert!(matches!(
        Command::parse_arg(Some("check-connectivity")),
        Ok(Command::CheckConnectivity)
    ));
    assert!(matches!(
        Command::parse_arg(Some("--check-connectivity")),
        Ok(Command::CheckConnectivity)
    ));
    assert!(matches!(
        Command::parse_arg(Some("latest-incidents")),
        Ok(Command::LatestIncidents)
    ));
    assert!(matches!(
        Command::parse_arg(Some("--latest-incidents")),
        Ok(Command::LatestIncidents)
    ));
    assert!(matches!(
        Command::parse_arg(Some("install-hint")),
        Ok(Command::InstallHint)
    ));
    assert!(matches!(
        Command::parse_arg(Some("install")),
        Ok(Command::InstallHint)
    ));
    assert!(matches!(
        Command::parse_arg(Some("doctor")),
        Ok(Command::Doctor)
    ));
    assert!(matches!(
        Command::parse_arg(Some("--help")),
        Ok(Command::Help)
    ));
    assert!(matches!(
        Command::parse_arg(Some("login")),
        Ok(Command::Login)
    ));
    assert!(matches!(
        Command::parse_arg(Some("logout")),
        Ok(Command::Logout)
    ));
    assert!(matches!(
        Command::parse_arg(Some("whoami")),
        Ok(Command::WhoAmI)
    ));
    assert!(matches!(
        Command::parse_arg(Some("users")),
        Ok(Command::Users)
    ));
    assert!(matches!(
        Command::parse_arg(Some("requests")),
        Ok(Command::Requests)
    ));
    assert!(matches!(
        Command::parse_arg(Some("join-requests")),
        Ok(Command::Requests)
    ));
}

#[test]
fn parse_rejects_unknown_command_with_its_name() {
    match Command::parse_arg(Some("frobnicate")) {
        Err(e) => assert_eq!(e.message(), "unknown command: frobnicate"),
        Ok(_) => panic!("unknown command accepted"),
    }
}
