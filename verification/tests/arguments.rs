use pikmin_pilot::console::Channel;
use pikmin_pilot::helper_args::{
    command_exit as helper_exit, parse_args as parse_helper, usage, HelperCommand, HelperOptions,
    HELPER_USAGE,
};
use pikmin_pilot::pair_run::helper_arguments;
use pikmin_pilot::setup_args::{
    command_exit as setup_exit, parse_args as parse_setup, Args, SetupCommand,
};

fn words(args: &[&str]) -> Vec<String> {
    args.iter().map(|a| a.to_string()).collect()
}

fn options(udid: Option<&str>, output: &str, hostname: &str) -> HelperCommand {
    HelperCommand::Run(HelperOptions {
        udid: udid.map(|u| u.to_string()),
        output: output.to_string(),
        hostname: hostname.to_string(),
    })
}

#[test]
fn helper_has_defaults() {
    let expected = options(None, "rp_pairing_file.plist", "Pikmin Pilot Windows Setup");
    assert_eq!(parse_helper(&words(&["helper"])), expected);
    assert_eq!(parse_helper(&words(&[])), expected);
}

#[test]
fn helper_takes_its_options_in_any_order() {
    let args = words(&[
        "helper",
        "--hostname",
        "Desk",
        "--output",
        "C:\\x\\r.plist",
        "--udid",
        "00008103-000A78D13684C01E",
    ]);
    assert_eq!(
        parse_helper(&args),
        options(Some("00008103-000A78D13684C01E"), "C:\\x\\r.plist", "Desk")
    );
}

#[test]
fn helper_takes_the_last_of_repeated_options() {
    let args = words(&["helper", "--udid", "A", "--udid", "B"]);
    assert_eq!(
        parse_helper(&args),
        options(Some("B"), "rp_pairing_file.plist", "Pikmin Pilot Windows Setup")
    );
}

#[test]
fn helper_takes_any_text_as_a_value() {
    let args = words(&["helper", "--udid", "--help", "--output", "--udid"]);
    assert_eq!(
        parse_helper(&args),
        options(Some("--help"), "--udid", "Pikmin Pilot Windows Setup")
    );
}

#[test]
fn helper_rejects_what_it_does_not_know() {
    assert_eq!(parse_helper(&words(&["helper", "--help", "x"])), HelperCommand::Help);
    assert_eq!(parse_helper(&words(&["helper", "-h"])), HelperCommand::Help);
    assert_eq!(parse_helper(&words(&["helper", "--udid"])), HelperCommand::MissingValue);
    assert_eq!(
        parse_helper(&words(&["helper", "--output", "f", "--hostname"])),
        HelperCommand::MissingValue
    );
    assert_eq!(
        parse_helper(&words(&["helper", "--UDID", "A"])),
        HelperCommand::Unknown("--UDID".to_string())
    );
}

#[test]
fn helper_ends_with_its_usage() {
    assert!(helper_exit(&parse_helper(&words(&["helper"]))).is_none());

    let help = helper_exit(&HelperCommand::Help).unwrap();
    assert_eq!(help.code, 0);
    assert_eq!(help.lines, vec![usage()]);

    let missing = helper_exit(&HelperCommand::MissingValue).unwrap();
    assert_eq!(missing.code, 2);
    assert_eq!(missing.lines, vec![usage()]);

    let unknown = helper_exit(&HelperCommand::Unknown("-x".to_string())).unwrap();
    assert_eq!(unknown.code, 2);
    assert_eq!(unknown.lines.len(), 2);
    assert_eq!(unknown.lines[0].text, "Unknown argument: -x");
    assert_eq!(unknown.lines[0].channel, Channel::Stderr);
    assert_eq!(unknown.lines[1].text, HELPER_USAGE);
    assert!(HELPER_USAGE.starts_with("Usage:\n  PikminPilotPairingHelper.exe [--udid <UDID>]"));
}

#[test]
fn setup_reads_its_arguments() {
    assert_eq!(parse_setup(&words(&["setup"])), SetupCommand::Run(Args::default()));
    assert_eq!(
        parse_setup(&words(&["setup", "--no-pause", "--udid", "--no-pause", "--show-udid"])),
        SetupCommand::Run(Args {
            udid: Some("--no-pause".to_string()),
            no_pause: true,
            show_udid_only: true,
        })
    );
    let defaults = Args::default();
    assert_eq!(defaults.udid, None);
    assert!(!defaults.no_pause);
    assert!(!defaults.show_udid_only);
}

#[test]
fn setup_rejects_what_it_does_not_know() {
    assert_eq!(parse_setup(&words(&["setup", "-h"])), SetupCommand::Help);
    assert_eq!(parse_setup(&words(&["setup", "--no-pause", "--help"])), SetupCommand::Help);
    assert_eq!(parse_setup(&words(&["setup", "--udid"])), SetupCommand::MissingUdid);
    assert_eq!(
        parse_setup(&words(&["setup", "--output", "f"])),
        SetupCommand::Unknown("--output".to_string())
    );
}

#[test]
fn setup_ends_on_its_usage() {
    assert!(setup_exit(&SetupCommand::Run(Args::default())).is_none());

    let help = setup_exit(&SetupCommand::Help).unwrap();
    assert_eq!(help.code, 0);
    assert_eq!(help.lines[0].channel, Channel::Stdout);
    assert_eq!(
        help.lines[0].text,
        "PikminPilotSetup.exe [--udid <UDID>] [--show-udid] [--no-pause]"
    );

    let missing = setup_exit(&SetupCommand::MissingUdid).unwrap();
    assert_eq!(missing.code, 2);
    assert_eq!(missing.lines[0].channel, Channel::Stderr);
    assert_eq!(missing.lines[0].text, "--udid requires a value");

    let unknown = setup_exit(&SetupCommand::Unknown("?".to_string())).unwrap();
    assert_eq!(unknown.code, 2);
    assert_eq!(unknown.lines[0].text, "Unknown argument: ?");
}

#[test]
fn helper_understands_the_setup() {
    let (mut given, behind) = helper_arguments("--help");
    given.push("C:\\Backup\\rp_pairing_file_X.plist".to_string());
    given.extend(behind);
    assert_eq!(
        given,
        words(&[
            "--udid",
            "--help",
            "--output",
            "C:\\Backup\\rp_pairing_file_X.plist",
            "--hostname",
            "Pikmin Pilot Windows Setup",
        ])
    );
    let mut args = words(&["helper"]);
    args.extend(given);
    assert_eq!(
        parse_helper(&args),
        options(
            Some("--help"),
            "C:\\Backup\\rp_pairing_file_X.plist",
            "Pikmin Pilot Windows Setup"
        )
    );
}
