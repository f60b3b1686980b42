use pikmin_pilot::console::Channel;
use pikmin_pilot::layout::{
    base_or_temp, file_failure, pair_helper_needs_write, pairing_output_path, prepare_pair_helper,
    setup_root, udid_note_line, variable_name, write_udid_note, BaseDir, FileWork,
};

#[test]
fn folders_stand_in_the_users_folders() {
    assert_eq!(variable_name(BaseDir::LocalAppData), "LOCALAPPDATA");
    assert_eq!(variable_name(BaseDir::UserProfile), "USERPROFILE");
    assert_eq!(base_or_temp(Some("C:\\App"), "C:\\Temp"), "C:\\App");
    assert_eq!(base_or_temp(None, "C:\\Temp"), "C:\\Temp");
    let root = setup_root();
    assert_eq!(root.base, BaseDir::LocalAppData);
    assert_eq!(root.names, vec!["PikminPilotSetup"]);
}

#[test]
fn every_device_has_its_own_record() {
    let a = pairing_output_path("A");
    assert_eq!(a.folder.base, BaseDir::LocalAppData);
    assert_eq!(a.folder.names, vec!["PikminPilotSetup", "PairingBackup"]);
    assert_eq!(a.name, "rp_pairing_file_A.plist");
    assert_ne!(a, pairing_output_path("B"));
}

#[test]
fn the_helper_goes_to_the_tools() {
    let location = prepare_pair_helper(1_000_000).unwrap();
    assert_eq!(location.folder.names, vec!["PikminPilotSetup", "Tools"]);
    assert_eq!(location.name, "PikminPilotPairingHelper.exe");
    assert_ne!(location, pairing_output_path("A"));
    assert_eq!(prepare_pair_helper(999_999), Err("內嵌 Pairing Helper 無效。".to_string()));
    assert!(prepare_pair_helper(0).is_err());
}

#[test]
fn the_helper_is_written_unless_its_size_is_there() {
    assert!(pair_helper_needs_write(None, 1_000_000));
    assert!(pair_helper_needs_write(Some(999_999), 1_000_000));
    assert!(!pair_helper_needs_write(Some(1_000_000), 1_000_000));
}

#[test]
fn the_note_tells_the_udid() {
    let note = write_udid_note("00008103");
    assert_eq!(note.location.folder.base, BaseDir::UserProfile);
    assert_eq!(note.location.folder.names, vec!["Desktop"]);
    assert_eq!(note.location.name, "PikminPilot-UDID.txt");
    assert_eq!(
        note.text,
        "Pikmin Pilot device UDID\r\n\r\n00008103\r\n\r\nIf install reports provisioning/profile failure, send this UDID to the Pikmin Pilot owner.\r\n"
    );
    let line = udid_note_line("C:\\d\\n.txt");
    assert_eq!(line.text, "      UDID copy: C:\\d\\n.txt");
    assert_eq!(line.channel, Channel::Stdout);
}

#[test]
fn file_failures_are_labelled() {
    assert_eq!(file_failure(FileWork::CreateTools, "x"), "create tools dir: x");
    assert_eq!(file_failure(FileWork::ExtractHelper, "x"), "extract Pairing Helper: x");
    assert_eq!(file_failure(FileWork::CreateBackup, "x"), "create pairing dir: x");
    assert_eq!(file_failure(FileWork::ReadRecord, "x"), "read generated pairing: x");
}
