use idevice::IdeviceError;
use pikmin_pilot::app_info::{pairing_container_path, APP_BUNDLE_ID};
use pikmin_pilot::console::Channel;
use pikmin_pilot::inject::{
    injection_failed, InjectEvent, InjectStep, InjectWork, Injection,
};
use pikmin_pilot::install::{
    install_failed, install_failure_text, progress_line, provisioning_failure, InstallEvent,
    InstallMode, InstallStep, Installation, NO_PACKAGE,
};
use pikmin_pilot::registration::{
    app_is_installed, lookup_failed, lookup_identifiers, Lookup, Registration, RegistrationStep,
};

#[test]
fn the_app_is_looked_up_by_its_identifier() {
    assert_eq!(lookup_identifiers(), vec!["com.woodypikmin.pikminpilot"]);
    assert!(app_is_installed(&vec!["x".to_string(), APP_BUNDLE_ID.to_string()]));
    assert!(!app_is_installed(&vec!["com.woodypikmin".to_string()]));
    assert!(!app_is_installed(&Vec::new()));
    assert_eq!(
        lookup_failed(&IdeviceError::Timeout),
        Lookup::Failed("Timeout".to_string())
    );
}

#[test]
fn registration_ends_at_the_first_sighting() {
    let mut registration = Registration::new();
    let (lines, step) = registration.wait_for_app_registration(Lookup::Answered(true));
    assert!(lines.is_empty());
    assert_eq!(step, RegistrationStep::Ready);

    let mut registration = Registration::new();
    let (_, step) = registration.wait_for_app_registration(Lookup::Failed("e".to_string()));
    assert_eq!(step, RegistrationStep::Retry);
    let (_, step) = registration.wait_for_app_registration(Lookup::Answered(false));
    assert_eq!(step, RegistrationStep::Retry);
    let (lines, step) = registration.wait_for_app_registration(Lookup::Answered(true));
    assert_eq!(lines[0].text, "      ✅ app registration ready after 3 checks");
    assert_eq!(step, RegistrationStep::Ready);
}

#[test]
fn the_last_check_decides_how_registration_fails() {
    let last = |answer: Lookup| {
        let mut registration = Registration::new();
        for _ in 1..20 {
            let (_, step) =
                registration.wait_for_app_registration(Lookup::Failed("early".to_string()));
            assert_eq!(step, RegistrationStep::Retry);
        }
        registration.wait_for_app_registration(answer).1
    };
    assert_eq!(
        last(Lookup::Failed("late".to_string())),
        RegistrationStep::Fail("InstallationProxy lookup failed: late".to_string())
    );
    assert_eq!(
        last(Lookup::Answered(false)),
        RegistrationStep::GiveUp(
            "com.woodypikmin.pikminpilot did not appear in InstallationProxy after install"
                .to_string()
        )
    );
    assert_eq!(last(Lookup::Answered(true)), RegistrationStep::Ready);
}

#[test]
fn a_package_has_to_be_large_enough() {
    assert_eq!(Installation::start("U", 1_048_575).unwrap_err(), NO_PACKAGE);
    let (installation, lines) = Installation::start("U", 1_048_576).unwrap();
    assert_eq!(installation.udid, "U");
    assert_eq!(lines[0].text, "[3/5] 安裝 Pikmin Pilot 11.5.4.17...");
}

#[test]
fn an_installed_app_is_upgraded() {
    let mode = |answer: Lookup| {
        let (mut installation, _) = Installation::start("U", 2_000_000).unwrap();
        installation.install_or_upgrade(InstallEvent::LookedUp(answer))
    };
    let (lines, step) = mode(Lookup::Answered(true));
    assert_eq!(step, InstallStep::Run(InstallMode::Upgrade));
    assert_eq!(
        lines[0].text,
        "      已存在 Pikmin Pilot，執行 upgrade（保留 App container）..."
    );
    let (lines, step) = mode(Lookup::Answered(false));
    assert_eq!(step, InstallStep::Run(InstallMode::Install));
    assert!(lines.is_empty());
    let (lines, step) = mode(Lookup::Failed("e".to_string()));
    assert_eq!(step, InstallStep::Run(InstallMode::Install));
    assert!(lines.is_empty());
}

#[test]
fn an_installation_ends() {
    let end = |event: InstallEvent| {
        let (mut installation, _) = Installation::start("U", 2_000_000).unwrap();
        installation.install_or_upgrade(InstallEvent::LookedUp(Lookup::Answered(true)));
        installation.install_or_upgrade(event)
    };
    let (lines, step) = end(InstallEvent::Installed);
    assert_eq!(lines[0].text, "      ✅ Pikmin Pilot installed");
    assert_eq!(step, InstallStep::Finished);
    let (lines, step) = end(install_failed(&IdeviceError::DeviceNotFound));
    assert!(lines.is_empty());
    assert_eq!(
        step,
        InstallStep::NoteAndFail("IPA install failed: DeviceNotFound".to_string())
    );
}

#[test]
fn provisioning_failures_are_told_apart() {
    assert!(provisioning_failure("0xE8008015"));
    assert!(provisioning_failure("No Provisioning profile"));
    assert!(provisioning_failure("APPLICATIONVERIFICATIONFAILED"));
    assert!(!provisioning_failure("ApplicationVerification failed"));
    assert!(!provisioning_failure(""));
    assert_eq!(
        install_failure_text("U", "PROVISION x"),
        "iOS 拒絕安裝：這台裝置 UDID 很可能尚未包含在目前 Development profiles。\nUDID=U\n請把桌面的 PikminPilot-UDID.txt 給發佈者，更新 App / Tunnel / Runner profiles 後換新的 Setup.exe 再跑一次。\n原始錯誤：PROVISION x"
    );
    assert_eq!(install_failure_text("U", "x"), "IPA install failed: x");
}

#[test]
fn progress_is_reported() {
    let line = progress_line(42);
    assert_eq!(line.text, "      install progress: 42%");
    assert_eq!(line.channel, Channel::Stdout);
}

fn through(injection: &mut Injection, read_back: Vec<u8>) -> (Vec<String>, InjectStep) {
    let works = [
        InjectWork::Vend,
        InjectWork::OpenWrite,
        InjectWork::Write,
        InjectWork::CloseWrite,
        InjectWork::OpenRead,
        InjectWork::Read,
    ];
    for work in works {
        let (lines, step) = injection.inject_pairing(InjectEvent::Done);
        assert!(lines.is_empty());
        assert_eq!(step, InjectStep::Perform(work));
    }
    let (lines, step) = injection.inject_pairing(InjectEvent::ReadBack(read_back));
    assert!(lines.is_empty());
    assert_eq!(step, InjectStep::Perform(InjectWork::CloseRead));
    let (lines, step) = injection.inject_pairing(InjectEvent::Done);
    (lines.into_iter().map(|l| l.text).collect(), step)
}

#[test]
fn a_record_that_reads_back_is_in_place() {
    let mut injection = Injection::new(vec![1, 2, 3]);
    let (lines, step) = through(&mut injection, vec![1, 2, 3]);
    assert_eq!(lines, vec!["      ✅ /Documents/rp_pairing_file.plist verified (3 bytes)"]);
    assert_eq!(step, InjectStep::Finished);
    assert_eq!(pairing_container_path(), "/Documents/rp_pairing_file.plist");
}

#[test]
fn a_record_that_reads_back_otherwise_is_placed_again() {
    let mut injection = Injection::new(vec![1, 2, 3]);
    let (lines, step) = through(&mut injection, vec![1, 2]);
    assert_eq!(
        lines,
        vec!["      ⚠ injection attempt 1/12 failed: pairing read-back mismatch: wrote 3 bytes, read 2 bytes"]
    );
    assert_eq!(step, InjectStep::Retry);
    let (_, step) = through(&mut injection, vec![1, 2, 4]);
    assert_eq!(step, InjectStep::Retry);
    let (_, step) = through(&mut injection, vec![1, 2, 3]);
    assert_eq!(step, InjectStep::Finished);
}

#[test]
fn the_last_attempt_can_still_place_the_record() {
    let mut injection = Injection::new(vec![5; 64]);
    for _ in 1..12 {
        let (_, step) = through(&mut injection, Vec::new());
        assert_eq!(step, InjectStep::Retry);
    }
    let (_, step) = through(&mut injection, vec![5; 64]);
    assert_eq!(step, InjectStep::Finished);
}

#[test]
fn every_work_of_an_injection_has_its_label() {
    let labels = [
        "1/12: HouseArrest connect: e",
        "1/12: VendContainer: e",
        "1/12 failed: AFC open write: e",
        "1/12 failed: AFC write: e",
        "1/12 failed: AFC close/commit: e",
        "1/12 failed: AFC verify open: e",
        "1/12 failed: AFC verify read: e",
        "1/12 failed: AFC verify close: e",
    ];
    for (done, label) in labels.iter().enumerate() {
        let mut injection = Injection::new(vec![9]);
        for i in 0..done {
            let event = if i == 6 {
                InjectEvent::ReadBack(vec![9])
            } else {
                InjectEvent::Done
            };
            injection.inject_pairing(event);
        }
        let (lines, step) = injection.inject_pairing(InjectEvent::Failed("e".to_string()));
        assert_eq!(lines[0].text, format!("      ⚠ injection attempt {label}"));
        assert_eq!(step, InjectStep::Retry);
        assert_eq!(injection.attempt, 2);
        assert_eq!(injection.work, InjectWork::Connect);
    }
}

#[test]
fn twelve_failed_injections_are_enough() {
    let mut injection = Injection::new(vec![9]);
    for _ in 1..12 {
        let (_, step) = injection.inject_pairing(InjectEvent::Failed("early".to_string()));
        assert_eq!(step, InjectStep::Retry);
    }
    let event = injection_failed(&IdeviceError::InvalidHostID);
    assert_eq!(event, InjectEvent::Failed("InvalidHostID".to_string()));
    let (lines, step) = injection.inject_pairing(event);
    assert_eq!(
        lines[0].text,
        "      ⚠ injection attempt 12/12: HouseArrest connect: InvalidHostID"
    );
    assert_eq!(
        step,
        InjectStep::GiveUp(
            "pairing injection failed after retries: HouseArrest connect: InvalidHostID"
                .to_string()
        )
    );
}
