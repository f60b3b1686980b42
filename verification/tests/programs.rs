use idevice::IdeviceError;
use pikmin_pilot::console::{Channel, Line};
use pikmin_pilot::device::{Device, Link};
use pikmin_pilot::device_wait::{DeviceWait, Poll, WaitStep};
use pikmin_pilot::helper_args::HelperOptions;
use pikmin_pilot::helper_run::{
    helper_failed, paired, HelperEvent, HelperRun, HelperStep, DEVICE_NOT_FOUND,
};
use pikmin_pilot::inject::{InjectEvent, InjectStep, InjectWork, Injection};
use pikmin_pilot::install::{InstallMode, InstallStep};
use pikmin_pilot::pair_run::{HelperEnd, PairEvent, PairRuns, PairStep};
use pikmin_pilot::record::new_record;
use pikmin_pilot::registration::RegistrationStep;
use pikmin_pilot::setup_args::Args;
use pikmin_pilot::setup_run::{
    fail, print_header, print_success, SetupEvent, SetupPhase, SetupRun, SetupStep,
};

fn usb(udid: &str) -> Device {
    Device { udid: udid.to_string(), device_id: 1, link: Link::Usb }
}

fn helper(udid: Option<&str>) -> HelperRun {
    let options = HelperOptions {
        udid: udid.map(|u| u.to_string()),
        output: "out\\r.plist".to_string(),
        hostname: "Desk".to_string(),
    };
    let (run, lines) = HelperRun::start(options);
    assert_eq!(shown(&lines), vec!["Pikmin Pilot Pairing Helper", "Pairing host name: Desk"]);
    run
}

fn shown(lines: &[Line]) -> Vec<&str> {
    lines.iter().map(|l| l.text.as_str()).collect()
}

fn write(bytes: Vec<u8>) -> HelperStep {
    HelperStep::WriteRecord { output: "out\\r.plist".to_string(), bytes }
}

#[test]
fn helper_makes_a_record() {
    let mut run = helper(None);
    let (lines, step) = run.step(HelperEvent::Listed(vec![usb("A")]));
    assert_eq!(shown(&lines), vec!["Device UDID: A"]);
    assert_eq!(step, HelperStep::Pair { device: usb("A"), hostname: "Desk".to_string() });
    let (lines, step) = run.step(HelperEvent::Paired(vec![7; 713], Some("out".to_string())));
    assert!(lines.is_empty());
    assert_eq!(step, HelperStep::CreateDirectory);
    let (lines, step) = run.step(HelperEvent::Done);
    assert!(lines.is_empty());
    assert_eq!(step, write(vec![7; 713]));
    let (lines, step) = run.step(HelperEvent::Done);
    assert_eq!(
        shown(&lines),
        vec![
            "PAIRING OK",
            "UDID=A",
            "OUTPUT=out\\r.plist",
            "BYTES=713",
            "Import this file into Pikmin Pilot on THIS SAME device.",
        ]
    );
    assert!(lines.iter().all(|l| l.channel == Channel::Stdout));
    assert_eq!(step, HelperStep::Exit(0));
}

#[test]
fn helper_makes_no_folder_without_a_name() {
    for folder in [None, Some(String::new())] {
        let mut run = helper(None);
        run.step(HelperEvent::Listed(vec![usb("A")]));
        let (_, step) = run.step(HelperEvent::Paired(vec![1; 100], folder));
        assert_eq!(step, write(vec![1; 100]));
    }
}

#[test]
fn helper_writes_the_record_of_its_pairing() {
    let file = new_record("Desk").file;
    let event = paired(&file, Some("out".to_string()));
    assert_eq!(event, HelperEvent::Paired(file.to_bytes(), Some("out".to_string())));
    let mut run = helper(None);
    run.step(HelperEvent::Listed(vec![usb("A")]));
    run.step(event);
    assert_eq!(run.step(HelperEvent::Done).1, write(file.to_bytes()));
}

#[test]
fn helper_needs_one_device() {
    let (lines, step) = helper(Some("B")).step(HelperEvent::Listed(vec![usb("A")]));
    assert_eq!(
        shown(&lines),
        vec![
            "ERROR: no usable trusted USB iPhone/iPad: DeviceNotFound",
            "Connect the device by USB, unlock it, and tap Trust This Computer.",
        ]
    );
    assert_eq!(step, HelperStep::Exit(10));
    // It reads as the device library's own error does.
    assert_eq!(DEVICE_NOT_FOUND, format!("{:?}", IdeviceError::DeviceNotFound));

    let (lines, step) = helper(None).step(HelperEvent::Listed(vec![usb("A"), usb("B")]));
    assert_eq!(
        shown(&lines),
        vec![
            "More than one USB iPhone/iPad is connected. Re-run with --udid:",
            "  A",
            "  B",
        ]
    );
    assert_eq!(step, HelperStep::Exit(3));
}

#[test]
fn helper_exit_codes_tell_failures_apart() {
    let (lines, step) = helper(None).step(helper_failed(&IdeviceError::Timeout));
    assert_eq!(lines[0].text, "ERROR: no usable trusted USB iPhone/iPad: Timeout");
    assert_eq!(step, HelperStep::Exit(10));

    let failing = |events: Vec<HelperEvent>| {
        let mut run = helper(None);
        for event in events {
            run.step(event);
        }
        let (lines, step) = run.step(HelperEvent::Failed("e".to_string()));
        assert!(lines.iter().all(|l| l.channel == Channel::Stderr));
        (lines[0].text.clone(), step)
    };
    assert_eq!(
        failing(vec![HelperEvent::Listed(vec![usb("A")])]),
        ("PAIR FAILED: e".to_string(), HelperStep::Exit(20))
    );
    assert_eq!(
        failing(vec![
            HelperEvent::Listed(vec![usb("A")]),
            HelperEvent::Paired(vec![1], Some("d".to_string())),
        ]),
        ("ERROR creating output directory: e".to_string(), HelperStep::Exit(30))
    );
    assert_eq!(
        failing(vec![HelperEvent::Listed(vec![usb("A")]), HelperEvent::Paired(vec![1], None)]),
        ("ERROR writing pairing file: e".to_string(), HelperStep::Exit(31))
    );
}

fn setup(no_pause: bool, show_udid_only: bool) -> SetupRun {
    SetupRun::start(Args { udid: None, no_pause, show_udid_only }).0
}

#[test]
fn setup_does_every_step_in_order() {
    let (mut run, lines) = SetupRun::start(Args::default());
    assert_eq!(lines.len(), 6);
    assert_eq!(lines[1].text, " Pikmin Pilot One-Click Setup  •  App 11.5.4.17");
    assert_eq!(lines[5].text, "[1/5] 等待 USB iPhone/iPad...");

    let (lines, step) = run.step(SetupEvent::Found("A".to_string()));
    assert_eq!(shown(&lines), vec!["      Device UDID: A"]);
    assert_eq!(step, SetupStep::WriteNote { udid: "A".to_string() });
    let (lines, step) = run.step(SetupEvent::Done);
    assert_eq!(lines[0].text, "[2/5] 建立這台裝置專屬 RPPairing...");
    assert_eq!(step, SetupStep::Pair { udid: "A".to_string() });
    let (lines, step) = run.step(SetupEvent::Paired(vec![1, 2, 3]));
    assert!(lines.is_empty());
    assert_eq!(step, SetupStep::Install { udid: "A".to_string() });
    let (lines, step) = run.step(SetupEvent::Done);
    assert_eq!(shown(&lines), vec!["[4/5] 把 pairing 自動寫進 Pikmin Pilot..."]);
    assert_eq!(step, SetupStep::Register);
    let (lines, step) = run.step(SetupEvent::Done);
    assert_eq!(
        shown(&lines),
        vec!["      House Arrest mode: VendContainer → /Documents (no UIFileSharingEnabled required)"]
    );
    assert_eq!(step, SetupStep::Inject { record: vec![1, 2, 3] });
    let (lines, step) = run.step(SetupEvent::Done);
    assert_eq!(lines, print_success("A"));
    assert_eq!(lines[2].text, "✅ Device UDID: A");
    assert_eq!(step, SetupStep::Finish { pause: true, code: 0 });
}

#[test]
fn showing_the_udid_changes_nothing() {
    let mut run = setup(true, true);
    let (_, step) = run.step(SetupEvent::Found("A".to_string()));
    assert_eq!(step, SetupStep::WriteNote { udid: "A".to_string() });
    let (lines, step) = run.step(SetupEvent::Done);
    assert_eq!(shown(&lines), vec!["\nUDID=A"]);
    assert_eq!(step, SetupStep::Finish { pause: false, code: 0 });
}

#[test]
fn setup_exit_codes_tell_failures_apart() {
    let failing = |done: usize| {
        let mut run = setup(false, false);
        if done > 0 {
            run.step(SetupEvent::Found("A".to_string()));
        }
        for i in 1..done {
            let pairs = i == 2;
            run.step(if pairs { SetupEvent::Paired(vec![1]) } else { SetupEvent::Done });
        }
        let (lines, step) = run.step(SetupEvent::Failed("m".to_string()));
        assert_eq!(lines.len(), 1);
        assert_eq!(lines[0].channel, Channel::Stderr);
        (lines[0].text.clone(), step)
    };
    let end = |code: i32| SetupStep::Finish { pause: true, code };
    assert_eq!(failing(0), ("\n❌ m".to_string(), end(10)));
    assert_eq!(
        failing(2),
        (
            "\n❌ m\n請保持 USB 連接、裝置解鎖並已按『信任』，然後重新執行 Setup。".to_string(),
            end(20)
        )
    );
    assert_eq!(failing(3), ("\n❌ m".to_string(), end(30)));
    let placing =
        "\n❌ m\nApp 已安裝、pairing 也已備份；請保持 USB 連接後直接重跑 Setup。".to_string();
    assert_eq!(failing(4), (placing.clone(), end(40)));
    assert_eq!(failing(5), (placing, end(40)));
}

#[test]
fn phases_end_with_events() {
    let failed = |m: &str| Some(SetupEvent::Failed(m.to_string()));
    let text = |m: &str| m.to_string();
    assert_eq!(
        SetupEvent::after_wait(&WaitStep::Found(usb("A"))),
        Some(SetupEvent::Found("A".to_string()))
    );
    assert_eq!(SetupEvent::after_wait(&WaitStep::Retry), None);
    assert_eq!(SetupEvent::after_wait(&WaitStep::Fail(text("m"))), failed("m"));
    assert_eq!(SetupEvent::after_wait(&WaitStep::GiveUp(text("m"))), failed("m"));

    assert_eq!(
        SetupEvent::after_pairing(&PairStep::Ready(vec![1, 2])),
        Some(SetupEvent::Paired(vec![1, 2]))
    );
    assert_eq!(SetupEvent::after_pairing(&PairStep::ReadRecord), None);
    assert_eq!(SetupEvent::after_pairing(&PairStep::Retry), None);
    assert_eq!(SetupEvent::after_pairing(&PairStep::Fail(text("m"))), failed("m"));
    assert_eq!(SetupEvent::after_pairing(&PairStep::GiveUp(text("m"))), failed("m"));

    assert_eq!(SetupEvent::after_installation(&InstallStep::Run(InstallMode::Install)), None);
    assert_eq!(
        SetupEvent::after_installation(&InstallStep::Finished),
        Some(SetupEvent::Done)
    );
    let unfit = InstallStep::NoteAndFail(text("m"));
    assert_eq!(SetupEvent::after_installation(&unfit), failed("m"));

    assert_eq!(SetupEvent::after_registration(&RegistrationStep::Retry), None);
    assert_eq!(
        SetupEvent::after_registration(&RegistrationStep::Ready),
        Some(SetupEvent::Done)
    );
    assert_eq!(SetupEvent::after_registration(&RegistrationStep::Fail(text("m"))), failed("m"));
    assert_eq!(SetupEvent::after_registration(&RegistrationStep::GiveUp(text("m"))), failed("m"));

    assert_eq!(SetupEvent::after_injection(&InjectStep::Retry), None);
    assert_eq!(SetupEvent::after_injection(&InjectStep::Perform(InjectWork::Vend)), None);
    assert_eq!(SetupEvent::after_injection(&InjectStep::Finished), Some(SetupEvent::Done));
    assert_eq!(SetupEvent::after_injection(&InjectStep::GiveUp(text("m"))), failed("m"));
}

#[test]
fn pauses_follow_failures() {
    let text = || "m".to_string();
    assert_eq!(WaitStep::Retry.pause_ms(), 2000);
    assert_eq!(WaitStep::GiveUp(text()).pause_ms(), 2000);
    assert_eq!(WaitStep::Fail(text()).pause_ms(), 0);
    assert_eq!(WaitStep::Found(usb("A")).pause_ms(), 0);
    assert_eq!(PairStep::Retry.pause_ms(), 3000);
    assert_eq!(PairStep::GiveUp(text()).pause_ms(), 3000);
    assert_eq!(PairStep::ReadRecord.pause_ms(), 0);
    assert_eq!(PairStep::Ready(vec![1]).pause_ms(), 0);
    assert_eq!(PairStep::Fail(text()).pause_ms(), 0);
    assert_eq!(RegistrationStep::Retry.pause_ms(), 1000);
    assert_eq!(RegistrationStep::GiveUp(text()).pause_ms(), 1000);
    assert_eq!(RegistrationStep::Fail(text()).pause_ms(), 0);
    assert_eq!(RegistrationStep::Ready.pause_ms(), 0);
    assert_eq!(InjectStep::Retry.pause_ms(), 1200);
    assert_eq!(InjectStep::GiveUp(text()).pause_ms(), 1200);
    assert_eq!(InjectStep::Perform(InjectWork::Read).pause_ms(), 0);
    assert_eq!(InjectStep::Finished.pause_ms(), 0);
}

#[test]
fn a_setup_places_the_record_it_made() {
    let (mut run, _) = SetupRun::start(Args::default());
    let mut wait = DeviceWait::new(None);
    let step = wait.wait_for_usb_device(Poll::Listed(vec![usb("A")]));
    run.step(SetupEvent::after_wait(&step).unwrap());
    run.step(SetupEvent::Done);

    let record = new_record("Desk").file.to_bytes();
    let mut runs = PairRuns::new("p".to_string());
    runs.run_known_good_pair_helper(PairEvent::Ended(HelperEnd::Exited(Some(0))));
    let (_, step) = runs.run_known_good_pair_helper(PairEvent::Read(record.clone()));
    run.step(SetupEvent::after_pairing(&step).unwrap());
    run.step(SetupEvent::Done);
    let (_, step) = run.step(SetupEvent::Done);
    let SetupStep::Inject { record: placed } = step else {
        panic!("the record is not placed");
    };
    assert_eq!(placed, record);

    let mut injection = Injection::new(placed);
    for _ in 0..6 {
        injection.inject_pairing(InjectEvent::Done);
    }
    injection.inject_pairing(InjectEvent::ReadBack(record));
    let (_, step) = injection.inject_pairing(InjectEvent::Done);
    let (_, step) = run.step(SetupEvent::after_injection(&step).unwrap());
    assert_eq!(step, SetupStep::Finish { pause: true, code: 0 });
}

#[test]
fn setup_messages() {
    let header = print_header();
    assert_eq!(header.len(), 5);
    assert_eq!(header[0].text, "=".repeat(60));
    assert_eq!(header[2].text, "=".repeat(60));
    let success = print_success("U");
    assert_eq!(
        shown(&success),
        vec![
            "[5/5] 完成\n",
            "✅ Pikmin Pilot 11.5.4.17 已安裝",
            "✅ Device UDID: U",
            "✅ 此裝置專屬 RPPairing 已建立",
            "✅ rp_pairing_file.plist 已寫入 App Documents 並 read-back 驗證",
            "\n現在直接在 iPhone/iPad 打開 Pikmin Pilot 即可。",
            "第一次啟動若 iOS 詢問 VPN / Local Network 權限，照畫面允許。\n",
        ]
    );
    assert_eq!(fail(SetupPhase::Waiting, "x").text, "\n❌ x");
}
