use idevice::IdeviceError;
use pikmin_pilot::device::{
    admitted_devices, choose_usb_device, usb_devices, Choice, Device, Link,
};
use pikmin_pilot::device_wait::{
    poll_failed, DeviceWait, Poll, WaitStep, DEVICE_POLLS, DEVICE_POLL_PAUSE_MS, NO_DEVICE,
    TOO_MANY_DEVICES,
};

fn device(udid: &str, device_id: u32, link: Link) -> Device {
    Device { udid: udid.to_string(), device_id, link }
}

#[test]
fn only_usb_devices_count() {
    let all = vec![
        device("A", 1, Link::Network),
        device("B", 2, Link::Usb),
        device("C", 3, Link::Unknown),
        device("D", 4, Link::Usb),
    ];
    assert_eq!(
        usb_devices(&all),
        vec![device("B", 2, Link::Usb), device("D", 4, Link::Usb)]
    );
    assert!(usb_devices(&Vec::new()).is_empty());
}

#[test]
fn a_request_admits_only_its_udid() {
    let all = vec![device("A", 1, Link::Usb), device("B", 2, Link::Usb)];
    assert_eq!(admitted_devices(&all, Some("B")), vec![device("B", 2, Link::Usb)]);
    assert_eq!(admitted_devices(&all, None), all);
    assert!(admitted_devices(&all, Some("b")).is_empty());
}

#[test]
fn the_only_usb_device_is_chosen() {
    let all = vec![device("A", 1, Link::Network), device("B", 2, Link::Usb)];
    assert_eq!(choose_usb_device(None, &all), Choice::Chosen(device("B", 2, Link::Usb)));
    assert_eq!(choose_usb_device(Some("A"), &all), Choice::NotFound);
    assert_eq!(choose_usb_device(None, &Vec::new()), Choice::NotFound);
}

#[test]
fn several_usb_devices_need_a_request() {
    let all = vec![
        device("A", 1, Link::Usb),
        device("N", 9, Link::Network),
        device("B", 2, Link::Usb),
        device("B", 3, Link::Usb),
    ];
    assert_eq!(
        choose_usb_device(None, &all),
        Choice::Ambiguous(vec!["A".to_string(), "B".to_string(), "B".to_string()])
    );
    // The first of the devices with the requested UDID is taken.
    assert_eq!(choose_usb_device(Some("B"), &all), Choice::Chosen(device("B", 2, Link::Usb)));
}

#[test]
fn the_first_decisive_poll_decides() {
    let mut wait = DeviceWait::new(None);
    assert_eq!(wait.wait_for_usb_device(Poll::Failed("down".to_string())), WaitStep::Retry);
    assert_eq!(wait.wait_for_usb_device(Poll::Listed(Vec::new())), WaitStep::Retry);
    let seen = vec![device("A", 1, Link::Network), device("B", 2, Link::Usb)];
    assert_eq!(
        wait.wait_for_usb_device(Poll::Listed(seen)),
        WaitStep::Found(device("B", 2, Link::Usb))
    );
}

#[test]
fn several_devices_end_the_wait_unless_one_is_requested() {
    let two = || vec![device("A", 1, Link::Usb), device("B", 2, Link::Usb)];
    let mut wait = DeviceWait::new(None);
    assert_eq!(
        wait.wait_for_usb_device(Poll::Listed(two())),
        WaitStep::Fail(TOO_MANY_DEVICES.to_string())
    );

    let mut wait = DeviceWait::new(Some("B".to_string()));
    assert_eq!(
        wait.wait_for_usb_device(Poll::Listed(two())),
        WaitStep::Found(device("B", 2, Link::Usb))
    );

    // A requested UDID that is listed twice decides nothing.
    let twice = vec![device("B", 1, Link::Usb), device("B", 2, Link::Usb)];
    let mut wait = DeviceWait::new(Some("B".to_string()));
    assert_eq!(wait.wait_for_usb_device(Poll::Listed(twice)), WaitStep::Retry);
}

#[test]
fn the_wait_gives_up_after_ninety_seconds() {
    assert_eq!(DEVICE_POLLS as u64 * DEVICE_POLL_PAUSE_MS, 90_000);
    let mut wait = DeviceWait::new(None);
    for _ in 1..45 {
        assert_eq!(wait.wait_for_usb_device(Poll::Listed(Vec::new())), WaitStep::Retry);
    }
    assert_eq!(
        wait.wait_for_usb_device(Poll::Listed(Vec::new())),
        WaitStep::GiveUp(NO_DEVICE.to_string())
    );
}

#[test]
fn the_last_failed_poll_is_reported() {
    let mut wait = DeviceWait::new(None);
    assert_eq!(wait.wait_for_usb_device(Poll::Failed("first".to_string())), WaitStep::Retry);
    assert_eq!(wait.wait_for_usb_device(Poll::Failed("second".to_string())), WaitStep::Retry);
    for _ in 3..45 {
        assert_eq!(wait.wait_for_usb_device(Poll::Listed(Vec::new())), WaitStep::Retry);
    }
    assert_eq!(
        wait.wait_for_usb_device(Poll::Listed(Vec::new())),
        WaitStep::GiveUp(
            "Apple USB device service unavailable: second\n請先安裝 Apple Devices / Apple Mobile Device Support，確認 Windows 能看到 iPhone/iPad。"
                .to_string()
        )
    );
}

#[test]
fn a_failed_poll_carries_the_error() {
    assert_eq!(
        poll_failed(&IdeviceError::NotEnoughBytes(1, 2)),
        Poll::Failed("NotEnoughBytes(1, 2)".to_string())
    );
}
