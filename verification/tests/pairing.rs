use idevice::remote_pairing::RpPairingFile;
use idevice::IdeviceError;
use pikmin_pilot::console::Channel;
use pikmin_pilot::pair_run::{
    pair_heading, HelperEnd, PairEvent, PairRuns, PairStep, PAIR_HINT,
};
use pikmin_pilot::pairing_session::{
    service_port, session_failed, PairingSession, Service, SessionEvent, SessionStep, SessionWork,
    SERVICE_NOT_FOUND, TUNNEL_SERVICE,
};
use pikmin_pilot::record::{new_record, write_record};

fn service(name: &str, port: u16) -> Service {
    Service { name: name.to_string(), port }
}

#[test]
fn a_record_names_its_host() {
    let made = new_record("python.org");
    // The name-based UUID of this host name is a published example.
    assert_eq!(made.record.identifier, "6fa459ea-ee8a-3ca4-894e-db77e160355e");
    assert_eq!(made.record.public_key.len(), 32);
    assert_eq!(made.record.private_key.len(), 32);
    assert_eq!(made.record.alt_irk, None);
    assert_eq!(made.file.identifier(), made.record.identifier);

    let again = new_record("python.org");
    assert_eq!(again.record.identifier, made.record.identifier);
    assert_ne!(again.record.private_key, made.record.private_key);
    assert_ne!(new_record("other").record.identifier, made.record.identifier);
}

#[test]
fn a_written_record_can_be_read() {
    let mut file = new_record("Pikmin Pilot Windows Setup").file;
    file.alt_irk = Some(vec![7; 16]);
    let written = write_record(&file);
    assert_eq!(written.record.alt_irk, Some(vec![7; 16]));
    assert!(written.bytes.starts_with(b"<?xml"));
    assert!(written.bytes.len() >= 64);
    assert!(write_record(&file) == written);

    let read = RpPairingFile::from_bytes(&written.bytes).unwrap();
    assert_eq!(read.public_key_bytes(), written.record.public_key);
    assert_eq!(read.private_key_bytes(), written.record.private_key);
    assert_eq!(read.identifier(), written.record.identifier);
    assert_eq!(read.alt_irk(), Some(&[7u8; 16][..]));
}

#[test]
fn the_setup_accepts_a_written_record() {
    let written = write_record(&new_record("Pikmin Pilot Windows Setup").file);
    let mut runs = PairRuns::new("p".to_string());
    runs.run_known_good_pair_helper(PairEvent::Ended(HelperEnd::Exited(Some(0))));
    let (_, step) = runs.run_known_good_pair_helper(PairEvent::Read(written.bytes.clone()));
    assert_eq!(step, PairStep::Ready(written.bytes));
}

#[test]
fn a_good_run_is_read() {
    let mut runs = PairRuns::new("C:\\r.plist".to_string());
    let (lines, step) =
        runs.run_known_good_pair_helper(PairEvent::Ended(HelperEnd::Exited(Some(0))));
    assert!(lines.is_empty());
    assert_eq!(step, PairStep::ReadRecord);
    let (lines, step) = runs.run_known_good_pair_helper(PairEvent::Read(vec![1; 64]));
    assert_eq!(step, PairStep::Ready(vec![1; 64]));
    assert_eq!(lines[0].text, "      ✅ Pairing ready (64 bytes)");
    assert_eq!(lines[1].text, "      backup: C:\\r.plist");
}

#[test]
fn a_small_or_unreadable_record_fails_at_once() {
    let mut runs = PairRuns::new("p".to_string());
    runs.run_known_good_pair_helper(PairEvent::Ended(HelperEnd::Exited(Some(0))));
    let (lines, step) = runs.run_known_good_pair_helper(PairEvent::Read(vec![1; 63]));
    assert!(lines.is_empty());
    assert_eq!(
        step,
        PairStep::Fail(
            "Pairing Helper returned success but file is too small: 63 bytes".to_string()
        )
    );

    let mut runs = PairRuns::new("p".to_string());
    runs.run_known_good_pair_helper(PairEvent::Ended(HelperEnd::Exited(Some(0))));
    let (_, step) = runs.run_known_good_pair_helper(PairEvent::Unreadable("gone".to_string()));
    assert_eq!(step, PairStep::Fail("read generated pairing: gone".to_string()));
}

#[test]
fn the_hint_is_given_once_and_twelve_runs_are_enough() {
    let mut runs = PairRuns::new("p".to_string());
    let (lines, step) =
        runs.run_known_good_pair_helper(PairEvent::Ended(HelperEnd::Exited(Some(10))));
    assert_eq!(step, PairStep::Retry);
    assert_eq!(lines.len(), 1);
    assert_eq!(lines[0].text, PAIR_HINT);
    for _ in 2..12 {
        let end = HelperEnd::NotStarted("missing".to_string());
        let (lines, step) = runs.run_known_good_pair_helper(PairEvent::Ended(end));
        assert_eq!(step, PairStep::Retry);
        assert!(lines.is_empty());
    }
    let (lines, step) =
        runs.run_known_good_pair_helper(PairEvent::Ended(HelperEnd::Exited(Some(-1))));
    assert!(lines.is_empty());
    assert_eq!(
        step,
        PairStep::GiveUp(
            "Pairing failed after retries: Pairing Helper exit code Some(-1)".to_string()
        )
    );
}

#[test]
fn the_last_failed_run_is_reported() {
    let last = |end: HelperEnd| {
        let mut runs = PairRuns::new("p".to_string());
        for _ in 1..12 {
            runs.run_known_good_pair_helper(PairEvent::Ended(HelperEnd::Exited(Some(20))));
        }
        runs.run_known_good_pair_helper(PairEvent::Ended(end)).1
    };
    assert_eq!(
        last(HelperEnd::Exited(None)),
        PairStep::GiveUp(
            "Pairing failed after retries: Pairing Helper exit code None".to_string()
        )
    );
    assert_eq!(
        last(HelperEnd::NotStarted("denied".to_string())),
        PairStep::GiveUp(
            "Pairing failed after retries: Pairing Helper could not start: denied".to_string()
        )
    );
    assert_eq!(last(HelperEnd::Exited(Some(0))), PairStep::ReadRecord);
}

#[test]
fn the_pairing_has_a_heading() {
    let lines = pair_heading();
    assert_eq!(lines[0].text, "[2/5] 建立這台裝置專屬 RPPairing...");
    assert_eq!(lines[1].text, "      保持裝置解鎖；若出現 Trust/Pairing 提示請允許。");
}

#[test]
fn the_service_is_found_by_name() {
    let services = vec![service("a", 1), service(TUNNEL_SERVICE, 2), service("b", 3)];
    assert_eq!(service_port(&services, TUNNEL_SERVICE), Some(2));
    assert_eq!(service_port(&services, "c"), None);
    assert_eq!(service_port(&Vec::new(), "a"), None);
}

fn perform(session: &mut PairingSession, event: SessionEvent) -> (Vec<String>, SessionWork) {
    let (lines, step) = session.generate_remote_pairing_file(event);
    assert!(lines.iter().all(|l| l.channel == Channel::Stderr));
    match step {
        SessionStep::Perform(work) => (lines.into_iter().map(|l| l.text).collect(), work),
        other => panic!("the session ended with {other:?}"),
    }
}

fn pair_work() -> SessionWork {
    SessionWork::Pair { hostname: "desk".to_string(), pin: "000000".to_string() }
}

#[test]
fn a_session_pairs_twice_on_the_same_port() {
    let (mut session, lines, work) = PairingSession::start("desk");
    assert_eq!(lines[0].text, "[1/6] Connecting CoreDeviceProxy over USB...");
    assert_eq!(work, SessionWork::ConnectProxy);

    let (lines, work) = perform(&mut session, SessionEvent::ProxyConnected(58783));
    assert_eq!(lines, vec!["[2/6] Starting software tunnel; RSD port=58783..."]);
    assert_eq!(work, SessionWork::CreateTunnel);
    let (lines, work) = perform(&mut session, SessionEvent::Done);
    assert_eq!(lines, vec!["[3/6] Performing RSD handshake..."]);
    assert_eq!(work, SessionWork::ConnectPort(58783));
    assert_eq!(perform(&mut session, SessionEvent::Done).1, SessionWork::RsdHandshake);

    let services = vec![service("x", 1), service(TUNNEL_SERVICE, 60000)];
    let (lines, work) = perform(&mut session, SessionEvent::Services(services));
    assert_eq!(lines, vec!["[4/6] Opening untrusted RemoteXPC pairing service..."]);
    assert_eq!(work, SessionWork::ConnectPort(60000));
    assert_eq!(perform(&mut session, SessionEvent::Done).1, SessionWork::OpenXpc);
    assert_eq!(perform(&mut session, SessionEvent::Done).1, SessionWork::XpcHandshake);
    assert_eq!(perform(&mut session, SessionEvent::Done).1, SessionWork::ReceiveRoot);
    // A root message that cannot be received is of no concern.
    let (lines, work) = perform(&mut session, SessionEvent::Failed("root".to_string()));
    assert_eq!(
        lines,
        vec![
            "[5/6] Creating idevice-native RemotePairing record...",
            "      Keep the iPhone/iPad unlocked. Accept Trust/Pairing prompts if shown.",
        ]
    );
    assert_eq!(work, SessionWork::CreateRecord { hostname: "desk".to_string() });
    assert_eq!(perform(&mut session, SessionEvent::Done).1, pair_work());

    let (lines, work) = perform(&mut session, SessionEvent::Done);
    assert_eq!(lines, vec!["[6/6] Verifying/committing pairing identity..."]);
    assert_eq!(work, SessionWork::ConnectPort(60000));
    assert_eq!(perform(&mut session, SessionEvent::Done).1, SessionWork::OpenXpc);
    assert_eq!(perform(&mut session, SessionEvent::Done).1, SessionWork::XpcHandshake);
    assert_eq!(perform(&mut session, SessionEvent::Done).1, SessionWork::ReceiveRoot);
    assert_eq!(perform(&mut session, SessionEvent::Done).1, pair_work());
    let (lines, step) = session.generate_remote_pairing_file(SessionEvent::Done);
    assert!(lines.is_empty());
    assert_eq!(step, SessionStep::Paired);
}

#[test]
fn a_session_fails_with_the_error_it_met() {
    let (mut session, _, _) = PairingSession::start("desk");
    let (lines, step) = session.generate_remote_pairing_file(SessionEvent::Failed("e".to_string()));
    assert!(lines.is_empty());
    assert_eq!(step, SessionStep::Fail("e".to_string()));
}

#[test]
fn root_messages_are_of_no_concern() {
    let course = |root: fn() -> SessionEvent| {
        let (mut session, _, _) = PairingSession::start("desk");
        perform(&mut session, SessionEvent::ProxyConnected(1));
        perform(&mut session, SessionEvent::Done);
        perform(&mut session, SessionEvent::Done);
        let services = vec![service(TUNNEL_SERVICE, 2)];
        perform(&mut session, SessionEvent::Services(services));
        let mut works = Vec::new();
        for i in 0..10 {
            let event = if i == 3 || i == 9 { root() } else { SessionEvent::Done };
            works.push(perform(&mut session, event).1);
        }
        (works, session.generate_remote_pairing_file(SessionEvent::Failed("e".to_string())).1)
    };
    let received = course(|| SessionEvent::Done);
    assert_eq!(course(|| SessionEvent::Failed("root".to_string())), received);
    assert_eq!(received.1, SessionStep::Fail("e".to_string()));
}

#[test]
fn a_session_needs_the_service() {
    let (mut session, _, _) = PairingSession::start("desk");
    perform(&mut session, SessionEvent::ProxyConnected(1));
    perform(&mut session, SessionEvent::Done);
    perform(&mut session, SessionEvent::Done);
    let services = vec![service("other", 1)];
    let (_, step) = session.generate_remote_pairing_file(SessionEvent::Services(services));
    assert_eq!(step, SessionStep::Fail(SERVICE_NOT_FOUND.to_string()));
    // It reads as the device library's own error would.
    let error = IdeviceError::InternalError("Untrusted tunnel service not found".to_string());
    assert_eq!(SERVICE_NOT_FOUND, format!("{error:?}"));
}

#[test]
fn a_failed_session_carries_the_error() {
    assert_eq!(
        session_failed(&IdeviceError::SessionInactive),
        SessionEvent::Failed("SessionInactive".to_string())
    );
}
