//! How the phases of the setup end, and what a setup that succeeds has been through.
use vstd::prelude::*;
use crate::device::{admitted, usb_only, DeviceView};
use crate::device_wait::{
    found_at, law_first_decisive_poll_decides, law_found_device_is_admitted,
    law_found_device_was_polled, poll_verdict, wait_run, wait_start, PollView, WaitStep,
    WaitStepView, DEVICE_POLLS,
};
use crate::inject::{
    answered, clean_attempt, inject_run, inject_taken, injection_start,
    law_clean_attempt_finishes, law_finished_means_read_back, InjectEventView, InjectStep,
    InjectStepView, InjectWork,
};
use crate::install::{
    install_step, InstallEventView, InstallMode, InstallStep, InstallStepView,
};
use crate::pair_run::{
    good_run, law_file_of_the_first_good_run_is_the_record, law_record_comes_from_a_good_run,
    pair_answered, pair_outcome, pair_start, record_accepted,
    record_read_after, PairEventView, PairStep, PairStepView, PAIR_ATTEMPTS,
};
use crate::registration::{
    law_first_sighting_ends_the_wait, law_ready_means_the_app_was_seen, registration_run, LookupView, RegistrationStep,
    RegistrationStepView, REGISTRATION_CHECKS,
};
use crate::setup_args::ArgsView;
use crate::setup_run::{
    full_setup, law_code_zero_means_a_full_setup, law_setup_completes_unless_a_phase_fails,
    setup_start, setup_steps, setup_succeeds,
    SetupEvent, SetupEventView,
};

verus! {

/// The model of an event that there may be.
pub open spec fn event_view(event: Option<SetupEvent>) -> Option<SetupEventView> {
    match event {
        Some(e) => Some(e@),
        None => None,
    }
}

/// How the wait for the device ends with a step, if it does.
pub open spec fn wait_end(step: WaitStepView) -> Option<SetupEventView> {
    match step {
        WaitStepView::Found(device) => Some(SetupEventView::Found(device.udid)),
        WaitStepView::Retry => None,
        WaitStepView::Fail(message) => Some(SetupEventView::Failed(message)),
        WaitStepView::GiveUp(message) => Some(SetupEventView::Failed(message)),
    }
}

/// How the pairing ends with a step, if it does.
pub open spec fn pairing_end(step: PairStepView) -> Option<SetupEventView> {
    match step {
        PairStepView::Ready(record) => Some(SetupEventView::Paired(record)),
        PairStepView::ReadRecord => None,
        PairStepView::Retry => None,
        PairStepView::Fail(message) => Some(SetupEventView::Failed(message)),
        PairStepView::GiveUp(message) => Some(SetupEventView::Failed(message)),
    }
}

/// How the installation ends with a step, if it does.
pub open spec fn installation_end(step: InstallStepView) -> Option<SetupEventView> {
    match step {
        InstallStepView::Finished => Some(SetupEventView::Done),
        InstallStepView::Run(_) => None,
        InstallStepView::NoteAndFail(message) => Some(SetupEventView::Failed(message)),
    }
}

/// How the wait for the registration ends with a step, if it does.
pub open spec fn registration_end(step: RegistrationStepView) -> Option<SetupEventView> {
    match step {
        RegistrationStepView::Ready => Some(SetupEventView::Done),
        RegistrationStepView::Retry => None,
        RegistrationStepView::Fail(message) => Some(SetupEventView::Failed(message)),
        RegistrationStepView::GiveUp(message) => Some(SetupEventView::Failed(message)),
    }
}

/// How the injection ends with a step, if it does.
pub open spec fn injection_end(step: InjectStepView) -> Option<SetupEventView> {
    match step {
        InjectStepView::Finished => Some(SetupEventView::Done),
        InjectStepView::Perform(_) => None,
        InjectStepView::Retry => None,
        InjectStepView::GiveUp(message) => Some(SetupEventView::Failed(message)),
    }
}

impl SetupEvent {
    /// How the wait for the device ends with this step, if it does.
    pub fn after_wait(step: &WaitStep) -> (r: Option<SetupEvent>)
        ensures
            event_view(r) == wait_end(step@),
    {
        match step {
            WaitStep::Found(device) => Some(SetupEvent::Found(device.udid.clone())),
            WaitStep::Retry => None,
            WaitStep::Fail(message) | WaitStep::GiveUp(message) => Some(
                SetupEvent::Failed(message.clone()),
            ),
        }
    }

    /// How the pairing ends with this step, if it does.
    pub fn after_pairing(step: &PairStep) -> (r: Option<SetupEvent>)
        ensures
            event_view(r) == pairing_end(step@),
    {
        match step {
            PairStep::Ready(record) => {
                let made = record.clone();
                assert(made@ =~= record@);
                Some(SetupEvent::Paired(made))
            },
            PairStep::ReadRecord | PairStep::Retry => None,
            PairStep::Fail(message) | PairStep::GiveUp(message) => Some(
                SetupEvent::Failed(message.clone()),
            ),
        }
    }

    /// How the installation ends with this step, if it does.
    pub fn after_installation(step: &InstallStep) -> (r: Option<SetupEvent>)
        ensures
            event_view(r) == installation_end(step@),
    {
        match step {
            InstallStep::Finished => Some(SetupEvent::Done),
            InstallStep::Run(_) => None,
            InstallStep::NoteAndFail(message) => Some(SetupEvent::Failed(message.clone())),
        }
    }

    /// How the wait for the registration ends with this step, if it does.
    pub fn after_registration(step: &RegistrationStep) -> (r: Option<SetupEvent>)
        ensures
            event_view(r) == registration_end(step@),
    {
        match step {
            RegistrationStep::Ready => Some(SetupEvent::Done),
            RegistrationStep::Retry => None,
            RegistrationStep::Fail(message) | RegistrationStep::GiveUp(message) => Some(
                SetupEvent::Failed(message.clone()),
            ),
        }
    }

    /// How the injection ends with this step, if it does.
    pub fn after_injection(step: &InjectStep) -> (r: Option<SetupEvent>)
        ensures
            event_view(r) == injection_end(step@),
    {
        match step {
            InjectStep::Finished => Some(SetupEvent::Done),
            InjectStep::Perform(_) | InjectStep::Retry => None,
            InjectStep::GiveUp(message) => Some(SetupEvent::Failed(message.clone())),
        }
    }
}

/// What happened in each phase of a setup.
pub struct SetupCourse {
    /// The answers to the wait for the device.
    pub polls: Seq<PollView>,
    /// The path that the helper writes to.
    pub path: Seq<char>,
    /// The events of its runs.
    pub runs: Seq<PairEventView>,
    /// The event that ended the installation.
    pub installation: InstallEventView,
    /// The answers to the wait for the registration.
    pub lookups: Seq<LookupView>,
    /// The events of the injection.
    pub injection: Seq<InjectEventView>,
}

/// The events of a full setup are those that its phases end with, and each phase is
/// given what its step carries.
pub open spec fn follows(
    course: SetupCourse,
    args: ArgsView,
    events: Seq<SetupEventView>,
) -> bool {
    let steps = setup_steps(setup_start(args), events);
    let injection = injection_start(steps[4]->Inject_record);
    &&& wait_end(wait_run(wait_start(args.udid), course.polls)) == Some(events[0])
    &&& pair_answered(pair_start(course.path), course.runs)
    &&& pairing_end(pair_outcome(pair_start(course.path), course.runs)) == Some(events[2])
    &&& installation_end(install_step(steps[2]->Install_udid, course.installation)) == Some(
        events[3],
    )
    &&& registration_end(registration_run(1, course.lookups)) == Some(events[4])
    &&& answered(injection, course.injection)
    &&& injection_end(inject_run(injection, course.injection)) == Some(events[5])
}

/// The device was the only one that the request admits, in a list that one of the polls
/// brought.
pub open spec fn found_alone(
    requested: Option<Seq<char>>,
    polls: Seq<PollView>,
    i: int,
    d: DeviceView,
) -> bool {
    &&& i < DEVICE_POLLS
    &&& found_at(requested, polls, i, d)
    &&& polls[i] matches PollView::Listed(devices) && admitted(usb_only(devices), requested)
        == seq![d]
}

/// A setup that ends with exit code zero, and was not asked for the UDID only, has found
/// the one device that it may work on, and has done every step for it. The record that
/// it has placed is the very one that the helper's first good run left in its file, and
/// the injection has read it back byte for byte. The app was installed, and the
/// installation proxy has listed it, before the record was placed.
pub proof fn law_successful_setup_placed_the_record_it_made(
    args: ArgsView,
    events: Seq<SetupEventView>,
    course: SetupCourse,
)
    requires
        !args.show_udid_only,
        setup_succeeds(args, events),
        follows(course, args, events),
    ensures
        ({
            let udid = events[0]->Found_0;
            let record = events[2]->Paired_0;
            let end = inject_taken(injection_start(record), course.injection);
            &&& setup_steps(setup_start(args), events) == full_setup(args, udid, record)
            &&& args.udid matches Some(requested) ==> udid == requested
            &&& exists|i: int, d: DeviceView|
                d.udid == udid && #[trigger] found_alone(args.udid, course.polls, i, d)
            &&& record_accepted(record)
            &&& exists|i: int|
                i < PAIR_ATTEMPTS && #[trigger] record_read_after(course.runs, i, record)
            &&& course.installation is Installed
            &&& exists|i: int|
                0 <= i < course.lookups.len() && i < REGISTRATION_CHECKS
                    && #[trigger] course.lookups[i] == LookupView::Answered(true)
            &&& 8 <= end <= course.injection.len()
            &&& course.injection.subrange(end - 8, end as int) == clean_attempt(record)
        }),
{
    law_code_zero_means_a_full_setup(args, events);
    let record = events[2]->Paired_0;
    let d = wait_run(wait_start(args.udid), course.polls)->Found_0;
    law_found_device_was_polled(args.udid, course.polls, d);
    let i = choose|i: int| i < DEVICE_POLLS && #[trigger] found_at(args.udid, course.polls, i, d);
    law_found_device_is_admitted(wait_start(args.udid), course.polls[i], d);
    assert(found_alone(args.udid, course.polls, i, d));
    law_record_comes_from_a_good_run(course.path, course.runs);
    law_ready_means_the_app_was_seen(course.lookups);
    law_finished_means_read_back(record, course.injection);
}

/// A phase that goes well hands on what it has brought, a phase that fails hands its
/// message on unchanged, and a step that goes on ends no phase: no success becomes a
/// failure, and no failure a success.
pub proof fn law_phases_hand_on_what_they_end_with(
    device: DeviceView,
    record: Seq<u8>,
    message: Seq<char>,
    mode: InstallMode,
    work: InjectWork,
)
    ensures
        wait_end(WaitStepView::Found(device)) == Some(SetupEventView::Found(device.udid)),
        wait_end(WaitStepView::Retry) is None,
        wait_end(WaitStepView::Fail(message)) == Some(SetupEventView::Failed(message)),
        wait_end(WaitStepView::GiveUp(message)) == Some(SetupEventView::Failed(message)),
        pairing_end(PairStepView::Ready(record)) == Some(SetupEventView::Paired(record)),
        pairing_end(PairStepView::ReadRecord) is None,
        pairing_end(PairStepView::Retry) is None,
        pairing_end(PairStepView::Fail(message)) == Some(SetupEventView::Failed(message)),
        pairing_end(PairStepView::GiveUp(message)) == Some(SetupEventView::Failed(message)),
        installation_end(InstallStepView::Finished) == Some(SetupEventView::Done),
        installation_end(InstallStepView::Run(mode)) is None,
        installation_end(InstallStepView::NoteAndFail(message)) == Some(
            SetupEventView::Failed(message),
        ),
        registration_end(RegistrationStepView::Ready) == Some(SetupEventView::Done),
        registration_end(RegistrationStepView::Retry) is None,
        registration_end(RegistrationStepView::Fail(message)) == Some(
            SetupEventView::Failed(message),
        ),
        registration_end(RegistrationStepView::GiveUp(message)) == Some(
            SetupEventView::Failed(message),
        ),
        injection_end(InjectStepView::Finished) == Some(SetupEventView::Done),
        injection_end(InjectStepView::Perform(work)) is None,
        injection_end(InjectStepView::Retry) is None,
        injection_end(InjectStepView::GiveUp(message)) == Some(SetupEventView::Failed(message)),
{
}

/// A setup succeeds where each of its phases does: where a poll finds the device, the
/// first run that exits with code zero leaves a file of at least 64 bytes, the package is
/// installed, a lookup sees the app, and an attempt of the injection reads back what was
/// in that file.
pub proof fn law_setup_succeeds_where_its_phases_do(
    args: ArgsView,
    polls: Seq<PollView>,
    path: Seq<char>,
    runs: Seq<PairEventView>,
    lookups: Seq<LookupView>,
    poll: int,
    run: int,
    lookup: int,
    device: DeviceView,
    record: Seq<u8>,
)
    requires
        !args.show_udid_only,
        0 <= poll < polls.len(),
        poll < 45,
        poll_verdict(args.udid, polls[poll]) == Some(WaitStepView::Found(device)),
        forall|j: int| 0 <= j < poll ==> poll_verdict(args.udid, #[trigger] polls[j]) is None,
        0 <= run < 12,
        run + 1 < runs.len(),
        forall|j: int| 0 <= j < run ==> (#[trigger] runs[j]) is Ended && runs[j] != good_run(),
        runs[run] == good_run(),
        runs[run + 1] == PairEventView::Read(record),
        record.len() >= 64,
        0 <= lookup < lookups.len(),
        lookup < 20,
        lookups[lookup] == LookupView::Answered(true),
        forall|j: int| 0 <= j < lookup ==> #[trigger] lookups[j] != LookupView::Answered(true),
    ensures
        ({
            let events = seq![
                wait_end(wait_run(wait_start(args.udid), polls))->0,
                SetupEventView::Done,
                pairing_end(pair_outcome(pair_start(path), runs))->0,
                installation_end(install_step(device.udid, InstallEventView::Installed))->0,
                registration_end(registration_run(1, lookups))->0,
                injection_end(inject_run(injection_start(record), clean_attempt(record)))->0,
            ];
            setup_steps(setup_start(args), events) == full_setup(args, device.udid, record)
        }),
{
    law_first_decisive_poll_decides(args.udid, polls, poll);
    law_file_of_the_first_good_run_is_the_record(path, runs, run);
    law_first_sighting_ends_the_wait(lookups, lookup);
    law_clean_attempt_finishes(record, 1);
    law_setup_completes_unless_a_phase_fails(args, device.udid, record);
    assert(seq![
        wait_end(wait_run(wait_start(args.udid), polls))->0,
        SetupEventView::Done,
        pairing_end(pair_outcome(pair_start(path), runs))->0,
        installation_end(install_step(device.udid, InstallEventView::Installed))->0,
        registration_end(registration_run(1, lookups))->0,
        injection_end(inject_run(injection_start(record), clean_attempt(record)))->0,
    ] =~= seq![
        SetupEventView::Found(device.udid),
        SetupEventView::Done,
        SetupEventView::Paired(record),
        SetupEventView::Done,
        SetupEventView::Done,
        SetupEventView::Done,
    ]);
}

} // verus!
