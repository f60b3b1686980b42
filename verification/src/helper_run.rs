//! The pairing helper from its command line to its exit code.
use vstd::prelude::*;
use idevice::remote_pairing::RpPairingFile;
use crate::console::{
    lines_view, on_stderr, on_stdout, stderr, stdout, Line, LineView,
};
use crate::device::{
    choice, choose_usb_device, devices_view, Choice, ChoiceView, Device, DeviceView,
};
use crate::device_error::{error_text, names};
use crate::helper_args::{HelperOptions, HelperOptionsView};
use crate::pair_run::record_accepted;
use crate::record::{plist_of, record_of, write_record};
use crate::text::{decimal, digits, optional};

verus! {

/// The reason that no device was found.
pub const DEVICE_NOT_FOUND: &'static str = "DeviceNotFound";

/// Printed above the UDIDs where several devices are connected.
pub const SEVERAL_DEVICES: &'static str =
    "More than one USB iPhone/iPad is connected. Re-run with --udid:";

/// Printed where no device is usable.
pub const CONNECT_DEVICE: &'static str =
    "Connect the device by USB, unlock it, and tap Trust This Computer.";

/// What the helper is at.
#[derive(Clone, Copy, Debug, PartialEq, Eq, Structural)]
pub enum HelperPhase {
    /// Listing the devices.
    Listing,
    /// Pairing with the chosen one.
    Pairing,
    /// Making the folder of the output file.
    Directory,
    /// Writing the output file.
    Writing,
}

/// How that went.
#[derive(Debug, PartialEq, Eq)]
pub enum HelperEvent {
    /// The multiplexer lists these devices.
    Listed(Vec<Device>),
    /// The device is paired; these are the bytes to write the record as, and this is the
    /// path of the folder that the output file goes to, where it has one.
    Paired(Vec<u8>, Option<String>),
    /// It was done.
    Done,
    /// It failed, for this reason.
    Failed(String),
}

/// The model of an event.
#[verifier::ext_equal]
pub enum HelperEventView {
    Listed(Seq<DeviceView>),
    Paired(Seq<u8>, Option<Seq<char>>),
    Done,
    Failed(Seq<char>),
}

impl View for HelperEvent {
    type V = HelperEventView;

    open spec fn view(&self) -> HelperEventView {
        match self {
            HelperEvent::Listed(devices) => HelperEventView::Listed(devices_view(devices@)),
            HelperEvent::Paired(bytes, folder) => HelperEventView::Paired(
                bytes@,
                optional(*folder),
            ),
            HelperEvent::Done => HelperEventView::Done,
            HelperEvent::Failed(text) => HelperEventView::Failed(text@),
        }
    }
}

/// What to do next.
#[derive(Debug, PartialEq, Eq)]
pub enum HelperStep {
    /// Pair with this device, as the host of this name.
    Pair { device: Device, hostname: String },
    /// Make the folder of the output file.
    CreateDirectory,
    /// Write these bytes to the file at this path.
    WriteRecord { output: String, bytes: Vec<u8> },
    /// End with this exit code.
    Exit(i32),
}

/// The model of a step.
#[verifier::ext_equal]
pub enum HelperStepView {
    Pair { device: DeviceView, hostname: Seq<char> },
    CreateDirectory,
    WriteRecord { output: Seq<char>, bytes: Seq<u8> },
    Exit(i32),
}

impl View for HelperStep {
    type V = HelperStepView;

    open spec fn view(&self) -> HelperStepView {
        match self {
            HelperStep::Pair { device, hostname } => HelperStepView::Pair {
                device: device@,
                hostname: hostname@,
            },
            HelperStep::CreateDirectory => HelperStepView::CreateDirectory,
            HelperStep::WriteRecord { output, bytes } => HelperStepView::WriteRecord {
                output: output@,
                bytes: bytes@,
            },
            HelperStep::Exit(code) => HelperStepView::Exit(*code),
        }
    }
}

/// The state of the helper.
#[derive(Debug, PartialEq, Eq)]
pub struct HelperRun {
    pub options: HelperOptions,
    pub phase: HelperPhase,
    pub udid: String,
    pub bytes: Vec<u8>,
}

/// The model of the helper.
#[verifier::ext_equal]
pub struct HelperRunView {
    pub options: HelperOptionsView,
    pub phase: HelperPhase,
    pub udid: Seq<char>,
    pub bytes: Seq<u8>,
}

impl View for HelperRun {
    type V = HelperRunView;

    open spec fn view(&self) -> HelperRunView {
        HelperRunView {
            options: self.options@,
            phase: self.phase,
            udid: self.udid@,
            bytes: self.bytes@,
        }
    }
}

/// The helper while it lists the devices.
pub open spec fn helper_start(options: HelperOptionsView) -> HelperRunView {
    HelperRunView { options, phase: HelperPhase::Listing, udid: Seq::empty(), bytes: Seq::empty() }
}

/// The lines that the helper begins with.
pub open spec fn helper_heading(options: HelperOptionsView) -> Seq<LineView> {
    seq![
        on_stderr("Pikmin Pilot Pairing Helper"@),
        on_stderr("Pairing host name: "@ + options.hostname),
    ]
}

/// The event is one that the phase can have.
pub open spec fn helper_fits(phase: HelperPhase, event: HelperEventView) -> bool {
    match event {
        HelperEventView::Listed(_) => phase == HelperPhase::Listing,
        HelperEventView::Paired(_, _) => phase == HelperPhase::Pairing,
        HelperEventView::Done => phase == HelperPhase::Directory || phase == HelperPhase::Writing,
        HelperEventView::Failed(_) => true,
    }
}

/// The exit code of a phase that fails.
pub open spec fn failure_code(phase: HelperPhase) -> i32 {
    match phase {
        HelperPhase::Listing => 10,
        HelperPhase::Pairing => 20,
        HelperPhase::Directory => 30,
        HelperPhase::Writing => 31,
    }
}

/// The lines of a phase that fails for this reason.
pub open spec fn failure_lines(phase: HelperPhase, reason: Seq<char>) -> Seq<LineView> {
    match phase {
        HelperPhase::Listing => seq![
            on_stderr("ERROR: no usable trusted USB iPhone/iPad: "@ + reason),
            on_stderr(CONNECT_DEVICE@),
        ],
        HelperPhase::Pairing => seq![on_stderr("PAIR FAILED: "@ + reason)],
        HelperPhase::Directory => seq![on_stderr("ERROR creating output directory: "@ + reason)],
        HelperPhase::Writing => seq![on_stderr("ERROR writing pairing file: "@ + reason)],
    }
}

/// The lines that list several devices.
pub open spec fn several_lines(udids: Seq<Seq<char>>) -> Seq<LineView> {
    seq![on_stderr(SEVERAL_DEVICES@)] + udids.map_values(
        |udid: Seq<char>| on_stderr("  "@ + udid),
    )
}

/// The lines that report a record that was written.
pub open spec fn success_lines(udid: Seq<char>, output: Seq<char>, size: nat) -> Seq<LineView> {
    seq![
        on_stdout("PAIRING OK"@),
        on_stdout("UDID="@ + udid),
        on_stdout("OUTPUT="@ + output),
        on_stdout("BYTES="@ + digits(size)),
        on_stdout("Import this file into Pikmin Pilot on THIS SAME device."@),
    ]
}

/// The output file's folder is one that has to be made.
pub open spec fn has_folder(folder: Option<Seq<char>>) -> bool {
    folder matches Some(path) && path.len() > 0
}

/// The step that an event leads to.
pub open spec fn helper_step(state: HelperRunView, event: HelperEventView) -> HelperStepView {
    match event {
        HelperEventView::Failed(_) => HelperStepView::Exit(failure_code(state.phase)),
        HelperEventView::Listed(devices) => match choice(state.options.udid, devices) {
            ChoiceView::Chosen(device) => HelperStepView::Pair {
                device,
                hostname: state.options.hostname,
            },
            ChoiceView::NotFound => HelperStepView::Exit(10),
            ChoiceView::Ambiguous(_) => HelperStepView::Exit(3),
        },
        HelperEventView::Paired(bytes, folder) => if has_folder(folder) {
            HelperStepView::CreateDirectory
        } else {
            HelperStepView::WriteRecord { output: state.options.output, bytes }
        },
        HelperEventView::Done => if state.phase == HelperPhase::Directory {
            HelperStepView::WriteRecord { output: state.options.output, bytes: state.bytes }
        } else {
            HelperStepView::Exit(0)
        },
    }
}

/// The lines that an event is reported with.
pub open spec fn helper_lines(state: HelperRunView, event: HelperEventView) -> Seq<LineView> {
    match event {
        HelperEventView::Failed(reason) => failure_lines(state.phase, reason),
        HelperEventView::Listed(devices) => match choice(state.options.udid, devices) {
            ChoiceView::Chosen(device) => seq![on_stderr("Device UDID: "@ + device.udid)],
            ChoiceView::NotFound => failure_lines(HelperPhase::Listing, DEVICE_NOT_FOUND@),
            ChoiceView::Ambiguous(udids) => several_lines(udids),
        },
        HelperEventView::Done => if state.phase == HelperPhase::Writing {
            success_lines(state.udid, state.options.output, state.bytes.len())
        } else {
            Seq::empty()
        },
        HelperEventView::Paired(_, _) => Seq::empty(),
    }
}

/// The helper after an event.
pub open spec fn helper_next(state: HelperRunView, event: HelperEventView) -> HelperRunView {
    let state = match event {
        HelperEventView::Paired(bytes, _) => HelperRunView { bytes, ..state },
        _ => state,
    };
    match helper_step(state, event) {
        HelperStepView::Pair { device, .. } => HelperRunView {
            phase: HelperPhase::Pairing,
            udid: device.udid,
            ..state
        },
        HelperStepView::CreateDirectory => HelperRunView {
            phase: HelperPhase::Directory,
            ..state
        },
        HelperStepView::WriteRecord { .. } => HelperRunView {
            phase: HelperPhase::Writing,
            ..state
        },
        HelperStepView::Exit(_) => state,
    }
}

fn failing_lines(phase: HelperPhase, reason: &str) -> (r: Vec<Line>)
    ensures
        lines_view(r@) == failure_lines(phase, reason@),
{
    let mut lines: Vec<Line> = Vec::new();
    match phase {
        HelperPhase::Listing => {
            lines.push(
                stderr(
                    "ERROR: no usable trusted USB iPhone/iPad: ".to_string().concat(reason),
                ),
            );
            lines.push(stderr(CONNECT_DEVICE.to_string()));
        },
        HelperPhase::Pairing => {
            lines.push(stderr("PAIR FAILED: ".to_string().concat(reason)));
        },
        HelperPhase::Directory => {
            lines.push(
                stderr("ERROR creating output directory: ".to_string().concat(reason)),
            );
        },
        HelperPhase::Writing => {
            lines.push(stderr("ERROR writing pairing file: ".to_string().concat(reason)));
        },
    }
    assert(lines_view(lines@) =~= failure_lines(phase, reason@));
    lines
}

fn failing_code(phase: HelperPhase) -> (r: i32)
    ensures
        r == failure_code(phase),
{
    match phase {
        HelperPhase::Listing => 10,
        HelperPhase::Pairing => 20,
        HelperPhase::Directory => 30,
        HelperPhase::Writing => 31,
    }
}

fn listing_lines(udids: &Vec<String>) -> (r: Vec<Line>)
    ensures
        lines_view(r@) == several_lines(crate::text::texts(udids@)),
{
    let mut lines: Vec<Line> = Vec::new();
    lines.push(stderr(SEVERAL_DEVICES.to_string()));
    for i in 0..udids.len()
        invariant
            lines@.len() == i + 1,
            lines@[0]@ == on_stderr(SEVERAL_DEVICES@),
            forall|k: int|
                0 <= k < i ==> #[trigger] lines@[k + 1]@ == on_stderr("  "@ + udids@[k]@),
    {
        lines.push(stderr("  ".to_string().concat(udids[i].as_str())));
    }
    proof {
        let shown = several_lines(crate::text::texts(udids@));
        assert forall|k: int| 0 <= k < shown.len() implies lines_view(lines@)[k]
            == #[trigger] shown[k] by {
            if k > 0 {
                assert(lines@[(k - 1) + 1]@ == on_stderr("  "@ + udids@[k - 1]@));
            }
        }
        assert(lines_view(lines@) =~= shown);
    }
    lines
}

fn written_lines(udid: &str, output: &str, size: usize) -> (r: Vec<Line>)
    ensures
        lines_view(r@) == success_lines(udid@, output@, size as nat),
{
    let count = decimal(size as u64);
    let mut lines: Vec<Line> = Vec::new();
    lines.push(stdout("PAIRING OK".to_string()));
    lines.push(stdout("UDID=".to_string().concat(udid)));
    lines.push(stdout("OUTPUT=".to_string().concat(output)));
    lines.push(stdout("BYTES=".to_string().concat(count.as_str())));
    lines.push(
        stdout("Import this file into Pikmin Pilot on THIS SAME device.".to_string()),
    );
    assert(lines_view(lines@) =~= success_lines(udid@, output@, size as nat));
    lines
}

/// The event of a phase that failed with this error. The reason is the error's text,
/// which names the error.
pub fn helper_failed(error: &idevice::IdeviceError) -> (event: HelperEvent)
    ensures
        event matches HelperEvent::Failed(text) && names(text@, *error),
{
    HelperEvent::Failed(error_text(error))
}

/// The event of a device that is paired with this record; `folder` is the path of the
/// folder that the output file goes to. The setup accepts what is to be written.
pub fn paired(file: &RpPairingFile, folder: Option<String>) -> (event: HelperEvent)
    ensures
        event@ == HelperEventView::Paired(plist_of(record_of(*file)), optional(folder)),
        record_accepted(plist_of(record_of(*file))),
{
    HelperEvent::Paired(write_record(file).bytes, folder)
}

impl HelperRun {
    /// The helper while it lists the devices, and the lines that it begins with.
    pub fn start(options: HelperOptions) -> (r: (HelperRun, Vec<Line>))
        ensures
            r.0@ == helper_start(options@),
            lines_view(r.1@) == helper_heading(options@),
    {
        let mut lines: Vec<Line> = Vec::new();
        lines.push(stderr("Pikmin Pilot Pairing Helper".to_string()));
        lines.push(
            stderr("Pairing host name: ".to_string().concat(options.hostname.as_str())),
        );
        assert(lines_view(lines@) =~= helper_heading(options@));
        (
            HelperRun {
                options,
                phase: HelperPhase::Listing,
                udid: String::new(),
                bytes: Vec::new(),
            },
            lines,
        )
    }

    fn writing(&self) -> (r: HelperStep)
        ensures
            r@ == (HelperStepView::WriteRecord {
                output: self@.options.output,
                bytes: self@.bytes,
            }),
    {
        let bytes = self.bytes.clone();
        assert(bytes@ =~= self.bytes@);
        HelperStep::WriteRecord { output: self.options.output.clone(), bytes }
    }

    /// Takes the result of the phase; reports it, and says what to do next.
    pub fn step(&mut self, event: HelperEvent) -> (r: (Vec<Line>, HelperStep))
        requires
            helper_fits(old(self).phase, event@),
        ensures
            final(self)@ == helper_next(old(self)@, event@),
            lines_view(r.0@) == helper_lines(old(self)@, event@),
            r.1@ == helper_step(old(self)@, event@),
    {
        let mut lines: Vec<Line> = Vec::new();
        assert(lines_view(lines@) =~= Seq::<LineView>::empty());
        match event {
            HelperEvent::Failed(reason) => (
                failing_lines(self.phase, reason.as_str()),
                HelperStep::Exit(failing_code(self.phase)),
            ),
            HelperEvent::Listed(devices) => {
                let requested: Option<&str> = match &self.options.udid {
                    Some(udid) => Some(udid.as_str()),
                    None => None,
                };
                match choose_usb_device(requested, &devices) {
                    Choice::Chosen(device) => {
                        lines.push(
                            stderr("Device UDID: ".to_string().concat(device.udid.as_str())),
                        );
                        assert(lines_view(lines@) =~= seq![
                            on_stderr("Device UDID: "@ + device@.udid),
                        ]);
                        self.phase = HelperPhase::Pairing;
                        self.udid = device.udid.clone();
                        (
                            lines,
                            HelperStep::Pair { device, hostname: self.options.hostname.clone() },
                        )
                    },
                    Choice::NotFound => (
                        failing_lines(HelperPhase::Listing, DEVICE_NOT_FOUND),
                        HelperStep::Exit(10),
                    ),
                    Choice::Ambiguous(udids) => (listing_lines(&udids), HelperStep::Exit(3)),
                }
            },
            HelperEvent::Paired(bytes, folder) => {
                self.bytes = bytes;
                let needed = match &folder {
                    Some(path) => !path.as_str().is_empty(),
                    None => false,
                };
                if needed {
                    self.phase = HelperPhase::Directory;
                    (lines, HelperStep::CreateDirectory)
                } else {
                    self.phase = HelperPhase::Writing;
                    (lines, self.writing())
                }
            },
            HelperEvent::Done => {
                if self.phase == HelperPhase::Directory {
                    self.phase = HelperPhase::Writing;
                    (lines, self.writing())
                } else {
                    (
                        written_lines(
                            self.udid.as_str(),
                            self.options.output.as_str(),
                            self.bytes.len(),
                        ),
                        HelperStep::Exit(0),
                    )
                }
            },
        }
    }
}

/// The events are ones that the helper can have, in turn, up to its end.
pub open spec fn helper_answered(state: HelperRunView, events: Seq<HelperEventView>) -> bool
    decreases events.len(),
{
    events.len() == 0 || {
        &&& helper_fits(state.phase, events[0])
        &&& !(helper_step(state, events[0]) is Exit) ==> helper_answered(
            helper_next(state, events[0]),
            events.drop_first(),
        )
    }
}

/// The exit code that these events lead to, if they lead to the end.
pub open spec fn helper_exit_code(
    state: HelperRunView,
    events: Seq<HelperEventView>,
) -> Option<i32>
    decreases events.len(),
{
    if events.len() == 0 {
        None
    } else {
        match helper_step(state, events[0]) {
            HelperStepView::Exit(code) => Some(code),
            _ => helper_exit_code(helper_next(state, events[0]), events.drop_first()),
        }
    }
}

/// The steps that these events lead to, up to the end.
pub open spec fn helper_steps(state: HelperRunView, events: Seq<HelperEventView>) -> Seq<
    HelperStepView,
>
    decreases events.len(),
{
    if events.len() == 0 {
        Seq::empty()
    } else {
        let step = helper_step(state, events[0]);
        if step is Exit {
            seq![step]
        } else {
            seq![step] + helper_steps(helper_next(state, events[0]), events.drop_first())
        }
    }
}

/// The steps of a helper that makes a record of these bytes, in their order.
pub open spec fn full_helper(
    options: HelperOptionsView,
    device: DeviceView,
    bytes: Seq<u8>,
    folder: Option<Seq<char>>,
) -> Seq<HelperStepView> {
    let pair = HelperStepView::Pair { device, hostname: options.hostname };
    let write = HelperStepView::WriteRecord { output: options.output, bytes };
    if has_folder(folder) {
        seq![pair, HelperStepView::CreateDirectory, write, HelperStepView::Exit(0)]
    } else {
        seq![pair, write, HelperStepView::Exit(0)]
    }
}

/// The helper ends with exit code zero only if it has chosen a device, has paired
/// with it as the host it was told to be, and has written the bytes of that pairing's
/// record to the file it was told to write, whose folder it has made before.
pub proof fn law_code_zero_means_a_written_record(
    options: HelperOptionsView,
    events: Seq<HelperEventView>,
)
    requires
        helper_answered(helper_start(options), events),
        helper_exit_code(helper_start(options), events) == Some(0i32),
    ensures
        events.len() >= 3,
        events[0] is Listed,
        choice(options.udid, events[0]->Listed_0) is Chosen,
        events[1] is Paired,
        events[2] is Done,
        has_folder(events[1]->Paired_1) ==> events.len() >= 4 && events[3] is Done,
        helper_steps(helper_start(options), events) == full_helper(
            options,
            choice(options.udid, events[0]->Listed_0)->Chosen_0,
            events[1]->Paired_0,
            events[1]->Paired_1,
        ),
{
    let s0 = helper_start(options);
    let s1 = helper_next(s0, events[0]);
    let e1 = events.drop_first();
    assert(helper_answered(s1, e1) && helper_exit_code(s1, e1) == Some(0i32));
    assert(e1[0] == events[1]);
    let s2 = helper_next(s1, events[1]);
    let e2 = e1.drop_first();
    assert(helper_answered(s2, e2) && helper_exit_code(s2, e2) == Some(0i32));
    assert(e2[0] == events[2]);
    let steps = full_helper(
        options,
        choice(options.udid, events[0]->Listed_0)->Chosen_0,
        events[1]->Paired_0,
        events[1]->Paired_1,
    );
    assert(helper_steps(s0, events) == seq![steps[0]] + helper_steps(s1, e1));
    assert(helper_steps(s1, e1) == seq![steps[1]] + helper_steps(s2, e2));
    if s2.phase == HelperPhase::Directory {
        let s3 = helper_next(s2, events[2]);
        let e3 = e2.drop_first();
        assert(helper_answered(s3, e3) && helper_exit_code(s3, e3) == Some(0i32));
        assert(e3[0] == events[3]);
        assert(helper_steps(s2, e2) == seq![steps[2]] + helper_steps(s3, e3));
        assert(helper_steps(s3, e3) == seq![steps[3]]);
    } else {
        assert(helper_steps(s2, e2) == seq![steps[2]]);
    }
    assert(helper_steps(s0, events) =~= steps);
}

/// The exit code tells what failed: every failure has a code of its own.
pub proof fn law_exit_codes_tell_failures_apart(a: HelperPhase, b: HelperPhase)
    ensures
        failure_code(a) == failure_code(b) ==> a == b,
        failure_code(a) != 0,
        failure_code(a) != 2,
        failure_code(a) != 3,
{
}

/// A helper that finds its device and whose work succeeds ends with exit code zero.
pub proof fn law_helper_succeeds_unless_work_fails(
    options: HelperOptionsView,
    devices: Seq<DeviceView>,
    bytes: Seq<u8>,
    folder: Option<Seq<char>>,
)
    requires
        choice(options.udid, devices) is Chosen,
    ensures
        helper_exit_code(
            helper_start(options),
            seq![
                HelperEventView::Listed(devices),
                HelperEventView::Paired(bytes, folder),
                HelperEventView::Done,
                HelperEventView::Done,
            ],
        ) == Some(0i32),
{
    let e0 = seq![
        HelperEventView::Listed(devices),
        HelperEventView::Paired(bytes, folder),
        HelperEventView::Done,
        HelperEventView::Done,
    ];
    let e1 = e0.drop_first();
    let e2 = e1.drop_first();
    let e3 = e2.drop_first();
    assert(e1[0] == e0[1] && e2[0] == e0[2] && e3[0] == e0[3]);
    reveal_with_fuel(helper_exit_code, 5);
}

/// What the helper prints once it has begun.
pub open spec fn helper_said(state: HelperRunView, events: Seq<HelperEventView>) -> Seq<LineView>
    decreases events.len(),
{
    if events.len() == 0 {
        Seq::empty()
    } else {
        helper_lines(state, events[0]) + (if helper_step(state, events[0]) is Exit {
            Seq::empty()
        } else {
            helper_said(helper_next(state, events[0]), events.drop_first())
        })
    }
}

/// The helper begins by telling which host it pairs for.
pub proof fn law_helper_tells_its_host(options: HelperOptionsView)
    ensures
        helper_heading(options) == seq![
            on_stderr("Pikmin Pilot Pairing Helper"@),
            on_stderr("Pairing host name: "@ + options.hostname),
        ],
        helper_start(options).options == options,
{
}

/// A helper that cannot list the devices, or finds none that it may pair with, ends with
/// code ten and says why, and what to do.
pub proof fn law_helper_without_a_device_ends_with_ten(
    options: HelperOptionsView,
    devices: Seq<DeviceView>,
    reason: Seq<char>,
)
    ensures
        ({
            let start = helper_start(options);
            let failed = seq![HelperEventView::Failed(reason)];
            let listed = seq![HelperEventView::Listed(devices)];
            let advice = on_stderr(
                "Connect the device by USB, unlock it, and tap Trust This Computer."@,
            );
            &&& helper_steps(start, failed) == seq![HelperStepView::Exit(10)]
            &&& helper_said(start, failed) == seq![
                on_stderr("ERROR: no usable trusted USB iPhone/iPad: "@ + reason),
                advice,
            ]
            &&& choice(options.udid, devices) is NotFound ==> helper_steps(start, listed) == seq![
                HelperStepView::Exit(10),
            ] && helper_said(start, listed) == seq![
                on_stderr("ERROR: no usable trusted USB iPhone/iPad: "@ + "DeviceNotFound"@),
                advice,
            ]
        }),
{
    let start = helper_start(options);
    let failed = seq![HelperEventView::Failed(reason)];
    let listed = seq![HelperEventView::Listed(devices)];
    assert(helper_said(start, failed) =~= helper_lines(start, failed[0]));
    assert(choice(options.udid, devices) is NotFound ==> helper_said(start, listed)
        =~= helper_lines(start, listed[0]));
}

/// A helper that is left with a choice ends with code three, and lists the UDIDs that it
/// may be called with, one to a line, in their order.
pub proof fn law_helper_lists_the_choice(options: HelperOptionsView, devices: Seq<DeviceView>)
    requires
        choice(options.udid, devices) is Ambiguous,
    ensures
        ({
            let udids = choice(options.udid, devices)->Ambiguous_0;
            let listed = seq![HelperEventView::Listed(devices)];
            let said = helper_said(helper_start(options), listed);
            &&& helper_steps(helper_start(options), listed) == seq![HelperStepView::Exit(3)]
            &&& said.len() == udids.len() + 1
            &&& said[0] == on_stderr(
                "More than one USB iPhone/iPad is connected. Re-run with --udid:"@,
            )
            &&& forall|i: int|
                0 <= i < udids.len() ==> said[i + 1] == on_stderr("  "@ + #[trigger] udids[i])
        }),
{
    let udids = choice(options.udid, devices)->Ambiguous_0;
    let listed = seq![HelperEventView::Listed(devices)];
    assert(helper_said(helper_start(options), listed) =~= several_lines(udids));
}

/// A helper that has chosen a device pairs with it, as the host that it was told to be.
/// Where that fails it ends with code twenty and the reason. Otherwise it makes the folder
/// of its file, where that has a name, and writes the bytes of the pairing to the file;
/// where one of these fails it ends with a code of its own and the reason, and otherwise
/// with code zero and a report.
pub proof fn law_helper_pairs_and_writes(
    options: HelperOptionsView,
    devices: Seq<DeviceView>,
    bytes: Seq<u8>,
    folder: Seq<char>,
    reason: Seq<char>,
)
    requires
        choice(options.udid, devices) is Chosen,
        folder.len() > 0,
    ensures
        ({
            let start = helper_start(options);
            let device = choice(options.udid, devices)->Chosen_0;
            let listed = HelperEventView::Listed(devices);
            let made = HelperEventView::Paired(bytes, Some(folder));
            let done = HelperEventView::Done;
            let failed = HelperEventView::Failed(reason);
            let pair = HelperStepView::Pair { device, hostname: options.hostname };
            let create = HelperStepView::CreateDirectory;
            let write = HelperStepView::WriteRecord { output: options.output, bytes };
            let shown = on_stderr("Device UDID: "@ + device.udid);
            &&& helper_steps(start, seq![listed, failed]) == seq![pair, HelperStepView::Exit(20)]
            &&& helper_said(start, seq![listed, failed]) == seq![
                shown,
                on_stderr("PAIR FAILED: "@ + reason),
            ]
            &&& helper_steps(start, seq![listed, made, failed]) == seq![
                pair,
                create,
                HelperStepView::Exit(30),
            ]
            &&& helper_said(start, seq![listed, made, failed]) == seq![
                shown,
                on_stderr("ERROR creating output directory: "@ + reason),
            ]
            &&& helper_steps(start, seq![listed, made, done, failed]) == seq![
                pair,
                create,
                write,
                HelperStepView::Exit(31),
            ]
            &&& helper_said(start, seq![listed, made, done, failed]) == seq![
                shown,
                on_stderr("ERROR writing pairing file: "@ + reason),
            ]
            &&& helper_steps(start, seq![listed, made, done, done]) == seq![
                pair,
                create,
                write,
                HelperStepView::Exit(0),
            ]
            &&& helper_said(start, seq![listed, made, done, done]) == seq![
                shown,
                on_stdout("PAIRING OK"@),
                on_stdout("UDID="@ + device.udid),
                on_stdout("OUTPUT="@ + options.output),
                on_stdout("BYTES="@ + digits(bytes.len())),
                on_stdout("Import this file into Pikmin Pilot on THIS SAME device."@),
            ]
        }),
{
    let start = helper_start(options);
    let listed = HelperEventView::Listed(devices);
    let made = HelperEventView::Paired(bytes, Some(folder));
    let done = HelperEventView::Done;
    let failed = HelperEventView::Failed(reason);
    lemma_four_events(start, listed, failed, failed, failed);
    lemma_four_events(start, listed, made, failed, failed);
    lemma_four_events(start, listed, made, done, failed);
    lemma_four_events(start, listed, made, done, done);
}

/// A file without a folder of its own is written at once.
pub proof fn law_helper_makes_no_folder_without_a_name(
    options: HelperOptionsView,
    devices: Seq<DeviceView>,
    bytes: Seq<u8>,
    folder: Option<Seq<char>>,
    reason: Seq<char>,
)
    requires
        choice(options.udid, devices) is Chosen,
        folder matches Some(path) ==> path.len() == 0,
    ensures
        ({
            let start = helper_start(options);
            let device = choice(options.udid, devices)->Chosen_0;
            let listed = HelperEventView::Listed(devices);
            let made = HelperEventView::Paired(bytes, folder);
            let done = HelperEventView::Done;
            let failed = HelperEventView::Failed(reason);
            let pair = HelperStepView::Pair { device, hostname: options.hostname };
            let write = HelperStepView::WriteRecord { output: options.output, bytes };
            let shown = on_stderr("Device UDID: "@ + device.udid);
            &&& helper_steps(start, seq![listed, made, failed]) == seq![
                pair,
                write,
                HelperStepView::Exit(31),
            ]
            &&& helper_said(start, seq![listed, made, failed]) == seq![
                shown,
                on_stderr("ERROR writing pairing file: "@ + reason),
            ]
            &&& helper_steps(start, seq![listed, made, done]) == seq![
                pair,
                write,
                HelperStepView::Exit(0),
            ]
            &&& helper_said(start, seq![listed, made, done]) == seq![
                shown,
                on_stdout("PAIRING OK"@),
                on_stdout("UDID="@ + device.udid),
                on_stdout("OUTPUT="@ + options.output),
                on_stdout("BYTES="@ + digits(bytes.len())),
                on_stdout("Import this file into Pikmin Pilot on THIS SAME device."@),
            ]
        }),
{
    let start = helper_start(options);
    let listed = HelperEventView::Listed(devices);
    let made = HelperEventView::Paired(bytes, folder);
    let done = HelperEventView::Done;
    let failed = HelperEventView::Failed(reason);
    lemma_four_events(start, listed, made, failed, failed);
    lemma_four_events(start, listed, made, done, done);
}

/// The steps and the lines of up to four events, one by one.
proof fn lemma_four_events(
    s0: HelperRunView,
    a: HelperEventView,
    b: HelperEventView,
    c: HelperEventView,
    d: HelperEventView,
)
    ensures
        ({
            let s1 = helper_next(s0, a);
            let s2 = helper_next(s1, b);
            let s3 = helper_next(s2, c);
            let p0 = helper_step(s0, a);
            let p1 = helper_step(s1, b);
            let p2 = helper_step(s2, c);
            let p3 = helper_step(s3, d);
            let l0 = helper_lines(s0, a);
            let l1 = helper_lines(s1, b);
            let l2 = helper_lines(s2, c);
            let l3 = helper_lines(s3, d);
            &&& !(p0 is Exit) && p1 is Exit ==> helper_steps(s0, seq![a, b]) == seq![p0, p1]
                && helper_said(s0, seq![a, b]) == l0 + l1
            &&& !(p0 is Exit) && !(p1 is Exit) && p2 is Exit ==> helper_steps(s0, seq![a, b, c])
                == seq![p0, p1, p2] && helper_said(s0, seq![a, b, c]) == l0 + l1 + l2
            &&& !(p0 is Exit) && !(p1 is Exit) && !(p2 is Exit) && p3 is Exit ==> helper_steps(
                s0,
                seq![a, b, c, d],
            ) == seq![p0, p1, p2, p3] && helper_said(s0, seq![a, b, c, d]) == l0 + l1 + l2 + l3
        }),
{
    reveal_with_fuel(helper_steps, 5);
    reveal_with_fuel(helper_said, 5);
    assert(seq![a, b].drop_first() =~= seq![b]);
    assert(seq![a, b, c].drop_first() =~= seq![b, c]);
    assert(seq![b, c].drop_first() =~= seq![c]);
    assert(seq![a, b, c, d].drop_first() =~= seq![b, c, d]);
    assert(seq![b, c, d].drop_first() =~= seq![c, d]);
    assert(seq![c, d].drop_first() =~= seq![d]);
    let s1 = helper_next(s0, a);
    let s2 = helper_next(s1, b);
    let s3 = helper_next(s2, c);
    if !(helper_step(s0, a) is Exit) {
        if helper_step(s1, b) is Exit {
            assert(helper_said(s0, seq![a, b]) =~= helper_lines(s0, a) + helper_lines(s1, b));
        } else if helper_step(s2, c) is Exit {
            assert(helper_said(s0, seq![a, b, c]) =~= helper_lines(s0, a) + helper_lines(s1, b)
                + helper_lines(s2, c));
        } else if helper_step(s3, d) is Exit {
            assert(helper_said(s0, seq![a, b, c, d]) =~= helper_lines(s0, a) + helper_lines(s1, b)
                + helper_lines(s2, c) + helper_lines(s3, d));
        }
    }
}

/// Every phase can fail, for any reason, and can bring what it is for, whatever that is.
pub proof fn law_every_result_of_a_phase_fits(
    phase: HelperPhase,
    devices: Seq<DeviceView>,
    bytes: Seq<u8>,
    folder: Option<Seq<char>>,
    reason: Seq<char>,
)
    ensures
        helper_fits(phase, HelperEventView::Failed(reason)),
        helper_fits(HelperPhase::Listing, HelperEventView::Listed(devices)),
        helper_fits(HelperPhase::Pairing, HelperEventView::Paired(bytes, folder)),
        helper_fits(HelperPhase::Directory, HelperEventView::Done),
        helper_fits(HelperPhase::Writing, HelperEventView::Done),
{
}

/// The helper is at what its last step asks for, and does and tells nothing ahead of it:
/// what it has done and told so far is fixed by what came so far.
pub proof fn law_helper_does_one_thing_after_another(
    options: HelperOptionsView,
    devices: Seq<DeviceView>,
    bytes: Seq<u8>,
    folder: Seq<char>,
)
    requires
        choice(options.udid, devices) is Chosen,
        folder.len() > 0,
    ensures
        ({
            let start = helper_start(options);
            let device = choice(options.udid, devices)->Chosen_0;
            let listed = HelperEventView::Listed(devices);
            let made = HelperEventView::Paired(bytes, Some(folder));
            let done = HelperEventView::Done;
            let pair = HelperStepView::Pair { device, hostname: options.hostname };
            let write = HelperStepView::WriteRecord { output: options.output, bytes };
            let told = seq![on_stderr("Device UDID: "@ + device.udid)];
            &&& start.phase == HelperPhase::Listing
            &&& helper_next(start, listed).phase == HelperPhase::Pairing
            &&& helper_next(helper_next(start, listed), made).phase == HelperPhase::Directory
            &&& helper_next(helper_next(helper_next(start, listed), made), done).phase
                == HelperPhase::Writing
            &&& helper_steps(start, seq![listed]) == seq![pair]
            &&& helper_said(start, seq![listed]) == told
            &&& helper_steps(start, seq![listed, made]) == seq![
                pair,
                HelperStepView::CreateDirectory,
            ]
            &&& helper_said(start, seq![listed, made]) == told
            &&& helper_steps(start, seq![listed, made, done]) == seq![
                pair,
                HelperStepView::CreateDirectory,
                write,
            ]
            &&& helper_said(start, seq![listed, made, done]) == told
        }),
{
    let start = helper_start(options);
    let device = choice(options.udid, devices)->Chosen_0;
    let listed = HelperEventView::Listed(devices);
    let made = HelperEventView::Paired(bytes, Some(folder));
    let done = HelperEventView::Done;
    let told = seq![on_stderr("Device UDID: "@ + device.udid)];
    reveal_with_fuel(helper_steps, 5);
    reveal_with_fuel(helper_said, 5);
    assert(seq![listed].drop_first() =~= Seq::empty());
    assert(seq![listed, made].drop_first() =~= seq![made]);
    assert(seq![made].drop_first() =~= Seq::empty());
    assert(seq![listed, made, done].drop_first() =~= seq![made, done]);
    assert(seq![made, done].drop_first() =~= seq![done]);
    assert(seq![done].drop_first() =~= Seq::empty());
    assert(helper_said(start, seq![listed]) =~= told);
    assert(helper_said(start, seq![listed, made]) =~= told);
    assert(helper_said(start, seq![listed, made, done]) =~= told);
    assert(helper_steps(start, seq![listed]) =~= seq![helper_step(start, listed)]);
}

/// The model of a step tells all that the step carries.
pub proof fn law_step_model_tells_all(step: HelperStep)
    ensures
        step matches HelperStep::Pair { device, hostname } ==> step@ == (HelperStepView::Pair {
            device: device@,
            hostname: hostname@,
        }),
        step matches HelperStep::WriteRecord { output, bytes } ==> step@ == (
        HelperStepView::WriteRecord { output: output@, bytes: bytes@ }),
        step matches HelperStep::Exit(code) ==> step@ == HelperStepView::Exit(code),
        step is CreateDirectory <==> step@ is CreateDirectory,
{
}

} // verus!
