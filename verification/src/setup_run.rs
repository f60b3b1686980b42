//! The setup from its command line to its exit code.
use vstd::prelude::*;
use crate::app_info::{APP_VERSION, PAIRING_NAME};
use crate::console::{
    lines_view, on_stderr, on_stdout, stderr, stdout, Line, LineView,
};
use crate::device_wait::WAIT_HEADING;
use crate::inject::{INJECTION_HEADING, INJECTION_MODE};
use crate::pair_run::{pair_heading, pair_heading_lines};
use crate::setup_args::{Args, ArgsView};

verus! {

/// Printed before the setup waits for the user to close it.
pub const PAUSE_PROMPT: &'static str = "\n按 Enter 關閉... ";

/// What the setup is at.
#[derive(Clone, Copy, Debug, PartialEq, Eq, Structural)]
pub enum SetupPhase {
    /// Waiting for the device.
    Waiting,
    /// Writing the note with its UDID.
    Noting,
    /// Making its pairing record.
    Pairing,
    /// Installing the app.
    Installing,
    /// Waiting until the app is registered.
    Registering,
    /// Placing the record in the app's container.
    Injecting,
}

/// How that went.
#[derive(Debug, PartialEq, Eq)]
pub enum SetupEvent {
    /// The device with this UDID is there.
    Found(String),
    /// The pairing record was made, and is this.
    Paired(Vec<u8>),
    /// It was done.
    Done,
    /// It failed, with this message.
    Failed(String),
}

/// The model of an event.
#[verifier::ext_equal]
pub enum SetupEventView {
    Found(Seq<char>),
    Paired(Seq<u8>),
    Done,
    Failed(Seq<char>),
}

impl View for SetupEvent {
    type V = SetupEventView;

    open spec fn view(&self) -> SetupEventView {
        match self {
            SetupEvent::Found(udid) => SetupEventView::Found(udid@),
            SetupEvent::Paired(record) => SetupEventView::Paired(record@),
            SetupEvent::Done => SetupEventView::Done,
            SetupEvent::Failed(text) => SetupEventView::Failed(text@),
        }
    }
}

/// What to do next.
#[derive(Debug, PartialEq, Eq)]
pub enum SetupStep {
    /// Write the note with this UDID.
    WriteNote { udid: String },
    /// Make the pairing record of the device with this UDID.
    Pair { udid: String },
    /// Install the app on the device with this UDID.
    Install { udid: String },
    /// Wait until the app is registered.
    Register,
    /// Place this record in the app's container.
    Inject { record: Vec<u8> },
    /// Wait for the user where `pause` says so, and end with the exit code.
    Finish { pause: bool, code: i32 },
}

/// The model of a step.
#[verifier::ext_equal]
pub enum SetupStepView {
    WriteNote { udid: Seq<char> },
    Pair { udid: Seq<char> },
    Install { udid: Seq<char> },
    Register,
    Inject { record: Seq<u8> },
    Finish { pause: bool, code: i32 },
}

impl View for SetupStep {
    type V = SetupStepView;

    open spec fn view(&self) -> SetupStepView {
        match self {
            SetupStep::WriteNote { udid } => SetupStepView::WriteNote { udid: udid@ },
            SetupStep::Pair { udid } => SetupStepView::Pair { udid: udid@ },
            SetupStep::Install { udid } => SetupStepView::Install { udid: udid@ },
            SetupStep::Register => SetupStepView::Register,
            SetupStep::Inject { record } => SetupStepView::Inject { record: record@ },
            SetupStep::Finish { pause, code } => SetupStepView::Finish {
                pause: *pause,
                code: *code,
            },
        }
    }
}

/// The state of the setup.
#[derive(Debug, PartialEq, Eq)]
pub struct SetupRun {
    pub args: Args,
    pub phase: SetupPhase,
    pub udid: String,
    pub record: Vec<u8>,
}

/// The model of the setup.
#[verifier::ext_equal]
pub struct SetupRunView {
    pub args: ArgsView,
    pub phase: SetupPhase,
    pub udid: Seq<char>,
    pub record: Seq<u8>,
}

impl View for SetupRun {
    type V = SetupRunView;

    open spec fn view(&self) -> SetupRunView {
        SetupRunView {
            args: self.args@,
            phase: self.phase,
            udid: self.udid@,
            record: self.record@,
        }
    }
}

/// The setup while it waits for the device.
pub open spec fn setup_start(args: ArgsView) -> SetupRunView {
    SetupRunView {
        args,
        phase: SetupPhase::Waiting,
        udid: Seq::empty(),
        record: Seq::empty(),
    }
}

/// The lines that the setup begins with.
pub open spec fn header_lines() -> Seq<LineView> {
    seq![
        on_stdout("============================================================"@),
        on_stdout(" Pikmin Pilot One-Click Setup  •  App "@ + APP_VERSION@),
        on_stdout("============================================================"@),
        on_stdout("USB 接上 → 解鎖 → iPhone/iPad 若詢問請按『信任』。"@),
        on_stdout("不需要 Python / pymobiledevice3 / Sideloadly / 手動 plist。\n"@),
    ]
}

/// The lines that the setup begins with.
pub fn print_header() -> (r: Vec<Line>)
    ensures
        lines_view(r@) == header_lines(),
{
    let mut lines: Vec<Line> = Vec::new();
    lines.push(
        stdout("============================================================".to_string()),
    );
    lines.push(
        stdout(" Pikmin Pilot One-Click Setup  •  App ".to_string().concat(APP_VERSION)),
    );
    lines.push(
        stdout("============================================================".to_string()),
    );
    lines.push(stdout("USB 接上 → 解鎖 → iPhone/iPad 若詢問請按『信任』。".to_string()));
    lines.push(
        stdout("不需要 Python / pymobiledevice3 / Sideloadly / 手動 plist。\n".to_string()),
    );
    assert(lines_view(lines@) =~= header_lines());
    lines
}

/// The lines that report a device that is set up.
pub open spec fn done_lines(udid: Seq<char>) -> Seq<LineView> {
    seq![
        on_stdout("[5/5] 完成\n"@),
        on_stdout("✅ Pikmin Pilot "@ + APP_VERSION@ + " 已安裝"@),
        on_stdout("✅ Device UDID: "@ + udid),
        on_stdout("✅ 此裝置專屬 RPPairing 已建立"@),
        on_stdout("✅ "@ + PAIRING_NAME@ + " 已寫入 App Documents 並 read-back 驗證"@),
        on_stdout("\n現在直接在 iPhone/iPad 打開 Pikmin Pilot 即可。"@),
        on_stdout("第一次啟動若 iOS 詢問 VPN / Local Network 權限，照畫面允許。\n"@),
    ]
}

/// The lines that report a device that is set up.
pub fn print_success(udid: &str) -> (r: Vec<Line>)
    ensures
        lines_view(r@) == done_lines(udid@),
{
    let mut lines: Vec<Line> = Vec::new();
    lines.push(stdout("[5/5] 完成\n".to_string()));
    lines.push(
        stdout("✅ Pikmin Pilot ".to_string().concat(APP_VERSION).concat(" 已安裝")),
    );
    lines.push(stdout("✅ Device UDID: ".to_string().concat(udid)));
    lines.push(stdout("✅ 此裝置專屬 RPPairing 已建立".to_string()));
    lines.push(
        stdout(
            "✅ ".to_string().concat(PAIRING_NAME).concat(
                " 已寫入 App Documents 並 read-back 驗證",
            ),
        ),
    );
    lines.push(stdout("\n現在直接在 iPhone/iPad 打開 Pikmin Pilot 即可。".to_string()));
    lines.push(
        stdout("第一次啟動若 iOS 詢問 VPN / Local Network 權限，照畫面允許。\n".to_string()),
    );
    assert(lines_view(lines@) =~= done_lines(udid@));
    lines
}

/// The event is one that the phase can have. Writing the note cannot fail: a note
/// that is not written is of no concern.
pub open spec fn setup_fits(phase: SetupPhase, event: SetupEventView) -> bool {
    match event {
        SetupEventView::Found(_) => phase == SetupPhase::Waiting,
        SetupEventView::Paired(_) => phase == SetupPhase::Pairing,
        SetupEventView::Done => phase != SetupPhase::Waiting && phase != SetupPhase::Pairing,
        SetupEventView::Failed(_) => phase != SetupPhase::Noting,
    }
}

/// The exit code of a phase that fails. The note, which cannot fail, has none.
pub open spec fn setup_failure_code(phase: SetupPhase) -> i32 {
    match phase {
        SetupPhase::Waiting => 10,
        SetupPhase::Noting => 0,
        SetupPhase::Pairing => 20,
        SetupPhase::Installing => 30,
        SetupPhase::Registering => 40,
        SetupPhase::Injecting => 40,
    }
}

/// The message of a phase that fails, with what the user is told to do about it.
pub open spec fn advised(phase: SetupPhase, message: Seq<char>) -> Seq<char> {
    match phase {
        SetupPhase::Pairing => message
            + "\n請保持 USB 連接、裝置解鎖並已按『信任』，然後重新執行 Setup。"@,
        SetupPhase::Registering => message
            + "\nApp 已安裝、pairing 也已備份；請保持 USB 連接後直接重跑 Setup。"@,
        SetupPhase::Injecting => message
            + "\nApp 已安裝、pairing 也已備份；請保持 USB 連接後直接重跑 Setup。"@,
        _ => message,
    }
}

/// The line of a phase that fails with this message.
pub open spec fn setup_failure_line(phase: SetupPhase, message: Seq<char>) -> LineView {
    on_stderr("\n❌ "@ + advised(phase, message))
}

/// The step that an event leads to.
pub open spec fn setup_step(state: SetupRunView, event: SetupEventView) -> SetupStepView {
    let pause = !state.args.no_pause;
    match event {
        SetupEventView::Failed(_) => SetupStepView::Finish {
            pause,
            code: setup_failure_code(state.phase),
        },
        SetupEventView::Found(udid) => SetupStepView::WriteNote { udid },
        SetupEventView::Paired(_) => SetupStepView::Install { udid: state.udid },
        SetupEventView::Done => match state.phase {
            SetupPhase::Noting => if state.args.show_udid_only {
                SetupStepView::Finish { pause, code: 0 }
            } else {
                SetupStepView::Pair { udid: state.udid }
            },
            SetupPhase::Installing => SetupStepView::Register,
            SetupPhase::Registering => SetupStepView::Inject { record: state.record },
            _ => SetupStepView::Finish { pause, code: 0 },
        },
    }
}

/// The lines that an event is reported with.
pub open spec fn setup_lines(state: SetupRunView, event: SetupEventView) -> Seq<LineView> {
    match event {
        SetupEventView::Failed(message) => seq![setup_failure_line(state.phase, message)],
        SetupEventView::Found(udid) => seq![on_stdout("      Device UDID: "@ + udid)],
        SetupEventView::Paired(_) => Seq::empty(),
        SetupEventView::Done => match state.phase {
            SetupPhase::Noting => if state.args.show_udid_only {
                seq![on_stdout("\nUDID="@ + state.udid)]
            } else {
                pair_heading_lines()
            },
            SetupPhase::Installing => seq![on_stdout(INJECTION_HEADING@)],
            SetupPhase::Registering => seq![on_stdout(INJECTION_MODE@)],
            _ => done_lines(state.udid),
        },
    }
}

/// The setup after an event.
pub open spec fn setup_next(state: SetupRunView, event: SetupEventView) -> SetupRunView {
    SetupRunView {
        phase: match setup_step(state, event) {
            SetupStepView::WriteNote { .. } => SetupPhase::Noting,
            SetupStepView::Pair { .. } => SetupPhase::Pairing,
            SetupStepView::Install { .. } => SetupPhase::Installing,
            SetupStepView::Register => SetupPhase::Registering,
            SetupStepView::Inject { .. } => SetupPhase::Injecting,
            SetupStepView::Finish { .. } => state.phase,
        },
        udid: match event {
            SetupEventView::Found(udid) => udid,
            _ => state.udid,
        },
        record: match event {
            SetupEventView::Paired(record) => record,
            _ => state.record,
        },
        ..state
    }
}

fn failing_code(phase: SetupPhase) -> (r: i32)
    ensures
        r == setup_failure_code(phase),
{
    match phase {
        SetupPhase::Waiting => 10,
        SetupPhase::Noting => 0,
        SetupPhase::Pairing => 20,
        SetupPhase::Installing => 30,
        SetupPhase::Registering => 40,
        SetupPhase::Injecting => 40,
    }
}

/// The line of a phase that fails with this message.
pub fn fail(phase: SetupPhase, message: &str) -> (r: Line)
    ensures
        r@ == setup_failure_line(phase, message@),
{
    let whole = match phase {
        SetupPhase::Pairing => message.to_string().concat(
            "\n請保持 USB 連接、裝置解鎖並已按『信任』，然後重新執行 Setup。",
        ),
        SetupPhase::Registering | SetupPhase::Injecting => message.to_string().concat(
            "\nApp 已安裝、pairing 也已備份；請保持 USB 連接後直接重跑 Setup。",
        ),
        _ => message.to_string(),
    };
    stderr("\n❌ ".to_string().concat(whole.as_str()))
}

impl SetupRun {
    /// The setup while it waits for the device, and the lines that it begins with.
    pub fn start(args: Args) -> (r: (SetupRun, Vec<Line>))
        ensures
            r.0@ == setup_start(args@),
            lines_view(r.1@) == header_lines().push(on_stdout(WAIT_HEADING@)),
    {
        let mut lines = print_header();
        let ghost before = lines@;
        lines.push(stdout(WAIT_HEADING.to_string()));
        assert(lines_view(lines@) =~= lines_view(before).push(on_stdout(WAIT_HEADING@)));
        (
            SetupRun {
                args,
                phase: SetupPhase::Waiting,
                udid: String::new(),
                record: Vec::new(),
            },
            lines,
        )
    }

    /// Takes the result of the phase; reports it, and says what to do next.
    pub fn step(&mut self, event: SetupEvent) -> (r: (Vec<Line>, SetupStep))
        requires
            setup_fits(old(self).phase, event@),
        ensures
            final(self)@ == setup_next(old(self)@, event@),
            lines_view(r.0@) == setup_lines(old(self)@, event@),
            r.1@ == setup_step(old(self)@, event@),
    {
        let mut lines: Vec<Line> = Vec::new();
        assert(lines_view(lines@) =~= Seq::<LineView>::empty());
        let pause = !self.args.no_pause;
        match event {
            SetupEvent::Failed(message) => {
                lines.push(fail(self.phase, message.as_str()));
                assert(lines_view(lines@) =~= seq![setup_failure_line(self.phase, message@)]);
                return (lines, SetupStep::Finish { pause, code: failing_code(self.phase) });
            },
            SetupEvent::Found(udid) => {
                lines.push(stdout("      Device UDID: ".to_string().concat(udid.as_str())));
                assert(lines_view(lines@) =~= seq![on_stdout("      Device UDID: "@ + udid@)]);
                self.udid = udid.clone();
                self.phase = SetupPhase::Noting;
                return (lines, SetupStep::WriteNote { udid });
            },
            SetupEvent::Paired(record) => {
                self.record = record;
                self.phase = SetupPhase::Installing;
                return (lines, SetupStep::Install { udid: self.udid.clone() });
            },
            SetupEvent::Done => {},
        }
        match self.phase {
            SetupPhase::Noting => {
                if self.args.show_udid_only {
                    lines.push(stdout("\nUDID=".to_string().concat(self.udid.as_str())));
                    assert(lines_view(lines@) =~= seq![on_stdout("\nUDID="@ + self.udid@)]);
                    (lines, SetupStep::Finish { pause, code: 0 })
                } else {
                    self.phase = SetupPhase::Pairing;
                    (pair_heading(), SetupStep::Pair { udid: self.udid.clone() })
                }
            },
            SetupPhase::Installing => {
                lines.push(stdout(INJECTION_HEADING.to_string()));
                assert(lines_view(lines@) =~= seq![on_stdout(INJECTION_HEADING@)]);
                self.phase = SetupPhase::Registering;
                (lines, SetupStep::Register)
            },
            SetupPhase::Registering => {
                lines.push(stdout(INJECTION_MODE.to_string()));
                assert(lines_view(lines@) =~= seq![on_stdout(INJECTION_MODE@)]);
                self.phase = SetupPhase::Injecting;
                let record = self.record.clone();
                assert(record@ =~= self.record@);
                (lines, SetupStep::Inject { record })
            },
            _ => (
                print_success(self.udid.as_str()),
                SetupStep::Finish { pause, code: 0 },
            ),
        }
    }
}

/// The events are ones that the setup can have, in turn, up to its end.
pub open spec fn setup_answered(state: SetupRunView, events: Seq<SetupEventView>) -> bool
    decreases events.len(),
{
    events.len() == 0 || {
        &&& setup_fits(state.phase, events[0])
        &&& !(setup_step(state, events[0]) is Finish) ==> setup_answered(
            setup_next(state, events[0]),
            events.drop_first(),
        )
    }
}

/// The steps that these events lead to, up to the end.
pub open spec fn setup_steps(state: SetupRunView, events: Seq<SetupEventView>) -> Seq<
    SetupStepView,
>
    decreases events.len(),
{
    if events.len() == 0 {
        Seq::empty()
    } else {
        let step = setup_step(state, events[0]);
        if step is Finish {
            seq![step]
        } else {
            seq![step] + setup_steps(setup_next(state, events[0]), events.drop_first())
        }
    }
}

/// The steps of a full setup of the device with this UDID, in their order; the record
/// that is made is the one that is placed.
pub open spec fn full_setup(args: ArgsView, udid: Seq<char>, record: Seq<u8>) -> Seq<
    SetupStepView,
> {
    seq![
        SetupStepView::WriteNote { udid },
        SetupStepView::Pair { udid },
        SetupStepView::Install { udid },
        SetupStepView::Register,
        SetupStepView::Inject { record },
        SetupStepView::Finish { pause: !args.no_pause, code: 0 },
    ]
}

/// The setup ends with exit code zero.
pub open spec fn setup_succeeds(args: ArgsView, events: Seq<SetupEventView>) -> bool {
    let steps = setup_steps(setup_start(args), events);
    &&& setup_answered(setup_start(args), events)
    &&& steps.len() > 0
    &&& steps.last() matches SetupStepView::Finish { code, .. } && code == 0
}

/// A setup that ends with exit code zero has done every step in order, for the device
/// that was found and with the record that was made; or it was asked for the UDID only,
/// and has done nothing but write the note.
pub proof fn law_code_zero_means_a_full_setup(args: ArgsView, events: Seq<SetupEventView>)
    requires
        setup_succeeds(args, events),
    ensures
        events.len() >= 2,
        events[0] is Found,
        events[1] is Done,
        args.show_udid_only ==> setup_steps(setup_start(args), events) == seq![
            SetupStepView::WriteNote { udid: events[0]->Found_0 },
            SetupStepView::Finish { pause: !args.no_pause, code: 0 },
        ],
        !args.show_udid_only ==> {
            &&& events.len() >= 6
            &&& events[2] is Paired
            &&& events[3] is Done
            &&& events[4] is Done
            &&& events[5] is Done
            &&& setup_steps(setup_start(args), events) == full_setup(
                args,
                events[0]->Found_0,
                events[2]->Paired_0,
            )
        },
{
    let s0 = setup_start(args);
    let s1 = setup_next(s0, events[0]);
    let s2 = setup_next(s1, events[1]);
    let s3 = setup_next(s2, events[2]);
    let s4 = setup_next(s3, events[3]);
    let s5 = setup_next(s4, events[4]);
    let e1 = events.drop_first();
    let e2 = e1.drop_first();
    let e3 = e2.drop_first();
    let e4 = e3.drop_first();
    let e5 = e4.drop_first();
    let all = full_setup(args, events[0]->Found_0, events[2]->Paired_0);
    assert(setup_answered(s1, e1) && setup_steps(s0, events) == seq![all[0]] + setup_steps(s1, e1));
    assert(e1.len() > 0 && e1[0] == events[1]);
    if args.show_udid_only {
        assert(setup_steps(s0, events) =~= seq![all[0], all[5]]);
    } else {
        assert(setup_answered(s2, e2) && setup_steps(s1, e1) == seq![all[1]] + setup_steps(s2, e2));
        assert(e2.len() > 0 && e2[0] == events[2]);
        assert(setup_answered(s3, e3) && setup_steps(s2, e2) == seq![all[2]] + setup_steps(s3, e3));
        assert(e3.len() > 0 && e3[0] == events[3]);
        assert(setup_answered(s4, e4) && setup_steps(s3, e3) == seq![all[3]] + setup_steps(s4, e4));
        assert(e4.len() > 0 && e4[0] == events[4]);
        assert(setup_answered(s5, e5) && setup_steps(s4, e4) == seq![all[4]] + setup_steps(s5, e5));
        assert(e5.len() > 0 && e5[0] == events[5]);
        assert(setup_steps(s0, events) =~= all);
    }
}

/// A setup that is asked for the UDID only never pairs, installs or injects.
pub proof fn law_showing_the_udid_changes_nothing(
    state: SetupRunView,
    events: Seq<SetupEventView>,
    i: int,
)
    requires
        setup_answered(state, events),
        state.args.show_udid_only,
        state.phase == SetupPhase::Waiting || state.phase == SetupPhase::Noting,
        0 <= i < setup_steps(state, events).len(),
    ensures
        setup_steps(state, events)[i] is WriteNote || setup_steps(state, events)[i] is Finish,
    decreases events.len(),
{
    let step = setup_step(state, events[0]);
    if !(step is Finish) && i > 0 {
        law_showing_the_udid_changes_nothing(
            setup_next(state, events[0]),
            events.drop_first(),
            i - 1,
        );
    }
}

/// However the setup ends, it waits for the user unless it was told not to.
pub proof fn law_setup_pauses_unless_told_not_to(
    state: SetupRunView,
    events: Seq<SetupEventView>,
    i: int,
)
    requires
        0 <= i < setup_steps(state, events).len(),
    ensures
        setup_steps(state, events)[i] matches SetupStepView::Finish { pause, .. } ==> pause
            == !state.args.no_pause,
    decreases events.len(),
{
    let step = setup_step(state, events[0]);
    if !(step is Finish) && i > 0 {
        law_setup_pauses_unless_told_not_to(
            setup_next(state, events[0]),
            events.drop_first(),
            i - 1,
        );
    }
}

/// The exit code tells what failed: every phase that can fail has a code of its own,
/// but for the two that place the record, which share one.
pub proof fn law_setup_codes_tell_failures_apart(a: SetupPhase, b: SetupPhase)
    requires
        a != SetupPhase::Noting,
        b != SetupPhase::Noting,
    ensures
        setup_failure_code(a) != 0,
        setup_failure_code(a) != 2,
        setup_failure_code(a) == setup_failure_code(b) ==> a == b || (a == SetupPhase::Registering
            && b == SetupPhase::Injecting) || (a == SetupPhase::Injecting && b
            == SetupPhase::Registering),
{
}

/// A setup in which all goes well does every step, in order.
pub proof fn law_setup_completes_unless_a_phase_fails(
    args: ArgsView,
    udid: Seq<char>,
    record: Seq<u8>,
)
    requires
        !args.show_udid_only,
    ensures
        setup_steps(
            setup_start(args),
            seq![
                SetupEventView::Found(udid),
                SetupEventView::Done,
                SetupEventView::Paired(record),
                SetupEventView::Done,
                SetupEventView::Done,
                SetupEventView::Done,
            ],
        ) == full_setup(args, udid, record),
{
    let e0 = seq![
        SetupEventView::Found(udid),
        SetupEventView::Done,
        SetupEventView::Paired(record),
        SetupEventView::Done,
        SetupEventView::Done,
        SetupEventView::Done,
    ];
    let e1 = e0.drop_first();
    let e2 = e1.drop_first();
    let e3 = e2.drop_first();
    let e4 = e3.drop_first();
    let e5 = e4.drop_first();
    assert(e1[0] == e0[1] && e2[0] == e0[2] && e3[0] == e0[3]);
    assert(e4[0] == e0[4] && e5[0] == e0[5]);
    reveal_with_fuel(setup_steps, 7);
    assert(setup_steps(setup_start(args), e0) =~= full_setup(args, udid, record));
}

/// What the setup prints once it has begun, apart from what its phases print.
pub open spec fn setup_said(state: SetupRunView, events: Seq<SetupEventView>) -> Seq<LineView>
    decreases events.len(),
{
    if events.len() == 0 {
        Seq::empty()
    } else {
        setup_lines(state, events[0]) + (if setup_step(state, events[0]) is Finish {
            Seq::empty()
        } else {
            setup_said(setup_next(state, events[0]), events.drop_first())
        })
    }
}

/// One more event behind events that end nothing adds its step and its lines.
proof fn lemma_one_more(state: SetupRunView, events: Seq<SetupEventView>, event: SetupEventView)
    requires
        forall|i: int|
            0 <= i < setup_steps(state, events).len() ==> !(#[trigger] setup_steps(state, events)[i]
                is Finish),
    ensures
        ({
            let last = setup_after(state, events);
            &&& setup_steps(state, events.push(event)) == setup_steps(state, events).push(
                setup_step(last, event),
            )
            &&& setup_said(state, events.push(event)) == setup_said(state, events) + setup_lines(
                last,
                event,
            )
            &&& setup_after(state, events.push(event)) == setup_next(last, event)
        }),
    decreases events.len(),
{
    let all = events.push(event);
    if events.len() == 0 {
        assert(all.drop_first() =~= Seq::<SetupEventView>::empty());
        reveal_with_fuel(setup_steps, 2);
        reveal_with_fuel(setup_said, 2);
        reveal_with_fuel(setup_after, 2);
        assert(setup_steps(state, all) =~= setup_steps(state, events).push(
            setup_step(state, event),
        ));
        assert(setup_said(state, all) =~= setup_said(state, events) + setup_lines(state, event));
    } else {
        let rest = events.drop_first();
        let next = setup_next(state, events[0]);
        assert(all[0] == events[0]);
        assert(all.drop_first() =~= rest.push(event));
        assert(setup_steps(state, events)[0] == setup_step(state, events[0]));
        assert forall|i: int| 0 <= i < setup_steps(next, rest).len() implies !(
        #[trigger] setup_steps(next, rest)[i] is Finish) by {
            assert(setup_steps(next, rest)[i] == setup_steps(state, events)[i + 1]);
        }
        lemma_one_more(next, rest, event);
        let last = setup_after(state, events);
        assert(setup_steps(state, all) =~= setup_steps(state, events).push(
            setup_step(last, event),
        ));
        assert(setup_said(state, all) =~= setup_said(state, events) + setup_lines(last, event));
    }
}

/// The setup after these events.
spec fn setup_after(state: SetupRunView, events: Seq<SetupEventView>) -> SetupRunView
    decreases events.len(),
{
    if events.len() == 0 {
        state
    } else {
        setup_after(setup_next(state, events[0]), events.drop_first())
    }
}

/// The events of a setup in which all goes well.
pub open spec fn full_course(udid: Seq<char>, record: Seq<u8>) -> Seq<SetupEventView> {
    seq![
        SetupEventView::Found(udid),
        SetupEventView::Done,
        SetupEventView::Paired(record),
        SetupEventView::Done,
        SetupEventView::Done,
        SetupEventView::Done,
    ]
}

/// The headings that a full setup prints for these of its events, one list for each.
pub open spec fn full_report(udid: Seq<char>) -> Seq<Seq<LineView>> {
    seq![
        seq![on_stdout("      Device UDID: "@ + udid)],
        seq![
            on_stdout("[2/5] 建立這台裝置專屬 RPPairing..."@),
            on_stdout("      保持裝置解鎖；若出現 Trust/Pairing 提示請允許。"@),
        ],
        Seq::empty(),
        seq![on_stdout("[4/5] 把 pairing 自動寫進 Pikmin Pilot..."@)],
        seq![
            on_stdout(
                "      House Arrest mode: VendContainer → /Documents (no UIFileSharingEnabled required)"@,
            ),
        ],
        seq![
            on_stdout("[5/5] 完成\n"@),
            on_stdout("✅ Pikmin Pilot "@ + "11.5.4.17"@ + " 已安裝"@),
            on_stdout("✅ Device UDID: "@ + udid),
            on_stdout("✅ 此裝置專屬 RPPairing 已建立"@),
            on_stdout("✅ "@ + "rp_pairing_file.plist"@ + " 已寫入 App Documents 並 read-back 驗證"@),
            on_stdout("\n現在直接在 iPhone/iPad 打開 Pikmin Pilot 即可。"@),
            on_stdout("第一次啟動若 iOS 詢問 VPN / Local Network 權限，照畫面允許。\n"@),
        ],
    ]
}

/// What stands behind the message of a setup that fails after so many events, and the exit
/// code.
pub open spec fn failure_end(done: int) -> (Seq<char>, i32) {
    if done == 0 {
        (""@, 10)
    } else if done == 2 {
        ("\n請保持 USB 連接、裝置解鎖並已按『信任』，然後重新執行 Setup。"@, 20)
    } else if done == 3 {
        (""@, 30)
    } else {
        ("\nApp 已安裝、pairing 也已備份；請保持 USB 連接後直接重跑 Setup。"@, 40)
    }
}

proof fn lemma_course_so_far(args: ArgsView, udid: Seq<char>, record: Seq<u8>, done: int)
    requires
        !args.show_udid_only,
        0 <= done <= 5,
    ensures
        ({
            let start = setup_start(args);
            let events = full_course(udid, record).take(done);
            let last = setup_after(start, events);
            &&& setup_steps(start, events) == full_setup(args, udid, record).take(done)
            &&& setup_said(start, events) == full_report(udid).take(done).flatten()
            &&& last.args == args
            &&& done > 0 ==> last.udid == udid
            &&& done > 2 ==> last.record == record
            &&& last.phase == seq![
                SetupPhase::Waiting,
                SetupPhase::Noting,
                SetupPhase::Pairing,
                SetupPhase::Installing,
                SetupPhase::Registering,
                SetupPhase::Injecting,
            ][done]
        }),
    decreases done,
{
    let start = setup_start(args);
    let events = full_course(udid, record).take(done);
    let report = full_report(udid);
    if done == 0 {
        assert(events =~= Seq::<SetupEventView>::empty());
        assert(report.take(0).flatten() =~= Seq::<LineView>::empty());
        assert(setup_steps(start, events) =~= full_setup(args, udid, record).take(0));
    } else {
        let before = full_course(udid, record).take(done - 1);
        let event = full_course(udid, record)[done - 1];
        lemma_course_so_far(args, udid, record, done - 1);
        assert(events =~= before.push(event));
        lemma_one_more(start, before, event);
        let last = setup_after(start, before);
        assert(setup_step(last, event) == full_setup(args, udid, record)[done - 1]);
        assert(setup_steps(start, events) =~= full_setup(args, udid, record).take(done));
        assert(report.take(done) =~= report.take(done - 1).push(report[done - 1]));
        report.take(done - 1).lemma_flatten_push(report[done - 1]);
        assert(setup_lines(last, event) =~= report[done - 1]);
    }
}

/// A setup that has got so far has done so many of the steps of a full setup, in their
/// order, for the device that was found and with the record that was made, and has printed
/// their headings. Where the next phase fails, it ends with that phase's exit code; it
/// prints the message, and what to do about it, and waits for the user unless told not to.
pub proof fn law_setup_ends_where_a_phase_fails(
    args: ArgsView,
    udid: Seq<char>,
    record: Seq<u8>,
    done: int,
    message: Seq<char>,
)
    requires
        !args.show_udid_only,
        0 <= done <= 5,
        done != 1,
    ensures
        ({
            let start = setup_start(args);
            let events = full_course(udid, record).take(done).push(
                SetupEventView::Failed(message),
            );
            let (advice, code) = failure_end(done);
            &&& setup_steps(start, events) == full_setup(args, udid, record).take(done).push(
                SetupStepView::Finish { pause: !args.no_pause, code },
            )
            &&& setup_said(start, events) == full_report(udid).take(done).flatten().push(
                on_stderr("\n❌ "@ + (message + advice)),
            )
        }),
{
    let start = setup_start(args);
    let events = full_course(udid, record).take(done);
    let failed = SetupEventView::Failed(message);
    lemma_course_so_far(args, udid, record, done);
    lemma_one_more(start, events, failed);
    reveal_strlit("");
    assert(message + ""@ =~= message);
    assert(setup_said(start, events.push(failed)) =~= full_report(udid).take(done).flatten().push(
        on_stderr("\n❌ "@ + (message + failure_end(done).0)),
    ));
}

/// A setup in which all goes well does every step for the device that was found, places
/// the record that was made, reports the device, and ends with code zero.
pub proof fn law_setup_reports_its_success(args: ArgsView, udid: Seq<char>, record: Seq<u8>)
    requires
        !args.show_udid_only,
    ensures
        setup_steps(setup_start(args), full_course(udid, record)) == full_setup(
            args,
            udid,
            record,
        ),
        setup_said(setup_start(args), full_course(udid, record)) == full_report(udid).flatten(),
{
    let start = setup_start(args);
    let all = full_course(udid, record);
    let report = full_report(udid);
    lemma_course_so_far(args, udid, record, 5);
    assert(all =~= all.take(5).push(all[5]));
    lemma_one_more(start, all.take(5), all[5]);
    assert(setup_steps(start, all) =~= full_setup(args, udid, record));
    assert(report =~= report.take(5).push(report[5]));
    report.take(5).lemma_flatten_push(report[5]);
    assert(setup_lines(setup_after(start, all.take(5)), all[5]) =~= report[5]);
}

/// A setup that is asked for the UDID only writes the note, shows the UDID, and ends with
/// code zero.
pub proof fn law_setup_shows_the_udid(args: ArgsView, udid: Seq<char>)
    requires
        args.show_udid_only,
    ensures
        ({
            let events = seq![SetupEventView::Found(udid), SetupEventView::Done];
            &&& setup_steps(setup_start(args), events) == seq![
                SetupStepView::WriteNote { udid },
                SetupStepView::Finish { pause: !args.no_pause, code: 0 },
            ]
            &&& setup_said(setup_start(args), events) == seq![
                on_stdout("      Device UDID: "@ + udid),
                on_stdout("\nUDID="@ + udid),
            ]
        }),
{
    let start = setup_start(args);
    let none = Seq::<SetupEventView>::empty();
    let found = SetupEventView::Found(udid);
    let done = SetupEventView::Done;
    lemma_one_more(start, none, found);
    assert(none.push(found) =~= seq![found]);
    lemma_one_more(start, seq![found], done);
    assert(seq![found].push(done) =~= seq![found, done]);
    assert(setup_said(start, seq![found, done]) =~= seq![
        on_stdout("      Device UDID: "@ + udid),
        on_stdout("\nUDID="@ + udid),
    ]);
}

/// A setup that finds no device ends with code ten, whatever it was asked for.
pub proof fn law_setup_without_a_device_ends_with_ten(args: ArgsView, message: Seq<char>)
    ensures
        ({
            let events = seq![SetupEventView::Failed(message)];
            &&& setup_steps(setup_start(args), events) == seq![
                SetupStepView::Finish { pause: !args.no_pause, code: 10 },
            ]
            &&& setup_said(setup_start(args), events) == seq![on_stderr("\n❌ "@ + message)]
        }),
{
    let start = setup_start(args);
    let none = Seq::<SetupEventView>::empty();
    let failed = SetupEventView::Failed(message);
    lemma_one_more(start, none, failed);
    assert(none.push(failed) =~= seq![failed]);
    assert(setup_said(start, seq![failed]) =~= seq![on_stderr("\n❌ "@ + message)]);
}

/// The setup begins by telling its version and what the user has to do.
pub proof fn law_setup_tells_its_version()
    ensures
        header_lines().push(on_stdout(WAIT_HEADING@)) == seq![
            on_stdout("============================================================"@),
            on_stdout(" Pikmin Pilot One-Click Setup  •  App "@ + "11.5.4.17"@),
            on_stdout("============================================================"@),
            on_stdout("USB 接上 → 解鎖 → iPhone/iPad 若詢問請按『信任』。"@),
            on_stdout("不需要 Python / pymobiledevice3 / Sideloadly / 手動 plist。\n"@),
            on_stdout("[1/5] 等待 USB iPhone/iPad..."@),
        ],
{
    assert(header_lines().push(on_stdout(WAIT_HEADING@)) =~= seq![
        on_stdout("============================================================"@),
        on_stdout(" Pikmin Pilot One-Click Setup  •  App "@ + "11.5.4.17"@),
        on_stdout("============================================================"@),
        on_stdout("USB 接上 → 解鎖 → iPhone/iPad 若詢問請按『信任』。"@),
        on_stdout("不需要 Python / pymobiledevice3 / Sideloadly / 手動 plist。\n"@),
        on_stdout("[1/5] 等待 USB iPhone/iPad..."@),
    ]);
}

/// Every phase but the note can fail, with any message, and can bring what it is for,
/// whatever that is.
pub proof fn law_every_result_of_a_phase_fits(
    phase: SetupPhase,
    udid: Seq<char>,
    record: Seq<u8>,
    message: Seq<char>,
)
    ensures
        phase != SetupPhase::Noting ==> setup_fits(phase, SetupEventView::Failed(message)),
        setup_fits(SetupPhase::Waiting, SetupEventView::Found(udid)),
        setup_fits(SetupPhase::Pairing, SetupEventView::Paired(record)),
        setup_fits(SetupPhase::Noting, SetupEventView::Done),
        setup_fits(SetupPhase::Installing, SetupEventView::Done),
        setup_fits(SetupPhase::Registering, SetupEventView::Done),
        setup_fits(SetupPhase::Injecting, SetupEventView::Done),
{
}

/// The setup does one thing after another: what it has done and printed so far is fixed by
/// what came so far, and it is at what its last step asks for.
pub proof fn law_setup_does_one_thing_after_another(
    args: ArgsView,
    udid: Seq<char>,
    record: Seq<u8>,
    done: int,
)
    requires
        !args.show_udid_only,
        0 <= done <= 5,
    ensures
        setup_steps(setup_start(args), full_course(udid, record).take(done)) == full_setup(
            args,
            udid,
            record,
        ).take(done),
        setup_said(setup_start(args), full_course(udid, record).take(done)) == full_report(
            udid,
        ).take(done).flatten(),
        setup_answered(setup_start(args), full_course(udid, record)),
{
    lemma_course_so_far(args, udid, record, done);
    let e0 = full_course(udid, record);
    let e1 = e0.drop_first();
    let e2 = e1.drop_first();
    let e3 = e2.drop_first();
    let e4 = e3.drop_first();
    let e5 = e4.drop_first();
    assert(e1[0] == e0[1] && e2[0] == e0[2] && e3[0] == e0[3]);
    assert(e4[0] == e0[4] && e5[0] == e0[5]);
    reveal_with_fuel(setup_answered, 7);
}

/// The setup asks for Enter, in a line of its own, before it closes.
pub proof fn law_pause_asks_for_enter()
    ensures
        PAUSE_PROMPT@ == "\n按 Enter 關閉... "@,
{
}

/// The model of a step tells all that the step carries.
pub proof fn law_step_model_tells_all(step: SetupStep)
    ensures
        step matches SetupStep::WriteNote { udid } ==> step@ == (SetupStepView::WriteNote {
            udid: udid@,
        }),
        step matches SetupStep::Pair { udid } ==> step@ == (SetupStepView::Pair { udid: udid@ }),
        step matches SetupStep::Install { udid } ==> step@ == (SetupStepView::Install {
            udid: udid@,
        }),
        step is Register <==> step@ is Register,
        step matches SetupStep::Inject { record } ==> step@ == (SetupStepView::Inject {
            record: record@,
        }),
        step matches SetupStep::Finish { pause, code } ==> step@ == (SetupStepView::Finish {
            pause,
            code,
        }),
{
}

} // verus!
