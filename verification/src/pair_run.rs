//! Running the pairing helper from the setup until it has made a record.
use vstd::prelude::*;
use crate::console::{lines_view, on_stdout, stdout, Line, LineView};
use crate::helper_args::{
    behind_program_name, helper_command, helper_defaults, law_options_are_taken_in_turn,
    rendered, with_options, HelperCommandView, HelperFlag, HelperOptionsView, DEFAULT_HOSTNAME,
};
use crate::layout::{file_failure, file_failure_text, FileWork};
use crate::text::{decimal, digits, signed_decimal, signed_digits, texts};

verus! {

/// How often the helper is run before the setup gives up.
pub const PAIR_ATTEMPTS: u32 = 12;

/// The pause after a failed run, in milliseconds.
pub const PAIR_PAUSE_MS: u64 = 3000;

/// The least size of a record, in bytes.
pub const LEAST_RECORD_SIZE: usize = 64;

/// Printed once, after the first failed run.
pub const PAIR_HINT: &'static str =
    "      尚未完成 pairing；請確認 iPhone/iPad 已解鎖並按『信任』。Setup 會自動重試。";

/// How a run of the helper ended.
#[derive(Debug, PartialEq, Eq)]
pub enum HelperEnd {
    /// It ended, with this exit code if it has one.
    Exited(Option<i32>),
    /// It could not be started, for this reason.
    NotStarted(String),
}

/// The model of a run's end.
#[verifier::ext_equal]
pub enum HelperEndView {
    Exited(Option<i32>),
    NotStarted(Seq<char>),
}

impl View for HelperEnd {
    type V = HelperEndView;

    open spec fn view(&self) -> HelperEndView {
        match self {
            HelperEnd::Exited(code) => HelperEndView::Exited(*code),
            HelperEnd::NotStarted(text) => HelperEndView::NotStarted(text@),
        }
    }
}

/// How a piece of work went.
#[derive(Debug, PartialEq, Eq)]
pub enum PairEvent {
    /// A run of the helper ended.
    Ended(HelperEnd),
    /// The file that the helper wrote holds this.
    Read(Vec<u8>),
    /// It could not be read, for this reason.
    Unreadable(String),
}

/// The model of an event.
#[verifier::ext_equal]
pub enum PairEventView {
    Ended(HelperEndView),
    Read(Seq<u8>),
    Unreadable(Seq<char>),
}

impl View for PairEvent {
    type V = PairEventView;

    open spec fn view(&self) -> PairEventView {
        match self {
            PairEvent::Ended(end) => PairEventView::Ended(end@),
            PairEvent::Read(bytes) => PairEventView::Read(bytes@),
            PairEvent::Unreadable(text) => PairEventView::Unreadable(text@),
        }
    }
}

/// What to do next.
#[derive(Debug, PartialEq, Eq)]
pub enum PairStep {
    /// Read the file that the helper wrote.
    ReadRecord,
    /// Pause, and run the helper again.
    Retry,
    /// This is the record.
    Ready(Vec<u8>),
    /// Fail at once with this message.
    Fail(String),
    /// Pause, and fail with this message.
    GiveUp(String),
}

/// The model of a step.
#[verifier::ext_equal]
pub enum PairStepView {
    ReadRecord,
    Retry,
    Ready(Seq<u8>),
    Fail(Seq<char>),
    GiveUp(Seq<char>),
}

impl View for PairStep {
    type V = PairStepView;

    open spec fn view(&self) -> PairStepView {
        match self {
            PairStep::ReadRecord => PairStepView::ReadRecord,
            PairStep::Retry => PairStepView::Retry,
            PairStep::Ready(bytes) => PairStepView::Ready(bytes@),
            PairStep::Fail(text) => PairStepView::Fail(text@),
            PairStep::GiveUp(text) => PairStepView::GiveUp(text@),
        }
    }
}

/// The pause that a step begins with, in milliseconds.
pub open spec fn pair_pause(step: PairStepView) -> nat {
    if step is Retry || step is GiveUp {
        PAIR_PAUSE_MS as nat
    } else {
        0
    }
}

impl PairStep {
    /// The pause that the step begins with, in milliseconds.
    pub fn pause_ms(&self) -> (r: u64)
        ensures
            r == pair_pause(self@),
    {
        match self {
            PairStep::Retry | PairStep::GiveUp(_) => PAIR_PAUSE_MS,
            _ => 0,
        }
    }
}

/// The lines that the pairing begins with.
pub open spec fn pair_heading_lines() -> Seq<LineView> {
    seq![
        on_stdout("[2/5] 建立這台裝置專屬 RPPairing..."@),
        on_stdout("      保持裝置解鎖；若出現 Trust/Pairing 提示請允許。"@),
    ]
}

/// The lines that the pairing begins with.
pub fn pair_heading() -> (r: Vec<Line>)
    ensures
        lines_view(r@) == pair_heading_lines(),
{
    let mut lines: Vec<Line> = Vec::new();
    lines.push(stdout("[2/5] 建立這台裝置專屬 RPPairing...".to_string()));
    lines.push(stdout("      保持裝置解鎖；若出現 Trust/Pairing 提示請允許。".to_string()));
    assert(lines_view(lines@) =~= pair_heading_lines());
    lines
}

/// The options that the setup gives the helper.
pub open spec fn helper_pairs(udid: Seq<char>, output: Seq<char>) -> Seq<(HelperFlag, Seq<char>)> {
    seq![
        (HelperFlag::Udid, udid),
        (HelperFlag::Output, output),
        (HelperFlag::Hostname, DEFAULT_HOSTNAME@),
    ]
}

/// The arguments that the setup calls the helper with: those before the path of the
/// output file, and those behind it. The path itself may be one that is no text.
pub fn helper_arguments(udid: &str) -> (r: (Vec<String>, Vec<String>))
    ensures
        forall|output: Seq<char>|
            texts(r.0@).push(output) + texts(r.1@) == #[trigger] rendered(
                helper_pairs(udid@, output),
            ),
{
    let mut before: Vec<String> = Vec::new();
    before.push("--udid".to_string());
    before.push(udid.to_string());
    before.push("--output".to_string());
    let mut behind: Vec<String> = Vec::new();
    behind.push("--hostname".to_string());
    behind.push(DEFAULT_HOSTNAME.to_string());
    assert forall|output: Seq<char>|
        texts(before@).push(output) + texts(behind@) == #[trigger] rendered(
            helper_pairs(udid@, output),
        ) by {
        let pairs = helper_pairs(udid@, output);
        reveal_with_fuel(rendered, 4);
        assert(pairs.skip(1)[0] == pairs[1]);
        assert(pairs.skip(1).skip(1)[0] == pairs[2]);
        assert(texts(before@).push(output) + texts(behind@) =~= rendered(pairs));
    }
    (before, behind)
}

/// The helper reads the setup's command line as it is meant: the record is made for
/// the given UDID, goes to the given file, and names the setup as its host, whatever
/// the UDID and the file's name are.
pub proof fn law_helper_understands_the_setup(
    program: Seq<char>,
    udid: Seq<char>,
    output: Seq<char>,
)
    ensures
        helper_command(
            behind_program_name(seq![program] + rendered(helper_pairs(udid, output))),
            helper_defaults(),
        ) == HelperCommandView::Run(
            HelperOptionsView { udid: Some(udid), output, hostname: DEFAULT_HOSTNAME@ },
        ),
{
    let pairs = helper_pairs(udid, output);
    let none = Seq::<Seq<char>>::empty();
    assert((seq![program] + rendered(pairs)).skip(1) =~= rendered(pairs) + none);
    law_options_are_taken_in_turn(pairs, none, helper_defaults());
    reveal_with_fuel(with_options, 4);
    assert(pairs.skip(1)[0] == pairs[1]);
    assert(pairs.skip(1).skip(1)[0] == pairs[2]);
}

/// The notation of an exit code that may be missing.
pub open spec fn code_text(code: Option<i32>) -> Seq<char> {
    match code {
        Some(c) => "Some("@ + signed_digits(c as int) + ")"@,
        None => "None"@,
    }
}

/// Why a run made no record, if it made none.
pub open spec fn run_failure(end: HelperEndView) -> Option<Seq<char>> {
    match end {
        HelperEndView::Exited(code) => if code == Some(0i32) {
            None
        } else {
            Some("Pairing Helper exit code "@ + code_text(code))
        },
        HelperEndView::NotStarted(text) => Some("Pairing Helper could not start: "@ + text),
    }
}

/// The message of a record that is too small.
pub open spec fn too_small_text(size: nat) -> Seq<char> {
    "Pairing Helper returned success but file is too small: "@ + digits(size) + " bytes"@
}

/// The record is large enough to be one.
pub open spec fn record_accepted(record: Seq<u8>) -> bool {
    record.len() >= LEAST_RECORD_SIZE
}

/// The lines that an accepted record is reported with.
pub open spec fn record_lines(size: nat, path: Seq<char>) -> Seq<LineView> {
    seq![
        on_stdout("      ✅ Pairing ready ("@ + digits(size) + " bytes)"@),
        on_stdout("      backup: "@ + path),
    ]
}

/// The runs of the helper: the number of the run under way, or whose file is being
/// read, and the path of that file.
#[derive(Debug, PartialEq, Eq)]
pub struct PairRuns {
    pub attempt: u32,
    pub reading: bool,
    pub path: String,
}

/// The model of the runs.
#[verifier::ext_equal]
pub struct PairRunsView {
    pub attempt: nat,
    pub reading: bool,
    pub path: Seq<char>,
}

impl View for PairRuns {
    type V = PairRunsView;

    open spec fn view(&self) -> PairRunsView {
        PairRunsView { attempt: self.attempt as nat, reading: self.reading, path: self.path@ }
    }
}

/// The first run.
pub open spec fn pair_start(path: Seq<char>) -> PairRunsView {
    PairRunsView { attempt: 1, reading: false, path }
}

/// The event is one that the work under way can have.
pub open spec fn pair_fits(reading: bool, event: PairEventView) -> bool {
    event is Ended <==> !reading
}

/// The step that an event leads to.
pub open spec fn pair_step(state: PairRunsView, event: PairEventView) -> PairStepView {
    match event {
        PairEventView::Ended(end) => match run_failure(end) {
            None => PairStepView::ReadRecord,
            Some(why) => if state.attempt < PAIR_ATTEMPTS {
                PairStepView::Retry
            } else {
                PairStepView::GiveUp("Pairing failed after retries: "@ + why)
            },
        },
        PairEventView::Read(bytes) => if record_accepted(bytes) {
            PairStepView::Ready(bytes)
        } else {
            PairStepView::Fail(too_small_text(bytes.len()))
        },
        PairEventView::Unreadable(reason) => PairStepView::Fail(
            file_failure_text(FileWork::ReadRecord, reason),
        ),
    }
}

/// The runs after an event.
pub open spec fn pair_next(state: PairRunsView, event: PairEventView) -> PairRunsView {
    match pair_step(state, event) {
        PairStepView::ReadRecord => PairRunsView { reading: true, ..state },
        PairStepView::Retry => PairRunsView { attempt: state.attempt + 1, ..state },
        _ => state,
    }
}

/// The lines that an event is reported with.
pub open spec fn pair_lines(state: PairRunsView, event: PairEventView) -> Seq<LineView> {
    match event {
        PairEventView::Ended(end) => if run_failure(end) is Some && state.attempt == 1 {
            seq![on_stdout(PAIR_HINT@)]
        } else {
            Seq::empty()
        },
        PairEventView::Read(bytes) => if record_accepted(bytes) {
            record_lines(bytes.len(), state.path)
        } else {
            Seq::empty()
        },
        PairEventView::Unreadable(_) => Seq::empty(),
    }
}

fn failure_of(end: &HelperEnd) -> (r: Option<String>)
    ensures
        (match r {
            Some(text) => Some(text@),
            None => None::<Seq<char>>,
        }) == run_failure(end@),
{
    match end {
        HelperEnd::Exited(Some(code)) => {
            if *code == 0 {
                None
            } else {
                let number = signed_decimal(*code);
                let shown = "Some(".to_string().concat(number.as_str()).concat(")");
                Some("Pairing Helper exit code ".to_string().concat(shown.as_str()))
            }
        },
        HelperEnd::Exited(None) => Some("Pairing Helper exit code ".to_string().concat("None")),
        HelperEnd::NotStarted(text) => Some(
            "Pairing Helper could not start: ".to_string().concat(text.as_str()),
        ),
    }
}

fn ready_lines(size: usize, path: &str) -> (r: Vec<Line>)
    ensures
        lines_view(r@) == record_lines(size as nat, path@),
{
    let count = decimal(size as u64);
    let mut lines: Vec<Line> = Vec::new();
    lines.push(
        stdout("      ✅ Pairing ready (".to_string().concat(count.as_str()).concat(" bytes)")),
    );
    lines.push(stdout("      backup: ".to_string().concat(path)));
    assert(lines_view(lines@) =~= record_lines(size as nat, path@));
    lines
}

impl PairRuns {
    /// The run is one of those allowed.
    pub open spec fn wf(&self) -> bool {
        1 <= self.attempt <= PAIR_ATTEMPTS
    }

    /// The first run, of a helper that writes to this path.
    pub fn new(path: String) -> (r: PairRuns)
        ensures
            r.wf(),
            r@ == pair_start(path@),
    {
        PairRuns { attempt: 1, reading: false, path }
    }

    /// Takes the result of the work under way; reports it, and says what to do next.
    pub fn run_known_good_pair_helper(&mut self, event: PairEvent) -> (r: (Vec<Line>, PairStep))
        requires
            old(self).wf(),
            pair_fits(old(self).reading, event@),
        ensures
            final(self).wf(),
            final(self)@ == pair_next(old(self)@, event@),
            lines_view(r.0@) == pair_lines(old(self)@, event@),
            r.1@ == pair_step(old(self)@, event@),
    {
        let mut lines: Vec<Line> = Vec::new();
        assert(lines_view(lines@) =~= Seq::<LineView>::empty());
        match event {
            PairEvent::Ended(end) => {
                if let Some(why) = failure_of(&end) {
                    if self.attempt == 1 {
                        lines.push(stdout(PAIR_HINT.to_string()));
                        assert(lines_view(lines@) =~= seq![on_stdout(PAIR_HINT@)]);
                    }
                    if self.attempt < PAIR_ATTEMPTS {
                        self.attempt = self.attempt + 1;
                        (lines, PairStep::Retry)
                    } else {
                        let text = "Pairing failed after retries: ".to_string().concat(
                            why.as_str(),
                        );
                        (lines, PairStep::GiveUp(text))
                    }
                } else {
                    self.reading = true;
                    (lines, PairStep::ReadRecord)
                }
            },
            PairEvent::Read(bytes) => {
                let size: usize = bytes.len();
                if size < LEAST_RECORD_SIZE {
                    let count = decimal(size as u64);
                    let head = "Pairing Helper returned success but file is too small: ";
                    let text = head.to_string().concat(count.as_str()).concat(" bytes");
                    (lines, PairStep::Fail(text))
                } else {
                    (ready_lines(size, self.path.as_str()), PairStep::Ready(bytes))
                }
            },
            PairEvent::Unreadable(reason) => (
                lines,
                PairStep::Fail(file_failure(FileWork::ReadRecord, reason.as_str())),
            ),
        }
    }
}

/// The events are ones that the runs can have, in turn, up to their end.
pub open spec fn pair_answered(state: PairRunsView, events: Seq<PairEventView>) -> bool
    decreases events.len(),
{
    events.len() == 0 || {
        &&& pair_fits(state.reading, events[0])
        &&& match pair_step(state, events[0]) {
            PairStepView::Retry => pair_answered(
                pair_next(state, events[0]),
                events.drop_first(),
            ),
            PairStepView::ReadRecord => pair_answered(
                pair_next(state, events[0]),
                events.drop_first(),
            ),
            _ => true,
        }
    }
}

/// Where these events lead: the end of the runs, or the last step before they run out.
pub open spec fn pair_outcome(state: PairRunsView, events: Seq<PairEventView>) -> PairStepView
    decreases events.len(),
{
    if events.len() == 0 {
        if state.reading {
            PairStepView::ReadRecord
        } else {
            PairStepView::Retry
        }
    } else {
        match pair_step(state, events[0]) {
            PairStepView::Retry => pair_outcome(pair_next(state, events[0]), events.drop_first()),
            PairStepView::ReadRecord => pair_outcome(
                pair_next(state, events[0]),
                events.drop_first(),
            ),
            step => step,
        }
    }
}

/// The time that the runs spend pausing, in milliseconds.
pub open spec fn pair_paused_ms(state: PairRunsView, events: Seq<PairEventView>) -> nat
    decreases events.len(),
{
    if events.len() == 0 {
        0
    } else {
        let step = pair_step(state, events[0]);
        pair_pause(step) + (if step is Retry || step is ReadRecord {
            pair_paused_ms(pair_next(state, events[0]), events.drop_first())
        } else {
            0
        })
    }
}

/// The end of a run that made its record.
pub open spec fn good_run() -> PairEventView {
    PairEventView::Ended(HelperEndView::Exited(Some(0i32)))
}

proof fn lemma_failed_runs(path: Seq<char>, events: Seq<PairEventView>, done: int, end: int)
    requires
        0 <= done <= end <= events.len(),
        end < PAIR_ATTEMPTS,
        forall|j: int|
            done <= j < end ==> (#[trigger] events[j]) is Ended && events[j] != good_run(),
    ensures
        ({
            let from = PairRunsView { attempt: (done + 1) as nat, reading: false, path };
            let to = PairRunsView { attempt: (end + 1) as nat, reading: false, path };
            &&& pair_outcome(from, events.skip(done)) == pair_outcome(to, events.skip(end))
            &&& pair_paused_ms(from, events.skip(done)) == (end - done) * 3000 + pair_paused_ms(
                to,
                events.skip(end),
            )
        }),
    decreases end - done,
{
    if done < end {
        assert(events.skip(done)[0] == events[done]);
        assert(events.skip(done).drop_first() =~= events.skip(done + 1));
        lemma_failed_runs(path, events, done + 1, end);
    }
}

/// The first run that exits with code zero is the last, whatever failed before: the
/// file that it wrote decides. There is a pause of three seconds after each run before
/// it, and none after it.
pub proof fn law_first_good_run_decides(path: Seq<char>, events: Seq<PairEventView>, i: int)
    requires
        0 <= i < PAIR_ATTEMPTS,
        i + 1 < events.len(),
        forall|j: int| 0 <= j < i ==> (#[trigger] events[j]) is Ended && events[j] != good_run(),
        events[i] == good_run(),
        !(events[i + 1] is Ended),
    ensures
        pair_outcome(pair_start(path), events) == pair_step(
            PairRunsView { attempt: (i + 1) as nat, reading: true, path },
            events[i + 1],
        ),
        pair_paused_ms(pair_start(path), events) == i * 3000,
{
    assert(events.skip(0) =~= events);
    lemma_failed_runs(path, events, 0, i);
    let rest = events.skip(i);
    assert(rest[0] == events[i]);
    assert(rest.drop_first()[0] == events[i + 1]);
    reveal_with_fuel(pair_outcome, 3);
    reveal_with_fuel(pair_paused_ms, 3);
}

/// Twelve runs without a record are enough; the last one's failure is reported, after
/// pauses of three seconds each.
pub proof fn law_runs_give_up_after_twelve(path: Seq<char>, events: Seq<PairEventView>)
    requires
        events.len() >= PAIR_ATTEMPTS,
        forall|j: int|
            0 <= j < PAIR_ATTEMPTS ==> (#[trigger] events[j]) is Ended && events[j] != good_run(),
    ensures
        run_failure(events[11]->Ended_0) is Some,
        pair_outcome(pair_start(path), events) == PairStepView::GiveUp(
            "Pairing failed after retries: "@ + run_failure(events[11]->Ended_0)->0,
        ),
        pair_paused_ms(pair_start(path), events) == 36_000,
{
    assert(events.skip(0) =~= events);
    lemma_failed_runs(path, events, 0, 11);
    assert(events.skip(11)[0] == events[11]);
}

/// The run at place `i` is the first that exits with code zero, and the record is what
/// was read from its file right after.
pub open spec fn record_read_after(events: Seq<PairEventView>, i: int, record: Seq<u8>) -> bool {
    &&& 0 <= i
    &&& i + 1 < events.len()
    &&& forall|j: int| 0 <= j < i ==> (#[trigger] events[j]) is Ended && events[j] != good_run()
    &&& events[i] == good_run()
    &&& events[i + 1] == PairEventView::Read(record)
}

proof fn lemma_ready_from(state: PairRunsView, events: Seq<PairEventView>) -> (i: int)
    requires
        1 <= state.attempt <= PAIR_ATTEMPTS,
        pair_answered(state, events),
        pair_outcome(state, events) is Ready,
    ensures
        ({
            let record = pair_outcome(state, events)->Ready_0;
            &&& record_accepted(record)
            &&& if state.reading {
                events[0] == PairEventView::Read(record)
            } else {
                i <= PAIR_ATTEMPTS - state.attempt && record_read_after(events, i, record)
            }
        }),
    decreases events.len(),
{
    let step = pair_step(state, events[0]);
    if step is Retry {
        let rest = events.drop_first();
        let record = pair_outcome(state, events)->Ready_0;
        let i = lemma_ready_from(pair_next(state, events[0]), rest);
        assert forall|j: int| 0 <= j < i + 1 implies (#[trigger] events[j]) is Ended && events[j]
            != good_run() by {
            if j > 0 {
                assert(events[j] == rest[j - 1]);
            }
        }
        assert(events[i + 1] == rest[i]);
        assert(events[(i + 1) + 1] == rest[i + 1]);
        i + 1
    } else if step is ReadRecord {
        let rest = events.drop_first();
        let _ = lemma_ready_from(pair_next(state, events[0]), rest);
        assert(events[0int + 1] == rest[0]);
        0
    } else {
        0
    }
}

/// A record comes only from the first run that exited with code zero, which is one of
/// the twelve, and is what was read from its file right after, if that is large enough.
pub proof fn law_record_comes_from_a_good_run(path: Seq<char>, events: Seq<PairEventView>)
    requires
        pair_answered(pair_start(path), events),
        pair_outcome(pair_start(path), events) is Ready,
    ensures
        ({
            let record = pair_outcome(pair_start(path), events)->Ready_0;
            &&& record_accepted(record)
            &&& exists|i: int| i < PAIR_ATTEMPTS && #[trigger] record_read_after(events, i, record)
        }),
{
    let i = lemma_ready_from(pair_start(path), events);
    assert(record_read_after(events, i, pair_outcome(pair_start(path), events)->Ready_0));
}

/// What the runs print.
pub open spec fn pair_said(state: PairRunsView, events: Seq<PairEventView>) -> Seq<LineView>
    decreases events.len(),
{
    if events.len() == 0 {
        Seq::empty()
    } else {
        let step = pair_step(state, events[0]);
        pair_lines(state, events[0]) + (if step is Retry || step is ReadRecord {
            pair_said(pair_next(state, events[0]), events.drop_first())
        } else {
            Seq::empty()
        })
    }
}

proof fn lemma_failed_runs_say(path: Seq<char>, events: Seq<PairEventView>, done: int, end: int)
    requires
        0 <= done <= end <= events.len(),
        end < PAIR_ATTEMPTS,
        forall|j: int|
            done <= j < end ==> (#[trigger] events[j]) is Ended && events[j] != good_run(),
    ensures
        ({
            let from = PairRunsView { attempt: (done + 1) as nat, reading: false, path };
            let to = PairRunsView { attempt: (end + 1) as nat, reading: false, path };
            let hint = if done == 0 && end > 0 {
                seq![on_stdout(PAIR_HINT@)]
            } else {
                Seq::empty()
            };
            pair_said(from, events.skip(done)) == hint + pair_said(to, events.skip(end))
        }),
    decreases end - done,
{
    let from = PairRunsView { attempt: (done + 1) as nat, reading: false, path };
    let to = PairRunsView { attempt: (end + 1) as nat, reading: false, path };
    if done < end {
        assert(events.skip(done)[0] == events[done]);
        assert(events.skip(done).drop_first() =~= events.skip(done + 1));
        lemma_failed_runs_say(path, events, done + 1, end);
        assert(pair_said(from, events.skip(done)) =~= pair_lines(from, events[done]) + pair_said(
            to,
            events.skip(end),
        ));
    } else {
        assert(pair_said(from, events.skip(done)) =~= Seq::<LineView>::empty() + pair_said(
            to,
            events.skip(end),
        ));
    }
}

/// Whichever of the twelve runs is the first to exit with code zero, the runs end with
/// what is read from its file right after: with just those bytes where there are at least
/// 64 of them, and otherwise with a failure that tells how many there are; and with the
/// reason where the file cannot be read.
pub proof fn law_file_of_the_first_good_run_is_the_record(
    path: Seq<char>,
    events: Seq<PairEventView>,
    i: int,
)
    requires
        0 <= i < 12,
        i + 1 < events.len(),
        forall|j: int| 0 <= j < i ==> (#[trigger] events[j]) is Ended && events[j] != good_run(),
        events[i] == PairEventView::Ended(HelperEndView::Exited(Some(0i32))),
    ensures
        events[i + 1] matches PairEventView::Read(bytes) ==> pair_outcome(pair_start(path), events)
            == (if bytes.len() >= 64 {
            PairStepView::Ready(bytes)
        } else {
            PairStepView::Fail(
                "Pairing Helper returned success but file is too small: "@ + digits(bytes.len())
                    + " bytes"@,
            )
        }),
        events[i + 1] matches PairEventView::Unreadable(reason) ==> pair_outcome(
            pair_start(path),
            events,
        ) == PairStepView::Fail("read generated pairing: "@ + reason),
{
    if !(events[i + 1] is Ended) {
        law_first_good_run_decides(path, events, i);
    }
}

/// The runs print a hint after the first that made no record, whatever its end, and never
/// again; and, once the record is there, its size and the path that it is kept at.
pub proof fn law_hint_is_given_once(path: Seq<char>, events: Seq<PairEventView>, i: int)
    requires
        0 <= i < 12,
        i + 1 < events.len(),
        forall|j: int| 0 <= j < i ==> (#[trigger] events[j]) is Ended && events[j] != good_run(),
        events[i] == PairEventView::Ended(HelperEndView::Exited(Some(0i32))),
        !(events[i + 1] is Ended),
    ensures
        ({
            let hint = if i > 0 {
                seq![
                    on_stdout(
                        "      尚未完成 pairing；請確認 iPhone/iPad 已解鎖並按『信任』。Setup 會自動重試。"@,
                    ),
                ]
            } else {
                Seq::empty()
            };
            pair_said(pair_start(path), events) == hint + (match events[i + 1] {
                PairEventView::Read(bytes) => if bytes.len() >= 64 {
                    seq![
                        on_stdout("      ✅ Pairing ready ("@ + digits(bytes.len()) + " bytes)"@),
                        on_stdout("      backup: "@ + path),
                    ]
                } else {
                    Seq::empty()
                },
                _ => Seq::empty(),
            })
        }),
{
    assert(events.skip(0) =~= events);
    lemma_failed_runs_say(path, events, 0, i);
    let s0 = PairRunsView { attempt: (i + 1) as nat, reading: false, path };
    let s1 = pair_next(s0, events[i]);
    let e0 = events.skip(i);
    let e1 = e0.drop_first();
    assert(e0[0] == events[i]);
    assert(e1[0] == events[i + 1]);
    assert(pair_said(s1, e1) =~= pair_lines(s1, events[i + 1]));
    assert(pair_said(s0, e0) =~= pair_said(s1, e1));
}

/// Why a run without a record made none: its exit code, as an optional number is noted,
/// or the reason that it could not be started. A run has made one exactly if it exited
/// with code zero.
pub proof fn law_failed_runs_tell_why(code: i32, reason: Seq<char>)
    ensures
        run_failure(HelperEndView::Exited(Some(code))) is None <==> code == 0,
        code != 0 ==> run_failure(HelperEndView::Exited(Some(code))) == Some(
            "Pairing Helper exit code "@ + ("Some("@ + signed_digits(code as int) + ")"@),
        ),
        run_failure(HelperEndView::Exited(None)) == Some("Pairing Helper exit code "@ + "None"@),
        run_failure(HelperEndView::NotStarted(reason)) == Some(
            "Pairing Helper could not start: "@ + reason,
        ),
{
}

/// As long as fewer than twelve runs have ended, none of them well, the helper is run
/// again, after a pause of three seconds each; the runs that are left are the same
/// whatever has failed.
pub proof fn law_failed_runs_are_repeated(path: Seq<char>, events: Seq<PairEventView>)
    requires
        events.len() < 12,
        forall|j: int|
            0 <= j < events.len() ==> (#[trigger] events[j]) is Ended && events[j] != good_run(),
    ensures
        pair_outcome(pair_start(path), events) is Retry,
        pair_paused_ms(pair_start(path), events) == events.len() * 3000,
        events.len() > 0 ==> pair_said(pair_start(path), events) == seq![on_stdout(PAIR_HINT@)],
{
    let end = events.len() as int;
    assert(events.skip(0) =~= events);
    lemma_failed_runs(path, events, 0, end);
    lemma_failed_runs_say(path, events, 0, end);
    assert(events.skip(end).len() == 0);
    if end > 0 {
        assert(pair_said(pair_start(path), events) =~= seq![on_stdout(PAIR_HINT@)]);
    }
}

/// A run that exited with code zero has its file read next, whichever run it is.
pub proof fn law_good_run_is_read(path: Seq<char>, events: Seq<PairEventView>)
    requires
        0 < events.len() <= 12,
        forall|j: int|
            0 <= j < events.len() - 1 ==> (#[trigger] events[j]) is Ended && events[j]
                != good_run(),
        events.last() == PairEventView::Ended(HelperEndView::Exited(Some(0i32))),
    ensures
        pair_outcome(pair_start(path), events) is ReadRecord,
        pair_said(pair_start(path), events) == (if events.len() > 1 {
            seq![on_stdout(PAIR_HINT@)]
        } else {
            Seq::empty()
        }),
{
    let end = events.len() - 1;
    assert(events.skip(0) =~= events);
    lemma_failed_runs(path, events, 0, end);
    assert(events.skip(end)[0] == events[end]);
    assert(events.skip(end).drop_first().len() == 0);
    reveal_with_fuel(pair_outcome, 2);
    lemma_failed_runs_say(path, events, 0, end);
    let last = PairRunsView { attempt: (end + 1) as nat, reading: false, path };
    reveal_with_fuel(pair_said, 2);
    assert(pair_said(last, events.skip(end)) =~= Seq::<LineView>::empty());
    assert(pair_said(pair_start(path), events) =~= (if events.len() > 1 {
        seq![on_stdout(PAIR_HINT@)]
    } else {
        Seq::empty()
    }));
}

/// The runs keep the path of the helper's file, whatever comes.
pub proof fn law_runs_keep_their_path(state: PairRunsView, event: PairEventView, path: Seq<char>)
    ensures
        pair_next(state, event).path == state.path,
        pair_start(path).path == path,
{
}

/// The setup calls the helper with six arguments: three options, each with its value
/// behind it.
pub proof fn law_setup_gives_the_helper_three_options(udid: Seq<char>, output: Seq<char>)
    ensures
        rendered(helper_pairs(udid, output)) == seq![
            "--udid"@,
            udid,
            "--output"@,
            output,
            "--hostname"@,
            "Pikmin Pilot Windows Setup"@,
        ],
{
    let pairs = helper_pairs(udid, output);
    reveal_with_fuel(rendered, 4);
    assert(pairs.skip(1)[0] == pairs[1]);
    assert(pairs.skip(1).skip(1)[0] == pairs[2]);
    assert(rendered(pairs) =~= seq![
        "--udid"@,
        udid,
        "--output"@,
        output,
        "--hostname"@,
        "Pikmin Pilot Windows Setup"@,
    ]);
}

/// A run can end in any way, and what is read can be anything: an end is the result of a
/// run, the rest is the result of reading.
pub proof fn law_every_result_of_a_run_fits(
    end: HelperEndView,
    bytes: Seq<u8>,
    reason: Seq<char>,
)
    ensures
        pair_fits(false, PairEventView::Ended(end)),
        pair_fits(true, PairEventView::Read(bytes)),
        pair_fits(true, PairEventView::Unreadable(reason)),
        !pair_start(Seq::empty()).reading,
{
}

/// The model of a step tells all that the step carries.
pub proof fn law_step_model_tells_all(step: PairStep)
    ensures
        step matches PairStep::Ready(record) ==> step@ == PairStepView::Ready(record@),
        step matches PairStep::Fail(message) ==> step@ == PairStepView::Fail(message@),
        step matches PairStep::GiveUp(message) ==> step@ == PairStepView::GiveUp(message@),
        step is ReadRecord <==> step@ is ReadRecord,
        step is Retry <==> step@ is Retry,
{
}

} // verus!
