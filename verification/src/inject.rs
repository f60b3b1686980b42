//! Placing the pairing record in the app's container, and reading it back.
use vstd::prelude::*;
use crate::app_info::{container_path, pairing_container_path};
use crate::console::{lines_view, on_stdout, stdout, Line, LineView};
use crate::device_error::{error_text, names};
use crate::text::{decimal, digits};

verus! {

/// How often the record is placed before the setup gives up.
pub const INJECTION_ATTEMPTS: u32 = 12;

/// The pause after a failed attempt, in milliseconds.
pub const INJECTION_PAUSE_MS: u64 = 1200;

/// Printed when the injection begins.
pub const INJECTION_HEADING: &'static str = "[4/5] 把 pairing 自動寫進 Pikmin Pilot...";

/// Printed once the app is registered, before the first attempt.
pub const INJECTION_MODE: &'static str =
    "      House Arrest mode: VendContainer → /Documents (no UIFileSharingEnabled required)";

/// What an attempt does, in this order.
#[derive(Clone, Copy, Debug, PartialEq, Eq, Structural)]
pub enum InjectWork {
    /// Connect to the house arrest service.
    Connect,
    /// Ask it for the app's container.
    Vend,
    /// Open the record's path for writing.
    OpenWrite,
    /// Write the record.
    Write,
    /// Close the written file.
    CloseWrite,
    /// Open the record's path for reading.
    OpenRead,
    /// Read it whole.
    Read,
    /// Close the read file.
    CloseRead,
}

/// How a piece of work went.
#[derive(Debug, PartialEq, Eq)]
pub enum InjectEvent {
    /// It was done.
    Done,
    /// The file was read, and holds this.
    ReadBack(Vec<u8>),
    /// It failed, for this reason.
    Failed(String),
}

/// The model of an event.
#[verifier::ext_equal]
pub enum InjectEventView {
    Done,
    ReadBack(Seq<u8>),
    Failed(Seq<char>),
}

impl View for InjectEvent {
    type V = InjectEventView;

    open spec fn view(&self) -> InjectEventView {
        match self {
            InjectEvent::Done => InjectEventView::Done,
            InjectEvent::ReadBack(bytes) => InjectEventView::ReadBack(bytes@),
            InjectEvent::Failed(text) => InjectEventView::Failed(text@),
        }
    }
}

/// What to do next.
#[derive(Debug, PartialEq, Eq)]
pub enum InjectStep {
    /// Go on with this work.
    Perform(InjectWork),
    /// Pause, and start over by connecting.
    Retry,
    /// The record is in place.
    Finished,
    /// Pause, and fail with this message.
    GiveUp(String),
}

/// The model of a step.
#[verifier::ext_equal]
pub enum InjectStepView {
    Perform(InjectWork),
    Retry,
    Finished,
    GiveUp(Seq<char>),
}

impl View for InjectStep {
    type V = InjectStepView;

    open spec fn view(&self) -> InjectStepView {
        match self {
            InjectStep::Perform(work) => InjectStepView::Perform(*work),
            InjectStep::Retry => InjectStepView::Retry,
            InjectStep::Finished => InjectStepView::Finished,
            InjectStep::GiveUp(text) => InjectStepView::GiveUp(text@),
        }
    }
}

/// The pause that a step begins with, in milliseconds.
pub open spec fn inject_pause(step: InjectStepView) -> nat {
    if step is Retry || step is GiveUp {
        INJECTION_PAUSE_MS as nat
    } else {
        0
    }
}

impl InjectStep {
    /// The pause that the step begins with, in milliseconds.
    pub fn pause_ms(&self) -> (r: u64)
        ensures
            r == inject_pause(self@),
    {
        match self {
            InjectStep::Retry | InjectStep::GiveUp(_) => INJECTION_PAUSE_MS,
            _ => 0,
        }
    }
}

/// The state of the injection: the work that is under way, in which attempt.
#[derive(Debug, PartialEq, Eq)]
pub struct Injection {
    pub pairing: Vec<u8>,
    pub attempt: u32,
    pub work: InjectWork,
    pub read_back: Vec<u8>,
}

/// The model of the injection.
#[verifier::ext_equal]
pub struct InjectionView {
    pub pairing: Seq<u8>,
    pub attempt: nat,
    pub work: InjectWork,
    pub read_back: Seq<u8>,
}

impl View for Injection {
    type V = InjectionView;

    open spec fn view(&self) -> InjectionView {
        InjectionView {
            pairing: self.pairing@,
            attempt: self.attempt as nat,
            work: self.work,
            read_back: self.read_back@,
        }
    }
}

/// The injection while its first attempt connects.
pub open spec fn injection_start(pairing: Seq<u8>) -> InjectionView {
    InjectionView { pairing, attempt: 1, work: InjectWork::Connect, read_back: Seq::empty() }
}

/// The event is one that the work under way can have.
pub open spec fn fits(work: InjectWork, event: InjectEventView) -> bool {
    match event {
        InjectEventView::Done => work != InjectWork::Read,
        InjectEventView::ReadBack(_) => work == InjectWork::Read,
        InjectEventView::Failed(_) => true,
    }
}

/// What stands before the reason when the work fails.
pub open spec fn work_label(work: InjectWork) -> Seq<char> {
    match work {
        InjectWork::Connect => "HouseArrest connect: "@,
        InjectWork::Vend => "VendContainer: "@,
        InjectWork::OpenWrite => "AFC open write: "@,
        InjectWork::Write => "AFC write: "@,
        InjectWork::CloseWrite => "AFC close/commit: "@,
        InjectWork::OpenRead => "AFC verify open: "@,
        InjectWork::Read => "AFC verify read: "@,
        InjectWork::CloseRead => "AFC verify close: "@,
    }
}

/// The work that follows in the same attempt.
pub open spec fn work_after(work: InjectWork) -> InjectWork {
    match work {
        InjectWork::Connect => InjectWork::Vend,
        InjectWork::Vend => InjectWork::OpenWrite,
        InjectWork::OpenWrite => InjectWork::Write,
        InjectWork::Write => InjectWork::CloseWrite,
        InjectWork::CloseWrite => InjectWork::OpenRead,
        InjectWork::OpenRead => InjectWork::Read,
        InjectWork::Read => InjectWork::CloseRead,
        InjectWork::CloseRead => InjectWork::CloseRead,
    }
}

/// The failure of an attempt whose read-back differs from the record.
pub open spec fn mismatch_text(wrote: nat, read: nat) -> Seq<char> {
    "pairing read-back mismatch: wrote "@ + digits(wrote) + " bytes, read "@ + digits(read)
        + " bytes"@
}

/// Why the attempt fails with this event, if it does: the work failed, or all of it
/// is done and what was read is not the record.
pub open spec fn attempt_failure(state: InjectionView, event: InjectEventView) -> Option<
    Seq<char>,
> {
    match event {
        InjectEventView::Failed(text) => Some(work_label(state.work) + text),
        _ => if state.work == InjectWork::CloseRead && state.read_back != state.pairing {
            Some(mismatch_text(state.pairing.len(), state.read_back.len()))
        } else {
            None
        },
    }
}

/// The line that reports a failed attempt; one that reached the container is said to
/// have failed.
pub open spec fn attempt_line(state: InjectionView, why: Seq<char>) -> LineView {
    let link = if state.work == InjectWork::Connect || state.work == InjectWork::Vend {
        "/12: "@
    } else {
        "/12 failed: "@
    };
    on_stdout("      ⚠ injection attempt "@ + digits(state.attempt) + link + why)
}

/// The line that reports the record in place.
pub open spec fn verified_line(pairing_len: nat) -> LineView {
    on_stdout("      ✅ "@ + container_path() + " verified ("@ + digits(pairing_len) + " bytes)"@)
}

/// The step that an event leads to.
pub open spec fn inject_step(state: InjectionView, event: InjectEventView) -> InjectStepView {
    match attempt_failure(state, event) {
        Some(why) => if state.attempt < INJECTION_ATTEMPTS {
            InjectStepView::Retry
        } else {
            InjectStepView::GiveUp("pairing injection failed after retries: "@ + why)
        },
        None => if state.work == InjectWork::CloseRead {
            InjectStepView::Finished
        } else {
            InjectStepView::Perform(work_after(state.work))
        },
    }
}

/// The injection after an event.
pub open spec fn inject_next(state: InjectionView, event: InjectEventView) -> InjectionView {
    match inject_step(state, event) {
        InjectStepView::Retry => InjectionView {
            attempt: state.attempt + 1,
            ..injection_start(state.pairing)
        },
        InjectStepView::Perform(work) => InjectionView {
            work,
            read_back: match event {
                InjectEventView::ReadBack(bytes) => bytes,
                _ => state.read_back,
            },
            ..state
        },
        _ => state,
    }
}

/// The lines that an event is reported with.
pub open spec fn inject_lines(state: InjectionView, event: InjectEventView) -> Seq<LineView> {
    match attempt_failure(state, event) {
        Some(why) => seq![attempt_line(state, why)],
        None => if state.work == InjectWork::CloseRead {
            seq![verified_line(state.pairing.len())]
        } else {
            Seq::empty()
        },
    }
}

fn same_bytes(a: &Vec<u8>, b: &Vec<u8>) -> (r: bool)
    ensures
        r == (a@ == b@),
{
    if a.len() != b.len() {
        return false;
    }
    for i in 0..a.len()
        invariant
            a@.len() == b@.len(),
            forall|k: int| 0 <= k < i ==> a@[k] == b@[k],
    {
        if a[i] != b[i] {
            return false;
        }
    }
    assert(a@ =~= b@);
    true
}

fn label(work: InjectWork) -> (r: String)
    ensures
        r@ == work_label(work),
{
    match work {
        InjectWork::Connect => "HouseArrest connect: ".to_string(),
        InjectWork::Vend => "VendContainer: ".to_string(),
        InjectWork::OpenWrite => "AFC open write: ".to_string(),
        InjectWork::Write => "AFC write: ".to_string(),
        InjectWork::CloseWrite => "AFC close/commit: ".to_string(),
        InjectWork::OpenRead => "AFC verify open: ".to_string(),
        InjectWork::Read => "AFC verify read: ".to_string(),
        InjectWork::CloseRead => "AFC verify close: ".to_string(),
    }
}

fn next_work(work: InjectWork) -> (r: InjectWork)
    ensures
        r == work_after(work),
{
    match work {
        InjectWork::Connect => InjectWork::Vend,
        InjectWork::Vend => InjectWork::OpenWrite,
        InjectWork::OpenWrite => InjectWork::Write,
        InjectWork::Write => InjectWork::CloseWrite,
        InjectWork::CloseWrite => InjectWork::OpenRead,
        InjectWork::OpenRead => InjectWork::Read,
        InjectWork::Read => InjectWork::CloseRead,
        InjectWork::CloseRead => InjectWork::CloseRead,
    }
}

/// The event of work that failed with this error. The reason is the error's text,
/// which names the error.
pub fn injection_failed(error: &idevice::IdeviceError) -> (event: InjectEvent)
    ensures
        event matches InjectEvent::Failed(text) && names(text@, *error),
{
    InjectEvent::Failed(error_text(error))
}

impl Injection {
    /// The attempt is one of those allowed.
    pub open spec fn wf(&self) -> bool {
        1 <= self.attempt <= INJECTION_ATTEMPTS
    }

    /// The injection while its first attempt connects.
    pub fn new(pairing: Vec<u8>) -> (r: Injection)
        ensures
            r.wf(),
            r.pairing@ == pairing@,
            r@ == injection_start(pairing@),
    {
        Injection { pairing, attempt: 1, work: InjectWork::Connect, read_back: Vec::new() }
    }

    fn failure(&self, event: &InjectEvent) -> (r: Option<String>)
        ensures
            (match r {
                Some(text) => Some(text@),
                None => None::<Seq<char>>,
            }) == attempt_failure(self@, event@),
    {
        match event {
            InjectEvent::Failed(text) => Some(label(self.work).concat(text.as_str())),
            _ => if self.work == InjectWork::CloseRead && !same_bytes(
                &self.read_back,
                &self.pairing,
            ) {
                let wrote = decimal(self.pairing.len() as u64);
                let read = decimal(self.read_back.len() as u64);
                Some(
                    "pairing read-back mismatch: wrote ".to_string().concat(
                        wrote.as_str(),
                    ).concat(" bytes, read ").concat(read.as_str()).concat(" bytes"),
                )
            } else {
                None
            },
        }
    }

    fn failure_line(&self, why: &String) -> (r: Line)
        ensures
            r@ == attempt_line(self@, why@),
    {
        let link = if self.work == InjectWork::Connect || self.work == InjectWork::Vend {
            "/12: "
        } else {
            "/12 failed: "
        };
        let attempt = decimal(self.attempt as u64);
        stdout(
            "      ⚠ injection attempt ".to_string().concat(attempt.as_str()).concat(link).concat(
                why.as_str(),
            ),
        )
    }

    fn success_line(&self) -> (r: Line)
        ensures
            r@ == verified_line(self@.pairing.len()),
    {
        let path = pairing_container_path();
        let count = decimal(self.pairing.len() as u64);
        stdout(
            "      ✅ ".to_string().concat(path.as_str()).concat(" verified (").concat(
                count.as_str(),
            ).concat(" bytes)"),
        )
    }

    /// Takes the result of the work under way; reports it, and says what to do next.
    pub fn inject_pairing(&mut self, event: InjectEvent) -> (r: (Vec<Line>, InjectStep))
        requires
            old(self).wf(),
            fits(old(self).work, event@),
        ensures
            final(self).wf(),
            final(self).pairing@ == old(self).pairing@,
            final(self)@ == inject_next(old(self)@, event@),
            lines_view(r.0@) == inject_lines(old(self)@, event@),
            r.1@ == inject_step(old(self)@, event@),
    {
        let mut lines: Vec<Line> = Vec::new();
        if let Some(why) = self.failure(&event) {
            lines.push(self.failure_line(&why));
            assert(lines_view(lines@) =~= inject_lines(self@, event@));
            if self.attempt < INJECTION_ATTEMPTS {
                self.attempt = self.attempt + 1;
                self.work = InjectWork::Connect;
                self.read_back = Vec::new();
                return (lines, InjectStep::Retry);
            }
            return (
                lines,
                InjectStep::GiveUp(
                    "pairing injection failed after retries: ".to_string().concat(why.as_str()),
                ),
            );
        }
        if self.work == InjectWork::CloseRead {
            lines.push(self.success_line());
            assert(lines_view(lines@) =~= inject_lines(self@, event@));
            return (lines, InjectStep::Finished);
        }
        assert(lines_view(lines@) =~= inject_lines(self@, event@));
        if let InjectEvent::ReadBack(bytes) = event {
            self.read_back = bytes;
        }
        self.work = next_work(self.work);
        (lines, InjectStep::Perform(self.work))
    }
}

/// The events are ones that the injection can have, in turn, up to its end.
pub open spec fn answered(state: InjectionView, events: Seq<InjectEventView>) -> bool
    decreases events.len(),
{
    events.len() == 0 || {
        &&& fits(state.work, events[0])
        &&& match inject_step(state, events[0]) {
            InjectStepView::Finished => true,
            InjectStepView::GiveUp(_) => true,
            _ => answered(inject_next(state, events[0]), events.drop_first()),
        }
    }
}

/// Where these events lead: the end of the injection, or the last step before they
/// run out.
pub open spec fn inject_run(state: InjectionView, events: Seq<InjectEventView>) -> InjectStepView
    decreases events.len(),
{
    if events.len() == 0 {
        InjectStepView::Perform(state.work)
    } else {
        match inject_step(state, events[0]) {
            InjectStepView::Finished => InjectStepView::Finished,
            InjectStepView::GiveUp(text) => InjectStepView::GiveUp(text),
            _ => inject_run(inject_next(state, events[0]), events.drop_first()),
        }
    }
}

/// The failures of the attempts that these events end.
pub open spec fn inject_failures(state: InjectionView, events: Seq<InjectEventView>) -> Seq<
    Seq<char>,
>
    decreases events.len(),
{
    if events.len() == 0 {
        Seq::empty()
    } else {
        let here = match attempt_failure(state, events[0]) {
            Some(why) => seq![why],
            None => Seq::empty(),
        };
        match inject_step(state, events[0]) {
            InjectStepView::Finished => here,
            InjectStepView::GiveUp(_) => here,
            _ => here + inject_failures(inject_next(state, events[0]), events.drop_first()),
        }
    }
}

/// The time that the injection spends pausing, in milliseconds.
pub open spec fn inject_paused_ms(state: InjectionView, events: Seq<InjectEventView>) -> nat
    decreases events.len(),
{
    if events.len() == 0 {
        0
    } else {
        let step = inject_step(state, events[0]);
        inject_pause(step) + (if step is Retry || step is Perform {
            inject_paused_ms(inject_next(state, events[0]), events.drop_first())
        } else {
            0
        })
    }
}

/// How many of these events the injection takes: all of them, or those up to its end.
pub open spec fn inject_taken(state: InjectionView, events: Seq<InjectEventView>) -> nat
    decreases events.len(),
{
    if events.len() == 0 {
        0
    } else {
        match inject_step(state, events[0]) {
            InjectStepView::Finished => 1,
            InjectStepView::GiveUp(_) => 1,
            _ => 1 + inject_taken(inject_next(state, events[0]), events.drop_first()),
        }
    }
}

/// The events of an attempt in which all goes well, but perhaps for what is read.
pub open spec fn clean_attempt(read: Seq<u8>) -> Seq<InjectEventView> {
    seq![
        InjectEventView::Done,
        InjectEventView::Done,
        InjectEventView::Done,
        InjectEventView::Done,
        InjectEventView::Done,
        InjectEventView::Done,
        InjectEventView::ReadBack(read),
        InjectEventView::Done,
    ]
}

/// How much of an attempt is done when it comes to this work.
spec fn work_index(work: InjectWork) -> int {
    match work {
        InjectWork::Connect => 0,
        InjectWork::Vend => 1,
        InjectWork::OpenWrite => 2,
        InjectWork::Write => 3,
        InjectWork::CloseWrite => 4,
        InjectWork::OpenRead => 5,
        InjectWork::Read => 6,
        InjectWork::CloseRead => 7,
    }
}

/// The events of the attempt under way.
spec fn under_way(state: InjectionView) -> Seq<InjectEventView> {
    clean_attempt(state.read_back).take(work_index(state.work))
}

proof fn lemma_under_way(state: InjectionView, event: InjectEventView)
    requires
        fits(state.work, event),
    ensures
        inject_step(state, event) is Perform ==> under_way(inject_next(state, event))
            == under_way(state).push(event),
        inject_step(state, event) is Retry ==> under_way(inject_next(state, event)).len() == 0,
        inject_step(state, event) is Finished ==> under_way(state).push(event) == clean_attempt(
            state.pairing,
        ),
        attempt_failure(state, event) is Some ==> failed_attempt(
            state.pairing,
            under_way(state).push(event),
        ),
{
    let done = under_way(state);
    if inject_step(state, event) is Perform {
        assert(under_way(inject_next(state, event)) =~= done.push(event));
    }
    if inject_step(state, event) is Finished {
        assert(done.push(event) =~= clean_attempt(state.pairing));
    }
    if attempt_failure(state, event) is Some {
        if event is Failed {
            assert(done.push(event).drop_last() =~= done);
            assert(done.is_prefix_of(clean_attempt(state.read_back)));
        } else {
            assert(done.push(event) =~= clean_attempt(state.read_back));
        }
    }
}

proof fn lemma_finished_from(state: InjectionView, events: Seq<InjectEventView>)
    requires
        answered(state, events),
        inject_run(state, events) is Finished,
    ensures
        ({
            let all = under_way(state) + events;
            let end = under_way(state).len() + inject_taken(state, events);
            &&& 8 <= end <= all.len()
            &&& all.subrange(end - 8, end as int) == clean_attempt(state.pairing)
        }),
    decreases events.len(),
{
    let event = events[0];
    let rest = events.drop_first();
    let done = under_way(state);
    let all = done + events;
    let end = done.len() + inject_taken(state, events);
    lemma_under_way(state, event);
    match inject_step(state, event) {
        InjectStepView::Finished => {
            assert(all.subrange(end - 8, end as int) =~= done.push(event));
        },
        InjectStepView::GiveUp(_) => {},
        InjectStepView::Retry => {
            let next = inject_next(state, event);
            let taken = inject_taken(next, rest);
            lemma_finished_from(next, rest);
            assert(under_way(next) + rest =~= rest);
            assert(all.subrange(end - 8, end as int) =~= rest.subrange(taken - 8, taken as int));
        },
        InjectStepView::Perform(_) => {
            let next = inject_next(state, event);
            lemma_finished_from(next, rest);
            assert(under_way(next) + rest =~= all);
        },
    }
}

/// The injection finishes only at the end of an attempt in which all went well: the
/// last events are those of connecting, writing and closing, and then of reading the
/// record back, byte for byte.
pub proof fn law_finished_means_read_back(pairing: Seq<u8>, events: Seq<InjectEventView>)
    requires
        answered(injection_start(pairing), events),
        inject_run(injection_start(pairing), events) is Finished,
    ensures
        ({
            let end = inject_taken(injection_start(pairing), events);
            &&& 8 <= end <= events.len()
            &&& events.subrange(end - 8, end as int) == clean_attempt(pairing)
        }),
{
    let start = injection_start(pairing);
    lemma_finished_from(start, events);
    assert(under_way(start) + events =~= events);
}

proof fn lemma_attempts_from(state: InjectionView, events: Seq<InjectEventView>)
    requires
        1 <= state.attempt <= INJECTION_ATTEMPTS,
    ensures
        inject_failures(state, events).len() <= INJECTION_ATTEMPTS - state.attempt + 1,
        inject_run(state, events) is GiveUp <==> inject_failures(state, events).len()
            == INJECTION_ATTEMPTS - state.attempt + 1,
        inject_run(state, events) matches InjectStepView::GiveUp(text) ==> text
            == "pairing injection failed after retries: "@ + inject_failures(state, events).last(),
        inject_paused_ms(state, events) == 1200 * inject_failures(state, events).len(),
    decreases events.len(),
{
    if events.len() > 0 {
        match inject_step(state, events[0]) {
            InjectStepView::Finished => {},
            InjectStepView::GiveUp(_) => {},
            _ => {
                lemma_attempts_from(inject_next(state, events[0]), events.drop_first());
            },
        }
    }
}

/// The injection gives up exactly when twelve attempts have failed, and then names
/// the last failure. There is a pause of 1.2 seconds after each failed attempt.
pub proof fn law_injection_gives_up_after_twelve_failures(
    pairing: Seq<u8>,
    events: Seq<InjectEventView>,
)
    ensures
        ({
            let failures = inject_failures(injection_start(pairing), events);
            let end = inject_run(injection_start(pairing), events);
            &&& failures.len() <= 12
            &&& end is GiveUp <==> failures.len() == 12
            &&& end matches InjectStepView::GiveUp(text) ==> text
                == "pairing injection failed after retries: "@ + failures.last()
            &&& inject_paused_ms(injection_start(pairing), events) == 1200 * failures.len()
        }),
{
    lemma_attempts_from(injection_start(pairing), events);
}

/// An attempt in which all goes well finishes the injection, whichever attempt it is.
pub proof fn law_clean_attempt_finishes(pairing: Seq<u8>, attempt: nat)
    requires
        1 <= attempt <= INJECTION_ATTEMPTS,
    ensures
        inject_run(
            InjectionView { attempt, ..injection_start(pairing) },
            clean_attempt(pairing),
        ) is Finished,
{
    let e0 = clean_attempt(pairing);
    let e1 = e0.drop_first();
    let e2 = e1.drop_first();
    let e3 = e2.drop_first();
    let e4 = e3.drop_first();
    let e5 = e4.drop_first();
    let e6 = e5.drop_first();
    let e7 = e6.drop_first();
    assert(e1[0] == e0[1] && e2[0] == e0[2] && e3[0] == e0[3] && e4[0] == e0[4]);
    assert(e5[0] == e0[5] && e6[0] == e0[6] && e7[0] == e0[7]);
    reveal_with_fuel(inject_run, 9);
}

/// The events of an attempt that fails: those of one in which all goes well, cut off by
/// a failure; or all of them, with something else than the record read back.
pub open spec fn failed_attempt(pairing: Seq<u8>, events: Seq<InjectEventView>) -> bool {
    ||| {
        &&& 0 < events.len() <= 8
        &&& events.last() is Failed
        &&& exists|read: Seq<u8>| events.drop_last().is_prefix_of(#[trigger] clean_attempt(read))
    }
    ||| exists|read: Seq<u8>| read != pairing && events == #[trigger] clean_attempt(read)
}

/// The events of each attempt that these events end; `begun` are those of the attempt
/// under way.
pub open spec fn inject_attempts(
    state: InjectionView,
    begun: Seq<InjectEventView>,
    events: Seq<InjectEventView>,
) -> Seq<Seq<InjectEventView>>
    decreases events.len(),
{
    if events.len() == 0 {
        Seq::empty()
    } else {
        let here = begun.push(events[0]);
        match inject_step(state, events[0]) {
            InjectStepView::Finished => seq![here],
            InjectStepView::GiveUp(_) => seq![here],
            InjectStepView::Retry => seq![here] + inject_attempts(
                inject_next(state, events[0]),
                Seq::empty(),
                events.drop_first(),
            ),
            InjectStepView::Perform(_) => inject_attempts(
                inject_next(state, events[0]),
                here,
                events.drop_first(),
            ),
        }
    }
}

/// An attempt that fails is not one in which all goes well.
pub proof fn law_failed_attempt_is_not_clean(pairing: Seq<u8>, events: Seq<InjectEventView>)
    requires
        failed_attempt(pairing, events),
    ensures
        events != clean_attempt(pairing),
{
    if events == clean_attempt(pairing) {
        assert(events.last() == InjectEventView::Done);
        let read = choose|read: Seq<u8>|
            read != pairing && events == #[trigger] clean_attempt(read);
        assert(clean_attempt(read)[6] == clean_attempt(pairing)[6]);
    }
}

proof fn lemma_attempts_split(state: InjectionView, events: Seq<InjectEventView>)
    requires
        1 <= state.attempt <= INJECTION_ATTEMPTS,
        answered(state, events),
    ensures
        ({
            let attempts = inject_attempts(state, under_way(state), events);
            let end = inject_run(state, events);
            let left = INJECTION_ATTEMPTS - state.attempt + 1;
            &&& attempts.len() <= left
            &&& attempts.flatten().is_prefix_of(under_way(state) + events)
            &&& end is Finished || end is GiveUp ==> attempts.len() > 0 && attempts.flatten().len()
                == under_way(state).len() + inject_taken(state, events)
            &&& end is Finished ==> attempts.last() == clean_attempt(state.pairing)
            &&& inject_paused_ms(state, events) == 1200 * (attempts.len() - (if end is Finished {
                1int
            } else {
                0
            }))
            &&& end is GiveUp <==> attempts.len() == left && !(end is Finished)
            &&& forall|i: int|
                0 <= i < attempts.len() && !(end is Finished && i == attempts.len() - 1)
                    ==> failed_attempt(state.pairing, #[trigger] attempts[i])
        }),
    decreases events.len(),
{
    reveal_with_fuel(Seq::flatten, 3);
    let done = under_way(state);
    let attempts = inject_attempts(state, done, events);
    if events.len() == 0 {
        assert(attempts.flatten() =~= Seq::empty());
    } else {
        let event = events[0];
        let rest = events.drop_first();
        let here = done.push(event);
        let next = inject_next(state, event);
        lemma_under_way(state, event);
        match inject_step(state, event) {
            InjectStepView::Perform(_) => {
                lemma_attempts_split(next, rest);
                assert(here + rest =~= done + events);
            },
            InjectStepView::Retry => {
                lemma_attempts_split(next, rest);
                assert(under_way(next) =~= Seq::empty());
                assert(under_way(next) + rest =~= rest);
                let after = inject_attempts(next, Seq::empty(), rest);
                assert(attempts =~= seq![here] + after);
                assert(attempts.drop_first() =~= after);
                assert(attempts.flatten() == here + after.flatten());
                assert(attempts.flatten().is_prefix_of(done + events));
                assert forall|i: int|
                    0 <= i < attempts.len() && !(inject_run(state, events) is Finished && i
                        == attempts.len() - 1) implies failed_attempt(
                    state.pairing,
                    #[trigger] attempts[i],
                ) by {
                    if i > 0 {
                        assert(attempts[i] == after[i - 1]);
                    }
                }
            },
            _ => {
                assert(attempts.drop_first() =~= Seq::empty());
                assert(attempts.flatten() =~= here);
            },
        }
    }
}

/// The injection makes at most twelve attempts, one after the other. It finishes if and
/// only if all goes well in one of them, and at the end of the first such one: every
/// attempt before it, and every one of an injection that does not finish, has failed.
/// There is a pause of 1.2 seconds after each attempt that failed.
pub proof fn law_injection_finishes_at_the_first_clean_attempt(
    pairing: Seq<u8>,
    events: Seq<InjectEventView>,
)
    requires
        answered(injection_start(pairing), events),
    ensures
        ({
            let start = injection_start(pairing);
            let attempts = inject_attempts(start, Seq::empty(), events);
            let end = inject_run(start, events);
            &&& attempts.len() <= 12
            &&& attempts.flatten().is_prefix_of(events)
            &&& end is Finished || end is GiveUp ==> attempts.flatten() == events.take(
                inject_taken(start, events) as int,
            )
            &&& end is Finished <==> attempts.contains(clean_attempt(pairing))
            &&& end is Finished ==> attempts.last() == clean_attempt(pairing) && forall|i: int|
                0 <= i < attempts.len() - 1 ==> failed_attempt(pairing, #[trigger] attempts[i])
            &&& !(end is Finished) ==> forall|i: int|
                0 <= i < attempts.len() ==> failed_attempt(pairing, #[trigger] attempts[i])
            &&& inject_paused_ms(start, events) == 1200 * (attempts.len() - (if end is Finished {
                1int
            } else {
                0
            }))
            &&& end is GiveUp <==> attempts.len() == 12 && !attempts.contains(
                clean_attempt(pairing),
            )
        }),
{
    let start = injection_start(pairing);
    let attempts = inject_attempts(start, Seq::empty(), events);
    let end = inject_run(start, events);
    assert(under_way(start) =~= Seq::empty());
    assert(under_way(start) + events =~= events);
    lemma_attempts_split(start, events);
    if end is Finished {
        assert(attempts[attempts.len() - 1] == clean_attempt(pairing));
    } else if attempts.contains(clean_attempt(pairing)) {
        let i = choose|i: int| 0 <= i < attempts.len() && attempts[i] == clean_attempt(pairing);
        law_failed_attempt_is_not_clean(pairing, attempts[i]);
    }
    if end is Finished || end is GiveUp {
        assert(attempts.flatten() =~= events.take(inject_taken(start, events) as int));
    }
}

/// The works of an attempt, in their order: the record is written to the open file before
/// that is closed, and read from the file once that is open again.
pub open spec fn works_in_order() -> Seq<InjectWork> {
    seq![
        InjectWork::Connect,
        InjectWork::Vend,
        InjectWork::OpenWrite,
        InjectWork::Write,
        InjectWork::CloseWrite,
        InjectWork::OpenRead,
        InjectWork::Read,
        InjectWork::CloseRead,
    ]
}

/// The works that are asked for: the event at place `i` is the result of the one at place
/// `i`.
pub open spec fn inject_works(state: InjectionView, events: Seq<InjectEventView>) -> Seq<
    InjectWork,
>
    decreases events.len(),
{
    if events.len() == 0 {
        Seq::empty()
    } else {
        let step = inject_step(state, events[0]);
        seq![state.work] + (if step is Retry || step is Perform {
            inject_works(inject_next(state, events[0]), events.drop_first())
        } else {
            Seq::empty()
        })
    }
}

/// The works of attempts that have these events.
pub open spec fn works_of(attempts: Seq<Seq<InjectEventView>>) -> Seq<InjectWork>
    decreases attempts.len(),
{
    if attempts.len() == 0 {
        Seq::empty()
    } else {
        works_in_order().take(attempts[0].len() as int) + works_of(attempts.drop_first())
    }
}

/// How many of these events are of the attempt under way when they run out.
pub open spec fn events_left(
    state: InjectionView,
    begun: nat,
    events: Seq<InjectEventView>,
) -> nat
    decreases events.len(),
{
    if events.len() == 0 {
        begun
    } else {
        match inject_step(state, events[0]) {
            InjectStepView::Finished => 0,
            InjectStepView::GiveUp(_) => 0,
            InjectStepView::Retry => events_left(
                inject_next(state, events[0]),
                0,
                events.drop_first(),
            ),
            InjectStepView::Perform(_) => events_left(
                inject_next(state, events[0]),
                begun + 1,
                events.drop_first(),
            ),
        }
    }
}

proof fn lemma_works_from(state: InjectionView, events: Seq<InjectEventView>)
    requires
        answered(state, events),
    ensures
        ({
            let begun = work_index(state.work);
            let attempts = inject_attempts(state, under_way(state), events);
            let left = events_left(state, begun as nat, events);
            &&& left <= 7
            &&& works_in_order().take(begun) + inject_works(state, events) == works_of(attempts)
                + works_in_order().take(left as int)
        }),
    decreases events.len(),
{
    let begun = work_index(state.work);
    let order = works_in_order();
    let attempts = inject_attempts(state, under_way(state), events);
    let left = events_left(state, begun as nat, events);
    assert(order[begun] == state.work);
    assert(order.take(begun).push(state.work) =~= order.take(begun + 1));
    if events.len() == 0 {
        assert(order.take(begun) + inject_works(state, events) =~= works_of(attempts) + order.take(
            left as int,
        ));
    } else {
        let event = events[0];
        let rest = events.drop_first();
        let next = inject_next(state, event);
        let here = under_way(state).push(event);
        lemma_under_way(state, event);
        assert(here.len() == begun + 1);
        match inject_step(state, event) {
            InjectStepView::Perform(_) => {
                lemma_works_from(next, rest);
                assert(order.take(begun) + inject_works(state, events) =~= order.take(begun + 1)
                    + inject_works(next, rest));
            },
            InjectStepView::Retry => {
                lemma_works_from(next, rest);
                assert(under_way(next) =~= Seq::empty());
                let after = inject_attempts(next, Seq::empty(), rest);
                assert(attempts =~= seq![here] + after);
                assert(attempts.drop_first() =~= after);
                assert(order.take(0) + inject_works(next, rest) =~= inject_works(next, rest));
                assert(order.take(begun) + inject_works(state, events) =~= order.take(begun + 1)
                    + (works_of(after) + order.take(left as int)));
                assert(works_of(attempts) == order.take(begun + 1) + works_of(after));
                assert(order.take(begun) + inject_works(state, events) =~= works_of(attempts)
                    + order.take(left as int));
            },
            _ => {
                assert(attempts.drop_first() =~= Seq::empty());
                assert(works_of(attempts.drop_first()) =~= Seq::empty());
                assert(inject_works(state, events) =~= seq![state.work]);
                assert(order.take(begun) + inject_works(state, events) =~= works_of(attempts)
                    + order.take(left as int));
            },
        }
    }
}

/// Every attempt asks for its works in one order, whatever the record and whichever
/// attempt it is: connect, vend, open for writing, write, close, open for reading, read,
/// close. It asks for as many as it has events, and the next attempt starts over.
pub proof fn law_attempts_do_their_works_in_order(
    pairing: Seq<u8>,
    events: Seq<InjectEventView>,
)
    requires
        answered(injection_start(pairing), events),
    ensures
        ({
            let start = injection_start(pairing);
            let attempts = inject_attempts(start, Seq::empty(), events);
            let left = events_left(start, 0, events);
            &&& left <= 7
            &&& inject_works(start, events) == works_of(attempts) + works_in_order().take(
                left as int,
            )
        }),
{
    let start = injection_start(pairing);
    assert(under_way(start) =~= Seq::empty());
    lemma_works_from(start, events);
    assert(works_in_order().take(0) + inject_works(start, events) =~= inject_works(start, events));
}

/// In an attempt in which nothing fails the works are asked for in their order, for every
/// record, for every attempt, and whatever is read back: from the first attempt on, the
/// result of each work but the last brings the next.
pub proof fn law_clean_attempt_asks_for_every_work(
    pairing: Seq<u8>,
    attempt: nat,
    read: Seq<u8>,
    k: int,
)
    requires
        1 <= attempt <= 12,
        0 <= k < 8,
    ensures
        ({
            let start = InjectionView { attempt, ..injection_start(pairing) };
            &&& inject_works(start, clean_attempt(read)) == works_in_order()
            &&& inject_run(start, clean_attempt(read).take(k)) == InjectStepView::Perform(
                works_in_order()[k],
            )
        }),
{
    let start = InjectionView { attempt, ..injection_start(pairing) };
    let e0 = clean_attempt(read);
    let e1 = e0.drop_first();
    let e2 = e1.drop_first();
    let e3 = e2.drop_first();
    let e4 = e3.drop_first();
    let e5 = e4.drop_first();
    let e6 = e5.drop_first();
    let e7 = e6.drop_first();
    assert(e1[0] == e0[1] && e2[0] == e0[2] && e3[0] == e0[3] && e4[0] == e0[4]);
    assert(e5[0] == e0[5] && e6[0] == e0[6] && e7[0] == e0[7]);
    reveal_with_fuel(inject_works, 9);
    assert(inject_works(start, e0) =~= works_in_order());
    lemma_part_of_a_clean_attempt(start, read, k);
}

proof fn lemma_part_of_a_clean_attempt(state: InjectionView, read: Seq<u8>, end: int)
    requires
        work_index(state.work) <= end < 8,
    ensures
        inject_run(state, clean_attempt(read).subrange(work_index(state.work), end))
            == InjectStepView::Perform(works_in_order()[end]),
    decreases end - work_index(state.work),
{
    let at = work_index(state.work);
    let events = clean_attempt(read).subrange(at, end);
    if at < end {
        let next = inject_next(state, events[0]);
        assert(events[0] == clean_attempt(read)[at]);
        assert(events.drop_first() =~= clean_attempt(read).subrange(at + 1, end));
        lemma_part_of_a_clean_attempt(next, read, end);
    }
}

/// The injection holds on to its record, and is at the work that it asks for. A new
/// attempt remembers nothing of what was read.
pub proof fn law_injection_keeps_its_record(
    state: InjectionView,
    event: InjectEventView,
    pairing: Seq<u8>,
)
    ensures
        injection_start(pairing).pairing == pairing,
        injection_start(pairing).work == InjectWork::Connect,
        inject_next(state, event).pairing == state.pairing,
        inject_step(state, event) matches InjectStepView::Perform(work) ==> {
            &&& inject_next(state, event).work == work
            &&& inject_next(state, event).attempt == state.attempt
        },
        inject_step(state, event) is Retry ==> inject_next(state, event) == (InjectionView {
            pairing: state.pairing,
            attempt: state.attempt + 1,
            work: InjectWork::Connect,
            read_back: Seq::empty(),
        }),
{
}

/// What stands before the reason where an attempt fails at its first work, its second, and
/// so on.
pub open spec fn failure_labels() -> Seq<Seq<char>> {
    seq![
        "HouseArrest connect: "@,
        "VendContainer: "@,
        "AFC open write: "@,
        "AFC write: "@,
        "AFC close/commit: "@,
        "AFC verify open: "@,
        "AFC verify read: "@,
        "AFC verify close: "@,
    ]
}

/// Why an attempt with these events has failed: the last work's label and its reason; or
/// the two sizes, where all the works were done.
pub open spec fn failure_of(pairing: Seq<u8>, attempt: Seq<InjectEventView>) -> Seq<char> {
    match attempt.last() {
        InjectEventView::Failed(reason) => failure_labels()[attempt.len() - 1] + reason,
        _ => "pairing read-back mismatch: wrote "@ + digits(pairing.len()) + " bytes, read "@
            + digits(attempt[6]->ReadBack_0.len()) + " bytes"@,
    }
}

/// The line that reports that the attempt of this number, with these events, has failed.
pub open spec fn failure_report(
    pairing: Seq<u8>,
    number: nat,
    attempt: Seq<InjectEventView>,
) -> LineView {
    on_stdout(
        "      ⚠ injection attempt "@ + digits(number) + (if attempt.len() <= 2 {
            "/12: "@
        } else {
            "/12 failed: "@
        }) + failure_of(pairing, attempt),
    )
}

/// What the injection prints.
pub open spec fn inject_said(state: InjectionView, events: Seq<InjectEventView>) -> Seq<LineView>
    decreases events.len(),
{
    if events.len() == 0 {
        Seq::empty()
    } else {
        let step = inject_step(state, events[0]);
        inject_lines(state, events[0]) + (if step is Retry || step is Perform {
            inject_said(inject_next(state, events[0]), events.drop_first())
        } else {
            Seq::empty()
        })
    }
}

proof fn lemma_failure_told(state: InjectionView, event: InjectEventView)
    requires
        fits(state.work, event),
    ensures
        attempt_failure(state, event) matches Some(why) ==> {
            let attempt = under_way(state).push(event);
            &&& why == failure_of(state.pairing, attempt)
            &&& attempt_line(state, why) == failure_report(state.pairing, state.attempt, attempt)
        },
{
    if attempt_failure(state, event) is Some {
        let attempt = under_way(state).push(event);
        assert(attempt.last() == event);
        assert(attempt.len() == work_index(state.work) + 1);
        if !(event is Failed) {
            assert(attempt[6] == InjectEventView::ReadBack(state.read_back));
        }
    }
}

proof fn lemma_said_from(state: InjectionView, events: Seq<InjectEventView>)
    requires
        answered(state, events),
    ensures
        ({
            let attempts = inject_attempts(state, under_way(state), events);
            let failures = inject_failures(state, events);
            let said = inject_said(state, events);
            let finished = inject_run(state, events) is Finished;
            let failed = attempts.len() - (if finished {
                1int
            } else {
                0
            });
            &&& said.len() == attempts.len()
            &&& failures.len() == failed
            &&& forall|i: int|
                0 <= i < failed ==> #[trigger] failures[i] == failure_of(state.pairing, attempts[i])
            &&& forall|i: int|
                0 <= i < failed ==> #[trigger] said[i] == failure_report(
                    state.pairing,
                    (state.attempt + i) as nat,
                    attempts[i],
                )
            &&& finished ==> said.len() > 0 && said.last() == on_stdout(
                "      ✅ "@ + container_path() + " verified ("@ + digits(state.pairing.len())
                    + " bytes)"@,
            )
        }),
    decreases events.len(),
{
    if events.len() > 0 {
        let event = events[0];
        let rest = events.drop_first();
        let next = inject_next(state, event);
        let here = under_way(state).push(event);
        let attempts = inject_attempts(state, under_way(state), events);
        let failures = inject_failures(state, events);
        let said = inject_said(state, events);
        lemma_under_way(state, event);
        lemma_failure_told(state, event);
        match inject_step(state, event) {
            InjectStepView::Perform(_) => {
                lemma_said_from(next, rest);
                assert(said =~= inject_said(next, rest));
                assert(failures =~= inject_failures(next, rest));
            },
            InjectStepView::Retry => {
                lemma_said_from(next, rest);
                assert(under_way(next) =~= Seq::empty());
                let after = inject_attempts(next, Seq::empty(), rest);
                assert(attempts =~= seq![here] + after);
                assert(said =~= inject_lines(state, event) + inject_said(next, rest));
                assert(failures.skip(1) =~= inject_failures(next, rest));
                assert forall|i: int| 0 < i < failures.len() implies #[trigger] failures[i]
                    == failure_of(state.pairing, attempts[i]) by {
                    assert(failures[i] == inject_failures(next, rest)[i - 1]);
                    assert(attempts[i] == after[i - 1]);
                }
                assert forall|i: int| 0 < i < failures.len() implies #[trigger] said[i]
                    == failure_report(
                    state.pairing,
                    (state.attempt + i) as nat,
                    attempts[i],
                ) by {
                    assert(said[i] == inject_said(next, rest)[i - 1]);
                    assert(attempts[i] == after[i - 1]);
                }
            },
            _ => {
                assert(said =~= inject_lines(state, event));
            },
        }
    }
}

/// Each failed attempt is reported by one line, which tells its number and why it failed;
/// a record in place is reported by a line that tells its path and its size. Nothing else
/// is printed. Where the injection gives up, its message is the last failure's.
pub proof fn law_every_attempt_is_reported(pairing: Seq<u8>, events: Seq<InjectEventView>)
    requires
        answered(injection_start(pairing), events),
    ensures
        ({
            let start = injection_start(pairing);
            let attempts = inject_attempts(start, Seq::empty(), events);
            let said = inject_said(start, events);
            let end = inject_run(start, events);
            let failed = attempts.len() - (if end is Finished {
                1int
            } else {
                0
            });
            &&& said.len() == attempts.len()
            &&& forall|i: int|
                0 <= i < failed ==> #[trigger] said[i] == failure_report(
                    pairing,
                    (i + 1) as nat,
                    attempts[i],
                )
            &&& end is Finished ==> said.last() == on_stdout(
                "      ✅ /Documents/rp_pairing_file.plist verified ("@ + digits(pairing.len())
                    + " bytes)"@,
            )
            &&& end matches InjectStepView::GiveUp(message) ==> message
                == "pairing injection failed after retries: "@ + failure_of(
                pairing,
                attempts.last(),
            )
        }),
{
    let start = injection_start(pairing);
    assert(under_way(start) =~= Seq::empty());
    lemma_said_from(start, events);
    lemma_attempts_from(start, events);
    lemma_attempts_split(start, events);
    reveal_strlit("      ✅ ");
    reveal_strlit("/Documents/");
    reveal_strlit("rp_pairing_file.plist");
    reveal_strlit(" verified (");
    reveal_strlit("      ✅ /Documents/rp_pairing_file.plist verified (");
    assert("      ✅ "@ + container_path() + " verified ("@
        =~= "      ✅ /Documents/rp_pairing_file.plist verified ("@);
}

/// Every work can fail, and every work but the reading can be done; only the reading
/// brings bytes, and any bytes.
pub proof fn law_every_result_of_a_work_fits(work: InjectWork, read: Seq<u8>, reason: Seq<char>)
    ensures
        fits(work, InjectEventView::Failed(reason)),
        fits(work, InjectEventView::Done) <==> work != InjectWork::Read,
        fits(work, InjectEventView::ReadBack(read)) <==> work == InjectWork::Read,
{
}

} // verus!
