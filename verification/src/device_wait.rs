//! Waiting for the one USB device that the setup works on.
use vstd::prelude::*;
use crate::device::{
    admits, admitted, admitted_devices, devices_view, lemma_admitted_usb, lemma_first_admitted,
    lemma_only_admitted, lemma_several_admitted, usb_devices, usb_only, Device, DeviceView, Link,
};
use crate::device_error::{error_text, names};
use crate::text::optional;

verus! {

/// How often the multiplexer is asked before the setup gives up.
pub const DEVICE_POLLS: u32 = 45;

/// The pause after a poll that decided nothing, in milliseconds.
pub const DEVICE_POLL_PAUSE_MS: u64 = 2000;

/// Printed when the wait begins.
pub const WAIT_HEADING: &'static str = "[1/5] 等待 USB iPhone/iPad...";

/// Several devices are connected and none was asked for.
pub const TOO_MANY_DEVICES: &'static str = "偵測到超過一台 USB iPhone/iPad；請只保留一台連接。";

/// No device came, and no poll failed.
pub const NO_DEVICE: &'static str = "90 秒內沒有偵測到 USB iPhone/iPad。請確認 USB 線與 Apple 裝置驅動。";

/// What the multiplexer answered.
#[derive(Debug, PartialEq, Eq)]
pub enum Poll {
    /// The devices it lists, whatever their connection.
    Listed(Vec<Device>),
    /// It could not be asked, for this reason.
    Failed(String),
}

/// The model of an answer.
#[verifier::ext_equal]
pub enum PollView {
    Listed(Seq<DeviceView>),
    Failed(Seq<char>),
}

impl View for Poll {
    type V = PollView;

    open spec fn view(&self) -> PollView {
        match self {
            Poll::Listed(devices) => PollView::Listed(devices_view(devices@)),
            Poll::Failed(text) => PollView::Failed(text@),
        }
    }
}

/// What to do after a poll.
#[derive(Debug, PartialEq, Eq)]
pub enum WaitStep {
    /// Go on with this device.
    Found(Device),
    /// Fail at once with this message.
    Fail(String),
    /// Pause, and ask again.
    Retry,
    /// Pause, and fail with this message.
    GiveUp(String),
}

/// The model of a step.
#[verifier::ext_equal]
pub enum WaitStepView {
    Found(DeviceView),
    Fail(Seq<char>),
    Retry,
    GiveUp(Seq<char>),
}

impl View for WaitStep {
    type V = WaitStepView;

    open spec fn view(&self) -> WaitStepView {
        match self {
            WaitStep::Found(d) => WaitStepView::Found(d@),
            WaitStep::Fail(text) => WaitStepView::Fail(text@),
            WaitStep::Retry => WaitStepView::Retry,
            WaitStep::GiveUp(text) => WaitStepView::GiveUp(text@),
        }
    }
}

/// The pause that a step begins with, in milliseconds.
pub open spec fn wait_pause(step: WaitStepView) -> nat {
    if step is Retry || step is GiveUp {
        DEVICE_POLL_PAUSE_MS as nat
    } else {
        0
    }
}

impl WaitStep {
    /// The pause that the step begins with, in milliseconds.
    pub fn pause_ms(&self) -> (r: u64)
        ensures
            r == wait_pause(self@),
    {
        match self {
            WaitStep::Retry | WaitStep::GiveUp(_) => DEVICE_POLL_PAUSE_MS,
            _ => 0,
        }
    }
}

/// The state of the wait between two polls.
#[derive(Debug, PartialEq, Eq)]
pub struct DeviceWait {
    pub requested: Option<String>,
    pub polls: u32,
    pub last_error: String,
}

/// The model of the wait.
#[verifier::ext_equal]
pub struct DeviceWaitView {
    pub requested: Option<Seq<char>>,
    pub polls: nat,
    pub last_error: Seq<char>,
}

impl View for DeviceWait {
    type V = DeviceWaitView;

    open spec fn view(&self) -> DeviceWaitView {
        DeviceWaitView {
            requested: optional(self.requested),
            polls: self.polls as nat,
            last_error: self.last_error@,
        }
    }
}

/// The wait before its first poll.
pub open spec fn wait_start(requested: Option<Seq<char>>) -> DeviceWaitView {
    DeviceWaitView { requested, polls: 0, last_error: Seq::empty() }
}

/// What one answer decides by itself: exactly one admitted USB device is the
/// device; several are an error unless a UDID was requested.
pub open spec fn poll_verdict(requested: Option<Seq<char>>, poll: PollView) -> Option<
    WaitStepView,
> {
    match poll {
        PollView::Listed(devices) => {
            let found = admitted(usb_only(devices), requested);
            if found.len() == 1 {
                Some(WaitStepView::Found(found[0]))
            } else if found.len() > 1 && requested is None {
                Some(WaitStepView::Fail(TOO_MANY_DEVICES@))
            } else {
                None
            }
        },
        PollView::Failed(_) => None,
    }
}

/// The message of a wait that ran out of polls.
pub open spec fn give_up_text(last_error: Seq<char>) -> Seq<char> {
    if last_error.len() == 0 {
        NO_DEVICE@
    } else {
        "Apple USB device service unavailable: "@ + last_error
            + "\n請先安裝 Apple Devices / Apple Mobile Device Support，確認 Windows 能看到 iPhone/iPad。"@
    }
}

/// The wait after one more answer.
pub open spec fn wait_next(state: DeviceWaitView, poll: PollView) -> DeviceWaitView {
    DeviceWaitView {
        polls: state.polls + 1,
        last_error: match poll {
            PollView::Failed(text) => text,
            PollView::Listed(_) => state.last_error,
        },
        ..state
    }
}

/// The step that an answer leads to.
pub open spec fn wait_step(state: DeviceWaitView, poll: PollView) -> WaitStepView {
    match poll_verdict(state.requested, poll) {
        Some(step) => step,
        None => if state.polls + 1 < DEVICE_POLLS {
            WaitStepView::Retry
        } else {
            WaitStepView::GiveUp(give_up_text(wait_next(state, poll).last_error))
        },
    }
}

fn give_up(last_error: &String) -> (r: String)
    ensures
        r@ == give_up_text(last_error@),
{
    if last_error.as_str().is_empty() {
        NO_DEVICE.to_string()
    } else {
        "Apple USB device service unavailable: ".to_string().concat(last_error.as_str()).concat(
            "\n請先安裝 Apple Devices / Apple Mobile Device Support，確認 Windows 能看到 iPhone/iPad。",
        )
    }
}

/// The answer of a multiplexer that failed with this error. The reason is the error's
/// text, which names the error.
pub fn poll_failed(error: &idevice::IdeviceError) -> (poll: Poll)
    ensures
        poll matches Poll::Failed(text) && names(text@, *error),
{
    Poll::Failed(error_text(error))
}

impl DeviceWait {
    /// The wait has polls left.
    pub open spec fn wf(&self) -> bool {
        self.polls < DEVICE_POLLS
    }

    /// The wait before its first poll.
    pub fn new(requested: Option<String>) -> (r: DeviceWait)
        ensures
            r.wf(),
            r@ == wait_start(optional(requested)),
    {
        DeviceWait { requested, polls: 0, last_error: String::new() }
    }

    /// Takes the multiplexer's answer and says what to do next.
    pub fn wait_for_usb_device(&mut self, poll: Poll) -> (step: WaitStep)
        requires
            old(self).wf(),
        ensures
            final(self)@ == wait_next(old(self)@, poll@),
            step@ == wait_step(old(self)@, poll@),
            step is Retry ==> final(self).wf(),
    {
        self.polls = self.polls + 1;
        match poll {
            Poll::Listed(devices) => {
                let usb = usb_devices(&devices);
                let requested: Option<&str> = match &self.requested {
                    Some(udid) => Some(udid.as_str()),
                    None => None,
                };
                let found = admitted_devices(&usb, requested);
                assert(devices_view(found@).len() == found@.len());
                if found.len() == 1 {
                    return WaitStep::Found(found[0].copy());
                }
                if found.len() > 1 && requested.is_none() {
                    return WaitStep::Fail(TOO_MANY_DEVICES.to_string());
                }
            },
            Poll::Failed(text) => {
                self.last_error = text;
            },
        }
        if self.polls < DEVICE_POLLS {
            WaitStep::Retry
        } else {
            WaitStep::GiveUp(give_up(&self.last_error))
        }
    }
}

/// The end of a wait that is given these answers in turn, `Retry` where they
/// run out first.
pub open spec fn wait_run(state: DeviceWaitView, polls: Seq<PollView>) -> WaitStepView
    decreases polls.len(),
{
    if polls.len() == 0 {
        WaitStepView::Retry
    } else {
        let step = wait_step(state, polls[0]);
        if step is Retry {
            wait_run(wait_next(state, polls[0]), polls.drop_first())
        } else {
            step
        }
    }
}

/// The time that such a wait spends pausing, in milliseconds: after each answer that
/// decides nothing.
pub open spec fn wait_paused_ms(state: DeviceWaitView, polls: Seq<PollView>) -> nat
    decreases polls.len(),
{
    if polls.len() == 0 {
        0
    } else {
        let step = wait_step(state, polls[0]);
        wait_pause(step) + (if step is Retry {
            wait_paused_ms(wait_next(state, polls[0]), polls.drop_first())
        } else {
            0
        })
    }
}

/// The reason of the last failed poll, empty where none failed.
pub open spec fn last_failure(polls: Seq<PollView>) -> Seq<char>
    decreases polls.len(),
{
    if polls.len() == 0 {
        Seq::empty()
    } else {
        match polls.last() {
            PollView::Failed(text) => text,
            PollView::Listed(_) => last_failure(polls.drop_last()),
        }
    }
}

proof fn lemma_run_from(
    requested: Option<Seq<char>>,
    polls: Seq<PollView>,
    done: int,
    end: int,
)
    requires
        0 <= done <= end <= polls.len(),
        end < DEVICE_POLLS,
        forall|j: int| done <= j < end ==> poll_verdict(requested, #[trigger] polls[j]) is None,
    ensures
        ({
            let from = DeviceWaitView {
                requested,
                polls: done as nat,
                last_error: last_failure(polls.take(done)),
            };
            let to = DeviceWaitView {
                requested,
                polls: end as nat,
                last_error: last_failure(polls.take(end)),
            };
            &&& wait_run(from, polls.skip(done)) == wait_run(to, polls.skip(end))
            &&& wait_paused_ms(from, polls.skip(done)) == (end - done) * DEVICE_POLL_PAUSE_MS
                + wait_paused_ms(to, polls.skip(end))
        }),
    decreases end - done,
{
    if done < end {
        let from = DeviceWaitView {
            requested,
            polls: done as nat,
            last_error: last_failure(polls.take(done)),
        };
        assert(polls.skip(done)[0] == polls[done]);
        assert(polls.skip(done).drop_first() =~= polls.skip(done + 1));
        assert(polls.take(done + 1).drop_last() =~= polls.take(done));
        assert(wait_next(from, polls[done]) == DeviceWaitView {
            requested,
            polls: (done + 1) as nat,
            last_error: last_failure(polls.take(done + 1)),
        });
        lemma_run_from(requested, polls, done + 1, end);
    }
}

/// The first answer that decides something by itself decides the wait, whatever
/// failed before it; there is a pause of two seconds after each answer before it, and
/// none after it.
pub proof fn law_first_decisive_poll_decides(
    requested: Option<Seq<char>>,
    polls: Seq<PollView>,
    i: int,
)
    requires
        0 <= i < polls.len(),
        i < DEVICE_POLLS,
        poll_verdict(requested, polls[i]) is Some,
        forall|j: int| 0 <= j < i ==> poll_verdict(requested, #[trigger] polls[j]) is None,
    ensures
        Some(wait_run(wait_start(requested), polls)) == poll_verdict(requested, polls[i]),
        wait_paused_ms(wait_start(requested), polls) == i * 2000,
{
    assert(polls.take(0) =~= Seq::<PollView>::empty());
    assert(polls.skip(0) =~= polls);
    lemma_run_from(requested, polls, 0, i);
    assert(polls.skip(i)[0] == polls[i]);
}

/// A wait in which no answer decides anything gives up after the last poll, with
/// the reason of the last failed poll, and has paused for ninety seconds by then.
pub proof fn law_undecided_wait_gives_up_after_ninety_seconds(
    requested: Option<Seq<char>>,
    polls: Seq<PollView>,
)
    requires
        polls.len() >= DEVICE_POLLS,
        forall|j: int|
            0 <= j < DEVICE_POLLS ==> poll_verdict(requested, #[trigger] polls[j]) is None,
    ensures
        wait_run(wait_start(requested), polls) == WaitStepView::GiveUp(
            give_up_text(last_failure(polls.take(DEVICE_POLLS as int))),
        ),
        wait_paused_ms(wait_start(requested), polls) == 90_000,
{
    let last = DEVICE_POLLS - 1;
    assert(polls.take(0) =~= Seq::<PollView>::empty());
    assert(polls.skip(0) =~= polls);
    lemma_run_from(requested, polls, 0, last);
    assert(polls.skip(last)[0] == polls[last]);
    assert(polls.take(last + 1).drop_last() =~= polls.take(last));
}

proof fn lemma_found_from(state: DeviceWaitView, polls: Seq<PollView>) -> (i: int)
    requires
        state.polls < DEVICE_POLLS,
        wait_run(state, polls) is Found,
    ensures
        0 <= i < polls.len(),
        i + state.polls < DEVICE_POLLS,
        poll_verdict(state.requested, polls[i]) == Some(wait_run(state, polls)),
        forall|j: int| 0 <= j < i ==> poll_verdict(state.requested, #[trigger] polls[j]) is None,
    decreases polls.len(),
{
    if wait_step(state, polls[0]) is Retry {
        let rest = polls.drop_first();
        let i = lemma_found_from(wait_next(state, polls[0]), rest);
        assert(polls[i + 1] == rest[i]);
        assert forall|j: int| 0 <= j < i + 1 implies poll_verdict(
            state.requested,
            #[trigger] polls[j],
        ) is None by {
            if j > 0 {
                assert(polls[j] == rest[j - 1]);
            }
        }
        i + 1
    } else {
        0
    }
}

/// The poll at place `i` is the first that decides something, and it is that this is
/// the device.
pub open spec fn found_at(
    requested: Option<Seq<char>>,
    polls: Seq<PollView>,
    i: int,
    d: DeviceView,
) -> bool {
    &&& 0 <= i < polls.len()
    &&& poll_verdict(requested, polls[i]) == Some(WaitStepView::Found(d))
    &&& forall|j: int| 0 <= j < i ==> poll_verdict(requested, #[trigger] polls[j]) is None
}

/// A wait ends with a device only if one of its polls has found it, and none before
/// that has decided anything.
pub proof fn law_found_device_was_polled(
    requested: Option<Seq<char>>,
    polls: Seq<PollView>,
    d: DeviceView,
)
    requires
        wait_run(wait_start(requested), polls) == WaitStepView::Found(d),
    ensures
        exists|i: int| i < DEVICE_POLLS && #[trigger] found_at(requested, polls, i, d),
{
    let i = lemma_found_from(wait_start(requested), polls);
    assert(found_at(requested, polls, i, d));
}

/// A device that the wait ends with is connected by USB, stands in the list that
/// ended the wait, has the requested UDID where one was requested, and is the only
/// such device of that list.
pub proof fn law_found_device_is_admitted(state: DeviceWaitView, poll: PollView, d: DeviceView)
    requires
        wait_step(state, poll) == WaitStepView::Found(d),
    ensures
        d.link == Link::Usb,
        poll matches PollView::Listed(devices) && devices.contains(d) && admitted(
            usb_only(devices),
            state.requested,
        ) == seq![d],
        state.requested matches Some(udid) ==> d.udid == udid,
{
    let devices = poll->Listed_0;
    assert(admitted(usb_only(devices), state.requested) =~= seq![d]);
    assert(admitted(usb_only(devices), state.requested)[0] == d);
    lemma_admitted_usb(state.requested, devices, d);
}

/// The only admitted device of a list is the one that the wait is for; no poll in which
/// none is admitted, or that failed, decides anything.
pub proof fn law_only_admitted_device_is_found(
    requested: Option<Seq<char>>,
    devices: Seq<DeviceView>,
    i: int,
)
    requires
        0 <= i <= devices.len(),
        i < devices.len() ==> admits(requested, devices[i]),
        forall|j: int|
            0 <= j < devices.len() && j != i ==> !admits(requested, #[trigger] devices[j]),
    ensures
        i < devices.len() ==> poll_verdict(requested, PollView::Listed(devices)) == Some(
            WaitStepView::Found(devices[i]),
        ),
        i == devices.len() ==> poll_verdict(requested, PollView::Listed(devices)) is None,
{
    if i < devices.len() {
        lemma_only_admitted(requested, devices, i);
    } else {
        lemma_first_admitted(requested, devices, i);
    }
}

/// Several admitted devices end the wait with a message where no UDID is requested, and
/// decide nothing where one is.
pub proof fn law_several_devices_end_the_wait(
    requested: Option<Seq<char>>,
    devices: Seq<DeviceView>,
    i: int,
    j: int,
)
    requires
        0 <= i < j < devices.len(),
        admits(requested, devices[i]),
        admits(requested, devices[j]),
    ensures
        poll_verdict(requested, PollView::Listed(devices)) == (if requested is None {
            Some(
                WaitStepView::Fail(
                    "偵測到超過一台 USB iPhone/iPad；請只保留一台連接。"@,
                ),
            )
        } else {
            None
        }),
{
    lemma_several_admitted(requested, devices, i, j);
}

/// A failed poll decides nothing, whatever the reason.
pub proof fn law_failed_poll_decides_nothing(requested: Option<Seq<char>>, reason: Seq<char>)
    ensures
        poll_verdict(requested, PollView::Failed(reason)) is None,
{
}

/// A wait that gives up says that no device came; or, where a poll has failed and given a
/// reason, why the last failed one did.
pub proof fn law_wait_gives_up_with_the_last_reason(
    requested: Option<Seq<char>>,
    polls: Seq<PollView>,
)
    requires
        polls.len() >= 45,
        forall|j: int| 0 <= j < 45 ==> poll_verdict(requested, #[trigger] polls[j]) is None,
    ensures
        (forall|j: int| 0 <= j < 45 ==> (#[trigger] polls[j]) is Listed) ==> wait_run(
            wait_start(requested),
            polls,
        ) == WaitStepView::GiveUp(
            "90 秒內沒有偵測到 USB iPhone/iPad。請確認 USB 線與 Apple 裝置驅動。"@,
        ),
        forall|i: int|
            0 <= i < 45 && (#[trigger] polls[i]) is Failed && (forall|j: int|
                i < j < 45 ==> (#[trigger] polls[j]) is Listed) ==> wait_run(
                wait_start(requested),
                polls,
            ) == WaitStepView::GiveUp(
                if polls[i]->Failed_0.len() == 0 {
                    "90 秒內沒有偵測到 USB iPhone/iPad。請確認 USB 線與 Apple 裝置驅動。"@
                } else {
                    "Apple USB device service unavailable: "@ + polls[i]->Failed_0
                        + "\n請先安裝 Apple Devices / Apple Mobile Device Support，確認 Windows 能看到 iPhone/iPad。"@
                },
            ),
{
    law_undecided_wait_gives_up_after_ninety_seconds(requested, polls);
    let first = polls.take(45);
    if forall|j: int| 0 <= j < 45 ==> (#[trigger] polls[j]) is Listed {
        lemma_last_failure(first, -1);
    }
    assert forall|i: int|
        0 <= i < 45 && (#[trigger] polls[i]) is Failed && (forall|j: int|
            i < j < 45 ==> (#[trigger] polls[j]) is Listed) implies last_failure(first)
        == polls[i]->Failed_0 by {
        lemma_last_failure(first, i);
    }
}

proof fn lemma_last_failure(polls: Seq<PollView>, i: int)
    requires
        -1 <= i < polls.len(),
        i >= 0 ==> polls[i] is Failed,
        forall|j: int| i < j < polls.len() ==> (#[trigger] polls[j]) is Listed,
    ensures
        last_failure(polls) == (if i >= 0 {
            polls[i]->Failed_0
        } else {
            Seq::empty()
        }),
    decreases polls.len(),
{
    if polls.len() > 0 && i < polls.len() - 1 {
        assert(polls[polls.len() - 1] is Listed);
        lemma_last_failure(polls.drop_last(), i);
    }
}

/// A wait whose answers have decided nothing yet goes on, as long as it has polls left,
/// and has paused for two seconds after each.
pub proof fn law_undecided_wait_goes_on(requested: Option<Seq<char>>, polls: Seq<PollView>)
    requires
        polls.len() < 45,
        forall|j: int|
            0 <= j < polls.len() ==> poll_verdict(requested, #[trigger] polls[j]) is None,
    ensures
        wait_run(wait_start(requested), polls) is Retry,
        wait_paused_ms(wait_start(requested), polls) == polls.len() * 2000,
{
    let end = polls.len() as int;
    assert(polls.take(0) =~= Seq::<PollView>::empty());
    assert(polls.skip(0) =~= polls);
    lemma_run_from(requested, polls, 0, end);
    assert(polls.skip(end).len() == 0);
}

} // verus!
