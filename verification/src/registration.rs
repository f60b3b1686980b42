//! Whether the app is installed, and the wait until the device says so.
use vstd::prelude::*;
use crate::app_info::APP_BUNDLE_ID;
use crate::console::{lines_view, on_stdout, stdout, Line, LineView};
use crate::device_error::{error_text, names};
use crate::text::{decimal, digits, same, texts};

verus! {

/// How often the installation proxy is asked before the setup gives up.
pub const REGISTRATION_CHECKS: u32 = 20;

/// The pause after a check that did not find the app, in milliseconds.
pub const REGISTRATION_PAUSE_MS: u64 = 1000;

/// The kind of applications that the installation proxy is asked for.
pub const APPLICATION_TYPE: &'static str = "User";

/// What the installation proxy answered.
#[derive(Debug, PartialEq, Eq)]
pub enum Lookup {
    /// The app is installed, or is not.
    Answered(bool),
    /// It could not be asked, for this reason.
    Failed(String),
}

/// The model of an answer.
#[verifier::ext_equal]
pub enum LookupView {
    Answered(bool),
    Failed(Seq<char>),
}

impl View for Lookup {
    type V = LookupView;

    open spec fn view(&self) -> LookupView {
        match self {
            Lookup::Answered(installed) => LookupView::Answered(*installed),
            Lookup::Failed(text) => LookupView::Failed(text@),
        }
    }
}

/// What to do after a check.
#[derive(Debug, PartialEq, Eq)]
pub enum RegistrationStep {
    /// The app is registered.
    Ready,
    /// Pause, and check again.
    Retry,
    /// Fail at once with this message.
    Fail(String),
    /// Pause, and fail with this message.
    GiveUp(String),
}

/// The model of a step.
#[verifier::ext_equal]
pub enum RegistrationStepView {
    Ready,
    Retry,
    Fail(Seq<char>),
    GiveUp(Seq<char>),
}

impl View for RegistrationStep {
    type V = RegistrationStepView;

    open spec fn view(&self) -> RegistrationStepView {
        match self {
            RegistrationStep::Ready => RegistrationStepView::Ready,
            RegistrationStep::Retry => RegistrationStepView::Retry,
            RegistrationStep::Fail(text) => RegistrationStepView::Fail(text@),
            RegistrationStep::GiveUp(text) => RegistrationStepView::GiveUp(text@),
        }
    }
}

/// The pause that a step begins with, in milliseconds.
pub open spec fn registration_pause(step: RegistrationStepView) -> nat {
    if step is Retry || step is GiveUp {
        REGISTRATION_PAUSE_MS as nat
    } else {
        0
    }
}

impl RegistrationStep {
    /// The pause that the step begins with, in milliseconds.
    pub fn pause_ms(&self) -> (r: u64)
        ensures
            r == registration_pause(self@),
    {
        match self {
            RegistrationStep::Retry | RegistrationStep::GiveUp(_) => REGISTRATION_PAUSE_MS,
            _ => 0,
        }
    }
}

/// The applications to ask for, by bundle identifier.
pub fn lookup_identifiers() -> (r: Vec<String>)
    ensures
        texts(r@) == seq![APP_BUNDLE_ID@],
{
    let mut ids: Vec<String> = Vec::new();
    ids.push(APP_BUNDLE_ID.to_string());
    assert(texts(ids@) =~= seq![APP_BUNDLE_ID@]);
    ids
}

/// Whether the app is among the applications that were found.
pub fn app_is_installed(found: &Vec<String>) -> (r: bool)
    ensures
        r == texts(found@).contains(APP_BUNDLE_ID@),
{
    for i in 0..found.len()
        invariant
            forall|k: int| 0 <= k < i ==> texts(found@)[k] != APP_BUNDLE_ID@,
    {
        if same(found[i].as_str(), APP_BUNDLE_ID) {
            assert(texts(found@)[i as int] == APP_BUNDLE_ID@);
            return true;
        }
    }
    false
}

/// The answer of an installation proxy that failed with this error. The reason is
/// the error's text, which names the error.
pub fn lookup_failed(error: &idevice::IdeviceError) -> (r: Lookup)
    ensures
        r matches Lookup::Failed(text) && names(text@, *error),
{
    Lookup::Failed(error_text(error))
}

/// The message of a wait whose last check found no app.
pub open spec fn not_registered_text() -> Seq<char> {
    APP_BUNDLE_ID@ + " did not appear in InstallationProxy after install"@
}

/// The step that the answer to check number `check` leads to. A failed check counts
/// only where it is the last.
pub open spec fn registration_step(check: nat, answer: LookupView) -> RegistrationStepView {
    if answer == LookupView::Answered(true) {
        RegistrationStepView::Ready
    } else if check < REGISTRATION_CHECKS {
        RegistrationStepView::Retry
    } else {
        match answer {
            LookupView::Failed(text) => RegistrationStepView::Fail(
                "InstallationProxy lookup failed: "@ + text,
            ),
            LookupView::Answered(_) => RegistrationStepView::GiveUp(not_registered_text()),
        }
    }
}

/// The lines that the answer to check number `check` is reported with.
pub open spec fn registration_lines(check: nat, answer: LookupView) -> Seq<LineView> {
    if answer == LookupView::Answered(true) && check > 1 {
        seq![
            on_stdout(
                "      ✅ app registration ready after "@ + digits(check) + " checks"@,
            ),
        ]
    } else {
        Seq::empty()
    }
}

/// The wait for the app's registration; `check` is the number of the check under way.
#[derive(Debug, PartialEq, Eq)]
pub struct Registration {
    pub check: u32,
}

impl Registration {
    /// The check is one of those allowed.
    pub open spec fn wf(&self) -> bool {
        1 <= self.check <= REGISTRATION_CHECKS
    }

    /// The wait at its first check.
    pub fn new() -> (r: Registration)
        ensures
            r.wf(),
            r.check == 1,
    {
        Registration { check: 1 }
    }

    /// Takes the answer to the check under way; reports it, and says what to do next.
    pub fn wait_for_app_registration(&mut self, answer: Lookup) -> (r: (
        Vec<Line>,
        RegistrationStep,
    ))
        requires
            old(self).wf(),
        ensures
            final(self).wf(),
            final(self).check == old(self).check + (if r.1 is Retry {
                1int
            } else {
                0
            }),
            lines_view(r.0@) == registration_lines(old(self).check as nat, answer@),
            r.1@ == registration_step(old(self).check as nat, answer@),
    {
        let mut lines: Vec<Line> = Vec::new();
        let ready = match &answer {
            Lookup::Answered(installed) => *installed,
            Lookup::Failed(_) => false,
        };
        if ready {
            if self.check > 1 {
                let count = decimal(self.check as u64);
                lines.push(
                    stdout(
                        "      ✅ app registration ready after ".to_string().concat(
                            count.as_str(),
                        ).concat(" checks"),
                    ),
                );
            }
            assert(lines_view(lines@) =~= registration_lines(self.check as nat, answer@));
            return (lines, RegistrationStep::Ready);
        }
        assert(lines_view(lines@) =~= registration_lines(self.check as nat, answer@));
        if self.check < REGISTRATION_CHECKS {
            self.check = self.check + 1;
            return (lines, RegistrationStep::Retry);
        }
        match answer {
            Lookup::Failed(text) => (
                lines,
                RegistrationStep::Fail(
                    "InstallationProxy lookup failed: ".to_string().concat(text.as_str()),
                ),
            ),
            Lookup::Answered(_) => (
                lines,
                RegistrationStep::GiveUp(
                    APP_BUNDLE_ID.to_string().concat(
                        " did not appear in InstallationProxy after install",
                    ),
                ),
            ),
        }
    }
}

/// The end of a wait that is given these answers from check number `check` on,
/// `Retry` where they run out first.
pub open spec fn registration_run(check: nat, answers: Seq<LookupView>) -> RegistrationStepView
    decreases answers.len(),
{
    if answers.len() == 0 {
        RegistrationStepView::Retry
    } else {
        let step = registration_step(check, answers[0]);
        if step is Retry {
            registration_run(check + 1, answers.drop_first())
        } else {
            step
        }
    }
}

/// The time that such a wait spends pausing, in milliseconds.
pub open spec fn registration_paused_ms(check: nat, answers: Seq<LookupView>) -> nat
    decreases answers.len(),
{
    if answers.len() == 0 {
        0
    } else {
        let step = registration_step(check, answers[0]);
        registration_pause(step) + (if step is Retry {
            registration_paused_ms(check + 1, answers.drop_first())
        } else {
            0
        })
    }
}

proof fn lemma_registration_from(answers: Seq<LookupView>, done: int, end: int)
    requires
        0 <= done <= end <= answers.len(),
        end < REGISTRATION_CHECKS,
        forall|j: int| done <= j < end ==> #[trigger] answers[j] != LookupView::Answered(true),
    ensures
        registration_run((done + 1) as nat, answers.skip(done)) == registration_run(
            (end + 1) as nat,
            answers.skip(end),
        ),
        registration_paused_ms((done + 1) as nat, answers.skip(done)) == (end - done) * 1000
            + registration_paused_ms((end + 1) as nat, answers.skip(end)),
    decreases end - done,
{
    if done < end {
        assert(answers.skip(done)[0] == answers[done]);
        assert(answers.skip(done).drop_first() =~= answers.skip(done + 1));
        lemma_registration_from(answers, done + 1, end);
    }
}

/// The wait ends well at the first check that finds the app, whatever failed before;
/// there is a pause of one second after each check before it, and none after it.
pub proof fn law_first_sighting_ends_the_wait(answers: Seq<LookupView>, i: int)
    requires
        0 <= i < answers.len(),
        i < REGISTRATION_CHECKS,
        answers[i] == LookupView::Answered(true),
        forall|j: int| 0 <= j < i ==> #[trigger] answers[j] != LookupView::Answered(true),
    ensures
        registration_run(1, answers) == RegistrationStepView::Ready,
        registration_paused_ms(1, answers) == i * 1000,
{
    assert(answers.skip(0) =~= answers);
    lemma_registration_from(answers, 0, i);
    assert(answers.skip(i)[0] == answers[i]);
}

proof fn lemma_ready_after(check: nat, answers: Seq<LookupView>) -> (i: int)
    requires
        1 <= check <= REGISTRATION_CHECKS,
        registration_run(check, answers) is Ready,
    ensures
        0 <= i < answers.len(),
        i <= REGISTRATION_CHECKS - check,
        answers[i] == LookupView::Answered(true),
    decreases answers.len(),
{
    if registration_step(check, answers[0]) is Retry {
        let i = lemma_ready_after(check + 1, answers.drop_first());
        assert(answers[i + 1] == answers.drop_first()[i]);
        i + 1
    } else {
        0
    }
}

/// The wait ends well only if one of its twenty checks has found the app.
pub proof fn law_ready_means_the_app_was_seen(answers: Seq<LookupView>)
    requires
        registration_run(1, answers) is Ready,
    ensures
        exists|i: int|
            0 <= i < answers.len() && i < REGISTRATION_CHECKS && #[trigger] answers[i]
                == LookupView::Answered(true),
{
    let i = lemma_ready_after(1, answers);
    assert(answers[i] == LookupView::Answered(true));
}

/// Where no check finds the app, the last one alone decides how the wait fails. There is
/// a pause of one second after each check, but none after a last check that failed.
pub proof fn law_last_check_decides_the_failure(answers: Seq<LookupView>)
    requires
        answers.len() >= REGISTRATION_CHECKS,
        forall|j: int|
            0 <= j < REGISTRATION_CHECKS ==> #[trigger] answers[j] != LookupView::Answered(true),
    ensures
        registration_run(1, answers) == registration_step(
            REGISTRATION_CHECKS as nat,
            answers[REGISTRATION_CHECKS - 1],
        ),
        !(registration_run(1, answers) is Retry),
        registration_paused_ms(1, answers) == (if answers[REGISTRATION_CHECKS - 1] is Failed {
            19_000nat
        } else {
            20_000
        }),
{
    let last = REGISTRATION_CHECKS - 1;
    assert(answers.skip(0) =~= answers);
    lemma_registration_from(answers, 0, last);
    assert(answers.skip(last)[0] == answers[last]);
}

/// What such a wait prints.
pub open spec fn registration_said(check: nat, answers: Seq<LookupView>) -> Seq<LineView>
    decreases answers.len(),
{
    if answers.len() == 0 {
        Seq::empty()
    } else {
        registration_lines(check, answers[0]) + (if registration_step(check, answers[0]) is Retry {
            registration_said(check + 1, answers.drop_first())
        } else {
            Seq::empty()
        })
    }
}

proof fn lemma_said_from(answers: Seq<LookupView>, done: int, end: int)
    requires
        0 <= done <= end <= answers.len(),
        end < REGISTRATION_CHECKS,
        forall|j: int| done <= j < end ==> #[trigger] answers[j] != LookupView::Answered(true),
    ensures
        registration_said((done + 1) as nat, answers.skip(done)) == registration_said(
            (end + 1) as nat,
            answers.skip(end),
        ),
    decreases end - done,
{
    if done < end {
        assert(answers.skip(done)[0] == answers[done]);
        assert(answers.skip(done).drop_first() =~= answers.skip(done + 1));
        lemma_said_from(answers, done + 1, end);
        assert(registration_said((done + 1) as nat, answers.skip(done)) =~= registration_said(
            (done + 2) as nat,
            answers.skip(done + 1),
        ));
    }
}

/// The wait prints nothing but, where it was not the first check that found the app, how
/// many checks it took.
pub proof fn law_wait_reports_how_many_checks_it_took(answers: Seq<LookupView>, i: int)
    requires
        0 <= i < answers.len(),
        i < 20,
        answers[i] == LookupView::Answered(true),
        forall|j: int| 0 <= j < i ==> #[trigger] answers[j] != LookupView::Answered(true),
    ensures
        i == 0 ==> registration_said(1, answers) == Seq::<LineView>::empty(),
        i > 0 ==> registration_said(1, answers) == seq![
            on_stdout("      ✅ app registration ready after "@ + digits((i + 1) as nat) + " checks"@),
        ],
{
    assert(answers.skip(0) =~= answers);
    lemma_said_from(answers, 0, i);
    assert(answers.skip(i)[0] == answers[i]);
    let said = registration_said((i + 1) as nat, answers.skip(i));
    assert(said =~= registration_lines((i + 1) as nat, answers[i]));
}

/// A wait in which no check finds the app goes on until its twentieth check. It then
/// fails: with the reason of that check, if it failed; otherwise with a message that
/// names the app. It prints nothing.
pub proof fn law_wait_without_a_sighting_fails(answers: Seq<LookupView>)
    requires
        forall|j: int|
            0 <= j < answers.len() && j < 20 ==> #[trigger] answers[j] != LookupView::Answered(
                true,
            ),
    ensures
        answers.len() < 20 ==> registration_run(1, answers) is Retry && registration_paused_ms(
            1,
            answers,
        ) == answers.len() * 1000,
        answers.len() >= 20 ==> registration_run(1, answers) == (match answers[19] {
            LookupView::Failed(reason) => RegistrationStepView::Fail(
                "InstallationProxy lookup failed: "@ + reason,
            ),
            LookupView::Answered(_) => RegistrationStepView::GiveUp(
                "com.woodypikmin.pikminpilot"@
                    + " did not appear in InstallationProxy after install"@,
            ),
        }),
        registration_said(1, answers) == Seq::<LineView>::empty(),
{
    let end = if answers.len() < 20 {
        answers.len() as int
    } else {
        19
    };
    assert(answers.skip(0) =~= answers);
    lemma_registration_from(answers, 0, end);
    lemma_said_from(answers, 0, end);
    if answers.len() >= 20 {
        assert(answers.skip(19)[0] == answers[19]);
        assert(registration_said(20, answers.skip(19)) =~= Seq::<LineView>::empty());
    }
}

/// The installation proxy is asked for applications of the user.
pub proof fn law_applications_of_the_user_are_asked_for()
    ensures
        APPLICATION_TYPE@ == "User"@,
        APP_BUNDLE_ID@ == "com.woodypikmin.pikminpilot"@,
{
}

} // verus!
