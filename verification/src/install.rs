//! Installing the app.
use vstd::prelude::*;
use crate::app_info::APP_VERSION;
use crate::console::{lines_view, on_stdout, stdout, Line, LineView};
use crate::device_error::{error_text, names};
use crate::registration::{Lookup, LookupView};
use crate::text::{
    ascii_lower, contains_ignoring_case, decimal, digits, law_only_ascii_capitals_are_lowered,
    lowered, occurs_in, same_letter, stands_at,
};

verus! {

/// The least size of a package that is worth installing, in bytes.
pub const LEAST_PACKAGE_SIZE: usize = 1_048_576;

/// The setup carries no usable package.
pub const NO_PACKAGE: &'static str = "Setup 內沒有有效的 Pikmin Pilot IPA。";

/// How the package goes onto the device.
#[derive(Clone, Copy, Debug, PartialEq, Eq, Structural)]
pub enum InstallMode {
    /// As a new app.
    Install,
    /// Over the app that is there, whose container stays.
    Upgrade,
}

/// The line that the installation begins with.
pub open spec fn install_heading_line() -> LineView {
    on_stdout("[3/5] 安裝 Pikmin Pilot "@ + APP_VERSION@ + "..."@)
}

/// The mode that the installation proxy's answer calls for: an app that is known to
/// be there is upgraded, and a failed lookup counts as no app.
pub open spec fn mode_for(answer: LookupView) -> InstallMode {
    if answer == LookupView::Answered(true) {
        InstallMode::Upgrade
    } else {
        InstallMode::Install
    }
}

/// The lines that the mode is announced with.
pub open spec fn mode_lines(mode: InstallMode) -> Seq<LineView> {
    match mode {
        InstallMode::Install => Seq::empty(),
        InstallMode::Upgrade => seq![
            on_stdout("      已存在 Pikmin Pilot，執行 upgrade（保留 App container）..."@),
        ],
    }
}

/// The line that reports how far the installation is.
pub open spec fn progress_text(percent: nat) -> Seq<char> {
    "      install progress: "@ + digits(percent) + "%"@
}

/// The line that reports how far the installation is.
pub fn progress_line(percent: u64) -> (r: Line)
    ensures
        r@ == on_stdout(progress_text(percent as nat)),
{
    let count = decimal(percent);
    stdout("      install progress: ".to_string().concat(count.as_str()).concat("%"))
}

/// The error says that the device is not in the app's profiles.
pub open spec fn is_provisioning_failure(error: Seq<char>) -> bool {
    ||| occurs_in("e8008015"@, lowered(error))
    ||| occurs_in("provision"@, lowered(error))
    ||| occurs_in("applicationverificationfailed"@, lowered(error))
}

/// Whether the error says that the device is not in the app's profiles.
pub fn provisioning_failure(error: &str) -> (r: bool)
    ensures
        r == is_provisioning_failure(error@),
{
    contains_ignoring_case(error, "e8008015") || contains_ignoring_case(error, "provision")
        || contains_ignoring_case(error, "applicationverificationfailed")
}

/// The message of a failed installation.
pub open spec fn install_failure_message(udid: Seq<char>, error: Seq<char>) -> Seq<char> {
    if is_provisioning_failure(error) {
        "iOS 拒絕安裝：這台裝置 UDID 很可能尚未包含在目前 Development profiles。\nUDID="@ + udid
            + "\n請把桌面的 PikminPilot-UDID.txt 給發佈者，更新 App / Tunnel / Runner profiles 後換新的 Setup.exe 再跑一次。\n原始錯誤："@
            + error
    } else {
        "IPA install failed: "@ + error
    }
}

/// The message of an installation that failed with an error of this text.
pub fn install_failure_text(udid: &str, error: &str) -> (r: String)
    ensures
        r@ == install_failure_message(udid@, error@),
{
    if provisioning_failure(error) {
        "iOS 拒絕安裝：這台裝置 UDID 很可能尚未包含在目前 Development profiles。\nUDID=".to_string().concat(
            udid,
        ).concat(
            "\n請把桌面的 PikminPilot-UDID.txt 給發佈者，更新 App / Tunnel / Runner profiles 後換新的 Setup.exe 再跑一次。\n原始錯誤：",
        ).concat(error)
    } else {
        "IPA install failed: ".to_string().concat(error)
    }
}

/// How a piece of work went.
#[derive(Debug, PartialEq, Eq)]
pub enum InstallEvent {
    /// The installation proxy was asked for the app.
    LookedUp(Lookup),
    /// The package is on the device.
    Installed,
    /// It is not, for this reason.
    Failed(String),
}

/// The model of an event.
#[verifier::ext_equal]
pub enum InstallEventView {
    LookedUp(LookupView),
    Installed,
    Failed(Seq<char>),
}

impl View for InstallEvent {
    type V = InstallEventView;

    open spec fn view(&self) -> InstallEventView {
        match self {
            InstallEvent::LookedUp(answer) => InstallEventView::LookedUp(answer@),
            InstallEvent::Installed => InstallEventView::Installed,
            InstallEvent::Failed(text) => InstallEventView::Failed(text@),
        }
    }
}

/// What to do next.
#[derive(Debug, PartialEq, Eq)]
pub enum InstallStep {
    /// Put the package on the device in this mode.
    Run(InstallMode),
    /// The app is installed.
    Finished,
    /// Write the note with the UDID again, and fail with this message.
    NoteAndFail(String),
}

/// The model of a step.
#[verifier::ext_equal]
pub enum InstallStepView {
    Run(InstallMode),
    Finished,
    NoteAndFail(Seq<char>),
}

impl View for InstallStep {
    type V = InstallStepView;

    open spec fn view(&self) -> InstallStepView {
        match self {
            InstallStep::Run(mode) => InstallStepView::Run(*mode),
            InstallStep::Finished => InstallStepView::Finished,
            InstallStep::NoteAndFail(text) => InstallStepView::NoteAndFail(text@),
        }
    }
}

/// The installation on the device with this UDID.
#[derive(Debug, PartialEq, Eq)]
pub struct Installation {
    pub udid: String,
    pub looked_up: bool,
}

/// The event is one that the work under way can have. A lookup that fails is an
/// answer as well.
pub open spec fn install_fits(looked_up: bool, event: InstallEventView) -> bool {
    event is LookedUp <==> !looked_up
}

/// The step that an event leads to.
pub open spec fn install_step(udid: Seq<char>, event: InstallEventView) -> InstallStepView {
    match event {
        InstallEventView::LookedUp(answer) => InstallStepView::Run(mode_for(answer)),
        InstallEventView::Installed => InstallStepView::Finished,
        InstallEventView::Failed(error) => InstallStepView::NoteAndFail(
            install_failure_message(udid, error),
        ),
    }
}

/// The lines that an event is reported with.
pub open spec fn install_lines(event: InstallEventView) -> Seq<LineView> {
    match event {
        InstallEventView::LookedUp(answer) => mode_lines(mode_for(answer)),
        InstallEventView::Installed => seq![on_stdout("      ✅ Pikmin Pilot installed"@)],
        InstallEventView::Failed(_) => Seq::empty(),
    }
}

/// The event of an installation that failed with this error. The reason is the
/// error's text, which names the error.
pub fn install_failed(error: &idevice::IdeviceError) -> (event: InstallEvent)
    ensures
        event matches InstallEvent::Failed(text) && names(text@, *error),
{
    InstallEvent::Failed(error_text(error))
}

impl Installation {
    /// Begins an installation: it goes on with the lookup of the app, unless the
    /// package of this size is not worth installing.
    pub fn start(udid: &str, package_size: usize) -> (r: Result<
        (Installation, Vec<Line>),
        String,
    >)
        ensures
            r is Ok <==> package_size >= LEAST_PACKAGE_SIZE,
            r matches Ok(begun) ==> {
                &&& begun.0.udid@ == udid@
                &&& !begun.0.looked_up
                &&& lines_view(begun.1@) == seq![install_heading_line()]
            },
            r matches Err(text) ==> text@ == NO_PACKAGE@,
    {
        if package_size < LEAST_PACKAGE_SIZE {
            return Err(NO_PACKAGE.to_string());
        }
        let mut lines: Vec<Line> = Vec::new();
        lines.push(
            stdout("[3/5] 安裝 Pikmin Pilot ".to_string().concat(APP_VERSION).concat("...")),
        );
        assert(lines_view(lines@) =~= seq![install_heading_line()]);
        Ok((Installation { udid: udid.to_string(), looked_up: false }, lines))
    }

    /// Takes the result of the work under way; reports it, and says what to do next.
    pub fn install_or_upgrade(&mut self, event: InstallEvent) -> (r: (Vec<Line>, InstallStep))
        requires
            install_fits(old(self).looked_up, event@),
        ensures
            final(self).udid@ == old(self).udid@,
            final(self).looked_up,
            lines_view(r.0@) == install_lines(event@),
            r.1@ == install_step(old(self).udid@, event@),
    {
        let mut lines: Vec<Line> = Vec::new();
        assert(lines_view(lines@) =~= Seq::<LineView>::empty());
        self.looked_up = true;
        match event {
            InstallEvent::LookedUp(answer) => {
                let installed = match &answer {
                    Lookup::Answered(installed) => *installed,
                    Lookup::Failed(_) => false,
                };
                if installed {
                    lines.push(
                        stdout(
                            "      已存在 Pikmin Pilot，執行 upgrade（保留 App container）...".to_string(),
                        ),
                    );
                    assert(lines_view(lines@) =~= mode_lines(InstallMode::Upgrade));
                    (lines, InstallStep::Run(InstallMode::Upgrade))
                } else {
                    (lines, InstallStep::Run(InstallMode::Install))
                }
            },
            InstallEvent::Installed => {
                lines.push(stdout("      ✅ Pikmin Pilot installed".to_string()));
                assert(lines_view(lines@) =~= seq![on_stdout("      ✅ Pikmin Pilot installed"@)]);
                (lines, InstallStep::Finished)
            },
            InstallEvent::Failed(error) => {
                let text = install_failure_text(self.udid.as_str(), error.as_str());
                (lines, InstallStep::NoteAndFail(text))
            },
        }
    }
}

/// The case of the error's letters does not matter to its kind.
pub proof fn law_provisioning_failure_ignores_case(a: Seq<char>, b: Seq<char>)
    requires
        a.len() == b.len(),
        forall|i: int|
            0 <= i < a.len() ==> ascii_lower(#[trigger] a[i])
                == ascii_lower(b[i]),
    ensures
        is_provisioning_failure(a) == is_provisioning_failure(b),
{
    assert(lowered(a) =~= lowered(b));
}

/// The message of a failed installation always ends with the error itself.
pub proof fn law_failure_message_ends_with_the_error(udid: Seq<char>, error: Seq<char>)
    ensures
        ({
            let message = install_failure_message(udid, error);
            message.len() >= error.len() && message.skip(message.len() - error.len()) == error
        }),
{
    let message = install_failure_message(udid, error);
    assert(message.skip(message.len() - error.len()) =~= error);
}

/// An installation that is told that the package is on the device has succeeded, whatever
/// the device's UDID, and says so.
pub proof fn law_installed_package_is_a_success(udid: Seq<char>)
    ensures
        install_step(udid, InstallEventView::Installed) is Finished,
        install_lines(InstallEventView::Installed) == seq![
            on_stdout("      ✅ Pikmin Pilot installed"@),
        ],
{
}

/// An app that is known to be on the device is upgraded, with a line that says that its
/// container stays; where it is not there, or that cannot be told, it is installed.
pub proof fn law_known_app_is_upgraded(udid: Seq<char>, reason: Seq<char>)
    ensures
        install_step(udid, InstallEventView::LookedUp(LookupView::Answered(true)))
            == InstallStepView::Run(InstallMode::Upgrade),
        install_step(udid, InstallEventView::LookedUp(LookupView::Answered(false)))
            == InstallStepView::Run(InstallMode::Install),
        install_step(udid, InstallEventView::LookedUp(LookupView::Failed(reason)))
            == InstallStepView::Run(InstallMode::Install),
        install_lines(InstallEventView::LookedUp(LookupView::Answered(true))) == seq![
            on_stdout("      已存在 Pikmin Pilot，執行 upgrade（保留 App container）..."@),
        ],
        install_lines(InstallEventView::LookedUp(LookupView::Answered(false))) == Seq::<
            LineView,
        >::empty(),
        install_lines(InstallEventView::LookedUp(LookupView::Failed(reason))) == Seq::<
            LineView,
        >::empty(),
{
}

/// The word stands in the text at place `i`, whatever the case of the text's letters.
pub open spec fn word_at(word: Seq<char>, text: Seq<char>, i: int) -> bool {
    &&& 0 <= i
    &&& i + word.len() <= text.len()
    &&& forall|k: int| 0 <= k < word.len() ==> same_letter(#[trigger] text[i + k], word[k])
}

proof fn lemma_word_occurs(word: Seq<char>, text: Seq<char>)
    ensures
        occurs_in(word, lowered(text)) <==> exists|i: int| word_at(word, text, i),
{
    let low = lowered(text);
    law_only_ascii_capitals_are_lowered(text);
    if occurs_in(word, low) {
        let i = choose|i: int| stands_at(word, low, i);
        assert forall|k: int| 0 <= k < word.len() implies same_letter(
            #[trigger] text[i + k],
            word[k],
        ) by {
            assert(low.subrange(i, i + word.len())[k] == low[i + k]);
        }
        assert(word_at(word, text, i));
    }
    if exists|i: int| word_at(word, text, i) {
        let i = choose|i: int| word_at(word, text, i);
        assert forall|k: int| 0 <= k < word.len() implies low.subrange(i, i + word.len())[k]
            == word[k] by {
            assert(same_letter(text[i + k], word[k]));
            assert(same_letter(text[i + k], low[i + k]));
        }
        assert(low.subrange(i, i + word.len()) =~= word);
        assert(stands_at(word, low, i));
    }
}

/// A failed installation is put down to the profiles exactly where one of three words
/// stands in the error, whatever the case of its letters. The message then tells the UDID;
/// otherwise it does not speak of profiles. Either way it ends with the error, unchanged,
/// and nothing else is printed.
pub proof fn law_failed_installation_tells_why(udid: Seq<char>, error: Seq<char>)
    ensures
        ({
            let profiles = exists|i: int|
                word_at("e8008015"@, error, i) || word_at("provision"@, error, i) || word_at(
                    "applicationverificationfailed"@,
                    error,
                    i,
                );
            &&& is_provisioning_failure(error) == profiles
            &&& install_step(udid, InstallEventView::Failed(error)) == InstallStepView::NoteAndFail(
                if profiles {
                    "iOS 拒絕安裝：這台裝置 UDID 很可能尚未包含在目前 Development profiles。\nUDID="@
                        + udid
                        + "\n請把桌面的 PikminPilot-UDID.txt 給發佈者，更新 App / Tunnel / Runner profiles 後換新的 Setup.exe 再跑一次。\n原始錯誤："@
                        + error
                } else {
                    "IPA install failed: "@ + error
                },
            )
            &&& install_lines(InstallEventView::Failed(error)) == Seq::<LineView>::empty()
        }),
{
    lemma_word_occurs("e8008015"@, error);
    lemma_word_occurs("provision"@, error);
    lemma_word_occurs("applicationverificationfailed"@, error);
    if is_provisioning_failure(error) {
        if exists|i: int| word_at("e8008015"@, error, i) {
            let i = choose|i: int| word_at("e8008015"@, error, i);
            assert(word_at("e8008015"@, error, i) || word_at("provision"@, error, i));
        } else if exists|i: int| word_at("provision"@, error, i) {
            let i = choose|i: int| word_at("provision"@, error, i);
            assert(word_at("e8008015"@, error, i) || word_at("provision"@, error, i));
        } else {
            let i = choose|i: int| word_at("applicationverificationfailed"@, error, i);
            assert(word_at("e8008015"@, error, i) || word_at("provision"@, error, i) || word_at(
                "applicationverificationfailed"@,
                error,
                i,
            ));
        }
    }
}

/// The progress is reported as a whole number of percent.
pub proof fn law_progress_is_reported_in_percent(percent: nat)
    ensures
        progress_text(percent) == "      install progress: "@ + digits(percent) + "%"@,
{
}

/// The lookup comes first, with any answer; what follows it is a success or a failure, for
/// any reason.
pub proof fn law_every_result_of_an_installation_fits(answer: LookupView, reason: Seq<char>)
    ensures
        install_fits(false, InstallEventView::LookedUp(answer)),
        install_fits(true, InstallEventView::Installed),
        install_fits(true, InstallEventView::Failed(reason)),
{
}

} // verus!
