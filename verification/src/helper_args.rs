//! The command line of the pairing helper.
use vstd::prelude::*;
use crate::console::{on_stderr, stderr, Exit, ExitView, Line};
use crate::text::{optional, same, texts};

verus! {

/// Where the record goes unless `--output` says otherwise.
pub const DEFAULT_OUTPUT: &'static str = "rp_pairing_file.plist";

/// The host name that the device is shown unless `--hostname` says otherwise.
pub const DEFAULT_HOSTNAME: &'static str = "Pikmin Pilot Windows Setup";

/// How the helper is called.
pub const HELPER_USAGE: &'static str =
    "Usage:\n  PikminPilotPairingHelper.exe [--udid <UDID>] [--output <FILE>] [--hostname <NAME>]\n\nExample:\n  PikminPilotPairingHelper.exe --udid 00008103-000A78D13684C01E --output C:\\Users\\woody\\Downloads\\rp_pairing_file.plist";

/// What the helper was asked to do.
#[derive(Debug, PartialEq, Eq)]
pub struct HelperOptions {
    pub udid: Option<String>,
    pub output: String,
    pub hostname: String,
}

/// The model of the options.
#[verifier::ext_equal]
pub struct HelperOptionsView {
    pub udid: Option<Seq<char>>,
    pub output: Seq<char>,
    pub hostname: Seq<char>,
}

impl View for HelperOptions {
    type V = HelperOptionsView;

    open spec fn view(&self) -> HelperOptionsView {
        HelperOptionsView {
            udid: optional(self.udid),
            output: self.output@,
            hostname: self.hostname@,
        }
    }
}

/// What a command line amounts to.
#[derive(Debug, PartialEq, Eq)]
pub enum HelperCommand {
    /// Make a record.
    Run(HelperOptions),
    /// Show the usage.
    Help,
    /// An option stands last, without its value.
    MissingValue,
    /// This argument is none of the helper's.
    Unknown(String),
}

/// The model of a command.
#[verifier::ext_equal]
pub enum HelperCommandView {
    Run(HelperOptionsView),
    Help,
    MissingValue,
    Unknown(Seq<char>),
}

impl View for HelperCommand {
    type V = HelperCommandView;

    open spec fn view(&self) -> HelperCommandView {
        match self {
            HelperCommand::Run(options) => HelperCommandView::Run(options@),
            HelperCommand::Help => HelperCommandView::Help,
            HelperCommand::MissingValue => HelperCommandView::MissingValue,
            HelperCommand::Unknown(arg) => HelperCommandView::Unknown(arg@),
        }
    }
}

/// The options that take a value.
pub enum HelperFlag {
    Udid,
    Output,
    Hostname,
}

impl HelperFlag {
    /// The argument that stands for the option.
    pub open spec fn name(self) -> Seq<char> {
        match self {
            HelperFlag::Udid => "--udid"@,
            HelperFlag::Output => "--output"@,
            HelperFlag::Hostname => "--hostname"@,
        }
    }
}

/// The options before any argument is read.
pub open spec fn helper_defaults() -> HelperOptionsView {
    HelperOptionsView { udid: None, output: DEFAULT_OUTPUT@, hostname: DEFAULT_HOSTNAME@ }
}

/// The options once `flag` is given `value`.
pub open spec fn with_option(
    options: HelperOptionsView,
    flag: HelperFlag,
    value: Seq<char>,
) -> HelperOptionsView {
    match flag {
        HelperFlag::Udid => HelperOptionsView { udid: Some(value), ..options },
        HelperFlag::Output => HelperOptionsView { output: value, ..options },
        HelperFlag::Hostname => HelperOptionsView { hostname: value, ..options },
    }
}

/// The option that an argument stands for.
pub open spec fn helper_flag(arg: Seq<char>) -> Option<HelperFlag> {
    if arg == HelperFlag::Udid.name() {
        Some(HelperFlag::Udid)
    } else if arg == HelperFlag::Output.name() {
        Some(HelperFlag::Output)
    } else if arg == HelperFlag::Hostname.name() {
        Some(HelperFlag::Hostname)
    } else {
        None
    }
}

/// What the arguments amount to, read from the left: an option takes the argument
/// behind it as its value, whatever that is; the usage is shown, or an argument
/// is rejected, as soon as one asks for it.
pub open spec fn helper_command(
    given: Seq<Seq<char>>,
    so_far: HelperOptionsView,
) -> HelperCommandView
    decreases given.len(),
{
    if given.len() == 0 {
        HelperCommandView::Run(so_far)
    } else {
        match helper_flag(given[0]) {
            Some(flag) => if given.len() == 1 {
                HelperCommandView::MissingValue
            } else {
                helper_command(given.skip(2), with_option(so_far, flag, given[1]))
            },
            None => if given[0] == "-h"@ || given[0] == "--help"@ {
                HelperCommandView::Help
            } else {
                HelperCommandView::Unknown(given[0])
            },
        }
    }
}

/// The arguments behind the program's name.
pub open spec fn behind_program_name(args: Seq<Seq<char>>) -> Seq<Seq<char>> {
    if args.len() == 0 {
        args
    } else {
        args.skip(1)
    }
}

/// Reads the helper's command line; `args` starts with the program's name.
pub fn parse_args(args: &Vec<String>) -> (command: HelperCommand)
    ensures
        command@ == helper_command(behind_program_name(texts(args@)), helper_defaults()),
{
    let mut udid: Option<String> = None;
    let mut output: String = DEFAULT_OUTPUT.to_string();
    let mut hostname: String = DEFAULT_HOSTNAME.to_string();
    let ghost all = texts(args@);
    if args.len() == 0 {
        return HelperCommand::Run(HelperOptions { udid, output, hostname });
    }
    let mut i: usize = 1;
    while i < args.len()
        invariant
            all == texts(args@),
            1 <= i <= args@.len(),
            helper_command(behind_program_name(all), helper_defaults()) == helper_command(
                all.skip(i as int),
                HelperOptionsView { udid: optional(udid), output: output@, hostname: hostname@ },
            ),
        decreases args@.len() - i,
    {
        let arg = args[i].as_str();
        assert(all.skip(i as int)[0] == arg@);
        let is_udid = same(arg, "--udid");
        let is_output = same(arg, "--output");
        let is_hostname = same(arg, "--hostname");
        if is_udid || is_output || is_hostname {
            i += 1;
            if i >= args.len() {
                return HelperCommand::MissingValue;
            }
            proof {
                assert(all.skip(i - 1)[1] == args@[i as int]@);
                assert(all.skip(i - 1).skip(2) =~= all.skip(i + 1));
            }
            let value = args[i].clone();
            if is_udid {
                udid = Some(value);
            } else if is_output {
                output = value;
            } else {
                hostname = value;
            }
        } else if same(arg, "-h") || same(arg, "--help") {
            return HelperCommand::Help;
        } else {
            return HelperCommand::Unknown(args[i].clone());
        }
        i += 1;
    }
    HelperCommand::Run(HelperOptions { udid, output, hostname })
}

/// How the helper ends on a command that makes no record.
pub open spec fn helper_command_exit(command: HelperCommandView) -> Option<ExitView> {
    match command {
        HelperCommandView::Run(_) => None,
        HelperCommandView::Help => Some(
            ExitView { lines: seq![on_stderr(HELPER_USAGE@)], code: 0 },
        ),
        HelperCommandView::MissingValue => Some(
            ExitView { lines: seq![on_stderr(HELPER_USAGE@)], code: 2 },
        ),
        HelperCommandView::Unknown(arg) => Some(
            ExitView {
                lines: seq![
                    on_stderr("Unknown argument: "@ + arg),
                    on_stderr(HELPER_USAGE@),
                ],
                code: 2,
            },
        ),
    }
}

/// The usage, as a line.
pub fn usage() -> (r: Line)
    ensures
        r@ == on_stderr(HELPER_USAGE@),
{
    stderr(HELPER_USAGE.to_string())
}

/// How the helper ends where the command line asks for no record.
pub fn command_exit(command: &HelperCommand) -> (r: Option<Exit>)
    ensures
        (match r {
            Some(exit) => Some(exit@),
            None => None::<ExitView>,
        }) == helper_command_exit(command@),
{
    let mut lines: Vec<Line> = Vec::new();
    let code: i32 = match command {
        HelperCommand::Run(_) => {
            return None;
        },
        HelperCommand::Help => 0,
        HelperCommand::MissingValue => 2,
        HelperCommand::Unknown(arg) => {
            lines.push(stderr("Unknown argument: ".to_string().concat(arg.as_str())));
            2
        },
    };
    lines.push(usage());
    let exit = Exit { lines, code };
    assert(helper_command_exit(command@) matches Some(e) && exit@.lines =~= e.lines);
    Some(exit)
}

/// The arguments that give these options these values.
pub open spec fn rendered(pairs: Seq<(HelperFlag, Seq<char>)>) -> Seq<Seq<char>>
    decreases pairs.len(),
{
    if pairs.len() == 0 {
        Seq::empty()
    } else {
        seq![pairs[0].0.name(), pairs[0].1] + rendered(pairs.skip(1))
    }
}

/// The options once all of these are set, in turn.
pub open spec fn with_options(
    options: HelperOptionsView,
    pairs: Seq<(HelperFlag, Seq<char>)>,
) -> HelperOptionsView
    decreases pairs.len(),
{
    if pairs.len() == 0 {
        options
    } else {
        with_options(with_option(options, pairs[0].0, pairs[0].1), pairs.skip(1))
    }
}

/// Each option's argument stands for that option.
proof fn lemma_flag_names(flag: HelperFlag)
    ensures
        helper_flag(flag.name()) == Some(flag),
{
    reveal_strlit("--udid");
    reveal_strlit("--output");
    reveal_strlit("--hostname");
    assert("--udid"@.len() == 6);
    assert("--output"@.len() == 8);
    assert("--hostname"@.len() == 10);
}

/// Options with values are taken in turn, any text is taken as a value, and what
/// stands behind them is read as if it stood alone.
pub proof fn law_options_are_taken_in_turn(
    pairs: Seq<(HelperFlag, Seq<char>)>,
    rest: Seq<Seq<char>>,
    so_far: HelperOptionsView,
)
    ensures
        helper_command(rendered(pairs) + rest, so_far) == helper_command(
            rest,
            with_options(so_far, pairs),
        ),
    decreases pairs.len(),
{
    if pairs.len() == 0 {
        assert(rendered(pairs) + rest =~= rest);
    } else {
        let given = rendered(pairs) + rest;
        lemma_flag_names(pairs[0].0);
        assert(given[0] == pairs[0].0.name());
        assert(given[1] == pairs[0].1);
        assert(given.skip(2) =~= rendered(pairs.skip(1)) + rest);
        law_options_are_taken_in_turn(
            pairs.skip(1),
            rest,
            with_option(so_far, pairs[0].0, pairs[0].1),
        );
    }
}

/// The value of the last of these pairs that gives the option one.
pub open spec fn last_value(pairs: Seq<(HelperFlag, Seq<char>)>, flag: HelperFlag) -> Option<
    Seq<char>,
>
    decreases pairs.len(),
{
    if pairs.len() == 0 {
        None
    } else if pairs.last().0 == flag {
        Some(pairs.last().1)
    } else {
        last_value(pairs.drop_last(), flag)
    }
}

proof fn lemma_with_one_more(options: HelperOptionsView, pairs: Seq<(HelperFlag, Seq<char>)>)
    requires
        pairs.len() > 0,
    ensures
        with_options(options, pairs) == with_option(
            with_options(options, pairs.drop_last()),
            pairs.last().0,
            pairs.last().1,
        ),
    decreases pairs.len(),
{
    let none = Seq::<(HelperFlag, Seq<char>)>::empty();
    if pairs.len() == 1 {
        assert(pairs.skip(1) =~= none);
        assert(pairs.drop_last() =~= none);
        reveal_with_fuel(with_options, 2);
    } else {
        assert(pairs.drop_last().skip(1) =~= pairs.skip(1).drop_last());
        assert(pairs.skip(1).last() == pairs.last());
        lemma_with_one_more(with_option(options, pairs[0].0, pairs[0].1), pairs.skip(1));
    }
}

/// The first text, if there is one, or the second.
pub open spec fn text_or(text: Option<Seq<char>>, otherwise: Seq<char>) -> Seq<char> {
    match text {
        Some(t) => t,
        None => otherwise,
    }
}

proof fn lemma_pairs_amount_to(options: HelperOptionsView, pairs: Seq<(HelperFlag, Seq<char>)>)
    ensures
        ({
            let all = with_options(options, pairs);
            &&& all.udid == (if last_value(pairs, HelperFlag::Udid) is Some {
                last_value(pairs, HelperFlag::Udid)
            } else {
                options.udid
            })
            &&& all.output == text_or(last_value(pairs, HelperFlag::Output), options.output)
            &&& all.hostname == text_or(last_value(pairs, HelperFlag::Hostname), options.hostname)
        }),
    decreases pairs.len(),
{
    if pairs.len() > 0 {
        lemma_pairs_amount_to(options, pairs.drop_last());
        lemma_with_one_more(options, pairs);
    }
}

/// A command line of options with values alone asks for a record: of the device that the
/// last `--udid` names, or of any where there is none; in the file that the last
/// `--output` names, and for the host that the last `--hostname` names, or those of the
/// defaults.
pub proof fn law_well_formed_command_line_asks_for_a_record(
    program: Seq<char>,
    pairs: Seq<(HelperFlag, Seq<char>)>,
)
    ensures
        helper_command(
            behind_program_name(seq![program] + rendered(pairs)),
            helper_defaults(),
        ) == HelperCommandView::Run(
            HelperOptionsView {
                udid: last_value(pairs, HelperFlag::Udid),
                output: text_or(last_value(pairs, HelperFlag::Output), "rp_pairing_file.plist"@),
                hostname: text_or(
                    last_value(pairs, HelperFlag::Hostname),
                    "Pikmin Pilot Windows Setup"@,
                ),
            },
        ),
{
    let none = Seq::<Seq<char>>::empty();
    assert(behind_program_name(seq![program] + rendered(pairs)) =~= rendered(pairs) + none);
    law_options_are_taken_in_turn(pairs, none, helper_defaults());
    lemma_pairs_amount_to(helper_defaults(), pairs);
}

/// What stands behind options with values decides, if it is none: an option that stands
/// last lacks its value, a request for help is granted, and any other argument is
/// rejected by name, whatever follows it.
pub proof fn law_first_other_argument_decides(
    program: Seq<char>,
    pairs: Seq<(HelperFlag, Seq<char>)>,
    arg: Seq<char>,
    rest: Seq<Seq<char>>,
)
    ensures
        ({
            let command = helper_command(
                behind_program_name(seq![program] + rendered(pairs) + seq![arg] + rest),
                helper_defaults(),
            );
            let takes_value = arg == "--udid"@ || arg == "--output"@ || arg == "--hostname"@;
            let asks_help = arg == "-h"@ || arg == "--help"@;
            &&& takes_value && rest.len() == 0 ==> command is MissingValue
            &&& asks_help ==> command is Help
            &&& !takes_value && !asks_help ==> command == HelperCommandView::Unknown(arg)
        }),
{
    let given = seq![program] + rendered(pairs) + seq![arg] + rest;
    let other = seq![arg] + rest;
    assert(behind_program_name(given) =~= rendered(pairs) + other);
    law_options_are_taken_in_turn(pairs, other, helper_defaults());
    assert(other[0] == arg);
    reveal_strlit("--udid");
    reveal_strlit("--output");
    reveal_strlit("--hostname");
    reveal_strlit("-h");
    reveal_strlit("--help");
    assert("-h"@.len() == 2);
    assert("--help"@.len() == 6 && "--help"@[2] == 'h');
    assert("--udid"@.len() == 6 && "--udid"@[2] == 'u');
    assert("--output"@.len() == 8);
    assert("--hostname"@.len() == 10);
}

/// Nothing is asked for by an empty command line, with or without the program's name.
pub proof fn law_empty_command_line_asks_for_defaults(program: Seq<char>)
    ensures
        ({
            let plain = HelperCommandView::Run(
                HelperOptionsView {
                    udid: None,
                    output: "rp_pairing_file.plist"@,
                    hostname: "Pikmin Pilot Windows Setup"@,
                },
            );
            &&& helper_command(behind_program_name(Seq::empty()), helper_defaults()) == plain
            &&& helper_command(behind_program_name(seq![program]), helper_defaults()) == plain
        }),
{
    assert(behind_program_name(seq![program]) =~= Seq::<Seq<char>>::empty());
}

/// A command line that asks for a record ends nothing. Any other ends the program with
/// the usage: with code zero where help was asked for, and with code two where the
/// command line is wrong; an unknown argument is named first.
pub proof fn law_wrong_command_lines_end_the_helper(options: HelperOptionsView, arg: Seq<char>)
    ensures
        HELPER_USAGE@
            == "Usage:\n  PikminPilotPairingHelper.exe [--udid <UDID>] [--output <FILE>] [--hostname <NAME>]\n\nExample:\n  PikminPilotPairingHelper.exe --udid 00008103-000A78D13684C01E --output C:\\Users\\woody\\Downloads\\rp_pairing_file.plist"@,
        helper_command_exit(HelperCommandView::Run(options)) is None,
        helper_command_exit(HelperCommandView::Help) matches Some(exit) && exit.code == 0
            && exit.lines == seq![on_stderr(HELPER_USAGE@)],
        helper_command_exit(HelperCommandView::MissingValue) matches Some(exit) && exit.code == 2
            && exit.lines == seq![on_stderr(HELPER_USAGE@)],
        helper_command_exit(HelperCommandView::Unknown(arg)) matches Some(exit) && exit.code == 2
            && exit.lines == seq![
            on_stderr("Unknown argument: "@ + arg),
            on_stderr(HELPER_USAGE@),
        ],
{
}

} // verus!
