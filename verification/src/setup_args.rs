//! The command line of the setup program.
use vstd::prelude::*;
use crate::console::{on_stderr, on_stdout, stderr, stdout, Exit, ExitView, Line};
use crate::helper_args::behind_program_name;
use crate::text::{optional, same, texts};

verus! {

/// How the setup is called.
pub const SETUP_USAGE: &'static str =
    "PikminPilotSetup.exe [--udid <UDID>] [--show-udid] [--no-pause]";

/// What the setup was asked to do.
#[derive(Debug, PartialEq, Eq)]
pub struct Args {
    pub udid: Option<String>,
    pub no_pause: bool,
    pub show_udid_only: bool,
}

/// The model of the arguments.
#[verifier::ext_equal]
pub struct ArgsView {
    pub udid: Option<Seq<char>>,
    pub no_pause: bool,
    pub show_udid_only: bool,
}

impl View for Args {
    type V = ArgsView;

    open spec fn view(&self) -> ArgsView {
        ArgsView {
            udid: optional(self.udid),
            no_pause: self.no_pause,
            show_udid_only: self.show_udid_only,
        }
    }
}

impl Default for Args {
    fn default() -> (r: Args)
        ensures
            r@ == setup_defaults(),
    {
        Args { udid: None, no_pause: false, show_udid_only: false }
    }
}

/// What a command line amounts to.
#[derive(Debug, PartialEq, Eq)]
pub enum SetupCommand {
    /// Set up a device.
    Run(Args),
    /// Show the usage.
    Help,
    /// `--udid` stands last, without its value.
    MissingUdid,
    /// This argument is none of the setup's.
    Unknown(String),
}

/// The model of a command.
#[verifier::ext_equal]
pub enum SetupCommandView {
    Run(ArgsView),
    Help,
    MissingUdid,
    Unknown(Seq<char>),
}

impl View for SetupCommand {
    type V = SetupCommandView;

    open spec fn view(&self) -> SetupCommandView {
        match self {
            SetupCommand::Run(args) => SetupCommandView::Run(args@),
            SetupCommand::Help => SetupCommandView::Help,
            SetupCommand::MissingUdid => SetupCommandView::MissingUdid,
            SetupCommand::Unknown(arg) => SetupCommandView::Unknown(arg@),
        }
    }
}

/// The arguments before any is read: no UDID, a pause at the end, a full setup.
pub open spec fn setup_defaults() -> ArgsView {
    ArgsView { udid: None, no_pause: false, show_udid_only: false }
}

/// What the arguments amount to, read from the left.
pub open spec fn setup_command(given: Seq<Seq<char>>, so_far: ArgsView) -> SetupCommandView
    decreases given.len(),
{
    if given.len() == 0 {
        SetupCommandView::Run(so_far)
    } else if given[0] == "--udid"@ {
        if given.len() == 1 {
            SetupCommandView::MissingUdid
        } else {
            setup_command(given.skip(2), ArgsView { udid: Some(given[1]), ..so_far })
        }
    } else if given[0] == "--no-pause"@ {
        setup_command(given.skip(1), ArgsView { no_pause: true, ..so_far })
    } else if given[0] == "--show-udid"@ {
        setup_command(given.skip(1), ArgsView { show_udid_only: true, ..so_far })
    } else if given[0] == "-h"@ || given[0] == "--help"@ {
        SetupCommandView::Help
    } else {
        SetupCommandView::Unknown(given[0])
    }
}

/// Reads the setup's command line; `args` starts with the program's name.
pub fn parse_args(args: &Vec<String>) -> (command: SetupCommand)
    ensures
        command@ == setup_command(behind_program_name(texts(args@)), setup_defaults()),
{
    let mut out = Args::default();
    let ghost all = texts(args@);
    if args.len() == 0 {
        return SetupCommand::Run(out);
    }
    let mut i: usize = 1;
    while i < args.len()
        invariant
            all == texts(args@),
            1 <= i <= args@.len(),
            setup_command(behind_program_name(all), setup_defaults()) == setup_command(
                all.skip(i as int),
                out@,
            ),
        decreases args@.len() - i,
    {
        let arg = args[i].as_str();
        proof {
            assert(all.skip(i as int)[0] == arg@);
            assert(all.skip(i as int).skip(1) =~= all.skip(i + 1));
        }
        if same(arg, "--udid") {
            i += 1;
            if i >= args.len() {
                return SetupCommand::MissingUdid;
            }
            proof {
                assert(all.skip(i - 1)[1] == args@[i as int]@);
                assert(all.skip(i - 1).skip(2) =~= all.skip(i + 1));
            }
            out.udid = Some(args[i].clone());
        } else if same(arg, "--no-pause") {
            out.no_pause = true;
        } else if same(arg, "--show-udid") {
            out.show_udid_only = true;
        } else if same(arg, "-h") || same(arg, "--help") {
            return SetupCommand::Help;
        } else {
            return SetupCommand::Unknown(args[i].clone());
        }
        i += 1;
    }
    SetupCommand::Run(out)
}

/// How the setup ends on a command that sets nothing up.
pub open spec fn setup_command_exit(command: SetupCommandView) -> Option<ExitView> {
    match command {
        SetupCommandView::Run(_) => None,
        SetupCommandView::Help => Some(
            ExitView { lines: seq![on_stdout(SETUP_USAGE@)], code: 0 },
        ),
        SetupCommandView::MissingUdid => Some(
            ExitView { lines: seq![on_stderr("--udid requires a value"@)], code: 2 },
        ),
        SetupCommandView::Unknown(arg) => Some(
            ExitView { lines: seq![on_stderr("Unknown argument: "@ + arg)], code: 2 },
        ),
    }
}

/// How the setup ends where the command line asks for no setup.
pub fn command_exit(command: &SetupCommand) -> (r: Option<Exit>)
    ensures
        (match r {
            Some(exit) => Some(exit@),
            None => None::<ExitView>,
        }) == setup_command_exit(command@),
{
    let mut lines: Vec<Line> = Vec::new();
    let code: i32 = match command {
        SetupCommand::Run(_) => {
            return None;
        },
        SetupCommand::Help => {
            lines.push(stdout(SETUP_USAGE.to_string()));
            0
        },
        SetupCommand::MissingUdid => {
            lines.push(stderr("--udid requires a value".to_string()));
            2
        },
        SetupCommand::Unknown(arg) => {
            lines.push(stderr("Unknown argument: ".to_string().concat(arg.as_str())));
            2
        },
    };
    let exit = Exit { lines, code };
    assert(setup_command_exit(command@) matches Some(e) && exit@.lines =~= e.lines);
    Some(exit)
}

/// One well-formed argument group of the setup.
pub enum SetupItem {
    Udid(Seq<char>),
    NoPause,
    ShowUdid,
}

/// The arguments of these groups.
pub open spec fn setup_rendered(items: Seq<SetupItem>) -> Seq<Seq<char>>
    decreases items.len(),
{
    if items.len() == 0 {
        Seq::empty()
    } else {
        (match items[0] {
            SetupItem::Udid(udid) => seq!["--udid"@, udid],
            SetupItem::NoPause => seq!["--no-pause"@],
            SetupItem::ShowUdid => seq!["--show-udid"@],
        }) + setup_rendered(items.skip(1))
    }
}

/// The arguments once all of these groups are taken, in turn.
pub open spec fn with_items(args: ArgsView, items: Seq<SetupItem>) -> ArgsView
    decreases items.len(),
{
    if items.len() == 0 {
        args
    } else {
        with_items(
            match items[0] {
                SetupItem::Udid(udid) => ArgsView { udid: Some(udid), ..args },
                SetupItem::NoPause => ArgsView { no_pause: true, ..args },
                SetupItem::ShowUdid => ArgsView { show_udid_only: true, ..args },
            },
            items.skip(1),
        )
    }
}

/// Well-formed arguments are taken in turn, any text is taken as a UDID, and what
/// stands behind them is read as if it stood alone.
pub proof fn law_arguments_are_taken_in_turn(
    items: Seq<SetupItem>,
    rest: Seq<Seq<char>>,
    so_far: ArgsView,
)
    ensures
        setup_command(setup_rendered(items) + rest, so_far) == setup_command(
            rest,
            with_items(so_far, items),
        ),
    decreases items.len(),
{
    if items.len() == 0 {
        assert(setup_rendered(items) + rest =~= rest);
    } else {
        reveal_strlit("--udid");
        reveal_strlit("--no-pause");
        reveal_strlit("--show-udid");
        assert("--udid"@.len() == 6);
        assert("--no-pause"@.len() == 10);
        assert("--show-udid"@.len() == 11);
        let given = setup_rendered(items) + rest;
        let behind = setup_rendered(items.skip(1)) + rest;
        match items[0] {
            SetupItem::Udid(udid) => {
                assert(given[0] == "--udid"@ && given[1] == udid);
                assert(given.skip(2) =~= behind);
            },
            SetupItem::NoPause => {
                assert(given[0] == "--no-pause"@);
                assert(given.skip(1) =~= behind);
            },
            SetupItem::ShowUdid => {
                assert(given[0] == "--show-udid"@);
                assert(given.skip(1) =~= behind);
            },
        }
        law_arguments_are_taken_in_turn(
            items.skip(1),
            rest,
            with_items(so_far, seq![items[0]]),
        );
        assert(seq![items[0]].skip(1) =~= Seq::<SetupItem>::empty());
        reveal_with_fuel(with_items, 2);
    }
}

/// The UDID of the last group that gives one.
pub open spec fn last_udid(items: Seq<SetupItem>) -> Option<Seq<char>>
    decreases items.len(),
{
    if items.len() == 0 {
        None
    } else {
        match items.last() {
            SetupItem::Udid(udid) => Some(udid),
            _ => last_udid(items.drop_last()),
        }
    }
}

proof fn lemma_with_one_more(args: ArgsView, items: Seq<SetupItem>)
    requires
        items.len() > 0,
    ensures
        with_items(args, items) == with_items(
            with_items(args, items.drop_last()),
            seq![items.last()],
        ),
    decreases items.len(),
{
    let last = seq![items.last()];
    assert(last.skip(1) =~= Seq::<SetupItem>::empty());
    reveal_with_fuel(with_items, 2);
    if items.len() == 1 {
        assert(items =~= last);
    } else {
        let first = with_items(args, seq![items[0]]);
        assert(seq![items[0]].skip(1) =~= Seq::<SetupItem>::empty());
        assert(items.drop_last().skip(1) =~= items.skip(1).drop_last());
        assert(items.skip(1).last() == items.last());
        lemma_with_one_more(first, items.skip(1));
    }
}

proof fn lemma_items_amount_to(items: Seq<SetupItem>)
    ensures
        ({
            let args = with_items(
                ArgsView { udid: None, no_pause: false, show_udid_only: false },
                items,
            );
            &&& args.udid == last_udid(items)
            &&& args.no_pause == items.contains(SetupItem::NoPause)
            &&& args.show_udid_only == items.contains(SetupItem::ShowUdid)
        }),
    decreases items.len(),
{
    let none = ArgsView { udid: None, no_pause: false, show_udid_only: false };
    if items.len() > 0 {
        let front = items.drop_last();
        let last = seq![items.last()];
        lemma_items_amount_to(front);
        lemma_with_one_more(none, items);
        assert(last.skip(1) =~= Seq::<SetupItem>::empty());
        reveal_with_fuel(with_items, 2);
        assert(items =~= front.push(items.last()));
        assert forall|item: SetupItem| items.contains(item) == (front.contains(item)
            || item == items.last()) by {
            if front.contains(item) {
                let i = choose|i: int| 0 <= i < front.len() && front[i] == item;
                assert(items[i] == item);
            }
            if item == items.last() {
                assert(items[items.len() - 1] == item);
            }
            if items.contains(item) && item != items.last() {
                let i = choose|i: int| 0 <= i < items.len() && items[i] == item;
                assert(front[i] == item);
            }
        }
    }
}

/// A command line of well-formed groups alone asks for a setup: of the device that the
/// last `--udid` names, or of any where there is none; without a pause exactly if
/// `--no-pause` is among them, and for the UDID only exactly if `--show-udid` is.
pub proof fn law_well_formed_command_line_asks_for_a_setup(
    program: Seq<char>,
    items: Seq<SetupItem>,
)
    ensures
        setup_command(
            behind_program_name(seq![program] + setup_rendered(items)),
            setup_defaults(),
        ) == SetupCommandView::Run(
            ArgsView {
                udid: last_udid(items),
                no_pause: items.contains(SetupItem::NoPause),
                show_udid_only: items.contains(SetupItem::ShowUdid),
            },
        ),
{
    let none = Seq::<Seq<char>>::empty();
    assert(behind_program_name(seq![program] + setup_rendered(items)) =~= setup_rendered(items)
        + none);
    law_arguments_are_taken_in_turn(items, none, setup_defaults());
    lemma_items_amount_to(items);
}

/// What stands behind well-formed groups decides, if it is none: a `--udid` that stands
/// last lacks its value, a request for help is granted, and any other argument is
/// rejected by name, whatever follows it.
pub proof fn law_first_other_argument_decides(
    program: Seq<char>,
    items: Seq<SetupItem>,
    arg: Seq<char>,
    rest: Seq<Seq<char>>,
)
    ensures
        ({
            let command = setup_command(
                behind_program_name(seq![program] + setup_rendered(items) + seq![arg] + rest),
                setup_defaults(),
            );
            &&& arg == "--udid"@ && rest.len() == 0 ==> command is MissingUdid
            &&& arg == "-h"@ || arg == "--help"@ ==> command is Help
            &&& arg != "--udid"@ && arg != "--no-pause"@ && arg != "--show-udid"@ && arg != "-h"@
                && arg != "--help"@ ==> command == SetupCommandView::Unknown(arg)
        }),
{
    let given = seq![program] + setup_rendered(items) + seq![arg] + rest;
    let other = seq![arg] + rest;
    assert(behind_program_name(given) =~= setup_rendered(items) + other);
    law_arguments_are_taken_in_turn(items, other, setup_defaults());
    assert(other[0] == arg);
    reveal_strlit("--udid");
    reveal_strlit("--no-pause");
    reveal_strlit("--show-udid");
    reveal_strlit("-h");
    reveal_strlit("--help");
    assert("-h"@.len() == 2);
    assert("--help"@.len() == 6 && "--help"@[2] == 'h');
    assert("--udid"@.len() == 6 && "--udid"@[2] == 'u');
    assert("--no-pause"@.len() == 10);
    assert("--show-udid"@.len() == 11);
}

/// Nothing is asked for by an empty command line, with or without the program's name.
pub proof fn law_empty_command_line_asks_for_defaults(program: Seq<char>)
    ensures
        ({
            let plain = SetupCommandView::Run(
                ArgsView { udid: None, no_pause: false, show_udid_only: false },
            );
            &&& setup_command(behind_program_name(Seq::empty()), setup_defaults()) == plain
            &&& setup_command(behind_program_name(seq![program]), setup_defaults()) == plain
        }),
{
    assert(behind_program_name(seq![program]) =~= Seq::<Seq<char>>::empty());
}

/// A command line that asks for a setup ends nothing. Any other ends the program: with
/// code zero where help was asked for, and with code two, and on standard error, where
/// the command line is wrong; an unknown argument is named.
pub proof fn law_wrong_command_lines_end_the_setup(args: ArgsView, arg: Seq<char>)
    ensures
        setup_command_exit(SetupCommandView::Run(args)) is None,
        setup_command_exit(SetupCommandView::Help) matches Some(exit) && exit.code == 0
            && exit.lines == seq![
            on_stdout("PikminPilotSetup.exe [--udid <UDID>] [--show-udid] [--no-pause]"@),
        ],
        setup_command_exit(SetupCommandView::MissingUdid) matches Some(exit) && exit.code == 2
            && exit.lines == seq![on_stderr("--udid requires a value"@)],
        setup_command_exit(SetupCommandView::Unknown(arg)) matches Some(exit) && exit.code == 2
            && exit.lines == seq![on_stderr("Unknown argument: "@ + arg)],
{
}

} // verus!
