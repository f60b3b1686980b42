//! What a program prints, and how it ends.
use vstd::prelude::*;

verus! {

/// Where a line is printed.
#[derive(Clone, Copy, Debug, PartialEq, Eq, Structural)]
pub enum Channel {
    Stdout,
    Stderr,
}

/// A line to print, without its line end.
#[derive(Debug, PartialEq, Eq)]
pub struct Line {
    pub channel: Channel,
    pub text: String,
}

/// The model of a line.
#[verifier::ext_equal]
pub struct LineView {
    pub channel: Channel,
    pub text: Seq<char>,
}

impl View for Line {
    type V = LineView;

    open spec fn view(&self) -> LineView {
        LineView { channel: self.channel, text: self.text@ }
    }
}

/// The lines of a vector, in order.
pub open spec fn lines_view(v: Seq<Line>) -> Seq<LineView> {
    v.map_values(|l: Line| l@)
}

/// A line for standard output.
pub open spec fn on_stdout(text: Seq<char>) -> LineView {
    LineView { channel: Channel::Stdout, text }
}

/// A line for standard error.
pub open spec fn on_stderr(text: Seq<char>) -> LineView {
    LineView { channel: Channel::Stderr, text }
}

/// The end of a program: what it prints last, and its exit code.
#[derive(Debug, PartialEq, Eq)]
pub struct Exit {
    pub lines: Vec<Line>,
    pub code: i32,
}

/// The model of a program's end.
#[verifier::ext_equal]
pub struct ExitView {
    pub lines: Seq<LineView>,
    pub code: i32,
}

impl View for Exit {
    type V = ExitView;

    open spec fn view(&self) -> ExitView {
        ExitView { lines: lines_view(self.lines@), code: self.code }
    }
}

/// A line for standard output.
pub fn stdout(text: String) -> (r: Line)
    ensures
        r@ == on_stdout(text@),
        r.channel == Channel::Stdout,
        r.text@ == text@,
{
    Line { channel: Channel::Stdout, text }
}

/// A line for standard error.
pub fn stderr(text: String) -> (r: Line)
    ensures
        r@ == on_stderr(text@),
        r.channel == Channel::Stderr,
        r.text@ == text@,
{
    Line { channel: Channel::Stderr, text }
}

/// A line holds the text that it is made of, for the channel that it is made for.
pub proof fn law_lines_hold_their_text(text: Seq<char>)
    ensures
        on_stdout(text).text == text,
        on_stdout(text).channel == Channel::Stdout,
        on_stderr(text).text == text,
        on_stderr(text).channel == Channel::Stderr,
{
}

/// A vector's lines are shown one for one, in their order.
pub proof fn law_lines_are_shown_in_order(v: Seq<Line>)
    ensures
        lines_view(v).len() == v.len(),
        forall|i: int|
            0 <= i < v.len() ==> (#[trigger] lines_view(v)[i]).text == v[i].text@
                && lines_view(v)[i].channel == v[i].channel,
{
}

} // verus!
