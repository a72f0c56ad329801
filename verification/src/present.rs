//! The text that the program shows: plain lines for a reader, nothing meant
//! for a machine.
//!
//! A double-precision value is turned into text by the caller; this module
//! takes the finished pieces and lays them out.

use vstd::prelude::*;
use vstd::string::StringExecFns;
use crate::session::{Failure, Output, OutputView};
use crate::text::{integer_text, push_integer, push_natural};

verus! {

/// The pieces in order, each followed by one space.
pub open spec fn spaced(items: Seq<Seq<char>>) -> Seq<char>
    decreases items.len(),
{
    if items.len() == 0 {
        Seq::empty()
    } else {
        spaced(items.drop_last()) + items.last() + " "@
    }
}

/// One line: the label, the pieces each followed by a space, a line feed.
pub open spec fn row(label: Seq<char>, items: Seq<Seq<char>>) -> Seq<char> {
    label + spaced(items) + "\n"@
}

/// The two lines of a reading: positions first, then speeds, by axis index.
pub open spec fn reading_text(positions: Seq<Seq<char>>, speeds: Seq<Seq<char>>) -> Seq<char> {
    row("pos: "@, positions) + row("speed: "@, speeds)
}

/// A line that holds one integer in decimal and nothing else.
pub open spec fn integer_line(n: int) -> Seq<char> {
    integer_text(n) + "\n"@
}

/// What a finished session shows on standard output: nothing after a command
/// that only acts, one line for a count or a status, two lines for a reading.
/// `positions` and `speeds` are the text of the reading's values.
pub open spec fn shown(
    output: OutputView,
    positions: Seq<Seq<char>>,
    speeds: Seq<Seq<char>>,
) -> Seq<char> {
    match output {
        OutputView::Nothing => Seq::empty(),
        OutputView::AxisCount(count) => integer_line(count as int),
        OutputView::Status(code) => integer_line(code as int),
        OutputView::Reading(_) => reading_text(positions, speeds),
    }
}

/// The diagnostic of a failure. Where the library returned a code, the text
/// ends with that code in decimal.
pub open spec fn diagnostic(failure: Failure) -> Seq<char> {
    match failure {
        Failure::Initialize(code) => "Error while initializing. Return Code: "@ + integer_text(
            code as int,
        ),
        Failure::Operation(code) => "error: "@ + integer_text(code as int),
        Failure::Stop(code) => "Error stopping the manipulator: "@ + integer_text(code as int),
        Failure::NullBuffer => "error: the read call returned success but left a buffer pointer null"@,
        Failure::Oversized => "error: the axis count is too large to allocate buffers for"@,
    }
}

/// Appends one row to `out`.
fn push_row(out: &mut String, label: &str, items: &Vec<String>)
    ensures
        final(out)@ == old(out)@ + row(label@, items.deep_view()),
{
    let ghost before = out@;
    let ghost pieces = items.deep_view();
    out.append(label);
    let mut i: usize = 0;
    while i < items.len()
        invariant
            i <= items.len(),
            pieces == items.deep_view(),
            out@ == before + label@ + spaced(pieces.take(i as int)),
        decreases items.len() - i,
    {
        out.append(items[i].as_str());
        out.append(" ");
        proof {
            let grown = pieces.take(i + 1);
            assert(grown.drop_last() =~= pieces.take(i as int));
            assert(grown.last() == items@[i as int]@);
            assert(out@ =~= before + label@ + spaced(grown));
        }
        i += 1;
    }
    out.append("\n");
    proof {
        assert(pieces.take(i as int) =~= pieces);
        assert(out@ =~= before + row(label@, pieces));
    }
}

/// The two lines that show a reading. `positions` and `speeds` hold the text
/// of each value, by axis index.
pub fn reading_lines(positions: &Vec<String>, speeds: &Vec<String>) -> (s: String)
    ensures
        s@ == reading_text(positions.deep_view(), speeds.deep_view()),
{
    let mut s = String::new();
    push_row(&mut s, "pos: ", positions);
    push_row(&mut s, "speed: ", speeds);
    assert(s@ =~= reading_text(positions.deep_view(), speeds.deep_view()));
    s
}

/// The line that shows a status. Every value is shown as the integer it is,
/// the ones that the library documents and all others alike.
pub fn status_line(code: i32) -> (s: String)
    ensures
        s@ == integer_line(code as int),
{
    let mut s = String::new();
    push_integer(&mut s, code as i64);
    s.append("\n");
    assert(s@ =~= integer_line(code as int));
    s
}

/// The line that shows the number of axes.
pub fn count_line(count: usize) -> (s: String)
    ensures
        s@ == integer_line(count as int),
{
    let mut s = String::new();
    push_natural(&mut s, count as u64);
    s.append("\n");
    assert(s@ =~= integer_line(count as int));
    s
}

/// The text that a finished session shows. For a reading, `positions` and
/// `speeds` hold the text of each of its values, by axis index; for every
/// other output they are not looked at.
pub fn report(output: &Output, positions: &Vec<String>, speeds: &Vec<String>) -> (s: String)
    ensures
        s@ == shown(output@, positions.deep_view(), speeds.deep_view()),
{
    match output {
        Output::Nothing => String::new(),
        Output::AxisCount(count) => count_line(*count),
        Output::Status(code) => status_line(*code),
        Output::Reading(_) => reading_lines(positions, speeds),
    }
}

impl Failure {
    /// The diagnostic with which the program ends on this failure.
    pub fn message(&self) -> (s: String)
        ensures
            s@ == diagnostic(*self),
    {
        match *self {
            Failure::Initialize(code) => {
                let mut s = String::from_str("Error while initializing. Return Code: ");
                push_integer(&mut s, code as i64);
                s
            },
            Failure::Operation(code) => {
                let mut s = String::from_str("error: ");
                push_integer(&mut s, code as i64);
                s
            },
            Failure::Stop(code) => {
                let mut s = String::from_str("Error stopping the manipulator: ");
                push_integer(&mut s, code as i64);
                s
            },
            Failure::NullBuffer => String::from_str(
                "error: the read call returned success but left a buffer pointer null",
            ),
            Failure::Oversized => String::from_str(
                "error: the axis count is too large to allocate buffers for",
            ),
        }
    }
}

} // verus!
