//! Status lines: each one returns to the start of the terminal's line and
//! clears it before the message, so that it takes the place of the line
//! shown before.

use vstd::prelude::*;
use vstd::string::StringExecFns;

verus! {

/// The control sequence that clears the line the cursor is on:
/// the escape character, then `[2K`.
pub open spec fn clear_line_text() -> Seq<char> {
    seq!['\u{1b}', '[', '2', 'K']
}

/// A message as a status line: carriage return, the sequence that clears
/// the line, the message.
pub open spec fn status_line_text(message: Seq<char>) -> Seq<char> {
    seq!['\r'] + clear_line_text() + message
}

/// What termion's `clear::CurrentLine` writes when it is displayed. Its
/// source gives the fixed text made of the escape character, `[` and `2K`;
/// that it is this text is taken on trust here.
#[verifier::external_body]
fn clear_current_line() -> (text: String)
    ensures
        text@ == clear_line_text(),
{
    format!("{}", termion::clear::CurrentLine)
}

/// The status line that shows `message` in place of the line shown before.
pub fn status_line(message: &str) -> (line: String)
    ensures
        line@ == status_line_text(message@),
{
    let mut line = String::from_str("\r");
    proof {
        reveal_strlit("\r");
        assert(line@ =~= seq!['\r']);
    }
    let clear = clear_current_line();
    line.append(clear.as_str());
    line.append(message);
    line
}

} // verus!
