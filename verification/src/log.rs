//! What every error of this project can say about itself, and the report
//! that is shown to the user when one ends the program.

use vstd::prelude::*;
use vstd::string::StringExecFns;

verus! {

/// An error with a short title naming where it came from and a message.
pub trait ProjectError {
    /// The title, as text.
    spec fn title_text(&self) -> Seq<char>;

    /// The message, as text.
    spec fn message_text(&self) -> Seq<char>;

    /// Short name of the part of the program the error came from.
    fn title(&self) -> (title: String)
        ensures
            title@ == self.title_text(),
    ;

    /// Human-readable description of what went wrong.
    fn message(&self) -> (message: String)
        ensures
            message@ == self.message_text(),
    ;
}

/// What is printed and shown for one error.
pub struct ErrorReport {
    /// Line printed above and below the console message.
    pub rule: String,
    /// The console message.
    pub console_line: String,
    /// Caption of the message box.
    pub box_title: String,
    /// Text of the message box.
    pub box_text: String,
}

/// Fifty dashes.
pub open spec fn rule_text() -> Seq<char> {
    Seq::new(50, |i: int| '-')
}

/// `[<title> Error] <message>`
pub open spec fn console_text(title: Seq<char>, message: Seq<char>) -> Seq<char> {
    "["@ + title + " Error] "@ + message
}

/// `<title> Error`
pub open spec fn box_title_text(title: Seq<char>) -> Seq<char> {
    title + " Error"@
}

/// Builds the report for `error`: a rule of fifty dashes, the console line
/// `[<title> Error] <message>`, and a message box captioned `<title> Error`
/// that shows the message.
pub fn handle<E: ProjectError>(error: &E) -> (report: ErrorReport)
    ensures
        report.rule@ == rule_text(),
        report.console_line@ == console_text(error.title_text(), error.message_text()),
        report.box_title@ == box_title_text(error.title_text()),
        report.box_text@ == error.message_text(),
{
    let title = error.title();
    let message = error.message();
    let rule = String::from_str("--------------------------------------------------");
    proof {
        reveal_strlit("--------------------------------------------------");
        assert(rule@ =~= rule_text());
    }
    let mut console_line = String::from_str("[");
    console_line.append(title.as_str());
    console_line.append(" Error] ");
    console_line.append(message.as_str());
    let mut box_title = title;
    box_title.append(" Error");
    ErrorReport { rule, console_line, box_title, box_text: message }
}

} // verus!
