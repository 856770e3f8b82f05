//! What the interpreter reports when a call into it fails, and how that
//! report is rendered as one line of diagnostics.

use vstd::prelude::*;
use vstd::string::*;
use crate::error::text_of;

verus! {

/// A failed call, as plain text taken from the interpreter.
#[derive(Clone, Debug, PartialEq, Eq)]
pub enum CaughtFault {
    /// The script threw an error object. `message` and `stack` are its
    /// properties of those names, where it has them.
    Exception { message: Option<String>, stack: Option<String> },
    /// The interpreter itself failed; no script value was thrown.
    Engine(String),
    /// The script threw a value that is no error object. The text is the
    /// value's debug rendering.
    Raw(String),
}

/// A failed call, as a mathematical value.
pub enum FaultView {
    Exception { message: Option<Seq<char>>, stack: Option<Seq<char>> },
    Engine(Seq<char>),
    Raw(Seq<char>),
}

impl View for CaughtFault {
    type V = FaultView;

    open spec fn view(&self) -> FaultView {
        match self {
            CaughtFault::Exception { message, stack } => FaultView::Exception {
                message: text_of(*message),
                stack: text_of(*stack),
            },
            CaughtFault::Engine(text) => FaultView::Engine(text@),
            CaughtFault::Raw(text) => FaultView::Raw(text@),
        }
    }
}

/// The diagnostic line for a fault.
///
/// A thrown error object gives its message, or `Unknown error` where it has
/// none, followed by its stack trace under a heading where it has one. A
/// fault of the interpreter gives the interpreter's own text. Any other
/// thrown value gives its debug rendering behind a fixed label.
pub open spec fn fault_text(fault: FaultView) -> Seq<char> {
    match fault {
        FaultView::Exception { message, stack } => {
            let head = match message {
                Some(m) => m,
                None => "Unknown error"@,
            };
            match stack {
                Some(s) => head + "\nStack trace:\n"@ + s,
                None => head,
            }
        },
        FaultView::Engine(text) => text,
        FaultView::Raw(text) => "JavaScript error: "@ + text,
    }
}

/// Renders a fault as one diagnostic string.
pub fn format_js_exception(error: &CaughtFault) -> (r: String)
    ensures
        r@ == fault_text(error@),
{
    match error {
        CaughtFault::Exception { message, stack } => {
            let mut text = match message {
                Some(m) => m.clone(),
                None => String::from_str("Unknown error"),
            };
            match stack {
                Some(s) => {
                    text.append("\nStack trace:\n");
                    text.append(s.as_str());
                },
                None => {},
            }
            text
        },
        CaughtFault::Engine(text) => text.clone(),
        CaughtFault::Raw(text) => {
            let mut line = String::from_str("JavaScript error: ");
            line.append(text.as_str());
            line
        },
    }
}

} // verus!
