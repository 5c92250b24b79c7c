//! The one error type of the pipeline and the text of its diagnostics.
use crate::front::source_file::Location;
use crate::text::{decimal, push_decimal};
use vstd::prelude::*;
use vstd::string::*;

verus! {

/// The pass that raised an error.
#[derive(Debug, Clone, Copy, PartialEq, Eq, Structural)]
pub enum ExprErrorKind {
    ScannerError,
    ParserError,
    CheckerError,
    InterpreterError,
}

impl ExprErrorKind {
    /// The name of the kind as diagnostics show it.
    pub open spec fn name(self) -> Seq<char> {
        match self {
            ExprErrorKind::ScannerError => "Scanner Error"@,
            ExprErrorKind::ParserError => "Parser Error"@,
            ExprErrorKind::CheckerError => "Checker Error"@,
            ExprErrorKind::InterpreterError => "Interpreter Error"@,
        }
    }

    pub fn to_string(&self) -> (s: String)
        ensures
            s@ == self.name(),
    {
        match self {
            ExprErrorKind::ScannerError => String::from_str("Scanner Error"),
            ExprErrorKind::ParserError => String::from_str("Parser Error"),
            ExprErrorKind::CheckerError => String::from_str("Checker Error"),
            ExprErrorKind::InterpreterError => String::from_str("Interpreter Error"),
        }
    }
}

/// An error of one pass: its kind, what went wrong, and where in the source
/// text, when the pass knows it.
#[derive(Debug)]
pub struct ExprError {
    pub kind: ExprErrorKind,
    pub message: String,
    pub loc: Option<Location>,
}

impl ExprError {
    /// An error without a place in the source text.
    pub fn new(kind: ExprErrorKind, message: String) -> (err: Self)
        ensures
            err.kind == kind,
            err.message == message,
            err.loc is None,
    {
        ExprError { kind, message, loc: None }
    }

    /// An error at a known place in the source text.
    pub fn located(kind: ExprErrorKind, message: String, loc: Location) -> (err: Self)
        ensures
            err.kind == kind,
            err.message == message,
            err.loc == Some(loc),
    {
        ExprError { kind, message, loc: Some(loc) }
    }

    /// The kind's name followed directly by the message.
    pub open spec fn text(self) -> Seq<char> {
        self.kind.name() + self.message@
    }

    pub fn to_string(&self) -> (s: String)
        ensures
            s@ == self.text(),
    {
        let mut s = self.kind.to_string();
        s.append(self.message.as_str());
        s
    }
}

/// The diagnostic line of an error: the place, when there is one, in square
/// brackets with line and column, then the error's text.
pub open spec fn diagnostic(err: ExprError, loc: Option<Location>) -> Seq<char> {
    match loc {
        Some(l) => "[\""@ + l.source_file@ + "\"] line: "@ + decimal(l.line as nat) + ", col: "@
            + decimal(l.col as nat) + " - "@ + err.text(),
        None => err.text(),
    }
}

/// Builds the diagnostic line that is shown for `err` raised at `loc`.
pub fn report_error(err: &ExprError, loc: Option<&Location>) -> (line: String)
    ensures
        line@ == diagnostic(
            *err,
            match loc {
                Some(l) => Some(*l),
                None => None,
            },
        ),
{
    match loc {
        Some(l) => {
            let mut s = String::from_str("[\"");
            s.append(l.source_file.as_str());
            s.append("\"] line: ");
            push_decimal(&mut s, l.line as u64);
            s.append(", col: ");
            push_decimal(&mut s, l.col as u64);
            s.append(" - ");
            let t = err.to_string();
            s.append(t.as_str());
            s
        },
        None => err.to_string(),
    }
}

} // verus!
