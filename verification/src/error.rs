//! Diagnostics and runtime events.
//!
//! `RuntimeEvent` is the fallible-result payload threaded through
//! evaluation: a genuine runtime error, a parse error, the `return`
//! control-transfer signal (not an error), or exhaustion of the
//! evaluation budget. `ErrorHandler` collects structured diagnostics;
//! rendering and printing them is the driver's business.

use vstd::prelude::*;

use crate::token::{Token, TokenModel};
use crate::value::{Interpretable, ValueModel};

verus! {

/// An out-of-band event produced while parsing or evaluating.
#[derive(Debug)]
pub enum RuntimeEvent {
    /// A parse error, with its message.
    ParseError(String),
    /// A runtime error: the token it arose at and its message.
    InterpreterError(Token, String),
    /// The `return` control-transfer signal carrying the returned
    /// value; never reported as an error by a correct evaluator,
    /// except for a `return` at the top level.
    Return(Interpretable),
    /// The evaluation budget ran out before the program finished.
    OutOfFuel,
}

/// Mathematical model of a runtime event.
#[verifier::ext_equal]
pub ghost enum EventModel {
    ParseErr(Seq<char>),
    RunErr { token: TokenModel, message: Seq<char> },
    Ret(ValueModel),
    Halt,
}

impl View for RuntimeEvent {
    type V = EventModel;

    open spec fn view(&self) -> EventModel {
        match self {
            RuntimeEvent::ParseError(m) => EventModel::ParseErr(m@),
            RuntimeEvent::InterpreterError(t, m) => EventModel::RunErr {
                token: t@,
                message: m@,
            },
            RuntimeEvent::Return(v) => EventModel::Ret(v@),
            RuntimeEvent::OutOfFuel => EventModel::Halt,
        }
    }
}

impl RuntimeEvent {
    pub fn parse_error(message: &str) -> (r: Self)
        ensures
            r@ == EventModel::ParseErr(message@),
    {
        RuntimeEvent::ParseError(message.to_owned())
    }

    pub fn interpreter_error(token: Token, message: &str) -> (r: Self)
        ensures
            r@ == (EventModel::RunErr { token: token@, message: message@ }),
    {
        RuntimeEvent::InterpreterError(token, message.to_owned())
    }

    pub fn new_return(value: Interpretable) -> (r: Self)
        ensures
            r@ == EventModel::Ret(value@),
    {
        RuntimeEvent::Return(value)
    }
}

/// One collected diagnostic.
#[derive(Debug)]
pub enum Diagnostic {
    /// A scanning error: source line and message.
    Scan { line: u32, message: String },
    /// A parse error: source line, a location hint such as
    /// ` at 'foo'` or ` at end`, and the message.
    Parse { line: u32, location: String, message: String },
    /// A runtime event reported at the top level.
    Runtime { event: RuntimeEvent },
}

/// Mathematical model of a diagnostic.
#[verifier::ext_equal]
pub ghost enum DiagModel {
    Scan { line: u32, message: Seq<char> },
    Parse { line: u32, location: Seq<char>, message: Seq<char> },
    Runtime { event: EventModel },
}

impl View for Diagnostic {
    type V = DiagModel;

    open spec fn view(&self) -> DiagModel {
        match self {
            Diagnostic::Scan { line, message } => DiagModel::Scan {
                line: *line,
                message: message@,
            },
            Diagnostic::Parse { line, location, message } => DiagModel::Parse {
                line: *line,
                location: location@,
                message: message@,
            },
            Diagnostic::Runtime { event } => DiagModel::Runtime { event: event@ },
        }
    }
}

/// Mathematical model of a diagnostics sink.
#[verifier::ext_equal]
pub ghost struct HandlerModel {
    pub had_error: bool,
    pub log: Seq<DiagModel>,
}

/// Collects diagnostics from scanning, parsing and evaluation, and
/// remembers whether any was reported.
#[derive(Debug)]
pub struct ErrorHandler {
    pub had_error: bool,
    pub diagnostics: Vec<Diagnostic>,
}

impl View for ErrorHandler {
    type V = HandlerModel;

    open spec fn view(&self) -> HandlerModel {
        HandlerModel {
            had_error: self.had_error,
            log: self.diagnostics@.map_values(|d: Diagnostic| d@),
        }
    }
}

impl ErrorHandler {
    pub fn new() -> (r: Self)
        ensures
            r@ == (HandlerModel { had_error: false, log: Seq::empty() }),
    {
        ErrorHandler { had_error: false, diagnostics: Vec::new() }
    }

    /// Record a scanning diagnostic.
    pub fn scanning_error(&mut self, line: u32, message: &str)
        ensures
            final(self)@ == (HandlerModel {
                had_error: true,
                log: old(self)@.log.push(DiagModel::Scan { line, message: message@ }),
            }),
    {
        self.diagnostics.push(Diagnostic::Scan { line, message: message.to_owned() });
        self.had_error = true;
    }

    /// Record a parsing diagnostic.
    pub fn parsing_error(&mut self, line: u32, location: &str, message: &str)
        ensures
            final(self)@ == (HandlerModel {
                had_error: true,
                log: old(self)@.log.push(DiagModel::Parse {
                    line,
                    location: location@,
                    message: message@,
                }),
            }),
    {
        self.diagnostics.push(Diagnostic::Parse {
            line,
            location: location.to_owned(),
            message: message.to_owned(),
        });
        self.had_error = true;
    }

    /// Record a runtime event reported at the top level.
    pub fn runtime_error(&mut self, error: RuntimeEvent)
        ensures
            final(self)@ == (HandlerModel {
                had_error: true,
                log: old(self)@.log.push(DiagModel::Runtime { event: error@ }),
            }),
    {
        self.diagnostics.push(Diagnostic::Runtime { event: error });
        self.had_error = true;
    }
}

/// The interface the scanner, parser and interpreter report
/// diagnostics through.
pub trait ProcessingErrorHandler {
    fn scanning_error(&mut self, line: u32, message: &str);

    fn parsing_error(&mut self, line: u32, location: &str, message: &str);

    fn runtime_error(&mut self, error: RuntimeEvent);
}

} // verus!
