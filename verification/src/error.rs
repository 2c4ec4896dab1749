//! The kinds of failure a host knows, their numeric codes and what is done
//! about each.

use vstd::prelude::*;
use vstd::string::StringExecFns;

verus! {

/// The kinds of failure that cross the host's C interface or end up in its log.
#[derive(Clone, Copy, Debug, PartialEq, Eq, Structural)]
pub enum ErrorKind {
    /// A null or non-UTF-8 string came from the driver.
    BadArgument,
    /// The shared library could not be found or opened.
    LibraryOpen,
    /// A required plugin symbol is absent.
    SymbolMissing,
    /// `start` was called on a host that had been started.
    AlreadyRunning,
    /// Plugin code panicked at the boundary.
    PluginPanic,
    /// The log bridge could not be installed.
    LoggerSetup,
}

/// What the host does about a failure.
#[derive(Clone, Copy, Debug, PartialEq, Eq, Structural)]
pub enum Handling {
    /// Hand the code back to the caller and leave the host as it was.
    ReturnCode,
    /// Log, then shut the whole host down gracefully.
    ShutDownHost,
    /// Warn on standard error and go on.
    WarnAndContinue,
}

/// The code that stands for `kind` at the C interface. Zero is success, so
/// every kind has a positive code.
pub open spec fn code_of(kind: ErrorKind) -> u32 {
    match kind {
        ErrorKind::BadArgument => 1,
        ErrorKind::LibraryOpen => 2,
        ErrorKind::SymbolMissing => 3,
        ErrorKind::AlreadyRunning => 4,
        ErrorKind::PluginPanic => 5,
        ErrorKind::LoggerSetup => 6,
    }
}

/// What is done about a failure of kind `kind`.
pub open spec fn handling_of(kind: ErrorKind) -> Handling {
    match kind {
        ErrorKind::PluginPanic => Handling::ShutDownHost,
        ErrorKind::LoggerSetup => Handling::WarnAndContinue,
        _ => Handling::ReturnCode,
    }
}

impl ErrorKind {
    /// The kind's code.
    pub fn code(self) -> (code: u32)
        ensures
            code == code_of(self),
            code > 0,
    {
        match self {
            ErrorKind::BadArgument => 1,
            ErrorKind::LibraryOpen => 2,
            ErrorKind::SymbolMissing => 3,
            ErrorKind::AlreadyRunning => 4,
            ErrorKind::PluginPanic => 5,
            ErrorKind::LoggerSetup => 6,
        }
    }

    /// The kind that `code` stands for, if it stands for one.
    pub fn from_code(code: u32) -> (kind: Option<ErrorKind>)
        ensures
            match kind {
                Some(k) => code_of(k) == code,
                None => forall|k: ErrorKind| code_of(k) != code,
            },
    {
        if code == 1 {
            Some(ErrorKind::BadArgument)
        } else if code == 2 {
            Some(ErrorKind::LibraryOpen)
        } else if code == 3 {
            Some(ErrorKind::SymbolMissing)
        } else if code == 4 {
            Some(ErrorKind::AlreadyRunning)
        } else if code == 5 {
            Some(ErrorKind::PluginPanic)
        } else if code == 6 {
            Some(ErrorKind::LoggerSetup)
        } else {
            None
        }
    }

    /// What the host does about a failure of this kind.
    pub fn handling(self) -> (handling: Handling)
        ensures
            handling == handling_of(self),
    {
        match self {
            ErrorKind::PluginPanic => Handling::ShutDownHost,
            ErrorKind::LoggerSetup => Handling::WarnAndContinue,
            _ => Handling::ReturnCode,
        }
    }
}

/// No code is zero, and no two kinds share a code.
pub proof fn lemma_codes_tell_kinds_apart(a: ErrorKind, b: ErrorKind)
    ensures
        code_of(a) > 0,
        code_of(a) == code_of(b) ==> a == b,
{
}

/// A failure inside the host, as it is reported after plugin or host code
/// gave up.
#[derive(Debug)]
pub enum UServiceError {
    /// The failure carried a message.
    Message(String),
    /// Nothing is known of the failure.
    Unknown,
}

impl UServiceError {
    /// The error for a panic whose payload held `message`, or held no text.
    pub fn from_panic(message: Option<String>) -> (error: UServiceError)
        ensures
            match message {
                Some(text) => error == UServiceError::Message(text),
                None => error == UServiceError::Unknown,
            },
    {
        match message {
            Some(text) => UServiceError::Message(text),
            None => UServiceError::Unknown,
        }
    }
}

/// What the driver makes of a call into the host that did not succeed.
#[derive(Clone, Copy, Debug, PartialEq, Eq, Structural)]
pub enum MyMainError {
    /// The call itself reported a failure.
    FFICall,
    /// An argument was null or could not cross the boundary as a C string.
    ParseNull,
    /// The code that came back stands for nothing known.
    Unknown,
}

/// The text that describes `error`.
pub open spec fn description_of(error: MyMainError) -> Seq<char> {
    match error {
        MyMainError::FFICall => "FFICall error"@,
        MyMainError::ParseNull => "ParseNull error"@,
        MyMainError::Unknown => "Unknown error"@,
    }
}

impl MyMainError {
    /// The text that describes this error.
    pub fn describe(&self) -> (text: String)
        ensures
            text@ == description_of(*self),
    {
        match self {
            MyMainError::FFICall => String::from_str("FFICall error"),
            MyMainError::ParseNull => String::from_str("ParseNull error"),
            MyMainError::Unknown => String::from_str("Unknown error"),
        }
    }
}

} // verus!
