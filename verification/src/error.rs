//! The ways in which a call of `mathtex` fails.

use vstd::prelude::*;

verus! {

/// The arguments that `mathtex` knows.
#[derive(Clone, Copy, Debug, PartialEq, Eq, Structural)]
pub enum ArgName {
    Path,
    Literal,
    Style,
}

impl ArgName {
    /// The key under which the argument stands in the argument map.
    pub open spec fn key(self) -> Seq<char> {
        match self {
            ArgName::Path => "path"@,
            ArgName::Literal => "literal"@,
            ArgName::Style => "style"@,
        }
    }

    /// The key under which the argument stands in the argument map.
    pub fn as_str(self) -> (key: &'static str)
        ensures
            key@ == self.key(),
    {
        match self {
            ArgName::Path => "path",
            ArgName::Literal => "literal",
            ArgName::Style => "style",
        }
    }
}

/// Why a call gave no markup. Where the failure came from below, `cause`
/// holds what the reader of the file or the converter said.
#[derive(Clone, Debug, PartialEq, Eq)]
pub enum Error {
    /// Neither `path` nor `literal` was given, or both were.
    Argument,
    /// The named argument was given, but is no text.
    Type(ArgName),
    /// The file of a `path` argument could not be read.
    FileRead { cause: String },
    /// The converter refused the text.
    Conversion { cause: String },
    /// The converter has no answer to the formula: its parser comes to a
    /// `\middle` behind which no operator stands. The formula was not handed
    /// to it.
    Unsupported,
}

/// What an [`Error`] stands for.
pub enum ErrorView {
    Argument,
    Type(ArgName),
    FileRead { cause: Seq<char> },
    Conversion { cause: Seq<char> },
    Unsupported,
}

impl View for Error {
    type V = ErrorView;

    open spec fn view(&self) -> ErrorView {
        match self {
            Error::Argument => ErrorView::Argument,
            Error::Type(name) => ErrorView::Type(*name),
            Error::FileRead { cause } => ErrorView::FileRead { cause: cause@ },
            Error::Conversion { cause } => ErrorView::Conversion { cause: cause@ },
            Error::Unsupported => ErrorView::Unsupported,
        }
    }
}

/// What the result of a call stands for: its markup, or its error.
pub open spec fn outcome(result: Result<String, Error>) -> Result<Seq<char>, ErrorView> {
    match result {
        Ok(markup) => Ok(markup@),
        Err(error) => Err(error@),
    }
}

impl ErrorView {
    /// The message of the error itself, without its cause.
    pub open spec fn message(self) -> Seq<char> {
        match self {
            ErrorView::Argument => "`mathtex` requires either a `path` or a `literal` argument."@,
            ErrorView::Type(ArgName::Path) => "`mathtex`: `path` must be a string."@,
            ErrorView::Type(ArgName::Literal) => "`mathtex`: `literal` must be a string."@,
            ErrorView::Type(ArgName::Style) => "`mathtex`: `style` must be a string."@,
            ErrorView::FileRead { .. } => "Failed to read file"@,
            ErrorView::Conversion { .. } => "Failed to convert LaTeX to MathTeX"@,
            ErrorView::Unsupported => "`mathtex` cannot convert a `\\middle` that no operator follows."@,
        }
    }

    /// What the error was caused by, where it came from below.
    pub open spec fn cause(self) -> Option<Seq<char>> {
        match self {
            ErrorView::FileRead { cause } => Some(cause),
            ErrorView::Conversion { cause } => Some(cause),
            _ => None,
        }
    }
}

impl Error {
    /// The message of the error itself, without its cause.
    pub fn message(&self) -> (text: String)
        ensures
            text@ == self@.message(),
    {
        match self {
            Error::Argument => "`mathtex` requires either a `path` or a `literal` argument.".to_owned(),
            Error::Type(ArgName::Path) => "`mathtex`: `path` must be a string.".to_owned(),
            Error::Type(ArgName::Literal) => "`mathtex`: `literal` must be a string.".to_owned(),
            Error::Type(ArgName::Style) => "`mathtex`: `style` must be a string.".to_owned(),
            Error::FileRead { .. } => "Failed to read file".to_owned(),
            Error::Conversion { .. } => "Failed to convert LaTeX to MathTeX".to_owned(),
            Error::Unsupported => "`mathtex` cannot convert a `\\middle` that no operator follows.".to_owned(),
        }
    }

    /// What the error was caused by, where it came from below.
    pub fn cause(&self) -> (cause: Option<&String>)
        ensures
            match cause {
                Some(text) => self@.cause() == Some(text@),
                None => self@.cause() is None,
            },
    {
        match self {
            Error::FileRead { cause } => Some(cause),
            Error::Conversion { cause } => Some(cause),
            _ => None,
        }
    }
}

} // verus!
