//! Where the formula comes from: a file that is named, or the text itself.

use vstd::prelude::*;
use crate::error::{Error, ErrorView};

verus! {

/// The source of a formula. It is chosen once, from the arguments of a call,
/// and read once.
#[derive(Clone, Debug, PartialEq, Eq)]
pub enum DataSource {
    /// The formula is what the file at this path holds.
    Path(String),
    /// The formula is this text.
    Literal(String),
}

/// What a [`DataSource`] stands for.
pub enum DataSourceView {
    Path(Seq<char>),
    Literal(Seq<char>),
}

impl View for DataSource {
    type V = DataSourceView;

    open spec fn view(&self) -> DataSourceView {
        match self {
            DataSource::Path(path) => DataSourceView::Path(path@),
            DataSource::Literal(text) => DataSourceView::Literal(text@),
        }
    }
}

/// The text that `text` holds, if it holds one.
pub open spec fn text_of(text: Option<String>) -> Option<Seq<char>> {
    match text {
        Some(text) => Some(text@),
        None => None,
    }
}

/// The source that the arguments `path` and `literal` name: one of them has
/// to be given, and only one.
pub open spec fn source_of(path: Option<Seq<char>>, literal: Option<Seq<char>>) -> Option<
    DataSourceView,
> {
    match (path, literal) {
        (Some(path), None) => Some(DataSourceView::Path(path)),
        (None, Some(text)) => Some(DataSourceView::Literal(text)),
        _ => None,
    }
}

/// Whether `result` is what the outcome `file` of reading a file becomes:
/// its text as it is, and its failure as the cause of a read error.
pub open spec fn chains_read(file: Result<String, String>, result: Result<String, Error>) -> bool {
    match file {
        Ok(contents) => result matches Ok(text) && text@ == contents@,
        Err(cause) => result matches Err(error) && error@ == (ErrorView::FileRead {
            cause: cause@,
        }),
    }
}

/// Turns the outcome of reading a file into the text of the formula: what
/// was read as it is, a failure as the cause of a read error.
pub fn chain_read(file: Result<String, String>) -> (result: Result<String, Error>)
    ensures
        chains_read(file, result),
{
    match file {
        Ok(contents) => Ok(contents),
        Err(cause) => Err(Error::FileRead { cause }),
    }
}

impl DataSource {
    /// Chooses the source from the two arguments that can name one. With
    /// both or with neither there is no source, and the error is the same.
    pub fn from_args(path: Option<String>, literal: Option<String>) -> (result: Result<
        DataSource,
        Error,
    >)
        ensures
            match result {
                Ok(source) => source_of(text_of(path), text_of(literal)) == Some(source@),
                Err(error) => source_of(text_of(path), text_of(literal)) is None && error@
                    == ErrorView::Argument,
            },
    {
        match (path, literal) {
            (Some(path), None) => Ok(DataSource::Path(path)),
            (None, Some(text)) => Ok(DataSource::Literal(text)),
            _ => Err(Error::Argument),
        }
    }

    /// The text of the formula. A literal is its own text. For a path,
    /// `read_file` is called once, with the path, to read the file; what it
    /// returns is the text, or the cause of the error.
    pub fn read<F: FnOnce(String) -> Result<String, String>>(self, read_file: F) -> (result: Result<
        String,
        Error,
    >)
        requires
            self matches DataSource::Path(path) ==> read_file.requires((path,)),
        ensures
            match self {
                DataSource::Literal(text) => result matches Ok(read) && read@ == text@,
                DataSource::Path(path) => exists|file: Result<String, String>|
                    #[trigger] read_file.ensures((path,), file) && chains_read(file, result),
            },
    {
        match self {
            DataSource::Path(path) => chain_read(read_file(path)),
            DataSource::Literal(text) => Ok(text),
        }
    }
}

} // verus!
