//! What can go wrong before the first command is sent.

use vstd::prelude::*;
use vstd::string::*;

verus! {

/// A failure to set up the return pipe. Each variant carries the name of
/// the pipe file.
#[derive(Debug, Clone, PartialEq, Eq, Hash)]
pub enum Error {
    /// No place for the file could be made in the runtime directory.
    CreateFile(String),
    /// The file could not be opened and listened to.
    ConnectToFile(String),
}

/// Mathematical value of an [`Error`].
pub enum ErrorView {
    CreateFile(Seq<char>),
    ConnectToFile(Seq<char>),
}

impl View for Error {
    type V = ErrorView;

    open spec fn view(&self) -> ErrorView {
        match self {
            Error::CreateFile(name) => ErrorView::CreateFile(name@),
            Error::ConnectToFile(name) => ErrorView::ConnectToFile(name@),
        }
    }
}

/// The step of the return pipe's setup that failed.
#[derive(Debug, Clone, Copy, PartialEq, Eq, Hash, Structural)]
pub enum SetupStep {
    /// Making a place for the pipe file in the runtime directory.
    PlaceFile,
    /// Opening the pipe and starting to listen to it.
    Connect,
}

/// The error that stands for a failure of `step` on the file `file_name`.
pub open spec fn setup_failure(step: SetupStep, file_name: Seq<char>) -> ErrorView {
    match step {
        SetupStep::PlaceFile => ErrorView::CreateFile(file_name),
        SetupStep::Connect => ErrorView::ConnectToFile(file_name),
    }
}

/// The text of an error: what failed, and the file's name in single quotes.
pub open spec fn error_text(error: ErrorView) -> Seq<char> {
    match error {
        ErrorView::CreateFile(name) => "Couldn't create the file: '"@ + name + "'"@,
        ErrorView::ConnectToFile(name) => "Couldn't connect to file: '"@ + name + "'"@,
    }
}

/// The text reported when the command pipe is not in the runtime directory,
/// which is the sign that nothing listens.
pub open spec fn missing_pipe_text(file_name: Seq<char>) -> Seq<char> {
    "ERROR: Couldn't find "@ + file_name
}

/// The text reported when the command pipe is there but cannot be opened
/// for appending.
pub open spec fn unopened_pipe_text(file_name: Seq<char>) -> Seq<char> {
    "ERROR: Couldn't open "@ + file_name
}

impl Error {
    /// The error for a failure of `step` on the file `file_name`.
    pub fn from_step(step: SetupStep, file_name: &str) -> (error: Error)
        ensures
            error@ == setup_failure(step, file_name@),
    {
        match step {
            SetupStep::PlaceFile => Error::CreateFile(String::from_str(file_name)),
            SetupStep::Connect => Error::ConnectToFile(String::from_str(file_name)),
        }
    }

    /// The name of the file that the error is about.
    pub fn file_name(&self) -> (name: &str)
        ensures
            name@ == match self@ {
                ErrorView::CreateFile(file) => file,
                ErrorView::ConnectToFile(file) => file,
            },
    {
        match self {
            Error::CreateFile(name) => name.as_str(),
            Error::ConnectToFile(name) => name.as_str(),
        }
    }

    /// The text of the error.
    pub fn message(&self) -> (text: String)
        ensures
            text@ == error_text(self@),
    {
        match self {
            Error::CreateFile(name) => {
                let mut text = String::from_str("Couldn't create the file: '");
                text.append(name.as_str());
                text.append("'");
                text
            },
            Error::ConnectToFile(name) => {
                let mut text = String::from_str("Couldn't connect to file: '");
                text.append(name.as_str());
                text.append("'");
                text
            },
        }
    }
}

/// The text to report when the command pipe `file_name` was not found.
pub fn missing_pipe_message(file_name: &str) -> (text: String)
    ensures
        text@ == missing_pipe_text(file_name@),
{
    let mut text = String::from_str("ERROR: Couldn't find ");
    text.append(file_name);
    text
}

/// The text to report when the command pipe `file_name` could not be opened.
pub fn unopened_pipe_message(file_name: &str) -> (text: String)
    ensures
        text@ == unopened_pipe_text(file_name@),
{
    let mut text = String::from_str("ERROR: Couldn't open ");
    text.append(file_name);
    text
}

/// The two failures are told apart by their texts as well as by their
/// variants, whatever the file names.
pub proof fn lemma_error_texts_differ(first: Seq<char>, second: Seq<char>)
    ensures
        error_text(ErrorView::CreateFile(first)) != error_text(ErrorView::ConnectToFile(second)),
{
    reveal_strlit("Couldn't create the file: '");
    reveal_strlit("Couldn't connect to file: '");
    let a = error_text(ErrorView::CreateFile(first));
    let b = error_text(ErrorView::ConnectToFile(second));
    assert(a[10] == 'r');
    assert(b[10] == 'o');
}

} // verus!
