//! The errors of the application.

use vstd::prelude::*;
use vstd::string::*;

verus! {

/// An error of the application.
#[derive(Debug, PartialEq, Eq)]
pub enum AppError {
    /// A configuration could not be handled.
    Config(String),
    /// A database refused something.
    Database(String),
    /// A file or directory could not be handled.
    Io { path: String, message: String },
}

/// What an error says.
pub enum ErrorView {
    Config(Seq<char>),
    Database(Seq<char>),
    Io { path: Seq<char>, message: Seq<char> },
}

impl View for AppError {
    type V = ErrorView;

    open spec fn view(&self) -> ErrorView {
        match self {
            AppError::Config(text) => ErrorView::Config(text@),
            AppError::Database(text) => ErrorView::Database(text@),
            AppError::Io { path, message } => ErrorView::Io { path: path@, message: message@ },
        }
    }
}

/// A result with its error viewed.
pub open spec fn result_view<T>(result: Result<T, AppError>) -> Result<T, ErrorView> {
    match result {
        Ok(value) => Ok(value),
        Err(error) => Err(error@),
    }
}

/// Two texts, one after the other.
pub fn joined(first: &str, second: &str) -> (text: String)
    ensures
        text@ == first@ + second@,
{
    let mut text = String::new();
    text.append(first);
    text.append(second);
    assert(text@ =~= first@ + second@);
    text
}

/// Three texts, one after the other.
pub fn joined3(first: &str, second: &str, third: &str) -> (text: String)
    ensures
        text@ == first@ + second@ + third@,
{
    let mut text = joined(first, second);
    text.append(third);
    text
}

/// A database error: what went wrong, after what was being done.
pub fn database_error(context: &str, cause: &str) -> (error: AppError)
    ensures
        error@ == ErrorView::Database(context@ + cause@),
{
    AppError::Database(joined(context, cause))
}

/// The error of a lock on the configuration database that cannot be had.
pub fn config_lock_error(cause: &str) -> (error: AppError)
    ensures
        error@ == ErrorView::Database("Mutex lock failed: "@ + cause@),
{
    database_error("Mutex lock failed: ", cause)
}

/// The error of a lock on the log database that cannot be had.
pub fn logs_lock_error(cause: &str) -> (error: AppError)
    ensures
        error@ == ErrorView::Database("日志数据库 Mutex lock failed: "@ + cause@),
{
    database_error("日志数据库 Mutex lock failed: ", cause)
}

/// What serialising a value to JSON came to: the document, or a configuration error.
pub fn to_json_string(serialized: Result<String, String>) -> (document: Result<String, AppError>)
    ensures
        match serialized {
            Ok(text) => document == Ok::<String, AppError>(text),
            Err(cause) => result_view(document) == Err::<String, ErrorView>(
                ErrorView::Config("JSON serialization failed: "@ + cause@),
            ),
        },
{
    match serialized {
        Ok(text) => Ok(text),
        Err(cause) => Err(
            AppError::Config(joined("JSON serialization failed: ", cause.as_str())),
        ),
    }
}

} // verus!
