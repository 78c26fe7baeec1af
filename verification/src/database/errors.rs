//! What can go wrong with a database.

use vstd::prelude::*;
use vstd::string::*;

verus! {

/// Error type for database operations.
#[derive(Debug)]
pub enum DatabaseError {
    /// The database could not be reached.
    ConnectionError(String),
    /// The configuration of the database is missing or wrong.
    ConfigurationError(String),
    /// A query failed.
    QueryError(String),
    /// What the database returned has another type than expected.
    ConversionError(String),
    /// Any other database-related error.
    Other(String),
}

pub enum DatabaseErrorView {
    ConnectionError(Seq<char>),
    ConfigurationError(Seq<char>),
    QueryError(Seq<char>),
    ConversionError(Seq<char>),
    Other(Seq<char>),
}

impl View for DatabaseError {
    type V = DatabaseErrorView;

    open spec fn view(&self) -> DatabaseErrorView {
        match self {
            DatabaseError::ConnectionError(msg) => DatabaseErrorView::ConnectionError(msg@),
            DatabaseError::ConfigurationError(msg) => DatabaseErrorView::ConfigurationError(msg@),
            DatabaseError::QueryError(msg) => DatabaseErrorView::QueryError(msg@),
            DatabaseError::ConversionError(msg) => DatabaseErrorView::ConversionError(msg@),
            DatabaseError::Other(msg) => DatabaseErrorView::Other(msg@),
        }
    }
}

impl DeepView for DatabaseError {
    type V = DatabaseErrorView;

    open spec fn deep_view(&self) -> DatabaseErrorView {
        self@
    }
}

/// The error as a line of text: what kind of error it is, then its message.
pub open spec fn error_text(error: DatabaseErrorView) -> Seq<char> {
    match error {
        DatabaseErrorView::ConnectionError(msg) => "Database connection error: "@ + msg,
        DatabaseErrorView::ConfigurationError(msg) => "Database configuration error: "@ + msg,
        DatabaseErrorView::QueryError(msg) => "Database query error: "@ + msg,
        DatabaseErrorView::ConversionError(msg) => "Database data conversion error: "@ + msg,
        DatabaseErrorView::Other(msg) => "Database error: "@ + msg,
    }
}

impl DatabaseError {
    /// The error as a line of text.
    pub fn to_string(&self) -> (text: String)
        ensures
            text@ == error_text(self@),
    {
        match self {
            DatabaseError::ConnectionError(msg) => "Database connection error: ".to_owned().concat(
                msg.as_str(),
            ),
            DatabaseError::ConfigurationError(msg) => "Database configuration error: ".to_owned().concat(
                msg.as_str(),
            ),
            DatabaseError::QueryError(msg) => "Database query error: ".to_owned().concat(
                msg.as_str(),
            ),
            DatabaseError::ConversionError(msg) => "Database data conversion error: ".to_owned().concat(
                msg.as_str(),
            ),
            DatabaseError::Other(msg) => "Database error: ".to_owned().concat(msg.as_str()),
        }
    }
}

} // verus!
