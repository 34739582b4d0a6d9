//! Contains [Error] and what it tells a client: a status and a message.

use crate::decimal::{decimal, push_decimal};
use vstd::prelude::*;
use vstd::string::*;

verus! {

/// Crate-specific central error variants. An error that came from outside
/// (a file, the database, the template engine) is told apart here by where
/// it came from; the outside error itself stays with whoever received it.
#[derive(Clone, Copy, Debug, PartialEq, Eq)]
pub enum Error {
    /// Static file opening error (most likely missing)
    StaticOpen,
    /// Database error
    Database,
    /// Map location couldn't be found
    LocationNotFound,
    /// War of number couldn't be found
    WarNotFound(i64),
    /// Battle of id couldn't be found
    BattleNotFound(i64),
    /// There was an error rendering templates
    TemplateRender,
    /// Data provided for an input was too short
    DataTooShort,
    /// Data provided for an input was too long
    DataTooLong,
}

/// What a client is sent for an error: the status and the message.
pub struct ErrorResponse {
    pub code: u16,
    pub message: String,
}

impl Error {
    /// The HTTP status that answers this error: 404 for what could not be
    /// found, 400 for input of the wrong size, 500 for a failure inside.
    pub open spec fn spec_status_code(&self) -> u16 {
        match self {
            Error::StaticOpen | Error::Database | Error::TemplateRender => 500,
            Error::LocationNotFound | Error::WarNotFound(_) | Error::BattleNotFound(_) => 404,
            Error::DataTooShort | Error::DataTooLong => 400,
        }
    }

    /// The message that describes this error to a client.
    pub open spec fn spec_message(&self) -> Seq<char> {
        match self {
            Error::StaticOpen => "Could not retrieve html file from static files"@,
            Error::Database => "Database error"@,
            Error::LocationNotFound => "Map location provided could not be found"@,
            Error::WarNotFound(num) => "War number "@ + decimal(*num as int)
                + " could not be found"@,
            Error::BattleNotFound(id) => "Battle id "@ + decimal(*id as int)
                + " could not be found"@,
            Error::TemplateRender => "Could not properly render html template"@,
            Error::DataTooShort => "Inputted data was too short"@,
            Error::DataTooLong => "Inputted data was too long"@,
        }
    }

    /// The HTTP status that answers this error.
    pub fn status_code(&self) -> (code: u16)
        ensures
            code == self.spec_status_code(),
    {
        match self {
            Error::StaticOpen | Error::Database | Error::TemplateRender => 500,
            Error::LocationNotFound | Error::WarNotFound(_) | Error::BattleNotFound(_) => 404,
            Error::DataTooShort | Error::DataTooLong => 400,
        }
    }

    /// The message that describes this error to a client.
    pub fn message(&self) -> (message: String)
        ensures
            message@ == self.spec_message(),
    {
        match self {
            Error::StaticOpen => String::from_str(
                "Could not retrieve html file from static files",
            ),
            Error::Database => String::from_str("Database error"),
            Error::LocationNotFound => String::from_str("Map location provided could not be found"),
            Error::WarNotFound(num) => {
                let mut message = String::from_str("War number ");
                push_decimal(&mut message, *num);
                message.append(" could not be found");
                message
            },
            Error::BattleNotFound(id) => {
                let mut message = String::from_str("Battle id ");
                push_decimal(&mut message, *id);
                message.append(" could not be found");
                message
            },
            Error::TemplateRender => String::from_str("Could not properly render html template"),
            Error::DataTooShort => String::from_str("Inputted data was too short"),
            Error::DataTooLong => String::from_str("Inputted data was too long"),
        }
    }

    /// What a client is sent for this error.
    pub fn error_response(&self) -> (response: ErrorResponse)
        ensures
            response.code == self.spec_status_code(),
            response.message@ == self.spec_message(),
    {
        ErrorResponse { code: self.status_code(), message: self.message() }
    }
}

} // verus!
