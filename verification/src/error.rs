//! The error type shared by the whole library.

use fitparser::ErrorKind;
use crate::text::{decimal, push_decimal};
use vstd::prelude::*;
use vstd::string::*;

verus! {

/// The decoder's own error, passed through untouched.
#[verifier::external_type_specification]
#[verifier::external_body]
pub struct ExErrorKind(ErrorKind);

/// Everything that can go wrong inside the library.
#[derive(Debug)]
pub enum Error {
    /// A field holding an array cannot be bound as a statement parameter.
    ArrayConversionError,
    /// A file with this fingerprint was imported before.
    DuplicateFileError(String),
    /// No file with this fingerprint is stored.
    FileDoesNotExistError(String),
    /// The message stream of the file with this fingerprint never
    /// identified the file.
    FileIdMessageNotFound(String),
    /// The decoder rejected the file or one of its values.
    FitParser(ErrorKind),
    /// A configuration value has the wrong type.
    InvalidConfigurationValue(String),
    /// Anything else, described in words.
    Other(String),
    /// A provider answered with a failure: its status code and message.
    RequestError(u16, String),
    /// No service is known under the configured handler name.
    UnknownServiceHandler(String),
}

/// The text that describes an error to the user, where the library words
/// it itself. An error of the decoder is worded by the decoder.
pub open spec fn message_of(error: Error) -> Option<Seq<char>> {
    match error {
        Error::ArrayConversionError => Some("Cannot convert Value:Array into a SQL parameter"@),
        Error::DuplicateFileError(uuid) => Some(
            "Attempted to import a file already in the database, UUID: "@ + uuid@,
        ),
        Error::FileDoesNotExistError(uuid) => Some(
            "FIT File with UUID='"@ + uuid@ + "' does not exist"@,
        ),
        Error::FileIdMessageNotFound(uuid) => Some(
            "FIT File with UUID='"@ + uuid@ + "' did not have a File_id message"@,
        ),
        Error::FitParser(_) => None,
        Error::InvalidConfigurationValue(message) => Some(message@),
        Error::Other(message) => Some(message@),
        Error::RequestError(code, message) => Some(
            "Request failed with code: "@ + decimal(code as nat) + " - "@ + message@,
        ),
        Error::UnknownServiceHandler(message) => Some(message@),
    }
}

impl Error {
    /// Describes the error to the user.
    pub fn message(&self) -> (text: String)
        ensures
            message_of(*self) matches Some(expected) ==> text@ == expected,
    {
        match self {
            Error::ArrayConversionError => String::from_str(
                "Cannot convert Value:Array into a SQL parameter",
            ),
            Error::DuplicateFileError(uuid) => {
                let mut text = String::from_str(
                    "Attempted to import a file already in the database, UUID: ",
                );
                text.append(uuid.as_str());
                text
            },
            Error::FileDoesNotExistError(uuid) => {
                let mut text = String::from_str("FIT File with UUID='");
                text.append(uuid.as_str());
                text.append("' does not exist");
                text
            },
            Error::FileIdMessageNotFound(uuid) => {
                let mut text = String::from_str("FIT File with UUID='");
                text.append(uuid.as_str());
                text.append("' did not have a File_id message");
                text
            },
            Error::FitParser(kind) => kind.to_string(),
            Error::InvalidConfigurationValue(message) => message.clone(),
            Error::Other(message) => message.clone(),
            Error::RequestError(code, message) => {
                let mut text = String::from_str("Request failed with code: ");
                push_decimal(&mut text, *code as u64);
                text.append(" - ");
                text.append(message.as_str());
                assert(text@ =~= "Request failed with code: "@ + decimal(*code as nat) + " - "@
                    + message@);
                text
            },
            Error::UnknownServiceHandler(message) => message.clone(),
        }
    }
}

} // verus!
