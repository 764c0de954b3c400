use vstd::prelude::*;

verus! {

/// Everything that can go wrong while fetching a batch of accessions.
///
/// Errors raised by the operating system or by the HTTP stack are carried as
/// their rendered text, so that the whole type stays plain data.
#[derive(Debug, Clone)]
pub enum AppError {
    IoError(String),
    ReqwestMiddlewareError(String),
    ReqwestError(String),
    StatusCodeError(String),
    InvalidResponseError(String),
    EmptyAccessionList,
}

impl AppError {
    /// The human-readable text of an error.
    pub open spec fn message_spec(&self) -> Seq<char> {
        match self {
            AppError::IoError(s) => "IO error: "@ + s@,
            AppError::ReqwestMiddlewareError(s) => "Request error: "@ + s@,
            AppError::ReqwestError(s) => "Request error: "@ + s@,
            AppError::StatusCodeError(s) => "Download error: "@ + s@,
            AppError::InvalidResponseError(s) => "Invalid request response: "@ + s@,
            AppError::EmptyAccessionList => "No valid accessions provided"@,
        }
    }

    /// Renders the error for a person to read.
    pub fn message(&self) -> (r: String)
        ensures
            r@ == self.message_spec(),
    {
        match self {
            AppError::IoError(s) => String::from_str("IO error: ").concat(s.as_str()),
            AppError::ReqwestMiddlewareError(s) => String::from_str("Request error: ").concat(
                s.as_str(),
            ),
            AppError::ReqwestError(s) => String::from_str("Request error: ").concat(s.as_str()),
            AppError::StatusCodeError(s) => String::from_str("Download error: ").concat(s.as_str()),
            AppError::InvalidResponseError(s) => String::from_str(
                "Invalid request response: ",
            ).concat(s.as_str()),
            AppError::EmptyAccessionList => String::from_str("No valid accessions provided"),
        }
    }
}

} // verus!
