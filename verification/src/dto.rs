//! What requests carry and what responses say.

use vstd::prelude::*;

verus! {

/// HTTP status of an accepted job.
pub const CREATED: u16 = 201;

/// HTTP status of a request that failed on the server's side.
pub const INTERNAL_SERVER_ERROR: u16 = 500;

/// HTTP status of a request for something that is not there.
pub const NOT_FOUND: u16 = 404;

/// HTTP status of a request without an accepted API key.
pub const UNAUTHORIZED: u16 = 401;

/// Answer to an enqueue request, and body of a callback: the job's
/// identifier, and the error where there is one.
#[derive(Clone, Debug, PartialEq, Eq)]
pub struct ConvertResponse {
    pub id: Option<String>,
    pub error: Option<String>,
}

/// The form fields of an upload request; the uploaded file itself is staged
/// by the caller.
#[derive(Clone, Debug, PartialEq, Eq)]
pub struct ConvertRequest {
    pub format: String,
    pub codec: String,
    pub codec_opts: Option<String>,
    pub bit_rate: Option<usize>,
    pub max_bit_rate: Option<usize>,
    pub sample_rate: i32,
    pub channel_layout: Option<String>,
    pub callback_url: Option<String>,
}

/// A request to transcode what a URL serves.
#[derive(Clone, Debug, PartialEq, Eq)]
pub struct ConvertURLRequest {
    pub format: String,
    pub codec: String,
    pub codec_opts: Option<String>,
    pub bit_rate: Option<usize>,
    pub max_bit_rate: Option<usize>,
    pub sample_rate: i32,
    pub channel_layout: Option<String>,
    pub url: String,
    pub callback_url: Option<String>,
}

/// Body of an answer that only reports an error.
#[derive(Clone, Debug, PartialEq, Eq)]
pub struct ErrorResponse {
    pub error: String,
}

impl ConvertResponse {
    /// The answer for an accepted job, and the body of a success callback.
    pub fn accepted(id: String) -> (response: ConvertResponse)
        ensures
            response.id == Some(id),
            response.error is None,
    {
        ConvertResponse { id: Some(id), error: None }
    }

    /// The answer for a request that was not accepted.
    pub fn rejected(error: String) -> (response: ConvertResponse)
        ensures
            response.id is None,
            response.error == Some(error),
    {
        ConvertResponse { id: None, error: Some(error) }
    }

    /// The body of a failure callback.
    pub fn failed(id: String, error: String) -> (response: ConvertResponse)
        ensures
            response.id == Some(id),
            response.error == Some(error),
    {
        ConvertResponse { id: Some(id), error: Some(error) }
    }
}

} // verus!
