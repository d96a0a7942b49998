//! The errors that an upload session reports, and how transport failures
//! and HTTP statuses map onto them.
use vstd::prelude::*;

verus! {

#[verifier::external_type_specification]
#[verifier::external_body]
pub struct ExReqwestError(reqwest::Error);

/// What `reqwest::Error::is_timeout` answers for an error.
pub uninterp spec fn timeout_of(e: reqwest::Error) -> bool;

/// What `reqwest::Error::is_request` answers for an error.
pub uninterp spec fn request_of(e: reqwest::Error) -> bool;

/// What `reqwest::Error::is_redirect` answers for an error.
pub uninterp spec fn redirect_of(e: reqwest::Error) -> bool;

/// What `reqwest::Error::is_status` answers for an error.
pub uninterp spec fn status_of(e: reqwest::Error) -> bool;

/// What `reqwest::Error::is_body` answers for an error.
pub uninterp spec fn body_of(e: reqwest::Error) -> bool;

/// What `reqwest::Error::is_decode` answers for an error.
pub uninterp spec fn decode_of(e: reqwest::Error) -> bool;

/// What `reqwest::Error::is_connect` answers for an error.
pub uninterp spec fn connect_of(e: reqwest::Error) -> bool;

/// The text that reqwest's `Display` gives for an error.
pub uninterp spec fn text_of(e: reqwest::Error) -> Seq<char>;

/// Relies on reqwest::Error::is_timeout: whether a timeout caused the error.
pub assume_specification[ reqwest::Error::is_timeout ](e: &reqwest::Error) -> (r: bool)
    ensures
        r == timeout_of(*e),
;

/// Relies on reqwest::Error::is_request: whether sending the request failed.
pub assume_specification[ reqwest::Error::is_request ](e: &reqwest::Error) -> (r: bool)
    ensures
        r == request_of(*e),
;

/// Relies on reqwest::Error::is_redirect: whether following a redirect failed.
pub assume_specification[ reqwest::Error::is_redirect ](e: &reqwest::Error) -> (r: bool)
    ensures
        r == redirect_of(*e),
;

/// Relies on reqwest::Error::is_status: whether the error stands for a status.
pub assume_specification[ reqwest::Error::is_status ](e: &reqwest::Error) -> (r: bool)
    ensures
        r == status_of(*e),
;

/// Relies on reqwest::Error::is_body: whether a request or response body failed.
pub assume_specification[ reqwest::Error::is_body ](e: &reqwest::Error) -> (r: bool)
    ensures
        r == body_of(*e),
;

/// Relies on reqwest::Error::is_decode: whether decoding the response failed.
pub assume_specification[ reqwest::Error::is_decode ](e: &reqwest::Error) -> (r: bool)
    ensures
        r == decode_of(*e),
;

/// Relies on reqwest::Error::is_connect: whether connecting failed.
pub assume_specification[ reqwest::Error::is_connect ](e: &reqwest::Error) -> (r: bool)
    ensures
        r == connect_of(*e),
;

/// Relies on reqwest::Error's `Display`: a readable description of the error.
#[verifier::external_body]
fn error_text(e: &reqwest::Error) -> (r: String)
    ensures
        r@ == text_of(*e),
{
    format!("{}", e)
}

/// What an upload can fail with.
#[derive(Debug, Clone, PartialEq, Eq)]
pub enum UploadError {
    /// The connection to the server could not be made.
    Connect,
    /// The server did not answer in time.
    Timeout,
    /// Any other failure of the HTTP transport, with its description.
    Transport(String),
    /// The response could not be decoded.
    Decode,
    /// The server answered with a status outside the success range.
    UploadFailed(u16),
    /// The consumer end of the byte pipe went away while writing, with the
    /// channel's reason.
    BrokenPipe(String),
    /// The producer end of the session was already closed.
    ChannelClosed,
}

impl UploadError {
    /// An equal copy of the error.
    pub fn duplicate(&self) -> (r: UploadError)
        ensures
            r == *self,
    {
        match self {
            UploadError::Connect => UploadError::Connect,
            UploadError::Timeout => UploadError::Timeout,
            UploadError::Transport(text) => UploadError::Transport(text.clone()),
            UploadError::Decode => UploadError::Decode,
            UploadError::UploadFailed(code) => UploadError::UploadFailed(*code),
            UploadError::BrokenPipe(reason) => UploadError::BrokenPipe(reason.clone()),
            UploadError::ChannelClosed => UploadError::ChannelClosed,
        }
    }
}

/// The predicates that a transport error answers, as plain values.
#[derive(Debug, Clone, Copy, PartialEq, Eq)]
pub struct ErrorTraits {
    pub timeout: bool,
    pub request: bool,
    pub redirect: bool,
    pub status: bool,
    pub body: bool,
    pub decode: bool,
    pub connect: bool,
}

/// How a transport error is reported, checked in a fixed order: a timeout
/// first, then a failed connection (the client also marks it as a failed
/// request); then request, redirect, status and body failures as plain
/// transport errors; then decoding; anything else is a plain transport
/// error.
pub open spec fn error_for(t: ErrorTraits, text: String) -> UploadError {
    if t.timeout {
        UploadError::Timeout
    } else if t.connect {
        UploadError::Connect
    } else if t.request || t.redirect || t.status || t.body {
        UploadError::Transport(text)
    } else if t.decode {
        UploadError::Decode
    } else {
        UploadError::Transport(text)
    }
}

/// The predicates that the HTTP client answers for an error.
pub open spec fn traits_of(e: reqwest::Error) -> ErrorTraits {
    ErrorTraits {
        timeout: timeout_of(e),
        request: request_of(e),
        redirect: redirect_of(e),
        status: status_of(e),
        body: body_of(e),
        decode: decode_of(e),
        connect: connect_of(e),
    }
}

/// Whether an error comes from the HTTP side rather than the local pipe or
/// the server's status.
pub open spec fn is_transport_error(e: UploadError) -> bool {
    match e {
        UploadError::Connect | UploadError::Timeout | UploadError::Transport(_)
        | UploadError::Decode => true,
        _ => false,
    }
}

/// Maps the predicates of a transport error, and its description, to the
/// error that the session reports.
pub fn classify_error(t: ErrorTraits, text: String) -> (r: UploadError)
    ensures
        r == error_for(t, text),
        is_transport_error(r),
{
    if t.timeout {
        UploadError::Timeout
    } else if t.connect {
        UploadError::Connect
    } else if t.request || t.redirect || t.status || t.body {
        UploadError::Transport(text)
    } else if t.decode {
        UploadError::Decode
    } else {
        UploadError::Transport(text)
    }
}

/// Turns an error of the HTTP client into the session's error, with the
/// client's description of it where the error carries one.
pub fn transport_error(e: &reqwest::Error) -> (r: UploadError)
    ensures
        exists|text: String| text@ == text_of(*e) && r == error_for(traits_of(*e), text),
        is_transport_error(r),
{
    let t = ErrorTraits {
        timeout: e.is_timeout(),
        request: e.is_request(),
        redirect: e.is_redirect(),
        status: e.is_status(),
        body: e.is_body(),
        decode: e.is_decode(),
        connect: e.is_connect(),
    };
    classify_error(t, error_text(e))
}

/// An HTTP status in the success range, as `http::StatusCode::is_success`
/// defines it.
pub open spec fn is_success_status(code: u16) -> bool {
    200 <= code < 300
}

/// What an answered PUT request means for the upload.
pub open spec fn status_outcome(code: u16) -> Result<(), UploadError> {
    if is_success_status(code) {
        Ok(())
    } else {
        Err(UploadError::UploadFailed(code))
    }
}

/// Whether `code` is a success status.
pub fn status_is_success(code: u16) -> (r: bool)
    ensures
        r == is_success_status(code),
{
    200 <= code && code < 300
}

/// The result of the zero-length PUT that must succeed before streaming
/// starts: a transport error passes through, a status outside the success
/// range becomes `UploadFailed` with that status.
pub fn existence_outcome(answer: Result<u16, UploadError>) -> (r: Result<(), UploadError>)
    ensures
        match answer {
            Ok(code) => r == status_outcome(code),
            Err(e) => r == Err::<(), UploadError>(e),
        },
{
    match answer {
        Ok(code) => check_status(code),
        Err(e) => Err(e),
    }
}

/// The result of a PUT request that was answered with `code`.
pub fn check_status(code: u16) -> (r: Result<(), UploadError>)
    ensures
        r == status_outcome(code),
{
    if status_is_success(code) {
        Ok(())
    } else {
        Err(UploadError::UploadFailed(code))
    }
}

} // verus!
