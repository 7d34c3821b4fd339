//! Deciding what a response to the request for a pack artifact means.
use vstd::prelude::*;

use crate::fspath::{join, joined};

verus! {

/// A downloaded pack artifact on disk.
#[derive(Debug)]
pub struct PackedArtifacts {
    /// Where the artifact was written.
    pub path: String,
}

/// The result of a successful download.
#[derive(Debug)]
pub struct Download {
    pub artifact: PackedArtifacts,
}

/// What could be read of a failed response's body.
#[derive(Debug)]
pub enum ErrorBody {
    /// The body, as text.
    String { body: String },
    /// The body could not be read as text.
    NoValidBody,
}

/// A failed response, as far as it is reported.
#[derive(Debug)]
pub struct ErrorResponse {
    pub status: u16,
    pub status_text: String,
    pub body: ErrorBody,
}

/// Why no artifact could be downloaded.
#[derive(Debug)]
pub enum DlError {
    /// The package declares no location for its pack artifact.
    NoArtifactLocation,
    /// The server still redirected once redirects were no longer followed.
    TooManyRedirects { location: String, response: ErrorResponse },
    /// Any other unsuccessful response.
    BadRequest { location: String, response: ErrorResponse },
}

/// The classes of HTTP status codes that lead to different reports.
#[derive(Debug, Clone, Copy, PartialEq, Eq, Structural)]
pub enum StatusClass {
    /// 200 to 299.
    Success,
    /// 300 to 399.
    Redirection,
    /// 400 to 499.
    ClientError,
    /// Anything else.
    Other,
}

/// The class of the status code `status`.
pub open spec fn class_of(status: u16) -> StatusClass {
    if 200 <= status < 300 {
        StatusClass::Success
    } else if 300 <= status < 400 {
        StatusClass::Redirection
    } else if 400 <= status < 500 {
        StatusClass::ClientError
    } else {
        StatusClass::Other
    }
}

/// The class of the status code `status`.
pub fn classify_status(status: u16) -> (r: StatusClass)
    ensures
        r == class_of(status),
{
    if 200 <= status && status < 300 {
        StatusClass::Success
    } else if 300 <= status && status < 400 {
        StatusClass::Redirection
    } else if 400 <= status && status < 500 {
        StatusClass::ClientError
    } else {
        StatusClass::Other
    }
}

/// The location to download from, or the error that there is none.
pub fn artifact_location(pack_artifact: &Option<String>) -> (r: Result<&str, DlError>)
    ensures
        pack_artifact is None <==> r is Err,
        pack_artifact is None ==> r matches Err(DlError::NoArtifactLocation),
        pack_artifact matches Some(l) ==> r matches Ok(s) && s@ == l@,
{
    match pack_artifact {
        Some(l) => Ok(l.as_str()),
        None => Err(DlError::NoArtifactLocation),
    }
}

impl DlError {
    /// The error that `response` from `location` stands for; `None` for a
    /// successful one. A redirect reports that there were too many of them;
    /// every other failure is a bad request.
    pub fn for_response(location: &str, response: ErrorResponse) -> (r: Option<DlError>)
        ensures
            r is None <==> class_of(response.status) == StatusClass::Success,
            class_of(response.status) == StatusClass::Redirection ==> (r matches Some(
                DlError::TooManyRedirects { location: l, response: resp },
            ) && l@ == location@ && resp == response),
            class_of(response.status) == StatusClass::ClientError || class_of(response.status)
                == StatusClass::Other ==> (r matches Some(
                DlError::BadRequest { location: l, response: resp },
            ) && l@ == location@ && resp == response),
    {
        match classify_status(response.status) {
            StatusClass::Success => None,
            StatusClass::Redirection => Some(
                DlError::TooManyRedirects { location: location.to_owned(), response },
            ),
            _ => Some(DlError::BadRequest { location: location.to_owned(), response }),
        }
    }
}

/// The file name that a downloaded artifact is written to.
pub open spec fn artifact_file_name() -> Seq<char> {
    "_vcs_file.tar.gz"@
}

impl Download {
    /// The download whose artifact is written inside the directory `tmp`.
    pub fn into_dir(tmp: &str) -> (r: Download)
        ensures
            r.artifact.path@ == joined(tmp@, artifact_file_name()),
    {
        Download { artifact: PackedArtifacts { path: join(tmp, "_vcs_file.tar.gz") } }
    }
}

} // verus!
