//! Mapping each request outcome to the HTTP status code the client
//! sees.

use vstd::prelude::*;
use crate::paths::PathRejection;

verus! {

/// Why opening the resolved file failed.
#[derive(Clone, Copy, Debug, PartialEq, Eq, Structural)]
pub enum OpenFailure {
    /// No file exists at the resolved path.
    NotFound,
    /// The file exists but could not be read (permissions, not a
    /// regular file, or another I/O fault).
    OtherIo,
}

/// How handling one request ended.
#[derive(Clone, Copy, Debug, PartialEq, Eq, Structural)]
pub enum RequestOutcome {
    /// The tail was acceptable and the file was opened: its bytes are
    /// the response body.
    Served,
    /// The tail was turned away before the filesystem was touched.
    Rejected(PathRejection),
    /// The tail was acceptable but the file could not be opened.
    OpenFailed(OpenFailure),
}

/// The status code owed to each outcome: 200 for a served file, 400
/// for a rejected tail, 404 for a missing file, 500 for any other
/// failure to open it.
pub open spec fn status_of(o: RequestOutcome) -> u16 {
    match o {
        RequestOutcome::Served => 200u16,
        RequestOutcome::Rejected(_) => 400u16,
        RequestOutcome::OpenFailed(OpenFailure::NotFound) => 404u16,
        RequestOutcome::OpenFailed(OpenFailure::OtherIo) => 500u16,
    }
}

/// A success status class.
pub open spec fn is_success_status(s: u16) -> bool {
    200 <= s < 300
}

/// A client-error or server-error status class.
pub open spec fn is_error_status(s: u16) -> bool {
    400 <= s < 600
}

/// Returns the status code owed to an outcome: exactly `status_of`.
pub fn response_status(o: &RequestOutcome) -> (s: u16)
    ensures
        s == status_of(*o),
{
    match o {
        RequestOutcome::Served => 200u16,
        RequestOutcome::Rejected(_) => 400u16,
        RequestOutcome::OpenFailed(OpenFailure::NotFound) => 404u16,
        RequestOutcome::OpenFailed(OpenFailure::OtherIo) => 500u16,
    }
}

/// Law: a request that was not served answers with an error status,
/// in the client-error or server-error class and never a success, and
/// only a served request answers 200.
pub proof fn lemma_unserved_status_is_error(o: RequestOutcome)
    ensures
        !(o is Served) ==> is_error_status(status_of(o)) && !is_success_status(status_of(o)),
        status_of(o) == 200 <==> o is Served,
{
}

} // verus!
