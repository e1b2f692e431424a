use vstd::prelude::*;

verus! {

/// The cause of a failed operation, independent of transport details.
#[derive(Clone, Copy, Debug, PartialEq, Eq, Structural)]
pub enum ErrorKind {
    /// The universe, datastore, entry or revision does not exist.
    NotFound,
    /// The credential lacks permission for the scope.
    Forbidden,
    /// The remote service itself failed.
    RobloxServer,
    /// Any other failure.
    Unknown,
}

/// A classified failure, as handed to the caller of the cache.
#[derive(Clone, Copy, Debug, PartialEq, Eq, Structural)]
pub struct Error {
    pub kind: ErrorKind,
}

/// What the remote client reports when a call fails: either the service
/// answered with an unsuccessful HTTP status, or no answer came at all.
#[derive(Clone, Copy, Debug, PartialEq, Eq, Structural)]
pub enum RemoteFailure {
    Response { status: u16 },
    Transport,
}

/// A status of the 5xx class, as `http::StatusCode::is_server_error` tells it.
pub open spec fn is_server_error(status: u16) -> bool {
    500 <= status && status < 600
}

/// The kind that a failure is classified as.
pub open spec fn kind_of(failure: RemoteFailure) -> ErrorKind {
    match failure {
        RemoteFailure::Response { status } => {
            if status == 404 {
                ErrorKind::NotFound
            } else if status == 403 {
                ErrorKind::Forbidden
            } else if is_server_error(status) {
                ErrorKind::RobloxServer
            } else {
                ErrorKind::Unknown
            }
        },
        RemoteFailure::Transport => ErrorKind::Unknown,
    }
}

impl From<RemoteFailure> for Error {
    fn from(failure: RemoteFailure) -> (r: Error)
        ensures
            r.kind == kind_of(failure),
    {
        match failure {
            RemoteFailure::Response { status } => {
                if status == 404 {
                    Error { kind: ErrorKind::NotFound }
                } else if status == 403 {
                    Error { kind: ErrorKind::Forbidden }
                } else if 500 <= status && status < 600 {
                    Error { kind: ErrorKind::RobloxServer }
                } else {
                    Error { kind: ErrorKind::Unknown }
                }
            },
            RemoteFailure::Transport => Error { kind: ErrorKind::Unknown },
        }
    }
}

impl vstd::std_specs::convert::FromSpecImpl<RemoteFailure> for Error {
    open spec fn obeys_from_spec() -> bool {
        true
    }

    open spec fn from_spec(failure: RemoteFailure) -> Error {
        Error { kind: kind_of(failure) }
    }
}

} // verus!
