use vstd::prelude::*;

verus! {

/// The closed set of per-request error kinds. Every error produced by the
/// router or a handler is one of these; each is mapped to a status code by
/// the outermost completion layer and never reaches the wire directly.
#[derive(Clone, Copy, PartialEq, Eq, Structural, Debug)]
pub enum Error {
    /// No registered route has the requested path.
    RouteNotFound,
    /// Some route has the requested path, but none with the requested method.
    MethodNotAllowed,
    /// A backend client call failed.
    BackendError,
    /// Template rendering failed.
    RenderError,
}

/// Failure to construct the shared context before serving begins. It is
/// fatal to process startup and is never surfaced on a per-request path,
/// so it is kept apart from [`Error`].
#[derive(Clone, Copy, Debug)]
pub struct StartupError;

impl Error {
    /// The deterministic error-kind to status-code table.
    pub open spec fn status_spec(self) -> u16 {
        match self {
            Error::RouteNotFound => 404,
            Error::MethodNotAllowed => 405,
            Error::BackendError => 500,
            Error::RenderError => 500,
        }
    }

    /// The status code this error kind is mapped to.
    pub fn status(self) -> (s: u16)
        ensures
            s == self.status_spec(),
    {
        match self {
            Error::RouteNotFound => 404,
            Error::MethodNotAllowed => 405,
            Error::BackendError => 500,
            Error::RenderError => 500,
        }
    }
}

} // verus!
