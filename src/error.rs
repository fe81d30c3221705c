use vstd::prelude::*;

verus! {

/// What went wrong, one variant per failure the route tool can report.
#[derive(Clone, Copy, Debug, PartialEq, Eq, Structural)]
pub enum ErrorKind {
    AdapterNotFound,
    AdapterHasNoGateway,
    RoutingTableUnavailable,
    RouteAlreadyExists,
    RouteAddRejected,
    RouteRemoveRejected,
    DomainResolutionFailed,
    ProbeExecutionFailed,
    ConfigParseError,
    InvalidSelection,
    UserCancelled,
    InputReadError,
    InvalidRange,
    EmptyPrompt,
    InvalidAddress,
    /// A failure with a message only (a missing argument, a wrapped error).
    Other,
}

/// The error of every fallible operation: a kind for callers to match on and
/// a message for the operator.
#[derive(Clone, Debug)]
pub struct NetRouteError {
    pub kind: ErrorKind,
    pub message: String,
}

impl NetRouteError {
    /// An error that carries only a message.
    pub fn new(message: String) -> (r: NetRouteError)
        ensures
            r.kind == ErrorKind::Other,
            r.message@ == message@,
    {
        NetRouteError { kind: ErrorKind::Other, message }
    }

    /// An error of the given kind.
    pub fn with_kind(kind: ErrorKind, message: String) -> (r: NetRouteError)
        ensures
            r.kind == kind,
            r.message@ == message@,
    {
        NetRouteError { kind, message }
    }

    /// An error whose message is the text of another error.
    pub fn from_err<E: std::error::Error>(err: E) -> (r: NetRouteError)
        ensures
            r.kind == ErrorKind::Other,
    {
        NetRouteError { kind: ErrorKind::Other, message: err.to_string() }
    }
}

impl From<String> for NetRouteError {
    fn from(message: String) -> (r: NetRouteError) {
        NetRouteError { kind: ErrorKind::Other, message }
    }
}

impl vstd::std_specs::convert::FromSpecImpl<String> for NetRouteError {
    open spec fn obeys_from_spec() -> bool {
        true
    }

    open spec fn from_spec(message: String) -> NetRouteError {
        NetRouteError { kind: ErrorKind::Other, message }
    }
}

/// An error of the given kind with a fixed message.
pub fn fail(kind: ErrorKind, message: &str) -> (r: NetRouteError)
    ensures
        r.kind == kind,
        r.message@ == message@,
{
    NetRouteError { kind, message: message.to_string() }
}

} // verus!
