//! Plain models of the transport-level values the protocol reads: response
//! codes, transport failure classes, and the endpoints the client queries.
//! The driver converts between these and the wire library's own types.

use vstd::prelude::*;

verus! {

/// Response classification, mirroring the CoAP response code table.
/// `Unknown` stands for any code outside the table.
#[derive(Debug, Clone, Copy, PartialEq, Eq, Structural)]
pub enum ResponseCode {
    Created,
    Deleted,
    Valid,
    Changed,
    Content,
    Continue,
    BadRequest,
    Unauthorized,
    BadOption,
    Forbidden,
    NotFound,
    MethodNotAllowed,
    NotAcceptable,
    Conflict,
    PreconditionFailed,
    RequestEntityTooLarge,
    UnsupportedContentFormat,
    RequestEntityIncomplete,
    UnprocessableEntity,
    TooManyRequests,
    InternalServerError,
    NotImplemented,
    BadGateway,
    ServiceUnavailable,
    GatewayTimeout,
    ProxyingNotSupported,
    HopLimitReached,
    Unknown,
}

impl ResponseCode {
    /// The non-error (2.xx) codes: everything else is a server error.
    pub open spec fn spec_is_success(self) -> bool {
        match self {
            ResponseCode::Created
            | ResponseCode::Deleted
            | ResponseCode::Valid
            | ResponseCode::Changed
            | ResponseCode::Content
            | ResponseCode::Continue => true,
            _ => false,
        }
    }

    /// Whether this code is one of the success (2.xx) responses.
    pub fn is_success(&self) -> (r: bool)
        ensures
            r == self.spec_is_success(),
    {
        match self {
            ResponseCode::Created
            | ResponseCode::Deleted
            | ResponseCode::Valid
            | ResponseCode::Changed
            | ResponseCode::Content
            | ResponseCode::Continue => true,
            _ => false,
        }
    }
}

/// Transport-level failures: the request never produced a valid response.
#[derive(Debug, Clone, Copy, PartialEq, Eq, Structural)]
pub enum TransportError {
    Timeout,
    MalformedPacket,
}

/// The resources the client fetches from the attester, one per request state.
#[derive(Debug, Clone, Copy, PartialEq, Eq, Structural)]
pub enum Endpoint {
    Attest,
    Ek,
    Aik,
    Metadata,
}

impl Endpoint {
    /// The request path for this endpoint.
    pub fn path(&self) -> (r: &'static str)
        ensures
            self is Attest ==> r@ == "/attest"@,
            self is Ek ==> r@ == "/ek"@,
            self is Aik ==> r@ == "/aik"@,
            self is Metadata ==> r@ == "/metadata"@,
    {
        match self {
            Endpoint::Attest => "/attest",
            Endpoint::Ek => "/ek",
            Endpoint::Aik => "/aik",
            Endpoint::Metadata => "/metadata",
        }
    }
}

} // verus!
