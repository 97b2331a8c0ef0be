//! Cancellation of an in-flight request, as an optional side channel.
//!
//! This capability is unstable: it is a one-way notification the transport
//! may send, keyed by the request id it manages. The dispatch core itself
//! never interprets it; a handler invoked for a cancelled request may still
//! run to completion, and its result is discarded by the transport.

use vstd::prelude::*;

use crate::json::Json;

verus! {

/// The wire method string of the cancellation notification.
pub const REQUEST_CANCEL_METHOD_NAME: &'static str = "request/cancel";

/// The id a transport assigned to a request: a number or a string.
#[derive(Clone, Debug, PartialEq, Eq, Hash)]
pub enum RequestId {
    Int(i64),
    Str(String),
}

/// Opaque metadata attached to an interaction. Implementations must not
/// make assumptions about the values found at its keys.
pub type Meta = Json;

/// Notification to cancel an ongoing request.
#[derive(Debug)]
pub struct CancelRequestNotification {
    /// The id of the request to cancel.
    pub request_id: RequestId,
    /// Extra metadata attached to the notification.
    pub meta: Option<Meta>,
}

impl CancelRequestNotification {
    /// A cancellation of the given request, with no metadata.
    #[must_use]
    pub fn new(request_id: RequestId) -> (r: CancelRequestNotification)
        ensures
            r.request_id == request_id,
            r.meta is None,
    {
        CancelRequestNotification { request_id, meta: None }
    }

    /// The same notification with the given metadata attached.
    #[must_use]
    pub fn meta(self, meta: Meta) -> (r: CancelRequestNotification)
        ensures
            r.request_id == self.request_id,
            r.meta == Some(meta),
    {
        CancelRequestNotification { request_id: self.request_id, meta: Some(meta) }
    }
}

/// Capabilities related to cancellation; claiming the empty set of fields
/// means general request cancellation is supported.
#[derive(Debug)]
pub struct CancellationCapabilities {
    /// Extra metadata attached to the capability claim.
    pub meta: Option<Meta>,
}

impl Default for CancellationCapabilities {
    /// By default no metadata is attached.
    fn default() -> (r: CancellationCapabilities)
        ensures
            r.meta is None,
    {
        CancellationCapabilities { meta: None }
    }
}

} // verus!
