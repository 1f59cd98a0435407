//! Failure modes of the delivery engine and their HTTP status codes.

use vstd::prelude::*;

verus! {

/// What can go wrong while turning a raw request path into a response body.
#[derive(Clone, Copy, PartialEq, Eq, Structural, Debug)]
pub enum DeliveryError {
    /// The percent-decoded path was not valid UTF-8.
    InvalidEncoding,
    /// The path did not resolve to an existing, readable filesystem entry.
    NotFound,
    /// The canonical path escaped the configured root directory.
    TraversalBlocked,
    /// Reading or opening an existing, resolved file failed.
    IoFailure,
}

impl DeliveryError {
    /// The HTTP status code this error maps to.
    pub open spec fn spec_status_code(self) -> u16 {
        match self {
            DeliveryError::InvalidEncoding => 400u16,
            DeliveryError::NotFound => 404u16,
            DeliveryError::TraversalBlocked => 403u16,
            DeliveryError::IoFailure => 500u16,
        }
    }

    /// Maps each error to its HTTP status code.
    pub fn status_code(&self) -> (code: u16)
        ensures
            code == self.spec_status_code(),
    {
        match self {
            DeliveryError::InvalidEncoding => 400,
            DeliveryError::NotFound => 404,
            DeliveryError::TraversalBlocked => 403,
            DeliveryError::IoFailure => 500,
        }
    }
}

} // verus!
