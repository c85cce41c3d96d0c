//! Errors of the outbound message-delivery channel.
//!
//! Delivery itself happens in the surrounding binary; a failed attempt
//! is reported to the engine as a plain outcome, and the queue head
//! stays put until an attempt succeeds.

use vstd::prelude::*;

verus! {

/// Why a delivery attempt failed.
#[derive(Debug, Clone, Copy, PartialEq, Eq)]
pub enum TwitterError {
    Internal,
    HttpError,
    OAuth,
    TwitterUrl,
}

} // verus!
