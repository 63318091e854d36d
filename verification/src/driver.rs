//! Plain-value descriptions of the driver boundary: the status codes its
//! entry points report, the reports a caller hands back after invoking one,
//! and the requests this component asks the caller to issue.

use vstd::prelude::*;

verus! {

/// The status code a driver entry point reports on plain success.
pub const STATUS_SUCCESS: i32 = 0;

/// The status code the wait entry point reports when the timeout elapsed
/// before the oldest unwaited image became usable. A form of success, not a
/// failure: the caller decides whether to retry or abandon the frame.
pub const STATUS_TIMEOUT_EXPIRED: i32 = 1;

/// Negative status codes are failures; non-negative codes are forms of
/// success.
pub open spec fn status_is_failure(status: i32) -> bool {
    status < 0
}

/// Convert a reported status into the result the caller handles: a failure
/// surfaces verbatim as a typed error, never retried here; every other
/// status is success.
pub fn status_to_result(status: i32) -> (r: Result<(), SwapchainError>)
    ensures
        r is Ok <==> !status_is_failure(status),
        status_is_failure(status) ==> r == Err::<(), SwapchainError>(
            SwapchainError::Driver { status },
        ),
{
    if status < 0 {
        Err(SwapchainError::Driver { status })
    } else {
        Ok(())
    }
}

/// Everything that can go wrong in a swapchain operation.
#[derive(Clone, Copy, Debug, PartialEq, Eq, Structural)]
pub enum SwapchainError {
    /// A driver entry point reported a failure; the status code is surfaced
    /// verbatim and never retried here.
    Driver { status: i32 },
    /// The image-fetch call returned a different number of descriptors than
    /// the count query announced: a driver inconsistency, not truncated away.
    ImageCountChanged { announced: u64, fetched: u64 },
    /// The acquire entry point reported a slot index outside the ring: a
    /// driver inconsistency.
    IndexOutOfRange { index: u32, image_count: u32 },
}

/// What the driver's create entry point reported: a status, and on success
/// the handle of the new swapchain.
#[derive(Clone, Copy, Debug, PartialEq, Eq, Structural)]
pub struct CreateReport {
    pub status: i32,
    pub handle: u64,
}

/// What the driver's acquire entry point reported: a status, and on success
/// the ring slot index it handed out.
#[derive(Clone, Copy, Debug, PartialEq, Eq, Structural)]
pub struct AcquireReport {
    pub status: i32,
    pub index: u32,
}

/// A wait call as it was made and reported: the timeout the caller gave the
/// driver (zero polls; the driver's infinite value blocks indefinitely), and
/// the status that came back.
#[derive(Clone, Copy, Debug, PartialEq, Eq, Structural)]
pub struct WaitReport {
    pub timeout: i64,
    pub status: i32,
}

/// What the two-call image enumeration reported: the count query's status and
/// count, then the fetch call's status and the descriptors it wrote.
#[derive(Debug)]
pub struct EnumerateReport {
    pub count_status: i32,
    pub count: u32,
    pub fill_status: i32,
    pub filled: Vec<u64>,
}

/// The one driver call teardown asks for: destroying this handle. Invoking
/// the destroy entry point consumes the request, so it is issued exactly once
/// for each destroyed swapchain; a failure it reports is ignored, since no
/// recovery action exists once teardown has begun.
#[derive(Debug)]
pub struct DestroyRequest {
    pub handle: u64,
}

} // verus!
