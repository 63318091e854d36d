//! Verified core of a swapchain lifecycle: the acquire/wait/release image
//! ring protocol, single-owner handle teardown, image enumeration, and the
//! optional debug-naming capability.
//!
//! The driver interface (a table of entry points resolved per session) is an
//! external collaborator: it is reached through raw function pointers, which
//! cannot stand in verified code. Every decision this component makes — which
//! driver call is warranted, how a driver report is interpreted, how the
//! protocol state advances — lives here with a contract; the caller performs
//! the actual entry-point invocation and hands back the reported status.

mod driver;
mod ring;
mod session;
mod swapchain;

pub use driver::AcquireReport;
pub use driver::CreateReport;
pub use driver::DestroyRequest;
pub use driver::EnumerateReport;
pub use driver::SwapchainError;
pub use driver::WaitReport;
pub use driver::STATUS_SUCCESS;
pub use driver::STATUS_TIMEOUT_EXPIRED;
pub use driver::status_is_failure;
pub use driver::status_to_result;
pub use ring::RingModel;
pub use ring::lemma_fifo_order;
pub use ring::lemma_model_indices_repeat;
pub use ring::lemma_ring_indices_repeat;
pub use session::Instance;
pub use session::Session;
pub use swapchain::NamePlan;
pub use swapchain::Swapchain;
pub use swapchain::SwapchainConfig;
pub use swapchain::WaitOutcome;
pub use swapchain::enumerate_outcome;
pub use swapchain::images_view;
pub use swapchain::lemma_enumerate_deterministic;
