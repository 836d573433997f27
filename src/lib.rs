//! Lifecycle management for a GPU presentation surface attached to a
//! platform window.
//!
//! The library decides; the embedding program acts. Platform lifecycle
//! events and the outcomes of GPU work are fed to an [`Orchestrator`], which
//! answers each with exactly one [`Action`] for the caller to carry out.
//! Every decision is specified by a pure transition function, and the
//! lifecycle laws (at most one render context per suspend epoch, complete
//! teardown on suspend, no rendering before readiness, stable color format,
//! idempotent swapchain configuration) are proved over it.

pub mod format;
pub mod swapchain;
pub mod lifecycle;
pub mod laws;
pub mod surface_format;
pub mod backends;

pub use backends::backend_selection;
pub use format::{choose_format_index, FormatCap};
pub use lifecycle::{Action, Event, Failure, FramePlan, Lifecycle, Orchestrator, Phase};
pub use swapchain::{swapchain_config, AlphaMode, PresentMode, Size, SwapchainConfig};
pub use surface_format::format_caps;

