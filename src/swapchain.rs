use vstd::prelude::*;

verus! {

/// A window's size in physical pixels.
#[derive(Clone, Copy, Debug, PartialEq, Eq, Structural)]
pub struct Size {
    pub width: u32,
    pub height: u32,
}

/// How presented images are synchronised with the display.
#[derive(Clone, Copy, Debug, PartialEq, Eq, Structural)]
pub enum PresentMode {
    /// Wait for vertical blank; never tears.
    Fifo,
    /// Replace the queued image; lower latency, may drop frames.
    Mailbox,
}

/// How the window system composites the surface's alpha channel.
#[derive(Clone, Copy, Debug, PartialEq, Eq, Structural)]
pub enum AlphaMode {
    /// Keep whatever the window system does by default.
    Inherit,
    /// Treat every pixel as fully opaque.
    Opaque,
}

/// Presentation parameters applied to a surface.
#[derive(Clone, Copy, Debug, PartialEq, Eq)]
pub struct SwapchainConfig<F> {
    pub format: F,
    pub width: u32,
    pub height: u32,
    pub present_mode: PresentMode,
    pub alpha_mode: AlphaMode,
    pub max_frame_latency: u32,
}

/// Frames that may be queued ahead of the display.
pub const MAX_FRAME_LATENCY: u32 = 2;

/// The configuration for a surface of the given size rendered in `format`:
/// vsync-locked presentation, the window system's alpha handling and at
/// most two frames in flight.
pub open spec fn config_of<F>(format: F, size: Size) -> SwapchainConfig<F> {
    SwapchainConfig {
        format,
        width: size.width,
        height: size.height,
        present_mode: PresentMode::Fifo,
        alpha_mode: AlphaMode::Inherit,
        max_frame_latency: MAX_FRAME_LATENCY,
    }
}

/// Derives the swapchain configuration for a surface of `size` pixels whose
/// render context draws in `format`.
pub fn swapchain_config<F: Copy>(format: F, size: Size) -> (r: SwapchainConfig<F>)
    ensures
        r == config_of(format, size),
        r.format == format,
        r.width == size.width && r.height == size.height,
        r.present_mode == PresentMode::Fifo,
        r.alpha_mode == AlphaMode::Inherit,
        r.max_frame_latency == 2,
{
    SwapchainConfig {
        format,
        width: size.width,
        height: size.height,
        present_mode: PresentMode::Fifo,
        alpha_mode: AlphaMode::Inherit,
        max_frame_latency: MAX_FRAME_LATENCY,
    }
}

} // verus!
