use vstd::prelude::*;

use crate::geometry::{Color, Size};
use crate::lifecycle::OverlayError;

verus! {

#[verifier::external_type_specification]
#[verifier::external_body]
pub struct ExTextureFormat(wgpu::TextureFormat);

#[verifier::external_type_specification]
#[verifier::external_body]
pub struct ExCompositeAlphaMode(wgpu::CompositeAlphaMode);

/// Frames the presentation queue may hold ahead of the display.
pub const FRAME_LATENCY: u32 = 2;

/// How an overlay's surface is configured. Presentation is first-in,
/// first-out.
pub struct SurfaceSettings {
    pub width: u32,
    pub height: u32,
    pub format: wgpu::TextureFormat,
    pub alpha_mode: wgpu::CompositeAlphaMode,
    pub max_frame_latency: u32,
}

impl SurfaceSettings {
    /// The first configuration of a surface of `size`, with the first format
    /// and the first alpha mode that the surface supports on the adapter.
    /// Fails when it supports none.
    pub fn initialize_renderer(
        size: Size,
        formats: &Vec<wgpu::TextureFormat>,
        alpha_modes: &Vec<wgpu::CompositeAlphaMode>,
    ) -> (r: Result<SurfaceSettings, OverlayError>)
        ensures
            r is Ok <==> formats@.len() > 0 && alpha_modes@.len() > 0,
            match r {
                Ok(s) => {
                    &&& s.width == size.width
                    &&& s.height == size.height
                    &&& s.format == formats@[0]
                    &&& s.alpha_mode == alpha_modes@[0]
                    &&& s.max_frame_latency == FRAME_LATENCY
                },
                Err(e) => e == OverlayError::AdapterUnavailable,
            },
    {
        if formats.len() == 0 || alpha_modes.len() == 0 {
            return Err(OverlayError::AdapterUnavailable);
        }
        Ok(
            SurfaceSettings {
                width: size.width,
                height: size.height,
                format: formats[0],
                alpha_mode: alpha_modes[0],
                max_frame_latency: FRAME_LATENCY,
            },
        )
    }

    /// Whether the configuration is for a surface of `size`.
    pub fn fits(&self, size: Size) -> (r: bool)
        ensures
            r == (self.width == size.width && self.height == size.height),
    {
        self.width == size.width && self.height == size.height
    }

    /// Takes the window's new size into the configuration; nothing else changes.
    pub fn recalc_surface(&mut self, size: Size)
        ensures
            final(self).width == size.width,
            final(self).height == size.height,
            final(self).format == old(self).format,
            final(self).alpha_mode == old(self).alpha_mode,
            final(self).max_frame_latency == old(self).max_frame_latency,
    {
        self.width = size.width;
        self.height = size.height;
    }
}

/// Where an overlay's GPU surface stands.
pub enum SurfaceState {
    /// No GPU resources yet: they are made on the first render.
    Uninitialized,
    /// Configured as the settings say.
    Ready(SurfaceSettings),
    /// No adapter or device could be had; the overlay is not rendered again.
    Unavailable,
}

/// What the host is to do next to render an overlay.
#[derive(Clone, Copy, Debug, PartialEq, Eq, Structural)]
pub enum RenderStep {
    /// Acquire adapter and device and configure the surface at this size.
    Initialize(Size),
    /// Configure the surface again at this size before any frame is acquired.
    Reconfigure(Size),
    /// Clear the frame to this color, draw the triangle and present.
    Draw(Color),
    /// The surface cannot render.
    Refuse,
}

/// The next step towards a frame of `color` in a window of `window_size`.
pub open spec fn render_step(state: SurfaceState, window_size: Size, color: Color) -> RenderStep {
    match state {
        SurfaceState::Uninitialized => RenderStep::Initialize(window_size),
        SurfaceState::Unavailable => RenderStep::Refuse,
        SurfaceState::Ready(s) => if s.width == window_size.width && s.height
            == window_size.height {
            RenderStep::Draw(color)
        } else {
            RenderStep::Reconfigure(window_size)
        },
    }
}

/// What follows a failed acquisition of the next surface image: one
/// reconfiguration at the window's size, and failure if it was already tried.
pub fn acquire_failed_step(already_retried: bool, window_size: Size) -> (r: Result<
    RenderStep,
    OverlayError,
>)
    ensures
        !already_retried ==> r == Ok::<RenderStep, OverlayError>(
            RenderStep::Reconfigure(window_size),
        ),
        already_retried ==> r == Err::<RenderStep, OverlayError>(
            OverlayError::SurfaceAcquisitionFailed,
        ),
{
    if already_retried {
        Err(OverlayError::SurfaceAcquisitionFailed)
    } else {
        Ok(RenderStep::Reconfigure(window_size))
    }
}

impl SurfaceState {
    /// Decides the next step of a render: initialize lazily, reconfigure after
    /// a resize, then draw.
    pub fn next_render_step(&self, window_size: Size, color: Color) -> (r: RenderStep)
        ensures
            r == render_step(*self, window_size, color),
    {
        match self {
            SurfaceState::Uninitialized => RenderStep::Initialize(window_size),
            SurfaceState::Unavailable => RenderStep::Refuse,
            SurfaceState::Ready(s) => if s.fits(window_size) {
                RenderStep::Draw(color)
            } else {
                RenderStep::Reconfigure(window_size)
            },
        }
    }

    /// The state after an attempt to initialize: ready on success, and
    /// unavailable for good on failure.
    pub fn initialized(result: Result<SurfaceSettings, OverlayError>) -> (r: SurfaceState)
        ensures
            match result {
                Ok(s) => r == SurfaceState::Ready(s),
                Err(_) => r == SurfaceState::Unavailable,
            },
    {
        match result {
            Ok(s) => SurfaceState::Ready(s),
            Err(_) => SurfaceState::Unavailable,
        }
    }

    /// Records that the surface was configured again at `size`.
    pub fn reconfigured(&mut self, size: Size)
        ensures
            match *old(self) {
                SurfaceState::Ready(s) => match *final(self) {
                    SurfaceState::Ready(t) => {
                        &&& t.width == size.width
                        &&& t.height == size.height
                        &&& t.format == s.format
                        &&& t.alpha_mode == s.alpha_mode
                        &&& t.max_frame_latency == s.max_frame_latency
                    },
                    _ => false,
                },
                _ => *final(self) == *old(self),
            },
    {
        match self {
            SurfaceState::Ready(s) => s.recalc_surface(size),
            _ => {},
        }
    }
}

} // verus!
