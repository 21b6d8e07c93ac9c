//! The presentation surface and its mutable configuration.
//!
//! The configuration keeps the pixel format, size, presentation mode, alpha
//! handling and queued-frame bound of the on-screen surface.  Its invariant
//! is that both dimensions stay at least one whenever the surface is
//! configured; a resize request with a zero dimension (a minimized window)
//! is absorbed without touching the stored configuration.

use vstd::prelude::*;

verus! {

/// A pixel format the presentation backend offers, reduced to what the
/// selection logic reads: an identifying code and whether the format is
/// sRGB-encoded.
#[derive(Clone, Copy, Debug, PartialEq, Eq, Structural)]
pub struct PixelFormat {
    pub code: u32,
    pub srgb: bool,
}

/// Policy governing how rendered frames queue against display refresh.
#[derive(Clone, Copy, Debug, PartialEq, Eq, Structural)]
pub enum PresentMode {
    AutoVsync,
    AutoNoVsync,
    Fifo,
}

/// How the surface's alpha channel is composited.
#[derive(Clone, Copy, Debug, PartialEq, Eq, Structural)]
pub enum AlphaMode {
    Auto,
    Opaque,
}

/// Picks the surface format to configure: the first sRGB format the backend
/// offers, or the first offered format when none is sRGB.
pub fn select_surface_format(formats: &Vec<PixelFormat>) -> (chosen: PixelFormat)
    requires
        formats@.len() >= 1,
    ensures
        (exists|i: int| 0 <= i < formats@.len() && formats@[i].srgb) ==> exists|i: int|
            {
                &&& 0 <= i < formats@.len()
                &&& chosen == formats@[i]
                &&& formats@[i].srgb
                &&& forall|k: int| 0 <= k < i ==> !(#[trigger] formats@[k]).srgb
            },
        (forall|i: int| 0 <= i < formats@.len() ==> !(#[trigger] formats@[i]).srgb)
            ==> chosen == formats@[0],
{
    let mut i: usize = 0;
    while i < formats.len()
        invariant
            i <= formats@.len(),
            forall|k: int| 0 <= k < i ==> !(#[trigger] formats@[k]).srgb,
        decreases formats@.len() - i,
    {
        if formats[i].srgb {
            return formats[i];
        }
        i = i + 1;
    }
    formats[0]
}

/// The stored configuration of the presentation surface.
#[derive(Clone, Copy, Debug, PartialEq, Eq, Structural)]
pub struct SurfaceConfiguration {
    pub format: PixelFormat,
    pub width: u32,
    pub height: u32,
    pub present_mode: PresentMode,
    pub alpha_mode: AlphaMode,
    pub max_queued_frames: u32,
}

impl SurfaceConfiguration {
    /// A configured surface never has a zero-area size.
    pub open spec fn wf(self) -> bool {
        self.width >= 1 && self.height >= 1
    }
}

/// The initial configuration applied when a window first appears: the given
/// format and size, automatic vsync and alpha handling, and at most two
/// queued frames.
pub fn initial_configuration(format: PixelFormat, width: u32, height: u32) -> (config:
    SurfaceConfiguration)
    requires
        width >= 1,
        height >= 1,
    ensures
        config == (SurfaceConfiguration {
            format,
            width,
            height,
            present_mode: PresentMode::AutoVsync,
            alpha_mode: AlphaMode::Auto,
            max_queued_frames: 2,
        }),
        config.wf(),
{
    SurfaceConfiguration {
        format,
        width,
        height,
        present_mode: PresentMode::AutoVsync,
        alpha_mode: AlphaMode::Auto,
        max_queued_frames: 2,
    }
}

/// The surface abstraction: it owns the stored configuration, mutated only
/// by `resize`.
#[derive(Clone, Copy, Debug, PartialEq, Eq, Structural)]
pub struct PresentationSurface {
    pub config: SurfaceConfiguration,
}

impl PresentationSurface {
    pub open spec fn wf(self) -> bool {
        self.config.wf()
    }

    /// Wraps a freshly configured surface around its first configuration.
    pub fn new(config: SurfaceConfiguration) -> (surface: PresentationSurface)
        requires
            config.wf(),
        ensures
            surface.config == config,
            surface.wf(),
    {
        PresentationSurface { config }
    }

    /// Applies a resize request.  A request with a zero dimension is
    /// absorbed: the stored configuration is left exactly as it was and no
    /// reconfiguration is owed.  A positive request updates the stored
    /// width and height to exactly the request and leaves every other field
    /// unchanged; the surface must then be reconfigured.
    pub fn resize(&mut self, new_width: u32, new_height: u32) -> (reconfigure: bool)
        requires
            old(self).wf(),
        ensures
            final(self).wf(),
            (new_width < 1 || new_height < 1) ==> {
                &&& *final(self) == *old(self)
                &&& !reconfigure
            },
            (new_width >= 1 && new_height >= 1) ==> {
                &&& reconfigure
                &&& final(self).config == (SurfaceConfiguration {
                    width: new_width,
                    height: new_height,
                    ..old(self).config
                })
            },
    {
        if new_width < 1 || new_height < 1 {
            return false;
        }
        self.config.width = new_width;
        self.config.height = new_height;
        true
    }
}

/// Why the current frame's texture could not be acquired; the caller may
/// reconfigure and retry on the next redraw.
#[derive(Clone, Copy, Debug, PartialEq, Eq, Structural)]
pub enum SurfaceAcquisitionError {
    Outdated,
    Lost,
    Timeout,
}

} // verus!
