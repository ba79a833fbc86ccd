//! The presentable surface's negotiated configuration and readiness.
use vstd::prelude::*;

verus! {

/// Why a negotiated surface cannot be used.
#[derive(Clone, Copy, Debug, PartialEq, Eq, Structural)]
pub enum InitError {
    NoSurfaceFormat,
    NoPresentMode,
    NoAlphaMode,
}

/// Why a frame could not be acquired from the surface.
#[derive(Clone, Copy, Debug, PartialEq, Eq, Structural)]
pub enum SurfaceError {
    Lost,
    Outdated,
    Timeout,
    Occluded,
    Other,
}

/// What the frame step does after a failed acquisition.
#[derive(Clone, Copy, Debug, PartialEq, Eq, Structural)]
pub enum Recovery {
    /// Configure the surface again at the window's current size; render on a
    /// later frame.
    Reconfigure,
    /// Report the error and skip this frame.
    ReportAndSkip,
}

/// The surface configuration. Formats and modes are indices into the lists
/// that the adapter reported.
#[derive(Clone, Copy, Debug, PartialEq, Eq, Structural)]
pub struct SurfaceConfig {
    pub format: usize,
    pub present_mode: usize,
    pub alpha_mode: usize,
    pub width: u32,
    pub height: u32,
}

/// The format chosen among the supported ones: the first sRGB-capable one,
/// else the first.
pub open spec fn chosen_format(srgb: Seq<bool>) -> usize
    recommends
        srgb.len() > 0,
{
    if exists|i: int| 0 <= i < srgb.len() && srgb[i] {
        (choose|i: int| 0 <= i < srgb.len() && srgb[i] && forall|j: int| 0 <= j < i ==> !srgb[j]) as usize
    } else {
        0
    }
}

/// Picks a surface format; `srgb[i]` tells whether the `i`-th supported
/// format is sRGB-capable.
pub fn select_format(srgb: &Vec<bool>) -> (r: usize)
    requires
        srgb@.len() > 0,
    ensures
        r < srgb@.len(),
        r == chosen_format(srgb@),
        srgb@[r as int] || forall|j: int| 0 <= j < srgb@.len() ==> !srgb@[j],
        forall|j: int| 0 <= j < r ==> !srgb@[j],
{
    let mut i: usize = 0;
    while i < srgb.len()
        invariant
            i <= srgb@.len(),
            forall|j: int| 0 <= j < i ==> !srgb@[j],
        decreases srgb.len() - i,
    {
        if srgb[i] {
            proof {
                let c = choose|c: int| 0 <= c < srgb@.len() && srgb@[c] && forall|j: int| 0 <= j < c ==> !srgb@[j];
                assert(c == i as int) by {
                    if c < i as int {
                        assert(!srgb@[c]);
                    }
                    if c > i as int {
                        assert(!srgb@[i as int]);
                    }
                }
            }
            return i;
        }
        i += 1;
    }
    0
}

/// The surface's state as this crate models it.
pub struct SurfaceView {
    pub config: SurfaceConfig,
    pub ready: bool,
}

/// The surface bookkeeping of a running window: its configuration and
/// whether it has been configured at a usable size.
pub struct State {
    config: SurfaceConfig,
    is_surface_configured: bool,
}

impl View for State {
    type V = SurfaceView;

    closed spec fn view(&self) -> SurfaceView {
        SurfaceView { config: self.config, ready: self.is_surface_configured }
    }
}

/// The state after `resize(width, height)`.
pub open spec fn resized(s: SurfaceView, width: u32, height: u32) -> SurfaceView {
    if width > 0 && height > 0 {
        SurfaceView { config: SurfaceConfig { width, height, ..s.config }, ready: true }
    } else {
        SurfaceView { ready: false, ..s }
    }
}

/// A size with a zero side leaves the surface not ready; a usable size after
/// it makes the surface ready at that size.
pub proof fn lemma_ready_after_usable_size(s: SurfaceView, width: u32, height: u32, usable_width: u32, usable_height: u32)
    requires
        width == 0 || height == 0,
        usable_width > 0,
        usable_height > 0,
    ensures
        !resized(s, width, height).ready,
        resized(s, width, height).config == s.config,
        resized(resized(s, width, height), usable_width, usable_height).ready,
        resized(resized(s, width, height), usable_width, usable_height).config.width == usable_width,
        resized(resized(s, width, height), usable_width, usable_height).config.height == usable_height,
{
}

impl State {
    /// Settles the configuration once the device is negotiated, from what the
    /// adapter supports: whether each format is sRGB-capable, and how many
    /// present and alpha modes it offers. The surface is not ready until the
    /// first resize to a usable size.
    pub fn new(width: u32, height: u32, srgb: &Vec<bool>, present_modes: usize, alpha_modes: usize) -> (r:
        Result<State, InitError>)
        ensures
            srgb@.len() == 0 ==> r == Err::<State, InitError>(InitError::NoSurfaceFormat),
            srgb@.len() > 0 && present_modes == 0 ==> r == Err::<State, InitError>(InitError::NoPresentMode),
            srgb@.len() > 0 && present_modes > 0 && alpha_modes == 0 ==> r == Err::<State, InitError>(
                InitError::NoAlphaMode,
            ),
            srgb@.len() > 0 && present_modes > 0 && alpha_modes > 0 ==> (r matches Ok(s) && s@ == (SurfaceView {
                config: SurfaceConfig {
                    format: chosen_format(srgb@),
                    present_mode: 0,
                    alpha_mode: 0,
                    width,
                    height,
                },
                ready: false,
            })),
    {
        if srgb.len() == 0 {
            return Err(InitError::NoSurfaceFormat);
        }
        if present_modes == 0 {
            return Err(InitError::NoPresentMode);
        }
        if alpha_modes == 0 {
            return Err(InitError::NoAlphaMode);
        }
        let format = select_format(srgb);
        Ok(State {
            config: SurfaceConfig { format, present_mode: 0, alpha_mode: 0, width, height },
            is_surface_configured: false,
        })
    }

    /// Takes a new window size. A size with a zero side changes nothing but
    /// readiness: the surface is not ready until a usable size comes. Returns
    /// whether the surface must now be configured with [`State::config`].
    pub fn resize(&mut self, width: u32, height: u32) -> (r: bool)
        ensures
            final(self)@ == resized(old(self)@, width, height),
            r == (width > 0 && height > 0),
    {
        if width > 0 && height > 0 {
            self.config.width = width;
            self.config.height = height;
            self.is_surface_configured = true;
            true
        } else {
            self.is_surface_configured = false;
            false
        }
    }

    pub fn config(&self) -> (r: SurfaceConfig)
        ensures
            r == self@.config,
    {
        self.config
    }

    pub fn is_surface_configured(&self) -> (r: bool)
        ensures
            r == self@.ready,
    {
        self.is_surface_configured
    }
}

/// What the frame step does when acquiring a frame failed: a lost or
/// outdated surface is configured again, any other error skips the frame.
pub fn recovery_for(err: SurfaceError) -> (r: Recovery)
    ensures
        r == (if err == SurfaceError::Lost || err == SurfaceError::Outdated {
            Recovery::Reconfigure
        } else {
            Recovery::ReportAndSkip
        }),
{
    match err {
        SurfaceError::Lost => Recovery::Reconfigure,
        SurfaceError::Outdated => Recovery::Reconfigure,
        _ => Recovery::ReportAndSkip,
    }
}

} // verus!
