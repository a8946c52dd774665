//! Presentation-surface configuration lifecycle.
//!
//! The surface's capabilities (supported formats and modes) are reported by
//! the host's graphics backend; the engine's own duty is the selection rule
//! (first gamma-corrected format, else the first supported one) and the
//! resize policy (ignore degenerate sizes, reapply otherwise).

use vstd::prelude::*;

verus! {

/// One surface texture format as the engine sees it: an opaque identifier
/// assigned by the host shell, plus whether the format is gamma-corrected.
#[derive(Clone, Copy, PartialEq, Eq, Structural, Debug)]
pub struct SurfaceFormat {
    pub id: u32,
    pub srgb: bool,
}

/// The mutable configuration of the presentation surface.
///
/// `width` and `height` are only ever written while positive; `present_mode`
/// and `alpha_mode` are opaque identifiers for the first modes the surface
/// reported as supported.
#[derive(Clone, Copy, PartialEq, Eq, Structural, Debug)]
pub struct SurfaceConfig {
    pub format: SurfaceFormat,
    pub width: u32,
    pub height: u32,
    pub present_mode: u32,
    pub alpha_mode: u32,
}

impl SurfaceConfig {
    pub open spec fn wf(self) -> bool {
        self.width > 0 && self.height > 0
    }
}

/// What the surface reports as supported, in the backend's preference order.
pub struct SurfaceCaps {
    pub formats: Vec<SurfaceFormat>,
    pub present_modes: Vec<u32>,
    pub alpha_modes: Vec<u32>,
}

/// Index of the first gamma-corrected format at or after position `i`, or
/// `formats.len()` if there is none.
pub open spec fn first_srgb_from(formats: Seq<SurfaceFormat>, i: int) -> int
    decreases formats.len() - i,
{
    if i < 0 || i >= formats.len() {
        formats.len() as int
    } else if formats[i].srgb {
        i
    } else {
        first_srgb_from(formats, i + 1)
    }
}

/// The format the engine configures the surface with: the first
/// gamma-corrected one, or the first supported one if none is.
pub open spec fn chosen_format(formats: Seq<SurfaceFormat>) -> SurfaceFormat {
    let k = first_srgb_from(formats, 0);
    if k < formats.len() {
        formats[k]
    } else {
        formats[0]
    }
}

proof fn lemma_first_srgb_unseen(formats: Seq<SurfaceFormat>, i: int)
    requires
        0 <= i <= formats.len(),
        forall|j: int| 0 <= j < i ==> !formats[j].srgb,
    ensures
        first_srgb_from(formats, 0) == first_srgb_from(formats, i),
    decreases i,
{
    if i > 0 {
        lemma_first_srgb_unseen(formats, i - 1);
        assert(first_srgb_from(formats, i - 1) == first_srgb_from(formats, i));
    }
}

/// Pick the surface format per the selection rule.
pub fn choose_surface_format(formats: &Vec<SurfaceFormat>) -> (r: SurfaceFormat)
    requires
        formats@.len() > 0,
    ensures
        r == chosen_format(formats@),
{
    let n = formats.len();
    let mut i: usize = 0;
    while i < n
        invariant
            n == formats@.len(),
            0 <= i <= n,
            forall|j: int| 0 <= j < i ==> !formats@[j].srgb,
        decreases n - i,
    {
        if formats[i].srgb {
            proof {
                lemma_first_srgb_unseen(formats@, i as int);
            }
            return formats[i];
        }
        i = i + 1;
    }
    proof {
        lemma_first_srgb_unseen(formats@, n as int);
    }
    formats[0]
}

/// The initial configuration: chosen format, the window's pixel size, and the
/// first supported present and alpha modes.
pub open spec fn spec_initial_config(caps: SurfaceCaps, width: u32, height: u32) -> SurfaceConfig {
    SurfaceConfig {
        format: chosen_format(caps.formats@),
        width,
        height,
        present_mode: caps.present_modes@[0],
        alpha_mode: caps.alpha_modes@[0],
    }
}

/// Build the initial `SurfaceConfig` from the reported capabilities and the
/// window's initial pixel size.
///
/// Returns `None` exactly when the capabilities are unusable (some list
/// empty) or the window size is degenerate: a surface may only be configured
/// with positive dimensions.
pub fn initial_config(caps: &SurfaceCaps, width: u32, height: u32) -> (r: Option<SurfaceConfig>)
    ensures
        r is Some <==> (caps.formats@.len() > 0 && caps.present_modes@.len() > 0
            && caps.alpha_modes@.len() > 0 && width > 0 && height > 0),
        r matches Some(c) ==> c == spec_initial_config(*caps, width, height) && c.wf(),
{
    if caps.formats.len() == 0 || caps.present_modes.len() == 0 || caps.alpha_modes.len() == 0 {
        return None;
    }
    if width == 0 || height == 0 {
        return None;
    }
    let format = choose_surface_format(&caps.formats);
    Some(SurfaceConfig {
        format,
        width,
        height,
        present_mode: caps.present_modes[0],
        alpha_mode: caps.alpha_modes[0],
    })
}

/// The resize rule: a zero dimension leaves the configuration untouched;
/// otherwise only the dimensions change.
pub open spec fn spec_reconfigure(c: SurfaceConfig, w: u32, h: u32) -> SurfaceConfig {
    if w == 0 || h == 0 {
        c
    } else {
        SurfaceConfig { width: w, height: h, ..c }
    }
}

/// Apply a size change to the configuration.
///
/// Returns whether the configuration changed shape and must be reapplied to
/// the surface; a degenerate (minimized) size is ignored entirely.
pub fn reconfigure(c: &mut SurfaceConfig, w: u32, h: u32) -> (applied: bool)
    ensures
        *final(c) == spec_reconfigure(*old(c), w, h),
        applied <==> (w > 0 && h > 0),
        (w == 0 || h == 0) ==> *final(c) == *old(c),
        old(c).wf() ==> final(c).wf(),
{
    if w > 0 && h > 0 {
        c.width = w;
        c.height = h;
        true
    } else {
        false
    }
}

/// Reapplying the same size twice is the same as applying it once: the resize
/// rule is idempotent.
pub proof fn lemma_reconfigure_idempotent(c: SurfaceConfig, w: u32, h: u32)
    ensures
        spec_reconfigure(spec_reconfigure(c, w, h), w, h) == spec_reconfigure(c, w, h),
{
}

} // verus!
