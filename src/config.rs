//! Surface configuration: choosing a pixel format from what the surface
//! reports, building the configuration, and keeping its size in step with
//! the window.
use vstd::prelude::*;

verus! {

#[verifier::external_type_specification]
#[verifier::external_body]
pub struct ExTextureFormat(wgpu::TextureFormat);

#[verifier::external_type_specification]
#[verifier::external_body]
pub struct ExPresentMode(wgpu::PresentMode);

#[verifier::external_type_specification]
#[verifier::external_body]
pub struct ExCompositeAlphaMode(wgpu::CompositeAlphaMode);

/// Whether a pixel format stores its colour in the sRGB (gamma-corrected) space.
pub uninterp spec fn format_is_srgb(f: wgpu::TextureFormat) -> bool;

/// Relies on `wgpu::TextureFormat::is_srgb`, which depends on the format alone.
#[verifier::external_body]
fn is_srgb(f: &wgpu::TextureFormat) -> (r: bool)
    ensures
        r == format_is_srgb(*f),
{
    f.is_srgb()
}

/// The sRGB flag of each reported format, in the order reported.
pub open spec fn srgb_flags(formats: Seq<wgpu::TextureFormat>) -> Seq<bool> {
    formats.map_values(|f: wgpu::TextureFormat| format_is_srgb(f))
}

/// Index `i` is the format to pick from a list whose sRGB flags are `flags`:
/// the first sRGB entry if there is one, else the first entry.
pub open spec fn selects_format(flags: Seq<bool>, i: int) -> bool {
    &&& 0 <= i < flags.len()
    &&& if exists|j: int| 0 <= j < flags.len() && flags[j] {
        flags[i] && forall|j: int| 0 <= j < i ==> !flags[j]
    } else {
        i == 0
    }
}

/// Picks the index of the preferred format, given the sRGB flag of each
/// reported format; `None` when nothing was reported.
pub fn preferred_format_index(srgb: &Vec<bool>) -> (r: Option<usize>)
    ensures
        r.is_none() <==> srgb@.len() == 0,
        r matches Some(i) ==> selects_format(srgb@, i as int),
{
    let mut i: usize = 0;
    while i < srgb.len()
        invariant
            0 <= i <= srgb@.len(),
            forall|j: int| 0 <= j < i ==> !srgb@[j],
        decreases srgb@.len() - i,
    {
        if srgb[i] {
            return Some(i);
        }
        i = i + 1;
    }
    if srgb.len() == 0 {
        None
    } else {
        Some(0)
    }
}

/// Format choice is deterministic: for one list of flags at most one index
/// is the one to pick, so the same reported list always yields the same format.
pub proof fn lemma_format_choice_unique(flags: Seq<bool>, i: int, k: int)
    requires
        selects_format(flags, i),
        selects_format(flags, k),
    ensures
        i == k,
{
    if exists|j: int| 0 <= j < flags.len() && flags[j] {
        if i < k {
            assert(!flags[i]);
        } else if k < i {
            assert(!flags[k]);
        }
    }
}

/// Picks the preferred format among those the surface reports.
pub fn select_format(formats: &Vec<wgpu::TextureFormat>) -> (r: Option<wgpu::TextureFormat>)
    ensures
        r.is_none() <==> formats@.len() == 0,
        r matches Some(f) ==> exists|i: int|
            selects_format(srgb_flags(formats@), i) && formats@[i] == f,
{
    let mut flags: Vec<bool> = Vec::new();
    let mut i: usize = 0;
    while i < formats.len()
        invariant
            0 <= i <= formats@.len(),
            flags@.len() == i,
            forall|j: int| 0 <= j < i ==> flags@[j] == format_is_srgb(formats@[j]),
        decreases formats@.len() - i,
    {
        let b = is_srgb(&formats[i]);
        flags.push(b);
        i = i + 1;
    }
    assert(flags@ =~= srgb_flags(formats@));
    match preferred_format_index(&flags) {
        Some(k) => Some(formats[k]),
        None => None,
    }
}

/// Bits of the render-attachment texture usage (`1 << 4` in wgpu), the one
/// usage a surface is configured with.
pub const RENDER_ATTACHMENT_BITS: u32 = 16;

/// How many frames may be queued ahead of the display.
pub const MAX_FRAME_LATENCY: u32 = 2;

/// The parameters with which a window's surface is configured.
pub struct SurfaceConfig {
    /// Texture usages, as wgpu's bits.
    pub usage: u32,
    pub format: wgpu::TextureFormat,
    pub width: u32,
    pub height: u32,
    pub present_mode: wgpu::PresentMode,
    pub alpha_mode: wgpu::CompositeAlphaMode,
    pub view_formats: Vec<wgpu::TextureFormat>,
    pub desired_maximum_frame_latency: u32,
}

/// Why a surface could not be set up.
#[derive(Debug, Clone, Copy, PartialEq, Eq, Structural)]
pub enum InitError {
    /// A dimension of the window is zero.
    InvalidSize,
    /// A dimension of the window exceeds the device's largest texture.
    TooLarge,
    /// No surface could be made for the window.
    SurfaceCreation,
    /// No adapter can present to the surface.
    NoAdapter,
    /// The adapter refused to give a device.
    DeviceCreation,
    /// The surface reports no format, present mode or alpha mode.
    Unsupported,
}

impl SurfaceConfig {
    /// A configuration that may be applied to a surface.
    pub open spec fn applicable(&self) -> bool {
        self.width > 0 && self.height > 0
    }

    /// Builds the configuration from what the surface reports: the preferred
    /// format, the first present mode and the first alpha mode. A side above
    /// `max_dimension`, the device's largest texture, is refused.
    pub fn new(
        formats: &Vec<wgpu::TextureFormat>,
        present_modes: &Vec<wgpu::PresentMode>,
        alpha_modes: &Vec<wgpu::CompositeAlphaMode>,
        width: u32,
        height: u32,
        max_dimension: u32,
    ) -> (r: Result<SurfaceConfig, InitError>)
        ensures
            r == Err::<SurfaceConfig, InitError>(InitError::InvalidSize) <==> (width == 0
                || height == 0),
            r == Err::<SurfaceConfig, InitError>(InitError::Unsupported) <==> (width > 0 && height
                > 0 && (formats@.len() == 0 || present_modes@.len() == 0 || alpha_modes@.len()
                == 0)),
            r == Err::<SurfaceConfig, InitError>(InitError::TooLarge) <==> (width > 0 && height > 0
                && formats@.len() > 0 && present_modes@.len() > 0 && alpha_modes@.len() > 0 && (
            width > max_dimension || height > max_dimension)),
            0 < width <= max_dimension && 0 < height <= max_dimension && formats@.len() > 0
                && present_modes@.len() > 0 && alpha_modes@.len() > 0 ==> r is Ok,
            r matches Ok(c) ==> {
                &&& c.usage == RENDER_ATTACHMENT_BITS
                &&& c.width == width
                &&& c.height == height
                &&& exists|i: int| selects_format(srgb_flags(formats@), i) && formats@[i] == c.format
                &&& c.present_mode == present_modes@[0]
                &&& c.alpha_mode == alpha_modes@[0]
                &&& c.view_formats@.len() == 0
                &&& c.desired_maximum_frame_latency == MAX_FRAME_LATENCY
            },
    {
        if width == 0 || height == 0 {
            return Err(InitError::InvalidSize);
        }
        if present_modes.len() == 0 || alpha_modes.len() == 0 {
            return Err(InitError::Unsupported);
        }
        let format = match select_format(formats) {
            None => return Err(InitError::Unsupported),
            Some(f) => f,
        };
        if width > max_dimension || height > max_dimension {
            return Err(InitError::TooLarge);
        }
        Ok(SurfaceConfig {
            usage: RENDER_ATTACHMENT_BITS,
            format,
            width,
            height,
            present_mode: present_modes[0],
            alpha_mode: alpha_modes[0],
            view_formats: Vec::new(),
            desired_maximum_frame_latency: MAX_FRAME_LATENCY,
        })
    }

    /// Takes the new size of the window. A zero dimension (a minimised
    /// window) leaves the configuration as it was and returns `false`;
    /// otherwise the size is stored and `true` says the surface must be
    /// configured again.
    pub fn resize(&mut self, width: u32, height: u32) -> (changed: bool)
        ensures
            changed == (width > 0 && height > 0),
            !changed ==> *final(self) == *old(self),
            changed ==> *final(self) == (SurfaceConfig { width, height, ..*old(self) }),
    {
        if width == 0 || height == 0 {
            return false;
        }
        self.width = width;
        self.height = height;
        true
    }
}

} // verus!
