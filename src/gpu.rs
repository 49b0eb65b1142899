//! The presentation surface manager: negotiates the adapter, device and queue
//! for one window and keeps the surface configured to the window's size.
use std::sync::Arc;

use vstd::prelude::*;

use crate::config::{InitError, SurfaceConfig, RENDER_ATTACHMENT_BITS};

verus! {

#[verifier::external_type_specification]
#[verifier::external_body]
pub struct ExWindow(winit::window::Window);

#[verifier::external_type_specification]
#[verifier::external_body]
pub struct ExInstance(wgpu::Instance);

#[verifier::external_type_specification]
#[verifier::external_body]
pub struct ExSurface<'window>(wgpu::Surface<'window>);

#[verifier::external_type_specification]
#[verifier::external_body]
pub struct ExAdapter(wgpu::Adapter);

#[verifier::external_type_specification]
#[verifier::external_body]
pub struct ExDevice(wgpu::Device);

#[verifier::external_type_specification]
#[verifier::external_body]
pub struct ExQueue(wgpu::Queue);

#[verifier::external_type_specification]
pub struct ExLimits(wgpu::Limits);

/// `using_resolution` takes the three texture size limits of `other` and
/// keeps every other limit of `limits`.
pub assume_specification[ wgpu::Limits::using_resolution ](
    limits: wgpu::Limits,
    other: wgpu::Limits,
) -> (r: wgpu::Limits)
    ensures
        r == (wgpu::Limits {
            max_texture_dimension_1d: other.max_texture_dimension_1d,
            max_texture_dimension_2d: other.max_texture_dimension_2d,
            max_texture_dimension_3d: other.max_texture_dimension_3d,
            ..limits
        }),
;

#[verifier::external_type_specification]
pub struct ExPowerPreference(wgpu::PowerPreference);

#[verifier::external_type_specification]
#[verifier::external_body]
pub struct ExCreateSurfaceError(wgpu::CreateSurfaceError);

#[verifier::external_type_specification]
#[verifier::external_body]
pub struct ExRequestDeviceError(wgpu::RequestDeviceError);

/// Relies on `wgpu::Instance::default`: an instance with the backends enabled
/// for this platform.
#[verifier::external_body]
fn new_instance() -> wgpu::Instance {
    wgpu::Instance::default()
}

/// Relies on `wgpu::Instance::create_surface`: a surface that presents to the
/// window and keeps it alive.
#[verifier::external_body]
fn create_surface(instance: &wgpu::Instance, window: Arc<winit::window::Window>) -> Result<
    wgpu::Surface<'static>,
    wgpu::CreateSurfaceError,
> {
    instance.create_surface(window)
}

/// The options with which an adapter is requested.
#[derive(Clone, Copy)]
pub struct AdapterRequest {
    pub power_preference: wgpu::PowerPreference,
    pub force_fallback_adapter: bool,
}

/// What was asked of, and read from, the GPU subsystem while setting up a
/// surface.
pub struct Requests {
    adapters: Ghost<Seq<AdapterRequest>>,
    adapter_limits: Ghost<Seq<wgpu::Limits>>,
    devices: Ghost<Seq<(Seq<char>, wgpu::Limits)>>,
}

impl Requests {
    /// The options of each adapter request, in order.
    pub closed spec fn adapters(&self) -> Seq<AdapterRequest> {
        self.adapters@
    }

    /// The limits read from the adapter, in order.
    pub closed spec fn adapter_limits(&self) -> Seq<wgpu::Limits> {
        self.adapter_limits@
    }

    /// The label and required limits of each device request, in order.
    pub closed spec fn devices(&self) -> Seq<(Seq<char>, wgpu::Limits)> {
        self.devices@
    }

    /// Nothing requested yet.
    pub fn new() -> (r: Requests)
        ensures
            r.adapters() == Seq::<AdapterRequest>::empty(),
            r.adapter_limits() == Seq::<wgpu::Limits>::empty(),
            r.devices() == Seq::<(Seq<char>, wgpu::Limits)>::empty(),
    {
        Requests {
            adapters: Ghost(Seq::empty()),
            adapter_limits: Ghost(Seq::empty()),
            devices: Ghost(Seq::empty()),
        }
    }
}

/// Relies on `wgpu::Instance::request_adapter`, waited for with
/// `pollster::block_on`, with `request`'s options and `surface` as the
/// surface to be compatible with: an adapter, or `None`. The request is
/// recorded in `log`.
#[verifier::external_body]
fn request_adapter(
    instance: &wgpu::Instance,
    surface: &wgpu::Surface<'static>,
    request: AdapterRequest,
    log: &mut Requests,
) -> (r: Option<wgpu::Adapter>)
    ensures
        final(log).adapters() == old(log).adapters().push(request),
        final(log).adapter_limits() == old(log).adapter_limits(),
        final(log).devices() == old(log).devices(),
{
    pollster::block_on(
        instance.request_adapter(
            &wgpu::RequestAdapterOptions {
                power_preference: request.power_preference,
                force_fallback_adapter: request.force_fallback_adapter,
                compatible_surface: Some(surface),
            },
        ),
    )
}

/// Relies on `wgpu::Adapter::limits`: the best limits the adapter supports.
/// The reading is recorded in `log`.
#[verifier::external_body]
fn adapter_limits(adapter: &wgpu::Adapter, log: &mut Requests) -> (r: wgpu::Limits)
    ensures
        final(log).adapter_limits() == old(log).adapter_limits().push(r),
        final(log).adapters() == old(log).adapters(),
        final(log).devices() == old(log).devices(),
{
    adapter.limits()
}

/// Relies on `wgpu::Limits::downlevel_webgl2_defaults`: limits that every
/// WebGL2-capable device meets.
#[verifier::external_body]
fn downlevel_webgl2_limits() -> wgpu::Limits {
    wgpu::Limits::downlevel_webgl2_defaults()
}

/// Relies on `wgpu::Adapter::request_device`, waited for with
/// `pollster::block_on`: a device labelled `label`, with `limits` and with
/// the defaults of `wgpu::Features` (none) and `wgpu::MemoryHints`, and its
/// queue; or the error, which wgpu returns rather than panicking when the
/// adapter cannot meet the request. The request is recorded in `log`.
#[verifier::external_body]
fn request_device(adapter: &wgpu::Adapter, label: &str, limits: wgpu::Limits, log: &mut Requests) -> (r: Result<
    (wgpu::Device, wgpu::Queue),
    wgpu::RequestDeviceError,
>)
    ensures
        final(log).devices() == old(log).devices().push((label@, limits)),
        final(log).adapters() == old(log).adapters(),
        final(log).adapter_limits() == old(log).adapter_limits(),
{
    pollster::block_on(
        adapter.request_device(
            &wgpu::DeviceDescriptor {
                label: Some(label),
                required_features: wgpu::Features::default(),
                required_limits: limits,
                memory_hints: wgpu::MemoryHints::default(),
            },
            None,
        ),
    )
}

/// What a surface supports with an adapter, preferred first.
pub struct SurfaceCaps {
    pub formats: Vec<wgpu::TextureFormat>,
    pub present_modes: Vec<wgpu::PresentMode>,
    pub alpha_modes: Vec<wgpu::CompositeAlphaMode>,
}

impl SurfaceCaps {
    /// The format, present mode and alpha mode of `c` are all supported.
    pub open spec fn supports(&self, c: SurfaceConfig) -> bool {
        &&& self.formats@.contains(c.format)
        &&& self.present_modes@.contains(c.present_mode)
        &&& self.alpha_modes@.contains(c.alpha_mode)
    }
}

/// Relies on `slice::contains` with the `PartialEq` that wgpu derives for
/// `TextureFormat`, which compares variants and their fields.
#[verifier::external_body]
fn format_listed(list: &Vec<wgpu::TextureFormat>, f: &wgpu::TextureFormat) -> (r: bool)
    ensures
        r == list@.contains(*f),
{
    list.contains(f)
}

/// Relies on `slice::contains` with the `PartialEq` that wgpu derives for
/// the field-less enum `PresentMode`.
#[verifier::external_body]
fn present_mode_listed(list: &Vec<wgpu::PresentMode>, m: &wgpu::PresentMode) -> (r: bool)
    ensures
        r == list@.contains(*m),
{
    list.contains(m)
}

/// Relies on `slice::contains` with the `PartialEq` that wgpu derives for
/// the field-less enum `CompositeAlphaMode`.
#[verifier::external_body]
fn alpha_mode_listed(list: &Vec<wgpu::CompositeAlphaMode>, m: &wgpu::CompositeAlphaMode) -> (r: bool)
    ensures
        r == list@.contains(*m),
{
    list.contains(m)
}

/// Whether `caps` supports the format, present mode and alpha mode of `c`.
pub fn supports_config(caps: &SurfaceCaps, c: &SurfaceConfig) -> (r: bool)
    ensures
        r == caps.supports(*c),
{
    format_listed(&caps.formats, &c.format) && present_mode_listed(&caps.present_modes, &c.present_mode)
        && alpha_mode_listed(&caps.alpha_modes, &c.alpha_mode)
}

/// A surface together with the adapter and device it is used with, and the
/// device's largest 2D texture.
pub struct Presentation {
    surface: wgpu::Surface<'static>,
    adapter: wgpu::Adapter,
    device: wgpu::Device,
    max_dimension: u32,
    /// Every configuration applied to the surface, oldest first.
    applied: Ghost<Seq<SurfaceConfig>>,
    /// Every reading of the surface's capabilities, oldest first.
    reads: Ghost<Seq<SurfaceCaps>>,
}

impl Presentation {
    /// The largest width or height of a 2D texture on the device.
    pub closed spec fn max_dimension(&self) -> u32 {
        self.max_dimension
    }

    /// The configurations applied to the surface so far, oldest first.
    pub closed spec fn applied(&self) -> Seq<SurfaceConfig> {
        self.applied@
    }

    /// The capabilities read from the surface so far, oldest first.
    pub closed spec fn reads(&self) -> Seq<SurfaceCaps> {
        self.reads@
    }

    /// `self` and `other` hold the same surface, adapter and device.
    pub closed spec fn same_target(&self, other: Presentation) -> bool {
        &&& self.surface == other.surface
        &&& self.adapter == other.adapter
        &&& self.device == other.device
        &&& self.max_dimension == other.max_dimension
    }

    /// A width and height the surface can be configured with.
    pub open spec fn fits(&self, width: u32, height: u32) -> bool {
        0 < width <= self.max_dimension() && 0 < height <= self.max_dimension()
    }

    /// Relies on `wgpu::Device::limits` for the largest 2D texture of
    /// `device`, which was requested from `adapter`. Nothing has been read
    /// from or applied to the surface yet.
    #[verifier::external_body]
    fn bind(surface: wgpu::Surface<'static>, adapter: wgpu::Adapter, device: wgpu::Device) -> (r: Presentation)
        ensures
            r.applied() == Seq::<SurfaceConfig>::empty(),
            r.reads() == Seq::<SurfaceCaps>::empty(),
    {
        let max_dimension = device.limits().max_texture_dimension_2d;
        Presentation {
            surface,
            adapter,
            device,
            max_dimension,
            applied: Ghost(Seq::empty()),
            reads: Ghost(Seq::empty()),
        }
    }

    /// The largest width or height of a 2D texture on the device.
    pub fn max_texture_dimension(&self) -> (r: u32)
        ensures
            r == self.max_dimension(),
    {
        self.max_dimension
    }

    /// Relies on `wgpu::Surface::get_capabilities` with the adapter: what
    /// the surface supports now. The reading is recorded.
    #[verifier::external_body]
    fn read_capabilities(&mut self) -> (r: SurfaceCaps)
        ensures
            final(self).reads() == old(self).reads().push(r),
            final(self).applied() == old(self).applied(),
            final(self).same_target(*old(self)),
    {
        let caps = self.surface.get_capabilities(&self.adapter);
        SurfaceCaps {
            formats: caps.formats,
            present_modes: caps.present_modes,
            alpha_modes: caps.alpha_modes,
        }
    }

    /// Relies on `wgpu::Surface::configure`, which (re)allocates the
    /// surface's buffers for `config`, whose usage bits become
    /// `wgpu::TextureUsages` by `from_bits_truncate`; the application is
    /// recorded.
    /// `requires` leaves out what wgpu checks against the configuration: a
    /// zero or too large side, a usage other than render attachment, view
    /// formats, and a format, present mode or alpha mode missing from the
    /// capabilities read last. wgpu 22 still panics when the device or the
    /// surface is lost or outdated, when the platform fails to wait for or
    /// reconfigure the surface, and when the capabilities changed since they
    /// were read: nothing here can rule these out.
    #[verifier::external_body]
    fn configure(&mut self, config: &SurfaceConfig)
        requires
            old(self).fits(config.width, config.height),
            config.usage == RENDER_ATTACHMENT_BITS,
            config.view_formats@.len() == 0,
            old(self).reads().len() > 0,
            old(self).reads().last().supports(*config),
        ensures
            final(self).applied() == old(self).applied().push(*config),
            final(self).reads() == old(self).reads(),
            final(self).same_target(*old(self)),
    {
        self.surface.configure(
            &self.device,
            &wgpu::SurfaceConfiguration {
                usage: wgpu::TextureUsages::from_bits_truncate(config.usage),
                format: config.format,
                width: config.width,
                height: config.height,
                present_mode: config.present_mode,
                alpha_mode: config.alpha_mode,
                view_formats: config.view_formats.clone(),
                desired_maximum_frame_latency: config.desired_maximum_frame_latency,
            },
        )
    }
}

/// Label of the logical device.
pub const DEVICE_LABEL: &'static str = "WGPU device";

/// The adapter request: the default power preference, and no software
/// fallback adapter.
pub open spec fn adapter_request_spec() -> AdapterRequest {
    AdapterRequest { power_preference: wgpu::PowerPreference::None, force_fallback_adapter: false }
}

/// The options with which an adapter is requested.
pub fn adapter_request() -> (r: AdapterRequest)
    ensures
        r == adapter_request_spec(),
{
    AdapterRequest { power_preference: wgpu::PowerPreference::None, force_fallback_adapter: false }
}

/// The GPU objects of one window's surface.
pub struct Gpu {
    presentation: Presentation,
    queue: wgpu::Queue,
    surface_config: SurfaceConfig,
    surface_format: wgpu::TextureFormat,
    requests: Requests,
}

impl Gpu {
    /// The stored surface configuration.
    pub closed spec fn config(&self) -> SurfaceConfig {
        self.surface_config
    }

    /// The surface, adapter and device, and what was read from and applied
    /// to the surface.
    pub closed spec fn presentation(&self) -> Presentation {
        self.presentation
    }

    /// The command queue.
    pub closed spec fn queue(&self) -> wgpu::Queue {
        self.queue
    }

    /// The configurations applied to the surface so far, oldest first.
    pub open spec fn applied(&self) -> Seq<SurfaceConfig> {
        self.presentation().applied()
    }

    /// What was asked of the GPU subsystem at initialisation.
    pub closed spec fn requests(&self) -> Requests {
        self.requests
    }

    /// The format chosen at initialisation.
    pub closed spec fn format(&self) -> wgpu::TextureFormat {
        self.surface_format
    }

    /// The stored configuration fits the device, is the last one applied,
    /// and keeps the format chosen at initialisation.
    pub open spec fn wf(&self) -> bool {
        &&& self.presentation().fits(self.config().width, self.config().height)
        &&& self.config().usage == RENDER_ATTACHMENT_BITS
        &&& self.config().view_formats@.len() == 0
        &&& self.applied().len() > 0
        &&& self.applied().last() == self.config()
        &&& self.config().format == self.format()
    }

    /// How `resize(width, height)` takes `old` to `new`. A zero side, or one
    /// larger than the device's largest texture, changes nothing. Otherwise
    /// the capabilities are read again; if they still support the stored
    /// format and modes, the size becomes `width` by `height` and that
    /// configuration is applied, else the configuration stays and nothing
    /// is applied. The surface, device, queue, format and requests stay.
    pub open spec fn resize_result(old: Gpu, new: Gpu, width: u32, height: u32) -> bool {
        if !old.presentation().fits(width, height) {
            new == old
        } else {
            let caps = new.presentation().reads().last();
            &&& new.presentation().same_target(old.presentation())
            &&& new.presentation().reads() == old.presentation().reads().push(caps)
            &&& new.queue() == old.queue()
            &&& new.format() == old.format()
            &&& new.requests() == old.requests()
            &&& caps.supports(old.config()) ==> {
                &&& new.config() == (SurfaceConfig { width, height, ..old.config() })
                &&& new.applied() == old.applied().push(new.config())
            }
            &&& !caps.supports(old.config()) ==> {
                &&& new.config() == old.config()
                &&& new.applied() == old.applied()
            }
        }
    }

    /// Sets up the surface for `window`, whose physical size is `width` by
    /// `height`: a surface, an adapter that can present to it (default power
    /// preference, no software fallback), a device and queue with WebGL2
    /// limits widened to the adapter's texture sizes, and the configuration
    /// built by `SurfaceConfig::new` from the surface's capabilities, which
    /// is applied.
    pub fn new(window: Arc<winit::window::Window>, width: u32, height: u32) -> (r: Result<
        Gpu,
        InitError,
    >)
        ensures
            r == Err::<Gpu, InitError>(InitError::InvalidSize) <==> (width == 0 || height == 0),
            r matches Ok(g) ==> {
                let p = g.presentation();
                let caps = p.reads()[0];
                let req = g.requests();
                &&& g.wf()
                &&& p.reads().len() == 1
                &&& g.config().width == width
                &&& g.config().height == height
                &&& g.config().usage == RENDER_ATTACHMENT_BITS
                &&& exists|i: int|
                    crate::config::selects_format(crate::config::srgb_flags(caps.formats@), i)
                        && caps.formats@[i] == g.config().format
                &&& g.config().present_mode == caps.present_modes@[0]
                &&& g.config().alpha_mode == caps.alpha_modes@[0]
                &&& g.config().view_formats@.len() == 0
                &&& g.config().desired_maximum_frame_latency == crate::config::MAX_FRAME_LATENCY
                &&& g.applied() == seq![g.config()]
                &&& req.adapters() == seq![adapter_request_spec()]
                &&& req.adapter_limits().len() == 1
                &&& req.devices().len() == 1
                &&& req.devices()[0].0 == DEVICE_LABEL@
                &&& req.devices()[0].1.max_texture_dimension_1d
                    == req.adapter_limits()[0].max_texture_dimension_1d
                &&& req.devices()[0].1.max_texture_dimension_2d
                    == req.adapter_limits()[0].max_texture_dimension_2d
                &&& req.devices()[0].1.max_texture_dimension_3d
                    == req.adapter_limits()[0].max_texture_dimension_3d
            },
    {
        if width == 0 || height == 0 {
            return Err(InitError::InvalidSize);
        }
        let mut requests = Requests::new();
        let instance = new_instance();
        let surface = match create_surface(&instance, window) {
            Ok(s) => s,
            Err(_) => return Err(InitError::SurfaceCreation),
        };
        let adapter = match request_adapter(&instance, &surface, adapter_request(), &mut requests) {
            Some(a) => a,
            None => return Err(InitError::NoAdapter),
        };
        let limits = downlevel_webgl2_limits().using_resolution(adapter_limits(&adapter, &mut requests));
        let (device, queue) = match request_device(&adapter, DEVICE_LABEL, limits, &mut requests) {
            Ok(dq) => dq,
            Err(_) => return Err(InitError::DeviceCreation),
        };
        let mut presentation = Presentation::bind(surface, adapter, device);
        let caps = presentation.read_capabilities();
        let surface_config = match SurfaceConfig::new(
            &caps.formats,
            &caps.present_modes,
            &caps.alpha_modes,
            width,
            height,
            presentation.max_texture_dimension(),
        ) {
            Ok(c) => c,
            Err(e) => return Err(e),
        };
        proof {
            let i = choose|i: int|
                crate::config::selects_format(crate::config::srgb_flags(caps.formats@), i)
                    && caps.formats@[i] == surface_config.format;
            assert(caps.formats@.contains(surface_config.format)) by {
                assert(caps.formats@[i] == surface_config.format);
            }
            assert(caps.present_modes@.contains(surface_config.present_mode)) by {
                assert(caps.present_modes@[0] == surface_config.present_mode);
            }
            assert(caps.alpha_modes@.contains(surface_config.alpha_mode)) by {
                assert(caps.alpha_modes@[0] == surface_config.alpha_mode);
            }
        }
        presentation.configure(&surface_config);
        let surface_format = surface_config.format;
        assert(presentation.reads()[0] == caps);
        assert(requests.devices()[0].1 == limits);
        assert(presentation.applied() =~= seq![surface_config]);
        Ok(Gpu { presentation, queue, surface_config, surface_format, requests })
    }

    /// Follows the window to a new physical size, as `resize_result` says:
    /// a zero side (a minimised window) or one larger than the device's
    /// largest texture is ignored; otherwise, while the surface still
    /// supports the stored format and modes, the stored size becomes
    /// `width` by `height` and the surface is configured again with it.
    pub fn resize(&mut self, width: u32, height: u32)
        requires
            old(self).wf(),
        ensures
            final(self).wf(),
            Gpu::resize_result(*old(self), *final(self), width, height),
    {
        let max = self.presentation.max_texture_dimension();
        if width == 0 || height == 0 || width > max || height > max {
            return;
        }
        let caps = self.presentation.read_capabilities();
        if !supports_config(&caps, &self.surface_config) {
            return;
        }
        self.surface_config.resize(width, height);
        self.presentation.configure(&self.surface_config);
    }
}

} // verus!
