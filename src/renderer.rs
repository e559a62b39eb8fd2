use vstd::prelude::*;

use crate::gpu::{self, BoundSurface};
use crate::settings::{
    frame_clear_op, lemma_present_after_resize, lemma_resize_idempotent, supports, FrameTarget,
    PixelSize, SurfaceSettings,
};

verus! {

/// Why initialization stopped; none of these can be recovered from.
#[derive(Clone, Copy, Debug, PartialEq, Eq, Structural)]
pub enum InitError {
    /// The surface capabilities list no alpha composition mode.
    NoAlphaMode,
    /// No adapter can present to the surface.
    NoAdapter,
    /// The adapter refused to create a device.
    DeviceRefused,
    /// The surface does not support the chosen format with the adapter.
    UnsupportedFormat,
    /// The surface does not support the chosen present mode with the adapter.
    UnsupportedPresentMode,
    /// The surface does not support the chosen alpha mode with the adapter.
    UnsupportedAlphaMode,
}

/// Why a frame could not be presented: the surface gave no texture.
#[derive(Clone, Copy, Debug, PartialEq, Eq, Structural)]
pub enum PresentError {
    Timeout,
    Outdated,
    Lost,
    OutOfMemory,
}

impl PresentError {
    /// The error for each reason a surface gives no texture.
    pub open spec fn of_surface_error(e: wgpu::SurfaceError) -> PresentError {
        match e {
            wgpu::SurfaceError::Timeout => PresentError::Timeout,
            wgpu::SurfaceError::Outdated => PresentError::Outdated,
            wgpu::SurfaceError::Lost => PresentError::Lost,
            wgpu::SurfaceError::OutOfMemory => PresentError::OutOfMemory,
        }
    }

    /// The error for the reason the surface gave.
    pub fn from_surface_error(e: wgpu::SurfaceError) -> (r: PresentError)
        ensures
            r == PresentError::of_surface_error(e),
    {
        match e {
            wgpu::SurfaceError::Timeout => PresentError::Timeout,
            wgpu::SurfaceError::Outdated => PresentError::Outdated,
            wgpu::SurfaceError::Lost => PresentError::Lost,
            wgpu::SurfaceError::OutOfMemory => PresentError::OutOfMemory,
        }
    }
}

/// What the caller chose for the surface: its size, present mode and format,
/// and what the surface supports with the adapter.
pub struct SurfaceConfig {
    pub width: u32,
    pub height: u32,
    pub present_mode: wgpu::PresentMode,
    pub capabilities: wgpu::SurfaceCapabilities,
    pub format: wgpu::TextureFormat,
}

/// A window's surface together with the configuration chosen for it.
pub struct Surface {
    pub surface: wgpu::Surface,
    pub config: SurfaceConfig,
}

/// Owns the device, the queue and the configured surface, and presents frames.
///
/// The renderer never asks the window for its size: `resize` is the only way a
/// new size reaches the surface, and calling it after each change of the
/// window's size is the caller's duty. A size of zero pixels in either
/// direction cannot be configured.
pub struct Renderer {
    pub instance: wgpu::Instance,
    target: BoundSurface,
    surface_config: SurfaceConfig,
    config: SurfaceSettings,
}

/// Checks the modes of `settings` against what the surface supports, format
/// first, then present mode, then alpha mode.
pub fn check_support(supported: &wgpu::SurfaceCapabilities, settings: &SurfaceSettings) -> (r: Result<
    (),
    InitError,
>)
    ensures
        r is Ok <==> supports(*supported, *settings),
        !supported.formats@.contains(settings.format) ==> r == Err::<(), InitError>(
            InitError::UnsupportedFormat,
        ),
        supported.formats@.contains(settings.format) && !supported.present_modes@.contains(
            settings.present_mode,
        ) ==> r == Err::<(), InitError>(InitError::UnsupportedPresentMode),
        supported.formats@.contains(settings.format) && supported.present_modes@.contains(
            settings.present_mode,
        ) && !supported.alpha_modes@.contains(settings.alpha_mode) ==> r == Err::<(), InitError>(
            InitError::UnsupportedAlphaMode,
        ),
{
    if !gpu::has_format(&supported.formats, settings.format) {
        Err(InitError::UnsupportedFormat)
    } else if !gpu::has_present_mode(&supported.present_modes, settings.present_mode) {
        Err(InitError::UnsupportedPresentMode)
    } else if !gpu::has_alpha_mode(&supported.alpha_modes, settings.alpha_mode) {
        Err(InitError::UnsupportedAlphaMode)
    } else {
        Ok(())
    }
}

/// The alpha mode to configure: the first the surface supports.
pub fn select_alpha_mode(capabilities: &wgpu::SurfaceCapabilities) -> (r: Result<
    wgpu::CompositeAlphaMode,
    InitError,
>)
    ensures
        capabilities.alpha_modes@.len() == 0 <==> r == Err::<wgpu::CompositeAlphaMode, InitError>(
            InitError::NoAlphaMode,
        ),
        r is Ok ==> r->Ok_0 == capabilities.alpha_modes@[0],
{
    if capabilities.alpha_modes.len() == 0 {
        Err(InitError::NoAlphaMode)
    } else {
        Ok(capabilities.alpha_modes[0])
    }
}

/// The outcome of an adapter request: an adapter was found, or initialization
/// fails.
pub fn adapter_or_fail(found: Option<wgpu::Adapter>) -> (r: Result<wgpu::Adapter, InitError>)
    ensures
        found is None <==> r == Err::<wgpu::Adapter, InitError>(InitError::NoAdapter),
        found is Some ==> r == Ok::<wgpu::Adapter, InitError>(found->Some_0),
{
    match found {
        Some(adapter) => Ok(adapter),
        None => Err(InitError::NoAdapter),
    }
}

/// The outcome of a device request: a device and queue were made, or
/// initialization fails.
pub fn device_or_fail(made: Result<(wgpu::Device, wgpu::Queue), wgpu::RequestDeviceError>) -> (r:
    Result<(wgpu::Device, wgpu::Queue), InitError>)
    ensures
        made is Err <==> r == Err::<(wgpu::Device, wgpu::Queue), InitError>(
            InitError::DeviceRefused,
        ),
        made is Ok ==> r == Ok::<(wgpu::Device, wgpu::Queue), InitError>(made->Ok_0),
{
    match made {
        Ok(pair) => Ok(pair),
        Err(_) => Err(InitError::DeviceRefused),
    }
}

impl View for Renderer {
    type V = SurfaceSettings;

    /// The configuration last applied to the surface.
    closed spec fn view(&self) -> SurfaceSettings {
        self.config
    }
}

impl Renderer {
    /// The surface is configured with the renderer's settings and no texture of
    /// it is out; the settings have a size and modes the surface supports; the
    /// caller's surface configuration agrees with them on size, format and
    /// present mode.
    pub closed spec fn wf(&self) -> bool {
        &&& self.target.applied() == Some(self.config)
        &&& !self.target.acquired()
        &&& self.config.width > 0
        &&& self.config.height > 0
        &&& supports(self.target.supported_modes(), self.config)
        &&& self.surface_config.width == self.config.width
        &&& self.surface_config.height == self.config.height
        &&& self.surface_config.format == self.config.format
        &&& self.surface_config.present_mode == self.config.present_mode
    }

    /// The configuration last applied to the surface, if any.
    pub closed spec fn applied(&self) -> Option<SurfaceSettings> {
        self.target.applied()
    }

    /// The instance, and the surface, adapter, device and queue, the renderer
    /// holds.
    pub closed spec fn handles(&self) -> (
        wgpu::Instance,
        (wgpu::Surface, wgpu::Adapter, wgpu::Device, wgpu::Queue),
    ) {
        (self.instance, self.target.handles())
    }

    /// The capabilities the caller gave with the surface.
    pub closed spec fn capabilities(&self) -> wgpu::SurfaceCapabilities {
        self.surface_config.capabilities
    }

    /// Finds an adapter that can present to the surface, refusing a fallback
    /// (software) adapter, and binds the surface to a device and queue made on
    /// it, whose texture size limits are the adapter's own.
    pub(crate) fn create(instance: &wgpu::Instance, surface: wgpu::Surface) -> (r: Result<
        BoundSurface,
        InitError,
    >)
        ensures
            r is Err ==> r->Err_0 == InitError::NoAdapter || r->Err_0 == InitError::DeviceRefused,
            r is Ok ==> r->Ok_0.handles().0 == surface,
            r is Ok ==> r->Ok_0.applied() is None && !r->Ok_0.acquired(),
    {
        let allow_fallback = false;
        let adapter = match adapter_or_fail(gpu::request_adapter(instance, &surface, allow_fallback)) {
            Ok(adapter) => adapter,
            Err(e) => {
                return Err(e);
            },
        };
        BoundSurface::open(surface, adapter)
    }

    /// Acquires a device for the surface and configures the surface at `size`
    /// with the chosen format and present mode and the first alpha mode of the
    /// caller's capabilities, once the surface is known to support all three
    /// with the adapter found. An empty list of alpha modes is reported as
    /// `NoAlphaMode` before any device is requested.
    pub fn new(instance: wgpu::Instance, size: &PixelSize, surface: Surface) -> (r: Result<
        Renderer,
        InitError,
    >)
        requires
            size.width > 0,
            size.height > 0,
        ensures
            surface.config.capabilities.alpha_modes@.len() == 0 ==> r == Err::<Renderer, InitError>(
                InitError::NoAlphaMode,
            ),
            surface.config.capabilities.alpha_modes@.len() > 0 ==> match r {
                Ok(renderer) => {
                    &&& renderer.wf()
                    &&& renderer@ == (SurfaceSettings {
                        width: size.width,
                        height: size.height,
                        format: surface.config.format,
                        present_mode: surface.config.present_mode,
                        alpha_mode: surface.config.capabilities.alpha_modes@[0],
                    })
                    &&& renderer.applied() == Some(renderer@)
                    &&& renderer.handles().0 == instance
                    &&& renderer.handles().1.0 == surface.surface
                    &&& renderer.capabilities() == surface.config.capabilities
                },
                Err(e) => e == InitError::NoAdapter || e == InitError::DeviceRefused || e
                    == InitError::UnsupportedFormat || e == InitError::UnsupportedPresentMode || e
                    == InitError::UnsupportedAlphaMode,
            },
    {
        let alpha_mode = match select_alpha_mode(&surface.config.capabilities) {
            Ok(mode) => mode,
            Err(e) => {
                return Err(e);
            },
        };
        let Surface { surface: window_surface, config: mut surface_config } = surface;
        let mut target = match Renderer::create(&instance, window_surface) {
            Ok(target) => target,
            Err(e) => {
                return Err(e);
            },
        };
        let config = SurfaceSettings::new(
            *size,
            surface_config.format,
            surface_config.present_mode,
            alpha_mode,
        );
        match check_support(target.supported(), &config) {
            Ok(()) => {},
            Err(e) => {
                return Err(e);
            },
        }
        target.configure(&config);
        surface_config.width = size.width;
        surface_config.height = size.height;
        Ok(Renderer { instance, target, surface_config, config })
    }

    pub fn adapter(&self) -> (r: &wgpu::Adapter)
        ensures
            *r == self.handles().1.1,
    {
        self.target.adapter()
    }

    pub fn device(&self) -> (r: &wgpu::Device)
        ensures
            *r == self.handles().1.2,
    {
        self.target.device()
    }

    /// Sets the configuration's size to `size` and applies the whole
    /// configuration to the surface again; format, present mode and alpha mode
    /// stay as they were.
    pub fn resize(&mut self, size: PixelSize)
        requires
            old(self).wf(),
            size.width > 0,
            size.height > 0,
        ensures
            final(self).wf(),
            final(self)@ == old(self)@.resized(size),
            final(self).applied() == Some(final(self)@),
            final(self).handles() == old(self).handles(),
            final(self).capabilities() == old(self).capabilities(),
    {
        self.surface_config.width = size.width;
        self.surface_config.height = size.height;
        self.config.set_size(size);
        self.target.configure(&self.config);
    }

    /// Acquires the next texture of the surface, records one pass that clears
    /// all of it to opaque blue and stores the result, submits that pass and
    /// presents the texture. The frame targets the size last configured, and the
    /// configuration is left as it was. Fails when the surface gives no
    /// texture, for instance after a change of size that was not applied with
    /// `resize`.
    pub fn present(&mut self) -> (r: Result<FrameTarget, PresentError>)
        requires
            old(self).wf(),
        ensures
            final(self).wf(),
            final(self)@ == old(self)@,
            final(self).applied() == old(self).applied(),
            final(self).handles() == old(self).handles(),
            final(self).capabilities() == old(self).capabilities(),
            r is Ok ==> r->Ok_0 == old(self)@.frame_target(),
    {
        let frame = match self.target.acquire() {
            Ok(frame) => frame,
            Err(e) => {
                return Err(PresentError::from_surface_error(e));
            },
        };
        let clear = frame_clear_op();
        self.target.render_and_present(frame, clear);
        Ok(FrameTarget { width: self.config.width, height: self.config.height, clear })
    }

    /// The configuration last applied to the surface.
    pub fn settings(&self) -> (r: SurfaceSettings)
        ensures
            r == self@,
    {
        self.config
    }
}

/// Two resizes of a renderer to the same size leave it as the first did: the
/// size is the one given, and format, present mode and alpha mode are those
/// from before.
pub proof fn lemma_renderer_resize_twice(
    before: Renderer,
    once: Renderer,
    twice: Renderer,
    size: PixelSize,
)
    requires
        once@ == before@.resized(size),
        twice@ == once@.resized(size),
    ensures
        twice@ == once@,
        twice@.width == size.width,
        twice@.height == size.height,
        twice@.same_modes(before@),
{
    lemma_resize_idempotent(before@, size);
}

/// Along any sequence of resizes, each state keeps the format, present mode
/// and alpha mode of the first and has the size given last.
pub proof fn lemma_renderer_resize_sequence(states: Seq<Renderer>, sizes: Seq<PixelSize>)
    requires
        states.len() == sizes.len() + 1,
        forall|i: int| 0 <= i < sizes.len() ==> #[trigger] states[i + 1]@ == states[i]@.resized(sizes[i]),
    ensures
        forall|i: int| 0 <= i < states.len() ==> #[trigger] states[i]@.same_modes(states[0]@),
        forall|i: int|
            0 <= i < sizes.len() ==> #[trigger] states[i + 1]@.width == sizes[i].width
                && states[i + 1]@.height == sizes[i].height,
    decreases sizes.len(),
{
    if sizes.len() > 0 {
        let n = sizes.len() - 1;
        lemma_renderer_resize_sequence(states.drop_last(), sizes.drop_last());
        assert forall|i: int| 0 <= i < states.len() implies #[trigger] states[i]@.same_modes(
            states[0]@,
        ) by {
            let prefix = states.drop_last();
            assert(prefix[0] == states[0]);
            if i < states.len() - 1 {
                assert(prefix[i] == states[i]);
                assert(prefix[i]@.same_modes(prefix[0]@));
            } else {
                assert(states[n + 1]@ == states[n]@.resized(sizes[n]));
                assert(prefix[n] == states[n]);
                assert(prefix[n]@.same_modes(prefix[0]@));
            }
        }
        assert forall|i: int| 0 <= i < sizes.len() implies #[trigger] states[i + 1]@.width
            == sizes[i].width && states[i + 1]@.height == sizes[i].height by {
            assert(states[i + 1]@ == states[i]@.resized(sizes[i]));
        }
    }
}

/// A frame presented right after a resize to `size` targets exactly `size` and
/// is cleared to opaque blue, stored.
pub proof fn lemma_renderer_present_after_resize(
    before: Renderer,
    after: Renderer,
    size: PixelSize,
    frame: FrameTarget,
)
    requires
        after@ == before@.resized(size),
        frame == after@.frame_target(),
    ensures
        frame.width == size.width,
        frame.height == size.height,
        frame.clear == crate::settings::spec_frame_clear_op(),
{
    lemma_present_after_resize(before@, size);
}

} // verus!
