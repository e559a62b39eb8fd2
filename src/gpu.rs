use vstd::prelude::*;

use crate::renderer::{device_or_fail, InitError};
use crate::settings::{supports, ClearColor, ClearOp, SurfaceSettings};
use wgpu::Surface as WindowSurface;

verus! {

/// A graphics API instance; opaque.
#[verifier::external_type_specification]
#[verifier::external_body]
pub struct ExInstance(wgpu::Instance);

/// A physical or virtual graphics device; opaque.
#[verifier::external_type_specification]
#[verifier::external_body]
pub struct ExAdapter(wgpu::Adapter);

/// A logical device; opaque.
#[verifier::external_type_specification]
#[verifier::external_body]
pub struct ExDevice(wgpu::Device);

/// A command submission queue; opaque.
#[verifier::external_type_specification]
#[verifier::external_body]
pub struct ExQueue(wgpu::Queue);

/// A presentable target bound to a window; opaque.
#[verifier::external_type_specification]
#[verifier::external_body]
pub struct ExSurface(WindowSurface);

/// A texel format; compared only for equality.
#[verifier::external_type_specification]
#[verifier::external_body]
pub struct ExTextureFormat(wgpu::TextureFormat);

/// A presentation synchronization policy; compared only for equality.
#[verifier::external_type_specification]
#[verifier::external_body]
pub struct ExPresentMode(wgpu::PresentMode);

/// An alpha composition mode; compared only for equality.
#[verifier::external_type_specification]
#[verifier::external_body]
pub struct ExCompositeAlphaMode(wgpu::CompositeAlphaMode);

/// What a surface supports with a given adapter; its fields are plain vectors.
#[verifier::external_type_specification]
pub struct ExSurfaceCapabilities(wgpu::SurfaceCapabilities);

/// Device limits; its fields are plain integers.
#[verifier::external_type_specification]
pub struct ExLimits(wgpu::Limits);

/// The refusal of a device request; carries nothing.
#[verifier::external_type_specification]
pub struct ExRequestDeviceError(wgpu::RequestDeviceError);

/// Why the next surface texture could not be acquired.
#[verifier::external_type_specification]
pub struct ExSurfaceError(wgpu::SurfaceError);

/// A texture acquired from a surface for one frame; opaque.
#[verifier::external_type_specification]
#[verifier::external_body]
pub struct ExSurfaceTexture(wgpu::SurfaceTexture);

/// A view over a texture; opaque.
#[verifier::external_type_specification]
#[verifier::external_body]
pub struct ExTextureView(wgpu::TextureView);

/// A command recorder; opaque.
#[verifier::external_type_specification]
#[verifier::external_body]
pub struct ExCommandEncoder(wgpu::CommandEncoder);

/// A finished command sequence; opaque.
#[verifier::external_type_specification]
#[verifier::external_body]
pub struct ExCommandBuffer(wgpu::CommandBuffer);

/// Relies on `wgpu::Instance::request_adapter` with the default power
/// preference, awaited by `pollster::block_on`: `None` when no adapter meets
/// the options.
#[verifier::external_body]
pub(crate) fn request_adapter(
    instance: &wgpu::Instance,
    surface: &wgpu::Surface,
    force_fallback_adapter: bool,
) -> (r: Option<wgpu::Adapter>) {
    pollster::block_on(instance.request_adapter(&wgpu::RequestAdapterOptions {
        power_preference: wgpu::PowerPreference::default(),
        force_fallback_adapter,
        compatible_surface: Some(surface),
    }))
}

/// Relies on `wgpu::Adapter::limits`: the best limits the adapter offers.
#[verifier::external_body]
fn adapter_limits(adapter: &wgpu::Adapter) -> (r: wgpu::Limits) {
    adapter.limits()
}

/// The WebGL2 default limits of wgpu with the three texture dimension limits
/// taken from `other`.
pub open spec fn webgl2_limits_using(other: wgpu::Limits) -> wgpu::Limits {
    wgpu::Limits {
        max_texture_dimension_1d: other.max_texture_dimension_1d,
        max_texture_dimension_2d: other.max_texture_dimension_2d,
        max_texture_dimension_3d: other.max_texture_dimension_3d,
        max_texture_array_layers: 256,
        max_bind_groups: 4,
        max_bindings_per_bind_group: 640,
        max_dynamic_uniform_buffers_per_pipeline_layout: 8,
        max_dynamic_storage_buffers_per_pipeline_layout: 0,
        max_sampled_textures_per_shader_stage: 16,
        max_samplers_per_shader_stage: 16,
        max_storage_buffers_per_shader_stage: 0,
        max_storage_textures_per_shader_stage: 0,
        max_uniform_buffers_per_shader_stage: 11,
        max_uniform_buffer_binding_size: 16384,
        max_storage_buffer_binding_size: 0,
        max_vertex_buffers: 8,
        max_buffer_size: 268435456,
        max_vertex_attributes: 16,
        max_vertex_buffer_array_stride: 255,
        min_uniform_buffer_offset_alignment: 256,
        min_storage_buffer_offset_alignment: 256,
        max_inter_stage_shader_components: 60,
        max_compute_workgroup_storage_size: 0,
        max_compute_invocations_per_workgroup: 0,
        max_compute_workgroup_size_x: 0,
        max_compute_workgroup_size_y: 0,
        max_compute_workgroup_size_z: 0,
        max_compute_workgroups_per_dimension: 0,
        max_push_constant_size: 0,
    }
}

/// Relies on `wgpu::Limits::using_resolution` applied to
/// `wgpu::Limits::downlevel_webgl2_defaults`: the WebGL2 defaults with the
/// three texture dimension limits taken from `other`.
#[verifier::external_body]
fn webgl2_limits_using_resolution(other: wgpu::Limits) -> (r: wgpu::Limits)
    ensures
        r == webgl2_limits_using(other),
{
    wgpu::Limits::downlevel_webgl2_defaults().using_resolution(other)
}

/// Relies on `wgpu::Adapter::request_device` with no label, no features and no
/// trace path, awaited by `pollster::block_on`: the device and its queue, or
/// the refusal. Limits beyond the adapter's are reported as a refusal.
#[verifier::external_body]
fn request_device(adapter: &wgpu::Adapter, limits: wgpu::Limits) -> (r: Result<
    (wgpu::Device, wgpu::Queue),
    wgpu::RequestDeviceError,
>) {
    pollster::block_on(adapter.request_device(
        &wgpu::DeviceDescriptor { label: None, features: wgpu::Features::empty(), limits },
        None,
    ))
}

/// Relies on `wgpu::Surface::get_capabilities`: the formats, present modes and
/// alpha modes the surface supports with `adapter`.
#[verifier::external_body]
fn surface_capabilities(surface: &wgpu::Surface, adapter: &wgpu::Adapter) -> (r:
    wgpu::SurfaceCapabilities) {
    surface.get_capabilities(adapter)
}

/// Relies on `slice::contains` and the derived `PartialEq` of
/// `wgpu::TextureFormat`.
#[verifier::external_body]
pub(crate) fn has_format(formats: &Vec<wgpu::TextureFormat>, format: wgpu::TextureFormat) -> (r:
    bool)
    ensures
        r == formats@.contains(format),
{
    formats.contains(&format)
}

/// Relies on `slice::contains` and the derived `PartialEq` of
/// `wgpu::PresentMode`.
#[verifier::external_body]
pub(crate) fn has_present_mode(modes: &Vec<wgpu::PresentMode>, mode: wgpu::PresentMode) -> (r:
    bool)
    ensures
        r == modes@.contains(mode),
{
    modes.contains(&mode)
}

/// Relies on `slice::contains` and the derived `PartialEq` of
/// `wgpu::CompositeAlphaMode`.
#[verifier::external_body]
pub(crate) fn has_alpha_mode(modes: &Vec<wgpu::CompositeAlphaMode>, mode: wgpu::CompositeAlphaMode) -> (r:
    bool)
    ensures
        r == modes@.contains(mode),
{
    modes.contains(&mode)
}

/// A window surface bound to a device of an adapter, with what the surface
/// supports on that adapter. Only `open` makes one: the device and queue are
/// requested from the adapter, and the capabilities are asked of the surface
/// for that adapter. `applied` is the configuration last applied to the
/// surface, and `acquired` holds while a texture of the surface is out.
pub struct BoundSurface {
    surface: wgpu::Surface,
    adapter: wgpu::Adapter,
    device: wgpu::Device,
    queue: wgpu::Queue,
    supported: wgpu::SurfaceCapabilities,
    applied: Ghost<Option<SurfaceSettings>>,
    acquired: Ghost<bool>,
}

/// A texture acquired from a bound surface for one frame.
pub struct Frame {
    texture: wgpu::SurfaceTexture,
}

impl BoundSurface {
    /// The surface, adapter, device and queue held.
    pub closed spec fn handles(&self) -> (wgpu::Surface, wgpu::Adapter, wgpu::Device, wgpu::Queue) {
        (self.surface, self.adapter, self.device, self.queue)
    }

    /// What the surface supports with the adapter.
    pub closed spec fn supported_modes(&self) -> wgpu::SurfaceCapabilities {
        self.supported
    }

    /// The configuration last applied to the surface, if any.
    pub closed spec fn applied(&self) -> Option<SurfaceSettings> {
        self.applied@
    }

    /// True while a texture of the surface is acquired and not yet presented.
    pub closed spec fn acquired(&self) -> bool {
        self.acquired@
    }

    /// Requests a device and queue from `adapter`, with the adapter's own
    /// texture size limits and the WebGL2 defaults for the rest, and binds
    /// `surface` to them, unconfigured.
    pub(crate) fn open(surface: wgpu::Surface, adapter: wgpu::Adapter) -> (r: Result<
        BoundSurface,
        InitError,
    >)
        ensures
            r is Err ==> r->Err_0 == InitError::DeviceRefused,
            r is Ok ==> r->Ok_0.handles().0 == surface && r->Ok_0.handles().1 == adapter,
            r is Ok ==> r->Ok_0.applied() is None && !r->Ok_0.acquired(),
    {
        let limits = webgl2_limits_using_resolution(adapter_limits(&adapter));
        let (device, queue) = match device_or_fail(request_device(&adapter, limits)) {
            Ok(pair) => pair,
            Err(e) => {
                return Err(e);
            },
        };
        let supported = surface_capabilities(&surface, &adapter);
        Ok(BoundSurface {
            surface,
            adapter,
            device,
            queue,
            supported,
            applied: Ghost(None),
            acquired: Ghost(false),
        })
    }

    pub fn adapter(&self) -> (r: &wgpu::Adapter)
        ensures
            *r == self.handles().1,
    {
        &self.adapter
    }

    pub fn device(&self) -> (r: &wgpu::Device)
        ensures
            *r == self.handles().2,
    {
        &self.device
    }

    /// What the surface supports with the adapter.
    pub fn supported(&self) -> (r: &wgpu::SurfaceCapabilities)
        ensures
            *r == self.supported_modes(),
    {
        &self.supported
    }

    /// Applies `settings` to the surface.
    pub(crate) fn configure(&mut self, settings: &SurfaceSettings)
        requires
            settings.width > 0,
            settings.height > 0,
            supports(old(self).supported_modes(), *settings),
            !old(self).acquired(),
        ensures
            final(self).applied() == Some(*settings),
            !final(self).acquired(),
            final(self).handles() == old(self).handles(),
            final(self).supported_modes() == old(self).supported_modes(),
    {
        apply_configuration(self, settings);
        self.applied = Ghost(Some(*settings));
    }

    /// Acquires the next texture of the configured surface.
    pub(crate) fn acquire(&mut self) -> (r: Result<Frame, wgpu::SurfaceError>)
        requires
            old(self).applied() is Some,
            !old(self).acquired(),
        ensures
            final(self).acquired() == r is Ok,
            final(self).applied() == old(self).applied(),
            final(self).handles() == old(self).handles(),
            final(self).supported_modes() == old(self).supported_modes(),
    {
        match current_texture(self) {
            Ok(texture) => {
                self.acquired = Ghost(true);
                Ok(Frame { texture })
            },
            Err(e) => Err(e),
        }
    }

    /// Records a pass that clears the frame as `op` says, submits it to the
    /// queue and presents the frame.
    pub(crate) fn render_and_present(&mut self, frame: Frame, op: ClearOp)
        requires
            old(self).acquired(),
        ensures
            !final(self).acquired(),
            final(self).applied() == old(self).applied(),
            final(self).handles() == old(self).handles(),
            final(self).supported_modes() == old(self).supported_modes(),
    {
        let view = frame_view(&frame);
        let mut encoder = command_encoder(self);
        clear_pass(&mut encoder, &view, op);
        submit(self, finish(encoder));
        present_frame(frame);
        self.acquired = Ghost(false);
    }
}

/// Relies on `wgpu::Surface::configure` with the bound device: applies the
/// settings to the surface, for textures used as render attachments with no
/// extra view formats. wgpu panics on a zero width or height, on a format,
/// present mode or alpha mode the surface does not support with the device's
/// adapter, and while a texture of the surface is out; `requires` leaves
/// those out, `supported_modes` being what the surface supports there.
#[verifier::external_body]
fn apply_configuration(target: &BoundSurface, settings: &SurfaceSettings)
    requires
        settings.width > 0,
        settings.height > 0,
        supports(target.supported_modes(), *settings),
        !target.acquired(),
{
    target.surface.configure(
        &target.device,
        &wgpu::SurfaceConfiguration {
            usage: wgpu::TextureUsages::RENDER_ATTACHMENT,
            format: settings.format,
            width: settings.width,
            height: settings.height,
            present_mode: settings.present_mode,
            alpha_mode: settings.alpha_mode,
            view_formats: vec![],
        },
    );
}

/// Relies on `wgpu::Surface::get_current_texture`: the next texture to draw
/// on, or why there is none. wgpu panics on a surface never configured and
/// while another texture of it is out; `requires` leaves both out.
#[verifier::external_body]
fn current_texture(target: &BoundSurface) -> (r: Result<wgpu::SurfaceTexture, wgpu::SurfaceError>)
    requires
        target.applied() is Some,
        !target.acquired(),
{
    target.surface.get_current_texture()
}

/// Relies on `wgpu::Texture::create_view` with the default descriptor: a view
/// over the whole texture of the frame.
#[verifier::external_body]
fn frame_view(frame: &Frame) -> (r: wgpu::TextureView) {
    frame.texture.texture.create_view(&wgpu::TextureViewDescriptor::default())
}

/// Relies on `wgpu::Device::create_command_encoder` on the bound device,
/// without a label.
#[verifier::external_body]
fn command_encoder(target: &BoundSurface) -> (r: wgpu::CommandEncoder) {
    target.device.create_command_encoder(&wgpu::CommandEncoderDescriptor { label: None })
}

/// Relies on `wgpu::CommandEncoder::begin_render_pass`: records a render pass
/// with one color attachment, `view`, cleared to the color of `op` (blue is
/// `wgpu::Color::BLUE`, opaque) and stored when `op.store` holds, with no
/// resolve target and no depth or stencil attachment. The pass ends when it is
/// dropped, before this returns.
#[verifier::external_body]
fn clear_pass(encoder: &mut wgpu::CommandEncoder, view: &wgpu::TextureView, op: ClearOp) {
    let color = match op.color {
        ClearColor::Blue => wgpu::Color::BLUE,
    };
    let _pass = encoder.begin_render_pass(&wgpu::RenderPassDescriptor {
        label: None,
        color_attachments: &[Some(wgpu::RenderPassColorAttachment {
            view,
            resolve_target: None,
            ops: wgpu::Operations { load: wgpu::LoadOp::Clear(color), store: op.store },
        })],
        depth_stencil_attachment: None,
    });
}

/// Relies on `wgpu::CommandEncoder::finish`: the recorded commands.
#[verifier::external_body]
fn finish(encoder: wgpu::CommandEncoder) -> (r: wgpu::CommandBuffer) {
    encoder.finish()
}

/// Relies on `wgpu::Queue::submit` on the bound queue: sends one command
/// buffer for execution.
#[verifier::external_body]
fn submit(target: &BoundSurface, commands: wgpu::CommandBuffer) {
    target.queue.submit(Some(commands));
}

/// Relies on `wgpu::SurfaceTexture::present`: shows the frame on its surface.
#[verifier::external_body]
fn present_frame(frame: Frame) {
    frame.texture.present();
}

} // verus!
