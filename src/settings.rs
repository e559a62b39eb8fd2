use vstd::prelude::*;

verus! {

/// A size in physical pixels, as the windowing system reports it.
#[derive(Clone, Copy, Debug, PartialEq, Eq, Structural)]
pub struct PixelSize {
    pub width: u32,
    pub height: u32,
}

impl PixelSize {
    pub fn new(width: u32, height: u32) -> (r: PixelSize)
        ensures
            r.width == width,
            r.height == height,
    {
        PixelSize { width, height }
    }
}

/// The configuration record applied to a surface: its size in pixels and the
/// format, present mode and alpha mode fixed when it was first configured.
#[derive(Clone, Copy)]
pub struct SurfaceSettings {
    pub width: u32,
    pub height: u32,
    pub format: wgpu::TextureFormat,
    pub present_mode: wgpu::PresentMode,
    pub alpha_mode: wgpu::CompositeAlphaMode,
}

/// True when `supported` lists the format, present mode and alpha mode of
/// `settings`.
pub open spec fn supports(supported: wgpu::SurfaceCapabilities, settings: SurfaceSettings) -> bool {
    &&& supported.formats@.contains(settings.format)
    &&& supported.present_modes@.contains(settings.present_mode)
    &&& supported.alpha_modes@.contains(settings.alpha_mode)
}

/// A color a frame can be cleared to.
#[derive(Clone, Copy, Debug, PartialEq, Eq, Structural)]
pub enum ClearColor {
    /// Blue, fully opaque.
    Blue,
}

/// How the one render pass of a frame treats its color attachment: cleared to
/// `color`, and the result stored when `store` holds.
#[derive(Clone, Copy, Debug, PartialEq, Eq, Structural)]
pub struct ClearOp {
    pub color: ClearColor,
    pub store: bool,
}

/// The clear every frame gets: opaque blue, stored.
pub open spec fn spec_frame_clear_op() -> ClearOp {
    ClearOp { color: ClearColor::Blue, store: true }
}

/// The clear every frame gets: opaque blue, stored.
pub fn frame_clear_op() -> (r: ClearOp)
    ensures
        r == spec_frame_clear_op(),
{
    ClearOp { color: ClearColor::Blue, store: true }
}

/// What a presented frame was rendered as: the dimensions of its target and
/// the clear applied to the whole of it.
#[derive(Clone, Copy, Debug, PartialEq, Eq, Structural)]
pub struct FrameTarget {
    pub width: u32,
    pub height: u32,
    pub clear: ClearOp,
}

impl SurfaceSettings {
    /// The same settings with the size replaced and everything else kept.
    pub open spec fn resized(self, size: PixelSize) -> SurfaceSettings {
        SurfaceSettings { width: size.width, height: size.height, ..self }
    }

    /// The settings after each size of `sizes` was applied in turn.
    pub open spec fn resized_all(self, sizes: Seq<PixelSize>) -> SurfaceSettings
        decreases sizes.len(),
    {
        if sizes.len() == 0 {
            self
        } else {
            self.resized_all(sizes.drop_last()).resized(sizes.last())
        }
    }

    /// The target of a frame presented under these settings.
    pub open spec fn frame_target(self) -> FrameTarget {
        FrameTarget { width: self.width, height: self.height, clear: spec_frame_clear_op() }
    }

    /// True when the two settings agree on everything but the size.
    pub open spec fn same_modes(self, other: SurfaceSettings) -> bool {
        &&& self.format == other.format
        &&& self.present_mode == other.present_mode
        &&& self.alpha_mode == other.alpha_mode
    }

    /// Builds the settings for a surface of the given size and modes.
    pub fn new(
        size: PixelSize,
        format: wgpu::TextureFormat,
        present_mode: wgpu::PresentMode,
        alpha_mode: wgpu::CompositeAlphaMode,
    ) -> (r: SurfaceSettings)
        ensures
            r.width == size.width,
            r.height == size.height,
            r.format == format,
            r.present_mode == present_mode,
            r.alpha_mode == alpha_mode,
    {
        SurfaceSettings { width: size.width, height: size.height, format, present_mode, alpha_mode }
    }

    /// Replaces the size in place, keeping the modes.
    pub fn set_size(&mut self, size: PixelSize)
        ensures
            *final(self) == old(self).resized(size),
    {
        self.width = size.width;
        self.height = size.height;
    }
}

/// Applying the same size twice gives the same settings as applying it once.
pub proof fn lemma_resize_idempotent(s: SurfaceSettings, size: PixelSize)
    ensures
        s.resized(size).resized(size) == s.resized(size),
        s.resized(size).width == size.width,
        s.resized(size).height == size.height,
        s.resized(size).same_modes(s),
{
}

/// After any sequence of resizes, format, present mode and alpha mode are those
/// of the start, and the size is the one supplied last (or the initial one when
/// there was none).
pub proof fn lemma_resize_keeps_modes(s: SurfaceSettings, sizes: Seq<PixelSize>)
    ensures
        s.resized_all(sizes).same_modes(s),
        sizes.len() > 0 ==> s.resized_all(sizes).width == sizes.last().width,
        sizes.len() > 0 ==> s.resized_all(sizes).height == sizes.last().height,
        sizes.len() == 0 ==> s.resized_all(sizes) == s,
    decreases sizes.len(),
{
    if sizes.len() > 0 {
        lemma_resize_keeps_modes(s, sizes.drop_last());
    }
}

/// A frame presented right after a resize to `size` targets exactly `size`.
pub proof fn lemma_present_after_resize(s: SurfaceSettings, size: PixelSize)
    ensures
        s.resized(size).frame_target().width == size.width,
        s.resized(size).frame_target().height == size.height,
        s.resized(size).frame_target().clear == spec_frame_clear_op(),
{
}

} // verus!
