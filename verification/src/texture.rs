//! Two-layer render-target textures: one color and one depth array
//! texture, one layer per eye, bound through a single array view so one
//! multiview pass renders both layers at once.
//!
//! The GPU objects themselves come from the graphics library and are
//! opaque here; each [`TargetTexture`] carries beside them the size and layer
//! count it was created with, which is what the resize contract and the
//! frame logic reason about.

use vstd::prelude::*;

verus! {

/// The GPU device handle; graphics-library type, opaque here.
#[verifier::external_type_specification]
#[verifier::external_body]
pub struct ExDevice(wgpu::Device);

/// A GPU texture; graphics-library type, opaque here.
#[verifier::external_type_specification]
#[verifier::external_body]
pub struct ExTexture(wgpu::Texture);

/// A view onto a GPU texture; graphics-library type, opaque here.
#[verifier::external_type_specification]
#[verifier::external_body]
pub struct ExTextureView(wgpu::TextureView);

/// A texture format; graphics-library type, opaque here.
#[verifier::external_type_specification]
#[verifier::external_body]
pub struct ExTextureFormat(wgpu::TextureFormat);

/// The largest width or height a render-target texture may have: the
/// graphics library's default two-dimensional texture limit, which is
/// the limit set this renderer requests its device with. The device
/// rejects larger textures, as it does zero-sized ones.
pub const MAX_TEXTURE_DIMENSION: u32 = 8192;

/// A color format the render targets may use. Every format here
/// admits render-attachment, copy-source and sampled-binding usage, so
/// a creation with one of them and valid dimensions passes the
/// device's validation.
#[derive(Clone, Copy, PartialEq, Eq, Structural, Debug)]
pub enum ColorFormat {
    Rgba8Unorm,
    Rgba8UnormSrgb,
    Bgra8Unorm,
    Bgra8UnormSrgb,
}

/// Converts a library color format into the graphics library's value
/// of the same name, one variant for one.
#[verifier::external_body]
fn wgpu_color_format(format: ColorFormat) -> wgpu::TextureFormat {
    match format {
        ColorFormat::Rgba8Unorm => wgpu::TextureFormat::Rgba8Unorm,
        ColorFormat::Rgba8UnormSrgb => wgpu::TextureFormat::Rgba8UnormSrgb,
        ColorFormat::Bgra8Unorm => wgpu::TextureFormat::Bgra8Unorm,
        ColorFormat::Bgra8UnormSrgb => wgpu::TextureFormat::Bgra8UnormSrgb,
    }
}

/// Relies on `wgpu::Device::create_texture`: returns a texture of the
/// descriptor built here — `width` by `height`, two array layers, one
/// mip level, single-sampled, of `format`, usable as a render
/// attachment, copy source and sampled binding. The size bounds and
/// the renderable color format keep the descriptor within what the
/// device accepts, so its validation raises no error and the call
/// does not panic.
#[verifier::external_body]
fn create_color_array_texture(
    device: &wgpu::Device,
    width: u32,
    height: u32,
    format: ColorFormat,
) -> wgpu::Texture
    requires
        0 < width <= MAX_TEXTURE_DIMENSION,
        0 < height <= MAX_TEXTURE_DIMENSION,
{
    let format = wgpu_color_format(format);
    device.create_texture(
        &wgpu::TextureDescriptor {
            label: Some("Render Target Texture"),
            size: wgpu::Extent3d { width, height, depth_or_array_layers: 2 },
            mip_level_count: 1,
            sample_count: 1,
            dimension: wgpu::TextureDimension::D2,
            format,
            usage: wgpu::TextureUsages::RENDER_ATTACHMENT | wgpu::TextureUsages::COPY_SRC
                | wgpu::TextureUsages::TEXTURE_BINDING,
            view_formats: &[format],
        },
    )
}

/// Relies on `wgpu::Device::create_texture`: returns a texture of the
/// descriptor built here — `width` by `height`, two array layers, one
/// mip level, single-sampled, 32-bit-float depth, usable as a render
/// attachment and sampled binding. The size bounds and the always
/// depth-renderable format keep the descriptor within what the device
/// accepts, so its validation raises no error and the call does not
/// panic.
#[verifier::external_body]
fn create_depth_array_texture(device: &wgpu::Device, width: u32, height: u32) -> wgpu::Texture
    requires
        0 < width <= MAX_TEXTURE_DIMENSION,
        0 < height <= MAX_TEXTURE_DIMENSION,
{
    device.create_texture(
        &wgpu::TextureDescriptor {
            label: Some("Depth Texture"),
            size: wgpu::Extent3d { width, height, depth_or_array_layers: 2 },
            mip_level_count: 1,
            sample_count: 1,
            dimension: wgpu::TextureDimension::D2,
            format: wgpu::TextureFormat::Depth32Float,
            usage: wgpu::TextureUsages::RENDER_ATTACHMENT | wgpu::TextureUsages::TEXTURE_BINDING,
            view_formats: &[wgpu::TextureFormat::Depth32Float],
        },
    )
}

/// Relies on `wgpu::Texture::create_view`: returns the default view of
/// the whole texture — for a two-layer texture, one array view over
/// both layers.
#[verifier::external_body]
fn create_default_view(texture: &wgpu::Texture) -> wgpu::TextureView {
    texture.create_view(&wgpu::TextureViewDescriptor::default())
}

/// A GPU texture together with its combined array view and the
/// dimensions it was created with: always two array layers, one per eye.
pub struct TargetTexture {
    texture: wgpu::Texture,
    view: wgpu::TextureView,
    width: u32,
    height: u32,
    layers: u32,
}

impl TargetTexture {
    /// Width in pixels the texture was created with.
    pub closed spec fn spec_width(self) -> u32 {
        self.width
    }

    /// Height in pixels the texture was created with.
    pub closed spec fn spec_height(self) -> u32 {
        self.height
    }

    /// Array layers the texture was created with.
    pub closed spec fn spec_layers(self) -> u32 {
        self.layers
    }

    /// Wraps an externally created two-layer array texture (a
    /// compositor swapchain image) of the given size, without copying.
    pub fn from_wgpu(texture: wgpu::Texture, view: wgpu::TextureView, width: u32, height: u32) -> (r:
        TargetTexture)
        ensures
            r.spec_width() == width,
            r.spec_height() == height,
            r.spec_layers() == 2,
    {
        TargetTexture { texture, view, width, height, layers: 2 }
    }

    /// The offscreen color target: `width` by `height`, two layers, of
    /// the given color format. The size must be non-zero and within
    /// the device's texture dimension limit.
    pub fn new_rt_texture(
        device: &wgpu::Device,
        width: u32,
        height: u32,
        texture_format: ColorFormat,
    ) -> (r: TargetTexture)
        requires
            0 < width <= MAX_TEXTURE_DIMENSION,
            0 < height <= MAX_TEXTURE_DIMENSION,
        ensures
            r.spec_width() == width,
            r.spec_height() == height,
            r.spec_layers() == 2,
    {
        let texture = create_color_array_texture(device, width, height, texture_format);
        let view = create_default_view(&texture);
        TargetTexture { texture, view, width, height, layers: 2 }
    }

    /// The offscreen depth target: `width` by `height`, two layers,
    /// 32-bit-float depth. The size must be non-zero and within the
    /// device's texture dimension limit.
    pub fn new_depth_texture(device: &wgpu::Device, width: u32, height: u32) -> (r: TargetTexture)
        requires
            0 < width <= MAX_TEXTURE_DIMENSION,
            0 < height <= MAX_TEXTURE_DIMENSION,
        ensures
            r.spec_width() == width,
            r.spec_height() == height,
            r.spec_layers() == 2,
    {
        let texture = create_depth_array_texture(device, width, height);
        let view = create_default_view(&texture);
        TargetTexture { texture, view, width, height, layers: 2 }
    }

    /// The combined array view over both layers, for binding.
    pub fn view(&self) -> &wgpu::TextureView {
        &self.view
    }

    /// Width in pixels.
    pub fn width(&self) -> (r: u32)
        ensures
            r == self.spec_width(),
    {
        self.width
    }

    /// Height in pixels.
    pub fn height(&self) -> (r: u32)
        ensures
            r == self.spec_height(),
    {
        self.height
    }

    /// Array layer count.
    pub fn layers(&self) -> (r: u32)
        ensures
            r == self.spec_layers(),
    {
        self.layers
    }
}

/// The offscreen array target both eyes render into: a color and a
/// depth texture of the same size, each with two layers. Resizing
/// fully reconstructs both textures; views handed out before a resize
/// are stale, and the owner must rebind anything that referenced them
/// before the next draw.
pub struct OffscreenTarget {
    color: TargetTexture,
    depth: TargetTexture,
}

impl OffscreenTarget {
    /// Whether both textures are two-layer textures of size `w` by `h`.
    pub open spec fn sized(self, w: u32, h: u32) -> bool {
        self.spec_color().spec_width() == w && self.spec_color().spec_height() == h
            && self.spec_color().spec_layers() == 2 && self.spec_depth().spec_width() == w
            && self.spec_depth().spec_height() == h && self.spec_depth().spec_layers() == 2
    }

    /// The color texture.
    pub closed spec fn spec_color(self) -> TargetTexture {
        self.color
    }

    /// The depth texture.
    pub closed spec fn spec_depth(self) -> TargetTexture {
        self.depth
    }

    /// Creates the target at `width` by `height`, with the given color
    /// format; the depth texture is 32-bit-float depth. The size must
    /// be non-zero and within the device's texture dimension limit.
    pub fn create(
        device: &wgpu::Device,
        width: u32,
        height: u32,
        color_format: ColorFormat,
    ) -> (r: OffscreenTarget)
        requires
            0 < width <= MAX_TEXTURE_DIMENSION,
            0 < height <= MAX_TEXTURE_DIMENSION,
        ensures
            r.sized(width, height),
    {
        OffscreenTarget {
            color: TargetTexture::new_rt_texture(device, width, height, color_format),
            depth: TargetTexture::new_depth_texture(device, width, height),
        }
    }

    /// Fully reconstructs both textures at the new size, which must be
    /// non-zero and within the device's texture dimension limit. The
    /// old GPU resources are released once nothing references them any
    /// more.
    pub fn resize(
        &mut self,
        device: &wgpu::Device,
        width: u32,
        height: u32,
        color_format: ColorFormat,
    )
        requires
            0 < width <= MAX_TEXTURE_DIMENSION,
            0 < height <= MAX_TEXTURE_DIMENSION,
        ensures
            final(self).sized(width, height),
    {
        self.color = TargetTexture::new_rt_texture(device, width, height, color_format);
        self.depth = TargetTexture::new_depth_texture(device, width, height);
    }

    /// The color array view, to render into and to blit from.
    pub fn color_view(&self) -> &wgpu::TextureView {
        self.color.view()
    }

    /// The depth array view, to render into.
    pub fn depth_view(&self) -> &wgpu::TextureView {
        self.depth.view()
    }

    /// The color texture.
    pub fn color(&self) -> (r: &TargetTexture)
        ensures
            *r == self.spec_color(),
    {
        &self.color
    }

    /// The depth texture.
    pub fn depth(&self) -> (r: &TargetTexture)
        ensures
            *r == self.spec_depth(),
    {
        &self.depth
    }
}

} // verus!
