//! Plain descriptions of an adapter and its device.
use crate::outside::{features_contain_dual_source_blending, features_contain_nv12};
use crate::surface_config::SurfaceFormat;
use vstd::prelude::*;

verus! {

/// The graphics interface behind an adapter.
#[derive(Clone, Copy, Debug, PartialEq, Eq, Structural)]
pub enum Backend {
    Noop,
    Vulkan,
    Metal,
    Dx12,
    Gl,
    BrowserWebGpu,
}

/// The kind of hardware behind an adapter.
#[derive(Clone, Copy, Debug, PartialEq, Eq, Structural)]
pub enum DeviceType {
    Other,
    IntegratedGpu,
    DiscreteGpu,
    VirtualGpu,
    Cpu,
}

/// What an adapter says of itself.
#[derive(Debug)]
pub struct AdapterInfo {
    pub name: String,
    pub driver: String,
    pub driver_info: String,
    pub backend: Backend,
    pub device_type: DeviceType,
}

/// The device limits that sizes and offsets depend on.
#[derive(Clone, Copy, Debug, PartialEq, Eq, Structural)]
pub struct DeviceLimits {
    pub max_texture_dimension_2d: u32,
    pub min_uniform_buffer_offset_alignment: u32,
    pub min_storage_buffer_offset_alignment: u32,
    pub max_buffer_size: u64,
    pub max_storage_buffer_binding_size: u64,
}

/// The feature flags of a device: the native word and the web word.
#[derive(Clone, Copy, Debug, PartialEq, Eq, Structural)]
pub struct DeviceFeatures {
    pub native: u64,
    pub web: u64,
}

impl DeviceFeatures {
    /// NV12 textures can be created.
    pub open spec fn has_nv12(self) -> bool {
        self.native & 0x2000_0000 == 0x2000_0000
    }

    /// Fragment shaders can blend with two sources.
    pub open spec fn has_dual_source_blending(self) -> bool {
        self.web & 0x4000 == 0x4000
    }

    /// Whether NV12 textures can be created.
    pub fn supports_nv12(&self) -> (result: bool)
        ensures
            result == self.has_nv12(),
    {
        features_contain_nv12(self.native, self.web)
    }

    /// Whether fragment shaders can blend with two sources.
    pub fn supports_dual_source_blending(&self) -> (result: bool)
        ensures
            result == self.has_dual_source_blending(),
    {
        features_contain_dual_source_blending(self.native, self.web)
    }
}

/// The format of a texture that the renderer creates.
#[derive(Clone, Copy, Debug, PartialEq, Eq, Structural)]
pub enum TexelFormat {
    /// The format of the surface.
    Surface(SurfaceFormat),
    /// Four 32-bit words.
    Rgba32Uint,
    /// One 8-bit channel: luma.
    R8Unorm,
    /// Two 8-bit channels: interleaved chroma.
    Rg8Unorm,
}

/// What a texture that the renderer creates is used for.
#[derive(Clone, Copy, Debug, PartialEq, Eq, Structural)]
pub struct TextureUsage {
    pub render_attachment: bool,
    pub texture_binding: bool,
    pub copy_dst: bool,
}

impl TextureUsage {
    /// Sampling, and nothing else.
    pub open spec fn binding_only() -> TextureUsage {
        TextureUsage { render_attachment: false, texture_binding: true, copy_dst: false }
    }

    /// Sampling, and nothing else.
    pub fn sampled() -> (result: TextureUsage)
        ensures
            result == TextureUsage::binding_only(),
    {
        TextureUsage { render_attachment: false, texture_binding: true, copy_dst: false }
    }
}

/// The dimensions of a texture.
#[derive(Clone, Copy, Debug, PartialEq, Eq, Structural)]
pub enum TextureDimension {
    D1,
    D2,
    D3,
}

/// The dimensions of a view of a texture.
#[derive(Clone, Copy, Debug, PartialEq, Eq, Structural)]
pub enum TextureViewDimension {
    D1,
    D2,
    D2Array,
    Cube,
    CubeArray,
    D3,
}

/// What a buffer that the renderer creates is used for.
#[derive(Clone, Copy, Debug, PartialEq, Eq, Structural)]
pub struct BufferUsage {
    pub uniform: bool,
    pub storage: bool,
    pub copy_dst: bool,
}

/// A buffer that the renderer creates.
#[derive(Clone, Copy, Debug)]
pub struct BufferDescriptor {
    pub label: &'static str,
    pub size: u64,
    pub usage: BufferUsage,
}

impl BufferDescriptor {
    /// A buffer of parameters that are written from the outside.
    pub open spec fn of_uniforms(label: &'static str, size: u64) -> BufferDescriptor {
        BufferDescriptor {
            label,
            size,
            usage: BufferUsage { uniform: true, storage: false, copy_dst: true },
        }
    }

    /// A buffer of parameters that are written from the outside.
    pub fn uniform(label: &'static str, size: u64) -> (result: BufferDescriptor)
        ensures
            result == BufferDescriptor::of_uniforms(label, size),
    {
        BufferDescriptor {
            label,
            size,
            usage: BufferUsage { uniform: true, storage: false, copy_dst: true },
        }
    }
}

/// A texture that the renderer creates, viewed in its own format only.
#[derive(Clone, Copy, Debug)]
pub struct TextureDescriptor {
    pub label: &'static str,
    pub width: u32,
    pub height: u32,
    pub depth_or_array_layers: u32,
    pub mip_level_count: u32,
    pub sample_count: u32,
    pub dimension: TextureDimension,
    pub format: TexelFormat,
    pub usage: TextureUsage,
}

/// A width and a height in device pixels.
#[derive(Clone, Copy, Debug, PartialEq, Eq, Structural)]
pub struct Size {
    pub width: i32,
    pub height: i32,
}

} // verus!
