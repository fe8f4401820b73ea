//! The commands that a recorded frame consists of.
use crate::device::{TexelFormat, TextureUsage, TextureViewDimension};
use crate::instances::{
    extent_bytes, InstanceAllocation, InstanceData, InstanceError, INSTANCE_TEXTURE_TEXEL_SIZE,
};
use crate::params::{SurfaceParams, SURFACE_INSTANCE_SIZE};
use crate::scene::{
    ScissorRect, MONOCHROME_SPRITE_SIZE, PATH_RASTERIZATION_VERTEX_SIZE, PATH_SPRITE_SIZE,
    POLYCHROME_SPRITE_SIZE, QUAD_SIZE, SHADOW_SIZE, SUBPIXEL_SPRITE_SIZE, UNDERLINE_SIZE,
};
use crate::texture_upload::{
    bytes_written, texel_writes, upload_covers_records, write_instance_texture, TextureUpload,
};
use vstd::prelude::*;

verus! {

/// The part of a texture that a view shows.
#[derive(Clone, Copy, Debug, PartialEq, Eq, Structural)]
pub enum TextureAspect {
    All,
    StencilOnly,
    DepthOnly,
    Plane0,
    Plane1,
    Plane2,
}

/// A view of one plane of a texture.
#[derive(Clone, Copy, Debug)]
pub struct PlaneViewDescriptor {
    pub label: &'static str,
    pub format: TexelFormat,
    pub dimension: TextureViewDimension,
    pub usage: TextureUsage,
    pub aspect: TextureAspect,
}

/// The view of an NV12 texture's luma or chroma plane, for sampling in two
/// dimensions.
pub open spec fn plane_view(aspect: TextureAspect) -> Option<PlaneViewDescriptor> {
    match aspect {
        TextureAspect::Plane0 => Some(
            PlaneViewDescriptor {
                label: "nv12_plane_0",
                format: TexelFormat::R8Unorm,
                dimension: TextureViewDimension::D2,
                usage: TextureUsage::binding_only(),
                aspect,
            },
        ),
        TextureAspect::Plane1 => Some(
            PlaneViewDescriptor {
                label: "nv12_plane_1",
                format: TexelFormat::Rg8Unorm,
                dimension: TextureViewDimension::D2,
                usage: TextureUsage::binding_only(),
                aspect,
            },
        ),
        _ => None,
    }
}

/// The view of an NV12 texture's plane. Only the first two aspects of planes
/// name one.
pub fn nv12_plane_view_descriptor(aspect: TextureAspect) -> (result: Option<PlaneViewDescriptor>)
    ensures
        result == plane_view(aspect),
{
    let (format, label) = match aspect {
        TextureAspect::Plane0 => (TexelFormat::R8Unorm, "nv12_plane_0"),
        TextureAspect::Plane1 => (TexelFormat::Rg8Unorm, "nv12_plane_1"),
        _ => return None,
    };
    Some(
        PlaneViewDescriptor {
            label,
            format,
            dimension: TextureViewDimension::D2,
            usage: TextureUsage::sampled(),
            aspect,
        },
    )
}

/// The records behind an instance binding.
#[derive(Clone, Copy, Debug, PartialEq, Eq, Structural)]
pub enum InstanceSource {
    Quads,
    Shadows,
    Underlines,
    MonochromeSprites,
    SubpixelSprites,
    PolychromeSprites,
    /// The vertices of the scene's paths from `start` to before `end`.
    PathVertices { start: usize, end: usize },
    /// The bounds of the scene's paths from `start` to before `end`: one record
    /// for each path, or one for their union where `merged`.
    PathSprites { start: usize, end: usize, merged: bool },
    /// The scene's surface of that index.
    Surface { index: usize },
}

impl InstanceSource {
    /// Bytes of one record.
    pub open spec fn stride(self) -> u64 {
        match self {
            InstanceSource::Quads => QUAD_SIZE,
            InstanceSource::Shadows => SHADOW_SIZE,
            InstanceSource::Underlines => UNDERLINE_SIZE,
            InstanceSource::MonochromeSprites => MONOCHROME_SPRITE_SIZE,
            InstanceSource::SubpixelSprites => SUBPIXEL_SPRITE_SIZE,
            InstanceSource::PolychromeSprites => POLYCHROME_SPRITE_SIZE,
            InstanceSource::PathVertices { .. } => PATH_RASTERIZATION_VERTEX_SIZE,
            InstanceSource::PathSprites { .. } => PATH_SPRITE_SIZE,
            InstanceSource::Surface { .. } => SURFACE_INSTANCE_SIZE,
        }
    }

    /// Bytes of one record.
    pub fn record_size(&self) -> (result: u64)
        ensures
            result == self.stride(),
    {
        match *self {
            InstanceSource::Quads => QUAD_SIZE,
            InstanceSource::Shadows => SHADOW_SIZE,
            InstanceSource::Underlines => UNDERLINE_SIZE,
            InstanceSource::MonochromeSprites => MONOCHROME_SPRITE_SIZE,
            InstanceSource::SubpixelSprites => SUBPIXEL_SPRITE_SIZE,
            InstanceSource::PolychromeSprites => POLYCHROME_SPRITE_SIZE,
            InstanceSource::PathVertices { .. } => PATH_RASTERIZATION_VERTEX_SIZE,
            InstanceSource::PathSprites { .. } => PATH_SPRITE_SIZE,
            InstanceSource::Surface { .. } => SURFACE_INSTANCE_SIZE,
        }
    }
}

/// Instance records to upload and bind.
#[derive(Clone, Copy, Debug)]
pub struct InstanceBinding {
    pub label: &'static str,
    pub source: InstanceSource,
    /// Number of records.
    pub count: usize,
    /// Where the records go.
    pub allocation: InstanceAllocation,
    /// What backs the memory that they go to.
    pub data: InstanceData,
    /// A texture that is bound together with the records.
    pub texture: Option<u64>,
}

/// How records get into the memory that backs a binding.
#[derive(Debug)]
pub enum InstanceUpload {
    /// There are no records.
    Nothing,
    /// Write all of them to the buffer at that offset.
    Buffer { offset: u64 },
    /// Write them texel by texel.
    Texels(TextureUpload),
}

/// What to bind.
#[derive(Clone, Copy, Debug, PartialEq, Eq, Structural)]
pub enum InstanceResource {
    /// A part of the storage buffer.
    Buffer { offset: u64, size: u64 },
    /// All of the instance texture.
    Texture,
}

impl InstanceBinding {
    /// Bytes of all records.
    pub open spec fn bytes(self) -> int {
        self.count * self.source.stride()
    }

    /// The records fit an address space and lie within what is bound, and that
    /// lies within the memory. In a texture they start on a whole texel.
    pub open spec fn wf(self) -> bool {
        &&& self.bytes() <= isize::MAX
        &&& self.bytes() <= self.allocation.size
        &&& match self.data {
            InstanceData::Storage { size } => self.allocation.offset + self.allocation.size
                <= size,
            InstanceData::Texture { width, height } => {
                &&& width >= 1
                &&& height >= 1
                &&& self.allocation.offset % INSTANCE_TEXTURE_TEXEL_SIZE == 0
                &&& self.allocation.offset + self.bytes() <= extent_bytes(
                    width as int,
                    height as int,
                )
            },
        }
    }

    /// The upload puts all records where the binding has them.
    pub open spec fn uploads_as(self, upload: InstanceUpload) -> bool {
        if self.count == 0 {
            upload is Nothing
        } else {
            match self.data {
                InstanceData::Storage { .. } => upload == (InstanceUpload::Buffer {
                    offset: self.allocation.offset,
                }),
                InstanceData::Texture { width, height } => {
                    &&& upload matches InstanceUpload::Texels(upload)
                    &&& upload.writes@ == texel_writes(
                        width as int,
                        height as int,
                        self.allocation.offset as int / INSTANCE_TEXTURE_TEXEL_SIZE as int,
                        0,
                        self.bytes(),
                    )
                    &&& upload.dropped == 0
                },
            }
        }
    }

    /// What to bind for the records.
    pub open spec fn bound_resource(self) -> InstanceResource {
        match self.data {
            InstanceData::Storage { .. } => InstanceResource::Buffer {
                offset: self.allocation.offset,
                size: self.allocation.size,
            },
            InstanceData::Texture { .. } => InstanceResource::Texture,
        }
    }

    /// How the records get into memory. None of them is dropped.
    pub fn upload(&self) -> (result: InstanceUpload)
        requires
            self.wf(),
        ensures
            self.uploads_as(result),
            match result {
                InstanceUpload::Nothing => self.count == 0,
                InstanceUpload::Buffer { offset } => {
                    &&& self.count > 0
                    &&& self.data is Storage
                    &&& offset == self.allocation.offset
                },
                InstanceUpload::Texels(upload) => {
                    &&& self.count > 0
                    &&& self.data matches InstanceData::Texture { width, height }
                    &&& upload.writes@ == texel_writes(
                        width as int,
                        height as int,
                        self.allocation.offset as int / INSTANCE_TEXTURE_TEXEL_SIZE as int,
                        0,
                        self.bytes(),
                    )
                    &&& bytes_written(upload.writes@) == self.bytes()
                    &&& upload.dropped == 0
                },
            },
    {
        if self.count == 0 {
            return InstanceUpload::Nothing;
        }
        match self.data {
            InstanceData::Storage { .. } => InstanceUpload::Buffer {
                offset: self.allocation.offset,
            },
            InstanceData::Texture { width, height } => {
                proof {
                    upload_covers_records(
                        width as int,
                        height as int,
                        self.allocation.offset as int,
                        self.bytes(),
                    );
                }
                let byte_count: u64 = self.count as u64 * self.source.record_size();
                InstanceUpload::Texels(
                    write_instance_texture(width, height, self.allocation.offset, byte_count),
                )
            },
        }
    }

    /// What to bind for the records.
    pub fn resource(&self) -> (result: InstanceResource)
        ensures
            result == self.bound_resource(),
            result == match self.data {
                InstanceData::Storage { .. } => InstanceResource::Buffer {
                    offset: self.allocation.offset,
                    size: self.allocation.size,
                },
                InstanceData::Texture { .. } => InstanceResource::Texture,
            },
    {
        match self.data {
            InstanceData::Storage { .. } => InstanceResource::Buffer {
                offset: self.allocation.offset,
                size: self.allocation.size,
            },
            InstanceData::Texture { .. } => InstanceResource::Texture,
        }
    }
}

/// Number of the binding that holds the quads.
pub const QUADS_BINDING: usize = 0;

/// Number of the binding that holds the shadows.
pub const SHADOWS_BINDING: usize = 1;

/// Number of the binding that holds the underlines.
pub const UNDERLINES_BINDING: usize = 2;

/// Number of the binding that holds the monochrome sprites.
pub const MONOCHROME_SPRITES_BINDING: usize = 3;

/// Number of the binding that holds the subpixel sprites.
pub const SUBPIXEL_SPRITES_BINDING: usize = 4;

/// Number of the binding that holds the polychrome sprites.
pub const POLYCHROME_SPRITES_BINDING: usize = 5;

/// A view of a plane of video.
#[derive(Clone, Copy, Debug)]
pub enum PlaneView {
    /// All of a texture.
    Whole { texture: u64 },
    /// One plane of a texture.
    Plane { texture: u64, descriptor: PlaneViewDescriptor },
}

/// The parameters and planes of a video surface.
#[derive(Clone, Copy, Debug)]
pub struct VideoBinding {
    pub params: SurfaceParams,
    pub y_view: PlaneView,
    pub cb_cr_view: PlaneView,
}

/// Where a pass draws.
#[derive(Clone, Copy, Debug, PartialEq, Eq, Structural)]
pub enum PassTarget {
    Frame,
    PathIntermediate,
    PathMsaa,
}

/// A render pass with one color attachment, whose content is stored.
#[derive(Clone, Copy, Debug)]
pub struct RenderPass {
    pub label: &'static str,
    pub target: PassTarget,
    pub resolve_target: Option<PassTarget>,
    /// The pass starts from transparent black, not from what is there.
    pub clear: bool,
}

/// Names one of the render pipelines.
#[derive(Clone, Copy, Debug, PartialEq, Eq, Structural)]
pub enum PipelineKind {
    Quads,
    Shadows,
    PathRasterization,
    Paths,
    Underlines,
    MonoSprites,
    SubpixelSprites,
    PolySprites,
    Surfaces,
    SurfaceRgba,
}

/// Names one of the global bind groups.
#[derive(Clone, Copy, Debug, PartialEq, Eq, Structural)]
pub enum GlobalsKind {
    Surface,
    Paths,
}

/// What a draw binds next to the globals.
#[derive(Clone, Copy, Debug, PartialEq, Eq, Structural)]
pub enum DrawBinding {
    /// The instance binding of that number.
    Instances(usize),
    /// The video binding of that number.
    Video(usize),
}

/// The texture that a draw samples in a bind group of its own.
#[derive(Clone, Copy, Debug, PartialEq, Eq, Structural)]
pub enum DrawTexture {
    Nothing,
    Atlas(u64),
    PathIntermediate,
}

/// Indices from `start` to before `end`.
#[derive(Clone, Copy, Debug, PartialEq, Eq, Structural)]
pub struct DrawRange {
    pub start: u32,
    pub end: u32,
}

/// One draw.
#[derive(Clone, Copy, Debug, PartialEq, Eq, Structural)]
pub struct DrawCall {
    pub pipeline: PipelineKind,
    pub globals: GlobalsKind,
    pub binding: DrawBinding,
    pub texture: DrawTexture,
    /// Limits this draw and the ones after it in the pass.
    pub scissor_rect: Option<ScissorRect>,
    pub vertices: DrawRange,
    pub instances: DrawRange,
}

/// One command for the frame's encoder.
#[derive(Clone, Copy, Debug)]
pub enum FrameCommand {
    BeginPass(RenderPass),
    EndPass,
    Draw(DrawCall),
}

/// What the renderer has that recording depends on.
#[derive(Clone, Copy, Debug, PartialEq, Eq, Structural)]
pub struct FrameTargets {
    /// There is a pipeline for subpixel sprites.
    pub subpixel_sprites: bool,
    /// There is an intermediate texture for paths.
    pub path_intermediate: bool,
    /// There is a multisampled texture for paths.
    pub path_msaa: bool,
}

/// Why a frame could not be recorded.
#[derive(Clone, Copy, Debug, PartialEq, Eq, Structural)]
pub enum FrameError {
    /// The records of the scene's primitives do not fit.
    SceneTooLarge(InstanceError),
    /// The records of a run of paths do not fit.
    Paths(InstanceError),
    /// The record of a surface does not fit.
    SurfacesExhausted,
}

} // verus!
