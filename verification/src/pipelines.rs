//! The tables of bind group layouts and render pipelines.
use crate::device::DeviceFeatures;
use crate::params::{GAMMA_PARAMS_SIZE, GLOBAL_PARAMS_SIZE, SURFACE_PARAMS_SIZE};
use crate::surface_config::{CompositeAlphaMode, SurfaceFormat};
use vstd::prelude::*;

verus! {

/// The shader stages that see a binding.
#[derive(Clone, Copy, Debug, PartialEq, Eq, Structural)]
pub enum ShaderStages {
    Fragment,
    VertexFragment,
}

/// What a binding holds.
#[derive(Clone, Copy, Debug, PartialEq, Eq, Structural)]
pub enum BindingType {
    /// A uniform buffer of at least that many bytes.
    Uniform { min_binding_size: u64 },
    /// A storage buffer that shaders only read.
    ReadOnlyStorage,
    /// A two-dimensional texture of unsigned words.
    UintTexture,
    /// A two-dimensional texture that can be filtered.
    FilterableTexture,
    /// A filtering sampler.
    FilteringSampler,
}

/// One binding of a bind group.
#[derive(Clone, Copy, Debug, PartialEq, Eq, Structural)]
pub struct LayoutEntry {
    pub binding: u32,
    pub visibility: ShaderStages,
    pub ty: BindingType,
}

/// The layout of a bind group.
#[derive(Debug)]
pub struct BindGroupLayout {
    pub label: &'static str,
    pub entries: Vec<LayoutEntry>,
}

/// The layouts of a renderer's bind groups.
#[derive(Debug)]
pub struct WgpuBindGroupLayouts {
    pub globals: BindGroupLayout,
    pub instances: BindGroupLayout,
    pub texture: BindGroupLayout,
    pub surfaces: BindGroupLayout,
    pub instances_with_texture: BindGroupLayout,
}

/// Names one of the layouts of [`WgpuBindGroupLayouts`].
#[derive(Clone, Copy, Debug, PartialEq, Eq, Structural)]
pub enum LayoutKind {
    Globals,
    Instances,
    Texture,
    Surfaces,
    InstancesWithTexture,
}

/// Global and text parameters.
pub open spec fn globals_entries() -> Seq<LayoutEntry> {
    seq![
        LayoutEntry {
            binding: 0,
            visibility: ShaderStages::VertexFragment,
            ty: BindingType::Uniform { min_binding_size: GLOBAL_PARAMS_SIZE },
        },
        LayoutEntry {
            binding: 1,
            visibility: ShaderStages::Fragment,
            ty: BindingType::Uniform { min_binding_size: GAMMA_PARAMS_SIZE },
        },
    ]
}

/// Instance records: words of a texture where there are no storage buffers.
pub open spec fn instance_entry(uses_webgl: bool) -> LayoutEntry {
    LayoutEntry {
        binding: 0,
        visibility: ShaderStages::VertexFragment,
        ty: if uses_webgl {
            BindingType::UintTexture
        } else {
            BindingType::ReadOnlyStorage
        },
    }
}

/// A texture to sample and its sampler, from binding `first` on.
pub open spec fn sampled_entries(first: u32) -> Seq<LayoutEntry> {
    seq![
        LayoutEntry {
            binding: first,
            visibility: ShaderStages::VertexFragment,
            ty: BindingType::FilterableTexture,
        },
        LayoutEntry {
            binding: (first + 1) as u32,
            visibility: ShaderStages::VertexFragment,
            ty: BindingType::FilteringSampler,
        },
    ]
}

/// The parameters, planes and sampler of a video surface.
pub open spec fn surface_entries() -> Seq<LayoutEntry> {
    seq![
        LayoutEntry {
            binding: 0,
            visibility: ShaderStages::VertexFragment,
            ty: BindingType::Uniform { min_binding_size: SURFACE_PARAMS_SIZE },
        },
        LayoutEntry {
            binding: 1,
            visibility: ShaderStages::Fragment,
            ty: BindingType::FilterableTexture,
        },
        LayoutEntry {
            binding: 2,
            visibility: ShaderStages::Fragment,
            ty: BindingType::FilterableTexture,
        },
        LayoutEntry {
            binding: 3,
            visibility: ShaderStages::Fragment,
            ty: BindingType::FilteringSampler,
        },
    ]
}

/// The bindings of a layout.
pub open spec fn layout_entries(kind: LayoutKind, uses_webgl: bool) -> Seq<LayoutEntry> {
    match kind {
        LayoutKind::Globals => globals_entries(),
        LayoutKind::Instances => seq![instance_entry(uses_webgl)],
        LayoutKind::Texture => sampled_entries(0),
        LayoutKind::Surfaces => surface_entries(),
        LayoutKind::InstancesWithTexture => seq![instance_entry(uses_webgl)] + sampled_entries(1),
    }
}

/// The label of a layout.
pub open spec fn layout_label(kind: LayoutKind) -> &'static str {
    match kind {
        LayoutKind::Globals => "globals_layout",
        LayoutKind::Instances => "instances_layout",
        LayoutKind::Texture => "texture_layout",
        LayoutKind::Surfaces => "surfaces_layout",
        LayoutKind::InstancesWithTexture => "instances_with_texture_layout",
    }
}

/// The layouts of the renderer's bind groups.
pub fn create_bind_group_layouts(uses_webgl: bool) -> (result: WgpuBindGroupLayouts)
    ensures
        result.globals.label == layout_label(LayoutKind::Globals),
        result.instances.label == layout_label(LayoutKind::Instances),
        result.texture.label == layout_label(LayoutKind::Texture),
        result.surfaces.label == layout_label(LayoutKind::Surfaces),
        result.instances_with_texture.label == layout_label(LayoutKind::InstancesWithTexture),
        result.globals.entries@ == layout_entries(LayoutKind::Globals, uses_webgl),
        result.instances.entries@ == layout_entries(LayoutKind::Instances, uses_webgl),
        result.texture.entries@ == layout_entries(LayoutKind::Texture, uses_webgl),
        result.surfaces.entries@ == layout_entries(LayoutKind::Surfaces, uses_webgl),
        result.instances_with_texture.entries@ == layout_entries(
            LayoutKind::InstancesWithTexture,
            uses_webgl,
        ),
        result.globals.label == "globals_layout",
        result.globals.entries@ == globals_entries(),
        result.instances.label == "instances_layout",
        result.instances.entries@ == seq![instance_entry(uses_webgl)],
        result.texture.label == "texture_layout",
        result.texture.entries@ == sampled_entries(0),
        result.surfaces.label == "surfaces_layout",
        result.surfaces.entries@ == surface_entries(),
        result.instances_with_texture.label == "instances_with_texture_layout",
        result.instances_with_texture.entries@ == seq![instance_entry(uses_webgl)]
            + sampled_entries(1),
{
    let globals = vec![
        LayoutEntry {
            binding: 0,
            visibility: ShaderStages::VertexFragment,
            ty: BindingType::Uniform { min_binding_size: GLOBAL_PARAMS_SIZE },
        },
        LayoutEntry {
            binding: 1,
            visibility: ShaderStages::Fragment,
            ty: BindingType::Uniform { min_binding_size: GAMMA_PARAMS_SIZE },
        },
    ];
    let instance = LayoutEntry {
        binding: 0,
        visibility: ShaderStages::VertexFragment,
        ty: if uses_webgl {
            BindingType::UintTexture
        } else {
            BindingType::ReadOnlyStorage
        },
    };
    let texture = vec![
        LayoutEntry {
            binding: 0,
            visibility: ShaderStages::VertexFragment,
            ty: BindingType::FilterableTexture,
        },
        LayoutEntry {
            binding: 1,
            visibility: ShaderStages::VertexFragment,
            ty: BindingType::FilteringSampler,
        },
    ];
    let surfaces = vec![
        LayoutEntry {
            binding: 0,
            visibility: ShaderStages::VertexFragment,
            ty: BindingType::Uniform { min_binding_size: SURFACE_PARAMS_SIZE },
        },
        LayoutEntry {
            binding: 1,
            visibility: ShaderStages::Fragment,
            ty: BindingType::FilterableTexture,
        },
        LayoutEntry {
            binding: 2,
            visibility: ShaderStages::Fragment,
            ty: BindingType::FilterableTexture,
        },
        LayoutEntry {
            binding: 3,
            visibility: ShaderStages::Fragment,
            ty: BindingType::FilteringSampler,
        },
    ];
    let instances_with_texture = vec![
        instance,
        LayoutEntry {
            binding: 1,
            visibility: ShaderStages::VertexFragment,
            ty: BindingType::FilterableTexture,
        },
        LayoutEntry {
            binding: 2,
            visibility: ShaderStages::VertexFragment,
            ty: BindingType::FilteringSampler,
        },
    ];
    assert(instances_with_texture@ =~= seq![instance_entry(uses_webgl)] + sampled_entries(1));
    WgpuBindGroupLayouts {
        globals: BindGroupLayout { label: "globals_layout", entries: globals },
        instances: BindGroupLayout { label: "instances_layout", entries: vec![instance] },
        texture: BindGroupLayout { label: "texture_layout", entries: texture },
        surfaces: BindGroupLayout { label: "surfaces_layout", entries: surfaces },
        instances_with_texture: BindGroupLayout {
            label: "instances_with_texture_layout",
            entries: instances_with_texture,
        },
    }
}

/// How a draw call's vertices form triangles.
#[derive(Clone, Copy, Debug, PartialEq, Eq, Structural)]
pub enum PrimitiveTopology {
    TriangleList,
    TriangleStrip,
}

/// The winding of triangles that face the viewer.
#[derive(Clone, Copy, Debug, PartialEq, Eq, Structural)]
pub enum FrontFace {
    Ccw,
    Cw,
}

/// A side of a triangle.
#[derive(Clone, Copy, Debug, PartialEq, Eq, Structural)]
pub enum Face {
    Front,
    Back,
}

/// What is drawn of a triangle.
#[derive(Clone, Copy, Debug, PartialEq, Eq, Structural)]
pub enum PolygonMode {
    Fill,
    Line,
    Point,
}

/// How a pipeline turns vertices into pixels, besides their topology.
#[derive(Clone, Copy, Debug, PartialEq, Eq, Structural)]
pub struct RasterState {
    pub front_face: FrontFace,
    /// The side that is not drawn.
    pub cull_mode: Option<Face>,
    pub polygon_mode: PolygonMode,
    pub unclipped_depth: bool,
    pub conservative: bool,
    /// The samples that are written, one bit each.
    pub sample_mask: u64,
    pub alpha_to_coverage: bool,
}

impl RasterState {
    /// Both sides of every triangle, filled, in every sample.
    pub open spec fn filled() -> RasterState {
        RasterState {
            front_face: FrontFace::Ccw,
            cull_mode: None,
            polygon_mode: PolygonMode::Fill,
            unclipped_depth: false,
            conservative: false,
            sample_mask: u64::MAX,
            alpha_to_coverage: false,
        }
    }
}

/// A filter between texels.
#[derive(Clone, Copy, Debug, PartialEq, Eq, Structural)]
pub enum FilterMode {
    Nearest,
    Linear,
}

/// How textures are sampled.
#[derive(Clone, Copy, Debug)]
pub struct SamplerDescriptor {
    pub label: &'static str,
    pub mag_filter: FilterMode,
    pub min_filter: FilterMode,
}

/// The sampler of the atlas, which every texture is sampled with.
pub open spec fn smooth_sampler() -> SamplerDescriptor {
    SamplerDescriptor {
        label: "atlas_sampler",
        mag_filter: FilterMode::Linear,
        min_filter: FilterMode::Linear,
    }
}

/// The sampler of the atlas, which every texture is sampled with.
pub fn atlas_sampler() -> (result: SamplerDescriptor)
    ensures
        result == smooth_sampler(),
        result == (SamplerDescriptor {
            label: "atlas_sampler",
            mag_filter: FilterMode::Linear,
            min_filter: FilterMode::Linear,
        }),
{
    SamplerDescriptor {
        label: "atlas_sampler",
        mag_filter: FilterMode::Linear,
        min_filter: FilterMode::Linear,
    }
}

/// A factor of a blend equation.
#[derive(Clone, Copy, Debug, PartialEq, Eq, Structural)]
pub enum BlendFactor {
    One,
    OneMinusSrcAlpha,
    Src1,
    OneMinusSrc1,
}

/// How a pipeline's output is mixed into its target.
#[derive(Clone, Copy, Debug, PartialEq, Eq, Structural)]
pub enum BlendState {
    /// Mixing by the source's alpha.
    AlphaBlending,
    /// Mixing of a source already multiplied by its alpha.
    PremultipliedAlphaBlending,
    /// Adding the weighted source to the weighted target.
    Add {
        color_src: BlendFactor,
        color_dst: BlendFactor,
        alpha_src: BlendFactor,
        alpha_dst: BlendFactor,
    },
}

/// The channels that a pipeline writes.
#[derive(Clone, Copy, Debug, PartialEq, Eq, Structural)]
pub enum ColorWrites {
    All,
    /// Every channel but alpha.
    Color,
}

/// The shader text of the module that most pipelines share.
#[derive(Clone, Copy, Debug, PartialEq, Eq, Structural)]
pub enum ShaderSource {
    /// Instance records in a storage buffer.
    StorageBuffer,
    /// Instance records in a texture.
    WebGl,
}

/// The module that a pipeline's entry points belong to.
#[derive(Clone, Copy, Debug, PartialEq, Eq, Structural)]
pub enum ShaderModule {
    Shared,
    Subpixel,
}

/// A render pipeline. Its first bind group is the globals.
#[derive(Clone, Copy, Debug)]
pub struct PipelineDescriptor {
    pub name: &'static str,
    pub vertex_entry: &'static str,
    pub fragment_entry: &'static str,
    /// Layout of the second bind group.
    pub data_layout: LayoutKind,
    /// Layout of the third bind group.
    pub texture_layout: Option<LayoutKind>,
    pub topology: PrimitiveTopology,
    pub format: SurfaceFormat,
    pub blend: BlendState,
    pub write_mask: ColorWrites,
    pub sample_count: u32,
    pub raster: RasterState,
    pub module: ShaderModule,
}

/// The pipelines of a renderer.
#[derive(Clone, Copy, Debug)]
pub struct WgpuPipelines {
    pub shader_source: ShaderSource,
    pub quads: PipelineDescriptor,
    pub shadows: PipelineDescriptor,
    pub path_rasterization: PipelineDescriptor,
    pub paths: PipelineDescriptor,
    pub underlines: PipelineDescriptor,
    pub mono_sprites: PipelineDescriptor,
    pub subpixel_sprites: Option<PipelineDescriptor>,
    pub poly_sprites: PipelineDescriptor,
    pub surfaces: PipelineDescriptor,
    pub surface_rgba: PipelineDescriptor,
    /// Two-source blending was asked for and the device lacks it.
    pub missing_dual_source_blending: bool,
}

/// How pipelines onto the surface blend: premultiplied where the compositor
/// expects that.
pub open spec fn surface_blend(alpha_mode: CompositeAlphaMode) -> BlendState {
    if alpha_mode == CompositeAlphaMode::PreMultiplied {
        BlendState::PremultipliedAlphaBlending
    } else {
        BlendState::AlphaBlending
    }
}

/// A pipeline that draws one strip per instance record onto the surface.
pub open spec fn strip_pipeline(
    name: &'static str,
    vertex_entry: &'static str,
    fragment_entry: &'static str,
    format: SurfaceFormat,
    blend: BlendState,
) -> PipelineDescriptor {
    PipelineDescriptor {
        name,
        vertex_entry,
        fragment_entry,
        data_layout: LayoutKind::Instances,
        texture_layout: None,
        topology: PrimitiveTopology::TriangleStrip,
        format,
        blend,
        write_mask: ColorWrites::All,
        sample_count: 1,
        raster: RasterState::filled(),
        module: ShaderModule::Shared,
    }
}

impl WgpuPipelines {
    /// The pipelines for a surface format and alpha mode.
    pub open spec fn table(
        format: SurfaceFormat,
        alpha_mode: CompositeAlphaMode,
        path_sample_count: u32,
        dual_source_blending: bool,
        features: DeviceFeatures,
        uses_webgl: bool,
    ) -> WgpuPipelines {
        let blend = surface_blend(alpha_mode);
        WgpuPipelines {
            shader_source: if uses_webgl {
                ShaderSource::WebGl
            } else {
                ShaderSource::StorageBuffer
            },
            quads: strip_pipeline("quads", "vs_quad", "fs_quad", format, blend),
            shadows: strip_pipeline("shadows", "vs_shadow", "fs_shadow", format, blend),
            path_rasterization: PipelineDescriptor {
                topology: PrimitiveTopology::TriangleList,
                sample_count: path_sample_count,
                ..strip_pipeline(
                    "path_rasterization",
                    "vs_path_rasterization",
                    "fs_path_rasterization",
                    format,
                    BlendState::PremultipliedAlphaBlending,
                )
            },
            paths: PipelineDescriptor {
                texture_layout: Some(LayoutKind::Texture),
                ..strip_pipeline(
                    "paths",
                    "vs_path",
                    "fs_path",
                    format,
                    BlendState::Add {
                        color_src: BlendFactor::One,
                        color_dst: BlendFactor::OneMinusSrcAlpha,
                        alpha_src: BlendFactor::One,
                        alpha_dst: BlendFactor::One,
                    },
                )
            },
            underlines: strip_pipeline("underlines", "vs_underline", "fs_underline", format, blend),
            mono_sprites: PipelineDescriptor {
                texture_layout: Some(LayoutKind::Texture),
                ..strip_pipeline("mono_sprites", "vs_mono_sprite", "fs_mono_sprite", format, blend)
            },
            subpixel_sprites: if dual_source_blending && features.has_dual_source_blending()
                && !uses_webgl {
                Some(
                    PipelineDescriptor {
                        texture_layout: Some(LayoutKind::Texture),
                        write_mask: ColorWrites::Color,
                        module: ShaderModule::Subpixel,
                        ..strip_pipeline(
                            "subpixel_sprites",
                            "vs_subpixel_sprite",
                            "fs_subpixel_sprite",
                            format,
                            BlendState::Add {
                                color_src: BlendFactor::Src1,
                                color_dst: BlendFactor::OneMinusSrc1,
                                alpha_src: BlendFactor::One,
                                alpha_dst: BlendFactor::OneMinusSrcAlpha,
                            },
                        )
                    },
                )
            } else {
                None
            },
            poly_sprites: PipelineDescriptor {
                texture_layout: Some(LayoutKind::Texture),
                ..strip_pipeline("poly_sprites", "vs_poly_sprite", "fs_poly_sprite", format, blend)
            },
            surfaces: PipelineDescriptor {
                data_layout: LayoutKind::Surfaces,
                ..strip_pipeline("surfaces", "vs_surface", "fs_surface", format, blend)
            },
            surface_rgba: PipelineDescriptor {
                data_layout: LayoutKind::InstancesWithTexture,
                ..strip_pipeline(
                    "surface_rgba",
                    "vs_surface_rgba",
                    "fs_surface_rgba",
                    format,
                    blend,
                )
            },
            missing_dual_source_blending: dual_source_blending
                && !features.has_dual_source_blending(),
        }
    }
}

fn create_pipeline(
    name: &'static str,
    vertex_entry: &'static str,
    fragment_entry: &'static str,
    format: SurfaceFormat,
    blend: BlendState,
) -> (result: PipelineDescriptor)
    ensures
        result == strip_pipeline(name, vertex_entry, fragment_entry, format, blend),
{
    PipelineDescriptor {
        name,
        vertex_entry,
        fragment_entry,
        data_layout: LayoutKind::Instances,
        texture_layout: None,
        topology: PrimitiveTopology::TriangleStrip,
        format,
        blend,
        write_mask: ColorWrites::All,
        sample_count: 1,
        raster: RasterState {
            front_face: FrontFace::Ccw,
            cull_mode: None,
            polygon_mode: PolygonMode::Fill,
            unclipped_depth: false,
            conservative: false,
            sample_mask: u64::MAX,
            alpha_to_coverage: false,
        },
        module: ShaderModule::Shared,
    }
}

/// The pipelines for a surface format and alpha mode. Subpixel text gets a
/// pipeline of its own only where it is wanted, the device blends with two
/// sources, and instance records are in a storage buffer.
pub fn create_pipelines(
    format: SurfaceFormat,
    alpha_mode: CompositeAlphaMode,
    path_sample_count: u32,
    dual_source_blending: bool,
    features: &DeviceFeatures,
    uses_webgl: bool,
) -> (result: WgpuPipelines)
    ensures
        result == WgpuPipelines::table(
            format,
            alpha_mode,
            path_sample_count,
            dual_source_blending,
            *features,
            uses_webgl,
        ),
{
    let device_has_feature: bool = features.supports_dual_source_blending();
    let blend = match alpha_mode {
        CompositeAlphaMode::PreMultiplied => BlendState::PremultipliedAlphaBlending,
        _ => BlendState::AlphaBlending,
    };
    let path_rasterization = PipelineDescriptor {
        topology: PrimitiveTopology::TriangleList,
        sample_count: path_sample_count,
        ..create_pipeline(
            "path_rasterization",
            "vs_path_rasterization",
            "fs_path_rasterization",
            format,
            BlendState::PremultipliedAlphaBlending,
        )
    };
    let paths = PipelineDescriptor {
        texture_layout: Some(LayoutKind::Texture),
        ..create_pipeline(
            "paths",
            "vs_path",
            "fs_path",
            format,
            BlendState::Add {
                color_src: BlendFactor::One,
                color_dst: BlendFactor::OneMinusSrcAlpha,
                alpha_src: BlendFactor::One,
                alpha_dst: BlendFactor::One,
            },
        )
    };
    let subpixel_sprites = if dual_source_blending && device_has_feature && !uses_webgl {
        Some(
            PipelineDescriptor {
                texture_layout: Some(LayoutKind::Texture),
                write_mask: ColorWrites::Color,
                module: ShaderModule::Subpixel,
                ..create_pipeline(
                    "subpixel_sprites",
                    "vs_subpixel_sprite",
                    "fs_subpixel_sprite",
                    format,
                    BlendState::Add {
                        color_src: BlendFactor::Src1,
                        color_dst: BlendFactor::OneMinusSrc1,
                        alpha_src: BlendFactor::One,
                        alpha_dst: BlendFactor::OneMinusSrcAlpha,
                    },
                )
            },
        )
    } else {
        None
    };
    WgpuPipelines {
        shader_source: if uses_webgl {
            ShaderSource::WebGl
        } else {
            ShaderSource::StorageBuffer
        },
        quads: create_pipeline("quads", "vs_quad", "fs_quad", format, blend),
        shadows: create_pipeline("shadows", "vs_shadow", "fs_shadow", format, blend),
        path_rasterization,
        paths,
        underlines: create_pipeline("underlines", "vs_underline", "fs_underline", format, blend),
        mono_sprites: PipelineDescriptor {
            texture_layout: Some(LayoutKind::Texture),
            ..create_pipeline("mono_sprites", "vs_mono_sprite", "fs_mono_sprite", format, blend)
        },
        subpixel_sprites,
        poly_sprites: PipelineDescriptor {
            texture_layout: Some(LayoutKind::Texture),
            ..create_pipeline("poly_sprites", "vs_poly_sprite", "fs_poly_sprite", format, blend)
        },
        surfaces: PipelineDescriptor {
            data_layout: LayoutKind::Surfaces,
            ..create_pipeline("surfaces", "vs_surface", "fs_surface", format, blend)
        },
        surface_rgba: PipelineDescriptor {
            data_layout: LayoutKind::InstancesWithTexture,
            ..create_pipeline("surface_rgba", "vs_surface_rgba", "fs_surface_rgba", format, blend)
        },
        missing_dual_source_blending: dual_source_blending && !device_has_feature,
    }
}

/// Where instance records are in a texture, no binding is a storage buffer.
pub proof fn webgl_layouts_have_no_storage_buffers()
    ensures
        instance_entry(true).ty != BindingType::ReadOnlyStorage,
        forall|i: int|
            0 <= i < globals_entries().len() ==> (#[trigger] globals_entries()[i]).ty
                != BindingType::ReadOnlyStorage,
        forall|first: u32, i: int|
            0 <= i < sampled_entries(first).len() ==> (#[trigger] sampled_entries(first)[i]).ty
                != BindingType::ReadOnlyStorage,
        forall|i: int|
            0 <= i < surface_entries().len() ==> (#[trigger] surface_entries()[i]).ty
                != BindingType::ReadOnlyStorage,
{
}

/// Paths are rasterized and composited alike, whatever alpha the compositor
/// expects, and nothing but their rasterization is multisampled.
pub proof fn path_pipelines_ignore_alpha_mode(
    format: SurfaceFormat,
    first: CompositeAlphaMode,
    second: CompositeAlphaMode,
    path_sample_count: u32,
    dual_source_blending: bool,
    features: DeviceFeatures,
    uses_webgl: bool,
)
    ensures
        ({
            let one = WgpuPipelines::table(
                format,
                first,
                path_sample_count,
                dual_source_blending,
                features,
                uses_webgl,
            );
            let other = WgpuPipelines::table(
                format,
                second,
                path_sample_count,
                dual_source_blending,
                features,
                uses_webgl,
            );
            &&& one.path_rasterization == other.path_rasterization
            &&& one.paths == other.paths
            &&& one.path_rasterization.sample_count == path_sample_count
            &&& one.quads.sample_count == 1
            &&& one.shadows.sample_count == 1
            &&& one.paths.sample_count == 1
            &&& one.underlines.sample_count == 1
            &&& one.mono_sprites.sample_count == 1
            &&& one.subpixel_sprites matches Some(pipeline) ==> pipeline.sample_count == 1
            &&& one.poly_sprites.sample_count == 1
            &&& one.surfaces.sample_count == 1
            &&& one.surface_rgba.sample_count == 1
        }),
{
}

} // verus!
