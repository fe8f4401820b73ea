//! What surfaces, pipelines and parameters are set up to do.
use crate::arith::{align_up, align_up_is_least_multiple};
use crate::device::{BufferDescriptor, DeviceFeatures};
use crate::outside::{big_endian, little_endian, srgb_encoded, word_bytes};
use crate::params::{
    Bounds, GammaParams, GlobalParams, Nv12ColorTransform, PodBounds, SurfaceInstance,
    SurfaceParams, UniformLayout, VideoTransferFunction, GAMMA_PARAMS_SIZE, GLOBAL_PARAMS_SIZE,
    SURFACE_PARAMS_SIZE,
};
use crate::pipelines::{
    globals_entries, instance_entry, layout_entries, layout_label, sampled_entries, smooth_sampler,
    surface_entries, BindingType, BlendFactor, BlendState, ColorWrites, FilterMode, FrontFace,
    LayoutEntry, LayoutKind, PipelineDescriptor, PolygonMode, PrimitiveTopology, ShaderModule,
    ShaderSource, ShaderStages, WgpuPipelines,
};
use crate::surface_config::{
    clamped_extent, first_linear, opaque_mode, preferred_format, preferred_mode, transparent_mode,
    CompositeAlphaMode, PresentMode, SurfaceCapabilities, SurfaceColorSpace, SurfaceError,
    SurfaceFormat, SurfaceSetup, WgpuSurfaceConfig,
};
use vstd::prelude::*;

verus! {

/// A surface gets 8 linear bits where it has them, blue first; else a format
/// that is not sRGB-encoded, the first one in the adapter's order; and an
/// encoded one only where there is nothing else. It has a format whenever the
/// adapter reports one.
pub proof fn linear_formats_are_preferred(formats: Seq<SurfaceFormat>)
    ensures
        formats.contains(SurfaceFormat::Bgra8Unorm) ==> preferred_format(formats) == Some(
            SurfaceFormat::Bgra8Unorm,
        ),
        !formats.contains(SurfaceFormat::Bgra8Unorm) && formats.contains(SurfaceFormat::Rgba8Unorm)
            ==> preferred_format(formats) == Some(SurfaceFormat::Rgba8Unorm),
        preferred_format(formats) is None <==> formats.len() == 0,
        preferred_format(formats) matches Some(format) ==> {
            &&& formats.contains(format)
            &&& srgb_encoded(format) ==> format == formats[0] && forall|i: int|
                0 <= i < formats.len() ==> srgb_encoded(#[trigger] formats[i])
            &&& !formats.contains(SurfaceFormat::Bgra8Unorm) && !formats.contains(
                SurfaceFormat::Rgba8Unorm,
            ) && !srgb_encoded(format) ==> exists|k: int|
                0 <= k < formats.len() && #[trigger] formats[k] == format && forall|i: int|
                    0 <= i < k ==> srgb_encoded(#[trigger] formats[i])
        },
        srgb_encoded(SurfaceFormat::Bgra8UnormSrgb),
        srgb_encoded(SurfaceFormat::Rgba8UnormSrgb),
        !srgb_encoded(SurfaceFormat::Bgra8Unorm),
        !srgb_encoded(SurfaceFormat::Rgba8Unorm),
        !srgb_encoded(SurfaceFormat::Rgba16Float),
        !srgb_encoded(SurfaceFormat::Rgb10a2Unorm),
{
    lemma_first_linear(formats);
    if formats.len() > 0 {
        assert(formats.contains(formats[0]));
    }
}

proof fn lemma_first_linear(formats: Seq<SurfaceFormat>)
    ensures
        match first_linear(formats) {
            Some(format) => !srgb_encoded(format) && formats.contains(format) && exists|k: int|
                0 <= k < formats.len() && #[trigger] formats[k] == format && forall|i: int|
                    0 <= i < k ==> srgb_encoded(#[trigger] formats[i]),
            None => forall|i: int| 0 <= i < formats.len() ==> srgb_encoded(#[trigger] formats[i]),
        },
    decreases formats.len(),
{
    if formats.len() > 0 {
        let rest = formats.drop_first();
        lemma_first_linear(rest);
        if !srgb_encoded(formats.first()) {
            assert(formats[0] == formats.first());
            assert(formats.contains(formats[0]));
        } else {
            match first_linear(rest) {
                Some(format) => {
                    let k = choose|k: int|
                        0 <= k < rest.len() && #[trigger] rest[k] == format && forall|i: int|
                            0 <= i < k ==> srgb_encoded(#[trigger] rest[i]);
                    assert(formats[k + 1] == format);
                    assert forall|i: int| 0 <= i < k + 1 implies srgb_encoded(
                        #[trigger] formats[i],
                    ) by {
                        if i > 0 {
                            assert(rest[i - 1] == formats[i]);
                        }
                    }
                },
                None => {
                    assert forall|i: int| 0 <= i < formats.len() implies srgb_encoded(
                        #[trigger] formats[i],
                    ) by {
                        if i > 0 {
                            assert(rest[i - 1] == formats[i]);
                        }
                    }
                },
            }
        }
    }
}

/// A transparent window premultiplies where the surface can, an opaque one is
/// opaque where it can; both else inherit where the surface can, and else take
/// the first mode that it reports.
pub proof fn alpha_modes_suit_the_window(modes: Seq<CompositeAlphaMode>)
    requires
        modes.len() > 0,
    ensures
        ({
            let fallback = if modes.contains(CompositeAlphaMode::Inherit) {
                CompositeAlphaMode::Inherit
            } else {
                modes[0]
            };
            &&& transparent_mode(modes) == Some(
                if modes.contains(CompositeAlphaMode::PreMultiplied) {
                    CompositeAlphaMode::PreMultiplied
                } else {
                    fallback
                },
            )
            &&& opaque_mode(modes) == Some(
                if modes.contains(CompositeAlphaMode::Opaque) {
                    CompositeAlphaMode::Opaque
                } else {
                    fallback
                },
            )
        }),
        transparent_mode(Seq::empty()) is None,
        opaque_mode(Seq::empty()) is None,
{
}

/// A preferred present mode is used exactly where the surface supports it, and
/// `Fifo` in every other case.
pub proof fn preference_needs_support(mode: PresentMode, modes: Seq<PresentMode>)
    ensures
        modes.contains(mode) ==> preferred_mode(Some(mode), modes) == mode,
        !modes.contains(mode) ==> preferred_mode(Some(mode), modes) == PresentMode::Fifo,
        preferred_mode(None, modes) == PresentMode::Fifo,
{
}

/// An extent is cut down as little as it takes: one that a texture can have
/// stays, a larger one becomes the largest, an empty one becomes one. Cutting
/// twice changes nothing more, and a larger request never gives a smaller extent.
pub proof fn extents_are_cut_as_little_as_possible(requested: u32, larger: u32, largest: u32)
    requires
        requested <= larger,
    ensures
        clamped_extent(requested, largest) >= 1,
        1 <= requested <= largest ==> clamped_extent(requested, largest) == requested,
        requested > largest >= 1 ==> clamped_extent(requested, largest) == largest,
        requested == 0 || largest == 0 ==> clamped_extent(requested, largest) == 1,
        clamped_extent(clamped_extent(requested, largest), largest) == clamped_extent(
            requested,
            largest,
        ),
        clamped_extent(requested, largest) <= clamped_extent(larger, largest),
{
}

/// A window's setup is what it asked for, as far as the surface and the device
/// allow: its own width and height, the alpha mode for its transparency, with
/// the other one kept for later, and its present mode.
pub proof fn setup_follows_the_window(
    capabilities: SurfaceCapabilities,
    config: WgpuSurfaceConfig,
    max_texture_size: u32,
)
    requires
        capabilities.formats@.len() > 0,
        capabilities.alpha_modes@.len() > 0,
    ensures
        ({
            let setup = SurfaceSetup::chosen(capabilities, config, max_texture_size);
            let other = SurfaceSetup::chosen(
                capabilities,
                WgpuSurfaceConfig { transparent: !config.transparent, ..config },
                max_texture_size,
            );
            &&& 1 <= config.size.width <= max_texture_size ==> setup.config.width
                == config.size.width
            &&& 1 <= config.size.height <= max_texture_size ==> setup.config.height
                == config.size.height
            &&& config.size.width >= 0 && config.size.height >= 0 ==> (setup.clamped <==>
                config.size.width > max_texture_size || config.size.height > max_texture_size)
            &&& setup.config.width == clamped_extent(config.size.width as u32, max_texture_size)
            &&& setup.config.height == clamped_extent(config.size.height as u32, max_texture_size)
            &&& config.transparent ==> setup.config.alpha_mode == setup.transparent_alpha_mode
            &&& !config.transparent ==> setup.config.alpha_mode == setup.opaque_alpha_mode
            &&& Some(setup.transparent_alpha_mode) == transparent_mode(capabilities.alpha_modes@)
            &&& Some(setup.opaque_alpha_mode) == opaque_mode(capabilities.alpha_modes@)
            &&& Some(setup.config.format) == preferred_format(capabilities.formats@)
            &&& setup.config.present_mode == preferred_mode(
                config.preferred_present_mode,
                capabilities.present_modes@,
            )
            &&& setup.max_texture_size == max_texture_size
            &&& setup.config.desired_maximum_frame_latency == 2
            &&& setup.config.usage.render_attachment
            &&& !setup.config.usage.texture_binding
            &&& !setup.config.usage.copy_dst
            &&& setup.config.color_space == SurfaceColorSpace::Auto
            &&& other.transparent_alpha_mode == setup.transparent_alpha_mode
            &&& other.opaque_alpha_mode == setup.opaque_alpha_mode
            &&& other.config.width == setup.config.width
            &&& other.config.height == setup.config.height
            &&& other.config.format == setup.config.format
            &&& other.config.present_mode == setup.config.present_mode
        }),
{
}

/// Pipelines onto the surface blend as the compositor expects: premultiplied
/// where the surface is premultiplied, by the source's alpha where not. All of
/// them draw strips, both sides of them filled, in the surface's format.
pub proof fn surface_pipelines_blend_as_the_compositor_expects(
    format: SurfaceFormat,
    alpha_mode: CompositeAlphaMode,
    samples: u32,
    dual_source_blending: bool,
    features: DeviceFeatures,
    uses_webgl: bool,
    number: int,
)
    ensures
        ({
            let table = WgpuPipelines::table(
                format,
                alpha_mode,
                samples,
                dual_source_blending,
                features,
                uses_webgl,
            );
            let pipelines = seq![
                table.quads,
                table.shadows,
                table.underlines,
                table.mono_sprites,
                table.poly_sprites,
                table.surfaces,
                table.surface_rgba,
            ];
            &&& 0 <= number < 7 ==> {
                let pipeline = pipelines[number];
                &&& pipeline.blend == BlendState::PremultipliedAlphaBlending <==> alpha_mode
                    == CompositeAlphaMode::PreMultiplied
                &&& pipeline.blend == BlendState::AlphaBlending <==> alpha_mode
                    != CompositeAlphaMode::PreMultiplied
                &&& pipeline.topology == PrimitiveTopology::TriangleStrip
                &&& pipeline.format == format
                &&& pipeline.write_mask == ColorWrites::All
                &&& pipeline.module == ShaderModule::Shared
                &&& pipeline.sample_count == 1
                &&& pipeline.raster.front_face == FrontFace::Ccw
                &&& pipeline.raster.cull_mode is None
                &&& pipeline.raster.polygon_mode == PolygonMode::Fill
                &&& pipeline.raster.sample_mask == u64::MAX
                &&& !pipeline.raster.alpha_to_coverage
                &&& !pipeline.raster.unclipped_depth
                &&& !pipeline.raster.conservative
            }
            &&& table.shader_source == ShaderSource::WebGl <==> uses_webgl
        }),
{
}

/// Paths are rasterized from lists of triangles, in as many samples as were
/// asked for, premultiplied; and drawn from there without multiplying again.
pub proof fn paths_are_premultiplied_once(
    format: SurfaceFormat,
    alpha_mode: CompositeAlphaMode,
    samples: u32,
    dual_source_blending: bool,
    features: DeviceFeatures,
    uses_webgl: bool,
)
    ensures
        ({
            let table = WgpuPipelines::table(
                format,
                alpha_mode,
                samples,
                dual_source_blending,
                features,
                uses_webgl,
            );
            let raster = table.path_rasterization;
            let paths = table.paths;
            &&& raster.topology == PrimitiveTopology::TriangleList
            &&& raster.sample_count == samples
            &&& raster.blend == BlendState::PremultipliedAlphaBlending
            &&& raster.format == format && paths.format == format
            &&& raster.write_mask == ColorWrites::All && paths.write_mask == ColorWrites::All
            &&& raster.raster == table.quads.raster && paths.raster == table.quads.raster
            &&& raster.module == ShaderModule::Shared && paths.module == ShaderModule::Shared
            &&& paths.topology == PrimitiveTopology::TriangleStrip
            &&& paths.sample_count == 1
            &&& paths.blend matches BlendState::Add { color_src, color_dst, alpha_src, alpha_dst }
            &&& color_src == BlendFactor::One
            &&& color_dst == BlendFactor::OneMinusSrcAlpha
            &&& alpha_src == BlendFactor::One
            &&& alpha_dst == BlendFactor::One
        }),
{
}

/// Subpixel text has a pipeline exactly where it is wanted, the device blends
/// with two sources and records are in a storage buffer. The second source
/// weighs each color channel, and alpha is left alone. That the device lacks the
/// feature is told exactly where it was wanted.
pub proof fn subpixel_text_needs_two_sources(
    format: SurfaceFormat,
    alpha_mode: CompositeAlphaMode,
    samples: u32,
    dual_source_blending: bool,
    features: DeviceFeatures,
    uses_webgl: bool,
)
    ensures
        ({
            let table = WgpuPipelines::table(
                format,
                alpha_mode,
                samples,
                dual_source_blending,
                features,
                uses_webgl,
            );
            let blends = features.web & 0x4000 == 0x4000;
            &&& table.subpixel_sprites is Some <==> dual_source_blending && blends && !uses_webgl
            &&& table.missing_dual_source_blending <==> dual_source_blending && !blends
            &&& table.subpixel_sprites matches Some(pipeline) ==> {
                &&& pipeline.write_mask == ColorWrites::Color
                &&& pipeline.module == ShaderModule::Subpixel
                &&& pipeline.format == format
                &&& pipeline.topology == PrimitiveTopology::TriangleStrip
                &&& pipeline.sample_count == 1
                &&& pipeline.raster == table.quads.raster
                &&& pipeline.blend matches BlendState::Add {
                    color_src,
                    color_dst,
                    alpha_src,
                    alpha_dst,
                }
                &&& color_src == BlendFactor::Src1
                &&& color_dst == BlendFactor::OneMinusSrc1
                &&& alpha_src == BlendFactor::One
                &&& alpha_dst == BlendFactor::OneMinusSrcAlpha
            }
        }),
{
}

/// Pipelines take what their draws bind: instance records but for video, which
/// brings its parameters and planes; the texture beside its records where a
/// picture is drawn; and a texture in a bind group of its own for sprites and
/// for paths that were rasterized.
pub proof fn pipelines_take_what_draws_bind(
    format: SurfaceFormat,
    alpha_mode: CompositeAlphaMode,
    samples: u32,
    dual_source_blending: bool,
    features: DeviceFeatures,
    uses_webgl: bool,
)
    ensures
        ({
            let table = WgpuPipelines::table(
                format,
                alpha_mode,
                samples,
                dual_source_blending,
                features,
                uses_webgl,
            );
            &&& table.quads.data_layout == LayoutKind::Instances
            &&& table.shadows.data_layout == LayoutKind::Instances
            &&& table.underlines.data_layout == LayoutKind::Instances
            &&& table.path_rasterization.data_layout == LayoutKind::Instances
            &&& table.paths.data_layout == LayoutKind::Instances
            &&& table.mono_sprites.data_layout == LayoutKind::Instances
            &&& table.poly_sprites.data_layout == LayoutKind::Instances
            &&& table.surfaces.data_layout == LayoutKind::Surfaces
            &&& table.surface_rgba.data_layout == LayoutKind::InstancesWithTexture
            &&& table.quads.texture_layout is None
            &&& table.shadows.texture_layout is None
            &&& table.underlines.texture_layout is None
            &&& table.path_rasterization.texture_layout is None
            &&& table.surfaces.texture_layout is None
            &&& table.surface_rgba.texture_layout is None
            &&& table.paths.texture_layout == Some(LayoutKind::Texture)
            &&& table.mono_sprites.texture_layout == Some(LayoutKind::Texture)
            &&& table.poly_sprites.texture_layout == Some(LayoutKind::Texture)
            &&& table.subpixel_sprites matches Some(pipeline) ==> {
                &&& pipeline.data_layout == LayoutKind::Instances
                &&& pipeline.texture_layout == Some(LayoutKind::Texture)
            }
        }),
{
}

/// The pipeline runs the shaders of its own kind.
pub open spec fn runs(
    pipeline: PipelineDescriptor,
    name: &'static str,
    vertex: &'static str,
    fragment: &'static str,
) -> bool {
    &&& pipeline.name == name
    &&& pipeline.vertex_entry == vertex
    &&& pipeline.fragment_entry == fragment
}

/// Each pipeline runs the shaders of its own kind.
pub proof fn pipelines_run_their_own_shaders(
    format: SurfaceFormat,
    alpha_mode: CompositeAlphaMode,
    samples: u32,
    dual_source_blending: bool,
    features: DeviceFeatures,
    uses_webgl: bool,
)
    ensures
        ({
            let table = WgpuPipelines::table(
                format,
                alpha_mode,
                samples,
                dual_source_blending,
                features,
                uses_webgl,
            );
            &&& runs(table.quads, "quads", "vs_quad", "fs_quad")
            &&& runs(table.shadows, "shadows", "vs_shadow", "fs_shadow")
            &&& runs(
                table.path_rasterization,
                "path_rasterization",
                "vs_path_rasterization",
                "fs_path_rasterization",
            )
            &&& runs(table.paths, "paths", "vs_path", "fs_path")
            &&& runs(table.underlines, "underlines", "vs_underline", "fs_underline")
            &&& runs(table.mono_sprites, "mono_sprites", "vs_mono_sprite", "fs_mono_sprite")
            &&& runs(table.poly_sprites, "poly_sprites", "vs_poly_sprite", "fs_poly_sprite")
            &&& runs(table.surfaces, "surfaces", "vs_surface", "fs_surface")
            &&& runs(table.surface_rgba, "surface_rgba", "vs_surface_rgba", "fs_surface_rgba")
            &&& table.subpixel_sprites matches Some(pipeline) ==> runs(
                pipeline,
                "subpixel_sprites",
                "vs_subpixel_sprite",
                "fs_subpixel_sprite",
            )
        }),
{
}

/// The bindings of a layout are numbered from `first` on, without a gap.
pub open spec fn numbered_from(entries: Seq<LayoutEntry>, first: int) -> bool {
    forall|i: int| 0 <= i < entries.len() ==> (#[trigger] entries[i]).binding == first + i
}

/// The bindings of each layout are numbered in order. Parameters have room for
/// all of their words; records are read by both stages, from a texture exactly
/// where there are no storage buffers; every sampled texture has a sampler
/// behind it; and what colors a pixel is visible where it is colored.
pub proof fn layouts_are_numbered_in_order(uses_webgl: bool, first: u32)
    requires
        first < u32::MAX,
    ensures
        numbered_from(globals_entries(), 0),
        numbered_from(seq![instance_entry(uses_webgl)], 0),
        numbered_from(sampled_entries(first), first as int),
        numbered_from(surface_entries(), 0),
        globals_entries().len() == 2,
        globals_entries()[0].ty == (BindingType::Uniform { min_binding_size: GLOBAL_PARAMS_SIZE }),
        globals_entries()[0].visibility == ShaderStages::VertexFragment,
        globals_entries()[1].ty == (BindingType::Uniform { min_binding_size: GAMMA_PARAMS_SIZE }),
        globals_entries()[1].visibility == ShaderStages::Fragment,
        instance_entry(uses_webgl).visibility == ShaderStages::VertexFragment,
        instance_entry(uses_webgl).ty == BindingType::UintTexture <==> uses_webgl,
        instance_entry(uses_webgl).ty == BindingType::ReadOnlyStorage <==> !uses_webgl,
        sampled_entries(first).len() == 2,
        sampled_entries(first)[0].ty == BindingType::FilterableTexture,
        sampled_entries(first)[1].ty == BindingType::FilteringSampler,
        sampled_entries(first)[0].visibility == ShaderStages::VertexFragment,
        sampled_entries(first)[1].visibility == ShaderStages::VertexFragment,
        surface_entries().len() == 4,
        surface_entries()[0].ty == (BindingType::Uniform { min_binding_size: SURFACE_PARAMS_SIZE }),
        surface_entries()[0].visibility == ShaderStages::VertexFragment,
        surface_entries()[1].ty == BindingType::FilterableTexture,
        surface_entries()[2].ty == BindingType::FilterableTexture,
        surface_entries()[3].ty == BindingType::FilteringSampler,
        forall|i: int|
            1 <= i < 4 ==> (#[trigger] surface_entries()[i]).visibility == ShaderStages::Fragment,
{
}

/// A pass's parameters are its viewport and whether the surface is
/// premultiplied, in the order in which shaders read them.
pub proof fn globals_are_laid_out_in_order(width: u32, height: u32, alpha_mode: CompositeAlphaMode)
    ensures
        ({
            let params = GlobalParams::of(width, height, alpha_mode);
            &&& params.words().len() * 4 == GLOBAL_PARAMS_SIZE
            &&& params.words()[0] == width
            &&& params.words()[1] == height
            &&& params.words()[2] == 1 <==> alpha_mode == CompositeAlphaMode::PreMultiplied
            &&& params.words()[2] == 0 <==> alpha_mode != CompositeAlphaMode::PreMultiplied
            &&& params.words()[3] == 0
        }),
{
}

/// The parameters of text are laid out in the order in which shaders read them.
pub proof fn gamma_is_laid_out_in_order(params: GammaParams)
    ensures
        params.words().len() * 4 == GAMMA_PARAMS_SIZE,
        params.words()[0] == params.gamma_ratios[0],
        params.words()[1] == params.gamma_ratios[1],
        params.words()[2] == params.gamma_ratios[2],
        params.words()[3] == params.gamma_ratios[3],
        params.words()[4] == params.grayscale_enhanced_contrast,
        params.words()[5] == params.subpixel_enhanced_contrast,
        params.words()[6] == params.is_bgr,
        params.words()[7] == params.pad,
{
}

/// Rectangles are laid out as origin and size, and those of a surface come
/// before its mask.
pub proof fn rectangles_are_laid_out_in_order(
    bounds: Bounds,
    content_mask: Bounds,
    transform: Nv12ColorTransform,
    column: int,
    row: int,
)
    requires
        0 <= column < 4,
        0 <= row < 4,
    ensures
        PodBounds::of(bounds).words() == seq![bounds.x, bounds.y, bounds.width, bounds.height],
        ({
            let instance = SurfaceInstance {
                bounds: PodBounds::of(bounds),
                content_mask: PodBounds::of(content_mask),
            };
            let params = SurfaceParams {
                bounds: PodBounds::of(bounds),
                content_mask: PodBounds::of(content_mask),
                yuv_to_rgb: transform.yuv_to_rgb,
            };
            &&& instance.words() == PodBounds::of(bounds).words() + PodBounds::of(
                content_mask,
            ).words()
            &&& params.words().len() * 4 == SURFACE_PARAMS_SIZE
            &&& params.words().take(8) == instance.words()
            &&& params.words()[8 + 4 * column + row] == transform.yuv_to_rgb@[column]@[row]
        }),
{
    assert(PodBounds::of(bounds).words() =~= seq![
        bounds.x,
        bounds.y,
        bounds.width,
        bounds.height,
    ]);
    let instance = SurfaceInstance {
        bounds: PodBounds::of(bounds),
        content_mask: PodBounds::of(content_mask),
    };
    let params = SurfaceParams {
        bounds: PodBounds::of(bounds),
        content_mask: PodBounds::of(content_mask),
        yuv_to_rgb: transform.yuv_to_rgb,
    };
    assert(params.words().take(8) =~= instance.words());
}

/// The default conversion takes luma as it is into every channel, no chroma into
/// the channel on the other side, and leaves the fourth component alone.
pub proof fn default_conversion_keeps_luma()
    ensures
        ({
            let transform = Nv12ColorTransform::full_range();
            let one: u32 = 0x3F80_0000;
            &&& transform.transfer == VideoTransferFunction::Srgb
            &&& transform.yuv_to_rgb@[0]@ == seq![one, one, one, 0]
            &&& transform.yuv_to_rgb@[1]@ == seq![0u32, 0xBEB0_2DE0, 0x3FE2_D0E5, 0]
            &&& transform.yuv_to_rgb@[2]@ == seq![0x3FB3_74BCu32, 0xBF36_CF42, 0, 0]
            &&& transform.yuv_to_rgb@[3]@ == seq![
                0xBF33_74BCu32,
                0x3F07_7319,
                0xBF62_D0E5,
                one,
            ]
        }),
{
    let transform = Nv12ColorTransform::full_range();
    assert(transform.yuv_to_rgb@[0]@ =~= seq![0x3F80_0000u32, 0x3F80_0000, 0x3F80_0000, 0]);
    assert(transform.yuv_to_rgb@[1]@ =~= seq![0u32, 0xBEB0_2DE0, 0x3FE2_D0E5, 0]);
    assert(transform.yuv_to_rgb@[2]@ =~= seq![0x3FB3_74BCu32, 0xBF36_CF42, 0, 0]);
    assert(transform.yuv_to_rgb@[3]@ =~= seq![
        0xBF33_74BCu32,
        0x3F07_7319,
        0xBF62_D0E5,
        0x3F80_0000,
    ]);
}

/// The parts of the uniform buffer follow each other, aligned, none over
/// another, and as close as the alignment allows.
pub proof fn uniform_parts_do_not_overlap(alignment: u32)
    requires
        alignment > 0,
    ensures
        ({
            let layout = UniformLayout::aligned(alignment);
            &&& layout.path_globals_offset as int % alignment as int == 0
            &&& layout.gamma_offset as int % alignment as int == 0
            &&& GLOBAL_PARAMS_SIZE <= layout.path_globals_offset
            &&& layout.path_globals_offset < GLOBAL_PARAMS_SIZE + alignment
            &&& layout.path_globals_offset + GLOBAL_PARAMS_SIZE <= layout.gamma_offset
            &&& layout.gamma_offset < layout.path_globals_offset + GLOBAL_PARAMS_SIZE + alignment
            &&& layout.size == layout.gamma_offset + GAMMA_PARAMS_SIZE
        }),
{
    let path = align_up(GLOBAL_PARAMS_SIZE as int, alignment as int);
    align_up_is_least_multiple(GLOBAL_PARAMS_SIZE as int, alignment as int, 0);
    align_up_is_least_multiple(path + GLOBAL_PARAMS_SIZE, alignment as int, 0);
}

/// In either byte order, the four bytes of a word are its digits, and each word
/// of a run has its four bytes where the run has the word.
pub proof fn bytes_stand_for_their_words(words: Seq<u32>, index: int)
    requires
        0 <= index < words.len(),
    ensures
        ({
            let little = little_endian(words);
            let big = big_endian(words);
            let word = words[index] as int;
            &&& little.len() == 4 * words.len()
            &&& big.len() == 4 * words.len()
            &&& little[4 * index] + 0x100 * little[4 * index + 1] + 0x1_0000 * little[4 * index + 2]
                + 0x100_0000 * little[4 * index + 3] == word
            &&& big[4 * index + 3] + 0x100 * big[4 * index + 2] + 0x1_0000 * big[4 * index + 1]
                + 0x100_0000 * big[4 * index] == word
        }),
{
    let word = words[index];
    let bytes = word_bytes(word);
    assert(bytes[0] == word % 0x100);
    assert(bytes[1] == word / 0x100 % 0x100);
    assert(bytes[2] == word / 0x1_0000 % 0x100);
    assert(bytes[3] == word / 0x100_0000);
    assert(4 * index / 4 == index && (4 * index + 1) / 4 == index && (4 * index + 2) / 4 == index
        && (4 * index + 3) / 4 == index);
}

/// Whatever a layout is for, its bindings are numbered from zero on. Records come
/// first, and a texture that is bound beside them comes behind them as it does on
/// its own; where records are in a texture, no binding is a storage buffer.
pub proof fn every_layout_is_numbered_from_zero(kind: LayoutKind, uses_webgl: bool)
    ensures
        numbered_from(layout_entries(kind, uses_webgl), 0),
        layout_entries(LayoutKind::Instances, uses_webgl).len() == 1,
        layout_entries(LayoutKind::InstancesWithTexture, uses_webgl).len() == 3,
        ({
            let records = layout_entries(LayoutKind::Instances, uses_webgl);
            let texture = layout_entries(LayoutKind::Texture, uses_webgl);
            let both = layout_entries(LayoutKind::InstancesWithTexture, uses_webgl);
            &&& texture.len() == 2
            &&& both[0] == records[0]
            &&& both[1].ty == texture[0].ty && both[1].visibility == texture[0].visibility
            &&& both[2].ty == texture[1].ty && both[2].visibility == texture[1].visibility
            &&& texture[0].ty == BindingType::FilterableTexture
            &&& texture[1].ty == BindingType::FilteringSampler
            &&& records[0].ty == BindingType::UintTexture <==> uses_webgl
        }),
        layout_entries(LayoutKind::Globals, uses_webgl) == globals_entries(),
        layout_entries(LayoutKind::Surfaces, uses_webgl) == surface_entries(),
        forall|i: int|
            0 <= i < layout_entries(kind, uses_webgl).len() && (#[trigger] layout_entries(
                kind,
                uses_webgl,
            )[i]).ty == BindingType::ReadOnlyStorage ==> !uses_webgl,
{
}

/// Rasterizing paths differs from drawing onto the surface in one parameter: it
/// never premultiplies.
pub proof fn path_params_differ_in_one_word(params: GlobalParams)
    ensures
        params.of_paths().words()[0] == params.words()[0],
        params.of_paths().words()[1] == params.words()[1],
        params.of_paths().words()[2] == 0,
        params.of_paths().words()[3] == params.words()[3],
        params.of_paths().of_paths() == params.of_paths(),
{
}

/// A buffer of parameters is as large as was asked for, written to from outside
/// and read by shaders as parameters.
pub proof fn parameter_buffers_are_written_and_read(label: &'static str, size: u64)
    ensures
        ({
            let buffer = BufferDescriptor::of_uniforms(label, size);
            &&& buffer.label == label
            &&& buffer.size == size
            &&& buffer.usage.uniform && buffer.usage.copy_dst && !buffer.usage.storage
        }),
{
}

/// A surface that reports a format and an alpha mode is set up. One that does not
/// is told to lack a format first.
pub proof fn surfaces_need_a_format_and_an_alpha_mode(
    capabilities: SurfaceCapabilities,
    config: WgpuSurfaceConfig,
    max_texture_size: u32,
)
    ensures
        ({
            let selected = SurfaceSetup::selected(capabilities, config, max_texture_size);
            &&& selected matches Ok(setup) ==> setup == SurfaceSetup::chosen(
                capabilities,
                config,
                max_texture_size,
            )
            &&& selected is Ok <==> capabilities.formats@.len() > 0
                && capabilities.alpha_modes@.len() > 0
            &&& selected matches Err(error) ==> (error == SurfaceError::NoTextureFormats
                <==> capabilities.formats@.len() == 0)
        }),
{
}

/// Textures are sampled smoothly, whether they are drawn larger or smaller than
/// they are.
pub proof fn textures_are_sampled_smoothly()
    ensures
        smooth_sampler().mag_filter == FilterMode::Linear,
        smooth_sampler().min_filter == FilterMode::Linear,
        smooth_sampler().label == "atlas_sampler",
{
}

/// The layouts have labels of their own.
pub proof fn layouts_have_their_own_labels()
    ensures
        layout_label(LayoutKind::Globals) == "globals_layout",
        layout_label(LayoutKind::Instances) == "instances_layout",
        layout_label(LayoutKind::Texture) == "texture_layout",
        layout_label(LayoutKind::Surfaces) == "surfaces_layout",
        layout_label(LayoutKind::InstancesWithTexture) == "instances_with_texture_layout",
{
}

/// The buffers of parameters are as large as what they hold.
pub proof fn parameter_buffers_hold_their_parameters(params: SurfaceParams, layout: UniformLayout)
    ensures
        SurfaceParams::buffer().size == 4 * params.words().len(),
        SurfaceParams::buffer().label == "surface_nv12_uniform",
        SurfaceParams::buffer().usage.uniform,
        layout.buffer().size == layout.size,
        layout.buffer().label == "globals_buffer",
        layout.buffer().usage.uniform,
{
}

} // verus!
