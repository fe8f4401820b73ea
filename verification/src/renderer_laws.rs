//! What a window's renderer keeps, changes and asks for.
use crate::device::{Backend, DeviceType, TexelFormat, TextureDimension};
use crate::drawing::{
    AcquiredAction, CommandBuffer, CurrentSurfaceTexture, DrawAction, FrameInProgress,
};
use crate::external::{ExternalFrameOutcome, ExternalNv12Frame, GpuHandles, PreparedExternalFrame};
use crate::external_state::{ExternalFrame, ExternalFrameRequest, PendingExternalFrame};
use crate::outside::samples_allowed;
use crate::params::UniformLayout;
use crate::pipelines::{BlendState, ShaderSource};
use crate::renderer::{
    invalidated, path_intermediate, path_msaa, path_samples, GpuSpecs, Platform, RendererDevice,
    RenderingParameters, WgpuRenderer, WgpuResources,
};
use crate::scene::Scene;
use crate::surface_config::{
    clamped_extent, CompositeAlphaMode, PresentMode, SurfaceConfiguration, SurfaceFormat,
    SurfaceSetup, WgpuSurfaceConfig,
};
use vstd::prelude::*;

verus! {

/// A new renderer belongs to its window and device, and is ready: its pipelines
/// fit the surface, its first frame draws, and no external frame waits or is on
/// screen.
pub proof fn new_renderer_is_ready<H: GpuHandles>(
    renderer: WgpuRenderer<H>,
    setup: SurfaceSetup,
    device: RendererDevice,
    rendering_params: RenderingParameters,
    atlas: H::Atlas,
    scene: Scene,
)
    requires
        renderer.fresh(setup, device, rendering_params, atlas),
    ensures
        renderer.surface_config == setup.config,
        renderer.alpha_mode_for(true) == setup.transparent_alpha_mode,
        renderer.alpha_mode_for(false) == setup.opaque_alpha_mode,
        renderer.max_texture_size == setup.max_texture_size,
        renderer.pipelines_current(),
        renderer.draw_started(false, false) == (renderer, DrawAction::AcquireTexture),
        renderer.draw_started(false, true).1 == DrawAction::AcquireTexture,
        renderer.external_frames.drawn_slot(scene) is None,
        renderer.last_external_frame_outcome is None,
        !renderer.needs_redraw,
        !renderer.is_bgr,
        renderer.atlas == atlas,
        renderer.rendering_params == rendering_params,
        renderer.platform == device.platform,
        renderer.features == device.features,
        renderer.adapter_info == device.adapter_info,
        renderer.dual_source_blending <==> device.supports_dual_source_blending
            && !device.uses_webgl_instance_data,
        renderer.memory.uses_webgl == device.uses_webgl_instance_data,
        renderer.memory.max_texture_dimension == device.limits.max_texture_dimension_2d,
        renderer.uniforms == UniformLayout::aligned(
            device.limits.min_uniform_buffer_offset_alignment,
        ),
        renderer.resources matches Some(resources) && resources.path_intermediate is None
            && resources.path_msaa is None,
{
}

/// A resize gives the surface the size that was asked for, cut down to what a
/// texture can have and never empty, width as width and height as height. It
/// drops the textures for paths and changes nothing else. The surface is told
/// exactly where there is a device; that the size was cut is told exactly where
/// it was. The present size changes nothing.
pub proof fn resize_changes_the_size_only<H: GpuHandles>(
    renderer: WgpuRenderer<H>,
    width: u32,
    height: u32,
)
    ensures
        ({
            let (after, told) = renderer.resize_to(width, height);
            let same = width == renderer.surface_config.width && height
                == renderer.surface_config.height;
            &&& same ==> after == renderer && told is None
            &&& !same ==> {
                &&& told is Some
                &&& after.surface_config.width == clamped_extent(width, renderer.max_texture_size)
                &&& after.surface_config.height == clamped_extent(
                    height,
                    renderer.max_texture_size,
                )
                &&& after.surface_config.format == renderer.surface_config.format
                &&& after.surface_config.alpha_mode == renderer.surface_config.alpha_mode
                &&& after.surface_config.present_mode == renderer.surface_config.present_mode
                &&& after.surface_config.usage == renderer.surface_config.usage
                &&& after.surface_config.color_space == renderer.surface_config.color_space
                &&& after.surface_config.desired_maximum_frame_latency
                    == renderer.surface_config.desired_maximum_frame_latency
                &&& after == (WgpuRenderer {
                    surface_config: after.surface_config,
                    resources: after.resources,
                    ..renderer
                })
                &&& after.resources is Some <==> renderer.resources is Some
                &&& after.resources matches Some(resources) ==> {
                    &&& resources.pipelines == renderer.resources->0.pipelines
                    &&& resources.path_intermediate is None
                    &&& resources.path_msaa is None
                }
            }
            &&& told matches Some(told) ==> {
                &&& told.clamped <==> width > renderer.max_texture_size || height
                    > renderer.max_texture_size
                &&& told.reconfigure == if renderer.resources is Some {
                    Some(after.surface_config)
                } else {
                    None
                }
            }
        }),
{
}

/// Resources that are dropped for paths are the textures for paths, and nothing
/// else.
pub proof fn pipelines_outlive_the_textures(resources: WgpuResources)
    ensures
        invalidated(Some(resources)) matches Some(after) && {
            &&& after.pipelines == resources.pipelines
            &&& after.path_intermediate is None
            &&& after.path_msaa is None
        },
        invalidated(None) is None,
        invalidated(invalidated(Some(resources))) == invalidated(Some(resources)),
{
}

/// A surface is made transparent or opaque by its alpha mode alone; its
/// pipelines change with that, and everything else stays. The surface is told
/// exactly where something changed and there is a device.
pub proof fn transparency_is_the_alpha_mode_alone<H: GpuHandles>(
    renderer: WgpuRenderer<H>,
    transparent: bool,
    after: WgpuRenderer<H>,
    told: Option<SurfaceConfiguration>,
)
    requires
        renderer.transparency_step(transparent, after, told),
    ensures
        ({
            let mode = if transparent {
                renderer.transparent_alpha_mode
            } else {
                renderer.opaque_alpha_mode
            };
            &&& after.surface_config == (SurfaceConfiguration {
                alpha_mode: mode,
                ..renderer.surface_config
            })
            &&& after == (WgpuRenderer {
                surface_config: after.surface_config,
                resources: after.resources,
                ..renderer
            })
            &&& after.resources is Some <==> renderer.resources is Some
            &&& after.resources matches Some(resources) ==> {
                &&& resources.path_intermediate == renderer.resources->0.path_intermediate
                &&& resources.path_msaa == renderer.resources->0.path_msaa
                &&& renderer.pipelines_current() ==> resources.pipelines == after.pipelines()
            }
            &&& told is Some <==> mode != renderer.surface_config.alpha_mode
                && renderer.resources is Some
            &&& told matches Some(config) ==> config == after.surface_config
        }),
{
}

/// Making a surface what it is already changes nothing.
pub proof fn transparency_settles<H: GpuHandles>(
    renderer: WgpuRenderer<H>,
    transparent: bool,
    between: WgpuRenderer<H>,
    first: Option<SurfaceConfiguration>,
    after: WgpuRenderer<H>,
    second: Option<SurfaceConfiguration>,
)
    requires
        renderer.transparency_step(transparent, between, first),
        between.transparency_step(transparent, after, second),
    ensures
        after == between,
        second is None,
{
}

/// The pipelines of a renderer are those for its own surface, samples, device
/// and instance memory.
pub proof fn pipelines_fit_the_surface<H: GpuHandles>(renderer: WgpuRenderer<H>)
    ensures
        ({
            let pipelines = renderer.pipelines();
            &&& pipelines.quads.format == renderer.surface_config.format
            &&& pipelines.path_rasterization.sample_count
                == renderer.rendering_params.path_sample_count
            &&& pipelines.quads.blend == BlendState::PremultipliedAlphaBlending
                <==> renderer.surface_config.alpha_mode == CompositeAlphaMode::PreMultiplied
            &&& pipelines.shader_source == ShaderSource::WebGl
                <==> renderer.memory.uses_webgl
            &&& pipelines.subpixel_sprites is Some <==> renderer.dual_source_blending
                && renderer.features.has_dual_source_blending() && !renderer.memory.uses_webgl
        }),
{
    reveal(WgpuRenderer::pipelines);
}

/// A surface that takes the place of the old one has the new window's size,
/// never empty, its transparency and, where it is supported, its present mode.
/// Drawing goes on. The format, the device, the atlas, the pipelines and the
/// external frames stay.
pub proof fn new_surface_follows_the_window<H: GpuHandles>(
    renderer: WgpuRenderer<H>,
    config: WgpuSurfaceConfig,
    present_modes: Seq<PresentMode>,
)
    ensures
        ({
            let after = renderer.with_surface(config, present_modes);
            &&& config.size.width >= 1 ==> after.surface_config.width == config.size.width
            &&& config.size.height >= 1 ==> after.surface_config.height == config.size.height
            &&& after.surface_config.width >= 1
            &&& after.surface_config.height >= 1
            &&& config.size.width == 0 ==> after.surface_config.width == 1
            &&& config.size.height == 0 ==> after.surface_config.height == 1
            &&& after.surface_config.alpha_mode == if config.transparent {
                renderer.transparent_alpha_mode
            } else {
                renderer.opaque_alpha_mode
            }
            &&& config.preferred_present_mode matches Some(mode) ==> {
                &&& present_modes.contains(mode) ==> after.surface_config.present_mode == mode
                &&& !present_modes.contains(mode) ==> after.surface_config.present_mode
                    == PresentMode::Fifo
            }
            &&& config.preferred_present_mode is None ==> after.surface_config.present_mode
                == PresentMode::Fifo
            &&& after.surface_config.format == renderer.surface_config.format
            &&& after.surface_config.usage == renderer.surface_config.usage
            &&& after.surface_config.color_space == renderer.surface_config.color_space
            &&& after.surface_config.desired_maximum_frame_latency
                == renderer.surface_config.desired_maximum_frame_latency
            &&& after == (WgpuRenderer {
                surface_config: after.surface_config,
                surface_configured: true,
                resources: after.resources,
                ..renderer
            })
            &&& after.resources == invalidated(renderer.resources)
            &&& after.surface_configured
        }),
{
}

/// Without a surface nothing is drawn until there is a new one. Only the textures
/// for paths go.
pub proof fn surface_comes_back<H: GpuHandles>(
    renderer: WgpuRenderer<H>,
    config: WgpuSurfaceConfig,
    present_modes: Seq<PresentMode>,
)
    ensures
        ({
            let gone = renderer.unconfigured();
            let back = gone.with_surface(config, present_modes);
            &&& !gone.surface_configured
            &&& gone.draw_started(false, false).1 == DrawAction::Stop
            &&& gone == (WgpuRenderer {
                surface_configured: false,
                resources: gone.resources,
                ..renderer
            })
            &&& gone.resources == invalidated(renderer.resources)
            &&& back == renderer.with_surface(config, present_modes)
            &&& back.draw_started(false, false).1 == DrawAction::AcquireTexture
        }),
{
}

/// A lost device is given up, with all of its resources, unless another window
/// has brought the shared context back already. A renderer in this one's place
/// asks for the same size, transparency and present mode.
pub proof fn recovery_starts_over<H: GpuHandles>(
    renderer: WgpuRenderer<H>,
    shared_context_lost: Option<bool>,
)
    ensures
        ({
            let (after, needed) = renderer.recovering(shared_context_lost);
            let asked = renderer.asks_for();
            &&& needed <==> shared_context_lost is None || shared_context_lost->0
            &&& needed ==> after.resources is None
            &&& !needed ==> after == renderer
            &&& after == (WgpuRenderer { resources: after.resources, ..renderer })
            &&& asked.size.width as u32 == renderer.surface_config.width
            &&& asked.size.height as u32 == renderer.surface_config.height
            &&& asked.transparent <==> renderer.surface_config.alpha_mode
                != CompositeAlphaMode::Opaque
            &&& asked.preferred_present_mode == Some(renderer.surface_config.present_mode)
            &&& renderer.viewport() == asked.size
            &&& renderer.surface_config.width <= i32::MAX ==> renderer.viewport().width
                == renderer.surface_config.width
            &&& renderer.surface_config.height <= i32::MAX ==> renderer.viewport().height
                == renderer.surface_config.height
        }),
{
    let width = renderer.surface_config.width;
    let height = renderer.surface_config.height;
    assert((width as i32) as u32 == width) by (bit_vector);
    assert((height as i32) as u32 == height) by (bit_vector);
}

/// Passes onto the surface and path rasterization have the same viewport, and
/// only the former premultiply, where the surface does. Text is drawn with the
/// renderer's own parameters and the panel's subpixel order.
pub proof fn params_follow_the_surface<H: GpuHandles>(
    renderer: WgpuRenderer<H>,
    width: u32,
    height: u32,
)
    ensures
        ({
            let (surface, paths, gamma) = renderer.params(width, height);
            &&& surface.viewport_width == width && paths.viewport_width == width
            &&& surface.viewport_height == height && paths.viewport_height == height
            &&& surface.premultiplied_alpha == 1 <==> renderer.surface_config.alpha_mode
                == CompositeAlphaMode::PreMultiplied
            &&& surface.premultiplied_alpha == 0 <==> renderer.surface_config.alpha_mode
                != CompositeAlphaMode::PreMultiplied
            &&& paths.premultiplied_alpha == 0
            &&& surface.pad == 0 && paths.pad == 0
            &&& gamma.gamma_ratios == renderer.rendering_params.gamma_ratios
            &&& gamma.grayscale_enhanced_contrast
                == renderer.rendering_params.grayscale_enhanced_contrast
            &&& gamma.subpixel_enhanced_contrast
                == renderer.rendering_params.subpixel_enhanced_contrast
            &&& gamma.is_bgr == 1 <==> renderer.is_bgr
            &&& gamma.is_bgr == 0 <==> !renderer.is_bgr
            &&& gamma.pad == 0
        }),
{
}

/// The bind groups of the parameters read the parameters' own parts of the
/// buffer: both the same text parameters, each its own viewport.
pub proof fn bind_groups_read_their_own_parts(layout: UniformLayout)
    ensures
        ({
            let (surface, paths) = layout.groups();
            &&& surface.globals.binding == 0 && paths.globals.binding == 0
            &&& surface.gamma.binding == 1 && paths.gamma == surface.gamma
            &&& surface.globals.offset == 0 && surface.globals.size == 16
            &&& paths.globals.offset == layout.path_globals_offset && paths.globals.size == 16
            &&& surface.gamma.offset == layout.gamma_offset && surface.gamma.size == 32
            &&& surface.label == "globals_bind_group"
            &&& paths.label == "path_globals_bind_group"
        }),
{
}

/// On Vulkan a frame that is handed in waits for the next submission in the
/// place of the one before, whichever kind it is of; that there is none leaves
/// none waiting, and says how bad it is. The frame on screen stays. Elsewhere
/// nothing changes but what is reported.
pub proof fn handed_in_frames_wait<H: GpuHandles>(
    renderer: WgpuRenderer<H>,
    frame: PreparedExternalFrame<H>,
    nv12: ExternalNv12Frame<H>,
)
    ensures
        ({
            let prepared = renderer.handed_in(ExternalFrame::Prepared(frame));
            let requested = renderer.requested(ExternalFrameRequest::Prepared(nv12));
            let transient = renderer.handed_in(ExternalFrame::TransientFailure);
            let fatal = renderer.handed_in(ExternalFrame::FatalFailure);
            &&& renderer.adapter_info.backend == Backend::Vulkan ==> {
                &&& prepared.external_frames.latest == Some(PendingExternalFrame::Prepared(frame))
                &&& requested.external_frames.latest == Some(PendingExternalFrame::Nv12(nv12))
                &&& prepared.last_external_frame_outcome == Some(ExternalFrameOutcome::Accepted)
                &&& requested.last_external_frame_outcome == Some(ExternalFrameOutcome::Accepted)
                &&& transient.external_frames.latest is None
                &&& fatal.external_frames.latest is None
                &&& transient.last_external_frame_outcome == Some(
                    ExternalFrameOutcome::TransientFailure,
                )
                &&& fatal.last_external_frame_outcome == Some(ExternalFrameOutcome::FatalFailure)
            }
            &&& renderer.adapter_info.backend != Backend::Vulkan ==> {
                &&& prepared.external_frames == renderer.external_frames
                &&& requested == prepared && transient == prepared && fatal == prepared
                &&& prepared.last_external_frame_outcome == Some(ExternalFrameOutcome::Unsupported)
            }
            &&& renderer.requested(ExternalFrameRequest::TransientFailure) == transient
            &&& renderer.requested(ExternalFrameRequest::FatalFailure) == fatal
            &&& prepared.external_frames.displayed == renderer.external_frames.displayed
            &&& requested.external_frames.displayed == renderer.external_frames.displayed
            &&& transient.external_frames.displayed == renderer.external_frames.displayed
            &&& fatal.external_frames.displayed == renderer.external_frames.displayed
            &&& prepared == (WgpuRenderer {
                external_frames: prepared.external_frames,
                last_external_frame_outcome: prepared.last_external_frame_outcome,
                ..renderer
            })
        }),
{
}

/// After the external frames were cleared no scene draws one, and nothing else
/// has changed.
pub proof fn clearing_drops_both_frames<H: GpuHandles>(renderer: WgpuRenderer<H>, scene: Scene)
    ensures
        ({
            let after = renderer.cleared();
            &&& after.external_frames.latest is None
            &&& after.external_frames.displayed is None
            &&& after.external_frames.drawn_slot(scene) is None
            &&& after.last_external_frame_outcome == Some(ExternalFrameOutcome::Accepted)
            &&& after == (WgpuRenderer {
                external_frames: after.external_frames,
                last_external_frame_outcome: after.last_external_frame_outcome,
                ..renderer
            })
        }),
{
}

/// What is told of a GPU is what its adapter says, each thing under its name, and
/// a processor that stands in for a GPU is told to be one.
pub proof fn specs_tell_what_the_adapter_says<H: GpuHandles>(
    renderer: WgpuRenderer<H>,
    specs: GpuSpecs,
)
    requires
        specs.told_by(renderer.adapter_info),
    ensures
        specs.device_name@ == renderer.adapter_info.name@,
        specs.driver_name@ == renderer.adapter_info.driver@,
        specs.driver_info@ == renderer.adapter_info.driver_info@,
        specs.is_software_emulated <==> renderer.adapter_info.device_type == DeviceType::Cpu,
{
}

/// Paths are rasterized in as many samples as the format allows, up to four: no
/// count of samples up to four that it allows is larger.
pub proof fn paths_get_the_most_samples(
    flags: u32,
    count: u32,
    gamma_ratios: [u32; 4],
    grayscale: u32,
    subpixel: u32,
)
    ensures
        ({
            let params = RenderingParameters::of(flags, gamma_ratios, grayscale, subpixel);
            &&& params.path_sample_count == path_samples(flags)
            &&& samples_allowed(flags, params.path_sample_count)
            &&& 1 <= params.path_sample_count <= 4
            &&& count <= 4 && samples_allowed(flags, count) ==> count <= params.path_sample_count
            &&& params.gamma_ratios == gamma_ratios
            &&& params.grayscale_enhanced_contrast == grayscale
            &&& params.subpixel_enhanced_contrast == subpixel
        }),
{
}

/// The textures for paths are of the surface's size and format, never empty. The
/// intermediate one is drawn to and sampled, in one sample; where there are more
/// samples, a second one is only drawn to, and is resolved into the first, which
/// it agrees with in size and format.
pub proof fn path_textures_fit_the_surface(
    format: SurfaceFormat,
    width: u32,
    height: u32,
    sample_count: u32,
)
    ensures
        ({
            let intermediate = path_intermediate(format, width, height);
            let msaa = path_msaa(format, width, height, sample_count);
            &&& width >= 1 ==> intermediate.width == width
            &&& height >= 1 ==> intermediate.height == height
            &&& width == 0 ==> intermediate.width == 1
            &&& height == 0 ==> intermediate.height == 1
            &&& intermediate.format == TexelFormat::Surface(format)
            &&& intermediate.sample_count == 1
            &&& intermediate.mip_level_count == 1
            &&& intermediate.depth_or_array_layers == 1
            &&& intermediate.dimension == TextureDimension::D2
            &&& intermediate.usage.render_attachment && intermediate.usage.texture_binding
            &&& !intermediate.usage.copy_dst
            &&& intermediate.label == "path_intermediate"
            &&& msaa is Some <==> sample_count > 1
            &&& msaa matches Some(msaa) ==> {
                &&& msaa.width == intermediate.width
                &&& msaa.height == intermediate.height
                &&& msaa.format == intermediate.format
                &&& msaa.sample_count == sample_count
                &&& msaa.mip_level_count == 1
                &&& msaa.depth_or_array_layers == 1
                &&& msaa.dimension == TextureDimension::D2
                &&& msaa.usage.render_attachment
                &&& !msaa.usage.texture_binding && !msaa.usage.copy_dst
                &&& msaa.label == "path_msaa"
            }
        }),
{
}

/// Once the textures for paths are made, scenes are recorded with the
/// intermediate one, and with a multisampled one exactly where paths have more
/// than one sample. Subpixel text has its own pipeline exactly where there is
/// one.
pub proof fn made_textures_are_drawn_to<H: GpuHandles>(
    renderer: WgpuRenderer<H>,
    resources: WgpuResources,
)
    ensures
        ({
            let made = WgpuRenderer {
                resources: Some(renderer.with_intermediates(resources)),
                ..renderer
            };
            let config = renderer.surface_config;
            let targets = made.targets();
            &&& targets.path_intermediate
            &&& targets.path_msaa <==> renderer.rendering_params.path_sample_count > 1
            &&& targets.subpixel_sprites <==> resources.pipelines.subpixel_sprites is Some
            &&& made.resources->0.pipelines == resources.pipelines
            &&& made.resources->0.path_intermediate == Some(
                path_intermediate(config.format, config.width, config.height),
            )
            &&& made.resources->0.path_msaa == path_msaa(
                config.format,
                config.width,
                config.height,
                renderer.rendering_params.path_sample_count,
            )
            &&& !WgpuRenderer {
                resources: invalidated(made.resources),
                ..made
            }.targets().path_intermediate
        }),
{
}

/// Only a texture that suits the surface is drawn into. Where the surface has
/// changed it is configured again, as it was; where there is no texture this
/// time, the next frame tries again.
pub proof fn only_good_textures_are_drawn_into<H: GpuHandles>(
    renderer: WgpuRenderer<H>,
    answer: CurrentSurfaceTexture,
)
    ensures
        renderer.answered(answer) == AcquiredAction::Draw <==> answer
            == CurrentSurfaceTexture::Success,
        renderer.answered(answer) is Reconfigure <==> answer == CurrentSurfaceTexture::Suboptimal
            || answer == CurrentSurfaceTexture::Outdated || answer == CurrentSurfaceTexture::Lost,
        renderer.answered(answer) matches AcquiredAction::Reconfigure(config) ==> config
            == renderer.surface_config,
{
}

/// A frame is one command buffer, between the transfers of an external image
/// where there is one: taken over before, given back after.
pub proof fn transfers_enclose_the_frame(frame: FrameInProgress)
    ensures
        ({
            let buffers = frame.buffers();
            &&& buffers.len() == if frame.external {
                3int
            } else {
                1
            }
            &&& frame.external ==> {
                &&& buffers.first() == CommandBuffer::Acquire
                &&& buffers[1] == CommandBuffer::Render
                &&& buffers.last() == CommandBuffer::Release
            }
            &&& !frame.external ==> buffers[0] == CommandBuffer::Render
        }),
{
}

/// A frame whose predecessor had no error starts the count of failures again and
/// changes nothing else. Only a browser gives up drawing because of a lost
/// device; elsewhere that makes no difference here.
pub proof fn good_frame_starts_the_count_again<H: GpuHandles>(
    renderer: WgpuRenderer<H>,
    device_lost: bool,
    last_error: bool,
)
    requires
        renderer.surface_configured,
    ensures
        renderer.platform != Platform::Browser ==> renderer.draw_started(device_lost, last_error)
            == renderer.draw_started(false, last_error),
        renderer.draw_started(false, false).0 == (WgpuRenderer {
            failed_frame_count: 0,
            ..renderer
        }),
        renderer.draw_started(false, false).1 == DrawAction::AcquireTexture,
        renderer.looks_at_error(false),
        renderer.looks_at_error(true) <==> renderer.platform != Platform::Browser,
        renderer.draw_started(false, true).1 == DrawAction::AcquireTexture
            ==> renderer.draw_started(false, true).0 == (WgpuRenderer {
            failed_frame_count: (renderer.failed_frame_count + 1) as u32,
            ..renderer
        }),
{
}

/// An error of the last frame is told once, with its place in the row of
/// failures: the one that the renderer has counted after it, or the sixth, after
/// which it counts anew. One that cannot be acted on is kept.
pub proof fn errors_are_told_once<H: GpuHandles>(
    renderer: WgpuRenderer<H>,
    device_lost: bool,
    error: String,
)
    requires
        renderer.failed_frame_count <= 5,
    ensures
        ({
            let (told, kept) = renderer.error_told(device_lost, Some(error));
            let (after, action) = renderer.draw_started(device_lost, true);
            &&& told is Some <==> kept is None
            &&& kept is None || kept == Some(error)
            &&& told matches Some((number, words)) ==> {
                &&& words == error
                &&& action == DrawAction::AcquireTexture ==> number == after.failed_frame_count
                &&& action == DrawAction::ClearAtlas ==> number == 6 && after.failed_frame_count
                    == 0
                &&& action == DrawAction::AcquireTexture || action == DrawAction::ClearAtlas
            }
            &&& told is None ==> action == DrawAction::Stop || action
                == DrawAction::ReportLostContext
            &&& renderer.error_told(device_lost, None).0 is None
            &&& renderer.error_told(device_lost, None).1 is None
        }),
{
}

/// What is asked for once is not told again: a needed redraw and the outcome of
/// an external frame.
pub proof fn asking_clears_the_answer<H: GpuHandles>(renderer: WgpuRenderer<H>)
    ensures
        ({
            let (redrawn, needed) = renderer.redraw_asked();
            let (read, outcome) = renderer.outcome_taken();
            &&& needed == renderer.needs_redraw
            &&& !redrawn.redraw_asked().1
            &&& redrawn == (WgpuRenderer { needs_redraw: false, ..renderer })
            &&& outcome == renderer.last_external_frame_outcome
            &&& read.outcome_taken().1 is None
            &&& read == (WgpuRenderer { last_external_frame_outcome: None, ..renderer })
        }),
{
}

/// Textures for paths are made once: those that fit the surface, where there are
/// none, and no more of them after that until they are dropped.
pub proof fn path_textures_are_made_once<H: GpuHandles>(
    renderer: WgpuRenderer<H>,
    resources: WgpuResources,
)
    requires
        renderer.resources == Some(resources),
    ensures
        ({
            let made = WgpuRenderer {
                resources: Some(renderer.with_intermediates(resources)),
                ..renderer
            };
            let dropped = WgpuRenderer { resources: invalidated(made.resources), ..made };
            &&& renderer.textures_to_make() is Some <==> resources.path_intermediate is None
            &&& renderer.textures_to_make() matches Some((intermediate, msaa)) ==> {
                &&& made.resources->0.path_intermediate == Some(intermediate)
                &&& made.resources->0.path_msaa == msaa
            }
            &&& made.textures_to_make() is None
            &&& dropped.textures_to_make() is Some
        }),
{
}

/// The order of subpixels and the resources are set without touching anything
/// else. The frame on screen is shown where it is prepared.
pub proof fn settings_touch_nothing_else<H: GpuHandles>(
    renderer: WgpuRenderer<H>,
    is_bgr: bool,
    frame: PreparedExternalFrame<H>,
)
    ensures
        renderer.with_subpixel_layout(is_bgr).is_bgr == is_bgr,
        renderer.with_subpixel_layout(is_bgr).with_subpixel_layout(renderer.is_bgr) == renderer,
        renderer.destroyed().resources is None,
        renderer.destroyed() == (WgpuRenderer { resources: None, ..renderer }),
        renderer.shown() == Some(frame) <==> renderer.external_frames.displayed == Some(
            PendingExternalFrame::Prepared(frame),
        ),
{
}

} // verus!
