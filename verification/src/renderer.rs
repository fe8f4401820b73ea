//! The state of a window's renderer and what changes it.
use crate::device::{
    AdapterInfo, Backend, DeviceFeatures, DeviceLimits, DeviceType, Size, TexelFormat,
    TextureDescriptor, TextureDimension, TextureUsage,
};
use crate::external::{
    ExternalFrameAcquisition, ExternalFrameOutcome, GpuHandles, PreparedExternalFrame,
};
use crate::external_state::{
    ExternalFrame, ExternalFrameRequest, ExternalFrameState, PendingExternalFrame,
};
use crate::instances::{extent_bytes, InstanceMemory};
use crate::outside::{sample_count_supported, samples_allowed};
use crate::params::{GammaParams, GlobalParams, UniformLayout};
use crate::pipelines::{create_pipelines, WgpuPipelines};
use crate::surface_config::{
    clamp_extent, clamped_extent, pick_present_mode, preferred_mode, CompositeAlphaMode,
    PresentMode, SurfaceCapabilities, SurfaceConfiguration, SurfaceFormat, SurfaceSetup,
    WgpuSurfaceConfig,
};
use vstd::prelude::*;

verus! {

/// The systems that renderers behave differently on.
#[derive(Clone, Copy, Debug, PartialEq, Eq, Structural)]
pub enum Platform {
    Linux,
    OtherNative,
    Browser,
}

/// Samples per texel for rasterizing paths: the most of four, two and one that
/// the format's feature flags allow.
pub open spec fn path_samples(flags: u32) -> u32 {
    if samples_allowed(flags, 4) {
        4
    } else if samples_allowed(flags, 2) {
        2
    } else {
        1
    }
}

/// Parameters of rendering that stay as they are. The words stand for numbers
/// with fractions.
#[derive(Clone, Copy, Debug, PartialEq, Eq)]
pub struct RenderingParameters {
    pub path_sample_count: u32,
    pub gamma_ratios: [u32; 4],
    pub grayscale_enhanced_contrast: u32,
    pub subpixel_enhanced_contrast: u32,
}

impl RenderingParameters {
    /// The parameters for a surface format with these feature flags.
    pub open spec fn of(
        flags: u32,
        gamma_ratios: [u32; 4],
        grayscale_enhanced_contrast: u32,
        subpixel_enhanced_contrast: u32,
    ) -> RenderingParameters {
        RenderingParameters {
            path_sample_count: path_samples(flags),
            gamma_ratios,
            grayscale_enhanced_contrast,
            subpixel_enhanced_contrast,
        }
    }

    /// The parameters for a surface format with these feature flags.
    pub fn new(
        flags: u32,
        gamma_ratios: [u32; 4],
        grayscale_enhanced_contrast: u32,
        subpixel_enhanced_contrast: u32,
    ) -> (result: RenderingParameters)
        ensures
            result == RenderingParameters::of(
                flags,
                gamma_ratios,
                grayscale_enhanced_contrast,
                subpixel_enhanced_contrast,
            ),
            result == (RenderingParameters {
                path_sample_count: path_samples(flags),
                gamma_ratios,
                grayscale_enhanced_contrast,
                subpixel_enhanced_contrast,
            }),
    {
        let path_sample_count: u32 = if sample_count_supported(flags, 4) {
            4
        } else if sample_count_supported(flags, 2) {
            2
        } else {
            1
        };
        RenderingParameters {
            path_sample_count,
            gamma_ratios,
            grayscale_enhanced_contrast,
            subpixel_enhanced_contrast,
        }
    }
}

/// The texture that paths are rasterized into, of a surface's size.
pub open spec fn path_intermediate(format: SurfaceFormat, width: u32, height: u32) -> TextureDescriptor {
    TextureDescriptor {
        label: "path_intermediate",
        width: clamped_extent(width, u32::MAX),
        height: clamped_extent(height, u32::MAX),
        depth_or_array_layers: 1,
        mip_level_count: 1,
        sample_count: 1,
        dimension: TextureDimension::D2,
        format: TexelFormat::Surface(format),
        usage: TextureUsage { render_attachment: true, texture_binding: true, copy_dst: false },
    }
}

/// The texture that paths are rasterized into, of a surface's size.
pub fn create_path_intermediate(format: SurfaceFormat, width: u32, height: u32) -> (result:
    TextureDescriptor)
    ensures
        result == path_intermediate(format, width, height),
{
    TextureDescriptor {
        label: "path_intermediate",
        width: clamp_extent(width, u32::MAX),
        height: clamp_extent(height, u32::MAX),
        depth_or_array_layers: 1,
        mip_level_count: 1,
        sample_count: 1,
        dimension: TextureDimension::D2,
        format: TexelFormat::Surface(format),
        usage: TextureUsage { render_attachment: true, texture_binding: true, copy_dst: false },
    }
}

/// The multisampled texture that paths are rasterized into first, if there is
/// more than one sample per texel.
pub open spec fn path_msaa(format: SurfaceFormat, width: u32, height: u32, sample_count: u32) -> Option<
    TextureDescriptor,
> {
    if sample_count <= 1 {
        None
    } else {
        Some(
            TextureDescriptor {
                label: "path_msaa",
                width: clamped_extent(width, u32::MAX),
                height: clamped_extent(height, u32::MAX),
                depth_or_array_layers: 1,
                mip_level_count: 1,
                sample_count,
                dimension: TextureDimension::D2,
                format: TexelFormat::Surface(format),
                usage: TextureUsage {
                    render_attachment: true,
                    texture_binding: false,
                    copy_dst: false,
                },
            },
        )
    }
}

/// The multisampled texture that paths are rasterized into first, if there is
/// more than one sample per texel.
pub fn create_msaa_if_needed(
    format: SurfaceFormat,
    width: u32,
    height: u32,
    sample_count: u32,
) -> (result: Option<TextureDescriptor>)
    ensures
        result == path_msaa(format, width, height, sample_count),
{
    if sample_count <= 1 {
        return None;
    }
    Some(
        TextureDescriptor {
            label: "path_msaa",
            width: clamp_extent(width, u32::MAX),
            height: clamp_extent(height, u32::MAX),
            depth_or_array_layers: 1,
            mip_level_count: 1,
            sample_count,
            dimension: TextureDimension::D2,
            format: TexelFormat::Surface(format),
            usage: TextureUsage { render_attachment: true, texture_binding: false, copy_dst: false },
        },
    )
}

/// The GPU resources that a device loss takes away.
#[derive(Clone, Copy, Debug)]
pub struct WgpuResources {
    pub pipelines: WgpuPipelines,
    /// The texture that paths are rasterized into, once it is made.
    pub path_intermediate: Option<TextureDescriptor>,
    /// The multisampled texture that paths are rasterized into first.
    pub path_msaa: Option<TextureDescriptor>,
}

impl WgpuResources {
    /// Without the textures for paths.
    pub open spec fn without_intermediates(self) -> WgpuResources {
        WgpuResources { path_intermediate: None, path_msaa: None, ..self }
    }

    /// Drops the textures for paths.
    pub fn invalidate_intermediate_textures(&mut self)
        ensures
            *final(self) == old(self).without_intermediates(),
    {
        self.path_intermediate = None;
        self.path_msaa = None;
    }
}

/// The resources, if any, without the textures for paths.
pub open spec fn invalidated(resources: Option<WgpuResources>) -> Option<WgpuResources> {
    match resources {
        Some(resources) => Some(resources.without_intermediates()),
        None => None,
    }
}

/// What a GPU says of itself.
#[derive(Debug)]
pub struct GpuSpecs {
    pub is_software_emulated: bool,
    pub device_name: String,
    pub driver_name: String,
    pub driver_info: String,
}

impl GpuSpecs {
    /// This is what the adapter says of itself.
    pub open spec fn told_by(self, info: AdapterInfo) -> bool {
        &&& self.is_software_emulated == (info.device_type == DeviceType::Cpu)
        &&& self.device_name@ == info.name@
        &&& self.driver_name@ == info.driver@
        &&& self.driver_info@ == info.driver_info@
    }
}

/// The device that a renderer is made for.
pub struct RendererDevice {
    pub platform: Platform,
    pub adapter_info: AdapterInfo,
    pub limits: DeviceLimits,
    pub features: DeviceFeatures,
    /// Instance records are in a texture.
    pub uses_webgl_instance_data: bool,
    /// The shared context offers two-source blending.
    pub supports_dual_source_blending: bool,
}

/// A window's renderer.
pub struct WgpuRenderer<H: GpuHandles> {
    pub platform: Platform,
    pub resources: Option<WgpuResources>,
    pub surface_config: SurfaceConfiguration,
    pub atlas: H::Atlas,
    pub uniforms: UniformLayout,
    pub memory: InstanceMemory,
    pub rendering_params: RenderingParameters,
    pub is_bgr: bool,
    pub dual_source_blending: bool,
    pub features: DeviceFeatures,
    pub adapter_info: AdapterInfo,
    pub transparent_alpha_mode: CompositeAlphaMode,
    pub opaque_alpha_mode: CompositeAlphaMode,
    pub max_texture_size: u32,
    pub failed_frame_count: u32,
    pub surface_configured: bool,
    pub needs_redraw: bool,
    pub external_frames: ExternalFrameState<PendingExternalFrame<H>>,
    pub last_external_frame_outcome: Option<ExternalFrameOutcome>,
}

/// What a resize asks for.
#[derive(Clone, Copy, Debug, PartialEq, Eq, Structural)]
pub struct Resize {
    /// The requested size was cut down to the largest texture size.
    pub clamped: bool,
    /// The configuration to give the surface, after the device is idle and the
    /// textures for paths are destroyed.
    pub reconfigure: Option<SurfaceConfiguration>,
}

impl<H: GpuHandles> WgpuRenderer<H> {
    /// The instance memory is sound, the surface is not empty, failures in a row
    /// are acted on before there are six of them, and textures for paths, once
    /// made, are of the surface's size and format.
    pub open spec fn wf(self) -> bool {
        &&& self.memory.wf()
        &&& self.surface_config.width >= 1
        &&& self.surface_config.height >= 1
        &&& self.failed_frame_count <= 5
        &&& self.resources matches Some(resources) ==> {
            ||| resources.path_intermediate is None && resources.path_msaa is None
            ||| resources == self.with_intermediates(resources)
        }
    }

    /// The resources with the textures for paths that the surface asks for.
    pub open spec fn with_intermediates(self, resources: WgpuResources) -> WgpuResources {
        let config = self.surface_config;
        WgpuResources {
            path_intermediate: Some(path_intermediate(config.format, config.width, config.height)),
            path_msaa: path_msaa(
                config.format,
                config.width,
                config.height,
                self.rendering_params.path_sample_count,
            ),
            ..resources
        }
    }

    /// The pipelines are those for the present surface configuration.
    pub open spec fn pipelines_current(self) -> bool {
        self.resources matches Some(resources) ==> resources.pipelines == self.pipelines()
    }

    /// The pipelines for the present surface configuration.
    #[verifier::opaque]
    pub open spec fn pipelines(self) -> WgpuPipelines {
        WgpuPipelines::table(
            self.surface_config.format,
            self.surface_config.alpha_mode,
            self.rendering_params.path_sample_count,
            self.dual_source_blending,
            self.features,
            self.memory.uses_webgl,
        )
    }

    /// The renderer is one for a surface that was just configured as `setup`
    /// says, of which nothing was drawn yet.
    pub open spec fn fresh(
        self,
        setup: SurfaceSetup,
        device: RendererDevice,
        rendering_params: RenderingParameters,
        atlas: H::Atlas,
    ) -> bool {
        &&& self.platform == device.platform
        &&& self.resources == Some(
            WgpuResources {
                pipelines: self.pipelines(),
                path_intermediate: None,
                path_msaa: None,
            },
        )
        &&& self.surface_config == setup.config
        &&& self.atlas == atlas
        &&& self.uniforms == UniformLayout::aligned(
            device.limits.min_uniform_buffer_offset_alignment,
        )
        &&& self.memory == InstanceMemory::initial(device.limits, device.uses_webgl_instance_data)
        &&& self.rendering_params == rendering_params
        &&& !self.is_bgr
        &&& self.dual_source_blending == (device.supports_dual_source_blending
            && !device.uses_webgl_instance_data)
        &&& self.features == device.features
        &&& self.adapter_info == device.adapter_info
        &&& self.transparent_alpha_mode == setup.transparent_alpha_mode
        &&& self.opaque_alpha_mode == setup.opaque_alpha_mode
        &&& self.max_texture_size == setup.max_texture_size
        &&& self.failed_frame_count == 0
        &&& self.surface_configured
        &&& !self.needs_redraw
        &&& self.external_frames.latest is None
        &&& self.external_frames.displayed is None
        &&& self.last_external_frame_outcome is None
    }

    /// A renderer for a surface that was just configured as `setup` says.
    pub fn new_internal(
        setup: SurfaceSetup,
        device: RendererDevice,
        rendering_params: RenderingParameters,
        atlas: H::Atlas,
    ) -> (result: Self)
        requires
            device.limits.min_uniform_buffer_offset_alignment > 0,
            device.uses_webgl_instance_data ==> extent_bytes(
                device.limits.max_texture_dimension_2d as int,
                device.limits.max_texture_dimension_2d as int,
            ) <= u64::MAX,
            setup.config.width >= 1,
            setup.config.height >= 1,
        ensures
            result.wf(),
            result.fresh(setup, device, rendering_params, atlas),
            result.platform == device.platform,
            result.resources == Some(
                WgpuResources {
                    pipelines: result.pipelines(),
                    path_intermediate: None,
                    path_msaa: None,
                },
            ),
            result.surface_config == setup.config,
            result.atlas == atlas,
            result.uniforms == UniformLayout::aligned(
                device.limits.min_uniform_buffer_offset_alignment,
            ),
            result.memory == InstanceMemory::initial(
                device.limits,
                device.uses_webgl_instance_data,
            ),
            result.rendering_params == rendering_params,
            !result.is_bgr,
            result.dual_source_blending == (device.supports_dual_source_blending
                && !device.uses_webgl_instance_data),
            result.features == device.features,
            result.adapter_info == device.adapter_info,
            result.transparent_alpha_mode == setup.transparent_alpha_mode,
            result.opaque_alpha_mode == setup.opaque_alpha_mode,
            result.max_texture_size == setup.max_texture_size,
            result.failed_frame_count == 0,
            result.surface_configured,
            !result.needs_redraw,
            result.external_frames.latest is None,
            result.external_frames.displayed is None,
            result.last_external_frame_outcome is None,
    {
        proof {
            reveal(WgpuRenderer::pipelines);
        }
        let uses_webgl: bool = device.uses_webgl_instance_data;
        let dual_source_blending: bool = device.supports_dual_source_blending && !uses_webgl;
        let pipelines = create_pipelines(
            setup.config.format,
            setup.config.alpha_mode,
            rendering_params.path_sample_count,
            dual_source_blending,
            &device.features,
            uses_webgl,
        );
        let uniforms = UniformLayout::new(device.limits.min_uniform_buffer_offset_alignment);
        let memory = InstanceMemory::new(&device.limits, uses_webgl);
        WgpuRenderer {
            platform: device.platform,
            resources: Some(
                WgpuResources { pipelines, path_intermediate: None, path_msaa: None },
            ),
            surface_config: setup.config,
            atlas,
            uniforms,
            memory,
            rendering_params,
            is_bgr: false,
            dual_source_blending,
            features: device.features,
            adapter_info: device.adapter_info,
            transparent_alpha_mode: setup.transparent_alpha_mode,
            opaque_alpha_mode: setup.opaque_alpha_mode,
            max_texture_size: setup.max_texture_size,
            failed_frame_count: 0,
            surface_configured: true,
            needs_redraw: false,
            external_frames: ExternalFrameState::default(),
            last_external_frame_outcome: None,
        }
    }

    /// The GPU resources.
    pub fn resources(&self) -> (result: &WgpuResources)
        requires
            self.resources is Some,
        ensures
            self.resources == Some(*result),
    {
        self.resources.as_ref().unwrap()
    }

    /// The GPU resources, to be changed.
    pub fn resources_mut(&mut self) -> (result: &mut WgpuResources)
        requires
            old(self).resources is Some,
        ensures
            old(self).resources == Some(*result),
            *final(self) == (WgpuRenderer { resources: Some(*final(result)), ..*old(self) }),
    {
        self.resources.as_mut().unwrap()
    }

    /// The state after an external frame was staged.
    pub open spec fn staged(
        self,
        acquisition: ExternalFrameAcquisition,
        frame: Option<PendingExternalFrame<H>>,
    ) -> Self {
        WgpuRenderer {
            external_frames: self.external_frames.staged(
                self.adapter_info.backend,
                acquisition,
                frame,
            ),
            last_external_frame_outcome: Some(
                ExternalFrameOutcome::of(self.adapter_info.backend, acquisition),
            ),
            ..self
        }
    }

    /// The state after a producer handed in a frame, or the news that there is
    /// none.
    pub open spec fn handed_in(self, frame: ExternalFrame<H>) -> Self {
        match frame {
            ExternalFrame::Prepared(frame) => self.staged(
                ExternalFrameAcquisition::Prepared,
                Some(PendingExternalFrame::Prepared(frame)),
            ),
            ExternalFrame::TransientFailure => self.staged(
                ExternalFrameAcquisition::TransientFailure,
                None,
            ),
            ExternalFrame::FatalFailure => self.staged(
                ExternalFrameAcquisition::FatalFailure,
                None,
            ),
        }
    }

    /// The state after a producer handed in an NV12 frame, or the news that
    /// there is none.
    pub open spec fn requested(self, request: ExternalFrameRequest<H>) -> Self {
        match request {
            ExternalFrameRequest::Prepared(frame) => self.staged(
                ExternalFrameAcquisition::Prepared,
                Some(PendingExternalFrame::Nv12(frame)),
            ),
            ExternalFrameRequest::TransientFailure => self.staged(
                ExternalFrameAcquisition::TransientFailure,
                None,
            ),
            ExternalFrameRequest::FatalFailure => self.staged(
                ExternalFrameAcquisition::FatalFailure,
                None,
            ),
        }
    }

    /// The state after the external frames were cleared.
    pub open spec fn cleared(self) -> Self {
        WgpuRenderer {
            external_frames: ExternalFrameState { latest: None, displayed: None },
            last_external_frame_outcome: Some(ExternalFrameOutcome::Accepted),
            ..self
        }
    }

    /// Stages the latest prepared external frame or reports its acquisition
    /// failure. The displayed frame changes only when normal drawing reaches a
    /// successful queue submission. Only Vulkan renderers accept this seam;
    /// other backends return [`ExternalFrameOutcome::Unsupported`] without
    /// changing normal drawing.
    pub fn submit_external_frame(&mut self, frame: ExternalFrame<H>) -> (result:
        ExternalFrameOutcome)
        ensures
            *final(self) == old(self).handed_in(frame),
            match frame {
                ExternalFrame::Prepared(frame) => {
                    &&& *final(self) == old(self).staged(
                        ExternalFrameAcquisition::Prepared,
                        Some(PendingExternalFrame::Prepared(frame)),
                    )
                },
                ExternalFrame::TransientFailure => {
                    &&& *final(self) == old(self).staged(
                        ExternalFrameAcquisition::TransientFailure,
                        None,
                    )
                },
                ExternalFrame::FatalFailure => {
                    &&& *final(self) == old(self).staged(
                        ExternalFrameAcquisition::FatalFailure,
                        None,
                    )
                },
            },
            final(self).last_external_frame_outcome == Some(result),
            final(self).external_frames.displayed == old(self).external_frames.displayed,
    {
        let (acquisition, frame) = match frame {
            ExternalFrame::Prepared(frame) => (
                ExternalFrameAcquisition::Prepared,
                Some(PendingExternalFrame::Prepared(frame)),
            ),
            ExternalFrame::TransientFailure => (ExternalFrameAcquisition::TransientFailure, None),
            ExternalFrame::FatalFailure => (ExternalFrameAcquisition::FatalFailure, None),
        };
        let outcome = self.external_frames.stage(self.adapter_info.backend, acquisition, frame);
        self.last_external_frame_outcome = Some(outcome);
        outcome
    }

    /// Stages a typed external NV12 request for the next normal submission.
    pub fn submit_external_frame_request(&mut self, request: ExternalFrameRequest<H>) -> (result:
        ExternalFrameOutcome)
        ensures
            *final(self) == old(self).requested(request),
            match request {
                ExternalFrameRequest::Prepared(frame) => {
                    &&& *final(self) == old(self).staged(
                        ExternalFrameAcquisition::Prepared,
                        Some(PendingExternalFrame::Nv12(frame)),
                    )
                },
                ExternalFrameRequest::TransientFailure => {
                    &&& *final(self) == old(self).staged(
                        ExternalFrameAcquisition::TransientFailure,
                        None,
                    )
                },
                ExternalFrameRequest::FatalFailure => {
                    &&& *final(self) == old(self).staged(
                        ExternalFrameAcquisition::FatalFailure,
                        None,
                    )
                },
            },
            final(self).last_external_frame_outcome == Some(result),
            final(self).external_frames.displayed == old(self).external_frames.displayed,
    {
        let (acquisition, frame) = match request {
            ExternalFrameRequest::Prepared(frame) => (
                ExternalFrameAcquisition::Prepared,
                Some(PendingExternalFrame::Nv12(frame)),
            ),
            ExternalFrameRequest::TransientFailure => (
                ExternalFrameAcquisition::TransientFailure,
                None,
            ),
            ExternalFrameRequest::FatalFailure => (ExternalFrameAcquisition::FatalFailure, None),
        };
        let outcome = self.external_frames.stage(self.adapter_info.backend, acquisition, frame);
        self.last_external_frame_outcome = Some(outcome);
        outcome
    }

    /// Clears pending and displayed external frames without submitting GPU work.
    ///
    /// Successful external draws already gave the image back to its external
    /// queue family; what has to live until their work is done was handed out.
    /// A never-submitted latest frame remains producer-owned, so dropping it
    /// needs no transfer or submission.
    pub fn clear_external_frame(&mut self) -> (result: ExternalFrameOutcome)
        ensures
            result == ExternalFrameOutcome::Accepted,
            *final(self) == old(self).cleared(),
            *final(self) == (WgpuRenderer {
                external_frames: ExternalFrameState { latest: None, displayed: None },
                last_external_frame_outcome: Some(ExternalFrameOutcome::Accepted),
                ..*old(self)
            }),
    {
        self.external_frames.clear();
        self.last_external_frame_outcome = Some(ExternalFrameOutcome::Accepted);
        ExternalFrameOutcome::Accepted
    }

    /// The external frame on screen, where it is prepared.
    pub open spec fn shown(self) -> Option<PreparedExternalFrame<H>> {
        match self.external_frames.displayed {
            Some(PendingExternalFrame::Prepared(frame)) => Some(frame),
            _ => None,
        }
    }

    /// The last accepted and presented external frame.
    pub fn displayed_external_frame(&self) -> (result: Option<&PreparedExternalFrame<H>>)
        ensures
            match self.external_frames.displayed {
                Some(PendingExternalFrame::Prepared(frame)) => result == Some(&frame),
                _ => result is None,
            },
            match result {
                Some(frame) => self.shown() == Some(*frame),
                None => self.shown() is None,
            },
    {
        match self.external_frames.displayed() {
            Some(PendingExternalFrame::Prepared(frame)) => Some(frame),
            _ => None,
        }
    }

    /// The renderer after its outcome was taken, and the outcome.
    pub open spec fn outcome_taken(self) -> (Self, Option<ExternalFrameOutcome>) {
        (
            WgpuRenderer { last_external_frame_outcome: None, ..self },
            self.last_external_frame_outcome,
        )
    }

    /// Takes the outcome of the most recent external-frame submission or
    /// synchronization attempt.
    pub fn take_external_frame_outcome(&mut self) -> (result: Option<ExternalFrameOutcome>)
        ensures
            (*final(self), result) == old(self).outcome_taken(),
            result == old(self).last_external_frame_outcome,
            *final(self) == (WgpuRenderer { last_external_frame_outcome: None, ..*old(self) }),
    {
        self.last_external_frame_outcome.take()
    }

    /// The renderer after its surface was given another size: cut down to the
    /// largest texture size, and never empty. The textures for paths go.
    pub open spec fn resized(self, width: u32, height: u32) -> Self {
        WgpuRenderer {
            surface_config: SurfaceConfiguration {
                width: clamped_extent(width, self.max_texture_size),
                height: clamped_extent(height, self.max_texture_size),
                ..self.surface_config
            },
            resources: invalidated(self.resources),
            ..self
        }
    }

    /// The renderer after a size was asked for, and what the surface is to be
    /// told, if the size is another one.
    pub open spec fn resize_to(self, width: u32, height: u32) -> (Self, Option<Resize>) {
        let resized = self.resized(width, height);
        if width == self.surface_config.width && height == self.surface_config.height {
            (self, None)
        } else {
            (
                resized,
                Some(
                    Resize {
                        clamped: width > self.max_texture_size || height > self.max_texture_size,
                        reconfigure: if self.resources is Some {
                            Some(resized.surface_config)
                        } else {
                            None
                        },
                    },
                ),
            )
        }
    }

    /// Gives the surface another size. Where the size is the present one,
    /// nothing happens.
    pub fn update_drawable_size(&mut self, size: Size) -> (result: Option<Resize>)
        requires
            old(self).wf(),
        ensures
            final(self).wf(),
            (*final(self), result) == old(self).resize_to(size.width as u32, size.height as u32),
            ({
                let width = size.width as u32;
                let height = size.height as u32;
                let config = old(self).surface_config;
                if width == config.width && height == config.height {
                    &&& *final(self) == *old(self)
                    &&& result is None
                } else {
                    &&& *final(self) == old(self).resized(width, height)
                    &&& result == Some(
                        Resize {
                            clamped: width > old(self).max_texture_size || height > old(self).max_texture_size,
                            reconfigure: if old(self).resources is Some {
                                Some(final(self).surface_config)
                            } else {
                                None
                            },
                        },
                    )
                }
            }),
            old(self).pipelines_current() ==> final(self).pipelines_current(),
    {
        proof {
            reveal(WgpuRenderer::pipelines);
        }
        let width: u32 = #[verifier::truncate] (size.width as u32);
        let height: u32 = #[verifier::truncate] (size.height as u32);
        if width == self.surface_config.width && height == self.surface_config.height {
            return None;
        }
        let clamped: bool = width > self.max_texture_size || height > self.max_texture_size;
        self.surface_config.width = clamp_extent(width, self.max_texture_size);
        self.surface_config.height = clamp_extent(height, self.max_texture_size);
        if self.resources.is_none() {
            return Some(Resize { clamped, reconfigure: None });
        }
        self.resources_mut().invalidate_intermediate_textures();
        Some(Resize { clamped, reconfigure: Some(self.surface_config) })
    }

    /// The textures for paths that have yet to be made, if any.
    pub open spec fn textures_to_make(self) -> Option<
        (TextureDescriptor, Option<TextureDescriptor>),
    > {
        let config = self.surface_config;
        match self.resources->0.path_intermediate {
            Some(_) => None,
            None => Some(
                (
                    path_intermediate(config.format, config.width, config.height),
                    path_msaa(
                        config.format,
                        config.width,
                        config.height,
                        self.rendering_params.path_sample_count,
                    ),
                ),
            ),
        }
    }

    /// Describes the textures for paths that have yet to be made, if any.
    pub fn ensure_intermediate_textures(&mut self) -> (result: Option<
        (TextureDescriptor, Option<TextureDescriptor>),
    >)
        requires
            old(self).wf(),
            old(self).resources is Some,
        ensures
            final(self).wf(),
            *final(self) == (WgpuRenderer {
                resources: Some(old(self).with_intermediates(old(self).resources->0)),
                ..*old(self)
            }),
            result == old(self).textures_to_make(),
            match old(self).resources->0.path_intermediate {
                Some(_) => result is None,
                None => result matches Some((intermediate, msaa)) && final(self).resources->0.path_intermediate == Some(intermediate) && final(self).resources->0.path_msaa == msaa,
            },
    {
        if self.resources().path_intermediate.is_some() {
            return None;
        }
        let format = self.surface_config.format;
        let width: u32 = self.surface_config.width;
        let height: u32 = self.surface_config.height;
        let intermediate = create_path_intermediate(format, width, height);
        let msaa = create_msaa_if_needed(
            format,
            width,
            height,
            self.rendering_params.path_sample_count,
        );
        let resources = self.resources_mut();
        resources.path_intermediate = Some(intermediate);
        resources.path_msaa = msaa;
        Some((intermediate, msaa))
    }

    /// The renderer for a panel with that order of subpixels.
    pub open spec fn with_subpixel_layout(self, is_bgr: bool) -> Self {
        WgpuRenderer { is_bgr, ..self }
    }

    /// Sets the order of the panel's subpixels.
    pub fn set_subpixel_layout(&mut self, is_bgr: bool)
        ensures
            *final(self) == old(self).with_subpixel_layout(is_bgr),
            *final(self) == (WgpuRenderer { is_bgr, ..*old(self) }),
    {
        self.is_bgr = is_bgr;
    }

    /// The alpha mode of a surface that is transparent or not.
    pub open spec fn alpha_mode_for(self, transparent: bool) -> CompositeAlphaMode {
        if transparent {
            self.transparent_alpha_mode
        } else {
            self.opaque_alpha_mode
        }
    }

    /// What making the surface transparent or opaque makes of the renderer, and
    /// the configuration to give the surface, if any.
    pub open spec fn transparency_step(
        self,
        transparent: bool,
        after: Self,
        told: Option<SurfaceConfiguration>,
    ) -> bool {
        let mode = self.alpha_mode_for(transparent);
        let config = SurfaceConfiguration { alpha_mode: mode, ..self.surface_config };
        if mode == self.surface_config.alpha_mode {
            &&& after == self
            &&& told is None
        } else if let Some(resources) = self.resources {
            &&& after == (WgpuRenderer {
                surface_config: config,
                resources: Some(WgpuResources { pipelines: after.pipelines(), ..resources }),
                ..self
            })
            &&& told == Some(config)
        } else {
            &&& after == (WgpuRenderer { surface_config: config, ..self })
            &&& told is None
        }
    }

    /// Makes the pipelines anew, for the present surface configuration.
    fn renew_pipelines(&mut self)
        requires
            old(self).wf(),
            old(self).resources is Some,
        ensures
            final(self).wf(),
            *final(self) == (WgpuRenderer {
                resources: Some(
                    WgpuResources {
                        pipelines: final(self).pipelines(),
                        ..old(self).resources->0
                    },
                ),
                ..*old(self)
            }),
    {
        proof {
            reveal(WgpuRenderer::pipelines);
        }
        let pipelines = create_pipelines(
            self.surface_config.format,
            self.surface_config.alpha_mode,
            self.rendering_params.path_sample_count,
            self.dual_source_blending,
            &self.features,
            self.memory.uses_webgl,
        );
        self.resources_mut().pipelines = pipelines;
    }

    /// Makes the surface transparent or opaque. Gives the configuration to give
    /// the surface, where that changes; the pipelines change with it.
    pub fn update_transparency(&mut self, transparent: bool) -> (result: Option<
        SurfaceConfiguration,
    >)
        requires
            old(self).wf(),
        ensures
            final(self).wf(),
            old(self).transparency_step(transparent, *final(self), result),
            ({
                let mode = old(self).alpha_mode_for(transparent);
                let config = SurfaceConfiguration {
                    alpha_mode: mode,
                    ..old(self).surface_config
                };
                if mode == old(self).surface_config.alpha_mode {
                    &&& *final(self) == *old(self)
                    &&& result is None
                } else if let Some(resources) = old(self).resources {
                    &&& *final(self) == (WgpuRenderer {
                        surface_config: config,
                        resources: Some(
                            WgpuResources { pipelines: final(self).pipelines(), ..resources },
                        ),
                        ..*old(self)
                    })
                    &&& result == Some(config)
                } else {
                    &&& *final(self) == (WgpuRenderer { surface_config: config, ..*old(self) })
                    &&& result is None
                }
            }),
            old(self).pipelines_current() ==> final(self).pipelines_current(),
    {
        let mode = if transparent {
            self.transparent_alpha_mode
        } else {
            self.opaque_alpha_mode
        };
        if mode == self.surface_config.alpha_mode {
            return None;
        }
        self.surface_config.alpha_mode = mode;
        if self.resources.is_none() {
            return None;
        }
        self.renew_pipelines();
        Some(self.surface_config)
    }

    /// The surface's size.
    pub open spec fn viewport(self) -> Size {
        Size {
            width: self.surface_config.width as i32,
            height: self.surface_config.height as i32,
        }
    }

    /// The surface's size.
    pub fn viewport_size(&self) -> (result: Size)
        ensures
            result == self.viewport(),
            result == (Size {
                width: self.surface_config.width as i32,
                height: self.surface_config.height as i32,
            }),
    {
        Size {
            width: #[verifier::truncate] (self.surface_config.width as i32),
            height: #[verifier::truncate] (self.surface_config.height as i32),
        }
    }

    /// The shared sprite atlas.
    pub fn sprite_atlas(&self) -> (result: &H::Atlas)
        ensures
            *result == self.atlas,
    {
        &self.atlas
    }

    /// Whether text is blended with two sources.
    pub fn supports_dual_source_blending(&self) -> (result: bool)
        ensures
            result == self.dual_source_blending,
    {
        self.dual_source_blending
    }

    /// What the GPU says of itself.
    pub fn gpu_specs(&self) -> (result: GpuSpecs)
        ensures
            result.told_by(self.adapter_info),
            result.is_software_emulated == (self.adapter_info.device_type == DeviceType::Cpu),
            result.device_name@ == self.adapter_info.name@,
            result.driver_name@ == self.adapter_info.driver@,
            result.driver_info@ == self.adapter_info.driver_info@,
    {
        GpuSpecs {
            is_software_emulated: self.adapter_info.device_type == DeviceType::Cpu,
            device_name: self.adapter_info.name.clone(),
            driver_name: self.adapter_info.driver.clone(),
            driver_info: self.adapter_info.driver_info.clone(),
        }
    }

    /// The largest width and height of a texture.
    pub fn max_texture_size(&self) -> (result: u32)
        ensures
            result == self.max_texture_size,
    {
        self.max_texture_size
    }

    /// The parameters of the surface's passes, of path rasterization and of
    /// text.
    pub open spec fn params(self, viewport_width: u32, viewport_height: u32) -> (
        GlobalParams,
        GlobalParams,
        GammaParams,
    ) {
        let globals = GlobalParams::of(
            viewport_width,
            viewport_height,
            self.surface_config.alpha_mode,
        );
        (
            globals,
            globals.of_paths(),
            GammaParams::of(
                self.rendering_params.gamma_ratios,
                self.rendering_params.grayscale_enhanced_contrast,
                self.rendering_params.subpixel_enhanced_contrast,
                self.is_bgr,
            ),
        )
    }

    /// The parameters of the surface's passes, of path rasterization and of
    /// text. The viewport's words stand for numbers with fractions.
    pub fn uniform_params(&self, viewport_width: u32, viewport_height: u32) -> (result: (
        GlobalParams,
        GlobalParams,
        GammaParams,
    ))
        ensures
            result == self.params(viewport_width, viewport_height),
            result.0 == GlobalParams::of(
                viewport_width,
                viewport_height,
                self.surface_config.alpha_mode,
            ),
            result.1 == (GlobalParams { premultiplied_alpha: 0, ..result.0 }),
            result.2 == (GammaParams {
                gamma_ratios: self.rendering_params.gamma_ratios,
                grayscale_enhanced_contrast: self.rendering_params.grayscale_enhanced_contrast,
                subpixel_enhanced_contrast: self.rendering_params.subpixel_enhanced_contrast,
                is_bgr: if self.is_bgr {
                    1
                } else {
                    0
                },
                pad: 0,
            }),
    {
        let gamma_params = GammaParams::new(
            self.rendering_params.gamma_ratios,
            self.rendering_params.grayscale_enhanced_contrast,
            self.rendering_params.subpixel_enhanced_contrast,
            self.is_bgr,
        );
        let globals = GlobalParams::new(
            viewport_width,
            viewport_height,
            self.surface_config.alpha_mode,
        );
        (globals, globals.for_paths(), gamma_params)
    }

    /// The renderer without a surface to draw on.
    pub open spec fn unconfigured(self) -> Self {
        WgpuRenderer {
            surface_configured: false,
            resources: invalidated(self.resources),
            ..self
        }
    }

    /// The renderer after it took over a new surface.
    pub open spec fn with_surface(
        self,
        config: WgpuSurfaceConfig,
        present_modes: Seq<PresentMode>,
    ) -> Self {
        WgpuRenderer {
            surface_config: SurfaceConfiguration {
                width: clamped_extent(config.size.width as u32, u32::MAX),
                height: clamped_extent(config.size.height as u32, u32::MAX),
                alpha_mode: self.alpha_mode_for(config.transparent),
                present_mode: preferred_mode(config.preferred_present_mode, present_modes),
                ..self.surface_config
            },
            surface_configured: true,
            resources: invalidated(self.resources),
            ..self
        }
    }

    /// Marks the surface as unconfigured, so that drawing waits until there is
    /// a new one. The device, the atlas and the pipelines stay.
    pub fn unconfigure_surface(&mut self)
        requires
            old(self).wf(),
        ensures
            final(self).wf(),
            *final(self) == old(self).unconfigured(),
            *final(self) == (WgpuRenderer {
                surface_configured: false,
                resources: invalidated(old(self).resources),
                ..*old(self)
            }),
    {
        self.surface_configured = false;
        if self.resources.is_some() {
            self.resources_mut().invalidate_intermediate_textures();
        }
    }

    /// Takes over a new surface, which supports `present_modes`, and gives its
    /// configuration. The device, the atlas and the pipelines stay as they are;
    /// the textures for paths go.
    pub fn replace_surface(
        &mut self,
        config: &WgpuSurfaceConfig,
        present_modes: &Vec<PresentMode>,
    ) -> (result: SurfaceConfiguration)
        requires
            old(self).wf(),
            old(self).resources is Some,
        ensures
            final(self).wf(),
            *final(self) == old(self).with_surface(*config, present_modes@),
            result == final(self).surface_config,
            result == (SurfaceConfiguration {
                width: clamped_extent(config.size.width as u32, u32::MAX),
                height: clamped_extent(config.size.height as u32, u32::MAX),
                alpha_mode: old(self).alpha_mode_for(config.transparent),
                present_mode: preferred_mode(config.preferred_present_mode, present_modes@),
                ..old(self).surface_config
            }),
            *final(self) == (WgpuRenderer {
                surface_config: result,
                surface_configured: true,
                resources: invalidated(old(self).resources),
                ..*old(self)
            }),
    {
        let width: u32 = #[verifier::truncate] (config.size.width as u32);
        let height: u32 = #[verifier::truncate] (config.size.height as u32);
        let alpha_mode = if config.transparent {
            self.transparent_alpha_mode
        } else {
            self.opaque_alpha_mode
        };
        self.surface_config.width = clamp_extent(width, u32::MAX);
        self.surface_config.height = clamp_extent(height, u32::MAX);
        self.surface_config.alpha_mode = alpha_mode;
        self.surface_config.present_mode = pick_present_mode(
            config.preferred_present_mode,
            present_modes,
        );
        self.resources_mut().invalidate_intermediate_textures();
        self.surface_configured = true;
        self.surface_config
    }

    /// The renderer without its GPU resources.
    pub open spec fn destroyed(self) -> Self {
        WgpuRenderer { resources: None, ..self }
    }

    /// The renderer after it was asked for a redraw, and whether one is needed.
    pub open spec fn redraw_asked(self) -> (Self, bool) {
        (WgpuRenderer { needs_redraw: false, ..self }, self.needs_redraw)
    }

    /// Drops the GPU resources, so that the window can go before the renderer.
    pub fn destroy(&mut self)
        ensures
            *final(self) == old(self).destroyed(),
            *final(self) == (WgpuRenderer { resources: None, ..*old(self) }),
    {
        self.resources = None;
    }

    /// Whether a redraw is needed because GPU state was cleared. Asking clears
    /// the flag.
    pub fn needs_redraw(&mut self) -> (result: bool)
        ensures
            (*final(self), result) == old(self).redraw_asked(),
            result == old(self).needs_redraw,
            *final(self) == (WgpuRenderer { needs_redraw: false, ..*old(self) }),
    {
        let needs_redraw: bool = self.needs_redraw;
        self.needs_redraw = false;
        needs_redraw
    }

    /// The renderer after the recovery from a lost device started, and whether
    /// a new context is needed.
    pub open spec fn recovering(self, shared_context_lost: Option<bool>) -> (Self, bool) {
        match shared_context_lost {
            Some(false) => (self, false),
            _ => (WgpuRenderer { resources: None, ..self }, true),
        }
    }

    /// What a renderer in this one's place asks of its surface.
    pub open spec fn asks_for(self) -> WgpuSurfaceConfig {
        WgpuSurfaceConfig {
            size: self.viewport(),
            transparent: self.surface_config.alpha_mode != CompositeAlphaMode::Opaque,
            preferred_present_mode: Some(self.surface_config.present_mode),
        }
    }

    /// Starts the recovery from a lost device. `shared_context_lost` tells
    /// whether the device of the shared context, if there is one, was lost too;
    /// where it was not, another window has recovered already. Tells whether a
    /// new context is needed, for which the old resources were dropped.
    pub fn recover(&mut self, shared_context_lost: Option<bool>) -> (result: bool)
        ensures
            (*final(self), result) == old(self).recovering(shared_context_lost),
            result == (shared_context_lost != Some(false)),
            *final(self) == (WgpuRenderer {
                resources: if result {
                    None
                } else {
                    old(self).resources
                },
                ..*old(self)
            }),
    {
        let needs_new_context: bool = match shared_context_lost {
            Some(lost) => lost,
            None => true,
        };
        if needs_new_context {
            self.resources = None;
        }
        needs_new_context
    }

    /// Drops the resources of the lost device, and gives the configuration that
    /// a renderer in this one's place asks for.
    pub fn recovery_config(&mut self) -> (result: WgpuSurfaceConfig)
        ensures
            result == old(self).asks_for(),
            *final(self) == old(self).destroyed(),
            result == (WgpuSurfaceConfig {
                size: Size {
                    width: old(self).surface_config.width as i32,
                    height: old(self).surface_config.height as i32,
                },
                transparent: old(self).surface_config.alpha_mode != CompositeAlphaMode::Opaque,
                preferred_present_mode: Some(old(self).surface_config.present_mode),
            }),
            *final(self) == (WgpuRenderer { resources: None, ..*old(self) }),
    {
        let config = WgpuSurfaceConfig {
            size: self.viewport_size(),
            transparent: self.surface_config.alpha_mode != CompositeAlphaMode::Opaque,
            preferred_present_mode: Some(self.surface_config.present_mode),
        };
        self.resources = None;
        config
    }
}

/// Milliseconds that a recovery waits for the driver before it makes a new
/// context.
pub const RECOVERY_WAIT_MILLIS: u64 = 350;

/// A resize to a size that the surface can have settles: asking for the same
/// size again finds it in place.
pub proof fn resize_settles<H: GpuHandles>(renderer: WgpuRenderer<H>, width: u32, height: u32)
    requires
        1 <= width <= renderer.max_texture_size,
        1 <= height <= renderer.max_texture_size,
    ensures
        renderer.resized(width, height).surface_config.width == width,
        renderer.resized(width, height).surface_config.height == height,
{
}

/// However large or small the requested size, the surface is never empty, and
/// never larger than the largest texture.
pub proof fn resize_stays_within_bounds<H: GpuHandles>(
    renderer: WgpuRenderer<H>,
    width: u32,
    height: u32,
)
    ensures
        ({
            let config = renderer.resized(width, height).surface_config;
            &&& 1 <= config.width
            &&& 1 <= config.height
            &&& renderer.max_texture_size >= 1 ==> config.width <= renderer.max_texture_size
            &&& renderer.max_texture_size >= 1 ==> config.height <= renderer.max_texture_size
        }),
{
}

/// A renderer that takes the place of one whose device was lost has the old
/// one's size, as far as its own device allows, and its present mode, where its
/// surface supports that.
pub proof fn recovery_keeps_size_and_present_mode<H: GpuHandles>(
    renderer: WgpuRenderer<H>,
    capabilities: SurfaceCapabilities,
    max_texture_size: u32,
)
    ensures
        ({
            let config = renderer.surface_config;
            let asked = WgpuSurfaceConfig {
                size: Size { width: config.width as i32, height: config.height as i32 },
                transparent: config.alpha_mode != CompositeAlphaMode::Opaque,
                preferred_present_mode: Some(config.present_mode),
            };
            let recovered = SurfaceSetup::chosen(capabilities, asked, max_texture_size).config;
            &&& recovered.width == clamped_extent(config.width, max_texture_size)
            &&& recovered.height == clamped_extent(config.height, max_texture_size)
            &&& capabilities.present_modes@.contains(config.present_mode)
                ==> recovered.present_mode == config.present_mode
        }),
{
    let width = renderer.surface_config.width;
    let height = renderer.surface_config.height;
    assert((width as i32) as u32 == width) by (bit_vector);
    assert((height as i32) as u32 == height) by (bit_vector);
}

/// On backends other than Vulkan, staging an external frame leaves everything
/// but the reported outcome as it was.
pub proof fn other_backends_report_and_change_nothing<H: GpuHandles>(
    renderer: WgpuRenderer<H>,
    acquisition: ExternalFrameAcquisition,
    frame: Option<PendingExternalFrame<H>>,
)
    requires
        renderer.adapter_info.backend != Backend::Vulkan,
    ensures
        renderer.staged(acquisition, frame) == (WgpuRenderer {
            last_external_frame_outcome: Some(ExternalFrameOutcome::Unsupported),
            ..renderer
        }),
{
}

} // verus!
