//! Frames that another producer renders, and their way onto the screen.
use crate::device::{Backend, DeviceFeatures, TextureDimension, TextureUsage};
use crate::outside::{
    error_initialization_failed, queue_family_external, queue_family_foreign,
    texture_uses_complex, texture_uses_contains, texture_uses_intersects, texture_uses_is_empty,
    texture_uses_resource, texture_uses_transient, texture_uses_uninitialized,
    texture_uses_unknown,
};
use crate::vulkan_sync::{
    SyncImportStep, VulkanExternalSync, INITIALIZATION_FAILED, INVALID_EXTERNAL_HANDLE,
};
use vstd::prelude::*;

verus! {

/// The types of the values that the library keeps for its user without looking
/// into them.
pub trait GpuHandles: Sized {
    /// A shared texture.
    type Texture;

    /// An owned sync file; dropping it closes the file.
    type SyncFile;

    /// An owned semaphore; dropping it destroys the semaphore.
    type Semaphore;

    /// A producer's lease on an image; dropping it releases the lease.
    type Lease;

    /// The shared sprite atlas.
    type Atlas;

    /// A pixel buffer of the system.
    type PixelBuffer;

    /// A validated picture.
    type RgbaSource;

    /// Validated NV12 planes.
    type Nv12Source;
}

/// A shared texture with its identity.
pub struct SharedTexture<H: GpuHandles> {
    /// Equal for two values exactly when they share one texture.
    pub id: u64,
    pub texture: H::Texture,
}

/// What a producer came up with.
#[derive(Clone, Copy, Debug, PartialEq, Eq, Structural)]
pub enum ExternalFrameAcquisition {
    Prepared,
    TransientFailure,
    FatalFailure,
}

/// What became of an external frame.
#[derive(Clone, Copy, Debug, PartialEq, Eq, Structural)]
pub enum ExternalFrameOutcome {
    Accepted,
    TransientFailure,
    FatalFailure,
    Unsupported,
}

impl ExternalFrameOutcome {
    /// The outcome of an acquisition: only Vulkan takes external frames.
    pub open spec fn of(backend: Backend, acquisition: ExternalFrameAcquisition) -> Self {
        if backend != Backend::Vulkan {
            ExternalFrameOutcome::Unsupported
        } else {
            match acquisition {
                ExternalFrameAcquisition::Prepared => ExternalFrameOutcome::Accepted,
                ExternalFrameAcquisition::TransientFailure => {
                    ExternalFrameOutcome::TransientFailure
                },
                ExternalFrameAcquisition::FatalFailure => ExternalFrameOutcome::FatalFailure,
            }
        }
    }

    /// Classifies an acquisition. Backends other than Vulkan support none.
    pub fn classify(backend: Backend, acquisition: ExternalFrameAcquisition) -> (result: Self)
        ensures
            result == ExternalFrameOutcome::of(backend, acquisition),
    {
        if backend != Backend::Vulkan {
            return ExternalFrameOutcome::Unsupported;
        }
        match acquisition {
            ExternalFrameAcquisition::Prepared => ExternalFrameOutcome::Accepted,
            ExternalFrameAcquisition::TransientFailure => ExternalFrameOutcome::TransientFailure,
            ExternalFrameAcquisition::FatalFailure => ExternalFrameOutcome::FatalFailure,
        }
    }
}

/// The queue family that owns an external image.
#[derive(Clone, Copy, Debug, PartialEq, Eq, Structural)]
pub enum ExternalOwnership {
    External,
    Foreign,
}

/// The index of the queue family that owns an external image.
pub open spec fn owning_family(ownership: ExternalOwnership) -> u32 {
    match ownership {
        ExternalOwnership::External => 0xFFFF_FFFE,
        ExternalOwnership::Foreign => 0xFFFF_FFFD,
    }
}

/// The index of the queue family that owns an external image.
pub fn queue_family(ownership: ExternalOwnership) -> (result: u32)
    ensures
        result == owning_family(ownership),
{
    match ownership {
        ExternalOwnership::External => queue_family_external(),
        ExternalOwnership::Foreign => queue_family_foreign(),
    }
}

/// Why an external image cannot be taken over.
#[derive(Clone, Copy, Debug, PartialEq, Eq, Structural)]
pub enum ExternalFrameError {
    UninitializedState,
    IndefiniteState,
    NullImage,
    EmptyImage,
    NotVulkan,
    NoHalDevice,
    NoExternalSemaphoreFd,
    NoForeignQueueFamily,
    SyncFileConsumed,
}

impl ExternalFrameError {
    /// The reason in words.
    pub open spec fn text(self) -> &'static str {
        match self {
            ExternalFrameError::UninitializedState => {
                "external frame initial state must describe initialized producer contents"
            },
            ExternalFrameError::IndefiniteState => {
                "external frame initial state must be a concrete texture usage"
            },
            ExternalFrameError::NullImage => "external image handle is null",
            ExternalFrameError::EmptyImage => "external frame must be a non-empty 2D image",
            ExternalFrameError::NotVulkan => "Vulkan external frames require a Vulkan adapter",
            ExternalFrameError::NoHalDevice => "Vulkan HAL device is unavailable",
            ExternalFrameError::NoExternalSemaphoreFd => {
                "Vulkan external semaphore fd extension is not enabled"
            },
            ExternalFrameError::NoForeignQueueFamily => {
                "Vulkan queue-family-foreign extension is not enabled"
            },
            ExternalFrameError::SyncFileConsumed => {
                "external frame sync file was already consumed"
            },
        }
    }

    /// The reason in words.
    pub fn message(&self) -> (result: &'static str)
        ensures
            result == self.text(),
    {
        match *self {
            ExternalFrameError::UninitializedState => {
                "external frame initial state must describe initialized producer contents"
            },
            ExternalFrameError::IndefiniteState => {
                "external frame initial state must be a concrete texture usage"
            },
            ExternalFrameError::NullImage => "external image handle is null",
            ExternalFrameError::EmptyImage => "external frame must be a non-empty 2D image",
            ExternalFrameError::NotVulkan => "Vulkan external frames require a Vulkan adapter",
            ExternalFrameError::NoHalDevice => "Vulkan HAL device is unavailable",
            ExternalFrameError::NoExternalSemaphoreFd => {
                "Vulkan external semaphore fd extension is not enabled"
            },
            ExternalFrameError::NoForeignQueueFamily => {
                "Vulkan queue-family-foreign extension is not enabled"
            },
            ExternalFrameError::SyncFileConsumed => {
                "external frame sync file was already consumed"
            },
        }
    }
}

/// The state that a producer leaves an image in is described as uninitialized.
pub open spec fn uninitialized_state(uses: u16) -> bool {
    uses & 0x0001 == 0x0001
}

/// The state is no usage at all, or one that only a tracker uses.
pub open spec fn indefinite_state(uses: u16) -> bool {
    uses == 0 || uses & 0x7000 != 0
}

/// Checks the texture usage flags that describe an external image's state.
pub fn ensure_external_frame_initial_state(initial_state: u16) -> (result: Result<
    (),
    ExternalFrameError,
>)
    ensures
        uninitialized_state(initial_state) <==> result == Err::<(), ExternalFrameError>(
            ExternalFrameError::UninitializedState,
        ),
        !uninitialized_state(initial_state) && indefinite_state(initial_state) <==> result == Err::<
            (),
            ExternalFrameError,
        >(ExternalFrameError::IndefiniteState),
        !uninitialized_state(initial_state) && !indefinite_state(initial_state) <==> result is Ok,
{
    if texture_uses_contains(initial_state, texture_uses_uninitialized()) {
        return Err(ExternalFrameError::UninitializedState);
    }
    let complex: u16 = texture_uses_complex();
    let unknown: u16 = texture_uses_unknown();
    let transient: u16 = texture_uses_transient();
    let tracker_only: u16 = complex | unknown | transient;
    assert(tracker_only == 0x7000) by (bit_vector)
        requires
            tracker_only == complex | unknown | transient,
            complex == 0x2000u16,
            unknown == 0x4000u16,
            transient == 0x1000u16,
    ;
    if texture_uses_is_empty(initial_state) || texture_uses_intersects(
        initial_state,
        tracker_only,
    ) {
        return Err(ExternalFrameError::IndefiniteState);
    }
    Ok(())
}

/// A width, a height and a number of layers.
#[derive(Clone, Copy, Debug, PartialEq, Eq, Structural)]
pub struct Extent3d {
    pub width: u32,
    pub height: u32,
    pub depth_or_array_layers: u32,
}

/// What the device behind a renderer can do with external frames.
#[derive(Clone, Copy, Debug, PartialEq, Eq, Structural)]
pub struct GpuContextHandle {
    pub backend: Backend,
    pub features: DeviceFeatures,
    /// The Vulkan device behind the renderer's device can be reached.
    pub hal_device: bool,
    /// The external semaphore fd extension is enabled.
    pub external_semaphore_fd: bool,
    /// The foreign queue family extension is enabled.
    pub queue_family_foreign: bool,
}

/// A producer-owned Vulkan image with the fence that guards it.
///
/// Whoever makes one warrants that the image is a 2D image of the device that
/// takes it over, with one mip level, layer and sample, of the stated size and
/// format, that can be sampled; that it is in the general layout and owned by
/// `ownership`; that the producer signaled the sync file; and that the image
/// lives until the lease is released.
pub struct VulkanExternalFrame<H: GpuHandles> {
    pub image: u64,
    pub size: Extent3d,
    pub format: wgpu::TextureFormat,
    pub initial_state: u16,
    pub ownership: ExternalOwnership,
    pub sync_file: Option<H::SyncFile>,
    pub lease: Option<H::Lease>,
}

impl<H: GpuHandles> VulkanExternalFrame<H> {
    /// The image as it is described, or why its state is refused.
    pub open spec fn described(
        image: u64,
        size: Extent3d,
        format: wgpu::TextureFormat,
        initial_state: u16,
        ownership: ExternalOwnership,
        sync_file: H::SyncFile,
        lease: H::Lease,
    ) -> Result<Self, ExternalFrameError> {
        if uninitialized_state(initial_state) {
            Err(ExternalFrameError::UninitializedState)
        } else if indefinite_state(initial_state) {
            Err(ExternalFrameError::IndefiniteState)
        } else {
            Ok(
                VulkanExternalFrame {
                    image,
                    size,
                    format,
                    initial_state,
                    ownership,
                    sync_file: Some(sync_file),
                    lease: Some(lease),
                },
            )
        }
    }

    /// Describes an initialized producer image and takes over its sync file and
    /// lease. Where the state is refused, both are dropped.
    pub fn new(
        image: u64,
        size: Extent3d,
        format: wgpu::TextureFormat,
        initial_state: u16,
        ownership: ExternalOwnership,
        sync_file: H::SyncFile,
        lease: H::Lease,
    ) -> (result: Result<Self, ExternalFrameError>)
        ensures
            result == Self::described(
                image,
                size,
                format,
                initial_state,
                ownership,
                sync_file,
                lease,
            ),
            uninitialized_state(initial_state) <==> result == Err::<Self, ExternalFrameError>(
                ExternalFrameError::UninitializedState,
            ),
            !uninitialized_state(initial_state) && indefinite_state(initial_state) <==> result
                == Err::<Self, ExternalFrameError>(ExternalFrameError::IndefiniteState),
            !uninitialized_state(initial_state) && !indefinite_state(initial_state) ==> result
                == Ok::<Self, ExternalFrameError>(
                (VulkanExternalFrame {
                    image,
                    size,
                    format,
                    initial_state,
                    ownership,
                    sync_file: Some(sync_file),
                    lease: Some(lease),
                }),
            ),
    {
        if let Err(error) = ensure_external_frame_initial_state(initial_state) {
            return Err(error);
        }
        Ok(
            VulkanExternalFrame {
                image,
                size,
                format,
                initial_state,
                ownership,
                sync_file: Some(sync_file),
                lease: Some(lease),
            },
        )
    }

    /// Why the image cannot be taken over by the device of `context`, if so.
    pub open spec fn refusal(self, context: GpuContextHandle) -> Option<ExternalFrameError> {
        if uninitialized_state(self.initial_state) {
            Some(ExternalFrameError::UninitializedState)
        } else if indefinite_state(self.initial_state) {
            Some(ExternalFrameError::IndefiniteState)
        } else if self.image == 0 {
            Some(ExternalFrameError::NullImage)
        } else if self.size.width == 0 || self.size.height == 0
            || self.size.depth_or_array_layers != 1 {
            Some(ExternalFrameError::EmptyImage)
        } else if context.backend != Backend::Vulkan {
            Some(ExternalFrameError::NotVulkan)
        } else if !context.hal_device {
            Some(ExternalFrameError::NoHalDevice)
        } else if !context.external_semaphore_fd {
            Some(ExternalFrameError::NoExternalSemaphoreFd)
        } else if self.ownership == ExternalOwnership::Foreign && !context.queue_family_foreign {
            Some(ExternalFrameError::NoForeignQueueFamily)
        } else if self.sync_file is None {
            Some(ExternalFrameError::SyncFileConsumed)
        } else {
            None
        }
    }

    /// The texture to make of the image, and the frame that waits for it.
    pub open spec fn imported(self) -> (ExternalTextureImport<H>, ImportingExternalFrame<H>) {
        (
            ExternalTextureImport {
                label: "external_frame",
                image: self.image,
                size: self.size,
                mip_level_count: 1,
                sample_count: 1,
                dimension: TextureDimension::D2,
                format: self.format,
                texture_usage: TextureUsage::binding_only(),
                usage: 0x0010,
                initial_state: self.initial_state,
                lease: self.lease,
            },
            ImportingExternalFrame {
                external_sync: VulkanExternalSync { fd: self.sync_file, semaphore: None },
                initial_state: self.initial_state,
                ownership: self.ownership,
            },
        )
    }
}

/// The texture to make of a producer's image, viewed in its own format only.
pub struct ExternalTextureImport<H: GpuHandles> {
    pub label: &'static str,
    pub image: u64,
    pub size: Extent3d,
    pub mip_level_count: u32,
    pub sample_count: u32,
    pub dimension: TextureDimension,
    pub format: wgpu::TextureFormat,
    /// What the texture is used for.
    pub texture_usage: TextureUsage,
    /// Usage flags of the Vulkan image.
    pub usage: u16,
    /// Usage flags that the tracker starts with.
    pub initial_state: u16,
    /// To be released when the texture goes.
    pub lease: Option<H::Lease>,
}

/// A producer's image that waits for its texture.
pub struct ImportingExternalFrame<H: GpuHandles> {
    pub external_sync: VulkanExternalSync<H>,
    pub initial_state: u16,
    pub ownership: ExternalOwnership,
}

impl<H: GpuHandles> ImportingExternalFrame<H> {
    /// The frame with its texture.
    pub open spec fn in_texture(self, texture: SharedTexture<H>) -> PreparedExternalFrame<H> {
        PreparedExternalFrame {
            external_sync: Some(self.external_sync),
            initial_state: self.initial_state,
            ownership: Some(self.ownership),
            texture,
        }
    }

    /// The frame, now that its texture exists.
    pub fn with_texture(self, texture: SharedTexture<H>) -> (result: PreparedExternalFrame<H>)
        ensures
            result == self.in_texture(texture),
            result == (PreparedExternalFrame {
                external_sync: Some(self.external_sync),
                initial_state: self.initial_state,
                ownership: Some(self.ownership),
                texture,
            }),
    {
        PreparedExternalFrame {
            external_sync: Some(self.external_sync),
            initial_state: self.initial_state,
            ownership: Some(self.ownership),
            texture,
        }
    }
}

/// A producer's NV12 frame in a texture of the renderer's device.
pub struct ExternalNv12Frame<H: GpuHandles> {
    pub texture: SharedTexture<H>,
    pub sync_file: H::SyncFile,
    pub ownership: ExternalOwnership,
}

impl<H: GpuHandles> ExternalNv12Frame<H> {
    /// The texture, the fence and the owner.
    pub fn into_parts(self) -> (result: (SharedTexture<H>, H::SyncFile, ExternalOwnership))
        ensures
            result == (self.texture, self.sync_file, self.ownership),
    {
        (self.texture, self.sync_file, self.ownership)
    }

    /// The device of `context` can take the frame over.
    pub open spec fn supported(self, context: GpuContextHandle) -> bool {
        &&& context.backend == Backend::Vulkan
        &&& context.features.has_nv12()
        &&& context.hal_device
        &&& context.external_semaphore_fd
        &&& self.ownership == ExternalOwnership::Foreign ==> context.queue_family_foreign
    }

    /// The frame, prepared for submission.
    pub open spec fn prepared(self) -> PreparedExternalFrame<H> {
        PreparedExternalFrame {
            external_sync: Some(VulkanExternalSync { fd: Some(self.sync_file), semaphore: None }),
            initial_state: 0x0010,
            ownership: Some(self.ownership),
            texture: self.texture,
        }
    }
}

/// The part of an image that an ownership transfer covers.
#[derive(Clone, Copy, Debug, PartialEq, Eq, Structural)]
pub struct SubresourceRange {
    pub base_mip_level: u32,
    pub mip_level_count: u32,
    pub base_array_layer: u32,
    pub array_layer_count: u32,
}

/// The first mip level and layer, in all aspects.
pub open spec fn whole_image() -> SubresourceRange {
    SubresourceRange {
        base_mip_level: 0,
        mip_level_count: 1,
        base_array_layer: 0,
        array_layer_count: 1,
    }
}

fn whole_image_range() -> (result: SubresourceRange)
    ensures
        result == whole_image(),
{
    SubresourceRange {
        base_mip_level: 0,
        mip_level_count: 1,
        base_array_layer: 0,
        array_layer_count: 1,
    }
}

/// Takes an image over from the queue family that owns it.
#[derive(Clone, Copy, Debug, PartialEq, Eq, Structural)]
pub struct AcquireBarrier {
    pub range: SubresourceRange,
    /// Usage flags to bring the image into.
    pub state: u16,
    pub queue_family: u32,
}

/// Gives an image back to the queue family that owns it.
#[derive(Clone, Copy, Debug, PartialEq, Eq, Structural)]
pub struct ReleaseBarrier {
    pub range: SubresourceRange,
    pub queue_family: u32,
}

/// What has to live until a submission's work is done.
pub struct SubmittedWork<H: GpuHandles> {
    pub external_sync: Option<VulkanExternalSync<H>>,
    /// The identity of the texture that the work samples.
    pub texture: u64,
}

/// A frame prepared for submission by the renderer.
///
/// Frames of another producer keep their fence until the next submission.
pub struct PreparedExternalFrame<H: GpuHandles> {
    pub external_sync: Option<VulkanExternalSync<H>>,
    pub initial_state: u16,
    pub ownership: Option<ExternalOwnership>,
    pub texture: SharedTexture<H>,
}

impl<H: GpuHandles> PreparedExternalFrame<H> {
    /// A frame in a texture that was made for the renderer's device.
    pub open spec fn in_own_texture(texture: SharedTexture<H>) -> Self {
        PreparedExternalFrame {
            external_sync: None,
            initial_state: 0x0010,
            ownership: None,
            texture,
        }
    }

    /// A frame in a texture that was made for the renderer's device.
    pub fn new(texture: SharedTexture<H>) -> (result: Self)
        ensures
            result == PreparedExternalFrame::in_own_texture(texture),
            result == (PreparedExternalFrame {
                external_sync: None,
                initial_state: 0x0010,
                ownership: None,
                texture,
            }),
    {
        PreparedExternalFrame {
            external_sync: None,
            initial_state: texture_uses_resource(),
            ownership: None,
            texture,
        }
    }

    /// The texture sampled for this frame.
    pub fn texture(&self) -> (result: &SharedTexture<H>)
        ensures
            *result == self.texture,
    {
        &self.texture
    }

    /// Takes over a producer's image. Gives the texture to make of it and the
    /// frame that waits for that texture, or the reason for refusing it.
    pub fn from_vulkan(context: &GpuContextHandle, frame: VulkanExternalFrame<H>) -> (result:
        Result<(ExternalTextureImport<H>, ImportingExternalFrame<H>), ExternalFrameError>)
        ensures
            match frame.refusal(*context) {
                Some(error) => result == Err::<
                    (ExternalTextureImport<H>, ImportingExternalFrame<H>),
                    ExternalFrameError,
                >(error),
                None => result == Ok::<
                    (ExternalTextureImport<H>, ImportingExternalFrame<H>),
                    ExternalFrameError,
                >(
                    (
                        ExternalTextureImport {
                            label: "external_frame",
                            image: frame.image,
                            size: frame.size,
                            mip_level_count: 1,
                            sample_count: 1,
                            dimension: TextureDimension::D2,
                            format: frame.format,
                            texture_usage: TextureUsage::binding_only(),
                            usage: 0x0010,
                            initial_state: frame.initial_state,
                            lease: frame.lease,
                        },
                        ImportingExternalFrame {
                            external_sync: VulkanExternalSync {
                                fd: frame.sync_file,
                                semaphore: None,
                            },
                            initial_state: frame.initial_state,
                            ownership: frame.ownership,
                        },
                    ),
                ),
            },
            result matches Ok(parts) ==> parts == frame.imported(),
    {
        if let Err(error) = ensure_external_frame_initial_state(frame.initial_state) {
            return Err(error);
        }
        if frame.image == 0 {
            return Err(ExternalFrameError::NullImage);
        }
        if frame.size.width == 0 || frame.size.height == 0 || frame.size.depth_or_array_layers
            != 1 {
            return Err(ExternalFrameError::EmptyImage);
        }
        if context.backend != Backend::Vulkan {
            return Err(ExternalFrameError::NotVulkan);
        }
        if !context.hal_device {
            return Err(ExternalFrameError::NoHalDevice);
        }
        if !context.external_semaphore_fd {
            return Err(ExternalFrameError::NoExternalSemaphoreFd);
        }
        if frame.ownership == ExternalOwnership::Foreign && !context.queue_family_foreign {
            return Err(ExternalFrameError::NoForeignQueueFamily);
        }
        let sync_file = match frame.sync_file {
            Some(sync_file) => sync_file,
            None => return Err(ExternalFrameError::SyncFileConsumed),
        };
        Ok(
            (
                ExternalTextureImport {
                    label: "external_frame",
                    image: frame.image,
                    size: frame.size,
                    mip_level_count: 1,
                    sample_count: 1,
                    dimension: TextureDimension::D2,
                    format: frame.format,
                    texture_usage: TextureUsage::sampled(),
                    usage: texture_uses_resource(),
                    initial_state: frame.initial_state,
                    lease: frame.lease,
                },
                ImportingExternalFrame {
                    external_sync: VulkanExternalSync::new(sync_file),
                    initial_state: frame.initial_state,
                    ownership: frame.ownership,
                },
            ),
        )
    }

    /// Takes over a producer's NV12 frame, which already is a texture. Devices
    /// that lack what it takes support no such frame.
    pub fn from_external_nv12(context: &GpuContextHandle, frame: ExternalNv12Frame<H>) -> (result:
        Result<Self, ExternalFrameOutcome>)
        ensures
            !frame.supported(*context) ==> result == Err::<Self, ExternalFrameOutcome>(
                ExternalFrameOutcome::Unsupported,
            ),
            frame.supported(*context) ==> result == Ok::<Self, ExternalFrameOutcome>(
                PreparedExternalFrame {
                    external_sync: Some(
                        VulkanExternalSync { fd: Some(frame.sync_file), semaphore: None },
                    ),
                    initial_state: 0x0010,
                    ownership: Some(frame.ownership),
                    texture: frame.texture,
                },
            ),
            result matches Ok(prepared) ==> prepared == frame.prepared(),
    {
        if context.backend != Backend::Vulkan || !context.features.supports_nv12() {
            return Err(ExternalFrameOutcome::Unsupported);
        }
        if !context.hal_device {
            return Err(ExternalFrameOutcome::Unsupported);
        }
        if !context.external_semaphore_fd {
            return Err(ExternalFrameOutcome::Unsupported);
        }
        let (texture, sync_file, ownership) = frame.into_parts();
        if ownership == ExternalOwnership::Foreign && !context.queue_family_foreign {
            return Err(ExternalFrameOutcome::Unsupported);
        }
        Ok(
            PreparedExternalFrame {
                external_sync: Some(VulkanExternalSync::new(sync_file)),
                initial_state: texture_uses_resource(),
                ownership: Some(ownership),
                texture,
            },
        )
    }

    /// Another producer owns the frame's image.
    pub fn is_external(&self) -> (result: bool)
        ensures
            result == self.ownership is Some,
    {
        self.ownership.is_some()
    }

    /// The first step of importing the frame's fence. `hal_queue` tells whether
    /// the Vulkan queue can be reached.
    pub fn import_sync(&mut self, hal_queue: bool) -> (result: SyncImportStep<H>)
        ensures
            final(self).initial_state == old(self).initial_state,
            final(self).ownership == old(self).ownership,
            final(self).texture == old(self).texture,
            old(self).import_step(hal_queue) == result,
            final(self).external_sync == old(self).sync_after_import_step(hal_queue),
    {
        match self.external_sync.take() {
            None => SyncImportStep::Finished(Ok(())),
            Some(mut external_sync) => {
                if !hal_queue {
                    self.external_sync = Some(external_sync);
                    return SyncImportStep::Finished(Err(error_initialization_failed()));
                }
                let step = external_sync.import();
                self.external_sync = Some(external_sync);
                step
            },
        }
    }

    /// What importing the frame's fence has to do first: nothing where there
    /// is no fence, or where it is imported already.
    pub open spec fn import_step(self, hal_queue: bool) -> SyncImportStep<H> {
        match self.external_sync {
            None => SyncImportStep::Finished(Ok(())),
            Some(sync) => if !hal_queue {
                SyncImportStep::Finished(Err(INITIALIZATION_FAILED))
            } else if sync.semaphore is Some {
                SyncImportStep::Finished(Ok(()))
            } else {
                match sync.fd {
                    Some(fd) => SyncImportStep::CreateSemaphore(fd),
                    None => SyncImportStep::Finished(Err(INVALID_EXTERNAL_HANDLE)),
                }
            },
        }
    }

    /// The frame's fence after that step: without the file that is on its way
    /// to Vulkan.
    pub open spec fn sync_after_import_step(self, hal_queue: bool) -> Option<
        VulkanExternalSync<H>,
    > {
        match self.external_sync {
            Some(sync) => if hal_queue && sync.semaphore is None {
                Some(VulkanExternalSync { fd: None, semaphore: None })
            } else {
                Some(sync)
            },
            None => None,
        }
    }

    /// The transfer that takes the frame's image over, where another producer
    /// owns it.
    pub fn encode_acquire_ownership(&self) -> (result: Option<AcquireBarrier>)
        ensures
            result == self.acquire_barrier(),
    {
        match self.ownership {
            None => None,
            Some(ownership) => Some(
                AcquireBarrier {
                    range: whole_image_range(),
                    state: self.initial_state,
                    queue_family: queue_family(ownership),
                },
            ),
        }
    }

    /// The transfer that takes the frame's image over.
    pub open spec fn acquire_barrier(self) -> Option<AcquireBarrier> {
        match self.ownership {
            None => None,
            Some(ownership) => Some(
                AcquireBarrier {
                    range: whole_image(),
                    state: self.initial_state,
                    queue_family: owning_family(ownership),
                },
            ),
        }
    }

    /// The transfer that gives the frame's image back, where another producer
    /// owns it.
    pub fn encode_release_ownership(&self) -> (result: Option<ReleaseBarrier>)
        ensures
            result == self.release_barrier(),
    {
        match self.ownership {
            None => None,
            Some(ownership) => Some(
                ReleaseBarrier {
                    range: whole_image_range(),
                    queue_family: queue_family(ownership),
                },
            ),
        }
    }

    /// The transfer that gives the frame's image back.
    pub open spec fn release_barrier(self) -> Option<ReleaseBarrier> {
        match self.ownership {
            None => None,
            Some(ownership) => Some(
                ReleaseBarrier { range: whole_image(), queue_family: owning_family(ownership) },
            ),
        }
    }

    /// The frame was submitted: hands out what has to live until the work is
    /// done. Frames of the renderer itself need nothing.
    pub fn on_submitted(&mut self) -> (result: Option<SubmittedWork<H>>)
        ensures
            *final(self) == old(self).submitted(),
            result == old(self).submitted_work(),
    {
        if !self.is_external() {
            return None;
        }
        Some(
            SubmittedWork { external_sync: self.external_sync.take(), texture: self.texture.id },
        )
    }

    /// The frame after its submission: without its fence.
    pub open spec fn submitted(self) -> Self {
        if self.ownership is Some {
            PreparedExternalFrame { external_sync: None, ..self }
        } else {
            self
        }
    }

    /// What has to live until the frame's work is done.
    pub open spec fn submitted_work(self) -> Option<SubmittedWork<H>> {
        if self.ownership is Some {
            Some(SubmittedWork { external_sync: self.external_sync, texture: self.texture.id })
        } else {
            None
        }
    }
}

} // verus!
