//! What happens to frames of other producers, from their arrival to the screen.
use crate::device::{Backend, TextureDimension};
use crate::external::{
    owning_family, whole_image, ExternalFrameAcquisition, ExternalFrameError,
    ExternalFrameOutcome, ExternalNv12Frame, ExternalOwnership, GpuContextHandle, GpuHandles,
    PreparedExternalFrame, SharedTexture, VulkanExternalFrame,
};
use crate::external_state::{
    ExternalFrameSlot, ExternalFrameState, FrameSyncStep, PendingExternalFrame,
};
use crate::scene::{surfaces_contain, PaintSurface, Scene, SurfaceContent};
use crate::vulkan_sync::{sync_error_outcome, SyncImportStep, VulkanExternalSync};
use vstd::prelude::*;

verus! {

/// A well-formed frame is taken over on a capable device, and no other one is:
/// its image is in an initialized, definite state, not null, not empty and of
/// one layer, with a fence, and the device is a Vulkan device that can be
/// reached and can import the fence. Only a frame of a foreign owner also needs
/// the foreign queue family.
pub proof fn well_formed_frame_is_taken_over<H: GpuHandles>(
    context: GpuContextHandle,
    frame: VulkanExternalFrame<H>,
)
    ensures
        frame.refusal(context) is None <==> {
            &&& frame.initial_state & 0x0001 != 0x0001
            &&& frame.initial_state != 0
            &&& frame.initial_state & 0x7000 == 0
            &&& frame.image != 0
            &&& frame.size.width > 0
            &&& frame.size.height > 0
            &&& frame.size.depth_or_array_layers == 1
            &&& context.backend == Backend::Vulkan
            &&& context.hal_device
            &&& context.external_semaphore_fd
            &&& frame.ownership == ExternalOwnership::External || context.queue_family_foreign
            &&& frame.sync_file is Some
        },
{
}

/// A frame is refused for what is wrong with it, and for the first such thing in
/// order: its state, its image, the device, and the fence.
pub proof fn refusal_names_what_is_wrong<H: GpuHandles>(
    context: GpuContextHandle,
    frame: VulkanExternalFrame<H>,
)
    ensures
        ({
            let refusal = frame.refusal(context);
            let initialized = frame.initial_state & 0x0001 != 0x0001;
            let definite = frame.initial_state != 0 && frame.initial_state & 0x7000 == 0;
            let sized = frame.size.width > 0 && frame.size.height > 0
                && frame.size.depth_or_array_layers == 1;
            let described = initialized && definite && frame.image != 0 && sized;
            let capable = context.backend == Backend::Vulkan && context.hal_device
                && context.external_semaphore_fd;
            &&& refusal == Some(ExternalFrameError::UninitializedState) <==> !initialized
            &&& refusal == Some(ExternalFrameError::IndefiniteState) <==> initialized && !definite
            &&& refusal == Some(ExternalFrameError::NullImage) <==> initialized && definite
                && frame.image == 0
            &&& refusal == Some(ExternalFrameError::EmptyImage) <==> initialized && definite
                && frame.image != 0 && !sized
            &&& refusal == Some(ExternalFrameError::NotVulkan) <==> described && context.backend
                != Backend::Vulkan
            &&& refusal == Some(ExternalFrameError::NoHalDevice) <==> described && context.backend
                == Backend::Vulkan && !context.hal_device
            &&& refusal == Some(ExternalFrameError::NoExternalSemaphoreFd) <==> described
                && context.backend == Backend::Vulkan && context.hal_device
                && !context.external_semaphore_fd
            &&& refusal == Some(ExternalFrameError::NoForeignQueueFamily) <==> described && capable
                && frame.ownership == ExternalOwnership::Foreign && !context.queue_family_foreign
            &&& refusal == Some(ExternalFrameError::SyncFileConsumed) ==> frame.sync_file is None
        }),
{
}

/// The foreign queue family matters to frames of foreign owners only.
pub proof fn foreign_family_matters_to_foreign_frames_only<H: GpuHandles>(
    context: GpuContextHandle,
    frame: VulkanExternalFrame<H>,
    nv12: ExternalNv12Frame<H>,
    enabled: bool,
)
    ensures
        frame.ownership == ExternalOwnership::External ==> frame.refusal(
            GpuContextHandle { queue_family_foreign: enabled, ..context },
        ) == frame.refusal(context),
        nv12.ownership == ExternalOwnership::External ==> nv12.supported(
            GpuContextHandle { queue_family_foreign: enabled, ..context },
        ) == nv12.supported(context),
        nv12.ownership == ExternalOwnership::Foreign && nv12.supported(context)
            ==> context.queue_family_foreign,
{
}

/// A frame that is taken over keeps everything that it came with: the texture is
/// the producer's image as it was described, sampled only, with the lease to
/// release; the fence is still the producer's file; and the image's state and
/// owner stay known.
pub proof fn taken_frame_keeps_what_it_came_with<H: GpuHandles>(frame: VulkanExternalFrame<H>)
    ensures
        ({
            let (import, pending) = frame.imported();
            &&& import.image == frame.image
            &&& import.size == frame.size
            &&& import.format == frame.format
            &&& import.lease == frame.lease
            &&& import.initial_state == frame.initial_state
            &&& import.mip_level_count == 1
            &&& import.sample_count == 1
            &&& import.dimension == TextureDimension::D2
            &&& import.texture_usage.texture_binding
            &&& !import.texture_usage.render_attachment
            &&& !import.texture_usage.copy_dst
            &&& import.usage == 0x0010
            &&& import.label == "external_frame"
            &&& pending.external_sync.fd == frame.sync_file
            &&& pending.external_sync.semaphore is None
            &&& pending.initial_state == frame.initial_state
            &&& pending.ownership == frame.ownership
        }),
{
}

/// An NV12 frame is taken over on a Vulkan device that has NV12 textures, can be
/// reached and can import the fence, and on no other one. It keeps its texture,
/// its owner and its fence, which is still the producer's file.
pub proof fn nv12_frame_keeps_what_it_came_with<H: GpuHandles>(
    frame: ExternalNv12Frame<H>,
    context: GpuContextHandle,
    state: ExternalFrameState<PendingExternalFrame<H>>,
)
    requires
        state.latest == Some(PendingExternalFrame::Nv12(frame)),
    ensures
        frame.supported(context) <==> {
            &&& context.backend == Backend::Vulkan
            &&& context.features.native & 0x2000_0000 == 0x2000_0000
            &&& context.hal_device
            &&& context.external_semaphore_fd
            &&& frame.ownership == ExternalOwnership::External || context.queue_family_foreign
        },
        frame.prepared().texture == frame.texture,
        frame.prepared().ownership == Some(frame.ownership),
        frame.prepared().initial_state == 0x0010,
        frame.prepared().external_sync matches Some(sync) && sync.fd == Some(frame.sync_file)
            && sync.semaphore is None,
        state.prepared(Some(context)).latest == if frame.supported(context) {
            Some(PendingExternalFrame::Prepared(frame.prepared()))
        } else {
            None
        },
        state.prepared(None).latest is None,
        state.unpreparable(Some(context)) <==> !frame.supported(context),
        state.unpreparable(None),
{
}

/// Preparing leaves a frame that is prepared, or no frame, as it is.
pub proof fn prepared_frames_stay_as_they_are<H: GpuHandles>(
    state: ExternalFrameState<PendingExternalFrame<H>>,
    context: Option<GpuContextHandle>,
)
    requires
        !(state.latest matches Some(PendingExternalFrame::Nv12(_))),
    ensures
        state.prepared(context) == state,
        !state.unpreparable(context),
{
}

/// An image is taken over from the family of its owner, whole and into the state
/// that the frame came with, and given back to that family. The two kinds of
/// owners have families of their own.
pub proof fn transfers_name_the_owner<H: GpuHandles>(
    frame: PreparedExternalFrame<H>,
    ownership: ExternalOwnership,
)
    ensures
        owning_family(ExternalOwnership::External) == 0xFFFF_FFFE,
        owning_family(ExternalOwnership::Foreign) == 0xFFFF_FFFD,
        frame.ownership == Some(ownership) ==> {
            &&& frame.acquire_barrier() matches Some(acquire)
            &&& acquire.queue_family == owning_family(ownership)
            &&& acquire.state == frame.initial_state
            &&& acquire.range == whole_image()
            &&& frame.release_barrier() matches Some(release)
            &&& release.queue_family == owning_family(ownership)
            &&& release.range == whole_image()
        },
        frame.ownership is None ==> {
            &&& frame.acquire_barrier() is None
            &&& frame.release_barrier() is None
        },
        whole_image().base_mip_level == 0 && whole_image().mip_level_count == 1,
        whole_image().base_array_layer == 0 && whole_image().array_layer_count == 1,
{
}

/// On Vulkan, what a producer came up with is what is reported: a frame is
/// accepted, and a failure is a failure of its own kind.
pub proof fn acquisitions_are_reported_as_they_are(backend: Backend)
    ensures
        ({
            let prepared = ExternalFrameOutcome::of(backend, ExternalFrameAcquisition::Prepared);
            let transient = ExternalFrameOutcome::of(
                backend,
                ExternalFrameAcquisition::TransientFailure,
            );
            let fatal = ExternalFrameOutcome::of(backend, ExternalFrameAcquisition::FatalFailure);
            &&& prepared == ExternalFrameOutcome::Accepted <==> backend == Backend::Vulkan
            &&& transient == ExternalFrameOutcome::TransientFailure <==> backend == Backend::Vulkan
            &&& fatal == ExternalFrameOutcome::FatalFailure <==> backend == Backend::Vulkan
            &&& backend != Backend::Vulkan ==> prepared == ExternalFrameOutcome::Unsupported
                && transient == prepared && fatal == prepared
        }),
{
}

/// A failure to acquire drops the frame that waited and keeps the one on screen.
pub proof fn failed_acquisition_drops_the_waiting_frame<T>(
    state: ExternalFrameState<T>,
    acquisition: ExternalFrameAcquisition,
    frame: Option<T>,
)
    requires
        acquisition != ExternalFrameAcquisition::Prepared,
    ensures
        state.staged(Backend::Vulkan, acquisition, frame).latest is None,
        state.staged(Backend::Vulkan, acquisition, frame).displayed == state.displayed,
        state.staged(Backend::Vulkan, ExternalFrameAcquisition::Prepared, frame).displayed
            == state.displayed,
        state.staged(Backend::Vulkan, ExternalFrameAcquisition::Prepared, frame).latest
            == if frame is Some {
            frame
        } else {
            state.latest
        },
{
}

/// A submission puts the waiting frame on screen, where there is one, and leaves
/// none waiting.
pub proof fn submission_shows_the_waiting_frame<T>(state: ExternalFrameState<T>)
    ensures
        state.submitted().latest is None,
        state.submitted().displayed == if state.latest is Some {
            state.latest
        } else {
            state.displayed
        },
        state.submitted().submitted() == state.submitted(),
        state.in_slot(ExternalFrameSlot::Latest) == state.latest,
        state.in_slot(ExternalFrameSlot::Displayed) == state.displayed,
        state.failed(ExternalFrameSlot::Latest).latest is None,
        state.failed(ExternalFrameSlot::Latest).displayed == state.displayed,
        state.failed(ExternalFrameSlot::Displayed) == state,
{
}

/// A submission that drew the frame on screen keeps it there, with its image and
/// owner, and keeps the one that waits.
pub proof fn redrawn_frame_stays_on_screen<H: GpuHandles>(
    state: ExternalFrameState<PendingExternalFrame<H>>,
    frame: PreparedExternalFrame<H>,
)
    requires
        state.displayed == Some(PendingExternalFrame::Prepared(frame)),
    ensures
        ({
            let after = state.committed(Some(ExternalFrameSlot::Displayed));
            &&& after.latest == state.latest
            &&& after.displayed matches Some(PendingExternalFrame::Prepared(shown))
            &&& shown.texture == frame.texture
            &&& shown.ownership == frame.ownership
            &&& shown.initial_state == frame.initial_state
            &&& frame.ownership is Some ==> shown.external_sync is None
            &&& frame.ownership is None ==> shown == frame
        }),
        frame.ownership is Some ==> {
            &&& frame.submitted_work() matches Some(work)
            &&& work.external_sync == frame.external_sync
            &&& work.texture == frame.texture.id
        },
        frame.ownership is None ==> frame.submitted_work() is None,
{
}

/// A scene draws the frame that waits before the one on screen, and either one
/// only where a surface of it samples the frame's texture. An NV12 frame that is
/// not prepared is never drawn.
pub proof fn scene_draws_the_waiting_frame_first<H: GpuHandles>(
    state: ExternalFrameState<PendingExternalFrame<H>>,
    scene: Scene,
)
    ensures
        ({
            let waits = state.latest matches Some(PendingExternalFrame::Prepared(frame))
                && surfaces_contain(scene.surfaces@, frame.texture.id);
            let shown = state.displayed matches Some(PendingExternalFrame::Prepared(frame))
                && surfaces_contain(scene.surfaces@, frame.texture.id);
            &&& state.drawn_slot(scene) == Some(ExternalFrameSlot::Latest) <==> waits
            &&& state.drawn_slot(scene) == Some(ExternalFrameSlot::Displayed) <==> !waits && shown
            &&& state.drawn_slot(scene) is None <==> !waits && !shown
        }),
{
}

/// A surface samples a texture as a picture, or as the one texture of both
/// planes; a texture that is only one of two planes is not sampled as a whole.
pub proof fn only_whole_textures_are_looked_for(
    surfaces: Seq<PaintSurface>,
    texture: u64,
    index: int,
)
    requires
        0 <= index < surfaces.len(),
    ensures
        surfaces[index].content == (SurfaceContent::WgpuTexture { texture }) ==> surfaces_contain(
            surfaces,
            texture,
        ),
        surfaces[index].content matches SurfaceContent::WgpuTextureNv12Multiplanar {
            texture: whole,
            ..
        } ==> surfaces_contain(surfaces, whole),
        surfaces[index].content matches SurfaceContent::WgpuTexture { texture: candidate }
            ==> surfaces[index].content.samples_whole(texture) == (candidate == texture),
        surfaces[index].content matches SurfaceContent::WgpuTextureNv12Multiplanar {
            texture: candidate,
            ..
        } ==> surfaces[index].content.samples_whole(texture) == (candidate == texture),
        surfaces[index].content is WgpuTextureNv12 ==> !surfaces[index].content.samples_whole(
            texture,
        ),
        surfaces[index].content is WgpuTextureNv12WithColorTransform
            ==> !surfaces[index].content.samples_whole(texture),
        surfaces[index].content is Platform ==> !surfaces[index].content.samples_whole(texture),
        surfaces_contain(surfaces, texture) <==> exists|i: int|
            0 <= i < surfaces.len() && (#[trigger] surfaces[i]).content.samples_whole(texture),
{
    if surfaces[index].content == (SurfaceContent::WgpuTexture { texture }) {
        assert(surfaces[index].content.samples_whole(texture));
    }
    if let SurfaceContent::WgpuTextureNv12Multiplanar { texture: whole, .. } =
        surfaces[index].content {
        assert(surfaces[index].content.samples_whole(whole));
    }
}

/// Exhausted memory, a failed initialization and a lost device are fatal; every
/// other Vulkan error may pass.
pub proof fn unusable_devices_are_fatal(error: i32)
    ensures
        sync_error_outcome(error) == ExternalFrameOutcome::FatalFailure <==> -4 <= error <= -1,
        sync_error_outcome(error) == ExternalFrameOutcome::TransientFailure <==> error < -4 || error
            > -1,
{
}

/// A fence is imported where there is one and it is still a file: that file is
/// handed out. Without the queue nothing can be imported, which is fatal; a
/// frame without a fence, or with one that Vulkan has taken, needs nothing.
pub proof fn fences_are_imported_from_their_file<H: GpuHandles>(
    state: ExternalFrameState<PendingExternalFrame<H>>,
    frame: PreparedExternalFrame<H>,
    hal_queue: bool,
)
    requires
        state.latest == Some(PendingExternalFrame::Prepared(frame)),
    ensures
        ({
            let step = state.sync_step(ExternalFrameSlot::Latest, hal_queue);
            let accepted = FrameSyncStep::<H>::Finished(ExternalFrameOutcome::Accepted);
            let fatal = FrameSyncStep::<H>::Finished(ExternalFrameOutcome::FatalFailure);
            &&& frame.external_sync is None ==> step == accepted
            &&& frame.external_sync is Some && !hal_queue ==> step == fatal
            &&& frame.external_sync matches Some(sync) ==> {
                &&& hal_queue && sync.semaphore is Some ==> step == accepted
                &&& hal_queue && sync.semaphore is None ==> match sync.fd {
                    Some(file) => step == FrameSyncStep::<H>::CreateSemaphore(file),
                    None => step == FrameSyncStep::<H>::Finished(
                        ExternalFrameOutcome::TransientFailure,
                    ),
                }
            }
            &&& step == accepted ==> state.after_sync_step(ExternalFrameSlot::Latest, hal_queue)
                == state
            &&& step == fatal ==> state.after_sync_step(
                ExternalFrameSlot::Latest,
                hal_queue,
            ).latest is None
            &&& state.sync_step(ExternalFrameSlot::Displayed, hal_queue) == accepted
            &&& state.after_sync_step(ExternalFrameSlot::Displayed, hal_queue) == state
        }),
{
}

/// While a file is on its way to Vulkan the frame keeps its image and owner;
/// after Vulkan took it the frame holds the semaphore, and where Vulkan refused
/// it the frame is gone.
pub proof fn imported_fence_becomes_a_semaphore<H: GpuHandles>(
    state: ExternalFrameState<PendingExternalFrame<H>>,
    frame: PreparedExternalFrame<H>,
    semaphore: H::Semaphore,
    error: i32,
)
    requires
        state.latest == Some(PendingExternalFrame::Prepared(frame)),
        state.sync_step(ExternalFrameSlot::Latest, true) is CreateSemaphore,
    ensures
        ({
            let started = state.after_sync_step(ExternalFrameSlot::Latest, true);
            let imported = started.after_sync_import(semaphore, Ok(()));
            &&& imported.latest matches Some(PendingExternalFrame::Prepared(ready))
            &&& ready.texture == frame.texture
            &&& ready.ownership == frame.ownership
            &&& ready.initial_state == frame.initial_state
            &&& ready.external_sync matches Some(sync)
            &&& sync.semaphore == Some(semaphore)
            &&& sync.fd is None
            &&& imported.displayed == state.displayed
            &&& started.after_sync_import(semaphore, Err(error)).latest is None
        }),
{
}

/// An image that a producer describes is described by nothing else, and is taken
/// over as described. A state that says nothing of the image's contents is
/// refused at once, and for the reason for which taking it over would be.
pub proof fn described_image_is_taken_over<H: GpuHandles>(
    context: GpuContextHandle,
    other: VulkanExternalFrame<H>,
    sync_file: H::SyncFile,
    lease: H::Lease,
)
    ensures
        ({
            let described = VulkanExternalFrame::<H>::described(
                other.image,
                other.size,
                other.format,
                other.initial_state,
                other.ownership,
                sync_file,
                lease,
            );
            &&& described matches Ok(frame) ==> {
                &&& frame.image == other.image
                &&& frame.size == other.size
                &&& frame.format == other.format
                &&& frame.initial_state == other.initial_state
                &&& frame.ownership == other.ownership
                &&& frame.sync_file == Some(sync_file)
                &&& frame.lease == Some(lease)
                &&& frame.refusal(context) != Some(ExternalFrameError::SyncFileConsumed)
            }
            &&& described is Ok <==> other.initial_state & 0x0001 != 0x0001 && other.initial_state
                != 0 && other.initial_state & 0x7000 == 0
            &&& described matches Err(error) ==> other.refusal(context) == Some(error)
        }),
{
}

/// A producer's image in its texture is the frame as it came: its fence is to be
/// waited for, and its image goes back to its owner. A frame in a texture of the
/// renderer's own needs neither, and is the same after its submission.
pub proof fn own_textures_need_no_transfer<H: GpuHandles>(
    frame: VulkanExternalFrame<H>,
    texture: SharedTexture<H>,
    hal_queue: bool,
)
    ensures
        ({
            let taken = frame.imported().1.in_texture(texture);
            let own = PreparedExternalFrame::<H>::in_own_texture(texture);
            &&& taken.texture == texture
            &&& taken.ownership == Some(frame.ownership)
            &&& taken.initial_state == frame.initial_state
            &&& taken.external_sync matches Some(sync)
            &&& sync.fd == frame.sync_file
            &&& sync.semaphore is None
            &&& taken.acquire_barrier() is Some
            &&& own.texture == texture
            &&& own.ownership is None
            &&& own.external_sync is None
            &&& own.initial_state == 0x0010
            &&& own.acquire_barrier() is None
            &&& own.release_barrier() is None
            &&& own.submitted() == own
            &&& own.submitted_work() is None
            &&& own.import_step(hal_queue) matches SyncImportStep::Finished(Ok(()))
        }),
{
}

/// A sync file is imported into the semaphore that was made for it, for one wait
/// only.
pub proof fn sync_files_are_imported_once<H: GpuHandles>(semaphore: u64, fd: i32)
    ensures
        ({
            let info = VulkanExternalSync::<H>::import_info(semaphore, fd);
            &&& info.semaphore == semaphore
            &&& info.fd == fd
            &&& info.flags == 0x1
            &&& info.handle_type == 0x10
        }),
{
}

/// The reasons for which an image is refused are told in words of their own.
pub proof fn refusals_have_their_own_words()
    ensures
        ExternalFrameError::UninitializedState.text()
            == "external frame initial state must describe initialized producer contents",
        ExternalFrameError::IndefiniteState.text()
            == "external frame initial state must be a concrete texture usage",
        ExternalFrameError::NullImage.text() == "external image handle is null",
        ExternalFrameError::EmptyImage.text() == "external frame must be a non-empty 2D image",
        ExternalFrameError::NotVulkan.text() == "Vulkan external frames require a Vulkan adapter",
        ExternalFrameError::NoHalDevice.text() == "Vulkan HAL device is unavailable",
        ExternalFrameError::NoExternalSemaphoreFd.text()
            == "Vulkan external semaphore fd extension is not enabled",
        ExternalFrameError::NoForeignQueueFamily.text()
            == "Vulkan queue-family-foreign extension is not enabled",
        ExternalFrameError::SyncFileConsumed.text()
            == "external frame sync file was already consumed",
{
}

/// A semaphore is taken out of its fence once, and the file stays with the fence.
pub proof fn semaphores_are_taken_out_once<H: GpuHandles>(sync: VulkanExternalSync<H>)
    ensures
        ({
            let (after, semaphore) = sync.without_semaphore();
            &&& semaphore == sync.semaphore
            &&& after.semaphore is None
            &&& after.fd == sync.fd
            &&& after.without_semaphore().1 is None
        }),
{
}

} // verus!
