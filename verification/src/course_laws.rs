//! What a frame does on its way from its scene to the screen.
use crate::draw::FrameError;
use crate::drawing::{empty_frame, RecordError};
use crate::external::{
    owning_family, ExternalFrameOutcome, ExternalOwnership, GpuContextHandle, GpuHandles,
    PreparedExternalFrame,
};
use crate::external_state::{
    ExternalFrameSlot, ExternalFrameState, FrameSyncStep, PendingExternalFrame,
};
use crate::frame_steps::{FrameAction, FrameCourse, FrameEvent, FrameStage};
use crate::instances::InstanceMemory;
use crate::renderer::{Platform, WgpuRenderer};
use crate::scene::Scene;
use crate::vulkan_sync::sync_error_outcome;
use vstd::prelude::*;

verus! {

/// A frame starts by binding the scene's primitives. Where they do not fit it is
/// given up, and nothing else has happened.
pub proof fn scene_that_does_not_fit_is_given_up<H: GpuHandles>(
    renderer: WgpuRenderer<H>,
    scene: Scene,
    context: Option<GpuContextHandle>,
    after: WgpuRenderer<H>,
    course: FrameCourse,
    action: FrameAction<H>,
)
    requires
        renderer.started_step(scene, context, after, course, action),
        empty_frame(renderer.memory).primitives_bound(scene, 6).1 is Some,
    ensures
        action matches FrameAction::Fail(RecordError::Frame(FrameError::SceneTooLarge(error))) && {
            &&& empty_frame(renderer.memory).primitives_bound(scene, 6).1 == Some(error)
            &&& course.stage == FrameStage::Finished
            &&& course.frame.recorder@ == empty_frame(renderer.memory).primitives_bound(scene, 6).0
            &&& after.memory == course.frame.recorder@.memory
            &&& course.frame.selection is None
            &&& !course.frame.external
            &&& after.external_frames == renderer.external_frames
            &&& after.last_external_frame_outcome == renderer.last_external_frame_outcome
            &&& after == (WgpuRenderer { memory: after.memory, ..renderer })
        },
{
}

/// On Linux, an external frame that cannot be prepared is dropped and reported,
/// and the frame is given up. Elsewhere external frames are left alone.
pub proof fn unpreparable_frame_is_given_up<H: GpuHandles>(
    renderer: WgpuRenderer<H>,
    scene: Scene,
    context: Option<GpuContextHandle>,
    after: WgpuRenderer<H>,
    course: FrameCourse,
    action: FrameAction<H>,
)
    requires
        renderer.started_step(scene, context, after, course, action),
        empty_frame(renderer.memory).primitives_bound(scene, 6).1 is None,
    ensures
        ({
            let dropped = renderer.platform == Platform::Linux
                && renderer.external_frames.unpreparable(context);
            &&& dropped <==> action == FrameAction::<H>::Fail(RecordError::ExternalPreparation)
            &&& dropped ==> {
                &&& after.external_frames.latest is None
                &&& after.last_external_frame_outcome == Some(ExternalFrameOutcome::Unsupported)
                &&& course.stage == FrameStage::Finished
                &&& course.frame.recorder@ == empty_frame(renderer.memory).primitives_bound(
                    scene,
                    6,
                ).0
                &&& course.frame.selection is None
                &&& !course.frame.external
            }
            &&& !dropped ==> after.last_external_frame_outcome
                == renderer.last_external_frame_outcome
            &&& renderer.platform != Platform::Linux ==> {
                &&& after.external_frames == renderer.external_frames
                &&& course.frame.selection is None
                &&& !course.frame.external
            }
            &&& after.memory == course.frame.recorder@.memory
            &&& after.external_frames.displayed == renderer.external_frames.displayed
            &&& after == (WgpuRenderer {
                memory: after.memory,
                external_frames: after.external_frames,
                last_external_frame_outcome: after.last_external_frame_outcome,
                ..renderer
            })
        }),
{
}

/// On Linux, the external frame that the scene draws is the one that is
/// selected. Where another producer owns its image, that is taken over first,
/// from its owner; where not, the scene is recorded at once.
pub proof fn external_image_is_taken_over_first<H: GpuHandles>(
    renderer: WgpuRenderer<H>,
    scene: Scene,
    context: Option<GpuContextHandle>,
    after: WgpuRenderer<H>,
    course: FrameCourse,
    action: FrameAction<H>,
    frame: PreparedExternalFrame<H>,
    ownership: ExternalOwnership,
)
    requires
        renderer.started_step(scene, context, after, course, action),
        empty_frame(renderer.memory).primitives_bound(scene, 6).1 is None,
        renderer.platform == Platform::Linux,
        !renderer.external_frames.unpreparable(context),
    ensures
        ({
            let bound = empty_frame(renderer.memory).primitives_bound(scene, 6).0;
            &&& after.external_frames == renderer.external_frames.prepared(context)
            &&& course.frame.selection == after.external_frames.drawn_slot(scene)
            &&& course.frame.external <==> {
                &&& course.frame.selection matches Some(slot)
                &&& after.external_frames.external_in(slot)
            }
            &&& course.frame.external <==> course.stage == FrameStage::Acquiring
            &&& course.frame.external <==> action is RecordAcquire
            &&& course.frame.external ==> course.frame.recorder@ == bound
            &&& action matches FrameAction::RecordAcquire { slot, acquire } ==> {
                &&& course.frame.selection == Some(slot)
                &&& after.external_frames.in_slot(slot) == Some(
                    PendingExternalFrame::Prepared(frame),
                ) && frame.ownership == Some(ownership) ==> {
                    &&& acquire.queue_family == owning_family(ownership)
                    &&& acquire.state == frame.initial_state
                }
            }
            &&& !course.frame.external ==> course.frame.recorder@ == bound.scene_recorded(
                scene,
                renderer.targets(),
            ).0
        }),
{
}

/// Whenever a scene is recorded, at once or after an image was taken over, it is
/// recorded whole behind what was recorded before, and encoded next; where it
/// does not fit, the frame is given up with the reason. The memory that the
/// scene grew is kept, and nothing else changes.
pub proof fn recorded_scene_is_encoded_next<H: GpuHandles>(
    renderer: WgpuRenderer<H>,
    course: FrameCourse,
    scene: Scene,
    after: WgpuRenderer<H>,
    next: FrameCourse,
    action: FrameAction<H>,
)
    requires
        renderer.frame_step(
            course,
            scene,
            FrameEvent::AcquireRecorded(true),
            after,
            next,
            action,
        ),
    ensures
        ({
            let (recorded, error) = course.frame.recorder@.scene_recorded(
                scene,
                renderer.targets(),
            );
            &&& next.frame.recorder@ == recorded
            &&& next.frame.selection == course.frame.selection
            &&& next.frame.external == course.frame.external
            &&& after == (WgpuRenderer { memory: recorded.memory, ..renderer })
            &&& error is None <==> action == FrameAction::<H>::Encode
            &&& error is None <==> next.stage == FrameStage::Encoding
            &&& error matches Some(error) ==> {
                &&& action == FrameAction::<H>::Fail(RecordError::Frame(error))
                &&& next.stage == FrameStage::Finished
            }
        }),
{
}

/// An image that cannot be taken over or given back costs its frame: a frame that
/// waited is dropped, the one on screen stays, the failure is fatal, and what is
/// being drawn is given up, each with a reason of its own. Nothing else changes.
pub proof fn failed_transfer_gives_the_frame_up<H: GpuHandles>(
    renderer: WgpuRenderer<H>,
    course: FrameCourse,
    scene: Scene,
    event: FrameEvent<H>,
    slot: ExternalFrameSlot,
    hal_queue: bool,
    after: WgpuRenderer<H>,
    next: FrameCourse,
    action: FrameAction<H>,
)
    requires
        course.frame.selection == Some(slot),
        event == FrameEvent::<H>::AcquireRecorded(false) || event == (FrameEvent::<
            H,
        >::ReleaseRecorded { recorded: false, hal_queue }),
        renderer.frame_step(course, scene, event, after, next, action),
    ensures
        next.stage == FrameStage::Finished,
        event is AcquireRecorded ==> action == FrameAction::<H>::Fail(RecordError::ExternalAcquire),
        event is ReleaseRecorded ==> action == FrameAction::<H>::Fail(RecordError::ExternalRelease),
        after.last_external_frame_outcome == Some(ExternalFrameOutcome::FatalFailure),
        slot == ExternalFrameSlot::Latest ==> after.external_frames.latest is None,
        slot == ExternalFrameSlot::Displayed ==> after.external_frames.latest
            == renderer.external_frames.latest,
        after.external_frames.displayed == renderer.external_frames.displayed,
        after == (WgpuRenderer {
            external_frames: after.external_frames,
            last_external_frame_outcome: after.last_external_frame_outcome,
            ..renderer
        }),
{
}

/// Once the scene is encoded, an external image is given back to its own owner,
/// and every other frame is submitted, with nothing to wait for.
pub proof fn encoded_frame_gives_its_image_back<H: GpuHandles>(
    renderer: WgpuRenderer<H>,
    course: FrameCourse,
    scene: Scene,
    after: WgpuRenderer<H>,
    next: FrameCourse,
    action: FrameAction<H>,
    frame: PreparedExternalFrame<H>,
    ownership: ExternalOwnership,
)
    requires
        renderer.frame_step(course, scene, FrameEvent::Encoded, after, next, action),
    ensures
        after == renderer,
        next.frame.recorder@ == course.frame.recorder@,
        !course.frame.external ==> {
            &&& action == (FrameAction::<H>::Submit { wait: None })
            &&& next.stage == FrameStage::Submitting
        },
        course.frame.external ==> {
            &&& next.stage == FrameStage::Releasing
            &&& action matches FrameAction::RecordRelease { slot, release }
            &&& course.frame.selection == Some(slot) || course.frame.selection is None
            &&& renderer.external_frames.in_slot(slot) == Some(
                PendingExternalFrame::Prepared(frame),
            ) && frame.ownership == Some(ownership) ==> release.queue_family == owning_family(
                ownership,
            )
        },
{
}

/// Once the image is given back, a fence that is still a file is imported, that
/// very file; a frame without one, or one that was on screen already, is
/// submitted at once. A fence that cannot be imported costs its frame.
pub proof fn fence_is_imported_before_submission<H: GpuHandles>(
    renderer: WgpuRenderer<H>,
    course: FrameCourse,
    scene: Scene,
    hal_queue: bool,
    after: WgpuRenderer<H>,
    next: FrameCourse,
    action: FrameAction<H>,
    frame: PreparedExternalFrame<H>,
)
    requires
        renderer.frame_step(
            course,
            scene,
            FrameEvent::ReleaseRecorded { recorded: true, hal_queue },
            after,
            next,
            action,
        ),
        course.frame.selection is Some,
        renderer.external_frames.in_slot(course.frame.selection->0) == Some(
            PendingExternalFrame::Prepared(frame),
        ),
    ensures
        ({
            let shown = course.frame.selection == Some(ExternalFrameSlot::Displayed);
            let fenced = !shown && frame.external_sync is Some;
            let sync = frame.external_sync->0;
            &&& !fenced ==> action == (FrameAction::<H>::Submit { wait: None })
            &&& fenced && hal_queue && sync.semaphore is Some ==> action == (FrameAction::<
                H,
            >::Submit { wait: None })
            &&& fenced && hal_queue && sync.semaphore is None && sync.fd is Some ==> {
                &&& action == (FrameAction::<H>::ImportSync { file: sync.fd->0 })
                &&& next.stage == FrameStage::Importing
            }
            &&& fenced && !hal_queue ==> {
                &&& action == FrameAction::<H>::Fail(RecordError::ExternalSync)
                &&& after.last_external_frame_outcome == Some(ExternalFrameOutcome::FatalFailure)
                &&& after.external_frames.latest is None
            }
            &&& fenced && hal_queue && sync.semaphore is None && sync.fd is None ==> {
                &&& action == FrameAction::<H>::Fail(RecordError::ExternalSync)
                &&& after.last_external_frame_outcome == Some(
                    ExternalFrameOutcome::TransientFailure,
                )
                &&& after.external_frames.latest is None
            }
            &&& action is Submit ==> after == renderer && next.stage == FrameStage::Submitting
            &&& action is Fail ==> next.stage == FrameStage::Finished
            &&& after.external_frames.displayed == renderer.external_frames.displayed
        }),
{
}

/// Vulkan's answer to the import decides: where the fence was taken, the frame
/// holds the semaphore and its submission waits for it before anything else;
/// where not, the semaphore is handed back to be destroyed and the frame is
/// given up, for as bad a reason as Vulkan's. Without a semaphore it is given up
/// the same way.
pub proof fn answer_decides_over_the_fence<H: GpuHandles>(
    renderer: WgpuRenderer<H>,
    course: FrameCourse,
    scene: Scene,
    semaphore: H::Semaphore,
    error: i32,
    taken: (WgpuRenderer<H>, FrameCourse, FrameAction<H>),
    refused: (WgpuRenderer<H>, FrameCourse, FrameAction<H>),
    missing: (WgpuRenderer<H>, FrameCourse, FrameAction<H>),
)
    requires
        course.frame.selection == Some(ExternalFrameSlot::Latest),
        renderer.external_frames.importing(),
        renderer.frame_step(
            course,
            scene,
            FrameEvent::SyncAnswered { semaphore, answer: Ok(()) },
            taken.0,
            taken.1,
            taken.2,
        ),
        renderer.frame_step(
            course,
            scene,
            FrameEvent::SyncAnswered { semaphore, answer: Err(error) },
            refused.0,
            refused.1,
            refused.2,
        ),
        renderer.frame_step(
            course,
            scene,
            FrameEvent::SemaphoreRefused(error),
            missing.0,
            missing.1,
            missing.2,
        ),
    ensures
        taken.2 == (FrameAction::<H>::Submit { wait: Some(0x1) }),
        taken.1.stage == FrameStage::Submitting,
        taken.0.external_frames.latest matches Some(PendingExternalFrame::Prepared(frame))
            && frame.external_sync matches Some(sync) && sync.semaphore == Some(semaphore),
        taken.0.last_external_frame_outcome == renderer.last_external_frame_outcome,
        refused.2 == (FrameAction::<H>::Undo { semaphore, error: RecordError::ExternalSync }),
        refused.1.stage == FrameStage::Finished,
        refused.0.external_frames.latest is None,
        refused.0.last_external_frame_outcome == Some(sync_error_outcome(error)),
        missing.2 == FrameAction::<H>::Fail(RecordError::ExternalSync),
        missing.1.stage == FrameStage::Finished,
        missing.0 == refused.0,
        taken.0.external_frames.displayed == renderer.external_frames.displayed,
        refused.0.external_frames.displayed == renderer.external_frames.displayed,
        refused.0 == (WgpuRenderer {
            external_frames: refused.0.external_frames,
            last_external_frame_outcome: refused.0.last_external_frame_outcome,
            ..renderer
        }),
{
}

/// A submission ends the frame. On Linux what it drew is on screen, and what has
/// to live until its work is done is handed out; elsewhere the frame that waited
/// is. Only the external frames change.
pub proof fn submission_ends_the_frame<H: GpuHandles>(
    renderer: WgpuRenderer<H>,
    course: FrameCourse,
    scene: Scene,
    after: WgpuRenderer<H>,
    next: FrameCourse,
    action: FrameAction<H>,
    frame: PreparedExternalFrame<H>,
)
    requires
        renderer.frame_step(course, scene, FrameEvent::Submitted, after, next, action),
    ensures
        next.stage == FrameStage::Finished,
        action is Retain,
        after == (WgpuRenderer { external_frames: after.external_frames, ..renderer }),
        renderer.platform == Platform::Linux && course.frame.selection is None ==> {
            &&& after == renderer
            &&& action == FrameAction::<H>::Retain(None)
        },
        renderer.platform == Platform::Linux && course.frame.selection == Some(
            ExternalFrameSlot::Latest,
        ) && renderer.external_frames.latest == Some(PendingExternalFrame::Prepared(frame)) ==> {
            &&& after.external_frames.latest is None
            &&& after.external_frames.displayed matches Some(PendingExternalFrame::Prepared(shown))
            &&& shown.texture == frame.texture
            &&& shown.ownership == frame.ownership
            &&& frame.ownership is Some ==> {
                &&& action matches FrameAction::Retain(Some(work))
                &&& work.external_sync == frame.external_sync
                &&& work.texture == frame.texture.id
            }
            &&& frame.ownership is None ==> action == FrameAction::<H>::Retain(None)
        },
        renderer.platform != Platform::Linux ==> {
            &&& action == FrameAction::<H>::Retain(None)
            &&& after.external_frames.latest is None
            &&& after.external_frames.displayed == if renderer.external_frames.latest is Some {
                renderer.external_frames.latest
            } else {
                renderer.external_frames.displayed
            }
        },
{
}

/// A frame that is not prepared is neither given back nor imported, which is
/// fatal, and does not reach the screen; where there is no frame there is nothing
/// to do.
pub proof fn unprepared_frame_goes_nowhere<H: GpuHandles>(
    state: ExternalFrameState<PendingExternalFrame<H>>,
    hal_queue: bool,
)
    ensures
        ({
            let latest = ExternalFrameSlot::Latest;
            let fatal = ExternalFrameOutcome::FatalFailure;
            let accepted = ExternalFrameOutcome::Accepted;
            &&& state.latest matches Some(PendingExternalFrame::Nv12(_)) ==> {
                &&& state.release_in(latest) matches Err(outcome)
                &&& outcome == fatal
                &&& state.acquire_in(latest) is None
                &&& state.sync_step(latest, hal_queue)
                    == FrameSyncStep::<H>::Finished(fatal)
                &&& state.after_sync_step(latest, hal_queue).latest is None
                &&& state.committed(Some(latest)).latest is None
                &&& state.committed(Some(latest)).displayed == state.displayed
                &&& state.commit_work(Some(latest)) is None
                &&& !state.external_in(latest)
            }
            &&& state.latest is None ==> {
                &&& state.release_in(latest) matches Ok(barrier)
                &&& barrier is None
                &&& state.acquire_in(latest) is None
                &&& state.sync_step(latest, hal_queue)
                    == FrameSyncStep::<H>::Finished(accepted)
                &&& state.committed(Some(latest)) == state
                &&& !state.external_in(latest)
            }
        }),
{
}

/// The reasons for which a frame is given up are told in words of their own,
/// where they hold no numbers.
pub proof fn reasons_have_their_own_words(error: RecordError)
    ensures
        error.text() is None <==> {
            &&& error matches RecordError::Frame(frame)
            &&& frame != FrameError::SurfacesExhausted
        },
        RecordError::Frame(FrameError::SurfacesExhausted).text() == Some(
            "surface instance buffer exhausted",
        ),
        RecordError::ExternalPreparation.text() == Some("external frame preparation failed"),
        RecordError::ExternalAcquire.text() == Some("external frame acquire encoding failed"),
        RecordError::ExternalRelease.text() == Some("external frame release encoding failed"),
        RecordError::ExternalSync.text() == Some("external frame acquire preparation failed"),
{
}

/// A frame starts with nothing recorded and at the start of the memory.
pub proof fn frames_start_from_nothing(memory: InstanceMemory)
    ensures
        empty_frame(memory).memory == memory,
        empty_frame(memory).offset == 0,
        empty_frame(memory).bindings.len() == 0,
        empty_frame(memory).videos.len() == 0,
        empty_frame(memory).commands.len() == 0,
{
}

} // verus!
