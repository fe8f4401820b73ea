//! The external frame that waits for the next submission and the one on screen.
use crate::device::Backend;
use crate::external::{
    AcquireBarrier, ExternalFrameAcquisition, ExternalFrameOutcome, ExternalNv12Frame,
    GpuContextHandle, GpuHandles, PreparedExternalFrame, ReleaseBarrier, SubmittedWork,
};
use crate::scene::{scene_contains_texture, surfaces_contain, Scene};
use crate::vulkan_sync::{
    classify_external_sync_error, sync_error_outcome, SyncImportEnd, SyncImportStep,
    VulkanExternalSync,
};
use vstd::prelude::*;

verus! {

/// A frame on its way to the next submission.
pub enum PendingExternalFrame<H: GpuHandles> {
    Prepared(PreparedExternalFrame<H>),
    Nv12(ExternalNv12Frame<H>),
}

impl<H: GpuHandles> PendingExternalFrame<H> {
    /// The frame is prepared and the scene samples its texture.
    pub open spec fn drawn_by(self, scene: Scene) -> bool {
        match self {
            PendingExternalFrame::Prepared(frame) => surfaces_contain(
                scene.surfaces@,
                frame.texture.id,
            ),
            PendingExternalFrame::Nv12(_) => false,
        }
    }

    /// Whether the frame is prepared and the scene samples its texture.
    pub fn is_drawn_by(&self, scene: &Scene) -> (result: bool)
        ensures
            result == self.drawn_by(*scene),
    {
        match self {
            PendingExternalFrame::Prepared(frame) => scene_contains_texture(
                scene,
                frame.texture().id,
            ),
            PendingExternalFrame::Nv12(_) => false,
        }
    }
}

/// Input to the external-frame seam.
pub enum ExternalFrame<H: GpuHandles> {
    /// A prepared texture to make the latest pending frame.
    Prepared(PreparedExternalFrame<H>),
    /// The producer could not acquire a frame this tick.
    TransientFailure,
    /// The producer encountered a failure that requires intervention.
    FatalFailure,
}

/// Input to the external-frame seam, for NV12 frames.
pub enum ExternalFrameRequest<H: GpuHandles> {
    /// An NV12 frame to make the latest pending frame.
    Prepared(ExternalNv12Frame<H>),
    /// The producer could not acquire a frame this tick.
    TransientFailure,
    /// The producer encountered a failure that requires intervention.
    FatalFailure,
}

/// One of the two places for an external frame.
#[derive(Clone, Copy, Debug, PartialEq, Eq, Structural)]
pub enum ExternalFrameSlot {
    Latest,
    Displayed,
}

/// The frame that waits for the next submission and the frame on screen.
#[derive(Debug)]
pub struct ExternalFrameState<T> {
    pub latest: Option<T>,
    pub displayed: Option<T>,
}

impl<T> Default for ExternalFrameState<T> {
    /// No frame at all.
    fn default() -> (result: Self)
        ensures
            result.latest is None,
            result.displayed is None,
    {
        ExternalFrameState { latest: None, displayed: None }
    }
}

impl<T> ExternalFrameState<T> {
    /// The state after `frame` was staged with `acquisition`: an accepted frame
    /// takes the place of the latest one, a failure drops the latest one.
    pub open spec fn staged(
        self,
        backend: Backend,
        acquisition: ExternalFrameAcquisition,
        frame: Option<T>,
    ) -> Self {
        match ExternalFrameOutcome::of(backend, acquisition) {
            ExternalFrameOutcome::Accepted => if frame is Some {
                ExternalFrameState { latest: frame, ..self }
            } else {
                self
            },
            ExternalFrameOutcome::TransientFailure | ExternalFrameOutcome::FatalFailure => {
                ExternalFrameState { latest: None, ..self }
            },
            ExternalFrameOutcome::Unsupported => self,
        }
    }

    /// The state after the latest frame reached the screen.
    pub open spec fn submitted(self) -> Self {
        if self.latest is Some {
            ExternalFrameState { latest: None, displayed: self.latest }
        } else {
            self
        }
    }

    /// The frame in a slot.
    pub open spec fn in_slot(self, slot: ExternalFrameSlot) -> Option<T> {
        match slot {
            ExternalFrameSlot::Latest => self.latest,
            ExternalFrameSlot::Displayed => self.displayed,
        }
    }

    /// The state after the frame in `slot` failed: the latest frame is dropped,
    /// the displayed one stays.
    pub open spec fn failed(self, slot: ExternalFrameSlot) -> Self {
        match slot {
            ExternalFrameSlot::Latest => ExternalFrameState { latest: None, ..self },
            ExternalFrameSlot::Displayed => self,
        }
    }

    /// Drops both frames.
    pub fn clear(&mut self)
        ensures
            final(self).latest is None,
            final(self).displayed is None,
    {
        self.latest = None;
        self.displayed = None;
    }

    /// Stages an acquisition: the frame on screen stays as it is.
    pub fn stage(
        &mut self,
        backend: Backend,
        acquisition: ExternalFrameAcquisition,
        frame: Option<T>,
    ) -> (result: ExternalFrameOutcome)
        ensures
            result == ExternalFrameOutcome::of(backend, acquisition),
            *final(self) == old(self).staged(backend, acquisition, frame),
    {
        let outcome = ExternalFrameOutcome::classify(backend, acquisition);
        match outcome {
            ExternalFrameOutcome::Accepted => {
                if frame.is_some() {
                    self.latest = frame;
                }
            },
            ExternalFrameOutcome::TransientFailure | ExternalFrameOutcome::FatalFailure => {
                self.latest = None;
            },
            ExternalFrameOutcome::Unsupported => {},
        }
        outcome
    }

    /// The slot of the frame for which `matches` holds, the latest one first.
    pub fn select_matching(&self, matches: impl Fn(&T) -> bool) -> (result: Option<
        ExternalFrameSlot,
    >)
        requires
            self.latest matches Some(frame) ==> call_requires(matches, (&frame,)),
            self.displayed matches Some(frame) ==> call_requires(matches, (&frame,)),
        ensures
            match result {
                Some(ExternalFrameSlot::Latest) => self.latest matches Some(frame)
                    && call_ensures(matches, (&frame,), true),
                Some(ExternalFrameSlot::Displayed) => {
                    &&& self.latest matches Some(frame) ==> call_ensures(matches, (&frame,), false)
                    &&& self.displayed matches Some(frame)
                    &&& call_ensures(matches, (&frame,), true)
                },
                None => {
                    &&& self.latest matches Some(frame) ==> call_ensures(matches, (&frame,), false)
                    &&& self.displayed matches Some(frame) ==> call_ensures(
                        matches,
                        (&frame,),
                        false,
                    )
                },
            },
    {
        if let Some(frame) = self.latest.as_ref() {
            if matches(frame) {
                return Some(ExternalFrameSlot::Latest);
            }
        }
        if let Some(frame) = self.displayed.as_ref() {
            if matches(frame) {
                return Some(ExternalFrameSlot::Displayed);
            }
        }
        None
    }

    /// The latest frame, if any, reached the screen.
    pub fn commit_after_submission(&mut self)
        ensures
            *final(self) == old(self).submitted(),
    {
        if self.latest.is_some() {
            self.displayed = self.latest.take();
        }
    }

    /// The frame that waits for the next submission.
    pub fn latest(&self) -> (result: Option<&T>)
        ensures
            match self.latest {
                Some(frame) => result == Some(&frame),
                None => result is None,
            },
    {
        self.latest.as_ref()
    }

    /// The frame on screen.
    pub fn displayed(&self) -> (result: Option<&T>)
        ensures
            match self.displayed {
                Some(frame) => result == Some(&frame),
                None => result is None,
            },
    {
        self.displayed.as_ref()
    }
}

/// The handle behind a reference, if any.
pub open spec fn handle_of(context: Option<&GpuContextHandle>) -> Option<GpuContextHandle> {
    match context {
        Some(handle) => Some(*handle),
        None => None,
    }
}

/// What importing the fence of a selected frame has to do first.
pub enum FrameSyncStep<H: GpuHandles> {
    /// Nothing is left to do.
    Finished(ExternalFrameOutcome),
    /// Create a semaphore and import this file into it.
    CreateSemaphore(H::SyncFile),
}

/// What importing the fence of a selected frame has to do last.
pub enum FrameSyncEnd<H: GpuHandles> {
    /// The queue's next submission waits for the semaphore at that stage.
    Wait { stage: u32 },
    /// Close the file again and destroy the semaphore.
    Undo { semaphore: H::Semaphore, outcome: ExternalFrameOutcome },
}

impl<H: GpuHandles> ExternalFrameState<PendingExternalFrame<H>> {
    /// The slot of the frame that the scene draws, the latest one first.
    pub open spec fn drawn_slot(self, scene: Scene) -> Option<ExternalFrameSlot> {
        if self.latest matches Some(frame) && frame.drawn_by(scene) {
            Some(ExternalFrameSlot::Latest)
        } else if self.displayed matches Some(frame) && frame.drawn_by(scene) {
            Some(ExternalFrameSlot::Displayed)
        } else {
            None
        }
    }

    /// The frame in `slot` is prepared and another producer owns its image.
    pub open spec fn external_in(self, slot: ExternalFrameSlot) -> bool {
        self.in_slot(slot) matches Some(PendingExternalFrame::Prepared(frame))
            && frame.ownership is Some
    }

    /// The slot of the frame that the scene draws, the latest one first.
    pub fn selection_for_scene(&self, scene: &Scene) -> (result: Option<ExternalFrameSlot>)
        ensures
            result == self.drawn_slot(*scene),
    {
        let drawn = |frame: &PendingExternalFrame<H>| -> (result: bool)
            ensures result == frame.drawn_by(*scene)
        { frame.is_drawn_by(scene) };
        self.select_matching(drawn)
    }

    /// The frame in a slot.
    pub fn selected(&self, slot: ExternalFrameSlot) -> (result: Option<&PendingExternalFrame<H>>)
        ensures
            match self.in_slot(slot) {
                Some(frame) => result == Some(&frame),
                None => result is None,
            },
    {
        match slot {
            ExternalFrameSlot::Latest => self.latest.as_ref(),
            ExternalFrameSlot::Displayed => self.displayed.as_ref(),
        }
    }

    /// The frame in a slot, to be changed.
    pub fn selected_mut(&mut self, slot: ExternalFrameSlot) -> (result: Option<
        &mut PendingExternalFrame<H>,
    >)
        ensures
            result is Some <==> old(self).in_slot(slot) is Some,
            result matches Some(frame) ==> {
                &&& old(self).in_slot(slot) == Some(*frame)
                &&& final(self).in_slot(slot) == Some(*final(frame))
            },
            result is None ==> *final(self) == *old(self),
            slot == ExternalFrameSlot::Latest ==> final(self).displayed == old(self).displayed,
            slot == ExternalFrameSlot::Displayed ==> final(self).latest == old(self).latest,
    {
        match slot {
            ExternalFrameSlot::Latest => self.latest.as_mut(),
            ExternalFrameSlot::Displayed => self.displayed.as_mut(),
        }
    }

    /// Whether the frame in `slot` is prepared and another producer owns its
    /// image.
    pub fn selected_is_external(&self, slot: ExternalFrameSlot) -> (result: bool)
        ensures
            result == self.external_in(slot),
    {
        match self.selected(slot) {
            Some(PendingExternalFrame::Prepared(frame)) => frame.is_external(),
            _ => false,
        }
    }

    /// Drops the frame in `slot` if that is the latest one.
    pub fn clear_selected_latest(&mut self, slot: ExternalFrameSlot)
        ensures
            *final(self) == old(self).failed(slot),
    {
        if slot == ExternalFrameSlot::Latest {
            self.latest = None;
        }
    }

    /// The latest frame is one that cannot be prepared: an NV12 frame without a
    /// device that takes it.
    pub open spec fn unpreparable(self, context: Option<GpuContextHandle>) -> bool {
        self.latest matches Some(PendingExternalFrame::Nv12(frame)) && match context {
            Some(context) => !frame.supported(context),
            None => true,
        }
    }

    /// The latest frame after its preparation.
    pub open spec fn prepared_latest(self, context: Option<GpuContextHandle>) -> Option<
        PendingExternalFrame<H>,
    > {
        if self.unpreparable(context) {
            None
        } else {
            match self.latest {
                Some(PendingExternalFrame::Nv12(frame)) => Some(
                    PendingExternalFrame::Prepared(
                        PreparedExternalFrame {
                            external_sync: Some(
                                VulkanExternalSync { fd: Some(frame.sync_file), semaphore: None },
                            ),
                            initial_state: 0x0010,
                            ownership: Some(frame.ownership),
                            texture: frame.texture,
                        },
                    ),
                ),
                latest => latest,
            }
        }
    }

    /// The state after the latest frame was prepared for submission.
    pub open spec fn prepared(self, context: Option<GpuContextHandle>) -> Self {
        ExternalFrameState { latest: self.prepared_latest(context), ..self }
    }

    /// Prepares the latest frame for submission. One that cannot be prepared is
    /// dropped.
    pub fn prepare_frame(&mut self, context: Option<&GpuContextHandle>) -> (result:
        ExternalFrameOutcome)
        ensures
            old(self).unpreparable(handle_of(context)) <==> result
                == ExternalFrameOutcome::Unsupported,
            !old(self).unpreparable(handle_of(context)) <==> result
                == ExternalFrameOutcome::Accepted,
            *final(self) == old(self).prepared(handle_of(context)),
    {
        let frame = match self.latest.take() {
            Some(frame) => frame,
            None => return ExternalFrameOutcome::Accepted,
        };
        let frame = match frame {
            PendingExternalFrame::Prepared(frame) => frame,
            PendingExternalFrame::Nv12(frame) => {
                let context = match context {
                    Some(context) => context,
                    None => return ExternalFrameOutcome::Unsupported,
                };
                match PreparedExternalFrame::from_external_nv12(context, frame) {
                    Ok(frame) => frame,
                    Err(outcome) => return outcome,
                }
            },
        };
        self.latest = Some(PendingExternalFrame::Prepared(frame));
        ExternalFrameOutcome::Accepted
    }

    /// What importing the fence of the frame in `slot` has to do first. A frame
    /// on screen was waited for already.
    pub open spec fn sync_step(self, slot: ExternalFrameSlot, hal_queue: bool) -> FrameSyncStep<H> {
        match slot {
            ExternalFrameSlot::Displayed => FrameSyncStep::Finished(ExternalFrameOutcome::Accepted),
            ExternalFrameSlot::Latest => match self.latest {
                None => FrameSyncStep::Finished(ExternalFrameOutcome::Accepted),
                Some(PendingExternalFrame::Nv12(_)) => FrameSyncStep::Finished(
                    ExternalFrameOutcome::FatalFailure,
                ),
                Some(PendingExternalFrame::Prepared(frame)) => match frame.import_step(hal_queue) {
                    SyncImportStep::Finished(Ok(())) => FrameSyncStep::Finished(
                        ExternalFrameOutcome::Accepted,
                    ),
                    SyncImportStep::Finished(Err(error)) => FrameSyncStep::Finished(
                        sync_error_outcome(error),
                    ),
                    SyncImportStep::CreateSemaphore(fd) => FrameSyncStep::CreateSemaphore(fd),
                },
            },
        }
    }

    /// The latest frame after that step: gone where the step failed, without
    /// its file where that is on its way to Vulkan.
    pub open spec fn after_sync_step(self, slot: ExternalFrameSlot, hal_queue: bool) -> Self {
        match self.sync_step(slot, hal_queue) {
            FrameSyncStep::Finished(ExternalFrameOutcome::Accepted) => self,
            FrameSyncStep::Finished(_) => self.failed(slot),
            FrameSyncStep::CreateSemaphore(_) => match self.latest {
                Some(PendingExternalFrame::Prepared(frame)) => ExternalFrameState {
                    latest: Some(
                        PendingExternalFrame::Prepared(
                            PreparedExternalFrame {
                                external_sync: Some(
                                    VulkanExternalSync { fd: None, semaphore: None },
                                ),
                                ..frame
                            },
                        ),
                    ),
                    ..self
                },
                _ => self,
            },
        }
    }

    /// The fence of the latest frame is on its way to Vulkan.
    pub open spec fn importing(self) -> bool {
        self.latest matches Some(PendingExternalFrame::Prepared(frame))
            && frame.external_sync is Some
    }

    /// The first step of importing the fence of the frame in `slot`. `hal_queue`
    /// tells whether the Vulkan queue can be reached.
    pub fn import_sync(&mut self, slot: ExternalFrameSlot, hal_queue: bool) -> (result:
        FrameSyncStep<H>)
        ensures
            result == old(self).sync_step(slot, hal_queue),
            *final(self) == old(self).after_sync_step(slot, hal_queue),
            result is CreateSemaphore ==> slot == ExternalFrameSlot::Latest && final(self).importing(),
    {
        if slot == ExternalFrameSlot::Displayed {
            return FrameSyncStep::Finished(ExternalFrameOutcome::Accepted);
        }
        let mut frame = match self.latest.take() {
            None => return FrameSyncStep::Finished(ExternalFrameOutcome::Accepted),
            Some(PendingExternalFrame::Nv12(_)) => {
                return FrameSyncStep::Finished(ExternalFrameOutcome::FatalFailure);
            },
            Some(PendingExternalFrame::Prepared(frame)) => frame,
        };
        match frame.import_sync(hal_queue) {
            SyncImportStep::Finished(Ok(())) => {
                self.latest = Some(PendingExternalFrame::Prepared(frame));
                FrameSyncStep::Finished(ExternalFrameOutcome::Accepted)
            },
            SyncImportStep::Finished(Err(error)) => FrameSyncStep::Finished(
                classify_external_sync_error(error),
            ),
            SyncImportStep::CreateSemaphore(fd) => {
                self.latest = Some(PendingExternalFrame::Prepared(frame));
                FrameSyncStep::CreateSemaphore(fd)
            },
        }
    }

    /// No semaphore could be created for the fence of the frame in `slot`.
    pub fn import_sync_failed(&mut self, slot: ExternalFrameSlot, error: i32) -> (result:
        ExternalFrameOutcome)
        ensures
            result == sync_error_outcome(error),
            *final(self) == old(self).failed(slot),
    {
        self.clear_selected_latest(slot);
        classify_external_sync_error(error)
    }

    /// The latest frame after Vulkan answered the import into `semaphore`.
    pub open spec fn after_sync_import(
        self,
        semaphore: H::Semaphore,
        answer: Result<(), i32>,
    ) -> Self {
        match (answer, self.latest) {
            (Ok(()), Some(PendingExternalFrame::Prepared(frame))) => match frame.external_sync {
                Some(sync) => ExternalFrameState {
                    latest: Some(
                        PendingExternalFrame::Prepared(
                            PreparedExternalFrame {
                                external_sync: Some(
                                    VulkanExternalSync { semaphore: Some(semaphore), ..sync },
                                ),
                                ..frame
                            },
                        ),
                    ),
                    ..self
                },
                None => self,
            },
            _ => self.failed(ExternalFrameSlot::Latest),
        }
    }

    /// The last step of importing the fence of the latest frame, after Vulkan
    /// answered the import into `semaphore`.
    pub fn import_sync_finished(
        &mut self,
        semaphore: H::Semaphore,
        answer: Result<(), i32>,
    ) -> (result: FrameSyncEnd<H>)
        requires
            old(self).importing(),
        ensures
            *final(self) == old(self).after_sync_import(semaphore, answer),
            match answer {
                Ok(()) => result == (FrameSyncEnd::<H>::Wait { stage: 0x1 }),
                Err(error) => result == (FrameSyncEnd::<H>::Undo {
                    semaphore,
                    outcome: sync_error_outcome(error),
                }),
            },
    {
        let latest = self.latest.take();
        if let Some(PendingExternalFrame::Prepared(mut frame)) = latest {
            if let Some(mut external_sync) = frame.external_sync.take() {
                let end = external_sync.import_finished(semaphore, answer);
                frame.external_sync = Some(external_sync);
                return match end {
                    SyncImportEnd::Wait { stage } => {
                        self.latest = Some(PendingExternalFrame::Prepared(frame));
                        FrameSyncEnd::Wait { stage }
                    },
                    SyncImportEnd::Undo { semaphore, error } => FrameSyncEnd::Undo {
                        semaphore,
                        outcome: classify_external_sync_error(error),
                    },
                };
            }
        }
        assert(false);
        FrameSyncEnd::Undo { semaphore, outcome: ExternalFrameOutcome::FatalFailure }
    }

    /// The transfer that takes over the image of the frame in `slot`.
    pub open spec fn acquire_in(self, slot: ExternalFrameSlot) -> Option<AcquireBarrier> {
        match self.in_slot(slot) {
            Some(PendingExternalFrame::Prepared(frame)) => frame.acquire_barrier(),
            _ => None,
        }
    }

    /// The transfer to record for the frame in `slot` before it is sampled.
    pub fn encode_acquire(&self, slot: ExternalFrameSlot) -> (result: Option<AcquireBarrier>)
        ensures
            result == self.acquire_in(slot),
    {
        match self.selected(slot) {
            Some(PendingExternalFrame::Prepared(frame)) => frame.encode_acquire_ownership(),
            _ => None,
        }
    }

    /// The transfer that gives back the image of the frame in `slot`. An NV12
    /// frame that is not prepared cannot be given back.
    pub open spec fn release_in(self, slot: ExternalFrameSlot) -> Result<
        Option<ReleaseBarrier>,
        ExternalFrameOutcome,
    > {
        match self.in_slot(slot) {
            Some(PendingExternalFrame::Prepared(frame)) => Ok(frame.release_barrier()),
            Some(PendingExternalFrame::Nv12(_)) => Err(ExternalFrameOutcome::FatalFailure),
            None => Ok(None),
        }
    }

    /// The transfer to record for the frame in `slot` after it was sampled.
    pub fn encode_release(&self, slot: ExternalFrameSlot) -> (result: Result<
        Option<ReleaseBarrier>,
        ExternalFrameOutcome,
    >)
        ensures
            result == self.release_in(slot),
    {
        match self.selected(slot) {
            Some(PendingExternalFrame::Prepared(frame)) => Ok(frame.encode_release_ownership()),
            Some(PendingExternalFrame::Nv12(_)) => Err(ExternalFrameOutcome::FatalFailure),
            None => Ok(None),
        }
    }

    /// A transfer for the frame in `slot` was recorded, or could not be: then
    /// the latest frame is dropped.
    pub fn transfer_encoded(&mut self, slot: ExternalFrameSlot, recorded: bool) -> (result:
        ExternalFrameOutcome)
        ensures
            recorded ==> result == ExternalFrameOutcome::Accepted && *final(self) == *old(self),
            !recorded ==> result == ExternalFrameOutcome::FatalFailure && *final(self) == old(self).failed(slot),
    {
        if !recorded {
            self.clear_selected_latest(slot);
            return ExternalFrameOutcome::FatalFailure;
        }
        ExternalFrameOutcome::Accepted
    }

    /// The state after a submission that drew the frame in `slot`.
    pub open spec fn committed(self, slot: Option<ExternalFrameSlot>) -> Self {
        match slot {
            Some(ExternalFrameSlot::Latest) => match self.latest {
                Some(PendingExternalFrame::Prepared(frame)) => ExternalFrameState {
                    latest: None,
                    displayed: Some(PendingExternalFrame::Prepared(frame.submitted())),
                },
                _ => ExternalFrameState { latest: None, ..self },
            },
            Some(ExternalFrameSlot::Displayed) => match self.displayed {
                Some(PendingExternalFrame::Prepared(frame)) => ExternalFrameState {
                    displayed: Some(PendingExternalFrame::Prepared(frame.submitted())),
                    ..self
                },
                _ => self,
            },
            None => self,
        }
    }

    /// What has to live until the work of that submission is done.
    pub open spec fn commit_work(self, slot: Option<ExternalFrameSlot>) -> Option<
        SubmittedWork<H>,
    > {
        match slot {
            Some(slot) => match self.in_slot(slot) {
                Some(PendingExternalFrame::Prepared(frame)) => frame.submitted_work(),
                _ => None,
            },
            None => None,
        }
    }

    /// A submission drew the frame in `slot`: the latest frame is on screen now.
    /// Hands out what has to live until the work is done.
    pub fn commit_after_submission_with_queue(&mut self, slot: Option<ExternalFrameSlot>) -> (result:
        Option<SubmittedWork<H>>)
        ensures
            *final(self) == old(self).committed(slot),
            result == old(self).commit_work(slot),
    {
        match slot {
            Some(ExternalFrameSlot::Latest) => {
                if let Some(PendingExternalFrame::Prepared(mut frame)) = self.latest.take() {
                    let work = frame.on_submitted();
                    self.displayed = Some(PendingExternalFrame::Prepared(frame));
                    work
                } else {
                    None
                }
            },
            Some(ExternalFrameSlot::Displayed) => {
                match self.displayed.take() {
                    Some(PendingExternalFrame::Prepared(mut frame)) => {
                        let work = frame.on_submitted();
                        self.displayed = Some(PendingExternalFrame::Prepared(frame));
                        work
                    },
                    displayed => {
                        self.displayed = displayed;
                        None
                    },
                }
            },
            None => None,
        }
    }
}

/// The displayed frame stays as it is while frames are staged, prepared,
/// synchronized and dropped for a failure, whatever comes of it: it changes
/// only where a submission is committed.
pub proof fn displayed_frame_changes_only_by_submission<H: GpuHandles>(
    state: ExternalFrameState<PendingExternalFrame<H>>,
    backend: Backend,
    acquisition: ExternalFrameAcquisition,
    frame: Option<PendingExternalFrame<H>>,
    context: Option<GpuContextHandle>,
    slot: ExternalFrameSlot,
    hal_queue: bool,
    semaphore: H::Semaphore,
    answer: Result<(), i32>,
)
    ensures
        state.staged(backend, acquisition, frame).displayed == state.displayed,
        state.prepared(context).displayed == state.displayed,
        state.after_sync_step(slot, hal_queue).displayed == state.displayed,
        state.after_sync_import(semaphore, answer).displayed == state.displayed,
        state.failed(slot).displayed == state.displayed,
        state.committed(None) == state,
{
}

/// Only the last of several staged frames is kept.
pub proof fn last_staged_frame_is_kept<T>(state: ExternalFrameState<T>, first: T, second: T)
    ensures
        state.staged(Backend::Vulkan, ExternalFrameAcquisition::Prepared, Some(first)).staged(
            Backend::Vulkan,
            ExternalFrameAcquisition::Prepared,
            Some(second),
        ) == state.staged(Backend::Vulkan, ExternalFrameAcquisition::Prepared, Some(second)),
        state.staged(
            Backend::Vulkan,
            ExternalFrameAcquisition::Prepared,
            Some(second),
        ).latest == Some(second),
{
}

/// Backends other than Vulkan support no external frame, and staging one there
/// changes nothing.
pub proof fn other_backends_change_nothing<T>(
    state: ExternalFrameState<T>,
    backend: Backend,
    acquisition: ExternalFrameAcquisition,
    frame: Option<T>,
)
    requires
        backend != Backend::Vulkan,
    ensures
        ExternalFrameOutcome::of(backend, acquisition) == ExternalFrameOutcome::Unsupported,
        state.staged(backend, acquisition, frame) == state,
{
}

/// A prepared frame that is staged and drawn by the scene is the one selected,
/// and its submission puts it on screen.
pub proof fn staged_frame_reaches_the_screen<H: GpuHandles>(
    state: ExternalFrameState<PendingExternalFrame<H>>,
    frame: PreparedExternalFrame<H>,
    context: Option<GpuContextHandle>,
    scene: Scene,
)
    requires
        surfaces_contain(scene.surfaces@, frame.texture.id),
    ensures
        ({
            let staged = state.staged(
                Backend::Vulkan,
                ExternalFrameAcquisition::Prepared,
                Some(PendingExternalFrame::Prepared(frame)),
            ).prepared(context);
            &&& staged.drawn_slot(scene) == Some(ExternalFrameSlot::Latest)
            &&& staged.committed(staged.drawn_slot(scene)) == (ExternalFrameState {
                latest: None,
                displayed: Some(PendingExternalFrame::Prepared(frame.submitted())),
            })
        }),
{
}

/// A staged NV12 frame that the device takes and the scene draws is the one
/// selected, with its own fence and owner, and its submission puts it on
/// screen.
pub proof fn staged_nv12_frame_reaches_the_screen<H: GpuHandles>(
    state: ExternalFrameState<PendingExternalFrame<H>>,
    frame: ExternalNv12Frame<H>,
    context: GpuContextHandle,
    scene: Scene,
)
    requires
        frame.supported(context),
        surfaces_contain(scene.surfaces@, frame.texture.id),
    ensures
        ({
            let staged = state.staged(
                Backend::Vulkan,
                ExternalFrameAcquisition::Prepared,
                Some(PendingExternalFrame::Nv12(frame)),
            ).prepared(Some(context));
            let shown = staged.committed(staged.drawn_slot(scene));
            &&& staged.drawn_slot(scene) == Some(ExternalFrameSlot::Latest)
            &&& staged.sync_step(ExternalFrameSlot::Latest, true)
                == FrameSyncStep::<H>::CreateSemaphore(frame.sync_file)
            &&& staged.external_in(ExternalFrameSlot::Latest)
            &&& shown.latest is None
            &&& shown.displayed matches Some(PendingExternalFrame::Prepared(displayed))
            &&& displayed.texture == frame.texture
            &&& displayed.ownership == Some(frame.ownership)
        }),
{
}

/// After the latest frame failed, a displayed frame that the scene draws is
/// selected in its place, and nothing else is.
pub proof fn failed_frame_falls_back_to_displayed<H: GpuHandles>(
    state: ExternalFrameState<PendingExternalFrame<H>>,
    scene: Scene,
)
    ensures
        state.failed(ExternalFrameSlot::Latest).drawn_slot(scene) == if state.displayed matches Some(
            frame,
        ) && frame.drawn_by(scene) {
            Some(ExternalFrameSlot::Displayed)
        } else {
            None
        },
{
}

/// A latest frame that the scene does not draw is neither selected nor lost by
/// a submission.
pub proof fn undrawn_latest_frame_stays_pending<H: GpuHandles>(
    state: ExternalFrameState<PendingExternalFrame<H>>,
    scene: Scene,
)
    requires
        state.latest matches Some(frame) ==> !frame.drawn_by(scene),
    ensures
        state.drawn_slot(scene) != Some(ExternalFrameSlot::Latest),
        state.committed(state.drawn_slot(scene)).latest == state.latest,
{
}

/// Every image that is taken over for a submission is given back to the family
/// that it came from, and exactly the images of other producers are. A selected
/// frame is always prepared.
pub proof fn transfers_are_paired<H: GpuHandles>(
    state: ExternalFrameState<PendingExternalFrame<H>>,
    scene: Scene,
)
    ensures
        state.drawn_slot(scene) matches Some(slot) ==> {
            &&& state.acquire_in(slot) is Some <==> state.external_in(slot)
            &&& match state.acquire_in(slot) {
                Some(acquire) => state.release_in(slot) == Ok::<
                    Option<ReleaseBarrier>,
                    ExternalFrameOutcome,
                >(
                    Some(
                        ReleaseBarrier { range: acquire.range, queue_family: acquire.queue_family },
                    ),
                ),
                None => state.release_in(slot) == Ok::<
                    Option<ReleaseBarrier>,
                    ExternalFrameOutcome,
                >(None),
            }
        },
{
}

/// A fence that Vulkan took is not imported again, and the file is handed out
/// only once.
pub proof fn fence_is_imported_once<H: GpuHandles>(
    state: ExternalFrameState<PendingExternalFrame<H>>,
    semaphore: H::Semaphore,
)
    requires
        state.sync_step(ExternalFrameSlot::Latest, true) is CreateSemaphore,
    ensures
        ({
            let started = state.after_sync_step(ExternalFrameSlot::Latest, true);
            let imported = started.after_sync_import(semaphore, Ok(()));
            &&& started.importing()
            &&& started.sync_step(ExternalFrameSlot::Latest, true) == FrameSyncStep::<H>::Finished(
                ExternalFrameOutcome::TransientFailure,
            )
            &&& imported.sync_step(ExternalFrameSlot::Latest, true) == FrameSyncStep::<H>::Finished(
                ExternalFrameOutcome::Accepted,
            )
            &&& imported.after_sync_step(ExternalFrameSlot::Latest, true) == imported
        }),
{
}

/// The fence of an external frame is handed out with the submission that waits
/// for it, and with no later one.
pub proof fn fence_leaves_with_its_submission<H: GpuHandles>(
    state: ExternalFrameState<PendingExternalFrame<H>>,
    slot: ExternalFrameSlot,
)
    requires
        state.external_in(slot),
    ensures
        state.in_slot(slot) matches Some(PendingExternalFrame::Prepared(frame)) && state.commit_work(
            Some(slot),
        ) == Some(SubmittedWork { external_sync: frame.external_sync, texture: frame.texture.id }),
        state.committed(Some(slot)).commit_work(Some(ExternalFrameSlot::Displayed)) matches Some(
            work,
        ) && work.external_sync is None,
{
}

} // verus!
