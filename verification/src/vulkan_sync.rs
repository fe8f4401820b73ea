//! Handing a producer's fence to Vulkan as a semaphore.
use crate::external::{ExternalFrameOutcome, GpuHandles};
use crate::outside::{
    error_device_lost, error_initialization_failed, error_invalid_external_handle,
    error_out_of_device_memory, error_out_of_host_memory, semaphore_handle_sync_fd,
    semaphore_import_temporary, stage_top_of_pipe,
};
use vstd::prelude::*;

verus! {

/// Vulkan's code for an external handle that cannot be used.
pub const INVALID_EXTERNAL_HANDLE: i32 = -1_000_072_003;

/// Vulkan's code for a failed initialization.
pub const INITIALIZATION_FAILED: i32 = -3;

/// A Vulkan error that leaves the device unusable.
pub open spec fn fatal_code(error: i32) -> bool {
    error == -1 || error == -2 || error == -3 || error == -4
}

/// The outcome that a Vulkan error stands for.
pub open spec fn sync_error_outcome(error: i32) -> ExternalFrameOutcome {
    if fatal_code(error) {
        ExternalFrameOutcome::FatalFailure
    } else {
        ExternalFrameOutcome::TransientFailure
    }
}

/// Classifies a Vulkan error code: exhausted memory, a failed initialization
/// and a lost device are fatal, everything else may pass.
pub fn classify_external_sync_error(error: i32) -> (result: ExternalFrameOutcome)
    ensures
        result == sync_error_outcome(error),
{
    if error == error_initialization_failed() || error == error_device_lost() || error
        == error_out_of_device_memory() || error == error_out_of_host_memory() {
        ExternalFrameOutcome::FatalFailure
    } else {
        ExternalFrameOutcome::TransientFailure
    }
}

/// How to import a sync file into a semaphore.
#[derive(Clone, Copy, Debug, PartialEq, Eq, Structural)]
pub struct SyncFileImportInfo {
    pub semaphore: u64,
    pub flags: u32,
    pub handle_type: u32,
    pub fd: i32,
}

/// A producer's fence: a sync file until it is imported, a semaphore after.
pub struct VulkanExternalSync<H: GpuHandles> {
    pub fd: Option<H::SyncFile>,
    pub semaphore: Option<H::Semaphore>,
}

/// What importing a fence has to do first.
pub enum SyncImportStep<H: GpuHandles> {
    /// Nothing is left to do.
    Finished(Result<(), i32>),
    /// Create a semaphore and import this file into it.
    CreateSemaphore(H::SyncFile),
}

/// What importing a fence has to do last.
pub enum SyncImportEnd<H: GpuHandles> {
    /// The queue's next submission waits for the semaphore at that stage.
    Wait { stage: u32 },
    /// Close the file again and destroy the semaphore.
    Undo { semaphore: H::Semaphore, error: i32 },
}

impl<H: GpuHandles> VulkanExternalSync<H> {
    /// A fence that is still a sync file.
    pub fn new(fd: H::SyncFile) -> (result: Self)
        ensures
            result.fd == Some(fd),
            result.semaphore is None,
    {
        VulkanExternalSync { fd: Some(fd), semaphore: None }
    }

    /// How to import the sync file `fd` into `semaphore`: once, as a sync file.
    pub open spec fn import_info(semaphore: u64, fd: i32) -> SyncFileImportInfo {
        SyncFileImportInfo { semaphore, flags: 0x1, handle_type: 0x10, fd }
    }

    /// How to import the sync file `fd` into `semaphore`: once, as a sync file.
    pub fn sync_file_import_info(semaphore: u64, fd: i32) -> (result: SyncFileImportInfo)
        ensures
            result == Self::import_info(semaphore, fd),
            result == (SyncFileImportInfo { semaphore, flags: 0x1, handle_type: 0x10, fd }),
    {
        SyncFileImportInfo {
            semaphore,
            flags: semaphore_import_temporary(),
            handle_type: semaphore_handle_sync_fd(),
            fd,
        }
    }

    /// The first step of importing the fence. A fence is imported once; one
    /// without a file cannot be.
    pub fn import(&mut self) -> (result: SyncImportStep<H>)
        ensures
            final(self).fd is None || old(self).semaphore is Some,
            final(self).semaphore == old(self).semaphore,
            old(self).semaphore is Some ==> {
                &&& *final(self) == *old(self)
                &&& result == SyncImportStep::<H>::Finished(Ok(()))
            },
            old(self).semaphore is None ==> match old(self).fd {
                Some(fd) => result == SyncImportStep::<H>::CreateSemaphore(fd),
                None => result == SyncImportStep::<H>::Finished(Err(INVALID_EXTERNAL_HANDLE)),
            },
    {
        if self.semaphore.is_some() {
            return SyncImportStep::Finished(Ok(()));
        }
        match self.fd.take() {
            Some(fd) => SyncImportStep::CreateSemaphore(fd),
            None => SyncImportStep::Finished(Err(error_invalid_external_handle())),
        }
    }

    /// The last step of importing the fence, after Vulkan answered the import
    /// into `semaphore`. On success the fence keeps the semaphore.
    pub fn import_finished(&mut self, semaphore: H::Semaphore, answer: Result<(), i32>) -> (result:
        SyncImportEnd<H>)
        ensures
            final(self).fd == old(self).fd,
            match answer {
                Ok(()) => {
                    &&& final(self).semaphore == Some(semaphore)
                    &&& result == (SyncImportEnd::<H>::Wait { stage: 0x1 })
                },
                Err(error) => {
                    &&& final(self).semaphore == old(self).semaphore
                    &&& result == (SyncImportEnd::<H>::Undo { semaphore, error })
                },
            },
    {
        match answer {
            Ok(()) => {
                self.semaphore = Some(semaphore);
                SyncImportEnd::Wait { stage: stage_top_of_pipe() }
            },
            Err(error) => SyncImportEnd::Undo { semaphore, error },
        }
    }

    /// The fence without its semaphore, and the semaphore.
    pub open spec fn without_semaphore(self) -> (Self, Option<H::Semaphore>) {
        (VulkanExternalSync { fd: self.fd, semaphore: None }, self.semaphore)
    }

    /// Takes the semaphore out, to be destroyed.
    pub fn destroy_semaphore(&mut self) -> (result: Option<H::Semaphore>)
        ensures
            (*final(self), result) == old(self).without_semaphore(),
            result == old(self).semaphore,
            final(self).semaphore is None,
            final(self).fd == old(self).fd,
    {
        self.semaphore.take()
    }
}

} // verus!
