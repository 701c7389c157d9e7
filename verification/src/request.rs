use std::sync::Arc;
use vstd::prelude::*;
use crate::layout::Layout;
use crate::sync::{AccessFlagBits, PipelineStages, Semaphore};

verus! {

/// Requests that a pipeline barrier is created.
#[derive(Clone, Copy, Debug, PartialEq, Eq)]
pub struct TrackedImagePipelineBarrierRequest {
    /// The number of the command after which the barrier has to be placed: the number of the
    /// use that the barrier waits for, or 0 where there is no such use.
    pub after_command_num: usize,
    /// The stages that the barrier waits for.
    pub source_stage: PipelineStages,
    /// The stages that wait for the barrier.
    pub destination_stages: PipelineStages,
    /// Whether the dependency holds region by region only. Where it is false the whole
    /// resource is ordered.
    pub by_region: bool,
    /// The memory barrier that is part of the pipeline barrier, if there is one.
    pub memory_barrier: Option<TrackedImagePipelineMemoryBarrierRequest>,
}

/// Requests that a memory barrier is created as part of a pipeline barrier.
///
/// A pipeline barrier alone orders execution. The memory barrier makes what the source
/// accesses wrote visible to the destination accesses, and moves the range from one layout
/// to another. It always concerns the image that the request was made for.
#[derive(Clone, Copy, Debug, PartialEq, Eq)]
pub struct TrackedImagePipelineMemoryBarrierRequest {
    pub first_mipmap: u32,
    pub num_mipmaps: u32,
    pub first_layer: u32,
    pub num_layers: u32,
    pub old_layout: Layout,
    pub new_layout: Layout,
    /// Source accesses.
    pub source_access: AccessFlagBits,
    /// Destination accesses.
    pub destination_access: AccessFlagBits,
}

/// What a submission has to do for one image at its boundaries.
#[derive(Debug, PartialEq, Eq)]
pub struct TrackedImageSubmitInfos {
    /// The semaphore that the submitted work waits for, and the stages that wait.
    pub pre_semaphore: Option<(Arc<Semaphore>, PipelineStages)>,
    /// The semaphore that the submitted work signals when it has completed.
    pub post_semaphore: Option<Arc<Semaphore>>,
    /// The barrier to execute before the submitted work.
    pub pre_barrier: Option<TrackedImagePipelineBarrierRequest>,
    /// The barrier to execute after the submitted work.
    pub post_barrier: Option<TrackedImagePipelineBarrierRequest>,
}

impl TrackedImageSubmitInfos {
    /// The semaphore that the submitted work waits for, and the stages that wait.
    pub open spec fn waits_for(&self) -> Option<(Semaphore, PipelineStages)> {
        match self.pre_semaphore {
            Some((semaphore, stages)) => Some((*semaphore, stages)),
            None => None,
        }
    }

    /// The semaphore that the submitted work signals.
    pub open spec fn signals(&self) -> Option<Semaphore> {
        match self.post_semaphore {
            Some(semaphore) => Some(*semaphore),
            None => None,
        }
    }

    /// Whether the submission goes through a semaphore, in either direction. Such a
    /// submission is followed through a fence.
    pub open spec fn spec_needs_fence(&self) -> bool {
        self.pre_semaphore is Some || self.post_semaphore is Some
    }

    /// Whether the submission goes through a semaphore, in either direction.
    #[verifier::when_used_as_spec(spec_needs_fence)]
    pub fn needs_fence(&self) -> (r: bool)
        ensures
            r == self.spec_needs_fence(),
    {
        self.pre_semaphore.is_some() || self.post_semaphore.is_some()
    }
}

} // verus!
