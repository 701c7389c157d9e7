use vstd::prelude::*;
use crate::device::Queue;
use crate::layout::Layout;
use crate::request::{TrackedImagePipelineBarrierRequest, TrackedImagePipelineMemoryBarrierRequest};
use crate::sync::{AccessFlagBits, Fence, PipelineStages, Semaphore};
use crate::sys::ImageDimensions;

verus! {

/// A range of subresources of an image: a span of mipmap levels times a span of array
/// layers.
#[derive(Clone, Copy, Debug, PartialEq, Eq, Hash, Structural)]
pub struct SubresourceRange {
    pub first_mipmap: u32,
    pub num_mipmaps: u32,
    pub first_layer: u32,
    pub num_layers: u32,
}

impl SubresourceRange {
    /// Whether the range holds the given layer of the given mipmap level.
    pub open spec fn contains(&self, mipmap: int, layer: int) -> bool {
        &&& self.first_mipmap <= mipmap < self.first_mipmap + self.num_mipmaps
        &&& self.first_layer <= layer < self.first_layer + self.num_layers
    }

    /// Whether the range holds no subresource.
    pub open spec fn spec_is_empty(&self) -> bool {
        self.num_mipmaps == 0 || self.num_layers == 0
    }

    /// Whether the two ranges have a subresource in common. An empty range has none in
    /// common with any range.
    pub open spec fn spec_overlaps(&self, other: &SubresourceRange) -> bool {
        &&& !self.spec_is_empty()
        &&& !other.spec_is_empty()
        &&& self.first_mipmap < other.first_mipmap + other.num_mipmaps
        &&& other.first_mipmap < self.first_mipmap + self.num_mipmaps
        &&& self.first_layer < other.first_layer + other.num_layers
        &&& other.first_layer < self.first_layer + self.num_layers
    }

    /// Whether the range lies within an image of the given extent.
    pub open spec fn spec_fits(&self, dimensions: &ImageDimensions) -> bool {
        &&& self.first_mipmap + self.num_mipmaps <= dimensions.mipmap_levels
        &&& self.first_layer + self.num_layers <= dimensions.array_layers
    }

    /// Whether the range starts before the other: at a lower mipmap level, or at the same
    /// level and a lower layer.
    pub open spec fn spec_starts_before(&self, other: &SubresourceRange) -> bool {
        self.first_mipmap < other.first_mipmap || (self.first_mipmap == other.first_mipmap
            && self.first_layer < other.first_layer)
    }

    /// Whether the range holds no subresource.
    #[verifier::when_used_as_spec(spec_is_empty)]
    pub fn is_empty(&self) -> (r: bool)
        ensures
            r == self.spec_is_empty(),
    {
        self.num_mipmaps == 0 || self.num_layers == 0
    }

    /// Whether the two ranges have a subresource in common.
    #[verifier::when_used_as_spec(spec_overlaps)]
    pub fn overlaps(&self, other: &SubresourceRange) -> (r: bool)
        ensures
            r == self.spec_overlaps(other),
    {
        let self_mipmap_end: u64 = self.first_mipmap as u64 + self.num_mipmaps as u64;
        let other_mipmap_end: u64 = other.first_mipmap as u64 + other.num_mipmaps as u64;
        let self_layer_end: u64 = self.first_layer as u64 + self.num_layers as u64;
        let other_layer_end: u64 = other.first_layer as u64 + other.num_layers as u64;
        !self.is_empty() && !other.is_empty() && (self.first_mipmap as u64) < other_mipmap_end && (
        other.first_mipmap as u64) < self_mipmap_end && (self.first_layer as u64)
            < other_layer_end && (other.first_layer as u64) < self_layer_end
    }

    /// Whether the range lies within an image of the given extent.
    #[verifier::when_used_as_spec(spec_fits)]
    pub fn fits(&self, dimensions: &ImageDimensions) -> (r: bool)
        ensures
            r == self.spec_fits(dimensions),
    {
        let mipmap_end: u64 = self.first_mipmap as u64 + self.num_mipmaps as u64;
        let layer_end: u64 = self.first_layer as u64 + self.num_layers as u64;
        mipmap_end <= dimensions.mipmap_levels as u64 && layer_end <= dimensions.array_layers as u64
    }

    /// Whether the range starts before the other.
    #[verifier::when_used_as_spec(spec_starts_before)]
    pub fn starts_before(&self, other: &SubresourceRange) -> (r: bool)
        ensures
            r == self.spec_starts_before(other),
    {
        self.first_mipmap < other.first_mipmap || (self.first_mipmap == other.first_mipmap
            && self.first_layer < other.first_layer)
    }
}

/// What is remembered of the latest use of a range.
#[derive(Clone, Copy, Debug, PartialEq, Eq, Hash, Structural)]
pub struct UsageRecord {
    /// The layout that the use left the range in.
    pub layout: Layout,
    /// The stages of the use.
    pub stages: PipelineStages,
    /// The accesses of the use.
    pub access: AccessFlagBits,
    /// Whether the use wrote to the range.
    pub write: bool,
    /// The number of the command that used the range.
    pub command_num: usize,
}

impl UsageRecord {
    /// What stands for the latest use of a range that has not been used: the layout is
    /// undefined, nothing has been accessed or written, the stage is the top of the pipe, and
    /// the command number is 0.
    pub open spec fn spec_unrecorded() -> UsageRecord {
        UsageRecord {
            layout: Layout::Undefined,
            stages: PipelineStages::spec_top_of_pipe(),
            access: AccessFlagBits::spec_none(),
            write: false,
            command_num: 0,
        }
    }

    /// What stands for the latest use of a range that has not been used.
    #[verifier::when_used_as_spec(spec_unrecorded)]
    pub fn unrecorded() -> (r: UsageRecord)
        ensures
            r == UsageRecord::spec_unrecorded(),
    {
        UsageRecord {
            layout: Layout::Undefined,
            stages: PipelineStages::top_of_pipe(),
            access: AccessFlagBits::none(),
            write: false,
            command_num: 0,
        }
    }
}

/// A range of an image: what a usage record is kept for.
#[derive(Clone, Copy, Debug, PartialEq, Eq, Hash, Structural)]
pub struct Subresource {
    /// The handle of the image.
    pub image: u64,
    pub range: SubresourceRange,
}

/// Why a transition was refused.
#[derive(Clone, Copy, Debug, PartialEq, Eq, Hash, Structural)]
pub enum TransitionError {
    /// The range is empty or does not lie within the image.
    InvalidRange,
    /// The range overlaps a recorded range of the image without being that range.
    RangeConflict,
    /// The command number is not higher than the one on record for the range.
    OrderingViolation,
}

/// The latest submission that used an image.
#[derive(Clone, Copy, Debug, PartialEq, Eq, Hash, Structural)]
pub struct LastUse {
    /// The queue that it was submitted to.
    pub queue: Queue,
    /// The semaphore that it signals, if it signals one.
    pub signal: Option<Semaphore>,
}

/// The reader of an image that comes after the next submission.
#[derive(Clone, Copy, Debug, PartialEq, Eq, Hash, Structural)]
pub struct NextUse {
    /// The queue that the reader will run on.
    pub queue: Queue,
    /// The semaphore that the reader will wait for.
    pub semaphore: Semaphore,
}

/// What is remembered of an image from one submission to the next.
#[derive(Clone, Copy, Debug, PartialEq, Eq, Hash, Structural)]
pub struct QueueState {
    /// The latest submission that used the image, if there was one.
    pub last: Option<LastUse>,
    /// The reader that was announced, if one was.
    pub next: Option<NextUse>,
    /// The fence of the latest submission that took one.
    pub fence: Option<Fence>,
}

impl QueueState {
    /// The state of an image that was never submitted and has no reader announced.
    pub open spec fn spec_idle() -> QueueState {
        QueueState { last: None, next: None, fence: None }
    }

    /// The state of an image that was never submitted and has no reader announced.
    #[verifier::when_used_as_spec(spec_idle)]
    pub fn idle() -> (r: QueueState)
        ensures
            r == QueueState::spec_idle(),
    {
        QueueState { last: None, next: None, fence: None }
    }

    /// The semaphore that a submission to `queue` waits for: the one that the latest
    /// submission signals, where that submission went to another queue.
    pub open spec fn spec_waits_for(&self, queue: Queue) -> Option<Semaphore> {
        match self.last {
            Some(last) => if last.queue != queue {
                last.signal
            } else {
                None
            },
            None => None,
        }
    }

    /// The semaphore that a submission to `queue` signals: the one that the announced reader
    /// waits for, where that reader runs on another queue.
    pub open spec fn spec_signals(&self, queue: Queue) -> Option<Semaphore> {
        match self.next {
            Some(next) => if next.queue != queue {
                Some(next.semaphore)
            } else {
                None
            },
            None => None,
        }
    }

    /// Whether a submission to `queue` has to be followed through a fence: it has, exactly
    /// when it waits for a semaphore or signals one.
    pub open spec fn spec_fence_needed(&self, queue: Queue) -> bool {
        self.spec_waits_for(queue) is Some || self.spec_signals(queue) is Some
    }

    /// The state after a submission to `queue` that left `fence` as the fence of the image:
    /// the submission is the latest one, and no reader is announced any more.
    pub open spec fn spec_submitted(&self, queue: Queue, fence: Option<Fence>) -> QueueState {
        QueueState {
            last: Some(LastUse { queue, signal: self.spec_signals(queue) }),
            next: None,
            fence,
        }
    }

    /// The semaphore that a submission to `queue` waits for.
    #[verifier::when_used_as_spec(spec_waits_for)]
    pub fn waits_for(&self, queue: Queue) -> (r: Option<Semaphore>)
        ensures
            r == self.spec_waits_for(queue),
    {
        match self.last {
            Some(last) => if last.queue != queue {
                last.signal
            } else {
                None
            },
            None => None,
        }
    }

    /// The semaphore that a submission to `queue` signals.
    #[verifier::when_used_as_spec(spec_signals)]
    pub fn signals(&self, queue: Queue) -> (r: Option<Semaphore>)
        ensures
            r == self.spec_signals(queue),
    {
        match self.next {
            Some(next) => if next.queue != queue {
                Some(next.semaphore)
            } else {
                None
            },
            None => None,
        }
    }

    /// Whether a submission to `queue` has to be followed through a fence.
    #[verifier::when_used_as_spec(spec_fence_needed)]
    pub fn fence_needed(&self, queue: Queue) -> (r: bool)
        ensures
            r == self.spec_fence_needed(queue),
    {
        self.waits_for(queue).is_some() || self.signals(queue).is_some()
    }

    /// The state after a submission to `queue` that left `fence` as the fence of the image.
    #[verifier::when_used_as_spec(spec_submitted)]
    pub fn submitted(&self, queue: Queue, fence: Option<Fence>) -> (r: QueueState)
        ensures
            r == self.spec_submitted(queue, fence),
    {
        QueueState { last: Some(LastUse { queue, signal: self.signals(queue) }), next: None, fence }
    }
}

/// The mathematical content of a state table.
pub struct Tracking {
    /// The latest use of each recorded range.
    pub usages: Map<Subresource, UsageRecord>,
    /// What is remembered across submissions, for each image of which something is.
    pub queues: Map<u64, QueueState>,
}

impl Tracking {
    /// The recorded ranges are not empty, and two different recorded ranges of one image have
    /// no subresource in common. This holds of the content of every state table.
    pub open spec fn wf(&self) -> bool {
        &&& forall|key: Subresource| #[trigger]
            self.usages.dom().contains(key) ==> !key.range.spec_is_empty()
        &&& forall|a: Subresource, b: Subresource|
            #![trigger self.usages.dom().contains(a), self.usages.dom().contains(b)]
            self.usages.dom().contains(a) && self.usages.dom().contains(b) && a.image == b.image
                && a.range != b.range ==> !a.range.spec_overlaps(&b.range)
    }

    /// The record of the latest use of exactly this range of the image, if there is one.
    pub open spec fn usage(&self, image: u64, range: SubresourceRange) -> Option<UsageRecord> {
        let key = Subresource { image, range };
        if self.usages.dom().contains(key) {
            Some(self.usages[key])
        } else {
            None
        }
    }

    /// The use that a new use of the range follows: the recorded one, or what stands for it
    /// where the range has not been used.
    pub open spec fn prior(&self, image: u64, range: SubresourceRange) -> UsageRecord {
        match self.usage(image, range) {
            Some(record) => record,
            None => UsageRecord::spec_unrecorded(),
        }
    }

    /// Whether the range overlaps a recorded range of the image that is another range.
    pub open spec fn conflicts(&self, image: u64, range: SubresourceRange) -> bool {
        exists|other: SubresourceRange| #[trigger]
            self.usages.dom().contains(Subresource { image, range: other }) && other != range
                && other.spec_overlaps(&range)
    }

    /// What is remembered of the image across submissions.
    pub open spec fn queue_state(&self, image: u64) -> QueueState {
        if self.queues.dom().contains(image) {
            self.queues[image]
        } else {
            QueueState::spec_idle()
        }
    }

    /// The content after a use of the range has been recorded.
    pub open spec fn recorded(&self, image: u64, range: SubresourceRange, record: UsageRecord) -> Tracking {
        Tracking { usages: self.usages.insert(Subresource { image, range }, record), queues: self.queues }
    }

    /// The content after the state of the image across submissions has been set.
    pub open spec fn with_queue_state(&self, image: u64, state: QueueState) -> Tracking {
        Tracking { usages: self.usages, queues: self.queues.insert(image, state) }
    }
}

/// Whether a use that follows `prior` needs a barrier: it does when the layout changes, when
/// the earlier use wrote, or when the new use writes.
pub open spec fn spec_barrier_needed(prior: UsageRecord, write: bool, layout: Layout) -> bool {
    layout != prior.layout || prior.write || write
}

/// Whether a use that follows `prior` needs a barrier.
#[verifier::when_used_as_spec(spec_barrier_needed)]
pub fn barrier_needed(prior: UsageRecord, write: bool, layout: Layout) -> (r: bool)
    ensures
        r == spec_barrier_needed(prior, write, layout),
{
    layout != prior.layout || prior.write || write
}

/// The barrier between the use `prior` of a range and a use of it in `layout`, by `stage`
/// and `access`. It stands after the command of the earlier use, orders the whole resource
/// and not region by region, and holds a memory barrier for the range.
pub open spec fn spec_barrier_between(
    prior: UsageRecord,
    range: SubresourceRange,
    layout: Layout,
    stage: PipelineStages,
    access: AccessFlagBits,
) -> TrackedImagePipelineBarrierRequest {
    TrackedImagePipelineBarrierRequest {
        after_command_num: prior.command_num,
        source_stage: prior.stages,
        destination_stages: stage,
        by_region: false,
        memory_barrier: Some(
            TrackedImagePipelineMemoryBarrierRequest {
                first_mipmap: range.first_mipmap,
                num_mipmaps: range.num_mipmaps,
                first_layer: range.first_layer,
                num_layers: range.num_layers,
                old_layout: prior.layout,
                new_layout: layout,
                source_access: prior.access,
                destination_access: access,
            },
        ),
    }
}

/// The barrier between the use `prior` of a range and a use of it in `layout`, by `stage`
/// and `access`.
#[verifier::when_used_as_spec(spec_barrier_between)]
pub fn barrier_between(
    prior: UsageRecord,
    range: SubresourceRange,
    layout: Layout,
    stage: PipelineStages,
    access: AccessFlagBits,
) -> (r: TrackedImagePipelineBarrierRequest)
    ensures
        r == spec_barrier_between(prior, range, layout, stage, access),
{
    TrackedImagePipelineBarrierRequest {
        after_command_num: prior.command_num,
        source_stage: prior.stages,
        destination_stages: stage,
        by_region: false,
        memory_barrier: Some(
            TrackedImagePipelineMemoryBarrierRequest {
                first_mipmap: range.first_mipmap,
                num_mipmaps: range.num_mipmaps,
                first_layer: range.first_layer,
                num_layers: range.num_layers,
                old_layout: prior.layout,
                new_layout: layout,
                source_access: prior.access,
                destination_access: access,
            },
        ),
    }
}

/// Why a use of the range at command `num_command` is refused, if it is.
pub open spec fn transition_error(
    tracking: Tracking,
    dimensions: ImageDimensions,
    image: u64,
    range: SubresourceRange,
    num_command: usize,
) -> Option<TransitionError> {
    if range.spec_is_empty() || !range.spec_fits(&dimensions) {
        Some(TransitionError::InvalidRange)
    } else if tracking.conflicts(image, range) {
        Some(TransitionError::RangeConflict)
    } else if tracking.usage(image, range) is Some && num_command <= tracking.prior(
        image,
        range,
    ).command_num {
        Some(TransitionError::OrderingViolation)
    } else {
        None
    }
}

/// What a transition returns.
pub open spec fn transition_result(
    tracking: Tracking,
    dimensions: ImageDimensions,
    image: u64,
    range: SubresourceRange,
    num_command: usize,
    write: bool,
    layout: Layout,
    stage: PipelineStages,
    access: AccessFlagBits,
) -> Result<Option<TrackedImagePipelineBarrierRequest>, TransitionError> {
    match transition_error(tracking, dimensions, image, range, num_command) {
        Some(error) => Err(error),
        None => {
            let prior = tracking.prior(image, range);
            if barrier_needed(prior, write, layout) {
                Ok(Some(barrier_between(prior, range, layout, stage, access)))
            } else {
                Ok(None)
            }
        },
    }
}

/// Whether the outer state expects the range of the image in another layout than the inner
/// state holds it in. Only a range that both states have on record can be such a range.
pub open spec fn mismatch(inner: Tracking, outer: Tracking, image: u64, range: SubresourceRange) -> bool {
    &&& inner.usage(image, range) is Some
    &&& outer.usage(image, range) is Some
    &&& outer.prior(image, range).layout != inner.prior(image, range).layout
}

/// Whether the range is the one among the mismatching ranges of the image that starts first.
pub open spec fn is_lowest_mismatch(
    inner: Tracking,
    outer: Tracking,
    image: u64,
    range: SubresourceRange,
) -> bool {
    &&& mismatch(inner, outer, image, range)
    &&& forall|other: SubresourceRange| #[trigger]
        mismatch(inner, outer, image, other) ==> !other.spec_starts_before(&range)
}

/// The barrier that closes a mismatching range: it stands after the command of the use that
/// the inner state holds, and leads from that use to the layout, the stages and the accesses
/// that the outer state holds for the range.
pub open spec fn closing_barrier(
    inner: Tracking,
    outer: Tracking,
    image: u64,
    range: SubresourceRange,
) -> TrackedImagePipelineBarrierRequest {
    let expected = outer.prior(image, range);
    barrier_between(
        inner.prior(image, range),
        range,
        expected.layout,
        expected.stages,
        expected.access,
    )
}

/// Whether the barrier closes some mismatching range of the image.
pub open spec fn closes_mismatch(
    inner: Tracking,
    outer: Tracking,
    image: u64,
    barrier: TrackedImagePipelineBarrierRequest,
) -> bool {
    exists|range: SubresourceRange| #[trigger]
        mismatch(inner, outer, image, range) && barrier == closing_barrier(
            inner,
            outer,
            image,
            range,
        )
}

/// What finishing returns: nothing where no range of the image mismatches, else the barrier
/// that closes the mismatching range that starts first.
pub open spec fn finish_result(inner: Tracking, outer: Tracking, image: u64) -> Option<
    TrackedImagePipelineBarrierRequest,
> {
    if exists|range: SubresourceRange| mismatch(inner, outer, image, range) {
        let range = choose|range: SubresourceRange| is_lowest_mismatch(inner, outer, image, range);
        Some(closing_barrier(inner, outer, image, range))
    } else {
        None
    }
}

} // verus!
