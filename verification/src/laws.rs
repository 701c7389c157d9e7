//! What holds of the operations on a state table, whatever the table holds.

use std::sync::Arc;
use vstd::prelude::*;
use crate::device::Queue;
use crate::format::Format;
use crate::image::{color_format, depth_format, stencil_format, Image};
use crate::layout::Layout;
use crate::request::{TrackedImagePipelineBarrierRequest, TrackedImageSubmitInfos};
use crate::states::{
    barrier_between, closing_barrier, finish_result, is_lowest_mismatch, mismatch, transition_error,
    transition_result, QueueState, Subresource, SubresourceRange, Tracking, TransitionError,
    UsageRecord,
};
use crate::sync::{AccessFlagBits, Fence, PipelineStages};
use crate::sys::ImageDimensions;
use crate::tracking::TrackedImage;
use crate::view::ImageView;

verus! {

/// Two ranges overlap exactly when some layer of some mipmap level belongs to both.
pub proof fn law_overlap_is_common_subresource(a: SubresourceRange, b: SubresourceRange)
    ensures
        a.spec_overlaps(&b) <==> exists|mipmap: int, layer: int|
            a.contains(mipmap, layer) && b.contains(mipmap, layer),
{
    if a.spec_overlaps(&b) {
        let mipmap = if a.first_mipmap >= b.first_mipmap {
            a.first_mipmap as int
        } else {
            b.first_mipmap as int
        };
        let layer = if a.first_layer >= b.first_layer {
            a.first_layer as int
        } else {
            b.first_layer as int
        };
        assert(a.contains(mipmap, layer) && b.contains(mipmap, layer));
    }
}

/// An image has color exactly when it has neither a depth nor a stencil.
pub proof fn law_color_or_depth_stencil(format: Format)
    ensures
        color_format(format) <==> !(depth_format(format) || stencil_format(format)),
{
}

/// Recording a use that is not refused keeps the recorded ranges free of overlap, makes the
/// use the latest one of its range, and leaves every other range as it was.
pub proof fn law_recording_supersedes(
    tracking: Tracking,
    dimensions: ImageDimensions,
    image: u64,
    range: SubresourceRange,
    num_command: usize,
    record: UsageRecord,
)
    requires
        tracking.wf(),
        transition_error(tracking, dimensions, image, range, num_command) is None,
    ensures
        tracking.recorded(image, range, record).wf(),
        tracking.recorded(image, range, record).usage(image, range) == Some(record),
        !tracking.recorded(image, range, record).conflicts(image, range),
        forall|other_image: u64, other: SubresourceRange|
            other_image != image || other != range ==> #[trigger] tracking.recorded(
                image,
                range,
                record,
            ).usage(other_image, other) == tracking.usage(other_image, other),
{
    let after = tracking.recorded(image, range, record);
    let key = Subresource { image, range };
    assert forall|a: Subresource, b: Subresource|
        #![trigger after.usages.dom().contains(a), after.usages.dom().contains(b)]
        after.usages.dom().contains(a) && after.usages.dom().contains(b) && a.image == b.image
            && a.range != b.range implies !a.range.spec_overlaps(&b.range) by {
        if a == key {
            assert(tracking.usages.dom().contains(Subresource { image, range: b.range }));
        } else if b == key {
            assert(tracking.usages.dom().contains(Subresource { image, range: a.range }));
        }
    }
    if after.conflicts(image, range) {
        let other = choose|other: SubresourceRange| #[trigger]
            after.usages.dom().contains(Subresource { image, range: other }) && other != range
                && other.spec_overlaps(&range);
        assert(tracking.usages.dom().contains(Subresource { image, range: other }));
    }
}

/// The first use of a range is never refused on account of its command number. Where it
/// asks for a barrier, the barrier stands after command 0 and waits for no stage but the top
/// of the pipe and for no access, and it asks for one exactly when it writes or needs a
/// defined layout: no earlier write is taken to be pending.
pub proof fn law_first_use(
    tracking: Tracking,
    dimensions: ImageDimensions,
    image: u64,
    range: SubresourceRange,
    num_command: usize,
    write: bool,
    layout: Layout,
    stage: PipelineStages,
    access: AccessFlagBits,
)
    requires
        tracking.usage(image, range) is None,
    ensures
        ({
            let r = transition_result(
                tracking,
                dimensions,
                image,
                range,
                num_command,
                write,
                layout,
                stage,
                access,
            );
            &&& r != Err::<Option<TrackedImagePipelineBarrierRequest>, TransitionError>(
                TransitionError::OrderingViolation,
            )
            &&& r matches Ok(barrier) ==> (barrier is Some <==> write || layout
                != Layout::Undefined)
            &&& r matches Ok(Some(barrier)) ==> {
                &&& barrier.after_command_num == 0
                &&& barrier.source_stage == PipelineStages::spec_top_of_pipe()
                &&& barrier == barrier_between(
                    UsageRecord::spec_unrecorded(),
                    range,
                    layout,
                    stage,
                    access,
                )
            }
        }),
{
}

/// A read that follows a read of the same range in the same layout asks for no barrier.
pub proof fn law_read_after_read(
    tracking: Tracking,
    dimensions: ImageDimensions,
    image: u64,
    range: SubresourceRange,
    first_command: usize,
    second_command: usize,
    layout: Layout,
    stage: PipelineStages,
    access: AccessFlagBits,
)
    requires
        tracking.wf(),
        transition_error(tracking, dimensions, image, range, first_command) is None,
    ensures
        ({
            let first = UsageRecord { layout, stages: stage, access, write: false, command_num: first_command };
            let second = transition_result(
                tracking.recorded(image, range, first),
                dimensions,
                image,
                range,
                second_command,
                false,
                layout,
                stage,
                access,
            );
            &&& !(second matches Ok(Some(_)))
            &&& first_command < second_command ==> second == Ok::<
                Option<TrackedImagePipelineBarrierRequest>,
                TransitionError,
            >(None)
        }),
{
    let first = UsageRecord { layout, stages: stage, access, write: false, command_num: first_command };
    law_recording_supersedes(tracking, dimensions, image, range, first_command, first);
}

/// Whatever follows a write of the same range asks for a barrier, and the barrier stands
/// after the command that wrote.
pub proof fn law_barrier_after_write(
    tracking: Tracking,
    dimensions: ImageDimensions,
    image: u64,
    range: SubresourceRange,
    first_command: usize,
    first: UsageRecord,
    second_command: usize,
    write: bool,
    layout: Layout,
    stage: PipelineStages,
    access: AccessFlagBits,
)
    requires
        tracking.wf(),
        transition_error(tracking, dimensions, image, range, first_command) is None,
        first.command_num == first_command,
        first.write,
        first_command < second_command,
    ensures
        transition_result(
            tracking.recorded(image, range, first),
            dimensions,
            image,
            range,
            second_command,
            write,
            layout,
            stage,
            access,
        ) == Ok::<Option<TrackedImagePipelineBarrierRequest>, TransitionError>(
            Some(barrier_between(first, range, layout, stage, access)),
        ),
        barrier_between(first, range, layout, stage, access).after_command_num == first_command,
{
    law_recording_supersedes(tracking, dimensions, image, range, first_command, first);
}

/// A use that follows a use of the same range in another layout asks for a barrier, and the
/// memory barrier in it leads from the layout of the first use to the layout of the second,
/// whatever the accesses are.
pub proof fn law_layout_change(
    tracking: Tracking,
    dimensions: ImageDimensions,
    image: u64,
    range: SubresourceRange,
    first_command: usize,
    first: UsageRecord,
    second_command: usize,
    write: bool,
    layout: Layout,
    stage: PipelineStages,
    access: AccessFlagBits,
)
    requires
        tracking.wf(),
        transition_error(tracking, dimensions, image, range, first_command) is None,
        first.command_num == first_command,
        first.layout != layout,
        first_command < second_command,
    ensures
        ({
            let second = transition_result(
                tracking.recorded(image, range, first),
                dimensions,
                image,
                range,
                second_command,
                write,
                layout,
                stage,
                access,
            );
            &&& second matches Ok(Some(barrier))
            &&& barrier.memory_barrier matches Some(memory)
            &&& memory.old_layout == first.layout
            &&& memory.new_layout == layout
            &&& memory.first_mipmap == range.first_mipmap
            &&& memory.num_mipmaps == range.num_mipmaps
            &&& memory.first_layer == range.first_layer
            &&& memory.num_layers == range.num_layers
        }),
{
    law_recording_supersedes(tracking, dimensions, image, range, first_command, first);
}

/// A use of a range with a command number that is not higher than the number of the use on
/// record is refused as an ordering violation.
pub proof fn law_ordering_violation(
    tracking: Tracking,
    dimensions: ImageDimensions,
    image: u64,
    range: SubresourceRange,
    first_command: usize,
    first: UsageRecord,
    second_command: usize,
    write: bool,
    layout: Layout,
    stage: PipelineStages,
    access: AccessFlagBits,
)
    requires
        tracking.wf(),
        transition_error(tracking, dimensions, image, range, first_command) is None,
        first.command_num == first_command,
        second_command <= first_command,
    ensures
        transition_result(
            tracking.recorded(image, range, first),
            dimensions,
            image,
            range,
            second_command,
            write,
            layout,
            stage,
            access,
        ) == Err::<Option<TrackedImagePipelineBarrierRequest>, TransitionError>(
            TransitionError::OrderingViolation,
        ),
{
    law_recording_supersedes(tracking, dimensions, image, range, first_command, first);
}

/// Finishing asks for no barrier where the outer state holds every range of the image that
/// it has on record in the layout that recording left it in.
pub proof fn law_finish_without_barrier(inner: Tracking, outer: Tracking, image: u64)
    requires
        forall|range: SubresourceRange|
            inner.usage(image, range) is Some && #[trigger] outer.usage(image, range) is Some
                ==> outer.prior(image, range).layout == inner.prior(image, range).layout,
    ensures
        finish_result(inner, outer, image) is None,
{
    assert forall|range: SubresourceRange| !mismatch(inner, outer, image, range) by {
        if mismatch(inner, outer, image, range) {
            assert(outer.usage(image, range) is Some);
        }
    }
}

/// Among the ranges of an image that mismatch, one starts first and no other does: what
/// finishing returns is the barrier for that range.
pub proof fn law_lowest_mismatch_is_one(
    inner: Tracking,
    outer: Tracking,
    image: u64,
    a: SubresourceRange,
    b: SubresourceRange,
)
    requires
        inner.wf(),
        is_lowest_mismatch(inner, outer, image, a),
        is_lowest_mismatch(inner, outer, image, b),
    ensures
        a == b,
        finish_result(inner, outer, image) == Some(closing_barrier(inner, outer, image, a)),
{
    assert(inner.usages.dom().contains(Subresource { image, range: a }));
    assert(inner.usages.dom().contains(Subresource { image, range: b }));
    assert(a.spec_overlaps(&b));
    let chosen = choose|range: SubresourceRange| is_lowest_mismatch(inner, outer, image, range);
    assert(inner.usages.dom().contains(Subresource { image, range: chosen }));
    assert(a.spec_overlaps(&chosen));
}

/// A submission needs a fence exactly when it goes through a semaphore, and what it
/// remembers is the queue that it went to and the semaphore that it signals.
pub proof fn law_fence_follows_semaphore(state: QueueState, queue: Queue, fence: Option<Fence>)
    ensures
        state.fence_needed(queue) <==> state.waits_for(queue) is Some || state.signals(queue) is Some,
        state.last is None && state.next is None ==> !state.fence_needed(queue),
        state.submitted(queue, fence).waits_for(queue) is None,
        state.submitted(queue, fence).signals(queue) is None,
        !state.submitted(queue, fence).fence_needed(queue),
{
}

/// A semaphore that a submission signals for a reader on another queue is the semaphore that
/// the next submission waits for, where it goes to another queue than the first.
pub proof fn law_handoff(state: QueueState, first: Queue, second: Queue, fence: Option<Fence>)
    requires
        first != second,
    ensures
        state.submitted(first, fence).waits_for(second) == state.signals(first),
{
}

/// An image behaves the same behind a shared handle and behind a reference: the handle
/// and the reference stand for the image that the value behind them stands for.
pub proof fn law_image_behind_wrappers<I: Image>(shared: Arc<I>, borrowed: &I)
    ensures
        Image::raw_image(&shared) == (*shared).raw_image(),
        Image::raw_image(&borrowed) == (*borrowed).raw_image(),
{
}

/// A view behaves the same behind a shared handle and behind a reference.
pub proof fn law_view_behind_wrappers<T: ImageView>(shared: Arc<T>, borrowed: &T)
    ensures
        ImageView::raw_view(&shared) == (*shared).raw_view(),
        ImageView::raw_parent(&shared) == (*shared).raw_parent(),
        ImageView::raw_view(&borrowed) == (*borrowed).raw_view(),
        ImageView::raw_parent(&borrowed) == (*borrowed).raw_parent(),
{
}

/// The operations on an image behind a shared handle or behind a reference do what they do
/// on the image itself.
pub proof fn law_operations_behind_wrappers<S, I: TrackedImage<S>>(
    shared: Arc<I>,
    borrowed: &I,
    before: &S,
    after: &S,
    out: &S,
    queue: &Arc<Queue>,
    num_command: usize,
    range: SubresourceRange,
    write: bool,
    layout: Layout,
    stage: PipelineStages,
    access: AccessFlagBits,
    r: Result<Option<TrackedImagePipelineBarrierRequest>, TransitionError>,
    closing: Option<TrackedImagePipelineBarrierRequest>,
    infos: TrackedImageSubmitInfos,
)
    ensures
        TrackedImage::transitions(
            &shared,
            before,
            after,
            num_command,
            range,
            write,
            layout,
            stage,
            access,
            r,
        ) == (*shared).transitions(before, after, num_command, range, write, layout, stage, access, r),
        TrackedImage::finishes(&shared, before, out, after, closing) == (*shared).finishes(
            before,
            out,
            after,
            closing,
        ),
        TrackedImage::fence_needed(&shared, before, queue) == (*shared).fence_needed(before, queue),
        TrackedImage::fence(&shared, before) == (*shared).fence(before),
        TrackedImage::submits(&shared, before, after, queue, infos) == (*shared).submits(
            before,
            after,
            queue,
            infos,
        ),
        TrackedImage::transitions(
            &borrowed,
            before,
            after,
            num_command,
            range,
            write,
            layout,
            stage,
            access,
            r,
        ) == (*borrowed).transitions(
            before,
            after,
            num_command,
            range,
            write,
            layout,
            stage,
            access,
            r,
        ),
        TrackedImage::finishes(&borrowed, before, out, after, closing) == (*borrowed).finishes(
            before,
            out,
            after,
            closing,
        ),
        TrackedImage::fence_needed(&borrowed, before, queue) == (*borrowed).fence_needed(
            before,
            queue,
        ),
        TrackedImage::fence(&borrowed, before) == (*borrowed).fence(before),
        TrackedImage::submits(&borrowed, before, after, queue, infos) == (*borrowed).submits(
            before,
            after,
            queue,
            infos,
        ),
{
}

} // verus!
