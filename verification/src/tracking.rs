use std::sync::Arc;
use vstd::prelude::*;
use crate::device::Queue;
use crate::image::Image;
use crate::layout::Layout;
use crate::manager::StatesManager;
use crate::request::{TrackedImagePipelineBarrierRequest, TrackedImageSubmitInfos};
use crate::states::{finish_result, transition_result, SubresourceRange, TransitionError, UsageRecord};
use crate::sync::{AccessFlagBits, Fence, PipelineStages};
use crate::sys::UnsafeImage;

verus! {

/// Whether the barrier leads to the given use of the given range: the stages of the use wait
/// for it, and its memory barrier, where it has one, is for that range and leads to the
/// layout and the accesses of the use.
pub open spec fn leads_to(
    barrier: TrackedImagePipelineBarrierRequest,
    range: SubresourceRange,
    layout: Layout,
    stage: PipelineStages,
    access: AccessFlagBits,
) -> bool {
    &&& barrier.destination_stages == stage
    &&& barrier.memory_barrier matches Some(memory) ==> {
        &&& memory.first_mipmap == range.first_mipmap
        &&& memory.num_mipmaps == range.num_mipmaps
        &&& memory.first_layer == range.first_layer
        &&& memory.num_layers == range.num_layers
        &&& memory.new_layout == layout
        &&& memory.destination_access == access
    }
}

/// Extension trait for `Image`. Types that implement it can be used while commands are
/// recorded and submitted: they say which synchronization each use of the image asks for.
///
/// The state of the image is not kept in the image. It is kept in a table of type `States`
/// that the caller owns and hands to every operation. An implementation says, by the
/// functions `transitions`, `finishes` and `submits`, what its operations return and do to
/// the table.
pub trait TrackedImage<States = StatesManager>: Image {
    /// What `transition` does: whether, called on the table `before` for a use of `range`,
    /// it returns `r` and leaves the table as `after`.
    spec fn transitions(
        &self,
        before: &States,
        after: &States,
        num_command: usize,
        range: SubresourceRange,
        write: bool,
        layout: Layout,
        stage: PipelineStages,
        access: AccessFlagBits,
        r: Result<Option<TrackedImagePipelineBarrierRequest>, TransitionError>,
    ) -> bool;

    /// What `finish` does: whether, called on the table `in_s` of the recording and the outer
    /// table `out`, it returns `r` and leaves the outer table as `out_after`.
    spec fn finishes(
        &self,
        in_s: &States,
        out: &States,
        out_after: &States,
        r: Option<TrackedImagePipelineBarrierRequest>,
    ) -> bool;

    /// Whether a submission of work on this image to `queue`, with the table as it is, has
    /// to be followed through a fence.
    spec fn fence_needed(&self, states: &States, queue: &Arc<Queue>) -> bool;

    /// The fence of the image that the table holds, if it holds one.
    spec fn fence(&self, states: &States) -> Option<Fence>;

    /// What `on_submit` does: whether, called on the table `before` for a submission to
    /// `queue`, it returns `infos` and leaves the table as `after`.
    spec fn submits(
        &self,
        before: &States,
        after: &States,
        queue: &Arc<Queue>,
        infos: TrackedImageSubmitInfos,
    ) -> bool;

    /// Records that the command `num_command` uses a range of the image, and returns the
    /// pipeline barrier that this use asks for, if it asks for one.
    ///
    /// A barrier that is returned leads to the use that was handed in, and stands after a
    /// command that does not come after `num_command`. A use that is refused leaves the table
    /// as it is.
    fn transition(
        &self,
        states: &mut States,
        num_command: usize,
        first_mipmap: u32,
        num_mipmaps: u32,
        first_layer: u32,
        num_layers: u32,
        write: bool,
        layout: Layout,
        stage: PipelineStages,
        access: AccessFlagBits,
    ) -> (r: Result<Option<TrackedImagePipelineBarrierRequest>, TransitionError>)
        ensures
            self.transitions(
                old(states),
                final(states),
                num_command,
                SubresourceRange { first_mipmap, num_mipmaps, first_layer, num_layers },
                write,
                layout,
                stage,
                access,
                r,
            ),
            r matches Ok(Some(barrier)) ==> leads_to(
                barrier,
                SubresourceRange { first_mipmap, num_mipmaps, first_layer, num_layers },
                layout,
                stage,
                access,
            ) && barrier.after_command_num <= num_command,
            r is Err ==> *final(states) == *old(states),
    ;

    /// Called when recording ends. Returns the barrier that has to close the recorded
    /// commands, if one has to. The table of the recording, `in_s`, is left as it is.
    fn finish(&self, in_s: &mut States, out: &mut States) -> (r: Option<
        TrackedImagePipelineBarrierRequest,
    >)
        ensures
            self.finishes(old(in_s), old(out), final(out), r),
            *final(in_s) == *old(in_s),
    ;

    /// Called once for each submission of the recorded commands to a queue.
    ///
    /// `fence` hands out the fence of the submission. It can be called at most once, and has
    /// to be callable only where a fence is needed. A fence is needed exactly where what is
    /// returned goes through a semaphore. The fence that was taken is then the fence of the
    /// image; where none is needed the image keeps the fence that it had.
    fn on_submit<F: FnOnce() -> Arc<Fence>>(
        &self,
        states: &mut States,
        queue: &Arc<Queue>,
        fence: F,
    ) -> (infos: TrackedImageSubmitInfos)
        requires
            self.fence_needed(old(states), queue) ==> call_requires(fence, ()),
        ensures
            self.submits(old(states), final(states), queue, infos),
            infos.spec_needs_fence() == self.fence_needed(old(states), queue),
            infos.spec_needs_fence() ==> exists|taken: Arc<Fence>|
                call_ensures(fence, (), taken) && self.fence(final(states)) == Some(*taken),
            !infos.spec_needs_fence() ==> self.fence(final(states)) == self.fence(old(states)),
    ;
}

impl TrackedImage<StatesManager> for UnsafeImage {
    /// The result is the one that the table gives for this image, and the use is recorded
    /// where it is not refused.
    open spec fn transitions(
        &self,
        before: &StatesManager,
        after: &StatesManager,
        num_command: usize,
        range: SubresourceRange,
        write: bool,
        layout: Layout,
        stage: PipelineStages,
        access: AccessFlagBits,
        r: Result<Option<TrackedImagePipelineBarrierRequest>, TransitionError>,
    ) -> bool {
        &&& r == transition_result(
            before@,
            self.dimensions,
            self.handle,
            range,
            num_command,
            write,
            layout,
            stage,
            access,
        )
        &&& after@ == if r is Ok {
            before@.recorded(
                self.handle,
                range,
                UsageRecord { layout, stages: stage, access, write, command_num: num_command },
            )
        } else {
            before@
        }
        &&& after@.wf()
    }

    /// The result is the closing barrier that the two tables give for this image, and the
    /// outer table is left as it is.
    open spec fn finishes(
        &self,
        in_s: &StatesManager,
        out: &StatesManager,
        out_after: &StatesManager,
        r: Option<TrackedImagePipelineBarrierRequest>,
    ) -> bool {
        &&& r == finish_result(in_s@, out@, self.handle)
        &&& *out_after == *out
        &&& in_s@.wf()
        &&& out@.wf()
    }

    open spec fn fence_needed(&self, states: &StatesManager, queue: &Arc<Queue>) -> bool {
        states@.queue_state(self.handle).fence_needed(**queue)
    }

    open spec fn fence(&self, states: &StatesManager) -> Option<Fence> {
        states@.queue_state(self.handle).fence
    }

    /// The submission waits for and signals the semaphores that the table gives for this
    /// image, asks for no barrier, and is remembered in the table.
    open spec fn submits(
        &self,
        before: &StatesManager,
        after: &StatesManager,
        queue: &Arc<Queue>,
        infos: TrackedImageSubmitInfos,
    ) -> bool {
        let state = before@.queue_state(self.handle);
        &&& infos.waits_for() == (match state.waits_for(**queue) {
            Some(semaphore) => Some((semaphore, PipelineStages::spec_all_commands())),
            None => None,
        })
        &&& infos.signals() == state.signals(**queue)
        &&& infos.pre_barrier is None
        &&& infos.post_barrier is None
        &&& after@ == before@.with_queue_state(
            self.handle,
            state.submitted(**queue, after@.queue_state(self.handle).fence),
        )
        &&& after@.wf()
    }

    fn transition(
        &self,
        states: &mut StatesManager,
        num_command: usize,
        first_mipmap: u32,
        num_mipmaps: u32,
        first_layer: u32,
        num_layers: u32,
        write: bool,
        layout: Layout,
        stage: PipelineStages,
        access: AccessFlagBits,
    ) -> (r: Result<Option<TrackedImagePipelineBarrierRequest>, TransitionError>) {
        states.transition(
            self,
            num_command,
            SubresourceRange { first_mipmap, num_mipmaps, first_layer, num_layers },
            write,
            layout,
            stage,
            access,
        )
    }

    fn finish(&self, in_s: &mut StatesManager, out: &mut StatesManager) -> (r: Option<
        TrackedImagePipelineBarrierRequest,
    >) {
        in_s.finish(out, self)
    }

    fn on_submit<F: FnOnce() -> Arc<Fence>>(
        &self,
        states: &mut StatesManager,
        queue: &Arc<Queue>,
        fence: F,
    ) -> (infos: TrackedImageSubmitInfos) {
        states.on_submit(self, queue, fence)
    }
}

impl<I: TrackedImage<S> + ?Sized, S> TrackedImage<S> for Arc<I> {
    open spec fn transitions(
        &self,
        before: &S,
        after: &S,
        num_command: usize,
        range: SubresourceRange,
        write: bool,
        layout: Layout,
        stage: PipelineStages,
        access: AccessFlagBits,
        r: Result<Option<TrackedImagePipelineBarrierRequest>, TransitionError>,
    ) -> bool {
        (**self).transitions(before, after, num_command, range, write, layout, stage, access, r)
    }

    open spec fn finishes(
        &self,
        in_s: &S,
        out: &S,
        out_after: &S,
        r: Option<TrackedImagePipelineBarrierRequest>,
    ) -> bool {
        (**self).finishes(in_s, out, out_after, r)
    }

    open spec fn fence_needed(&self, states: &S, queue: &Arc<Queue>) -> bool {
        (**self).fence_needed(states, queue)
    }

    open spec fn fence(&self, states: &S) -> Option<Fence> {
        (**self).fence(states)
    }

    open spec fn submits(
        &self,
        before: &S,
        after: &S,
        queue: &Arc<Queue>,
        infos: TrackedImageSubmitInfos,
    ) -> bool {
        (**self).submits(before, after, queue, infos)
    }

    fn transition(
        &self,
        states: &mut S,
        num_command: usize,
        first_mipmap: u32,
        num_mipmaps: u32,
        first_layer: u32,
        num_layers: u32,
        write: bool,
        layout: Layout,
        stage: PipelineStages,
        access: AccessFlagBits,
    ) -> (r: Result<Option<TrackedImagePipelineBarrierRequest>, TransitionError>) {
        (**self).transition(
            states,
            num_command,
            first_mipmap,
            num_mipmaps,
            first_layer,
            num_layers,
            write,
            layout,
            stage,
            access,
        )
    }

    fn finish(&self, in_s: &mut S, out: &mut S) -> (r: Option<TrackedImagePipelineBarrierRequest>) {
        (**self).finish(in_s, out)
    }

    fn on_submit<F: FnOnce() -> Arc<Fence>>(&self, states: &mut S, queue: &Arc<Queue>, fence: F) -> (infos:
        TrackedImageSubmitInfos) {
        (**self).on_submit(states, queue, fence)
    }
}

impl<'a, I: TrackedImage<S> + ?Sized, S> TrackedImage<S> for &'a I {
    open spec fn transitions(
        &self,
        before: &S,
        after: &S,
        num_command: usize,
        range: SubresourceRange,
        write: bool,
        layout: Layout,
        stage: PipelineStages,
        access: AccessFlagBits,
        r: Result<Option<TrackedImagePipelineBarrierRequest>, TransitionError>,
    ) -> bool {
        (**self).transitions(before, after, num_command, range, write, layout, stage, access, r)
    }

    open spec fn finishes(
        &self,
        in_s: &S,
        out: &S,
        out_after: &S,
        r: Option<TrackedImagePipelineBarrierRequest>,
    ) -> bool {
        (**self).finishes(in_s, out, out_after, r)
    }

    open spec fn fence_needed(&self, states: &S, queue: &Arc<Queue>) -> bool {
        (**self).fence_needed(states, queue)
    }

    open spec fn fence(&self, states: &S) -> Option<Fence> {
        (**self).fence(states)
    }

    open spec fn submits(
        &self,
        before: &S,
        after: &S,
        queue: &Arc<Queue>,
        infos: TrackedImageSubmitInfos,
    ) -> bool {
        (**self).submits(before, after, queue, infos)
    }

    fn transition(
        &self,
        states: &mut S,
        num_command: usize,
        first_mipmap: u32,
        num_mipmaps: u32,
        first_layer: u32,
        num_layers: u32,
        write: bool,
        layout: Layout,
        stage: PipelineStages,
        access: AccessFlagBits,
    ) -> (r: Result<Option<TrackedImagePipelineBarrierRequest>, TransitionError>) {
        (**self).transition(
            states,
            num_command,
            first_mipmap,
            num_mipmaps,
            first_layer,
            num_layers,
            write,
            layout,
            stage,
            access,
        )
    }

    fn finish(&self, in_s: &mut S, out: &mut S) -> (r: Option<TrackedImagePipelineBarrierRequest>) {
        (**self).finish(in_s, out)
    }

    fn on_submit<F: FnOnce() -> Arc<Fence>>(&self, states: &mut S, queue: &Arc<Queue>, fence: F) -> (infos:
        TrackedImageSubmitInfos) {
        (**self).on_submit(states, queue, fence)
    }
}

} // verus!
