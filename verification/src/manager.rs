use std::sync::Arc;
use vstd::prelude::*;
use crate::assoc::{
    distinct_keys, has_key, lemma_absent, lemma_entry, lemma_position, lemma_push, lemma_update,
    to_map,
};
use crate::device::Queue;
use crate::layout::Layout;
use crate::request::{TrackedImagePipelineBarrierRequest, TrackedImageSubmitInfos};
use crate::states::{
    barrier_between, barrier_needed, closes_mismatch, closing_barrier, finish_result,
    is_lowest_mismatch, mismatch, transition_result, NextUse, QueueState, Subresource,
    SubresourceRange, Tracking, TransitionError, UsageRecord,
};
use crate::sync::{AccessFlagBits, Fence, PipelineStages, Semaphore};
use crate::sys::UnsafeImage;

verus! {

/// The state table: for each range of each image that has been used, the record of its
/// latest use, and for each image what is remembered of it across submissions.
///
/// The table belongs to whoever records. It is handed to every operation, so that the same
/// image can be tracked in several tables at once.
pub struct StatesManager {
    usages: Vec<(Subresource, UsageRecord)>,
    queues: Vec<(u64, QueueState)>,
}

/// The ranges in `s` are not empty, and two of them that belong to one image have no
/// subresource in common.
spec fn disjoint_ranges(s: Seq<(Subresource, UsageRecord)>) -> bool {
    &&& forall|i: int| 0 <= i < s.len() ==> !(#[trigger] s[i]).0.range.spec_is_empty()
    &&& forall|i: int, j: int|
        0 <= i < j < s.len() && (#[trigger] s[i]).0.image == (#[trigger] s[j]).0.image
            ==> !s[i].0.range.spec_overlaps(&s[j].0.range)
}

/// Whether the range at position `i` of `s` belongs to `image`, overlaps `range` and is
/// another range.
spec fn clashes(s: Seq<(Subresource, UsageRecord)>, i: int, image: u64, range: SubresourceRange) -> bool {
    &&& 0 <= i < s.len()
    &&& s[i].0.image == image
    &&& s[i].0.range != range
    &&& s[i].0.range.spec_overlaps(&range)
}

/// Whether `barrier` closes the range at position `j` of `s`, which is below `end`, belongs
/// to `image` and mismatches.
spec fn closes_at(
    s: Seq<(Subresource, UsageRecord)>,
    inner: Tracking,
    outer: Tracking,
    image: u64,
    end: int,
    barrier: TrackedImagePipelineBarrierRequest,
    j: int,
) -> bool {
    &&& 0 <= j < end
    &&& j < s.len()
    &&& s[j].0.image == image
    &&& mismatch(inner, outer, image, s[j].0.range)
    &&& barrier == closing_barrier(inner, outer, image, s[j].0.range)
}

/// Whether `barrier` closes a mismatching range of `image` at a position of `s` below `end`.
spec fn closes_below(
    s: Seq<(Subresource, UsageRecord)>,
    inner: Tracking,
    outer: Tracking,
    image: u64,
    end: int,
    barrier: TrackedImagePipelineBarrierRequest,
) -> bool {
    exists|j: int| closes_at(s, inner, outer, image, end, barrier, j)
}

proof fn lemma_disjoint_is_distinct(s: Seq<(Subresource, UsageRecord)>)
    requires
        disjoint_ranges(s),
    ensures
        distinct_keys(s),
{
    assert forall|i: int, j: int| 0 <= i < j < s.len() implies (#[trigger] s[i]).0 != (
    #[trigger] s[j]).0 by {
        if s[i].0 == s[j].0 {
            assert(!s[i].0.range.spec_is_empty());
            assert(s[i].0.range.spec_overlaps(&s[j].0.range));
        }
    }
}

proof fn lemma_disjoint_is_wf(s: Seq<(Subresource, UsageRecord)>, queues: Map<u64, QueueState>)
    requires
        disjoint_ranges(s),
    ensures
        (Tracking { usages: to_map(s), queues }).wf(),
{
    let t = Tracking { usages: to_map(s), queues };
    assert forall|key: Subresource| #[trigger] t.usages.dom().contains(key) implies !key.range.spec_is_empty() by {
        let i = lemma_position(s, key);
        assert(!s[i].0.range.spec_is_empty());
    }
    assert forall|a: Subresource, b: Subresource|
        #![trigger t.usages.dom().contains(a), t.usages.dom().contains(b)]
        t.usages.dom().contains(a) && t.usages.dom().contains(b) && a.image == b.image && a.range
            != b.range implies !a.range.spec_overlaps(&b.range) by {
        let i = lemma_position(s, a);
        let j = lemma_position(s, b);
        if i < j {
            assert(!s[i].0.range.spec_overlaps(&s[j].0.range));
        } else if j < i {
            assert(!s[j].0.range.spec_overlaps(&s[i].0.range));
        }
    }
}

proof fn lemma_conflicts(s: Seq<(Subresource, UsageRecord)>, queues: Map<u64, QueueState>, image: u64, range: SubresourceRange)
    ensures
        (Tracking { usages: to_map(s), queues }).conflicts(image, range) <==> exists|i: int| clashes(s, i, image, range),
{
    let t = Tracking { usages: to_map(s), queues };
    if t.conflicts(image, range) {
        let other = choose|other: SubresourceRange| #[trigger]
            t.usages.dom().contains(Subresource { image, range: other }) && other != range
                && other.spec_overlaps(&range);
        let i = lemma_position(s, Subresource { image, range: other });
        assert(clashes(s, i, image, range));
    }
    if exists|i: int| clashes(s, i, image, range) {
        let i = choose|i: int| clashes(s, i, image, range);
        assert(has_key(s, i, s[i].0));
        assert(t.usages.dom().contains(Subresource { image, range: s[i].0.range }));
    }
}

impl View for StatesManager {
    type V = Tracking;

    closed spec fn view(&self) -> Tracking {
        Tracking { usages: to_map(self.usages@), queues: to_map(self.queues@) }
    }
}

impl StatesManager {
    #[verifier::type_invariant]
    spec fn inv(self) -> bool {
        &&& disjoint_ranges(self.usages@)
        &&& distinct_keys(self.queues@)
    }

    /// A table in which nothing is recorded.
    pub fn new() -> (states: StatesManager)
        ensures
            states@.usages == Map::<Subresource, UsageRecord>::empty(),
            states@.queues == Map::<u64, QueueState>::empty(),
            states@.wf(),
    {
        let states = StatesManager { usages: Vec::new(), queues: Vec::new() };
        proof {
            assert(to_map(states.usages@) =~= Map::<Subresource, UsageRecord>::empty());
            assert(to_map(states.queues@) =~= Map::<u64, QueueState>::empty());
        }
        states
    }

    /// The position of the record of exactly this range of the image, if there is one.
    fn position(&self, image: u64, range: SubresourceRange) -> (r: Option<usize>)
        ensures
            match r {
                Some(i) => has_key(self.usages@, i as int, Subresource { image, range }),
                None => forall|i: int|
                    0 <= i < self.usages@.len() ==> (#[trigger] self.usages@[i]).0 != (Subresource {
                        image,
                        range,
                    }),
            },
    {
        let mut i: usize = 0;
        while i < self.usages.len()
            invariant
                i <= self.usages@.len(),
                forall|j: int|
                    0 <= j < i ==> (#[trigger] self.usages@[j]).0 != (Subresource { image, range }),
            decreases self.usages@.len() - i,
        {
            let key = self.usages[i].0;
            if key.image == image && key.range == range {
                return Some(i);
            }
            i += 1;
        }
        None
    }

    /// The record of the latest use of exactly this range of the image, if there is one.
    pub fn usage(&self, image: u64, range: SubresourceRange) -> (r: Option<UsageRecord>)
        ensures
            r == self@.usage(image, range),
            self@.wf(),
    {
        proof {
            use_type_invariant(self);
            lemma_disjoint_is_distinct(self.usages@);
            lemma_disjoint_is_wf(self.usages@, to_map(self.queues@));
        }
        match self.position(image, range) {
            Some(i) => {
                proof {
                    lemma_entry(self.usages@, i as int);
                }
                Some(self.usages[i].1)
            },
            None => {
                proof {
                    lemma_absent(self.usages@, Subresource { image, range });
                }
                None
            },
        }
    }

    /// Whether the range overlaps a recorded range of the image that is another range.
    pub fn conflicts(&self, image: u64, range: SubresourceRange) -> (r: bool)
        ensures
            r == self@.conflicts(image, range),
    {
        let mut i: usize = 0;
        while i < self.usages.len()
            invariant
                i <= self.usages@.len(),
                forall|j: int| 0 <= j < i ==> !clashes(self.usages@, j, image, range),
            decreases self.usages@.len() - i,
        {
            let key = self.usages[i].0;
            if key.image == image && key.range != range && key.range.overlaps(&range) {
                proof {
                    assert(clashes(self.usages@, i as int, image, range));
                    lemma_conflicts(self.usages@, to_map(self.queues@), image, range);
                }
                return true;
            }
            i += 1;
        }
        proof {
            lemma_conflicts(self.usages@, to_map(self.queues@), image, range);
        }
        false
    }

    /// Records a use of `range` of `image` by the command `num_command`, and returns the
    /// barrier that has to stand between the latest use of the range and this one, if one
    /// has to.
    ///
    /// The use is refused, and the table left as it is, where the range is empty or not
    /// within the image, where it overlaps another recorded range of the image, or where the
    /// range is on record with a command number that is not lower than `num_command`: a use
    /// with the number of the recorded use is refused too. Otherwise the use is recorded in
    /// place of the earlier one. A barrier is returned when the layout changes, when the
    /// earlier use wrote or when this one writes. It is to be placed after the command of
    /// the earlier use, or after command 0 where the range has not been used.
    pub fn transition(
        &mut self,
        image: &UnsafeImage,
        num_command: usize,
        range: SubresourceRange,
        write: bool,
        layout: Layout,
        stage: PipelineStages,
        access: AccessFlagBits,
    ) -> (r: Result<Option<TrackedImagePipelineBarrierRequest>, TransitionError>)
        ensures
            r == transition_result(
                old(self)@,
                image.dimensions,
                image.handle,
                range,
                num_command,
                write,
                layout,
                stage,
                access,
            ),
            r is Ok ==> final(self)@ == old(self)@.recorded(
                image.handle,
                range,
                UsageRecord { layout, stages: stage, access, write, command_num: num_command },
            ),
            r is Err ==> *final(self) == *old(self),
            final(self)@.wf(),
    {
        proof {
            use_type_invariant(&*self);
            lemma_disjoint_is_distinct(self.usages@);
            lemma_disjoint_is_wf(self.usages@, to_map(self.queues@));
        }
        if range.is_empty() || !range.fits(&image.dimensions) {
            return Err(TransitionError::InvalidRange);
        }
        if self.conflicts(image.handle, range) {
            return Err(TransitionError::RangeConflict);
        }
        let key = Subresource { image: image.handle, range };
        let record = UsageRecord { layout, stages: stage, access, write, command_num: num_command };
        let prior = match self.position(image.handle, range) {
            Some(i) => {
                proof {
                    lemma_entry(self.usages@, i as int);
                }
                let prior = self.usages[i].1;
                if num_command <= prior.command_num {
                    return Err(TransitionError::OrderingViolation);
                }
                proof {
                    lemma_update(self.usages@, i as int, record);
                }
                let mut usages: Vec<(Subresource, UsageRecord)> = Vec::new();
                std::mem::swap(&mut usages, &mut self.usages);
                usages.set(i, (key, record));
                self.usages = usages;
                prior
            },
            None => {
                proof {
                    lemma_absent(self.usages@, key);
                    lemma_push(self.usages@, key, record);
                    lemma_conflicts(self.usages@, to_map(self.queues@), image.handle, range);
                    assert forall|i: int| 0 <= i < self.usages@.len() && (
                    #[trigger] self.usages@[i]).0.image == image.handle implies !self.usages@[i].0.range.spec_overlaps(
                    &range) by {
                        if self.usages@[i].0.range.spec_overlaps(&range) {
                            assert(clashes(self.usages@, i, image.handle, range));
                        }
                    }
                }
                let mut usages: Vec<(Subresource, UsageRecord)> = Vec::new();
                std::mem::swap(&mut usages, &mut self.usages);
                usages.push((key, record));
                self.usages = usages;
                UsageRecord::unrecorded()
            },
        };
        proof {
            lemma_disjoint_is_wf(self.usages@, to_map(self.queues@));
        }
        if barrier_needed(prior, write, layout) {
            Ok(Some(barrier_between(prior, range, layout, stage, access)))
        } else {
            Ok(None)
        }
    }

    /// Called when recording ends: compares what recording left in this table with what the
    /// outer table `outer` expects of the image, and returns the closing barrier, if one is
    /// needed.
    ///
    /// A range mismatches where both tables have it on record and the layouts differ. Where
    /// no range of the image mismatches, nothing is returned. Otherwise the barrier is the
    /// one for the mismatching range that starts first: it stands after the command of the
    /// recorded use and leads from that use to the layout, stages and accesses that the
    /// outer table holds for the range. Neither table is changed.
    pub fn finish(&self, outer: &StatesManager, image: &UnsafeImage) -> (r: Option<
        TrackedImagePipelineBarrierRequest,
    >)
        ensures
            r == finish_result(self@, outer@, image.handle),
            r is None <==> forall|range: SubresourceRange|
                self@.usage(image.handle, range) is Some && outer@.usage(image.handle, range) is Some
                    ==> outer@.prior(image.handle, range).layout == self@.prior(
                    image.handle,
                    range,
                ).layout,
            self@.wf(),
            outer@.wf(),
    {
        proof {
            use_type_invariant(self);
            use_type_invariant(outer);
            lemma_disjoint_is_distinct(self.usages@);
            lemma_disjoint_is_wf(self.usages@, to_map(self.queues@));
            lemma_disjoint_is_distinct(outer.usages@);
            lemma_disjoint_is_wf(outer.usages@, to_map(outer.queues@));
        }
        let mut best: Option<(SubresourceRange, UsageRecord, UsageRecord)> = None;
        let mut i: usize = 0;
        while i < self.usages.len()
            invariant
                i <= self.usages@.len(),
                distinct_keys(self.usages@),
                self@.usages == to_map(self.usages@),
                match best {
                    Some((range, left, expected)) => {
                        &&& mismatch(self@, outer@, image.handle, range)
                        &&& left == self@.prior(image.handle, range)
                        &&& expected == outer@.prior(image.handle, range)
                        &&& forall|j: int|
                            0 <= j < i && (#[trigger] self.usages@[j]).0.image == image.handle
                                && mismatch(self@, outer@, image.handle, self.usages@[j].0.range)
                                ==> !self.usages@[j].0.range.spec_starts_before(&range)
                    },
                    None => forall|j: int|
                        0 <= j < i && (#[trigger] self.usages@[j]).0.image == image.handle
                            ==> !mismatch(self@, outer@, image.handle, self.usages@[j].0.range),
                },
            decreases self.usages@.len() - i,
        {
            let (key, left) = self.usages[i];
            proof {
                lemma_entry(self.usages@, i as int);
            }
            if key.image == image.handle {
                match outer.usage(image.handle, key.range) {
                    Some(expected) => {
                        if expected.layout != left.layout {
                            let better = match best {
                                Some((range, _, _)) => key.range.starts_before(&range),
                                None => true,
                            };
                            if better {
                                best = Some((key.range, left, expected));
                            }
                        }
                    },
                    None => {},
                }
            }
            i += 1;
        }
        match best {
            Some((range, left, expected)) => {
                proof {
                    assert forall|other: SubresourceRange| #[trigger]
                        mismatch(self@, outer@, image.handle, other) implies !other.spec_starts_before(
                        &range,
                    ) by {
                        let j = lemma_position(
                            self.usages@,
                            Subresource { image: image.handle, range: other },
                        );
                        assert(self.usages@[j].0.range == other);
                    }
                    assert(is_lowest_mismatch(self@, outer@, image.handle, range));
                    let chosen = choose|chosen: SubresourceRange|
                        is_lowest_mismatch(self@, outer@, image.handle, chosen);
                    assert(chosen.spec_overlaps(&range));
                }
                Some(barrier_between(left, range, expected.layout, expected.stages, expected.access))
            },
            None => {
                proof {
                    assert forall|range: SubresourceRange|
                        !mismatch(self@, outer@, image.handle, range) by {
                        if mismatch(self@, outer@, image.handle, range) {
                            let j = lemma_position(
                                self.usages@,
                                Subresource { image: image.handle, range },
                            );
                            assert(self.usages@[j].0.range == range);
                        }
                    }
                }
                None
            },
        }
    }

    /// The closing barriers of all the mismatching ranges of the image, each once, where
    /// `finish` returns the one for the range that starts first. Neither table is changed.
    pub fn closing_barriers(&self, outer: &StatesManager, image: &UnsafeImage) -> (r: Vec<
        TrackedImagePipelineBarrierRequest,
    >)
        ensures
            forall|range: SubresourceRange| #[trigger]
                mismatch(self@, outer@, image.handle, range) ==> r@.contains(
                    closing_barrier(self@, outer@, image.handle, range),
                ),
            forall|k: int|
                0 <= k < r@.len() ==> closes_mismatch(self@, outer@, image.handle, #[trigger] r@[k]),
            forall|k: int, l: int| 0 <= k < l < r@.len() ==> r@[k] != r@[l],
            r@.len() == 0 <==> finish_result(self@, outer@, image.handle) is None,
    {
        proof {
            use_type_invariant(self);
            lemma_disjoint_is_distinct(self.usages@);
        }
        let ghost s = self.usages@;
        let ghost inner = self@;
        let ghost expects = outer@;
        let ghost id = image.handle;
        let mut barriers: Vec<TrackedImagePipelineBarrierRequest> = Vec::new();
        let mut i: usize = 0;
        while i < self.usages.len()
            invariant
                i <= s.len(),
                s == self.usages@,
                inner == self@,
                expects == outer@,
                id == image.handle,
                distinct_keys(s),
                inner.usages == to_map(s),
                forall|j: int|
                    0 <= j < i && (#[trigger] s[j]).0.image == id && mismatch(
                        inner,
                        expects,
                        id,
                        s[j].0.range,
                    ) ==> barriers@.contains(closing_barrier(inner, expects, id, s[j].0.range)),
                forall|k: int|
                    0 <= k < barriers@.len() ==> closes_below(
                        s,
                        inner,
                        expects,
                        id,
                        i as int,
                        #[trigger] barriers@[k],
                    ),
                forall|k: int, l: int| 0 <= k < l < barriers@.len() ==> barriers@[k] != barriers@[l],
            decreases s.len() - i,
        {
            let (key, left) = self.usages[i];
            let ghost before = barriers@;
            proof {
                lemma_entry(s, i as int);
                assert forall|k: int| 0 <= k < before.len() implies closes_below(
                    s,
                    inner,
                    expects,
                    id,
                    i + 1,
                    #[trigger] before[k],
                ) && (key.image == id ==> before[k] != closing_barrier(
                    inner,
                    expects,
                    id,
                    key.range,
                )) by {
                    let j = choose|j: int| closes_at(s, inner, expects, id, i as int, before[k], j);
                    assert(closes_at(s, inner, expects, id, i + 1, before[k], j));
                    assert(s[j].0 != s[i as int].0);
                }
            }
            if key.image == image.handle {
                match outer.usage(image.handle, key.range) {
                    Some(expected) => {
                        if expected.layout != left.layout {
                            let barrier = barrier_between(
                                left,
                                key.range,
                                expected.layout,
                                expected.stages,
                                expected.access,
                            );
                            barriers.push(barrier);
                            proof {
                                assert(barriers@[before.len() as int] == barrier);
                                assert(closes_at(s, inner, expects, id, i + 1, barrier, i as int));
                                assert forall|j: int|
                                    0 <= j < i && (#[trigger] s[j]).0.image == id && mismatch(
                                        inner,
                                        expects,
                                        id,
                                        s[j].0.range,
                                    ) implies barriers@.contains(
                                    closing_barrier(inner, expects, id, s[j].0.range),
                                ) by {
                                    let b = closing_barrier(inner, expects, id, s[j].0.range);
                                    let k = choose|k: int| 0 <= k < before.len() && before[k] == b;
                                    assert(barriers@[k] == b);
                                }
                            }
                        }
                    },
                    None => {},
                }
            }
            i += 1;
        }
        proof {
            assert forall|range: SubresourceRange| #[trigger]
                mismatch(inner, expects, id, range) implies barriers@.contains(
                closing_barrier(inner, expects, id, range),
            ) by {
                let j = lemma_position(s, Subresource { image: id, range });
                assert(s[j].0.range == range);
            }
            assert forall|k: int| 0 <= k < barriers@.len() implies closes_mismatch(
                inner,
                expects,
                id,
                #[trigger] barriers@[k],
            ) by {
                let j = choose|j: int| closes_at(s, inner, expects, id, i as int, barriers@[k], j);
                assert(mismatch(inner, expects, id, s[j].0.range));
            }
            if barriers@.len() > 0 {
                assert(closes_mismatch(inner, expects, id, barriers@[0]));
            }
            if exists|range: SubresourceRange| mismatch(inner, expects, id, range) {
                let range = choose|range: SubresourceRange| mismatch(inner, expects, id, range);
                assert(barriers@.contains(closing_barrier(inner, expects, id, range)));
            }
        }
        barriers
    }

    /// The position of what is remembered of the image across submissions, if anything is.
    fn queue_position(&self, image: u64) -> (r: Option<usize>)
        ensures
            match r {
                Some(i) => has_key(self.queues@, i as int, image),
                None => forall|i: int| 0 <= i < self.queues@.len() ==> (#[trigger] self.queues@[i]).0 != image,
            },
    {
        let mut i: usize = 0;
        while i < self.queues.len()
            invariant
                i <= self.queues@.len(),
                forall|j: int| 0 <= j < i ==> (#[trigger] self.queues@[j]).0 != image,
            decreases self.queues@.len() - i,
        {
            if self.queues[i].0 == image {
                return Some(i);
            }
            i += 1;
        }
        None
    }

    /// What is remembered of the image across submissions.
    pub fn queue_state(&self, image: u64) -> (r: QueueState)
        ensures
            r == self@.queue_state(image),
    {
        proof {
            use_type_invariant(self);
        }
        match self.queue_position(image) {
            Some(i) => {
                proof {
                    lemma_entry(self.queues@, i as int);
                }
                self.queues[i].1
            },
            None => {
                proof {
                    lemma_absent(self.queues@, image);
                }
                QueueState::idle()
            },
        }
    }

    /// Sets what is remembered of the image across submissions.
    fn set_queue_state(&mut self, image: u64, state: QueueState)
        ensures
            final(self)@ == old(self)@.with_queue_state(image, state),
            final(self)@.wf(),
    {
        proof {
            use_type_invariant(&*self);
            lemma_disjoint_is_wf(self.usages@, to_map(self.queues@).insert(image, state));
        }
        let position = self.queue_position(image);
        let mut queues: Vec<(u64, QueueState)> = Vec::new();
        std::mem::swap(&mut queues, &mut self.queues);
        match position {
            Some(i) => {
                proof {
                    lemma_update(queues@, i as int, state);
                }
                queues.set(i, (image, state));
            },
            None => {
                proof {
                    lemma_push(queues@, image, state);
                }
                queues.push((image, state));
            },
        }
        self.queues = queues;
    }

    /// Announces the reader that comes after the next submission of work on the image: the
    /// queue that it will run on, and the semaphore that it will wait for. An earlier
    /// announcement for the image is replaced.
    pub fn expect_reader(&mut self, image: &UnsafeImage, queue: Queue, semaphore: Semaphore)
        ensures
            final(self)@ == old(self)@.with_queue_state(
                image.handle,
                QueueState {
                    last: old(self)@.queue_state(image.handle).last,
                    next: Some(NextUse { queue, semaphore }),
                    fence: old(self)@.queue_state(image.handle).fence,
                },
            ),
            final(self)@.wf(),
    {
        let state = self.queue_state(image.handle);
        self.set_queue_state(
            image.handle,
            QueueState { last: state.last, next: Some(NextUse { queue, semaphore }), fence: state.fence },
        );
    }

    /// Called when the recorded work is submitted to `queue`: says which semaphores the
    /// submission has to wait for and to signal on account of the image, takes a fence where
    /// one is needed, and remembers the submission.
    ///
    /// The submission waits for the semaphore that the latest submission signals, where that
    /// one went to another queue; all commands wait. It signals the semaphore of the
    /// announced reader, where that reader runs on another queue. A semaphore signal and the
    /// wait for it make every earlier write available and visible, so that no barrier is
    /// asked for at either boundary.
    ///
    /// `fence` is called once where the submission waits for a semaphore or signals one, and
    /// the fence that it returns becomes the fence of the image. Elsewhere `fence` is not
    /// called, nor has it to be callable, and the image keeps the fence that it had.
    pub fn on_submit<F: FnOnce() -> Arc<Fence>>(
        &mut self,
        image: &UnsafeImage,
        queue: &Arc<Queue>,
        fence: F,
    ) -> (infos: TrackedImageSubmitInfos)
        requires
            old(self)@.queue_state(image.handle).fence_needed(**queue) ==> call_requires(fence, ()),
        ensures
            infos.waits_for() == (match old(self)@.queue_state(image.handle).waits_for(**queue) {
                Some(semaphore) => Some((semaphore, PipelineStages::spec_all_commands())),
                None => None,
            }),
            infos.signals() == old(self)@.queue_state(image.handle).signals(**queue),
            infos.pre_barrier is None,
            infos.post_barrier is None,
            infos.spec_needs_fence() == old(self)@.queue_state(image.handle).fence_needed(**queue),
            final(self)@ == old(self)@.with_queue_state(
                image.handle,
                old(self)@.queue_state(image.handle).submitted(
                    **queue,
                    final(self)@.queue_state(image.handle).fence,
                ),
            ),
            infos.spec_needs_fence() ==> exists|taken: Arc<Fence>|
                call_ensures(fence, (), taken) && final(self)@.queue_state(image.handle).fence
                    == Some(*taken),
            !infos.spec_needs_fence() ==> final(self)@.queue_state(image.handle).fence == old(
                self,
            )@.queue_state(image.handle).fence,
            final(self)@.wf(),
    {
        let state = self.queue_state(image.handle);
        let queue: Queue = **queue;
        let waits = state.waits_for(queue);
        let signals = state.signals(queue);
        let kept: Option<Fence> = if state.fence_needed(queue) {
            let taken = fence();
            Some(*taken)
        } else {
            state.fence
        };
        self.set_queue_state(image.handle, state.submitted(queue, kept));
        TrackedImageSubmitInfos {
            pre_semaphore: match waits {
                Some(semaphore) => Some((Arc::new(semaphore), PipelineStages::all_commands())),
                None => None,
            },
            post_semaphore: match signals {
                Some(semaphore) => Some(Arc::new(semaphore)),
                None => None,
            },
            pre_barrier: None,
            post_barrier: None,
        }
    }
}

} // verus!
