use std::sync::Arc;

use image_tracking::format::{Format, FormatTy};
use image_tracking::layout::Layout;
use image_tracking::manager::StatesManager;
use image_tracking::request::{
    TrackedImagePipelineBarrierRequest, TrackedImagePipelineMemoryBarrierRequest,
};
use image_tracking::states::{SubresourceRange, TransitionError, UsageRecord};
use image_tracking::sync::{AccessFlagBits, PipelineStages};
use image_tracking::sys::{ImageDimensions, UnsafeImage};
use image_tracking::tracking::TrackedImage;

fn image_with(handle: u64) -> UnsafeImage {
    UnsafeImage {
        handle,
        format: Format { code: 37, ty: FormatTy::Float },
        samples: 1,
        dimensions: ImageDimensions {
            width: 64,
            height: 64,
            depth: 1,
            array_layers: 4,
            mipmap_levels: 4,
        },
        blit_source: true,
        blit_destination: true,
    }
}

fn image() -> UnsafeImage {
    image_with(7)
}

fn range(first_mipmap: u32, num_mipmaps: u32, first_layer: u32, num_layers: u32) -> SubresourceRange {
    SubresourceRange { first_mipmap, num_mipmaps, first_layer, num_layers }
}

fn transfer() -> PipelineStages {
    PipelineStages { transfer: true, ..PipelineStages::none() }
}

fn shader() -> PipelineStages {
    PipelineStages { fragment_shader: true, ..PipelineStages::none() }
}

fn compute() -> PipelineStages {
    PipelineStages { compute_shader: true, ..PipelineStages::none() }
}

fn transfer_write() -> AccessFlagBits {
    AccessFlagBits { transfer_write: true, ..AccessFlagBits::none() }
}

fn shader_read() -> AccessFlagBits {
    AccessFlagBits { shader_read: true, ..AccessFlagBits::none() }
}

fn shader_write() -> AccessFlagBits {
    AccessFlagBits { shader_write: true, ..AccessFlagBits::none() }
}

#[test]
fn write_then_read_asks_for_one_barrier() {
    let image = image();
    let mut states = StatesManager::new();
    let first = image.transition(
        &mut states,
        1,
        0,
        2,
        0,
        2,
        true,
        Layout::TransferDstOptimal,
        transfer(),
        transfer_write(),
    );
    assert!(matches!(first, Ok(Some(_))));
    let second = image.transition(
        &mut states,
        5,
        0,
        2,
        0,
        2,
        false,
        Layout::ShaderReadOnlyOptimal,
        shader(),
        shader_read(),
    );
    assert_eq!(
        second,
        Ok(Some(TrackedImagePipelineBarrierRequest {
            after_command_num: 1,
            source_stage: transfer(),
            destination_stages: shader(),
            by_region: false,
            memory_barrier: Some(TrackedImagePipelineMemoryBarrierRequest {
                first_mipmap: 0,
                num_mipmaps: 2,
                first_layer: 0,
                num_layers: 2,
                old_layout: Layout::TransferDstOptimal,
                new_layout: Layout::ShaderReadOnlyOptimal,
                source_access: transfer_write(),
                destination_access: shader_read(),
            }),
        }))
    );
}

#[test]
fn read_after_same_read_asks_for_no_barrier() {
    let image = image();
    let mut states = StatesManager::new();
    let first = image.transition(
        &mut states,
        1,
        0,
        2,
        0,
        2,
        false,
        Layout::ShaderReadOnlyOptimal,
        shader(),
        shader_read(),
    );
    assert!(first.is_ok());
    let second = image.transition(
        &mut states,
        2,
        0,
        2,
        0,
        2,
        false,
        Layout::ShaderReadOnlyOptimal,
        shader(),
        shader_read(),
    );
    assert_eq!(second, Ok(None));
}

#[test]
fn first_use_stands_after_command_zero() {
    let image = image();
    let mut states = StatesManager::new();
    let first = states.transition(
        &image,
        12,
        range(1, 1, 2, 2),
        true,
        Layout::General,
        compute(),
        shader_write(),
    );
    assert_eq!(
        first,
        Ok(Some(TrackedImagePipelineBarrierRequest {
            after_command_num: 0,
            source_stage: PipelineStages::top_of_pipe(),
            destination_stages: compute(),
            by_region: false,
            memory_barrier: Some(TrackedImagePipelineMemoryBarrierRequest {
                first_mipmap: 1,
                num_mipmaps: 1,
                first_layer: 2,
                num_layers: 2,
                old_layout: Layout::Undefined,
                new_layout: Layout::General,
                source_access: AccessFlagBits::none(),
                destination_access: shader_write(),
            }),
        }))
    );
}

#[test]
fn first_read_in_undefined_layout_asks_for_no_barrier() {
    let image = image();
    let mut states = StatesManager::new();
    let first = states.transition(
        &image,
        0,
        range(0, 1, 0, 1),
        false,
        Layout::Undefined,
        shader(),
        shader_read(),
    );
    assert_eq!(first, Ok(None));
    assert_eq!(
        states.usage(7, range(0, 1, 0, 1)),
        Some(UsageRecord {
            layout: Layout::Undefined,
            stages: shader(),
            access: shader_read(),
            write: false,
            command_num: 0,
        })
    );
}

#[test]
fn first_read_in_a_defined_layout_asks_for_a_barrier() {
    let image = image();
    let mut states = StatesManager::new();
    let first = states.transition(
        &image,
        3,
        range(0, 1, 0, 1),
        false,
        Layout::ShaderReadOnlyOptimal,
        shader(),
        shader_read(),
    );
    match first {
        Ok(Some(barrier)) => {
            assert_eq!(barrier.after_command_num, 0);
            let memory = barrier.memory_barrier.unwrap();
            assert_eq!(memory.old_layout, Layout::Undefined);
            assert_eq!(memory.new_layout, Layout::ShaderReadOnlyOptimal);
        }
        other => panic!("{:?}", other),
    }
}

#[test]
fn anything_after_a_write_asks_for_a_barrier() {
    let image = image();
    let mut states = StatesManager::new();
    let r = range(0, 1, 0, 1);
    assert!(states
        .transition(&image, 2, r, true, Layout::General, compute(), shader_write())
        .is_ok());
    let read = states.transition(&image, 3, r, false, Layout::General, compute(), shader_read());
    match read {
        Ok(Some(barrier)) => {
            assert_eq!(barrier.after_command_num, 2);
            assert_eq!(barrier.source_stage, compute());
            let memory = barrier.memory_barrier.unwrap();
            assert_eq!(memory.old_layout, Layout::General);
            assert_eq!(memory.new_layout, Layout::General);
            assert_eq!(memory.source_access, shader_write());
            assert_eq!(memory.destination_access, shader_read());
        }
        other => panic!("{:?}", other),
    }
    let again = states.transition(&image, 4, r, false, Layout::General, compute(), shader_read());
    assert_eq!(again, Ok(None));
}

#[test]
fn a_write_after_a_read_asks_for_a_barrier() {
    let image = image();
    let mut states = StatesManager::new();
    let r = range(0, 1, 0, 1);
    assert_eq!(
        states.transition(&image, 1, r, false, Layout::Undefined, shader(), shader_read()),
        Ok(None)
    );
    let write = states.transition(&image, 2, r, true, Layout::Undefined, compute(), shader_write());
    match write {
        Ok(Some(barrier)) => {
            assert_eq!(barrier.after_command_num, 1);
            assert_eq!(barrier.source_stage, shader());
            assert_eq!(barrier.destination_stages, compute());
            assert!(!barrier.by_region);
        }
        other => panic!("{:?}", other),
    }
}

#[test]
fn layout_change_is_carried_whatever_the_accesses() {
    let image = image();
    let mut states = StatesManager::new();
    let r = range(2, 2, 1, 3);
    assert!(states
        .transition(&image, 1, r, false, Layout::TransferSrcOptimal, shader(), shader_read())
        .is_ok());
    let second = states.transition(
        &image,
        2,
        r,
        false,
        Layout::ShaderReadOnlyOptimal,
        shader(),
        shader_read(),
    );
    match second {
        Ok(Some(barrier)) => {
            let memory = barrier.memory_barrier.unwrap();
            assert_eq!(memory.old_layout, Layout::TransferSrcOptimal);
            assert_eq!(memory.new_layout, Layout::ShaderReadOnlyOptimal);
            assert_eq!(memory.source_access, memory.destination_access);
            assert_eq!(
                (memory.first_mipmap, memory.num_mipmaps, memory.first_layer, memory.num_layers),
                (2, 2, 1, 3)
            );
        }
        other => panic!("{:?}", other),
    }
}

#[test]
fn lower_command_number_is_refused() {
    let image = image();
    let mut states = StatesManager::new();
    let r = range(0, 1, 0, 1);
    assert!(states
        .transition(&image, 4, r, false, Layout::General, shader(), shader_read())
        .is_ok());
    assert_eq!(
        states.transition(&image, 3, r, true, Layout::TransferDstOptimal, transfer(), transfer_write()),
        Err(TransitionError::OrderingViolation)
    );
    assert_eq!(
        states.usage(7, r),
        Some(UsageRecord {
            layout: Layout::General,
            stages: shader(),
            access: shader_read(),
            write: false,
            command_num: 4,
        })
    );
}

#[test]
fn equal_command_number_is_refused() {
    let image = image();
    let mut states = StatesManager::new();
    let r = range(0, 1, 0, 1);
    assert!(states
        .transition(&image, 4, r, false, Layout::General, shader(), shader_read())
        .is_ok());
    assert_eq!(
        states.transition(&image, 4, r, false, Layout::General, shader(), shader_read()),
        Err(TransitionError::OrderingViolation)
    );
}

#[test]
fn first_use_at_command_zero_is_accepted() {
    let image = image();
    let mut states = StatesManager::new();
    assert!(states
        .transition(&image, 0, range(0, 1, 0, 1), true, Layout::General, compute(), shader_write())
        .is_ok());
}

#[test]
fn empty_range_is_refused() {
    let image = image();
    let mut states = StatesManager::new();
    assert_eq!(
        states.transition(&image, 1, range(0, 0, 0, 1), false, Layout::General, shader(), shader_read()),
        Err(TransitionError::InvalidRange)
    );
    assert_eq!(
        states.transition(&image, 1, range(0, 1, 3, 0), false, Layout::General, shader(), shader_read()),
        Err(TransitionError::InvalidRange)
    );
    assert_eq!(states.usage(7, range(0, 0, 0, 1)), None);
}

#[test]
fn range_outside_the_image_is_refused() {
    let image = image();
    let mut states = StatesManager::new();
    assert_eq!(
        states.transition(&image, 1, range(3, 2, 0, 1), false, Layout::General, shader(), shader_read()),
        Err(TransitionError::InvalidRange)
    );
    assert_eq!(
        states.transition(&image, 1, range(0, 1, 0, 5), false, Layout::General, shader(), shader_read()),
        Err(TransitionError::InvalidRange)
    );
    assert_eq!(
        states.transition(
            &image,
            1,
            range(u32::MAX, u32::MAX, 0, 1),
            false,
            Layout::General,
            shader(),
            shader_read()
        ),
        Err(TransitionError::InvalidRange)
    );
    assert!(states
        .transition(&image, 1, range(3, 1, 0, 4), false, Layout::General, shader(), shader_read())
        .is_ok());
}

#[test]
fn partial_overlap_is_refused() {
    let image = image();
    let mut states = StatesManager::new();
    assert!(states
        .transition(&image, 1, range(0, 2, 0, 2), true, Layout::General, compute(), shader_write())
        .is_ok());
    assert_eq!(
        states.transition(&image, 2, range(1, 2, 1, 2), false, Layout::General, shader(), shader_read()),
        Err(TransitionError::RangeConflict)
    );
    assert_eq!(
        states.transition(&image, 2, range(0, 4, 0, 4), false, Layout::General, shader(), shader_read()),
        Err(TransitionError::RangeConflict)
    );
    assert_eq!(
        states.transition(&image, 2, range(0, 1, 0, 1), false, Layout::General, shader(), shader_read()),
        Err(TransitionError::RangeConflict)
    );
    assert_eq!(states.usage(7, range(1, 2, 1, 2)), None);
    assert!(states.conflicts(7, range(1, 2, 1, 2)));
    assert!(!states.conflicts(7, range(0, 2, 0, 2)));
    assert!(!states.conflicts(7, range(2, 2, 0, 2)));
    assert!(!states.conflicts(8, range(1, 2, 1, 2)));
}

#[test]
fn range_conflict_comes_before_ordering_violation() {
    let image = image();
    let mut states = StatesManager::new();
    assert!(states
        .transition(&image, 9, range(0, 2, 0, 2), true, Layout::General, compute(), shader_write())
        .is_ok());
    assert_eq!(
        states.transition(&image, 1, range(0, 2, 0, 3), false, Layout::General, shader(), shader_read()),
        Err(TransitionError::RangeConflict)
    );
}

#[test]
fn invalid_range_comes_before_range_conflict() {
    let image = image();
    let mut states = StatesManager::new();
    assert!(states
        .transition(&image, 1, range(0, 2, 0, 2), true, Layout::General, compute(), shader_write())
        .is_ok());
    assert_eq!(
        states.transition(&image, 2, range(1, 4, 0, 2), false, Layout::General, shader(), shader_read()),
        Err(TransitionError::InvalidRange)
    );
}

#[test]
fn disjoint_ranges_are_independent() {
    let image = image();
    let mut states = StatesManager::new();
    assert!(states
        .transition(&image, 5, range(0, 2, 0, 4), true, Layout::TransferDstOptimal, transfer(), transfer_write())
        .is_ok());
    let other = states.transition(
        &image,
        1,
        range(2, 2, 0, 4),
        false,
        Layout::Undefined,
        shader(),
        shader_read(),
    );
    assert_eq!(other, Ok(None));
    assert_eq!(states.usage(7, range(0, 2, 0, 4)).unwrap().command_num, 5);
    assert_eq!(states.usage(7, range(2, 2, 0, 4)).unwrap().command_num, 1);
}

#[test]
fn images_are_independent() {
    let a = image_with(1);
    let b = image_with(2);
    let mut states = StatesManager::new();
    let r = range(0, 4, 0, 4);
    assert!(states
        .transition(&a, 5, r, true, Layout::TransferDstOptimal, transfer(), transfer_write())
        .is_ok());
    let first_of_b = states.transition(&b, 1, range(1, 1, 1, 1), false, Layout::Undefined, shader(), shader_read());
    assert_eq!(first_of_b, Ok(None));
    assert_eq!(states.usage(1, r).unwrap().layout, Layout::TransferDstOptimal);
    assert_eq!(states.usage(2, r), None);
    assert_eq!(states.usage(2, range(1, 1, 1, 1)).unwrap().command_num, 1);
}

#[test]
fn tables_are_independent() {
    let image = image();
    let r = range(0, 1, 0, 1);
    let mut one = StatesManager::new();
    let mut two = StatesManager::new();
    assert!(one
        .transition(&image, 8, r, true, Layout::General, compute(), shader_write())
        .is_ok());
    assert_eq!(
        two.transition(&image, 1, r, false, Layout::Undefined, shader(), shader_read()),
        Ok(None)
    );
    assert_eq!(one.usage(7, r).unwrap().command_num, 8);
    assert_eq!(two.usage(7, r).unwrap().command_num, 1);
}

#[test]
fn a_use_supersedes_the_record() {
    let image = image();
    let mut states = StatesManager::new();
    let r = range(0, 1, 0, 1);
    assert!(states
        .transition(&image, 1, r, false, Layout::ShaderReadOnlyOptimal, shader(), shader_read())
        .is_ok());
    assert_eq!(
        states.transition(&image, 2, r, false, Layout::ShaderReadOnlyOptimal, compute(), shader_read()),
        Ok(None)
    );
    let write = states.transition(&image, 3, r, true, Layout::General, compute(), shader_write());
    match write {
        Ok(Some(barrier)) => {
            assert_eq!(barrier.after_command_num, 2);
            assert_eq!(barrier.source_stage, compute());
        }
        other => panic!("{:?}", other),
    }
    assert_eq!(
        states.usage(7, r),
        Some(UsageRecord {
            layout: Layout::General,
            stages: compute(),
            access: shader_write(),
            write: true,
            command_num: 3,
        })
    );
}

#[test]
fn transition_behind_wrappers_is_the_same() {
    let r = range(0, 2, 0, 2);
    let mut direct = StatesManager::new();
    let mut shared = StatesManager::new();
    let mut borrowed = StatesManager::new();
    let handle = Arc::new(image());
    let image = image();
    let reference = &image;
    for (num_command, write, layout) in
        [(1, true, Layout::TransferDstOptimal), (5, false, Layout::ShaderReadOnlyOptimal), (4, false, Layout::General)]
    {
        let expected = image.transition(
            &mut direct,
            num_command,
            0,
            2,
            0,
            2,
            write,
            layout,
            shader(),
            shader_read(),
        );
        assert_eq!(
            handle.transition(&mut shared, num_command, 0, 2, 0, 2, write, layout, shader(), shader_read()),
            expected
        );
        assert_eq!(
            reference.transition(
                &mut borrowed,
                num_command,
                0,
                2,
                0,
                2,
                write,
                layout,
                shader(),
                shader_read()
            ),
            expected
        );
    }
    assert_eq!(shared.usage(7, r), direct.usage(7, r));
    assert_eq!(borrowed.usage(7, r), direct.usage(7, r));
    assert_eq!(direct.usage(7, r).unwrap().command_num, 5);
}

#[test]
fn unrecorded_use_is_the_sentinel() {
    assert_eq!(
        UsageRecord::unrecorded(),
        UsageRecord {
            layout: Layout::Undefined,
            stages: PipelineStages { top_of_pipe: true, ..PipelineStages::none() },
            access: AccessFlagBits::none(),
            write: false,
            command_num: 0,
        }
    );
}
