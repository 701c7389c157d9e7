use std::sync::Arc;

use image_tracking::format::{Format, FormatTy};
use image_tracking::layout::Layout;
use image_tracking::manager::StatesManager;
use image_tracking::request::{
    TrackedImagePipelineBarrierRequest, TrackedImagePipelineMemoryBarrierRequest,
};
use image_tracking::states::{SubresourceRange, UsageRecord};
use image_tracking::sync::{AccessFlagBits, PipelineStages};
use image_tracking::sys::{ImageDimensions, UnsafeImage};
use image_tracking::tracking::TrackedImage;

fn picture(handle: u64) -> UnsafeImage {
    UnsafeImage {
        handle,
        format: Format { code: 44, ty: FormatTy::Uint },
        samples: 1,
        dimensions: ImageDimensions {
            width: 8,
            height: 8,
            depth: 1,
            array_layers: 8,
            mipmap_levels: 8,
        },
        blit_source: false,
        blit_destination: false,
    }
}

fn part(first_mipmap: u32, num_mipmaps: u32, first_layer: u32, num_layers: u32) -> SubresourceRange {
    SubresourceRange { first_mipmap, num_mipmaps, first_layer, num_layers }
}

fn fragment() -> PipelineStages {
    PipelineStages { fragment_shader: true, ..PipelineStages::none() }
}

fn copy() -> PipelineStages {
    PipelineStages { transfer: true, ..PipelineStages::none() }
}

fn reads() -> AccessFlagBits {
    AccessFlagBits { shader_read: true, ..AccessFlagBits::none() }
}

fn copies() -> AccessFlagBits {
    AccessFlagBits { transfer_write: true, ..AccessFlagBits::none() }
}

fn record(
    states: &mut StatesManager,
    image: &UnsafeImage,
    num_command: usize,
    range: SubresourceRange,
    write: bool,
    layout: Layout,
    stage: PipelineStages,
    access: AccessFlagBits,
) {
    assert!(states.transition(image, num_command, range, write, layout, stage, access).is_ok());
}

#[test]
fn finish_with_matching_layouts_asks_for_no_barrier() {
    let image = picture(3);
    let mut inner = StatesManager::new();
    let mut outer = StatesManager::new();
    record(&mut inner, &image, 4, part(0, 2, 0, 8), true, Layout::General, copy(), copies());
    record(&mut inner, &image, 6, part(2, 2, 0, 8), false, Layout::ShaderReadOnlyOptimal, fragment(), reads());
    record(&mut outer, &image, 1, part(0, 2, 0, 8), false, Layout::General, fragment(), reads());
    record(&mut outer, &image, 2, part(2, 2, 0, 8), true, Layout::ShaderReadOnlyOptimal, copy(), copies());
    assert_eq!(inner.finish(&outer, &image), None);
    assert_eq!(image.finish(&mut inner, &mut outer), None);
}

#[test]
fn finish_of_an_empty_recording_asks_for_no_barrier() {
    let image = picture(3);
    let inner = StatesManager::new();
    let mut outer = StatesManager::new();
    record(&mut outer, &image, 1, part(0, 2, 0, 8), false, Layout::General, fragment(), reads());
    assert_eq!(inner.finish(&outer, &image), None);
    assert_eq!(inner.finish(&StatesManager::new(), &image), None);
}

#[test]
fn finish_ignores_what_the_outer_table_does_not_hold() {
    let image = picture(3);
    let mut inner = StatesManager::new();
    let mut outer = StatesManager::new();
    record(&mut inner, &image, 4, part(0, 2, 0, 8), true, Layout::General, copy(), copies());
    assert_eq!(inner.finish(&outer, &image), None);
    record(&mut outer, &image, 1, part(0, 1, 0, 8), false, Layout::ShaderReadOnlyOptimal, fragment(), reads());
    assert_eq!(inner.finish(&outer, &image), None);
    record(&mut outer, &picture(4), 1, part(0, 2, 0, 8), false, Layout::ShaderReadOnlyOptimal, fragment(), reads());
    assert_eq!(inner.finish(&outer, &image), None);
}

#[test]
fn finish_closes_a_layout_that_differs() {
    let image = picture(3);
    let mut inner = StatesManager::new();
    let mut outer = StatesManager::new();
    record(&mut inner, &image, 4, part(1, 2, 3, 4), true, Layout::TransferDstOptimal, copy(), copies());
    record(&mut outer, &image, 9, part(1, 2, 3, 4), false, Layout::ShaderReadOnlyOptimal, fragment(), reads());
    let expected = Some(TrackedImagePipelineBarrierRequest {
        after_command_num: 4,
        source_stage: copy(),
        destination_stages: fragment(),
        by_region: false,
        memory_barrier: Some(TrackedImagePipelineMemoryBarrierRequest {
            first_mipmap: 1,
            num_mipmaps: 2,
            first_layer: 3,
            num_layers: 4,
            old_layout: Layout::TransferDstOptimal,
            new_layout: Layout::ShaderReadOnlyOptimal,
            source_access: copies(),
            destination_access: reads(),
        }),
    });
    assert_eq!(inner.finish(&outer, &image), expected);
    assert_eq!(image.finish(&mut inner, &mut outer), expected);
    assert_eq!(Arc::new(picture(3)).finish(&mut inner, &mut outer), expected);
    assert_eq!((&image).finish(&mut inner, &mut outer), expected);
}

#[test]
fn finish_goes_by_the_layout_alone() {
    let image = picture(3);
    let mut inner = StatesManager::new();
    let mut outer = StatesManager::new();
    record(&mut inner, &image, 4, part(0, 1, 0, 1), true, Layout::General, copy(), copies());
    record(&mut outer, &image, 9, part(0, 1, 0, 1), false, Layout::General, fragment(), reads());
    assert_eq!(inner.finish(&outer, &image), None);
}

#[test]
fn finish_takes_the_mismatching_range_that_starts_first() {
    let image = picture(3);
    let mut inner = StatesManager::new();
    let mut outer = StatesManager::new();
    record(&mut inner, &image, 1, part(4, 1, 0, 8), true, Layout::General, copy(), copies());
    record(&mut inner, &image, 2, part(2, 1, 4, 4), true, Layout::General, copy(), copies());
    record(&mut inner, &image, 3, part(2, 1, 0, 4), true, Layout::General, copy(), copies());
    record(&mut inner, &image, 4, part(0, 1, 0, 8), true, Layout::General, copy(), copies());
    record(&mut outer, &image, 1, part(4, 1, 0, 8), false, Layout::PresentSrc, fragment(), reads());
    record(&mut outer, &image, 1, part(2, 1, 4, 4), false, Layout::PresentSrc, fragment(), reads());
    record(&mut outer, &image, 1, part(2, 1, 0, 4), false, Layout::PresentSrc, fragment(), reads());
    record(&mut outer, &image, 1, part(0, 1, 0, 8), false, Layout::General, fragment(), reads());
    let barrier = inner.finish(&outer, &image).unwrap();
    assert_eq!(barrier.after_command_num, 3);
    let memory = barrier.memory_barrier.unwrap();
    assert_eq!(
        (memory.first_mipmap, memory.num_mipmaps, memory.first_layer, memory.num_layers),
        (2, 1, 0, 4)
    );
    assert_eq!(memory.old_layout, Layout::General);
    assert_eq!(memory.new_layout, Layout::PresentSrc);
}

#[test]
fn finish_looks_at_its_own_image_only() {
    let image = picture(3);
    let other = picture(4);
    let mut inner = StatesManager::new();
    let mut outer = StatesManager::new();
    record(&mut inner, &other, 1, part(0, 1, 0, 1), true, Layout::General, copy(), copies());
    record(&mut outer, &other, 1, part(0, 1, 0, 1), false, Layout::PresentSrc, fragment(), reads());
    record(&mut inner, &image, 2, part(0, 1, 0, 1), true, Layout::General, copy(), copies());
    record(&mut outer, &image, 2, part(0, 1, 0, 1), false, Layout::General, fragment(), reads());
    assert_eq!(inner.finish(&outer, &image), None);
    assert!(inner.finish(&outer, &other).is_some());
}

#[test]
fn finish_leaves_both_tables_as_they_are() {
    let image = picture(3);
    let mut inner = StatesManager::new();
    let mut outer = StatesManager::new();
    let r = part(0, 1, 0, 1);
    record(&mut inner, &image, 4, r, true, Layout::General, copy(), copies());
    record(&mut outer, &image, 9, r, false, Layout::PresentSrc, fragment(), reads());
    assert!(image.finish(&mut inner, &mut outer).is_some());
    assert_eq!(
        inner.usage(3, r),
        Some(UsageRecord {
            layout: Layout::General,
            stages: copy(),
            access: copies(),
            write: true,
            command_num: 4,
        })
    );
    assert_eq!(outer.usage(3, r).unwrap().layout, Layout::PresentSrc);
    assert!(image.finish(&mut inner, &mut outer).is_some());
}

#[test]
fn closing_barriers_holds_one_for_each_mismatching_range() {
    let image = picture(3);
    let mut inner = StatesManager::new();
    let mut outer = StatesManager::new();
    record(&mut inner, &image, 1, part(4, 1, 0, 8), true, Layout::General, copy(), copies());
    record(&mut inner, &image, 2, part(2, 1, 4, 4), true, Layout::TransferDstOptimal, copy(), copies());
    record(&mut inner, &image, 3, part(0, 1, 0, 8), true, Layout::General, copy(), copies());
    record(&mut inner, &picture(4), 4, part(0, 1, 0, 8), true, Layout::General, copy(), copies());
    record(&mut outer, &image, 1, part(4, 1, 0, 8), false, Layout::PresentSrc, fragment(), reads());
    record(&mut outer, &image, 1, part(2, 1, 4, 4), false, Layout::PresentSrc, fragment(), reads());
    record(&mut outer, &image, 1, part(0, 1, 0, 8), false, Layout::General, fragment(), reads());
    record(&mut outer, &picture(4), 1, part(0, 1, 0, 8), false, Layout::PresentSrc, fragment(), reads());
    let all = inner.closing_barriers(&outer, &image);
    assert_eq!(all.len(), 2);
    let mut found: Vec<(u32, usize, Layout)> = all
        .iter()
        .map(|barrier| {
            let memory = barrier.memory_barrier.unwrap();
            assert_eq!(memory.new_layout, Layout::PresentSrc);
            assert_eq!(barrier.destination_stages, fragment());
            (memory.first_mipmap, barrier.after_command_num, memory.old_layout)
        })
        .collect();
    found.sort_by_key(|entry| entry.0);
    assert_eq!(found, vec![(2, 2, Layout::TransferDstOptimal), (4, 1, Layout::General)]);
    let first = inner.finish(&outer, &image).unwrap();
    assert!(all.contains(&first));
    assert_eq!(first.memory_barrier.unwrap().first_mipmap, 2);
    assert_eq!(inner.closing_barriers(&outer, &picture(4)).len(), 1);
}

#[test]
fn closing_barriers_is_empty_where_finish_asks_for_nothing() {
    let image = picture(3);
    let mut inner = StatesManager::new();
    let mut outer = StatesManager::new();
    assert!(inner.closing_barriers(&outer, &image).is_empty());
    record(&mut inner, &image, 1, part(0, 1, 0, 8), true, Layout::General, copy(), copies());
    assert!(inner.closing_barriers(&outer, &image).is_empty());
    record(&mut outer, &image, 1, part(0, 1, 0, 8), false, Layout::General, fragment(), reads());
    assert!(inner.closing_barriers(&outer, &image).is_empty());
    assert_eq!(inner.finish(&outer, &image), None);
}
