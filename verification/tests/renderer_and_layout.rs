use ash::vk;
use fidget_vk::broadphase::collision_pairs;
use fidget_vk::monitors::{
    checked_overlay_layout, clamp_index, first_primary, layout_fits, layout_indices,
    overlay_layout, MonitorRect,
};
use fidget_vk::pixels::{bgra_to_rgba, capture_extent, icon_size, mask_stride};
use fidget_vk::vulkan::{
    acquire_outcome, choose_composite_alpha, choose_present_mode, choose_surface_format,
    contains, find_memory_type, layout_barrier, next_frame, pick_device, present_outcome,
    resize_rebuilds_swapchain, swapchain_extent, swapchain_image_count, upload_count,
    AcquireOutcome, COLOR_SPACE_SRGB_NONLINEAR, COMPOSITE_ALPHA_INHERIT, COMPOSITE_ALPHA_OPAQUE,
    COMPOSITE_ALPHA_POST_MULTIPLIED, COMPOSITE_ALPHA_PRE_MULTIPLIED, ERROR_OUT_OF_DATE_KHR,
    FORMAT_B8G8R8A8_UNORM, PRESENT_MODE_FIFO, PRESENT_MODE_MAILBOX, QUEUE_GRAPHICS,
};

#[test]
fn raw_constants_match_vulkan_bindings() {
    assert_eq!(FORMAT_B8G8R8A8_UNORM, vk::Format::B8G8R8A8_UNORM.as_raw());
    assert_eq!(COLOR_SPACE_SRGB_NONLINEAR, vk::ColorSpaceKHR::SRGB_NONLINEAR.as_raw());
    assert_eq!(PRESENT_MODE_MAILBOX, vk::PresentModeKHR::MAILBOX.as_raw());
    assert_eq!(PRESENT_MODE_FIFO, vk::PresentModeKHR::FIFO.as_raw());
    assert_eq!(COMPOSITE_ALPHA_OPAQUE, vk::CompositeAlphaFlagsKHR::OPAQUE.as_raw());
    assert_eq!(
        COMPOSITE_ALPHA_PRE_MULTIPLIED,
        vk::CompositeAlphaFlagsKHR::PRE_MULTIPLIED.as_raw()
    );
    assert_eq!(
        COMPOSITE_ALPHA_POST_MULTIPLIED,
        vk::CompositeAlphaFlagsKHR::POST_MULTIPLIED.as_raw()
    );
    assert_eq!(COMPOSITE_ALPHA_INHERIT, vk::CompositeAlphaFlagsKHR::INHERIT.as_raw());
    assert_eq!(QUEUE_GRAPHICS, vk::QueueFlags::GRAPHICS.as_raw());
    assert_eq!(ERROR_OUT_OF_DATE_KHR, vk::Result::ERROR_OUT_OF_DATE_KHR.as_raw());
}

#[test]
fn flag_containment_agrees_with_bindings() {
    for set in 0u32..16 {
        for other in 0u32..16 {
            let a = vk::CompositeAlphaFlagsKHR::from_raw(set);
            let b = vk::CompositeAlphaFlagsKHR::from_raw(other);
            assert_eq!(contains(set, other), a.contains(b));
        }
    }
}

#[test]
fn memory_type_is_first_match() {
    let types = [0b0001, 0b0110, 0b0111, 0b0110];
    // Type 0 lacks the flags; type 1 is excluded by the mask; type 2 fits.
    assert_eq!(find_memory_type(&types, 4, 0b1101, 0b0110), Some(2));
    assert_eq!(find_memory_type(&types, 4, 0b1111, 0b0110), Some(1));
    assert_eq!(find_memory_type(&types, 2, 0b0001, 0b0110), None);
    assert_eq!(find_memory_type(&types, 0, u32::MAX, 0), None);
    assert_eq!(find_memory_type(&types, 4, 0b1000, 0b0000), Some(3));
}

#[test]
fn composite_alpha_preference() {
    assert_eq!(choose_composite_alpha(0b1111), COMPOSITE_ALPHA_PRE_MULTIPLIED);
    assert_eq!(choose_composite_alpha(0b1101), COMPOSITE_ALPHA_POST_MULTIPLIED);
    assert_eq!(choose_composite_alpha(0b1001), COMPOSITE_ALPHA_INHERIT);
    assert_eq!(choose_composite_alpha(0b0001), COMPOSITE_ALPHA_OPAQUE);
    assert_eq!(choose_composite_alpha(0), COMPOSITE_ALPHA_OPAQUE);
}

#[test]
fn surface_format_prefers_bgra_srgb() {
    let preferred = (FORMAT_B8G8R8A8_UNORM, COLOR_SPACE_SRGB_NONLINEAR);
    assert_eq!(choose_surface_format(&[(37, 0), (44, 1), preferred]), Some(preferred));
    assert_eq!(choose_surface_format(&[(37, 0), (44, 1)]), Some((37, 0)));
    assert_eq!(choose_surface_format(&[]), None);
}

#[test]
fn present_mode_and_extent() {
    assert_eq!(choose_present_mode(&[2, 0, 1]), PRESENT_MODE_MAILBOX);
    assert_eq!(choose_present_mode(&[2, 0]), PRESENT_MODE_FIFO);
    assert_eq!(choose_present_mode(&[]), PRESENT_MODE_FIFO);
    assert_eq!(
        swapchain_extent((800, 600), (1920, 1080), (1, 1), (4096, 4096)),
        (800, 600)
    );
    assert_eq!(
        swapchain_extent((u32::MAX, u32::MAX), (5000, 0), (1, 1), (4096, 4096)),
        (4096, 1)
    );
    assert_eq!(swapchain_image_count(2, 0), 3);
    assert_eq!(swapchain_image_count(2, 3), 3);
    assert_eq!(swapchain_image_count(3, 3), 3);
}

#[test]
fn device_and_queue_selection() {
    let devices = vec![
        vec![(0b0010, true), (0b0001, false)],
        vec![(0b0100, true), (0b0011, true), (0b0001, true)],
    ];
    assert_eq!(pick_device(&devices), Some((1, 1)));
    assert_eq!(pick_device(&vec![vec![(0b0001, false)]]), None);
    assert_eq!(pick_device(&vec![]), None);
}

#[test]
fn frame_ring_and_results() {
    assert_eq!(next_frame(0), 1);
    assert_eq!(next_frame(1), 0);
    assert_eq!(upload_count(10), 10);
    assert_eq!(upload_count(100_000), 8192);
    assert!(resize_rebuilds_swapchain((10, 10)));
    assert!(!resize_rebuilds_swapchain((0, 10)));
    assert!(!resize_rebuilds_swapchain((10, 0)));
    assert_eq!(acquire_outcome(Ok(2)), AcquireOutcome::Image(2));
    assert_eq!(acquire_outcome(Err(ERROR_OUT_OF_DATE_KHR)), AcquireOutcome::Recreate);
    assert_eq!(acquire_outcome(Err(-4)), AcquireOutcome::Failed(-4));
    assert_eq!(present_outcome(Ok(false)), Ok(true));
    assert_eq!(present_outcome(Ok(true)), Ok(false));
    assert_eq!(present_outcome(Err(ERROR_OUT_OF_DATE_KHR)), Ok(false));
    assert_eq!(present_outcome(Err(-3)), Err(-3));
}

#[test]
fn overlay_spans_all_monitors() {
    let rects = [
        MonitorRect { x: -1280, y: 200, width: 1280, height: 1024 },
        MonitorRect { x: 0, y: 0, width: 1920, height: 1080 },
    ];
    let layout = overlay_layout(&rects, Some(1));
    assert_eq!((layout.x, layout.y), (-1280, 0));
    assert_eq!((layout.width, layout.height), (3200, 1224));
    assert_eq!(layout.monitors, vec![(0, 200, 1280, 1224), (1280, 0, 3200, 1080)]);
    assert_eq!(layout.primary, 1);
    // Unknown primary falls back to the first monitor; out-of-range is clamped.
    assert_eq!(overlay_layout(&rects, None).primary, 0);
    assert_eq!(overlay_layout(&rects, Some(9)).primary, 1);
}

#[test]
fn overlay_without_monitors_uses_fallback() {
    let layout = overlay_layout(&[], Some(3));
    assert_eq!((layout.x, layout.y, layout.width, layout.height), (0, 0, 1280, 720));
    assert_eq!(layout.monitors, vec![(0, 0, 1280, 720)]);
    assert_eq!(layout.primary, 0);
}

#[test]
fn zero_sized_monitors_give_one_pixel_overlay() {
    let rects = [MonitorRect { x: 5, y: 7, width: 0, height: 0 }];
    let layout = overlay_layout(&rects, None);
    assert_eq!((layout.x, layout.y, layout.width, layout.height), (5, 7, 1, 1));
    assert_eq!(layout.monitors, vec![(0, 0, 0, 0)]);
}

#[test]
fn primary_and_active_monitor_indices() {
    assert_eq!(first_primary(&[false, true, true]), 1);
    assert_eq!(first_primary(&[false, false]), 0);
    assert_eq!(first_primary(&[]), 0);
    // Single-monitor mode and a first layout: primary becomes active, reset.
    assert_eq!(layout_indices(3, 7, 0, true, false), (2, 2, true));
    // Later layouts keep the active monitor, clamped into range.
    assert_eq!(layout_indices(2, 0, 5, true, true), (0, 1, false));
    assert_eq!(layout_indices(4, 1, 3, false, false), (1, 3, false));
}

#[test]
fn neighbouring_cells_pair_up_once() {
    let cells = [(0, 0), (1, 1), (3, 0), (0, 0), (2, 1)];
    let mut pairs = collision_pairs(&cells);
    pairs.sort();
    assert_eq!(pairs, vec![(0, 1), (0, 3), (1, 3), (1, 4), (2, 4)]);
    assert!(collision_pairs(&[]).is_empty());
    assert!(collision_pairs(&[(5, 5)]).is_empty());
    assert_eq!(collision_pairs(&[(-4, 9), (-5, 10)]), vec![(0, 1)]);
}

#[test]
fn a_crowded_cell_lists_every_pair_once() {
    let cells = [(7, -3); 5];
    let mut pairs = collision_pairs(&cells);
    assert_eq!(pairs.len(), 10);
    pairs.sort();
    pairs.dedup();
    assert_eq!(pairs.len(), 10);
    assert!(pairs.iter().all(|&(a, b)| a < b && b < 5));
    let far = [(0, 0), (2, 0), (0, 2), (-2, -2)];
    assert!(collision_pairs(&far).is_empty());
}

#[test]
fn desktop_capture_swaps_channels() {
    let bgra = [10, 20, 30, 0, 1, 2, 3, 4];
    assert_eq!(bgra_to_rgba(&bgra), vec![30, 20, 10, 255, 3, 2, 1, 255]);
    // A trailing partial pixel is left zeroed.
    assert_eq!(bgra_to_rgba(&[9, 8, 7, 6, 5, 4]), vec![7, 8, 9, 255, 0, 0]);
    assert!(bgra_to_rgba(&[]).is_empty());
    assert_eq!(capture_extent(0), 1);
    assert_eq!(capture_extent(-5), 1);
    assert_eq!(capture_extent(2560), 2560);
}

#[test]
fn tray_icon_geometry() {
    assert_eq!(icon_size(16, 16), 16);
    assert_eq!(icon_size(8, 40), 16);
    assert_eq!(icon_size(32, 24), 24);
    assert_eq!(icon_size(128, 96), 64);
    assert_eq!(mask_stride(16), 4);
    assert_eq!(mask_stride(32), 4);
    assert_eq!(mask_stride(33), 8);
    assert_eq!(mask_stride(64), 8);
    assert_eq!(mask_stride(0), 0);
    assert_eq!(mask_stride(65), 12);
    assert_eq!(mask_stride(u32::MAX), 536_870_912);
}

#[test]
fn layout_transition_barriers() {
    let undefined = vk::ImageLayout::UNDEFINED.as_raw();
    let dst = vk::ImageLayout::TRANSFER_DST_OPTIMAL.as_raw();
    let read = vk::ImageLayout::SHADER_READ_ONLY_OPTIMAL.as_raw();
    assert_eq!(
        layout_barrier(undefined, dst),
        (
            0,
            vk::AccessFlags::TRANSFER_WRITE.as_raw(),
            vk::PipelineStageFlags::TOP_OF_PIPE.as_raw(),
            vk::PipelineStageFlags::TRANSFER.as_raw()
        )
    );
    assert_eq!(
        layout_barrier(dst, read),
        (
            vk::AccessFlags::TRANSFER_WRITE.as_raw(),
            vk::AccessFlags::SHADER_READ.as_raw(),
            vk::PipelineStageFlags::TRANSFER.as_raw(),
            vk::PipelineStageFlags::FRAGMENT_SHADER.as_raw()
        )
    );
    assert_eq!(
        layout_barrier(read, dst),
        (
            0,
            0,
            vk::PipelineStageFlags::TOP_OF_PIPE.as_raw(),
            vk::PipelineStageFlags::BOTTOM_OF_PIPE.as_raw()
        )
    );
}

#[test]
fn index_clamping() {
    assert_eq!(clamp_index(3, 5), 3);
    assert_eq!(clamp_index(9, 5), 4);
    assert_eq!(clamp_index(0, 0), 0);
    assert_eq!(clamp_index(7, 0), 0);
}

#[test]
fn oversized_layouts_are_refused() {
    let ok = [MonitorRect { x: 0, y: 0, width: 100, height: 100 }];
    assert!(layout_fits(&ok));
    assert!(checked_overlay_layout(&ok, None).is_some());
    assert!(layout_fits(&[]));
    let too_far = [MonitorRect { x: i32::MAX - 10, y: 0, width: 11, height: 5 }];
    assert!(!layout_fits(&too_far));
    assert!(checked_overlay_layout(&too_far, None).is_none());
    let too_wide = [
        MonitorRect { x: i32::MIN, y: 0, width: 10, height: 10 },
        MonitorRect { x: 10, y: 0, width: 10, height: 10 },
    ];
    assert!(!layout_fits(&too_wide));
    let huge = [MonitorRect { x: 0, y: 0, width: u32::MAX, height: 1 }];
    assert!(!layout_fits(&huge));
    let edge = [MonitorRect { x: i32::MAX - 10, y: 0, width: 10, height: 5 }];
    assert!(layout_fits(&edge));
    let layout = checked_overlay_layout(&edge, Some(0)).unwrap();
    assert_eq!((layout.x, layout.width), (i32::MAX - 10, 10));
}
