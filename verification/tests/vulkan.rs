use mvlc::vulkan::{
    choose_extent, choose_present_mode, choose_surface_format, find_memory_type,
    find_queue_families, needs_concurrent_sharing, swapchain_image_count,
    COLOR_SPACE_SRGB_NONLINEAR, FORMAT_B8G8R8A8_SRGB, PRESENT_MODE_FIFO, PRESENT_MODE_MAILBOX,
};

#[test]
fn mailbox_is_preferred() {
    assert_eq!(choose_present_mode(&[PRESENT_MODE_FIFO, PRESENT_MODE_MAILBOX]), PRESENT_MODE_MAILBOX);
    assert_eq!(choose_present_mode(&[0, PRESENT_MODE_FIFO]), PRESENT_MODE_FIFO);
    assert_eq!(choose_present_mode(&[]), PRESENT_MODE_FIFO);
}

#[test]
fn srgb_format_is_preferred() {
    let formats = [(44, 0), (FORMAT_B8G8R8A8_SRGB, 7), (FORMAT_B8G8R8A8_SRGB, COLOR_SPACE_SRGB_NONLINEAR)];
    assert_eq!(choose_surface_format(&formats), 2);
    assert_eq!(choose_surface_format(&[(44, 0), (37, 0)]), 0);
}

#[test]
fn extent_follows_the_surface_or_the_window() {
    assert_eq!(choose_extent((800, 600), (1, 1), (4096, 4096), (1024, 768)), (800, 600));
    assert_eq!(choose_extent((u32::MAX, u32::MAX), (100, 100), (2000, 1000), (50, 1500)), (100, 1000));
    assert_eq!(choose_extent((u32::MAX, u32::MAX), (100, 100), (2000, 1000), (640, 480)), (640, 480));
}

#[test]
fn image_count_is_one_above_the_minimum() {
    assert_eq!(swapchain_image_count(2, 0), 3);
    assert_eq!(swapchain_image_count(2, 8), 3);
    assert_eq!(swapchain_image_count(3, 3), 3);
}

#[test]
fn memory_type_is_the_first_match() {
    let flags = [0b001, 0b110, 0b111, 0b110];
    assert_eq!(find_memory_type(4, &flags, 0b1111, 0b110), Some(1));
    assert_eq!(find_memory_type(4, &flags, 0b1101, 0b110), Some(2));
    assert_eq!(find_memory_type(4, &flags, 0b0001, 0b110), None);
    assert_eq!(find_memory_type(1, &flags, 0b1111, 0b110), None);
}

#[test]
fn queue_families() {
    assert_eq!(find_queue_families(&[(true, true)]), Some((0, 0)));
    assert_eq!(find_queue_families(&[(true, false), (false, true)]), Some((0, 1)));
    assert_eq!(find_queue_families(&[(false, true), (true, false), (true, true)]), Some((1, 0)));
    assert_eq!(find_queue_families(&[(true, false), (true, false)]), None);
    assert_eq!(find_queue_families(&[]), None);
}

#[test]
fn sharing_mode() {
    assert!(needs_concurrent_sharing(0, 1));
    assert!(!needs_concurrent_sharing(2, 2));
}
