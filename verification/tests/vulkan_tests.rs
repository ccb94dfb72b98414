use k1::error::K1Error;
use k1::vulkan::{
    choose_present_mode, choose_swap_extent, image_sharing_mode, next_frame_index, queue_families_to_create,
    select_physical_device, select_queue_families, swap_image_count, Extent2D, FrameContext, QueueFamilyInfo,
    RendererConfig, SharingMode, PRESENT_MODE_FIFO, PRESENT_MODE_MAILBOX,
};

fn fam(graphics: bool, present: bool) -> QueueFamilyInfo {
    QueueFamilyInfo { graphics, present }
}

#[test]
fn renderer_config_defaults() {
    let c = RendererConfig::new(1920, 1080);
    assert_eq!(c.width, 1920);
    assert_eq!(c.height, 1080);
    assert!(!c.enable_validation);
    assert!(c.vsync);
}

#[test]
fn queue_families_take_the_last_match() {
    let f = [fam(true, false), fam(true, true), fam(false, false)];
    assert_eq!(select_queue_families(&f), (Some(1), Some(1)));
    let g = [fam(true, false), fam(false, true), fam(true, false)];
    assert_eq!(select_queue_families(&g), (Some(2), Some(1)));
    assert_eq!(select_queue_families(&[]), (None, None));
}

#[test]
fn first_usable_device_is_chosen() {
    let devices = vec![vec![fam(true, false)], vec![fam(false, true), fam(true, false)], vec![fam(true, true)]];
    assert_eq!(select_physical_device(&devices), Ok((1, 1, 0)));
    let none = vec![vec![fam(true, false)], vec![]];
    assert_eq!(select_physical_device(&none), Err(K1Error::NotSupported));
}

#[test]
fn queue_setup_follows_families() {
    assert_eq!(queue_families_to_create(0, 0), vec![0]);
    assert_eq!(queue_families_to_create(0, 2), vec![0, 2]);
    assert_eq!(image_sharing_mode(1, 1), SharingMode::Exclusive);
    assert_eq!(image_sharing_mode(1, 2), SharingMode::Concurrent);
}

#[test]
fn present_mode_choice() {
    assert_eq!(choose_present_mode(true, &[PRESENT_MODE_MAILBOX]), PRESENT_MODE_FIFO);
    assert_eq!(choose_present_mode(false, &[0, PRESENT_MODE_MAILBOX]), PRESENT_MODE_MAILBOX);
    assert_eq!(choose_present_mode(false, &[0, 3]), PRESENT_MODE_FIFO);
}

#[test]
fn swap_extent_choice() {
    let cfg = RendererConfig::new(4000, 10);
    let cur = Extent2D { width: 800, height: 600 };
    let min = Extent2D { width: 100, height: 100 };
    let max = Extent2D { width: 2000, height: 2000 };
    assert_eq!(choose_swap_extent(cur, min, max, &cfg), cur);
    let undefined = Extent2D { width: u32::MAX, height: u32::MAX };
    assert_eq!(choose_swap_extent(undefined, min, max, &cfg), Extent2D { width: 2000, height: 100 });
}

#[test]
fn swap_image_count_choice() {
    assert_eq!(swap_image_count(2, 8), 3);
    assert_eq!(swap_image_count(3, 3), 3);
    assert_eq!(swap_image_count(2, 0), 0);
}

#[test]
fn frames_rotate_through_three_slots() {
    assert_eq!(next_frame_index(0), 1);
    assert_eq!(next_frame_index(1), 2);
    assert_eq!(next_frame_index(2), 0);
}

#[test]
fn push_vertices_appends_and_refuses_overflow() {
    let mut mem = [0u32; 5];
    let mut count = 0usize;
    let mut ctx = FrameContext { vertices: &mut mem, vertex_count: &mut count };
    assert!(ctx.push_vertices(&[1, 2, 3]).is_ok());
    assert_eq!(ctx.push_vertices(&[4, 5, 6]), Err(K1Error::OutOfMemory));
    assert!(ctx.push_vertices(&[4, 5]).is_ok());
    assert_eq!(count, 5);
    assert_eq!(mem, [1, 2, 3, 4, 5]);
}
