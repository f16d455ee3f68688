use mvlc::render::{
    align_to, buffer_needs_growth, clip_scissor, readback_layout, render_upload_bytes,
    update_in_bounds,
};
use mvlc::{RenderAction, RenderedUiFrame};

#[test]
fn align_rounds_up_to_the_next_multiple() {
    assert_eq!(align_to(1000, 256), 1024);
    assert_eq!(align_to(1024, 256), 1024);
    assert_eq!(align_to(0, 256), 0);
    assert_eq!(align_to(1, 1), 1);
}

#[test]
fn readback_rows_are_padded() {
    let layout = readback_layout(100, 10, 256).unwrap();
    assert_eq!(layout.bytes_per_row, 400);
    assert_eq!(layout.padded_bytes_per_row, 512);
    assert_eq!(layout.buffer_size, 5120);
    let exact = readback_layout(64, 3, 256).unwrap();
    assert_eq!(exact.padded_bytes_per_row, 256);
    assert_eq!(exact.buffer_size, 768);
}

#[test]
fn readback_of_an_impossible_width_is_refused() {
    assert!(readback_layout(u32::MAX, 1, 256).is_none());
    assert!(readback_layout(1 << 30, 1, 256).is_none());
}

#[test]
fn buffers_grow_only_when_needed() {
    assert!(buffer_needs_growth(100, 200));
    assert!(!buffer_needs_growth(200, 200));
    assert!(!buffer_needs_growth(0, 0));
}

#[test]
fn upload_cost_of_frames() {
    assert_eq!(render_upload_bytes(1920, 1080), 82_944);
    assert_eq!(render_upload_bytes(3840, 2160), 3_317_760);
    assert_eq!(render_upload_bytes(1921, 100), 76_840);
}

#[test]
fn render_actions_carry_frames() {
    let frame = RenderedUiFrame { pixels: vec![0; 16], width: 2, height: 2 };
    match RenderAction::CpuFrame(frame) {
        RenderAction::CpuFrame(f) => assert_eq!(f.pixels.len(), (f.width * f.height * 4) as usize),
        _ => panic!("expected a CPU frame"),
    }
    assert!(matches!(RenderAction::Skip, RenderAction::Skip));
    assert!(matches!(RenderAction::PresentHandled, RenderAction::PresentHandled));
}

#[test]
fn renderer_refuses_work_before_init() {
    let mut r = mvlc::Renderer::default();
    assert!(!r.is_ready());
    assert_eq!(r.size(), (1920, 1080));
    assert_eq!(r.render_frame(), Err(mvlc::RendererError::NotInitialized));
    assert_eq!(r.resize(10, 10), Err(mvlc::RendererError::NotInitialized));
    assert_eq!(r.size(), (1920, 1080));
    assert_eq!(mvlc::RendererError::NotInitialized.message(), "Renderer not initialized");
}

#[test]
fn renderer_reports_upload_cost_after_init() {
    let mut r = mvlc::Renderer::new(1920, 1080);
    assert_eq!(r.init(), Ok(()));
    assert!(r.is_ready());
    assert_eq!(r.render_frame(), Ok(82_944));
    assert_eq!(r.resize(3840, 2160), Ok(()));
    assert_eq!(r.size(), (3840, 2160));
    assert_eq!(r.render_frame(), Ok(3_317_760));
}

#[test]
fn rgba_length_is_checked() {
    assert_eq!(mvlc::render::checked_rgba_len(640, 360), Some(921_600));
    assert_eq!(mvlc::render::checked_rgba_len(0, 7), Some(0));
    if usize::BITS == 32 {
        assert_eq!(mvlc::render::checked_rgba_len(u32::MAX, u32::MAX), None);
    } else {
        assert_eq!(mvlc::render::checked_rgba_len(u32::MAX, 2), Some(u32::MAX as usize * 8));
    }
}

#[test]
fn row_padding_is_stripped() {
    let data: Vec<u8> = (0u8..12).collect();
    // Two rows of 4 bytes, each padded to 6 bytes.
    let pixels = mvlc::render::strip_row_padding(&data, 4, 6, 2);
    assert_eq!(pixels, vec![0, 1, 2, 3, 6, 7, 8, 9]);
    assert_eq!(mvlc::render::strip_row_padding(&data, 3, 3, 4), data);
    assert!(mvlc::render::strip_row_padding(&data, 4, 6, 0).is_empty());
}

#[test]
fn scissors_are_clipped_to_the_target() {
    assert_eq!(clip_scissor((10, 20), (110, 70), 800, 600), Some(((10, 20), (100, 50))));
    assert_eq!(clip_scissor((-5, -5), (900, 700), 800, 600), Some(((0, 0), (800, 600))));
    assert_eq!(clip_scissor((50, 50), (50, 80), 800, 600), None);
    assert_eq!(clip_scissor((900, 10), (950, 20), 800, 600), None);
}

#[test]
fn texture_updates_must_fit() {
    assert!(update_in_bounds((0, 0), (64, 64), (64, 64)));
    assert!(update_in_bounds((10, 20), (54, 44), (64, 64)));
    assert!(!update_in_bounds((11, 0), (54, 1), (64, 64)));
    assert!(!update_in_bounds((0, 1), (1, 64), (64, 64)));
}

#[test]
fn align_reaches_the_top_of_the_range() {
    assert_eq!(align_to(usize::MAX, 1), usize::MAX);
    assert_eq!(align_to(usize::MAX - 255, 256), usize::MAX - 255);
}
