use mvlc::media::{
    decode_fps, frame_pts, hardware_status, is_video_extension, is_video_lowercase, reader_step,
    rgba_frame_size, scaled_dimensions, ReaderStep, DEFAULT_MAX_DECODE_WIDTH, MAX_DECODE_FPS,
};
use mvlc::{check_dmabuf_support, check_vaapi_support, DmaBufInfo};

#[test]
fn scales_wide_sources_to_the_limit() {
    assert_eq!(scaled_dimensions(1920, 1080, DEFAULT_MAX_DECODE_WIDTH), (640, 360));
    assert_eq!(scaled_dimensions(3840, 2160, 1280), (1280, 720));
    assert_eq!(scaled_dimensions(1000, 333, 640), (640, 212));
}

#[test]
fn keeps_narrow_sources_but_makes_sides_even() {
    assert_eq!(scaled_dimensions(641, 361, 1000), (640, 360));
    assert_eq!(scaled_dimensions(1, 1, 640), (2, 2));
    assert_eq!(scaled_dimensions(320, 240, 640), (320, 240));
}

#[test]
fn very_flat_sources_keep_two_rows() {
    assert_eq!(scaled_dimensions(10_000, 1, 640), (640, 2));
}

#[test]
fn decode_fps_is_capped() {
    assert_eq!(decode_fps(60), MAX_DECODE_FPS);
    assert_eq!(decode_fps(24), 24);
    assert_eq!(decode_fps(0), 1);
}

#[test]
fn frame_sizes_and_timestamps() {
    assert_eq!(rgba_frame_size(640, 360), 921_600);
    assert_eq!(frame_pts(30, 30), 1_000_000_000);
    assert_eq!(frame_pts(1, 24), 41_666_666);
}

#[test]
fn reader_forwards_only_while_playing() {
    assert!(matches!(reader_step(5, 25, false), ReaderStep::Skip));
    match reader_step(5, 25, true) {
        ReaderStep::Forward { pts } => assert_eq!(pts, 200_000_000),
        ReaderStep::Skip => panic!("a playing reader forwards frames"),
    }
}

#[test]
fn hardware_paths_are_unavailable() {
    assert!(!check_vaapi_support());
    assert!(!check_dmabuf_support());
    assert_eq!(hardware_status(3), (0, 3));
    let info = DmaBufInfo { fd: 3, size: 4096 };
    assert_eq!(info.clone(), info);
}

#[test]
fn video_extensions_in_any_case() {
    assert!(is_video_extension("mp4"));
    assert!(is_video_extension("MKV"));
    assert!(is_video_extension("WebM"));
    assert!(is_video_extension("m4v"));
    assert!(!is_video_extension("txt"));
    assert!(!is_video_extension("mp"));
    assert!(!is_video_extension(""));
}

#[test]
fn lowercase_extension_check() {
    assert!(is_video_lowercase(&"mov".to_string()));
    assert!(is_video_lowercase(&"avi".to_string()));
    assert!(!is_video_lowercase(&"MOV".to_string()));
}
