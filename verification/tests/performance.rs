use mvlc::performance::{INITIAL_FRAME_TIME_NS, ZERO_COPY_BYTES_PER_FRAME};
use mvlc::{PerformanceMonitor, StreamPerformance};
use std::time::Duration;

#[test]
fn test_stream_performance() {
    let mut perf = StreamPerformance::new(1);

    // Record some frames
    perf.record_frame(0, Duration::from_millis(33), true); // Zero-copy
    perf.record_frame(0, Duration::from_millis(32), true); // Zero-copy
    perf.record_frame(1024 * 1024, Duration::from_millis(35), false); // 1MB upload

    assert_eq!(perf.frames_processed, 3);
    assert_eq!(perf.total_bytes_uploaded, 1024 * 1024);
    assert_eq!(perf.upload_operations, 1);
    // 1 MiB over 3 frames is 349,525 bytes per frame on average, far above
    // the 1 KiB per frame below which a stream counts as zero-copy.
    assert!(!perf.is_zero_copy_mode());
}

#[test]
fn new_tracker_starts_at_thirty_fps() {
    let perf = StreamPerformance::new(7);
    assert_eq!(perf.stream_id, 7);
    assert_eq!(perf.frames_processed, 0);
    assert_eq!(perf.avg_frame_time_ns, INITIAL_FRAME_TIME_NS);
    assert_eq!(perf.max_frame_time_ns, INITIAL_FRAME_TIME_NS as u128);
    assert!(!perf.is_zero_copy);
    assert!(perf.is_zero_copy_mode());
    assert_eq!(StreamPerformance::default().stream_id, 0);
}

#[test]
fn frame_time_average_is_smoothed() {
    let mut perf = StreamPerformance::new(1);
    perf.record_frame_nanos(0, 43_000_000, true);
    assert_eq!(perf.avg_frame_time_ns, 34_000_000);
    assert_eq!(perf.max_frame_time_ns, 43_000_000);
    perf.record_frame_nanos(0, 4_000_000, true);
    assert_eq!(perf.avg_frame_time_ns, 31_000_000);
    assert_eq!(perf.max_frame_time_ns, 43_000_000);
}

#[test]
fn record_frame_reads_the_duration() {
    let mut perf = StreamPerformance::new(1);
    perf.record_frame(5, Duration::from_millis(53), false);
    assert_eq!(perf.max_frame_time_ns, 53_000_000);
    assert_eq!(perf.avg_frame_time_ns, 35_000_000);
    assert_eq!(perf.upload_operations, 1);
    assert!(!perf.is_zero_copy);
}

#[test]
fn heavy_uploads_leave_zero_copy_mode() {
    let mut perf = StreamPerformance::new(2);
    perf.record_frame_nanos(2048, 1, false);
    perf.record_frame_nanos(2048, 1, false);
    assert!(!perf.is_zero_copy_mode());
}

#[test]
fn small_uploads_stay_zero_copy() {
    let mut perf = StreamPerformance::new(3);
    for _ in 0..10 {
        perf.record_frame_nanos(ZERO_COPY_BYTES_PER_FRAME - 1, 1, false);
        assert!(perf.is_zero_copy_mode());
    }
    assert_eq!(perf.upload_operations, 10);
}

#[test]
fn monitor_counts_frames_and_bytes() {
    let mut monitor = PerformanceMonitor::new();
    monitor.record_frame(1, 0, Duration::from_millis(33), true);
    monitor.record_frame(1, 0, Duration::from_millis(32), true);
    monitor.record_frame(2, 1024 * 1024, Duration::from_millis(35), false);
    assert_eq!(monitor.total_frames_processed(), 3);
    assert_eq!(monitor.total_upload_bytes(), 1024 * 1024);
    assert_eq!(monitor.streams().len(), 2);
    assert_eq!(monitor.get_stream(1).frames_processed, 2);
    assert_eq!(monitor.get_stream(2).total_bytes_uploaded, 1024 * 1024);
    assert!(!monitor.is_optimal_zero_copy());
}

#[test]
fn monitor_get_stream_creates_tracker() {
    let mut monitor = PerformanceMonitor::new();
    assert_eq!(monitor.get_stream(9).stream_id, 9);
    assert_eq!(monitor.streams().len(), 1);
    assert_eq!(monitor.total_frames_processed(), 0);
}

#[test]
fn monitor_optimal_zero_copy() {
    let mut monitor = PerformanceMonitor::new();
    assert!(!monitor.is_optimal_zero_copy());
    monitor.record_frame(1, 0, Duration::from_millis(16), true);
    monitor.record_frame(2, 100, Duration::from_millis(16), true);
    assert!(monitor.is_optimal_zero_copy());
}

#[test]
fn monitor_reset_clears() {
    let mut monitor = PerformanceMonitor::new();
    monitor.record_frame(1, 10, Duration::from_millis(16), true);
    monitor.reset();
    assert_eq!(monitor.total_frames_processed(), 0);
    assert_eq!(monitor.total_upload_bytes(), 0);
    assert_eq!(monitor.streams().len(), 0);
    let _start = monitor.global_start();
}

#[test]
fn test_performance_monitor() {
    let mut monitor = PerformanceMonitor::new();

    // Record frames for different streams
    monitor.record_frame(1, 0, Duration::from_millis(33), true); // Zero-copy
    monitor.record_frame(1, 0, Duration::from_millis(32), true); // Zero-copy
    monitor.record_frame(2, 1024 * 1024, Duration::from_millis(35), false); // Upload

    assert_eq!(monitor.total_frames_processed(), 3);
    assert_eq!(monitor.total_upload_bytes(), 1024 * 1024);
    assert_eq!(monitor.active_streams(), 2);
    assert_eq!(monitor.zero_copy_streams(), 1); // Only stream 1 is zero-copy
}

#[test]
fn zero_copy_count_matches_optimal_mode() {
    let mut monitor = PerformanceMonitor::new();
    assert_eq!(monitor.zero_copy_streams(), 0);
    assert_eq!(monitor.active_streams(), 0);
    monitor.record_frame(4, 10, Duration::from_millis(16), true);
    monitor.record_frame(5, 20, Duration::from_millis(16), true);
    assert_eq!(monitor.zero_copy_streams(), 2);
    assert!(monitor.is_optimal_zero_copy());
    monitor.record_frame(6, 4096, Duration::from_millis(16), false);
    assert_eq!(monitor.zero_copy_streams(), 2);
    assert_eq!(monitor.active_streams(), 3);
    assert!(!monitor.is_optimal_zero_copy());
}

#[test]
fn zero_copy_mode_reads_bytes_per_frame_only() {
    let mut perf = StreamPerformance::new(8);
    perf.record_frame_nanos(5 * 1024 * 1024, 1, false);
    perf.record_frame_nanos(5 * 1024 * 1024, 1, false);
    for _ in 0..3 {
        perf.record_frame_nanos(0, 1, true);
    }
    assert_eq!(perf.frames_processed, 5);
    assert_eq!(perf.upload_operations, 2);
    assert!(!perf.is_zero_copy_mode());

    let mut one = StreamPerformance::new(9);
    one.record_frame_nanos(1024 * 1024, 1, false);
    one.record_frame_nanos(0, 1, true);
    one.record_frame_nanos(0, 1, true);
    assert!(!one.is_zero_copy_mode());
}

#[test]
fn monitor_totals_follow_recorded_frames() {
    let mut monitor = PerformanceMonitor::new();
    monitor.record_frame(3, 100, Duration::from_nanos(10), false);
    monitor.record_frame(4, 0, Duration::from_nanos(10), true);
    monitor.record_frame(3, 50, Duration::from_nanos(10), false);
    assert_eq!(monitor.total_frames_processed(), 3);
    assert_eq!(monitor.total_upload_bytes(), 150);
    assert_eq!(monitor.active_streams(), 2);
    assert_eq!(monitor.get_stream(3).frames_processed, 2);
    assert_eq!(monitor.active_streams(), 2);
    assert_eq!(monitor.get_stream(5).frames_processed, 0);
    assert_eq!(monitor.active_streams(), 3);
}

#[test]
fn very_long_frames_keep_their_whole_duration() {
    let mut perf = StreamPerformance::new(1);
    perf.record_frame(0, Duration::from_secs(u64::MAX), true);
    assert_eq!(perf.max_frame_time_ns, u64::MAX as u128 * 1_000_000_000);
    assert_eq!(perf.avg_frame_time_ns, u64::MAX);
}
