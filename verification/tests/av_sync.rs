use mvlc::av_sync::{due_frame, frame_decision, MAX_DRIFT_NS};
use mvlc::{Clock, FrameDecision, FrameSchedule, ScheduledFrame, SystemClock, Time};

#[test]
fn test_av_sync_basic() {
    let audio_time = Time::from_secs(1);
    let frame_time = Time::from_secs(1);

    let decision = frame_decision(frame_time, audio_time, MAX_DRIFT_NS);
    assert_eq!(decision, FrameDecision::Present);
}

#[test]
fn test_frame_drift_detection() {
    // Test case where video is behind (should drop)
    let audio_time = Time::from_secs(1);
    let frame_time = Time::from_millis(1008); // 8ms behind
    let decision = frame_decision(frame_time, audio_time, MAX_DRIFT_NS);
    assert_eq!(decision, FrameDecision::Drop);

    // Test case where video is ahead (should repeat)
    let frame_time = Time::from_millis(992); // 8ms ahead
    let decision = frame_decision(frame_time, audio_time, MAX_DRIFT_NS);
    assert_eq!(decision, FrameDecision::Repeat);
}

#[test]
fn test_scheduled_frame_drift() {
    let frame = ScheduledFrame {
        frame_number: 30,
        target_time: Time::from_secs(1),     // Frame 30 at 30fps = 1 second
        audio_time: Time::from_millis(1005), // Audio is at 1.005 seconds
    };

    assert_eq!(frame.drift_nanos() as f64 / 1_000_000.0, -5.0); // Video is 5ms behind audio
}

#[test]
fn drift_inside_window_presents() {
    let audio = Time::from_secs(10);
    assert_eq!(frame_decision(Time(audio.0 + 7_999_999), audio, MAX_DRIFT_NS), FrameDecision::Present);
    assert_eq!(frame_decision(Time(audio.0 - 7_999_999), audio, MAX_DRIFT_NS), FrameDecision::Present);
    assert_eq!(frame_decision(Time(audio.0 + 20_000_000), audio, MAX_DRIFT_NS), FrameDecision::Drop);
    assert_eq!(frame_decision(Time(audio.0 - 20_000_000), audio, MAX_DRIFT_NS), FrameDecision::Repeat);
}

#[test]
fn extreme_times_do_not_overflow() {
    assert_eq!(frame_decision(Time(i64::MAX), Time(i64::MIN), MAX_DRIFT_NS), FrameDecision::Drop);
    assert_eq!(frame_decision(Time(i64::MIN), Time(i64::MAX), MAX_DRIFT_NS), FrameDecision::Repeat);
}

#[test]
fn frame_is_due_once_audio_reaches_it() {
    assert!(due_frame(3, Time::from_millis(100), Time::from_millis(99)).is_none());
    let f = due_frame(3, Time::from_millis(100), Time::from_millis(100)).unwrap();
    assert_eq!(f, ScheduledFrame { frame_number: 3, target_time: Time::from_millis(100), audio_time: Time::from_millis(100) });
    assert_eq!(f.drift_nanos(), 0);
}

#[test]
fn test_video_scheduler() {
    let clock = SystemClock::new();
    let mut schedule = FrameSchedule::new(Time(1_000_000_000 / 30));

    // Initially no frame should be ready
    assert!(schedule.next_frame(clock.now(), Time(0)).is_none());
}

#[test]
fn schedule_counts_frames() {
    let mut s = FrameSchedule::new(Time::from_millis(40));
    assert!(s.next_frame(Time::from_millis(39), Time(0)).is_none());
    assert_eq!(s, FrameSchedule::new(Time::from_millis(40)));
    let f = s.next_frame(Time::from_millis(41), Time(0)).unwrap();
    assert_eq!(f.frame_number, 0);
    assert_eq!(f.target_time, Time::from_millis(40));
    assert_eq!(s.next_frame_number, 1);
    assert!(s.next_frame(Time::from_millis(79), Time(0)).is_none());
    assert_eq!(s.target_time(1, Time(0)), Time::from_millis(80));
    assert_eq!(s.target_time(1, Time::from_millis(-5)), Time::from_millis(75));
    s.frame_presented();
    s.frame_dropped();
    assert_eq!(s.next_frame_number, 2);
    s.frame_repeated();
    assert_eq!(s.next_frame_number, 2);
    assert_eq!((s.frames_presented, s.frames_dropped, s.frames_repeated), (1, 1, 1));
}
