use mvlc::audio::{buffer_capacity, callback_frames};
use mvlc::{AudioConfig, AudioMasterClock, AudioMixer, AudioResampler, Clock, SampleQueue, Time};

#[test]
fn test_audio_master_clock() {
    let mut clock = AudioMasterClock::new(44100);
    clock.set_start_time(Time::zero());

    // Initially zero
    assert_eq!(clock.samples_played(), 0);
    assert_eq!(clock.now(), Time::zero());

    // Add some samples
    clock.add_samples(44100); // 1 second at 44.1kHz
    assert_eq!(clock.samples_played(), 44100);
    assert_eq!(clock.now(), Time::from_secs(1));
}

#[test]
fn test_audio_config_default() {
    let config = AudioConfig::default();
    assert_eq!(config.sample_rate, 44100);
    assert_eq!(config.channels, 2);
    assert_eq!(config.buffer_size, 1024);
}

#[test]
fn clock_counts_whole_seconds_only() {
    let clock = AudioMasterClock::new(48000);
    clock.add_samples(48000 * 3 - 1);
    assert_eq!(clock.now(), Time::from_secs(2));
    clock.add_samples(1);
    assert_eq!(clock.now(), Time::from_secs(3));
}

#[test]
fn clock_reading_starts_at_start_time() {
    let mut clock = AudioMasterClock::new(44100);
    clock.set_start_time(Time::from_secs(5));
    assert_eq!(clock.start_time(), Time::from_secs(5));
    assert_eq!(clock.time_at(44100 * 2), Time::from_secs(7));
    assert_eq!(clock.time_at(0), Time::from_secs(5));
    assert_eq!(clock.sample_rate(), 44100);
}

#[test]
fn clock_with_no_rate_reads_start_before_any_sample() {
    let clock = AudioMasterClock::new(0);
    assert_eq!(clock.time_at(0), Time::zero());
}

#[test]
fn clock_clones_share_the_counter() {
    let clock = AudioMasterClock::new(44100);
    let shared = clock.clone();
    clock.add_samples(10);
    shared.add_samples(5);
    assert_eq!(clock.samples_played(), 15);
    assert_eq!(shared.samples_played(), 15);
}

#[test]
fn clock_set_samples_played_overwrites() {
    let mut clock = AudioMasterClock::new(1000);
    clock.add_samples(10);
    clock.set_samples_played(5000);
    assert_eq!(clock.samples_played(), 5000);
    assert_eq!(clock.now(), Time::from_secs(5));
}

#[test]
fn clock_never_runs_backward() {
    let clock = AudioMasterClock::new(44100);
    let mut last = clock.now();
    for _ in 0..100 {
        clock.add_samples(4410);
        let now = clock.now();
        assert!(now >= last);
        last = now;
    }
    assert_eq!(last, Time::from_secs(10));
}

#[test]
fn buffer_capacity_holds_four_seconds() {
    assert_eq!(buffer_capacity(44100, 2), 352_800);
    assert_eq!(buffer_capacity(48000, 1), 192_000);
}

#[test]
fn buffer_capacity_never_below_1024_frames() {
    assert_eq!(buffer_capacity(100, 2), 2048);
    assert_eq!(buffer_capacity(0, 1), 1024);
}

#[test]
fn callback_frames_counts_interleaved_frames() {
    assert_eq!(callback_frames(1024, 2), 512);
    assert_eq!(callback_frames(7, 2), 3);
}

#[test]
fn queue_keeps_newest_samples_when_full() {
    let mut q: SampleQueue<i32> = SampleQueue::new(4);
    q.push_samples(&[1, 2, 3]);
    q.push_samples(&[4, 5, 6]);
    assert_eq!(q.len(), 4);
    let mut out = [0; 4];
    q.pop_samples(&mut out, 0);
    assert_eq!(out, [3, 4, 5, 6]);
    assert_eq!(q.len(), 0);
}

#[test]
fn queue_push_longer_than_capacity_keeps_tail() {
    let mut q: SampleQueue<i32> = SampleQueue::new(3);
    q.push_samples(&[9, 9]);
    q.push_samples(&[1, 2, 3, 4, 5]);
    let mut out = [0; 3];
    q.pop_samples(&mut out, 0);
    assert_eq!(out, [3, 4, 5]);
}

#[test]
fn queue_pop_fills_missing_samples() {
    let mut q: SampleQueue<f32> = SampleQueue::new(8);
    q.push_samples(&[0.5, -0.5]);
    let mut out = [1.0f32; 4];
    q.pop_samples(&mut out, 0.0);
    assert_eq!(out, [0.5, -0.5, 0.0, 0.0]);
    assert_eq!(q.len(), 0);
}

#[test]
fn queue_pop_leaves_the_rest() {
    let mut q: SampleQueue<u8> = SampleQueue::new(8);
    q.push_samples(&[1, 2, 3, 4, 5]);
    let mut out = [0u8; 2];
    q.pop_samples(&mut out, 0);
    assert_eq!(out, [1, 2]);
    assert_eq!(q.len(), 3);
    q.pop_samples(&mut out, 0);
    assert_eq!(out, [3, 4]);
}

#[test]
fn queue_round_trip_in_order() {
    let mut q: SampleQueue<u16> = SampleQueue::new(16);
    let samples = [10u16, 20, 30, 40, 50];
    q.push_samples(&samples);
    let mut out = [0u16; 5];
    q.pop_samples(&mut out, 0);
    assert_eq!(out, samples);
}

#[test]
fn queue_empty_push_changes_nothing() {
    let mut q: SampleQueue<i32> = SampleQueue::new(2);
    q.push_samples(&[7]);
    q.push_samples(&[]);
    assert_eq!(q.len(), 1);
    assert_eq!(q.capacity(), 2);
}

#[test]
fn queue_clear_drops_everything() {
    let mut q: SampleQueue<i32> = SampleQueue::new(4);
    q.push_samples(&[1, 2, 3]);
    q.clear();
    assert_eq!(q.len(), 0);
    assert_eq!(q.capacity(), 4);
}

#[test]
fn resampler_and_mixer_construct() {
    let _resampler = AudioResampler::new(44100, 48000);
    let _mixer = AudioMixer::new(48000, 2);
}

#[test]
fn resampler_passes_samples_through() {
    let r = AudioResampler::new(44100, 48000);
    assert_eq!(r.resample(&[0.25f32, -0.5, 1.0]), vec![0.25f32, -0.5, 1.0]);
    assert_eq!(r.resample::<i16>(&[]), Vec::<i16>::new());
}

#[test]
fn queue_recent_items() {
    let mut q: SampleQueue<u32> = SampleQueue::new(50);
    q.push_samples(&[1, 2, 3, 4, 5]);
    assert_eq!(q.recent(2), vec![4, 5]);
    assert_eq!(q.recent(10), vec![1, 2, 3, 4, 5]);
    assert_eq!(q.recent(0), Vec::<u32>::new());
}

#[test]
fn full_queue_keeps_the_newest_items() {
    let mut q: SampleQueue<String> = SampleQueue::new(2);
    assert_eq!(q.pop(), None);
    q.push("a".to_string());
    q.push("b".to_string());
    q.push("c".to_string());
    assert_eq!(q.len(), 2);
    assert_eq!(q.pop(), Some("b".to_string()));
    assert_eq!(q.pop(), Some("c".to_string()));
    assert_eq!(q.pop(), None);

    let mut none: SampleQueue<String> = SampleQueue::new(0);
    none.push("x".to_string());
    assert_eq!(none.len(), 0);
}
