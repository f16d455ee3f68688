//! Audio master clock, output configuration and the bounded sample queue
//! that feeds the audio output.

use crate::time::Time;
use std::collections::VecDeque;
use std::sync::atomic::AtomicU64;
use std::sync::atomic::Ordering;
use std::sync::Arc;
use vstd::prelude::*;

verus! {

/// The whole seconds of audio that `samples` frames at `sample_rate` Hz make up.
pub open spec fn played_seconds(samples: u64, sample_rate: u32) -> int {
    samples as int / sample_rate as int
}

/// The reading, in nanoseconds, of a clock started at `start` once `samples`
/// frames have played at `sample_rate` Hz.
pub open spec fn clock_reading(start: Time, samples: u64, sample_rate: u32) -> int {
    start.0 + played_seconds(samples, sample_rate) * 1_000_000_000
}

/// The whole seconds the clock counts for `samples` frames at `sample_rate`
/// Hz, held at `i64::MAX` when they do not fit (or when a clock without a
/// rate has played anything).
pub open spec fn clock_seconds(samples: u64, sample_rate: u32) -> i64 {
    if sample_rate == 0 {
        if samples == 0 {
            0
        } else {
            i64::MAX
        }
    } else if played_seconds(samples, sample_rate) > i64::MAX {
        i64::MAX
    } else {
        played_seconds(samples, sample_rate) as i64
    }
}

/// The time a clock started at `start` shows after `samples` frames at
/// `sample_rate` Hz, with the arithmetic of a release build: nanoseconds
/// beyond `i64` wrap around.
pub open spec fn clock_time(start: Time, samples: u64, sample_rate: u32) -> Time {
    Time(start.0.wrapping_add(clock_seconds(samples, sample_rate).wrapping_mul(1_000_000_000)))
}

/// Audio master clock that provides timing based on audio samples played.
///
/// It is the master clock for A/V synchronization: video frames are
/// presented in step with audio playback. Clones share one sample counter,
/// which the audio output's callback advances.
#[derive(Clone)]
pub struct AudioMasterClock {
    /// Total samples played since start.
    samples_played: Arc<AtomicU64>,
    /// Sample rate in Hz.
    sample_rate: u32,
    /// Start time for reference.
    start_time: Time,
}

impl AudioMasterClock {
    /// The sample rate the clock counts in.
    pub closed spec fn rate(&self) -> u32 {
        self.sample_rate
    }

    /// The reference start time.
    pub closed spec fn start(&self) -> Time {
        self.start_time
    }

    /// A clock at the given sample rate, starting at time zero.
    pub fn new(sample_rate: u32) -> (c: Self)
        ensures
            c.rate() == sample_rate,
            c.start() == Time(0),
    {
        AudioMasterClock {
            samples_played: Arc::new(AtomicU64::new(0)),
            sample_rate,
            start_time: Time(0),
        }
    }

    /// The sample rate in Hz.
    pub fn sample_rate(&self) -> (r: u32)
        ensures
            r == self.rate(),
    {
        self.sample_rate
    }

    /// The reference start time.
    pub fn start_time(&self) -> (t: Time)
        ensures
            t == self.start(),
    {
        self.start_time
    }

    /// The number of samples played. The counter is shared with the audio
    /// callback, so its value is whatever that thread last left there.
    pub fn samples_played(&self) -> u64 {
        self.samples_played.load(Ordering::Relaxed)
    }

    /// Set the number of samples played.
    pub fn set_samples_played(&mut self, samples: u64)
        ensures
            final(self).rate() == old(self).rate(),
            final(self).start() == old(self).start(),
    {
        self.samples_played.store(samples, Ordering::Relaxed);
    }

    /// Increment the sample counter by the given amount (wrapping on overflow).
    pub fn add_samples(&self, samples: u64) {
        self.samples_played.fetch_add(samples, Ordering::Relaxed);
    }

    /// Set the reference start time.
    pub fn set_start_time(&mut self, time: Time)
        ensures
            final(self).start() == time,
            final(self).rate() == old(self).rate(),
    {
        self.start_time = time;
    }

    /// The clock's time once `samples` samples have been played: the start time
    /// plus the whole seconds those samples make up. Beyond `i64` the result
    /// wraps, as the arithmetic of a release build does.
    pub fn time_at(&self, samples: u64) -> (t: Time)
        ensures
            t == clock_time(self.start(), samples, self.rate()),
    {
        let rate = self.sample_rate as u64;
        let secs: i64 = if rate == 0 {
            if samples == 0 {
                0
            } else {
                i64::MAX
            }
        } else {
            let whole = samples / rate;
            if whole > i64::MAX as u64 {
                i64::MAX
            } else {
                whole as i64
            }
        };
        Time(self.start_time.0.wrapping_add(secs.wrapping_mul(1_000_000_000)))
    }
}

impl crate::time::Clock for AudioMasterClock {
    /// The clock's time for the samples the audio output has played so far.
    fn now(&self) -> (t: Time)
        ensures
            exists|samples: u64| t == clock_time(self.start(), samples, self.rate()),
    {
        let samples = self.samples_played();
        self.time_at(samples)
    }
}

/// Audio output configuration.
#[derive(Debug, Clone, PartialEq, Eq, Structural)]
pub struct AudioConfig {
    pub sample_rate: u32,
    pub channels: u16,
    pub buffer_size: u32,
}

impl Default for AudioConfig {
    fn default() -> (c: Self)
        ensures
            c.sample_rate == 44100,
            c.channels == 2,
            c.buffer_size == 1024,
    {
        AudioConfig { sample_rate: 44100, channels: 2, buffer_size: 1024 }
    }
}

/// The number of samples the output queue holds: four seconds of audio at the
/// given rate and channel count, and never fewer than 1024 frames.
pub open spec fn spec_buffer_capacity(sample_rate: u32, channels: u16) -> int {
    let four_seconds = sample_rate as int * channels as int * 4;
    let floor = channels as int * 1024;
    if four_seconds >= floor { four_seconds } else { floor }
}

/// The capacity of the output queue for a stream configuration.
pub fn buffer_capacity(sample_rate: u32, channels: u16) -> (cap: usize)
    requires
        sample_rate as int * channels as int * 4 <= usize::MAX,
    ensures
        cap == spec_buffer_capacity(sample_rate, channels),
{
    let four_seconds = sample_rate as usize * channels as usize * 4;
    let floor = channels as usize * 1024;
    if four_seconds >= floor {
        four_seconds
    } else {
        floor
    }
}

/// The number of frames an interleaved callback buffer of `len` samples holds.
pub fn callback_frames(len: usize, channels: usize) -> (frames: u64)
    requires
        channels > 0,
    ensures
        frames == len / channels,
{
    (len / channels) as u64
}

/// What a bounded queue holds after `samples` are pushed onto `held`: all of
/// them when they fit, else the newest `capacity` of them.
pub open spec fn pushed_bounded<T>(held: Seq<T>, samples: Seq<T>, capacity: nat) -> Seq<T> {
    let all = held + samples;
    if samples.len() == 0 || all.len() <= capacity {
        all
    } else {
        all.subrange(all.len() - capacity, all.len() as int)
    }
}

/// A queue of interleaved samples that never holds more than its capacity;
/// when new samples do not fit, the oldest ones are dropped.
pub struct SampleQueue<T> {
    samples: VecDeque<T>,
    capacity: usize,
}

impl<T> SampleQueue<T> {
    /// The queue holds no more than its capacity.
    #[verifier::type_invariant]
    closed spec fn within_capacity(&self) -> bool {
        self.samples@.len() <= self.capacity
    }

    /// The samples held, oldest first.
    pub closed spec fn held(&self) -> Seq<T> {
        self.samples@
    }

    /// The most samples the queue holds.
    pub closed spec fn limit(&self) -> nat {
        self.capacity as nat
    }

    /// An empty queue of the given capacity.
    pub fn new(capacity: usize) -> (q: Self)
        ensures
            q.held() == Seq::<T>::empty(),
            q.limit() == capacity,
    {
        SampleQueue { samples: VecDeque::new(), capacity }
    }

    /// The number of items held.
    pub fn len(&self) -> (n: usize)
        ensures
            n == self.held().len(),
    {
        self.samples.len()
    }

    /// The capacity.
    pub fn capacity(&self) -> (c: usize)
        ensures
            c == self.limit(),
    {
        self.capacity
    }

    /// Append one item; when the queue is full, its oldest item is dropped
    /// to make room, so the newest items are the ones kept.
    pub fn push(&mut self, item: T)
        ensures
            final(self).held() == pushed_bounded(old(self).held(), seq![item], old(self).limit()),
            final(self).limit() == old(self).limit(),
    {
        proof {
            use_type_invariant(&*self);
        }
        let ghost held0 = self.samples@;
        let cap = self.capacity;
        let mut buf: VecDeque<T> = VecDeque::new();
        std::mem::swap(&mut buf, &mut self.samples);
        if cap == 0 {
            proof {
                let all = held0 + seq![item];
                assert(all.subrange(all.len() - 0, all.len() as int) =~= Seq::<T>::empty());
                assert(buf@ =~= Seq::<T>::empty());
            }
            self.samples = buf;
            return;
        }
        if buf.len() == cap {
            buf.pop_front();
        }
        buf.push_back(item);
        proof {
            let all = held0 + seq![item];
            if held0.len() == cap {
                assert(buf@ =~= all.subrange(all.len() - cap, all.len() as int));
            } else {
                assert(buf@ =~= all);
            }
        }
        self.samples = buf;
    }

    /// Take the oldest item, if any.
    pub fn pop(&mut self) -> (item: Option<T>)
        ensures
            old(self).held().len() == 0 ==> item is None && final(self).held() == old(self).held(),
            old(self).held().len() > 0 ==> item == Some(old(self).held()[0]) && final(self).held()
                == old(self).held().drop_first(),
            final(self).limit() == old(self).limit(),
    {
        proof {
            use_type_invariant(&*self);
        }
        let mut buf: VecDeque<T> = VecDeque::new();
        std::mem::swap(&mut buf, &mut self.samples);
        let item = buf.pop_front();
        self.samples = buf;
        item
    }

    /// Drop every queued item.
    pub fn clear(&mut self)
        ensures
            final(self).held() == Seq::<T>::empty(),
            final(self).limit() == old(self).limit(),
    {
        self.samples = VecDeque::new();
    }
}

impl<T: Copy> SampleQueue<T> {

    /// The newest `n` items held (all of them when fewer are held), oldest first.
    pub fn recent(&self, n: usize) -> (items: Vec<T>)
        ensures
            items@ == self.held().subrange(
                if n < self.held().len() { self.held().len() - n } else { 0 },
                self.held().len() as int,
            ),
    {
        let len = self.samples.len();
        let start = if n < len {
            len - n
        } else {
            0
        };
        let mut items: Vec<T> = Vec::new();
        let mut i = start;
        while i < len
            invariant
                start <= i <= len,
                len == self.samples@.len(),
                items@ == self.samples@.subrange(start as int, i as int),
            decreases len - i,
        {
            items.push(self.samples[i]);
            i = i + 1;
        }
        items
    }

    /// Append samples, dropping the oldest ones that no longer fit.
    pub fn push_samples(&mut self, samples: &[T])
        ensures
            final(self).held() == pushed_bounded(old(self).held(), samples@, old(self).limit()),
            final(self).limit() == old(self).limit(),
            final(self).held().len() <= final(self).limit(),
    {
        proof {
            use_type_invariant(&*self);
        }
        let ghost held0 = self.samples@;
        let n = samples.len();
        if n == 0 {
            return;
        }
        let cap = self.capacity;
        let mut buf: VecDeque<T> = VecDeque::new();
        std::mem::swap(&mut buf, &mut self.samples);
        if n >= cap {
            buf.clear();
            let start = n - cap;
            let mut i = start;
            while i < n
                invariant
                    start <= i <= n,
                    n == samples@.len(),
                    start == n - cap,
                    self.capacity == cap,
                    buf@ == samples@.subrange(start as int, i as int),
                decreases n - i,
            {
                buf.push_back(samples[i]);
                i = i + 1;
            }
            proof {
                let all = held0 + samples@;
                assert(samples@.subrange(start as int, n as int) =~= all.subrange(
                    all.len() - cap,
                    all.len() as int,
                ));
            }
            self.samples = buf;
            return;
        }
        let len = buf.len();
        let available = if cap > len {
            cap - len
        } else {
            0
        };
        if n > available {
            let overflow = n - available;
            let mut k: usize = 0;
            while k < overflow
                invariant
                    k <= overflow,
                    overflow == n - available,
                    available == cap - len,
                    len == held0.len(),
                    len <= cap,
                    n < cap,
                    self.capacity == cap,
                    buf@ == held0.subrange(k as int, len as int),
                decreases overflow - k,
            {
                buf.pop_front();
                k = k + 1;
            }
        }
        let ghost kept = buf@;
        let mut i: usize = 0;
        while i < n
            invariant
                i <= n,
                n == samples@.len(),
                n < cap,
                self.capacity == cap,
                kept.len() + n <= cap,
                buf@ == kept + samples@.subrange(0, i as int),
            decreases n - i,
        {
            buf.push_back(samples[i]);
            i = i + 1;
        }
        proof {
            let all = held0 + samples@;
            assert(samples@.subrange(0, n as int) =~= samples@);
            if all.len() <= cap {
                assert(kept =~= held0);
                assert(buf@ =~= all);
            } else {
                assert(buf@ =~= all.subrange(all.len() - cap, all.len() as int));
            }
        }
        self.samples = buf;
    }

    /// Fill `dest` with the oldest samples, in order; slots left over once the
    /// queue is empty get `fill`.
    pub fn pop_samples(&mut self, dest: &mut [T], fill: T)
        ensures
            final(dest)@.len() == old(dest)@.len(),
            old(dest)@.len() <= old(self).held().len() ==> final(dest)@ == old(self).held().subrange(
                0,
                old(dest)@.len() as int,
            ) && final(self).held() == old(self).held().subrange(
                old(dest)@.len() as int,
                old(self).held().len() as int,
            ),
            old(dest)@.len() > old(self).held().len() ==> final(dest)@ == old(self).held()
                + Seq::new(
                (old(dest)@.len() - old(self).held().len()) as nat,
                |i: int| fill,
            ) && final(self).held() == Seq::<T>::empty(),
            final(self).limit() == old(self).limit(),
    {
        proof {
            use_type_invariant(&*self);
        }
        let ghost held0 = self.samples@;
        let ghost dest0 = dest@;
        let n = dest.len();
        let mut buf: VecDeque<T> = VecDeque::new();
        std::mem::swap(&mut buf, &mut self.samples);
        let mut i: usize = 0;
        while i < n
            invariant
                i <= n,
                n == dest@.len(),
                dest@.len() == dest0.len(),
                buf@.len() <= self.capacity,
                held0.len() <= self.capacity,
                self.capacity == old(self).capacity,
                i <= held0.len() ==> buf@ == held0.subrange(i as int, held0.len() as int),
                i > held0.len() ==> buf@ == Seq::<T>::empty(),
                forall|j: int|
                    0 <= j < i ==> #[trigger] dest@[j] == (if j < held0.len() {
                        held0[j]
                    } else {
                        fill
                    }),
            decreases n - i,
        {
            let next = match buf.pop_front() {
                Some(s) => s,
                None => fill,
            };
            dest[i] = next;
            i = i + 1;
        }
        proof {
            if n <= held0.len() {
                assert(dest@ =~= held0.subrange(0, n as int));
            } else {
                assert(dest@ =~= held0 + Seq::new((n - held0.len()) as nat, |i: int| fill));
            }
        }
        self.samples = buf;
    }

}

/// Audio resampler for converting between sample rates (a placeholder that
/// passes samples through unchanged).
pub struct AudioResampler {
    input_rate: u32,
    output_rate: u32,
}

impl AudioResampler {
    /// A resampler from `input_rate` to `output_rate` Hz.
    pub fn new(input_rate: u32, output_rate: u32) -> (r: Self)
        ensures
            r.input_rate() == input_rate,
            r.output_rate() == output_rate,
    {
        AudioResampler { input_rate, output_rate }
    }

    /// Resample interleaved samples; no conversion is implemented yet, so the
    /// samples come back unchanged.
    pub fn resample<T: Copy>(&self, input: &[T]) -> (output: Vec<T>)
        ensures
            output@ == input@,
    {
        let mut output: Vec<T> = Vec::new();
        let mut i: usize = 0;
        while i < input.len()
            invariant
                i <= input@.len(),
                output@ == input@.subrange(0, i as int),
            decreases input@.len() - i,
        {
            output.push(input[i]);
            i = i + 1;
        }
        output
    }

    /// The input rate.
    pub closed spec fn input_rate(&self) -> u32 {
        self.input_rate
    }

    /// The output rate.
    pub closed spec fn output_rate(&self) -> u32 {
        self.output_rate
    }
}

/// Audio mixer for combining multiple audio sources (placeholder for
/// multi-track mixing).
pub struct AudioMixer {
    sample_rate: u32,
    channels: u16,
}

impl AudioMixer {
    /// A mixer for the given rate and channel count.
    pub fn new(sample_rate: u32, channels: u16) -> (m: Self)
        ensures
            m.sample_rate() == sample_rate,
            m.channels() == channels,
    {
        AudioMixer { sample_rate, channels }
    }

    /// The sample rate.
    pub closed spec fn sample_rate(&self) -> u32 {
        self.sample_rate
    }

    /// The channel count.
    pub closed spec fn channels(&self) -> u16 {
        self.channels
    }
}

} // verus!

verus! {

/// Law: while no arithmetic wraps, the clock shows its start time plus the
/// whole seconds of audio played.
pub proof fn law_clock_reads_played_seconds(start: Time, samples: u64, sample_rate: u32)
    requires
        sample_rate > 0,
        crate::time::fits_i64(played_seconds(samples, sample_rate) * 1_000_000_000),
        crate::time::fits_i64(clock_reading(start, samples, sample_rate)),
    ensures
        clock_time(start, samples, sample_rate).0 == clock_reading(start, samples, sample_rate),
{
    let secs = played_seconds(samples, sample_rate);
    assert(0 <= secs) by {
        vstd::arithmetic::div_mod::lemma_div_pos_is_pos(samples as int, sample_rate as int);
    }
    assert(secs <= i64::MAX) by (nonlinear_arith)
        requires
            0 <= secs,
            secs * 1_000_000_000 <= i64::MAX,
    ;
    let s64 = clock_seconds(samples, sample_rate);
    assert(s64 == secs);
    let product: int = s64 * 1_000_000_000;
    assert(0 <= product < 0x1_0000_0000_0000_0000) by (nonlinear_arith)
        requires
            0 <= s64,
            product == s64 * 1_000_000_000,
            product <= i64::MAX,
    ;
    vstd::arithmetic::div_mod::lemma_small_mod(product as nat, 0x1_0000_0000_0000_0000nat);
    assert(s64.wrapping_mul(1_000_000_000) == product);
}

/// Law: the audio clock never runs backward as samples accumulate.
pub proof fn law_clock_monotone(start: Time, earlier: u64, later: u64, sample_rate: u32)
    requires
        sample_rate > 0,
        earlier <= later,
    ensures
        played_seconds(earlier, sample_rate) <= played_seconds(later, sample_rate),
        clock_reading(start, earlier, sample_rate) <= clock_reading(start, later, sample_rate),
{
    vstd::arithmetic::div_mod::lemma_div_is_ordered(
        earlier as int,
        later as int,
        sample_rate as int,
    );
}

/// Law: `k` seconds' worth of samples advance the clock by exactly `k` seconds.
pub proof fn law_clock_counts_whole_seconds(start: Time, seconds: u64, sample_rate: u32)
    requires
        sample_rate > 0,
        seconds * sample_rate <= u64::MAX,
    ensures
        played_seconds((seconds * sample_rate) as u64, sample_rate) == seconds,
        clock_reading(start, (seconds * sample_rate) as u64, sample_rate) == start.0 + seconds
            * 1_000_000_000,
{
    vstd::arithmetic::div_mod::lemma_div_multiples_vanish(seconds as int, sample_rate as int);
    assert(seconds * sample_rate == sample_rate * seconds) by (nonlinear_arith);
}

/// Law: a bounded queue never holds more than its capacity.
pub proof fn law_queue_within_capacity<T>(held: Seq<T>, samples: Seq<T>, capacity: nat)
    requires
        held.len() <= capacity,
    ensures
        pushed_bounded(held, samples, capacity).len() <= capacity,
{
}

/// Law: a bounded queue keeps the newest samples: what it holds after a push
/// is the tail of everything pushed, as much of it as fits.
pub proof fn law_queue_keeps_newest<T>(held: Seq<T>, samples: Seq<T>, capacity: nat)
    requires
        held.len() <= capacity,
        samples.len() > 0,
    ensures
        ({
            let all = held + samples;
            let kept = pushed_bounded(held, samples, capacity);
            &&& kept.len() == (if all.len() <= capacity { all.len() } else { capacity })
            &&& kept == all.subrange(all.len() - kept.len(), all.len() as int)
        }),
{
    let all = held + samples;
    if all.len() <= capacity {
        assert(all.subrange(0, all.len() as int) =~= all);
    }
}

/// Law: samples pushed onto an empty queue that has room for them come back
/// out in the order they went in.
pub proof fn law_queue_push_then_pop<T>(samples: Seq<T>, capacity: nat)
    requires
        samples.len() <= capacity,
    ensures
        pushed_bounded(Seq::<T>::empty(), samples, capacity) == samples,
        pushed_bounded(Seq::<T>::empty(), samples, capacity).subrange(0, samples.len() as int)
            == samples,
{
    assert(Seq::<T>::empty() + samples =~= samples);
    assert(samples.subrange(0, samples.len() as int) =~= samples);
}

} // verus!
