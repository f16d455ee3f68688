//! Performance counters: upload bytes, frame times and zero-copy detection.

use std::collections::HashMap;
use std::time::Duration;
use std::time::Instant;
use crate::time::duration_nanos;
use crate::time::duration_as_nanos;
use crate::time::instant_now;
use vstd::prelude::*;
use vstd::std_specs::hash::obeys_key_model;

verus! {

/// Average upload (bytes per frame) below which a stream counts as zero-copy.
pub const ZERO_COPY_BYTES_PER_FRAME: u64 = 1024;

/// Nanoseconds of the frame time a new tracker assumes (about 30 fps).
pub const INITIAL_FRAME_TIME_NS: u64 = 33_000_000;

/// The counters of a stream's performance tracker.
pub struct StreamCounters {
    pub stream_id: u64,
    pub frames_processed: nat,
    pub total_bytes_uploaded: nat,
    pub upload_operations: nat,
    pub avg_frame_time_ns: nat,
    pub max_frame_time_ns: nat,
    pub is_zero_copy: bool,
}

/// The exponential moving average of frame times with smoothing factor 1/10.
pub open spec fn smoothed_frame_time(avg: nat, frame_time: nat) -> nat {
    ((9 * avg + frame_time) / 10) as nat
}

/// A stream runs zero-copy when it uploads less than 1 KiB per frame on average
/// (a stream with no frames uploads nothing).
pub open spec fn zero_copy_average(total_bytes: nat, frames: nat) -> bool {
    frames == 0 || total_bytes < ZERO_COPY_BYTES_PER_FRAME * frames
}

/// A stream is in zero-copy mode when it uploads less than 1 KiB per frame on
/// average (upload bytes close to zero).
pub open spec fn zero_copy_mode(c: StreamCounters) -> bool {
    zero_copy_average(c.total_bytes_uploaded, c.frames_processed)
}

/// The counters after one more frame that uploaded `bytes` and took `frame_time` ns.
pub open spec fn counters_after_frame(
    c: StreamCounters,
    bytes: nat,
    frame_time: nat,
    is_zero_copy: bool,
) -> StreamCounters {
    StreamCounters {
        stream_id: c.stream_id,
        frames_processed: c.frames_processed + 1,
        total_bytes_uploaded: c.total_bytes_uploaded + bytes,
        upload_operations: if bytes > 0 {
            c.upload_operations + 1
        } else {
            c.upload_operations
        },
        avg_frame_time_ns: if smoothed_frame_time(c.avg_frame_time_ns, frame_time) > u64::MAX {
            u64::MAX as nat
        } else {
            smoothed_frame_time(c.avg_frame_time_ns, frame_time)
        },
        max_frame_time_ns: if frame_time > c.max_frame_time_ns {
            frame_time
        } else {
            c.max_frame_time_ns
        },
        is_zero_copy: is_zero_copy,
    }
}

/// The counters of a new tracker for `stream_id`.
pub open spec fn fresh_counters(stream_id: u64) -> StreamCounters {
    StreamCounters {
        stream_id: stream_id,
        frames_processed: 0,
        total_bytes_uploaded: 0,
        upload_operations: 0,
        avg_frame_time_ns: INITIAL_FRAME_TIME_NS as nat,
        max_frame_time_ns: INITIAL_FRAME_TIME_NS as nat,
        is_zero_copy: false,
    }
}

/// Performance statistics for a single stream.
#[derive(Debug)]
pub struct StreamPerformance {
    pub stream_id: u64,
    pub frames_processed: u64,
    pub total_bytes_uploaded: u64,
    pub upload_operations: u64,
    /// Moving average of the frame time, in nanoseconds (held at `u64::MAX`).
    pub avg_frame_time_ns: u64,
    /// Longest frame time seen, in nanoseconds.
    pub max_frame_time_ns: u128,
    pub is_zero_copy: bool,
    pub last_update: Instant,
}

impl View for StreamPerformance {
    type V = StreamCounters;

    open spec fn view(&self) -> StreamCounters {
        StreamCounters {
            stream_id: self.stream_id,
            frames_processed: self.frames_processed as nat,
            total_bytes_uploaded: self.total_bytes_uploaded as nat,
            upload_operations: self.upload_operations as nat,
            avg_frame_time_ns: self.avg_frame_time_ns as nat,
            max_frame_time_ns: self.max_frame_time_ns as nat,
            is_zero_copy: self.is_zero_copy,
        }
    }
}

/// Whether one more frame of `bytes` fits in the counters' machine integers.
pub open spec fn can_record(c: StreamCounters, bytes: u64) -> bool {
    &&& c.frames_processed < u64::MAX
    &&& c.total_bytes_uploaded + bytes <= u64::MAX
    &&& c.upload_operations < u64::MAX
}

impl StreamPerformance {
    /// A new performance tracker for a stream.
    pub fn new(stream_id: u64) -> (p: Self)
        ensures
            p@ == fresh_counters(stream_id),
    {
        StreamPerformance {
            stream_id,
            frames_processed: 0,
            total_bytes_uploaded: 0,
            upload_operations: 0,
            avg_frame_time_ns: INITIAL_FRAME_TIME_NS,
            max_frame_time_ns: INITIAL_FRAME_TIME_NS as u128,
            is_zero_copy: false,
            last_update: instant_now(),
        }
    }

    /// Record one processed frame given its frame time in nanoseconds.
    pub fn record_frame_nanos(&mut self, upload_bytes: u64, frame_time_ns: u64, is_zero_copy: bool)
        requires
            can_record(old(self)@, upload_bytes),
        ensures
            final(self)@ == counters_after_frame(
                old(self)@,
                upload_bytes as nat,
                frame_time_ns as nat,
                is_zero_copy,
            ),
    {
        self.record_frame_time(upload_bytes, frame_time_ns as u128, is_zero_copy);
    }

    /// Record one processed frame of `frame_time_ns` nanoseconds.
    fn record_frame_time(&mut self, upload_bytes: u64, frame_time_ns: u128, is_zero_copy: bool)
        requires
            can_record(old(self)@, upload_bytes),
        ensures
            final(self)@ == counters_after_frame(
                old(self)@,
                upload_bytes as nat,
                frame_time_ns as nat,
                is_zero_copy,
            ),
    {
        self.frames_processed = self.frames_processed + 1;
        self.total_bytes_uploaded = self.total_bytes_uploaded + upload_bytes;
        if upload_bytes > 0 {
            self.upload_operations = self.upload_operations + 1;
        }
        self.is_zero_copy = is_zero_copy;
        if frame_time_ns > self.max_frame_time_ns {
            self.max_frame_time_ns = frame_time_ns;
        }
        let limit: u128 = 10 * (u64::MAX as u128);
        if frame_time_ns >= limit {
            self.avg_frame_time_ns = u64::MAX;
        } else {
            let weighted: u128 = 9 * (self.avg_frame_time_ns as u128) + frame_time_ns;
            let smoothed = weighted / 10;
            self.avg_frame_time_ns = if smoothed > u64::MAX as u128 {
                u64::MAX
            } else {
                smoothed as u64
            };
        }
        self.last_update = instant_now();
    }

    /// Record frame processing with upload bytes: the frame's whole duration
    /// counts toward the longest frame time, and the moving average is held
    /// at `u64::MAX` nanoseconds.
    pub fn record_frame(&mut self, upload_bytes: u64, frame_time: Duration, is_zero_copy: bool)
        requires
            can_record(old(self)@, upload_bytes),
        ensures
            final(self)@ == counters_after_frame(
                old(self)@,
                upload_bytes as nat,
                duration_nanos(frame_time) as nat,
                is_zero_copy,
            ),
    {
        let nanos = duration_as_nanos(&frame_time);
        self.record_frame_time(upload_bytes, nanos, is_zero_copy);
    }

    /// Whether the stream runs zero-copy: under 1 KiB uploaded per frame on average.
    pub fn is_zero_copy_mode(&self) -> (b: bool)
        ensures
            b == zero_copy_mode(self@),
    {
        let frames = self.frames_processed as u128;
        let limit: u128 = ZERO_COPY_BYTES_PER_FRAME as u128;
        assert(limit * frames <= 1024 * u64::MAX) by (nonlinear_arith)
            requires
                limit == 1024,
                frames <= u64::MAX,
        ;
        frames == 0 || (self.total_bytes_uploaded as u128) < limit * frames
    }
}

} // verus!

verus! {

impl Default for StreamPerformance {
    fn default() -> (p: Self)
        ensures
            p@ == fresh_counters(0),
    {
        StreamPerformance::new(0)
    }
}

/// The streams of `streams` that are in zero-copy mode.
pub open spec fn zero_copy_ids(streams: Map<u64, StreamPerformance>) -> Set<u64> {
    streams.dom().filter(|k: u64| zero_copy_mode(streams[k]@))
}

/// The counters of the tracker for `stream_id`, or those of a new tracker when
/// the map holds none.
pub open spec fn stream_or_fresh(streams: Map<u64, StreamPerformance>, stream_id: u64) -> StreamCounters {
    if streams.contains_key(stream_id) {
        streams[stream_id]@
    } else {
        fresh_counters(stream_id)
    }
}

/// Global performance monitor over all streams.
#[derive(Debug)]
pub struct PerformanceMonitor {
    streams: HashMap<u64, StreamPerformance>,
    global_start: Instant,
    total_frames_processed: u64,
    total_upload_bytes: u64,
}

impl PerformanceMonitor {
    /// The per-stream trackers, keyed by stream id.
    pub closed spec fn trackers(&self) -> Map<u64, StreamPerformance> {
        self.streams@
    }

    /// Frames recorded over all streams since the last reset.
    pub closed spec fn total_frames(&self) -> nat {
        self.total_frames_processed as nat
    }

    /// Bytes uploaded over all streams since the last reset.
    pub closed spec fn total_bytes(&self) -> nat {
        self.total_upload_bytes as nat
    }

    /// The instant the monitor was created or last reset.
    pub closed spec fn started(&self) -> Instant {
        self.global_start
    }

    /// A monitor with no streams and no frames recorded.
    pub fn new() -> (m: Self)
        ensures
            m.trackers() == Map::<u64, StreamPerformance>::empty(),
            m.total_frames() == 0,
            m.total_bytes() == 0,
    {
        PerformanceMonitor {
            streams: HashMap::new(),
            global_start: instant_now(),
            total_frames_processed: 0,
            total_upload_bytes: 0,
        }
    }

    /// The tracker for a stream, created first when the stream has none.
    pub fn get_stream(&mut self, stream_id: u64) -> (s: &mut StreamPerformance)
        ensures
            s@ == stream_or_fresh(old(self).trackers(), stream_id),
            final(self).trackers() == old(self).trackers().insert(stream_id, *final(s)),
            final(self).total_frames() == old(self).total_frames(),
            final(self).total_bytes() == old(self).total_bytes(),
            final(self).started() == old(self).started(),
    {
        broadcast use vstd::std_specs::hash::group_hash_axioms;

        self.streams.entry(stream_id).or_insert(StreamPerformance::new(stream_id))
    }

    /// Record frame processing for a stream, creating its tracker when needed.
    pub fn record_frame(
        &mut self,
        stream_id: u64,
        upload_bytes: u64,
        frame_time: Duration,
        is_zero_copy: bool,
    )
        requires
            can_record(stream_or_fresh(old(self).trackers(), stream_id), upload_bytes),
            old(self).total_frames() < u64::MAX,
            old(self).total_bytes() + upload_bytes <= u64::MAX,
        ensures
            final(self).trackers().contains_key(stream_id),
            final(self).trackers() == old(self).trackers().insert(
                stream_id,
                final(self).trackers()[stream_id],
            ),
            final(self).trackers()[stream_id]@ == counters_after_frame(
                stream_or_fresh(old(self).trackers(), stream_id),
                upload_bytes as nat,
                duration_nanos(frame_time) as nat,
                is_zero_copy,
            ),
            final(self).total_frames() == old(self).total_frames() + 1,
            final(self).total_bytes() == old(self).total_bytes() + upload_bytes,
            final(self).started() == old(self).started(),
    {
        let stream = self.get_stream(stream_id);
        stream.record_frame(upload_bytes, frame_time, is_zero_copy);
        self.total_frames_processed = self.total_frames_processed + 1;
        self.total_upload_bytes = self.total_upload_bytes + upload_bytes;
    }

    /// Clear every stream and counter and restart the runtime clock.
    pub fn reset(&mut self)
        ensures
            final(self).trackers() == Map::<u64, StreamPerformance>::empty(),
            final(self).total_frames() == 0,
            final(self).total_bytes() == 0,
    {
        self.streams.clear();
        self.global_start = instant_now();
        self.total_frames_processed = 0;
        self.total_upload_bytes = 0;
    }

    /// The per-stream trackers.
    pub fn streams(&self) -> (m: &HashMap<u64, StreamPerformance>)
        ensures
            m@ == self.trackers(),
    {
        &self.streams
    }

    /// When the monitor started (or was last reset).
    pub fn global_start(&self) -> (start: Instant)
        ensures
            start == self.started(),
    {
        self.global_start
    }

    /// Frames recorded over all streams.
    pub fn total_frames_processed(&self) -> (n: u64)
        ensures
            n == self.total_frames(),
    {
        self.total_frames_processed
    }

    /// Bytes uploaded over all streams.
    pub fn total_upload_bytes(&self) -> (n: u64)
        ensures
            n == self.total_bytes(),
    {
        self.total_upload_bytes
    }

    /// The number of streams being tracked.
    pub fn active_streams(&self) -> (n: usize)
        ensures
            n == self.trackers().len(),
    {
        broadcast use vstd::std_specs::hash::group_hash_axioms;

        self.streams.len()
    }

    /// The number of streams in zero-copy mode.
    pub fn zero_copy_streams(&self) -> (n: usize)
        ensures
            n == zero_copy_ids(self.trackers()).len(),
    {
        broadcast use vstd::std_specs::hash::group_hash_axioms;
        broadcast use vstd::set::group_set_axioms;

        let ghost m = self.streams@;
        let ghost p = |k: u64| zero_copy_mode(m[k]@);
        let ghost mut seen: Set<u64> = Set::empty();
        let total = self.streams.len();
        assert(Set::<u64>::empty().filter(p) =~= Set::<u64>::empty());
        let mut count: usize = 0;
        for entry in it: self.streams.iter()
            invariant
                m == self.streams@,
                p == (|k: u64| zero_copy_mode(m[k]@)),
                m.dom().len() == total,
                it.seq().len() == m.dom().len(),
                it.seq().no_duplicates(),
                forall|i: int|
                    0 <= i < it.seq().len() ==> m.contains_key(*(#[trigger] it.seq()[i]).0)
                        && m[*it.seq()[i].0] == *it.seq()[i].1,
                forall|k: u64| #[trigger] m.contains_key(k) ==> it.seq().contains((&k, &m[k])),
                seen.finite(),
                forall|x: u64|
                    #[trigger] seen.contains(x) <==> exists|j: int|
                        0 <= j < it.index() && *it.seq()[j].0 == x,
                count == seen.filter(p).len(),
                count <= it.index(),
                it.index() == it.seq().len() ==> seen =~= m.dom(),
        {
            let ghost k = *entry.0;
            assert(it.seq()[it.index() as int] == entry);
            assert(m[k] == *entry.1);
            proof {
                if seen.contains(k) {
                    let j = choose|j: int| 0 <= j < it.index() && *it.seq()[j].0 == k;
                    assert(it.seq()[j] == it.seq()[it.index() as int]);
                }
                seen.lemma_len_filter(p);
            }
            let ghost before = seen;
            if entry.1.is_zero_copy_mode() {
                count = count + 1;
                proof {
                    assert(p(k));
                    assert(before.insert(k).filter(p) =~= before.filter(p).insert(k));
                }
            } else {
                proof {
                    assert(!p(k));
                    assert(before.insert(k).filter(p) =~= before.filter(p));
                }
            }
            proof {
                seen = before.insert(k);
            }
            assert forall|x: u64|
                m.contains_key(x) && it.index() + 1 == it.seq().len() implies #[trigger] seen.contains(
                x,
            ) by {
                assert(it.seq().contains((&x, &m[x])));
                let j = choose|j: int| 0 <= j < it.seq().len() && it.seq()[j] == (&x, &m[x]);
                assert(*it.seq()[j].0 == x);
            }
        }
        proof {
            assert(zero_copy_ids(m) =~= seen.filter(p));
        }
        count
    }

    /// Whether the system runs fully zero-copy: there is at least one stream,
    /// every stream is in zero-copy mode, and the average upload over all
    /// frames stays under 1 KiB.
    pub fn is_optimal_zero_copy(&self) -> (b: bool)
        ensures
            b == (self.trackers().len() > 0 && (forall|k: u64|
                #[trigger] self.trackers().contains_key(k) ==> zero_copy_mode(
                    self.trackers()[k]@,
                )) && zero_copy_average(self.total_bytes(), self.total_frames())),
    {
        broadcast use vstd::std_specs::hash::group_hash_axioms;

        if self.streams.len() == 0 {
            return false;
        }
        let ghost m = self.streams@;
        let mut all_zero_copy = true;
        for entry in it: self.streams.iter()
            invariant
                m == self.streams@,
                forall|i: int|
                    0 <= i < it.seq().len() ==> m.contains_key(*(#[trigger] it.seq()[i]).0) && m[*it.seq()[i].0]
                        == *it.seq()[i].1,
                forall|k: u64| #[trigger] m.contains_key(k) ==> it.seq().contains((&k, &m[k])),
                all_zero_copy == (forall|i: int|
                    0 <= i < it.index() ==> zero_copy_mode((#[trigger] it.seq()[i]).1@)),
        {
            if !entry.1.is_zero_copy_mode() {
                all_zero_copy = false;
            }
        }
        if !all_zero_copy {
            return false;
        }
        let frames = self.total_frames_processed as u128;
        let limit: u128 = ZERO_COPY_BYTES_PER_FRAME as u128;
        assert(limit * frames <= 1024 * u64::MAX) by (nonlinear_arith)
            requires
                limit == 1024,
                frames <= u64::MAX,
        ;
        frames == 0 || (self.total_upload_bytes as u128) < limit * frames
    }
}

} // verus!

verus! {

/// Law: the moving average of frame times stays between the previous average
/// and the new frame time.
pub proof fn law_smoothing_between(avg: nat, frame_time: nat)
    ensures
        smoothed_frame_time(avg, frame_time) >= (if avg <= frame_time { avg } else { frame_time }),
        smoothed_frame_time(avg, frame_time) <= (if avg <= frame_time { frame_time } else { avg }),
{
    let lo: int = if avg <= frame_time { avg as int } else { frame_time as int };
    let hi: int = if avg <= frame_time { frame_time as int } else { avg as int };
    let w: int = 9 * (avg as int) + (frame_time as int);
    assert(10 * lo <= w <= 10 * hi);
    vstd::arithmetic::div_mod::lemma_div_is_ordered(10 * lo, w, 10);
    vstd::arithmetic::div_mod::lemma_div_is_ordered(w, 10 * hi, 10);
    vstd::arithmetic::div_mod::lemma_div_multiples_vanish(lo, 10);
    vstd::arithmetic::div_mod::lemma_div_multiples_vanish(hi, 10);
}

/// Law: a tracker's average frame time never exceeds the longest frame time
/// it has seen; a new tracker starts with the two equal, and recording a
/// frame keeps the average at or below the maximum.
pub proof fn law_average_within_maximum(c: StreamCounters, bytes: nat, frame_time: nat, z: bool)
    requires
        c.avg_frame_time_ns <= c.max_frame_time_ns,
    ensures
        counters_after_frame(c, bytes, frame_time, z).avg_frame_time_ns <= counters_after_frame(
            c,
            bytes,
            frame_time,
            z,
        ).max_frame_time_ns,
        fresh_counters(c.stream_id).avg_frame_time_ns <= fresh_counters(
            c.stream_id,
        ).max_frame_time_ns,
{
    law_smoothing_between(c.avg_frame_time_ns, frame_time);
}

/// Law: a stream whose average upload is under 1 KiB per frame keeps it so
/// while each frame it records uploads less than 1 KiB.
pub proof fn law_small_uploads_keep_average(
    c: StreamCounters,
    bytes: nat,
    frame_time: nat,
    z: bool,
)
    requires
        zero_copy_average(c.total_bytes_uploaded, c.frames_processed),
        c.frames_processed == 0 ==> c.total_bytes_uploaded == 0,
        bytes < ZERO_COPY_BYTES_PER_FRAME,
    ensures
        zero_copy_average(
            counters_after_frame(c, bytes, frame_time, z).total_bytes_uploaded,
            counters_after_frame(c, bytes, frame_time, z).frames_processed,
        ),
{
    let f = c.frames_processed;
    assert(1024 * (f + 1) == 1024 * f + 1024) by (nonlinear_arith);
}

/// Law: a zero-copy stream stays zero-copy while its frames upload nothing.
pub proof fn law_free_frames_keep_zero_copy(c: StreamCounters, frame_time: nat, z: bool)
    requires
        zero_copy_mode(c),
        c.frames_processed == 0 ==> c.total_bytes_uploaded == 0,
    ensures
        zero_copy_mode(counters_after_frame(c, 0, frame_time, z)),
{
    let f = c.frames_processed;
    assert(1024 * (f + 1) == 1024 * f + 1024) by (nonlinear_arith);
}

/// Law: recording a frame counts exactly one more frame and exactly its bytes.
pub proof fn law_record_counts_frame(c: StreamCounters, bytes: nat, frame_time: nat, z: bool)
    ensures
        counters_after_frame(c, bytes, frame_time, z).frames_processed == c.frames_processed + 1,
        counters_after_frame(c, bytes, frame_time, z).total_bytes_uploaded
            == c.total_bytes_uploaded + bytes,
        counters_after_frame(c, bytes, frame_time, z).stream_id == c.stream_id,
{
}

/// Law: a frame that uploaded bytes counts as one more upload operation and a
/// frame that uploaded nothing does not, whether or not it was flagged
/// zero-copy; the flag has no say in the upload count.
pub proof fn law_uploads_count_frames_with_bytes(c: StreamCounters, bytes: nat, frame_time: nat)
    ensures
        counters_after_frame(c, bytes, frame_time, true).upload_operations
            == counters_after_frame(c, bytes, frame_time, false).upload_operations,
        bytes > 0 ==> counters_after_frame(c, bytes, frame_time, true).upload_operations
            == c.upload_operations + 1,
        bytes == 0 ==> counters_after_frame(c, bytes, frame_time, true).upload_operations
            == c.upload_operations,
{
}

} // verus!

verus! {

/// Law: the system runs fully zero-copy exactly when it tracks some stream
/// and every tracked stream is in zero-copy mode — that is, when the count of
/// zero-copy streams equals the (nonzero) count of streams.
pub proof fn law_fully_zero_copy_by_count(streams: Map<u64, StreamPerformance>)
    requires
        streams.dom().finite(),
    ensures
        (zero_copy_ids(streams).len() == streams.len() && streams.len() > 0) <==> (streams.len()
            > 0 && forall|k: u64| #[trigger]
            streams.contains_key(k) ==> zero_copy_mode(streams[k]@)),
{
    let zc = zero_copy_ids(streams);
    let dom = streams.dom();
    assert(zc.subset_of(dom));
    vstd::set_lib::lemma_len_subset(zc, dom);
    if forall|k: u64| #[trigger] streams.contains_key(k) ==> zero_copy_mode(streams[k]@) {
        assert(zc =~= dom);
    }
    if zc.len() == streams.len() {
        vstd::set_lib::lemma_subset_equality(zc, dom);
        assert forall|k: u64| #[trigger] streams.contains_key(k) implies zero_copy_mode(
            streams[k]@,
        ) by {
            assert(zc.contains(k));
        }
    }
}

} // verus!

verus! {

/// The bytes uploaded by the frames of `records`, each record a stream id and
/// the bytes its frame uploaded.
pub open spec fn recorded_bytes(records: Seq<(u64, u64)>) -> nat
    decreases records.len(),
{
    if records.len() == 0 {
        0
    } else {
        recorded_bytes(records.drop_last()) + records.last().1 as nat
    }
}

/// The streams that `records` recorded frames for.
pub open spec fn recorded_streams(records: Seq<(u64, u64)>) -> Set<u64> {
    Set::new(|id: u64| exists|i: int| 0 <= i < records.len() && #[trigger] records[i].0 == id)
}

/// `after` is `before` with one more frame of `record` (a stream id and its
/// upload bytes) recorded, as `PerformanceMonitor::record_frame` leaves it.
pub open spec fn records_frame(
    before: PerformanceMonitor,
    after: PerformanceMonitor,
    record: (u64, u64),
) -> bool {
    &&& after.total_frames() == before.total_frames() + 1
    &&& after.total_bytes() == before.total_bytes() + record.1
    &&& after.trackers() == before.trackers().insert(record.0, after.trackers()[record.0])
}

/// Law: after a run of recorded frames on a new (or reset) monitor, the frame
/// total is the number of frames recorded, the byte total is the sum of their
/// upload bytes, and the tracked streams are exactly those a frame was
/// recorded for.
pub proof fn law_totals_follow_records(history: Seq<PerformanceMonitor>, records: Seq<(u64, u64)>)
    requires
        history.len() == records.len() + 1,
        history[0].total_frames() == 0,
        history[0].total_bytes() == 0,
        history[0].trackers() == Map::<u64, StreamPerformance>::empty(),
        forall|i: int|
            0 <= i < records.len() ==> records_frame(history[i], history[i + 1], #[trigger] records[i]),
    ensures
        history.last().total_frames() == records.len(),
        history.last().total_bytes() == recorded_bytes(records),
        history.last().trackers().dom() == recorded_streams(records),
    decreases records.len(),
{
    if records.len() == 0 {
        assert(recorded_streams(records) =~= Set::<u64>::empty());
    } else {
        let n = records.len() - 1;
        let hs = history.drop_last();
        let rs = records.drop_last();
        assert forall|i: int| 0 <= i < rs.len() implies records_frame(
            hs[i],
            hs[i + 1],
            #[trigger] rs[i],
        ) by {
            assert(rs[i] == records[i]);
        }
        law_totals_follow_records(hs, rs);
        assert(records_frame(history[n], history[n + 1], records[n]));
        assert(hs.last() == history[n]);
        assert forall|id: u64| #[trigger]
            recorded_streams(records).contains(id) == recorded_streams(rs).insert(
            records[n].0,
        ).contains(id) by {
            if recorded_streams(records).contains(id) {
                let i = choose|i: int| 0 <= i < records.len() && #[trigger] records[i].0 == id;
                if i < n {
                    assert(rs[i].0 == id);
                }
            }
            if recorded_streams(rs).contains(id) {
                let i = choose|i: int| 0 <= i < rs.len() && #[trigger] rs[i].0 == id;
                assert(records[i].0 == id);
            }
        }
        assert(history.last().trackers().dom() =~= recorded_streams(records));
    }
}

/// Law: looking a stream up adds a tracker only when the stream had none:
/// the number of streams grows by one for a new stream and stays the same for
/// a known one, and a new stream's tracker starts fresh under that stream's id.
pub proof fn law_get_stream_adds_at_most_one(
    streams: Map<u64, StreamPerformance>,
    stream_id: u64,
    tracker: StreamPerformance,
)
    requires
        streams.dom().finite(),
    ensures
        streams.insert(stream_id, tracker).len() == (if streams.contains_key(stream_id) {
            streams.len()
        } else {
            streams.len() + 1
        }),
        !streams.contains_key(stream_id) ==> stream_or_fresh(streams, stream_id) == fresh_counters(
            stream_id,
        ) && stream_or_fresh(streams, stream_id).stream_id == stream_id,
{
    assert(streams.insert(stream_id, tracker).dom() =~= streams.dom().insert(stream_id));
}

} // verus!
