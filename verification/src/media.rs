//! Decisions of the media backend: capability probes, decode output size and
//! rate, frame sizes and presentation timestamps.

use crate::text::is_named;
use vstd::prelude::*;

verus! {

/// Returns whether VA-API hardware decoding is available (never, in the FFmpeg backend).
pub fn check_vaapi_support() -> (available: bool)
    ensures
        !available,
{
    false
}

/// Returns whether DMA-BUF zero-copy transfer is available (never, in the FFmpeg backend).
pub fn check_dmabuf_support() -> (available: bool)
    ensures
        !available,
{
    false
}

/// A DMA-BUF file descriptor and the size of the memory it refers to.
#[derive(Debug, Clone, PartialEq, Eq, Structural)]
pub struct DmaBufInfo {
    pub fd: i32,
    pub size: usize,
}

/// The largest decode width when none is configured.
pub const DEFAULT_MAX_DECODE_WIDTH: u32 = 640;

/// The highest frame rate the decoder is asked for.
pub const MAX_DECODE_FPS: u64 = 30;

/// `x` rounded down to an even number.
pub open spec fn even_floor(x: int) -> int {
    x - x % 2
}

/// `x`, but at least 2, rounded down to an even number.
pub open spec fn even_at_least_two(x: int) -> int {
    even_floor(if x < 2 { 2 } else { x })
}

/// The size decoded frames are scaled to: sources no wider than `max_width`
/// keep their size, wider ones are scaled down to `max_width` with the aspect
/// ratio kept (height rounded down); both sides become even and at least 2.
pub open spec fn spec_scaled_dimensions(width: u32, height: u32, max_width: u32) -> (int, int) {
    if width <= max_width {
        (even_at_least_two(width as int), even_at_least_two(height as int))
    } else {
        (
            even_at_least_two(max_width as int),
            even_at_least_two(height as int * max_width as int / width as int),
        )
    }
}

proof fn lemma_clear_low_bit(x: u32)
    ensures
        x & !1u32 == x - x % 2,
{
    assert(x & !1u32 == x - x % 2) by (bit_vector);
}

/// `x`, but at least 2, rounded down to an even number.
fn even_at_least_two_u32(x: u32) -> (r: u32)
    ensures
        r == even_at_least_two(x as int),
{
    let at_least_two = if x < 2 {
        2
    } else {
        x
    };
    proof {
        lemma_clear_low_bit(at_least_two);
    }
    at_least_two & !1
}

/// The size a `width` x `height` source is decoded at when frames may be at most
/// `max_width` wide.
pub fn scaled_dimensions(width: u32, height: u32, max_width: u32) -> (size: (u32, u32))
    ensures
        (size.0 as int, size.1 as int) == spec_scaled_dimensions(width, height, max_width),
{
    if width <= max_width {
        return (even_at_least_two_u32(width), even_at_least_two_u32(height));
    }
    assert(height as int * max_width as int <= u32::MAX as int * u32::MAX as int) by (nonlinear_arith)
        requires
            height <= u32::MAX,
            max_width <= u32::MAX,
    ;
    let product = (height as u64) * (max_width as u64);
    let scaled = product / (width as u64);
    assert(scaled <= height) by (nonlinear_arith)
        requires
            product == height as int * max_width as int,
            scaled == product as int / width as int,
            max_width < width,
    ;
    (even_at_least_two_u32(max_width), even_at_least_two_u32(scaled as u32))
}

/// The frame rate the decoder runs at: the source rate, capped at 30 and at least 1.
pub fn decode_fps(source_fps: u64) -> (fps: u64)
    ensures
        fps == (if source_fps > MAX_DECODE_FPS {
            MAX_DECODE_FPS
        } else if source_fps < 1 {
            1
        } else {
            source_fps
        }),
        1 <= fps <= MAX_DECODE_FPS,
{
    let capped = if source_fps < MAX_DECODE_FPS {
        source_fps
    } else {
        MAX_DECODE_FPS
    };
    if capped > 1 {
        capped
    } else {
        1
    }
}

/// The number of bytes of an RGBA frame of the given size.
pub fn rgba_frame_size(width: u32, height: u32) -> (bytes: usize)
    requires
        width as int * height as int * 4 <= usize::MAX,
    ensures
        bytes == width as int * height as int * 4,
{
    assert(width as int * height as int <= width as int * height as int * 4) by (nonlinear_arith);
    width as usize * height as usize * 4
}

/// The presentation timestamp, in nanoseconds, of frame `frame_no` at `fps` frames per second.
pub fn frame_pts(frame_no: u64, fps: u64) -> (pts: u64)
    requires
        fps > 0,
        frame_no as int * 1_000_000_000 <= u64::MAX,
    ensures
        pts == frame_no as int * 1_000_000_000 / fps as int,
{
    frame_no * 1_000_000_000 / fps
}

/// What the frame reader does with the frame it has just read.
pub enum ReaderStep {
    /// Playback is paused: the frame is skipped.
    Skip,
    /// The frame is forwarded with this presentation timestamp, which also
    /// becomes the stream position.
    Forward { pts: u64 },
}

/// The reader's decision for frame `frame_no`: while paused frames are skipped,
/// while playing they carry their presentation timestamp. Either way the next
/// frame number is `frame_no + 1`.
pub fn reader_step(frame_no: u64, fps: u64, playing: bool) -> (step: ReaderStep)
    requires
        fps > 0,
        playing ==> frame_no as int * 1_000_000_000 <= u64::MAX,
    ensures
        !playing ==> step is Skip,
        playing ==> step == (ReaderStep::Forward {
            pts: (frame_no as int * 1_000_000_000 / fps as int) as u64,
        }),
{
    if !playing {
        ReaderStep::Skip
    } else {
        ReaderStep::Forward { pts: frame_pts(frame_no, fps) }
    }
}

/// Hardware-decoded and total stream counts of a media manager holding
/// `active` streams: the FFmpeg backend decodes none in hardware.
pub fn hardware_status(active: usize) -> (status: (usize, usize))
    ensures
        status == (0usize, active),
{
    (0, active)
}

} // verus!

verus! {

/// Law: decoded frames always have even sides of at least two pixels, and a
/// source wider than the limit is brought down to at most the limit.
pub proof fn law_scaled_dimensions_even(width: u32, height: u32, max_width: u32)
    ensures
        spec_scaled_dimensions(width, height, max_width).0 % 2 == 0,
        spec_scaled_dimensions(width, height, max_width).1 % 2 == 0,
        spec_scaled_dimensions(width, height, max_width).0 >= 2,
        spec_scaled_dimensions(width, height, max_width).1 >= 2,
        width > max_width >= 2 ==> spec_scaled_dimensions(width, height, max_width).0
            <= max_width,
        width <= max_width ==> spec_scaled_dimensions(width, height, max_width).0 <= (if width
            < 2 {
            2
        } else {
            width as int
        }),
{
}

/// Law: a source wider than the limit keeps its aspect ratio: the decoded
/// height `h` is even, at least 2, at most the exact scaled height
/// `height * max_width / width` (unless held at 2), and less than two pixels
/// below it. A source no wider than the limit keeps its size, rounded down to
/// even sides of at least 2.
pub proof fn law_scaled_dimensions_keep_aspect(width: u32, height: u32, max_width: u32)
    ensures
        width > max_width ==> ({
            let h = spec_scaled_dimensions(width, height, max_width).1;
            &&& h % 2 == 0
            &&& h >= 2
            &&& (h * width <= height * max_width || h == 2)
            &&& height * max_width < (h + 2) * width
        }),
        width <= max_width && width >= 2 ==> spec_scaled_dimensions(width, height, max_width).0
            <= width < spec_scaled_dimensions(width, height, max_width).0 + 2,
        width <= max_width && height >= 2 ==> spec_scaled_dimensions(width, height, max_width).1
            <= height < spec_scaled_dimensions(width, height, max_width).1 + 2,
{
    if width > max_width {
        let x = height as int * max_width as int;
        let w = width as int;
        let q = x / w;
        assert(w * q <= x < w * (q + 1)) by (nonlinear_arith)
            requires
                w > 0,
                q == x / w,
        ;
        let h = spec_scaled_dimensions(width, height, max_width).1;
        if q >= 2 {
            assert(h == q - q % 2);
            assert(q - 1 <= h <= q);
            assert(h * w <= q * w) by (nonlinear_arith)
                requires
                    h <= q,
                    w > 0,
            ;
            assert((q + 1) * w <= (h + 2) * w) by (nonlinear_arith)
                requires
                    q + 1 <= h + 2,
                    w > 0,
            ;
        } else {
            assert(h == 2);
            assert(w * (q + 1) <= 4 * w) by (nonlinear_arith)
                requires
                    q < 2,
                    w > 0,
            ;
        }
    }
}

} // verus!

verus! {

/// What `str::to_lowercase` makes of a string: each character replaced by its
/// Unicode lowercase mapping.
pub uninterp spec fn lowercase(s: Seq<char>) -> Seq<char>;

/// `str::to_lowercase`: the string's lowercase mapping, named by `lowercase`.
#[verifier::external_body]
fn to_lowercase(s: &str) -> (lower: String)
    ensures
        lower@ == lowercase(s@),
{
    s.to_lowercase()
}

/// The lowercase file extensions that are loaded as video layers.
pub open spec fn is_video_name(ext: Seq<char>) -> bool {
    ||| ext == "mp4"@
    ||| ext == "mkv"@
    ||| ext == "avi"@
    ||| ext == "mov"@
    ||| ext == "webm"@
    ||| ext == "m4v"@
}

/// Whether an already lowercased extension names a video container.
pub fn is_video_lowercase(lower: &String) -> (b: bool)
    ensures
        b == is_video_name(lower@),
{
    is_named(lower, "mp4") || is_named(lower, "mkv")
        || is_named(lower, "avi") || is_named(lower, "mov")
        || is_named(lower, "webm") || is_named(lower, "m4v")
}

/// Whether a dropped file's extension names a video container, in any case.
pub fn is_video_extension(ext: &str) -> (b: bool)
    ensures
        b == is_video_name(lowercase(ext@)),
{
    let lower = to_lowercase(ext);
    is_video_lowercase(&lower)
}

} // verus!
