//! Render-path decisions: frames handed between the UI bridge and the
//! renderer, row alignment of readback buffers, buffer growth, the simulated
//! upload cost of the placeholder renderer, and the libplacebo bridge.

use ash::vk;
use vstd::prelude::*;

verus! {

/// A UI frame rendered on the CPU side, as tightly packed RGBA rows.
pub struct RenderedUiFrame {
    pub pixels: Vec<u8>,
    pub width: u32,
    pub height: u32,
}

/// What the UI bridge asks the Vulkan renderer to do with a rendered UI frame.
pub enum RenderAction {
    /// Upload and present this CPU-side frame.
    CpuFrame(RenderedUiFrame),
    /// The backend has already presented the frame.
    PresentHandled,
    /// Nothing was rendered: present a plain frame.
    Skip,
}

/// `value` rounded up to the next multiple of `alignment`.
pub fn align_to(value: usize, alignment: usize) -> (aligned: usize)
    requires
        alignment > 0,
        value + alignment - 1 <= usize::MAX,
    ensures
        aligned == (value + alignment - 1) / (alignment as int) * alignment,
        aligned % alignment == 0,
        value <= aligned < value + alignment,
{
    let q = (value + (alignment - 1)) / alignment;
    assert(q * alignment <= value + alignment - 1) by (nonlinear_arith)
        requires
            alignment > 0,
            q == (value + alignment - 1) / (alignment as int),
    ;
    assert((q * alignment) % (alignment as int) == 0 && value <= q * alignment) by (nonlinear_arith)
        requires
            alignment > 0,
            q == (value + alignment - 1) / (alignment as int),
    ;
    q * alignment
}

/// The row layout of a readback buffer for a `width` x `height` RGBA image:
/// bytes per row, rows padded to `row_alignment`, and the buffer size.
pub struct ReadbackLayout {
    pub bytes_per_row: usize,
    pub padded_bytes_per_row: usize,
    pub buffer_size: usize,
}

/// The readback layout, or `None` when a row or the buffer does not fit in memory sizes.
pub open spec fn spec_readback_layout(width: u32, height: u32, row_alignment: usize) -> Option<
    (int, int, int),
> {
    let bytes_per_row = width as int * 4;
    let padded = (bytes_per_row + row_alignment - 1) / (row_alignment as int) * row_alignment;
    if bytes_per_row > u32::MAX || bytes_per_row + row_alignment > usize::MAX {
        None
    } else if padded * height > usize::MAX {
        None
    } else {
        Some((bytes_per_row, padded, padded * height))
    }
}

/// The layout of the readback buffer for a rendered UI surface.
pub fn readback_layout(width: u32, height: u32, row_alignment: usize) -> (layout: Option<
    ReadbackLayout,
>)
    requires
        row_alignment > 0,
    ensures
        match spec_readback_layout(width, height, row_alignment) {
            Some((b, p, s)) => layout matches Some(l) && l.bytes_per_row == b
                && l.padded_bytes_per_row == p && l.buffer_size == s,
            None => layout.is_none(),
        },
{
    let bytes_per_row = match width.checked_mul(4) {
        Some(b) => b as usize,
        None => return None,
    };
    if bytes_per_row > usize::MAX - row_alignment {
        return None;
    }
    let padded = align_to(bytes_per_row, row_alignment);
    match padded.checked_mul(height as usize) {
        Some(size) => Some(
            ReadbackLayout {
                bytes_per_row,
                padded_bytes_per_row: padded,
                buffer_size: size,
            },
        ),
        None => None,
    }
}

/// The bytes of a tightly packed `width` x `height` RGBA image, or `None` when
/// that does not fit in memory sizes.
pub fn checked_rgba_len(width: u32, height: u32) -> (len: Option<usize>)
    ensures
        width as int * height as int * 4 <= usize::MAX ==> len == Some(
            (width as int * height as int * 4) as usize,
        ),
        width as int * height as int * 4 > usize::MAX ==> len.is_none(),
{
    match (width as usize).checked_mul(height as usize) {
        Some(pixels) => {
            let r = pixels.checked_mul(4);
            r
        },
        None => {
            assert(width as int * height as int * 4 > usize::MAX) by (nonlinear_arith)
                requires
                    width as int * height as int > usize::MAX,
            ;
            None
        },
    }
}

/// Byte `c` of row `r` in a buffer whose rows are `row_len` bytes apart.
pub open spec fn at_row(s: Seq<u8>, row_len: int, r: int, c: int) -> u8 {
    s[r * row_len + c]
}

/// Copy the rows of an image out of a buffer whose rows are padded to
/// `padded_bytes_per_row`, keeping the first `bytes_per_row` bytes of each.
pub fn strip_row_padding(
    data: &[u8],
    bytes_per_row: usize,
    padded_bytes_per_row: usize,
    height: usize,
) -> (pixels: Vec<u8>)
    requires
        bytes_per_row <= padded_bytes_per_row,
        padded_bytes_per_row as int * height as int <= data@.len(),
    ensures
        pixels@.len() == bytes_per_row as int * height as int,
        forall|r: int, c: int|
            0 <= r < height && 0 <= c < bytes_per_row ==> #[trigger] at_row(
                pixels@,
                bytes_per_row as int,
                r,
                c,
            ) == at_row(data@, padded_bytes_per_row as int, r, c),
{
    let mut pixels: Vec<u8> = Vec::new();
    let total = data.len();
    let mut row: usize = 0;
    while row < height
        invariant
            row <= height,
            total == data@.len(),
            bytes_per_row <= padded_bytes_per_row,
            padded_bytes_per_row as int * height as int <= data@.len(),
            pixels@.len() == bytes_per_row as int * row as int,
            forall|r: int, c: int|
                0 <= r < row && 0 <= c < bytes_per_row ==> #[trigger] at_row(
                    pixels@,
                    bytes_per_row as int,
                    r,
                    c,
                ) == at_row(data@, padded_bytes_per_row as int, r, c),
        decreases height - row,
    {
        assert(padded_bytes_per_row as int * row as int + padded_bytes_per_row as int
            <= padded_bytes_per_row as int * height as int) by (nonlinear_arith)
            requires
                row < height,
        ;
        assert(row as int * bytes_per_row as int == bytes_per_row as int * row as int)
            by (nonlinear_arith);
        assert(row as int * padded_bytes_per_row as int == padded_bytes_per_row as int
            * row as int) by (nonlinear_arith);
        let start = padded_bytes_per_row * row;
        let ghost base: int = bytes_per_row as int * row as int;
        let ghost before = pixels@;
        let mut c: usize = 0;
        while c < bytes_per_row
            invariant
                c <= bytes_per_row,
                row < height,
                bytes_per_row <= padded_bytes_per_row,
                start == padded_bytes_per_row * row,
                start + padded_bytes_per_row <= data@.len(),
                total == data@.len(),
                base == bytes_per_row as int * row as int,
                row as int * bytes_per_row as int == base,
                pixels@.len() == base + c,
                pixels@.subrange(0, base) == before,
                forall|k: int|
                    0 <= k < c ==> #[trigger] at_row(pixels@, bytes_per_row as int, row as int, k)
                        == data@[start + k],
            decreases bytes_per_row - c,
        {
            let ghost prev = pixels@;
            pixels.push(data[start + c]);
            proof {
                assert forall|k: int| 0 <= k < c + 1 implies #[trigger] at_row(
                    pixels@,
                    bytes_per_row as int,
                    row as int,
                    k,
                ) == data@[start + k] by {
                    if k < c {
                        assert(at_row(prev, bytes_per_row as int, row as int, k) == data@[start
                            + k]);
                        assert(pixels@[base + k] == prev[base + k]);
                    }
                }
                assert(pixels@.subrange(0, base) =~= prev.subrange(0, base));
            }
            c = c + 1;
        }
        proof {
            assert forall|r: int, k: int|
                0 <= r < row + 1 && 0 <= k < bytes_per_row implies #[trigger] at_row(
                pixels@,
                bytes_per_row as int,
                r,
                k,
            ) == at_row(data@, padded_bytes_per_row as int, r, k) by {
                if r < row {
                    assert(r * bytes_per_row + k < bytes_per_row as int * row as int)
                        by (nonlinear_arith)
                        requires
                            r < row,
                            k < bytes_per_row,
                            0 <= k,
                            0 <= r,
                    ;
                    assert(0 <= r * bytes_per_row + k) by (nonlinear_arith)
                        requires
                            0 <= r,
                            0 <= k,
                            bytes_per_row >= 0,
                    ;
                    assert(pixels@[r * bytes_per_row + k] == before[r * bytes_per_row + k]);
                    assert(at_row(before, bytes_per_row as int, r, k) == at_row(
                        data@,
                        padded_bytes_per_row as int,
                        r,
                        k,
                    ));
                } else {
                    assert(at_row(pixels@, bytes_per_row as int, row as int, k) == data@[start
                        + k]);
                }
            }
            assert(pixels@.len() == bytes_per_row as int * (row + 1) as int) by (nonlinear_arith)
                requires
                    pixels@.len() == bytes_per_row as int * row as int + bytes_per_row,
            ;
        }
        row = row + 1;
    }
    pixels
}

/// `v` clamped into `[0, hi]`.
pub open spec fn clamp_to(v: i32, hi: i32) -> i32 {
    if v < 0 {
        0
    } else if v > hi {
        hi
    } else {
        v
    }
}

/// The scissor rectangle, as offset and extent, of the pixel rectangle from
/// `min` to `max` clipped to a `width` x `height` target; `None` when nothing
/// of it is left.
pub open spec fn spec_clip_scissor(
    min: (i32, i32),
    max: (i32, i32),
    width: i32,
    height: i32,
) -> Option<((i32, i32), (u32, u32))> {
    let x0 = clamp_to(min.0, width);
    let x1 = clamp_to(max.0, width);
    let y0 = clamp_to(min.1, height);
    let y1 = clamp_to(max.1, height);
    if x1 <= x0 || y1 <= y0 {
        None
    } else {
        Some(((x0, y0), ((x1 - x0) as u32, (y1 - y0) as u32)))
    }
}

/// Clip a pixel rectangle to the render target.
pub fn clip_scissor(min: (i32, i32), max: (i32, i32), width: i32, height: i32) -> (scissor: Option<
    ((i32, i32), (u32, u32)),
>)
    requires
        width >= 0,
        height >= 0,
    ensures
        scissor == spec_clip_scissor(min, max, width, height),
{
    let x0 = if min.0 < 0 { 0 } else if min.0 > width { width } else { min.0 };
    let x1 = if max.0 < 0 { 0 } else if max.0 > width { width } else { max.0 };
    let y0 = if min.1 < 0 { 0 } else if min.1 > height { height } else { min.1 };
    let y1 = if max.1 < 0 { 0 } else if max.1 > height { height } else { max.1 };
    if x1 <= x0 || y1 <= y0 {
        None
    } else {
        Some(((x0, y0), ((x1 - x0) as u32, (y1 - y0) as u32)))
    }
}

/// Whether an update of `size` pixels at `offset` lies inside a texture of
/// `texture` pixels.
pub fn update_in_bounds(offset: (u32, u32), size: (u32, u32), texture: (u32, u32)) -> (inside: bool)
    requires
        offset.0 + size.0 <= u32::MAX,
        offset.1 + size.1 <= u32::MAX,
    ensures
        inside == (offset.0 + size.0 <= texture.0 && offset.1 + size.1 <= texture.1),
{
    offset.0 + size.0 <= texture.0 && offset.1 + size.1 <= texture.1
}

/// Whether a host buffer of `capacity` bytes must be reallocated to hold
/// `required` bytes: only when something is to be written and it does not fit.
pub fn buffer_needs_growth(capacity: usize, required: usize) -> (grow: bool)
    ensures
        grow == (required != 0 && capacity < required),
{
    required != 0 && capacity < required
}

/// The upload bytes the placeholder renderer reports for a frame of the given
/// size: 10% of an RGBA frame above 1920x1080 in either side, 1% otherwise.
pub open spec fn spec_render_upload_bytes(width: u32, height: u32) -> int {
    let frame = width as int * height as int * 4;
    if width > 1920 || height > 1080 {
        frame / 10
    } else {
        frame / 100
    }
}

/// The upload bytes a rendered frame of the given size is reported to cost.
pub fn render_upload_bytes(width: u32, height: u32) -> (bytes: u64)
    requires
        width as int * height as int * 4 <= u32::MAX,
    ensures
        bytes == spec_render_upload_bytes(width, height),
{
    assert(width as int * height as int <= width as int * height as int * 4) by (nonlinear_arith);
    let frame = (width * height * 4) as u64;
    if width > 1920 || height > 1080 {
        frame / 10
    } else {
        frame / 100
    }
}

/// Why the renderer refused a request.
#[derive(Debug, Clone, Copy, PartialEq, Eq, Structural)]
pub enum RendererError {
    /// The renderer has not been initialized yet.
    NotInitialized,
}

impl RendererError {
    /// The message reported for the error.
    pub fn message(&self) -> (m: &'static str)
        ensures
            m@ == "Renderer not initialized"@,
    {
        "Renderer not initialized"
    }
}

/// The state of the compositing renderer: its output size and whether it
/// has been initialized. Frames can be rendered and the output resized only
/// once it is initialized.
pub struct Renderer {
    width: u32,
    height: u32,
    initialized: bool,
}

impl Renderer {
    /// The output width.
    pub closed spec fn out_width(&self) -> u32 {
        self.width
    }

    /// The output height.
    pub closed spec fn out_height(&self) -> u32 {
        self.height
    }

    /// Whether the renderer has been initialized.
    pub closed spec fn ready(&self) -> bool {
        self.initialized
    }

    /// A renderer of the given output size, not yet initialized.
    pub fn new(width: u32, height: u32) -> (r: Self)
        ensures
            r.out_width() == width,
            r.out_height() == height,
            !r.ready(),
    {
        Renderer { width, height, initialized: false }
    }

    /// Initialize the renderer.
    pub fn init(&mut self) -> (res: Result<(), RendererError>)
        ensures
            res is Ok,
            final(self).ready(),
            final(self).out_width() == old(self).out_width(),
            final(self).out_height() == old(self).out_height(),
    {
        self.initialized = true;
        Ok(())
    }

    /// Render a frame: the upload bytes it is reported to cost, or an error
    /// when the renderer is not initialized.
    pub fn render_frame(&self) -> (res: Result<u64, RendererError>)
        requires
            self.ready() ==> self.out_width() as int * self.out_height() as int * 4 <= u32::MAX,
        ensures
            self.ready() ==> res == Ok::<u64, RendererError>(
                spec_render_upload_bytes(self.out_width(), self.out_height()) as u64,
            ),
            !self.ready() ==> res == Err::<u64, RendererError>(RendererError::NotInitialized),
    {
        if !self.initialized {
            return Err(RendererError::NotInitialized);
        }
        Ok(render_upload_bytes(self.width, self.height))
    }

    /// Resize the output; refused before initialization.
    pub fn resize(&mut self, width: u32, height: u32) -> (res: Result<(), RendererError>)
        ensures
            old(self).ready() ==> res is Ok && final(self).out_width() == width
                && final(self).out_height() == height,
            !old(self).ready() ==> res == Err::<(), RendererError>(RendererError::NotInitialized)
                && final(self).out_width() == old(self).out_width() && final(self).out_height()
                == old(self).out_height(),
            final(self).ready() == old(self).ready(),
    {
        if !self.initialized {
            return Err(RendererError::NotInitialized);
        }
        self.width = width;
        self.height = height;
        Ok(())
    }

    /// The output size.
    pub fn size(&self) -> (s: (u32, u32))
        ensures
            s == (self.out_width(), self.out_height()),
    {
        (self.width, self.height)
    }

    /// Whether the renderer is ready to render.
    pub fn is_ready(&self) -> (b: bool)
        ensures
            b == self.ready(),
    {
        self.initialized
    }
}

impl Default for Renderer {
    /// A 1920x1080 renderer, not yet initialized.
    fn default() -> (r: Self)
        ensures
            r.out_width() == 1920,
            r.out_height() == 1080,
            !r.ready(),
    {
        Renderer::new(1920, 1080)
    }
}

/// Opaque libplacebo context handle.
#[allow(non_camel_case_types)]
pub struct pl_context {
    _private: [u8; 0],
}

/// Opaque libplacebo renderer handle.
#[allow(non_camel_case_types)]
pub struct pl_renderer {
    _private: [u8; 0],
}

/// `ash::Instance`, a loaded Vulkan instance; carried through without looking inside.
#[verifier::external_type_specification]
#[verifier::external_body]
pub struct ExAshInstance(ash::Instance);

/// `ash::Device`, a Vulkan logical device; carried through without looking inside.
#[verifier::external_type_specification]
#[verifier::external_body]
pub struct ExAshDevice(ash::Device);

/// `vk::PhysicalDevice`, a Vulkan physical device handle; carried through without looking inside.
#[verifier::external_type_specification]
#[verifier::external_body]
pub struct ExPhysicalDevice(vk::PhysicalDevice);

/// `vk::Queue`, a Vulkan queue handle; carried through without looking inside.
#[verifier::external_type_specification]
#[verifier::external_body]
pub struct ExQueue(vk::Queue);

/// `vk::Extent2D`, a Vulkan image extent; carried through without looking inside.
#[verifier::external_type_specification]
#[verifier::external_body]
pub struct ExExtent2D(vk::Extent2D);

/// `anyhow::Error`, an error reported by setup code; carried through without looking inside.
#[verifier::external_type_specification]
#[verifier::external_body]
pub struct ExAnyhowError(anyhow::Error);

/// Bridge to libplacebo on the Vulkan device. Built without libplacebo, the
/// bridge is never active and renders nothing.
pub struct LibplaceboBridge;

impl LibplaceboBridge {
    /// Set up the bridge on a Vulkan device; without libplacebo there is nothing to set up.
    pub fn new(
        _instance: &ash::Instance,
        _physical_device: vk::PhysicalDevice,
        _device: &ash::Device,
        _queue_family_index: u32,
        _queue: vk::Queue,
    ) -> (bridge: Result<Self, anyhow::Error>)
        ensures
            bridge.is_ok(),
    {
        Ok(LibplaceboBridge)
    }

    /// Whether libplacebo is driving the bridge.
    pub fn is_active(&self) -> (active: bool)
        ensures
            !active,
    {
        false
    }

    /// Render libplacebo's test quad at the given extent; without libplacebo there is none.
    pub fn render_test_quad(&mut self, _extent: vk::Extent2D) -> (quad: Result<
        Option<Vec<u8>>,
        anyhow::Error,
    >)
        ensures
            quad matches Ok(None),
    {
        Ok(None)
    }
}

} // verus!
