//! Runtime badges: the toolbar's path-transparency indicators.

use crate::performance::zero_copy_average;
use vstd::prelude::*;

verus! {

/// Runtime badge states for visual path transparency.
#[derive(Debug, Clone, Copy, PartialEq, Eq, Structural)]
pub enum BadgeState {
    Optimal,
    Partial,
    Fallback,
}

/// The red, green and blue components of a badge state's colour:
/// green for the optimal path, yellow for a partial fallback, red for a full fallback.
pub open spec fn badge_rgb(state: BadgeState) -> (u8, u8, u8) {
    match state {
        BadgeState::Optimal => (34, 197, 94),
        BadgeState::Partial => (251, 191, 36),
        BadgeState::Fallback => (239, 68, 68),
    }
}

impl BadgeState {
    /// The colour of the badge as red, green and blue components.
    pub fn rgb(&self) -> (c: (u8, u8, u8))
        ensures
            c == badge_rgb(*self),
    {
        match self {
            BadgeState::Optimal => (34, 197, 94),
            BadgeState::Partial => (251, 191, 36),
            BadgeState::Fallback => (239, 68, 68),
        }
    }

    /// The symbol shown in front of the badge.
    pub fn text(&self) -> (s: &'static str)
        ensures
            *self == BadgeState::Optimal ==> s@ == "\u{2713}"@,
            *self == BadgeState::Partial ==> s@ == "\u{26a0}"@,
            *self == BadgeState::Fallback ==> s@ == "\u{2717}"@,
    {
        match self {
            BadgeState::Optimal => "\u{2713}",
            BadgeState::Partial => "\u{26a0}",
            BadgeState::Fallback => "\u{2717}",
        }
    }
}

/// Runtime badge information displayed in the UI toolbar.
#[derive(Debug, Clone)]
pub struct RuntimeBadge {
    pub name: String,
    pub value: String,
    pub state: BadgeState,
}

impl RuntimeBadge {
    /// A badge with the given name, value and state.
    pub fn new(name: String, value: String, state: BadgeState) -> (b: Self)
        ensures
            b.name == name,
            b.value == value,
            b.state == state,
    {
        RuntimeBadge { name, value, state }
    }
}

/// The decode badge: VA-API when the driver offers it, software otherwise;
/// once a video is loaded the software path counts as a partial fallback.
pub fn decode_badge(has_video_files: bool, vaapi_available: bool) -> (badge: (&'static str, BadgeState))
    ensures
        has_video_files && vaapi_available ==> badge.0@ == "VA-API (Ready)"@ && badge.1
            == BadgeState::Optimal,
        has_video_files && !vaapi_available ==> badge.0@ == "SW (File Ready)"@ && badge.1
            == BadgeState::Partial,
        !has_video_files && vaapi_available ==> badge.0@ == "VA-API"@ && badge.1
            == BadgeState::Optimal,
        !has_video_files && !vaapi_available ==> badge.0@ == "SW"@ && badge.1
            == BadgeState::Fallback,
{
    if has_video_files {
        if vaapi_available {
            ("VA-API (Ready)", BadgeState::Optimal)
        } else {
            ("SW (File Ready)", BadgeState::Partial)
        }
    } else if vaapi_available {
        ("VA-API", BadgeState::Optimal)
    } else {
        ("SW", BadgeState::Fallback)
    }
}

/// The transfer badge: zero-copy DMA-BUF when available, staged host-to-GPU
/// copies otherwise.
pub fn transfer_badge(dmabuf_available: bool) -> (badge: (&'static str, BadgeState))
    ensures
        dmabuf_available ==> badge.0@ == "Zero-Copy(DMA-BUF)"@ && badge.1 == BadgeState::Optimal,
        !dmabuf_available ==> badge.0@ == "Staged(Host->GPU)"@ && badge.1 == BadgeState::Partial,
{
    if dmabuf_available {
        ("Zero-Copy(DMA-BUF)", BadgeState::Optimal)
    } else {
        ("Staged(Host->GPU)", BadgeState::Partial)
    }
}

/// The render badge: the Vulkan path once the renderer is ready, a
/// placeholder otherwise.
pub fn render_badge(renderer_ready: bool) -> (badge: (&'static str, BadgeState))
    ensures
        renderer_ready ==> badge.0@ == "Vulkan(DMA-BUF)"@ && badge.1 == BadgeState::Optimal,
        !renderer_ready ==> badge.0@ == "Placeholder"@ && badge.1 == BadgeState::Partial,
{
    if renderer_ready {
        ("Vulkan(DMA-BUF)", BadgeState::Optimal)
    } else {
        ("Placeholder", BadgeState::Partial)
    }
}

/// The state of the colour badge: optimal with HDR enabled, partial with a
/// colour pipeline but no HDR, and a fallback without any colour pipeline
/// (whose badge reads "Basic").
pub fn color_badge_state(pipeline_hdr: Option<bool>) -> (state: BadgeState)
    ensures
        state == match pipeline_hdr {
            Some(true) => BadgeState::Optimal,
            Some(false) => BadgeState::Partial,
            None => BadgeState::Fallback,
        },
{
    match pipeline_hdr {
        Some(true) => BadgeState::Optimal,
        Some(false) => BadgeState::Partial,
        None => BadgeState::Fallback,
    }
}

/// The label of the colour badge when no colour pipeline exists.
pub fn basic_color_label() -> (label: &'static str)
    ensures
        label@ == "Basic"@,
{
    "Basic"
}

/// The state of the performance badge: optimal when every stream is
/// zero-copy and the average upload stays under 1 KiB per frame, partial
/// when some stream is zero-copy, a fallback otherwise.
pub fn performance_badge_state(
    fully_zero_copy: bool,
    total_upload_bytes: u64,
    total_frames: u64,
    zero_copy_streams: usize,
) -> (state: BadgeState)
    ensures
        state == (if fully_zero_copy && zero_copy_average(
            total_upload_bytes as nat,
            total_frames as nat,
        ) {
            BadgeState::Optimal
        } else if zero_copy_streams > 0 {
            BadgeState::Partial
        } else {
            BadgeState::Fallback
        }),
{
    let frames = total_frames as u128;
    assert(1024 * frames <= 1024 * u64::MAX) by (nonlinear_arith)
        requires
            frames <= u64::MAX,
    ;
    let below = frames == 0 || (total_upload_bytes as u128) < 1024 * frames;
    if fully_zero_copy && below {
        BadgeState::Optimal
    } else if zero_copy_streams > 0 {
        BadgeState::Partial
    } else {
        BadgeState::Fallback
    }
}

} // verus!
