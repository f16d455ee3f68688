use mvlc::badges::{
    basic_color_label, color_badge_state, decode_badge, performance_badge_state, render_badge,
    transfer_badge,
};
use mvlc::canvas::TransformHandle;
use mvlc::telemetry::PipelineStage;
use mvlc::{BadgeState, RuntimeBadge, StreamId};

#[test]
fn badge_colours_and_symbols() {
    assert_eq!(BadgeState::Optimal.rgb(), (34, 197, 94));
    assert_eq!(BadgeState::Partial.rgb(), (251, 191, 36));
    assert_eq!(BadgeState::Fallback.rgb(), (239, 68, 68));
    assert_eq!(BadgeState::Optimal.text(), "\u{2713}");
    assert_eq!(BadgeState::Partial.text(), "\u{26a0}");
    assert_eq!(BadgeState::Fallback.text(), "\u{2717}");
}

#[test]
fn runtime_badge_new() {
    let b = RuntimeBadge::new("Decode".to_string(), "SW".to_string(), BadgeState::Fallback);
    assert_eq!(b.name, "Decode");
    assert_eq!(b.value, "SW");
    assert_eq!(b.state, BadgeState::Fallback);
}

#[test]
fn decode_badges() {
    assert_eq!(decode_badge(true, true), ("VA-API (Ready)", BadgeState::Optimal));
    assert_eq!(decode_badge(true, false), ("SW (File Ready)", BadgeState::Partial));
    assert_eq!(decode_badge(false, true), ("VA-API", BadgeState::Optimal));
    assert_eq!(decode_badge(false, false), ("SW", BadgeState::Fallback));
}

#[test]
fn transfer_and_render_badges() {
    assert_eq!(transfer_badge(true), ("Zero-Copy(DMA-BUF)", BadgeState::Optimal));
    assert_eq!(transfer_badge(false), ("Staged(Host->GPU)", BadgeState::Partial));
    assert_eq!(render_badge(true), ("Vulkan(DMA-BUF)", BadgeState::Optimal));
    assert_eq!(render_badge(false), ("Placeholder", BadgeState::Partial));
}

#[test]
fn color_badges() {
    assert_eq!(color_badge_state(Some(true)), BadgeState::Optimal);
    assert_eq!(color_badge_state(Some(false)), BadgeState::Partial);
    assert_eq!(color_badge_state(None), BadgeState::Fallback);
    assert_eq!(basic_color_label(), "Basic");
}

#[test]
fn performance_badges() {
    assert_eq!(performance_badge_state(true, 1000, 2, 2), BadgeState::Optimal);
    assert_eq!(performance_badge_state(true, 4096, 2, 2), BadgeState::Partial);
    assert_eq!(performance_badge_state(false, 0, 10, 1), BadgeState::Partial);
    assert_eq!(performance_badge_state(false, 0, 10, 0), BadgeState::Fallback);
    assert_eq!(performance_badge_state(true, 0, 0, 1), BadgeState::Optimal);
}

#[test]
fn identifiers_and_enums() {
    assert_eq!(StreamId::new(8), StreamId(8));
    assert_ne!(PipelineStage::Decode, PipelineStage::Present);
    assert_ne!(TransformHandle::Rotate, TransformHandle::ScaleTopLeft);
}
