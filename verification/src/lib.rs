//! Verified core of the MVLC video layered compositor: media time arithmetic,
//! layer ordering, A/V-sync decisions, performance counters, audio clock and
//! buffering, and the pure decisions of the media and render paths.

pub mod audio;
pub mod av_sync;
pub mod badges;
pub mod canvas;
pub mod color;
pub mod layer;
pub mod media;
pub mod performance;
pub mod render;
pub mod settings;
pub mod telemetry;
mod text;
pub mod time;
pub mod vulkan;

pub use badges::{BadgeState, RuntimeBadge};
pub use canvas::TransformHandle;
pub use layer::{Layer, LayerId, LayerStack};
pub use telemetry::{ConsoleLogger, PipelineStage, StreamId};
pub use time::{Clock, FrameTiming, SystemClock, Time, TimeRange};
pub use audio::{AudioConfig, AudioMasterClock, AudioMixer, AudioResampler, SampleQueue};
pub use performance::{PerformanceMonitor, StreamPerformance};
pub use media::{check_dmabuf_support, check_vaapi_support, DmaBufInfo};
pub use av_sync::{FrameDecision, FrameSchedule, ScheduledFrame};
pub use color::{ColorMatrix, ColorPrimaries, ColorTransfer};
pub use render::{LibplaceboBridge, RenderAction, RenderedUiFrame, Renderer, RendererError};
