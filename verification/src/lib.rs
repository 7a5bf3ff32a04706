//! Bridge between push-style frame producers and a pull-driven video sink.
//!
//! The library packs raw pixel frames into a sink's plane layout, stamps each
//! buffer with a presentation time derived from a frame counter and the
//! configured framerate, and schedules bursts of frames on the sink's demand,
//! signalling end-of-stream exactly once when a producer runs dry.

mod bridge;
mod format;
mod frame;
mod outcome;
mod packer;
mod scheduler;
mod settings;
mod source;
mod timing;

pub use bridge::handle_message;
pub use bridge::message_action;
pub use bridge::MessageAction;
pub use bridge::PipelineMessage;
pub use bridge::RunError;
pub use format::bytes_per_pixel;
pub use format::channel_role;
pub use format::pixel_width;
pub use format::role_at;
pub use format::role_offset;
pub use format::source_offset;
pub use format::ChannelRole;
pub use format::PixelFormat;
pub use frame::Frame;
pub use frame::FrameView;
pub use outcome::normalize;
pub use outcome::normalize_optional;
pub use outcome::normalized;
pub use outcome::resolve_production_failure;
pub use outcome::resolved_production;
pub use outcome::DataGenReturn;
pub use outcome::FailurePolicy;
pub use outcome::Outcome;
pub use packer::complete_pixels;
pub use packer::lemma_padding_untouched;
pub use packer::lemma_pixel_placed;
pub use packer::pack_frame;
pub use packer::packed_byte;
pub use packer::packed_plane;
pub use packer::packed_subpixel;
pub use packer::PlaneLayout;
pub use scheduler::packed_buffer_for;
pub use scheduler::packed_frame_bytes;
pub use scheduler::zero_plane;
pub use scheduler::BurstOutput;
pub use scheduler::BurstScheduler;
pub use scheduler::PushedBuffer;
pub use scheduler::RunOutput;
pub use settings::VideoSettings;
pub use source::ChannelSource;
pub use source::CollectionSource;
pub use source::FrameSource;
pub use timing::pts_millis;
pub use timing::pts_ms;
