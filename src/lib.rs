//! Decode/playback engine core: bounded frame and sample buffers, the
//! prebuffer gate, frame pacing and the play/pause/stop state machine.
pub mod audio;
pub mod clock;
pub mod decoder;
pub mod frame;
pub mod pipeline;
pub mod plugin;
pub mod queue;
