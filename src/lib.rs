//! Decoding of a two-line timing signal into raster rows.
//!
//! The `LEVEL` line lights spans of pixels inside a line, the `SYNC` line
//! marks line and frame boundaries. Edge handlers share lock-free state and
//! hand completed rows to a consumer through a channel of depth one.

pub mod laws;
pub mod line;
pub mod render;
pub mod shared;
pub mod timing;

pub use line::{blank_line, paint_span, LineBuffer};
pub use render::render_row;
pub use shared::{dispatched_row, FrameMessage, Level, LevelEdge, SharedTiming, SyncEdge};
pub use timing::{
    classify_pulse, pixel_index, low_threshold, Boundary, BIT_RATE, HERTZ, LINE_COUNT,
    LINE_WIDTH, NO_PENDING, TIME_BETWEEN_LOW_TYPES, US_CONV_FACTOR, VIS_WIDTH,
};
