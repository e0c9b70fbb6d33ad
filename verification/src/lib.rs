//! Pure numeric helpers for an audio visualization: packed RGB colors for
//! frequency bars and level meters, and sample-buffer sums. The host-facing
//! layer converts between these integer cores and its floating-point surface.

pub mod color;
pub mod samples;
