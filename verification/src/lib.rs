//! Countdown duration library: decomposes a non-negative span of whole
//! seconds into weeks, days, hours, minutes and seconds, and renders the
//! decomposition as natural-language text, in a full mode and in a mode
//! that omits zero-valued units.

pub mod breakdown;
pub mod digits;
pub mod render;
pub mod span;
