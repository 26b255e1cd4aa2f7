//! The decoder: bitstream reader, arithmetic decoder and decoder context.
pub mod bsr;
pub mod ctx;
pub mod sbac;

pub use ctx::{EvcdCtx, EVCD_MAGIC_CODE};
