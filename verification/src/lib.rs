//! Entropy decoding core of an MPEG-5 EVC (Essential Video Coding) decoder:
//! the bitstream reader, the context-adaptive binary arithmetic decoder
//! (SBAC) and the public decoder types.
pub mod api;
pub mod com;
pub mod dec;
