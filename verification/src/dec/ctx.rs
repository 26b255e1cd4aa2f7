//! Decoder context.
use vstd::prelude::*;
use crate::dec::bsr::EvcdBsr;
use crate::dec::sbac::EvcdSbac;

verus! {

/// Tag that marks an initialised decoder context ("EVYD").
pub const EVCD_MAGIC_CODE: u32 = 0x45565944;

/// State of the decoder between calls.
pub struct EvcdCtx {
    /// `EVCD_MAGIC_CODE` once the context is set up
    pub magic: u32,
    /// reader of the current bitstream
    pub bs: EvcdBsr,
    /// arithmetic decoder of the current slice
    pub sbac_dec: EvcdSbac,
}

impl Default for EvcdCtx {
    /// A context with no magic tag, an empty bitstream and a zeroed
    /// arithmetic decoder.
    fn default() -> (c: Self)
        ensures
            c.magic == 0,
            c.bs.bytes().len() == 0,
            c.bs.pos() == 0,
            c.sbac_dec.range == 0,
            c.sbac_dec.value == 0,
            c.sbac_dec.ctx.all_models_are(0),
    {
        EvcdCtx { magic: 0, bs: EvcdBsr::default(), sbac_dec: EvcdSbac::default() }
    }
}

} // verus!
