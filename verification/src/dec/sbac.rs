//! Context-adaptive binary arithmetic decoder (SBAC) of EVC.
use vstd::prelude::*;
use crate::api::SliceType;
use crate::com::{init_models, EvcSbacCtx, PROB_INIT, SBAC_CTX_MODEL};
use crate::dec::bsr::{
    advance, align_up, bit_at, bits_value, lemma_advance, lemma_advance_step, lemma_bit_at_is_bit,
    lemma_bits_value_bound, lemma_bits_value_first, lemma_bits_value_shift, next_pos, EvcdBsr,
};
use vstd::arithmetic::power2::{
    lemma2_to64, lemma_pow2_strictly_increases, lemma_pow2_unfold, pow2,
};

verus! {

/// Range of the arithmetic decoder right after initialisation.
pub const RANGE_INIT: u32 = 16384;

/// The range is renormalised (doubled) while it is below this value.
pub const RANGE_RENORM: u32 = 8192;

/// Smallest sub-range given to the least probable symbol.
pub const LPS_RANGE_MIN: u32 = 437;

/// Range, offset and bitstream position of the arithmetic decoder.
pub struct ArithState {
    pub range: int,
    pub value: int,
    pub pos: int,
}

/// Result of decoding one bin with an adaptive model.
pub struct BinDecoding {
    pub bin: int,
    pub model: int,
    pub next: ArithState,
}

/// The LPS probability state of a context model.
pub open spec fn state_of(model: int) -> int {
    model / 2
}

/// The most probable symbol of a context model.
pub open spec fn mps_of(model: int) -> int {
    model % 2
}

/// The sub-range given to the least probable symbol.
pub open spec fn lps_range(model: int, range: int) -> int {
    let p = state_of(model) * range / 512;
    if p < LPS_RANGE_MIN {
        LPS_RANGE_MIN as int
    } else {
        p
    }
}

/// The model after decoding its most probable symbol: the LPS probability
/// state shrinks by about 1/32, the MPS stays.
pub open spec fn model_after_mps(model: int) -> int {
    let s = state_of(model);
    2 * (s - (s + 16) / 32) + mps_of(model)
}

/// The model after decoding its least probable symbol: the LPS probability
/// state grows by about 1/32 of its complement; past one half the two symbols
/// swap roles.
pub open spec fn model_after_lps(model: int) -> int {
    let s = state_of(model) + (528 - state_of(model)) / 32;
    if s > 256 {
        2 * (512 - s) + (1 - mps_of(model))
    } else {
        2 * s + mps_of(model)
    }
}

/// Renormalisation: while the range is below `RANGE_RENORM`, double it and
/// shift one more bit of the stream into the 16-bit offset.
pub open spec fn renorm(range: int, value: int, data: Seq<u8>, pos: int) -> ArithState
    decreases (if range < RANGE_RENORM {
        RANGE_RENORM - range
    } else {
        0
    }),
{
    if 0 < range < RANGE_RENORM {
        renorm(2 * range, (2 * value + bit_at(data, pos)) % 65536, data, next_pos(data, pos))
    } else {
        ArithState { range, value, pos }
    }
}

/// Decoding one bin with context model `model` from the state
/// (`range`, `value`) at stream position `pos`.
pub open spec fn decode_bin_spec(range: int, value: int, model: int, data: Seq<u8>, pos: int) -> BinDecoding {
    let lps = lps_range(model, range);
    let rmps = range - lps;
    if value >= rmps {
        BinDecoding {
            bin: 1 - mps_of(model),
            model: model_after_lps(model),
            next: renorm(lps, value - rmps, data, pos),
        }
    } else {
        BinDecoding {
            bin: mps_of(model),
            model: model_after_mps(model),
            next: renorm(rmps, value, data, pos),
        }
    }
}

/// Every bit of `data` at positions `from..to` is 0.
pub open spec fn zero_bits(data: Seq<u8>, from: int, to: int) -> bool {
    forall|k: int| from <= k < to ==> #[trigger] bit_at(data, k) == 0
}

/// Whether decoding the terminating bin from (`range`, `value`) yields 1,
/// the end of the slice data.
pub open spec fn terminates(range: int, value: int) -> bool {
    value >= range - 1
}

/// Renormalisation brings a positive range into [`RANGE_RENORM`,
/// `RANGE_INIT`] and keeps the offset below the range.
pub proof fn lemma_renorm_bounds(range: int, value: int, data: Seq<u8>, pos: int)
    requires
        0 < range <= 16384,
        0 <= value < range,
    ensures
        8192 <= renorm(range, value, data, pos).range <= 16384,
        0 <= renorm(range, value, data, pos).value < renorm(range, value, data, pos).range,
        range < 16384 ==> renorm(range, value, data, pos).range < 16384,
    decreases (if range < 8192 {
        8192 - range
    } else {
        0
    }),
{
    if range < 8192 {
        lemma_bit_at_is_bit(data, pos);
        let v = 2 * value + bit_at(data, pos);
        assert(v % 65536 == v);
        lemma_renorm_bounds(2 * range, v, data, next_pos(data, pos));
    }
}

/// Law: from a well-formed decoder state and a model with LPS probability
/// at most 1, decoding a bin gives 0 or 1, a well-formed state and again
/// such a model.
pub proof fn law_decode_bin_keeps_invariant(
    range: int,
    value: int,
    model: int,
    data: Seq<u8>,
    pos: int,
)
    requires
        8192 <= range <= 16384,
        0 <= value < range,
        0 <= model,
        state_of(model) <= 512,
    ensures
        ({
            let d = decode_bin_spec(range, value, model, data, pos);
            &&& d.bin == 0 || d.bin == 1
            &&& 8192 <= d.next.range <= 16384
            &&& 0 <= d.next.value < d.next.range
            &&& 0 <= d.model
            &&& state_of(d.model) <= 512
        }),
{
    let s = state_of(model);
    assert(s * range <= 512 * range) by (nonlinear_arith)
        requires
            s <= 512,
            range >= 0,
    ;
    assert(s * range >= 0) by (nonlinear_arith)
        requires
            s >= 0,
            range >= 0,
    ;
    let lps = lps_range(model, range);
    let rmps = range - lps;
    if value >= rmps {
        lemma_renorm_bounds(lps, value - rmps, data, pos);
    } else {
        lemma_renorm_bounds(rmps, value, data, pos);
    }
}

/// Law: a model whose LPS probability is at most one half keeps it so,
/// whichever symbol is decoded.
pub proof fn law_lps_probability_stays_at_most_half(model: int)
    requires
        0 <= model,
        state_of(model) <= 256,
    ensures
        0 <= model_after_mps(model),
        state_of(model_after_mps(model)) <= 256,
        0 <= model_after_lps(model),
        state_of(model_after_lps(model)) <= 256,
{
}

/// Law: decoding the most probable symbol keeps it most probable and never
/// raises the probability of the other one.
pub proof fn law_mps_adaptation(model: int)
    requires
        0 <= model,
    ensures
        mps_of(model_after_mps(model)) == mps_of(model),
        0 <= state_of(model_after_mps(model)) <= state_of(model),
{
}

/// Law: decoding the least probable symbol raises its probability; once that
/// would pass one half, the two symbols swap roles and the probability of
/// the new least probable symbol is below one half.
pub proof fn law_lps_adaptation(model: int)
    requires
        0 <= model,
        state_of(model) <= 512,
    ensures
        ({
            let m = model_after_lps(model);
            ||| (mps_of(m) == mps_of(model) && state_of(model) <= state_of(m) <= 256)
            ||| (mps_of(m) == 1 - mps_of(model) && 0 <= state_of(m) < 256)
        }),
{
}

/// Law: in a well-formed state the terminating bin is 1 exactly when the
/// offset is the last value of the range.
pub proof fn law_terminating_bin(range: int, value: int)
    requires
        0 <= value < range,
    ensures
        terminates(range, value) <==> value == range - 1,
{
}

/// Law: from a well-formed state, decoding the terminating bin either gives
/// 0 and a well-formed state whose range is below `RANGE_INIT`, or gives 1
/// (end of slice) with the offset equal to the shrunk range; the decoder
/// then waits for the next `reset`.
pub proof fn law_terminating_bin_outcome(range: int, value: int, data: Seq<u8>, pos: int)
    requires
        8192 <= range <= 16384,
        0 <= value < range,
    ensures
        !terminates(range, value) ==> {
            let r = renorm(range - 1, value, data, pos);
            &&& 8192 <= r.range < 16384
            &&& 0 <= r.value < r.range
        },
        terminates(range, value) ==> value == range - 1,
{
    if !terminates(range, value) {
        lemma_renorm_bounds(range - 1, value, data, pos);
    }
}

/// Law: the LPS sub-range is `floor(s * range / 512)` for the model's state
/// `s = model / 2` (the LPS probability is `s / 512`), but never less than
/// 437.
pub proof fn law_lps_subrange(model: int, range: int)
    requires
        0 <= model,
        0 <= range,
    ensures
        lps_range(model, range) >= 437,
        (model / 2) * range < 512 * 437 ==> lps_range(model, range) == 437,
        (model / 2) * range >= 512 * 437 ==> 512 * lps_range(model, range) <= (model / 2) * range
            < 512 * lps_range(model, range) + 512,
{
    let s = model / 2;
    assert(s * range >= 0) by (nonlinear_arith)
        requires
            s >= 0,
            range >= 0,
    ;
}

/// Law: the bin decoded is the MPS exactly when the offset lies below the
/// range left after taking off the LPS sub-range; the model then adapts
/// towards the symbol that was decoded.
pub proof fn law_decode_bin_decision(range: int, value: int, model: int, data: Seq<u8>, pos: int)
    ensures
        ({
            let d = decode_bin_spec(range, value, model, data, pos);
            &&& (d.bin == model % 2) <==> value < range - lps_range(model, range)
            &&& d.bin == model % 2 ==> d.model == model_after_mps(model)
            &&& d.bin != model % 2 ==> d.bin == 1 - model % 2 && d.model == model_after_lps(model)
        }),
{
}

/// Law: after the MPS the model keeps its MPS and its state `s` drops by
/// `floor((s + 16) / 32)`, so it strictly drops whenever `s >= 16`.
pub proof fn law_mps_step(model: int)
    requires
        0 <= model,
    ensures
        model_after_mps(model) % 2 == model % 2,
        ({
            let d = model / 2 - model_after_mps(model) / 2;
            32 * d <= model / 2 + 16 < 32 * d + 32
        }),
        model / 2 >= 16 ==> model_after_mps(model) / 2 < model / 2,
{
}

/// Law: after the LPS the model's state `s` first grows by
/// `floor((528 - s) / 32)` to `t`; if `t <= 256` that is the new state and
/// the MPS stays, otherwise the MPS flips and the new state is `512 - t`.
pub proof fn law_lps_step(model: int)
    requires
        0 <= model,
        model / 2 <= 512,
    ensures
        ({
            let m = model_after_lps(model);
            let s = model / 2;
            let t = if m % 2 == model % 2 {
                m / 2
            } else {
                512 - m / 2
            };
            &&& m % 2 == model % 2 || m % 2 == 1 - model % 2
            &&& 32 * (t - s) <= 528 - s < 32 * (t - s) + 32
            &&& (m % 2 == model % 2 <==> t <= 256)
        }),
{
}

/// Law: renormalisation doubles the range `k` times, the fewest that bring
/// it to at least 8192, and shifts the next `k` bits of the stream into the
/// offset.
pub proof fn law_renorm_closed_form(range: int, value: int, data: Seq<u8>, pos: int) -> (k: nat)
    requires
        0 < range,
        0 <= value < range,
    ensures
        renorm(range, value, data, pos).range == range * pow2(k),
        renorm(range, value, data, pos).range >= 8192,
        k > 0 ==> range * pow2((k - 1) as nat) < 8192,
        renorm(range, value, data, pos).value == value * pow2(k) + bits_value(data, pos, k),
        renorm(range, value, data, pos).pos == advance(data, pos, k),
    decreases (if range < 8192 {
        8192 - range
    } else {
        0
    }),
{
    if range < 8192 {
        lemma_bit_at_is_bit(data, pos);
        let v = 2 * value + bit_at(data, pos);
        assert(v % 65536 == v);
        let np = next_pos(data, pos);
        let k1 = law_renorm_closed_form(2 * range, v, data, np);
        let k = k1 + 1;
        lemma_pow2_unfold(k);
        lemma_bits_value_first(data, pos, k1);
        lemma_bits_value_shift(data, pos, k1);
        lemma_advance_step(data, pos, k1);
        let p1 = pow2(k1) as int;
        assert((2 * range) * p1 == range * (2 * p1)) by (nonlinear_arith);
        assert(v * p1 == value * (2 * p1) + p1 * bit_at(data, pos)) by (nonlinear_arith)
            requires
                v == 2 * value + bit_at(data, pos),
        ;
        assert(pow2(k) == 2 * p1);
        assert(bits_value(data, pos, k) == p1 * bit_at(data, pos) + bits_value(data, pos + 1, k1));
        assert(renorm(range, value, data, pos) == renorm(2 * range, v, data, np));
        assert(renorm(range, value, data, pos).value == v * p1 + bits_value(data, pos + 1, k1));
        if k1 > 0 {
            lemma_pow2_unfold(k1);
            let p0 = pow2((k1 - 1) as nat) as int;
            assert((2 * range) * p0 == range * (2 * p0)) by (nonlinear_arith);
            assert(pow2(k1) == 2 * p0);
            assert((2 * range) * p0 < 8192);
            assert(range * pow2(k1) < 8192);
        } else {
            lemma2_to64();
            assert(pow2(k1) == 1);
            assert(range * pow2(k1) < 8192);
        }
        assert(range * pow2(k1) < 8192);
        assert((k - 1) as nat == k1);
        k
    } else {
        lemma2_to64();
        assert(bits_value(data, pos, 0) == 0);
        0
    }
}

/// Law: right after `reset`, the first bin decoded with an initial model
/// is the first bit of the slice data.
pub proof fn law_first_bin_after_reset(data: Seq<u8>, pos: int)
    ensures
        decode_bin_spec(
            16384,
            bits_value(data, pos, 14),
            PROB_INIT as int,
            data,
            advance(data, pos, 14),
        ).bin == bit_at(data, pos),
{
    lemma_bits_value_first(data, pos, 13);
    lemma_bits_value_bound(data, pos + 1, 13);
    lemma_bit_at_is_bit(data, pos);
    lemma2_to64();
    assert(lps_range(PROB_INIT as int, 16384) == 8192);
}

/// The arithmetic decoder: current range, offset and context models.
pub struct EvcdSbac {
    pub range: u32,
    pub value: u32,
    pub ctx: EvcSbacCtx,
}

impl EvcdSbac {
    /// The decoder invariant established by `reset`: the range lies in
    /// [`RANGE_RENORM`, `RANGE_INIT`] and the offset below the range.
    pub open spec fn wf(self) -> bool {
        &&& RANGE_RENORM <= self.range <= RANGE_INIT
        &&& self.value < self.range
    }

    /// Initialises the decoder at the start of a slice: the range to
    /// `RANGE_INIT`, the offset to the next 14 bits of the stream, and every
    /// context model to `PROB_INIT` (in this profile the initial models do
    /// not depend on the slice type or QP).
    #[allow(unused_variables)]
    pub fn reset(&mut self, bs: &mut EvcdBsr, slice_type: SliceType, slice_qp: u8)
        ensures
            final(self).range == RANGE_INIT,
            final(self).value == bits_value(old(bs).bytes(), old(bs).pos(), 14),
            final(bs).pos() == advance(old(bs).bytes(), old(bs).pos(), 14),
            final(bs).bytes() == old(bs).bytes(),
            final(self).ctx.all_models_are(PROB_INIT),
            final(self).wf(),
    {
        let ghost data = bs.bytes();
        let ghost pos0 = bs.pos();
        self.range = RANGE_INIT;
        self.value = 0;
        proof {
            lemma2_to64();
        }
        for i in 0..14
            invariant
                self.range == RANGE_INIT,
                bs.bytes() == data,
                bs.pos() == advance(data, pos0, i as nat),
                self.value == bits_value(data, pos0, i as nat),
                self.value < pow2(i as nat),
        {
            proof {
                lemma_advance(data, pos0, i as nat);
                lemma_bit_at_is_bit(data, pos0 + i);
                lemma_pow2_unfold((i + 1) as nat);
                assert(pow2(i as nat) <= 8192) by {
                    lemma2_to64();
                    if i < 13 {
                        lemma_pow2_strictly_increases(i as nat, 13);
                    }
                }
            }
            let t0: u32 = bs.read1();
            let v: u32 = self.value;
            assert(t0 <= 1 ==> ((v << 1) | t0) & 0xFFFF == (2 * v + t0) % 65536) by (bit_vector);
            self.value = ((v << 1) | t0) & 0xFFFF;
        }
        let sbac_ctx = &mut self.ctx;
        init_models(&mut sbac_ctx.alf_ctb_flag);
        init_models(&mut sbac_ctx.split_cu_flag);
        init_models(&mut sbac_ctx.run);
        init_models(&mut sbac_ctx.last);
        init_models(&mut sbac_ctx.level);
        init_models(&mut sbac_ctx.cbf_luma);
        init_models(&mut sbac_ctx.cbf_cb);
        init_models(&mut sbac_ctx.cbf_cr);
        init_models(&mut sbac_ctx.cbf_all);
        init_models(&mut sbac_ctx.coeff_abs_level_greaterAB_flag);
        init_models(&mut sbac_ctx.last_sig_coeff_x_prefix);
        init_models(&mut sbac_ctx.last_sig_coeff_y_prefix);
        init_models(&mut sbac_ctx.pred_mode);
        init_models(&mut sbac_ctx.mode_cons);
        init_models(&mut sbac_ctx.direct_mode_flag);
        init_models(&mut sbac_ctx.merge_mode_flag);
        init_models(&mut sbac_ctx.inter_dir);
        init_models(&mut sbac_ctx.intra_dir);
        init_models(&mut sbac_ctx.intra_luma_pred_mpm_flag);
        init_models(&mut sbac_ctx.intra_luma_pred_mpm_idx);
        init_models(&mut sbac_ctx.intra_chroma_pred_mode);
        init_models(&mut sbac_ctx.mmvd_flag);
        init_models(&mut sbac_ctx.mmvd_merge_idx);
        init_models(&mut sbac_ctx.mmvd_distance_idx);
        init_models(&mut sbac_ctx.mmvd_direction_idx);
        init_models(&mut sbac_ctx.mmvd_group_idx);
        init_models(&mut sbac_ctx.merge_idx);
        init_models(&mut sbac_ctx.mvp_idx);
        init_models(&mut sbac_ctx.mvr_idx);
        init_models(&mut sbac_ctx.bi_idx);
        init_models(&mut sbac_ctx.mvd);
        init_models(&mut sbac_ctx.refi);
        init_models(&mut sbac_ctx.btt_split_flag);
        init_models(&mut sbac_ctx.btt_split_dir);
        init_models(&mut sbac_ctx.btt_split_type);
        init_models(&mut sbac_ctx.suco_flag);
        init_models(&mut sbac_ctx.delta_qp);
        init_models(&mut sbac_ctx.affine_flag);
        init_models(&mut sbac_ctx.affine_mode);
        init_models(&mut sbac_ctx.affine_mrg);
        init_models(&mut sbac_ctx.affine_mvp_idx);
        init_models(&mut sbac_ctx.affine_mvd_flag);
        init_models(&mut sbac_ctx.skip_flag);
        init_models(&mut sbac_ctx.ibc_flag);
        init_models(&mut sbac_ctx.ats_mode);
        init_models(&mut sbac_ctx.ats_cu_inter_flag);
        init_models(&mut sbac_ctx.ats_cu_inter_quad_flag);
        init_models(&mut sbac_ctx.ats_cu_inter_hor_flag);
        init_models(&mut sbac_ctx.ats_cu_inter_pos_flag);
    }

    /// Decodes one bin with the adaptive context model `model` and updates
    /// the model.
    pub fn evcd_sbac_decode_bin(&mut self, bs: &mut EvcdBsr, model: &mut SBAC_CTX_MODEL) -> (bin: u32)
        requires
            LPS_RANGE_MIN <= old(self).range,
            *old(model) / 2 <= 512,
            // the LPS sub-range computation must not overflow; this always
            // holds for ranges up to RANGE_INIT
            old(self).range <= RANGE_INIT || (*old(model) / 2) * old(self).range <= u32::MAX,
        ensures
            ({
                let d = decode_bin_spec(
                    old(self).range as int,
                    old(self).value as int,
                    *old(model) as int,
                    old(bs).bytes(),
                    old(bs).pos(),
                );
                &&& bin == d.bin
                &&& *final(model) == d.model
                &&& final(self).range == d.next.range
                &&& final(self).value == d.next.value
                &&& final(bs).pos() == d.next.pos
            }),
            final(bs).bytes() == old(bs).bytes(),
            final(self).ctx == old(self).ctx,
            *final(model) / 2 <= 512,
            old(self).wf() ==> final(self).wf(),
    {
        let ghost range0: int = self.range as int;
        let ghost value0: int = self.value as int;
        let ghost model0: int = *model as int;
        let m: u16 = *model;
        let mut state: u16 = m >> 1;
        let mut mps: u16 = m & 1;
        assert(m >> 1 == m / 2 && m & 1 == m % 2) by (bit_vector);
        proof {
            if range0 <= 16384 {
                assert(state * range0 <= 512 * 16384) by (nonlinear_arith)
                    requires
                        state <= 512,
                        0 <= range0 <= 16384,
                ;
            }
        }
        let prod: u32 = state as u32 * self.range;
        assert(prod >> 9 == prod / 512) by (bit_vector);
        let mut lps: u32 = prod >> 9;
        assert(state * range0 <= 512 * range0) by (nonlinear_arith)
            requires
                state <= 512,
                range0 >= 0,
        ;
        lps = if lps < LPS_RANGE_MIN {
            LPS_RANGE_MIN
        } else {
            lps
        };
        assert(lps == lps_range(model0, range0));
        let mut bin: u32 = mps as u32;
        self.range = self.range - lps;
        if self.value >= self.range {
            bin = 1 - mps as u32;
            self.value = self.value - self.range;
            self.range = lps;
            let inc: u16 = 512 - state + 16;
            assert(inc >> 5 == inc / 32) by (bit_vector);
            state = state + (inc >> 5);
            if state > 256 {
                mps = 1 - mps;
                state = 512 - state;
            }
            assert(state << 1 == 2 * state) by (bit_vector)
                requires
                    state <= 512,
            ;
            *model = (state << 1) + mps;
            assert(*model == model_after_lps(model0));
        } else {
            bin = mps as u32;
            let dec: u16 = state + 16;
            assert(dec >> 5 == dec / 32) by (bit_vector);
            state = state - (dec >> 5);
            assert(state << 1 == 2 * state) by (bit_vector)
                requires
                    state <= 512,
            ;
            *model = (state << 1) + mps;
            assert(*model == model_after_mps(model0));
        }
        proof {
            if 8192 <= range0 <= 16384 && value0 < range0 {
                lemma_renorm_bounds(self.range as int, self.value as int, bs.bytes(), bs.pos());
            }
        }
        self.renormalize(bs);
        bin
    }

    /// Decodes the terminating bin. On 1 (end of slice data) the reader skips
    /// the zero bits up to the next byte boundary; on 0 the decoder
    /// renormalises.
    pub fn decode_bin_trm(&mut self, bs: &mut EvcdBsr) -> (bin: u32)
        requires
            1 <= old(self).range,
            terminates(old(self).range as int, old(self).value as int) ==> zero_bits(
                old(bs).bytes(),
                old(bs).pos(),
                align_up(old(bs).pos()),
            ),
        ensures
            bin == (if terminates(old(self).range as int, old(self).value as int) {
                1int
            } else {
                0int
            }),
            terminates(old(self).range as int, old(self).value as int) ==> {
                &&& final(self).range == old(self).range - 1
                &&& final(self).value == old(self).value
                &&& final(bs).pos() == align_up(old(bs).pos())
            },
            !terminates(old(self).range as int, old(self).value as int) ==> renorm(
                old(self).range - 1,
                old(self).value as int,
                old(bs).bytes(),
                old(bs).pos(),
            ) == (ArithState {
                range: final(self).range as int,
                value: final(self).value as int,
                pos: final(bs).pos(),
            }),
            final(bs).bytes() == old(bs).bytes(),
            final(self).ctx == old(self).ctx,
            old(self).wf() && bin == 0 ==> final(self).wf() && final(self).range < RANGE_INIT,
            old(self).wf() && bin == 1 ==> final(self).value == final(self).range,
    {
        let ghost range0: int = self.range as int;
        let ghost value0: int = self.value as int;
        let ghost pos0: int = bs.pos();
        let ghost data = bs.bytes();
        self.range = self.range - 1;
        if self.value >= self.range {
            proof {
                EvcdBsr::lemma_pos_bounds(*bs);
            }
            while !bs.EVC_BSR_IS_BYTE_ALIGN()
                invariant
                    bs.bytes() == data,
                    pos0 <= bs.pos() <= align_up(pos0),
                    pos0 <= 8 * data.len(),
                    zero_bits(data, pos0, align_up(pos0)),
                decreases align_up(pos0) - bs.pos(),
            {
                proof {
                    EvcdBsr::lemma_pos_bounds(*bs);
                }
                let t0: u32 = bs.read1();
                assert(t0 == 0);
            }
            1
        } else {
            proof {
                if 8192 <= range0 <= 16384 && value0 < range0 {
                    lemma_renorm_bounds(self.range as int, self.value as int, bs.bytes(), bs.pos());
                }
            }
            self.renormalize(bs);
            0
        }
    }

    /// Doubles the range and reads one more bit into the offset until the
    /// range reaches `RANGE_RENORM`.
    fn renormalize(&mut self, bs: &mut EvcdBsr)
        requires
            0 < old(self).range,
        ensures
            renorm(old(self).range as int, old(self).value as int, old(bs).bytes(), old(bs).pos())
                == (ArithState {
                range: final(self).range as int,
                value: final(self).value as int,
                pos: final(bs).pos(),
            }),
            final(bs).bytes() == old(bs).bytes(),
            final(self).ctx == old(self).ctx,
    {
        let ghost target = renorm(self.range as int, self.value as int, bs.bytes(), bs.pos());
        let ghost data = bs.bytes();
        let ghost ctx = self.ctx;
        while self.range < RANGE_RENORM
            invariant
                0 < self.range,
                bs.bytes() == data,
                self.ctx == ctx,
                renorm(self.range as int, self.value as int, bs.bytes(), bs.pos()) == target,
            decreases (if self.range < RANGE_RENORM {
                RANGE_RENORM - self.range
            } else {
                0
            }),
        {
            let r: u32 = self.range;
            assert(r < 8192 ==> r << 1 == 2 * r) by (bit_vector);
            self.range = r << 1;
            let t0: u32 = bs.read1();
            let v: u32 = self.value;
            assert(t0 <= 1 ==> ((v << 1) | t0) & 0xFFFF == (2 * v + t0) % 65536) by (bit_vector);
            self.value = ((v << 1) | t0) & 0xFFFF;
        }
    }
}

impl Default for EvcdSbac {
    /// A decoder with zero range and offset and all context models zero;
    /// `reset` must run before any bin is decoded.
    fn default() -> (s: Self)
        ensures
            s.range == 0,
            s.value == 0,
            s.ctx.all_models_are(0),
    {
        EvcdSbac { range: 0, value: 0, ctx: EvcSbacCtx::default() }
    }
}

} // verus!
