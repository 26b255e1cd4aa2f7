use evc::api::SliceType;
use evc::com::{PROB_INIT, NUM_CTX_GTX, NUM_CTX_SUCO_FLAG};
use evc::dec::bsr::EvcdBsr;
use evc::dec::sbac::EvcdSbac;

const DATA: [u8; 8] = [0xAB, 0xCD, 0xEF, 0x12, 0x34, 0x56, 0x78, 0x9A];

fn started(data: &[u8]) -> (EvcdSbac, EvcdBsr) {
    let mut bs = EvcdBsr::new(data.to_vec());
    let mut sbac = EvcdSbac::default();
    sbac.reset(&mut bs, SliceType::EVC_ST_I, 32);
    (sbac, bs)
}

#[test]
fn reader_reads_msb_first_then_zeros() {
    let mut bs = EvcdBsr::new(vec![0b1010_0001]);
    let bits: Vec<u32> = (0..12).map(|_| bs.read1()).collect();
    assert_eq!(bits, vec![1, 0, 1, 0, 0, 0, 0, 1, 0, 0, 0, 0]);
}

#[test]
fn reader_alignment() {
    let mut bs = EvcdBsr::new(vec![0xFF, 0x00]);
    assert!(bs.EVC_BSR_IS_BYTE_ALIGN());
    bs.read1();
    assert!(!bs.EVC_BSR_IS_BYTE_ALIGN());
    for _ in 0..7 {
        bs.read1();
    }
    assert!(bs.EVC_BSR_IS_BYTE_ALIGN());
}

#[test]
fn reader_on_empty_buffer() {
    let mut bs = EvcdBsr::default();
    assert!(bs.EVC_BSR_IS_BYTE_ALIGN());
    assert_eq!(bs.read1(), 0);
    assert!(bs.EVC_BSR_IS_BYTE_ALIGN());
}

#[test]
fn default_decoder_is_zero() {
    let sbac = EvcdSbac::default();
    assert_eq!(sbac.range, 0);
    assert_eq!(sbac.value, 0);
    assert!(sbac.ctx.coeff_abs_level_greaterAB_flag.iter().all(|&m| m == 0));
}

#[test]
fn reset_reads_fourteen_bits_and_initialises_models() {
    let (sbac, mut bs) = started(&DATA);
    assert_eq!(sbac.range, 16384);
    // 0xABCD >> 2
    assert_eq!(sbac.value, 10995);
    assert_eq!(sbac.ctx.coeff_abs_level_greaterAB_flag, [PROB_INIT; NUM_CTX_GTX]);
    assert_eq!(sbac.ctx.suco_flag, [PROB_INIT; NUM_CTX_SUCO_FLAG]);
    assert_eq!(sbac.ctx.alf_ctb_flag, [512]);
    assert_eq!(sbac.ctx.ats_cu_inter_pos_flag, [512]);
    // the 15th and 16th bits of 0xABCD (..01) come next
    assert_eq!(bs.read1(), 0);
    assert_eq!(bs.read1(), 1);
    assert!(bs.EVC_BSR_IS_BYTE_ALIGN());
}

#[test]
fn reset_ignores_slice_type_and_qp() {
    let (a, _) = started(&DATA);
    let mut bs = EvcdBsr::new(DATA.to_vec());
    let mut b = EvcdSbac::default();
    b.reset(&mut bs, SliceType::EVC_ST_B, 51);
    assert_eq!(a.range, b.range);
    assert_eq!(a.value, b.value);
    assert_eq!(a.ctx.mvd, b.ctx.mvd);
}

#[test]
fn reset_on_short_stream_pads_with_zeros() {
    let (sbac, mut bs) = started(&[0xFF]);
    assert_eq!(sbac.value, 0b11111111_000000);
    assert_eq!(bs.read1(), 0);
}

#[test]
fn decode_sequence_with_one_model() {
    let (mut sbac, mut bs) = started(&DATA);
    let expected: [(u32, u16, u32, u32); 12] = [
        (1, 497, 8192, 2803),
        (1, 481, 8448, 5606),
        (0, 499, 15840, 4475),
        (1, 483, 16274, 8951),
        (0, 499, 15320, 675),
        (1, 483, 15740, 1350),
        (1, 467, 8332, 1350),
        (1, 453, 9082, 2701),
        (1, 439, 10148, 5403),
        (1, 425, 11616, 10807),
        (0, 443, 9618, 8001),
        (0, 461, 8302, 5068),
    ];
    let mut model = PROB_INIT;
    for (bin, m, range, value) in expected.iter() {
        let b = sbac.evcd_sbac_decode_bin(&mut bs, &mut model);
        assert_eq!((b, model, sbac.range, sbac.value), (*bin, *m, *range, *value));
    }
}

#[test]
fn decode_with_models_in_the_context() {
    let (mut sbac, mut bs) = started(&DATA);
    let mut bins = Vec::new();
    for i in 0..20 {
        let mut m = sbac.ctx.skip_flag[i % 2];
        bins.push(sbac.evcd_sbac_decode_bin(&mut bs, &mut m));
        sbac.ctx.skip_flag[i % 2] = m;
    }
    assert_eq!(bins, vec![1, 0, 0, 0, 0, 0, 1, 0, 1, 0, 1, 0, 0, 0, 1, 1, 0, 0, 1, 0]);
    assert_eq!(sbac.ctx.skip_flag, [483, 402]);
    assert_eq!((sbac.range, sbac.value), (14812, 2484));
}

#[test]
fn zero_stream_decodes_zeros_and_sharpens_model() {
    let (mut sbac, mut bs) = started(&[0, 0, 0, 0]);
    let mut model = PROB_INIT;
    for _ in 0..40 {
        assert_eq!(sbac.evcd_sbac_decode_bin(&mut bs, &mut model), 0);
    }
    assert_eq!(model, 144);
    assert_eq!((sbac.range, sbac.value), (14604, 0));
}

#[test]
fn ones_stream() {
    let (mut sbac, mut bs) = started(&[0xFF; 4]);
    let mut model = PROB_INIT;
    let bins: Vec<u32> = (0..40).map(|_| sbac.evcd_sbac_decode_bin(&mut bs, &mut model)).collect();
    assert_eq!(
        bins,
        vec![
            1, 0, 0, 1, 1, 0, 0, 1, 1, 0, 0, 1, 1, 0, 0, 1, 1, 0, 0, 1, 1, 0, 0, 1, 1, 0, 0, 1, 1,
            0, 0, 0, 0, 1, 0, 1, 0, 0, 1, 1
        ]
    );
    assert_eq!(model, 490);
    assert_eq!((sbac.range, sbac.value), (9104, 8968));
}

#[test]
fn lps_with_small_probability_gets_minimum_range() {
    // state 10: 10 * 8192 >> 9 = 160 < 437, so the LPS sub-range is 437
    let mut bs = EvcdBsr::new(vec![0x00]);
    let mut sbac = EvcdSbac::default();
    sbac.range = 8192;
    sbac.value = 8000;
    let mut model: u16 = 20;
    let bin = sbac.evcd_sbac_decode_bin(&mut bs, &mut model);
    assert_eq!(bin, 1);
    // value - (8192 - 437) = 245, range 437 doubled 5 times = 13984
    assert_eq!(sbac.range, 13984);
    assert_eq!(sbac.value, 245 * 32);
    // state 10 + (518 >> 5) = 26
    assert_eq!(model, 52);
}

#[test]
fn lps_past_one_half_swaps_symbols() {
    let mut bs = EvcdBsr::new(vec![]);
    let mut sbac = EvcdSbac::default();
    sbac.range = 16384;
    sbac.value = 16383;
    let mut model: u16 = (250 << 1) | 1;
    let bin = sbac.evcd_sbac_decode_bin(&mut bs, &mut model);
    assert_eq!(bin, 0);
    // 250 + (278 >> 5) = 258 > 256: state 254, mps 0
    assert_eq!(model, 254 << 1);
}

#[test]
fn first_bin_after_reset_is_first_bit() {
    for first in [0x00u8, 0x7F, 0x80, 0xFF, 0x5A, 0xA5] {
        let (mut sbac, mut bs) = started(&[first, 0x3C, 0x99]);
        let mut model = PROB_INIT;
        let bin = sbac.evcd_sbac_decode_bin(&mut bs, &mut model);
        assert_eq!(bin, (first >> 7) as u32);
    }
}

#[test]
fn decoder_state_stays_in_range() {
    let data: Vec<u8> = (0..64u32).map(|i| (i * 37 + 11) as u8).collect();
    let (mut sbac, mut bs) = started(&data);
    let mut models = [PROB_INIT; 3];
    for i in 0..300 {
        let b = sbac.evcd_sbac_decode_bin(&mut bs, &mut models[i % 3]);
        assert!(b <= 1);
        assert!(8192 <= sbac.range && sbac.range <= 16384);
        assert!(sbac.value < sbac.range);
        assert!(models[i % 3] >> 1 <= 256);
    }
}

#[test]
fn terminating_bin_one_aligns_reader() {
    let mut bs = EvcdBsr::new(vec![0b1010_0000, 0xC3]);
    bs.read1();
    bs.read1();
    bs.read1();
    let mut sbac = EvcdSbac::default();
    sbac.range = 9000;
    sbac.value = 8999;
    assert_eq!(sbac.decode_bin_trm(&mut bs), 1);
    assert_eq!(sbac.range, 8999);
    assert_eq!(sbac.value, 8999);
    assert!(bs.EVC_BSR_IS_BYTE_ALIGN());
    // next byte 0xC3 starts with 1, 1
    assert_eq!(bs.read1(), 1);
    assert_eq!(bs.read1(), 1);
}

#[test]
fn terminating_bin_one_when_already_aligned() {
    let mut bs = EvcdBsr::new(vec![0x80]);
    let mut sbac = EvcdSbac::default();
    sbac.range = 8192;
    sbac.value = 8191;
    assert_eq!(sbac.decode_bin_trm(&mut bs), 1);
    assert_eq!(bs.read1(), 1);
}

#[test]
fn terminating_bin_zero_renormalises() {
    let mut bs = EvcdBsr::new(vec![0x80]);
    let mut sbac = EvcdSbac::default();
    sbac.range = 8192;
    sbac.value = 100;
    assert_eq!(sbac.decode_bin_trm(&mut bs), 0);
    // range 8191 doubles once, reading bit 1
    assert_eq!(sbac.range, 16382);
    assert_eq!(sbac.value, 201);
}

#[test]
fn terminating_bin_zero_without_renormalisation() {
    let mut bs = EvcdBsr::new(vec![0x80]);
    let mut sbac = EvcdSbac::default();
    sbac.range = 12000;
    sbac.value = 11998;
    assert_eq!(sbac.decode_bin_trm(&mut bs), 0);
    assert_eq!((sbac.range, sbac.value), (11999, 11998));
    assert_eq!(bs.read1(), 1);
}

#[test]
fn slice_end_after_bins() {
    let (mut sbac, mut bs) = started(&DATA);
    let mut model = PROB_INIT;
    for _ in 0..3 {
        sbac.evcd_sbac_decode_bin(&mut bs, &mut model);
    }
    let t = sbac.decode_bin_trm(&mut bs);
    assert!(t <= 1);
    if t == 0 {
        assert!(sbac.range >= 8192 && sbac.value < sbac.range);
    }
}

#[test]
fn mps_lowers_lps_probability() {
    let mut bs = EvcdBsr::new(vec![]);
    let mut sbac = EvcdSbac::default();
    sbac.range = 16384;
    sbac.value = 0;
    let mut model = PROB_INIT;
    assert_eq!(sbac.evcd_sbac_decode_bin(&mut bs, &mut model), 0);
    // state 256 - (272 >> 5) = 248, MPS still 0; range 16384 - 8192 needs no renormalisation
    assert_eq!(model, 496);
    assert_eq!((sbac.range, sbac.value), (8192, 0));
}
