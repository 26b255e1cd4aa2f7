use evc::api::frame::Frame;
use evc::api::{
    ChromaSampling, Config, Context, EvcChromaTable, EvcError, EvcRpl, EvcdStat, NaluType, Packet,
    PixelRange, Rational, SliceType, MAX_NUM_REF_PICS, MAX_QP_TABLE_SIZE,
};

#[test]
fn error_codes() {
    assert_eq!(EvcError::EVC_ERR.code(), -1);
    assert_eq!(EvcError::EVC_ERR_INVALID_ARGUMENT.code(), -101);
    assert_eq!(EvcError::EVC_ERR_OUT_OF_MEMORY.code(), -102);
    assert_eq!(EvcError::EVC_ERR_REACHED_MAX.code(), -103);
    assert_eq!(EvcError::EVC_ERR_UNSUPPORTED.code(), -104);
    assert_eq!(EvcError::EVC_ERR_UNEXPECTED.code(), -105);
    assert_eq!(EvcError::EVC_ERR_UNSUPPORTED_COLORSPACE.code(), -201);
    assert_eq!(EvcError::EVC_ERR_MALFORMED_BITSTREAM.code(), -202);
    assert_eq!(EvcError::EVC_ERR_UNKNOWN.code(), -32767);
}

#[test]
fn error_from_code_round_trip() {
    for c in [-1i64, -101, -102, -103, -104, -105, -201, -202, -32767] {
        let e = EvcError::from_code(c).unwrap();
        assert_eq!(e.code() as i64, c);
    }
    assert_eq!(EvcError::from_code(0), None);
    assert_eq!(EvcError::from_code(-2), None);
    assert_eq!(EvcError::from_code(-32768), None);
}

#[test]
fn error_order_follows_codes() {
    assert!(EvcError::EVC_ERR_UNKNOWN < EvcError::EVC_ERR_MALFORMED_BITSTREAM);
    assert!(EvcError::EVC_ERR_UNEXPECTED < EvcError::EVC_ERR_UNSUPPORTED);
    assert!(EvcError::EVC_ERR_INVALID_ARGUMENT < EvcError::EVC_ERR);
}

#[test]
fn error_default_is_generic() {
    assert_eq!(EvcError::default(), EvcError::EVC_ERR);
}

#[test]
fn nalu_types() {
    assert_eq!(NaluType::default(), NaluType::EVC_NONIDR_NUT);
    assert_eq!(NaluType::EVC_IDR_NUT.code(), 1);
    assert_eq!(NaluType::EVC_SEI_NUT.code(), 27);
    assert_eq!(NaluType::from_code(24), Some(NaluType::EVC_SPS_NUT));
    assert_eq!(NaluType::from_code(2), None);
    assert_eq!(NaluType::EVC_NONIDR_NUT.description(), "Non-IDR");
    assert_eq!(NaluType::EVC_IDR_NUT.description(), "Instantaneous Decoder Refresh");
    assert_eq!(NaluType::EVC_SPS_NUT.description(), "Sequence Parameter Se");
    assert_eq!(NaluType::EVC_PPS_NUT.description(), "Picture Parameter Set");
    assert_eq!(NaluType::EVC_APS_NUT.description(), "Adaptation Parameter Set");
    assert_eq!(NaluType::EVC_SEI_NUT.description(), "Supplemental Enhancement Information");
    assert!(NaluType::EVC_IDR_NUT < NaluType::EVC_SPS_NUT);
}

#[test]
fn slice_types() {
    assert_eq!(SliceType::default(), SliceType::EVC_ST_UNKNOWN);
    assert_eq!(SliceType::EVC_ST_B.code(), 3);
    assert_eq!(SliceType::from_code(2), Some(SliceType::EVC_ST_P));
    assert_eq!(SliceType::from_code(4), None);
    assert_eq!(SliceType::EVC_ST_UNKNOWN.description(), "Unknown");
    assert_eq!(SliceType::EVC_ST_I.description(), "I");
    assert_eq!(SliceType::EVC_ST_P.description(), "P");
    assert_eq!(SliceType::EVC_ST_B.description(), "B");
}

#[test]
fn stat_default_is_empty() {
    let s = EvcdStat::default();
    assert_eq!(s.read, 0);
    assert_eq!(s.nalu_type, NaluType::EVC_NONIDR_NUT);
    assert_eq!(s.stype, SliceType::EVC_ST_UNKNOWN);
    assert_eq!((s.fnum, s.poc, s.tid, s.ret), (0, 0, 0, 0));
    assert_eq!(s.refpic_num, [0, 0]);
    assert_eq!(s.refpic, [[0; 16]; 2]);
}

#[test]
fn rpl_and_chroma_table_defaults() {
    let r = EvcRpl::default();
    assert_eq!((r.poc, r.tid, r.ref_pic_num, r.ref_pic_active_num, r.pic_type), (0, 0, 0, 0, 0));
    assert_eq!(r.ref_pics, [0; MAX_NUM_REF_PICS]);
    let t = EvcChromaTable::default();
    assert!(!t.chroma_qp_table_present_flag && !t.same_qp_table_for_chroma && !t.global_offset_flag);
    assert_eq!(t.num_points_in_qp_table_minus1, [0, 0]);
    assert_eq!(t.delta_qp_in_val_minus1, [[0; MAX_QP_TABLE_SIZE]; 2]);
    assert_eq!(t.delta_qp_out_val, [[0; MAX_QP_TABLE_SIZE]; 2]);
}

#[test]
fn chroma_sampling_periods() {
    assert_eq!(ChromaSampling::default(), ChromaSampling::Cs420);
    assert_eq!(ChromaSampling::Cs420.sampling_period(), (2, 2));
    assert_eq!(ChromaSampling::Cs422.sampling_period(), (2, 1));
    assert_eq!(ChromaSampling::Cs444.sampling_period(), (1, 1));
    assert_eq!(ChromaSampling::Cs400.sampling_period(), (2, 2));
}

#[test]
fn small_types() {
    assert_eq!(PixelRange::default(), PixelRange::Unspecified);
    let r = Rational::new(30000, 1001);
    assert_eq!((r.num, r.den), (30000, 1001));
    assert_eq!(Config::default().threads, 0);
}

#[test]
fn context_decode_and_pull() {
    let mut ctx: Context<u8> = Context::new(&Config::default());
    let mut pkt = Some(Packet { data: vec![0, 0, 1], offset: 0, pts: 7 });
    let stat = ctx.decode(&mut pkt).unwrap();
    assert_eq!(stat.read, 0);
    assert_eq!(stat.fnum, -1);
    assert_eq!(stat.nalu_type, NaluType::EVC_NONIDR_NUT);
    assert_eq!(stat.stype, SliceType::EVC_ST_UNKNOWN);
    assert_eq!(pkt.as_ref().unwrap().pts, 7);
    let pulled: Result<Frame<u8>, EvcError> = ctx.pull();
    assert_eq!(pulled.err(), Some(EvcError::EVC_ERR));
    let mut ctx16: Context<u16> = Context::new(&Config { threads: 4 });
    assert_eq!(ctx16.pull().err(), Some(EvcError::EVC_ERR));
}

#[test]
fn decode_without_packet_reports_no_frame() {
    let mut ctx: Context<u8> = Context::new(&Config { threads: 4 });
    let mut none: Option<Packet> = None;
    let first = ctx.decode(&mut none).unwrap();
    let second = ctx.decode(&mut none).unwrap();
    assert!(first.fnum < 0 && second.fnum < 0);
    assert_eq!((first.read, second.read), (0, 0));
    assert!(none.is_none());
}
