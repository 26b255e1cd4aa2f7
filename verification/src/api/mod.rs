//! Public types of the decoder: return codes, NAL unit and slice types,
//! decoding status, reference picture lists, packets and the decoding context.
use vstd::prelude::*;

pub mod frame;
pub mod util;

use frame::Frame;
use util::Pixel;

use crate::dec::{EvcdCtx, EVCD_MAGIC_CODE};

verus! {

/* no more frames, but it is OK */
#[allow(dead_code)]
const EVC_OK_NO_MORE_FRM: usize = 205;

/* progress success, but output is not available temporarily */
#[allow(dead_code)]
const EVC_OK_OUT_NOT_AVAILABLE: usize = 204;

/* frame dimension (width or height) has been changed */
#[allow(dead_code)]
const EVC_OK_DIM_CHANGED: usize = 203;

/* decoding success, but output frame has been delayed */
#[allow(dead_code)]
const EVC_OK_FRM_DELAYED: usize = 202;

/// CRC value does not match.
pub const EVC_ERR_BAD_CRC: usize = 201;

/// CRC value present but ignored by the decoder.
pub const EVC_WARN_CRC_IGNORED: usize = 200;

pub const EVC_OK: usize = 0;

/// Error codes. The variants are declared in increasing order of their
/// numeric codes (see `code`), so the derived ordering follows the codes.
#[allow(non_camel_case_types)]
#[derive(Debug, PartialOrd, Ord, PartialEq, Eq, Structural)]
pub enum EvcError {
    /// unknown error
    EVC_ERR_UNKNOWN,
    EVC_ERR_MALFORMED_BITSTREAM,
    EVC_ERR_UNSUPPORTED_COLORSPACE,
    EVC_ERR_UNEXPECTED,
    EVC_ERR_UNSUPPORTED,
    EVC_ERR_REACHED_MAX,
    EVC_ERR_OUT_OF_MEMORY,
    EVC_ERR_INVALID_ARGUMENT,
    /// generic error
    EVC_ERR,
}

impl EvcError {
    /// The numeric code of each error.
    pub open spec fn code_of(self) -> int {
        match self {
            EvcError::EVC_ERR => -1,
            EvcError::EVC_ERR_INVALID_ARGUMENT => -101,
            EvcError::EVC_ERR_OUT_OF_MEMORY => -102,
            EvcError::EVC_ERR_REACHED_MAX => -103,
            EvcError::EVC_ERR_UNSUPPORTED => -104,
            EvcError::EVC_ERR_UNEXPECTED => -105,
            EvcError::EVC_ERR_UNSUPPORTED_COLORSPACE => -201,
            EvcError::EVC_ERR_MALFORMED_BITSTREAM => -202,
            EvcError::EVC_ERR_UNKNOWN => -32767,
        }
    }

    /// Whether `c` is the code of some error.
    pub open spec fn is_code(c: int) -> bool {
        c == -1 || c == -101 || c == -102 || c == -103 || c == -104 || c == -105 || c == -201
            || c == -202 || c == -32767
    }

    /// The numeric code of this error.
    pub fn code(&self) -> (c: i32)
        ensures
            c == self.code_of(),
    {
        match self {
            EvcError::EVC_ERR => -1,
            EvcError::EVC_ERR_INVALID_ARGUMENT => -101,
            EvcError::EVC_ERR_OUT_OF_MEMORY => -102,
            EvcError::EVC_ERR_REACHED_MAX => -103,
            EvcError::EVC_ERR_UNSUPPORTED => -104,
            EvcError::EVC_ERR_UNEXPECTED => -105,
            EvcError::EVC_ERR_UNSUPPORTED_COLORSPACE => -201,
            EvcError::EVC_ERR_MALFORMED_BITSTREAM => -202,
            EvcError::EVC_ERR_UNKNOWN => -32767,
        }
    }

    /// The error whose code is `c`, if any.
    pub fn from_code(c: i64) -> (e: Option<EvcError>)
        ensures
            e matches Some(x) ==> x.code_of() == c,
            e is None <==> !Self::is_code(c as int),
    {
        if c == -1 {
            Some(EvcError::EVC_ERR)
        } else if c == -101 {
            Some(EvcError::EVC_ERR_INVALID_ARGUMENT)
        } else if c == -102 {
            Some(EvcError::EVC_ERR_OUT_OF_MEMORY)
        } else if c == -103 {
            Some(EvcError::EVC_ERR_REACHED_MAX)
        } else if c == -104 {
            Some(EvcError::EVC_ERR_UNSUPPORTED)
        } else if c == -105 {
            Some(EvcError::EVC_ERR_UNEXPECTED)
        } else if c == -201 {
            Some(EvcError::EVC_ERR_UNSUPPORTED_COLORSPACE)
        } else if c == -202 {
            Some(EvcError::EVC_ERR_MALFORMED_BITSTREAM)
        } else if c == -32767 {
            Some(EvcError::EVC_ERR_UNKNOWN)
        } else {
            None
        }
    }
}

/// Law: distinct errors have distinct codes, so `from_code` of an error's
/// code gives that error back.
pub proof fn law_error_codes_distinct(a: EvcError, b: EvcError)
    ensures
        a.code_of() == b.code_of() <==> a == b,
        EvcError::is_code(a.code_of()),
{
}

/// Law: each error carries its code: generic -1, invalid argument -101,
/// out of memory -102, reached max -103, unsupported -104, unexpected -105,
/// unsupported colour space -201, malformed bitstream -202, unknown -32767.
pub proof fn law_error_code_values(e: EvcError)
    ensures
        (e == EvcError::EVC_ERR) <==> e.code_of() == -1,
        (e == EvcError::EVC_ERR_INVALID_ARGUMENT) <==> e.code_of() == -101,
        (e == EvcError::EVC_ERR_OUT_OF_MEMORY) <==> e.code_of() == -102,
        (e == EvcError::EVC_ERR_REACHED_MAX) <==> e.code_of() == -103,
        (e == EvcError::EVC_ERR_UNSUPPORTED) <==> e.code_of() == -104,
        (e == EvcError::EVC_ERR_UNEXPECTED) <==> e.code_of() == -105,
        (e == EvcError::EVC_ERR_UNSUPPORTED_COLORSPACE) <==> e.code_of() == -201,
        (e == EvcError::EVC_ERR_MALFORMED_BITSTREAM) <==> e.code_of() == -202,
        (e == EvcError::EVC_ERR_UNKNOWN) <==> e.code_of() == -32767,
{
}

impl Default for EvcError {
    /// The generic error.
    fn default() -> (e: Self)
        ensures
            e == EvcError::EVC_ERR,
    {
        EvcError::EVC_ERR
    }
}

/// NAL unit types.
#[allow(non_camel_case_types)]
#[derive(Debug, PartialEq, Eq, Structural, PartialOrd, Clone, Copy)]
pub enum NaluType {
    EVC_NONIDR_NUT,
    EVC_IDR_NUT,
    EVC_SPS_NUT,
    EVC_PPS_NUT,
    EVC_APS_NUT,
    EVC_SEI_NUT,
}

impl NaluType {
    /// The `nal_unit_type` value of each NAL unit type.
    pub open spec fn code_of(self) -> u8 {
        match self {
            NaluType::EVC_NONIDR_NUT => 0,
            NaluType::EVC_IDR_NUT => 1,
            NaluType::EVC_SPS_NUT => 24,
            NaluType::EVC_PPS_NUT => 25,
            NaluType::EVC_APS_NUT => 26,
            NaluType::EVC_SEI_NUT => 27,
        }
    }

    /// The `nal_unit_type` value of this type.
    pub fn code(self) -> (c: u8)
        ensures
            c == self.code_of(),
    {
        match self {
            NaluType::EVC_NONIDR_NUT => 0,
            NaluType::EVC_IDR_NUT => 1,
            NaluType::EVC_SPS_NUT => 24,
            NaluType::EVC_PPS_NUT => 25,
            NaluType::EVC_APS_NUT => 26,
            NaluType::EVC_SEI_NUT => 27,
        }
    }

    /// The NAL unit type with `nal_unit_type` value `c`, if any.
    pub fn from_code(c: u8) -> (t: Option<NaluType>)
        ensures
            t matches Some(x) ==> x.code_of() == c,
            t is None <==> !(c == 0 || c == 1 || 24 <= c <= 27),
    {
        match c {
            0 => Some(NaluType::EVC_NONIDR_NUT),
            1 => Some(NaluType::EVC_IDR_NUT),
            24 => Some(NaluType::EVC_SPS_NUT),
            25 => Some(NaluType::EVC_PPS_NUT),
            26 => Some(NaluType::EVC_APS_NUT),
            27 => Some(NaluType::EVC_SEI_NUT),
            _ => None,
        }
    }

    /// The human-readable name of this type.
    pub fn description(self) -> (s: &'static str)
        ensures
            self == NaluType::EVC_NONIDR_NUT ==> s@ == "Non-IDR"@,
            self == NaluType::EVC_IDR_NUT ==> s@ == "Instantaneous Decoder Refresh"@,
            self == NaluType::EVC_SPS_NUT ==> s@ == "Sequence Parameter Se"@,
            self == NaluType::EVC_PPS_NUT ==> s@ == "Picture Parameter Set"@,
            self == NaluType::EVC_APS_NUT ==> s@ == "Adaptation Parameter Set"@,
            self == NaluType::EVC_SEI_NUT ==> s@ == "Supplemental Enhancement Information"@,
    {
        match self {
            NaluType::EVC_NONIDR_NUT => "Non-IDR",
            NaluType::EVC_IDR_NUT => "Instantaneous Decoder Refresh",
            NaluType::EVC_SPS_NUT => "Sequence Parameter Se",
            NaluType::EVC_PPS_NUT => "Picture Parameter Set",
            NaluType::EVC_APS_NUT => "Adaptation Parameter Set",
            NaluType::EVC_SEI_NUT => "Supplemental Enhancement Information",
        }
    }
}

/// Law: distinct NAL unit types have distinct `nal_unit_type` values.
pub proof fn law_nalu_codes_distinct(a: NaluType, b: NaluType)
    ensures
        a.code_of() == b.code_of() <==> a == b,
{
}

/// Law: each NAL unit type carries its `nal_unit_type` value: non-IDR 0,
/// IDR 1, SPS 24, PPS 25, APS 26, SEI 27.
pub proof fn law_nalu_code_values(t: NaluType)
    ensures
        (t == NaluType::EVC_NONIDR_NUT) <==> t.code_of() == 0,
        (t == NaluType::EVC_IDR_NUT) <==> t.code_of() == 1,
        (t == NaluType::EVC_SPS_NUT) <==> t.code_of() == 24,
        (t == NaluType::EVC_PPS_NUT) <==> t.code_of() == 25,
        (t == NaluType::EVC_APS_NUT) <==> t.code_of() == 26,
        (t == NaluType::EVC_SEI_NUT) <==> t.code_of() == 27,
{
}

impl Default for NaluType {
    /// Non-IDR.
    fn default() -> (t: Self)
        ensures
            t == NaluType::EVC_NONIDR_NUT,
    {
        NaluType::EVC_NONIDR_NUT
    }
}

/// Slice types.
#[allow(non_camel_case_types)]
#[derive(Debug, PartialEq, Eq, Structural, PartialOrd, Clone, Copy)]
pub enum SliceType {
    EVC_ST_UNKNOWN,
    EVC_ST_I,
    EVC_ST_P,
    EVC_ST_B,
}

impl SliceType {
    /// The `slice_type` value of each slice type.
    pub open spec fn code_of(self) -> u8 {
        match self {
            SliceType::EVC_ST_UNKNOWN => 0,
            SliceType::EVC_ST_I => 1,
            SliceType::EVC_ST_P => 2,
            SliceType::EVC_ST_B => 3,
        }
    }

    /// The `slice_type` value of this type.
    pub fn code(self) -> (c: u8)
        ensures
            c == self.code_of(),
    {
        match self {
            SliceType::EVC_ST_UNKNOWN => 0,
            SliceType::EVC_ST_I => 1,
            SliceType::EVC_ST_P => 2,
            SliceType::EVC_ST_B => 3,
        }
    }

    /// The slice type with `slice_type` value `c`, if any.
    pub fn from_code(c: u8) -> (t: Option<SliceType>)
        ensures
            t matches Some(x) ==> x.code_of() == c,
            t is None <==> c > 3,
    {
        match c {
            0 => Some(SliceType::EVC_ST_UNKNOWN),
            1 => Some(SliceType::EVC_ST_I),
            2 => Some(SliceType::EVC_ST_P),
            3 => Some(SliceType::EVC_ST_B),
            _ => None,
        }
    }

    /// The human-readable name of this type.
    pub fn description(self) -> (s: &'static str)
        ensures
            self == SliceType::EVC_ST_UNKNOWN ==> s@ == "Unknown"@,
            self == SliceType::EVC_ST_I ==> s@ == "I"@,
            self == SliceType::EVC_ST_P ==> s@ == "P"@,
            self == SliceType::EVC_ST_B ==> s@ == "B"@,
    {
        match self {
            SliceType::EVC_ST_UNKNOWN => "Unknown",
            SliceType::EVC_ST_I => "I",
            SliceType::EVC_ST_P => "P",
            SliceType::EVC_ST_B => "B",
        }
    }
}

/// Law: distinct slice types have distinct `slice_type` values, all at most 3.
pub proof fn law_slice_codes_distinct(a: SliceType, b: SliceType)
    ensures
        a.code_of() == b.code_of() <==> a == b,
        a.code_of() <= 3,
{
}

/// Law: each slice type carries its `slice_type` value: unknown 0, I 1,
/// P 2, B 3.
pub proof fn law_slice_code_values(t: SliceType)
    ensures
        (t == SliceType::EVC_ST_UNKNOWN) <==> t.code_of() == 0,
        (t == SliceType::EVC_ST_I) <==> t.code_of() == 1,
        (t == SliceType::EVC_ST_P) <==> t.code_of() == 2,
        (t == SliceType::EVC_ST_B) <==> t.code_of() == 3,
{
}

impl Default for SliceType {
    /// Unknown.
    fn default() -> (t: Self)
        ensures
            t == SliceType::EVC_ST_UNKNOWN,
    {
        SliceType::EVC_ST_UNKNOWN
    }
}

/// Status reported after a decoding operation.
#[derive(Debug)]
pub struct EvcdStat {
    /// byte size of decoded bitstream (read size of bitstream)
    pub read: usize,
    /// nalu type
    pub nalu_type: NaluType,
    /// slice type
    pub stype: SliceType,
    /// frame number, increased whenever a frame is decoded; negative if the
    /// decoded data is not a frame
    pub fnum: isize,
    /// picture order count
    pub poc: isize,
    /// layer id
    pub tid: isize,
    /// number of reference pictures
    pub refpic_num: [u8; 2],
    /// list of reference pictures
    pub refpic: [[isize; 16]; 2],
    pub ret: usize,
}

impl EvcdStat {
    /// Every field but the frame number is as after an operation that read
    /// nothing: counts zero, default NAL unit and slice types, no reference
    /// pictures.
    pub open spec fn is_empty_but_frame_number(self) -> bool {
        &&& self.read == 0
        &&& self.nalu_type == NaluType::EVC_NONIDR_NUT
        &&& self.stype == SliceType::EVC_ST_UNKNOWN
        &&& self.poc == 0
        &&& self.tid == 0
        &&& forall|l: int| 0 <= l < 2 ==> #[trigger] self.refpic_num[l] == 0
        &&& forall|l: int, k: int| 0 <= l < 2 && 0 <= k < 16 ==> #[trigger] self.refpic[l][k] == 0
        &&& self.ret == 0
    }

    /// Every field zero or default.
    pub open spec fn is_empty(self) -> bool {
        &&& self.is_empty_but_frame_number()
        &&& self.fnum == 0
    }
}

impl Default for EvcdStat {
    fn default() -> (s: Self)
        ensures
            s.is_empty(),
    {
        EvcdStat {
            read: 0,
            nalu_type: NaluType::default(),
            stype: SliceType::default(),
            fnum: 0,
            poc: 0,
            tid: 0,
            refpic_num: [0; 2],
            refpic: [[0; 16]; 2],
            ret: 0,
        }
    }
}

pub const MAX_NUM_REF_PICS: usize = 21;

pub const MAX_NUM_ACTIVE_REF_FRAME: usize = 5;

pub const MAX_NUM_RPLS: usize = 32;

/// A reference picture list.
pub struct EvcRpl {
    pub poc: usize,
    pub tid: usize,
    pub ref_pic_num: u8,
    pub ref_pic_active_num: u8,
    pub ref_pics: [u8; MAX_NUM_REF_PICS],
    pub pic_type: u8,
}

impl Default for EvcRpl {
    /// An empty list: every field zero.
    fn default() -> (r: Self)
        ensures
            r.poc == 0,
            r.tid == 0,
            r.ref_pic_num == 0,
            r.ref_pic_active_num == 0,
            forall|i: int| 0 <= i < MAX_NUM_REF_PICS ==> #[trigger] r.ref_pics[i] == 0,
            r.pic_type == 0,
    {
        EvcRpl {
            poc: 0,
            tid: 0,
            ref_pic_num: 0,
            ref_pic_active_num: 0,
            ref_pics: [0; MAX_NUM_REF_PICS],
            pic_type: 0,
        }
    }
}

pub const MAX_QP_TABLE_SIZE: usize = 58;

pub const MAX_QP_TABLE_SIZE_EXT: usize = 70;

/// Chroma QP mapping tables, signalled in the SPS.
pub struct EvcChromaTable {
    pub chroma_qp_table_present_flag: bool,
    pub same_qp_table_for_chroma: bool,
    pub global_offset_flag: bool,
    pub num_points_in_qp_table_minus1: [usize; 2],
    pub delta_qp_in_val_minus1: [[i8; MAX_QP_TABLE_SIZE]; 2],
    pub delta_qp_out_val: [[i8; MAX_QP_TABLE_SIZE]; 2],
}

impl Default for EvcChromaTable {
    /// No table present: every flag false and every entry zero.
    fn default() -> (t: Self)
        ensures
            !t.chroma_qp_table_present_flag,
            !t.same_qp_table_for_chroma,
            !t.global_offset_flag,
            forall|l: int| 0 <= l < 2 ==> #[trigger] t.num_points_in_qp_table_minus1[l] == 0,
            forall|l: int, k: int|
                0 <= l < 2 && 0 <= k < MAX_QP_TABLE_SIZE ==> #[trigger] t.delta_qp_in_val_minus1[l][k]
                    == 0,
            forall|l: int, k: int|
                0 <= l < 2 && 0 <= k < MAX_QP_TABLE_SIZE ==> #[trigger] t.delta_qp_out_val[l][k] == 0,
    {
        EvcChromaTable {
            chroma_qp_table_present_flag: false,
            same_qp_table_for_chroma: false,
            global_offset_flag: false,
            num_points_in_qp_table_minus1: [0; 2],
            delta_qp_in_val_minus1: [[0; MAX_QP_TABLE_SIZE]; 2],
            delta_qp_out_val: [[0; MAX_QP_TABLE_SIZE]; 2],
        }
    }
}

/// A chunk of bitstream handed to the decoder.
pub struct Packet {
    pub data: Vec<u8>,
    pub offset: usize,
    pub pts: u64,
}

/// Chroma subsampling formats.
#[derive(Copy, Clone, Debug, PartialEq, Eq, Structural)]
pub enum ChromaSampling {
    Cs420,
    Cs422,
    Cs444,
    Cs400,
}

impl Default for ChromaSampling {
    /// 4:2:0.
    fn default() -> (c: Self)
        ensures
            c == ChromaSampling::Cs420,
    {
        ChromaSampling::Cs420
    }
}

impl ChromaSampling {
    /// The sampling period of the chroma planes in the horizontal and
    /// vertical axes.
    pub fn sampling_period(self) -> (p: (usize, usize))
        ensures
            self == ChromaSampling::Cs420 ==> p == (2usize, 2usize),
            self == ChromaSampling::Cs422 ==> p == (2usize, 1usize),
            self == ChromaSampling::Cs444 ==> p == (1usize, 1usize),
            self == ChromaSampling::Cs400 ==> p == (2usize, 2usize),
    {
        match self {
            ChromaSampling::Cs420 => (2, 2),
            ChromaSampling::Cs422 => (2, 1),
            ChromaSampling::Cs444 => (1, 1),
            ChromaSampling::Cs400 => (2, 2),
        }
    }
}

/// Range of pixel values.
#[derive(Debug, Clone, Copy, PartialEq, Eq, Structural)]
pub enum PixelRange {
    Unspecified,
    Limited,
    Full,
}

impl Default for PixelRange {
    /// Unspecified.
    fn default() -> (r: Self)
        ensures
            r == PixelRange::Unspecified,
    {
        PixelRange::Unspecified
    }
}

/// A rational number `num / den`.
#[derive(Clone, Copy, Debug)]
pub struct Rational {
    pub num: u64,
    pub den: u64,
}

impl Rational {
    pub fn new(num: u64, den: u64) -> (r: Self)
        ensures
            r.num == num,
            r.den == den,
    {
        Rational { num, den }
    }
}

#[derive(Clone, Copy, Debug)]
pub struct Point {
    pub x: u16,
    pub y: u16,
}

/// Decoder configuration.
#[derive(Debug, Clone, Copy)]
pub struct Config {
    pub threads: usize,
}

impl Default for Config {
    /// Zero threads: the decoder picks.
    fn default() -> (c: Self)
        ensures
            c.threads == 0,
    {
        Config { threads: 0 }
    }
}

/// A decoder instance.
pub struct Context<T: Pixel> {
    pub(crate) frame: Option<Frame<T>>,
    pub(crate) packet: Option<Packet>,
    evcd_ctx: EvcdCtx,
}

impl<T: Pixel> Context<T> {
    /// The magic tag of the decoder context.
    pub closed spec fn magic(self) -> u32 {
        self.evcd_ctx.magic
    }

    /// Whether a decoded frame is waiting to be pulled.
    pub closed spec fn has_frame(self) -> bool {
        self.frame is Some
    }

    /// Whether a packet is waiting to be decoded.
    pub closed spec fn has_packet(self) -> bool {
        self.packet is Some
    }

    /// The buffer of the decoder's bitstream reader.
    pub closed spec fn reader_bytes(self) -> Seq<u8> {
        self.evcd_ctx.bs.bytes()
    }

    /// The read position of the decoder's bitstream reader.
    pub closed spec fn reader_pos(self) -> int {
        self.evcd_ctx.bs.pos()
    }

    /// The range of the decoder's arithmetic decoder.
    pub closed spec fn decoder_range(self) -> u32 {
        self.evcd_ctx.sbac_dec.range
    }

    /// The offset of the decoder's arithmetic decoder.
    pub closed spec fn decoder_value(self) -> u32 {
        self.evcd_ctx.sbac_dec.value
    }

    /// Every context model of the decoder's arithmetic decoder equals `p`.
    pub closed spec fn decoder_models_are(self, p: u16) -> bool {
        self.evcd_ctx.sbac_dec.ctx.all_models_are(p)
    }

    /// A fresh decoder: tagged with `EVCD_MAGIC_CODE`, with no pending
    /// packet or frame, an empty bitstream and a zeroed arithmetic decoder
    /// (`reset` sets it up at the first slice).
    #[allow(unused_variables)]
    pub fn new(cfg: &Config) -> (c: Self)
        ensures
            c.magic() == EVCD_MAGIC_CODE,
            !c.has_frame(),
            !c.has_packet(),
            c.reader_bytes().len() == 0,
            c.reader_pos() == 0,
            c.decoder_range() == 0,
            c.decoder_value() == 0,
            c.decoder_models_are(0),
    {
        let mut evcd_ctx = EvcdCtx::default();
        evcd_ctx.magic = EVCD_MAGIC_CODE;
        Context { frame: None, packet: None, evcd_ctx }
    }

    /// Decodes a packet. Decoding of NAL units is not implemented: no frame
    /// is decoded, so the call reports frame number -1 (not a frame) with
    /// nothing read, and changes nothing.
    #[allow(unused_variables)]
    pub fn decode(&mut self, pkt: &mut Option<Packet>) -> (r: Result<EvcdStat, EvcError>)
        ensures
            r matches Ok(s) && s.fnum == -1 && s.is_empty_but_frame_number(),
            *final(self) == *old(self),
            *final(pkt) == *old(pkt),
    {
        let mut stat = EvcdStat::default();
        stat.fnum = -1;
        Ok(stat)
    }

    /// Takes the next decoded frame. No frame is ever produced yet: the call
    /// fails with the generic error and changes nothing.
    pub fn pull(&mut self) -> (r: Result<Frame<T>, EvcError>)
        ensures
            r matches Err(e) && e == EvcError::EVC_ERR,
            *final(self) == *old(self),
    {
        Err(EvcError::default())
    }
}

} // verus!
