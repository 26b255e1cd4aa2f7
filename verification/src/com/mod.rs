//! Definitions shared by the decoder: context models of the arithmetic
//! decoder and the number of models kept for each syntax element.
use vstd::prelude::*;

verus! {

/// A context model: the LPS probability state in bits 1.. (probability
/// `state / 512` of the least probable symbol) and the most probable symbol
/// (MPS) in bit 0.
#[allow(non_camel_case_types)]
pub type SBAC_CTX_MODEL = u16;

/// Initial context model: state 256 (LPS probability one half), MPS 0.
pub const PROB_INIT: SBAC_CTX_MODEL = 512;
/// Number of context models for the adaptive loop filter on/off per coding tree block.
pub const NUM_CTX_ALF_CTB_FLAG: usize = 1;
/// Number of context models for the quad-tree split flag.
pub const NUM_CTX_SPLIT_CU_FLAG: usize = 1;
/// Number of context models for the run of zero coefficients.
pub const NUM_CTX_CC_RUN: usize = 24;
/// Number of context models for the last-coefficient flag.
pub const NUM_CTX_CC_LAST: usize = 2;
/// Number of context models for the coefficient level.
pub const NUM_CTX_CC_LEVEL: usize = 24;
/// Number of context models for the coded block flag, luma.
pub const NUM_CTX_CBF_LUMA: usize = 1;
/// Number of context models for the coded block flag, Cb.
pub const NUM_CTX_CBF_CB: usize = 1;
/// Number of context models for the coded block flag, Cr.
pub const NUM_CTX_CBF_CR: usize = 1;
/// Number of context models for the coded block flag, all components.
pub const NUM_CTX_CBF_ALL: usize = 1;
/// Number of context models for the coefficient level greater-than flags.
pub const NUM_CTX_GTX: usize = 24;
/// Number of context models for the last significant coefficient position prefix.
pub const NUM_CTX_LAST_SIG_COEFF: usize = 21;
/// Number of context models for the prediction mode.
pub const NUM_CTX_PRED_MODE: usize = 3;
/// Number of context models for the prediction mode constraint.
pub const NUM_CTX_MODE_CONS: usize = 3;
/// Number of context models for the direct mode flag.
pub const NUM_CTX_DIRECT_MODE_FLAG: usize = 1;
/// Number of context models for the merge mode flag.
pub const NUM_CTX_MERGE_MODE_FLAG: usize = 1;
/// Number of context models for the inter prediction direction.
pub const NUM_CTX_INTER_PRED_IDC: usize = 2;
/// Number of context models for the intra prediction mode.
pub const NUM_CTX_INTRA_PRED_MODE: usize = 2;
/// Number of context models for the intra luma most-probable-mode flag.
pub const NUM_CTX_INTRA_LUMA_PRED_MPM_FLAG: usize = 1;
/// Number of context models for the intra luma most-probable-mode index.
pub const NUM_CTX_INTRA_LUMA_PRED_MPM_IDX: usize = 1;
/// Number of context models for the intra chroma prediction mode.
pub const NUM_CTX_INTRA_CHROMA_PRED_MODE: usize = 1;
/// Number of context models for the merge with motion vector difference flag.
pub const NUM_CTX_MMVD_FLAG: usize = 1;
/// Number of context models for the MMVD base candidate index.
pub const NUM_CTX_MMVD_MERGE_IDX: usize = 3;
/// Number of context models for the MMVD distance index.
pub const NUM_CTX_MMVD_DIST_IDX: usize = 7;
/// Number of context models for the MMVD direction index.
pub const NUM_CTX_MMVD_DIRECTION_IDX: usize = 2;
/// Number of context models for the MMVD group index.
pub const NUM_CTX_MMVD_GROUP_IDX: usize = 2;
/// Number of context models for the merge candidate index.
pub const NUM_CTX_MERGE_IDX: usize = 5;
/// Number of context models for the motion vector predictor index.
pub const NUM_CTX_MVP_IDX: usize = 3;
/// Number of context models for the adaptive motion vector resolution index.
pub const NUM_CTX_AMVR_IDX: usize = 4;
/// Number of context models for the bi-prediction index.
pub const NUM_CTX_BI_PRED_IDX: usize = 2;
/// Number of context models for the motion vector difference.
pub const NUM_CTX_MVD: usize = 1;
/// Number of context models for the reference picture index.
pub const NUM_CTX_REF_IDX: usize = 2;
/// Number of context models for the binary/ternary split flag.
pub const NUM_CTX_BTT_SPLIT_FLAG: usize = 15;
/// Number of context models for the binary/ternary split direction.
pub const NUM_CTX_BTT_SPLIT_DIR: usize = 5;
/// Number of context models for the binary/ternary split type.
pub const NUM_CTX_BTT_SPLIT_TYPE: usize = 1;
/// Number of context models for the split unit coding order flag.
pub const NUM_CTX_SUCO_FLAG: usize = 14;
/// Number of context models for the delta quantisation parameter.
pub const NUM_CTX_DELTA_QP: usize = 1;
/// Number of context models for the affine flag.
pub const NUM_CTX_AFFINE_FLAG: usize = 2;
/// Number of context models for the affine mode.
pub const NUM_CTX_AFFINE_MODE: usize = 1;
/// Number of context models for the affine merge index.
pub const NUM_CTX_AFFINE_MRG: usize = 5;
/// Number of context models for the affine motion vector predictor index.
pub const NUM_CTX_AFFINE_MVP_IDX: usize = 1;
/// Number of context models for the affine motion vector difference flag.
pub const NUM_CTX_AFFINE_MVD_FLAG: usize = 2;
/// Number of context models for the skip flag.
pub const NUM_CTX_SKIP_FLAG: usize = 2;
/// Number of context models for the intra block copy flag.
pub const NUM_CTX_IBC_FLAG: usize = 2;
/// Number of context models for the adaptive transform selection mode flag.
pub const NUM_CTX_ATS_MODE_FLAG: usize = 1;
/// Number of context models for the inter adaptive transform flag.
pub const NUM_CTX_ATS_INTER_FLAG: usize = 2;
/// Number of context models for the inter adaptive transform quad flag.
pub const NUM_CTX_ATS_INTER_QUAD_FLAG: usize = 1;
/// Number of context models for the inter adaptive transform horizontal flag.
pub const NUM_CTX_ATS_INTER_HOR_FLAG: usize = 3;
/// Number of context models for the inter adaptive transform position flag.
pub const NUM_CTX_ATS_INTER_POS_FLAG: usize = 1;
/// Every model of `models` equals `p`.
pub open spec fn models_are<const N: usize>(models: [SBAC_CTX_MODEL; N], p: SBAC_CTX_MODEL) -> bool {
    forall|i: int| 0 <= i < N ==> #[trigger] models[i] == p
}

/// Sets every model of `models` to `PROB_INIT`.
pub fn init_models<const N: usize>(models: &mut [SBAC_CTX_MODEL; N])
    ensures
        models_are(*final(models), PROB_INIT),
{
    for i in 0..N
        invariant
            forall|j: int| 0 <= j < i ==> #[trigger] models[j] == PROB_INIT,
    {
        models[i] = PROB_INIT;
    }
}

/// The context models of every syntax element that the arithmetic decoder
/// reads with an adaptive model.
#[allow(non_snake_case)]
pub struct EvcSbacCtx {
    pub alf_ctb_flag: [SBAC_CTX_MODEL; NUM_CTX_ALF_CTB_FLAG],
    pub split_cu_flag: [SBAC_CTX_MODEL; NUM_CTX_SPLIT_CU_FLAG],
    pub run: [SBAC_CTX_MODEL; NUM_CTX_CC_RUN],
    pub last: [SBAC_CTX_MODEL; NUM_CTX_CC_LAST],
    pub level: [SBAC_CTX_MODEL; NUM_CTX_CC_LEVEL],
    pub cbf_luma: [SBAC_CTX_MODEL; NUM_CTX_CBF_LUMA],
    pub cbf_cb: [SBAC_CTX_MODEL; NUM_CTX_CBF_CB],
    pub cbf_cr: [SBAC_CTX_MODEL; NUM_CTX_CBF_CR],
    pub cbf_all: [SBAC_CTX_MODEL; NUM_CTX_CBF_ALL],
    pub coeff_abs_level_greaterAB_flag: [SBAC_CTX_MODEL; NUM_CTX_GTX],
    pub last_sig_coeff_x_prefix: [SBAC_CTX_MODEL; NUM_CTX_LAST_SIG_COEFF],
    pub last_sig_coeff_y_prefix: [SBAC_CTX_MODEL; NUM_CTX_LAST_SIG_COEFF],
    pub pred_mode: [SBAC_CTX_MODEL; NUM_CTX_PRED_MODE],
    pub mode_cons: [SBAC_CTX_MODEL; NUM_CTX_MODE_CONS],
    pub direct_mode_flag: [SBAC_CTX_MODEL; NUM_CTX_DIRECT_MODE_FLAG],
    pub merge_mode_flag: [SBAC_CTX_MODEL; NUM_CTX_MERGE_MODE_FLAG],
    pub inter_dir: [SBAC_CTX_MODEL; NUM_CTX_INTER_PRED_IDC],
    pub intra_dir: [SBAC_CTX_MODEL; NUM_CTX_INTRA_PRED_MODE],
    pub intra_luma_pred_mpm_flag: [SBAC_CTX_MODEL; NUM_CTX_INTRA_LUMA_PRED_MPM_FLAG],
    pub intra_luma_pred_mpm_idx: [SBAC_CTX_MODEL; NUM_CTX_INTRA_LUMA_PRED_MPM_IDX],
    pub intra_chroma_pred_mode: [SBAC_CTX_MODEL; NUM_CTX_INTRA_CHROMA_PRED_MODE],
    pub mmvd_flag: [SBAC_CTX_MODEL; NUM_CTX_MMVD_FLAG],
    pub mmvd_merge_idx: [SBAC_CTX_MODEL; NUM_CTX_MMVD_MERGE_IDX],
    pub mmvd_distance_idx: [SBAC_CTX_MODEL; NUM_CTX_MMVD_DIST_IDX],
    pub mmvd_direction_idx: [SBAC_CTX_MODEL; NUM_CTX_MMVD_DIRECTION_IDX],
    pub mmvd_group_idx: [SBAC_CTX_MODEL; NUM_CTX_MMVD_GROUP_IDX],
    pub merge_idx: [SBAC_CTX_MODEL; NUM_CTX_MERGE_IDX],
    pub mvp_idx: [SBAC_CTX_MODEL; NUM_CTX_MVP_IDX],
    pub mvr_idx: [SBAC_CTX_MODEL; NUM_CTX_AMVR_IDX],
    pub bi_idx: [SBAC_CTX_MODEL; NUM_CTX_BI_PRED_IDX],
    pub mvd: [SBAC_CTX_MODEL; NUM_CTX_MVD],
    pub refi: [SBAC_CTX_MODEL; NUM_CTX_REF_IDX],
    pub btt_split_flag: [SBAC_CTX_MODEL; NUM_CTX_BTT_SPLIT_FLAG],
    pub btt_split_dir: [SBAC_CTX_MODEL; NUM_CTX_BTT_SPLIT_DIR],
    pub btt_split_type: [SBAC_CTX_MODEL; NUM_CTX_BTT_SPLIT_TYPE],
    pub suco_flag: [SBAC_CTX_MODEL; NUM_CTX_SUCO_FLAG],
    pub delta_qp: [SBAC_CTX_MODEL; NUM_CTX_DELTA_QP],
    pub affine_flag: [SBAC_CTX_MODEL; NUM_CTX_AFFINE_FLAG],
    pub affine_mode: [SBAC_CTX_MODEL; NUM_CTX_AFFINE_MODE],
    pub affine_mrg: [SBAC_CTX_MODEL; NUM_CTX_AFFINE_MRG],
    pub affine_mvp_idx: [SBAC_CTX_MODEL; NUM_CTX_AFFINE_MVP_IDX],
    pub affine_mvd_flag: [SBAC_CTX_MODEL; NUM_CTX_AFFINE_MVD_FLAG],
    pub skip_flag: [SBAC_CTX_MODEL; NUM_CTX_SKIP_FLAG],
    pub ibc_flag: [SBAC_CTX_MODEL; NUM_CTX_IBC_FLAG],
    pub ats_mode: [SBAC_CTX_MODEL; NUM_CTX_ATS_MODE_FLAG],
    pub ats_cu_inter_flag: [SBAC_CTX_MODEL; NUM_CTX_ATS_INTER_FLAG],
    pub ats_cu_inter_quad_flag: [SBAC_CTX_MODEL; NUM_CTX_ATS_INTER_QUAD_FLAG],
    pub ats_cu_inter_hor_flag: [SBAC_CTX_MODEL; NUM_CTX_ATS_INTER_HOR_FLAG],
    pub ats_cu_inter_pos_flag: [SBAC_CTX_MODEL; NUM_CTX_ATS_INTER_POS_FLAG],
}

impl EvcSbacCtx {
    /// Every context model of every syntax element equals `p`.
    pub open spec fn all_models_are(self, p: SBAC_CTX_MODEL) -> bool {
        &&& models_are(self.alf_ctb_flag, p)
        &&& models_are(self.split_cu_flag, p)
        &&& models_are(self.run, p)
        &&& models_are(self.last, p)
        &&& models_are(self.level, p)
        &&& models_are(self.cbf_luma, p)
        &&& models_are(self.cbf_cb, p)
        &&& models_are(self.cbf_cr, p)
        &&& models_are(self.cbf_all, p)
        &&& models_are(self.coeff_abs_level_greaterAB_flag, p)
        &&& models_are(self.last_sig_coeff_x_prefix, p)
        &&& models_are(self.last_sig_coeff_y_prefix, p)
        &&& models_are(self.pred_mode, p)
        &&& models_are(self.mode_cons, p)
        &&& models_are(self.direct_mode_flag, p)
        &&& models_are(self.merge_mode_flag, p)
        &&& models_are(self.inter_dir, p)
        &&& models_are(self.intra_dir, p)
        &&& models_are(self.intra_luma_pred_mpm_flag, p)
        &&& models_are(self.intra_luma_pred_mpm_idx, p)
        &&& models_are(self.intra_chroma_pred_mode, p)
        &&& models_are(self.mmvd_flag, p)
        &&& models_are(self.mmvd_merge_idx, p)
        &&& models_are(self.mmvd_distance_idx, p)
        &&& models_are(self.mmvd_direction_idx, p)
        &&& models_are(self.mmvd_group_idx, p)
        &&& models_are(self.merge_idx, p)
        &&& models_are(self.mvp_idx, p)
        &&& models_are(self.mvr_idx, p)
        &&& models_are(self.bi_idx, p)
        &&& models_are(self.mvd, p)
        &&& models_are(self.refi, p)
        &&& models_are(self.btt_split_flag, p)
        &&& models_are(self.btt_split_dir, p)
        &&& models_are(self.btt_split_type, p)
        &&& models_are(self.suco_flag, p)
        &&& models_are(self.delta_qp, p)
        &&& models_are(self.affine_flag, p)
        &&& models_are(self.affine_mode, p)
        &&& models_are(self.affine_mrg, p)
        &&& models_are(self.affine_mvp_idx, p)
        &&& models_are(self.affine_mvd_flag, p)
        &&& models_are(self.skip_flag, p)
        &&& models_are(self.ibc_flag, p)
        &&& models_are(self.ats_mode, p)
        &&& models_are(self.ats_cu_inter_flag, p)
        &&& models_are(self.ats_cu_inter_quad_flag, p)
        &&& models_are(self.ats_cu_inter_hor_flag, p)
        &&& models_are(self.ats_cu_inter_pos_flag, p)
    }
}

impl Default for EvcSbacCtx {
    /// All context models zero.
    fn default() -> (c: Self)
        ensures
            c.all_models_are(0),
    {
        EvcSbacCtx {
            alf_ctb_flag: [0; NUM_CTX_ALF_CTB_FLAG],
            split_cu_flag: [0; NUM_CTX_SPLIT_CU_FLAG],
            run: [0; NUM_CTX_CC_RUN],
            last: [0; NUM_CTX_CC_LAST],
            level: [0; NUM_CTX_CC_LEVEL],
            cbf_luma: [0; NUM_CTX_CBF_LUMA],
            cbf_cb: [0; NUM_CTX_CBF_CB],
            cbf_cr: [0; NUM_CTX_CBF_CR],
            cbf_all: [0; NUM_CTX_CBF_ALL],
            coeff_abs_level_greaterAB_flag: [0; NUM_CTX_GTX],
            last_sig_coeff_x_prefix: [0; NUM_CTX_LAST_SIG_COEFF],
            last_sig_coeff_y_prefix: [0; NUM_CTX_LAST_SIG_COEFF],
            pred_mode: [0; NUM_CTX_PRED_MODE],
            mode_cons: [0; NUM_CTX_MODE_CONS],
            direct_mode_flag: [0; NUM_CTX_DIRECT_MODE_FLAG],
            merge_mode_flag: [0; NUM_CTX_MERGE_MODE_FLAG],
            inter_dir: [0; NUM_CTX_INTER_PRED_IDC],
            intra_dir: [0; NUM_CTX_INTRA_PRED_MODE],
            intra_luma_pred_mpm_flag: [0; NUM_CTX_INTRA_LUMA_PRED_MPM_FLAG],
            intra_luma_pred_mpm_idx: [0; NUM_CTX_INTRA_LUMA_PRED_MPM_IDX],
            intra_chroma_pred_mode: [0; NUM_CTX_INTRA_CHROMA_PRED_MODE],
            mmvd_flag: [0; NUM_CTX_MMVD_FLAG],
            mmvd_merge_idx: [0; NUM_CTX_MMVD_MERGE_IDX],
            mmvd_distance_idx: [0; NUM_CTX_MMVD_DIST_IDX],
            mmvd_direction_idx: [0; NUM_CTX_MMVD_DIRECTION_IDX],
            mmvd_group_idx: [0; NUM_CTX_MMVD_GROUP_IDX],
            merge_idx: [0; NUM_CTX_MERGE_IDX],
            mvp_idx: [0; NUM_CTX_MVP_IDX],
            mvr_idx: [0; NUM_CTX_AMVR_IDX],
            bi_idx: [0; NUM_CTX_BI_PRED_IDX],
            mvd: [0; NUM_CTX_MVD],
            refi: [0; NUM_CTX_REF_IDX],
            btt_split_flag: [0; NUM_CTX_BTT_SPLIT_FLAG],
            btt_split_dir: [0; NUM_CTX_BTT_SPLIT_DIR],
            btt_split_type: [0; NUM_CTX_BTT_SPLIT_TYPE],
            suco_flag: [0; NUM_CTX_SUCO_FLAG],
            delta_qp: [0; NUM_CTX_DELTA_QP],
            affine_flag: [0; NUM_CTX_AFFINE_FLAG],
            affine_mode: [0; NUM_CTX_AFFINE_MODE],
            affine_mrg: [0; NUM_CTX_AFFINE_MRG],
            affine_mvp_idx: [0; NUM_CTX_AFFINE_MVP_IDX],
            affine_mvd_flag: [0; NUM_CTX_AFFINE_MVD_FLAG],
            skip_flag: [0; NUM_CTX_SKIP_FLAG],
            ibc_flag: [0; NUM_CTX_IBC_FLAG],
            ats_mode: [0; NUM_CTX_ATS_MODE_FLAG],
            ats_cu_inter_flag: [0; NUM_CTX_ATS_INTER_FLAG],
            ats_cu_inter_quad_flag: [0; NUM_CTX_ATS_INTER_QUAD_FLAG],
            ats_cu_inter_hor_flag: [0; NUM_CTX_ATS_INTER_HOR_FLAG],
            ats_cu_inter_pos_flag: [0; NUM_CTX_ATS_INTER_POS_FLAG],
        }
    }
}

} // verus!
