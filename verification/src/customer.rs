//! Customer marketing, consent and tax-exemption enums, with their GraphQL enum texts.
use vstd::prelude::*;

pub mod customer_info;
pub mod customer_update;
pub mod payment_methods;
use crate::text::{chars_of, chars_equal, string_from_slice, str_eq, to_uppercase, spec_to_uppercase};

verus! {

#[derive(Debug, Clone, PartialEq, Eq, Structural)]
pub enum TaxExemption {
    /// `CA_BC_COMMERCIAL_FISHERY_EXEMPTION`
    CA_BC_COMMERCIAL_FISHERY_EXEMPTION,
    /// `CA_BC_CONTRACTOR_EXEMPTION`
    CA_BC_CONTRACTOR_EXEMPTION,
    /// `CA_BC_PRODUCTION_AND_MACHINERY_EXEMPTION`
    CA_BC_PRODUCTION_AND_MACHINERY_EXEMPTION,
    /// `CA_BC_RESELLER_EXEMPTION`
    CA_BC_RESELLER_EXEMPTION,
    /// `CA_BC_SUB_CONTRACTOR_EXEMPTION`
    CA_BC_SUB_CONTRACTOR_EXEMPTION,
    /// `CA_DIPLOMAT_EXEMPTION`
    CA_DIPLOMAT_EXEMPTION,
    /// `CA_MB_COMMERCIAL_FISHERY_EXEMPTION`
    CA_MB_COMMERCIAL_FISHERY_EXEMPTION,
    /// `CA_MB_FARMER_EXEMPTION`
    CA_MB_FARMER_EXEMPTION,
    /// `CA_MB_RESELLER_EXEMPTION`
    CA_MB_RESELLER_EXEMPTION,
    /// `CA_NS_COMMERCIAL_FISHERY_EXEMPTION`
    CA_NS_COMMERCIAL_FISHERY_EXEMPTION,
    /// `CA_NS_FARMER_EXEMPTION`
    CA_NS_FARMER_EXEMPTION,
    /// `CA_ON_PURCHASE_EXEMPTION`
    CA_ON_PURCHASE_EXEMPTION,
    /// `CA_PE_COMMERCIAL_FISHERY_EXEMPTION`
    CA_PE_COMMERCIAL_FISHERY_EXEMPTION,
    /// `CA_SK_COMMERCIAL_FISHERY_EXEMPTION`
    CA_SK_COMMERCIAL_FISHERY_EXEMPTION,
    /// `CA_SK_CONTRACTOR_EXEMPTION`
    CA_SK_CONTRACTOR_EXEMPTION,
    /// `CA_SK_FARMER_EXEMPTION`
    CA_SK_FARMER_EXEMPTION,
    /// `CA_SK_PRODUCTION_AND_MACHINERY_EXEMPTION`
    CA_SK_PRODUCTION_AND_MACHINERY_EXEMPTION,
    /// `CA_SK_RESELLER_EXEMPTION`
    CA_SK_RESELLER_EXEMPTION,
    /// `CA_SK_SUB_CONTRACTOR_EXEMPTION`
    CA_SK_SUB_CONTRACTOR_EXEMPTION,
    /// `CA_STATUS_CARD_EXEMPTION`
    CA_STATUS_CARD_EXEMPTION,
    /// `EU_REVERSE_CHARGE_EXEMPTION_RULE`
    EU_REVERSE_CHARGE_EXEMPTION_RULE,
    /// `US_AK_RESELLER_EXEMPTION`
    US_AK_RESELLER_EXEMPTION,
    /// `US_AL_RESELLER_EXEMPTION`
    US_AL_RESELLER_EXEMPTION,
    /// `US_AR_RESELLER_EXEMPTION`
    US_AR_RESELLER_EXEMPTION,
    /// `US_AZ_RESELLER_EXEMPTION`
    US_AZ_RESELLER_EXEMPTION,
    /// `US_CA_RESELLER_EXEMPTION`
    US_CA_RESELLER_EXEMPTION,
    /// `US_CO_RESELLER_EXEMPTION`
    US_CO_RESELLER_EXEMPTION,
    /// `US_CT_RESELLER_EXEMPTION`
    US_CT_RESELLER_EXEMPTION,
    /// `US_DC_RESELLER_EXEMPTION`
    US_DC_RESELLER_EXEMPTION,
    /// `US_DE_RESELLER_EXEMPTION`
    US_DE_RESELLER_EXEMPTION,
    /// `US_FL_RESELLER_EXEMPTION`
    US_FL_RESELLER_EXEMPTION,
    /// `US_GA_RESELLER_EXEMPTION`
    US_GA_RESELLER_EXEMPTION,
    /// `US_HI_RESELLER_EXEMPTION`
    US_HI_RESELLER_EXEMPTION,
    /// `US_IA_RESELLER_EXEMPTION`
    US_IA_RESELLER_EXEMPTION,
    /// `US_ID_RESELLER_EXEMPTION`
    US_ID_RESELLER_EXEMPTION,
    /// `US_IL_RESELLER_EXEMPTION`
    US_IL_RESELLER_EXEMPTION,
    /// `US_IN_RESELLER_EXEMPTION`
    US_IN_RESELLER_EXEMPTION,
    /// `US_KS_RESELLER_EXEMPTION`
    US_KS_RESELLER_EXEMPTION,
    /// `US_KY_RESELLER_EXEMPTION`
    US_KY_RESELLER_EXEMPTION,
    /// `US_LA_RESELLER_EXEMPTION`
    US_LA_RESELLER_EXEMPTION,
    /// `US_MA_RESELLER_EXEMPTION`
    US_MA_RESELLER_EXEMPTION,
    /// `US_MD_RESELLER_EXEMPTION`
    US_MD_RESELLER_EXEMPTION,
    /// `US_ME_RESELLER_EXEMPTION`
    US_ME_RESELLER_EXEMPTION,
    /// `US_MI_RESELLER_EXEMPTION`
    US_MI_RESELLER_EXEMPTION,
    /// `US_MN_RESELLER_EXEMPTION`
    US_MN_RESELLER_EXEMPTION,
    /// `US_MO_RESELLER_EXEMPTION`
    US_MO_RESELLER_EXEMPTION,
    /// `US_MS_RESELLER_EXEMPTION`
    US_MS_RESELLER_EXEMPTION,
    /// `US_MT_RESELLER_EXEMPTION`
    US_MT_RESELLER_EXEMPTION,
    /// `US_NC_RESELLER_EXEMPTION`
    US_NC_RESELLER_EXEMPTION,
    /// `US_ND_RESELLER_EXEMPTION`
    US_ND_RESELLER_EXEMPTION,
    /// `US_NE_RESELLER_EXEMPTION`
    US_NE_RESELLER_EXEMPTION,
    /// `US_NH_RESELLER_EXEMPTION`
    US_NH_RESELLER_EXEMPTION,
    /// `US_NJ_RESELLER_EXEMPTION`
    US_NJ_RESELLER_EXEMPTION,
    /// `US_NM_RESELLER_EXEMPTION`
    US_NM_RESELLER_EXEMPTION,
    /// `US_NV_RESELLER_EXEMPTION`
    US_NV_RESELLER_EXEMPTION,
    /// `US_NY_RESELLER_EXEMPTION`
    US_NY_RESELLER_EXEMPTION,
    /// `US_OH_RESELLER_EXEMPTION`
    US_OH_RESELLER_EXEMPTION,
    /// `US_OK_RESELLER_EXEMPTION`
    US_OK_RESELLER_EXEMPTION,
    /// `US_OR_RESELLER_EXEMPTION`
    US_OR_RESELLER_EXEMPTION,
    /// `US_PA_RESELLER_EXEMPTION`
    US_PA_RESELLER_EXEMPTION,
    /// `US_RI_RESELLER_EXEMPTION`
    US_RI_RESELLER_EXEMPTION,
    /// `US_SC_RESELLER_EXEMPTION`
    US_SC_RESELLER_EXEMPTION,
    /// `US_SD_RESELLER_EXEMPTION`
    US_SD_RESELLER_EXEMPTION,
    /// `US_TN_RESELLER_EXEMPTION`
    US_TN_RESELLER_EXEMPTION,
    /// `US_TX_RESELLER_EXEMPTION`
    US_TX_RESELLER_EXEMPTION,
    /// `US_UT_RESELLER_EXEMPTION`
    US_UT_RESELLER_EXEMPTION,
    /// `US_VA_RESELLER_EXEMPTION`
    US_VA_RESELLER_EXEMPTION,
    /// `US_VT_RESELLER_EXEMPTION`
    US_VT_RESELLER_EXEMPTION,
    /// `US_WA_RESELLER_EXEMPTION`
    US_WA_RESELLER_EXEMPTION,
    /// `US_WI_RESELLER_EXEMPTION`
    US_WI_RESELLER_EXEMPTION,
    /// `US_WV_RESELLER_EXEMPTION`
    US_WV_RESELLER_EXEMPTION,
    /// `US_WY_RESELLER_EXEMPTION`
    US_WY_RESELLER_EXEMPTION,
}

impl TaxExemption {
    /// The strings that `from_str` accepts.
    pub open spec fn spec_is_known(s: Seq<char>) -> bool {
        ||| s == seq!['C', 'A', '_', 'B', 'C', '_', 'C', 'O', 'M', 'M', 'E', 'R', 'C', 'I', 'A', 'L', '_', 'F', 'I', 'S', 'H', 'E', 'R', 'Y', '_', 'E', 'X', 'E', 'M', 'P', 'T', 'I', 'O', 'N']
        ||| s == seq!['C', 'A', '_', 'B', 'C', '_', 'C', 'O', 'N', 'T', 'R', 'A', 'C', 'T', 'O', 'R', '_', 'E', 'X', 'E', 'M', 'P', 'T', 'I', 'O', 'N']
        ||| s == seq!['C', 'A', '_', 'B', 'C', '_', 'P', 'R', 'O', 'D', 'U', 'C', 'T', 'I', 'O', 'N', '_', 'A', 'N', 'D', '_', 'M', 'A', 'C', 'H', 'I', 'N', 'E', 'R', 'Y', '_', 'E', 'X', 'E', 'M', 'P', 'T', 'I', 'O', 'N']
        ||| s == seq!['C', 'A', '_', 'B', 'C', '_', 'R', 'E', 'S', 'E', 'L', 'L', 'E', 'R', '_', 'E', 'X', 'E', 'M', 'P', 'T', 'I', 'O', 'N']
        ||| s == seq!['C', 'A', '_', 'B', 'C', '_', 'S', 'U', 'B', '_', 'C', 'O', 'N', 'T', 'R', 'A', 'C', 'T', 'O', 'R', '_', 'E', 'X', 'E', 'M', 'P', 'T', 'I', 'O', 'N']
        ||| s == seq!['C', 'A', '_', 'D', 'I', 'P', 'L', 'O', 'M', 'A', 'T', '_', 'E', 'X', 'E', 'M', 'P', 'T', 'I', 'O', 'N']
        ||| s == seq!['C', 'A', '_', 'M', 'B', '_', 'C', 'O', 'M', 'M', 'E', 'R', 'C', 'I', 'A', 'L', '_', 'F', 'I', 'S', 'H', 'E', 'R', 'Y', '_', 'E', 'X', 'E', 'M', 'P', 'T', 'I', 'O', 'N']
        ||| s == seq!['C', 'A', '_', 'M', 'B', '_', 'F', 'A', 'R', 'M', 'E', 'R', '_', 'E', 'X', 'E', 'M', 'P', 'T', 'I', 'O', 'N']
        ||| s == seq!['C', 'A', '_', 'M', 'B', '_', 'R', 'E', 'S', 'E', 'L', 'L', 'E', 'R', '_', 'E', 'X', 'E', 'M', 'P', 'T', 'I', 'O', 'N']
        ||| s == seq!['C', 'A', '_', 'N', 'S', '_', 'C', 'O', 'M', 'M', 'E', 'R', 'C', 'I', 'A', 'L', '_', 'F', 'I', 'S', 'H', 'E', 'R', 'Y', '_', 'E', 'X', 'E', 'M', 'P', 'T', 'I', 'O', 'N']
        ||| s == seq!['C', 'A', '_', 'N', 'S', '_', 'F', 'A', 'R', 'M', 'E', 'R', '_', 'E', 'X', 'E', 'M', 'P', 'T', 'I', 'O', 'N']
        ||| s == seq!['C', 'A', '_', 'O', 'N', '_', 'P', 'U', 'R', 'C', 'H', 'A', 'S', 'E', '_', 'E', 'X', 'E', 'M', 'P', 'T', 'I', 'O', 'N']
        ||| s == seq!['C', 'A', '_', 'P', 'E', '_', 'C', 'O', 'M', 'M', 'E', 'R', 'C', 'I', 'A', 'L', '_', 'F', 'I', 'S', 'H', 'E', 'R', 'Y', '_', 'E', 'X', 'E', 'M', 'P', 'T', 'I', 'O', 'N']
        ||| s == seq!['C', 'A', '_', 'S', 'K', '_', 'C', 'O', 'M', 'M', 'E', 'R', 'C', 'I', 'A', 'L', '_', 'F', 'I', 'S', 'H', 'E', 'R', 'Y', '_', 'E', 'X', 'E', 'M', 'P', 'T', 'I', 'O', 'N']
        ||| s == seq!['C', 'A', '_', 'S', 'K', '_', 'C', 'O', 'N', 'T', 'R', 'A', 'C', 'T', 'O', 'R', '_', 'E', 'X', 'E', 'M', 'P', 'T', 'I', 'O', 'N']
        ||| s == seq!['C', 'A', '_', 'S', 'K', '_', 'F', 'A', 'R', 'M', 'E', 'R', '_', 'E', 'X', 'E', 'M', 'P', 'T', 'I', 'O', 'N']
        ||| s == seq!['C', 'A', '_', 'S', 'K', '_', 'P', 'R', 'O', 'D', 'U', 'C', 'T', 'I', 'O', 'N', '_', 'A', 'N', 'D', '_', 'M', 'A', 'C', 'H', 'I', 'N', 'E', 'R', 'Y', '_', 'E', 'X', 'E', 'M', 'P', 'T', 'I', 'O', 'N']
        ||| s == seq!['C', 'A', '_', 'S', 'K', '_', 'R', 'E', 'S', 'E', 'L', 'L', 'E', 'R', '_', 'E', 'X', 'E', 'M', 'P', 'T', 'I', 'O', 'N']
        ||| s == seq!['C', 'A', '_', 'S', 'K', '_', 'S', 'U', 'B', '_', 'C', 'O', 'N', 'T', 'R', 'A', 'C', 'T', 'O', 'R', '_', 'E', 'X', 'E', 'M', 'P', 'T', 'I', 'O', 'N']
        ||| s == seq!['C', 'A', '_', 'S', 'T', 'A', 'T', 'U', 'S', '_', 'C', 'A', 'R', 'D', '_', 'E', 'X', 'E', 'M', 'P', 'T', 'I', 'O', 'N']
        ||| s == seq!['E', 'U', '_', 'R', 'E', 'V', 'E', 'R', 'S', 'E', '_', 'C', 'H', 'A', 'R', 'G', 'E', '_', 'E', 'X', 'E', 'M', 'P', 'T', 'I', 'O', 'N', '_', 'R', 'U', 'L', 'E']
        ||| s == seq!['U', 'S', '_', 'A', 'K', '_', 'R', 'E', 'S', 'E', 'L', 'L', 'E', 'R', '_', 'E', 'X', 'E', 'M', 'P', 'T', 'I', 'O', 'N']
        ||| s == seq!['U', 'S', '_', 'A', 'L', '_', 'R', 'E', 'S', 'E', 'L', 'L', 'E', 'R', '_', 'E', 'X', 'E', 'M', 'P', 'T', 'I', 'O', 'N']
        ||| s == seq!['U', 'S', '_', 'A', 'R', '_', 'R', 'E', 'S', 'E', 'L', 'L', 'E', 'R', '_', 'E', 'X', 'E', 'M', 'P', 'T', 'I', 'O', 'N']
        ||| s == seq!['U', 'S', '_', 'A', 'Z', '_', 'R', 'E', 'S', 'E', 'L', 'L', 'E', 'R', '_', 'E', 'X', 'E', 'M', 'P', 'T', 'I', 'O', 'N']
        ||| s == seq!['U', 'S', '_', 'C', 'A', '_', 'R', 'E', 'S', 'E', 'L', 'L', 'E', 'R', '_', 'E', 'X', 'E', 'M', 'P', 'T', 'I', 'O', 'N']
        ||| s == seq!['U', 'S', '_', 'C', 'O', '_', 'R', 'E', 'S', 'E', 'L', 'L', 'E', 'R', '_', 'E', 'X', 'E', 'M', 'P', 'T', 'I', 'O', 'N']
        ||| s == seq!['U', 'S', '_', 'C', 'T', '_', 'R', 'E', 'S', 'E', 'L', 'L', 'E', 'R', '_', 'E', 'X', 'E', 'M', 'P', 'T', 'I', 'O', 'N']
        ||| s == seq!['U', 'S', '_', 'D', 'C', '_', 'R', 'E', 'S', 'E', 'L', 'L', 'E', 'R', '_', 'E', 'X', 'E', 'M', 'P', 'T', 'I', 'O', 'N']
        ||| s == seq!['U', 'S', '_', 'D', 'E', '_', 'R', 'E', 'S', 'E', 'L', 'L', 'E', 'R', '_', 'E', 'X', 'E', 'M', 'P', 'T', 'I', 'O', 'N']
        ||| s == seq!['U', 'S', '_', 'F', 'L', '_', 'R', 'E', 'S', 'E', 'L', 'L', 'E', 'R', '_', 'E', 'X', 'E', 'M', 'P', 'T', 'I', 'O', 'N']
        ||| s == seq!['U', 'S', '_', 'G', 'A', '_', 'R', 'E', 'S', 'E', 'L', 'L', 'E', 'R', '_', 'E', 'X', 'E', 'M', 'P', 'T', 'I', 'O', 'N']
        ||| s == seq!['U', 'S', '_', 'H', 'I', '_', 'R', 'E', 'S', 'E', 'L', 'L', 'E', 'R', '_', 'E', 'X', 'E', 'M', 'P', 'T', 'I', 'O', 'N']
        ||| s == seq!['U', 'S', '_', 'I', 'A', '_', 'R', 'E', 'S', 'E', 'L', 'L', 'E', 'R', '_', 'E', 'X', 'E', 'M', 'P', 'T', 'I', 'O', 'N']
        ||| s == seq!['U', 'S', '_', 'I', 'D', '_', 'R', 'E', 'S', 'E', 'L', 'L', 'E', 'R', '_', 'E', 'X', 'E', 'M', 'P', 'T', 'I', 'O', 'N']
        ||| s == seq!['U', 'S', '_', 'I', 'L', '_', 'R', 'E', 'S', 'E', 'L', 'L', 'E', 'R', '_', 'E', 'X', 'E', 'M', 'P', 'T', 'I', 'O', 'N']
        ||| s == seq!['U', 'S', '_', 'I', 'N', '_', 'R', 'E', 'S', 'E', 'L', 'L', 'E', 'R', '_', 'E', 'X', 'E', 'M', 'P', 'T', 'I', 'O', 'N']
        ||| s == seq!['U', 'S', '_', 'K', 'S', '_', 'R', 'E', 'S', 'E', 'L', 'L', 'E', 'R', '_', 'E', 'X', 'E', 'M', 'P', 'T', 'I', 'O', 'N']
        ||| s == seq!['U', 'S', '_', 'K', 'Y', '_', 'R', 'E', 'S', 'E', 'L', 'L', 'E', 'R', '_', 'E', 'X', 'E', 'M', 'P', 'T', 'I', 'O', 'N']
        ||| s == seq!['U', 'S', '_', 'L', 'A', '_', 'R', 'E', 'S', 'E', 'L', 'L', 'E', 'R', '_', 'E', 'X', 'E', 'M', 'P', 'T', 'I', 'O', 'N']
        ||| s == seq!['U', 'S', '_', 'M', 'A', '_', 'R', 'E', 'S', 'E', 'L', 'L', 'E', 'R', '_', 'E', 'X', 'E', 'M', 'P', 'T', 'I', 'O', 'N']
        ||| s == seq!['U', 'S', '_', 'M', 'D', '_', 'R', 'E', 'S', 'E', 'L', 'L', 'E', 'R', '_', 'E', 'X', 'E', 'M', 'P', 'T', 'I', 'O', 'N']
        ||| s == seq!['U', 'S', '_', 'M', 'E', '_', 'R', 'E', 'S', 'E', 'L', 'L', 'E', 'R', '_', 'E', 'X', 'E', 'M', 'P', 'T', 'I', 'O', 'N']
        ||| s == seq!['U', 'S', '_', 'M', 'I', '_', 'R', 'E', 'S', 'E', 'L', 'L', 'E', 'R', '_', 'E', 'X', 'E', 'M', 'P', 'T', 'I', 'O', 'N']
        ||| s == seq!['U', 'S', '_', 'M', 'N', '_', 'R', 'E', 'S', 'E', 'L', 'L', 'E', 'R', '_', 'E', 'X', 'E', 'M', 'P', 'T', 'I', 'O', 'N']
        ||| s == seq!['U', 'S', '_', 'M', 'O', '_', 'R', 'E', 'S', 'E', 'L', 'L', 'E', 'R', '_', 'E', 'X', 'E', 'M', 'P', 'T', 'I', 'O', 'N']
        ||| s == seq!['U', 'S', '_', 'M', 'S', '_', 'R', 'E', 'S', 'E', 'L', 'L', 'E', 'R', '_', 'E', 'X', 'E', 'M', 'P', 'T', 'I', 'O', 'N']
        ||| s == seq!['U', 'S', '_', 'M', 'T', '_', 'R', 'E', 'S', 'E', 'L', 'L', 'E', 'R', '_', 'E', 'X', 'E', 'M', 'P', 'T', 'I', 'O', 'N']
        ||| s == seq!['U', 'S', '_', 'N', 'C', '_', 'R', 'E', 'S', 'E', 'L', 'L', 'E', 'R', '_', 'E', 'X', 'E', 'M', 'P', 'T', 'I', 'O', 'N']
        ||| s == seq!['U', 'S', '_', 'N', 'D', '_', 'R', 'E', 'S', 'E', 'L', 'L', 'E', 'R', '_', 'E', 'X', 'E', 'M', 'P', 'T', 'I', 'O', 'N']
        ||| s == seq!['U', 'S', '_', 'N', 'E', '_', 'R', 'E', 'S', 'E', 'L', 'L', 'E', 'R', '_', 'E', 'X', 'E', 'M', 'P', 'T', 'I', 'O', 'N']
        ||| s == seq!['U', 'S', '_', 'N', 'H', '_', 'R', 'E', 'S', 'E', 'L', 'L', 'E', 'R', '_', 'E', 'X', 'E', 'M', 'P', 'T', 'I', 'O', 'N']
        ||| s == seq!['U', 'S', '_', 'N', 'J', '_', 'R', 'E', 'S', 'E', 'L', 'L', 'E', 'R', '_', 'E', 'X', 'E', 'M', 'P', 'T', 'I', 'O', 'N']
        ||| s == seq!['U', 'S', '_', 'N', 'M', '_', 'R', 'E', 'S', 'E', 'L', 'L', 'E', 'R', '_', 'E', 'X', 'E', 'M', 'P', 'T', 'I', 'O', 'N']
        ||| s == seq!['U', 'S', '_', 'N', 'V', '_', 'R', 'E', 'S', 'E', 'L', 'L', 'E', 'R', '_', 'E', 'X', 'E', 'M', 'P', 'T', 'I', 'O', 'N']
        ||| s == seq!['U', 'S', '_', 'N', 'Y', '_', 'R', 'E', 'S', 'E', 'L', 'L', 'E', 'R', '_', 'E', 'X', 'E', 'M', 'P', 'T', 'I', 'O', 'N']
        ||| s == seq!['U', 'S', '_', 'O', 'H', '_', 'R', 'E', 'S', 'E', 'L', 'L', 'E', 'R', '_', 'E', 'X', 'E', 'M', 'P', 'T', 'I', 'O', 'N']
        ||| s == seq!['U', 'S', '_', 'O', 'K', '_', 'R', 'E', 'S', 'E', 'L', 'L', 'E', 'R', '_', 'E', 'X', 'E', 'M', 'P', 'T', 'I', 'O', 'N']
        ||| s == seq!['U', 'S', '_', 'O', 'R', '_', 'R', 'E', 'S', 'E', 'L', 'L', 'E', 'R', '_', 'E', 'X', 'E', 'M', 'P', 'T', 'I', 'O', 'N']
        ||| s == seq!['U', 'S', '_', 'P', 'A', '_', 'R', 'E', 'S', 'E', 'L', 'L', 'E', 'R', '_', 'E', 'X', 'E', 'M', 'P', 'T', 'I', 'O', 'N']
        ||| s == seq!['U', 'S', '_', 'R', 'I', '_', 'R', 'E', 'S', 'E', 'L', 'L', 'E', 'R', '_', 'E', 'X', 'E', 'M', 'P', 'T', 'I', 'O', 'N']
        ||| s == seq!['U', 'S', '_', 'S', 'C', '_', 'R', 'E', 'S', 'E', 'L', 'L', 'E', 'R', '_', 'E', 'X', 'E', 'M', 'P', 'T', 'I', 'O', 'N']
        ||| s == seq!['U', 'S', '_', 'S', 'D', '_', 'R', 'E', 'S', 'E', 'L', 'L', 'E', 'R', '_', 'E', 'X', 'E', 'M', 'P', 'T', 'I', 'O', 'N']
        ||| s == seq!['U', 'S', '_', 'T', 'N', '_', 'R', 'E', 'S', 'E', 'L', 'L', 'E', 'R', '_', 'E', 'X', 'E', 'M', 'P', 'T', 'I', 'O', 'N']
        ||| s == seq!['U', 'S', '_', 'T', 'X', '_', 'R', 'E', 'S', 'E', 'L', 'L', 'E', 'R', '_', 'E', 'X', 'E', 'M', 'P', 'T', 'I', 'O', 'N']
        ||| s == seq!['U', 'S', '_', 'U', 'T', '_', 'R', 'E', 'S', 'E', 'L', 'L', 'E', 'R', '_', 'E', 'X', 'E', 'M', 'P', 'T', 'I', 'O', 'N']
        ||| s == seq!['U', 'S', '_', 'V', 'A', '_', 'R', 'E', 'S', 'E', 'L', 'L', 'E', 'R', '_', 'E', 'X', 'E', 'M', 'P', 'T', 'I', 'O', 'N']
        ||| s == seq!['U', 'S', '_', 'V', 'T', '_', 'R', 'E', 'S', 'E', 'L', 'L', 'E', 'R', '_', 'E', 'X', 'E', 'M', 'P', 'T', 'I', 'O', 'N']
        ||| s == seq!['U', 'S', '_', 'W', 'A', '_', 'R', 'E', 'S', 'E', 'L', 'L', 'E', 'R', '_', 'E', 'X', 'E', 'M', 'P', 'T', 'I', 'O', 'N']
        ||| s == seq!['U', 'S', '_', 'W', 'I', '_', 'R', 'E', 'S', 'E', 'L', 'L', 'E', 'R', '_', 'E', 'X', 'E', 'M', 'P', 'T', 'I', 'O', 'N']
        ||| s == seq!['U', 'S', '_', 'W', 'V', '_', 'R', 'E', 'S', 'E', 'L', 'L', 'E', 'R', '_', 'E', 'X', 'E', 'M', 'P', 'T', 'I', 'O', 'N']
        ||| s == seq!['U', 'S', '_', 'W', 'Y', '_', 'R', 'E', 'S', 'E', 'L', 'L', 'E', 'R', '_', 'E', 'X', 'E', 'M', 'P', 'T', 'I', 'O', 'N']
    }

    /// Whether `from_str` accepts the text.
    pub fn is_known(s: &str) -> (b: bool)
        ensures
            b == TaxExemption::spec_is_known(s@),
    {
        let cs = chars_of(s);
        chars_equal(&cs, &['C', 'A', '_', 'B', 'C', '_', 'C', 'O', 'M', 'M', 'E', 'R', 'C', 'I', 'A', 'L', '_', 'F', 'I', 'S', 'H', 'E', 'R', 'Y', '_', 'E', 'X', 'E', 'M', 'P', 'T', 'I', 'O', 'N']) ||
            chars_equal(&cs, &['C', 'A', '_', 'B', 'C', '_', 'C', 'O', 'N', 'T', 'R', 'A', 'C', 'T', 'O', 'R', '_', 'E', 'X', 'E', 'M', 'P', 'T', 'I', 'O', 'N']) ||
            chars_equal(&cs, &['C', 'A', '_', 'B', 'C', '_', 'P', 'R', 'O', 'D', 'U', 'C', 'T', 'I', 'O', 'N', '_', 'A', 'N', 'D', '_', 'M', 'A', 'C', 'H', 'I', 'N', 'E', 'R', 'Y', '_', 'E', 'X', 'E', 'M', 'P', 'T', 'I', 'O', 'N']) ||
            chars_equal(&cs, &['C', 'A', '_', 'B', 'C', '_', 'R', 'E', 'S', 'E', 'L', 'L', 'E', 'R', '_', 'E', 'X', 'E', 'M', 'P', 'T', 'I', 'O', 'N']) ||
            chars_equal(&cs, &['C', 'A', '_', 'B', 'C', '_', 'S', 'U', 'B', '_', 'C', 'O', 'N', 'T', 'R', 'A', 'C', 'T', 'O', 'R', '_', 'E', 'X', 'E', 'M', 'P', 'T', 'I', 'O', 'N']) ||
            chars_equal(&cs, &['C', 'A', '_', 'D', 'I', 'P', 'L', 'O', 'M', 'A', 'T', '_', 'E', 'X', 'E', 'M', 'P', 'T', 'I', 'O', 'N']) ||
            chars_equal(&cs, &['C', 'A', '_', 'M', 'B', '_', 'C', 'O', 'M', 'M', 'E', 'R', 'C', 'I', 'A', 'L', '_', 'F', 'I', 'S', 'H', 'E', 'R', 'Y', '_', 'E', 'X', 'E', 'M', 'P', 'T', 'I', 'O', 'N']) ||
            chars_equal(&cs, &['C', 'A', '_', 'M', 'B', '_', 'F', 'A', 'R', 'M', 'E', 'R', '_', 'E', 'X', 'E', 'M', 'P', 'T', 'I', 'O', 'N']) ||
            chars_equal(&cs, &['C', 'A', '_', 'M', 'B', '_', 'R', 'E', 'S', 'E', 'L', 'L', 'E', 'R', '_', 'E', 'X', 'E', 'M', 'P', 'T', 'I', 'O', 'N']) ||
            chars_equal(&cs, &['C', 'A', '_', 'N', 'S', '_', 'C', 'O', 'M', 'M', 'E', 'R', 'C', 'I', 'A', 'L', '_', 'F', 'I', 'S', 'H', 'E', 'R', 'Y', '_', 'E', 'X', 'E', 'M', 'P', 'T', 'I', 'O', 'N']) ||
            chars_equal(&cs, &['C', 'A', '_', 'N', 'S', '_', 'F', 'A', 'R', 'M', 'E', 'R', '_', 'E', 'X', 'E', 'M', 'P', 'T', 'I', 'O', 'N']) ||
            chars_equal(&cs, &['C', 'A', '_', 'O', 'N', '_', 'P', 'U', 'R', 'C', 'H', 'A', 'S', 'E', '_', 'E', 'X', 'E', 'M', 'P', 'T', 'I', 'O', 'N']) ||
            chars_equal(&cs, &['C', 'A', '_', 'P', 'E', '_', 'C', 'O', 'M', 'M', 'E', 'R', 'C', 'I', 'A', 'L', '_', 'F', 'I', 'S', 'H', 'E', 'R', 'Y', '_', 'E', 'X', 'E', 'M', 'P', 'T', 'I', 'O', 'N']) ||
            chars_equal(&cs, &['C', 'A', '_', 'S', 'K', '_', 'C', 'O', 'M', 'M', 'E', 'R', 'C', 'I', 'A', 'L', '_', 'F', 'I', 'S', 'H', 'E', 'R', 'Y', '_', 'E', 'X', 'E', 'M', 'P', 'T', 'I', 'O', 'N']) ||
            chars_equal(&cs, &['C', 'A', '_', 'S', 'K', '_', 'C', 'O', 'N', 'T', 'R', 'A', 'C', 'T', 'O', 'R', '_', 'E', 'X', 'E', 'M', 'P', 'T', 'I', 'O', 'N']) ||
            chars_equal(&cs, &['C', 'A', '_', 'S', 'K', '_', 'F', 'A', 'R', 'M', 'E', 'R', '_', 'E', 'X', 'E', 'M', 'P', 'T', 'I', 'O', 'N']) ||
            chars_equal(&cs, &['C', 'A', '_', 'S', 'K', '_', 'P', 'R', 'O', 'D', 'U', 'C', 'T', 'I', 'O', 'N', '_', 'A', 'N', 'D', '_', 'M', 'A', 'C', 'H', 'I', 'N', 'E', 'R', 'Y', '_', 'E', 'X', 'E', 'M', 'P', 'T', 'I', 'O', 'N']) ||
            chars_equal(&cs, &['C', 'A', '_', 'S', 'K', '_', 'R', 'E', 'S', 'E', 'L', 'L', 'E', 'R', '_', 'E', 'X', 'E', 'M', 'P', 'T', 'I', 'O', 'N']) ||
            chars_equal(&cs, &['C', 'A', '_', 'S', 'K', '_', 'S', 'U', 'B', '_', 'C', 'O', 'N', 'T', 'R', 'A', 'C', 'T', 'O', 'R', '_', 'E', 'X', 'E', 'M', 'P', 'T', 'I', 'O', 'N']) ||
            chars_equal(&cs, &['C', 'A', '_', 'S', 'T', 'A', 'T', 'U', 'S', '_', 'C', 'A', 'R', 'D', '_', 'E', 'X', 'E', 'M', 'P', 'T', 'I', 'O', 'N']) ||
            chars_equal(&cs, &['E', 'U', '_', 'R', 'E', 'V', 'E', 'R', 'S', 'E', '_', 'C', 'H', 'A', 'R', 'G', 'E', '_', 'E', 'X', 'E', 'M', 'P', 'T', 'I', 'O', 'N', '_', 'R', 'U', 'L', 'E']) ||
            chars_equal(&cs, &['U', 'S', '_', 'A', 'K', '_', 'R', 'E', 'S', 'E', 'L', 'L', 'E', 'R', '_', 'E', 'X', 'E', 'M', 'P', 'T', 'I', 'O', 'N']) ||
            chars_equal(&cs, &['U', 'S', '_', 'A', 'L', '_', 'R', 'E', 'S', 'E', 'L', 'L', 'E', 'R', '_', 'E', 'X', 'E', 'M', 'P', 'T', 'I', 'O', 'N']) ||
            chars_equal(&cs, &['U', 'S', '_', 'A', 'R', '_', 'R', 'E', 'S', 'E', 'L', 'L', 'E', 'R', '_', 'E', 'X', 'E', 'M', 'P', 'T', 'I', 'O', 'N']) ||
            chars_equal(&cs, &['U', 'S', '_', 'A', 'Z', '_', 'R', 'E', 'S', 'E', 'L', 'L', 'E', 'R', '_', 'E', 'X', 'E', 'M', 'P', 'T', 'I', 'O', 'N']) ||
            chars_equal(&cs, &['U', 'S', '_', 'C', 'A', '_', 'R', 'E', 'S', 'E', 'L', 'L', 'E', 'R', '_', 'E', 'X', 'E', 'M', 'P', 'T', 'I', 'O', 'N']) ||
            chars_equal(&cs, &['U', 'S', '_', 'C', 'O', '_', 'R', 'E', 'S', 'E', 'L', 'L', 'E', 'R', '_', 'E', 'X', 'E', 'M', 'P', 'T', 'I', 'O', 'N']) ||
            chars_equal(&cs, &['U', 'S', '_', 'C', 'T', '_', 'R', 'E', 'S', 'E', 'L', 'L', 'E', 'R', '_', 'E', 'X', 'E', 'M', 'P', 'T', 'I', 'O', 'N']) ||
            chars_equal(&cs, &['U', 'S', '_', 'D', 'C', '_', 'R', 'E', 'S', 'E', 'L', 'L', 'E', 'R', '_', 'E', 'X', 'E', 'M', 'P', 'T', 'I', 'O', 'N']) ||
            chars_equal(&cs, &['U', 'S', '_', 'D', 'E', '_', 'R', 'E', 'S', 'E', 'L', 'L', 'E', 'R', '_', 'E', 'X', 'E', 'M', 'P', 'T', 'I', 'O', 'N']) ||
            chars_equal(&cs, &['U', 'S', '_', 'F', 'L', '_', 'R', 'E', 'S', 'E', 'L', 'L', 'E', 'R', '_', 'E', 'X', 'E', 'M', 'P', 'T', 'I', 'O', 'N']) ||
            chars_equal(&cs, &['U', 'S', '_', 'G', 'A', '_', 'R', 'E', 'S', 'E', 'L', 'L', 'E', 'R', '_', 'E', 'X', 'E', 'M', 'P', 'T', 'I', 'O', 'N']) ||
            chars_equal(&cs, &['U', 'S', '_', 'H', 'I', '_', 'R', 'E', 'S', 'E', 'L', 'L', 'E', 'R', '_', 'E', 'X', 'E', 'M', 'P', 'T', 'I', 'O', 'N']) ||
            chars_equal(&cs, &['U', 'S', '_', 'I', 'A', '_', 'R', 'E', 'S', 'E', 'L', 'L', 'E', 'R', '_', 'E', 'X', 'E', 'M', 'P', 'T', 'I', 'O', 'N']) ||
            chars_equal(&cs, &['U', 'S', '_', 'I', 'D', '_', 'R', 'E', 'S', 'E', 'L', 'L', 'E', 'R', '_', 'E', 'X', 'E', 'M', 'P', 'T', 'I', 'O', 'N']) ||
            chars_equal(&cs, &['U', 'S', '_', 'I', 'L', '_', 'R', 'E', 'S', 'E', 'L', 'L', 'E', 'R', '_', 'E', 'X', 'E', 'M', 'P', 'T', 'I', 'O', 'N']) ||
            chars_equal(&cs, &['U', 'S', '_', 'I', 'N', '_', 'R', 'E', 'S', 'E', 'L', 'L', 'E', 'R', '_', 'E', 'X', 'E', 'M', 'P', 'T', 'I', 'O', 'N']) ||
            chars_equal(&cs, &['U', 'S', '_', 'K', 'S', '_', 'R', 'E', 'S', 'E', 'L', 'L', 'E', 'R', '_', 'E', 'X', 'E', 'M', 'P', 'T', 'I', 'O', 'N']) ||
            chars_equal(&cs, &['U', 'S', '_', 'K', 'Y', '_', 'R', 'E', 'S', 'E', 'L', 'L', 'E', 'R', '_', 'E', 'X', 'E', 'M', 'P', 'T', 'I', 'O', 'N']) ||
            chars_equal(&cs, &['U', 'S', '_', 'L', 'A', '_', 'R', 'E', 'S', 'E', 'L', 'L', 'E', 'R', '_', 'E', 'X', 'E', 'M', 'P', 'T', 'I', 'O', 'N']) ||
            chars_equal(&cs, &['U', 'S', '_', 'M', 'A', '_', 'R', 'E', 'S', 'E', 'L', 'L', 'E', 'R', '_', 'E', 'X', 'E', 'M', 'P', 'T', 'I', 'O', 'N']) ||
            chars_equal(&cs, &['U', 'S', '_', 'M', 'D', '_', 'R', 'E', 'S', 'E', 'L', 'L', 'E', 'R', '_', 'E', 'X', 'E', 'M', 'P', 'T', 'I', 'O', 'N']) ||
            chars_equal(&cs, &['U', 'S', '_', 'M', 'E', '_', 'R', 'E', 'S', 'E', 'L', 'L', 'E', 'R', '_', 'E', 'X', 'E', 'M', 'P', 'T', 'I', 'O', 'N']) ||
            chars_equal(&cs, &['U', 'S', '_', 'M', 'I', '_', 'R', 'E', 'S', 'E', 'L', 'L', 'E', 'R', '_', 'E', 'X', 'E', 'M', 'P', 'T', 'I', 'O', 'N']) ||
            chars_equal(&cs, &['U', 'S', '_', 'M', 'N', '_', 'R', 'E', 'S', 'E', 'L', 'L', 'E', 'R', '_', 'E', 'X', 'E', 'M', 'P', 'T', 'I', 'O', 'N']) ||
            chars_equal(&cs, &['U', 'S', '_', 'M', 'O', '_', 'R', 'E', 'S', 'E', 'L', 'L', 'E', 'R', '_', 'E', 'X', 'E', 'M', 'P', 'T', 'I', 'O', 'N']) ||
            chars_equal(&cs, &['U', 'S', '_', 'M', 'S', '_', 'R', 'E', 'S', 'E', 'L', 'L', 'E', 'R', '_', 'E', 'X', 'E', 'M', 'P', 'T', 'I', 'O', 'N']) ||
            chars_equal(&cs, &['U', 'S', '_', 'M', 'T', '_', 'R', 'E', 'S', 'E', 'L', 'L', 'E', 'R', '_', 'E', 'X', 'E', 'M', 'P', 'T', 'I', 'O', 'N']) ||
            chars_equal(&cs, &['U', 'S', '_', 'N', 'C', '_', 'R', 'E', 'S', 'E', 'L', 'L', 'E', 'R', '_', 'E', 'X', 'E', 'M', 'P', 'T', 'I', 'O', 'N']) ||
            chars_equal(&cs, &['U', 'S', '_', 'N', 'D', '_', 'R', 'E', 'S', 'E', 'L', 'L', 'E', 'R', '_', 'E', 'X', 'E', 'M', 'P', 'T', 'I', 'O', 'N']) ||
            chars_equal(&cs, &['U', 'S', '_', 'N', 'E', '_', 'R', 'E', 'S', 'E', 'L', 'L', 'E', 'R', '_', 'E', 'X', 'E', 'M', 'P', 'T', 'I', 'O', 'N']) ||
            chars_equal(&cs, &['U', 'S', '_', 'N', 'H', '_', 'R', 'E', 'S', 'E', 'L', 'L', 'E', 'R', '_', 'E', 'X', 'E', 'M', 'P', 'T', 'I', 'O', 'N']) ||
            chars_equal(&cs, &['U', 'S', '_', 'N', 'J', '_', 'R', 'E', 'S', 'E', 'L', 'L', 'E', 'R', '_', 'E', 'X', 'E', 'M', 'P', 'T', 'I', 'O', 'N']) ||
            chars_equal(&cs, &['U', 'S', '_', 'N', 'M', '_', 'R', 'E', 'S', 'E', 'L', 'L', 'E', 'R', '_', 'E', 'X', 'E', 'M', 'P', 'T', 'I', 'O', 'N']) ||
            chars_equal(&cs, &['U', 'S', '_', 'N', 'V', '_', 'R', 'E', 'S', 'E', 'L', 'L', 'E', 'R', '_', 'E', 'X', 'E', 'M', 'P', 'T', 'I', 'O', 'N']) ||
            chars_equal(&cs, &['U', 'S', '_', 'N', 'Y', '_', 'R', 'E', 'S', 'E', 'L', 'L', 'E', 'R', '_', 'E', 'X', 'E', 'M', 'P', 'T', 'I', 'O', 'N']) ||
            chars_equal(&cs, &['U', 'S', '_', 'O', 'H', '_', 'R', 'E', 'S', 'E', 'L', 'L', 'E', 'R', '_', 'E', 'X', 'E', 'M', 'P', 'T', 'I', 'O', 'N']) ||
            chars_equal(&cs, &['U', 'S', '_', 'O', 'K', '_', 'R', 'E', 'S', 'E', 'L', 'L', 'E', 'R', '_', 'E', 'X', 'E', 'M', 'P', 'T', 'I', 'O', 'N']) ||
            chars_equal(&cs, &['U', 'S', '_', 'O', 'R', '_', 'R', 'E', 'S', 'E', 'L', 'L', 'E', 'R', '_', 'E', 'X', 'E', 'M', 'P', 'T', 'I', 'O', 'N']) ||
            chars_equal(&cs, &['U', 'S', '_', 'P', 'A', '_', 'R', 'E', 'S', 'E', 'L', 'L', 'E', 'R', '_', 'E', 'X', 'E', 'M', 'P', 'T', 'I', 'O', 'N']) ||
            chars_equal(&cs, &['U', 'S', '_', 'R', 'I', '_', 'R', 'E', 'S', 'E', 'L', 'L', 'E', 'R', '_', 'E', 'X', 'E', 'M', 'P', 'T', 'I', 'O', 'N']) ||
            chars_equal(&cs, &['U', 'S', '_', 'S', 'C', '_', 'R', 'E', 'S', 'E', 'L', 'L', 'E', 'R', '_', 'E', 'X', 'E', 'M', 'P', 'T', 'I', 'O', 'N']) ||
            chars_equal(&cs, &['U', 'S', '_', 'S', 'D', '_', 'R', 'E', 'S', 'E', 'L', 'L', 'E', 'R', '_', 'E', 'X', 'E', 'M', 'P', 'T', 'I', 'O', 'N']) ||
            chars_equal(&cs, &['U', 'S', '_', 'T', 'N', '_', 'R', 'E', 'S', 'E', 'L', 'L', 'E', 'R', '_', 'E', 'X', 'E', 'M', 'P', 'T', 'I', 'O', 'N']) ||
            chars_equal(&cs, &['U', 'S', '_', 'T', 'X', '_', 'R', 'E', 'S', 'E', 'L', 'L', 'E', 'R', '_', 'E', 'X', 'E', 'M', 'P', 'T', 'I', 'O', 'N']) ||
            chars_equal(&cs, &['U', 'S', '_', 'U', 'T', '_', 'R', 'E', 'S', 'E', 'L', 'L', 'E', 'R', '_', 'E', 'X', 'E', 'M', 'P', 'T', 'I', 'O', 'N']) ||
            chars_equal(&cs, &['U', 'S', '_', 'V', 'A', '_', 'R', 'E', 'S', 'E', 'L', 'L', 'E', 'R', '_', 'E', 'X', 'E', 'M', 'P', 'T', 'I', 'O', 'N']) ||
            chars_equal(&cs, &['U', 'S', '_', 'V', 'T', '_', 'R', 'E', 'S', 'E', 'L', 'L', 'E', 'R', '_', 'E', 'X', 'E', 'M', 'P', 'T', 'I', 'O', 'N']) ||
            chars_equal(&cs, &['U', 'S', '_', 'W', 'A', '_', 'R', 'E', 'S', 'E', 'L', 'L', 'E', 'R', '_', 'E', 'X', 'E', 'M', 'P', 'T', 'I', 'O', 'N']) ||
            chars_equal(&cs, &['U', 'S', '_', 'W', 'I', '_', 'R', 'E', 'S', 'E', 'L', 'L', 'E', 'R', '_', 'E', 'X', 'E', 'M', 'P', 'T', 'I', 'O', 'N']) ||
            chars_equal(&cs, &['U', 'S', '_', 'W', 'V', '_', 'R', 'E', 'S', 'E', 'L', 'L', 'E', 'R', '_', 'E', 'X', 'E', 'M', 'P', 'T', 'I', 'O', 'N']) ||
            chars_equal(&cs, &['U', 'S', '_', 'W', 'Y', '_', 'R', 'E', 'S', 'E', 'L', 'L', 'E', 'R', '_', 'E', 'X', 'E', 'M', 'P', 'T', 'I', 'O', 'N'])
    }

    /// The value `from_str` gives for a string.
    pub open spec fn spec_from_str(s: Seq<char>) -> TaxExemption {
        if s == seq!['C', 'A', '_', 'B', 'C', '_', 'C', 'O', 'M', 'M', 'E', 'R', 'C', 'I', 'A', 'L', '_', 'F', 'I', 'S', 'H', 'E', 'R', 'Y', '_', 'E', 'X', 'E', 'M', 'P', 'T', 'I', 'O', 'N'] {
            TaxExemption::CA_BC_COMMERCIAL_FISHERY_EXEMPTION
        } else if s == seq!['C', 'A', '_', 'B', 'C', '_', 'C', 'O', 'N', 'T', 'R', 'A', 'C', 'T', 'O', 'R', '_', 'E', 'X', 'E', 'M', 'P', 'T', 'I', 'O', 'N'] {
            TaxExemption::CA_BC_CONTRACTOR_EXEMPTION
        } else if s == seq!['C', 'A', '_', 'B', 'C', '_', 'P', 'R', 'O', 'D', 'U', 'C', 'T', 'I', 'O', 'N', '_', 'A', 'N', 'D', '_', 'M', 'A', 'C', 'H', 'I', 'N', 'E', 'R', 'Y', '_', 'E', 'X', 'E', 'M', 'P', 'T', 'I', 'O', 'N'] {
            TaxExemption::CA_BC_PRODUCTION_AND_MACHINERY_EXEMPTION
        } else if s == seq!['C', 'A', '_', 'B', 'C', '_', 'R', 'E', 'S', 'E', 'L', 'L', 'E', 'R', '_', 'E', 'X', 'E', 'M', 'P', 'T', 'I', 'O', 'N'] {
            TaxExemption::CA_BC_RESELLER_EXEMPTION
        } else if s == seq!['C', 'A', '_', 'B', 'C', '_', 'S', 'U', 'B', '_', 'C', 'O', 'N', 'T', 'R', 'A', 'C', 'T', 'O', 'R', '_', 'E', 'X', 'E', 'M', 'P', 'T', 'I', 'O', 'N'] {
            TaxExemption::CA_BC_SUB_CONTRACTOR_EXEMPTION
        } else if s == seq!['C', 'A', '_', 'D', 'I', 'P', 'L', 'O', 'M', 'A', 'T', '_', 'E', 'X', 'E', 'M', 'P', 'T', 'I', 'O', 'N'] {
            TaxExemption::CA_DIPLOMAT_EXEMPTION
        } else if s == seq!['C', 'A', '_', 'M', 'B', '_', 'C', 'O', 'M', 'M', 'E', 'R', 'C', 'I', 'A', 'L', '_', 'F', 'I', 'S', 'H', 'E', 'R', 'Y', '_', 'E', 'X', 'E', 'M', 'P', 'T', 'I', 'O', 'N'] {
            TaxExemption::CA_MB_COMMERCIAL_FISHERY_EXEMPTION
        } else if s == seq!['C', 'A', '_', 'M', 'B', '_', 'F', 'A', 'R', 'M', 'E', 'R', '_', 'E', 'X', 'E', 'M', 'P', 'T', 'I', 'O', 'N'] {
            TaxExemption::CA_MB_FARMER_EXEMPTION
        } else if s == seq!['C', 'A', '_', 'M', 'B', '_', 'R', 'E', 'S', 'E', 'L', 'L', 'E', 'R', '_', 'E', 'X', 'E', 'M', 'P', 'T', 'I', 'O', 'N'] {
            TaxExemption::CA_MB_RESELLER_EXEMPTION
        } else if s == seq!['C', 'A', '_', 'N', 'S', '_', 'C', 'O', 'M', 'M', 'E', 'R', 'C', 'I', 'A', 'L', '_', 'F', 'I', 'S', 'H', 'E', 'R', 'Y', '_', 'E', 'X', 'E', 'M', 'P', 'T', 'I', 'O', 'N'] {
            TaxExemption::CA_NS_COMMERCIAL_FISHERY_EXEMPTION
        } else if s == seq!['C', 'A', '_', 'N', 'S', '_', 'F', 'A', 'R', 'M', 'E', 'R', '_', 'E', 'X', 'E', 'M', 'P', 'T', 'I', 'O', 'N'] {
            TaxExemption::CA_NS_FARMER_EXEMPTION
        } else if s == seq!['C', 'A', '_', 'O', 'N', '_', 'P', 'U', 'R', 'C', 'H', 'A', 'S', 'E', '_', 'E', 'X', 'E', 'M', 'P', 'T', 'I', 'O', 'N'] {
            TaxExemption::CA_ON_PURCHASE_EXEMPTION
        } else if s == seq!['C', 'A', '_', 'P', 'E', '_', 'C', 'O', 'M', 'M', 'E', 'R', 'C', 'I', 'A', 'L', '_', 'F', 'I', 'S', 'H', 'E', 'R', 'Y', '_', 'E', 'X', 'E', 'M', 'P', 'T', 'I', 'O', 'N'] {
            TaxExemption::CA_PE_COMMERCIAL_FISHERY_EXEMPTION
        } else if s == seq!['C', 'A', '_', 'S', 'K', '_', 'C', 'O', 'M', 'M', 'E', 'R', 'C', 'I', 'A', 'L', '_', 'F', 'I', 'S', 'H', 'E', 'R', 'Y', '_', 'E', 'X', 'E', 'M', 'P', 'T', 'I', 'O', 'N'] {
            TaxExemption::CA_SK_COMMERCIAL_FISHERY_EXEMPTION
        } else if s == seq!['C', 'A', '_', 'S', 'K', '_', 'C', 'O', 'N', 'T', 'R', 'A', 'C', 'T', 'O', 'R', '_', 'E', 'X', 'E', 'M', 'P', 'T', 'I', 'O', 'N'] {
            TaxExemption::CA_SK_CONTRACTOR_EXEMPTION
        } else if s == seq!['C', 'A', '_', 'S', 'K', '_', 'F', 'A', 'R', 'M', 'E', 'R', '_', 'E', 'X', 'E', 'M', 'P', 'T', 'I', 'O', 'N'] {
            TaxExemption::CA_SK_FARMER_EXEMPTION
        } else if s == seq!['C', 'A', '_', 'S', 'K', '_', 'P', 'R', 'O', 'D', 'U', 'C', 'T', 'I', 'O', 'N', '_', 'A', 'N', 'D', '_', 'M', 'A', 'C', 'H', 'I', 'N', 'E', 'R', 'Y', '_', 'E', 'X', 'E', 'M', 'P', 'T', 'I', 'O', 'N'] {
            TaxExemption::CA_SK_PRODUCTION_AND_MACHINERY_EXEMPTION
        } else if s == seq!['C', 'A', '_', 'S', 'K', '_', 'R', 'E', 'S', 'E', 'L', 'L', 'E', 'R', '_', 'E', 'X', 'E', 'M', 'P', 'T', 'I', 'O', 'N'] {
            TaxExemption::CA_SK_RESELLER_EXEMPTION
        } else if s == seq!['C', 'A', '_', 'S', 'K', '_', 'S', 'U', 'B', '_', 'C', 'O', 'N', 'T', 'R', 'A', 'C', 'T', 'O', 'R', '_', 'E', 'X', 'E', 'M', 'P', 'T', 'I', 'O', 'N'] {
            TaxExemption::CA_SK_SUB_CONTRACTOR_EXEMPTION
        } else if s == seq!['C', 'A', '_', 'S', 'T', 'A', 'T', 'U', 'S', '_', 'C', 'A', 'R', 'D', '_', 'E', 'X', 'E', 'M', 'P', 'T', 'I', 'O', 'N'] {
            TaxExemption::CA_STATUS_CARD_EXEMPTION
        } else if s == seq!['E', 'U', '_', 'R', 'E', 'V', 'E', 'R', 'S', 'E', '_', 'C', 'H', 'A', 'R', 'G', 'E', '_', 'E', 'X', 'E', 'M', 'P', 'T', 'I', 'O', 'N', '_', 'R', 'U', 'L', 'E'] {
            TaxExemption::EU_REVERSE_CHARGE_EXEMPTION_RULE
        } else if s == seq!['U', 'S', '_', 'A', 'K', '_', 'R', 'E', 'S', 'E', 'L', 'L', 'E', 'R', '_', 'E', 'X', 'E', 'M', 'P', 'T', 'I', 'O', 'N'] {
            TaxExemption::US_AK_RESELLER_EXEMPTION
        } else if s == seq!['U', 'S', '_', 'A', 'L', '_', 'R', 'E', 'S', 'E', 'L', 'L', 'E', 'R', '_', 'E', 'X', 'E', 'M', 'P', 'T', 'I', 'O', 'N'] {
            TaxExemption::US_AL_RESELLER_EXEMPTION
        } else if s == seq!['U', 'S', '_', 'A', 'R', '_', 'R', 'E', 'S', 'E', 'L', 'L', 'E', 'R', '_', 'E', 'X', 'E', 'M', 'P', 'T', 'I', 'O', 'N'] {
            TaxExemption::US_AR_RESELLER_EXEMPTION
        } else if s == seq!['U', 'S', '_', 'A', 'Z', '_', 'R', 'E', 'S', 'E', 'L', 'L', 'E', 'R', '_', 'E', 'X', 'E', 'M', 'P', 'T', 'I', 'O', 'N'] {
            TaxExemption::US_AZ_RESELLER_EXEMPTION
        } else if s == seq!['U', 'S', '_', 'C', 'A', '_', 'R', 'E', 'S', 'E', 'L', 'L', 'E', 'R', '_', 'E', 'X', 'E', 'M', 'P', 'T', 'I', 'O', 'N'] {
            TaxExemption::US_CA_RESELLER_EXEMPTION
        } else if s == seq!['U', 'S', '_', 'C', 'O', '_', 'R', 'E', 'S', 'E', 'L', 'L', 'E', 'R', '_', 'E', 'X', 'E', 'M', 'P', 'T', 'I', 'O', 'N'] {
            TaxExemption::US_CO_RESELLER_EXEMPTION
        } else if s == seq!['U', 'S', '_', 'C', 'T', '_', 'R', 'E', 'S', 'E', 'L', 'L', 'E', 'R', '_', 'E', 'X', 'E', 'M', 'P', 'T', 'I', 'O', 'N'] {
            TaxExemption::US_CT_RESELLER_EXEMPTION
        } else if s == seq!['U', 'S', '_', 'D', 'C', '_', 'R', 'E', 'S', 'E', 'L', 'L', 'E', 'R', '_', 'E', 'X', 'E', 'M', 'P', 'T', 'I', 'O', 'N'] {
            TaxExemption::US_DC_RESELLER_EXEMPTION
        } else if s == seq!['U', 'S', '_', 'D', 'E', '_', 'R', 'E', 'S', 'E', 'L', 'L', 'E', 'R', '_', 'E', 'X', 'E', 'M', 'P', 'T', 'I', 'O', 'N'] {
            TaxExemption::US_DE_RESELLER_EXEMPTION
        } else if s == seq!['U', 'S', '_', 'F', 'L', '_', 'R', 'E', 'S', 'E', 'L', 'L', 'E', 'R', '_', 'E', 'X', 'E', 'M', 'P', 'T', 'I', 'O', 'N'] {
            TaxExemption::US_FL_RESELLER_EXEMPTION
        } else if s == seq!['U', 'S', '_', 'G', 'A', '_', 'R', 'E', 'S', 'E', 'L', 'L', 'E', 'R', '_', 'E', 'X', 'E', 'M', 'P', 'T', 'I', 'O', 'N'] {
            TaxExemption::US_GA_RESELLER_EXEMPTION
        } else if s == seq!['U', 'S', '_', 'H', 'I', '_', 'R', 'E', 'S', 'E', 'L', 'L', 'E', 'R', '_', 'E', 'X', 'E', 'M', 'P', 'T', 'I', 'O', 'N'] {
            TaxExemption::US_HI_RESELLER_EXEMPTION
        } else if s == seq!['U', 'S', '_', 'I', 'A', '_', 'R', 'E', 'S', 'E', 'L', 'L', 'E', 'R', '_', 'E', 'X', 'E', 'M', 'P', 'T', 'I', 'O', 'N'] {
            TaxExemption::US_IA_RESELLER_EXEMPTION
        } else if s == seq!['U', 'S', '_', 'I', 'D', '_', 'R', 'E', 'S', 'E', 'L', 'L', 'E', 'R', '_', 'E', 'X', 'E', 'M', 'P', 'T', 'I', 'O', 'N'] {
            TaxExemption::US_ID_RESELLER_EXEMPTION
        } else if s == seq!['U', 'S', '_', 'I', 'L', '_', 'R', 'E', 'S', 'E', 'L', 'L', 'E', 'R', '_', 'E', 'X', 'E', 'M', 'P', 'T', 'I', 'O', 'N'] {
            TaxExemption::US_IL_RESELLER_EXEMPTION
        } else if s == seq!['U', 'S', '_', 'I', 'N', '_', 'R', 'E', 'S', 'E', 'L', 'L', 'E', 'R', '_', 'E', 'X', 'E', 'M', 'P', 'T', 'I', 'O', 'N'] {
            TaxExemption::US_IN_RESELLER_EXEMPTION
        } else if s == seq!['U', 'S', '_', 'K', 'S', '_', 'R', 'E', 'S', 'E', 'L', 'L', 'E', 'R', '_', 'E', 'X', 'E', 'M', 'P', 'T', 'I', 'O', 'N'] {
            TaxExemption::US_KS_RESELLER_EXEMPTION
        } else if s == seq!['U', 'S', '_', 'K', 'Y', '_', 'R', 'E', 'S', 'E', 'L', 'L', 'E', 'R', '_', 'E', 'X', 'E', 'M', 'P', 'T', 'I', 'O', 'N'] {
            TaxExemption::US_KY_RESELLER_EXEMPTION
        } else if s == seq!['U', 'S', '_', 'L', 'A', '_', 'R', 'E', 'S', 'E', 'L', 'L', 'E', 'R', '_', 'E', 'X', 'E', 'M', 'P', 'T', 'I', 'O', 'N'] {
            TaxExemption::US_LA_RESELLER_EXEMPTION
        } else if s == seq!['U', 'S', '_', 'M', 'A', '_', 'R', 'E', 'S', 'E', 'L', 'L', 'E', 'R', '_', 'E', 'X', 'E', 'M', 'P', 'T', 'I', 'O', 'N'] {
            TaxExemption::US_MA_RESELLER_EXEMPTION
        } else if s == seq!['U', 'S', '_', 'M', 'D', '_', 'R', 'E', 'S', 'E', 'L', 'L', 'E', 'R', '_', 'E', 'X', 'E', 'M', 'P', 'T', 'I', 'O', 'N'] {
            TaxExemption::US_MD_RESELLER_EXEMPTION
        } else if s == seq!['U', 'S', '_', 'M', 'E', '_', 'R', 'E', 'S', 'E', 'L', 'L', 'E', 'R', '_', 'E', 'X', 'E', 'M', 'P', 'T', 'I', 'O', 'N'] {
            TaxExemption::US_ME_RESELLER_EXEMPTION
        } else if s == seq!['U', 'S', '_', 'M', 'I', '_', 'R', 'E', 'S', 'E', 'L', 'L', 'E', 'R', '_', 'E', 'X', 'E', 'M', 'P', 'T', 'I', 'O', 'N'] {
            TaxExemption::US_MI_RESELLER_EXEMPTION
        } else if s == seq!['U', 'S', '_', 'M', 'N', '_', 'R', 'E', 'S', 'E', 'L', 'L', 'E', 'R', '_', 'E', 'X', 'E', 'M', 'P', 'T', 'I', 'O', 'N'] {
            TaxExemption::US_MN_RESELLER_EXEMPTION
        } else if s == seq!['U', 'S', '_', 'M', 'O', '_', 'R', 'E', 'S', 'E', 'L', 'L', 'E', 'R', '_', 'E', 'X', 'E', 'M', 'P', 'T', 'I', 'O', 'N'] {
            TaxExemption::US_MO_RESELLER_EXEMPTION
        } else if s == seq!['U', 'S', '_', 'M', 'S', '_', 'R', 'E', 'S', 'E', 'L', 'L', 'E', 'R', '_', 'E', 'X', 'E', 'M', 'P', 'T', 'I', 'O', 'N'] {
            TaxExemption::US_MS_RESELLER_EXEMPTION
        } else if s == seq!['U', 'S', '_', 'M', 'T', '_', 'R', 'E', 'S', 'E', 'L', 'L', 'E', 'R', '_', 'E', 'X', 'E', 'M', 'P', 'T', 'I', 'O', 'N'] {
            TaxExemption::US_MT_RESELLER_EXEMPTION
        } else if s == seq!['U', 'S', '_', 'N', 'C', '_', 'R', 'E', 'S', 'E', 'L', 'L', 'E', 'R', '_', 'E', 'X', 'E', 'M', 'P', 'T', 'I', 'O', 'N'] {
            TaxExemption::US_NC_RESELLER_EXEMPTION
        } else if s == seq!['U', 'S', '_', 'N', 'D', '_', 'R', 'E', 'S', 'E', 'L', 'L', 'E', 'R', '_', 'E', 'X', 'E', 'M', 'P', 'T', 'I', 'O', 'N'] {
            TaxExemption::US_ND_RESELLER_EXEMPTION
        } else if s == seq!['U', 'S', '_', 'N', 'E', '_', 'R', 'E', 'S', 'E', 'L', 'L', 'E', 'R', '_', 'E', 'X', 'E', 'M', 'P', 'T', 'I', 'O', 'N'] {
            TaxExemption::US_NE_RESELLER_EXEMPTION
        } else if s == seq!['U', 'S', '_', 'N', 'H', '_', 'R', 'E', 'S', 'E', 'L', 'L', 'E', 'R', '_', 'E', 'X', 'E', 'M', 'P', 'T', 'I', 'O', 'N'] {
            TaxExemption::US_NH_RESELLER_EXEMPTION
        } else if s == seq!['U', 'S', '_', 'N', 'J', '_', 'R', 'E', 'S', 'E', 'L', 'L', 'E', 'R', '_', 'E', 'X', 'E', 'M', 'P', 'T', 'I', 'O', 'N'] {
            TaxExemption::US_NJ_RESELLER_EXEMPTION
        } else if s == seq!['U', 'S', '_', 'N', 'M', '_', 'R', 'E', 'S', 'E', 'L', 'L', 'E', 'R', '_', 'E', 'X', 'E', 'M', 'P', 'T', 'I', 'O', 'N'] {
            TaxExemption::US_NM_RESELLER_EXEMPTION
        } else if s == seq!['U', 'S', '_', 'N', 'V', '_', 'R', 'E', 'S', 'E', 'L', 'L', 'E', 'R', '_', 'E', 'X', 'E', 'M', 'P', 'T', 'I', 'O', 'N'] {
            TaxExemption::US_NV_RESELLER_EXEMPTION
        } else if s == seq!['U', 'S', '_', 'N', 'Y', '_', 'R', 'E', 'S', 'E', 'L', 'L', 'E', 'R', '_', 'E', 'X', 'E', 'M', 'P', 'T', 'I', 'O', 'N'] {
            TaxExemption::US_NY_RESELLER_EXEMPTION
        } else if s == seq!['U', 'S', '_', 'O', 'H', '_', 'R', 'E', 'S', 'E', 'L', 'L', 'E', 'R', '_', 'E', 'X', 'E', 'M', 'P', 'T', 'I', 'O', 'N'] {
            TaxExemption::US_OH_RESELLER_EXEMPTION
        } else if s == seq!['U', 'S', '_', 'O', 'K', '_', 'R', 'E', 'S', 'E', 'L', 'L', 'E', 'R', '_', 'E', 'X', 'E', 'M', 'P', 'T', 'I', 'O', 'N'] {
            TaxExemption::US_OK_RESELLER_EXEMPTION
        } else if s == seq!['U', 'S', '_', 'O', 'R', '_', 'R', 'E', 'S', 'E', 'L', 'L', 'E', 'R', '_', 'E', 'X', 'E', 'M', 'P', 'T', 'I', 'O', 'N'] {
            TaxExemption::US_OR_RESELLER_EXEMPTION
        } else if s == seq!['U', 'S', '_', 'P', 'A', '_', 'R', 'E', 'S', 'E', 'L', 'L', 'E', 'R', '_', 'E', 'X', 'E', 'M', 'P', 'T', 'I', 'O', 'N'] {
            TaxExemption::US_PA_RESELLER_EXEMPTION
        } else if s == seq!['U', 'S', '_', 'R', 'I', '_', 'R', 'E', 'S', 'E', 'L', 'L', 'E', 'R', '_', 'E', 'X', 'E', 'M', 'P', 'T', 'I', 'O', 'N'] {
            TaxExemption::US_RI_RESELLER_EXEMPTION
        } else if s == seq!['U', 'S', '_', 'S', 'C', '_', 'R', 'E', 'S', 'E', 'L', 'L', 'E', 'R', '_', 'E', 'X', 'E', 'M', 'P', 'T', 'I', 'O', 'N'] {
            TaxExemption::US_SC_RESELLER_EXEMPTION
        } else if s == seq!['U', 'S', '_', 'S', 'D', '_', 'R', 'E', 'S', 'E', 'L', 'L', 'E', 'R', '_', 'E', 'X', 'E', 'M', 'P', 'T', 'I', 'O', 'N'] {
            TaxExemption::US_SD_RESELLER_EXEMPTION
        } else if s == seq!['U', 'S', '_', 'T', 'N', '_', 'R', 'E', 'S', 'E', 'L', 'L', 'E', 'R', '_', 'E', 'X', 'E', 'M', 'P', 'T', 'I', 'O', 'N'] {
            TaxExemption::US_TN_RESELLER_EXEMPTION
        } else if s == seq!['U', 'S', '_', 'T', 'X', '_', 'R', 'E', 'S', 'E', 'L', 'L', 'E', 'R', '_', 'E', 'X', 'E', 'M', 'P', 'T', 'I', 'O', 'N'] {
            TaxExemption::US_TX_RESELLER_EXEMPTION
        } else if s == seq!['U', 'S', '_', 'U', 'T', '_', 'R', 'E', 'S', 'E', 'L', 'L', 'E', 'R', '_', 'E', 'X', 'E', 'M', 'P', 'T', 'I', 'O', 'N'] {
            TaxExemption::US_UT_RESELLER_EXEMPTION
        } else if s == seq!['U', 'S', '_', 'V', 'A', '_', 'R', 'E', 'S', 'E', 'L', 'L', 'E', 'R', '_', 'E', 'X', 'E', 'M', 'P', 'T', 'I', 'O', 'N'] {
            TaxExemption::US_VA_RESELLER_EXEMPTION
        } else if s == seq!['U', 'S', '_', 'V', 'T', '_', 'R', 'E', 'S', 'E', 'L', 'L', 'E', 'R', '_', 'E', 'X', 'E', 'M', 'P', 'T', 'I', 'O', 'N'] {
            TaxExemption::US_VT_RESELLER_EXEMPTION
        } else if s == seq!['U', 'S', '_', 'W', 'A', '_', 'R', 'E', 'S', 'E', 'L', 'L', 'E', 'R', '_', 'E', 'X', 'E', 'M', 'P', 'T', 'I', 'O', 'N'] {
            TaxExemption::US_WA_RESELLER_EXEMPTION
        } else if s == seq!['U', 'S', '_', 'W', 'I', '_', 'R', 'E', 'S', 'E', 'L', 'L', 'E', 'R', '_', 'E', 'X', 'E', 'M', 'P', 'T', 'I', 'O', 'N'] {
            TaxExemption::US_WI_RESELLER_EXEMPTION
        } else if s == seq!['U', 'S', '_', 'W', 'V', '_', 'R', 'E', 'S', 'E', 'L', 'L', 'E', 'R', '_', 'E', 'X', 'E', 'M', 'P', 'T', 'I', 'O', 'N'] {
            TaxExemption::US_WV_RESELLER_EXEMPTION
        } else {
            TaxExemption::US_WY_RESELLER_EXEMPTION
        }
    }

    /// The text `to_string` gives for a value.
    pub open spec fn spec_to_string(self) -> Seq<char> {
        match self {
            TaxExemption::CA_BC_COMMERCIAL_FISHERY_EXEMPTION => seq!['C', 'A', '_', 'B', 'C', '_', 'C', 'O', 'M', 'M', 'E', 'R', 'C', 'I', 'A', 'L', '_', 'F', 'I', 'S', 'H', 'E', 'R', 'Y', '_', 'E', 'X', 'E', 'M', 'P', 'T', 'I', 'O', 'N'],
            TaxExemption::CA_BC_CONTRACTOR_EXEMPTION => seq!['C', 'A', '_', 'B', 'C', '_', 'C', 'O', 'N', 'T', 'R', 'A', 'C', 'T', 'O', 'R', '_', 'E', 'X', 'E', 'M', 'P', 'T', 'I', 'O', 'N'],
            TaxExemption::CA_BC_PRODUCTION_AND_MACHINERY_EXEMPTION => seq!['C', 'A', '_', 'B', 'C', '_', 'P', 'R', 'O', 'D', 'U', 'C', 'T', 'I', 'O', 'N', '_', 'A', 'N', 'D', '_', 'M', 'A', 'C', 'H', 'I', 'N', 'E', 'R', 'Y', '_', 'E', 'X', 'E', 'M', 'P', 'T', 'I', 'O', 'N'],
            TaxExemption::CA_BC_RESELLER_EXEMPTION => seq!['C', 'A', '_', 'B', 'C', '_', 'R', 'E', 'S', 'E', 'L', 'L', 'E', 'R', '_', 'E', 'X', 'E', 'M', 'P', 'T', 'I', 'O', 'N'],
            TaxExemption::CA_BC_SUB_CONTRACTOR_EXEMPTION => seq!['C', 'A', '_', 'B', 'C', '_', 'S', 'U', 'B', '_', 'C', 'O', 'N', 'T', 'R', 'A', 'C', 'T', 'O', 'R', '_', 'E', 'X', 'E', 'M', 'P', 'T', 'I', 'O', 'N'],
            TaxExemption::CA_DIPLOMAT_EXEMPTION => seq!['C', 'A', '_', 'D', 'I', 'P', 'L', 'O', 'M', 'A', 'T', '_', 'E', 'X', 'E', 'M', 'P', 'T', 'I', 'O', 'N'],
            TaxExemption::CA_MB_COMMERCIAL_FISHERY_EXEMPTION => seq!['C', 'A', '_', 'M', 'B', '_', 'C', 'O', 'M', 'M', 'E', 'R', 'C', 'I', 'A', 'L', '_', 'F', 'I', 'S', 'H', 'E', 'R', 'Y', '_', 'E', 'X', 'E', 'M', 'P', 'T', 'I', 'O', 'N'],
            TaxExemption::CA_MB_FARMER_EXEMPTION => seq!['C', 'A', '_', 'M', 'B', '_', 'F', 'A', 'R', 'M', 'E', 'R', '_', 'E', 'X', 'E', 'M', 'P', 'T', 'I', 'O', 'N'],
            TaxExemption::CA_MB_RESELLER_EXEMPTION => seq!['C', 'A', '_', 'M', 'B', '_', 'R', 'E', 'S', 'E', 'L', 'L', 'E', 'R', '_', 'E', 'X', 'E', 'M', 'P', 'T', 'I', 'O', 'N'],
            TaxExemption::CA_NS_COMMERCIAL_FISHERY_EXEMPTION => seq!['C', 'A', '_', 'N', 'S', '_', 'C', 'O', 'M', 'M', 'E', 'R', 'C', 'I', 'A', 'L', '_', 'F', 'I', 'S', 'H', 'E', 'R', 'Y', '_', 'E', 'X', 'E', 'M', 'P', 'T', 'I', 'O', 'N'],
            TaxExemption::CA_NS_FARMER_EXEMPTION => seq!['C', 'A', '_', 'N', 'S', '_', 'F', 'A', 'R', 'M', 'E', 'R', '_', 'E', 'X', 'E', 'M', 'P', 'T', 'I', 'O', 'N'],
            TaxExemption::CA_ON_PURCHASE_EXEMPTION => seq!['C', 'A', '_', 'O', 'N', '_', 'P', 'U', 'R', 'C', 'H', 'A', 'S', 'E', '_', 'E', 'X', 'E', 'M', 'P', 'T', 'I', 'O', 'N'],
            TaxExemption::CA_PE_COMMERCIAL_FISHERY_EXEMPTION => seq!['C', 'A', '_', 'P', 'E', '_', 'C', 'O', 'M', 'M', 'E', 'R', 'C', 'I', 'A', 'L', '_', 'F', 'I', 'S', 'H', 'E', 'R', 'Y', '_', 'E', 'X', 'E', 'M', 'P', 'T', 'I', 'O', 'N'],
            TaxExemption::CA_SK_COMMERCIAL_FISHERY_EXEMPTION => seq!['C', 'A', '_', 'S', 'K', '_', 'C', 'O', 'M', 'M', 'E', 'R', 'C', 'I', 'A', 'L', '_', 'F', 'I', 'S', 'H', 'E', 'R', 'Y', '_', 'E', 'X', 'E', 'M', 'P', 'T', 'I', 'O', 'N'],
            TaxExemption::CA_SK_CONTRACTOR_EXEMPTION => seq!['C', 'A', '_', 'S', 'K', '_', 'C', 'O', 'N', 'T', 'R', 'A', 'C', 'T', 'O', 'R', '_', 'E', 'X', 'E', 'M', 'P', 'T', 'I', 'O', 'N'],
            TaxExemption::CA_SK_FARMER_EXEMPTION => seq!['C', 'A', '_', 'S', 'K', '_', 'F', 'A', 'R', 'M', 'E', 'R', '_', 'E', 'X', 'E', 'M', 'P', 'T', 'I', 'O', 'N'],
            TaxExemption::CA_SK_PRODUCTION_AND_MACHINERY_EXEMPTION => seq!['C', 'A', '_', 'S', 'K', '_', 'P', 'R', 'O', 'D', 'U', 'C', 'T', 'I', 'O', 'N', '_', 'A', 'N', 'D', '_', 'M', 'A', 'C', 'H', 'I', 'N', 'E', 'R', 'Y', '_', 'E', 'X', 'E', 'M', 'P', 'T', 'I', 'O', 'N'],
            TaxExemption::CA_SK_RESELLER_EXEMPTION => seq!['C', 'A', '_', 'S', 'K', '_', 'R', 'E', 'S', 'E', 'L', 'L', 'E', 'R', '_', 'E', 'X', 'E', 'M', 'P', 'T', 'I', 'O', 'N'],
            TaxExemption::CA_SK_SUB_CONTRACTOR_EXEMPTION => seq!['C', 'A', '_', 'S', 'K', '_', 'S', 'U', 'B', '_', 'C', 'O', 'N', 'T', 'R', 'A', 'C', 'T', 'O', 'R', '_', 'E', 'X', 'E', 'M', 'P', 'T', 'I', 'O', 'N'],
            TaxExemption::CA_STATUS_CARD_EXEMPTION => seq!['C', 'A', '_', 'S', 'T', 'A', 'T', 'U', 'S', '_', 'C', 'A', 'R', 'D', '_', 'E', 'X', 'E', 'M', 'P', 'T', 'I', 'O', 'N'],
            TaxExemption::EU_REVERSE_CHARGE_EXEMPTION_RULE => seq!['E', 'U', '_', 'R', 'E', 'V', 'E', 'R', 'S', 'E', '_', 'C', 'H', 'A', 'R', 'G', 'E', '_', 'E', 'X', 'E', 'M', 'P', 'T', 'I', 'O', 'N', '_', 'R', 'U', 'L', 'E'],
            TaxExemption::US_AK_RESELLER_EXEMPTION => seq!['U', 'S', '_', 'A', 'K', '_', 'R', 'E', 'S', 'E', 'L', 'L', 'E', 'R', '_', 'E', 'X', 'E', 'M', 'P', 'T', 'I', 'O', 'N'],
            TaxExemption::US_AL_RESELLER_EXEMPTION => seq!['U', 'S', '_', 'A', 'L', '_', 'R', 'E', 'S', 'E', 'L', 'L', 'E', 'R', '_', 'E', 'X', 'E', 'M', 'P', 'T', 'I', 'O', 'N'],
            TaxExemption::US_AR_RESELLER_EXEMPTION => seq!['U', 'S', '_', 'A', 'R', '_', 'R', 'E', 'S', 'E', 'L', 'L', 'E', 'R', '_', 'E', 'X', 'E', 'M', 'P', 'T', 'I', 'O', 'N'],
            TaxExemption::US_AZ_RESELLER_EXEMPTION => seq!['U', 'S', '_', 'A', 'Z', '_', 'R', 'E', 'S', 'E', 'L', 'L', 'E', 'R', '_', 'E', 'X', 'E', 'M', 'P', 'T', 'I', 'O', 'N'],
            TaxExemption::US_CA_RESELLER_EXEMPTION => seq!['U', 'S', '_', 'C', 'A', '_', 'R', 'E', 'S', 'E', 'L', 'L', 'E', 'R', '_', 'E', 'X', 'E', 'M', 'P', 'T', 'I', 'O', 'N'],
            TaxExemption::US_CO_RESELLER_EXEMPTION => seq!['U', 'S', '_', 'C', 'O', '_', 'R', 'E', 'S', 'E', 'L', 'L', 'E', 'R', '_', 'E', 'X', 'E', 'M', 'P', 'T', 'I', 'O', 'N'],
            TaxExemption::US_CT_RESELLER_EXEMPTION => seq!['U', 'S', '_', 'C', 'T', '_', 'R', 'E', 'S', 'E', 'L', 'L', 'E', 'R', '_', 'E', 'X', 'E', 'M', 'P', 'T', 'I', 'O', 'N'],
            TaxExemption::US_DC_RESELLER_EXEMPTION => seq!['U', 'S', '_', 'D', 'C', '_', 'R', 'E', 'S', 'E', 'L', 'L', 'E', 'R', '_', 'E', 'X', 'E', 'M', 'P', 'T', 'I', 'O', 'N'],
            TaxExemption::US_DE_RESELLER_EXEMPTION => seq!['U', 'S', '_', 'D', 'E', '_', 'R', 'E', 'S', 'E', 'L', 'L', 'E', 'R', '_', 'E', 'X', 'E', 'M', 'P', 'T', 'I', 'O', 'N'],
            TaxExemption::US_FL_RESELLER_EXEMPTION => seq!['U', 'S', '_', 'F', 'L', '_', 'R', 'E', 'S', 'E', 'L', 'L', 'E', 'R', '_', 'E', 'X', 'E', 'M', 'P', 'T', 'I', 'O', 'N'],
            TaxExemption::US_GA_RESELLER_EXEMPTION => seq!['U', 'S', '_', 'G', 'A', '_', 'R', 'E', 'S', 'E', 'L', 'L', 'E', 'R', '_', 'E', 'X', 'E', 'M', 'P', 'T', 'I', 'O', 'N'],
            TaxExemption::US_HI_RESELLER_EXEMPTION => seq!['U', 'S', '_', 'H', 'I', '_', 'R', 'E', 'S', 'E', 'L', 'L', 'E', 'R', '_', 'E', 'X', 'E', 'M', 'P', 'T', 'I', 'O', 'N'],
            TaxExemption::US_IA_RESELLER_EXEMPTION => seq!['U', 'S', '_', 'I', 'A', '_', 'R', 'E', 'S', 'E', 'L', 'L', 'E', 'R', '_', 'E', 'X', 'E', 'M', 'P', 'T', 'I', 'O', 'N'],
            TaxExemption::US_ID_RESELLER_EXEMPTION => seq!['U', 'S', '_', 'I', 'D', '_', 'R', 'E', 'S', 'E', 'L', 'L', 'E', 'R', '_', 'E', 'X', 'E', 'M', 'P', 'T', 'I', 'O', 'N'],
            TaxExemption::US_IL_RESELLER_EXEMPTION => seq!['U', 'S', '_', 'I', 'L', '_', 'R', 'E', 'S', 'E', 'L', 'L', 'E', 'R', '_', 'E', 'X', 'E', 'M', 'P', 'T', 'I', 'O', 'N'],
            TaxExemption::US_IN_RESELLER_EXEMPTION => seq!['U', 'S', '_', 'I', 'N', '_', 'R', 'E', 'S', 'E', 'L', 'L', 'E', 'R', '_', 'E', 'X', 'E', 'M', 'P', 'T', 'I', 'O', 'N'],
            TaxExemption::US_KS_RESELLER_EXEMPTION => seq!['U', 'S', '_', 'K', 'S', '_', 'R', 'E', 'S', 'E', 'L', 'L', 'E', 'R', '_', 'E', 'X', 'E', 'M', 'P', 'T', 'I', 'O', 'N'],
            TaxExemption::US_KY_RESELLER_EXEMPTION => seq!['U', 'S', '_', 'K', 'Y', '_', 'R', 'E', 'S', 'E', 'L', 'L', 'E', 'R', '_', 'E', 'X', 'E', 'M', 'P', 'T', 'I', 'O', 'N'],
            TaxExemption::US_LA_RESELLER_EXEMPTION => seq!['U', 'S', '_', 'L', 'A', '_', 'R', 'E', 'S', 'E', 'L', 'L', 'E', 'R', '_', 'E', 'X', 'E', 'M', 'P', 'T', 'I', 'O', 'N'],
            TaxExemption::US_MA_RESELLER_EXEMPTION => seq!['U', 'S', '_', 'M', 'A', '_', 'R', 'E', 'S', 'E', 'L', 'L', 'E', 'R', '_', 'E', 'X', 'E', 'M', 'P', 'T', 'I', 'O', 'N'],
            TaxExemption::US_MD_RESELLER_EXEMPTION => seq!['U', 'S', '_', 'M', 'D', '_', 'R', 'E', 'S', 'E', 'L', 'L', 'E', 'R', '_', 'E', 'X', 'E', 'M', 'P', 'T', 'I', 'O', 'N'],
            TaxExemption::US_ME_RESELLER_EXEMPTION => seq!['U', 'S', '_', 'M', 'E', '_', 'R', 'E', 'S', 'E', 'L', 'L', 'E', 'R', '_', 'E', 'X', 'E', 'M', 'P', 'T', 'I', 'O', 'N'],
            TaxExemption::US_MI_RESELLER_EXEMPTION => seq!['U', 'S', '_', 'M', 'I', '_', 'R', 'E', 'S', 'E', 'L', 'L', 'E', 'R', '_', 'E', 'X', 'E', 'M', 'P', 'T', 'I', 'O', 'N'],
            TaxExemption::US_MN_RESELLER_EXEMPTION => seq!['U', 'S', '_', 'M', 'N', '_', 'R', 'E', 'S', 'E', 'L', 'L', 'E', 'R', '_', 'E', 'X', 'E', 'M', 'P', 'T', 'I', 'O', 'N'],
            TaxExemption::US_MO_RESELLER_EXEMPTION => seq!['U', 'S', '_', 'M', 'O', '_', 'R', 'E', 'S', 'E', 'L', 'L', 'E', 'R', '_', 'E', 'X', 'E', 'M', 'P', 'T', 'I', 'O', 'N'],
            TaxExemption::US_MS_RESELLER_EXEMPTION => seq!['U', 'S', '_', 'M', 'S', '_', 'R', 'E', 'S', 'E', 'L', 'L', 'E', 'R', '_', 'E', 'X', 'E', 'M', 'P', 'T', 'I', 'O', 'N'],
            TaxExemption::US_MT_RESELLER_EXEMPTION => seq!['U', 'S', '_', 'M', 'T', '_', 'R', 'E', 'S', 'E', 'L', 'L', 'E', 'R', '_', 'E', 'X', 'E', 'M', 'P', 'T', 'I', 'O', 'N'],
            TaxExemption::US_NC_RESELLER_EXEMPTION => seq!['U', 'S', '_', 'N', 'C', '_', 'R', 'E', 'S', 'E', 'L', 'L', 'E', 'R', '_', 'E', 'X', 'E', 'M', 'P', 'T', 'I', 'O', 'N'],
            TaxExemption::US_ND_RESELLER_EXEMPTION => seq!['U', 'S', '_', 'N', 'D', '_', 'R', 'E', 'S', 'E', 'L', 'L', 'E', 'R', '_', 'E', 'X', 'E', 'M', 'P', 'T', 'I', 'O', 'N'],
            TaxExemption::US_NE_RESELLER_EXEMPTION => seq!['U', 'S', '_', 'N', 'E', '_', 'R', 'E', 'S', 'E', 'L', 'L', 'E', 'R', '_', 'E', 'X', 'E', 'M', 'P', 'T', 'I', 'O', 'N'],
            TaxExemption::US_NH_RESELLER_EXEMPTION => seq!['U', 'S', '_', 'N', 'H', '_', 'R', 'E', 'S', 'E', 'L', 'L', 'E', 'R', '_', 'E', 'X', 'E', 'M', 'P', 'T', 'I', 'O', 'N'],
            TaxExemption::US_NJ_RESELLER_EXEMPTION => seq!['U', 'S', '_', 'N', 'J', '_', 'R', 'E', 'S', 'E', 'L', 'L', 'E', 'R', '_', 'E', 'X', 'E', 'M', 'P', 'T', 'I', 'O', 'N'],
            TaxExemption::US_NM_RESELLER_EXEMPTION => seq!['U', 'S', '_', 'N', 'M', '_', 'R', 'E', 'S', 'E', 'L', 'L', 'E', 'R', '_', 'E', 'X', 'E', 'M', 'P', 'T', 'I', 'O', 'N'],
            TaxExemption::US_NV_RESELLER_EXEMPTION => seq!['U', 'S', '_', 'N', 'V', '_', 'R', 'E', 'S', 'E', 'L', 'L', 'E', 'R', '_', 'E', 'X', 'E', 'M', 'P', 'T', 'I', 'O', 'N'],
            TaxExemption::US_NY_RESELLER_EXEMPTION => seq!['U', 'S', '_', 'N', 'Y', '_', 'R', 'E', 'S', 'E', 'L', 'L', 'E', 'R', '_', 'E', 'X', 'E', 'M', 'P', 'T', 'I', 'O', 'N'],
            TaxExemption::US_OH_RESELLER_EXEMPTION => seq!['U', 'S', '_', 'O', 'H', '_', 'R', 'E', 'S', 'E', 'L', 'L', 'E', 'R', '_', 'E', 'X', 'E', 'M', 'P', 'T', 'I', 'O', 'N'],
            TaxExemption::US_OK_RESELLER_EXEMPTION => seq!['U', 'S', '_', 'O', 'K', '_', 'R', 'E', 'S', 'E', 'L', 'L', 'E', 'R', '_', 'E', 'X', 'E', 'M', 'P', 'T', 'I', 'O', 'N'],
            TaxExemption::US_OR_RESELLER_EXEMPTION => seq!['U', 'S', '_', 'O', 'R', '_', 'R', 'E', 'S', 'E', 'L', 'L', 'E', 'R', '_', 'E', 'X', 'E', 'M', 'P', 'T', 'I', 'O', 'N'],
            TaxExemption::US_PA_RESELLER_EXEMPTION => seq!['U', 'S', '_', 'P', 'A', '_', 'R', 'E', 'S', 'E', 'L', 'L', 'E', 'R', '_', 'E', 'X', 'E', 'M', 'P', 'T', 'I', 'O', 'N'],
            TaxExemption::US_RI_RESELLER_EXEMPTION => seq!['U', 'S', '_', 'R', 'I', '_', 'R', 'E', 'S', 'E', 'L', 'L', 'E', 'R', '_', 'E', 'X', 'E', 'M', 'P', 'T', 'I', 'O', 'N'],
            TaxExemption::US_SC_RESELLER_EXEMPTION => seq!['U', 'S', '_', 'S', 'C', '_', 'R', 'E', 'S', 'E', 'L', 'L', 'E', 'R', '_', 'E', 'X', 'E', 'M', 'P', 'T', 'I', 'O', 'N'],
            TaxExemption::US_SD_RESELLER_EXEMPTION => seq!['U', 'S', '_', 'S', 'D', '_', 'R', 'E', 'S', 'E', 'L', 'L', 'E', 'R', '_', 'E', 'X', 'E', 'M', 'P', 'T', 'I', 'O', 'N'],
            TaxExemption::US_TN_RESELLER_EXEMPTION => seq!['U', 'S', '_', 'T', 'N', '_', 'R', 'E', 'S', 'E', 'L', 'L', 'E', 'R', '_', 'E', 'X', 'E', 'M', 'P', 'T', 'I', 'O', 'N'],
            TaxExemption::US_TX_RESELLER_EXEMPTION => seq!['U', 'S', '_', 'T', 'X', '_', 'R', 'E', 'S', 'E', 'L', 'L', 'E', 'R', '_', 'E', 'X', 'E', 'M', 'P', 'T', 'I', 'O', 'N'],
            TaxExemption::US_UT_RESELLER_EXEMPTION => seq!['U', 'S', '_', 'U', 'T', '_', 'R', 'E', 'S', 'E', 'L', 'L', 'E', 'R', '_', 'E', 'X', 'E', 'M', 'P', 'T', 'I', 'O', 'N'],
            TaxExemption::US_VA_RESELLER_EXEMPTION => seq!['U', 'S', '_', 'V', 'A', '_', 'R', 'E', 'S', 'E', 'L', 'L', 'E', 'R', '_', 'E', 'X', 'E', 'M', 'P', 'T', 'I', 'O', 'N'],
            TaxExemption::US_VT_RESELLER_EXEMPTION => seq!['U', 'S', '_', 'V', 'T', '_', 'R', 'E', 'S', 'E', 'L', 'L', 'E', 'R', '_', 'E', 'X', 'E', 'M', 'P', 'T', 'I', 'O', 'N'],
            TaxExemption::US_WA_RESELLER_EXEMPTION => seq!['U', 'S', '_', 'W', 'A', '_', 'R', 'E', 'S', 'E', 'L', 'L', 'E', 'R', '_', 'E', 'X', 'E', 'M', 'P', 'T', 'I', 'O', 'N'],
            TaxExemption::US_WI_RESELLER_EXEMPTION => seq!['U', 'S', '_', 'W', 'I', '_', 'R', 'E', 'S', 'E', 'L', 'L', 'E', 'R', '_', 'E', 'X', 'E', 'M', 'P', 'T', 'I', 'O', 'N'],
            TaxExemption::US_WV_RESELLER_EXEMPTION => seq!['U', 'S', '_', 'W', 'V', '_', 'R', 'E', 'S', 'E', 'L', 'L', 'E', 'R', '_', 'E', 'X', 'E', 'M', 'P', 'T', 'I', 'O', 'N'],
            TaxExemption::US_WY_RESELLER_EXEMPTION => seq!['U', 'S', '_', 'W', 'Y', '_', 'R', 'E', 'S', 'E', 'L', 'L', 'E', 'R', '_', 'E', 'X', 'E', 'M', 'P', 'T', 'I', 'O', 'N'],
        }
    }

    /// Reads the GraphQL enum text: "CA_BC_COMMERCIAL_FISHERY_EXEMPTION" gives `CA_BC_COMMERCIAL_FISHERY_EXEMPTION`; "CA_BC_CONTRACTOR_EXEMPTION" gives `CA_BC_CONTRACTOR_EXEMPTION`; "CA_BC_PRODUCTION_AND_MACHINERY_EXEMPTION" gives `CA_BC_PRODUCTION_AND_MACHINERY_EXEMPTION`; "CA_BC_RESELLER_EXEMPTION" gives `CA_BC_RESELLER_EXEMPTION`; "CA_BC_SUB_CONTRACTOR_EXEMPTION" gives `CA_BC_SUB_CONTRACTOR_EXEMPTION`; "CA_DIPLOMAT_EXEMPTION" gives `CA_DIPLOMAT_EXEMPTION`; "CA_MB_COMMERCIAL_FISHERY_EXEMPTION" gives `CA_MB_COMMERCIAL_FISHERY_EXEMPTION`; "CA_MB_FARMER_EXEMPTION" gives `CA_MB_FARMER_EXEMPTION`; "CA_MB_RESELLER_EXEMPTION" gives `CA_MB_RESELLER_EXEMPTION`; "CA_NS_COMMERCIAL_FISHERY_EXEMPTION" gives `CA_NS_COMMERCIAL_FISHERY_EXEMPTION`; "CA_NS_FARMER_EXEMPTION" gives `CA_NS_FARMER_EXEMPTION`; "CA_ON_PURCHASE_EXEMPTION" gives `CA_ON_PURCHASE_EXEMPTION`; "CA_PE_COMMERCIAL_FISHERY_EXEMPTION" gives `CA_PE_COMMERCIAL_FISHERY_EXEMPTION`; "CA_SK_COMMERCIAL_FISHERY_EXEMPTION" gives `CA_SK_COMMERCIAL_FISHERY_EXEMPTION`; "CA_SK_CONTRACTOR_EXEMPTION" gives `CA_SK_CONTRACTOR_EXEMPTION`; "CA_SK_FARMER_EXEMPTION" gives `CA_SK_FARMER_EXEMPTION`; "CA_SK_PRODUCTION_AND_MACHINERY_EXEMPTION" gives `CA_SK_PRODUCTION_AND_MACHINERY_EXEMPTION`; "CA_SK_RESELLER_EXEMPTION" gives `CA_SK_RESELLER_EXEMPTION`; "CA_SK_SUB_CONTRACTOR_EXEMPTION" gives `CA_SK_SUB_CONTRACTOR_EXEMPTION`; "CA_STATUS_CARD_EXEMPTION" gives `CA_STATUS_CARD_EXEMPTION`; "EU_REVERSE_CHARGE_EXEMPTION_RULE" gives `EU_REVERSE_CHARGE_EXEMPTION_RULE`; "US_AK_RESELLER_EXEMPTION" gives `US_AK_RESELLER_EXEMPTION`; "US_AL_RESELLER_EXEMPTION" gives `US_AL_RESELLER_EXEMPTION`; "US_AR_RESELLER_EXEMPTION" gives `US_AR_RESELLER_EXEMPTION`; "US_AZ_RESELLER_EXEMPTION" gives `US_AZ_RESELLER_EXEMPTION`; "US_CA_RESELLER_EXEMPTION" gives `US_CA_RESELLER_EXEMPTION`; "US_CO_RESELLER_EXEMPTION" gives `US_CO_RESELLER_EXEMPTION`; "US_CT_RESELLER_EXEMPTION" gives `US_CT_RESELLER_EXEMPTION`; "US_DC_RESELLER_EXEMPTION" gives `US_DC_RESELLER_EXEMPTION`; "US_DE_RESELLER_EXEMPTION" gives `US_DE_RESELLER_EXEMPTION`; "US_FL_RESELLER_EXEMPTION" gives `US_FL_RESELLER_EXEMPTION`; "US_GA_RESELLER_EXEMPTION" gives `US_GA_RESELLER_EXEMPTION`; "US_HI_RESELLER_EXEMPTION" gives `US_HI_RESELLER_EXEMPTION`; "US_IA_RESELLER_EXEMPTION" gives `US_IA_RESELLER_EXEMPTION`; "US_ID_RESELLER_EXEMPTION" gives `US_ID_RESELLER_EXEMPTION`; "US_IL_RESELLER_EXEMPTION" gives `US_IL_RESELLER_EXEMPTION`; "US_IN_RESELLER_EXEMPTION" gives `US_IN_RESELLER_EXEMPTION`; "US_KS_RESELLER_EXEMPTION" gives `US_KS_RESELLER_EXEMPTION`; "US_KY_RESELLER_EXEMPTION" gives `US_KY_RESELLER_EXEMPTION`; "US_LA_RESELLER_EXEMPTION" gives `US_LA_RESELLER_EXEMPTION`; "US_MA_RESELLER_EXEMPTION" gives `US_MA_RESELLER_EXEMPTION`; "US_MD_RESELLER_EXEMPTION" gives `US_MD_RESELLER_EXEMPTION`; "US_ME_RESELLER_EXEMPTION" gives `US_ME_RESELLER_EXEMPTION`; "US_MI_RESELLER_EXEMPTION" gives `US_MI_RESELLER_EXEMPTION`; "US_MN_RESELLER_EXEMPTION" gives `US_MN_RESELLER_EXEMPTION`; "US_MO_RESELLER_EXEMPTION" gives `US_MO_RESELLER_EXEMPTION`; "US_MS_RESELLER_EXEMPTION" gives `US_MS_RESELLER_EXEMPTION`; "US_MT_RESELLER_EXEMPTION" gives `US_MT_RESELLER_EXEMPTION`; "US_NC_RESELLER_EXEMPTION" gives `US_NC_RESELLER_EXEMPTION`; "US_ND_RESELLER_EXEMPTION" gives `US_ND_RESELLER_EXEMPTION`; "US_NE_RESELLER_EXEMPTION" gives `US_NE_RESELLER_EXEMPTION`; "US_NH_RESELLER_EXEMPTION" gives `US_NH_RESELLER_EXEMPTION`; "US_NJ_RESELLER_EXEMPTION" gives `US_NJ_RESELLER_EXEMPTION`; "US_NM_RESELLER_EXEMPTION" gives `US_NM_RESELLER_EXEMPTION`; "US_NV_RESELLER_EXEMPTION" gives `US_NV_RESELLER_EXEMPTION`; "US_NY_RESELLER_EXEMPTION" gives `US_NY_RESELLER_EXEMPTION`; "US_OH_RESELLER_EXEMPTION" gives `US_OH_RESELLER_EXEMPTION`; "US_OK_RESELLER_EXEMPTION" gives `US_OK_RESELLER_EXEMPTION`; "US_OR_RESELLER_EXEMPTION" gives `US_OR_RESELLER_EXEMPTION`; "US_PA_RESELLER_EXEMPTION" gives `US_PA_RESELLER_EXEMPTION`; "US_RI_RESELLER_EXEMPTION" gives `US_RI_RESELLER_EXEMPTION`; "US_SC_RESELLER_EXEMPTION" gives `US_SC_RESELLER_EXEMPTION`; "US_SD_RESELLER_EXEMPTION" gives `US_SD_RESELLER_EXEMPTION`; "US_TN_RESELLER_EXEMPTION" gives `US_TN_RESELLER_EXEMPTION`; "US_TX_RESELLER_EXEMPTION" gives `US_TX_RESELLER_EXEMPTION`; "US_UT_RESELLER_EXEMPTION" gives `US_UT_RESELLER_EXEMPTION`; "US_VA_RESELLER_EXEMPTION" gives `US_VA_RESELLER_EXEMPTION`; "US_VT_RESELLER_EXEMPTION" gives `US_VT_RESELLER_EXEMPTION`; "US_WA_RESELLER_EXEMPTION" gives `US_WA_RESELLER_EXEMPTION`; "US_WI_RESELLER_EXEMPTION" gives `US_WI_RESELLER_EXEMPTION`; "US_WV_RESELLER_EXEMPTION" gives `US_WV_RESELLER_EXEMPTION`; "US_WY_RESELLER_EXEMPTION" gives `US_WY_RESELLER_EXEMPTION`; other text is not accepted.
    pub fn from_str(code: &str) -> (r: TaxExemption)
        requires
            TaxExemption::spec_is_known(code@),
        ensures
            r == TaxExemption::spec_from_str(code@),
    {
        let cs = chars_of(code);
        if chars_equal(&cs, &['C', 'A', '_', 'B', 'C', '_', 'C', 'O', 'M', 'M', 'E', 'R', 'C', 'I', 'A', 'L', '_', 'F', 'I', 'S', 'H', 'E', 'R', 'Y', '_', 'E', 'X', 'E', 'M', 'P', 'T', 'I', 'O', 'N']) {
            TaxExemption::CA_BC_COMMERCIAL_FISHERY_EXEMPTION
        } else if chars_equal(&cs, &['C', 'A', '_', 'B', 'C', '_', 'C', 'O', 'N', 'T', 'R', 'A', 'C', 'T', 'O', 'R', '_', 'E', 'X', 'E', 'M', 'P', 'T', 'I', 'O', 'N']) {
            TaxExemption::CA_BC_CONTRACTOR_EXEMPTION
        } else if chars_equal(&cs, &['C', 'A', '_', 'B', 'C', '_', 'P', 'R', 'O', 'D', 'U', 'C', 'T', 'I', 'O', 'N', '_', 'A', 'N', 'D', '_', 'M', 'A', 'C', 'H', 'I', 'N', 'E', 'R', 'Y', '_', 'E', 'X', 'E', 'M', 'P', 'T', 'I', 'O', 'N']) {
            TaxExemption::CA_BC_PRODUCTION_AND_MACHINERY_EXEMPTION
        } else if chars_equal(&cs, &['C', 'A', '_', 'B', 'C', '_', 'R', 'E', 'S', 'E', 'L', 'L', 'E', 'R', '_', 'E', 'X', 'E', 'M', 'P', 'T', 'I', 'O', 'N']) {
            TaxExemption::CA_BC_RESELLER_EXEMPTION
        } else if chars_equal(&cs, &['C', 'A', '_', 'B', 'C', '_', 'S', 'U', 'B', '_', 'C', 'O', 'N', 'T', 'R', 'A', 'C', 'T', 'O', 'R', '_', 'E', 'X', 'E', 'M', 'P', 'T', 'I', 'O', 'N']) {
            TaxExemption::CA_BC_SUB_CONTRACTOR_EXEMPTION
        } else if chars_equal(&cs, &['C', 'A', '_', 'D', 'I', 'P', 'L', 'O', 'M', 'A', 'T', '_', 'E', 'X', 'E', 'M', 'P', 'T', 'I', 'O', 'N']) {
            TaxExemption::CA_DIPLOMAT_EXEMPTION
        } else if chars_equal(&cs, &['C', 'A', '_', 'M', 'B', '_', 'C', 'O', 'M', 'M', 'E', 'R', 'C', 'I', 'A', 'L', '_', 'F', 'I', 'S', 'H', 'E', 'R', 'Y', '_', 'E', 'X', 'E', 'M', 'P', 'T', 'I', 'O', 'N']) {
            TaxExemption::CA_MB_COMMERCIAL_FISHERY_EXEMPTION
        } else if chars_equal(&cs, &['C', 'A', '_', 'M', 'B', '_', 'F', 'A', 'R', 'M', 'E', 'R', '_', 'E', 'X', 'E', 'M', 'P', 'T', 'I', 'O', 'N']) {
            TaxExemption::CA_MB_FARMER_EXEMPTION
        } else if chars_equal(&cs, &['C', 'A', '_', 'M', 'B', '_', 'R', 'E', 'S', 'E', 'L', 'L', 'E', 'R', '_', 'E', 'X', 'E', 'M', 'P', 'T', 'I', 'O', 'N']) {
            TaxExemption::CA_MB_RESELLER_EXEMPTION
        } else if chars_equal(&cs, &['C', 'A', '_', 'N', 'S', '_', 'C', 'O', 'M', 'M', 'E', 'R', 'C', 'I', 'A', 'L', '_', 'F', 'I', 'S', 'H', 'E', 'R', 'Y', '_', 'E', 'X', 'E', 'M', 'P', 'T', 'I', 'O', 'N']) {
            TaxExemption::CA_NS_COMMERCIAL_FISHERY_EXEMPTION
        } else if chars_equal(&cs, &['C', 'A', '_', 'N', 'S', '_', 'F', 'A', 'R', 'M', 'E', 'R', '_', 'E', 'X', 'E', 'M', 'P', 'T', 'I', 'O', 'N']) {
            TaxExemption::CA_NS_FARMER_EXEMPTION
        } else if chars_equal(&cs, &['C', 'A', '_', 'O', 'N', '_', 'P', 'U', 'R', 'C', 'H', 'A', 'S', 'E', '_', 'E', 'X', 'E', 'M', 'P', 'T', 'I', 'O', 'N']) {
            TaxExemption::CA_ON_PURCHASE_EXEMPTION
        } else if chars_equal(&cs, &['C', 'A', '_', 'P', 'E', '_', 'C', 'O', 'M', 'M', 'E', 'R', 'C', 'I', 'A', 'L', '_', 'F', 'I', 'S', 'H', 'E', 'R', 'Y', '_', 'E', 'X', 'E', 'M', 'P', 'T', 'I', 'O', 'N']) {
            TaxExemption::CA_PE_COMMERCIAL_FISHERY_EXEMPTION
        } else if chars_equal(&cs, &['C', 'A', '_', 'S', 'K', '_', 'C', 'O', 'M', 'M', 'E', 'R', 'C', 'I', 'A', 'L', '_', 'F', 'I', 'S', 'H', 'E', 'R', 'Y', '_', 'E', 'X', 'E', 'M', 'P', 'T', 'I', 'O', 'N']) {
            TaxExemption::CA_SK_COMMERCIAL_FISHERY_EXEMPTION
        } else if chars_equal(&cs, &['C', 'A', '_', 'S', 'K', '_', 'C', 'O', 'N', 'T', 'R', 'A', 'C', 'T', 'O', 'R', '_', 'E', 'X', 'E', 'M', 'P', 'T', 'I', 'O', 'N']) {
            TaxExemption::CA_SK_CONTRACTOR_EXEMPTION
        } else if chars_equal(&cs, &['C', 'A', '_', 'S', 'K', '_', 'F', 'A', 'R', 'M', 'E', 'R', '_', 'E', 'X', 'E', 'M', 'P', 'T', 'I', 'O', 'N']) {
            TaxExemption::CA_SK_FARMER_EXEMPTION
        } else if chars_equal(&cs, &['C', 'A', '_', 'S', 'K', '_', 'P', 'R', 'O', 'D', 'U', 'C', 'T', 'I', 'O', 'N', '_', 'A', 'N', 'D', '_', 'M', 'A', 'C', 'H', 'I', 'N', 'E', 'R', 'Y', '_', 'E', 'X', 'E', 'M', 'P', 'T', 'I', 'O', 'N']) {
            TaxExemption::CA_SK_PRODUCTION_AND_MACHINERY_EXEMPTION
        } else if chars_equal(&cs, &['C', 'A', '_', 'S', 'K', '_', 'R', 'E', 'S', 'E', 'L', 'L', 'E', 'R', '_', 'E', 'X', 'E', 'M', 'P', 'T', 'I', 'O', 'N']) {
            TaxExemption::CA_SK_RESELLER_EXEMPTION
        } else if chars_equal(&cs, &['C', 'A', '_', 'S', 'K', '_', 'S', 'U', 'B', '_', 'C', 'O', 'N', 'T', 'R', 'A', 'C', 'T', 'O', 'R', '_', 'E', 'X', 'E', 'M', 'P', 'T', 'I', 'O', 'N']) {
            TaxExemption::CA_SK_SUB_CONTRACTOR_EXEMPTION
        } else if chars_equal(&cs, &['C', 'A', '_', 'S', 'T', 'A', 'T', 'U', 'S', '_', 'C', 'A', 'R', 'D', '_', 'E', 'X', 'E', 'M', 'P', 'T', 'I', 'O', 'N']) {
            TaxExemption::CA_STATUS_CARD_EXEMPTION
        } else if chars_equal(&cs, &['E', 'U', '_', 'R', 'E', 'V', 'E', 'R', 'S', 'E', '_', 'C', 'H', 'A', 'R', 'G', 'E', '_', 'E', 'X', 'E', 'M', 'P', 'T', 'I', 'O', 'N', '_', 'R', 'U', 'L', 'E']) {
            TaxExemption::EU_REVERSE_CHARGE_EXEMPTION_RULE
        } else if chars_equal(&cs, &['U', 'S', '_', 'A', 'K', '_', 'R', 'E', 'S', 'E', 'L', 'L', 'E', 'R', '_', 'E', 'X', 'E', 'M', 'P', 'T', 'I', 'O', 'N']) {
            TaxExemption::US_AK_RESELLER_EXEMPTION
        } else if chars_equal(&cs, &['U', 'S', '_', 'A', 'L', '_', 'R', 'E', 'S', 'E', 'L', 'L', 'E', 'R', '_', 'E', 'X', 'E', 'M', 'P', 'T', 'I', 'O', 'N']) {
            TaxExemption::US_AL_RESELLER_EXEMPTION
        } else if chars_equal(&cs, &['U', 'S', '_', 'A', 'R', '_', 'R', 'E', 'S', 'E', 'L', 'L', 'E', 'R', '_', 'E', 'X', 'E', 'M', 'P', 'T', 'I', 'O', 'N']) {
            TaxExemption::US_AR_RESELLER_EXEMPTION
        } else if chars_equal(&cs, &['U', 'S', '_', 'A', 'Z', '_', 'R', 'E', 'S', 'E', 'L', 'L', 'E', 'R', '_', 'E', 'X', 'E', 'M', 'P', 'T', 'I', 'O', 'N']) {
            TaxExemption::US_AZ_RESELLER_EXEMPTION
        } else if chars_equal(&cs, &['U', 'S', '_', 'C', 'A', '_', 'R', 'E', 'S', 'E', 'L', 'L', 'E', 'R', '_', 'E', 'X', 'E', 'M', 'P', 'T', 'I', 'O', 'N']) {
            TaxExemption::US_CA_RESELLER_EXEMPTION
        } else if chars_equal(&cs, &['U', 'S', '_', 'C', 'O', '_', 'R', 'E', 'S', 'E', 'L', 'L', 'E', 'R', '_', 'E', 'X', 'E', 'M', 'P', 'T', 'I', 'O', 'N']) {
            TaxExemption::US_CO_RESELLER_EXEMPTION
        } else if chars_equal(&cs, &['U', 'S', '_', 'C', 'T', '_', 'R', 'E', 'S', 'E', 'L', 'L', 'E', 'R', '_', 'E', 'X', 'E', 'M', 'P', 'T', 'I', 'O', 'N']) {
            TaxExemption::US_CT_RESELLER_EXEMPTION
        } else if chars_equal(&cs, &['U', 'S', '_', 'D', 'C', '_', 'R', 'E', 'S', 'E', 'L', 'L', 'E', 'R', '_', 'E', 'X', 'E', 'M', 'P', 'T', 'I', 'O', 'N']) {
            TaxExemption::US_DC_RESELLER_EXEMPTION
        } else if chars_equal(&cs, &['U', 'S', '_', 'D', 'E', '_', 'R', 'E', 'S', 'E', 'L', 'L', 'E', 'R', '_', 'E', 'X', 'E', 'M', 'P', 'T', 'I', 'O', 'N']) {
            TaxExemption::US_DE_RESELLER_EXEMPTION
        } else if chars_equal(&cs, &['U', 'S', '_', 'F', 'L', '_', 'R', 'E', 'S', 'E', 'L', 'L', 'E', 'R', '_', 'E', 'X', 'E', 'M', 'P', 'T', 'I', 'O', 'N']) {
            TaxExemption::US_FL_RESELLER_EXEMPTION
        } else if chars_equal(&cs, &['U', 'S', '_', 'G', 'A', '_', 'R', 'E', 'S', 'E', 'L', 'L', 'E', 'R', '_', 'E', 'X', 'E', 'M', 'P', 'T', 'I', 'O', 'N']) {
            TaxExemption::US_GA_RESELLER_EXEMPTION
        } else if chars_equal(&cs, &['U', 'S', '_', 'H', 'I', '_', 'R', 'E', 'S', 'E', 'L', 'L', 'E', 'R', '_', 'E', 'X', 'E', 'M', 'P', 'T', 'I', 'O', 'N']) {
            TaxExemption::US_HI_RESELLER_EXEMPTION
        } else if chars_equal(&cs, &['U', 'S', '_', 'I', 'A', '_', 'R', 'E', 'S', 'E', 'L', 'L', 'E', 'R', '_', 'E', 'X', 'E', 'M', 'P', 'T', 'I', 'O', 'N']) {
            TaxExemption::US_IA_RESELLER_EXEMPTION
        } else if chars_equal(&cs, &['U', 'S', '_', 'I', 'D', '_', 'R', 'E', 'S', 'E', 'L', 'L', 'E', 'R', '_', 'E', 'X', 'E', 'M', 'P', 'T', 'I', 'O', 'N']) {
            TaxExemption::US_ID_RESELLER_EXEMPTION
        } else if chars_equal(&cs, &['U', 'S', '_', 'I', 'L', '_', 'R', 'E', 'S', 'E', 'L', 'L', 'E', 'R', '_', 'E', 'X', 'E', 'M', 'P', 'T', 'I', 'O', 'N']) {
            TaxExemption::US_IL_RESELLER_EXEMPTION
        } else if chars_equal(&cs, &['U', 'S', '_', 'I', 'N', '_', 'R', 'E', 'S', 'E', 'L', 'L', 'E', 'R', '_', 'E', 'X', 'E', 'M', 'P', 'T', 'I', 'O', 'N']) {
            TaxExemption::US_IN_RESELLER_EXEMPTION
        } else if chars_equal(&cs, &['U', 'S', '_', 'K', 'S', '_', 'R', 'E', 'S', 'E', 'L', 'L', 'E', 'R', '_', 'E', 'X', 'E', 'M', 'P', 'T', 'I', 'O', 'N']) {
            TaxExemption::US_KS_RESELLER_EXEMPTION
        } else if chars_equal(&cs, &['U', 'S', '_', 'K', 'Y', '_', 'R', 'E', 'S', 'E', 'L', 'L', 'E', 'R', '_', 'E', 'X', 'E', 'M', 'P', 'T', 'I', 'O', 'N']) {
            TaxExemption::US_KY_RESELLER_EXEMPTION
        } else if chars_equal(&cs, &['U', 'S', '_', 'L', 'A', '_', 'R', 'E', 'S', 'E', 'L', 'L', 'E', 'R', '_', 'E', 'X', 'E', 'M', 'P', 'T', 'I', 'O', 'N']) {
            TaxExemption::US_LA_RESELLER_EXEMPTION
        } else if chars_equal(&cs, &['U', 'S', '_', 'M', 'A', '_', 'R', 'E', 'S', 'E', 'L', 'L', 'E', 'R', '_', 'E', 'X', 'E', 'M', 'P', 'T', 'I', 'O', 'N']) {
            TaxExemption::US_MA_RESELLER_EXEMPTION
        } else if chars_equal(&cs, &['U', 'S', '_', 'M', 'D', '_', 'R', 'E', 'S', 'E', 'L', 'L', 'E', 'R', '_', 'E', 'X', 'E', 'M', 'P', 'T', 'I', 'O', 'N']) {
            TaxExemption::US_MD_RESELLER_EXEMPTION
        } else if chars_equal(&cs, &['U', 'S', '_', 'M', 'E', '_', 'R', 'E', 'S', 'E', 'L', 'L', 'E', 'R', '_', 'E', 'X', 'E', 'M', 'P', 'T', 'I', 'O', 'N']) {
            TaxExemption::US_ME_RESELLER_EXEMPTION
        } else if chars_equal(&cs, &['U', 'S', '_', 'M', 'I', '_', 'R', 'E', 'S', 'E', 'L', 'L', 'E', 'R', '_', 'E', 'X', 'E', 'M', 'P', 'T', 'I', 'O', 'N']) {
            TaxExemption::US_MI_RESELLER_EXEMPTION
        } else if chars_equal(&cs, &['U', 'S', '_', 'M', 'N', '_', 'R', 'E', 'S', 'E', 'L', 'L', 'E', 'R', '_', 'E', 'X', 'E', 'M', 'P', 'T', 'I', 'O', 'N']) {
            TaxExemption::US_MN_RESELLER_EXEMPTION
        } else if chars_equal(&cs, &['U', 'S', '_', 'M', 'O', '_', 'R', 'E', 'S', 'E', 'L', 'L', 'E', 'R', '_', 'E', 'X', 'E', 'M', 'P', 'T', 'I', 'O', 'N']) {
            TaxExemption::US_MO_RESELLER_EXEMPTION
        } else if chars_equal(&cs, &['U', 'S', '_', 'M', 'S', '_', 'R', 'E', 'S', 'E', 'L', 'L', 'E', 'R', '_', 'E', 'X', 'E', 'M', 'P', 'T', 'I', 'O', 'N']) {
            TaxExemption::US_MS_RESELLER_EXEMPTION
        } else if chars_equal(&cs, &['U', 'S', '_', 'M', 'T', '_', 'R', 'E', 'S', 'E', 'L', 'L', 'E', 'R', '_', 'E', 'X', 'E', 'M', 'P', 'T', 'I', 'O', 'N']) {
            TaxExemption::US_MT_RESELLER_EXEMPTION
        } else if chars_equal(&cs, &['U', 'S', '_', 'N', 'C', '_', 'R', 'E', 'S', 'E', 'L', 'L', 'E', 'R', '_', 'E', 'X', 'E', 'M', 'P', 'T', 'I', 'O', 'N']) {
            TaxExemption::US_NC_RESELLER_EXEMPTION
        } else if chars_equal(&cs, &['U', 'S', '_', 'N', 'D', '_', 'R', 'E', 'S', 'E', 'L', 'L', 'E', 'R', '_', 'E', 'X', 'E', 'M', 'P', 'T', 'I', 'O', 'N']) {
            TaxExemption::US_ND_RESELLER_EXEMPTION
        } else if chars_equal(&cs, &['U', 'S', '_', 'N', 'E', '_', 'R', 'E', 'S', 'E', 'L', 'L', 'E', 'R', '_', 'E', 'X', 'E', 'M', 'P', 'T', 'I', 'O', 'N']) {
            TaxExemption::US_NE_RESELLER_EXEMPTION
        } else if chars_equal(&cs, &['U', 'S', '_', 'N', 'H', '_', 'R', 'E', 'S', 'E', 'L', 'L', 'E', 'R', '_', 'E', 'X', 'E', 'M', 'P', 'T', 'I', 'O', 'N']) {
            TaxExemption::US_NH_RESELLER_EXEMPTION
        } else if chars_equal(&cs, &['U', 'S', '_', 'N', 'J', '_', 'R', 'E', 'S', 'E', 'L', 'L', 'E', 'R', '_', 'E', 'X', 'E', 'M', 'P', 'T', 'I', 'O', 'N']) {
            TaxExemption::US_NJ_RESELLER_EXEMPTION
        } else if chars_equal(&cs, &['U', 'S', '_', 'N', 'M', '_', 'R', 'E', 'S', 'E', 'L', 'L', 'E', 'R', '_', 'E', 'X', 'E', 'M', 'P', 'T', 'I', 'O', 'N']) {
            TaxExemption::US_NM_RESELLER_EXEMPTION
        } else if chars_equal(&cs, &['U', 'S', '_', 'N', 'V', '_', 'R', 'E', 'S', 'E', 'L', 'L', 'E', 'R', '_', 'E', 'X', 'E', 'M', 'P', 'T', 'I', 'O', 'N']) {
            TaxExemption::US_NV_RESELLER_EXEMPTION
        } else if chars_equal(&cs, &['U', 'S', '_', 'N', 'Y', '_', 'R', 'E', 'S', 'E', 'L', 'L', 'E', 'R', '_', 'E', 'X', 'E', 'M', 'P', 'T', 'I', 'O', 'N']) {
            TaxExemption::US_NY_RESELLER_EXEMPTION
        } else if chars_equal(&cs, &['U', 'S', '_', 'O', 'H', '_', 'R', 'E', 'S', 'E', 'L', 'L', 'E', 'R', '_', 'E', 'X', 'E', 'M', 'P', 'T', 'I', 'O', 'N']) {
            TaxExemption::US_OH_RESELLER_EXEMPTION
        } else if chars_equal(&cs, &['U', 'S', '_', 'O', 'K', '_', 'R', 'E', 'S', 'E', 'L', 'L', 'E', 'R', '_', 'E', 'X', 'E', 'M', 'P', 'T', 'I', 'O', 'N']) {
            TaxExemption::US_OK_RESELLER_EXEMPTION
        } else if chars_equal(&cs, &['U', 'S', '_', 'O', 'R', '_', 'R', 'E', 'S', 'E', 'L', 'L', 'E', 'R', '_', 'E', 'X', 'E', 'M', 'P', 'T', 'I', 'O', 'N']) {
            TaxExemption::US_OR_RESELLER_EXEMPTION
        } else if chars_equal(&cs, &['U', 'S', '_', 'P', 'A', '_', 'R', 'E', 'S', 'E', 'L', 'L', 'E', 'R', '_', 'E', 'X', 'E', 'M', 'P', 'T', 'I', 'O', 'N']) {
            TaxExemption::US_PA_RESELLER_EXEMPTION
        } else if chars_equal(&cs, &['U', 'S', '_', 'R', 'I', '_', 'R', 'E', 'S', 'E', 'L', 'L', 'E', 'R', '_', 'E', 'X', 'E', 'M', 'P', 'T', 'I', 'O', 'N']) {
            TaxExemption::US_RI_RESELLER_EXEMPTION
        } else if chars_equal(&cs, &['U', 'S', '_', 'S', 'C', '_', 'R', 'E', 'S', 'E', 'L', 'L', 'E', 'R', '_', 'E', 'X', 'E', 'M', 'P', 'T', 'I', 'O', 'N']) {
            TaxExemption::US_SC_RESELLER_EXEMPTION
        } else if chars_equal(&cs, &['U', 'S', '_', 'S', 'D', '_', 'R', 'E', 'S', 'E', 'L', 'L', 'E', 'R', '_', 'E', 'X', 'E', 'M', 'P', 'T', 'I', 'O', 'N']) {
            TaxExemption::US_SD_RESELLER_EXEMPTION
        } else if chars_equal(&cs, &['U', 'S', '_', 'T', 'N', '_', 'R', 'E', 'S', 'E', 'L', 'L', 'E', 'R', '_', 'E', 'X', 'E', 'M', 'P', 'T', 'I', 'O', 'N']) {
            TaxExemption::US_TN_RESELLER_EXEMPTION
        } else if chars_equal(&cs, &['U', 'S', '_', 'T', 'X', '_', 'R', 'E', 'S', 'E', 'L', 'L', 'E', 'R', '_', 'E', 'X', 'E', 'M', 'P', 'T', 'I', 'O', 'N']) {
            TaxExemption::US_TX_RESELLER_EXEMPTION
        } else if chars_equal(&cs, &['U', 'S', '_', 'U', 'T', '_', 'R', 'E', 'S', 'E', 'L', 'L', 'E', 'R', '_', 'E', 'X', 'E', 'M', 'P', 'T', 'I', 'O', 'N']) {
            TaxExemption::US_UT_RESELLER_EXEMPTION
        } else if chars_equal(&cs, &['U', 'S', '_', 'V', 'A', '_', 'R', 'E', 'S', 'E', 'L', 'L', 'E', 'R', '_', 'E', 'X', 'E', 'M', 'P', 'T', 'I', 'O', 'N']) {
            TaxExemption::US_VA_RESELLER_EXEMPTION
        } else if chars_equal(&cs, &['U', 'S', '_', 'V', 'T', '_', 'R', 'E', 'S', 'E', 'L', 'L', 'E', 'R', '_', 'E', 'X', 'E', 'M', 'P', 'T', 'I', 'O', 'N']) {
            TaxExemption::US_VT_RESELLER_EXEMPTION
        } else if chars_equal(&cs, &['U', 'S', '_', 'W', 'A', '_', 'R', 'E', 'S', 'E', 'L', 'L', 'E', 'R', '_', 'E', 'X', 'E', 'M', 'P', 'T', 'I', 'O', 'N']) {
            TaxExemption::US_WA_RESELLER_EXEMPTION
        } else if chars_equal(&cs, &['U', 'S', '_', 'W', 'I', '_', 'R', 'E', 'S', 'E', 'L', 'L', 'E', 'R', '_', 'E', 'X', 'E', 'M', 'P', 'T', 'I', 'O', 'N']) {
            TaxExemption::US_WI_RESELLER_EXEMPTION
        } else if chars_equal(&cs, &['U', 'S', '_', 'W', 'V', '_', 'R', 'E', 'S', 'E', 'L', 'L', 'E', 'R', '_', 'E', 'X', 'E', 'M', 'P', 'T', 'I', 'O', 'N']) {
            TaxExemption::US_WV_RESELLER_EXEMPTION
        } else {
            TaxExemption::US_WY_RESELLER_EXEMPTION
        }
    }

    /// The GraphQL enum text of the value.
    pub fn to_string(&self) -> (r: String)
        ensures
            r@ == self.spec_to_string(),
    {
        let text: &[char] = match self {
            TaxExemption::CA_BC_COMMERCIAL_FISHERY_EXEMPTION => &['C', 'A', '_', 'B', 'C', '_', 'C', 'O', 'M', 'M', 'E', 'R', 'C', 'I', 'A', 'L', '_', 'F', 'I', 'S', 'H', 'E', 'R', 'Y', '_', 'E', 'X', 'E', 'M', 'P', 'T', 'I', 'O', 'N'],
            TaxExemption::CA_BC_CONTRACTOR_EXEMPTION => &['C', 'A', '_', 'B', 'C', '_', 'C', 'O', 'N', 'T', 'R', 'A', 'C', 'T', 'O', 'R', '_', 'E', 'X', 'E', 'M', 'P', 'T', 'I', 'O', 'N'],
            TaxExemption::CA_BC_PRODUCTION_AND_MACHINERY_EXEMPTION => &['C', 'A', '_', 'B', 'C', '_', 'P', 'R', 'O', 'D', 'U', 'C', 'T', 'I', 'O', 'N', '_', 'A', 'N', 'D', '_', 'M', 'A', 'C', 'H', 'I', 'N', 'E', 'R', 'Y', '_', 'E', 'X', 'E', 'M', 'P', 'T', 'I', 'O', 'N'],
            TaxExemption::CA_BC_RESELLER_EXEMPTION => &['C', 'A', '_', 'B', 'C', '_', 'R', 'E', 'S', 'E', 'L', 'L', 'E', 'R', '_', 'E', 'X', 'E', 'M', 'P', 'T', 'I', 'O', 'N'],
            TaxExemption::CA_BC_SUB_CONTRACTOR_EXEMPTION => &['C', 'A', '_', 'B', 'C', '_', 'S', 'U', 'B', '_', 'C', 'O', 'N', 'T', 'R', 'A', 'C', 'T', 'O', 'R', '_', 'E', 'X', 'E', 'M', 'P', 'T', 'I', 'O', 'N'],
            TaxExemption::CA_DIPLOMAT_EXEMPTION => &['C', 'A', '_', 'D', 'I', 'P', 'L', 'O', 'M', 'A', 'T', '_', 'E', 'X', 'E', 'M', 'P', 'T', 'I', 'O', 'N'],
            TaxExemption::CA_MB_COMMERCIAL_FISHERY_EXEMPTION => &['C', 'A', '_', 'M', 'B', '_', 'C', 'O', 'M', 'M', 'E', 'R', 'C', 'I', 'A', 'L', '_', 'F', 'I', 'S', 'H', 'E', 'R', 'Y', '_', 'E', 'X', 'E', 'M', 'P', 'T', 'I', 'O', 'N'],
            TaxExemption::CA_MB_FARMER_EXEMPTION => &['C', 'A', '_', 'M', 'B', '_', 'F', 'A', 'R', 'M', 'E', 'R', '_', 'E', 'X', 'E', 'M', 'P', 'T', 'I', 'O', 'N'],
            TaxExemption::CA_MB_RESELLER_EXEMPTION => &['C', 'A', '_', 'M', 'B', '_', 'R', 'E', 'S', 'E', 'L', 'L', 'E', 'R', '_', 'E', 'X', 'E', 'M', 'P', 'T', 'I', 'O', 'N'],
            TaxExemption::CA_NS_COMMERCIAL_FISHERY_EXEMPTION => &['C', 'A', '_', 'N', 'S', '_', 'C', 'O', 'M', 'M', 'E', 'R', 'C', 'I', 'A', 'L', '_', 'F', 'I', 'S', 'H', 'E', 'R', 'Y', '_', 'E', 'X', 'E', 'M', 'P', 'T', 'I', 'O', 'N'],
            TaxExemption::CA_NS_FARMER_EXEMPTION => &['C', 'A', '_', 'N', 'S', '_', 'F', 'A', 'R', 'M', 'E', 'R', '_', 'E', 'X', 'E', 'M', 'P', 'T', 'I', 'O', 'N'],
            TaxExemption::CA_ON_PURCHASE_EXEMPTION => &['C', 'A', '_', 'O', 'N', '_', 'P', 'U', 'R', 'C', 'H', 'A', 'S', 'E', '_', 'E', 'X', 'E', 'M', 'P', 'T', 'I', 'O', 'N'],
            TaxExemption::CA_PE_COMMERCIAL_FISHERY_EXEMPTION => &['C', 'A', '_', 'P', 'E', '_', 'C', 'O', 'M', 'M', 'E', 'R', 'C', 'I', 'A', 'L', '_', 'F', 'I', 'S', 'H', 'E', 'R', 'Y', '_', 'E', 'X', 'E', 'M', 'P', 'T', 'I', 'O', 'N'],
            TaxExemption::CA_SK_COMMERCIAL_FISHERY_EXEMPTION => &['C', 'A', '_', 'S', 'K', '_', 'C', 'O', 'M', 'M', 'E', 'R', 'C', 'I', 'A', 'L', '_', 'F', 'I', 'S', 'H', 'E', 'R', 'Y', '_', 'E', 'X', 'E', 'M', 'P', 'T', 'I', 'O', 'N'],
            TaxExemption::CA_SK_CONTRACTOR_EXEMPTION => &['C', 'A', '_', 'S', 'K', '_', 'C', 'O', 'N', 'T', 'R', 'A', 'C', 'T', 'O', 'R', '_', 'E', 'X', 'E', 'M', 'P', 'T', 'I', 'O', 'N'],
            TaxExemption::CA_SK_FARMER_EXEMPTION => &['C', 'A', '_', 'S', 'K', '_', 'F', 'A', 'R', 'M', 'E', 'R', '_', 'E', 'X', 'E', 'M', 'P', 'T', 'I', 'O', 'N'],
            TaxExemption::CA_SK_PRODUCTION_AND_MACHINERY_EXEMPTION => &['C', 'A', '_', 'S', 'K', '_', 'P', 'R', 'O', 'D', 'U', 'C', 'T', 'I', 'O', 'N', '_', 'A', 'N', 'D', '_', 'M', 'A', 'C', 'H', 'I', 'N', 'E', 'R', 'Y', '_', 'E', 'X', 'E', 'M', 'P', 'T', 'I', 'O', 'N'],
            TaxExemption::CA_SK_RESELLER_EXEMPTION => &['C', 'A', '_', 'S', 'K', '_', 'R', 'E', 'S', 'E', 'L', 'L', 'E', 'R', '_', 'E', 'X', 'E', 'M', 'P', 'T', 'I', 'O', 'N'],
            TaxExemption::CA_SK_SUB_CONTRACTOR_EXEMPTION => &['C', 'A', '_', 'S', 'K', '_', 'S', 'U', 'B', '_', 'C', 'O', 'N', 'T', 'R', 'A', 'C', 'T', 'O', 'R', '_', 'E', 'X', 'E', 'M', 'P', 'T', 'I', 'O', 'N'],
            TaxExemption::CA_STATUS_CARD_EXEMPTION => &['C', 'A', '_', 'S', 'T', 'A', 'T', 'U', 'S', '_', 'C', 'A', 'R', 'D', '_', 'E', 'X', 'E', 'M', 'P', 'T', 'I', 'O', 'N'],
            TaxExemption::EU_REVERSE_CHARGE_EXEMPTION_RULE => &['E', 'U', '_', 'R', 'E', 'V', 'E', 'R', 'S', 'E', '_', 'C', 'H', 'A', 'R', 'G', 'E', '_', 'E', 'X', 'E', 'M', 'P', 'T', 'I', 'O', 'N', '_', 'R', 'U', 'L', 'E'],
            TaxExemption::US_AK_RESELLER_EXEMPTION => &['U', 'S', '_', 'A', 'K', '_', 'R', 'E', 'S', 'E', 'L', 'L', 'E', 'R', '_', 'E', 'X', 'E', 'M', 'P', 'T', 'I', 'O', 'N'],
            TaxExemption::US_AL_RESELLER_EXEMPTION => &['U', 'S', '_', 'A', 'L', '_', 'R', 'E', 'S', 'E', 'L', 'L', 'E', 'R', '_', 'E', 'X', 'E', 'M', 'P', 'T', 'I', 'O', 'N'],
            TaxExemption::US_AR_RESELLER_EXEMPTION => &['U', 'S', '_', 'A', 'R', '_', 'R', 'E', 'S', 'E', 'L', 'L', 'E', 'R', '_', 'E', 'X', 'E', 'M', 'P', 'T', 'I', 'O', 'N'],
            TaxExemption::US_AZ_RESELLER_EXEMPTION => &['U', 'S', '_', 'A', 'Z', '_', 'R', 'E', 'S', 'E', 'L', 'L', 'E', 'R', '_', 'E', 'X', 'E', 'M', 'P', 'T', 'I', 'O', 'N'],
            TaxExemption::US_CA_RESELLER_EXEMPTION => &['U', 'S', '_', 'C', 'A', '_', 'R', 'E', 'S', 'E', 'L', 'L', 'E', 'R', '_', 'E', 'X', 'E', 'M', 'P', 'T', 'I', 'O', 'N'],
            TaxExemption::US_CO_RESELLER_EXEMPTION => &['U', 'S', '_', 'C', 'O', '_', 'R', 'E', 'S', 'E', 'L', 'L', 'E', 'R', '_', 'E', 'X', 'E', 'M', 'P', 'T', 'I', 'O', 'N'],
            TaxExemption::US_CT_RESELLER_EXEMPTION => &['U', 'S', '_', 'C', 'T', '_', 'R', 'E', 'S', 'E', 'L', 'L', 'E', 'R', '_', 'E', 'X', 'E', 'M', 'P', 'T', 'I', 'O', 'N'],
            TaxExemption::US_DC_RESELLER_EXEMPTION => &['U', 'S', '_', 'D', 'C', '_', 'R', 'E', 'S', 'E', 'L', 'L', 'E', 'R', '_', 'E', 'X', 'E', 'M', 'P', 'T', 'I', 'O', 'N'],
            TaxExemption::US_DE_RESELLER_EXEMPTION => &['U', 'S', '_', 'D', 'E', '_', 'R', 'E', 'S', 'E', 'L', 'L', 'E', 'R', '_', 'E', 'X', 'E', 'M', 'P', 'T', 'I', 'O', 'N'],
            TaxExemption::US_FL_RESELLER_EXEMPTION => &['U', 'S', '_', 'F', 'L', '_', 'R', 'E', 'S', 'E', 'L', 'L', 'E', 'R', '_', 'E', 'X', 'E', 'M', 'P', 'T', 'I', 'O', 'N'],
            TaxExemption::US_GA_RESELLER_EXEMPTION => &['U', 'S', '_', 'G', 'A', '_', 'R', 'E', 'S', 'E', 'L', 'L', 'E', 'R', '_', 'E', 'X', 'E', 'M', 'P', 'T', 'I', 'O', 'N'],
            TaxExemption::US_HI_RESELLER_EXEMPTION => &['U', 'S', '_', 'H', 'I', '_', 'R', 'E', 'S', 'E', 'L', 'L', 'E', 'R', '_', 'E', 'X', 'E', 'M', 'P', 'T', 'I', 'O', 'N'],
            TaxExemption::US_IA_RESELLER_EXEMPTION => &['U', 'S', '_', 'I', 'A', '_', 'R', 'E', 'S', 'E', 'L', 'L', 'E', 'R', '_', 'E', 'X', 'E', 'M', 'P', 'T', 'I', 'O', 'N'],
            TaxExemption::US_ID_RESELLER_EXEMPTION => &['U', 'S', '_', 'I', 'D', '_', 'R', 'E', 'S', 'E', 'L', 'L', 'E', 'R', '_', 'E', 'X', 'E', 'M', 'P', 'T', 'I', 'O', 'N'],
            TaxExemption::US_IL_RESELLER_EXEMPTION => &['U', 'S', '_', 'I', 'L', '_', 'R', 'E', 'S', 'E', 'L', 'L', 'E', 'R', '_', 'E', 'X', 'E', 'M', 'P', 'T', 'I', 'O', 'N'],
            TaxExemption::US_IN_RESELLER_EXEMPTION => &['U', 'S', '_', 'I', 'N', '_', 'R', 'E', 'S', 'E', 'L', 'L', 'E', 'R', '_', 'E', 'X', 'E', 'M', 'P', 'T', 'I', 'O', 'N'],
            TaxExemption::US_KS_RESELLER_EXEMPTION => &['U', 'S', '_', 'K', 'S', '_', 'R', 'E', 'S', 'E', 'L', 'L', 'E', 'R', '_', 'E', 'X', 'E', 'M', 'P', 'T', 'I', 'O', 'N'],
            TaxExemption::US_KY_RESELLER_EXEMPTION => &['U', 'S', '_', 'K', 'Y', '_', 'R', 'E', 'S', 'E', 'L', 'L', 'E', 'R', '_', 'E', 'X', 'E', 'M', 'P', 'T', 'I', 'O', 'N'],
            TaxExemption::US_LA_RESELLER_EXEMPTION => &['U', 'S', '_', 'L', 'A', '_', 'R', 'E', 'S', 'E', 'L', 'L', 'E', 'R', '_', 'E', 'X', 'E', 'M', 'P', 'T', 'I', 'O', 'N'],
            TaxExemption::US_MA_RESELLER_EXEMPTION => &['U', 'S', '_', 'M', 'A', '_', 'R', 'E', 'S', 'E', 'L', 'L', 'E', 'R', '_', 'E', 'X', 'E', 'M', 'P', 'T', 'I', 'O', 'N'],
            TaxExemption::US_MD_RESELLER_EXEMPTION => &['U', 'S', '_', 'M', 'D', '_', 'R', 'E', 'S', 'E', 'L', 'L', 'E', 'R', '_', 'E', 'X', 'E', 'M', 'P', 'T', 'I', 'O', 'N'],
            TaxExemption::US_ME_RESELLER_EXEMPTION => &['U', 'S', '_', 'M', 'E', '_', 'R', 'E', 'S', 'E', 'L', 'L', 'E', 'R', '_', 'E', 'X', 'E', 'M', 'P', 'T', 'I', 'O', 'N'],
            TaxExemption::US_MI_RESELLER_EXEMPTION => &['U', 'S', '_', 'M', 'I', '_', 'R', 'E', 'S', 'E', 'L', 'L', 'E', 'R', '_', 'E', 'X', 'E', 'M', 'P', 'T', 'I', 'O', 'N'],
            TaxExemption::US_MN_RESELLER_EXEMPTION => &['U', 'S', '_', 'M', 'N', '_', 'R', 'E', 'S', 'E', 'L', 'L', 'E', 'R', '_', 'E', 'X', 'E', 'M', 'P', 'T', 'I', 'O', 'N'],
            TaxExemption::US_MO_RESELLER_EXEMPTION => &['U', 'S', '_', 'M', 'O', '_', 'R', 'E', 'S', 'E', 'L', 'L', 'E', 'R', '_', 'E', 'X', 'E', 'M', 'P', 'T', 'I', 'O', 'N'],
            TaxExemption::US_MS_RESELLER_EXEMPTION => &['U', 'S', '_', 'M', 'S', '_', 'R', 'E', 'S', 'E', 'L', 'L', 'E', 'R', '_', 'E', 'X', 'E', 'M', 'P', 'T', 'I', 'O', 'N'],
            TaxExemption::US_MT_RESELLER_EXEMPTION => &['U', 'S', '_', 'M', 'T', '_', 'R', 'E', 'S', 'E', 'L', 'L', 'E', 'R', '_', 'E', 'X', 'E', 'M', 'P', 'T', 'I', 'O', 'N'],
            TaxExemption::US_NC_RESELLER_EXEMPTION => &['U', 'S', '_', 'N', 'C', '_', 'R', 'E', 'S', 'E', 'L', 'L', 'E', 'R', '_', 'E', 'X', 'E', 'M', 'P', 'T', 'I', 'O', 'N'],
            TaxExemption::US_ND_RESELLER_EXEMPTION => &['U', 'S', '_', 'N', 'D', '_', 'R', 'E', 'S', 'E', 'L', 'L', 'E', 'R', '_', 'E', 'X', 'E', 'M', 'P', 'T', 'I', 'O', 'N'],
            TaxExemption::US_NE_RESELLER_EXEMPTION => &['U', 'S', '_', 'N', 'E', '_', 'R', 'E', 'S', 'E', 'L', 'L', 'E', 'R', '_', 'E', 'X', 'E', 'M', 'P', 'T', 'I', 'O', 'N'],
            TaxExemption::US_NH_RESELLER_EXEMPTION => &['U', 'S', '_', 'N', 'H', '_', 'R', 'E', 'S', 'E', 'L', 'L', 'E', 'R', '_', 'E', 'X', 'E', 'M', 'P', 'T', 'I', 'O', 'N'],
            TaxExemption::US_NJ_RESELLER_EXEMPTION => &['U', 'S', '_', 'N', 'J', '_', 'R', 'E', 'S', 'E', 'L', 'L', 'E', 'R', '_', 'E', 'X', 'E', 'M', 'P', 'T', 'I', 'O', 'N'],
            TaxExemption::US_NM_RESELLER_EXEMPTION => &['U', 'S', '_', 'N', 'M', '_', 'R', 'E', 'S', 'E', 'L', 'L', 'E', 'R', '_', 'E', 'X', 'E', 'M', 'P', 'T', 'I', 'O', 'N'],
            TaxExemption::US_NV_RESELLER_EXEMPTION => &['U', 'S', '_', 'N', 'V', '_', 'R', 'E', 'S', 'E', 'L', 'L', 'E', 'R', '_', 'E', 'X', 'E', 'M', 'P', 'T', 'I', 'O', 'N'],
            TaxExemption::US_NY_RESELLER_EXEMPTION => &['U', 'S', '_', 'N', 'Y', '_', 'R', 'E', 'S', 'E', 'L', 'L', 'E', 'R', '_', 'E', 'X', 'E', 'M', 'P', 'T', 'I', 'O', 'N'],
            TaxExemption::US_OH_RESELLER_EXEMPTION => &['U', 'S', '_', 'O', 'H', '_', 'R', 'E', 'S', 'E', 'L', 'L', 'E', 'R', '_', 'E', 'X', 'E', 'M', 'P', 'T', 'I', 'O', 'N'],
            TaxExemption::US_OK_RESELLER_EXEMPTION => &['U', 'S', '_', 'O', 'K', '_', 'R', 'E', 'S', 'E', 'L', 'L', 'E', 'R', '_', 'E', 'X', 'E', 'M', 'P', 'T', 'I', 'O', 'N'],
            TaxExemption::US_OR_RESELLER_EXEMPTION => &['U', 'S', '_', 'O', 'R', '_', 'R', 'E', 'S', 'E', 'L', 'L', 'E', 'R', '_', 'E', 'X', 'E', 'M', 'P', 'T', 'I', 'O', 'N'],
            TaxExemption::US_PA_RESELLER_EXEMPTION => &['U', 'S', '_', 'P', 'A', '_', 'R', 'E', 'S', 'E', 'L', 'L', 'E', 'R', '_', 'E', 'X', 'E', 'M', 'P', 'T', 'I', 'O', 'N'],
            TaxExemption::US_RI_RESELLER_EXEMPTION => &['U', 'S', '_', 'R', 'I', '_', 'R', 'E', 'S', 'E', 'L', 'L', 'E', 'R', '_', 'E', 'X', 'E', 'M', 'P', 'T', 'I', 'O', 'N'],
            TaxExemption::US_SC_RESELLER_EXEMPTION => &['U', 'S', '_', 'S', 'C', '_', 'R', 'E', 'S', 'E', 'L', 'L', 'E', 'R', '_', 'E', 'X', 'E', 'M', 'P', 'T', 'I', 'O', 'N'],
            TaxExemption::US_SD_RESELLER_EXEMPTION => &['U', 'S', '_', 'S', 'D', '_', 'R', 'E', 'S', 'E', 'L', 'L', 'E', 'R', '_', 'E', 'X', 'E', 'M', 'P', 'T', 'I', 'O', 'N'],
            TaxExemption::US_TN_RESELLER_EXEMPTION => &['U', 'S', '_', 'T', 'N', '_', 'R', 'E', 'S', 'E', 'L', 'L', 'E', 'R', '_', 'E', 'X', 'E', 'M', 'P', 'T', 'I', 'O', 'N'],
            TaxExemption::US_TX_RESELLER_EXEMPTION => &['U', 'S', '_', 'T', 'X', '_', 'R', 'E', 'S', 'E', 'L', 'L', 'E', 'R', '_', 'E', 'X', 'E', 'M', 'P', 'T', 'I', 'O', 'N'],
            TaxExemption::US_UT_RESELLER_EXEMPTION => &['U', 'S', '_', 'U', 'T', '_', 'R', 'E', 'S', 'E', 'L', 'L', 'E', 'R', '_', 'E', 'X', 'E', 'M', 'P', 'T', 'I', 'O', 'N'],
            TaxExemption::US_VA_RESELLER_EXEMPTION => &['U', 'S', '_', 'V', 'A', '_', 'R', 'E', 'S', 'E', 'L', 'L', 'E', 'R', '_', 'E', 'X', 'E', 'M', 'P', 'T', 'I', 'O', 'N'],
            TaxExemption::US_VT_RESELLER_EXEMPTION => &['U', 'S', '_', 'V', 'T', '_', 'R', 'E', 'S', 'E', 'L', 'L', 'E', 'R', '_', 'E', 'X', 'E', 'M', 'P', 'T', 'I', 'O', 'N'],
            TaxExemption::US_WA_RESELLER_EXEMPTION => &['U', 'S', '_', 'W', 'A', '_', 'R', 'E', 'S', 'E', 'L', 'L', 'E', 'R', '_', 'E', 'X', 'E', 'M', 'P', 'T', 'I', 'O', 'N'],
            TaxExemption::US_WI_RESELLER_EXEMPTION => &['U', 'S', '_', 'W', 'I', '_', 'R', 'E', 'S', 'E', 'L', 'L', 'E', 'R', '_', 'E', 'X', 'E', 'M', 'P', 'T', 'I', 'O', 'N'],
            TaxExemption::US_WV_RESELLER_EXEMPTION => &['U', 'S', '_', 'W', 'V', '_', 'R', 'E', 'S', 'E', 'L', 'L', 'E', 'R', '_', 'E', 'X', 'E', 'M', 'P', 'T', 'I', 'O', 'N'],
            TaxExemption::US_WY_RESELLER_EXEMPTION => &['U', 'S', '_', 'W', 'Y', '_', 'R', 'E', 'S', 'E', 'L', 'L', 'E', 'R', '_', 'E', 'X', 'E', 'M', 'P', 'T', 'I', 'O', 'N'],
        };
        string_from_slice(text)
    }
}

/// Reading back the text of a value gives the value again.
#[verifier::rlimit(60)]
pub proof fn lemma_tax_exemption_round_trip(v: TaxExemption)
    ensures
        TaxExemption::spec_from_str(v.spec_to_string()) == v,
{
    match v {
        TaxExemption::CA_BC_COMMERCIAL_FISHERY_EXEMPTION => {},
        TaxExemption::CA_BC_CONTRACTOR_EXEMPTION => {},
        TaxExemption::CA_BC_PRODUCTION_AND_MACHINERY_EXEMPTION => {},
        TaxExemption::CA_BC_RESELLER_EXEMPTION => {},
        TaxExemption::CA_BC_SUB_CONTRACTOR_EXEMPTION => {},
        TaxExemption::CA_DIPLOMAT_EXEMPTION => {},
        TaxExemption::CA_MB_COMMERCIAL_FISHERY_EXEMPTION => {
            assert(seq!['C', 'A', '_', 'M', 'B', '_', 'C', 'O', 'M', 'M', 'E', 'R', 'C', 'I', 'A', 'L', '_', 'F', 'I', 'S', 'H', 'E', 'R', 'Y', '_', 'E', 'X', 'E', 'M', 'P', 'T', 'I', 'O', 'N'][3] != seq!['C', 'A', '_', 'B', 'C', '_', 'C', 'O', 'M', 'M', 'E', 'R', 'C', 'I', 'A', 'L', '_', 'F', 'I', 'S', 'H', 'E', 'R', 'Y', '_', 'E', 'X', 'E', 'M', 'P', 'T', 'I', 'O', 'N'][3]);
        },
        TaxExemption::CA_MB_FARMER_EXEMPTION => {},
        TaxExemption::CA_MB_RESELLER_EXEMPTION => {
            assert(seq!['C', 'A', '_', 'M', 'B', '_', 'R', 'E', 'S', 'E', 'L', 'L', 'E', 'R', '_', 'E', 'X', 'E', 'M', 'P', 'T', 'I', 'O', 'N'][3] != seq!['C', 'A', '_', 'B', 'C', '_', 'R', 'E', 'S', 'E', 'L', 'L', 'E', 'R', '_', 'E', 'X', 'E', 'M', 'P', 'T', 'I', 'O', 'N'][3]);
        },
        TaxExemption::CA_NS_COMMERCIAL_FISHERY_EXEMPTION => {
            assert(seq!['C', 'A', '_', 'N', 'S', '_', 'C', 'O', 'M', 'M', 'E', 'R', 'C', 'I', 'A', 'L', '_', 'F', 'I', 'S', 'H', 'E', 'R', 'Y', '_', 'E', 'X', 'E', 'M', 'P', 'T', 'I', 'O', 'N'][3] != seq!['C', 'A', '_', 'B', 'C', '_', 'C', 'O', 'M', 'M', 'E', 'R', 'C', 'I', 'A', 'L', '_', 'F', 'I', 'S', 'H', 'E', 'R', 'Y', '_', 'E', 'X', 'E', 'M', 'P', 'T', 'I', 'O', 'N'][3]);
            assert(seq!['C', 'A', '_', 'N', 'S', '_', 'C', 'O', 'M', 'M', 'E', 'R', 'C', 'I', 'A', 'L', '_', 'F', 'I', 'S', 'H', 'E', 'R', 'Y', '_', 'E', 'X', 'E', 'M', 'P', 'T', 'I', 'O', 'N'][3] != seq!['C', 'A', '_', 'M', 'B', '_', 'C', 'O', 'M', 'M', 'E', 'R', 'C', 'I', 'A', 'L', '_', 'F', 'I', 'S', 'H', 'E', 'R', 'Y', '_', 'E', 'X', 'E', 'M', 'P', 'T', 'I', 'O', 'N'][3]);
        },
        TaxExemption::CA_NS_FARMER_EXEMPTION => {
            assert(seq!['C', 'A', '_', 'N', 'S', '_', 'F', 'A', 'R', 'M', 'E', 'R', '_', 'E', 'X', 'E', 'M', 'P', 'T', 'I', 'O', 'N'][3] != seq!['C', 'A', '_', 'M', 'B', '_', 'F', 'A', 'R', 'M', 'E', 'R', '_', 'E', 'X', 'E', 'M', 'P', 'T', 'I', 'O', 'N'][3]);
        },
        TaxExemption::CA_ON_PURCHASE_EXEMPTION => {
            assert(seq!['C', 'A', '_', 'O', 'N', '_', 'P', 'U', 'R', 'C', 'H', 'A', 'S', 'E', '_', 'E', 'X', 'E', 'M', 'P', 'T', 'I', 'O', 'N'][3] != seq!['C', 'A', '_', 'B', 'C', '_', 'R', 'E', 'S', 'E', 'L', 'L', 'E', 'R', '_', 'E', 'X', 'E', 'M', 'P', 'T', 'I', 'O', 'N'][3]);
            assert(seq!['C', 'A', '_', 'O', 'N', '_', 'P', 'U', 'R', 'C', 'H', 'A', 'S', 'E', '_', 'E', 'X', 'E', 'M', 'P', 'T', 'I', 'O', 'N'][3] != seq!['C', 'A', '_', 'M', 'B', '_', 'R', 'E', 'S', 'E', 'L', 'L', 'E', 'R', '_', 'E', 'X', 'E', 'M', 'P', 'T', 'I', 'O', 'N'][3]);
        },
        TaxExemption::CA_PE_COMMERCIAL_FISHERY_EXEMPTION => {
            assert(seq!['C', 'A', '_', 'P', 'E', '_', 'C', 'O', 'M', 'M', 'E', 'R', 'C', 'I', 'A', 'L', '_', 'F', 'I', 'S', 'H', 'E', 'R', 'Y', '_', 'E', 'X', 'E', 'M', 'P', 'T', 'I', 'O', 'N'][3] != seq!['C', 'A', '_', 'B', 'C', '_', 'C', 'O', 'M', 'M', 'E', 'R', 'C', 'I', 'A', 'L', '_', 'F', 'I', 'S', 'H', 'E', 'R', 'Y', '_', 'E', 'X', 'E', 'M', 'P', 'T', 'I', 'O', 'N'][3]);
            assert(seq!['C', 'A', '_', 'P', 'E', '_', 'C', 'O', 'M', 'M', 'E', 'R', 'C', 'I', 'A', 'L', '_', 'F', 'I', 'S', 'H', 'E', 'R', 'Y', '_', 'E', 'X', 'E', 'M', 'P', 'T', 'I', 'O', 'N'][3] != seq!['C', 'A', '_', 'M', 'B', '_', 'C', 'O', 'M', 'M', 'E', 'R', 'C', 'I', 'A', 'L', '_', 'F', 'I', 'S', 'H', 'E', 'R', 'Y', '_', 'E', 'X', 'E', 'M', 'P', 'T', 'I', 'O', 'N'][3]);
            assert(seq!['C', 'A', '_', 'P', 'E', '_', 'C', 'O', 'M', 'M', 'E', 'R', 'C', 'I', 'A', 'L', '_', 'F', 'I', 'S', 'H', 'E', 'R', 'Y', '_', 'E', 'X', 'E', 'M', 'P', 'T', 'I', 'O', 'N'][3] != seq!['C', 'A', '_', 'N', 'S', '_', 'C', 'O', 'M', 'M', 'E', 'R', 'C', 'I', 'A', 'L', '_', 'F', 'I', 'S', 'H', 'E', 'R', 'Y', '_', 'E', 'X', 'E', 'M', 'P', 'T', 'I', 'O', 'N'][3]);
        },
        TaxExemption::CA_SK_COMMERCIAL_FISHERY_EXEMPTION => {
            assert(seq!['C', 'A', '_', 'S', 'K', '_', 'C', 'O', 'M', 'M', 'E', 'R', 'C', 'I', 'A', 'L', '_', 'F', 'I', 'S', 'H', 'E', 'R', 'Y', '_', 'E', 'X', 'E', 'M', 'P', 'T', 'I', 'O', 'N'][3] != seq!['C', 'A', '_', 'B', 'C', '_', 'C', 'O', 'M', 'M', 'E', 'R', 'C', 'I', 'A', 'L', '_', 'F', 'I', 'S', 'H', 'E', 'R', 'Y', '_', 'E', 'X', 'E', 'M', 'P', 'T', 'I', 'O', 'N'][3]);
            assert(seq!['C', 'A', '_', 'S', 'K', '_', 'C', 'O', 'M', 'M', 'E', 'R', 'C', 'I', 'A', 'L', '_', 'F', 'I', 'S', 'H', 'E', 'R', 'Y', '_', 'E', 'X', 'E', 'M', 'P', 'T', 'I', 'O', 'N'][3] != seq!['C', 'A', '_', 'M', 'B', '_', 'C', 'O', 'M', 'M', 'E', 'R', 'C', 'I', 'A', 'L', '_', 'F', 'I', 'S', 'H', 'E', 'R', 'Y', '_', 'E', 'X', 'E', 'M', 'P', 'T', 'I', 'O', 'N'][3]);
            assert(seq!['C', 'A', '_', 'S', 'K', '_', 'C', 'O', 'M', 'M', 'E', 'R', 'C', 'I', 'A', 'L', '_', 'F', 'I', 'S', 'H', 'E', 'R', 'Y', '_', 'E', 'X', 'E', 'M', 'P', 'T', 'I', 'O', 'N'][3] != seq!['C', 'A', '_', 'N', 'S', '_', 'C', 'O', 'M', 'M', 'E', 'R', 'C', 'I', 'A', 'L', '_', 'F', 'I', 'S', 'H', 'E', 'R', 'Y', '_', 'E', 'X', 'E', 'M', 'P', 'T', 'I', 'O', 'N'][3]);
            assert(seq!['C', 'A', '_', 'S', 'K', '_', 'C', 'O', 'M', 'M', 'E', 'R', 'C', 'I', 'A', 'L', '_', 'F', 'I', 'S', 'H', 'E', 'R', 'Y', '_', 'E', 'X', 'E', 'M', 'P', 'T', 'I', 'O', 'N'][3] != seq!['C', 'A', '_', 'P', 'E', '_', 'C', 'O', 'M', 'M', 'E', 'R', 'C', 'I', 'A', 'L', '_', 'F', 'I', 'S', 'H', 'E', 'R', 'Y', '_', 'E', 'X', 'E', 'M', 'P', 'T', 'I', 'O', 'N'][3]);
        },
        TaxExemption::CA_SK_CONTRACTOR_EXEMPTION => {
            assert(seq!['C', 'A', '_', 'S', 'K', '_', 'C', 'O', 'N', 'T', 'R', 'A', 'C', 'T', 'O', 'R', '_', 'E', 'X', 'E', 'M', 'P', 'T', 'I', 'O', 'N'][3] != seq!['C', 'A', '_', 'B', 'C', '_', 'C', 'O', 'N', 'T', 'R', 'A', 'C', 'T', 'O', 'R', '_', 'E', 'X', 'E', 'M', 'P', 'T', 'I', 'O', 'N'][3]);
        },
        TaxExemption::CA_SK_FARMER_EXEMPTION => {
            assert(seq!['C', 'A', '_', 'S', 'K', '_', 'F', 'A', 'R', 'M', 'E', 'R', '_', 'E', 'X', 'E', 'M', 'P', 'T', 'I', 'O', 'N'][3] != seq!['C', 'A', '_', 'M', 'B', '_', 'F', 'A', 'R', 'M', 'E', 'R', '_', 'E', 'X', 'E', 'M', 'P', 'T', 'I', 'O', 'N'][3]);
            assert(seq!['C', 'A', '_', 'S', 'K', '_', 'F', 'A', 'R', 'M', 'E', 'R', '_', 'E', 'X', 'E', 'M', 'P', 'T', 'I', 'O', 'N'][3] != seq!['C', 'A', '_', 'N', 'S', '_', 'F', 'A', 'R', 'M', 'E', 'R', '_', 'E', 'X', 'E', 'M', 'P', 'T', 'I', 'O', 'N'][3]);
        },
        TaxExemption::CA_SK_PRODUCTION_AND_MACHINERY_EXEMPTION => {
            assert(seq!['C', 'A', '_', 'S', 'K', '_', 'P', 'R', 'O', 'D', 'U', 'C', 'T', 'I', 'O', 'N', '_', 'A', 'N', 'D', '_', 'M', 'A', 'C', 'H', 'I', 'N', 'E', 'R', 'Y', '_', 'E', 'X', 'E', 'M', 'P', 'T', 'I', 'O', 'N'][3] != seq!['C', 'A', '_', 'B', 'C', '_', 'P', 'R', 'O', 'D', 'U', 'C', 'T', 'I', 'O', 'N', '_', 'A', 'N', 'D', '_', 'M', 'A', 'C', 'H', 'I', 'N', 'E', 'R', 'Y', '_', 'E', 'X', 'E', 'M', 'P', 'T', 'I', 'O', 'N'][3]);
        },
        TaxExemption::CA_SK_RESELLER_EXEMPTION => {
            assert(seq!['C', 'A', '_', 'S', 'K', '_', 'R', 'E', 'S', 'E', 'L', 'L', 'E', 'R', '_', 'E', 'X', 'E', 'M', 'P', 'T', 'I', 'O', 'N'][3] != seq!['C', 'A', '_', 'B', 'C', '_', 'R', 'E', 'S', 'E', 'L', 'L', 'E', 'R', '_', 'E', 'X', 'E', 'M', 'P', 'T', 'I', 'O', 'N'][3]);
            assert(seq!['C', 'A', '_', 'S', 'K', '_', 'R', 'E', 'S', 'E', 'L', 'L', 'E', 'R', '_', 'E', 'X', 'E', 'M', 'P', 'T', 'I', 'O', 'N'][3] != seq!['C', 'A', '_', 'M', 'B', '_', 'R', 'E', 'S', 'E', 'L', 'L', 'E', 'R', '_', 'E', 'X', 'E', 'M', 'P', 'T', 'I', 'O', 'N'][3]);
            assert(seq!['C', 'A', '_', 'S', 'K', '_', 'R', 'E', 'S', 'E', 'L', 'L', 'E', 'R', '_', 'E', 'X', 'E', 'M', 'P', 'T', 'I', 'O', 'N'][3] != seq!['C', 'A', '_', 'O', 'N', '_', 'P', 'U', 'R', 'C', 'H', 'A', 'S', 'E', '_', 'E', 'X', 'E', 'M', 'P', 'T', 'I', 'O', 'N'][3]);
        },
        TaxExemption::CA_SK_SUB_CONTRACTOR_EXEMPTION => {
            assert(seq!['C', 'A', '_', 'S', 'K', '_', 'S', 'U', 'B', '_', 'C', 'O', 'N', 'T', 'R', 'A', 'C', 'T', 'O', 'R', '_', 'E', 'X', 'E', 'M', 'P', 'T', 'I', 'O', 'N'][3] != seq!['C', 'A', '_', 'B', 'C', '_', 'S', 'U', 'B', '_', 'C', 'O', 'N', 'T', 'R', 'A', 'C', 'T', 'O', 'R', '_', 'E', 'X', 'E', 'M', 'P', 'T', 'I', 'O', 'N'][3]);
        },
        TaxExemption::CA_STATUS_CARD_EXEMPTION => {
            assert(seq!['C', 'A', '_', 'S', 'T', 'A', 'T', 'U', 'S', '_', 'C', 'A', 'R', 'D', '_', 'E', 'X', 'E', 'M', 'P', 'T', 'I', 'O', 'N'][3] != seq!['C', 'A', '_', 'B', 'C', '_', 'R', 'E', 'S', 'E', 'L', 'L', 'E', 'R', '_', 'E', 'X', 'E', 'M', 'P', 'T', 'I', 'O', 'N'][3]);
            assert(seq!['C', 'A', '_', 'S', 'T', 'A', 'T', 'U', 'S', '_', 'C', 'A', 'R', 'D', '_', 'E', 'X', 'E', 'M', 'P', 'T', 'I', 'O', 'N'][3] != seq!['C', 'A', '_', 'M', 'B', '_', 'R', 'E', 'S', 'E', 'L', 'L', 'E', 'R', '_', 'E', 'X', 'E', 'M', 'P', 'T', 'I', 'O', 'N'][3]);
            assert(seq!['C', 'A', '_', 'S', 'T', 'A', 'T', 'U', 'S', '_', 'C', 'A', 'R', 'D', '_', 'E', 'X', 'E', 'M', 'P', 'T', 'I', 'O', 'N'][3] != seq!['C', 'A', '_', 'O', 'N', '_', 'P', 'U', 'R', 'C', 'H', 'A', 'S', 'E', '_', 'E', 'X', 'E', 'M', 'P', 'T', 'I', 'O', 'N'][3]);
            assert(seq!['C', 'A', '_', 'S', 'T', 'A', 'T', 'U', 'S', '_', 'C', 'A', 'R', 'D', '_', 'E', 'X', 'E', 'M', 'P', 'T', 'I', 'O', 'N'][4] != seq!['C', 'A', '_', 'S', 'K', '_', 'R', 'E', 'S', 'E', 'L', 'L', 'E', 'R', '_', 'E', 'X', 'E', 'M', 'P', 'T', 'I', 'O', 'N'][4]);
        },
        TaxExemption::EU_REVERSE_CHARGE_EXEMPTION_RULE => {},
        TaxExemption::US_AK_RESELLER_EXEMPTION => {
            assert(seq!['U', 'S', '_', 'A', 'K', '_', 'R', 'E', 'S', 'E', 'L', 'L', 'E', 'R', '_', 'E', 'X', 'E', 'M', 'P', 'T', 'I', 'O', 'N'][0] != seq!['C', 'A', '_', 'B', 'C', '_', 'R', 'E', 'S', 'E', 'L', 'L', 'E', 'R', '_', 'E', 'X', 'E', 'M', 'P', 'T', 'I', 'O', 'N'][0]);
            assert(seq!['U', 'S', '_', 'A', 'K', '_', 'R', 'E', 'S', 'E', 'L', 'L', 'E', 'R', '_', 'E', 'X', 'E', 'M', 'P', 'T', 'I', 'O', 'N'][0] != seq!['C', 'A', '_', 'M', 'B', '_', 'R', 'E', 'S', 'E', 'L', 'L', 'E', 'R', '_', 'E', 'X', 'E', 'M', 'P', 'T', 'I', 'O', 'N'][0]);
            assert(seq!['U', 'S', '_', 'A', 'K', '_', 'R', 'E', 'S', 'E', 'L', 'L', 'E', 'R', '_', 'E', 'X', 'E', 'M', 'P', 'T', 'I', 'O', 'N'][0] != seq!['C', 'A', '_', 'O', 'N', '_', 'P', 'U', 'R', 'C', 'H', 'A', 'S', 'E', '_', 'E', 'X', 'E', 'M', 'P', 'T', 'I', 'O', 'N'][0]);
            assert(seq!['U', 'S', '_', 'A', 'K', '_', 'R', 'E', 'S', 'E', 'L', 'L', 'E', 'R', '_', 'E', 'X', 'E', 'M', 'P', 'T', 'I', 'O', 'N'][0] != seq!['C', 'A', '_', 'S', 'K', '_', 'R', 'E', 'S', 'E', 'L', 'L', 'E', 'R', '_', 'E', 'X', 'E', 'M', 'P', 'T', 'I', 'O', 'N'][0]);
            assert(seq!['U', 'S', '_', 'A', 'K', '_', 'R', 'E', 'S', 'E', 'L', 'L', 'E', 'R', '_', 'E', 'X', 'E', 'M', 'P', 'T', 'I', 'O', 'N'][0] != seq!['C', 'A', '_', 'S', 'T', 'A', 'T', 'U', 'S', '_', 'C', 'A', 'R', 'D', '_', 'E', 'X', 'E', 'M', 'P', 'T', 'I', 'O', 'N'][0]);
        },
        TaxExemption::US_AL_RESELLER_EXEMPTION => {
            assert(seq!['U', 'S', '_', 'A', 'L', '_', 'R', 'E', 'S', 'E', 'L', 'L', 'E', 'R', '_', 'E', 'X', 'E', 'M', 'P', 'T', 'I', 'O', 'N'][0] != seq!['C', 'A', '_', 'B', 'C', '_', 'R', 'E', 'S', 'E', 'L', 'L', 'E', 'R', '_', 'E', 'X', 'E', 'M', 'P', 'T', 'I', 'O', 'N'][0]);
            assert(seq!['U', 'S', '_', 'A', 'L', '_', 'R', 'E', 'S', 'E', 'L', 'L', 'E', 'R', '_', 'E', 'X', 'E', 'M', 'P', 'T', 'I', 'O', 'N'][0] != seq!['C', 'A', '_', 'M', 'B', '_', 'R', 'E', 'S', 'E', 'L', 'L', 'E', 'R', '_', 'E', 'X', 'E', 'M', 'P', 'T', 'I', 'O', 'N'][0]);
            assert(seq!['U', 'S', '_', 'A', 'L', '_', 'R', 'E', 'S', 'E', 'L', 'L', 'E', 'R', '_', 'E', 'X', 'E', 'M', 'P', 'T', 'I', 'O', 'N'][0] != seq!['C', 'A', '_', 'O', 'N', '_', 'P', 'U', 'R', 'C', 'H', 'A', 'S', 'E', '_', 'E', 'X', 'E', 'M', 'P', 'T', 'I', 'O', 'N'][0]);
            assert(seq!['U', 'S', '_', 'A', 'L', '_', 'R', 'E', 'S', 'E', 'L', 'L', 'E', 'R', '_', 'E', 'X', 'E', 'M', 'P', 'T', 'I', 'O', 'N'][0] != seq!['C', 'A', '_', 'S', 'K', '_', 'R', 'E', 'S', 'E', 'L', 'L', 'E', 'R', '_', 'E', 'X', 'E', 'M', 'P', 'T', 'I', 'O', 'N'][0]);
            assert(seq!['U', 'S', '_', 'A', 'L', '_', 'R', 'E', 'S', 'E', 'L', 'L', 'E', 'R', '_', 'E', 'X', 'E', 'M', 'P', 'T', 'I', 'O', 'N'][0] != seq!['C', 'A', '_', 'S', 'T', 'A', 'T', 'U', 'S', '_', 'C', 'A', 'R', 'D', '_', 'E', 'X', 'E', 'M', 'P', 'T', 'I', 'O', 'N'][0]);
            assert(seq!['U', 'S', '_', 'A', 'L', '_', 'R', 'E', 'S', 'E', 'L', 'L', 'E', 'R', '_', 'E', 'X', 'E', 'M', 'P', 'T', 'I', 'O', 'N'][4] != seq!['U', 'S', '_', 'A', 'K', '_', 'R', 'E', 'S', 'E', 'L', 'L', 'E', 'R', '_', 'E', 'X', 'E', 'M', 'P', 'T', 'I', 'O', 'N'][4]);
        },
        TaxExemption::US_AR_RESELLER_EXEMPTION => {
            assert(seq!['U', 'S', '_', 'A', 'R', '_', 'R', 'E', 'S', 'E', 'L', 'L', 'E', 'R', '_', 'E', 'X', 'E', 'M', 'P', 'T', 'I', 'O', 'N'][0] != seq!['C', 'A', '_', 'B', 'C', '_', 'R', 'E', 'S', 'E', 'L', 'L', 'E', 'R', '_', 'E', 'X', 'E', 'M', 'P', 'T', 'I', 'O', 'N'][0]);
            assert(seq!['U', 'S', '_', 'A', 'R', '_', 'R', 'E', 'S', 'E', 'L', 'L', 'E', 'R', '_', 'E', 'X', 'E', 'M', 'P', 'T', 'I', 'O', 'N'][0] != seq!['C', 'A', '_', 'M', 'B', '_', 'R', 'E', 'S', 'E', 'L', 'L', 'E', 'R', '_', 'E', 'X', 'E', 'M', 'P', 'T', 'I', 'O', 'N'][0]);
            assert(seq!['U', 'S', '_', 'A', 'R', '_', 'R', 'E', 'S', 'E', 'L', 'L', 'E', 'R', '_', 'E', 'X', 'E', 'M', 'P', 'T', 'I', 'O', 'N'][0] != seq!['C', 'A', '_', 'O', 'N', '_', 'P', 'U', 'R', 'C', 'H', 'A', 'S', 'E', '_', 'E', 'X', 'E', 'M', 'P', 'T', 'I', 'O', 'N'][0]);
            assert(seq!['U', 'S', '_', 'A', 'R', '_', 'R', 'E', 'S', 'E', 'L', 'L', 'E', 'R', '_', 'E', 'X', 'E', 'M', 'P', 'T', 'I', 'O', 'N'][0] != seq!['C', 'A', '_', 'S', 'K', '_', 'R', 'E', 'S', 'E', 'L', 'L', 'E', 'R', '_', 'E', 'X', 'E', 'M', 'P', 'T', 'I', 'O', 'N'][0]);
            assert(seq!['U', 'S', '_', 'A', 'R', '_', 'R', 'E', 'S', 'E', 'L', 'L', 'E', 'R', '_', 'E', 'X', 'E', 'M', 'P', 'T', 'I', 'O', 'N'][0] != seq!['C', 'A', '_', 'S', 'T', 'A', 'T', 'U', 'S', '_', 'C', 'A', 'R', 'D', '_', 'E', 'X', 'E', 'M', 'P', 'T', 'I', 'O', 'N'][0]);
            assert(seq!['U', 'S', '_', 'A', 'R', '_', 'R', 'E', 'S', 'E', 'L', 'L', 'E', 'R', '_', 'E', 'X', 'E', 'M', 'P', 'T', 'I', 'O', 'N'][4] != seq!['U', 'S', '_', 'A', 'K', '_', 'R', 'E', 'S', 'E', 'L', 'L', 'E', 'R', '_', 'E', 'X', 'E', 'M', 'P', 'T', 'I', 'O', 'N'][4]);
            assert(seq!['U', 'S', '_', 'A', 'R', '_', 'R', 'E', 'S', 'E', 'L', 'L', 'E', 'R', '_', 'E', 'X', 'E', 'M', 'P', 'T', 'I', 'O', 'N'][4] != seq!['U', 'S', '_', 'A', 'L', '_', 'R', 'E', 'S', 'E', 'L', 'L', 'E', 'R', '_', 'E', 'X', 'E', 'M', 'P', 'T', 'I', 'O', 'N'][4]);
        },
        TaxExemption::US_AZ_RESELLER_EXEMPTION => {
            assert(seq!['U', 'S', '_', 'A', 'Z', '_', 'R', 'E', 'S', 'E', 'L', 'L', 'E', 'R', '_', 'E', 'X', 'E', 'M', 'P', 'T', 'I', 'O', 'N'][0] != seq!['C', 'A', '_', 'B', 'C', '_', 'R', 'E', 'S', 'E', 'L', 'L', 'E', 'R', '_', 'E', 'X', 'E', 'M', 'P', 'T', 'I', 'O', 'N'][0]);
            assert(seq!['U', 'S', '_', 'A', 'Z', '_', 'R', 'E', 'S', 'E', 'L', 'L', 'E', 'R', '_', 'E', 'X', 'E', 'M', 'P', 'T', 'I', 'O', 'N'][0] != seq!['C', 'A', '_', 'M', 'B', '_', 'R', 'E', 'S', 'E', 'L', 'L', 'E', 'R', '_', 'E', 'X', 'E', 'M', 'P', 'T', 'I', 'O', 'N'][0]);
            assert(seq!['U', 'S', '_', 'A', 'Z', '_', 'R', 'E', 'S', 'E', 'L', 'L', 'E', 'R', '_', 'E', 'X', 'E', 'M', 'P', 'T', 'I', 'O', 'N'][0] != seq!['C', 'A', '_', 'O', 'N', '_', 'P', 'U', 'R', 'C', 'H', 'A', 'S', 'E', '_', 'E', 'X', 'E', 'M', 'P', 'T', 'I', 'O', 'N'][0]);
            assert(seq!['U', 'S', '_', 'A', 'Z', '_', 'R', 'E', 'S', 'E', 'L', 'L', 'E', 'R', '_', 'E', 'X', 'E', 'M', 'P', 'T', 'I', 'O', 'N'][0] != seq!['C', 'A', '_', 'S', 'K', '_', 'R', 'E', 'S', 'E', 'L', 'L', 'E', 'R', '_', 'E', 'X', 'E', 'M', 'P', 'T', 'I', 'O', 'N'][0]);
            assert(seq!['U', 'S', '_', 'A', 'Z', '_', 'R', 'E', 'S', 'E', 'L', 'L', 'E', 'R', '_', 'E', 'X', 'E', 'M', 'P', 'T', 'I', 'O', 'N'][0] != seq!['C', 'A', '_', 'S', 'T', 'A', 'T', 'U', 'S', '_', 'C', 'A', 'R', 'D', '_', 'E', 'X', 'E', 'M', 'P', 'T', 'I', 'O', 'N'][0]);
            assert(seq!['U', 'S', '_', 'A', 'Z', '_', 'R', 'E', 'S', 'E', 'L', 'L', 'E', 'R', '_', 'E', 'X', 'E', 'M', 'P', 'T', 'I', 'O', 'N'][4] != seq!['U', 'S', '_', 'A', 'K', '_', 'R', 'E', 'S', 'E', 'L', 'L', 'E', 'R', '_', 'E', 'X', 'E', 'M', 'P', 'T', 'I', 'O', 'N'][4]);
            assert(seq!['U', 'S', '_', 'A', 'Z', '_', 'R', 'E', 'S', 'E', 'L', 'L', 'E', 'R', '_', 'E', 'X', 'E', 'M', 'P', 'T', 'I', 'O', 'N'][4] != seq!['U', 'S', '_', 'A', 'L', '_', 'R', 'E', 'S', 'E', 'L', 'L', 'E', 'R', '_', 'E', 'X', 'E', 'M', 'P', 'T', 'I', 'O', 'N'][4]);
            assert(seq!['U', 'S', '_', 'A', 'Z', '_', 'R', 'E', 'S', 'E', 'L', 'L', 'E', 'R', '_', 'E', 'X', 'E', 'M', 'P', 'T', 'I', 'O', 'N'][4] != seq!['U', 'S', '_', 'A', 'R', '_', 'R', 'E', 'S', 'E', 'L', 'L', 'E', 'R', '_', 'E', 'X', 'E', 'M', 'P', 'T', 'I', 'O', 'N'][4]);
        },
        TaxExemption::US_CA_RESELLER_EXEMPTION => {
            assert(seq!['U', 'S', '_', 'C', 'A', '_', 'R', 'E', 'S', 'E', 'L', 'L', 'E', 'R', '_', 'E', 'X', 'E', 'M', 'P', 'T', 'I', 'O', 'N'][0] != seq!['C', 'A', '_', 'B', 'C', '_', 'R', 'E', 'S', 'E', 'L', 'L', 'E', 'R', '_', 'E', 'X', 'E', 'M', 'P', 'T', 'I', 'O', 'N'][0]);
            assert(seq!['U', 'S', '_', 'C', 'A', '_', 'R', 'E', 'S', 'E', 'L', 'L', 'E', 'R', '_', 'E', 'X', 'E', 'M', 'P', 'T', 'I', 'O', 'N'][0] != seq!['C', 'A', '_', 'M', 'B', '_', 'R', 'E', 'S', 'E', 'L', 'L', 'E', 'R', '_', 'E', 'X', 'E', 'M', 'P', 'T', 'I', 'O', 'N'][0]);
            assert(seq!['U', 'S', '_', 'C', 'A', '_', 'R', 'E', 'S', 'E', 'L', 'L', 'E', 'R', '_', 'E', 'X', 'E', 'M', 'P', 'T', 'I', 'O', 'N'][0] != seq!['C', 'A', '_', 'O', 'N', '_', 'P', 'U', 'R', 'C', 'H', 'A', 'S', 'E', '_', 'E', 'X', 'E', 'M', 'P', 'T', 'I', 'O', 'N'][0]);
            assert(seq!['U', 'S', '_', 'C', 'A', '_', 'R', 'E', 'S', 'E', 'L', 'L', 'E', 'R', '_', 'E', 'X', 'E', 'M', 'P', 'T', 'I', 'O', 'N'][0] != seq!['C', 'A', '_', 'S', 'K', '_', 'R', 'E', 'S', 'E', 'L', 'L', 'E', 'R', '_', 'E', 'X', 'E', 'M', 'P', 'T', 'I', 'O', 'N'][0]);
            assert(seq!['U', 'S', '_', 'C', 'A', '_', 'R', 'E', 'S', 'E', 'L', 'L', 'E', 'R', '_', 'E', 'X', 'E', 'M', 'P', 'T', 'I', 'O', 'N'][0] != seq!['C', 'A', '_', 'S', 'T', 'A', 'T', 'U', 'S', '_', 'C', 'A', 'R', 'D', '_', 'E', 'X', 'E', 'M', 'P', 'T', 'I', 'O', 'N'][0]);
            assert(seq!['U', 'S', '_', 'C', 'A', '_', 'R', 'E', 'S', 'E', 'L', 'L', 'E', 'R', '_', 'E', 'X', 'E', 'M', 'P', 'T', 'I', 'O', 'N'][3] != seq!['U', 'S', '_', 'A', 'K', '_', 'R', 'E', 'S', 'E', 'L', 'L', 'E', 'R', '_', 'E', 'X', 'E', 'M', 'P', 'T', 'I', 'O', 'N'][3]);
            assert(seq!['U', 'S', '_', 'C', 'A', '_', 'R', 'E', 'S', 'E', 'L', 'L', 'E', 'R', '_', 'E', 'X', 'E', 'M', 'P', 'T', 'I', 'O', 'N'][3] != seq!['U', 'S', '_', 'A', 'L', '_', 'R', 'E', 'S', 'E', 'L', 'L', 'E', 'R', '_', 'E', 'X', 'E', 'M', 'P', 'T', 'I', 'O', 'N'][3]);
            assert(seq!['U', 'S', '_', 'C', 'A', '_', 'R', 'E', 'S', 'E', 'L', 'L', 'E', 'R', '_', 'E', 'X', 'E', 'M', 'P', 'T', 'I', 'O', 'N'][3] != seq!['U', 'S', '_', 'A', 'R', '_', 'R', 'E', 'S', 'E', 'L', 'L', 'E', 'R', '_', 'E', 'X', 'E', 'M', 'P', 'T', 'I', 'O', 'N'][3]);
            assert(seq!['U', 'S', '_', 'C', 'A', '_', 'R', 'E', 'S', 'E', 'L', 'L', 'E', 'R', '_', 'E', 'X', 'E', 'M', 'P', 'T', 'I', 'O', 'N'][3] != seq!['U', 'S', '_', 'A', 'Z', '_', 'R', 'E', 'S', 'E', 'L', 'L', 'E', 'R', '_', 'E', 'X', 'E', 'M', 'P', 'T', 'I', 'O', 'N'][3]);
        },
        TaxExemption::US_CO_RESELLER_EXEMPTION => {
            assert(seq!['U', 'S', '_', 'C', 'O', '_', 'R', 'E', 'S', 'E', 'L', 'L', 'E', 'R', '_', 'E', 'X', 'E', 'M', 'P', 'T', 'I', 'O', 'N'][0] != seq!['C', 'A', '_', 'B', 'C', '_', 'R', 'E', 'S', 'E', 'L', 'L', 'E', 'R', '_', 'E', 'X', 'E', 'M', 'P', 'T', 'I', 'O', 'N'][0]);
            assert(seq!['U', 'S', '_', 'C', 'O', '_', 'R', 'E', 'S', 'E', 'L', 'L', 'E', 'R', '_', 'E', 'X', 'E', 'M', 'P', 'T', 'I', 'O', 'N'][0] != seq!['C', 'A', '_', 'M', 'B', '_', 'R', 'E', 'S', 'E', 'L', 'L', 'E', 'R', '_', 'E', 'X', 'E', 'M', 'P', 'T', 'I', 'O', 'N'][0]);
            assert(seq!['U', 'S', '_', 'C', 'O', '_', 'R', 'E', 'S', 'E', 'L', 'L', 'E', 'R', '_', 'E', 'X', 'E', 'M', 'P', 'T', 'I', 'O', 'N'][0] != seq!['C', 'A', '_', 'O', 'N', '_', 'P', 'U', 'R', 'C', 'H', 'A', 'S', 'E', '_', 'E', 'X', 'E', 'M', 'P', 'T', 'I', 'O', 'N'][0]);
            assert(seq!['U', 'S', '_', 'C', 'O', '_', 'R', 'E', 'S', 'E', 'L', 'L', 'E', 'R', '_', 'E', 'X', 'E', 'M', 'P', 'T', 'I', 'O', 'N'][0] != seq!['C', 'A', '_', 'S', 'K', '_', 'R', 'E', 'S', 'E', 'L', 'L', 'E', 'R', '_', 'E', 'X', 'E', 'M', 'P', 'T', 'I', 'O', 'N'][0]);
            assert(seq!['U', 'S', '_', 'C', 'O', '_', 'R', 'E', 'S', 'E', 'L', 'L', 'E', 'R', '_', 'E', 'X', 'E', 'M', 'P', 'T', 'I', 'O', 'N'][0] != seq!['C', 'A', '_', 'S', 'T', 'A', 'T', 'U', 'S', '_', 'C', 'A', 'R', 'D', '_', 'E', 'X', 'E', 'M', 'P', 'T', 'I', 'O', 'N'][0]);
            assert(seq!['U', 'S', '_', 'C', 'O', '_', 'R', 'E', 'S', 'E', 'L', 'L', 'E', 'R', '_', 'E', 'X', 'E', 'M', 'P', 'T', 'I', 'O', 'N'][3] != seq!['U', 'S', '_', 'A', 'K', '_', 'R', 'E', 'S', 'E', 'L', 'L', 'E', 'R', '_', 'E', 'X', 'E', 'M', 'P', 'T', 'I', 'O', 'N'][3]);
            assert(seq!['U', 'S', '_', 'C', 'O', '_', 'R', 'E', 'S', 'E', 'L', 'L', 'E', 'R', '_', 'E', 'X', 'E', 'M', 'P', 'T', 'I', 'O', 'N'][3] != seq!['U', 'S', '_', 'A', 'L', '_', 'R', 'E', 'S', 'E', 'L', 'L', 'E', 'R', '_', 'E', 'X', 'E', 'M', 'P', 'T', 'I', 'O', 'N'][3]);
            assert(seq!['U', 'S', '_', 'C', 'O', '_', 'R', 'E', 'S', 'E', 'L', 'L', 'E', 'R', '_', 'E', 'X', 'E', 'M', 'P', 'T', 'I', 'O', 'N'][3] != seq!['U', 'S', '_', 'A', 'R', '_', 'R', 'E', 'S', 'E', 'L', 'L', 'E', 'R', '_', 'E', 'X', 'E', 'M', 'P', 'T', 'I', 'O', 'N'][3]);
            assert(seq!['U', 'S', '_', 'C', 'O', '_', 'R', 'E', 'S', 'E', 'L', 'L', 'E', 'R', '_', 'E', 'X', 'E', 'M', 'P', 'T', 'I', 'O', 'N'][3] != seq!['U', 'S', '_', 'A', 'Z', '_', 'R', 'E', 'S', 'E', 'L', 'L', 'E', 'R', '_', 'E', 'X', 'E', 'M', 'P', 'T', 'I', 'O', 'N'][3]);
            assert(seq!['U', 'S', '_', 'C', 'O', '_', 'R', 'E', 'S', 'E', 'L', 'L', 'E', 'R', '_', 'E', 'X', 'E', 'M', 'P', 'T', 'I', 'O', 'N'][4] != seq!['U', 'S', '_', 'C', 'A', '_', 'R', 'E', 'S', 'E', 'L', 'L', 'E', 'R', '_', 'E', 'X', 'E', 'M', 'P', 'T', 'I', 'O', 'N'][4]);
        },
        TaxExemption::US_CT_RESELLER_EXEMPTION => {
            assert(seq!['U', 'S', '_', 'C', 'T', '_', 'R', 'E', 'S', 'E', 'L', 'L', 'E', 'R', '_', 'E', 'X', 'E', 'M', 'P', 'T', 'I', 'O', 'N'][0] != seq!['C', 'A', '_', 'B', 'C', '_', 'R', 'E', 'S', 'E', 'L', 'L', 'E', 'R', '_', 'E', 'X', 'E', 'M', 'P', 'T', 'I', 'O', 'N'][0]);
            assert(seq!['U', 'S', '_', 'C', 'T', '_', 'R', 'E', 'S', 'E', 'L', 'L', 'E', 'R', '_', 'E', 'X', 'E', 'M', 'P', 'T', 'I', 'O', 'N'][0] != seq!['C', 'A', '_', 'M', 'B', '_', 'R', 'E', 'S', 'E', 'L', 'L', 'E', 'R', '_', 'E', 'X', 'E', 'M', 'P', 'T', 'I', 'O', 'N'][0]);
            assert(seq!['U', 'S', '_', 'C', 'T', '_', 'R', 'E', 'S', 'E', 'L', 'L', 'E', 'R', '_', 'E', 'X', 'E', 'M', 'P', 'T', 'I', 'O', 'N'][0] != seq!['C', 'A', '_', 'O', 'N', '_', 'P', 'U', 'R', 'C', 'H', 'A', 'S', 'E', '_', 'E', 'X', 'E', 'M', 'P', 'T', 'I', 'O', 'N'][0]);
            assert(seq!['U', 'S', '_', 'C', 'T', '_', 'R', 'E', 'S', 'E', 'L', 'L', 'E', 'R', '_', 'E', 'X', 'E', 'M', 'P', 'T', 'I', 'O', 'N'][0] != seq!['C', 'A', '_', 'S', 'K', '_', 'R', 'E', 'S', 'E', 'L', 'L', 'E', 'R', '_', 'E', 'X', 'E', 'M', 'P', 'T', 'I', 'O', 'N'][0]);
            assert(seq!['U', 'S', '_', 'C', 'T', '_', 'R', 'E', 'S', 'E', 'L', 'L', 'E', 'R', '_', 'E', 'X', 'E', 'M', 'P', 'T', 'I', 'O', 'N'][0] != seq!['C', 'A', '_', 'S', 'T', 'A', 'T', 'U', 'S', '_', 'C', 'A', 'R', 'D', '_', 'E', 'X', 'E', 'M', 'P', 'T', 'I', 'O', 'N'][0]);
            assert(seq!['U', 'S', '_', 'C', 'T', '_', 'R', 'E', 'S', 'E', 'L', 'L', 'E', 'R', '_', 'E', 'X', 'E', 'M', 'P', 'T', 'I', 'O', 'N'][3] != seq!['U', 'S', '_', 'A', 'K', '_', 'R', 'E', 'S', 'E', 'L', 'L', 'E', 'R', '_', 'E', 'X', 'E', 'M', 'P', 'T', 'I', 'O', 'N'][3]);
            assert(seq!['U', 'S', '_', 'C', 'T', '_', 'R', 'E', 'S', 'E', 'L', 'L', 'E', 'R', '_', 'E', 'X', 'E', 'M', 'P', 'T', 'I', 'O', 'N'][3] != seq!['U', 'S', '_', 'A', 'L', '_', 'R', 'E', 'S', 'E', 'L', 'L', 'E', 'R', '_', 'E', 'X', 'E', 'M', 'P', 'T', 'I', 'O', 'N'][3]);
            assert(seq!['U', 'S', '_', 'C', 'T', '_', 'R', 'E', 'S', 'E', 'L', 'L', 'E', 'R', '_', 'E', 'X', 'E', 'M', 'P', 'T', 'I', 'O', 'N'][3] != seq!['U', 'S', '_', 'A', 'R', '_', 'R', 'E', 'S', 'E', 'L', 'L', 'E', 'R', '_', 'E', 'X', 'E', 'M', 'P', 'T', 'I', 'O', 'N'][3]);
            assert(seq!['U', 'S', '_', 'C', 'T', '_', 'R', 'E', 'S', 'E', 'L', 'L', 'E', 'R', '_', 'E', 'X', 'E', 'M', 'P', 'T', 'I', 'O', 'N'][3] != seq!['U', 'S', '_', 'A', 'Z', '_', 'R', 'E', 'S', 'E', 'L', 'L', 'E', 'R', '_', 'E', 'X', 'E', 'M', 'P', 'T', 'I', 'O', 'N'][3]);
            assert(seq!['U', 'S', '_', 'C', 'T', '_', 'R', 'E', 'S', 'E', 'L', 'L', 'E', 'R', '_', 'E', 'X', 'E', 'M', 'P', 'T', 'I', 'O', 'N'][4] != seq!['U', 'S', '_', 'C', 'A', '_', 'R', 'E', 'S', 'E', 'L', 'L', 'E', 'R', '_', 'E', 'X', 'E', 'M', 'P', 'T', 'I', 'O', 'N'][4]);
            assert(seq!['U', 'S', '_', 'C', 'T', '_', 'R', 'E', 'S', 'E', 'L', 'L', 'E', 'R', '_', 'E', 'X', 'E', 'M', 'P', 'T', 'I', 'O', 'N'][4] != seq!['U', 'S', '_', 'C', 'O', '_', 'R', 'E', 'S', 'E', 'L', 'L', 'E', 'R', '_', 'E', 'X', 'E', 'M', 'P', 'T', 'I', 'O', 'N'][4]);
        },
        TaxExemption::US_DC_RESELLER_EXEMPTION => {
            assert(seq!['U', 'S', '_', 'D', 'C', '_', 'R', 'E', 'S', 'E', 'L', 'L', 'E', 'R', '_', 'E', 'X', 'E', 'M', 'P', 'T', 'I', 'O', 'N'][0] != seq!['C', 'A', '_', 'B', 'C', '_', 'R', 'E', 'S', 'E', 'L', 'L', 'E', 'R', '_', 'E', 'X', 'E', 'M', 'P', 'T', 'I', 'O', 'N'][0]);
            assert(seq!['U', 'S', '_', 'D', 'C', '_', 'R', 'E', 'S', 'E', 'L', 'L', 'E', 'R', '_', 'E', 'X', 'E', 'M', 'P', 'T', 'I', 'O', 'N'][0] != seq!['C', 'A', '_', 'M', 'B', '_', 'R', 'E', 'S', 'E', 'L', 'L', 'E', 'R', '_', 'E', 'X', 'E', 'M', 'P', 'T', 'I', 'O', 'N'][0]);
            assert(seq!['U', 'S', '_', 'D', 'C', '_', 'R', 'E', 'S', 'E', 'L', 'L', 'E', 'R', '_', 'E', 'X', 'E', 'M', 'P', 'T', 'I', 'O', 'N'][0] != seq!['C', 'A', '_', 'O', 'N', '_', 'P', 'U', 'R', 'C', 'H', 'A', 'S', 'E', '_', 'E', 'X', 'E', 'M', 'P', 'T', 'I', 'O', 'N'][0]);
            assert(seq!['U', 'S', '_', 'D', 'C', '_', 'R', 'E', 'S', 'E', 'L', 'L', 'E', 'R', '_', 'E', 'X', 'E', 'M', 'P', 'T', 'I', 'O', 'N'][0] != seq!['C', 'A', '_', 'S', 'K', '_', 'R', 'E', 'S', 'E', 'L', 'L', 'E', 'R', '_', 'E', 'X', 'E', 'M', 'P', 'T', 'I', 'O', 'N'][0]);
            assert(seq!['U', 'S', '_', 'D', 'C', '_', 'R', 'E', 'S', 'E', 'L', 'L', 'E', 'R', '_', 'E', 'X', 'E', 'M', 'P', 'T', 'I', 'O', 'N'][0] != seq!['C', 'A', '_', 'S', 'T', 'A', 'T', 'U', 'S', '_', 'C', 'A', 'R', 'D', '_', 'E', 'X', 'E', 'M', 'P', 'T', 'I', 'O', 'N'][0]);
            assert(seq!['U', 'S', '_', 'D', 'C', '_', 'R', 'E', 'S', 'E', 'L', 'L', 'E', 'R', '_', 'E', 'X', 'E', 'M', 'P', 'T', 'I', 'O', 'N'][3] != seq!['U', 'S', '_', 'A', 'K', '_', 'R', 'E', 'S', 'E', 'L', 'L', 'E', 'R', '_', 'E', 'X', 'E', 'M', 'P', 'T', 'I', 'O', 'N'][3]);
            assert(seq!['U', 'S', '_', 'D', 'C', '_', 'R', 'E', 'S', 'E', 'L', 'L', 'E', 'R', '_', 'E', 'X', 'E', 'M', 'P', 'T', 'I', 'O', 'N'][3] != seq!['U', 'S', '_', 'A', 'L', '_', 'R', 'E', 'S', 'E', 'L', 'L', 'E', 'R', '_', 'E', 'X', 'E', 'M', 'P', 'T', 'I', 'O', 'N'][3]);
            assert(seq!['U', 'S', '_', 'D', 'C', '_', 'R', 'E', 'S', 'E', 'L', 'L', 'E', 'R', '_', 'E', 'X', 'E', 'M', 'P', 'T', 'I', 'O', 'N'][3] != seq!['U', 'S', '_', 'A', 'R', '_', 'R', 'E', 'S', 'E', 'L', 'L', 'E', 'R', '_', 'E', 'X', 'E', 'M', 'P', 'T', 'I', 'O', 'N'][3]);
            assert(seq!['U', 'S', '_', 'D', 'C', '_', 'R', 'E', 'S', 'E', 'L', 'L', 'E', 'R', '_', 'E', 'X', 'E', 'M', 'P', 'T', 'I', 'O', 'N'][3] != seq!['U', 'S', '_', 'A', 'Z', '_', 'R', 'E', 'S', 'E', 'L', 'L', 'E', 'R', '_', 'E', 'X', 'E', 'M', 'P', 'T', 'I', 'O', 'N'][3]);
            assert(seq!['U', 'S', '_', 'D', 'C', '_', 'R', 'E', 'S', 'E', 'L', 'L', 'E', 'R', '_', 'E', 'X', 'E', 'M', 'P', 'T', 'I', 'O', 'N'][3] != seq!['U', 'S', '_', 'C', 'A', '_', 'R', 'E', 'S', 'E', 'L', 'L', 'E', 'R', '_', 'E', 'X', 'E', 'M', 'P', 'T', 'I', 'O', 'N'][3]);
            assert(seq!['U', 'S', '_', 'D', 'C', '_', 'R', 'E', 'S', 'E', 'L', 'L', 'E', 'R', '_', 'E', 'X', 'E', 'M', 'P', 'T', 'I', 'O', 'N'][3] != seq!['U', 'S', '_', 'C', 'O', '_', 'R', 'E', 'S', 'E', 'L', 'L', 'E', 'R', '_', 'E', 'X', 'E', 'M', 'P', 'T', 'I', 'O', 'N'][3]);
            assert(seq!['U', 'S', '_', 'D', 'C', '_', 'R', 'E', 'S', 'E', 'L', 'L', 'E', 'R', '_', 'E', 'X', 'E', 'M', 'P', 'T', 'I', 'O', 'N'][3] != seq!['U', 'S', '_', 'C', 'T', '_', 'R', 'E', 'S', 'E', 'L', 'L', 'E', 'R', '_', 'E', 'X', 'E', 'M', 'P', 'T', 'I', 'O', 'N'][3]);
        },
        TaxExemption::US_DE_RESELLER_EXEMPTION => {
            assert(seq!['U', 'S', '_', 'D', 'E', '_', 'R', 'E', 'S', 'E', 'L', 'L', 'E', 'R', '_', 'E', 'X', 'E', 'M', 'P', 'T', 'I', 'O', 'N'][0] != seq!['C', 'A', '_', 'B', 'C', '_', 'R', 'E', 'S', 'E', 'L', 'L', 'E', 'R', '_', 'E', 'X', 'E', 'M', 'P', 'T', 'I', 'O', 'N'][0]);
            assert(seq!['U', 'S', '_', 'D', 'E', '_', 'R', 'E', 'S', 'E', 'L', 'L', 'E', 'R', '_', 'E', 'X', 'E', 'M', 'P', 'T', 'I', 'O', 'N'][0] != seq!['C', 'A', '_', 'M', 'B', '_', 'R', 'E', 'S', 'E', 'L', 'L', 'E', 'R', '_', 'E', 'X', 'E', 'M', 'P', 'T', 'I', 'O', 'N'][0]);
            assert(seq!['U', 'S', '_', 'D', 'E', '_', 'R', 'E', 'S', 'E', 'L', 'L', 'E', 'R', '_', 'E', 'X', 'E', 'M', 'P', 'T', 'I', 'O', 'N'][0] != seq!['C', 'A', '_', 'O', 'N', '_', 'P', 'U', 'R', 'C', 'H', 'A', 'S', 'E', '_', 'E', 'X', 'E', 'M', 'P', 'T', 'I', 'O', 'N'][0]);
            assert(seq!['U', 'S', '_', 'D', 'E', '_', 'R', 'E', 'S', 'E', 'L', 'L', 'E', 'R', '_', 'E', 'X', 'E', 'M', 'P', 'T', 'I', 'O', 'N'][0] != seq!['C', 'A', '_', 'S', 'K', '_', 'R', 'E', 'S', 'E', 'L', 'L', 'E', 'R', '_', 'E', 'X', 'E', 'M', 'P', 'T', 'I', 'O', 'N'][0]);
            assert(seq!['U', 'S', '_', 'D', 'E', '_', 'R', 'E', 'S', 'E', 'L', 'L', 'E', 'R', '_', 'E', 'X', 'E', 'M', 'P', 'T', 'I', 'O', 'N'][0] != seq!['C', 'A', '_', 'S', 'T', 'A', 'T', 'U', 'S', '_', 'C', 'A', 'R', 'D', '_', 'E', 'X', 'E', 'M', 'P', 'T', 'I', 'O', 'N'][0]);
            assert(seq!['U', 'S', '_', 'D', 'E', '_', 'R', 'E', 'S', 'E', 'L', 'L', 'E', 'R', '_', 'E', 'X', 'E', 'M', 'P', 'T', 'I', 'O', 'N'][3] != seq!['U', 'S', '_', 'A', 'K', '_', 'R', 'E', 'S', 'E', 'L', 'L', 'E', 'R', '_', 'E', 'X', 'E', 'M', 'P', 'T', 'I', 'O', 'N'][3]);
            assert(seq!['U', 'S', '_', 'D', 'E', '_', 'R', 'E', 'S', 'E', 'L', 'L', 'E', 'R', '_', 'E', 'X', 'E', 'M', 'P', 'T', 'I', 'O', 'N'][3] != seq!['U', 'S', '_', 'A', 'L', '_', 'R', 'E', 'S', 'E', 'L', 'L', 'E', 'R', '_', 'E', 'X', 'E', 'M', 'P', 'T', 'I', 'O', 'N'][3]);
            assert(seq!['U', 'S', '_', 'D', 'E', '_', 'R', 'E', 'S', 'E', 'L', 'L', 'E', 'R', '_', 'E', 'X', 'E', 'M', 'P', 'T', 'I', 'O', 'N'][3] != seq!['U', 'S', '_', 'A', 'R', '_', 'R', 'E', 'S', 'E', 'L', 'L', 'E', 'R', '_', 'E', 'X', 'E', 'M', 'P', 'T', 'I', 'O', 'N'][3]);
            assert(seq!['U', 'S', '_', 'D', 'E', '_', 'R', 'E', 'S', 'E', 'L', 'L', 'E', 'R', '_', 'E', 'X', 'E', 'M', 'P', 'T', 'I', 'O', 'N'][3] != seq!['U', 'S', '_', 'A', 'Z', '_', 'R', 'E', 'S', 'E', 'L', 'L', 'E', 'R', '_', 'E', 'X', 'E', 'M', 'P', 'T', 'I', 'O', 'N'][3]);
            assert(seq!['U', 'S', '_', 'D', 'E', '_', 'R', 'E', 'S', 'E', 'L', 'L', 'E', 'R', '_', 'E', 'X', 'E', 'M', 'P', 'T', 'I', 'O', 'N'][3] != seq!['U', 'S', '_', 'C', 'A', '_', 'R', 'E', 'S', 'E', 'L', 'L', 'E', 'R', '_', 'E', 'X', 'E', 'M', 'P', 'T', 'I', 'O', 'N'][3]);
            assert(seq!['U', 'S', '_', 'D', 'E', '_', 'R', 'E', 'S', 'E', 'L', 'L', 'E', 'R', '_', 'E', 'X', 'E', 'M', 'P', 'T', 'I', 'O', 'N'][3] != seq!['U', 'S', '_', 'C', 'O', '_', 'R', 'E', 'S', 'E', 'L', 'L', 'E', 'R', '_', 'E', 'X', 'E', 'M', 'P', 'T', 'I', 'O', 'N'][3]);
            assert(seq!['U', 'S', '_', 'D', 'E', '_', 'R', 'E', 'S', 'E', 'L', 'L', 'E', 'R', '_', 'E', 'X', 'E', 'M', 'P', 'T', 'I', 'O', 'N'][3] != seq!['U', 'S', '_', 'C', 'T', '_', 'R', 'E', 'S', 'E', 'L', 'L', 'E', 'R', '_', 'E', 'X', 'E', 'M', 'P', 'T', 'I', 'O', 'N'][3]);
            assert(seq!['U', 'S', '_', 'D', 'E', '_', 'R', 'E', 'S', 'E', 'L', 'L', 'E', 'R', '_', 'E', 'X', 'E', 'M', 'P', 'T', 'I', 'O', 'N'][4] != seq!['U', 'S', '_', 'D', 'C', '_', 'R', 'E', 'S', 'E', 'L', 'L', 'E', 'R', '_', 'E', 'X', 'E', 'M', 'P', 'T', 'I', 'O', 'N'][4]);
        },
        TaxExemption::US_FL_RESELLER_EXEMPTION => {
            assert(seq!['U', 'S', '_', 'F', 'L', '_', 'R', 'E', 'S', 'E', 'L', 'L', 'E', 'R', '_', 'E', 'X', 'E', 'M', 'P', 'T', 'I', 'O', 'N'][0] != seq!['C', 'A', '_', 'B', 'C', '_', 'R', 'E', 'S', 'E', 'L', 'L', 'E', 'R', '_', 'E', 'X', 'E', 'M', 'P', 'T', 'I', 'O', 'N'][0]);
            assert(seq!['U', 'S', '_', 'F', 'L', '_', 'R', 'E', 'S', 'E', 'L', 'L', 'E', 'R', '_', 'E', 'X', 'E', 'M', 'P', 'T', 'I', 'O', 'N'][0] != seq!['C', 'A', '_', 'M', 'B', '_', 'R', 'E', 'S', 'E', 'L', 'L', 'E', 'R', '_', 'E', 'X', 'E', 'M', 'P', 'T', 'I', 'O', 'N'][0]);
            assert(seq!['U', 'S', '_', 'F', 'L', '_', 'R', 'E', 'S', 'E', 'L', 'L', 'E', 'R', '_', 'E', 'X', 'E', 'M', 'P', 'T', 'I', 'O', 'N'][0] != seq!['C', 'A', '_', 'O', 'N', '_', 'P', 'U', 'R', 'C', 'H', 'A', 'S', 'E', '_', 'E', 'X', 'E', 'M', 'P', 'T', 'I', 'O', 'N'][0]);
            assert(seq!['U', 'S', '_', 'F', 'L', '_', 'R', 'E', 'S', 'E', 'L', 'L', 'E', 'R', '_', 'E', 'X', 'E', 'M', 'P', 'T', 'I', 'O', 'N'][0] != seq!['C', 'A', '_', 'S', 'K', '_', 'R', 'E', 'S', 'E', 'L', 'L', 'E', 'R', '_', 'E', 'X', 'E', 'M', 'P', 'T', 'I', 'O', 'N'][0]);
            assert(seq!['U', 'S', '_', 'F', 'L', '_', 'R', 'E', 'S', 'E', 'L', 'L', 'E', 'R', '_', 'E', 'X', 'E', 'M', 'P', 'T', 'I', 'O', 'N'][0] != seq!['C', 'A', '_', 'S', 'T', 'A', 'T', 'U', 'S', '_', 'C', 'A', 'R', 'D', '_', 'E', 'X', 'E', 'M', 'P', 'T', 'I', 'O', 'N'][0]);
            assert(seq!['U', 'S', '_', 'F', 'L', '_', 'R', 'E', 'S', 'E', 'L', 'L', 'E', 'R', '_', 'E', 'X', 'E', 'M', 'P', 'T', 'I', 'O', 'N'][3] != seq!['U', 'S', '_', 'A', 'K', '_', 'R', 'E', 'S', 'E', 'L', 'L', 'E', 'R', '_', 'E', 'X', 'E', 'M', 'P', 'T', 'I', 'O', 'N'][3]);
            assert(seq!['U', 'S', '_', 'F', 'L', '_', 'R', 'E', 'S', 'E', 'L', 'L', 'E', 'R', '_', 'E', 'X', 'E', 'M', 'P', 'T', 'I', 'O', 'N'][3] != seq!['U', 'S', '_', 'A', 'L', '_', 'R', 'E', 'S', 'E', 'L', 'L', 'E', 'R', '_', 'E', 'X', 'E', 'M', 'P', 'T', 'I', 'O', 'N'][3]);
            assert(seq!['U', 'S', '_', 'F', 'L', '_', 'R', 'E', 'S', 'E', 'L', 'L', 'E', 'R', '_', 'E', 'X', 'E', 'M', 'P', 'T', 'I', 'O', 'N'][3] != seq!['U', 'S', '_', 'A', 'R', '_', 'R', 'E', 'S', 'E', 'L', 'L', 'E', 'R', '_', 'E', 'X', 'E', 'M', 'P', 'T', 'I', 'O', 'N'][3]);
            assert(seq!['U', 'S', '_', 'F', 'L', '_', 'R', 'E', 'S', 'E', 'L', 'L', 'E', 'R', '_', 'E', 'X', 'E', 'M', 'P', 'T', 'I', 'O', 'N'][3] != seq!['U', 'S', '_', 'A', 'Z', '_', 'R', 'E', 'S', 'E', 'L', 'L', 'E', 'R', '_', 'E', 'X', 'E', 'M', 'P', 'T', 'I', 'O', 'N'][3]);
            assert(seq!['U', 'S', '_', 'F', 'L', '_', 'R', 'E', 'S', 'E', 'L', 'L', 'E', 'R', '_', 'E', 'X', 'E', 'M', 'P', 'T', 'I', 'O', 'N'][3] != seq!['U', 'S', '_', 'C', 'A', '_', 'R', 'E', 'S', 'E', 'L', 'L', 'E', 'R', '_', 'E', 'X', 'E', 'M', 'P', 'T', 'I', 'O', 'N'][3]);
            assert(seq!['U', 'S', '_', 'F', 'L', '_', 'R', 'E', 'S', 'E', 'L', 'L', 'E', 'R', '_', 'E', 'X', 'E', 'M', 'P', 'T', 'I', 'O', 'N'][3] != seq!['U', 'S', '_', 'C', 'O', '_', 'R', 'E', 'S', 'E', 'L', 'L', 'E', 'R', '_', 'E', 'X', 'E', 'M', 'P', 'T', 'I', 'O', 'N'][3]);
            assert(seq!['U', 'S', '_', 'F', 'L', '_', 'R', 'E', 'S', 'E', 'L', 'L', 'E', 'R', '_', 'E', 'X', 'E', 'M', 'P', 'T', 'I', 'O', 'N'][3] != seq!['U', 'S', '_', 'C', 'T', '_', 'R', 'E', 'S', 'E', 'L', 'L', 'E', 'R', '_', 'E', 'X', 'E', 'M', 'P', 'T', 'I', 'O', 'N'][3]);
            assert(seq!['U', 'S', '_', 'F', 'L', '_', 'R', 'E', 'S', 'E', 'L', 'L', 'E', 'R', '_', 'E', 'X', 'E', 'M', 'P', 'T', 'I', 'O', 'N'][3] != seq!['U', 'S', '_', 'D', 'C', '_', 'R', 'E', 'S', 'E', 'L', 'L', 'E', 'R', '_', 'E', 'X', 'E', 'M', 'P', 'T', 'I', 'O', 'N'][3]);
            assert(seq!['U', 'S', '_', 'F', 'L', '_', 'R', 'E', 'S', 'E', 'L', 'L', 'E', 'R', '_', 'E', 'X', 'E', 'M', 'P', 'T', 'I', 'O', 'N'][3] != seq!['U', 'S', '_', 'D', 'E', '_', 'R', 'E', 'S', 'E', 'L', 'L', 'E', 'R', '_', 'E', 'X', 'E', 'M', 'P', 'T', 'I', 'O', 'N'][3]);
        },
        TaxExemption::US_GA_RESELLER_EXEMPTION => {
            assert(seq!['U', 'S', '_', 'G', 'A', '_', 'R', 'E', 'S', 'E', 'L', 'L', 'E', 'R', '_', 'E', 'X', 'E', 'M', 'P', 'T', 'I', 'O', 'N'][0] != seq!['C', 'A', '_', 'B', 'C', '_', 'R', 'E', 'S', 'E', 'L', 'L', 'E', 'R', '_', 'E', 'X', 'E', 'M', 'P', 'T', 'I', 'O', 'N'][0]);
            assert(seq!['U', 'S', '_', 'G', 'A', '_', 'R', 'E', 'S', 'E', 'L', 'L', 'E', 'R', '_', 'E', 'X', 'E', 'M', 'P', 'T', 'I', 'O', 'N'][0] != seq!['C', 'A', '_', 'M', 'B', '_', 'R', 'E', 'S', 'E', 'L', 'L', 'E', 'R', '_', 'E', 'X', 'E', 'M', 'P', 'T', 'I', 'O', 'N'][0]);
            assert(seq!['U', 'S', '_', 'G', 'A', '_', 'R', 'E', 'S', 'E', 'L', 'L', 'E', 'R', '_', 'E', 'X', 'E', 'M', 'P', 'T', 'I', 'O', 'N'][0] != seq!['C', 'A', '_', 'O', 'N', '_', 'P', 'U', 'R', 'C', 'H', 'A', 'S', 'E', '_', 'E', 'X', 'E', 'M', 'P', 'T', 'I', 'O', 'N'][0]);
            assert(seq!['U', 'S', '_', 'G', 'A', '_', 'R', 'E', 'S', 'E', 'L', 'L', 'E', 'R', '_', 'E', 'X', 'E', 'M', 'P', 'T', 'I', 'O', 'N'][0] != seq!['C', 'A', '_', 'S', 'K', '_', 'R', 'E', 'S', 'E', 'L', 'L', 'E', 'R', '_', 'E', 'X', 'E', 'M', 'P', 'T', 'I', 'O', 'N'][0]);
            assert(seq!['U', 'S', '_', 'G', 'A', '_', 'R', 'E', 'S', 'E', 'L', 'L', 'E', 'R', '_', 'E', 'X', 'E', 'M', 'P', 'T', 'I', 'O', 'N'][0] != seq!['C', 'A', '_', 'S', 'T', 'A', 'T', 'U', 'S', '_', 'C', 'A', 'R', 'D', '_', 'E', 'X', 'E', 'M', 'P', 'T', 'I', 'O', 'N'][0]);
            assert(seq!['U', 'S', '_', 'G', 'A', '_', 'R', 'E', 'S', 'E', 'L', 'L', 'E', 'R', '_', 'E', 'X', 'E', 'M', 'P', 'T', 'I', 'O', 'N'][3] != seq!['U', 'S', '_', 'A', 'K', '_', 'R', 'E', 'S', 'E', 'L', 'L', 'E', 'R', '_', 'E', 'X', 'E', 'M', 'P', 'T', 'I', 'O', 'N'][3]);
            assert(seq!['U', 'S', '_', 'G', 'A', '_', 'R', 'E', 'S', 'E', 'L', 'L', 'E', 'R', '_', 'E', 'X', 'E', 'M', 'P', 'T', 'I', 'O', 'N'][3] != seq!['U', 'S', '_', 'A', 'L', '_', 'R', 'E', 'S', 'E', 'L', 'L', 'E', 'R', '_', 'E', 'X', 'E', 'M', 'P', 'T', 'I', 'O', 'N'][3]);
            assert(seq!['U', 'S', '_', 'G', 'A', '_', 'R', 'E', 'S', 'E', 'L', 'L', 'E', 'R', '_', 'E', 'X', 'E', 'M', 'P', 'T', 'I', 'O', 'N'][3] != seq!['U', 'S', '_', 'A', 'R', '_', 'R', 'E', 'S', 'E', 'L', 'L', 'E', 'R', '_', 'E', 'X', 'E', 'M', 'P', 'T', 'I', 'O', 'N'][3]);
            assert(seq!['U', 'S', '_', 'G', 'A', '_', 'R', 'E', 'S', 'E', 'L', 'L', 'E', 'R', '_', 'E', 'X', 'E', 'M', 'P', 'T', 'I', 'O', 'N'][3] != seq!['U', 'S', '_', 'A', 'Z', '_', 'R', 'E', 'S', 'E', 'L', 'L', 'E', 'R', '_', 'E', 'X', 'E', 'M', 'P', 'T', 'I', 'O', 'N'][3]);
            assert(seq!['U', 'S', '_', 'G', 'A', '_', 'R', 'E', 'S', 'E', 'L', 'L', 'E', 'R', '_', 'E', 'X', 'E', 'M', 'P', 'T', 'I', 'O', 'N'][3] != seq!['U', 'S', '_', 'C', 'A', '_', 'R', 'E', 'S', 'E', 'L', 'L', 'E', 'R', '_', 'E', 'X', 'E', 'M', 'P', 'T', 'I', 'O', 'N'][3]);
            assert(seq!['U', 'S', '_', 'G', 'A', '_', 'R', 'E', 'S', 'E', 'L', 'L', 'E', 'R', '_', 'E', 'X', 'E', 'M', 'P', 'T', 'I', 'O', 'N'][3] != seq!['U', 'S', '_', 'C', 'O', '_', 'R', 'E', 'S', 'E', 'L', 'L', 'E', 'R', '_', 'E', 'X', 'E', 'M', 'P', 'T', 'I', 'O', 'N'][3]);
            assert(seq!['U', 'S', '_', 'G', 'A', '_', 'R', 'E', 'S', 'E', 'L', 'L', 'E', 'R', '_', 'E', 'X', 'E', 'M', 'P', 'T', 'I', 'O', 'N'][3] != seq!['U', 'S', '_', 'C', 'T', '_', 'R', 'E', 'S', 'E', 'L', 'L', 'E', 'R', '_', 'E', 'X', 'E', 'M', 'P', 'T', 'I', 'O', 'N'][3]);
            assert(seq!['U', 'S', '_', 'G', 'A', '_', 'R', 'E', 'S', 'E', 'L', 'L', 'E', 'R', '_', 'E', 'X', 'E', 'M', 'P', 'T', 'I', 'O', 'N'][3] != seq!['U', 'S', '_', 'D', 'C', '_', 'R', 'E', 'S', 'E', 'L', 'L', 'E', 'R', '_', 'E', 'X', 'E', 'M', 'P', 'T', 'I', 'O', 'N'][3]);
            assert(seq!['U', 'S', '_', 'G', 'A', '_', 'R', 'E', 'S', 'E', 'L', 'L', 'E', 'R', '_', 'E', 'X', 'E', 'M', 'P', 'T', 'I', 'O', 'N'][3] != seq!['U', 'S', '_', 'D', 'E', '_', 'R', 'E', 'S', 'E', 'L', 'L', 'E', 'R', '_', 'E', 'X', 'E', 'M', 'P', 'T', 'I', 'O', 'N'][3]);
            assert(seq!['U', 'S', '_', 'G', 'A', '_', 'R', 'E', 'S', 'E', 'L', 'L', 'E', 'R', '_', 'E', 'X', 'E', 'M', 'P', 'T', 'I', 'O', 'N'][3] != seq!['U', 'S', '_', 'F', 'L', '_', 'R', 'E', 'S', 'E', 'L', 'L', 'E', 'R', '_', 'E', 'X', 'E', 'M', 'P', 'T', 'I', 'O', 'N'][3]);
        },
        TaxExemption::US_HI_RESELLER_EXEMPTION => {
            assert(seq!['U', 'S', '_', 'H', 'I', '_', 'R', 'E', 'S', 'E', 'L', 'L', 'E', 'R', '_', 'E', 'X', 'E', 'M', 'P', 'T', 'I', 'O', 'N'][0] != seq!['C', 'A', '_', 'B', 'C', '_', 'R', 'E', 'S', 'E', 'L', 'L', 'E', 'R', '_', 'E', 'X', 'E', 'M', 'P', 'T', 'I', 'O', 'N'][0]);
            assert(seq!['U', 'S', '_', 'H', 'I', '_', 'R', 'E', 'S', 'E', 'L', 'L', 'E', 'R', '_', 'E', 'X', 'E', 'M', 'P', 'T', 'I', 'O', 'N'][0] != seq!['C', 'A', '_', 'M', 'B', '_', 'R', 'E', 'S', 'E', 'L', 'L', 'E', 'R', '_', 'E', 'X', 'E', 'M', 'P', 'T', 'I', 'O', 'N'][0]);
            assert(seq!['U', 'S', '_', 'H', 'I', '_', 'R', 'E', 'S', 'E', 'L', 'L', 'E', 'R', '_', 'E', 'X', 'E', 'M', 'P', 'T', 'I', 'O', 'N'][0] != seq!['C', 'A', '_', 'O', 'N', '_', 'P', 'U', 'R', 'C', 'H', 'A', 'S', 'E', '_', 'E', 'X', 'E', 'M', 'P', 'T', 'I', 'O', 'N'][0]);
            assert(seq!['U', 'S', '_', 'H', 'I', '_', 'R', 'E', 'S', 'E', 'L', 'L', 'E', 'R', '_', 'E', 'X', 'E', 'M', 'P', 'T', 'I', 'O', 'N'][0] != seq!['C', 'A', '_', 'S', 'K', '_', 'R', 'E', 'S', 'E', 'L', 'L', 'E', 'R', '_', 'E', 'X', 'E', 'M', 'P', 'T', 'I', 'O', 'N'][0]);
            assert(seq!['U', 'S', '_', 'H', 'I', '_', 'R', 'E', 'S', 'E', 'L', 'L', 'E', 'R', '_', 'E', 'X', 'E', 'M', 'P', 'T', 'I', 'O', 'N'][0] != seq!['C', 'A', '_', 'S', 'T', 'A', 'T', 'U', 'S', '_', 'C', 'A', 'R', 'D', '_', 'E', 'X', 'E', 'M', 'P', 'T', 'I', 'O', 'N'][0]);
            assert(seq!['U', 'S', '_', 'H', 'I', '_', 'R', 'E', 'S', 'E', 'L', 'L', 'E', 'R', '_', 'E', 'X', 'E', 'M', 'P', 'T', 'I', 'O', 'N'][3] != seq!['U', 'S', '_', 'A', 'K', '_', 'R', 'E', 'S', 'E', 'L', 'L', 'E', 'R', '_', 'E', 'X', 'E', 'M', 'P', 'T', 'I', 'O', 'N'][3]);
            assert(seq!['U', 'S', '_', 'H', 'I', '_', 'R', 'E', 'S', 'E', 'L', 'L', 'E', 'R', '_', 'E', 'X', 'E', 'M', 'P', 'T', 'I', 'O', 'N'][3] != seq!['U', 'S', '_', 'A', 'L', '_', 'R', 'E', 'S', 'E', 'L', 'L', 'E', 'R', '_', 'E', 'X', 'E', 'M', 'P', 'T', 'I', 'O', 'N'][3]);
            assert(seq!['U', 'S', '_', 'H', 'I', '_', 'R', 'E', 'S', 'E', 'L', 'L', 'E', 'R', '_', 'E', 'X', 'E', 'M', 'P', 'T', 'I', 'O', 'N'][3] != seq!['U', 'S', '_', 'A', 'R', '_', 'R', 'E', 'S', 'E', 'L', 'L', 'E', 'R', '_', 'E', 'X', 'E', 'M', 'P', 'T', 'I', 'O', 'N'][3]);
            assert(seq!['U', 'S', '_', 'H', 'I', '_', 'R', 'E', 'S', 'E', 'L', 'L', 'E', 'R', '_', 'E', 'X', 'E', 'M', 'P', 'T', 'I', 'O', 'N'][3] != seq!['U', 'S', '_', 'A', 'Z', '_', 'R', 'E', 'S', 'E', 'L', 'L', 'E', 'R', '_', 'E', 'X', 'E', 'M', 'P', 'T', 'I', 'O', 'N'][3]);
            assert(seq!['U', 'S', '_', 'H', 'I', '_', 'R', 'E', 'S', 'E', 'L', 'L', 'E', 'R', '_', 'E', 'X', 'E', 'M', 'P', 'T', 'I', 'O', 'N'][3] != seq!['U', 'S', '_', 'C', 'A', '_', 'R', 'E', 'S', 'E', 'L', 'L', 'E', 'R', '_', 'E', 'X', 'E', 'M', 'P', 'T', 'I', 'O', 'N'][3]);
            assert(seq!['U', 'S', '_', 'H', 'I', '_', 'R', 'E', 'S', 'E', 'L', 'L', 'E', 'R', '_', 'E', 'X', 'E', 'M', 'P', 'T', 'I', 'O', 'N'][3] != seq!['U', 'S', '_', 'C', 'O', '_', 'R', 'E', 'S', 'E', 'L', 'L', 'E', 'R', '_', 'E', 'X', 'E', 'M', 'P', 'T', 'I', 'O', 'N'][3]);
            assert(seq!['U', 'S', '_', 'H', 'I', '_', 'R', 'E', 'S', 'E', 'L', 'L', 'E', 'R', '_', 'E', 'X', 'E', 'M', 'P', 'T', 'I', 'O', 'N'][3] != seq!['U', 'S', '_', 'C', 'T', '_', 'R', 'E', 'S', 'E', 'L', 'L', 'E', 'R', '_', 'E', 'X', 'E', 'M', 'P', 'T', 'I', 'O', 'N'][3]);
            assert(seq!['U', 'S', '_', 'H', 'I', '_', 'R', 'E', 'S', 'E', 'L', 'L', 'E', 'R', '_', 'E', 'X', 'E', 'M', 'P', 'T', 'I', 'O', 'N'][3] != seq!['U', 'S', '_', 'D', 'C', '_', 'R', 'E', 'S', 'E', 'L', 'L', 'E', 'R', '_', 'E', 'X', 'E', 'M', 'P', 'T', 'I', 'O', 'N'][3]);
            assert(seq!['U', 'S', '_', 'H', 'I', '_', 'R', 'E', 'S', 'E', 'L', 'L', 'E', 'R', '_', 'E', 'X', 'E', 'M', 'P', 'T', 'I', 'O', 'N'][3] != seq!['U', 'S', '_', 'D', 'E', '_', 'R', 'E', 'S', 'E', 'L', 'L', 'E', 'R', '_', 'E', 'X', 'E', 'M', 'P', 'T', 'I', 'O', 'N'][3]);
            assert(seq!['U', 'S', '_', 'H', 'I', '_', 'R', 'E', 'S', 'E', 'L', 'L', 'E', 'R', '_', 'E', 'X', 'E', 'M', 'P', 'T', 'I', 'O', 'N'][3] != seq!['U', 'S', '_', 'F', 'L', '_', 'R', 'E', 'S', 'E', 'L', 'L', 'E', 'R', '_', 'E', 'X', 'E', 'M', 'P', 'T', 'I', 'O', 'N'][3]);
            assert(seq!['U', 'S', '_', 'H', 'I', '_', 'R', 'E', 'S', 'E', 'L', 'L', 'E', 'R', '_', 'E', 'X', 'E', 'M', 'P', 'T', 'I', 'O', 'N'][3] != seq!['U', 'S', '_', 'G', 'A', '_', 'R', 'E', 'S', 'E', 'L', 'L', 'E', 'R', '_', 'E', 'X', 'E', 'M', 'P', 'T', 'I', 'O', 'N'][3]);
        },
        TaxExemption::US_IA_RESELLER_EXEMPTION => {
            assert(seq!['U', 'S', '_', 'I', 'A', '_', 'R', 'E', 'S', 'E', 'L', 'L', 'E', 'R', '_', 'E', 'X', 'E', 'M', 'P', 'T', 'I', 'O', 'N'][0] != seq!['C', 'A', '_', 'B', 'C', '_', 'R', 'E', 'S', 'E', 'L', 'L', 'E', 'R', '_', 'E', 'X', 'E', 'M', 'P', 'T', 'I', 'O', 'N'][0]);
            assert(seq!['U', 'S', '_', 'I', 'A', '_', 'R', 'E', 'S', 'E', 'L', 'L', 'E', 'R', '_', 'E', 'X', 'E', 'M', 'P', 'T', 'I', 'O', 'N'][0] != seq!['C', 'A', '_', 'M', 'B', '_', 'R', 'E', 'S', 'E', 'L', 'L', 'E', 'R', '_', 'E', 'X', 'E', 'M', 'P', 'T', 'I', 'O', 'N'][0]);
            assert(seq!['U', 'S', '_', 'I', 'A', '_', 'R', 'E', 'S', 'E', 'L', 'L', 'E', 'R', '_', 'E', 'X', 'E', 'M', 'P', 'T', 'I', 'O', 'N'][0] != seq!['C', 'A', '_', 'O', 'N', '_', 'P', 'U', 'R', 'C', 'H', 'A', 'S', 'E', '_', 'E', 'X', 'E', 'M', 'P', 'T', 'I', 'O', 'N'][0]);
            assert(seq!['U', 'S', '_', 'I', 'A', '_', 'R', 'E', 'S', 'E', 'L', 'L', 'E', 'R', '_', 'E', 'X', 'E', 'M', 'P', 'T', 'I', 'O', 'N'][0] != seq!['C', 'A', '_', 'S', 'K', '_', 'R', 'E', 'S', 'E', 'L', 'L', 'E', 'R', '_', 'E', 'X', 'E', 'M', 'P', 'T', 'I', 'O', 'N'][0]);
            assert(seq!['U', 'S', '_', 'I', 'A', '_', 'R', 'E', 'S', 'E', 'L', 'L', 'E', 'R', '_', 'E', 'X', 'E', 'M', 'P', 'T', 'I', 'O', 'N'][0] != seq!['C', 'A', '_', 'S', 'T', 'A', 'T', 'U', 'S', '_', 'C', 'A', 'R', 'D', '_', 'E', 'X', 'E', 'M', 'P', 'T', 'I', 'O', 'N'][0]);
            assert(seq!['U', 'S', '_', 'I', 'A', '_', 'R', 'E', 'S', 'E', 'L', 'L', 'E', 'R', '_', 'E', 'X', 'E', 'M', 'P', 'T', 'I', 'O', 'N'][3] != seq!['U', 'S', '_', 'A', 'K', '_', 'R', 'E', 'S', 'E', 'L', 'L', 'E', 'R', '_', 'E', 'X', 'E', 'M', 'P', 'T', 'I', 'O', 'N'][3]);
            assert(seq!['U', 'S', '_', 'I', 'A', '_', 'R', 'E', 'S', 'E', 'L', 'L', 'E', 'R', '_', 'E', 'X', 'E', 'M', 'P', 'T', 'I', 'O', 'N'][3] != seq!['U', 'S', '_', 'A', 'L', '_', 'R', 'E', 'S', 'E', 'L', 'L', 'E', 'R', '_', 'E', 'X', 'E', 'M', 'P', 'T', 'I', 'O', 'N'][3]);
            assert(seq!['U', 'S', '_', 'I', 'A', '_', 'R', 'E', 'S', 'E', 'L', 'L', 'E', 'R', '_', 'E', 'X', 'E', 'M', 'P', 'T', 'I', 'O', 'N'][3] != seq!['U', 'S', '_', 'A', 'R', '_', 'R', 'E', 'S', 'E', 'L', 'L', 'E', 'R', '_', 'E', 'X', 'E', 'M', 'P', 'T', 'I', 'O', 'N'][3]);
            assert(seq!['U', 'S', '_', 'I', 'A', '_', 'R', 'E', 'S', 'E', 'L', 'L', 'E', 'R', '_', 'E', 'X', 'E', 'M', 'P', 'T', 'I', 'O', 'N'][3] != seq!['U', 'S', '_', 'A', 'Z', '_', 'R', 'E', 'S', 'E', 'L', 'L', 'E', 'R', '_', 'E', 'X', 'E', 'M', 'P', 'T', 'I', 'O', 'N'][3]);
            assert(seq!['U', 'S', '_', 'I', 'A', '_', 'R', 'E', 'S', 'E', 'L', 'L', 'E', 'R', '_', 'E', 'X', 'E', 'M', 'P', 'T', 'I', 'O', 'N'][3] != seq!['U', 'S', '_', 'C', 'A', '_', 'R', 'E', 'S', 'E', 'L', 'L', 'E', 'R', '_', 'E', 'X', 'E', 'M', 'P', 'T', 'I', 'O', 'N'][3]);
            assert(seq!['U', 'S', '_', 'I', 'A', '_', 'R', 'E', 'S', 'E', 'L', 'L', 'E', 'R', '_', 'E', 'X', 'E', 'M', 'P', 'T', 'I', 'O', 'N'][3] != seq!['U', 'S', '_', 'C', 'O', '_', 'R', 'E', 'S', 'E', 'L', 'L', 'E', 'R', '_', 'E', 'X', 'E', 'M', 'P', 'T', 'I', 'O', 'N'][3]);
            assert(seq!['U', 'S', '_', 'I', 'A', '_', 'R', 'E', 'S', 'E', 'L', 'L', 'E', 'R', '_', 'E', 'X', 'E', 'M', 'P', 'T', 'I', 'O', 'N'][3] != seq!['U', 'S', '_', 'C', 'T', '_', 'R', 'E', 'S', 'E', 'L', 'L', 'E', 'R', '_', 'E', 'X', 'E', 'M', 'P', 'T', 'I', 'O', 'N'][3]);
            assert(seq!['U', 'S', '_', 'I', 'A', '_', 'R', 'E', 'S', 'E', 'L', 'L', 'E', 'R', '_', 'E', 'X', 'E', 'M', 'P', 'T', 'I', 'O', 'N'][3] != seq!['U', 'S', '_', 'D', 'C', '_', 'R', 'E', 'S', 'E', 'L', 'L', 'E', 'R', '_', 'E', 'X', 'E', 'M', 'P', 'T', 'I', 'O', 'N'][3]);
            assert(seq!['U', 'S', '_', 'I', 'A', '_', 'R', 'E', 'S', 'E', 'L', 'L', 'E', 'R', '_', 'E', 'X', 'E', 'M', 'P', 'T', 'I', 'O', 'N'][3] != seq!['U', 'S', '_', 'D', 'E', '_', 'R', 'E', 'S', 'E', 'L', 'L', 'E', 'R', '_', 'E', 'X', 'E', 'M', 'P', 'T', 'I', 'O', 'N'][3]);
            assert(seq!['U', 'S', '_', 'I', 'A', '_', 'R', 'E', 'S', 'E', 'L', 'L', 'E', 'R', '_', 'E', 'X', 'E', 'M', 'P', 'T', 'I', 'O', 'N'][3] != seq!['U', 'S', '_', 'F', 'L', '_', 'R', 'E', 'S', 'E', 'L', 'L', 'E', 'R', '_', 'E', 'X', 'E', 'M', 'P', 'T', 'I', 'O', 'N'][3]);
            assert(seq!['U', 'S', '_', 'I', 'A', '_', 'R', 'E', 'S', 'E', 'L', 'L', 'E', 'R', '_', 'E', 'X', 'E', 'M', 'P', 'T', 'I', 'O', 'N'][3] != seq!['U', 'S', '_', 'G', 'A', '_', 'R', 'E', 'S', 'E', 'L', 'L', 'E', 'R', '_', 'E', 'X', 'E', 'M', 'P', 'T', 'I', 'O', 'N'][3]);
            assert(seq!['U', 'S', '_', 'I', 'A', '_', 'R', 'E', 'S', 'E', 'L', 'L', 'E', 'R', '_', 'E', 'X', 'E', 'M', 'P', 'T', 'I', 'O', 'N'][3] != seq!['U', 'S', '_', 'H', 'I', '_', 'R', 'E', 'S', 'E', 'L', 'L', 'E', 'R', '_', 'E', 'X', 'E', 'M', 'P', 'T', 'I', 'O', 'N'][3]);
        },
        TaxExemption::US_ID_RESELLER_EXEMPTION => {
            assert(seq!['U', 'S', '_', 'I', 'D', '_', 'R', 'E', 'S', 'E', 'L', 'L', 'E', 'R', '_', 'E', 'X', 'E', 'M', 'P', 'T', 'I', 'O', 'N'][0] != seq!['C', 'A', '_', 'B', 'C', '_', 'R', 'E', 'S', 'E', 'L', 'L', 'E', 'R', '_', 'E', 'X', 'E', 'M', 'P', 'T', 'I', 'O', 'N'][0]);
            assert(seq!['U', 'S', '_', 'I', 'D', '_', 'R', 'E', 'S', 'E', 'L', 'L', 'E', 'R', '_', 'E', 'X', 'E', 'M', 'P', 'T', 'I', 'O', 'N'][0] != seq!['C', 'A', '_', 'M', 'B', '_', 'R', 'E', 'S', 'E', 'L', 'L', 'E', 'R', '_', 'E', 'X', 'E', 'M', 'P', 'T', 'I', 'O', 'N'][0]);
            assert(seq!['U', 'S', '_', 'I', 'D', '_', 'R', 'E', 'S', 'E', 'L', 'L', 'E', 'R', '_', 'E', 'X', 'E', 'M', 'P', 'T', 'I', 'O', 'N'][0] != seq!['C', 'A', '_', 'O', 'N', '_', 'P', 'U', 'R', 'C', 'H', 'A', 'S', 'E', '_', 'E', 'X', 'E', 'M', 'P', 'T', 'I', 'O', 'N'][0]);
            assert(seq!['U', 'S', '_', 'I', 'D', '_', 'R', 'E', 'S', 'E', 'L', 'L', 'E', 'R', '_', 'E', 'X', 'E', 'M', 'P', 'T', 'I', 'O', 'N'][0] != seq!['C', 'A', '_', 'S', 'K', '_', 'R', 'E', 'S', 'E', 'L', 'L', 'E', 'R', '_', 'E', 'X', 'E', 'M', 'P', 'T', 'I', 'O', 'N'][0]);
            assert(seq!['U', 'S', '_', 'I', 'D', '_', 'R', 'E', 'S', 'E', 'L', 'L', 'E', 'R', '_', 'E', 'X', 'E', 'M', 'P', 'T', 'I', 'O', 'N'][0] != seq!['C', 'A', '_', 'S', 'T', 'A', 'T', 'U', 'S', '_', 'C', 'A', 'R', 'D', '_', 'E', 'X', 'E', 'M', 'P', 'T', 'I', 'O', 'N'][0]);
            assert(seq!['U', 'S', '_', 'I', 'D', '_', 'R', 'E', 'S', 'E', 'L', 'L', 'E', 'R', '_', 'E', 'X', 'E', 'M', 'P', 'T', 'I', 'O', 'N'][3] != seq!['U', 'S', '_', 'A', 'K', '_', 'R', 'E', 'S', 'E', 'L', 'L', 'E', 'R', '_', 'E', 'X', 'E', 'M', 'P', 'T', 'I', 'O', 'N'][3]);
            assert(seq!['U', 'S', '_', 'I', 'D', '_', 'R', 'E', 'S', 'E', 'L', 'L', 'E', 'R', '_', 'E', 'X', 'E', 'M', 'P', 'T', 'I', 'O', 'N'][3] != seq!['U', 'S', '_', 'A', 'L', '_', 'R', 'E', 'S', 'E', 'L', 'L', 'E', 'R', '_', 'E', 'X', 'E', 'M', 'P', 'T', 'I', 'O', 'N'][3]);
            assert(seq!['U', 'S', '_', 'I', 'D', '_', 'R', 'E', 'S', 'E', 'L', 'L', 'E', 'R', '_', 'E', 'X', 'E', 'M', 'P', 'T', 'I', 'O', 'N'][3] != seq!['U', 'S', '_', 'A', 'R', '_', 'R', 'E', 'S', 'E', 'L', 'L', 'E', 'R', '_', 'E', 'X', 'E', 'M', 'P', 'T', 'I', 'O', 'N'][3]);
            assert(seq!['U', 'S', '_', 'I', 'D', '_', 'R', 'E', 'S', 'E', 'L', 'L', 'E', 'R', '_', 'E', 'X', 'E', 'M', 'P', 'T', 'I', 'O', 'N'][3] != seq!['U', 'S', '_', 'A', 'Z', '_', 'R', 'E', 'S', 'E', 'L', 'L', 'E', 'R', '_', 'E', 'X', 'E', 'M', 'P', 'T', 'I', 'O', 'N'][3]);
            assert(seq!['U', 'S', '_', 'I', 'D', '_', 'R', 'E', 'S', 'E', 'L', 'L', 'E', 'R', '_', 'E', 'X', 'E', 'M', 'P', 'T', 'I', 'O', 'N'][3] != seq!['U', 'S', '_', 'C', 'A', '_', 'R', 'E', 'S', 'E', 'L', 'L', 'E', 'R', '_', 'E', 'X', 'E', 'M', 'P', 'T', 'I', 'O', 'N'][3]);
            assert(seq!['U', 'S', '_', 'I', 'D', '_', 'R', 'E', 'S', 'E', 'L', 'L', 'E', 'R', '_', 'E', 'X', 'E', 'M', 'P', 'T', 'I', 'O', 'N'][3] != seq!['U', 'S', '_', 'C', 'O', '_', 'R', 'E', 'S', 'E', 'L', 'L', 'E', 'R', '_', 'E', 'X', 'E', 'M', 'P', 'T', 'I', 'O', 'N'][3]);
            assert(seq!['U', 'S', '_', 'I', 'D', '_', 'R', 'E', 'S', 'E', 'L', 'L', 'E', 'R', '_', 'E', 'X', 'E', 'M', 'P', 'T', 'I', 'O', 'N'][3] != seq!['U', 'S', '_', 'C', 'T', '_', 'R', 'E', 'S', 'E', 'L', 'L', 'E', 'R', '_', 'E', 'X', 'E', 'M', 'P', 'T', 'I', 'O', 'N'][3]);
            assert(seq!['U', 'S', '_', 'I', 'D', '_', 'R', 'E', 'S', 'E', 'L', 'L', 'E', 'R', '_', 'E', 'X', 'E', 'M', 'P', 'T', 'I', 'O', 'N'][3] != seq!['U', 'S', '_', 'D', 'C', '_', 'R', 'E', 'S', 'E', 'L', 'L', 'E', 'R', '_', 'E', 'X', 'E', 'M', 'P', 'T', 'I', 'O', 'N'][3]);
            assert(seq!['U', 'S', '_', 'I', 'D', '_', 'R', 'E', 'S', 'E', 'L', 'L', 'E', 'R', '_', 'E', 'X', 'E', 'M', 'P', 'T', 'I', 'O', 'N'][3] != seq!['U', 'S', '_', 'D', 'E', '_', 'R', 'E', 'S', 'E', 'L', 'L', 'E', 'R', '_', 'E', 'X', 'E', 'M', 'P', 'T', 'I', 'O', 'N'][3]);
            assert(seq!['U', 'S', '_', 'I', 'D', '_', 'R', 'E', 'S', 'E', 'L', 'L', 'E', 'R', '_', 'E', 'X', 'E', 'M', 'P', 'T', 'I', 'O', 'N'][3] != seq!['U', 'S', '_', 'F', 'L', '_', 'R', 'E', 'S', 'E', 'L', 'L', 'E', 'R', '_', 'E', 'X', 'E', 'M', 'P', 'T', 'I', 'O', 'N'][3]);
            assert(seq!['U', 'S', '_', 'I', 'D', '_', 'R', 'E', 'S', 'E', 'L', 'L', 'E', 'R', '_', 'E', 'X', 'E', 'M', 'P', 'T', 'I', 'O', 'N'][3] != seq!['U', 'S', '_', 'G', 'A', '_', 'R', 'E', 'S', 'E', 'L', 'L', 'E', 'R', '_', 'E', 'X', 'E', 'M', 'P', 'T', 'I', 'O', 'N'][3]);
            assert(seq!['U', 'S', '_', 'I', 'D', '_', 'R', 'E', 'S', 'E', 'L', 'L', 'E', 'R', '_', 'E', 'X', 'E', 'M', 'P', 'T', 'I', 'O', 'N'][3] != seq!['U', 'S', '_', 'H', 'I', '_', 'R', 'E', 'S', 'E', 'L', 'L', 'E', 'R', '_', 'E', 'X', 'E', 'M', 'P', 'T', 'I', 'O', 'N'][3]);
            assert(seq!['U', 'S', '_', 'I', 'D', '_', 'R', 'E', 'S', 'E', 'L', 'L', 'E', 'R', '_', 'E', 'X', 'E', 'M', 'P', 'T', 'I', 'O', 'N'][4] != seq!['U', 'S', '_', 'I', 'A', '_', 'R', 'E', 'S', 'E', 'L', 'L', 'E', 'R', '_', 'E', 'X', 'E', 'M', 'P', 'T', 'I', 'O', 'N'][4]);
        },
        TaxExemption::US_IL_RESELLER_EXEMPTION => {
            assert(seq!['U', 'S', '_', 'I', 'L', '_', 'R', 'E', 'S', 'E', 'L', 'L', 'E', 'R', '_', 'E', 'X', 'E', 'M', 'P', 'T', 'I', 'O', 'N'][0] != seq!['C', 'A', '_', 'B', 'C', '_', 'R', 'E', 'S', 'E', 'L', 'L', 'E', 'R', '_', 'E', 'X', 'E', 'M', 'P', 'T', 'I', 'O', 'N'][0]);
            assert(seq!['U', 'S', '_', 'I', 'L', '_', 'R', 'E', 'S', 'E', 'L', 'L', 'E', 'R', '_', 'E', 'X', 'E', 'M', 'P', 'T', 'I', 'O', 'N'][0] != seq!['C', 'A', '_', 'M', 'B', '_', 'R', 'E', 'S', 'E', 'L', 'L', 'E', 'R', '_', 'E', 'X', 'E', 'M', 'P', 'T', 'I', 'O', 'N'][0]);
            assert(seq!['U', 'S', '_', 'I', 'L', '_', 'R', 'E', 'S', 'E', 'L', 'L', 'E', 'R', '_', 'E', 'X', 'E', 'M', 'P', 'T', 'I', 'O', 'N'][0] != seq!['C', 'A', '_', 'O', 'N', '_', 'P', 'U', 'R', 'C', 'H', 'A', 'S', 'E', '_', 'E', 'X', 'E', 'M', 'P', 'T', 'I', 'O', 'N'][0]);
            assert(seq!['U', 'S', '_', 'I', 'L', '_', 'R', 'E', 'S', 'E', 'L', 'L', 'E', 'R', '_', 'E', 'X', 'E', 'M', 'P', 'T', 'I', 'O', 'N'][0] != seq!['C', 'A', '_', 'S', 'K', '_', 'R', 'E', 'S', 'E', 'L', 'L', 'E', 'R', '_', 'E', 'X', 'E', 'M', 'P', 'T', 'I', 'O', 'N'][0]);
            assert(seq!['U', 'S', '_', 'I', 'L', '_', 'R', 'E', 'S', 'E', 'L', 'L', 'E', 'R', '_', 'E', 'X', 'E', 'M', 'P', 'T', 'I', 'O', 'N'][0] != seq!['C', 'A', '_', 'S', 'T', 'A', 'T', 'U', 'S', '_', 'C', 'A', 'R', 'D', '_', 'E', 'X', 'E', 'M', 'P', 'T', 'I', 'O', 'N'][0]);
            assert(seq!['U', 'S', '_', 'I', 'L', '_', 'R', 'E', 'S', 'E', 'L', 'L', 'E', 'R', '_', 'E', 'X', 'E', 'M', 'P', 'T', 'I', 'O', 'N'][3] != seq!['U', 'S', '_', 'A', 'K', '_', 'R', 'E', 'S', 'E', 'L', 'L', 'E', 'R', '_', 'E', 'X', 'E', 'M', 'P', 'T', 'I', 'O', 'N'][3]);
            assert(seq!['U', 'S', '_', 'I', 'L', '_', 'R', 'E', 'S', 'E', 'L', 'L', 'E', 'R', '_', 'E', 'X', 'E', 'M', 'P', 'T', 'I', 'O', 'N'][3] != seq!['U', 'S', '_', 'A', 'L', '_', 'R', 'E', 'S', 'E', 'L', 'L', 'E', 'R', '_', 'E', 'X', 'E', 'M', 'P', 'T', 'I', 'O', 'N'][3]);
            assert(seq!['U', 'S', '_', 'I', 'L', '_', 'R', 'E', 'S', 'E', 'L', 'L', 'E', 'R', '_', 'E', 'X', 'E', 'M', 'P', 'T', 'I', 'O', 'N'][3] != seq!['U', 'S', '_', 'A', 'R', '_', 'R', 'E', 'S', 'E', 'L', 'L', 'E', 'R', '_', 'E', 'X', 'E', 'M', 'P', 'T', 'I', 'O', 'N'][3]);
            assert(seq!['U', 'S', '_', 'I', 'L', '_', 'R', 'E', 'S', 'E', 'L', 'L', 'E', 'R', '_', 'E', 'X', 'E', 'M', 'P', 'T', 'I', 'O', 'N'][3] != seq!['U', 'S', '_', 'A', 'Z', '_', 'R', 'E', 'S', 'E', 'L', 'L', 'E', 'R', '_', 'E', 'X', 'E', 'M', 'P', 'T', 'I', 'O', 'N'][3]);
            assert(seq!['U', 'S', '_', 'I', 'L', '_', 'R', 'E', 'S', 'E', 'L', 'L', 'E', 'R', '_', 'E', 'X', 'E', 'M', 'P', 'T', 'I', 'O', 'N'][3] != seq!['U', 'S', '_', 'C', 'A', '_', 'R', 'E', 'S', 'E', 'L', 'L', 'E', 'R', '_', 'E', 'X', 'E', 'M', 'P', 'T', 'I', 'O', 'N'][3]);
            assert(seq!['U', 'S', '_', 'I', 'L', '_', 'R', 'E', 'S', 'E', 'L', 'L', 'E', 'R', '_', 'E', 'X', 'E', 'M', 'P', 'T', 'I', 'O', 'N'][3] != seq!['U', 'S', '_', 'C', 'O', '_', 'R', 'E', 'S', 'E', 'L', 'L', 'E', 'R', '_', 'E', 'X', 'E', 'M', 'P', 'T', 'I', 'O', 'N'][3]);
            assert(seq!['U', 'S', '_', 'I', 'L', '_', 'R', 'E', 'S', 'E', 'L', 'L', 'E', 'R', '_', 'E', 'X', 'E', 'M', 'P', 'T', 'I', 'O', 'N'][3] != seq!['U', 'S', '_', 'C', 'T', '_', 'R', 'E', 'S', 'E', 'L', 'L', 'E', 'R', '_', 'E', 'X', 'E', 'M', 'P', 'T', 'I', 'O', 'N'][3]);
            assert(seq!['U', 'S', '_', 'I', 'L', '_', 'R', 'E', 'S', 'E', 'L', 'L', 'E', 'R', '_', 'E', 'X', 'E', 'M', 'P', 'T', 'I', 'O', 'N'][3] != seq!['U', 'S', '_', 'D', 'C', '_', 'R', 'E', 'S', 'E', 'L', 'L', 'E', 'R', '_', 'E', 'X', 'E', 'M', 'P', 'T', 'I', 'O', 'N'][3]);
            assert(seq!['U', 'S', '_', 'I', 'L', '_', 'R', 'E', 'S', 'E', 'L', 'L', 'E', 'R', '_', 'E', 'X', 'E', 'M', 'P', 'T', 'I', 'O', 'N'][3] != seq!['U', 'S', '_', 'D', 'E', '_', 'R', 'E', 'S', 'E', 'L', 'L', 'E', 'R', '_', 'E', 'X', 'E', 'M', 'P', 'T', 'I', 'O', 'N'][3]);
            assert(seq!['U', 'S', '_', 'I', 'L', '_', 'R', 'E', 'S', 'E', 'L', 'L', 'E', 'R', '_', 'E', 'X', 'E', 'M', 'P', 'T', 'I', 'O', 'N'][3] != seq!['U', 'S', '_', 'F', 'L', '_', 'R', 'E', 'S', 'E', 'L', 'L', 'E', 'R', '_', 'E', 'X', 'E', 'M', 'P', 'T', 'I', 'O', 'N'][3]);
            assert(seq!['U', 'S', '_', 'I', 'L', '_', 'R', 'E', 'S', 'E', 'L', 'L', 'E', 'R', '_', 'E', 'X', 'E', 'M', 'P', 'T', 'I', 'O', 'N'][3] != seq!['U', 'S', '_', 'G', 'A', '_', 'R', 'E', 'S', 'E', 'L', 'L', 'E', 'R', '_', 'E', 'X', 'E', 'M', 'P', 'T', 'I', 'O', 'N'][3]);
            assert(seq!['U', 'S', '_', 'I', 'L', '_', 'R', 'E', 'S', 'E', 'L', 'L', 'E', 'R', '_', 'E', 'X', 'E', 'M', 'P', 'T', 'I', 'O', 'N'][3] != seq!['U', 'S', '_', 'H', 'I', '_', 'R', 'E', 'S', 'E', 'L', 'L', 'E', 'R', '_', 'E', 'X', 'E', 'M', 'P', 'T', 'I', 'O', 'N'][3]);
            assert(seq!['U', 'S', '_', 'I', 'L', '_', 'R', 'E', 'S', 'E', 'L', 'L', 'E', 'R', '_', 'E', 'X', 'E', 'M', 'P', 'T', 'I', 'O', 'N'][4] != seq!['U', 'S', '_', 'I', 'A', '_', 'R', 'E', 'S', 'E', 'L', 'L', 'E', 'R', '_', 'E', 'X', 'E', 'M', 'P', 'T', 'I', 'O', 'N'][4]);
            assert(seq!['U', 'S', '_', 'I', 'L', '_', 'R', 'E', 'S', 'E', 'L', 'L', 'E', 'R', '_', 'E', 'X', 'E', 'M', 'P', 'T', 'I', 'O', 'N'][4] != seq!['U', 'S', '_', 'I', 'D', '_', 'R', 'E', 'S', 'E', 'L', 'L', 'E', 'R', '_', 'E', 'X', 'E', 'M', 'P', 'T', 'I', 'O', 'N'][4]);
        },
        TaxExemption::US_IN_RESELLER_EXEMPTION => {
            assert(seq!['U', 'S', '_', 'I', 'N', '_', 'R', 'E', 'S', 'E', 'L', 'L', 'E', 'R', '_', 'E', 'X', 'E', 'M', 'P', 'T', 'I', 'O', 'N'][0] != seq!['C', 'A', '_', 'B', 'C', '_', 'R', 'E', 'S', 'E', 'L', 'L', 'E', 'R', '_', 'E', 'X', 'E', 'M', 'P', 'T', 'I', 'O', 'N'][0]);
            assert(seq!['U', 'S', '_', 'I', 'N', '_', 'R', 'E', 'S', 'E', 'L', 'L', 'E', 'R', '_', 'E', 'X', 'E', 'M', 'P', 'T', 'I', 'O', 'N'][0] != seq!['C', 'A', '_', 'M', 'B', '_', 'R', 'E', 'S', 'E', 'L', 'L', 'E', 'R', '_', 'E', 'X', 'E', 'M', 'P', 'T', 'I', 'O', 'N'][0]);
            assert(seq!['U', 'S', '_', 'I', 'N', '_', 'R', 'E', 'S', 'E', 'L', 'L', 'E', 'R', '_', 'E', 'X', 'E', 'M', 'P', 'T', 'I', 'O', 'N'][0] != seq!['C', 'A', '_', 'O', 'N', '_', 'P', 'U', 'R', 'C', 'H', 'A', 'S', 'E', '_', 'E', 'X', 'E', 'M', 'P', 'T', 'I', 'O', 'N'][0]);
            assert(seq!['U', 'S', '_', 'I', 'N', '_', 'R', 'E', 'S', 'E', 'L', 'L', 'E', 'R', '_', 'E', 'X', 'E', 'M', 'P', 'T', 'I', 'O', 'N'][0] != seq!['C', 'A', '_', 'S', 'K', '_', 'R', 'E', 'S', 'E', 'L', 'L', 'E', 'R', '_', 'E', 'X', 'E', 'M', 'P', 'T', 'I', 'O', 'N'][0]);
            assert(seq!['U', 'S', '_', 'I', 'N', '_', 'R', 'E', 'S', 'E', 'L', 'L', 'E', 'R', '_', 'E', 'X', 'E', 'M', 'P', 'T', 'I', 'O', 'N'][0] != seq!['C', 'A', '_', 'S', 'T', 'A', 'T', 'U', 'S', '_', 'C', 'A', 'R', 'D', '_', 'E', 'X', 'E', 'M', 'P', 'T', 'I', 'O', 'N'][0]);
            assert(seq!['U', 'S', '_', 'I', 'N', '_', 'R', 'E', 'S', 'E', 'L', 'L', 'E', 'R', '_', 'E', 'X', 'E', 'M', 'P', 'T', 'I', 'O', 'N'][3] != seq!['U', 'S', '_', 'A', 'K', '_', 'R', 'E', 'S', 'E', 'L', 'L', 'E', 'R', '_', 'E', 'X', 'E', 'M', 'P', 'T', 'I', 'O', 'N'][3]);
            assert(seq!['U', 'S', '_', 'I', 'N', '_', 'R', 'E', 'S', 'E', 'L', 'L', 'E', 'R', '_', 'E', 'X', 'E', 'M', 'P', 'T', 'I', 'O', 'N'][3] != seq!['U', 'S', '_', 'A', 'L', '_', 'R', 'E', 'S', 'E', 'L', 'L', 'E', 'R', '_', 'E', 'X', 'E', 'M', 'P', 'T', 'I', 'O', 'N'][3]);
            assert(seq!['U', 'S', '_', 'I', 'N', '_', 'R', 'E', 'S', 'E', 'L', 'L', 'E', 'R', '_', 'E', 'X', 'E', 'M', 'P', 'T', 'I', 'O', 'N'][3] != seq!['U', 'S', '_', 'A', 'R', '_', 'R', 'E', 'S', 'E', 'L', 'L', 'E', 'R', '_', 'E', 'X', 'E', 'M', 'P', 'T', 'I', 'O', 'N'][3]);
            assert(seq!['U', 'S', '_', 'I', 'N', '_', 'R', 'E', 'S', 'E', 'L', 'L', 'E', 'R', '_', 'E', 'X', 'E', 'M', 'P', 'T', 'I', 'O', 'N'][3] != seq!['U', 'S', '_', 'A', 'Z', '_', 'R', 'E', 'S', 'E', 'L', 'L', 'E', 'R', '_', 'E', 'X', 'E', 'M', 'P', 'T', 'I', 'O', 'N'][3]);
            assert(seq!['U', 'S', '_', 'I', 'N', '_', 'R', 'E', 'S', 'E', 'L', 'L', 'E', 'R', '_', 'E', 'X', 'E', 'M', 'P', 'T', 'I', 'O', 'N'][3] != seq!['U', 'S', '_', 'C', 'A', '_', 'R', 'E', 'S', 'E', 'L', 'L', 'E', 'R', '_', 'E', 'X', 'E', 'M', 'P', 'T', 'I', 'O', 'N'][3]);
            assert(seq!['U', 'S', '_', 'I', 'N', '_', 'R', 'E', 'S', 'E', 'L', 'L', 'E', 'R', '_', 'E', 'X', 'E', 'M', 'P', 'T', 'I', 'O', 'N'][3] != seq!['U', 'S', '_', 'C', 'O', '_', 'R', 'E', 'S', 'E', 'L', 'L', 'E', 'R', '_', 'E', 'X', 'E', 'M', 'P', 'T', 'I', 'O', 'N'][3]);
            assert(seq!['U', 'S', '_', 'I', 'N', '_', 'R', 'E', 'S', 'E', 'L', 'L', 'E', 'R', '_', 'E', 'X', 'E', 'M', 'P', 'T', 'I', 'O', 'N'][3] != seq!['U', 'S', '_', 'C', 'T', '_', 'R', 'E', 'S', 'E', 'L', 'L', 'E', 'R', '_', 'E', 'X', 'E', 'M', 'P', 'T', 'I', 'O', 'N'][3]);
            assert(seq!['U', 'S', '_', 'I', 'N', '_', 'R', 'E', 'S', 'E', 'L', 'L', 'E', 'R', '_', 'E', 'X', 'E', 'M', 'P', 'T', 'I', 'O', 'N'][3] != seq!['U', 'S', '_', 'D', 'C', '_', 'R', 'E', 'S', 'E', 'L', 'L', 'E', 'R', '_', 'E', 'X', 'E', 'M', 'P', 'T', 'I', 'O', 'N'][3]);
            assert(seq!['U', 'S', '_', 'I', 'N', '_', 'R', 'E', 'S', 'E', 'L', 'L', 'E', 'R', '_', 'E', 'X', 'E', 'M', 'P', 'T', 'I', 'O', 'N'][3] != seq!['U', 'S', '_', 'D', 'E', '_', 'R', 'E', 'S', 'E', 'L', 'L', 'E', 'R', '_', 'E', 'X', 'E', 'M', 'P', 'T', 'I', 'O', 'N'][3]);
            assert(seq!['U', 'S', '_', 'I', 'N', '_', 'R', 'E', 'S', 'E', 'L', 'L', 'E', 'R', '_', 'E', 'X', 'E', 'M', 'P', 'T', 'I', 'O', 'N'][3] != seq!['U', 'S', '_', 'F', 'L', '_', 'R', 'E', 'S', 'E', 'L', 'L', 'E', 'R', '_', 'E', 'X', 'E', 'M', 'P', 'T', 'I', 'O', 'N'][3]);
            assert(seq!['U', 'S', '_', 'I', 'N', '_', 'R', 'E', 'S', 'E', 'L', 'L', 'E', 'R', '_', 'E', 'X', 'E', 'M', 'P', 'T', 'I', 'O', 'N'][3] != seq!['U', 'S', '_', 'G', 'A', '_', 'R', 'E', 'S', 'E', 'L', 'L', 'E', 'R', '_', 'E', 'X', 'E', 'M', 'P', 'T', 'I', 'O', 'N'][3]);
            assert(seq!['U', 'S', '_', 'I', 'N', '_', 'R', 'E', 'S', 'E', 'L', 'L', 'E', 'R', '_', 'E', 'X', 'E', 'M', 'P', 'T', 'I', 'O', 'N'][3] != seq!['U', 'S', '_', 'H', 'I', '_', 'R', 'E', 'S', 'E', 'L', 'L', 'E', 'R', '_', 'E', 'X', 'E', 'M', 'P', 'T', 'I', 'O', 'N'][3]);
            assert(seq!['U', 'S', '_', 'I', 'N', '_', 'R', 'E', 'S', 'E', 'L', 'L', 'E', 'R', '_', 'E', 'X', 'E', 'M', 'P', 'T', 'I', 'O', 'N'][4] != seq!['U', 'S', '_', 'I', 'A', '_', 'R', 'E', 'S', 'E', 'L', 'L', 'E', 'R', '_', 'E', 'X', 'E', 'M', 'P', 'T', 'I', 'O', 'N'][4]);
            assert(seq!['U', 'S', '_', 'I', 'N', '_', 'R', 'E', 'S', 'E', 'L', 'L', 'E', 'R', '_', 'E', 'X', 'E', 'M', 'P', 'T', 'I', 'O', 'N'][4] != seq!['U', 'S', '_', 'I', 'D', '_', 'R', 'E', 'S', 'E', 'L', 'L', 'E', 'R', '_', 'E', 'X', 'E', 'M', 'P', 'T', 'I', 'O', 'N'][4]);
            assert(seq!['U', 'S', '_', 'I', 'N', '_', 'R', 'E', 'S', 'E', 'L', 'L', 'E', 'R', '_', 'E', 'X', 'E', 'M', 'P', 'T', 'I', 'O', 'N'][4] != seq!['U', 'S', '_', 'I', 'L', '_', 'R', 'E', 'S', 'E', 'L', 'L', 'E', 'R', '_', 'E', 'X', 'E', 'M', 'P', 'T', 'I', 'O', 'N'][4]);
        },
        TaxExemption::US_KS_RESELLER_EXEMPTION => {
            assert(seq!['U', 'S', '_', 'K', 'S', '_', 'R', 'E', 'S', 'E', 'L', 'L', 'E', 'R', '_', 'E', 'X', 'E', 'M', 'P', 'T', 'I', 'O', 'N'][0] != seq!['C', 'A', '_', 'B', 'C', '_', 'R', 'E', 'S', 'E', 'L', 'L', 'E', 'R', '_', 'E', 'X', 'E', 'M', 'P', 'T', 'I', 'O', 'N'][0]);
            assert(seq!['U', 'S', '_', 'K', 'S', '_', 'R', 'E', 'S', 'E', 'L', 'L', 'E', 'R', '_', 'E', 'X', 'E', 'M', 'P', 'T', 'I', 'O', 'N'][0] != seq!['C', 'A', '_', 'M', 'B', '_', 'R', 'E', 'S', 'E', 'L', 'L', 'E', 'R', '_', 'E', 'X', 'E', 'M', 'P', 'T', 'I', 'O', 'N'][0]);
            assert(seq!['U', 'S', '_', 'K', 'S', '_', 'R', 'E', 'S', 'E', 'L', 'L', 'E', 'R', '_', 'E', 'X', 'E', 'M', 'P', 'T', 'I', 'O', 'N'][0] != seq!['C', 'A', '_', 'O', 'N', '_', 'P', 'U', 'R', 'C', 'H', 'A', 'S', 'E', '_', 'E', 'X', 'E', 'M', 'P', 'T', 'I', 'O', 'N'][0]);
            assert(seq!['U', 'S', '_', 'K', 'S', '_', 'R', 'E', 'S', 'E', 'L', 'L', 'E', 'R', '_', 'E', 'X', 'E', 'M', 'P', 'T', 'I', 'O', 'N'][0] != seq!['C', 'A', '_', 'S', 'K', '_', 'R', 'E', 'S', 'E', 'L', 'L', 'E', 'R', '_', 'E', 'X', 'E', 'M', 'P', 'T', 'I', 'O', 'N'][0]);
            assert(seq!['U', 'S', '_', 'K', 'S', '_', 'R', 'E', 'S', 'E', 'L', 'L', 'E', 'R', '_', 'E', 'X', 'E', 'M', 'P', 'T', 'I', 'O', 'N'][0] != seq!['C', 'A', '_', 'S', 'T', 'A', 'T', 'U', 'S', '_', 'C', 'A', 'R', 'D', '_', 'E', 'X', 'E', 'M', 'P', 'T', 'I', 'O', 'N'][0]);
            assert(seq!['U', 'S', '_', 'K', 'S', '_', 'R', 'E', 'S', 'E', 'L', 'L', 'E', 'R', '_', 'E', 'X', 'E', 'M', 'P', 'T', 'I', 'O', 'N'][3] != seq!['U', 'S', '_', 'A', 'K', '_', 'R', 'E', 'S', 'E', 'L', 'L', 'E', 'R', '_', 'E', 'X', 'E', 'M', 'P', 'T', 'I', 'O', 'N'][3]);
            assert(seq!['U', 'S', '_', 'K', 'S', '_', 'R', 'E', 'S', 'E', 'L', 'L', 'E', 'R', '_', 'E', 'X', 'E', 'M', 'P', 'T', 'I', 'O', 'N'][3] != seq!['U', 'S', '_', 'A', 'L', '_', 'R', 'E', 'S', 'E', 'L', 'L', 'E', 'R', '_', 'E', 'X', 'E', 'M', 'P', 'T', 'I', 'O', 'N'][3]);
            assert(seq!['U', 'S', '_', 'K', 'S', '_', 'R', 'E', 'S', 'E', 'L', 'L', 'E', 'R', '_', 'E', 'X', 'E', 'M', 'P', 'T', 'I', 'O', 'N'][3] != seq!['U', 'S', '_', 'A', 'R', '_', 'R', 'E', 'S', 'E', 'L', 'L', 'E', 'R', '_', 'E', 'X', 'E', 'M', 'P', 'T', 'I', 'O', 'N'][3]);
            assert(seq!['U', 'S', '_', 'K', 'S', '_', 'R', 'E', 'S', 'E', 'L', 'L', 'E', 'R', '_', 'E', 'X', 'E', 'M', 'P', 'T', 'I', 'O', 'N'][3] != seq!['U', 'S', '_', 'A', 'Z', '_', 'R', 'E', 'S', 'E', 'L', 'L', 'E', 'R', '_', 'E', 'X', 'E', 'M', 'P', 'T', 'I', 'O', 'N'][3]);
            assert(seq!['U', 'S', '_', 'K', 'S', '_', 'R', 'E', 'S', 'E', 'L', 'L', 'E', 'R', '_', 'E', 'X', 'E', 'M', 'P', 'T', 'I', 'O', 'N'][3] != seq!['U', 'S', '_', 'C', 'A', '_', 'R', 'E', 'S', 'E', 'L', 'L', 'E', 'R', '_', 'E', 'X', 'E', 'M', 'P', 'T', 'I', 'O', 'N'][3]);
            assert(seq!['U', 'S', '_', 'K', 'S', '_', 'R', 'E', 'S', 'E', 'L', 'L', 'E', 'R', '_', 'E', 'X', 'E', 'M', 'P', 'T', 'I', 'O', 'N'][3] != seq!['U', 'S', '_', 'C', 'O', '_', 'R', 'E', 'S', 'E', 'L', 'L', 'E', 'R', '_', 'E', 'X', 'E', 'M', 'P', 'T', 'I', 'O', 'N'][3]);
            assert(seq!['U', 'S', '_', 'K', 'S', '_', 'R', 'E', 'S', 'E', 'L', 'L', 'E', 'R', '_', 'E', 'X', 'E', 'M', 'P', 'T', 'I', 'O', 'N'][3] != seq!['U', 'S', '_', 'C', 'T', '_', 'R', 'E', 'S', 'E', 'L', 'L', 'E', 'R', '_', 'E', 'X', 'E', 'M', 'P', 'T', 'I', 'O', 'N'][3]);
            assert(seq!['U', 'S', '_', 'K', 'S', '_', 'R', 'E', 'S', 'E', 'L', 'L', 'E', 'R', '_', 'E', 'X', 'E', 'M', 'P', 'T', 'I', 'O', 'N'][3] != seq!['U', 'S', '_', 'D', 'C', '_', 'R', 'E', 'S', 'E', 'L', 'L', 'E', 'R', '_', 'E', 'X', 'E', 'M', 'P', 'T', 'I', 'O', 'N'][3]);
            assert(seq!['U', 'S', '_', 'K', 'S', '_', 'R', 'E', 'S', 'E', 'L', 'L', 'E', 'R', '_', 'E', 'X', 'E', 'M', 'P', 'T', 'I', 'O', 'N'][3] != seq!['U', 'S', '_', 'D', 'E', '_', 'R', 'E', 'S', 'E', 'L', 'L', 'E', 'R', '_', 'E', 'X', 'E', 'M', 'P', 'T', 'I', 'O', 'N'][3]);
            assert(seq!['U', 'S', '_', 'K', 'S', '_', 'R', 'E', 'S', 'E', 'L', 'L', 'E', 'R', '_', 'E', 'X', 'E', 'M', 'P', 'T', 'I', 'O', 'N'][3] != seq!['U', 'S', '_', 'F', 'L', '_', 'R', 'E', 'S', 'E', 'L', 'L', 'E', 'R', '_', 'E', 'X', 'E', 'M', 'P', 'T', 'I', 'O', 'N'][3]);
            assert(seq!['U', 'S', '_', 'K', 'S', '_', 'R', 'E', 'S', 'E', 'L', 'L', 'E', 'R', '_', 'E', 'X', 'E', 'M', 'P', 'T', 'I', 'O', 'N'][3] != seq!['U', 'S', '_', 'G', 'A', '_', 'R', 'E', 'S', 'E', 'L', 'L', 'E', 'R', '_', 'E', 'X', 'E', 'M', 'P', 'T', 'I', 'O', 'N'][3]);
            assert(seq!['U', 'S', '_', 'K', 'S', '_', 'R', 'E', 'S', 'E', 'L', 'L', 'E', 'R', '_', 'E', 'X', 'E', 'M', 'P', 'T', 'I', 'O', 'N'][3] != seq!['U', 'S', '_', 'H', 'I', '_', 'R', 'E', 'S', 'E', 'L', 'L', 'E', 'R', '_', 'E', 'X', 'E', 'M', 'P', 'T', 'I', 'O', 'N'][3]);
            assert(seq!['U', 'S', '_', 'K', 'S', '_', 'R', 'E', 'S', 'E', 'L', 'L', 'E', 'R', '_', 'E', 'X', 'E', 'M', 'P', 'T', 'I', 'O', 'N'][3] != seq!['U', 'S', '_', 'I', 'A', '_', 'R', 'E', 'S', 'E', 'L', 'L', 'E', 'R', '_', 'E', 'X', 'E', 'M', 'P', 'T', 'I', 'O', 'N'][3]);
            assert(seq!['U', 'S', '_', 'K', 'S', '_', 'R', 'E', 'S', 'E', 'L', 'L', 'E', 'R', '_', 'E', 'X', 'E', 'M', 'P', 'T', 'I', 'O', 'N'][3] != seq!['U', 'S', '_', 'I', 'D', '_', 'R', 'E', 'S', 'E', 'L', 'L', 'E', 'R', '_', 'E', 'X', 'E', 'M', 'P', 'T', 'I', 'O', 'N'][3]);
            assert(seq!['U', 'S', '_', 'K', 'S', '_', 'R', 'E', 'S', 'E', 'L', 'L', 'E', 'R', '_', 'E', 'X', 'E', 'M', 'P', 'T', 'I', 'O', 'N'][3] != seq!['U', 'S', '_', 'I', 'L', '_', 'R', 'E', 'S', 'E', 'L', 'L', 'E', 'R', '_', 'E', 'X', 'E', 'M', 'P', 'T', 'I', 'O', 'N'][3]);
            assert(seq!['U', 'S', '_', 'K', 'S', '_', 'R', 'E', 'S', 'E', 'L', 'L', 'E', 'R', '_', 'E', 'X', 'E', 'M', 'P', 'T', 'I', 'O', 'N'][3] != seq!['U', 'S', '_', 'I', 'N', '_', 'R', 'E', 'S', 'E', 'L', 'L', 'E', 'R', '_', 'E', 'X', 'E', 'M', 'P', 'T', 'I', 'O', 'N'][3]);
        },
        TaxExemption::US_KY_RESELLER_EXEMPTION => {
            assert(seq!['U', 'S', '_', 'K', 'Y', '_', 'R', 'E', 'S', 'E', 'L', 'L', 'E', 'R', '_', 'E', 'X', 'E', 'M', 'P', 'T', 'I', 'O', 'N'][0] != seq!['C', 'A', '_', 'B', 'C', '_', 'R', 'E', 'S', 'E', 'L', 'L', 'E', 'R', '_', 'E', 'X', 'E', 'M', 'P', 'T', 'I', 'O', 'N'][0]);
            assert(seq!['U', 'S', '_', 'K', 'Y', '_', 'R', 'E', 'S', 'E', 'L', 'L', 'E', 'R', '_', 'E', 'X', 'E', 'M', 'P', 'T', 'I', 'O', 'N'][0] != seq!['C', 'A', '_', 'M', 'B', '_', 'R', 'E', 'S', 'E', 'L', 'L', 'E', 'R', '_', 'E', 'X', 'E', 'M', 'P', 'T', 'I', 'O', 'N'][0]);
            assert(seq!['U', 'S', '_', 'K', 'Y', '_', 'R', 'E', 'S', 'E', 'L', 'L', 'E', 'R', '_', 'E', 'X', 'E', 'M', 'P', 'T', 'I', 'O', 'N'][0] != seq!['C', 'A', '_', 'O', 'N', '_', 'P', 'U', 'R', 'C', 'H', 'A', 'S', 'E', '_', 'E', 'X', 'E', 'M', 'P', 'T', 'I', 'O', 'N'][0]);
            assert(seq!['U', 'S', '_', 'K', 'Y', '_', 'R', 'E', 'S', 'E', 'L', 'L', 'E', 'R', '_', 'E', 'X', 'E', 'M', 'P', 'T', 'I', 'O', 'N'][0] != seq!['C', 'A', '_', 'S', 'K', '_', 'R', 'E', 'S', 'E', 'L', 'L', 'E', 'R', '_', 'E', 'X', 'E', 'M', 'P', 'T', 'I', 'O', 'N'][0]);
            assert(seq!['U', 'S', '_', 'K', 'Y', '_', 'R', 'E', 'S', 'E', 'L', 'L', 'E', 'R', '_', 'E', 'X', 'E', 'M', 'P', 'T', 'I', 'O', 'N'][0] != seq!['C', 'A', '_', 'S', 'T', 'A', 'T', 'U', 'S', '_', 'C', 'A', 'R', 'D', '_', 'E', 'X', 'E', 'M', 'P', 'T', 'I', 'O', 'N'][0]);
            assert(seq!['U', 'S', '_', 'K', 'Y', '_', 'R', 'E', 'S', 'E', 'L', 'L', 'E', 'R', '_', 'E', 'X', 'E', 'M', 'P', 'T', 'I', 'O', 'N'][3] != seq!['U', 'S', '_', 'A', 'K', '_', 'R', 'E', 'S', 'E', 'L', 'L', 'E', 'R', '_', 'E', 'X', 'E', 'M', 'P', 'T', 'I', 'O', 'N'][3]);
            assert(seq!['U', 'S', '_', 'K', 'Y', '_', 'R', 'E', 'S', 'E', 'L', 'L', 'E', 'R', '_', 'E', 'X', 'E', 'M', 'P', 'T', 'I', 'O', 'N'][3] != seq!['U', 'S', '_', 'A', 'L', '_', 'R', 'E', 'S', 'E', 'L', 'L', 'E', 'R', '_', 'E', 'X', 'E', 'M', 'P', 'T', 'I', 'O', 'N'][3]);
            assert(seq!['U', 'S', '_', 'K', 'Y', '_', 'R', 'E', 'S', 'E', 'L', 'L', 'E', 'R', '_', 'E', 'X', 'E', 'M', 'P', 'T', 'I', 'O', 'N'][3] != seq!['U', 'S', '_', 'A', 'R', '_', 'R', 'E', 'S', 'E', 'L', 'L', 'E', 'R', '_', 'E', 'X', 'E', 'M', 'P', 'T', 'I', 'O', 'N'][3]);
            assert(seq!['U', 'S', '_', 'K', 'Y', '_', 'R', 'E', 'S', 'E', 'L', 'L', 'E', 'R', '_', 'E', 'X', 'E', 'M', 'P', 'T', 'I', 'O', 'N'][3] != seq!['U', 'S', '_', 'A', 'Z', '_', 'R', 'E', 'S', 'E', 'L', 'L', 'E', 'R', '_', 'E', 'X', 'E', 'M', 'P', 'T', 'I', 'O', 'N'][3]);
            assert(seq!['U', 'S', '_', 'K', 'Y', '_', 'R', 'E', 'S', 'E', 'L', 'L', 'E', 'R', '_', 'E', 'X', 'E', 'M', 'P', 'T', 'I', 'O', 'N'][3] != seq!['U', 'S', '_', 'C', 'A', '_', 'R', 'E', 'S', 'E', 'L', 'L', 'E', 'R', '_', 'E', 'X', 'E', 'M', 'P', 'T', 'I', 'O', 'N'][3]);
            assert(seq!['U', 'S', '_', 'K', 'Y', '_', 'R', 'E', 'S', 'E', 'L', 'L', 'E', 'R', '_', 'E', 'X', 'E', 'M', 'P', 'T', 'I', 'O', 'N'][3] != seq!['U', 'S', '_', 'C', 'O', '_', 'R', 'E', 'S', 'E', 'L', 'L', 'E', 'R', '_', 'E', 'X', 'E', 'M', 'P', 'T', 'I', 'O', 'N'][3]);
            assert(seq!['U', 'S', '_', 'K', 'Y', '_', 'R', 'E', 'S', 'E', 'L', 'L', 'E', 'R', '_', 'E', 'X', 'E', 'M', 'P', 'T', 'I', 'O', 'N'][3] != seq!['U', 'S', '_', 'C', 'T', '_', 'R', 'E', 'S', 'E', 'L', 'L', 'E', 'R', '_', 'E', 'X', 'E', 'M', 'P', 'T', 'I', 'O', 'N'][3]);
            assert(seq!['U', 'S', '_', 'K', 'Y', '_', 'R', 'E', 'S', 'E', 'L', 'L', 'E', 'R', '_', 'E', 'X', 'E', 'M', 'P', 'T', 'I', 'O', 'N'][3] != seq!['U', 'S', '_', 'D', 'C', '_', 'R', 'E', 'S', 'E', 'L', 'L', 'E', 'R', '_', 'E', 'X', 'E', 'M', 'P', 'T', 'I', 'O', 'N'][3]);
            assert(seq!['U', 'S', '_', 'K', 'Y', '_', 'R', 'E', 'S', 'E', 'L', 'L', 'E', 'R', '_', 'E', 'X', 'E', 'M', 'P', 'T', 'I', 'O', 'N'][3] != seq!['U', 'S', '_', 'D', 'E', '_', 'R', 'E', 'S', 'E', 'L', 'L', 'E', 'R', '_', 'E', 'X', 'E', 'M', 'P', 'T', 'I', 'O', 'N'][3]);
            assert(seq!['U', 'S', '_', 'K', 'Y', '_', 'R', 'E', 'S', 'E', 'L', 'L', 'E', 'R', '_', 'E', 'X', 'E', 'M', 'P', 'T', 'I', 'O', 'N'][3] != seq!['U', 'S', '_', 'F', 'L', '_', 'R', 'E', 'S', 'E', 'L', 'L', 'E', 'R', '_', 'E', 'X', 'E', 'M', 'P', 'T', 'I', 'O', 'N'][3]);
            assert(seq!['U', 'S', '_', 'K', 'Y', '_', 'R', 'E', 'S', 'E', 'L', 'L', 'E', 'R', '_', 'E', 'X', 'E', 'M', 'P', 'T', 'I', 'O', 'N'][3] != seq!['U', 'S', '_', 'G', 'A', '_', 'R', 'E', 'S', 'E', 'L', 'L', 'E', 'R', '_', 'E', 'X', 'E', 'M', 'P', 'T', 'I', 'O', 'N'][3]);
            assert(seq!['U', 'S', '_', 'K', 'Y', '_', 'R', 'E', 'S', 'E', 'L', 'L', 'E', 'R', '_', 'E', 'X', 'E', 'M', 'P', 'T', 'I', 'O', 'N'][3] != seq!['U', 'S', '_', 'H', 'I', '_', 'R', 'E', 'S', 'E', 'L', 'L', 'E', 'R', '_', 'E', 'X', 'E', 'M', 'P', 'T', 'I', 'O', 'N'][3]);
            assert(seq!['U', 'S', '_', 'K', 'Y', '_', 'R', 'E', 'S', 'E', 'L', 'L', 'E', 'R', '_', 'E', 'X', 'E', 'M', 'P', 'T', 'I', 'O', 'N'][3] != seq!['U', 'S', '_', 'I', 'A', '_', 'R', 'E', 'S', 'E', 'L', 'L', 'E', 'R', '_', 'E', 'X', 'E', 'M', 'P', 'T', 'I', 'O', 'N'][3]);
            assert(seq!['U', 'S', '_', 'K', 'Y', '_', 'R', 'E', 'S', 'E', 'L', 'L', 'E', 'R', '_', 'E', 'X', 'E', 'M', 'P', 'T', 'I', 'O', 'N'][3] != seq!['U', 'S', '_', 'I', 'D', '_', 'R', 'E', 'S', 'E', 'L', 'L', 'E', 'R', '_', 'E', 'X', 'E', 'M', 'P', 'T', 'I', 'O', 'N'][3]);
            assert(seq!['U', 'S', '_', 'K', 'Y', '_', 'R', 'E', 'S', 'E', 'L', 'L', 'E', 'R', '_', 'E', 'X', 'E', 'M', 'P', 'T', 'I', 'O', 'N'][3] != seq!['U', 'S', '_', 'I', 'L', '_', 'R', 'E', 'S', 'E', 'L', 'L', 'E', 'R', '_', 'E', 'X', 'E', 'M', 'P', 'T', 'I', 'O', 'N'][3]);
            assert(seq!['U', 'S', '_', 'K', 'Y', '_', 'R', 'E', 'S', 'E', 'L', 'L', 'E', 'R', '_', 'E', 'X', 'E', 'M', 'P', 'T', 'I', 'O', 'N'][3] != seq!['U', 'S', '_', 'I', 'N', '_', 'R', 'E', 'S', 'E', 'L', 'L', 'E', 'R', '_', 'E', 'X', 'E', 'M', 'P', 'T', 'I', 'O', 'N'][3]);
            assert(seq!['U', 'S', '_', 'K', 'Y', '_', 'R', 'E', 'S', 'E', 'L', 'L', 'E', 'R', '_', 'E', 'X', 'E', 'M', 'P', 'T', 'I', 'O', 'N'][4] != seq!['U', 'S', '_', 'K', 'S', '_', 'R', 'E', 'S', 'E', 'L', 'L', 'E', 'R', '_', 'E', 'X', 'E', 'M', 'P', 'T', 'I', 'O', 'N'][4]);
        },
        TaxExemption::US_LA_RESELLER_EXEMPTION => {
            assert(seq!['U', 'S', '_', 'L', 'A', '_', 'R', 'E', 'S', 'E', 'L', 'L', 'E', 'R', '_', 'E', 'X', 'E', 'M', 'P', 'T', 'I', 'O', 'N'][0] != seq!['C', 'A', '_', 'B', 'C', '_', 'R', 'E', 'S', 'E', 'L', 'L', 'E', 'R', '_', 'E', 'X', 'E', 'M', 'P', 'T', 'I', 'O', 'N'][0]);
            assert(seq!['U', 'S', '_', 'L', 'A', '_', 'R', 'E', 'S', 'E', 'L', 'L', 'E', 'R', '_', 'E', 'X', 'E', 'M', 'P', 'T', 'I', 'O', 'N'][0] != seq!['C', 'A', '_', 'M', 'B', '_', 'R', 'E', 'S', 'E', 'L', 'L', 'E', 'R', '_', 'E', 'X', 'E', 'M', 'P', 'T', 'I', 'O', 'N'][0]);
            assert(seq!['U', 'S', '_', 'L', 'A', '_', 'R', 'E', 'S', 'E', 'L', 'L', 'E', 'R', '_', 'E', 'X', 'E', 'M', 'P', 'T', 'I', 'O', 'N'][0] != seq!['C', 'A', '_', 'O', 'N', '_', 'P', 'U', 'R', 'C', 'H', 'A', 'S', 'E', '_', 'E', 'X', 'E', 'M', 'P', 'T', 'I', 'O', 'N'][0]);
            assert(seq!['U', 'S', '_', 'L', 'A', '_', 'R', 'E', 'S', 'E', 'L', 'L', 'E', 'R', '_', 'E', 'X', 'E', 'M', 'P', 'T', 'I', 'O', 'N'][0] != seq!['C', 'A', '_', 'S', 'K', '_', 'R', 'E', 'S', 'E', 'L', 'L', 'E', 'R', '_', 'E', 'X', 'E', 'M', 'P', 'T', 'I', 'O', 'N'][0]);
            assert(seq!['U', 'S', '_', 'L', 'A', '_', 'R', 'E', 'S', 'E', 'L', 'L', 'E', 'R', '_', 'E', 'X', 'E', 'M', 'P', 'T', 'I', 'O', 'N'][0] != seq!['C', 'A', '_', 'S', 'T', 'A', 'T', 'U', 'S', '_', 'C', 'A', 'R', 'D', '_', 'E', 'X', 'E', 'M', 'P', 'T', 'I', 'O', 'N'][0]);
            assert(seq!['U', 'S', '_', 'L', 'A', '_', 'R', 'E', 'S', 'E', 'L', 'L', 'E', 'R', '_', 'E', 'X', 'E', 'M', 'P', 'T', 'I', 'O', 'N'][3] != seq!['U', 'S', '_', 'A', 'K', '_', 'R', 'E', 'S', 'E', 'L', 'L', 'E', 'R', '_', 'E', 'X', 'E', 'M', 'P', 'T', 'I', 'O', 'N'][3]);
            assert(seq!['U', 'S', '_', 'L', 'A', '_', 'R', 'E', 'S', 'E', 'L', 'L', 'E', 'R', '_', 'E', 'X', 'E', 'M', 'P', 'T', 'I', 'O', 'N'][3] != seq!['U', 'S', '_', 'A', 'L', '_', 'R', 'E', 'S', 'E', 'L', 'L', 'E', 'R', '_', 'E', 'X', 'E', 'M', 'P', 'T', 'I', 'O', 'N'][3]);
            assert(seq!['U', 'S', '_', 'L', 'A', '_', 'R', 'E', 'S', 'E', 'L', 'L', 'E', 'R', '_', 'E', 'X', 'E', 'M', 'P', 'T', 'I', 'O', 'N'][3] != seq!['U', 'S', '_', 'A', 'R', '_', 'R', 'E', 'S', 'E', 'L', 'L', 'E', 'R', '_', 'E', 'X', 'E', 'M', 'P', 'T', 'I', 'O', 'N'][3]);
            assert(seq!['U', 'S', '_', 'L', 'A', '_', 'R', 'E', 'S', 'E', 'L', 'L', 'E', 'R', '_', 'E', 'X', 'E', 'M', 'P', 'T', 'I', 'O', 'N'][3] != seq!['U', 'S', '_', 'A', 'Z', '_', 'R', 'E', 'S', 'E', 'L', 'L', 'E', 'R', '_', 'E', 'X', 'E', 'M', 'P', 'T', 'I', 'O', 'N'][3]);
            assert(seq!['U', 'S', '_', 'L', 'A', '_', 'R', 'E', 'S', 'E', 'L', 'L', 'E', 'R', '_', 'E', 'X', 'E', 'M', 'P', 'T', 'I', 'O', 'N'][3] != seq!['U', 'S', '_', 'C', 'A', '_', 'R', 'E', 'S', 'E', 'L', 'L', 'E', 'R', '_', 'E', 'X', 'E', 'M', 'P', 'T', 'I', 'O', 'N'][3]);
            assert(seq!['U', 'S', '_', 'L', 'A', '_', 'R', 'E', 'S', 'E', 'L', 'L', 'E', 'R', '_', 'E', 'X', 'E', 'M', 'P', 'T', 'I', 'O', 'N'][3] != seq!['U', 'S', '_', 'C', 'O', '_', 'R', 'E', 'S', 'E', 'L', 'L', 'E', 'R', '_', 'E', 'X', 'E', 'M', 'P', 'T', 'I', 'O', 'N'][3]);
            assert(seq!['U', 'S', '_', 'L', 'A', '_', 'R', 'E', 'S', 'E', 'L', 'L', 'E', 'R', '_', 'E', 'X', 'E', 'M', 'P', 'T', 'I', 'O', 'N'][3] != seq!['U', 'S', '_', 'C', 'T', '_', 'R', 'E', 'S', 'E', 'L', 'L', 'E', 'R', '_', 'E', 'X', 'E', 'M', 'P', 'T', 'I', 'O', 'N'][3]);
            assert(seq!['U', 'S', '_', 'L', 'A', '_', 'R', 'E', 'S', 'E', 'L', 'L', 'E', 'R', '_', 'E', 'X', 'E', 'M', 'P', 'T', 'I', 'O', 'N'][3] != seq!['U', 'S', '_', 'D', 'C', '_', 'R', 'E', 'S', 'E', 'L', 'L', 'E', 'R', '_', 'E', 'X', 'E', 'M', 'P', 'T', 'I', 'O', 'N'][3]);
            assert(seq!['U', 'S', '_', 'L', 'A', '_', 'R', 'E', 'S', 'E', 'L', 'L', 'E', 'R', '_', 'E', 'X', 'E', 'M', 'P', 'T', 'I', 'O', 'N'][3] != seq!['U', 'S', '_', 'D', 'E', '_', 'R', 'E', 'S', 'E', 'L', 'L', 'E', 'R', '_', 'E', 'X', 'E', 'M', 'P', 'T', 'I', 'O', 'N'][3]);
            assert(seq!['U', 'S', '_', 'L', 'A', '_', 'R', 'E', 'S', 'E', 'L', 'L', 'E', 'R', '_', 'E', 'X', 'E', 'M', 'P', 'T', 'I', 'O', 'N'][3] != seq!['U', 'S', '_', 'F', 'L', '_', 'R', 'E', 'S', 'E', 'L', 'L', 'E', 'R', '_', 'E', 'X', 'E', 'M', 'P', 'T', 'I', 'O', 'N'][3]);
            assert(seq!['U', 'S', '_', 'L', 'A', '_', 'R', 'E', 'S', 'E', 'L', 'L', 'E', 'R', '_', 'E', 'X', 'E', 'M', 'P', 'T', 'I', 'O', 'N'][3] != seq!['U', 'S', '_', 'G', 'A', '_', 'R', 'E', 'S', 'E', 'L', 'L', 'E', 'R', '_', 'E', 'X', 'E', 'M', 'P', 'T', 'I', 'O', 'N'][3]);
            assert(seq!['U', 'S', '_', 'L', 'A', '_', 'R', 'E', 'S', 'E', 'L', 'L', 'E', 'R', '_', 'E', 'X', 'E', 'M', 'P', 'T', 'I', 'O', 'N'][3] != seq!['U', 'S', '_', 'H', 'I', '_', 'R', 'E', 'S', 'E', 'L', 'L', 'E', 'R', '_', 'E', 'X', 'E', 'M', 'P', 'T', 'I', 'O', 'N'][3]);
            assert(seq!['U', 'S', '_', 'L', 'A', '_', 'R', 'E', 'S', 'E', 'L', 'L', 'E', 'R', '_', 'E', 'X', 'E', 'M', 'P', 'T', 'I', 'O', 'N'][3] != seq!['U', 'S', '_', 'I', 'A', '_', 'R', 'E', 'S', 'E', 'L', 'L', 'E', 'R', '_', 'E', 'X', 'E', 'M', 'P', 'T', 'I', 'O', 'N'][3]);
            assert(seq!['U', 'S', '_', 'L', 'A', '_', 'R', 'E', 'S', 'E', 'L', 'L', 'E', 'R', '_', 'E', 'X', 'E', 'M', 'P', 'T', 'I', 'O', 'N'][3] != seq!['U', 'S', '_', 'I', 'D', '_', 'R', 'E', 'S', 'E', 'L', 'L', 'E', 'R', '_', 'E', 'X', 'E', 'M', 'P', 'T', 'I', 'O', 'N'][3]);
            assert(seq!['U', 'S', '_', 'L', 'A', '_', 'R', 'E', 'S', 'E', 'L', 'L', 'E', 'R', '_', 'E', 'X', 'E', 'M', 'P', 'T', 'I', 'O', 'N'][3] != seq!['U', 'S', '_', 'I', 'L', '_', 'R', 'E', 'S', 'E', 'L', 'L', 'E', 'R', '_', 'E', 'X', 'E', 'M', 'P', 'T', 'I', 'O', 'N'][3]);
            assert(seq!['U', 'S', '_', 'L', 'A', '_', 'R', 'E', 'S', 'E', 'L', 'L', 'E', 'R', '_', 'E', 'X', 'E', 'M', 'P', 'T', 'I', 'O', 'N'][3] != seq!['U', 'S', '_', 'I', 'N', '_', 'R', 'E', 'S', 'E', 'L', 'L', 'E', 'R', '_', 'E', 'X', 'E', 'M', 'P', 'T', 'I', 'O', 'N'][3]);
            assert(seq!['U', 'S', '_', 'L', 'A', '_', 'R', 'E', 'S', 'E', 'L', 'L', 'E', 'R', '_', 'E', 'X', 'E', 'M', 'P', 'T', 'I', 'O', 'N'][3] != seq!['U', 'S', '_', 'K', 'S', '_', 'R', 'E', 'S', 'E', 'L', 'L', 'E', 'R', '_', 'E', 'X', 'E', 'M', 'P', 'T', 'I', 'O', 'N'][3]);
            assert(seq!['U', 'S', '_', 'L', 'A', '_', 'R', 'E', 'S', 'E', 'L', 'L', 'E', 'R', '_', 'E', 'X', 'E', 'M', 'P', 'T', 'I', 'O', 'N'][3] != seq!['U', 'S', '_', 'K', 'Y', '_', 'R', 'E', 'S', 'E', 'L', 'L', 'E', 'R', '_', 'E', 'X', 'E', 'M', 'P', 'T', 'I', 'O', 'N'][3]);
        },
        TaxExemption::US_MA_RESELLER_EXEMPTION => {
            assert(seq!['U', 'S', '_', 'M', 'A', '_', 'R', 'E', 'S', 'E', 'L', 'L', 'E', 'R', '_', 'E', 'X', 'E', 'M', 'P', 'T', 'I', 'O', 'N'][0] != seq!['C', 'A', '_', 'B', 'C', '_', 'R', 'E', 'S', 'E', 'L', 'L', 'E', 'R', '_', 'E', 'X', 'E', 'M', 'P', 'T', 'I', 'O', 'N'][0]);
            assert(seq!['U', 'S', '_', 'M', 'A', '_', 'R', 'E', 'S', 'E', 'L', 'L', 'E', 'R', '_', 'E', 'X', 'E', 'M', 'P', 'T', 'I', 'O', 'N'][0] != seq!['C', 'A', '_', 'M', 'B', '_', 'R', 'E', 'S', 'E', 'L', 'L', 'E', 'R', '_', 'E', 'X', 'E', 'M', 'P', 'T', 'I', 'O', 'N'][0]);
            assert(seq!['U', 'S', '_', 'M', 'A', '_', 'R', 'E', 'S', 'E', 'L', 'L', 'E', 'R', '_', 'E', 'X', 'E', 'M', 'P', 'T', 'I', 'O', 'N'][0] != seq!['C', 'A', '_', 'O', 'N', '_', 'P', 'U', 'R', 'C', 'H', 'A', 'S', 'E', '_', 'E', 'X', 'E', 'M', 'P', 'T', 'I', 'O', 'N'][0]);
            assert(seq!['U', 'S', '_', 'M', 'A', '_', 'R', 'E', 'S', 'E', 'L', 'L', 'E', 'R', '_', 'E', 'X', 'E', 'M', 'P', 'T', 'I', 'O', 'N'][0] != seq!['C', 'A', '_', 'S', 'K', '_', 'R', 'E', 'S', 'E', 'L', 'L', 'E', 'R', '_', 'E', 'X', 'E', 'M', 'P', 'T', 'I', 'O', 'N'][0]);
            assert(seq!['U', 'S', '_', 'M', 'A', '_', 'R', 'E', 'S', 'E', 'L', 'L', 'E', 'R', '_', 'E', 'X', 'E', 'M', 'P', 'T', 'I', 'O', 'N'][0] != seq!['C', 'A', '_', 'S', 'T', 'A', 'T', 'U', 'S', '_', 'C', 'A', 'R', 'D', '_', 'E', 'X', 'E', 'M', 'P', 'T', 'I', 'O', 'N'][0]);
            assert(seq!['U', 'S', '_', 'M', 'A', '_', 'R', 'E', 'S', 'E', 'L', 'L', 'E', 'R', '_', 'E', 'X', 'E', 'M', 'P', 'T', 'I', 'O', 'N'][3] != seq!['U', 'S', '_', 'A', 'K', '_', 'R', 'E', 'S', 'E', 'L', 'L', 'E', 'R', '_', 'E', 'X', 'E', 'M', 'P', 'T', 'I', 'O', 'N'][3]);
            assert(seq!['U', 'S', '_', 'M', 'A', '_', 'R', 'E', 'S', 'E', 'L', 'L', 'E', 'R', '_', 'E', 'X', 'E', 'M', 'P', 'T', 'I', 'O', 'N'][3] != seq!['U', 'S', '_', 'A', 'L', '_', 'R', 'E', 'S', 'E', 'L', 'L', 'E', 'R', '_', 'E', 'X', 'E', 'M', 'P', 'T', 'I', 'O', 'N'][3]);
            assert(seq!['U', 'S', '_', 'M', 'A', '_', 'R', 'E', 'S', 'E', 'L', 'L', 'E', 'R', '_', 'E', 'X', 'E', 'M', 'P', 'T', 'I', 'O', 'N'][3] != seq!['U', 'S', '_', 'A', 'R', '_', 'R', 'E', 'S', 'E', 'L', 'L', 'E', 'R', '_', 'E', 'X', 'E', 'M', 'P', 'T', 'I', 'O', 'N'][3]);
            assert(seq!['U', 'S', '_', 'M', 'A', '_', 'R', 'E', 'S', 'E', 'L', 'L', 'E', 'R', '_', 'E', 'X', 'E', 'M', 'P', 'T', 'I', 'O', 'N'][3] != seq!['U', 'S', '_', 'A', 'Z', '_', 'R', 'E', 'S', 'E', 'L', 'L', 'E', 'R', '_', 'E', 'X', 'E', 'M', 'P', 'T', 'I', 'O', 'N'][3]);
            assert(seq!['U', 'S', '_', 'M', 'A', '_', 'R', 'E', 'S', 'E', 'L', 'L', 'E', 'R', '_', 'E', 'X', 'E', 'M', 'P', 'T', 'I', 'O', 'N'][3] != seq!['U', 'S', '_', 'C', 'A', '_', 'R', 'E', 'S', 'E', 'L', 'L', 'E', 'R', '_', 'E', 'X', 'E', 'M', 'P', 'T', 'I', 'O', 'N'][3]);
            assert(seq!['U', 'S', '_', 'M', 'A', '_', 'R', 'E', 'S', 'E', 'L', 'L', 'E', 'R', '_', 'E', 'X', 'E', 'M', 'P', 'T', 'I', 'O', 'N'][3] != seq!['U', 'S', '_', 'C', 'O', '_', 'R', 'E', 'S', 'E', 'L', 'L', 'E', 'R', '_', 'E', 'X', 'E', 'M', 'P', 'T', 'I', 'O', 'N'][3]);
            assert(seq!['U', 'S', '_', 'M', 'A', '_', 'R', 'E', 'S', 'E', 'L', 'L', 'E', 'R', '_', 'E', 'X', 'E', 'M', 'P', 'T', 'I', 'O', 'N'][3] != seq!['U', 'S', '_', 'C', 'T', '_', 'R', 'E', 'S', 'E', 'L', 'L', 'E', 'R', '_', 'E', 'X', 'E', 'M', 'P', 'T', 'I', 'O', 'N'][3]);
            assert(seq!['U', 'S', '_', 'M', 'A', '_', 'R', 'E', 'S', 'E', 'L', 'L', 'E', 'R', '_', 'E', 'X', 'E', 'M', 'P', 'T', 'I', 'O', 'N'][3] != seq!['U', 'S', '_', 'D', 'C', '_', 'R', 'E', 'S', 'E', 'L', 'L', 'E', 'R', '_', 'E', 'X', 'E', 'M', 'P', 'T', 'I', 'O', 'N'][3]);
            assert(seq!['U', 'S', '_', 'M', 'A', '_', 'R', 'E', 'S', 'E', 'L', 'L', 'E', 'R', '_', 'E', 'X', 'E', 'M', 'P', 'T', 'I', 'O', 'N'][3] != seq!['U', 'S', '_', 'D', 'E', '_', 'R', 'E', 'S', 'E', 'L', 'L', 'E', 'R', '_', 'E', 'X', 'E', 'M', 'P', 'T', 'I', 'O', 'N'][3]);
            assert(seq!['U', 'S', '_', 'M', 'A', '_', 'R', 'E', 'S', 'E', 'L', 'L', 'E', 'R', '_', 'E', 'X', 'E', 'M', 'P', 'T', 'I', 'O', 'N'][3] != seq!['U', 'S', '_', 'F', 'L', '_', 'R', 'E', 'S', 'E', 'L', 'L', 'E', 'R', '_', 'E', 'X', 'E', 'M', 'P', 'T', 'I', 'O', 'N'][3]);
            assert(seq!['U', 'S', '_', 'M', 'A', '_', 'R', 'E', 'S', 'E', 'L', 'L', 'E', 'R', '_', 'E', 'X', 'E', 'M', 'P', 'T', 'I', 'O', 'N'][3] != seq!['U', 'S', '_', 'G', 'A', '_', 'R', 'E', 'S', 'E', 'L', 'L', 'E', 'R', '_', 'E', 'X', 'E', 'M', 'P', 'T', 'I', 'O', 'N'][3]);
            assert(seq!['U', 'S', '_', 'M', 'A', '_', 'R', 'E', 'S', 'E', 'L', 'L', 'E', 'R', '_', 'E', 'X', 'E', 'M', 'P', 'T', 'I', 'O', 'N'][3] != seq!['U', 'S', '_', 'H', 'I', '_', 'R', 'E', 'S', 'E', 'L', 'L', 'E', 'R', '_', 'E', 'X', 'E', 'M', 'P', 'T', 'I', 'O', 'N'][3]);
            assert(seq!['U', 'S', '_', 'M', 'A', '_', 'R', 'E', 'S', 'E', 'L', 'L', 'E', 'R', '_', 'E', 'X', 'E', 'M', 'P', 'T', 'I', 'O', 'N'][3] != seq!['U', 'S', '_', 'I', 'A', '_', 'R', 'E', 'S', 'E', 'L', 'L', 'E', 'R', '_', 'E', 'X', 'E', 'M', 'P', 'T', 'I', 'O', 'N'][3]);
            assert(seq!['U', 'S', '_', 'M', 'A', '_', 'R', 'E', 'S', 'E', 'L', 'L', 'E', 'R', '_', 'E', 'X', 'E', 'M', 'P', 'T', 'I', 'O', 'N'][3] != seq!['U', 'S', '_', 'I', 'D', '_', 'R', 'E', 'S', 'E', 'L', 'L', 'E', 'R', '_', 'E', 'X', 'E', 'M', 'P', 'T', 'I', 'O', 'N'][3]);
            assert(seq!['U', 'S', '_', 'M', 'A', '_', 'R', 'E', 'S', 'E', 'L', 'L', 'E', 'R', '_', 'E', 'X', 'E', 'M', 'P', 'T', 'I', 'O', 'N'][3] != seq!['U', 'S', '_', 'I', 'L', '_', 'R', 'E', 'S', 'E', 'L', 'L', 'E', 'R', '_', 'E', 'X', 'E', 'M', 'P', 'T', 'I', 'O', 'N'][3]);
            assert(seq!['U', 'S', '_', 'M', 'A', '_', 'R', 'E', 'S', 'E', 'L', 'L', 'E', 'R', '_', 'E', 'X', 'E', 'M', 'P', 'T', 'I', 'O', 'N'][3] != seq!['U', 'S', '_', 'I', 'N', '_', 'R', 'E', 'S', 'E', 'L', 'L', 'E', 'R', '_', 'E', 'X', 'E', 'M', 'P', 'T', 'I', 'O', 'N'][3]);
            assert(seq!['U', 'S', '_', 'M', 'A', '_', 'R', 'E', 'S', 'E', 'L', 'L', 'E', 'R', '_', 'E', 'X', 'E', 'M', 'P', 'T', 'I', 'O', 'N'][3] != seq!['U', 'S', '_', 'K', 'S', '_', 'R', 'E', 'S', 'E', 'L', 'L', 'E', 'R', '_', 'E', 'X', 'E', 'M', 'P', 'T', 'I', 'O', 'N'][3]);
            assert(seq!['U', 'S', '_', 'M', 'A', '_', 'R', 'E', 'S', 'E', 'L', 'L', 'E', 'R', '_', 'E', 'X', 'E', 'M', 'P', 'T', 'I', 'O', 'N'][3] != seq!['U', 'S', '_', 'K', 'Y', '_', 'R', 'E', 'S', 'E', 'L', 'L', 'E', 'R', '_', 'E', 'X', 'E', 'M', 'P', 'T', 'I', 'O', 'N'][3]);
            assert(seq!['U', 'S', '_', 'M', 'A', '_', 'R', 'E', 'S', 'E', 'L', 'L', 'E', 'R', '_', 'E', 'X', 'E', 'M', 'P', 'T', 'I', 'O', 'N'][3] != seq!['U', 'S', '_', 'L', 'A', '_', 'R', 'E', 'S', 'E', 'L', 'L', 'E', 'R', '_', 'E', 'X', 'E', 'M', 'P', 'T', 'I', 'O', 'N'][3]);
        },
        TaxExemption::US_MD_RESELLER_EXEMPTION => {
            assert(seq!['U', 'S', '_', 'M', 'D', '_', 'R', 'E', 'S', 'E', 'L', 'L', 'E', 'R', '_', 'E', 'X', 'E', 'M', 'P', 'T', 'I', 'O', 'N'][0] != seq!['C', 'A', '_', 'B', 'C', '_', 'R', 'E', 'S', 'E', 'L', 'L', 'E', 'R', '_', 'E', 'X', 'E', 'M', 'P', 'T', 'I', 'O', 'N'][0]);
            assert(seq!['U', 'S', '_', 'M', 'D', '_', 'R', 'E', 'S', 'E', 'L', 'L', 'E', 'R', '_', 'E', 'X', 'E', 'M', 'P', 'T', 'I', 'O', 'N'][0] != seq!['C', 'A', '_', 'M', 'B', '_', 'R', 'E', 'S', 'E', 'L', 'L', 'E', 'R', '_', 'E', 'X', 'E', 'M', 'P', 'T', 'I', 'O', 'N'][0]);
            assert(seq!['U', 'S', '_', 'M', 'D', '_', 'R', 'E', 'S', 'E', 'L', 'L', 'E', 'R', '_', 'E', 'X', 'E', 'M', 'P', 'T', 'I', 'O', 'N'][0] != seq!['C', 'A', '_', 'O', 'N', '_', 'P', 'U', 'R', 'C', 'H', 'A', 'S', 'E', '_', 'E', 'X', 'E', 'M', 'P', 'T', 'I', 'O', 'N'][0]);
            assert(seq!['U', 'S', '_', 'M', 'D', '_', 'R', 'E', 'S', 'E', 'L', 'L', 'E', 'R', '_', 'E', 'X', 'E', 'M', 'P', 'T', 'I', 'O', 'N'][0] != seq!['C', 'A', '_', 'S', 'K', '_', 'R', 'E', 'S', 'E', 'L', 'L', 'E', 'R', '_', 'E', 'X', 'E', 'M', 'P', 'T', 'I', 'O', 'N'][0]);
            assert(seq!['U', 'S', '_', 'M', 'D', '_', 'R', 'E', 'S', 'E', 'L', 'L', 'E', 'R', '_', 'E', 'X', 'E', 'M', 'P', 'T', 'I', 'O', 'N'][0] != seq!['C', 'A', '_', 'S', 'T', 'A', 'T', 'U', 'S', '_', 'C', 'A', 'R', 'D', '_', 'E', 'X', 'E', 'M', 'P', 'T', 'I', 'O', 'N'][0]);
            assert(seq!['U', 'S', '_', 'M', 'D', '_', 'R', 'E', 'S', 'E', 'L', 'L', 'E', 'R', '_', 'E', 'X', 'E', 'M', 'P', 'T', 'I', 'O', 'N'][3] != seq!['U', 'S', '_', 'A', 'K', '_', 'R', 'E', 'S', 'E', 'L', 'L', 'E', 'R', '_', 'E', 'X', 'E', 'M', 'P', 'T', 'I', 'O', 'N'][3]);
            assert(seq!['U', 'S', '_', 'M', 'D', '_', 'R', 'E', 'S', 'E', 'L', 'L', 'E', 'R', '_', 'E', 'X', 'E', 'M', 'P', 'T', 'I', 'O', 'N'][3] != seq!['U', 'S', '_', 'A', 'L', '_', 'R', 'E', 'S', 'E', 'L', 'L', 'E', 'R', '_', 'E', 'X', 'E', 'M', 'P', 'T', 'I', 'O', 'N'][3]);
            assert(seq!['U', 'S', '_', 'M', 'D', '_', 'R', 'E', 'S', 'E', 'L', 'L', 'E', 'R', '_', 'E', 'X', 'E', 'M', 'P', 'T', 'I', 'O', 'N'][3] != seq!['U', 'S', '_', 'A', 'R', '_', 'R', 'E', 'S', 'E', 'L', 'L', 'E', 'R', '_', 'E', 'X', 'E', 'M', 'P', 'T', 'I', 'O', 'N'][3]);
            assert(seq!['U', 'S', '_', 'M', 'D', '_', 'R', 'E', 'S', 'E', 'L', 'L', 'E', 'R', '_', 'E', 'X', 'E', 'M', 'P', 'T', 'I', 'O', 'N'][3] != seq!['U', 'S', '_', 'A', 'Z', '_', 'R', 'E', 'S', 'E', 'L', 'L', 'E', 'R', '_', 'E', 'X', 'E', 'M', 'P', 'T', 'I', 'O', 'N'][3]);
            assert(seq!['U', 'S', '_', 'M', 'D', '_', 'R', 'E', 'S', 'E', 'L', 'L', 'E', 'R', '_', 'E', 'X', 'E', 'M', 'P', 'T', 'I', 'O', 'N'][3] != seq!['U', 'S', '_', 'C', 'A', '_', 'R', 'E', 'S', 'E', 'L', 'L', 'E', 'R', '_', 'E', 'X', 'E', 'M', 'P', 'T', 'I', 'O', 'N'][3]);
            assert(seq!['U', 'S', '_', 'M', 'D', '_', 'R', 'E', 'S', 'E', 'L', 'L', 'E', 'R', '_', 'E', 'X', 'E', 'M', 'P', 'T', 'I', 'O', 'N'][3] != seq!['U', 'S', '_', 'C', 'O', '_', 'R', 'E', 'S', 'E', 'L', 'L', 'E', 'R', '_', 'E', 'X', 'E', 'M', 'P', 'T', 'I', 'O', 'N'][3]);
            assert(seq!['U', 'S', '_', 'M', 'D', '_', 'R', 'E', 'S', 'E', 'L', 'L', 'E', 'R', '_', 'E', 'X', 'E', 'M', 'P', 'T', 'I', 'O', 'N'][3] != seq!['U', 'S', '_', 'C', 'T', '_', 'R', 'E', 'S', 'E', 'L', 'L', 'E', 'R', '_', 'E', 'X', 'E', 'M', 'P', 'T', 'I', 'O', 'N'][3]);
            assert(seq!['U', 'S', '_', 'M', 'D', '_', 'R', 'E', 'S', 'E', 'L', 'L', 'E', 'R', '_', 'E', 'X', 'E', 'M', 'P', 'T', 'I', 'O', 'N'][3] != seq!['U', 'S', '_', 'D', 'C', '_', 'R', 'E', 'S', 'E', 'L', 'L', 'E', 'R', '_', 'E', 'X', 'E', 'M', 'P', 'T', 'I', 'O', 'N'][3]);
            assert(seq!['U', 'S', '_', 'M', 'D', '_', 'R', 'E', 'S', 'E', 'L', 'L', 'E', 'R', '_', 'E', 'X', 'E', 'M', 'P', 'T', 'I', 'O', 'N'][3] != seq!['U', 'S', '_', 'D', 'E', '_', 'R', 'E', 'S', 'E', 'L', 'L', 'E', 'R', '_', 'E', 'X', 'E', 'M', 'P', 'T', 'I', 'O', 'N'][3]);
            assert(seq!['U', 'S', '_', 'M', 'D', '_', 'R', 'E', 'S', 'E', 'L', 'L', 'E', 'R', '_', 'E', 'X', 'E', 'M', 'P', 'T', 'I', 'O', 'N'][3] != seq!['U', 'S', '_', 'F', 'L', '_', 'R', 'E', 'S', 'E', 'L', 'L', 'E', 'R', '_', 'E', 'X', 'E', 'M', 'P', 'T', 'I', 'O', 'N'][3]);
            assert(seq!['U', 'S', '_', 'M', 'D', '_', 'R', 'E', 'S', 'E', 'L', 'L', 'E', 'R', '_', 'E', 'X', 'E', 'M', 'P', 'T', 'I', 'O', 'N'][3] != seq!['U', 'S', '_', 'G', 'A', '_', 'R', 'E', 'S', 'E', 'L', 'L', 'E', 'R', '_', 'E', 'X', 'E', 'M', 'P', 'T', 'I', 'O', 'N'][3]);
            assert(seq!['U', 'S', '_', 'M', 'D', '_', 'R', 'E', 'S', 'E', 'L', 'L', 'E', 'R', '_', 'E', 'X', 'E', 'M', 'P', 'T', 'I', 'O', 'N'][3] != seq!['U', 'S', '_', 'H', 'I', '_', 'R', 'E', 'S', 'E', 'L', 'L', 'E', 'R', '_', 'E', 'X', 'E', 'M', 'P', 'T', 'I', 'O', 'N'][3]);
            assert(seq!['U', 'S', '_', 'M', 'D', '_', 'R', 'E', 'S', 'E', 'L', 'L', 'E', 'R', '_', 'E', 'X', 'E', 'M', 'P', 'T', 'I', 'O', 'N'][3] != seq!['U', 'S', '_', 'I', 'A', '_', 'R', 'E', 'S', 'E', 'L', 'L', 'E', 'R', '_', 'E', 'X', 'E', 'M', 'P', 'T', 'I', 'O', 'N'][3]);
            assert(seq!['U', 'S', '_', 'M', 'D', '_', 'R', 'E', 'S', 'E', 'L', 'L', 'E', 'R', '_', 'E', 'X', 'E', 'M', 'P', 'T', 'I', 'O', 'N'][3] != seq!['U', 'S', '_', 'I', 'D', '_', 'R', 'E', 'S', 'E', 'L', 'L', 'E', 'R', '_', 'E', 'X', 'E', 'M', 'P', 'T', 'I', 'O', 'N'][3]);
            assert(seq!['U', 'S', '_', 'M', 'D', '_', 'R', 'E', 'S', 'E', 'L', 'L', 'E', 'R', '_', 'E', 'X', 'E', 'M', 'P', 'T', 'I', 'O', 'N'][3] != seq!['U', 'S', '_', 'I', 'L', '_', 'R', 'E', 'S', 'E', 'L', 'L', 'E', 'R', '_', 'E', 'X', 'E', 'M', 'P', 'T', 'I', 'O', 'N'][3]);
            assert(seq!['U', 'S', '_', 'M', 'D', '_', 'R', 'E', 'S', 'E', 'L', 'L', 'E', 'R', '_', 'E', 'X', 'E', 'M', 'P', 'T', 'I', 'O', 'N'][3] != seq!['U', 'S', '_', 'I', 'N', '_', 'R', 'E', 'S', 'E', 'L', 'L', 'E', 'R', '_', 'E', 'X', 'E', 'M', 'P', 'T', 'I', 'O', 'N'][3]);
            assert(seq!['U', 'S', '_', 'M', 'D', '_', 'R', 'E', 'S', 'E', 'L', 'L', 'E', 'R', '_', 'E', 'X', 'E', 'M', 'P', 'T', 'I', 'O', 'N'][3] != seq!['U', 'S', '_', 'K', 'S', '_', 'R', 'E', 'S', 'E', 'L', 'L', 'E', 'R', '_', 'E', 'X', 'E', 'M', 'P', 'T', 'I', 'O', 'N'][3]);
            assert(seq!['U', 'S', '_', 'M', 'D', '_', 'R', 'E', 'S', 'E', 'L', 'L', 'E', 'R', '_', 'E', 'X', 'E', 'M', 'P', 'T', 'I', 'O', 'N'][3] != seq!['U', 'S', '_', 'K', 'Y', '_', 'R', 'E', 'S', 'E', 'L', 'L', 'E', 'R', '_', 'E', 'X', 'E', 'M', 'P', 'T', 'I', 'O', 'N'][3]);
            assert(seq!['U', 'S', '_', 'M', 'D', '_', 'R', 'E', 'S', 'E', 'L', 'L', 'E', 'R', '_', 'E', 'X', 'E', 'M', 'P', 'T', 'I', 'O', 'N'][3] != seq!['U', 'S', '_', 'L', 'A', '_', 'R', 'E', 'S', 'E', 'L', 'L', 'E', 'R', '_', 'E', 'X', 'E', 'M', 'P', 'T', 'I', 'O', 'N'][3]);
            assert(seq!['U', 'S', '_', 'M', 'D', '_', 'R', 'E', 'S', 'E', 'L', 'L', 'E', 'R', '_', 'E', 'X', 'E', 'M', 'P', 'T', 'I', 'O', 'N'][4] != seq!['U', 'S', '_', 'M', 'A', '_', 'R', 'E', 'S', 'E', 'L', 'L', 'E', 'R', '_', 'E', 'X', 'E', 'M', 'P', 'T', 'I', 'O', 'N'][4]);
        },
        TaxExemption::US_ME_RESELLER_EXEMPTION => {
            assert(seq!['U', 'S', '_', 'M', 'E', '_', 'R', 'E', 'S', 'E', 'L', 'L', 'E', 'R', '_', 'E', 'X', 'E', 'M', 'P', 'T', 'I', 'O', 'N'][0] != seq!['C', 'A', '_', 'B', 'C', '_', 'R', 'E', 'S', 'E', 'L', 'L', 'E', 'R', '_', 'E', 'X', 'E', 'M', 'P', 'T', 'I', 'O', 'N'][0]);
            assert(seq!['U', 'S', '_', 'M', 'E', '_', 'R', 'E', 'S', 'E', 'L', 'L', 'E', 'R', '_', 'E', 'X', 'E', 'M', 'P', 'T', 'I', 'O', 'N'][0] != seq!['C', 'A', '_', 'M', 'B', '_', 'R', 'E', 'S', 'E', 'L', 'L', 'E', 'R', '_', 'E', 'X', 'E', 'M', 'P', 'T', 'I', 'O', 'N'][0]);
            assert(seq!['U', 'S', '_', 'M', 'E', '_', 'R', 'E', 'S', 'E', 'L', 'L', 'E', 'R', '_', 'E', 'X', 'E', 'M', 'P', 'T', 'I', 'O', 'N'][0] != seq!['C', 'A', '_', 'O', 'N', '_', 'P', 'U', 'R', 'C', 'H', 'A', 'S', 'E', '_', 'E', 'X', 'E', 'M', 'P', 'T', 'I', 'O', 'N'][0]);
            assert(seq!['U', 'S', '_', 'M', 'E', '_', 'R', 'E', 'S', 'E', 'L', 'L', 'E', 'R', '_', 'E', 'X', 'E', 'M', 'P', 'T', 'I', 'O', 'N'][0] != seq!['C', 'A', '_', 'S', 'K', '_', 'R', 'E', 'S', 'E', 'L', 'L', 'E', 'R', '_', 'E', 'X', 'E', 'M', 'P', 'T', 'I', 'O', 'N'][0]);
            assert(seq!['U', 'S', '_', 'M', 'E', '_', 'R', 'E', 'S', 'E', 'L', 'L', 'E', 'R', '_', 'E', 'X', 'E', 'M', 'P', 'T', 'I', 'O', 'N'][0] != seq!['C', 'A', '_', 'S', 'T', 'A', 'T', 'U', 'S', '_', 'C', 'A', 'R', 'D', '_', 'E', 'X', 'E', 'M', 'P', 'T', 'I', 'O', 'N'][0]);
            assert(seq!['U', 'S', '_', 'M', 'E', '_', 'R', 'E', 'S', 'E', 'L', 'L', 'E', 'R', '_', 'E', 'X', 'E', 'M', 'P', 'T', 'I', 'O', 'N'][3] != seq!['U', 'S', '_', 'A', 'K', '_', 'R', 'E', 'S', 'E', 'L', 'L', 'E', 'R', '_', 'E', 'X', 'E', 'M', 'P', 'T', 'I', 'O', 'N'][3]);
            assert(seq!['U', 'S', '_', 'M', 'E', '_', 'R', 'E', 'S', 'E', 'L', 'L', 'E', 'R', '_', 'E', 'X', 'E', 'M', 'P', 'T', 'I', 'O', 'N'][3] != seq!['U', 'S', '_', 'A', 'L', '_', 'R', 'E', 'S', 'E', 'L', 'L', 'E', 'R', '_', 'E', 'X', 'E', 'M', 'P', 'T', 'I', 'O', 'N'][3]);
            assert(seq!['U', 'S', '_', 'M', 'E', '_', 'R', 'E', 'S', 'E', 'L', 'L', 'E', 'R', '_', 'E', 'X', 'E', 'M', 'P', 'T', 'I', 'O', 'N'][3] != seq!['U', 'S', '_', 'A', 'R', '_', 'R', 'E', 'S', 'E', 'L', 'L', 'E', 'R', '_', 'E', 'X', 'E', 'M', 'P', 'T', 'I', 'O', 'N'][3]);
            assert(seq!['U', 'S', '_', 'M', 'E', '_', 'R', 'E', 'S', 'E', 'L', 'L', 'E', 'R', '_', 'E', 'X', 'E', 'M', 'P', 'T', 'I', 'O', 'N'][3] != seq!['U', 'S', '_', 'A', 'Z', '_', 'R', 'E', 'S', 'E', 'L', 'L', 'E', 'R', '_', 'E', 'X', 'E', 'M', 'P', 'T', 'I', 'O', 'N'][3]);
            assert(seq!['U', 'S', '_', 'M', 'E', '_', 'R', 'E', 'S', 'E', 'L', 'L', 'E', 'R', '_', 'E', 'X', 'E', 'M', 'P', 'T', 'I', 'O', 'N'][3] != seq!['U', 'S', '_', 'C', 'A', '_', 'R', 'E', 'S', 'E', 'L', 'L', 'E', 'R', '_', 'E', 'X', 'E', 'M', 'P', 'T', 'I', 'O', 'N'][3]);
            assert(seq!['U', 'S', '_', 'M', 'E', '_', 'R', 'E', 'S', 'E', 'L', 'L', 'E', 'R', '_', 'E', 'X', 'E', 'M', 'P', 'T', 'I', 'O', 'N'][3] != seq!['U', 'S', '_', 'C', 'O', '_', 'R', 'E', 'S', 'E', 'L', 'L', 'E', 'R', '_', 'E', 'X', 'E', 'M', 'P', 'T', 'I', 'O', 'N'][3]);
            assert(seq!['U', 'S', '_', 'M', 'E', '_', 'R', 'E', 'S', 'E', 'L', 'L', 'E', 'R', '_', 'E', 'X', 'E', 'M', 'P', 'T', 'I', 'O', 'N'][3] != seq!['U', 'S', '_', 'C', 'T', '_', 'R', 'E', 'S', 'E', 'L', 'L', 'E', 'R', '_', 'E', 'X', 'E', 'M', 'P', 'T', 'I', 'O', 'N'][3]);
            assert(seq!['U', 'S', '_', 'M', 'E', '_', 'R', 'E', 'S', 'E', 'L', 'L', 'E', 'R', '_', 'E', 'X', 'E', 'M', 'P', 'T', 'I', 'O', 'N'][3] != seq!['U', 'S', '_', 'D', 'C', '_', 'R', 'E', 'S', 'E', 'L', 'L', 'E', 'R', '_', 'E', 'X', 'E', 'M', 'P', 'T', 'I', 'O', 'N'][3]);
            assert(seq!['U', 'S', '_', 'M', 'E', '_', 'R', 'E', 'S', 'E', 'L', 'L', 'E', 'R', '_', 'E', 'X', 'E', 'M', 'P', 'T', 'I', 'O', 'N'][3] != seq!['U', 'S', '_', 'D', 'E', '_', 'R', 'E', 'S', 'E', 'L', 'L', 'E', 'R', '_', 'E', 'X', 'E', 'M', 'P', 'T', 'I', 'O', 'N'][3]);
            assert(seq!['U', 'S', '_', 'M', 'E', '_', 'R', 'E', 'S', 'E', 'L', 'L', 'E', 'R', '_', 'E', 'X', 'E', 'M', 'P', 'T', 'I', 'O', 'N'][3] != seq!['U', 'S', '_', 'F', 'L', '_', 'R', 'E', 'S', 'E', 'L', 'L', 'E', 'R', '_', 'E', 'X', 'E', 'M', 'P', 'T', 'I', 'O', 'N'][3]);
            assert(seq!['U', 'S', '_', 'M', 'E', '_', 'R', 'E', 'S', 'E', 'L', 'L', 'E', 'R', '_', 'E', 'X', 'E', 'M', 'P', 'T', 'I', 'O', 'N'][3] != seq!['U', 'S', '_', 'G', 'A', '_', 'R', 'E', 'S', 'E', 'L', 'L', 'E', 'R', '_', 'E', 'X', 'E', 'M', 'P', 'T', 'I', 'O', 'N'][3]);
            assert(seq!['U', 'S', '_', 'M', 'E', '_', 'R', 'E', 'S', 'E', 'L', 'L', 'E', 'R', '_', 'E', 'X', 'E', 'M', 'P', 'T', 'I', 'O', 'N'][3] != seq!['U', 'S', '_', 'H', 'I', '_', 'R', 'E', 'S', 'E', 'L', 'L', 'E', 'R', '_', 'E', 'X', 'E', 'M', 'P', 'T', 'I', 'O', 'N'][3]);
            assert(seq!['U', 'S', '_', 'M', 'E', '_', 'R', 'E', 'S', 'E', 'L', 'L', 'E', 'R', '_', 'E', 'X', 'E', 'M', 'P', 'T', 'I', 'O', 'N'][3] != seq!['U', 'S', '_', 'I', 'A', '_', 'R', 'E', 'S', 'E', 'L', 'L', 'E', 'R', '_', 'E', 'X', 'E', 'M', 'P', 'T', 'I', 'O', 'N'][3]);
            assert(seq!['U', 'S', '_', 'M', 'E', '_', 'R', 'E', 'S', 'E', 'L', 'L', 'E', 'R', '_', 'E', 'X', 'E', 'M', 'P', 'T', 'I', 'O', 'N'][3] != seq!['U', 'S', '_', 'I', 'D', '_', 'R', 'E', 'S', 'E', 'L', 'L', 'E', 'R', '_', 'E', 'X', 'E', 'M', 'P', 'T', 'I', 'O', 'N'][3]);
            assert(seq!['U', 'S', '_', 'M', 'E', '_', 'R', 'E', 'S', 'E', 'L', 'L', 'E', 'R', '_', 'E', 'X', 'E', 'M', 'P', 'T', 'I', 'O', 'N'][3] != seq!['U', 'S', '_', 'I', 'L', '_', 'R', 'E', 'S', 'E', 'L', 'L', 'E', 'R', '_', 'E', 'X', 'E', 'M', 'P', 'T', 'I', 'O', 'N'][3]);
            assert(seq!['U', 'S', '_', 'M', 'E', '_', 'R', 'E', 'S', 'E', 'L', 'L', 'E', 'R', '_', 'E', 'X', 'E', 'M', 'P', 'T', 'I', 'O', 'N'][3] != seq!['U', 'S', '_', 'I', 'N', '_', 'R', 'E', 'S', 'E', 'L', 'L', 'E', 'R', '_', 'E', 'X', 'E', 'M', 'P', 'T', 'I', 'O', 'N'][3]);
            assert(seq!['U', 'S', '_', 'M', 'E', '_', 'R', 'E', 'S', 'E', 'L', 'L', 'E', 'R', '_', 'E', 'X', 'E', 'M', 'P', 'T', 'I', 'O', 'N'][3] != seq!['U', 'S', '_', 'K', 'S', '_', 'R', 'E', 'S', 'E', 'L', 'L', 'E', 'R', '_', 'E', 'X', 'E', 'M', 'P', 'T', 'I', 'O', 'N'][3]);
            assert(seq!['U', 'S', '_', 'M', 'E', '_', 'R', 'E', 'S', 'E', 'L', 'L', 'E', 'R', '_', 'E', 'X', 'E', 'M', 'P', 'T', 'I', 'O', 'N'][3] != seq!['U', 'S', '_', 'K', 'Y', '_', 'R', 'E', 'S', 'E', 'L', 'L', 'E', 'R', '_', 'E', 'X', 'E', 'M', 'P', 'T', 'I', 'O', 'N'][3]);
            assert(seq!['U', 'S', '_', 'M', 'E', '_', 'R', 'E', 'S', 'E', 'L', 'L', 'E', 'R', '_', 'E', 'X', 'E', 'M', 'P', 'T', 'I', 'O', 'N'][3] != seq!['U', 'S', '_', 'L', 'A', '_', 'R', 'E', 'S', 'E', 'L', 'L', 'E', 'R', '_', 'E', 'X', 'E', 'M', 'P', 'T', 'I', 'O', 'N'][3]);
            assert(seq!['U', 'S', '_', 'M', 'E', '_', 'R', 'E', 'S', 'E', 'L', 'L', 'E', 'R', '_', 'E', 'X', 'E', 'M', 'P', 'T', 'I', 'O', 'N'][4] != seq!['U', 'S', '_', 'M', 'A', '_', 'R', 'E', 'S', 'E', 'L', 'L', 'E', 'R', '_', 'E', 'X', 'E', 'M', 'P', 'T', 'I', 'O', 'N'][4]);
            assert(seq!['U', 'S', '_', 'M', 'E', '_', 'R', 'E', 'S', 'E', 'L', 'L', 'E', 'R', '_', 'E', 'X', 'E', 'M', 'P', 'T', 'I', 'O', 'N'][4] != seq!['U', 'S', '_', 'M', 'D', '_', 'R', 'E', 'S', 'E', 'L', 'L', 'E', 'R', '_', 'E', 'X', 'E', 'M', 'P', 'T', 'I', 'O', 'N'][4]);
        },
        TaxExemption::US_MI_RESELLER_EXEMPTION => {
            assert(seq!['U', 'S', '_', 'M', 'I', '_', 'R', 'E', 'S', 'E', 'L', 'L', 'E', 'R', '_', 'E', 'X', 'E', 'M', 'P', 'T', 'I', 'O', 'N'][0] != seq!['C', 'A', '_', 'B', 'C', '_', 'R', 'E', 'S', 'E', 'L', 'L', 'E', 'R', '_', 'E', 'X', 'E', 'M', 'P', 'T', 'I', 'O', 'N'][0]);
            assert(seq!['U', 'S', '_', 'M', 'I', '_', 'R', 'E', 'S', 'E', 'L', 'L', 'E', 'R', '_', 'E', 'X', 'E', 'M', 'P', 'T', 'I', 'O', 'N'][0] != seq!['C', 'A', '_', 'M', 'B', '_', 'R', 'E', 'S', 'E', 'L', 'L', 'E', 'R', '_', 'E', 'X', 'E', 'M', 'P', 'T', 'I', 'O', 'N'][0]);
            assert(seq!['U', 'S', '_', 'M', 'I', '_', 'R', 'E', 'S', 'E', 'L', 'L', 'E', 'R', '_', 'E', 'X', 'E', 'M', 'P', 'T', 'I', 'O', 'N'][0] != seq!['C', 'A', '_', 'O', 'N', '_', 'P', 'U', 'R', 'C', 'H', 'A', 'S', 'E', '_', 'E', 'X', 'E', 'M', 'P', 'T', 'I', 'O', 'N'][0]);
            assert(seq!['U', 'S', '_', 'M', 'I', '_', 'R', 'E', 'S', 'E', 'L', 'L', 'E', 'R', '_', 'E', 'X', 'E', 'M', 'P', 'T', 'I', 'O', 'N'][0] != seq!['C', 'A', '_', 'S', 'K', '_', 'R', 'E', 'S', 'E', 'L', 'L', 'E', 'R', '_', 'E', 'X', 'E', 'M', 'P', 'T', 'I', 'O', 'N'][0]);
            assert(seq!['U', 'S', '_', 'M', 'I', '_', 'R', 'E', 'S', 'E', 'L', 'L', 'E', 'R', '_', 'E', 'X', 'E', 'M', 'P', 'T', 'I', 'O', 'N'][0] != seq!['C', 'A', '_', 'S', 'T', 'A', 'T', 'U', 'S', '_', 'C', 'A', 'R', 'D', '_', 'E', 'X', 'E', 'M', 'P', 'T', 'I', 'O', 'N'][0]);
            assert(seq!['U', 'S', '_', 'M', 'I', '_', 'R', 'E', 'S', 'E', 'L', 'L', 'E', 'R', '_', 'E', 'X', 'E', 'M', 'P', 'T', 'I', 'O', 'N'][3] != seq!['U', 'S', '_', 'A', 'K', '_', 'R', 'E', 'S', 'E', 'L', 'L', 'E', 'R', '_', 'E', 'X', 'E', 'M', 'P', 'T', 'I', 'O', 'N'][3]);
            assert(seq!['U', 'S', '_', 'M', 'I', '_', 'R', 'E', 'S', 'E', 'L', 'L', 'E', 'R', '_', 'E', 'X', 'E', 'M', 'P', 'T', 'I', 'O', 'N'][3] != seq!['U', 'S', '_', 'A', 'L', '_', 'R', 'E', 'S', 'E', 'L', 'L', 'E', 'R', '_', 'E', 'X', 'E', 'M', 'P', 'T', 'I', 'O', 'N'][3]);
            assert(seq!['U', 'S', '_', 'M', 'I', '_', 'R', 'E', 'S', 'E', 'L', 'L', 'E', 'R', '_', 'E', 'X', 'E', 'M', 'P', 'T', 'I', 'O', 'N'][3] != seq!['U', 'S', '_', 'A', 'R', '_', 'R', 'E', 'S', 'E', 'L', 'L', 'E', 'R', '_', 'E', 'X', 'E', 'M', 'P', 'T', 'I', 'O', 'N'][3]);
            assert(seq!['U', 'S', '_', 'M', 'I', '_', 'R', 'E', 'S', 'E', 'L', 'L', 'E', 'R', '_', 'E', 'X', 'E', 'M', 'P', 'T', 'I', 'O', 'N'][3] != seq!['U', 'S', '_', 'A', 'Z', '_', 'R', 'E', 'S', 'E', 'L', 'L', 'E', 'R', '_', 'E', 'X', 'E', 'M', 'P', 'T', 'I', 'O', 'N'][3]);
            assert(seq!['U', 'S', '_', 'M', 'I', '_', 'R', 'E', 'S', 'E', 'L', 'L', 'E', 'R', '_', 'E', 'X', 'E', 'M', 'P', 'T', 'I', 'O', 'N'][3] != seq!['U', 'S', '_', 'C', 'A', '_', 'R', 'E', 'S', 'E', 'L', 'L', 'E', 'R', '_', 'E', 'X', 'E', 'M', 'P', 'T', 'I', 'O', 'N'][3]);
            assert(seq!['U', 'S', '_', 'M', 'I', '_', 'R', 'E', 'S', 'E', 'L', 'L', 'E', 'R', '_', 'E', 'X', 'E', 'M', 'P', 'T', 'I', 'O', 'N'][3] != seq!['U', 'S', '_', 'C', 'O', '_', 'R', 'E', 'S', 'E', 'L', 'L', 'E', 'R', '_', 'E', 'X', 'E', 'M', 'P', 'T', 'I', 'O', 'N'][3]);
            assert(seq!['U', 'S', '_', 'M', 'I', '_', 'R', 'E', 'S', 'E', 'L', 'L', 'E', 'R', '_', 'E', 'X', 'E', 'M', 'P', 'T', 'I', 'O', 'N'][3] != seq!['U', 'S', '_', 'C', 'T', '_', 'R', 'E', 'S', 'E', 'L', 'L', 'E', 'R', '_', 'E', 'X', 'E', 'M', 'P', 'T', 'I', 'O', 'N'][3]);
            assert(seq!['U', 'S', '_', 'M', 'I', '_', 'R', 'E', 'S', 'E', 'L', 'L', 'E', 'R', '_', 'E', 'X', 'E', 'M', 'P', 'T', 'I', 'O', 'N'][3] != seq!['U', 'S', '_', 'D', 'C', '_', 'R', 'E', 'S', 'E', 'L', 'L', 'E', 'R', '_', 'E', 'X', 'E', 'M', 'P', 'T', 'I', 'O', 'N'][3]);
            assert(seq!['U', 'S', '_', 'M', 'I', '_', 'R', 'E', 'S', 'E', 'L', 'L', 'E', 'R', '_', 'E', 'X', 'E', 'M', 'P', 'T', 'I', 'O', 'N'][3] != seq!['U', 'S', '_', 'D', 'E', '_', 'R', 'E', 'S', 'E', 'L', 'L', 'E', 'R', '_', 'E', 'X', 'E', 'M', 'P', 'T', 'I', 'O', 'N'][3]);
            assert(seq!['U', 'S', '_', 'M', 'I', '_', 'R', 'E', 'S', 'E', 'L', 'L', 'E', 'R', '_', 'E', 'X', 'E', 'M', 'P', 'T', 'I', 'O', 'N'][3] != seq!['U', 'S', '_', 'F', 'L', '_', 'R', 'E', 'S', 'E', 'L', 'L', 'E', 'R', '_', 'E', 'X', 'E', 'M', 'P', 'T', 'I', 'O', 'N'][3]);
            assert(seq!['U', 'S', '_', 'M', 'I', '_', 'R', 'E', 'S', 'E', 'L', 'L', 'E', 'R', '_', 'E', 'X', 'E', 'M', 'P', 'T', 'I', 'O', 'N'][3] != seq!['U', 'S', '_', 'G', 'A', '_', 'R', 'E', 'S', 'E', 'L', 'L', 'E', 'R', '_', 'E', 'X', 'E', 'M', 'P', 'T', 'I', 'O', 'N'][3]);
            assert(seq!['U', 'S', '_', 'M', 'I', '_', 'R', 'E', 'S', 'E', 'L', 'L', 'E', 'R', '_', 'E', 'X', 'E', 'M', 'P', 'T', 'I', 'O', 'N'][3] != seq!['U', 'S', '_', 'H', 'I', '_', 'R', 'E', 'S', 'E', 'L', 'L', 'E', 'R', '_', 'E', 'X', 'E', 'M', 'P', 'T', 'I', 'O', 'N'][3]);
            assert(seq!['U', 'S', '_', 'M', 'I', '_', 'R', 'E', 'S', 'E', 'L', 'L', 'E', 'R', '_', 'E', 'X', 'E', 'M', 'P', 'T', 'I', 'O', 'N'][3] != seq!['U', 'S', '_', 'I', 'A', '_', 'R', 'E', 'S', 'E', 'L', 'L', 'E', 'R', '_', 'E', 'X', 'E', 'M', 'P', 'T', 'I', 'O', 'N'][3]);
            assert(seq!['U', 'S', '_', 'M', 'I', '_', 'R', 'E', 'S', 'E', 'L', 'L', 'E', 'R', '_', 'E', 'X', 'E', 'M', 'P', 'T', 'I', 'O', 'N'][3] != seq!['U', 'S', '_', 'I', 'D', '_', 'R', 'E', 'S', 'E', 'L', 'L', 'E', 'R', '_', 'E', 'X', 'E', 'M', 'P', 'T', 'I', 'O', 'N'][3]);
            assert(seq!['U', 'S', '_', 'M', 'I', '_', 'R', 'E', 'S', 'E', 'L', 'L', 'E', 'R', '_', 'E', 'X', 'E', 'M', 'P', 'T', 'I', 'O', 'N'][3] != seq!['U', 'S', '_', 'I', 'L', '_', 'R', 'E', 'S', 'E', 'L', 'L', 'E', 'R', '_', 'E', 'X', 'E', 'M', 'P', 'T', 'I', 'O', 'N'][3]);
            assert(seq!['U', 'S', '_', 'M', 'I', '_', 'R', 'E', 'S', 'E', 'L', 'L', 'E', 'R', '_', 'E', 'X', 'E', 'M', 'P', 'T', 'I', 'O', 'N'][3] != seq!['U', 'S', '_', 'I', 'N', '_', 'R', 'E', 'S', 'E', 'L', 'L', 'E', 'R', '_', 'E', 'X', 'E', 'M', 'P', 'T', 'I', 'O', 'N'][3]);
            assert(seq!['U', 'S', '_', 'M', 'I', '_', 'R', 'E', 'S', 'E', 'L', 'L', 'E', 'R', '_', 'E', 'X', 'E', 'M', 'P', 'T', 'I', 'O', 'N'][3] != seq!['U', 'S', '_', 'K', 'S', '_', 'R', 'E', 'S', 'E', 'L', 'L', 'E', 'R', '_', 'E', 'X', 'E', 'M', 'P', 'T', 'I', 'O', 'N'][3]);
            assert(seq!['U', 'S', '_', 'M', 'I', '_', 'R', 'E', 'S', 'E', 'L', 'L', 'E', 'R', '_', 'E', 'X', 'E', 'M', 'P', 'T', 'I', 'O', 'N'][3] != seq!['U', 'S', '_', 'K', 'Y', '_', 'R', 'E', 'S', 'E', 'L', 'L', 'E', 'R', '_', 'E', 'X', 'E', 'M', 'P', 'T', 'I', 'O', 'N'][3]);
            assert(seq!['U', 'S', '_', 'M', 'I', '_', 'R', 'E', 'S', 'E', 'L', 'L', 'E', 'R', '_', 'E', 'X', 'E', 'M', 'P', 'T', 'I', 'O', 'N'][3] != seq!['U', 'S', '_', 'L', 'A', '_', 'R', 'E', 'S', 'E', 'L', 'L', 'E', 'R', '_', 'E', 'X', 'E', 'M', 'P', 'T', 'I', 'O', 'N'][3]);
            assert(seq!['U', 'S', '_', 'M', 'I', '_', 'R', 'E', 'S', 'E', 'L', 'L', 'E', 'R', '_', 'E', 'X', 'E', 'M', 'P', 'T', 'I', 'O', 'N'][4] != seq!['U', 'S', '_', 'M', 'A', '_', 'R', 'E', 'S', 'E', 'L', 'L', 'E', 'R', '_', 'E', 'X', 'E', 'M', 'P', 'T', 'I', 'O', 'N'][4]);
            assert(seq!['U', 'S', '_', 'M', 'I', '_', 'R', 'E', 'S', 'E', 'L', 'L', 'E', 'R', '_', 'E', 'X', 'E', 'M', 'P', 'T', 'I', 'O', 'N'][4] != seq!['U', 'S', '_', 'M', 'D', '_', 'R', 'E', 'S', 'E', 'L', 'L', 'E', 'R', '_', 'E', 'X', 'E', 'M', 'P', 'T', 'I', 'O', 'N'][4]);
            assert(seq!['U', 'S', '_', 'M', 'I', '_', 'R', 'E', 'S', 'E', 'L', 'L', 'E', 'R', '_', 'E', 'X', 'E', 'M', 'P', 'T', 'I', 'O', 'N'][4] != seq!['U', 'S', '_', 'M', 'E', '_', 'R', 'E', 'S', 'E', 'L', 'L', 'E', 'R', '_', 'E', 'X', 'E', 'M', 'P', 'T', 'I', 'O', 'N'][4]);
        },
        TaxExemption::US_MN_RESELLER_EXEMPTION => {
            assert(seq!['U', 'S', '_', 'M', 'N', '_', 'R', 'E', 'S', 'E', 'L', 'L', 'E', 'R', '_', 'E', 'X', 'E', 'M', 'P', 'T', 'I', 'O', 'N'][0] != seq!['C', 'A', '_', 'B', 'C', '_', 'R', 'E', 'S', 'E', 'L', 'L', 'E', 'R', '_', 'E', 'X', 'E', 'M', 'P', 'T', 'I', 'O', 'N'][0]);
            assert(seq!['U', 'S', '_', 'M', 'N', '_', 'R', 'E', 'S', 'E', 'L', 'L', 'E', 'R', '_', 'E', 'X', 'E', 'M', 'P', 'T', 'I', 'O', 'N'][0] != seq!['C', 'A', '_', 'M', 'B', '_', 'R', 'E', 'S', 'E', 'L', 'L', 'E', 'R', '_', 'E', 'X', 'E', 'M', 'P', 'T', 'I', 'O', 'N'][0]);
            assert(seq!['U', 'S', '_', 'M', 'N', '_', 'R', 'E', 'S', 'E', 'L', 'L', 'E', 'R', '_', 'E', 'X', 'E', 'M', 'P', 'T', 'I', 'O', 'N'][0] != seq!['C', 'A', '_', 'O', 'N', '_', 'P', 'U', 'R', 'C', 'H', 'A', 'S', 'E', '_', 'E', 'X', 'E', 'M', 'P', 'T', 'I', 'O', 'N'][0]);
            assert(seq!['U', 'S', '_', 'M', 'N', '_', 'R', 'E', 'S', 'E', 'L', 'L', 'E', 'R', '_', 'E', 'X', 'E', 'M', 'P', 'T', 'I', 'O', 'N'][0] != seq!['C', 'A', '_', 'S', 'K', '_', 'R', 'E', 'S', 'E', 'L', 'L', 'E', 'R', '_', 'E', 'X', 'E', 'M', 'P', 'T', 'I', 'O', 'N'][0]);
            assert(seq!['U', 'S', '_', 'M', 'N', '_', 'R', 'E', 'S', 'E', 'L', 'L', 'E', 'R', '_', 'E', 'X', 'E', 'M', 'P', 'T', 'I', 'O', 'N'][0] != seq!['C', 'A', '_', 'S', 'T', 'A', 'T', 'U', 'S', '_', 'C', 'A', 'R', 'D', '_', 'E', 'X', 'E', 'M', 'P', 'T', 'I', 'O', 'N'][0]);
            assert(seq!['U', 'S', '_', 'M', 'N', '_', 'R', 'E', 'S', 'E', 'L', 'L', 'E', 'R', '_', 'E', 'X', 'E', 'M', 'P', 'T', 'I', 'O', 'N'][3] != seq!['U', 'S', '_', 'A', 'K', '_', 'R', 'E', 'S', 'E', 'L', 'L', 'E', 'R', '_', 'E', 'X', 'E', 'M', 'P', 'T', 'I', 'O', 'N'][3]);
            assert(seq!['U', 'S', '_', 'M', 'N', '_', 'R', 'E', 'S', 'E', 'L', 'L', 'E', 'R', '_', 'E', 'X', 'E', 'M', 'P', 'T', 'I', 'O', 'N'][3] != seq!['U', 'S', '_', 'A', 'L', '_', 'R', 'E', 'S', 'E', 'L', 'L', 'E', 'R', '_', 'E', 'X', 'E', 'M', 'P', 'T', 'I', 'O', 'N'][3]);
            assert(seq!['U', 'S', '_', 'M', 'N', '_', 'R', 'E', 'S', 'E', 'L', 'L', 'E', 'R', '_', 'E', 'X', 'E', 'M', 'P', 'T', 'I', 'O', 'N'][3] != seq!['U', 'S', '_', 'A', 'R', '_', 'R', 'E', 'S', 'E', 'L', 'L', 'E', 'R', '_', 'E', 'X', 'E', 'M', 'P', 'T', 'I', 'O', 'N'][3]);
            assert(seq!['U', 'S', '_', 'M', 'N', '_', 'R', 'E', 'S', 'E', 'L', 'L', 'E', 'R', '_', 'E', 'X', 'E', 'M', 'P', 'T', 'I', 'O', 'N'][3] != seq!['U', 'S', '_', 'A', 'Z', '_', 'R', 'E', 'S', 'E', 'L', 'L', 'E', 'R', '_', 'E', 'X', 'E', 'M', 'P', 'T', 'I', 'O', 'N'][3]);
            assert(seq!['U', 'S', '_', 'M', 'N', '_', 'R', 'E', 'S', 'E', 'L', 'L', 'E', 'R', '_', 'E', 'X', 'E', 'M', 'P', 'T', 'I', 'O', 'N'][3] != seq!['U', 'S', '_', 'C', 'A', '_', 'R', 'E', 'S', 'E', 'L', 'L', 'E', 'R', '_', 'E', 'X', 'E', 'M', 'P', 'T', 'I', 'O', 'N'][3]);
            assert(seq!['U', 'S', '_', 'M', 'N', '_', 'R', 'E', 'S', 'E', 'L', 'L', 'E', 'R', '_', 'E', 'X', 'E', 'M', 'P', 'T', 'I', 'O', 'N'][3] != seq!['U', 'S', '_', 'C', 'O', '_', 'R', 'E', 'S', 'E', 'L', 'L', 'E', 'R', '_', 'E', 'X', 'E', 'M', 'P', 'T', 'I', 'O', 'N'][3]);
            assert(seq!['U', 'S', '_', 'M', 'N', '_', 'R', 'E', 'S', 'E', 'L', 'L', 'E', 'R', '_', 'E', 'X', 'E', 'M', 'P', 'T', 'I', 'O', 'N'][3] != seq!['U', 'S', '_', 'C', 'T', '_', 'R', 'E', 'S', 'E', 'L', 'L', 'E', 'R', '_', 'E', 'X', 'E', 'M', 'P', 'T', 'I', 'O', 'N'][3]);
            assert(seq!['U', 'S', '_', 'M', 'N', '_', 'R', 'E', 'S', 'E', 'L', 'L', 'E', 'R', '_', 'E', 'X', 'E', 'M', 'P', 'T', 'I', 'O', 'N'][3] != seq!['U', 'S', '_', 'D', 'C', '_', 'R', 'E', 'S', 'E', 'L', 'L', 'E', 'R', '_', 'E', 'X', 'E', 'M', 'P', 'T', 'I', 'O', 'N'][3]);
            assert(seq!['U', 'S', '_', 'M', 'N', '_', 'R', 'E', 'S', 'E', 'L', 'L', 'E', 'R', '_', 'E', 'X', 'E', 'M', 'P', 'T', 'I', 'O', 'N'][3] != seq!['U', 'S', '_', 'D', 'E', '_', 'R', 'E', 'S', 'E', 'L', 'L', 'E', 'R', '_', 'E', 'X', 'E', 'M', 'P', 'T', 'I', 'O', 'N'][3]);
            assert(seq!['U', 'S', '_', 'M', 'N', '_', 'R', 'E', 'S', 'E', 'L', 'L', 'E', 'R', '_', 'E', 'X', 'E', 'M', 'P', 'T', 'I', 'O', 'N'][3] != seq!['U', 'S', '_', 'F', 'L', '_', 'R', 'E', 'S', 'E', 'L', 'L', 'E', 'R', '_', 'E', 'X', 'E', 'M', 'P', 'T', 'I', 'O', 'N'][3]);
            assert(seq!['U', 'S', '_', 'M', 'N', '_', 'R', 'E', 'S', 'E', 'L', 'L', 'E', 'R', '_', 'E', 'X', 'E', 'M', 'P', 'T', 'I', 'O', 'N'][3] != seq!['U', 'S', '_', 'G', 'A', '_', 'R', 'E', 'S', 'E', 'L', 'L', 'E', 'R', '_', 'E', 'X', 'E', 'M', 'P', 'T', 'I', 'O', 'N'][3]);
            assert(seq!['U', 'S', '_', 'M', 'N', '_', 'R', 'E', 'S', 'E', 'L', 'L', 'E', 'R', '_', 'E', 'X', 'E', 'M', 'P', 'T', 'I', 'O', 'N'][3] != seq!['U', 'S', '_', 'H', 'I', '_', 'R', 'E', 'S', 'E', 'L', 'L', 'E', 'R', '_', 'E', 'X', 'E', 'M', 'P', 'T', 'I', 'O', 'N'][3]);
            assert(seq!['U', 'S', '_', 'M', 'N', '_', 'R', 'E', 'S', 'E', 'L', 'L', 'E', 'R', '_', 'E', 'X', 'E', 'M', 'P', 'T', 'I', 'O', 'N'][3] != seq!['U', 'S', '_', 'I', 'A', '_', 'R', 'E', 'S', 'E', 'L', 'L', 'E', 'R', '_', 'E', 'X', 'E', 'M', 'P', 'T', 'I', 'O', 'N'][3]);
            assert(seq!['U', 'S', '_', 'M', 'N', '_', 'R', 'E', 'S', 'E', 'L', 'L', 'E', 'R', '_', 'E', 'X', 'E', 'M', 'P', 'T', 'I', 'O', 'N'][3] != seq!['U', 'S', '_', 'I', 'D', '_', 'R', 'E', 'S', 'E', 'L', 'L', 'E', 'R', '_', 'E', 'X', 'E', 'M', 'P', 'T', 'I', 'O', 'N'][3]);
            assert(seq!['U', 'S', '_', 'M', 'N', '_', 'R', 'E', 'S', 'E', 'L', 'L', 'E', 'R', '_', 'E', 'X', 'E', 'M', 'P', 'T', 'I', 'O', 'N'][3] != seq!['U', 'S', '_', 'I', 'L', '_', 'R', 'E', 'S', 'E', 'L', 'L', 'E', 'R', '_', 'E', 'X', 'E', 'M', 'P', 'T', 'I', 'O', 'N'][3]);
            assert(seq!['U', 'S', '_', 'M', 'N', '_', 'R', 'E', 'S', 'E', 'L', 'L', 'E', 'R', '_', 'E', 'X', 'E', 'M', 'P', 'T', 'I', 'O', 'N'][3] != seq!['U', 'S', '_', 'I', 'N', '_', 'R', 'E', 'S', 'E', 'L', 'L', 'E', 'R', '_', 'E', 'X', 'E', 'M', 'P', 'T', 'I', 'O', 'N'][3]);
            assert(seq!['U', 'S', '_', 'M', 'N', '_', 'R', 'E', 'S', 'E', 'L', 'L', 'E', 'R', '_', 'E', 'X', 'E', 'M', 'P', 'T', 'I', 'O', 'N'][3] != seq!['U', 'S', '_', 'K', 'S', '_', 'R', 'E', 'S', 'E', 'L', 'L', 'E', 'R', '_', 'E', 'X', 'E', 'M', 'P', 'T', 'I', 'O', 'N'][3]);
            assert(seq!['U', 'S', '_', 'M', 'N', '_', 'R', 'E', 'S', 'E', 'L', 'L', 'E', 'R', '_', 'E', 'X', 'E', 'M', 'P', 'T', 'I', 'O', 'N'][3] != seq!['U', 'S', '_', 'K', 'Y', '_', 'R', 'E', 'S', 'E', 'L', 'L', 'E', 'R', '_', 'E', 'X', 'E', 'M', 'P', 'T', 'I', 'O', 'N'][3]);
            assert(seq!['U', 'S', '_', 'M', 'N', '_', 'R', 'E', 'S', 'E', 'L', 'L', 'E', 'R', '_', 'E', 'X', 'E', 'M', 'P', 'T', 'I', 'O', 'N'][3] != seq!['U', 'S', '_', 'L', 'A', '_', 'R', 'E', 'S', 'E', 'L', 'L', 'E', 'R', '_', 'E', 'X', 'E', 'M', 'P', 'T', 'I', 'O', 'N'][3]);
            assert(seq!['U', 'S', '_', 'M', 'N', '_', 'R', 'E', 'S', 'E', 'L', 'L', 'E', 'R', '_', 'E', 'X', 'E', 'M', 'P', 'T', 'I', 'O', 'N'][4] != seq!['U', 'S', '_', 'M', 'A', '_', 'R', 'E', 'S', 'E', 'L', 'L', 'E', 'R', '_', 'E', 'X', 'E', 'M', 'P', 'T', 'I', 'O', 'N'][4]);
            assert(seq!['U', 'S', '_', 'M', 'N', '_', 'R', 'E', 'S', 'E', 'L', 'L', 'E', 'R', '_', 'E', 'X', 'E', 'M', 'P', 'T', 'I', 'O', 'N'][4] != seq!['U', 'S', '_', 'M', 'D', '_', 'R', 'E', 'S', 'E', 'L', 'L', 'E', 'R', '_', 'E', 'X', 'E', 'M', 'P', 'T', 'I', 'O', 'N'][4]);
            assert(seq!['U', 'S', '_', 'M', 'N', '_', 'R', 'E', 'S', 'E', 'L', 'L', 'E', 'R', '_', 'E', 'X', 'E', 'M', 'P', 'T', 'I', 'O', 'N'][4] != seq!['U', 'S', '_', 'M', 'E', '_', 'R', 'E', 'S', 'E', 'L', 'L', 'E', 'R', '_', 'E', 'X', 'E', 'M', 'P', 'T', 'I', 'O', 'N'][4]);
            assert(seq!['U', 'S', '_', 'M', 'N', '_', 'R', 'E', 'S', 'E', 'L', 'L', 'E', 'R', '_', 'E', 'X', 'E', 'M', 'P', 'T', 'I', 'O', 'N'][4] != seq!['U', 'S', '_', 'M', 'I', '_', 'R', 'E', 'S', 'E', 'L', 'L', 'E', 'R', '_', 'E', 'X', 'E', 'M', 'P', 'T', 'I', 'O', 'N'][4]);
        },
        TaxExemption::US_MO_RESELLER_EXEMPTION => {
            assert(seq!['U', 'S', '_', 'M', 'O', '_', 'R', 'E', 'S', 'E', 'L', 'L', 'E', 'R', '_', 'E', 'X', 'E', 'M', 'P', 'T', 'I', 'O', 'N'][0] != seq!['C', 'A', '_', 'B', 'C', '_', 'R', 'E', 'S', 'E', 'L', 'L', 'E', 'R', '_', 'E', 'X', 'E', 'M', 'P', 'T', 'I', 'O', 'N'][0]);
            assert(seq!['U', 'S', '_', 'M', 'O', '_', 'R', 'E', 'S', 'E', 'L', 'L', 'E', 'R', '_', 'E', 'X', 'E', 'M', 'P', 'T', 'I', 'O', 'N'][0] != seq!['C', 'A', '_', 'M', 'B', '_', 'R', 'E', 'S', 'E', 'L', 'L', 'E', 'R', '_', 'E', 'X', 'E', 'M', 'P', 'T', 'I', 'O', 'N'][0]);
            assert(seq!['U', 'S', '_', 'M', 'O', '_', 'R', 'E', 'S', 'E', 'L', 'L', 'E', 'R', '_', 'E', 'X', 'E', 'M', 'P', 'T', 'I', 'O', 'N'][0] != seq!['C', 'A', '_', 'O', 'N', '_', 'P', 'U', 'R', 'C', 'H', 'A', 'S', 'E', '_', 'E', 'X', 'E', 'M', 'P', 'T', 'I', 'O', 'N'][0]);
            assert(seq!['U', 'S', '_', 'M', 'O', '_', 'R', 'E', 'S', 'E', 'L', 'L', 'E', 'R', '_', 'E', 'X', 'E', 'M', 'P', 'T', 'I', 'O', 'N'][0] != seq!['C', 'A', '_', 'S', 'K', '_', 'R', 'E', 'S', 'E', 'L', 'L', 'E', 'R', '_', 'E', 'X', 'E', 'M', 'P', 'T', 'I', 'O', 'N'][0]);
            assert(seq!['U', 'S', '_', 'M', 'O', '_', 'R', 'E', 'S', 'E', 'L', 'L', 'E', 'R', '_', 'E', 'X', 'E', 'M', 'P', 'T', 'I', 'O', 'N'][0] != seq!['C', 'A', '_', 'S', 'T', 'A', 'T', 'U', 'S', '_', 'C', 'A', 'R', 'D', '_', 'E', 'X', 'E', 'M', 'P', 'T', 'I', 'O', 'N'][0]);
            assert(seq!['U', 'S', '_', 'M', 'O', '_', 'R', 'E', 'S', 'E', 'L', 'L', 'E', 'R', '_', 'E', 'X', 'E', 'M', 'P', 'T', 'I', 'O', 'N'][3] != seq!['U', 'S', '_', 'A', 'K', '_', 'R', 'E', 'S', 'E', 'L', 'L', 'E', 'R', '_', 'E', 'X', 'E', 'M', 'P', 'T', 'I', 'O', 'N'][3]);
            assert(seq!['U', 'S', '_', 'M', 'O', '_', 'R', 'E', 'S', 'E', 'L', 'L', 'E', 'R', '_', 'E', 'X', 'E', 'M', 'P', 'T', 'I', 'O', 'N'][3] != seq!['U', 'S', '_', 'A', 'L', '_', 'R', 'E', 'S', 'E', 'L', 'L', 'E', 'R', '_', 'E', 'X', 'E', 'M', 'P', 'T', 'I', 'O', 'N'][3]);
            assert(seq!['U', 'S', '_', 'M', 'O', '_', 'R', 'E', 'S', 'E', 'L', 'L', 'E', 'R', '_', 'E', 'X', 'E', 'M', 'P', 'T', 'I', 'O', 'N'][3] != seq!['U', 'S', '_', 'A', 'R', '_', 'R', 'E', 'S', 'E', 'L', 'L', 'E', 'R', '_', 'E', 'X', 'E', 'M', 'P', 'T', 'I', 'O', 'N'][3]);
            assert(seq!['U', 'S', '_', 'M', 'O', '_', 'R', 'E', 'S', 'E', 'L', 'L', 'E', 'R', '_', 'E', 'X', 'E', 'M', 'P', 'T', 'I', 'O', 'N'][3] != seq!['U', 'S', '_', 'A', 'Z', '_', 'R', 'E', 'S', 'E', 'L', 'L', 'E', 'R', '_', 'E', 'X', 'E', 'M', 'P', 'T', 'I', 'O', 'N'][3]);
            assert(seq!['U', 'S', '_', 'M', 'O', '_', 'R', 'E', 'S', 'E', 'L', 'L', 'E', 'R', '_', 'E', 'X', 'E', 'M', 'P', 'T', 'I', 'O', 'N'][3] != seq!['U', 'S', '_', 'C', 'A', '_', 'R', 'E', 'S', 'E', 'L', 'L', 'E', 'R', '_', 'E', 'X', 'E', 'M', 'P', 'T', 'I', 'O', 'N'][3]);
            assert(seq!['U', 'S', '_', 'M', 'O', '_', 'R', 'E', 'S', 'E', 'L', 'L', 'E', 'R', '_', 'E', 'X', 'E', 'M', 'P', 'T', 'I', 'O', 'N'][3] != seq!['U', 'S', '_', 'C', 'O', '_', 'R', 'E', 'S', 'E', 'L', 'L', 'E', 'R', '_', 'E', 'X', 'E', 'M', 'P', 'T', 'I', 'O', 'N'][3]);
            assert(seq!['U', 'S', '_', 'M', 'O', '_', 'R', 'E', 'S', 'E', 'L', 'L', 'E', 'R', '_', 'E', 'X', 'E', 'M', 'P', 'T', 'I', 'O', 'N'][3] != seq!['U', 'S', '_', 'C', 'T', '_', 'R', 'E', 'S', 'E', 'L', 'L', 'E', 'R', '_', 'E', 'X', 'E', 'M', 'P', 'T', 'I', 'O', 'N'][3]);
            assert(seq!['U', 'S', '_', 'M', 'O', '_', 'R', 'E', 'S', 'E', 'L', 'L', 'E', 'R', '_', 'E', 'X', 'E', 'M', 'P', 'T', 'I', 'O', 'N'][3] != seq!['U', 'S', '_', 'D', 'C', '_', 'R', 'E', 'S', 'E', 'L', 'L', 'E', 'R', '_', 'E', 'X', 'E', 'M', 'P', 'T', 'I', 'O', 'N'][3]);
            assert(seq!['U', 'S', '_', 'M', 'O', '_', 'R', 'E', 'S', 'E', 'L', 'L', 'E', 'R', '_', 'E', 'X', 'E', 'M', 'P', 'T', 'I', 'O', 'N'][3] != seq!['U', 'S', '_', 'D', 'E', '_', 'R', 'E', 'S', 'E', 'L', 'L', 'E', 'R', '_', 'E', 'X', 'E', 'M', 'P', 'T', 'I', 'O', 'N'][3]);
            assert(seq!['U', 'S', '_', 'M', 'O', '_', 'R', 'E', 'S', 'E', 'L', 'L', 'E', 'R', '_', 'E', 'X', 'E', 'M', 'P', 'T', 'I', 'O', 'N'][3] != seq!['U', 'S', '_', 'F', 'L', '_', 'R', 'E', 'S', 'E', 'L', 'L', 'E', 'R', '_', 'E', 'X', 'E', 'M', 'P', 'T', 'I', 'O', 'N'][3]);
            assert(seq!['U', 'S', '_', 'M', 'O', '_', 'R', 'E', 'S', 'E', 'L', 'L', 'E', 'R', '_', 'E', 'X', 'E', 'M', 'P', 'T', 'I', 'O', 'N'][3] != seq!['U', 'S', '_', 'G', 'A', '_', 'R', 'E', 'S', 'E', 'L', 'L', 'E', 'R', '_', 'E', 'X', 'E', 'M', 'P', 'T', 'I', 'O', 'N'][3]);
            assert(seq!['U', 'S', '_', 'M', 'O', '_', 'R', 'E', 'S', 'E', 'L', 'L', 'E', 'R', '_', 'E', 'X', 'E', 'M', 'P', 'T', 'I', 'O', 'N'][3] != seq!['U', 'S', '_', 'H', 'I', '_', 'R', 'E', 'S', 'E', 'L', 'L', 'E', 'R', '_', 'E', 'X', 'E', 'M', 'P', 'T', 'I', 'O', 'N'][3]);
            assert(seq!['U', 'S', '_', 'M', 'O', '_', 'R', 'E', 'S', 'E', 'L', 'L', 'E', 'R', '_', 'E', 'X', 'E', 'M', 'P', 'T', 'I', 'O', 'N'][3] != seq!['U', 'S', '_', 'I', 'A', '_', 'R', 'E', 'S', 'E', 'L', 'L', 'E', 'R', '_', 'E', 'X', 'E', 'M', 'P', 'T', 'I', 'O', 'N'][3]);
            assert(seq!['U', 'S', '_', 'M', 'O', '_', 'R', 'E', 'S', 'E', 'L', 'L', 'E', 'R', '_', 'E', 'X', 'E', 'M', 'P', 'T', 'I', 'O', 'N'][3] != seq!['U', 'S', '_', 'I', 'D', '_', 'R', 'E', 'S', 'E', 'L', 'L', 'E', 'R', '_', 'E', 'X', 'E', 'M', 'P', 'T', 'I', 'O', 'N'][3]);
            assert(seq!['U', 'S', '_', 'M', 'O', '_', 'R', 'E', 'S', 'E', 'L', 'L', 'E', 'R', '_', 'E', 'X', 'E', 'M', 'P', 'T', 'I', 'O', 'N'][3] != seq!['U', 'S', '_', 'I', 'L', '_', 'R', 'E', 'S', 'E', 'L', 'L', 'E', 'R', '_', 'E', 'X', 'E', 'M', 'P', 'T', 'I', 'O', 'N'][3]);
            assert(seq!['U', 'S', '_', 'M', 'O', '_', 'R', 'E', 'S', 'E', 'L', 'L', 'E', 'R', '_', 'E', 'X', 'E', 'M', 'P', 'T', 'I', 'O', 'N'][3] != seq!['U', 'S', '_', 'I', 'N', '_', 'R', 'E', 'S', 'E', 'L', 'L', 'E', 'R', '_', 'E', 'X', 'E', 'M', 'P', 'T', 'I', 'O', 'N'][3]);
            assert(seq!['U', 'S', '_', 'M', 'O', '_', 'R', 'E', 'S', 'E', 'L', 'L', 'E', 'R', '_', 'E', 'X', 'E', 'M', 'P', 'T', 'I', 'O', 'N'][3] != seq!['U', 'S', '_', 'K', 'S', '_', 'R', 'E', 'S', 'E', 'L', 'L', 'E', 'R', '_', 'E', 'X', 'E', 'M', 'P', 'T', 'I', 'O', 'N'][3]);
            assert(seq!['U', 'S', '_', 'M', 'O', '_', 'R', 'E', 'S', 'E', 'L', 'L', 'E', 'R', '_', 'E', 'X', 'E', 'M', 'P', 'T', 'I', 'O', 'N'][3] != seq!['U', 'S', '_', 'K', 'Y', '_', 'R', 'E', 'S', 'E', 'L', 'L', 'E', 'R', '_', 'E', 'X', 'E', 'M', 'P', 'T', 'I', 'O', 'N'][3]);
            assert(seq!['U', 'S', '_', 'M', 'O', '_', 'R', 'E', 'S', 'E', 'L', 'L', 'E', 'R', '_', 'E', 'X', 'E', 'M', 'P', 'T', 'I', 'O', 'N'][3] != seq!['U', 'S', '_', 'L', 'A', '_', 'R', 'E', 'S', 'E', 'L', 'L', 'E', 'R', '_', 'E', 'X', 'E', 'M', 'P', 'T', 'I', 'O', 'N'][3]);
            assert(seq!['U', 'S', '_', 'M', 'O', '_', 'R', 'E', 'S', 'E', 'L', 'L', 'E', 'R', '_', 'E', 'X', 'E', 'M', 'P', 'T', 'I', 'O', 'N'][4] != seq!['U', 'S', '_', 'M', 'A', '_', 'R', 'E', 'S', 'E', 'L', 'L', 'E', 'R', '_', 'E', 'X', 'E', 'M', 'P', 'T', 'I', 'O', 'N'][4]);
            assert(seq!['U', 'S', '_', 'M', 'O', '_', 'R', 'E', 'S', 'E', 'L', 'L', 'E', 'R', '_', 'E', 'X', 'E', 'M', 'P', 'T', 'I', 'O', 'N'][4] != seq!['U', 'S', '_', 'M', 'D', '_', 'R', 'E', 'S', 'E', 'L', 'L', 'E', 'R', '_', 'E', 'X', 'E', 'M', 'P', 'T', 'I', 'O', 'N'][4]);
            assert(seq!['U', 'S', '_', 'M', 'O', '_', 'R', 'E', 'S', 'E', 'L', 'L', 'E', 'R', '_', 'E', 'X', 'E', 'M', 'P', 'T', 'I', 'O', 'N'][4] != seq!['U', 'S', '_', 'M', 'E', '_', 'R', 'E', 'S', 'E', 'L', 'L', 'E', 'R', '_', 'E', 'X', 'E', 'M', 'P', 'T', 'I', 'O', 'N'][4]);
            assert(seq!['U', 'S', '_', 'M', 'O', '_', 'R', 'E', 'S', 'E', 'L', 'L', 'E', 'R', '_', 'E', 'X', 'E', 'M', 'P', 'T', 'I', 'O', 'N'][4] != seq!['U', 'S', '_', 'M', 'I', '_', 'R', 'E', 'S', 'E', 'L', 'L', 'E', 'R', '_', 'E', 'X', 'E', 'M', 'P', 'T', 'I', 'O', 'N'][4]);
            assert(seq!['U', 'S', '_', 'M', 'O', '_', 'R', 'E', 'S', 'E', 'L', 'L', 'E', 'R', '_', 'E', 'X', 'E', 'M', 'P', 'T', 'I', 'O', 'N'][4] != seq!['U', 'S', '_', 'M', 'N', '_', 'R', 'E', 'S', 'E', 'L', 'L', 'E', 'R', '_', 'E', 'X', 'E', 'M', 'P', 'T', 'I', 'O', 'N'][4]);
        },
        TaxExemption::US_MS_RESELLER_EXEMPTION => {
            assert(seq!['U', 'S', '_', 'M', 'S', '_', 'R', 'E', 'S', 'E', 'L', 'L', 'E', 'R', '_', 'E', 'X', 'E', 'M', 'P', 'T', 'I', 'O', 'N'][0] != seq!['C', 'A', '_', 'B', 'C', '_', 'R', 'E', 'S', 'E', 'L', 'L', 'E', 'R', '_', 'E', 'X', 'E', 'M', 'P', 'T', 'I', 'O', 'N'][0]);
            assert(seq!['U', 'S', '_', 'M', 'S', '_', 'R', 'E', 'S', 'E', 'L', 'L', 'E', 'R', '_', 'E', 'X', 'E', 'M', 'P', 'T', 'I', 'O', 'N'][0] != seq!['C', 'A', '_', 'M', 'B', '_', 'R', 'E', 'S', 'E', 'L', 'L', 'E', 'R', '_', 'E', 'X', 'E', 'M', 'P', 'T', 'I', 'O', 'N'][0]);
            assert(seq!['U', 'S', '_', 'M', 'S', '_', 'R', 'E', 'S', 'E', 'L', 'L', 'E', 'R', '_', 'E', 'X', 'E', 'M', 'P', 'T', 'I', 'O', 'N'][0] != seq!['C', 'A', '_', 'O', 'N', '_', 'P', 'U', 'R', 'C', 'H', 'A', 'S', 'E', '_', 'E', 'X', 'E', 'M', 'P', 'T', 'I', 'O', 'N'][0]);
            assert(seq!['U', 'S', '_', 'M', 'S', '_', 'R', 'E', 'S', 'E', 'L', 'L', 'E', 'R', '_', 'E', 'X', 'E', 'M', 'P', 'T', 'I', 'O', 'N'][0] != seq!['C', 'A', '_', 'S', 'K', '_', 'R', 'E', 'S', 'E', 'L', 'L', 'E', 'R', '_', 'E', 'X', 'E', 'M', 'P', 'T', 'I', 'O', 'N'][0]);
            assert(seq!['U', 'S', '_', 'M', 'S', '_', 'R', 'E', 'S', 'E', 'L', 'L', 'E', 'R', '_', 'E', 'X', 'E', 'M', 'P', 'T', 'I', 'O', 'N'][0] != seq!['C', 'A', '_', 'S', 'T', 'A', 'T', 'U', 'S', '_', 'C', 'A', 'R', 'D', '_', 'E', 'X', 'E', 'M', 'P', 'T', 'I', 'O', 'N'][0]);
            assert(seq!['U', 'S', '_', 'M', 'S', '_', 'R', 'E', 'S', 'E', 'L', 'L', 'E', 'R', '_', 'E', 'X', 'E', 'M', 'P', 'T', 'I', 'O', 'N'][3] != seq!['U', 'S', '_', 'A', 'K', '_', 'R', 'E', 'S', 'E', 'L', 'L', 'E', 'R', '_', 'E', 'X', 'E', 'M', 'P', 'T', 'I', 'O', 'N'][3]);
            assert(seq!['U', 'S', '_', 'M', 'S', '_', 'R', 'E', 'S', 'E', 'L', 'L', 'E', 'R', '_', 'E', 'X', 'E', 'M', 'P', 'T', 'I', 'O', 'N'][3] != seq!['U', 'S', '_', 'A', 'L', '_', 'R', 'E', 'S', 'E', 'L', 'L', 'E', 'R', '_', 'E', 'X', 'E', 'M', 'P', 'T', 'I', 'O', 'N'][3]);
            assert(seq!['U', 'S', '_', 'M', 'S', '_', 'R', 'E', 'S', 'E', 'L', 'L', 'E', 'R', '_', 'E', 'X', 'E', 'M', 'P', 'T', 'I', 'O', 'N'][3] != seq!['U', 'S', '_', 'A', 'R', '_', 'R', 'E', 'S', 'E', 'L', 'L', 'E', 'R', '_', 'E', 'X', 'E', 'M', 'P', 'T', 'I', 'O', 'N'][3]);
            assert(seq!['U', 'S', '_', 'M', 'S', '_', 'R', 'E', 'S', 'E', 'L', 'L', 'E', 'R', '_', 'E', 'X', 'E', 'M', 'P', 'T', 'I', 'O', 'N'][3] != seq!['U', 'S', '_', 'A', 'Z', '_', 'R', 'E', 'S', 'E', 'L', 'L', 'E', 'R', '_', 'E', 'X', 'E', 'M', 'P', 'T', 'I', 'O', 'N'][3]);
            assert(seq!['U', 'S', '_', 'M', 'S', '_', 'R', 'E', 'S', 'E', 'L', 'L', 'E', 'R', '_', 'E', 'X', 'E', 'M', 'P', 'T', 'I', 'O', 'N'][3] != seq!['U', 'S', '_', 'C', 'A', '_', 'R', 'E', 'S', 'E', 'L', 'L', 'E', 'R', '_', 'E', 'X', 'E', 'M', 'P', 'T', 'I', 'O', 'N'][3]);
            assert(seq!['U', 'S', '_', 'M', 'S', '_', 'R', 'E', 'S', 'E', 'L', 'L', 'E', 'R', '_', 'E', 'X', 'E', 'M', 'P', 'T', 'I', 'O', 'N'][3] != seq!['U', 'S', '_', 'C', 'O', '_', 'R', 'E', 'S', 'E', 'L', 'L', 'E', 'R', '_', 'E', 'X', 'E', 'M', 'P', 'T', 'I', 'O', 'N'][3]);
            assert(seq!['U', 'S', '_', 'M', 'S', '_', 'R', 'E', 'S', 'E', 'L', 'L', 'E', 'R', '_', 'E', 'X', 'E', 'M', 'P', 'T', 'I', 'O', 'N'][3] != seq!['U', 'S', '_', 'C', 'T', '_', 'R', 'E', 'S', 'E', 'L', 'L', 'E', 'R', '_', 'E', 'X', 'E', 'M', 'P', 'T', 'I', 'O', 'N'][3]);
            assert(seq!['U', 'S', '_', 'M', 'S', '_', 'R', 'E', 'S', 'E', 'L', 'L', 'E', 'R', '_', 'E', 'X', 'E', 'M', 'P', 'T', 'I', 'O', 'N'][3] != seq!['U', 'S', '_', 'D', 'C', '_', 'R', 'E', 'S', 'E', 'L', 'L', 'E', 'R', '_', 'E', 'X', 'E', 'M', 'P', 'T', 'I', 'O', 'N'][3]);
            assert(seq!['U', 'S', '_', 'M', 'S', '_', 'R', 'E', 'S', 'E', 'L', 'L', 'E', 'R', '_', 'E', 'X', 'E', 'M', 'P', 'T', 'I', 'O', 'N'][3] != seq!['U', 'S', '_', 'D', 'E', '_', 'R', 'E', 'S', 'E', 'L', 'L', 'E', 'R', '_', 'E', 'X', 'E', 'M', 'P', 'T', 'I', 'O', 'N'][3]);
            assert(seq!['U', 'S', '_', 'M', 'S', '_', 'R', 'E', 'S', 'E', 'L', 'L', 'E', 'R', '_', 'E', 'X', 'E', 'M', 'P', 'T', 'I', 'O', 'N'][3] != seq!['U', 'S', '_', 'F', 'L', '_', 'R', 'E', 'S', 'E', 'L', 'L', 'E', 'R', '_', 'E', 'X', 'E', 'M', 'P', 'T', 'I', 'O', 'N'][3]);
            assert(seq!['U', 'S', '_', 'M', 'S', '_', 'R', 'E', 'S', 'E', 'L', 'L', 'E', 'R', '_', 'E', 'X', 'E', 'M', 'P', 'T', 'I', 'O', 'N'][3] != seq!['U', 'S', '_', 'G', 'A', '_', 'R', 'E', 'S', 'E', 'L', 'L', 'E', 'R', '_', 'E', 'X', 'E', 'M', 'P', 'T', 'I', 'O', 'N'][3]);
            assert(seq!['U', 'S', '_', 'M', 'S', '_', 'R', 'E', 'S', 'E', 'L', 'L', 'E', 'R', '_', 'E', 'X', 'E', 'M', 'P', 'T', 'I', 'O', 'N'][3] != seq!['U', 'S', '_', 'H', 'I', '_', 'R', 'E', 'S', 'E', 'L', 'L', 'E', 'R', '_', 'E', 'X', 'E', 'M', 'P', 'T', 'I', 'O', 'N'][3]);
            assert(seq!['U', 'S', '_', 'M', 'S', '_', 'R', 'E', 'S', 'E', 'L', 'L', 'E', 'R', '_', 'E', 'X', 'E', 'M', 'P', 'T', 'I', 'O', 'N'][3] != seq!['U', 'S', '_', 'I', 'A', '_', 'R', 'E', 'S', 'E', 'L', 'L', 'E', 'R', '_', 'E', 'X', 'E', 'M', 'P', 'T', 'I', 'O', 'N'][3]);
            assert(seq!['U', 'S', '_', 'M', 'S', '_', 'R', 'E', 'S', 'E', 'L', 'L', 'E', 'R', '_', 'E', 'X', 'E', 'M', 'P', 'T', 'I', 'O', 'N'][3] != seq!['U', 'S', '_', 'I', 'D', '_', 'R', 'E', 'S', 'E', 'L', 'L', 'E', 'R', '_', 'E', 'X', 'E', 'M', 'P', 'T', 'I', 'O', 'N'][3]);
            assert(seq!['U', 'S', '_', 'M', 'S', '_', 'R', 'E', 'S', 'E', 'L', 'L', 'E', 'R', '_', 'E', 'X', 'E', 'M', 'P', 'T', 'I', 'O', 'N'][3] != seq!['U', 'S', '_', 'I', 'L', '_', 'R', 'E', 'S', 'E', 'L', 'L', 'E', 'R', '_', 'E', 'X', 'E', 'M', 'P', 'T', 'I', 'O', 'N'][3]);
            assert(seq!['U', 'S', '_', 'M', 'S', '_', 'R', 'E', 'S', 'E', 'L', 'L', 'E', 'R', '_', 'E', 'X', 'E', 'M', 'P', 'T', 'I', 'O', 'N'][3] != seq!['U', 'S', '_', 'I', 'N', '_', 'R', 'E', 'S', 'E', 'L', 'L', 'E', 'R', '_', 'E', 'X', 'E', 'M', 'P', 'T', 'I', 'O', 'N'][3]);
            assert(seq!['U', 'S', '_', 'M', 'S', '_', 'R', 'E', 'S', 'E', 'L', 'L', 'E', 'R', '_', 'E', 'X', 'E', 'M', 'P', 'T', 'I', 'O', 'N'][3] != seq!['U', 'S', '_', 'K', 'S', '_', 'R', 'E', 'S', 'E', 'L', 'L', 'E', 'R', '_', 'E', 'X', 'E', 'M', 'P', 'T', 'I', 'O', 'N'][3]);
            assert(seq!['U', 'S', '_', 'M', 'S', '_', 'R', 'E', 'S', 'E', 'L', 'L', 'E', 'R', '_', 'E', 'X', 'E', 'M', 'P', 'T', 'I', 'O', 'N'][3] != seq!['U', 'S', '_', 'K', 'Y', '_', 'R', 'E', 'S', 'E', 'L', 'L', 'E', 'R', '_', 'E', 'X', 'E', 'M', 'P', 'T', 'I', 'O', 'N'][3]);
            assert(seq!['U', 'S', '_', 'M', 'S', '_', 'R', 'E', 'S', 'E', 'L', 'L', 'E', 'R', '_', 'E', 'X', 'E', 'M', 'P', 'T', 'I', 'O', 'N'][3] != seq!['U', 'S', '_', 'L', 'A', '_', 'R', 'E', 'S', 'E', 'L', 'L', 'E', 'R', '_', 'E', 'X', 'E', 'M', 'P', 'T', 'I', 'O', 'N'][3]);
            assert(seq!['U', 'S', '_', 'M', 'S', '_', 'R', 'E', 'S', 'E', 'L', 'L', 'E', 'R', '_', 'E', 'X', 'E', 'M', 'P', 'T', 'I', 'O', 'N'][4] != seq!['U', 'S', '_', 'M', 'A', '_', 'R', 'E', 'S', 'E', 'L', 'L', 'E', 'R', '_', 'E', 'X', 'E', 'M', 'P', 'T', 'I', 'O', 'N'][4]);
            assert(seq!['U', 'S', '_', 'M', 'S', '_', 'R', 'E', 'S', 'E', 'L', 'L', 'E', 'R', '_', 'E', 'X', 'E', 'M', 'P', 'T', 'I', 'O', 'N'][4] != seq!['U', 'S', '_', 'M', 'D', '_', 'R', 'E', 'S', 'E', 'L', 'L', 'E', 'R', '_', 'E', 'X', 'E', 'M', 'P', 'T', 'I', 'O', 'N'][4]);
            assert(seq!['U', 'S', '_', 'M', 'S', '_', 'R', 'E', 'S', 'E', 'L', 'L', 'E', 'R', '_', 'E', 'X', 'E', 'M', 'P', 'T', 'I', 'O', 'N'][4] != seq!['U', 'S', '_', 'M', 'E', '_', 'R', 'E', 'S', 'E', 'L', 'L', 'E', 'R', '_', 'E', 'X', 'E', 'M', 'P', 'T', 'I', 'O', 'N'][4]);
            assert(seq!['U', 'S', '_', 'M', 'S', '_', 'R', 'E', 'S', 'E', 'L', 'L', 'E', 'R', '_', 'E', 'X', 'E', 'M', 'P', 'T', 'I', 'O', 'N'][4] != seq!['U', 'S', '_', 'M', 'I', '_', 'R', 'E', 'S', 'E', 'L', 'L', 'E', 'R', '_', 'E', 'X', 'E', 'M', 'P', 'T', 'I', 'O', 'N'][4]);
            assert(seq!['U', 'S', '_', 'M', 'S', '_', 'R', 'E', 'S', 'E', 'L', 'L', 'E', 'R', '_', 'E', 'X', 'E', 'M', 'P', 'T', 'I', 'O', 'N'][4] != seq!['U', 'S', '_', 'M', 'N', '_', 'R', 'E', 'S', 'E', 'L', 'L', 'E', 'R', '_', 'E', 'X', 'E', 'M', 'P', 'T', 'I', 'O', 'N'][4]);
            assert(seq!['U', 'S', '_', 'M', 'S', '_', 'R', 'E', 'S', 'E', 'L', 'L', 'E', 'R', '_', 'E', 'X', 'E', 'M', 'P', 'T', 'I', 'O', 'N'][4] != seq!['U', 'S', '_', 'M', 'O', '_', 'R', 'E', 'S', 'E', 'L', 'L', 'E', 'R', '_', 'E', 'X', 'E', 'M', 'P', 'T', 'I', 'O', 'N'][4]);
        },
        TaxExemption::US_MT_RESELLER_EXEMPTION => {
            assert(seq!['U', 'S', '_', 'M', 'T', '_', 'R', 'E', 'S', 'E', 'L', 'L', 'E', 'R', '_', 'E', 'X', 'E', 'M', 'P', 'T', 'I', 'O', 'N'][0] != seq!['C', 'A', '_', 'B', 'C', '_', 'R', 'E', 'S', 'E', 'L', 'L', 'E', 'R', '_', 'E', 'X', 'E', 'M', 'P', 'T', 'I', 'O', 'N'][0]);
            assert(seq!['U', 'S', '_', 'M', 'T', '_', 'R', 'E', 'S', 'E', 'L', 'L', 'E', 'R', '_', 'E', 'X', 'E', 'M', 'P', 'T', 'I', 'O', 'N'][0] != seq!['C', 'A', '_', 'M', 'B', '_', 'R', 'E', 'S', 'E', 'L', 'L', 'E', 'R', '_', 'E', 'X', 'E', 'M', 'P', 'T', 'I', 'O', 'N'][0]);
            assert(seq!['U', 'S', '_', 'M', 'T', '_', 'R', 'E', 'S', 'E', 'L', 'L', 'E', 'R', '_', 'E', 'X', 'E', 'M', 'P', 'T', 'I', 'O', 'N'][0] != seq!['C', 'A', '_', 'O', 'N', '_', 'P', 'U', 'R', 'C', 'H', 'A', 'S', 'E', '_', 'E', 'X', 'E', 'M', 'P', 'T', 'I', 'O', 'N'][0]);
            assert(seq!['U', 'S', '_', 'M', 'T', '_', 'R', 'E', 'S', 'E', 'L', 'L', 'E', 'R', '_', 'E', 'X', 'E', 'M', 'P', 'T', 'I', 'O', 'N'][0] != seq!['C', 'A', '_', 'S', 'K', '_', 'R', 'E', 'S', 'E', 'L', 'L', 'E', 'R', '_', 'E', 'X', 'E', 'M', 'P', 'T', 'I', 'O', 'N'][0]);
            assert(seq!['U', 'S', '_', 'M', 'T', '_', 'R', 'E', 'S', 'E', 'L', 'L', 'E', 'R', '_', 'E', 'X', 'E', 'M', 'P', 'T', 'I', 'O', 'N'][0] != seq!['C', 'A', '_', 'S', 'T', 'A', 'T', 'U', 'S', '_', 'C', 'A', 'R', 'D', '_', 'E', 'X', 'E', 'M', 'P', 'T', 'I', 'O', 'N'][0]);
            assert(seq!['U', 'S', '_', 'M', 'T', '_', 'R', 'E', 'S', 'E', 'L', 'L', 'E', 'R', '_', 'E', 'X', 'E', 'M', 'P', 'T', 'I', 'O', 'N'][3] != seq!['U', 'S', '_', 'A', 'K', '_', 'R', 'E', 'S', 'E', 'L', 'L', 'E', 'R', '_', 'E', 'X', 'E', 'M', 'P', 'T', 'I', 'O', 'N'][3]);
            assert(seq!['U', 'S', '_', 'M', 'T', '_', 'R', 'E', 'S', 'E', 'L', 'L', 'E', 'R', '_', 'E', 'X', 'E', 'M', 'P', 'T', 'I', 'O', 'N'][3] != seq!['U', 'S', '_', 'A', 'L', '_', 'R', 'E', 'S', 'E', 'L', 'L', 'E', 'R', '_', 'E', 'X', 'E', 'M', 'P', 'T', 'I', 'O', 'N'][3]);
            assert(seq!['U', 'S', '_', 'M', 'T', '_', 'R', 'E', 'S', 'E', 'L', 'L', 'E', 'R', '_', 'E', 'X', 'E', 'M', 'P', 'T', 'I', 'O', 'N'][3] != seq!['U', 'S', '_', 'A', 'R', '_', 'R', 'E', 'S', 'E', 'L', 'L', 'E', 'R', '_', 'E', 'X', 'E', 'M', 'P', 'T', 'I', 'O', 'N'][3]);
            assert(seq!['U', 'S', '_', 'M', 'T', '_', 'R', 'E', 'S', 'E', 'L', 'L', 'E', 'R', '_', 'E', 'X', 'E', 'M', 'P', 'T', 'I', 'O', 'N'][3] != seq!['U', 'S', '_', 'A', 'Z', '_', 'R', 'E', 'S', 'E', 'L', 'L', 'E', 'R', '_', 'E', 'X', 'E', 'M', 'P', 'T', 'I', 'O', 'N'][3]);
            assert(seq!['U', 'S', '_', 'M', 'T', '_', 'R', 'E', 'S', 'E', 'L', 'L', 'E', 'R', '_', 'E', 'X', 'E', 'M', 'P', 'T', 'I', 'O', 'N'][3] != seq!['U', 'S', '_', 'C', 'A', '_', 'R', 'E', 'S', 'E', 'L', 'L', 'E', 'R', '_', 'E', 'X', 'E', 'M', 'P', 'T', 'I', 'O', 'N'][3]);
            assert(seq!['U', 'S', '_', 'M', 'T', '_', 'R', 'E', 'S', 'E', 'L', 'L', 'E', 'R', '_', 'E', 'X', 'E', 'M', 'P', 'T', 'I', 'O', 'N'][3] != seq!['U', 'S', '_', 'C', 'O', '_', 'R', 'E', 'S', 'E', 'L', 'L', 'E', 'R', '_', 'E', 'X', 'E', 'M', 'P', 'T', 'I', 'O', 'N'][3]);
            assert(seq!['U', 'S', '_', 'M', 'T', '_', 'R', 'E', 'S', 'E', 'L', 'L', 'E', 'R', '_', 'E', 'X', 'E', 'M', 'P', 'T', 'I', 'O', 'N'][3] != seq!['U', 'S', '_', 'C', 'T', '_', 'R', 'E', 'S', 'E', 'L', 'L', 'E', 'R', '_', 'E', 'X', 'E', 'M', 'P', 'T', 'I', 'O', 'N'][3]);
            assert(seq!['U', 'S', '_', 'M', 'T', '_', 'R', 'E', 'S', 'E', 'L', 'L', 'E', 'R', '_', 'E', 'X', 'E', 'M', 'P', 'T', 'I', 'O', 'N'][3] != seq!['U', 'S', '_', 'D', 'C', '_', 'R', 'E', 'S', 'E', 'L', 'L', 'E', 'R', '_', 'E', 'X', 'E', 'M', 'P', 'T', 'I', 'O', 'N'][3]);
            assert(seq!['U', 'S', '_', 'M', 'T', '_', 'R', 'E', 'S', 'E', 'L', 'L', 'E', 'R', '_', 'E', 'X', 'E', 'M', 'P', 'T', 'I', 'O', 'N'][3] != seq!['U', 'S', '_', 'D', 'E', '_', 'R', 'E', 'S', 'E', 'L', 'L', 'E', 'R', '_', 'E', 'X', 'E', 'M', 'P', 'T', 'I', 'O', 'N'][3]);
            assert(seq!['U', 'S', '_', 'M', 'T', '_', 'R', 'E', 'S', 'E', 'L', 'L', 'E', 'R', '_', 'E', 'X', 'E', 'M', 'P', 'T', 'I', 'O', 'N'][3] != seq!['U', 'S', '_', 'F', 'L', '_', 'R', 'E', 'S', 'E', 'L', 'L', 'E', 'R', '_', 'E', 'X', 'E', 'M', 'P', 'T', 'I', 'O', 'N'][3]);
            assert(seq!['U', 'S', '_', 'M', 'T', '_', 'R', 'E', 'S', 'E', 'L', 'L', 'E', 'R', '_', 'E', 'X', 'E', 'M', 'P', 'T', 'I', 'O', 'N'][3] != seq!['U', 'S', '_', 'G', 'A', '_', 'R', 'E', 'S', 'E', 'L', 'L', 'E', 'R', '_', 'E', 'X', 'E', 'M', 'P', 'T', 'I', 'O', 'N'][3]);
            assert(seq!['U', 'S', '_', 'M', 'T', '_', 'R', 'E', 'S', 'E', 'L', 'L', 'E', 'R', '_', 'E', 'X', 'E', 'M', 'P', 'T', 'I', 'O', 'N'][3] != seq!['U', 'S', '_', 'H', 'I', '_', 'R', 'E', 'S', 'E', 'L', 'L', 'E', 'R', '_', 'E', 'X', 'E', 'M', 'P', 'T', 'I', 'O', 'N'][3]);
            assert(seq!['U', 'S', '_', 'M', 'T', '_', 'R', 'E', 'S', 'E', 'L', 'L', 'E', 'R', '_', 'E', 'X', 'E', 'M', 'P', 'T', 'I', 'O', 'N'][3] != seq!['U', 'S', '_', 'I', 'A', '_', 'R', 'E', 'S', 'E', 'L', 'L', 'E', 'R', '_', 'E', 'X', 'E', 'M', 'P', 'T', 'I', 'O', 'N'][3]);
            assert(seq!['U', 'S', '_', 'M', 'T', '_', 'R', 'E', 'S', 'E', 'L', 'L', 'E', 'R', '_', 'E', 'X', 'E', 'M', 'P', 'T', 'I', 'O', 'N'][3] != seq!['U', 'S', '_', 'I', 'D', '_', 'R', 'E', 'S', 'E', 'L', 'L', 'E', 'R', '_', 'E', 'X', 'E', 'M', 'P', 'T', 'I', 'O', 'N'][3]);
            assert(seq!['U', 'S', '_', 'M', 'T', '_', 'R', 'E', 'S', 'E', 'L', 'L', 'E', 'R', '_', 'E', 'X', 'E', 'M', 'P', 'T', 'I', 'O', 'N'][3] != seq!['U', 'S', '_', 'I', 'L', '_', 'R', 'E', 'S', 'E', 'L', 'L', 'E', 'R', '_', 'E', 'X', 'E', 'M', 'P', 'T', 'I', 'O', 'N'][3]);
            assert(seq!['U', 'S', '_', 'M', 'T', '_', 'R', 'E', 'S', 'E', 'L', 'L', 'E', 'R', '_', 'E', 'X', 'E', 'M', 'P', 'T', 'I', 'O', 'N'][3] != seq!['U', 'S', '_', 'I', 'N', '_', 'R', 'E', 'S', 'E', 'L', 'L', 'E', 'R', '_', 'E', 'X', 'E', 'M', 'P', 'T', 'I', 'O', 'N'][3]);
            assert(seq!['U', 'S', '_', 'M', 'T', '_', 'R', 'E', 'S', 'E', 'L', 'L', 'E', 'R', '_', 'E', 'X', 'E', 'M', 'P', 'T', 'I', 'O', 'N'][3] != seq!['U', 'S', '_', 'K', 'S', '_', 'R', 'E', 'S', 'E', 'L', 'L', 'E', 'R', '_', 'E', 'X', 'E', 'M', 'P', 'T', 'I', 'O', 'N'][3]);
            assert(seq!['U', 'S', '_', 'M', 'T', '_', 'R', 'E', 'S', 'E', 'L', 'L', 'E', 'R', '_', 'E', 'X', 'E', 'M', 'P', 'T', 'I', 'O', 'N'][3] != seq!['U', 'S', '_', 'K', 'Y', '_', 'R', 'E', 'S', 'E', 'L', 'L', 'E', 'R', '_', 'E', 'X', 'E', 'M', 'P', 'T', 'I', 'O', 'N'][3]);
            assert(seq!['U', 'S', '_', 'M', 'T', '_', 'R', 'E', 'S', 'E', 'L', 'L', 'E', 'R', '_', 'E', 'X', 'E', 'M', 'P', 'T', 'I', 'O', 'N'][3] != seq!['U', 'S', '_', 'L', 'A', '_', 'R', 'E', 'S', 'E', 'L', 'L', 'E', 'R', '_', 'E', 'X', 'E', 'M', 'P', 'T', 'I', 'O', 'N'][3]);
            assert(seq!['U', 'S', '_', 'M', 'T', '_', 'R', 'E', 'S', 'E', 'L', 'L', 'E', 'R', '_', 'E', 'X', 'E', 'M', 'P', 'T', 'I', 'O', 'N'][4] != seq!['U', 'S', '_', 'M', 'A', '_', 'R', 'E', 'S', 'E', 'L', 'L', 'E', 'R', '_', 'E', 'X', 'E', 'M', 'P', 'T', 'I', 'O', 'N'][4]);
            assert(seq!['U', 'S', '_', 'M', 'T', '_', 'R', 'E', 'S', 'E', 'L', 'L', 'E', 'R', '_', 'E', 'X', 'E', 'M', 'P', 'T', 'I', 'O', 'N'][4] != seq!['U', 'S', '_', 'M', 'D', '_', 'R', 'E', 'S', 'E', 'L', 'L', 'E', 'R', '_', 'E', 'X', 'E', 'M', 'P', 'T', 'I', 'O', 'N'][4]);
            assert(seq!['U', 'S', '_', 'M', 'T', '_', 'R', 'E', 'S', 'E', 'L', 'L', 'E', 'R', '_', 'E', 'X', 'E', 'M', 'P', 'T', 'I', 'O', 'N'][4] != seq!['U', 'S', '_', 'M', 'E', '_', 'R', 'E', 'S', 'E', 'L', 'L', 'E', 'R', '_', 'E', 'X', 'E', 'M', 'P', 'T', 'I', 'O', 'N'][4]);
            assert(seq!['U', 'S', '_', 'M', 'T', '_', 'R', 'E', 'S', 'E', 'L', 'L', 'E', 'R', '_', 'E', 'X', 'E', 'M', 'P', 'T', 'I', 'O', 'N'][4] != seq!['U', 'S', '_', 'M', 'I', '_', 'R', 'E', 'S', 'E', 'L', 'L', 'E', 'R', '_', 'E', 'X', 'E', 'M', 'P', 'T', 'I', 'O', 'N'][4]);
            assert(seq!['U', 'S', '_', 'M', 'T', '_', 'R', 'E', 'S', 'E', 'L', 'L', 'E', 'R', '_', 'E', 'X', 'E', 'M', 'P', 'T', 'I', 'O', 'N'][4] != seq!['U', 'S', '_', 'M', 'N', '_', 'R', 'E', 'S', 'E', 'L', 'L', 'E', 'R', '_', 'E', 'X', 'E', 'M', 'P', 'T', 'I', 'O', 'N'][4]);
            assert(seq!['U', 'S', '_', 'M', 'T', '_', 'R', 'E', 'S', 'E', 'L', 'L', 'E', 'R', '_', 'E', 'X', 'E', 'M', 'P', 'T', 'I', 'O', 'N'][4] != seq!['U', 'S', '_', 'M', 'O', '_', 'R', 'E', 'S', 'E', 'L', 'L', 'E', 'R', '_', 'E', 'X', 'E', 'M', 'P', 'T', 'I', 'O', 'N'][4]);
            assert(seq!['U', 'S', '_', 'M', 'T', '_', 'R', 'E', 'S', 'E', 'L', 'L', 'E', 'R', '_', 'E', 'X', 'E', 'M', 'P', 'T', 'I', 'O', 'N'][4] != seq!['U', 'S', '_', 'M', 'S', '_', 'R', 'E', 'S', 'E', 'L', 'L', 'E', 'R', '_', 'E', 'X', 'E', 'M', 'P', 'T', 'I', 'O', 'N'][4]);
        },
        TaxExemption::US_NC_RESELLER_EXEMPTION => {
            assert(seq!['U', 'S', '_', 'N', 'C', '_', 'R', 'E', 'S', 'E', 'L', 'L', 'E', 'R', '_', 'E', 'X', 'E', 'M', 'P', 'T', 'I', 'O', 'N'][0] != seq!['C', 'A', '_', 'B', 'C', '_', 'R', 'E', 'S', 'E', 'L', 'L', 'E', 'R', '_', 'E', 'X', 'E', 'M', 'P', 'T', 'I', 'O', 'N'][0]);
            assert(seq!['U', 'S', '_', 'N', 'C', '_', 'R', 'E', 'S', 'E', 'L', 'L', 'E', 'R', '_', 'E', 'X', 'E', 'M', 'P', 'T', 'I', 'O', 'N'][0] != seq!['C', 'A', '_', 'M', 'B', '_', 'R', 'E', 'S', 'E', 'L', 'L', 'E', 'R', '_', 'E', 'X', 'E', 'M', 'P', 'T', 'I', 'O', 'N'][0]);
            assert(seq!['U', 'S', '_', 'N', 'C', '_', 'R', 'E', 'S', 'E', 'L', 'L', 'E', 'R', '_', 'E', 'X', 'E', 'M', 'P', 'T', 'I', 'O', 'N'][0] != seq!['C', 'A', '_', 'O', 'N', '_', 'P', 'U', 'R', 'C', 'H', 'A', 'S', 'E', '_', 'E', 'X', 'E', 'M', 'P', 'T', 'I', 'O', 'N'][0]);
            assert(seq!['U', 'S', '_', 'N', 'C', '_', 'R', 'E', 'S', 'E', 'L', 'L', 'E', 'R', '_', 'E', 'X', 'E', 'M', 'P', 'T', 'I', 'O', 'N'][0] != seq!['C', 'A', '_', 'S', 'K', '_', 'R', 'E', 'S', 'E', 'L', 'L', 'E', 'R', '_', 'E', 'X', 'E', 'M', 'P', 'T', 'I', 'O', 'N'][0]);
            assert(seq!['U', 'S', '_', 'N', 'C', '_', 'R', 'E', 'S', 'E', 'L', 'L', 'E', 'R', '_', 'E', 'X', 'E', 'M', 'P', 'T', 'I', 'O', 'N'][0] != seq!['C', 'A', '_', 'S', 'T', 'A', 'T', 'U', 'S', '_', 'C', 'A', 'R', 'D', '_', 'E', 'X', 'E', 'M', 'P', 'T', 'I', 'O', 'N'][0]);
            assert(seq!['U', 'S', '_', 'N', 'C', '_', 'R', 'E', 'S', 'E', 'L', 'L', 'E', 'R', '_', 'E', 'X', 'E', 'M', 'P', 'T', 'I', 'O', 'N'][3] != seq!['U', 'S', '_', 'A', 'K', '_', 'R', 'E', 'S', 'E', 'L', 'L', 'E', 'R', '_', 'E', 'X', 'E', 'M', 'P', 'T', 'I', 'O', 'N'][3]);
            assert(seq!['U', 'S', '_', 'N', 'C', '_', 'R', 'E', 'S', 'E', 'L', 'L', 'E', 'R', '_', 'E', 'X', 'E', 'M', 'P', 'T', 'I', 'O', 'N'][3] != seq!['U', 'S', '_', 'A', 'L', '_', 'R', 'E', 'S', 'E', 'L', 'L', 'E', 'R', '_', 'E', 'X', 'E', 'M', 'P', 'T', 'I', 'O', 'N'][3]);
            assert(seq!['U', 'S', '_', 'N', 'C', '_', 'R', 'E', 'S', 'E', 'L', 'L', 'E', 'R', '_', 'E', 'X', 'E', 'M', 'P', 'T', 'I', 'O', 'N'][3] != seq!['U', 'S', '_', 'A', 'R', '_', 'R', 'E', 'S', 'E', 'L', 'L', 'E', 'R', '_', 'E', 'X', 'E', 'M', 'P', 'T', 'I', 'O', 'N'][3]);
            assert(seq!['U', 'S', '_', 'N', 'C', '_', 'R', 'E', 'S', 'E', 'L', 'L', 'E', 'R', '_', 'E', 'X', 'E', 'M', 'P', 'T', 'I', 'O', 'N'][3] != seq!['U', 'S', '_', 'A', 'Z', '_', 'R', 'E', 'S', 'E', 'L', 'L', 'E', 'R', '_', 'E', 'X', 'E', 'M', 'P', 'T', 'I', 'O', 'N'][3]);
            assert(seq!['U', 'S', '_', 'N', 'C', '_', 'R', 'E', 'S', 'E', 'L', 'L', 'E', 'R', '_', 'E', 'X', 'E', 'M', 'P', 'T', 'I', 'O', 'N'][3] != seq!['U', 'S', '_', 'C', 'A', '_', 'R', 'E', 'S', 'E', 'L', 'L', 'E', 'R', '_', 'E', 'X', 'E', 'M', 'P', 'T', 'I', 'O', 'N'][3]);
            assert(seq!['U', 'S', '_', 'N', 'C', '_', 'R', 'E', 'S', 'E', 'L', 'L', 'E', 'R', '_', 'E', 'X', 'E', 'M', 'P', 'T', 'I', 'O', 'N'][3] != seq!['U', 'S', '_', 'C', 'O', '_', 'R', 'E', 'S', 'E', 'L', 'L', 'E', 'R', '_', 'E', 'X', 'E', 'M', 'P', 'T', 'I', 'O', 'N'][3]);
            assert(seq!['U', 'S', '_', 'N', 'C', '_', 'R', 'E', 'S', 'E', 'L', 'L', 'E', 'R', '_', 'E', 'X', 'E', 'M', 'P', 'T', 'I', 'O', 'N'][3] != seq!['U', 'S', '_', 'C', 'T', '_', 'R', 'E', 'S', 'E', 'L', 'L', 'E', 'R', '_', 'E', 'X', 'E', 'M', 'P', 'T', 'I', 'O', 'N'][3]);
            assert(seq!['U', 'S', '_', 'N', 'C', '_', 'R', 'E', 'S', 'E', 'L', 'L', 'E', 'R', '_', 'E', 'X', 'E', 'M', 'P', 'T', 'I', 'O', 'N'][3] != seq!['U', 'S', '_', 'D', 'C', '_', 'R', 'E', 'S', 'E', 'L', 'L', 'E', 'R', '_', 'E', 'X', 'E', 'M', 'P', 'T', 'I', 'O', 'N'][3]);
            assert(seq!['U', 'S', '_', 'N', 'C', '_', 'R', 'E', 'S', 'E', 'L', 'L', 'E', 'R', '_', 'E', 'X', 'E', 'M', 'P', 'T', 'I', 'O', 'N'][3] != seq!['U', 'S', '_', 'D', 'E', '_', 'R', 'E', 'S', 'E', 'L', 'L', 'E', 'R', '_', 'E', 'X', 'E', 'M', 'P', 'T', 'I', 'O', 'N'][3]);
            assert(seq!['U', 'S', '_', 'N', 'C', '_', 'R', 'E', 'S', 'E', 'L', 'L', 'E', 'R', '_', 'E', 'X', 'E', 'M', 'P', 'T', 'I', 'O', 'N'][3] != seq!['U', 'S', '_', 'F', 'L', '_', 'R', 'E', 'S', 'E', 'L', 'L', 'E', 'R', '_', 'E', 'X', 'E', 'M', 'P', 'T', 'I', 'O', 'N'][3]);
            assert(seq!['U', 'S', '_', 'N', 'C', '_', 'R', 'E', 'S', 'E', 'L', 'L', 'E', 'R', '_', 'E', 'X', 'E', 'M', 'P', 'T', 'I', 'O', 'N'][3] != seq!['U', 'S', '_', 'G', 'A', '_', 'R', 'E', 'S', 'E', 'L', 'L', 'E', 'R', '_', 'E', 'X', 'E', 'M', 'P', 'T', 'I', 'O', 'N'][3]);
            assert(seq!['U', 'S', '_', 'N', 'C', '_', 'R', 'E', 'S', 'E', 'L', 'L', 'E', 'R', '_', 'E', 'X', 'E', 'M', 'P', 'T', 'I', 'O', 'N'][3] != seq!['U', 'S', '_', 'H', 'I', '_', 'R', 'E', 'S', 'E', 'L', 'L', 'E', 'R', '_', 'E', 'X', 'E', 'M', 'P', 'T', 'I', 'O', 'N'][3]);
            assert(seq!['U', 'S', '_', 'N', 'C', '_', 'R', 'E', 'S', 'E', 'L', 'L', 'E', 'R', '_', 'E', 'X', 'E', 'M', 'P', 'T', 'I', 'O', 'N'][3] != seq!['U', 'S', '_', 'I', 'A', '_', 'R', 'E', 'S', 'E', 'L', 'L', 'E', 'R', '_', 'E', 'X', 'E', 'M', 'P', 'T', 'I', 'O', 'N'][3]);
            assert(seq!['U', 'S', '_', 'N', 'C', '_', 'R', 'E', 'S', 'E', 'L', 'L', 'E', 'R', '_', 'E', 'X', 'E', 'M', 'P', 'T', 'I', 'O', 'N'][3] != seq!['U', 'S', '_', 'I', 'D', '_', 'R', 'E', 'S', 'E', 'L', 'L', 'E', 'R', '_', 'E', 'X', 'E', 'M', 'P', 'T', 'I', 'O', 'N'][3]);
            assert(seq!['U', 'S', '_', 'N', 'C', '_', 'R', 'E', 'S', 'E', 'L', 'L', 'E', 'R', '_', 'E', 'X', 'E', 'M', 'P', 'T', 'I', 'O', 'N'][3] != seq!['U', 'S', '_', 'I', 'L', '_', 'R', 'E', 'S', 'E', 'L', 'L', 'E', 'R', '_', 'E', 'X', 'E', 'M', 'P', 'T', 'I', 'O', 'N'][3]);
            assert(seq!['U', 'S', '_', 'N', 'C', '_', 'R', 'E', 'S', 'E', 'L', 'L', 'E', 'R', '_', 'E', 'X', 'E', 'M', 'P', 'T', 'I', 'O', 'N'][3] != seq!['U', 'S', '_', 'I', 'N', '_', 'R', 'E', 'S', 'E', 'L', 'L', 'E', 'R', '_', 'E', 'X', 'E', 'M', 'P', 'T', 'I', 'O', 'N'][3]);
            assert(seq!['U', 'S', '_', 'N', 'C', '_', 'R', 'E', 'S', 'E', 'L', 'L', 'E', 'R', '_', 'E', 'X', 'E', 'M', 'P', 'T', 'I', 'O', 'N'][3] != seq!['U', 'S', '_', 'K', 'S', '_', 'R', 'E', 'S', 'E', 'L', 'L', 'E', 'R', '_', 'E', 'X', 'E', 'M', 'P', 'T', 'I', 'O', 'N'][3]);
            assert(seq!['U', 'S', '_', 'N', 'C', '_', 'R', 'E', 'S', 'E', 'L', 'L', 'E', 'R', '_', 'E', 'X', 'E', 'M', 'P', 'T', 'I', 'O', 'N'][3] != seq!['U', 'S', '_', 'K', 'Y', '_', 'R', 'E', 'S', 'E', 'L', 'L', 'E', 'R', '_', 'E', 'X', 'E', 'M', 'P', 'T', 'I', 'O', 'N'][3]);
            assert(seq!['U', 'S', '_', 'N', 'C', '_', 'R', 'E', 'S', 'E', 'L', 'L', 'E', 'R', '_', 'E', 'X', 'E', 'M', 'P', 'T', 'I', 'O', 'N'][3] != seq!['U', 'S', '_', 'L', 'A', '_', 'R', 'E', 'S', 'E', 'L', 'L', 'E', 'R', '_', 'E', 'X', 'E', 'M', 'P', 'T', 'I', 'O', 'N'][3]);
            assert(seq!['U', 'S', '_', 'N', 'C', '_', 'R', 'E', 'S', 'E', 'L', 'L', 'E', 'R', '_', 'E', 'X', 'E', 'M', 'P', 'T', 'I', 'O', 'N'][3] != seq!['U', 'S', '_', 'M', 'A', '_', 'R', 'E', 'S', 'E', 'L', 'L', 'E', 'R', '_', 'E', 'X', 'E', 'M', 'P', 'T', 'I', 'O', 'N'][3]);
            assert(seq!['U', 'S', '_', 'N', 'C', '_', 'R', 'E', 'S', 'E', 'L', 'L', 'E', 'R', '_', 'E', 'X', 'E', 'M', 'P', 'T', 'I', 'O', 'N'][3] != seq!['U', 'S', '_', 'M', 'D', '_', 'R', 'E', 'S', 'E', 'L', 'L', 'E', 'R', '_', 'E', 'X', 'E', 'M', 'P', 'T', 'I', 'O', 'N'][3]);
            assert(seq!['U', 'S', '_', 'N', 'C', '_', 'R', 'E', 'S', 'E', 'L', 'L', 'E', 'R', '_', 'E', 'X', 'E', 'M', 'P', 'T', 'I', 'O', 'N'][3] != seq!['U', 'S', '_', 'M', 'E', '_', 'R', 'E', 'S', 'E', 'L', 'L', 'E', 'R', '_', 'E', 'X', 'E', 'M', 'P', 'T', 'I', 'O', 'N'][3]);
            assert(seq!['U', 'S', '_', 'N', 'C', '_', 'R', 'E', 'S', 'E', 'L', 'L', 'E', 'R', '_', 'E', 'X', 'E', 'M', 'P', 'T', 'I', 'O', 'N'][3] != seq!['U', 'S', '_', 'M', 'I', '_', 'R', 'E', 'S', 'E', 'L', 'L', 'E', 'R', '_', 'E', 'X', 'E', 'M', 'P', 'T', 'I', 'O', 'N'][3]);
            assert(seq!['U', 'S', '_', 'N', 'C', '_', 'R', 'E', 'S', 'E', 'L', 'L', 'E', 'R', '_', 'E', 'X', 'E', 'M', 'P', 'T', 'I', 'O', 'N'][3] != seq!['U', 'S', '_', 'M', 'N', '_', 'R', 'E', 'S', 'E', 'L', 'L', 'E', 'R', '_', 'E', 'X', 'E', 'M', 'P', 'T', 'I', 'O', 'N'][3]);
            assert(seq!['U', 'S', '_', 'N', 'C', '_', 'R', 'E', 'S', 'E', 'L', 'L', 'E', 'R', '_', 'E', 'X', 'E', 'M', 'P', 'T', 'I', 'O', 'N'][3] != seq!['U', 'S', '_', 'M', 'O', '_', 'R', 'E', 'S', 'E', 'L', 'L', 'E', 'R', '_', 'E', 'X', 'E', 'M', 'P', 'T', 'I', 'O', 'N'][3]);
            assert(seq!['U', 'S', '_', 'N', 'C', '_', 'R', 'E', 'S', 'E', 'L', 'L', 'E', 'R', '_', 'E', 'X', 'E', 'M', 'P', 'T', 'I', 'O', 'N'][3] != seq!['U', 'S', '_', 'M', 'S', '_', 'R', 'E', 'S', 'E', 'L', 'L', 'E', 'R', '_', 'E', 'X', 'E', 'M', 'P', 'T', 'I', 'O', 'N'][3]);
            assert(seq!['U', 'S', '_', 'N', 'C', '_', 'R', 'E', 'S', 'E', 'L', 'L', 'E', 'R', '_', 'E', 'X', 'E', 'M', 'P', 'T', 'I', 'O', 'N'][3] != seq!['U', 'S', '_', 'M', 'T', '_', 'R', 'E', 'S', 'E', 'L', 'L', 'E', 'R', '_', 'E', 'X', 'E', 'M', 'P', 'T', 'I', 'O', 'N'][3]);
        },
        TaxExemption::US_ND_RESELLER_EXEMPTION => {
            assert(seq!['U', 'S', '_', 'N', 'D', '_', 'R', 'E', 'S', 'E', 'L', 'L', 'E', 'R', '_', 'E', 'X', 'E', 'M', 'P', 'T', 'I', 'O', 'N'][0] != seq!['C', 'A', '_', 'B', 'C', '_', 'R', 'E', 'S', 'E', 'L', 'L', 'E', 'R', '_', 'E', 'X', 'E', 'M', 'P', 'T', 'I', 'O', 'N'][0]);
            assert(seq!['U', 'S', '_', 'N', 'D', '_', 'R', 'E', 'S', 'E', 'L', 'L', 'E', 'R', '_', 'E', 'X', 'E', 'M', 'P', 'T', 'I', 'O', 'N'][0] != seq!['C', 'A', '_', 'M', 'B', '_', 'R', 'E', 'S', 'E', 'L', 'L', 'E', 'R', '_', 'E', 'X', 'E', 'M', 'P', 'T', 'I', 'O', 'N'][0]);
            assert(seq!['U', 'S', '_', 'N', 'D', '_', 'R', 'E', 'S', 'E', 'L', 'L', 'E', 'R', '_', 'E', 'X', 'E', 'M', 'P', 'T', 'I', 'O', 'N'][0] != seq!['C', 'A', '_', 'O', 'N', '_', 'P', 'U', 'R', 'C', 'H', 'A', 'S', 'E', '_', 'E', 'X', 'E', 'M', 'P', 'T', 'I', 'O', 'N'][0]);
            assert(seq!['U', 'S', '_', 'N', 'D', '_', 'R', 'E', 'S', 'E', 'L', 'L', 'E', 'R', '_', 'E', 'X', 'E', 'M', 'P', 'T', 'I', 'O', 'N'][0] != seq!['C', 'A', '_', 'S', 'K', '_', 'R', 'E', 'S', 'E', 'L', 'L', 'E', 'R', '_', 'E', 'X', 'E', 'M', 'P', 'T', 'I', 'O', 'N'][0]);
            assert(seq!['U', 'S', '_', 'N', 'D', '_', 'R', 'E', 'S', 'E', 'L', 'L', 'E', 'R', '_', 'E', 'X', 'E', 'M', 'P', 'T', 'I', 'O', 'N'][0] != seq!['C', 'A', '_', 'S', 'T', 'A', 'T', 'U', 'S', '_', 'C', 'A', 'R', 'D', '_', 'E', 'X', 'E', 'M', 'P', 'T', 'I', 'O', 'N'][0]);
            assert(seq!['U', 'S', '_', 'N', 'D', '_', 'R', 'E', 'S', 'E', 'L', 'L', 'E', 'R', '_', 'E', 'X', 'E', 'M', 'P', 'T', 'I', 'O', 'N'][3] != seq!['U', 'S', '_', 'A', 'K', '_', 'R', 'E', 'S', 'E', 'L', 'L', 'E', 'R', '_', 'E', 'X', 'E', 'M', 'P', 'T', 'I', 'O', 'N'][3]);
            assert(seq!['U', 'S', '_', 'N', 'D', '_', 'R', 'E', 'S', 'E', 'L', 'L', 'E', 'R', '_', 'E', 'X', 'E', 'M', 'P', 'T', 'I', 'O', 'N'][3] != seq!['U', 'S', '_', 'A', 'L', '_', 'R', 'E', 'S', 'E', 'L', 'L', 'E', 'R', '_', 'E', 'X', 'E', 'M', 'P', 'T', 'I', 'O', 'N'][3]);
            assert(seq!['U', 'S', '_', 'N', 'D', '_', 'R', 'E', 'S', 'E', 'L', 'L', 'E', 'R', '_', 'E', 'X', 'E', 'M', 'P', 'T', 'I', 'O', 'N'][3] != seq!['U', 'S', '_', 'A', 'R', '_', 'R', 'E', 'S', 'E', 'L', 'L', 'E', 'R', '_', 'E', 'X', 'E', 'M', 'P', 'T', 'I', 'O', 'N'][3]);
            assert(seq!['U', 'S', '_', 'N', 'D', '_', 'R', 'E', 'S', 'E', 'L', 'L', 'E', 'R', '_', 'E', 'X', 'E', 'M', 'P', 'T', 'I', 'O', 'N'][3] != seq!['U', 'S', '_', 'A', 'Z', '_', 'R', 'E', 'S', 'E', 'L', 'L', 'E', 'R', '_', 'E', 'X', 'E', 'M', 'P', 'T', 'I', 'O', 'N'][3]);
            assert(seq!['U', 'S', '_', 'N', 'D', '_', 'R', 'E', 'S', 'E', 'L', 'L', 'E', 'R', '_', 'E', 'X', 'E', 'M', 'P', 'T', 'I', 'O', 'N'][3] != seq!['U', 'S', '_', 'C', 'A', '_', 'R', 'E', 'S', 'E', 'L', 'L', 'E', 'R', '_', 'E', 'X', 'E', 'M', 'P', 'T', 'I', 'O', 'N'][3]);
            assert(seq!['U', 'S', '_', 'N', 'D', '_', 'R', 'E', 'S', 'E', 'L', 'L', 'E', 'R', '_', 'E', 'X', 'E', 'M', 'P', 'T', 'I', 'O', 'N'][3] != seq!['U', 'S', '_', 'C', 'O', '_', 'R', 'E', 'S', 'E', 'L', 'L', 'E', 'R', '_', 'E', 'X', 'E', 'M', 'P', 'T', 'I', 'O', 'N'][3]);
            assert(seq!['U', 'S', '_', 'N', 'D', '_', 'R', 'E', 'S', 'E', 'L', 'L', 'E', 'R', '_', 'E', 'X', 'E', 'M', 'P', 'T', 'I', 'O', 'N'][3] != seq!['U', 'S', '_', 'C', 'T', '_', 'R', 'E', 'S', 'E', 'L', 'L', 'E', 'R', '_', 'E', 'X', 'E', 'M', 'P', 'T', 'I', 'O', 'N'][3]);
            assert(seq!['U', 'S', '_', 'N', 'D', '_', 'R', 'E', 'S', 'E', 'L', 'L', 'E', 'R', '_', 'E', 'X', 'E', 'M', 'P', 'T', 'I', 'O', 'N'][3] != seq!['U', 'S', '_', 'D', 'C', '_', 'R', 'E', 'S', 'E', 'L', 'L', 'E', 'R', '_', 'E', 'X', 'E', 'M', 'P', 'T', 'I', 'O', 'N'][3]);
            assert(seq!['U', 'S', '_', 'N', 'D', '_', 'R', 'E', 'S', 'E', 'L', 'L', 'E', 'R', '_', 'E', 'X', 'E', 'M', 'P', 'T', 'I', 'O', 'N'][3] != seq!['U', 'S', '_', 'D', 'E', '_', 'R', 'E', 'S', 'E', 'L', 'L', 'E', 'R', '_', 'E', 'X', 'E', 'M', 'P', 'T', 'I', 'O', 'N'][3]);
            assert(seq!['U', 'S', '_', 'N', 'D', '_', 'R', 'E', 'S', 'E', 'L', 'L', 'E', 'R', '_', 'E', 'X', 'E', 'M', 'P', 'T', 'I', 'O', 'N'][3] != seq!['U', 'S', '_', 'F', 'L', '_', 'R', 'E', 'S', 'E', 'L', 'L', 'E', 'R', '_', 'E', 'X', 'E', 'M', 'P', 'T', 'I', 'O', 'N'][3]);
            assert(seq!['U', 'S', '_', 'N', 'D', '_', 'R', 'E', 'S', 'E', 'L', 'L', 'E', 'R', '_', 'E', 'X', 'E', 'M', 'P', 'T', 'I', 'O', 'N'][3] != seq!['U', 'S', '_', 'G', 'A', '_', 'R', 'E', 'S', 'E', 'L', 'L', 'E', 'R', '_', 'E', 'X', 'E', 'M', 'P', 'T', 'I', 'O', 'N'][3]);
            assert(seq!['U', 'S', '_', 'N', 'D', '_', 'R', 'E', 'S', 'E', 'L', 'L', 'E', 'R', '_', 'E', 'X', 'E', 'M', 'P', 'T', 'I', 'O', 'N'][3] != seq!['U', 'S', '_', 'H', 'I', '_', 'R', 'E', 'S', 'E', 'L', 'L', 'E', 'R', '_', 'E', 'X', 'E', 'M', 'P', 'T', 'I', 'O', 'N'][3]);
            assert(seq!['U', 'S', '_', 'N', 'D', '_', 'R', 'E', 'S', 'E', 'L', 'L', 'E', 'R', '_', 'E', 'X', 'E', 'M', 'P', 'T', 'I', 'O', 'N'][3] != seq!['U', 'S', '_', 'I', 'A', '_', 'R', 'E', 'S', 'E', 'L', 'L', 'E', 'R', '_', 'E', 'X', 'E', 'M', 'P', 'T', 'I', 'O', 'N'][3]);
            assert(seq!['U', 'S', '_', 'N', 'D', '_', 'R', 'E', 'S', 'E', 'L', 'L', 'E', 'R', '_', 'E', 'X', 'E', 'M', 'P', 'T', 'I', 'O', 'N'][3] != seq!['U', 'S', '_', 'I', 'D', '_', 'R', 'E', 'S', 'E', 'L', 'L', 'E', 'R', '_', 'E', 'X', 'E', 'M', 'P', 'T', 'I', 'O', 'N'][3]);
            assert(seq!['U', 'S', '_', 'N', 'D', '_', 'R', 'E', 'S', 'E', 'L', 'L', 'E', 'R', '_', 'E', 'X', 'E', 'M', 'P', 'T', 'I', 'O', 'N'][3] != seq!['U', 'S', '_', 'I', 'L', '_', 'R', 'E', 'S', 'E', 'L', 'L', 'E', 'R', '_', 'E', 'X', 'E', 'M', 'P', 'T', 'I', 'O', 'N'][3]);
            assert(seq!['U', 'S', '_', 'N', 'D', '_', 'R', 'E', 'S', 'E', 'L', 'L', 'E', 'R', '_', 'E', 'X', 'E', 'M', 'P', 'T', 'I', 'O', 'N'][3] != seq!['U', 'S', '_', 'I', 'N', '_', 'R', 'E', 'S', 'E', 'L', 'L', 'E', 'R', '_', 'E', 'X', 'E', 'M', 'P', 'T', 'I', 'O', 'N'][3]);
            assert(seq!['U', 'S', '_', 'N', 'D', '_', 'R', 'E', 'S', 'E', 'L', 'L', 'E', 'R', '_', 'E', 'X', 'E', 'M', 'P', 'T', 'I', 'O', 'N'][3] != seq!['U', 'S', '_', 'K', 'S', '_', 'R', 'E', 'S', 'E', 'L', 'L', 'E', 'R', '_', 'E', 'X', 'E', 'M', 'P', 'T', 'I', 'O', 'N'][3]);
            assert(seq!['U', 'S', '_', 'N', 'D', '_', 'R', 'E', 'S', 'E', 'L', 'L', 'E', 'R', '_', 'E', 'X', 'E', 'M', 'P', 'T', 'I', 'O', 'N'][3] != seq!['U', 'S', '_', 'K', 'Y', '_', 'R', 'E', 'S', 'E', 'L', 'L', 'E', 'R', '_', 'E', 'X', 'E', 'M', 'P', 'T', 'I', 'O', 'N'][3]);
            assert(seq!['U', 'S', '_', 'N', 'D', '_', 'R', 'E', 'S', 'E', 'L', 'L', 'E', 'R', '_', 'E', 'X', 'E', 'M', 'P', 'T', 'I', 'O', 'N'][3] != seq!['U', 'S', '_', 'L', 'A', '_', 'R', 'E', 'S', 'E', 'L', 'L', 'E', 'R', '_', 'E', 'X', 'E', 'M', 'P', 'T', 'I', 'O', 'N'][3]);
            assert(seq!['U', 'S', '_', 'N', 'D', '_', 'R', 'E', 'S', 'E', 'L', 'L', 'E', 'R', '_', 'E', 'X', 'E', 'M', 'P', 'T', 'I', 'O', 'N'][3] != seq!['U', 'S', '_', 'M', 'A', '_', 'R', 'E', 'S', 'E', 'L', 'L', 'E', 'R', '_', 'E', 'X', 'E', 'M', 'P', 'T', 'I', 'O', 'N'][3]);
            assert(seq!['U', 'S', '_', 'N', 'D', '_', 'R', 'E', 'S', 'E', 'L', 'L', 'E', 'R', '_', 'E', 'X', 'E', 'M', 'P', 'T', 'I', 'O', 'N'][3] != seq!['U', 'S', '_', 'M', 'D', '_', 'R', 'E', 'S', 'E', 'L', 'L', 'E', 'R', '_', 'E', 'X', 'E', 'M', 'P', 'T', 'I', 'O', 'N'][3]);
            assert(seq!['U', 'S', '_', 'N', 'D', '_', 'R', 'E', 'S', 'E', 'L', 'L', 'E', 'R', '_', 'E', 'X', 'E', 'M', 'P', 'T', 'I', 'O', 'N'][3] != seq!['U', 'S', '_', 'M', 'E', '_', 'R', 'E', 'S', 'E', 'L', 'L', 'E', 'R', '_', 'E', 'X', 'E', 'M', 'P', 'T', 'I', 'O', 'N'][3]);
            assert(seq!['U', 'S', '_', 'N', 'D', '_', 'R', 'E', 'S', 'E', 'L', 'L', 'E', 'R', '_', 'E', 'X', 'E', 'M', 'P', 'T', 'I', 'O', 'N'][3] != seq!['U', 'S', '_', 'M', 'I', '_', 'R', 'E', 'S', 'E', 'L', 'L', 'E', 'R', '_', 'E', 'X', 'E', 'M', 'P', 'T', 'I', 'O', 'N'][3]);
            assert(seq!['U', 'S', '_', 'N', 'D', '_', 'R', 'E', 'S', 'E', 'L', 'L', 'E', 'R', '_', 'E', 'X', 'E', 'M', 'P', 'T', 'I', 'O', 'N'][3] != seq!['U', 'S', '_', 'M', 'N', '_', 'R', 'E', 'S', 'E', 'L', 'L', 'E', 'R', '_', 'E', 'X', 'E', 'M', 'P', 'T', 'I', 'O', 'N'][3]);
            assert(seq!['U', 'S', '_', 'N', 'D', '_', 'R', 'E', 'S', 'E', 'L', 'L', 'E', 'R', '_', 'E', 'X', 'E', 'M', 'P', 'T', 'I', 'O', 'N'][3] != seq!['U', 'S', '_', 'M', 'O', '_', 'R', 'E', 'S', 'E', 'L', 'L', 'E', 'R', '_', 'E', 'X', 'E', 'M', 'P', 'T', 'I', 'O', 'N'][3]);
            assert(seq!['U', 'S', '_', 'N', 'D', '_', 'R', 'E', 'S', 'E', 'L', 'L', 'E', 'R', '_', 'E', 'X', 'E', 'M', 'P', 'T', 'I', 'O', 'N'][3] != seq!['U', 'S', '_', 'M', 'S', '_', 'R', 'E', 'S', 'E', 'L', 'L', 'E', 'R', '_', 'E', 'X', 'E', 'M', 'P', 'T', 'I', 'O', 'N'][3]);
            assert(seq!['U', 'S', '_', 'N', 'D', '_', 'R', 'E', 'S', 'E', 'L', 'L', 'E', 'R', '_', 'E', 'X', 'E', 'M', 'P', 'T', 'I', 'O', 'N'][3] != seq!['U', 'S', '_', 'M', 'T', '_', 'R', 'E', 'S', 'E', 'L', 'L', 'E', 'R', '_', 'E', 'X', 'E', 'M', 'P', 'T', 'I', 'O', 'N'][3]);
            assert(seq!['U', 'S', '_', 'N', 'D', '_', 'R', 'E', 'S', 'E', 'L', 'L', 'E', 'R', '_', 'E', 'X', 'E', 'M', 'P', 'T', 'I', 'O', 'N'][4] != seq!['U', 'S', '_', 'N', 'C', '_', 'R', 'E', 'S', 'E', 'L', 'L', 'E', 'R', '_', 'E', 'X', 'E', 'M', 'P', 'T', 'I', 'O', 'N'][4]);
        },
        TaxExemption::US_NE_RESELLER_EXEMPTION => {
            assert(seq!['U', 'S', '_', 'N', 'E', '_', 'R', 'E', 'S', 'E', 'L', 'L', 'E', 'R', '_', 'E', 'X', 'E', 'M', 'P', 'T', 'I', 'O', 'N'][0] != seq!['C', 'A', '_', 'B', 'C', '_', 'R', 'E', 'S', 'E', 'L', 'L', 'E', 'R', '_', 'E', 'X', 'E', 'M', 'P', 'T', 'I', 'O', 'N'][0]);
            assert(seq!['U', 'S', '_', 'N', 'E', '_', 'R', 'E', 'S', 'E', 'L', 'L', 'E', 'R', '_', 'E', 'X', 'E', 'M', 'P', 'T', 'I', 'O', 'N'][0] != seq!['C', 'A', '_', 'M', 'B', '_', 'R', 'E', 'S', 'E', 'L', 'L', 'E', 'R', '_', 'E', 'X', 'E', 'M', 'P', 'T', 'I', 'O', 'N'][0]);
            assert(seq!['U', 'S', '_', 'N', 'E', '_', 'R', 'E', 'S', 'E', 'L', 'L', 'E', 'R', '_', 'E', 'X', 'E', 'M', 'P', 'T', 'I', 'O', 'N'][0] != seq!['C', 'A', '_', 'O', 'N', '_', 'P', 'U', 'R', 'C', 'H', 'A', 'S', 'E', '_', 'E', 'X', 'E', 'M', 'P', 'T', 'I', 'O', 'N'][0]);
            assert(seq!['U', 'S', '_', 'N', 'E', '_', 'R', 'E', 'S', 'E', 'L', 'L', 'E', 'R', '_', 'E', 'X', 'E', 'M', 'P', 'T', 'I', 'O', 'N'][0] != seq!['C', 'A', '_', 'S', 'K', '_', 'R', 'E', 'S', 'E', 'L', 'L', 'E', 'R', '_', 'E', 'X', 'E', 'M', 'P', 'T', 'I', 'O', 'N'][0]);
            assert(seq!['U', 'S', '_', 'N', 'E', '_', 'R', 'E', 'S', 'E', 'L', 'L', 'E', 'R', '_', 'E', 'X', 'E', 'M', 'P', 'T', 'I', 'O', 'N'][0] != seq!['C', 'A', '_', 'S', 'T', 'A', 'T', 'U', 'S', '_', 'C', 'A', 'R', 'D', '_', 'E', 'X', 'E', 'M', 'P', 'T', 'I', 'O', 'N'][0]);
            assert(seq!['U', 'S', '_', 'N', 'E', '_', 'R', 'E', 'S', 'E', 'L', 'L', 'E', 'R', '_', 'E', 'X', 'E', 'M', 'P', 'T', 'I', 'O', 'N'][3] != seq!['U', 'S', '_', 'A', 'K', '_', 'R', 'E', 'S', 'E', 'L', 'L', 'E', 'R', '_', 'E', 'X', 'E', 'M', 'P', 'T', 'I', 'O', 'N'][3]);
            assert(seq!['U', 'S', '_', 'N', 'E', '_', 'R', 'E', 'S', 'E', 'L', 'L', 'E', 'R', '_', 'E', 'X', 'E', 'M', 'P', 'T', 'I', 'O', 'N'][3] != seq!['U', 'S', '_', 'A', 'L', '_', 'R', 'E', 'S', 'E', 'L', 'L', 'E', 'R', '_', 'E', 'X', 'E', 'M', 'P', 'T', 'I', 'O', 'N'][3]);
            assert(seq!['U', 'S', '_', 'N', 'E', '_', 'R', 'E', 'S', 'E', 'L', 'L', 'E', 'R', '_', 'E', 'X', 'E', 'M', 'P', 'T', 'I', 'O', 'N'][3] != seq!['U', 'S', '_', 'A', 'R', '_', 'R', 'E', 'S', 'E', 'L', 'L', 'E', 'R', '_', 'E', 'X', 'E', 'M', 'P', 'T', 'I', 'O', 'N'][3]);
            assert(seq!['U', 'S', '_', 'N', 'E', '_', 'R', 'E', 'S', 'E', 'L', 'L', 'E', 'R', '_', 'E', 'X', 'E', 'M', 'P', 'T', 'I', 'O', 'N'][3] != seq!['U', 'S', '_', 'A', 'Z', '_', 'R', 'E', 'S', 'E', 'L', 'L', 'E', 'R', '_', 'E', 'X', 'E', 'M', 'P', 'T', 'I', 'O', 'N'][3]);
            assert(seq!['U', 'S', '_', 'N', 'E', '_', 'R', 'E', 'S', 'E', 'L', 'L', 'E', 'R', '_', 'E', 'X', 'E', 'M', 'P', 'T', 'I', 'O', 'N'][3] != seq!['U', 'S', '_', 'C', 'A', '_', 'R', 'E', 'S', 'E', 'L', 'L', 'E', 'R', '_', 'E', 'X', 'E', 'M', 'P', 'T', 'I', 'O', 'N'][3]);
            assert(seq!['U', 'S', '_', 'N', 'E', '_', 'R', 'E', 'S', 'E', 'L', 'L', 'E', 'R', '_', 'E', 'X', 'E', 'M', 'P', 'T', 'I', 'O', 'N'][3] != seq!['U', 'S', '_', 'C', 'O', '_', 'R', 'E', 'S', 'E', 'L', 'L', 'E', 'R', '_', 'E', 'X', 'E', 'M', 'P', 'T', 'I', 'O', 'N'][3]);
            assert(seq!['U', 'S', '_', 'N', 'E', '_', 'R', 'E', 'S', 'E', 'L', 'L', 'E', 'R', '_', 'E', 'X', 'E', 'M', 'P', 'T', 'I', 'O', 'N'][3] != seq!['U', 'S', '_', 'C', 'T', '_', 'R', 'E', 'S', 'E', 'L', 'L', 'E', 'R', '_', 'E', 'X', 'E', 'M', 'P', 'T', 'I', 'O', 'N'][3]);
            assert(seq!['U', 'S', '_', 'N', 'E', '_', 'R', 'E', 'S', 'E', 'L', 'L', 'E', 'R', '_', 'E', 'X', 'E', 'M', 'P', 'T', 'I', 'O', 'N'][3] != seq!['U', 'S', '_', 'D', 'C', '_', 'R', 'E', 'S', 'E', 'L', 'L', 'E', 'R', '_', 'E', 'X', 'E', 'M', 'P', 'T', 'I', 'O', 'N'][3]);
            assert(seq!['U', 'S', '_', 'N', 'E', '_', 'R', 'E', 'S', 'E', 'L', 'L', 'E', 'R', '_', 'E', 'X', 'E', 'M', 'P', 'T', 'I', 'O', 'N'][3] != seq!['U', 'S', '_', 'D', 'E', '_', 'R', 'E', 'S', 'E', 'L', 'L', 'E', 'R', '_', 'E', 'X', 'E', 'M', 'P', 'T', 'I', 'O', 'N'][3]);
            assert(seq!['U', 'S', '_', 'N', 'E', '_', 'R', 'E', 'S', 'E', 'L', 'L', 'E', 'R', '_', 'E', 'X', 'E', 'M', 'P', 'T', 'I', 'O', 'N'][3] != seq!['U', 'S', '_', 'F', 'L', '_', 'R', 'E', 'S', 'E', 'L', 'L', 'E', 'R', '_', 'E', 'X', 'E', 'M', 'P', 'T', 'I', 'O', 'N'][3]);
            assert(seq!['U', 'S', '_', 'N', 'E', '_', 'R', 'E', 'S', 'E', 'L', 'L', 'E', 'R', '_', 'E', 'X', 'E', 'M', 'P', 'T', 'I', 'O', 'N'][3] != seq!['U', 'S', '_', 'G', 'A', '_', 'R', 'E', 'S', 'E', 'L', 'L', 'E', 'R', '_', 'E', 'X', 'E', 'M', 'P', 'T', 'I', 'O', 'N'][3]);
            assert(seq!['U', 'S', '_', 'N', 'E', '_', 'R', 'E', 'S', 'E', 'L', 'L', 'E', 'R', '_', 'E', 'X', 'E', 'M', 'P', 'T', 'I', 'O', 'N'][3] != seq!['U', 'S', '_', 'H', 'I', '_', 'R', 'E', 'S', 'E', 'L', 'L', 'E', 'R', '_', 'E', 'X', 'E', 'M', 'P', 'T', 'I', 'O', 'N'][3]);
            assert(seq!['U', 'S', '_', 'N', 'E', '_', 'R', 'E', 'S', 'E', 'L', 'L', 'E', 'R', '_', 'E', 'X', 'E', 'M', 'P', 'T', 'I', 'O', 'N'][3] != seq!['U', 'S', '_', 'I', 'A', '_', 'R', 'E', 'S', 'E', 'L', 'L', 'E', 'R', '_', 'E', 'X', 'E', 'M', 'P', 'T', 'I', 'O', 'N'][3]);
            assert(seq!['U', 'S', '_', 'N', 'E', '_', 'R', 'E', 'S', 'E', 'L', 'L', 'E', 'R', '_', 'E', 'X', 'E', 'M', 'P', 'T', 'I', 'O', 'N'][3] != seq!['U', 'S', '_', 'I', 'D', '_', 'R', 'E', 'S', 'E', 'L', 'L', 'E', 'R', '_', 'E', 'X', 'E', 'M', 'P', 'T', 'I', 'O', 'N'][3]);
            assert(seq!['U', 'S', '_', 'N', 'E', '_', 'R', 'E', 'S', 'E', 'L', 'L', 'E', 'R', '_', 'E', 'X', 'E', 'M', 'P', 'T', 'I', 'O', 'N'][3] != seq!['U', 'S', '_', 'I', 'L', '_', 'R', 'E', 'S', 'E', 'L', 'L', 'E', 'R', '_', 'E', 'X', 'E', 'M', 'P', 'T', 'I', 'O', 'N'][3]);
            assert(seq!['U', 'S', '_', 'N', 'E', '_', 'R', 'E', 'S', 'E', 'L', 'L', 'E', 'R', '_', 'E', 'X', 'E', 'M', 'P', 'T', 'I', 'O', 'N'][3] != seq!['U', 'S', '_', 'I', 'N', '_', 'R', 'E', 'S', 'E', 'L', 'L', 'E', 'R', '_', 'E', 'X', 'E', 'M', 'P', 'T', 'I', 'O', 'N'][3]);
            assert(seq!['U', 'S', '_', 'N', 'E', '_', 'R', 'E', 'S', 'E', 'L', 'L', 'E', 'R', '_', 'E', 'X', 'E', 'M', 'P', 'T', 'I', 'O', 'N'][3] != seq!['U', 'S', '_', 'K', 'S', '_', 'R', 'E', 'S', 'E', 'L', 'L', 'E', 'R', '_', 'E', 'X', 'E', 'M', 'P', 'T', 'I', 'O', 'N'][3]);
            assert(seq!['U', 'S', '_', 'N', 'E', '_', 'R', 'E', 'S', 'E', 'L', 'L', 'E', 'R', '_', 'E', 'X', 'E', 'M', 'P', 'T', 'I', 'O', 'N'][3] != seq!['U', 'S', '_', 'K', 'Y', '_', 'R', 'E', 'S', 'E', 'L', 'L', 'E', 'R', '_', 'E', 'X', 'E', 'M', 'P', 'T', 'I', 'O', 'N'][3]);
            assert(seq!['U', 'S', '_', 'N', 'E', '_', 'R', 'E', 'S', 'E', 'L', 'L', 'E', 'R', '_', 'E', 'X', 'E', 'M', 'P', 'T', 'I', 'O', 'N'][3] != seq!['U', 'S', '_', 'L', 'A', '_', 'R', 'E', 'S', 'E', 'L', 'L', 'E', 'R', '_', 'E', 'X', 'E', 'M', 'P', 'T', 'I', 'O', 'N'][3]);
            assert(seq!['U', 'S', '_', 'N', 'E', '_', 'R', 'E', 'S', 'E', 'L', 'L', 'E', 'R', '_', 'E', 'X', 'E', 'M', 'P', 'T', 'I', 'O', 'N'][3] != seq!['U', 'S', '_', 'M', 'A', '_', 'R', 'E', 'S', 'E', 'L', 'L', 'E', 'R', '_', 'E', 'X', 'E', 'M', 'P', 'T', 'I', 'O', 'N'][3]);
            assert(seq!['U', 'S', '_', 'N', 'E', '_', 'R', 'E', 'S', 'E', 'L', 'L', 'E', 'R', '_', 'E', 'X', 'E', 'M', 'P', 'T', 'I', 'O', 'N'][3] != seq!['U', 'S', '_', 'M', 'D', '_', 'R', 'E', 'S', 'E', 'L', 'L', 'E', 'R', '_', 'E', 'X', 'E', 'M', 'P', 'T', 'I', 'O', 'N'][3]);
            assert(seq!['U', 'S', '_', 'N', 'E', '_', 'R', 'E', 'S', 'E', 'L', 'L', 'E', 'R', '_', 'E', 'X', 'E', 'M', 'P', 'T', 'I', 'O', 'N'][3] != seq!['U', 'S', '_', 'M', 'E', '_', 'R', 'E', 'S', 'E', 'L', 'L', 'E', 'R', '_', 'E', 'X', 'E', 'M', 'P', 'T', 'I', 'O', 'N'][3]);
            assert(seq!['U', 'S', '_', 'N', 'E', '_', 'R', 'E', 'S', 'E', 'L', 'L', 'E', 'R', '_', 'E', 'X', 'E', 'M', 'P', 'T', 'I', 'O', 'N'][3] != seq!['U', 'S', '_', 'M', 'I', '_', 'R', 'E', 'S', 'E', 'L', 'L', 'E', 'R', '_', 'E', 'X', 'E', 'M', 'P', 'T', 'I', 'O', 'N'][3]);
            assert(seq!['U', 'S', '_', 'N', 'E', '_', 'R', 'E', 'S', 'E', 'L', 'L', 'E', 'R', '_', 'E', 'X', 'E', 'M', 'P', 'T', 'I', 'O', 'N'][3] != seq!['U', 'S', '_', 'M', 'N', '_', 'R', 'E', 'S', 'E', 'L', 'L', 'E', 'R', '_', 'E', 'X', 'E', 'M', 'P', 'T', 'I', 'O', 'N'][3]);
            assert(seq!['U', 'S', '_', 'N', 'E', '_', 'R', 'E', 'S', 'E', 'L', 'L', 'E', 'R', '_', 'E', 'X', 'E', 'M', 'P', 'T', 'I', 'O', 'N'][3] != seq!['U', 'S', '_', 'M', 'O', '_', 'R', 'E', 'S', 'E', 'L', 'L', 'E', 'R', '_', 'E', 'X', 'E', 'M', 'P', 'T', 'I', 'O', 'N'][3]);
            assert(seq!['U', 'S', '_', 'N', 'E', '_', 'R', 'E', 'S', 'E', 'L', 'L', 'E', 'R', '_', 'E', 'X', 'E', 'M', 'P', 'T', 'I', 'O', 'N'][3] != seq!['U', 'S', '_', 'M', 'S', '_', 'R', 'E', 'S', 'E', 'L', 'L', 'E', 'R', '_', 'E', 'X', 'E', 'M', 'P', 'T', 'I', 'O', 'N'][3]);
            assert(seq!['U', 'S', '_', 'N', 'E', '_', 'R', 'E', 'S', 'E', 'L', 'L', 'E', 'R', '_', 'E', 'X', 'E', 'M', 'P', 'T', 'I', 'O', 'N'][3] != seq!['U', 'S', '_', 'M', 'T', '_', 'R', 'E', 'S', 'E', 'L', 'L', 'E', 'R', '_', 'E', 'X', 'E', 'M', 'P', 'T', 'I', 'O', 'N'][3]);
            assert(seq!['U', 'S', '_', 'N', 'E', '_', 'R', 'E', 'S', 'E', 'L', 'L', 'E', 'R', '_', 'E', 'X', 'E', 'M', 'P', 'T', 'I', 'O', 'N'][4] != seq!['U', 'S', '_', 'N', 'C', '_', 'R', 'E', 'S', 'E', 'L', 'L', 'E', 'R', '_', 'E', 'X', 'E', 'M', 'P', 'T', 'I', 'O', 'N'][4]);
            assert(seq!['U', 'S', '_', 'N', 'E', '_', 'R', 'E', 'S', 'E', 'L', 'L', 'E', 'R', '_', 'E', 'X', 'E', 'M', 'P', 'T', 'I', 'O', 'N'][4] != seq!['U', 'S', '_', 'N', 'D', '_', 'R', 'E', 'S', 'E', 'L', 'L', 'E', 'R', '_', 'E', 'X', 'E', 'M', 'P', 'T', 'I', 'O', 'N'][4]);
        },
        TaxExemption::US_NH_RESELLER_EXEMPTION => {
            assert(seq!['U', 'S', '_', 'N', 'H', '_', 'R', 'E', 'S', 'E', 'L', 'L', 'E', 'R', '_', 'E', 'X', 'E', 'M', 'P', 'T', 'I', 'O', 'N'][0] != seq!['C', 'A', '_', 'B', 'C', '_', 'R', 'E', 'S', 'E', 'L', 'L', 'E', 'R', '_', 'E', 'X', 'E', 'M', 'P', 'T', 'I', 'O', 'N'][0]);
            assert(seq!['U', 'S', '_', 'N', 'H', '_', 'R', 'E', 'S', 'E', 'L', 'L', 'E', 'R', '_', 'E', 'X', 'E', 'M', 'P', 'T', 'I', 'O', 'N'][0] != seq!['C', 'A', '_', 'M', 'B', '_', 'R', 'E', 'S', 'E', 'L', 'L', 'E', 'R', '_', 'E', 'X', 'E', 'M', 'P', 'T', 'I', 'O', 'N'][0]);
            assert(seq!['U', 'S', '_', 'N', 'H', '_', 'R', 'E', 'S', 'E', 'L', 'L', 'E', 'R', '_', 'E', 'X', 'E', 'M', 'P', 'T', 'I', 'O', 'N'][0] != seq!['C', 'A', '_', 'O', 'N', '_', 'P', 'U', 'R', 'C', 'H', 'A', 'S', 'E', '_', 'E', 'X', 'E', 'M', 'P', 'T', 'I', 'O', 'N'][0]);
            assert(seq!['U', 'S', '_', 'N', 'H', '_', 'R', 'E', 'S', 'E', 'L', 'L', 'E', 'R', '_', 'E', 'X', 'E', 'M', 'P', 'T', 'I', 'O', 'N'][0] != seq!['C', 'A', '_', 'S', 'K', '_', 'R', 'E', 'S', 'E', 'L', 'L', 'E', 'R', '_', 'E', 'X', 'E', 'M', 'P', 'T', 'I', 'O', 'N'][0]);
            assert(seq!['U', 'S', '_', 'N', 'H', '_', 'R', 'E', 'S', 'E', 'L', 'L', 'E', 'R', '_', 'E', 'X', 'E', 'M', 'P', 'T', 'I', 'O', 'N'][0] != seq!['C', 'A', '_', 'S', 'T', 'A', 'T', 'U', 'S', '_', 'C', 'A', 'R', 'D', '_', 'E', 'X', 'E', 'M', 'P', 'T', 'I', 'O', 'N'][0]);
            assert(seq!['U', 'S', '_', 'N', 'H', '_', 'R', 'E', 'S', 'E', 'L', 'L', 'E', 'R', '_', 'E', 'X', 'E', 'M', 'P', 'T', 'I', 'O', 'N'][3] != seq!['U', 'S', '_', 'A', 'K', '_', 'R', 'E', 'S', 'E', 'L', 'L', 'E', 'R', '_', 'E', 'X', 'E', 'M', 'P', 'T', 'I', 'O', 'N'][3]);
            assert(seq!['U', 'S', '_', 'N', 'H', '_', 'R', 'E', 'S', 'E', 'L', 'L', 'E', 'R', '_', 'E', 'X', 'E', 'M', 'P', 'T', 'I', 'O', 'N'][3] != seq!['U', 'S', '_', 'A', 'L', '_', 'R', 'E', 'S', 'E', 'L', 'L', 'E', 'R', '_', 'E', 'X', 'E', 'M', 'P', 'T', 'I', 'O', 'N'][3]);
            assert(seq!['U', 'S', '_', 'N', 'H', '_', 'R', 'E', 'S', 'E', 'L', 'L', 'E', 'R', '_', 'E', 'X', 'E', 'M', 'P', 'T', 'I', 'O', 'N'][3] != seq!['U', 'S', '_', 'A', 'R', '_', 'R', 'E', 'S', 'E', 'L', 'L', 'E', 'R', '_', 'E', 'X', 'E', 'M', 'P', 'T', 'I', 'O', 'N'][3]);
            assert(seq!['U', 'S', '_', 'N', 'H', '_', 'R', 'E', 'S', 'E', 'L', 'L', 'E', 'R', '_', 'E', 'X', 'E', 'M', 'P', 'T', 'I', 'O', 'N'][3] != seq!['U', 'S', '_', 'A', 'Z', '_', 'R', 'E', 'S', 'E', 'L', 'L', 'E', 'R', '_', 'E', 'X', 'E', 'M', 'P', 'T', 'I', 'O', 'N'][3]);
            assert(seq!['U', 'S', '_', 'N', 'H', '_', 'R', 'E', 'S', 'E', 'L', 'L', 'E', 'R', '_', 'E', 'X', 'E', 'M', 'P', 'T', 'I', 'O', 'N'][3] != seq!['U', 'S', '_', 'C', 'A', '_', 'R', 'E', 'S', 'E', 'L', 'L', 'E', 'R', '_', 'E', 'X', 'E', 'M', 'P', 'T', 'I', 'O', 'N'][3]);
            assert(seq!['U', 'S', '_', 'N', 'H', '_', 'R', 'E', 'S', 'E', 'L', 'L', 'E', 'R', '_', 'E', 'X', 'E', 'M', 'P', 'T', 'I', 'O', 'N'][3] != seq!['U', 'S', '_', 'C', 'O', '_', 'R', 'E', 'S', 'E', 'L', 'L', 'E', 'R', '_', 'E', 'X', 'E', 'M', 'P', 'T', 'I', 'O', 'N'][3]);
            assert(seq!['U', 'S', '_', 'N', 'H', '_', 'R', 'E', 'S', 'E', 'L', 'L', 'E', 'R', '_', 'E', 'X', 'E', 'M', 'P', 'T', 'I', 'O', 'N'][3] != seq!['U', 'S', '_', 'C', 'T', '_', 'R', 'E', 'S', 'E', 'L', 'L', 'E', 'R', '_', 'E', 'X', 'E', 'M', 'P', 'T', 'I', 'O', 'N'][3]);
            assert(seq!['U', 'S', '_', 'N', 'H', '_', 'R', 'E', 'S', 'E', 'L', 'L', 'E', 'R', '_', 'E', 'X', 'E', 'M', 'P', 'T', 'I', 'O', 'N'][3] != seq!['U', 'S', '_', 'D', 'C', '_', 'R', 'E', 'S', 'E', 'L', 'L', 'E', 'R', '_', 'E', 'X', 'E', 'M', 'P', 'T', 'I', 'O', 'N'][3]);
            assert(seq!['U', 'S', '_', 'N', 'H', '_', 'R', 'E', 'S', 'E', 'L', 'L', 'E', 'R', '_', 'E', 'X', 'E', 'M', 'P', 'T', 'I', 'O', 'N'][3] != seq!['U', 'S', '_', 'D', 'E', '_', 'R', 'E', 'S', 'E', 'L', 'L', 'E', 'R', '_', 'E', 'X', 'E', 'M', 'P', 'T', 'I', 'O', 'N'][3]);
            assert(seq!['U', 'S', '_', 'N', 'H', '_', 'R', 'E', 'S', 'E', 'L', 'L', 'E', 'R', '_', 'E', 'X', 'E', 'M', 'P', 'T', 'I', 'O', 'N'][3] != seq!['U', 'S', '_', 'F', 'L', '_', 'R', 'E', 'S', 'E', 'L', 'L', 'E', 'R', '_', 'E', 'X', 'E', 'M', 'P', 'T', 'I', 'O', 'N'][3]);
            assert(seq!['U', 'S', '_', 'N', 'H', '_', 'R', 'E', 'S', 'E', 'L', 'L', 'E', 'R', '_', 'E', 'X', 'E', 'M', 'P', 'T', 'I', 'O', 'N'][3] != seq!['U', 'S', '_', 'G', 'A', '_', 'R', 'E', 'S', 'E', 'L', 'L', 'E', 'R', '_', 'E', 'X', 'E', 'M', 'P', 'T', 'I', 'O', 'N'][3]);
            assert(seq!['U', 'S', '_', 'N', 'H', '_', 'R', 'E', 'S', 'E', 'L', 'L', 'E', 'R', '_', 'E', 'X', 'E', 'M', 'P', 'T', 'I', 'O', 'N'][3] != seq!['U', 'S', '_', 'H', 'I', '_', 'R', 'E', 'S', 'E', 'L', 'L', 'E', 'R', '_', 'E', 'X', 'E', 'M', 'P', 'T', 'I', 'O', 'N'][3]);
            assert(seq!['U', 'S', '_', 'N', 'H', '_', 'R', 'E', 'S', 'E', 'L', 'L', 'E', 'R', '_', 'E', 'X', 'E', 'M', 'P', 'T', 'I', 'O', 'N'][3] != seq!['U', 'S', '_', 'I', 'A', '_', 'R', 'E', 'S', 'E', 'L', 'L', 'E', 'R', '_', 'E', 'X', 'E', 'M', 'P', 'T', 'I', 'O', 'N'][3]);
            assert(seq!['U', 'S', '_', 'N', 'H', '_', 'R', 'E', 'S', 'E', 'L', 'L', 'E', 'R', '_', 'E', 'X', 'E', 'M', 'P', 'T', 'I', 'O', 'N'][3] != seq!['U', 'S', '_', 'I', 'D', '_', 'R', 'E', 'S', 'E', 'L', 'L', 'E', 'R', '_', 'E', 'X', 'E', 'M', 'P', 'T', 'I', 'O', 'N'][3]);
            assert(seq!['U', 'S', '_', 'N', 'H', '_', 'R', 'E', 'S', 'E', 'L', 'L', 'E', 'R', '_', 'E', 'X', 'E', 'M', 'P', 'T', 'I', 'O', 'N'][3] != seq!['U', 'S', '_', 'I', 'L', '_', 'R', 'E', 'S', 'E', 'L', 'L', 'E', 'R', '_', 'E', 'X', 'E', 'M', 'P', 'T', 'I', 'O', 'N'][3]);
            assert(seq!['U', 'S', '_', 'N', 'H', '_', 'R', 'E', 'S', 'E', 'L', 'L', 'E', 'R', '_', 'E', 'X', 'E', 'M', 'P', 'T', 'I', 'O', 'N'][3] != seq!['U', 'S', '_', 'I', 'N', '_', 'R', 'E', 'S', 'E', 'L', 'L', 'E', 'R', '_', 'E', 'X', 'E', 'M', 'P', 'T', 'I', 'O', 'N'][3]);
            assert(seq!['U', 'S', '_', 'N', 'H', '_', 'R', 'E', 'S', 'E', 'L', 'L', 'E', 'R', '_', 'E', 'X', 'E', 'M', 'P', 'T', 'I', 'O', 'N'][3] != seq!['U', 'S', '_', 'K', 'S', '_', 'R', 'E', 'S', 'E', 'L', 'L', 'E', 'R', '_', 'E', 'X', 'E', 'M', 'P', 'T', 'I', 'O', 'N'][3]);
            assert(seq!['U', 'S', '_', 'N', 'H', '_', 'R', 'E', 'S', 'E', 'L', 'L', 'E', 'R', '_', 'E', 'X', 'E', 'M', 'P', 'T', 'I', 'O', 'N'][3] != seq!['U', 'S', '_', 'K', 'Y', '_', 'R', 'E', 'S', 'E', 'L', 'L', 'E', 'R', '_', 'E', 'X', 'E', 'M', 'P', 'T', 'I', 'O', 'N'][3]);
            assert(seq!['U', 'S', '_', 'N', 'H', '_', 'R', 'E', 'S', 'E', 'L', 'L', 'E', 'R', '_', 'E', 'X', 'E', 'M', 'P', 'T', 'I', 'O', 'N'][3] != seq!['U', 'S', '_', 'L', 'A', '_', 'R', 'E', 'S', 'E', 'L', 'L', 'E', 'R', '_', 'E', 'X', 'E', 'M', 'P', 'T', 'I', 'O', 'N'][3]);
            assert(seq!['U', 'S', '_', 'N', 'H', '_', 'R', 'E', 'S', 'E', 'L', 'L', 'E', 'R', '_', 'E', 'X', 'E', 'M', 'P', 'T', 'I', 'O', 'N'][3] != seq!['U', 'S', '_', 'M', 'A', '_', 'R', 'E', 'S', 'E', 'L', 'L', 'E', 'R', '_', 'E', 'X', 'E', 'M', 'P', 'T', 'I', 'O', 'N'][3]);
            assert(seq!['U', 'S', '_', 'N', 'H', '_', 'R', 'E', 'S', 'E', 'L', 'L', 'E', 'R', '_', 'E', 'X', 'E', 'M', 'P', 'T', 'I', 'O', 'N'][3] != seq!['U', 'S', '_', 'M', 'D', '_', 'R', 'E', 'S', 'E', 'L', 'L', 'E', 'R', '_', 'E', 'X', 'E', 'M', 'P', 'T', 'I', 'O', 'N'][3]);
            assert(seq!['U', 'S', '_', 'N', 'H', '_', 'R', 'E', 'S', 'E', 'L', 'L', 'E', 'R', '_', 'E', 'X', 'E', 'M', 'P', 'T', 'I', 'O', 'N'][3] != seq!['U', 'S', '_', 'M', 'E', '_', 'R', 'E', 'S', 'E', 'L', 'L', 'E', 'R', '_', 'E', 'X', 'E', 'M', 'P', 'T', 'I', 'O', 'N'][3]);
            assert(seq!['U', 'S', '_', 'N', 'H', '_', 'R', 'E', 'S', 'E', 'L', 'L', 'E', 'R', '_', 'E', 'X', 'E', 'M', 'P', 'T', 'I', 'O', 'N'][3] != seq!['U', 'S', '_', 'M', 'I', '_', 'R', 'E', 'S', 'E', 'L', 'L', 'E', 'R', '_', 'E', 'X', 'E', 'M', 'P', 'T', 'I', 'O', 'N'][3]);
            assert(seq!['U', 'S', '_', 'N', 'H', '_', 'R', 'E', 'S', 'E', 'L', 'L', 'E', 'R', '_', 'E', 'X', 'E', 'M', 'P', 'T', 'I', 'O', 'N'][3] != seq!['U', 'S', '_', 'M', 'N', '_', 'R', 'E', 'S', 'E', 'L', 'L', 'E', 'R', '_', 'E', 'X', 'E', 'M', 'P', 'T', 'I', 'O', 'N'][3]);
            assert(seq!['U', 'S', '_', 'N', 'H', '_', 'R', 'E', 'S', 'E', 'L', 'L', 'E', 'R', '_', 'E', 'X', 'E', 'M', 'P', 'T', 'I', 'O', 'N'][3] != seq!['U', 'S', '_', 'M', 'O', '_', 'R', 'E', 'S', 'E', 'L', 'L', 'E', 'R', '_', 'E', 'X', 'E', 'M', 'P', 'T', 'I', 'O', 'N'][3]);
            assert(seq!['U', 'S', '_', 'N', 'H', '_', 'R', 'E', 'S', 'E', 'L', 'L', 'E', 'R', '_', 'E', 'X', 'E', 'M', 'P', 'T', 'I', 'O', 'N'][3] != seq!['U', 'S', '_', 'M', 'S', '_', 'R', 'E', 'S', 'E', 'L', 'L', 'E', 'R', '_', 'E', 'X', 'E', 'M', 'P', 'T', 'I', 'O', 'N'][3]);
            assert(seq!['U', 'S', '_', 'N', 'H', '_', 'R', 'E', 'S', 'E', 'L', 'L', 'E', 'R', '_', 'E', 'X', 'E', 'M', 'P', 'T', 'I', 'O', 'N'][3] != seq!['U', 'S', '_', 'M', 'T', '_', 'R', 'E', 'S', 'E', 'L', 'L', 'E', 'R', '_', 'E', 'X', 'E', 'M', 'P', 'T', 'I', 'O', 'N'][3]);
            assert(seq!['U', 'S', '_', 'N', 'H', '_', 'R', 'E', 'S', 'E', 'L', 'L', 'E', 'R', '_', 'E', 'X', 'E', 'M', 'P', 'T', 'I', 'O', 'N'][4] != seq!['U', 'S', '_', 'N', 'C', '_', 'R', 'E', 'S', 'E', 'L', 'L', 'E', 'R', '_', 'E', 'X', 'E', 'M', 'P', 'T', 'I', 'O', 'N'][4]);
            assert(seq!['U', 'S', '_', 'N', 'H', '_', 'R', 'E', 'S', 'E', 'L', 'L', 'E', 'R', '_', 'E', 'X', 'E', 'M', 'P', 'T', 'I', 'O', 'N'][4] != seq!['U', 'S', '_', 'N', 'D', '_', 'R', 'E', 'S', 'E', 'L', 'L', 'E', 'R', '_', 'E', 'X', 'E', 'M', 'P', 'T', 'I', 'O', 'N'][4]);
            assert(seq!['U', 'S', '_', 'N', 'H', '_', 'R', 'E', 'S', 'E', 'L', 'L', 'E', 'R', '_', 'E', 'X', 'E', 'M', 'P', 'T', 'I', 'O', 'N'][4] != seq!['U', 'S', '_', 'N', 'E', '_', 'R', 'E', 'S', 'E', 'L', 'L', 'E', 'R', '_', 'E', 'X', 'E', 'M', 'P', 'T', 'I', 'O', 'N'][4]);
        },
        TaxExemption::US_NJ_RESELLER_EXEMPTION => {
            assert(seq!['U', 'S', '_', 'N', 'J', '_', 'R', 'E', 'S', 'E', 'L', 'L', 'E', 'R', '_', 'E', 'X', 'E', 'M', 'P', 'T', 'I', 'O', 'N'][0] != seq!['C', 'A', '_', 'B', 'C', '_', 'R', 'E', 'S', 'E', 'L', 'L', 'E', 'R', '_', 'E', 'X', 'E', 'M', 'P', 'T', 'I', 'O', 'N'][0]);
            assert(seq!['U', 'S', '_', 'N', 'J', '_', 'R', 'E', 'S', 'E', 'L', 'L', 'E', 'R', '_', 'E', 'X', 'E', 'M', 'P', 'T', 'I', 'O', 'N'][0] != seq!['C', 'A', '_', 'M', 'B', '_', 'R', 'E', 'S', 'E', 'L', 'L', 'E', 'R', '_', 'E', 'X', 'E', 'M', 'P', 'T', 'I', 'O', 'N'][0]);
            assert(seq!['U', 'S', '_', 'N', 'J', '_', 'R', 'E', 'S', 'E', 'L', 'L', 'E', 'R', '_', 'E', 'X', 'E', 'M', 'P', 'T', 'I', 'O', 'N'][0] != seq!['C', 'A', '_', 'O', 'N', '_', 'P', 'U', 'R', 'C', 'H', 'A', 'S', 'E', '_', 'E', 'X', 'E', 'M', 'P', 'T', 'I', 'O', 'N'][0]);
            assert(seq!['U', 'S', '_', 'N', 'J', '_', 'R', 'E', 'S', 'E', 'L', 'L', 'E', 'R', '_', 'E', 'X', 'E', 'M', 'P', 'T', 'I', 'O', 'N'][0] != seq!['C', 'A', '_', 'S', 'K', '_', 'R', 'E', 'S', 'E', 'L', 'L', 'E', 'R', '_', 'E', 'X', 'E', 'M', 'P', 'T', 'I', 'O', 'N'][0]);
            assert(seq!['U', 'S', '_', 'N', 'J', '_', 'R', 'E', 'S', 'E', 'L', 'L', 'E', 'R', '_', 'E', 'X', 'E', 'M', 'P', 'T', 'I', 'O', 'N'][0] != seq!['C', 'A', '_', 'S', 'T', 'A', 'T', 'U', 'S', '_', 'C', 'A', 'R', 'D', '_', 'E', 'X', 'E', 'M', 'P', 'T', 'I', 'O', 'N'][0]);
            assert(seq!['U', 'S', '_', 'N', 'J', '_', 'R', 'E', 'S', 'E', 'L', 'L', 'E', 'R', '_', 'E', 'X', 'E', 'M', 'P', 'T', 'I', 'O', 'N'][3] != seq!['U', 'S', '_', 'A', 'K', '_', 'R', 'E', 'S', 'E', 'L', 'L', 'E', 'R', '_', 'E', 'X', 'E', 'M', 'P', 'T', 'I', 'O', 'N'][3]);
            assert(seq!['U', 'S', '_', 'N', 'J', '_', 'R', 'E', 'S', 'E', 'L', 'L', 'E', 'R', '_', 'E', 'X', 'E', 'M', 'P', 'T', 'I', 'O', 'N'][3] != seq!['U', 'S', '_', 'A', 'L', '_', 'R', 'E', 'S', 'E', 'L', 'L', 'E', 'R', '_', 'E', 'X', 'E', 'M', 'P', 'T', 'I', 'O', 'N'][3]);
            assert(seq!['U', 'S', '_', 'N', 'J', '_', 'R', 'E', 'S', 'E', 'L', 'L', 'E', 'R', '_', 'E', 'X', 'E', 'M', 'P', 'T', 'I', 'O', 'N'][3] != seq!['U', 'S', '_', 'A', 'R', '_', 'R', 'E', 'S', 'E', 'L', 'L', 'E', 'R', '_', 'E', 'X', 'E', 'M', 'P', 'T', 'I', 'O', 'N'][3]);
            assert(seq!['U', 'S', '_', 'N', 'J', '_', 'R', 'E', 'S', 'E', 'L', 'L', 'E', 'R', '_', 'E', 'X', 'E', 'M', 'P', 'T', 'I', 'O', 'N'][3] != seq!['U', 'S', '_', 'A', 'Z', '_', 'R', 'E', 'S', 'E', 'L', 'L', 'E', 'R', '_', 'E', 'X', 'E', 'M', 'P', 'T', 'I', 'O', 'N'][3]);
            assert(seq!['U', 'S', '_', 'N', 'J', '_', 'R', 'E', 'S', 'E', 'L', 'L', 'E', 'R', '_', 'E', 'X', 'E', 'M', 'P', 'T', 'I', 'O', 'N'][3] != seq!['U', 'S', '_', 'C', 'A', '_', 'R', 'E', 'S', 'E', 'L', 'L', 'E', 'R', '_', 'E', 'X', 'E', 'M', 'P', 'T', 'I', 'O', 'N'][3]);
            assert(seq!['U', 'S', '_', 'N', 'J', '_', 'R', 'E', 'S', 'E', 'L', 'L', 'E', 'R', '_', 'E', 'X', 'E', 'M', 'P', 'T', 'I', 'O', 'N'][3] != seq!['U', 'S', '_', 'C', 'O', '_', 'R', 'E', 'S', 'E', 'L', 'L', 'E', 'R', '_', 'E', 'X', 'E', 'M', 'P', 'T', 'I', 'O', 'N'][3]);
            assert(seq!['U', 'S', '_', 'N', 'J', '_', 'R', 'E', 'S', 'E', 'L', 'L', 'E', 'R', '_', 'E', 'X', 'E', 'M', 'P', 'T', 'I', 'O', 'N'][3] != seq!['U', 'S', '_', 'C', 'T', '_', 'R', 'E', 'S', 'E', 'L', 'L', 'E', 'R', '_', 'E', 'X', 'E', 'M', 'P', 'T', 'I', 'O', 'N'][3]);
            assert(seq!['U', 'S', '_', 'N', 'J', '_', 'R', 'E', 'S', 'E', 'L', 'L', 'E', 'R', '_', 'E', 'X', 'E', 'M', 'P', 'T', 'I', 'O', 'N'][3] != seq!['U', 'S', '_', 'D', 'C', '_', 'R', 'E', 'S', 'E', 'L', 'L', 'E', 'R', '_', 'E', 'X', 'E', 'M', 'P', 'T', 'I', 'O', 'N'][3]);
            assert(seq!['U', 'S', '_', 'N', 'J', '_', 'R', 'E', 'S', 'E', 'L', 'L', 'E', 'R', '_', 'E', 'X', 'E', 'M', 'P', 'T', 'I', 'O', 'N'][3] != seq!['U', 'S', '_', 'D', 'E', '_', 'R', 'E', 'S', 'E', 'L', 'L', 'E', 'R', '_', 'E', 'X', 'E', 'M', 'P', 'T', 'I', 'O', 'N'][3]);
            assert(seq!['U', 'S', '_', 'N', 'J', '_', 'R', 'E', 'S', 'E', 'L', 'L', 'E', 'R', '_', 'E', 'X', 'E', 'M', 'P', 'T', 'I', 'O', 'N'][3] != seq!['U', 'S', '_', 'F', 'L', '_', 'R', 'E', 'S', 'E', 'L', 'L', 'E', 'R', '_', 'E', 'X', 'E', 'M', 'P', 'T', 'I', 'O', 'N'][3]);
            assert(seq!['U', 'S', '_', 'N', 'J', '_', 'R', 'E', 'S', 'E', 'L', 'L', 'E', 'R', '_', 'E', 'X', 'E', 'M', 'P', 'T', 'I', 'O', 'N'][3] != seq!['U', 'S', '_', 'G', 'A', '_', 'R', 'E', 'S', 'E', 'L', 'L', 'E', 'R', '_', 'E', 'X', 'E', 'M', 'P', 'T', 'I', 'O', 'N'][3]);
            assert(seq!['U', 'S', '_', 'N', 'J', '_', 'R', 'E', 'S', 'E', 'L', 'L', 'E', 'R', '_', 'E', 'X', 'E', 'M', 'P', 'T', 'I', 'O', 'N'][3] != seq!['U', 'S', '_', 'H', 'I', '_', 'R', 'E', 'S', 'E', 'L', 'L', 'E', 'R', '_', 'E', 'X', 'E', 'M', 'P', 'T', 'I', 'O', 'N'][3]);
            assert(seq!['U', 'S', '_', 'N', 'J', '_', 'R', 'E', 'S', 'E', 'L', 'L', 'E', 'R', '_', 'E', 'X', 'E', 'M', 'P', 'T', 'I', 'O', 'N'][3] != seq!['U', 'S', '_', 'I', 'A', '_', 'R', 'E', 'S', 'E', 'L', 'L', 'E', 'R', '_', 'E', 'X', 'E', 'M', 'P', 'T', 'I', 'O', 'N'][3]);
            assert(seq!['U', 'S', '_', 'N', 'J', '_', 'R', 'E', 'S', 'E', 'L', 'L', 'E', 'R', '_', 'E', 'X', 'E', 'M', 'P', 'T', 'I', 'O', 'N'][3] != seq!['U', 'S', '_', 'I', 'D', '_', 'R', 'E', 'S', 'E', 'L', 'L', 'E', 'R', '_', 'E', 'X', 'E', 'M', 'P', 'T', 'I', 'O', 'N'][3]);
            assert(seq!['U', 'S', '_', 'N', 'J', '_', 'R', 'E', 'S', 'E', 'L', 'L', 'E', 'R', '_', 'E', 'X', 'E', 'M', 'P', 'T', 'I', 'O', 'N'][3] != seq!['U', 'S', '_', 'I', 'L', '_', 'R', 'E', 'S', 'E', 'L', 'L', 'E', 'R', '_', 'E', 'X', 'E', 'M', 'P', 'T', 'I', 'O', 'N'][3]);
            assert(seq!['U', 'S', '_', 'N', 'J', '_', 'R', 'E', 'S', 'E', 'L', 'L', 'E', 'R', '_', 'E', 'X', 'E', 'M', 'P', 'T', 'I', 'O', 'N'][3] != seq!['U', 'S', '_', 'I', 'N', '_', 'R', 'E', 'S', 'E', 'L', 'L', 'E', 'R', '_', 'E', 'X', 'E', 'M', 'P', 'T', 'I', 'O', 'N'][3]);
            assert(seq!['U', 'S', '_', 'N', 'J', '_', 'R', 'E', 'S', 'E', 'L', 'L', 'E', 'R', '_', 'E', 'X', 'E', 'M', 'P', 'T', 'I', 'O', 'N'][3] != seq!['U', 'S', '_', 'K', 'S', '_', 'R', 'E', 'S', 'E', 'L', 'L', 'E', 'R', '_', 'E', 'X', 'E', 'M', 'P', 'T', 'I', 'O', 'N'][3]);
            assert(seq!['U', 'S', '_', 'N', 'J', '_', 'R', 'E', 'S', 'E', 'L', 'L', 'E', 'R', '_', 'E', 'X', 'E', 'M', 'P', 'T', 'I', 'O', 'N'][3] != seq!['U', 'S', '_', 'K', 'Y', '_', 'R', 'E', 'S', 'E', 'L', 'L', 'E', 'R', '_', 'E', 'X', 'E', 'M', 'P', 'T', 'I', 'O', 'N'][3]);
            assert(seq!['U', 'S', '_', 'N', 'J', '_', 'R', 'E', 'S', 'E', 'L', 'L', 'E', 'R', '_', 'E', 'X', 'E', 'M', 'P', 'T', 'I', 'O', 'N'][3] != seq!['U', 'S', '_', 'L', 'A', '_', 'R', 'E', 'S', 'E', 'L', 'L', 'E', 'R', '_', 'E', 'X', 'E', 'M', 'P', 'T', 'I', 'O', 'N'][3]);
            assert(seq!['U', 'S', '_', 'N', 'J', '_', 'R', 'E', 'S', 'E', 'L', 'L', 'E', 'R', '_', 'E', 'X', 'E', 'M', 'P', 'T', 'I', 'O', 'N'][3] != seq!['U', 'S', '_', 'M', 'A', '_', 'R', 'E', 'S', 'E', 'L', 'L', 'E', 'R', '_', 'E', 'X', 'E', 'M', 'P', 'T', 'I', 'O', 'N'][3]);
            assert(seq!['U', 'S', '_', 'N', 'J', '_', 'R', 'E', 'S', 'E', 'L', 'L', 'E', 'R', '_', 'E', 'X', 'E', 'M', 'P', 'T', 'I', 'O', 'N'][3] != seq!['U', 'S', '_', 'M', 'D', '_', 'R', 'E', 'S', 'E', 'L', 'L', 'E', 'R', '_', 'E', 'X', 'E', 'M', 'P', 'T', 'I', 'O', 'N'][3]);
            assert(seq!['U', 'S', '_', 'N', 'J', '_', 'R', 'E', 'S', 'E', 'L', 'L', 'E', 'R', '_', 'E', 'X', 'E', 'M', 'P', 'T', 'I', 'O', 'N'][3] != seq!['U', 'S', '_', 'M', 'E', '_', 'R', 'E', 'S', 'E', 'L', 'L', 'E', 'R', '_', 'E', 'X', 'E', 'M', 'P', 'T', 'I', 'O', 'N'][3]);
            assert(seq!['U', 'S', '_', 'N', 'J', '_', 'R', 'E', 'S', 'E', 'L', 'L', 'E', 'R', '_', 'E', 'X', 'E', 'M', 'P', 'T', 'I', 'O', 'N'][3] != seq!['U', 'S', '_', 'M', 'I', '_', 'R', 'E', 'S', 'E', 'L', 'L', 'E', 'R', '_', 'E', 'X', 'E', 'M', 'P', 'T', 'I', 'O', 'N'][3]);
            assert(seq!['U', 'S', '_', 'N', 'J', '_', 'R', 'E', 'S', 'E', 'L', 'L', 'E', 'R', '_', 'E', 'X', 'E', 'M', 'P', 'T', 'I', 'O', 'N'][3] != seq!['U', 'S', '_', 'M', 'N', '_', 'R', 'E', 'S', 'E', 'L', 'L', 'E', 'R', '_', 'E', 'X', 'E', 'M', 'P', 'T', 'I', 'O', 'N'][3]);
            assert(seq!['U', 'S', '_', 'N', 'J', '_', 'R', 'E', 'S', 'E', 'L', 'L', 'E', 'R', '_', 'E', 'X', 'E', 'M', 'P', 'T', 'I', 'O', 'N'][3] != seq!['U', 'S', '_', 'M', 'O', '_', 'R', 'E', 'S', 'E', 'L', 'L', 'E', 'R', '_', 'E', 'X', 'E', 'M', 'P', 'T', 'I', 'O', 'N'][3]);
            assert(seq!['U', 'S', '_', 'N', 'J', '_', 'R', 'E', 'S', 'E', 'L', 'L', 'E', 'R', '_', 'E', 'X', 'E', 'M', 'P', 'T', 'I', 'O', 'N'][3] != seq!['U', 'S', '_', 'M', 'S', '_', 'R', 'E', 'S', 'E', 'L', 'L', 'E', 'R', '_', 'E', 'X', 'E', 'M', 'P', 'T', 'I', 'O', 'N'][3]);
            assert(seq!['U', 'S', '_', 'N', 'J', '_', 'R', 'E', 'S', 'E', 'L', 'L', 'E', 'R', '_', 'E', 'X', 'E', 'M', 'P', 'T', 'I', 'O', 'N'][3] != seq!['U', 'S', '_', 'M', 'T', '_', 'R', 'E', 'S', 'E', 'L', 'L', 'E', 'R', '_', 'E', 'X', 'E', 'M', 'P', 'T', 'I', 'O', 'N'][3]);
            assert(seq!['U', 'S', '_', 'N', 'J', '_', 'R', 'E', 'S', 'E', 'L', 'L', 'E', 'R', '_', 'E', 'X', 'E', 'M', 'P', 'T', 'I', 'O', 'N'][4] != seq!['U', 'S', '_', 'N', 'C', '_', 'R', 'E', 'S', 'E', 'L', 'L', 'E', 'R', '_', 'E', 'X', 'E', 'M', 'P', 'T', 'I', 'O', 'N'][4]);
            assert(seq!['U', 'S', '_', 'N', 'J', '_', 'R', 'E', 'S', 'E', 'L', 'L', 'E', 'R', '_', 'E', 'X', 'E', 'M', 'P', 'T', 'I', 'O', 'N'][4] != seq!['U', 'S', '_', 'N', 'D', '_', 'R', 'E', 'S', 'E', 'L', 'L', 'E', 'R', '_', 'E', 'X', 'E', 'M', 'P', 'T', 'I', 'O', 'N'][4]);
            assert(seq!['U', 'S', '_', 'N', 'J', '_', 'R', 'E', 'S', 'E', 'L', 'L', 'E', 'R', '_', 'E', 'X', 'E', 'M', 'P', 'T', 'I', 'O', 'N'][4] != seq!['U', 'S', '_', 'N', 'E', '_', 'R', 'E', 'S', 'E', 'L', 'L', 'E', 'R', '_', 'E', 'X', 'E', 'M', 'P', 'T', 'I', 'O', 'N'][4]);
            assert(seq!['U', 'S', '_', 'N', 'J', '_', 'R', 'E', 'S', 'E', 'L', 'L', 'E', 'R', '_', 'E', 'X', 'E', 'M', 'P', 'T', 'I', 'O', 'N'][4] != seq!['U', 'S', '_', 'N', 'H', '_', 'R', 'E', 'S', 'E', 'L', 'L', 'E', 'R', '_', 'E', 'X', 'E', 'M', 'P', 'T', 'I', 'O', 'N'][4]);
        },
        TaxExemption::US_NM_RESELLER_EXEMPTION => {
            assert(seq!['U', 'S', '_', 'N', 'M', '_', 'R', 'E', 'S', 'E', 'L', 'L', 'E', 'R', '_', 'E', 'X', 'E', 'M', 'P', 'T', 'I', 'O', 'N'][0] != seq!['C', 'A', '_', 'B', 'C', '_', 'R', 'E', 'S', 'E', 'L', 'L', 'E', 'R', '_', 'E', 'X', 'E', 'M', 'P', 'T', 'I', 'O', 'N'][0]);
            assert(seq!['U', 'S', '_', 'N', 'M', '_', 'R', 'E', 'S', 'E', 'L', 'L', 'E', 'R', '_', 'E', 'X', 'E', 'M', 'P', 'T', 'I', 'O', 'N'][0] != seq!['C', 'A', '_', 'M', 'B', '_', 'R', 'E', 'S', 'E', 'L', 'L', 'E', 'R', '_', 'E', 'X', 'E', 'M', 'P', 'T', 'I', 'O', 'N'][0]);
            assert(seq!['U', 'S', '_', 'N', 'M', '_', 'R', 'E', 'S', 'E', 'L', 'L', 'E', 'R', '_', 'E', 'X', 'E', 'M', 'P', 'T', 'I', 'O', 'N'][0] != seq!['C', 'A', '_', 'O', 'N', '_', 'P', 'U', 'R', 'C', 'H', 'A', 'S', 'E', '_', 'E', 'X', 'E', 'M', 'P', 'T', 'I', 'O', 'N'][0]);
            assert(seq!['U', 'S', '_', 'N', 'M', '_', 'R', 'E', 'S', 'E', 'L', 'L', 'E', 'R', '_', 'E', 'X', 'E', 'M', 'P', 'T', 'I', 'O', 'N'][0] != seq!['C', 'A', '_', 'S', 'K', '_', 'R', 'E', 'S', 'E', 'L', 'L', 'E', 'R', '_', 'E', 'X', 'E', 'M', 'P', 'T', 'I', 'O', 'N'][0]);
            assert(seq!['U', 'S', '_', 'N', 'M', '_', 'R', 'E', 'S', 'E', 'L', 'L', 'E', 'R', '_', 'E', 'X', 'E', 'M', 'P', 'T', 'I', 'O', 'N'][0] != seq!['C', 'A', '_', 'S', 'T', 'A', 'T', 'U', 'S', '_', 'C', 'A', 'R', 'D', '_', 'E', 'X', 'E', 'M', 'P', 'T', 'I', 'O', 'N'][0]);
            assert(seq!['U', 'S', '_', 'N', 'M', '_', 'R', 'E', 'S', 'E', 'L', 'L', 'E', 'R', '_', 'E', 'X', 'E', 'M', 'P', 'T', 'I', 'O', 'N'][3] != seq!['U', 'S', '_', 'A', 'K', '_', 'R', 'E', 'S', 'E', 'L', 'L', 'E', 'R', '_', 'E', 'X', 'E', 'M', 'P', 'T', 'I', 'O', 'N'][3]);
            assert(seq!['U', 'S', '_', 'N', 'M', '_', 'R', 'E', 'S', 'E', 'L', 'L', 'E', 'R', '_', 'E', 'X', 'E', 'M', 'P', 'T', 'I', 'O', 'N'][3] != seq!['U', 'S', '_', 'A', 'L', '_', 'R', 'E', 'S', 'E', 'L', 'L', 'E', 'R', '_', 'E', 'X', 'E', 'M', 'P', 'T', 'I', 'O', 'N'][3]);
            assert(seq!['U', 'S', '_', 'N', 'M', '_', 'R', 'E', 'S', 'E', 'L', 'L', 'E', 'R', '_', 'E', 'X', 'E', 'M', 'P', 'T', 'I', 'O', 'N'][3] != seq!['U', 'S', '_', 'A', 'R', '_', 'R', 'E', 'S', 'E', 'L', 'L', 'E', 'R', '_', 'E', 'X', 'E', 'M', 'P', 'T', 'I', 'O', 'N'][3]);
            assert(seq!['U', 'S', '_', 'N', 'M', '_', 'R', 'E', 'S', 'E', 'L', 'L', 'E', 'R', '_', 'E', 'X', 'E', 'M', 'P', 'T', 'I', 'O', 'N'][3] != seq!['U', 'S', '_', 'A', 'Z', '_', 'R', 'E', 'S', 'E', 'L', 'L', 'E', 'R', '_', 'E', 'X', 'E', 'M', 'P', 'T', 'I', 'O', 'N'][3]);
            assert(seq!['U', 'S', '_', 'N', 'M', '_', 'R', 'E', 'S', 'E', 'L', 'L', 'E', 'R', '_', 'E', 'X', 'E', 'M', 'P', 'T', 'I', 'O', 'N'][3] != seq!['U', 'S', '_', 'C', 'A', '_', 'R', 'E', 'S', 'E', 'L', 'L', 'E', 'R', '_', 'E', 'X', 'E', 'M', 'P', 'T', 'I', 'O', 'N'][3]);
            assert(seq!['U', 'S', '_', 'N', 'M', '_', 'R', 'E', 'S', 'E', 'L', 'L', 'E', 'R', '_', 'E', 'X', 'E', 'M', 'P', 'T', 'I', 'O', 'N'][3] != seq!['U', 'S', '_', 'C', 'O', '_', 'R', 'E', 'S', 'E', 'L', 'L', 'E', 'R', '_', 'E', 'X', 'E', 'M', 'P', 'T', 'I', 'O', 'N'][3]);
            assert(seq!['U', 'S', '_', 'N', 'M', '_', 'R', 'E', 'S', 'E', 'L', 'L', 'E', 'R', '_', 'E', 'X', 'E', 'M', 'P', 'T', 'I', 'O', 'N'][3] != seq!['U', 'S', '_', 'C', 'T', '_', 'R', 'E', 'S', 'E', 'L', 'L', 'E', 'R', '_', 'E', 'X', 'E', 'M', 'P', 'T', 'I', 'O', 'N'][3]);
            assert(seq!['U', 'S', '_', 'N', 'M', '_', 'R', 'E', 'S', 'E', 'L', 'L', 'E', 'R', '_', 'E', 'X', 'E', 'M', 'P', 'T', 'I', 'O', 'N'][3] != seq!['U', 'S', '_', 'D', 'C', '_', 'R', 'E', 'S', 'E', 'L', 'L', 'E', 'R', '_', 'E', 'X', 'E', 'M', 'P', 'T', 'I', 'O', 'N'][3]);
            assert(seq!['U', 'S', '_', 'N', 'M', '_', 'R', 'E', 'S', 'E', 'L', 'L', 'E', 'R', '_', 'E', 'X', 'E', 'M', 'P', 'T', 'I', 'O', 'N'][3] != seq!['U', 'S', '_', 'D', 'E', '_', 'R', 'E', 'S', 'E', 'L', 'L', 'E', 'R', '_', 'E', 'X', 'E', 'M', 'P', 'T', 'I', 'O', 'N'][3]);
            assert(seq!['U', 'S', '_', 'N', 'M', '_', 'R', 'E', 'S', 'E', 'L', 'L', 'E', 'R', '_', 'E', 'X', 'E', 'M', 'P', 'T', 'I', 'O', 'N'][3] != seq!['U', 'S', '_', 'F', 'L', '_', 'R', 'E', 'S', 'E', 'L', 'L', 'E', 'R', '_', 'E', 'X', 'E', 'M', 'P', 'T', 'I', 'O', 'N'][3]);
            assert(seq!['U', 'S', '_', 'N', 'M', '_', 'R', 'E', 'S', 'E', 'L', 'L', 'E', 'R', '_', 'E', 'X', 'E', 'M', 'P', 'T', 'I', 'O', 'N'][3] != seq!['U', 'S', '_', 'G', 'A', '_', 'R', 'E', 'S', 'E', 'L', 'L', 'E', 'R', '_', 'E', 'X', 'E', 'M', 'P', 'T', 'I', 'O', 'N'][3]);
            assert(seq!['U', 'S', '_', 'N', 'M', '_', 'R', 'E', 'S', 'E', 'L', 'L', 'E', 'R', '_', 'E', 'X', 'E', 'M', 'P', 'T', 'I', 'O', 'N'][3] != seq!['U', 'S', '_', 'H', 'I', '_', 'R', 'E', 'S', 'E', 'L', 'L', 'E', 'R', '_', 'E', 'X', 'E', 'M', 'P', 'T', 'I', 'O', 'N'][3]);
            assert(seq!['U', 'S', '_', 'N', 'M', '_', 'R', 'E', 'S', 'E', 'L', 'L', 'E', 'R', '_', 'E', 'X', 'E', 'M', 'P', 'T', 'I', 'O', 'N'][3] != seq!['U', 'S', '_', 'I', 'A', '_', 'R', 'E', 'S', 'E', 'L', 'L', 'E', 'R', '_', 'E', 'X', 'E', 'M', 'P', 'T', 'I', 'O', 'N'][3]);
            assert(seq!['U', 'S', '_', 'N', 'M', '_', 'R', 'E', 'S', 'E', 'L', 'L', 'E', 'R', '_', 'E', 'X', 'E', 'M', 'P', 'T', 'I', 'O', 'N'][3] != seq!['U', 'S', '_', 'I', 'D', '_', 'R', 'E', 'S', 'E', 'L', 'L', 'E', 'R', '_', 'E', 'X', 'E', 'M', 'P', 'T', 'I', 'O', 'N'][3]);
            assert(seq!['U', 'S', '_', 'N', 'M', '_', 'R', 'E', 'S', 'E', 'L', 'L', 'E', 'R', '_', 'E', 'X', 'E', 'M', 'P', 'T', 'I', 'O', 'N'][3] != seq!['U', 'S', '_', 'I', 'L', '_', 'R', 'E', 'S', 'E', 'L', 'L', 'E', 'R', '_', 'E', 'X', 'E', 'M', 'P', 'T', 'I', 'O', 'N'][3]);
            assert(seq!['U', 'S', '_', 'N', 'M', '_', 'R', 'E', 'S', 'E', 'L', 'L', 'E', 'R', '_', 'E', 'X', 'E', 'M', 'P', 'T', 'I', 'O', 'N'][3] != seq!['U', 'S', '_', 'I', 'N', '_', 'R', 'E', 'S', 'E', 'L', 'L', 'E', 'R', '_', 'E', 'X', 'E', 'M', 'P', 'T', 'I', 'O', 'N'][3]);
            assert(seq!['U', 'S', '_', 'N', 'M', '_', 'R', 'E', 'S', 'E', 'L', 'L', 'E', 'R', '_', 'E', 'X', 'E', 'M', 'P', 'T', 'I', 'O', 'N'][3] != seq!['U', 'S', '_', 'K', 'S', '_', 'R', 'E', 'S', 'E', 'L', 'L', 'E', 'R', '_', 'E', 'X', 'E', 'M', 'P', 'T', 'I', 'O', 'N'][3]);
            assert(seq!['U', 'S', '_', 'N', 'M', '_', 'R', 'E', 'S', 'E', 'L', 'L', 'E', 'R', '_', 'E', 'X', 'E', 'M', 'P', 'T', 'I', 'O', 'N'][3] != seq!['U', 'S', '_', 'K', 'Y', '_', 'R', 'E', 'S', 'E', 'L', 'L', 'E', 'R', '_', 'E', 'X', 'E', 'M', 'P', 'T', 'I', 'O', 'N'][3]);
            assert(seq!['U', 'S', '_', 'N', 'M', '_', 'R', 'E', 'S', 'E', 'L', 'L', 'E', 'R', '_', 'E', 'X', 'E', 'M', 'P', 'T', 'I', 'O', 'N'][3] != seq!['U', 'S', '_', 'L', 'A', '_', 'R', 'E', 'S', 'E', 'L', 'L', 'E', 'R', '_', 'E', 'X', 'E', 'M', 'P', 'T', 'I', 'O', 'N'][3]);
            assert(seq!['U', 'S', '_', 'N', 'M', '_', 'R', 'E', 'S', 'E', 'L', 'L', 'E', 'R', '_', 'E', 'X', 'E', 'M', 'P', 'T', 'I', 'O', 'N'][3] != seq!['U', 'S', '_', 'M', 'A', '_', 'R', 'E', 'S', 'E', 'L', 'L', 'E', 'R', '_', 'E', 'X', 'E', 'M', 'P', 'T', 'I', 'O', 'N'][3]);
            assert(seq!['U', 'S', '_', 'N', 'M', '_', 'R', 'E', 'S', 'E', 'L', 'L', 'E', 'R', '_', 'E', 'X', 'E', 'M', 'P', 'T', 'I', 'O', 'N'][3] != seq!['U', 'S', '_', 'M', 'D', '_', 'R', 'E', 'S', 'E', 'L', 'L', 'E', 'R', '_', 'E', 'X', 'E', 'M', 'P', 'T', 'I', 'O', 'N'][3]);
            assert(seq!['U', 'S', '_', 'N', 'M', '_', 'R', 'E', 'S', 'E', 'L', 'L', 'E', 'R', '_', 'E', 'X', 'E', 'M', 'P', 'T', 'I', 'O', 'N'][3] != seq!['U', 'S', '_', 'M', 'E', '_', 'R', 'E', 'S', 'E', 'L', 'L', 'E', 'R', '_', 'E', 'X', 'E', 'M', 'P', 'T', 'I', 'O', 'N'][3]);
            assert(seq!['U', 'S', '_', 'N', 'M', '_', 'R', 'E', 'S', 'E', 'L', 'L', 'E', 'R', '_', 'E', 'X', 'E', 'M', 'P', 'T', 'I', 'O', 'N'][3] != seq!['U', 'S', '_', 'M', 'I', '_', 'R', 'E', 'S', 'E', 'L', 'L', 'E', 'R', '_', 'E', 'X', 'E', 'M', 'P', 'T', 'I', 'O', 'N'][3]);
            assert(seq!['U', 'S', '_', 'N', 'M', '_', 'R', 'E', 'S', 'E', 'L', 'L', 'E', 'R', '_', 'E', 'X', 'E', 'M', 'P', 'T', 'I', 'O', 'N'][3] != seq!['U', 'S', '_', 'M', 'N', '_', 'R', 'E', 'S', 'E', 'L', 'L', 'E', 'R', '_', 'E', 'X', 'E', 'M', 'P', 'T', 'I', 'O', 'N'][3]);
            assert(seq!['U', 'S', '_', 'N', 'M', '_', 'R', 'E', 'S', 'E', 'L', 'L', 'E', 'R', '_', 'E', 'X', 'E', 'M', 'P', 'T', 'I', 'O', 'N'][3] != seq!['U', 'S', '_', 'M', 'O', '_', 'R', 'E', 'S', 'E', 'L', 'L', 'E', 'R', '_', 'E', 'X', 'E', 'M', 'P', 'T', 'I', 'O', 'N'][3]);
            assert(seq!['U', 'S', '_', 'N', 'M', '_', 'R', 'E', 'S', 'E', 'L', 'L', 'E', 'R', '_', 'E', 'X', 'E', 'M', 'P', 'T', 'I', 'O', 'N'][3] != seq!['U', 'S', '_', 'M', 'S', '_', 'R', 'E', 'S', 'E', 'L', 'L', 'E', 'R', '_', 'E', 'X', 'E', 'M', 'P', 'T', 'I', 'O', 'N'][3]);
            assert(seq!['U', 'S', '_', 'N', 'M', '_', 'R', 'E', 'S', 'E', 'L', 'L', 'E', 'R', '_', 'E', 'X', 'E', 'M', 'P', 'T', 'I', 'O', 'N'][3] != seq!['U', 'S', '_', 'M', 'T', '_', 'R', 'E', 'S', 'E', 'L', 'L', 'E', 'R', '_', 'E', 'X', 'E', 'M', 'P', 'T', 'I', 'O', 'N'][3]);
            assert(seq!['U', 'S', '_', 'N', 'M', '_', 'R', 'E', 'S', 'E', 'L', 'L', 'E', 'R', '_', 'E', 'X', 'E', 'M', 'P', 'T', 'I', 'O', 'N'][4] != seq!['U', 'S', '_', 'N', 'C', '_', 'R', 'E', 'S', 'E', 'L', 'L', 'E', 'R', '_', 'E', 'X', 'E', 'M', 'P', 'T', 'I', 'O', 'N'][4]);
            assert(seq!['U', 'S', '_', 'N', 'M', '_', 'R', 'E', 'S', 'E', 'L', 'L', 'E', 'R', '_', 'E', 'X', 'E', 'M', 'P', 'T', 'I', 'O', 'N'][4] != seq!['U', 'S', '_', 'N', 'D', '_', 'R', 'E', 'S', 'E', 'L', 'L', 'E', 'R', '_', 'E', 'X', 'E', 'M', 'P', 'T', 'I', 'O', 'N'][4]);
            assert(seq!['U', 'S', '_', 'N', 'M', '_', 'R', 'E', 'S', 'E', 'L', 'L', 'E', 'R', '_', 'E', 'X', 'E', 'M', 'P', 'T', 'I', 'O', 'N'][4] != seq!['U', 'S', '_', 'N', 'E', '_', 'R', 'E', 'S', 'E', 'L', 'L', 'E', 'R', '_', 'E', 'X', 'E', 'M', 'P', 'T', 'I', 'O', 'N'][4]);
            assert(seq!['U', 'S', '_', 'N', 'M', '_', 'R', 'E', 'S', 'E', 'L', 'L', 'E', 'R', '_', 'E', 'X', 'E', 'M', 'P', 'T', 'I', 'O', 'N'][4] != seq!['U', 'S', '_', 'N', 'H', '_', 'R', 'E', 'S', 'E', 'L', 'L', 'E', 'R', '_', 'E', 'X', 'E', 'M', 'P', 'T', 'I', 'O', 'N'][4]);
            assert(seq!['U', 'S', '_', 'N', 'M', '_', 'R', 'E', 'S', 'E', 'L', 'L', 'E', 'R', '_', 'E', 'X', 'E', 'M', 'P', 'T', 'I', 'O', 'N'][4] != seq!['U', 'S', '_', 'N', 'J', '_', 'R', 'E', 'S', 'E', 'L', 'L', 'E', 'R', '_', 'E', 'X', 'E', 'M', 'P', 'T', 'I', 'O', 'N'][4]);
        },
        TaxExemption::US_NV_RESELLER_EXEMPTION => {
            assert(seq!['U', 'S', '_', 'N', 'V', '_', 'R', 'E', 'S', 'E', 'L', 'L', 'E', 'R', '_', 'E', 'X', 'E', 'M', 'P', 'T', 'I', 'O', 'N'][0] != seq!['C', 'A', '_', 'B', 'C', '_', 'R', 'E', 'S', 'E', 'L', 'L', 'E', 'R', '_', 'E', 'X', 'E', 'M', 'P', 'T', 'I', 'O', 'N'][0]);
            assert(seq!['U', 'S', '_', 'N', 'V', '_', 'R', 'E', 'S', 'E', 'L', 'L', 'E', 'R', '_', 'E', 'X', 'E', 'M', 'P', 'T', 'I', 'O', 'N'][0] != seq!['C', 'A', '_', 'M', 'B', '_', 'R', 'E', 'S', 'E', 'L', 'L', 'E', 'R', '_', 'E', 'X', 'E', 'M', 'P', 'T', 'I', 'O', 'N'][0]);
            assert(seq!['U', 'S', '_', 'N', 'V', '_', 'R', 'E', 'S', 'E', 'L', 'L', 'E', 'R', '_', 'E', 'X', 'E', 'M', 'P', 'T', 'I', 'O', 'N'][0] != seq!['C', 'A', '_', 'O', 'N', '_', 'P', 'U', 'R', 'C', 'H', 'A', 'S', 'E', '_', 'E', 'X', 'E', 'M', 'P', 'T', 'I', 'O', 'N'][0]);
            assert(seq!['U', 'S', '_', 'N', 'V', '_', 'R', 'E', 'S', 'E', 'L', 'L', 'E', 'R', '_', 'E', 'X', 'E', 'M', 'P', 'T', 'I', 'O', 'N'][0] != seq!['C', 'A', '_', 'S', 'K', '_', 'R', 'E', 'S', 'E', 'L', 'L', 'E', 'R', '_', 'E', 'X', 'E', 'M', 'P', 'T', 'I', 'O', 'N'][0]);
            assert(seq!['U', 'S', '_', 'N', 'V', '_', 'R', 'E', 'S', 'E', 'L', 'L', 'E', 'R', '_', 'E', 'X', 'E', 'M', 'P', 'T', 'I', 'O', 'N'][0] != seq!['C', 'A', '_', 'S', 'T', 'A', 'T', 'U', 'S', '_', 'C', 'A', 'R', 'D', '_', 'E', 'X', 'E', 'M', 'P', 'T', 'I', 'O', 'N'][0]);
            assert(seq!['U', 'S', '_', 'N', 'V', '_', 'R', 'E', 'S', 'E', 'L', 'L', 'E', 'R', '_', 'E', 'X', 'E', 'M', 'P', 'T', 'I', 'O', 'N'][3] != seq!['U', 'S', '_', 'A', 'K', '_', 'R', 'E', 'S', 'E', 'L', 'L', 'E', 'R', '_', 'E', 'X', 'E', 'M', 'P', 'T', 'I', 'O', 'N'][3]);
            assert(seq!['U', 'S', '_', 'N', 'V', '_', 'R', 'E', 'S', 'E', 'L', 'L', 'E', 'R', '_', 'E', 'X', 'E', 'M', 'P', 'T', 'I', 'O', 'N'][3] != seq!['U', 'S', '_', 'A', 'L', '_', 'R', 'E', 'S', 'E', 'L', 'L', 'E', 'R', '_', 'E', 'X', 'E', 'M', 'P', 'T', 'I', 'O', 'N'][3]);
            assert(seq!['U', 'S', '_', 'N', 'V', '_', 'R', 'E', 'S', 'E', 'L', 'L', 'E', 'R', '_', 'E', 'X', 'E', 'M', 'P', 'T', 'I', 'O', 'N'][3] != seq!['U', 'S', '_', 'A', 'R', '_', 'R', 'E', 'S', 'E', 'L', 'L', 'E', 'R', '_', 'E', 'X', 'E', 'M', 'P', 'T', 'I', 'O', 'N'][3]);
            assert(seq!['U', 'S', '_', 'N', 'V', '_', 'R', 'E', 'S', 'E', 'L', 'L', 'E', 'R', '_', 'E', 'X', 'E', 'M', 'P', 'T', 'I', 'O', 'N'][3] != seq!['U', 'S', '_', 'A', 'Z', '_', 'R', 'E', 'S', 'E', 'L', 'L', 'E', 'R', '_', 'E', 'X', 'E', 'M', 'P', 'T', 'I', 'O', 'N'][3]);
            assert(seq!['U', 'S', '_', 'N', 'V', '_', 'R', 'E', 'S', 'E', 'L', 'L', 'E', 'R', '_', 'E', 'X', 'E', 'M', 'P', 'T', 'I', 'O', 'N'][3] != seq!['U', 'S', '_', 'C', 'A', '_', 'R', 'E', 'S', 'E', 'L', 'L', 'E', 'R', '_', 'E', 'X', 'E', 'M', 'P', 'T', 'I', 'O', 'N'][3]);
            assert(seq!['U', 'S', '_', 'N', 'V', '_', 'R', 'E', 'S', 'E', 'L', 'L', 'E', 'R', '_', 'E', 'X', 'E', 'M', 'P', 'T', 'I', 'O', 'N'][3] != seq!['U', 'S', '_', 'C', 'O', '_', 'R', 'E', 'S', 'E', 'L', 'L', 'E', 'R', '_', 'E', 'X', 'E', 'M', 'P', 'T', 'I', 'O', 'N'][3]);
            assert(seq!['U', 'S', '_', 'N', 'V', '_', 'R', 'E', 'S', 'E', 'L', 'L', 'E', 'R', '_', 'E', 'X', 'E', 'M', 'P', 'T', 'I', 'O', 'N'][3] != seq!['U', 'S', '_', 'C', 'T', '_', 'R', 'E', 'S', 'E', 'L', 'L', 'E', 'R', '_', 'E', 'X', 'E', 'M', 'P', 'T', 'I', 'O', 'N'][3]);
            assert(seq!['U', 'S', '_', 'N', 'V', '_', 'R', 'E', 'S', 'E', 'L', 'L', 'E', 'R', '_', 'E', 'X', 'E', 'M', 'P', 'T', 'I', 'O', 'N'][3] != seq!['U', 'S', '_', 'D', 'C', '_', 'R', 'E', 'S', 'E', 'L', 'L', 'E', 'R', '_', 'E', 'X', 'E', 'M', 'P', 'T', 'I', 'O', 'N'][3]);
            assert(seq!['U', 'S', '_', 'N', 'V', '_', 'R', 'E', 'S', 'E', 'L', 'L', 'E', 'R', '_', 'E', 'X', 'E', 'M', 'P', 'T', 'I', 'O', 'N'][3] != seq!['U', 'S', '_', 'D', 'E', '_', 'R', 'E', 'S', 'E', 'L', 'L', 'E', 'R', '_', 'E', 'X', 'E', 'M', 'P', 'T', 'I', 'O', 'N'][3]);
            assert(seq!['U', 'S', '_', 'N', 'V', '_', 'R', 'E', 'S', 'E', 'L', 'L', 'E', 'R', '_', 'E', 'X', 'E', 'M', 'P', 'T', 'I', 'O', 'N'][3] != seq!['U', 'S', '_', 'F', 'L', '_', 'R', 'E', 'S', 'E', 'L', 'L', 'E', 'R', '_', 'E', 'X', 'E', 'M', 'P', 'T', 'I', 'O', 'N'][3]);
            assert(seq!['U', 'S', '_', 'N', 'V', '_', 'R', 'E', 'S', 'E', 'L', 'L', 'E', 'R', '_', 'E', 'X', 'E', 'M', 'P', 'T', 'I', 'O', 'N'][3] != seq!['U', 'S', '_', 'G', 'A', '_', 'R', 'E', 'S', 'E', 'L', 'L', 'E', 'R', '_', 'E', 'X', 'E', 'M', 'P', 'T', 'I', 'O', 'N'][3]);
            assert(seq!['U', 'S', '_', 'N', 'V', '_', 'R', 'E', 'S', 'E', 'L', 'L', 'E', 'R', '_', 'E', 'X', 'E', 'M', 'P', 'T', 'I', 'O', 'N'][3] != seq!['U', 'S', '_', 'H', 'I', '_', 'R', 'E', 'S', 'E', 'L', 'L', 'E', 'R', '_', 'E', 'X', 'E', 'M', 'P', 'T', 'I', 'O', 'N'][3]);
            assert(seq!['U', 'S', '_', 'N', 'V', '_', 'R', 'E', 'S', 'E', 'L', 'L', 'E', 'R', '_', 'E', 'X', 'E', 'M', 'P', 'T', 'I', 'O', 'N'][3] != seq!['U', 'S', '_', 'I', 'A', '_', 'R', 'E', 'S', 'E', 'L', 'L', 'E', 'R', '_', 'E', 'X', 'E', 'M', 'P', 'T', 'I', 'O', 'N'][3]);
            assert(seq!['U', 'S', '_', 'N', 'V', '_', 'R', 'E', 'S', 'E', 'L', 'L', 'E', 'R', '_', 'E', 'X', 'E', 'M', 'P', 'T', 'I', 'O', 'N'][3] != seq!['U', 'S', '_', 'I', 'D', '_', 'R', 'E', 'S', 'E', 'L', 'L', 'E', 'R', '_', 'E', 'X', 'E', 'M', 'P', 'T', 'I', 'O', 'N'][3]);
            assert(seq!['U', 'S', '_', 'N', 'V', '_', 'R', 'E', 'S', 'E', 'L', 'L', 'E', 'R', '_', 'E', 'X', 'E', 'M', 'P', 'T', 'I', 'O', 'N'][3] != seq!['U', 'S', '_', 'I', 'L', '_', 'R', 'E', 'S', 'E', 'L', 'L', 'E', 'R', '_', 'E', 'X', 'E', 'M', 'P', 'T', 'I', 'O', 'N'][3]);
            assert(seq!['U', 'S', '_', 'N', 'V', '_', 'R', 'E', 'S', 'E', 'L', 'L', 'E', 'R', '_', 'E', 'X', 'E', 'M', 'P', 'T', 'I', 'O', 'N'][3] != seq!['U', 'S', '_', 'I', 'N', '_', 'R', 'E', 'S', 'E', 'L', 'L', 'E', 'R', '_', 'E', 'X', 'E', 'M', 'P', 'T', 'I', 'O', 'N'][3]);
            assert(seq!['U', 'S', '_', 'N', 'V', '_', 'R', 'E', 'S', 'E', 'L', 'L', 'E', 'R', '_', 'E', 'X', 'E', 'M', 'P', 'T', 'I', 'O', 'N'][3] != seq!['U', 'S', '_', 'K', 'S', '_', 'R', 'E', 'S', 'E', 'L', 'L', 'E', 'R', '_', 'E', 'X', 'E', 'M', 'P', 'T', 'I', 'O', 'N'][3]);
            assert(seq!['U', 'S', '_', 'N', 'V', '_', 'R', 'E', 'S', 'E', 'L', 'L', 'E', 'R', '_', 'E', 'X', 'E', 'M', 'P', 'T', 'I', 'O', 'N'][3] != seq!['U', 'S', '_', 'K', 'Y', '_', 'R', 'E', 'S', 'E', 'L', 'L', 'E', 'R', '_', 'E', 'X', 'E', 'M', 'P', 'T', 'I', 'O', 'N'][3]);
            assert(seq!['U', 'S', '_', 'N', 'V', '_', 'R', 'E', 'S', 'E', 'L', 'L', 'E', 'R', '_', 'E', 'X', 'E', 'M', 'P', 'T', 'I', 'O', 'N'][3] != seq!['U', 'S', '_', 'L', 'A', '_', 'R', 'E', 'S', 'E', 'L', 'L', 'E', 'R', '_', 'E', 'X', 'E', 'M', 'P', 'T', 'I', 'O', 'N'][3]);
            assert(seq!['U', 'S', '_', 'N', 'V', '_', 'R', 'E', 'S', 'E', 'L', 'L', 'E', 'R', '_', 'E', 'X', 'E', 'M', 'P', 'T', 'I', 'O', 'N'][3] != seq!['U', 'S', '_', 'M', 'A', '_', 'R', 'E', 'S', 'E', 'L', 'L', 'E', 'R', '_', 'E', 'X', 'E', 'M', 'P', 'T', 'I', 'O', 'N'][3]);
            assert(seq!['U', 'S', '_', 'N', 'V', '_', 'R', 'E', 'S', 'E', 'L', 'L', 'E', 'R', '_', 'E', 'X', 'E', 'M', 'P', 'T', 'I', 'O', 'N'][3] != seq!['U', 'S', '_', 'M', 'D', '_', 'R', 'E', 'S', 'E', 'L', 'L', 'E', 'R', '_', 'E', 'X', 'E', 'M', 'P', 'T', 'I', 'O', 'N'][3]);
            assert(seq!['U', 'S', '_', 'N', 'V', '_', 'R', 'E', 'S', 'E', 'L', 'L', 'E', 'R', '_', 'E', 'X', 'E', 'M', 'P', 'T', 'I', 'O', 'N'][3] != seq!['U', 'S', '_', 'M', 'E', '_', 'R', 'E', 'S', 'E', 'L', 'L', 'E', 'R', '_', 'E', 'X', 'E', 'M', 'P', 'T', 'I', 'O', 'N'][3]);
            assert(seq!['U', 'S', '_', 'N', 'V', '_', 'R', 'E', 'S', 'E', 'L', 'L', 'E', 'R', '_', 'E', 'X', 'E', 'M', 'P', 'T', 'I', 'O', 'N'][3] != seq!['U', 'S', '_', 'M', 'I', '_', 'R', 'E', 'S', 'E', 'L', 'L', 'E', 'R', '_', 'E', 'X', 'E', 'M', 'P', 'T', 'I', 'O', 'N'][3]);
            assert(seq!['U', 'S', '_', 'N', 'V', '_', 'R', 'E', 'S', 'E', 'L', 'L', 'E', 'R', '_', 'E', 'X', 'E', 'M', 'P', 'T', 'I', 'O', 'N'][3] != seq!['U', 'S', '_', 'M', 'N', '_', 'R', 'E', 'S', 'E', 'L', 'L', 'E', 'R', '_', 'E', 'X', 'E', 'M', 'P', 'T', 'I', 'O', 'N'][3]);
            assert(seq!['U', 'S', '_', 'N', 'V', '_', 'R', 'E', 'S', 'E', 'L', 'L', 'E', 'R', '_', 'E', 'X', 'E', 'M', 'P', 'T', 'I', 'O', 'N'][3] != seq!['U', 'S', '_', 'M', 'O', '_', 'R', 'E', 'S', 'E', 'L', 'L', 'E', 'R', '_', 'E', 'X', 'E', 'M', 'P', 'T', 'I', 'O', 'N'][3]);
            assert(seq!['U', 'S', '_', 'N', 'V', '_', 'R', 'E', 'S', 'E', 'L', 'L', 'E', 'R', '_', 'E', 'X', 'E', 'M', 'P', 'T', 'I', 'O', 'N'][3] != seq!['U', 'S', '_', 'M', 'S', '_', 'R', 'E', 'S', 'E', 'L', 'L', 'E', 'R', '_', 'E', 'X', 'E', 'M', 'P', 'T', 'I', 'O', 'N'][3]);
            assert(seq!['U', 'S', '_', 'N', 'V', '_', 'R', 'E', 'S', 'E', 'L', 'L', 'E', 'R', '_', 'E', 'X', 'E', 'M', 'P', 'T', 'I', 'O', 'N'][3] != seq!['U', 'S', '_', 'M', 'T', '_', 'R', 'E', 'S', 'E', 'L', 'L', 'E', 'R', '_', 'E', 'X', 'E', 'M', 'P', 'T', 'I', 'O', 'N'][3]);
            assert(seq!['U', 'S', '_', 'N', 'V', '_', 'R', 'E', 'S', 'E', 'L', 'L', 'E', 'R', '_', 'E', 'X', 'E', 'M', 'P', 'T', 'I', 'O', 'N'][4] != seq!['U', 'S', '_', 'N', 'C', '_', 'R', 'E', 'S', 'E', 'L', 'L', 'E', 'R', '_', 'E', 'X', 'E', 'M', 'P', 'T', 'I', 'O', 'N'][4]);
            assert(seq!['U', 'S', '_', 'N', 'V', '_', 'R', 'E', 'S', 'E', 'L', 'L', 'E', 'R', '_', 'E', 'X', 'E', 'M', 'P', 'T', 'I', 'O', 'N'][4] != seq!['U', 'S', '_', 'N', 'D', '_', 'R', 'E', 'S', 'E', 'L', 'L', 'E', 'R', '_', 'E', 'X', 'E', 'M', 'P', 'T', 'I', 'O', 'N'][4]);
            assert(seq!['U', 'S', '_', 'N', 'V', '_', 'R', 'E', 'S', 'E', 'L', 'L', 'E', 'R', '_', 'E', 'X', 'E', 'M', 'P', 'T', 'I', 'O', 'N'][4] != seq!['U', 'S', '_', 'N', 'E', '_', 'R', 'E', 'S', 'E', 'L', 'L', 'E', 'R', '_', 'E', 'X', 'E', 'M', 'P', 'T', 'I', 'O', 'N'][4]);
            assert(seq!['U', 'S', '_', 'N', 'V', '_', 'R', 'E', 'S', 'E', 'L', 'L', 'E', 'R', '_', 'E', 'X', 'E', 'M', 'P', 'T', 'I', 'O', 'N'][4] != seq!['U', 'S', '_', 'N', 'H', '_', 'R', 'E', 'S', 'E', 'L', 'L', 'E', 'R', '_', 'E', 'X', 'E', 'M', 'P', 'T', 'I', 'O', 'N'][4]);
            assert(seq!['U', 'S', '_', 'N', 'V', '_', 'R', 'E', 'S', 'E', 'L', 'L', 'E', 'R', '_', 'E', 'X', 'E', 'M', 'P', 'T', 'I', 'O', 'N'][4] != seq!['U', 'S', '_', 'N', 'J', '_', 'R', 'E', 'S', 'E', 'L', 'L', 'E', 'R', '_', 'E', 'X', 'E', 'M', 'P', 'T', 'I', 'O', 'N'][4]);
            assert(seq!['U', 'S', '_', 'N', 'V', '_', 'R', 'E', 'S', 'E', 'L', 'L', 'E', 'R', '_', 'E', 'X', 'E', 'M', 'P', 'T', 'I', 'O', 'N'][4] != seq!['U', 'S', '_', 'N', 'M', '_', 'R', 'E', 'S', 'E', 'L', 'L', 'E', 'R', '_', 'E', 'X', 'E', 'M', 'P', 'T', 'I', 'O', 'N'][4]);
        },
        TaxExemption::US_NY_RESELLER_EXEMPTION => {
            assert(seq!['U', 'S', '_', 'N', 'Y', '_', 'R', 'E', 'S', 'E', 'L', 'L', 'E', 'R', '_', 'E', 'X', 'E', 'M', 'P', 'T', 'I', 'O', 'N'][0] != seq!['C', 'A', '_', 'B', 'C', '_', 'R', 'E', 'S', 'E', 'L', 'L', 'E', 'R', '_', 'E', 'X', 'E', 'M', 'P', 'T', 'I', 'O', 'N'][0]);
            assert(seq!['U', 'S', '_', 'N', 'Y', '_', 'R', 'E', 'S', 'E', 'L', 'L', 'E', 'R', '_', 'E', 'X', 'E', 'M', 'P', 'T', 'I', 'O', 'N'][0] != seq!['C', 'A', '_', 'M', 'B', '_', 'R', 'E', 'S', 'E', 'L', 'L', 'E', 'R', '_', 'E', 'X', 'E', 'M', 'P', 'T', 'I', 'O', 'N'][0]);
            assert(seq!['U', 'S', '_', 'N', 'Y', '_', 'R', 'E', 'S', 'E', 'L', 'L', 'E', 'R', '_', 'E', 'X', 'E', 'M', 'P', 'T', 'I', 'O', 'N'][0] != seq!['C', 'A', '_', 'O', 'N', '_', 'P', 'U', 'R', 'C', 'H', 'A', 'S', 'E', '_', 'E', 'X', 'E', 'M', 'P', 'T', 'I', 'O', 'N'][0]);
            assert(seq!['U', 'S', '_', 'N', 'Y', '_', 'R', 'E', 'S', 'E', 'L', 'L', 'E', 'R', '_', 'E', 'X', 'E', 'M', 'P', 'T', 'I', 'O', 'N'][0] != seq!['C', 'A', '_', 'S', 'K', '_', 'R', 'E', 'S', 'E', 'L', 'L', 'E', 'R', '_', 'E', 'X', 'E', 'M', 'P', 'T', 'I', 'O', 'N'][0]);
            assert(seq!['U', 'S', '_', 'N', 'Y', '_', 'R', 'E', 'S', 'E', 'L', 'L', 'E', 'R', '_', 'E', 'X', 'E', 'M', 'P', 'T', 'I', 'O', 'N'][0] != seq!['C', 'A', '_', 'S', 'T', 'A', 'T', 'U', 'S', '_', 'C', 'A', 'R', 'D', '_', 'E', 'X', 'E', 'M', 'P', 'T', 'I', 'O', 'N'][0]);
            assert(seq!['U', 'S', '_', 'N', 'Y', '_', 'R', 'E', 'S', 'E', 'L', 'L', 'E', 'R', '_', 'E', 'X', 'E', 'M', 'P', 'T', 'I', 'O', 'N'][3] != seq!['U', 'S', '_', 'A', 'K', '_', 'R', 'E', 'S', 'E', 'L', 'L', 'E', 'R', '_', 'E', 'X', 'E', 'M', 'P', 'T', 'I', 'O', 'N'][3]);
            assert(seq!['U', 'S', '_', 'N', 'Y', '_', 'R', 'E', 'S', 'E', 'L', 'L', 'E', 'R', '_', 'E', 'X', 'E', 'M', 'P', 'T', 'I', 'O', 'N'][3] != seq!['U', 'S', '_', 'A', 'L', '_', 'R', 'E', 'S', 'E', 'L', 'L', 'E', 'R', '_', 'E', 'X', 'E', 'M', 'P', 'T', 'I', 'O', 'N'][3]);
            assert(seq!['U', 'S', '_', 'N', 'Y', '_', 'R', 'E', 'S', 'E', 'L', 'L', 'E', 'R', '_', 'E', 'X', 'E', 'M', 'P', 'T', 'I', 'O', 'N'][3] != seq!['U', 'S', '_', 'A', 'R', '_', 'R', 'E', 'S', 'E', 'L', 'L', 'E', 'R', '_', 'E', 'X', 'E', 'M', 'P', 'T', 'I', 'O', 'N'][3]);
            assert(seq!['U', 'S', '_', 'N', 'Y', '_', 'R', 'E', 'S', 'E', 'L', 'L', 'E', 'R', '_', 'E', 'X', 'E', 'M', 'P', 'T', 'I', 'O', 'N'][3] != seq!['U', 'S', '_', 'A', 'Z', '_', 'R', 'E', 'S', 'E', 'L', 'L', 'E', 'R', '_', 'E', 'X', 'E', 'M', 'P', 'T', 'I', 'O', 'N'][3]);
            assert(seq!['U', 'S', '_', 'N', 'Y', '_', 'R', 'E', 'S', 'E', 'L', 'L', 'E', 'R', '_', 'E', 'X', 'E', 'M', 'P', 'T', 'I', 'O', 'N'][3] != seq!['U', 'S', '_', 'C', 'A', '_', 'R', 'E', 'S', 'E', 'L', 'L', 'E', 'R', '_', 'E', 'X', 'E', 'M', 'P', 'T', 'I', 'O', 'N'][3]);
            assert(seq!['U', 'S', '_', 'N', 'Y', '_', 'R', 'E', 'S', 'E', 'L', 'L', 'E', 'R', '_', 'E', 'X', 'E', 'M', 'P', 'T', 'I', 'O', 'N'][3] != seq!['U', 'S', '_', 'C', 'O', '_', 'R', 'E', 'S', 'E', 'L', 'L', 'E', 'R', '_', 'E', 'X', 'E', 'M', 'P', 'T', 'I', 'O', 'N'][3]);
            assert(seq!['U', 'S', '_', 'N', 'Y', '_', 'R', 'E', 'S', 'E', 'L', 'L', 'E', 'R', '_', 'E', 'X', 'E', 'M', 'P', 'T', 'I', 'O', 'N'][3] != seq!['U', 'S', '_', 'C', 'T', '_', 'R', 'E', 'S', 'E', 'L', 'L', 'E', 'R', '_', 'E', 'X', 'E', 'M', 'P', 'T', 'I', 'O', 'N'][3]);
            assert(seq!['U', 'S', '_', 'N', 'Y', '_', 'R', 'E', 'S', 'E', 'L', 'L', 'E', 'R', '_', 'E', 'X', 'E', 'M', 'P', 'T', 'I', 'O', 'N'][3] != seq!['U', 'S', '_', 'D', 'C', '_', 'R', 'E', 'S', 'E', 'L', 'L', 'E', 'R', '_', 'E', 'X', 'E', 'M', 'P', 'T', 'I', 'O', 'N'][3]);
            assert(seq!['U', 'S', '_', 'N', 'Y', '_', 'R', 'E', 'S', 'E', 'L', 'L', 'E', 'R', '_', 'E', 'X', 'E', 'M', 'P', 'T', 'I', 'O', 'N'][3] != seq!['U', 'S', '_', 'D', 'E', '_', 'R', 'E', 'S', 'E', 'L', 'L', 'E', 'R', '_', 'E', 'X', 'E', 'M', 'P', 'T', 'I', 'O', 'N'][3]);
            assert(seq!['U', 'S', '_', 'N', 'Y', '_', 'R', 'E', 'S', 'E', 'L', 'L', 'E', 'R', '_', 'E', 'X', 'E', 'M', 'P', 'T', 'I', 'O', 'N'][3] != seq!['U', 'S', '_', 'F', 'L', '_', 'R', 'E', 'S', 'E', 'L', 'L', 'E', 'R', '_', 'E', 'X', 'E', 'M', 'P', 'T', 'I', 'O', 'N'][3]);
            assert(seq!['U', 'S', '_', 'N', 'Y', '_', 'R', 'E', 'S', 'E', 'L', 'L', 'E', 'R', '_', 'E', 'X', 'E', 'M', 'P', 'T', 'I', 'O', 'N'][3] != seq!['U', 'S', '_', 'G', 'A', '_', 'R', 'E', 'S', 'E', 'L', 'L', 'E', 'R', '_', 'E', 'X', 'E', 'M', 'P', 'T', 'I', 'O', 'N'][3]);
            assert(seq!['U', 'S', '_', 'N', 'Y', '_', 'R', 'E', 'S', 'E', 'L', 'L', 'E', 'R', '_', 'E', 'X', 'E', 'M', 'P', 'T', 'I', 'O', 'N'][3] != seq!['U', 'S', '_', 'H', 'I', '_', 'R', 'E', 'S', 'E', 'L', 'L', 'E', 'R', '_', 'E', 'X', 'E', 'M', 'P', 'T', 'I', 'O', 'N'][3]);
            assert(seq!['U', 'S', '_', 'N', 'Y', '_', 'R', 'E', 'S', 'E', 'L', 'L', 'E', 'R', '_', 'E', 'X', 'E', 'M', 'P', 'T', 'I', 'O', 'N'][3] != seq!['U', 'S', '_', 'I', 'A', '_', 'R', 'E', 'S', 'E', 'L', 'L', 'E', 'R', '_', 'E', 'X', 'E', 'M', 'P', 'T', 'I', 'O', 'N'][3]);
            assert(seq!['U', 'S', '_', 'N', 'Y', '_', 'R', 'E', 'S', 'E', 'L', 'L', 'E', 'R', '_', 'E', 'X', 'E', 'M', 'P', 'T', 'I', 'O', 'N'][3] != seq!['U', 'S', '_', 'I', 'D', '_', 'R', 'E', 'S', 'E', 'L', 'L', 'E', 'R', '_', 'E', 'X', 'E', 'M', 'P', 'T', 'I', 'O', 'N'][3]);
            assert(seq!['U', 'S', '_', 'N', 'Y', '_', 'R', 'E', 'S', 'E', 'L', 'L', 'E', 'R', '_', 'E', 'X', 'E', 'M', 'P', 'T', 'I', 'O', 'N'][3] != seq!['U', 'S', '_', 'I', 'L', '_', 'R', 'E', 'S', 'E', 'L', 'L', 'E', 'R', '_', 'E', 'X', 'E', 'M', 'P', 'T', 'I', 'O', 'N'][3]);
            assert(seq!['U', 'S', '_', 'N', 'Y', '_', 'R', 'E', 'S', 'E', 'L', 'L', 'E', 'R', '_', 'E', 'X', 'E', 'M', 'P', 'T', 'I', 'O', 'N'][3] != seq!['U', 'S', '_', 'I', 'N', '_', 'R', 'E', 'S', 'E', 'L', 'L', 'E', 'R', '_', 'E', 'X', 'E', 'M', 'P', 'T', 'I', 'O', 'N'][3]);
            assert(seq!['U', 'S', '_', 'N', 'Y', '_', 'R', 'E', 'S', 'E', 'L', 'L', 'E', 'R', '_', 'E', 'X', 'E', 'M', 'P', 'T', 'I', 'O', 'N'][3] != seq!['U', 'S', '_', 'K', 'S', '_', 'R', 'E', 'S', 'E', 'L', 'L', 'E', 'R', '_', 'E', 'X', 'E', 'M', 'P', 'T', 'I', 'O', 'N'][3]);
            assert(seq!['U', 'S', '_', 'N', 'Y', '_', 'R', 'E', 'S', 'E', 'L', 'L', 'E', 'R', '_', 'E', 'X', 'E', 'M', 'P', 'T', 'I', 'O', 'N'][3] != seq!['U', 'S', '_', 'K', 'Y', '_', 'R', 'E', 'S', 'E', 'L', 'L', 'E', 'R', '_', 'E', 'X', 'E', 'M', 'P', 'T', 'I', 'O', 'N'][3]);
            assert(seq!['U', 'S', '_', 'N', 'Y', '_', 'R', 'E', 'S', 'E', 'L', 'L', 'E', 'R', '_', 'E', 'X', 'E', 'M', 'P', 'T', 'I', 'O', 'N'][3] != seq!['U', 'S', '_', 'L', 'A', '_', 'R', 'E', 'S', 'E', 'L', 'L', 'E', 'R', '_', 'E', 'X', 'E', 'M', 'P', 'T', 'I', 'O', 'N'][3]);
            assert(seq!['U', 'S', '_', 'N', 'Y', '_', 'R', 'E', 'S', 'E', 'L', 'L', 'E', 'R', '_', 'E', 'X', 'E', 'M', 'P', 'T', 'I', 'O', 'N'][3] != seq!['U', 'S', '_', 'M', 'A', '_', 'R', 'E', 'S', 'E', 'L', 'L', 'E', 'R', '_', 'E', 'X', 'E', 'M', 'P', 'T', 'I', 'O', 'N'][3]);
            assert(seq!['U', 'S', '_', 'N', 'Y', '_', 'R', 'E', 'S', 'E', 'L', 'L', 'E', 'R', '_', 'E', 'X', 'E', 'M', 'P', 'T', 'I', 'O', 'N'][3] != seq!['U', 'S', '_', 'M', 'D', '_', 'R', 'E', 'S', 'E', 'L', 'L', 'E', 'R', '_', 'E', 'X', 'E', 'M', 'P', 'T', 'I', 'O', 'N'][3]);
            assert(seq!['U', 'S', '_', 'N', 'Y', '_', 'R', 'E', 'S', 'E', 'L', 'L', 'E', 'R', '_', 'E', 'X', 'E', 'M', 'P', 'T', 'I', 'O', 'N'][3] != seq!['U', 'S', '_', 'M', 'E', '_', 'R', 'E', 'S', 'E', 'L', 'L', 'E', 'R', '_', 'E', 'X', 'E', 'M', 'P', 'T', 'I', 'O', 'N'][3]);
            assert(seq!['U', 'S', '_', 'N', 'Y', '_', 'R', 'E', 'S', 'E', 'L', 'L', 'E', 'R', '_', 'E', 'X', 'E', 'M', 'P', 'T', 'I', 'O', 'N'][3] != seq!['U', 'S', '_', 'M', 'I', '_', 'R', 'E', 'S', 'E', 'L', 'L', 'E', 'R', '_', 'E', 'X', 'E', 'M', 'P', 'T', 'I', 'O', 'N'][3]);
            assert(seq!['U', 'S', '_', 'N', 'Y', '_', 'R', 'E', 'S', 'E', 'L', 'L', 'E', 'R', '_', 'E', 'X', 'E', 'M', 'P', 'T', 'I', 'O', 'N'][3] != seq!['U', 'S', '_', 'M', 'N', '_', 'R', 'E', 'S', 'E', 'L', 'L', 'E', 'R', '_', 'E', 'X', 'E', 'M', 'P', 'T', 'I', 'O', 'N'][3]);
            assert(seq!['U', 'S', '_', 'N', 'Y', '_', 'R', 'E', 'S', 'E', 'L', 'L', 'E', 'R', '_', 'E', 'X', 'E', 'M', 'P', 'T', 'I', 'O', 'N'][3] != seq!['U', 'S', '_', 'M', 'O', '_', 'R', 'E', 'S', 'E', 'L', 'L', 'E', 'R', '_', 'E', 'X', 'E', 'M', 'P', 'T', 'I', 'O', 'N'][3]);
            assert(seq!['U', 'S', '_', 'N', 'Y', '_', 'R', 'E', 'S', 'E', 'L', 'L', 'E', 'R', '_', 'E', 'X', 'E', 'M', 'P', 'T', 'I', 'O', 'N'][3] != seq!['U', 'S', '_', 'M', 'S', '_', 'R', 'E', 'S', 'E', 'L', 'L', 'E', 'R', '_', 'E', 'X', 'E', 'M', 'P', 'T', 'I', 'O', 'N'][3]);
            assert(seq!['U', 'S', '_', 'N', 'Y', '_', 'R', 'E', 'S', 'E', 'L', 'L', 'E', 'R', '_', 'E', 'X', 'E', 'M', 'P', 'T', 'I', 'O', 'N'][3] != seq!['U', 'S', '_', 'M', 'T', '_', 'R', 'E', 'S', 'E', 'L', 'L', 'E', 'R', '_', 'E', 'X', 'E', 'M', 'P', 'T', 'I', 'O', 'N'][3]);
            assert(seq!['U', 'S', '_', 'N', 'Y', '_', 'R', 'E', 'S', 'E', 'L', 'L', 'E', 'R', '_', 'E', 'X', 'E', 'M', 'P', 'T', 'I', 'O', 'N'][4] != seq!['U', 'S', '_', 'N', 'C', '_', 'R', 'E', 'S', 'E', 'L', 'L', 'E', 'R', '_', 'E', 'X', 'E', 'M', 'P', 'T', 'I', 'O', 'N'][4]);
            assert(seq!['U', 'S', '_', 'N', 'Y', '_', 'R', 'E', 'S', 'E', 'L', 'L', 'E', 'R', '_', 'E', 'X', 'E', 'M', 'P', 'T', 'I', 'O', 'N'][4] != seq!['U', 'S', '_', 'N', 'D', '_', 'R', 'E', 'S', 'E', 'L', 'L', 'E', 'R', '_', 'E', 'X', 'E', 'M', 'P', 'T', 'I', 'O', 'N'][4]);
            assert(seq!['U', 'S', '_', 'N', 'Y', '_', 'R', 'E', 'S', 'E', 'L', 'L', 'E', 'R', '_', 'E', 'X', 'E', 'M', 'P', 'T', 'I', 'O', 'N'][4] != seq!['U', 'S', '_', 'N', 'E', '_', 'R', 'E', 'S', 'E', 'L', 'L', 'E', 'R', '_', 'E', 'X', 'E', 'M', 'P', 'T', 'I', 'O', 'N'][4]);
            assert(seq!['U', 'S', '_', 'N', 'Y', '_', 'R', 'E', 'S', 'E', 'L', 'L', 'E', 'R', '_', 'E', 'X', 'E', 'M', 'P', 'T', 'I', 'O', 'N'][4] != seq!['U', 'S', '_', 'N', 'H', '_', 'R', 'E', 'S', 'E', 'L', 'L', 'E', 'R', '_', 'E', 'X', 'E', 'M', 'P', 'T', 'I', 'O', 'N'][4]);
            assert(seq!['U', 'S', '_', 'N', 'Y', '_', 'R', 'E', 'S', 'E', 'L', 'L', 'E', 'R', '_', 'E', 'X', 'E', 'M', 'P', 'T', 'I', 'O', 'N'][4] != seq!['U', 'S', '_', 'N', 'J', '_', 'R', 'E', 'S', 'E', 'L', 'L', 'E', 'R', '_', 'E', 'X', 'E', 'M', 'P', 'T', 'I', 'O', 'N'][4]);
            assert(seq!['U', 'S', '_', 'N', 'Y', '_', 'R', 'E', 'S', 'E', 'L', 'L', 'E', 'R', '_', 'E', 'X', 'E', 'M', 'P', 'T', 'I', 'O', 'N'][4] != seq!['U', 'S', '_', 'N', 'M', '_', 'R', 'E', 'S', 'E', 'L', 'L', 'E', 'R', '_', 'E', 'X', 'E', 'M', 'P', 'T', 'I', 'O', 'N'][4]);
            assert(seq!['U', 'S', '_', 'N', 'Y', '_', 'R', 'E', 'S', 'E', 'L', 'L', 'E', 'R', '_', 'E', 'X', 'E', 'M', 'P', 'T', 'I', 'O', 'N'][4] != seq!['U', 'S', '_', 'N', 'V', '_', 'R', 'E', 'S', 'E', 'L', 'L', 'E', 'R', '_', 'E', 'X', 'E', 'M', 'P', 'T', 'I', 'O', 'N'][4]);
        },
        TaxExemption::US_OH_RESELLER_EXEMPTION => {
            assert(seq!['U', 'S', '_', 'O', 'H', '_', 'R', 'E', 'S', 'E', 'L', 'L', 'E', 'R', '_', 'E', 'X', 'E', 'M', 'P', 'T', 'I', 'O', 'N'][0] != seq!['C', 'A', '_', 'B', 'C', '_', 'R', 'E', 'S', 'E', 'L', 'L', 'E', 'R', '_', 'E', 'X', 'E', 'M', 'P', 'T', 'I', 'O', 'N'][0]);
            assert(seq!['U', 'S', '_', 'O', 'H', '_', 'R', 'E', 'S', 'E', 'L', 'L', 'E', 'R', '_', 'E', 'X', 'E', 'M', 'P', 'T', 'I', 'O', 'N'][0] != seq!['C', 'A', '_', 'M', 'B', '_', 'R', 'E', 'S', 'E', 'L', 'L', 'E', 'R', '_', 'E', 'X', 'E', 'M', 'P', 'T', 'I', 'O', 'N'][0]);
            assert(seq!['U', 'S', '_', 'O', 'H', '_', 'R', 'E', 'S', 'E', 'L', 'L', 'E', 'R', '_', 'E', 'X', 'E', 'M', 'P', 'T', 'I', 'O', 'N'][0] != seq!['C', 'A', '_', 'O', 'N', '_', 'P', 'U', 'R', 'C', 'H', 'A', 'S', 'E', '_', 'E', 'X', 'E', 'M', 'P', 'T', 'I', 'O', 'N'][0]);
            assert(seq!['U', 'S', '_', 'O', 'H', '_', 'R', 'E', 'S', 'E', 'L', 'L', 'E', 'R', '_', 'E', 'X', 'E', 'M', 'P', 'T', 'I', 'O', 'N'][0] != seq!['C', 'A', '_', 'S', 'K', '_', 'R', 'E', 'S', 'E', 'L', 'L', 'E', 'R', '_', 'E', 'X', 'E', 'M', 'P', 'T', 'I', 'O', 'N'][0]);
            assert(seq!['U', 'S', '_', 'O', 'H', '_', 'R', 'E', 'S', 'E', 'L', 'L', 'E', 'R', '_', 'E', 'X', 'E', 'M', 'P', 'T', 'I', 'O', 'N'][0] != seq!['C', 'A', '_', 'S', 'T', 'A', 'T', 'U', 'S', '_', 'C', 'A', 'R', 'D', '_', 'E', 'X', 'E', 'M', 'P', 'T', 'I', 'O', 'N'][0]);
            assert(seq!['U', 'S', '_', 'O', 'H', '_', 'R', 'E', 'S', 'E', 'L', 'L', 'E', 'R', '_', 'E', 'X', 'E', 'M', 'P', 'T', 'I', 'O', 'N'][3] != seq!['U', 'S', '_', 'A', 'K', '_', 'R', 'E', 'S', 'E', 'L', 'L', 'E', 'R', '_', 'E', 'X', 'E', 'M', 'P', 'T', 'I', 'O', 'N'][3]);
            assert(seq!['U', 'S', '_', 'O', 'H', '_', 'R', 'E', 'S', 'E', 'L', 'L', 'E', 'R', '_', 'E', 'X', 'E', 'M', 'P', 'T', 'I', 'O', 'N'][3] != seq!['U', 'S', '_', 'A', 'L', '_', 'R', 'E', 'S', 'E', 'L', 'L', 'E', 'R', '_', 'E', 'X', 'E', 'M', 'P', 'T', 'I', 'O', 'N'][3]);
            assert(seq!['U', 'S', '_', 'O', 'H', '_', 'R', 'E', 'S', 'E', 'L', 'L', 'E', 'R', '_', 'E', 'X', 'E', 'M', 'P', 'T', 'I', 'O', 'N'][3] != seq!['U', 'S', '_', 'A', 'R', '_', 'R', 'E', 'S', 'E', 'L', 'L', 'E', 'R', '_', 'E', 'X', 'E', 'M', 'P', 'T', 'I', 'O', 'N'][3]);
            assert(seq!['U', 'S', '_', 'O', 'H', '_', 'R', 'E', 'S', 'E', 'L', 'L', 'E', 'R', '_', 'E', 'X', 'E', 'M', 'P', 'T', 'I', 'O', 'N'][3] != seq!['U', 'S', '_', 'A', 'Z', '_', 'R', 'E', 'S', 'E', 'L', 'L', 'E', 'R', '_', 'E', 'X', 'E', 'M', 'P', 'T', 'I', 'O', 'N'][3]);
            assert(seq!['U', 'S', '_', 'O', 'H', '_', 'R', 'E', 'S', 'E', 'L', 'L', 'E', 'R', '_', 'E', 'X', 'E', 'M', 'P', 'T', 'I', 'O', 'N'][3] != seq!['U', 'S', '_', 'C', 'A', '_', 'R', 'E', 'S', 'E', 'L', 'L', 'E', 'R', '_', 'E', 'X', 'E', 'M', 'P', 'T', 'I', 'O', 'N'][3]);
            assert(seq!['U', 'S', '_', 'O', 'H', '_', 'R', 'E', 'S', 'E', 'L', 'L', 'E', 'R', '_', 'E', 'X', 'E', 'M', 'P', 'T', 'I', 'O', 'N'][3] != seq!['U', 'S', '_', 'C', 'O', '_', 'R', 'E', 'S', 'E', 'L', 'L', 'E', 'R', '_', 'E', 'X', 'E', 'M', 'P', 'T', 'I', 'O', 'N'][3]);
            assert(seq!['U', 'S', '_', 'O', 'H', '_', 'R', 'E', 'S', 'E', 'L', 'L', 'E', 'R', '_', 'E', 'X', 'E', 'M', 'P', 'T', 'I', 'O', 'N'][3] != seq!['U', 'S', '_', 'C', 'T', '_', 'R', 'E', 'S', 'E', 'L', 'L', 'E', 'R', '_', 'E', 'X', 'E', 'M', 'P', 'T', 'I', 'O', 'N'][3]);
            assert(seq!['U', 'S', '_', 'O', 'H', '_', 'R', 'E', 'S', 'E', 'L', 'L', 'E', 'R', '_', 'E', 'X', 'E', 'M', 'P', 'T', 'I', 'O', 'N'][3] != seq!['U', 'S', '_', 'D', 'C', '_', 'R', 'E', 'S', 'E', 'L', 'L', 'E', 'R', '_', 'E', 'X', 'E', 'M', 'P', 'T', 'I', 'O', 'N'][3]);
            assert(seq!['U', 'S', '_', 'O', 'H', '_', 'R', 'E', 'S', 'E', 'L', 'L', 'E', 'R', '_', 'E', 'X', 'E', 'M', 'P', 'T', 'I', 'O', 'N'][3] != seq!['U', 'S', '_', 'D', 'E', '_', 'R', 'E', 'S', 'E', 'L', 'L', 'E', 'R', '_', 'E', 'X', 'E', 'M', 'P', 'T', 'I', 'O', 'N'][3]);
            assert(seq!['U', 'S', '_', 'O', 'H', '_', 'R', 'E', 'S', 'E', 'L', 'L', 'E', 'R', '_', 'E', 'X', 'E', 'M', 'P', 'T', 'I', 'O', 'N'][3] != seq!['U', 'S', '_', 'F', 'L', '_', 'R', 'E', 'S', 'E', 'L', 'L', 'E', 'R', '_', 'E', 'X', 'E', 'M', 'P', 'T', 'I', 'O', 'N'][3]);
            assert(seq!['U', 'S', '_', 'O', 'H', '_', 'R', 'E', 'S', 'E', 'L', 'L', 'E', 'R', '_', 'E', 'X', 'E', 'M', 'P', 'T', 'I', 'O', 'N'][3] != seq!['U', 'S', '_', 'G', 'A', '_', 'R', 'E', 'S', 'E', 'L', 'L', 'E', 'R', '_', 'E', 'X', 'E', 'M', 'P', 'T', 'I', 'O', 'N'][3]);
            assert(seq!['U', 'S', '_', 'O', 'H', '_', 'R', 'E', 'S', 'E', 'L', 'L', 'E', 'R', '_', 'E', 'X', 'E', 'M', 'P', 'T', 'I', 'O', 'N'][3] != seq!['U', 'S', '_', 'H', 'I', '_', 'R', 'E', 'S', 'E', 'L', 'L', 'E', 'R', '_', 'E', 'X', 'E', 'M', 'P', 'T', 'I', 'O', 'N'][3]);
            assert(seq!['U', 'S', '_', 'O', 'H', '_', 'R', 'E', 'S', 'E', 'L', 'L', 'E', 'R', '_', 'E', 'X', 'E', 'M', 'P', 'T', 'I', 'O', 'N'][3] != seq!['U', 'S', '_', 'I', 'A', '_', 'R', 'E', 'S', 'E', 'L', 'L', 'E', 'R', '_', 'E', 'X', 'E', 'M', 'P', 'T', 'I', 'O', 'N'][3]);
            assert(seq!['U', 'S', '_', 'O', 'H', '_', 'R', 'E', 'S', 'E', 'L', 'L', 'E', 'R', '_', 'E', 'X', 'E', 'M', 'P', 'T', 'I', 'O', 'N'][3] != seq!['U', 'S', '_', 'I', 'D', '_', 'R', 'E', 'S', 'E', 'L', 'L', 'E', 'R', '_', 'E', 'X', 'E', 'M', 'P', 'T', 'I', 'O', 'N'][3]);
            assert(seq!['U', 'S', '_', 'O', 'H', '_', 'R', 'E', 'S', 'E', 'L', 'L', 'E', 'R', '_', 'E', 'X', 'E', 'M', 'P', 'T', 'I', 'O', 'N'][3] != seq!['U', 'S', '_', 'I', 'L', '_', 'R', 'E', 'S', 'E', 'L', 'L', 'E', 'R', '_', 'E', 'X', 'E', 'M', 'P', 'T', 'I', 'O', 'N'][3]);
            assert(seq!['U', 'S', '_', 'O', 'H', '_', 'R', 'E', 'S', 'E', 'L', 'L', 'E', 'R', '_', 'E', 'X', 'E', 'M', 'P', 'T', 'I', 'O', 'N'][3] != seq!['U', 'S', '_', 'I', 'N', '_', 'R', 'E', 'S', 'E', 'L', 'L', 'E', 'R', '_', 'E', 'X', 'E', 'M', 'P', 'T', 'I', 'O', 'N'][3]);
            assert(seq!['U', 'S', '_', 'O', 'H', '_', 'R', 'E', 'S', 'E', 'L', 'L', 'E', 'R', '_', 'E', 'X', 'E', 'M', 'P', 'T', 'I', 'O', 'N'][3] != seq!['U', 'S', '_', 'K', 'S', '_', 'R', 'E', 'S', 'E', 'L', 'L', 'E', 'R', '_', 'E', 'X', 'E', 'M', 'P', 'T', 'I', 'O', 'N'][3]);
            assert(seq!['U', 'S', '_', 'O', 'H', '_', 'R', 'E', 'S', 'E', 'L', 'L', 'E', 'R', '_', 'E', 'X', 'E', 'M', 'P', 'T', 'I', 'O', 'N'][3] != seq!['U', 'S', '_', 'K', 'Y', '_', 'R', 'E', 'S', 'E', 'L', 'L', 'E', 'R', '_', 'E', 'X', 'E', 'M', 'P', 'T', 'I', 'O', 'N'][3]);
            assert(seq!['U', 'S', '_', 'O', 'H', '_', 'R', 'E', 'S', 'E', 'L', 'L', 'E', 'R', '_', 'E', 'X', 'E', 'M', 'P', 'T', 'I', 'O', 'N'][3] != seq!['U', 'S', '_', 'L', 'A', '_', 'R', 'E', 'S', 'E', 'L', 'L', 'E', 'R', '_', 'E', 'X', 'E', 'M', 'P', 'T', 'I', 'O', 'N'][3]);
            assert(seq!['U', 'S', '_', 'O', 'H', '_', 'R', 'E', 'S', 'E', 'L', 'L', 'E', 'R', '_', 'E', 'X', 'E', 'M', 'P', 'T', 'I', 'O', 'N'][3] != seq!['U', 'S', '_', 'M', 'A', '_', 'R', 'E', 'S', 'E', 'L', 'L', 'E', 'R', '_', 'E', 'X', 'E', 'M', 'P', 'T', 'I', 'O', 'N'][3]);
            assert(seq!['U', 'S', '_', 'O', 'H', '_', 'R', 'E', 'S', 'E', 'L', 'L', 'E', 'R', '_', 'E', 'X', 'E', 'M', 'P', 'T', 'I', 'O', 'N'][3] != seq!['U', 'S', '_', 'M', 'D', '_', 'R', 'E', 'S', 'E', 'L', 'L', 'E', 'R', '_', 'E', 'X', 'E', 'M', 'P', 'T', 'I', 'O', 'N'][3]);
            assert(seq!['U', 'S', '_', 'O', 'H', '_', 'R', 'E', 'S', 'E', 'L', 'L', 'E', 'R', '_', 'E', 'X', 'E', 'M', 'P', 'T', 'I', 'O', 'N'][3] != seq!['U', 'S', '_', 'M', 'E', '_', 'R', 'E', 'S', 'E', 'L', 'L', 'E', 'R', '_', 'E', 'X', 'E', 'M', 'P', 'T', 'I', 'O', 'N'][3]);
            assert(seq!['U', 'S', '_', 'O', 'H', '_', 'R', 'E', 'S', 'E', 'L', 'L', 'E', 'R', '_', 'E', 'X', 'E', 'M', 'P', 'T', 'I', 'O', 'N'][3] != seq!['U', 'S', '_', 'M', 'I', '_', 'R', 'E', 'S', 'E', 'L', 'L', 'E', 'R', '_', 'E', 'X', 'E', 'M', 'P', 'T', 'I', 'O', 'N'][3]);
            assert(seq!['U', 'S', '_', 'O', 'H', '_', 'R', 'E', 'S', 'E', 'L', 'L', 'E', 'R', '_', 'E', 'X', 'E', 'M', 'P', 'T', 'I', 'O', 'N'][3] != seq!['U', 'S', '_', 'M', 'N', '_', 'R', 'E', 'S', 'E', 'L', 'L', 'E', 'R', '_', 'E', 'X', 'E', 'M', 'P', 'T', 'I', 'O', 'N'][3]);
            assert(seq!['U', 'S', '_', 'O', 'H', '_', 'R', 'E', 'S', 'E', 'L', 'L', 'E', 'R', '_', 'E', 'X', 'E', 'M', 'P', 'T', 'I', 'O', 'N'][3] != seq!['U', 'S', '_', 'M', 'O', '_', 'R', 'E', 'S', 'E', 'L', 'L', 'E', 'R', '_', 'E', 'X', 'E', 'M', 'P', 'T', 'I', 'O', 'N'][3]);
            assert(seq!['U', 'S', '_', 'O', 'H', '_', 'R', 'E', 'S', 'E', 'L', 'L', 'E', 'R', '_', 'E', 'X', 'E', 'M', 'P', 'T', 'I', 'O', 'N'][3] != seq!['U', 'S', '_', 'M', 'S', '_', 'R', 'E', 'S', 'E', 'L', 'L', 'E', 'R', '_', 'E', 'X', 'E', 'M', 'P', 'T', 'I', 'O', 'N'][3]);
            assert(seq!['U', 'S', '_', 'O', 'H', '_', 'R', 'E', 'S', 'E', 'L', 'L', 'E', 'R', '_', 'E', 'X', 'E', 'M', 'P', 'T', 'I', 'O', 'N'][3] != seq!['U', 'S', '_', 'M', 'T', '_', 'R', 'E', 'S', 'E', 'L', 'L', 'E', 'R', '_', 'E', 'X', 'E', 'M', 'P', 'T', 'I', 'O', 'N'][3]);
            assert(seq!['U', 'S', '_', 'O', 'H', '_', 'R', 'E', 'S', 'E', 'L', 'L', 'E', 'R', '_', 'E', 'X', 'E', 'M', 'P', 'T', 'I', 'O', 'N'][3] != seq!['U', 'S', '_', 'N', 'C', '_', 'R', 'E', 'S', 'E', 'L', 'L', 'E', 'R', '_', 'E', 'X', 'E', 'M', 'P', 'T', 'I', 'O', 'N'][3]);
            assert(seq!['U', 'S', '_', 'O', 'H', '_', 'R', 'E', 'S', 'E', 'L', 'L', 'E', 'R', '_', 'E', 'X', 'E', 'M', 'P', 'T', 'I', 'O', 'N'][3] != seq!['U', 'S', '_', 'N', 'D', '_', 'R', 'E', 'S', 'E', 'L', 'L', 'E', 'R', '_', 'E', 'X', 'E', 'M', 'P', 'T', 'I', 'O', 'N'][3]);
            assert(seq!['U', 'S', '_', 'O', 'H', '_', 'R', 'E', 'S', 'E', 'L', 'L', 'E', 'R', '_', 'E', 'X', 'E', 'M', 'P', 'T', 'I', 'O', 'N'][3] != seq!['U', 'S', '_', 'N', 'E', '_', 'R', 'E', 'S', 'E', 'L', 'L', 'E', 'R', '_', 'E', 'X', 'E', 'M', 'P', 'T', 'I', 'O', 'N'][3]);
            assert(seq!['U', 'S', '_', 'O', 'H', '_', 'R', 'E', 'S', 'E', 'L', 'L', 'E', 'R', '_', 'E', 'X', 'E', 'M', 'P', 'T', 'I', 'O', 'N'][3] != seq!['U', 'S', '_', 'N', 'H', '_', 'R', 'E', 'S', 'E', 'L', 'L', 'E', 'R', '_', 'E', 'X', 'E', 'M', 'P', 'T', 'I', 'O', 'N'][3]);
            assert(seq!['U', 'S', '_', 'O', 'H', '_', 'R', 'E', 'S', 'E', 'L', 'L', 'E', 'R', '_', 'E', 'X', 'E', 'M', 'P', 'T', 'I', 'O', 'N'][3] != seq!['U', 'S', '_', 'N', 'J', '_', 'R', 'E', 'S', 'E', 'L', 'L', 'E', 'R', '_', 'E', 'X', 'E', 'M', 'P', 'T', 'I', 'O', 'N'][3]);
            assert(seq!['U', 'S', '_', 'O', 'H', '_', 'R', 'E', 'S', 'E', 'L', 'L', 'E', 'R', '_', 'E', 'X', 'E', 'M', 'P', 'T', 'I', 'O', 'N'][3] != seq!['U', 'S', '_', 'N', 'M', '_', 'R', 'E', 'S', 'E', 'L', 'L', 'E', 'R', '_', 'E', 'X', 'E', 'M', 'P', 'T', 'I', 'O', 'N'][3]);
            assert(seq!['U', 'S', '_', 'O', 'H', '_', 'R', 'E', 'S', 'E', 'L', 'L', 'E', 'R', '_', 'E', 'X', 'E', 'M', 'P', 'T', 'I', 'O', 'N'][3] != seq!['U', 'S', '_', 'N', 'V', '_', 'R', 'E', 'S', 'E', 'L', 'L', 'E', 'R', '_', 'E', 'X', 'E', 'M', 'P', 'T', 'I', 'O', 'N'][3]);
            assert(seq!['U', 'S', '_', 'O', 'H', '_', 'R', 'E', 'S', 'E', 'L', 'L', 'E', 'R', '_', 'E', 'X', 'E', 'M', 'P', 'T', 'I', 'O', 'N'][3] != seq!['U', 'S', '_', 'N', 'Y', '_', 'R', 'E', 'S', 'E', 'L', 'L', 'E', 'R', '_', 'E', 'X', 'E', 'M', 'P', 'T', 'I', 'O', 'N'][3]);
        },
        TaxExemption::US_OK_RESELLER_EXEMPTION => {
            assert(seq!['U', 'S', '_', 'O', 'K', '_', 'R', 'E', 'S', 'E', 'L', 'L', 'E', 'R', '_', 'E', 'X', 'E', 'M', 'P', 'T', 'I', 'O', 'N'][0] != seq!['C', 'A', '_', 'B', 'C', '_', 'R', 'E', 'S', 'E', 'L', 'L', 'E', 'R', '_', 'E', 'X', 'E', 'M', 'P', 'T', 'I', 'O', 'N'][0]);
            assert(seq!['U', 'S', '_', 'O', 'K', '_', 'R', 'E', 'S', 'E', 'L', 'L', 'E', 'R', '_', 'E', 'X', 'E', 'M', 'P', 'T', 'I', 'O', 'N'][0] != seq!['C', 'A', '_', 'M', 'B', '_', 'R', 'E', 'S', 'E', 'L', 'L', 'E', 'R', '_', 'E', 'X', 'E', 'M', 'P', 'T', 'I', 'O', 'N'][0]);
            assert(seq!['U', 'S', '_', 'O', 'K', '_', 'R', 'E', 'S', 'E', 'L', 'L', 'E', 'R', '_', 'E', 'X', 'E', 'M', 'P', 'T', 'I', 'O', 'N'][0] != seq!['C', 'A', '_', 'O', 'N', '_', 'P', 'U', 'R', 'C', 'H', 'A', 'S', 'E', '_', 'E', 'X', 'E', 'M', 'P', 'T', 'I', 'O', 'N'][0]);
            assert(seq!['U', 'S', '_', 'O', 'K', '_', 'R', 'E', 'S', 'E', 'L', 'L', 'E', 'R', '_', 'E', 'X', 'E', 'M', 'P', 'T', 'I', 'O', 'N'][0] != seq!['C', 'A', '_', 'S', 'K', '_', 'R', 'E', 'S', 'E', 'L', 'L', 'E', 'R', '_', 'E', 'X', 'E', 'M', 'P', 'T', 'I', 'O', 'N'][0]);
            assert(seq!['U', 'S', '_', 'O', 'K', '_', 'R', 'E', 'S', 'E', 'L', 'L', 'E', 'R', '_', 'E', 'X', 'E', 'M', 'P', 'T', 'I', 'O', 'N'][0] != seq!['C', 'A', '_', 'S', 'T', 'A', 'T', 'U', 'S', '_', 'C', 'A', 'R', 'D', '_', 'E', 'X', 'E', 'M', 'P', 'T', 'I', 'O', 'N'][0]);
            assert(seq!['U', 'S', '_', 'O', 'K', '_', 'R', 'E', 'S', 'E', 'L', 'L', 'E', 'R', '_', 'E', 'X', 'E', 'M', 'P', 'T', 'I', 'O', 'N'][3] != seq!['U', 'S', '_', 'A', 'K', '_', 'R', 'E', 'S', 'E', 'L', 'L', 'E', 'R', '_', 'E', 'X', 'E', 'M', 'P', 'T', 'I', 'O', 'N'][3]);
            assert(seq!['U', 'S', '_', 'O', 'K', '_', 'R', 'E', 'S', 'E', 'L', 'L', 'E', 'R', '_', 'E', 'X', 'E', 'M', 'P', 'T', 'I', 'O', 'N'][3] != seq!['U', 'S', '_', 'A', 'L', '_', 'R', 'E', 'S', 'E', 'L', 'L', 'E', 'R', '_', 'E', 'X', 'E', 'M', 'P', 'T', 'I', 'O', 'N'][3]);
            assert(seq!['U', 'S', '_', 'O', 'K', '_', 'R', 'E', 'S', 'E', 'L', 'L', 'E', 'R', '_', 'E', 'X', 'E', 'M', 'P', 'T', 'I', 'O', 'N'][3] != seq!['U', 'S', '_', 'A', 'R', '_', 'R', 'E', 'S', 'E', 'L', 'L', 'E', 'R', '_', 'E', 'X', 'E', 'M', 'P', 'T', 'I', 'O', 'N'][3]);
            assert(seq!['U', 'S', '_', 'O', 'K', '_', 'R', 'E', 'S', 'E', 'L', 'L', 'E', 'R', '_', 'E', 'X', 'E', 'M', 'P', 'T', 'I', 'O', 'N'][3] != seq!['U', 'S', '_', 'A', 'Z', '_', 'R', 'E', 'S', 'E', 'L', 'L', 'E', 'R', '_', 'E', 'X', 'E', 'M', 'P', 'T', 'I', 'O', 'N'][3]);
            assert(seq!['U', 'S', '_', 'O', 'K', '_', 'R', 'E', 'S', 'E', 'L', 'L', 'E', 'R', '_', 'E', 'X', 'E', 'M', 'P', 'T', 'I', 'O', 'N'][3] != seq!['U', 'S', '_', 'C', 'A', '_', 'R', 'E', 'S', 'E', 'L', 'L', 'E', 'R', '_', 'E', 'X', 'E', 'M', 'P', 'T', 'I', 'O', 'N'][3]);
            assert(seq!['U', 'S', '_', 'O', 'K', '_', 'R', 'E', 'S', 'E', 'L', 'L', 'E', 'R', '_', 'E', 'X', 'E', 'M', 'P', 'T', 'I', 'O', 'N'][3] != seq!['U', 'S', '_', 'C', 'O', '_', 'R', 'E', 'S', 'E', 'L', 'L', 'E', 'R', '_', 'E', 'X', 'E', 'M', 'P', 'T', 'I', 'O', 'N'][3]);
            assert(seq!['U', 'S', '_', 'O', 'K', '_', 'R', 'E', 'S', 'E', 'L', 'L', 'E', 'R', '_', 'E', 'X', 'E', 'M', 'P', 'T', 'I', 'O', 'N'][3] != seq!['U', 'S', '_', 'C', 'T', '_', 'R', 'E', 'S', 'E', 'L', 'L', 'E', 'R', '_', 'E', 'X', 'E', 'M', 'P', 'T', 'I', 'O', 'N'][3]);
            assert(seq!['U', 'S', '_', 'O', 'K', '_', 'R', 'E', 'S', 'E', 'L', 'L', 'E', 'R', '_', 'E', 'X', 'E', 'M', 'P', 'T', 'I', 'O', 'N'][3] != seq!['U', 'S', '_', 'D', 'C', '_', 'R', 'E', 'S', 'E', 'L', 'L', 'E', 'R', '_', 'E', 'X', 'E', 'M', 'P', 'T', 'I', 'O', 'N'][3]);
            assert(seq!['U', 'S', '_', 'O', 'K', '_', 'R', 'E', 'S', 'E', 'L', 'L', 'E', 'R', '_', 'E', 'X', 'E', 'M', 'P', 'T', 'I', 'O', 'N'][3] != seq!['U', 'S', '_', 'D', 'E', '_', 'R', 'E', 'S', 'E', 'L', 'L', 'E', 'R', '_', 'E', 'X', 'E', 'M', 'P', 'T', 'I', 'O', 'N'][3]);
            assert(seq!['U', 'S', '_', 'O', 'K', '_', 'R', 'E', 'S', 'E', 'L', 'L', 'E', 'R', '_', 'E', 'X', 'E', 'M', 'P', 'T', 'I', 'O', 'N'][3] != seq!['U', 'S', '_', 'F', 'L', '_', 'R', 'E', 'S', 'E', 'L', 'L', 'E', 'R', '_', 'E', 'X', 'E', 'M', 'P', 'T', 'I', 'O', 'N'][3]);
            assert(seq!['U', 'S', '_', 'O', 'K', '_', 'R', 'E', 'S', 'E', 'L', 'L', 'E', 'R', '_', 'E', 'X', 'E', 'M', 'P', 'T', 'I', 'O', 'N'][3] != seq!['U', 'S', '_', 'G', 'A', '_', 'R', 'E', 'S', 'E', 'L', 'L', 'E', 'R', '_', 'E', 'X', 'E', 'M', 'P', 'T', 'I', 'O', 'N'][3]);
            assert(seq!['U', 'S', '_', 'O', 'K', '_', 'R', 'E', 'S', 'E', 'L', 'L', 'E', 'R', '_', 'E', 'X', 'E', 'M', 'P', 'T', 'I', 'O', 'N'][3] != seq!['U', 'S', '_', 'H', 'I', '_', 'R', 'E', 'S', 'E', 'L', 'L', 'E', 'R', '_', 'E', 'X', 'E', 'M', 'P', 'T', 'I', 'O', 'N'][3]);
            assert(seq!['U', 'S', '_', 'O', 'K', '_', 'R', 'E', 'S', 'E', 'L', 'L', 'E', 'R', '_', 'E', 'X', 'E', 'M', 'P', 'T', 'I', 'O', 'N'][3] != seq!['U', 'S', '_', 'I', 'A', '_', 'R', 'E', 'S', 'E', 'L', 'L', 'E', 'R', '_', 'E', 'X', 'E', 'M', 'P', 'T', 'I', 'O', 'N'][3]);
            assert(seq!['U', 'S', '_', 'O', 'K', '_', 'R', 'E', 'S', 'E', 'L', 'L', 'E', 'R', '_', 'E', 'X', 'E', 'M', 'P', 'T', 'I', 'O', 'N'][3] != seq!['U', 'S', '_', 'I', 'D', '_', 'R', 'E', 'S', 'E', 'L', 'L', 'E', 'R', '_', 'E', 'X', 'E', 'M', 'P', 'T', 'I', 'O', 'N'][3]);
            assert(seq!['U', 'S', '_', 'O', 'K', '_', 'R', 'E', 'S', 'E', 'L', 'L', 'E', 'R', '_', 'E', 'X', 'E', 'M', 'P', 'T', 'I', 'O', 'N'][3] != seq!['U', 'S', '_', 'I', 'L', '_', 'R', 'E', 'S', 'E', 'L', 'L', 'E', 'R', '_', 'E', 'X', 'E', 'M', 'P', 'T', 'I', 'O', 'N'][3]);
            assert(seq!['U', 'S', '_', 'O', 'K', '_', 'R', 'E', 'S', 'E', 'L', 'L', 'E', 'R', '_', 'E', 'X', 'E', 'M', 'P', 'T', 'I', 'O', 'N'][3] != seq!['U', 'S', '_', 'I', 'N', '_', 'R', 'E', 'S', 'E', 'L', 'L', 'E', 'R', '_', 'E', 'X', 'E', 'M', 'P', 'T', 'I', 'O', 'N'][3]);
            assert(seq!['U', 'S', '_', 'O', 'K', '_', 'R', 'E', 'S', 'E', 'L', 'L', 'E', 'R', '_', 'E', 'X', 'E', 'M', 'P', 'T', 'I', 'O', 'N'][3] != seq!['U', 'S', '_', 'K', 'S', '_', 'R', 'E', 'S', 'E', 'L', 'L', 'E', 'R', '_', 'E', 'X', 'E', 'M', 'P', 'T', 'I', 'O', 'N'][3]);
            assert(seq!['U', 'S', '_', 'O', 'K', '_', 'R', 'E', 'S', 'E', 'L', 'L', 'E', 'R', '_', 'E', 'X', 'E', 'M', 'P', 'T', 'I', 'O', 'N'][3] != seq!['U', 'S', '_', 'K', 'Y', '_', 'R', 'E', 'S', 'E', 'L', 'L', 'E', 'R', '_', 'E', 'X', 'E', 'M', 'P', 'T', 'I', 'O', 'N'][3]);
            assert(seq!['U', 'S', '_', 'O', 'K', '_', 'R', 'E', 'S', 'E', 'L', 'L', 'E', 'R', '_', 'E', 'X', 'E', 'M', 'P', 'T', 'I', 'O', 'N'][3] != seq!['U', 'S', '_', 'L', 'A', '_', 'R', 'E', 'S', 'E', 'L', 'L', 'E', 'R', '_', 'E', 'X', 'E', 'M', 'P', 'T', 'I', 'O', 'N'][3]);
            assert(seq!['U', 'S', '_', 'O', 'K', '_', 'R', 'E', 'S', 'E', 'L', 'L', 'E', 'R', '_', 'E', 'X', 'E', 'M', 'P', 'T', 'I', 'O', 'N'][3] != seq!['U', 'S', '_', 'M', 'A', '_', 'R', 'E', 'S', 'E', 'L', 'L', 'E', 'R', '_', 'E', 'X', 'E', 'M', 'P', 'T', 'I', 'O', 'N'][3]);
            assert(seq!['U', 'S', '_', 'O', 'K', '_', 'R', 'E', 'S', 'E', 'L', 'L', 'E', 'R', '_', 'E', 'X', 'E', 'M', 'P', 'T', 'I', 'O', 'N'][3] != seq!['U', 'S', '_', 'M', 'D', '_', 'R', 'E', 'S', 'E', 'L', 'L', 'E', 'R', '_', 'E', 'X', 'E', 'M', 'P', 'T', 'I', 'O', 'N'][3]);
            assert(seq!['U', 'S', '_', 'O', 'K', '_', 'R', 'E', 'S', 'E', 'L', 'L', 'E', 'R', '_', 'E', 'X', 'E', 'M', 'P', 'T', 'I', 'O', 'N'][3] != seq!['U', 'S', '_', 'M', 'E', '_', 'R', 'E', 'S', 'E', 'L', 'L', 'E', 'R', '_', 'E', 'X', 'E', 'M', 'P', 'T', 'I', 'O', 'N'][3]);
            assert(seq!['U', 'S', '_', 'O', 'K', '_', 'R', 'E', 'S', 'E', 'L', 'L', 'E', 'R', '_', 'E', 'X', 'E', 'M', 'P', 'T', 'I', 'O', 'N'][3] != seq!['U', 'S', '_', 'M', 'I', '_', 'R', 'E', 'S', 'E', 'L', 'L', 'E', 'R', '_', 'E', 'X', 'E', 'M', 'P', 'T', 'I', 'O', 'N'][3]);
            assert(seq!['U', 'S', '_', 'O', 'K', '_', 'R', 'E', 'S', 'E', 'L', 'L', 'E', 'R', '_', 'E', 'X', 'E', 'M', 'P', 'T', 'I', 'O', 'N'][3] != seq!['U', 'S', '_', 'M', 'N', '_', 'R', 'E', 'S', 'E', 'L', 'L', 'E', 'R', '_', 'E', 'X', 'E', 'M', 'P', 'T', 'I', 'O', 'N'][3]);
            assert(seq!['U', 'S', '_', 'O', 'K', '_', 'R', 'E', 'S', 'E', 'L', 'L', 'E', 'R', '_', 'E', 'X', 'E', 'M', 'P', 'T', 'I', 'O', 'N'][3] != seq!['U', 'S', '_', 'M', 'O', '_', 'R', 'E', 'S', 'E', 'L', 'L', 'E', 'R', '_', 'E', 'X', 'E', 'M', 'P', 'T', 'I', 'O', 'N'][3]);
            assert(seq!['U', 'S', '_', 'O', 'K', '_', 'R', 'E', 'S', 'E', 'L', 'L', 'E', 'R', '_', 'E', 'X', 'E', 'M', 'P', 'T', 'I', 'O', 'N'][3] != seq!['U', 'S', '_', 'M', 'S', '_', 'R', 'E', 'S', 'E', 'L', 'L', 'E', 'R', '_', 'E', 'X', 'E', 'M', 'P', 'T', 'I', 'O', 'N'][3]);
            assert(seq!['U', 'S', '_', 'O', 'K', '_', 'R', 'E', 'S', 'E', 'L', 'L', 'E', 'R', '_', 'E', 'X', 'E', 'M', 'P', 'T', 'I', 'O', 'N'][3] != seq!['U', 'S', '_', 'M', 'T', '_', 'R', 'E', 'S', 'E', 'L', 'L', 'E', 'R', '_', 'E', 'X', 'E', 'M', 'P', 'T', 'I', 'O', 'N'][3]);
            assert(seq!['U', 'S', '_', 'O', 'K', '_', 'R', 'E', 'S', 'E', 'L', 'L', 'E', 'R', '_', 'E', 'X', 'E', 'M', 'P', 'T', 'I', 'O', 'N'][3] != seq!['U', 'S', '_', 'N', 'C', '_', 'R', 'E', 'S', 'E', 'L', 'L', 'E', 'R', '_', 'E', 'X', 'E', 'M', 'P', 'T', 'I', 'O', 'N'][3]);
            assert(seq!['U', 'S', '_', 'O', 'K', '_', 'R', 'E', 'S', 'E', 'L', 'L', 'E', 'R', '_', 'E', 'X', 'E', 'M', 'P', 'T', 'I', 'O', 'N'][3] != seq!['U', 'S', '_', 'N', 'D', '_', 'R', 'E', 'S', 'E', 'L', 'L', 'E', 'R', '_', 'E', 'X', 'E', 'M', 'P', 'T', 'I', 'O', 'N'][3]);
            assert(seq!['U', 'S', '_', 'O', 'K', '_', 'R', 'E', 'S', 'E', 'L', 'L', 'E', 'R', '_', 'E', 'X', 'E', 'M', 'P', 'T', 'I', 'O', 'N'][3] != seq!['U', 'S', '_', 'N', 'E', '_', 'R', 'E', 'S', 'E', 'L', 'L', 'E', 'R', '_', 'E', 'X', 'E', 'M', 'P', 'T', 'I', 'O', 'N'][3]);
            assert(seq!['U', 'S', '_', 'O', 'K', '_', 'R', 'E', 'S', 'E', 'L', 'L', 'E', 'R', '_', 'E', 'X', 'E', 'M', 'P', 'T', 'I', 'O', 'N'][3] != seq!['U', 'S', '_', 'N', 'H', '_', 'R', 'E', 'S', 'E', 'L', 'L', 'E', 'R', '_', 'E', 'X', 'E', 'M', 'P', 'T', 'I', 'O', 'N'][3]);
            assert(seq!['U', 'S', '_', 'O', 'K', '_', 'R', 'E', 'S', 'E', 'L', 'L', 'E', 'R', '_', 'E', 'X', 'E', 'M', 'P', 'T', 'I', 'O', 'N'][3] != seq!['U', 'S', '_', 'N', 'J', '_', 'R', 'E', 'S', 'E', 'L', 'L', 'E', 'R', '_', 'E', 'X', 'E', 'M', 'P', 'T', 'I', 'O', 'N'][3]);
            assert(seq!['U', 'S', '_', 'O', 'K', '_', 'R', 'E', 'S', 'E', 'L', 'L', 'E', 'R', '_', 'E', 'X', 'E', 'M', 'P', 'T', 'I', 'O', 'N'][3] != seq!['U', 'S', '_', 'N', 'M', '_', 'R', 'E', 'S', 'E', 'L', 'L', 'E', 'R', '_', 'E', 'X', 'E', 'M', 'P', 'T', 'I', 'O', 'N'][3]);
            assert(seq!['U', 'S', '_', 'O', 'K', '_', 'R', 'E', 'S', 'E', 'L', 'L', 'E', 'R', '_', 'E', 'X', 'E', 'M', 'P', 'T', 'I', 'O', 'N'][3] != seq!['U', 'S', '_', 'N', 'V', '_', 'R', 'E', 'S', 'E', 'L', 'L', 'E', 'R', '_', 'E', 'X', 'E', 'M', 'P', 'T', 'I', 'O', 'N'][3]);
            assert(seq!['U', 'S', '_', 'O', 'K', '_', 'R', 'E', 'S', 'E', 'L', 'L', 'E', 'R', '_', 'E', 'X', 'E', 'M', 'P', 'T', 'I', 'O', 'N'][3] != seq!['U', 'S', '_', 'N', 'Y', '_', 'R', 'E', 'S', 'E', 'L', 'L', 'E', 'R', '_', 'E', 'X', 'E', 'M', 'P', 'T', 'I', 'O', 'N'][3]);
            assert(seq!['U', 'S', '_', 'O', 'K', '_', 'R', 'E', 'S', 'E', 'L', 'L', 'E', 'R', '_', 'E', 'X', 'E', 'M', 'P', 'T', 'I', 'O', 'N'][4] != seq!['U', 'S', '_', 'O', 'H', '_', 'R', 'E', 'S', 'E', 'L', 'L', 'E', 'R', '_', 'E', 'X', 'E', 'M', 'P', 'T', 'I', 'O', 'N'][4]);
        },
        TaxExemption::US_OR_RESELLER_EXEMPTION => {
            assert(seq!['U', 'S', '_', 'O', 'R', '_', 'R', 'E', 'S', 'E', 'L', 'L', 'E', 'R', '_', 'E', 'X', 'E', 'M', 'P', 'T', 'I', 'O', 'N'][0] != seq!['C', 'A', '_', 'B', 'C', '_', 'R', 'E', 'S', 'E', 'L', 'L', 'E', 'R', '_', 'E', 'X', 'E', 'M', 'P', 'T', 'I', 'O', 'N'][0]);
            assert(seq!['U', 'S', '_', 'O', 'R', '_', 'R', 'E', 'S', 'E', 'L', 'L', 'E', 'R', '_', 'E', 'X', 'E', 'M', 'P', 'T', 'I', 'O', 'N'][0] != seq!['C', 'A', '_', 'M', 'B', '_', 'R', 'E', 'S', 'E', 'L', 'L', 'E', 'R', '_', 'E', 'X', 'E', 'M', 'P', 'T', 'I', 'O', 'N'][0]);
            assert(seq!['U', 'S', '_', 'O', 'R', '_', 'R', 'E', 'S', 'E', 'L', 'L', 'E', 'R', '_', 'E', 'X', 'E', 'M', 'P', 'T', 'I', 'O', 'N'][0] != seq!['C', 'A', '_', 'O', 'N', '_', 'P', 'U', 'R', 'C', 'H', 'A', 'S', 'E', '_', 'E', 'X', 'E', 'M', 'P', 'T', 'I', 'O', 'N'][0]);
            assert(seq!['U', 'S', '_', 'O', 'R', '_', 'R', 'E', 'S', 'E', 'L', 'L', 'E', 'R', '_', 'E', 'X', 'E', 'M', 'P', 'T', 'I', 'O', 'N'][0] != seq!['C', 'A', '_', 'S', 'K', '_', 'R', 'E', 'S', 'E', 'L', 'L', 'E', 'R', '_', 'E', 'X', 'E', 'M', 'P', 'T', 'I', 'O', 'N'][0]);
            assert(seq!['U', 'S', '_', 'O', 'R', '_', 'R', 'E', 'S', 'E', 'L', 'L', 'E', 'R', '_', 'E', 'X', 'E', 'M', 'P', 'T', 'I', 'O', 'N'][0] != seq!['C', 'A', '_', 'S', 'T', 'A', 'T', 'U', 'S', '_', 'C', 'A', 'R', 'D', '_', 'E', 'X', 'E', 'M', 'P', 'T', 'I', 'O', 'N'][0]);
            assert(seq!['U', 'S', '_', 'O', 'R', '_', 'R', 'E', 'S', 'E', 'L', 'L', 'E', 'R', '_', 'E', 'X', 'E', 'M', 'P', 'T', 'I', 'O', 'N'][3] != seq!['U', 'S', '_', 'A', 'K', '_', 'R', 'E', 'S', 'E', 'L', 'L', 'E', 'R', '_', 'E', 'X', 'E', 'M', 'P', 'T', 'I', 'O', 'N'][3]);
            assert(seq!['U', 'S', '_', 'O', 'R', '_', 'R', 'E', 'S', 'E', 'L', 'L', 'E', 'R', '_', 'E', 'X', 'E', 'M', 'P', 'T', 'I', 'O', 'N'][3] != seq!['U', 'S', '_', 'A', 'L', '_', 'R', 'E', 'S', 'E', 'L', 'L', 'E', 'R', '_', 'E', 'X', 'E', 'M', 'P', 'T', 'I', 'O', 'N'][3]);
            assert(seq!['U', 'S', '_', 'O', 'R', '_', 'R', 'E', 'S', 'E', 'L', 'L', 'E', 'R', '_', 'E', 'X', 'E', 'M', 'P', 'T', 'I', 'O', 'N'][3] != seq!['U', 'S', '_', 'A', 'R', '_', 'R', 'E', 'S', 'E', 'L', 'L', 'E', 'R', '_', 'E', 'X', 'E', 'M', 'P', 'T', 'I', 'O', 'N'][3]);
            assert(seq!['U', 'S', '_', 'O', 'R', '_', 'R', 'E', 'S', 'E', 'L', 'L', 'E', 'R', '_', 'E', 'X', 'E', 'M', 'P', 'T', 'I', 'O', 'N'][3] != seq!['U', 'S', '_', 'A', 'Z', '_', 'R', 'E', 'S', 'E', 'L', 'L', 'E', 'R', '_', 'E', 'X', 'E', 'M', 'P', 'T', 'I', 'O', 'N'][3]);
            assert(seq!['U', 'S', '_', 'O', 'R', '_', 'R', 'E', 'S', 'E', 'L', 'L', 'E', 'R', '_', 'E', 'X', 'E', 'M', 'P', 'T', 'I', 'O', 'N'][3] != seq!['U', 'S', '_', 'C', 'A', '_', 'R', 'E', 'S', 'E', 'L', 'L', 'E', 'R', '_', 'E', 'X', 'E', 'M', 'P', 'T', 'I', 'O', 'N'][3]);
            assert(seq!['U', 'S', '_', 'O', 'R', '_', 'R', 'E', 'S', 'E', 'L', 'L', 'E', 'R', '_', 'E', 'X', 'E', 'M', 'P', 'T', 'I', 'O', 'N'][3] != seq!['U', 'S', '_', 'C', 'O', '_', 'R', 'E', 'S', 'E', 'L', 'L', 'E', 'R', '_', 'E', 'X', 'E', 'M', 'P', 'T', 'I', 'O', 'N'][3]);
            assert(seq!['U', 'S', '_', 'O', 'R', '_', 'R', 'E', 'S', 'E', 'L', 'L', 'E', 'R', '_', 'E', 'X', 'E', 'M', 'P', 'T', 'I', 'O', 'N'][3] != seq!['U', 'S', '_', 'C', 'T', '_', 'R', 'E', 'S', 'E', 'L', 'L', 'E', 'R', '_', 'E', 'X', 'E', 'M', 'P', 'T', 'I', 'O', 'N'][3]);
            assert(seq!['U', 'S', '_', 'O', 'R', '_', 'R', 'E', 'S', 'E', 'L', 'L', 'E', 'R', '_', 'E', 'X', 'E', 'M', 'P', 'T', 'I', 'O', 'N'][3] != seq!['U', 'S', '_', 'D', 'C', '_', 'R', 'E', 'S', 'E', 'L', 'L', 'E', 'R', '_', 'E', 'X', 'E', 'M', 'P', 'T', 'I', 'O', 'N'][3]);
            assert(seq!['U', 'S', '_', 'O', 'R', '_', 'R', 'E', 'S', 'E', 'L', 'L', 'E', 'R', '_', 'E', 'X', 'E', 'M', 'P', 'T', 'I', 'O', 'N'][3] != seq!['U', 'S', '_', 'D', 'E', '_', 'R', 'E', 'S', 'E', 'L', 'L', 'E', 'R', '_', 'E', 'X', 'E', 'M', 'P', 'T', 'I', 'O', 'N'][3]);
            assert(seq!['U', 'S', '_', 'O', 'R', '_', 'R', 'E', 'S', 'E', 'L', 'L', 'E', 'R', '_', 'E', 'X', 'E', 'M', 'P', 'T', 'I', 'O', 'N'][3] != seq!['U', 'S', '_', 'F', 'L', '_', 'R', 'E', 'S', 'E', 'L', 'L', 'E', 'R', '_', 'E', 'X', 'E', 'M', 'P', 'T', 'I', 'O', 'N'][3]);
            assert(seq!['U', 'S', '_', 'O', 'R', '_', 'R', 'E', 'S', 'E', 'L', 'L', 'E', 'R', '_', 'E', 'X', 'E', 'M', 'P', 'T', 'I', 'O', 'N'][3] != seq!['U', 'S', '_', 'G', 'A', '_', 'R', 'E', 'S', 'E', 'L', 'L', 'E', 'R', '_', 'E', 'X', 'E', 'M', 'P', 'T', 'I', 'O', 'N'][3]);
            assert(seq!['U', 'S', '_', 'O', 'R', '_', 'R', 'E', 'S', 'E', 'L', 'L', 'E', 'R', '_', 'E', 'X', 'E', 'M', 'P', 'T', 'I', 'O', 'N'][3] != seq!['U', 'S', '_', 'H', 'I', '_', 'R', 'E', 'S', 'E', 'L', 'L', 'E', 'R', '_', 'E', 'X', 'E', 'M', 'P', 'T', 'I', 'O', 'N'][3]);
            assert(seq!['U', 'S', '_', 'O', 'R', '_', 'R', 'E', 'S', 'E', 'L', 'L', 'E', 'R', '_', 'E', 'X', 'E', 'M', 'P', 'T', 'I', 'O', 'N'][3] != seq!['U', 'S', '_', 'I', 'A', '_', 'R', 'E', 'S', 'E', 'L', 'L', 'E', 'R', '_', 'E', 'X', 'E', 'M', 'P', 'T', 'I', 'O', 'N'][3]);
            assert(seq!['U', 'S', '_', 'O', 'R', '_', 'R', 'E', 'S', 'E', 'L', 'L', 'E', 'R', '_', 'E', 'X', 'E', 'M', 'P', 'T', 'I', 'O', 'N'][3] != seq!['U', 'S', '_', 'I', 'D', '_', 'R', 'E', 'S', 'E', 'L', 'L', 'E', 'R', '_', 'E', 'X', 'E', 'M', 'P', 'T', 'I', 'O', 'N'][3]);
            assert(seq!['U', 'S', '_', 'O', 'R', '_', 'R', 'E', 'S', 'E', 'L', 'L', 'E', 'R', '_', 'E', 'X', 'E', 'M', 'P', 'T', 'I', 'O', 'N'][3] != seq!['U', 'S', '_', 'I', 'L', '_', 'R', 'E', 'S', 'E', 'L', 'L', 'E', 'R', '_', 'E', 'X', 'E', 'M', 'P', 'T', 'I', 'O', 'N'][3]);
            assert(seq!['U', 'S', '_', 'O', 'R', '_', 'R', 'E', 'S', 'E', 'L', 'L', 'E', 'R', '_', 'E', 'X', 'E', 'M', 'P', 'T', 'I', 'O', 'N'][3] != seq!['U', 'S', '_', 'I', 'N', '_', 'R', 'E', 'S', 'E', 'L', 'L', 'E', 'R', '_', 'E', 'X', 'E', 'M', 'P', 'T', 'I', 'O', 'N'][3]);
            assert(seq!['U', 'S', '_', 'O', 'R', '_', 'R', 'E', 'S', 'E', 'L', 'L', 'E', 'R', '_', 'E', 'X', 'E', 'M', 'P', 'T', 'I', 'O', 'N'][3] != seq!['U', 'S', '_', 'K', 'S', '_', 'R', 'E', 'S', 'E', 'L', 'L', 'E', 'R', '_', 'E', 'X', 'E', 'M', 'P', 'T', 'I', 'O', 'N'][3]);
            assert(seq!['U', 'S', '_', 'O', 'R', '_', 'R', 'E', 'S', 'E', 'L', 'L', 'E', 'R', '_', 'E', 'X', 'E', 'M', 'P', 'T', 'I', 'O', 'N'][3] != seq!['U', 'S', '_', 'K', 'Y', '_', 'R', 'E', 'S', 'E', 'L', 'L', 'E', 'R', '_', 'E', 'X', 'E', 'M', 'P', 'T', 'I', 'O', 'N'][3]);
            assert(seq!['U', 'S', '_', 'O', 'R', '_', 'R', 'E', 'S', 'E', 'L', 'L', 'E', 'R', '_', 'E', 'X', 'E', 'M', 'P', 'T', 'I', 'O', 'N'][3] != seq!['U', 'S', '_', 'L', 'A', '_', 'R', 'E', 'S', 'E', 'L', 'L', 'E', 'R', '_', 'E', 'X', 'E', 'M', 'P', 'T', 'I', 'O', 'N'][3]);
            assert(seq!['U', 'S', '_', 'O', 'R', '_', 'R', 'E', 'S', 'E', 'L', 'L', 'E', 'R', '_', 'E', 'X', 'E', 'M', 'P', 'T', 'I', 'O', 'N'][3] != seq!['U', 'S', '_', 'M', 'A', '_', 'R', 'E', 'S', 'E', 'L', 'L', 'E', 'R', '_', 'E', 'X', 'E', 'M', 'P', 'T', 'I', 'O', 'N'][3]);
            assert(seq!['U', 'S', '_', 'O', 'R', '_', 'R', 'E', 'S', 'E', 'L', 'L', 'E', 'R', '_', 'E', 'X', 'E', 'M', 'P', 'T', 'I', 'O', 'N'][3] != seq!['U', 'S', '_', 'M', 'D', '_', 'R', 'E', 'S', 'E', 'L', 'L', 'E', 'R', '_', 'E', 'X', 'E', 'M', 'P', 'T', 'I', 'O', 'N'][3]);
            assert(seq!['U', 'S', '_', 'O', 'R', '_', 'R', 'E', 'S', 'E', 'L', 'L', 'E', 'R', '_', 'E', 'X', 'E', 'M', 'P', 'T', 'I', 'O', 'N'][3] != seq!['U', 'S', '_', 'M', 'E', '_', 'R', 'E', 'S', 'E', 'L', 'L', 'E', 'R', '_', 'E', 'X', 'E', 'M', 'P', 'T', 'I', 'O', 'N'][3]);
            assert(seq!['U', 'S', '_', 'O', 'R', '_', 'R', 'E', 'S', 'E', 'L', 'L', 'E', 'R', '_', 'E', 'X', 'E', 'M', 'P', 'T', 'I', 'O', 'N'][3] != seq!['U', 'S', '_', 'M', 'I', '_', 'R', 'E', 'S', 'E', 'L', 'L', 'E', 'R', '_', 'E', 'X', 'E', 'M', 'P', 'T', 'I', 'O', 'N'][3]);
            assert(seq!['U', 'S', '_', 'O', 'R', '_', 'R', 'E', 'S', 'E', 'L', 'L', 'E', 'R', '_', 'E', 'X', 'E', 'M', 'P', 'T', 'I', 'O', 'N'][3] != seq!['U', 'S', '_', 'M', 'N', '_', 'R', 'E', 'S', 'E', 'L', 'L', 'E', 'R', '_', 'E', 'X', 'E', 'M', 'P', 'T', 'I', 'O', 'N'][3]);
            assert(seq!['U', 'S', '_', 'O', 'R', '_', 'R', 'E', 'S', 'E', 'L', 'L', 'E', 'R', '_', 'E', 'X', 'E', 'M', 'P', 'T', 'I', 'O', 'N'][3] != seq!['U', 'S', '_', 'M', 'O', '_', 'R', 'E', 'S', 'E', 'L', 'L', 'E', 'R', '_', 'E', 'X', 'E', 'M', 'P', 'T', 'I', 'O', 'N'][3]);
            assert(seq!['U', 'S', '_', 'O', 'R', '_', 'R', 'E', 'S', 'E', 'L', 'L', 'E', 'R', '_', 'E', 'X', 'E', 'M', 'P', 'T', 'I', 'O', 'N'][3] != seq!['U', 'S', '_', 'M', 'S', '_', 'R', 'E', 'S', 'E', 'L', 'L', 'E', 'R', '_', 'E', 'X', 'E', 'M', 'P', 'T', 'I', 'O', 'N'][3]);
            assert(seq!['U', 'S', '_', 'O', 'R', '_', 'R', 'E', 'S', 'E', 'L', 'L', 'E', 'R', '_', 'E', 'X', 'E', 'M', 'P', 'T', 'I', 'O', 'N'][3] != seq!['U', 'S', '_', 'M', 'T', '_', 'R', 'E', 'S', 'E', 'L', 'L', 'E', 'R', '_', 'E', 'X', 'E', 'M', 'P', 'T', 'I', 'O', 'N'][3]);
            assert(seq!['U', 'S', '_', 'O', 'R', '_', 'R', 'E', 'S', 'E', 'L', 'L', 'E', 'R', '_', 'E', 'X', 'E', 'M', 'P', 'T', 'I', 'O', 'N'][3] != seq!['U', 'S', '_', 'N', 'C', '_', 'R', 'E', 'S', 'E', 'L', 'L', 'E', 'R', '_', 'E', 'X', 'E', 'M', 'P', 'T', 'I', 'O', 'N'][3]);
            assert(seq!['U', 'S', '_', 'O', 'R', '_', 'R', 'E', 'S', 'E', 'L', 'L', 'E', 'R', '_', 'E', 'X', 'E', 'M', 'P', 'T', 'I', 'O', 'N'][3] != seq!['U', 'S', '_', 'N', 'D', '_', 'R', 'E', 'S', 'E', 'L', 'L', 'E', 'R', '_', 'E', 'X', 'E', 'M', 'P', 'T', 'I', 'O', 'N'][3]);
            assert(seq!['U', 'S', '_', 'O', 'R', '_', 'R', 'E', 'S', 'E', 'L', 'L', 'E', 'R', '_', 'E', 'X', 'E', 'M', 'P', 'T', 'I', 'O', 'N'][3] != seq!['U', 'S', '_', 'N', 'E', '_', 'R', 'E', 'S', 'E', 'L', 'L', 'E', 'R', '_', 'E', 'X', 'E', 'M', 'P', 'T', 'I', 'O', 'N'][3]);
            assert(seq!['U', 'S', '_', 'O', 'R', '_', 'R', 'E', 'S', 'E', 'L', 'L', 'E', 'R', '_', 'E', 'X', 'E', 'M', 'P', 'T', 'I', 'O', 'N'][3] != seq!['U', 'S', '_', 'N', 'H', '_', 'R', 'E', 'S', 'E', 'L', 'L', 'E', 'R', '_', 'E', 'X', 'E', 'M', 'P', 'T', 'I', 'O', 'N'][3]);
            assert(seq!['U', 'S', '_', 'O', 'R', '_', 'R', 'E', 'S', 'E', 'L', 'L', 'E', 'R', '_', 'E', 'X', 'E', 'M', 'P', 'T', 'I', 'O', 'N'][3] != seq!['U', 'S', '_', 'N', 'J', '_', 'R', 'E', 'S', 'E', 'L', 'L', 'E', 'R', '_', 'E', 'X', 'E', 'M', 'P', 'T', 'I', 'O', 'N'][3]);
            assert(seq!['U', 'S', '_', 'O', 'R', '_', 'R', 'E', 'S', 'E', 'L', 'L', 'E', 'R', '_', 'E', 'X', 'E', 'M', 'P', 'T', 'I', 'O', 'N'][3] != seq!['U', 'S', '_', 'N', 'M', '_', 'R', 'E', 'S', 'E', 'L', 'L', 'E', 'R', '_', 'E', 'X', 'E', 'M', 'P', 'T', 'I', 'O', 'N'][3]);
            assert(seq!['U', 'S', '_', 'O', 'R', '_', 'R', 'E', 'S', 'E', 'L', 'L', 'E', 'R', '_', 'E', 'X', 'E', 'M', 'P', 'T', 'I', 'O', 'N'][3] != seq!['U', 'S', '_', 'N', 'V', '_', 'R', 'E', 'S', 'E', 'L', 'L', 'E', 'R', '_', 'E', 'X', 'E', 'M', 'P', 'T', 'I', 'O', 'N'][3]);
            assert(seq!['U', 'S', '_', 'O', 'R', '_', 'R', 'E', 'S', 'E', 'L', 'L', 'E', 'R', '_', 'E', 'X', 'E', 'M', 'P', 'T', 'I', 'O', 'N'][3] != seq!['U', 'S', '_', 'N', 'Y', '_', 'R', 'E', 'S', 'E', 'L', 'L', 'E', 'R', '_', 'E', 'X', 'E', 'M', 'P', 'T', 'I', 'O', 'N'][3]);
            assert(seq!['U', 'S', '_', 'O', 'R', '_', 'R', 'E', 'S', 'E', 'L', 'L', 'E', 'R', '_', 'E', 'X', 'E', 'M', 'P', 'T', 'I', 'O', 'N'][4] != seq!['U', 'S', '_', 'O', 'H', '_', 'R', 'E', 'S', 'E', 'L', 'L', 'E', 'R', '_', 'E', 'X', 'E', 'M', 'P', 'T', 'I', 'O', 'N'][4]);
            assert(seq!['U', 'S', '_', 'O', 'R', '_', 'R', 'E', 'S', 'E', 'L', 'L', 'E', 'R', '_', 'E', 'X', 'E', 'M', 'P', 'T', 'I', 'O', 'N'][4] != seq!['U', 'S', '_', 'O', 'K', '_', 'R', 'E', 'S', 'E', 'L', 'L', 'E', 'R', '_', 'E', 'X', 'E', 'M', 'P', 'T', 'I', 'O', 'N'][4]);
        },
        TaxExemption::US_PA_RESELLER_EXEMPTION => {
            assert(seq!['U', 'S', '_', 'P', 'A', '_', 'R', 'E', 'S', 'E', 'L', 'L', 'E', 'R', '_', 'E', 'X', 'E', 'M', 'P', 'T', 'I', 'O', 'N'][0] != seq!['C', 'A', '_', 'B', 'C', '_', 'R', 'E', 'S', 'E', 'L', 'L', 'E', 'R', '_', 'E', 'X', 'E', 'M', 'P', 'T', 'I', 'O', 'N'][0]);
            assert(seq!['U', 'S', '_', 'P', 'A', '_', 'R', 'E', 'S', 'E', 'L', 'L', 'E', 'R', '_', 'E', 'X', 'E', 'M', 'P', 'T', 'I', 'O', 'N'][0] != seq!['C', 'A', '_', 'M', 'B', '_', 'R', 'E', 'S', 'E', 'L', 'L', 'E', 'R', '_', 'E', 'X', 'E', 'M', 'P', 'T', 'I', 'O', 'N'][0]);
            assert(seq!['U', 'S', '_', 'P', 'A', '_', 'R', 'E', 'S', 'E', 'L', 'L', 'E', 'R', '_', 'E', 'X', 'E', 'M', 'P', 'T', 'I', 'O', 'N'][0] != seq!['C', 'A', '_', 'O', 'N', '_', 'P', 'U', 'R', 'C', 'H', 'A', 'S', 'E', '_', 'E', 'X', 'E', 'M', 'P', 'T', 'I', 'O', 'N'][0]);
            assert(seq!['U', 'S', '_', 'P', 'A', '_', 'R', 'E', 'S', 'E', 'L', 'L', 'E', 'R', '_', 'E', 'X', 'E', 'M', 'P', 'T', 'I', 'O', 'N'][0] != seq!['C', 'A', '_', 'S', 'K', '_', 'R', 'E', 'S', 'E', 'L', 'L', 'E', 'R', '_', 'E', 'X', 'E', 'M', 'P', 'T', 'I', 'O', 'N'][0]);
            assert(seq!['U', 'S', '_', 'P', 'A', '_', 'R', 'E', 'S', 'E', 'L', 'L', 'E', 'R', '_', 'E', 'X', 'E', 'M', 'P', 'T', 'I', 'O', 'N'][0] != seq!['C', 'A', '_', 'S', 'T', 'A', 'T', 'U', 'S', '_', 'C', 'A', 'R', 'D', '_', 'E', 'X', 'E', 'M', 'P', 'T', 'I', 'O', 'N'][0]);
            assert(seq!['U', 'S', '_', 'P', 'A', '_', 'R', 'E', 'S', 'E', 'L', 'L', 'E', 'R', '_', 'E', 'X', 'E', 'M', 'P', 'T', 'I', 'O', 'N'][3] != seq!['U', 'S', '_', 'A', 'K', '_', 'R', 'E', 'S', 'E', 'L', 'L', 'E', 'R', '_', 'E', 'X', 'E', 'M', 'P', 'T', 'I', 'O', 'N'][3]);
            assert(seq!['U', 'S', '_', 'P', 'A', '_', 'R', 'E', 'S', 'E', 'L', 'L', 'E', 'R', '_', 'E', 'X', 'E', 'M', 'P', 'T', 'I', 'O', 'N'][3] != seq!['U', 'S', '_', 'A', 'L', '_', 'R', 'E', 'S', 'E', 'L', 'L', 'E', 'R', '_', 'E', 'X', 'E', 'M', 'P', 'T', 'I', 'O', 'N'][3]);
            assert(seq!['U', 'S', '_', 'P', 'A', '_', 'R', 'E', 'S', 'E', 'L', 'L', 'E', 'R', '_', 'E', 'X', 'E', 'M', 'P', 'T', 'I', 'O', 'N'][3] != seq!['U', 'S', '_', 'A', 'R', '_', 'R', 'E', 'S', 'E', 'L', 'L', 'E', 'R', '_', 'E', 'X', 'E', 'M', 'P', 'T', 'I', 'O', 'N'][3]);
            assert(seq!['U', 'S', '_', 'P', 'A', '_', 'R', 'E', 'S', 'E', 'L', 'L', 'E', 'R', '_', 'E', 'X', 'E', 'M', 'P', 'T', 'I', 'O', 'N'][3] != seq!['U', 'S', '_', 'A', 'Z', '_', 'R', 'E', 'S', 'E', 'L', 'L', 'E', 'R', '_', 'E', 'X', 'E', 'M', 'P', 'T', 'I', 'O', 'N'][3]);
            assert(seq!['U', 'S', '_', 'P', 'A', '_', 'R', 'E', 'S', 'E', 'L', 'L', 'E', 'R', '_', 'E', 'X', 'E', 'M', 'P', 'T', 'I', 'O', 'N'][3] != seq!['U', 'S', '_', 'C', 'A', '_', 'R', 'E', 'S', 'E', 'L', 'L', 'E', 'R', '_', 'E', 'X', 'E', 'M', 'P', 'T', 'I', 'O', 'N'][3]);
            assert(seq!['U', 'S', '_', 'P', 'A', '_', 'R', 'E', 'S', 'E', 'L', 'L', 'E', 'R', '_', 'E', 'X', 'E', 'M', 'P', 'T', 'I', 'O', 'N'][3] != seq!['U', 'S', '_', 'C', 'O', '_', 'R', 'E', 'S', 'E', 'L', 'L', 'E', 'R', '_', 'E', 'X', 'E', 'M', 'P', 'T', 'I', 'O', 'N'][3]);
            assert(seq!['U', 'S', '_', 'P', 'A', '_', 'R', 'E', 'S', 'E', 'L', 'L', 'E', 'R', '_', 'E', 'X', 'E', 'M', 'P', 'T', 'I', 'O', 'N'][3] != seq!['U', 'S', '_', 'C', 'T', '_', 'R', 'E', 'S', 'E', 'L', 'L', 'E', 'R', '_', 'E', 'X', 'E', 'M', 'P', 'T', 'I', 'O', 'N'][3]);
            assert(seq!['U', 'S', '_', 'P', 'A', '_', 'R', 'E', 'S', 'E', 'L', 'L', 'E', 'R', '_', 'E', 'X', 'E', 'M', 'P', 'T', 'I', 'O', 'N'][3] != seq!['U', 'S', '_', 'D', 'C', '_', 'R', 'E', 'S', 'E', 'L', 'L', 'E', 'R', '_', 'E', 'X', 'E', 'M', 'P', 'T', 'I', 'O', 'N'][3]);
            assert(seq!['U', 'S', '_', 'P', 'A', '_', 'R', 'E', 'S', 'E', 'L', 'L', 'E', 'R', '_', 'E', 'X', 'E', 'M', 'P', 'T', 'I', 'O', 'N'][3] != seq!['U', 'S', '_', 'D', 'E', '_', 'R', 'E', 'S', 'E', 'L', 'L', 'E', 'R', '_', 'E', 'X', 'E', 'M', 'P', 'T', 'I', 'O', 'N'][3]);
            assert(seq!['U', 'S', '_', 'P', 'A', '_', 'R', 'E', 'S', 'E', 'L', 'L', 'E', 'R', '_', 'E', 'X', 'E', 'M', 'P', 'T', 'I', 'O', 'N'][3] != seq!['U', 'S', '_', 'F', 'L', '_', 'R', 'E', 'S', 'E', 'L', 'L', 'E', 'R', '_', 'E', 'X', 'E', 'M', 'P', 'T', 'I', 'O', 'N'][3]);
            assert(seq!['U', 'S', '_', 'P', 'A', '_', 'R', 'E', 'S', 'E', 'L', 'L', 'E', 'R', '_', 'E', 'X', 'E', 'M', 'P', 'T', 'I', 'O', 'N'][3] != seq!['U', 'S', '_', 'G', 'A', '_', 'R', 'E', 'S', 'E', 'L', 'L', 'E', 'R', '_', 'E', 'X', 'E', 'M', 'P', 'T', 'I', 'O', 'N'][3]);
            assert(seq!['U', 'S', '_', 'P', 'A', '_', 'R', 'E', 'S', 'E', 'L', 'L', 'E', 'R', '_', 'E', 'X', 'E', 'M', 'P', 'T', 'I', 'O', 'N'][3] != seq!['U', 'S', '_', 'H', 'I', '_', 'R', 'E', 'S', 'E', 'L', 'L', 'E', 'R', '_', 'E', 'X', 'E', 'M', 'P', 'T', 'I', 'O', 'N'][3]);
            assert(seq!['U', 'S', '_', 'P', 'A', '_', 'R', 'E', 'S', 'E', 'L', 'L', 'E', 'R', '_', 'E', 'X', 'E', 'M', 'P', 'T', 'I', 'O', 'N'][3] != seq!['U', 'S', '_', 'I', 'A', '_', 'R', 'E', 'S', 'E', 'L', 'L', 'E', 'R', '_', 'E', 'X', 'E', 'M', 'P', 'T', 'I', 'O', 'N'][3]);
            assert(seq!['U', 'S', '_', 'P', 'A', '_', 'R', 'E', 'S', 'E', 'L', 'L', 'E', 'R', '_', 'E', 'X', 'E', 'M', 'P', 'T', 'I', 'O', 'N'][3] != seq!['U', 'S', '_', 'I', 'D', '_', 'R', 'E', 'S', 'E', 'L', 'L', 'E', 'R', '_', 'E', 'X', 'E', 'M', 'P', 'T', 'I', 'O', 'N'][3]);
            assert(seq!['U', 'S', '_', 'P', 'A', '_', 'R', 'E', 'S', 'E', 'L', 'L', 'E', 'R', '_', 'E', 'X', 'E', 'M', 'P', 'T', 'I', 'O', 'N'][3] != seq!['U', 'S', '_', 'I', 'L', '_', 'R', 'E', 'S', 'E', 'L', 'L', 'E', 'R', '_', 'E', 'X', 'E', 'M', 'P', 'T', 'I', 'O', 'N'][3]);
            assert(seq!['U', 'S', '_', 'P', 'A', '_', 'R', 'E', 'S', 'E', 'L', 'L', 'E', 'R', '_', 'E', 'X', 'E', 'M', 'P', 'T', 'I', 'O', 'N'][3] != seq!['U', 'S', '_', 'I', 'N', '_', 'R', 'E', 'S', 'E', 'L', 'L', 'E', 'R', '_', 'E', 'X', 'E', 'M', 'P', 'T', 'I', 'O', 'N'][3]);
            assert(seq!['U', 'S', '_', 'P', 'A', '_', 'R', 'E', 'S', 'E', 'L', 'L', 'E', 'R', '_', 'E', 'X', 'E', 'M', 'P', 'T', 'I', 'O', 'N'][3] != seq!['U', 'S', '_', 'K', 'S', '_', 'R', 'E', 'S', 'E', 'L', 'L', 'E', 'R', '_', 'E', 'X', 'E', 'M', 'P', 'T', 'I', 'O', 'N'][3]);
            assert(seq!['U', 'S', '_', 'P', 'A', '_', 'R', 'E', 'S', 'E', 'L', 'L', 'E', 'R', '_', 'E', 'X', 'E', 'M', 'P', 'T', 'I', 'O', 'N'][3] != seq!['U', 'S', '_', 'K', 'Y', '_', 'R', 'E', 'S', 'E', 'L', 'L', 'E', 'R', '_', 'E', 'X', 'E', 'M', 'P', 'T', 'I', 'O', 'N'][3]);
            assert(seq!['U', 'S', '_', 'P', 'A', '_', 'R', 'E', 'S', 'E', 'L', 'L', 'E', 'R', '_', 'E', 'X', 'E', 'M', 'P', 'T', 'I', 'O', 'N'][3] != seq!['U', 'S', '_', 'L', 'A', '_', 'R', 'E', 'S', 'E', 'L', 'L', 'E', 'R', '_', 'E', 'X', 'E', 'M', 'P', 'T', 'I', 'O', 'N'][3]);
            assert(seq!['U', 'S', '_', 'P', 'A', '_', 'R', 'E', 'S', 'E', 'L', 'L', 'E', 'R', '_', 'E', 'X', 'E', 'M', 'P', 'T', 'I', 'O', 'N'][3] != seq!['U', 'S', '_', 'M', 'A', '_', 'R', 'E', 'S', 'E', 'L', 'L', 'E', 'R', '_', 'E', 'X', 'E', 'M', 'P', 'T', 'I', 'O', 'N'][3]);
            assert(seq!['U', 'S', '_', 'P', 'A', '_', 'R', 'E', 'S', 'E', 'L', 'L', 'E', 'R', '_', 'E', 'X', 'E', 'M', 'P', 'T', 'I', 'O', 'N'][3] != seq!['U', 'S', '_', 'M', 'D', '_', 'R', 'E', 'S', 'E', 'L', 'L', 'E', 'R', '_', 'E', 'X', 'E', 'M', 'P', 'T', 'I', 'O', 'N'][3]);
            assert(seq!['U', 'S', '_', 'P', 'A', '_', 'R', 'E', 'S', 'E', 'L', 'L', 'E', 'R', '_', 'E', 'X', 'E', 'M', 'P', 'T', 'I', 'O', 'N'][3] != seq!['U', 'S', '_', 'M', 'E', '_', 'R', 'E', 'S', 'E', 'L', 'L', 'E', 'R', '_', 'E', 'X', 'E', 'M', 'P', 'T', 'I', 'O', 'N'][3]);
            assert(seq!['U', 'S', '_', 'P', 'A', '_', 'R', 'E', 'S', 'E', 'L', 'L', 'E', 'R', '_', 'E', 'X', 'E', 'M', 'P', 'T', 'I', 'O', 'N'][3] != seq!['U', 'S', '_', 'M', 'I', '_', 'R', 'E', 'S', 'E', 'L', 'L', 'E', 'R', '_', 'E', 'X', 'E', 'M', 'P', 'T', 'I', 'O', 'N'][3]);
            assert(seq!['U', 'S', '_', 'P', 'A', '_', 'R', 'E', 'S', 'E', 'L', 'L', 'E', 'R', '_', 'E', 'X', 'E', 'M', 'P', 'T', 'I', 'O', 'N'][3] != seq!['U', 'S', '_', 'M', 'N', '_', 'R', 'E', 'S', 'E', 'L', 'L', 'E', 'R', '_', 'E', 'X', 'E', 'M', 'P', 'T', 'I', 'O', 'N'][3]);
            assert(seq!['U', 'S', '_', 'P', 'A', '_', 'R', 'E', 'S', 'E', 'L', 'L', 'E', 'R', '_', 'E', 'X', 'E', 'M', 'P', 'T', 'I', 'O', 'N'][3] != seq!['U', 'S', '_', 'M', 'O', '_', 'R', 'E', 'S', 'E', 'L', 'L', 'E', 'R', '_', 'E', 'X', 'E', 'M', 'P', 'T', 'I', 'O', 'N'][3]);
            assert(seq!['U', 'S', '_', 'P', 'A', '_', 'R', 'E', 'S', 'E', 'L', 'L', 'E', 'R', '_', 'E', 'X', 'E', 'M', 'P', 'T', 'I', 'O', 'N'][3] != seq!['U', 'S', '_', 'M', 'S', '_', 'R', 'E', 'S', 'E', 'L', 'L', 'E', 'R', '_', 'E', 'X', 'E', 'M', 'P', 'T', 'I', 'O', 'N'][3]);
            assert(seq!['U', 'S', '_', 'P', 'A', '_', 'R', 'E', 'S', 'E', 'L', 'L', 'E', 'R', '_', 'E', 'X', 'E', 'M', 'P', 'T', 'I', 'O', 'N'][3] != seq!['U', 'S', '_', 'M', 'T', '_', 'R', 'E', 'S', 'E', 'L', 'L', 'E', 'R', '_', 'E', 'X', 'E', 'M', 'P', 'T', 'I', 'O', 'N'][3]);
            assert(seq!['U', 'S', '_', 'P', 'A', '_', 'R', 'E', 'S', 'E', 'L', 'L', 'E', 'R', '_', 'E', 'X', 'E', 'M', 'P', 'T', 'I', 'O', 'N'][3] != seq!['U', 'S', '_', 'N', 'C', '_', 'R', 'E', 'S', 'E', 'L', 'L', 'E', 'R', '_', 'E', 'X', 'E', 'M', 'P', 'T', 'I', 'O', 'N'][3]);
            assert(seq!['U', 'S', '_', 'P', 'A', '_', 'R', 'E', 'S', 'E', 'L', 'L', 'E', 'R', '_', 'E', 'X', 'E', 'M', 'P', 'T', 'I', 'O', 'N'][3] != seq!['U', 'S', '_', 'N', 'D', '_', 'R', 'E', 'S', 'E', 'L', 'L', 'E', 'R', '_', 'E', 'X', 'E', 'M', 'P', 'T', 'I', 'O', 'N'][3]);
            assert(seq!['U', 'S', '_', 'P', 'A', '_', 'R', 'E', 'S', 'E', 'L', 'L', 'E', 'R', '_', 'E', 'X', 'E', 'M', 'P', 'T', 'I', 'O', 'N'][3] != seq!['U', 'S', '_', 'N', 'E', '_', 'R', 'E', 'S', 'E', 'L', 'L', 'E', 'R', '_', 'E', 'X', 'E', 'M', 'P', 'T', 'I', 'O', 'N'][3]);
            assert(seq!['U', 'S', '_', 'P', 'A', '_', 'R', 'E', 'S', 'E', 'L', 'L', 'E', 'R', '_', 'E', 'X', 'E', 'M', 'P', 'T', 'I', 'O', 'N'][3] != seq!['U', 'S', '_', 'N', 'H', '_', 'R', 'E', 'S', 'E', 'L', 'L', 'E', 'R', '_', 'E', 'X', 'E', 'M', 'P', 'T', 'I', 'O', 'N'][3]);
            assert(seq!['U', 'S', '_', 'P', 'A', '_', 'R', 'E', 'S', 'E', 'L', 'L', 'E', 'R', '_', 'E', 'X', 'E', 'M', 'P', 'T', 'I', 'O', 'N'][3] != seq!['U', 'S', '_', 'N', 'J', '_', 'R', 'E', 'S', 'E', 'L', 'L', 'E', 'R', '_', 'E', 'X', 'E', 'M', 'P', 'T', 'I', 'O', 'N'][3]);
            assert(seq!['U', 'S', '_', 'P', 'A', '_', 'R', 'E', 'S', 'E', 'L', 'L', 'E', 'R', '_', 'E', 'X', 'E', 'M', 'P', 'T', 'I', 'O', 'N'][3] != seq!['U', 'S', '_', 'N', 'M', '_', 'R', 'E', 'S', 'E', 'L', 'L', 'E', 'R', '_', 'E', 'X', 'E', 'M', 'P', 'T', 'I', 'O', 'N'][3]);
            assert(seq!['U', 'S', '_', 'P', 'A', '_', 'R', 'E', 'S', 'E', 'L', 'L', 'E', 'R', '_', 'E', 'X', 'E', 'M', 'P', 'T', 'I', 'O', 'N'][3] != seq!['U', 'S', '_', 'N', 'V', '_', 'R', 'E', 'S', 'E', 'L', 'L', 'E', 'R', '_', 'E', 'X', 'E', 'M', 'P', 'T', 'I', 'O', 'N'][3]);
            assert(seq!['U', 'S', '_', 'P', 'A', '_', 'R', 'E', 'S', 'E', 'L', 'L', 'E', 'R', '_', 'E', 'X', 'E', 'M', 'P', 'T', 'I', 'O', 'N'][3] != seq!['U', 'S', '_', 'N', 'Y', '_', 'R', 'E', 'S', 'E', 'L', 'L', 'E', 'R', '_', 'E', 'X', 'E', 'M', 'P', 'T', 'I', 'O', 'N'][3]);
            assert(seq!['U', 'S', '_', 'P', 'A', '_', 'R', 'E', 'S', 'E', 'L', 'L', 'E', 'R', '_', 'E', 'X', 'E', 'M', 'P', 'T', 'I', 'O', 'N'][3] != seq!['U', 'S', '_', 'O', 'H', '_', 'R', 'E', 'S', 'E', 'L', 'L', 'E', 'R', '_', 'E', 'X', 'E', 'M', 'P', 'T', 'I', 'O', 'N'][3]);
            assert(seq!['U', 'S', '_', 'P', 'A', '_', 'R', 'E', 'S', 'E', 'L', 'L', 'E', 'R', '_', 'E', 'X', 'E', 'M', 'P', 'T', 'I', 'O', 'N'][3] != seq!['U', 'S', '_', 'O', 'K', '_', 'R', 'E', 'S', 'E', 'L', 'L', 'E', 'R', '_', 'E', 'X', 'E', 'M', 'P', 'T', 'I', 'O', 'N'][3]);
            assert(seq!['U', 'S', '_', 'P', 'A', '_', 'R', 'E', 'S', 'E', 'L', 'L', 'E', 'R', '_', 'E', 'X', 'E', 'M', 'P', 'T', 'I', 'O', 'N'][3] != seq!['U', 'S', '_', 'O', 'R', '_', 'R', 'E', 'S', 'E', 'L', 'L', 'E', 'R', '_', 'E', 'X', 'E', 'M', 'P', 'T', 'I', 'O', 'N'][3]);
        },
        TaxExemption::US_RI_RESELLER_EXEMPTION => {
            assert(seq!['U', 'S', '_', 'R', 'I', '_', 'R', 'E', 'S', 'E', 'L', 'L', 'E', 'R', '_', 'E', 'X', 'E', 'M', 'P', 'T', 'I', 'O', 'N'][0] != seq!['C', 'A', '_', 'B', 'C', '_', 'R', 'E', 'S', 'E', 'L', 'L', 'E', 'R', '_', 'E', 'X', 'E', 'M', 'P', 'T', 'I', 'O', 'N'][0]);
            assert(seq!['U', 'S', '_', 'R', 'I', '_', 'R', 'E', 'S', 'E', 'L', 'L', 'E', 'R', '_', 'E', 'X', 'E', 'M', 'P', 'T', 'I', 'O', 'N'][0] != seq!['C', 'A', '_', 'M', 'B', '_', 'R', 'E', 'S', 'E', 'L', 'L', 'E', 'R', '_', 'E', 'X', 'E', 'M', 'P', 'T', 'I', 'O', 'N'][0]);
            assert(seq!['U', 'S', '_', 'R', 'I', '_', 'R', 'E', 'S', 'E', 'L', 'L', 'E', 'R', '_', 'E', 'X', 'E', 'M', 'P', 'T', 'I', 'O', 'N'][0] != seq!['C', 'A', '_', 'O', 'N', '_', 'P', 'U', 'R', 'C', 'H', 'A', 'S', 'E', '_', 'E', 'X', 'E', 'M', 'P', 'T', 'I', 'O', 'N'][0]);
            assert(seq!['U', 'S', '_', 'R', 'I', '_', 'R', 'E', 'S', 'E', 'L', 'L', 'E', 'R', '_', 'E', 'X', 'E', 'M', 'P', 'T', 'I', 'O', 'N'][0] != seq!['C', 'A', '_', 'S', 'K', '_', 'R', 'E', 'S', 'E', 'L', 'L', 'E', 'R', '_', 'E', 'X', 'E', 'M', 'P', 'T', 'I', 'O', 'N'][0]);
            assert(seq!['U', 'S', '_', 'R', 'I', '_', 'R', 'E', 'S', 'E', 'L', 'L', 'E', 'R', '_', 'E', 'X', 'E', 'M', 'P', 'T', 'I', 'O', 'N'][0] != seq!['C', 'A', '_', 'S', 'T', 'A', 'T', 'U', 'S', '_', 'C', 'A', 'R', 'D', '_', 'E', 'X', 'E', 'M', 'P', 'T', 'I', 'O', 'N'][0]);
            assert(seq!['U', 'S', '_', 'R', 'I', '_', 'R', 'E', 'S', 'E', 'L', 'L', 'E', 'R', '_', 'E', 'X', 'E', 'M', 'P', 'T', 'I', 'O', 'N'][3] != seq!['U', 'S', '_', 'A', 'K', '_', 'R', 'E', 'S', 'E', 'L', 'L', 'E', 'R', '_', 'E', 'X', 'E', 'M', 'P', 'T', 'I', 'O', 'N'][3]);
            assert(seq!['U', 'S', '_', 'R', 'I', '_', 'R', 'E', 'S', 'E', 'L', 'L', 'E', 'R', '_', 'E', 'X', 'E', 'M', 'P', 'T', 'I', 'O', 'N'][3] != seq!['U', 'S', '_', 'A', 'L', '_', 'R', 'E', 'S', 'E', 'L', 'L', 'E', 'R', '_', 'E', 'X', 'E', 'M', 'P', 'T', 'I', 'O', 'N'][3]);
            assert(seq!['U', 'S', '_', 'R', 'I', '_', 'R', 'E', 'S', 'E', 'L', 'L', 'E', 'R', '_', 'E', 'X', 'E', 'M', 'P', 'T', 'I', 'O', 'N'][3] != seq!['U', 'S', '_', 'A', 'R', '_', 'R', 'E', 'S', 'E', 'L', 'L', 'E', 'R', '_', 'E', 'X', 'E', 'M', 'P', 'T', 'I', 'O', 'N'][3]);
            assert(seq!['U', 'S', '_', 'R', 'I', '_', 'R', 'E', 'S', 'E', 'L', 'L', 'E', 'R', '_', 'E', 'X', 'E', 'M', 'P', 'T', 'I', 'O', 'N'][3] != seq!['U', 'S', '_', 'A', 'Z', '_', 'R', 'E', 'S', 'E', 'L', 'L', 'E', 'R', '_', 'E', 'X', 'E', 'M', 'P', 'T', 'I', 'O', 'N'][3]);
            assert(seq!['U', 'S', '_', 'R', 'I', '_', 'R', 'E', 'S', 'E', 'L', 'L', 'E', 'R', '_', 'E', 'X', 'E', 'M', 'P', 'T', 'I', 'O', 'N'][3] != seq!['U', 'S', '_', 'C', 'A', '_', 'R', 'E', 'S', 'E', 'L', 'L', 'E', 'R', '_', 'E', 'X', 'E', 'M', 'P', 'T', 'I', 'O', 'N'][3]);
            assert(seq!['U', 'S', '_', 'R', 'I', '_', 'R', 'E', 'S', 'E', 'L', 'L', 'E', 'R', '_', 'E', 'X', 'E', 'M', 'P', 'T', 'I', 'O', 'N'][3] != seq!['U', 'S', '_', 'C', 'O', '_', 'R', 'E', 'S', 'E', 'L', 'L', 'E', 'R', '_', 'E', 'X', 'E', 'M', 'P', 'T', 'I', 'O', 'N'][3]);
            assert(seq!['U', 'S', '_', 'R', 'I', '_', 'R', 'E', 'S', 'E', 'L', 'L', 'E', 'R', '_', 'E', 'X', 'E', 'M', 'P', 'T', 'I', 'O', 'N'][3] != seq!['U', 'S', '_', 'C', 'T', '_', 'R', 'E', 'S', 'E', 'L', 'L', 'E', 'R', '_', 'E', 'X', 'E', 'M', 'P', 'T', 'I', 'O', 'N'][3]);
            assert(seq!['U', 'S', '_', 'R', 'I', '_', 'R', 'E', 'S', 'E', 'L', 'L', 'E', 'R', '_', 'E', 'X', 'E', 'M', 'P', 'T', 'I', 'O', 'N'][3] != seq!['U', 'S', '_', 'D', 'C', '_', 'R', 'E', 'S', 'E', 'L', 'L', 'E', 'R', '_', 'E', 'X', 'E', 'M', 'P', 'T', 'I', 'O', 'N'][3]);
            assert(seq!['U', 'S', '_', 'R', 'I', '_', 'R', 'E', 'S', 'E', 'L', 'L', 'E', 'R', '_', 'E', 'X', 'E', 'M', 'P', 'T', 'I', 'O', 'N'][3] != seq!['U', 'S', '_', 'D', 'E', '_', 'R', 'E', 'S', 'E', 'L', 'L', 'E', 'R', '_', 'E', 'X', 'E', 'M', 'P', 'T', 'I', 'O', 'N'][3]);
            assert(seq!['U', 'S', '_', 'R', 'I', '_', 'R', 'E', 'S', 'E', 'L', 'L', 'E', 'R', '_', 'E', 'X', 'E', 'M', 'P', 'T', 'I', 'O', 'N'][3] != seq!['U', 'S', '_', 'F', 'L', '_', 'R', 'E', 'S', 'E', 'L', 'L', 'E', 'R', '_', 'E', 'X', 'E', 'M', 'P', 'T', 'I', 'O', 'N'][3]);
            assert(seq!['U', 'S', '_', 'R', 'I', '_', 'R', 'E', 'S', 'E', 'L', 'L', 'E', 'R', '_', 'E', 'X', 'E', 'M', 'P', 'T', 'I', 'O', 'N'][3] != seq!['U', 'S', '_', 'G', 'A', '_', 'R', 'E', 'S', 'E', 'L', 'L', 'E', 'R', '_', 'E', 'X', 'E', 'M', 'P', 'T', 'I', 'O', 'N'][3]);
            assert(seq!['U', 'S', '_', 'R', 'I', '_', 'R', 'E', 'S', 'E', 'L', 'L', 'E', 'R', '_', 'E', 'X', 'E', 'M', 'P', 'T', 'I', 'O', 'N'][3] != seq!['U', 'S', '_', 'H', 'I', '_', 'R', 'E', 'S', 'E', 'L', 'L', 'E', 'R', '_', 'E', 'X', 'E', 'M', 'P', 'T', 'I', 'O', 'N'][3]);
            assert(seq!['U', 'S', '_', 'R', 'I', '_', 'R', 'E', 'S', 'E', 'L', 'L', 'E', 'R', '_', 'E', 'X', 'E', 'M', 'P', 'T', 'I', 'O', 'N'][3] != seq!['U', 'S', '_', 'I', 'A', '_', 'R', 'E', 'S', 'E', 'L', 'L', 'E', 'R', '_', 'E', 'X', 'E', 'M', 'P', 'T', 'I', 'O', 'N'][3]);
            assert(seq!['U', 'S', '_', 'R', 'I', '_', 'R', 'E', 'S', 'E', 'L', 'L', 'E', 'R', '_', 'E', 'X', 'E', 'M', 'P', 'T', 'I', 'O', 'N'][3] != seq!['U', 'S', '_', 'I', 'D', '_', 'R', 'E', 'S', 'E', 'L', 'L', 'E', 'R', '_', 'E', 'X', 'E', 'M', 'P', 'T', 'I', 'O', 'N'][3]);
            assert(seq!['U', 'S', '_', 'R', 'I', '_', 'R', 'E', 'S', 'E', 'L', 'L', 'E', 'R', '_', 'E', 'X', 'E', 'M', 'P', 'T', 'I', 'O', 'N'][3] != seq!['U', 'S', '_', 'I', 'L', '_', 'R', 'E', 'S', 'E', 'L', 'L', 'E', 'R', '_', 'E', 'X', 'E', 'M', 'P', 'T', 'I', 'O', 'N'][3]);
            assert(seq!['U', 'S', '_', 'R', 'I', '_', 'R', 'E', 'S', 'E', 'L', 'L', 'E', 'R', '_', 'E', 'X', 'E', 'M', 'P', 'T', 'I', 'O', 'N'][3] != seq!['U', 'S', '_', 'I', 'N', '_', 'R', 'E', 'S', 'E', 'L', 'L', 'E', 'R', '_', 'E', 'X', 'E', 'M', 'P', 'T', 'I', 'O', 'N'][3]);
            assert(seq!['U', 'S', '_', 'R', 'I', '_', 'R', 'E', 'S', 'E', 'L', 'L', 'E', 'R', '_', 'E', 'X', 'E', 'M', 'P', 'T', 'I', 'O', 'N'][3] != seq!['U', 'S', '_', 'K', 'S', '_', 'R', 'E', 'S', 'E', 'L', 'L', 'E', 'R', '_', 'E', 'X', 'E', 'M', 'P', 'T', 'I', 'O', 'N'][3]);
            assert(seq!['U', 'S', '_', 'R', 'I', '_', 'R', 'E', 'S', 'E', 'L', 'L', 'E', 'R', '_', 'E', 'X', 'E', 'M', 'P', 'T', 'I', 'O', 'N'][3] != seq!['U', 'S', '_', 'K', 'Y', '_', 'R', 'E', 'S', 'E', 'L', 'L', 'E', 'R', '_', 'E', 'X', 'E', 'M', 'P', 'T', 'I', 'O', 'N'][3]);
            assert(seq!['U', 'S', '_', 'R', 'I', '_', 'R', 'E', 'S', 'E', 'L', 'L', 'E', 'R', '_', 'E', 'X', 'E', 'M', 'P', 'T', 'I', 'O', 'N'][3] != seq!['U', 'S', '_', 'L', 'A', '_', 'R', 'E', 'S', 'E', 'L', 'L', 'E', 'R', '_', 'E', 'X', 'E', 'M', 'P', 'T', 'I', 'O', 'N'][3]);
            assert(seq!['U', 'S', '_', 'R', 'I', '_', 'R', 'E', 'S', 'E', 'L', 'L', 'E', 'R', '_', 'E', 'X', 'E', 'M', 'P', 'T', 'I', 'O', 'N'][3] != seq!['U', 'S', '_', 'M', 'A', '_', 'R', 'E', 'S', 'E', 'L', 'L', 'E', 'R', '_', 'E', 'X', 'E', 'M', 'P', 'T', 'I', 'O', 'N'][3]);
            assert(seq!['U', 'S', '_', 'R', 'I', '_', 'R', 'E', 'S', 'E', 'L', 'L', 'E', 'R', '_', 'E', 'X', 'E', 'M', 'P', 'T', 'I', 'O', 'N'][3] != seq!['U', 'S', '_', 'M', 'D', '_', 'R', 'E', 'S', 'E', 'L', 'L', 'E', 'R', '_', 'E', 'X', 'E', 'M', 'P', 'T', 'I', 'O', 'N'][3]);
            assert(seq!['U', 'S', '_', 'R', 'I', '_', 'R', 'E', 'S', 'E', 'L', 'L', 'E', 'R', '_', 'E', 'X', 'E', 'M', 'P', 'T', 'I', 'O', 'N'][3] != seq!['U', 'S', '_', 'M', 'E', '_', 'R', 'E', 'S', 'E', 'L', 'L', 'E', 'R', '_', 'E', 'X', 'E', 'M', 'P', 'T', 'I', 'O', 'N'][3]);
            assert(seq!['U', 'S', '_', 'R', 'I', '_', 'R', 'E', 'S', 'E', 'L', 'L', 'E', 'R', '_', 'E', 'X', 'E', 'M', 'P', 'T', 'I', 'O', 'N'][3] != seq!['U', 'S', '_', 'M', 'I', '_', 'R', 'E', 'S', 'E', 'L', 'L', 'E', 'R', '_', 'E', 'X', 'E', 'M', 'P', 'T', 'I', 'O', 'N'][3]);
            assert(seq!['U', 'S', '_', 'R', 'I', '_', 'R', 'E', 'S', 'E', 'L', 'L', 'E', 'R', '_', 'E', 'X', 'E', 'M', 'P', 'T', 'I', 'O', 'N'][3] != seq!['U', 'S', '_', 'M', 'N', '_', 'R', 'E', 'S', 'E', 'L', 'L', 'E', 'R', '_', 'E', 'X', 'E', 'M', 'P', 'T', 'I', 'O', 'N'][3]);
            assert(seq!['U', 'S', '_', 'R', 'I', '_', 'R', 'E', 'S', 'E', 'L', 'L', 'E', 'R', '_', 'E', 'X', 'E', 'M', 'P', 'T', 'I', 'O', 'N'][3] != seq!['U', 'S', '_', 'M', 'O', '_', 'R', 'E', 'S', 'E', 'L', 'L', 'E', 'R', '_', 'E', 'X', 'E', 'M', 'P', 'T', 'I', 'O', 'N'][3]);
            assert(seq!['U', 'S', '_', 'R', 'I', '_', 'R', 'E', 'S', 'E', 'L', 'L', 'E', 'R', '_', 'E', 'X', 'E', 'M', 'P', 'T', 'I', 'O', 'N'][3] != seq!['U', 'S', '_', 'M', 'S', '_', 'R', 'E', 'S', 'E', 'L', 'L', 'E', 'R', '_', 'E', 'X', 'E', 'M', 'P', 'T', 'I', 'O', 'N'][3]);
            assert(seq!['U', 'S', '_', 'R', 'I', '_', 'R', 'E', 'S', 'E', 'L', 'L', 'E', 'R', '_', 'E', 'X', 'E', 'M', 'P', 'T', 'I', 'O', 'N'][3] != seq!['U', 'S', '_', 'M', 'T', '_', 'R', 'E', 'S', 'E', 'L', 'L', 'E', 'R', '_', 'E', 'X', 'E', 'M', 'P', 'T', 'I', 'O', 'N'][3]);
            assert(seq!['U', 'S', '_', 'R', 'I', '_', 'R', 'E', 'S', 'E', 'L', 'L', 'E', 'R', '_', 'E', 'X', 'E', 'M', 'P', 'T', 'I', 'O', 'N'][3] != seq!['U', 'S', '_', 'N', 'C', '_', 'R', 'E', 'S', 'E', 'L', 'L', 'E', 'R', '_', 'E', 'X', 'E', 'M', 'P', 'T', 'I', 'O', 'N'][3]);
            assert(seq!['U', 'S', '_', 'R', 'I', '_', 'R', 'E', 'S', 'E', 'L', 'L', 'E', 'R', '_', 'E', 'X', 'E', 'M', 'P', 'T', 'I', 'O', 'N'][3] != seq!['U', 'S', '_', 'N', 'D', '_', 'R', 'E', 'S', 'E', 'L', 'L', 'E', 'R', '_', 'E', 'X', 'E', 'M', 'P', 'T', 'I', 'O', 'N'][3]);
            assert(seq!['U', 'S', '_', 'R', 'I', '_', 'R', 'E', 'S', 'E', 'L', 'L', 'E', 'R', '_', 'E', 'X', 'E', 'M', 'P', 'T', 'I', 'O', 'N'][3] != seq!['U', 'S', '_', 'N', 'E', '_', 'R', 'E', 'S', 'E', 'L', 'L', 'E', 'R', '_', 'E', 'X', 'E', 'M', 'P', 'T', 'I', 'O', 'N'][3]);
            assert(seq!['U', 'S', '_', 'R', 'I', '_', 'R', 'E', 'S', 'E', 'L', 'L', 'E', 'R', '_', 'E', 'X', 'E', 'M', 'P', 'T', 'I', 'O', 'N'][3] != seq!['U', 'S', '_', 'N', 'H', '_', 'R', 'E', 'S', 'E', 'L', 'L', 'E', 'R', '_', 'E', 'X', 'E', 'M', 'P', 'T', 'I', 'O', 'N'][3]);
            assert(seq!['U', 'S', '_', 'R', 'I', '_', 'R', 'E', 'S', 'E', 'L', 'L', 'E', 'R', '_', 'E', 'X', 'E', 'M', 'P', 'T', 'I', 'O', 'N'][3] != seq!['U', 'S', '_', 'N', 'J', '_', 'R', 'E', 'S', 'E', 'L', 'L', 'E', 'R', '_', 'E', 'X', 'E', 'M', 'P', 'T', 'I', 'O', 'N'][3]);
            assert(seq!['U', 'S', '_', 'R', 'I', '_', 'R', 'E', 'S', 'E', 'L', 'L', 'E', 'R', '_', 'E', 'X', 'E', 'M', 'P', 'T', 'I', 'O', 'N'][3] != seq!['U', 'S', '_', 'N', 'M', '_', 'R', 'E', 'S', 'E', 'L', 'L', 'E', 'R', '_', 'E', 'X', 'E', 'M', 'P', 'T', 'I', 'O', 'N'][3]);
            assert(seq!['U', 'S', '_', 'R', 'I', '_', 'R', 'E', 'S', 'E', 'L', 'L', 'E', 'R', '_', 'E', 'X', 'E', 'M', 'P', 'T', 'I', 'O', 'N'][3] != seq!['U', 'S', '_', 'N', 'V', '_', 'R', 'E', 'S', 'E', 'L', 'L', 'E', 'R', '_', 'E', 'X', 'E', 'M', 'P', 'T', 'I', 'O', 'N'][3]);
            assert(seq!['U', 'S', '_', 'R', 'I', '_', 'R', 'E', 'S', 'E', 'L', 'L', 'E', 'R', '_', 'E', 'X', 'E', 'M', 'P', 'T', 'I', 'O', 'N'][3] != seq!['U', 'S', '_', 'N', 'Y', '_', 'R', 'E', 'S', 'E', 'L', 'L', 'E', 'R', '_', 'E', 'X', 'E', 'M', 'P', 'T', 'I', 'O', 'N'][3]);
            assert(seq!['U', 'S', '_', 'R', 'I', '_', 'R', 'E', 'S', 'E', 'L', 'L', 'E', 'R', '_', 'E', 'X', 'E', 'M', 'P', 'T', 'I', 'O', 'N'][3] != seq!['U', 'S', '_', 'O', 'H', '_', 'R', 'E', 'S', 'E', 'L', 'L', 'E', 'R', '_', 'E', 'X', 'E', 'M', 'P', 'T', 'I', 'O', 'N'][3]);
            assert(seq!['U', 'S', '_', 'R', 'I', '_', 'R', 'E', 'S', 'E', 'L', 'L', 'E', 'R', '_', 'E', 'X', 'E', 'M', 'P', 'T', 'I', 'O', 'N'][3] != seq!['U', 'S', '_', 'O', 'K', '_', 'R', 'E', 'S', 'E', 'L', 'L', 'E', 'R', '_', 'E', 'X', 'E', 'M', 'P', 'T', 'I', 'O', 'N'][3]);
            assert(seq!['U', 'S', '_', 'R', 'I', '_', 'R', 'E', 'S', 'E', 'L', 'L', 'E', 'R', '_', 'E', 'X', 'E', 'M', 'P', 'T', 'I', 'O', 'N'][3] != seq!['U', 'S', '_', 'O', 'R', '_', 'R', 'E', 'S', 'E', 'L', 'L', 'E', 'R', '_', 'E', 'X', 'E', 'M', 'P', 'T', 'I', 'O', 'N'][3]);
            assert(seq!['U', 'S', '_', 'R', 'I', '_', 'R', 'E', 'S', 'E', 'L', 'L', 'E', 'R', '_', 'E', 'X', 'E', 'M', 'P', 'T', 'I', 'O', 'N'][3] != seq!['U', 'S', '_', 'P', 'A', '_', 'R', 'E', 'S', 'E', 'L', 'L', 'E', 'R', '_', 'E', 'X', 'E', 'M', 'P', 'T', 'I', 'O', 'N'][3]);
        },
        TaxExemption::US_SC_RESELLER_EXEMPTION => {
            assert(seq!['U', 'S', '_', 'S', 'C', '_', 'R', 'E', 'S', 'E', 'L', 'L', 'E', 'R', '_', 'E', 'X', 'E', 'M', 'P', 'T', 'I', 'O', 'N'][0] != seq!['C', 'A', '_', 'B', 'C', '_', 'R', 'E', 'S', 'E', 'L', 'L', 'E', 'R', '_', 'E', 'X', 'E', 'M', 'P', 'T', 'I', 'O', 'N'][0]);
            assert(seq!['U', 'S', '_', 'S', 'C', '_', 'R', 'E', 'S', 'E', 'L', 'L', 'E', 'R', '_', 'E', 'X', 'E', 'M', 'P', 'T', 'I', 'O', 'N'][0] != seq!['C', 'A', '_', 'M', 'B', '_', 'R', 'E', 'S', 'E', 'L', 'L', 'E', 'R', '_', 'E', 'X', 'E', 'M', 'P', 'T', 'I', 'O', 'N'][0]);
            assert(seq!['U', 'S', '_', 'S', 'C', '_', 'R', 'E', 'S', 'E', 'L', 'L', 'E', 'R', '_', 'E', 'X', 'E', 'M', 'P', 'T', 'I', 'O', 'N'][0] != seq!['C', 'A', '_', 'O', 'N', '_', 'P', 'U', 'R', 'C', 'H', 'A', 'S', 'E', '_', 'E', 'X', 'E', 'M', 'P', 'T', 'I', 'O', 'N'][0]);
            assert(seq!['U', 'S', '_', 'S', 'C', '_', 'R', 'E', 'S', 'E', 'L', 'L', 'E', 'R', '_', 'E', 'X', 'E', 'M', 'P', 'T', 'I', 'O', 'N'][0] != seq!['C', 'A', '_', 'S', 'K', '_', 'R', 'E', 'S', 'E', 'L', 'L', 'E', 'R', '_', 'E', 'X', 'E', 'M', 'P', 'T', 'I', 'O', 'N'][0]);
            assert(seq!['U', 'S', '_', 'S', 'C', '_', 'R', 'E', 'S', 'E', 'L', 'L', 'E', 'R', '_', 'E', 'X', 'E', 'M', 'P', 'T', 'I', 'O', 'N'][0] != seq!['C', 'A', '_', 'S', 'T', 'A', 'T', 'U', 'S', '_', 'C', 'A', 'R', 'D', '_', 'E', 'X', 'E', 'M', 'P', 'T', 'I', 'O', 'N'][0]);
            assert(seq!['U', 'S', '_', 'S', 'C', '_', 'R', 'E', 'S', 'E', 'L', 'L', 'E', 'R', '_', 'E', 'X', 'E', 'M', 'P', 'T', 'I', 'O', 'N'][3] != seq!['U', 'S', '_', 'A', 'K', '_', 'R', 'E', 'S', 'E', 'L', 'L', 'E', 'R', '_', 'E', 'X', 'E', 'M', 'P', 'T', 'I', 'O', 'N'][3]);
            assert(seq!['U', 'S', '_', 'S', 'C', '_', 'R', 'E', 'S', 'E', 'L', 'L', 'E', 'R', '_', 'E', 'X', 'E', 'M', 'P', 'T', 'I', 'O', 'N'][3] != seq!['U', 'S', '_', 'A', 'L', '_', 'R', 'E', 'S', 'E', 'L', 'L', 'E', 'R', '_', 'E', 'X', 'E', 'M', 'P', 'T', 'I', 'O', 'N'][3]);
            assert(seq!['U', 'S', '_', 'S', 'C', '_', 'R', 'E', 'S', 'E', 'L', 'L', 'E', 'R', '_', 'E', 'X', 'E', 'M', 'P', 'T', 'I', 'O', 'N'][3] != seq!['U', 'S', '_', 'A', 'R', '_', 'R', 'E', 'S', 'E', 'L', 'L', 'E', 'R', '_', 'E', 'X', 'E', 'M', 'P', 'T', 'I', 'O', 'N'][3]);
            assert(seq!['U', 'S', '_', 'S', 'C', '_', 'R', 'E', 'S', 'E', 'L', 'L', 'E', 'R', '_', 'E', 'X', 'E', 'M', 'P', 'T', 'I', 'O', 'N'][3] != seq!['U', 'S', '_', 'A', 'Z', '_', 'R', 'E', 'S', 'E', 'L', 'L', 'E', 'R', '_', 'E', 'X', 'E', 'M', 'P', 'T', 'I', 'O', 'N'][3]);
            assert(seq!['U', 'S', '_', 'S', 'C', '_', 'R', 'E', 'S', 'E', 'L', 'L', 'E', 'R', '_', 'E', 'X', 'E', 'M', 'P', 'T', 'I', 'O', 'N'][3] != seq!['U', 'S', '_', 'C', 'A', '_', 'R', 'E', 'S', 'E', 'L', 'L', 'E', 'R', '_', 'E', 'X', 'E', 'M', 'P', 'T', 'I', 'O', 'N'][3]);
            assert(seq!['U', 'S', '_', 'S', 'C', '_', 'R', 'E', 'S', 'E', 'L', 'L', 'E', 'R', '_', 'E', 'X', 'E', 'M', 'P', 'T', 'I', 'O', 'N'][3] != seq!['U', 'S', '_', 'C', 'O', '_', 'R', 'E', 'S', 'E', 'L', 'L', 'E', 'R', '_', 'E', 'X', 'E', 'M', 'P', 'T', 'I', 'O', 'N'][3]);
            assert(seq!['U', 'S', '_', 'S', 'C', '_', 'R', 'E', 'S', 'E', 'L', 'L', 'E', 'R', '_', 'E', 'X', 'E', 'M', 'P', 'T', 'I', 'O', 'N'][3] != seq!['U', 'S', '_', 'C', 'T', '_', 'R', 'E', 'S', 'E', 'L', 'L', 'E', 'R', '_', 'E', 'X', 'E', 'M', 'P', 'T', 'I', 'O', 'N'][3]);
            assert(seq!['U', 'S', '_', 'S', 'C', '_', 'R', 'E', 'S', 'E', 'L', 'L', 'E', 'R', '_', 'E', 'X', 'E', 'M', 'P', 'T', 'I', 'O', 'N'][3] != seq!['U', 'S', '_', 'D', 'C', '_', 'R', 'E', 'S', 'E', 'L', 'L', 'E', 'R', '_', 'E', 'X', 'E', 'M', 'P', 'T', 'I', 'O', 'N'][3]);
            assert(seq!['U', 'S', '_', 'S', 'C', '_', 'R', 'E', 'S', 'E', 'L', 'L', 'E', 'R', '_', 'E', 'X', 'E', 'M', 'P', 'T', 'I', 'O', 'N'][3] != seq!['U', 'S', '_', 'D', 'E', '_', 'R', 'E', 'S', 'E', 'L', 'L', 'E', 'R', '_', 'E', 'X', 'E', 'M', 'P', 'T', 'I', 'O', 'N'][3]);
            assert(seq!['U', 'S', '_', 'S', 'C', '_', 'R', 'E', 'S', 'E', 'L', 'L', 'E', 'R', '_', 'E', 'X', 'E', 'M', 'P', 'T', 'I', 'O', 'N'][3] != seq!['U', 'S', '_', 'F', 'L', '_', 'R', 'E', 'S', 'E', 'L', 'L', 'E', 'R', '_', 'E', 'X', 'E', 'M', 'P', 'T', 'I', 'O', 'N'][3]);
            assert(seq!['U', 'S', '_', 'S', 'C', '_', 'R', 'E', 'S', 'E', 'L', 'L', 'E', 'R', '_', 'E', 'X', 'E', 'M', 'P', 'T', 'I', 'O', 'N'][3] != seq!['U', 'S', '_', 'G', 'A', '_', 'R', 'E', 'S', 'E', 'L', 'L', 'E', 'R', '_', 'E', 'X', 'E', 'M', 'P', 'T', 'I', 'O', 'N'][3]);
            assert(seq!['U', 'S', '_', 'S', 'C', '_', 'R', 'E', 'S', 'E', 'L', 'L', 'E', 'R', '_', 'E', 'X', 'E', 'M', 'P', 'T', 'I', 'O', 'N'][3] != seq!['U', 'S', '_', 'H', 'I', '_', 'R', 'E', 'S', 'E', 'L', 'L', 'E', 'R', '_', 'E', 'X', 'E', 'M', 'P', 'T', 'I', 'O', 'N'][3]);
            assert(seq!['U', 'S', '_', 'S', 'C', '_', 'R', 'E', 'S', 'E', 'L', 'L', 'E', 'R', '_', 'E', 'X', 'E', 'M', 'P', 'T', 'I', 'O', 'N'][3] != seq!['U', 'S', '_', 'I', 'A', '_', 'R', 'E', 'S', 'E', 'L', 'L', 'E', 'R', '_', 'E', 'X', 'E', 'M', 'P', 'T', 'I', 'O', 'N'][3]);
            assert(seq!['U', 'S', '_', 'S', 'C', '_', 'R', 'E', 'S', 'E', 'L', 'L', 'E', 'R', '_', 'E', 'X', 'E', 'M', 'P', 'T', 'I', 'O', 'N'][3] != seq!['U', 'S', '_', 'I', 'D', '_', 'R', 'E', 'S', 'E', 'L', 'L', 'E', 'R', '_', 'E', 'X', 'E', 'M', 'P', 'T', 'I', 'O', 'N'][3]);
            assert(seq!['U', 'S', '_', 'S', 'C', '_', 'R', 'E', 'S', 'E', 'L', 'L', 'E', 'R', '_', 'E', 'X', 'E', 'M', 'P', 'T', 'I', 'O', 'N'][3] != seq!['U', 'S', '_', 'I', 'L', '_', 'R', 'E', 'S', 'E', 'L', 'L', 'E', 'R', '_', 'E', 'X', 'E', 'M', 'P', 'T', 'I', 'O', 'N'][3]);
            assert(seq!['U', 'S', '_', 'S', 'C', '_', 'R', 'E', 'S', 'E', 'L', 'L', 'E', 'R', '_', 'E', 'X', 'E', 'M', 'P', 'T', 'I', 'O', 'N'][3] != seq!['U', 'S', '_', 'I', 'N', '_', 'R', 'E', 'S', 'E', 'L', 'L', 'E', 'R', '_', 'E', 'X', 'E', 'M', 'P', 'T', 'I', 'O', 'N'][3]);
            assert(seq!['U', 'S', '_', 'S', 'C', '_', 'R', 'E', 'S', 'E', 'L', 'L', 'E', 'R', '_', 'E', 'X', 'E', 'M', 'P', 'T', 'I', 'O', 'N'][3] != seq!['U', 'S', '_', 'K', 'S', '_', 'R', 'E', 'S', 'E', 'L', 'L', 'E', 'R', '_', 'E', 'X', 'E', 'M', 'P', 'T', 'I', 'O', 'N'][3]);
            assert(seq!['U', 'S', '_', 'S', 'C', '_', 'R', 'E', 'S', 'E', 'L', 'L', 'E', 'R', '_', 'E', 'X', 'E', 'M', 'P', 'T', 'I', 'O', 'N'][3] != seq!['U', 'S', '_', 'K', 'Y', '_', 'R', 'E', 'S', 'E', 'L', 'L', 'E', 'R', '_', 'E', 'X', 'E', 'M', 'P', 'T', 'I', 'O', 'N'][3]);
            assert(seq!['U', 'S', '_', 'S', 'C', '_', 'R', 'E', 'S', 'E', 'L', 'L', 'E', 'R', '_', 'E', 'X', 'E', 'M', 'P', 'T', 'I', 'O', 'N'][3] != seq!['U', 'S', '_', 'L', 'A', '_', 'R', 'E', 'S', 'E', 'L', 'L', 'E', 'R', '_', 'E', 'X', 'E', 'M', 'P', 'T', 'I', 'O', 'N'][3]);
            assert(seq!['U', 'S', '_', 'S', 'C', '_', 'R', 'E', 'S', 'E', 'L', 'L', 'E', 'R', '_', 'E', 'X', 'E', 'M', 'P', 'T', 'I', 'O', 'N'][3] != seq!['U', 'S', '_', 'M', 'A', '_', 'R', 'E', 'S', 'E', 'L', 'L', 'E', 'R', '_', 'E', 'X', 'E', 'M', 'P', 'T', 'I', 'O', 'N'][3]);
            assert(seq!['U', 'S', '_', 'S', 'C', '_', 'R', 'E', 'S', 'E', 'L', 'L', 'E', 'R', '_', 'E', 'X', 'E', 'M', 'P', 'T', 'I', 'O', 'N'][3] != seq!['U', 'S', '_', 'M', 'D', '_', 'R', 'E', 'S', 'E', 'L', 'L', 'E', 'R', '_', 'E', 'X', 'E', 'M', 'P', 'T', 'I', 'O', 'N'][3]);
            assert(seq!['U', 'S', '_', 'S', 'C', '_', 'R', 'E', 'S', 'E', 'L', 'L', 'E', 'R', '_', 'E', 'X', 'E', 'M', 'P', 'T', 'I', 'O', 'N'][3] != seq!['U', 'S', '_', 'M', 'E', '_', 'R', 'E', 'S', 'E', 'L', 'L', 'E', 'R', '_', 'E', 'X', 'E', 'M', 'P', 'T', 'I', 'O', 'N'][3]);
            assert(seq!['U', 'S', '_', 'S', 'C', '_', 'R', 'E', 'S', 'E', 'L', 'L', 'E', 'R', '_', 'E', 'X', 'E', 'M', 'P', 'T', 'I', 'O', 'N'][3] != seq!['U', 'S', '_', 'M', 'I', '_', 'R', 'E', 'S', 'E', 'L', 'L', 'E', 'R', '_', 'E', 'X', 'E', 'M', 'P', 'T', 'I', 'O', 'N'][3]);
            assert(seq!['U', 'S', '_', 'S', 'C', '_', 'R', 'E', 'S', 'E', 'L', 'L', 'E', 'R', '_', 'E', 'X', 'E', 'M', 'P', 'T', 'I', 'O', 'N'][3] != seq!['U', 'S', '_', 'M', 'N', '_', 'R', 'E', 'S', 'E', 'L', 'L', 'E', 'R', '_', 'E', 'X', 'E', 'M', 'P', 'T', 'I', 'O', 'N'][3]);
            assert(seq!['U', 'S', '_', 'S', 'C', '_', 'R', 'E', 'S', 'E', 'L', 'L', 'E', 'R', '_', 'E', 'X', 'E', 'M', 'P', 'T', 'I', 'O', 'N'][3] != seq!['U', 'S', '_', 'M', 'O', '_', 'R', 'E', 'S', 'E', 'L', 'L', 'E', 'R', '_', 'E', 'X', 'E', 'M', 'P', 'T', 'I', 'O', 'N'][3]);
            assert(seq!['U', 'S', '_', 'S', 'C', '_', 'R', 'E', 'S', 'E', 'L', 'L', 'E', 'R', '_', 'E', 'X', 'E', 'M', 'P', 'T', 'I', 'O', 'N'][3] != seq!['U', 'S', '_', 'M', 'S', '_', 'R', 'E', 'S', 'E', 'L', 'L', 'E', 'R', '_', 'E', 'X', 'E', 'M', 'P', 'T', 'I', 'O', 'N'][3]);
            assert(seq!['U', 'S', '_', 'S', 'C', '_', 'R', 'E', 'S', 'E', 'L', 'L', 'E', 'R', '_', 'E', 'X', 'E', 'M', 'P', 'T', 'I', 'O', 'N'][3] != seq!['U', 'S', '_', 'M', 'T', '_', 'R', 'E', 'S', 'E', 'L', 'L', 'E', 'R', '_', 'E', 'X', 'E', 'M', 'P', 'T', 'I', 'O', 'N'][3]);
            assert(seq!['U', 'S', '_', 'S', 'C', '_', 'R', 'E', 'S', 'E', 'L', 'L', 'E', 'R', '_', 'E', 'X', 'E', 'M', 'P', 'T', 'I', 'O', 'N'][3] != seq!['U', 'S', '_', 'N', 'C', '_', 'R', 'E', 'S', 'E', 'L', 'L', 'E', 'R', '_', 'E', 'X', 'E', 'M', 'P', 'T', 'I', 'O', 'N'][3]);
            assert(seq!['U', 'S', '_', 'S', 'C', '_', 'R', 'E', 'S', 'E', 'L', 'L', 'E', 'R', '_', 'E', 'X', 'E', 'M', 'P', 'T', 'I', 'O', 'N'][3] != seq!['U', 'S', '_', 'N', 'D', '_', 'R', 'E', 'S', 'E', 'L', 'L', 'E', 'R', '_', 'E', 'X', 'E', 'M', 'P', 'T', 'I', 'O', 'N'][3]);
            assert(seq!['U', 'S', '_', 'S', 'C', '_', 'R', 'E', 'S', 'E', 'L', 'L', 'E', 'R', '_', 'E', 'X', 'E', 'M', 'P', 'T', 'I', 'O', 'N'][3] != seq!['U', 'S', '_', 'N', 'E', '_', 'R', 'E', 'S', 'E', 'L', 'L', 'E', 'R', '_', 'E', 'X', 'E', 'M', 'P', 'T', 'I', 'O', 'N'][3]);
            assert(seq!['U', 'S', '_', 'S', 'C', '_', 'R', 'E', 'S', 'E', 'L', 'L', 'E', 'R', '_', 'E', 'X', 'E', 'M', 'P', 'T', 'I', 'O', 'N'][3] != seq!['U', 'S', '_', 'N', 'H', '_', 'R', 'E', 'S', 'E', 'L', 'L', 'E', 'R', '_', 'E', 'X', 'E', 'M', 'P', 'T', 'I', 'O', 'N'][3]);
            assert(seq!['U', 'S', '_', 'S', 'C', '_', 'R', 'E', 'S', 'E', 'L', 'L', 'E', 'R', '_', 'E', 'X', 'E', 'M', 'P', 'T', 'I', 'O', 'N'][3] != seq!['U', 'S', '_', 'N', 'J', '_', 'R', 'E', 'S', 'E', 'L', 'L', 'E', 'R', '_', 'E', 'X', 'E', 'M', 'P', 'T', 'I', 'O', 'N'][3]);
            assert(seq!['U', 'S', '_', 'S', 'C', '_', 'R', 'E', 'S', 'E', 'L', 'L', 'E', 'R', '_', 'E', 'X', 'E', 'M', 'P', 'T', 'I', 'O', 'N'][3] != seq!['U', 'S', '_', 'N', 'M', '_', 'R', 'E', 'S', 'E', 'L', 'L', 'E', 'R', '_', 'E', 'X', 'E', 'M', 'P', 'T', 'I', 'O', 'N'][3]);
            assert(seq!['U', 'S', '_', 'S', 'C', '_', 'R', 'E', 'S', 'E', 'L', 'L', 'E', 'R', '_', 'E', 'X', 'E', 'M', 'P', 'T', 'I', 'O', 'N'][3] != seq!['U', 'S', '_', 'N', 'V', '_', 'R', 'E', 'S', 'E', 'L', 'L', 'E', 'R', '_', 'E', 'X', 'E', 'M', 'P', 'T', 'I', 'O', 'N'][3]);
            assert(seq!['U', 'S', '_', 'S', 'C', '_', 'R', 'E', 'S', 'E', 'L', 'L', 'E', 'R', '_', 'E', 'X', 'E', 'M', 'P', 'T', 'I', 'O', 'N'][3] != seq!['U', 'S', '_', 'N', 'Y', '_', 'R', 'E', 'S', 'E', 'L', 'L', 'E', 'R', '_', 'E', 'X', 'E', 'M', 'P', 'T', 'I', 'O', 'N'][3]);
            assert(seq!['U', 'S', '_', 'S', 'C', '_', 'R', 'E', 'S', 'E', 'L', 'L', 'E', 'R', '_', 'E', 'X', 'E', 'M', 'P', 'T', 'I', 'O', 'N'][3] != seq!['U', 'S', '_', 'O', 'H', '_', 'R', 'E', 'S', 'E', 'L', 'L', 'E', 'R', '_', 'E', 'X', 'E', 'M', 'P', 'T', 'I', 'O', 'N'][3]);
            assert(seq!['U', 'S', '_', 'S', 'C', '_', 'R', 'E', 'S', 'E', 'L', 'L', 'E', 'R', '_', 'E', 'X', 'E', 'M', 'P', 'T', 'I', 'O', 'N'][3] != seq!['U', 'S', '_', 'O', 'K', '_', 'R', 'E', 'S', 'E', 'L', 'L', 'E', 'R', '_', 'E', 'X', 'E', 'M', 'P', 'T', 'I', 'O', 'N'][3]);
            assert(seq!['U', 'S', '_', 'S', 'C', '_', 'R', 'E', 'S', 'E', 'L', 'L', 'E', 'R', '_', 'E', 'X', 'E', 'M', 'P', 'T', 'I', 'O', 'N'][3] != seq!['U', 'S', '_', 'O', 'R', '_', 'R', 'E', 'S', 'E', 'L', 'L', 'E', 'R', '_', 'E', 'X', 'E', 'M', 'P', 'T', 'I', 'O', 'N'][3]);
            assert(seq!['U', 'S', '_', 'S', 'C', '_', 'R', 'E', 'S', 'E', 'L', 'L', 'E', 'R', '_', 'E', 'X', 'E', 'M', 'P', 'T', 'I', 'O', 'N'][3] != seq!['U', 'S', '_', 'P', 'A', '_', 'R', 'E', 'S', 'E', 'L', 'L', 'E', 'R', '_', 'E', 'X', 'E', 'M', 'P', 'T', 'I', 'O', 'N'][3]);
            assert(seq!['U', 'S', '_', 'S', 'C', '_', 'R', 'E', 'S', 'E', 'L', 'L', 'E', 'R', '_', 'E', 'X', 'E', 'M', 'P', 'T', 'I', 'O', 'N'][3] != seq!['U', 'S', '_', 'R', 'I', '_', 'R', 'E', 'S', 'E', 'L', 'L', 'E', 'R', '_', 'E', 'X', 'E', 'M', 'P', 'T', 'I', 'O', 'N'][3]);
        },
        TaxExemption::US_SD_RESELLER_EXEMPTION => {
            assert(seq!['U', 'S', '_', 'S', 'D', '_', 'R', 'E', 'S', 'E', 'L', 'L', 'E', 'R', '_', 'E', 'X', 'E', 'M', 'P', 'T', 'I', 'O', 'N'][0] != seq!['C', 'A', '_', 'B', 'C', '_', 'R', 'E', 'S', 'E', 'L', 'L', 'E', 'R', '_', 'E', 'X', 'E', 'M', 'P', 'T', 'I', 'O', 'N'][0]);
            assert(seq!['U', 'S', '_', 'S', 'D', '_', 'R', 'E', 'S', 'E', 'L', 'L', 'E', 'R', '_', 'E', 'X', 'E', 'M', 'P', 'T', 'I', 'O', 'N'][0] != seq!['C', 'A', '_', 'M', 'B', '_', 'R', 'E', 'S', 'E', 'L', 'L', 'E', 'R', '_', 'E', 'X', 'E', 'M', 'P', 'T', 'I', 'O', 'N'][0]);
            assert(seq!['U', 'S', '_', 'S', 'D', '_', 'R', 'E', 'S', 'E', 'L', 'L', 'E', 'R', '_', 'E', 'X', 'E', 'M', 'P', 'T', 'I', 'O', 'N'][0] != seq!['C', 'A', '_', 'O', 'N', '_', 'P', 'U', 'R', 'C', 'H', 'A', 'S', 'E', '_', 'E', 'X', 'E', 'M', 'P', 'T', 'I', 'O', 'N'][0]);
            assert(seq!['U', 'S', '_', 'S', 'D', '_', 'R', 'E', 'S', 'E', 'L', 'L', 'E', 'R', '_', 'E', 'X', 'E', 'M', 'P', 'T', 'I', 'O', 'N'][0] != seq!['C', 'A', '_', 'S', 'K', '_', 'R', 'E', 'S', 'E', 'L', 'L', 'E', 'R', '_', 'E', 'X', 'E', 'M', 'P', 'T', 'I', 'O', 'N'][0]);
            assert(seq!['U', 'S', '_', 'S', 'D', '_', 'R', 'E', 'S', 'E', 'L', 'L', 'E', 'R', '_', 'E', 'X', 'E', 'M', 'P', 'T', 'I', 'O', 'N'][0] != seq!['C', 'A', '_', 'S', 'T', 'A', 'T', 'U', 'S', '_', 'C', 'A', 'R', 'D', '_', 'E', 'X', 'E', 'M', 'P', 'T', 'I', 'O', 'N'][0]);
            assert(seq!['U', 'S', '_', 'S', 'D', '_', 'R', 'E', 'S', 'E', 'L', 'L', 'E', 'R', '_', 'E', 'X', 'E', 'M', 'P', 'T', 'I', 'O', 'N'][3] != seq!['U', 'S', '_', 'A', 'K', '_', 'R', 'E', 'S', 'E', 'L', 'L', 'E', 'R', '_', 'E', 'X', 'E', 'M', 'P', 'T', 'I', 'O', 'N'][3]);
            assert(seq!['U', 'S', '_', 'S', 'D', '_', 'R', 'E', 'S', 'E', 'L', 'L', 'E', 'R', '_', 'E', 'X', 'E', 'M', 'P', 'T', 'I', 'O', 'N'][3] != seq!['U', 'S', '_', 'A', 'L', '_', 'R', 'E', 'S', 'E', 'L', 'L', 'E', 'R', '_', 'E', 'X', 'E', 'M', 'P', 'T', 'I', 'O', 'N'][3]);
            assert(seq!['U', 'S', '_', 'S', 'D', '_', 'R', 'E', 'S', 'E', 'L', 'L', 'E', 'R', '_', 'E', 'X', 'E', 'M', 'P', 'T', 'I', 'O', 'N'][3] != seq!['U', 'S', '_', 'A', 'R', '_', 'R', 'E', 'S', 'E', 'L', 'L', 'E', 'R', '_', 'E', 'X', 'E', 'M', 'P', 'T', 'I', 'O', 'N'][3]);
            assert(seq!['U', 'S', '_', 'S', 'D', '_', 'R', 'E', 'S', 'E', 'L', 'L', 'E', 'R', '_', 'E', 'X', 'E', 'M', 'P', 'T', 'I', 'O', 'N'][3] != seq!['U', 'S', '_', 'A', 'Z', '_', 'R', 'E', 'S', 'E', 'L', 'L', 'E', 'R', '_', 'E', 'X', 'E', 'M', 'P', 'T', 'I', 'O', 'N'][3]);
            assert(seq!['U', 'S', '_', 'S', 'D', '_', 'R', 'E', 'S', 'E', 'L', 'L', 'E', 'R', '_', 'E', 'X', 'E', 'M', 'P', 'T', 'I', 'O', 'N'][3] != seq!['U', 'S', '_', 'C', 'A', '_', 'R', 'E', 'S', 'E', 'L', 'L', 'E', 'R', '_', 'E', 'X', 'E', 'M', 'P', 'T', 'I', 'O', 'N'][3]);
            assert(seq!['U', 'S', '_', 'S', 'D', '_', 'R', 'E', 'S', 'E', 'L', 'L', 'E', 'R', '_', 'E', 'X', 'E', 'M', 'P', 'T', 'I', 'O', 'N'][3] != seq!['U', 'S', '_', 'C', 'O', '_', 'R', 'E', 'S', 'E', 'L', 'L', 'E', 'R', '_', 'E', 'X', 'E', 'M', 'P', 'T', 'I', 'O', 'N'][3]);
            assert(seq!['U', 'S', '_', 'S', 'D', '_', 'R', 'E', 'S', 'E', 'L', 'L', 'E', 'R', '_', 'E', 'X', 'E', 'M', 'P', 'T', 'I', 'O', 'N'][3] != seq!['U', 'S', '_', 'C', 'T', '_', 'R', 'E', 'S', 'E', 'L', 'L', 'E', 'R', '_', 'E', 'X', 'E', 'M', 'P', 'T', 'I', 'O', 'N'][3]);
            assert(seq!['U', 'S', '_', 'S', 'D', '_', 'R', 'E', 'S', 'E', 'L', 'L', 'E', 'R', '_', 'E', 'X', 'E', 'M', 'P', 'T', 'I', 'O', 'N'][3] != seq!['U', 'S', '_', 'D', 'C', '_', 'R', 'E', 'S', 'E', 'L', 'L', 'E', 'R', '_', 'E', 'X', 'E', 'M', 'P', 'T', 'I', 'O', 'N'][3]);
            assert(seq!['U', 'S', '_', 'S', 'D', '_', 'R', 'E', 'S', 'E', 'L', 'L', 'E', 'R', '_', 'E', 'X', 'E', 'M', 'P', 'T', 'I', 'O', 'N'][3] != seq!['U', 'S', '_', 'D', 'E', '_', 'R', 'E', 'S', 'E', 'L', 'L', 'E', 'R', '_', 'E', 'X', 'E', 'M', 'P', 'T', 'I', 'O', 'N'][3]);
            assert(seq!['U', 'S', '_', 'S', 'D', '_', 'R', 'E', 'S', 'E', 'L', 'L', 'E', 'R', '_', 'E', 'X', 'E', 'M', 'P', 'T', 'I', 'O', 'N'][3] != seq!['U', 'S', '_', 'F', 'L', '_', 'R', 'E', 'S', 'E', 'L', 'L', 'E', 'R', '_', 'E', 'X', 'E', 'M', 'P', 'T', 'I', 'O', 'N'][3]);
            assert(seq!['U', 'S', '_', 'S', 'D', '_', 'R', 'E', 'S', 'E', 'L', 'L', 'E', 'R', '_', 'E', 'X', 'E', 'M', 'P', 'T', 'I', 'O', 'N'][3] != seq!['U', 'S', '_', 'G', 'A', '_', 'R', 'E', 'S', 'E', 'L', 'L', 'E', 'R', '_', 'E', 'X', 'E', 'M', 'P', 'T', 'I', 'O', 'N'][3]);
            assert(seq!['U', 'S', '_', 'S', 'D', '_', 'R', 'E', 'S', 'E', 'L', 'L', 'E', 'R', '_', 'E', 'X', 'E', 'M', 'P', 'T', 'I', 'O', 'N'][3] != seq!['U', 'S', '_', 'H', 'I', '_', 'R', 'E', 'S', 'E', 'L', 'L', 'E', 'R', '_', 'E', 'X', 'E', 'M', 'P', 'T', 'I', 'O', 'N'][3]);
            assert(seq!['U', 'S', '_', 'S', 'D', '_', 'R', 'E', 'S', 'E', 'L', 'L', 'E', 'R', '_', 'E', 'X', 'E', 'M', 'P', 'T', 'I', 'O', 'N'][3] != seq!['U', 'S', '_', 'I', 'A', '_', 'R', 'E', 'S', 'E', 'L', 'L', 'E', 'R', '_', 'E', 'X', 'E', 'M', 'P', 'T', 'I', 'O', 'N'][3]);
            assert(seq!['U', 'S', '_', 'S', 'D', '_', 'R', 'E', 'S', 'E', 'L', 'L', 'E', 'R', '_', 'E', 'X', 'E', 'M', 'P', 'T', 'I', 'O', 'N'][3] != seq!['U', 'S', '_', 'I', 'D', '_', 'R', 'E', 'S', 'E', 'L', 'L', 'E', 'R', '_', 'E', 'X', 'E', 'M', 'P', 'T', 'I', 'O', 'N'][3]);
            assert(seq!['U', 'S', '_', 'S', 'D', '_', 'R', 'E', 'S', 'E', 'L', 'L', 'E', 'R', '_', 'E', 'X', 'E', 'M', 'P', 'T', 'I', 'O', 'N'][3] != seq!['U', 'S', '_', 'I', 'L', '_', 'R', 'E', 'S', 'E', 'L', 'L', 'E', 'R', '_', 'E', 'X', 'E', 'M', 'P', 'T', 'I', 'O', 'N'][3]);
            assert(seq!['U', 'S', '_', 'S', 'D', '_', 'R', 'E', 'S', 'E', 'L', 'L', 'E', 'R', '_', 'E', 'X', 'E', 'M', 'P', 'T', 'I', 'O', 'N'][3] != seq!['U', 'S', '_', 'I', 'N', '_', 'R', 'E', 'S', 'E', 'L', 'L', 'E', 'R', '_', 'E', 'X', 'E', 'M', 'P', 'T', 'I', 'O', 'N'][3]);
            assert(seq!['U', 'S', '_', 'S', 'D', '_', 'R', 'E', 'S', 'E', 'L', 'L', 'E', 'R', '_', 'E', 'X', 'E', 'M', 'P', 'T', 'I', 'O', 'N'][3] != seq!['U', 'S', '_', 'K', 'S', '_', 'R', 'E', 'S', 'E', 'L', 'L', 'E', 'R', '_', 'E', 'X', 'E', 'M', 'P', 'T', 'I', 'O', 'N'][3]);
            assert(seq!['U', 'S', '_', 'S', 'D', '_', 'R', 'E', 'S', 'E', 'L', 'L', 'E', 'R', '_', 'E', 'X', 'E', 'M', 'P', 'T', 'I', 'O', 'N'][3] != seq!['U', 'S', '_', 'K', 'Y', '_', 'R', 'E', 'S', 'E', 'L', 'L', 'E', 'R', '_', 'E', 'X', 'E', 'M', 'P', 'T', 'I', 'O', 'N'][3]);
            assert(seq!['U', 'S', '_', 'S', 'D', '_', 'R', 'E', 'S', 'E', 'L', 'L', 'E', 'R', '_', 'E', 'X', 'E', 'M', 'P', 'T', 'I', 'O', 'N'][3] != seq!['U', 'S', '_', 'L', 'A', '_', 'R', 'E', 'S', 'E', 'L', 'L', 'E', 'R', '_', 'E', 'X', 'E', 'M', 'P', 'T', 'I', 'O', 'N'][3]);
            assert(seq!['U', 'S', '_', 'S', 'D', '_', 'R', 'E', 'S', 'E', 'L', 'L', 'E', 'R', '_', 'E', 'X', 'E', 'M', 'P', 'T', 'I', 'O', 'N'][3] != seq!['U', 'S', '_', 'M', 'A', '_', 'R', 'E', 'S', 'E', 'L', 'L', 'E', 'R', '_', 'E', 'X', 'E', 'M', 'P', 'T', 'I', 'O', 'N'][3]);
            assert(seq!['U', 'S', '_', 'S', 'D', '_', 'R', 'E', 'S', 'E', 'L', 'L', 'E', 'R', '_', 'E', 'X', 'E', 'M', 'P', 'T', 'I', 'O', 'N'][3] != seq!['U', 'S', '_', 'M', 'D', '_', 'R', 'E', 'S', 'E', 'L', 'L', 'E', 'R', '_', 'E', 'X', 'E', 'M', 'P', 'T', 'I', 'O', 'N'][3]);
            assert(seq!['U', 'S', '_', 'S', 'D', '_', 'R', 'E', 'S', 'E', 'L', 'L', 'E', 'R', '_', 'E', 'X', 'E', 'M', 'P', 'T', 'I', 'O', 'N'][3] != seq!['U', 'S', '_', 'M', 'E', '_', 'R', 'E', 'S', 'E', 'L', 'L', 'E', 'R', '_', 'E', 'X', 'E', 'M', 'P', 'T', 'I', 'O', 'N'][3]);
            assert(seq!['U', 'S', '_', 'S', 'D', '_', 'R', 'E', 'S', 'E', 'L', 'L', 'E', 'R', '_', 'E', 'X', 'E', 'M', 'P', 'T', 'I', 'O', 'N'][3] != seq!['U', 'S', '_', 'M', 'I', '_', 'R', 'E', 'S', 'E', 'L', 'L', 'E', 'R', '_', 'E', 'X', 'E', 'M', 'P', 'T', 'I', 'O', 'N'][3]);
            assert(seq!['U', 'S', '_', 'S', 'D', '_', 'R', 'E', 'S', 'E', 'L', 'L', 'E', 'R', '_', 'E', 'X', 'E', 'M', 'P', 'T', 'I', 'O', 'N'][3] != seq!['U', 'S', '_', 'M', 'N', '_', 'R', 'E', 'S', 'E', 'L', 'L', 'E', 'R', '_', 'E', 'X', 'E', 'M', 'P', 'T', 'I', 'O', 'N'][3]);
            assert(seq!['U', 'S', '_', 'S', 'D', '_', 'R', 'E', 'S', 'E', 'L', 'L', 'E', 'R', '_', 'E', 'X', 'E', 'M', 'P', 'T', 'I', 'O', 'N'][3] != seq!['U', 'S', '_', 'M', 'O', '_', 'R', 'E', 'S', 'E', 'L', 'L', 'E', 'R', '_', 'E', 'X', 'E', 'M', 'P', 'T', 'I', 'O', 'N'][3]);
            assert(seq!['U', 'S', '_', 'S', 'D', '_', 'R', 'E', 'S', 'E', 'L', 'L', 'E', 'R', '_', 'E', 'X', 'E', 'M', 'P', 'T', 'I', 'O', 'N'][3] != seq!['U', 'S', '_', 'M', 'S', '_', 'R', 'E', 'S', 'E', 'L', 'L', 'E', 'R', '_', 'E', 'X', 'E', 'M', 'P', 'T', 'I', 'O', 'N'][3]);
            assert(seq!['U', 'S', '_', 'S', 'D', '_', 'R', 'E', 'S', 'E', 'L', 'L', 'E', 'R', '_', 'E', 'X', 'E', 'M', 'P', 'T', 'I', 'O', 'N'][3] != seq!['U', 'S', '_', 'M', 'T', '_', 'R', 'E', 'S', 'E', 'L', 'L', 'E', 'R', '_', 'E', 'X', 'E', 'M', 'P', 'T', 'I', 'O', 'N'][3]);
            assert(seq!['U', 'S', '_', 'S', 'D', '_', 'R', 'E', 'S', 'E', 'L', 'L', 'E', 'R', '_', 'E', 'X', 'E', 'M', 'P', 'T', 'I', 'O', 'N'][3] != seq!['U', 'S', '_', 'N', 'C', '_', 'R', 'E', 'S', 'E', 'L', 'L', 'E', 'R', '_', 'E', 'X', 'E', 'M', 'P', 'T', 'I', 'O', 'N'][3]);
            assert(seq!['U', 'S', '_', 'S', 'D', '_', 'R', 'E', 'S', 'E', 'L', 'L', 'E', 'R', '_', 'E', 'X', 'E', 'M', 'P', 'T', 'I', 'O', 'N'][3] != seq!['U', 'S', '_', 'N', 'D', '_', 'R', 'E', 'S', 'E', 'L', 'L', 'E', 'R', '_', 'E', 'X', 'E', 'M', 'P', 'T', 'I', 'O', 'N'][3]);
            assert(seq!['U', 'S', '_', 'S', 'D', '_', 'R', 'E', 'S', 'E', 'L', 'L', 'E', 'R', '_', 'E', 'X', 'E', 'M', 'P', 'T', 'I', 'O', 'N'][3] != seq!['U', 'S', '_', 'N', 'E', '_', 'R', 'E', 'S', 'E', 'L', 'L', 'E', 'R', '_', 'E', 'X', 'E', 'M', 'P', 'T', 'I', 'O', 'N'][3]);
            assert(seq!['U', 'S', '_', 'S', 'D', '_', 'R', 'E', 'S', 'E', 'L', 'L', 'E', 'R', '_', 'E', 'X', 'E', 'M', 'P', 'T', 'I', 'O', 'N'][3] != seq!['U', 'S', '_', 'N', 'H', '_', 'R', 'E', 'S', 'E', 'L', 'L', 'E', 'R', '_', 'E', 'X', 'E', 'M', 'P', 'T', 'I', 'O', 'N'][3]);
            assert(seq!['U', 'S', '_', 'S', 'D', '_', 'R', 'E', 'S', 'E', 'L', 'L', 'E', 'R', '_', 'E', 'X', 'E', 'M', 'P', 'T', 'I', 'O', 'N'][3] != seq!['U', 'S', '_', 'N', 'J', '_', 'R', 'E', 'S', 'E', 'L', 'L', 'E', 'R', '_', 'E', 'X', 'E', 'M', 'P', 'T', 'I', 'O', 'N'][3]);
            assert(seq!['U', 'S', '_', 'S', 'D', '_', 'R', 'E', 'S', 'E', 'L', 'L', 'E', 'R', '_', 'E', 'X', 'E', 'M', 'P', 'T', 'I', 'O', 'N'][3] != seq!['U', 'S', '_', 'N', 'M', '_', 'R', 'E', 'S', 'E', 'L', 'L', 'E', 'R', '_', 'E', 'X', 'E', 'M', 'P', 'T', 'I', 'O', 'N'][3]);
            assert(seq!['U', 'S', '_', 'S', 'D', '_', 'R', 'E', 'S', 'E', 'L', 'L', 'E', 'R', '_', 'E', 'X', 'E', 'M', 'P', 'T', 'I', 'O', 'N'][3] != seq!['U', 'S', '_', 'N', 'V', '_', 'R', 'E', 'S', 'E', 'L', 'L', 'E', 'R', '_', 'E', 'X', 'E', 'M', 'P', 'T', 'I', 'O', 'N'][3]);
            assert(seq!['U', 'S', '_', 'S', 'D', '_', 'R', 'E', 'S', 'E', 'L', 'L', 'E', 'R', '_', 'E', 'X', 'E', 'M', 'P', 'T', 'I', 'O', 'N'][3] != seq!['U', 'S', '_', 'N', 'Y', '_', 'R', 'E', 'S', 'E', 'L', 'L', 'E', 'R', '_', 'E', 'X', 'E', 'M', 'P', 'T', 'I', 'O', 'N'][3]);
            assert(seq!['U', 'S', '_', 'S', 'D', '_', 'R', 'E', 'S', 'E', 'L', 'L', 'E', 'R', '_', 'E', 'X', 'E', 'M', 'P', 'T', 'I', 'O', 'N'][3] != seq!['U', 'S', '_', 'O', 'H', '_', 'R', 'E', 'S', 'E', 'L', 'L', 'E', 'R', '_', 'E', 'X', 'E', 'M', 'P', 'T', 'I', 'O', 'N'][3]);
            assert(seq!['U', 'S', '_', 'S', 'D', '_', 'R', 'E', 'S', 'E', 'L', 'L', 'E', 'R', '_', 'E', 'X', 'E', 'M', 'P', 'T', 'I', 'O', 'N'][3] != seq!['U', 'S', '_', 'O', 'K', '_', 'R', 'E', 'S', 'E', 'L', 'L', 'E', 'R', '_', 'E', 'X', 'E', 'M', 'P', 'T', 'I', 'O', 'N'][3]);
            assert(seq!['U', 'S', '_', 'S', 'D', '_', 'R', 'E', 'S', 'E', 'L', 'L', 'E', 'R', '_', 'E', 'X', 'E', 'M', 'P', 'T', 'I', 'O', 'N'][3] != seq!['U', 'S', '_', 'O', 'R', '_', 'R', 'E', 'S', 'E', 'L', 'L', 'E', 'R', '_', 'E', 'X', 'E', 'M', 'P', 'T', 'I', 'O', 'N'][3]);
            assert(seq!['U', 'S', '_', 'S', 'D', '_', 'R', 'E', 'S', 'E', 'L', 'L', 'E', 'R', '_', 'E', 'X', 'E', 'M', 'P', 'T', 'I', 'O', 'N'][3] != seq!['U', 'S', '_', 'P', 'A', '_', 'R', 'E', 'S', 'E', 'L', 'L', 'E', 'R', '_', 'E', 'X', 'E', 'M', 'P', 'T', 'I', 'O', 'N'][3]);
            assert(seq!['U', 'S', '_', 'S', 'D', '_', 'R', 'E', 'S', 'E', 'L', 'L', 'E', 'R', '_', 'E', 'X', 'E', 'M', 'P', 'T', 'I', 'O', 'N'][3] != seq!['U', 'S', '_', 'R', 'I', '_', 'R', 'E', 'S', 'E', 'L', 'L', 'E', 'R', '_', 'E', 'X', 'E', 'M', 'P', 'T', 'I', 'O', 'N'][3]);
            assert(seq!['U', 'S', '_', 'S', 'D', '_', 'R', 'E', 'S', 'E', 'L', 'L', 'E', 'R', '_', 'E', 'X', 'E', 'M', 'P', 'T', 'I', 'O', 'N'][4] != seq!['U', 'S', '_', 'S', 'C', '_', 'R', 'E', 'S', 'E', 'L', 'L', 'E', 'R', '_', 'E', 'X', 'E', 'M', 'P', 'T', 'I', 'O', 'N'][4]);
        },
        TaxExemption::US_TN_RESELLER_EXEMPTION => {
            assert(seq!['U', 'S', '_', 'T', 'N', '_', 'R', 'E', 'S', 'E', 'L', 'L', 'E', 'R', '_', 'E', 'X', 'E', 'M', 'P', 'T', 'I', 'O', 'N'][0] != seq!['C', 'A', '_', 'B', 'C', '_', 'R', 'E', 'S', 'E', 'L', 'L', 'E', 'R', '_', 'E', 'X', 'E', 'M', 'P', 'T', 'I', 'O', 'N'][0]);
            assert(seq!['U', 'S', '_', 'T', 'N', '_', 'R', 'E', 'S', 'E', 'L', 'L', 'E', 'R', '_', 'E', 'X', 'E', 'M', 'P', 'T', 'I', 'O', 'N'][0] != seq!['C', 'A', '_', 'M', 'B', '_', 'R', 'E', 'S', 'E', 'L', 'L', 'E', 'R', '_', 'E', 'X', 'E', 'M', 'P', 'T', 'I', 'O', 'N'][0]);
            assert(seq!['U', 'S', '_', 'T', 'N', '_', 'R', 'E', 'S', 'E', 'L', 'L', 'E', 'R', '_', 'E', 'X', 'E', 'M', 'P', 'T', 'I', 'O', 'N'][0] != seq!['C', 'A', '_', 'O', 'N', '_', 'P', 'U', 'R', 'C', 'H', 'A', 'S', 'E', '_', 'E', 'X', 'E', 'M', 'P', 'T', 'I', 'O', 'N'][0]);
            assert(seq!['U', 'S', '_', 'T', 'N', '_', 'R', 'E', 'S', 'E', 'L', 'L', 'E', 'R', '_', 'E', 'X', 'E', 'M', 'P', 'T', 'I', 'O', 'N'][0] != seq!['C', 'A', '_', 'S', 'K', '_', 'R', 'E', 'S', 'E', 'L', 'L', 'E', 'R', '_', 'E', 'X', 'E', 'M', 'P', 'T', 'I', 'O', 'N'][0]);
            assert(seq!['U', 'S', '_', 'T', 'N', '_', 'R', 'E', 'S', 'E', 'L', 'L', 'E', 'R', '_', 'E', 'X', 'E', 'M', 'P', 'T', 'I', 'O', 'N'][0] != seq!['C', 'A', '_', 'S', 'T', 'A', 'T', 'U', 'S', '_', 'C', 'A', 'R', 'D', '_', 'E', 'X', 'E', 'M', 'P', 'T', 'I', 'O', 'N'][0]);
            assert(seq!['U', 'S', '_', 'T', 'N', '_', 'R', 'E', 'S', 'E', 'L', 'L', 'E', 'R', '_', 'E', 'X', 'E', 'M', 'P', 'T', 'I', 'O', 'N'][3] != seq!['U', 'S', '_', 'A', 'K', '_', 'R', 'E', 'S', 'E', 'L', 'L', 'E', 'R', '_', 'E', 'X', 'E', 'M', 'P', 'T', 'I', 'O', 'N'][3]);
            assert(seq!['U', 'S', '_', 'T', 'N', '_', 'R', 'E', 'S', 'E', 'L', 'L', 'E', 'R', '_', 'E', 'X', 'E', 'M', 'P', 'T', 'I', 'O', 'N'][3] != seq!['U', 'S', '_', 'A', 'L', '_', 'R', 'E', 'S', 'E', 'L', 'L', 'E', 'R', '_', 'E', 'X', 'E', 'M', 'P', 'T', 'I', 'O', 'N'][3]);
            assert(seq!['U', 'S', '_', 'T', 'N', '_', 'R', 'E', 'S', 'E', 'L', 'L', 'E', 'R', '_', 'E', 'X', 'E', 'M', 'P', 'T', 'I', 'O', 'N'][3] != seq!['U', 'S', '_', 'A', 'R', '_', 'R', 'E', 'S', 'E', 'L', 'L', 'E', 'R', '_', 'E', 'X', 'E', 'M', 'P', 'T', 'I', 'O', 'N'][3]);
            assert(seq!['U', 'S', '_', 'T', 'N', '_', 'R', 'E', 'S', 'E', 'L', 'L', 'E', 'R', '_', 'E', 'X', 'E', 'M', 'P', 'T', 'I', 'O', 'N'][3] != seq!['U', 'S', '_', 'A', 'Z', '_', 'R', 'E', 'S', 'E', 'L', 'L', 'E', 'R', '_', 'E', 'X', 'E', 'M', 'P', 'T', 'I', 'O', 'N'][3]);
            assert(seq!['U', 'S', '_', 'T', 'N', '_', 'R', 'E', 'S', 'E', 'L', 'L', 'E', 'R', '_', 'E', 'X', 'E', 'M', 'P', 'T', 'I', 'O', 'N'][3] != seq!['U', 'S', '_', 'C', 'A', '_', 'R', 'E', 'S', 'E', 'L', 'L', 'E', 'R', '_', 'E', 'X', 'E', 'M', 'P', 'T', 'I', 'O', 'N'][3]);
            assert(seq!['U', 'S', '_', 'T', 'N', '_', 'R', 'E', 'S', 'E', 'L', 'L', 'E', 'R', '_', 'E', 'X', 'E', 'M', 'P', 'T', 'I', 'O', 'N'][3] != seq!['U', 'S', '_', 'C', 'O', '_', 'R', 'E', 'S', 'E', 'L', 'L', 'E', 'R', '_', 'E', 'X', 'E', 'M', 'P', 'T', 'I', 'O', 'N'][3]);
            assert(seq!['U', 'S', '_', 'T', 'N', '_', 'R', 'E', 'S', 'E', 'L', 'L', 'E', 'R', '_', 'E', 'X', 'E', 'M', 'P', 'T', 'I', 'O', 'N'][3] != seq!['U', 'S', '_', 'C', 'T', '_', 'R', 'E', 'S', 'E', 'L', 'L', 'E', 'R', '_', 'E', 'X', 'E', 'M', 'P', 'T', 'I', 'O', 'N'][3]);
            assert(seq!['U', 'S', '_', 'T', 'N', '_', 'R', 'E', 'S', 'E', 'L', 'L', 'E', 'R', '_', 'E', 'X', 'E', 'M', 'P', 'T', 'I', 'O', 'N'][3] != seq!['U', 'S', '_', 'D', 'C', '_', 'R', 'E', 'S', 'E', 'L', 'L', 'E', 'R', '_', 'E', 'X', 'E', 'M', 'P', 'T', 'I', 'O', 'N'][3]);
            assert(seq!['U', 'S', '_', 'T', 'N', '_', 'R', 'E', 'S', 'E', 'L', 'L', 'E', 'R', '_', 'E', 'X', 'E', 'M', 'P', 'T', 'I', 'O', 'N'][3] != seq!['U', 'S', '_', 'D', 'E', '_', 'R', 'E', 'S', 'E', 'L', 'L', 'E', 'R', '_', 'E', 'X', 'E', 'M', 'P', 'T', 'I', 'O', 'N'][3]);
            assert(seq!['U', 'S', '_', 'T', 'N', '_', 'R', 'E', 'S', 'E', 'L', 'L', 'E', 'R', '_', 'E', 'X', 'E', 'M', 'P', 'T', 'I', 'O', 'N'][3] != seq!['U', 'S', '_', 'F', 'L', '_', 'R', 'E', 'S', 'E', 'L', 'L', 'E', 'R', '_', 'E', 'X', 'E', 'M', 'P', 'T', 'I', 'O', 'N'][3]);
            assert(seq!['U', 'S', '_', 'T', 'N', '_', 'R', 'E', 'S', 'E', 'L', 'L', 'E', 'R', '_', 'E', 'X', 'E', 'M', 'P', 'T', 'I', 'O', 'N'][3] != seq!['U', 'S', '_', 'G', 'A', '_', 'R', 'E', 'S', 'E', 'L', 'L', 'E', 'R', '_', 'E', 'X', 'E', 'M', 'P', 'T', 'I', 'O', 'N'][3]);
            assert(seq!['U', 'S', '_', 'T', 'N', '_', 'R', 'E', 'S', 'E', 'L', 'L', 'E', 'R', '_', 'E', 'X', 'E', 'M', 'P', 'T', 'I', 'O', 'N'][3] != seq!['U', 'S', '_', 'H', 'I', '_', 'R', 'E', 'S', 'E', 'L', 'L', 'E', 'R', '_', 'E', 'X', 'E', 'M', 'P', 'T', 'I', 'O', 'N'][3]);
            assert(seq!['U', 'S', '_', 'T', 'N', '_', 'R', 'E', 'S', 'E', 'L', 'L', 'E', 'R', '_', 'E', 'X', 'E', 'M', 'P', 'T', 'I', 'O', 'N'][3] != seq!['U', 'S', '_', 'I', 'A', '_', 'R', 'E', 'S', 'E', 'L', 'L', 'E', 'R', '_', 'E', 'X', 'E', 'M', 'P', 'T', 'I', 'O', 'N'][3]);
            assert(seq!['U', 'S', '_', 'T', 'N', '_', 'R', 'E', 'S', 'E', 'L', 'L', 'E', 'R', '_', 'E', 'X', 'E', 'M', 'P', 'T', 'I', 'O', 'N'][3] != seq!['U', 'S', '_', 'I', 'D', '_', 'R', 'E', 'S', 'E', 'L', 'L', 'E', 'R', '_', 'E', 'X', 'E', 'M', 'P', 'T', 'I', 'O', 'N'][3]);
            assert(seq!['U', 'S', '_', 'T', 'N', '_', 'R', 'E', 'S', 'E', 'L', 'L', 'E', 'R', '_', 'E', 'X', 'E', 'M', 'P', 'T', 'I', 'O', 'N'][3] != seq!['U', 'S', '_', 'I', 'L', '_', 'R', 'E', 'S', 'E', 'L', 'L', 'E', 'R', '_', 'E', 'X', 'E', 'M', 'P', 'T', 'I', 'O', 'N'][3]);
            assert(seq!['U', 'S', '_', 'T', 'N', '_', 'R', 'E', 'S', 'E', 'L', 'L', 'E', 'R', '_', 'E', 'X', 'E', 'M', 'P', 'T', 'I', 'O', 'N'][3] != seq!['U', 'S', '_', 'I', 'N', '_', 'R', 'E', 'S', 'E', 'L', 'L', 'E', 'R', '_', 'E', 'X', 'E', 'M', 'P', 'T', 'I', 'O', 'N'][3]);
            assert(seq!['U', 'S', '_', 'T', 'N', '_', 'R', 'E', 'S', 'E', 'L', 'L', 'E', 'R', '_', 'E', 'X', 'E', 'M', 'P', 'T', 'I', 'O', 'N'][3] != seq!['U', 'S', '_', 'K', 'S', '_', 'R', 'E', 'S', 'E', 'L', 'L', 'E', 'R', '_', 'E', 'X', 'E', 'M', 'P', 'T', 'I', 'O', 'N'][3]);
            assert(seq!['U', 'S', '_', 'T', 'N', '_', 'R', 'E', 'S', 'E', 'L', 'L', 'E', 'R', '_', 'E', 'X', 'E', 'M', 'P', 'T', 'I', 'O', 'N'][3] != seq!['U', 'S', '_', 'K', 'Y', '_', 'R', 'E', 'S', 'E', 'L', 'L', 'E', 'R', '_', 'E', 'X', 'E', 'M', 'P', 'T', 'I', 'O', 'N'][3]);
            assert(seq!['U', 'S', '_', 'T', 'N', '_', 'R', 'E', 'S', 'E', 'L', 'L', 'E', 'R', '_', 'E', 'X', 'E', 'M', 'P', 'T', 'I', 'O', 'N'][3] != seq!['U', 'S', '_', 'L', 'A', '_', 'R', 'E', 'S', 'E', 'L', 'L', 'E', 'R', '_', 'E', 'X', 'E', 'M', 'P', 'T', 'I', 'O', 'N'][3]);
            assert(seq!['U', 'S', '_', 'T', 'N', '_', 'R', 'E', 'S', 'E', 'L', 'L', 'E', 'R', '_', 'E', 'X', 'E', 'M', 'P', 'T', 'I', 'O', 'N'][3] != seq!['U', 'S', '_', 'M', 'A', '_', 'R', 'E', 'S', 'E', 'L', 'L', 'E', 'R', '_', 'E', 'X', 'E', 'M', 'P', 'T', 'I', 'O', 'N'][3]);
            assert(seq!['U', 'S', '_', 'T', 'N', '_', 'R', 'E', 'S', 'E', 'L', 'L', 'E', 'R', '_', 'E', 'X', 'E', 'M', 'P', 'T', 'I', 'O', 'N'][3] != seq!['U', 'S', '_', 'M', 'D', '_', 'R', 'E', 'S', 'E', 'L', 'L', 'E', 'R', '_', 'E', 'X', 'E', 'M', 'P', 'T', 'I', 'O', 'N'][3]);
            assert(seq!['U', 'S', '_', 'T', 'N', '_', 'R', 'E', 'S', 'E', 'L', 'L', 'E', 'R', '_', 'E', 'X', 'E', 'M', 'P', 'T', 'I', 'O', 'N'][3] != seq!['U', 'S', '_', 'M', 'E', '_', 'R', 'E', 'S', 'E', 'L', 'L', 'E', 'R', '_', 'E', 'X', 'E', 'M', 'P', 'T', 'I', 'O', 'N'][3]);
            assert(seq!['U', 'S', '_', 'T', 'N', '_', 'R', 'E', 'S', 'E', 'L', 'L', 'E', 'R', '_', 'E', 'X', 'E', 'M', 'P', 'T', 'I', 'O', 'N'][3] != seq!['U', 'S', '_', 'M', 'I', '_', 'R', 'E', 'S', 'E', 'L', 'L', 'E', 'R', '_', 'E', 'X', 'E', 'M', 'P', 'T', 'I', 'O', 'N'][3]);
            assert(seq!['U', 'S', '_', 'T', 'N', '_', 'R', 'E', 'S', 'E', 'L', 'L', 'E', 'R', '_', 'E', 'X', 'E', 'M', 'P', 'T', 'I', 'O', 'N'][3] != seq!['U', 'S', '_', 'M', 'N', '_', 'R', 'E', 'S', 'E', 'L', 'L', 'E', 'R', '_', 'E', 'X', 'E', 'M', 'P', 'T', 'I', 'O', 'N'][3]);
            assert(seq!['U', 'S', '_', 'T', 'N', '_', 'R', 'E', 'S', 'E', 'L', 'L', 'E', 'R', '_', 'E', 'X', 'E', 'M', 'P', 'T', 'I', 'O', 'N'][3] != seq!['U', 'S', '_', 'M', 'O', '_', 'R', 'E', 'S', 'E', 'L', 'L', 'E', 'R', '_', 'E', 'X', 'E', 'M', 'P', 'T', 'I', 'O', 'N'][3]);
            assert(seq!['U', 'S', '_', 'T', 'N', '_', 'R', 'E', 'S', 'E', 'L', 'L', 'E', 'R', '_', 'E', 'X', 'E', 'M', 'P', 'T', 'I', 'O', 'N'][3] != seq!['U', 'S', '_', 'M', 'S', '_', 'R', 'E', 'S', 'E', 'L', 'L', 'E', 'R', '_', 'E', 'X', 'E', 'M', 'P', 'T', 'I', 'O', 'N'][3]);
            assert(seq!['U', 'S', '_', 'T', 'N', '_', 'R', 'E', 'S', 'E', 'L', 'L', 'E', 'R', '_', 'E', 'X', 'E', 'M', 'P', 'T', 'I', 'O', 'N'][3] != seq!['U', 'S', '_', 'M', 'T', '_', 'R', 'E', 'S', 'E', 'L', 'L', 'E', 'R', '_', 'E', 'X', 'E', 'M', 'P', 'T', 'I', 'O', 'N'][3]);
            assert(seq!['U', 'S', '_', 'T', 'N', '_', 'R', 'E', 'S', 'E', 'L', 'L', 'E', 'R', '_', 'E', 'X', 'E', 'M', 'P', 'T', 'I', 'O', 'N'][3] != seq!['U', 'S', '_', 'N', 'C', '_', 'R', 'E', 'S', 'E', 'L', 'L', 'E', 'R', '_', 'E', 'X', 'E', 'M', 'P', 'T', 'I', 'O', 'N'][3]);
            assert(seq!['U', 'S', '_', 'T', 'N', '_', 'R', 'E', 'S', 'E', 'L', 'L', 'E', 'R', '_', 'E', 'X', 'E', 'M', 'P', 'T', 'I', 'O', 'N'][3] != seq!['U', 'S', '_', 'N', 'D', '_', 'R', 'E', 'S', 'E', 'L', 'L', 'E', 'R', '_', 'E', 'X', 'E', 'M', 'P', 'T', 'I', 'O', 'N'][3]);
            assert(seq!['U', 'S', '_', 'T', 'N', '_', 'R', 'E', 'S', 'E', 'L', 'L', 'E', 'R', '_', 'E', 'X', 'E', 'M', 'P', 'T', 'I', 'O', 'N'][3] != seq!['U', 'S', '_', 'N', 'E', '_', 'R', 'E', 'S', 'E', 'L', 'L', 'E', 'R', '_', 'E', 'X', 'E', 'M', 'P', 'T', 'I', 'O', 'N'][3]);
            assert(seq!['U', 'S', '_', 'T', 'N', '_', 'R', 'E', 'S', 'E', 'L', 'L', 'E', 'R', '_', 'E', 'X', 'E', 'M', 'P', 'T', 'I', 'O', 'N'][3] != seq!['U', 'S', '_', 'N', 'H', '_', 'R', 'E', 'S', 'E', 'L', 'L', 'E', 'R', '_', 'E', 'X', 'E', 'M', 'P', 'T', 'I', 'O', 'N'][3]);
            assert(seq!['U', 'S', '_', 'T', 'N', '_', 'R', 'E', 'S', 'E', 'L', 'L', 'E', 'R', '_', 'E', 'X', 'E', 'M', 'P', 'T', 'I', 'O', 'N'][3] != seq!['U', 'S', '_', 'N', 'J', '_', 'R', 'E', 'S', 'E', 'L', 'L', 'E', 'R', '_', 'E', 'X', 'E', 'M', 'P', 'T', 'I', 'O', 'N'][3]);
            assert(seq!['U', 'S', '_', 'T', 'N', '_', 'R', 'E', 'S', 'E', 'L', 'L', 'E', 'R', '_', 'E', 'X', 'E', 'M', 'P', 'T', 'I', 'O', 'N'][3] != seq!['U', 'S', '_', 'N', 'M', '_', 'R', 'E', 'S', 'E', 'L', 'L', 'E', 'R', '_', 'E', 'X', 'E', 'M', 'P', 'T', 'I', 'O', 'N'][3]);
            assert(seq!['U', 'S', '_', 'T', 'N', '_', 'R', 'E', 'S', 'E', 'L', 'L', 'E', 'R', '_', 'E', 'X', 'E', 'M', 'P', 'T', 'I', 'O', 'N'][3] != seq!['U', 'S', '_', 'N', 'V', '_', 'R', 'E', 'S', 'E', 'L', 'L', 'E', 'R', '_', 'E', 'X', 'E', 'M', 'P', 'T', 'I', 'O', 'N'][3]);
            assert(seq!['U', 'S', '_', 'T', 'N', '_', 'R', 'E', 'S', 'E', 'L', 'L', 'E', 'R', '_', 'E', 'X', 'E', 'M', 'P', 'T', 'I', 'O', 'N'][3] != seq!['U', 'S', '_', 'N', 'Y', '_', 'R', 'E', 'S', 'E', 'L', 'L', 'E', 'R', '_', 'E', 'X', 'E', 'M', 'P', 'T', 'I', 'O', 'N'][3]);
            assert(seq!['U', 'S', '_', 'T', 'N', '_', 'R', 'E', 'S', 'E', 'L', 'L', 'E', 'R', '_', 'E', 'X', 'E', 'M', 'P', 'T', 'I', 'O', 'N'][3] != seq!['U', 'S', '_', 'O', 'H', '_', 'R', 'E', 'S', 'E', 'L', 'L', 'E', 'R', '_', 'E', 'X', 'E', 'M', 'P', 'T', 'I', 'O', 'N'][3]);
            assert(seq!['U', 'S', '_', 'T', 'N', '_', 'R', 'E', 'S', 'E', 'L', 'L', 'E', 'R', '_', 'E', 'X', 'E', 'M', 'P', 'T', 'I', 'O', 'N'][3] != seq!['U', 'S', '_', 'O', 'K', '_', 'R', 'E', 'S', 'E', 'L', 'L', 'E', 'R', '_', 'E', 'X', 'E', 'M', 'P', 'T', 'I', 'O', 'N'][3]);
            assert(seq!['U', 'S', '_', 'T', 'N', '_', 'R', 'E', 'S', 'E', 'L', 'L', 'E', 'R', '_', 'E', 'X', 'E', 'M', 'P', 'T', 'I', 'O', 'N'][3] != seq!['U', 'S', '_', 'O', 'R', '_', 'R', 'E', 'S', 'E', 'L', 'L', 'E', 'R', '_', 'E', 'X', 'E', 'M', 'P', 'T', 'I', 'O', 'N'][3]);
            assert(seq!['U', 'S', '_', 'T', 'N', '_', 'R', 'E', 'S', 'E', 'L', 'L', 'E', 'R', '_', 'E', 'X', 'E', 'M', 'P', 'T', 'I', 'O', 'N'][3] != seq!['U', 'S', '_', 'P', 'A', '_', 'R', 'E', 'S', 'E', 'L', 'L', 'E', 'R', '_', 'E', 'X', 'E', 'M', 'P', 'T', 'I', 'O', 'N'][3]);
            assert(seq!['U', 'S', '_', 'T', 'N', '_', 'R', 'E', 'S', 'E', 'L', 'L', 'E', 'R', '_', 'E', 'X', 'E', 'M', 'P', 'T', 'I', 'O', 'N'][3] != seq!['U', 'S', '_', 'R', 'I', '_', 'R', 'E', 'S', 'E', 'L', 'L', 'E', 'R', '_', 'E', 'X', 'E', 'M', 'P', 'T', 'I', 'O', 'N'][3]);
            assert(seq!['U', 'S', '_', 'T', 'N', '_', 'R', 'E', 'S', 'E', 'L', 'L', 'E', 'R', '_', 'E', 'X', 'E', 'M', 'P', 'T', 'I', 'O', 'N'][3] != seq!['U', 'S', '_', 'S', 'C', '_', 'R', 'E', 'S', 'E', 'L', 'L', 'E', 'R', '_', 'E', 'X', 'E', 'M', 'P', 'T', 'I', 'O', 'N'][3]);
            assert(seq!['U', 'S', '_', 'T', 'N', '_', 'R', 'E', 'S', 'E', 'L', 'L', 'E', 'R', '_', 'E', 'X', 'E', 'M', 'P', 'T', 'I', 'O', 'N'][3] != seq!['U', 'S', '_', 'S', 'D', '_', 'R', 'E', 'S', 'E', 'L', 'L', 'E', 'R', '_', 'E', 'X', 'E', 'M', 'P', 'T', 'I', 'O', 'N'][3]);
        },
        TaxExemption::US_TX_RESELLER_EXEMPTION => {
            assert(seq!['U', 'S', '_', 'T', 'X', '_', 'R', 'E', 'S', 'E', 'L', 'L', 'E', 'R', '_', 'E', 'X', 'E', 'M', 'P', 'T', 'I', 'O', 'N'][0] != seq!['C', 'A', '_', 'B', 'C', '_', 'R', 'E', 'S', 'E', 'L', 'L', 'E', 'R', '_', 'E', 'X', 'E', 'M', 'P', 'T', 'I', 'O', 'N'][0]);
            assert(seq!['U', 'S', '_', 'T', 'X', '_', 'R', 'E', 'S', 'E', 'L', 'L', 'E', 'R', '_', 'E', 'X', 'E', 'M', 'P', 'T', 'I', 'O', 'N'][0] != seq!['C', 'A', '_', 'M', 'B', '_', 'R', 'E', 'S', 'E', 'L', 'L', 'E', 'R', '_', 'E', 'X', 'E', 'M', 'P', 'T', 'I', 'O', 'N'][0]);
            assert(seq!['U', 'S', '_', 'T', 'X', '_', 'R', 'E', 'S', 'E', 'L', 'L', 'E', 'R', '_', 'E', 'X', 'E', 'M', 'P', 'T', 'I', 'O', 'N'][0] != seq!['C', 'A', '_', 'O', 'N', '_', 'P', 'U', 'R', 'C', 'H', 'A', 'S', 'E', '_', 'E', 'X', 'E', 'M', 'P', 'T', 'I', 'O', 'N'][0]);
            assert(seq!['U', 'S', '_', 'T', 'X', '_', 'R', 'E', 'S', 'E', 'L', 'L', 'E', 'R', '_', 'E', 'X', 'E', 'M', 'P', 'T', 'I', 'O', 'N'][0] != seq!['C', 'A', '_', 'S', 'K', '_', 'R', 'E', 'S', 'E', 'L', 'L', 'E', 'R', '_', 'E', 'X', 'E', 'M', 'P', 'T', 'I', 'O', 'N'][0]);
            assert(seq!['U', 'S', '_', 'T', 'X', '_', 'R', 'E', 'S', 'E', 'L', 'L', 'E', 'R', '_', 'E', 'X', 'E', 'M', 'P', 'T', 'I', 'O', 'N'][0] != seq!['C', 'A', '_', 'S', 'T', 'A', 'T', 'U', 'S', '_', 'C', 'A', 'R', 'D', '_', 'E', 'X', 'E', 'M', 'P', 'T', 'I', 'O', 'N'][0]);
            assert(seq!['U', 'S', '_', 'T', 'X', '_', 'R', 'E', 'S', 'E', 'L', 'L', 'E', 'R', '_', 'E', 'X', 'E', 'M', 'P', 'T', 'I', 'O', 'N'][3] != seq!['U', 'S', '_', 'A', 'K', '_', 'R', 'E', 'S', 'E', 'L', 'L', 'E', 'R', '_', 'E', 'X', 'E', 'M', 'P', 'T', 'I', 'O', 'N'][3]);
            assert(seq!['U', 'S', '_', 'T', 'X', '_', 'R', 'E', 'S', 'E', 'L', 'L', 'E', 'R', '_', 'E', 'X', 'E', 'M', 'P', 'T', 'I', 'O', 'N'][3] != seq!['U', 'S', '_', 'A', 'L', '_', 'R', 'E', 'S', 'E', 'L', 'L', 'E', 'R', '_', 'E', 'X', 'E', 'M', 'P', 'T', 'I', 'O', 'N'][3]);
            assert(seq!['U', 'S', '_', 'T', 'X', '_', 'R', 'E', 'S', 'E', 'L', 'L', 'E', 'R', '_', 'E', 'X', 'E', 'M', 'P', 'T', 'I', 'O', 'N'][3] != seq!['U', 'S', '_', 'A', 'R', '_', 'R', 'E', 'S', 'E', 'L', 'L', 'E', 'R', '_', 'E', 'X', 'E', 'M', 'P', 'T', 'I', 'O', 'N'][3]);
            assert(seq!['U', 'S', '_', 'T', 'X', '_', 'R', 'E', 'S', 'E', 'L', 'L', 'E', 'R', '_', 'E', 'X', 'E', 'M', 'P', 'T', 'I', 'O', 'N'][3] != seq!['U', 'S', '_', 'A', 'Z', '_', 'R', 'E', 'S', 'E', 'L', 'L', 'E', 'R', '_', 'E', 'X', 'E', 'M', 'P', 'T', 'I', 'O', 'N'][3]);
            assert(seq!['U', 'S', '_', 'T', 'X', '_', 'R', 'E', 'S', 'E', 'L', 'L', 'E', 'R', '_', 'E', 'X', 'E', 'M', 'P', 'T', 'I', 'O', 'N'][3] != seq!['U', 'S', '_', 'C', 'A', '_', 'R', 'E', 'S', 'E', 'L', 'L', 'E', 'R', '_', 'E', 'X', 'E', 'M', 'P', 'T', 'I', 'O', 'N'][3]);
            assert(seq!['U', 'S', '_', 'T', 'X', '_', 'R', 'E', 'S', 'E', 'L', 'L', 'E', 'R', '_', 'E', 'X', 'E', 'M', 'P', 'T', 'I', 'O', 'N'][3] != seq!['U', 'S', '_', 'C', 'O', '_', 'R', 'E', 'S', 'E', 'L', 'L', 'E', 'R', '_', 'E', 'X', 'E', 'M', 'P', 'T', 'I', 'O', 'N'][3]);
            assert(seq!['U', 'S', '_', 'T', 'X', '_', 'R', 'E', 'S', 'E', 'L', 'L', 'E', 'R', '_', 'E', 'X', 'E', 'M', 'P', 'T', 'I', 'O', 'N'][3] != seq!['U', 'S', '_', 'C', 'T', '_', 'R', 'E', 'S', 'E', 'L', 'L', 'E', 'R', '_', 'E', 'X', 'E', 'M', 'P', 'T', 'I', 'O', 'N'][3]);
            assert(seq!['U', 'S', '_', 'T', 'X', '_', 'R', 'E', 'S', 'E', 'L', 'L', 'E', 'R', '_', 'E', 'X', 'E', 'M', 'P', 'T', 'I', 'O', 'N'][3] != seq!['U', 'S', '_', 'D', 'C', '_', 'R', 'E', 'S', 'E', 'L', 'L', 'E', 'R', '_', 'E', 'X', 'E', 'M', 'P', 'T', 'I', 'O', 'N'][3]);
            assert(seq!['U', 'S', '_', 'T', 'X', '_', 'R', 'E', 'S', 'E', 'L', 'L', 'E', 'R', '_', 'E', 'X', 'E', 'M', 'P', 'T', 'I', 'O', 'N'][3] != seq!['U', 'S', '_', 'D', 'E', '_', 'R', 'E', 'S', 'E', 'L', 'L', 'E', 'R', '_', 'E', 'X', 'E', 'M', 'P', 'T', 'I', 'O', 'N'][3]);
            assert(seq!['U', 'S', '_', 'T', 'X', '_', 'R', 'E', 'S', 'E', 'L', 'L', 'E', 'R', '_', 'E', 'X', 'E', 'M', 'P', 'T', 'I', 'O', 'N'][3] != seq!['U', 'S', '_', 'F', 'L', '_', 'R', 'E', 'S', 'E', 'L', 'L', 'E', 'R', '_', 'E', 'X', 'E', 'M', 'P', 'T', 'I', 'O', 'N'][3]);
            assert(seq!['U', 'S', '_', 'T', 'X', '_', 'R', 'E', 'S', 'E', 'L', 'L', 'E', 'R', '_', 'E', 'X', 'E', 'M', 'P', 'T', 'I', 'O', 'N'][3] != seq!['U', 'S', '_', 'G', 'A', '_', 'R', 'E', 'S', 'E', 'L', 'L', 'E', 'R', '_', 'E', 'X', 'E', 'M', 'P', 'T', 'I', 'O', 'N'][3]);
            assert(seq!['U', 'S', '_', 'T', 'X', '_', 'R', 'E', 'S', 'E', 'L', 'L', 'E', 'R', '_', 'E', 'X', 'E', 'M', 'P', 'T', 'I', 'O', 'N'][3] != seq!['U', 'S', '_', 'H', 'I', '_', 'R', 'E', 'S', 'E', 'L', 'L', 'E', 'R', '_', 'E', 'X', 'E', 'M', 'P', 'T', 'I', 'O', 'N'][3]);
            assert(seq!['U', 'S', '_', 'T', 'X', '_', 'R', 'E', 'S', 'E', 'L', 'L', 'E', 'R', '_', 'E', 'X', 'E', 'M', 'P', 'T', 'I', 'O', 'N'][3] != seq!['U', 'S', '_', 'I', 'A', '_', 'R', 'E', 'S', 'E', 'L', 'L', 'E', 'R', '_', 'E', 'X', 'E', 'M', 'P', 'T', 'I', 'O', 'N'][3]);
            assert(seq!['U', 'S', '_', 'T', 'X', '_', 'R', 'E', 'S', 'E', 'L', 'L', 'E', 'R', '_', 'E', 'X', 'E', 'M', 'P', 'T', 'I', 'O', 'N'][3] != seq!['U', 'S', '_', 'I', 'D', '_', 'R', 'E', 'S', 'E', 'L', 'L', 'E', 'R', '_', 'E', 'X', 'E', 'M', 'P', 'T', 'I', 'O', 'N'][3]);
            assert(seq!['U', 'S', '_', 'T', 'X', '_', 'R', 'E', 'S', 'E', 'L', 'L', 'E', 'R', '_', 'E', 'X', 'E', 'M', 'P', 'T', 'I', 'O', 'N'][3] != seq!['U', 'S', '_', 'I', 'L', '_', 'R', 'E', 'S', 'E', 'L', 'L', 'E', 'R', '_', 'E', 'X', 'E', 'M', 'P', 'T', 'I', 'O', 'N'][3]);
            assert(seq!['U', 'S', '_', 'T', 'X', '_', 'R', 'E', 'S', 'E', 'L', 'L', 'E', 'R', '_', 'E', 'X', 'E', 'M', 'P', 'T', 'I', 'O', 'N'][3] != seq!['U', 'S', '_', 'I', 'N', '_', 'R', 'E', 'S', 'E', 'L', 'L', 'E', 'R', '_', 'E', 'X', 'E', 'M', 'P', 'T', 'I', 'O', 'N'][3]);
            assert(seq!['U', 'S', '_', 'T', 'X', '_', 'R', 'E', 'S', 'E', 'L', 'L', 'E', 'R', '_', 'E', 'X', 'E', 'M', 'P', 'T', 'I', 'O', 'N'][3] != seq!['U', 'S', '_', 'K', 'S', '_', 'R', 'E', 'S', 'E', 'L', 'L', 'E', 'R', '_', 'E', 'X', 'E', 'M', 'P', 'T', 'I', 'O', 'N'][3]);
            assert(seq!['U', 'S', '_', 'T', 'X', '_', 'R', 'E', 'S', 'E', 'L', 'L', 'E', 'R', '_', 'E', 'X', 'E', 'M', 'P', 'T', 'I', 'O', 'N'][3] != seq!['U', 'S', '_', 'K', 'Y', '_', 'R', 'E', 'S', 'E', 'L', 'L', 'E', 'R', '_', 'E', 'X', 'E', 'M', 'P', 'T', 'I', 'O', 'N'][3]);
            assert(seq!['U', 'S', '_', 'T', 'X', '_', 'R', 'E', 'S', 'E', 'L', 'L', 'E', 'R', '_', 'E', 'X', 'E', 'M', 'P', 'T', 'I', 'O', 'N'][3] != seq!['U', 'S', '_', 'L', 'A', '_', 'R', 'E', 'S', 'E', 'L', 'L', 'E', 'R', '_', 'E', 'X', 'E', 'M', 'P', 'T', 'I', 'O', 'N'][3]);
            assert(seq!['U', 'S', '_', 'T', 'X', '_', 'R', 'E', 'S', 'E', 'L', 'L', 'E', 'R', '_', 'E', 'X', 'E', 'M', 'P', 'T', 'I', 'O', 'N'][3] != seq!['U', 'S', '_', 'M', 'A', '_', 'R', 'E', 'S', 'E', 'L', 'L', 'E', 'R', '_', 'E', 'X', 'E', 'M', 'P', 'T', 'I', 'O', 'N'][3]);
            assert(seq!['U', 'S', '_', 'T', 'X', '_', 'R', 'E', 'S', 'E', 'L', 'L', 'E', 'R', '_', 'E', 'X', 'E', 'M', 'P', 'T', 'I', 'O', 'N'][3] != seq!['U', 'S', '_', 'M', 'D', '_', 'R', 'E', 'S', 'E', 'L', 'L', 'E', 'R', '_', 'E', 'X', 'E', 'M', 'P', 'T', 'I', 'O', 'N'][3]);
            assert(seq!['U', 'S', '_', 'T', 'X', '_', 'R', 'E', 'S', 'E', 'L', 'L', 'E', 'R', '_', 'E', 'X', 'E', 'M', 'P', 'T', 'I', 'O', 'N'][3] != seq!['U', 'S', '_', 'M', 'E', '_', 'R', 'E', 'S', 'E', 'L', 'L', 'E', 'R', '_', 'E', 'X', 'E', 'M', 'P', 'T', 'I', 'O', 'N'][3]);
            assert(seq!['U', 'S', '_', 'T', 'X', '_', 'R', 'E', 'S', 'E', 'L', 'L', 'E', 'R', '_', 'E', 'X', 'E', 'M', 'P', 'T', 'I', 'O', 'N'][3] != seq!['U', 'S', '_', 'M', 'I', '_', 'R', 'E', 'S', 'E', 'L', 'L', 'E', 'R', '_', 'E', 'X', 'E', 'M', 'P', 'T', 'I', 'O', 'N'][3]);
            assert(seq!['U', 'S', '_', 'T', 'X', '_', 'R', 'E', 'S', 'E', 'L', 'L', 'E', 'R', '_', 'E', 'X', 'E', 'M', 'P', 'T', 'I', 'O', 'N'][3] != seq!['U', 'S', '_', 'M', 'N', '_', 'R', 'E', 'S', 'E', 'L', 'L', 'E', 'R', '_', 'E', 'X', 'E', 'M', 'P', 'T', 'I', 'O', 'N'][3]);
            assert(seq!['U', 'S', '_', 'T', 'X', '_', 'R', 'E', 'S', 'E', 'L', 'L', 'E', 'R', '_', 'E', 'X', 'E', 'M', 'P', 'T', 'I', 'O', 'N'][3] != seq!['U', 'S', '_', 'M', 'O', '_', 'R', 'E', 'S', 'E', 'L', 'L', 'E', 'R', '_', 'E', 'X', 'E', 'M', 'P', 'T', 'I', 'O', 'N'][3]);
            assert(seq!['U', 'S', '_', 'T', 'X', '_', 'R', 'E', 'S', 'E', 'L', 'L', 'E', 'R', '_', 'E', 'X', 'E', 'M', 'P', 'T', 'I', 'O', 'N'][3] != seq!['U', 'S', '_', 'M', 'S', '_', 'R', 'E', 'S', 'E', 'L', 'L', 'E', 'R', '_', 'E', 'X', 'E', 'M', 'P', 'T', 'I', 'O', 'N'][3]);
            assert(seq!['U', 'S', '_', 'T', 'X', '_', 'R', 'E', 'S', 'E', 'L', 'L', 'E', 'R', '_', 'E', 'X', 'E', 'M', 'P', 'T', 'I', 'O', 'N'][3] != seq!['U', 'S', '_', 'M', 'T', '_', 'R', 'E', 'S', 'E', 'L', 'L', 'E', 'R', '_', 'E', 'X', 'E', 'M', 'P', 'T', 'I', 'O', 'N'][3]);
            assert(seq!['U', 'S', '_', 'T', 'X', '_', 'R', 'E', 'S', 'E', 'L', 'L', 'E', 'R', '_', 'E', 'X', 'E', 'M', 'P', 'T', 'I', 'O', 'N'][3] != seq!['U', 'S', '_', 'N', 'C', '_', 'R', 'E', 'S', 'E', 'L', 'L', 'E', 'R', '_', 'E', 'X', 'E', 'M', 'P', 'T', 'I', 'O', 'N'][3]);
            assert(seq!['U', 'S', '_', 'T', 'X', '_', 'R', 'E', 'S', 'E', 'L', 'L', 'E', 'R', '_', 'E', 'X', 'E', 'M', 'P', 'T', 'I', 'O', 'N'][3] != seq!['U', 'S', '_', 'N', 'D', '_', 'R', 'E', 'S', 'E', 'L', 'L', 'E', 'R', '_', 'E', 'X', 'E', 'M', 'P', 'T', 'I', 'O', 'N'][3]);
            assert(seq!['U', 'S', '_', 'T', 'X', '_', 'R', 'E', 'S', 'E', 'L', 'L', 'E', 'R', '_', 'E', 'X', 'E', 'M', 'P', 'T', 'I', 'O', 'N'][3] != seq!['U', 'S', '_', 'N', 'E', '_', 'R', 'E', 'S', 'E', 'L', 'L', 'E', 'R', '_', 'E', 'X', 'E', 'M', 'P', 'T', 'I', 'O', 'N'][3]);
            assert(seq!['U', 'S', '_', 'T', 'X', '_', 'R', 'E', 'S', 'E', 'L', 'L', 'E', 'R', '_', 'E', 'X', 'E', 'M', 'P', 'T', 'I', 'O', 'N'][3] != seq!['U', 'S', '_', 'N', 'H', '_', 'R', 'E', 'S', 'E', 'L', 'L', 'E', 'R', '_', 'E', 'X', 'E', 'M', 'P', 'T', 'I', 'O', 'N'][3]);
            assert(seq!['U', 'S', '_', 'T', 'X', '_', 'R', 'E', 'S', 'E', 'L', 'L', 'E', 'R', '_', 'E', 'X', 'E', 'M', 'P', 'T', 'I', 'O', 'N'][3] != seq!['U', 'S', '_', 'N', 'J', '_', 'R', 'E', 'S', 'E', 'L', 'L', 'E', 'R', '_', 'E', 'X', 'E', 'M', 'P', 'T', 'I', 'O', 'N'][3]);
            assert(seq!['U', 'S', '_', 'T', 'X', '_', 'R', 'E', 'S', 'E', 'L', 'L', 'E', 'R', '_', 'E', 'X', 'E', 'M', 'P', 'T', 'I', 'O', 'N'][3] != seq!['U', 'S', '_', 'N', 'M', '_', 'R', 'E', 'S', 'E', 'L', 'L', 'E', 'R', '_', 'E', 'X', 'E', 'M', 'P', 'T', 'I', 'O', 'N'][3]);
            assert(seq!['U', 'S', '_', 'T', 'X', '_', 'R', 'E', 'S', 'E', 'L', 'L', 'E', 'R', '_', 'E', 'X', 'E', 'M', 'P', 'T', 'I', 'O', 'N'][3] != seq!['U', 'S', '_', 'N', 'V', '_', 'R', 'E', 'S', 'E', 'L', 'L', 'E', 'R', '_', 'E', 'X', 'E', 'M', 'P', 'T', 'I', 'O', 'N'][3]);
            assert(seq!['U', 'S', '_', 'T', 'X', '_', 'R', 'E', 'S', 'E', 'L', 'L', 'E', 'R', '_', 'E', 'X', 'E', 'M', 'P', 'T', 'I', 'O', 'N'][3] != seq!['U', 'S', '_', 'N', 'Y', '_', 'R', 'E', 'S', 'E', 'L', 'L', 'E', 'R', '_', 'E', 'X', 'E', 'M', 'P', 'T', 'I', 'O', 'N'][3]);
            assert(seq!['U', 'S', '_', 'T', 'X', '_', 'R', 'E', 'S', 'E', 'L', 'L', 'E', 'R', '_', 'E', 'X', 'E', 'M', 'P', 'T', 'I', 'O', 'N'][3] != seq!['U', 'S', '_', 'O', 'H', '_', 'R', 'E', 'S', 'E', 'L', 'L', 'E', 'R', '_', 'E', 'X', 'E', 'M', 'P', 'T', 'I', 'O', 'N'][3]);
            assert(seq!['U', 'S', '_', 'T', 'X', '_', 'R', 'E', 'S', 'E', 'L', 'L', 'E', 'R', '_', 'E', 'X', 'E', 'M', 'P', 'T', 'I', 'O', 'N'][3] != seq!['U', 'S', '_', 'O', 'K', '_', 'R', 'E', 'S', 'E', 'L', 'L', 'E', 'R', '_', 'E', 'X', 'E', 'M', 'P', 'T', 'I', 'O', 'N'][3]);
            assert(seq!['U', 'S', '_', 'T', 'X', '_', 'R', 'E', 'S', 'E', 'L', 'L', 'E', 'R', '_', 'E', 'X', 'E', 'M', 'P', 'T', 'I', 'O', 'N'][3] != seq!['U', 'S', '_', 'O', 'R', '_', 'R', 'E', 'S', 'E', 'L', 'L', 'E', 'R', '_', 'E', 'X', 'E', 'M', 'P', 'T', 'I', 'O', 'N'][3]);
            assert(seq!['U', 'S', '_', 'T', 'X', '_', 'R', 'E', 'S', 'E', 'L', 'L', 'E', 'R', '_', 'E', 'X', 'E', 'M', 'P', 'T', 'I', 'O', 'N'][3] != seq!['U', 'S', '_', 'P', 'A', '_', 'R', 'E', 'S', 'E', 'L', 'L', 'E', 'R', '_', 'E', 'X', 'E', 'M', 'P', 'T', 'I', 'O', 'N'][3]);
            assert(seq!['U', 'S', '_', 'T', 'X', '_', 'R', 'E', 'S', 'E', 'L', 'L', 'E', 'R', '_', 'E', 'X', 'E', 'M', 'P', 'T', 'I', 'O', 'N'][3] != seq!['U', 'S', '_', 'R', 'I', '_', 'R', 'E', 'S', 'E', 'L', 'L', 'E', 'R', '_', 'E', 'X', 'E', 'M', 'P', 'T', 'I', 'O', 'N'][3]);
            assert(seq!['U', 'S', '_', 'T', 'X', '_', 'R', 'E', 'S', 'E', 'L', 'L', 'E', 'R', '_', 'E', 'X', 'E', 'M', 'P', 'T', 'I', 'O', 'N'][3] != seq!['U', 'S', '_', 'S', 'C', '_', 'R', 'E', 'S', 'E', 'L', 'L', 'E', 'R', '_', 'E', 'X', 'E', 'M', 'P', 'T', 'I', 'O', 'N'][3]);
            assert(seq!['U', 'S', '_', 'T', 'X', '_', 'R', 'E', 'S', 'E', 'L', 'L', 'E', 'R', '_', 'E', 'X', 'E', 'M', 'P', 'T', 'I', 'O', 'N'][3] != seq!['U', 'S', '_', 'S', 'D', '_', 'R', 'E', 'S', 'E', 'L', 'L', 'E', 'R', '_', 'E', 'X', 'E', 'M', 'P', 'T', 'I', 'O', 'N'][3]);
            assert(seq!['U', 'S', '_', 'T', 'X', '_', 'R', 'E', 'S', 'E', 'L', 'L', 'E', 'R', '_', 'E', 'X', 'E', 'M', 'P', 'T', 'I', 'O', 'N'][4] != seq!['U', 'S', '_', 'T', 'N', '_', 'R', 'E', 'S', 'E', 'L', 'L', 'E', 'R', '_', 'E', 'X', 'E', 'M', 'P', 'T', 'I', 'O', 'N'][4]);
        },
        TaxExemption::US_UT_RESELLER_EXEMPTION => {
            assert(seq!['U', 'S', '_', 'U', 'T', '_', 'R', 'E', 'S', 'E', 'L', 'L', 'E', 'R', '_', 'E', 'X', 'E', 'M', 'P', 'T', 'I', 'O', 'N'][0] != seq!['C', 'A', '_', 'B', 'C', '_', 'R', 'E', 'S', 'E', 'L', 'L', 'E', 'R', '_', 'E', 'X', 'E', 'M', 'P', 'T', 'I', 'O', 'N'][0]);
            assert(seq!['U', 'S', '_', 'U', 'T', '_', 'R', 'E', 'S', 'E', 'L', 'L', 'E', 'R', '_', 'E', 'X', 'E', 'M', 'P', 'T', 'I', 'O', 'N'][0] != seq!['C', 'A', '_', 'M', 'B', '_', 'R', 'E', 'S', 'E', 'L', 'L', 'E', 'R', '_', 'E', 'X', 'E', 'M', 'P', 'T', 'I', 'O', 'N'][0]);
            assert(seq!['U', 'S', '_', 'U', 'T', '_', 'R', 'E', 'S', 'E', 'L', 'L', 'E', 'R', '_', 'E', 'X', 'E', 'M', 'P', 'T', 'I', 'O', 'N'][0] != seq!['C', 'A', '_', 'O', 'N', '_', 'P', 'U', 'R', 'C', 'H', 'A', 'S', 'E', '_', 'E', 'X', 'E', 'M', 'P', 'T', 'I', 'O', 'N'][0]);
            assert(seq!['U', 'S', '_', 'U', 'T', '_', 'R', 'E', 'S', 'E', 'L', 'L', 'E', 'R', '_', 'E', 'X', 'E', 'M', 'P', 'T', 'I', 'O', 'N'][0] != seq!['C', 'A', '_', 'S', 'K', '_', 'R', 'E', 'S', 'E', 'L', 'L', 'E', 'R', '_', 'E', 'X', 'E', 'M', 'P', 'T', 'I', 'O', 'N'][0]);
            assert(seq!['U', 'S', '_', 'U', 'T', '_', 'R', 'E', 'S', 'E', 'L', 'L', 'E', 'R', '_', 'E', 'X', 'E', 'M', 'P', 'T', 'I', 'O', 'N'][0] != seq!['C', 'A', '_', 'S', 'T', 'A', 'T', 'U', 'S', '_', 'C', 'A', 'R', 'D', '_', 'E', 'X', 'E', 'M', 'P', 'T', 'I', 'O', 'N'][0]);
            assert(seq!['U', 'S', '_', 'U', 'T', '_', 'R', 'E', 'S', 'E', 'L', 'L', 'E', 'R', '_', 'E', 'X', 'E', 'M', 'P', 'T', 'I', 'O', 'N'][3] != seq!['U', 'S', '_', 'A', 'K', '_', 'R', 'E', 'S', 'E', 'L', 'L', 'E', 'R', '_', 'E', 'X', 'E', 'M', 'P', 'T', 'I', 'O', 'N'][3]);
            assert(seq!['U', 'S', '_', 'U', 'T', '_', 'R', 'E', 'S', 'E', 'L', 'L', 'E', 'R', '_', 'E', 'X', 'E', 'M', 'P', 'T', 'I', 'O', 'N'][3] != seq!['U', 'S', '_', 'A', 'L', '_', 'R', 'E', 'S', 'E', 'L', 'L', 'E', 'R', '_', 'E', 'X', 'E', 'M', 'P', 'T', 'I', 'O', 'N'][3]);
            assert(seq!['U', 'S', '_', 'U', 'T', '_', 'R', 'E', 'S', 'E', 'L', 'L', 'E', 'R', '_', 'E', 'X', 'E', 'M', 'P', 'T', 'I', 'O', 'N'][3] != seq!['U', 'S', '_', 'A', 'R', '_', 'R', 'E', 'S', 'E', 'L', 'L', 'E', 'R', '_', 'E', 'X', 'E', 'M', 'P', 'T', 'I', 'O', 'N'][3]);
            assert(seq!['U', 'S', '_', 'U', 'T', '_', 'R', 'E', 'S', 'E', 'L', 'L', 'E', 'R', '_', 'E', 'X', 'E', 'M', 'P', 'T', 'I', 'O', 'N'][3] != seq!['U', 'S', '_', 'A', 'Z', '_', 'R', 'E', 'S', 'E', 'L', 'L', 'E', 'R', '_', 'E', 'X', 'E', 'M', 'P', 'T', 'I', 'O', 'N'][3]);
            assert(seq!['U', 'S', '_', 'U', 'T', '_', 'R', 'E', 'S', 'E', 'L', 'L', 'E', 'R', '_', 'E', 'X', 'E', 'M', 'P', 'T', 'I', 'O', 'N'][3] != seq!['U', 'S', '_', 'C', 'A', '_', 'R', 'E', 'S', 'E', 'L', 'L', 'E', 'R', '_', 'E', 'X', 'E', 'M', 'P', 'T', 'I', 'O', 'N'][3]);
            assert(seq!['U', 'S', '_', 'U', 'T', '_', 'R', 'E', 'S', 'E', 'L', 'L', 'E', 'R', '_', 'E', 'X', 'E', 'M', 'P', 'T', 'I', 'O', 'N'][3] != seq!['U', 'S', '_', 'C', 'O', '_', 'R', 'E', 'S', 'E', 'L', 'L', 'E', 'R', '_', 'E', 'X', 'E', 'M', 'P', 'T', 'I', 'O', 'N'][3]);
            assert(seq!['U', 'S', '_', 'U', 'T', '_', 'R', 'E', 'S', 'E', 'L', 'L', 'E', 'R', '_', 'E', 'X', 'E', 'M', 'P', 'T', 'I', 'O', 'N'][3] != seq!['U', 'S', '_', 'C', 'T', '_', 'R', 'E', 'S', 'E', 'L', 'L', 'E', 'R', '_', 'E', 'X', 'E', 'M', 'P', 'T', 'I', 'O', 'N'][3]);
            assert(seq!['U', 'S', '_', 'U', 'T', '_', 'R', 'E', 'S', 'E', 'L', 'L', 'E', 'R', '_', 'E', 'X', 'E', 'M', 'P', 'T', 'I', 'O', 'N'][3] != seq!['U', 'S', '_', 'D', 'C', '_', 'R', 'E', 'S', 'E', 'L', 'L', 'E', 'R', '_', 'E', 'X', 'E', 'M', 'P', 'T', 'I', 'O', 'N'][3]);
            assert(seq!['U', 'S', '_', 'U', 'T', '_', 'R', 'E', 'S', 'E', 'L', 'L', 'E', 'R', '_', 'E', 'X', 'E', 'M', 'P', 'T', 'I', 'O', 'N'][3] != seq!['U', 'S', '_', 'D', 'E', '_', 'R', 'E', 'S', 'E', 'L', 'L', 'E', 'R', '_', 'E', 'X', 'E', 'M', 'P', 'T', 'I', 'O', 'N'][3]);
            assert(seq!['U', 'S', '_', 'U', 'T', '_', 'R', 'E', 'S', 'E', 'L', 'L', 'E', 'R', '_', 'E', 'X', 'E', 'M', 'P', 'T', 'I', 'O', 'N'][3] != seq!['U', 'S', '_', 'F', 'L', '_', 'R', 'E', 'S', 'E', 'L', 'L', 'E', 'R', '_', 'E', 'X', 'E', 'M', 'P', 'T', 'I', 'O', 'N'][3]);
            assert(seq!['U', 'S', '_', 'U', 'T', '_', 'R', 'E', 'S', 'E', 'L', 'L', 'E', 'R', '_', 'E', 'X', 'E', 'M', 'P', 'T', 'I', 'O', 'N'][3] != seq!['U', 'S', '_', 'G', 'A', '_', 'R', 'E', 'S', 'E', 'L', 'L', 'E', 'R', '_', 'E', 'X', 'E', 'M', 'P', 'T', 'I', 'O', 'N'][3]);
            assert(seq!['U', 'S', '_', 'U', 'T', '_', 'R', 'E', 'S', 'E', 'L', 'L', 'E', 'R', '_', 'E', 'X', 'E', 'M', 'P', 'T', 'I', 'O', 'N'][3] != seq!['U', 'S', '_', 'H', 'I', '_', 'R', 'E', 'S', 'E', 'L', 'L', 'E', 'R', '_', 'E', 'X', 'E', 'M', 'P', 'T', 'I', 'O', 'N'][3]);
            assert(seq!['U', 'S', '_', 'U', 'T', '_', 'R', 'E', 'S', 'E', 'L', 'L', 'E', 'R', '_', 'E', 'X', 'E', 'M', 'P', 'T', 'I', 'O', 'N'][3] != seq!['U', 'S', '_', 'I', 'A', '_', 'R', 'E', 'S', 'E', 'L', 'L', 'E', 'R', '_', 'E', 'X', 'E', 'M', 'P', 'T', 'I', 'O', 'N'][3]);
            assert(seq!['U', 'S', '_', 'U', 'T', '_', 'R', 'E', 'S', 'E', 'L', 'L', 'E', 'R', '_', 'E', 'X', 'E', 'M', 'P', 'T', 'I', 'O', 'N'][3] != seq!['U', 'S', '_', 'I', 'D', '_', 'R', 'E', 'S', 'E', 'L', 'L', 'E', 'R', '_', 'E', 'X', 'E', 'M', 'P', 'T', 'I', 'O', 'N'][3]);
            assert(seq!['U', 'S', '_', 'U', 'T', '_', 'R', 'E', 'S', 'E', 'L', 'L', 'E', 'R', '_', 'E', 'X', 'E', 'M', 'P', 'T', 'I', 'O', 'N'][3] != seq!['U', 'S', '_', 'I', 'L', '_', 'R', 'E', 'S', 'E', 'L', 'L', 'E', 'R', '_', 'E', 'X', 'E', 'M', 'P', 'T', 'I', 'O', 'N'][3]);
            assert(seq!['U', 'S', '_', 'U', 'T', '_', 'R', 'E', 'S', 'E', 'L', 'L', 'E', 'R', '_', 'E', 'X', 'E', 'M', 'P', 'T', 'I', 'O', 'N'][3] != seq!['U', 'S', '_', 'I', 'N', '_', 'R', 'E', 'S', 'E', 'L', 'L', 'E', 'R', '_', 'E', 'X', 'E', 'M', 'P', 'T', 'I', 'O', 'N'][3]);
            assert(seq!['U', 'S', '_', 'U', 'T', '_', 'R', 'E', 'S', 'E', 'L', 'L', 'E', 'R', '_', 'E', 'X', 'E', 'M', 'P', 'T', 'I', 'O', 'N'][3] != seq!['U', 'S', '_', 'K', 'S', '_', 'R', 'E', 'S', 'E', 'L', 'L', 'E', 'R', '_', 'E', 'X', 'E', 'M', 'P', 'T', 'I', 'O', 'N'][3]);
            assert(seq!['U', 'S', '_', 'U', 'T', '_', 'R', 'E', 'S', 'E', 'L', 'L', 'E', 'R', '_', 'E', 'X', 'E', 'M', 'P', 'T', 'I', 'O', 'N'][3] != seq!['U', 'S', '_', 'K', 'Y', '_', 'R', 'E', 'S', 'E', 'L', 'L', 'E', 'R', '_', 'E', 'X', 'E', 'M', 'P', 'T', 'I', 'O', 'N'][3]);
            assert(seq!['U', 'S', '_', 'U', 'T', '_', 'R', 'E', 'S', 'E', 'L', 'L', 'E', 'R', '_', 'E', 'X', 'E', 'M', 'P', 'T', 'I', 'O', 'N'][3] != seq!['U', 'S', '_', 'L', 'A', '_', 'R', 'E', 'S', 'E', 'L', 'L', 'E', 'R', '_', 'E', 'X', 'E', 'M', 'P', 'T', 'I', 'O', 'N'][3]);
            assert(seq!['U', 'S', '_', 'U', 'T', '_', 'R', 'E', 'S', 'E', 'L', 'L', 'E', 'R', '_', 'E', 'X', 'E', 'M', 'P', 'T', 'I', 'O', 'N'][3] != seq!['U', 'S', '_', 'M', 'A', '_', 'R', 'E', 'S', 'E', 'L', 'L', 'E', 'R', '_', 'E', 'X', 'E', 'M', 'P', 'T', 'I', 'O', 'N'][3]);
            assert(seq!['U', 'S', '_', 'U', 'T', '_', 'R', 'E', 'S', 'E', 'L', 'L', 'E', 'R', '_', 'E', 'X', 'E', 'M', 'P', 'T', 'I', 'O', 'N'][3] != seq!['U', 'S', '_', 'M', 'D', '_', 'R', 'E', 'S', 'E', 'L', 'L', 'E', 'R', '_', 'E', 'X', 'E', 'M', 'P', 'T', 'I', 'O', 'N'][3]);
            assert(seq!['U', 'S', '_', 'U', 'T', '_', 'R', 'E', 'S', 'E', 'L', 'L', 'E', 'R', '_', 'E', 'X', 'E', 'M', 'P', 'T', 'I', 'O', 'N'][3] != seq!['U', 'S', '_', 'M', 'E', '_', 'R', 'E', 'S', 'E', 'L', 'L', 'E', 'R', '_', 'E', 'X', 'E', 'M', 'P', 'T', 'I', 'O', 'N'][3]);
            assert(seq!['U', 'S', '_', 'U', 'T', '_', 'R', 'E', 'S', 'E', 'L', 'L', 'E', 'R', '_', 'E', 'X', 'E', 'M', 'P', 'T', 'I', 'O', 'N'][3] != seq!['U', 'S', '_', 'M', 'I', '_', 'R', 'E', 'S', 'E', 'L', 'L', 'E', 'R', '_', 'E', 'X', 'E', 'M', 'P', 'T', 'I', 'O', 'N'][3]);
            assert(seq!['U', 'S', '_', 'U', 'T', '_', 'R', 'E', 'S', 'E', 'L', 'L', 'E', 'R', '_', 'E', 'X', 'E', 'M', 'P', 'T', 'I', 'O', 'N'][3] != seq!['U', 'S', '_', 'M', 'N', '_', 'R', 'E', 'S', 'E', 'L', 'L', 'E', 'R', '_', 'E', 'X', 'E', 'M', 'P', 'T', 'I', 'O', 'N'][3]);
            assert(seq!['U', 'S', '_', 'U', 'T', '_', 'R', 'E', 'S', 'E', 'L', 'L', 'E', 'R', '_', 'E', 'X', 'E', 'M', 'P', 'T', 'I', 'O', 'N'][3] != seq!['U', 'S', '_', 'M', 'O', '_', 'R', 'E', 'S', 'E', 'L', 'L', 'E', 'R', '_', 'E', 'X', 'E', 'M', 'P', 'T', 'I', 'O', 'N'][3]);
            assert(seq!['U', 'S', '_', 'U', 'T', '_', 'R', 'E', 'S', 'E', 'L', 'L', 'E', 'R', '_', 'E', 'X', 'E', 'M', 'P', 'T', 'I', 'O', 'N'][3] != seq!['U', 'S', '_', 'M', 'S', '_', 'R', 'E', 'S', 'E', 'L', 'L', 'E', 'R', '_', 'E', 'X', 'E', 'M', 'P', 'T', 'I', 'O', 'N'][3]);
            assert(seq!['U', 'S', '_', 'U', 'T', '_', 'R', 'E', 'S', 'E', 'L', 'L', 'E', 'R', '_', 'E', 'X', 'E', 'M', 'P', 'T', 'I', 'O', 'N'][3] != seq!['U', 'S', '_', 'M', 'T', '_', 'R', 'E', 'S', 'E', 'L', 'L', 'E', 'R', '_', 'E', 'X', 'E', 'M', 'P', 'T', 'I', 'O', 'N'][3]);
            assert(seq!['U', 'S', '_', 'U', 'T', '_', 'R', 'E', 'S', 'E', 'L', 'L', 'E', 'R', '_', 'E', 'X', 'E', 'M', 'P', 'T', 'I', 'O', 'N'][3] != seq!['U', 'S', '_', 'N', 'C', '_', 'R', 'E', 'S', 'E', 'L', 'L', 'E', 'R', '_', 'E', 'X', 'E', 'M', 'P', 'T', 'I', 'O', 'N'][3]);
            assert(seq!['U', 'S', '_', 'U', 'T', '_', 'R', 'E', 'S', 'E', 'L', 'L', 'E', 'R', '_', 'E', 'X', 'E', 'M', 'P', 'T', 'I', 'O', 'N'][3] != seq!['U', 'S', '_', 'N', 'D', '_', 'R', 'E', 'S', 'E', 'L', 'L', 'E', 'R', '_', 'E', 'X', 'E', 'M', 'P', 'T', 'I', 'O', 'N'][3]);
            assert(seq!['U', 'S', '_', 'U', 'T', '_', 'R', 'E', 'S', 'E', 'L', 'L', 'E', 'R', '_', 'E', 'X', 'E', 'M', 'P', 'T', 'I', 'O', 'N'][3] != seq!['U', 'S', '_', 'N', 'E', '_', 'R', 'E', 'S', 'E', 'L', 'L', 'E', 'R', '_', 'E', 'X', 'E', 'M', 'P', 'T', 'I', 'O', 'N'][3]);
            assert(seq!['U', 'S', '_', 'U', 'T', '_', 'R', 'E', 'S', 'E', 'L', 'L', 'E', 'R', '_', 'E', 'X', 'E', 'M', 'P', 'T', 'I', 'O', 'N'][3] != seq!['U', 'S', '_', 'N', 'H', '_', 'R', 'E', 'S', 'E', 'L', 'L', 'E', 'R', '_', 'E', 'X', 'E', 'M', 'P', 'T', 'I', 'O', 'N'][3]);
            assert(seq!['U', 'S', '_', 'U', 'T', '_', 'R', 'E', 'S', 'E', 'L', 'L', 'E', 'R', '_', 'E', 'X', 'E', 'M', 'P', 'T', 'I', 'O', 'N'][3] != seq!['U', 'S', '_', 'N', 'J', '_', 'R', 'E', 'S', 'E', 'L', 'L', 'E', 'R', '_', 'E', 'X', 'E', 'M', 'P', 'T', 'I', 'O', 'N'][3]);
            assert(seq!['U', 'S', '_', 'U', 'T', '_', 'R', 'E', 'S', 'E', 'L', 'L', 'E', 'R', '_', 'E', 'X', 'E', 'M', 'P', 'T', 'I', 'O', 'N'][3] != seq!['U', 'S', '_', 'N', 'M', '_', 'R', 'E', 'S', 'E', 'L', 'L', 'E', 'R', '_', 'E', 'X', 'E', 'M', 'P', 'T', 'I', 'O', 'N'][3]);
            assert(seq!['U', 'S', '_', 'U', 'T', '_', 'R', 'E', 'S', 'E', 'L', 'L', 'E', 'R', '_', 'E', 'X', 'E', 'M', 'P', 'T', 'I', 'O', 'N'][3] != seq!['U', 'S', '_', 'N', 'V', '_', 'R', 'E', 'S', 'E', 'L', 'L', 'E', 'R', '_', 'E', 'X', 'E', 'M', 'P', 'T', 'I', 'O', 'N'][3]);
            assert(seq!['U', 'S', '_', 'U', 'T', '_', 'R', 'E', 'S', 'E', 'L', 'L', 'E', 'R', '_', 'E', 'X', 'E', 'M', 'P', 'T', 'I', 'O', 'N'][3] != seq!['U', 'S', '_', 'N', 'Y', '_', 'R', 'E', 'S', 'E', 'L', 'L', 'E', 'R', '_', 'E', 'X', 'E', 'M', 'P', 'T', 'I', 'O', 'N'][3]);
            assert(seq!['U', 'S', '_', 'U', 'T', '_', 'R', 'E', 'S', 'E', 'L', 'L', 'E', 'R', '_', 'E', 'X', 'E', 'M', 'P', 'T', 'I', 'O', 'N'][3] != seq!['U', 'S', '_', 'O', 'H', '_', 'R', 'E', 'S', 'E', 'L', 'L', 'E', 'R', '_', 'E', 'X', 'E', 'M', 'P', 'T', 'I', 'O', 'N'][3]);
            assert(seq!['U', 'S', '_', 'U', 'T', '_', 'R', 'E', 'S', 'E', 'L', 'L', 'E', 'R', '_', 'E', 'X', 'E', 'M', 'P', 'T', 'I', 'O', 'N'][3] != seq!['U', 'S', '_', 'O', 'K', '_', 'R', 'E', 'S', 'E', 'L', 'L', 'E', 'R', '_', 'E', 'X', 'E', 'M', 'P', 'T', 'I', 'O', 'N'][3]);
            assert(seq!['U', 'S', '_', 'U', 'T', '_', 'R', 'E', 'S', 'E', 'L', 'L', 'E', 'R', '_', 'E', 'X', 'E', 'M', 'P', 'T', 'I', 'O', 'N'][3] != seq!['U', 'S', '_', 'O', 'R', '_', 'R', 'E', 'S', 'E', 'L', 'L', 'E', 'R', '_', 'E', 'X', 'E', 'M', 'P', 'T', 'I', 'O', 'N'][3]);
            assert(seq!['U', 'S', '_', 'U', 'T', '_', 'R', 'E', 'S', 'E', 'L', 'L', 'E', 'R', '_', 'E', 'X', 'E', 'M', 'P', 'T', 'I', 'O', 'N'][3] != seq!['U', 'S', '_', 'P', 'A', '_', 'R', 'E', 'S', 'E', 'L', 'L', 'E', 'R', '_', 'E', 'X', 'E', 'M', 'P', 'T', 'I', 'O', 'N'][3]);
            assert(seq!['U', 'S', '_', 'U', 'T', '_', 'R', 'E', 'S', 'E', 'L', 'L', 'E', 'R', '_', 'E', 'X', 'E', 'M', 'P', 'T', 'I', 'O', 'N'][3] != seq!['U', 'S', '_', 'R', 'I', '_', 'R', 'E', 'S', 'E', 'L', 'L', 'E', 'R', '_', 'E', 'X', 'E', 'M', 'P', 'T', 'I', 'O', 'N'][3]);
            assert(seq!['U', 'S', '_', 'U', 'T', '_', 'R', 'E', 'S', 'E', 'L', 'L', 'E', 'R', '_', 'E', 'X', 'E', 'M', 'P', 'T', 'I', 'O', 'N'][3] != seq!['U', 'S', '_', 'S', 'C', '_', 'R', 'E', 'S', 'E', 'L', 'L', 'E', 'R', '_', 'E', 'X', 'E', 'M', 'P', 'T', 'I', 'O', 'N'][3]);
            assert(seq!['U', 'S', '_', 'U', 'T', '_', 'R', 'E', 'S', 'E', 'L', 'L', 'E', 'R', '_', 'E', 'X', 'E', 'M', 'P', 'T', 'I', 'O', 'N'][3] != seq!['U', 'S', '_', 'S', 'D', '_', 'R', 'E', 'S', 'E', 'L', 'L', 'E', 'R', '_', 'E', 'X', 'E', 'M', 'P', 'T', 'I', 'O', 'N'][3]);
            assert(seq!['U', 'S', '_', 'U', 'T', '_', 'R', 'E', 'S', 'E', 'L', 'L', 'E', 'R', '_', 'E', 'X', 'E', 'M', 'P', 'T', 'I', 'O', 'N'][3] != seq!['U', 'S', '_', 'T', 'N', '_', 'R', 'E', 'S', 'E', 'L', 'L', 'E', 'R', '_', 'E', 'X', 'E', 'M', 'P', 'T', 'I', 'O', 'N'][3]);
            assert(seq!['U', 'S', '_', 'U', 'T', '_', 'R', 'E', 'S', 'E', 'L', 'L', 'E', 'R', '_', 'E', 'X', 'E', 'M', 'P', 'T', 'I', 'O', 'N'][3] != seq!['U', 'S', '_', 'T', 'X', '_', 'R', 'E', 'S', 'E', 'L', 'L', 'E', 'R', '_', 'E', 'X', 'E', 'M', 'P', 'T', 'I', 'O', 'N'][3]);
        },
        TaxExemption::US_VA_RESELLER_EXEMPTION => {
            assert(seq!['U', 'S', '_', 'V', 'A', '_', 'R', 'E', 'S', 'E', 'L', 'L', 'E', 'R', '_', 'E', 'X', 'E', 'M', 'P', 'T', 'I', 'O', 'N'][0] != seq!['C', 'A', '_', 'B', 'C', '_', 'R', 'E', 'S', 'E', 'L', 'L', 'E', 'R', '_', 'E', 'X', 'E', 'M', 'P', 'T', 'I', 'O', 'N'][0]);
            assert(seq!['U', 'S', '_', 'V', 'A', '_', 'R', 'E', 'S', 'E', 'L', 'L', 'E', 'R', '_', 'E', 'X', 'E', 'M', 'P', 'T', 'I', 'O', 'N'][0] != seq!['C', 'A', '_', 'M', 'B', '_', 'R', 'E', 'S', 'E', 'L', 'L', 'E', 'R', '_', 'E', 'X', 'E', 'M', 'P', 'T', 'I', 'O', 'N'][0]);
            assert(seq!['U', 'S', '_', 'V', 'A', '_', 'R', 'E', 'S', 'E', 'L', 'L', 'E', 'R', '_', 'E', 'X', 'E', 'M', 'P', 'T', 'I', 'O', 'N'][0] != seq!['C', 'A', '_', 'O', 'N', '_', 'P', 'U', 'R', 'C', 'H', 'A', 'S', 'E', '_', 'E', 'X', 'E', 'M', 'P', 'T', 'I', 'O', 'N'][0]);
            assert(seq!['U', 'S', '_', 'V', 'A', '_', 'R', 'E', 'S', 'E', 'L', 'L', 'E', 'R', '_', 'E', 'X', 'E', 'M', 'P', 'T', 'I', 'O', 'N'][0] != seq!['C', 'A', '_', 'S', 'K', '_', 'R', 'E', 'S', 'E', 'L', 'L', 'E', 'R', '_', 'E', 'X', 'E', 'M', 'P', 'T', 'I', 'O', 'N'][0]);
            assert(seq!['U', 'S', '_', 'V', 'A', '_', 'R', 'E', 'S', 'E', 'L', 'L', 'E', 'R', '_', 'E', 'X', 'E', 'M', 'P', 'T', 'I', 'O', 'N'][0] != seq!['C', 'A', '_', 'S', 'T', 'A', 'T', 'U', 'S', '_', 'C', 'A', 'R', 'D', '_', 'E', 'X', 'E', 'M', 'P', 'T', 'I', 'O', 'N'][0]);
            assert(seq!['U', 'S', '_', 'V', 'A', '_', 'R', 'E', 'S', 'E', 'L', 'L', 'E', 'R', '_', 'E', 'X', 'E', 'M', 'P', 'T', 'I', 'O', 'N'][3] != seq!['U', 'S', '_', 'A', 'K', '_', 'R', 'E', 'S', 'E', 'L', 'L', 'E', 'R', '_', 'E', 'X', 'E', 'M', 'P', 'T', 'I', 'O', 'N'][3]);
            assert(seq!['U', 'S', '_', 'V', 'A', '_', 'R', 'E', 'S', 'E', 'L', 'L', 'E', 'R', '_', 'E', 'X', 'E', 'M', 'P', 'T', 'I', 'O', 'N'][3] != seq!['U', 'S', '_', 'A', 'L', '_', 'R', 'E', 'S', 'E', 'L', 'L', 'E', 'R', '_', 'E', 'X', 'E', 'M', 'P', 'T', 'I', 'O', 'N'][3]);
            assert(seq!['U', 'S', '_', 'V', 'A', '_', 'R', 'E', 'S', 'E', 'L', 'L', 'E', 'R', '_', 'E', 'X', 'E', 'M', 'P', 'T', 'I', 'O', 'N'][3] != seq!['U', 'S', '_', 'A', 'R', '_', 'R', 'E', 'S', 'E', 'L', 'L', 'E', 'R', '_', 'E', 'X', 'E', 'M', 'P', 'T', 'I', 'O', 'N'][3]);
            assert(seq!['U', 'S', '_', 'V', 'A', '_', 'R', 'E', 'S', 'E', 'L', 'L', 'E', 'R', '_', 'E', 'X', 'E', 'M', 'P', 'T', 'I', 'O', 'N'][3] != seq!['U', 'S', '_', 'A', 'Z', '_', 'R', 'E', 'S', 'E', 'L', 'L', 'E', 'R', '_', 'E', 'X', 'E', 'M', 'P', 'T', 'I', 'O', 'N'][3]);
            assert(seq!['U', 'S', '_', 'V', 'A', '_', 'R', 'E', 'S', 'E', 'L', 'L', 'E', 'R', '_', 'E', 'X', 'E', 'M', 'P', 'T', 'I', 'O', 'N'][3] != seq!['U', 'S', '_', 'C', 'A', '_', 'R', 'E', 'S', 'E', 'L', 'L', 'E', 'R', '_', 'E', 'X', 'E', 'M', 'P', 'T', 'I', 'O', 'N'][3]);
            assert(seq!['U', 'S', '_', 'V', 'A', '_', 'R', 'E', 'S', 'E', 'L', 'L', 'E', 'R', '_', 'E', 'X', 'E', 'M', 'P', 'T', 'I', 'O', 'N'][3] != seq!['U', 'S', '_', 'C', 'O', '_', 'R', 'E', 'S', 'E', 'L', 'L', 'E', 'R', '_', 'E', 'X', 'E', 'M', 'P', 'T', 'I', 'O', 'N'][3]);
            assert(seq!['U', 'S', '_', 'V', 'A', '_', 'R', 'E', 'S', 'E', 'L', 'L', 'E', 'R', '_', 'E', 'X', 'E', 'M', 'P', 'T', 'I', 'O', 'N'][3] != seq!['U', 'S', '_', 'C', 'T', '_', 'R', 'E', 'S', 'E', 'L', 'L', 'E', 'R', '_', 'E', 'X', 'E', 'M', 'P', 'T', 'I', 'O', 'N'][3]);
            assert(seq!['U', 'S', '_', 'V', 'A', '_', 'R', 'E', 'S', 'E', 'L', 'L', 'E', 'R', '_', 'E', 'X', 'E', 'M', 'P', 'T', 'I', 'O', 'N'][3] != seq!['U', 'S', '_', 'D', 'C', '_', 'R', 'E', 'S', 'E', 'L', 'L', 'E', 'R', '_', 'E', 'X', 'E', 'M', 'P', 'T', 'I', 'O', 'N'][3]);
            assert(seq!['U', 'S', '_', 'V', 'A', '_', 'R', 'E', 'S', 'E', 'L', 'L', 'E', 'R', '_', 'E', 'X', 'E', 'M', 'P', 'T', 'I', 'O', 'N'][3] != seq!['U', 'S', '_', 'D', 'E', '_', 'R', 'E', 'S', 'E', 'L', 'L', 'E', 'R', '_', 'E', 'X', 'E', 'M', 'P', 'T', 'I', 'O', 'N'][3]);
            assert(seq!['U', 'S', '_', 'V', 'A', '_', 'R', 'E', 'S', 'E', 'L', 'L', 'E', 'R', '_', 'E', 'X', 'E', 'M', 'P', 'T', 'I', 'O', 'N'][3] != seq!['U', 'S', '_', 'F', 'L', '_', 'R', 'E', 'S', 'E', 'L', 'L', 'E', 'R', '_', 'E', 'X', 'E', 'M', 'P', 'T', 'I', 'O', 'N'][3]);
            assert(seq!['U', 'S', '_', 'V', 'A', '_', 'R', 'E', 'S', 'E', 'L', 'L', 'E', 'R', '_', 'E', 'X', 'E', 'M', 'P', 'T', 'I', 'O', 'N'][3] != seq!['U', 'S', '_', 'G', 'A', '_', 'R', 'E', 'S', 'E', 'L', 'L', 'E', 'R', '_', 'E', 'X', 'E', 'M', 'P', 'T', 'I', 'O', 'N'][3]);
            assert(seq!['U', 'S', '_', 'V', 'A', '_', 'R', 'E', 'S', 'E', 'L', 'L', 'E', 'R', '_', 'E', 'X', 'E', 'M', 'P', 'T', 'I', 'O', 'N'][3] != seq!['U', 'S', '_', 'H', 'I', '_', 'R', 'E', 'S', 'E', 'L', 'L', 'E', 'R', '_', 'E', 'X', 'E', 'M', 'P', 'T', 'I', 'O', 'N'][3]);
            assert(seq!['U', 'S', '_', 'V', 'A', '_', 'R', 'E', 'S', 'E', 'L', 'L', 'E', 'R', '_', 'E', 'X', 'E', 'M', 'P', 'T', 'I', 'O', 'N'][3] != seq!['U', 'S', '_', 'I', 'A', '_', 'R', 'E', 'S', 'E', 'L', 'L', 'E', 'R', '_', 'E', 'X', 'E', 'M', 'P', 'T', 'I', 'O', 'N'][3]);
            assert(seq!['U', 'S', '_', 'V', 'A', '_', 'R', 'E', 'S', 'E', 'L', 'L', 'E', 'R', '_', 'E', 'X', 'E', 'M', 'P', 'T', 'I', 'O', 'N'][3] != seq!['U', 'S', '_', 'I', 'D', '_', 'R', 'E', 'S', 'E', 'L', 'L', 'E', 'R', '_', 'E', 'X', 'E', 'M', 'P', 'T', 'I', 'O', 'N'][3]);
            assert(seq!['U', 'S', '_', 'V', 'A', '_', 'R', 'E', 'S', 'E', 'L', 'L', 'E', 'R', '_', 'E', 'X', 'E', 'M', 'P', 'T', 'I', 'O', 'N'][3] != seq!['U', 'S', '_', 'I', 'L', '_', 'R', 'E', 'S', 'E', 'L', 'L', 'E', 'R', '_', 'E', 'X', 'E', 'M', 'P', 'T', 'I', 'O', 'N'][3]);
            assert(seq!['U', 'S', '_', 'V', 'A', '_', 'R', 'E', 'S', 'E', 'L', 'L', 'E', 'R', '_', 'E', 'X', 'E', 'M', 'P', 'T', 'I', 'O', 'N'][3] != seq!['U', 'S', '_', 'I', 'N', '_', 'R', 'E', 'S', 'E', 'L', 'L', 'E', 'R', '_', 'E', 'X', 'E', 'M', 'P', 'T', 'I', 'O', 'N'][3]);
            assert(seq!['U', 'S', '_', 'V', 'A', '_', 'R', 'E', 'S', 'E', 'L', 'L', 'E', 'R', '_', 'E', 'X', 'E', 'M', 'P', 'T', 'I', 'O', 'N'][3] != seq!['U', 'S', '_', 'K', 'S', '_', 'R', 'E', 'S', 'E', 'L', 'L', 'E', 'R', '_', 'E', 'X', 'E', 'M', 'P', 'T', 'I', 'O', 'N'][3]);
            assert(seq!['U', 'S', '_', 'V', 'A', '_', 'R', 'E', 'S', 'E', 'L', 'L', 'E', 'R', '_', 'E', 'X', 'E', 'M', 'P', 'T', 'I', 'O', 'N'][3] != seq!['U', 'S', '_', 'K', 'Y', '_', 'R', 'E', 'S', 'E', 'L', 'L', 'E', 'R', '_', 'E', 'X', 'E', 'M', 'P', 'T', 'I', 'O', 'N'][3]);
            assert(seq!['U', 'S', '_', 'V', 'A', '_', 'R', 'E', 'S', 'E', 'L', 'L', 'E', 'R', '_', 'E', 'X', 'E', 'M', 'P', 'T', 'I', 'O', 'N'][3] != seq!['U', 'S', '_', 'L', 'A', '_', 'R', 'E', 'S', 'E', 'L', 'L', 'E', 'R', '_', 'E', 'X', 'E', 'M', 'P', 'T', 'I', 'O', 'N'][3]);
            assert(seq!['U', 'S', '_', 'V', 'A', '_', 'R', 'E', 'S', 'E', 'L', 'L', 'E', 'R', '_', 'E', 'X', 'E', 'M', 'P', 'T', 'I', 'O', 'N'][3] != seq!['U', 'S', '_', 'M', 'A', '_', 'R', 'E', 'S', 'E', 'L', 'L', 'E', 'R', '_', 'E', 'X', 'E', 'M', 'P', 'T', 'I', 'O', 'N'][3]);
            assert(seq!['U', 'S', '_', 'V', 'A', '_', 'R', 'E', 'S', 'E', 'L', 'L', 'E', 'R', '_', 'E', 'X', 'E', 'M', 'P', 'T', 'I', 'O', 'N'][3] != seq!['U', 'S', '_', 'M', 'D', '_', 'R', 'E', 'S', 'E', 'L', 'L', 'E', 'R', '_', 'E', 'X', 'E', 'M', 'P', 'T', 'I', 'O', 'N'][3]);
            assert(seq!['U', 'S', '_', 'V', 'A', '_', 'R', 'E', 'S', 'E', 'L', 'L', 'E', 'R', '_', 'E', 'X', 'E', 'M', 'P', 'T', 'I', 'O', 'N'][3] != seq!['U', 'S', '_', 'M', 'E', '_', 'R', 'E', 'S', 'E', 'L', 'L', 'E', 'R', '_', 'E', 'X', 'E', 'M', 'P', 'T', 'I', 'O', 'N'][3]);
            assert(seq!['U', 'S', '_', 'V', 'A', '_', 'R', 'E', 'S', 'E', 'L', 'L', 'E', 'R', '_', 'E', 'X', 'E', 'M', 'P', 'T', 'I', 'O', 'N'][3] != seq!['U', 'S', '_', 'M', 'I', '_', 'R', 'E', 'S', 'E', 'L', 'L', 'E', 'R', '_', 'E', 'X', 'E', 'M', 'P', 'T', 'I', 'O', 'N'][3]);
            assert(seq!['U', 'S', '_', 'V', 'A', '_', 'R', 'E', 'S', 'E', 'L', 'L', 'E', 'R', '_', 'E', 'X', 'E', 'M', 'P', 'T', 'I', 'O', 'N'][3] != seq!['U', 'S', '_', 'M', 'N', '_', 'R', 'E', 'S', 'E', 'L', 'L', 'E', 'R', '_', 'E', 'X', 'E', 'M', 'P', 'T', 'I', 'O', 'N'][3]);
            assert(seq!['U', 'S', '_', 'V', 'A', '_', 'R', 'E', 'S', 'E', 'L', 'L', 'E', 'R', '_', 'E', 'X', 'E', 'M', 'P', 'T', 'I', 'O', 'N'][3] != seq!['U', 'S', '_', 'M', 'O', '_', 'R', 'E', 'S', 'E', 'L', 'L', 'E', 'R', '_', 'E', 'X', 'E', 'M', 'P', 'T', 'I', 'O', 'N'][3]);
            assert(seq!['U', 'S', '_', 'V', 'A', '_', 'R', 'E', 'S', 'E', 'L', 'L', 'E', 'R', '_', 'E', 'X', 'E', 'M', 'P', 'T', 'I', 'O', 'N'][3] != seq!['U', 'S', '_', 'M', 'S', '_', 'R', 'E', 'S', 'E', 'L', 'L', 'E', 'R', '_', 'E', 'X', 'E', 'M', 'P', 'T', 'I', 'O', 'N'][3]);
            assert(seq!['U', 'S', '_', 'V', 'A', '_', 'R', 'E', 'S', 'E', 'L', 'L', 'E', 'R', '_', 'E', 'X', 'E', 'M', 'P', 'T', 'I', 'O', 'N'][3] != seq!['U', 'S', '_', 'M', 'T', '_', 'R', 'E', 'S', 'E', 'L', 'L', 'E', 'R', '_', 'E', 'X', 'E', 'M', 'P', 'T', 'I', 'O', 'N'][3]);
            assert(seq!['U', 'S', '_', 'V', 'A', '_', 'R', 'E', 'S', 'E', 'L', 'L', 'E', 'R', '_', 'E', 'X', 'E', 'M', 'P', 'T', 'I', 'O', 'N'][3] != seq!['U', 'S', '_', 'N', 'C', '_', 'R', 'E', 'S', 'E', 'L', 'L', 'E', 'R', '_', 'E', 'X', 'E', 'M', 'P', 'T', 'I', 'O', 'N'][3]);
            assert(seq!['U', 'S', '_', 'V', 'A', '_', 'R', 'E', 'S', 'E', 'L', 'L', 'E', 'R', '_', 'E', 'X', 'E', 'M', 'P', 'T', 'I', 'O', 'N'][3] != seq!['U', 'S', '_', 'N', 'D', '_', 'R', 'E', 'S', 'E', 'L', 'L', 'E', 'R', '_', 'E', 'X', 'E', 'M', 'P', 'T', 'I', 'O', 'N'][3]);
            assert(seq!['U', 'S', '_', 'V', 'A', '_', 'R', 'E', 'S', 'E', 'L', 'L', 'E', 'R', '_', 'E', 'X', 'E', 'M', 'P', 'T', 'I', 'O', 'N'][3] != seq!['U', 'S', '_', 'N', 'E', '_', 'R', 'E', 'S', 'E', 'L', 'L', 'E', 'R', '_', 'E', 'X', 'E', 'M', 'P', 'T', 'I', 'O', 'N'][3]);
            assert(seq!['U', 'S', '_', 'V', 'A', '_', 'R', 'E', 'S', 'E', 'L', 'L', 'E', 'R', '_', 'E', 'X', 'E', 'M', 'P', 'T', 'I', 'O', 'N'][3] != seq!['U', 'S', '_', 'N', 'H', '_', 'R', 'E', 'S', 'E', 'L', 'L', 'E', 'R', '_', 'E', 'X', 'E', 'M', 'P', 'T', 'I', 'O', 'N'][3]);
            assert(seq!['U', 'S', '_', 'V', 'A', '_', 'R', 'E', 'S', 'E', 'L', 'L', 'E', 'R', '_', 'E', 'X', 'E', 'M', 'P', 'T', 'I', 'O', 'N'][3] != seq!['U', 'S', '_', 'N', 'J', '_', 'R', 'E', 'S', 'E', 'L', 'L', 'E', 'R', '_', 'E', 'X', 'E', 'M', 'P', 'T', 'I', 'O', 'N'][3]);
            assert(seq!['U', 'S', '_', 'V', 'A', '_', 'R', 'E', 'S', 'E', 'L', 'L', 'E', 'R', '_', 'E', 'X', 'E', 'M', 'P', 'T', 'I', 'O', 'N'][3] != seq!['U', 'S', '_', 'N', 'M', '_', 'R', 'E', 'S', 'E', 'L', 'L', 'E', 'R', '_', 'E', 'X', 'E', 'M', 'P', 'T', 'I', 'O', 'N'][3]);
            assert(seq!['U', 'S', '_', 'V', 'A', '_', 'R', 'E', 'S', 'E', 'L', 'L', 'E', 'R', '_', 'E', 'X', 'E', 'M', 'P', 'T', 'I', 'O', 'N'][3] != seq!['U', 'S', '_', 'N', 'V', '_', 'R', 'E', 'S', 'E', 'L', 'L', 'E', 'R', '_', 'E', 'X', 'E', 'M', 'P', 'T', 'I', 'O', 'N'][3]);
            assert(seq!['U', 'S', '_', 'V', 'A', '_', 'R', 'E', 'S', 'E', 'L', 'L', 'E', 'R', '_', 'E', 'X', 'E', 'M', 'P', 'T', 'I', 'O', 'N'][3] != seq!['U', 'S', '_', 'N', 'Y', '_', 'R', 'E', 'S', 'E', 'L', 'L', 'E', 'R', '_', 'E', 'X', 'E', 'M', 'P', 'T', 'I', 'O', 'N'][3]);
            assert(seq!['U', 'S', '_', 'V', 'A', '_', 'R', 'E', 'S', 'E', 'L', 'L', 'E', 'R', '_', 'E', 'X', 'E', 'M', 'P', 'T', 'I', 'O', 'N'][3] != seq!['U', 'S', '_', 'O', 'H', '_', 'R', 'E', 'S', 'E', 'L', 'L', 'E', 'R', '_', 'E', 'X', 'E', 'M', 'P', 'T', 'I', 'O', 'N'][3]);
            assert(seq!['U', 'S', '_', 'V', 'A', '_', 'R', 'E', 'S', 'E', 'L', 'L', 'E', 'R', '_', 'E', 'X', 'E', 'M', 'P', 'T', 'I', 'O', 'N'][3] != seq!['U', 'S', '_', 'O', 'K', '_', 'R', 'E', 'S', 'E', 'L', 'L', 'E', 'R', '_', 'E', 'X', 'E', 'M', 'P', 'T', 'I', 'O', 'N'][3]);
            assert(seq!['U', 'S', '_', 'V', 'A', '_', 'R', 'E', 'S', 'E', 'L', 'L', 'E', 'R', '_', 'E', 'X', 'E', 'M', 'P', 'T', 'I', 'O', 'N'][3] != seq!['U', 'S', '_', 'O', 'R', '_', 'R', 'E', 'S', 'E', 'L', 'L', 'E', 'R', '_', 'E', 'X', 'E', 'M', 'P', 'T', 'I', 'O', 'N'][3]);
            assert(seq!['U', 'S', '_', 'V', 'A', '_', 'R', 'E', 'S', 'E', 'L', 'L', 'E', 'R', '_', 'E', 'X', 'E', 'M', 'P', 'T', 'I', 'O', 'N'][3] != seq!['U', 'S', '_', 'P', 'A', '_', 'R', 'E', 'S', 'E', 'L', 'L', 'E', 'R', '_', 'E', 'X', 'E', 'M', 'P', 'T', 'I', 'O', 'N'][3]);
            assert(seq!['U', 'S', '_', 'V', 'A', '_', 'R', 'E', 'S', 'E', 'L', 'L', 'E', 'R', '_', 'E', 'X', 'E', 'M', 'P', 'T', 'I', 'O', 'N'][3] != seq!['U', 'S', '_', 'R', 'I', '_', 'R', 'E', 'S', 'E', 'L', 'L', 'E', 'R', '_', 'E', 'X', 'E', 'M', 'P', 'T', 'I', 'O', 'N'][3]);
            assert(seq!['U', 'S', '_', 'V', 'A', '_', 'R', 'E', 'S', 'E', 'L', 'L', 'E', 'R', '_', 'E', 'X', 'E', 'M', 'P', 'T', 'I', 'O', 'N'][3] != seq!['U', 'S', '_', 'S', 'C', '_', 'R', 'E', 'S', 'E', 'L', 'L', 'E', 'R', '_', 'E', 'X', 'E', 'M', 'P', 'T', 'I', 'O', 'N'][3]);
            assert(seq!['U', 'S', '_', 'V', 'A', '_', 'R', 'E', 'S', 'E', 'L', 'L', 'E', 'R', '_', 'E', 'X', 'E', 'M', 'P', 'T', 'I', 'O', 'N'][3] != seq!['U', 'S', '_', 'S', 'D', '_', 'R', 'E', 'S', 'E', 'L', 'L', 'E', 'R', '_', 'E', 'X', 'E', 'M', 'P', 'T', 'I', 'O', 'N'][3]);
            assert(seq!['U', 'S', '_', 'V', 'A', '_', 'R', 'E', 'S', 'E', 'L', 'L', 'E', 'R', '_', 'E', 'X', 'E', 'M', 'P', 'T', 'I', 'O', 'N'][3] != seq!['U', 'S', '_', 'T', 'N', '_', 'R', 'E', 'S', 'E', 'L', 'L', 'E', 'R', '_', 'E', 'X', 'E', 'M', 'P', 'T', 'I', 'O', 'N'][3]);
            assert(seq!['U', 'S', '_', 'V', 'A', '_', 'R', 'E', 'S', 'E', 'L', 'L', 'E', 'R', '_', 'E', 'X', 'E', 'M', 'P', 'T', 'I', 'O', 'N'][3] != seq!['U', 'S', '_', 'T', 'X', '_', 'R', 'E', 'S', 'E', 'L', 'L', 'E', 'R', '_', 'E', 'X', 'E', 'M', 'P', 'T', 'I', 'O', 'N'][3]);
            assert(seq!['U', 'S', '_', 'V', 'A', '_', 'R', 'E', 'S', 'E', 'L', 'L', 'E', 'R', '_', 'E', 'X', 'E', 'M', 'P', 'T', 'I', 'O', 'N'][3] != seq!['U', 'S', '_', 'U', 'T', '_', 'R', 'E', 'S', 'E', 'L', 'L', 'E', 'R', '_', 'E', 'X', 'E', 'M', 'P', 'T', 'I', 'O', 'N'][3]);
        },
        TaxExemption::US_VT_RESELLER_EXEMPTION => {
            assert(seq!['U', 'S', '_', 'V', 'T', '_', 'R', 'E', 'S', 'E', 'L', 'L', 'E', 'R', '_', 'E', 'X', 'E', 'M', 'P', 'T', 'I', 'O', 'N'][0] != seq!['C', 'A', '_', 'B', 'C', '_', 'R', 'E', 'S', 'E', 'L', 'L', 'E', 'R', '_', 'E', 'X', 'E', 'M', 'P', 'T', 'I', 'O', 'N'][0]);
            assert(seq!['U', 'S', '_', 'V', 'T', '_', 'R', 'E', 'S', 'E', 'L', 'L', 'E', 'R', '_', 'E', 'X', 'E', 'M', 'P', 'T', 'I', 'O', 'N'][0] != seq!['C', 'A', '_', 'M', 'B', '_', 'R', 'E', 'S', 'E', 'L', 'L', 'E', 'R', '_', 'E', 'X', 'E', 'M', 'P', 'T', 'I', 'O', 'N'][0]);
            assert(seq!['U', 'S', '_', 'V', 'T', '_', 'R', 'E', 'S', 'E', 'L', 'L', 'E', 'R', '_', 'E', 'X', 'E', 'M', 'P', 'T', 'I', 'O', 'N'][0] != seq!['C', 'A', '_', 'O', 'N', '_', 'P', 'U', 'R', 'C', 'H', 'A', 'S', 'E', '_', 'E', 'X', 'E', 'M', 'P', 'T', 'I', 'O', 'N'][0]);
            assert(seq!['U', 'S', '_', 'V', 'T', '_', 'R', 'E', 'S', 'E', 'L', 'L', 'E', 'R', '_', 'E', 'X', 'E', 'M', 'P', 'T', 'I', 'O', 'N'][0] != seq!['C', 'A', '_', 'S', 'K', '_', 'R', 'E', 'S', 'E', 'L', 'L', 'E', 'R', '_', 'E', 'X', 'E', 'M', 'P', 'T', 'I', 'O', 'N'][0]);
            assert(seq!['U', 'S', '_', 'V', 'T', '_', 'R', 'E', 'S', 'E', 'L', 'L', 'E', 'R', '_', 'E', 'X', 'E', 'M', 'P', 'T', 'I', 'O', 'N'][0] != seq!['C', 'A', '_', 'S', 'T', 'A', 'T', 'U', 'S', '_', 'C', 'A', 'R', 'D', '_', 'E', 'X', 'E', 'M', 'P', 'T', 'I', 'O', 'N'][0]);
            assert(seq!['U', 'S', '_', 'V', 'T', '_', 'R', 'E', 'S', 'E', 'L', 'L', 'E', 'R', '_', 'E', 'X', 'E', 'M', 'P', 'T', 'I', 'O', 'N'][3] != seq!['U', 'S', '_', 'A', 'K', '_', 'R', 'E', 'S', 'E', 'L', 'L', 'E', 'R', '_', 'E', 'X', 'E', 'M', 'P', 'T', 'I', 'O', 'N'][3]);
            assert(seq!['U', 'S', '_', 'V', 'T', '_', 'R', 'E', 'S', 'E', 'L', 'L', 'E', 'R', '_', 'E', 'X', 'E', 'M', 'P', 'T', 'I', 'O', 'N'][3] != seq!['U', 'S', '_', 'A', 'L', '_', 'R', 'E', 'S', 'E', 'L', 'L', 'E', 'R', '_', 'E', 'X', 'E', 'M', 'P', 'T', 'I', 'O', 'N'][3]);
            assert(seq!['U', 'S', '_', 'V', 'T', '_', 'R', 'E', 'S', 'E', 'L', 'L', 'E', 'R', '_', 'E', 'X', 'E', 'M', 'P', 'T', 'I', 'O', 'N'][3] != seq!['U', 'S', '_', 'A', 'R', '_', 'R', 'E', 'S', 'E', 'L', 'L', 'E', 'R', '_', 'E', 'X', 'E', 'M', 'P', 'T', 'I', 'O', 'N'][3]);
            assert(seq!['U', 'S', '_', 'V', 'T', '_', 'R', 'E', 'S', 'E', 'L', 'L', 'E', 'R', '_', 'E', 'X', 'E', 'M', 'P', 'T', 'I', 'O', 'N'][3] != seq!['U', 'S', '_', 'A', 'Z', '_', 'R', 'E', 'S', 'E', 'L', 'L', 'E', 'R', '_', 'E', 'X', 'E', 'M', 'P', 'T', 'I', 'O', 'N'][3]);
            assert(seq!['U', 'S', '_', 'V', 'T', '_', 'R', 'E', 'S', 'E', 'L', 'L', 'E', 'R', '_', 'E', 'X', 'E', 'M', 'P', 'T', 'I', 'O', 'N'][3] != seq!['U', 'S', '_', 'C', 'A', '_', 'R', 'E', 'S', 'E', 'L', 'L', 'E', 'R', '_', 'E', 'X', 'E', 'M', 'P', 'T', 'I', 'O', 'N'][3]);
            assert(seq!['U', 'S', '_', 'V', 'T', '_', 'R', 'E', 'S', 'E', 'L', 'L', 'E', 'R', '_', 'E', 'X', 'E', 'M', 'P', 'T', 'I', 'O', 'N'][3] != seq!['U', 'S', '_', 'C', 'O', '_', 'R', 'E', 'S', 'E', 'L', 'L', 'E', 'R', '_', 'E', 'X', 'E', 'M', 'P', 'T', 'I', 'O', 'N'][3]);
            assert(seq!['U', 'S', '_', 'V', 'T', '_', 'R', 'E', 'S', 'E', 'L', 'L', 'E', 'R', '_', 'E', 'X', 'E', 'M', 'P', 'T', 'I', 'O', 'N'][3] != seq!['U', 'S', '_', 'C', 'T', '_', 'R', 'E', 'S', 'E', 'L', 'L', 'E', 'R', '_', 'E', 'X', 'E', 'M', 'P', 'T', 'I', 'O', 'N'][3]);
            assert(seq!['U', 'S', '_', 'V', 'T', '_', 'R', 'E', 'S', 'E', 'L', 'L', 'E', 'R', '_', 'E', 'X', 'E', 'M', 'P', 'T', 'I', 'O', 'N'][3] != seq!['U', 'S', '_', 'D', 'C', '_', 'R', 'E', 'S', 'E', 'L', 'L', 'E', 'R', '_', 'E', 'X', 'E', 'M', 'P', 'T', 'I', 'O', 'N'][3]);
            assert(seq!['U', 'S', '_', 'V', 'T', '_', 'R', 'E', 'S', 'E', 'L', 'L', 'E', 'R', '_', 'E', 'X', 'E', 'M', 'P', 'T', 'I', 'O', 'N'][3] != seq!['U', 'S', '_', 'D', 'E', '_', 'R', 'E', 'S', 'E', 'L', 'L', 'E', 'R', '_', 'E', 'X', 'E', 'M', 'P', 'T', 'I', 'O', 'N'][3]);
            assert(seq!['U', 'S', '_', 'V', 'T', '_', 'R', 'E', 'S', 'E', 'L', 'L', 'E', 'R', '_', 'E', 'X', 'E', 'M', 'P', 'T', 'I', 'O', 'N'][3] != seq!['U', 'S', '_', 'F', 'L', '_', 'R', 'E', 'S', 'E', 'L', 'L', 'E', 'R', '_', 'E', 'X', 'E', 'M', 'P', 'T', 'I', 'O', 'N'][3]);
            assert(seq!['U', 'S', '_', 'V', 'T', '_', 'R', 'E', 'S', 'E', 'L', 'L', 'E', 'R', '_', 'E', 'X', 'E', 'M', 'P', 'T', 'I', 'O', 'N'][3] != seq!['U', 'S', '_', 'G', 'A', '_', 'R', 'E', 'S', 'E', 'L', 'L', 'E', 'R', '_', 'E', 'X', 'E', 'M', 'P', 'T', 'I', 'O', 'N'][3]);
            assert(seq!['U', 'S', '_', 'V', 'T', '_', 'R', 'E', 'S', 'E', 'L', 'L', 'E', 'R', '_', 'E', 'X', 'E', 'M', 'P', 'T', 'I', 'O', 'N'][3] != seq!['U', 'S', '_', 'H', 'I', '_', 'R', 'E', 'S', 'E', 'L', 'L', 'E', 'R', '_', 'E', 'X', 'E', 'M', 'P', 'T', 'I', 'O', 'N'][3]);
            assert(seq!['U', 'S', '_', 'V', 'T', '_', 'R', 'E', 'S', 'E', 'L', 'L', 'E', 'R', '_', 'E', 'X', 'E', 'M', 'P', 'T', 'I', 'O', 'N'][3] != seq!['U', 'S', '_', 'I', 'A', '_', 'R', 'E', 'S', 'E', 'L', 'L', 'E', 'R', '_', 'E', 'X', 'E', 'M', 'P', 'T', 'I', 'O', 'N'][3]);
            assert(seq!['U', 'S', '_', 'V', 'T', '_', 'R', 'E', 'S', 'E', 'L', 'L', 'E', 'R', '_', 'E', 'X', 'E', 'M', 'P', 'T', 'I', 'O', 'N'][3] != seq!['U', 'S', '_', 'I', 'D', '_', 'R', 'E', 'S', 'E', 'L', 'L', 'E', 'R', '_', 'E', 'X', 'E', 'M', 'P', 'T', 'I', 'O', 'N'][3]);
            assert(seq!['U', 'S', '_', 'V', 'T', '_', 'R', 'E', 'S', 'E', 'L', 'L', 'E', 'R', '_', 'E', 'X', 'E', 'M', 'P', 'T', 'I', 'O', 'N'][3] != seq!['U', 'S', '_', 'I', 'L', '_', 'R', 'E', 'S', 'E', 'L', 'L', 'E', 'R', '_', 'E', 'X', 'E', 'M', 'P', 'T', 'I', 'O', 'N'][3]);
            assert(seq!['U', 'S', '_', 'V', 'T', '_', 'R', 'E', 'S', 'E', 'L', 'L', 'E', 'R', '_', 'E', 'X', 'E', 'M', 'P', 'T', 'I', 'O', 'N'][3] != seq!['U', 'S', '_', 'I', 'N', '_', 'R', 'E', 'S', 'E', 'L', 'L', 'E', 'R', '_', 'E', 'X', 'E', 'M', 'P', 'T', 'I', 'O', 'N'][3]);
            assert(seq!['U', 'S', '_', 'V', 'T', '_', 'R', 'E', 'S', 'E', 'L', 'L', 'E', 'R', '_', 'E', 'X', 'E', 'M', 'P', 'T', 'I', 'O', 'N'][3] != seq!['U', 'S', '_', 'K', 'S', '_', 'R', 'E', 'S', 'E', 'L', 'L', 'E', 'R', '_', 'E', 'X', 'E', 'M', 'P', 'T', 'I', 'O', 'N'][3]);
            assert(seq!['U', 'S', '_', 'V', 'T', '_', 'R', 'E', 'S', 'E', 'L', 'L', 'E', 'R', '_', 'E', 'X', 'E', 'M', 'P', 'T', 'I', 'O', 'N'][3] != seq!['U', 'S', '_', 'K', 'Y', '_', 'R', 'E', 'S', 'E', 'L', 'L', 'E', 'R', '_', 'E', 'X', 'E', 'M', 'P', 'T', 'I', 'O', 'N'][3]);
            assert(seq!['U', 'S', '_', 'V', 'T', '_', 'R', 'E', 'S', 'E', 'L', 'L', 'E', 'R', '_', 'E', 'X', 'E', 'M', 'P', 'T', 'I', 'O', 'N'][3] != seq!['U', 'S', '_', 'L', 'A', '_', 'R', 'E', 'S', 'E', 'L', 'L', 'E', 'R', '_', 'E', 'X', 'E', 'M', 'P', 'T', 'I', 'O', 'N'][3]);
            assert(seq!['U', 'S', '_', 'V', 'T', '_', 'R', 'E', 'S', 'E', 'L', 'L', 'E', 'R', '_', 'E', 'X', 'E', 'M', 'P', 'T', 'I', 'O', 'N'][3] != seq!['U', 'S', '_', 'M', 'A', '_', 'R', 'E', 'S', 'E', 'L', 'L', 'E', 'R', '_', 'E', 'X', 'E', 'M', 'P', 'T', 'I', 'O', 'N'][3]);
            assert(seq!['U', 'S', '_', 'V', 'T', '_', 'R', 'E', 'S', 'E', 'L', 'L', 'E', 'R', '_', 'E', 'X', 'E', 'M', 'P', 'T', 'I', 'O', 'N'][3] != seq!['U', 'S', '_', 'M', 'D', '_', 'R', 'E', 'S', 'E', 'L', 'L', 'E', 'R', '_', 'E', 'X', 'E', 'M', 'P', 'T', 'I', 'O', 'N'][3]);
            assert(seq!['U', 'S', '_', 'V', 'T', '_', 'R', 'E', 'S', 'E', 'L', 'L', 'E', 'R', '_', 'E', 'X', 'E', 'M', 'P', 'T', 'I', 'O', 'N'][3] != seq!['U', 'S', '_', 'M', 'E', '_', 'R', 'E', 'S', 'E', 'L', 'L', 'E', 'R', '_', 'E', 'X', 'E', 'M', 'P', 'T', 'I', 'O', 'N'][3]);
            assert(seq!['U', 'S', '_', 'V', 'T', '_', 'R', 'E', 'S', 'E', 'L', 'L', 'E', 'R', '_', 'E', 'X', 'E', 'M', 'P', 'T', 'I', 'O', 'N'][3] != seq!['U', 'S', '_', 'M', 'I', '_', 'R', 'E', 'S', 'E', 'L', 'L', 'E', 'R', '_', 'E', 'X', 'E', 'M', 'P', 'T', 'I', 'O', 'N'][3]);
            assert(seq!['U', 'S', '_', 'V', 'T', '_', 'R', 'E', 'S', 'E', 'L', 'L', 'E', 'R', '_', 'E', 'X', 'E', 'M', 'P', 'T', 'I', 'O', 'N'][3] != seq!['U', 'S', '_', 'M', 'N', '_', 'R', 'E', 'S', 'E', 'L', 'L', 'E', 'R', '_', 'E', 'X', 'E', 'M', 'P', 'T', 'I', 'O', 'N'][3]);
            assert(seq!['U', 'S', '_', 'V', 'T', '_', 'R', 'E', 'S', 'E', 'L', 'L', 'E', 'R', '_', 'E', 'X', 'E', 'M', 'P', 'T', 'I', 'O', 'N'][3] != seq!['U', 'S', '_', 'M', 'O', '_', 'R', 'E', 'S', 'E', 'L', 'L', 'E', 'R', '_', 'E', 'X', 'E', 'M', 'P', 'T', 'I', 'O', 'N'][3]);
            assert(seq!['U', 'S', '_', 'V', 'T', '_', 'R', 'E', 'S', 'E', 'L', 'L', 'E', 'R', '_', 'E', 'X', 'E', 'M', 'P', 'T', 'I', 'O', 'N'][3] != seq!['U', 'S', '_', 'M', 'S', '_', 'R', 'E', 'S', 'E', 'L', 'L', 'E', 'R', '_', 'E', 'X', 'E', 'M', 'P', 'T', 'I', 'O', 'N'][3]);
            assert(seq!['U', 'S', '_', 'V', 'T', '_', 'R', 'E', 'S', 'E', 'L', 'L', 'E', 'R', '_', 'E', 'X', 'E', 'M', 'P', 'T', 'I', 'O', 'N'][3] != seq!['U', 'S', '_', 'M', 'T', '_', 'R', 'E', 'S', 'E', 'L', 'L', 'E', 'R', '_', 'E', 'X', 'E', 'M', 'P', 'T', 'I', 'O', 'N'][3]);
            assert(seq!['U', 'S', '_', 'V', 'T', '_', 'R', 'E', 'S', 'E', 'L', 'L', 'E', 'R', '_', 'E', 'X', 'E', 'M', 'P', 'T', 'I', 'O', 'N'][3] != seq!['U', 'S', '_', 'N', 'C', '_', 'R', 'E', 'S', 'E', 'L', 'L', 'E', 'R', '_', 'E', 'X', 'E', 'M', 'P', 'T', 'I', 'O', 'N'][3]);
            assert(seq!['U', 'S', '_', 'V', 'T', '_', 'R', 'E', 'S', 'E', 'L', 'L', 'E', 'R', '_', 'E', 'X', 'E', 'M', 'P', 'T', 'I', 'O', 'N'][3] != seq!['U', 'S', '_', 'N', 'D', '_', 'R', 'E', 'S', 'E', 'L', 'L', 'E', 'R', '_', 'E', 'X', 'E', 'M', 'P', 'T', 'I', 'O', 'N'][3]);
            assert(seq!['U', 'S', '_', 'V', 'T', '_', 'R', 'E', 'S', 'E', 'L', 'L', 'E', 'R', '_', 'E', 'X', 'E', 'M', 'P', 'T', 'I', 'O', 'N'][3] != seq!['U', 'S', '_', 'N', 'E', '_', 'R', 'E', 'S', 'E', 'L', 'L', 'E', 'R', '_', 'E', 'X', 'E', 'M', 'P', 'T', 'I', 'O', 'N'][3]);
            assert(seq!['U', 'S', '_', 'V', 'T', '_', 'R', 'E', 'S', 'E', 'L', 'L', 'E', 'R', '_', 'E', 'X', 'E', 'M', 'P', 'T', 'I', 'O', 'N'][3] != seq!['U', 'S', '_', 'N', 'H', '_', 'R', 'E', 'S', 'E', 'L', 'L', 'E', 'R', '_', 'E', 'X', 'E', 'M', 'P', 'T', 'I', 'O', 'N'][3]);
            assert(seq!['U', 'S', '_', 'V', 'T', '_', 'R', 'E', 'S', 'E', 'L', 'L', 'E', 'R', '_', 'E', 'X', 'E', 'M', 'P', 'T', 'I', 'O', 'N'][3] != seq!['U', 'S', '_', 'N', 'J', '_', 'R', 'E', 'S', 'E', 'L', 'L', 'E', 'R', '_', 'E', 'X', 'E', 'M', 'P', 'T', 'I', 'O', 'N'][3]);
            assert(seq!['U', 'S', '_', 'V', 'T', '_', 'R', 'E', 'S', 'E', 'L', 'L', 'E', 'R', '_', 'E', 'X', 'E', 'M', 'P', 'T', 'I', 'O', 'N'][3] != seq!['U', 'S', '_', 'N', 'M', '_', 'R', 'E', 'S', 'E', 'L', 'L', 'E', 'R', '_', 'E', 'X', 'E', 'M', 'P', 'T', 'I', 'O', 'N'][3]);
            assert(seq!['U', 'S', '_', 'V', 'T', '_', 'R', 'E', 'S', 'E', 'L', 'L', 'E', 'R', '_', 'E', 'X', 'E', 'M', 'P', 'T', 'I', 'O', 'N'][3] != seq!['U', 'S', '_', 'N', 'V', '_', 'R', 'E', 'S', 'E', 'L', 'L', 'E', 'R', '_', 'E', 'X', 'E', 'M', 'P', 'T', 'I', 'O', 'N'][3]);
            assert(seq!['U', 'S', '_', 'V', 'T', '_', 'R', 'E', 'S', 'E', 'L', 'L', 'E', 'R', '_', 'E', 'X', 'E', 'M', 'P', 'T', 'I', 'O', 'N'][3] != seq!['U', 'S', '_', 'N', 'Y', '_', 'R', 'E', 'S', 'E', 'L', 'L', 'E', 'R', '_', 'E', 'X', 'E', 'M', 'P', 'T', 'I', 'O', 'N'][3]);
            assert(seq!['U', 'S', '_', 'V', 'T', '_', 'R', 'E', 'S', 'E', 'L', 'L', 'E', 'R', '_', 'E', 'X', 'E', 'M', 'P', 'T', 'I', 'O', 'N'][3] != seq!['U', 'S', '_', 'O', 'H', '_', 'R', 'E', 'S', 'E', 'L', 'L', 'E', 'R', '_', 'E', 'X', 'E', 'M', 'P', 'T', 'I', 'O', 'N'][3]);
            assert(seq!['U', 'S', '_', 'V', 'T', '_', 'R', 'E', 'S', 'E', 'L', 'L', 'E', 'R', '_', 'E', 'X', 'E', 'M', 'P', 'T', 'I', 'O', 'N'][3] != seq!['U', 'S', '_', 'O', 'K', '_', 'R', 'E', 'S', 'E', 'L', 'L', 'E', 'R', '_', 'E', 'X', 'E', 'M', 'P', 'T', 'I', 'O', 'N'][3]);
            assert(seq!['U', 'S', '_', 'V', 'T', '_', 'R', 'E', 'S', 'E', 'L', 'L', 'E', 'R', '_', 'E', 'X', 'E', 'M', 'P', 'T', 'I', 'O', 'N'][3] != seq!['U', 'S', '_', 'O', 'R', '_', 'R', 'E', 'S', 'E', 'L', 'L', 'E', 'R', '_', 'E', 'X', 'E', 'M', 'P', 'T', 'I', 'O', 'N'][3]);
            assert(seq!['U', 'S', '_', 'V', 'T', '_', 'R', 'E', 'S', 'E', 'L', 'L', 'E', 'R', '_', 'E', 'X', 'E', 'M', 'P', 'T', 'I', 'O', 'N'][3] != seq!['U', 'S', '_', 'P', 'A', '_', 'R', 'E', 'S', 'E', 'L', 'L', 'E', 'R', '_', 'E', 'X', 'E', 'M', 'P', 'T', 'I', 'O', 'N'][3]);
            assert(seq!['U', 'S', '_', 'V', 'T', '_', 'R', 'E', 'S', 'E', 'L', 'L', 'E', 'R', '_', 'E', 'X', 'E', 'M', 'P', 'T', 'I', 'O', 'N'][3] != seq!['U', 'S', '_', 'R', 'I', '_', 'R', 'E', 'S', 'E', 'L', 'L', 'E', 'R', '_', 'E', 'X', 'E', 'M', 'P', 'T', 'I', 'O', 'N'][3]);
            assert(seq!['U', 'S', '_', 'V', 'T', '_', 'R', 'E', 'S', 'E', 'L', 'L', 'E', 'R', '_', 'E', 'X', 'E', 'M', 'P', 'T', 'I', 'O', 'N'][3] != seq!['U', 'S', '_', 'S', 'C', '_', 'R', 'E', 'S', 'E', 'L', 'L', 'E', 'R', '_', 'E', 'X', 'E', 'M', 'P', 'T', 'I', 'O', 'N'][3]);
            assert(seq!['U', 'S', '_', 'V', 'T', '_', 'R', 'E', 'S', 'E', 'L', 'L', 'E', 'R', '_', 'E', 'X', 'E', 'M', 'P', 'T', 'I', 'O', 'N'][3] != seq!['U', 'S', '_', 'S', 'D', '_', 'R', 'E', 'S', 'E', 'L', 'L', 'E', 'R', '_', 'E', 'X', 'E', 'M', 'P', 'T', 'I', 'O', 'N'][3]);
            assert(seq!['U', 'S', '_', 'V', 'T', '_', 'R', 'E', 'S', 'E', 'L', 'L', 'E', 'R', '_', 'E', 'X', 'E', 'M', 'P', 'T', 'I', 'O', 'N'][3] != seq!['U', 'S', '_', 'T', 'N', '_', 'R', 'E', 'S', 'E', 'L', 'L', 'E', 'R', '_', 'E', 'X', 'E', 'M', 'P', 'T', 'I', 'O', 'N'][3]);
            assert(seq!['U', 'S', '_', 'V', 'T', '_', 'R', 'E', 'S', 'E', 'L', 'L', 'E', 'R', '_', 'E', 'X', 'E', 'M', 'P', 'T', 'I', 'O', 'N'][3] != seq!['U', 'S', '_', 'T', 'X', '_', 'R', 'E', 'S', 'E', 'L', 'L', 'E', 'R', '_', 'E', 'X', 'E', 'M', 'P', 'T', 'I', 'O', 'N'][3]);
            assert(seq!['U', 'S', '_', 'V', 'T', '_', 'R', 'E', 'S', 'E', 'L', 'L', 'E', 'R', '_', 'E', 'X', 'E', 'M', 'P', 'T', 'I', 'O', 'N'][3] != seq!['U', 'S', '_', 'U', 'T', '_', 'R', 'E', 'S', 'E', 'L', 'L', 'E', 'R', '_', 'E', 'X', 'E', 'M', 'P', 'T', 'I', 'O', 'N'][3]);
            assert(seq!['U', 'S', '_', 'V', 'T', '_', 'R', 'E', 'S', 'E', 'L', 'L', 'E', 'R', '_', 'E', 'X', 'E', 'M', 'P', 'T', 'I', 'O', 'N'][4] != seq!['U', 'S', '_', 'V', 'A', '_', 'R', 'E', 'S', 'E', 'L', 'L', 'E', 'R', '_', 'E', 'X', 'E', 'M', 'P', 'T', 'I', 'O', 'N'][4]);
        },
        TaxExemption::US_WA_RESELLER_EXEMPTION => {
            assert(seq!['U', 'S', '_', 'W', 'A', '_', 'R', 'E', 'S', 'E', 'L', 'L', 'E', 'R', '_', 'E', 'X', 'E', 'M', 'P', 'T', 'I', 'O', 'N'][0] != seq!['C', 'A', '_', 'B', 'C', '_', 'R', 'E', 'S', 'E', 'L', 'L', 'E', 'R', '_', 'E', 'X', 'E', 'M', 'P', 'T', 'I', 'O', 'N'][0]);
            assert(seq!['U', 'S', '_', 'W', 'A', '_', 'R', 'E', 'S', 'E', 'L', 'L', 'E', 'R', '_', 'E', 'X', 'E', 'M', 'P', 'T', 'I', 'O', 'N'][0] != seq!['C', 'A', '_', 'M', 'B', '_', 'R', 'E', 'S', 'E', 'L', 'L', 'E', 'R', '_', 'E', 'X', 'E', 'M', 'P', 'T', 'I', 'O', 'N'][0]);
            assert(seq!['U', 'S', '_', 'W', 'A', '_', 'R', 'E', 'S', 'E', 'L', 'L', 'E', 'R', '_', 'E', 'X', 'E', 'M', 'P', 'T', 'I', 'O', 'N'][0] != seq!['C', 'A', '_', 'O', 'N', '_', 'P', 'U', 'R', 'C', 'H', 'A', 'S', 'E', '_', 'E', 'X', 'E', 'M', 'P', 'T', 'I', 'O', 'N'][0]);
            assert(seq!['U', 'S', '_', 'W', 'A', '_', 'R', 'E', 'S', 'E', 'L', 'L', 'E', 'R', '_', 'E', 'X', 'E', 'M', 'P', 'T', 'I', 'O', 'N'][0] != seq!['C', 'A', '_', 'S', 'K', '_', 'R', 'E', 'S', 'E', 'L', 'L', 'E', 'R', '_', 'E', 'X', 'E', 'M', 'P', 'T', 'I', 'O', 'N'][0]);
            assert(seq!['U', 'S', '_', 'W', 'A', '_', 'R', 'E', 'S', 'E', 'L', 'L', 'E', 'R', '_', 'E', 'X', 'E', 'M', 'P', 'T', 'I', 'O', 'N'][0] != seq!['C', 'A', '_', 'S', 'T', 'A', 'T', 'U', 'S', '_', 'C', 'A', 'R', 'D', '_', 'E', 'X', 'E', 'M', 'P', 'T', 'I', 'O', 'N'][0]);
            assert(seq!['U', 'S', '_', 'W', 'A', '_', 'R', 'E', 'S', 'E', 'L', 'L', 'E', 'R', '_', 'E', 'X', 'E', 'M', 'P', 'T', 'I', 'O', 'N'][3] != seq!['U', 'S', '_', 'A', 'K', '_', 'R', 'E', 'S', 'E', 'L', 'L', 'E', 'R', '_', 'E', 'X', 'E', 'M', 'P', 'T', 'I', 'O', 'N'][3]);
            assert(seq!['U', 'S', '_', 'W', 'A', '_', 'R', 'E', 'S', 'E', 'L', 'L', 'E', 'R', '_', 'E', 'X', 'E', 'M', 'P', 'T', 'I', 'O', 'N'][3] != seq!['U', 'S', '_', 'A', 'L', '_', 'R', 'E', 'S', 'E', 'L', 'L', 'E', 'R', '_', 'E', 'X', 'E', 'M', 'P', 'T', 'I', 'O', 'N'][3]);
            assert(seq!['U', 'S', '_', 'W', 'A', '_', 'R', 'E', 'S', 'E', 'L', 'L', 'E', 'R', '_', 'E', 'X', 'E', 'M', 'P', 'T', 'I', 'O', 'N'][3] != seq!['U', 'S', '_', 'A', 'R', '_', 'R', 'E', 'S', 'E', 'L', 'L', 'E', 'R', '_', 'E', 'X', 'E', 'M', 'P', 'T', 'I', 'O', 'N'][3]);
            assert(seq!['U', 'S', '_', 'W', 'A', '_', 'R', 'E', 'S', 'E', 'L', 'L', 'E', 'R', '_', 'E', 'X', 'E', 'M', 'P', 'T', 'I', 'O', 'N'][3] != seq!['U', 'S', '_', 'A', 'Z', '_', 'R', 'E', 'S', 'E', 'L', 'L', 'E', 'R', '_', 'E', 'X', 'E', 'M', 'P', 'T', 'I', 'O', 'N'][3]);
            assert(seq!['U', 'S', '_', 'W', 'A', '_', 'R', 'E', 'S', 'E', 'L', 'L', 'E', 'R', '_', 'E', 'X', 'E', 'M', 'P', 'T', 'I', 'O', 'N'][3] != seq!['U', 'S', '_', 'C', 'A', '_', 'R', 'E', 'S', 'E', 'L', 'L', 'E', 'R', '_', 'E', 'X', 'E', 'M', 'P', 'T', 'I', 'O', 'N'][3]);
            assert(seq!['U', 'S', '_', 'W', 'A', '_', 'R', 'E', 'S', 'E', 'L', 'L', 'E', 'R', '_', 'E', 'X', 'E', 'M', 'P', 'T', 'I', 'O', 'N'][3] != seq!['U', 'S', '_', 'C', 'O', '_', 'R', 'E', 'S', 'E', 'L', 'L', 'E', 'R', '_', 'E', 'X', 'E', 'M', 'P', 'T', 'I', 'O', 'N'][3]);
            assert(seq!['U', 'S', '_', 'W', 'A', '_', 'R', 'E', 'S', 'E', 'L', 'L', 'E', 'R', '_', 'E', 'X', 'E', 'M', 'P', 'T', 'I', 'O', 'N'][3] != seq!['U', 'S', '_', 'C', 'T', '_', 'R', 'E', 'S', 'E', 'L', 'L', 'E', 'R', '_', 'E', 'X', 'E', 'M', 'P', 'T', 'I', 'O', 'N'][3]);
            assert(seq!['U', 'S', '_', 'W', 'A', '_', 'R', 'E', 'S', 'E', 'L', 'L', 'E', 'R', '_', 'E', 'X', 'E', 'M', 'P', 'T', 'I', 'O', 'N'][3] != seq!['U', 'S', '_', 'D', 'C', '_', 'R', 'E', 'S', 'E', 'L', 'L', 'E', 'R', '_', 'E', 'X', 'E', 'M', 'P', 'T', 'I', 'O', 'N'][3]);
            assert(seq!['U', 'S', '_', 'W', 'A', '_', 'R', 'E', 'S', 'E', 'L', 'L', 'E', 'R', '_', 'E', 'X', 'E', 'M', 'P', 'T', 'I', 'O', 'N'][3] != seq!['U', 'S', '_', 'D', 'E', '_', 'R', 'E', 'S', 'E', 'L', 'L', 'E', 'R', '_', 'E', 'X', 'E', 'M', 'P', 'T', 'I', 'O', 'N'][3]);
            assert(seq!['U', 'S', '_', 'W', 'A', '_', 'R', 'E', 'S', 'E', 'L', 'L', 'E', 'R', '_', 'E', 'X', 'E', 'M', 'P', 'T', 'I', 'O', 'N'][3] != seq!['U', 'S', '_', 'F', 'L', '_', 'R', 'E', 'S', 'E', 'L', 'L', 'E', 'R', '_', 'E', 'X', 'E', 'M', 'P', 'T', 'I', 'O', 'N'][3]);
            assert(seq!['U', 'S', '_', 'W', 'A', '_', 'R', 'E', 'S', 'E', 'L', 'L', 'E', 'R', '_', 'E', 'X', 'E', 'M', 'P', 'T', 'I', 'O', 'N'][3] != seq!['U', 'S', '_', 'G', 'A', '_', 'R', 'E', 'S', 'E', 'L', 'L', 'E', 'R', '_', 'E', 'X', 'E', 'M', 'P', 'T', 'I', 'O', 'N'][3]);
            assert(seq!['U', 'S', '_', 'W', 'A', '_', 'R', 'E', 'S', 'E', 'L', 'L', 'E', 'R', '_', 'E', 'X', 'E', 'M', 'P', 'T', 'I', 'O', 'N'][3] != seq!['U', 'S', '_', 'H', 'I', '_', 'R', 'E', 'S', 'E', 'L', 'L', 'E', 'R', '_', 'E', 'X', 'E', 'M', 'P', 'T', 'I', 'O', 'N'][3]);
            assert(seq!['U', 'S', '_', 'W', 'A', '_', 'R', 'E', 'S', 'E', 'L', 'L', 'E', 'R', '_', 'E', 'X', 'E', 'M', 'P', 'T', 'I', 'O', 'N'][3] != seq!['U', 'S', '_', 'I', 'A', '_', 'R', 'E', 'S', 'E', 'L', 'L', 'E', 'R', '_', 'E', 'X', 'E', 'M', 'P', 'T', 'I', 'O', 'N'][3]);
            assert(seq!['U', 'S', '_', 'W', 'A', '_', 'R', 'E', 'S', 'E', 'L', 'L', 'E', 'R', '_', 'E', 'X', 'E', 'M', 'P', 'T', 'I', 'O', 'N'][3] != seq!['U', 'S', '_', 'I', 'D', '_', 'R', 'E', 'S', 'E', 'L', 'L', 'E', 'R', '_', 'E', 'X', 'E', 'M', 'P', 'T', 'I', 'O', 'N'][3]);
            assert(seq!['U', 'S', '_', 'W', 'A', '_', 'R', 'E', 'S', 'E', 'L', 'L', 'E', 'R', '_', 'E', 'X', 'E', 'M', 'P', 'T', 'I', 'O', 'N'][3] != seq!['U', 'S', '_', 'I', 'L', '_', 'R', 'E', 'S', 'E', 'L', 'L', 'E', 'R', '_', 'E', 'X', 'E', 'M', 'P', 'T', 'I', 'O', 'N'][3]);
            assert(seq!['U', 'S', '_', 'W', 'A', '_', 'R', 'E', 'S', 'E', 'L', 'L', 'E', 'R', '_', 'E', 'X', 'E', 'M', 'P', 'T', 'I', 'O', 'N'][3] != seq!['U', 'S', '_', 'I', 'N', '_', 'R', 'E', 'S', 'E', 'L', 'L', 'E', 'R', '_', 'E', 'X', 'E', 'M', 'P', 'T', 'I', 'O', 'N'][3]);
            assert(seq!['U', 'S', '_', 'W', 'A', '_', 'R', 'E', 'S', 'E', 'L', 'L', 'E', 'R', '_', 'E', 'X', 'E', 'M', 'P', 'T', 'I', 'O', 'N'][3] != seq!['U', 'S', '_', 'K', 'S', '_', 'R', 'E', 'S', 'E', 'L', 'L', 'E', 'R', '_', 'E', 'X', 'E', 'M', 'P', 'T', 'I', 'O', 'N'][3]);
            assert(seq!['U', 'S', '_', 'W', 'A', '_', 'R', 'E', 'S', 'E', 'L', 'L', 'E', 'R', '_', 'E', 'X', 'E', 'M', 'P', 'T', 'I', 'O', 'N'][3] != seq!['U', 'S', '_', 'K', 'Y', '_', 'R', 'E', 'S', 'E', 'L', 'L', 'E', 'R', '_', 'E', 'X', 'E', 'M', 'P', 'T', 'I', 'O', 'N'][3]);
            assert(seq!['U', 'S', '_', 'W', 'A', '_', 'R', 'E', 'S', 'E', 'L', 'L', 'E', 'R', '_', 'E', 'X', 'E', 'M', 'P', 'T', 'I', 'O', 'N'][3] != seq!['U', 'S', '_', 'L', 'A', '_', 'R', 'E', 'S', 'E', 'L', 'L', 'E', 'R', '_', 'E', 'X', 'E', 'M', 'P', 'T', 'I', 'O', 'N'][3]);
            assert(seq!['U', 'S', '_', 'W', 'A', '_', 'R', 'E', 'S', 'E', 'L', 'L', 'E', 'R', '_', 'E', 'X', 'E', 'M', 'P', 'T', 'I', 'O', 'N'][3] != seq!['U', 'S', '_', 'M', 'A', '_', 'R', 'E', 'S', 'E', 'L', 'L', 'E', 'R', '_', 'E', 'X', 'E', 'M', 'P', 'T', 'I', 'O', 'N'][3]);
            assert(seq!['U', 'S', '_', 'W', 'A', '_', 'R', 'E', 'S', 'E', 'L', 'L', 'E', 'R', '_', 'E', 'X', 'E', 'M', 'P', 'T', 'I', 'O', 'N'][3] != seq!['U', 'S', '_', 'M', 'D', '_', 'R', 'E', 'S', 'E', 'L', 'L', 'E', 'R', '_', 'E', 'X', 'E', 'M', 'P', 'T', 'I', 'O', 'N'][3]);
            assert(seq!['U', 'S', '_', 'W', 'A', '_', 'R', 'E', 'S', 'E', 'L', 'L', 'E', 'R', '_', 'E', 'X', 'E', 'M', 'P', 'T', 'I', 'O', 'N'][3] != seq!['U', 'S', '_', 'M', 'E', '_', 'R', 'E', 'S', 'E', 'L', 'L', 'E', 'R', '_', 'E', 'X', 'E', 'M', 'P', 'T', 'I', 'O', 'N'][3]);
            assert(seq!['U', 'S', '_', 'W', 'A', '_', 'R', 'E', 'S', 'E', 'L', 'L', 'E', 'R', '_', 'E', 'X', 'E', 'M', 'P', 'T', 'I', 'O', 'N'][3] != seq!['U', 'S', '_', 'M', 'I', '_', 'R', 'E', 'S', 'E', 'L', 'L', 'E', 'R', '_', 'E', 'X', 'E', 'M', 'P', 'T', 'I', 'O', 'N'][3]);
            assert(seq!['U', 'S', '_', 'W', 'A', '_', 'R', 'E', 'S', 'E', 'L', 'L', 'E', 'R', '_', 'E', 'X', 'E', 'M', 'P', 'T', 'I', 'O', 'N'][3] != seq!['U', 'S', '_', 'M', 'N', '_', 'R', 'E', 'S', 'E', 'L', 'L', 'E', 'R', '_', 'E', 'X', 'E', 'M', 'P', 'T', 'I', 'O', 'N'][3]);
            assert(seq!['U', 'S', '_', 'W', 'A', '_', 'R', 'E', 'S', 'E', 'L', 'L', 'E', 'R', '_', 'E', 'X', 'E', 'M', 'P', 'T', 'I', 'O', 'N'][3] != seq!['U', 'S', '_', 'M', 'O', '_', 'R', 'E', 'S', 'E', 'L', 'L', 'E', 'R', '_', 'E', 'X', 'E', 'M', 'P', 'T', 'I', 'O', 'N'][3]);
            assert(seq!['U', 'S', '_', 'W', 'A', '_', 'R', 'E', 'S', 'E', 'L', 'L', 'E', 'R', '_', 'E', 'X', 'E', 'M', 'P', 'T', 'I', 'O', 'N'][3] != seq!['U', 'S', '_', 'M', 'S', '_', 'R', 'E', 'S', 'E', 'L', 'L', 'E', 'R', '_', 'E', 'X', 'E', 'M', 'P', 'T', 'I', 'O', 'N'][3]);
            assert(seq!['U', 'S', '_', 'W', 'A', '_', 'R', 'E', 'S', 'E', 'L', 'L', 'E', 'R', '_', 'E', 'X', 'E', 'M', 'P', 'T', 'I', 'O', 'N'][3] != seq!['U', 'S', '_', 'M', 'T', '_', 'R', 'E', 'S', 'E', 'L', 'L', 'E', 'R', '_', 'E', 'X', 'E', 'M', 'P', 'T', 'I', 'O', 'N'][3]);
            assert(seq!['U', 'S', '_', 'W', 'A', '_', 'R', 'E', 'S', 'E', 'L', 'L', 'E', 'R', '_', 'E', 'X', 'E', 'M', 'P', 'T', 'I', 'O', 'N'][3] != seq!['U', 'S', '_', 'N', 'C', '_', 'R', 'E', 'S', 'E', 'L', 'L', 'E', 'R', '_', 'E', 'X', 'E', 'M', 'P', 'T', 'I', 'O', 'N'][3]);
            assert(seq!['U', 'S', '_', 'W', 'A', '_', 'R', 'E', 'S', 'E', 'L', 'L', 'E', 'R', '_', 'E', 'X', 'E', 'M', 'P', 'T', 'I', 'O', 'N'][3] != seq!['U', 'S', '_', 'N', 'D', '_', 'R', 'E', 'S', 'E', 'L', 'L', 'E', 'R', '_', 'E', 'X', 'E', 'M', 'P', 'T', 'I', 'O', 'N'][3]);
            assert(seq!['U', 'S', '_', 'W', 'A', '_', 'R', 'E', 'S', 'E', 'L', 'L', 'E', 'R', '_', 'E', 'X', 'E', 'M', 'P', 'T', 'I', 'O', 'N'][3] != seq!['U', 'S', '_', 'N', 'E', '_', 'R', 'E', 'S', 'E', 'L', 'L', 'E', 'R', '_', 'E', 'X', 'E', 'M', 'P', 'T', 'I', 'O', 'N'][3]);
            assert(seq!['U', 'S', '_', 'W', 'A', '_', 'R', 'E', 'S', 'E', 'L', 'L', 'E', 'R', '_', 'E', 'X', 'E', 'M', 'P', 'T', 'I', 'O', 'N'][3] != seq!['U', 'S', '_', 'N', 'H', '_', 'R', 'E', 'S', 'E', 'L', 'L', 'E', 'R', '_', 'E', 'X', 'E', 'M', 'P', 'T', 'I', 'O', 'N'][3]);
            assert(seq!['U', 'S', '_', 'W', 'A', '_', 'R', 'E', 'S', 'E', 'L', 'L', 'E', 'R', '_', 'E', 'X', 'E', 'M', 'P', 'T', 'I', 'O', 'N'][3] != seq!['U', 'S', '_', 'N', 'J', '_', 'R', 'E', 'S', 'E', 'L', 'L', 'E', 'R', '_', 'E', 'X', 'E', 'M', 'P', 'T', 'I', 'O', 'N'][3]);
            assert(seq!['U', 'S', '_', 'W', 'A', '_', 'R', 'E', 'S', 'E', 'L', 'L', 'E', 'R', '_', 'E', 'X', 'E', 'M', 'P', 'T', 'I', 'O', 'N'][3] != seq!['U', 'S', '_', 'N', 'M', '_', 'R', 'E', 'S', 'E', 'L', 'L', 'E', 'R', '_', 'E', 'X', 'E', 'M', 'P', 'T', 'I', 'O', 'N'][3]);
            assert(seq!['U', 'S', '_', 'W', 'A', '_', 'R', 'E', 'S', 'E', 'L', 'L', 'E', 'R', '_', 'E', 'X', 'E', 'M', 'P', 'T', 'I', 'O', 'N'][3] != seq!['U', 'S', '_', 'N', 'V', '_', 'R', 'E', 'S', 'E', 'L', 'L', 'E', 'R', '_', 'E', 'X', 'E', 'M', 'P', 'T', 'I', 'O', 'N'][3]);
            assert(seq!['U', 'S', '_', 'W', 'A', '_', 'R', 'E', 'S', 'E', 'L', 'L', 'E', 'R', '_', 'E', 'X', 'E', 'M', 'P', 'T', 'I', 'O', 'N'][3] != seq!['U', 'S', '_', 'N', 'Y', '_', 'R', 'E', 'S', 'E', 'L', 'L', 'E', 'R', '_', 'E', 'X', 'E', 'M', 'P', 'T', 'I', 'O', 'N'][3]);
            assert(seq!['U', 'S', '_', 'W', 'A', '_', 'R', 'E', 'S', 'E', 'L', 'L', 'E', 'R', '_', 'E', 'X', 'E', 'M', 'P', 'T', 'I', 'O', 'N'][3] != seq!['U', 'S', '_', 'O', 'H', '_', 'R', 'E', 'S', 'E', 'L', 'L', 'E', 'R', '_', 'E', 'X', 'E', 'M', 'P', 'T', 'I', 'O', 'N'][3]);
            assert(seq!['U', 'S', '_', 'W', 'A', '_', 'R', 'E', 'S', 'E', 'L', 'L', 'E', 'R', '_', 'E', 'X', 'E', 'M', 'P', 'T', 'I', 'O', 'N'][3] != seq!['U', 'S', '_', 'O', 'K', '_', 'R', 'E', 'S', 'E', 'L', 'L', 'E', 'R', '_', 'E', 'X', 'E', 'M', 'P', 'T', 'I', 'O', 'N'][3]);
            assert(seq!['U', 'S', '_', 'W', 'A', '_', 'R', 'E', 'S', 'E', 'L', 'L', 'E', 'R', '_', 'E', 'X', 'E', 'M', 'P', 'T', 'I', 'O', 'N'][3] != seq!['U', 'S', '_', 'O', 'R', '_', 'R', 'E', 'S', 'E', 'L', 'L', 'E', 'R', '_', 'E', 'X', 'E', 'M', 'P', 'T', 'I', 'O', 'N'][3]);
            assert(seq!['U', 'S', '_', 'W', 'A', '_', 'R', 'E', 'S', 'E', 'L', 'L', 'E', 'R', '_', 'E', 'X', 'E', 'M', 'P', 'T', 'I', 'O', 'N'][3] != seq!['U', 'S', '_', 'P', 'A', '_', 'R', 'E', 'S', 'E', 'L', 'L', 'E', 'R', '_', 'E', 'X', 'E', 'M', 'P', 'T', 'I', 'O', 'N'][3]);
            assert(seq!['U', 'S', '_', 'W', 'A', '_', 'R', 'E', 'S', 'E', 'L', 'L', 'E', 'R', '_', 'E', 'X', 'E', 'M', 'P', 'T', 'I', 'O', 'N'][3] != seq!['U', 'S', '_', 'R', 'I', '_', 'R', 'E', 'S', 'E', 'L', 'L', 'E', 'R', '_', 'E', 'X', 'E', 'M', 'P', 'T', 'I', 'O', 'N'][3]);
            assert(seq!['U', 'S', '_', 'W', 'A', '_', 'R', 'E', 'S', 'E', 'L', 'L', 'E', 'R', '_', 'E', 'X', 'E', 'M', 'P', 'T', 'I', 'O', 'N'][3] != seq!['U', 'S', '_', 'S', 'C', '_', 'R', 'E', 'S', 'E', 'L', 'L', 'E', 'R', '_', 'E', 'X', 'E', 'M', 'P', 'T', 'I', 'O', 'N'][3]);
            assert(seq!['U', 'S', '_', 'W', 'A', '_', 'R', 'E', 'S', 'E', 'L', 'L', 'E', 'R', '_', 'E', 'X', 'E', 'M', 'P', 'T', 'I', 'O', 'N'][3] != seq!['U', 'S', '_', 'S', 'D', '_', 'R', 'E', 'S', 'E', 'L', 'L', 'E', 'R', '_', 'E', 'X', 'E', 'M', 'P', 'T', 'I', 'O', 'N'][3]);
            assert(seq!['U', 'S', '_', 'W', 'A', '_', 'R', 'E', 'S', 'E', 'L', 'L', 'E', 'R', '_', 'E', 'X', 'E', 'M', 'P', 'T', 'I', 'O', 'N'][3] != seq!['U', 'S', '_', 'T', 'N', '_', 'R', 'E', 'S', 'E', 'L', 'L', 'E', 'R', '_', 'E', 'X', 'E', 'M', 'P', 'T', 'I', 'O', 'N'][3]);
            assert(seq!['U', 'S', '_', 'W', 'A', '_', 'R', 'E', 'S', 'E', 'L', 'L', 'E', 'R', '_', 'E', 'X', 'E', 'M', 'P', 'T', 'I', 'O', 'N'][3] != seq!['U', 'S', '_', 'T', 'X', '_', 'R', 'E', 'S', 'E', 'L', 'L', 'E', 'R', '_', 'E', 'X', 'E', 'M', 'P', 'T', 'I', 'O', 'N'][3]);
            assert(seq!['U', 'S', '_', 'W', 'A', '_', 'R', 'E', 'S', 'E', 'L', 'L', 'E', 'R', '_', 'E', 'X', 'E', 'M', 'P', 'T', 'I', 'O', 'N'][3] != seq!['U', 'S', '_', 'U', 'T', '_', 'R', 'E', 'S', 'E', 'L', 'L', 'E', 'R', '_', 'E', 'X', 'E', 'M', 'P', 'T', 'I', 'O', 'N'][3]);
            assert(seq!['U', 'S', '_', 'W', 'A', '_', 'R', 'E', 'S', 'E', 'L', 'L', 'E', 'R', '_', 'E', 'X', 'E', 'M', 'P', 'T', 'I', 'O', 'N'][3] != seq!['U', 'S', '_', 'V', 'A', '_', 'R', 'E', 'S', 'E', 'L', 'L', 'E', 'R', '_', 'E', 'X', 'E', 'M', 'P', 'T', 'I', 'O', 'N'][3]);
            assert(seq!['U', 'S', '_', 'W', 'A', '_', 'R', 'E', 'S', 'E', 'L', 'L', 'E', 'R', '_', 'E', 'X', 'E', 'M', 'P', 'T', 'I', 'O', 'N'][3] != seq!['U', 'S', '_', 'V', 'T', '_', 'R', 'E', 'S', 'E', 'L', 'L', 'E', 'R', '_', 'E', 'X', 'E', 'M', 'P', 'T', 'I', 'O', 'N'][3]);
        },
        TaxExemption::US_WI_RESELLER_EXEMPTION => {
            assert(seq!['U', 'S', '_', 'W', 'I', '_', 'R', 'E', 'S', 'E', 'L', 'L', 'E', 'R', '_', 'E', 'X', 'E', 'M', 'P', 'T', 'I', 'O', 'N'][0] != seq!['C', 'A', '_', 'B', 'C', '_', 'R', 'E', 'S', 'E', 'L', 'L', 'E', 'R', '_', 'E', 'X', 'E', 'M', 'P', 'T', 'I', 'O', 'N'][0]);
            assert(seq!['U', 'S', '_', 'W', 'I', '_', 'R', 'E', 'S', 'E', 'L', 'L', 'E', 'R', '_', 'E', 'X', 'E', 'M', 'P', 'T', 'I', 'O', 'N'][0] != seq!['C', 'A', '_', 'M', 'B', '_', 'R', 'E', 'S', 'E', 'L', 'L', 'E', 'R', '_', 'E', 'X', 'E', 'M', 'P', 'T', 'I', 'O', 'N'][0]);
            assert(seq!['U', 'S', '_', 'W', 'I', '_', 'R', 'E', 'S', 'E', 'L', 'L', 'E', 'R', '_', 'E', 'X', 'E', 'M', 'P', 'T', 'I', 'O', 'N'][0] != seq!['C', 'A', '_', 'O', 'N', '_', 'P', 'U', 'R', 'C', 'H', 'A', 'S', 'E', '_', 'E', 'X', 'E', 'M', 'P', 'T', 'I', 'O', 'N'][0]);
            assert(seq!['U', 'S', '_', 'W', 'I', '_', 'R', 'E', 'S', 'E', 'L', 'L', 'E', 'R', '_', 'E', 'X', 'E', 'M', 'P', 'T', 'I', 'O', 'N'][0] != seq!['C', 'A', '_', 'S', 'K', '_', 'R', 'E', 'S', 'E', 'L', 'L', 'E', 'R', '_', 'E', 'X', 'E', 'M', 'P', 'T', 'I', 'O', 'N'][0]);
            assert(seq!['U', 'S', '_', 'W', 'I', '_', 'R', 'E', 'S', 'E', 'L', 'L', 'E', 'R', '_', 'E', 'X', 'E', 'M', 'P', 'T', 'I', 'O', 'N'][0] != seq!['C', 'A', '_', 'S', 'T', 'A', 'T', 'U', 'S', '_', 'C', 'A', 'R', 'D', '_', 'E', 'X', 'E', 'M', 'P', 'T', 'I', 'O', 'N'][0]);
            assert(seq!['U', 'S', '_', 'W', 'I', '_', 'R', 'E', 'S', 'E', 'L', 'L', 'E', 'R', '_', 'E', 'X', 'E', 'M', 'P', 'T', 'I', 'O', 'N'][3] != seq!['U', 'S', '_', 'A', 'K', '_', 'R', 'E', 'S', 'E', 'L', 'L', 'E', 'R', '_', 'E', 'X', 'E', 'M', 'P', 'T', 'I', 'O', 'N'][3]);
            assert(seq!['U', 'S', '_', 'W', 'I', '_', 'R', 'E', 'S', 'E', 'L', 'L', 'E', 'R', '_', 'E', 'X', 'E', 'M', 'P', 'T', 'I', 'O', 'N'][3] != seq!['U', 'S', '_', 'A', 'L', '_', 'R', 'E', 'S', 'E', 'L', 'L', 'E', 'R', '_', 'E', 'X', 'E', 'M', 'P', 'T', 'I', 'O', 'N'][3]);
            assert(seq!['U', 'S', '_', 'W', 'I', '_', 'R', 'E', 'S', 'E', 'L', 'L', 'E', 'R', '_', 'E', 'X', 'E', 'M', 'P', 'T', 'I', 'O', 'N'][3] != seq!['U', 'S', '_', 'A', 'R', '_', 'R', 'E', 'S', 'E', 'L', 'L', 'E', 'R', '_', 'E', 'X', 'E', 'M', 'P', 'T', 'I', 'O', 'N'][3]);
            assert(seq!['U', 'S', '_', 'W', 'I', '_', 'R', 'E', 'S', 'E', 'L', 'L', 'E', 'R', '_', 'E', 'X', 'E', 'M', 'P', 'T', 'I', 'O', 'N'][3] != seq!['U', 'S', '_', 'A', 'Z', '_', 'R', 'E', 'S', 'E', 'L', 'L', 'E', 'R', '_', 'E', 'X', 'E', 'M', 'P', 'T', 'I', 'O', 'N'][3]);
            assert(seq!['U', 'S', '_', 'W', 'I', '_', 'R', 'E', 'S', 'E', 'L', 'L', 'E', 'R', '_', 'E', 'X', 'E', 'M', 'P', 'T', 'I', 'O', 'N'][3] != seq!['U', 'S', '_', 'C', 'A', '_', 'R', 'E', 'S', 'E', 'L', 'L', 'E', 'R', '_', 'E', 'X', 'E', 'M', 'P', 'T', 'I', 'O', 'N'][3]);
            assert(seq!['U', 'S', '_', 'W', 'I', '_', 'R', 'E', 'S', 'E', 'L', 'L', 'E', 'R', '_', 'E', 'X', 'E', 'M', 'P', 'T', 'I', 'O', 'N'][3] != seq!['U', 'S', '_', 'C', 'O', '_', 'R', 'E', 'S', 'E', 'L', 'L', 'E', 'R', '_', 'E', 'X', 'E', 'M', 'P', 'T', 'I', 'O', 'N'][3]);
            assert(seq!['U', 'S', '_', 'W', 'I', '_', 'R', 'E', 'S', 'E', 'L', 'L', 'E', 'R', '_', 'E', 'X', 'E', 'M', 'P', 'T', 'I', 'O', 'N'][3] != seq!['U', 'S', '_', 'C', 'T', '_', 'R', 'E', 'S', 'E', 'L', 'L', 'E', 'R', '_', 'E', 'X', 'E', 'M', 'P', 'T', 'I', 'O', 'N'][3]);
            assert(seq!['U', 'S', '_', 'W', 'I', '_', 'R', 'E', 'S', 'E', 'L', 'L', 'E', 'R', '_', 'E', 'X', 'E', 'M', 'P', 'T', 'I', 'O', 'N'][3] != seq!['U', 'S', '_', 'D', 'C', '_', 'R', 'E', 'S', 'E', 'L', 'L', 'E', 'R', '_', 'E', 'X', 'E', 'M', 'P', 'T', 'I', 'O', 'N'][3]);
            assert(seq!['U', 'S', '_', 'W', 'I', '_', 'R', 'E', 'S', 'E', 'L', 'L', 'E', 'R', '_', 'E', 'X', 'E', 'M', 'P', 'T', 'I', 'O', 'N'][3] != seq!['U', 'S', '_', 'D', 'E', '_', 'R', 'E', 'S', 'E', 'L', 'L', 'E', 'R', '_', 'E', 'X', 'E', 'M', 'P', 'T', 'I', 'O', 'N'][3]);
            assert(seq!['U', 'S', '_', 'W', 'I', '_', 'R', 'E', 'S', 'E', 'L', 'L', 'E', 'R', '_', 'E', 'X', 'E', 'M', 'P', 'T', 'I', 'O', 'N'][3] != seq!['U', 'S', '_', 'F', 'L', '_', 'R', 'E', 'S', 'E', 'L', 'L', 'E', 'R', '_', 'E', 'X', 'E', 'M', 'P', 'T', 'I', 'O', 'N'][3]);
            assert(seq!['U', 'S', '_', 'W', 'I', '_', 'R', 'E', 'S', 'E', 'L', 'L', 'E', 'R', '_', 'E', 'X', 'E', 'M', 'P', 'T', 'I', 'O', 'N'][3] != seq!['U', 'S', '_', 'G', 'A', '_', 'R', 'E', 'S', 'E', 'L', 'L', 'E', 'R', '_', 'E', 'X', 'E', 'M', 'P', 'T', 'I', 'O', 'N'][3]);
            assert(seq!['U', 'S', '_', 'W', 'I', '_', 'R', 'E', 'S', 'E', 'L', 'L', 'E', 'R', '_', 'E', 'X', 'E', 'M', 'P', 'T', 'I', 'O', 'N'][3] != seq!['U', 'S', '_', 'H', 'I', '_', 'R', 'E', 'S', 'E', 'L', 'L', 'E', 'R', '_', 'E', 'X', 'E', 'M', 'P', 'T', 'I', 'O', 'N'][3]);
            assert(seq!['U', 'S', '_', 'W', 'I', '_', 'R', 'E', 'S', 'E', 'L', 'L', 'E', 'R', '_', 'E', 'X', 'E', 'M', 'P', 'T', 'I', 'O', 'N'][3] != seq!['U', 'S', '_', 'I', 'A', '_', 'R', 'E', 'S', 'E', 'L', 'L', 'E', 'R', '_', 'E', 'X', 'E', 'M', 'P', 'T', 'I', 'O', 'N'][3]);
            assert(seq!['U', 'S', '_', 'W', 'I', '_', 'R', 'E', 'S', 'E', 'L', 'L', 'E', 'R', '_', 'E', 'X', 'E', 'M', 'P', 'T', 'I', 'O', 'N'][3] != seq!['U', 'S', '_', 'I', 'D', '_', 'R', 'E', 'S', 'E', 'L', 'L', 'E', 'R', '_', 'E', 'X', 'E', 'M', 'P', 'T', 'I', 'O', 'N'][3]);
            assert(seq!['U', 'S', '_', 'W', 'I', '_', 'R', 'E', 'S', 'E', 'L', 'L', 'E', 'R', '_', 'E', 'X', 'E', 'M', 'P', 'T', 'I', 'O', 'N'][3] != seq!['U', 'S', '_', 'I', 'L', '_', 'R', 'E', 'S', 'E', 'L', 'L', 'E', 'R', '_', 'E', 'X', 'E', 'M', 'P', 'T', 'I', 'O', 'N'][3]);
            assert(seq!['U', 'S', '_', 'W', 'I', '_', 'R', 'E', 'S', 'E', 'L', 'L', 'E', 'R', '_', 'E', 'X', 'E', 'M', 'P', 'T', 'I', 'O', 'N'][3] != seq!['U', 'S', '_', 'I', 'N', '_', 'R', 'E', 'S', 'E', 'L', 'L', 'E', 'R', '_', 'E', 'X', 'E', 'M', 'P', 'T', 'I', 'O', 'N'][3]);
            assert(seq!['U', 'S', '_', 'W', 'I', '_', 'R', 'E', 'S', 'E', 'L', 'L', 'E', 'R', '_', 'E', 'X', 'E', 'M', 'P', 'T', 'I', 'O', 'N'][3] != seq!['U', 'S', '_', 'K', 'S', '_', 'R', 'E', 'S', 'E', 'L', 'L', 'E', 'R', '_', 'E', 'X', 'E', 'M', 'P', 'T', 'I', 'O', 'N'][3]);
            assert(seq!['U', 'S', '_', 'W', 'I', '_', 'R', 'E', 'S', 'E', 'L', 'L', 'E', 'R', '_', 'E', 'X', 'E', 'M', 'P', 'T', 'I', 'O', 'N'][3] != seq!['U', 'S', '_', 'K', 'Y', '_', 'R', 'E', 'S', 'E', 'L', 'L', 'E', 'R', '_', 'E', 'X', 'E', 'M', 'P', 'T', 'I', 'O', 'N'][3]);
            assert(seq!['U', 'S', '_', 'W', 'I', '_', 'R', 'E', 'S', 'E', 'L', 'L', 'E', 'R', '_', 'E', 'X', 'E', 'M', 'P', 'T', 'I', 'O', 'N'][3] != seq!['U', 'S', '_', 'L', 'A', '_', 'R', 'E', 'S', 'E', 'L', 'L', 'E', 'R', '_', 'E', 'X', 'E', 'M', 'P', 'T', 'I', 'O', 'N'][3]);
            assert(seq!['U', 'S', '_', 'W', 'I', '_', 'R', 'E', 'S', 'E', 'L', 'L', 'E', 'R', '_', 'E', 'X', 'E', 'M', 'P', 'T', 'I', 'O', 'N'][3] != seq!['U', 'S', '_', 'M', 'A', '_', 'R', 'E', 'S', 'E', 'L', 'L', 'E', 'R', '_', 'E', 'X', 'E', 'M', 'P', 'T', 'I', 'O', 'N'][3]);
            assert(seq!['U', 'S', '_', 'W', 'I', '_', 'R', 'E', 'S', 'E', 'L', 'L', 'E', 'R', '_', 'E', 'X', 'E', 'M', 'P', 'T', 'I', 'O', 'N'][3] != seq!['U', 'S', '_', 'M', 'D', '_', 'R', 'E', 'S', 'E', 'L', 'L', 'E', 'R', '_', 'E', 'X', 'E', 'M', 'P', 'T', 'I', 'O', 'N'][3]);
            assert(seq!['U', 'S', '_', 'W', 'I', '_', 'R', 'E', 'S', 'E', 'L', 'L', 'E', 'R', '_', 'E', 'X', 'E', 'M', 'P', 'T', 'I', 'O', 'N'][3] != seq!['U', 'S', '_', 'M', 'E', '_', 'R', 'E', 'S', 'E', 'L', 'L', 'E', 'R', '_', 'E', 'X', 'E', 'M', 'P', 'T', 'I', 'O', 'N'][3]);
            assert(seq!['U', 'S', '_', 'W', 'I', '_', 'R', 'E', 'S', 'E', 'L', 'L', 'E', 'R', '_', 'E', 'X', 'E', 'M', 'P', 'T', 'I', 'O', 'N'][3] != seq!['U', 'S', '_', 'M', 'I', '_', 'R', 'E', 'S', 'E', 'L', 'L', 'E', 'R', '_', 'E', 'X', 'E', 'M', 'P', 'T', 'I', 'O', 'N'][3]);
            assert(seq!['U', 'S', '_', 'W', 'I', '_', 'R', 'E', 'S', 'E', 'L', 'L', 'E', 'R', '_', 'E', 'X', 'E', 'M', 'P', 'T', 'I', 'O', 'N'][3] != seq!['U', 'S', '_', 'M', 'N', '_', 'R', 'E', 'S', 'E', 'L', 'L', 'E', 'R', '_', 'E', 'X', 'E', 'M', 'P', 'T', 'I', 'O', 'N'][3]);
            assert(seq!['U', 'S', '_', 'W', 'I', '_', 'R', 'E', 'S', 'E', 'L', 'L', 'E', 'R', '_', 'E', 'X', 'E', 'M', 'P', 'T', 'I', 'O', 'N'][3] != seq!['U', 'S', '_', 'M', 'O', '_', 'R', 'E', 'S', 'E', 'L', 'L', 'E', 'R', '_', 'E', 'X', 'E', 'M', 'P', 'T', 'I', 'O', 'N'][3]);
            assert(seq!['U', 'S', '_', 'W', 'I', '_', 'R', 'E', 'S', 'E', 'L', 'L', 'E', 'R', '_', 'E', 'X', 'E', 'M', 'P', 'T', 'I', 'O', 'N'][3] != seq!['U', 'S', '_', 'M', 'S', '_', 'R', 'E', 'S', 'E', 'L', 'L', 'E', 'R', '_', 'E', 'X', 'E', 'M', 'P', 'T', 'I', 'O', 'N'][3]);
            assert(seq!['U', 'S', '_', 'W', 'I', '_', 'R', 'E', 'S', 'E', 'L', 'L', 'E', 'R', '_', 'E', 'X', 'E', 'M', 'P', 'T', 'I', 'O', 'N'][3] != seq!['U', 'S', '_', 'M', 'T', '_', 'R', 'E', 'S', 'E', 'L', 'L', 'E', 'R', '_', 'E', 'X', 'E', 'M', 'P', 'T', 'I', 'O', 'N'][3]);
            assert(seq!['U', 'S', '_', 'W', 'I', '_', 'R', 'E', 'S', 'E', 'L', 'L', 'E', 'R', '_', 'E', 'X', 'E', 'M', 'P', 'T', 'I', 'O', 'N'][3] != seq!['U', 'S', '_', 'N', 'C', '_', 'R', 'E', 'S', 'E', 'L', 'L', 'E', 'R', '_', 'E', 'X', 'E', 'M', 'P', 'T', 'I', 'O', 'N'][3]);
            assert(seq!['U', 'S', '_', 'W', 'I', '_', 'R', 'E', 'S', 'E', 'L', 'L', 'E', 'R', '_', 'E', 'X', 'E', 'M', 'P', 'T', 'I', 'O', 'N'][3] != seq!['U', 'S', '_', 'N', 'D', '_', 'R', 'E', 'S', 'E', 'L', 'L', 'E', 'R', '_', 'E', 'X', 'E', 'M', 'P', 'T', 'I', 'O', 'N'][3]);
            assert(seq!['U', 'S', '_', 'W', 'I', '_', 'R', 'E', 'S', 'E', 'L', 'L', 'E', 'R', '_', 'E', 'X', 'E', 'M', 'P', 'T', 'I', 'O', 'N'][3] != seq!['U', 'S', '_', 'N', 'E', '_', 'R', 'E', 'S', 'E', 'L', 'L', 'E', 'R', '_', 'E', 'X', 'E', 'M', 'P', 'T', 'I', 'O', 'N'][3]);
            assert(seq!['U', 'S', '_', 'W', 'I', '_', 'R', 'E', 'S', 'E', 'L', 'L', 'E', 'R', '_', 'E', 'X', 'E', 'M', 'P', 'T', 'I', 'O', 'N'][3] != seq!['U', 'S', '_', 'N', 'H', '_', 'R', 'E', 'S', 'E', 'L', 'L', 'E', 'R', '_', 'E', 'X', 'E', 'M', 'P', 'T', 'I', 'O', 'N'][3]);
            assert(seq!['U', 'S', '_', 'W', 'I', '_', 'R', 'E', 'S', 'E', 'L', 'L', 'E', 'R', '_', 'E', 'X', 'E', 'M', 'P', 'T', 'I', 'O', 'N'][3] != seq!['U', 'S', '_', 'N', 'J', '_', 'R', 'E', 'S', 'E', 'L', 'L', 'E', 'R', '_', 'E', 'X', 'E', 'M', 'P', 'T', 'I', 'O', 'N'][3]);
            assert(seq!['U', 'S', '_', 'W', 'I', '_', 'R', 'E', 'S', 'E', 'L', 'L', 'E', 'R', '_', 'E', 'X', 'E', 'M', 'P', 'T', 'I', 'O', 'N'][3] != seq!['U', 'S', '_', 'N', 'M', '_', 'R', 'E', 'S', 'E', 'L', 'L', 'E', 'R', '_', 'E', 'X', 'E', 'M', 'P', 'T', 'I', 'O', 'N'][3]);
            assert(seq!['U', 'S', '_', 'W', 'I', '_', 'R', 'E', 'S', 'E', 'L', 'L', 'E', 'R', '_', 'E', 'X', 'E', 'M', 'P', 'T', 'I', 'O', 'N'][3] != seq!['U', 'S', '_', 'N', 'V', '_', 'R', 'E', 'S', 'E', 'L', 'L', 'E', 'R', '_', 'E', 'X', 'E', 'M', 'P', 'T', 'I', 'O', 'N'][3]);
            assert(seq!['U', 'S', '_', 'W', 'I', '_', 'R', 'E', 'S', 'E', 'L', 'L', 'E', 'R', '_', 'E', 'X', 'E', 'M', 'P', 'T', 'I', 'O', 'N'][3] != seq!['U', 'S', '_', 'N', 'Y', '_', 'R', 'E', 'S', 'E', 'L', 'L', 'E', 'R', '_', 'E', 'X', 'E', 'M', 'P', 'T', 'I', 'O', 'N'][3]);
            assert(seq!['U', 'S', '_', 'W', 'I', '_', 'R', 'E', 'S', 'E', 'L', 'L', 'E', 'R', '_', 'E', 'X', 'E', 'M', 'P', 'T', 'I', 'O', 'N'][3] != seq!['U', 'S', '_', 'O', 'H', '_', 'R', 'E', 'S', 'E', 'L', 'L', 'E', 'R', '_', 'E', 'X', 'E', 'M', 'P', 'T', 'I', 'O', 'N'][3]);
            assert(seq!['U', 'S', '_', 'W', 'I', '_', 'R', 'E', 'S', 'E', 'L', 'L', 'E', 'R', '_', 'E', 'X', 'E', 'M', 'P', 'T', 'I', 'O', 'N'][3] != seq!['U', 'S', '_', 'O', 'K', '_', 'R', 'E', 'S', 'E', 'L', 'L', 'E', 'R', '_', 'E', 'X', 'E', 'M', 'P', 'T', 'I', 'O', 'N'][3]);
            assert(seq!['U', 'S', '_', 'W', 'I', '_', 'R', 'E', 'S', 'E', 'L', 'L', 'E', 'R', '_', 'E', 'X', 'E', 'M', 'P', 'T', 'I', 'O', 'N'][3] != seq!['U', 'S', '_', 'O', 'R', '_', 'R', 'E', 'S', 'E', 'L', 'L', 'E', 'R', '_', 'E', 'X', 'E', 'M', 'P', 'T', 'I', 'O', 'N'][3]);
            assert(seq!['U', 'S', '_', 'W', 'I', '_', 'R', 'E', 'S', 'E', 'L', 'L', 'E', 'R', '_', 'E', 'X', 'E', 'M', 'P', 'T', 'I', 'O', 'N'][3] != seq!['U', 'S', '_', 'P', 'A', '_', 'R', 'E', 'S', 'E', 'L', 'L', 'E', 'R', '_', 'E', 'X', 'E', 'M', 'P', 'T', 'I', 'O', 'N'][3]);
            assert(seq!['U', 'S', '_', 'W', 'I', '_', 'R', 'E', 'S', 'E', 'L', 'L', 'E', 'R', '_', 'E', 'X', 'E', 'M', 'P', 'T', 'I', 'O', 'N'][3] != seq!['U', 'S', '_', 'R', 'I', '_', 'R', 'E', 'S', 'E', 'L', 'L', 'E', 'R', '_', 'E', 'X', 'E', 'M', 'P', 'T', 'I', 'O', 'N'][3]);
            assert(seq!['U', 'S', '_', 'W', 'I', '_', 'R', 'E', 'S', 'E', 'L', 'L', 'E', 'R', '_', 'E', 'X', 'E', 'M', 'P', 'T', 'I', 'O', 'N'][3] != seq!['U', 'S', '_', 'S', 'C', '_', 'R', 'E', 'S', 'E', 'L', 'L', 'E', 'R', '_', 'E', 'X', 'E', 'M', 'P', 'T', 'I', 'O', 'N'][3]);
            assert(seq!['U', 'S', '_', 'W', 'I', '_', 'R', 'E', 'S', 'E', 'L', 'L', 'E', 'R', '_', 'E', 'X', 'E', 'M', 'P', 'T', 'I', 'O', 'N'][3] != seq!['U', 'S', '_', 'S', 'D', '_', 'R', 'E', 'S', 'E', 'L', 'L', 'E', 'R', '_', 'E', 'X', 'E', 'M', 'P', 'T', 'I', 'O', 'N'][3]);
            assert(seq!['U', 'S', '_', 'W', 'I', '_', 'R', 'E', 'S', 'E', 'L', 'L', 'E', 'R', '_', 'E', 'X', 'E', 'M', 'P', 'T', 'I', 'O', 'N'][3] != seq!['U', 'S', '_', 'T', 'N', '_', 'R', 'E', 'S', 'E', 'L', 'L', 'E', 'R', '_', 'E', 'X', 'E', 'M', 'P', 'T', 'I', 'O', 'N'][3]);
            assert(seq!['U', 'S', '_', 'W', 'I', '_', 'R', 'E', 'S', 'E', 'L', 'L', 'E', 'R', '_', 'E', 'X', 'E', 'M', 'P', 'T', 'I', 'O', 'N'][3] != seq!['U', 'S', '_', 'T', 'X', '_', 'R', 'E', 'S', 'E', 'L', 'L', 'E', 'R', '_', 'E', 'X', 'E', 'M', 'P', 'T', 'I', 'O', 'N'][3]);
            assert(seq!['U', 'S', '_', 'W', 'I', '_', 'R', 'E', 'S', 'E', 'L', 'L', 'E', 'R', '_', 'E', 'X', 'E', 'M', 'P', 'T', 'I', 'O', 'N'][3] != seq!['U', 'S', '_', 'U', 'T', '_', 'R', 'E', 'S', 'E', 'L', 'L', 'E', 'R', '_', 'E', 'X', 'E', 'M', 'P', 'T', 'I', 'O', 'N'][3]);
            assert(seq!['U', 'S', '_', 'W', 'I', '_', 'R', 'E', 'S', 'E', 'L', 'L', 'E', 'R', '_', 'E', 'X', 'E', 'M', 'P', 'T', 'I', 'O', 'N'][3] != seq!['U', 'S', '_', 'V', 'A', '_', 'R', 'E', 'S', 'E', 'L', 'L', 'E', 'R', '_', 'E', 'X', 'E', 'M', 'P', 'T', 'I', 'O', 'N'][3]);
            assert(seq!['U', 'S', '_', 'W', 'I', '_', 'R', 'E', 'S', 'E', 'L', 'L', 'E', 'R', '_', 'E', 'X', 'E', 'M', 'P', 'T', 'I', 'O', 'N'][3] != seq!['U', 'S', '_', 'V', 'T', '_', 'R', 'E', 'S', 'E', 'L', 'L', 'E', 'R', '_', 'E', 'X', 'E', 'M', 'P', 'T', 'I', 'O', 'N'][3]);
            assert(seq!['U', 'S', '_', 'W', 'I', '_', 'R', 'E', 'S', 'E', 'L', 'L', 'E', 'R', '_', 'E', 'X', 'E', 'M', 'P', 'T', 'I', 'O', 'N'][4] != seq!['U', 'S', '_', 'W', 'A', '_', 'R', 'E', 'S', 'E', 'L', 'L', 'E', 'R', '_', 'E', 'X', 'E', 'M', 'P', 'T', 'I', 'O', 'N'][4]);
        },
        TaxExemption::US_WV_RESELLER_EXEMPTION => {
            assert(seq!['U', 'S', '_', 'W', 'V', '_', 'R', 'E', 'S', 'E', 'L', 'L', 'E', 'R', '_', 'E', 'X', 'E', 'M', 'P', 'T', 'I', 'O', 'N'][0] != seq!['C', 'A', '_', 'B', 'C', '_', 'R', 'E', 'S', 'E', 'L', 'L', 'E', 'R', '_', 'E', 'X', 'E', 'M', 'P', 'T', 'I', 'O', 'N'][0]);
            assert(seq!['U', 'S', '_', 'W', 'V', '_', 'R', 'E', 'S', 'E', 'L', 'L', 'E', 'R', '_', 'E', 'X', 'E', 'M', 'P', 'T', 'I', 'O', 'N'][0] != seq!['C', 'A', '_', 'M', 'B', '_', 'R', 'E', 'S', 'E', 'L', 'L', 'E', 'R', '_', 'E', 'X', 'E', 'M', 'P', 'T', 'I', 'O', 'N'][0]);
            assert(seq!['U', 'S', '_', 'W', 'V', '_', 'R', 'E', 'S', 'E', 'L', 'L', 'E', 'R', '_', 'E', 'X', 'E', 'M', 'P', 'T', 'I', 'O', 'N'][0] != seq!['C', 'A', '_', 'O', 'N', '_', 'P', 'U', 'R', 'C', 'H', 'A', 'S', 'E', '_', 'E', 'X', 'E', 'M', 'P', 'T', 'I', 'O', 'N'][0]);
            assert(seq!['U', 'S', '_', 'W', 'V', '_', 'R', 'E', 'S', 'E', 'L', 'L', 'E', 'R', '_', 'E', 'X', 'E', 'M', 'P', 'T', 'I', 'O', 'N'][0] != seq!['C', 'A', '_', 'S', 'K', '_', 'R', 'E', 'S', 'E', 'L', 'L', 'E', 'R', '_', 'E', 'X', 'E', 'M', 'P', 'T', 'I', 'O', 'N'][0]);
            assert(seq!['U', 'S', '_', 'W', 'V', '_', 'R', 'E', 'S', 'E', 'L', 'L', 'E', 'R', '_', 'E', 'X', 'E', 'M', 'P', 'T', 'I', 'O', 'N'][0] != seq!['C', 'A', '_', 'S', 'T', 'A', 'T', 'U', 'S', '_', 'C', 'A', 'R', 'D', '_', 'E', 'X', 'E', 'M', 'P', 'T', 'I', 'O', 'N'][0]);
            assert(seq!['U', 'S', '_', 'W', 'V', '_', 'R', 'E', 'S', 'E', 'L', 'L', 'E', 'R', '_', 'E', 'X', 'E', 'M', 'P', 'T', 'I', 'O', 'N'][3] != seq!['U', 'S', '_', 'A', 'K', '_', 'R', 'E', 'S', 'E', 'L', 'L', 'E', 'R', '_', 'E', 'X', 'E', 'M', 'P', 'T', 'I', 'O', 'N'][3]);
            assert(seq!['U', 'S', '_', 'W', 'V', '_', 'R', 'E', 'S', 'E', 'L', 'L', 'E', 'R', '_', 'E', 'X', 'E', 'M', 'P', 'T', 'I', 'O', 'N'][3] != seq!['U', 'S', '_', 'A', 'L', '_', 'R', 'E', 'S', 'E', 'L', 'L', 'E', 'R', '_', 'E', 'X', 'E', 'M', 'P', 'T', 'I', 'O', 'N'][3]);
            assert(seq!['U', 'S', '_', 'W', 'V', '_', 'R', 'E', 'S', 'E', 'L', 'L', 'E', 'R', '_', 'E', 'X', 'E', 'M', 'P', 'T', 'I', 'O', 'N'][3] != seq!['U', 'S', '_', 'A', 'R', '_', 'R', 'E', 'S', 'E', 'L', 'L', 'E', 'R', '_', 'E', 'X', 'E', 'M', 'P', 'T', 'I', 'O', 'N'][3]);
            assert(seq!['U', 'S', '_', 'W', 'V', '_', 'R', 'E', 'S', 'E', 'L', 'L', 'E', 'R', '_', 'E', 'X', 'E', 'M', 'P', 'T', 'I', 'O', 'N'][3] != seq!['U', 'S', '_', 'A', 'Z', '_', 'R', 'E', 'S', 'E', 'L', 'L', 'E', 'R', '_', 'E', 'X', 'E', 'M', 'P', 'T', 'I', 'O', 'N'][3]);
            assert(seq!['U', 'S', '_', 'W', 'V', '_', 'R', 'E', 'S', 'E', 'L', 'L', 'E', 'R', '_', 'E', 'X', 'E', 'M', 'P', 'T', 'I', 'O', 'N'][3] != seq!['U', 'S', '_', 'C', 'A', '_', 'R', 'E', 'S', 'E', 'L', 'L', 'E', 'R', '_', 'E', 'X', 'E', 'M', 'P', 'T', 'I', 'O', 'N'][3]);
            assert(seq!['U', 'S', '_', 'W', 'V', '_', 'R', 'E', 'S', 'E', 'L', 'L', 'E', 'R', '_', 'E', 'X', 'E', 'M', 'P', 'T', 'I', 'O', 'N'][3] != seq!['U', 'S', '_', 'C', 'O', '_', 'R', 'E', 'S', 'E', 'L', 'L', 'E', 'R', '_', 'E', 'X', 'E', 'M', 'P', 'T', 'I', 'O', 'N'][3]);
            assert(seq!['U', 'S', '_', 'W', 'V', '_', 'R', 'E', 'S', 'E', 'L', 'L', 'E', 'R', '_', 'E', 'X', 'E', 'M', 'P', 'T', 'I', 'O', 'N'][3] != seq!['U', 'S', '_', 'C', 'T', '_', 'R', 'E', 'S', 'E', 'L', 'L', 'E', 'R', '_', 'E', 'X', 'E', 'M', 'P', 'T', 'I', 'O', 'N'][3]);
            assert(seq!['U', 'S', '_', 'W', 'V', '_', 'R', 'E', 'S', 'E', 'L', 'L', 'E', 'R', '_', 'E', 'X', 'E', 'M', 'P', 'T', 'I', 'O', 'N'][3] != seq!['U', 'S', '_', 'D', 'C', '_', 'R', 'E', 'S', 'E', 'L', 'L', 'E', 'R', '_', 'E', 'X', 'E', 'M', 'P', 'T', 'I', 'O', 'N'][3]);
            assert(seq!['U', 'S', '_', 'W', 'V', '_', 'R', 'E', 'S', 'E', 'L', 'L', 'E', 'R', '_', 'E', 'X', 'E', 'M', 'P', 'T', 'I', 'O', 'N'][3] != seq!['U', 'S', '_', 'D', 'E', '_', 'R', 'E', 'S', 'E', 'L', 'L', 'E', 'R', '_', 'E', 'X', 'E', 'M', 'P', 'T', 'I', 'O', 'N'][3]);
            assert(seq!['U', 'S', '_', 'W', 'V', '_', 'R', 'E', 'S', 'E', 'L', 'L', 'E', 'R', '_', 'E', 'X', 'E', 'M', 'P', 'T', 'I', 'O', 'N'][3] != seq!['U', 'S', '_', 'F', 'L', '_', 'R', 'E', 'S', 'E', 'L', 'L', 'E', 'R', '_', 'E', 'X', 'E', 'M', 'P', 'T', 'I', 'O', 'N'][3]);
            assert(seq!['U', 'S', '_', 'W', 'V', '_', 'R', 'E', 'S', 'E', 'L', 'L', 'E', 'R', '_', 'E', 'X', 'E', 'M', 'P', 'T', 'I', 'O', 'N'][3] != seq!['U', 'S', '_', 'G', 'A', '_', 'R', 'E', 'S', 'E', 'L', 'L', 'E', 'R', '_', 'E', 'X', 'E', 'M', 'P', 'T', 'I', 'O', 'N'][3]);
            assert(seq!['U', 'S', '_', 'W', 'V', '_', 'R', 'E', 'S', 'E', 'L', 'L', 'E', 'R', '_', 'E', 'X', 'E', 'M', 'P', 'T', 'I', 'O', 'N'][3] != seq!['U', 'S', '_', 'H', 'I', '_', 'R', 'E', 'S', 'E', 'L', 'L', 'E', 'R', '_', 'E', 'X', 'E', 'M', 'P', 'T', 'I', 'O', 'N'][3]);
            assert(seq!['U', 'S', '_', 'W', 'V', '_', 'R', 'E', 'S', 'E', 'L', 'L', 'E', 'R', '_', 'E', 'X', 'E', 'M', 'P', 'T', 'I', 'O', 'N'][3] != seq!['U', 'S', '_', 'I', 'A', '_', 'R', 'E', 'S', 'E', 'L', 'L', 'E', 'R', '_', 'E', 'X', 'E', 'M', 'P', 'T', 'I', 'O', 'N'][3]);
            assert(seq!['U', 'S', '_', 'W', 'V', '_', 'R', 'E', 'S', 'E', 'L', 'L', 'E', 'R', '_', 'E', 'X', 'E', 'M', 'P', 'T', 'I', 'O', 'N'][3] != seq!['U', 'S', '_', 'I', 'D', '_', 'R', 'E', 'S', 'E', 'L', 'L', 'E', 'R', '_', 'E', 'X', 'E', 'M', 'P', 'T', 'I', 'O', 'N'][3]);
            assert(seq!['U', 'S', '_', 'W', 'V', '_', 'R', 'E', 'S', 'E', 'L', 'L', 'E', 'R', '_', 'E', 'X', 'E', 'M', 'P', 'T', 'I', 'O', 'N'][3] != seq!['U', 'S', '_', 'I', 'L', '_', 'R', 'E', 'S', 'E', 'L', 'L', 'E', 'R', '_', 'E', 'X', 'E', 'M', 'P', 'T', 'I', 'O', 'N'][3]);
            assert(seq!['U', 'S', '_', 'W', 'V', '_', 'R', 'E', 'S', 'E', 'L', 'L', 'E', 'R', '_', 'E', 'X', 'E', 'M', 'P', 'T', 'I', 'O', 'N'][3] != seq!['U', 'S', '_', 'I', 'N', '_', 'R', 'E', 'S', 'E', 'L', 'L', 'E', 'R', '_', 'E', 'X', 'E', 'M', 'P', 'T', 'I', 'O', 'N'][3]);
            assert(seq!['U', 'S', '_', 'W', 'V', '_', 'R', 'E', 'S', 'E', 'L', 'L', 'E', 'R', '_', 'E', 'X', 'E', 'M', 'P', 'T', 'I', 'O', 'N'][3] != seq!['U', 'S', '_', 'K', 'S', '_', 'R', 'E', 'S', 'E', 'L', 'L', 'E', 'R', '_', 'E', 'X', 'E', 'M', 'P', 'T', 'I', 'O', 'N'][3]);
            assert(seq!['U', 'S', '_', 'W', 'V', '_', 'R', 'E', 'S', 'E', 'L', 'L', 'E', 'R', '_', 'E', 'X', 'E', 'M', 'P', 'T', 'I', 'O', 'N'][3] != seq!['U', 'S', '_', 'K', 'Y', '_', 'R', 'E', 'S', 'E', 'L', 'L', 'E', 'R', '_', 'E', 'X', 'E', 'M', 'P', 'T', 'I', 'O', 'N'][3]);
            assert(seq!['U', 'S', '_', 'W', 'V', '_', 'R', 'E', 'S', 'E', 'L', 'L', 'E', 'R', '_', 'E', 'X', 'E', 'M', 'P', 'T', 'I', 'O', 'N'][3] != seq!['U', 'S', '_', 'L', 'A', '_', 'R', 'E', 'S', 'E', 'L', 'L', 'E', 'R', '_', 'E', 'X', 'E', 'M', 'P', 'T', 'I', 'O', 'N'][3]);
            assert(seq!['U', 'S', '_', 'W', 'V', '_', 'R', 'E', 'S', 'E', 'L', 'L', 'E', 'R', '_', 'E', 'X', 'E', 'M', 'P', 'T', 'I', 'O', 'N'][3] != seq!['U', 'S', '_', 'M', 'A', '_', 'R', 'E', 'S', 'E', 'L', 'L', 'E', 'R', '_', 'E', 'X', 'E', 'M', 'P', 'T', 'I', 'O', 'N'][3]);
            assert(seq!['U', 'S', '_', 'W', 'V', '_', 'R', 'E', 'S', 'E', 'L', 'L', 'E', 'R', '_', 'E', 'X', 'E', 'M', 'P', 'T', 'I', 'O', 'N'][3] != seq!['U', 'S', '_', 'M', 'D', '_', 'R', 'E', 'S', 'E', 'L', 'L', 'E', 'R', '_', 'E', 'X', 'E', 'M', 'P', 'T', 'I', 'O', 'N'][3]);
            assert(seq!['U', 'S', '_', 'W', 'V', '_', 'R', 'E', 'S', 'E', 'L', 'L', 'E', 'R', '_', 'E', 'X', 'E', 'M', 'P', 'T', 'I', 'O', 'N'][3] != seq!['U', 'S', '_', 'M', 'E', '_', 'R', 'E', 'S', 'E', 'L', 'L', 'E', 'R', '_', 'E', 'X', 'E', 'M', 'P', 'T', 'I', 'O', 'N'][3]);
            assert(seq!['U', 'S', '_', 'W', 'V', '_', 'R', 'E', 'S', 'E', 'L', 'L', 'E', 'R', '_', 'E', 'X', 'E', 'M', 'P', 'T', 'I', 'O', 'N'][3] != seq!['U', 'S', '_', 'M', 'I', '_', 'R', 'E', 'S', 'E', 'L', 'L', 'E', 'R', '_', 'E', 'X', 'E', 'M', 'P', 'T', 'I', 'O', 'N'][3]);
            assert(seq!['U', 'S', '_', 'W', 'V', '_', 'R', 'E', 'S', 'E', 'L', 'L', 'E', 'R', '_', 'E', 'X', 'E', 'M', 'P', 'T', 'I', 'O', 'N'][3] != seq!['U', 'S', '_', 'M', 'N', '_', 'R', 'E', 'S', 'E', 'L', 'L', 'E', 'R', '_', 'E', 'X', 'E', 'M', 'P', 'T', 'I', 'O', 'N'][3]);
            assert(seq!['U', 'S', '_', 'W', 'V', '_', 'R', 'E', 'S', 'E', 'L', 'L', 'E', 'R', '_', 'E', 'X', 'E', 'M', 'P', 'T', 'I', 'O', 'N'][3] != seq!['U', 'S', '_', 'M', 'O', '_', 'R', 'E', 'S', 'E', 'L', 'L', 'E', 'R', '_', 'E', 'X', 'E', 'M', 'P', 'T', 'I', 'O', 'N'][3]);
            assert(seq!['U', 'S', '_', 'W', 'V', '_', 'R', 'E', 'S', 'E', 'L', 'L', 'E', 'R', '_', 'E', 'X', 'E', 'M', 'P', 'T', 'I', 'O', 'N'][3] != seq!['U', 'S', '_', 'M', 'S', '_', 'R', 'E', 'S', 'E', 'L', 'L', 'E', 'R', '_', 'E', 'X', 'E', 'M', 'P', 'T', 'I', 'O', 'N'][3]);
            assert(seq!['U', 'S', '_', 'W', 'V', '_', 'R', 'E', 'S', 'E', 'L', 'L', 'E', 'R', '_', 'E', 'X', 'E', 'M', 'P', 'T', 'I', 'O', 'N'][3] != seq!['U', 'S', '_', 'M', 'T', '_', 'R', 'E', 'S', 'E', 'L', 'L', 'E', 'R', '_', 'E', 'X', 'E', 'M', 'P', 'T', 'I', 'O', 'N'][3]);
            assert(seq!['U', 'S', '_', 'W', 'V', '_', 'R', 'E', 'S', 'E', 'L', 'L', 'E', 'R', '_', 'E', 'X', 'E', 'M', 'P', 'T', 'I', 'O', 'N'][3] != seq!['U', 'S', '_', 'N', 'C', '_', 'R', 'E', 'S', 'E', 'L', 'L', 'E', 'R', '_', 'E', 'X', 'E', 'M', 'P', 'T', 'I', 'O', 'N'][3]);
            assert(seq!['U', 'S', '_', 'W', 'V', '_', 'R', 'E', 'S', 'E', 'L', 'L', 'E', 'R', '_', 'E', 'X', 'E', 'M', 'P', 'T', 'I', 'O', 'N'][3] != seq!['U', 'S', '_', 'N', 'D', '_', 'R', 'E', 'S', 'E', 'L', 'L', 'E', 'R', '_', 'E', 'X', 'E', 'M', 'P', 'T', 'I', 'O', 'N'][3]);
            assert(seq!['U', 'S', '_', 'W', 'V', '_', 'R', 'E', 'S', 'E', 'L', 'L', 'E', 'R', '_', 'E', 'X', 'E', 'M', 'P', 'T', 'I', 'O', 'N'][3] != seq!['U', 'S', '_', 'N', 'E', '_', 'R', 'E', 'S', 'E', 'L', 'L', 'E', 'R', '_', 'E', 'X', 'E', 'M', 'P', 'T', 'I', 'O', 'N'][3]);
            assert(seq!['U', 'S', '_', 'W', 'V', '_', 'R', 'E', 'S', 'E', 'L', 'L', 'E', 'R', '_', 'E', 'X', 'E', 'M', 'P', 'T', 'I', 'O', 'N'][3] != seq!['U', 'S', '_', 'N', 'H', '_', 'R', 'E', 'S', 'E', 'L', 'L', 'E', 'R', '_', 'E', 'X', 'E', 'M', 'P', 'T', 'I', 'O', 'N'][3]);
            assert(seq!['U', 'S', '_', 'W', 'V', '_', 'R', 'E', 'S', 'E', 'L', 'L', 'E', 'R', '_', 'E', 'X', 'E', 'M', 'P', 'T', 'I', 'O', 'N'][3] != seq!['U', 'S', '_', 'N', 'J', '_', 'R', 'E', 'S', 'E', 'L', 'L', 'E', 'R', '_', 'E', 'X', 'E', 'M', 'P', 'T', 'I', 'O', 'N'][3]);
            assert(seq!['U', 'S', '_', 'W', 'V', '_', 'R', 'E', 'S', 'E', 'L', 'L', 'E', 'R', '_', 'E', 'X', 'E', 'M', 'P', 'T', 'I', 'O', 'N'][3] != seq!['U', 'S', '_', 'N', 'M', '_', 'R', 'E', 'S', 'E', 'L', 'L', 'E', 'R', '_', 'E', 'X', 'E', 'M', 'P', 'T', 'I', 'O', 'N'][3]);
            assert(seq!['U', 'S', '_', 'W', 'V', '_', 'R', 'E', 'S', 'E', 'L', 'L', 'E', 'R', '_', 'E', 'X', 'E', 'M', 'P', 'T', 'I', 'O', 'N'][3] != seq!['U', 'S', '_', 'N', 'V', '_', 'R', 'E', 'S', 'E', 'L', 'L', 'E', 'R', '_', 'E', 'X', 'E', 'M', 'P', 'T', 'I', 'O', 'N'][3]);
            assert(seq!['U', 'S', '_', 'W', 'V', '_', 'R', 'E', 'S', 'E', 'L', 'L', 'E', 'R', '_', 'E', 'X', 'E', 'M', 'P', 'T', 'I', 'O', 'N'][3] != seq!['U', 'S', '_', 'N', 'Y', '_', 'R', 'E', 'S', 'E', 'L', 'L', 'E', 'R', '_', 'E', 'X', 'E', 'M', 'P', 'T', 'I', 'O', 'N'][3]);
            assert(seq!['U', 'S', '_', 'W', 'V', '_', 'R', 'E', 'S', 'E', 'L', 'L', 'E', 'R', '_', 'E', 'X', 'E', 'M', 'P', 'T', 'I', 'O', 'N'][3] != seq!['U', 'S', '_', 'O', 'H', '_', 'R', 'E', 'S', 'E', 'L', 'L', 'E', 'R', '_', 'E', 'X', 'E', 'M', 'P', 'T', 'I', 'O', 'N'][3]);
            assert(seq!['U', 'S', '_', 'W', 'V', '_', 'R', 'E', 'S', 'E', 'L', 'L', 'E', 'R', '_', 'E', 'X', 'E', 'M', 'P', 'T', 'I', 'O', 'N'][3] != seq!['U', 'S', '_', 'O', 'K', '_', 'R', 'E', 'S', 'E', 'L', 'L', 'E', 'R', '_', 'E', 'X', 'E', 'M', 'P', 'T', 'I', 'O', 'N'][3]);
            assert(seq!['U', 'S', '_', 'W', 'V', '_', 'R', 'E', 'S', 'E', 'L', 'L', 'E', 'R', '_', 'E', 'X', 'E', 'M', 'P', 'T', 'I', 'O', 'N'][3] != seq!['U', 'S', '_', 'O', 'R', '_', 'R', 'E', 'S', 'E', 'L', 'L', 'E', 'R', '_', 'E', 'X', 'E', 'M', 'P', 'T', 'I', 'O', 'N'][3]);
            assert(seq!['U', 'S', '_', 'W', 'V', '_', 'R', 'E', 'S', 'E', 'L', 'L', 'E', 'R', '_', 'E', 'X', 'E', 'M', 'P', 'T', 'I', 'O', 'N'][3] != seq!['U', 'S', '_', 'P', 'A', '_', 'R', 'E', 'S', 'E', 'L', 'L', 'E', 'R', '_', 'E', 'X', 'E', 'M', 'P', 'T', 'I', 'O', 'N'][3]);
            assert(seq!['U', 'S', '_', 'W', 'V', '_', 'R', 'E', 'S', 'E', 'L', 'L', 'E', 'R', '_', 'E', 'X', 'E', 'M', 'P', 'T', 'I', 'O', 'N'][3] != seq!['U', 'S', '_', 'R', 'I', '_', 'R', 'E', 'S', 'E', 'L', 'L', 'E', 'R', '_', 'E', 'X', 'E', 'M', 'P', 'T', 'I', 'O', 'N'][3]);
            assert(seq!['U', 'S', '_', 'W', 'V', '_', 'R', 'E', 'S', 'E', 'L', 'L', 'E', 'R', '_', 'E', 'X', 'E', 'M', 'P', 'T', 'I', 'O', 'N'][3] != seq!['U', 'S', '_', 'S', 'C', '_', 'R', 'E', 'S', 'E', 'L', 'L', 'E', 'R', '_', 'E', 'X', 'E', 'M', 'P', 'T', 'I', 'O', 'N'][3]);
            assert(seq!['U', 'S', '_', 'W', 'V', '_', 'R', 'E', 'S', 'E', 'L', 'L', 'E', 'R', '_', 'E', 'X', 'E', 'M', 'P', 'T', 'I', 'O', 'N'][3] != seq!['U', 'S', '_', 'S', 'D', '_', 'R', 'E', 'S', 'E', 'L', 'L', 'E', 'R', '_', 'E', 'X', 'E', 'M', 'P', 'T', 'I', 'O', 'N'][3]);
            assert(seq!['U', 'S', '_', 'W', 'V', '_', 'R', 'E', 'S', 'E', 'L', 'L', 'E', 'R', '_', 'E', 'X', 'E', 'M', 'P', 'T', 'I', 'O', 'N'][3] != seq!['U', 'S', '_', 'T', 'N', '_', 'R', 'E', 'S', 'E', 'L', 'L', 'E', 'R', '_', 'E', 'X', 'E', 'M', 'P', 'T', 'I', 'O', 'N'][3]);
            assert(seq!['U', 'S', '_', 'W', 'V', '_', 'R', 'E', 'S', 'E', 'L', 'L', 'E', 'R', '_', 'E', 'X', 'E', 'M', 'P', 'T', 'I', 'O', 'N'][3] != seq!['U', 'S', '_', 'T', 'X', '_', 'R', 'E', 'S', 'E', 'L', 'L', 'E', 'R', '_', 'E', 'X', 'E', 'M', 'P', 'T', 'I', 'O', 'N'][3]);
            assert(seq!['U', 'S', '_', 'W', 'V', '_', 'R', 'E', 'S', 'E', 'L', 'L', 'E', 'R', '_', 'E', 'X', 'E', 'M', 'P', 'T', 'I', 'O', 'N'][3] != seq!['U', 'S', '_', 'U', 'T', '_', 'R', 'E', 'S', 'E', 'L', 'L', 'E', 'R', '_', 'E', 'X', 'E', 'M', 'P', 'T', 'I', 'O', 'N'][3]);
            assert(seq!['U', 'S', '_', 'W', 'V', '_', 'R', 'E', 'S', 'E', 'L', 'L', 'E', 'R', '_', 'E', 'X', 'E', 'M', 'P', 'T', 'I', 'O', 'N'][3] != seq!['U', 'S', '_', 'V', 'A', '_', 'R', 'E', 'S', 'E', 'L', 'L', 'E', 'R', '_', 'E', 'X', 'E', 'M', 'P', 'T', 'I', 'O', 'N'][3]);
            assert(seq!['U', 'S', '_', 'W', 'V', '_', 'R', 'E', 'S', 'E', 'L', 'L', 'E', 'R', '_', 'E', 'X', 'E', 'M', 'P', 'T', 'I', 'O', 'N'][3] != seq!['U', 'S', '_', 'V', 'T', '_', 'R', 'E', 'S', 'E', 'L', 'L', 'E', 'R', '_', 'E', 'X', 'E', 'M', 'P', 'T', 'I', 'O', 'N'][3]);
            assert(seq!['U', 'S', '_', 'W', 'V', '_', 'R', 'E', 'S', 'E', 'L', 'L', 'E', 'R', '_', 'E', 'X', 'E', 'M', 'P', 'T', 'I', 'O', 'N'][4] != seq!['U', 'S', '_', 'W', 'A', '_', 'R', 'E', 'S', 'E', 'L', 'L', 'E', 'R', '_', 'E', 'X', 'E', 'M', 'P', 'T', 'I', 'O', 'N'][4]);
            assert(seq!['U', 'S', '_', 'W', 'V', '_', 'R', 'E', 'S', 'E', 'L', 'L', 'E', 'R', '_', 'E', 'X', 'E', 'M', 'P', 'T', 'I', 'O', 'N'][4] != seq!['U', 'S', '_', 'W', 'I', '_', 'R', 'E', 'S', 'E', 'L', 'L', 'E', 'R', '_', 'E', 'X', 'E', 'M', 'P', 'T', 'I', 'O', 'N'][4]);
        },
        TaxExemption::US_WY_RESELLER_EXEMPTION => {
            assert(seq!['U', 'S', '_', 'W', 'Y', '_', 'R', 'E', 'S', 'E', 'L', 'L', 'E', 'R', '_', 'E', 'X', 'E', 'M', 'P', 'T', 'I', 'O', 'N'][0] != seq!['C', 'A', '_', 'B', 'C', '_', 'R', 'E', 'S', 'E', 'L', 'L', 'E', 'R', '_', 'E', 'X', 'E', 'M', 'P', 'T', 'I', 'O', 'N'][0]);
            assert(seq!['U', 'S', '_', 'W', 'Y', '_', 'R', 'E', 'S', 'E', 'L', 'L', 'E', 'R', '_', 'E', 'X', 'E', 'M', 'P', 'T', 'I', 'O', 'N'][0] != seq!['C', 'A', '_', 'M', 'B', '_', 'R', 'E', 'S', 'E', 'L', 'L', 'E', 'R', '_', 'E', 'X', 'E', 'M', 'P', 'T', 'I', 'O', 'N'][0]);
            assert(seq!['U', 'S', '_', 'W', 'Y', '_', 'R', 'E', 'S', 'E', 'L', 'L', 'E', 'R', '_', 'E', 'X', 'E', 'M', 'P', 'T', 'I', 'O', 'N'][0] != seq!['C', 'A', '_', 'O', 'N', '_', 'P', 'U', 'R', 'C', 'H', 'A', 'S', 'E', '_', 'E', 'X', 'E', 'M', 'P', 'T', 'I', 'O', 'N'][0]);
            assert(seq!['U', 'S', '_', 'W', 'Y', '_', 'R', 'E', 'S', 'E', 'L', 'L', 'E', 'R', '_', 'E', 'X', 'E', 'M', 'P', 'T', 'I', 'O', 'N'][0] != seq!['C', 'A', '_', 'S', 'K', '_', 'R', 'E', 'S', 'E', 'L', 'L', 'E', 'R', '_', 'E', 'X', 'E', 'M', 'P', 'T', 'I', 'O', 'N'][0]);
            assert(seq!['U', 'S', '_', 'W', 'Y', '_', 'R', 'E', 'S', 'E', 'L', 'L', 'E', 'R', '_', 'E', 'X', 'E', 'M', 'P', 'T', 'I', 'O', 'N'][0] != seq!['C', 'A', '_', 'S', 'T', 'A', 'T', 'U', 'S', '_', 'C', 'A', 'R', 'D', '_', 'E', 'X', 'E', 'M', 'P', 'T', 'I', 'O', 'N'][0]);
            assert(seq!['U', 'S', '_', 'W', 'Y', '_', 'R', 'E', 'S', 'E', 'L', 'L', 'E', 'R', '_', 'E', 'X', 'E', 'M', 'P', 'T', 'I', 'O', 'N'][3] != seq!['U', 'S', '_', 'A', 'K', '_', 'R', 'E', 'S', 'E', 'L', 'L', 'E', 'R', '_', 'E', 'X', 'E', 'M', 'P', 'T', 'I', 'O', 'N'][3]);
            assert(seq!['U', 'S', '_', 'W', 'Y', '_', 'R', 'E', 'S', 'E', 'L', 'L', 'E', 'R', '_', 'E', 'X', 'E', 'M', 'P', 'T', 'I', 'O', 'N'][3] != seq!['U', 'S', '_', 'A', 'L', '_', 'R', 'E', 'S', 'E', 'L', 'L', 'E', 'R', '_', 'E', 'X', 'E', 'M', 'P', 'T', 'I', 'O', 'N'][3]);
            assert(seq!['U', 'S', '_', 'W', 'Y', '_', 'R', 'E', 'S', 'E', 'L', 'L', 'E', 'R', '_', 'E', 'X', 'E', 'M', 'P', 'T', 'I', 'O', 'N'][3] != seq!['U', 'S', '_', 'A', 'R', '_', 'R', 'E', 'S', 'E', 'L', 'L', 'E', 'R', '_', 'E', 'X', 'E', 'M', 'P', 'T', 'I', 'O', 'N'][3]);
            assert(seq!['U', 'S', '_', 'W', 'Y', '_', 'R', 'E', 'S', 'E', 'L', 'L', 'E', 'R', '_', 'E', 'X', 'E', 'M', 'P', 'T', 'I', 'O', 'N'][3] != seq!['U', 'S', '_', 'A', 'Z', '_', 'R', 'E', 'S', 'E', 'L', 'L', 'E', 'R', '_', 'E', 'X', 'E', 'M', 'P', 'T', 'I', 'O', 'N'][3]);
            assert(seq!['U', 'S', '_', 'W', 'Y', '_', 'R', 'E', 'S', 'E', 'L', 'L', 'E', 'R', '_', 'E', 'X', 'E', 'M', 'P', 'T', 'I', 'O', 'N'][3] != seq!['U', 'S', '_', 'C', 'A', '_', 'R', 'E', 'S', 'E', 'L', 'L', 'E', 'R', '_', 'E', 'X', 'E', 'M', 'P', 'T', 'I', 'O', 'N'][3]);
            assert(seq!['U', 'S', '_', 'W', 'Y', '_', 'R', 'E', 'S', 'E', 'L', 'L', 'E', 'R', '_', 'E', 'X', 'E', 'M', 'P', 'T', 'I', 'O', 'N'][3] != seq!['U', 'S', '_', 'C', 'O', '_', 'R', 'E', 'S', 'E', 'L', 'L', 'E', 'R', '_', 'E', 'X', 'E', 'M', 'P', 'T', 'I', 'O', 'N'][3]);
            assert(seq!['U', 'S', '_', 'W', 'Y', '_', 'R', 'E', 'S', 'E', 'L', 'L', 'E', 'R', '_', 'E', 'X', 'E', 'M', 'P', 'T', 'I', 'O', 'N'][3] != seq!['U', 'S', '_', 'C', 'T', '_', 'R', 'E', 'S', 'E', 'L', 'L', 'E', 'R', '_', 'E', 'X', 'E', 'M', 'P', 'T', 'I', 'O', 'N'][3]);
            assert(seq!['U', 'S', '_', 'W', 'Y', '_', 'R', 'E', 'S', 'E', 'L', 'L', 'E', 'R', '_', 'E', 'X', 'E', 'M', 'P', 'T', 'I', 'O', 'N'][3] != seq!['U', 'S', '_', 'D', 'C', '_', 'R', 'E', 'S', 'E', 'L', 'L', 'E', 'R', '_', 'E', 'X', 'E', 'M', 'P', 'T', 'I', 'O', 'N'][3]);
            assert(seq!['U', 'S', '_', 'W', 'Y', '_', 'R', 'E', 'S', 'E', 'L', 'L', 'E', 'R', '_', 'E', 'X', 'E', 'M', 'P', 'T', 'I', 'O', 'N'][3] != seq!['U', 'S', '_', 'D', 'E', '_', 'R', 'E', 'S', 'E', 'L', 'L', 'E', 'R', '_', 'E', 'X', 'E', 'M', 'P', 'T', 'I', 'O', 'N'][3]);
            assert(seq!['U', 'S', '_', 'W', 'Y', '_', 'R', 'E', 'S', 'E', 'L', 'L', 'E', 'R', '_', 'E', 'X', 'E', 'M', 'P', 'T', 'I', 'O', 'N'][3] != seq!['U', 'S', '_', 'F', 'L', '_', 'R', 'E', 'S', 'E', 'L', 'L', 'E', 'R', '_', 'E', 'X', 'E', 'M', 'P', 'T', 'I', 'O', 'N'][3]);
            assert(seq!['U', 'S', '_', 'W', 'Y', '_', 'R', 'E', 'S', 'E', 'L', 'L', 'E', 'R', '_', 'E', 'X', 'E', 'M', 'P', 'T', 'I', 'O', 'N'][3] != seq!['U', 'S', '_', 'G', 'A', '_', 'R', 'E', 'S', 'E', 'L', 'L', 'E', 'R', '_', 'E', 'X', 'E', 'M', 'P', 'T', 'I', 'O', 'N'][3]);
            assert(seq!['U', 'S', '_', 'W', 'Y', '_', 'R', 'E', 'S', 'E', 'L', 'L', 'E', 'R', '_', 'E', 'X', 'E', 'M', 'P', 'T', 'I', 'O', 'N'][3] != seq!['U', 'S', '_', 'H', 'I', '_', 'R', 'E', 'S', 'E', 'L', 'L', 'E', 'R', '_', 'E', 'X', 'E', 'M', 'P', 'T', 'I', 'O', 'N'][3]);
            assert(seq!['U', 'S', '_', 'W', 'Y', '_', 'R', 'E', 'S', 'E', 'L', 'L', 'E', 'R', '_', 'E', 'X', 'E', 'M', 'P', 'T', 'I', 'O', 'N'][3] != seq!['U', 'S', '_', 'I', 'A', '_', 'R', 'E', 'S', 'E', 'L', 'L', 'E', 'R', '_', 'E', 'X', 'E', 'M', 'P', 'T', 'I', 'O', 'N'][3]);
            assert(seq!['U', 'S', '_', 'W', 'Y', '_', 'R', 'E', 'S', 'E', 'L', 'L', 'E', 'R', '_', 'E', 'X', 'E', 'M', 'P', 'T', 'I', 'O', 'N'][3] != seq!['U', 'S', '_', 'I', 'D', '_', 'R', 'E', 'S', 'E', 'L', 'L', 'E', 'R', '_', 'E', 'X', 'E', 'M', 'P', 'T', 'I', 'O', 'N'][3]);
            assert(seq!['U', 'S', '_', 'W', 'Y', '_', 'R', 'E', 'S', 'E', 'L', 'L', 'E', 'R', '_', 'E', 'X', 'E', 'M', 'P', 'T', 'I', 'O', 'N'][3] != seq!['U', 'S', '_', 'I', 'L', '_', 'R', 'E', 'S', 'E', 'L', 'L', 'E', 'R', '_', 'E', 'X', 'E', 'M', 'P', 'T', 'I', 'O', 'N'][3]);
            assert(seq!['U', 'S', '_', 'W', 'Y', '_', 'R', 'E', 'S', 'E', 'L', 'L', 'E', 'R', '_', 'E', 'X', 'E', 'M', 'P', 'T', 'I', 'O', 'N'][3] != seq!['U', 'S', '_', 'I', 'N', '_', 'R', 'E', 'S', 'E', 'L', 'L', 'E', 'R', '_', 'E', 'X', 'E', 'M', 'P', 'T', 'I', 'O', 'N'][3]);
            assert(seq!['U', 'S', '_', 'W', 'Y', '_', 'R', 'E', 'S', 'E', 'L', 'L', 'E', 'R', '_', 'E', 'X', 'E', 'M', 'P', 'T', 'I', 'O', 'N'][3] != seq!['U', 'S', '_', 'K', 'S', '_', 'R', 'E', 'S', 'E', 'L', 'L', 'E', 'R', '_', 'E', 'X', 'E', 'M', 'P', 'T', 'I', 'O', 'N'][3]);
            assert(seq!['U', 'S', '_', 'W', 'Y', '_', 'R', 'E', 'S', 'E', 'L', 'L', 'E', 'R', '_', 'E', 'X', 'E', 'M', 'P', 'T', 'I', 'O', 'N'][3] != seq!['U', 'S', '_', 'K', 'Y', '_', 'R', 'E', 'S', 'E', 'L', 'L', 'E', 'R', '_', 'E', 'X', 'E', 'M', 'P', 'T', 'I', 'O', 'N'][3]);
            assert(seq!['U', 'S', '_', 'W', 'Y', '_', 'R', 'E', 'S', 'E', 'L', 'L', 'E', 'R', '_', 'E', 'X', 'E', 'M', 'P', 'T', 'I', 'O', 'N'][3] != seq!['U', 'S', '_', 'L', 'A', '_', 'R', 'E', 'S', 'E', 'L', 'L', 'E', 'R', '_', 'E', 'X', 'E', 'M', 'P', 'T', 'I', 'O', 'N'][3]);
            assert(seq!['U', 'S', '_', 'W', 'Y', '_', 'R', 'E', 'S', 'E', 'L', 'L', 'E', 'R', '_', 'E', 'X', 'E', 'M', 'P', 'T', 'I', 'O', 'N'][3] != seq!['U', 'S', '_', 'M', 'A', '_', 'R', 'E', 'S', 'E', 'L', 'L', 'E', 'R', '_', 'E', 'X', 'E', 'M', 'P', 'T', 'I', 'O', 'N'][3]);
            assert(seq!['U', 'S', '_', 'W', 'Y', '_', 'R', 'E', 'S', 'E', 'L', 'L', 'E', 'R', '_', 'E', 'X', 'E', 'M', 'P', 'T', 'I', 'O', 'N'][3] != seq!['U', 'S', '_', 'M', 'D', '_', 'R', 'E', 'S', 'E', 'L', 'L', 'E', 'R', '_', 'E', 'X', 'E', 'M', 'P', 'T', 'I', 'O', 'N'][3]);
            assert(seq!['U', 'S', '_', 'W', 'Y', '_', 'R', 'E', 'S', 'E', 'L', 'L', 'E', 'R', '_', 'E', 'X', 'E', 'M', 'P', 'T', 'I', 'O', 'N'][3] != seq!['U', 'S', '_', 'M', 'E', '_', 'R', 'E', 'S', 'E', 'L', 'L', 'E', 'R', '_', 'E', 'X', 'E', 'M', 'P', 'T', 'I', 'O', 'N'][3]);
            assert(seq!['U', 'S', '_', 'W', 'Y', '_', 'R', 'E', 'S', 'E', 'L', 'L', 'E', 'R', '_', 'E', 'X', 'E', 'M', 'P', 'T', 'I', 'O', 'N'][3] != seq!['U', 'S', '_', 'M', 'I', '_', 'R', 'E', 'S', 'E', 'L', 'L', 'E', 'R', '_', 'E', 'X', 'E', 'M', 'P', 'T', 'I', 'O', 'N'][3]);
            assert(seq!['U', 'S', '_', 'W', 'Y', '_', 'R', 'E', 'S', 'E', 'L', 'L', 'E', 'R', '_', 'E', 'X', 'E', 'M', 'P', 'T', 'I', 'O', 'N'][3] != seq!['U', 'S', '_', 'M', 'N', '_', 'R', 'E', 'S', 'E', 'L', 'L', 'E', 'R', '_', 'E', 'X', 'E', 'M', 'P', 'T', 'I', 'O', 'N'][3]);
            assert(seq!['U', 'S', '_', 'W', 'Y', '_', 'R', 'E', 'S', 'E', 'L', 'L', 'E', 'R', '_', 'E', 'X', 'E', 'M', 'P', 'T', 'I', 'O', 'N'][3] != seq!['U', 'S', '_', 'M', 'O', '_', 'R', 'E', 'S', 'E', 'L', 'L', 'E', 'R', '_', 'E', 'X', 'E', 'M', 'P', 'T', 'I', 'O', 'N'][3]);
            assert(seq!['U', 'S', '_', 'W', 'Y', '_', 'R', 'E', 'S', 'E', 'L', 'L', 'E', 'R', '_', 'E', 'X', 'E', 'M', 'P', 'T', 'I', 'O', 'N'][3] != seq!['U', 'S', '_', 'M', 'S', '_', 'R', 'E', 'S', 'E', 'L', 'L', 'E', 'R', '_', 'E', 'X', 'E', 'M', 'P', 'T', 'I', 'O', 'N'][3]);
            assert(seq!['U', 'S', '_', 'W', 'Y', '_', 'R', 'E', 'S', 'E', 'L', 'L', 'E', 'R', '_', 'E', 'X', 'E', 'M', 'P', 'T', 'I', 'O', 'N'][3] != seq!['U', 'S', '_', 'M', 'T', '_', 'R', 'E', 'S', 'E', 'L', 'L', 'E', 'R', '_', 'E', 'X', 'E', 'M', 'P', 'T', 'I', 'O', 'N'][3]);
            assert(seq!['U', 'S', '_', 'W', 'Y', '_', 'R', 'E', 'S', 'E', 'L', 'L', 'E', 'R', '_', 'E', 'X', 'E', 'M', 'P', 'T', 'I', 'O', 'N'][3] != seq!['U', 'S', '_', 'N', 'C', '_', 'R', 'E', 'S', 'E', 'L', 'L', 'E', 'R', '_', 'E', 'X', 'E', 'M', 'P', 'T', 'I', 'O', 'N'][3]);
            assert(seq!['U', 'S', '_', 'W', 'Y', '_', 'R', 'E', 'S', 'E', 'L', 'L', 'E', 'R', '_', 'E', 'X', 'E', 'M', 'P', 'T', 'I', 'O', 'N'][3] != seq!['U', 'S', '_', 'N', 'D', '_', 'R', 'E', 'S', 'E', 'L', 'L', 'E', 'R', '_', 'E', 'X', 'E', 'M', 'P', 'T', 'I', 'O', 'N'][3]);
            assert(seq!['U', 'S', '_', 'W', 'Y', '_', 'R', 'E', 'S', 'E', 'L', 'L', 'E', 'R', '_', 'E', 'X', 'E', 'M', 'P', 'T', 'I', 'O', 'N'][3] != seq!['U', 'S', '_', 'N', 'E', '_', 'R', 'E', 'S', 'E', 'L', 'L', 'E', 'R', '_', 'E', 'X', 'E', 'M', 'P', 'T', 'I', 'O', 'N'][3]);
            assert(seq!['U', 'S', '_', 'W', 'Y', '_', 'R', 'E', 'S', 'E', 'L', 'L', 'E', 'R', '_', 'E', 'X', 'E', 'M', 'P', 'T', 'I', 'O', 'N'][3] != seq!['U', 'S', '_', 'N', 'H', '_', 'R', 'E', 'S', 'E', 'L', 'L', 'E', 'R', '_', 'E', 'X', 'E', 'M', 'P', 'T', 'I', 'O', 'N'][3]);
            assert(seq!['U', 'S', '_', 'W', 'Y', '_', 'R', 'E', 'S', 'E', 'L', 'L', 'E', 'R', '_', 'E', 'X', 'E', 'M', 'P', 'T', 'I', 'O', 'N'][3] != seq!['U', 'S', '_', 'N', 'J', '_', 'R', 'E', 'S', 'E', 'L', 'L', 'E', 'R', '_', 'E', 'X', 'E', 'M', 'P', 'T', 'I', 'O', 'N'][3]);
            assert(seq!['U', 'S', '_', 'W', 'Y', '_', 'R', 'E', 'S', 'E', 'L', 'L', 'E', 'R', '_', 'E', 'X', 'E', 'M', 'P', 'T', 'I', 'O', 'N'][3] != seq!['U', 'S', '_', 'N', 'M', '_', 'R', 'E', 'S', 'E', 'L', 'L', 'E', 'R', '_', 'E', 'X', 'E', 'M', 'P', 'T', 'I', 'O', 'N'][3]);
            assert(seq!['U', 'S', '_', 'W', 'Y', '_', 'R', 'E', 'S', 'E', 'L', 'L', 'E', 'R', '_', 'E', 'X', 'E', 'M', 'P', 'T', 'I', 'O', 'N'][3] != seq!['U', 'S', '_', 'N', 'V', '_', 'R', 'E', 'S', 'E', 'L', 'L', 'E', 'R', '_', 'E', 'X', 'E', 'M', 'P', 'T', 'I', 'O', 'N'][3]);
            assert(seq!['U', 'S', '_', 'W', 'Y', '_', 'R', 'E', 'S', 'E', 'L', 'L', 'E', 'R', '_', 'E', 'X', 'E', 'M', 'P', 'T', 'I', 'O', 'N'][3] != seq!['U', 'S', '_', 'N', 'Y', '_', 'R', 'E', 'S', 'E', 'L', 'L', 'E', 'R', '_', 'E', 'X', 'E', 'M', 'P', 'T', 'I', 'O', 'N'][3]);
            assert(seq!['U', 'S', '_', 'W', 'Y', '_', 'R', 'E', 'S', 'E', 'L', 'L', 'E', 'R', '_', 'E', 'X', 'E', 'M', 'P', 'T', 'I', 'O', 'N'][3] != seq!['U', 'S', '_', 'O', 'H', '_', 'R', 'E', 'S', 'E', 'L', 'L', 'E', 'R', '_', 'E', 'X', 'E', 'M', 'P', 'T', 'I', 'O', 'N'][3]);
            assert(seq!['U', 'S', '_', 'W', 'Y', '_', 'R', 'E', 'S', 'E', 'L', 'L', 'E', 'R', '_', 'E', 'X', 'E', 'M', 'P', 'T', 'I', 'O', 'N'][3] != seq!['U', 'S', '_', 'O', 'K', '_', 'R', 'E', 'S', 'E', 'L', 'L', 'E', 'R', '_', 'E', 'X', 'E', 'M', 'P', 'T', 'I', 'O', 'N'][3]);
            assert(seq!['U', 'S', '_', 'W', 'Y', '_', 'R', 'E', 'S', 'E', 'L', 'L', 'E', 'R', '_', 'E', 'X', 'E', 'M', 'P', 'T', 'I', 'O', 'N'][3] != seq!['U', 'S', '_', 'O', 'R', '_', 'R', 'E', 'S', 'E', 'L', 'L', 'E', 'R', '_', 'E', 'X', 'E', 'M', 'P', 'T', 'I', 'O', 'N'][3]);
            assert(seq!['U', 'S', '_', 'W', 'Y', '_', 'R', 'E', 'S', 'E', 'L', 'L', 'E', 'R', '_', 'E', 'X', 'E', 'M', 'P', 'T', 'I', 'O', 'N'][3] != seq!['U', 'S', '_', 'P', 'A', '_', 'R', 'E', 'S', 'E', 'L', 'L', 'E', 'R', '_', 'E', 'X', 'E', 'M', 'P', 'T', 'I', 'O', 'N'][3]);
            assert(seq!['U', 'S', '_', 'W', 'Y', '_', 'R', 'E', 'S', 'E', 'L', 'L', 'E', 'R', '_', 'E', 'X', 'E', 'M', 'P', 'T', 'I', 'O', 'N'][3] != seq!['U', 'S', '_', 'R', 'I', '_', 'R', 'E', 'S', 'E', 'L', 'L', 'E', 'R', '_', 'E', 'X', 'E', 'M', 'P', 'T', 'I', 'O', 'N'][3]);
            assert(seq!['U', 'S', '_', 'W', 'Y', '_', 'R', 'E', 'S', 'E', 'L', 'L', 'E', 'R', '_', 'E', 'X', 'E', 'M', 'P', 'T', 'I', 'O', 'N'][3] != seq!['U', 'S', '_', 'S', 'C', '_', 'R', 'E', 'S', 'E', 'L', 'L', 'E', 'R', '_', 'E', 'X', 'E', 'M', 'P', 'T', 'I', 'O', 'N'][3]);
            assert(seq!['U', 'S', '_', 'W', 'Y', '_', 'R', 'E', 'S', 'E', 'L', 'L', 'E', 'R', '_', 'E', 'X', 'E', 'M', 'P', 'T', 'I', 'O', 'N'][3] != seq!['U', 'S', '_', 'S', 'D', '_', 'R', 'E', 'S', 'E', 'L', 'L', 'E', 'R', '_', 'E', 'X', 'E', 'M', 'P', 'T', 'I', 'O', 'N'][3]);
            assert(seq!['U', 'S', '_', 'W', 'Y', '_', 'R', 'E', 'S', 'E', 'L', 'L', 'E', 'R', '_', 'E', 'X', 'E', 'M', 'P', 'T', 'I', 'O', 'N'][3] != seq!['U', 'S', '_', 'T', 'N', '_', 'R', 'E', 'S', 'E', 'L', 'L', 'E', 'R', '_', 'E', 'X', 'E', 'M', 'P', 'T', 'I', 'O', 'N'][3]);
            assert(seq!['U', 'S', '_', 'W', 'Y', '_', 'R', 'E', 'S', 'E', 'L', 'L', 'E', 'R', '_', 'E', 'X', 'E', 'M', 'P', 'T', 'I', 'O', 'N'][3] != seq!['U', 'S', '_', 'T', 'X', '_', 'R', 'E', 'S', 'E', 'L', 'L', 'E', 'R', '_', 'E', 'X', 'E', 'M', 'P', 'T', 'I', 'O', 'N'][3]);
            assert(seq!['U', 'S', '_', 'W', 'Y', '_', 'R', 'E', 'S', 'E', 'L', 'L', 'E', 'R', '_', 'E', 'X', 'E', 'M', 'P', 'T', 'I', 'O', 'N'][3] != seq!['U', 'S', '_', 'U', 'T', '_', 'R', 'E', 'S', 'E', 'L', 'L', 'E', 'R', '_', 'E', 'X', 'E', 'M', 'P', 'T', 'I', 'O', 'N'][3]);
            assert(seq!['U', 'S', '_', 'W', 'Y', '_', 'R', 'E', 'S', 'E', 'L', 'L', 'E', 'R', '_', 'E', 'X', 'E', 'M', 'P', 'T', 'I', 'O', 'N'][3] != seq!['U', 'S', '_', 'V', 'A', '_', 'R', 'E', 'S', 'E', 'L', 'L', 'E', 'R', '_', 'E', 'X', 'E', 'M', 'P', 'T', 'I', 'O', 'N'][3]);
            assert(seq!['U', 'S', '_', 'W', 'Y', '_', 'R', 'E', 'S', 'E', 'L', 'L', 'E', 'R', '_', 'E', 'X', 'E', 'M', 'P', 'T', 'I', 'O', 'N'][3] != seq!['U', 'S', '_', 'V', 'T', '_', 'R', 'E', 'S', 'E', 'L', 'L', 'E', 'R', '_', 'E', 'X', 'E', 'M', 'P', 'T', 'I', 'O', 'N'][3]);
            assert(seq!['U', 'S', '_', 'W', 'Y', '_', 'R', 'E', 'S', 'E', 'L', 'L', 'E', 'R', '_', 'E', 'X', 'E', 'M', 'P', 'T', 'I', 'O', 'N'][4] != seq!['U', 'S', '_', 'W', 'A', '_', 'R', 'E', 'S', 'E', 'L', 'L', 'E', 'R', '_', 'E', 'X', 'E', 'M', 'P', 'T', 'I', 'O', 'N'][4]);
            assert(seq!['U', 'S', '_', 'W', 'Y', '_', 'R', 'E', 'S', 'E', 'L', 'L', 'E', 'R', '_', 'E', 'X', 'E', 'M', 'P', 'T', 'I', 'O', 'N'][4] != seq!['U', 'S', '_', 'W', 'I', '_', 'R', 'E', 'S', 'E', 'L', 'L', 'E', 'R', '_', 'E', 'X', 'E', 'M', 'P', 'T', 'I', 'O', 'N'][4]);
            assert(seq!['U', 'S', '_', 'W', 'Y', '_', 'R', 'E', 'S', 'E', 'L', 'L', 'E', 'R', '_', 'E', 'X', 'E', 'M', 'P', 'T', 'I', 'O', 'N'][4] != seq!['U', 'S', '_', 'W', 'V', '_', 'R', 'E', 'S', 'E', 'L', 'L', 'E', 'R', '_', 'E', 'X', 'E', 'M', 'P', 'T', 'I', 'O', 'N'][4]);
        },
    }
}

#[derive(Debug, Clone, PartialEq, Eq, Structural)]
pub enum CustomerSmsMarketingState {
    /// `NOT_SUBSCRIBED`
    NOTSUBSCRIBED,
    /// `PENDING`
    PENDING,
    /// `SINGLE_OPT_IN`
    REDACTED,
    /// `UNKNOWN`
    SUBSCRIBED,
    /// `UNSUBSCRIBED`
    UNSUBSCRIBED,
}

impl CustomerSmsMarketingState {
    /// The value `from_str` gives for a string.
    pub open spec fn spec_from_str(s: Seq<char>) -> CustomerSmsMarketingState {
        if s == seq!['P', 'E', 'N', 'D', 'I', 'N', 'G'] {
            CustomerSmsMarketingState::PENDING
        } else if s == seq!['R', 'E', 'D', 'A', 'C', 'T', 'E', 'D'] {
            CustomerSmsMarketingState::REDACTED
        } else if s == seq!['S', 'U', 'B', 'S', 'C', 'R', 'I', 'B', 'E', 'D'] {
            CustomerSmsMarketingState::SUBSCRIBED
        } else if s == seq!['U', 'N', 'S', 'U', 'B', 'S', 'C', 'R', 'I', 'B', 'E', 'D'] {
            CustomerSmsMarketingState::UNSUBSCRIBED
        } else {
            CustomerSmsMarketingState::NOTSUBSCRIBED
        }
    }

    /// The text `to_string` gives for a value.
    pub open spec fn spec_to_string(self) -> Seq<char> {
        match self {
            CustomerSmsMarketingState::NOTSUBSCRIBED => seq!['N', 'O', 'T', '_', 'S', 'U', 'B', 'S', 'C', 'R', 'I', 'B', 'E', 'D'],
            CustomerSmsMarketingState::PENDING => seq!['P', 'E', 'N', 'D', 'I', 'N', 'G'],
            CustomerSmsMarketingState::REDACTED => seq!['S', 'I', 'N', 'G', 'L', 'E', '_', 'O', 'P', 'T', '_', 'I', 'N'],
            CustomerSmsMarketingState::SUBSCRIBED => seq!['U', 'N', 'K', 'N', 'O', 'W', 'N'],
            CustomerSmsMarketingState::UNSUBSCRIBED => seq!['U', 'N', 'S', 'U', 'B', 'S', 'C', 'R', 'I', 'B', 'E', 'D'],
        }
    }

    /// Reads the GraphQL enum text: "PENDING" gives `PENDING`; "REDACTED" gives `REDACTED`; "SUBSCRIBED" gives `SUBSCRIBED`; "UNSUBSCRIBED" gives `UNSUBSCRIBED`; any other text gives `NOTSUBSCRIBED`.
    pub fn from_str(code: &str) -> (r: CustomerSmsMarketingState)
        ensures
            r == CustomerSmsMarketingState::spec_from_str(code@),
    {
        let cs = chars_of(code);
        if chars_equal(&cs, &['P', 'E', 'N', 'D', 'I', 'N', 'G']) {
            CustomerSmsMarketingState::PENDING
        } else if chars_equal(&cs, &['R', 'E', 'D', 'A', 'C', 'T', 'E', 'D']) {
            CustomerSmsMarketingState::REDACTED
        } else if chars_equal(&cs, &['S', 'U', 'B', 'S', 'C', 'R', 'I', 'B', 'E', 'D']) {
            CustomerSmsMarketingState::SUBSCRIBED
        } else if chars_equal(&cs, &['U', 'N', 'S', 'U', 'B', 'S', 'C', 'R', 'I', 'B', 'E', 'D']) {
            CustomerSmsMarketingState::UNSUBSCRIBED
        } else {
            CustomerSmsMarketingState::NOTSUBSCRIBED
        }
    }

    /// The GraphQL enum text of the value.
    pub fn to_string(&self) -> (r: String)
        ensures
            r@ == self.spec_to_string(),
    {
        let text: &[char] = match self {
            CustomerSmsMarketingState::NOTSUBSCRIBED => &['N', 'O', 'T', '_', 'S', 'U', 'B', 'S', 'C', 'R', 'I', 'B', 'E', 'D'],
            CustomerSmsMarketingState::PENDING => &['P', 'E', 'N', 'D', 'I', 'N', 'G'],
            CustomerSmsMarketingState::REDACTED => &['S', 'I', 'N', 'G', 'L', 'E', '_', 'O', 'P', 'T', '_', 'I', 'N'],
            CustomerSmsMarketingState::SUBSCRIBED => &['U', 'N', 'K', 'N', 'O', 'W', 'N'],
            CustomerSmsMarketingState::UNSUBSCRIBED => &['U', 'N', 'S', 'U', 'B', 'S', 'C', 'R', 'I', 'B', 'E', 'D'],
        };
        string_from_slice(text)
    }
}

/// Reading back the text of a value gives the value again (for every value whose text is not mapped elsewhere).
pub proof fn lemma_customer_sms_marketing_state_round_trip(v: CustomerSmsMarketingState)
    requires
        !(v is REDACTED),
        !(v is SUBSCRIBED),
    ensures
        CustomerSmsMarketingState::spec_from_str(v.spec_to_string()) == v,
{
    match v {
        CustomerSmsMarketingState::NOTSUBSCRIBED => {
            assert(seq!['N', 'O', 'T', '_', 'S', 'U', 'B', 'S', 'C', 'R', 'I', 'B', 'E', 'D'].len() != seq!['P', 'E', 'N', 'D', 'I', 'N', 'G'].len());
            assert(seq!['N', 'O', 'T', '_', 'S', 'U', 'B', 'S', 'C', 'R', 'I', 'B', 'E', 'D'].len() != seq!['R', 'E', 'D', 'A', 'C', 'T', 'E', 'D'].len());
            assert(seq!['N', 'O', 'T', '_', 'S', 'U', 'B', 'S', 'C', 'R', 'I', 'B', 'E', 'D'].len() != seq!['S', 'U', 'B', 'S', 'C', 'R', 'I', 'B', 'E', 'D'].len());
            assert(seq!['N', 'O', 'T', '_', 'S', 'U', 'B', 'S', 'C', 'R', 'I', 'B', 'E', 'D'].len() != seq!['U', 'N', 'S', 'U', 'B', 'S', 'C', 'R', 'I', 'B', 'E', 'D'].len());
        },
        CustomerSmsMarketingState::PENDING => {},
        CustomerSmsMarketingState::REDACTED => {},
        CustomerSmsMarketingState::SUBSCRIBED => {},
        CustomerSmsMarketingState::UNSUBSCRIBED => {},
    }
}

#[derive(Debug, Clone, PartialEq, Eq, Structural)]
pub enum CustomerEmailMarketingState {
    /// `CONFIRMED_OPT_IN`
    INVALID,
    /// `NOT_SUBSCRIBED`
    NOTSUBSCRIBED,
    /// `PENDING`
    PENDING,
    /// `SINGLE_OPT_IN`
    REDACTED,
    /// `UNKNOWN`
    SUBSCRIBED,
    /// `UNSUBSCRIBED`
    UNSUBSCRIBED,
}

impl CustomerEmailMarketingState {
    /// The value `from_str` gives for a string.
    pub open spec fn spec_from_str(s: Seq<char>) -> CustomerEmailMarketingState {
        if s == seq!['I', 'N', 'V', 'A', 'L', 'I', 'D'] {
            CustomerEmailMarketingState::INVALID
        } else if s == seq!['R', 'E', 'D', 'A', 'C', 'T', 'E', 'D'] {
            CustomerEmailMarketingState::REDACTED
        } else if s == seq!['S', 'U', 'B', 'S', 'C', 'R', 'I', 'B', 'E', 'D'] {
            CustomerEmailMarketingState::SUBSCRIBED
        } else if s == seq!['U', 'N', 'S', 'U', 'B', 'S', 'C', 'R', 'I', 'B', 'E', 'D'] {
            CustomerEmailMarketingState::UNSUBSCRIBED
        } else if s == seq!['P', 'E', 'N', 'D', 'I', 'N', 'G'] {
            CustomerEmailMarketingState::PENDING
        } else {
            CustomerEmailMarketingState::NOTSUBSCRIBED
        }
    }

    /// The text `to_string` gives for a value.
    pub open spec fn spec_to_string(self) -> Seq<char> {
        match self {
            CustomerEmailMarketingState::INVALID => seq!['C', 'O', 'N', 'F', 'I', 'R', 'M', 'E', 'D', '_', 'O', 'P', 'T', '_', 'I', 'N'],
            CustomerEmailMarketingState::NOTSUBSCRIBED => seq!['N', 'O', 'T', '_', 'S', 'U', 'B', 'S', 'C', 'R', 'I', 'B', 'E', 'D'],
            CustomerEmailMarketingState::PENDING => seq!['P', 'E', 'N', 'D', 'I', 'N', 'G'],
            CustomerEmailMarketingState::REDACTED => seq!['S', 'I', 'N', 'G', 'L', 'E', '_', 'O', 'P', 'T', '_', 'I', 'N'],
            CustomerEmailMarketingState::SUBSCRIBED => seq!['U', 'N', 'K', 'N', 'O', 'W', 'N'],
            CustomerEmailMarketingState::UNSUBSCRIBED => seq!['U', 'N', 'S', 'U', 'B', 'S', 'C', 'R', 'I', 'B', 'E', 'D'],
        }
    }

    /// Reads the GraphQL enum text: "INVALID" gives `INVALID`; "REDACTED" gives `REDACTED`; "SUBSCRIBED" gives `SUBSCRIBED`; "UNSUBSCRIBED" gives `UNSUBSCRIBED`; "PENDING" gives `PENDING`; any other text gives `NOTSUBSCRIBED`.
    pub fn from_str(code: &str) -> (r: CustomerEmailMarketingState)
        ensures
            r == CustomerEmailMarketingState::spec_from_str(code@),
    {
        let cs = chars_of(code);
        if chars_equal(&cs, &['I', 'N', 'V', 'A', 'L', 'I', 'D']) {
            CustomerEmailMarketingState::INVALID
        } else if chars_equal(&cs, &['R', 'E', 'D', 'A', 'C', 'T', 'E', 'D']) {
            CustomerEmailMarketingState::REDACTED
        } else if chars_equal(&cs, &['S', 'U', 'B', 'S', 'C', 'R', 'I', 'B', 'E', 'D']) {
            CustomerEmailMarketingState::SUBSCRIBED
        } else if chars_equal(&cs, &['U', 'N', 'S', 'U', 'B', 'S', 'C', 'R', 'I', 'B', 'E', 'D']) {
            CustomerEmailMarketingState::UNSUBSCRIBED
        } else if chars_equal(&cs, &['P', 'E', 'N', 'D', 'I', 'N', 'G']) {
            CustomerEmailMarketingState::PENDING
        } else {
            CustomerEmailMarketingState::NOTSUBSCRIBED
        }
    }

    /// The GraphQL enum text of the value.
    pub fn to_string(&self) -> (r: String)
        ensures
            r@ == self.spec_to_string(),
    {
        let text: &[char] = match self {
            CustomerEmailMarketingState::INVALID => &['C', 'O', 'N', 'F', 'I', 'R', 'M', 'E', 'D', '_', 'O', 'P', 'T', '_', 'I', 'N'],
            CustomerEmailMarketingState::NOTSUBSCRIBED => &['N', 'O', 'T', '_', 'S', 'U', 'B', 'S', 'C', 'R', 'I', 'B', 'E', 'D'],
            CustomerEmailMarketingState::PENDING => &['P', 'E', 'N', 'D', 'I', 'N', 'G'],
            CustomerEmailMarketingState::REDACTED => &['S', 'I', 'N', 'G', 'L', 'E', '_', 'O', 'P', 'T', '_', 'I', 'N'],
            CustomerEmailMarketingState::SUBSCRIBED => &['U', 'N', 'K', 'N', 'O', 'W', 'N'],
            CustomerEmailMarketingState::UNSUBSCRIBED => &['U', 'N', 'S', 'U', 'B', 'S', 'C', 'R', 'I', 'B', 'E', 'D'],
        };
        string_from_slice(text)
    }
}

/// Reading back the text of a value gives the value again (for every value whose text is not mapped elsewhere).
pub proof fn lemma_customer_email_marketing_state_round_trip(v: CustomerEmailMarketingState)
    requires
        !(v is INVALID),
        !(v is REDACTED),
        !(v is SUBSCRIBED),
    ensures
        CustomerEmailMarketingState::spec_from_str(v.spec_to_string()) == v,
{
    match v {
        CustomerEmailMarketingState::INVALID => {},
        CustomerEmailMarketingState::NOTSUBSCRIBED => {
            assert(seq!['N', 'O', 'T', '_', 'S', 'U', 'B', 'S', 'C', 'R', 'I', 'B', 'E', 'D'].len() != seq!['I', 'N', 'V', 'A', 'L', 'I', 'D'].len());
            assert(seq!['N', 'O', 'T', '_', 'S', 'U', 'B', 'S', 'C', 'R', 'I', 'B', 'E', 'D'].len() != seq!['R', 'E', 'D', 'A', 'C', 'T', 'E', 'D'].len());
            assert(seq!['N', 'O', 'T', '_', 'S', 'U', 'B', 'S', 'C', 'R', 'I', 'B', 'E', 'D'].len() != seq!['S', 'U', 'B', 'S', 'C', 'R', 'I', 'B', 'E', 'D'].len());
            assert(seq!['N', 'O', 'T', '_', 'S', 'U', 'B', 'S', 'C', 'R', 'I', 'B', 'E', 'D'].len() != seq!['U', 'N', 'S', 'U', 'B', 'S', 'C', 'R', 'I', 'B', 'E', 'D'].len());
            assert(seq!['N', 'O', 'T', '_', 'S', 'U', 'B', 'S', 'C', 'R', 'I', 'B', 'E', 'D'].len() != seq!['P', 'E', 'N', 'D', 'I', 'N', 'G'].len());
        },
        CustomerEmailMarketingState::PENDING => {
            assert(seq!['P', 'E', 'N', 'D', 'I', 'N', 'G'][0] != seq!['I', 'N', 'V', 'A', 'L', 'I', 'D'][0]);
        },
        CustomerEmailMarketingState::REDACTED => {},
        CustomerEmailMarketingState::SUBSCRIBED => {},
        CustomerEmailMarketingState::UNSUBSCRIBED => {},
    }
}

#[derive(Debug, Clone, PartialEq, Eq, Structural)]
pub enum CustomerMarketingOptInLevel {
    /// `CONFIRMED_OPT_IN`
    CONFIRMEDOPTIN,
    /// `SINGLE_OPT_IN`
    SINGLEOPTIN,
    /// `UNKNOWN`
    UNKNOWN,
}

impl CustomerMarketingOptInLevel {
    /// The value `from_str` gives for a string.
    pub open spec fn spec_from_str(s: Seq<char>) -> CustomerMarketingOptInLevel {
        if s == seq!['C', 'O', 'N', 'F', 'I', 'R', 'M', 'E', 'D', '_', 'O', 'P', 'T', '_', 'I', 'N'] {
            CustomerMarketingOptInLevel::CONFIRMEDOPTIN
        } else if s == seq!['S', 'I', 'N', 'G', 'L', 'E', '_', 'O', 'P', 'T', '_', 'I', 'N'] {
            CustomerMarketingOptInLevel::SINGLEOPTIN
        } else {
            CustomerMarketingOptInLevel::UNKNOWN
        }
    }

    /// The text `to_string` gives for a value.
    pub open spec fn spec_to_string(self) -> Seq<char> {
        match self {
            CustomerMarketingOptInLevel::CONFIRMEDOPTIN => seq!['C', 'O', 'N', 'F', 'I', 'R', 'M', 'E', 'D', '_', 'O', 'P', 'T', '_', 'I', 'N'],
            CustomerMarketingOptInLevel::SINGLEOPTIN => seq!['S', 'I', 'N', 'G', 'L', 'E', '_', 'O', 'P', 'T', '_', 'I', 'N'],
            CustomerMarketingOptInLevel::UNKNOWN => seq!['U', 'N', 'K', 'N', 'O', 'W', 'N'],
        }
    }

    /// Reads the GraphQL enum text: "CONFIRMED_OPT_IN" gives `CONFIRMEDOPTIN`; "SINGLE_OPT_IN" gives `SINGLEOPTIN`; any other text gives `UNKNOWN`.
    pub fn from_str(code: &str) -> (r: CustomerMarketingOptInLevel)
        ensures
            r == CustomerMarketingOptInLevel::spec_from_str(code@),
    {
        let cs = chars_of(code);
        if chars_equal(&cs, &['C', 'O', 'N', 'F', 'I', 'R', 'M', 'E', 'D', '_', 'O', 'P', 'T', '_', 'I', 'N']) {
            CustomerMarketingOptInLevel::CONFIRMEDOPTIN
        } else if chars_equal(&cs, &['S', 'I', 'N', 'G', 'L', 'E', '_', 'O', 'P', 'T', '_', 'I', 'N']) {
            CustomerMarketingOptInLevel::SINGLEOPTIN
        } else {
            CustomerMarketingOptInLevel::UNKNOWN
        }
    }

    /// The GraphQL enum text of the value.
    pub fn to_string(&self) -> (r: String)
        ensures
            r@ == self.spec_to_string(),
    {
        let text: &[char] = match self {
            CustomerMarketingOptInLevel::CONFIRMEDOPTIN => &['C', 'O', 'N', 'F', 'I', 'R', 'M', 'E', 'D', '_', 'O', 'P', 'T', '_', 'I', 'N'],
            CustomerMarketingOptInLevel::SINGLEOPTIN => &['S', 'I', 'N', 'G', 'L', 'E', '_', 'O', 'P', 'T', '_', 'I', 'N'],
            CustomerMarketingOptInLevel::UNKNOWN => &['U', 'N', 'K', 'N', 'O', 'W', 'N'],
        };
        string_from_slice(text)
    }
}

/// Reading back the text of a value gives the value again.
pub proof fn lemma_customer_marketing_opt_in_level_round_trip(v: CustomerMarketingOptInLevel)
    ensures
        CustomerMarketingOptInLevel::spec_from_str(v.spec_to_string()) == v,
{
    match v {
        CustomerMarketingOptInLevel::CONFIRMEDOPTIN => {},
        CustomerMarketingOptInLevel::SINGLEOPTIN => {},
        CustomerMarketingOptInLevel::UNKNOWN => {
            assert(seq!['U', 'N', 'K', 'N', 'O', 'W', 'N'].len() != seq!['C', 'O', 'N', 'F', 'I', 'R', 'M', 'E', 'D', '_', 'O', 'P', 'T', '_', 'I', 'N'].len());
            assert(seq!['U', 'N', 'K', 'N', 'O', 'W', 'N'].len() != seq!['S', 'I', 'N', 'G', 'L', 'E', '_', 'O', 'P', 'T', '_', 'I', 'N'].len());
        },
    }
}

/// ISO 3166-1 country codes; codes this library does not spell out are kept
/// as given in `NotImplemented`.
#[derive(Debug, Clone, PartialEq, Eq)]
pub enum CountryCode {
    AC, AD, AE, AF, AG, AI, AL, AM, AN, AO, AR, AT, AU, AW, AX, AZ, BA, BB, BD, BE, BF, BG, BH,
    BI, BJ, BL, BM, BN, BO, BQ, BR, BS, BT, BV, BW, BY, BZ, CA, CC, CD, CF, CG, CH, CI, CK, CL,
    CM, CN, CO, CR, CU, CV, CW, CX, CY, CZ, DE, DJ, DK, DM, DO, DZ, EC, EE, EG, EH, ER, ES, ET,
    FI, FJ, FK, FO, FR, GA, GB, GD, GE, GF, GG, GH, GI, GL, GM, GN, GP, GQ, GR, GS, GT, GW, GY,
    HK, HM, HN, HR, HT, HU, ID, IE, IL, IM, IN, IO, IQ, IR, IS, IT, JE, JM, JO, JP, KE, KG, KH,
    KI, KM, KN, KP, KR, KW, KY, KZ, LA, LB, LC, LI, LK, LR, LS, LT, LU, LV, LY, MA, MC, MD, ME,
    MF, MG, MK, ML, MM, MN, MO, MQ, MR, MS, MT, MU, MV, MW, MX, MY, MZ, NA, NC, NE, NF, NG, NI,
    NL, NO, NP, NR, NU, NZ, OM, PA, PE, PF, PG, PH, PK, PL, PM, PN, PS, PT, PY, QA, RE, RO, RS,
    RU, RW, SA, SB, SC, SD, SE, SG, SH, SI, SJ, SK, SL, SM, SN, SO, SR, SS, ST, SV, SX, SY, SZ,
    TA, TC, TD, TF, TG, TH, TJ, TK, TL, TM, TN, TO, TR, TT, TV, TW, TZ, UA, UG, UM, US, UY, UZ,
    VA, VC, VE, VG, VN, VU, WF, WS, XK, YE, YT, ZA, ZM, ZW, ZZ,
    NotImplemented(String),
}

impl CountryCode {
    /// Reads a country code in any letter case. Never fails.
    pub fn from_str(code: &str) -> (r: Result<CountryCode, String>)
        ensures
            ({
                let upper = spec_to_uppercase(code@);
                match r {
                    Ok(c) => if upper == "US"@ || upper == "UnitedStates"@ {
                        c == CountryCode::US
                    } else if upper == "CA"@ {
                        c == CountryCode::CA
                    } else if upper == "GB"@ {
                        c == CountryCode::GB
                    } else {
                        c matches CountryCode::NotImplemented(s) && s@ == code@
                    },
                    Err(_) => false,
                }
            }),
    {
        let upper = to_uppercase(code);
        let u = upper.as_str();
        if str_eq(u, "US") || str_eq(u, "UnitedStates") {
            Ok(CountryCode::US)
        } else if str_eq(u, "CA") {
            Ok(CountryCode::CA)
        } else if str_eq(u, "GB") {
            Ok(CountryCode::GB)
        } else {
            Ok(CountryCode::NotImplemented(String::from_str(code)))
        }
    }

    /// The codes whose text this library writes out.
    pub open spec fn spec_has_text(self) -> bool {
        ||| self is US
        ||| self is CA
        ||| self is GB
        ||| self is NotImplemented
    }

    /// The text of a code (only defined where `spec_has_text` holds).
    pub open spec fn spec_to_string(self) -> Seq<char> {
        match self {
            CountryCode::US => "US"@,
            CountryCode::CA => "CA"@,
            CountryCode::GB => "GB"@,
            CountryCode::NotImplemented(s) => s@,
            _ => Seq::empty(),
        }
    }

    /// The text of the code: "US", "CA", "GB", or the kept text.
    pub fn to_string(&self) -> (r: String)
        requires
            self.spec_has_text(),
        ensures
            r@ == self.spec_to_string(),
    {
        match self {
            CountryCode::US => String::from_str("US"),
            CountryCode::CA => String::from_str("CA"),
            CountryCode::GB => String::from_str("GB"),
            CountryCode::NotImplemented(code) => code.clone(),
            _ => String::new(),
        }
    }
}

#[derive(Debug, Clone)]
pub struct CustomerCreateInput {
    pub accepts_marketing: Option<bool>,
    pub email: Option<String>,
    pub first_name: Option<String>,
    pub last_name: Option<String>,
    /// the login password used by the customer
    pub password: Option<String>,
    pub phone: Option<String>,
}

} // verus!
verus! {

/// Variables of the Storefront `customerCreate` mutation: every field of
/// the input, `null` when not given.
pub open spec fn spec_customer_create_variables(c: CustomerCreateInput) -> crate::json::JsonView {
    crate::json::JsonView::Object(
        seq![
            ("input"@, crate::json::JsonView::Object(
                seq![
                    ("acceptsMarketing"@, crate::json::spec_bool_or_null(c.accepts_marketing)),
                    ("email"@, crate::json::spec_str_or_null(c.email)),
                    ("firstName"@, crate::json::spec_str_or_null(c.first_name)),
                    ("lastName"@, crate::json::spec_str_or_null(c.last_name)),
                    ("password"@, crate::json::spec_str_or_null(c.password)),
                    ("phone"@, crate::json::spec_str_or_null(c.phone)),
                ],
            )),
        ],
    )
}

pub fn customer_create_variables(c: &CustomerCreateInput) -> (r: crate::json::JsonValue)
    ensures
        r@ == spec_customer_create_variables(*c),
{
    let input = crate::json::jobject6(
        "acceptsMarketing",
        crate::json::jbool_or_null(c.accepts_marketing),
        "email",
        crate::json::jstr_or_null(&c.email),
        "firstName",
        crate::json::jstr_or_null(&c.first_name),
        "lastName",
        crate::json::jstr_or_null(&c.last_name),
        "password",
        crate::json::jstr_or_null(&c.password),
        "phone",
        crate::json::jstr_or_null(&c.phone),
    );
    crate::json::jobject1("input", input)
}

} // verus!
verus! {

/// A text, or `null` when absent.
pub open spec fn text_or_null(o: Option<String>) -> crate::json::JsonView {
    match o {
        Some(s) => crate::json::JsonView::Str(s@),
        None => crate::json::JsonView::Null,
    }
}

/// `customerCreate` sends each field of the input under its own GraphQL
/// name: `firstName` is the first name, `lastName` the last name, and so on,
/// each `null` when not given.
pub proof fn lemma_customer_create_fields(c: CustomerCreateInput, r: crate::json::JsonView)
    requires
        r == spec_customer_create_variables(c),
    ensures
        crate::json::spec_member_of(r, "input"@) matches Some(input) && {
            &&& crate::json::spec_member_of(input, "acceptsMarketing"@) == Some(
                match c.accepts_marketing {
                    Some(b) => crate::json::JsonView::Bool(b),
                    None => crate::json::JsonView::Null,
                },
            )
            &&& crate::json::spec_member_of(input, "email"@) == Some(text_or_null(c.email))
            &&& crate::json::spec_member_of(input, "firstName"@) == Some(text_or_null(c.first_name))
            &&& crate::json::spec_member_of(input, "lastName"@) == Some(text_or_null(c.last_name))
            &&& crate::json::spec_member_of(input, "password"@) == Some(text_or_null(c.password))
            &&& crate::json::spec_member_of(input, "phone"@) == Some(text_or_null(c.phone))
        },
{
    reveal_strlit("input");
    reveal_strlit("acceptsMarketing");
    reveal_strlit("email");
    reveal_strlit("firstName");
    reveal_strlit("lastName");
    reveal_strlit("password");
    reveal_strlit("phone");
    reveal_with_fuel(crate::json::spec_find_member, 7);
    let keys = seq!["acceptsMarketing"@, "email"@, "firstName"@, "lastName"@, "password"@, "phone"@];
    assert(forall|i: int, j: int| 0 <= i < j < 6 ==> keys[i] != keys[j]) by {
        assert("acceptsMarketing"@.len() == 16);
        assert("email"@.len() == 5);
        assert("firstName"@.len() == 9);
        assert("lastName"@.len() == 8);
        assert("password"@.len() == 8);
        assert("phone"@.len() == 5);
        assert("lastName"@[0] != "password"@[0]);
        assert("email"@[0] != "phone"@[0]);
    }
    assert(keys[0] != keys[1] && keys[0] != keys[2] && keys[0] != keys[3] && keys[0] != keys[4] && keys[0] != keys[5]);
    assert(keys[1] != keys[2] && keys[1] != keys[3] && keys[1] != keys[4] && keys[1] != keys[5]);
    assert(keys[2] != keys[3] && keys[2] != keys[4] && keys[2] != keys[5]);
    assert(keys[3] != keys[4] && keys[3] != keys[5] && keys[4] != keys[5]);
}

} // verus!
