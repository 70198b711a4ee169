//! Draft orders, with their GraphQL enum texts.
use vstd::prelude::*;
use crate::error::{AppError, is_other_error, other_error};
use crate::text::{chars_of, chars_equal, string_from_slice};

use crate::company::PurchasingCompanyInput;

verus! {

#[derive(Debug, Clone, PartialEq, Eq, Structural)]
pub enum DraftOrderAppliedDiscountType {
    /// `FIXED_AMOUNT`
    FIXEDAMOUNT,
    /// `PERCENTAGE`
    PERCENTAGE,
}

impl DraftOrderAppliedDiscountType {
    /// The strings that `from_str` accepts.
    pub open spec fn spec_is_known(s: Seq<char>) -> bool {
        ||| s == seq!['F', 'I', 'X', 'E', 'D', '_', 'A', 'M', 'O', 'U', 'N', 'T']
        ||| s == seq!['f', 'i', 'x', 'e', 'd', '_', 'a', 'm', 'o', 'u', 'n', 't']
        ||| s == seq!['P', 'E', 'R', 'C', 'E', 'N', 'T', 'A', 'G', 'E']
        ||| s == seq!['p', 'e', 'r', 'c', 'e', 'n', 't', 'a', 'g', 'e']
    }

    /// Whether `from_str` accepts the text.
    pub fn is_known(s: &str) -> (b: bool)
        ensures
            b == DraftOrderAppliedDiscountType::spec_is_known(s@),
    {
        let cs = chars_of(s);
        chars_equal(&cs, &['F', 'I', 'X', 'E', 'D', '_', 'A', 'M', 'O', 'U', 'N', 'T']) ||
            chars_equal(&cs, &['f', 'i', 'x', 'e', 'd', '_', 'a', 'm', 'o', 'u', 'n', 't']) ||
            chars_equal(&cs, &['P', 'E', 'R', 'C', 'E', 'N', 'T', 'A', 'G', 'E']) ||
            chars_equal(&cs, &['p', 'e', 'r', 'c', 'e', 'n', 't', 'a', 'g', 'e'])
    }

    /// The value `from_str` gives for a string.
    pub open spec fn spec_from_str(s: Seq<char>) -> DraftOrderAppliedDiscountType {
        if s == seq!['F', 'I', 'X', 'E', 'D', '_', 'A', 'M', 'O', 'U', 'N', 'T'] || s == seq!['f', 'i', 'x', 'e', 'd', '_', 'a', 'm', 'o', 'u', 'n', 't'] {
            DraftOrderAppliedDiscountType::FIXEDAMOUNT
        } else {
            DraftOrderAppliedDiscountType::PERCENTAGE
        }
    }

    /// The text `to_string` gives for a value.
    pub open spec fn spec_to_string(self) -> Seq<char> {
        match self {
            DraftOrderAppliedDiscountType::FIXEDAMOUNT => seq!['F', 'I', 'X', 'E', 'D', '_', 'A', 'M', 'O', 'U', 'N', 'T'],
            DraftOrderAppliedDiscountType::PERCENTAGE => seq!['P', 'E', 'R', 'C', 'E', 'N', 'T', 'A', 'G', 'E'],
        }
    }

    /// Reads the GraphQL enum text: "FIXED_AMOUNT" or "fixed_amount" gives `FIXEDAMOUNT`; "PERCENTAGE" or "percentage" gives `PERCENTAGE`; other text is not accepted.
    pub fn from_str(discount_type: &str) -> (r: DraftOrderAppliedDiscountType)
        requires
            DraftOrderAppliedDiscountType::spec_is_known(discount_type@),
        ensures
            r == DraftOrderAppliedDiscountType::spec_from_str(discount_type@),
    {
        let cs = chars_of(discount_type);
        if chars_equal(&cs, &['F', 'I', 'X', 'E', 'D', '_', 'A', 'M', 'O', 'U', 'N', 'T']) || chars_equal(&cs, &['f', 'i', 'x', 'e', 'd', '_', 'a', 'm', 'o', 'u', 'n', 't']) {
            DraftOrderAppliedDiscountType::FIXEDAMOUNT
        } else {
            DraftOrderAppliedDiscountType::PERCENTAGE
        }
    }

    /// The GraphQL enum text of the value.
    pub fn to_string(&self) -> (r: String)
        ensures
            r@ == self.spec_to_string(),
    {
        let text: &[char] = match self {
            DraftOrderAppliedDiscountType::FIXEDAMOUNT => &['F', 'I', 'X', 'E', 'D', '_', 'A', 'M', 'O', 'U', 'N', 'T'],
            DraftOrderAppliedDiscountType::PERCENTAGE => &['P', 'E', 'R', 'C', 'E', 'N', 'T', 'A', 'G', 'E'],
        };
        string_from_slice(text)
    }
}

/// Reading back the text of a value gives the value again.
pub proof fn lemma_draft_order_applied_discount_type_round_trip(v: DraftOrderAppliedDiscountType)
    ensures
        DraftOrderAppliedDiscountType::spec_from_str(v.spec_to_string()) == v,
{
    match v {
        DraftOrderAppliedDiscountType::FIXEDAMOUNT => {},
        DraftOrderAppliedDiscountType::PERCENTAGE => {},
    }
}

#[derive(Debug, Clone)]
pub struct ShopifyDraftOrderObj {
    /// The GID of the draft order.
    pub id: Option<String>,
    /// The URL of the invoice.
    pub invoice_url: Option<String>,
}

#[derive(Debug, Clone)]
pub struct PurchasingEntityInput {
    /// Shopify GID
    pub customer_id: Option<String>,
    pub purchasing_company: Option<PurchasingCompanyInput>,
}

#[derive(Debug, Clone)]
pub struct BundlesDraftOrderBundleLineItemComponentInput {
    pub quantity: u32,
    pub uuid: Option<String>,
    pub variant_id: Option<String>,
}

#[derive(Debug, Clone)]
pub struct ShopifyDraftOrder {
    pub draft_order: Option<ShopifyDraftOrderObj>,
}

/// The answer of the `draftOrderCreate` mutation.
#[derive(Debug, Clone)]
pub struct ShopifyDraftOrderCreateResponse {
    pub draft_order_create: Option<ShopifyDraftOrder>,
}

/// The created draft order, when the response gives it with both its id
/// and its invoice URL.
pub open spec fn spec_complete_draft_order(resp: ShopifyDraftOrderCreateResponse) -> Option<ShopifyDraftOrderObj> {
    match resp.draft_order_create {
        Some(c) => match c.draft_order {
            Some(d) => if d.id is Some && d.invoice_url is Some {
                Some(d)
            } else {
                None
            },
            None => None,
        },
        None => None,
    }
}

/// The draft order's id and invoice URL; "Issue with Draftorder - Shopify"
/// when either is missing.
pub fn create_draft_order_outcome(resp: ShopifyDraftOrderCreateResponse) -> (r: Result<ShopifyDraftOrderObj, AppError>)
    ensures
        match spec_complete_draft_order(resp) {
            Some(d) => r matches Ok(o) && o == d,
            None => r matches Err(e) && is_other_error(e, "Issue with Draftorder - Shopify"@),
        },
{
    match resp.draft_order_create {
        Some(c) => match c.draft_order {
            Some(d) => {
                if d.id.is_some() && d.invoice_url.is_some() {
                    return Ok(d);
                }
            },
            None => {},
        },
        None => {},
    }
    Err(other_error("Issue with Draftorder - Shopify"))
}

} // verus!
