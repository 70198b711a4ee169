//! Metafield definitions: owner types and access levels, with their GraphQL enum texts.
use vstd::prelude::*;
use crate::json::{JsonValue, JsonView, jobject2, jstr, jbool};
use crate::error::UserError;
use crate::text::{chars_of, chars_equal, string_from_slice};

verus! {

#[derive(Debug, Clone, PartialEq, Eq, Structural)]
pub enum MetafieldOwnerType {
    /// `API_PERMISSION`
    APIPERMISSION,
    /// `ARTICLE`
    ARTICLE,
    /// `BLOG`
    BLOG,
    /// `CARTTRANSFORM`
    CARTTRANSFORM,
    /// `COLLECTION`
    COLLECTION,
    /// `COMPANY`
    COMPANY,
    /// `COMPANY_LOCATION`
    COMPANYLOCATION,
    /// `CUSTOMER`
    CUSTOMER,
    /// `DELIVERY_CUSTOMIZATION`
    DELIVERYCUSTOMIZATION,
    /// `DISCOUNT`
    DISCOUNT,
    /// `DRAFTORDER`
    DRAFTORDER,
    /// `FULFILLMENT_CONSTRAINT_RULE`
    FULFILLMENTCONSTRAINTRULE,
    /// `LOCATION`
    LOCATION,
    /// `MARKET`
    MARKET,
    /// `MEDIA_IMAGE`
    MEDIAIMAGE,
    /// `ORDER`
    ORDER,
    /// `ORDER_ROUTING_LOCATION_RULE`
    ORDERROUTINGLOCATIONRULE,
    /// `PAGE`
    PAGE,
    /// `PAYMENT_CUSTOMIZATION`
    PAYMENTCUSTOMIZATION,
    /// `PRODUCT`
    PRODUCT,
    /// `PRODUCTVARIANT`
    PRODUCTVARIANT,
    /// `SHOP`
    SHOP,
    /// `VALIDATION`
    VALIDATION,
    /// `PRODUCTIMAGE`
    PRODUCTIMAGE,
}

impl MetafieldOwnerType {
    /// The value `from_str` gives for a string.
    pub open spec fn spec_from_str(s: Seq<char>) -> MetafieldOwnerType {
        if s == seq!['A', 'P', 'I', '_', 'P', 'E', 'R', 'M', 'I', 'S', 'S', 'I', 'O', 'N'] {
            MetafieldOwnerType::APIPERMISSION
        } else if s == seq!['A', 'R', 'T', 'I', 'C', 'L', 'E'] {
            MetafieldOwnerType::ARTICLE
        } else if s == seq!['B', 'L', 'O', 'G'] {
            MetafieldOwnerType::BLOG
        } else if s == seq!['C', 'A', 'R', 'T', 'T', 'R', 'A', 'N', 'S', 'F', 'O', 'R', 'M'] {
            MetafieldOwnerType::CARTTRANSFORM
        } else if s == seq!['C', 'O', 'L', 'L', 'E', 'C', 'T', 'I', 'O', 'N'] {
            MetafieldOwnerType::COLLECTION
        } else if s == seq!['C', 'O', 'M', 'P', 'A', 'N', 'Y'] {
            MetafieldOwnerType::COMPANY
        } else if s == seq!['C', 'O', 'M', 'P', 'A', 'N', 'Y', '_', 'L', 'O', 'C', 'A', 'T', 'I', 'O', 'N'] {
            MetafieldOwnerType::COMPANYLOCATION
        } else if s == seq!['C', 'U', 'S', 'T', 'O', 'M', 'E', 'R'] {
            MetafieldOwnerType::CUSTOMER
        } else if s == seq!['D', 'E', 'L', 'I', 'V', 'E', 'R', 'Y', '_', 'C', 'U', 'S', 'T', 'O', 'M', 'I', 'Z', 'A', 'T', 'I', 'O', 'N'] {
            MetafieldOwnerType::DELIVERYCUSTOMIZATION
        } else if s == seq!['D', 'I', 'S', 'C', 'O', 'U', 'N', 'T'] {
            MetafieldOwnerType::DISCOUNT
        } else if s == seq!['D', 'R', 'A', 'F', 'T', 'O', 'R', 'D', 'E', 'R'] {
            MetafieldOwnerType::DRAFTORDER
        } else if s == seq!['F', 'U', 'L', 'F', 'I', 'L', 'L', 'M', 'E', 'N', 'T', '_', 'C', 'O', 'N', 'S', 'T', 'R', 'A', 'I', 'N', 'T', '_', 'R', 'U', 'L', 'E'] {
            MetafieldOwnerType::FULFILLMENTCONSTRAINTRULE
        } else if s == seq!['L', 'O', 'C', 'A', 'T', 'I', 'O', 'N'] {
            MetafieldOwnerType::LOCATION
        } else if s == seq!['M', 'A', 'R', 'K', 'E', 'T'] {
            MetafieldOwnerType::MARKET
        } else if s == seq!['M', 'E', 'D', 'I', 'A', '_', 'I', 'M', 'A', 'G', 'E'] {
            MetafieldOwnerType::MEDIAIMAGE
        } else if s == seq!['O', 'R', 'D', 'E', 'R'] {
            MetafieldOwnerType::ORDER
        } else if s == seq!['O', 'R', 'D', 'E', 'R', '_', 'R', 'O', 'U', 'T', 'I', 'N', 'G', '_', 'L', 'O', 'C', 'A', 'T', 'I', 'O', 'N', '_', 'R', 'U', 'L', 'E'] {
            MetafieldOwnerType::ORDERROUTINGLOCATIONRULE
        } else if s == seq!['P', 'A', 'G', 'E'] {
            MetafieldOwnerType::PAGE
        } else if s == seq!['P', 'A', 'Y', 'M', 'E', 'N', 'T', '_', 'C', 'U', 'S', 'T', 'O', 'M', 'I', 'Z', 'A', 'T', 'I', 'O', 'N'] {
            MetafieldOwnerType::PAYMENTCUSTOMIZATION
        } else {
            MetafieldOwnerType::PRODUCT
        }
    }

    /// The text `to_string` gives for a value.
    pub open spec fn spec_to_string(self) -> Seq<char> {
        match self {
            MetafieldOwnerType::APIPERMISSION => seq!['A', 'P', 'I', '_', 'P', 'E', 'R', 'M', 'I', 'S', 'S', 'I', 'O', 'N'],
            MetafieldOwnerType::ARTICLE => seq!['A', 'R', 'T', 'I', 'C', 'L', 'E'],
            MetafieldOwnerType::BLOG => seq!['B', 'L', 'O', 'G'],
            MetafieldOwnerType::CARTTRANSFORM => seq!['C', 'A', 'R', 'T', 'T', 'R', 'A', 'N', 'S', 'F', 'O', 'R', 'M'],
            MetafieldOwnerType::COLLECTION => seq!['C', 'O', 'L', 'L', 'E', 'C', 'T', 'I', 'O', 'N'],
            MetafieldOwnerType::COMPANY => seq!['C', 'O', 'M', 'P', 'A', 'N', 'Y'],
            MetafieldOwnerType::COMPANYLOCATION => seq!['C', 'O', 'M', 'P', 'A', 'N', 'Y', '_', 'L', 'O', 'C', 'A', 'T', 'I', 'O', 'N'],
            MetafieldOwnerType::CUSTOMER => seq!['C', 'U', 'S', 'T', 'O', 'M', 'E', 'R'],
            MetafieldOwnerType::DELIVERYCUSTOMIZATION => seq!['D', 'E', 'L', 'I', 'V', 'E', 'R', 'Y', '_', 'C', 'U', 'S', 'T', 'O', 'M', 'I', 'Z', 'A', 'T', 'I', 'O', 'N'],
            MetafieldOwnerType::DISCOUNT => seq!['D', 'I', 'S', 'C', 'O', 'U', 'N', 'T'],
            MetafieldOwnerType::DRAFTORDER => seq!['D', 'R', 'A', 'F', 'T', 'O', 'R', 'D', 'E', 'R'],
            MetafieldOwnerType::FULFILLMENTCONSTRAINTRULE => seq!['F', 'U', 'L', 'F', 'I', 'L', 'L', 'M', 'E', 'N', 'T', '_', 'C', 'O', 'N', 'S', 'T', 'R', 'A', 'I', 'N', 'T', '_', 'R', 'U', 'L', 'E'],
            MetafieldOwnerType::LOCATION => seq!['L', 'O', 'C', 'A', 'T', 'I', 'O', 'N'],
            MetafieldOwnerType::MARKET => seq!['M', 'A', 'R', 'K', 'E', 'T'],
            MetafieldOwnerType::MEDIAIMAGE => seq!['M', 'E', 'D', 'I', 'A', '_', 'I', 'M', 'A', 'G', 'E'],
            MetafieldOwnerType::ORDER => seq!['O', 'R', 'D', 'E', 'R'],
            MetafieldOwnerType::ORDERROUTINGLOCATIONRULE => seq!['O', 'R', 'D', 'E', 'R', '_', 'R', 'O', 'U', 'T', 'I', 'N', 'G', '_', 'L', 'O', 'C', 'A', 'T', 'I', 'O', 'N', '_', 'R', 'U', 'L', 'E'],
            MetafieldOwnerType::PAGE => seq!['P', 'A', 'G', 'E'],
            MetafieldOwnerType::PAYMENTCUSTOMIZATION => seq!['P', 'A', 'Y', 'M', 'E', 'N', 'T', '_', 'C', 'U', 'S', 'T', 'O', 'M', 'I', 'Z', 'A', 'T', 'I', 'O', 'N'],
            MetafieldOwnerType::PRODUCT => seq!['P', 'R', 'O', 'D', 'U', 'C', 'T'],
            MetafieldOwnerType::PRODUCTVARIANT => seq!['P', 'R', 'O', 'D', 'U', 'C', 'T', 'V', 'A', 'R', 'I', 'A', 'N', 'T'],
            MetafieldOwnerType::SHOP => seq!['S', 'H', 'O', 'P'],
            MetafieldOwnerType::VALIDATION => seq!['V', 'A', 'L', 'I', 'D', 'A', 'T', 'I', 'O', 'N'],
            MetafieldOwnerType::PRODUCTIMAGE => seq!['P', 'R', 'O', 'D', 'U', 'C', 'T', 'I', 'M', 'A', 'G', 'E'],
        }
    }

    /// Reads the GraphQL enum text: "API_PERMISSION" gives `APIPERMISSION`; "ARTICLE" gives `ARTICLE`; "BLOG" gives `BLOG`; "CARTTRANSFORM" gives `CARTTRANSFORM`; "COLLECTION" gives `COLLECTION`; "COMPANY" gives `COMPANY`; "COMPANY_LOCATION" gives `COMPANYLOCATION`; "CUSTOMER" gives `CUSTOMER`; "DELIVERY_CUSTOMIZATION" gives `DELIVERYCUSTOMIZATION`; "DISCOUNT" gives `DISCOUNT`; "DRAFTORDER" gives `DRAFTORDER`; "FULFILLMENT_CONSTRAINT_RULE" gives `FULFILLMENTCONSTRAINTRULE`; "LOCATION" gives `LOCATION`; "MARKET" gives `MARKET`; "MEDIA_IMAGE" gives `MEDIAIMAGE`; "ORDER" gives `ORDER`; "ORDER_ROUTING_LOCATION_RULE" gives `ORDERROUTINGLOCATIONRULE`; "PAGE" gives `PAGE`; "PAYMENT_CUSTOMIZATION" gives `PAYMENTCUSTOMIZATION`; any other text gives `PRODUCT`.
    pub fn from_str(role: &str) -> (r: MetafieldOwnerType)
        ensures
            r == MetafieldOwnerType::spec_from_str(role@),
    {
        let cs = chars_of(role);
        if chars_equal(&cs, &['A', 'P', 'I', '_', 'P', 'E', 'R', 'M', 'I', 'S', 'S', 'I', 'O', 'N']) {
            MetafieldOwnerType::APIPERMISSION
        } else if chars_equal(&cs, &['A', 'R', 'T', 'I', 'C', 'L', 'E']) {
            MetafieldOwnerType::ARTICLE
        } else if chars_equal(&cs, &['B', 'L', 'O', 'G']) {
            MetafieldOwnerType::BLOG
        } else if chars_equal(&cs, &['C', 'A', 'R', 'T', 'T', 'R', 'A', 'N', 'S', 'F', 'O', 'R', 'M']) {
            MetafieldOwnerType::CARTTRANSFORM
        } else if chars_equal(&cs, &['C', 'O', 'L', 'L', 'E', 'C', 'T', 'I', 'O', 'N']) {
            MetafieldOwnerType::COLLECTION
        } else if chars_equal(&cs, &['C', 'O', 'M', 'P', 'A', 'N', 'Y']) {
            MetafieldOwnerType::COMPANY
        } else if chars_equal(&cs, &['C', 'O', 'M', 'P', 'A', 'N', 'Y', '_', 'L', 'O', 'C', 'A', 'T', 'I', 'O', 'N']) {
            MetafieldOwnerType::COMPANYLOCATION
        } else if chars_equal(&cs, &['C', 'U', 'S', 'T', 'O', 'M', 'E', 'R']) {
            MetafieldOwnerType::CUSTOMER
        } else if chars_equal(&cs, &['D', 'E', 'L', 'I', 'V', 'E', 'R', 'Y', '_', 'C', 'U', 'S', 'T', 'O', 'M', 'I', 'Z', 'A', 'T', 'I', 'O', 'N']) {
            MetafieldOwnerType::DELIVERYCUSTOMIZATION
        } else if chars_equal(&cs, &['D', 'I', 'S', 'C', 'O', 'U', 'N', 'T']) {
            MetafieldOwnerType::DISCOUNT
        } else if chars_equal(&cs, &['D', 'R', 'A', 'F', 'T', 'O', 'R', 'D', 'E', 'R']) {
            MetafieldOwnerType::DRAFTORDER
        } else if chars_equal(&cs, &['F', 'U', 'L', 'F', 'I', 'L', 'L', 'M', 'E', 'N', 'T', '_', 'C', 'O', 'N', 'S', 'T', 'R', 'A', 'I', 'N', 'T', '_', 'R', 'U', 'L', 'E']) {
            MetafieldOwnerType::FULFILLMENTCONSTRAINTRULE
        } else if chars_equal(&cs, &['L', 'O', 'C', 'A', 'T', 'I', 'O', 'N']) {
            MetafieldOwnerType::LOCATION
        } else if chars_equal(&cs, &['M', 'A', 'R', 'K', 'E', 'T']) {
            MetafieldOwnerType::MARKET
        } else if chars_equal(&cs, &['M', 'E', 'D', 'I', 'A', '_', 'I', 'M', 'A', 'G', 'E']) {
            MetafieldOwnerType::MEDIAIMAGE
        } else if chars_equal(&cs, &['O', 'R', 'D', 'E', 'R']) {
            MetafieldOwnerType::ORDER
        } else if chars_equal(&cs, &['O', 'R', 'D', 'E', 'R', '_', 'R', 'O', 'U', 'T', 'I', 'N', 'G', '_', 'L', 'O', 'C', 'A', 'T', 'I', 'O', 'N', '_', 'R', 'U', 'L', 'E']) {
            MetafieldOwnerType::ORDERROUTINGLOCATIONRULE
        } else if chars_equal(&cs, &['P', 'A', 'G', 'E']) {
            MetafieldOwnerType::PAGE
        } else if chars_equal(&cs, &['P', 'A', 'Y', 'M', 'E', 'N', 'T', '_', 'C', 'U', 'S', 'T', 'O', 'M', 'I', 'Z', 'A', 'T', 'I', 'O', 'N']) {
            MetafieldOwnerType::PAYMENTCUSTOMIZATION
        } else {
            MetafieldOwnerType::PRODUCT
        }
    }

    /// The GraphQL enum text of the value.
    pub fn to_string(&self) -> (r: String)
        ensures
            r@ == self.spec_to_string(),
    {
        let text: &[char] = match self {
            MetafieldOwnerType::APIPERMISSION => &['A', 'P', 'I', '_', 'P', 'E', 'R', 'M', 'I', 'S', 'S', 'I', 'O', 'N'],
            MetafieldOwnerType::ARTICLE => &['A', 'R', 'T', 'I', 'C', 'L', 'E'],
            MetafieldOwnerType::BLOG => &['B', 'L', 'O', 'G'],
            MetafieldOwnerType::CARTTRANSFORM => &['C', 'A', 'R', 'T', 'T', 'R', 'A', 'N', 'S', 'F', 'O', 'R', 'M'],
            MetafieldOwnerType::COLLECTION => &['C', 'O', 'L', 'L', 'E', 'C', 'T', 'I', 'O', 'N'],
            MetafieldOwnerType::COMPANY => &['C', 'O', 'M', 'P', 'A', 'N', 'Y'],
            MetafieldOwnerType::COMPANYLOCATION => &['C', 'O', 'M', 'P', 'A', 'N', 'Y', '_', 'L', 'O', 'C', 'A', 'T', 'I', 'O', 'N'],
            MetafieldOwnerType::CUSTOMER => &['C', 'U', 'S', 'T', 'O', 'M', 'E', 'R'],
            MetafieldOwnerType::DELIVERYCUSTOMIZATION => &['D', 'E', 'L', 'I', 'V', 'E', 'R', 'Y', '_', 'C', 'U', 'S', 'T', 'O', 'M', 'I', 'Z', 'A', 'T', 'I', 'O', 'N'],
            MetafieldOwnerType::DISCOUNT => &['D', 'I', 'S', 'C', 'O', 'U', 'N', 'T'],
            MetafieldOwnerType::DRAFTORDER => &['D', 'R', 'A', 'F', 'T', 'O', 'R', 'D', 'E', 'R'],
            MetafieldOwnerType::FULFILLMENTCONSTRAINTRULE => &['F', 'U', 'L', 'F', 'I', 'L', 'L', 'M', 'E', 'N', 'T', '_', 'C', 'O', 'N', 'S', 'T', 'R', 'A', 'I', 'N', 'T', '_', 'R', 'U', 'L', 'E'],
            MetafieldOwnerType::LOCATION => &['L', 'O', 'C', 'A', 'T', 'I', 'O', 'N'],
            MetafieldOwnerType::MARKET => &['M', 'A', 'R', 'K', 'E', 'T'],
            MetafieldOwnerType::MEDIAIMAGE => &['M', 'E', 'D', 'I', 'A', '_', 'I', 'M', 'A', 'G', 'E'],
            MetafieldOwnerType::ORDER => &['O', 'R', 'D', 'E', 'R'],
            MetafieldOwnerType::ORDERROUTINGLOCATIONRULE => &['O', 'R', 'D', 'E', 'R', '_', 'R', 'O', 'U', 'T', 'I', 'N', 'G', '_', 'L', 'O', 'C', 'A', 'T', 'I', 'O', 'N', '_', 'R', 'U', 'L', 'E'],
            MetafieldOwnerType::PAGE => &['P', 'A', 'G', 'E'],
            MetafieldOwnerType::PAYMENTCUSTOMIZATION => &['P', 'A', 'Y', 'M', 'E', 'N', 'T', '_', 'C', 'U', 'S', 'T', 'O', 'M', 'I', 'Z', 'A', 'T', 'I', 'O', 'N'],
            MetafieldOwnerType::PRODUCT => &['P', 'R', 'O', 'D', 'U', 'C', 'T'],
            MetafieldOwnerType::PRODUCTVARIANT => &['P', 'R', 'O', 'D', 'U', 'C', 'T', 'V', 'A', 'R', 'I', 'A', 'N', 'T'],
            MetafieldOwnerType::SHOP => &['S', 'H', 'O', 'P'],
            MetafieldOwnerType::VALIDATION => &['V', 'A', 'L', 'I', 'D', 'A', 'T', 'I', 'O', 'N'],
            MetafieldOwnerType::PRODUCTIMAGE => &['P', 'R', 'O', 'D', 'U', 'C', 'T', 'I', 'M', 'A', 'G', 'E'],
        };
        string_from_slice(text)
    }
}

/// Reading back the text of a value gives the value again (for every value whose text is not mapped elsewhere).
pub proof fn lemma_metafield_owner_type_round_trip(v: MetafieldOwnerType)
    requires
        !(v is PRODUCTVARIANT),
        !(v is SHOP),
        !(v is VALIDATION),
        !(v is PRODUCTIMAGE),
    ensures
        MetafieldOwnerType::spec_from_str(v.spec_to_string()) == v,
{
    match v {
        MetafieldOwnerType::APIPERMISSION => {},
        MetafieldOwnerType::ARTICLE => {},
        MetafieldOwnerType::BLOG => {},
        MetafieldOwnerType::CARTTRANSFORM => {},
        MetafieldOwnerType::COLLECTION => {},
        MetafieldOwnerType::COMPANY => {
            assert(seq!['C', 'O', 'M', 'P', 'A', 'N', 'Y'][0] != seq!['A', 'R', 'T', 'I', 'C', 'L', 'E'][0]);
        },
        MetafieldOwnerType::COMPANYLOCATION => {
            assert(seq!['C', 'O', 'M', 'P', 'A', 'N', 'Y', '_', 'L', 'O', 'C', 'A', 'T', 'I', 'O', 'N'].len() != seq!['C', 'O', 'M', 'P', 'A', 'N', 'Y'].len());
        },
        MetafieldOwnerType::CUSTOMER => {},
        MetafieldOwnerType::DELIVERYCUSTOMIZATION => {},
        MetafieldOwnerType::DISCOUNT => {
            assert(seq!['D', 'I', 'S', 'C', 'O', 'U', 'N', 'T'][0] != seq!['C', 'U', 'S', 'T', 'O', 'M', 'E', 'R'][0]);
        },
        MetafieldOwnerType::DRAFTORDER => {
            assert(seq!['D', 'R', 'A', 'F', 'T', 'O', 'R', 'D', 'E', 'R'][0] != seq!['C', 'O', 'L', 'L', 'E', 'C', 'T', 'I', 'O', 'N'][0]);
        },
        MetafieldOwnerType::FULFILLMENTCONSTRAINTRULE => {},
        MetafieldOwnerType::LOCATION => {
            assert(seq!['L', 'O', 'C', 'A', 'T', 'I', 'O', 'N'][0] != seq!['C', 'U', 'S', 'T', 'O', 'M', 'E', 'R'][0]);
            assert(seq!['L', 'O', 'C', 'A', 'T', 'I', 'O', 'N'][0] != seq!['D', 'I', 'S', 'C', 'O', 'U', 'N', 'T'][0]);
        },
        MetafieldOwnerType::MARKET => {},
        MetafieldOwnerType::MEDIAIMAGE => {},
        MetafieldOwnerType::ORDER => {},
        MetafieldOwnerType::ORDERROUTINGLOCATIONRULE => {
            assert(seq!['O', 'R', 'D', 'E', 'R', '_', 'R', 'O', 'U', 'T', 'I', 'N', 'G', '_', 'L', 'O', 'C', 'A', 'T', 'I', 'O', 'N', '_', 'R', 'U', 'L', 'E'][0] != seq!['F', 'U', 'L', 'F', 'I', 'L', 'L', 'M', 'E', 'N', 'T', '_', 'C', 'O', 'N', 'S', 'T', 'R', 'A', 'I', 'N', 'T', '_', 'R', 'U', 'L', 'E'][0]);
            assert(seq!['O', 'R', 'D', 'E', 'R', '_', 'R', 'O', 'U', 'T', 'I', 'N', 'G', '_', 'L', 'O', 'C', 'A', 'T', 'I', 'O', 'N', '_', 'R', 'U', 'L', 'E'].len() != seq!['O', 'R', 'D', 'E', 'R'].len());
        },
        MetafieldOwnerType::PAGE => {
            assert(seq!['P', 'A', 'G', 'E'][0] != seq!['B', 'L', 'O', 'G'][0]);
        },
        MetafieldOwnerType::PAYMENTCUSTOMIZATION => {},
        MetafieldOwnerType::PRODUCT => {
            assert(seq!['P', 'R', 'O', 'D', 'U', 'C', 'T'].len() != seq!['A', 'P', 'I', '_', 'P', 'E', 'R', 'M', 'I', 'S', 'S', 'I', 'O', 'N'].len());
            assert(seq!['P', 'R', 'O', 'D', 'U', 'C', 'T'][0] != seq!['A', 'R', 'T', 'I', 'C', 'L', 'E'][0]);
            assert(seq!['P', 'R', 'O', 'D', 'U', 'C', 'T'].len() != seq!['B', 'L', 'O', 'G'].len());
            assert(seq!['P', 'R', 'O', 'D', 'U', 'C', 'T'].len() != seq!['C', 'A', 'R', 'T', 'T', 'R', 'A', 'N', 'S', 'F', 'O', 'R', 'M'].len());
            assert(seq!['P', 'R', 'O', 'D', 'U', 'C', 'T'].len() != seq!['C', 'O', 'L', 'L', 'E', 'C', 'T', 'I', 'O', 'N'].len());
            assert(seq!['P', 'R', 'O', 'D', 'U', 'C', 'T'][0] != seq!['C', 'O', 'M', 'P', 'A', 'N', 'Y'][0]);
            assert(seq!['P', 'R', 'O', 'D', 'U', 'C', 'T'].len() != seq!['C', 'O', 'M', 'P', 'A', 'N', 'Y', '_', 'L', 'O', 'C', 'A', 'T', 'I', 'O', 'N'].len());
            assert(seq!['P', 'R', 'O', 'D', 'U', 'C', 'T'].len() != seq!['C', 'U', 'S', 'T', 'O', 'M', 'E', 'R'].len());
            assert(seq!['P', 'R', 'O', 'D', 'U', 'C', 'T'].len() != seq!['D', 'E', 'L', 'I', 'V', 'E', 'R', 'Y', '_', 'C', 'U', 'S', 'T', 'O', 'M', 'I', 'Z', 'A', 'T', 'I', 'O', 'N'].len());
            assert(seq!['P', 'R', 'O', 'D', 'U', 'C', 'T'].len() != seq!['D', 'I', 'S', 'C', 'O', 'U', 'N', 'T'].len());
            assert(seq!['P', 'R', 'O', 'D', 'U', 'C', 'T'].len() != seq!['D', 'R', 'A', 'F', 'T', 'O', 'R', 'D', 'E', 'R'].len());
            assert(seq!['P', 'R', 'O', 'D', 'U', 'C', 'T'].len() != seq!['F', 'U', 'L', 'F', 'I', 'L', 'L', 'M', 'E', 'N', 'T', '_', 'C', 'O', 'N', 'S', 'T', 'R', 'A', 'I', 'N', 'T', '_', 'R', 'U', 'L', 'E'].len());
            assert(seq!['P', 'R', 'O', 'D', 'U', 'C', 'T'].len() != seq!['L', 'O', 'C', 'A', 'T', 'I', 'O', 'N'].len());
            assert(seq!['P', 'R', 'O', 'D', 'U', 'C', 'T'].len() != seq!['M', 'A', 'R', 'K', 'E', 'T'].len());
            assert(seq!['P', 'R', 'O', 'D', 'U', 'C', 'T'].len() != seq!['M', 'E', 'D', 'I', 'A', '_', 'I', 'M', 'A', 'G', 'E'].len());
            assert(seq!['P', 'R', 'O', 'D', 'U', 'C', 'T'].len() != seq!['O', 'R', 'D', 'E', 'R'].len());
            assert(seq!['P', 'R', 'O', 'D', 'U', 'C', 'T'].len() != seq!['O', 'R', 'D', 'E', 'R', '_', 'R', 'O', 'U', 'T', 'I', 'N', 'G', '_', 'L', 'O', 'C', 'A', 'T', 'I', 'O', 'N', '_', 'R', 'U', 'L', 'E'].len());
            assert(seq!['P', 'R', 'O', 'D', 'U', 'C', 'T'].len() != seq!['P', 'A', 'G', 'E'].len());
            assert(seq!['P', 'R', 'O', 'D', 'U', 'C', 'T'].len() != seq!['P', 'A', 'Y', 'M', 'E', 'N', 'T', '_', 'C', 'U', 'S', 'T', 'O', 'M', 'I', 'Z', 'A', 'T', 'I', 'O', 'N'].len());
        },
        MetafieldOwnerType::PRODUCTVARIANT => {},
        MetafieldOwnerType::SHOP => {},
        MetafieldOwnerType::VALIDATION => {},
        MetafieldOwnerType::PRODUCTIMAGE => {},
    }
}

#[derive(Debug, Clone, PartialEq, Eq, Structural)]
pub enum MetafieldStorefrontAccess {
    /// `NONE`
    NONE,
    /// `PUBLIC_READ`
    PUBLICREAD,
}

impl MetafieldStorefrontAccess {
    /// The value `from_str` gives for a string.
    pub open spec fn spec_from_str(s: Seq<char>) -> MetafieldStorefrontAccess {
        if s == seq!['N', 'O', 'N', 'E'] {
            MetafieldStorefrontAccess::NONE
        } else {
            MetafieldStorefrontAccess::PUBLICREAD
        }
    }

    /// The text `to_string` gives for a value.
    pub open spec fn spec_to_string(self) -> Seq<char> {
        match self {
            MetafieldStorefrontAccess::NONE => seq!['N', 'O', 'N', 'E'],
            MetafieldStorefrontAccess::PUBLICREAD => seq!['P', 'U', 'B', 'L', 'I', 'C', '_', 'R', 'E', 'A', 'D'],
        }
    }

    /// Reads the GraphQL enum text: "NONE" gives `NONE`; any other text gives `PUBLICREAD`.
    pub fn from_str(role: &str) -> (r: MetafieldStorefrontAccess)
        ensures
            r == MetafieldStorefrontAccess::spec_from_str(role@),
    {
        let cs = chars_of(role);
        if chars_equal(&cs, &['N', 'O', 'N', 'E']) {
            MetafieldStorefrontAccess::NONE
        } else {
            MetafieldStorefrontAccess::PUBLICREAD
        }
    }

    /// The GraphQL enum text of the value.
    pub fn to_string(&self) -> (r: String)
        ensures
            r@ == self.spec_to_string(),
    {
        let text: &[char] = match self {
            MetafieldStorefrontAccess::NONE => &['N', 'O', 'N', 'E'],
            MetafieldStorefrontAccess::PUBLICREAD => &['P', 'U', 'B', 'L', 'I', 'C', '_', 'R', 'E', 'A', 'D'],
        };
        string_from_slice(text)
    }
}

/// Reading back the text of a value gives the value again.
pub proof fn lemma_metafield_storefront_access_round_trip(v: MetafieldStorefrontAccess)
    ensures
        MetafieldStorefrontAccess::spec_from_str(v.spec_to_string()) == v,
{
    match v {
        MetafieldStorefrontAccess::NONE => {},
        MetafieldStorefrontAccess::PUBLICREAD => {
            assert(seq!['P', 'U', 'B', 'L', 'I', 'C', '_', 'R', 'E', 'A', 'D'].len() != seq!['N', 'O', 'N', 'E'].len());
        },
    }
}

#[derive(Debug, Clone, PartialEq, Eq, Structural)]
pub enum MetafieldGrantAccessLevel {
    /// `READ`
    READ,
    /// `READ_WRITE`
    READWRITE,
}

impl MetafieldGrantAccessLevel {
    /// The value `from_str` gives for a string.
    pub open spec fn spec_from_str(s: Seq<char>) -> MetafieldGrantAccessLevel {
        MetafieldGrantAccessLevel::READ
    }

    /// The text `to_string` gives for a value.
    pub open spec fn spec_to_string(self) -> Seq<char> {
        match self {
            MetafieldGrantAccessLevel::READ => seq!['R', 'E', 'A', 'D'],
            MetafieldGrantAccessLevel::READWRITE => seq!['R', 'E', 'A', 'D', '_', 'W', 'R', 'I', 'T', 'E'],
        }
    }

    /// Reads the GraphQL enum text: every text gives `READ`.
    pub fn from_str(role: &str) -> (r: MetafieldGrantAccessLevel)
        ensures
            r == MetafieldGrantAccessLevel::spec_from_str(role@),
    {
        let cs = chars_of(role);
        MetafieldGrantAccessLevel::READ
    }

    /// The GraphQL enum text of the value.
    pub fn to_string(&self) -> (r: String)
        ensures
            r@ == self.spec_to_string(),
    {
        let text: &[char] = match self {
            MetafieldGrantAccessLevel::READ => &['R', 'E', 'A', 'D'],
            MetafieldGrantAccessLevel::READWRITE => &['R', 'E', 'A', 'D', '_', 'W', 'R', 'I', 'T', 'E'],
        };
        string_from_slice(text)
    }
}

/// Reading back the text of a value gives the value again (for every value whose text is not mapped elsewhere).
pub proof fn lemma_metafield_grant_access_level_round_trip(v: MetafieldGrantAccessLevel)
    requires
        !(v is READWRITE),
    ensures
        MetafieldGrantAccessLevel::spec_from_str(v.spec_to_string()) == v,
{
    match v {
        MetafieldGrantAccessLevel::READ => {},
        MetafieldGrantAccessLevel::READWRITE => {},
    }
}

#[derive(Debug, Clone, PartialEq, Eq, Structural)]
pub enum MetafieldAdminAccess {
    /// `MERCHANT_READ`
    MERCHANTREAD,
    /// `MERCHANT_READ_WRITE`
    MERCHANTREADWRITE,
    /// `PRIVATE`
    PRIVATE,
    /// `PUBLIC_READ`
    PUBLICREAD,
}

impl MetafieldAdminAccess {
    /// The value `from_str` gives for a string.
    pub open spec fn spec_from_str(s: Seq<char>) -> MetafieldAdminAccess {
        if s == seq!['M', 'E', 'R', 'C', 'H', 'A', 'N', 'T', '_', 'R', 'E', 'A', 'D'] {
            MetafieldAdminAccess::MERCHANTREAD
        } else if s == seq!['M', 'E', 'R', 'C', 'H', 'A', 'N', 'T', '_', 'R', 'E', 'A', 'D', '_', 'W', 'R', 'I', 'T', 'E'] {
            MetafieldAdminAccess::MERCHANTREADWRITE
        } else {
            MetafieldAdminAccess::PRIVATE
        }
    }

    /// The text `to_string` gives for a value.
    pub open spec fn spec_to_string(self) -> Seq<char> {
        match self {
            MetafieldAdminAccess::MERCHANTREAD => seq!['M', 'E', 'R', 'C', 'H', 'A', 'N', 'T', '_', 'R', 'E', 'A', 'D'],
            MetafieldAdminAccess::MERCHANTREADWRITE => seq!['M', 'E', 'R', 'C', 'H', 'A', 'N', 'T', '_', 'R', 'E', 'A', 'D', '_', 'W', 'R', 'I', 'T', 'E'],
            MetafieldAdminAccess::PRIVATE => seq!['P', 'R', 'I', 'V', 'A', 'T', 'E'],
            MetafieldAdminAccess::PUBLICREAD => seq!['P', 'U', 'B', 'L', 'I', 'C', '_', 'R', 'E', 'A', 'D'],
        }
    }

    /// Reads the GraphQL enum text: "MERCHANT_READ" gives `MERCHANTREAD`; "MERCHANT_READ_WRITE" gives `MERCHANTREADWRITE`; any other text gives `PRIVATE`.
    pub fn from_str(role: &str) -> (r: MetafieldAdminAccess)
        ensures
            r == MetafieldAdminAccess::spec_from_str(role@),
    {
        let cs = chars_of(role);
        if chars_equal(&cs, &['M', 'E', 'R', 'C', 'H', 'A', 'N', 'T', '_', 'R', 'E', 'A', 'D']) {
            MetafieldAdminAccess::MERCHANTREAD
        } else if chars_equal(&cs, &['M', 'E', 'R', 'C', 'H', 'A', 'N', 'T', '_', 'R', 'E', 'A', 'D', '_', 'W', 'R', 'I', 'T', 'E']) {
            MetafieldAdminAccess::MERCHANTREADWRITE
        } else {
            MetafieldAdminAccess::PRIVATE
        }
    }

    /// The GraphQL enum text of the value.
    pub fn to_string(&self) -> (r: String)
        ensures
            r@ == self.spec_to_string(),
    {
        let text: &[char] = match self {
            MetafieldAdminAccess::MERCHANTREAD => &['M', 'E', 'R', 'C', 'H', 'A', 'N', 'T', '_', 'R', 'E', 'A', 'D'],
            MetafieldAdminAccess::MERCHANTREADWRITE => &['M', 'E', 'R', 'C', 'H', 'A', 'N', 'T', '_', 'R', 'E', 'A', 'D', '_', 'W', 'R', 'I', 'T', 'E'],
            MetafieldAdminAccess::PRIVATE => &['P', 'R', 'I', 'V', 'A', 'T', 'E'],
            MetafieldAdminAccess::PUBLICREAD => &['P', 'U', 'B', 'L', 'I', 'C', '_', 'R', 'E', 'A', 'D'],
        };
        string_from_slice(text)
    }
}

/// Reading back the text of a value gives the value again (for every value whose text is not mapped elsewhere).
pub proof fn lemma_metafield_admin_access_round_trip(v: MetafieldAdminAccess)
    requires
        !(v is PUBLICREAD),
    ensures
        MetafieldAdminAccess::spec_from_str(v.spec_to_string()) == v,
{
    match v {
        MetafieldAdminAccess::MERCHANTREAD => {},
        MetafieldAdminAccess::MERCHANTREADWRITE => {
            assert(seq!['M', 'E', 'R', 'C', 'H', 'A', 'N', 'T', '_', 'R', 'E', 'A', 'D', '_', 'W', 'R', 'I', 'T', 'E'].len() != seq!['M', 'E', 'R', 'C', 'H', 'A', 'N', 'T', '_', 'R', 'E', 'A', 'D'].len());
        },
        MetafieldAdminAccess::PRIVATE => {
            assert(seq!['P', 'R', 'I', 'V', 'A', 'T', 'E'].len() != seq!['M', 'E', 'R', 'C', 'H', 'A', 'N', 'T', '_', 'R', 'E', 'A', 'D'].len());
            assert(seq!['P', 'R', 'I', 'V', 'A', 'T', 'E'].len() != seq!['M', 'E', 'R', 'C', 'H', 'A', 'N', 'T', '_', 'R', 'E', 'A', 'D', '_', 'W', 'R', 'I', 'T', 'E'].len());
        },
        MetafieldAdminAccess::PUBLICREAD => {},
    }
}

#[derive(Debug, Clone)]
pub struct Definition {
    pub id: Option<String>,
    pub key: Option<String>,
    pub name: Option<String>,
    pub namespace: Option<String>,
    pub owner_type: Option<MetafieldOwnerType>,
}

#[derive(Debug, Clone)]
pub struct MetafieldDefinitionValidationInput {
    /// required
    pub name: Option<String>,
    /// required
    pub value: Option<String>,
}

#[derive(Debug, Clone)]
pub struct MetafieldAccessInput {
    /// required
    pub admin: Option<MetafieldAdminAccess>,
    pub grants: Option<Vec<MetafieldAccessGrantInput>>,
    pub storefront: Option<MetafieldStorefrontAccess>,
}

#[derive(Debug, Clone)]
pub struct MetafieldAccessGrantInput {
    /// required
    pub access: Option<MetafieldGrantAccessLevel>,
    /// required
    pub grantee: Option<String>,
}

#[derive(Debug)]
pub struct CreatedDefinition {
    pub created_definition: Option<Definition>,
    pub user_errors: Option<Vec<UserError>>,
}

/// The answer of the `metafieldDefinitionCreate` mutation.
#[derive(Debug)]
pub struct MetafieldDefinitionCreateResponse {
    pub metafield_definition_create: Option<CreatedDefinition>,
}

/// The definition with every field absent.
pub open spec fn spec_empty_definition() -> Definition {
    Definition { id: None, key: None, name: None, namespace: None, owner_type: None }
}

/// The created definition, or the empty definition when the response has
/// none (user errors included).
pub open spec fn spec_created_definition(resp: MetafieldDefinitionCreateResponse) -> Definition {
    match resp.metafield_definition_create {
        Some(c) => match c.created_definition {
            Some(d) => d,
            None => spec_empty_definition(),
        },
        None => spec_empty_definition(),
    }
}

/// The definition a `metafieldDefinitionCreate` response reports (see
/// `spec_created_definition`).
pub fn metafield_definition_outcome(resp: MetafieldDefinitionCreateResponse) -> (r: Definition)
    ensures
        r == spec_created_definition(resp),
{
    match resp.metafield_definition_create {
        Some(c) => match c.created_definition {
            Some(d) => d,
            None => Definition { id: None, key: None, name: None, namespace: None, owner_type: None },
        },
        None => Definition { id: None, key: None, name: None, namespace: None, owner_type: None },
    }
}

/// Variables of `metafieldDefinitionDelete`: the definition, deleting every
/// metafield that uses it.
pub fn delete_metafield_definition_variables(definition_gid: &str) -> (r: JsonValue)
    ensures
        r@ == JsonView::Object(
            seq![("id"@, JsonView::Str(definition_gid@)), ("deleteAllAssociatedMetafields"@, JsonView::Bool(true))],
        ),
{
    jobject2("id", jstr(definition_gid), "deleteAllAssociatedMetafields", jbool(true))
}

} // verus!
