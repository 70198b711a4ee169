//! Discount kinds, with their GraphQL enum texts.
use vstd::prelude::*;
use crate::text::{chars_of, chars_equal, string_from_slice};

verus! {

#[derive(Debug, Clone, PartialEq, Eq, Structural)]
pub enum DiscountType {
    /// `AUTOMATIC_DISCOUNT`
    AutomaticDiscount,
    /// `CODE_DISCOUNT`
    CodeDiscount,
    /// `MANUAL`
    Manual,
}

impl DiscountType {
    /// The value `from_str` gives for a string.
    pub open spec fn spec_from_str(s: Seq<char>) -> DiscountType {
        if s == seq!['A', 'U', 'T', 'O', 'M', 'A', 'T', 'I', 'C', '_', 'D', 'I', 'S', 'C', 'O', 'U', 'N', 'T'] {
            DiscountType::AutomaticDiscount
        } else if s == seq!['C', 'O', 'D', 'E', '_', 'D', 'I', 'S', 'C', 'O', 'U', 'N', 'T'] {
            DiscountType::CodeDiscount
        } else {
            DiscountType::Manual
        }
    }

    /// The text `to_string` gives for a value.
    pub open spec fn spec_to_string(self) -> Seq<char> {
        match self {
            DiscountType::AutomaticDiscount => seq!['A', 'U', 'T', 'O', 'M', 'A', 'T', 'I', 'C', '_', 'D', 'I', 'S', 'C', 'O', 'U', 'N', 'T'],
            DiscountType::CodeDiscount => seq!['C', 'O', 'D', 'E', '_', 'D', 'I', 'S', 'C', 'O', 'U', 'N', 'T'],
            DiscountType::Manual => seq!['M', 'A', 'N', 'U', 'A', 'L'],
        }
    }

    /// Reads the GraphQL enum text: "AUTOMATIC_DISCOUNT" gives `AutomaticDiscount`; "CODE_DISCOUNT" gives `CodeDiscount`; any other text gives `Manual`.
    pub fn from_str(discount_type: &str) -> (r: DiscountType)
        ensures
            r == DiscountType::spec_from_str(discount_type@),
    {
        let cs = chars_of(discount_type);
        if chars_equal(&cs, &['A', 'U', 'T', 'O', 'M', 'A', 'T', 'I', 'C', '_', 'D', 'I', 'S', 'C', 'O', 'U', 'N', 'T']) {
            DiscountType::AutomaticDiscount
        } else if chars_equal(&cs, &['C', 'O', 'D', 'E', '_', 'D', 'I', 'S', 'C', 'O', 'U', 'N', 'T']) {
            DiscountType::CodeDiscount
        } else {
            DiscountType::Manual
        }
    }

    /// The GraphQL enum text of the value.
    pub fn to_string(&self) -> (r: String)
        ensures
            r@ == self.spec_to_string(),
    {
        let text: &[char] = match self {
            DiscountType::AutomaticDiscount => &['A', 'U', 'T', 'O', 'M', 'A', 'T', 'I', 'C', '_', 'D', 'I', 'S', 'C', 'O', 'U', 'N', 'T'],
            DiscountType::CodeDiscount => &['C', 'O', 'D', 'E', '_', 'D', 'I', 'S', 'C', 'O', 'U', 'N', 'T'],
            DiscountType::Manual => &['M', 'A', 'N', 'U', 'A', 'L'],
        };
        string_from_slice(text)
    }
}

/// Reading back the text of a value gives the value again.
pub proof fn lemma_discount_type_round_trip(v: DiscountType)
    ensures
        DiscountType::spec_from_str(v.spec_to_string()) == v,
{
    match v {
        DiscountType::AutomaticDiscount => {},
        DiscountType::CodeDiscount => {},
        DiscountType::Manual => {
            assert(seq!['M', 'A', 'N', 'U', 'A', 'L'].len() != seq!['A', 'U', 'T', 'O', 'M', 'A', 'T', 'I', 'C', '_', 'D', 'I', 'S', 'C', 'O', 'U', 'N', 'T'].len());
            assert(seq!['M', 'A', 'N', 'U', 'A', 'L'].len() != seq!['C', 'O', 'D', 'E', '_', 'D', 'I', 'S', 'C', 'O', 'U', 'N', 'T'].len());
        },
    }
}

#[derive(Debug, Clone, PartialEq, Eq, Structural)]
pub enum DiscountTargetType {
    /// `LINE_ITEM`
    LineItem,
    /// `SHIPPING_LINE`
    ShippingLine,
}

impl DiscountTargetType {
    /// The value `from_str` gives for a string.
    pub open spec fn spec_from_str(s: Seq<char>) -> DiscountTargetType {
        if s == seq!['L', 'I', 'N', 'E', '_', 'I', 'T', 'E', 'M'] {
            DiscountTargetType::LineItem
        } else if s == seq!['S', 'H', 'I', 'P', 'P', 'I', 'N', 'G', '_', 'L', 'I', 'N', 'E'] {
            DiscountTargetType::ShippingLine
        } else {
            DiscountTargetType::LineItem
        }
    }

    /// The text `to_string` gives for a value.
    pub open spec fn spec_to_string(self) -> Seq<char> {
        match self {
            DiscountTargetType::LineItem => seq!['L', 'I', 'N', 'E', '_', 'I', 'T', 'E', 'M'],
            DiscountTargetType::ShippingLine => seq!['S', 'H', 'I', 'P', 'P', 'I', 'N', 'G', '_', 'L', 'I', 'N', 'E'],
        }
    }

    /// Reads the GraphQL enum text: "LINE_ITEM" gives `LineItem`; "SHIPPING_LINE" gives `ShippingLine`; any other text gives `LineItem`.
    pub fn from_str(target_type: &str) -> (r: DiscountTargetType)
        ensures
            r == DiscountTargetType::spec_from_str(target_type@),
    {
        let cs = chars_of(target_type);
        if chars_equal(&cs, &['L', 'I', 'N', 'E', '_', 'I', 'T', 'E', 'M']) {
            DiscountTargetType::LineItem
        } else if chars_equal(&cs, &['S', 'H', 'I', 'P', 'P', 'I', 'N', 'G', '_', 'L', 'I', 'N', 'E']) {
            DiscountTargetType::ShippingLine
        } else {
            DiscountTargetType::LineItem
        }
    }

    /// The GraphQL enum text of the value.
    pub fn to_string(&self) -> (r: String)
        ensures
            r@ == self.spec_to_string(),
    {
        let text: &[char] = match self {
            DiscountTargetType::LineItem => &['L', 'I', 'N', 'E', '_', 'I', 'T', 'E', 'M'],
            DiscountTargetType::ShippingLine => &['S', 'H', 'I', 'P', 'P', 'I', 'N', 'G', '_', 'L', 'I', 'N', 'E'],
        };
        string_from_slice(text)
    }
}

/// Reading back the text of a value gives the value again.
pub proof fn lemma_discount_target_type_round_trip(v: DiscountTargetType)
    ensures
        DiscountTargetType::spec_from_str(v.spec_to_string()) == v,
{
    match v {
        DiscountTargetType::LineItem => {},
        DiscountTargetType::ShippingLine => {},
    }
}

} // verus!
