//! Selling plans (subscriptions and pre-orders), with their GraphQL enum texts.
use vstd::prelude::*;
use crate::text::{chars_of, chars_equal, string_from_slice};

use crate::money::MoneyV2;

verus! {

#[derive(Debug, Clone, PartialEq, Eq, Structural)]
pub enum SellingPlanPricingPolicyAdjustmentType {
    /// `PERCENTAGE`
    PERCENTAGE,
    /// `FIXED_AMOUNT`
    FIXEDAMOUNT,
    /// `PRICE`
    PRICE,
}

impl SellingPlanPricingPolicyAdjustmentType {
    /// The value `from_str` gives for a string.
    pub open spec fn spec_from_str(s: Seq<char>) -> SellingPlanPricingPolicyAdjustmentType {
        if s == seq!['P', 'E', 'R', 'C', 'E', 'N', 'T', 'A', 'G', 'E'] || s == seq!['P', 'e', 'r', 'c', 'e', 'n', 't', 'a', 'g', 'e'] || s == seq!['p', 'e', 'r', 'c', 'e', 'n', 't', 'a', 'g', 'e'] {
            SellingPlanPricingPolicyAdjustmentType::PERCENTAGE
        } else if s == seq!['F', 'I', 'X', 'E', 'D', '_', 'A', 'M', 'O', 'U', 'N', 'T'] || s == seq!['F', 'i', 'x', 'e', 'd', '_', 'A', 'm', 'o', 'u', 'n', 't'] || s == seq!['f', 'i', 'x', 'e', 'd', '_', 'a', 'm', 'o', 'u', 'n', 't'] {
            SellingPlanPricingPolicyAdjustmentType::FIXEDAMOUNT
        } else if s == seq!['P', 'R', 'I', 'C', 'E'] || s == seq!['p', 'r', 'i', 'c', 'e'] {
            SellingPlanPricingPolicyAdjustmentType::PRICE
        } else {
            SellingPlanPricingPolicyAdjustmentType::PERCENTAGE
        }
    }

    /// The text `to_string` gives for a value.
    pub open spec fn spec_to_string(self) -> Seq<char> {
        match self {
            SellingPlanPricingPolicyAdjustmentType::PERCENTAGE => seq!['P', 'E', 'R', 'C', 'E', 'N', 'T', 'A', 'G', 'E'],
            SellingPlanPricingPolicyAdjustmentType::FIXEDAMOUNT => seq!['F', 'I', 'X', 'E', 'D', '_', 'A', 'M', 'O', 'U', 'N', 'T'],
            SellingPlanPricingPolicyAdjustmentType::PRICE => seq!['P', 'R', 'I', 'C', 'E'],
        }
    }

    /// Reads the GraphQL enum text: "PERCENTAGE" or "Percentage" or "percentage" gives `PERCENTAGE`; "FIXED_AMOUNT" or "Fixed_Amount" or "fixed_amount" gives `FIXEDAMOUNT`; "PRICE" or "price" gives `PRICE`; any other text gives `PERCENTAGE`.
    pub fn from_str(role: &str) -> (r: SellingPlanPricingPolicyAdjustmentType)
        ensures
            r == SellingPlanPricingPolicyAdjustmentType::spec_from_str(role@),
    {
        let cs = chars_of(role);
        if chars_equal(&cs, &['P', 'E', 'R', 'C', 'E', 'N', 'T', 'A', 'G', 'E']) || chars_equal(&cs, &['P', 'e', 'r', 'c', 'e', 'n', 't', 'a', 'g', 'e']) || chars_equal(&cs, &['p', 'e', 'r', 'c', 'e', 'n', 't', 'a', 'g', 'e']) {
            SellingPlanPricingPolicyAdjustmentType::PERCENTAGE
        } else if chars_equal(&cs, &['F', 'I', 'X', 'E', 'D', '_', 'A', 'M', 'O', 'U', 'N', 'T']) || chars_equal(&cs, &['F', 'i', 'x', 'e', 'd', '_', 'A', 'm', 'o', 'u', 'n', 't']) || chars_equal(&cs, &['f', 'i', 'x', 'e', 'd', '_', 'a', 'm', 'o', 'u', 'n', 't']) {
            SellingPlanPricingPolicyAdjustmentType::FIXEDAMOUNT
        } else if chars_equal(&cs, &['P', 'R', 'I', 'C', 'E']) || chars_equal(&cs, &['p', 'r', 'i', 'c', 'e']) {
            SellingPlanPricingPolicyAdjustmentType::PRICE
        } else {
            SellingPlanPricingPolicyAdjustmentType::PERCENTAGE
        }
    }

    /// The GraphQL enum text of the value.
    pub fn to_string(&self) -> (r: String)
        ensures
            r@ == self.spec_to_string(),
    {
        let text: &[char] = match self {
            SellingPlanPricingPolicyAdjustmentType::PERCENTAGE => &['P', 'E', 'R', 'C', 'E', 'N', 'T', 'A', 'G', 'E'],
            SellingPlanPricingPolicyAdjustmentType::FIXEDAMOUNT => &['F', 'I', 'X', 'E', 'D', '_', 'A', 'M', 'O', 'U', 'N', 'T'],
            SellingPlanPricingPolicyAdjustmentType::PRICE => &['P', 'R', 'I', 'C', 'E'],
        };
        string_from_slice(text)
    }
}

/// Reading back the text of a value gives the value again.
pub proof fn lemma_selling_plan_pricing_policy_adjustment_type_round_trip(v: SellingPlanPricingPolicyAdjustmentType)
    ensures
        SellingPlanPricingPolicyAdjustmentType::spec_from_str(v.spec_to_string()) == v,
{
    match v {
        SellingPlanPricingPolicyAdjustmentType::PERCENTAGE => {},
        SellingPlanPricingPolicyAdjustmentType::FIXEDAMOUNT => {},
        SellingPlanPricingPolicyAdjustmentType::PRICE => {},
    }
}

#[derive(Debug, Clone, PartialEq, Eq, Structural)]
pub enum SellingPlanReserve {
    /// `ON_FULFILLMENT`
    ONFULFILLMENT,
    /// `ON_SALE`
    ONSALE,
}

impl SellingPlanReserve {
    /// The value `from_str` gives for a string.
    pub open spec fn spec_from_str(s: Seq<char>) -> SellingPlanReserve {
        if s == seq!['O', 'N', '_', 'S', 'A', 'L', 'E'] || s == seq!['o', 'n', '_', 's', 'a', 'l', 'e'] {
            SellingPlanReserve::ONSALE
        } else {
            SellingPlanReserve::ONFULFILLMENT
        }
    }

    /// The text `to_string` gives for a value.
    pub open spec fn spec_to_string(self) -> Seq<char> {
        match self {
            SellingPlanReserve::ONFULFILLMENT => seq!['O', 'N', '_', 'F', 'U', 'L', 'F', 'I', 'L', 'L', 'M', 'E', 'N', 'T'],
            SellingPlanReserve::ONSALE => seq!['O', 'N', '_', 'S', 'A', 'L', 'E'],
        }
    }

    /// Reads the GraphQL enum text: "ON_SALE" or "on_sale" gives `ONSALE`; any other text gives `ONFULFILLMENT`.
    pub fn from_str(role: &str) -> (r: SellingPlanReserve)
        ensures
            r == SellingPlanReserve::spec_from_str(role@),
    {
        let cs = chars_of(role);
        if chars_equal(&cs, &['O', 'N', '_', 'S', 'A', 'L', 'E']) || chars_equal(&cs, &['o', 'n', '_', 's', 'a', 'l', 'e']) {
            SellingPlanReserve::ONSALE
        } else {
            SellingPlanReserve::ONFULFILLMENT
        }
    }

    /// The GraphQL enum text of the value.
    pub fn to_string(&self) -> (r: String)
        ensures
            r@ == self.spec_to_string(),
    {
        let text: &[char] = match self {
            SellingPlanReserve::ONFULFILLMENT => &['O', 'N', '_', 'F', 'U', 'L', 'F', 'I', 'L', 'L', 'M', 'E', 'N', 'T'],
            SellingPlanReserve::ONSALE => &['O', 'N', '_', 'S', 'A', 'L', 'E'],
        };
        string_from_slice(text)
    }
}

/// Reading back the text of a value gives the value again.
pub proof fn lemma_selling_plan_reserve_round_trip(v: SellingPlanReserve)
    ensures
        SellingPlanReserve::spec_from_str(v.spec_to_string()) == v,
{
    match v {
        SellingPlanReserve::ONFULFILLMENT => {
            assert(seq!['O', 'N', '_', 'F', 'U', 'L', 'F', 'I', 'L', 'L', 'M', 'E', 'N', 'T'].len() != seq!['O', 'N', '_', 'S', 'A', 'L', 'E'].len());
            assert(seq!['O', 'N', '_', 'F', 'U', 'L', 'F', 'I', 'L', 'L', 'M', 'E', 'N', 'T'].len() != seq!['o', 'n', '_', 's', 'a', 'l', 'e'].len());
        },
        SellingPlanReserve::ONSALE => {},
    }
}

#[derive(Debug, Clone, PartialEq, Eq, Structural)]
pub enum SellingPlanRecurringDeliveryPolicyPreAnchorBehavior {
    /// `ASAP`
    ASAP,
    /// `NEXT`
    NEXT,
}

impl SellingPlanRecurringDeliveryPolicyPreAnchorBehavior {
    /// The value `from_str` gives for a string.
    pub open spec fn spec_from_str(s: Seq<char>) -> SellingPlanRecurringDeliveryPolicyPreAnchorBehavior {
        if s == seq!['N', 'E', 'X', 'T'] || s == seq!['n', 'e', 'x', 't'] {
            SellingPlanRecurringDeliveryPolicyPreAnchorBehavior::NEXT
        } else {
            SellingPlanRecurringDeliveryPolicyPreAnchorBehavior::ASAP
        }
    }

    /// The text `to_string` gives for a value.
    pub open spec fn spec_to_string(self) -> Seq<char> {
        match self {
            SellingPlanRecurringDeliveryPolicyPreAnchorBehavior::ASAP => seq!['A', 'S', 'A', 'P'],
            SellingPlanRecurringDeliveryPolicyPreAnchorBehavior::NEXT => seq!['N', 'E', 'X', 'T'],
        }
    }

    /// Reads the GraphQL enum text: "NEXT" or "next" gives `NEXT`; any other text gives `ASAP`.
    pub fn from_str(role: &str) -> (r: SellingPlanRecurringDeliveryPolicyPreAnchorBehavior)
        ensures
            r == SellingPlanRecurringDeliveryPolicyPreAnchorBehavior::spec_from_str(role@),
    {
        let cs = chars_of(role);
        if chars_equal(&cs, &['N', 'E', 'X', 'T']) || chars_equal(&cs, &['n', 'e', 'x', 't']) {
            SellingPlanRecurringDeliveryPolicyPreAnchorBehavior::NEXT
        } else {
            SellingPlanRecurringDeliveryPolicyPreAnchorBehavior::ASAP
        }
    }

    /// The GraphQL enum text of the value.
    pub fn to_string(&self) -> (r: String)
        ensures
            r@ == self.spec_to_string(),
    {
        let text: &[char] = match self {
            SellingPlanRecurringDeliveryPolicyPreAnchorBehavior::ASAP => &['A', 'S', 'A', 'P'],
            SellingPlanRecurringDeliveryPolicyPreAnchorBehavior::NEXT => &['N', 'E', 'X', 'T'],
        };
        string_from_slice(text)
    }
}

/// Reading back the text of a value gives the value again.
pub proof fn lemma_selling_plan_recurring_delivery_policy_pre_anchor_behavior_round_trip(v: SellingPlanRecurringDeliveryPolicyPreAnchorBehavior)
    ensures
        SellingPlanRecurringDeliveryPolicyPreAnchorBehavior::spec_from_str(v.spec_to_string()) == v,
{
    match v {
        SellingPlanRecurringDeliveryPolicyPreAnchorBehavior::ASAP => {
            assert(seq!['A', 'S', 'A', 'P'][0] != seq!['N', 'E', 'X', 'T'][0]);
            assert(seq!['A', 'S', 'A', 'P'][0] != seq!['n', 'e', 'x', 't'][0]);
        },
        SellingPlanRecurringDeliveryPolicyPreAnchorBehavior::NEXT => {},
    }
}

#[derive(Debug, Clone, PartialEq, Eq, Structural)]
pub enum SellingPlanRecurringDeliveryPolicyIntent {
    /// `FULFILLMENT_BEGIN`
    FULFILLMENTBEGIN,
}

impl SellingPlanRecurringDeliveryPolicyIntent {
    /// The value `from_str` gives for a string.
    pub open spec fn spec_from_str(s: Seq<char>) -> SellingPlanRecurringDeliveryPolicyIntent {
        SellingPlanRecurringDeliveryPolicyIntent::FULFILLMENTBEGIN
    }

    /// The text `to_string` gives for a value.
    pub open spec fn spec_to_string(self) -> Seq<char> {
        match self {
            SellingPlanRecurringDeliveryPolicyIntent::FULFILLMENTBEGIN => seq!['F', 'U', 'L', 'F', 'I', 'L', 'L', 'M', 'E', 'N', 'T', '_', 'B', 'E', 'G', 'I', 'N'],
        }
    }

    /// Reads the GraphQL enum text: every text gives `FULFILLMENTBEGIN`.
    pub fn from_str(role: &str) -> (r: SellingPlanRecurringDeliveryPolicyIntent)
        ensures
            r == SellingPlanRecurringDeliveryPolicyIntent::spec_from_str(role@),
    {
        let cs = chars_of(role);
        SellingPlanRecurringDeliveryPolicyIntent::FULFILLMENTBEGIN
    }

    /// The GraphQL enum text of the value.
    pub fn to_string(&self) -> (r: String)
        ensures
            r@ == self.spec_to_string(),
    {
        let text: &[char] = match self {
            SellingPlanRecurringDeliveryPolicyIntent::FULFILLMENTBEGIN => &['F', 'U', 'L', 'F', 'I', 'L', 'L', 'M', 'E', 'N', 'T', '_', 'B', 'E', 'G', 'I', 'N'],
        };
        string_from_slice(text)
    }
}

/// Reading back the text of a value gives the value again.
pub proof fn lemma_selling_plan_recurring_delivery_policy_intent_round_trip(v: SellingPlanRecurringDeliveryPolicyIntent)
    ensures
        SellingPlanRecurringDeliveryPolicyIntent::spec_from_str(v.spec_to_string()) == v,
{
    match v {
        SellingPlanRecurringDeliveryPolicyIntent::FULFILLMENTBEGIN => {},
    }
}

#[derive(Debug, Clone, PartialEq, Eq, Structural)]
pub enum SellingPlanFixedDeliveryPolicyPreAnchorBehavior {
    /// `ASAP`
    ASAP,
    /// `NEXT`
    NEXT,
}

impl SellingPlanFixedDeliveryPolicyPreAnchorBehavior {
    /// The value `from_str` gives for a string.
    pub open spec fn spec_from_str(s: Seq<char>) -> SellingPlanFixedDeliveryPolicyPreAnchorBehavior {
        if s == seq!['N', 'E', 'X', 'T'] || s == seq!['n', 'e', 'x', 't'] {
            SellingPlanFixedDeliveryPolicyPreAnchorBehavior::NEXT
        } else {
            SellingPlanFixedDeliveryPolicyPreAnchorBehavior::ASAP
        }
    }

    /// The text `to_string` gives for a value.
    pub open spec fn spec_to_string(self) -> Seq<char> {
        match self {
            SellingPlanFixedDeliveryPolicyPreAnchorBehavior::ASAP => seq!['A', 'S', 'A', 'P'],
            SellingPlanFixedDeliveryPolicyPreAnchorBehavior::NEXT => seq!['N', 'E', 'X', 'T'],
        }
    }

    /// Reads the GraphQL enum text: "NEXT" or "next" gives `NEXT`; any other text gives `ASAP`.
    pub fn from_str(role: &str) -> (r: SellingPlanFixedDeliveryPolicyPreAnchorBehavior)
        ensures
            r == SellingPlanFixedDeliveryPolicyPreAnchorBehavior::spec_from_str(role@),
    {
        let cs = chars_of(role);
        if chars_equal(&cs, &['N', 'E', 'X', 'T']) || chars_equal(&cs, &['n', 'e', 'x', 't']) {
            SellingPlanFixedDeliveryPolicyPreAnchorBehavior::NEXT
        } else {
            SellingPlanFixedDeliveryPolicyPreAnchorBehavior::ASAP
        }
    }

    /// The GraphQL enum text of the value.
    pub fn to_string(&self) -> (r: String)
        ensures
            r@ == self.spec_to_string(),
    {
        let text: &[char] = match self {
            SellingPlanFixedDeliveryPolicyPreAnchorBehavior::ASAP => &['A', 'S', 'A', 'P'],
            SellingPlanFixedDeliveryPolicyPreAnchorBehavior::NEXT => &['N', 'E', 'X', 'T'],
        };
        string_from_slice(text)
    }
}

/// Reading back the text of a value gives the value again.
pub proof fn lemma_selling_plan_fixed_delivery_policy_pre_anchor_behavior_round_trip(v: SellingPlanFixedDeliveryPolicyPreAnchorBehavior)
    ensures
        SellingPlanFixedDeliveryPolicyPreAnchorBehavior::spec_from_str(v.spec_to_string()) == v,
{
    match v {
        SellingPlanFixedDeliveryPolicyPreAnchorBehavior::ASAP => {
            assert(seq!['A', 'S', 'A', 'P'][0] != seq!['N', 'E', 'X', 'T'][0]);
            assert(seq!['A', 'S', 'A', 'P'][0] != seq!['n', 'e', 'x', 't'][0]);
        },
        SellingPlanFixedDeliveryPolicyPreAnchorBehavior::NEXT => {},
    }
}

#[derive(Debug, Clone, PartialEq, Eq, Structural)]
pub enum SellingPlanFixedDeliveryPolicyIntent {
    /// `FULFILLMENT_BEGIN`
    FULFILLMENTBEGIN,
}

impl SellingPlanFixedDeliveryPolicyIntent {
    /// The value `from_str` gives for a string.
    pub open spec fn spec_from_str(s: Seq<char>) -> SellingPlanFixedDeliveryPolicyIntent {
        SellingPlanFixedDeliveryPolicyIntent::FULFILLMENTBEGIN
    }

    /// The text `to_string` gives for a value.
    pub open spec fn spec_to_string(self) -> Seq<char> {
        match self {
            SellingPlanFixedDeliveryPolicyIntent::FULFILLMENTBEGIN => seq!['F', 'U', 'L', 'F', 'I', 'L', 'L', 'M', 'E', 'N', 'T', '_', 'B', 'E', 'G', 'I', 'N'],
        }
    }

    /// Reads the GraphQL enum text: every text gives `FULFILLMENTBEGIN`.
    pub fn from_str(role: &str) -> (r: SellingPlanFixedDeliveryPolicyIntent)
        ensures
            r == SellingPlanFixedDeliveryPolicyIntent::spec_from_str(role@),
    {
        let cs = chars_of(role);
        SellingPlanFixedDeliveryPolicyIntent::FULFILLMENTBEGIN
    }

    /// The GraphQL enum text of the value.
    pub fn to_string(&self) -> (r: String)
        ensures
            r@ == self.spec_to_string(),
    {
        let text: &[char] = match self {
            SellingPlanFixedDeliveryPolicyIntent::FULFILLMENTBEGIN => &['F', 'U', 'L', 'F', 'I', 'L', 'L', 'M', 'E', 'N', 'T', '_', 'B', 'E', 'G', 'I', 'N'],
        };
        string_from_slice(text)
    }
}

/// Reading back the text of a value gives the value again.
pub proof fn lemma_selling_plan_fixed_delivery_policy_intent_round_trip(v: SellingPlanFixedDeliveryPolicyIntent)
    ensures
        SellingPlanFixedDeliveryPolicyIntent::spec_from_str(v.spec_to_string()) == v,
{
    match v {
        SellingPlanFixedDeliveryPolicyIntent::FULFILLMENTBEGIN => {},
    }
}

#[derive(Debug, Clone, PartialEq, Eq, Structural)]
pub enum SellingPlanFulfillmentTrigger {
    /// `ANCHOR`
    ANCHOR,
    /// `ASAP`
    ASAP,
    /// `EXACT_TIME`
    EXACTTIME,
    /// `UNKNOWN`
    UNKNOWN,
}

impl SellingPlanFulfillmentTrigger {
    /// The value `from_str` gives for a string.
    pub open spec fn spec_from_str(s: Seq<char>) -> SellingPlanFulfillmentTrigger {
        if s == seq!['A', 'N', 'C', 'H', 'O', 'R'] || s == seq!['a', 'n', 'c', 'h', 'o', 'r'] {
            SellingPlanFulfillmentTrigger::ANCHOR
        } else if s == seq!['A', 'S', 'A', 'P'] || s == seq!['a', 's', 'a', 'p'] {
            SellingPlanFulfillmentTrigger::ASAP
        } else if s == seq!['E', 'X', 'A', 'C', 'T', '_', 'T', 'I', 'M', 'E'] || s == seq!['e', 'x', 'a', 'c', 't', '_', 't', 'i', 'm', 'e'] {
            SellingPlanFulfillmentTrigger::EXACTTIME
        } else {
            SellingPlanFulfillmentTrigger::UNKNOWN
        }
    }

    /// The text `to_string` gives for a value.
    pub open spec fn spec_to_string(self) -> Seq<char> {
        match self {
            SellingPlanFulfillmentTrigger::ANCHOR => seq!['A', 'N', 'C', 'H', 'O', 'R'],
            SellingPlanFulfillmentTrigger::ASAP => seq!['A', 'S', 'A', 'P'],
            SellingPlanFulfillmentTrigger::EXACTTIME => seq!['E', 'X', 'A', 'C', 'T', '_', 'T', 'I', 'M', 'E'],
            SellingPlanFulfillmentTrigger::UNKNOWN => seq!['U', 'N', 'K', 'N', 'O', 'W', 'N'],
        }
    }

    /// Reads the GraphQL enum text: "ANCHOR" or "anchor" gives `ANCHOR`; "ASAP" or "asap" gives `ASAP`; "EXACT_TIME" or "exact_time" gives `EXACTTIME`; any other text gives `UNKNOWN`.
    pub fn from_str(role: &str) -> (r: SellingPlanFulfillmentTrigger)
        ensures
            r == SellingPlanFulfillmentTrigger::spec_from_str(role@),
    {
        let cs = chars_of(role);
        if chars_equal(&cs, &['A', 'N', 'C', 'H', 'O', 'R']) || chars_equal(&cs, &['a', 'n', 'c', 'h', 'o', 'r']) {
            SellingPlanFulfillmentTrigger::ANCHOR
        } else if chars_equal(&cs, &['A', 'S', 'A', 'P']) || chars_equal(&cs, &['a', 's', 'a', 'p']) {
            SellingPlanFulfillmentTrigger::ASAP
        } else if chars_equal(&cs, &['E', 'X', 'A', 'C', 'T', '_', 'T', 'I', 'M', 'E']) || chars_equal(&cs, &['e', 'x', 'a', 'c', 't', '_', 't', 'i', 'm', 'e']) {
            SellingPlanFulfillmentTrigger::EXACTTIME
        } else {
            SellingPlanFulfillmentTrigger::UNKNOWN
        }
    }

    /// The GraphQL enum text of the value.
    pub fn to_string(&self) -> (r: String)
        ensures
            r@ == self.spec_to_string(),
    {
        let text: &[char] = match self {
            SellingPlanFulfillmentTrigger::ANCHOR => &['A', 'N', 'C', 'H', 'O', 'R'],
            SellingPlanFulfillmentTrigger::ASAP => &['A', 'S', 'A', 'P'],
            SellingPlanFulfillmentTrigger::EXACTTIME => &['E', 'X', 'A', 'C', 'T', '_', 'T', 'I', 'M', 'E'],
            SellingPlanFulfillmentTrigger::UNKNOWN => &['U', 'N', 'K', 'N', 'O', 'W', 'N'],
        };
        string_from_slice(text)
    }
}

/// Reading back the text of a value gives the value again.
pub proof fn lemma_selling_plan_fulfillment_trigger_round_trip(v: SellingPlanFulfillmentTrigger)
    ensures
        SellingPlanFulfillmentTrigger::spec_from_str(v.spec_to_string()) == v,
{
    match v {
        SellingPlanFulfillmentTrigger::ANCHOR => {},
        SellingPlanFulfillmentTrigger::ASAP => {},
        SellingPlanFulfillmentTrigger::EXACTTIME => {},
        SellingPlanFulfillmentTrigger::UNKNOWN => {
            assert(seq!['U', 'N', 'K', 'N', 'O', 'W', 'N'].len() != seq!['A', 'N', 'C', 'H', 'O', 'R'].len());
            assert(seq!['U', 'N', 'K', 'N', 'O', 'W', 'N'].len() != seq!['a', 'n', 'c', 'h', 'o', 'r'].len());
            assert(seq!['U', 'N', 'K', 'N', 'O', 'W', 'N'].len() != seq!['A', 'S', 'A', 'P'].len());
            assert(seq!['U', 'N', 'K', 'N', 'O', 'W', 'N'].len() != seq!['a', 's', 'a', 'p'].len());
            assert(seq!['U', 'N', 'K', 'N', 'O', 'W', 'N'].len() != seq!['E', 'X', 'A', 'C', 'T', '_', 'T', 'I', 'M', 'E'].len());
            assert(seq!['U', 'N', 'K', 'N', 'O', 'W', 'N'].len() != seq!['e', 'x', 'a', 'c', 't', '_', 't', 'i', 'm', 'e'].len());
        },
    }
}

#[derive(Debug, Clone, PartialEq, Eq, Structural)]
pub enum SellingPlanCategory {
    /// `OTHER`
    OTHER,
    /// `PRE_ORDER`
    PREORDER,
    /// `SUBSCRIPTION`
    SUBSCRIPTION,
    /// `TRY_BEFORE_YOU_BUY`
    TRYBEFOREYOUBUY,
}

impl SellingPlanCategory {
    /// The value `from_str` gives for a string.
    pub open spec fn spec_from_str(s: Seq<char>) -> SellingPlanCategory {
        if s == seq!['O', 'T', 'H', 'E', 'R'] || s == seq!['o', 't', 'h', 'e', 'r'] {
            SellingPlanCategory::OTHER
        } else if s == seq!['P', 'R', 'E', '_', 'O', 'R', 'D', 'E', 'R'] || s == seq!['p', 'r', 'e', '_', 'o', 'r', 'd', 'e', 'r'] {
            SellingPlanCategory::PREORDER
        } else if s == seq!['T', 'R', 'Y', '_', 'B', 'E', 'F', 'O', 'R', 'E', '_', 'Y', 'O', 'U', '_', 'B', 'U', 'Y'] || s == seq!['t', 'r', 'y', '_', 'b', 'e', 'f', 'o', 'r', 'e', '_', 'y', 'o', 'u', '_', 'b', 'u', 'y'] {
            SellingPlanCategory::TRYBEFOREYOUBUY
        } else {
            SellingPlanCategory::SUBSCRIPTION
        }
    }

    /// The text `to_string` gives for a value.
    pub open spec fn spec_to_string(self) -> Seq<char> {
        match self {
            SellingPlanCategory::OTHER => seq!['O', 'T', 'H', 'E', 'R'],
            SellingPlanCategory::PREORDER => seq!['P', 'R', 'E', '_', 'O', 'R', 'D', 'E', 'R'],
            SellingPlanCategory::SUBSCRIPTION => seq!['S', 'U', 'B', 'S', 'C', 'R', 'I', 'P', 'T', 'I', 'O', 'N'],
            SellingPlanCategory::TRYBEFOREYOUBUY => seq!['T', 'R', 'Y', '_', 'B', 'E', 'F', 'O', 'R', 'E', '_', 'Y', 'O', 'U', '_', 'B', 'U', 'Y'],
        }
    }

    /// Reads the GraphQL enum text: "OTHER" or "other" gives `OTHER`; "PRE_ORDER" or "pre_order" gives `PREORDER`; "TRY_BEFORE_YOU_BUY" or "try_before_you_buy" gives `TRYBEFOREYOUBUY`; any other text gives `SUBSCRIPTION`.
    pub fn from_str(role: &str) -> (r: SellingPlanCategory)
        ensures
            r == SellingPlanCategory::spec_from_str(role@),
    {
        let cs = chars_of(role);
        if chars_equal(&cs, &['O', 'T', 'H', 'E', 'R']) || chars_equal(&cs, &['o', 't', 'h', 'e', 'r']) {
            SellingPlanCategory::OTHER
        } else if chars_equal(&cs, &['P', 'R', 'E', '_', 'O', 'R', 'D', 'E', 'R']) || chars_equal(&cs, &['p', 'r', 'e', '_', 'o', 'r', 'd', 'e', 'r']) {
            SellingPlanCategory::PREORDER
        } else if chars_equal(&cs, &['T', 'R', 'Y', '_', 'B', 'E', 'F', 'O', 'R', 'E', '_', 'Y', 'O', 'U', '_', 'B', 'U', 'Y']) || chars_equal(&cs, &['t', 'r', 'y', '_', 'b', 'e', 'f', 'o', 'r', 'e', '_', 'y', 'o', 'u', '_', 'b', 'u', 'y']) {
            SellingPlanCategory::TRYBEFOREYOUBUY
        } else {
            SellingPlanCategory::SUBSCRIPTION
        }
    }

    /// The GraphQL enum text of the value.
    pub fn to_string(&self) -> (r: String)
        ensures
            r@ == self.spec_to_string(),
    {
        let text: &[char] = match self {
            SellingPlanCategory::OTHER => &['O', 'T', 'H', 'E', 'R'],
            SellingPlanCategory::PREORDER => &['P', 'R', 'E', '_', 'O', 'R', 'D', 'E', 'R'],
            SellingPlanCategory::SUBSCRIPTION => &['S', 'U', 'B', 'S', 'C', 'R', 'I', 'P', 'T', 'I', 'O', 'N'],
            SellingPlanCategory::TRYBEFOREYOUBUY => &['T', 'R', 'Y', '_', 'B', 'E', 'F', 'O', 'R', 'E', '_', 'Y', 'O', 'U', '_', 'B', 'U', 'Y'],
        };
        string_from_slice(text)
    }
}

/// Reading back the text of a value gives the value again.
pub proof fn lemma_selling_plan_category_round_trip(v: SellingPlanCategory)
    ensures
        SellingPlanCategory::spec_from_str(v.spec_to_string()) == v,
{
    match v {
        SellingPlanCategory::OTHER => {},
        SellingPlanCategory::PREORDER => {},
        SellingPlanCategory::SUBSCRIPTION => {
            assert(seq!['S', 'U', 'B', 'S', 'C', 'R', 'I', 'P', 'T', 'I', 'O', 'N'].len() != seq!['O', 'T', 'H', 'E', 'R'].len());
            assert(seq!['S', 'U', 'B', 'S', 'C', 'R', 'I', 'P', 'T', 'I', 'O', 'N'].len() != seq!['o', 't', 'h', 'e', 'r'].len());
            assert(seq!['S', 'U', 'B', 'S', 'C', 'R', 'I', 'P', 'T', 'I', 'O', 'N'].len() != seq!['P', 'R', 'E', '_', 'O', 'R', 'D', 'E', 'R'].len());
            assert(seq!['S', 'U', 'B', 'S', 'C', 'R', 'I', 'P', 'T', 'I', 'O', 'N'].len() != seq!['p', 'r', 'e', '_', 'o', 'r', 'd', 'e', 'r'].len());
            assert(seq!['S', 'U', 'B', 'S', 'C', 'R', 'I', 'P', 'T', 'I', 'O', 'N'].len() != seq!['T', 'R', 'Y', '_', 'B', 'E', 'F', 'O', 'R', 'E', '_', 'Y', 'O', 'U', '_', 'B', 'U', 'Y'].len());
            assert(seq!['S', 'U', 'B', 'S', 'C', 'R', 'I', 'P', 'T', 'I', 'O', 'N'].len() != seq!['t', 'r', 'y', '_', 'b', 'e', 'f', 'o', 'r', 'e', '_', 'y', 'o', 'u', '_', 'b', 'u', 'y'].len());
        },
        SellingPlanCategory::TRYBEFOREYOUBUY => {},
    }
}

#[derive(Debug, Clone, PartialEq, Eq, Structural)]
pub enum SellingPlanInterval {
    /// `DAY`
    DAY,
    /// `WEEK`
    WEEK,
    /// `MONTH`
    MONTH,
    /// `YEAR`
    YEAR,
}

impl SellingPlanInterval {
    /// The value `from_str` gives for a string.
    pub open spec fn spec_from_str(s: Seq<char>) -> SellingPlanInterval {
        if s == seq!['D', 'A', 'Y'] || s == seq!['D', 'a', 'y'] || s == seq!['d', 'a', 'y'] {
            SellingPlanInterval::DAY
        } else if s == seq!['W', 'E', 'E', 'K'] || s == seq!['W', 'e', 'e', 'k'] || s == seq!['w', 'e', 'e', 'k'] {
            SellingPlanInterval::WEEK
        } else if s == seq!['M', 'O', 'N', 'T', 'H'] || s == seq!['M', 'o', 'n', 't', 'h'] || s == seq!['m', 'o', 'n', 't', 'h'] {
            SellingPlanInterval::MONTH
        } else if s == seq!['Y', 'E', 'A', 'R'] || s == seq!['Y', 'e', 'a', 'r'] || s == seq!['y', 'e', 'a', 'r'] {
            SellingPlanInterval::YEAR
        } else {
            SellingPlanInterval::WEEK
        }
    }

    /// The text `to_string` gives for a value.
    pub open spec fn spec_to_string(self) -> Seq<char> {
        match self {
            SellingPlanInterval::DAY => seq!['D', 'A', 'Y'],
            SellingPlanInterval::WEEK => seq!['W', 'E', 'E', 'K'],
            SellingPlanInterval::MONTH => seq!['M', 'O', 'N', 'T', 'H'],
            SellingPlanInterval::YEAR => seq!['Y', 'E', 'A', 'R'],
        }
    }

    /// Reads the GraphQL enum text: "DAY" or "Day" or "day" gives `DAY`; "WEEK" or "Week" or "week" gives `WEEK`; "MONTH" or "Month" or "month" gives `MONTH`; "YEAR" or "Year" or "year" gives `YEAR`; any other text gives `WEEK`.
    pub fn from_str(role: &str) -> (r: SellingPlanInterval)
        ensures
            r == SellingPlanInterval::spec_from_str(role@),
    {
        let cs = chars_of(role);
        if chars_equal(&cs, &['D', 'A', 'Y']) || chars_equal(&cs, &['D', 'a', 'y']) || chars_equal(&cs, &['d', 'a', 'y']) {
            SellingPlanInterval::DAY
        } else if chars_equal(&cs, &['W', 'E', 'E', 'K']) || chars_equal(&cs, &['W', 'e', 'e', 'k']) || chars_equal(&cs, &['w', 'e', 'e', 'k']) {
            SellingPlanInterval::WEEK
        } else if chars_equal(&cs, &['M', 'O', 'N', 'T', 'H']) || chars_equal(&cs, &['M', 'o', 'n', 't', 'h']) || chars_equal(&cs, &['m', 'o', 'n', 't', 'h']) {
            SellingPlanInterval::MONTH
        } else if chars_equal(&cs, &['Y', 'E', 'A', 'R']) || chars_equal(&cs, &['Y', 'e', 'a', 'r']) || chars_equal(&cs, &['y', 'e', 'a', 'r']) {
            SellingPlanInterval::YEAR
        } else {
            SellingPlanInterval::WEEK
        }
    }

    /// The GraphQL enum text of the value.
    pub fn to_string(&self) -> (r: String)
        ensures
            r@ == self.spec_to_string(),
    {
        let text: &[char] = match self {
            SellingPlanInterval::DAY => &['D', 'A', 'Y'],
            SellingPlanInterval::WEEK => &['W', 'E', 'E', 'K'],
            SellingPlanInterval::MONTH => &['M', 'O', 'N', 'T', 'H'],
            SellingPlanInterval::YEAR => &['Y', 'E', 'A', 'R'],
        };
        string_from_slice(text)
    }
}

/// Reading back the text of a value gives the value again.
pub proof fn lemma_selling_plan_interval_round_trip(v: SellingPlanInterval)
    ensures
        SellingPlanInterval::spec_from_str(v.spec_to_string()) == v,
{
    match v {
        SellingPlanInterval::DAY => {},
        SellingPlanInterval::WEEK => {},
        SellingPlanInterval::MONTH => {},
        SellingPlanInterval::YEAR => {
            assert(seq!['Y', 'E', 'A', 'R'][0] != seq!['W', 'E', 'E', 'K'][0]);
            assert(seq!['Y', 'E', 'A', 'R'][0] != seq!['W', 'e', 'e', 'k'][0]);
            assert(seq!['Y', 'E', 'A', 'R'][0] != seq!['w', 'e', 'e', 'k'][0]);
        },
    }
}

#[derive(Debug, Clone, PartialEq, Eq, Structural)]
pub enum SellingPlanAnchorType {
    /// `MONTHDAY`
    MONTHDAY,
    /// `WEEKDAY`
    WEEKDAY,
    /// `YEARDAY`
    YEARDAY,
}

impl SellingPlanAnchorType {
    /// The value `from_str` gives for a string.
    pub open spec fn spec_from_str(s: Seq<char>) -> SellingPlanAnchorType {
        if s == seq!['Y', 'E', 'A', 'R', 'D', 'A', 'Y'] || s == seq!['y', 'e', 'a', 'r', 'd', 'a', 'y'] {
            SellingPlanAnchorType::YEARDAY
        } else if s == seq!['W', 'E', 'E', 'K', 'D', 'A', 'Y'] || s == seq!['w', 'e', 'e', 'k', 'd', 'a', 'y'] {
            SellingPlanAnchorType::WEEKDAY
        } else {
            SellingPlanAnchorType::MONTHDAY
        }
    }

    /// The text `to_string` gives for a value.
    pub open spec fn spec_to_string(self) -> Seq<char> {
        match self {
            SellingPlanAnchorType::MONTHDAY => seq!['M', 'O', 'N', 'T', 'H', 'D', 'A', 'Y'],
            SellingPlanAnchorType::WEEKDAY => seq!['W', 'E', 'E', 'K', 'D', 'A', 'Y'],
            SellingPlanAnchorType::YEARDAY => seq!['Y', 'E', 'A', 'R', 'D', 'A', 'Y'],
        }
    }

    /// Reads the GraphQL enum text: "YEARDAY" or "yearday" gives `YEARDAY`; "WEEKDAY" or "weekday" gives `WEEKDAY`; any other text gives `MONTHDAY`.
    pub fn from_str(role: &str) -> (r: SellingPlanAnchorType)
        ensures
            r == SellingPlanAnchorType::spec_from_str(role@),
    {
        let cs = chars_of(role);
        if chars_equal(&cs, &['Y', 'E', 'A', 'R', 'D', 'A', 'Y']) || chars_equal(&cs, &['y', 'e', 'a', 'r', 'd', 'a', 'y']) {
            SellingPlanAnchorType::YEARDAY
        } else if chars_equal(&cs, &['W', 'E', 'E', 'K', 'D', 'A', 'Y']) || chars_equal(&cs, &['w', 'e', 'e', 'k', 'd', 'a', 'y']) {
            SellingPlanAnchorType::WEEKDAY
        } else {
            SellingPlanAnchorType::MONTHDAY
        }
    }

    /// The GraphQL enum text of the value.
    pub fn to_string(&self) -> (r: String)
        ensures
            r@ == self.spec_to_string(),
    {
        let text: &[char] = match self {
            SellingPlanAnchorType::MONTHDAY => &['M', 'O', 'N', 'T', 'H', 'D', 'A', 'Y'],
            SellingPlanAnchorType::WEEKDAY => &['W', 'E', 'E', 'K', 'D', 'A', 'Y'],
            SellingPlanAnchorType::YEARDAY => &['Y', 'E', 'A', 'R', 'D', 'A', 'Y'],
        };
        string_from_slice(text)
    }
}

/// Reading back the text of a value gives the value again.
pub proof fn lemma_selling_plan_anchor_type_round_trip(v: SellingPlanAnchorType)
    ensures
        SellingPlanAnchorType::spec_from_str(v.spec_to_string()) == v,
{
    match v {
        SellingPlanAnchorType::MONTHDAY => {
            assert(seq!['M', 'O', 'N', 'T', 'H', 'D', 'A', 'Y'].len() != seq!['Y', 'E', 'A', 'R', 'D', 'A', 'Y'].len());
            assert(seq!['M', 'O', 'N', 'T', 'H', 'D', 'A', 'Y'].len() != seq!['y', 'e', 'a', 'r', 'd', 'a', 'y'].len());
            assert(seq!['M', 'O', 'N', 'T', 'H', 'D', 'A', 'Y'].len() != seq!['W', 'E', 'E', 'K', 'D', 'A', 'Y'].len());
            assert(seq!['M', 'O', 'N', 'T', 'H', 'D', 'A', 'Y'].len() != seq!['w', 'e', 'e', 'k', 'd', 'a', 'y'].len());
        },
        SellingPlanAnchorType::WEEKDAY => {
            assert(seq!['W', 'E', 'E', 'K', 'D', 'A', 'Y'][0] != seq!['Y', 'E', 'A', 'R', 'D', 'A', 'Y'][0]);
            assert(seq!['W', 'E', 'E', 'K', 'D', 'A', 'Y'][0] != seq!['y', 'e', 'a', 'r', 'd', 'a', 'y'][0]);
        },
        SellingPlanAnchorType::YEARDAY => {},
    }
}

#[derive(Debug, Clone, PartialEq, Eq, Structural)]
pub enum SellingPlanRemainingBalanceChargeTrigger {
    /// `EXACT_TIME`
    EXACTTIME,
    /// `NO_REMAINING_BALANCE`
    NOREMAININGBALANCE,
    /// `TIME_AFTER_CHECKOUT`
    TIMEAFTERCHECKOUT,
}

impl SellingPlanRemainingBalanceChargeTrigger {
    /// The value `from_str` gives for a string.
    pub open spec fn spec_from_str(s: Seq<char>) -> SellingPlanRemainingBalanceChargeTrigger {
        if s == seq!['N', 'O', '_', 'R', 'E', 'M', 'A', 'I', 'N', 'I', 'N', 'G', '_', 'B', 'A', 'L', 'A', 'N', 'C', 'E'] || s == seq!['n', 'o', '_', 'r', 'e', 'm', 'a', 'i', 'n', 'i', 'n', 'g', '_', 'b', 'a', 'l', 'a', 'n', 'c', 'e'] {
            SellingPlanRemainingBalanceChargeTrigger::NOREMAININGBALANCE
        } else if s == seq!['T', 'I', 'M', 'E', '_', 'A', 'F', 'T', 'E', 'R', '_', 'C', 'H', 'E', 'C', 'K', 'O', 'U', 'T'] || s == seq!['t', 'i', 'm', 'e', '_', 'a', 'f', 't', 'e', 'r', '_', 'c', 'h', 'e', 'c', 'k', 'o', 'u', 't'] {
            SellingPlanRemainingBalanceChargeTrigger::TIMEAFTERCHECKOUT
        } else {
            SellingPlanRemainingBalanceChargeTrigger::EXACTTIME
        }
    }

    /// The text `to_string` gives for a value.
    pub open spec fn spec_to_string(self) -> Seq<char> {
        match self {
            SellingPlanRemainingBalanceChargeTrigger::EXACTTIME => seq!['E', 'X', 'A', 'C', 'T', '_', 'T', 'I', 'M', 'E'],
            SellingPlanRemainingBalanceChargeTrigger::NOREMAININGBALANCE => seq!['N', 'O', '_', 'R', 'E', 'M', 'A', 'I', 'N', 'I', 'N', 'G', '_', 'B', 'A', 'L', 'A', 'N', 'C', 'E'],
            SellingPlanRemainingBalanceChargeTrigger::TIMEAFTERCHECKOUT => seq!['T', 'I', 'M', 'E', '_', 'A', 'F', 'T', 'E', 'R', '_', 'C', 'H', 'E', 'C', 'K', 'O', 'U', 'T'],
        }
    }

    /// Reads the GraphQL enum text: "NO_REMAINING_BALANCE" or "no_remaining_balance" gives `NOREMAININGBALANCE`; "TIME_AFTER_CHECKOUT" or "time_after_checkout" gives `TIMEAFTERCHECKOUT`; any other text gives `EXACTTIME`.
    pub fn from_str(role: &str) -> (r: SellingPlanRemainingBalanceChargeTrigger)
        ensures
            r == SellingPlanRemainingBalanceChargeTrigger::spec_from_str(role@),
    {
        let cs = chars_of(role);
        if chars_equal(&cs, &['N', 'O', '_', 'R', 'E', 'M', 'A', 'I', 'N', 'I', 'N', 'G', '_', 'B', 'A', 'L', 'A', 'N', 'C', 'E']) || chars_equal(&cs, &['n', 'o', '_', 'r', 'e', 'm', 'a', 'i', 'n', 'i', 'n', 'g', '_', 'b', 'a', 'l', 'a', 'n', 'c', 'e']) {
            SellingPlanRemainingBalanceChargeTrigger::NOREMAININGBALANCE
        } else if chars_equal(&cs, &['T', 'I', 'M', 'E', '_', 'A', 'F', 'T', 'E', 'R', '_', 'C', 'H', 'E', 'C', 'K', 'O', 'U', 'T']) || chars_equal(&cs, &['t', 'i', 'm', 'e', '_', 'a', 'f', 't', 'e', 'r', '_', 'c', 'h', 'e', 'c', 'k', 'o', 'u', 't']) {
            SellingPlanRemainingBalanceChargeTrigger::TIMEAFTERCHECKOUT
        } else {
            SellingPlanRemainingBalanceChargeTrigger::EXACTTIME
        }
    }

    /// The GraphQL enum text of the value.
    pub fn to_string(&self) -> (r: String)
        ensures
            r@ == self.spec_to_string(),
    {
        let text: &[char] = match self {
            SellingPlanRemainingBalanceChargeTrigger::EXACTTIME => &['E', 'X', 'A', 'C', 'T', '_', 'T', 'I', 'M', 'E'],
            SellingPlanRemainingBalanceChargeTrigger::NOREMAININGBALANCE => &['N', 'O', '_', 'R', 'E', 'M', 'A', 'I', 'N', 'I', 'N', 'G', '_', 'B', 'A', 'L', 'A', 'N', 'C', 'E'],
            SellingPlanRemainingBalanceChargeTrigger::TIMEAFTERCHECKOUT => &['T', 'I', 'M', 'E', '_', 'A', 'F', 'T', 'E', 'R', '_', 'C', 'H', 'E', 'C', 'K', 'O', 'U', 'T'],
        };
        string_from_slice(text)
    }
}

/// Reading back the text of a value gives the value again.
pub proof fn lemma_selling_plan_remaining_balance_charge_trigger_round_trip(v: SellingPlanRemainingBalanceChargeTrigger)
    ensures
        SellingPlanRemainingBalanceChargeTrigger::spec_from_str(v.spec_to_string()) == v,
{
    match v {
        SellingPlanRemainingBalanceChargeTrigger::EXACTTIME => {
            assert(seq!['E', 'X', 'A', 'C', 'T', '_', 'T', 'I', 'M', 'E'].len() != seq!['N', 'O', '_', 'R', 'E', 'M', 'A', 'I', 'N', 'I', 'N', 'G', '_', 'B', 'A', 'L', 'A', 'N', 'C', 'E'].len());
            assert(seq!['E', 'X', 'A', 'C', 'T', '_', 'T', 'I', 'M', 'E'].len() != seq!['n', 'o', '_', 'r', 'e', 'm', 'a', 'i', 'n', 'i', 'n', 'g', '_', 'b', 'a', 'l', 'a', 'n', 'c', 'e'].len());
            assert(seq!['E', 'X', 'A', 'C', 'T', '_', 'T', 'I', 'M', 'E'].len() != seq!['T', 'I', 'M', 'E', '_', 'A', 'F', 'T', 'E', 'R', '_', 'C', 'H', 'E', 'C', 'K', 'O', 'U', 'T'].len());
            assert(seq!['E', 'X', 'A', 'C', 'T', '_', 'T', 'I', 'M', 'E'].len() != seq!['t', 'i', 'm', 'e', '_', 'a', 'f', 't', 'e', 'r', '_', 'c', 'h', 'e', 'c', 'k', 'o', 'u', 't'].len());
        },
        SellingPlanRemainingBalanceChargeTrigger::NOREMAININGBALANCE => {},
        SellingPlanRemainingBalanceChargeTrigger::TIMEAFTERCHECKOUT => {},
    }
}

/// How a checkout charge is expressed.
#[derive(Debug, Clone, PartialEq, Eq, Structural)]
pub enum SellingPlanCheckoutChargeType {
    PERCENTAGE,
    PRICE,
}

/// A pricing-policy adjustment: a fixed amount or a percentage.
#[derive(Debug, Clone)]
pub enum SellingPlanPricingPolicyAdjustmentValue {
    MoneyV2(MoneyV2),
    SellingPlanPricingPolicyPercentageValue(SellingPlanPricingPolicyPercentageValue),
}

#[derive(Debug, Clone)]
pub struct SellingPlanGroupResourceInput {
    /// The IDs of the Products to add to the Selling Plan Group
    pub product_ids: Option<Vec<String>>,
    /// The IDs of the Variants to add to the Selling Plan Group
    pub product_variant_ids: Option<Vec<String>>,
}

#[derive(Debug, Clone)]
pub struct SellingPlanInventoryPolicyInput {
    pub reserve: Option<SellingPlanReserve>,
}

#[derive(Debug, Clone)]
pub struct SellingPlanRecurringDeliveryPolicyInput {
    pub anchors: Option<Vec<SellingPlanAnchorInput>>,
    /// a buffer period for orders to be included in cycle
    pub cutoff: Option<u32>,
    pub intent: Option<SellingPlanRecurringDeliveryPolicyIntent>,
    pub interval: Option<SellingPlanInterval>,
    /// number of intervals between deliveries
    pub interval_count: Option<u32>,
    pub pre_anchor_behavior: Option<SellingPlanRecurringDeliveryPolicyPreAnchorBehavior>,
}

#[derive(Debug, Clone)]
pub struct SellingPlanRecurringBillingPolicyInput {
    pub anchors: Option<Vec<SellingPlanAnchorInput>>,
    pub interval: Option<SellingPlanInterval>,
    /// number of intervals between billings
    pub intervalCount: Option<u32>,
    /// maximum number of billing iterations
    pub max_cycles: Option<u32>,
    /// minimum number of billing iterations
    pub min_cycles: Option<u32>,
}

#[derive(Debug, Clone)]
pub struct SellingPlanAnchorInput {
    pub cut_off_day: Option<u32>,
    pub day: Option<u32>,
    pub month: Option<u32>,
    pub selling_plan_anchor_type: SellingPlanAnchorType,
}

#[derive(Debug, Clone)]
pub struct SellingPlanAnchor {
    pub cut_off_day: Option<u32>,
    pub day: Option<u32>,
    pub month: Option<u32>,
    pub selling_plan_anchor_type: Option<SellingPlanAnchorType>,
}

#[derive(Debug, Clone)]
pub struct SellingPlanPricingPolicyPercentageValue {
    pub after_cycle: i32,
    pub computed_price: MoneyV2,
}

} // verus!
