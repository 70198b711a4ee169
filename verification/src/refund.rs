//! Refunds and order adjustments, with their GraphQL enum texts.
use vstd::prelude::*;
use crate::text::{chars_of, chars_equal, string_from_slice, to_uppercase, spec_to_uppercase};
use crate::text::{is_ascii_seq, spec_ascii_upper, lemma_ascii_upper_idempotent, lemma_ascii_upper_fixes};

use crate::PageInfo;
use crate::money::CurrencyCode;
use crate::money::Money;
use crate::money::MoneyBag;

use crate::orders::OrderTransactionKind;

verus! {

#[derive(Debug, Clone, PartialEq, Eq, Structural)]
pub enum RefundLineItemRestockType {
    /// `CANCEL`
    CANCEL,
    /// `LEGACY_RESTOCK`
    LEGACYRESTOCK,
    /// `NO_RESTOCK`
    NORESTOCK,
    /// `RETURN`
    RETURN,
}

impl RefundLineItemRestockType {
    /// The value `from_str` gives for the upper-cased text.
    pub open spec fn spec_from_str(s: Seq<char>) -> RefundLineItemRestockType {
        if s == seq!['C', 'A', 'N', 'C', 'E', 'L'] {
            RefundLineItemRestockType::CANCEL
        } else if s == seq!['L', 'E', 'G', 'A', 'C', 'Y', '_', 'R', 'E', 'S', 'T', 'O', 'C', 'K'] {
            RefundLineItemRestockType::LEGACYRESTOCK
        } else if s == seq!['N', 'O', '_', 'R', 'E', 'S', 'T', 'O', 'C', 'K'] {
            RefundLineItemRestockType::NORESTOCK
        } else {
            RefundLineItemRestockType::RETURN
        }
    }

    /// The text `to_string` gives for a value.
    pub open spec fn spec_to_string(self) -> Seq<char> {
        match self {
            RefundLineItemRestockType::CANCEL => seq!['C', 'A', 'N', 'C', 'E', 'L'],
            RefundLineItemRestockType::LEGACYRESTOCK => seq!['L', 'E', 'G', 'A', 'C', 'Y', '_', 'R', 'E', 'S', 'T', 'O', 'C', 'K'],
            RefundLineItemRestockType::NORESTOCK => seq!['N', 'O', '_', 'R', 'E', 'S', 'T', 'O', 'C', 'K'],
            RefundLineItemRestockType::RETURN => seq!['R', 'E', 'T', 'U', 'R', 'N'],
        }
    }

    /// Reads the GraphQL enum text, upper-cased first: "CANCEL" gives `CANCEL`; "LEGACY_RESTOCK" gives `LEGACYRESTOCK`; "NO_RESTOCK" gives `NORESTOCK`; any other text gives `RETURN`.
    pub fn from_str(status: &str) -> (r: RefundLineItemRestockType)
        ensures
            r == RefundLineItemRestockType::spec_from_str(spec_to_uppercase(status@)),
            is_ascii_seq(status@) ==> r == RefundLineItemRestockType::spec_from_str(spec_ascii_upper(status@)),
    {
        let upper = to_uppercase(status);
        let cs = chars_of(upper.as_str());
        if chars_equal(&cs, &['C', 'A', 'N', 'C', 'E', 'L']) {
            RefundLineItemRestockType::CANCEL
        } else if chars_equal(&cs, &['L', 'E', 'G', 'A', 'C', 'Y', '_', 'R', 'E', 'S', 'T', 'O', 'C', 'K']) {
            RefundLineItemRestockType::LEGACYRESTOCK
        } else if chars_equal(&cs, &['N', 'O', '_', 'R', 'E', 'S', 'T', 'O', 'C', 'K']) {
            RefundLineItemRestockType::NORESTOCK
        } else {
            RefundLineItemRestockType::RETURN
        }
    }

    /// The GraphQL enum text of the value.
    pub fn to_string(&self) -> (r: String)
        ensures
            r@ == self.spec_to_string(),
    {
        let text: &[char] = match self {
            RefundLineItemRestockType::CANCEL => &['C', 'A', 'N', 'C', 'E', 'L'],
            RefundLineItemRestockType::LEGACYRESTOCK => &['L', 'E', 'G', 'A', 'C', 'Y', '_', 'R', 'E', 'S', 'T', 'O', 'C', 'K'],
            RefundLineItemRestockType::NORESTOCK => &['N', 'O', '_', 'R', 'E', 'S', 'T', 'O', 'C', 'K'],
            RefundLineItemRestockType::RETURN => &['R', 'E', 'T', 'U', 'R', 'N'],
        };
        string_from_slice(text)
    }
}

/// The upper-cased text that `from_str` reads maps the text of each value back to that value.
pub proof fn lemma_refund_line_item_restock_type_round_trip(v: RefundLineItemRestockType)
    ensures
        RefundLineItemRestockType::spec_from_str(v.spec_to_string()) == v,
{
    match v {
        RefundLineItemRestockType::CANCEL => {},
        RefundLineItemRestockType::LEGACYRESTOCK => {},
        RefundLineItemRestockType::NORESTOCK => {},
        RefundLineItemRestockType::RETURN => {
            assert(seq!['R', 'E', 'T', 'U', 'R', 'N'][0] != seq!['C', 'A', 'N', 'C', 'E', 'L'][0]);
            assert(seq!['R', 'E', 'T', 'U', 'R', 'N'].len() != seq!['L', 'E', 'G', 'A', 'C', 'Y', '_', 'R', 'E', 'S', 'T', 'O', 'C', 'K'].len());
            assert(seq!['R', 'E', 'T', 'U', 'R', 'N'].len() != seq!['N', 'O', '_', 'R', 'E', 'S', 'T', 'O', 'C', 'K'].len());
        },
    }
}

/// ASCII text is read whatever the case of its letters: upper-casing the
/// text first changes nothing in what `from_str` gives.
pub proof fn lemma_refund_line_item_restock_type_ignores_case(s: Seq<char>)
    requires
        is_ascii_seq(s),
    ensures
        is_ascii_seq(spec_ascii_upper(s)),
        RefundLineItemRestockType::spec_from_str(spec_ascii_upper(spec_ascii_upper(s)))
            == RefundLineItemRestockType::spec_from_str(spec_ascii_upper(s)),
{
    lemma_ascii_upper_idempotent(s);
}

/// `from_str` reads the text `to_string` gives for a value back to that
/// value: the text is ASCII and upper-casing leaves it as it is.
pub proof fn lemma_refund_line_item_restock_type_text_round_trip(v: RefundLineItemRestockType)
    ensures
        is_ascii_seq(v.spec_to_string()),
        RefundLineItemRestockType::spec_from_str(spec_ascii_upper(v.spec_to_string())) == v,
{
    lemma_ascii_upper_fixes(v.spec_to_string());
    lemma_refund_line_item_restock_type_round_trip(v);
}

#[derive(Debug, Clone, PartialEq, Eq, Structural)]
pub enum RefundDutyRefundType {
    /// `FULL`
    FULL,
    /// `PROPORTIONAL`
    PROPORTIONAL,
}

impl RefundDutyRefundType {
    /// The value `from_str` gives for the upper-cased text.
    pub open spec fn spec_from_str(s: Seq<char>) -> RefundDutyRefundType {
        if s == seq!['P', 'R', 'O', 'P', 'O', 'R', 'T', 'I', 'O', 'N', 'A', 'L'] {
            RefundDutyRefundType::PROPORTIONAL
        } else {
            RefundDutyRefundType::FULL
        }
    }

    /// The text `to_string` gives for a value.
    pub open spec fn spec_to_string(self) -> Seq<char> {
        match self {
            RefundDutyRefundType::FULL => seq!['F', 'U', 'L', 'L'],
            RefundDutyRefundType::PROPORTIONAL => seq!['P', 'R', 'O', 'P', 'O', 'R', 'T', 'I', 'O', 'N', 'A', 'L'],
        }
    }

    /// Reads the GraphQL enum text, upper-cased first: "PROPORTIONAL" gives `PROPORTIONAL`; any other text gives `FULL`.
    pub fn from_str(status: &str) -> (r: RefundDutyRefundType)
        ensures
            r == RefundDutyRefundType::spec_from_str(spec_to_uppercase(status@)),
            is_ascii_seq(status@) ==> r == RefundDutyRefundType::spec_from_str(spec_ascii_upper(status@)),
    {
        let upper = to_uppercase(status);
        let cs = chars_of(upper.as_str());
        if chars_equal(&cs, &['P', 'R', 'O', 'P', 'O', 'R', 'T', 'I', 'O', 'N', 'A', 'L']) {
            RefundDutyRefundType::PROPORTIONAL
        } else {
            RefundDutyRefundType::FULL
        }
    }

    /// The GraphQL enum text of the value.
    pub fn to_string(&self) -> (r: String)
        ensures
            r@ == self.spec_to_string(),
    {
        let text: &[char] = match self {
            RefundDutyRefundType::FULL => &['F', 'U', 'L', 'L'],
            RefundDutyRefundType::PROPORTIONAL => &['P', 'R', 'O', 'P', 'O', 'R', 'T', 'I', 'O', 'N', 'A', 'L'],
        };
        string_from_slice(text)
    }
}

/// The upper-cased text that `from_str` reads maps the text of each value back to that value.
pub proof fn lemma_refund_duty_refund_type_round_trip(v: RefundDutyRefundType)
    ensures
        RefundDutyRefundType::spec_from_str(v.spec_to_string()) == v,
{
    match v {
        RefundDutyRefundType::FULL => {
            assert(seq!['F', 'U', 'L', 'L'].len() != seq!['P', 'R', 'O', 'P', 'O', 'R', 'T', 'I', 'O', 'N', 'A', 'L'].len());
        },
        RefundDutyRefundType::PROPORTIONAL => {},
    }
}

/// ASCII text is read whatever the case of its letters: upper-casing the
/// text first changes nothing in what `from_str` gives.
pub proof fn lemma_refund_duty_refund_type_ignores_case(s: Seq<char>)
    requires
        is_ascii_seq(s),
    ensures
        is_ascii_seq(spec_ascii_upper(s)),
        RefundDutyRefundType::spec_from_str(spec_ascii_upper(spec_ascii_upper(s)))
            == RefundDutyRefundType::spec_from_str(spec_ascii_upper(s)),
{
    lemma_ascii_upper_idempotent(s);
}

/// `from_str` reads the text `to_string` gives for a value back to that
/// value: the text is ASCII and upper-casing leaves it as it is.
pub proof fn lemma_refund_duty_refund_type_text_round_trip(v: RefundDutyRefundType)
    ensures
        is_ascii_seq(v.spec_to_string()),
        RefundDutyRefundType::spec_from_str(spec_ascii_upper(v.spec_to_string())) == v,
{
    lemma_ascii_upper_fixes(v.spec_to_string());
    lemma_refund_duty_refund_type_round_trip(v);
}

#[derive(Debug, Clone, PartialEq, Eq, Structural)]
pub enum OrderAdjustmentInputDiscrepancyReason {
    /// `CUSTOMER`
    CUSTOMER,
    /// `DAMAGE`
    DAMAGE,
    /// `OTHER`
    OTHER,
    /// `RESTOCK`
    RESTOCK,
}

impl OrderAdjustmentInputDiscrepancyReason {
    /// The value `from_str` gives for the upper-cased text.
    pub open spec fn spec_from_str(s: Seq<char>) -> OrderAdjustmentInputDiscrepancyReason {
        if s == seq!['C', 'U', 'S', 'T', 'O', 'M', 'E', 'R'] {
            OrderAdjustmentInputDiscrepancyReason::CUSTOMER
        } else if s == seq!['D', 'A', 'M', 'A', 'G', 'E'] {
            OrderAdjustmentInputDiscrepancyReason::DAMAGE
        } else if s == seq!['R', 'E', 'S', 'T', 'O', 'C', 'K'] {
            OrderAdjustmentInputDiscrepancyReason::RESTOCK
        } else {
            OrderAdjustmentInputDiscrepancyReason::OTHER
        }
    }

    /// The text `to_string` gives for a value.
    pub open spec fn spec_to_string(self) -> Seq<char> {
        match self {
            OrderAdjustmentInputDiscrepancyReason::CUSTOMER => seq!['C', 'U', 'S', 'T', 'O', 'M', 'E', 'R'],
            OrderAdjustmentInputDiscrepancyReason::DAMAGE => seq!['D', 'A', 'M', 'A', 'G', 'E'],
            OrderAdjustmentInputDiscrepancyReason::OTHER => seq!['O', 'T', 'H', 'E', 'R'],
            OrderAdjustmentInputDiscrepancyReason::RESTOCK => seq!['R', 'E', 'S', 'T', 'O', 'C', 'K'],
        }
    }

    /// Reads the GraphQL enum text, upper-cased first: "CUSTOMER" gives `CUSTOMER`; "DAMAGE" gives `DAMAGE`; "RESTOCK" gives `RESTOCK`; any other text gives `OTHER`.
    pub fn from_str(status: &str) -> (r: OrderAdjustmentInputDiscrepancyReason)
        ensures
            r == OrderAdjustmentInputDiscrepancyReason::spec_from_str(spec_to_uppercase(status@)),
            is_ascii_seq(status@) ==> r == OrderAdjustmentInputDiscrepancyReason::spec_from_str(spec_ascii_upper(status@)),
    {
        let upper = to_uppercase(status);
        let cs = chars_of(upper.as_str());
        if chars_equal(&cs, &['C', 'U', 'S', 'T', 'O', 'M', 'E', 'R']) {
            OrderAdjustmentInputDiscrepancyReason::CUSTOMER
        } else if chars_equal(&cs, &['D', 'A', 'M', 'A', 'G', 'E']) {
            OrderAdjustmentInputDiscrepancyReason::DAMAGE
        } else if chars_equal(&cs, &['R', 'E', 'S', 'T', 'O', 'C', 'K']) {
            OrderAdjustmentInputDiscrepancyReason::RESTOCK
        } else {
            OrderAdjustmentInputDiscrepancyReason::OTHER
        }
    }

    /// The GraphQL enum text of the value.
    pub fn to_string(&self) -> (r: String)
        ensures
            r@ == self.spec_to_string(),
    {
        let text: &[char] = match self {
            OrderAdjustmentInputDiscrepancyReason::CUSTOMER => &['C', 'U', 'S', 'T', 'O', 'M', 'E', 'R'],
            OrderAdjustmentInputDiscrepancyReason::DAMAGE => &['D', 'A', 'M', 'A', 'G', 'E'],
            OrderAdjustmentInputDiscrepancyReason::OTHER => &['O', 'T', 'H', 'E', 'R'],
            OrderAdjustmentInputDiscrepancyReason::RESTOCK => &['R', 'E', 'S', 'T', 'O', 'C', 'K'],
        };
        string_from_slice(text)
    }
}

/// The upper-cased text that `from_str` reads maps the text of each value back to that value.
pub proof fn lemma_order_adjustment_input_discrepancy_reason_round_trip(v: OrderAdjustmentInputDiscrepancyReason)
    ensures
        OrderAdjustmentInputDiscrepancyReason::spec_from_str(v.spec_to_string()) == v,
{
    match v {
        OrderAdjustmentInputDiscrepancyReason::CUSTOMER => {},
        OrderAdjustmentInputDiscrepancyReason::DAMAGE => {},
        OrderAdjustmentInputDiscrepancyReason::OTHER => {
            assert(seq!['O', 'T', 'H', 'E', 'R'].len() != seq!['C', 'U', 'S', 'T', 'O', 'M', 'E', 'R'].len());
            assert(seq!['O', 'T', 'H', 'E', 'R'].len() != seq!['D', 'A', 'M', 'A', 'G', 'E'].len());
            assert(seq!['O', 'T', 'H', 'E', 'R'].len() != seq!['R', 'E', 'S', 'T', 'O', 'C', 'K'].len());
        },
        OrderAdjustmentInputDiscrepancyReason::RESTOCK => {},
    }
}

/// ASCII text is read whatever the case of its letters: upper-casing the
/// text first changes nothing in what `from_str` gives.
pub proof fn lemma_order_adjustment_input_discrepancy_reason_ignores_case(s: Seq<char>)
    requires
        is_ascii_seq(s),
    ensures
        is_ascii_seq(spec_ascii_upper(s)),
        OrderAdjustmentInputDiscrepancyReason::spec_from_str(spec_ascii_upper(spec_ascii_upper(s)))
            == OrderAdjustmentInputDiscrepancyReason::spec_from_str(spec_ascii_upper(s)),
{
    lemma_ascii_upper_idempotent(s);
}

/// `from_str` reads the text `to_string` gives for a value back to that
/// value: the text is ASCII and upper-casing leaves it as it is.
pub proof fn lemma_order_adjustment_input_discrepancy_reason_text_round_trip(v: OrderAdjustmentInputDiscrepancyReason)
    ensures
        is_ascii_seq(v.spec_to_string()),
        OrderAdjustmentInputDiscrepancyReason::spec_from_str(spec_ascii_upper(v.spec_to_string())) == v,
{
    lemma_ascii_upper_fixes(v.spec_to_string());
    lemma_order_adjustment_input_discrepancy_reason_round_trip(v);
}

#[derive(Debug, Clone, PartialEq, Eq, Structural)]
pub enum OrderAdjustmentDiscrepancyReason {
    /// `CUSTOMER`
    CUSTOMER,
    /// `DAMAGE`
    DAMAGE,
    /// `FULL_RETURN_BALANCING_ADJUSTMENT`
    FULLRETURNBALANCINGADJUSTMENT,
    /// `PENDING_REFUND_ADJUSTMENT`
    PENDINGREFUNDDISCREPANCY,
    /// `REFUND_DISCREPANCY`
    REFUNDDISCREPANCY,
    /// `RESTOCK`
    RESTOCK,
}

impl OrderAdjustmentDiscrepancyReason {
    /// The value `from_str` gives for the upper-cased text.
    pub open spec fn spec_from_str(s: Seq<char>) -> OrderAdjustmentDiscrepancyReason {
        if s == seq!['C', 'U', 'S', 'T', 'O', 'M', 'E', 'R'] {
            OrderAdjustmentDiscrepancyReason::CUSTOMER
        } else if s == seq!['D', 'A', 'M', 'A', 'G', 'E'] {
            OrderAdjustmentDiscrepancyReason::DAMAGE
        } else if s == seq!['F', 'U', 'L', 'L', '_', 'R', 'E', 'T', 'U', 'R', 'N', '_', 'B', 'A', 'L', 'A', 'N', 'C', 'I', 'N', 'G', '_', 'A', 'D', 'J', 'U', 'S', 'T', 'M', 'E', 'N', 'T'] {
            OrderAdjustmentDiscrepancyReason::FULLRETURNBALANCINGADJUSTMENT
        } else if s == seq!['P', 'E', 'N', 'D', 'I', 'N', 'G', '_', 'R', 'E', 'F', 'U', 'N', 'D', '_', 'A', 'D', 'J', 'U', 'S', 'T', 'M', 'E', 'N', 'T'] {
            OrderAdjustmentDiscrepancyReason::PENDINGREFUNDDISCREPANCY
        } else if s == seq!['R', 'E', 'F', 'U', 'N', 'D', '_', 'D', 'I', 'S', 'C', 'R', 'E', 'P', 'A', 'N', 'C', 'Y'] {
            OrderAdjustmentDiscrepancyReason::REFUNDDISCREPANCY
        } else {
            OrderAdjustmentDiscrepancyReason::RESTOCK
        }
    }

    /// The text `to_string` gives for a value.
    pub open spec fn spec_to_string(self) -> Seq<char> {
        match self {
            OrderAdjustmentDiscrepancyReason::CUSTOMER => seq!['C', 'U', 'S', 'T', 'O', 'M', 'E', 'R'],
            OrderAdjustmentDiscrepancyReason::DAMAGE => seq!['D', 'A', 'M', 'A', 'G', 'E'],
            OrderAdjustmentDiscrepancyReason::FULLRETURNBALANCINGADJUSTMENT => seq!['F', 'U', 'L', 'L', '_', 'R', 'E', 'T', 'U', 'R', 'N', '_', 'B', 'A', 'L', 'A', 'N', 'C', 'I', 'N', 'G', '_', 'A', 'D', 'J', 'U', 'S', 'T', 'M', 'E', 'N', 'T'],
            OrderAdjustmentDiscrepancyReason::PENDINGREFUNDDISCREPANCY => seq!['P', 'E', 'N', 'D', 'I', 'N', 'G', '_', 'R', 'E', 'F', 'U', 'N', 'D', '_', 'A', 'D', 'J', 'U', 'S', 'T', 'M', 'E', 'N', 'T'],
            OrderAdjustmentDiscrepancyReason::REFUNDDISCREPANCY => seq!['R', 'E', 'F', 'U', 'N', 'D', '_', 'D', 'I', 'S', 'C', 'R', 'E', 'P', 'A', 'N', 'C', 'Y'],
            OrderAdjustmentDiscrepancyReason::RESTOCK => seq!['R', 'E', 'S', 'T', 'O', 'C', 'K'],
        }
    }

    /// Reads the GraphQL enum text, upper-cased first: "CUSTOMER" gives `CUSTOMER`; "DAMAGE" gives `DAMAGE`; "FULL_RETURN_BALANCING_ADJUSTMENT" gives `FULLRETURNBALANCINGADJUSTMENT`; "PENDING_REFUND_ADJUSTMENT" gives `PENDINGREFUNDDISCREPANCY`; "REFUND_DISCREPANCY" gives `REFUNDDISCREPANCY`; any other text gives `RESTOCK`.
    pub fn from_str(status: &str) -> (r: OrderAdjustmentDiscrepancyReason)
        ensures
            r == OrderAdjustmentDiscrepancyReason::spec_from_str(spec_to_uppercase(status@)),
            is_ascii_seq(status@) ==> r == OrderAdjustmentDiscrepancyReason::spec_from_str(spec_ascii_upper(status@)),
    {
        let upper = to_uppercase(status);
        let cs = chars_of(upper.as_str());
        if chars_equal(&cs, &['C', 'U', 'S', 'T', 'O', 'M', 'E', 'R']) {
            OrderAdjustmentDiscrepancyReason::CUSTOMER
        } else if chars_equal(&cs, &['D', 'A', 'M', 'A', 'G', 'E']) {
            OrderAdjustmentDiscrepancyReason::DAMAGE
        } else if chars_equal(&cs, &['F', 'U', 'L', 'L', '_', 'R', 'E', 'T', 'U', 'R', 'N', '_', 'B', 'A', 'L', 'A', 'N', 'C', 'I', 'N', 'G', '_', 'A', 'D', 'J', 'U', 'S', 'T', 'M', 'E', 'N', 'T']) {
            OrderAdjustmentDiscrepancyReason::FULLRETURNBALANCINGADJUSTMENT
        } else if chars_equal(&cs, &['P', 'E', 'N', 'D', 'I', 'N', 'G', '_', 'R', 'E', 'F', 'U', 'N', 'D', '_', 'A', 'D', 'J', 'U', 'S', 'T', 'M', 'E', 'N', 'T']) {
            OrderAdjustmentDiscrepancyReason::PENDINGREFUNDDISCREPANCY
        } else if chars_equal(&cs, &['R', 'E', 'F', 'U', 'N', 'D', '_', 'D', 'I', 'S', 'C', 'R', 'E', 'P', 'A', 'N', 'C', 'Y']) {
            OrderAdjustmentDiscrepancyReason::REFUNDDISCREPANCY
        } else {
            OrderAdjustmentDiscrepancyReason::RESTOCK
        }
    }

    /// The GraphQL enum text of the value.
    pub fn to_string(&self) -> (r: String)
        ensures
            r@ == self.spec_to_string(),
    {
        let text: &[char] = match self {
            OrderAdjustmentDiscrepancyReason::CUSTOMER => &['C', 'U', 'S', 'T', 'O', 'M', 'E', 'R'],
            OrderAdjustmentDiscrepancyReason::DAMAGE => &['D', 'A', 'M', 'A', 'G', 'E'],
            OrderAdjustmentDiscrepancyReason::FULLRETURNBALANCINGADJUSTMENT => &['F', 'U', 'L', 'L', '_', 'R', 'E', 'T', 'U', 'R', 'N', '_', 'B', 'A', 'L', 'A', 'N', 'C', 'I', 'N', 'G', '_', 'A', 'D', 'J', 'U', 'S', 'T', 'M', 'E', 'N', 'T'],
            OrderAdjustmentDiscrepancyReason::PENDINGREFUNDDISCREPANCY => &['P', 'E', 'N', 'D', 'I', 'N', 'G', '_', 'R', 'E', 'F', 'U', 'N', 'D', '_', 'A', 'D', 'J', 'U', 'S', 'T', 'M', 'E', 'N', 'T'],
            OrderAdjustmentDiscrepancyReason::REFUNDDISCREPANCY => &['R', 'E', 'F', 'U', 'N', 'D', '_', 'D', 'I', 'S', 'C', 'R', 'E', 'P', 'A', 'N', 'C', 'Y'],
            OrderAdjustmentDiscrepancyReason::RESTOCK => &['R', 'E', 'S', 'T', 'O', 'C', 'K'],
        };
        string_from_slice(text)
    }
}

/// The upper-cased text that `from_str` reads maps the text of each value back to that value.
pub proof fn lemma_order_adjustment_discrepancy_reason_round_trip(v: OrderAdjustmentDiscrepancyReason)
    ensures
        OrderAdjustmentDiscrepancyReason::spec_from_str(v.spec_to_string()) == v,
{
    match v {
        OrderAdjustmentDiscrepancyReason::CUSTOMER => {},
        OrderAdjustmentDiscrepancyReason::DAMAGE => {},
        OrderAdjustmentDiscrepancyReason::FULLRETURNBALANCINGADJUSTMENT => {},
        OrderAdjustmentDiscrepancyReason::PENDINGREFUNDDISCREPANCY => {},
        OrderAdjustmentDiscrepancyReason::REFUNDDISCREPANCY => {},
        OrderAdjustmentDiscrepancyReason::RESTOCK => {
            assert(seq!['R', 'E', 'S', 'T', 'O', 'C', 'K'].len() != seq!['C', 'U', 'S', 'T', 'O', 'M', 'E', 'R'].len());
            assert(seq!['R', 'E', 'S', 'T', 'O', 'C', 'K'].len() != seq!['D', 'A', 'M', 'A', 'G', 'E'].len());
            assert(seq!['R', 'E', 'S', 'T', 'O', 'C', 'K'].len() != seq!['F', 'U', 'L', 'L', '_', 'R', 'E', 'T', 'U', 'R', 'N', '_', 'B', 'A', 'L', 'A', 'N', 'C', 'I', 'N', 'G', '_', 'A', 'D', 'J', 'U', 'S', 'T', 'M', 'E', 'N', 'T'].len());
            assert(seq!['R', 'E', 'S', 'T', 'O', 'C', 'K'].len() != seq!['P', 'E', 'N', 'D', 'I', 'N', 'G', '_', 'R', 'E', 'F', 'U', 'N', 'D', '_', 'A', 'D', 'J', 'U', 'S', 'T', 'M', 'E', 'N', 'T'].len());
            assert(seq!['R', 'E', 'S', 'T', 'O', 'C', 'K'].len() != seq!['R', 'E', 'F', 'U', 'N', 'D', '_', 'D', 'I', 'S', 'C', 'R', 'E', 'P', 'A', 'N', 'C', 'Y'].len());
        },
    }
}

/// ASCII text is read whatever the case of its letters: upper-casing the
/// text first changes nothing in what `from_str` gives.
pub proof fn lemma_order_adjustment_discrepancy_reason_ignores_case(s: Seq<char>)
    requires
        is_ascii_seq(s),
    ensures
        is_ascii_seq(spec_ascii_upper(s)),
        OrderAdjustmentDiscrepancyReason::spec_from_str(spec_ascii_upper(spec_ascii_upper(s)))
            == OrderAdjustmentDiscrepancyReason::spec_from_str(spec_ascii_upper(s)),
{
    lemma_ascii_upper_idempotent(s);
}

/// `from_str` reads the text `to_string` gives for a value back to that
/// value: the text is ASCII and upper-casing leaves it as it is.
pub proof fn lemma_order_adjustment_discrepancy_reason_text_round_trip(v: OrderAdjustmentDiscrepancyReason)
    ensures
        is_ascii_seq(v.spec_to_string()),
        OrderAdjustmentDiscrepancyReason::spec_from_str(spec_ascii_upper(v.spec_to_string())) == v,
{
    lemma_ascii_upper_fixes(v.spec_to_string());
    lemma_order_adjustment_discrepancy_reason_round_trip(v);
}

#[derive(Debug, Clone)]
pub struct RefundInput {
    pub currency: Option<CurrencyCode>,
    pub discrepancy_reason: Option<OrderAdjustmentInputDiscrepancyReason>,
    pub note: Option<String>,
    pub notify: Option<bool>,
    pub order_id: Option<String>,
    pub refund_duties: Option<Vec<RefundDutyInput>>,
    pub refund_line_items: Option<Vec<RefundLineItemInput>>,
    pub shipping: Option<ShippingRefundInput>,
    pub transactions: Option<Vec<OrderTransactionInput>>,
}

#[derive(Debug, Clone)]
pub struct OrderTransactionInput {
    pub amount: Option<Money>,
    pub gateway: Option<String>,
    pub kind: Option<OrderTransactionKind>,
    pub order_id: Option<String>,
    pub parent_id: Option<String>,
}

#[derive(Debug, Clone)]
pub struct ShippingRefundInput {
    pub amount: Option<Money>,
    pub full_refund: Option<bool>,
}

#[derive(Debug, Clone)]
pub struct RefundLineItemInput {
    pub line_item_id: Option<String>,
    pub location_id: Option<String>,
    pub quantity: Option<u32>,
    pub restock_type: Option<RefundLineItemRestockType>,
}

#[derive(Debug, Clone)]
pub struct RefundDutyInput {
    pub duty_id: Option<String>,
    pub refund_type: Option<RefundDutyRefundType>,
}

#[derive(Debug, Clone)]
pub struct OrderAdjustmentConnection {
    pub edges: Option<Vec<OrderAdjustmentEdge>>,
    pub page_info: Option<PageInfo>,
}

#[derive(Debug, Clone)]
pub struct OrderAdjustmentEdge {
    pub node: Option<OrderAdjustment>,
    pub cursor: Option<String>,
}

#[derive(Debug, Clone)]
pub struct OrderAdjustment {
    pub amount_set: Option<MoneyBag>,
    pub id: Option<String>,
    pub reason: Option<OrderAdjustmentDiscrepancyReason>,
    pub tax_amount_set: Option<MoneyBag>,
}

} // verus!
