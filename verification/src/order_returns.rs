//! Returns, with their GraphQL enum texts.
use vstd::prelude::*;
use crate::text::{chars_of, chars_equal, string_from_slice, to_uppercase, spec_to_uppercase};
use crate::text::{is_ascii_seq, spec_ascii_upper, lemma_ascii_upper_idempotent, lemma_ascii_upper_fixes};

use crate::PageInfo;
use crate::money::MoneyBag;

use crate::refund::RefundDutyInput;

verus! {

#[derive(Debug, Clone, PartialEq, Eq, Structural)]
pub enum ReturnStatus {
    /// `CANCELED`
    CANCELED,
    /// `CLOSED`
    CLOSED,
    /// `DECLINED`
    DECLINED,
    /// `OPEN`
    OPEN,
    /// `REQUESTED`
    REQUESTED,
}

impl ReturnStatus {
    /// The value `from_str` gives for the upper-cased text.
    pub open spec fn spec_from_str(s: Seq<char>) -> ReturnStatus {
        if s == seq!['C', 'A', 'N', 'C', 'E', 'L', 'E', 'D'] {
            ReturnStatus::CANCELED
        } else if s == seq!['C', 'L', 'O', 'S', 'E', 'D'] {
            ReturnStatus::CLOSED
        } else if s == seq!['D', 'E', 'C', 'L', 'I', 'N', 'E', 'D'] {
            ReturnStatus::DECLINED
        } else if s == seq!['O', 'P', 'E', 'N'] {
            ReturnStatus::OPEN
        } else {
            ReturnStatus::REQUESTED
        }
    }

    /// The text `to_string` gives for a value.
    pub open spec fn spec_to_string(self) -> Seq<char> {
        match self {
            ReturnStatus::CANCELED => seq!['C', 'A', 'N', 'C', 'E', 'L', 'E', 'D'],
            ReturnStatus::CLOSED => seq!['C', 'L', 'O', 'S', 'E', 'D'],
            ReturnStatus::DECLINED => seq!['D', 'E', 'C', 'L', 'I', 'N', 'E', 'D'],
            ReturnStatus::OPEN => seq!['O', 'P', 'E', 'N'],
            ReturnStatus::REQUESTED => seq!['R', 'E', 'Q', 'U', 'E', 'S', 'T', 'E', 'D'],
        }
    }

    /// Reads the GraphQL enum text, upper-cased first: "CANCELED" gives `CANCELED`; "CLOSED" gives `CLOSED`; "DECLINED" gives `DECLINED`; "OPEN" gives `OPEN`; any other text gives `REQUESTED`.
    pub fn from_str(status: &str) -> (r: ReturnStatus)
        ensures
            r == ReturnStatus::spec_from_str(spec_to_uppercase(status@)),
            is_ascii_seq(status@) ==> r == ReturnStatus::spec_from_str(spec_ascii_upper(status@)),
    {
        let upper = to_uppercase(status);
        let cs = chars_of(upper.as_str());
        if chars_equal(&cs, &['C', 'A', 'N', 'C', 'E', 'L', 'E', 'D']) {
            ReturnStatus::CANCELED
        } else if chars_equal(&cs, &['C', 'L', 'O', 'S', 'E', 'D']) {
            ReturnStatus::CLOSED
        } else if chars_equal(&cs, &['D', 'E', 'C', 'L', 'I', 'N', 'E', 'D']) {
            ReturnStatus::DECLINED
        } else if chars_equal(&cs, &['O', 'P', 'E', 'N']) {
            ReturnStatus::OPEN
        } else {
            ReturnStatus::REQUESTED
        }
    }

    /// The GraphQL enum text of the value.
    pub fn to_string(&self) -> (r: String)
        ensures
            r@ == self.spec_to_string(),
    {
        let text: &[char] = match self {
            ReturnStatus::CANCELED => &['C', 'A', 'N', 'C', 'E', 'L', 'E', 'D'],
            ReturnStatus::CLOSED => &['C', 'L', 'O', 'S', 'E', 'D'],
            ReturnStatus::DECLINED => &['D', 'E', 'C', 'L', 'I', 'N', 'E', 'D'],
            ReturnStatus::OPEN => &['O', 'P', 'E', 'N'],
            ReturnStatus::REQUESTED => &['R', 'E', 'Q', 'U', 'E', 'S', 'T', 'E', 'D'],
        };
        string_from_slice(text)
    }
}

/// The upper-cased text that `from_str` reads maps the text of each value back to that value.
pub proof fn lemma_return_status_round_trip(v: ReturnStatus)
    ensures
        ReturnStatus::spec_from_str(v.spec_to_string()) == v,
{
    match v {
        ReturnStatus::CANCELED => {},
        ReturnStatus::CLOSED => {},
        ReturnStatus::DECLINED => {
            assert(seq!['D', 'E', 'C', 'L', 'I', 'N', 'E', 'D'][0] != seq!['C', 'A', 'N', 'C', 'E', 'L', 'E', 'D'][0]);
        },
        ReturnStatus::OPEN => {},
        ReturnStatus::REQUESTED => {
            assert(seq!['R', 'E', 'Q', 'U', 'E', 'S', 'T', 'E', 'D'].len() != seq!['C', 'A', 'N', 'C', 'E', 'L', 'E', 'D'].len());
            assert(seq!['R', 'E', 'Q', 'U', 'E', 'S', 'T', 'E', 'D'].len() != seq!['C', 'L', 'O', 'S', 'E', 'D'].len());
            assert(seq!['R', 'E', 'Q', 'U', 'E', 'S', 'T', 'E', 'D'].len() != seq!['D', 'E', 'C', 'L', 'I', 'N', 'E', 'D'].len());
            assert(seq!['R', 'E', 'Q', 'U', 'E', 'S', 'T', 'E', 'D'].len() != seq!['O', 'P', 'E', 'N'].len());
        },
    }
}

/// ASCII text is read whatever the case of its letters: upper-casing the
/// text first changes nothing in what `from_str` gives.
pub proof fn lemma_return_status_ignores_case(s: Seq<char>)
    requires
        is_ascii_seq(s),
    ensures
        is_ascii_seq(spec_ascii_upper(s)),
        ReturnStatus::spec_from_str(spec_ascii_upper(spec_ascii_upper(s)))
            == ReturnStatus::spec_from_str(spec_ascii_upper(s)),
{
    lemma_ascii_upper_idempotent(s);
}

/// `from_str` reads the text `to_string` gives for a value back to that
/// value: the text is ASCII and upper-casing leaves it as it is.
pub proof fn lemma_return_status_text_round_trip(v: ReturnStatus)
    ensures
        is_ascii_seq(v.spec_to_string()),
        ReturnStatus::spec_from_str(spec_ascii_upper(v.spec_to_string())) == v,
{
    lemma_ascii_upper_fixes(v.spec_to_string());
    lemma_return_status_round_trip(v);
}

#[derive(Debug, Clone, PartialEq, Eq, Structural)]
pub enum ReturnReason {
    /// `COLOR`
    COLOR,
    /// `DEFECTIVE`
    DEFECTIVE,
    /// `NOT_AS_DESCRIBED`
    NOTASDESCRIBED,
    /// `OTHER`
    OTHER,
    /// `SIZE_TOO_LARGE`
    SIZETOOLARGE,
    /// `SIZE_TOO_SMALL`
    SIZETOOSMALL,
    /// `STYLE`
    STYLE,
    /// `UNKNOWN`
    UNKNOWN,
    /// `UNWANTED`
    UNWANTED,
    /// `WRONG_ITEM`
    WRONGITEM,
}

impl ReturnReason {
    /// The value `from_str` gives for the upper-cased text.
    pub open spec fn spec_from_str(s: Seq<char>) -> ReturnReason {
        if s == seq!['C', 'O', 'L', 'O', 'R'] {
            ReturnReason::COLOR
        } else if s == seq!['D', 'E', 'F', 'E', 'C', 'T', 'I', 'V', 'E'] {
            ReturnReason::DEFECTIVE
        } else if s == seq!['N', 'O', 'T', '_', 'A', 'S', '_', 'D', 'E', 'S', 'C', 'R', 'I', 'B', 'E', 'D'] {
            ReturnReason::NOTASDESCRIBED
        } else if s == seq!['O', 'T', 'H', 'E', 'R'] {
            ReturnReason::OTHER
        } else if s == seq!['S', 'I', 'Z', 'E', '_', 'T', 'O', 'O', '_', 'L', 'A', 'R', 'G', 'E'] {
            ReturnReason::SIZETOOLARGE
        } else if s == seq!['S', 'I', 'Z', 'E', '_', 'T', 'O', 'O', '_', 'S', 'M', 'A', 'L', 'L'] {
            ReturnReason::SIZETOOSMALL
        } else if s == seq!['S', 'T', 'Y', 'L', 'E'] {
            ReturnReason::STYLE
        } else if s == seq!['U', 'N', 'W', 'A', 'N', 'T', 'E', 'D'] {
            ReturnReason::UNWANTED
        } else if s == seq!['W', 'R', 'O', 'N', 'G', '_', 'I', 'T', 'E', 'M'] {
            ReturnReason::WRONGITEM
        } else {
            ReturnReason::UNKNOWN
        }
    }

    /// The text `to_string` gives for a value.
    pub open spec fn spec_to_string(self) -> Seq<char> {
        match self {
            ReturnReason::COLOR => seq!['C', 'O', 'L', 'O', 'R'],
            ReturnReason::DEFECTIVE => seq!['D', 'E', 'F', 'E', 'C', 'T', 'I', 'V', 'E'],
            ReturnReason::NOTASDESCRIBED => seq!['N', 'O', 'T', '_', 'A', 'S', '_', 'D', 'E', 'S', 'C', 'R', 'I', 'B', 'E', 'D'],
            ReturnReason::OTHER => seq!['O', 'T', 'H', 'E', 'R'],
            ReturnReason::SIZETOOLARGE => seq!['S', 'I', 'Z', 'E', '_', 'T', 'O', 'O', '_', 'L', 'A', 'R', 'G', 'E'],
            ReturnReason::SIZETOOSMALL => seq!['S', 'I', 'Z', 'E', '_', 'T', 'O', 'O', '_', 'S', 'M', 'A', 'L', 'L'],
            ReturnReason::STYLE => seq!['S', 'T', 'Y', 'L', 'E'],
            ReturnReason::UNKNOWN => seq!['U', 'N', 'K', 'N', 'O', 'W', 'N'],
            ReturnReason::UNWANTED => seq!['U', 'N', 'W', 'A', 'N', 'T', 'E', 'D'],
            ReturnReason::WRONGITEM => seq!['W', 'R', 'O', 'N', 'G', '_', 'I', 'T', 'E', 'M'],
        }
    }

    /// Reads the GraphQL enum text, upper-cased first: "COLOR" gives `COLOR`; "DEFECTIVE" gives `DEFECTIVE`; "NOT_AS_DESCRIBED" gives `NOTASDESCRIBED`; "OTHER" gives `OTHER`; "SIZE_TOO_LARGE" gives `SIZETOOLARGE`; "SIZE_TOO_SMALL" gives `SIZETOOSMALL`; "STYLE" gives `STYLE`; "UNWANTED" gives `UNWANTED`; "WRONG_ITEM" gives `WRONGITEM`; any other text gives `UNKNOWN`.
    pub fn from_str(status: &str) -> (r: ReturnReason)
        ensures
            r == ReturnReason::spec_from_str(spec_to_uppercase(status@)),
            is_ascii_seq(status@) ==> r == ReturnReason::spec_from_str(spec_ascii_upper(status@)),
    {
        let upper = to_uppercase(status);
        let cs = chars_of(upper.as_str());
        if chars_equal(&cs, &['C', 'O', 'L', 'O', 'R']) {
            ReturnReason::COLOR
        } else if chars_equal(&cs, &['D', 'E', 'F', 'E', 'C', 'T', 'I', 'V', 'E']) {
            ReturnReason::DEFECTIVE
        } else if chars_equal(&cs, &['N', 'O', 'T', '_', 'A', 'S', '_', 'D', 'E', 'S', 'C', 'R', 'I', 'B', 'E', 'D']) {
            ReturnReason::NOTASDESCRIBED
        } else if chars_equal(&cs, &['O', 'T', 'H', 'E', 'R']) {
            ReturnReason::OTHER
        } else if chars_equal(&cs, &['S', 'I', 'Z', 'E', '_', 'T', 'O', 'O', '_', 'L', 'A', 'R', 'G', 'E']) {
            ReturnReason::SIZETOOLARGE
        } else if chars_equal(&cs, &['S', 'I', 'Z', 'E', '_', 'T', 'O', 'O', '_', 'S', 'M', 'A', 'L', 'L']) {
            ReturnReason::SIZETOOSMALL
        } else if chars_equal(&cs, &['S', 'T', 'Y', 'L', 'E']) {
            ReturnReason::STYLE
        } else if chars_equal(&cs, &['U', 'N', 'W', 'A', 'N', 'T', 'E', 'D']) {
            ReturnReason::UNWANTED
        } else if chars_equal(&cs, &['W', 'R', 'O', 'N', 'G', '_', 'I', 'T', 'E', 'M']) {
            ReturnReason::WRONGITEM
        } else {
            ReturnReason::UNKNOWN
        }
    }

    /// The GraphQL enum text of the value.
    pub fn to_string(&self) -> (r: String)
        ensures
            r@ == self.spec_to_string(),
    {
        let text: &[char] = match self {
            ReturnReason::COLOR => &['C', 'O', 'L', 'O', 'R'],
            ReturnReason::DEFECTIVE => &['D', 'E', 'F', 'E', 'C', 'T', 'I', 'V', 'E'],
            ReturnReason::NOTASDESCRIBED => &['N', 'O', 'T', '_', 'A', 'S', '_', 'D', 'E', 'S', 'C', 'R', 'I', 'B', 'E', 'D'],
            ReturnReason::OTHER => &['O', 'T', 'H', 'E', 'R'],
            ReturnReason::SIZETOOLARGE => &['S', 'I', 'Z', 'E', '_', 'T', 'O', 'O', '_', 'L', 'A', 'R', 'G', 'E'],
            ReturnReason::SIZETOOSMALL => &['S', 'I', 'Z', 'E', '_', 'T', 'O', 'O', '_', 'S', 'M', 'A', 'L', 'L'],
            ReturnReason::STYLE => &['S', 'T', 'Y', 'L', 'E'],
            ReturnReason::UNKNOWN => &['U', 'N', 'K', 'N', 'O', 'W', 'N'],
            ReturnReason::UNWANTED => &['U', 'N', 'W', 'A', 'N', 'T', 'E', 'D'],
            ReturnReason::WRONGITEM => &['W', 'R', 'O', 'N', 'G', '_', 'I', 'T', 'E', 'M'],
        };
        string_from_slice(text)
    }
}

/// The upper-cased text that `from_str` reads maps the text of each value back to that value.
pub proof fn lemma_return_reason_round_trip(v: ReturnReason)
    ensures
        ReturnReason::spec_from_str(v.spec_to_string()) == v,
{
    match v {
        ReturnReason::COLOR => {},
        ReturnReason::DEFECTIVE => {},
        ReturnReason::NOTASDESCRIBED => {},
        ReturnReason::OTHER => {
            assert(seq!['O', 'T', 'H', 'E', 'R'][0] != seq!['C', 'O', 'L', 'O', 'R'][0]);
        },
        ReturnReason::SIZETOOLARGE => {},
        ReturnReason::SIZETOOSMALL => {
            assert(seq!['S', 'I', 'Z', 'E', '_', 'T', 'O', 'O', '_', 'S', 'M', 'A', 'L', 'L'][9] != seq!['S', 'I', 'Z', 'E', '_', 'T', 'O', 'O', '_', 'L', 'A', 'R', 'G', 'E'][9]);
        },
        ReturnReason::STYLE => {
            assert(seq!['S', 'T', 'Y', 'L', 'E'][0] != seq!['C', 'O', 'L', 'O', 'R'][0]);
            assert(seq!['S', 'T', 'Y', 'L', 'E'][0] != seq!['O', 'T', 'H', 'E', 'R'][0]);
        },
        ReturnReason::UNKNOWN => {
            assert(seq!['U', 'N', 'K', 'N', 'O', 'W', 'N'].len() != seq!['C', 'O', 'L', 'O', 'R'].len());
            assert(seq!['U', 'N', 'K', 'N', 'O', 'W', 'N'].len() != seq!['D', 'E', 'F', 'E', 'C', 'T', 'I', 'V', 'E'].len());
            assert(seq!['U', 'N', 'K', 'N', 'O', 'W', 'N'].len() != seq!['N', 'O', 'T', '_', 'A', 'S', '_', 'D', 'E', 'S', 'C', 'R', 'I', 'B', 'E', 'D'].len());
            assert(seq!['U', 'N', 'K', 'N', 'O', 'W', 'N'].len() != seq!['O', 'T', 'H', 'E', 'R'].len());
            assert(seq!['U', 'N', 'K', 'N', 'O', 'W', 'N'].len() != seq!['S', 'I', 'Z', 'E', '_', 'T', 'O', 'O', '_', 'L', 'A', 'R', 'G', 'E'].len());
            assert(seq!['U', 'N', 'K', 'N', 'O', 'W', 'N'].len() != seq!['S', 'I', 'Z', 'E', '_', 'T', 'O', 'O', '_', 'S', 'M', 'A', 'L', 'L'].len());
            assert(seq!['U', 'N', 'K', 'N', 'O', 'W', 'N'].len() != seq!['S', 'T', 'Y', 'L', 'E'].len());
            assert(seq!['U', 'N', 'K', 'N', 'O', 'W', 'N'].len() != seq!['U', 'N', 'W', 'A', 'N', 'T', 'E', 'D'].len());
            assert(seq!['U', 'N', 'K', 'N', 'O', 'W', 'N'].len() != seq!['W', 'R', 'O', 'N', 'G', '_', 'I', 'T', 'E', 'M'].len());
        },
        ReturnReason::UNWANTED => {},
        ReturnReason::WRONGITEM => {},
    }
}

/// ASCII text is read whatever the case of its letters: upper-casing the
/// text first changes nothing in what `from_str` gives.
pub proof fn lemma_return_reason_ignores_case(s: Seq<char>)
    requires
        is_ascii_seq(s),
    ensures
        is_ascii_seq(spec_ascii_upper(s)),
        ReturnReason::spec_from_str(spec_ascii_upper(spec_ascii_upper(s)))
            == ReturnReason::spec_from_str(spec_ascii_upper(s)),
{
    lemma_ascii_upper_idempotent(s);
}

/// `from_str` reads the text `to_string` gives for a value back to that
/// value: the text is ASCII and upper-casing leaves it as it is.
pub proof fn lemma_return_reason_text_round_trip(v: ReturnReason)
    ensures
        is_ascii_seq(v.spec_to_string()),
        ReturnReason::spec_from_str(spec_ascii_upper(v.spec_to_string())) == v,
{
    lemma_ascii_upper_fixes(v.spec_to_string());
    lemma_return_reason_round_trip(v);
}

#[derive(Debug, Clone, PartialEq, Eq, Structural)]
pub enum ReturnDeclineReason {
    /// `FINAL_SALE`
    FINALSALE,
    /// `OTHER`
    OTHER,
    /// `RETURN_PERIOD_ENDED`
    RETURNPERIODENDED,
}

impl ReturnDeclineReason {
    /// The value `from_str` gives for the upper-cased text.
    pub open spec fn spec_from_str(s: Seq<char>) -> ReturnDeclineReason {
        if s == seq!['F', 'I', 'N', 'A', 'L', '_', 'S', 'A', 'L', 'E'] {
            ReturnDeclineReason::FINALSALE
        } else if s == seq!['R', 'E', 'T', 'U', 'R', 'N', '_', 'P', 'E', 'R', 'I', 'O', 'D', '_', 'E', 'N', 'D', 'E', 'D'] {
            ReturnDeclineReason::RETURNPERIODENDED
        } else {
            ReturnDeclineReason::OTHER
        }
    }

    /// The text `to_string` gives for a value.
    pub open spec fn spec_to_string(self) -> Seq<char> {
        match self {
            ReturnDeclineReason::FINALSALE => seq!['F', 'I', 'N', 'A', 'L', '_', 'S', 'A', 'L', 'E'],
            ReturnDeclineReason::OTHER => seq!['O', 'T', 'H', 'E', 'R'],
            ReturnDeclineReason::RETURNPERIODENDED => seq!['R', 'E', 'T', 'U', 'R', 'N', '_', 'P', 'E', 'R', 'I', 'O', 'D', '_', 'E', 'N', 'D', 'E', 'D'],
        }
    }

    /// Reads the GraphQL enum text, upper-cased first: "FINAL_SALE" gives `FINALSALE`; "RETURN_PERIOD_ENDED" gives `RETURNPERIODENDED`; any other text gives `OTHER`.
    pub fn from_str(status: &str) -> (r: ReturnDeclineReason)
        ensures
            r == ReturnDeclineReason::spec_from_str(spec_to_uppercase(status@)),
            is_ascii_seq(status@) ==> r == ReturnDeclineReason::spec_from_str(spec_ascii_upper(status@)),
    {
        let upper = to_uppercase(status);
        let cs = chars_of(upper.as_str());
        if chars_equal(&cs, &['F', 'I', 'N', 'A', 'L', '_', 'S', 'A', 'L', 'E']) {
            ReturnDeclineReason::FINALSALE
        } else if chars_equal(&cs, &['R', 'E', 'T', 'U', 'R', 'N', '_', 'P', 'E', 'R', 'I', 'O', 'D', '_', 'E', 'N', 'D', 'E', 'D']) {
            ReturnDeclineReason::RETURNPERIODENDED
        } else {
            ReturnDeclineReason::OTHER
        }
    }

    /// The GraphQL enum text of the value.
    pub fn to_string(&self) -> (r: String)
        ensures
            r@ == self.spec_to_string(),
    {
        let text: &[char] = match self {
            ReturnDeclineReason::FINALSALE => &['F', 'I', 'N', 'A', 'L', '_', 'S', 'A', 'L', 'E'],
            ReturnDeclineReason::OTHER => &['O', 'T', 'H', 'E', 'R'],
            ReturnDeclineReason::RETURNPERIODENDED => &['R', 'E', 'T', 'U', 'R', 'N', '_', 'P', 'E', 'R', 'I', 'O', 'D', '_', 'E', 'N', 'D', 'E', 'D'],
        };
        string_from_slice(text)
    }
}

/// The upper-cased text that `from_str` reads maps the text of each value back to that value.
pub proof fn lemma_return_decline_reason_round_trip(v: ReturnDeclineReason)
    ensures
        ReturnDeclineReason::spec_from_str(v.spec_to_string()) == v,
{
    match v {
        ReturnDeclineReason::FINALSALE => {},
        ReturnDeclineReason::OTHER => {
            assert(seq!['O', 'T', 'H', 'E', 'R'].len() != seq!['F', 'I', 'N', 'A', 'L', '_', 'S', 'A', 'L', 'E'].len());
            assert(seq!['O', 'T', 'H', 'E', 'R'].len() != seq!['R', 'E', 'T', 'U', 'R', 'N', '_', 'P', 'E', 'R', 'I', 'O', 'D', '_', 'E', 'N', 'D', 'E', 'D'].len());
        },
        ReturnDeclineReason::RETURNPERIODENDED => {},
    }
}

/// ASCII text is read whatever the case of its letters: upper-casing the
/// text first changes nothing in what `from_str` gives.
pub proof fn lemma_return_decline_reason_ignores_case(s: Seq<char>)
    requires
        is_ascii_seq(s),
    ensures
        is_ascii_seq(spec_ascii_upper(s)),
        ReturnDeclineReason::spec_from_str(spec_ascii_upper(spec_ascii_upper(s)))
            == ReturnDeclineReason::spec_from_str(spec_ascii_upper(s)),
{
    lemma_ascii_upper_idempotent(s);
}

/// `from_str` reads the text `to_string` gives for a value back to that
/// value: the text is ASCII and upper-casing leaves it as it is.
pub proof fn lemma_return_decline_reason_text_round_trip(v: ReturnDeclineReason)
    ensures
        is_ascii_seq(v.spec_to_string()),
        ReturnDeclineReason::spec_from_str(spec_ascii_upper(v.spec_to_string())) == v,
{
    lemma_ascii_upper_fixes(v.spec_to_string());
    lemma_return_decline_reason_round_trip(v);
}

#[derive(Debug, Clone)]
pub struct SuggestedReturnRefund {
    pub return_refund_line_items: Option<Vec<ReturnRefundLineItemInput>>,
    pub refund_duties: Option<Vec<RefundDutyInput>>,
}

#[derive(Debug, Clone)]
pub struct ReturnRefundLineItemInput {
    pub quantity: Option<u32>,
    pub return_line_item_id: Option<String>,
}

#[derive(Debug, Clone)]
pub struct ReturnShippingFee {
    pub amount_set: Option<MoneyBag>,
    pub id: Option<String>,
}

#[derive(Debug, Clone)]
pub struct ReturnLineItemTypeConnection {
    pub edges: Option<Vec<ReturnLineItemTypeEdge>>,
    pub page_info: Option<PageInfo>,
}

#[derive(Debug, Clone)]
pub struct ReturnLineItemTypeEdge {
    pub node: Option<ReturnLineItemType>,
    pub cursor: Option<String>,
}

#[derive(Debug, Clone)]
pub struct ReturnLineItemType {
    pub customer_note: Option<String>,
    pub id: Option<String>,
    pub quantity: Option<u32>,
    pub refundable_quantity: Option<u32>,
    pub refunded_quantity: Option<u32>,
    pub return_reason: Option<ReturnReason>,
    pub return_reason_note: Option<String>,
}

#[derive(Debug, Clone)]
pub struct ReturnDecline {
    pub note: Option<String>,
    pub reason: Option<ReturnDeclineReason>,
}

} // verus!
