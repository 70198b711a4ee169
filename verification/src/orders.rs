//! Orders and order transactions, with their GraphQL enum texts.
use vstd::prelude::*;

pub mod line_item_discounts;
pub mod order_cancel;
use crate::text::{chars_of, chars_equal, string_from_slice, to_uppercase, spec_to_uppercase};
use crate::text::{is_ascii_seq, spec_ascii_upper, lemma_ascii_upper_idempotent, lemma_ascii_upper_fixes};

use crate::money::Decimal;
use crate::money::MoneyV2;

verus! {

#[derive(Debug, Clone, PartialEq, Eq, Structural)]
pub enum OrderTransactionStatus {
    /// `AWAITING_RESPONSE`
    AwaitingResponse,
    /// `ERROR`
    Error,
    /// `FAILURE`
    Failure,
    /// `PENDING`
    Pending,
    /// `SUCCESS`
    Success,
    /// `UNKNOWN`
    Unknown,
}

impl OrderTransactionStatus {
    /// The value `from_str` gives for the upper-cased text.
    pub open spec fn spec_from_str(s: Seq<char>) -> OrderTransactionStatus {
        if s == seq!['A', 'W', 'A', 'I', 'T', 'I', 'N', 'G', '_', 'R', 'E', 'S', 'P', 'O', 'N', 'S', 'E'] {
            OrderTransactionStatus::AwaitingResponse
        } else if s == seq!['E', 'R', 'R', 'O', 'R'] {
            OrderTransactionStatus::Error
        } else if s == seq!['F', 'A', 'I', 'L', 'U', 'R', 'E'] {
            OrderTransactionStatus::Failure
        } else if s == seq!['P', 'E', 'N', 'D', 'I', 'N', 'G'] {
            OrderTransactionStatus::Pending
        } else if s == seq!['S', 'U', 'C', 'C', 'E', 'S', 'S'] {
            OrderTransactionStatus::Success
        } else {
            OrderTransactionStatus::Unknown
        }
    }

    /// The text `to_string` gives for a value.
    pub open spec fn spec_to_string(self) -> Seq<char> {
        match self {
            OrderTransactionStatus::AwaitingResponse => seq!['A', 'W', 'A', 'I', 'T', 'I', 'N', 'G', '_', 'R', 'E', 'S', 'P', 'O', 'N', 'S', 'E'],
            OrderTransactionStatus::Error => seq!['E', 'R', 'R', 'O', 'R'],
            OrderTransactionStatus::Failure => seq!['F', 'A', 'I', 'L', 'U', 'R', 'E'],
            OrderTransactionStatus::Pending => seq!['P', 'E', 'N', 'D', 'I', 'N', 'G'],
            OrderTransactionStatus::Success => seq!['S', 'U', 'C', 'C', 'E', 'S', 'S'],
            OrderTransactionStatus::Unknown => seq!['U', 'N', 'K', 'N', 'O', 'W', 'N'],
        }
    }

    /// Reads the GraphQL enum text, upper-cased first: "AWAITING_RESPONSE" gives `AwaitingResponse`; "ERROR" gives `Error`; "FAILURE" gives `Failure`; "PENDING" gives `Pending`; "SUCCESS" gives `Success`; any other text gives `Unknown`.
    pub fn from_str(status: &str) -> (r: OrderTransactionStatus)
        ensures
            r == OrderTransactionStatus::spec_from_str(spec_to_uppercase(status@)),
            is_ascii_seq(status@) ==> r == OrderTransactionStatus::spec_from_str(spec_ascii_upper(status@)),
    {
        let upper = to_uppercase(status);
        let cs = chars_of(upper.as_str());
        if chars_equal(&cs, &['A', 'W', 'A', 'I', 'T', 'I', 'N', 'G', '_', 'R', 'E', 'S', 'P', 'O', 'N', 'S', 'E']) {
            OrderTransactionStatus::AwaitingResponse
        } else if chars_equal(&cs, &['E', 'R', 'R', 'O', 'R']) {
            OrderTransactionStatus::Error
        } else if chars_equal(&cs, &['F', 'A', 'I', 'L', 'U', 'R', 'E']) {
            OrderTransactionStatus::Failure
        } else if chars_equal(&cs, &['P', 'E', 'N', 'D', 'I', 'N', 'G']) {
            OrderTransactionStatus::Pending
        } else if chars_equal(&cs, &['S', 'U', 'C', 'C', 'E', 'S', 'S']) {
            OrderTransactionStatus::Success
        } else {
            OrderTransactionStatus::Unknown
        }
    }

    /// The GraphQL enum text of the value.
    pub fn to_string(&self) -> (r: String)
        ensures
            r@ == self.spec_to_string(),
    {
        let text: &[char] = match self {
            OrderTransactionStatus::AwaitingResponse => &['A', 'W', 'A', 'I', 'T', 'I', 'N', 'G', '_', 'R', 'E', 'S', 'P', 'O', 'N', 'S', 'E'],
            OrderTransactionStatus::Error => &['E', 'R', 'R', 'O', 'R'],
            OrderTransactionStatus::Failure => &['F', 'A', 'I', 'L', 'U', 'R', 'E'],
            OrderTransactionStatus::Pending => &['P', 'E', 'N', 'D', 'I', 'N', 'G'],
            OrderTransactionStatus::Success => &['S', 'U', 'C', 'C', 'E', 'S', 'S'],
            OrderTransactionStatus::Unknown => &['U', 'N', 'K', 'N', 'O', 'W', 'N'],
        };
        string_from_slice(text)
    }
}

/// The upper-cased text that `from_str` reads maps the text of each value back to that value.
pub proof fn lemma_order_transaction_status_round_trip(v: OrderTransactionStatus)
    ensures
        OrderTransactionStatus::spec_from_str(v.spec_to_string()) == v,
{
    match v {
        OrderTransactionStatus::AwaitingResponse => {},
        OrderTransactionStatus::Error => {},
        OrderTransactionStatus::Failure => {},
        OrderTransactionStatus::Pending => {
            assert(seq!['P', 'E', 'N', 'D', 'I', 'N', 'G'][0] != seq!['F', 'A', 'I', 'L', 'U', 'R', 'E'][0]);
        },
        OrderTransactionStatus::Success => {
            assert(seq!['S', 'U', 'C', 'C', 'E', 'S', 'S'][0] != seq!['F', 'A', 'I', 'L', 'U', 'R', 'E'][0]);
            assert(seq!['S', 'U', 'C', 'C', 'E', 'S', 'S'][0] != seq!['P', 'E', 'N', 'D', 'I', 'N', 'G'][0]);
        },
        OrderTransactionStatus::Unknown => {
            assert(seq!['U', 'N', 'K', 'N', 'O', 'W', 'N'].len() != seq!['A', 'W', 'A', 'I', 'T', 'I', 'N', 'G', '_', 'R', 'E', 'S', 'P', 'O', 'N', 'S', 'E'].len());
            assert(seq!['U', 'N', 'K', 'N', 'O', 'W', 'N'].len() != seq!['E', 'R', 'R', 'O', 'R'].len());
            assert(seq!['U', 'N', 'K', 'N', 'O', 'W', 'N'][0] != seq!['F', 'A', 'I', 'L', 'U', 'R', 'E'][0]);
            assert(seq!['U', 'N', 'K', 'N', 'O', 'W', 'N'][0] != seq!['P', 'E', 'N', 'D', 'I', 'N', 'G'][0]);
            assert(seq!['U', 'N', 'K', 'N', 'O', 'W', 'N'][0] != seq!['S', 'U', 'C', 'C', 'E', 'S', 'S'][0]);
        },
    }
}

/// ASCII text is read whatever the case of its letters: upper-casing the
/// text first changes nothing in what `from_str` gives.
pub proof fn lemma_order_transaction_status_ignores_case(s: Seq<char>)
    requires
        is_ascii_seq(s),
    ensures
        is_ascii_seq(spec_ascii_upper(s)),
        OrderTransactionStatus::spec_from_str(spec_ascii_upper(spec_ascii_upper(s)))
            == OrderTransactionStatus::spec_from_str(spec_ascii_upper(s)),
{
    lemma_ascii_upper_idempotent(s);
}

/// `from_str` reads the text `to_string` gives for a value back to that
/// value: the text is ASCII and upper-casing leaves it as it is.
pub proof fn lemma_order_transaction_status_text_round_trip(v: OrderTransactionStatus)
    ensures
        is_ascii_seq(v.spec_to_string()),
        OrderTransactionStatus::spec_from_str(spec_ascii_upper(v.spec_to_string())) == v,
{
    lemma_ascii_upper_fixes(v.spec_to_string());
    lemma_order_transaction_status_round_trip(v);
}

#[derive(Debug, Clone, PartialEq, Eq, Structural)]
pub enum DigitalWallet {
    /// `ANDROID_PAY`
    AndroidPay,
    /// `APPLE_PAY`
    ApplePay,
    /// `GOOGLE_PAY`
    GooglePay,
    /// `SHOPIFY_PAY`
    ShopifyPay,
}

impl DigitalWallet {
    /// The value `from_str` gives for a string.
    pub open spec fn spec_from_str(s: Seq<char>) -> DigitalWallet {
        if s == seq!['A', 'N', 'D', 'R', 'O', 'I', 'D', '_', 'P', 'A', 'Y'] {
            DigitalWallet::AndroidPay
        } else if s == seq!['A', 'P', 'P', 'L', 'E', '_', 'P', 'A', 'Y'] {
            DigitalWallet::ApplePay
        } else if s == seq!['G', 'O', 'O', 'G', 'L', 'E', '_', 'P', 'A', 'Y'] {
            DigitalWallet::GooglePay
        } else {
            DigitalWallet::ShopifyPay
        }
    }

    /// The text `to_string` gives for a value.
    pub open spec fn spec_to_string(self) -> Seq<char> {
        match self {
            DigitalWallet::AndroidPay => seq!['A', 'N', 'D', 'R', 'O', 'I', 'D', '_', 'P', 'A', 'Y'],
            DigitalWallet::ApplePay => seq!['A', 'P', 'P', 'L', 'E', '_', 'P', 'A', 'Y'],
            DigitalWallet::GooglePay => seq!['G', 'O', 'O', 'G', 'L', 'E', '_', 'P', 'A', 'Y'],
            DigitalWallet::ShopifyPay => seq!['S', 'H', 'O', 'P', 'I', 'F', 'Y', '_', 'P', 'A', 'Y'],
        }
    }

    /// Reads the GraphQL enum text: "ANDROID_PAY" gives `AndroidPay`; "APPLE_PAY" gives `ApplePay`; "GOOGLE_PAY" gives `GooglePay`; any other text gives `ShopifyPay`.
    pub fn from_str(wallet: &str) -> (r: DigitalWallet)
        ensures
            r == DigitalWallet::spec_from_str(wallet@),
    {
        let cs = chars_of(wallet);
        if chars_equal(&cs, &['A', 'N', 'D', 'R', 'O', 'I', 'D', '_', 'P', 'A', 'Y']) {
            DigitalWallet::AndroidPay
        } else if chars_equal(&cs, &['A', 'P', 'P', 'L', 'E', '_', 'P', 'A', 'Y']) {
            DigitalWallet::ApplePay
        } else if chars_equal(&cs, &['G', 'O', 'O', 'G', 'L', 'E', '_', 'P', 'A', 'Y']) {
            DigitalWallet::GooglePay
        } else {
            DigitalWallet::ShopifyPay
        }
    }

    /// The GraphQL enum text of the value.
    pub fn to_string(&self) -> (r: String)
        ensures
            r@ == self.spec_to_string(),
    {
        let text: &[char] = match self {
            DigitalWallet::AndroidPay => &['A', 'N', 'D', 'R', 'O', 'I', 'D', '_', 'P', 'A', 'Y'],
            DigitalWallet::ApplePay => &['A', 'P', 'P', 'L', 'E', '_', 'P', 'A', 'Y'],
            DigitalWallet::GooglePay => &['G', 'O', 'O', 'G', 'L', 'E', '_', 'P', 'A', 'Y'],
            DigitalWallet::ShopifyPay => &['S', 'H', 'O', 'P', 'I', 'F', 'Y', '_', 'P', 'A', 'Y'],
        };
        string_from_slice(text)
    }
}

/// Reading back the text of a value gives the value again.
pub proof fn lemma_digital_wallet_round_trip(v: DigitalWallet)
    ensures
        DigitalWallet::spec_from_str(v.spec_to_string()) == v,
{
    match v {
        DigitalWallet::AndroidPay => {},
        DigitalWallet::ApplePay => {},
        DigitalWallet::GooglePay => {},
        DigitalWallet::ShopifyPay => {
            assert(seq!['S', 'H', 'O', 'P', 'I', 'F', 'Y', '_', 'P', 'A', 'Y'][0] != seq!['A', 'N', 'D', 'R', 'O', 'I', 'D', '_', 'P', 'A', 'Y'][0]);
            assert(seq!['S', 'H', 'O', 'P', 'I', 'F', 'Y', '_', 'P', 'A', 'Y'].len() != seq!['A', 'P', 'P', 'L', 'E', '_', 'P', 'A', 'Y'].len());
            assert(seq!['S', 'H', 'O', 'P', 'I', 'F', 'Y', '_', 'P', 'A', 'Y'].len() != seq!['G', 'O', 'O', 'G', 'L', 'E', '_', 'P', 'A', 'Y'].len());
        },
    }
}

#[derive(Debug, Clone, PartialEq, Eq, Structural)]
pub enum OrderTransactionKind {
    /// `AUTHORIZATION`
    Authorization,
    /// `CAPTURE`
    Capture,
    /// `CHANGE`
    Change,
    /// `EMV_AUTHORIZATION`
    EmvAuthorization,
    /// `REFUND`
    Refund,
    /// `SALE`
    Sale,
    /// `SUGGESTED_REFUND`
    SuggestedRefund,
    /// `VOID`
    Void,
}

impl OrderTransactionKind {
    /// The value `from_str` gives for the upper-cased text.
    pub open spec fn spec_from_str(s: Seq<char>) -> OrderTransactionKind {
        if s == seq!['A', 'U', 'T', 'H', 'O', 'R', 'I', 'Z', 'A', 'T', 'I', 'O', 'N'] {
            OrderTransactionKind::Authorization
        } else if s == seq!['C', 'A', 'P', 'T', 'U', 'R', 'E'] {
            OrderTransactionKind::Capture
        } else if s == seq!['C', 'H', 'A', 'N', 'G', 'E'] {
            OrderTransactionKind::Change
        } else if s == seq!['E', 'M', 'V', '_', 'A', 'U', 'T', 'H', 'O', 'R', 'I', 'Z', 'A', 'T', 'I', 'O', 'N'] {
            OrderTransactionKind::EmvAuthorization
        } else if s == seq!['R', 'E', 'F', 'U', 'N', 'D'] {
            OrderTransactionKind::Refund
        } else if s == seq!['S', 'A', 'L', 'E'] {
            OrderTransactionKind::Sale
        } else if s == seq!['S', 'U', 'G', 'G', 'E', 'S', 'T', 'E', 'D', '_', 'R', 'E', 'F', 'U', 'N', 'D'] {
            OrderTransactionKind::SuggestedRefund
        } else {
            OrderTransactionKind::Void
        }
    }

    /// The text `to_string` gives for a value.
    pub open spec fn spec_to_string(self) -> Seq<char> {
        match self {
            OrderTransactionKind::Authorization => seq!['A', 'U', 'T', 'H', 'O', 'R', 'I', 'Z', 'A', 'T', 'I', 'O', 'N'],
            OrderTransactionKind::Capture => seq!['C', 'A', 'P', 'T', 'U', 'R', 'E'],
            OrderTransactionKind::Change => seq!['C', 'H', 'A', 'N', 'G', 'E'],
            OrderTransactionKind::EmvAuthorization => seq!['E', 'M', 'V', '_', 'A', 'U', 'T', 'H', 'O', 'R', 'I', 'Z', 'A', 'T', 'I', 'O', 'N'],
            OrderTransactionKind::Refund => seq!['R', 'E', 'F', 'U', 'N', 'D'],
            OrderTransactionKind::Sale => seq!['S', 'A', 'L', 'E'],
            OrderTransactionKind::SuggestedRefund => seq!['S', 'U', 'G', 'G', 'E', 'S', 'T', 'E', 'D', '_', 'R', 'E', 'F', 'U', 'N', 'D'],
            OrderTransactionKind::Void => seq!['V', 'O', 'I', 'D'],
        }
    }

    /// Reads the GraphQL enum text, upper-cased first: "AUTHORIZATION" gives `Authorization`; "CAPTURE" gives `Capture`; "CHANGE" gives `Change`; "EMV_AUTHORIZATION" gives `EmvAuthorization`; "REFUND" gives `Refund`; "SALE" gives `Sale`; "SUGGESTED_REFUND" gives `SuggestedRefund`; any other text gives `Void`.
    pub fn from_str(kind: &str) -> (r: OrderTransactionKind)
        ensures
            r == OrderTransactionKind::spec_from_str(spec_to_uppercase(kind@)),
            is_ascii_seq(kind@) ==> r == OrderTransactionKind::spec_from_str(spec_ascii_upper(kind@)),
    {
        let upper = to_uppercase(kind);
        let cs = chars_of(upper.as_str());
        if chars_equal(&cs, &['A', 'U', 'T', 'H', 'O', 'R', 'I', 'Z', 'A', 'T', 'I', 'O', 'N']) {
            OrderTransactionKind::Authorization
        } else if chars_equal(&cs, &['C', 'A', 'P', 'T', 'U', 'R', 'E']) {
            OrderTransactionKind::Capture
        } else if chars_equal(&cs, &['C', 'H', 'A', 'N', 'G', 'E']) {
            OrderTransactionKind::Change
        } else if chars_equal(&cs, &['E', 'M', 'V', '_', 'A', 'U', 'T', 'H', 'O', 'R', 'I', 'Z', 'A', 'T', 'I', 'O', 'N']) {
            OrderTransactionKind::EmvAuthorization
        } else if chars_equal(&cs, &['R', 'E', 'F', 'U', 'N', 'D']) {
            OrderTransactionKind::Refund
        } else if chars_equal(&cs, &['S', 'A', 'L', 'E']) {
            OrderTransactionKind::Sale
        } else if chars_equal(&cs, &['S', 'U', 'G', 'G', 'E', 'S', 'T', 'E', 'D', '_', 'R', 'E', 'F', 'U', 'N', 'D']) {
            OrderTransactionKind::SuggestedRefund
        } else {
            OrderTransactionKind::Void
        }
    }

    /// The GraphQL enum text of the value.
    pub fn to_string(&self) -> (r: String)
        ensures
            r@ == self.spec_to_string(),
    {
        let text: &[char] = match self {
            OrderTransactionKind::Authorization => &['A', 'U', 'T', 'H', 'O', 'R', 'I', 'Z', 'A', 'T', 'I', 'O', 'N'],
            OrderTransactionKind::Capture => &['C', 'A', 'P', 'T', 'U', 'R', 'E'],
            OrderTransactionKind::Change => &['C', 'H', 'A', 'N', 'G', 'E'],
            OrderTransactionKind::EmvAuthorization => &['E', 'M', 'V', '_', 'A', 'U', 'T', 'H', 'O', 'R', 'I', 'Z', 'A', 'T', 'I', 'O', 'N'],
            OrderTransactionKind::Refund => &['R', 'E', 'F', 'U', 'N', 'D'],
            OrderTransactionKind::Sale => &['S', 'A', 'L', 'E'],
            OrderTransactionKind::SuggestedRefund => &['S', 'U', 'G', 'G', 'E', 'S', 'T', 'E', 'D', '_', 'R', 'E', 'F', 'U', 'N', 'D'],
            OrderTransactionKind::Void => &['V', 'O', 'I', 'D'],
        };
        string_from_slice(text)
    }
}

/// The upper-cased text that `from_str` reads maps the text of each value back to that value.
pub proof fn lemma_order_transaction_kind_round_trip(v: OrderTransactionKind)
    ensures
        OrderTransactionKind::spec_from_str(v.spec_to_string()) == v,
{
    match v {
        OrderTransactionKind::Authorization => {},
        OrderTransactionKind::Capture => {},
        OrderTransactionKind::Change => {},
        OrderTransactionKind::EmvAuthorization => {},
        OrderTransactionKind::Refund => {
            assert(seq!['R', 'E', 'F', 'U', 'N', 'D'][0] != seq!['C', 'H', 'A', 'N', 'G', 'E'][0]);
        },
        OrderTransactionKind::Sale => {},
        OrderTransactionKind::SuggestedRefund => {},
        OrderTransactionKind::Void => {
            assert(seq!['V', 'O', 'I', 'D'].len() != seq!['A', 'U', 'T', 'H', 'O', 'R', 'I', 'Z', 'A', 'T', 'I', 'O', 'N'].len());
            assert(seq!['V', 'O', 'I', 'D'].len() != seq!['C', 'A', 'P', 'T', 'U', 'R', 'E'].len());
            assert(seq!['V', 'O', 'I', 'D'].len() != seq!['C', 'H', 'A', 'N', 'G', 'E'].len());
            assert(seq!['V', 'O', 'I', 'D'].len() != seq!['E', 'M', 'V', '_', 'A', 'U', 'T', 'H', 'O', 'R', 'I', 'Z', 'A', 'T', 'I', 'O', 'N'].len());
            assert(seq!['V', 'O', 'I', 'D'].len() != seq!['R', 'E', 'F', 'U', 'N', 'D'].len());
            assert(seq!['V', 'O', 'I', 'D'][0] != seq!['S', 'A', 'L', 'E'][0]);
            assert(seq!['V', 'O', 'I', 'D'].len() != seq!['S', 'U', 'G', 'G', 'E', 'S', 'T', 'E', 'D', '_', 'R', 'E', 'F', 'U', 'N', 'D'].len());
        },
    }
}

/// ASCII text is read whatever the case of its letters: upper-casing the
/// text first changes nothing in what `from_str` gives.
pub proof fn lemma_order_transaction_kind_ignores_case(s: Seq<char>)
    requires
        is_ascii_seq(s),
    ensures
        is_ascii_seq(spec_ascii_upper(s)),
        OrderTransactionKind::spec_from_str(spec_ascii_upper(spec_ascii_upper(s)))
            == OrderTransactionKind::spec_from_str(spec_ascii_upper(s)),
{
    lemma_ascii_upper_idempotent(s);
}

/// `from_str` reads the text `to_string` gives for a value back to that
/// value: the text is ASCII and upper-casing leaves it as it is.
pub proof fn lemma_order_transaction_kind_text_round_trip(v: OrderTransactionKind)
    ensures
        is_ascii_seq(v.spec_to_string()),
        OrderTransactionKind::spec_from_str(spec_ascii_upper(v.spec_to_string())) == v,
{
    lemma_ascii_upper_fixes(v.spec_to_string());
    lemma_order_transaction_kind_round_trip(v);
}

#[derive(Debug, Clone, PartialEq, Eq, Structural)]
pub enum OrderTransactionErrorCode {
    /// `AMAZON_PAYMENTS_INVALID_PAYMENT_METHOD`
    AmazonPaymentsInvalidPaymentMethod,
    /// `AMAZON_PAYMENTS_MAX_AMOUNT_CHARGED`
    AmazonPaymentsMaxAmountCharged,
    /// `AMAZON_PAYMENTS_MAX_AMOUNT_REFUNDED`
    AmazonPaymentsMaxAmountRefunded,
    /// `AMAZON_PAYMENTS_MAX_AUTHORIZATIONS_CAPTURED`
    AmazonPaymentsMaxAuthorizationsCaptured,
    /// `AMAZON_PAYMENTS_MAX_REFUNDS_PROCESSED`
    AmazonPaymentsMaxRefundsProcessed,
    /// `AMAZON_PAYMENTS_ORDER_REFERENCE_CANCELED`
    AmazonPaymentsOrderReferenceCanceled,
    /// `AMAZON_PAYMENTS_STALE`
    AmazonPaymentsStale,
    /// `CALL_ISSUER`
    CallIssuer,
    /// `CARD_DECLINED`
    CardDeclined,
    /// `CONFIG_ERROR`
    ConfigError,
    /// `EXPIRED_CARD`
    ExpiredCard,
    /// `GENERIC_ERROR`
    GenericError,
    /// `INCORRECT_ADDRESS`
    IncorrectAddress,
    /// `INCORRECT_CVC`
    IncorrectCvc,
    /// `INCORRECT_NUMBER`
    IncorrectNumber,
    /// `INCORRECT_PIN`
    IncorrectPin,
    /// `INCORRECT_ZIP`
    IncorrectZip,
    /// `INVALID_AMOUNT`
    InvalidAmount,
    /// `INVALID_COUNTRY`
    InvalidCountry,
    /// `INVALID_CVC`
    InvalidCvc,
    /// `INVALID_EXPIRY_DATE`
    InvalidExpiryDate,
    /// `INVALID_NUMBER`
    InvalidNumber,
    /// `PAYMENT_METHOD_UNAVAILABLE`
    PaymentMethodUnavailable,
    /// `PICK_UP_CARD`
    PickUpCard,
    /// `PROCESSING_ERROR`
    ProcessingError,
    /// `TEST_MODE_LIVE_CARD`
    TestModeLiveCard,
    /// `UNSUPPORTED_FEATURE`
    UnsupportedFeature,
}

impl OrderTransactionErrorCode {
    /// The value `from_str` gives for a string.
    pub open spec fn spec_from_str(s: Seq<char>) -> OrderTransactionErrorCode {
        if s == seq!['A', 'M', 'A', 'Z', 'O', 'N', '_', 'P', 'A', 'Y', 'M', 'E', 'N', 'T', 'S', '_', 'I', 'N', 'V', 'A', 'L', 'I', 'D', '_', 'P', 'A', 'Y', 'M', 'E', 'N', 'T', '_', 'M', 'E', 'T', 'H', 'O', 'D'] {
            OrderTransactionErrorCode::AmazonPaymentsInvalidPaymentMethod
        } else if s == seq!['A', 'M', 'A', 'Z', 'O', 'N', '_', 'P', 'A', 'Y', 'M', 'E', 'N', 'T', 'S', '_', 'M', 'A', 'X', '_', 'A', 'M', 'O', 'U', 'N', 'T', '_', 'C', 'H', 'A', 'R', 'G', 'E', 'D'] {
            OrderTransactionErrorCode::AmazonPaymentsMaxAmountCharged
        } else if s == seq!['A', 'M', 'A', 'Z', 'O', 'N', '_', 'P', 'A', 'Y', 'M', 'E', 'N', 'T', 'S', '_', 'M', 'A', 'X', '_', 'A', 'M', 'O', 'U', 'N', 'T', '_', 'R', 'E', 'F', 'U', 'N', 'D', 'E', 'D'] {
            OrderTransactionErrorCode::AmazonPaymentsMaxAmountRefunded
        } else if s == seq!['A', 'M', 'A', 'Z', 'O', 'N', '_', 'P', 'A', 'Y', 'M', 'E', 'N', 'T', 'S', '_', 'M', 'A', 'X', '_', 'A', 'U', 'T', 'H', 'O', 'R', 'I', 'Z', 'A', 'T', 'I', 'O', 'N', 'S', '_', 'C', 'A', 'P', 'T', 'U', 'R', 'E', 'D'] {
            OrderTransactionErrorCode::AmazonPaymentsMaxAuthorizationsCaptured
        } else if s == seq!['A', 'M', 'A', 'Z', 'O', 'N', '_', 'P', 'A', 'Y', 'M', 'E', 'N', 'T', 'S', '_', 'M', 'A', 'X', '_', 'R', 'E', 'F', 'U', 'N', 'D', 'S', '_', 'P', 'R', 'O', 'C', 'E', 'S', 'S', 'E', 'D'] {
            OrderTransactionErrorCode::AmazonPaymentsMaxRefundsProcessed
        } else if s == seq!['A', 'M', 'A', 'Z', 'O', 'N', '_', 'P', 'A', 'Y', 'M', 'E', 'N', 'T', 'S', '_', 'O', 'R', 'D', 'E', 'R', '_', 'R', 'E', 'F', 'E', 'R', 'E', 'N', 'C', 'E', '_', 'C', 'A', 'N', 'C', 'E', 'L', 'E', 'D'] {
            OrderTransactionErrorCode::AmazonPaymentsOrderReferenceCanceled
        } else if s == seq!['A', 'M', 'A', 'Z', 'O', 'N', '_', 'P', 'A', 'Y', 'M', 'E', 'N', 'T', 'S', '_', 'S', 'T', 'A', 'L', 'E'] {
            OrderTransactionErrorCode::AmazonPaymentsStale
        } else if s == seq!['C', 'A', 'L', 'L', '_', 'I', 'S', 'S', 'U', 'E', 'R'] {
            OrderTransactionErrorCode::CallIssuer
        } else if s == seq!['C', 'A', 'R', 'D', '_', 'D', 'E', 'C', 'L', 'I', 'N', 'E', 'D'] {
            OrderTransactionErrorCode::CardDeclined
        } else if s == seq!['C', 'O', 'N', 'F', 'I', 'G', '_', 'E', 'R', 'R', 'O', 'R'] {
            OrderTransactionErrorCode::ConfigError
        } else if s == seq!['E', 'X', 'P', 'I', 'R', 'E', 'D', '_', 'C', 'A', 'R', 'D'] {
            OrderTransactionErrorCode::ExpiredCard
        } else if s == seq!['G', 'E', 'N', 'E', 'R', 'I', 'C', '_', 'E', 'R', 'R', 'O', 'R'] {
            OrderTransactionErrorCode::GenericError
        } else if s == seq!['I', 'N', 'C', 'O', 'R', 'R', 'E', 'C', 'T', '_', 'A', 'D', 'D', 'R', 'E', 'S', 'S'] {
            OrderTransactionErrorCode::IncorrectAddress
        } else if s == seq!['I', 'N', 'C', 'O', 'R', 'R', 'E', 'C', 'T', '_', 'C', 'V', 'C'] {
            OrderTransactionErrorCode::IncorrectCvc
        } else if s == seq!['I', 'N', 'C', 'O', 'R', 'R', 'E', 'C', 'T', '_', 'N', 'U', 'M', 'B', 'E', 'R'] {
            OrderTransactionErrorCode::IncorrectNumber
        } else if s == seq!['I', 'N', 'C', 'O', 'R', 'R', 'E', 'C', 'T', '_', 'P', 'I', 'N'] {
            OrderTransactionErrorCode::IncorrectPin
        } else if s == seq!['I', 'N', 'C', 'O', 'R', 'R', 'E', 'C', 'T', '_', 'Z', 'I', 'P'] {
            OrderTransactionErrorCode::IncorrectZip
        } else if s == seq!['I', 'N', 'V', 'A', 'L', 'I', 'D', '_', 'A', 'M', 'O', 'U', 'N', 'T'] {
            OrderTransactionErrorCode::InvalidAmount
        } else if s == seq!['I', 'N', 'V', 'A', 'L', 'I', 'D', '_', 'C', 'O', 'U', 'N', 'T', 'R', 'Y'] {
            OrderTransactionErrorCode::InvalidCountry
        } else if s == seq!['I', 'N', 'V', 'A', 'L', 'I', 'D', '_', 'C', 'V', 'C'] {
            OrderTransactionErrorCode::InvalidCvc
        } else if s == seq!['I', 'N', 'V', 'A', 'L', 'I', 'D', '_', 'E', 'X', 'P', 'I', 'R', 'Y', '_', 'D', 'A', 'T', 'E'] {
            OrderTransactionErrorCode::InvalidExpiryDate
        } else if s == seq!['I', 'N', 'V', 'A', 'L', 'I', 'D', '_', 'N', 'U', 'M', 'B', 'E', 'R'] {
            OrderTransactionErrorCode::InvalidNumber
        } else if s == seq!['P', 'A', 'Y', 'M', 'E', 'N', 'T', '_', 'M', 'E', 'T', 'H', 'O', 'D', '_', 'U', 'N', 'A', 'V', 'A', 'I', 'L', 'A', 'B', 'L', 'E'] {
            OrderTransactionErrorCode::PaymentMethodUnavailable
        } else if s == seq!['P', 'I', 'C', 'K', '_', 'U', 'P', '_', 'C', 'A', 'R', 'D'] {
            OrderTransactionErrorCode::PickUpCard
        } else if s == seq!['P', 'R', 'O', 'C', 'E', 'S', 'S', 'I', 'N', 'G', '_', 'E', 'R', 'R', 'O', 'R'] {
            OrderTransactionErrorCode::ProcessingError
        } else if s == seq!['T', 'E', 'S', 'T', '_', 'M', 'O', 'D', 'E', '_', 'L', 'I', 'V', 'E', '_', 'C', 'A', 'R', 'D'] {
            OrderTransactionErrorCode::TestModeLiveCard
        } else {
            OrderTransactionErrorCode::UnsupportedFeature
        }
    }

    /// The text `to_string` gives for a value.
    pub open spec fn spec_to_string(self) -> Seq<char> {
        match self {
            OrderTransactionErrorCode::AmazonPaymentsInvalidPaymentMethod => seq!['A', 'M', 'A', 'Z', 'O', 'N', '_', 'P', 'A', 'Y', 'M', 'E', 'N', 'T', 'S', '_', 'I', 'N', 'V', 'A', 'L', 'I', 'D', '_', 'P', 'A', 'Y', 'M', 'E', 'N', 'T', '_', 'M', 'E', 'T', 'H', 'O', 'D'],
            OrderTransactionErrorCode::AmazonPaymentsMaxAmountCharged => seq!['A', 'M', 'A', 'Z', 'O', 'N', '_', 'P', 'A', 'Y', 'M', 'E', 'N', 'T', 'S', '_', 'M', 'A', 'X', '_', 'A', 'M', 'O', 'U', 'N', 'T', '_', 'C', 'H', 'A', 'R', 'G', 'E', 'D'],
            OrderTransactionErrorCode::AmazonPaymentsMaxAmountRefunded => seq!['A', 'M', 'A', 'Z', 'O', 'N', '_', 'P', 'A', 'Y', 'M', 'E', 'N', 'T', 'S', '_', 'M', 'A', 'X', '_', 'A', 'M', 'O', 'U', 'N', 'T', '_', 'R', 'E', 'F', 'U', 'N', 'D', 'E', 'D'],
            OrderTransactionErrorCode::AmazonPaymentsMaxAuthorizationsCaptured => seq!['A', 'M', 'A', 'Z', 'O', 'N', '_', 'P', 'A', 'Y', 'M', 'E', 'N', 'T', 'S', '_', 'M', 'A', 'X', '_', 'A', 'U', 'T', 'H', 'O', 'R', 'I', 'Z', 'A', 'T', 'I', 'O', 'N', 'S', '_', 'C', 'A', 'P', 'T', 'U', 'R', 'E', 'D'],
            OrderTransactionErrorCode::AmazonPaymentsMaxRefundsProcessed => seq!['A', 'M', 'A', 'Z', 'O', 'N', '_', 'P', 'A', 'Y', 'M', 'E', 'N', 'T', 'S', '_', 'M', 'A', 'X', '_', 'R', 'E', 'F', 'U', 'N', 'D', 'S', '_', 'P', 'R', 'O', 'C', 'E', 'S', 'S', 'E', 'D'],
            OrderTransactionErrorCode::AmazonPaymentsOrderReferenceCanceled => seq!['A', 'M', 'A', 'Z', 'O', 'N', '_', 'P', 'A', 'Y', 'M', 'E', 'N', 'T', 'S', '_', 'O', 'R', 'D', 'E', 'R', '_', 'R', 'E', 'F', 'E', 'R', 'E', 'N', 'C', 'E', '_', 'C', 'A', 'N', 'C', 'E', 'L', 'E', 'D'],
            OrderTransactionErrorCode::AmazonPaymentsStale => seq!['A', 'M', 'A', 'Z', 'O', 'N', '_', 'P', 'A', 'Y', 'M', 'E', 'N', 'T', 'S', '_', 'S', 'T', 'A', 'L', 'E'],
            OrderTransactionErrorCode::CallIssuer => seq!['C', 'A', 'L', 'L', '_', 'I', 'S', 'S', 'U', 'E', 'R'],
            OrderTransactionErrorCode::CardDeclined => seq!['C', 'A', 'R', 'D', '_', 'D', 'E', 'C', 'L', 'I', 'N', 'E', 'D'],
            OrderTransactionErrorCode::ConfigError => seq!['C', 'O', 'N', 'F', 'I', 'G', '_', 'E', 'R', 'R', 'O', 'R'],
            OrderTransactionErrorCode::ExpiredCard => seq!['E', 'X', 'P', 'I', 'R', 'E', 'D', '_', 'C', 'A', 'R', 'D'],
            OrderTransactionErrorCode::GenericError => seq!['G', 'E', 'N', 'E', 'R', 'I', 'C', '_', 'E', 'R', 'R', 'O', 'R'],
            OrderTransactionErrorCode::IncorrectAddress => seq!['I', 'N', 'C', 'O', 'R', 'R', 'E', 'C', 'T', '_', 'A', 'D', 'D', 'R', 'E', 'S', 'S'],
            OrderTransactionErrorCode::IncorrectCvc => seq!['I', 'N', 'C', 'O', 'R', 'R', 'E', 'C', 'T', '_', 'C', 'V', 'C'],
            OrderTransactionErrorCode::IncorrectNumber => seq!['I', 'N', 'C', 'O', 'R', 'R', 'E', 'C', 'T', '_', 'N', 'U', 'M', 'B', 'E', 'R'],
            OrderTransactionErrorCode::IncorrectPin => seq!['I', 'N', 'C', 'O', 'R', 'R', 'E', 'C', 'T', '_', 'P', 'I', 'N'],
            OrderTransactionErrorCode::IncorrectZip => seq!['I', 'N', 'C', 'O', 'R', 'R', 'E', 'C', 'T', '_', 'Z', 'I', 'P'],
            OrderTransactionErrorCode::InvalidAmount => seq!['I', 'N', 'V', 'A', 'L', 'I', 'D', '_', 'A', 'M', 'O', 'U', 'N', 'T'],
            OrderTransactionErrorCode::InvalidCountry => seq!['I', 'N', 'V', 'A', 'L', 'I', 'D', '_', 'C', 'O', 'U', 'N', 'T', 'R', 'Y'],
            OrderTransactionErrorCode::InvalidCvc => seq!['I', 'N', 'V', 'A', 'L', 'I', 'D', '_', 'C', 'V', 'C'],
            OrderTransactionErrorCode::InvalidExpiryDate => seq!['I', 'N', 'V', 'A', 'L', 'I', 'D', '_', 'E', 'X', 'P', 'I', 'R', 'Y', '_', 'D', 'A', 'T', 'E'],
            OrderTransactionErrorCode::InvalidNumber => seq!['I', 'N', 'V', 'A', 'L', 'I', 'D', '_', 'N', 'U', 'M', 'B', 'E', 'R'],
            OrderTransactionErrorCode::PaymentMethodUnavailable => seq!['P', 'A', 'Y', 'M', 'E', 'N', 'T', '_', 'M', 'E', 'T', 'H', 'O', 'D', '_', 'U', 'N', 'A', 'V', 'A', 'I', 'L', 'A', 'B', 'L', 'E'],
            OrderTransactionErrorCode::PickUpCard => seq!['P', 'I', 'C', 'K', '_', 'U', 'P', '_', 'C', 'A', 'R', 'D'],
            OrderTransactionErrorCode::ProcessingError => seq!['P', 'R', 'O', 'C', 'E', 'S', 'S', 'I', 'N', 'G', '_', 'E', 'R', 'R', 'O', 'R'],
            OrderTransactionErrorCode::TestModeLiveCard => seq!['T', 'E', 'S', 'T', '_', 'M', 'O', 'D', 'E', '_', 'L', 'I', 'V', 'E', '_', 'C', 'A', 'R', 'D'],
            OrderTransactionErrorCode::UnsupportedFeature => seq!['U', 'N', 'S', 'U', 'P', 'P', 'O', 'R', 'T', 'E', 'D', '_', 'F', 'E', 'A', 'T', 'U', 'R', 'E'],
        }
    }

    /// Reads the GraphQL enum text: "AMAZON_PAYMENTS_INVALID_PAYMENT_METHOD" gives `AmazonPaymentsInvalidPaymentMethod`; "AMAZON_PAYMENTS_MAX_AMOUNT_CHARGED" gives `AmazonPaymentsMaxAmountCharged`; "AMAZON_PAYMENTS_MAX_AMOUNT_REFUNDED" gives `AmazonPaymentsMaxAmountRefunded`; "AMAZON_PAYMENTS_MAX_AUTHORIZATIONS_CAPTURED" gives `AmazonPaymentsMaxAuthorizationsCaptured`; "AMAZON_PAYMENTS_MAX_REFUNDS_PROCESSED" gives `AmazonPaymentsMaxRefundsProcessed`; "AMAZON_PAYMENTS_ORDER_REFERENCE_CANCELED" gives `AmazonPaymentsOrderReferenceCanceled`; "AMAZON_PAYMENTS_STALE" gives `AmazonPaymentsStale`; "CALL_ISSUER" gives `CallIssuer`; "CARD_DECLINED" gives `CardDeclined`; "CONFIG_ERROR" gives `ConfigError`; "EXPIRED_CARD" gives `ExpiredCard`; "GENERIC_ERROR" gives `GenericError`; "INCORRECT_ADDRESS" gives `IncorrectAddress`; "INCORRECT_CVC" gives `IncorrectCvc`; "INCORRECT_NUMBER" gives `IncorrectNumber`; "INCORRECT_PIN" gives `IncorrectPin`; "INCORRECT_ZIP" gives `IncorrectZip`; "INVALID_AMOUNT" gives `InvalidAmount`; "INVALID_COUNTRY" gives `InvalidCountry`; "INVALID_CVC" gives `InvalidCvc`; "INVALID_EXPIRY_DATE" gives `InvalidExpiryDate`; "INVALID_NUMBER" gives `InvalidNumber`; "PAYMENT_METHOD_UNAVAILABLE" gives `PaymentMethodUnavailable`; "PICK_UP_CARD" gives `PickUpCard`; "PROCESSING_ERROR" gives `ProcessingError`; "TEST_MODE_LIVE_CARD" gives `TestModeLiveCard`; any other text gives `UnsupportedFeature`.
    pub fn from_str(error_code: &str) -> (r: OrderTransactionErrorCode)
        ensures
            r == OrderTransactionErrorCode::spec_from_str(error_code@),
    {
        let cs = chars_of(error_code);
        if chars_equal(&cs, &['A', 'M', 'A', 'Z', 'O', 'N', '_', 'P', 'A', 'Y', 'M', 'E', 'N', 'T', 'S', '_', 'I', 'N', 'V', 'A', 'L', 'I', 'D', '_', 'P', 'A', 'Y', 'M', 'E', 'N', 'T', '_', 'M', 'E', 'T', 'H', 'O', 'D']) {
            OrderTransactionErrorCode::AmazonPaymentsInvalidPaymentMethod
        } else if chars_equal(&cs, &['A', 'M', 'A', 'Z', 'O', 'N', '_', 'P', 'A', 'Y', 'M', 'E', 'N', 'T', 'S', '_', 'M', 'A', 'X', '_', 'A', 'M', 'O', 'U', 'N', 'T', '_', 'C', 'H', 'A', 'R', 'G', 'E', 'D']) {
            OrderTransactionErrorCode::AmazonPaymentsMaxAmountCharged
        } else if chars_equal(&cs, &['A', 'M', 'A', 'Z', 'O', 'N', '_', 'P', 'A', 'Y', 'M', 'E', 'N', 'T', 'S', '_', 'M', 'A', 'X', '_', 'A', 'M', 'O', 'U', 'N', 'T', '_', 'R', 'E', 'F', 'U', 'N', 'D', 'E', 'D']) {
            OrderTransactionErrorCode::AmazonPaymentsMaxAmountRefunded
        } else if chars_equal(&cs, &['A', 'M', 'A', 'Z', 'O', 'N', '_', 'P', 'A', 'Y', 'M', 'E', 'N', 'T', 'S', '_', 'M', 'A', 'X', '_', 'A', 'U', 'T', 'H', 'O', 'R', 'I', 'Z', 'A', 'T', 'I', 'O', 'N', 'S', '_', 'C', 'A', 'P', 'T', 'U', 'R', 'E', 'D']) {
            OrderTransactionErrorCode::AmazonPaymentsMaxAuthorizationsCaptured
        } else if chars_equal(&cs, &['A', 'M', 'A', 'Z', 'O', 'N', '_', 'P', 'A', 'Y', 'M', 'E', 'N', 'T', 'S', '_', 'M', 'A', 'X', '_', 'R', 'E', 'F', 'U', 'N', 'D', 'S', '_', 'P', 'R', 'O', 'C', 'E', 'S', 'S', 'E', 'D']) {
            OrderTransactionErrorCode::AmazonPaymentsMaxRefundsProcessed
        } else if chars_equal(&cs, &['A', 'M', 'A', 'Z', 'O', 'N', '_', 'P', 'A', 'Y', 'M', 'E', 'N', 'T', 'S', '_', 'O', 'R', 'D', 'E', 'R', '_', 'R', 'E', 'F', 'E', 'R', 'E', 'N', 'C', 'E', '_', 'C', 'A', 'N', 'C', 'E', 'L', 'E', 'D']) {
            OrderTransactionErrorCode::AmazonPaymentsOrderReferenceCanceled
        } else if chars_equal(&cs, &['A', 'M', 'A', 'Z', 'O', 'N', '_', 'P', 'A', 'Y', 'M', 'E', 'N', 'T', 'S', '_', 'S', 'T', 'A', 'L', 'E']) {
            OrderTransactionErrorCode::AmazonPaymentsStale
        } else if chars_equal(&cs, &['C', 'A', 'L', 'L', '_', 'I', 'S', 'S', 'U', 'E', 'R']) {
            OrderTransactionErrorCode::CallIssuer
        } else if chars_equal(&cs, &['C', 'A', 'R', 'D', '_', 'D', 'E', 'C', 'L', 'I', 'N', 'E', 'D']) {
            OrderTransactionErrorCode::CardDeclined
        } else if chars_equal(&cs, &['C', 'O', 'N', 'F', 'I', 'G', '_', 'E', 'R', 'R', 'O', 'R']) {
            OrderTransactionErrorCode::ConfigError
        } else if chars_equal(&cs, &['E', 'X', 'P', 'I', 'R', 'E', 'D', '_', 'C', 'A', 'R', 'D']) {
            OrderTransactionErrorCode::ExpiredCard
        } else if chars_equal(&cs, &['G', 'E', 'N', 'E', 'R', 'I', 'C', '_', 'E', 'R', 'R', 'O', 'R']) {
            OrderTransactionErrorCode::GenericError
        } else if chars_equal(&cs, &['I', 'N', 'C', 'O', 'R', 'R', 'E', 'C', 'T', '_', 'A', 'D', 'D', 'R', 'E', 'S', 'S']) {
            OrderTransactionErrorCode::IncorrectAddress
        } else if chars_equal(&cs, &['I', 'N', 'C', 'O', 'R', 'R', 'E', 'C', 'T', '_', 'C', 'V', 'C']) {
            OrderTransactionErrorCode::IncorrectCvc
        } else if chars_equal(&cs, &['I', 'N', 'C', 'O', 'R', 'R', 'E', 'C', 'T', '_', 'N', 'U', 'M', 'B', 'E', 'R']) {
            OrderTransactionErrorCode::IncorrectNumber
        } else if chars_equal(&cs, &['I', 'N', 'C', 'O', 'R', 'R', 'E', 'C', 'T', '_', 'P', 'I', 'N']) {
            OrderTransactionErrorCode::IncorrectPin
        } else if chars_equal(&cs, &['I', 'N', 'C', 'O', 'R', 'R', 'E', 'C', 'T', '_', 'Z', 'I', 'P']) {
            OrderTransactionErrorCode::IncorrectZip
        } else if chars_equal(&cs, &['I', 'N', 'V', 'A', 'L', 'I', 'D', '_', 'A', 'M', 'O', 'U', 'N', 'T']) {
            OrderTransactionErrorCode::InvalidAmount
        } else if chars_equal(&cs, &['I', 'N', 'V', 'A', 'L', 'I', 'D', '_', 'C', 'O', 'U', 'N', 'T', 'R', 'Y']) {
            OrderTransactionErrorCode::InvalidCountry
        } else if chars_equal(&cs, &['I', 'N', 'V', 'A', 'L', 'I', 'D', '_', 'C', 'V', 'C']) {
            OrderTransactionErrorCode::InvalidCvc
        } else if chars_equal(&cs, &['I', 'N', 'V', 'A', 'L', 'I', 'D', '_', 'E', 'X', 'P', 'I', 'R', 'Y', '_', 'D', 'A', 'T', 'E']) {
            OrderTransactionErrorCode::InvalidExpiryDate
        } else if chars_equal(&cs, &['I', 'N', 'V', 'A', 'L', 'I', 'D', '_', 'N', 'U', 'M', 'B', 'E', 'R']) {
            OrderTransactionErrorCode::InvalidNumber
        } else if chars_equal(&cs, &['P', 'A', 'Y', 'M', 'E', 'N', 'T', '_', 'M', 'E', 'T', 'H', 'O', 'D', '_', 'U', 'N', 'A', 'V', 'A', 'I', 'L', 'A', 'B', 'L', 'E']) {
            OrderTransactionErrorCode::PaymentMethodUnavailable
        } else if chars_equal(&cs, &['P', 'I', 'C', 'K', '_', 'U', 'P', '_', 'C', 'A', 'R', 'D']) {
            OrderTransactionErrorCode::PickUpCard
        } else if chars_equal(&cs, &['P', 'R', 'O', 'C', 'E', 'S', 'S', 'I', 'N', 'G', '_', 'E', 'R', 'R', 'O', 'R']) {
            OrderTransactionErrorCode::ProcessingError
        } else if chars_equal(&cs, &['T', 'E', 'S', 'T', '_', 'M', 'O', 'D', 'E', '_', 'L', 'I', 'V', 'E', '_', 'C', 'A', 'R', 'D']) {
            OrderTransactionErrorCode::TestModeLiveCard
        } else {
            OrderTransactionErrorCode::UnsupportedFeature
        }
    }

    /// The GraphQL enum text of the value.
    pub fn to_string(&self) -> (r: String)
        ensures
            r@ == self.spec_to_string(),
    {
        let text: &[char] = match self {
            OrderTransactionErrorCode::AmazonPaymentsInvalidPaymentMethod => &['A', 'M', 'A', 'Z', 'O', 'N', '_', 'P', 'A', 'Y', 'M', 'E', 'N', 'T', 'S', '_', 'I', 'N', 'V', 'A', 'L', 'I', 'D', '_', 'P', 'A', 'Y', 'M', 'E', 'N', 'T', '_', 'M', 'E', 'T', 'H', 'O', 'D'],
            OrderTransactionErrorCode::AmazonPaymentsMaxAmountCharged => &['A', 'M', 'A', 'Z', 'O', 'N', '_', 'P', 'A', 'Y', 'M', 'E', 'N', 'T', 'S', '_', 'M', 'A', 'X', '_', 'A', 'M', 'O', 'U', 'N', 'T', '_', 'C', 'H', 'A', 'R', 'G', 'E', 'D'],
            OrderTransactionErrorCode::AmazonPaymentsMaxAmountRefunded => &['A', 'M', 'A', 'Z', 'O', 'N', '_', 'P', 'A', 'Y', 'M', 'E', 'N', 'T', 'S', '_', 'M', 'A', 'X', '_', 'A', 'M', 'O', 'U', 'N', 'T', '_', 'R', 'E', 'F', 'U', 'N', 'D', 'E', 'D'],
            OrderTransactionErrorCode::AmazonPaymentsMaxAuthorizationsCaptured => &['A', 'M', 'A', 'Z', 'O', 'N', '_', 'P', 'A', 'Y', 'M', 'E', 'N', 'T', 'S', '_', 'M', 'A', 'X', '_', 'A', 'U', 'T', 'H', 'O', 'R', 'I', 'Z', 'A', 'T', 'I', 'O', 'N', 'S', '_', 'C', 'A', 'P', 'T', 'U', 'R', 'E', 'D'],
            OrderTransactionErrorCode::AmazonPaymentsMaxRefundsProcessed => &['A', 'M', 'A', 'Z', 'O', 'N', '_', 'P', 'A', 'Y', 'M', 'E', 'N', 'T', 'S', '_', 'M', 'A', 'X', '_', 'R', 'E', 'F', 'U', 'N', 'D', 'S', '_', 'P', 'R', 'O', 'C', 'E', 'S', 'S', 'E', 'D'],
            OrderTransactionErrorCode::AmazonPaymentsOrderReferenceCanceled => &['A', 'M', 'A', 'Z', 'O', 'N', '_', 'P', 'A', 'Y', 'M', 'E', 'N', 'T', 'S', '_', 'O', 'R', 'D', 'E', 'R', '_', 'R', 'E', 'F', 'E', 'R', 'E', 'N', 'C', 'E', '_', 'C', 'A', 'N', 'C', 'E', 'L', 'E', 'D'],
            OrderTransactionErrorCode::AmazonPaymentsStale => &['A', 'M', 'A', 'Z', 'O', 'N', '_', 'P', 'A', 'Y', 'M', 'E', 'N', 'T', 'S', '_', 'S', 'T', 'A', 'L', 'E'],
            OrderTransactionErrorCode::CallIssuer => &['C', 'A', 'L', 'L', '_', 'I', 'S', 'S', 'U', 'E', 'R'],
            OrderTransactionErrorCode::CardDeclined => &['C', 'A', 'R', 'D', '_', 'D', 'E', 'C', 'L', 'I', 'N', 'E', 'D'],
            OrderTransactionErrorCode::ConfigError => &['C', 'O', 'N', 'F', 'I', 'G', '_', 'E', 'R', 'R', 'O', 'R'],
            OrderTransactionErrorCode::ExpiredCard => &['E', 'X', 'P', 'I', 'R', 'E', 'D', '_', 'C', 'A', 'R', 'D'],
            OrderTransactionErrorCode::GenericError => &['G', 'E', 'N', 'E', 'R', 'I', 'C', '_', 'E', 'R', 'R', 'O', 'R'],
            OrderTransactionErrorCode::IncorrectAddress => &['I', 'N', 'C', 'O', 'R', 'R', 'E', 'C', 'T', '_', 'A', 'D', 'D', 'R', 'E', 'S', 'S'],
            OrderTransactionErrorCode::IncorrectCvc => &['I', 'N', 'C', 'O', 'R', 'R', 'E', 'C', 'T', '_', 'C', 'V', 'C'],
            OrderTransactionErrorCode::IncorrectNumber => &['I', 'N', 'C', 'O', 'R', 'R', 'E', 'C', 'T', '_', 'N', 'U', 'M', 'B', 'E', 'R'],
            OrderTransactionErrorCode::IncorrectPin => &['I', 'N', 'C', 'O', 'R', 'R', 'E', 'C', 'T', '_', 'P', 'I', 'N'],
            OrderTransactionErrorCode::IncorrectZip => &['I', 'N', 'C', 'O', 'R', 'R', 'E', 'C', 'T', '_', 'Z', 'I', 'P'],
            OrderTransactionErrorCode::InvalidAmount => &['I', 'N', 'V', 'A', 'L', 'I', 'D', '_', 'A', 'M', 'O', 'U', 'N', 'T'],
            OrderTransactionErrorCode::InvalidCountry => &['I', 'N', 'V', 'A', 'L', 'I', 'D', '_', 'C', 'O', 'U', 'N', 'T', 'R', 'Y'],
            OrderTransactionErrorCode::InvalidCvc => &['I', 'N', 'V', 'A', 'L', 'I', 'D', '_', 'C', 'V', 'C'],
            OrderTransactionErrorCode::InvalidExpiryDate => &['I', 'N', 'V', 'A', 'L', 'I', 'D', '_', 'E', 'X', 'P', 'I', 'R', 'Y', '_', 'D', 'A', 'T', 'E'],
            OrderTransactionErrorCode::InvalidNumber => &['I', 'N', 'V', 'A', 'L', 'I', 'D', '_', 'N', 'U', 'M', 'B', 'E', 'R'],
            OrderTransactionErrorCode::PaymentMethodUnavailable => &['P', 'A', 'Y', 'M', 'E', 'N', 'T', '_', 'M', 'E', 'T', 'H', 'O', 'D', '_', 'U', 'N', 'A', 'V', 'A', 'I', 'L', 'A', 'B', 'L', 'E'],
            OrderTransactionErrorCode::PickUpCard => &['P', 'I', 'C', 'K', '_', 'U', 'P', '_', 'C', 'A', 'R', 'D'],
            OrderTransactionErrorCode::ProcessingError => &['P', 'R', 'O', 'C', 'E', 'S', 'S', 'I', 'N', 'G', '_', 'E', 'R', 'R', 'O', 'R'],
            OrderTransactionErrorCode::TestModeLiveCard => &['T', 'E', 'S', 'T', '_', 'M', 'O', 'D', 'E', '_', 'L', 'I', 'V', 'E', '_', 'C', 'A', 'R', 'D'],
            OrderTransactionErrorCode::UnsupportedFeature => &['U', 'N', 'S', 'U', 'P', 'P', 'O', 'R', 'T', 'E', 'D', '_', 'F', 'E', 'A', 'T', 'U', 'R', 'E'],
        };
        string_from_slice(text)
    }
}

/// Reading back the text of a value gives the value again.
pub proof fn lemma_order_transaction_error_code_round_trip(v: OrderTransactionErrorCode)
    ensures
        OrderTransactionErrorCode::spec_from_str(v.spec_to_string()) == v,
{
    match v {
        OrderTransactionErrorCode::AmazonPaymentsInvalidPaymentMethod => {},
        OrderTransactionErrorCode::AmazonPaymentsMaxAmountCharged => {},
        OrderTransactionErrorCode::AmazonPaymentsMaxAmountRefunded => {},
        OrderTransactionErrorCode::AmazonPaymentsMaxAuthorizationsCaptured => {},
        OrderTransactionErrorCode::AmazonPaymentsMaxRefundsProcessed => {},
        OrderTransactionErrorCode::AmazonPaymentsOrderReferenceCanceled => {},
        OrderTransactionErrorCode::AmazonPaymentsStale => {},
        OrderTransactionErrorCode::CallIssuer => {},
        OrderTransactionErrorCode::CardDeclined => {},
        OrderTransactionErrorCode::ConfigError => {},
        OrderTransactionErrorCode::ExpiredCard => {
            assert(seq!['E', 'X', 'P', 'I', 'R', 'E', 'D', '_', 'C', 'A', 'R', 'D'][0] != seq!['C', 'O', 'N', 'F', 'I', 'G', '_', 'E', 'R', 'R', 'O', 'R'][0]);
        },
        OrderTransactionErrorCode::GenericError => {
            assert(seq!['G', 'E', 'N', 'E', 'R', 'I', 'C', '_', 'E', 'R', 'R', 'O', 'R'][0] != seq!['C', 'A', 'R', 'D', '_', 'D', 'E', 'C', 'L', 'I', 'N', 'E', 'D'][0]);
        },
        OrderTransactionErrorCode::IncorrectAddress => {},
        OrderTransactionErrorCode::IncorrectCvc => {
            assert(seq!['I', 'N', 'C', 'O', 'R', 'R', 'E', 'C', 'T', '_', 'C', 'V', 'C'][0] != seq!['C', 'A', 'R', 'D', '_', 'D', 'E', 'C', 'L', 'I', 'N', 'E', 'D'][0]);
            assert(seq!['I', 'N', 'C', 'O', 'R', 'R', 'E', 'C', 'T', '_', 'C', 'V', 'C'][0] != seq!['G', 'E', 'N', 'E', 'R', 'I', 'C', '_', 'E', 'R', 'R', 'O', 'R'][0]);
        },
        OrderTransactionErrorCode::IncorrectNumber => {},
        OrderTransactionErrorCode::IncorrectPin => {
            assert(seq!['I', 'N', 'C', 'O', 'R', 'R', 'E', 'C', 'T', '_', 'P', 'I', 'N'][0] != seq!['C', 'A', 'R', 'D', '_', 'D', 'E', 'C', 'L', 'I', 'N', 'E', 'D'][0]);
            assert(seq!['I', 'N', 'C', 'O', 'R', 'R', 'E', 'C', 'T', '_', 'P', 'I', 'N'][0] != seq!['G', 'E', 'N', 'E', 'R', 'I', 'C', '_', 'E', 'R', 'R', 'O', 'R'][0]);
            assert(seq!['I', 'N', 'C', 'O', 'R', 'R', 'E', 'C', 'T', '_', 'P', 'I', 'N'][10] != seq!['I', 'N', 'C', 'O', 'R', 'R', 'E', 'C', 'T', '_', 'C', 'V', 'C'][10]);
        },
        OrderTransactionErrorCode::IncorrectZip => {
            assert(seq!['I', 'N', 'C', 'O', 'R', 'R', 'E', 'C', 'T', '_', 'Z', 'I', 'P'][0] != seq!['C', 'A', 'R', 'D', '_', 'D', 'E', 'C', 'L', 'I', 'N', 'E', 'D'][0]);
            assert(seq!['I', 'N', 'C', 'O', 'R', 'R', 'E', 'C', 'T', '_', 'Z', 'I', 'P'][0] != seq!['G', 'E', 'N', 'E', 'R', 'I', 'C', '_', 'E', 'R', 'R', 'O', 'R'][0]);
            assert(seq!['I', 'N', 'C', 'O', 'R', 'R', 'E', 'C', 'T', '_', 'Z', 'I', 'P'][10] != seq!['I', 'N', 'C', 'O', 'R', 'R', 'E', 'C', 'T', '_', 'C', 'V', 'C'][10]);
            assert(seq!['I', 'N', 'C', 'O', 'R', 'R', 'E', 'C', 'T', '_', 'Z', 'I', 'P'][10] != seq!['I', 'N', 'C', 'O', 'R', 'R', 'E', 'C', 'T', '_', 'P', 'I', 'N'][10]);
        },
        OrderTransactionErrorCode::InvalidAmount => {},
        OrderTransactionErrorCode::InvalidCountry => {},
        OrderTransactionErrorCode::InvalidCvc => {
            assert(seq!['I', 'N', 'V', 'A', 'L', 'I', 'D', '_', 'C', 'V', 'C'][0] != seq!['C', 'A', 'L', 'L', '_', 'I', 'S', 'S', 'U', 'E', 'R'][0]);
        },
        OrderTransactionErrorCode::InvalidExpiryDate => {},
        OrderTransactionErrorCode::InvalidNumber => {
            assert(seq!['I', 'N', 'V', 'A', 'L', 'I', 'D', '_', 'N', 'U', 'M', 'B', 'E', 'R'][8] != seq!['I', 'N', 'V', 'A', 'L', 'I', 'D', '_', 'A', 'M', 'O', 'U', 'N', 'T'][8]);
        },
        OrderTransactionErrorCode::PaymentMethodUnavailable => {},
        OrderTransactionErrorCode::PickUpCard => {
            assert(seq!['P', 'I', 'C', 'K', '_', 'U', 'P', '_', 'C', 'A', 'R', 'D'][0] != seq!['C', 'O', 'N', 'F', 'I', 'G', '_', 'E', 'R', 'R', 'O', 'R'][0]);
            assert(seq!['P', 'I', 'C', 'K', '_', 'U', 'P', '_', 'C', 'A', 'R', 'D'][0] != seq!['E', 'X', 'P', 'I', 'R', 'E', 'D', '_', 'C', 'A', 'R', 'D'][0]);
        },
        OrderTransactionErrorCode::ProcessingError => {
            assert(seq!['P', 'R', 'O', 'C', 'E', 'S', 'S', 'I', 'N', 'G', '_', 'E', 'R', 'R', 'O', 'R'][0] != seq!['I', 'N', 'C', 'O', 'R', 'R', 'E', 'C', 'T', '_', 'N', 'U', 'M', 'B', 'E', 'R'][0]);
        },
        OrderTransactionErrorCode::TestModeLiveCard => {
            assert(seq!['T', 'E', 'S', 'T', '_', 'M', 'O', 'D', 'E', '_', 'L', 'I', 'V', 'E', '_', 'C', 'A', 'R', 'D'][0] != seq!['I', 'N', 'V', 'A', 'L', 'I', 'D', '_', 'E', 'X', 'P', 'I', 'R', 'Y', '_', 'D', 'A', 'T', 'E'][0]);
        },
        OrderTransactionErrorCode::UnsupportedFeature => {
            assert(seq!['U', 'N', 'S', 'U', 'P', 'P', 'O', 'R', 'T', 'E', 'D', '_', 'F', 'E', 'A', 'T', 'U', 'R', 'E'].len() != seq!['A', 'M', 'A', 'Z', 'O', 'N', '_', 'P', 'A', 'Y', 'M', 'E', 'N', 'T', 'S', '_', 'I', 'N', 'V', 'A', 'L', 'I', 'D', '_', 'P', 'A', 'Y', 'M', 'E', 'N', 'T', '_', 'M', 'E', 'T', 'H', 'O', 'D'].len());
            assert(seq!['U', 'N', 'S', 'U', 'P', 'P', 'O', 'R', 'T', 'E', 'D', '_', 'F', 'E', 'A', 'T', 'U', 'R', 'E'].len() != seq!['A', 'M', 'A', 'Z', 'O', 'N', '_', 'P', 'A', 'Y', 'M', 'E', 'N', 'T', 'S', '_', 'M', 'A', 'X', '_', 'A', 'M', 'O', 'U', 'N', 'T', '_', 'C', 'H', 'A', 'R', 'G', 'E', 'D'].len());
            assert(seq!['U', 'N', 'S', 'U', 'P', 'P', 'O', 'R', 'T', 'E', 'D', '_', 'F', 'E', 'A', 'T', 'U', 'R', 'E'].len() != seq!['A', 'M', 'A', 'Z', 'O', 'N', '_', 'P', 'A', 'Y', 'M', 'E', 'N', 'T', 'S', '_', 'M', 'A', 'X', '_', 'A', 'M', 'O', 'U', 'N', 'T', '_', 'R', 'E', 'F', 'U', 'N', 'D', 'E', 'D'].len());
            assert(seq!['U', 'N', 'S', 'U', 'P', 'P', 'O', 'R', 'T', 'E', 'D', '_', 'F', 'E', 'A', 'T', 'U', 'R', 'E'].len() != seq!['A', 'M', 'A', 'Z', 'O', 'N', '_', 'P', 'A', 'Y', 'M', 'E', 'N', 'T', 'S', '_', 'M', 'A', 'X', '_', 'A', 'U', 'T', 'H', 'O', 'R', 'I', 'Z', 'A', 'T', 'I', 'O', 'N', 'S', '_', 'C', 'A', 'P', 'T', 'U', 'R', 'E', 'D'].len());
            assert(seq!['U', 'N', 'S', 'U', 'P', 'P', 'O', 'R', 'T', 'E', 'D', '_', 'F', 'E', 'A', 'T', 'U', 'R', 'E'].len() != seq!['A', 'M', 'A', 'Z', 'O', 'N', '_', 'P', 'A', 'Y', 'M', 'E', 'N', 'T', 'S', '_', 'M', 'A', 'X', '_', 'R', 'E', 'F', 'U', 'N', 'D', 'S', '_', 'P', 'R', 'O', 'C', 'E', 'S', 'S', 'E', 'D'].len());
            assert(seq!['U', 'N', 'S', 'U', 'P', 'P', 'O', 'R', 'T', 'E', 'D', '_', 'F', 'E', 'A', 'T', 'U', 'R', 'E'].len() != seq!['A', 'M', 'A', 'Z', 'O', 'N', '_', 'P', 'A', 'Y', 'M', 'E', 'N', 'T', 'S', '_', 'O', 'R', 'D', 'E', 'R', '_', 'R', 'E', 'F', 'E', 'R', 'E', 'N', 'C', 'E', '_', 'C', 'A', 'N', 'C', 'E', 'L', 'E', 'D'].len());
            assert(seq!['U', 'N', 'S', 'U', 'P', 'P', 'O', 'R', 'T', 'E', 'D', '_', 'F', 'E', 'A', 'T', 'U', 'R', 'E'].len() != seq!['A', 'M', 'A', 'Z', 'O', 'N', '_', 'P', 'A', 'Y', 'M', 'E', 'N', 'T', 'S', '_', 'S', 'T', 'A', 'L', 'E'].len());
            assert(seq!['U', 'N', 'S', 'U', 'P', 'P', 'O', 'R', 'T', 'E', 'D', '_', 'F', 'E', 'A', 'T', 'U', 'R', 'E'].len() != seq!['C', 'A', 'L', 'L', '_', 'I', 'S', 'S', 'U', 'E', 'R'].len());
            assert(seq!['U', 'N', 'S', 'U', 'P', 'P', 'O', 'R', 'T', 'E', 'D', '_', 'F', 'E', 'A', 'T', 'U', 'R', 'E'].len() != seq!['C', 'A', 'R', 'D', '_', 'D', 'E', 'C', 'L', 'I', 'N', 'E', 'D'].len());
            assert(seq!['U', 'N', 'S', 'U', 'P', 'P', 'O', 'R', 'T', 'E', 'D', '_', 'F', 'E', 'A', 'T', 'U', 'R', 'E'].len() != seq!['C', 'O', 'N', 'F', 'I', 'G', '_', 'E', 'R', 'R', 'O', 'R'].len());
            assert(seq!['U', 'N', 'S', 'U', 'P', 'P', 'O', 'R', 'T', 'E', 'D', '_', 'F', 'E', 'A', 'T', 'U', 'R', 'E'].len() != seq!['E', 'X', 'P', 'I', 'R', 'E', 'D', '_', 'C', 'A', 'R', 'D'].len());
            assert(seq!['U', 'N', 'S', 'U', 'P', 'P', 'O', 'R', 'T', 'E', 'D', '_', 'F', 'E', 'A', 'T', 'U', 'R', 'E'].len() != seq!['G', 'E', 'N', 'E', 'R', 'I', 'C', '_', 'E', 'R', 'R', 'O', 'R'].len());
            assert(seq!['U', 'N', 'S', 'U', 'P', 'P', 'O', 'R', 'T', 'E', 'D', '_', 'F', 'E', 'A', 'T', 'U', 'R', 'E'].len() != seq!['I', 'N', 'C', 'O', 'R', 'R', 'E', 'C', 'T', '_', 'A', 'D', 'D', 'R', 'E', 'S', 'S'].len());
            assert(seq!['U', 'N', 'S', 'U', 'P', 'P', 'O', 'R', 'T', 'E', 'D', '_', 'F', 'E', 'A', 'T', 'U', 'R', 'E'].len() != seq!['I', 'N', 'C', 'O', 'R', 'R', 'E', 'C', 'T', '_', 'C', 'V', 'C'].len());
            assert(seq!['U', 'N', 'S', 'U', 'P', 'P', 'O', 'R', 'T', 'E', 'D', '_', 'F', 'E', 'A', 'T', 'U', 'R', 'E'].len() != seq!['I', 'N', 'C', 'O', 'R', 'R', 'E', 'C', 'T', '_', 'N', 'U', 'M', 'B', 'E', 'R'].len());
            assert(seq!['U', 'N', 'S', 'U', 'P', 'P', 'O', 'R', 'T', 'E', 'D', '_', 'F', 'E', 'A', 'T', 'U', 'R', 'E'].len() != seq!['I', 'N', 'C', 'O', 'R', 'R', 'E', 'C', 'T', '_', 'P', 'I', 'N'].len());
            assert(seq!['U', 'N', 'S', 'U', 'P', 'P', 'O', 'R', 'T', 'E', 'D', '_', 'F', 'E', 'A', 'T', 'U', 'R', 'E'].len() != seq!['I', 'N', 'C', 'O', 'R', 'R', 'E', 'C', 'T', '_', 'Z', 'I', 'P'].len());
            assert(seq!['U', 'N', 'S', 'U', 'P', 'P', 'O', 'R', 'T', 'E', 'D', '_', 'F', 'E', 'A', 'T', 'U', 'R', 'E'].len() != seq!['I', 'N', 'V', 'A', 'L', 'I', 'D', '_', 'A', 'M', 'O', 'U', 'N', 'T'].len());
            assert(seq!['U', 'N', 'S', 'U', 'P', 'P', 'O', 'R', 'T', 'E', 'D', '_', 'F', 'E', 'A', 'T', 'U', 'R', 'E'].len() != seq!['I', 'N', 'V', 'A', 'L', 'I', 'D', '_', 'C', 'O', 'U', 'N', 'T', 'R', 'Y'].len());
            assert(seq!['U', 'N', 'S', 'U', 'P', 'P', 'O', 'R', 'T', 'E', 'D', '_', 'F', 'E', 'A', 'T', 'U', 'R', 'E'].len() != seq!['I', 'N', 'V', 'A', 'L', 'I', 'D', '_', 'C', 'V', 'C'].len());
            assert(seq!['U', 'N', 'S', 'U', 'P', 'P', 'O', 'R', 'T', 'E', 'D', '_', 'F', 'E', 'A', 'T', 'U', 'R', 'E'][0] != seq!['I', 'N', 'V', 'A', 'L', 'I', 'D', '_', 'E', 'X', 'P', 'I', 'R', 'Y', '_', 'D', 'A', 'T', 'E'][0]);
            assert(seq!['U', 'N', 'S', 'U', 'P', 'P', 'O', 'R', 'T', 'E', 'D', '_', 'F', 'E', 'A', 'T', 'U', 'R', 'E'].len() != seq!['I', 'N', 'V', 'A', 'L', 'I', 'D', '_', 'N', 'U', 'M', 'B', 'E', 'R'].len());
            assert(seq!['U', 'N', 'S', 'U', 'P', 'P', 'O', 'R', 'T', 'E', 'D', '_', 'F', 'E', 'A', 'T', 'U', 'R', 'E'].len() != seq!['P', 'A', 'Y', 'M', 'E', 'N', 'T', '_', 'M', 'E', 'T', 'H', 'O', 'D', '_', 'U', 'N', 'A', 'V', 'A', 'I', 'L', 'A', 'B', 'L', 'E'].len());
            assert(seq!['U', 'N', 'S', 'U', 'P', 'P', 'O', 'R', 'T', 'E', 'D', '_', 'F', 'E', 'A', 'T', 'U', 'R', 'E'].len() != seq!['P', 'I', 'C', 'K', '_', 'U', 'P', '_', 'C', 'A', 'R', 'D'].len());
            assert(seq!['U', 'N', 'S', 'U', 'P', 'P', 'O', 'R', 'T', 'E', 'D', '_', 'F', 'E', 'A', 'T', 'U', 'R', 'E'].len() != seq!['P', 'R', 'O', 'C', 'E', 'S', 'S', 'I', 'N', 'G', '_', 'E', 'R', 'R', 'O', 'R'].len());
            assert(seq!['U', 'N', 'S', 'U', 'P', 'P', 'O', 'R', 'T', 'E', 'D', '_', 'F', 'E', 'A', 'T', 'U', 'R', 'E'][0] != seq!['T', 'E', 'S', 'T', '_', 'M', 'O', 'D', 'E', '_', 'L', 'I', 'V', 'E', '_', 'C', 'A', 'R', 'D'][0]);
        },
    }
}

/// The payment details of a transaction, by payment kind.
#[derive(Debug, Clone)]
pub enum PaymentDetails {
    CardPaymentDetails(CardPaymentDetails),
    LocalPaymentMethodsPaymentDetails(LocalPaymentMethodsPaymentDetails),
    ShopPayInstallmentsPaymentDetails(ShopPayInstallmentsPaymentDetails),
}

#[derive(Debug, Clone)]
pub struct CardPaymentDetails {
    pub avs_result_code: Option<String>,
    pub bin: Option<String>,
    pub company: Option<String>,
    pub cvv_result_code: Option<String>,
    pub expiration_month: Option<i32>,
    pub expiration_year: Option<i32>,
    pub name: Option<String>,
    pub number: Option<String>,
    pub payment_method_name: Option<String>,
    pub wallet: Option<DigitalWallet>,
}

#[derive(Debug, Clone)]
pub struct LocalPaymentMethodsPaymentDetails {
    pub payment_descriptor: Option<String>,
    pub payment_method_name: Option<String>,
}

#[derive(Debug, Clone)]
pub struct ShopPayInstallmentsPaymentDetails {
    pub payment_method_name: Option<String>,
}

#[derive(Debug, Clone)]
pub struct TransactionFee {
    pub amount: Option<MoneyV2>,
    pub flat_fee: Option<MoneyV2>,
    pub flat_fee_name: Option<String>,
    pub id: Option<String>,
    pub rate: Option<Decimal>,
}

} // verus!
