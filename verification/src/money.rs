//! Monetary values: the `Money` string type whose contents always parse as
//! a float, exact cents-to-dollars rendering, and the `Decimal` scalar.
use vstd::prelude::*;
use crate::numeric::{is_float_literal, is_float_literal_chars, strip_sign, is_ascii_digit, is_mantissa, decimal_digits, digit_char, lemma_decimal_digits_are_digits, spec_parse_i32, parse_i32, push_decimal_digits, digit_char_of};
use crate::text::{chars_of, string_from_chars, str_eq};

verus! {

/// A monetary amount held as its decimal text. The text always satisfies
/// the float grammar that `str::parse::<f64>` accepts.
#[derive(Debug, PartialEq, Eq)]
pub struct Money(String);

impl Clone for Money {
    fn clone(&self) -> (r: Money)
        ensures
            r@ == self@,
    {
        proof {
            use_type_invariant(self);
        }
        Money(self.0.clone())
    }
}

impl View for Money {
    type V = Seq<char>;

    closed spec fn view(&self) -> Seq<char> {
        self.0@
    }
}

/// The dollar amount `cents / 100` written with exactly two decimals, a
/// leading `-` for negative amounts (e.g. `-5` gives `"-0.05"`).
pub open spec fn spec_cents_to_dollars(cents: int) -> Seq<char> {
    let a: nat = if cents < 0 {
        (-cents) as nat
    } else {
        cents as nat
    };
    (if cents < 0 {
        seq!['-']
    } else {
        Seq::<char>::empty()
    }) + decimal_digits(a / 100) + seq!['.', digit_char((a % 100) / 10), digit_char(a % 10)]
}

/// Every amount rendered from cents is a float literal.
pub proof fn lemma_cents_rendering_is_float_literal(cents: int)
    ensures
        is_float_literal(spec_cents_to_dollars(cents)),
{
    let a: nat = if cents < 0 {
        (-cents) as nat
    } else {
        cents as nat
    };
    let s = spec_cents_to_dollars(cents);
    let q = decimal_digits(a / 100);
    lemma_decimal_digits_are_digits(a / 100);
    let t = q + seq!['.', digit_char((a % 100) / 10), digit_char(a % 10)];
    assert(strip_sign(s) == t) by {
        if cents < 0 {
            assert(s == seq!['-'] + t);
            assert((seq!['-'] + t).skip(1) == t);
        } else {
            assert(s == t);
            assert(is_ascii_digit(q[0]));
        }
    }
    let k = q.len() as int;
    assert(t.take(k) == q);
    assert(t.skip(k + 1) == seq![digit_char((a % 100) / 10), digit_char(a % 10)]);
    assert(is_mantissa(t.take(t.len() as int))) by {
        assert(t.take(t.len() as int) == t);
        assert(t.take(k) == q);
    }
    assert(t.take(t.len() as int) == t);
}

/// Writes `cents / 100` with two decimals.
pub fn cents_to_dollars(cents: i32) -> (r: String)
    ensures
        r@ == spec_cents_to_dollars(cents as int),
{
    let neg = cents < 0;
    let a: u64 = if neg {
        (0 - (cents as i64)) as u64
    } else {
        cents as u64
    };
    let mut out: Vec<char> = Vec::new();
    if neg {
        out.push('-');
    }
    push_decimal_digits(a / 100, &mut out);
    out.push('.');
    out.push(digit_char_of((a % 100) / 10));
    out.push(digit_char_of(a % 10));
    string_from_chars(&out)
}

impl Money {
    #[verifier::type_invariant]
    spec fn holds_float_literal(self) -> bool {
        is_float_literal(self.0@)
    }

    /// Creates a `Money` from its text. Fails with "Invalid monetary value"
    /// exactly when the text is not a float literal.
    pub fn new(value: &str) -> (r: Result<Money, &'static str>)
        ensures
            r is Ok <==> is_float_literal(value@),
            r matches Ok(m) ==> m@ == value@,
            r matches Err(e) ==> e@ == "Invalid monetary value"@,
    {
        if Self::is_valid(value) {
            Ok(Money(String::from_str(value)))
        } else {
            Err("Invalid monetary value")
        }
    }

    /// Whether the text parses as an `f64`.
    fn is_valid(value: &str) -> (b: bool)
        ensures
            b == is_float_literal(value@),
    {
        let v = chars_of(value);
        is_float_literal_chars(&v)
    }

    /// Converts an integer number of cents, given as text, to dollars with
    /// two decimals. Fails with "Failed to parse string to integer" exactly
    /// when the text is not an `i32` literal.
    pub fn from_cents(cents_str: &str) -> (r: Result<Money, &'static str>)
        ensures
            r is Ok <==> spec_parse_i32(cents_str@) is Some,
            r matches Ok(m) ==> m@ == spec_cents_to_dollars(spec_parse_i32(cents_str@)->0),
            r matches Err(e) ==> e@ == "Failed to parse string to integer"@,
    {
        match parse_i32(cents_str) {
            None => Err("Failed to parse string to integer"),
            Some(cents) => {
                let dollars = cents_to_dollars(cents);
                proof {
                    lemma_cents_rendering_is_float_literal(cents as int);
                }
                Money::new(dollars.as_str())
            },
        }
    }

    /// The text of the amount; it is always a float literal.
    pub fn value(&self) -> (r: &str)
        ensures
            r@ == self@,
            is_float_literal(r@),
    {
        proof {
            use_type_invariant(self);
        }
        self.0.as_str()
    }
}

/// The `Decimal` GraphQL scalar, held as text.
#[derive(Debug, Clone, PartialEq)]
pub struct Decimal {
    value: String,
}

impl View for Decimal {
    type V = Seq<char>;

    closed spec fn view(&self) -> Seq<char> {
        self.value@
    }
}

/// Text that a decimal can be made from: an owned `String` or a `&str`.
pub trait DecimalText {
    /// The characters of the text.
    spec fn text_chars(&self) -> Seq<char>;

    /// The text as an owned `String`.
    fn into_text(self) -> (r: String)
        ensures
            r@ == self.text_chars(),
    ;
}

impl DecimalText for String {
    open spec fn text_chars(&self) -> Seq<char> {
        self@
    }

    fn into_text(self) -> (r: String) {
        self
    }
}

impl<'a> DecimalText for &'a str {
    open spec fn text_chars(&self) -> Seq<char> {
        (*self)@
    }

    fn into_text(self) -> (r: String) {
        String::from_str(self)
    }
}

impl Decimal {
    /// A decimal holding the given text as it is, without validation.
    pub fn new<S: DecimalText>(value: S) -> (d: Decimal)
        ensures
            d@ == value.text_chars(),
    {
        Decimal { value: value.into_text() }
    }

    /// The text of the decimal.
    pub fn as_str(&self) -> (r: &str)
        ensures
            r@ == self@,
    {
        self.value.as_str()
    }

    /// Parses a decimal: accepted exactly when the text is a float literal;
    /// otherwise the error is "Invalid decimal format".
    pub fn parse_str(s: &str) -> (r: Result<Decimal, String>)
        ensures
            r is Ok <==> is_float_literal(s@),
            r matches Ok(d) ==> d@ == s@,
            r matches Err(e) ==> e@ == "Invalid decimal format"@,
    {
        let v = chars_of(s);
        if is_float_literal_chars(&v) {
            Ok(Decimal { value: String::from_str(s) })
        } else {
            Err(String::from_str("Invalid decimal format"))
        }
    }
}

impl std::str::FromStr for Decimal {
    type Err = String;

    fn from_str(s: &str) -> (r: Result<Decimal, String>)
        ensures
            r is Ok <==> is_float_literal(s@),
            r matches Ok(d) ==> d@ == s@,
            r matches Err(e) ==> e@ == "Invalid decimal format"@,
    {
        Decimal::parse_str(s)
    }
}


/// ISO 4217 currency codes.
#[derive(Debug, Clone, PartialEq, Eq, Structural)]
pub enum CurrencyCode {
    AED, AFN, ALL, AMD, ANG, AOA, ARS, AUD, AWG, AZN, BAM, BBD, BDT, BGN, BHD, BIF, BMD, BND,
    BOB, BRL, BSD, BTN, BWP, BYN, BZD, CAD, CDF, CHF, CLP, CNY, COP, CRC, CVE, CZK, DJF, DKK,
    DOP, DZD, EGP, ERN, ETB, EUR, FJD, FKP, GBP, GEL, GHS, GIP, GMD, GNF, GTQ, GYD, HKD, HNL,
    HRK, HTG, HUF, IDR, ILS, INR, IQD, IRR, ISK, JEP, JMD, JOD, JPY, KES, KGS, KHR, KID, KMF,
    KRW, KWD, KYD, KZT, LAK, LBP, LKR, LRD, LSL, LTL, LVL, LYD, MAD, MDL, MGA, MKD, MMK, MNT,
    MOP, MRU, MUR, MVR, MWK, MXN, MYR, MZN, NAD, NGN, NIO, NOK, NPR, NZD, OMR, PAB, PEN, PGK,
    PHP, PKR, PLN, PYG, QAR, RON, RSD, RUB, RWF, SAR, SBD, SCR, SDG, SEK, SGD, SHP, SLL, SOS,
    SRD, SSP, STN, SYP, SZL, THB, TJS, TMT, TND, TOP, TRY, TTD, TWD, TZS, UAH, UGX, USD, UYU,
    UZS, VED, VES, VND, VUV, WST, XAF, XCD, XOF, XPF, XXX, YER, ZAR, ZMW, BYR, STD, VEF,
}

impl CurrencyCode {
    /// The value `from_str` gives: "AED" and "CAD" are read, anything else
    /// is `USD`.
    pub open spec fn spec_from_str(code: Seq<char>) -> CurrencyCode {
        if code == "AED"@ {
            CurrencyCode::AED
        } else if code == "CAD"@ {
            CurrencyCode::CAD
        } else {
            CurrencyCode::USD
        }
    }

    /// Reads a currency code: "AED" gives `AED`, "CAD" gives `CAD`, any other
    /// text gives `USD`.
    pub fn from_str(code: &str) -> (r: CurrencyCode)
        ensures
            r == CurrencyCode::spec_from_str(code@),
    {
        if str_eq(code, "AED") {
            CurrencyCode::AED
        } else if str_eq(code, "CAD") {
            CurrencyCode::CAD
        } else {
            CurrencyCode::USD
        }
    }

    /// The codes whose text this library writes out.
    pub open spec fn spec_has_text(self) -> bool {
        self is AED || self is USD || self is CAD
    }

    pub open spec fn spec_to_string(self) -> Seq<char> {
        match self {
            CurrencyCode::AED => "AED"@,
            CurrencyCode::USD => "USD"@,
            CurrencyCode::CAD => "CAD"@,
            _ => Seq::empty(),
        }
    }

    /// The text of the code ("AED", "USD" or "CAD").
    pub fn to_string(&self) -> (r: String)
        requires
            self.spec_has_text(),
        ensures
            r@ == self.spec_to_string(),
    {
        match self {
            CurrencyCode::AED => String::from_str("AED"),
            CurrencyCode::USD => String::from_str("USD"),
            CurrencyCode::CAD => String::from_str("CAD"),
            _ => String::new(),
        }
    }
}

/// Reading back the text of a code that has one gives the code again.
pub proof fn lemma_currency_code_round_trip(c: CurrencyCode)
    requires
        c.spec_has_text(),
    ensures
        CurrencyCode::spec_from_str(c.spec_to_string()) == c,
{
    reveal_strlit("AED");
    reveal_strlit("CAD");
    reveal_strlit("USD");
    match c {
        CurrencyCode::USD => {
            assert("USD"@[0] != "AED"@[0]);
            assert("USD"@[0] != "CAD"@[0]);
        },
        CurrencyCode::CAD => {
            assert("CAD"@[0] != "AED"@[0]);
        },
        _ => {},
    }
}

#[derive(Debug, Clone)]
pub struct MoneyBag {
    pub presentment_money: Option<MoneyV2>,
    pub shop_money: Option<MoneyV2>,
}

#[derive(Debug, Clone)]
pub struct MoneyV2 {
    pub amount: Option<Decimal>,
    pub currency_code: Option<CurrencyCode>,
}

#[derive(Debug, Clone)]
pub struct MoneyInput {
    /// required when applicable (didn't write custom de/se for Decimal scalar - stick with string)
    pub amount: Option<String>,
    /// required when applicable
    pub currency_code: Option<CurrencyCode>,
}

} // verus!
