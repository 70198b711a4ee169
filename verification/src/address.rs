//! Mailing addresses and their normalized form for matching.
use vstd::prelude::*;
use crate::customer::CountryCode;
use crate::text::{to_uppercase, spec_to_uppercase, trim, spec_trim, replace, spec_replace};

verus! {

/// A postal address as Shopify returns it.
#[derive(Debug, Clone)]
pub struct MailingAddress {
    pub address1: Option<String>,
    pub address2: Option<String>,
    pub city: Option<String>,
    pub company: Option<String>,
    pub country: Option<String>,
    pub country_code: Option<CountryCode>,
    pub first_name: Option<String>,
    pub last_name: Option<String>,
    pub name: Option<String>,
    pub phone: Option<String>,
    pub id: Option<String>,
    pub province: Option<String>,
    pub province_code: Option<String>,
    pub zip: Option<String>,
}

/// An address reduced to upper-case, trimmed fields for comparison.
#[derive(Debug, Clone)]
pub struct NormalizedAddress {
    pub street: Option<String>,
    pub city: Option<String>,
    pub state: Option<String>,
    pub state_code: Option<String>,
    pub postal_code: Option<String>,
    pub country: Option<String>,
    pub country_code: Option<String>,
}

impl Default for NormalizedAddress {
    fn default() -> (r: NormalizedAddress)
        ensures
            r.street is None && r.city is None && r.state is None && r.state_code is None
                && r.postal_code is None && r.country is None && r.country_code is None,
    {
        NormalizedAddress {
            street: None,
            city: None,
            state: None,
            state_code: None,
            postal_code: None,
            country: None,
            country_code: None,
        }
    }
}

/// Upper-cased and trimmed.
pub open spec fn spec_upper_trim(s: Seq<char>) -> Seq<char> {
    spec_trim(spec_to_uppercase(s))
}

/// The street line: upper-cased and trimmed, "." and "," removed, "#"
/// turned into a space, double spaces collapsed once, trimmed again.
pub open spec fn spec_normalize_street(s: Seq<char>) -> Seq<char> {
    spec_trim(
        spec_replace(
            spec_replace(
                spec_replace(spec_replace(spec_upper_trim(s), "."@, ""@), ","@, ""@),
                "#"@,
                " "@,
            ),
            "  "@,
            " "@,
        ),
    )
}

/// The postal code: upper-cased, trimmed, all spaces removed.
pub open spec fn spec_normalize_postal(s: Seq<char>) -> Seq<char> {
    spec_replace(spec_upper_trim(s), " "@, ""@)
}

pub open spec fn spec_normalize_country_code(c: CountryCode) -> Seq<char> {
    match c {
        CountryCode::US => "US"@,
        CountryCode::CA => "CA"@,
        _ => spec_to_uppercase(c.spec_to_string()),
    }
}

pub open spec fn option_text_eq(o: Option<String>, f: spec_fn(Seq<char>) -> Seq<char>, src: Option<String>) -> bool {
    match (o, src) {
        (Some(a), Some(b)) => a@ == f(b@),
        (None, None) => true,
        _ => false,
    }
}

fn upper_trim(s: &String) -> (r: String)
    ensures
        r@ == spec_upper_trim(s@),
{
    let u = to_uppercase(s.as_str());
    trim(u.as_str())
}

fn upper_trim_opt(o: &Option<String>) -> (r: Option<String>)
    ensures
        option_text_eq(r, |x: Seq<char>| spec_upper_trim(x), *o),
{
    match o {
        Some(s) => Some(upper_trim(s)),
        None => None,
    }
}

impl MailingAddress {
    /// The normalized form of the address; the country code must be one this
    /// library can write out (US, CA, GB or a kept code).
    pub fn normalize(&self) -> (r: NormalizedAddress)
        requires
            self.country_code matches Some(c) ==> c.spec_has_text(),
        ensures
            option_text_eq(r.street, |x: Seq<char>| spec_normalize_street(x), self.address1),
            option_text_eq(r.city, |x: Seq<char>| spec_upper_trim(x), self.city),
            option_text_eq(r.state, |x: Seq<char>| spec_upper_trim(x), self.province),
            option_text_eq(r.state_code, |x: Seq<char>| spec_upper_trim(x), self.province_code),
            option_text_eq(r.postal_code, |x: Seq<char>| spec_normalize_postal(x), self.zip),
            option_text_eq(r.country, |x: Seq<char>| spec_upper_trim(x), self.country),
            match (r.country_code, self.country_code) {
                (Some(a), Some(c)) => a@ == spec_normalize_country_code(c),
                (None, None) => true,
                _ => false,
            },
    {
        proof {
            reveal_strlit(".");
            reveal_strlit(",");
            reveal_strlit("#");
            reveal_strlit("  ");
            reveal_strlit(" ");
        }
        let street = match &self.address1 {
            Some(s) => {
                let t = upper_trim(s);
                let t = replace(t.as_str(), ".", "");
                let t = replace(t.as_str(), ",", "");
                let t = replace(t.as_str(), "#", " ");
                let t = replace(t.as_str(), "  ", " ");
                Some(trim(t.as_str()))
            },
            None => None,
        };
        let postal_code = match &self.zip {
            Some(s) => {
                let t = upper_trim(s);
                Some(replace(t.as_str(), " ", ""))
            },
            None => None,
        };
        let country_code = match &self.country_code {
            Some(code) => Some(
                match code {
                    CountryCode::US => String::from_str("US"),
                    CountryCode::CA => String::from_str("CA"),
                    _ => {
                        let text = code.to_string();
                        to_uppercase(text.as_str())
                    },
                },
            ),
            None => None,
        };
        NormalizedAddress {
            street,
            city: upper_trim_opt(&self.city),
            state: upper_trim_opt(&self.province),
            state_code: upper_trim_opt(&self.province_code),
            postal_code,
            country: upper_trim_opt(&self.country),
            country_code,
        }
    }
}

} // verus!
