use malibus_shopifyapi_tooling::address::MailingAddress;
use malibus_shopifyapi_tooling::customer::CountryCode;
use malibus_shopifyapi_tooling::money::{Decimal, Money};
use malibus_shopifyapi_tooling::numeric::{int_text, parse_i32};
use malibus_shopifyapi_tooling::queries::{
    after_clause, catalogs_by_company_query, company_by_external_id_query, metaobject_create_mutation,
};
use malibus_shopifyapi_tooling::text::{replace, trim};
use malibus_shopifyapi_tooling::ShopifyCreds;

#[test]
fn money_accepts_float_literals_only() {
    assert_eq!(Money::new("12.50").unwrap().value(), "12.50");
    assert!(Money::new("1e3").is_ok());
    assert!(Money::new("-0.5").is_ok());
    assert!(Money::new("inf").is_ok());
    assert!(Money::new("NaN").is_ok());
    assert_eq!(Money::new("12,50").unwrap_err(), "Invalid monetary value");
    assert_eq!(Money::new("").unwrap_err(), "Invalid monetary value");
    assert!(Money::new("1.2.3").is_err());
}

#[test]
fn money_from_cents_formats_two_decimals() {
    assert_eq!(Money::from_cents("1999").unwrap().value(), "19.99");
    assert_eq!(Money::from_cents("5").unwrap().value(), "0.05");
    assert_eq!(Money::from_cents("-250").unwrap().value(), "-2.50");
    assert_eq!(Money::from_cents("-5").unwrap().value(), "-0.05");
    assert_eq!(Money::from_cents("0").unwrap().value(), "0.00");
    assert_eq!(Money::from_cents("12.5").unwrap_err(), "Failed to parse string to integer");
    assert_eq!(Money::from_cents("99999999999").unwrap_err(), "Failed to parse string to integer");
}

#[test]
fn decimal_parse_and_text() {
    assert_eq!(Decimal::parse_str("3.14").unwrap().as_str(), "3.14");
    assert_eq!(Decimal::parse_str("abc").unwrap_err(), "Invalid decimal format");
    assert_eq!(Decimal::new("7").as_str(), "7");
    assert_eq!(Decimal::new("abc").as_str(), "abc");
    assert_eq!(Decimal::new(String::from("1e2")).as_str(), "1e2");
    let d: Decimal = "2.5".parse().unwrap();
    assert_eq!(d.as_str(), "2.5");
}

#[test]
fn i32_parsing_and_printing() {
    assert_eq!(parse_i32("+42"), Some(42));
    assert_eq!(parse_i32("-2147483648"), Some(i32::MIN));
    assert_eq!(parse_i32("2147483648"), None);
    assert_eq!(parse_i32(""), None);
    assert_eq!(int_text(-17), "-17");
    assert_eq!(int_text(i32::MIN), "-2147483648");
    assert_eq!(int_text(0), "0");
}

#[test]
fn text_helpers_match_std() {
    assert_eq!(trim("  a b \n"), "a b");
    assert_eq!(trim("\u{3000}\u{85}x\u{a0}\u{2009}"), "x");
    assert_eq!(trim("\u{200b}x"), "\u{200b}x");
    assert_eq!(replace("a..b.", ".", ""), "ab");
    assert_eq!(replace("aaa", "aa", "b"), "ba");
}

#[test]
fn address_normalization() {
    let a = MailingAddress {
        address1: Some(" 12 Main St., Apt #4 ".to_string()),
        address2: None,
        city: Some(" toronto ".to_string()),
        company: None,
        country: Some("canada".to_string()),
        country_code: Some(CountryCode::CA),
        first_name: None,
        last_name: None,
        name: None,
        phone: None,
        id: None,
        province: Some("on".to_string()),
        province_code: None,
        zip: Some(" m5v 2t6 ".to_string()),
    };
    let n = a.normalize();
    assert_eq!(n.street, Some("12 MAIN ST APT 4".to_string()));
    assert_eq!(n.city, Some("TORONTO".to_string()));
    assert_eq!(n.state, Some("ON".to_string()));
    assert_eq!(n.state_code, None);
    assert_eq!(n.postal_code, Some("M5V2T6".to_string()));
    assert_eq!(n.country, Some("CANADA".to_string()));
    assert_eq!(n.country_code, Some("CA".to_string()));
}

#[test]
fn address_country_code_other_than_us_and_ca_is_upper_cased() {
    let mut a = MailingAddress {
        address1: None,
        address2: None,
        city: None,
        company: None,
        country: None,
        country_code: Some(CountryCode::NotImplemented("de".to_string())),
        first_name: None,
        last_name: None,
        name: None,
        phone: None,
        id: None,
        province: None,
        province_code: None,
        zip: None,
    };
    assert_eq!(a.normalize().country_code, Some("DE".to_string()));
    a.country_code = None;
    assert_eq!(a.normalize().country_code, None);
}

#[test]
fn query_texts_embed_escaped_arguments() {
    assert_eq!(after_clause(&Some("abc".to_string())), ", after: \"abc\"");
    assert_eq!(after_clause(&None), "");
    let q = catalogs_by_company_query("gid://shopify/Company/1");
    assert!(q.contains("context_id:gid:\\/\\/shopify\\/Company\\/1\""));
    let c = company_by_external_id_query("A\"B");
    assert!(c.contains("external_id:A\\\"B\""));
    let m = metaobject_create_mutation("size-chart");
    assert!(m.contains("sizechart: field(key: \"size-chart\")"));
}

#[test]
fn endpoints_and_headers() {
    let creds = ShopifyCreds {
        shopify_token: "tok".to_string(),
        shopify_api_version: "2025-01".to_string(),
        myshopify_url: "https://shop.myshopify.com".to_string(),
        storefront_access_token: "sf".to_string(),
    };
    assert_eq!(creds.admin_graphql_url(), "https://shop.myshopify.com/admin/api/2025-01/graphql.json");
    assert_eq!(creds.storefront_graphql_url(), "https://shop.myshopify.com/api/2025-01/graphql.json");
    let h = creds.admin_headers();
    assert_eq!(h[0], ("X-Shopify-Access-Token".to_string(), "tok".to_string()));
    assert_eq!(h[1], ("X-GraphQL-Cost-Include-Fields".to_string(), "true".to_string()));
    assert_eq!(h[2], ("Content-Type".to_string(), "application/json".to_string()));
    let s = creds.storefront_headers();
    assert_eq!(s[0], ("X-Shopify-Storefront-Access-Token".to_string(), "sf".to_string()));
    let d = ShopifyCreds::default();
    assert_eq!(d.shopify_token, "");
    let admin = creds.admin_client_config();
    assert_eq!(admin.endpoint, "https://shop.myshopify.com/admin/api/2025-01/graphql.json");
    assert_eq!(admin.headers.len(), 3);
    assert_eq!(admin.headers[0], ("X-Shopify-Access-Token".to_string(), "tok".to_string()));
    let store = creds.storefront_client_config();
    assert_eq!(store.endpoint, "https://shop.myshopify.com/api/2025-01/graphql.json");
    assert_eq!(store.headers[1], ("Content-Type".to_string(), "application/json".to_string()));
}

#[test]
fn every_rendered_amount_parses_as_a_float() {
    for cents in ["0", "7", "-7", "1999", "-2147483648", "2147483647"] {
        let m = Money::from_cents(cents).unwrap();
        assert!(m.value().parse::<f64>().is_ok());
    }
    assert_eq!(Money::from_cents("2147483647").unwrap().value(), "21474836.47");
    assert_eq!(Money::from_cents("-2147483648").unwrap().value(), "-21474836.48");
}
