use malibus_shopifyapi_tooling::draft_orders::DraftOrderAppliedDiscountType;
use malibus_shopifyapi_tooling::customer::{CountryCode, TaxExemption};
use malibus_shopifyapi_tooling::discount::DiscountType;
use malibus_shopifyapi_tooling::metafielddefinitions::MetafieldOwnerType;
use malibus_shopifyapi_tooling::metafields::MetaFieldType;
use malibus_shopifyapi_tooling::metaobjectdefinitions::ADMIN;
use malibus_shopifyapi_tooling::money::CurrencyCode;
use malibus_shopifyapi_tooling::order_returns::{ReturnReason, ReturnStatus};
use malibus_shopifyapi_tooling::refund::RefundLineItemRestockType;
use malibus_shopifyapi_tooling::orders::{OrderTransactionKind, OrderTransactionStatus};
use malibus_shopifyapi_tooling::products::WeightUnit;
use malibus_shopifyapi_tooling::selling_plans::SellingPlanInterval;

#[test]
fn metafield_owner_type_texts() {
    assert_eq!(MetafieldOwnerType::from_str("API_PERMISSION"), MetafieldOwnerType::APIPERMISSION);
    assert_eq!(MetafieldOwnerType::APIPERMISSION.to_string(), "API_PERMISSION");
    assert_eq!(MetafieldOwnerType::from_str("COMPANY_LOCATION"), MetafieldOwnerType::COMPANYLOCATION);
    assert_eq!(MetafieldOwnerType::from_str("something else"), MetafieldOwnerType::PRODUCT);
}

#[test]
fn admin_access_defaults_to_private() {
    assert_eq!(ADMIN::from_str("MERCHANT_READ_WRITE"), ADMIN::MERCHANTREADWRITE);
    assert_eq!(ADMIN::from_str("PUBLIC_READ"), ADMIN::PRIVATE);
    assert_eq!(ADMIN::PUBLICREAD.to_string(), "PUBLIC_READ");
}

#[test]
fn weight_unit_reads_every_text_as_grams() {
    assert_eq!(WeightUnit::from_str("KILOGRAMS"), WeightUnit::GRAMS);
    assert_eq!(WeightUnit::KILOGRAMS.to_string(), "KILOGRAMS");
}

#[test]
fn upper_casing_codecs_accept_any_case() {
    assert_eq!(ReturnReason::from_str("size_too_small"), ReturnReason::SIZETOOSMALL);
    assert_eq!(ReturnReason::from_str("Wrong_Item"), ReturnReason::WRONGITEM);
    assert_eq!(ReturnReason::from_str("nonsense"), ReturnReason::UNKNOWN);
    assert_eq!(ReturnReason::NOTASDESCRIBED.to_string(), "NOT_AS_DESCRIBED");
    assert_eq!(OrderTransactionStatus::from_str("success"), OrderTransactionStatus::Success);
    assert_eq!(OrderTransactionKind::from_str("Emv_Authorization"), OrderTransactionKind::EmvAuthorization);
}

#[test]
fn metafield_type_texts_are_lower_case() {
    assert_eq!(MetaFieldType::from_str("single_line_text_field"), MetaFieldType::SINGLELINETEXTFIELD);
    assert_eq!(MetaFieldType::SINGLELINETEXTFIELD.to_string(), "single_line_text_field");
    assert_eq!(MetaFieldType::NUMBERDECIMAL.to_string(), "number_decimal");
}

#[test]
fn selling_plan_interval_accepts_listed_spellings() {
    assert_eq!(SellingPlanInterval::from_str("Month"), SellingPlanInterval::MONTH);
    assert_eq!(SellingPlanInterval::from_str("year"), SellingPlanInterval::YEAR);
    assert_eq!(SellingPlanInterval::from_str("fortnight"), SellingPlanInterval::WEEK);
    assert_eq!(SellingPlanInterval::DAY.to_string(), "DAY");
}

#[test]
fn discount_type_round_trip() {
    for t in [DiscountType::AutomaticDiscount, DiscountType::CodeDiscount, DiscountType::Manual] {
        assert_eq!(DiscountType::from_str(&t.to_string()), t);
    }
}

#[test]
fn tax_exemption_round_trip_sample() {
    let e = TaxExemption::CA_BC_RESELLER_EXEMPTION;
    assert_eq!(e.to_string(), "CA_BC_RESELLER_EXEMPTION");
    assert_eq!(TaxExemption::from_str("CA_BC_RESELLER_EXEMPTION"), e);
}

#[test]
fn currency_codes() {
    assert_eq!(CurrencyCode::from_str("CAD"), CurrencyCode::CAD);
    assert_eq!(CurrencyCode::from_str("EUR"), CurrencyCode::USD);
    assert_eq!(CurrencyCode::AED.to_string(), "AED");
}

#[test]
fn country_codes() {
    assert_eq!(CountryCode::from_str("us").unwrap(), CountryCode::US);
    assert_eq!(CountryCode::from_str("ca").unwrap(), CountryCode::CA);
    assert_eq!(
        CountryCode::from_str("Fr").unwrap(),
        CountryCode::NotImplemented("Fr".to_string())
    );
    assert_eq!(CountryCode::GB.to_string(), "GB");
    assert_eq!(CountryCode::NotImplemented("DE".to_string()).to_string(), "DE");
}

#[test]
fn known_texts_of_strict_codecs() {
    assert!(TaxExemption::is_known("CA_BC_RESELLER_EXEMPTION"));
    assert!(!TaxExemption::is_known("ca_bc_reseller_exemption"));
    assert!(!TaxExemption::is_known(""));
}

#[test]
fn draft_order_discount_type_accepts_both_cases() {
    assert!(DraftOrderAppliedDiscountType::is_known("percentage"));
    assert!(!DraftOrderAppliedDiscountType::is_known("Percentage"));
    assert_eq!(DraftOrderAppliedDiscountType::from_str("fixed_amount"), DraftOrderAppliedDiscountType::FIXEDAMOUNT);
    assert_eq!(DraftOrderAppliedDiscountType::PERCENTAGE.to_string(), "PERCENTAGE");
}

#[test]
fn upper_casing_codecs_read_their_own_texts_back() {
    let statuses = [
        OrderTransactionStatus::AwaitingResponse,
        OrderTransactionStatus::Error,
        OrderTransactionStatus::Failure,
        OrderTransactionStatus::Pending,
        OrderTransactionStatus::Success,
        OrderTransactionStatus::Unknown,
    ];
    for v in statuses {
        assert_eq!(OrderTransactionStatus::from_str(&v.to_string()), v);
        assert_eq!(OrderTransactionStatus::from_str(&v.to_string().to_lowercase()), v);
    }
    let restock = [
        RefundLineItemRestockType::CANCEL,
        RefundLineItemRestockType::LEGACYRESTOCK,
        RefundLineItemRestockType::NORESTOCK,
        RefundLineItemRestockType::RETURN,
    ];
    for v in restock {
        assert_eq!(RefundLineItemRestockType::from_str(&v.to_string()), v);
    }
    assert_eq!(RefundLineItemRestockType::from_str("no_restock"), RefundLineItemRestockType::NORESTOCK);
    assert_eq!(RefundLineItemRestockType::from_str("legacy"), RefundLineItemRestockType::RETURN);
    assert_eq!(ReturnStatus::from_str("open"), ReturnStatus::OPEN);
    assert_eq!(ReturnStatus::from_str("CANCELLED"), ReturnStatus::REQUESTED);
}
