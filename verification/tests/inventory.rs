use malibus_shopifyapi_tooling::inventory::erp_reason_to_shopify;

#[test]
fn maps_correction() {
    assert_eq!(erp_reason_to_shopify("CORRECTION"), "correction");
}

#[test]
fn maps_received() {
    assert_eq!(erp_reason_to_shopify("RECEIVED"), "received");
}

#[test]
fn maps_damaged() {
    assert_eq!(erp_reason_to_shopify("DAMAGED"), "damaged");
}

#[test]
fn sold_maps_to_correction() {
    assert_eq!(erp_reason_to_shopify("SOLD"), "correction");
}

#[test]
fn returned_maps_to_received() {
    assert_eq!(erp_reason_to_shopify("RETURNED"), "received");
}

#[test]
fn unknown_reason_defaults_to_correction() {
    assert_eq!(erp_reason_to_shopify("GARBAGE"), "correction");
    assert_eq!(erp_reason_to_shopify(""), "correction");
    assert_eq!(erp_reason_to_shopify("WRITE_OFF"), "correction");
}

#[test]
fn input_is_case_insensitive() {
    assert_eq!(erp_reason_to_shopify("correction"), "correction");
    assert_eq!(erp_reason_to_shopify("Received"), "received");
    assert_eq!(erp_reason_to_shopify("dAmAgEd"), "damaged");
}
