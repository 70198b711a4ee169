use malibus_shopifyapi_tooling::catalog::{
    catalog_create_outcome, catalog_create_variables, price_list_create_outcome, price_list_create_variables,
    price_list_fixed_prices_add_outcome, price_list_fixed_prices_add_variables, price_list_gid_of_catalogs,
    MoneyInput, PriceListPriceInput,
};
use malibus_shopifyapi_tooling::company::{
    company_contact_assign_roles_variables, company_contact_create_outcome, company_contact_create_variables,
    company_create_outcome, company_gid_of_companies, company_location_create_variables, payment_terms_variables,
    CompanyAddressInput, CompanyContactRoleAssignment, CompanyLocationBuyerExperienceConfigInput, CompanyLocationInput,
};
use malibus_shopifyapi_tooling::combinedlistings::{
    combined_listing_update_variables, ChildProductRelationInput, OptionsAndValues, SelectedVariantOptionInput,
};
use malibus_shopifyapi_tooling::customer::customer_update::customer_update_outcome;
use malibus_shopifyapi_tooling::customer::{customer_create_variables, CustomerCreateInput};
use malibus_shopifyapi_tooling::metaobject::{
    metaobject_create_variables, Capabilities, Field, MetaObject, MetaobjectCapabilityDataPublishableInput,
};
use malibus_shopifyapi_tooling::customer::payment_methods::{payment_methods_of_page, payment_methods_page_of};
use malibus_shopifyapi_tooling::numeric::u32_of_number;
use malibus_shopifyapi_tooling::error::AppError;
use malibus_shopifyapi_tooling::fulfillment::{
    first_fulfillment_gid, fulfillment_create_v2_outcome, fulfillment_create_v2_variables, fulfillment_event_variables,
    open_fulfillment_order_id, FulfillmentOrderInput, FulfillmentOrderLineItemInput, FulfillmentTrackingInput,
    FulfillmentV2Input,
};
use malibus_shopifyapi_tooling::inventory::{
    inventory_adjust_quantities_outcome, inventory_adjust_quantities_variables, inventory_set_quantities_outcome,
    inventory_set_quantities_variables, InventoryAdjustQuantitiesInput, InventoryAdjustQuantityInput,
    InventorySetQuantitiesInput, InventorySetQuantityInput,
};
use malibus_shopifyapi_tooling::json::{json_debug, JsonValue};
use malibus_shopifyapi_tooling::orders::line_item_discounts::{discounted_line_items_of, line_item_discount_infos};
use malibus_shopifyapi_tooling::orders::order_cancel::{order_cancel_outcome, order_cancel_variables};
use malibus_shopifyapi_tooling::products::product_set::product_set_outcome;
use malibus_shopifyapi_tooling::subscription_billing_cycles::{
    billing_attempt_variables, billing_cycle_schedule_edit_variables,
};

fn s(t: &str) -> JsonValue {
    JsonValue::Str(t.to_string())
}

fn obj(members: Vec<(&str, JsonValue)>) -> JsonValue {
    JsonValue::Object(members.into_iter().map(|(k, v)| (k.to_string(), v)).collect())
}

fn other_text(e: &AppError) -> String {
    match e {
        AppError::OtherError(m) => m.clone(),
        _ => panic!("not an OtherError"),
    }
}

#[test]
fn catalog_create_variables_shape() {
    let v = catalog_create_variables("gid://shopify/Company/1", "Acme FY2026");
    assert_eq!(
        json_debug(&v),
        "Object {\"input\": Object {\"title\": String(\"Acme FY2026\"), \"status\": String(\"ACTIVE\"), \"context\": Object {\"companyLocationIds\": Array [], \"companyIds\": Array [String(\"gid://shopify/Company/1\")]}}}"
    );
}

#[test]
fn catalog_create_returns_new_id() {
    let resp = obj(vec![(
        "catalogCreate",
        obj(vec![
            ("catalog", obj(vec![("id", s("gid://shopify/Catalog/9")), ("title", s("T"))])),
            ("userErrors", JsonValue::Array(vec![])),
        ]),
    )]);
    assert_eq!(catalog_create_outcome(&resp).unwrap(), "gid://shopify/Catalog/9");
}

#[test]
fn catalog_create_reports_user_errors() {
    let resp = obj(vec![(
        "catalogCreate",
        obj(vec![
            ("catalog", JsonValue::Null),
            ("userErrors", JsonValue::Array(vec![obj(vec![("message", s("Title taken"))])])),
        ]),
    )]);
    let e = catalog_create_outcome(&resp).unwrap_err();
    assert_eq!(
        other_text(&e),
        "catalogCreate userErrors: [Object {\"message\": String(\"Title taken\")}]"
    );
}

#[test]
fn catalog_create_without_id_fails() {
    let resp = obj(vec![("catalogCreate", obj(vec![("catalog", JsonValue::Null)]))]);
    let e = catalog_create_outcome(&resp).unwrap_err();
    assert_eq!(other_text(&e), "No catalog ID in catalogCreate response");
}

#[test]
fn price_list_create_variables_and_outcome() {
    let v = price_list_create_variables("gid://shopify/Catalog/9", "Acme", "USD");
    assert_eq!(
        json_debug(&v),
        "Object {\"input\": Object {\"name\": String(\"Acme\"), \"currency\": String(\"USD\"), \"catalogId\": String(\"gid://shopify/Catalog/9\"), \"parent\": Object {\"adjustment\": Object {\"type\": String(\"PERCENTAGE_DECREASE\"), \"value\": Number(0.0)}}}}"
    );
    let missing = obj(vec![("priceListCreate", obj(vec![("userErrors", JsonValue::Array(vec![]))]))]);
    assert_eq!(
        other_text(&price_list_create_outcome(&missing).unwrap_err()),
        "No priceList ID in priceListCreate response"
    );
    let ok = obj(vec![("priceListCreate", obj(vec![("priceList", obj(vec![("id", s("gid://shopify/PriceList/3"))]))]))]);
    assert_eq!(price_list_create_outcome(&ok).unwrap(), "gid://shopify/PriceList/3");
}

#[test]
fn fixed_prices_variables_serialize_each_price() {
    let prices = vec![
        PriceListPriceInput {
            variant_id: "gid://shopify/ProductVariant/1".to_string(),
            price: MoneyInput { amount: "38.99".to_string(), currency_code: "USD".to_string() },
            compare_at_price: None,
        },
        PriceListPriceInput {
            variant_id: "gid://shopify/ProductVariant/2".to_string(),
            price: MoneyInput { amount: "10.00".to_string(), currency_code: "USD".to_string() },
            compare_at_price: Some(MoneyInput { amount: "12.00".to_string(), currency_code: "USD".to_string() }),
        },
    ];
    let v = price_list_fixed_prices_add_variables("gid://shopify/PriceList/3", &prices);
    assert_eq!(
        json_debug(&v),
        "Object {\"priceListId\": String(\"gid://shopify/PriceList/3\"), \"prices\": Array [Object {\"variantId\": String(\"gid://shopify/ProductVariant/1\"), \"price\": Object {\"amount\": String(\"38.99\"), \"currencyCode\": String(\"USD\")}, \"compareAtPrice\": Null}, Object {\"variantId\": String(\"gid://shopify/ProductVariant/2\"), \"price\": Object {\"amount\": String(\"10.00\"), \"currencyCode\": String(\"USD\")}, \"compareAtPrice\": Object {\"amount\": String(\"12.00\"), \"currencyCode\": String(\"USD\")}}]}"
    );
}

#[test]
fn fixed_prices_outcome_checks_user_errors() {
    let ok = obj(vec![("priceListFixedPricesAdd", obj(vec![("userErrors", JsonValue::Array(vec![]))]))]);
    assert!(price_list_fixed_prices_add_outcome(&ok).is_ok());
    let no_payload = obj(vec![]);
    assert!(price_list_fixed_prices_add_outcome(&no_payload).is_ok());
    let bad = obj(vec![(
        "priceListFixedPricesAdd",
        obj(vec![("userErrors", JsonValue::Array(vec![s("e")]))]),
    )]);
    assert_eq!(
        other_text(&price_list_fixed_prices_add_outcome(&bad).unwrap_err()),
        "priceListFixedPricesAdd userErrors: [String(\"e\")]"
    );
}

#[test]
fn price_list_of_first_catalog() {
    let resp = obj(vec![(
        "catalogs",
        obj(vec![(
            "edges",
            JsonValue::Array(vec![obj(vec![(
                "node",
                obj(vec![("id", s("c1")), ("priceList", obj(vec![("id", s("pl1"))]))]),
            )])]),
        )]),
    )]);
    assert_eq!(price_list_gid_of_catalogs(&resp), Some("pl1".to_string()));
    let empty = obj(vec![("catalogs", obj(vec![("edges", JsonValue::Array(vec![]))]))]);
    assert_eq!(price_list_gid_of_catalogs(&empty), None);
}

#[test]
fn open_fulfillment_order_is_the_first_open_one() {
    let edge = |id: &str, status: &str| obj(vec![("node", obj(vec![("id", s(id)), ("status", s(status))]))]);
    let resp = obj(vec![(
        "order",
        obj(vec![(
            "fulfillmentOrders",
            obj(vec![("edges", JsonValue::Array(vec![edge("fo1", "CLOSED"), edge("fo2", "OPEN"), edge("fo3", "OPEN")]))]),
        )]),
    )]);
    assert_eq!(open_fulfillment_order_id(&resp), Some("fo2".to_string()));
    let none_open = obj(vec![(
        "order",
        obj(vec![("fulfillmentOrders", obj(vec![("edges", JsonValue::Array(vec![edge("fo1", "CLOSED")]))]))]),
    )]);
    assert_eq!(open_fulfillment_order_id(&none_open), None);
}

#[test]
fn fulfillment_create_and_first_fulfillment() {
    let resp = obj(vec![("fulfillmentCreateV2", obj(vec![("fulfillment", obj(vec![("id", s("f1"))]))]))]);
    assert_eq!(fulfillment_create_v2_outcome(&resp).unwrap(), "f1");
    let missing = obj(vec![("fulfillmentCreateV2", obj(vec![]))]);
    assert_eq!(
        other_text(&fulfillment_create_v2_outcome(&missing).unwrap_err()),
        "No fulfillment ID in fulfillmentCreateV2 response"
    );
    let order = obj(vec![("order", obj(vec![("fulfillments", JsonValue::Array(vec![obj(vec![("id", s("f7"))])]))]))]);
    assert_eq!(first_fulfillment_gid(&order), Some("f7".to_string()));
}

#[test]
fn fulfillment_event_variables_with_and_without_time() {
    let with = fulfillment_event_variables("f1", "IN_TRANSIT", Some("2024-01-01T00:00:00Z"));
    assert_eq!(
        json_debug(&with),
        "Object {\"fulfillmentEvent\": Object {\"fulfillmentId\": String(\"f1\"), \"status\": String(\"IN_TRANSIT\"), \"happenedAt\": String(\"2024-01-01T00:00:00Z\")}}"
    );
    let without = fulfillment_event_variables("f1", "DELIVERED", None);
    assert_eq!(
        json_debug(&without),
        "Object {\"fulfillmentEvent\": Object {\"fulfillmentId\": String(\"f1\"), \"status\": String(\"DELIVERED\")}}"
    );
}

#[test]
fn company_contact_variables_and_outcome() {
    let v = company_contact_create_variables("co1", "cu1", Some("Buyer"), None);
    assert_eq!(
        json_debug(&v),
        "Object {\"companyId\": String(\"co1\"), \"input\": Object {\"customerId\": String(\"cu1\"), \"title\": String(\"Buyer\")}}"
    );
    let resp = obj(vec![("companyContactCreate", obj(vec![("companyContact", obj(vec![("id", s("cc1"))]))]))]);
    assert_eq!(company_contact_create_outcome(&resp).unwrap(), "cc1");
    let bad = obj(vec![(
        "companyContactCreate",
        obj(vec![("userErrors", JsonValue::Array(vec![s("x")]))]),
    )]);
    assert_eq!(
        other_text(&company_contact_create_outcome(&bad).unwrap_err()),
        "companyContactCreate userErrors: [String(\"x\")]"
    );
}

#[test]
fn role_assignments_and_payment_terms_variables() {
    let roles = vec![CompanyContactRoleAssignment {
        company_contact_role_id: None,
        company_location_id: "loc1".to_string(),
    }];
    assert_eq!(
        json_debug(&company_contact_assign_roles_variables("cc1", &roles)),
        "Object {\"companyContactId\": String(\"cc1\"), \"rolesToAssign\": Array [Object {\"companyContactRoleId\": Null, \"companyLocationId\": String(\"loc1\")}]}"
    );
    assert_eq!(
        json_debug(&payment_terms_variables("loc1", "tmpl1")),
        "Object {\"referenceId\": String(\"loc1\"), \"paymentTermsAttributes\": Object {\"paymentTermsTemplateId\": String(\"tmpl1\")}}"
    );
}

#[test]
fn company_create_and_lookup() {
    let missing = obj(vec![("companyCreate", obj(vec![("company", JsonValue::Null)]))]);
    assert_eq!(
        other_text(&company_create_outcome(&missing).unwrap_err()),
        "No company ID in companyCreate response"
    );
    let found = obj(vec![(
        "companies",
        obj(vec![("edges", JsonValue::Array(vec![obj(vec![("node", obj(vec![("id", s("co9"))]))])]))]),
    )]);
    assert_eq!(company_gid_of_companies(&found), Some("co9".to_string()));
}

#[test]
fn order_cancel_variables_and_errors() {
    assert_eq!(
        json_debug(&order_cancel_variables("o1", "CUSTOMER", true, false, true)),
        "Object {\"orderId\": String(\"o1\"), \"reason\": String(\"CUSTOMER\"), \"restock\": Bool(true), \"refund\": Bool(false), \"notifyCustomer\": Bool(true)}"
    );
    let bad = obj(vec![(
        "orderCancel",
        obj(vec![("orderCancelUserErrors", JsonValue::Array(vec![s("paid")]))]),
    )]);
    assert_eq!(other_text(&order_cancel_outcome(&bad).unwrap_err()), "orderCancel userErrors: [String(\"paid\")]");
    let ok = obj(vec![("orderCancel", obj(vec![("orderCancelUserErrors", JsonValue::Array(vec![]))]))]);
    assert!(order_cancel_outcome(&ok).is_ok());
}

#[test]
fn inventory_outcomes() {
    let bad = obj(vec![("inventorySetQuantities", obj(vec![("userErrors", JsonValue::Array(vec![s("neg")]))]))]);
    assert_eq!(
        other_text(&inventory_set_quantities_outcome(&bad).unwrap_err()),
        "inventorySetQuantities userErrors: [String(\"neg\")]"
    );
    let ok = obj(vec![("inventoryAdjustQuantities", obj(vec![("userErrors", JsonValue::Array(vec![]))]))]);
    assert!(inventory_adjust_quantities_outcome(&ok).is_ok());
}

#[test]
fn customer_update_outcome_messages() {
    let bad = obj(vec![("customerUpdate", obj(vec![("userErrors", JsonValue::Array(vec![s("email")]))]))]);
    assert_eq!(
        other_text(&customer_update_outcome(&bad).unwrap_err()),
        "Failed to update customer: [String(\"email\")]"
    );
    let missing = obj(vec![("customerUpdate", obj(vec![("customer", JsonValue::Null)]))]);
    assert_eq!(other_text(&customer_update_outcome(&missing).unwrap_err()), "No customer ID in response");
    let ok = obj(vec![("customerUpdate", obj(vec![("customer", obj(vec![("id", s("cu1"))]))]))]);
    assert_eq!(customer_update_outcome(&ok).unwrap(), "cu1");
}

#[test]
fn product_set_keeps_complete_variants() {
    let variant = |id: Option<&str>, sku: Option<&str>, inv: Option<&str>| {
        let mut node = vec![];
        if let Some(i) = id {
            node.push(("id", s(i)));
        }
        if let Some(k) = sku {
            node.push(("sku", s(k)));
        }
        if let Some(i) = inv {
            node.push(("inventoryItem", obj(vec![("id", s(i))])));
        }
        obj(vec![("node", obj(node))])
    };
    let resp = obj(vec![(
        "productSet",
        obj(vec![
            (
                "product",
                obj(vec![
                    ("id", s("p1")),
                    (
                        "variants",
                        obj(vec![(
                            "edges",
                            JsonValue::Array(vec![
                                variant(Some("v1"), Some("SKU1"), Some("i1")),
                                variant(Some("v2"), None, Some("i2")),
                                variant(Some("v3"), Some("SKU3"), None),
                            ]),
                        )]),
                    ),
                ]),
            ),
            ("userErrors", JsonValue::Array(vec![])),
        ]),
    )]);
    let r = product_set_outcome(&resp).unwrap();
    assert_eq!(r.product_id, "p1");
    assert_eq!(r.variants.len(), 2);
    assert_eq!(r.variants[0].variant_id, "v1");
    assert_eq!(r.variants[0].sku, Some("SKU1".to_string()));
    assert_eq!(r.variants[0].inventory_item_id, "i1");
    assert_eq!(r.variants[1].variant_id, "v2");
    assert_eq!(r.variants[1].sku, None);
}

#[test]
fn product_set_errors() {
    let bad = obj(vec![("productSet", obj(vec![("userErrors", JsonValue::Array(vec![s("title")]))]))]);
    assert_eq!(other_text(&product_set_outcome(&bad).unwrap_err()), "productSet userErrors: [String(\"title\")]");
    let missing = obj(vec![("productSet", obj(vec![("product", JsonValue::Null)]))]);
    assert_eq!(other_text(&product_set_outcome(&missing).unwrap_err()), "No product ID in productSet response");
}

#[test]
fn billing_variables_write_the_index_as_a_number() {
    assert_eq!(
        json_debug(&billing_attempt_variables("c1", 3, "2024-05-01T00:00:00Z", "key-1")),
        "Object {\"contractId\": String(\"c1\"), \"index\": Number(3), \"originTime\": String(\"2024-05-01T00:00:00Z\"), \"idempotencyKey\": String(\"key-1\")}"
    );
    assert_eq!(
        json_debug(&billing_cycle_schedule_edit_variables("c1", -2, "2024-06-01T00:00:00Z")),
        "Object {\"contractId\": String(\"c1\"), \"index\": Number(-2), \"date\": String(\"2024-06-01T00:00:00Z\")}"
    );
}

#[test]
fn company_location_variables_leave_out_absent_fields() {
    let address = CompanyAddressInput {
        address1: "1 Main St".to_string(),
        address2: None,
        city: "Springfield".to_string(),
        province_code: Some("IL".to_string()),
        country_code: "US".to_string(),
        zip: "62701".to_string(),
        recipient: None,
        first_name: None,
        last_name: Some("Doe".to_string()),
        phone: None,
    };
    let input = CompanyLocationInput {
        name: "HQ".to_string(),
        external_id: Some("E1".to_string()),
        phone: None,
        billing_address: Some(address),
        shipping_address: None,
        tax_exemptions: Some(vec!["GOVERNMENT".to_string()]),
        buyer_experience_configuration: Some(CompanyLocationBuyerExperienceConfigInput {
            checkout_to_draft: Some(true),
            edit_order_enabled: None,
            pay_now_only: Some(false),
        }),
    };
    let v = company_location_create_variables("gid://shopify/Company/1", &input);
    assert_eq!(
        json_debug(&v),
        "Object {\"companyId\": String(\"gid://shopify/Company/1\"), \"input\": Object {\"name\": String(\"HQ\"), \"externalId\": String(\"E1\"), \"billingAddress\": Object {\"address1\": String(\"1 Main St\"), \"city\": String(\"Springfield\"), \"provinceCode\": String(\"IL\"), \"countryCode\": String(\"US\"), \"zip\": String(\"62701\"), \"lastName\": String(\"Doe\")}, \"taxExemptions\": Array [String(\"GOVERNMENT\")], \"buyerExperienceConfiguration\": Object {\"checkoutToDraft\": Bool(true), \"editOrderEnabled\": Null, \"payNowOnly\": Bool(false)}}}"
    );
}

#[test]
fn fulfillment_variables_carry_orders_and_tracking() {
    let input = FulfillmentV2Input {
        line_items_by_fulfillment_order: vec![
            FulfillmentOrderInput {
                fulfillment_order_id: "gid://shopify/FulfillmentOrder/1".to_string(),
                fulfillment_order_line_items: Some(vec![FulfillmentOrderLineItemInput {
                    id: "gid://shopify/FulfillmentOrderLineItem/7".to_string(),
                    quantity: -3,
                }]),
            },
            FulfillmentOrderInput {
                fulfillment_order_id: "gid://shopify/FulfillmentOrder/2".to_string(),
                fulfillment_order_line_items: None,
            },
        ],
        notify_customer: Some(true),
        tracking_info: Some(FulfillmentTrackingInput {
            company: Some("UPS".to_string()),
            number: None,
            url: None,
            numbers: Some(vec!["1Z".to_string()]),
            urls: None,
        }),
    };
    let v = fulfillment_create_v2_variables(&input);
    assert_eq!(
        json_debug(&v),
        "Object {\"fulfillment\": Object {\"lineItemsByFulfillmentOrder\": Array [Object {\"fulfillmentOrderId\": String(\"gid://shopify/FulfillmentOrder/1\"), \"fulfillmentOrderLineItems\": Array [Object {\"id\": String(\"gid://shopify/FulfillmentOrderLineItem/7\"), \"quantity\": Number(-3)}]}, Object {\"fulfillmentOrderId\": String(\"gid://shopify/FulfillmentOrder/2\")}], \"notifyCustomer\": Bool(true), \"trackingInfo\": Object {\"company\": String(\"UPS\"), \"number\": Null, \"url\": Null, \"numbers\": Array [String(\"1Z\")], \"urls\": Null}}}"
    );
    let bare = FulfillmentV2Input { line_items_by_fulfillment_order: vec![], notify_customer: None, tracking_info: None };
    assert_eq!(
        json_debug(&fulfillment_create_v2_variables(&bare)),
        "Object {\"fulfillment\": Object {\"lineItemsByFulfillmentOrder\": Array [], \"notifyCustomer\": Null, \"trackingInfo\": Null}}"
    );
}

#[test]
fn inventory_variables_list_every_field() {
    let set = InventorySetQuantitiesInput {
        reason: "correction".to_string(),
        reference_document_uri: None,
        quantities: vec![InventorySetQuantityInput {
            inventory_item_id: "gid://shopify/InventoryItem/1".to_string(),
            location_id: "gid://shopify/Location/2".to_string(),
            quantity: 12,
        }],
        ignore_compare_quantity: Some(true),
        set_on_hand: None,
    };
    assert_eq!(
        json_debug(&inventory_set_quantities_variables(&set)),
        "Object {\"input\": Object {\"reason\": String(\"correction\"), \"referenceDocumentUri\": Null, \"quantities\": Array [Object {\"inventoryItemId\": String(\"gid://shopify/InventoryItem/1\"), \"locationId\": String(\"gid://shopify/Location/2\"), \"quantity\": Number(12)}], \"ignoreCompareQuantity\": Bool(true), \"setOnHand\": Null}}"
    );
    let adjust = InventoryAdjustQuantitiesInput {
        reason: "received".to_string(),
        reference_document_uri: Some("erp://po/5".to_string()),
        changes: vec![InventoryAdjustQuantityInput {
            inventory_item_id: "gid://shopify/InventoryItem/1".to_string(),
            location_id: "gid://shopify/Location/2".to_string(),
            delta: -4,
        }],
        name: "available".to_string(),
    };
    assert_eq!(
        json_debug(&inventory_adjust_quantities_variables(&adjust)),
        "Object {\"input\": Object {\"reason\": String(\"received\"), \"referenceDocumentUri\": String(\"erp://po/5\"), \"changes\": Array [Object {\"inventoryItemId\": String(\"gid://shopify/InventoryItem/1\"), \"locationId\": String(\"gid://shopify/Location/2\"), \"delta\": Number(-4)}], \"name\": String(\"available\")}}"
    );
}

fn code_alloc(code: &str) -> JsonValue {
    obj(vec![(
        "discountApplication",
        obj(vec![("__typename", s("DiscountCodeApplication")), ("code", s(code))]),
    )])
}

#[test]
fn line_items_page_reads_codes_in_order() {
    let data = obj(vec![(
        "order",
        obj(vec![(
            "lineItems",
            obj(vec![
                (
                    "edges",
                    JsonValue::Array(vec![obj(vec![
                        (
                            "node",
                            obj(vec![
                                ("id", s("gid://shopify/LineItem/1")),
                                ("title", s("Shirt")),
                                ("discountAllocations", JsonValue::Array(vec![code_alloc("SAVE10"), code_alloc("VIP")])),
                            ]),
                        ),
                        ("cursor", s("c1")),
                    ])]),
                ),
                ("pageInfo", obj(vec![("hasNextPage", JsonValue::Bool(false)), ("endCursor", JsonValue::Null)])),
            ]),
        )]),
    )]);
    let page = discounted_line_items_of(&data).unwrap();
    let info = page.page_info.clone().unwrap();
    assert_eq!(info.has_next_page, Some(false));
    assert_eq!(info.end_cursor, None);
    let reports = line_item_discount_infos(page);
    assert_eq!(reports.len(), 1);
    assert_eq!(reports[0].line_item_id, "gid://shopify/LineItem/1");
    assert_eq!(reports[0].line_item_title, "Shirt");
    assert_eq!(reports[0].applied_discount_codes, vec!["SAVE10".to_string(), "VIP".to_string()]);
}

#[test]
fn line_items_page_refuses_other_applications() {
    let automatic = obj(vec![("discountApplication", obj(vec![("__typename", s("AutomaticDiscountApplication"))]))]);
    let data = obj(vec![(
        "order",
        obj(vec![(
            "lineItems",
            obj(vec![(
                "edges",
                JsonValue::Array(vec![obj(vec![
                    (
                        "node",
                        obj(vec![
                            ("id", s("gid://shopify/LineItem/1")),
                            ("title", s("Shirt")),
                            ("discountAllocations", JsonValue::Array(vec![automatic])),
                        ]),
                    ),
                    ("cursor", s("c1")),
                ])]),
            )]),
        )]),
    )]);
    assert_eq!(other_text(&discounted_line_items_of(&data).unwrap_err()), "unreadable line items page");
    assert!(discounted_line_items_of(&obj(vec![])).is_err());
    let empty = obj(vec![("order", obj(vec![("lineItems", obj(vec![]))]))]);
    let page = discounted_line_items_of(&empty).unwrap();
    assert!(page.edges.is_none());
    assert!(page.page_info.is_none());
}

fn card(month: JsonValue) -> JsonValue {
    obj(vec![(
        "customer",
        obj(vec![(
            "paymentMethods",
            obj(vec![
                (
                    "edges",
                    JsonValue::Array(vec![obj(vec![
                        (
                            "node",
                            obj(vec![
                                ("id", s("gid://shopify/CustomerPaymentMethod/1")),
                                (
                                    "instrument",
                                    obj(vec![
                                        ("lastDigits", s("4242")),
                                        ("expiryMonth", month),
                                        ("expiryYear", JsonValue::Number("2030".to_string())),
                                        ("expiresSoon", JsonValue::Bool(false)),
                                        ("source", s("stripe")),
                                        ("brand", s("VISA")),
                                    ]),
                                ),
                            ]),
                        ),
                        ("cursor", s("c1")),
                    ])]),
                ),
                ("pageInfo", obj(vec![("hasNextPage", JsonValue::Bool(true)), ("endCursor", s("c1"))])),
            ]),
        )]),
    )])
}

#[test]
fn payment_methods_page_reads_cards() {
    let page = payment_methods_page_of(&card(JsonValue::Number("7".to_string()))).unwrap();
    assert_eq!(page.page_info.has_next_page, Some(true));
    assert_eq!(page.page_info.end_cursor, Some("c1".to_string()));
    let methods = payment_methods_of_page(page);
    assert_eq!(methods.len(), 1);
    assert_eq!(methods[0].id, "gid://shopify/CustomerPaymentMethod/1");
    assert_eq!(methods[0].last_digits, "4242");
    assert_eq!(methods[0].expiry_month, 7);
    assert_eq!(methods[0].expiry_year, 2030);
    assert!(!methods[0].expires_soon);
    assert_eq!(methods[0].brand, "VISA");
}

#[test]
fn payment_methods_page_refuses_bad_numbers() {
    let e = payment_methods_page_of(&card(JsonValue::Number("-1".to_string()))).unwrap_err();
    assert_eq!(other_text(&e), "unreadable payment methods page");
    assert!(payment_methods_page_of(&card(s("7"))).is_err());
    assert!(payment_methods_page_of(&obj(vec![])).is_err());
}

#[test]
fn u32_numbers() {
    assert_eq!(u32_of_number("0"), Some(0));
    assert_eq!(u32_of_number("4294967295"), Some(u32::MAX));
    assert_eq!(u32_of_number("4294967296"), None);
    assert_eq!(u32_of_number("1.5"), None);
    assert_eq!(u32_of_number(""), None);
}

#[test]
fn customer_create_variables_null_absent_fields() {
    let c = CustomerCreateInput {
        accepts_marketing: Some(true),
        email: Some("a@b.c".to_string()),
        first_name: None,
        last_name: None,
        password: Some("pw".to_string()),
        phone: None,
    };
    assert_eq!(
        json_debug(&customer_create_variables(&c)),
        "Object {\"input\": Object {\"acceptsMarketing\": Bool(true), \"email\": String(\"a@b.c\"), \"firstName\": Null, \"lastName\": Null, \"password\": String(\"pw\"), \"phone\": Null}}"
    );
}

#[test]
fn combined_listing_variables_keep_order() {
    let added = vec![ChildProductRelationInput {
        child_product_id: "gid://shopify/Product/2".to_string(),
        selected_parent_option_values: vec![
            SelectedVariantOptionInput { name: "Color".to_string(), value: "Red".to_string(), linked_metafield_value: None },
            SelectedVariantOptionInput {
                name: "Size".to_string(),
                value: "M".to_string(),
                linked_metafield_value: Some("gid://shopify/Metaobject/5".to_string()),
            },
        ],
    }];
    let options = vec![OptionsAndValues { name: "Color".to_string(), values: vec!["Red".to_string(), "Blue".to_string()] }];
    assert_eq!(
        json_debug(&combined_listing_update_variables("gid://shopify/Product/1", &added, &options)),
        "Object {\"parentProductId\": String(\"gid://shopify/Product/1\"), \"productsAdded\": Array [Object {\"childProductId\": String(\"gid://shopify/Product/2\"), \"selectedParentOptionValues\": Array [Object {\"name\": String(\"Color\"), \"value\": String(\"Red\")}, Object {\"name\": String(\"Size\"), \"value\": String(\"M\"), \"linkedMetafieldValue\": String(\"gid://shopify/Metaobject/5\")}]}], \"optionsAndValues\": Array [Object {\"name\": String(\"Color\"), \"values\": Array [String(\"Red\"), String(\"Blue\")]}]}"
    );
}

#[test]
fn metaobject_create_variables_shape() {
    let m = MetaObject {
        definition_type: "swatch".to_string(),
        capabilities: Capabilities {
            publishable: MetaobjectCapabilityDataPublishableInput { status: "ACTIVE".to_string() },
        },
        handle: "red".to_string(),
        fields: vec![Field { key: "hex".to_string(), value: "#f00".to_string() }],
    };
    assert_eq!(
        json_debug(&metaobject_create_variables(&m)),
        "Object {\"metaobject\": Object {\"type\": String(\"swatch\"), \"capabilities\": Object {\"publishable\": Object {\"status\": String(\"ACTIVE\")}}, \"handle\": String(\"red\"), \"fields\": Array [Object {\"key\": String(\"hex\"), \"value\": String(\"#f00\")}]}}"
    );
}
