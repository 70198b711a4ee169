use malibus_shopifyapi_tooling::combinedlistings::{
    create_combined_listing_parent_outcome, CombinedParentCreateResponse, CombinedParentProduct,
    NewCombinedParentCreated,
};
use malibus_shopifyapi_tooling::customer::customer_info::{
    customer_gid_of, CustomerIdConnection, CustomerIdEdge, CustomerIdNode, CustomerIdsResponse,
};
use malibus_shopifyapi_tooling::customer::payment_methods::{
    payment_methods_of_page, PaymentInstrument, PaymentMethodConnection, PaymentMethodEdge, PaymentMethodNode,
};
use malibus_shopifyapi_tooling::draft_orders::{
    create_draft_order_outcome, ShopifyDraftOrder, ShopifyDraftOrderCreateResponse, ShopifyDraftOrderObj,
};
use malibus_shopifyapi_tooling::error::{AppError, UserError};
use malibus_shopifyapi_tooling::metafielddefinitions::{
    metafield_definition_outcome, CreatedDefinition, Definition, MetafieldDefinitionCreateResponse,
    MetafieldOwnerType,
};
use malibus_shopifyapi_tooling::metafields::metafield_set_outcome;
use malibus_shopifyapi_tooling::metaobject::{
    create_metaobject_outcome, NewMetaObjectInfo, NewMetaObjectMutationResponse, NewMetaObjectResponse,
};
use malibus_shopifyapi_tooling::metaobjectdefinitions::{
    create_metaobject_definition_outcome, CreateMetaObjDefResponse, MetaObjectDefinitionCreate,
    NewMetaObjectDefinition,
};
use malibus_shopifyapi_tooling::orders::line_item_discounts::{
    line_item_discount_infos, DiscountedLineItem, DiscountedLineItemConnection, DiscountedLineItemEdge,
};
use malibus_shopifyapi_tooling::products::product_create::{
    product_create_outcome, NewProductCreated, ProductCreateResponse,
};
use malibus_shopifyapi_tooling::products::product_metafields::present_nodes;
use malibus_shopifyapi_tooling::products::{ProductInfo, VariantNode, Variants};
use malibus_shopifyapi_tooling::publishable_publish::{
    first_publication_id, publications_page, storefront_publication_id, Catalog, Publication, PublicationEdge,
    PublicationNode, PublicationNodes, PublicationNodesResponse, PublicationResponse, Publications,
};
use malibus_shopifyapi_tooling::storefront_api::{cart_create_outcome, CartCreateResult, CartInfo, CartUserError};
use malibus_shopifyapi_tooling::{PageInfo, Pager};

fn other_text(e: &AppError) -> String {
    match e {
        AppError::OtherError(m) => m.clone(),
        _ => panic!("not an OtherError"),
    }
}

fn page(has_next: Option<bool>, end: Option<&str>) -> PageInfo {
    PageInfo { has_next_page: has_next, end_cursor: end.map(|s| s.to_string()) }
}

#[test]
fn pager_follows_end_cursors_until_the_last_page() {
    let mut p: Pager<u32> = Pager::new();
    p.absorb(vec![1, 2], Some(page(Some(true), Some("c2"))));
    assert!(!p.done);
    assert_eq!(p.cursor, Some("c2".to_string()));
    p.absorb(vec![3], Some(page(Some(false), Some("c3"))));
    assert!(p.done);
    assert_eq!(p.items, vec![1, 2, 3]);
}

#[test]
fn pager_stops_without_page_info_or_flag() {
    let mut p: Pager<u32> = Pager::new();
    p.absorb(vec![7], None);
    assert!(p.done);
    let mut q: Pager<u32> = Pager::new();
    q.absorb(vec![], Some(page(None, Some("x"))));
    assert!(q.done);
    assert_eq!(q.cursor, None);
}

#[test]
fn line_item_discounts_report_each_item() {
    let conn = DiscountedLineItemConnection {
        edges: Some(vec![
            DiscountedLineItemEdge {
                node: DiscountedLineItem {
                    id: "li1".to_string(),
                    title: "Shirt".to_string(),
                    discount_codes: Some(vec!["SAVE10".to_string(), "VIP".to_string()]),
                },
                cursor: "a".to_string(),
            },
            DiscountedLineItemEdge {
                node: DiscountedLineItem { id: "li2".to_string(), title: "Hat".to_string(), discount_codes: None },
                cursor: "b".to_string(),
            },
        ]),
        page_info: None,
    };
    let infos = line_item_discount_infos(conn);
    assert_eq!(infos.len(), 2);
    assert_eq!(infos[0].line_item_id, "li1");
    assert_eq!(infos[0].applied_discount_codes, vec!["SAVE10".to_string(), "VIP".to_string()]);
    assert_eq!(infos[1].line_item_title, "Hat");
    assert!(infos[1].applied_discount_codes.is_empty());
    let none = line_item_discount_infos(DiscountedLineItemConnection { edges: None, page_info: None });
    assert!(none.is_empty());
}

#[test]
fn payment_methods_are_flattened() {
    let conn = PaymentMethodConnection {
        edges: vec![PaymentMethodEdge {
            node: PaymentMethodNode {
                id: "pm1".to_string(),
                instrument: PaymentInstrument {
                    last_digits: "4242".to_string(),
                    expiry_month: 12,
                    expiry_year: 2030,
                    expires_soon: false,
                    source: "remote".to_string(),
                    brand: "visa".to_string(),
                },
            },
            cursor: "c".to_string(),
        }],
        page_info: page(Some(false), None),
    };
    let methods = payment_methods_of_page(conn);
    assert_eq!(methods.len(), 1);
    assert_eq!(methods[0].id, "pm1");
    assert_eq!(methods[0].last_digits, "4242");
    assert_eq!(methods[0].expiry_year, 2030);
    assert_eq!(methods[0].brand, "visa");
}

#[test]
fn customer_gid_is_the_first_edge_node_id() {
    let resp = CustomerIdsResponse {
        customers: Some(CustomerIdConnection {
            edges: Some(vec![
                CustomerIdEdge { node: Some(CustomerIdNode { id: Some("cu1".to_string()) }) },
                CustomerIdEdge { node: Some(CustomerIdNode { id: Some("cu2".to_string()) }) },
            ]),
        }),
    };
    assert_eq!(customer_gid_of(resp).customer_gid, Some("cu1".to_string()));
    let empty = CustomerIdsResponse { customers: Some(CustomerIdConnection { edges: Some(vec![]) }) };
    assert_eq!(customer_gid_of(empty).customer_gid, None);
}

#[test]
fn present_nodes_skip_missing_ones() {
    assert_eq!(present_nodes(vec![Some(1), None, Some(3), None]), vec![1, 3]);
    assert_eq!(present_nodes::<u8>(vec![None]), Vec::<u8>::new());
}

#[test]
fn product_create_reports_first_variant() {
    let resp = ProductCreateResponse {
        product_create: Some(NewProductCreated {
            product: Some(ProductInfo {
                handle: Some("tee".to_string()),
                id: Some("p1".to_string()),
                variants: Some(Variants {
                    nodes: Some(vec![
                        VariantNode { id: Some("v1".to_string()), title: Some("Default".to_string()) },
                        VariantNode { id: Some("v2".to_string()), title: None },
                    ]),
                }),
            }),
            user_errors: None,
        }),
    };
    let r = product_create_outcome(resp).unwrap();
    assert_eq!(r.product_id, Some("p1".to_string()));
    assert_eq!(r.handle, Some("tee".to_string()));
    assert_eq!(r.variant_id, Some("v1".to_string()));
    assert_eq!(r.variant_title, Some("Default".to_string()));
    let failed = ProductCreateResponse { product_create: Some(NewProductCreated { product: None, user_errors: None }) };
    assert_eq!(
        other_text(&product_create_outcome(failed).unwrap_err()),
        "Failed to create product or retrieve variant ID"
    );
}

#[test]
fn draft_order_needs_id_and_invoice_url() {
    let resp = |id: Option<&str>, url: Option<&str>| ShopifyDraftOrderCreateResponse {
        draft_order_create: Some(ShopifyDraftOrder {
            draft_order: Some(ShopifyDraftOrderObj {
                id: id.map(|s| s.to_string()),
                invoice_url: url.map(|s| s.to_string()),
            }),
        }),
    };
    let ok = create_draft_order_outcome(resp(Some("d1"), Some("https://x"))).unwrap();
    assert_eq!(ok.id, Some("d1".to_string()));
    assert_eq!(ok.invoice_url, Some("https://x".to_string()));
    let e = create_draft_order_outcome(resp(Some("d1"), None)).unwrap_err();
    assert_eq!(other_text(&e), "Issue with Draftorder - Shopify");
}

#[test]
fn cart_create_joins_user_error_messages() {
    let ok = CartCreateResult {
        cart: Some(CartInfo { id: "cart1".to_string(), checkout_url: "https://checkout".to_string() }),
        user_errors: vec![],
    };
    assert_eq!(cart_create_outcome(ok).unwrap(), "https://checkout");
    let bad = CartCreateResult {
        cart: None,
        user_errors: vec![
            CartUserError { field: vec!["lines".to_string()], message: "Invalid line".to_string() },
            CartUserError { field: vec![], message: "Out of stock".to_string() },
        ],
    };
    assert_eq!(other_text(&cart_create_outcome(bad).unwrap_err()), "Invalid line, Out of stock");
    let empty = CartCreateResult { cart: None, user_errors: vec![] };
    assert_eq!(other_text(&cart_create_outcome(empty).unwrap_err()), "");
}

#[test]
fn metafield_set_outcome_takes_first_id() {
    assert_eq!(metafield_set_outcome(Some(vec![Some("m1".to_string()), Some("m2".to_string())])).unwrap(), "m1");
    assert_eq!(
        other_text(&metafield_set_outcome(Some(vec![None, Some("m2".to_string())])).unwrap_err()),
        "No Metafield Created!"
    );
    assert_eq!(other_text(&metafield_set_outcome(None).unwrap_err()), "No Metafield Created!");
}

#[test]
fn metafield_definition_outcome_defaults_to_empty() {
    let created = MetafieldDefinitionCreateResponse {
        metafield_definition_create: Some(CreatedDefinition {
            created_definition: Some(Definition {
                id: Some("d1".to_string()),
                key: Some("k".to_string()),
                name: None,
                namespace: None,
                owner_type: Some(MetafieldOwnerType::PRODUCT),
            }),
            user_errors: None,
        }),
    };
    assert_eq!(metafield_definition_outcome(created).id, Some("d1".to_string()));
    let none = MetafieldDefinitionCreateResponse { metafield_definition_create: None };
    let d = metafield_definition_outcome(none);
    assert!(d.id.is_none() && d.key.is_none() && d.name.is_none());
}

#[test]
fn metaobject_outcome_defaults_to_empty() {
    let resp = NewMetaObjectMutationResponse {
        metaobject_create: Some(NewMetaObjectResponse {
            metaobject: Some(NewMetaObjectInfo { id: Some("mo1".to_string()), handle: Some("h".to_string()) }),
            user_errors: None,
        }),
    };
    assert_eq!(create_metaobject_outcome(resp).id, Some("mo1".to_string()));
    let none = create_metaobject_outcome(NewMetaObjectMutationResponse { metaobject_create: None });
    assert!(none.id.is_none() && none.handle.is_none());
}

#[test]
fn metaobject_definition_outcome_id_then_error_code() {
    let with_id = CreateMetaObjDefResponse {
        metaobjectdefinitioncreate: Some(MetaObjectDefinitionCreate {
            metaobject_definition: Some(NewMetaObjectDefinition {
                id: Some("def1".to_string()),
                name: None,
                def_type: None,
            }),
            user_errors: None,
        }),
    };
    assert_eq!(create_metaobject_definition_outcome(with_id).unwrap(), "def1");
    let taken = CreateMetaObjDefResponse {
        metaobjectdefinitioncreate: Some(MetaObjectDefinitionCreate {
            metaobject_definition: None,
            user_errors: Some(vec![UserError { code: Some("TAKEN".to_string()), field: None, message: None }]),
        }),
    };
    assert_eq!(create_metaobject_definition_outcome(taken).unwrap(), "TAKEN");
    let nothing = CreateMetaObjDefResponse { metaobjectdefinitioncreate: None };
    assert!(matches!(
        create_metaobject_definition_outcome(nothing),
        Err(AppError::MetaObjectDefinitionCreateError(_))
    ));
}

#[test]
fn combined_parent_defaults_to_empty_product() {
    let resp = CombinedParentCreateResponse {
        product_create: Some(NewCombinedParentCreated {
            product: Some(CombinedParentProduct { handle: Some("h".to_string()), title: None, id: Some("p".to_string()) }),
            user_errors: None,
        }),
    };
    assert_eq!(create_combined_listing_parent_outcome(resp).id, Some("p".to_string()));
    let none = create_combined_listing_parent_outcome(CombinedParentCreateResponse { product_create: None });
    assert!(none.id.is_none() && none.handle.is_none() && none.title.is_none());
}

#[test]
fn publications_page_lists_edge_nodes() {
    let publication = |id: &str| Publication { id: id.to_string(), name: None, catalog: None };
    let resp = PublicationResponse {
        publications: Some(Publications {
            edges: vec![
                PublicationEdge { node: publication("pub1"), cursor: "a".to_string() },
                PublicationEdge { node: publication("pub2"), cursor: "b".to_string() },
            ],
            nodes: vec![],
            page_info: page(Some(false), None),
        }),
    };
    let (items, info) = publications_page(resp).unwrap();
    assert_eq!(items.len(), 2);
    assert_eq!(items[1].id, "pub2");
    assert_eq!(info.has_next_page, Some(false));
    let none = publications_page(PublicationResponse { publications: None }).unwrap_err();
    assert_eq!(other_text(&none), "No publications found");
}

#[test]
fn storefront_publication_is_found_by_title_or_name() {
    let node = |id: Option<&str>, title: Option<&str>, name: Option<&str>| PublicationNode {
        id: id.map(|s| s.to_string()),
        catalog: title.map(|t| Catalog { title: Some(t.to_string()) }),
        name: name.map(|s| s.to_string()),
    };
    let resp = |nodes: Vec<PublicationNode>| PublicationNodesResponse {
        publications: Some(PublicationNodes { nodes: Some(nodes) }),
    };
    let by_name = resp(vec![node(Some("p1"), None, Some("Online Store")), node(Some("p2"), None, Some("Storefront API"))]);
    assert_eq!(storefront_publication_id(&by_name).unwrap(), "p2");
    let by_title = resp(vec![node(Some("p3"), Some("storefront_api"), Some("x"))]);
    assert_eq!(storefront_publication_id(&by_title).unwrap(), "p3");
    let no_id = resp(vec![node(None, None, Some("Storefront API"))]);
    assert_eq!(other_text(&storefront_publication_id(&no_id).unwrap_err()), "Publication ID not found");
    let absent = resp(vec![node(Some("p1"), None, Some("Online Store"))]);
    assert_eq!(
        other_text(&storefront_publication_id(&absent).unwrap_err()),
        "Storefront API publication not found"
    );
    let nothing = PublicationNodesResponse { publications: None };
    assert_eq!(other_text(&storefront_publication_id(&nothing).unwrap_err()), "No publications found");
}

#[test]
fn first_publication_id_or_empty() {
    let resp = PublicationNodesResponse {
        publications: Some(PublicationNodes {
            nodes: Some(vec![PublicationNode { id: Some("online".to_string()), catalog: None, name: None }]),
        }),
    };
    assert_eq!(first_publication_id(&resp), "online");
    assert_eq!(first_publication_id(&PublicationNodesResponse { publications: None }), "");
}

#[test]
fn keeping_present_nodes_page_by_page_matches_keeping_them_at_the_end() {
    let first = vec![Some(1), None, Some(2)];
    let second = vec![None, Some(3)];
    let mut all = first.clone();
    all.extend(second.clone());
    let mut by_page = present_nodes(first);
    by_page.extend(present_nodes(second));
    assert_eq!(present_nodes(all), by_page);
}
