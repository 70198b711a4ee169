//! GraphQL documents that embed caller-supplied text.
use vstd::prelude::*;
use crate::text::{replace, spec_replace};

verus! {

/// `, after: "<cursor>"` for a cursor, nothing without one.
pub open spec fn spec_after_clause(cursor: Option<Seq<char>>) -> Seq<char> {
    match cursor {
        Some(c) => ", after: \""@ + c + "\""@,
        None => Seq::empty(),
    }
}

pub open spec fn opt_view(o: Option<String>) -> Option<Seq<char>> {
    match o {
        Some(s) => Some(s@),
        None => None,
    }
}

/// The pagination argument that continues after `cursor`.
pub fn after_clause(cursor: &Option<String>) -> (r: String)
    ensures
        r@ == spec_after_clause(opt_view(*cursor)),
{
    match cursor {
        Some(c) => {
            let mut r = String::from_str(", after: \"");
            r.append(c.as_str());
            r.append("\"");
            r
        },
        None => String::new(),
    }
}

pub open spec fn spec_catalogs_by_company_query(company_gid: Seq<char>) -> Seq<char> {
    "query {\n            catalogs(first: 1, query: \"context_type:company context_id:"@
        + spec_replace(company_gid, "/"@, "\\/"@)
        + "\") {\n                edges {\n                    node {\n                        id\n                        priceList {\n                            id\n                        }\n                    }\n                }\n            }\n        }"@
}

/// The catalogs query for a company (its GID with "/" escaped as "\/").
pub fn catalogs_by_company_query(company_gid: &str) -> (r: String)
    ensures
        r@ == spec_catalogs_by_company_query(company_gid@),
{
    proof {
        reveal_strlit("/");
    }
    let mut r = String::from_str("query {\n            catalogs(first: 1, query: \"context_type:company context_id:");
    let e0 = replace(company_gid, "/", "\\/");
    r.append(e0.as_str());
    r.append("\") {\n                edges {\n                    node {\n                        id\n                        priceList {\n                            id\n                        }\n                    }\n                }\n            }\n        }");
    r
}

pub open spec fn spec_fulfillment_orders_query(order_id: Seq<char>) -> Seq<char> {
    "query {\n            order(id: \""@
        + order_id
        + "\") {\n                fulfillmentOrders(first: 5) {\n                    edges {\n                        node {\n                            id\n                            status\n                        }\n                    }\n                }\n            }\n        }"@
}

/// The query for the fulfillment orders of an order.
pub fn fulfillment_orders_query(order_id: &str) -> (r: String)
    ensures
        r@ == spec_fulfillment_orders_query(order_id@),
{
    let mut r = String::from_str("query {\n            order(id: \"");
    r.append(order_id);
    r.append("\") {\n                fulfillmentOrders(first: 5) {\n                    edges {\n                        node {\n                            id\n                            status\n                        }\n                    }\n                }\n            }\n        }");
    r
}

pub open spec fn spec_fulfillments_query(order_id: Seq<char>) -> Seq<char> {
    "query {\n            order(id: \""@
        + order_id
        + "\") {\n                fulfillments(first: 5) {\n                    id\n                    status\n                }\n            }\n        }"@
}

/// The query for the fulfillments of an order.
pub fn fulfillments_query(order_id: &str) -> (r: String)
    ensures
        r@ == spec_fulfillments_query(order_id@),
{
    let mut r = String::from_str("query {\n            order(id: \"");
    r.append(order_id);
    r.append("\") {\n                fulfillments(first: 5) {\n                    id\n                    status\n                }\n            }\n        }");
    r
}

pub open spec fn spec_company_by_external_id_query(external_id: Seq<char>) -> Seq<char> {
    "query {\n            companies(first: 1, query: \"external_id:"@
        + spec_replace(external_id, "\""@, "\\\""@)
        + "\") {\n                edges {\n                    node {\n                        id\n                        externalId\n                    }\n                }\n            }\n        }"@
}

/// The companies query for an external ID (double quotes escaped as \").
pub fn company_by_external_id_query(external_id: &str) -> (r: String)
    ensures
        r@ == spec_company_by_external_id_query(external_id@),
{
    proof {
        reveal_strlit("\"");
    }
    let mut r = String::from_str("query {\n            companies(first: 1, query: \"external_id:");
    let e0 = replace(external_id, "\"", "\\\"");
    r.append(e0.as_str());
    r.append("\") {\n                edges {\n                    node {\n                        id\n                        externalId\n                    }\n                }\n            }\n        }");
    r
}

pub open spec fn spec_customer_by_email_query(customer_email: Seq<char>) -> Seq<char> {
    "query {\n        customers(first: 1, query:\""@
        + customer_email
        + "\"){\n            edges {\n               node {\n                  id\n               }\n            }\n        }\n    }"@
}

/// The customers query for an email address.
pub fn customer_by_email_query(customer_email: &str) -> (r: String)
    ensures
        r@ == spec_customer_by_email_query(customer_email@),
{
    let mut r = String::from_str("query {\n        customers(first: 1, query:\"");
    r.append(customer_email);
    r.append("\"){\n            edges {\n               node {\n                  id\n               }\n            }\n        }\n    }");
    r
}

pub open spec fn spec_metaobject_create_mutation(handle: Seq<char>) -> Seq<char> {
    "mutation\n   CreateMetaobject($metaobject: MetaobjectCreateInput!){\n     metaobjectCreate(metaobject: $metaobject){\n        metaobject {\n            id\n            handle\n            "@
        + spec_replace(handle, "-"@, ""@)
        + ": field(key: \""@
        + handle
        + "\"){\n                value\n            }\n        }\n        userErrors {\n            field\n            message\n            code\n        }\n     }\n   }"@
}

/// The metaobjectCreate mutation, aliasing the field named by the handle (the alias drops "-").
pub fn metaobject_create_mutation(handle: &str) -> (r: String)
    ensures
        r@ == spec_metaobject_create_mutation(handle@),
{
    proof {
        reveal_strlit("-");
    }
    let mut r = String::from_str("mutation\n   CreateMetaobject($metaobject: MetaobjectCreateInput!){\n     metaobjectCreate(metaobject: $metaobject){\n        metaobject {\n            id\n            handle\n            ");
    let e0 = replace(handle, "-", "");
    r.append(e0.as_str());
    r.append(": field(key: \"");
    r.append(handle);
    r.append("\"){\n                value\n            }\n        }\n        userErrors {\n            field\n            message\n            code\n        }\n     }\n   }");
    r
}

pub open spec fn spec_line_item_discounts_query(after: Option<Seq<char>>) -> Seq<char> {
    "query getOrderLineItemDiscounts($orderId: ID!) {\n                order(id: $orderId) {\n                    lineItems(first: 100"@
        + spec_after_clause(after)
        + ") {\n                        edges {\n                            node {\n                                id\n                                title\n                                discountAllocations {\n                                    discountApplication {\n                                        __typename\n                                        ... on DiscountCodeApplication {\n                                            code\n                                        }\n                                    }\n                                }\n                            }\n                            cursor\n                        }\n                        pageInfo {\n                            hasNextPage\n                            endCursor\n                        }\n                    }\n                }\n            }"@
}

/// The query for one page of an order's line items and their discount codes.
pub fn line_item_discounts_query(after: &Option<String>) -> (r: String)
    ensures
        r@ == spec_line_item_discounts_query(opt_view(*after)),
{
    let mut r = String::from_str("query getOrderLineItemDiscounts($orderId: ID!) {\n                order(id: $orderId) {\n                    lineItems(first: 100");
    let c0 = after_clause(after);
    r.append(c0.as_str());
    r.append(") {\n                        edges {\n                            node {\n                                id\n                                title\n                                discountAllocations {\n                                    discountApplication {\n                                        __typename\n                                        ... on DiscountCodeApplication {\n                                            code\n                                        }\n                                    }\n                                }\n                            }\n                            cursor\n                        }\n                        pageInfo {\n                            hasNextPage\n                            endCursor\n                        }\n                    }\n                }\n            }");
    r
}

pub open spec fn spec_payment_methods_query(customer_id: Seq<char>, after: Option<Seq<char>>) -> Seq<char> {
    "\n            query {\n                customer(id: \""@
        + customer_id
        + "\") {\n                    id\n                    paymentMethods(first: 10"@
        + spec_after_clause(after)
        + ") {\n                        edges {\n                            node {\n                                id\n                                instrument {\n                                    ... on CustomerCreditCard {\n                                        lastDigits\n                                        expiryMonth\n                                        expiryYear\n                                        expiresSoon\n                                        source\n                                        brand\n                                    }\n                                }\n                            }\n                            cursor\n                        }\n                        pageInfo {\n                            hasNextPage\n                            endCursor\n                        }\n                    }\n                }\n            }\n            "@
}

/// The query for one page of a customer's payment methods.
pub fn payment_methods_query(customer_id: &str, after: &Option<String>) -> (r: String)
    ensures
        r@ == spec_payment_methods_query(customer_id@, opt_view(*after)),
{
    let mut r = String::from_str("\n            query {\n                customer(id: \"");
    r.append(customer_id);
    r.append("\") {\n                    id\n                    paymentMethods(first: 10");
    let c1 = after_clause(after);
    r.append(c1.as_str());
    r.append(") {\n                        edges {\n                            node {\n                                id\n                                instrument {\n                                    ... on CustomerCreditCard {\n                                        lastDigits\n                                        expiryMonth\n                                        expiryYear\n                                        expiresSoon\n                                        source\n                                        brand\n                                    }\n                                }\n                            }\n                            cursor\n                        }\n                        pageInfo {\n                            hasNextPage\n                            endCursor\n                        }\n                    }\n                }\n            }\n            ");
    r
}

pub open spec fn spec_product_metafields_query(after: Option<Seq<char>>) -> Seq<char> {
    "query getProductMetafields($productId: ID!) {\n                product(id: $productId) {\n                    id\n                    metafields(first: 100"@
        + spec_after_clause(after)
        + ") {\n                        edges {\n                            node {\n                                namespace\n                                key\n                                value\n                            }\n                            cursor\n                        }\n                        pageInfo {\n                            hasNextPage\n                            endCursor\n                        }\n                    }\n                }\n            }"@
}

/// The query for one page of a product's metafields.
pub fn product_metafields_query(after: &Option<String>) -> (r: String)
    ensures
        r@ == spec_product_metafields_query(opt_view(*after)),
{
    let mut r = String::from_str("query getProductMetafields($productId: ID!) {\n                product(id: $productId) {\n                    id\n                    metafields(first: 100");
    let c0 = after_clause(after);
    r.append(c0.as_str());
    r.append(") {\n                        edges {\n                            node {\n                                namespace\n                                key\n                                value\n                            }\n                            cursor\n                        }\n                        pageInfo {\n                            hasNextPage\n                            endCursor\n                        }\n                    }\n                }\n            }");
    r
}

pub open spec fn spec_publications_query(after: Option<Seq<char>>) -> Seq<char> {
    "query {\n                publications(first: 25"@
        + spec_after_clause(after)
        + ") {\n                    edges {\n                        node {\n                            id\n                            name\n                            catalog {\n                                title\n                            }\n                        }\n                        cursor\n                    }\n                    nodes {\n                        id\n                        name\n                        catalog {\n                            title\n                        }\n                    }\n                    pageInfo {\n                        hasNextPage\n                        endCursor\n                    }\n                }\n            }"@
}

/// The query for one page of publications.
pub fn publications_query(after: &Option<String>) -> (r: String)
    ensures
        r@ == spec_publications_query(opt_view(*after)),
{
    let mut r = String::from_str("query {\n                publications(first: 25");
    let c0 = after_clause(after);
    r.append(c0.as_str());
    r.append(") {\n                    edges {\n                        node {\n                            id\n                            name\n                            catalog {\n                                title\n                            }\n                        }\n                        cursor\n                    }\n                    nodes {\n                        id\n                        name\n                        catalog {\n                            title\n                        }\n                    }\n                    pageInfo {\n                        hasNextPage\n                        endCursor\n                    }\n                }\n            }");
    r
}

} // verus!
