//! Verified core of a Shopify Admin/Storefront API toolkit: value parsing and
//! formatting, enum codecs, response interpretation and request policies.
#![allow(non_snake_case)]
#![allow(non_camel_case_types)]

pub mod text;
pub mod json;
pub mod error;
pub mod graphql;
pub mod queries;
pub mod numeric;
pub mod money;
pub mod inventory;
pub mod storefront_api;
pub mod shipping;
pub mod publishable_publish;
pub mod image;
pub mod fulfillment;
pub mod count;
pub mod company;
pub mod combinedlistings;
pub mod catalog;
pub mod app;
pub mod address;
pub mod customer;
pub mod discount;
pub mod draft_orders;
pub mod metafielddefinitions;
pub mod metafields;
pub mod metaobject;
pub mod metaobjectdefinitions;
pub mod orders;
pub mod products;
pub mod refund;
pub mod order_returns;
pub mod selling_plans;
pub mod request;
pub mod subscription_billing_cycles;


use vstd::prelude::*;

verus! {

/// `gql_client::Client` (the `GQLClient` type).
#[verifier::external_type_specification]
#[verifier::external_body]
pub struct ExGqlClient(gql_client::Client);

pub open spec fn headers_view(headers: Seq<(String, String)>) -> Seq<(Seq<char>, Seq<char>)> {
    headers.map_values(|h: (String, String)| (h.0@, h.1@))
}

/// What a GraphQL client is made of: the endpoint it posts to and the
/// headers (name, value) it sends with every request, in order.
#[derive(Debug, Clone)]
pub struct ClientConfig {
    pub endpoint: String,
    pub headers: Vec<(String, String)>,
}

/// The endpoint a client posts its requests to.
pub uninterp spec fn spec_client_endpoint(c: gql_client::Client) -> Seq<char>;

/// The headers (name to value) a client sends with every request.
pub uninterp spec fn spec_client_headers(c: gql_client::Client) -> Map<Seq<char>, Seq<char>>;

/// The map a list of (name, value) headers gives when collected in order: a
/// later header replaces an earlier one of the same name.
pub open spec fn spec_header_map(headers: Seq<(Seq<char>, Seq<char>)>) -> Map<Seq<char>, Seq<char>>
    decreases headers.len(),
{
    if headers.len() == 0 {
        Map::empty()
    } else {
        spec_header_map(headers.drop_last()).insert(headers.last().0, headers.last().1)
    }
}

/// Trusted: calls `gql_client::Client::new_with_headers` on the endpoint and
/// the headers collected into a `HashMap`. That function stores the endpoint
/// and the header map in the client's configuration, so the client's
/// endpoint is the given one and its headers are the collected map. Nothing
/// more is stated of the client (the map it keeps is seeded anew on every
/// call, so two clients are never claimed to be the same value).
#[verifier::external_body]
fn new_gql_client(config: ClientConfig) -> (c: gql_client::Client)
    ensures
        spec_client_endpoint(c) == config.endpoint@,
        spec_client_headers(c) == spec_header_map(headers_view(config.headers@)),
{
    let map: std::collections::HashMap<String, String> = config.headers.into_iter().collect();
    gql_client::Client::new_with_headers(config.endpoint, map)
}

/// Credentials and addressing for one shop.
#[derive(Debug, Clone)]
pub struct ShopifyCreds {
    pub shopify_token: String,
    pub shopify_api_version: String,
    pub myshopify_url: String,
    pub storefront_access_token: String,
}

impl Default for ShopifyCreds {
    fn default() -> (r: ShopifyCreds)
        ensures
            r.shopify_token@.len() == 0,
            r.shopify_api_version@.len() == 0,
            r.myshopify_url@.len() == 0,
            r.storefront_access_token@.len() == 0,
    {
        ShopifyCreds {
            shopify_token: String::new(),
            shopify_api_version: String::new(),
            myshopify_url: String::new(),
            storefront_access_token: String::new(),
        }
    }
}

fn header(name: &str, value: &str) -> (h: (String, String))
    ensures
        h.0@ == name@,
        h.1@ == value@,
{
    (String::from_str(name), String::from_str(value))
}

impl ShopifyCreds {
    /// `<shop>/admin/api/<version>/graphql.json`
    pub open spec fn spec_admin_url(&self) -> Seq<char> {
        self.myshopify_url@ + "/admin/api/"@ + self.shopify_api_version@ + "/graphql.json"@
    }

    /// `<shop>/api/2025-01/graphql.json`
    pub open spec fn spec_storefront_url(&self) -> Seq<char> {
        self.myshopify_url@ + "/api/2025-01/graphql.json"@
    }

    pub open spec fn spec_admin_headers(&self) -> Seq<(Seq<char>, Seq<char>)> {
        seq![
            ("X-Shopify-Access-Token"@, self.shopify_token@),
            ("X-GraphQL-Cost-Include-Fields"@, "true"@),
            ("Content-Type"@, "application/json"@),
        ]
    }

    pub open spec fn spec_storefront_headers(&self) -> Seq<(Seq<char>, Seq<char>)> {
        seq![
            ("X-Shopify-Storefront-Access-Token"@, self.storefront_access_token@),
            ("Content-Type"@, "application/json"@),
        ]
    }

    /// The Admin API GraphQL endpoint of the shop.
    pub fn admin_graphql_url(&self) -> (r: String)
        ensures
            r@ == self.spec_admin_url(),
    {
        let mut r = self.myshopify_url.clone();
        r.append("/admin/api/");
        r.append(self.shopify_api_version.as_str());
        r.append("/graphql.json");
        r
    }

    /// The Storefront API GraphQL endpoint of the shop.
    pub fn storefront_graphql_url(&self) -> (r: String)
        ensures
            r@ == self.spec_storefront_url(),
    {
        let mut r = self.myshopify_url.clone();
        r.append("/api/2025-01/graphql.json");
        r
    }

    /// Headers of Admin API requests: the access token, the request for
    /// field-level cost information, and the JSON content type.
    pub fn admin_headers(&self) -> (r: Vec<(String, String)>)
        ensures
            headers_view(r@) == self.spec_admin_headers(),
    {
        let mut r: Vec<(String, String)> = Vec::new();
        r.push(header("X-Shopify-Access-Token", self.shopify_token.as_str()));
        r.push(header("X-GraphQL-Cost-Include-Fields", "true"));
        r.push(header("Content-Type", "application/json"));
        assert(headers_view(r@) =~= self.spec_admin_headers());
        r
    }

    /// Headers of Storefront API requests: the storefront token and the JSON
    /// content type.
    pub fn storefront_headers(&self) -> (r: Vec<(String, String)>)
        ensures
            headers_view(r@) == self.spec_storefront_headers(),
    {
        let mut r: Vec<(String, String)> = Vec::new();
        r.push(header("X-Shopify-Storefront-Access-Token", self.storefront_access_token.as_str()));
        r.push(header("Content-Type", "application/json"));
        assert(headers_view(r@) =~= self.spec_storefront_headers());
        r
    }

    /// The configuration of an Admin API client: the Admin endpoint and the
    /// Admin headers.
    pub fn admin_client_config(&self) -> (c: ClientConfig)
        ensures
            c.endpoint@ == self.spec_admin_url(),
            headers_view(c.headers@) == self.spec_admin_headers(),
    {
        ClientConfig { endpoint: self.admin_graphql_url(), headers: self.admin_headers() }
    }

    /// The configuration of a Storefront API client: the Storefront endpoint
    /// and the Storefront headers.
    pub fn storefront_client_config(&self) -> (c: ClientConfig)
        ensures
            c.endpoint@ == self.spec_storefront_url(),
            headers_view(c.headers@) == self.spec_storefront_headers(),
    {
        ClientConfig { endpoint: self.storefront_graphql_url(), headers: self.storefront_headers() }
    }

    /// A GraphQL client for the shop's Admin API, built from
    /// `admin_client_config`.
    pub fn gql_client_builder(&self) -> (c: gql_client::Client)
        ensures
            spec_client_endpoint(c) == self.spec_admin_url(),
            spec_client_headers(c) == spec_header_map(self.spec_admin_headers()),
    {
        new_gql_client(self.admin_client_config())
    }

    /// A GraphQL client for the shop's Storefront API, built from
    /// `storefront_client_config`.
    pub fn gql_client_storefront_builder(&self) -> (c: gql_client::Client)
        ensures
            spec_client_endpoint(c) == self.spec_storefront_url(),
            spec_client_headers(c) == spec_header_map(self.spec_storefront_headers()),
    {
        new_gql_client(self.storefront_client_config())
    }
}

/// Cost of one requested field, as reported in a response's extensions.
#[derive(Debug, Clone)]
pub struct FieldCost {
    pub defined_cost: i32,
    pub path: Vec<String>,
    pub requested_children_cost: Option<i32>,
    pub requested_total_cost: i32,
}

/// Pagination state of a connection.
#[derive(Debug, Clone)]
pub struct PageInfo {
    pub has_next_page: Option<bool>,
    pub end_cursor: Option<String>,
}

impl PageInfo {
    /// Another page follows only when `hasNextPage` is present and true.
    pub open spec fn spec_has_next(self) -> bool {
        self.has_next_page == Some(true)
    }

    pub fn has_next(&self) -> (b: bool)
        ensures
            b == self.spec_has_next(),
    {
        match self.has_next_page {
            Some(b) => b,
            None => false,
        }
    }
}

/// A `pageInfo` object reads when `hasNextPage` is absent or a boolean and
/// `endCursor` is absent or a string.
pub open spec fn spec_page_info_ok(p: crate::json::JsonValue) -> bool {
    &&& match crate::json::spec_present(p, "hasNextPage"@) {
        None | Some(crate::json::JsonValue::Bool(_)) => true,
        _ => false,
    }
    &&& match crate::json::spec_present(p, "endCursor"@) {
        None | Some(crate::json::JsonValue::Str(_)) => true,
        _ => false,
    }
}

/// `info` holds what the `pageInfo` object says.
pub open spec fn spec_page_info_of(p: crate::json::JsonValue, info: PageInfo) -> bool {
    &&& info.has_next_page == match crate::json::spec_present(p, "hasNextPage"@) {
        Some(crate::json::JsonValue::Bool(b)) => Some(b),
        _ => None,
    }
    &&& crate::queries::opt_view(info.end_cursor) == crate::json::spec_str_present(p, "endCursor"@)
}

/// Reads a `pageInfo` object; `None` when a member has the wrong type.
pub fn page_info_of(p: &crate::json::JsonValue) -> (r: Option<PageInfo>)
    ensures
        r is Some <==> spec_page_info_ok(*p),
        r matches Some(info) ==> spec_page_info_of(*p, info),
{
    let has_next_page = match crate::json::present(p, "hasNextPage") {
        None => None,
        Some(crate::json::JsonValue::Bool(b)) => Some(*b),
        Some(_) => {
            return None;
        },
    };
    let end_cursor = match crate::json::present(p, "endCursor") {
        None => None,
        Some(crate::json::JsonValue::Str(s)) => Some(s.clone()),
        Some(_) => {
            return None;
        },
    };
    Some(PageInfo { has_next_page, end_cursor })
}

/// Whether a page is followed by another; no page info means none.
pub open spec fn spec_page_has_next(page_info: Option<PageInfo>) -> bool {
    match page_info {
        Some(p) => p.spec_has_next(),
        None => false,
    }
}

/// The end cursor of a page, if any.
pub open spec fn spec_end_cursor(page_info: Option<PageInfo>) -> Option<Seq<char>> {
    match page_info {
        Some(p) => crate::queries::opt_view(p.end_cursor),
        None => None,
    }
}

/// The items of a paginated query gathered page by page, and where the
/// next page starts.
#[derive(Debug)]
pub struct Pager<T> {
    pub items: Vec<T>,
    pub cursor: Option<String>,
    pub done: bool,
}

impl<T> Pager<T> {
    /// Before the first page: nothing gathered, no cursor.
    pub fn new() -> (p: Pager<T>)
        ensures
            p.items@ == Seq::<T>::empty(),
            p.cursor is None,
            !p.done,
    {
        Pager { items: Vec::new(), cursor: None, done: false }
    }

    /// Adds one page's items after those gathered so far. Pagination stops
    /// unless the page says another follows; then it continues from the
    /// page's end cursor (from the start when the page gives none).
    pub fn absorb(&mut self, page_items: Vec<T>, page_info: Option<PageInfo>)
        ensures
            final(self).items@ == old(self).items@ + page_items@,
            final(self).done == !spec_page_has_next(page_info),
            !final(self).done ==> crate::queries::opt_view(final(self).cursor) == spec_end_cursor(page_info),
            final(self).done ==> final(self).cursor == old(self).cursor,
    {
        let mut page_items = page_items;
        self.items.append(&mut page_items);
        match page_info {
            Some(p) => {
                if p.has_next() {
                    self.cursor = p.end_cursor;
                    self.done = false;
                } else {
                    self.done = true;
                }
            },
            None => {
                self.done = true;
            },
        }
    }
}

/// A key/value attribute.
#[derive(Debug, Clone)]
pub struct AttributeInput {
    pub key: String,
    pub value: String,
}

} // verus!
