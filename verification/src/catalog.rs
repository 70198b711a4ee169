//! B2B catalogs and price lists.
use vstd::prelude::*;
use crate::error::{AppError, is_other_error};
use crate::graphql::{
    spec_mutation_id_outcome, mutation_id_outcome, spec_no_user_errors, spec_user_errors_message,
    check_user_errors,
};
use crate::json::{
    JsonValue, JsonView, models, new_items, push_item, jarray, jarray0, jarray1, jobject1, jobject2,
    jobject3, jobject4, jstr, jnum, jnull, get, get_opt, as_array_opt, as_str_opt, spec_get, spec_get_opt, spec_as_array_opt,
    spec_as_str_opt,
};
use crate::queries::opt_view;

verus! {

#[derive(Debug, Clone)]
pub struct PriceListPriceInput {
    pub variant_id: String,
    pub price: MoneyInput,
    pub compare_at_price: Option<MoneyInput>,
}

#[derive(Debug, Clone)]
pub struct MoneyInput {
    /// decimal string e.g. "38.99"
    pub amount: String,
    pub currency_code: String,
}

} // verus!

verus! {

/// Variables of the `catalogCreate` mutation: an active catalog titled
/// `title`, scoped to the single company `company_gid` and to no location.
pub open spec fn spec_catalog_create_variables(company_gid: Seq<char>, title: Seq<char>) -> JsonView {
    JsonView::Object(
        seq![
            ("input"@, JsonView::Object(
                seq![
                    ("title"@, JsonView::Str(title)),
                    ("status"@, JsonView::Str("ACTIVE"@)),
                    ("context"@, JsonView::Object(
                        seq![
                            ("companyLocationIds"@, JsonView::Array(Seq::empty())),
                            ("companyIds"@, JsonView::Array(seq![JsonView::Str(company_gid)])),
                        ],
                    )),
                ],
            )),
        ],
    )
}

pub fn catalog_create_variables(company_gid: &str, title: &str) -> (r: JsonValue)
    ensures
        r@ == spec_catalog_create_variables(company_gid@, title@),
{
    jobject1(
        "input",
        jobject3(
            "title",
            jstr(title),
            "status",
            jstr("ACTIVE"),
            "context",
            jobject2("companyLocationIds", jarray0(), "companyIds", jarray1(jstr(company_gid))),
        ),
    )
}

/// The new catalog's GID from a `catalogCreate` response; user errors are
/// reported as "catalogCreate userErrors: [..]".
pub fn catalog_create_outcome(resp: &JsonValue) -> (r: Result<String, AppError>)
    ensures
        spec_mutation_id_outcome(
            r,
            *resp,
            "catalogCreate"@,
            "userErrors"@,
            "catalogCreate userErrors: "@,
            "catalog"@,
            "No catalog ID in catalogCreate response"@,
        ),
{
    mutation_id_outcome(
        resp,
        "catalogCreate",
        "userErrors",
        "catalogCreate userErrors: ",
        "catalog",
        "No catalog ID in catalogCreate response",
    )
}

/// Variables of the `priceListCreate` mutation: a price list named `name`
/// in `currency` for the catalog, derived from the parent prices with a
/// zero percentage decrease.
pub open spec fn spec_price_list_create_variables(
    catalog_gid: Seq<char>,
    name: Seq<char>,
    currency: Seq<char>,
) -> JsonView {
    JsonView::Object(
        seq![
            ("input"@, JsonView::Object(
                seq![
                    ("name"@, JsonView::Str(name)),
                    ("currency"@, JsonView::Str(currency)),
                    ("catalogId"@, JsonView::Str(catalog_gid)),
                    ("parent"@, JsonView::Object(
                        seq![
                            ("adjustment"@, JsonView::Object(
                                seq![
                                    ("type"@, JsonView::Str("PERCENTAGE_DECREASE"@)),
                                    ("value"@, JsonView::Number("0.0"@)),
                                ],
                            )),
                        ],
                    )),
                ],
            )),
        ],
    )
}

pub fn price_list_create_variables(catalog_gid: &str, name: &str, currency: &str) -> (r: JsonValue)
    ensures
        r@ == spec_price_list_create_variables(catalog_gid@, name@, currency@),
{
    jobject1(
        "input",
        jobject4(
            "name",
            jstr(name),
            "currency",
            jstr(currency),
            "catalogId",
            jstr(catalog_gid),
            "parent",
            jobject1(
                "adjustment",
                jobject2("type", jstr("PERCENTAGE_DECREASE"), "value", jnum("0.0")),
            ),
        ),
    )
}

/// The new price list's GID from a `priceListCreate` response.
pub fn price_list_create_outcome(resp: &JsonValue) -> (r: Result<String, AppError>)
    ensures
        spec_mutation_id_outcome(
            r,
            *resp,
            "priceListCreate"@,
            "userErrors"@,
            "priceListCreate userErrors: "@,
            "priceList"@,
            "No priceList ID in priceListCreate response"@,
        ),
{
    mutation_id_outcome(
        resp,
        "priceListCreate",
        "userErrors",
        "priceListCreate userErrors: ",
        "priceList",
        "No priceList ID in priceListCreate response",
    )
}

/// `{amount, currencyCode}`
pub open spec fn spec_money_input_json(m: MoneyInput) -> JsonView {
    JsonView::Object(
        seq![("amount"@, JsonView::Str(m.amount@)), ("currencyCode"@, JsonView::Str(m.currency_code@))],
    )
}

/// A money input, or `null`.
pub open spec fn spec_opt_money_input_json(m: Option<MoneyInput>) -> JsonView {
    match m {
        Some(m) => spec_money_input_json(m),
        None => JsonView::Null,
    }
}

/// `{variantId, price, compareAtPrice}`, `compareAtPrice` being `null`
/// when absent.
pub open spec fn spec_price_input_json(p: PriceListPriceInput) -> JsonView {
    JsonView::Object(
        seq![
            ("variantId"@, JsonView::Str(p.variant_id@)),
            ("price"@, spec_money_input_json(p.price)),
            ("compareAtPrice"@, spec_opt_money_input_json(p.compare_at_price)),
        ],
    )
}

/// Variables of `priceListFixedPricesAdd`.
pub open spec fn spec_price_list_fixed_prices_add_variables(
    price_list_id: Seq<char>,
    prices: Seq<PriceListPriceInput>,
) -> JsonView {
    JsonView::Object(
        seq![
            ("priceListId"@, JsonView::Str(price_list_id)),
            ("prices"@, JsonView::Array(prices.map_values(|p: PriceListPriceInput| spec_price_input_json(p)))),
        ],
    )
}

fn money_input_json(m: &MoneyInput) -> (r: JsonValue)
    ensures
        r@ == spec_money_input_json(*m),
{
    jobject2("amount", jstr(m.amount.as_str()), "currencyCode", jstr(m.currency_code.as_str()))
}

fn price_input_json(p: &PriceListPriceInput) -> (r: JsonValue)
    ensures
        r@ == spec_price_input_json(*p),
{
    let compare = match &p.compare_at_price {
        Some(m) => money_input_json(m),
        None => jnull(),
    };
    jobject3("variantId", jstr(p.variant_id.as_str()), "price", money_input_json(&p.price), "compareAtPrice", compare)
}

pub fn price_list_fixed_prices_add_variables(price_list_id: &str, prices: &Vec<PriceListPriceInput>) -> (r:
    JsonValue)
    ensures
        r@ == spec_price_list_fixed_prices_add_variables(price_list_id@, prices@),
{
    let mut items = new_items();
    let mut i: usize = 0;
    while i < prices.len()
        invariant
            i <= prices.len(),
            models(items@) == prices@.take(i as int).map_values(
                |p: PriceListPriceInput| spec_price_input_json(p),
            ),
        decreases prices.len() - i,
    {
        push_item(&mut items, price_input_json(&prices[i]));
        assert(prices@.take(i + 1).map_values(|p: PriceListPriceInput| spec_price_input_json(p))
            =~= prices@.take(i as int).map_values(|p: PriceListPriceInput| spec_price_input_json(p)).push(
            spec_price_input_json(prices@[i as int]),
        ));
        i = i + 1;
    }
    assert(prices@.take(prices.len() as int) == prices@);
    jobject2("priceListId", jstr(price_list_id), "prices", jarray(items))
}

/// The user-error check of a `priceListFixedPricesAdd` response.
pub fn price_list_fixed_prices_add_outcome(resp: &JsonValue) -> (r: Result<(), AppError>)
    ensures
        r is Ok <==> spec_no_user_errors(*resp, "priceListFixedPricesAdd"@, "userErrors"@),
        r matches Err(e) ==> is_other_error(
            e,
            spec_user_errors_message(
                *resp,
                "priceListFixedPricesAdd"@,
                "userErrors"@,
                "priceListFixedPricesAdd userErrors: "@,
            ),
        ),
{
    check_user_errors(resp, "priceListFixedPricesAdd", "userErrors", "priceListFixedPricesAdd userErrors: ")
}

/// The string at `catalogs.edges[0].node.priceList.id`.
pub open spec fn spec_price_list_gid_of_catalogs(resp: JsonValue) -> Option<Seq<char>> {
    match spec_as_array_opt(spec_get_opt(spec_get(resp, "catalogs"@), "edges"@)) {
        Some(edges) => if edges.len() > 0 {
            spec_as_str_opt(spec_get_opt(spec_get_opt(spec_get(edges[0], "node"@), "priceList"@), "id"@))
        } else {
            None
        },
        None => None,
    }
}

/// The price list GID of the first catalog in a `catalogs` query response.
pub fn price_list_gid_of_catalogs(resp: &JsonValue) -> (r: Option<String>)
    ensures
        opt_view(r) == spec_price_list_gid_of_catalogs(*resp),
{
    let edges = as_array_opt(get_opt(get(resp, "catalogs"), "edges"));
    match edges {
        Some(arr) => {
            if arr.len() > 0 {
                let id = as_str_opt(get_opt(get_opt(get(&arr[0], "node"), "priceList"), "id"));
                match id {
                    Some(s) => Some(s.clone()),
                    None => None,
                }
            } else {
                None
            }
        },
        None => None,
    }
}

} // verus!
verus! {

/// `priceListFixedPricesAdd` sends every price, in order: one object per
/// given price, the k-th naming the k-th price's variant, for the given
/// price list.
pub proof fn lemma_fixed_prices_sends_every_price(price_list_id: Seq<char>, prices: Seq<PriceListPriceInput>, r: JsonView)
    requires
        r == spec_price_list_fixed_prices_add_variables(price_list_id, prices),
    ensures
        crate::json::spec_member_of(r, "priceListId"@) == Some(JsonView::Str(price_list_id)),
        crate::json::spec_member_of(r, "prices"@) matches Some(JsonView::Array(a)) && a.len() == prices.len()
            && forall|k: int|
            0 <= k < a.len() ==> crate::json::spec_member_of(#[trigger] a[k], "variantId"@) == Some(
                JsonView::Str(prices[k].variant_id@),
            ),
{
    reveal_strlit("priceListId");
    reveal_strlit("prices");
    reveal_strlit("variantId");
    reveal_with_fuel(crate::json::spec_find_member, 3);
    assert("priceListId"@.len() != "prices"@.len());
}

} // verus!
verus! {

/// `catalogCreate` creates an active catalog with the given title for
/// exactly the given company.
pub proof fn lemma_catalog_create_arguments(company_gid: Seq<char>, title: Seq<char>, r: JsonView)
    requires
        r == spec_catalog_create_variables(company_gid, title),
    ensures
        crate::json::spec_member_of(r, "input"@) matches Some(input) && {
            &&& crate::json::spec_member_of(input, "title"@) == Some(JsonView::Str(title))
            &&& crate::json::spec_member_of(input, "context"@) matches Some(ctx) && crate::json::spec_member_of(
                ctx,
                "companyIds"@,
            ) == Some(JsonView::Array(seq![JsonView::Str(company_gid)]))
        },
{
    reveal_strlit("input");
    reveal_strlit("title");
    reveal_strlit("status");
    reveal_strlit("context");
    reveal_strlit("companyLocationIds");
    reveal_strlit("companyIds");
    reveal_with_fuel(crate::json::spec_find_member, 4);
    assert("title"@.len() == 5 && "status"@.len() == 6 && "context"@.len() == 7);
    assert("companyLocationIds"@.len() != "companyIds"@.len());
}

/// `priceListCreate` creates a price list with the given name and currency
/// for the given catalog.
pub proof fn lemma_price_list_create_arguments(catalog_gid: Seq<char>, name: Seq<char>, currency: Seq<char>, r: JsonView)
    requires
        r == spec_price_list_create_variables(catalog_gid, name, currency),
    ensures
        crate::json::spec_member_of(r, "input"@) matches Some(input) && {
            &&& crate::json::spec_member_of(input, "name"@) == Some(JsonView::Str(name))
            &&& crate::json::spec_member_of(input, "currency"@) == Some(JsonView::Str(currency))
            &&& crate::json::spec_member_of(input, "catalogId"@) == Some(JsonView::Str(catalog_gid))
        },
{
    reveal_strlit("input");
    reveal_strlit("name");
    reveal_strlit("currency");
    reveal_strlit("catalogId");
    reveal_with_fuel(crate::json::spec_find_member, 4);
    assert("name"@.len() == 4 && "currency"@.len() == 8 && "catalogId"@.len() == 9);
}

} // verus!
