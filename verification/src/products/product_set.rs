//! Interpreting a `productSet` response: the product and, for each variant,
//! its id, SKU and inventory item.
use vstd::prelude::*;
use crate::error::{AppError, is_other_error, other_error};
use crate::graphql::{check_user_errors, spec_no_user_errors, spec_user_errors_message};
use crate::json::{
    JsonValue, get, get_opt, as_str_opt, as_array_opt, owned_opt, spec_get, spec_get_opt, spec_as_str_opt,
    spec_as_array_opt, spec_str_field,
};
use crate::products::{ProductSetResult, ProductSetVariantResult};
use crate::queries::opt_view;

verus! {

/// A variant as (SKU, variant id, inventory item id).
pub type VariantTriple = (Option<Seq<char>>, Seq<char>, Seq<char>);

/// The variant an edge describes: its node must have an `id` and an
/// `inventoryItem.id`; the SKU is optional.
pub open spec fn spec_variant_of_edge(edge: JsonValue) -> Option<VariantTriple> {
    match spec_get(edge, "node"@) {
        Some(node) => match spec_str_field(node, "id"@) {
            Some(vid) => match spec_as_str_opt(spec_get_opt(spec_get(node, "inventoryItem"@), "id"@)) {
                Some(iid) => Some((spec_str_field(node, "sku"@), vid, iid)),
                None => None,
            },
            None => None,
        },
        None => None,
    }
}

/// The variants of the edges that describe one, in order.
pub open spec fn spec_variants_of_edges(edges: Seq<JsonValue>) -> Seq<VariantTriple>
    decreases edges.len(),
{
    if edges.len() == 0 {
        Seq::empty()
    } else {
        let rest = spec_variants_of_edges(edges.drop_last());
        match spec_variant_of_edge(edges.last()) {
            Some(v) => rest.push(v),
            None => rest,
        }
    }
}

/// The variant edges at `productSet.product.variants.edges`.
pub open spec fn spec_product_set_edges(resp: JsonValue) -> Option<Seq<JsonValue>> {
    spec_as_array_opt(
        spec_get_opt(spec_get_opt(spec_get_opt(spec_get(resp, "productSet"@), "product"@), "variants"@), "edges"@),
    )
}

/// The variants a `productSet` response reports (none without edges).
pub open spec fn spec_product_set_variants(resp: JsonValue) -> Seq<VariantTriple> {
    match spec_product_set_edges(resp) {
        Some(edges) => spec_variants_of_edges(edges),
        None => Seq::empty(),
    }
}

pub open spec fn variant_result_view(r: ProductSetVariantResult) -> VariantTriple {
    (opt_view(r.sku), r.variant_id@, r.inventory_item_id@)
}

pub open spec fn variant_results_view(rs: Seq<ProductSetVariantResult>) -> Seq<VariantTriple> {
    rs.map_values(|r: ProductSetVariantResult| variant_result_view(r))
}

/// What `productSet` answers: its user errors, else the product id and the
/// variants, else the error for a missing product id.
pub open spec fn spec_product_set_outcome(r: Result<ProductSetResult, AppError>, resp: JsonValue) -> bool {
    if !spec_no_user_errors(resp, "productSet"@, "userErrors"@) {
        r matches Err(e) && is_other_error(
            e,
            spec_user_errors_message(resp, "productSet"@, "userErrors"@, "productSet userErrors: "@),
        )
    } else {
        match spec_as_str_opt(spec_get_opt(spec_get_opt(spec_get(resp, "productSet"@), "product"@), "id"@)) {
            Some(id) => r matches Ok(res) && res.product_id@ == id && variant_results_view(res.variants@)
                == spec_product_set_variants(resp),
            None => r matches Err(e) && is_other_error(e, "No product ID in productSet response"@),
        }
    }
}

fn variant_of_edge(edge: &JsonValue) -> (r: Option<ProductSetVariantResult>)
    ensures
        match r {
            Some(v) => spec_variant_of_edge(*edge) == Some(variant_result_view(v)),
            None => spec_variant_of_edge(*edge) is None,
        },
{
    let node = get(edge, "node");
    match node {
        Some(n) => {
            let vid = as_str_opt(get(n, "id"));
            match vid {
                Some(v) => {
                    let iid = as_str_opt(get_opt(get(n, "inventoryItem"), "id"));
                    match iid {
                        Some(i) => {
                            let sku = owned_opt(as_str_opt(get(n, "sku")));
                            Some(
                                ProductSetVariantResult {
                                    sku,
                                    variant_id: v.clone(),
                                    inventory_item_id: i.clone(),
                                },
                            )
                        },
                        None => None,
                    }
                },
                None => None,
            }
        },
        None => None,
    }
}

fn variants_of_edges(edges: &Vec<JsonValue>) -> (r: Vec<ProductSetVariantResult>)
    ensures
        variant_results_view(r@) == spec_variants_of_edges(edges@),
{
    let mut out: Vec<ProductSetVariantResult> = Vec::new();
    let mut i: usize = 0;
    assert(variant_results_view(out@) =~= spec_variants_of_edges(edges@.take(0)));
    while i < edges.len()
        invariant
            i <= edges.len(),
            variant_results_view(out@) == spec_variants_of_edges(edges@.take(i as int)),
        decreases edges.len() - i,
    {
        assert(edges@.take(i + 1).drop_last() == edges@.take(i as int));
        assert(edges@.take(i + 1).last() == edges@[i as int]);
        let v = variant_of_edge(&edges[i]);
        match v {
            Some(v) => {
                let ghost before = out@;
                out.push(v);
                assert(variant_results_view(out@) =~= variant_results_view(before).push(variant_result_view(v)));
            },
            None => {},
        }
        i = i + 1;
    }
    assert(edges@.take(edges.len() as int) == edges@);
    out
}

/// The product and its variants from a `productSet` response (see
/// `spec_product_set_outcome`).
pub fn product_set_outcome(resp: &JsonValue) -> (r: Result<ProductSetResult, AppError>)
    ensures
        spec_product_set_outcome(r, *resp),
{
    match check_user_errors(resp, "productSet", "userErrors", "productSet userErrors: ") {
        Err(e) => return Err(e),
        Ok(()) => {},
    }
    let product = get_opt(get(resp, "productSet"), "product");
    let product_id = match as_str_opt(get_opt(product, "id")) {
        Some(s) => s.clone(),
        None => return Err(other_error("No product ID in productSet response")),
    };
    let edges = as_array_opt(get_opt(get_opt(product, "variants"), "edges"));
    let variants = match edges {
        Some(arr) => variants_of_edges(arr),
        None => {
            let v: Vec<ProductSetVariantResult> = Vec::new();
            assert(variant_results_view(v@) =~= Seq::<VariantTriple>::empty());
            v
        },
    };
    Ok(ProductSetResult { product_id, variants })
}

} // verus!
verus! {

/// Whether a variant edge's node has a string `id` and a string
/// `inventoryItem.id`.
pub open spec fn spec_edge_names_variant(edge: JsonValue) -> bool {
    &&& spec_as_str_opt(spec_get_opt(spec_get(edge, "node"@), "id"@)) is Some
    &&& spec_as_str_opt(spec_get_opt(spec_get_opt(spec_get(edge, "node"@), "inventoryItem"@), "id"@)) is Some
}

pub open spec fn variant_edge_filter() -> spec_fn(JsonValue) -> bool {
    |e: JsonValue| spec_edge_names_variant(e)
}

/// The edges at `productSet.product.variants.edges` (none when absent).
pub open spec fn spec_variant_edges(resp: JsonValue) -> Seq<JsonValue> {
    match spec_as_array_opt(
        spec_get_opt(spec_get_opt(spec_get_opt(spec_get(resp, "productSet"@), "product"@), "variants"@), "edges"@),
    ) {
        Some(es) => es,
        None => Seq::empty(),
    }
}

/// `r` is the variant of `edge`: its SKU, id and inventory item id.
pub open spec fn spec_reports_edge(r: ProductSetVariantResult, edge: JsonValue) -> bool {
    &&& Some(r.variant_id@) == spec_as_str_opt(spec_get_opt(spec_get(edge, "node"@), "id"@))
    &&& Some(r.inventory_item_id@) == spec_as_str_opt(
        spec_get_opt(spec_get_opt(spec_get(edge, "node"@), "inventoryItem"@), "id"@),
    )
    &&& opt_view(r.sku) == spec_as_str_opt(spec_get_opt(spec_get(edge, "node"@), "sku"@))
}

proof fn lemma_variants_are_filtered_edges(edges: Seq<JsonValue>)
    ensures
        spec_variants_of_edges(edges).len() == edges.filter(variant_edge_filter()).len(),
        forall|k: int|
            0 <= k < spec_variants_of_edges(edges).len() ==> {
                let e = #[trigger] edges.filter(variant_edge_filter())[k];
                let t = spec_variants_of_edges(edges)[k];
                &&& Some(t.1) == spec_as_str_opt(spec_get_opt(spec_get(e, "node"@), "id"@))
                &&& Some(t.2) == spec_as_str_opt(spec_get_opt(spec_get_opt(spec_get(e, "node"@), "inventoryItem"@), "id"@))
                &&& t.0 == spec_as_str_opt(spec_get_opt(spec_get(e, "node"@), "sku"@))
            },
    decreases edges.len(),
{
    if edges.len() == 0 {
        reveal(Seq::filter);
    } else {
        let d = edges.drop_last();
        let l = edges.last();
        lemma_variants_are_filtered_edges(d);
        assert(d.push(l) =~= edges);
        d.lemma_filter_push(l, variant_edge_filter());
        assert(variant_edge_filter()(l) == spec_edge_names_variant(l));
        assert(spec_variant_of_edge(l) is Some <==> spec_edge_names_variant(l));
    }
}

/// `productSet` reports every variant it was told about: with no user errors
/// and a product id, the variants returned are, in order, one per edge of
/// `productSet.product.variants.edges` whose node has a string id and a
/// string `inventoryItem.id` (no such edge is dropped and nothing else is
/// added), each carrying that node's SKU, id and inventory item id.
pub proof fn lemma_product_set_keeps_every_variant(resp: JsonValue, r: Result<ProductSetResult, AppError>)
    requires
        spec_product_set_outcome(r, resp),
    ensures
        r matches Ok(res) ==> {
            &&& res.variants@.len() == spec_variant_edges(resp).filter(variant_edge_filter()).len()
            &&& forall|k: int|
                0 <= k < res.variants@.len() ==> spec_reports_edge(
                    #[trigger] res.variants@[k],
                    spec_variant_edges(resp).filter(variant_edge_filter())[k],
                )
        },
{
    let edges = spec_variant_edges(resp);
    lemma_variants_are_filtered_edges(edges);
    if edges.len() == 0 {
        reveal(Seq::filter);
    }
    if let Ok(res) = r {
        assert(variant_results_view(res.variants@) == spec_variants_of_edges(edges));
        assert forall|k: int| 0 <= k < res.variants@.len() implies spec_reports_edge(
            #[trigger] res.variants@[k],
            edges.filter(variant_edge_filter())[k],
        ) by {
            assert(variant_results_view(res.variants@)[k] == variant_result_view(res.variants@[k]));
        }
    }
}

} // verus!
