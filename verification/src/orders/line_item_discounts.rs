//! The discount codes applied to each line item of an order, gathered over
//! the pages of the order's line items.
use vstd::prelude::*;
use crate::PageInfo;
use crate::{page_info_of, spec_page_info_ok, spec_page_info_of};
use crate::error::{AppError, is_other_error, other_error};
use crate::json::{JsonValue, spec_present, spec_str_present, spec_as_str_opt, spec_get, present, str_present, get, as_str_opt};
use crate::queries::opt_view;
use crate::text::str_eq;

verus! {

/// The discount codes applied to one line item.
#[derive(Debug, Clone)]
pub struct LineItemDiscountInfo {
    pub line_item_id: String,
    pub line_item_title: String,
    pub applied_discount_codes: Vec<String>,
}

/// A line item as the discount query returns it; each allocation is a
/// discount-code application, given by its code.
#[derive(Debug, Clone)]
pub struct DiscountedLineItem {
    pub id: String,
    pub title: String,
    pub discount_codes: Option<Vec<String>>,
}

#[derive(Debug, Clone)]
pub struct DiscountedLineItemEdge {
    pub node: DiscountedLineItem,
    pub cursor: String,
}

/// One page of an order's line items.
#[derive(Debug, Clone)]
pub struct DiscountedLineItemConnection {
    pub edges: Option<Vec<DiscountedLineItemEdge>>,
    pub page_info: Option<PageInfo>,
}

/// The codes of a line item: none when it has no allocations.
pub open spec fn spec_codes(item: DiscountedLineItem) -> Seq<String> {
    match item.discount_codes {
        Some(codes) => codes@,
        None => Seq::empty(),
    }
}

/// The edges of a page: none when absent.
pub open spec fn spec_edges(page: DiscountedLineItemConnection) -> Seq<DiscountedLineItemEdge> {
    match page.edges {
        Some(edges) => edges@,
        None => Seq::empty(),
    }
}

/// `info` reports `edge`'s line item: its id, its title and its codes in
/// order.
pub open spec fn spec_reports(info: LineItemDiscountInfo, edge: DiscountedLineItemEdge) -> bool {
    &&& info.line_item_id == edge.node.id
    &&& info.line_item_title == edge.node.title
    &&& info.applied_discount_codes@ == spec_codes(edge.node)
}

/// One report per line item of the page, in the page's order.
pub fn line_item_discount_infos(page: DiscountedLineItemConnection) -> (r: Vec<LineItemDiscountInfo>)
    ensures
        r@.len() == spec_edges(page).len(),
        forall|i: int| 0 <= i < r@.len() ==> spec_reports(#[trigger] r@[i], spec_edges(page)[i]),
        match page.edges {
            Some(edges) => r@.len() == edges@.len() && forall|i: int|
                0 <= i < edges@.len() ==> {
                    &&& (#[trigger] r@[i]).line_item_id == edges@[i].node.id
                    &&& r@[i].line_item_title == edges@[i].node.title
                    &&& r@[i].applied_discount_codes@ == match edges@[i].node.discount_codes {
                        Some(c) => c@,
                        None => Seq::empty(),
                    }
                },
            None => r@.len() == 0,
        },
{
    let ghost all = spec_edges(page);
    let mut out: Vec<LineItemDiscountInfo> = Vec::new();
    match page.edges {
        Some(edges) => {
            let mut rest = edges;
            let mut taken: Vec<LineItemDiscountInfo> = Vec::new();
            let mut i: usize = 0;
            let n = rest.len();
            while i < n
                invariant
                    n == all.len(),
                    i <= n,
                    rest@ == all.skip(i as int),
                    taken@.len() == i,
                    forall|k: int| 0 <= k < i ==> spec_reports(#[trigger] taken@[k], all[k]),
                decreases n - i,
            {
                let edge = rest.remove(0);
                assert(all.skip(i as int).skip(1) == all.skip(i + 1));
                let codes = match edge.node.discount_codes {
                    Some(c) => c,
                    None => Vec::new(),
                };
                taken.push(
                    LineItemDiscountInfo {
                        line_item_id: edge.node.id,
                        line_item_title: edge.node.title,
                        applied_discount_codes: codes,
                    },
                );
                i = i + 1;
            }
            out = taken;
        },
        None => {},
    }
    out
}

} // verus!

verus! {

/// The code of a discount allocation whose application is a discount-code
/// application; `None` for any other allocation.
pub open spec fn spec_alloc_code(alloc: JsonValue) -> Option<Seq<char>> {
    match spec_present(alloc, "discountApplication"@) {
        Some(app) => if spec_as_str_opt(spec_get(app, "__typename"@)) == Some("DiscountCodeApplication"@) {
            spec_str_present(app, "code"@)
        } else {
            None
        },
        None => None,
    }
}

/// The allocations of a line item read: absent, or an array of
/// discount-code allocations.
pub open spec fn spec_allocs_ok(node: JsonValue) -> bool {
    match spec_present(node, "discountAllocations"@) {
        None => true,
        Some(JsonValue::Array(a)) => forall|i: int| 0 <= i < a@.len() ==> (#[trigger] spec_alloc_code(a@[i])) is Some,
        Some(_) => false,
    }
}

/// A line-item edge reads: a node with a string id and title and readable
/// allocations, and a string cursor.
pub open spec fn spec_edge_ok(edge: JsonValue) -> bool {
    match spec_present(edge, "node"@) {
        Some(node) => {
            &&& spec_str_present(node, "id"@) is Some
            &&& spec_str_present(node, "title"@) is Some
            &&& spec_allocs_ok(node)
            &&& spec_str_present(edge, "cursor"@) is Some
        },
        None => false,
    }
}

/// `e` holds what the edge says: the line item's id, title and codes, in
/// the order of its allocations, and the cursor.
pub open spec fn spec_edge_of(edge: JsonValue, e: DiscountedLineItemEdge) -> bool {
    match spec_present(edge, "node"@) {
        Some(node) => {
            &&& spec_str_present(node, "id"@) == Some(e.node.id@)
            &&& spec_str_present(node, "title"@) == Some(e.node.title@)
            &&& spec_str_present(edge, "cursor"@) == Some(e.cursor@)
            &&& match spec_present(node, "discountAllocations"@) {
                Some(JsonValue::Array(a)) => e.node.discount_codes matches Some(c) && c@.len() == a@.len() && forall|
                    i: int,
                | 0 <= i < a@.len() ==> spec_alloc_code(a@[i]) == Some((#[trigger] c@[i])@),
                _ => e.node.discount_codes is None,
            }
        },
        None => false,
    }
}

/// `order.lineItems` of a response.
pub open spec fn spec_line_items_of(data: JsonValue) -> Option<JsonValue> {
    match spec_present(data, "order"@) {
        Some(order) => spec_present(order, "lineItems"@),
        None => None,
    }
}

/// A line-items page reads: `order.lineItems` is there, its edges are absent
/// or an array of readable edges, and its page info is absent or readable.
pub open spec fn spec_line_items_page_ok(data: JsonValue) -> bool {
    match spec_line_items_of(data) {
        Some(items) => {
            &&& match spec_present(items, "edges"@) {
                None => true,
                Some(JsonValue::Array(es)) => forall|i: int| 0 <= i < es@.len() ==> spec_edge_ok(#[trigger] es@[i]),
                Some(_) => false,
            }
            &&& match spec_present(items, "pageInfo"@) {
                None => true,
                Some(p) => spec_page_info_ok(p),
            }
        },
        None => false,
    }
}

/// `page` holds what `order.lineItems` says, edge by edge in order.
pub open spec fn spec_line_items_page_of(data: JsonValue, page: DiscountedLineItemConnection) -> bool {
    match spec_line_items_of(data) {
        Some(items) => {
            &&& match spec_present(items, "edges"@) {
                Some(JsonValue::Array(es)) => page.edges matches Some(v) && v@.len() == es@.len() && forall|i: int|
                    0 <= i < es@.len() ==> spec_edge_of(es@[i], #[trigger] v@[i]),
                _ => page.edges is None,
            }
            &&& match spec_present(items, "pageInfo"@) {
                Some(p) => page.page_info matches Some(info) && spec_page_info_of(p, info),
                None => page.page_info is None,
            }
        },
        None => false,
    }
}

fn alloc_code(alloc: &JsonValue) -> (r: Option<String>)
    ensures
        opt_view(r) == spec_alloc_code(*alloc),
{
    match present(alloc, "discountApplication") {
        Some(app) => {
            match as_str_opt(get(app, "__typename")) {
                Some(t) => if str_eq(t.as_str(), "DiscountCodeApplication") {
                    str_present(app, "code")
                } else {
                    None
                },
                None => None,
            }
        },
        None => None,
    }
}

#[verifier::loop_isolation(false)]
fn edge_of(edge: &JsonValue) -> (r: Option<DiscountedLineItemEdge>)
    ensures
        r is Some <==> spec_edge_ok(*edge),
        r matches Some(e) ==> spec_edge_of(*edge, e),
{
    let node = match present(edge, "node") {
        Some(n) => n,
        None => {
            return None;
        },
    };
    let id = match str_present(node, "id") {
        Some(s) => s,
        None => {
            return None;
        },
    };
    let title = match str_present(node, "title") {
        Some(s) => s,
        None => {
            return None;
        },
    };
    let codes: Option<Vec<String>> = match present(node, "discountAllocations") {
        None => None,
        Some(JsonValue::Array(a)) => {
            let mut c: Vec<String> = Vec::new();
            let mut i: usize = 0;
            while i < a.len()
                invariant
                    i <= a.len(),
                    c@.len() == i,
                    forall|k: int| 0 <= k < i ==> spec_alloc_code(a@[k]) == Some((#[trigger] c@[k])@),
                decreases a.len() - i,
            {
                match alloc_code(&a[i]) {
                    Some(code) => c.push(code),
                    None => {
                        return None;
                    },
                }
                i = i + 1;
            }
            assert forall|k: int| 0 <= k < a@.len() implies (#[trigger] spec_alloc_code(a@[k])) is Some by {
                assert(spec_alloc_code(a@[k]) == Some(c@[k]@));
            }
            Some(c)
        },
        Some(_) => {
            return None;
        },
    };
    let cursor = match str_present(edge, "cursor") {
        Some(s) => s,
        None => {
            return None;
        },
    };
    Some(DiscountedLineItemEdge { node: DiscountedLineItem { id, title, discount_codes: codes }, cursor })
}

/// Reads one page of an order's line items with their discount codes
/// (`order.lineItems` of the line-item discount query). A page that does not
/// read is refused with "unreadable line items page".
#[verifier::loop_isolation(false)]
pub fn discounted_line_items_of(data: &JsonValue) -> (r: Result<DiscountedLineItemConnection, AppError>)
    ensures
        r is Ok <==> spec_line_items_page_ok(*data),
        r matches Ok(page) ==> spec_line_items_page_of(*data, page),
        r matches Err(e) ==> is_other_error(e, "unreadable line items page"@),
{
    let items = match present(data, "order") {
        Some(order) => match present(order, "lineItems") {
            Some(li) => li,
            None => {
                return Err(other_error("unreadable line items page"));
            },
        },
        None => {
            return Err(other_error("unreadable line items page"));
        },
    };
    let edges: Option<Vec<DiscountedLineItemEdge>> = match present(items, "edges") {
        None => None,
        Some(JsonValue::Array(es)) => {
            let mut v: Vec<DiscountedLineItemEdge> = Vec::new();
            let mut i: usize = 0;
            while i < es.len()
                invariant
                    i <= es.len(),
                    v@.len() == i,
                    forall|k: int| 0 <= k < i ==> spec_edge_ok(es@[k]),
                    forall|k: int| 0 <= k < i ==> spec_edge_of(es@[k], #[trigger] v@[k]),
                decreases es.len() - i,
            {
                match edge_of(&es[i]) {
                    Some(e) => v.push(e),
                    None => {
                        return Err(other_error("unreadable line items page"));
                    },
                }
                i = i + 1;
            }
            Some(v)
        },
        Some(_) => {
            return Err(other_error("unreadable line items page"));
        },
    };
    let page_info = match present(items, "pageInfo") {
        None => None,
        Some(p) => match page_info_of(p) {
            Some(info) => Some(info),
            None => {
                return Err(other_error("unreadable line items page"));
            },
        },
    };
    Ok(DiscountedLineItemConnection { edges, page_info })
}

} // verus!
verus! {

/// A page read from a response keeps every line item it lists, in order:
/// one edge per element of `order.lineItems.edges`, the k-th with that
/// node's id and title, that edge's cursor, and one code per allocation.
pub proof fn lemma_line_items_page_keeps_every_edge(data: JsonValue, page: DiscountedLineItemConnection)
    requires
        spec_line_items_page_ok(data),
        spec_line_items_page_of(data, page),
    ensures
        ({
            let items = spec_present(spec_present(data, "order"@)->0, "lineItems"@)->0;
            match spec_present(items, "edges"@) {
                Some(JsonValue::Array(es)) => page.edges matches Some(v) && v@.len() == es@.len() && forall|k: int|
                    0 <= k < es@.len() ==> {
                        let node = spec_present(es@[k], "node"@)->0;
                        &&& spec_str_present(node, "id"@) == Some((#[trigger] v@[k]).node.id@)
                        &&& spec_str_present(node, "title"@) == Some(v@[k].node.title@)
                        &&& spec_str_present(es@[k], "cursor"@) == Some(v@[k].cursor@)
                        &&& match spec_present(node, "discountAllocations"@) {
                            Some(JsonValue::Array(allocs)) => v@[k].node.discount_codes matches Some(c) && c@.len()
                                == allocs@.len(),
                            _ => v@[k].node.discount_codes is None,
                        }
                    },
                _ => page.edges is None,
            }
        }),
{
    let items = spec_present(spec_present(data, "order"@)->0, "lineItems"@)->0;
    if let Some(JsonValue::Array(es)) = spec_present(items, "edges"@) {
        let v = page.edges->0;
        assert forall|k: int| 0 <= k < es@.len() implies {
            let node = spec_present(es@[k], "node"@)->0;
            &&& spec_str_present(node, "id"@) == Some((#[trigger] v@[k]).node.id@)
            &&& spec_str_present(node, "title"@) == Some(v@[k].node.title@)
            &&& spec_str_present(es@[k], "cursor"@) == Some(v@[k].cursor@)
            &&& match spec_present(node, "discountAllocations"@) {
                Some(JsonValue::Array(allocs)) => v@[k].node.discount_codes matches Some(c) && c@.len()
                    == allocs@.len(),
                _ => v@[k].node.discount_codes is None,
            }
        } by {
            assert(spec_edge_ok(es@[k]));
            assert(spec_edge_of(es@[k], v@[k]));
        }
    }
}

} // verus!
