//! Fulfillments and fulfillment orders.
use vstd::prelude::*;
use crate::error::AppError;
use crate::graphql::{spec_mutation_id_outcome, mutation_id_outcome};
use crate::json::{
    JsonValue, JsonView, member_models, new_members, push_member, push_opt_str_member, jobject, jobject1,
    jstr, get, get_opt, as_array_opt, as_str_opt, first_of, owned_opt, opt_str_view, spec_get,
    spec_get_opt, spec_as_array_opt, spec_as_str_opt, spec_first, spec_str_field, spec_opt_member,
    models, new_items, push_item, jarray, jnum, jobject2, jobject3, jobject5, spec_str_or_null, jstr_or_null,
    spec_bool_or_null, jbool_or_null, spec_str_array_or_null, jstr_array_or_null, spec_opt_value_member,
    opt_model, push_opt_value_member,
};
use crate::numeric::{int_text, spec_int_text};
use crate::queries::opt_view;
use crate::text::str_eq;

verus! {

#[derive(Debug, Clone)]
pub struct FulfillmentTrackingInput {
    pub company: Option<String>,
    pub number: Option<String>,
    pub url: Option<String>,
    pub numbers: Option<Vec<String>>,
    pub urls: Option<Vec<String>>,
}

#[derive(Debug, Clone)]
pub struct FulfillmentOrderLineItemInput {
    /// Shopify FulfillmentOrderLineItem GID
    pub id: String,
    pub quantity: i32,
}

#[derive(Debug, Clone)]
pub struct FulfillmentOrderInput {
    pub fulfillment_order_id: String,
    pub fulfillment_order_line_items: Option<Vec<FulfillmentOrderLineItemInput>>,
}

#[derive(Debug, Clone)]
pub struct FulfillmentV2Input {
    pub line_items_by_fulfillment_order: Vec<FulfillmentOrderInput>,
    pub notify_customer: Option<bool>,
    pub tracking_info: Option<FulfillmentTrackingInput>,
}

} // verus!

verus! {

/// A fulfillment-order edge whose node has status "OPEN".
pub open spec fn spec_edge_is_open(edge: JsonValue) -> bool {
    spec_as_str_opt(spec_get_opt(spec_get(edge, "node"@), "status"@)) == Some("OPEN"@)
}

/// The first open edge of a list.
pub open spec fn spec_first_open_edge(edges: Seq<JsonValue>) -> Option<JsonValue>
    decreases edges.len(),
{
    if edges.len() == 0 {
        None
    } else if spec_edge_is_open(edges[0]) {
        Some(edges[0])
    } else {
        spec_first_open_edge(edges.skip(1))
    }
}

/// The id of the first open fulfillment order at
/// `order.fulfillmentOrders.edges`.
pub open spec fn spec_open_fulfillment_order_id(resp: JsonValue) -> Option<Seq<char>> {
    match spec_as_array_opt(spec_get_opt(spec_get_opt(spec_get(resp, "order"@), "fulfillmentOrders"@), "edges"@)) {
        Some(edges) => match spec_first_open_edge(edges) {
            Some(edge) => spec_as_str_opt(spec_get_opt(spec_get(edge, "node"@), "id"@)),
            None => None,
        },
        None => None,
    }
}

fn edge_is_open(edge: &JsonValue) -> (b: bool)
    ensures
        b == spec_edge_is_open(*edge),
{
    proof {
        reveal_strlit("OPEN");
    }
    match as_str_opt(get_opt(get(edge, "node"), "status")) {
        Some(s) => str_eq(s.as_str(), "OPEN"),
        None => false,
    }
}

/// The GID of the first fulfillment order whose status is "OPEN", from an
/// order's fulfillment-orders query response.
pub fn open_fulfillment_order_id(resp: &JsonValue) -> (r: Option<String>)
    ensures
        opt_view(r) == spec_open_fulfillment_order_id(*resp),
{
    let edges = as_array_opt(get_opt(get_opt(get(resp, "order"), "fulfillmentOrders"), "edges"));
    match edges {
        Some(arr) => {
            let mut i: usize = 0;
            assert(arr@.skip(0) == arr@);
            while i < arr.len()
                invariant
                    i <= arr.len(),
                    spec_first_open_edge(arr@) == spec_first_open_edge(arr@.skip(i as int)),
                    spec_as_array_opt(spec_get_opt(spec_get_opt(spec_get(*resp, "order"@), "fulfillmentOrders"@), "edges"@))
                        == Some(arr@),
                decreases arr.len() - i,
            {
                let ghost rest = arr@.skip(i as int);
                assert(rest[0] == arr@[i as int]);
                if edge_is_open(&arr[i]) {
                    return owned_opt(as_str_opt(get_opt(get(&arr[i], "node"), "id")));
                }
                assert(rest.skip(1) == arr@.skip(i + 1));
                i = i + 1;
            }
            None
        },
        None => None,
    }
}

/// One fulfillment-order line item: its id and the quantity to fulfil.
pub open spec fn spec_line_item_json(i: FulfillmentOrderLineItemInput) -> JsonView {
    JsonView::Object(
        seq![("id"@, JsonView::Str(i.id@)), ("quantity"@, JsonView::Number(spec_int_text(i.quantity as int)))],
    )
}

pub open spec fn spec_line_items_json(items: Seq<FulfillmentOrderLineItemInput>) -> Seq<JsonView> {
    items.map_values(|i: FulfillmentOrderLineItemInput| spec_line_item_json(i))
}

/// One fulfillment order: its id, and its line items when given.
pub open spec fn spec_fulfillment_order_json(o: FulfillmentOrderInput) -> JsonView {
    JsonView::Object(
        seq![("fulfillmentOrderId"@, JsonView::Str(o.fulfillment_order_id@))] + spec_opt_value_member(
            "fulfillmentOrderLineItems"@,
            match o.fulfillment_order_line_items {
                Some(v) => Some(JsonView::Array(spec_line_items_json(v@))),
                None => None,
            },
        ),
    )
}

pub open spec fn spec_fulfillment_orders_json(orders: Seq<FulfillmentOrderInput>) -> Seq<JsonView> {
    orders.map_values(|o: FulfillmentOrderInput| spec_fulfillment_order_json(o))
}

/// Tracking information, each field `null` when not given.
pub open spec fn spec_tracking_json(t: FulfillmentTrackingInput) -> JsonView {
    JsonView::Object(
        seq![
            ("company"@, spec_str_or_null(t.company)),
            ("number"@, spec_str_or_null(t.number)),
            ("url"@, spec_str_or_null(t.url)),
            ("numbers"@, spec_str_array_or_null(t.numbers)),
            ("urls"@, spec_str_array_or_null(t.urls)),
        ],
    )
}

/// A fulfillment as the `FulfillmentV2Input` GraphQL input.
pub open spec fn spec_fulfillment_json(f: FulfillmentV2Input) -> JsonView {
    JsonView::Object(
        seq![
            ("lineItemsByFulfillmentOrder"@, JsonView::Array(spec_fulfillment_orders_json(f.line_items_by_fulfillment_order@))),
            ("notifyCustomer"@, spec_bool_or_null(f.notify_customer)),
            ("trackingInfo"@, spec_opt_tracking_json(f.tracking_info)),
        ],
    )
}

/// Tracking information, or `null` when not given.
pub open spec fn spec_opt_tracking_json(t: Option<FulfillmentTrackingInput>) -> JsonView {
    match t {
        Some(x) => spec_tracking_json(x),
        None => JsonView::Null,
    }
}

fn line_items_json(items: &Vec<FulfillmentOrderLineItemInput>) -> (r: JsonValue)
    ensures
        r@ == JsonView::Array(spec_line_items_json(items@)),
{
    let mut out = new_items();
    let mut i: usize = 0;
    while i < items.len()
        invariant
            i <= items.len(),
            models(out@) == spec_line_items_json(items@.take(i as int)),
        decreases items.len() - i,
    {
        let it = &items[i];
        let q = int_text(it.quantity);
        push_item(&mut out, jobject2("id", jstr(it.id.as_str()), "quantity", jnum(q.as_str())));
        assert(spec_line_items_json(items@.take(i + 1)) =~= spec_line_items_json(items@.take(i as int)).push(
            spec_line_item_json(items@[i as int]),
        ));
        i = i + 1;
    }
    assert(items@.take(items.len() as int) == items@);
    jarray(out)
}

fn fulfillment_order_json(o: &FulfillmentOrderInput) -> (r: JsonValue)
    ensures
        r@ == spec_fulfillment_order_json(*o),
{
    let mut m = new_members();
    push_member(&mut m, "fulfillmentOrderId", jstr(o.fulfillment_order_id.as_str()));
    let items = match &o.fulfillment_order_line_items {
        Some(v) => Some(line_items_json(v)),
        None => None,
    };
    push_opt_value_member(&mut m, "fulfillmentOrderLineItems", items);
    jobject(m)
}

fn tracking_json(t: &FulfillmentTrackingInput) -> (r: JsonValue)
    ensures
        r@ == spec_tracking_json(*t),
{
    jobject5(
        "company",
        jstr_or_null(&t.company),
        "number",
        jstr_or_null(&t.number),
        "url",
        jstr_or_null(&t.url),
        "numbers",
        jstr_array_or_null(&t.numbers),
        "urls",
        jstr_array_or_null(&t.urls),
    )
}

pub fn fulfillment_json(f: &FulfillmentV2Input) -> (r: JsonValue)
    ensures
        r@ == spec_fulfillment_json(*f),
{
    let orders = &f.line_items_by_fulfillment_order;
    let mut out = new_items();
    let mut i: usize = 0;
    while i < orders.len()
        invariant
            i <= orders.len(),
            models(out@) == spec_fulfillment_orders_json(orders@.take(i as int)),
        decreases orders.len() - i,
    {
        push_item(&mut out, fulfillment_order_json(&orders[i]));
        assert(spec_fulfillment_orders_json(orders@.take(i + 1)) =~= spec_fulfillment_orders_json(
            orders@.take(i as int),
        ).push(spec_fulfillment_order_json(orders@[i as int])));
        i = i + 1;
    }
    assert(orders@.take(orders.len() as int) == orders@);
    let tracking = match &f.tracking_info {
        Some(t) => tracking_json(t),
        None => JsonValue::Null,
    };
    jobject3(
        "lineItemsByFulfillmentOrder",
        jarray(out),
        "notifyCustomer",
        jbool_or_null(f.notify_customer),
        "trackingInfo",
        tracking,
    )
}

/// Variables of `fulfillmentCreateV2`: the fulfillment input.
pub fn fulfillment_create_v2_variables(f: &FulfillmentV2Input) -> (r: JsonValue)
    ensures
        r@ == JsonView::Object(seq![("fulfillment"@, spec_fulfillment_json(*f))]),
{
    jobject1("fulfillment", fulfillment_json(f))
}

/// The new fulfillment's GID from a `fulfillmentCreateV2` response.
pub fn fulfillment_create_v2_outcome(resp: &JsonValue) -> (r: Result<String, AppError>)
    ensures
        spec_mutation_id_outcome(
            r,
            *resp,
            "fulfillmentCreateV2"@,
            "userErrors"@,
            "fulfillmentCreateV2 userErrors: "@,
            "fulfillment"@,
            "No fulfillment ID in fulfillmentCreateV2 response"@,
        ),
{
    mutation_id_outcome(
        resp,
        "fulfillmentCreateV2",
        "userErrors",
        "fulfillmentCreateV2 userErrors: ",
        "fulfillment",
        "No fulfillment ID in fulfillmentCreateV2 response",
    )
}

/// The id of the first element of `order.fulfillments`.
pub open spec fn spec_first_fulfillment_gid(resp: JsonValue) -> Option<Seq<char>> {
    match spec_first(spec_as_array_opt(spec_get_opt(spec_get(resp, "order"@), "fulfillments"@))) {
        Some(f) => spec_str_field(f, "id"@),
        None => None,
    }
}

/// The GID of an order's first fulfillment, from a fulfillments query
/// response.
pub fn first_fulfillment_gid(resp: &JsonValue) -> (r: Option<String>)
    ensures
        opt_view(r) == spec_first_fulfillment_gid(*resp),
{
    let first = first_of(as_array_opt(get_opt(get(resp, "order"), "fulfillments")));
    match first {
        Some(f) => owned_opt(as_str_opt(get(f, "id"))),
        None => None,
    }
}

/// Variables of `fulfillmentEventCreate`: the fulfillment, the event status
/// and, when given, the time it happened.
pub open spec fn spec_fulfillment_event_variables(
    fulfillment_gid: Seq<char>,
    event_status: Seq<char>,
    happened_at: Option<Seq<char>>,
) -> JsonView {
    JsonView::Object(
        seq![
            ("fulfillmentEvent"@, JsonView::Object(
                seq![("fulfillmentId"@, JsonView::Str(fulfillment_gid)), ("status"@, JsonView::Str(event_status))]
                    + spec_opt_member("happenedAt"@, happened_at),
            )),
        ],
    )
}

pub fn fulfillment_event_variables(fulfillment_gid: &str, event_status: &str, happened_at: Option<&str>) -> (r:
    JsonValue)
    ensures
        r@ == spec_fulfillment_event_variables(fulfillment_gid@, event_status@, opt_str_view(happened_at)),
{
    let mut event = new_members();
    push_member(&mut event, "fulfillmentId", jstr(fulfillment_gid));
    push_member(&mut event, "status", jstr(event_status));
    assert(member_models(event@) =~= seq![
        ("fulfillmentId"@, JsonView::Str(fulfillment_gid@)),
        ("status"@, JsonView::Str(event_status@)),
    ]);
    push_opt_str_member(&mut event, "happenedAt", happened_at);
    jobject1("fulfillmentEvent", jobject(event))
}

/// The new event's GID from a `fulfillmentEventCreate` response.
pub fn fulfillment_event_create_outcome(resp: &JsonValue) -> (r: Result<String, AppError>)
    ensures
        spec_mutation_id_outcome(
            r,
            *resp,
            "fulfillmentEventCreate"@,
            "userErrors"@,
            "fulfillmentEventCreate userErrors: "@,
            "fulfillmentEvent"@,
            "No fulfillmentEvent ID in response"@,
        ),
{
    mutation_id_outcome(
        resp,
        "fulfillmentEventCreate",
        "userErrors",
        "fulfillmentEventCreate userErrors: ",
        "fulfillmentEvent",
        "No fulfillmentEvent ID in response",
    )
}

} // verus!
verus! {

/// The status text of a fulfillment-order edge's node.
pub open spec fn spec_edge_status(edge: JsonValue) -> Option<Seq<char>> {
    spec_as_str_opt(spec_get_opt(spec_get(edge, "node"@), "status"@))
}

/// The id text of a fulfillment-order edge's node.
pub open spec fn spec_edge_node_id(edge: JsonValue) -> Option<Seq<char>> {
    spec_as_str_opt(spec_get_opt(spec_get(edge, "node"@), "id"@))
}

proof fn lemma_first_open_edge_found(edges: Seq<JsonValue>)
    ensures
        match spec_first_open_edge(edges) {
            Some(e) => exists|i: int|
                0 <= i < edges.len() && edges[i] == e && spec_edge_is_open(#[trigger] edges[i]) && forall|j: int|
                    0 <= j < i ==> !spec_edge_is_open(#[trigger] edges[j]),
            None => forall|i: int| 0 <= i < edges.len() ==> !spec_edge_is_open(#[trigger] edges[i]),
        },
    decreases edges.len(),
{
    if edges.len() > 0 && !spec_edge_is_open(edges[0]) {
        let rest = edges.skip(1);
        lemma_first_open_edge_found(rest);
        match spec_first_open_edge(rest) {
            Some(e) => {
                let i = choose|i: int|
                    0 <= i < rest.len() && rest[i] == e && spec_edge_is_open(#[trigger] rest[i]) && forall|j: int|
                        0 <= j < i ==> !spec_edge_is_open(#[trigger] rest[j]);
                assert(edges[i + 1] == rest[i]);
                assert forall|j: int| 0 <= j < i + 1 implies !spec_edge_is_open(#[trigger] edges[j]) by {
                    if j > 0 {
                        assert(edges[j] == rest[j - 1]);
                    }
                }
            },
            None => {
                assert forall|i: int| 0 <= i < edges.len() implies !spec_edge_is_open(#[trigger] edges[i]) by {
                    if i > 0 {
                        assert(edges[i] == rest[i - 1]);
                    }
                }
            },
        }
    }
}

/// The edges at `order.fulfillmentOrders.edges` (none when absent).
pub open spec fn spec_order_fo_edges(resp: JsonValue) -> Seq<JsonValue> {
    match spec_as_array_opt(spec_get_opt(spec_get_opt(spec_get(resp, "order"@), "fulfillmentOrders"@), "edges"@)) {
        Some(es) => es,
        None => Seq::empty(),
    }
}

/// The fulfillment order found is the first one whose status is exactly
/// "OPEN": a result names the node of an edge with status "OPEN" before which
/// no edge has that status; no result means that no edge has status "OPEN",
/// or that the first such edge's node has no id.
pub proof fn lemma_open_fulfillment_order_is_first_open(resp: JsonValue, r: Option<Seq<char>>)
    requires
        r == spec_open_fulfillment_order_id(resp),
    ensures
        r matches Some(id) ==> exists|i: int|
            0 <= i < spec_order_fo_edges(resp).len() && spec_edge_status(#[trigger] spec_order_fo_edges(resp)[i])
                == Some("OPEN"@) && spec_edge_node_id(spec_order_fo_edges(resp)[i]) == Some(id) && forall|j: int|
                0 <= j < i ==> spec_edge_status(#[trigger] spec_order_fo_edges(resp)[j]) != Some("OPEN"@),
        r is None ==> forall|i: int|
            0 <= i < spec_order_fo_edges(resp).len() && spec_edge_status(#[trigger] spec_order_fo_edges(resp)[i])
                == Some("OPEN"@) && (forall|j: int|
                0 <= j < i ==> spec_edge_status(#[trigger] spec_order_fo_edges(resp)[j]) != Some("OPEN"@))
                ==> spec_edge_node_id(spec_order_fo_edges(resp)[i]) is None,
{
    match spec_as_array_opt(spec_get_opt(spec_get_opt(spec_get(resp, "order"@), "fulfillmentOrders"@), "edges"@)) {
        Some(edges) => {
            lemma_first_open_edge_found(edges);
            assert forall|e: JsonValue| #[trigger] spec_edge_is_open(e) == (spec_edge_status(e) == Some("OPEN"@)) by {}
            match spec_first_open_edge(edges) {
                Some(e) => {
                    let i = choose|i: int|
                        0 <= i < edges.len() && edges[i] == e && spec_edge_is_open(#[trigger] edges[i]) && forall|j: int|
                            0 <= j < i ==> !spec_edge_is_open(#[trigger] edges[j]);
                    assert(spec_edge_status(edges[i]) == Some("OPEN"@));
                    assert(r == spec_edge_node_id(edges[i]));
                    assert forall|j: int| 0 <= j < i implies spec_edge_status(#[trigger] edges[j]) != Some("OPEN"@) by {
                        assert(!spec_edge_is_open(edges[j]));
                    }
                    assert forall|k: int|
                        0 <= k < edges.len() && spec_edge_status(#[trigger] edges[k]) == Some("OPEN"@) && (forall|
                            j: int,
                        | 0 <= j < k ==> spec_edge_status(#[trigger] edges[j]) != Some("OPEN"@)) implies spec_edge_node_id(
                        edges[k],
                    ) == r by {
                        if k < i {
                            assert(!spec_edge_is_open(edges[k]));
                        } else if k > i {
                            assert(spec_edge_status(edges[i]) != Some("OPEN"@));
                        }
                    }
                },
                None => {
                    assert forall|k: int| 0 <= k < edges.len() implies spec_edge_status(#[trigger] edges[k]) != Some(
                        "OPEN"@,
                    ) by {
                        assert(!spec_edge_is_open(edges[k]));
                    }
                },
            }
        },
        None => {},
    }
}

} // verus!
verus! {

/// `fulfillmentCreateV2` fulfils every given fulfillment order, in order: one
/// object per order naming it, and for an order with line items one object
/// per line item, the k-th carrying the k-th item's id and quantity; the
/// notification choice is sent as given (`null` when absent).
pub proof fn lemma_fulfillment_sends_every_order(f: FulfillmentV2Input, r: JsonView)
    requires
        r == JsonView::Object(seq![("fulfillment"@, spec_fulfillment_json(f))]),
    ensures
        crate::json::spec_member_of(r, "fulfillment"@) matches Some(fv) && {
            &&& crate::json::spec_member_of(fv, "notifyCustomer"@) == Some(
                match f.notify_customer {
                    Some(b) => JsonView::Bool(b),
                    None => JsonView::Null,
                },
            )
            &&& crate::json::spec_member_of(fv, "lineItemsByFulfillmentOrder"@) matches Some(JsonView::Array(os))
                && os.len() == f.line_items_by_fulfillment_order@.len() && forall|k: int|
                0 <= k < os.len() ==> {
                    let o = f.line_items_by_fulfillment_order@[k];
                    &&& crate::json::spec_member_of(#[trigger] os[k], "fulfillmentOrderId"@) == Some(
                        JsonView::Str(o.fulfillment_order_id@),
                    )
                    &&& match o.fulfillment_order_line_items {
                        Some(items) => crate::json::spec_member_of(os[k], "fulfillmentOrderLineItems"@) matches Some(
                            JsonView::Array(li),
                        ) && li.len() == items@.len() && forall|m: int|
                            0 <= m < li.len() ==> {
                                &&& crate::json::spec_member_of(#[trigger] li[m], "id"@) == Some(
                                    JsonView::Str(items@[m].id@),
                                )
                                &&& crate::json::spec_member_of(li[m], "quantity"@) == Some(
                                    JsonView::Number(spec_int_text(items@[m].quantity as int)),
                                )
                            },
                        None => crate::json::spec_member_of(os[k], "fulfillmentOrderLineItems"@) is None,
                    }
                }
        },
{
    reveal_strlit("fulfillment");
    reveal_strlit("lineItemsByFulfillmentOrder");
    reveal_strlit("notifyCustomer");
    reveal_strlit("fulfillmentOrderId");
    reveal_strlit("fulfillmentOrderLineItems");
    reveal_strlit("id");
    reveal_strlit("quantity");
    reveal_with_fuel(crate::json::spec_find_member, 3);
    assert("lineItemsByFulfillmentOrder"@.len() != "notifyCustomer"@.len());
    assert("fulfillmentOrderId"@.len() != "fulfillmentOrderLineItems"@.len());
    assert("id"@.len() != "quantity"@.len());
    let os = spec_fulfillment_orders_json(f.line_items_by_fulfillment_order@);
    assert forall|k: int| 0 <= k < os.len() implies {
        let o = f.line_items_by_fulfillment_order@[k];
        &&& crate::json::spec_member_of(#[trigger] os[k], "fulfillmentOrderId"@) == Some(
            JsonView::Str(o.fulfillment_order_id@),
        )
        &&& match o.fulfillment_order_line_items {
            Some(items) => crate::json::spec_member_of(os[k], "fulfillmentOrderLineItems"@) matches Some(
                JsonView::Array(li),
            ) && li.len() == items@.len() && forall|m: int|
                0 <= m < li.len() ==> {
                    &&& crate::json::spec_member_of(#[trigger] li[m], "id"@) == Some(JsonView::Str(items@[m].id@))
                    &&& crate::json::spec_member_of(li[m], "quantity"@) == Some(
                        JsonView::Number(spec_int_text(items@[m].quantity as int)),
                    )
                },
            None => crate::json::spec_member_of(os[k], "fulfillmentOrderLineItems"@) is None,
        }
    } by {
        let o = f.line_items_by_fulfillment_order@[k];
        assert(os[k] == spec_fulfillment_order_json(o));
        match o.fulfillment_order_line_items {
            Some(items) => {
                let li = spec_line_items_json(items@);
                assert(seq![("fulfillmentOrderId"@, JsonView::Str(o.fulfillment_order_id@))] + seq![
                    ("fulfillmentOrderLineItems"@, JsonView::Array(li)),
                ] =~= seq![
                    ("fulfillmentOrderId"@, JsonView::Str(o.fulfillment_order_id@)),
                    ("fulfillmentOrderLineItems"@, JsonView::Array(li)),
                ]);
                assert forall|m: int| 0 <= m < li.len() implies {
                    &&& crate::json::spec_member_of(#[trigger] li[m], "id"@) == Some(JsonView::Str(items@[m].id@))
                    &&& crate::json::spec_member_of(li[m], "quantity"@) == Some(
                        JsonView::Number(spec_int_text(items@[m].quantity as int)),
                    )
                } by {
                    assert(li[m] == spec_line_item_json(items@[m]));
                }
            },
            None => {
                assert(seq![("fulfillmentOrderId"@, JsonView::Str(o.fulfillment_order_id@))]
                    + Seq::<(Seq<char>, JsonView)>::empty() =~= seq![
                    ("fulfillmentOrderId"@, JsonView::Str(o.fulfillment_order_id@)),
                ]);
            },
        }
    }
}

} // verus!
verus! {

/// `fulfillmentEventCreate` records the given status for the given
/// fulfillment.
pub proof fn lemma_fulfillment_event_arguments(
    fulfillment_gid: Seq<char>,
    event_status: Seq<char>,
    happened_at: Option<Seq<char>>,
    r: JsonView,
)
    requires
        r == spec_fulfillment_event_variables(fulfillment_gid, event_status, happened_at),
    ensures
        crate::json::spec_member_of(r, "fulfillmentEvent"@) matches Some(ev) && {
            &&& crate::json::spec_member_of(ev, "fulfillmentId"@) == Some(JsonView::Str(fulfillment_gid))
            &&& crate::json::spec_member_of(ev, "status"@) == Some(JsonView::Str(event_status))
        },
{
    reveal_strlit("fulfillmentEvent");
    reveal_strlit("fulfillmentId");
    reveal_strlit("status");
    reveal_with_fuel(crate::json::spec_find_member, 3);
    assert("fulfillmentId"@.len() != "status"@.len());
    let ms = seq![("fulfillmentId"@, JsonView::Str(fulfillment_gid)), ("status"@, JsonView::Str(event_status))]
        + spec_opt_member("happenedAt"@, happened_at);
    assert(ms[0] == ("fulfillmentId"@, JsonView::Str(fulfillment_gid)));
    assert(ms[1] == ("status"@, JsonView::Str(event_status)));
}

} // verus!
