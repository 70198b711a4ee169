//! Inventory reason mapping between an ERP vocabulary and Shopify's reason slugs.
use vstd::prelude::*;
use crate::error::AppError;
use crate::graphql::{spec_user_error_check, user_error_check};
use crate::json::{
    spec_member_of, spec_find_member,
    JsonValue, JsonView, models, new_items, push_item, jarray, jnum, jstr, jobject1, jobject3, jobject4,
    jobject5, spec_str_or_null, jstr_or_null, spec_bool_or_null, jbool_or_null,
};
use crate::numeric::{int_text, spec_int_text};
use crate::text::{str_eq, to_uppercase, spec_to_uppercase};
use crate::text::{is_ascii_seq, spec_ascii_upper, lemma_ascii_upper_idempotent};

verus! {

/// The Shopify reason slug for an ERP reason that is already upper-cased.
pub open spec fn spec_shopify_reason_for_upper(upper: Seq<char>) -> Seq<char> {
    if upper == "CORRECTION"@ {
        "correction"@
    } else if upper == "RECEIVED"@ {
        "received"@
    } else if upper == "DAMAGED"@ {
        "damaged"@
    } else if upper == "SOLD"@ {
        "correction"@
    } else if upper == "RETURNED"@ {
        "received"@
    } else {
        "correction"@
    }
}

/// Maps an upper-cased ERP reason to the Shopify reason slug:
/// CORRECTION and SOLD give "correction", RECEIVED and RETURNED give
/// "received", DAMAGED gives "damaged", anything else "correction".
pub fn shopify_reason_for_upper(upper: &str) -> (r: String)
    ensures
        r@ == spec_shopify_reason_for_upper(upper@),
{
    if str_eq(upper, "CORRECTION") {
        String::from_str("correction")
    } else if str_eq(upper, "RECEIVED") {
        String::from_str("received")
    } else if str_eq(upper, "DAMAGED") {
        String::from_str("damaged")
    } else if str_eq(upper, "SOLD") {
        String::from_str("correction")
    } else if str_eq(upper, "RETURNED") {
        String::from_str("received")
    } else {
        String::from_str("correction")
    }
}

/// Maps an ERP reason string (in any letter case) to the Shopify inventory
/// reason slug.
pub fn erp_reason_to_shopify(reason: &str) -> (r: String)
    ensures
        r@ == spec_shopify_reason_for_upper(spec_to_uppercase(reason@)),
        is_ascii_seq(reason@) ==> r@ == spec_shopify_reason_for_upper(spec_ascii_upper(reason@)),
{
    let upper = to_uppercase(reason);
    shopify_reason_for_upper(upper.as_str())
}

/// Every ERP reason maps to one of the three slugs Shopify accepts here:
/// "correction", "received" or "damaged".
pub proof fn lemma_reason_is_a_known_slug(reason: Seq<char>)
    ensures
        ({
            let r = spec_shopify_reason_for_upper(spec_to_uppercase(reason));
            r == "correction"@ || r == "received"@ || r == "damaged"@
        }),
{
}

/// The mapping ignores letter case: two reasons with the same upper-cased
/// text map to the same slug.
pub proof fn lemma_reason_mapping_ignores_case(a: Seq<char>, b: Seq<char>)
    requires
        spec_to_uppercase(a) == spec_to_uppercase(b),
    ensures
        spec_shopify_reason_for_upper(spec_to_uppercase(a)) == spec_shopify_reason_for_upper(spec_to_uppercase(b)),
{
}

/// On ASCII text the mapping ignores letter case: two reasons that differ
/// only in the case of their letters map to the same slug, and a reason maps
/// as its upper-cased form does.
pub proof fn lemma_reason_mapping_ignores_ascii_case(a: Seq<char>, b: Seq<char>)
    requires
        is_ascii_seq(a),
        is_ascii_seq(b),
        spec_ascii_upper(a) == spec_ascii_upper(b),
    ensures
        spec_shopify_reason_for_upper(spec_ascii_upper(a)) == spec_shopify_reason_for_upper(spec_ascii_upper(b)),
        is_ascii_seq(spec_ascii_upper(a)),
        spec_shopify_reason_for_upper(spec_ascii_upper(spec_ascii_upper(a)))
            == spec_shopify_reason_for_upper(spec_ascii_upper(a)),
{
    lemma_ascii_upper_idempotent(a);
}

#[derive(Debug, Clone)]
pub struct InventorySetQuantityInput {
    pub inventory_item_id: String,
    pub location_id: String,
    pub quantity: i32,
}

#[derive(Debug, Clone)]
pub struct InventorySetQuantitiesInput {
    /// e.g. "correction", "received", "damaged"
    pub reason: String,
    pub reference_document_uri: Option<String>,
    pub quantities: Vec<InventorySetQuantityInput>,
    pub ignore_compare_quantity: Option<bool>,
    pub set_on_hand: Option<bool>,
}

#[derive(Debug, Clone)]
pub struct InventoryAdjustQuantityInput {
    pub inventory_item_id: String,
    pub location_id: String,
    pub delta: i32,
}

#[derive(Debug, Clone)]
pub struct InventoryAdjustQuantitiesInput {
    pub reason: String,
    pub reference_document_uri: Option<String>,
    pub changes: Vec<InventoryAdjustQuantityInput>,
    /// "available"
    pub name: String,
}

/// One absolute quantity: item, location and quantity.
pub open spec fn spec_set_quantity_json(q: InventorySetQuantityInput) -> JsonView {
    JsonView::Object(
        seq![
            ("inventoryItemId"@, JsonView::Str(q.inventory_item_id@)),
            ("locationId"@, JsonView::Str(q.location_id@)),
            ("quantity"@, JsonView::Number(spec_int_text(q.quantity as int))),
        ],
    )
}

pub open spec fn spec_set_quantities_json(qs: Seq<InventorySetQuantityInput>) -> Seq<JsonView> {
    qs.map_values(|q: InventorySetQuantityInput| spec_set_quantity_json(q))
}

/// One relative change: item, location and delta.
pub open spec fn spec_adjust_quantity_json(c: InventoryAdjustQuantityInput) -> JsonView {
    JsonView::Object(
        seq![
            ("inventoryItemId"@, JsonView::Str(c.inventory_item_id@)),
            ("locationId"@, JsonView::Str(c.location_id@)),
            ("delta"@, JsonView::Number(spec_int_text(c.delta as int))),
        ],
    )
}

pub open spec fn spec_adjust_quantities_json(cs: Seq<InventoryAdjustQuantityInput>) -> Seq<JsonView> {
    cs.map_values(|c: InventoryAdjustQuantityInput| spec_adjust_quantity_json(c))
}

/// Variables of `inventorySetQuantities`: the input with every field, the
/// optional ones `null` when not given.
pub open spec fn spec_inventory_set_quantities_variables(input: InventorySetQuantitiesInput) -> JsonView {
    JsonView::Object(
        seq![
            ("input"@, JsonView::Object(
                seq![
                    ("reason"@, JsonView::Str(input.reason@)),
                    ("referenceDocumentUri"@, spec_str_or_null(input.reference_document_uri)),
                    ("quantities"@, JsonView::Array(spec_set_quantities_json(input.quantities@))),
                    ("ignoreCompareQuantity"@, spec_bool_or_null(input.ignore_compare_quantity)),
                    ("setOnHand"@, spec_bool_or_null(input.set_on_hand)),
                ],
            )),
        ],
    )
}

/// Variables of `inventoryAdjustQuantities`: the input with every field.
pub open spec fn spec_inventory_adjust_quantities_variables(input: InventoryAdjustQuantitiesInput) -> JsonView {
    JsonView::Object(
        seq![
            ("input"@, JsonView::Object(
                seq![
                    ("reason"@, JsonView::Str(input.reason@)),
                    ("referenceDocumentUri"@, spec_str_or_null(input.reference_document_uri)),
                    ("changes"@, JsonView::Array(spec_adjust_quantities_json(input.changes@))),
                    ("name"@, JsonView::Str(input.name@)),
                ],
            )),
        ],
    )
}

pub fn inventory_set_quantities_variables(input: &InventorySetQuantitiesInput) -> (r: JsonValue)
    ensures
        r@ == spec_inventory_set_quantities_variables(*input),
{
    let qs = &input.quantities;
    let mut out = new_items();
    let mut i: usize = 0;
    while i < qs.len()
        invariant
            i <= qs.len(),
            models(out@) == spec_set_quantities_json(qs@.take(i as int)),
        decreases qs.len() - i,
    {
        let q = &qs[i];
        let n = int_text(q.quantity);
        push_item(
            &mut out,
            jobject3(
                "inventoryItemId",
                jstr(q.inventory_item_id.as_str()),
                "locationId",
                jstr(q.location_id.as_str()),
                "quantity",
                jnum(n.as_str()),
            ),
        );
        assert(spec_set_quantities_json(qs@.take(i + 1)) =~= spec_set_quantities_json(qs@.take(i as int)).push(
            spec_set_quantity_json(qs@[i as int]),
        ));
        i = i + 1;
    }
    assert(qs@.take(qs.len() as int) == qs@);
    jobject1(
        "input",
        jobject5(
            "reason",
            jstr(input.reason.as_str()),
            "referenceDocumentUri",
            jstr_or_null(&input.reference_document_uri),
            "quantities",
            jarray(out),
            "ignoreCompareQuantity",
            jbool_or_null(input.ignore_compare_quantity),
            "setOnHand",
            jbool_or_null(input.set_on_hand),
        ),
    )
}

pub fn inventory_adjust_quantities_variables(input: &InventoryAdjustQuantitiesInput) -> (r: JsonValue)
    ensures
        r@ == spec_inventory_adjust_quantities_variables(*input),
{
    let cs = &input.changes;
    let mut out = new_items();
    let mut i: usize = 0;
    while i < cs.len()
        invariant
            i <= cs.len(),
            models(out@) == spec_adjust_quantities_json(cs@.take(i as int)),
        decreases cs.len() - i,
    {
        let c = &cs[i];
        let n = int_text(c.delta);
        push_item(
            &mut out,
            jobject3(
                "inventoryItemId",
                jstr(c.inventory_item_id.as_str()),
                "locationId",
                jstr(c.location_id.as_str()),
                "delta",
                jnum(n.as_str()),
            ),
        );
        assert(spec_adjust_quantities_json(cs@.take(i + 1)) =~= spec_adjust_quantities_json(cs@.take(i as int)).push(
            spec_adjust_quantity_json(cs@[i as int]),
        ));
        i = i + 1;
    }
    assert(cs@.take(cs.len() as int) == cs@);
    jobject1(
        "input",
        jobject4(
            "reason",
            jstr(input.reason.as_str()),
            "referenceDocumentUri",
            jstr_or_null(&input.reference_document_uri),
            "changes",
            jarray(out),
            "name",
            jstr(input.name.as_str()),
        ),
    )
}

/// The user-error check of an `inventorySetQuantities` response.
pub fn inventory_set_quantities_outcome(resp: &JsonValue) -> (r: Result<(), AppError>)
    ensures
        spec_user_error_check(r, *resp, "inventorySetQuantities"@),
{
    user_error_check(resp, "inventorySetQuantities")
}

/// The user-error check of an `inventoryAdjustQuantities` response.
pub fn inventory_adjust_quantities_outcome(resp: &JsonValue) -> (r: Result<(), AppError>)
    ensures
        spec_user_error_check(r, *resp, "inventoryAdjustQuantities"@),
{
    user_error_check(resp, "inventoryAdjustQuantities")
}

} // verus!
verus! {

/// `inventoryAdjustQuantities` sends every change, in order: the `changes`
/// array has one object per change of the input, the k-th carrying the k-th
/// change's item, location and delta; the reason, reference and quantity
/// name are sent as given.
pub proof fn lemma_adjust_sends_every_change(input: InventoryAdjustQuantitiesInput, r: JsonView)
    requires
        r == spec_inventory_adjust_quantities_variables(input),
    ensures
        spec_member_of(r, "input"@) matches Some(inp) && {
            &&& spec_member_of(inp, "reason"@) == Some(JsonView::Str(input.reason@))
            &&& spec_member_of(inp, "referenceDocumentUri"@) == Some(
                match input.reference_document_uri {
                    Some(u) => JsonView::Str(u@),
                    None => JsonView::Null,
                },
            )
            &&& spec_member_of(inp, "name"@) == Some(JsonView::Str(input.name@))
            &&& spec_member_of(inp, "changes"@) matches Some(JsonView::Array(a)) && a.len() == input.changes@.len()
                && forall|k: int|
                0 <= k < a.len() ==> {
                    &&& spec_member_of(#[trigger] a[k], "inventoryItemId"@) == Some(
                        JsonView::Str(input.changes@[k].inventory_item_id@),
                    )
                    &&& spec_member_of(a[k], "locationId"@) == Some(JsonView::Str(input.changes@[k].location_id@))
                    &&& spec_member_of(a[k], "delta"@) == Some(
                        JsonView::Number(spec_int_text(input.changes@[k].delta as int)),
                    )
                }
        },
{
    reveal_strlit("input");
    reveal_strlit("reason");
    reveal_strlit("referenceDocumentUri");
    reveal_strlit("changes");
    reveal_strlit("name");
    reveal_strlit("inventoryItemId");
    reveal_strlit("locationId");
    reveal_strlit("delta");
    reveal_with_fuel(spec_find_member, 5);
    assert("reason"@.len() == 6 && "referenceDocumentUri"@.len() == 20 && "changes"@.len() == 7
        && "name"@.len() == 4);
    assert("inventoryItemId"@.len() == 15 && "locationId"@.len() == 10 && "delta"@.len() == 5);
    let a = spec_adjust_quantities_json(input.changes@);
    assert forall|k: int| 0 <= k < a.len() implies {
        &&& spec_member_of(#[trigger] a[k], "inventoryItemId"@) == Some(
            JsonView::Str(input.changes@[k].inventory_item_id@),
        )
        &&& spec_member_of(a[k], "locationId"@) == Some(JsonView::Str(input.changes@[k].location_id@))
        &&& spec_member_of(a[k], "delta"@) == Some(JsonView::Number(spec_int_text(input.changes@[k].delta as int)))
    } by {
        assert(a[k] == spec_adjust_quantity_json(input.changes@[k]));
    }
}

/// `inventorySetQuantities` sends every quantity, in order: the `quantities`
/// array has one object per quantity of the input, the k-th carrying the
/// k-th quantity's item, location and quantity; the other fields are sent
/// as given (`null` when absent).
pub proof fn lemma_set_sends_every_quantity(input: InventorySetQuantitiesInput, r: JsonView)
    requires
        r == spec_inventory_set_quantities_variables(input),
    ensures
        spec_member_of(r, "input"@) matches Some(inp) && {
            &&& spec_member_of(inp, "reason"@) == Some(JsonView::Str(input.reason@))
            &&& spec_member_of(inp, "referenceDocumentUri"@) == Some(
                match input.reference_document_uri {
                    Some(u) => JsonView::Str(u@),
                    None => JsonView::Null,
                },
            )
            &&& spec_member_of(inp, "ignoreCompareQuantity"@) == Some(
                match input.ignore_compare_quantity {
                    Some(b) => JsonView::Bool(b),
                    None => JsonView::Null,
                },
            )
            &&& spec_member_of(inp, "setOnHand"@) == Some(
                match input.set_on_hand {
                    Some(b) => JsonView::Bool(b),
                    None => JsonView::Null,
                },
            )
            &&& spec_member_of(inp, "quantities"@) matches Some(JsonView::Array(a)) && a.len()
                == input.quantities@.len() && forall|k: int|
                0 <= k < a.len() ==> {
                    &&& spec_member_of(#[trigger] a[k], "inventoryItemId"@) == Some(
                        JsonView::Str(input.quantities@[k].inventory_item_id@),
                    )
                    &&& spec_member_of(a[k], "locationId"@) == Some(
                        JsonView::Str(input.quantities@[k].location_id@),
                    )
                    &&& spec_member_of(a[k], "quantity"@) == Some(
                        JsonView::Number(spec_int_text(input.quantities@[k].quantity as int)),
                    )
                }
        },
{
    reveal_strlit("input");
    reveal_strlit("reason");
    reveal_strlit("referenceDocumentUri");
    reveal_strlit("quantities");
    reveal_strlit("ignoreCompareQuantity");
    reveal_strlit("setOnHand");
    reveal_strlit("inventoryItemId");
    reveal_strlit("locationId");
    reveal_strlit("quantity");
    reveal_with_fuel(spec_find_member, 6);
    assert("reason"@.len() == 6 && "referenceDocumentUri"@.len() == 20 && "quantities"@.len() == 10
        && "ignoreCompareQuantity"@.len() == 21 && "setOnHand"@.len() == 9);
    assert("inventoryItemId"@.len() == 15 && "locationId"@.len() == 10 && "quantity"@.len() == 8);
    let a = spec_set_quantities_json(input.quantities@);
    assert forall|k: int| 0 <= k < a.len() implies {
        &&& spec_member_of(#[trigger] a[k], "inventoryItemId"@) == Some(
            JsonView::Str(input.quantities@[k].inventory_item_id@),
        )
        &&& spec_member_of(a[k], "locationId"@) == Some(JsonView::Str(input.quantities@[k].location_id@))
        &&& spec_member_of(a[k], "quantity"@) == Some(
            JsonView::Number(spec_int_text(input.quantities@[k].quantity as int)),
        )
    } by {
        assert(a[k] == spec_set_quantity_json(input.quantities@[k]));
    }
}

} // verus!
