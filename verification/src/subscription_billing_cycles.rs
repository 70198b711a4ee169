//! Subscription billing cycles: charging a cycle and moving its billing date.
use vstd::prelude::*;
use crate::json::{JsonValue, JsonView, jobject3, jobject4, jstr, jnum};
use crate::numeric::{int_text, spec_int_text};

verus! {

/// Variables of `subscriptionBillingAttemptCreate`: the contract, the index
/// of the billing cycle, its origin time and the idempotency key.
pub open spec fn spec_billing_attempt_variables(
    contract_id: Seq<char>,
    index: int,
    origin_time: Seq<char>,
    idempotency_key: Seq<char>,
) -> JsonView {
    JsonView::Object(
        seq![
            ("contractId"@, JsonView::Str(contract_id)),
            ("index"@, JsonView::Number(spec_int_text(index))),
            ("originTime"@, JsonView::Str(origin_time)),
            ("idempotencyKey"@, JsonView::Str(idempotency_key)),
        ],
    )
}

pub fn billing_attempt_variables(contract_id: &str, index: i32, origin_time: &str, idempotency_key: &str) -> (r:
    JsonValue)
    ensures
        r@ == spec_billing_attempt_variables(contract_id@, index as int, origin_time@, idempotency_key@),
{
    let index_text = int_text(index);
    jobject4(
        "contractId",
        jstr(contract_id),
        "index",
        jnum(index_text.as_str()),
        "originTime",
        jstr(origin_time),
        "idempotencyKey",
        jstr(idempotency_key),
    )
}

/// Variables of `subscriptionBillingCycleScheduleEdit`: the contract, the
/// index of the billing cycle and its new date (RFC 3339 text).
pub open spec fn spec_billing_cycle_schedule_edit_variables(contract_id: Seq<char>, index: int, date: Seq<char>) -> JsonView {
    JsonView::Object(
        seq![
            ("contractId"@, JsonView::Str(contract_id)),
            ("index"@, JsonView::Number(spec_int_text(index))),
            ("date"@, JsonView::Str(date)),
        ],
    )
}

pub fn billing_cycle_schedule_edit_variables(contract_id: &str, index: i32, date: &str) -> (r: JsonValue)
    ensures
        r@ == spec_billing_cycle_schedule_edit_variables(contract_id@, index as int, date@),
{
    let index_text = int_text(index);
    jobject3("contractId", jstr(contract_id), "index", jnum(index_text.as_str()), "date", jstr(date))
}

} // verus!
verus! {

/// A billing attempt is made for the given contract and cycle index, at the
/// given origin time, under the given idempotency key.
pub proof fn lemma_billing_attempt_arguments(
    contract_id: Seq<char>,
    index: int,
    origin_time: Seq<char>,
    idempotency_key: Seq<char>,
    r: JsonView,
)
    requires
        r == spec_billing_attempt_variables(contract_id, index, origin_time, idempotency_key),
    ensures
        crate::json::spec_member_of(r, "contractId"@) == Some(JsonView::Str(contract_id)),
        crate::json::spec_member_of(r, "index"@) == Some(JsonView::Number(spec_int_text(index))),
        crate::json::spec_member_of(r, "originTime"@) == Some(JsonView::Str(origin_time)),
        crate::json::spec_member_of(r, "idempotencyKey"@) == Some(JsonView::Str(idempotency_key)),
{
    reveal_strlit("contractId");
    reveal_strlit("index");
    reveal_strlit("originTime");
    reveal_strlit("idempotencyKey");
    reveal_with_fuel(crate::json::spec_find_member, 5);
    assert("contractId"@.len() == 10 && "index"@.len() == 5 && "originTime"@.len() == 10
        && "idempotencyKey"@.len() == 14);
    assert("contractId"@[0] != "originTime"@[0]);
}

/// A billing cycle of the given contract and index is moved to the given
/// date.
pub proof fn lemma_billing_cycle_schedule_edit_arguments(contract_id: Seq<char>, index: int, date: Seq<char>, r: JsonView)
    requires
        r == spec_billing_cycle_schedule_edit_variables(contract_id, index, date),
    ensures
        crate::json::spec_member_of(r, "contractId"@) == Some(JsonView::Str(contract_id)),
        crate::json::spec_member_of(r, "index"@) == Some(JsonView::Number(spec_int_text(index))),
        crate::json::spec_member_of(r, "date"@) == Some(JsonView::Str(date)),
{
    reveal_strlit("contractId");
    reveal_strlit("index");
    reveal_strlit("date");
    reveal_with_fuel(crate::json::spec_find_member, 4);
    assert("contractId"@.len() == 10 && "index"@.len() == 5 && "date"@.len() == 4);
}

} // verus!
