//! Cancelling an order.
use vstd::prelude::*;
use crate::error::{AppError, is_other_error};
use crate::graphql::{check_user_errors, spec_no_user_errors, spec_user_errors_message};
use crate::json::{JsonValue, JsonView, jobject5, jstr, jbool};

verus! {

/// Variables of `orderCancel`.
pub open spec fn spec_order_cancel_variables(
    order_gid: Seq<char>,
    reason: Seq<char>,
    restock: bool,
    refund: bool,
    notify_customer: bool,
) -> JsonView {
    JsonView::Object(
        seq![
            ("orderId"@, JsonView::Str(order_gid)),
            ("reason"@, JsonView::Str(reason)),
            ("restock"@, JsonView::Bool(restock)),
            ("refund"@, JsonView::Bool(refund)),
            ("notifyCustomer"@, JsonView::Bool(notify_customer)),
        ],
    )
}

pub fn order_cancel_variables(
    order_gid: &str,
    reason: &str,
    restock: bool,
    refund: bool,
    notify_customer: bool,
) -> (r: JsonValue)
    ensures
        r@ == spec_order_cancel_variables(order_gid@, reason@, restock, refund, notify_customer),
{
    jobject5(
        "orderId",
        jstr(order_gid),
        "reason",
        jstr(reason),
        "restock",
        jbool(restock),
        "refund",
        jbool(refund),
        "notifyCustomer",
        jbool(notify_customer),
    )
}

/// The user-error check of an `orderCancel` response, whose errors are at
/// `orderCancel.orderCancelUserErrors`.
pub fn order_cancel_outcome(resp: &JsonValue) -> (r: Result<(), AppError>)
    ensures
        r is Ok <==> spec_no_user_errors(*resp, "orderCancel"@, "orderCancelUserErrors"@),
        r matches Err(e) ==> is_other_error(
            e,
            spec_user_errors_message(*resp, "orderCancel"@, "orderCancelUserErrors"@, "orderCancel userErrors: "@),
        ),
{
    check_user_errors(resp, "orderCancel", "orderCancelUserErrors", "orderCancel userErrors: ")
}

} // verus!
verus! {

/// `orderCancel` cancels the given order with the given reason and choices:
/// each variable carries its own argument.
pub proof fn lemma_order_cancel_arguments(
    order_gid: Seq<char>,
    reason: Seq<char>,
    restock: bool,
    refund: bool,
    notify_customer: bool,
    r: JsonView,
)
    requires
        r == spec_order_cancel_variables(order_gid, reason, restock, refund, notify_customer),
    ensures
        crate::json::spec_member_of(r, "orderId"@) == Some(JsonView::Str(order_gid)),
        crate::json::spec_member_of(r, "reason"@) == Some(JsonView::Str(reason)),
        crate::json::spec_member_of(r, "restock"@) == Some(JsonView::Bool(restock)),
        crate::json::spec_member_of(r, "refund"@) == Some(JsonView::Bool(refund)),
        crate::json::spec_member_of(r, "notifyCustomer"@) == Some(JsonView::Bool(notify_customer)),
{
    reveal_strlit("orderId");
    reveal_strlit("reason");
    reveal_strlit("restock");
    reveal_strlit("refund");
    reveal_strlit("notifyCustomer");
    reveal_with_fuel(crate::json::spec_find_member, 6);
    assert("orderId"@.len() == 7 && "reason"@.len() == 6 && "restock"@.len() == 7 && "refund"@.len() == 6);
    assert("orderId"@[0] != "restock"@[0]);
    assert("reason"@[2] != "refund"@[2]);
    assert("notifyCustomer"@.len() == 14);
}

} // verus!
