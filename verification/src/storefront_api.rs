//! Storefront API carts.
use vstd::prelude::*;
use crate::error::{AppError, is_other_error};

verus! {

/// How a buyer prefers to receive an order.
#[derive(Debug, Clone, PartialEq, Eq, Structural)]
pub enum PreferencesDeliveryMethodType {
    PICKUPPOINT,
    PICKUP,
    SHIPPING,
}

#[derive(Debug, Clone)]
pub struct CartLineInput {
    pub attributes: Option<Vec<AttributeInput>>,
    /// Required: eg: gid://shopify/ProductVariant/50759211876668
    pub merchandise: String,
    /// default: 1
    pub quantity: u32,
    /// Required with our Subs: eg: gid://shopify/SellingPlan/50759211876668
    pub selling_plan_id: Option<String>,
}

#[derive(Debug, Clone)]
pub struct AttributeInput {
    pub key: String,
    pub value: String,
}

#[derive(Debug, Clone)]
pub struct CartInfo {
    pub id: String,
    pub checkout_url: String,
}

/// A user error of the Storefront API.
#[derive(Debug, Clone)]
pub struct CartUserError {
    pub field: Vec<String>,
    pub message: String,
}

/// The `cartCreate` payload.
#[derive(Debug, Clone)]
pub struct CartCreateResult {
    pub cart: Option<CartInfo>,
    pub user_errors: Vec<CartUserError>,
}

/// The messages joined by ", ".
pub open spec fn spec_join_messages(errors: Seq<CartUserError>) -> Seq<char>
    decreases errors.len(),
{
    if errors.len() == 0 {
        Seq::empty()
    } else if errors.len() == 1 {
        errors[0].message@
    } else {
        spec_join_messages(errors.drop_last()) + ", "@ + errors.last().message@
    }
}

fn join_messages(errors: &Vec<CartUserError>) -> (r: String)
    ensures
        r@ == spec_join_messages(errors@),
{
    let mut r = String::new();
    let mut i: usize = 0;
    while i < errors.len()
        invariant
            i <= errors.len(),
            r@ == spec_join_messages(errors@.take(i as int)),
        decreases errors.len() - i,
    {
        assert(errors@.take(i + 1).drop_last() == errors@.take(i as int));
        assert(errors@.take(i + 1).last() == errors@[i as int]);
        if i > 0 {
            r.append(", ");
        }
        r.append(errors[i].message.as_str());
        i = i + 1;
    }
    assert(errors@.take(errors.len() as int) == errors@);
    r
}

/// The new cart's checkout URL; without a cart, an error whose text is the
/// user-error messages joined by ", ".
pub fn cart_create_outcome(result: CartCreateResult) -> (r: Result<String, AppError>)
    ensures
        match result.cart {
            Some(cart) => r matches Ok(url) && url == cart.checkout_url,
            None => r matches Err(e) && is_other_error(e, spec_join_messages(result.user_errors@)),
        },
{
    match result.cart {
        Some(cart) => Ok(cart.checkout_url),
        None => Err(AppError::OtherError(join_messages(&result.user_errors))),
    }
}

} // verus!
