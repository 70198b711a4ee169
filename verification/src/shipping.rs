//! Shipping lines.
use vstd::prelude::*;

use crate::money::MoneyInput;

verus! {

#[derive(Debug, Clone)]
pub struct ShippingLineInput {
    pub price_with_currency: Option<MoneyInput>,
    pub shipping_rate_handle: Option<String>,
    pub title: Option<String>,
}

} // verus!
