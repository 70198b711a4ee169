//! A customer's saved payment methods (credit cards), gathered over pages.
use vstd::prelude::*;
use crate::json::{JsonValue, JsonView, jobject1, jstr};
use crate::PageInfo;
use crate::{page_info_of, spec_page_info_ok, spec_page_info_of};
use crate::error::{AppError, is_other_error, other_error};
use crate::json::{spec_present, spec_str_present, present, str_present};
use crate::numeric::{spec_u32_of_number, u32_of_number};

verus! {

/// A saved credit card.
#[derive(Debug, Clone)]
pub struct CustomerPaymentMethod {
    pub id: String,
    pub last_digits: String,
    pub expiry_month: u32,
    pub expiry_year: u32,
    pub expires_soon: bool,
    pub source: String,
    pub brand: String,
}

/// The credit-card instrument of a payment method.
#[derive(Debug, Clone)]
pub struct PaymentInstrument {
    pub last_digits: String,
    pub expiry_month: u32,
    pub expiry_year: u32,
    pub expires_soon: bool,
    pub source: String,
    pub brand: String,
}

#[derive(Debug, Clone)]
pub struct PaymentMethodNode {
    pub id: String,
    pub instrument: PaymentInstrument,
}

#[derive(Debug, Clone)]
pub struct PaymentMethodEdge {
    pub node: PaymentMethodNode,
    pub cursor: String,
}

/// One page of a customer's payment methods.
#[derive(Debug, Clone)]
pub struct PaymentMethodConnection {
    pub edges: Vec<PaymentMethodEdge>,
    pub page_info: PageInfo,
}

/// `m` is the node of `edge` with its instrument's fields.
pub open spec fn spec_flattens(m: CustomerPaymentMethod, edge: PaymentMethodEdge) -> bool {
    &&& m.id == edge.node.id
    &&& m.last_digits == edge.node.instrument.last_digits
    &&& m.expiry_month == edge.node.instrument.expiry_month
    &&& m.expiry_year == edge.node.instrument.expiry_year
    &&& m.expires_soon == edge.node.instrument.expires_soon
    &&& m.source == edge.node.instrument.source
    &&& m.brand == edge.node.instrument.brand
}

/// The payment methods of a page, in order, each flattened to its card
/// details.
pub fn payment_methods_of_page(page: PaymentMethodConnection) -> (r: Vec<CustomerPaymentMethod>)
    ensures
        r@.len() == page.edges@.len(),
        forall|i: int| 0 <= i < r@.len() ==> spec_flattens(#[trigger] r@[i], page.edges@[i]),
        forall|i: int|
            0 <= i < r@.len() ==> {
                &&& (#[trigger] r@[i]).id == page.edges@[i].node.id
                &&& r@[i].last_digits == page.edges@[i].node.instrument.last_digits
                &&& r@[i].expiry_month == page.edges@[i].node.instrument.expiry_month
                &&& r@[i].expiry_year == page.edges@[i].node.instrument.expiry_year
                &&& r@[i].expires_soon == page.edges@[i].node.instrument.expires_soon
                &&& r@[i].source == page.edges@[i].node.instrument.source
                &&& r@[i].brand == page.edges@[i].node.instrument.brand
            },
{
    let ghost all = page.edges@;
    let mut rest = page.edges;
    let mut out: Vec<CustomerPaymentMethod> = Vec::new();
    let n = rest.len();
    let mut i: usize = 0;
    while i < n
        invariant
            n == all.len(),
            i <= n,
            rest@ == all.skip(i as int),
            out@.len() == i,
            forall|k: int| 0 <= k < i ==> spec_flattens(#[trigger] out@[k], all[k]),
        decreases n - i,
    {
        let edge = rest.remove(0);
        assert(all.skip(i as int).skip(1) == all.skip(i + 1));
        let inst = edge.node.instrument;
        out.push(
            CustomerPaymentMethod {
                id: edge.node.id,
                last_digits: inst.last_digits,
                expiry_month: inst.expiry_month,
                expiry_year: inst.expiry_year,
                expires_soon: inst.expires_soon,
                source: inst.source,
                brand: inst.brand,
            },
        );
        i = i + 1;
    }
    out
}

/// Variables of `customerPaymentMethodSendUpdateEmail`.
pub fn payment_update_email_variables(customer_payment_method_id: &str) -> (r: JsonValue)
    ensures
        r@ == JsonView::Object(seq![("customerPaymentMethodId"@, JsonView::Str(customer_payment_method_id@))]),
{
    jobject1("customerPaymentMethodId", jstr(customer_payment_method_id))
}

} // verus!

verus! {

/// The member `key` read as a `u32` when it is a number that fits.
pub open spec fn spec_u32_present(v: JsonValue, key: Seq<char>) -> Option<nat> {
    match spec_present(v, key) {
        Some(JsonValue::Number(t)) => spec_u32_of_number(t@),
        _ => None,
    }
}

/// The member `key` when it is a boolean.
pub open spec fn spec_bool_present(v: JsonValue, key: Seq<char>) -> Option<bool> {
    match spec_present(v, key) {
        Some(JsonValue::Bool(b)) => Some(b),
        _ => None,
    }
}

/// A payment-method edge reads: a node with a string id and an instrument
/// whose card fields all have their types, and a string cursor.
pub open spec fn spec_payment_edge_ok(edge: JsonValue) -> bool {
    match spec_present(edge, "node"@) {
        Some(node) => match spec_present(node, "instrument"@) {
            Some(inst) => {
                &&& spec_str_present(node, "id"@) is Some
                &&& spec_str_present(inst, "lastDigits"@) is Some
                &&& spec_u32_present(inst, "expiryMonth"@) is Some
                &&& spec_u32_present(inst, "expiryYear"@) is Some
                &&& spec_bool_present(inst, "expiresSoon"@) is Some
                &&& spec_str_present(inst, "source"@) is Some
                &&& spec_str_present(inst, "brand"@) is Some
                &&& spec_str_present(edge, "cursor"@) is Some
            },
            None => false,
        },
        None => false,
    }
}

/// `e` holds what the edge says.
pub open spec fn spec_payment_edge_of(edge: JsonValue, e: PaymentMethodEdge) -> bool {
    match spec_present(edge, "node"@) {
        Some(node) => match spec_present(node, "instrument"@) {
            Some(inst) => {
                &&& spec_str_present(node, "id"@) == Some(e.node.id@)
                &&& spec_str_present(inst, "lastDigits"@) == Some(e.node.instrument.last_digits@)
                &&& spec_u32_present(inst, "expiryMonth"@) == Some(e.node.instrument.expiry_month as nat)
                &&& spec_u32_present(inst, "expiryYear"@) == Some(e.node.instrument.expiry_year as nat)
                &&& spec_bool_present(inst, "expiresSoon"@) == Some(e.node.instrument.expires_soon)
                &&& spec_str_present(inst, "source"@) == Some(e.node.instrument.source@)
                &&& spec_str_present(inst, "brand"@) == Some(e.node.instrument.brand@)
                &&& spec_str_present(edge, "cursor"@) == Some(e.cursor@)
            },
            None => false,
        },
        None => false,
    }
}

/// `customer.paymentMethods` of a response.
pub open spec fn spec_payment_methods_of(data: JsonValue) -> Option<JsonValue> {
    match spec_present(data, "customer"@) {
        Some(c) => spec_present(c, "paymentMethods"@),
        None => None,
    }
}

/// A payment-methods page reads: the connection is there with an array of
/// readable edges and a readable page info.
pub open spec fn spec_payment_page_ok(data: JsonValue) -> bool {
    match spec_payment_methods_of(data) {
        Some(conn) => {
            &&& match spec_present(conn, "edges"@) {
                Some(JsonValue::Array(es)) => forall|i: int| 0 <= i < es@.len() ==> spec_payment_edge_ok(#[trigger] es@[i]),
                _ => false,
            }
            &&& match spec_present(conn, "pageInfo"@) {
                Some(p) => spec_page_info_ok(p),
                None => false,
            }
        },
        None => false,
    }
}

/// `page` holds what the connection says, edge by edge in order.
pub open spec fn spec_payment_page_of(data: JsonValue, page: PaymentMethodConnection) -> bool {
    match spec_payment_methods_of(data) {
        Some(conn) => {
            &&& match spec_present(conn, "edges"@) {
                Some(JsonValue::Array(es)) => page.edges@.len() == es@.len() && forall|i: int|
                    0 <= i < es@.len() ==> spec_payment_edge_of(es@[i], #[trigger] page.edges@[i]),
                _ => false,
            }
            &&& match spec_present(conn, "pageInfo"@) {
                Some(p) => spec_page_info_of(p, page.page_info),
                None => false,
            }
        },
        None => false,
    }
}

fn u32_present(v: &JsonValue, key: &str) -> (r: Option<u32>)
    ensures
        match r {
            Some(x) => spec_u32_present(*v, key@) == Some(x as nat),
            None => spec_u32_present(*v, key@) is None,
        },
{
    match present(v, key) {
        Some(JsonValue::Number(t)) => u32_of_number(t.as_str()),
        _ => None,
    }
}

fn bool_present(v: &JsonValue, key: &str) -> (r: Option<bool>)
    ensures
        r == spec_bool_present(*v, key@),
{
    match present(v, key) {
        Some(JsonValue::Bool(b)) => Some(*b),
        _ => None,
    }
}

fn payment_edge_of(edge: &JsonValue) -> (r: Option<PaymentMethodEdge>)
    ensures
        r is Some <==> spec_payment_edge_ok(*edge),
        r matches Some(e) ==> spec_payment_edge_of(*edge, e),
{
    let node = match present(edge, "node") {
        Some(n) => n,
        None => {
            return None;
        },
    };
    let inst = match present(node, "instrument") {
        Some(i) => i,
        None => {
            return None;
        },
    };
    let id = match str_present(node, "id") {
        Some(x) => x,
        None => {
            return None;
        },
    };
    let last_digits = match str_present(inst, "lastDigits") {
        Some(x) => x,
        None => {
            return None;
        },
    };
    let expiry_month = match u32_present(inst, "expiryMonth") {
        Some(x) => x,
        None => {
            return None;
        },
    };
    let expiry_year = match u32_present(inst, "expiryYear") {
        Some(x) => x,
        None => {
            return None;
        },
    };
    let expires_soon = match bool_present(inst, "expiresSoon") {
        Some(x) => x,
        None => {
            return None;
        },
    };
    let source = match str_present(inst, "source") {
        Some(x) => x,
        None => {
            return None;
        },
    };
    let brand = match str_present(inst, "brand") {
        Some(x) => x,
        None => {
            return None;
        },
    };
    let cursor = match str_present(edge, "cursor") {
        Some(x) => x,
        None => {
            return None;
        },
    };
    Some(
        PaymentMethodEdge {
            node: PaymentMethodNode {
                id,
                instrument: PaymentInstrument { last_digits, expiry_month, expiry_year, expires_soon, source, brand },
            },
            cursor,
        },
    )
}

/// Reads one page of a customer's payment methods
/// (`customer.paymentMethods` of the payment-methods query). A page that
/// does not read is refused with "unreadable payment methods page".
#[verifier::loop_isolation(false)]
pub fn payment_methods_page_of(data: &JsonValue) -> (r: Result<PaymentMethodConnection, AppError>)
    ensures
        r is Ok <==> spec_payment_page_ok(*data),
        r matches Ok(page) ==> spec_payment_page_of(*data, page),
        r matches Err(e) ==> is_other_error(e, "unreadable payment methods page"@),
{
    let conn = match present(data, "customer") {
        Some(c) => match present(c, "paymentMethods") {
            Some(x) => x,
            None => {
                return Err(other_error("unreadable payment methods page"));
            },
        },
        None => {
            return Err(other_error("unreadable payment methods page"));
        },
    };
    let es = match present(conn, "edges") {
        Some(JsonValue::Array(es)) => es,
        _ => {
            return Err(other_error("unreadable payment methods page"));
        },
    };
    let mut edges: Vec<PaymentMethodEdge> = Vec::new();
    let mut i: usize = 0;
    while i < es.len()
        invariant
            i <= es.len(),
            edges@.len() == i,
            forall|k: int| 0 <= k < i ==> spec_payment_edge_ok(es@[k]),
            forall|k: int| 0 <= k < i ==> spec_payment_edge_of(es@[k], #[trigger] edges@[k]),
        decreases es.len() - i,
    {
        match payment_edge_of(&es[i]) {
            Some(e) => edges.push(e),
            None => {
                return Err(other_error("unreadable payment methods page"));
            },
        }
        i = i + 1;
    }
    let page_info = match present(conn, "pageInfo") {
        Some(p) => match page_info_of(p) {
            Some(info) => info,
            None => {
                return Err(other_error("unreadable payment methods page"));
            },
        },
        None => {
            return Err(other_error("unreadable payment methods page"));
        },
    };
    Ok(PaymentMethodConnection { edges, page_info })
}

} // verus!
verus! {

/// A page read from a response keeps every payment method it lists, in
/// order: one edge per element of `customer.paymentMethods.edges`, the k-th
/// with that node's id, card digits, expiry and brand, and that edge's
/// cursor.
pub proof fn lemma_payment_page_keeps_every_edge(data: JsonValue, page: PaymentMethodConnection)
    requires
        spec_payment_page_ok(data),
        spec_payment_page_of(data, page),
    ensures
        ({
            let conn = spec_present(spec_present(data, "customer"@)->0, "paymentMethods"@)->0;
            spec_present(conn, "edges"@) matches Some(JsonValue::Array(es)) && page.edges@.len() == es@.len()
                && forall|k: int|
                0 <= k < es@.len() ==> {
                    let node = spec_present(es@[k], "node"@)->0;
                    let inst = spec_present(node, "instrument"@)->0;
                    &&& spec_str_present(node, "id"@) == Some((#[trigger] page.edges@[k]).node.id@)
                    &&& spec_str_present(inst, "lastDigits"@) == Some(page.edges@[k].node.instrument.last_digits@)
                    &&& spec_present(inst, "expiryMonth"@) matches Some(JsonValue::Number(t))
                        && spec_u32_of_number(t@) == Some(page.edges@[k].node.instrument.expiry_month as nat)
                    &&& spec_present(inst, "expiryYear"@) matches Some(JsonValue::Number(t))
                        && spec_u32_of_number(t@) == Some(page.edges@[k].node.instrument.expiry_year as nat)
                    &&& spec_str_present(inst, "brand"@) == Some(page.edges@[k].node.instrument.brand@)
                    &&& spec_str_present(es@[k], "cursor"@) == Some(page.edges@[k].cursor@)
                }
        }),
{
    let conn = spec_present(spec_present(data, "customer"@)->0, "paymentMethods"@)->0;
    if let Some(JsonValue::Array(es)) = spec_present(conn, "edges"@) {
        assert forall|k: int| 0 <= k < es@.len() implies {
            let node = spec_present(es@[k], "node"@)->0;
            let inst = spec_present(node, "instrument"@)->0;
            &&& spec_str_present(node, "id"@) == Some((#[trigger] page.edges@[k]).node.id@)
            &&& spec_str_present(inst, "lastDigits"@) == Some(page.edges@[k].node.instrument.last_digits@)
            &&& spec_present(inst, "expiryMonth"@) matches Some(JsonValue::Number(t))
                && spec_u32_of_number(t@) == Some(page.edges@[k].node.instrument.expiry_month as nat)
            &&& spec_present(inst, "expiryYear"@) matches Some(JsonValue::Number(t))
                && spec_u32_of_number(t@) == Some(page.edges@[k].node.instrument.expiry_year as nat)
            &&& spec_str_present(inst, "brand"@) == Some(page.edges@[k].node.instrument.brand@)
            &&& spec_str_present(es@[k], "cursor"@) == Some(page.edges@[k].cursor@)
        } by {
            assert(spec_payment_edge_ok(es@[k]));
            assert(spec_payment_edge_of(es@[k], page.edges@[k]));
        }
    }
}

} // verus!
