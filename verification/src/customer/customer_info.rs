//! Looking a customer up by email.
use vstd::prelude::*;

verus! {

/// The customer found for an email, if any.
#[derive(Debug, Clone)]
pub struct CustomerGIDResponse {
    pub customer_gid: Option<String>,
}

#[derive(Debug, Clone)]
pub struct CustomerIdNode {
    pub id: Option<String>,
}

#[derive(Debug, Clone)]
pub struct CustomerIdEdge {
    pub node: Option<CustomerIdNode>,
}

#[derive(Debug, Clone)]
pub struct CustomerIdConnection {
    pub edges: Option<Vec<CustomerIdEdge>>,
}

/// The answer of the customers-by-email query.
#[derive(Debug, Clone)]
pub struct CustomerIdsResponse {
    pub customers: Option<CustomerIdConnection>,
}

/// The id of the first customer found, when the first edge has a node
/// with an id.
pub open spec fn spec_first_customer_id(resp: CustomerIdsResponse) -> Option<String> {
    match resp.customers {
        Some(c) => match c.edges {
            Some(edges) => if edges@.len() > 0 {
                match edges@[0].node {
                    Some(n) => n.id,
                    None => None,
                }
            } else {
                None
            },
            None => None,
        },
        None => None,
    }
}

/// The GID of the first customer the query found.
pub fn customer_gid_of(resp: CustomerIdsResponse) -> (r: CustomerGIDResponse)
    ensures
        r.customer_gid == spec_first_customer_id(resp),
{
    let customer_gid = match resp.customers {
        Some(c) => match c.edges {
            Some(edges) => {
                let mut edges = edges;
                if edges.len() > 0 {
                    let first = edges.remove(0);
                    match first.node {
                        Some(n) => n.id,
                        None => None,
                    }
                } else {
                    None
                }
            },
            None => None,
        },
        None => None,
    };
    CustomerGIDResponse { customer_gid }
}

} // verus!
