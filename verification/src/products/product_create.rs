//! Interpreting a `productCreate` response.
use vstd::prelude::*;
use crate::error::{AppError, UserError, is_other_error, other_error};
use crate::products::{ProductInfo, ProductCreateResult, VariantNode};

verus! {

#[derive(Debug)]
pub struct NewProductCreated {
    pub product: Option<ProductInfo>,
    pub user_errors: Option<Vec<UserError>>,
}

/// The answer of the `productCreate` mutation.
#[derive(Debug)]
pub struct ProductCreateResponse {
    pub product_create: Option<NewProductCreated>,
}

/// The first variant node of a product, if it lists any.
pub open spec fn spec_first_variant(p: ProductInfo) -> Option<VariantNode> {
    match p.variants {
        Some(v) => match v.nodes {
            Some(nodes) => if nodes@.len() > 0 {
                Some(nodes@[0])
            } else {
                None
            },
            None => None,
        },
        None => None,
    }
}

/// What `productCreate` answers: the created product's id and handle with
/// the id and title of its first variant; without a product, the error
/// "Failed to create product or retrieve variant ID".
pub open spec fn spec_product_create_outcome(
    r: Result<ProductCreateResult, AppError>,
    resp: ProductCreateResponse,
) -> bool {
    match resp.product_create {
        Some(created) => match created.product {
            Some(p) => r matches Ok(res) && res.product_id == p.id && res.handle == p.handle && match
                spec_first_variant(p) {
                Some(v) => res.variant_id == v.id && res.variant_title == v.title,
                None => res.variant_id is None && res.variant_title is None,
            },
            None => r matches Err(e) && is_other_error(e, "Failed to create product or retrieve variant ID"@),
        },
        None => r matches Err(e) && is_other_error(e, "Failed to create product or retrieve variant ID"@),
    }
}

/// The new product and its first variant, from a `productCreate` response.
pub fn product_create_outcome(resp: ProductCreateResponse) -> (r: Result<ProductCreateResult, AppError>)
    ensures
        spec_product_create_outcome(r, resp),
{
    match resp.product_create {
        Some(created) => match created.product {
            Some(p) => {
                let (variant_id, variant_title) = match p.variants {
                    Some(v) => match v.nodes {
                        Some(nodes) => {
                            let mut nodes = nodes;
                            if nodes.len() > 0 {
                                let n = nodes.remove(0);
                                (n.id, n.title)
                            } else {
                                (None, None)
                            }
                        },
                        None => (None, None),
                    },
                    None => (None, None),
                };
                Ok(ProductCreateResult { product_id: p.id, handle: p.handle, variant_id, variant_title })
            },
            None => Err(other_error("Failed to create product or retrieve variant ID")),
        },
        None => Err(other_error("Failed to create product or retrieve variant ID")),
    }
}

} // verus!
