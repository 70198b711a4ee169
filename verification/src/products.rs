//! Products, with their GraphQL enum texts.
use vstd::prelude::*;

pub mod product_create;
pub mod product_metafields;
pub mod product_set;
use crate::text::{chars_of, chars_equal, string_from_slice};

verus! {

#[derive(Debug, Clone, PartialEq, Eq, Structural)]
pub enum CombinedListingRole {
    /// `CHILD`
    CHILD,
    /// `PARENT`
    PARENT,
}

impl CombinedListingRole {
    /// The value `from_str` gives for a string.
    pub open spec fn spec_from_str(s: Seq<char>) -> CombinedListingRole {
        if s == seq!['C', 'H', 'I', 'L', 'D'] {
            CombinedListingRole::CHILD
        } else {
            CombinedListingRole::PARENT
        }
    }

    /// The text `to_string` gives for a value.
    pub open spec fn spec_to_string(self) -> Seq<char> {
        match self {
            CombinedListingRole::CHILD => seq!['C', 'H', 'I', 'L', 'D'],
            CombinedListingRole::PARENT => seq!['P', 'A', 'R', 'E', 'N', 'T'],
        }
    }

    /// Reads the GraphQL enum text: "CHILD" gives `CHILD`; any other text gives `PARENT`.
    pub fn from_str(role: &str) -> (r: CombinedListingRole)
        ensures
            r == CombinedListingRole::spec_from_str(role@),
    {
        let cs = chars_of(role);
        if chars_equal(&cs, &['C', 'H', 'I', 'L', 'D']) {
            CombinedListingRole::CHILD
        } else {
            CombinedListingRole::PARENT
        }
    }

    /// The GraphQL enum text of the value.
    pub fn to_string(&self) -> (r: String)
        ensures
            r@ == self.spec_to_string(),
    {
        let text: &[char] = match self {
            CombinedListingRole::CHILD => &['C', 'H', 'I', 'L', 'D'],
            CombinedListingRole::PARENT => &['P', 'A', 'R', 'E', 'N', 'T'],
        };
        string_from_slice(text)
    }
}

/// Reading back the text of a value gives the value again.
pub proof fn lemma_combined_listing_role_round_trip(v: CombinedListingRole)
    ensures
        CombinedListingRole::spec_from_str(v.spec_to_string()) == v,
{
    match v {
        CombinedListingRole::CHILD => {},
        CombinedListingRole::PARENT => {
            assert(seq!['P', 'A', 'R', 'E', 'N', 'T'].len() != seq!['C', 'H', 'I', 'L', 'D'].len());
        },
    }
}

#[derive(Debug, Clone, PartialEq, Eq, Structural)]
pub enum ProductStatus {
    /// `ACTIVE`
    ACTIVE,
    /// `ARCHIVED`
    ARCHIVED,
    /// `DRAFT`
    DRAFT,
}

impl ProductStatus {
    /// The value `from_str` gives for a string.
    pub open spec fn spec_from_str(s: Seq<char>) -> ProductStatus {
        if s == seq!['A', 'C', 'T', 'I', 'V', 'E'] {
            ProductStatus::ACTIVE
        } else if s == seq!['A', 'R', 'C', 'H', 'I', 'V', 'E', 'D'] {
            ProductStatus::ARCHIVED
        } else {
            ProductStatus::DRAFT
        }
    }

    /// The text `to_string` gives for a value.
    pub open spec fn spec_to_string(self) -> Seq<char> {
        match self {
            ProductStatus::ACTIVE => seq!['A', 'C', 'T', 'I', 'V', 'E'],
            ProductStatus::ARCHIVED => seq!['A', 'R', 'C', 'H', 'I', 'V', 'E', 'D'],
            ProductStatus::DRAFT => seq!['D', 'R', 'A', 'F', 'T'],
        }
    }

    /// Reads the GraphQL enum text: "ACTIVE" gives `ACTIVE`; "ARCHIVED" gives `ARCHIVED`; any other text gives `DRAFT`.
    pub fn from_str(role: &str) -> (r: ProductStatus)
        ensures
            r == ProductStatus::spec_from_str(role@),
    {
        let cs = chars_of(role);
        if chars_equal(&cs, &['A', 'C', 'T', 'I', 'V', 'E']) {
            ProductStatus::ACTIVE
        } else if chars_equal(&cs, &['A', 'R', 'C', 'H', 'I', 'V', 'E', 'D']) {
            ProductStatus::ARCHIVED
        } else {
            ProductStatus::DRAFT
        }
    }

    /// The GraphQL enum text of the value.
    pub fn to_string(&self) -> (r: String)
        ensures
            r@ == self.spec_to_string(),
    {
        let text: &[char] = match self {
            ProductStatus::ACTIVE => &['A', 'C', 'T', 'I', 'V', 'E'],
            ProductStatus::ARCHIVED => &['A', 'R', 'C', 'H', 'I', 'V', 'E', 'D'],
            ProductStatus::DRAFT => &['D', 'R', 'A', 'F', 'T'],
        };
        string_from_slice(text)
    }
}

/// Reading back the text of a value gives the value again.
pub proof fn lemma_product_status_round_trip(v: ProductStatus)
    ensures
        ProductStatus::spec_from_str(v.spec_to_string()) == v,
{
    match v {
        ProductStatus::ACTIVE => {},
        ProductStatus::ARCHIVED => {},
        ProductStatus::DRAFT => {
            assert(seq!['D', 'R', 'A', 'F', 'T'].len() != seq!['A', 'C', 'T', 'I', 'V', 'E'].len());
            assert(seq!['D', 'R', 'A', 'F', 'T'].len() != seq!['A', 'R', 'C', 'H', 'I', 'V', 'E', 'D'].len());
        },
    }
}

#[derive(Debug, Clone, PartialEq, Eq, Structural)]
pub enum WeightUnit {
    /// `GRAMS`
    GRAMS,
    /// `KILOGRAMS`
    KILOGRAMS,
    /// `OUNCES`
    OUNCES,
    /// `POUNDS`
    POUNDS,
}

impl WeightUnit {
    /// The value `from_str` gives for a string.
    pub open spec fn spec_from_str(s: Seq<char>) -> WeightUnit {
        WeightUnit::GRAMS
    }

    /// The text `to_string` gives for a value.
    pub open spec fn spec_to_string(self) -> Seq<char> {
        match self {
            WeightUnit::GRAMS => seq!['G', 'R', 'A', 'M', 'S'],
            WeightUnit::KILOGRAMS => seq!['K', 'I', 'L', 'O', 'G', 'R', 'A', 'M', 'S'],
            WeightUnit::OUNCES => seq!['O', 'U', 'N', 'C', 'E', 'S'],
            WeightUnit::POUNDS => seq!['P', 'O', 'U', 'N', 'D', 'S'],
        }
    }

    /// Reads the GraphQL enum text: every text gives `GRAMS`.
    pub fn from_str(role: &str) -> (r: WeightUnit)
        ensures
            r == WeightUnit::spec_from_str(role@),
    {
        let cs = chars_of(role);
        WeightUnit::GRAMS
    }

    /// The GraphQL enum text of the value.
    pub fn to_string(&self) -> (r: String)
        ensures
            r@ == self.spec_to_string(),
    {
        let text: &[char] = match self {
            WeightUnit::GRAMS => &['G', 'R', 'A', 'M', 'S'],
            WeightUnit::KILOGRAMS => &['K', 'I', 'L', 'O', 'G', 'R', 'A', 'M', 'S'],
            WeightUnit::OUNCES => &['O', 'U', 'N', 'C', 'E', 'S'],
            WeightUnit::POUNDS => &['P', 'O', 'U', 'N', 'D', 'S'],
        };
        string_from_slice(text)
    }
}

/// Reading back the text of a value gives the value again (for every value whose text is not mapped elsewhere).
pub proof fn lemma_weight_unit_round_trip(v: WeightUnit)
    requires
        !(v is KILOGRAMS),
        !(v is OUNCES),
        !(v is POUNDS),
    ensures
        WeightUnit::spec_from_str(v.spec_to_string()) == v,
{
    match v {
        WeightUnit::GRAMS => {},
        WeightUnit::KILOGRAMS => {},
        WeightUnit::OUNCES => {},
        WeightUnit::POUNDS => {},
    }
}

#[derive(Debug, Clone)]
pub struct TaxonomyCategory {
    /// non-null required (gid://Shopify/TaxonomyCategory/<globally unique ID>)
    pub id: Option<String>,
    pub full_name: Option<String>,
}

#[derive(Debug, Clone)]
pub struct SEOInput {
    pub description: Option<String>,
    pub title: Option<String>,
}

#[derive(Debug, Clone)]
pub struct OptionCreateInput {
    pub linked_metafield: Option<LinkedMetafieldCreateInput>,
    pub name: Option<String>,
    pub position: Option<u32>,
    pub values: Option<Vec<OptionValueCreateInput>>,
}

#[derive(Debug, Clone)]
pub struct OptionValueCreateInput {
    pub linked_metafield_value: Option<String>,
    pub name: Option<String>,
}

#[derive(Debug, Clone)]
pub struct LinkedMetafieldCreateInput {
    /// required
    pub key: String,
    /// required
    pub namespace: String,
    pub values: Option<String>,
}

#[derive(Debug, Clone)]
pub struct ProductClaimOwnershipInput {
    pub bundles: Option<bool>,
}

#[derive(Debug, Clone)]
pub struct InventoryLevelInput {
    pub available_quantity: Option<u32>,
    pub location_gid: Option<String>,
}

#[derive(Debug, Clone)]
pub struct ProductInfo {
    pub handle: Option<String>,
    pub id: Option<String>,
    pub variants: Option<Variants>,
}

#[derive(Debug, Clone)]
pub struct Variants {
    pub nodes: Option<Vec<VariantNode>>,
}

#[derive(Debug, Clone)]
pub struct VariantNode {
    pub id: Option<String>,
    pub title: Option<String>,
}

#[derive(Debug, Clone)]
pub struct ProductCreateResult {
    pub product_id: Option<String>,
    pub handle: Option<String>,
    pub variant_id: Option<String>,
    pub variant_title: Option<String>,
}

#[derive(Debug, Clone)]
pub struct SeoInput {
    pub title: Option<String>,
    pub description: Option<String>,
}

#[derive(Debug, Clone)]
pub struct ProductOptionInput {
    pub name: String,
    pub values: Vec<ProductOptionValueInput>,
}

#[derive(Debug, Clone)]
pub struct ProductOptionValueInput {
    pub name: String,
}

#[derive(Debug, Clone)]
pub struct VariantOptionValue {
    pub option_name: String,
    pub name: String,
}

#[derive(Debug, Clone)]
pub struct ProductSetResult {
    pub product_id: String,
    pub variants: Vec<ProductSetVariantResult>,
}

#[derive(Debug, Clone)]
pub struct ProductSetVariantResult {
    pub sku: Option<String>,
    pub variant_id: String,
    pub inventory_item_id: String,
}

} // verus!
