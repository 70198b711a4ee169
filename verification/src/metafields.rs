//! Metafields: value types, with their GraphQL enum texts.
use vstd::prelude::*;
use crate::error::{AppError, is_other_error, other_error};
use crate::json::{JsonValue, JsonView, jobject1, jstr};
use crate::text::{chars_of, chars_equal, string_from_slice};

verus! {

#[derive(Debug, Clone, PartialEq, Eq, Structural)]
pub enum MetaFieldType {
    /// `boolean`
    BOOLEAN,
    /// `color`
    COLOR,
    /// `date`
    DATE,
    /// `date_time`
    DATETIME,
    /// `dimension`
    DIMENSION,
    /// `json`
    JSON,
    /// `link`
    LINK,
    /// `money`
    MONEY,
    /// `multi_line_text_field`
    MULTILINETEXTFIELD,
    /// `number_decimal`
    NUMBERDECIMAL,
    /// `number_integer`
    NUMBERINTEGER,
    /// `rating`
    RATING,
    /// `rich_text_field`
    RICHTEXTFIELD,
    /// `single_line_text_field`
    SINGLELINETEXTFIELD,
    /// `url`
    URL,
    /// `volume`
    VOLUME,
    /// `weight`
    WEIGHT,
    /// `collection_reference`
    COLLECTIONREFERENCE,
    /// `file_reference`
    FILEREFERENCE,
    /// `metaobject_reference`
    METAOBJECTREFERENCE,
    /// `mixed_reference`
    MIXEDREFERENCE,
    /// `page_reference`
    PAGEREFERENCE,
    /// `product_reference`
    PRODUCTREFERENCE,
    /// `variant_reference`
    VARIANTREFERENCE,
    /// `list.collection_reference`
    LISTCOLLECTIONREFERENCE,
    /// `list.color`
    LISTCOLOR,
    /// `list.date`
    LISTDATE,
    /// `list.date_time`
    LISTDATETIME,
    /// `list.dimension`
    LISTDIMENSION,
    /// `list.file_reference`
    LISTFILEREFERENCE,
    /// `list.link`
    LISTLINK,
    /// `list.metaobject_reference`
    LISTMETAOBJECTREFERENCE,
    /// `list.mixed_reference`
    LISTMIXEDREFERENCE,
    /// `list.number_integer`
    LISTNUMBERINTEGER,
    /// `list.number_decimal`
    LISTNUMBERDECIMAL,
    /// `list.page_reference`
    LISTPAGEREFERENCE,
    /// `list.product_reference`
    LISTPRODUCTREFERENCE,
    /// `list.rating`
    LISTRATING,
    /// `list.single_line_text_field`
    LISTSINGLELINETEXTFIELD,
    /// `list.url`
    LISTURL,
    /// `list.variant_reference`
    LISTVARIANTREFERENCE,
    /// `list.volume`
    LISTVOLUME,
    /// `list.weight`
    LISTWEIGHT,
}

impl MetaFieldType {
    /// The value `from_str` gives for a string.
    pub open spec fn spec_from_str(s: Seq<char>) -> MetaFieldType {
        if s == seq!['b', 'o', 'o', 'l', 'e', 'a', 'n'] {
            MetaFieldType::BOOLEAN
        } else if s == seq!['c', 'o', 'l', 'o', 'r'] {
            MetaFieldType::COLOR
        } else if s == seq!['d', 'a', 't', 'e'] {
            MetaFieldType::DATE
        } else if s == seq!['d', 'a', 't', 'e', '_', 't', 'i', 'm', 'e'] {
            MetaFieldType::DATETIME
        } else if s == seq!['d', 'i', 'm', 'e', 'n', 's', 'i', 'o', 'n'] {
            MetaFieldType::DIMENSION
        } else if s == seq!['j', 's', 'o', 'n'] {
            MetaFieldType::JSON
        } else if s == seq!['l', 'i', 'n', 'k'] {
            MetaFieldType::LINK
        } else if s == seq!['m', 'o', 'n', 'e', 'y'] {
            MetaFieldType::MONEY
        } else if s == seq!['m', 'u', 'l', 't', 'i', '_', 'l', 'i', 'n', 'e', '_', 't', 'e', 'x', 't', '_', 'f', 'i', 'e', 'l', 'd'] {
            MetaFieldType::MULTILINETEXTFIELD
        } else if s == seq!['n', 'u', 'm', 'b', 'e', 'r', '_', 'd', 'e', 'c', 'i', 'm', 'a', 'l'] {
            MetaFieldType::NUMBERDECIMAL
        } else if s == seq!['n', 'u', 'm', 'b', 'e', 'r', '_', 'i', 'n', 't', 'e', 'g', 'e', 'r'] {
            MetaFieldType::NUMBERINTEGER
        } else if s == seq!['r', 'a', 't', 'i', 'n', 'g'] {
            MetaFieldType::RATING
        } else if s == seq!['r', 'i', 'c', 'h', '_', 't', 'e', 'x', 't', '_', 'f', 'i', 'e', 'l', 'd'] {
            MetaFieldType::RICHTEXTFIELD
        } else {
            MetaFieldType::SINGLELINETEXTFIELD
        }
    }

    /// The text `to_string` gives for a value.
    pub open spec fn spec_to_string(self) -> Seq<char> {
        match self {
            MetaFieldType::BOOLEAN => seq!['b', 'o', 'o', 'l', 'e', 'a', 'n'],
            MetaFieldType::COLOR => seq!['c', 'o', 'l', 'o', 'r'],
            MetaFieldType::DATE => seq!['d', 'a', 't', 'e'],
            MetaFieldType::DATETIME => seq!['d', 'a', 't', 'e', '_', 't', 'i', 'm', 'e'],
            MetaFieldType::DIMENSION => seq!['d', 'i', 'm', 'e', 'n', 's', 'i', 'o', 'n'],
            MetaFieldType::JSON => seq!['j', 's', 'o', 'n'],
            MetaFieldType::LINK => seq!['l', 'i', 'n', 'k'],
            MetaFieldType::MONEY => seq!['m', 'o', 'n', 'e', 'y'],
            MetaFieldType::MULTILINETEXTFIELD => seq!['m', 'u', 'l', 't', 'i', '_', 'l', 'i', 'n', 'e', '_', 't', 'e', 'x', 't', '_', 'f', 'i', 'e', 'l', 'd'],
            MetaFieldType::NUMBERDECIMAL => seq!['n', 'u', 'm', 'b', 'e', 'r', '_', 'd', 'e', 'c', 'i', 'm', 'a', 'l'],
            MetaFieldType::NUMBERINTEGER => seq!['n', 'u', 'm', 'b', 'e', 'r', '_', 'i', 'n', 't', 'e', 'g', 'e', 'r'],
            MetaFieldType::RATING => seq!['r', 'a', 't', 'i', 'n', 'g'],
            MetaFieldType::RICHTEXTFIELD => seq!['r', 'i', 'c', 'h', '_', 't', 'e', 'x', 't', '_', 'f', 'i', 'e', 'l', 'd'],
            MetaFieldType::SINGLELINETEXTFIELD => seq!['s', 'i', 'n', 'g', 'l', 'e', '_', 'l', 'i', 'n', 'e', '_', 't', 'e', 'x', 't', '_', 'f', 'i', 'e', 'l', 'd'],
            MetaFieldType::URL => seq!['u', 'r', 'l'],
            MetaFieldType::VOLUME => seq!['v', 'o', 'l', 'u', 'm', 'e'],
            MetaFieldType::WEIGHT => seq!['w', 'e', 'i', 'g', 'h', 't'],
            MetaFieldType::COLLECTIONREFERENCE => seq!['c', 'o', 'l', 'l', 'e', 'c', 't', 'i', 'o', 'n', '_', 'r', 'e', 'f', 'e', 'r', 'e', 'n', 'c', 'e'],
            MetaFieldType::FILEREFERENCE => seq!['f', 'i', 'l', 'e', '_', 'r', 'e', 'f', 'e', 'r', 'e', 'n', 'c', 'e'],
            MetaFieldType::METAOBJECTREFERENCE => seq!['m', 'e', 't', 'a', 'o', 'b', 'j', 'e', 'c', 't', '_', 'r', 'e', 'f', 'e', 'r', 'e', 'n', 'c', 'e'],
            MetaFieldType::MIXEDREFERENCE => seq!['m', 'i', 'x', 'e', 'd', '_', 'r', 'e', 'f', 'e', 'r', 'e', 'n', 'c', 'e'],
            MetaFieldType::PAGEREFERENCE => seq!['p', 'a', 'g', 'e', '_', 'r', 'e', 'f', 'e', 'r', 'e', 'n', 'c', 'e'],
            MetaFieldType::PRODUCTREFERENCE => seq!['p', 'r', 'o', 'd', 'u', 'c', 't', '_', 'r', 'e', 'f', 'e', 'r', 'e', 'n', 'c', 'e'],
            MetaFieldType::VARIANTREFERENCE => seq!['v', 'a', 'r', 'i', 'a', 'n', 't', '_', 'r', 'e', 'f', 'e', 'r', 'e', 'n', 'c', 'e'],
            MetaFieldType::LISTCOLLECTIONREFERENCE => seq!['l', 'i', 's', 't', '.', 'c', 'o', 'l', 'l', 'e', 'c', 't', 'i', 'o', 'n', '_', 'r', 'e', 'f', 'e', 'r', 'e', 'n', 'c', 'e'],
            MetaFieldType::LISTCOLOR => seq!['l', 'i', 's', 't', '.', 'c', 'o', 'l', 'o', 'r'],
            MetaFieldType::LISTDATE => seq!['l', 'i', 's', 't', '.', 'd', 'a', 't', 'e'],
            MetaFieldType::LISTDATETIME => seq!['l', 'i', 's', 't', '.', 'd', 'a', 't', 'e', '_', 't', 'i', 'm', 'e'],
            MetaFieldType::LISTDIMENSION => seq!['l', 'i', 's', 't', '.', 'd', 'i', 'm', 'e', 'n', 's', 'i', 'o', 'n'],
            MetaFieldType::LISTFILEREFERENCE => seq!['l', 'i', 's', 't', '.', 'f', 'i', 'l', 'e', '_', 'r', 'e', 'f', 'e', 'r', 'e', 'n', 'c', 'e'],
            MetaFieldType::LISTLINK => seq!['l', 'i', 's', 't', '.', 'l', 'i', 'n', 'k'],
            MetaFieldType::LISTMETAOBJECTREFERENCE => seq!['l', 'i', 's', 't', '.', 'm', 'e', 't', 'a', 'o', 'b', 'j', 'e', 'c', 't', '_', 'r', 'e', 'f', 'e', 'r', 'e', 'n', 'c', 'e'],
            MetaFieldType::LISTMIXEDREFERENCE => seq!['l', 'i', 's', 't', '.', 'm', 'i', 'x', 'e', 'd', '_', 'r', 'e', 'f', 'e', 'r', 'e', 'n', 'c', 'e'],
            MetaFieldType::LISTNUMBERINTEGER => seq!['l', 'i', 's', 't', '.', 'n', 'u', 'm', 'b', 'e', 'r', '_', 'i', 'n', 't', 'e', 'g', 'e', 'r'],
            MetaFieldType::LISTNUMBERDECIMAL => seq!['l', 'i', 's', 't', '.', 'n', 'u', 'm', 'b', 'e', 'r', '_', 'd', 'e', 'c', 'i', 'm', 'a', 'l'],
            MetaFieldType::LISTPAGEREFERENCE => seq!['l', 'i', 's', 't', '.', 'p', 'a', 'g', 'e', '_', 'r', 'e', 'f', 'e', 'r', 'e', 'n', 'c', 'e'],
            MetaFieldType::LISTPRODUCTREFERENCE => seq!['l', 'i', 's', 't', '.', 'p', 'r', 'o', 'd', 'u', 'c', 't', '_', 'r', 'e', 'f', 'e', 'r', 'e', 'n', 'c', 'e'],
            MetaFieldType::LISTRATING => seq!['l', 'i', 's', 't', '.', 'r', 'a', 't', 'i', 'n', 'g'],
            MetaFieldType::LISTSINGLELINETEXTFIELD => seq!['l', 'i', 's', 't', '.', 's', 'i', 'n', 'g', 'l', 'e', '_', 'l', 'i', 'n', 'e', '_', 't', 'e', 'x', 't', '_', 'f', 'i', 'e', 'l', 'd'],
            MetaFieldType::LISTURL => seq!['l', 'i', 's', 't', '.', 'u', 'r', 'l'],
            MetaFieldType::LISTVARIANTREFERENCE => seq!['l', 'i', 's', 't', '.', 'v', 'a', 'r', 'i', 'a', 'n', 't', '_', 'r', 'e', 'f', 'e', 'r', 'e', 'n', 'c', 'e'],
            MetaFieldType::LISTVOLUME => seq!['l', 'i', 's', 't', '.', 'v', 'o', 'l', 'u', 'm', 'e'],
            MetaFieldType::LISTWEIGHT => seq!['l', 'i', 's', 't', '.', 'w', 'e', 'i', 'g', 'h', 't'],
        }
    }

    /// Reads the GraphQL enum text: "boolean" gives `BOOLEAN`; "color" gives `COLOR`; "date" gives `DATE`; "date_time" gives `DATETIME`; "dimension" gives `DIMENSION`; "json" gives `JSON`; "link" gives `LINK`; "money" gives `MONEY`; "multi_line_text_field" gives `MULTILINETEXTFIELD`; "number_decimal" gives `NUMBERDECIMAL`; "number_integer" gives `NUMBERINTEGER`; "rating" gives `RATING`; "rich_text_field" gives `RICHTEXTFIELD`; any other text gives `SINGLELINETEXTFIELD`.
    pub fn from_str(role: &str) -> (r: MetaFieldType)
        ensures
            r == MetaFieldType::spec_from_str(role@),
    {
        let cs = chars_of(role);
        if chars_equal(&cs, &['b', 'o', 'o', 'l', 'e', 'a', 'n']) {
            MetaFieldType::BOOLEAN
        } else if chars_equal(&cs, &['c', 'o', 'l', 'o', 'r']) {
            MetaFieldType::COLOR
        } else if chars_equal(&cs, &['d', 'a', 't', 'e']) {
            MetaFieldType::DATE
        } else if chars_equal(&cs, &['d', 'a', 't', 'e', '_', 't', 'i', 'm', 'e']) {
            MetaFieldType::DATETIME
        } else if chars_equal(&cs, &['d', 'i', 'm', 'e', 'n', 's', 'i', 'o', 'n']) {
            MetaFieldType::DIMENSION
        } else if chars_equal(&cs, &['j', 's', 'o', 'n']) {
            MetaFieldType::JSON
        } else if chars_equal(&cs, &['l', 'i', 'n', 'k']) {
            MetaFieldType::LINK
        } else if chars_equal(&cs, &['m', 'o', 'n', 'e', 'y']) {
            MetaFieldType::MONEY
        } else if chars_equal(&cs, &['m', 'u', 'l', 't', 'i', '_', 'l', 'i', 'n', 'e', '_', 't', 'e', 'x', 't', '_', 'f', 'i', 'e', 'l', 'd']) {
            MetaFieldType::MULTILINETEXTFIELD
        } else if chars_equal(&cs, &['n', 'u', 'm', 'b', 'e', 'r', '_', 'd', 'e', 'c', 'i', 'm', 'a', 'l']) {
            MetaFieldType::NUMBERDECIMAL
        } else if chars_equal(&cs, &['n', 'u', 'm', 'b', 'e', 'r', '_', 'i', 'n', 't', 'e', 'g', 'e', 'r']) {
            MetaFieldType::NUMBERINTEGER
        } else if chars_equal(&cs, &['r', 'a', 't', 'i', 'n', 'g']) {
            MetaFieldType::RATING
        } else if chars_equal(&cs, &['r', 'i', 'c', 'h', '_', 't', 'e', 'x', 't', '_', 'f', 'i', 'e', 'l', 'd']) {
            MetaFieldType::RICHTEXTFIELD
        } else {
            MetaFieldType::SINGLELINETEXTFIELD
        }
    }

    /// The GraphQL enum text of the value.
    pub fn to_string(&self) -> (r: String)
        ensures
            r@ == self.spec_to_string(),
    {
        let text: &[char] = match self {
            MetaFieldType::BOOLEAN => &['b', 'o', 'o', 'l', 'e', 'a', 'n'],
            MetaFieldType::COLOR => &['c', 'o', 'l', 'o', 'r'],
            MetaFieldType::DATE => &['d', 'a', 't', 'e'],
            MetaFieldType::DATETIME => &['d', 'a', 't', 'e', '_', 't', 'i', 'm', 'e'],
            MetaFieldType::DIMENSION => &['d', 'i', 'm', 'e', 'n', 's', 'i', 'o', 'n'],
            MetaFieldType::JSON => &['j', 's', 'o', 'n'],
            MetaFieldType::LINK => &['l', 'i', 'n', 'k'],
            MetaFieldType::MONEY => &['m', 'o', 'n', 'e', 'y'],
            MetaFieldType::MULTILINETEXTFIELD => &['m', 'u', 'l', 't', 'i', '_', 'l', 'i', 'n', 'e', '_', 't', 'e', 'x', 't', '_', 'f', 'i', 'e', 'l', 'd'],
            MetaFieldType::NUMBERDECIMAL => &['n', 'u', 'm', 'b', 'e', 'r', '_', 'd', 'e', 'c', 'i', 'm', 'a', 'l'],
            MetaFieldType::NUMBERINTEGER => &['n', 'u', 'm', 'b', 'e', 'r', '_', 'i', 'n', 't', 'e', 'g', 'e', 'r'],
            MetaFieldType::RATING => &['r', 'a', 't', 'i', 'n', 'g'],
            MetaFieldType::RICHTEXTFIELD => &['r', 'i', 'c', 'h', '_', 't', 'e', 'x', 't', '_', 'f', 'i', 'e', 'l', 'd'],
            MetaFieldType::SINGLELINETEXTFIELD => &['s', 'i', 'n', 'g', 'l', 'e', '_', 'l', 'i', 'n', 'e', '_', 't', 'e', 'x', 't', '_', 'f', 'i', 'e', 'l', 'd'],
            MetaFieldType::URL => &['u', 'r', 'l'],
            MetaFieldType::VOLUME => &['v', 'o', 'l', 'u', 'm', 'e'],
            MetaFieldType::WEIGHT => &['w', 'e', 'i', 'g', 'h', 't'],
            MetaFieldType::COLLECTIONREFERENCE => &['c', 'o', 'l', 'l', 'e', 'c', 't', 'i', 'o', 'n', '_', 'r', 'e', 'f', 'e', 'r', 'e', 'n', 'c', 'e'],
            MetaFieldType::FILEREFERENCE => &['f', 'i', 'l', 'e', '_', 'r', 'e', 'f', 'e', 'r', 'e', 'n', 'c', 'e'],
            MetaFieldType::METAOBJECTREFERENCE => &['m', 'e', 't', 'a', 'o', 'b', 'j', 'e', 'c', 't', '_', 'r', 'e', 'f', 'e', 'r', 'e', 'n', 'c', 'e'],
            MetaFieldType::MIXEDREFERENCE => &['m', 'i', 'x', 'e', 'd', '_', 'r', 'e', 'f', 'e', 'r', 'e', 'n', 'c', 'e'],
            MetaFieldType::PAGEREFERENCE => &['p', 'a', 'g', 'e', '_', 'r', 'e', 'f', 'e', 'r', 'e', 'n', 'c', 'e'],
            MetaFieldType::PRODUCTREFERENCE => &['p', 'r', 'o', 'd', 'u', 'c', 't', '_', 'r', 'e', 'f', 'e', 'r', 'e', 'n', 'c', 'e'],
            MetaFieldType::VARIANTREFERENCE => &['v', 'a', 'r', 'i', 'a', 'n', 't', '_', 'r', 'e', 'f', 'e', 'r', 'e', 'n', 'c', 'e'],
            MetaFieldType::LISTCOLLECTIONREFERENCE => &['l', 'i', 's', 't', '.', 'c', 'o', 'l', 'l', 'e', 'c', 't', 'i', 'o', 'n', '_', 'r', 'e', 'f', 'e', 'r', 'e', 'n', 'c', 'e'],
            MetaFieldType::LISTCOLOR => &['l', 'i', 's', 't', '.', 'c', 'o', 'l', 'o', 'r'],
            MetaFieldType::LISTDATE => &['l', 'i', 's', 't', '.', 'd', 'a', 't', 'e'],
            MetaFieldType::LISTDATETIME => &['l', 'i', 's', 't', '.', 'd', 'a', 't', 'e', '_', 't', 'i', 'm', 'e'],
            MetaFieldType::LISTDIMENSION => &['l', 'i', 's', 't', '.', 'd', 'i', 'm', 'e', 'n', 's', 'i', 'o', 'n'],
            MetaFieldType::LISTFILEREFERENCE => &['l', 'i', 's', 't', '.', 'f', 'i', 'l', 'e', '_', 'r', 'e', 'f', 'e', 'r', 'e', 'n', 'c', 'e'],
            MetaFieldType::LISTLINK => &['l', 'i', 's', 't', '.', 'l', 'i', 'n', 'k'],
            MetaFieldType::LISTMETAOBJECTREFERENCE => &['l', 'i', 's', 't', '.', 'm', 'e', 't', 'a', 'o', 'b', 'j', 'e', 'c', 't', '_', 'r', 'e', 'f', 'e', 'r', 'e', 'n', 'c', 'e'],
            MetaFieldType::LISTMIXEDREFERENCE => &['l', 'i', 's', 't', '.', 'm', 'i', 'x', 'e', 'd', '_', 'r', 'e', 'f', 'e', 'r', 'e', 'n', 'c', 'e'],
            MetaFieldType::LISTNUMBERINTEGER => &['l', 'i', 's', 't', '.', 'n', 'u', 'm', 'b', 'e', 'r', '_', 'i', 'n', 't', 'e', 'g', 'e', 'r'],
            MetaFieldType::LISTNUMBERDECIMAL => &['l', 'i', 's', 't', '.', 'n', 'u', 'm', 'b', 'e', 'r', '_', 'd', 'e', 'c', 'i', 'm', 'a', 'l'],
            MetaFieldType::LISTPAGEREFERENCE => &['l', 'i', 's', 't', '.', 'p', 'a', 'g', 'e', '_', 'r', 'e', 'f', 'e', 'r', 'e', 'n', 'c', 'e'],
            MetaFieldType::LISTPRODUCTREFERENCE => &['l', 'i', 's', 't', '.', 'p', 'r', 'o', 'd', 'u', 'c', 't', '_', 'r', 'e', 'f', 'e', 'r', 'e', 'n', 'c', 'e'],
            MetaFieldType::LISTRATING => &['l', 'i', 's', 't', '.', 'r', 'a', 't', 'i', 'n', 'g'],
            MetaFieldType::LISTSINGLELINETEXTFIELD => &['l', 'i', 's', 't', '.', 's', 'i', 'n', 'g', 'l', 'e', '_', 'l', 'i', 'n', 'e', '_', 't', 'e', 'x', 't', '_', 'f', 'i', 'e', 'l', 'd'],
            MetaFieldType::LISTURL => &['l', 'i', 's', 't', '.', 'u', 'r', 'l'],
            MetaFieldType::LISTVARIANTREFERENCE => &['l', 'i', 's', 't', '.', 'v', 'a', 'r', 'i', 'a', 'n', 't', '_', 'r', 'e', 'f', 'e', 'r', 'e', 'n', 'c', 'e'],
            MetaFieldType::LISTVOLUME => &['l', 'i', 's', 't', '.', 'v', 'o', 'l', 'u', 'm', 'e'],
            MetaFieldType::LISTWEIGHT => &['l', 'i', 's', 't', '.', 'w', 'e', 'i', 'g', 'h', 't'],
        };
        string_from_slice(text)
    }
}

/// The value whose text `to_string` gives is `s`, if any (looked up by
/// the length of the text first).
pub open spec fn spec_meta_field_type_of_text(s: Seq<char>) -> Option<MetaFieldType> {
    if s.len() == 3 {
        if s == seq!['u', 'r', 'l'] {
            Some(MetaFieldType::URL)
        } else {
            None
        }
    } else if s.len() == 4 {
        if s == seq!['d', 'a', 't', 'e'] {
            Some(MetaFieldType::DATE)
        } else if s == seq!['j', 's', 'o', 'n'] {
            Some(MetaFieldType::JSON)
        } else if s == seq!['l', 'i', 'n', 'k'] {
            Some(MetaFieldType::LINK)
        } else {
            None
        }
    } else if s.len() == 5 {
        if s == seq!['c', 'o', 'l', 'o', 'r'] {
            Some(MetaFieldType::COLOR)
        } else if s == seq!['m', 'o', 'n', 'e', 'y'] {
            Some(MetaFieldType::MONEY)
        } else {
            None
        }
    } else if s.len() == 6 {
        if s == seq!['r', 'a', 't', 'i', 'n', 'g'] {
            Some(MetaFieldType::RATING)
        } else if s == seq!['v', 'o', 'l', 'u', 'm', 'e'] {
            Some(MetaFieldType::VOLUME)
        } else if s == seq!['w', 'e', 'i', 'g', 'h', 't'] {
            Some(MetaFieldType::WEIGHT)
        } else {
            None
        }
    } else if s.len() == 7 {
        if s == seq!['b', 'o', 'o', 'l', 'e', 'a', 'n'] {
            Some(MetaFieldType::BOOLEAN)
        } else {
            None
        }
    } else if s.len() == 8 {
        if s == seq!['l', 'i', 's', 't', '.', 'u', 'r', 'l'] {
            Some(MetaFieldType::LISTURL)
        } else {
            None
        }
    } else if s.len() == 9 {
        if s == seq!['d', 'a', 't', 'e', '_', 't', 'i', 'm', 'e'] {
            Some(MetaFieldType::DATETIME)
        } else if s == seq!['d', 'i', 'm', 'e', 'n', 's', 'i', 'o', 'n'] {
            Some(MetaFieldType::DIMENSION)
        } else if s == seq!['l', 'i', 's', 't', '.', 'd', 'a', 't', 'e'] {
            Some(MetaFieldType::LISTDATE)
        } else if s == seq!['l', 'i', 's', 't', '.', 'l', 'i', 'n', 'k'] {
            Some(MetaFieldType::LISTLINK)
        } else {
            None
        }
    } else if s.len() == 10 {
        if s == seq!['l', 'i', 's', 't', '.', 'c', 'o', 'l', 'o', 'r'] {
            Some(MetaFieldType::LISTCOLOR)
        } else {
            None
        }
    } else if s.len() == 11 {
        if s == seq!['l', 'i', 's', 't', '.', 'r', 'a', 't', 'i', 'n', 'g'] {
            Some(MetaFieldType::LISTRATING)
        } else if s == seq!['l', 'i', 's', 't', '.', 'v', 'o', 'l', 'u', 'm', 'e'] {
            Some(MetaFieldType::LISTVOLUME)
        } else if s == seq!['l', 'i', 's', 't', '.', 'w', 'e', 'i', 'g', 'h', 't'] {
            Some(MetaFieldType::LISTWEIGHT)
        } else {
            None
        }
    } else if s.len() == 14 {
        if s == seq!['n', 'u', 'm', 'b', 'e', 'r', '_', 'd', 'e', 'c', 'i', 'm', 'a', 'l'] {
            Some(MetaFieldType::NUMBERDECIMAL)
        } else if s == seq!['n', 'u', 'm', 'b', 'e', 'r', '_', 'i', 'n', 't', 'e', 'g', 'e', 'r'] {
            Some(MetaFieldType::NUMBERINTEGER)
        } else if s == seq!['f', 'i', 'l', 'e', '_', 'r', 'e', 'f', 'e', 'r', 'e', 'n', 'c', 'e'] {
            Some(MetaFieldType::FILEREFERENCE)
        } else if s == seq!['p', 'a', 'g', 'e', '_', 'r', 'e', 'f', 'e', 'r', 'e', 'n', 'c', 'e'] {
            Some(MetaFieldType::PAGEREFERENCE)
        } else if s == seq!['l', 'i', 's', 't', '.', 'd', 'a', 't', 'e', '_', 't', 'i', 'm', 'e'] {
            Some(MetaFieldType::LISTDATETIME)
        } else if s == seq!['l', 'i', 's', 't', '.', 'd', 'i', 'm', 'e', 'n', 's', 'i', 'o', 'n'] {
            Some(MetaFieldType::LISTDIMENSION)
        } else {
            None
        }
    } else if s.len() == 15 {
        if s == seq!['r', 'i', 'c', 'h', '_', 't', 'e', 'x', 't', '_', 'f', 'i', 'e', 'l', 'd'] {
            Some(MetaFieldType::RICHTEXTFIELD)
        } else if s == seq!['m', 'i', 'x', 'e', 'd', '_', 'r', 'e', 'f', 'e', 'r', 'e', 'n', 'c', 'e'] {
            Some(MetaFieldType::MIXEDREFERENCE)
        } else {
            None
        }
    } else if s.len() == 17 {
        if s == seq!['p', 'r', 'o', 'd', 'u', 'c', 't', '_', 'r', 'e', 'f', 'e', 'r', 'e', 'n', 'c', 'e'] {
            Some(MetaFieldType::PRODUCTREFERENCE)
        } else if s == seq!['v', 'a', 'r', 'i', 'a', 'n', 't', '_', 'r', 'e', 'f', 'e', 'r', 'e', 'n', 'c', 'e'] {
            Some(MetaFieldType::VARIANTREFERENCE)
        } else {
            None
        }
    } else if s.len() == 19 {
        if s == seq!['l', 'i', 's', 't', '.', 'f', 'i', 'l', 'e', '_', 'r', 'e', 'f', 'e', 'r', 'e', 'n', 'c', 'e'] {
            Some(MetaFieldType::LISTFILEREFERENCE)
        } else if s == seq!['l', 'i', 's', 't', '.', 'n', 'u', 'm', 'b', 'e', 'r', '_', 'i', 'n', 't', 'e', 'g', 'e', 'r'] {
            Some(MetaFieldType::LISTNUMBERINTEGER)
        } else if s == seq!['l', 'i', 's', 't', '.', 'n', 'u', 'm', 'b', 'e', 'r', '_', 'd', 'e', 'c', 'i', 'm', 'a', 'l'] {
            Some(MetaFieldType::LISTNUMBERDECIMAL)
        } else if s == seq!['l', 'i', 's', 't', '.', 'p', 'a', 'g', 'e', '_', 'r', 'e', 'f', 'e', 'r', 'e', 'n', 'c', 'e'] {
            Some(MetaFieldType::LISTPAGEREFERENCE)
        } else {
            None
        }
    } else if s.len() == 20 {
        if s == seq!['c', 'o', 'l', 'l', 'e', 'c', 't', 'i', 'o', 'n', '_', 'r', 'e', 'f', 'e', 'r', 'e', 'n', 'c', 'e'] {
            Some(MetaFieldType::COLLECTIONREFERENCE)
        } else if s == seq!['m', 'e', 't', 'a', 'o', 'b', 'j', 'e', 'c', 't', '_', 'r', 'e', 'f', 'e', 'r', 'e', 'n', 'c', 'e'] {
            Some(MetaFieldType::METAOBJECTREFERENCE)
        } else if s == seq!['l', 'i', 's', 't', '.', 'm', 'i', 'x', 'e', 'd', '_', 'r', 'e', 'f', 'e', 'r', 'e', 'n', 'c', 'e'] {
            Some(MetaFieldType::LISTMIXEDREFERENCE)
        } else {
            None
        }
    } else if s.len() == 21 {
        if s == seq!['m', 'u', 'l', 't', 'i', '_', 'l', 'i', 'n', 'e', '_', 't', 'e', 'x', 't', '_', 'f', 'i', 'e', 'l', 'd'] {
            Some(MetaFieldType::MULTILINETEXTFIELD)
        } else {
            None
        }
    } else if s.len() == 22 {
        if s == seq!['s', 'i', 'n', 'g', 'l', 'e', '_', 'l', 'i', 'n', 'e', '_', 't', 'e', 'x', 't', '_', 'f', 'i', 'e', 'l', 'd'] {
            Some(MetaFieldType::SINGLELINETEXTFIELD)
        } else if s == seq!['l', 'i', 's', 't', '.', 'p', 'r', 'o', 'd', 'u', 'c', 't', '_', 'r', 'e', 'f', 'e', 'r', 'e', 'n', 'c', 'e'] {
            Some(MetaFieldType::LISTPRODUCTREFERENCE)
        } else if s == seq!['l', 'i', 's', 't', '.', 'v', 'a', 'r', 'i', 'a', 'n', 't', '_', 'r', 'e', 'f', 'e', 'r', 'e', 'n', 'c', 'e'] {
            Some(MetaFieldType::LISTVARIANTREFERENCE)
        } else {
            None
        }
    } else if s.len() == 25 {
        if s == seq!['l', 'i', 's', 't', '.', 'c', 'o', 'l', 'l', 'e', 'c', 't', 'i', 'o', 'n', '_', 'r', 'e', 'f', 'e', 'r', 'e', 'n', 'c', 'e'] {
            Some(MetaFieldType::LISTCOLLECTIONREFERENCE)
        } else if s == seq!['l', 'i', 's', 't', '.', 'm', 'e', 't', 'a', 'o', 'b', 'j', 'e', 'c', 't', '_', 'r', 'e', 'f', 'e', 'r', 'e', 'n', 'c', 'e'] {
            Some(MetaFieldType::LISTMETAOBJECTREFERENCE)
        } else {
            None
        }
    } else if s.len() == 27 {
        if s == seq!['l', 'i', 's', 't', '.', 's', 'i', 'n', 'g', 'l', 'e', '_', 'l', 'i', 'n', 'e', '_', 't', 'e', 'x', 't', '_', 'f', 'i', 'e', 'l', 'd'] {
            Some(MetaFieldType::LISTSINGLELINETEXTFIELD)
        } else {
            None
        }
    } else {
        None
    }
}

/// Each value is found again from its text: no earlier text in the
/// lookup equals it.
pub proof fn lemma_meta_field_type_of_own_text(v: MetaFieldType)
    ensures
        spec_meta_field_type_of_text(v.spec_to_string()) == Some(v),
{
    match v {
        MetaFieldType::BOOLEAN => {
            assert(seq!['b', 'o', 'o', 'l', 'e', 'a', 'n'].len() == 7);
        },
        MetaFieldType::COLOR => {
            assert(seq!['c', 'o', 'l', 'o', 'r'].len() == 5);
        },
        MetaFieldType::DATE => {
            assert(seq!['d', 'a', 't', 'e'].len() == 4);
        },
        MetaFieldType::DATETIME => {
            assert(seq!['d', 'a', 't', 'e', '_', 't', 'i', 'm', 'e'].len() == 9);
        },
        MetaFieldType::DIMENSION => {
            assert(seq!['d', 'i', 'm', 'e', 'n', 's', 'i', 'o', 'n'].len() == 9);
            assert(seq!['d', 'i', 'm', 'e', 'n', 's', 'i', 'o', 'n'][1] != seq!['d', 'a', 't', 'e', '_', 't', 'i', 'm', 'e'][1]);
        },
        MetaFieldType::JSON => {
            assert(seq!['j', 's', 'o', 'n'].len() == 4);
            assert(seq!['j', 's', 'o', 'n'][0] != seq!['d', 'a', 't', 'e'][0]);
        },
        MetaFieldType::LINK => {
            assert(seq!['l', 'i', 'n', 'k'].len() == 4);
            assert(seq!['l', 'i', 'n', 'k'][0] != seq!['d', 'a', 't', 'e'][0]);
            assert(seq!['l', 'i', 'n', 'k'][0] != seq!['j', 's', 'o', 'n'][0]);
        },
        MetaFieldType::MONEY => {
            assert(seq!['m', 'o', 'n', 'e', 'y'].len() == 5);
            assert(seq!['m', 'o', 'n', 'e', 'y'][0] != seq!['c', 'o', 'l', 'o', 'r'][0]);
        },
        MetaFieldType::MULTILINETEXTFIELD => {
            assert(seq!['m', 'u', 'l', 't', 'i', '_', 'l', 'i', 'n', 'e', '_', 't', 'e', 'x', 't', '_', 'f', 'i', 'e', 'l', 'd'].len() == 21);
        },
        MetaFieldType::NUMBERDECIMAL => {
            assert(seq!['n', 'u', 'm', 'b', 'e', 'r', '_', 'd', 'e', 'c', 'i', 'm', 'a', 'l'].len() == 14);
        },
        MetaFieldType::NUMBERINTEGER => {
            assert(seq!['n', 'u', 'm', 'b', 'e', 'r', '_', 'i', 'n', 't', 'e', 'g', 'e', 'r'].len() == 14);
            assert(seq!['n', 'u', 'm', 'b', 'e', 'r', '_', 'i', 'n', 't', 'e', 'g', 'e', 'r'][7] != seq!['n', 'u', 'm', 'b', 'e', 'r', '_', 'd', 'e', 'c', 'i', 'm', 'a', 'l'][7]);
        },
        MetaFieldType::RATING => {
            assert(seq!['r', 'a', 't', 'i', 'n', 'g'].len() == 6);
        },
        MetaFieldType::RICHTEXTFIELD => {
            assert(seq!['r', 'i', 'c', 'h', '_', 't', 'e', 'x', 't', '_', 'f', 'i', 'e', 'l', 'd'].len() == 15);
        },
        MetaFieldType::SINGLELINETEXTFIELD => {
            assert(seq!['s', 'i', 'n', 'g', 'l', 'e', '_', 'l', 'i', 'n', 'e', '_', 't', 'e', 'x', 't', '_', 'f', 'i', 'e', 'l', 'd'].len() == 22);
        },
        MetaFieldType::URL => {
            assert(seq!['u', 'r', 'l'].len() == 3);
        },
        MetaFieldType::VOLUME => {
            assert(seq!['v', 'o', 'l', 'u', 'm', 'e'].len() == 6);
            assert(seq!['v', 'o', 'l', 'u', 'm', 'e'][0] != seq!['r', 'a', 't', 'i', 'n', 'g'][0]);
        },
        MetaFieldType::WEIGHT => {
            assert(seq!['w', 'e', 'i', 'g', 'h', 't'].len() == 6);
            assert(seq!['w', 'e', 'i', 'g', 'h', 't'][0] != seq!['r', 'a', 't', 'i', 'n', 'g'][0]);
            assert(seq!['w', 'e', 'i', 'g', 'h', 't'][0] != seq!['v', 'o', 'l', 'u', 'm', 'e'][0]);
        },
        MetaFieldType::COLLECTIONREFERENCE => {
            assert(seq!['c', 'o', 'l', 'l', 'e', 'c', 't', 'i', 'o', 'n', '_', 'r', 'e', 'f', 'e', 'r', 'e', 'n', 'c', 'e'].len() == 20);
        },
        MetaFieldType::FILEREFERENCE => {
            assert(seq!['f', 'i', 'l', 'e', '_', 'r', 'e', 'f', 'e', 'r', 'e', 'n', 'c', 'e'].len() == 14);
            assert(seq!['f', 'i', 'l', 'e', '_', 'r', 'e', 'f', 'e', 'r', 'e', 'n', 'c', 'e'][0] != seq!['n', 'u', 'm', 'b', 'e', 'r', '_', 'd', 'e', 'c', 'i', 'm', 'a', 'l'][0]);
            assert(seq!['f', 'i', 'l', 'e', '_', 'r', 'e', 'f', 'e', 'r', 'e', 'n', 'c', 'e'][0] != seq!['n', 'u', 'm', 'b', 'e', 'r', '_', 'i', 'n', 't', 'e', 'g', 'e', 'r'][0]);
        },
        MetaFieldType::METAOBJECTREFERENCE => {
            assert(seq!['m', 'e', 't', 'a', 'o', 'b', 'j', 'e', 'c', 't', '_', 'r', 'e', 'f', 'e', 'r', 'e', 'n', 'c', 'e'].len() == 20);
            assert(seq!['m', 'e', 't', 'a', 'o', 'b', 'j', 'e', 'c', 't', '_', 'r', 'e', 'f', 'e', 'r', 'e', 'n', 'c', 'e'][0] != seq!['c', 'o', 'l', 'l', 'e', 'c', 't', 'i', 'o', 'n', '_', 'r', 'e', 'f', 'e', 'r', 'e', 'n', 'c', 'e'][0]);
        },
        MetaFieldType::MIXEDREFERENCE => {
            assert(seq!['m', 'i', 'x', 'e', 'd', '_', 'r', 'e', 'f', 'e', 'r', 'e', 'n', 'c', 'e'].len() == 15);
            assert(seq!['m', 'i', 'x', 'e', 'd', '_', 'r', 'e', 'f', 'e', 'r', 'e', 'n', 'c', 'e'][0] != seq!['r', 'i', 'c', 'h', '_', 't', 'e', 'x', 't', '_', 'f', 'i', 'e', 'l', 'd'][0]);
        },
        MetaFieldType::PAGEREFERENCE => {
            assert(seq!['p', 'a', 'g', 'e', '_', 'r', 'e', 'f', 'e', 'r', 'e', 'n', 'c', 'e'].len() == 14);
            assert(seq!['p', 'a', 'g', 'e', '_', 'r', 'e', 'f', 'e', 'r', 'e', 'n', 'c', 'e'][0] != seq!['n', 'u', 'm', 'b', 'e', 'r', '_', 'd', 'e', 'c', 'i', 'm', 'a', 'l'][0]);
            assert(seq!['p', 'a', 'g', 'e', '_', 'r', 'e', 'f', 'e', 'r', 'e', 'n', 'c', 'e'][0] != seq!['n', 'u', 'm', 'b', 'e', 'r', '_', 'i', 'n', 't', 'e', 'g', 'e', 'r'][0]);
            assert(seq!['p', 'a', 'g', 'e', '_', 'r', 'e', 'f', 'e', 'r', 'e', 'n', 'c', 'e'][0] != seq!['f', 'i', 'l', 'e', '_', 'r', 'e', 'f', 'e', 'r', 'e', 'n', 'c', 'e'][0]);
        },
        MetaFieldType::PRODUCTREFERENCE => {
            assert(seq!['p', 'r', 'o', 'd', 'u', 'c', 't', '_', 'r', 'e', 'f', 'e', 'r', 'e', 'n', 'c', 'e'].len() == 17);
        },
        MetaFieldType::VARIANTREFERENCE => {
            assert(seq!['v', 'a', 'r', 'i', 'a', 'n', 't', '_', 'r', 'e', 'f', 'e', 'r', 'e', 'n', 'c', 'e'].len() == 17);
            assert(seq!['v', 'a', 'r', 'i', 'a', 'n', 't', '_', 'r', 'e', 'f', 'e', 'r', 'e', 'n', 'c', 'e'][0] != seq!['p', 'r', 'o', 'd', 'u', 'c', 't', '_', 'r', 'e', 'f', 'e', 'r', 'e', 'n', 'c', 'e'][0]);
        },
        MetaFieldType::LISTCOLLECTIONREFERENCE => {
            assert(seq!['l', 'i', 's', 't', '.', 'c', 'o', 'l', 'l', 'e', 'c', 't', 'i', 'o', 'n', '_', 'r', 'e', 'f', 'e', 'r', 'e', 'n', 'c', 'e'].len() == 25);
        },
        MetaFieldType::LISTCOLOR => {
            assert(seq!['l', 'i', 's', 't', '.', 'c', 'o', 'l', 'o', 'r'].len() == 10);
        },
        MetaFieldType::LISTDATE => {
            assert(seq!['l', 'i', 's', 't', '.', 'd', 'a', 't', 'e'].len() == 9);
            assert(seq!['l', 'i', 's', 't', '.', 'd', 'a', 't', 'e'][0] != seq!['d', 'a', 't', 'e', '_', 't', 'i', 'm', 'e'][0]);
            assert(seq!['l', 'i', 's', 't', '.', 'd', 'a', 't', 'e'][0] != seq!['d', 'i', 'm', 'e', 'n', 's', 'i', 'o', 'n'][0]);
        },
        MetaFieldType::LISTDATETIME => {
            assert(seq!['l', 'i', 's', 't', '.', 'd', 'a', 't', 'e', '_', 't', 'i', 'm', 'e'].len() == 14);
            assert(seq!['l', 'i', 's', 't', '.', 'd', 'a', 't', 'e', '_', 't', 'i', 'm', 'e'][0] != seq!['n', 'u', 'm', 'b', 'e', 'r', '_', 'd', 'e', 'c', 'i', 'm', 'a', 'l'][0]);
            assert(seq!['l', 'i', 's', 't', '.', 'd', 'a', 't', 'e', '_', 't', 'i', 'm', 'e'][0] != seq!['n', 'u', 'm', 'b', 'e', 'r', '_', 'i', 'n', 't', 'e', 'g', 'e', 'r'][0]);
            assert(seq!['l', 'i', 's', 't', '.', 'd', 'a', 't', 'e', '_', 't', 'i', 'm', 'e'][0] != seq!['f', 'i', 'l', 'e', '_', 'r', 'e', 'f', 'e', 'r', 'e', 'n', 'c', 'e'][0]);
            assert(seq!['l', 'i', 's', 't', '.', 'd', 'a', 't', 'e', '_', 't', 'i', 'm', 'e'][0] != seq!['p', 'a', 'g', 'e', '_', 'r', 'e', 'f', 'e', 'r', 'e', 'n', 'c', 'e'][0]);
        },
        MetaFieldType::LISTDIMENSION => {
            assert(seq!['l', 'i', 's', 't', '.', 'd', 'i', 'm', 'e', 'n', 's', 'i', 'o', 'n'].len() == 14);
            assert(seq!['l', 'i', 's', 't', '.', 'd', 'i', 'm', 'e', 'n', 's', 'i', 'o', 'n'][0] != seq!['n', 'u', 'm', 'b', 'e', 'r', '_', 'd', 'e', 'c', 'i', 'm', 'a', 'l'][0]);
            assert(seq!['l', 'i', 's', 't', '.', 'd', 'i', 'm', 'e', 'n', 's', 'i', 'o', 'n'][0] != seq!['n', 'u', 'm', 'b', 'e', 'r', '_', 'i', 'n', 't', 'e', 'g', 'e', 'r'][0]);
            assert(seq!['l', 'i', 's', 't', '.', 'd', 'i', 'm', 'e', 'n', 's', 'i', 'o', 'n'][0] != seq!['f', 'i', 'l', 'e', '_', 'r', 'e', 'f', 'e', 'r', 'e', 'n', 'c', 'e'][0]);
            assert(seq!['l', 'i', 's', 't', '.', 'd', 'i', 'm', 'e', 'n', 's', 'i', 'o', 'n'][0] != seq!['p', 'a', 'g', 'e', '_', 'r', 'e', 'f', 'e', 'r', 'e', 'n', 'c', 'e'][0]);
            assert(seq!['l', 'i', 's', 't', '.', 'd', 'i', 'm', 'e', 'n', 's', 'i', 'o', 'n'][6] != seq!['l', 'i', 's', 't', '.', 'd', 'a', 't', 'e', '_', 't', 'i', 'm', 'e'][6]);
        },
        MetaFieldType::LISTFILEREFERENCE => {
            assert(seq!['l', 'i', 's', 't', '.', 'f', 'i', 'l', 'e', '_', 'r', 'e', 'f', 'e', 'r', 'e', 'n', 'c', 'e'].len() == 19);
        },
        MetaFieldType::LISTLINK => {
            assert(seq!['l', 'i', 's', 't', '.', 'l', 'i', 'n', 'k'].len() == 9);
            assert(seq!['l', 'i', 's', 't', '.', 'l', 'i', 'n', 'k'][0] != seq!['d', 'a', 't', 'e', '_', 't', 'i', 'm', 'e'][0]);
            assert(seq!['l', 'i', 's', 't', '.', 'l', 'i', 'n', 'k'][0] != seq!['d', 'i', 'm', 'e', 'n', 's', 'i', 'o', 'n'][0]);
            assert(seq!['l', 'i', 's', 't', '.', 'l', 'i', 'n', 'k'][5] != seq!['l', 'i', 's', 't', '.', 'd', 'a', 't', 'e'][5]);
        },
        MetaFieldType::LISTMETAOBJECTREFERENCE => {
            assert(seq!['l', 'i', 's', 't', '.', 'm', 'e', 't', 'a', 'o', 'b', 'j', 'e', 'c', 't', '_', 'r', 'e', 'f', 'e', 'r', 'e', 'n', 'c', 'e'].len() == 25);
            assert(seq!['l', 'i', 's', 't', '.', 'm', 'e', 't', 'a', 'o', 'b', 'j', 'e', 'c', 't', '_', 'r', 'e', 'f', 'e', 'r', 'e', 'n', 'c', 'e'][5] != seq!['l', 'i', 's', 't', '.', 'c', 'o', 'l', 'l', 'e', 'c', 't', 'i', 'o', 'n', '_', 'r', 'e', 'f', 'e', 'r', 'e', 'n', 'c', 'e'][5]);
        },
        MetaFieldType::LISTMIXEDREFERENCE => {
            assert(seq!['l', 'i', 's', 't', '.', 'm', 'i', 'x', 'e', 'd', '_', 'r', 'e', 'f', 'e', 'r', 'e', 'n', 'c', 'e'].len() == 20);
            assert(seq!['l', 'i', 's', 't', '.', 'm', 'i', 'x', 'e', 'd', '_', 'r', 'e', 'f', 'e', 'r', 'e', 'n', 'c', 'e'][0] != seq!['c', 'o', 'l', 'l', 'e', 'c', 't', 'i', 'o', 'n', '_', 'r', 'e', 'f', 'e', 'r', 'e', 'n', 'c', 'e'][0]);
            assert(seq!['l', 'i', 's', 't', '.', 'm', 'i', 'x', 'e', 'd', '_', 'r', 'e', 'f', 'e', 'r', 'e', 'n', 'c', 'e'][0] != seq!['m', 'e', 't', 'a', 'o', 'b', 'j', 'e', 'c', 't', '_', 'r', 'e', 'f', 'e', 'r', 'e', 'n', 'c', 'e'][0]);
        },
        MetaFieldType::LISTNUMBERINTEGER => {
            assert(seq!['l', 'i', 's', 't', '.', 'n', 'u', 'm', 'b', 'e', 'r', '_', 'i', 'n', 't', 'e', 'g', 'e', 'r'].len() == 19);
            assert(seq!['l', 'i', 's', 't', '.', 'n', 'u', 'm', 'b', 'e', 'r', '_', 'i', 'n', 't', 'e', 'g', 'e', 'r'][5] != seq!['l', 'i', 's', 't', '.', 'f', 'i', 'l', 'e', '_', 'r', 'e', 'f', 'e', 'r', 'e', 'n', 'c', 'e'][5]);
        },
        MetaFieldType::LISTNUMBERDECIMAL => {
            assert(seq!['l', 'i', 's', 't', '.', 'n', 'u', 'm', 'b', 'e', 'r', '_', 'd', 'e', 'c', 'i', 'm', 'a', 'l'].len() == 19);
            assert(seq!['l', 'i', 's', 't', '.', 'n', 'u', 'm', 'b', 'e', 'r', '_', 'd', 'e', 'c', 'i', 'm', 'a', 'l'][5] != seq!['l', 'i', 's', 't', '.', 'f', 'i', 'l', 'e', '_', 'r', 'e', 'f', 'e', 'r', 'e', 'n', 'c', 'e'][5]);
            assert(seq!['l', 'i', 's', 't', '.', 'n', 'u', 'm', 'b', 'e', 'r', '_', 'd', 'e', 'c', 'i', 'm', 'a', 'l'][12] != seq!['l', 'i', 's', 't', '.', 'n', 'u', 'm', 'b', 'e', 'r', '_', 'i', 'n', 't', 'e', 'g', 'e', 'r'][12]);
        },
        MetaFieldType::LISTPAGEREFERENCE => {
            assert(seq!['l', 'i', 's', 't', '.', 'p', 'a', 'g', 'e', '_', 'r', 'e', 'f', 'e', 'r', 'e', 'n', 'c', 'e'].len() == 19);
            assert(seq!['l', 'i', 's', 't', '.', 'p', 'a', 'g', 'e', '_', 'r', 'e', 'f', 'e', 'r', 'e', 'n', 'c', 'e'][5] != seq!['l', 'i', 's', 't', '.', 'f', 'i', 'l', 'e', '_', 'r', 'e', 'f', 'e', 'r', 'e', 'n', 'c', 'e'][5]);
            assert(seq!['l', 'i', 's', 't', '.', 'p', 'a', 'g', 'e', '_', 'r', 'e', 'f', 'e', 'r', 'e', 'n', 'c', 'e'][5] != seq!['l', 'i', 's', 't', '.', 'n', 'u', 'm', 'b', 'e', 'r', '_', 'i', 'n', 't', 'e', 'g', 'e', 'r'][5]);
            assert(seq!['l', 'i', 's', 't', '.', 'p', 'a', 'g', 'e', '_', 'r', 'e', 'f', 'e', 'r', 'e', 'n', 'c', 'e'][5] != seq!['l', 'i', 's', 't', '.', 'n', 'u', 'm', 'b', 'e', 'r', '_', 'd', 'e', 'c', 'i', 'm', 'a', 'l'][5]);
        },
        MetaFieldType::LISTPRODUCTREFERENCE => {
            assert(seq!['l', 'i', 's', 't', '.', 'p', 'r', 'o', 'd', 'u', 'c', 't', '_', 'r', 'e', 'f', 'e', 'r', 'e', 'n', 'c', 'e'].len() == 22);
            assert(seq!['l', 'i', 's', 't', '.', 'p', 'r', 'o', 'd', 'u', 'c', 't', '_', 'r', 'e', 'f', 'e', 'r', 'e', 'n', 'c', 'e'][0] != seq!['s', 'i', 'n', 'g', 'l', 'e', '_', 'l', 'i', 'n', 'e', '_', 't', 'e', 'x', 't', '_', 'f', 'i', 'e', 'l', 'd'][0]);
        },
        MetaFieldType::LISTRATING => {
            assert(seq!['l', 'i', 's', 't', '.', 'r', 'a', 't', 'i', 'n', 'g'].len() == 11);
        },
        MetaFieldType::LISTSINGLELINETEXTFIELD => {
            assert(seq!['l', 'i', 's', 't', '.', 's', 'i', 'n', 'g', 'l', 'e', '_', 'l', 'i', 'n', 'e', '_', 't', 'e', 'x', 't', '_', 'f', 'i', 'e', 'l', 'd'].len() == 27);
        },
        MetaFieldType::LISTURL => {
            assert(seq!['l', 'i', 's', 't', '.', 'u', 'r', 'l'].len() == 8);
        },
        MetaFieldType::LISTVARIANTREFERENCE => {
            assert(seq!['l', 'i', 's', 't', '.', 'v', 'a', 'r', 'i', 'a', 'n', 't', '_', 'r', 'e', 'f', 'e', 'r', 'e', 'n', 'c', 'e'].len() == 22);
            assert(seq!['l', 'i', 's', 't', '.', 'v', 'a', 'r', 'i', 'a', 'n', 't', '_', 'r', 'e', 'f', 'e', 'r', 'e', 'n', 'c', 'e'][0] != seq!['s', 'i', 'n', 'g', 'l', 'e', '_', 'l', 'i', 'n', 'e', '_', 't', 'e', 'x', 't', '_', 'f', 'i', 'e', 'l', 'd'][0]);
            assert(seq!['l', 'i', 's', 't', '.', 'v', 'a', 'r', 'i', 'a', 'n', 't', '_', 'r', 'e', 'f', 'e', 'r', 'e', 'n', 'c', 'e'][5] != seq!['l', 'i', 's', 't', '.', 'p', 'r', 'o', 'd', 'u', 'c', 't', '_', 'r', 'e', 'f', 'e', 'r', 'e', 'n', 'c', 'e'][5]);
        },
        MetaFieldType::LISTVOLUME => {
            assert(seq!['l', 'i', 's', 't', '.', 'v', 'o', 'l', 'u', 'm', 'e'].len() == 11);
            assert(seq!['l', 'i', 's', 't', '.', 'v', 'o', 'l', 'u', 'm', 'e'][5] != seq!['l', 'i', 's', 't', '.', 'r', 'a', 't', 'i', 'n', 'g'][5]);
        },
        MetaFieldType::LISTWEIGHT => {
            assert(seq!['l', 'i', 's', 't', '.', 'w', 'e', 'i', 'g', 'h', 't'].len() == 11);
            assert(seq!['l', 'i', 's', 't', '.', 'w', 'e', 'i', 'g', 'h', 't'][5] != seq!['l', 'i', 's', 't', '.', 'r', 'a', 't', 'i', 'n', 'g'][5]);
            assert(seq!['l', 'i', 's', 't', '.', 'w', 'e', 'i', 'g', 'h', 't'][5] != seq!['l', 'i', 's', 't', '.', 'v', 'o', 'l', 'u', 'm', 'e'][5]);
        },
    }
}

/// `to_string` gives distinct texts for distinct values.
pub proof fn lemma_meta_field_type_to_string_injective(a: MetaFieldType, b: MetaFieldType)
    requires
        a.spec_to_string() == b.spec_to_string(),
    ensures
        a == b,
{
    lemma_meta_field_type_of_own_text(a);
    lemma_meta_field_type_of_own_text(b);
}

/// Reading back the text of a value gives the value again (for every value whose text is not mapped elsewhere).
pub proof fn lemma_meta_field_type_round_trip(v: MetaFieldType)
    requires
        !(v is URL),
        !(v is VOLUME),
        !(v is WEIGHT),
        !(v is COLLECTIONREFERENCE),
        !(v is FILEREFERENCE),
        !(v is METAOBJECTREFERENCE),
        !(v is MIXEDREFERENCE),
        !(v is PAGEREFERENCE),
        !(v is PRODUCTREFERENCE),
        !(v is VARIANTREFERENCE),
        !(v is LISTCOLLECTIONREFERENCE),
        !(v is LISTCOLOR),
        !(v is LISTDATE),
        !(v is LISTDATETIME),
        !(v is LISTDIMENSION),
        !(v is LISTFILEREFERENCE),
        !(v is LISTLINK),
        !(v is LISTMETAOBJECTREFERENCE),
        !(v is LISTMIXEDREFERENCE),
        !(v is LISTNUMBERINTEGER),
        !(v is LISTNUMBERDECIMAL),
        !(v is LISTPAGEREFERENCE),
        !(v is LISTPRODUCTREFERENCE),
        !(v is LISTRATING),
        !(v is LISTSINGLELINETEXTFIELD),
        !(v is LISTURL),
        !(v is LISTVARIANTREFERENCE),
        !(v is LISTVOLUME),
        !(v is LISTWEIGHT),
    ensures
        MetaFieldType::spec_from_str(v.spec_to_string()) == v,
{
    match v {
        MetaFieldType::BOOLEAN => {},
        MetaFieldType::COLOR => {},
        MetaFieldType::DATE => {},
        MetaFieldType::DATETIME => {
            assert(seq!['d', 'a', 't', 'e', '_', 't', 'i', 'm', 'e'].len() != seq!['d', 'a', 't', 'e'].len());
        },
        MetaFieldType::DIMENSION => {
            assert(seq!['d', 'i', 'm', 'e', 'n', 's', 'i', 'o', 'n'][1] != seq!['d', 'a', 't', 'e', '_', 't', 'i', 'm', 'e'][1]);
        },
        MetaFieldType::JSON => {
            assert(seq!['j', 's', 'o', 'n'][0] != seq!['d', 'a', 't', 'e'][0]);
        },
        MetaFieldType::LINK => {
            assert(seq!['l', 'i', 'n', 'k'][0] != seq!['d', 'a', 't', 'e'][0]);
            assert(seq!['l', 'i', 'n', 'k'][0] != seq!['j', 's', 'o', 'n'][0]);
        },
        MetaFieldType::MONEY => {
            assert(seq!['m', 'o', 'n', 'e', 'y'][0] != seq!['c', 'o', 'l', 'o', 'r'][0]);
        },
        MetaFieldType::MULTILINETEXTFIELD => {},
        MetaFieldType::NUMBERDECIMAL => {},
        MetaFieldType::NUMBERINTEGER => {
            assert(seq!['n', 'u', 'm', 'b', 'e', 'r', '_', 'i', 'n', 't', 'e', 'g', 'e', 'r'][7] != seq!['n', 'u', 'm', 'b', 'e', 'r', '_', 'd', 'e', 'c', 'i', 'm', 'a', 'l'][7]);
        },
        MetaFieldType::RATING => {},
        MetaFieldType::RICHTEXTFIELD => {},
        MetaFieldType::SINGLELINETEXTFIELD => {
            assert(seq!['s', 'i', 'n', 'g', 'l', 'e', '_', 'l', 'i', 'n', 'e', '_', 't', 'e', 'x', 't', '_', 'f', 'i', 'e', 'l', 'd'].len() != seq!['b', 'o', 'o', 'l', 'e', 'a', 'n'].len());
            assert(seq!['s', 'i', 'n', 'g', 'l', 'e', '_', 'l', 'i', 'n', 'e', '_', 't', 'e', 'x', 't', '_', 'f', 'i', 'e', 'l', 'd'].len() != seq!['c', 'o', 'l', 'o', 'r'].len());
            assert(seq!['s', 'i', 'n', 'g', 'l', 'e', '_', 'l', 'i', 'n', 'e', '_', 't', 'e', 'x', 't', '_', 'f', 'i', 'e', 'l', 'd'].len() != seq!['d', 'a', 't', 'e'].len());
            assert(seq!['s', 'i', 'n', 'g', 'l', 'e', '_', 'l', 'i', 'n', 'e', '_', 't', 'e', 'x', 't', '_', 'f', 'i', 'e', 'l', 'd'].len() != seq!['d', 'a', 't', 'e', '_', 't', 'i', 'm', 'e'].len());
            assert(seq!['s', 'i', 'n', 'g', 'l', 'e', '_', 'l', 'i', 'n', 'e', '_', 't', 'e', 'x', 't', '_', 'f', 'i', 'e', 'l', 'd'].len() != seq!['d', 'i', 'm', 'e', 'n', 's', 'i', 'o', 'n'].len());
            assert(seq!['s', 'i', 'n', 'g', 'l', 'e', '_', 'l', 'i', 'n', 'e', '_', 't', 'e', 'x', 't', '_', 'f', 'i', 'e', 'l', 'd'].len() != seq!['j', 's', 'o', 'n'].len());
            assert(seq!['s', 'i', 'n', 'g', 'l', 'e', '_', 'l', 'i', 'n', 'e', '_', 't', 'e', 'x', 't', '_', 'f', 'i', 'e', 'l', 'd'].len() != seq!['l', 'i', 'n', 'k'].len());
            assert(seq!['s', 'i', 'n', 'g', 'l', 'e', '_', 'l', 'i', 'n', 'e', '_', 't', 'e', 'x', 't', '_', 'f', 'i', 'e', 'l', 'd'].len() != seq!['m', 'o', 'n', 'e', 'y'].len());
            assert(seq!['s', 'i', 'n', 'g', 'l', 'e', '_', 'l', 'i', 'n', 'e', '_', 't', 'e', 'x', 't', '_', 'f', 'i', 'e', 'l', 'd'].len() != seq!['m', 'u', 'l', 't', 'i', '_', 'l', 'i', 'n', 'e', '_', 't', 'e', 'x', 't', '_', 'f', 'i', 'e', 'l', 'd'].len());
            assert(seq!['s', 'i', 'n', 'g', 'l', 'e', '_', 'l', 'i', 'n', 'e', '_', 't', 'e', 'x', 't', '_', 'f', 'i', 'e', 'l', 'd'].len() != seq!['n', 'u', 'm', 'b', 'e', 'r', '_', 'd', 'e', 'c', 'i', 'm', 'a', 'l'].len());
            assert(seq!['s', 'i', 'n', 'g', 'l', 'e', '_', 'l', 'i', 'n', 'e', '_', 't', 'e', 'x', 't', '_', 'f', 'i', 'e', 'l', 'd'].len() != seq!['n', 'u', 'm', 'b', 'e', 'r', '_', 'i', 'n', 't', 'e', 'g', 'e', 'r'].len());
            assert(seq!['s', 'i', 'n', 'g', 'l', 'e', '_', 'l', 'i', 'n', 'e', '_', 't', 'e', 'x', 't', '_', 'f', 'i', 'e', 'l', 'd'].len() != seq!['r', 'a', 't', 'i', 'n', 'g'].len());
            assert(seq!['s', 'i', 'n', 'g', 'l', 'e', '_', 'l', 'i', 'n', 'e', '_', 't', 'e', 'x', 't', '_', 'f', 'i', 'e', 'l', 'd'].len() != seq!['r', 'i', 'c', 'h', '_', 't', 'e', 'x', 't', '_', 'f', 'i', 'e', 'l', 'd'].len());
        },
        MetaFieldType::URL => {},
        MetaFieldType::VOLUME => {},
        MetaFieldType::WEIGHT => {},
        MetaFieldType::COLLECTIONREFERENCE => {},
        MetaFieldType::FILEREFERENCE => {},
        MetaFieldType::METAOBJECTREFERENCE => {},
        MetaFieldType::MIXEDREFERENCE => {},
        MetaFieldType::PAGEREFERENCE => {},
        MetaFieldType::PRODUCTREFERENCE => {},
        MetaFieldType::VARIANTREFERENCE => {},
        MetaFieldType::LISTCOLLECTIONREFERENCE => {},
        MetaFieldType::LISTCOLOR => {},
        MetaFieldType::LISTDATE => {},
        MetaFieldType::LISTDATETIME => {},
        MetaFieldType::LISTDIMENSION => {},
        MetaFieldType::LISTFILEREFERENCE => {},
        MetaFieldType::LISTLINK => {},
        MetaFieldType::LISTMETAOBJECTREFERENCE => {},
        MetaFieldType::LISTMIXEDREFERENCE => {},
        MetaFieldType::LISTNUMBERINTEGER => {},
        MetaFieldType::LISTNUMBERDECIMAL => {},
        MetaFieldType::LISTPAGEREFERENCE => {},
        MetaFieldType::LISTPRODUCTREFERENCE => {},
        MetaFieldType::LISTRATING => {},
        MetaFieldType::LISTSINGLELINETEXTFIELD => {},
        MetaFieldType::LISTURL => {},
        MetaFieldType::LISTVARIANTREFERENCE => {},
        MetaFieldType::LISTVOLUME => {},
        MetaFieldType::LISTWEIGHT => {},
    }
}

/// The id of the first metafield a `metafieldsSet` response lists, when it
/// has one. `ids` holds the ids of the listed metafields, `None` when the
/// response lists none.
pub open spec fn spec_first_set_metafield_id(ids: Option<Seq<Option<String>>>) -> Option<String> {
    match ids {
        Some(ids) => if ids.len() > 0 {
            ids[0]
        } else {
            None
        },
        None => None,
    }
}

/// The GID of the first metafield set; "No Metafield Created!" otherwise.
pub fn metafield_set_outcome(ids: Option<Vec<Option<String>>>) -> (r: Result<String, AppError>)
    ensures
        match spec_first_set_metafield_id(match ids {
            Some(v) => Some(v@),
            None => None,
        }) {
            Some(id) => r matches Ok(s) && s == id,
            None => r matches Err(e) && is_other_error(e, "No Metafield Created!"@),
        },
{
    match ids {
        Some(v) => {
            let mut v = v;
            if v.len() > 0 {
                match v.remove(0) {
                    Some(id) => return Ok(id),
                    None => {},
                }
            }
        },
        None => {},
    }
    Err(other_error("No Metafield Created!"))
}

/// Variables of `metafieldDelete`: `{input: {id}}`.
pub fn metafield_delete_variables(metafield_gid: &str) -> (r: JsonValue)
    ensures
        r@ == JsonView::Object(seq![("input"@, JsonView::Object(seq![("id"@, JsonView::Str(metafield_gid@))]))]),
{
    jobject1("input", jobject1("id", jstr(metafield_gid)))
}

} // verus!
